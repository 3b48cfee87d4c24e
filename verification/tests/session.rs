use codex_rc::channels::{FromCodexMessage, ToCodexMessage};
use codex_rc::json::{JsonNumber, JsonValue};
use codex_rc::session::{ClientEvent, CodexSession};

fn text(v: Option<&JsonValue>) -> Option<&str> {
    v.and_then(|v| v.as_str())
}

fn obj(entries: Vec<(&str, JsonValue)>) -> JsonValue {
    JsonValue::Object(entries.into_iter().map(|(k, v)| (k.to_string(), v)).collect())
}

fn s(t: &str) -> JsonValue {
    JsonValue::Str(t.to_string())
}

fn n(v: u64) -> JsonValue {
    JsonValue::Number(JsonNumber::PosInt(v))
}

/// A session in which client 7 started a turn that created thread `th-1`.
fn session_with_thread() -> CodexSession {
    let mut session = CodexSession::new();
    session.handle_to_codex(ToCodexMessage::StartTurn {
        client_id: 7,
        prompt: "hi".to_string(),
        cwd: None,
        model: None,
    });
    let step = session.handle_codex_message(obj(vec![
        ("id", n(1)),
        ("result", obj(vec![("thread", obj(vec![("id", s("th-1"))]))])),
    ]));
    assert!(step.send.is_some());
    session
}

fn notify(method: &str, params: JsonValue) -> JsonValue {
    obj(vec![("method", s(method)), ("params", params)])
}

#[test]
fn start_turn_requests_a_thread_first() {
    let mut session = CodexSession::new();
    let out = session.handle_to_codex(ToCodexMessage::StartTurn {
        client_id: 7,
        prompt: "hi".to_string(),
        cwd: Some("/work".to_string()),
        model: Some("gpt-5".to_string()),
    });
    assert_eq!(text(out.get("method")), Some("thread/start"));
    assert_eq!(out.get("id").and_then(|v| v.as_u64()), Some(1));
    let params = out.get("params").unwrap();
    assert_eq!(text(params.get("approvalPolicy")), Some("on-request"));
    assert_eq!(text(params.get("cwd")), Some("/work"));
    assert_eq!(text(params.get("model")), Some("gpt-5"));
}

#[test]
fn created_thread_gets_a_turn_with_the_prompt() {
    let mut session = CodexSession::new();
    session.handle_to_codex(ToCodexMessage::StartTurn {
        client_id: 7,
        prompt: "hi".to_string(),
        cwd: None,
        model: Some("gpt-5".to_string()),
    });
    let step = session.handle_codex_message(obj(vec![
        ("id", n(1)),
        ("result", obj(vec![("thread", obj(vec![("id", s("th-1"))]))])),
    ]));
    assert!(step.emit.is_none());
    let req = step.send.unwrap();
    assert_eq!(text(req.get("method")), Some("turn/start"));
    assert_eq!(req.get("id").and_then(|v| v.as_u64()), Some(2));
    let params = req.get("params").unwrap();
    assert_eq!(text(params.get("threadId")), Some("th-1"));
    assert_eq!(text(params.get("model")), Some("gpt-5"));
    match params.get("input") {
        Some(JsonValue::Array(items)) => assert_eq!(text(items[0].get("text")), Some("hi")),
        _ => panic!("input must be an array"),
    }
}

#[test]
fn thread_start_without_thread_id_is_an_error_for_the_starter() {
    let mut session = CodexSession::new();
    session.handle_to_codex(ToCodexMessage::StartTurn {
        client_id: 3,
        prompt: "hi".to_string(),
        cwd: None,
        model: None,
    });
    let step = session.handle_codex_message(obj(vec![("id", n(1)), ("result", obj(vec![]))]));
    assert!(step.send.is_none());
    match step.emit {
        Some(FromCodexMessage::Error { client_id, error }) => {
            assert_eq!(client_id, Some(3));
            assert_eq!(error, "thread/start returned no thread id");
        },
        other => panic!("unexpected {other:?}"),
    }
}

#[test]
fn error_responses_reach_the_requesting_client() {
    let mut session = CodexSession::new();
    session.handle_to_codex(ToCodexMessage::StartTurn {
        client_id: 5,
        prompt: "hi".to_string(),
        cwd: None,
        model: None,
    });
    let step = session.handle_codex_message(obj(vec![
        ("id", n(1)),
        ("error", obj(vec![("message", s("quota exceeded"))])),
    ]));
    match step.emit {
        Some(FromCodexMessage::Error { client_id, error }) => {
            assert_eq!(client_id, Some(5));
            assert_eq!(error, "quota exceeded");
        },
        other => panic!("unexpected {other:?}"),
    }
    // The request was answered: a second response for it is ignored.
    let again = session.handle_codex_message(obj(vec![("id", n(1)), ("error", obj(vec![]))]));
    assert!(again.emit.is_none() && again.send.is_none());
}

#[test]
fn error_without_message_is_unknown_error() {
    let mut session = CodexSession::new();
    session.handle_to_codex(ToCodexMessage::Interrupt {
        client_id: 2,
        thread_id: "t".to_string(),
        turn_id: "u".to_string(),
    });
    let step = session.handle_codex_message(obj(vec![("id", n(1)), ("error", obj(vec![]))]));
    match step.emit {
        Some(FromCodexMessage::Error { error, .. }) => assert_eq!(error, "Unknown error"),
        other => panic!("unexpected {other:?}"),
    }
}

#[test]
fn responses_to_unknown_requests_are_ignored() {
    let mut session = CodexSession::new();
    let step = session.handle_codex_message(obj(vec![("id", n(99)), ("result", obj(vec![]))]));
    assert!(step.send.is_none() && step.emit.is_none());
    let nothing = session.handle_codex_message(obj(vec![("jsonrpc", s("2.0"))]));
    assert!(nothing.send.is_none() && nothing.emit.is_none());
}

#[test]
fn turn_events_go_to_the_thread_owner() {
    let mut session = session_with_thread();
    let step = session.handle_codex_message(notify(
        "turn/started",
        obj(vec![("threadId", s("th-1")), ("turn", obj(vec![("id", s("tu-1"))]))]),
    ));
    match step.emit {
        Some(FromCodexMessage::TurnStarted { client_id, thread_id, turn_id }) => {
            assert_eq!(client_id, 7);
            assert_eq!(thread_id, "th-1");
            assert_eq!(turn_id, "tu-1");
        },
        other => panic!("unexpected {other:?}"),
    }
}

#[test]
fn events_of_unknown_threads_are_not_relayed() {
    let mut session = session_with_thread();
    let step = session.handle_codex_message(notify(
        "turn/started",
        obj(vec![("threadId", s("th-other")), ("turn", obj(vec![("id", s("tu-1"))]))]),
    ));
    assert!(step.emit.is_none());
}

#[test]
fn item_notifications_carry_item_and_turn() {
    let mut session = session_with_thread();
    let item = obj(vec![("id", s("it-1")), ("type", s("agentMessage"))]);
    let step = session.handle_codex_message(notify(
        "item/started",
        obj(vec![("threadId", s("th-1")), ("turnId", s("tu-1")), ("item", item)]),
    ));
    match step.emit {
        Some(FromCodexMessage::ItemStarted { client_id, thread_id, turn_id, item_id, item_type, item }) => {
            assert_eq!((client_id, thread_id.as_str(), turn_id.as_str()), (7, "th-1", "tu-1"));
            assert_eq!((item_id.as_str(), item_type.as_str()), ("it-1", "agentMessage"));
            assert_eq!(text(item.get("id")), Some("it-1"));
        },
        other => panic!("unexpected {other:?}"),
    }
    let done = session.handle_codex_message(notify(
        "item/completed",
        obj(vec![("threadId", s("th-1")), ("turnId", s("tu-1"))]),
    ));
    match done.emit {
        Some(FromCodexMessage::ItemCompleted { item_id, item, .. }) => {
            assert_eq!(item_id, "");
            assert!(matches!(item, JsonValue::Null));
        },
        other => panic!("unexpected {other:?}"),
    }
}

#[test]
fn deltas_are_classified_by_method() {
    let cases = [
        ("item/agentMessage/delta", "agentMessage"),
        ("item/reasoning/summaryTextDelta", "reasoning"),
        ("item/reasoning/textDelta", "reasoning"),
        ("item/commandExecution/outputDelta", "commandOutput"),
        ("item/fileChange/outputDelta", "fileChange"),
        ("item/plan/delta", "plan"),
    ];
    let mut session = session_with_thread();
    for (method, kind) in cases {
        let step = session.handle_codex_message(notify(
            method,
            obj(vec![
                ("threadId", s("th-1")),
                ("turnId", s("tu-1")),
                ("itemId", s("it-2")),
                ("delta", s("chunk")),
            ]),
        ));
        match step.emit {
            Some(FromCodexMessage::Delta { client_id, turn_id, item_id, delta_type, content, .. }) => {
                assert_eq!(client_id, 7);
                assert_eq!(turn_id, "tu-1");
                assert_eq!(item_id, "it-2");
                assert_eq!(delta_type, kind);
                assert_eq!(content, "chunk");
            },
            other => panic!("unexpected {other:?}"),
        }
    }
    let ignored = session.handle_codex_message(notify(
        "thread/tokenUsage/updated",
        obj(vec![("threadId", s("th-1"))]),
    ));
    assert!(ignored.emit.is_none());
}

#[test]
fn turn_completion_defaults_status_and_keeps_error() {
    let mut session = session_with_thread();
    let step = session.handle_codex_message(notify(
        "turn/completed",
        obj(vec![("threadId", s("th-1")), ("turn", obj(vec![("id", s("tu-1"))]))]),
    ));
    match step.emit {
        Some(FromCodexMessage::TurnCompleted { status, error, turn_id, .. }) => {
            assert_eq!(status, "completed");
            assert_eq!(turn_id, "tu-1");
            assert!(error.is_none());
        },
        other => panic!("unexpected {other:?}"),
    }
    let failed = session.handle_codex_message(notify(
        "turn/completed",
        obj(vec![
            ("threadId", s("th-1")),
            (
                "turn",
                obj(vec![("id", s("tu-2")), ("status", s("failed")), ("error", s("boom"))]),
            ),
        ]),
    ));
    match failed.emit {
        Some(FromCodexMessage::TurnCompleted { status, error, .. }) => {
            assert_eq!(status, "failed");
            assert_eq!(error.as_ref().and_then(|e| e.as_str()), Some("boom"));
        },
        other => panic!("unexpected {other:?}"),
    }
}

#[test]
fn approval_requests_go_to_owner_and_answers_are_forwarded() {
    let mut session = session_with_thread();
    let step = session.handle_codex_message(obj(vec![
        ("method", s("item/commandExecution/requestApproval")),
        ("id", n(17)),
        (
            "params",
            obj(vec![
                ("threadId", s("th-1")),
                ("turnId", s("tu-1")),
                ("itemId", s("it-3")),
                ("command", s("ls")),
            ]),
        ),
    ]));
    match step.emit {
        Some(FromCodexMessage::ApprovalRequest {
            client_id,
            thread_id,
            turn_id,
            item_id,
            request_id,
            method,
            detail,
        }) => {
            assert_eq!(client_id, 7);
            assert_eq!((thread_id.as_str(), turn_id.as_str(), item_id.as_str()), ("th-1", "tu-1", "it-3"));
            assert_eq!(request_id.as_u64(), Some(17));
            assert_eq!(method, "item/commandExecution/requestApproval");
            assert_eq!(text(detail.get("command")), Some("ls"));
        },
        other => panic!("unexpected {other:?}"),
    }
    let out = session.handle_to_codex(ToCodexMessage::ApprovalResponse {
        client_id: 7,
        request_id: n(17),
        decision: "accept".to_string(),
    });
    assert_eq!(out.get("id").and_then(|v| v.as_u64()), Some(17));
    assert_eq!(text(out.get("result")), Some("accept"));
    assert!(out.get("method").is_none());
}

#[test]
fn user_input_requests_are_not_relayed() {
    let mut session = session_with_thread();
    let step = session.handle_codex_message(obj(vec![
        ("method", s("tool/requestUserInput")),
        ("id", n(3)),
        ("params", obj(vec![("threadId", s("th-1"))])),
    ]));
    assert!(step.emit.is_none() && step.send.is_none());
}

#[test]
fn reply_takes_over_the_thread() {
    let mut session = session_with_thread();
    let out = session.handle_to_codex(ToCodexMessage::Reply {
        client_id: 9,
        thread_id: "th-1".to_string(),
        prompt: "more".to_string(),
    });
    assert_eq!(text(out.get("method")), Some("turn/start"));
    assert_eq!(out.get("id").and_then(|v| v.as_u64()), Some(3));
    assert_eq!(text(out.get("params").and_then(|p| p.get("threadId"))), Some("th-1"));
    let step = session.handle_codex_message(notify(
        "turn/started",
        obj(vec![("threadId", s("th-1")), ("turn", obj(vec![("id", s("tu-9"))]))]),
    ));
    match step.emit {
        Some(FromCodexMessage::TurnStarted { client_id, .. }) => assert_eq!(client_id, 9),
        other => panic!("unexpected {other:?}"),
    }
}

#[test]
fn interrupt_targets_the_named_turn() {
    let mut session = CodexSession::new();
    let out = session.handle_to_codex(ToCodexMessage::Interrupt {
        client_id: 1,
        thread_id: "th-1".to_string(),
        turn_id: "tu-4".to_string(),
    });
    assert_eq!(text(out.get("method")), Some("turn/interrupt"));
    let params = out.get("params").unwrap();
    assert_eq!(text(params.get("threadId")), Some("th-1"));
    assert_eq!(text(params.get("turnId")), Some("tu-4"));
}

#[test]
fn lifecycle_events_stop_and_announce_disconnect() {
    let mut session = CodexSession::new();
    let closed = session.on_event(ClientEvent::CodexClosed);
    assert!(closed.stop && matches!(closed.emit, Some(FromCodexMessage::Disconnected)));
    let exited = session.on_event(ClientEvent::CodexExited);
    assert!(exited.stop && matches!(exited.emit, Some(FromCodexMessage::Disconnected)));
    let failed = session.on_event(ClientEvent::CodexReadFailed);
    assert!(failed.stop && failed.emit.is_none());
    let gone = session.on_event(ClientEvent::BrowsersGone);
    assert!(gone.stop && gone.emit.is_none());
    let noise = session.on_event(ClientEvent::CodexStderr);
    assert!(!noise.stop && noise.emit.is_none() && noise.send.is_none());
    let garbled = session.on_event(ClientEvent::CodexGarbled);
    assert!(!garbled.stop && garbled.send.is_none());
    let browser = session.on_event(ClientEvent::FromBrowser(ToCodexMessage::Reply {
        client_id: 1,
        thread_id: "t".to_string(),
        prompt: "p".to_string(),
    }));
    assert!(!browser.stop && browser.send.is_some());
}
