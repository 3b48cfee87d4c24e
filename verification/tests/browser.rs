use codex_rc::browser::{
    error_payload, from_codex_to_json, parse_browser_message, socket_step, BrowserError,
    SocketEvent,
};
use codex_rc::channels::{FromCodexMessage, ToCodexMessage};
use codex_rc::json::JsonValue;

fn text(v: Option<&JsonValue>) -> Option<&str> {
    v.and_then(|v| v.as_str())
}

fn obj(entries: Vec<(&str, JsonValue)>) -> JsonValue {
    JsonValue::Object(entries.into_iter().map(|(k, v)| (k.to_string(), v)).collect())
}

fn s(t: &str) -> JsonValue {
    JsonValue::Str(t.to_string())
}

#[test]
fn item_events_include_turn_and_thread_ids() {
    let message = FromCodexMessage::ItemStarted {
        client_id: 1,
        thread_id: "thread-1".to_string(),
        turn_id: "turn-1".to_string(),
        item_id: "item-1".to_string(),
        item_type: "agentMessage".to_string(),
        item: obj(vec![("id", s("item-1")), ("type", s("agentMessage"))]),
    };

    let payload = from_codex_to_json(message);

    assert_eq!(text(payload.get("thread_id")), Some("thread-1"));
    assert_eq!(text(payload.get("turn_id")), Some("turn-1"));
    assert_eq!(text(payload.get("item_id")), Some("item-1"));
}

#[test]
fn approval_requests_include_routing_fields() {
    let message = FromCodexMessage::ApprovalRequest {
        client_id: 1,
        thread_id: "thread-9".to_string(),
        turn_id: "turn-9".to_string(),
        item_id: "item-9".to_string(),
        request_id: s("req-9"),
        method: "item/commandExecution/requestApproval".to_string(),
        detail: obj(vec![("command", s("ls"))]),
    };

    let payload = from_codex_to_json(message);

    assert_eq!(text(payload.get("thread_id")), Some("thread-9"));
    assert_eq!(text(payload.get("turn_id")), Some("turn-9"));
    assert_eq!(text(payload.get("item_id")), Some("item-9"));
    assert_eq!(text(payload.get("request_id")), Some("req-9"));
}

#[test]
fn browser_json_tags_each_event() {
    let cases: Vec<(FromCodexMessage, &str)> = vec![
        (FromCodexMessage::Ready, "ready"),
        (FromCodexMessage::Disconnected, "disconnected"),
        (
            FromCodexMessage::TurnStarted {
                client_id: 1,
                thread_id: "t".to_string(),
                turn_id: "u".to_string(),
            },
            "turn_started",
        ),
        (
            FromCodexMessage::Delta {
                client_id: 1,
                thread_id: "t".to_string(),
                turn_id: "u".to_string(),
                item_id: "i".to_string(),
                delta_type: "plan".to_string(),
                content: "c".to_string(),
            },
            "delta",
        ),
        (
            FromCodexMessage::Error { client_id: None, error: "bad".to_string() },
            "error",
        ),
    ];
    for (message, tag) in cases {
        let payload = from_codex_to_json(message);
        assert_eq!(text(payload.get("type")), Some(tag));
    }
}

#[test]
fn turn_completed_json_has_null_error_when_none() {
    let payload = from_codex_to_json(FromCodexMessage::TurnCompleted {
        client_id: 1,
        thread_id: "t".to_string(),
        turn_id: "u".to_string(),
        status: "completed".to_string(),
        error: None,
    });
    assert_eq!(text(payload.get("type")), Some("turn_completed"));
    assert_eq!(text(payload.get("status")), Some("completed"));
    assert!(matches!(payload.get("error"), Some(JsonValue::Null)));
}

#[test]
fn start_turn_drops_empty_overrides() {
    let msg = obj(vec![
        ("type", s("start_turn")),
        ("prompt", s("fix it")),
        ("cwd", s("")),
        ("model", s("gpt-5")),
    ]);
    match parse_browser_message(msg, 4) {
        Ok(ToCodexMessage::StartTurn { client_id, prompt, cwd, model }) => {
            assert_eq!(client_id, 4);
            assert_eq!(prompt, "fix it");
            assert_eq!(cwd, None);
            assert_eq!(model.as_deref(), Some("gpt-5"));
        },
        other => panic!("unexpected {other:?}"),
    }
}

#[test]
fn browser_messages_of_each_kind() {
    match parse_browser_message(obj(vec![("type", s("reply")), ("thread_id", s("t")), ("prompt", s("p"))]), 2) {
        Ok(ToCodexMessage::Reply { client_id, thread_id, prompt }) => {
            assert_eq!((client_id, thread_id.as_str(), prompt.as_str()), (2, "t", "p"));
        },
        other => panic!("unexpected {other:?}"),
    }
    match parse_browser_message(obj(vec![("type", s("approval_response")), ("request_id", s("r1"))]), 2) {
        Ok(ToCodexMessage::ApprovalResponse { request_id, decision, .. }) => {
            assert_eq!(request_id.as_str(), Some("r1"));
            assert_eq!(decision, "decline");
        },
        other => panic!("unexpected {other:?}"),
    }
    match parse_browser_message(obj(vec![("type", s("interrupt")), ("thread_id", s("t")), ("turn_id", s("u"))]), 2) {
        Ok(ToCodexMessage::Interrupt { thread_id, turn_id, .. }) => {
            assert_eq!((thread_id.as_str(), turn_id.as_str()), ("t", "u"));
        },
        other => panic!("unexpected {other:?}"),
    }
}

#[test]
fn unknown_browser_message_type_is_refused() {
    match parse_browser_message(obj(vec![("type", s("bogus"))]), 1) {
        Err(e) => {
            assert_eq!(e.message(), "Unknown message type: bogus");
            let BrowserError::UnknownType { msg_type } = e;
            assert_eq!(msg_type, "bogus");
        },
        Ok(m) => panic!("unexpected {m:?}"),
    }
    match parse_browser_message(obj(vec![]), 1) {
        Err(e) => assert_eq!(e.message(), "Unknown message type: "),
        Ok(m) => panic!("unexpected {m:?}"),
    }
}

#[test]
fn sockets_receive_only_their_events() {
    let mine = FromCodexMessage::TurnStarted {
        client_id: 1,
        thread_id: "t".to_string(),
        turn_id: "u".to_string(),
    };
    let r = socket_step(1, SocketEvent::Codex(mine));
    assert!(!r.stop && r.reply.is_some());
    let theirs = FromCodexMessage::TurnStarted {
        client_id: 2,
        thread_id: "t".to_string(),
        turn_id: "u".to_string(),
    };
    let r = socket_step(1, SocketEvent::Codex(theirs));
    assert!(r.reply.is_none());
    let r = socket_step(1, SocketEvent::Codex(FromCodexMessage::Ready));
    assert_eq!(text(r.reply.as_ref().and_then(|j| j.get("type"))), Some("ready"));
    let r = socket_step(1, SocketEvent::Codex(FromCodexMessage::Error {
        client_id: Some(2),
        error: "x".to_string(),
    }));
    assert!(r.reply.is_none());
}

#[test]
fn socket_lifecycle() {
    let r = socket_step(1, SocketEvent::CodexGone);
    assert!(r.stop);
    assert_eq!(text(r.reply.as_ref().and_then(|j| j.get("type"))), Some("disconnected"));
    assert!(socket_step(1, SocketEvent::BrowserClosed).stop);
    assert!(socket_step(1, SocketEvent::BrowserFailed).stop);
    let lagged = socket_step(1, SocketEvent::CodexLagged);
    assert!(!lagged.stop && lagged.reply.is_none());
    let garbled = socket_step(1, SocketEvent::BrowserGarbled("expected value".to_string()));
    assert_eq!(text(garbled.reply.as_ref().and_then(|j| j.get("error"))), Some("expected value"));
    let forwarded = socket_step(
        6,
        SocketEvent::BrowserJson(obj(vec![("type", s("reply")), ("thread_id", s("t")), ("prompt", s("p"))])),
    );
    assert!(matches!(forwarded.forward, Some(ToCodexMessage::Reply { client_id: 6, .. })));
    let refused = socket_step(6, SocketEvent::BrowserJson(obj(vec![("type", s("nope"))])));
    assert!(refused.forward.is_none());
    let reply = refused.reply.unwrap();
    assert_eq!(text(reply.get("type")), Some("error"));
    assert_eq!(text(reply.get("error")), Some("Unknown message type: nope"));
}

#[test]
fn error_payload_shape() {
    let p = error_payload("oops".to_string());
    assert_eq!(text(p.get("type")), Some("error"));
    assert_eq!(text(p.get("error")), Some("oops"));
}
