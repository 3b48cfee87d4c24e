use codex_rc::json::JsonValue;
use codex_rc::protocol::{
    approval_reply, check_init_response, initialize_request, initialized_notification,
    interrupt_params, request, thread_start_params, turn_start_params,
};

fn text(v: Option<&JsonValue>) -> Option<&str> {
    v.and_then(|v| v.as_str())
}

fn obj(entries: Vec<(&str, JsonValue)>) -> JsonValue {
    JsonValue::Object(entries.into_iter().map(|(k, v)| (k.to_string(), v)).collect())
}

fn s(t: &str) -> JsonValue {
    JsonValue::Str(t.to_string())
}

#[test]
fn thread_start_params_use_current_app_server_approval_policy() {
    let params = thread_start_params(None, None);

    assert_eq!(text(params.get("approvalPolicy")), Some("on-request"));
}

#[test]
fn thread_start_params_include_optional_overrides() {
    let params = thread_start_params(Some("/tmp/workspace"), Some("gpt-5"));

    assert_eq!(text(params.get("approvalPolicy")), Some("on-request"));
    assert_eq!(text(params.get("cwd")), Some("/tmp/workspace"));
    assert_eq!(text(params.get("model")), Some("gpt-5"));
}

#[test]
fn thread_start_params_leave_out_absent_overrides() {
    let params = thread_start_params(Some("/srv"), None);
    assert_eq!(text(params.get("cwd")), Some("/srv"));
    assert!(params.get("model").is_none());
    match params {
        JsonValue::Object(entries) => assert_eq!(entries.len(), 2),
        _ => panic!("params must be an object"),
    }
}

#[test]
fn requests_carry_method_id_and_params() {
    let req = request("turn/start", 42, obj(vec![("threadId", s("t-1"))]));
    assert_eq!(text(req.get("method")), Some("turn/start"));
    assert_eq!(req.get("id").and_then(|v| v.as_u64()), Some(42));
    assert_eq!(text(req.get("params").and_then(|p| p.get("threadId"))), Some("t-1"));
}

#[test]
fn turn_start_params_hold_prompt_as_text_input() {
    let params = turn_start_params("t-7".to_string(), "hello".to_string(), Some("o3".to_string()));
    assert_eq!(text(params.get("threadId")), Some("t-7"));
    assert_eq!(text(params.get("model")), Some("o3"));
    match params.get("input") {
        Some(JsonValue::Array(items)) => {
            assert_eq!(items.len(), 1);
            assert_eq!(text(items[0].get("type")), Some("text"));
            assert_eq!(text(items[0].get("text")), Some("hello"));
        },
        _ => panic!("input must be an array"),
    }
    let plain = turn_start_params("t-7".to_string(), "hello".to_string(), None);
    assert!(plain.get("model").is_none());
}

#[test]
fn interrupt_params_name_thread_and_turn() {
    let params = interrupt_params("t-1".to_string(), "u-3".to_string());
    assert_eq!(text(params.get("threadId")), Some("t-1"));
    assert_eq!(text(params.get("turnId")), Some("u-3"));
}

#[test]
fn approval_reply_echoes_request_id() {
    let reply = approval_reply(s("req-9"), "accept".to_string());
    assert_eq!(text(reply.get("id")), Some("req-9"));
    assert_eq!(text(reply.get("result")), Some("accept"));
}

#[test]
fn initialize_request_names_the_client() {
    let req = initialize_request(1);
    assert_eq!(text(req.get("method")), Some("initialize"));
    assert_eq!(req.get("id").and_then(|v| v.as_u64()), Some(1));
    let info = req.get("params").and_then(|p| p.get("clientInfo")).unwrap();
    assert_eq!(text(info.get("name")), Some("codex-rc"));
    assert_eq!(text(info.get("version")), Some("0.2.0"));
    match req.get("params").and_then(|p| p.get("capabilities")) {
        Some(JsonValue::Object(entries)) => assert!(entries.is_empty()),
        _ => panic!("capabilities must be an empty object"),
    }
    let done = initialized_notification();
    assert_eq!(text(done.get("method")), Some("initialized"));
    assert!(done.get("id").is_none());
}

#[test]
fn init_response_reports_user_agent_or_error() {
    let ok = obj(vec![("id", JsonValue::Null), ("result", obj(vec![("userAgent", s("codex/1.2"))]))]);
    assert_eq!(check_init_response(ok).unwrap(), "codex/1.2");
    let bare = obj(vec![("result", obj(vec![]))]);
    assert_eq!(check_init_response(bare).unwrap(), "unknown");
    let failed = obj(vec![("error", obj(vec![("message", s("nope"))]))]);
    match check_init_response(failed) {
        Err(e) => assert_eq!(text(e.get("message")), Some("nope")),
        Ok(_) => panic!("an error answer must be refused"),
    }
}

#[test]
fn json_clone_copies_nested_values() {
    let original = obj(vec![
        ("a", JsonValue::Array(vec![s("x"), JsonValue::Number(codex_rc::json::JsonNumber::NegInt(-3))])),
        ("b", obj(vec![("c", JsonValue::Bool(true))])),
    ]);
    let copy = original.clone();
    match copy.get("a") {
        Some(JsonValue::Array(items)) => {
            assert_eq!(items.len(), 2);
            assert_eq!(items[0].as_str(), Some("x"));
            assert!(matches!(items[1], JsonValue::Number(codex_rc::json::JsonNumber::NegInt(-3))));
        },
        _ => panic!("array expected"),
    }
    assert!(matches!(copy.get("b").and_then(|b| b.get("c")), Some(JsonValue::Bool(true))));
}
