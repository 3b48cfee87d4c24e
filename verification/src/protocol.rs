//! The JSON-RPC messages the relay sends to the Codex app-server, and how it
//! reads the app-server's answer to the initialize handshake.

use vstd::prelude::*;

use crate::json::{is_opt_text, is_text, is_unsigned, push_entry, JsonValue};

verus! {

/// The approval policy every new thread is started with: the app-server asks
/// before running commands or changing files.
pub open spec fn approval_policy() -> Seq<char> {
    "on-request"@
}

/// The characters of an optional string slice.
pub open spec fn opt_str(o: Option<&str>) -> Option<Seq<char>> {
    match o {
        Some(s) => Some(s@),
        None => None,
    }
}

/// The characters of an optional string.
pub open spec fn opt_string(o: Option<String>) -> Option<Seq<char>> {
    match o {
        Some(s) => Some(s@),
        None => None,
    }
}

/// `seq![key]` when `present`, the empty sequence otherwise.
pub open spec fn key_if(key: Seq<char>, present: bool) -> Seq<Seq<char>> {
    if present {
        seq![key]
    } else {
        Seq::empty()
    }
}

/// `r` is a JSON-RPC request `{"method", "id", "params"}` for `method` with id `id`.
pub open spec fn is_request(r: JsonValue, method: Seq<char>, id: u64) -> bool {
    &&& r.keys() == seq!["method"@, "id"@, "params"@]
    &&& is_text(r.field("method"@), method)
    &&& is_unsigned(r.field("id"@), id)
}

/// `r` is a JSON-RPC notification `{"method", "params"}` for `method`.
pub open spec fn is_notification(r: JsonValue, method: Seq<char>) -> bool {
    &&& r.keys() == seq!["method"@, "params"@]
    &&& is_text(r.field("method"@), method)
}

/// `v` is the parameter object of a `thread/start` request for the given overrides.
pub open spec fn is_thread_start_params(
    v: JsonValue,
    cwd: Option<Seq<char>>,
    model: Option<Seq<char>>,
) -> bool {
    &&& v.keys() == seq!["approvalPolicy"@] + key_if("cwd"@, cwd is Some) + key_if(
        "model"@,
        model is Some,
    )
    &&& is_text(v.field("approvalPolicy"@), approval_policy())
    &&& is_opt_text(v.field("cwd"@), cwd)
    &&& is_opt_text(v.field("model"@), model)
}

/// `v` is the turn input `[{"type": "text", "text": prompt}]`.
pub open spec fn is_text_input(v: JsonValue, prompt: Seq<char>) -> bool {
    v matches JsonValue::Array(items) && items@.len() == 1 && {
        let item = items@[0];
        &&& item.keys() == seq!["type"@, "text"@]
        &&& is_text(item.field("type"@), "text"@)
        &&& is_text(item.field("text"@), prompt)
    }
}

/// `v` is the parameter object of a `turn/start` request.
pub open spec fn is_turn_start_params(
    v: JsonValue,
    thread_id: Seq<char>,
    prompt: Seq<char>,
    model: Option<Seq<char>>,
) -> bool {
    &&& v.keys() == seq!["threadId"@, "input"@] + key_if("model"@, model is Some)
    &&& is_text(v.field("threadId"@), thread_id)
    &&& v.field("input"@) matches Some(input) && is_text_input(input, prompt)
    &&& is_opt_text(v.field("model"@), model)
}

/// `v` is the parameter object of a `turn/interrupt` request.
pub open spec fn is_interrupt_params(v: JsonValue, thread_id: Seq<char>, turn_id: Seq<char>) -> bool {
    &&& v.keys() == seq!["threadId"@, "turnId"@]
    &&& is_text(v.field("threadId"@), thread_id)
    &&& is_text(v.field("turnId"@), turn_id)
}

/// `r` answers the app-server's request `request_id` with `decision`.
pub open spec fn is_approval_reply(r: JsonValue, request_id: JsonValue, decision: Seq<char>) -> bool {
    &&& r.keys() == seq!["id"@, "result"@]
    &&& r.field("id"@) == Some(request_id)
    &&& is_text(r.field("result"@), decision)
}

/// `r` is the `initialize` request that opens the handshake.
pub open spec fn is_initialize_request(r: JsonValue, id: u64) -> bool {
    &&& is_request(r, "initialize"@, id)
    &&& r.field("params"@) matches Some(params) && {
        &&& params.keys() == seq!["clientInfo"@, "capabilities"@]
        &&& params.field("clientInfo"@) matches Some(info) && {
            &&& info.keys() == seq!["name"@, "version"@]
            &&& is_text(info.field("name"@), "codex-rc"@)
            &&& is_text(info.field("version"@), "0.2.0"@)
        }
        &&& params.field("capabilities"@) matches Some(caps) && caps.is_empty_object()
    }
}

pub proof fn lemma_request_keys()
    ensures
        "method"@ != "id"@,
        "method"@ != "params"@,
        "id"@ != "params"@,
        "id"@ != "result"@,
{
    reveal_strlit("method");
    assert("method"@.len() == 6 && "method"@[0] == 'm' && "method"@[1] == 'e');
    reveal_strlit("id");
    assert("id"@.len() == 2 && "id"@[0] == 'i' && "id"@[1] == 'd');
    reveal_strlit("params");
    assert("params"@.len() == 6 && "params"@[0] == 'p' && "params"@[1] == 'a');
    reveal_strlit("result");
    assert("result"@.len() == 6 && "result"@[0] == 'r' && "result"@[1] == 'e');
}

pub proof fn lemma_params_keys()
    ensures
        "approvalPolicy"@ != "cwd"@,
        "approvalPolicy"@ != "model"@,
        "cwd"@ != "model"@,
        "threadId"@ != "input"@,
        "threadId"@ != "model"@,
        "input"@ != "model"@,
        "threadId"@ != "turnId"@,
        "type"@ != "text"@,
        "clientInfo"@ != "capabilities"@,
        "name"@ != "version"@,
{
    reveal_strlit("approvalPolicy");
    assert("approvalPolicy"@.len() == 14 && "approvalPolicy"@[0] == 'a' && "approvalPolicy"@[1] == 'p');
    reveal_strlit("cwd");
    assert("cwd"@.len() == 3 && "cwd"@[0] == 'c' && "cwd"@[1] == 'w');
    reveal_strlit("model");
    assert("model"@.len() == 5 && "model"@[0] == 'm' && "model"@[1] == 'o');
    reveal_strlit("threadId");
    assert("threadId"@.len() == 8 && "threadId"@[0] == 't' && "threadId"@[1] == 'h');
    reveal_strlit("input");
    assert("input"@.len() == 5 && "input"@[0] == 'i' && "input"@[1] == 'n');
    reveal_strlit("turnId");
    assert("turnId"@.len() == 6 && "turnId"@[0] == 't' && "turnId"@[1] == 'u');
    reveal_strlit("type");
    assert("type"@.len() == 4 && "type"@[0] == 't' && "type"@[1] == 'y');
    reveal_strlit("text");
    assert("text"@.len() == 4 && "text"@[0] == 't' && "text"@[1] == 'e');
    reveal_strlit("clientInfo");
    assert("clientInfo"@.len() == 10 && "clientInfo"@[0] == 'c' && "clientInfo"@[1] == 'l');
    reveal_strlit("capabilities");
    assert("capabilities"@.len() == 12 && "capabilities"@[0] == 'c' && "capabilities"@[1] == 'a');
    reveal_strlit("name");
    assert("name"@.len() == 4 && "name"@[0] == 'n' && "name"@[1] == 'a');
    reveal_strlit("version");
    assert("version"@.len() == 7 && "version"@[0] == 'v' && "version"@[1] == 'e');
}

/// The parameters of a `thread/start` request: the approval policy, and the
/// working directory and model when the browser chose them.
pub fn thread_start_params(cwd: Option<&str>, model: Option<&str>) -> (r: JsonValue)
    ensures
        is_thread_start_params(r, opt_str(cwd), opt_str(model)),
{
    proof {
        lemma_params_keys();
    }
    let mut entries = Vec::new();
    push_entry(&mut entries, "approvalPolicy", JsonValue::string("on-request"));
    if let Some(cwd) = cwd {
        push_entry(&mut entries, "cwd", JsonValue::string(cwd));
    }
    if let Some(model) = model {
        push_entry(&mut entries, "model", JsonValue::string(model));
    }
    let r = JsonValue::Object(entries);
    assert(r.keys() =~= seq!["approvalPolicy"@] + key_if("cwd"@, cwd is Some) + key_if(
        "model"@,
        model is Some,
    ));
    r
}

/// A JSON-RPC request for `method` with id `id`.
pub fn request(method: &str, id: u64, params: JsonValue) -> (r: JsonValue)
    ensures
        is_request(r, method@, id),
        r.field("params"@) == Some(params),
{
    proof {
        lemma_request_keys();
    }
    let mut entries = Vec::new();
    push_entry(&mut entries, "method", JsonValue::string(method));
    push_entry(&mut entries, "id", JsonValue::Number(crate::json::JsonNumber::PosInt(id)));
    push_entry(&mut entries, "params", params);
    let r = JsonValue::Object(entries);
    assert(r.keys() =~= seq!["method"@, "id"@, "params"@]);
    r
}

/// A JSON-RPC notification for `method`.
pub fn notification(method: &str, params: JsonValue) -> (r: JsonValue)
    ensures
        is_notification(r, method@),
        r.field("params"@) == Some(params),
{
    proof {
        lemma_request_keys();
    }
    let mut entries = Vec::new();
    push_entry(&mut entries, "method", JsonValue::string(method));
    push_entry(&mut entries, "params", params);
    let r = JsonValue::Object(entries);
    assert(r.keys() =~= seq!["method"@, "params"@]);
    r
}

/// The turn input holding the prompt as one text item.
pub fn text_input(prompt: String) -> (r: JsonValue)
    ensures
        is_text_input(r, prompt@),
{
    proof {
        lemma_params_keys();
    }
    let mut entries = Vec::new();
    push_entry(&mut entries, "type", JsonValue::string("text"));
    push_entry(&mut entries, "text", JsonValue::Str(prompt));
    let item = JsonValue::Object(entries);
    assert(item.keys() =~= seq!["type"@, "text"@]);
    let mut items = Vec::new();
    items.push(item);
    JsonValue::Array(items)
}

/// The parameters of a `turn/start` request on `thread_id`.
pub fn turn_start_params(thread_id: String, prompt: String, model: Option<String>) -> (r: JsonValue)
    ensures
        is_turn_start_params(r, thread_id@, prompt@, opt_string(model)),
{
    proof {
        lemma_params_keys();
    }
    let mut entries = Vec::new();
    push_entry(&mut entries, "threadId", JsonValue::Str(thread_id));
    push_entry(&mut entries, "input", text_input(prompt));
    let has_model = model.is_some();
    if let Some(m) = model {
        push_entry(&mut entries, "model", JsonValue::Str(m));
    }
    let r = JsonValue::Object(entries);
    assert(r.keys() =~= seq!["threadId"@, "input"@] + key_if("model"@, has_model));
    r
}

/// The parameters of a `turn/interrupt` request.
pub fn interrupt_params(thread_id: String, turn_id: String) -> (r: JsonValue)
    ensures
        is_interrupt_params(r, thread_id@, turn_id@),
{
    proof {
        lemma_params_keys();
    }
    let mut entries = Vec::new();
    push_entry(&mut entries, "threadId", JsonValue::Str(thread_id));
    push_entry(&mut entries, "turnId", JsonValue::Str(turn_id));
    let r = JsonValue::Object(entries);
    assert(r.keys() =~= seq!["threadId"@, "turnId"@]);
    r
}

/// The answer to the app-server's approval request `request_id`.
pub fn approval_reply(request_id: JsonValue, decision: String) -> (r: JsonValue)
    ensures
        is_approval_reply(r, request_id, decision@),
{
    proof {
        lemma_request_keys();
    }
    let mut entries = Vec::new();
    push_entry(&mut entries, "id", request_id);
    push_entry(&mut entries, "result", JsonValue::Str(decision));
    let r = JsonValue::Object(entries);
    assert(r.keys() =~= seq!["id"@, "result"@]);
    r
}

/// The `initialize` request that opens the handshake with the app-server.
pub fn initialize_request(id: u64) -> (r: JsonValue)
    ensures
        is_initialize_request(r, id),
{
    proof {
        lemma_params_keys();
    }
    let mut info = Vec::new();
    push_entry(&mut info, "name", JsonValue::string("codex-rc"));
    push_entry(&mut info, "version", JsonValue::string("0.2.0"));
    let info = JsonValue::Object(info);
    assert(info.keys() =~= seq!["name"@, "version"@]);
    let mut params = Vec::new();
    push_entry(&mut params, "clientInfo", info);
    push_entry(&mut params, "capabilities", JsonValue::empty_object());
    let params = JsonValue::Object(params);
    assert(params.keys() =~= seq!["clientInfo"@, "capabilities"@]);
    request("initialize", id, params)
}

/// The `initialized` notification that closes the handshake.
pub fn initialized_notification() -> (r: JsonValue)
    ensures
        is_notification(r, "initialized"@),
        r.field("params"@) matches Some(p) && p.is_empty_object(),
{
    notification("initialized", JsonValue::empty_object())
}

/// The user agent an accepted `initialize` answer names, or `"unknown"`.
pub open spec fn init_user_agent(resp: JsonValue) -> Seq<char> {
    match resp.field("result"@) {
        Some(result) => result.text_field_or("userAgent"@, "unknown"@),
        None => "unknown"@,
    }
}

/// Reads the app-server's answer to `initialize`: its `error` when it has one,
/// else the user agent it reports.
pub fn check_init_response(resp: JsonValue) -> (r: Result<String, JsonValue>)
    ensures
        match r {
            Ok(agent) => resp.field("error"@) is None && agent@ == init_user_agent(resp),
            Err(e) => resp.field("error"@) == Some(e),
        },
{
    if resp.has("error") {
        match resp.take("error") {
            Some(e) => Err(e),
            None => Err(JsonValue::Null),
        }
    } else {
        match resp.get("result") {
            Some(result) => Ok(result.text_or("userAgent", "unknown")),
            None => Ok("unknown".to_owned()),
        }
    }
}

} // verus!
