//! The decisions of a browser connection: how the browser's JSON messages become
//! messages for the Codex client, and which events go back to the browser, as what JSON.

use vstd::prelude::*;

use crate::channels::{FromCodexMessage, ToCodexMessage};
use crate::json::{is_text, push_entry, same_text, JsonValue};
use crate::protocol::opt_string;

verus! {

/// Why a browser message was refused.
#[derive(Debug)]
pub enum BrowserError {
    /// The message's `type` is none the relay knows.
    UnknownType { msg_type: String },
}

/// The text of the error for a message of the unknown type `t`.
pub open spec fn unknown_type_message(t: Seq<char>) -> Seq<char> {
    "Unknown message type: "@ + t
}

impl BrowserError {
    /// The text the browser is shown.
    pub open spec fn text(self) -> Seq<char> {
        match self {
            BrowserError::UnknownType { msg_type } => unknown_type_message(msg_type@),
        }
    }

    /// The text the browser is shown.
    pub fn message(&self) -> (r: String)
        ensures
            r@ == self.text(),
    {
        match self {
            BrowserError::UnknownType { msg_type } => {
                let prefix = "Unknown message type: ".to_owned();
                prefix.concat(msg_type.as_str())
            },
        }
    }
}

/// The `type` of a browser message, or `""`.
pub open spec fn message_type(val: JsonValue) -> Seq<char> {
    val.text_field_or("type"@, ""@)
}

/// Whether the relay knows browser messages of type `t`.
pub open spec fn is_known_type(t: Seq<char>) -> bool {
    t == "start_turn"@ || t == "reply"@ || t == "approval_response"@ || t == "interrupt"@
}

/// What the browser message `val`, from the connection `client`, asks of the Codex client.
pub open spec fn browser_message(
    val: JsonValue,
    client: u64,
    r: Result<ToCodexMessage, BrowserError>,
) -> bool {
    let t = message_type(val);
    if t == "start_turn"@ {
        r matches Ok(ToCodexMessage::StartTurn { client_id, prompt, cwd, model }) && client_id
            == client && prompt@ == val.text_field_or("prompt"@, ""@) && opt_string(cwd)
            == val.nonempty_text_field("cwd"@) && opt_string(model) == val.nonempty_text_field(
            "model"@,
        )
    } else if t == "reply"@ {
        r matches Ok(ToCodexMessage::Reply { client_id, thread_id, prompt }) && client_id == client
            && thread_id@ == val.text_field_or("thread_id"@, ""@) && prompt@ == val.text_field_or(
            "prompt"@,
            ""@,
        )
    } else if t == "approval_response"@ {
        r matches Ok(ToCodexMessage::ApprovalResponse { client_id, request_id, decision })
            && client_id == client && val.is_field_or_null("request_id"@, request_id) && decision@
            == val.text_field_or("decision"@, "decline"@)
    } else if t == "interrupt"@ {
        r matches Ok(ToCodexMessage::Interrupt { client_id, thread_id, turn_id }) && client_id
            == client && thread_id@ == val.text_field_or("thread_id"@, ""@) && turn_id@
            == val.text_field_or("turn_id"@, ""@)
    } else {
        r matches Err(BrowserError::UnknownType { msg_type }) && msg_type@ == t
    }
}

/// Reads the browser message `val` that arrived on the connection `client_id`.
pub fn parse_browser_message(val: JsonValue, client_id: u64) -> (r: Result<
    ToCodexMessage,
    BrowserError,
>)
    ensures
        browser_message(val, client_id, r),
{
    let msg_type = val.text_or("type", "");
    if same_text(&msg_type, "start_turn") {
        let prompt = val.text_or("prompt", "");
        let cwd = val.nonempty_text("cwd");
        let model = val.nonempty_text("model");
        Ok(ToCodexMessage::StartTurn { client_id, prompt, cwd, model })
    } else if same_text(&msg_type, "reply") {
        let thread_id = val.text_or("thread_id", "");
        let prompt = val.text_or("prompt", "");
        Ok(ToCodexMessage::Reply { client_id, thread_id, prompt })
    } else if same_text(&msg_type, "approval_response") {
        let decision = val.text_or("decision", "decline");
        let request_id = val.take_or_null("request_id");
        Ok(ToCodexMessage::ApprovalResponse { client_id, request_id, decision })
    } else if same_text(&msg_type, "interrupt") {
        let thread_id = val.text_or("thread_id", "");
        let turn_id = val.text_or("turn_id", "");
        Ok(ToCodexMessage::Interrupt { client_id, thread_id, turn_id })
    } else {
        Err(BrowserError::UnknownType { msg_type })
    }
}

/// `r` holds the string `v` under `key`.
pub open spec fn has_text(r: JsonValue, key: Seq<char>, v: Seq<char>) -> bool {
    is_text(r.field(key), v)
}

/// `r` is the JSON the browser receives for `msg`: its `type`, the thread,
/// turn and item it belongs to, and its content.
pub open spec fn browser_json(msg: FromCodexMessage, r: JsonValue) -> bool {
    match msg {
        FromCodexMessage::Ready => r.keys() == seq!["type"@] && has_text(r, "type"@, "ready"@),
        FromCodexMessage::TurnStarted { thread_id, turn_id, .. } => {
            &&& r.keys() == seq!["type"@, "thread_id"@, "turn_id"@]
            &&& has_text(r, "type"@, "turn_started"@)
            &&& has_text(r, "thread_id"@, thread_id@)
            &&& has_text(r, "turn_id"@, turn_id@)
        },
        FromCodexMessage::ItemStarted { thread_id, turn_id, item_id, item_type, item, .. } => {
            &&& r.keys() == seq![
                "type"@,
                "thread_id"@,
                "turn_id"@,
                "item_id"@,
                "item_type"@,
                "item"@,
            ]
            &&& has_text(r, "type"@, "item_started"@)
            &&& has_text(r, "thread_id"@, thread_id@)
            &&& has_text(r, "turn_id"@, turn_id@)
            &&& has_text(r, "item_id"@, item_id@)
            &&& has_text(r, "item_type"@, item_type@)
            &&& r.field("item"@) == Some(item)
        },
        FromCodexMessage::Delta { thread_id, turn_id, item_id, delta_type, content, .. } => {
            &&& r.keys() == seq![
                "type"@,
                "thread_id"@,
                "turn_id"@,
                "item_id"@,
                "delta_type"@,
                "content"@,
            ]
            &&& has_text(r, "type"@, "delta"@)
            &&& has_text(r, "thread_id"@, thread_id@)
            &&& has_text(r, "turn_id"@, turn_id@)
            &&& has_text(r, "item_id"@, item_id@)
            &&& has_text(r, "delta_type"@, delta_type@)
            &&& has_text(r, "content"@, content@)
        },
        FromCodexMessage::ItemCompleted { thread_id, turn_id, item_id, item_type, item, .. } => {
            &&& r.keys() == seq![
                "type"@,
                "thread_id"@,
                "turn_id"@,
                "item_id"@,
                "item_type"@,
                "item"@,
            ]
            &&& has_text(r, "type"@, "item_completed"@)
            &&& has_text(r, "thread_id"@, thread_id@)
            &&& has_text(r, "turn_id"@, turn_id@)
            &&& has_text(r, "item_id"@, item_id@)
            &&& has_text(r, "item_type"@, item_type@)
            &&& r.field("item"@) == Some(item)
        },
        FromCodexMessage::ApprovalRequest {
            thread_id,
            turn_id,
            item_id,
            request_id,
            method,
            detail,
            ..
        } => {
            &&& r.keys() == seq![
                "type"@,
                "thread_id"@,
                "turn_id"@,
                "item_id"@,
                "request_id"@,
                "method"@,
                "detail"@,
            ]
            &&& has_text(r, "type"@, "approval_request"@)
            &&& has_text(r, "thread_id"@, thread_id@)
            &&& has_text(r, "turn_id"@, turn_id@)
            &&& has_text(r, "item_id"@, item_id@)
            &&& r.field("request_id"@) == Some(request_id)
            &&& has_text(r, "method"@, method@)
            &&& r.field("detail"@) == Some(detail)
        },
        FromCodexMessage::TurnCompleted { thread_id, turn_id, status, error, .. } => {
            &&& r.keys() == seq!["type"@, "thread_id"@, "turn_id"@, "status"@, "error"@]
            &&& has_text(r, "type"@, "turn_completed"@)
            &&& has_text(r, "thread_id"@, thread_id@)
            &&& has_text(r, "turn_id"@, turn_id@)
            &&& has_text(r, "status"@, status@)
            &&& r.field("error"@) == Some(
                match error {
                    Some(e) => e,
                    None => JsonValue::Null,
                },
            )
        },
        FromCodexMessage::Error { error, .. } => is_error_payload(r, error@),
        FromCodexMessage::Disconnected => r.keys() == seq!["type"@] && has_text(
            r,
            "type"@,
            "disconnected"@,
        ),
    }
}

/// `r` is the error the browser is shown, `{"type": "error", "error": text}`.
pub open spec fn is_error_payload(r: JsonValue, text: Seq<char>) -> bool {
    &&& r.keys() == seq!["type"@, "error"@]
    &&& has_text(r, "type"@, "error"@)
    &&& has_text(r, "error"@, text)
}

/// The keys of the JSON a browser receives are pairwise different.
proof fn lemma_keys_differ()
    ensures
        "type"@ != "thread_id"@,
        "type"@ != "turn_id"@,
        "type"@ != "item_id"@,
        "type"@ != "item_type"@,
        "type"@ != "item"@,
        "type"@ != "delta_type"@,
        "type"@ != "content"@,
        "type"@ != "request_id"@,
        "type"@ != "method"@,
        "type"@ != "detail"@,
        "type"@ != "status"@,
        "type"@ != "error"@,
        "thread_id"@ != "turn_id"@,
        "thread_id"@ != "item_id"@,
        "thread_id"@ != "item_type"@,
        "thread_id"@ != "item"@,
        "thread_id"@ != "delta_type"@,
        "thread_id"@ != "content"@,
        "thread_id"@ != "request_id"@,
        "thread_id"@ != "method"@,
        "thread_id"@ != "detail"@,
        "thread_id"@ != "status"@,
        "thread_id"@ != "error"@,
        "turn_id"@ != "item_id"@,
        "turn_id"@ != "item_type"@,
        "turn_id"@ != "item"@,
        "turn_id"@ != "delta_type"@,
        "turn_id"@ != "content"@,
        "turn_id"@ != "request_id"@,
        "turn_id"@ != "method"@,
        "turn_id"@ != "detail"@,
        "turn_id"@ != "status"@,
        "turn_id"@ != "error"@,
        "item_id"@ != "item_type"@,
        "item_id"@ != "item"@,
        "item_id"@ != "delta_type"@,
        "item_id"@ != "content"@,
        "item_id"@ != "request_id"@,
        "item_id"@ != "method"@,
        "item_id"@ != "detail"@,
        "item_type"@ != "item"@,
        "delta_type"@ != "content"@,
        "request_id"@ != "method"@,
        "request_id"@ != "detail"@,
        "method"@ != "detail"@,
        "status"@ != "error"@,
{
    reveal_strlit("type");
    assert("type"@.len() == 4 && "type"@[0] == 't');
    reveal_strlit("thread_id");
    assert("thread_id"@.len() == 9 && "thread_id"@[0] == 't');
    reveal_strlit("turn_id");
    assert("turn_id"@.len() == 7 && "turn_id"@[0] == 't');
    reveal_strlit("item_id");
    assert("item_id"@.len() == 7 && "item_id"@[0] == 'i');
    reveal_strlit("item_type");
    assert("item_type"@.len() == 9 && "item_type"@[0] == 'i');
    reveal_strlit("item");
    assert("item"@.len() == 4 && "item"@[0] == 'i');
    reveal_strlit("delta_type");
    assert("delta_type"@.len() == 10 && "delta_type"@[0] == 'd');
    reveal_strlit("content");
    assert("content"@.len() == 7 && "content"@[0] == 'c');
    reveal_strlit("request_id");
    assert("request_id"@.len() == 10 && "request_id"@[0] == 'r');
    reveal_strlit("method");
    assert("method"@.len() == 6 && "method"@[0] == 'm');
    reveal_strlit("detail");
    assert("detail"@.len() == 6 && "detail"@[0] == 'd');
    reveal_strlit("status");
    assert("status"@.len() == 6 && "status"@[0] == 's');
    reveal_strlit("error");
    assert("error"@.len() == 5 && "error"@[0] == 'e');
}

/// The error the browser is shown, `{"type": "error", "error": text}`.
pub fn error_payload(text: String) -> (r: JsonValue)
    ensures
        is_error_payload(r, text@),
{
    proof {
        lemma_keys_differ();
    }
    let mut e = Vec::new();
    push_entry(&mut e, "type", JsonValue::string("error"));
    push_entry(&mut e, "error", JsonValue::Str(text));
    let r = JsonValue::Object(e);
    assert(r.keys() =~= seq!["type"@, "error"@]);
    r
}

/// The JSON the browser receives for `msg`.
pub fn from_codex_to_json(msg: FromCodexMessage) -> (r: JsonValue)
    ensures
        browser_json(msg, r),
{
    proof {
        lemma_keys_differ();
    }
    let mut e = Vec::new();
    match msg {
        FromCodexMessage::Ready => {
            push_entry(&mut e, "type", JsonValue::string("ready"));
            let r = JsonValue::Object(e);
            assert(r.keys() =~= seq!["type"@]);
            r
        },
        FromCodexMessage::TurnStarted { thread_id, turn_id, .. } => {
            push_entry(&mut e, "type", JsonValue::string("turn_started"));
            push_entry(&mut e, "thread_id", JsonValue::Str(thread_id));
            push_entry(&mut e, "turn_id", JsonValue::Str(turn_id));
            let r = JsonValue::Object(e);
            assert(r.keys() =~= seq!["type"@, "thread_id"@, "turn_id"@]);
            r
        },
        FromCodexMessage::ItemStarted { thread_id, turn_id, item_id, item_type, item, .. } => {
            push_entry(&mut e, "type", JsonValue::string("item_started"));
            push_entry(&mut e, "thread_id", JsonValue::Str(thread_id));
            push_entry(&mut e, "turn_id", JsonValue::Str(turn_id));
            push_entry(&mut e, "item_id", JsonValue::Str(item_id));
            push_entry(&mut e, "item_type", JsonValue::Str(item_type));
            push_entry(&mut e, "item", item);
            let r = JsonValue::Object(e);
            assert(r.keys() =~= seq![
                "type"@,
                "thread_id"@,
                "turn_id"@,
                "item_id"@,
                "item_type"@,
                "item"@,
            ]);
            r
        },
        FromCodexMessage::Delta { thread_id, turn_id, item_id, delta_type, content, .. } => {
            push_entry(&mut e, "type", JsonValue::string("delta"));
            push_entry(&mut e, "thread_id", JsonValue::Str(thread_id));
            push_entry(&mut e, "turn_id", JsonValue::Str(turn_id));
            push_entry(&mut e, "item_id", JsonValue::Str(item_id));
            push_entry(&mut e, "delta_type", JsonValue::Str(delta_type));
            push_entry(&mut e, "content", JsonValue::Str(content));
            let r = JsonValue::Object(e);
            assert(r.keys() =~= seq![
                "type"@,
                "thread_id"@,
                "turn_id"@,
                "item_id"@,
                "delta_type"@,
                "content"@,
            ]);
            r
        },
        FromCodexMessage::ItemCompleted { thread_id, turn_id, item_id, item_type, item, .. } => {
            push_entry(&mut e, "type", JsonValue::string("item_completed"));
            push_entry(&mut e, "thread_id", JsonValue::Str(thread_id));
            push_entry(&mut e, "turn_id", JsonValue::Str(turn_id));
            push_entry(&mut e, "item_id", JsonValue::Str(item_id));
            push_entry(&mut e, "item_type", JsonValue::Str(item_type));
            push_entry(&mut e, "item", item);
            let r = JsonValue::Object(e);
            assert(r.keys() =~= seq![
                "type"@,
                "thread_id"@,
                "turn_id"@,
                "item_id"@,
                "item_type"@,
                "item"@,
            ]);
            r
        },
        FromCodexMessage::ApprovalRequest {
            thread_id,
            turn_id,
            item_id,
            request_id,
            method,
            detail,
            ..
        } => {
            push_entry(&mut e, "type", JsonValue::string("approval_request"));
            push_entry(&mut e, "thread_id", JsonValue::Str(thread_id));
            push_entry(&mut e, "turn_id", JsonValue::Str(turn_id));
            push_entry(&mut e, "item_id", JsonValue::Str(item_id));
            push_entry(&mut e, "request_id", request_id);
            push_entry(&mut e, "method", JsonValue::Str(method));
            push_entry(&mut e, "detail", detail);
            let r = JsonValue::Object(e);
            assert(r.keys() =~= seq![
                "type"@,
                "thread_id"@,
                "turn_id"@,
                "item_id"@,
                "request_id"@,
                "method"@,
                "detail"@,
            ]);
            r
        },
        FromCodexMessage::TurnCompleted { thread_id, turn_id, status, error, .. } => {
            push_entry(&mut e, "type", JsonValue::string("turn_completed"));
            push_entry(&mut e, "thread_id", JsonValue::Str(thread_id));
            push_entry(&mut e, "turn_id", JsonValue::Str(turn_id));
            push_entry(&mut e, "status", JsonValue::Str(status));
            let error = match error {
                Some(e) => e,
                None => JsonValue::Null,
            };
            push_entry(&mut e, "error", error);
            let r = JsonValue::Object(e);
            assert(r.keys() =~= seq!["type"@, "thread_id"@, "turn_id"@, "status"@, "error"@]);
            r
        },
        FromCodexMessage::Error { error, .. } => error_payload(error),
        FromCodexMessage::Disconnected => {
            push_entry(&mut e, "type", JsonValue::string("disconnected"));
            let r = JsonValue::Object(e);
            assert(r.keys() =~= seq!["type"@]);
            r
        },
    }
}

/// Something that happens on a browser connection.
#[derive(Debug)]
pub enum SocketEvent {
    /// The browser sent a text message that reads as JSON.
    BrowserJson(JsonValue),
    /// The browser sent a text message that is not JSON; the text says why.
    BrowserGarbled(String),
    /// The browser closed the connection, or it ended.
    BrowserClosed,
    /// Receiving from the browser failed.
    BrowserFailed,
    /// The browser sent something other than text.
    BrowserOther,
    /// The Codex client relayed an event.
    Codex(FromCodexMessage),
    /// This connection fell behind and missed events of the Codex client.
    CodexLagged,
    /// The Codex client is gone.
    CodexGone,
}

/// What a browser connection does after an event: what it hands to the Codex
/// client, what it sends to the browser, and whether it ends.
pub struct SocketReaction {
    pub forward: Option<ToCodexMessage>,
    pub reply: Option<JsonValue>,
    pub stop: bool,
}

/// What the browser connection `client` does on the event `ev`.
pub open spec fn socket_effect(client: u64, ev: SocketEvent, r: SocketReaction) -> bool {
    match ev {
        SocketEvent::BrowserJson(val) => {
            &&& !r.stop
            &&& if is_known_type(message_type(val)) {
                &&& r.reply is None
                &&& r.forward matches Some(m) && browser_message(val, client, Ok(m))
            } else {
                &&& r.forward is None
                &&& r.reply matches Some(j) && is_error_payload(
                    j,
                    unknown_type_message(message_type(val)),
                )
            }
        },
        SocketEvent::BrowserGarbled(why) => {
            &&& !r.stop
            &&& r.forward is None
            &&& r.reply matches Some(j) && is_error_payload(j, why@)
        },
        SocketEvent::BrowserClosed | SocketEvent::BrowserFailed => {
            &&& r.stop
            &&& r.forward is None
            &&& r.reply is None
        },
        SocketEvent::BrowserOther | SocketEvent::CodexLagged => {
            &&& !r.stop
            &&& r.forward is None
            &&& r.reply is None
        },
        SocketEvent::Codex(m) => {
            &&& !r.stop
            &&& r.forward is None
            &&& if m.is_for(client) {
                r.reply matches Some(j) && browser_json(m, j)
            } else {
                r.reply is None
            }
        },
        SocketEvent::CodexGone => {
            &&& r.stop
            &&& r.forward is None
            &&& r.reply matches Some(j) && browser_json(FromCodexMessage::Disconnected, j)
        },
    }
}

/// Decides what the browser connection `client_id` does on the event `ev`.
pub fn socket_step(client_id: u64, ev: SocketEvent) -> (r: SocketReaction)
    ensures
        socket_effect(client_id, ev, r),
{
    match ev {
        SocketEvent::BrowserJson(val) => match parse_browser_message(val, client_id) {
            Ok(m) => SocketReaction { forward: Some(m), reply: None, stop: false },
            Err(e) => SocketReaction {
                forward: None,
                reply: Some(error_payload(e.message())),
                stop: false,
            },
        },
        SocketEvent::BrowserGarbled(why) => SocketReaction {
            forward: None,
            reply: Some(error_payload(why)),
            stop: false,
        },
        SocketEvent::BrowserClosed | SocketEvent::BrowserFailed => SocketReaction {
            forward: None,
            reply: None,
            stop: true,
        },
        SocketEvent::BrowserOther | SocketEvent::CodexLagged => SocketReaction {
            forward: None,
            reply: None,
            stop: false,
        },
        SocketEvent::Codex(m) => {
            if m.delivers_to(client_id) {
                SocketReaction { forward: None, reply: Some(from_codex_to_json(m)), stop: false }
            } else {
                SocketReaction { forward: None, reply: None, stop: false }
            }
        },
        SocketEvent::CodexGone => SocketReaction {
            forward: None,
            reply: Some(from_codex_to_json(FromCodexMessage::Disconnected)),
            stop: true,
        },
    }
}

} // verus!
