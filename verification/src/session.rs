//! The decisions of the Codex client: which JSON-RPC requests it writes to the
//! app-server, which events it relays to browsers, and what it remembers in between.

use std::collections::HashMap;

use vstd::prelude::*;

use crate::channels::{FromCodexMessage, ToCodexMessage};
use crate::ids::{next_id, successor};
use crate::json::{same_text, JsonNumber, JsonValue};
use crate::protocol::{
    approval_reply, interrupt_params, is_approval_reply, is_interrupt_params, is_request,
    is_thread_start_params, is_turn_start_params, opt_string, request, thread_start_params,
    turn_start_params,
};

verus! {

broadcast use vstd::std_specs::hash::group_hash_axioms;

/// What a request sent to the app-server is waiting for.
#[derive(Debug)]
pub enum PendingRequest {
    /// A `thread/start`; once the thread exists a turn is started on it with the prompt.
    ThreadStart { client_id: u64, prompt: String, model: Option<String> },
    TurnStart { client_id: u64 },
    TurnInterrupt { client_id: u64 },
}

impl PendingRequest {
    /// The browser connection that caused the request.
    pub fn client_id(&self) -> (r: u64)
        ensures
            r == self.client(),
    {
        match self {
            PendingRequest::ThreadStart { client_id, .. } => *client_id,
            PendingRequest::TurnStart { client_id } => *client_id,
            PendingRequest::TurnInterrupt { client_id } => *client_id,
        }
    }

    /// The browser connection that caused the request.
    pub open spec fn client(self) -> u64 {
        match self {
            PendingRequest::ThreadStart { client_id, .. } => client_id,
            PendingRequest::TurnStart { client_id } => client_id,
            PendingRequest::TurnInterrupt { client_id } => client_id,
        }
    }
}

/// A JSON-RPC request id of the app-server, in a form that can be compared.
#[derive(Debug)]
pub enum RequestKey {
    Unsigned(u64),
    Negative(i64),
    Text(String),
}

/// The value of a request id that decides whether two ids are the same.
pub enum IdKey {
    Unsigned(u64),
    Negative(i64),
    Text(Seq<char>),
}

impl RequestKey {
    pub open spec fn id_key(self) -> IdKey {
        match self {
            RequestKey::Unsigned(n) => IdKey::Unsigned(n),
            RequestKey::Negative(n) => IdKey::Negative(n),
            RequestKey::Text(s) => IdKey::Text(s@),
        }
    }

    /// Whether `self` and `other` name the same request.
    pub fn same(&self, other: &RequestKey) -> (r: bool)
        ensures
            r == (self.id_key() == other.id_key()),
    {
        match (self, other) {
            (RequestKey::Unsigned(a), RequestKey::Unsigned(b)) => *a == *b,
            (RequestKey::Negative(a), RequestKey::Negative(b)) => *a == *b,
            (RequestKey::Text(a), RequestKey::Text(b)) => *a == *b,
            _ => false,
        }
    }

    pub fn duplicate(&self) -> (r: RequestKey)
        ensures
            r.id_key() == self.id_key(),
    {
        match self {
            RequestKey::Unsigned(n) => RequestKey::Unsigned(*n),
            RequestKey::Negative(n) => RequestKey::Negative(*n),
            RequestKey::Text(s) => RequestKey::Text(s.clone()),
        }
    }
}

/// The comparable id of a JSON-RPC request id: integers and strings, as JSON-RPC allows.
pub open spec fn request_key(v: JsonValue) -> Option<IdKey> {
    match v {
        JsonValue::Number(JsonNumber::PosInt(n)) => Some(IdKey::Unsigned(n)),
        JsonValue::Number(JsonNumber::NegInt(n)) => Some(IdKey::Negative(n)),
        JsonValue::Str(s) => Some(IdKey::Text(s@)),
        _ => None,
    }
}

/// The comparable id of a JSON-RPC request id.
pub fn key_of(v: &JsonValue) -> (r: Option<RequestKey>)
    ensures
        match r {
            Some(k) => request_key(*v) == Some(k.id_key()),
            None => request_key(*v) is None,
        },
{
    match v {
        JsonValue::Number(JsonNumber::PosInt(n)) => Some(RequestKey::Unsigned(*n)),
        JsonValue::Number(JsonNumber::NegInt(n)) => Some(RequestKey::Negative(*n)),
        JsonValue::Str(s) => Some(RequestKey::Text(s.clone())),
        _ => None,
    }
}

/// The browser connection that owns `thread`: the one recorded last for it.
pub open spec fn owner_of(owners: Seq<(String, u64)>, thread: Seq<char>) -> Option<u64>
    decreases owners.len(),
{
    if owners.len() == 0 {
        None
    } else if owners.last().0@ == thread {
        Some(owners.last().1)
    } else {
        owner_of(owners.drop_last(), thread)
    }
}

/// `new` is `old` with `thread` recorded as owned by `client_id`.
pub open spec fn owners_extended(
    old: Seq<(String, u64)>,
    new: Seq<(String, u64)>,
    thread: Seq<char>,
    client_id: u64,
) -> bool {
    &&& new.len() == old.len() + 1
    &&& new.drop_last() == old
    &&& new.last().0@ == thread
    &&& new.last().1 == client_id
}

/// `approvals` without the entries for the request `key`.
pub open spec fn without_key(approvals: Seq<(IdKey, u64)>, key: IdKey) -> Seq<(IdKey, u64)>
    decreases approvals.len(),
{
    if approvals.len() == 0 {
        approvals
    } else {
        let rest = without_key(approvals.drop_last(), key);
        if approvals.last().0 == key {
            rest
        } else {
            rest.push(approvals.last())
        }
    }
}

/// What the Codex client does with the browser message `msg`: the request or
/// answer `out` it writes to the app-server, and how its state moves from `old` to `new`.
pub open spec fn to_codex_effect(
    old: CodexSession,
    msg: ToCodexMessage,
    new: CodexSession,
    out: JsonValue,
) -> bool {
    match msg {
        ToCodexMessage::StartTurn { client_id, prompt, cwd, model } => {
            let id = old.next_request();
            &&& new.next_request() == successor(id)
            &&& new.pending() == old.pending().insert(
                id,
                PendingRequest::ThreadStart { client_id, prompt, model },
            )
            &&& new.owners() == old.owners()
            &&& new.approvals() == old.approvals()
            &&& is_request(out, "thread/start"@, id)
            &&& out.field("params"@) matches Some(p) && is_thread_start_params(
                p,
                opt_string(cwd),
                opt_string(model),
            )
        },
        ToCodexMessage::Reply { client_id, thread_id, prompt } => {
            let id = old.next_request();
            &&& new.next_request() == successor(id)
            &&& new.pending() == old.pending().insert(id, PendingRequest::TurnStart { client_id })
            &&& owners_extended(old.owners(), new.owners(), thread_id@, client_id)
            &&& new.approvals() == old.approvals()
            &&& is_request(out, "turn/start"@, id)
            &&& out.field("params"@) matches Some(p) && is_turn_start_params(
                p,
                thread_id@,
                prompt@,
                None,
            )
        },
        ToCodexMessage::ApprovalResponse { request_id, decision, .. } => {
            &&& new.next_request() == old.next_request()
            &&& new.pending() == old.pending()
            &&& new.owners() == old.owners()
            &&& new.approvals() == match request_key(request_id) {
                Some(k) => without_key(old.approvals(), k),
                None => old.approvals(),
            }
            &&& is_approval_reply(out, request_id, decision@)
        },
        ToCodexMessage::Interrupt { client_id, thread_id, turn_id } => {
            let id = old.next_request();
            &&& new.next_request() == successor(id)
            &&& new.pending() == old.pending().insert(
                id,
                PendingRequest::TurnInterrupt { client_id },
            )
            &&& new.owners() == old.owners()
            &&& new.approvals() == old.approvals()
            &&& is_request(out, "turn/interrupt"@, id)
            &&& out.field("params"@) matches Some(p) && is_interrupt_params(
                p,
                thread_id@,
                turn_id@,
            )
        },
    }
}

/// The id a response answers: its `id` when that is an unsigned integer, else 0.
pub open spec fn response_id(val: JsonValue) -> u64 {
    match val.field("id"@) {
        Some(v) => match v.unsigned() {
            Some(n) => n,
            None => 0,
        },
        None => 0,
    }
}

/// The message of an error response, or `"Unknown error"`.
pub open spec fn error_message(val: JsonValue) -> Seq<char> {
    match val.field("error"@) {
        Some(e) => e.text_field_or("message"@, "Unknown error"@),
        None => "Unknown error"@,
    }
}

/// The id of the thread a `thread/start` response reports, or `""`.
pub open spec fn created_thread(val: JsonValue) -> Seq<char> {
    match val.field("result"@) {
        Some(r) => r.sub_text_field_or("thread"@, "id"@, ""@),
        None => ""@,
    }
}

/// The text of the string parameter `key` of a message, or `default`.
pub open spec fn params_text(val: JsonValue, key: Seq<char>, default: Seq<char>) -> Seq<char> {
    match val.field("params"@) {
        Some(p) => p.text_field_or(key, default),
        None => default,
    }
}

/// The text of the string field `inner` of the parameter `outer` of a message, or `default`.
pub open spec fn params_sub_text(
    val: JsonValue,
    outer: Seq<char>,
    inner: Seq<char>,
    default: Seq<char>,
) -> Seq<char> {
    match val.field("params"@) {
        Some(p) => p.sub_text_field_or(outer, inner, default),
        None => default,
    }
}

/// The field `inner` of the parameter `outer` of a message.
pub open spec fn params_sub_field(val: JsonValue, outer: Seq<char>, inner: Seq<char>) -> Option<
    JsonValue,
> {
    match val.field("params"@) {
        Some(p) => p.sub_field(outer, inner),
        None => None,
    }
}

/// Whether `item` is the `item` parameter of a message, or `null` when it has none.
pub open spec fn is_item_payload(val: JsonValue, item: JsonValue) -> bool {
    match val.field("params"@) {
        Some(p) => p.is_field_or_null("item"@, item),
        None => item is Null,
    }
}

/// The kind of streamed output a delta notification carries.
pub open spec fn delta_kind(method: Seq<char>) -> Option<Seq<char>> {
    if method == "item/agentMessage/delta"@ {
        Some("agentMessage"@)
    } else if method == "item/reasoning/summaryTextDelta"@ || method == "item/reasoning/textDelta"@ {
        Some("reasoning"@)
    } else if method == "item/commandExecution/outputDelta"@ {
        Some("commandOutput"@)
    } else if method == "item/fileChange/outputDelta"@ {
        Some("fileChange"@)
    } else if method == "item/plan/delta"@ {
        Some("plan"@)
    } else {
        None
    }
}

/// Whether `method` asks the user to approve a command or a file change.
pub open spec fn is_approval_method(method: Seq<char>) -> bool {
    method == "item/commandExecution/requestApproval"@ || method
        == "item/fileChange/requestApproval"@
}

/// The event relayed for the app-server notification `val`, given the thread
/// ownership records `owners`. Notifications of a thread that no browser
/// connection owns, and notifications of other kinds, relay nothing.
pub open spec fn notification_event(
    owners: Seq<(String, u64)>,
    val: JsonValue,
    out: Option<FromCodexMessage>,
) -> bool {
    let method = val.text_field_or("method"@, ""@);
    let thread = params_text(val, "threadId"@, ""@);
    match owner_of(owners, thread) {
        None => out is None,
        Some(c) => if method == "turn/started"@ {
            out matches Some(FromCodexMessage::TurnStarted { client_id, thread_id, turn_id })
                && client_id == c && thread_id@ == thread && turn_id@ == params_sub_text(
                val,
                "turn"@,
                "id"@,
                ""@,
            )
        } else if method == "turn/completed"@ {
            out matches Some(
                FromCodexMessage::TurnCompleted { client_id, thread_id, turn_id, status, error },
            ) && client_id == c && thread_id@ == thread && turn_id@ == params_sub_text(
                val,
                "turn"@,
                "id"@,
                ""@,
            ) && status@ == params_sub_text(val, "turn"@, "status"@, "completed"@) && error
                == params_sub_field(val, "turn"@, "error"@)
        } else if method == "item/started"@ {
            out matches Some(
                FromCodexMessage::ItemStarted {
                    client_id,
                    thread_id,
                    turn_id,
                    item_id,
                    item_type,
                    item,
                },
            ) && client_id == c && thread_id@ == thread && turn_id@ == params_text(
                val,
                "turnId"@,
                ""@,
            ) && item_id@ == params_sub_text(val, "item"@, "id"@, ""@) && item_type@
                == params_sub_text(val, "item"@, "type"@, ""@) && is_item_payload(val, item)
        } else if method == "item/completed"@ {
            out matches Some(
                FromCodexMessage::ItemCompleted {
                    client_id,
                    thread_id,
                    turn_id,
                    item_id,
                    item_type,
                    item,
                },
            ) && client_id == c && thread_id@ == thread && turn_id@ == params_text(
                val,
                "turnId"@,
                ""@,
            ) && item_id@ == params_sub_text(val, "item"@, "id"@, ""@) && item_type@
                == params_sub_text(val, "item"@, "type"@, ""@) && is_item_payload(val, item)
        } else {
            match delta_kind(method) {
                Some(kind) => out matches Some(
                    FromCodexMessage::Delta {
                        client_id,
                        thread_id,
                        turn_id,
                        item_id,
                        delta_type,
                        content,
                    },
                ) && client_id == c && thread_id@ == thread && turn_id@ == params_text(
                    val,
                    "turnId"@,
                    ""@,
                ) && item_id@ == params_text(val, "itemId"@, ""@) && delta_type@ == kind
                    && content@ == params_text(val, "delta"@, ""@),
                None => out is None,
            }
        },
    }
}

/// The comparable id of the request id of a message.
pub open spec fn message_key(val: JsonValue) -> Option<IdKey> {
    match val.field("id"@) {
        Some(v) => request_key(v),
        None => None,
    }
}

/// What the Codex client does with the app-server's request `val`: approval
/// requests on an owned thread are relayed to the owner and awaited.
pub open spec fn server_request_effect(
    old: CodexSession,
    val: JsonValue,
    new: CodexSession,
    out: Option<FromCodexMessage>,
) -> bool {
    let method = val.text_field_or("method"@, ""@);
    let thread = params_text(val, "threadId"@, ""@);
    &&& new.next_request() == old.next_request()
    &&& new.pending() == old.pending()
    &&& new.owners() == old.owners()
    &&& if is_approval_method(method) && old.owner(thread) is Some {
        let c = old.owner(thread)->0;
        &&& out matches Some(
            FromCodexMessage::ApprovalRequest {
                client_id,
                thread_id,
                turn_id,
                item_id,
                request_id,
                method: m,
                detail,
            },
        ) && client_id == c && thread_id@ == thread && turn_id@ == params_text(
            val,
            "turnId"@,
            ""@,
        ) && item_id@ == params_text(val, "itemId"@, ""@) && val.is_field_or_null(
            "id"@,
            request_id,
        ) && m@ == method && val.is_field_or_empty("params"@, detail)
        &&& new.approvals() == match message_key(val) {
            Some(k) => old.approvals().push((k, c)),
            None => old.approvals(),
        }
    } else {
        &&& out is None
        &&& new.approvals() == old.approvals()
    }
}

/// What the Codex client does with the app-server's response `val` to one of its requests.
pub open spec fn response_effect(
    old: CodexSession,
    val: JsonValue,
    new: CodexSession,
    send: Option<JsonValue>,
    emit: Option<FromCodexMessage>,
) -> bool {
    let id = response_id(val);
    &&& new.approvals() == old.approvals()
    &&& if !old.pending().contains_key(id) {
        &&& new.next_request() == old.next_request()
        &&& new.pending() == old.pending()
        &&& new.owners() == old.owners()
        &&& send is None
        &&& emit is None
    } else {
        let p = old.pending()[id];
        let rest = old.pending().remove(id);
        if val.field("error"@) is Some {
            &&& new.next_request() == old.next_request()
            &&& new.pending() == rest
            &&& new.owners() == old.owners()
            &&& send is None
            &&& emit matches Some(FromCodexMessage::Error { client_id, error }) && client_id == Some(
                p.client(),
            ) && error@ == error_message(val)
        } else {
            match p {
                PendingRequest::ThreadStart { client_id, prompt, model } => {
                    let thread = created_thread(val);
                    if thread.len() == 0 {
                        &&& new.next_request() == old.next_request()
                        &&& new.pending() == rest
                        &&& new.owners() == old.owners()
                        &&& send is None
                        &&& emit matches Some(FromCodexMessage::Error { client_id: c, error })
                            && c == Some(client_id) && error@
                            == "thread/start returned no thread id"@
                    } else {
                        let tid = old.next_request();
                        &&& new.next_request() == successor(tid)
                        &&& new.pending() == rest.insert(
                            tid,
                            PendingRequest::TurnStart { client_id },
                        )
                        &&& owners_extended(old.owners(), new.owners(), thread, client_id)
                        &&& emit is None
                        &&& send matches Some(req) && is_request(req, "turn/start"@, tid) && (
                        req.field("params"@) matches Some(ps) && is_turn_start_params(
                            ps,
                            thread,
                            prompt@,
                            opt_string(model),
                        ))
                    }
                },
                _ => {
                    &&& new.next_request() == old.next_request()
                    &&& new.pending() == rest
                    &&& new.owners() == old.owners()
                    &&& send is None
                    &&& emit is None
                },
            }
        }
    }
}

/// What the Codex client does with one message `val` from the app-server: a
/// request when it has a method and an id, a notification when it has only a
/// method, a response when it has only an id; anything else is ignored.
pub open spec fn codex_message_effect(
    old: CodexSession,
    val: JsonValue,
    new: CodexSession,
    step: CodexStep,
) -> bool {
    let has_method = val.field("method"@) is Some;
    let has_id = val.field("id"@) is Some;
    if has_method && has_id {
        &&& server_request_effect(old, val, new, step.emit)
        &&& step.send is None
    } else if has_method {
        &&& notification_event(old.owners(), val, step.emit)
        &&& step.send is None
        &&& new.unchanged_from(old)
    } else if has_id {
        response_effect(old, val, new, step.send, step.emit)
    } else {
        &&& step.send is None
        &&& step.emit is None
        &&& new.unchanged_from(old)
    }
}

/// Something that happens while the Codex client runs.
#[derive(Debug)]
pub enum ClientEvent {
    /// A message from a browser connection.
    FromBrowser(ToCodexMessage),
    /// Every browser-side sender is gone.
    BrowsersGone,
    /// A line the app-server wrote to its stdout, read as JSON.
    CodexLine(JsonValue),
    /// A line on the app-server's stdout that is not JSON.
    CodexGarbled,
    /// The app-server's stdout closed.
    CodexClosed,
    /// Reading the app-server's stdout failed.
    CodexReadFailed,
    /// A line on the app-server's stderr.
    CodexStderr,
    /// The app-server process exited.
    CodexExited,
}

/// What the Codex client does after an event: what it writes to the
/// app-server, what it relays to browsers, and whether it stops.
pub struct Reaction {
    pub send: Option<JsonValue>,
    pub emit: Option<FromCodexMessage>,
    pub stop: bool,
}

/// What the Codex client does on the event `ev`.
pub open spec fn event_effect(old: CodexSession, ev: ClientEvent, new: CodexSession, r: Reaction) -> bool {
    match ev {
        ClientEvent::FromBrowser(msg) => {
            &&& r.send matches Some(out) && to_codex_effect(old, msg, new, out)
            &&& r.emit is None
            &&& !r.stop
        },
        ClientEvent::CodexLine(val) => {
            &&& codex_message_effect(old, val, new, (CodexStep { send: r.send, emit: r.emit }))
            &&& !r.stop
        },
        ClientEvent::BrowsersGone | ClientEvent::CodexReadFailed => {
            &&& new.unchanged_from(old)
            &&& r.send is None
            &&& r.emit is None
            &&& r.stop
        },
        ClientEvent::CodexClosed | ClientEvent::CodexExited => {
            &&& new.unchanged_from(old)
            &&& r.send is None
            &&& r.emit matches Some(FromCodexMessage::Disconnected)
            &&& r.stop
        },
        ClientEvent::CodexGarbled | ClientEvent::CodexStderr => {
            &&& new.unchanged_from(old)
            &&& r.send is None
            &&& r.emit is None
            &&& !r.stop
        },
    }
}

/// The state the Codex client keeps between messages.
pub struct CodexSession {
    next_request_id: u64,
    /// The requests sent to the app-server that still wait for a response, by id.
    pending_requests: HashMap<u64, PendingRequest>,
    /// Which browser connection each thread belongs to, latest record last.
    thread_owners: Vec<(String, u64)>,
    /// The app-server's approval requests that wait for an answer, with the
    /// browser connection they were relayed to.
    awaiting_approval: Vec<(RequestKey, u64)>,
}

/// What the Codex client does after one message: what it writes to the
/// app-server and what it relays to browsers.
pub struct CodexStep {
    pub send: Option<JsonValue>,
    pub emit: Option<FromCodexMessage>,
}

impl CodexSession {
    /// The id the next request to the app-server gets.
    pub closed spec fn next_request(self) -> u64 {
        self.next_request_id
    }

    /// The requests that wait for a response, by id.
    pub closed spec fn pending(self) -> Map<u64, PendingRequest> {
        self.pending_requests@
    }

    /// The thread ownership records, latest last.
    pub closed spec fn owners(self) -> Seq<(String, u64)> {
        self.thread_owners@
    }

    /// The approval requests that wait for an answer, with the browser connection each went to.
    pub closed spec fn approvals(self) -> Seq<(IdKey, u64)> {
        self.awaiting_approval@.map_values(|e: (RequestKey, u64)| (e.0.id_key(), e.1))
    }

    /// Every pending request has an id below the next one to be handed out,
    /// so a new request never takes the id of a pending one.
    pub open spec fn ids_fresh(self) -> bool {
        forall|k: u64| #[trigger] self.pending().contains_key(k) ==> k < self.next_request()
    }

    /// The pending requests are finitely many.
    pub proof fn lemma_pending_finite(self)
        ensures
            self.pending().dom().finite(),
    {
    }

    /// Whether `self` holds what `old` holds.
    pub open spec fn unchanged_from(self, old: CodexSession) -> bool {
        &&& self.next_request() == old.next_request()
        &&& self.pending() == old.pending()
        &&& self.owners() == old.owners()
        &&& self.approvals() == old.approvals()
    }

    /// The browser connection that owns `thread`.
    pub open spec fn owner(self, thread: Seq<char>) -> Option<u64> {
        owner_of(self.owners(), thread)
    }

    /// Whether an answer to the approval request `key` is awaited.
    pub open spec fn awaits(self, key: IdKey) -> bool {
        exists|i: int| 0 <= i < self.approvals().len() && #[trigger] self.approvals()[i].0 == key
    }

    /// A session before the first request: ids start at 1, nothing is pending or owned.
    pub fn new() -> (s: CodexSession)
        ensures
            s.next_request() == 1,
            s.pending() == Map::<u64, PendingRequest>::empty(),
            s.owners() == Seq::<(String, u64)>::empty(),
            s.approvals() == Seq::<(IdKey, u64)>::empty(),
            s.ids_fresh(),
    {
        let s = CodexSession {
            next_request_id: 1,
            pending_requests: HashMap::new(),
            thread_owners: Vec::new(),
            awaiting_approval: Vec::new(),
        };
        assert(s.approvals() =~= Seq::<(IdKey, u64)>::empty());
        s
    }

    /// Hands out the id for the next request to the app-server.
    pub fn next_id(&mut self) -> (id: u64)
        ensures
            id == old(self).next_request(),
            final(self).next_request() == successor(id),
            final(self).pending() == old(self).pending(),
            final(self).owners() == old(self).owners(),
            final(self).approvals() == old(self).approvals(),
    {
        next_id(&mut self.next_request_id)
    }

    fn record_owner(&mut self, thread_id: String, client_id: u64)
        ensures
            owners_extended(old(self).owners(), final(self).owners(), thread_id@, client_id),
            final(self).next_request() == old(self).next_request(),
            final(self).pending() == old(self).pending(),
            final(self).approvals() == old(self).approvals(),
    {
        self.thread_owners.push((thread_id, client_id));
        assert(self.thread_owners@.drop_last() =~= old(self).thread_owners@);
    }

    /// The browser connection that owns `thread_id`.
    pub fn owner_of(&self, thread_id: &String) -> (r: Option<u64>)
        ensures
            r == self.owner(thread_id@),
    {
        let mut i = self.thread_owners.len();
        assert(self.thread_owners@.take(i as int) =~= self.thread_owners@);
        while i > 0
            invariant
                i <= self.thread_owners@.len(),
                owner_of(self.thread_owners@, thread_id@) == owner_of(
                    self.thread_owners@.take(i as int),
                    thread_id@,
                ),
            decreases i,
        {
            let ghost prefix = self.thread_owners@.take(i as int);
            assert(prefix.drop_last() =~= self.thread_owners@.take(i - 1));
            if self.thread_owners[i - 1].0 == *thread_id {
                return Some(self.thread_owners[i - 1].1);
            }
            i -= 1;
        }
        None
    }

    fn record_approval(&mut self, key: RequestKey, client_id: u64)
        ensures
            final(self).approvals() == old(self).approvals().push((key.id_key(), client_id)),
            final(self).next_request() == old(self).next_request(),
            final(self).pending() == old(self).pending(),
            final(self).owners() == old(self).owners(),
    {
        self.awaiting_approval.push((key, client_id));
        assert(self.approvals() =~= old(self).approvals().push((key.id_key(), client_id)));
    }

    fn forget_approval(&mut self, key: &RequestKey)
        ensures
            final(self).approvals() == without_key(old(self).approvals(), key.id_key()),
            final(self).next_request() == old(self).next_request(),
            final(self).pending() == old(self).pending(),
            final(self).owners() == old(self).owners(),
    {
        let ghost all = old(self).approvals();
        let mut kept: Vec<(RequestKey, u64)> = Vec::new();
        let mut i: usize = 0;
        while i < self.awaiting_approval.len()
            invariant
                i <= self.awaiting_approval@.len(),
                self.awaiting_approval@ == old(self).awaiting_approval@,
                all == old(self).approvals(),
                kept@.map_values(|e: (RequestKey, u64)| (e.0.id_key(), e.1)) == without_key(
                    all.take(i as int),
                    key.id_key(),
                ),
            decreases self.awaiting_approval@.len() - i,
        {
            assert(all.take(i + 1).drop_last() =~= all.take(i as int));
            let ghost before = kept@;
            if !self.awaiting_approval[i].0.same(key) {
                let k = self.awaiting_approval[i].0.duplicate();
                kept.push((k, self.awaiting_approval[i].1));
                assert(kept@.map_values(|e: (RequestKey, u64)| (e.0.id_key(), e.1)) =~= before.map_values(
                    |e: (RequestKey, u64)| (e.0.id_key(), e.1),
                ).push(all[i as int]));
            }
            i += 1;
        }
        assert(all.take(all.len() as int) =~= all);
        self.awaiting_approval = kept;
    }
    /// Turns a browser message into the request (or approval answer) written to
    /// the app-server, remembering what the request waits for.
    pub fn handle_to_codex(&mut self, msg: ToCodexMessage) -> (out: JsonValue)
        ensures
            to_codex_effect(*old(self), msg, *final(self), out),
    {
        match msg {
            ToCodexMessage::StartTurn { client_id, prompt, cwd, model } => {
                let id = self.next_id();
                let cwd_ref: Option<&str> = match &cwd {
                    Some(c) => Some(c.as_str()),
                    None => None,
                };
                let model_ref: Option<&str> = match &model {
                    Some(m) => Some(m.as_str()),
                    None => None,
                };
                let params = thread_start_params(cwd_ref, model_ref);
                let req = request("thread/start", id, params);
                self.pending_requests.insert(
                    id,
                    PendingRequest::ThreadStart { client_id, prompt, model },
                );
                req
            },
            ToCodexMessage::Reply { client_id, thread_id, prompt } => {
                let id = self.next_id();
                self.record_owner(thread_id.clone(), client_id);
                let req = request("turn/start", id, turn_start_params(thread_id, prompt, None));
                self.pending_requests.insert(id, PendingRequest::TurnStart { client_id });
                req
            },
            ToCodexMessage::ApprovalResponse { request_id, decision, .. } => {
                match key_of(&request_id) {
                    Some(k) => self.forget_approval(&k),
                    None => {},
                }
                approval_reply(request_id, decision)
            },
            ToCodexMessage::Interrupt { client_id, thread_id, turn_id } => {
                let id = self.next_id();
                let req = request("turn/interrupt", id, interrupt_params(thread_id, turn_id));
                self.pending_requests.insert(id, PendingRequest::TurnInterrupt { client_id });
                req
            },
        }
    }
    /// Handles the app-server's response `val` to one of the client's requests.
    pub fn handle_response(&mut self, val: &JsonValue) -> (step: CodexStep)
        ensures
            response_effect(*old(self), *val, *final(self), step.send, step.emit),
    {
        let id = match val.get("id") {
            Some(v) => match v.as_u64() {
                Some(n) => n,
                None => 0,
            },
            None => 0,
        };
        let pending = match self.pending_requests.remove(&id) {
            Some(p) => p,
            None => {
                assert(self.pending_requests@ =~= old(self).pending_requests@);
                return CodexStep { send: None, emit: None };
            },
        };
        if let Some(err) = val.get("error") {
            let error = err.text_or("message", "Unknown error");
            return CodexStep {
                send: None,
                emit: Some(FromCodexMessage::Error { client_id: Some(pending.client_id()), error }),
            };
        }
        match pending {
            PendingRequest::ThreadStart { client_id, prompt, model } => {
                let thread_id = match val.get("result") {
                    Some(r) => r.sub_text_or("thread", "id", ""),
                    None => "".to_owned(),
                };
                if thread_id.as_str().is_empty() {
                    return CodexStep {
                        send: None,
                        emit: Some(
                            FromCodexMessage::Error {
                                client_id: Some(client_id),
                                error: "thread/start returned no thread id".to_owned(),
                            },
                        ),
                    };
                }
                let turn_id = self.next_id();
                self.record_owner(thread_id.clone(), client_id);
                let req = request("turn/start", turn_id, turn_start_params(thread_id, prompt, model));
                self.pending_requests.insert(turn_id, PendingRequest::TurnStart { client_id });
                CodexStep { send: Some(req), emit: None }
            },
            _ => CodexStep { send: None, emit: None },
        }
    }

    /// The event relayed for the app-server notification `val`.
    pub fn handle_notification(&self, val: JsonValue) -> (out: Option<FromCodexMessage>)
        ensures
            notification_event(self.owners(), val, out),
    {
        let method = val.text_or("method", "");
        let params = val.take_or_empty("params");
        let thread_id = params.text_or("threadId", "");
        let client_id = match self.owner_of(&thread_id) {
            Some(c) => c,
            None => {
                return None;
            },
        };
        if same_text(&method, "turn/started") {
            let turn_id = params.sub_text_or("turn", "id", "");
            Some(FromCodexMessage::TurnStarted { client_id, thread_id, turn_id })
        } else if same_text(&method, "turn/completed") {
            let turn_id = params.sub_text_or("turn", "id", "");
            let status = params.sub_text_or("turn", "status", "completed");
            let error = match params.take("turn") {
                Some(turn) => turn.take("error"),
                None => None,
            };
            Some(FromCodexMessage::TurnCompleted { client_id, thread_id, turn_id, status, error })
        } else if same_text(&method, "item/started") || same_text(&method, "item/completed") {
            let turn_id = params.text_or("turnId", "");
            let item_id = params.sub_text_or("item", "id", "");
            let item_type = params.sub_text_or("item", "type", "");
            let item = params.take_or_null("item");
            if same_text(&method, "item/started") {
                Some(
                    FromCodexMessage::ItemStarted {
                        client_id,
                        thread_id,
                        turn_id,
                        item_id,
                        item_type,
                        item,
                    },
                )
            } else {
                Some(
                    FromCodexMessage::ItemCompleted {
                        client_id,
                        thread_id,
                        turn_id,
                        item_id,
                        item_type,
                        item,
                    },
                )
            }
        } else {
            match delta_kind_of(&method) {
                Some(delta_type) => {
                    let turn_id = params.text_or("turnId", "");
                    let item_id = params.text_or("itemId", "");
                    let content = params.text_or("delta", "");
                    Some(
                        FromCodexMessage::Delta {
                            client_id,
                            thread_id,
                            turn_id,
                            item_id,
                            delta_type,
                            content,
                        },
                    )
                },
                None => None,
            }
        }
    }

    /// Handles a request the app-server sends to the client.
    pub fn handle_server_request(&mut self, val: JsonValue) -> (out: Option<FromCodexMessage>)
        ensures
            server_request_effect(*old(self), val, *final(self), out),
    {
        proof {
            crate::protocol::lemma_request_keys();
        }
        let method = val.text_or("method", "");
        let (id, params) = val.take_two("id", "params");
        let params = match params {
            Some(p) => p,
            None => JsonValue::empty_object(),
        };
        let request_id = match id {
            Some(v) => v,
            None => JsonValue::Null,
        };
        if !(same_text(&method, "item/commandExecution/requestApproval") || same_text(
            &method,
            "item/fileChange/requestApproval",
        )) {
            return None;
        }
        let thread_id = params.text_or("threadId", "");
        let client_id = match self.owner_of(&thread_id) {
            Some(c) => c,
            None => {
                return None;
            },
        };
        let turn_id = params.text_or("turnId", "");
        let item_id = params.text_or("itemId", "");
        match key_of(&request_id) {
            Some(k) => self.record_approval(k, client_id),
            None => {},
        }
        Some(
            FromCodexMessage::ApprovalRequest {
                client_id,
                thread_id,
                turn_id,
                item_id,
                request_id,
                method,
                detail: params,
            },
        )
    }

    /// Handles one message from the app-server.
    pub fn handle_codex_message(&mut self, val: JsonValue) -> (step: CodexStep)
        ensures
            codex_message_effect(*old(self), val, *final(self), step),
    {
        let has_method = val.has("method");
        let has_id = val.has("id");
        if has_method && has_id {
            let emit = self.handle_server_request(val);
            CodexStep { send: None, emit }
        } else if has_method {
            let emit = self.handle_notification(val);
            CodexStep { send: None, emit }
        } else if has_id {
            self.handle_response(&val)
        } else {
            CodexStep { send: None, emit: None }
        }
    }

    /// Decides what the Codex client does on the event `ev`.
    pub fn on_event(&mut self, ev: ClientEvent) -> (r: Reaction)
        ensures
            event_effect(*old(self), ev, *final(self), r),
    {
        match ev {
            ClientEvent::FromBrowser(msg) => {
                let out = self.handle_to_codex(msg);
                Reaction { send: Some(out), emit: None, stop: false }
            },
            ClientEvent::CodexLine(val) => {
                let step = self.handle_codex_message(val);
                Reaction { send: step.send, emit: step.emit, stop: false }
            },
            ClientEvent::BrowsersGone | ClientEvent::CodexReadFailed => Reaction {
                send: None,
                emit: None,
                stop: true,
            },
            ClientEvent::CodexClosed | ClientEvent::CodexExited => Reaction {
                send: None,
                emit: Some(FromCodexMessage::Disconnected),
                stop: true,
            },
            ClientEvent::CodexGarbled | ClientEvent::CodexStderr => Reaction {
                send: None,
                emit: None,
                stop: false,
            },
        }
    }
}

/// The kind of streamed output a delta notification with method `method` carries.
fn delta_kind_of(method: &String) -> (r: Option<String>)
    ensures
        match r {
            Some(k) => delta_kind(method@) == Some(k@),
            None => delta_kind(method@) is None,
        },
{
    if same_text(method, "item/agentMessage/delta") {
        Some("agentMessage".to_owned())
    } else if same_text(method, "item/reasoning/summaryTextDelta") || same_text(method, "item/reasoning/textDelta") {
        Some("reasoning".to_owned())
    } else if same_text(method, "item/commandExecution/outputDelta") {
        Some("commandOutput".to_owned())
    } else if same_text(method, "item/fileChange/outputDelta") {
        Some("fileChange".to_owned())
    } else if same_text(method, "item/plan/delta") {
        Some("plan".to_owned())
    } else {
        None
    }
}

} // verus!
