//! Properties of the relay that span several of its functions.

use vstd::prelude::*;

use crate::browser::{
    browser_json, browser_message, has_text, message_type, socket_effect, SocketEvent,
};
use crate::channels::{FromCodexMessage, ToCodexMessage};
use crate::ids::{nth_id, successor};
use crate::json::{is_text, JsonNumber, JsonValue};
use crate::protocol::{is_interrupt_params, is_request, is_turn_start_params};
use crate::session::{
    created_thread, event_effect, notification_event, owner_of, owners_extended, params_text,
    request_key, response_effect, response_id, server_request_effect, message_key, to_codex_effect,
    codex_message_effect, CodexStep,
    without_key, ClientEvent, CodexSession, IdKey, PendingRequest, Reaction,
};

verus! {

/// Recording `client` as the owner of `thread` makes it the owner of that
/// thread and leaves the owners of all other threads as they were.
pub proof fn lemma_owner_after_record(
    old: Seq<(String, u64)>,
    new: Seq<(String, u64)>,
    thread: Seq<char>,
    client: u64,
)
    requires
        owners_extended(old, new, thread, client),
    ensures
        owner_of(new, thread) == Some(client),
        forall|t: Seq<char>| t != thread ==> #[trigger] owner_of(new, t) == owner_of(old, t),
{
    assert forall|t: Seq<char>| t != thread implies #[trigger] owner_of(new, t) == owner_of(old, t) by {
        assert(new.drop_last() == old);
    }
}

/// Answering the approval request `key` leaves no entry for it, and keeps every other entry.
pub proof fn lemma_without_key(approvals: Seq<(IdKey, u64)>, key: IdKey)
    ensures
        forall|i: int|
            0 <= i < without_key(approvals, key).len() ==> #[trigger] without_key(
                approvals,
                key,
            )[i].0 != key,
        forall|i: int|
            0 <= i < approvals.len() && approvals[i].0 != key ==> without_key(
                approvals,
                key,
            ).contains(#[trigger] approvals[i]),
    decreases approvals.len(),
{
    if approvals.len() > 0 {
        let rest = approvals.drop_last();
        lemma_without_key(rest, key);
        assert forall|i: int|
            0 <= i < approvals.len() && approvals[i].0 != key implies without_key(
            approvals,
            key,
        ).contains(#[trigger] approvals[i]) by {
            if i < approvals.len() - 1 {
                assert(rest[i] == approvals[i]);
                let w = without_key(rest, key);
                let j = choose|j: int| 0 <= j < w.len() && w[j] == rest[i];
                if approvals.last().0 != key {
                    assert(w.push(approvals.last())[j] == approvals[i]);
                }
            } else {
                let w = without_key(rest, key);
                assert(w.push(approvals.last())[w.len() as int] == approvals[i]);
            }
        }
    }
}

/// Turn continuity and routing: every event relayed for a notification of a
/// thread belongs to that thread, is addressed to the browser connection that
/// owns the thread, and is delivered to that connection and to no other.
pub proof fn lemma_thread_events_go_to_owner(
    owners: Seq<(String, u64)>,
    val: JsonValue,
    m: FromCodexMessage,
    client: u64,
)
    requires
        notification_event(owners, val, Some(m)),
    ensures
        owner_of(owners, params_text(val, "threadId"@, ""@)) is Some,
        m.recipient() == owner_of(owners, params_text(val, "threadId"@, ""@)),
        m.turn_of() matches Some(tt) && tt.0 == params_text(val, "threadId"@, ""@),
        m.is_for(client) <==> owner_of(owners, params_text(val, "threadId"@, ""@)) == Some(client),
{
}

/// Approval routing: an approval request relayed to browsers is addressed to
/// the owner of its thread only, belongs to that thread, and is awaited until answered.
pub proof fn lemma_approval_requests_go_to_owner(
    old: CodexSession,
    val: JsonValue,
    new: CodexSession,
    m: FromCodexMessage,
    client: u64,
)
    requires
        server_request_effect(old, val, new, Some(m)),
    ensures
        old.owner(params_text(val, "threadId"@, ""@)) is Some,
        m.recipient() == old.owner(params_text(val, "threadId"@, ""@)),
        m.turn_of() matches Some(tt) && tt.0 == params_text(val, "threadId"@, ""@),
        m.is_for(client) <==> old.owner(params_text(val, "threadId"@, ""@)) == Some(client),
        message_key(val) matches Some(k) ==> new.awaits(k),
{
    if message_key(val) is Some {
        let k = message_key(val)->0;
        let n = old.approvals().len() as int;
        assert(new.approvals()[n].0 == k);
    }
}

/// An answered approval request is no longer awaited, and every other awaited
/// request still is.
pub proof fn lemma_answer_ends_wait(
    old: CodexSession,
    msg: ToCodexMessage,
    new: CodexSession,
    out: JsonValue,
    key: IdKey,
    other: IdKey,
)
    requires
        msg matches ToCodexMessage::ApprovalResponse { request_id, .. } && request_key(request_id)
            == Some(key),
        to_codex_effect(old, msg, new, out),
    ensures
        !new.awaits(key),
        other != key && old.awaits(other) ==> new.awaits(other),
{
    lemma_without_key(old.approvals(), key);
    if other != key && old.awaits(other) {
        let i = choose|i: int| 0 <= i < old.approvals().len() && #[trigger] old.approvals()[i].0 == other;
        let w = new.approvals();
        assert(w.contains(old.approvals()[i]));
        let j = choose|j: int| 0 <= j < w.len() && w[j] == old.approvals()[i];
        assert(w[j].0 == other);
    }
}

/// A thread created for a browser's `start_turn` belongs to that browser
/// connection; the owners of other threads do not change.
pub proof fn lemma_new_thread_belongs_to_starter(
    old: CodexSession,
    val: JsonValue,
    new: CodexSession,
    send: Option<JsonValue>,
    emit: Option<FromCodexMessage>,
    client: u64,
    other: Seq<char>,
)
    requires
        response_effect(old, val, new, send, emit),
        old.pending().contains_key(response_id(val)),
        old.pending()[response_id(val)] matches PendingRequest::ThreadStart { client_id, .. }
            && client_id == client,
        val.field("error"@) is None,
        created_thread(val).len() > 0,
    ensures
        new.owner(created_thread(val)) == Some(client),
        other != created_thread(val) ==> new.owner(other) == old.owner(other),
{
    lemma_owner_after_record(old.owners(), new.owners(), created_thread(val), client);
}

/// End to end: an event of a thread reaches a browser connection exactly when
/// that connection owns the thread.
pub proof fn lemma_turn_events_reach_only_owner(
    owners: Seq<(String, u64)>,
    val: JsonValue,
    m: FromCodexMessage,
    viewer: u64,
    r: crate::browser::SocketReaction,
)
    requires
        notification_event(owners, val, Some(m)),
        socket_effect(viewer, SocketEvent::Codex(m), r),
    ensures
        r.reply is Some <==> owner_of(owners, params_text(val, "threadId"@, ""@)) == Some(viewer),
{
    lemma_thread_events_go_to_owner(owners, val, m, viewer);
}

/// The JSON a browser receives for an event of a turn names that thread and turn.
pub proof fn lemma_browser_json_names_turn(m: FromCodexMessage, j: JsonValue)
    requires
        browser_json(m, j),
        m.turn_of() is Some,
    ensures
        has_text(j, "thread_id"@, (m.turn_of()->0).0),
        has_text(j, "turn_id"@, (m.turn_of()->0).1),
{
}

/// Reply continuity: a browser's `reply` starts a turn on the thread it names,
/// with its prompt, and makes the replying connection the thread's owner.
pub proof fn lemma_reply_stays_on_thread(
    val: JsonValue,
    client: u64,
    m: ToCodexMessage,
    old: CodexSession,
    new: CodexSession,
    out: JsonValue,
)
    requires
        message_type(val) == "reply"@,
        browser_message(val, client, Ok(m)),
        to_codex_effect(old, m, new, out),
    ensures
        is_request(out, "turn/start"@, old.next_request()),
        out.field("params"@) matches Some(p) && is_turn_start_params(
            p,
            val.text_field_or("thread_id"@, ""@),
            val.text_field_or("prompt"@, ""@),
            None,
        ),
        new.owner(val.text_field_or("thread_id"@, ""@)) == Some(client),
{
    reveal_strlit("reply");
    assert("reply"@.len() == 5 && "reply"@[0] == 'r');
    reveal_strlit("start_turn");
    assert("start_turn"@.len() == 10 && "start_turn"@[0] == 's');
    assert("reply"@ != "start_turn"@);
    if let ToCodexMessage::Reply { client_id, thread_id, prompt } = m {
        lemma_owner_after_record(old.owners(), new.owners(), thread_id@, client_id);
    }
}

/// Stopping targets exactly the turn the browser names: an `interrupt` becomes
/// a `turn/interrupt` request for that thread and turn.
pub proof fn lemma_interrupt_targets_turn(
    val: JsonValue,
    client: u64,
    m: ToCodexMessage,
    old: CodexSession,
    new: CodexSession,
    out: JsonValue,
)
    requires
        message_type(val) == "interrupt"@,
        browser_message(val, client, Ok(m)),
        to_codex_effect(old, m, new, out),
    ensures
        is_request(out, "turn/interrupt"@, old.next_request()),
        out.field("params"@) matches Some(p) && is_interrupt_params(
            p,
            val.text_field_or("thread_id"@, ""@),
            val.text_field_or("turn_id"@, ""@),
        ),
{
    reveal_strlit("interrupt");
    assert("interrupt"@.len() == 9 && "interrupt"@[0] == 'i');
    reveal_strlit("start_turn");
    assert("start_turn"@.len() == 10 && "start_turn"@[0] == 's');
    reveal_strlit("reply");
    assert("reply"@.len() == 5 && "reply"@[0] == 'r');
    reveal_strlit("approval_response");
    assert("approval_response"@.len() == 17 && "approval_response"@[0] == 'a');
    assert("interrupt"@ != "start_turn"@);
    assert("interrupt"@ != "reply"@);
    assert("interrupt"@ != "approval_response"@);
}

/// Disconnect: when the app-server goes away every browser connection is told,
/// and the Codex client stops.
pub proof fn lemma_disconnect_reaches_everyone(
    old: CodexSession,
    ev: ClientEvent,
    new: CodexSession,
    r: Reaction,
    client: u64,
)
    requires
        ev is CodexClosed || ev is CodexExited,
        event_effect(old, ev, new, r),
    ensures
        r.stop,
        r.emit matches Some(m) && m.is_for(client),
{
}

/// A browser message never replaces or drops a pending request, and the new
/// request takes an id no pending request has (while ids have not run out).
pub proof fn lemma_browser_request_keeps_pending(
    old: CodexSession,
    msg: ToCodexMessage,
    new: CodexSession,
    out: JsonValue,
)
    requires
        to_codex_effect(old, msg, new, out),
        old.ids_fresh(),
        old.next_request() < u64::MAX,
    ensures
        new.ids_fresh(),
        !old.pending().contains_key(old.next_request()),
        forall|k: u64| #[trigger]
            old.pending().contains_key(k) ==> new.pending().contains_key(k) && new.pending()[k]
                == old.pending()[k],
{
}

/// A response answers its request once: afterwards the request is no longer
/// pending, and every other pending request still is (while ids have not run out).
pub proof fn lemma_response_answers_once(
    old: CodexSession,
    val: JsonValue,
    new: CodexSession,
    send: Option<JsonValue>,
    emit: Option<FromCodexMessage>,
)
    requires
        response_effect(old, val, new, send, emit),
        old.ids_fresh(),
        old.next_request() < u64::MAX,
    ensures
        new.ids_fresh(),
        !new.pending().contains_key(response_id(val)),
        forall|k: u64| #[trigger]
            old.pending().contains_key(k) && k != response_id(val) ==> new.pending().contains_key(
                k,
            ) && new.pending()[k] == old.pending()[k],
{
}

/// Every event of the Codex client keeps request ids fresh (while ids have not run out).
pub proof fn lemma_events_keep_ids_fresh(
    old: CodexSession,
    ev: ClientEvent,
    new: CodexSession,
    r: Reaction,
)
    requires
        event_effect(old, ev, new, r),
        old.ids_fresh(),
        old.next_request() < u64::MAX,
    ensures
        new.ids_fresh(),
{
    match ev {
        ClientEvent::FromBrowser(msg) => {
            lemma_browser_request_keeps_pending(old, msg, new, r.send->0);
        },
        ClientEvent::CodexLine(val) => {
            if val.field("id"@) is Some && val.field("method"@) is None {
                lemma_response_answers_once(old, val, new, r.send, r.emit);
            }
        },
        _ => {},
    }
}

/// End to end: an approval request reaches a browser connection exactly when
/// that connection owns the thread it was raised on.
pub proof fn lemma_approval_reaches_only_owner(
    old: CodexSession,
    val: JsonValue,
    new: CodexSession,
    m: FromCodexMessage,
    viewer: u64,
    r: crate::browser::SocketReaction,
)
    requires
        server_request_effect(old, val, new, Some(m)),
        socket_effect(viewer, SocketEvent::Codex(m), r),
    ensures
        r.reply is Some <==> old.owner(params_text(val, "threadId"@, ""@)) == Some(viewer),
{
    lemma_approval_requests_go_to_owner(old, val, new, m, viewer);
}

/// Whatever a browser connection hands to the Codex client names that connection.
pub proof fn lemma_forwarded_messages_name_their_connection(
    client: u64,
    ev: SocketEvent,
    r: crate::browser::SocketReaction,
)
    requires
        socket_effect(client, ev, r),
    ensures
        r.forward matches Some(m) ==> m.client() == client,
{
}

/// A request the app-server refuses is answered to the browser connection that made it.
pub proof fn lemma_errors_return_to_requester(
    old: CodexSession,
    msg: ToCodexMessage,
    mid: CodexSession,
    out: JsonValue,
    val: JsonValue,
    new: CodexSession,
    send: Option<JsonValue>,
    emit: Option<FromCodexMessage>,
)
    requires
        !(msg is ApprovalResponse),
        to_codex_effect(old, msg, mid, out),
        response_id(val) == old.next_request(),
        val.field("error"@) is Some,
        response_effect(mid, val, new, send, emit),
    ensures
        emit matches Some(FromCodexMessage::Error { client_id, .. }) && client_id == Some(
            msg.client(),
        ),
        !new.pending().contains_key(response_id(val)),
{
}

/// While the counter has not reached `u64::MAX`, the `k`-th id handed out from
/// a counter at `start` is `start + k`.
pub proof fn lemma_nth_id(start: u64, k: nat)
    requires
        start + k <= u64::MAX,
    ensures
        nth_id(start, k) == start + k,
    decreases k,
{
    if k > 0 {
        lemma_nth_id(start, (k - 1) as nat);
    }
}

/// Ids increase: of two calls of `next_id` on one counter, the later one hands
/// out the larger id, so no id is handed out twice, as long as fewer than
/// `u64::MAX` ids are drawn in all.
pub proof fn lemma_ids_increase(start: u64, earlier: nat, later: nat)
    requires
        earlier < later,
        start + later <= u64::MAX,
    ensures
        nth_id(start, earlier) < nth_id(start, later),
        nth_id(start, earlier) != nth_id(start, later),
{
    lemma_nth_id(start, earlier);
    lemma_nth_id(start, later);
}

/// The next call of `next_id` hands out the next id of the run: one call after
/// `k` calls from `start` returns `nth_id(start, k)` and leaves the counter at
/// `nth_id(start, k + 1)`.
pub proof fn lemma_next_call(start: u64, k: nat)
    ensures
        nth_id(start, k + 1) == successor(nth_id(start, k)),
{
}

/// A browser message that makes a request adds exactly one pending request
/// (while ids have not run out).
pub proof fn lemma_new_request_adds_one(
    old: CodexSession,
    msg: ToCodexMessage,
    new: CodexSession,
    out: JsonValue,
)
    requires
        !(msg is ApprovalResponse),
        to_codex_effect(old, msg, new, out),
        old.ids_fresh(),
        old.next_request() < u64::MAX,
    ensures
        new.pending().len() == old.pending().len() + 1,
        new.next_request() == old.next_request() + 1,
{
    old.lemma_pending_finite();
    assert(!old.pending().contains_key(old.next_request()));
}

/// The method names and message types the relay tells apart are different texts.
pub proof fn lemma_names_differ()
    ensures
        "turn/started"@ != "turn/completed"@,
        "turn/started"@ != "item/started"@,
        "turn/started"@ != "item/completed"@,
        "turn/started"@ != "item/agentMessage/delta"@,
        "turn/started"@ != "item/reasoning/summaryTextDelta"@,
        "turn/started"@ != "item/reasoning/textDelta"@,
        "turn/started"@ != "item/commandExecution/outputDelta"@,
        "turn/started"@ != "item/fileChange/outputDelta"@,
        "turn/started"@ != "item/plan/delta"@,
        "turn/started"@ != "item/commandExecution/requestApproval"@,
        "turn/started"@ != "item/fileChange/requestApproval"@,
        "turn/completed"@ != "item/started"@,
        "turn/completed"@ != "item/completed"@,
        "turn/completed"@ != "item/agentMessage/delta"@,
        "turn/completed"@ != "item/reasoning/summaryTextDelta"@,
        "turn/completed"@ != "item/reasoning/textDelta"@,
        "turn/completed"@ != "item/commandExecution/outputDelta"@,
        "turn/completed"@ != "item/fileChange/outputDelta"@,
        "turn/completed"@ != "item/plan/delta"@,
        "turn/completed"@ != "item/commandExecution/requestApproval"@,
        "turn/completed"@ != "item/fileChange/requestApproval"@,
        "item/started"@ != "item/completed"@,
        "item/started"@ != "item/agentMessage/delta"@,
        "item/started"@ != "item/reasoning/summaryTextDelta"@,
        "item/started"@ != "item/reasoning/textDelta"@,
        "item/started"@ != "item/commandExecution/outputDelta"@,
        "item/started"@ != "item/fileChange/outputDelta"@,
        "item/started"@ != "item/plan/delta"@,
        "item/started"@ != "item/commandExecution/requestApproval"@,
        "item/started"@ != "item/fileChange/requestApproval"@,
        "item/completed"@ != "item/agentMessage/delta"@,
        "item/completed"@ != "item/reasoning/summaryTextDelta"@,
        "item/completed"@ != "item/reasoning/textDelta"@,
        "item/completed"@ != "item/commandExecution/outputDelta"@,
        "item/completed"@ != "item/fileChange/outputDelta"@,
        "item/completed"@ != "item/plan/delta"@,
        "item/completed"@ != "item/commandExecution/requestApproval"@,
        "item/completed"@ != "item/fileChange/requestApproval"@,
        "item/agentMessage/delta"@ != "item/reasoning/summaryTextDelta"@,
        "item/agentMessage/delta"@ != "item/reasoning/textDelta"@,
        "item/agentMessage/delta"@ != "item/commandExecution/outputDelta"@,
        "item/agentMessage/delta"@ != "item/fileChange/outputDelta"@,
        "item/agentMessage/delta"@ != "item/plan/delta"@,
        "item/agentMessage/delta"@ != "item/commandExecution/requestApproval"@,
        "item/agentMessage/delta"@ != "item/fileChange/requestApproval"@,
        "item/reasoning/summaryTextDelta"@ != "item/reasoning/textDelta"@,
        "item/reasoning/summaryTextDelta"@ != "item/commandExecution/outputDelta"@,
        "item/reasoning/summaryTextDelta"@ != "item/fileChange/outputDelta"@,
        "item/reasoning/summaryTextDelta"@ != "item/plan/delta"@,
        "item/reasoning/summaryTextDelta"@ != "item/commandExecution/requestApproval"@,
        "item/reasoning/summaryTextDelta"@ != "item/fileChange/requestApproval"@,
        "item/reasoning/textDelta"@ != "item/commandExecution/outputDelta"@,
        "item/reasoning/textDelta"@ != "item/fileChange/outputDelta"@,
        "item/reasoning/textDelta"@ != "item/plan/delta"@,
        "item/reasoning/textDelta"@ != "item/commandExecution/requestApproval"@,
        "item/reasoning/textDelta"@ != "item/fileChange/requestApproval"@,
        "item/commandExecution/outputDelta"@ != "item/fileChange/outputDelta"@,
        "item/commandExecution/outputDelta"@ != "item/plan/delta"@,
        "item/commandExecution/outputDelta"@ != "item/commandExecution/requestApproval"@,
        "item/commandExecution/outputDelta"@ != "item/fileChange/requestApproval"@,
        "item/fileChange/outputDelta"@ != "item/plan/delta"@,
        "item/fileChange/outputDelta"@ != "item/commandExecution/requestApproval"@,
        "item/fileChange/outputDelta"@ != "item/fileChange/requestApproval"@,
        "item/plan/delta"@ != "item/commandExecution/requestApproval"@,
        "item/plan/delta"@ != "item/fileChange/requestApproval"@,
        "item/commandExecution/requestApproval"@ != "item/fileChange/requestApproval"@,
        "start_turn"@ != "reply"@,
        "start_turn"@ != "approval_response"@,
        "start_turn"@ != "interrupt"@,
        "reply"@ != "approval_response"@,
        "reply"@ != "interrupt"@,
        "approval_response"@ != "interrupt"@,
{
    reveal_strlit("turn/started");
    assert("turn/started"@.len() == 12 && "turn/started"@[0] == 't' && "turn/started"@[5] == 's');
    reveal_strlit("turn/completed");
    assert("turn/completed"@.len() == 14 && "turn/completed"@[0] == 't' && "turn/completed"@[5] == 'c');
    reveal_strlit("item/started");
    assert("item/started"@.len() == 12 && "item/started"@[0] == 'i' && "item/started"@[5] == 's');
    reveal_strlit("item/completed");
    assert("item/completed"@.len() == 14 && "item/completed"@[0] == 'i' && "item/completed"@[5] == 'c');
    reveal_strlit("item/agentMessage/delta");
    assert("item/agentMessage/delta"@.len() == 23 && "item/agentMessage/delta"@[0] == 'i' && "item/agentMessage/delta"@[5] == 'a');
    reveal_strlit("item/reasoning/summaryTextDelta");
    assert("item/reasoning/summaryTextDelta"@.len() == 31 && "item/reasoning/summaryTextDelta"@[0] == 'i' && "item/reasoning/summaryTextDelta"@[5] == 'r');
    reveal_strlit("item/reasoning/textDelta");
    assert("item/reasoning/textDelta"@.len() == 24 && "item/reasoning/textDelta"@[0] == 'i' && "item/reasoning/textDelta"@[5] == 'r');
    reveal_strlit("item/commandExecution/outputDelta");
    assert("item/commandExecution/outputDelta"@.len() == 33 && "item/commandExecution/outputDelta"@[0] == 'i' && "item/commandExecution/outputDelta"@[5] == 'c');
    reveal_strlit("item/fileChange/outputDelta");
    assert("item/fileChange/outputDelta"@.len() == 27 && "item/fileChange/outputDelta"@[0] == 'i' && "item/fileChange/outputDelta"@[5] == 'f');
    reveal_strlit("item/plan/delta");
    assert("item/plan/delta"@.len() == 15 && "item/plan/delta"@[0] == 'i' && "item/plan/delta"@[5] == 'p');
    reveal_strlit("item/commandExecution/requestApproval");
    assert("item/commandExecution/requestApproval"@.len() == 37 && "item/commandExecution/requestApproval"@[0] == 'i' && "item/commandExecution/requestApproval"@[5] == 'c');
    reveal_strlit("item/fileChange/requestApproval");
    assert("item/fileChange/requestApproval"@.len() == 31 && "item/fileChange/requestApproval"@[0] == 'i' && "item/fileChange/requestApproval"@[5] == 'f');
    reveal_strlit("start_turn");
    assert("start_turn"@.len() == 10 && "start_turn"@[0] == 's' && "start_turn"@[5] == '_');
    reveal_strlit("reply");
    assert("reply"@.len() == 5 && "reply"@[0] == 'r');
    reveal_strlit("approval_response");
    assert("approval_response"@.len() == 17 && "approval_response"@[0] == 'a' && "approval_response"@[5] == 'v');
    reveal_strlit("interrupt");
    assert("interrupt"@.len() == 9 && "interrupt"@[0] == 'i' && "interrupt"@[5] == 'r');
    reveal_strlit("agentMessage");
    assert("agentMessage"@.len() == 12 && "agentMessage"@[0] == 'a' && "agentMessage"@[5] == 'M');
    reveal_strlit("reasoning");
    assert("reasoning"@.len() == 9 && "reasoning"@[0] == 'r' && "reasoning"@[5] == 'n');
    reveal_strlit("commandOutput");
    assert("commandOutput"@.len() == 13 && "commandOutput"@[0] == 'c' && "commandOutput"@[5] == 'n');
    reveal_strlit("fileChange");
    assert("fileChange"@.len() == 10 && "fileChange"@[0] == 'f' && "fileChange"@[5] == 'h');
    reveal_strlit("plan");
    assert("plan"@.len() == 4 && "plan"@[0] == 'p');
}

/// The text of the string field `key` of `obj`, or `""`.
pub open spec fn text_of(obj: JsonValue, key: Seq<char>) -> Seq<char> {
    match obj.field(key) {
        Some(JsonValue::Str(s)) => s@,
        _ => ""@,
    }
}

proof fn lemma_text_of(obj: JsonValue, key: Seq<char>, default: Seq<char>)
    ensures
        obj.text_field_or(key, ""@) == text_of(obj, key),
        obj.field(key) is None ==> obj.text_field_or(key, default) == default,
        obj.nonempty_text_field(key) == (if text_of(obj, key).len() > 0 {
            Some(text_of(obj, key))
        } else {
            None::<Seq<char>>
        }),
{
    reveal_strlit("");
}

/// Approval requests are relayed: a request `item/commandExecution/requestApproval`
/// or `item/fileChange/requestApproval` on a thread that a browser connection
/// owns gives exactly one approval request, addressed to that owner, naming the
/// thread, turn and item of its parameters, carrying the request's id, its
/// method and its parameters unchanged; and the request is then awaited.
pub proof fn lemma_approval_requests_are_relayed(
    old: CodexSession,
    val: JsonValue,
    new: CodexSession,
    out: Option<FromCodexMessage>,
    params: JsonValue,
    owner: u64,
)
    requires
        server_request_effect(old, val, new, out),
        text_of(val, "method"@) == "item/commandExecution/requestApproval"@ || text_of(
            val,
            "method"@,
        ) == "item/fileChange/requestApproval"@,
        val.field("params"@) == Some(params),
        old.owner(text_of(params, "threadId"@)) == Some(owner),
    ensures
        out matches Some(
            FromCodexMessage::ApprovalRequest {
                client_id,
                thread_id,
                turn_id,
                item_id,
                request_id,
                method,
                detail,
            },
        ) && client_id == owner && thread_id@ == text_of(params, "threadId"@) && turn_id@
            == text_of(params, "turnId"@) && item_id@ == text_of(params, "itemId"@) && method@
            == text_of(val, "method"@) && detail == params && match val.field("id"@) {
            Some(id) => request_id == id,
            None => request_id is Null,
        },
        match val.field("id"@) {
            Some(id) => match request_key(id) {
                Some(k) => new.awaits(k),
                None => true,
            },
            None => true,
        },
{
    lemma_text_of(val, "method"@, ""@);
    lemma_text_of(params, "threadId"@, ""@);
    lemma_text_of(params, "turnId"@, ""@);
    lemma_text_of(params, "itemId"@, ""@);
    if let Some(id) = val.field("id"@) {
        if let Some(k) = request_key(id) {
            let n = old.approvals().len() as int;
            assert(new.approvals()[n].0 == k);
        }
    }
}

/// Every other request of the app-server is relayed to nobody and awaited by nobody.
pub proof fn lemma_other_requests_are_not_relayed(
    old: CodexSession,
    val: JsonValue,
    new: CodexSession,
    out: Option<FromCodexMessage>,
)
    requires
        server_request_effect(old, val, new, out),
        text_of(val, "method"@) != "item/commandExecution/requestApproval"@,
        text_of(val, "method"@) != "item/fileChange/requestApproval"@,
    ensures
        out is None,
        new.approvals() == old.approvals(),
{
    lemma_text_of(val, "method"@, ""@);
}

/// Item events carry the item: an `item/started` or `item/completed`
/// notification on an owned thread gives an item event of the same kind,
/// addressed to the owner, naming the thread and turn, with the item's id and
/// type, and with the item itself unchanged (`null` only when there is none).
pub proof fn lemma_item_events_carry_the_item(
    owners: Seq<(String, u64)>,
    val: JsonValue,
    out: Option<FromCodexMessage>,
    params: JsonValue,
    owner: u64,
)
    requires
        notification_event(owners, val, out),
        text_of(val, "method"@) == "item/started"@ || text_of(val, "method"@)
            == "item/completed"@,
        val.field("params"@) == Some(params),
        owner_of(owners, text_of(params, "threadId"@)) == Some(owner),
    ensures
        text_of(val, "method"@) == "item/started"@ ==> out matches Some(
            FromCodexMessage::ItemStarted { .. },
        ),
        text_of(val, "method"@) == "item/completed"@ ==> out matches Some(
            FromCodexMessage::ItemCompleted { .. },
        ),
        match out {
            Some(FromCodexMessage::ItemStarted {
                client_id,
                thread_id,
                turn_id,
                item_id,
                item_type,
                item,
            })
            | Some(
                FromCodexMessage::ItemCompleted {
                    client_id,
                    thread_id,
                    turn_id,
                    item_id,
                    item_type,
                    item,
                },
            ) => {
                &&& client_id == owner
                &&& thread_id@ == text_of(params, "threadId"@)
                &&& turn_id@ == text_of(params, "turnId"@)
                &&& match params.field("item"@) {
                    Some(it) => {
                        &&& item == it
                        &&& item_id@ == text_of(it, "id"@)
                        &&& item_type@ == text_of(it, "type"@)
                    },
                    None => item is Null && item_id@ == ""@ && item_type@ == ""@,
                }
            },
            _ => false,
        },
{
    lemma_names_differ();
    lemma_text_of(val, "method"@, ""@);
    lemma_text_of(params, "threadId"@, ""@);
    lemma_text_of(params, "turnId"@, ""@);
    if let Some(it) = params.field("item"@) {
        lemma_text_of(it, "id"@, ""@);
        lemma_text_of(it, "type"@, ""@);
    }
}

/// Turn events: `turn/started` and `turn/completed` on an owned thread give the
/// matching turn event for the owner, naming the thread and the turn's id; a
/// completed turn carries the turn's status (`"completed"` when it has none)
/// and its error unchanged.
pub proof fn lemma_turn_events_carry_the_turn(
    owners: Seq<(String, u64)>,
    val: JsonValue,
    out: Option<FromCodexMessage>,
    params: JsonValue,
    turn: JsonValue,
    owner: u64,
)
    requires
        notification_event(owners, val, out),
        text_of(val, "method"@) == "turn/started"@ || text_of(val, "method"@)
            == "turn/completed"@,
        val.field("params"@) == Some(params),
        params.field("turn"@) == Some(turn),
        owner_of(owners, text_of(params, "threadId"@)) == Some(owner),
    ensures
        text_of(val, "method"@) == "turn/started"@ ==> (out matches Some(
            FromCodexMessage::TurnStarted { client_id, thread_id, turn_id },
        ) && client_id == owner && thread_id@ == text_of(params, "threadId"@) && turn_id@
            == text_of(turn, "id"@)),
        text_of(val, "method"@) == "turn/completed"@ ==> (out matches Some(
            FromCodexMessage::TurnCompleted { client_id, thread_id, turn_id, status, error },
        ) && client_id == owner && thread_id@ == text_of(params, "threadId"@) && turn_id@
            == text_of(turn, "id"@) && status@ == match turn.field("status"@) {
            Some(JsonValue::Str(s)) => s@,
            _ => "completed"@,
        } && error == turn.field("error"@)),
{
    lemma_names_differ();
    lemma_text_of(val, "method"@, ""@);
    lemma_text_of(params, "threadId"@, ""@);
    lemma_text_of(turn, "id"@, ""@);
}

/// Deltas: each streamed-output notification on an owned thread gives a delta
/// for the owner, naming the thread, turn and item, of the kind its method
/// names, with the streamed text unchanged.
pub proof fn lemma_deltas_carry_the_text(
    owners: Seq<(String, u64)>,
    val: JsonValue,
    out: Option<FromCodexMessage>,
    params: JsonValue,
    owner: u64,
    kind: Seq<char>,
)
    requires
        notification_event(owners, val, out),
        (text_of(val, "method"@) == "item/agentMessage/delta"@ && kind == "agentMessage"@) || (
        text_of(val, "method"@) == "item/reasoning/summaryTextDelta"@ && kind == "reasoning"@) || (
        text_of(val, "method"@) == "item/reasoning/textDelta"@ && kind == "reasoning"@) || (
        text_of(val, "method"@) == "item/commandExecution/outputDelta"@ && kind
            == "commandOutput"@) || (text_of(val, "method"@) == "item/fileChange/outputDelta"@
            && kind == "fileChange"@) || (text_of(val, "method"@) == "item/plan/delta"@ && kind
            == "plan"@),
        val.field("params"@) == Some(params),
        owner_of(owners, text_of(params, "threadId"@)) == Some(owner),
    ensures
        out matches Some(
            FromCodexMessage::Delta { client_id, thread_id, turn_id, item_id, delta_type, content },
        ) && client_id == owner && thread_id@ == text_of(params, "threadId"@) && turn_id@
            == text_of(params, "turnId"@) && item_id@ == text_of(params, "itemId"@) && delta_type@
            == kind && content@ == text_of(params, "delta"@),
{
    lemma_names_differ();
    lemma_text_of(val, "method"@, ""@);
    lemma_text_of(params, "threadId"@, ""@);
    lemma_text_of(params, "turnId"@, ""@);
    lemma_text_of(params, "itemId"@, ""@);
    lemma_text_of(params, "delta"@, ""@);
}

/// An approval answer is forwarded as the browser gave it: when its `decision`
/// is a string, that string; only a missing or non-string decision is a
/// decline. The request id is forwarded unchanged.
pub proof fn lemma_approval_decision_is_kept(
    val: JsonValue,
    client: u64,
    r: Result<ToCodexMessage, crate::browser::BrowserError>,
)
    requires
        browser_message(val, client, r),
        text_of(val, "type"@) == "approval_response"@,
    ensures
        r matches Ok(ToCodexMessage::ApprovalResponse { client_id, request_id, decision })
            && client_id == client && decision@ == match val.field("decision"@) {
            Some(JsonValue::Str(d)) => d@,
            _ => "decline"@,
        } && match val.field("request_id"@) {
            Some(id) => request_id == id,
            None => request_id is Null,
        },
{
    lemma_names_differ();
    lemma_text_of(val, "type"@, ""@);
}

/// The other browser messages carry what the browser wrote: a `start_turn`
/// its prompt and its non-empty working directory and model, a `reply` its
/// thread and prompt, an `interrupt` its thread and turn.
pub proof fn lemma_browser_messages_carry_their_fields(
    val: JsonValue,
    client: u64,
    r: Result<ToCodexMessage, crate::browser::BrowserError>,
)
    requires
        browser_message(val, client, r),
    ensures
        text_of(val, "type"@) == "start_turn"@ ==> (r matches Ok(
            ToCodexMessage::StartTurn { client_id, prompt, cwd, model },
        ) && client_id == client && prompt@ == text_of(val, "prompt"@) && match cwd {
            Some(c) => c@ == text_of(val, "cwd"@) && c@.len() > 0,
            None => text_of(val, "cwd"@).len() == 0,
        } && match model {
            Some(m) => m@ == text_of(val, "model"@) && m@.len() > 0,
            None => text_of(val, "model"@).len() == 0,
        }),
        text_of(val, "type"@) == "reply"@ ==> (r matches Ok(
            ToCodexMessage::Reply { client_id, thread_id, prompt },
        ) && client_id == client && thread_id@ == text_of(val, "thread_id"@) && prompt@
            == text_of(val, "prompt"@)),
        text_of(val, "type"@) == "interrupt"@ ==> (r matches Ok(
            ToCodexMessage::Interrupt { client_id, thread_id, turn_id },
        ) && client_id == client && thread_id@ == text_of(val, "thread_id"@) && turn_id@
            == text_of(val, "turn_id"@)),
        text_of(val, "type"@) != "start_turn"@ && text_of(val, "type"@) != "reply"@ && text_of(
            val,
            "type"@,
        ) != "approval_response"@ && text_of(val, "type"@) != "interrupt"@ ==> (r matches Err(
            crate::browser::BrowserError::UnknownType { msg_type },
        ) && msg_type@ == text_of(val, "type"@)),
{
    lemma_names_differ();
    lemma_text_of(val, "type"@, ""@);
    lemma_text_of(val, "prompt"@, ""@);
    lemma_text_of(val, "cwd"@, ""@);
    lemma_text_of(val, "model"@, ""@);
    lemma_text_of(val, "thread_id"@, ""@);
    lemma_text_of(val, "turn_id"@, ""@);
}

/// The browser sees every field of a relayed event, except the connection it
/// is addressed to, unchanged under its own name.
pub proof fn lemma_browser_json_keeps_every_field(m: FromCodexMessage, j: JsonValue)
    requires
        browser_json(m, j),
    ensures
        match m {
            FromCodexMessage::TurnStarted { thread_id, turn_id, .. } => is_text(
                j.field("thread_id"@),
                thread_id@,
            ) && is_text(j.field("turn_id"@), turn_id@),
            FromCodexMessage::ItemStarted { thread_id, turn_id, item_id, item_type, item, .. }
            | FromCodexMessage::ItemCompleted {
                thread_id,
                turn_id,
                item_id,
                item_type,
                item,
                ..
            } => is_text(j.field("thread_id"@), thread_id@) && is_text(
                j.field("turn_id"@),
                turn_id@,
            ) && is_text(j.field("item_id"@), item_id@) && is_text(
                j.field("item_type"@),
                item_type@,
            ) && j.field("item"@) == Some(item),
            FromCodexMessage::Delta {
                thread_id,
                turn_id,
                item_id,
                delta_type,
                content,
                ..
            } => is_text(j.field("thread_id"@), thread_id@) && is_text(
                j.field("turn_id"@),
                turn_id@,
            ) && is_text(j.field("item_id"@), item_id@) && is_text(
                j.field("delta_type"@),
                delta_type@,
            ) && is_text(j.field("content"@), content@),
            FromCodexMessage::ApprovalRequest {
                thread_id,
                turn_id,
                item_id,
                request_id,
                method,
                detail,
                ..
            } => is_text(j.field("thread_id"@), thread_id@) && is_text(
                j.field("turn_id"@),
                turn_id@,
            ) && is_text(j.field("item_id"@), item_id@) && j.field("request_id"@) == Some(
                request_id,
            ) && is_text(j.field("method"@), method@) && j.field("detail"@) == Some(detail),
            FromCodexMessage::TurnCompleted { thread_id, turn_id, status, error, .. } => is_text(
                j.field("thread_id"@),
                thread_id@,
            ) && is_text(j.field("turn_id"@), turn_id@) && is_text(j.field("status"@), status@)
                && match error {
                Some(e) => j.field("error"@) == Some(e),
                None => j.field("error"@) == Some(JsonValue::Null),
            },
            FromCodexMessage::Error { error, .. } => is_text(j.field("error"@), error@),
            _ => true,
        },
{
}

/// Acknowledgements stay quiet: a response without an error to a pending
/// `turn/start` or `turn/interrupt` relays nothing to any browser and writes
/// nothing to the app-server; it only ends the wait for that request.
pub proof fn lemma_acknowledgements_relay_nothing(
    old: CodexSession,
    val: JsonValue,
    new: CodexSession,
    send: Option<JsonValue>,
    emit: Option<FromCodexMessage>,
)
    requires
        response_effect(old, val, new, send, emit),
        val.field("error"@) is None,
        old.pending().contains_key(response_id(val)),
        old.pending()[response_id(val)] is TurnStart || old.pending()[response_id(val)] is TurnInterrupt,
    ensures
        send is None,
        emit is None,
        new.pending() == old.pending().remove(response_id(val)),
        new.owners() == old.owners(),
        new.next_request() == old.next_request(),
{
}

/// Errors are relayed only for failures: a response relays at most an error,
/// and only when it answers a pending request and either carries an `error`
/// or is a `thread/start` answer without a thread id; the error then goes to
/// the browser connection that made the request.
pub proof fn lemma_errors_only_for_failures(
    old: CodexSession,
    val: JsonValue,
    new: CodexSession,
    send: Option<JsonValue>,
    emit: Option<FromCodexMessage>,
)
    requires
        response_effect(old, val, new, send, emit),
    ensures
        emit is Some ==> (emit matches Some(FromCodexMessage::Error { client_id, .. })
            && old.pending().contains_key(response_id(val)) && client_id == Some(
            old.pending()[response_id(val)].client(),
        ) && (val.field("error"@) is Some || (old.pending()[response_id(val)] is ThreadStart
            && match val.field("result"@) {
            Some(res) => match res.field("thread"@) {
                Some(t) => text_of(t, "id"@),
                None => ""@,
            },
            None => ""@,
        }.len() == 0))),
{
    if let Some(res) = val.field("result"@) {
        if let Some(t) = res.field("thread"@) {
            lemma_text_of(t, "id"@, ""@);
        }
    }
}

/// `j` is the JSON number `n`.
pub open spec fn is_number(o: Option<JsonValue>, n: u64) -> bool {
    o == Some(JsonValue::Number(JsonNumber::PosInt(n)))
}

/// A `start_turn` asks the app-server for a new thread: a `thread/start`
/// request under the next id, asking for approval on request and passing the
/// browser's working directory and model when it gave them; the prompt and
/// model wait under that id for the thread.
pub proof fn lemma_start_turn_requests_a_thread(
    old: CodexSession,
    msg: ToCodexMessage,
    new: CodexSession,
    out: JsonValue,
)
    requires
        msg is StartTurn,
        to_codex_effect(old, msg, new, out),
    ensures
        is_text(out.field("method"@), "thread/start"@),
        is_number(out.field("id"@), old.next_request()),
        out.field("params"@) matches Some(p) && is_text(p.field("approvalPolicy"@), "on-request"@)
            && match msg->StartTurn_cwd {
            Some(c) => is_text(p.field("cwd"@), c@),
            None => p.field("cwd"@) is None,
        } && match msg->StartTurn_model {
            Some(m) => is_text(p.field("model"@), m@),
            None => p.field("model"@) is None,
        },
        new.pending().contains_key(old.next_request()),
        new.pending()[old.next_request()] == (PendingRequest::ThreadStart {
            client_id: msg->StartTurn_client_id,
            prompt: msg->StartTurn_prompt,
            model: msg->StartTurn_model,
        }),
        old.next_request() < u64::MAX ==> new.next_request() == old.next_request() + 1,
{
}

/// An approval answer is forwarded to the app-server as the answer to the
/// request it names, with the browser's decision, and nothing else changes.
pub proof fn lemma_approval_answer_is_forwarded(
    old: CodexSession,
    msg: ToCodexMessage,
    new: CodexSession,
    out: JsonValue,
)
    requires
        msg is ApprovalResponse,
        to_codex_effect(old, msg, new, out),
    ensures
        out.field("id"@) == Some(msg->request_id),
        is_text(out.field("result"@), msg->decision@),
        out.field("method"@) is None,
        new.pending() == old.pending(),
        new.next_request() == old.next_request(),
        new.owners() == old.owners(),
{
    reveal_strlit("method");
    reveal_strlit("id");
    reveal_strlit("result");
    assert("method"@.len() == 6 && "id"@.len() == 2 && "result"@.len() == 6 && "method"@[0] == 'm'
        && "result"@[0] == 'r');
    let e = out->Object_0@;
    let ks = crate::json::keys_of(e);
    assert(ks.len() == e.len());
    assert(ks == seq!["id"@, "result"@]);
    assert forall|j: int| 0 <= j < e.len() implies e[j].0@ != "method"@ by {
        assert(ks[j] == e[j].0@);
    }
    crate::json::lemma_lookup_absent(e, "method"@);
}

/// Once `thread/start` answers with a thread, the turn is started on that
/// thread: a `turn/start` request under the next id, with the waiting prompt
/// as the text input and the waiting model, and the turn waits under that id
/// for the same browser connection. Nothing is relayed to browsers.
pub proof fn lemma_new_thread_gets_the_turn(
    old: CodexSession,
    val: JsonValue,
    new: CodexSession,
    send: Option<JsonValue>,
    emit: Option<FromCodexMessage>,
    result: JsonValue,
    thread: JsonValue,
)
    requires
        response_effect(old, val, new, send, emit),
        old.pending().contains_key(response_id(val)),
        old.pending()[response_id(val)] is ThreadStart,
        val.field("error"@) is None,
        val.field("result"@) == Some(result),
        result.field("thread"@) == Some(thread),
        text_of(thread, "id"@).len() > 0,
    ensures
        emit is None,
        send matches Some(req) && is_text(req.field("method"@), "turn/start"@) && is_number(
            req.field("id"@),
            old.next_request(),
        ) && (req.field("params"@) matches Some(p) && is_text(
            p.field("threadId"@),
            text_of(thread, "id"@),
        ) && (p.field("input"@) matches Some(JsonValue::Array(items)) && items@.len() == 1
            && is_text(items@[0].field("type"@), "text"@) && is_text(
            items@[0].field("text"@),
            old.pending()[response_id(val)]->prompt@,
        )) && match old.pending()[response_id(val)]->model {
            Some(m) => is_text(p.field("model"@), m@),
            None => p.field("model"@) is None,
        }),
        new.pending().contains_key(old.next_request()),
        new.pending()[old.next_request()] == (PendingRequest::TurnStart {
            client_id: old.pending()[response_id(val)].client(),
        }),
{
    lemma_text_of(thread, "id"@, ""@);
}

/// What the app-server sends is told apart by its shape: with a method and an
/// id it is a request, with only a method a notification (which changes
/// nothing), with only an id a response; anything else is ignored.
pub proof fn lemma_codex_messages_are_dispatched(
    old: CodexSession,
    val: JsonValue,
    new: CodexSession,
    step: CodexStep,
)
    requires
        codex_message_effect(old, val, new, step),
    ensures
        val.field("method"@) is Some && val.field("id"@) is Some ==> server_request_effect(
            old,
            val,
            new,
            step.emit,
        ) && step.send is None,
        val.field("method"@) is Some && val.field("id"@) is None ==> notification_event(
            old.owners(),
            val,
            step.emit,
        ) && step.send is None && new.unchanged_from(old),
        val.field("method"@) is None && val.field("id"@) is Some ==> response_effect(
            old,
            val,
            new,
            step.send,
            step.emit,
        ),
        val.field("method"@) is None && val.field("id"@) is None ==> step.send is None
            && step.emit is None && new.unchanged_from(old),
{
}

/// The Codex client writes one request for every browser message, relays the
/// app-server's messages, and stops only when the browsers or the app-server
/// are gone.
pub proof fn lemma_events_are_handled(
    old: CodexSession,
    ev: ClientEvent,
    new: CodexSession,
    r: Reaction,
)
    requires
        event_effect(old, ev, new, r),
    ensures
        ev matches ClientEvent::FromBrowser(msg) ==> (r.send matches Some(out) && to_codex_effect(
            old,
            msg,
            new,
            out,
        )) && r.emit is None && !r.stop,
        ev matches ClientEvent::CodexLine(val) ==> codex_message_effect(
            old,
            val,
            new,
            (CodexStep { send: r.send, emit: r.emit }),
        ) && !r.stop,
        r.stop <==> (ev is BrowsersGone || ev is CodexReadFailed || ev is CodexClosed
            || ev is CodexExited),
        (ev is CodexGarbled || ev is CodexStderr) ==> r.send is None && r.emit is None
            && new.unchanged_from(old),
{
}

/// Events of threads no browser connection owns, and approval requests on
/// them, are relayed to nobody.
pub proof fn lemma_unowned_threads_relay_nothing(
    old: CodexSession,
    val: JsonValue,
    new: CodexSession,
    out: Option<FromCodexMessage>,
    params: JsonValue,
)
    requires
        val.field("params"@) == Some(params),
        old.owner(text_of(params, "threadId"@)) is None,
        notification_event(old.owners(), val, out) || server_request_effect(old, val, new, out),
    ensures
        out is None,
{
    lemma_text_of(params, "threadId"@, ""@);
}

/// A browser message of a known type is handed to the Codex client and not
/// answered; one of an unknown type is answered with the error
/// `"Unknown message type: "` followed by its type, and handed to nobody.
pub proof fn lemma_browser_json_is_forwarded_or_refused(
    client: u64,
    val: JsonValue,
    r: crate::browser::SocketReaction,
)
    requires
        socket_effect(client, SocketEvent::BrowserJson(val), r),
    ensures
        !r.stop,
        (text_of(val, "type"@) == "start_turn"@ || text_of(val, "type"@) == "reply"@ || text_of(
            val,
            "type"@,
        ) == "approval_response"@ || text_of(val, "type"@) == "interrupt"@) ==> (r.forward
            matches Some(m) && m.client() == client) && r.reply is None,
        !(text_of(val, "type"@) == "start_turn"@ || text_of(val, "type"@) == "reply"@ || text_of(
            val,
            "type"@,
        ) == "approval_response"@ || text_of(val, "type"@) == "interrupt"@) ==> r.forward is None
            && (r.reply matches Some(j) && is_text(j.field("type"@), "error"@) && is_text(
            j.field("error"@),
            "Unknown message type: "@ + text_of(val, "type"@),
        )),
{
    lemma_text_of(val, "type"@, ""@);
}

/// The browser tells events apart by their `type`: `ready`, `turn_started`,
/// `item_started`, `delta`, `item_completed`, `approval_request`,
/// `turn_completed`, `error` and `disconnected`.
pub proof fn lemma_browser_json_is_tagged(m: FromCodexMessage, j: JsonValue)
    requires
        browser_json(m, j),
    ensures
        is_text(
            j.field("type"@),
            match m {
                FromCodexMessage::Ready => "ready"@,
                FromCodexMessage::TurnStarted { .. } => "turn_started"@,
                FromCodexMessage::ItemStarted { .. } => "item_started"@,
                FromCodexMessage::Delta { .. } => "delta"@,
                FromCodexMessage::ItemCompleted { .. } => "item_completed"@,
                FromCodexMessage::ApprovalRequest { .. } => "approval_request"@,
                FromCodexMessage::TurnCompleted { .. } => "turn_completed"@,
                FromCodexMessage::Error { .. } => "error"@,
                FromCodexMessage::Disconnected => "disconnected"@,
            },
        ),
{
}

/// New threads ask for approval on request, and carry the working directory
/// and model only when they were given.
pub proof fn lemma_thread_start_params_fields(
    p: JsonValue,
    cwd: Option<Seq<char>>,
    model: Option<Seq<char>>,
)
    requires
        crate::protocol::is_thread_start_params(p, cwd, model),
    ensures
        is_text(p.field("approvalPolicy"@), "on-request"@),
        match cwd {
            Some(c) => is_text(p.field("cwd"@), c),
            None => p.field("cwd"@) is None,
        },
        match model {
            Some(m) => is_text(p.field("model"@), m),
            None => p.field("model"@) is None,
        },
{
}

/// The user agent reported after the handshake is the `userAgent` string of
/// the answer's `result`, or `"unknown"` when there is none.
pub proof fn lemma_init_user_agent(resp: JsonValue)
    ensures
        crate::protocol::init_user_agent(resp) == match resp.field("result"@) {
            Some(r) => match r.field("userAgent"@) {
                Some(JsonValue::Str(s)) => s@,
                _ => "unknown"@,
            },
            None => "unknown"@,
        },
{
}

} // verus!
