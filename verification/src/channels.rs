//! The messages exchanged between browser connections and the Codex client.

use vstd::prelude::*;

use crate::json::JsonValue;

verus! {

/// Browser -> Codex direction. Each message names the browser connection it came from.
#[derive(Debug, Clone)]
pub enum ToCodexMessage {
    StartTurn { client_id: u64, prompt: String, cwd: Option<String>, model: Option<String> },
    Reply { client_id: u64, thread_id: String, prompt: String },
    ApprovalResponse { client_id: u64, request_id: JsonValue, decision: String },
    Interrupt { client_id: u64, thread_id: String, turn_id: String },
}

/// Codex -> Browser direction. Events of a thread name the browser connection that owns it.
#[derive(Debug, Clone)]
#[allow(inconsistent_fields)]
pub enum FromCodexMessage {
    Ready,
    TurnStarted { client_id: u64, thread_id: String, turn_id: String },
    ItemStarted {
        client_id: u64,
        thread_id: String,
        turn_id: String,
        item_id: String,
        item_type: String,
        item: JsonValue,
    },
    Delta {
        client_id: u64,
        thread_id: String,
        turn_id: String,
        item_id: String,
        delta_type: String,
        content: String,
    },
    ItemCompleted {
        client_id: u64,
        thread_id: String,
        turn_id: String,
        item_id: String,
        item_type: String,
        item: JsonValue,
    },
    ApprovalRequest {
        client_id: u64,
        thread_id: String,
        turn_id: String,
        item_id: String,
        request_id: JsonValue,
        method: String,
        detail: JsonValue,
    },
    TurnCompleted {
        client_id: u64,
        thread_id: String,
        turn_id: String,
        status: String,
        error: Option<JsonValue>,
    },
    Error { client_id: Option<u64>, error: String },
    Disconnected,
}

impl ToCodexMessage {
    /// The browser connection the message came from.
    pub open spec fn client(self) -> u64 {
        match self {
            ToCodexMessage::StartTurn { client_id, .. } => client_id,
            ToCodexMessage::Reply { client_id, .. } => client_id,
            ToCodexMessage::ApprovalResponse { client_id, .. } => client_id,
            ToCodexMessage::Interrupt { client_id, .. } => client_id,
        }
    }
}

impl FromCodexMessage {
    /// The browser connection the message is addressed to; `None` for one meant for all.
    pub open spec fn recipient(self) -> Option<u64> {
        match self {
            FromCodexMessage::Ready => None,
            FromCodexMessage::TurnStarted { client_id, .. } => Some(client_id),
            FromCodexMessage::ItemStarted { client_id, .. } => Some(client_id),
            FromCodexMessage::Delta { client_id, .. } => Some(client_id),
            FromCodexMessage::ItemCompleted { client_id, .. } => Some(client_id),
            FromCodexMessage::ApprovalRequest { client_id, .. } => Some(client_id),
            FromCodexMessage::TurnCompleted { client_id, .. } => Some(client_id),
            FromCodexMessage::Error { client_id, .. } => client_id,
            FromCodexMessage::Disconnected => None,
        }
    }

    /// The thread and turn the message belongs to, for messages of a turn.
    pub open spec fn turn_of(self) -> Option<(Seq<char>, Seq<char>)> {
        match self {
            FromCodexMessage::TurnStarted { thread_id, turn_id, .. } => Some((thread_id@, turn_id@)),
            FromCodexMessage::ItemStarted { thread_id, turn_id, .. } => Some((thread_id@, turn_id@)),
            FromCodexMessage::Delta { thread_id, turn_id, .. } => Some((thread_id@, turn_id@)),
            FromCodexMessage::ItemCompleted { thread_id, turn_id, .. } => Some(
                (thread_id@, turn_id@),
            ),
            FromCodexMessage::ApprovalRequest { thread_id, turn_id, .. } => Some(
                (thread_id@, turn_id@),
            ),
            FromCodexMessage::TurnCompleted { thread_id, turn_id, .. } => Some(
                (thread_id@, turn_id@),
            ),
            _ => None,
        }
    }

    /// Whether the browser connection `client_id` is to receive the message.
    pub open spec fn is_for(self, client_id: u64) -> bool {
        match self.recipient() {
            Some(c) => c == client_id,
            None => true,
        }
    }

    /// Whether the browser connection `client_id` is to receive the message.
    pub fn delivers_to(&self, client_id: u64) -> (r: bool)
        ensures
            r == self.is_for(client_id),
    {
        match self {
            FromCodexMessage::Ready => true,
            FromCodexMessage::TurnStarted { client_id: c, .. } => *c == client_id,
            FromCodexMessage::ItemStarted { client_id: c, .. } => *c == client_id,
            FromCodexMessage::Delta { client_id: c, .. } => *c == client_id,
            FromCodexMessage::ItemCompleted { client_id: c, .. } => *c == client_id,
            FromCodexMessage::ApprovalRequest { client_id: c, .. } => *c == client_id,
            FromCodexMessage::TurnCompleted { client_id: c, .. } => *c == client_id,
            FromCodexMessage::Error { client_id: c, .. } => match c {
                Some(c) => *c == client_id,
                None => true,
            },
            FromCodexMessage::Disconnected => true,
        }
    }
}

} // verus!
