//! I/O-free domain models.

use vstd::prelude::*;
use crate::error::{DomainError, DomainResult};
use crate::text::{all_ws, is_blank, owned};

verus! {

/// Identifier for a [`Chat`]. Never blank when built with [`ChatId::new`].
#[derive(Debug, Clone, PartialEq, Eq, Hash)]
pub struct ChatId(pub String);

impl ChatId {
    /// Construct a validated `ChatId`.
    ///
    /// Rejects an empty or whitespace-only identifier with
    /// [`DomainError::Invalid`]; otherwise keeps the identifier as given
    /// (surrounding whitespace included).
    pub fn new(id: &str) -> (r: DomainResult<ChatId>)
        ensures
            r is Err <==> all_ws(id@),
            r matches Ok(c) ==> c.0@ == id@,
            r matches Err(e) ==> e matches DomainError::Invalid(m) && m@
                == "chat id must not be empty"@,
    {
        if is_blank(id) {
            return Err(DomainError::Invalid(owned("chat id must not be empty")));
        }
        Ok(ChatId(owned(id)))
    }

    /// Borrow the underlying identifier string.
    pub fn as_str(&self) -> (r: &str)
        ensures
            r@ == self.0@,
    {
        self.0.as_str()
    }
}

/// An instant in UTC: whole seconds since the Unix epoch and the nanoseconds
/// within that second.
#[derive(Debug, Clone, Copy, PartialEq, Eq)]
pub struct Timestamp {
    pub secs: i64,
    pub nanos: u32,
}

/// A chat conversation.
#[derive(Debug, Clone)]
pub struct Chat {
    pub id: ChatId,
    pub name: String,
    pub is_group: bool,
    pub last_message: Option<MessagePreview>,
}

/// Short preview of the most recent message in a chat.
#[derive(Debug, Clone)]
pub struct MessagePreview {
    pub sender: String,
    pub timestamp: Option<Timestamp>,
    pub text: String,
}

/// A message within a chat.
#[derive(Debug, Clone)]
pub struct Message {
    pub sender: String,
    pub timestamp: Option<Timestamp>,
    pub content: String,
}

/// A user/identity.
#[derive(Debug, Clone)]
pub struct User {
    pub id: String,
    pub display_name: String,
    pub email: Option<String>,
}

/// Presence/availability state.
#[derive(Debug, Clone, PartialEq, Eq)]
pub enum Presence {
    Available,
    Busy,
    Away,
    DoNotDisturb,
    Offline,
    Custom(String),
}

/// Result of successfully sending a message.
#[derive(Debug, Clone)]
pub struct SentMessage {
    pub id: String,
    pub chat_id: ChatId,
    pub timestamp: Option<Timestamp>,
}

/// A team the user belongs to.
#[derive(Debug, Clone)]
pub struct Team {
    pub id: String,
    pub display_name: String,
    pub description: Option<String>,
}

/// An event delivered over the realtime channel.
#[derive(Debug, Clone)]
pub enum RealtimeEvent {
    MessageReceived { chat_id: ChatId, message: Message },
    PresenceChanged { user_id: String, presence: Presence },
    CallInfo(String),
    Unknown(String),
}

} // verus!
