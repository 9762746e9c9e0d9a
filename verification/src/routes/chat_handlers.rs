//! Records of the chat session routes.

use vstd::prelude::*;

use crate::text::concat;

verus! {

/// One message of a chat session.
#[derive(Debug, Clone, PartialEq, Eq)]
pub struct Message {
    pub id: String,
    pub content: String,
    pub role: String,
    pub timestamp: Option<String>,
}

/// A chat session in a list of sessions.
#[derive(Debug, Clone, PartialEq, Eq)]
pub struct ChatSession {
    pub id: String,
    pub title: String,
    pub last_updated_at: Option<String>,
}

/// A chat session with its messages.
#[derive(Debug, Clone, PartialEq, Eq)]
pub struct ChatSessionWithMessages {
    pub id: String,
    pub title: String,
    pub messages: Vec<Message>,
}

/// The request that sends a message to a session.
#[derive(Debug, Clone, PartialEq, Eq)]
pub struct SendMessagePayload {
    pub session_id: Option<String>,
    pub message: String,
}

/// Why a message could not be sent.
#[derive(Debug, Clone, PartialEq, Eq)]
pub enum ChatSendError {
    /// The session id is no number; the text says why.
    ValidationError(String),
}

impl ChatSendError {
    /// What the error says: that the request is not valid, and why.
    pub fn to_string(&self) -> (text: String)
        ensures
            match *self {
                ChatSendError::ValidationError(why) => text@ == "Validation error: "@ + why@,
            },
    {
        match self {
            ChatSendError::ValidationError(why) => concat("Validation error: ", why.as_str()),
        }
    }
}

} // verus!
