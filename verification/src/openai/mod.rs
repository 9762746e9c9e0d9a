//! Frames of a streamed reply in the plain chat completion format.

use vstd::prelude::*;

verus! {

/// One frame of a streamed reply.
#[derive(Debug, Clone, PartialEq, Eq)]
pub struct ChatCompletion {
    pub choices: Vec<ChatChoice>,
}

/// One choice of a frame.
#[derive(Debug, Clone, PartialEq, Eq)]
pub struct ChatChoice {
    pub delta: ChatDelta,
}

/// Why a reply ended.
#[derive(Debug, Clone, Copy, PartialEq, Eq, Structural)]
pub enum FinishReason {
    Stop,
    Length,
    ContentFilter,
    ToolUse,
    FunctionCall,
}

/// The increment a choice carries.
#[derive(Debug, Clone, PartialEq, Eq)]
pub enum ChatDelta {
    Text { content: String },
    Finished { finish_reason: String },
    Refusal { refusal: String },
}

} // verus!
