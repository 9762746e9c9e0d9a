//! Cancelling the relay of a thread.

use vstd::prelude::*;

use crate::convex_serde::SerError;
use crate::state::CancellationRegistry;
use crate::text::concat;

verus! {

/// The request that cancels the relay of a thread.
#[derive(Debug, Clone, PartialEq, Eq)]
pub struct CancelMessageRequest {
    pub thread_id: String,
}

/// The answer to a cancel request: whether a relay was cancelled.
#[derive(Debug, Clone, Copy, PartialEq, Eq, Structural)]
pub struct CancelMessageResponse {
    pub success: bool,
}

/// Why a cancel request failed.
#[derive(Debug, PartialEq, Eq)]
pub enum CancelMessageError {
    /// The cancel signal could not be sent.
    FailedToCancel,
    Unexpected(String),
    Serialization(SerError),
}

/// What an error of a cancel request says.
pub open spec fn cancel_error_message(error: CancelMessageError) -> Seq<char> {
    match error {
        CancelMessageError::FailedToCancel => "failed to send cancel signal"@,
        CancelMessageError::Unexpected(text) => "unexpected error: "@ + text@,
        CancelMessageError::Serialization(e) => "serialization error: "@
            + crate::convex_serde::ser::error_message(e@),
    }
}

impl CancelMessageError {
    /// What the error says.
    pub fn to_string(&self) -> (text: String)
        ensures
            text@ == cancel_error_message(*self),
    {
        match self {
            CancelMessageError::FailedToCancel => "failed to send cancel signal".to_owned(),
            CancelMessageError::Unexpected(text) => concat("unexpected error: ", text.as_str()),
            CancelMessageError::Serialization(e) => concat(
                "serialization error: ",
                e.to_string().as_str(),
            ),
        }
    }

    /// The HTTP status that answers the request: always 500.
    pub fn status_code(&self) -> (status: u16)
        ensures
            status == 500,
    {
        500
    }
}

/// The answer to a cancel request, from what became of the signal: `None`
/// where the thread had no entry, else whether the signal was delivered.
/// The answer is a success exactly where an entry was there and its signal
/// was delivered.
pub open spec fn cancel_answer(delivery: Option<bool>) -> Result<
    CancelMessageResponse,
    CancelMessageError,
> {
    Ok(CancelMessageResponse { success: delivery == Some(true) })
}

/// Takes the entry of the request's thread out of the registry and hands
/// back its signal, for the caller to deliver; `None` where the thread is
/// unknown or has finished.
pub fn cancel_message<S>(
    registry: &mut CancellationRegistry<S>,
    payload: &CancelMessageRequest,
) -> (signal: Option<S>)
    ensures
        final(registry)@ == old(registry)@.remove(payload.thread_id@),
        signal == (if old(registry)@.dom().contains(payload.thread_id@) {
            Some(old(registry)@[payload.thread_id@])
        } else {
            None
        }),
{
    registry.cancel(payload.thread_id.as_str())
}

/// The answer to a cancel request: success where the thread had an entry and
/// its signal was delivered; no success where it had none, and none where
/// the signal could not be delivered because the relay had finished.
pub fn cancel_response(delivery: Option<bool>) -> (answer: Result<
    CancelMessageResponse,
    CancelMessageError,
>)
    ensures
        answer == cancel_answer(delivery),
{
    match delivery {
        Some(true) => Ok(CancelMessageResponse { success: true }),
        _ => Ok(CancelMessageResponse { success: false }),
    }
}

} // verus!
