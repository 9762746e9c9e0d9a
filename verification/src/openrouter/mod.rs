//! The completion provider: its records, the decoding of its stream and the
//! synthesis of thread titles.

pub mod completions;
pub mod title;
pub mod types;

use vstd::prelude::*;

use crate::text::{concat, debug_optional, nat_text, optional_debug, u64_to_string};

verus! {

/// The value of the authorization header for the key `api_key`.
pub open spec fn bearer(api_key: Seq<char>) -> Seq<char> {
    "Bearer "@ + api_key
}

/// The value of the authorization header of a client that calls the
/// provider with the key `api_key`.
pub fn authorization_header(api_key: &str) -> (authorization: String)
    ensures
        authorization@ == bearer(api_key@),
{
    let mut authorization = "Bearer ".to_owned();
    authorization.append(api_key);
    authorization
}

/// Path of the model catalogue, relative to its base.
pub const MODELS_PATH: &'static str = "models";

/// Whether a status is a success: from 200 to 299.
pub open spec fn is_success(status: u16) -> bool {
    200 <= status <= 299
}

/// Why a call of the completion provider failed.
#[derive(Debug, PartialEq, Eq)]
pub enum OpenrouterError {
    /// The request could not be built.
    BuildRequest(String),
    /// The request could not be sent.
    Request(String),
    /// The provider answered with a status outside 200 to 299; the body is
    /// kept where it could be read.
    NotOk(u16, Option<String>),
    /// The body of the answer was malformed.
    Parse(String),
}

/// The canonical reason of a status, where it has one: the result of
/// `StatusCode::canonical_reason`. A number that is no status has none.
pub uninterp spec fn status_reason(status: u16) -> Option<Seq<char>>;

/// `reqwest::StatusCode::canonical_reason` for the status with the number
/// `status`; nothing where `StatusCode::from_u16` refuses the number.
#[verifier::external_body]
fn canonical_reason(status: u16) -> (reason: Option<String>)
    ensures
        reason is Some <==> status_reason(status) is Some,
        reason matches Some(text) ==> status_reason(status) == Some(text@),
{
    reqwest::StatusCode::from_u16(status).ok()?.canonical_reason().map(str::to_owned)
}

/// A status as text: its number and its canonical reason, or a note that
/// the status is not known.
pub open spec fn status_text(status: u16) -> Seq<char> {
    nat_text(status as nat) + " "@ + (match status_reason(status) {
        Some(reason) => reason,
        None => "<unknown status code>"@,
    })
}

/// What an error of the provider says.
pub open spec fn openrouter_error_message(error: OpenrouterError) -> Seq<char> {
    match error {
        OpenrouterError::BuildRequest(text) => "failed to build request: "@ + text@,
        OpenrouterError::Request(text) => "failed to send request: "@ + text@,
        OpenrouterError::NotOk(status, body) => "response not ok ("@ + status_text(status)
            + "): "@ + optional_debug(body),
        OpenrouterError::Parse(text) => "failed to parse response: "@ + text@,
    }
}

impl OpenrouterError {
    /// What the error says.
    pub fn to_string(&self) -> (text: String)
        ensures
            text@ == openrouter_error_message(*self),
    {
        match self {
            OpenrouterError::BuildRequest(text) => concat("failed to build request: ", text.as_str()),
            OpenrouterError::Request(text) => concat("failed to send request: ", text.as_str()),
            OpenrouterError::NotOk(status, body) => {
                let mut text = "response not ok (".to_owned();
                text.append(u64_to_string(*status as u64).as_str());
                text.append(" ");
                match canonical_reason(*status) {
                    Some(reason) => text.append(reason.as_str()),
                    None => text.append("<unknown status code>"),
                }
                text.append("): ");
                text.append(debug_optional(body).as_str());
                text
            },
            OpenrouterError::Parse(text) => concat("failed to parse response: ", text.as_str()),
        }
    }
}

/// What the status of an answer says: nothing for a success, else the error
/// that holds the status and the body, where the body could be read.
pub fn check_status(status: u16, body: Option<String>) -> (checked: Result<(), OpenrouterError>)
    ensures
        if is_success(status) {
            checked is Ok
        } else {
            checked == Err::<(), OpenrouterError>(OpenrouterError::NotOk(status, body))
        },
{
    if 200 <= status && status <= 299 {
        Ok(())
    } else {
        Err(OpenrouterError::NotOk(status, body))
    }
}

} // verus!
