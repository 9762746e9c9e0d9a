use api::convex::ConvexError;
use api::convex_serde::{DeError, SerError};
use api::error::{db_error, DatabaseError};
use api::openrouter::OpenrouterError;
use api::routes::chat::create::CreateChatError;
use api::routes::message::cancel::CancelMessageError;
use api::routes::message::create::{ChatEvent, ClientFrame, CreateMessageError, StreamChatError};

#[test]
fn database_error_reads_as_its_text() {
    assert_eq!(DatabaseError::ValidationError("title too long".to_string()).to_string(), "title too long");
    assert_eq!(DatabaseError::UnexpectedError("connection reset".to_string()).to_string(), "connection reset");
}

#[test]
fn wrapped_error_keeps_its_text() {
    let wrapped = db_error("connection reset".to_string());
    assert_eq!(wrapped, DatabaseError::UnexpectedError("connection reset".to_string()));
    assert_eq!(wrapped.to_string(), "connection reset");
    assert_eq!(db_error(String::new()).to_string(), "");
}

#[test]
fn convex_error_texts() {
    assert_eq!(ConvexError::Unexpected("boom".to_string()).to_string(), "unexpected error: boom");
    assert_eq!(ConvexError::Query("no such function".to_string()).to_string(), "query error: no such function");
    assert_eq!(ConvexError::Message("not allowed".to_string()).to_string(), "query error: not allowed");
    assert_eq!(
        ConvexError::Deserialization(DeError::ExpectedValue).to_string(),
        "deserialization error: expected value for map access"
    );
    assert_eq!(
        ConvexError::Serialization(SerError::IntOutOfRange(u64::MAX)).to_string(),
        "serialization error: cannot serialize u64 values outside of i64 range: 18446744073709551615"
    );
}

#[test]
fn openrouter_error_texts() {
    assert_eq!(
        OpenrouterError::BuildRequest("bad header".to_string()).to_string(),
        "failed to build request: bad header"
    );
    assert_eq!(
        OpenrouterError::Request("timed out".to_string()).to_string(),
        "failed to send request: timed out"
    );
    assert_eq!(
        OpenrouterError::Parse("missing field".to_string()).to_string(),
        "failed to parse response: missing field"
    );
}

#[test]
fn status_with_its_reason() {
    assert_eq!(
        OpenrouterError::NotOk(404, Some("no \"such\" model\n".to_string())).to_string(),
        "response not ok (404 Not Found): Some(\"no \\\"such\\\" model\\n\")"
    );
    assert_eq!(
        OpenrouterError::NotOk(429, None).to_string(),
        "response not ok (429 Too Many Requests): None"
    );
    assert_eq!(
        OpenrouterError::NotOk(500, Some(String::new())).to_string(),
        "response not ok (500 Internal Server Error): Some(\"\")"
    );
}

#[test]
fn status_without_a_reason() {
    assert_eq!(
        OpenrouterError::NotOk(599, None).to_string(),
        "response not ok (599 <unknown status code>): None"
    );
    assert_eq!(
        OpenrouterError::NotOk(42, None).to_string(),
        "response not ok (42 <unknown status code>): None"
    );
}

#[test]
fn create_message_error_texts() {
    assert_eq!(CreateMessageError::MessageNotFound.to_string(), "message not found");
    assert_eq!(CreateMessageError::ThreadNotFound.to_string(), "thread not found");
    assert_eq!(
        CreateMessageError::ResponseMessageNotPending.to_string(),
        "response message not pending"
    );
    assert_eq!(CreateMessageError::Unexpected("x".to_string()).to_string(), "unexpected error: x");
    assert_eq!(
        CreateMessageError::Serialization(SerError::Custom("odd".to_string())).to_string(),
        "serialization error: odd"
    );
    assert_eq!(
        CreateMessageError::Convex(ConvexError::Query("down".to_string())).to_string(),
        "failed to get response message: query error: down"
    );
    assert_eq!(CreateMessageError::NoModelSpecified.to_string(), "no model specified");
}

#[test]
fn stream_error_texts() {
    assert_eq!(StreamChatError::Unexpected("x".to_string()).to_string(), "unexpected error: x");
    assert_eq!(
        StreamChatError::OpenrouterError(OpenrouterError::NotOk(401, None)).to_string(),
        "openrouter client error: response not ok (401 Unauthorized): None"
    );
    assert_eq!(
        StreamChatError::ConvexError(ConvexError::Unexpected("gone".to_string())).to_string(),
        "convex error: unexpected error: gone"
    );
    assert_eq!(
        StreamChatError::OpenRouter("closed".to_string()).to_string(),
        "failed to create OpenRouter stream: closed"
    );
    assert_eq!(StreamChatError::AppendText.to_string(), "failed to append text to message");
    assert_eq!(StreamChatError::CompleteMessage.to_string(), "failed to complete message");
    assert_eq!(StreamChatError::SetThreadTitle.to_string(), "failed to set thread title");
    assert_eq!(
        StreamChatError::AppendAnnotations.to_string(),
        "failed to append annotations to message"
    );
}

#[test]
fn cancel_error_texts() {
    assert_eq!(CancelMessageError::FailedToCancel.to_string(), "failed to send cancel signal");
    assert_eq!(CancelMessageError::Unexpected("x".to_string()).to_string(), "unexpected error: x");
    assert_eq!(
        CancelMessageError::Serialization(SerError::Custom("odd".to_string())).to_string(),
        "serialization error: odd"
    );
}

#[test]
fn create_chat_error_texts() {
    assert_eq!(CreateChatError::UnexpectedError("x".to_string()).to_string(), "unexpected error: x");
    assert_eq!(
        CreateChatError::GetResponseMessageError("y".to_string()).to_string(),
        "failed to get response message: y"
    );
}

#[test]
fn frame_for_an_event_and_for_a_closed_channel() {
    let frame = ClientFrame::next(Some(ChatEvent::Text("hi".to_string())));
    assert_eq!(frame.name(), "message");
    assert_eq!(frame.into_data(), Some("0:hi".to_string()));
    let frame = ClientFrame::next(Some(ChatEvent::Cancelled));
    assert_eq!(frame.name(), "message");
    assert_eq!(frame.into_data(), Some("4:".to_string()));
    let last = ClientFrame::next(None);
    assert_eq!(last, ClientFrame::End);
    assert_eq!(last.name(), "end");
    assert_eq!(last.into_data(), None);
}
