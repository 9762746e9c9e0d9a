use api::routes::message::cancel::{
    cancel_message, cancel_response, CancelMessageError, CancelMessageRequest,
    CancelMessageResponse,
};
use api::state::CancellationRegistry;

#[test]
fn register_then_cancel_hands_back_the_signal() {
    let mut registry: CancellationRegistry<u32> = CancellationRegistry::new();
    assert_eq!(registry.len(), 0);
    assert_eq!(registry.register("t1".to_string(), 1), None);
    assert_eq!(registry.register("t2".to_string(), 2), None);
    assert!(registry.contains("t1"));
    assert!(!registry.contains("t3"));
    assert_eq!(registry.len(), 2);
    assert_eq!(registry.cancel("t1"), Some(1));
    assert!(!registry.contains("t1"));
    assert!(registry.contains("t2"));
    assert_eq!(registry.cancel("t1"), None);
    assert_eq!(registry.len(), 1);
}

#[test]
fn last_registration_wins() {
    let mut registry: CancellationRegistry<&'static str> = CancellationRegistry::new();
    registry.register("t".to_string(), "first");
    registry.register("other".to_string(), "x");
    assert_eq!(registry.register("t".to_string(), "second"), Some("first"));
    assert_eq!(registry.len(), 2);
    assert_eq!(registry.cancel("t"), Some("second"));
    assert_eq!(registry.cancel("t"), None);
    assert_eq!(registry.cancel("other"), Some("x"));
}

#[test]
fn unregister_is_idempotent() {
    let mut registry: CancellationRegistry<u8> = CancellationRegistry::new();
    registry.register("a".to_string(), 1);
    registry.register("b".to_string(), 2);
    registry.unregister("a");
    assert_eq!(registry.len(), 1);
    registry.unregister("a");
    registry.unregister("never");
    assert_eq!(registry.len(), 1);
    assert!(registry.contains("b"));
    assert!(!registry.contains("a"));
}

#[test]
fn cancel_request_takes_the_entry_of_its_thread() {
    let mut registry: CancellationRegistry<u8> = CancellationRegistry::new();
    registry.register("thread".to_string(), 9);
    let request = CancelMessageRequest { thread_id: "thread".to_string() };
    assert_eq!(cancel_message(&mut registry, &request), Some(9));
    assert_eq!(cancel_message(&mut registry, &request), None);
    assert_eq!(registry.len(), 0);
}

#[test]
fn cancel_answers() {
    assert_eq!(cancel_response(None), Ok(CancelMessageResponse { success: false }));
    assert_eq!(cancel_response(Some(true)), Ok(CancelMessageResponse { success: true }));
    assert_eq!(cancel_response(Some(false)), Ok(CancelMessageResponse { success: false }));
    assert_eq!(CancelMessageError::FailedToCancel.status_code(), 500);
    assert_eq!(CancelMessageError::Unexpected("x".to_string()).status_code(), 500);
}
