use slave_pool::panic::{Panic, PanicPayload, DEFAULT_MESSAGE};
use slave_pool::JoinError;

#[test]
fn panic_text_of_static_payload() {
    let panic = Panic(PanicPayload::Static("Oh no!"));
    assert_eq!(panic.downcast_ref(), "Oh no!");
}

#[test]
fn panic_text_of_formatted_payload() {
    let panic = Panic(PanicPayload::Owned(format!("oh no: {}", 3)));
    assert_eq!(panic.downcast_ref(), "oh no: 3");
    assert!(matches!(panic.as_inner(), PanicPayload::Owned(text) if text == "oh no: 3"));
    match panic.into_inner() {
        PanicPayload::Owned(text) => assert_eq!(text, "oh no: 3"),
        _ => panic!("payload changed"),
    }
}

#[test]
fn panic_text_of_other_payload() {
    let panic = Panic(PanicPayload::Other);
    assert_eq!(panic.downcast_ref(), "panic occurred");
    assert_eq!(DEFAULT_MESSAGE, "panic occurred");
    assert!(matches!(panic.as_inner(), PanicPayload::Other));
}

#[test]
fn join_errors_compare() {
    assert_eq!(JoinError::Disconnect, JoinError::Disconnect);
    assert_ne!(JoinError::Timeout, JoinError::AlreadyConsumed);
    let copy = JoinError::Timeout;
    assert_eq!(copy, JoinError::Timeout);
}
