use std::fmt;
use websocket_builder::{CloseFrame, DisconnectReason};

#[test]
fn test_disconnect_reason_display() {
    let reason = DisconnectReason::Unknown;
    assert_eq!(format!("{reason:?}"), "Unknown");

    let reason = DisconnectReason::Error("test error".to_string());
    assert!(format!("{reason:?}").contains("test error"));

    let reason = DisconnectReason::Close(1000, "normal".to_string());
    assert!(format!("{reason:?}").contains("1000"));
    assert!(format!("{reason:?}").contains("normal"));

    let reason = DisconnectReason::Timeout("idle timeout".to_string());
    assert!(format!("{reason:?}").contains("idle timeout"));
}

#[test]
fn test_disconnect_reason_variants() {
    // Test Debug trait is implemented
    fn assert_debug<T: fmt::Debug>(_: &T) {}

    // Test that we can create different variants
    assert_debug(&DisconnectReason::Unknown);
    assert_debug(&DisconnectReason::Error("error".to_string()));
    assert_debug(&DisconnectReason::Close(1001, "going away".to_string()));
    assert_debug(&DisconnectReason::Timeout("max duration".to_string()));
}

#[test]
fn test_disconnect_reason_from_close_frame() {
    // Test with None
    let reason = DisconnectReason::from_close_frame(None);
    assert!(matches!(reason, DisconnectReason::Unknown));

    // Test with close frame
    let frame = CloseFrame {
        code: 1000,
        reason: "test".into(),
    };
    let reason = DisconnectReason::from_close_frame(Some(frame));
    assert!(matches!(reason, DisconnectReason::Close(1000, _)));
    match reason {
        DisconnectReason::Close(_, text) => assert_eq!(text, "test"),
        _ => unreachable!(),
    }
}
