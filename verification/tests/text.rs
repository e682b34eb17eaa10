use vsm_rs::error::{FrameworkError, VsmError};
use vsm_rs::protocol::address::SubsystemRole;
use vsm_rs::text::{concat3, join_all, less_text, u64_text};

#[test]
fn decimal_rendering() {
    assert_eq!(u64_text(0), "0");
    assert_eq!(u64_text(7), "7");
    assert_eq!(u64_text(10), "10");
    assert_eq!(u64_text(1234567890), "1234567890");
    assert_eq!(u64_text(u64::MAX), u64::MAX.to_string());
}

#[test]
fn debug_text_quotes_and_escapes() {
    assert_eq!(SubsystemRole::Custom("a".to_string()).label(), "Custom(\"a\")");
    assert_eq!(SubsystemRole::Custom("a\"b".to_string()).label(), "Custom(\"a\\\"b\")");
}

#[test]
fn joining_and_concatenation() {
    assert_eq!(join_all(&["a".to_string(), "b".to_string(), "c".to_string()], "/"), "a/b/c");
    assert_eq!(join_all(&[], "/"), "");
    assert_eq!(concat3("x", "-", "y"), "x-y");
}

#[test]
fn text_order_is_lexicographic() {
    assert!(less_text("a", "b"));
    assert!(less_text("a", "ab"));
    assert!(!less_text("ab", "a"));
    assert!(!less_text("a", "a"));
    assert!(less_text("", "a"));
    assert_eq!(less_text("B", "a"), "B" < "a");
}

#[test]
fn framework_error_messages() {
    assert_eq!(FrameworkError::Cancelled.message(), "operation cancelled");
    assert_eq!(FrameworkError::Shutdown.message(), "runtime shutting down");
    assert_eq!(FrameworkError::Unavailable { target: "x".to_string() }.message(), "target unavailable: x");
    assert_eq!(
        FrameworkError::SnapshotIncompatible { key: "k".to_string(), reason: "r".to_string() }.message(),
        "incompatible snapshot k: r"
    );
}

#[test]
fn facade_error_messages() {
    assert_eq!(VsmError::NotFound("x".to_string()).message(), "not found: x");
    assert_eq!(VsmError::Validation("bad".to_string()).message(), "validation failed: bad");
    assert_eq!(VsmError::Serialization("s".to_string()).message(), "serialization error: s");
}
