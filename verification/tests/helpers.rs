use plexus_core::plexus::bidirectional::{bidir_error_message, BidirError, TimeoutConfig};
use std::time::Duration;

#[test]
fn helpers_test_timeout_config_quick() {
    let config = TimeoutConfig::quick();
    assert_eq!(config.confirm, Duration::from_secs(10));
    assert_eq!(config.prompt, Duration::from_secs(10));
}

#[test]
fn helpers_test_timeout_config_normal() {
    let config = TimeoutConfig::normal();
    assert_eq!(config.confirm, Duration::from_secs(30));
}

#[test]
fn helpers_test_timeout_config_patient() {
    let config = TimeoutConfig::patient();
    assert_eq!(config.confirm, Duration::from_secs(60));
}

#[test]
fn helpers_test_timeout_config_extended() {
    let config = TimeoutConfig::extended();
    assert_eq!(config.confirm, Duration::from_secs(300));
}

#[test]
fn helpers_test_timeout_config_default() {
    let config = TimeoutConfig::default();
    assert_eq!(config.confirm, Duration::from_secs(30));
}

#[test]
fn test_bidir_error_message() {
    assert_eq!(
        bidir_error_message(&BidirError::NotSupported),
        "Bidirectional communication not supported by this transport"
    );
    assert_eq!(
        bidir_error_message(&BidirError::Timeout(30000)),
        "Request timed out waiting for response (after 30000ms)"
    );
    assert_eq!(bidir_error_message(&BidirError::Cancelled), "Request was cancelled by user");
    assert_eq!(
        bidir_error_message(&BidirError::TypeMismatch {
            expected: "String".into(),
            got: "Integer".into()
        }),
        "Type mismatch: expected String, got Integer"
    );
}

#[test]
fn types_test_bidir_error_display() {
    let err = BidirError::Timeout(30000);
    assert_eq!(err.to_string(), "Request timed out after 30000ms");

    let err = BidirError::TypeMismatch { expected: "Confirmed".into(), got: "Text".into() };
    assert_eq!(err.to_string(), "Type mismatch: expected Confirmed, got Text");
}

#[test]
fn timeout_message_renders_zero_and_large_numbers() {
    assert_eq!(BidirError::Timeout(0).to_string(), "Request timed out after 0ms");
    assert_eq!(
        BidirError::Timeout(u64::MAX).to_string(),
        "Request timed out after 18446744073709551615ms"
    );
    assert_eq!(
        bidir_error_message(&BidirError::Timeout(7)),
        "Request timed out waiting for response (after 7ms)"
    );
}
