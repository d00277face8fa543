use plexus_core::name_map::NameMap;
use plexus_core::plexus::bidirectional::{
    bidir_error_message, clear_all, delivery_result, is_request_pending, pending_count,
    take_for_delivery,
    register_pending_request, unregister_pending_request, BidirError, PendingRegistry,
    SelectOption, TimeoutConfig,
};
use serde_json::Value;
use std::time::Duration;
use tokio::sync::oneshot;

// TimeoutConfig

#[test]
fn bidirectional_unit_test_timeout_config_quick() {
    let config = TimeoutConfig::quick();
    assert_eq!(config.confirm, Duration::from_secs(10));
    assert_eq!(config.prompt, Duration::from_secs(10));
    assert_eq!(config.select, Duration::from_secs(10));
    assert_eq!(config.custom, Duration::from_secs(10));
}

#[test]
fn bidirectional_unit_test_timeout_config_normal() {
    let config = TimeoutConfig::normal();
    assert_eq!(config.confirm, Duration::from_secs(30));
    assert_eq!(config.prompt, Duration::from_secs(30));
    assert_eq!(config.select, Duration::from_secs(30));
    assert_eq!(config.custom, Duration::from_secs(30));
}

#[test]
fn bidirectional_unit_test_timeout_config_patient() {
    let config = TimeoutConfig::patient();
    assert_eq!(config.confirm, Duration::from_secs(60));
    assert_eq!(config.prompt, Duration::from_secs(60));
    assert_eq!(config.select, Duration::from_secs(60));
    assert_eq!(config.custom, Duration::from_secs(60));
}

#[test]
fn bidirectional_unit_test_timeout_config_extended() {
    let config = TimeoutConfig::extended();
    assert_eq!(config.confirm, Duration::from_secs(300));
    assert_eq!(config.prompt, Duration::from_secs(300));
    assert_eq!(config.select, Duration::from_secs(300));
    assert_eq!(config.custom, Duration::from_secs(300));
}

#[test]
fn bidirectional_unit_test_timeout_config_default() {
    let config = TimeoutConfig::default();
    assert_eq!(config.confirm, Duration::from_secs(30));
}

// Error messages

#[test]
fn test_bidir_error_messages() {
    assert_eq!(
        bidir_error_message(&BidirError::NotSupported),
        "Bidirectional communication not supported by this transport"
    );
    assert_eq!(
        bidir_error_message(&BidirError::Timeout(5000)),
        "Request timed out waiting for response (after 5000ms)"
    );
    assert_eq!(bidir_error_message(&BidirError::Cancelled), "Request was cancelled by user");
    assert_eq!(
        bidir_error_message(&BidirError::TypeMismatch {
            expected: "Confirmed".into(),
            got: "Text".into()
        }),
        "Type mismatch: expected Confirmed, got Text"
    );
    assert_eq!(
        bidir_error_message(&BidirError::Serialization("parse error".into())),
        "Serialization error: parse error"
    );
    assert_eq!(
        bidir_error_message(&BidirError::Transport("connection lost".into())),
        "Transport error: connection lost"
    );
    assert_eq!(
        bidir_error_message(&BidirError::UnknownRequest),
        "Unknown request ID (may have already been handled)"
    );
    assert_eq!(
        bidir_error_message(&BidirError::ChannelClosed),
        "Response channel closed before response received"
    );
}

#[test]
fn bidirectional_unit_test_bidir_error_display() {
    assert_eq!(
        BidirError::NotSupported.to_string(),
        "Bidirectional communication not supported by this transport"
    );
    assert_eq!(BidirError::Timeout(30000).to_string(), "Request timed out after 30000ms");
    assert_eq!(BidirError::Cancelled.to_string(), "Request was cancelled by client");
    assert_eq!(
        BidirError::TypeMismatch { expected: "A".into(), got: "B".into() }.to_string(),
        "Type mismatch: expected A, got B"
    );
    assert_eq!(BidirError::Serialization("error".into()).to_string(), "Serialization error: error");
    assert_eq!(BidirError::Transport("failed".into()).to_string(), "Transport error: failed");
    assert_eq!(BidirError::UnknownRequest.to_string(), "Unknown request ID");
    assert_eq!(BidirError::ChannelClosed.to_string(), "Response channel closed");
}

#[test]
fn test_bidir_error_clone() {
    let err = BidirError::Timeout(5000);
    let cloned = err.clone();
    assert!(matches!(cloned, BidirError::Timeout(5000)));
}

// SelectOption

#[test]
fn test_select_option_new() {
    let opt = SelectOption::new(Value::from("value"), "Label".to_string());
    assert_eq!(opt.value, Value::String("value".into()));
    assert_eq!(opt.label, "Label");
    assert!(opt.description.is_none());
}

#[test]
fn test_select_option_with_description() {
    let opt = SelectOption::new(Value::from("key"), "Display".to_string())
        .with_description("A helpful description".to_string());
    assert_eq!(opt.value, Value::String("key".into()));
    assert_eq!(opt.label, "Display");
    assert_eq!(opt.description, Some("A helpful description".into()));
}

// Pending registry

/// Hand `response` to the request pending under `id`, as the server does:
/// take it out of the registry, send, and report the delivery.
fn handle_pending_response(
    registry: &mut PendingRegistry<oneshot::Sender<Value>>,
    id: &str,
    response: Value,
) -> Result<(), BidirError> {
    let (tx, value) = take_for_delivery(registry, id, response)?;
    delivery_result(tx.send(value).is_ok())
}

#[test]
fn test_registry_register_and_handle() {
    let mut registry: PendingRegistry<oneshot::Sender<Value>> = NameMap::new();
    let (tx, mut rx) = oneshot::channel();
    let request_id = "test-1".to_string();
    register_pending_request(&mut registry, request_id.clone(), tx);
    assert!(is_request_pending(&registry, &request_id));

    let mut status = serde_json::Map::new();
    status.insert("status".to_string(), Value::String("ok".to_string()));
    let response = Value::Object(status);
    handle_pending_response(&mut registry, &request_id, response.clone()).unwrap();
    assert_eq!(rx.try_recv().unwrap(), response);
    assert!(!is_request_pending(&registry, &request_id));
}

#[test]
fn test_registry_unknown_request() {
    let mut registry: PendingRegistry<oneshot::Sender<Value>> = NameMap::new();
    let result = handle_pending_response(&mut registry, "unknown-request-id", Value::Object(serde_json::Map::new()));
    assert!(matches!(result, Err(BidirError::UnknownRequest)));
}

#[test]
fn test_registry_unregister() {
    let mut registry: PendingRegistry<oneshot::Sender<Value>> = NameMap::new();
    let (tx, _rx) = oneshot::channel();
    register_pending_request(&mut registry, "test-unregister-1".to_string(), tx);
    assert!(is_request_pending(&registry, "test-unregister-1"));
    let removed = unregister_pending_request(&mut registry, "test-unregister-1");
    assert!(removed.is_some());
    assert!(!is_request_pending(&registry, "test-unregister-1"));
    assert!(unregister_pending_request(&mut registry, "test-unregister-1").is_none());
}

#[test]
fn test_registry_channel_closed() {
    let mut registry: PendingRegistry<oneshot::Sender<Value>> = NameMap::new();
    let (tx, rx) = oneshot::channel::<Value>();
    register_pending_request(&mut registry, "test-closed-1".to_string(), tx);
    drop(rx);
    let result = handle_pending_response(&mut registry, "test-closed-1", Value::Object(serde_json::Map::new()));
    assert!(matches!(result, Err(BidirError::ChannelClosed)));
    assert!(!is_request_pending(&registry, "test-closed-1"));
}

#[test]
fn test_registry_pending_count() {
    let mut registry: PendingRegistry<oneshot::Sender<Value>> = NameMap::new();
    assert_eq!(pending_count(&registry), 0);
    let (tx1, _rx1) = oneshot::channel();
    let (tx2, _rx2) = oneshot::channel();
    register_pending_request(&mut registry, "count-test-1".to_string(), tx1);
    assert_eq!(pending_count(&registry), 1);
    register_pending_request(&mut registry, "count-test-2".to_string(), tx2);
    assert_eq!(pending_count(&registry), 2);
    unregister_pending_request(&mut registry, "count-test-1");
    assert_eq!(pending_count(&registry), 1);
    clear_all(&mut registry);
    assert_eq!(pending_count(&registry), 0);
}

#[test]
fn registry_second_response_is_unknown() {
    let mut registry: PendingRegistry<oneshot::Sender<Value>> = NameMap::new();
    let (tx, _rx) = oneshot::channel();
    register_pending_request(&mut registry, "once".to_string(), tx);
    assert!(handle_pending_response(&mut registry, "once", Value::Bool(true)).is_ok());
    assert!(matches!(
        handle_pending_response(&mut registry, "once", Value::Bool(true)),
        Err(BidirError::UnknownRequest)
    ));
}

#[test]
fn registry_reregistration_replaces_sender() {
    let mut registry: PendingRegistry<oneshot::Sender<Value>> = NameMap::new();
    let (tx1, mut rx1) = oneshot::channel();
    let (tx2, mut rx2) = oneshot::channel();
    register_pending_request(&mut registry, "same".to_string(), tx1);
    register_pending_request(&mut registry, "same".to_string(), tx2);
    assert_eq!(pending_count(&registry), 1);
    handle_pending_response(&mut registry, "same", Value::from(7)).unwrap();
    assert_eq!(rx2.try_recv().unwrap(), Value::from(7));
    assert!(rx1.try_recv().is_err());
}

#[test]
fn taking_for_delivery_hands_over_the_registered_sender_and_the_response() {
    let mut registry: PendingRegistry<oneshot::Sender<Value>> = NameMap::new();
    let (tx, mut rx) = oneshot::channel();
    register_pending_request(&mut registry, "req-1".to_string(), tx);
    let (sender, value) = take_for_delivery(&mut registry, "req-1", Value::from("data")).unwrap();
    assert_eq!(value, Value::from("data"));
    assert!(!is_request_pending(&registry, "req-1"));
    sender.send(value).unwrap();
    assert_eq!(rx.try_recv().unwrap(), Value::from("data"));
    assert!(matches!(
        take_for_delivery(&mut registry, "req-1", Value::Null),
        Err(BidirError::UnknownRequest)
    ));
    assert!(delivery_result(true).is_ok());
    assert!(matches!(delivery_result(false), Err(BidirError::ChannelClosed)));
}

#[test]
fn ten_fresh_registrations_count_ten_and_handling_restores_the_count() {
    let mut registry: PendingRegistry<oneshot::Sender<Value>> = NameMap::new();
    let c0 = pending_count(&registry);
    let mut receivers = Vec::new();
    for i in 0..10 {
        let (tx, rx) = oneshot::channel();
        register_pending_request(&mut registry, format!("id-{i}"), tx);
        receivers.push(rx);
    }
    assert_eq!(pending_count(&registry), c0 + 10);
    for i in 0..10 {
        handle_pending_response(&mut registry, &format!("id-{i}"), Value::from(i)).unwrap();
    }
    assert_eq!(pending_count(&registry), c0);
    for (i, mut rx) in receivers.into_iter().enumerate() {
        assert_eq!(rx.try_recv().unwrap(), Value::from(i));
    }
}
