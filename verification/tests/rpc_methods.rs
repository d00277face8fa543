use plexus_core::plexus::method_list::{qualified_method_names, text_less};
use plexus_core::plexus::plexus::HubRouting;
use plexus_core::name_map::NameMap;
use plexus_core::plexus::bidirectional::{
    delivery_result, register_pending_request, take_for_delivery, BidirError, PendingRegistry,
};
use plexus_core::plexus::rpc_methods::{
    find_schema_method, hub_subscription_methods, respond_method_name, respond_outcome,
    INVALID_PARAMS, SERVER_ERROR,
};
use plexus_core::plexus::types::unix_timestamp;
use serde_json::Value;
use tokio::sync::oneshot;

#[test]
fn hub_registers_namespaced_subscriptions() {
    let methods = hub_subscription_methods("plexus");
    let expected = [
        ("plexus.call", "plexus.call_unsub"),
        ("plexus.hash", "plexus.hash_unsub"),
        ("plexus.schema", "plexus.schema_unsub"),
        ("_info", "_info_unsub"),
    ];
    assert_eq!(methods.len(), expected.len());
    for ((m, n, u), (em, eu)) in methods.iter().zip(expected.iter()) {
        assert_eq!(m, em);
        assert_eq!(n, "result");
        assert_eq!(u, eu);
    }
}

#[test]
fn schema_method_lookup() {
    let methods = vec!["call".to_string(), "hash".to_string(), "schema".to_string()];
    assert_eq!(find_schema_method(&methods, "hash"), Ok(1));
    assert_eq!(
        find_schema_method(&methods, "missing"),
        Err((-32602, "Method 'missing' not found".to_string()))
    );
    assert_eq!(INVALID_PARAMS, -32602);
}

#[test]
fn listed_methods_are_qualified_and_sorted() {
    let groups = vec![
        ("hub".to_string(), vec!["schema".to_string(), "call".to_string(), "hash".to_string()]),
        ("echo".to_string(), vec!["once".to_string(), "echo".to_string()]),
        ("health".to_string(), vec!["check".to_string()]),
    ];
    let names = qualified_method_names(&groups);
    let mut expected: Vec<String> = Vec::new();
    for (ns, ms) in &groups {
        for m in ms {
            expected.push(format!("{}.{}", ns, m));
        }
    }
    expected.sort();
    assert_eq!(names, expected);
    assert_eq!(names[0], "echo.echo");
}

#[test]
fn text_order_matches_str_order() {
    let words = ["", "a", "ab", "b", "B", "é", "health", "health_hub", "health.check"];
    for a in words {
        for b in words {
            assert_eq!(text_less(a, b), a < b, "{a:?} < {b:?}");
        }
    }
}

#[test]
fn shadow_message_names_collision_and_fix() {
    let hub = HubRouting::new("health".to_string());
    assert!(hub.shadows_root("health"));
    assert!(!hub.shadows_root("health_hub"));
    let msg = hub.shadow_message("health");
    assert!(msg.contains("activation namespace 'health' collides with the hub root namespace 'health'"));
    assert!(msg.contains("'health'"));
    assert!(msg.contains("hub root namespace"));
    assert!(msg.contains("rename the hub root"));
    assert!(msg.contains("Z2H-8"));
    assert!(msg.contains("every 'health.<method>' call"));
    assert!(msg.contains("DynamicHub::new(\"health_hub\").register(...)"));
}

#[test]
fn respond_replies() {
    assert_eq!(respond_method_name("plexus"), "plexus.respond");
    assert_eq!(respond_outcome("r1", Ok(())), Ok(()));
    assert_eq!(
        respond_outcome("r1", Err(BidirError::UnknownRequest)),
        Err((-32602, "Unknown request ID: r1. The request may have timed out or been cancelled.".to_string()))
    );
    assert_eq!(
        respond_outcome("r1", Err(BidirError::ChannelClosed)),
        Err((-32000, "Response channel was closed (request may have timed out)".to_string()))
    );
    assert_eq!(
        respond_outcome("r1", Err(BidirError::Transport("down".into()))),
        Err((SERVER_ERROR, "Failed to deliver response: Transport error: down".to_string()))
    );
}

#[test]
fn respond_hands_the_response_over_once() {
    let mut registry: PendingRegistry<oneshot::Sender<Value>> = NameMap::new();
    let (tx, mut rx) = oneshot::channel();
    register_pending_request(&mut registry, "abc".to_string(), tx);
    let first = take_for_delivery(&mut registry, "abc", Value::Bool(true))
        .and_then(|(tx, v)| delivery_result(tx.send(v).is_ok()));
    assert_eq!(respond_outcome("abc", first), Ok(()));
    assert_eq!(rx.try_recv().unwrap(), Value::Bool(true));
    let again = take_for_delivery(&mut registry, "abc", Value::Bool(true)).map(|_| ());
    assert!(matches!(respond_outcome("abc", again), Err((code, _)) if code == INVALID_PARAMS));
}

#[test]
fn timestamps_of_clock_readings() {
    assert_eq!(unix_timestamp(Some(1_700_000_000), None), 1_700_000_000);
    assert_eq!(unix_timestamp(None, None), 0);
    assert_eq!(unix_timestamp(Some(u64::MAX), None), i64::MAX);
    assert_eq!(unix_timestamp(None, Some((5, 0))), -5);
    assert_eq!(unix_timestamp(None, Some((5, 1))), -6);
    assert_eq!(unix_timestamp(None, Some((u64::MAX, 0))), i64::MIN);
}
