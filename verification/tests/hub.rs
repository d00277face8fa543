use plexus_core::plexus::child_router::{
    capability_method_names, child_not_found, split_child_method, ChildCapabilities,
};
use plexus_core::plexus::hub_context::NoParent;
use plexus_core::plexus::method_list::qualified_method_names;
use plexus_core::plexus::plexus::{
    parse_method, plexus_error_code, plugin_id, uuid_string, HubRouting, PlexusError,
    PluginRegistry, RouteTarget, TransportErrorKind,
};

#[test]
fn no_parent_is_invalid() {
    let ctx = NoParent;
    assert!(!ctx.is_valid());
}

#[test]
fn no_parent_resolve_fails() {
    let ctx = NoParent;
    assert!(matches!(ctx.resolve_handle_error(), PlexusError::ExecutionError(_)));
    assert_eq!(
        ctx.call_error("echo.say").to_string(),
        "Execution error: No parent context available to route call: echo.say"
    );
}

#[test]
fn plugin_registry_basic_operations() {
    let mut registry = PluginRegistry::new();
    let id = uuid::Uuid::new_v4().as_u128();
    registry.register(id, "test_plugin".to_string(), "test".to_string());
    assert_eq!(registry.lookup(id), Some("test_plugin"));
    assert_eq!(registry.lookup_by_path("test_plugin"), Some(id));
    let entry = registry.get(id).expect("should have entry");
    assert_eq!(entry.path, "test_plugin");
    assert_eq!(entry.plugin_type, "test");
}

#[test]
fn plugin_registry_deterministic_uuid() {
    let id1 = plugin_id("health", "1.0.0");
    let id2 = plugin_id("health", "1.0.0");
    assert_eq!(id1, id2);
    let expected = uuid::Uuid::new_v5(&uuid::Uuid::NAMESPACE_OID, b"health@1").as_u128();
    assert_eq!(id1, expected);
    assert_eq!(plugin_id("health", "1.4.2"), expected);
    assert_ne!(plugin_id("health", "2.0.0"), expected);
    assert_ne!(plugin_id("echo", "1.0.0"), expected);
    let unversioned = uuid::Uuid::new_v5(&uuid::Uuid::NAMESPACE_OID, b"x@7").as_u128();
    assert_eq!(plugin_id("x", "7"), unversioned);
}

#[test]
fn plugin_registry_snapshot_and_reregistration() {
    let mut registry = PluginRegistry::new();
    assert!(registry.is_empty());
    registry.register(1, "a".to_string(), "a".to_string());
    registry.register(2, "b".to_string(), "b".to_string());
    let snap = registry.snapshot();
    registry.register(1, "c".to_string(), "c".to_string());
    assert_eq!(registry.len(), 2);
    assert_eq!(registry.lookup(1), Some("c"));
    assert_eq!(registry.lookup_by_path("c"), Some(1));
    // the old path still leads to the ID, as the path index is never pruned
    assert_eq!(registry.lookup_by_path("a"), Some(1));
    assert_eq!(snap.lookup(1), Some("a"));
    assert_eq!(snap.lookup_by_path("c"), None);
    assert_eq!(snap.len(), 2);
    assert!(!snap.is_empty());
    assert_eq!(snap.get(2).unwrap().path, "b");
}

#[test]
fn uuid_text_matches_uuid_crate() {
    for v in [0u128, 1, u128::MAX, 0x0123_4567_89ab_cdef_fedc_ba98_7654_3210] {
        assert_eq!(uuid_string(v), uuid::Uuid::from_u128(v).to_string());
    }
    let id = uuid::Uuid::new_v5(&uuid::Uuid::NAMESPACE_OID, b"health@1");
    assert_eq!(uuid_string(id.as_u128()), id.to_string());
}

#[test]
fn parse_method_splits_at_first_dot() {
    let (ns, m) = parse_method("solar.mercury.info").unwrap();
    assert_eq!(ns, "solar");
    assert_eq!(m, "mercury.info");
    match parse_method("nodot") {
        Err(PlexusError::InvalidParams(msg)) => assert_eq!(msg, "Invalid method format: nodot"),
        other => panic!("unexpected {:?}", other),
    }
}

#[test]
fn hub_routing_decisions() {
    let mut hub = HubRouting::new("test".to_string());
    assert_eq!(hub.runtime_namespace(), "test");
    assert!(hub.shadows_root("test"));
    assert!(!hub.shadows_root("health"));
    hub.register("health".to_string(), 42);
    match hub.route("health.check").unwrap() {
        RouteTarget::Activation { namespace, method } => {
            assert_eq!(namespace, "health");
            assert_eq!(method, "check");
        }
        other => panic!("unexpected {:?}", other),
    }
    match hub.route("test.schema").unwrap() {
        RouteTarget::Hub { method } => assert_eq!(method, "schema"),
        other => panic!("unexpected {:?}", other),
    }
    match hub.route("echo.say") {
        Err(PlexusError::ActivationNotFound(ns)) => assert_eq!(ns, "echo"),
        other => panic!("unexpected {:?}", other),
    }
    assert!(matches!(hub.route("health"), Err(PlexusError::InvalidParams(_))));
    assert_eq!(hub.lookup_plugin(42), Some("health".to_string()));
    assert_eq!(hub.lookup_plugin_by_path("health"), Some(42));
    assert_eq!(hub.resolve_handle_target(42).unwrap(), "health");
    match hub.resolve_handle_target(7) {
        Err(PlexusError::ActivationNotFound(id)) => assert_eq!(id, uuid_string(7)),
        other => panic!("unexpected {:?}", other),
    }
    assert_eq!(
        hub.method_help_target("health.check"),
        Some(("health".to_string(), "check".to_string()))
    );
    assert_eq!(hub.method_help_target("echo.say"), None);
    assert_eq!(hub.registry_snapshot().lookup(42), Some("health"));
}

#[test]
fn plexus_error_text_and_codes() {
    let e = PlexusError::MethodNotFound { activation: "a".into(), method: "m".into() };
    assert_eq!(e.to_string(), "Method not found: a.m");
    assert_eq!(plexus_error_code(&e), -32601);
    assert_eq!(plexus_error_code(&PlexusError::ActivationNotFound("x".into())), -32601);
    assert_eq!(plexus_error_code(&PlexusError::InvalidParams("x".into())), -32602);
    assert_eq!(plexus_error_code(&PlexusError::Unauthenticated("x".into())), -32001);
    assert_eq!(plexus_error_code(&PlexusError::ExecutionError("x".into())), -32000);
    let t = PlexusError::TransportError(TransportErrorKind::ConnectionRefused {
        host: "localhost".into(),
        port: 8080,
    });
    assert_eq!(t.to_string(), "Connection refused to localhost:8080");
    assert_eq!(plexus_error_code(&t), -32000);
    assert_eq!(
        PlexusError::HandleNotSupported("health".into()).to_string(),
        "Handle resolution not supported by activation: health"
    );
    assert_eq!(
        TransportErrorKind::NetworkError { message: "down".into() }.to_string(),
        "Network error: down"
    );
}

#[test]
fn child_capabilities_register_methods() {
    let none = ChildCapabilities::empty();
    assert!(none.is_empty());
    assert!(capability_method_names("fixture", none).is_empty());
    let triple = |a: &str, b: &str, c: &str| (a.to_string(), b.to_string(), c.to_string());
    let list = ChildCapabilities::list();
    assert_eq!(
        capability_method_names("fixture", list),
        vec![triple("fixture.list_children", "result", "fixture.list_children_unsub")]
    );
    let search = ChildCapabilities::search();
    assert_eq!(
        capability_method_names("fixture", search),
        vec![triple("fixture.search_children", "result", "fixture.search_children_unsub")]
    );
    let both = ChildCapabilities::list().union(ChildCapabilities::search());
    assert_eq!(
        capability_method_names("fixture", both),
        vec![
            triple("fixture.list_children", "result", "fixture.list_children_unsub"),
            triple("fixture.search_children", "result", "fixture.search_children_unsub"),
        ]
    );
    assert!(both.contains(ChildCapabilities::search()));
    assert_eq!(both.bits(), 3);
}

#[test]
fn child_method_split() {
    assert_eq!(
        split_child_method("solar", "mercury.info").unwrap(),
        ("mercury".to_string(), "info".to_string())
    );
    match split_child_method("solar", "info") {
        Err(PlexusError::MethodNotFound { activation, method }) => {
            assert_eq!(activation, "solar");
            assert_eq!(method, "info");
        }
        other => panic!("unexpected {:?}", other),
    }
    assert_eq!(child_not_found("pluto").to_string(), "Activation not found: pluto");
}

#[test]
fn plugin_registry_lists_every_entry_once() {
    let mut registry = PluginRegistry::new();
    assert!(registry.list().is_empty());
    registry.register(1, "echo".to_string(), "echo".to_string());
    registry.register(2, "health".to_string(), "health".to_string());
    registry.register(1, "echo2".to_string(), "echo".to_string());
    let mut listed: Vec<(u128, String)> =
        registry.list().iter().map(|e| (e.id, e.path.clone())).collect();
    listed.sort();
    assert_eq!(listed, vec![(1, "echo2".to_string()), (2, "health".to_string())]);
    let snapshot = registry.snapshot();
    assert_eq!(snapshot.list().len(), 2);
}

/// The methods a hub answers itself.
fn hub_methods() -> Vec<String> {
    vec!["call".to_string(), "hash".to_string(), "schema".to_string()]
}

#[test]
fn dynamic_hub_non_colliding_registration_unaffected() {
    let mut hub = HubRouting::new("health_hub".to_string());
    assert!(!hub.shadows_root("health"));
    hub.register("health".to_string(), plugin_id("health", "1.0.0"));
    assert_eq!(hub.runtime_namespace(), "health_hub");
    assert_eq!(hub.lookup_plugin_by_path("health"), Some(plugin_id("health", "1.0.0")));
    match hub.route("health.check").unwrap() {
        RouteTarget::Activation { namespace, method } => {
            assert_eq!(namespace, "health");
            assert_eq!(method, "check");
        }
        other => panic!("unexpected {:?}", other),
    }
    let groups = vec![
        ("health_hub".to_string(), hub_methods()),
        ("health".to_string(), vec!["check".to_string()]),
    ];
    assert!(qualified_method_names(&groups).iter().any(|m| m.starts_with("health.")));
}

#[test]
fn invariant_handle_plugin_id_determines_routing() {
    let health = plugin_id("health", "1.0.0");
    let echo = plugin_id("echo", "1.0.0");
    assert_ne!(health, echo);
    let mut hub = HubRouting::new("test".to_string());
    hub.register("health".to_string(), health);
    hub.register("echo".to_string(), echo);
    assert_eq!(hub.resolve_handle_target(health).unwrap(), "health");
    assert_eq!(hub.resolve_handle_target(echo).unwrap(), "echo");
}

#[test]
fn plugin_registry_populated_on_register() {
    let mut hub = HubRouting::new("test".to_string());
    hub.register("health".to_string(), plugin_id("health", "1.0.0"));
    let registry = hub.registry_snapshot();
    assert!(!registry.is_empty(), "registry should not be empty after registration");
    let health_id = registry.lookup_by_path("health");
    assert!(health_id.is_some(), "health should be registered by path");
    assert_eq!(registry.lookup(health_id.unwrap()), Some("health"));
}
