use plexus_core::plexus::debug::{
    error_test_items, error_test_plan, metadata_test_items, protocol_test_items,
    debug_metadata, stream_test_plan, stream_test_steps, DebugItem, DebugStep, DebugValue,
};

fn text<'a>(content: &'a [(String, DebugValue)], key: &str) -> &'a str {
    for (k, v) in content {
        if k == key {
            if let DebugValue::Text(s) = v {
                return s.as_str();
            }
        }
    }
    panic!("no text member {key}");
}

fn number(content: &[(String, DebugValue)], key: &str) -> u64 {
    for (k, v) in content {
        if k == key {
            if let DebugValue::Number(n) = v {
                return *n;
            }
        }
    }
    panic!("no number member {key}");
}

fn data(step: &DebugItem) -> (&str, &[(String, DebugValue)]) {
    match step {
        DebugItem::Data { content_type, content } => (content_type.as_str(), content.as_slice()),
        other => panic!("expected data, got {other:?}"),
    }
}

fn ends_with_single_done(items: &[DebugItem]) {
    assert!(matches!(items.last(), Some(DebugItem::Done)));
    assert_eq!(items.iter().filter(|i| matches!(i, DebugItem::Done)).count(), 1);
}

fn items_of(steps: &[DebugStep]) -> Vec<DebugItem> {
    steps.iter().map(|s| s.item.clone()).collect()
}

#[test]
fn protocol_test_emits_every_kind_in_order() {
    let items = protocol_test_items();
    assert_eq!(items.len(), 4);
    let (ct, content) = data(&items[0]);
    assert_eq!(ct, "_debug.protocol_test");
    assert_eq!(text(content, "message"), "First test data item");
    assert_eq!(number(content, "sequence"), 1);
    assert_eq!(text(content, "test_field"), "validation_data");
    match &items[1] {
        DebugItem::Progress { message, percentage } => {
            assert_eq!(message, "Processing test sequence");
            assert_eq!(*percentage, 50);
        }
        other => panic!("expected progress, got {other:?}"),
    }
    let (_, content) = data(&items[2]);
    assert_eq!(text(content, "message"), "Second test data item");
    assert_eq!(number(content, "sequence"), 2);
    assert_eq!(text(content, "test_field"), "validation_complete");
    ends_with_single_done(&items);
}

#[test]
fn stream_test_slow_delays_grow() {
    let steps = stream_test_steps("slow");
    assert_eq!(steps.len(), 6);
    for (i, step) in steps[..5].iter().enumerate() {
        let i = i as u64;
        assert_eq!(step.delay_ms, 100 + 20 * i);
        let (ct, content) = data(&step.item);
        assert_eq!(ct, "_debug.stream_test");
        assert_eq!(text(content, "scenario"), "slow");
        assert_eq!(number(content, "item"), i + 1);
        assert_eq!(number(content, "total"), 5);
        assert_eq!(number(content, "delay_ms"), 100 + 20 * i);
    }
    assert_eq!(steps[5].delay_ms, 0);
    ends_with_single_done(&items_of(&steps));
}

#[test]
fn stream_test_large_payload() {
    let steps = stream_test_steps("large");
    assert_eq!(steps.len(), 4);
    let expected: String = (0..625).map(|i| format!("data_chunk_{:04}_", i)).collect();
    for (i, step) in steps[..3].iter().enumerate() {
        let (_, content) = data(&step.item);
        assert_eq!(text(content, "scenario"), "large");
        assert_eq!(number(content, "item"), i as u64 + 1);
        assert_eq!(number(content, "total"), 3);
        assert_eq!(text(content, "payload"), expected);
        assert_eq!(number(content, "size_bytes"), expected.len() as u64);
        assert_eq!(number(content, "size_bytes"), 10000);
    }
    ends_with_single_done(&items_of(&steps));
}

#[test]
fn stream_test_many_items() {
    let steps = stream_test_steps("many");
    assert_eq!(steps.len(), 101);
    let (_, content) = data(&steps[99].item);
    assert_eq!(number(content, "item"), 100);
    assert_eq!(number(content, "total"), 100);
    assert!(steps[..100].iter().all(|s| s.delay_ms == 1));
    ends_with_single_done(&items_of(&steps));
}

#[test]
fn stream_test_progress_percentages() {
    let steps = stream_test_steps("progress");
    assert_eq!(steps.len(), 6);
    for (i, step) in steps[..5].iter().enumerate() {
        assert_eq!(step.delay_ms, 50);
        match &step.item {
            DebugItem::Progress { message, percentage } => {
                assert_eq!(message, &format!("Processing step {} of 5", i + 1));
                assert_eq!(*percentage, 25 * i as u64);
            }
            other => panic!("expected progress, got {other:?}"),
        }
    }
    ends_with_single_done(&items_of(&steps));
}

#[test]
fn stream_test_unknown_scenario_is_an_error() {
    let steps = stream_test_steps("bogus");
    assert_eq!(steps.len(), 2);
    match &steps[0].item {
        DebugItem::Error { message, code, recoverable } => {
            assert_eq!(
                message,
                "Unknown scenario: 'bogus'. Valid scenarios: slow, large, many, progress"
            );
            assert_eq!(code, "invalid_scenario");
            assert!(!recoverable);
        }
        other => panic!("expected error, got {other:?}"),
    }
    ends_with_single_done(&items_of(&steps));
}

#[test]
fn stream_test_reads_scenario_parameter() {
    let mut params = serde_json::Map::new();
    params.insert("scenario".to_string(), serde_json::Value::String("many".to_string()));
    let steps = stream_test_plan(&serde_json::Value::Object(params));
    assert_eq!(steps.len(), 101);
    let defaulted = stream_test_plan(&serde_json::Value::Object(serde_json::Map::new()));
    assert_eq!(defaulted.len(), 6);
    assert_eq!(defaulted[0].delay_ms, 100);
    let mut not_text = serde_json::Map::new();
    not_text.insert("scenario".to_string(), serde_json::Value::from(7));
    let defaulted = stream_test_plan(&serde_json::Value::Object(not_text));
    assert_eq!(defaulted.len(), 6);
    let mut progress = serde_json::Map::new();
    progress.insert("scenario".to_string(), serde_json::Value::String("progress".to_string()));
    let steps = stream_test_plan(&serde_json::Value::Object(progress));
    assert!(matches!(&steps[4].item, DebugItem::Progress { percentage: 100, .. }));
}

#[test]
fn debug_items_carry_debug_provenance() {
    let m = debug_metadata("hash".to_string());
    assert_eq!(m.provenance, vec!["_debug".to_string()]);
    assert_eq!(m.plexus_hash, "hash");
    assert!(m.timestamp > 1_600_000_000);
}

#[test]
fn error_test_scenarios() {
    let immediate = error_test_items("immediate");
    assert_eq!(immediate.len(), 2);
    match &immediate[0] {
        DebugItem::Error { message, code, recoverable } => {
            assert_eq!(message, "Immediate test error - error sent before any data");
            assert_eq!(code, "test_error");
            assert!(!recoverable);
        }
        other => panic!("expected error, got {other:?}"),
    }
    ends_with_single_done(&immediate);

    let after = error_test_items("after_data");
    assert_eq!(after.len(), 5);
    let (ct, content) = data(&after[2]);
    assert_eq!(ct, "_debug.error_test");
    assert_eq!(text(content, "message"), "Third data item");
    assert_eq!(number(content, "sequence"), 3);
    assert!(matches!(&after[3], DebugItem::Error { code, recoverable: false, .. } if code == "simulated_failure"));
    ends_with_single_done(&after);

    let recoverable = error_test_items("recoverable");
    assert_eq!(recoverable.len(), 5);
    assert!(matches!(&recoverable[1], DebugItem::Error { code, recoverable: true, .. } if code == "recoverable_error"));
    let (_, content) = data(&recoverable[2]);
    assert_eq!(text(content, "message"), "Data after error - stream recovered");
    ends_with_single_done(&recoverable);
}

#[test]
fn error_test_unknown_type_and_default() {
    let items = error_test_items("weird");
    match &items[0] {
        DebugItem::Error { message, code, .. } => {
            assert_eq!(
                message,
                "Unknown error_type: 'weird'. Valid types: immediate, after_data, recoverable"
            );
            assert_eq!(code, "invalid_error_type");
        }
        other => panic!("expected error, got {other:?}"),
    }
    let defaulted = error_test_plan(&serde_json::Value::Null);
    assert!(matches!(&defaulted[0], DebugItem::Error { code, .. } if code == "test_error"));
    let mut named = serde_json::Map::new();
    named.insert("error_type".to_string(), serde_json::Value::String("recoverable".to_string()));
    let items = error_test_plan(&serde_json::Value::Object(named));
    assert_eq!(items.len(), 5);
}

#[test]
fn metadata_test_edge_cases() {
    let items = metadata_test_items();
    assert_eq!(items.len(), 6);
    assert_eq!(items[0].0.provenance, vec!["_debug".to_string()]);
    assert_eq!(items[0].0.plexus_hash, "0123456789abcdef");
    assert_eq!(items[0].0.timestamp, 1609459200);
    assert_eq!(items[2].0.provenance.len(), 6);
    assert_eq!(items[3].0.provenance, vec!["parent", "child", "grandchild"]);
    let (ct, content) = data(&items[3].1);
    assert_eq!(ct, "_debug.metadata_test");
    assert_eq!(text(content, "test"), "parent_child_grandchild");
    assert_eq!(items[5].0.plexus_hash, "0000000000000000");
    assert!(matches!(items[5].1, DebugItem::Done));
    for (m, _) in &items {
        assert_eq!(m.plexus_hash.len(), 16);
        assert!(m.plexus_hash.chars().all(|c| c.is_ascii_hexdigit()));
    }
}
