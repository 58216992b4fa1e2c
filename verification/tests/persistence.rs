use claude_scope::attrmap::AttrMap;
use claude_scope::enhanced::EnhancedClaudeMetric;
use claude_scope::persist::{
    build_log_record, build_metric_record, chunk_records, count_write_failures, DatabaseError,
};
use claude_scope::flatten::ClaudeCodeEvent;
use claude_scope::time::Timestamp;
use claude_scope::value::MetricValue;

#[test]
fn chunking_250_records_gives_100_100_50() {
    let records: Vec<u64> = (0..250).collect();
    let chunks = chunk_records(records);
    assert_eq!(chunks.len(), 3);
    assert_eq!(chunks[0].len(), 100);
    assert_eq!(chunks[1].len(), 100);
    assert_eq!(chunks[2].len(), 50);
    assert_eq!(chunks[0][0], 0);
    assert_eq!(chunks[0][99], 99);
    assert_eq!(chunks[1][0], 100);
    assert_eq!(chunks[2][49], 249);
}

#[test]
fn chunking_edge_sizes() {
    assert_eq!(chunk_records(Vec::<u64>::new()).len(), 0);

    let one = chunk_records(vec![7u64]);
    assert_eq!(one.len(), 1);
    assert_eq!(one[0], vec![7u64]);

    let exact = chunk_records((0..200u64).collect::<Vec<_>>());
    assert_eq!(exact.len(), 2);
    assert_eq!(exact[0].len(), 100);
    assert_eq!(exact[1].len(), 100);

    let over = chunk_records((0..101u64).collect::<Vec<_>>());
    assert_eq!(over.len(), 2);
    assert_eq!(over[0].len(), 100);
    assert_eq!(over[1].len(), 1);
}

#[test]
fn write_failures_are_counted_not_hidden() {
    let outcomes: Vec<Result<(), DatabaseError>> = vec![
        Ok(()),
        Err(DatabaseError::Query("disk full".to_string())),
        Ok(()),
        Err(DatabaseError::NotFound),
        Err(DatabaseError::Connection("gone".to_string())),
    ];
    assert_eq!(count_write_failures(&outcomes), 3);
    assert_eq!(count_write_failures(&Vec::new()), 0);
    assert_eq!(count_write_failures(&vec![Ok(()), Ok(())]), 0);
}

fn enhanced_with_session(session: Option<String>) -> EnhancedClaudeMetric {
    let mut labels = AttrMap::new();
    if let Some(ref s) = session {
        labels.insert("session.id".to_string(), s.clone());
    }
    EnhancedClaudeMetric::from_basic_metric(
        "claude_code.commit.count".to_string(),
        MetricValue::from_units(1),
        Timestamp { secs: 1_700_000_000, nanos: 5 },
        labels,
    )
}

#[test]
fn metric_record_parses_session_identifier() {
    let m = enhanced_with_session(Some("550e8400-e29b-41d4-a716-446655440000".to_string()));
    let record = build_metric_record(&m);
    assert_eq!(record.session_id, Some(0x550e8400e29b41d4a716446655440000u128));
    assert_eq!(record.name, "claude_code.commit.count");
    assert_eq!(record.value.micros, 1_000_000);
    assert_eq!(record.timestamp.secs, 1_700_000_000);
}

#[test]
fn metric_record_drops_unparseable_session_identifier() {
    let m = enhanced_with_session(Some("not-a-uuid".to_string()));
    let record = build_metric_record(&m);
    assert_eq!(record.session_id, None);

    let none = enhanced_with_session(None);
    assert_eq!(build_metric_record(&none).session_id, None);
}

#[test]
fn record_identifiers_carry_version_and_variant_bits() {
    let m = enhanced_with_session(None);
    let a = build_metric_record(&m);
    let b = build_metric_record(&m);
    assert_eq!((a.id >> 76) & 0xF, 4);
    assert_eq!((a.id >> 62) & 0x3, 2);
    assert_eq!((b.id >> 76) & 0xF, 4);
    assert_ne!(a.id, b.id);
}

#[test]
fn log_record_carries_event_as_info_message() {
    let event = ClaudeCodeEvent {
        event_type: "tool_result".to_string(),
        timestamp: Timestamp { secs: 3, nanos: 0 },
        attributes: AttrMap::new(),
        session_id: Some("550e8400-e29b-41d4-a716-446655440000".to_string()),
    };
    let record = build_log_record(&event);
    assert_eq!(record.level, "INFO");
    assert_eq!(record.message, "tool_result");
    assert_eq!(record.session_id, Some(0x550e8400e29b41d4a716446655440000u128));
    assert_eq!(record.timestamp.secs, 3);
}
