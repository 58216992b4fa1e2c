use claude_scope::attrmap::AttrMap;
use claude_scope::flatten::{
    parse_claude_code_event, parse_claude_code_metric, AttrPair, HistogramPoint, MetricData,
    NumberPoint, PointValue, WireLogRecord, WireMetric,
};
use claude_scope::ingest::{process_logs_export, process_metrics_export, WireResourceLogs, WireResourceMetrics, WireScopeLogs, WireScopeMetrics};
use claude_scope::rawvalue::RawValue;
use claude_scope::value::MetricValue;

fn resource_with_session() -> AttrMap {
    let mut m = AttrMap::new();
    m.insert("session.id".to_string(), "s-1".to_string());
    m
}

#[test]
fn histogram_count_only_yields_one_derived_record() {
    let metric = WireMetric {
        name: "claude_code.latency".to_string(),
        data: Some(MetricData::Histogram(vec![HistogramPoint {
            attributes: vec![],
            time_unix_nano: 1_000_000_000,
            count: 5,
            sum: None,
        }])),
    };
    let recs = parse_claude_code_metric(&metric, &AttrMap::new()).unwrap();
    assert_eq!(recs.len(), 1);
    assert_eq!(recs[0].name, "claude_code.latency_count");
    assert_eq!(recs[0].value.micros, 5_000_000);
}

#[test]
fn histogram_sum_only_yields_one_derived_record() {
    let metric = WireMetric {
        name: "claude_code.latency".to_string(),
        data: Some(MetricData::Histogram(vec![HistogramPoint {
            attributes: vec![],
            time_unix_nano: 1_000_000_000,
            count: 0,
            sum: Some(MetricValue::from_micros(12_500_000)),
        }])),
    };
    let recs = parse_claude_code_metric(&metric, &AttrMap::new()).unwrap();
    assert_eq!(recs.len(), 1);
    assert_eq!(recs[0].name, "claude_code.latency_sum");
    assert_eq!(recs[0].value.micros, 12_500_000);
}

#[test]
fn histogram_count_and_sum_yield_both_derived_records() {
    let metric = WireMetric {
        name: "claude_code.latency".to_string(),
        data: Some(MetricData::Histogram(vec![HistogramPoint {
            attributes: vec![],
            time_unix_nano: 1_000_000_000,
            count: 5,
            sum: Some(MetricValue::from_micros(12_500_000)),
        }])),
    };
    let recs = parse_claude_code_metric(&metric, &AttrMap::new()).unwrap();
    assert_eq!(recs.len(), 2);
    assert_eq!(recs[0].name, "claude_code.latency_count");
    assert_eq!(recs[0].value.micros, 5_000_000);
    assert_eq!(recs[1].name, "claude_code.latency_sum");
    assert_eq!(recs[1].value.micros, 12_500_000);
}

#[test]
fn unsupported_shape_is_rejected_per_metric() {
    let metric = WireMetric {
        name: "claude_code.weird".to_string(),
        data: Some(MetricData::Unsupported),
    };
    let err = parse_claude_code_metric(&metric, &AttrMap::new()).unwrap_err();
    assert_eq!(err, "Unsupported metric data type for claude_code.weird");
}

#[test]
fn gauge_points_flatten_with_merged_labels_and_session() {
    let resource = resource_with_session();
    let metric = WireMetric {
        name: "claude_code.token.usage".to_string(),
        data: Some(MetricData::Gauge(vec![NumberPoint {
            attributes: vec![AttrPair {
                key: "type".to_string(),
                value: Some(RawValue::Str("input".to_string())),
            }],
            time_unix_nano: 1_700_000_000_000_000_000,
            value: Some(PointValue::Int(100)),
        }])),
    };
    let recs = parse_claude_code_metric(&metric, &resource).unwrap();
    assert_eq!(recs.len(), 1);
    assert_eq!(recs[0].name, "claude_code.token.usage");
    assert_eq!(recs[0].value.micros, 100_000_000);
    assert_eq!(recs[0].timestamp.secs, 1_700_000_000);
    assert_eq!(recs[0].labels.get("type"), Some(&"input".to_string()));
    assert_eq!(recs[0].labels.get("session.id"), Some(&"s-1".to_string()));
    assert_eq!(recs[0].session_id, Some("s-1".to_string()));
}

#[test]
fn sum_point_without_value_defaults_to_zero() {
    let metric = WireMetric {
        name: "claude_code.cost.usage".to_string(),
        data: Some(MetricData::Sum(vec![NumberPoint {
            attributes: vec![],
            time_unix_nano: 1,
            value: None,
        }])),
    };
    let recs = parse_claude_code_metric(&metric, &AttrMap::new()).unwrap();
    assert_eq!(recs.len(), 1);
    assert_eq!(recs[0].value.micros, 0);
}

#[test]
fn metric_without_data_yields_nothing() {
    let metric = WireMetric { name: "claude_code.x".to_string(), data: None };
    let recs = parse_claude_code_metric(&metric, &AttrMap::new()).unwrap();
    assert!(recs.is_empty());
}

#[test]
fn event_name_comes_from_body() {
    let log = WireLogRecord {
        time_unix_nano: 2_000_000_000,
        attributes: vec![],
        body: Some(Some(RawValue::Str("tool_result".to_string()))),
    };
    let ev = parse_claude_code_event(&log, &resource_with_session()).unwrap();
    assert_eq!(ev.event_type, "tool_result");
    assert_eq!(ev.timestamp.secs, 2);
    assert_eq!(ev.session_id, Some("s-1".to_string()));
}

#[test]
fn event_name_falls_back_to_attributes_then_unknown() {
    let log = WireLogRecord {
        time_unix_nano: 1,
        attributes: vec![AttrPair {
            key: "event.name".to_string(),
            value: Some(RawValue::Str("api_request".to_string())),
        }],
        body: None,
    };
    let ev = parse_claude_code_event(&log, &AttrMap::new()).unwrap();
    assert_eq!(ev.event_type, "api_request");

    let bare = WireLogRecord { time_unix_nano: 1, attributes: vec![], body: None };
    let ev2 = parse_claude_code_event(&bare, &AttrMap::new()).unwrap();
    assert_eq!(ev2.event_type, "unknown_event");

    let valueless_body = WireLogRecord { time_unix_nano: 1, attributes: vec![], body: Some(None) };
    let ev3 = parse_claude_code_event(&valueless_body, &AttrMap::new()).unwrap();
    assert_eq!(ev3.event_type, "unknown_event");
}

#[test]
fn metrics_export_processes_whole_batch_and_isolates_failures() {
    let batch = vec![WireResourceMetrics {
        resource_attrs: vec![AttrPair {
            key: "session.id".to_string(),
            value: Some(RawValue::Str("550e8400-e29b-41d4-a716-446655440000".to_string())),
        }],
        scope_metrics: vec![WireScopeMetrics {
            metrics: vec![
                WireMetric {
                    name: "claude_code.commit.count".to_string(),
                    data: Some(MetricData::Sum(vec![NumberPoint {
                        attributes: vec![],
                        time_unix_nano: 1_000_000_000,
                        value: Some(PointValue::Int(3)),
                    }])),
                },
                WireMetric {
                    name: "claude_code.broken".to_string(),
                    data: Some(MetricData::Unsupported),
                },
                WireMetric {
                    name: "claude_code.cost.usage".to_string(),
                    data: Some(MetricData::Gauge(vec![NumberPoint {
                        attributes: vec![],
                        time_unix_nano: 1_000_000_000,
                        value: Some(PointValue::Double(MetricValue::from_micros(250_000))),
                    }])),
                },
            ],
        }],
    }];
    let (records, failures) = process_metrics_export(&batch);
    assert_eq!(records.len(), 2);
    assert_eq!(records[0].name, "claude_code.commit.count");
    assert_eq!(records[0].value.micros, 3_000_000);
    assert_eq!(
        records[0].session_id,
        Some(0x550e8400e29b41d4a716446655440000u128)
    );
    assert_eq!(records[1].name, "claude_code.cost.usage");
    assert_eq!(records[1].value.micros, 250_000);
    assert_eq!(failures, vec!["Unsupported metric data type for claude_code.broken".to_string()]);
}

#[test]
fn logs_export_builds_one_row_per_record() {
    let batch = vec![WireResourceLogs {
        resource_attrs: vec![],
        scope_logs: vec![WireScopeLogs {
            log_records: vec![
                WireLogRecord {
                    time_unix_nano: 3_000_000_000,
                    attributes: vec![],
                    body: Some(Some(RawValue::Str("user_prompt_submitted".to_string()))),
                },
                WireLogRecord {
                    time_unix_nano: 4_000_000_000,
                    attributes: vec![],
                    body: Some(Some(RawValue::Str("api_request".to_string()))),
                },
            ],
        }],
    }];
    let records = process_logs_export(&batch);
    assert_eq!(records.len(), 2);
    assert_eq!(records[0].level, "INFO");
    assert_eq!(records[0].message, "user_prompt_submitted");
    assert_eq!(records[0].timestamp.secs, 3);
    assert_eq!(records[0].session_id, None);
    assert_eq!(records[1].message, "api_request");
}
