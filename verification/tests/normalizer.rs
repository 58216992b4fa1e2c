use claude_scope::attrmap::AttrMap;
use claude_scope::rawvalue::{normalize_value, normalize_opt, RawValue};

#[test]
fn normalizes_scalars() {
    assert_eq!(normalize_value(&RawValue::Str("hello".to_string())), "hello");
    assert_eq!(normalize_value(&RawValue::Int64(42)), "42");
    assert_eq!(normalize_value(&RawValue::Int64(-7)), "-7");
    assert_eq!(normalize_value(&RawValue::Int64(0)), "0");
    assert_eq!(normalize_value(&RawValue::Int64(i64::MIN)), "-9223372036854775808");
    assert_eq!(normalize_value(&RawValue::Bool(true)), "true");
    assert_eq!(normalize_value(&RawValue::Bool(false)), "false");
    assert_eq!(normalize_value(&RawValue::DoubleText("3.25".to_string())), "3.25");
}

#[test]
fn normalizes_valid_utf8_bytes() {
    assert_eq!(
        normalize_value(&RawValue::ByteSequence(b"hello".to_vec())),
        "hello"
    );
}

#[test]
fn normalizes_invalid_utf8_bytes_without_failing() {
    let out = normalize_value(&RawValue::ByteSequence(vec![0xff, 0xfe, b'a']));
    assert_eq!(out, "\u{FFFD}\u{FFFD}a");
}

#[test]
fn normalizes_arrays_with_null_for_absent_elements() {
    let v = RawValue::Array(vec![
        Some(RawValue::Int64(1)),
        None,
        Some(RawValue::Str("x".to_string())),
    ]);
    assert_eq!(normalize_value(&v), "[1, null, x]");
}

#[test]
fn normalizes_key_value_lists_in_input_order() {
    let v = RawValue::KvList(vec![
        ("b".to_string(), Some(RawValue::Int64(2))),
        ("a".to_string(), None),
    ]);
    assert_eq!(normalize_value(&v), "{\"b\":\"2\", \"a\":\"null\"}");
}

#[test]
fn normalizes_nested_composites() {
    let inner = RawValue::Array(vec![Some(RawValue::Bool(false))]);
    let v = RawValue::KvList(vec![("k".to_string(), Some(inner))]);
    assert_eq!(normalize_value(&v), "{\"k\":\"[false]\"}");
    assert_eq!(normalize_opt(&None), "null");
}

#[test]
fn attribute_merge_point_wins() {
    let mut resource = AttrMap::new();
    resource.insert("env".to_string(), "prod".to_string());
    let mut point = AttrMap::new();
    point.insert("env".to_string(), "dev".to_string());
    point.insert("k".to_string(), "v".to_string());

    let merged = resource.merged_with(&point);
    assert_eq!(merged.len(), 2);
    assert_eq!(merged.get("env"), Some(&"dev".to_string()));
    assert_eq!(merged.get("k"), Some(&"v".to_string()));
}

#[test]
fn attribute_map_last_write_wins() {
    let mut m = AttrMap::new();
    m.insert("k".to_string(), "one".to_string());
    m.insert("k".to_string(), "two".to_string());
    assert_eq!(m.len(), 1);
    assert_eq!(m.get("k"), Some(&"two".to_string()));
    assert_eq!(m.get("missing"), None);
    assert!(m.contains_key("k"));
    assert!(!m.contains_key("missing"));
}
