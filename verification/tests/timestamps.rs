use claude_scope::time::{timestamp_from_nanos, wall_clock_now};

#[test]
fn zero_nanos_yields_wall_clock_time() {
    let before = wall_clock_now();
    let t = timestamp_from_nanos(0);
    let after = wall_clock_now();
    assert!(before.secs <= t.secs && t.secs <= after.secs);
}

#[test]
fn nonzero_nanos_yields_exact_calendar_second() {
    let t = timestamp_from_nanos(1_700_000_000_000_000_000);
    assert_eq!(t.secs, 1_700_000_000);
    assert_eq!(t.nanos, 0);
}

#[test]
fn nonzero_nanos_keeps_subsecond_part() {
    let t = timestamp_from_nanos(1_700_000_000_123_456_789);
    assert_eq!(t.secs, 1_700_000_000);
    assert_eq!(t.nanos, 123_456_789);
}

#[test]
fn wall_clock_is_after_the_epoch() {
    let now = wall_clock_now();
    assert!(now.secs > 1_000_000_000);
    assert!(now.nanos < 2_000_000_000);
}

#[test]
fn timestamps_order_by_seconds_then_nanos() {
    let a = timestamp_from_nanos(5_000_000_001);
    let b = timestamp_from_nanos(5_000_000_002);
    let c = timestamp_from_nanos(6_000_000_001);
    assert!(a.is_before(&b));
    assert!(b.is_before(&c));
    assert!(!b.is_before(&a));
    assert!(!a.is_before(&a));
}
