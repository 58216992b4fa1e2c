use claude_scope::attrmap::AttrMap;
use claude_scope::classify::{classify_event, EventType, MetricType, ProcessedEvent, ProcessedMetric, TokenType, CodeChangeType};
use claude_scope::session::{SessionStore, SessionSummary};
use claude_scope::time::Timestamp;
use claude_scope::value::MetricValue;

fn token_metric(value: i64, token_type: TokenType) -> ProcessedMetric {
    ProcessedMetric {
        name: "claude_code.token.usage".to_string(),
        value: MetricValue::from_units(value),
        timestamp: Timestamp { secs: 1, nanos: 0 },
        labels: AttrMap::new(),
        session_id: Some("s-1".to_string()),
        metric_type: MetricType::TokenUsage { token_type },
    }
}

#[test]
fn token_input_records_accumulate_and_last_updated_advances() {
    let mut summary = SessionSummary::new("s-1".to_string());
    let now1 = Timestamp { secs: 10, nanos: 0 };
    let now2 = Timestamp { secs: 11, nanos: 0 };

    summary.apply_metric(&token_metric(100, TokenType::Input), now1);
    assert_eq!(summary.total_tokens_input, 100);
    assert_eq!(summary.last_updated, now1);

    summary.apply_metric(&token_metric(50, TokenType::Input), now2);
    assert_eq!(summary.total_tokens_input, 150);
    assert_eq!(summary.last_updated, now2);
    assert!(now1.is_before(&now2));
}

#[test]
fn each_metric_kind_feeds_its_own_bucket() {
    let mut summary = SessionSummary::new("s-1".to_string());
    let now = Timestamp { secs: 5, nanos: 0 };

    summary.apply_metric(&token_metric(7, TokenType::Output), now);
    summary.apply_metric(&token_metric(3, TokenType::CacheCreation), now);
    summary.apply_metric(&token_metric(2, TokenType::CacheRead), now);
    assert_eq!(summary.total_tokens_output, 7);
    assert_eq!(summary.total_tokens_cache_creation, 3);
    assert_eq!(summary.total_tokens_cache_read, 2);

    let mut cost = token_metric(0, TokenType::Input);
    cost.metric_type = MetricType::CostUsage { model: "m".to_string() };
    cost.value = MetricValue::from_micros(1_250_000);
    summary.apply_metric(&cost, now);
    assert_eq!(summary.total_cost.micros, 1_250_000);

    let mut lines = token_metric(12, TokenType::Input);
    lines.metric_type = MetricType::LinesOfCode { change_type: CodeChangeType::Added };
    summary.apply_metric(&lines, now);
    let mut removed = token_metric(4, TokenType::Input);
    removed.metric_type = MetricType::LinesOfCode { change_type: CodeChangeType::Removed };
    summary.apply_metric(&removed, now);
    assert_eq!(summary.lines_added, 12);
    assert_eq!(summary.lines_removed, 4);

    let mut commits = token_metric(2, TokenType::Input);
    commits.metric_type = MetricType::CommitCount;
    summary.apply_metric(&commits, now);
    let mut prs = token_metric(1, TokenType::Input);
    prs.metric_type = MetricType::PullRequestCount;
    summary.apply_metric(&prs, now);
    assert_eq!(summary.total_commits, 2);
    assert_eq!(summary.total_pull_requests, 1);

    let mut other = token_metric(99, TokenType::Input);
    other.metric_type = MetricType::Other;
    summary.apply_metric(&other, now);
    assert_eq!(summary.total_tokens_input, 0);
}

#[test]
fn events_feed_tool_and_api_counters() {
    let mut summary = SessionSummary::new("s-1".to_string());
    let now = Timestamp { secs: 5, nanos: 0 };
    let mut attrs = AttrMap::new();
    attrs.insert("tool_name".to_string(), "read".to_string());

    let tool_event = ProcessedEvent {
        event_type: classify_event("tool_result", &attrs),
        timestamp: now,
        attributes: attrs,
        session_id: Some("s-1".to_string()),
    };
    summary.apply_event(&tool_event, now);
    summary.apply_event(&tool_event, now);
    assert_eq!(summary.tool_usage.get_count("read"), 2);
    assert_eq!(summary.tool_usage.get_count("write"), 0);

    let api = ProcessedEvent {
        event_type: EventType::ApiRequest { endpoint: "/v1".to_string() },
        timestamp: now,
        attributes: AttrMap::new(),
        session_id: None,
    };
    summary.apply_event(&api, now);
    let failed = ProcessedEvent {
        event_type: EventType::ApiRequestFailed { error_code: "500".to_string() },
        timestamp: now,
        attributes: AttrMap::new(),
        session_id: None,
    };
    summary.apply_event(&failed, now);
    assert_eq!(summary.api_requests, 1);
    assert_eq!(summary.api_failures, 1);

    let prompt = ProcessedEvent {
        event_type: EventType::UserPromptSubmitted,
        timestamp: now,
        attributes: AttrMap::new(),
        session_id: None,
    };
    summary.apply_event(&prompt, now);
    assert_eq!(summary.api_requests, 1);
}

#[test]
fn store_creates_summaries_lazily_and_ignores_sessionless_records() {
    let mut store = SessionStore::new();
    let now = Timestamp { secs: 20, nanos: 0 };

    assert!(store.get_summary("s-1").is_none());
    store.fold_metric(&token_metric(40, TokenType::Input), now);
    let summary = store.get_summary("s-1").expect("summary created lazily");
    assert_eq!(summary.total_tokens_input, 40);
    assert_eq!(summary.session_id, "s-1");

    let mut anonymous = token_metric(9, TokenType::Input);
    anonymous.session_id = None;
    store.fold_metric(&anonymous, now);
    assert_eq!(store.get_summary("s-1").unwrap().total_tokens_input, 40);

    store.fold_metric(&token_metric(2, TokenType::Input), now);
    assert_eq!(store.get_summary("s-1").unwrap().total_tokens_input, 42);

    let event = ProcessedEvent {
        event_type: EventType::ApiRequest { endpoint: "/v1".to_string() },
        timestamp: now,
        attributes: AttrMap::new(),
        session_id: Some("s-2".to_string()),
    };
    store.fold_event(&event, now);
    assert_eq!(store.get_summary("s-2").unwrap().api_requests, 1);
    assert_eq!(store.get_summary("s-1").unwrap().api_requests, 0);
}

#[test]
fn default_summary_is_all_zero() {
    let summary = SessionSummary::default();
    assert_eq!(summary.session_id, "");
    assert_eq!(summary.total_tokens_input, 0);
    assert_eq!(summary.total_tokens_output, 0);
    assert_eq!(summary.total_cost.micros, 0);
    assert_eq!(summary.total_commits, 0);
    assert_eq!(summary.api_requests, 0);
}
