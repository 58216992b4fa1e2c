use claude_scope::attrmap::AttrMap;
use claude_scope::classify::{
    classify_event, classify_metric, parse_bool_text, validate_claude_code_event, EventType,
    MetricType, TokenType, CodeChangeType,
};
use claude_scope::enhanced::{ClaudeCodeMetricType, LinesType, MetricCategory, MetricClassifier, EnhancedClaudeMetric};
use claude_scope::time::Timestamp;
use claude_scope::value::MetricValue;

fn labels(pairs: &[(&str, &str)]) -> AttrMap {
    let mut m = AttrMap::new();
    for (k, v) in pairs {
        m.insert(k.to_string(), v.to_string());
    }
    m
}

#[test]
fn classifier_is_deterministic_on_equal_inputs() {
    let l = labels(&[("type", "output")]);
    let first = classify_metric("claude_code.token.usage", &l);
    let second = classify_metric("claude_code.token.usage", &l);
    assert_eq!(first, MetricType::TokenUsage { token_type: TokenType::Output });
    assert_eq!(first, second);
}

#[test]
fn unrecognized_metric_name_classifies_as_custom() {
    assert_eq!(classify_metric("custom.thing", &AttrMap::new()), MetricType::Other);
    assert_eq!(
        MetricClassifier::classify_metric("custom.thing", &AttrMap::new()),
        ClaudeCodeMetricType::Custom("custom.thing".to_string())
    );
}

#[test]
fn token_sub_variant_defaults_differ_between_classifiers() {
    let empty = AttrMap::new();
    assert_eq!(
        classify_metric("claude_code.token.usage", &empty),
        MetricType::TokenUsage { token_type: TokenType::Input }
    );
    assert_eq!(
        MetricClassifier::classify_metric("claude_code.token.usage", &empty),
        ClaudeCodeMetricType::TokenUsage(claude_scope::enhanced::TokenType::Total)
    );
    assert_eq!(
        classify_metric("claude_code.token.usage", &labels(&[("type", "cache_read")])),
        MetricType::TokenUsage { token_type: TokenType::CacheRead }
    );
}

#[test]
fn lines_of_code_sub_variants() {
    assert_eq!(
        classify_metric("claude_code.lines_of_code.count", &labels(&[("type", "removed")])),
        MetricType::LinesOfCode { change_type: CodeChangeType::Removed }
    );
    assert_eq!(
        classify_metric("claude_code.lines_of_code.count", &labels(&[("type", "junk")])),
        MetricType::LinesOfCode { change_type: CodeChangeType::Added }
    );
    assert_eq!(
        MetricClassifier::classify_metric(
            "claude_code.lines_of_code.count",
            &labels(&[("change_type", "modified")])
        ),
        ClaudeCodeMetricType::LinesOfCode(LinesType::Modified)
    );
    assert_eq!(
        MetricClassifier::classify_metric("claude_code.lines_of_code.count", &AttrMap::new()),
        ClaudeCodeMetricType::LinesOfCode(LinesType::Total)
    );
}

#[test]
fn cost_usage_takes_model_from_labels() {
    assert_eq!(
        classify_metric("claude_code.cost.usage", &labels(&[("model", "m-1")])),
        MetricType::CostUsage { model: "m-1".to_string() }
    );
    assert_eq!(
        classify_metric("claude_code.cost.usage", &AttrMap::new()),
        MetricType::CostUsage { model: "unknown".to_string() }
    );
}

#[test]
fn tool_usage_takes_the_name_remainder() {
    assert_eq!(
        MetricClassifier::classify_metric("claude_code.tool.read", &AttrMap::new()),
        ClaudeCodeMetricType::ToolUsage("read".to_string())
    );
    assert_eq!(
        MetricClassifier::classify_metric("claude_code.error.rate", &AttrMap::new()),
        ClaudeCodeMetricType::ErrorRate
    );
    assert_eq!(
        MetricClassifier::classify_metric("claude_code.response.time", &AttrMap::new()),
        ClaudeCodeMetricType::ResponseTime
    );
    assert_eq!(
        MetricClassifier::classify_metric("claude_code.session.duration", &AttrMap::new()),
        ClaudeCodeMetricType::SessionDuration
    );
}

#[test]
fn event_classification_with_defaults() {
    assert_eq!(classify_event("user_prompt_submitted", &AttrMap::new()), EventType::UserPromptSubmitted);
    assert_eq!(
        classify_event("tool_result", &labels(&[("tool_name", "bash")])),
        EventType::ToolResult { tool_name: "bash".to_string() }
    );
    assert_eq!(
        classify_event("tool_result", &AttrMap::new()),
        EventType::ToolResult { tool_name: "unknown".to_string() }
    );
    assert_eq!(
        classify_event("api_request", &labels(&[("endpoint", "/v1/messages")])),
        EventType::ApiRequest { endpoint: "/v1/messages".to_string() }
    );
    assert_eq!(
        classify_event("api_request_failed", &labels(&[("error_code", "429")])),
        EventType::ApiRequestFailed { error_code: "429".to_string() }
    );
    assert_eq!(
        classify_event("something_else", &AttrMap::new()),
        EventType::Other { name: "something_else".to_string() }
    );
}

#[test]
fn permission_decisions_parse_booleans_with_false_default() {
    assert_eq!(
        classify_event("tool_permission_decision", &labels(&[("tool_name", "edit"), ("allowed", "true")])),
        EventType::ToolPermissionDecision { tool_name: "edit".to_string(), allowed: true }
    );
    assert_eq!(
        classify_event("tool_permission_decision", &labels(&[("allowed", "false")])),
        EventType::ToolPermissionDecision { tool_name: "unknown".to_string(), allowed: false }
    );
    assert_eq!(
        classify_event("tool_permission_decision", &labels(&[("allowed", "yes")])),
        EventType::ToolPermissionDecision { tool_name: "unknown".to_string(), allowed: false }
    );
    assert_eq!(
        classify_event("tool_permission_decision", &AttrMap::new()),
        EventType::ToolPermissionDecision { tool_name: "unknown".to_string(), allowed: false }
    );
    assert_eq!(parse_bool_text("true"), Some(true));
    assert_eq!(parse_bool_text("false"), Some(false));
    assert_eq!(parse_bool_text("TRUE"), None);
}

#[test]
fn event_vocabulary_is_validated() {
    assert!(validate_claude_code_event("user_prompt_submitted"));
    assert!(validate_claude_code_event("tool_result"));
    assert!(validate_claude_code_event("api_request"));
    assert!(validate_claude_code_event("api_request_failed"));
    assert!(validate_claude_code_event("tool_permission_decision"));
    assert!(!validate_claude_code_event("other_event"));
}

#[test]
fn enhanced_metric_categories_and_predicates() {
    let m = EnhancedClaudeMetric::from_basic_metric(
        "claude_code.cost.usage".to_string(),
        MetricValue::from_micros(10),
        Timestamp { secs: 1, nanos: 0 },
        AttrMap::new(),
    );
    assert!(m.is_cost_metric());
    assert!(!m.is_token_metric());
    assert!(!m.is_productivity_metric());
    assert_eq!(m.get_category(), MetricCategory::Cost);

    let p = EnhancedClaudeMetric::from_basic_metric(
        "claude_code.commit.count".to_string(),
        MetricValue::from_units(1),
        Timestamp { secs: 1, nanos: 0 },
        AttrMap::new(),
    );
    assert!(p.is_productivity_metric());
    assert_eq!(p.get_category(), MetricCategory::Productivity);

    let t = EnhancedClaudeMetric::from_basic_metric(
        "claude_code.tool.grep".to_string(),
        MetricValue::from_units(1),
        Timestamp { secs: 1, nanos: 0 },
        AttrMap::new(),
    );
    assert_eq!(t.get_category(), MetricCategory::Tools);
}

#[test]
fn session_context_extraction() {
    let l = labels(&[("session.id", "s-9"), ("version", "1.2"), ("host", "h"), ("service", "svc")]);
    let ctx = MetricClassifier::extract_session_context(&l);
    assert_eq!(ctx.session_id, Some("s-9".to_string()));
    assert_eq!(ctx.version, Some("1.2".to_string()));
    assert_eq!(ctx.host, Some("h".to_string()));
    assert_eq!(ctx.service, Some("svc".to_string()));
    let empty = MetricClassifier::extract_session_context(&AttrMap::new());
    assert_eq!(empty.session_id, None);
}
