use claude_scope::attrmap::AttrMap;
use claude_scope::classify::{classify_metric, validate_claude_code_metric, MetricType, TokenType};
use claude_scope::enhanced::{ClaudeCodeMetricType, MetricClassifier, TokenType as EnhancedTokenType};
use claude_scope::session::SessionSummary;
use claude_scope::time::wall_clock_now;
use claude_scope::value::MetricValue;

#[test]
fn test_validate_claude_code_metric() {
    assert!(validate_claude_code_metric("claude_code.token.usage"));
    assert!(validate_claude_code_metric("claude_code.cost.usage"));
    assert!(!validate_claude_code_metric("other.metric"));
}

#[test]
fn test_classify_metric() {
    let mut labels = AttrMap::new();
    labels.insert("type".to_string(), "input".to_string());

    match classify_metric("claude_code.token.usage", &labels) {
        MetricType::TokenUsage { token_type: TokenType::Input } => {},
        _ => panic!("Expected TokenUsage with Input type"),
    }
}

#[test]
fn test_session_summary_update() {
    let mut summary = SessionSummary::default();

    let mut labels = AttrMap::new();
    labels.insert("type".to_string(), "input".to_string());
    let metric = claude_scope::classify::ProcessedMetric {
        name: "claude_code.token.usage".to_string(),
        value: MetricValue::from_units(100),
        timestamp: wall_clock_now(),
        labels,
        session_id: Some("test-session".to_string()),
        metric_type: MetricType::TokenUsage { token_type: TokenType::Input },
    };

    summary.update_from_metric(&metric);
    assert_eq!(summary.total_tokens_input, 100);
}

#[test]
fn test_metric_classification() {
    let labels = AttrMap::new();

    assert!(matches!(
        MetricClassifier::classify_metric("claude_code.session.count", &labels),
        ClaudeCodeMetricType::SessionCount
    ));

    assert!(matches!(
        MetricClassifier::classify_metric("claude_code.cost.usage", &labels),
        ClaudeCodeMetricType::CostUsage
    ));

    assert!(matches!(
        MetricClassifier::classify_metric("claude_code.tool.read", &labels),
        ClaudeCodeMetricType::ToolUsage(_)
    ));
}

#[test]
fn test_token_type_classification() {
    let mut labels = AttrMap::new();
    labels.insert("token_type".to_string(), "input".to_string());

    assert!(matches!(
        MetricClassifier::classify_metric("claude_code.token.usage", &labels),
        ClaudeCodeMetricType::TokenUsage(EnhancedTokenType::Input)
    ));
}

#[test]
fn test_user_context_extraction() {
    let mut labels = AttrMap::new();
    labels.insert("user.id".to_string(), "user123".to_string());
    labels.insert("user.email".to_string(), "user@example.com".to_string());

    let context = MetricClassifier::extract_user_context(&labels);
    assert_eq!(context.user_id, Some("user123".to_string()));
    assert_eq!(context.user_email, Some("user@example.com".to_string()));
}
