//! Metric and event classification: a pure mapping from a raw name and its
//! merged labels to a closed set of semantic kinds. Classification never
//! fails; an unrecognized name falls back to the catch-all kind.
//!
//! Label-driven sub-variants and their defaults, as the classification table
//! defines them: the token-usage sub-variant comes from the `type` label and
//! defaults to `Input` when the label is missing or unrecognized; the
//! lines-of-code sub-variant comes from the `type` label and defaults to
//! `Added`. Event parameters default to the literal `unknown` when their
//! attribute is absent, and the permission decision defaults to `false` when
//! its attribute is missing or unparseable.

use vstd::prelude::*;

use crate::attrmap::AttrMap;
use crate::strutil::{str_eq, spec_has_prefix};
use crate::time::Timestamp;
use crate::value::MetricValue;

verus! {

/// The token-usage sub-variants.
#[derive(Debug, Clone, Copy, PartialEq, Eq, Structural)]
pub enum TokenType {
    Input,
    Output,
    CacheCreation,
    CacheRead,
}

/// The lines-of-code sub-variants.
#[derive(Debug, Clone, Copy, PartialEq, Eq, Structural)]
pub enum CodeChangeType {
    Added,
    Removed,
}

/// The closed set of metric kinds.
#[derive(Debug, Clone, PartialEq)]
pub enum MetricType {
    TokenUsage { token_type: TokenType },
    CostUsage { model: String },
    SessionCount,
    LinesOfCode { change_type: CodeChangeType },
    CommitCount,
    PullRequestCount,
    Other,
}

/// The abstract value of a `MetricType`: the same kind with its text
/// parameter as a character sequence.
pub enum MetricTypeView {
    TokenUsage { token_type: TokenType },
    CostUsage { model: Seq<char> },
    SessionCount,
    LinesOfCode { change_type: CodeChangeType },
    CommitCount,
    PullRequestCount,
    Other,
}

impl View for MetricType {
    type V = MetricTypeView;

    open spec fn view(&self) -> MetricTypeView {
        match self {
            MetricType::TokenUsage { token_type } => MetricTypeView::TokenUsage {
                token_type: *token_type,
            },
            MetricType::CostUsage { model } => MetricTypeView::CostUsage { model: model@ },
            MetricType::SessionCount => MetricTypeView::SessionCount,
            MetricType::LinesOfCode { change_type } => MetricTypeView::LinesOfCode {
                change_type: *change_type,
            },
            MetricType::CommitCount => MetricTypeView::CommitCount,
            MetricType::PullRequestCount => MetricTypeView::PullRequestCount,
            MetricType::Other => MetricTypeView::Other,
        }
    }
}

/// The closed set of event kinds.
#[derive(Debug, Clone, PartialEq)]
pub enum EventType {
    UserPromptSubmitted,
    ToolResult { tool_name: String },
    ApiRequest { endpoint: String },
    ApiRequestFailed { error_code: String },
    ToolPermissionDecision { tool_name: String, allowed: bool },
    Other { name: String },
}

/// The abstract value of an `EventType`.
pub enum EventTypeView {
    UserPromptSubmitted,
    ToolResult { tool_name: Seq<char> },
    ApiRequest { endpoint: Seq<char> },
    ApiRequestFailed { error_code: Seq<char> },
    ToolPermissionDecision { tool_name: Seq<char>, allowed: bool },
    Other { name: Seq<char> },
}

impl View for EventType {
    type V = EventTypeView;

    open spec fn view(&self) -> EventTypeView {
        match self {
            EventType::UserPromptSubmitted => EventTypeView::UserPromptSubmitted,
            EventType::ToolResult { tool_name } => EventTypeView::ToolResult {
                tool_name: tool_name@,
            },
            EventType::ApiRequest { endpoint } => EventTypeView::ApiRequest { endpoint: endpoint@ },
            EventType::ApiRequestFailed { error_code } => EventTypeView::ApiRequestFailed {
                error_code: error_code@,
            },
            EventType::ToolPermissionDecision { tool_name, allowed } => {
                EventTypeView::ToolPermissionDecision { tool_name: tool_name@, allowed: *allowed }
            },
            EventType::Other { name } => EventTypeView::Other { name: name@ },
        }
    }
}

/// The label value under `key`, or `unknown` when absent.
pub open spec fn spec_label_or_unknown(labels: Map<Seq<char>, Seq<char>>, key: Seq<char>) -> Seq<
    char,
> {
    if labels.contains_key(key) {
        labels[key]
    } else {
        "unknown"@
    }
}

/// The token sub-variant drawn from the `type` label; missing or
/// unrecognized values default to `Input`.
pub open spec fn spec_token_type(labels: Map<Seq<char>, Seq<char>>) -> TokenType {
    if labels.contains_key("type"@) {
        let v = labels["type"@];
        if v == "input"@ {
            TokenType::Input
        } else if v == "output"@ {
            TokenType::Output
        } else if v == "cache_creation"@ {
            TokenType::CacheCreation
        } else if v == "cache_read"@ {
            TokenType::CacheRead
        } else {
            TokenType::Input
        }
    } else {
        TokenType::Input
    }
}

/// The lines-of-code sub-variant drawn from the `type` label; missing or
/// unrecognized values default to `Added`.
pub open spec fn spec_change_type(labels: Map<Seq<char>, Seq<char>>) -> CodeChangeType {
    if labels.contains_key("type"@) {
        let v = labels["type"@];
        if v == "added"@ {
            CodeChangeType::Added
        } else if v == "removed"@ {
            CodeChangeType::Removed
        } else {
            CodeChangeType::Added
        }
    } else {
        CodeChangeType::Added
    }
}

/// The metric kind for a name and its labels.
pub open spec fn spec_classify_metric(name: Seq<char>, labels: Map<Seq<char>, Seq<char>>) -> MetricTypeView {
    if name == "claude_code.token.usage"@ {
        MetricTypeView::TokenUsage { token_type: spec_token_type(labels) }
    } else if name == "claude_code.cost.usage"@ {
        MetricTypeView::CostUsage { model: spec_label_or_unknown(labels, "model"@) }
    } else if name == "claude_code.session.count"@ {
        MetricTypeView::SessionCount
    } else if name == "claude_code.lines_of_code.count"@ {
        MetricTypeView::LinesOfCode { change_type: spec_change_type(labels) }
    } else if name == "claude_code.commit.count"@ {
        MetricTypeView::CommitCount
    } else if name == "claude_code.pull_request.count"@ {
        MetricTypeView::PullRequestCount
    } else {
        MetricTypeView::Other
    }
}

fn label_or_unknown(labels: &AttrMap, key: &str) -> (r: String)
    requires
        labels.wf(),
    ensures
        r@ == spec_label_or_unknown(labels@, key@),
{
    match labels.get(key) {
        Some(v) => v.clone(),
        None => String::from_str("unknown"),
    }
}

/// Classifies a metric by name and labels. Total: every input maps to a
/// kind, and the result depends only on the name and label contents.
pub fn classify_metric(name: &str, labels: &AttrMap) -> (r: MetricType)
    requires
        labels.wf(),
    ensures
        r@ == spec_classify_metric(name@, labels@),
{
    if str_eq(name, "claude_code.token.usage") {
        let token_type = match labels.get("type") {
            Some(v) => {
                if str_eq(v.as_str(), "input") {
                    TokenType::Input
                } else if str_eq(v.as_str(), "output") {
                    TokenType::Output
                } else if str_eq(v.as_str(), "cache_creation") {
                    TokenType::CacheCreation
                } else if str_eq(v.as_str(), "cache_read") {
                    TokenType::CacheRead
                } else {
                    TokenType::Input
                }
            },
            None => TokenType::Input,
        };
        MetricType::TokenUsage { token_type }
    } else if str_eq(name, "claude_code.cost.usage") {
        MetricType::CostUsage { model: label_or_unknown(labels, "model") }
    } else if str_eq(name, "claude_code.session.count") {
        MetricType::SessionCount
    } else if str_eq(name, "claude_code.lines_of_code.count") {
        let change_type = match labels.get("type") {
            Some(v) => {
                if str_eq(v.as_str(), "added") {
                    CodeChangeType::Added
                } else if str_eq(v.as_str(), "removed") {
                    CodeChangeType::Removed
                } else {
                    CodeChangeType::Added
                }
            },
            None => CodeChangeType::Added,
        };
        MetricType::LinesOfCode { change_type }
    } else if str_eq(name, "claude_code.commit.count") {
        MetricType::CommitCount
    } else if str_eq(name, "claude_code.pull_request.count") {
        MetricType::PullRequestCount
    } else {
        MetricType::Other
    }
}

/// How boolean attribute text is read: exactly `true` and `false` parse,
/// anything else does not.
pub open spec fn spec_parse_bool(s: Seq<char>) -> Option<bool> {
    if s == "true"@ {
        Some(true)
    } else if s == "false"@ {
        Some(false)
    } else {
        None
    }
}

/// Parses boolean attribute text: `true` and `false` only.
pub fn parse_bool_text(s: &str) -> (r: Option<bool>)
    ensures
        r == spec_parse_bool(s@),
{
    if str_eq(s, "true") {
        Some(true)
    } else if str_eq(s, "false") {
        Some(false)
    } else {
        None
    }
}

/// The permission decision drawn from the `allowed` attribute; missing or
/// unparseable text defaults to `false`.
pub open spec fn spec_allowed(attributes: Map<Seq<char>, Seq<char>>) -> bool {
    if attributes.contains_key("allowed"@) {
        match spec_parse_bool(attributes["allowed"@]) {
            Some(b) => b,
            None => false,
        }
    } else {
        false
    }
}

/// The event kind for a name and its attributes.
pub open spec fn spec_classify_event(name: Seq<char>, attributes: Map<Seq<char>, Seq<char>>) -> EventTypeView {
    if name == "user_prompt_submitted"@ {
        EventTypeView::UserPromptSubmitted
    } else if name == "tool_result"@ {
        EventTypeView::ToolResult { tool_name: spec_label_or_unknown(attributes, "tool_name"@) }
    } else if name == "api_request"@ {
        EventTypeView::ApiRequest { endpoint: spec_label_or_unknown(attributes, "endpoint"@) }
    } else if name == "api_request_failed"@ {
        EventTypeView::ApiRequestFailed {
            error_code: spec_label_or_unknown(attributes, "error_code"@),
        }
    } else if name == "tool_permission_decision"@ {
        EventTypeView::ToolPermissionDecision {
            tool_name: spec_label_or_unknown(attributes, "tool_name"@),
            allowed: spec_allowed(attributes),
        }
    } else {
        EventTypeView::Other { name: name }
    }
}

/// Classifies an event by name and attributes. Total: an unrecognized name
/// yields the catch-all kind carrying the name itself.
pub fn classify_event(name: &str, attributes: &AttrMap) -> (r: EventType)
    requires
        attributes.wf(),
    ensures
        r@ == spec_classify_event(name@, attributes@),
{
    if str_eq(name, "user_prompt_submitted") {
        EventType::UserPromptSubmitted
    } else if str_eq(name, "tool_result") {
        EventType::ToolResult { tool_name: label_or_unknown(attributes, "tool_name") }
    } else if str_eq(name, "api_request") {
        EventType::ApiRequest { endpoint: label_or_unknown(attributes, "endpoint") }
    } else if str_eq(name, "api_request_failed") {
        EventType::ApiRequestFailed { error_code: label_or_unknown(attributes, "error_code") }
    } else if str_eq(name, "tool_permission_decision") {
        let tool_name = label_or_unknown(attributes, "tool_name");
        let allowed = match attributes.get("allowed") {
            Some(v) => {
                match parse_bool_text(v.as_str()) {
                    Some(b) => b,
                    None => false,
                }
            },
            None => false,
        };
        EventType::ToolPermissionDecision { tool_name, allowed }
    } else {
        EventType::Other { name: name.to_owned() }
    }
}

/// The fixed vocabulary of expected metric names.
pub open spec fn spec_is_known_metric_name(name: Seq<char>) -> bool {
    name == "claude_code.token.usage"@ || name == "claude_code.cost.usage"@ || name
        == "claude_code.session.count"@ || name == "claude_code.lines_of_code.count"@ || name
        == "claude_code.commit.count"@ || name == "claude_code.pull_request.count"@
}

/// Whether a metric name belongs to the expected producer: either one of the
/// fixed names or anything under its namespace prefix.
pub fn validate_claude_code_metric(name: &str) -> (r: bool)
    ensures
        r == (spec_is_known_metric_name(name@) || spec_has_prefix(name@, "claude_code."@)),
{
    let known = str_eq(name, "claude_code.token.usage") || str_eq(name, "claude_code.cost.usage")
        || str_eq(name, "claude_code.session.count") || str_eq(
        name,
        "claude_code.lines_of_code.count",
    ) || str_eq(name, "claude_code.commit.count") || str_eq(name, "claude_code.pull_request.count");
    known || crate::strutil::str_has_prefix(name, "claude_code.")
}

/// The fixed vocabulary of expected event names.
pub open spec fn spec_is_known_event_name(name: Seq<char>) -> bool {
    name == "user_prompt_submitted"@ || name == "tool_result"@ || name == "api_request"@ || name
        == "api_request_failed"@ || name == "tool_permission_decision"@
}

/// Whether an event name belongs to the expected vocabulary.
pub fn validate_claude_code_event(event_name: &str) -> (r: bool)
    ensures
        r == spec_is_known_event_name(event_name@),
{
    str_eq(event_name, "user_prompt_submitted") || str_eq(event_name, "tool_result") || str_eq(
        event_name,
        "api_request",
    ) || str_eq(event_name, "api_request_failed") || str_eq(event_name, "tool_permission_decision")
}

/// A flattened, classified metric observation.
#[derive(Debug, Clone)]
pub struct ProcessedMetric {
    pub name: String,
    pub value: MetricValue,
    pub timestamp: Timestamp,
    pub labels: AttrMap,
    pub session_id: Option<String>,
    pub metric_type: MetricType,
}

/// A flattened, classified event observation.
#[derive(Debug, Clone)]
pub struct ProcessedEvent {
    pub event_type: EventType,
    pub timestamp: Timestamp,
    pub attributes: AttrMap,
    pub session_id: Option<String>,
}

/// Classification is a pure function of the name and label contents: equal
/// inputs always classify to the same kind, independent of call order or any
/// other state.
pub proof fn lemma_classification_deterministic(
    name1: Seq<char>,
    labels1: Map<Seq<char>, Seq<char>>,
    name2: Seq<char>,
    labels2: Map<Seq<char>, Seq<char>>,
)
    requires
        name1 == name2,
        labels1 == labels2,
    ensures
        spec_classify_metric(name1, labels1) == spec_classify_metric(name2, labels2),
        spec_classify_event(name1, labels1) == spec_classify_event(name2, labels2),
{
}

} // verus!
