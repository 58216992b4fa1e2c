//! The broader metric classifier: a wider closed taxonomy with tool-usage,
//! error and performance kinds, plus user and session context drawn from
//! labels.
//!
//! Sub-variant defaults in this table, stated explicitly: the token-usage
//! sub-variant comes from the `token_type` label and defaults to `Total`
//! when missing or unrecognized; the lines-of-code sub-variant comes from
//! the `change_type` label and defaults to `Total`. These defaults differ
//! deliberately from the narrower classification table, which reads the
//! `type` label and defaults to `Input` and `Added`.

use vstd::prelude::*;

use crate::attrmap::AttrMap;
use crate::strutil::{str_eq, str_has_prefix, str_after_prefix, spec_has_prefix, spec_drop_prefix};
use crate::time::Timestamp;
use crate::value::MetricValue;

verus! {

/// The token sub-variants of the broader taxonomy.
#[derive(Debug, Clone, Copy, PartialEq, Eq, Structural)]
pub enum TokenType {
    Input,
    Output,
    Total,
}

/// The lines-of-code sub-variants of the broader taxonomy.
#[derive(Debug, Clone, Copy, PartialEq, Eq, Structural)]
pub enum LinesType {
    Added,
    Removed,
    Modified,
    Total,
}

/// The broader closed set of metric kinds.
#[derive(Debug, Clone, PartialEq)]
pub enum ClaudeCodeMetricType {
    SessionCount,
    SessionDuration,
    TokenUsage(TokenType),
    CostUsage,
    CommitCount,
    PullRequestCount,
    LinesOfCode(LinesType),
    ToolUsage(String),
    ErrorRate,
    ResponseTime,
    Custom(String),
}

/// The abstract value of a `ClaudeCodeMetricType`.
pub enum ClaudeCodeMetricTypeView {
    SessionCount,
    SessionDuration,
    TokenUsage(TokenType),
    CostUsage,
    CommitCount,
    PullRequestCount,
    LinesOfCode(LinesType),
    ToolUsage(Seq<char>),
    ErrorRate,
    ResponseTime,
    Custom(Seq<char>),
}

impl View for ClaudeCodeMetricType {
    type V = ClaudeCodeMetricTypeView;

    open spec fn view(&self) -> ClaudeCodeMetricTypeView {
        match self {
            ClaudeCodeMetricType::SessionCount => ClaudeCodeMetricTypeView::SessionCount,
            ClaudeCodeMetricType::SessionDuration => ClaudeCodeMetricTypeView::SessionDuration,
            ClaudeCodeMetricType::TokenUsage(t) => ClaudeCodeMetricTypeView::TokenUsage(*t),
            ClaudeCodeMetricType::CostUsage => ClaudeCodeMetricTypeView::CostUsage,
            ClaudeCodeMetricType::CommitCount => ClaudeCodeMetricTypeView::CommitCount,
            ClaudeCodeMetricType::PullRequestCount => ClaudeCodeMetricTypeView::PullRequestCount,
            ClaudeCodeMetricType::LinesOfCode(t) => ClaudeCodeMetricTypeView::LinesOfCode(*t),
            ClaudeCodeMetricType::ToolUsage(s) => ClaudeCodeMetricTypeView::ToolUsage(s@),
            ClaudeCodeMetricType::ErrorRate => ClaudeCodeMetricTypeView::ErrorRate,
            ClaudeCodeMetricType::ResponseTime => ClaudeCodeMetricTypeView::ResponseTime,
            ClaudeCodeMetricType::Custom(s) => ClaudeCodeMetricTypeView::Custom(s@),
        }
    }
}

/// The token sub-variant from the `token_type` label, defaulting to `Total`.
pub open spec fn spec_enhanced_token_type(labels: Map<Seq<char>, Seq<char>>) -> TokenType {
    if labels.contains_key("token_type"@) {
        let v = labels["token_type"@];
        if v == "input"@ {
            TokenType::Input
        } else if v == "output"@ {
            TokenType::Output
        } else {
            TokenType::Total
        }
    } else {
        TokenType::Total
    }
}

/// The lines sub-variant from the `change_type` label, defaulting to
/// `Total`.
pub open spec fn spec_enhanced_lines_type(labels: Map<Seq<char>, Seq<char>>) -> LinesType {
    if labels.contains_key("change_type"@) {
        let v = labels["change_type"@];
        if v == "added"@ {
            LinesType::Added
        } else if v == "removed"@ {
            LinesType::Removed
        } else if v == "modified"@ {
            LinesType::Modified
        } else {
            LinesType::Total
        }
    } else {
        LinesType::Total
    }
}

/// The broader metric kind for a name and its labels; an unrecognized name
/// becomes `Custom` carrying the full name, never an error.
pub open spec fn spec_classify_enhanced(name: Seq<char>, labels: Map<Seq<char>, Seq<char>>) -> ClaudeCodeMetricTypeView {
    if name == "claude_code.session.count"@ {
        ClaudeCodeMetricTypeView::SessionCount
    } else if name == "claude_code.token.usage"@ {
        ClaudeCodeMetricTypeView::TokenUsage(spec_enhanced_token_type(labels))
    } else if name == "claude_code.cost.usage"@ {
        ClaudeCodeMetricTypeView::CostUsage
    } else if name == "claude_code.commit.count"@ {
        ClaudeCodeMetricTypeView::CommitCount
    } else if name == "claude_code.pull_request.count"@ {
        ClaudeCodeMetricTypeView::PullRequestCount
    } else if name == "claude_code.lines_of_code.count"@ {
        ClaudeCodeMetricTypeView::LinesOfCode(spec_enhanced_lines_type(labels))
    } else if spec_has_prefix(name, "claude_code.tool."@) {
        ClaudeCodeMetricTypeView::ToolUsage(spec_drop_prefix(name, "claude_code.tool."@.len()))
    } else if name == "claude_code.session.duration"@ {
        ClaudeCodeMetricTypeView::SessionDuration
    } else if name == "claude_code.error.rate"@ {
        ClaudeCodeMetricTypeView::ErrorRate
    } else if name == "claude_code.response.time"@ {
        ClaudeCodeMetricTypeView::ResponseTime
    } else {
        ClaudeCodeMetricTypeView::Custom(name)
    }
}

/// The label value under `key`, when present.
pub open spec fn spec_opt_label(labels: Map<Seq<char>, Seq<char>>, key: Seq<char>) -> Option<
    Seq<char>,
> {
    if labels.contains_key(key) {
        Some(labels[key])
    } else {
        None
    }
}

/// The abstract value of an optional string.
pub open spec fn opt_string_view(o: Option<String>) -> Option<Seq<char>> {
    match o {
        Some(s) => Some(s@),
        None => None,
    }
}

fn opt_label(labels: &AttrMap, key: &str) -> (r: Option<String>)
    requires
        labels.wf(),
    ensures
        opt_string_view(r) == spec_opt_label(labels@, key@),
{
    match labels.get(key) {
        Some(v) => Some(v.clone()),
        None => None,
    }
}

/// User identification drawn from metric labels.
#[derive(Debug, Clone)]
pub struct UserContext {
    pub user_id: Option<String>,
    pub user_email: Option<String>,
    pub organization_id: Option<String>,
}

/// Session and service context drawn from metric labels.
#[derive(Debug, Clone)]
pub struct SessionContext {
    pub session_id: Option<String>,
    pub version: Option<String>,
    pub host: Option<String>,
    pub service: Option<String>,
}

/// The classifier over the broader taxonomy.
#[derive(Debug)]
pub struct MetricClassifier;

impl MetricClassifier {
    /// Classifies a metric by name and labels over the broader taxonomy.
    /// Total: the result depends only on the name and label contents.
    pub fn classify_metric(name: &str, labels: &AttrMap) -> (r: ClaudeCodeMetricType)
        requires
            labels.wf(),
        ensures
            r@ == spec_classify_enhanced(name@, labels@),
    {
        if str_eq(name, "claude_code.session.count") {
            ClaudeCodeMetricType::SessionCount
        } else if str_eq(name, "claude_code.token.usage") {
            let t = match labels.get("token_type") {
                Some(v) => {
                    if str_eq(v.as_str(), "input") {
                        TokenType::Input
                    } else if str_eq(v.as_str(), "output") {
                        TokenType::Output
                    } else {
                        TokenType::Total
                    }
                },
                None => TokenType::Total,
            };
            ClaudeCodeMetricType::TokenUsage(t)
        } else if str_eq(name, "claude_code.cost.usage") {
            ClaudeCodeMetricType::CostUsage
        } else if str_eq(name, "claude_code.commit.count") {
            ClaudeCodeMetricType::CommitCount
        } else if str_eq(name, "claude_code.pull_request.count") {
            ClaudeCodeMetricType::PullRequestCount
        } else if str_eq(name, "claude_code.lines_of_code.count") {
            let t = match labels.get("change_type") {
                Some(v) => {
                    if str_eq(v.as_str(), "added") {
                        LinesType::Added
                    } else if str_eq(v.as_str(), "removed") {
                        LinesType::Removed
                    } else if str_eq(v.as_str(), "modified") {
                        LinesType::Modified
                    } else {
                        LinesType::Total
                    }
                },
                None => LinesType::Total,
            };
            ClaudeCodeMetricType::LinesOfCode(t)
        } else if str_has_prefix(name, "claude_code.tool.") {
            let plen = "claude_code.tool.".unicode_len();
            let tool_name = str_after_prefix(name, plen);
            ClaudeCodeMetricType::ToolUsage(tool_name)
        } else if str_eq(name, "claude_code.session.duration") {
            ClaudeCodeMetricType::SessionDuration
        } else if str_eq(name, "claude_code.error.rate") {
            ClaudeCodeMetricType::ErrorRate
        } else if str_eq(name, "claude_code.response.time") {
            ClaudeCodeMetricType::ResponseTime
        } else {
            ClaudeCodeMetricType::Custom(name.to_owned())
        }
    }

    /// Extracts user identification from the `user.id`, `user.email` and
    /// `organization.id` labels.
    pub fn extract_user_context(labels: &AttrMap) -> (r: UserContext)
        requires
            labels.wf(),
        ensures
            opt_string_view(r.user_id) == spec_opt_label(labels@, "user.id"@),
            opt_string_view(r.user_email) == spec_opt_label(labels@, "user.email"@),
            opt_string_view(r.organization_id) == spec_opt_label(labels@, "organization.id"@),
    {
        UserContext {
            user_id: opt_label(labels, "user.id"),
            user_email: opt_label(labels, "user.email"),
            organization_id: opt_label(labels, "organization.id"),
        }
    }

    /// Extracts session and service context from the `session.id`,
    /// `version`, `host` and `service` labels.
    pub fn extract_session_context(labels: &AttrMap) -> (r: SessionContext)
        requires
            labels.wf(),
        ensures
            opt_string_view(r.session_id) == spec_opt_label(labels@, "session.id"@),
            opt_string_view(r.version) == spec_opt_label(labels@, "version"@),
            opt_string_view(r.host) == spec_opt_label(labels@, "host"@),
            opt_string_view(r.service) == spec_opt_label(labels@, "service"@),
    {
        SessionContext {
            session_id: opt_label(labels, "session.id"),
            version: opt_label(labels, "version"),
            host: opt_label(labels, "host"),
            service: opt_label(labels, "service"),
        }
    }
}

/// A classified metric enriched with user and session context.
#[derive(Debug, Clone)]
pub struct EnhancedClaudeMetric {
    pub metric_type: ClaudeCodeMetricType,
    pub name: String,
    pub value: MetricValue,
    pub timestamp: Timestamp,
    pub labels: AttrMap,
    pub user_id: Option<String>,
    pub user_email: Option<String>,
    pub organization_id: Option<String>,
    pub session_id: Option<String>,
    pub version: Option<String>,
    pub host: Option<String>,
    pub service: Option<String>,
}

/// Category buckets for grouping classified metrics.
#[derive(Debug, Clone, Copy, PartialEq, Eq, Structural)]
pub enum MetricCategory {
    Session,
    Usage,
    Cost,
    Productivity,
    Tools,
    Errors,
    Performance,
    Custom,
}

/// The category of a broader metric kind.
pub open spec fn spec_category(m: ClaudeCodeMetricTypeView) -> MetricCategory {
    match m {
        ClaudeCodeMetricTypeView::SessionCount => MetricCategory::Session,
        ClaudeCodeMetricTypeView::SessionDuration => MetricCategory::Session,
        ClaudeCodeMetricTypeView::TokenUsage(_) => MetricCategory::Usage,
        ClaudeCodeMetricTypeView::CostUsage => MetricCategory::Cost,
        ClaudeCodeMetricTypeView::CommitCount => MetricCategory::Productivity,
        ClaudeCodeMetricTypeView::PullRequestCount => MetricCategory::Productivity,
        ClaudeCodeMetricTypeView::LinesOfCode(_) => MetricCategory::Productivity,
        ClaudeCodeMetricTypeView::ToolUsage(_) => MetricCategory::Tools,
        ClaudeCodeMetricTypeView::ErrorRate => MetricCategory::Errors,
        ClaudeCodeMetricTypeView::ResponseTime => MetricCategory::Performance,
        ClaudeCodeMetricTypeView::Custom(_) => MetricCategory::Custom,
    }
}

impl EnhancedClaudeMetric {
    /// Builds an enhanced metric from basic metric data: classifies the name
    /// and labels and pulls the user and session context out of the labels.
    pub fn from_basic_metric(
        name: String,
        value: MetricValue,
        timestamp: Timestamp,
        labels: AttrMap,
    ) -> (r: EnhancedClaudeMetric)
        requires
            labels.wf(),
        ensures
            r.metric_type@ == spec_classify_enhanced(name@, labels@),
            r.name@ == name@,
            r.value == value,
            r.timestamp == timestamp,
            r.labels@ == labels@,
            r.labels.wf(),
            opt_string_view(r.user_id) == spec_opt_label(labels@, "user.id"@),
            opt_string_view(r.user_email) == spec_opt_label(labels@, "user.email"@),
            opt_string_view(r.organization_id) == spec_opt_label(labels@, "organization.id"@),
            opt_string_view(r.session_id) == spec_opt_label(labels@, "session.id"@),
            opt_string_view(r.version) == spec_opt_label(labels@, "version"@),
            opt_string_view(r.host) == spec_opt_label(labels@, "host"@),
            opt_string_view(r.service) == spec_opt_label(labels@, "service"@),
    {
        let metric_type = MetricClassifier::classify_metric(name.as_str(), &labels);
        let user_context = MetricClassifier::extract_user_context(&labels);
        let session_context = MetricClassifier::extract_session_context(&labels);
        EnhancedClaudeMetric {
            metric_type,
            name,
            value,
            timestamp,
            labels,
            user_id: user_context.user_id,
            user_email: user_context.user_email,
            organization_id: user_context.organization_id,
            session_id: session_context.session_id,
            version: session_context.version,
            host: session_context.host,
            service: session_context.service,
        }
    }

    /// Whether this metric is a cost measurement.
    pub fn is_cost_metric(&self) -> (r: bool)
        ensures
            r == (self.metric_type@ is CostUsage),
    {
        matches!(self.metric_type, ClaudeCodeMetricType::CostUsage)
    }

    /// Whether this metric is a token-usage measurement.
    pub fn is_token_metric(&self) -> (r: bool)
        ensures
            r == (self.metric_type@ is TokenUsage),
    {
        matches!(self.metric_type, ClaudeCodeMetricType::TokenUsage(_))
    }

    /// Whether this metric carries productivity data: commits, pull requests
    /// or lines of code.
    pub fn is_productivity_metric(&self) -> (r: bool)
        ensures
            r == (self.metric_type@ is CommitCount || self.metric_type@ is PullRequestCount
                || self.metric_type@ is LinesOfCode),
    {
        matches!(
            self.metric_type,
            ClaudeCodeMetricType::CommitCount
                | ClaudeCodeMetricType::PullRequestCount
                | ClaudeCodeMetricType::LinesOfCode(_)
        )
    }

    /// The category bucket of this metric.
    pub fn get_category(&self) -> (r: MetricCategory)
        ensures
            r == spec_category(self.metric_type@),
    {
        match &self.metric_type {
            ClaudeCodeMetricType::SessionCount => MetricCategory::Session,
            ClaudeCodeMetricType::SessionDuration => MetricCategory::Session,
            ClaudeCodeMetricType::TokenUsage(_) => MetricCategory::Usage,
            ClaudeCodeMetricType::CostUsage => MetricCategory::Cost,
            ClaudeCodeMetricType::CommitCount => MetricCategory::Productivity,
            ClaudeCodeMetricType::PullRequestCount => MetricCategory::Productivity,
            ClaudeCodeMetricType::LinesOfCode(_) => MetricCategory::Productivity,
            ClaudeCodeMetricType::ToolUsage(_) => MetricCategory::Tools,
            ClaudeCodeMetricType::ErrorRate => MetricCategory::Errors,
            ClaudeCodeMetricType::ResponseTime => MetricCategory::Performance,
            ClaudeCodeMetricType::Custom(_) => MetricCategory::Custom,
        }
    }
}

} // verus!
