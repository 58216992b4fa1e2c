//! The session aggregator: a per-session rolling summary folded from
//! classified records, and an explicit owned store keyed by session
//! identifier. Records without a session identifier are ignored by the
//! store; every fold stamps the summary with the aggregation-time wall
//! clock, not the record's own timestamp.

use vstd::prelude::*;

use crate::classify::{MetricTypeView, EventTypeView, ProcessedMetric, ProcessedEvent, TokenType, CodeChangeType};
use crate::time::{Timestamp, now_timestamp};
use crate::value::{sat_u64, sat_i128, sat_add_u64};

verus! {

/// The counter map denoted by an association list of tool names.
pub open spec fn counts_of(pairs: Seq<(String, u64)>) -> Map<Seq<char>, u64>
    decreases pairs.len(),
{
    if pairs.len() == 0 {
        Map::empty()
    } else {
        counts_of(pairs.drop_last()).insert(pairs.last().0@, pairs.last().1)
    }
}

/// No two entries share a tool name.
pub open spec fn unique_count_keys(pairs: Seq<(String, u64)>) -> bool {
    forall|i: int, j: int| 0 <= i < j < pairs.len() ==> pairs[i].0@ != pairs[j].0@
}

proof fn lemma_counts_of_index(pairs: Seq<(String, u64)>, i: int)
    requires
        unique_count_keys(pairs),
        0 <= i < pairs.len(),
    ensures
        counts_of(pairs).contains_key(pairs[i].0@),
        counts_of(pairs)[pairs[i].0@] == pairs[i].1,
    decreases pairs.len(),
{
    if i < pairs.len() - 1 {
        lemma_counts_of_index(pairs.drop_last(), i);
    }
}

proof fn lemma_counts_of_absent(pairs: Seq<(String, u64)>, k: Seq<char>)
    requires
        forall|i: int| 0 <= i < pairs.len() ==> pairs[i].0@ != k,
    ensures
        !counts_of(pairs).contains_key(k),
    decreases pairs.len(),
{
    if pairs.len() > 0 {
        lemma_counts_of_absent(pairs.drop_last(), k);
    }
}

proof fn lemma_counts_of_update(pairs: Seq<(String, u64)>, i: int, p: (String, u64))
    requires
        unique_count_keys(pairs),
        0 <= i < pairs.len(),
        pairs[i].0@ == p.0@,
    ensures
        counts_of(pairs.update(i, p)) == counts_of(pairs).insert(p.0@, p.1),
    decreases pairs.len(),
{
    let upd = pairs.update(i, p);
    if i == pairs.len() - 1 {
        assert(upd.drop_last() =~= pairs.drop_last());
        assert(counts_of(upd) =~= counts_of(pairs).insert(p.0@, p.1));
    } else {
        let inner = pairs.drop_last();
        assert(upd.drop_last() =~= inner.update(i, p));
        lemma_counts_of_update(inner, i, p);
        assert(pairs.last().0@ != p.0@);
        assert(counts_of(upd) =~= counts_of(pairs).insert(p.0@, p.1));
    }
}

/// Usage counters keyed by tool name; insertion order is irrelevant to the
/// abstract value.
#[derive(Debug, Clone)]
pub struct CountMap {
    pairs: Vec<(String, u64)>,
}

impl View for CountMap {
    type V = Map<Seq<char>, u64>;

    closed spec fn view(&self) -> Map<Seq<char>, u64> {
        counts_of(self.pairs@)
    }
}

impl CountMap {
    /// Keys are pairwise distinct.
    pub closed spec fn wf(self) -> bool {
        unique_count_keys(self.pairs@)
    }

    /// An empty counter map.
    pub fn new() -> (r: CountMap)
        ensures
            r.wf(),
            r@ == Map::<Seq<char>, u64>::empty(),
    {
        CountMap { pairs: Vec::new() }
    }

    /// The counter for a key, zero when the key was never counted.
    pub fn get_count(&self, key: &str) -> (r: u64)
        requires
            self.wf(),
        ensures
            r == (if self@.contains_key(key@) {
                self@[key@]
            } else {
                0
            }),
    {
        let n = self.pairs.len();
        let mut i: usize = 0;
        while i < n
            invariant
                i <= n,
                n == self.pairs@.len(),
                self.wf(),
                forall|j: int| 0 <= j < i ==> self.pairs@[j].0@ != key@,
            decreases n - i,
        {
            if crate::strutil::str_eq(self.pairs[i].0.as_str(), key) {
                proof {
                    lemma_counts_of_index(self.pairs@, i as int);
                }
                return self.pairs[i].1;
            }
            i += 1;
        }
        proof {
            lemma_counts_of_absent(self.pairs@, key@);
        }
        0
    }

    /// Adds one to the counter for a key, creating it at one; the counter
    /// saturates at its maximum.
    #[verifier::loop_isolation(false)]
    pub fn increment(&mut self, key: String)
        requires
            old(self).wf(),
        ensures
            final(self).wf(),
            final(self)@ == old(self)@.insert(
                key@,
                sat_u64(
                    (if old(self)@.contains_key(key@) {
                        old(self)@[key@]
                    } else {
                        0
                    }) + 1,
                ) as u64,
            ),
    {
        let n = self.pairs.len();
        let mut i: usize = 0;
        while i < n
            invariant
                i <= n,
                self == old(self),
                forall|j: int| 0 <= j < i ==> self.pairs@[j].0@ != key@,
            decreases n - i,
        {
            if crate::strutil::str_eq(self.pairs[i].0.as_str(), key.as_str()) {
                let bumped = sat_add_u64(self.pairs[i].1, 1);
                proof {
                    lemma_counts_of_index(self.pairs@, i as int);
                    lemma_counts_of_update(self.pairs@, i as int, (key, bumped));
                }
                let ghost prev = self.pairs@;
                self.pairs.set(i, (key, bumped));
                proof {
                    let np = self.pairs@;
                    assert forall|a: int, b: int|
                        0 <= a < b < np.len() implies np[a].0@ != np[b].0@ by {
                        assert(prev[a].0@ != prev[b].0@);
                        assert(prev[i as int].0@ == key@);
                    }
                }
                return ;
            }
            i += 1;
        }
        proof {
            lemma_counts_of_absent(self.pairs@, key@);
        }
        self.pairs.push((key, 1));
        proof {
            assert(self.pairs@.drop_last() =~= old(self).pairs@);
        }
    }
}

/// The abstract value of a session summary: every counter, the cost in
/// millionths, the tool counters and the last-touched marker.
pub struct SessionSummaryView {
    pub session_id: Seq<char>,
    pub total_tokens_input: u64,
    pub total_tokens_output: u64,
    pub total_tokens_cache_creation: u64,
    pub total_tokens_cache_read: u64,
    pub total_cost_micros: int,
    pub total_commits: u64,
    pub total_pull_requests: u64,
    pub lines_added: u64,
    pub lines_removed: u64,
    pub tool_usage: Map<Seq<char>, u64>,
    pub api_requests: u64,
    pub api_failures: u64,
    pub last_updated: Timestamp,
}

/// A per-session rolling aggregate, owned by the session store and touched
/// on every record that names its session.
#[derive(Debug, Clone)]
pub struct SessionSummary {
    pub session_id: String,
    pub total_tokens_input: u64,
    pub total_tokens_output: u64,
    pub total_tokens_cache_creation: u64,
    pub total_tokens_cache_read: u64,
    pub total_cost: crate::value::MetricValue,
    pub total_commits: u64,
    pub total_pull_requests: u64,
    pub lines_added: u64,
    pub lines_removed: u64,
    pub tool_usage: CountMap,
    pub api_requests: u64,
    pub api_failures: u64,
    pub last_updated: Timestamp,
}

impl View for SessionSummary {
    type V = SessionSummaryView;

    open spec fn view(&self) -> SessionSummaryView {
        SessionSummaryView {
            session_id: self.session_id@,
            total_tokens_input: self.total_tokens_input,
            total_tokens_output: self.total_tokens_output,
            total_tokens_cache_creation: self.total_tokens_cache_creation,
            total_tokens_cache_read: self.total_tokens_cache_read,
            total_cost_micros: self.total_cost.micros as int,
            total_commits: self.total_commits,
            total_pull_requests: self.total_pull_requests,
            lines_added: self.lines_added,
            lines_removed: self.lines_removed,
            tool_usage: self.tool_usage@,
            api_requests: self.api_requests,
            api_failures: self.api_failures,
            last_updated: self.last_updated,
        }
    }
}

/// A summary with every counter at zero for the given session.
pub open spec fn empty_summary_view(session_id: Seq<char>, last_updated: Timestamp) -> SessionSummaryView {
    SessionSummaryView {
        session_id: session_id,
        total_tokens_input: 0,
        total_tokens_output: 0,
        total_tokens_cache_creation: 0,
        total_tokens_cache_read: 0,
        total_cost_micros: 0,
        total_commits: 0,
        total_pull_requests: 0,
        lines_added: 0,
        lines_removed: 0,
        tool_usage: Map::empty(),
        api_requests: 0,
        api_failures: 0,
        last_updated: last_updated,
    }
}

/// The summary after folding in one classified metric: the matching counter
/// bucket grows by the value's whole part (the cost bucket by its exact
/// millionths), unmatched kinds change no bucket, and the last-touched
/// marker becomes the aggregation time.
pub open spec fn spec_apply_metric(
    s: SessionSummaryView,
    kind: MetricTypeView,
    whole: int,
    micros: int,
    now: Timestamp,
) -> SessionSummaryView {
    let bumped = match kind {
        MetricTypeView::TokenUsage { token_type: TokenType::Input } => (SessionSummaryView {
            total_tokens_input: sat_u64(s.total_tokens_input + whole) as u64,
            ..s
        }),
        MetricTypeView::TokenUsage { token_type: TokenType::Output } => (SessionSummaryView {
            total_tokens_output: sat_u64(s.total_tokens_output + whole) as u64,
            ..s
        }),
        MetricTypeView::TokenUsage { token_type: TokenType::CacheCreation } => (SessionSummaryView {
            total_tokens_cache_creation: sat_u64(s.total_tokens_cache_creation + whole) as u64,
            ..s
        }),
        MetricTypeView::TokenUsage { token_type: TokenType::CacheRead } => (SessionSummaryView {
            total_tokens_cache_read: sat_u64(s.total_tokens_cache_read + whole) as u64,
            ..s
        }),
        MetricTypeView::CostUsage { model: _ } => (SessionSummaryView {
            total_cost_micros: sat_i128(s.total_cost_micros + micros),
            ..s
        }),
        MetricTypeView::LinesOfCode { change_type: CodeChangeType::Added } => (SessionSummaryView {
            lines_added: sat_u64(s.lines_added + whole) as u64,
            ..s
        }),
        MetricTypeView::LinesOfCode { change_type: CodeChangeType::Removed } => (SessionSummaryView {
            lines_removed: sat_u64(s.lines_removed + whole) as u64,
            ..s
        }),
        MetricTypeView::CommitCount => (SessionSummaryView {
            total_commits: sat_u64(s.total_commits + whole) as u64,
            ..s
        }),
        MetricTypeView::PullRequestCount => (SessionSummaryView {
            total_pull_requests: sat_u64(s.total_pull_requests + whole) as u64,
            ..s
        }),
        MetricTypeView::SessionCount => s,
        MetricTypeView::Other => s,
    };
    SessionSummaryView { last_updated: now, ..bumped }
}

/// The summary after folding in one classified event: a tool result bumps
/// that tool's counter, API requests and failures bump theirs, other kinds
/// change no counter, and the last-touched marker becomes the aggregation
/// time.
pub open spec fn spec_apply_event(s: SessionSummaryView, kind: EventTypeView, now: Timestamp) -> SessionSummaryView {
    let bumped = match kind {
        EventTypeView::ToolResult { tool_name } => (SessionSummaryView {
            tool_usage: s.tool_usage.insert(
                tool_name,
                sat_u64(
                    (if s.tool_usage.contains_key(tool_name) {
                        s.tool_usage[tool_name]
                    } else {
                        0
                    }) + 1,
                ) as u64,
            ),
            ..s
        }),
        EventTypeView::ApiRequest { endpoint: _ } => (SessionSummaryView {
            api_requests: sat_u64(s.api_requests + 1) as u64,
            ..s
        }),
        EventTypeView::ApiRequestFailed { error_code: _ } => (SessionSummaryView {
            api_failures: sat_u64(s.api_failures + 1) as u64,
            ..s
        }),
        _ => s,
    };
    SessionSummaryView { last_updated: now, ..bumped }
}

impl SessionSummary {
    /// The tool counters have distinct keys.
    pub open spec fn wf(self) -> bool {
        self.tool_usage.wf()
    }

    /// A fresh summary for a session: every counter at zero, last touched at
    /// the wall-clock time of creation.
    pub fn new(session_id: String) -> (r: SessionSummary)
        ensures
            r.wf(),
            r@ == empty_summary_view(session_id@, r.last_updated),
            r.last_updated.wf(),
    {
        SessionSummary {
            session_id,
            total_tokens_input: 0,
            total_tokens_output: 0,
            total_tokens_cache_creation: 0,
            total_tokens_cache_read: 0,
            total_cost: crate::value::MetricValue::zero(),
            total_commits: 0,
            total_pull_requests: 0,
            lines_added: 0,
            lines_removed: 0,
            tool_usage: CountMap::new(),
            api_requests: 0,
            api_failures: 0,
            last_updated: now_timestamp(),
        }
    }

    /// Folds one classified metric into the summary at the given
    /// aggregation time.
    pub fn apply_metric(&mut self, metric: &ProcessedMetric, now: Timestamp)
        requires
            old(self).wf(),
        ensures
            final(self).wf(),
            final(self)@ == spec_apply_metric(
                old(self)@,
                metric.metric_type@,
                metric.value.spec_whole(),
                metric.value.micros as int,
                now,
            ),
    {
        let whole = metric.value.whole_part();
        match &metric.metric_type {
            crate::classify::MetricType::TokenUsage { token_type } => {
                match token_type {
                    TokenType::Input => {
                        self.total_tokens_input = sat_add_u64(self.total_tokens_input, whole);
                    },
                    TokenType::Output => {
                        self.total_tokens_output = sat_add_u64(self.total_tokens_output, whole);
                    },
                    TokenType::CacheCreation => {
                        self.total_tokens_cache_creation = sat_add_u64(
                            self.total_tokens_cache_creation,
                            whole,
                        );
                    },
                    TokenType::CacheRead => {
                        self.total_tokens_cache_read = sat_add_u64(
                            self.total_tokens_cache_read,
                            whole,
                        );
                    },
                }
            },
            crate::classify::MetricType::CostUsage { model: _ } => {
                self.total_cost = self.total_cost.saturating_add(&metric.value);
            },
            crate::classify::MetricType::LinesOfCode { change_type } => {
                match change_type {
                    CodeChangeType::Added => {
                        self.lines_added = sat_add_u64(self.lines_added, whole);
                    },
                    CodeChangeType::Removed => {
                        self.lines_removed = sat_add_u64(self.lines_removed, whole);
                    },
                }
            },
            crate::classify::MetricType::CommitCount => {
                self.total_commits = sat_add_u64(self.total_commits, whole);
            },
            crate::classify::MetricType::PullRequestCount => {
                self.total_pull_requests = sat_add_u64(self.total_pull_requests, whole);
            },
            crate::classify::MetricType::SessionCount => {},
            crate::classify::MetricType::Other => {},
        }
        self.last_updated = now;
    }

    /// Folds one classified event into the summary at the given aggregation
    /// time.
    pub fn apply_event(&mut self, event: &ProcessedEvent, now: Timestamp)
        requires
            old(self).wf(),
        ensures
            final(self).wf(),
            final(self)@ == spec_apply_event(old(self)@, event.event_type@, now),
    {
        match &event.event_type {
            crate::classify::EventType::ToolResult { tool_name } => {
                self.tool_usage.increment(tool_name.clone());
            },
            crate::classify::EventType::ApiRequest { endpoint: _ } => {
                self.api_requests = sat_add_u64(self.api_requests, 1);
            },
            crate::classify::EventType::ApiRequestFailed { error_code: _ } => {
                self.api_failures = sat_add_u64(self.api_failures, 1);
            },
            _ => {},
        }
        self.last_updated = now;
    }

    /// Folds one classified metric in at the wall-clock time of the call.
    pub fn update_from_metric(&mut self, metric: &ProcessedMetric)
        requires
            old(self).wf(),
        ensures
            final(self).wf(),
            final(self).last_updated.wf(),
            final(self)@ == spec_apply_metric(
                old(self)@,
                metric.metric_type@,
                metric.value.spec_whole(),
                metric.value.micros as int,
                final(self).last_updated,
            ),
    {
        let now = now_timestamp();
        self.apply_metric(metric, now);
    }

    /// Folds one classified event in at the wall-clock time of the call.
    pub fn update_from_event(&mut self, event: &ProcessedEvent)
        requires
            old(self).wf(),
        ensures
            final(self).wf(),
            final(self).last_updated.wf(),
            final(self)@ == spec_apply_event(old(self)@, event.event_type@, final(self).last_updated),
    {
        let now = now_timestamp();
        self.apply_event(event, now);
    }
}

impl Default for SessionSummary {
    /// A fresh summary with an empty session identifier.
    fn default() -> (r: SessionSummary)
        ensures
            r.wf(),
            r@ == empty_summary_view(Seq::empty(), r.last_updated),
            r.last_updated.wf(),
    {
        SessionSummary::new(String::new())
    }
}

/// Token-usage records accumulate: folding an input-token record and then
/// another into a summary adds both whole values to the input counter, and
/// the last-touched marker strictly increases when the aggregation clock
/// advanced between the folds.
pub proof fn lemma_token_input_accumulates(
    s: SessionSummaryView,
    kind1: MetricTypeView,
    kind2: MetricTypeView,
    w1: int,
    w2: int,
    c1: int,
    c2: int,
    now1: Timestamp,
    now2: Timestamp,
)
    requires
        kind1 == (MetricTypeView::TokenUsage { token_type: TokenType::Input }),
        kind2 == (MetricTypeView::TokenUsage { token_type: TokenType::Input }),
        0 <= w1,
        0 <= w2,
        s.total_tokens_input + w1 + w2 <= u64::MAX,
        now1.spec_lt(now2),
    ensures
        spec_apply_metric(spec_apply_metric(s, kind1, w1, c1, now1), kind2, w2, c2, now2)
            .total_tokens_input == s.total_tokens_input + w1 + w2,
        spec_apply_metric(s, kind1, w1, c1, now1).last_updated.spec_lt(
            spec_apply_metric(spec_apply_metric(s, kind1, w1, c1, now1), kind2, w2, c2, now2)
                .last_updated,
        ),
{
}

/// An explicit owned store of session summaries, keyed by session
/// identifier; a summary is created lazily on the first record that names
/// its session.
#[derive(Debug)]
pub struct SessionStore {
    entries: Vec<SessionSummary>,
}

/// The store contents denoted by the entry list.
pub open spec fn sessions_of(entries: Seq<SessionSummary>) -> Map<Seq<char>, SessionSummary>
    decreases entries.len(),
{
    if entries.len() == 0 {
        Map::empty()
    } else {
        sessions_of(entries.drop_last()).insert(entries.last().session_id@, entries.last())
    }
}

proof fn lemma_sessions_of_index(entries: Seq<SessionSummary>, i: int)
    requires
        forall|a: int, b: int|
            0 <= a < b < entries.len() ==> entries[a].session_id@ != entries[b].session_id@,
        0 <= i < entries.len(),
    ensures
        sessions_of(entries).contains_key(entries[i].session_id@),
        sessions_of(entries)[entries[i].session_id@] == entries[i],
    decreases entries.len(),
{
    if i < entries.len() - 1 {
        lemma_sessions_of_index(entries.drop_last(), i);
    }
}

proof fn lemma_sessions_of_absent(entries: Seq<SessionSummary>, k: Seq<char>)
    requires
        forall|i: int| 0 <= i < entries.len() ==> entries[i].session_id@ != k,
    ensures
        !sessions_of(entries).contains_key(k),
    decreases entries.len(),
{
    if entries.len() > 0 {
        lemma_sessions_of_absent(entries.drop_last(), k);
    }
}

proof fn lemma_sessions_of_update(entries: Seq<SessionSummary>, i: int, e: SessionSummary)
    requires
        forall|a: int, b: int|
            0 <= a < b < entries.len() ==> entries[a].session_id@ != entries[b].session_id@,
        0 <= i < entries.len(),
        entries[i].session_id@ == e.session_id@,
    ensures
        sessions_of(entries.update(i, e)) == sessions_of(entries).insert(e.session_id@, e),
    decreases entries.len(),
{
    let upd = entries.update(i, e);
    if i == entries.len() - 1 {
        assert(upd.drop_last() =~= entries.drop_last());
        assert(sessions_of(upd) =~= sessions_of(entries).insert(e.session_id@, e));
    } else {
        let inner = entries.drop_last();
        assert(upd.drop_last() =~= inner.update(i, e));
        lemma_sessions_of_update(inner, i, e);
        assert(entries.last().session_id@ != e.session_id@);
        assert(sessions_of(upd) =~= sessions_of(entries).insert(e.session_id@, e));
    }
}

impl View for SessionStore {
    type V = Map<Seq<char>, SessionSummary>;

    closed spec fn view(&self) -> Map<Seq<char>, SessionSummary> {
        sessions_of(self.entries@)
    }
}

impl SessionStore {
    /// Entries have distinct session identifiers and well-formed summaries.
    pub closed spec fn wf(self) -> bool {
        (forall|a: int, b: int|
            0 <= a < b < self.entries@.len() ==> self.entries@[a].session_id@
                != self.entries@[b].session_id@) && (forall|i: int|
            0 <= i < self.entries@.len() ==> (#[trigger] self.entries@[i]).wf())
    }

    /// An empty store.
    pub fn new() -> (r: SessionStore)
        ensures
            r.wf(),
            r@ == Map::<Seq<char>, SessionSummary>::empty(),
    {
        SessionStore { entries: Vec::new() }
    }

    /// Looks a session's summary up.
    pub fn get_summary<'a>(&'a self, session_id: &str) -> (r: Option<&'a SessionSummary>)
        requires
            self.wf(),
        ensures
            match r {
                Some(s) => self@.contains_key(session_id@) && *s == self@[session_id@],
                None => !self@.contains_key(session_id@),
            },
    {
        let n = self.entries.len();
        let mut i: usize = 0;
        while i < n
            invariant
                i <= n,
                n == self.entries@.len(),
                self.wf(),
                forall|j: int| 0 <= j < i ==> self.entries@[j].session_id@ != session_id@,
            decreases n - i,
        {
            if crate::strutil::str_eq(self.entries[i].session_id.as_str(), session_id) {
                proof {
                    lemma_sessions_of_index(self.entries@, i as int);
                }
                return Some(&self.entries[i]);
            }
            i += 1;
        }
        proof {
            lemma_sessions_of_absent(self.entries@, session_id@);
        }
        None
    }

    /// Folds one classified metric into the summary of the session it
    /// names, creating that summary first if the session is new; a record
    /// without a session identifier leaves the store unchanged.
    #[verifier::loop_isolation(false)]
    pub fn fold_metric(&mut self, metric: &ProcessedMetric, now: Timestamp)
        requires
            old(self).wf(),
        ensures
            final(self).wf(),
            match metric.session_id {
                None => final(self)@ == old(self)@,
                Some(id) => final(self)@ == old(self)@.insert(
                    id@,
                    final(self)@[id@],
                ) && final(self)@[id@]@ == spec_apply_metric(
                    if old(self)@.contains_key(id@) {
                        old(self)@[id@]@
                    } else {
                        empty_summary_view(id@, final(self)@[id@].last_updated)
                    },
                    metric.metric_type@,
                    metric.value.spec_whole(),
                    metric.value.micros as int,
                    now,
                ),
            },
    {
        let id = match &metric.session_id {
            Some(id) => id.clone(),
            None => {
                return ;
            },
        };
        let n = self.entries.len();
        let mut i: usize = 0;
        while i < n
            invariant
                i <= n,
                self == old(self),
                forall|j: int| 0 <= j < i ==> self.entries@[j].session_id@ != id@,
            decreases n - i,
        {
            if crate::strutil::str_eq(self.entries[i].session_id.as_str(), id.as_str()) {
                proof {
                    lemma_sessions_of_index(self.entries@, i as int);
                }
                let ghost prev = self.entries@;
                let entry = &mut self.entries[i];
                proof {
                    assert(entry.wf());
                }
                entry.apply_metric(metric, now);
                proof {
                    let np = self.entries@;
                    assert(np == prev.update(i as int, np[i as int]));
                    assert(np[i as int].session_id@ == id@);
                    assert forall|a: int, b: int|
                        0 <= a < b < np.len() implies np[a].session_id@ != np[b].session_id@ by {
                        assert(prev[a].session_id@ != prev[b].session_id@);
                    }
                    lemma_sessions_of_update(prev, i as int, np[i as int]);
                    lemma_sessions_of_index(np, i as int);
                }
                return ;
            }
            i += 1;
        }
        proof {
            lemma_sessions_of_absent(self.entries@, id@);
        }
        let mut fresh = SessionSummary::new(id);
        fresh.apply_metric(metric, now);
        self.entries.push(fresh);
        proof {
            assert(self.entries@.drop_last() =~= old(self).entries@);
            lemma_sessions_of_index(self.entries@, self.entries@.len() - 1);
        }
    }

    /// Folds one classified event into the summary of the session it names,
    /// creating that summary first if the session is new; a record without a
    /// session identifier leaves the store unchanged.
    #[verifier::loop_isolation(false)]
    pub fn fold_event(&mut self, event: &ProcessedEvent, now: Timestamp)
        requires
            old(self).wf(),
        ensures
            final(self).wf(),
            match event.session_id {
                None => final(self)@ == old(self)@,
                Some(id) => final(self)@ == old(self)@.insert(
                    id@,
                    final(self)@[id@],
                ) && final(self)@[id@]@ == spec_apply_event(
                    if old(self)@.contains_key(id@) {
                        old(self)@[id@]@
                    } else {
                        empty_summary_view(id@, final(self)@[id@].last_updated)
                    },
                    event.event_type@,
                    now,
                ),
            },
    {
        let id = match &event.session_id {
            Some(id) => id.clone(),
            None => {
                return ;
            },
        };
        let n = self.entries.len();
        let mut i: usize = 0;
        while i < n
            invariant
                i <= n,
                self == old(self),
                forall|j: int| 0 <= j < i ==> self.entries@[j].session_id@ != id@,
            decreases n - i,
        {
            if crate::strutil::str_eq(self.entries[i].session_id.as_str(), id.as_str()) {
                proof {
                    lemma_sessions_of_index(self.entries@, i as int);
                }
                let ghost prev = self.entries@;
                let entry = &mut self.entries[i];
                proof {
                    assert(entry.wf());
                }
                entry.apply_event(event, now);
                proof {
                    let np = self.entries@;
                    assert(np == prev.update(i as int, np[i as int]));
                    assert(np[i as int].session_id@ == id@);
                    assert forall|a: int, b: int|
                        0 <= a < b < np.len() implies np[a].session_id@ != np[b].session_id@ by {
                        assert(prev[a].session_id@ != prev[b].session_id@);
                    }
                    lemma_sessions_of_update(prev, i as int, np[i as int]);
                    lemma_sessions_of_index(np, i as int);
                }
                return ;
            }
            i += 1;
        }
        proof {
            lemma_sessions_of_absent(self.entries@, id@);
        }
        let mut fresh = SessionSummary::new(id);
        fresh.apply_event(event, now);
        self.entries.push(fresh);
        proof {
            assert(self.entries@.drop_last() =~= old(self).entries@);
            lemma_sessions_of_index(self.entries@, self.entries@.len() - 1);
        }
    }
}

} // verus!
