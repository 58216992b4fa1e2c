//! The batch persistence gateway's verified half: the durable record
//! shapes, the builders that stamp flattened observations with generated
//! identifiers, and the chunk plan that splits a batch into fixed-size
//! chunks whose boundaries never split a record. The storage writes
//! themselves happen outside, one record at a time per chunk.

use vstd::prelude::*;

use crate::attrmap::AttrMap;
use crate::enhanced::{EnhancedClaudeMetric, opt_string_view};
use crate::flatten::ClaudeCodeEvent;
use crate::time::{Timestamp, now_timestamp};
use crate::value::MetricValue;

verus! {

/// How many records one persistence chunk holds at most.
pub const BATCH_SIZE: usize = 100;

/// The typed failures of the storage abstraction.
#[derive(Debug, Clone, PartialEq)]
pub enum DatabaseError {
    Connection(String),
    Query(String),
    Migration(String),
    NotFound,
    InvalidData(String),
}

/// A durable session row.
#[derive(Debug, Clone)]
pub struct SessionRecord {
    pub id: u128,
    pub user_id: String,
    pub start_time: Timestamp,
    pub end_time: Option<Timestamp>,
    pub command_count: u64,
    pub created_at: Timestamp,
    pub updated_at: Timestamp,
}

/// A durable metric row: a generated unique identifier, optional session
/// linkage, and the observation with its label map.
#[derive(Debug, Clone)]
pub struct MetricRecord {
    pub id: u128,
    pub session_id: Option<u128>,
    pub name: String,
    pub timestamp: Timestamp,
    pub value: MetricValue,
    pub labels: AttrMap,
    pub created_at: Timestamp,
}

/// A durable trace row.
#[derive(Debug, Clone)]
pub struct TraceRecord {
    pub id: u128,
    pub session_id: Option<u128>,
    pub trace_id: String,
    pub span_id: String,
    pub parent_span_id: Option<String>,
    pub name: String,
    pub start_time: Timestamp,
    pub end_time: Timestamp,
    pub duration_ns: u64,
    pub attributes: AttrMap,
    pub created_at: Timestamp,
}

/// A durable log row.
#[derive(Debug, Clone)]
pub struct LogRecord {
    pub id: u128,
    pub session_id: Option<u128>,
    pub timestamp: Timestamp,
    pub level: String,
    pub message: String,
    pub attributes: AttrMap,
    pub created_at: Timestamp,
}

/// Whether an identifier carries the version and variant bits of a freshly
/// generated random identifier.
pub open spec fn is_v4_id(id: u128) -> bool {
    (id >> 76) & 0xF == 4 && (id >> 62) & 0x3 == 2
}

/// Relies on uuid's `Uuid::new_v4` and `Uuid::as_u128`: the generator masks
/// the random bits so that the version nibble is four and the variant bits
/// are one-zero; nothing else is promised of a random identifier.
#[verifier::external_body]
pub(crate) fn fresh_record_id() -> (r: u128)
    ensures
        is_v4_id(r),
{
    uuid::Uuid::new_v4().as_u128()
}

/// What parsing an identifier string yields: the identifier's 128 bits when
/// the text is a well-formed identifier, nothing otherwise. The outcome
/// depends on the characters alone.
pub uninterp spec fn uuid_parse(s: Seq<char>) -> Option<u128>;

/// Relies on uuid's `Uuid::parse_str` (with `Uuid::as_u128`): accepts
/// hexadecimal identifier text with optional hyphens, braces or a URN
/// prefix, rejects everything else — in particular the empty string — and
/// depends on its input alone.
#[verifier::external_body]
pub(crate) fn parse_uuid_str(s: &str) -> (r: Option<u128>)
    ensures
        r == uuid_parse(s@),
        s@.len() == 0 ==> r is None,
{
    match uuid::Uuid::parse_str(s) {
        Ok(u) => Some(u.as_u128()),
        Err(_) => None,
    }
}

/// The session linkage of a record: the parsed session identifier when the
/// observation names one that parses, nothing otherwise.
pub open spec fn spec_session_link(session: Option<Seq<char>>) -> Option<u128> {
    match session {
        Some(s) => uuid_parse(s),
        None => None,
    }
}

fn session_link(session: &Option<String>) -> (r: Option<u128>)
    ensures
        r == spec_session_link(opt_string_view(*session)),
{
    match session {
        Some(s) => parse_uuid_str(s.as_str()),
        None => None,
    }
}

/// Builds the durable row for one enhanced metric: a fresh identifier, the
/// session linkage parsed from the metric's session context, and the
/// observation's own fields; the creation stamp is the wall-clock time of
/// the call.
pub fn build_metric_record(metric: &EnhancedClaudeMetric) -> (r: MetricRecord)
    requires
        metric.labels.wf(),
    ensures
        is_v4_id(r.id),
        r.session_id == spec_session_link(opt_string_view(metric.session_id)),
        r.name@ == metric.name@,
        r.timestamp == metric.timestamp,
        r.value == metric.value,
        r.labels.wf(),
        r.labels@ == metric.labels@,
        r.created_at.wf(),
        r.created_at.secs >= 0,
{
    MetricRecord {
        id: fresh_record_id(),
        session_id: session_link(&metric.session_id),
        name: metric.name.clone(),
        timestamp: metric.timestamp,
        value: metric.value,
        labels: metric.labels.duplicate(),
        created_at: now_timestamp(),
    }
}

/// Builds the durable row for one flattened event: a fresh identifier, the
/// parsed session linkage, the event name as the message at `INFO` level;
/// the creation stamp is the wall-clock time of the call.
pub fn build_log_record(event: &ClaudeCodeEvent) -> (r: LogRecord)
    requires
        event.attributes.wf(),
    ensures
        is_v4_id(r.id),
        r.session_id == spec_session_link(opt_string_view(event.session_id)),
        r.timestamp == event.timestamp,
        r.level@ == "INFO"@,
        r.message@ == event.event_type@,
        r.attributes.wf(),
        r.attributes@ == event.attributes@,
        r.created_at.wf(),
        r.created_at.secs >= 0,
{
    LogRecord {
        id: fresh_record_id(),
        session_id: session_link(&event.session_id),
        timestamp: event.timestamp,
        level: String::from_str("INFO"),
        message: event.event_type.clone(),
        attributes: event.attributes.duplicate(),
        created_at: now_timestamp(),
    }
}

/// How many writes of a batch failed: the number of failed outcomes among
/// the per-record write results.
pub open spec fn spec_failure_count(outcomes: Seq<Result<(), DatabaseError>>) -> int
    decreases outcomes.len(),
{
    if outcomes.len() == 0 {
        0
    } else {
        spec_failure_count(outcomes.drop_last()) + (if outcomes.last() is Err {
            1int
        } else {
            0int
        })
    }
}

/// Counts the failed writes of a batch, so that partial failure can be
/// surfaced instead of silently dropped; one failed record never hides or
/// aborts the others.
#[verifier::loop_isolation(false)]
pub fn count_write_failures(outcomes: &Vec<Result<(), DatabaseError>>) -> (r: usize)
    ensures
        r == spec_failure_count(outcomes@),
        r <= outcomes@.len(),
{
    let n = outcomes.len();
    let mut count: usize = 0;
    let mut i: usize = 0;
    while i < n
        invariant
            i <= n,
            count == spec_failure_count(outcomes@.take(i as int)),
            count <= i,
        decreases n - i,
    {
        if outcomes[i].is_err() {
            count += 1;
        }
        proof {
            assert(outcomes@.take(i + 1 as int).drop_last() =~= outcomes@.take(i as int));
            assert(outcomes@.take(i + 1 as int).last() == outcomes@[i as int]);
        }
        i += 1;
    }
    proof {
        assert(outcomes@.take(n as int) =~= outcomes@);
    }
    count
}

/// The chunk contents as abstract sequences.
pub open spec fn chunk_views<T>(chunks: Seq<Vec<T>>) -> Seq<Seq<T>> {
    chunks.map_values(|c: Vec<T>| c@)
}

/// Splits a batch into the chunk plan of the persistence gateway: chunks of
/// one hundred records in input order, the last chunk holding the
/// remainder. Every record lands in exactly one chunk — concatenating the
/// chunks gives the batch back — and no chunk is empty or oversized.
#[verifier::loop_isolation(false)]
pub fn chunk_records<T>(records: Vec<T>) -> (chunks: Vec<Vec<T>>)
    ensures
        chunk_views(chunks@).flatten_alt() == records@,
        forall|i: int|
            0 <= i < chunks@.len() ==> 1 <= (#[trigger] chunks@[i])@.len() <= BATCH_SIZE,
        forall|i: int| 0 <= i < chunks@.len() - 1 ==> (#[trigger] chunks@[i])@.len() == BATCH_SIZE,
        records@.len() == 0 ==> chunks@.len() == 0,
        records@.len() > 0 ==> BATCH_SIZE * (chunks@.len() - 1) < records@.len() <= BATCH_SIZE
            * chunks@.len(),
        chunks@.len() > 0 ==> chunks@.last()@.len() == records@.len() - BATCH_SIZE * (
        chunks@.len() - 1),
{
    let mut rest = records;
    let mut chunks: Vec<Vec<T>> = Vec::new();
    proof {
        assert(chunk_views(chunks@) =~= Seq::<Seq<T>>::empty());
        assert(chunk_views(chunks@).flatten_alt() + rest@ =~= records@);
    }
    while rest.len() > BATCH_SIZE
        invariant
            chunk_views(chunks@).flatten_alt() + rest@ == records@,
            forall|i: int|
                0 <= i < chunks@.len() ==> (#[trigger] chunks@[i])@.len() == BATCH_SIZE,
            BATCH_SIZE * chunks@.len() + rest@.len() == records@.len(),
        decreases rest@.len(),
    {
        let ghost chunks0 = chunks@;
        let ghost rest0 = rest@;
        let tail = rest.split_off(BATCH_SIZE);
        chunks.push(rest);
        rest = tail;
        proof {
            assert(chunk_views(chunks@) =~= chunk_views(chunks0).push(
                rest0.subrange(0, BATCH_SIZE as int),
            ));
            assert(chunk_views(chunks@).drop_last() =~= chunk_views(chunks0));
            assert(chunk_views(chunks@).flatten_alt() + rest@ =~= records@);
        }
    }
    if rest.len() > 0 {
        let ghost chunks0 = chunks@;
        let ghost rest0 = rest@;
        chunks.push(rest);
        proof {
            assert(chunk_views(chunks@) =~= chunk_views(chunks0).push(rest0));
            assert(chunk_views(chunks@).drop_last() =~= chunk_views(chunks0));
            assert(chunk_views(chunks@).flatten_alt() =~= records@);
        }
    } else {
        proof {
            assert(chunk_views(chunks@).flatten_alt() =~= records@);
        }
    }
    chunks
}

} // verus!
