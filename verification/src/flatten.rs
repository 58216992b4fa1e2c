//! The metric point flattener: walks a resource, scope, metric, data-point
//! hierarchy, merges resource attributes into each data point's attributes
//! (point values win on a shared key), reconstructs timestamps, and emits
//! one flat record per data point — or up to two derived records for a
//! histogram point. Unsupported metric shapes are rejected per metric; the
//! rest of a batch is unaffected.

use vstd::prelude::*;

use crate::attrmap::AttrMap;
use crate::enhanced::{opt_string_view, spec_opt_label};
use crate::rawvalue::{RawValue, norm_of, normalize_value};
use crate::time::{Timestamp, timestamp_from_nanos};
use crate::value::MetricValue;

verus! {

/// One attribute of a wire resource, data point or log record: a key and a
/// possibly absent tagged value.
#[derive(Debug)]
pub struct AttrPair {
    pub key: String,
    pub value: Option<RawValue>,
}

/// The numeric field of a number data point: a floating-point or integer
/// observation.
#[derive(Debug, Clone, Copy)]
pub enum PointValue {
    Double(MetricValue),
    Int(i64),
}

/// One gauge or sum data point.
#[derive(Debug)]
pub struct NumberPoint {
    pub attributes: Vec<AttrPair>,
    pub time_unix_nano: u64,
    pub value: Option<PointValue>,
}

/// One histogram data point; only the observation count and the optional
/// sum are consumed here.
#[derive(Debug)]
pub struct HistogramPoint {
    pub attributes: Vec<AttrPair>,
    pub time_unix_nano: u64,
    pub count: u64,
    pub sum: Option<MetricValue>,
}

/// The data shape of a wire metric; shapes other than gauge, sum and
/// histogram are carried as `Unsupported` and rejected by the flattener.
#[derive(Debug)]
pub enum MetricData {
    Gauge(Vec<NumberPoint>),
    Sum(Vec<NumberPoint>),
    Histogram(Vec<HistogramPoint>),
    Unsupported,
}

/// One metric of a wire export batch.
#[derive(Debug)]
pub struct WireMetric {
    pub name: String,
    pub data: Option<MetricData>,
}

/// One log record of a wire export batch. The body is doubly optional, as
/// on the wire: the outer layer says whether a body message is attached,
/// the inner whether that message carries a value.
#[derive(Debug)]
pub struct WireLogRecord {
    pub time_unix_nano: u64,
    pub attributes: Vec<AttrPair>,
    pub body: Option<Option<RawValue>>,
}

/// A flattened metric observation, one per data point.
#[derive(Debug, Clone)]
pub struct ClaudeCodeMetric {
    pub name: String,
    pub value: MetricValue,
    pub timestamp: Timestamp,
    pub labels: AttrMap,
    pub session_id: Option<String>,
}

/// A flattened log event.
#[derive(Debug, Clone)]
pub struct ClaudeCodeEvent {
    pub event_type: String,
    pub timestamp: Timestamp,
    pub attributes: AttrMap,
    pub session_id: Option<String>,
}

/// The attribute map denoted by a wire attribute list: pairs with a present
/// value are normalized and inserted in order, last occurrence of a key
/// wins, absent values are skipped.
pub open spec fn extract_spec(pairs: Seq<AttrPair>) -> Map<Seq<char>, Seq<char>>
    decreases pairs.len(),
{
    if pairs.len() == 0 {
        Map::empty()
    } else {
        let prev = extract_spec(pairs.drop_last());
        match pairs.last().value {
            Some(v) => prev.insert(pairs.last().key@, norm_of(v)),
            None => prev,
        }
    }
}

/// Builds the attribute map of a wire attribute list.
#[verifier::loop_isolation(false)]
pub fn extract_labels(attributes: &Vec<AttrPair>) -> (r: AttrMap)
    ensures
        r.wf(),
        r@ == extract_spec(attributes@),
{
    let mut out = AttrMap::new();
    let n = attributes.len();
    let mut i: usize = 0;
    while i < n
        invariant
            i <= n,
            out.wf(),
            out@ == extract_spec(attributes@.take(i as int)),
        decreases n - i,
    {
        match &attributes[i].value {
            Some(v) => {
                let text = normalize_value(v);
                out.insert(attributes[i].key.clone(), text);
            },
            None => {},
        }
        proof {
            assert(attributes@.take(i + 1 as int).drop_last() =~= attributes@.take(i as int));
            assert(attributes@.take(i + 1 as int).last() == attributes@[i as int]);
        }
        i += 1;
    }
    proof {
        assert(attributes@.take(n as int) =~= attributes@);
    }
    out
}

/// Builds the attribute map of a log record's attribute list.
pub fn extract_log_attributes(attributes: &Vec<AttrPair>) -> (r: AttrMap)
    ensures
        r.wf(),
        r@ == extract_spec(attributes@),
{
    extract_labels(attributes)
}

/// Normalizes a log body's value, when it has one.
pub fn extract_log_body_string(body: &Option<RawValue>) -> (r: Option<String>)
    ensures
        match r {
            Some(s) => (*body) matches Some(v) && s@ == norm_of(v),
            None => (*body) is None,
        },
{
    match body {
        Some(v) => Some(normalize_value(v)),
        None => None,
    }
}

/// The observation a number data point carries, in millionths: the
/// floating-point field when present, else the integer field scaled, else
/// the defined fallback of zero.
pub open spec fn point_value_micros(v: Option<PointValue>) -> int {
    match v {
        Some(PointValue::Double(mv)) => mv.micros as int,
        Some(PointValue::Int(i)) => i * 1_000_000,
        None => 0,
    }
}

/// Reads the numeric field of a number data point.
pub fn number_point_value(v: &Option<PointValue>) -> (r: MetricValue)
    ensures
        r.micros == point_value_micros(*v),
{
    match v {
        Some(PointValue::Double(mv)) => *mv,
        Some(PointValue::Int(i)) => MetricValue::from_units(*i),
        None => MetricValue::zero(),
    }
}

/// What one flat record must look like: its name and value, labels merged
/// with point attributes winning over resource attributes, the session
/// identifier drawn from the resource's `session.id` attribute, and the
/// timestamp reconstructed from the point's nanosecond field (a zero field
/// yields the ingestion wall-clock time instead).
pub open spec fn flat_record_ok(
    rec: ClaudeCodeMetric,
    name: Seq<char>,
    micros: int,
    attrs: Seq<AttrPair>,
    resource: Map<Seq<char>, Seq<char>>,
    nano: u64,
) -> bool {
    &&& rec.name@ == name
    &&& rec.value.micros == micros
    &&& rec.labels.wf()
    &&& rec.labels@ == resource.union_prefer_right(extract_spec(attrs))
    &&& opt_string_view(rec.session_id) == spec_opt_label(resource, "session.id"@)
    &&& rec.timestamp.wf()
    &&& (nano != 0 ==> rec.timestamp.secs == nano as int / 1_000_000_000 && rec.timestamp.nanos
        == nano as int % 1_000_000_000)
    &&& (nano == 0 ==> rec.timestamp.secs >= 0)
}

/// Which derived records a sequence of histogram points emits: for each
/// point in order, a count record when its observation count is positive,
/// then a sum record when it carries a sum. `true` names a count record,
/// and the index names the point.
pub open spec fn hist_emits(points: Seq<HistogramPoint>) -> Seq<(bool, int)>
    decreases points.len(),
{
    if points.len() == 0 {
        Seq::empty()
    } else {
        let prev = hist_emits(points.drop_last());
        let j = points.len() - 1;
        let p = points.last();
        let with_count = if p.count > 0 {
            prev.push((true, j as int))
        } else {
            prev
        };
        if p.sum is Some {
            with_count.push((false, j as int))
        } else {
            with_count
        }
    }
}

/// What one derived histogram record must look like, for one entry of
/// `hist_emits`: a count record carries the `_count` name and the point's
/// observation count, a sum record the `_sum` name and the point's sum.
pub open spec fn hist_emit_ok(
    rec: ClaudeCodeMetric,
    emit: (bool, int),
    points: Seq<HistogramPoint>,
    name: Seq<char>,
    resource: Map<Seq<char>, Seq<char>>,
) -> bool {
    let which = emit.0;
    let j = emit.1;
    &&& 0 <= j < points.len()
    &&& (which ==> flat_record_ok(
        rec,
        name + "_count"@,
        points[j].count * 1_000_000,
        points[j].attributes@,
        resource,
        points[j].time_unix_nano,
    ))
    &&& (!which ==> flat_record_ok(
        rec,
        name + "_sum"@,
        points[j].sum->0.micros as int,
        points[j].attributes@,
        resource,
        points[j].time_unix_nano,
    ))
}

/// A single histogram point emits exactly one count record when its count
/// is positive and exactly one sum record when it carries a sum: one
/// derived record when only one field is present, both when both are, none
/// when neither.
pub proof fn lemma_histogram_point_emits(p: HistogramPoint)
    ensures
        p.count > 0 && p.sum is Some ==> hist_emits(seq![p]) =~= seq![(true, 0int), (false, 0int)],
        p.count > 0 && p.sum is None ==> hist_emits(seq![p]) =~= seq![(true, 0int)],
        p.count == 0 && p.sum is Some ==> hist_emits(seq![p]) =~= seq![(false, 0int)],
        p.count == 0 && p.sum is None ==> hist_emits(seq![p]) =~= Seq::<(bool, int)>::empty(),
{
    reveal_with_fuel(hist_emits, 2);
    assert(seq![p].drop_last() =~= Seq::<HistogramPoint>::empty());
    assert(hist_emits(Seq::<HistogramPoint>::empty()) =~= Seq::<(bool, int)>::empty());
}

fn resource_session_id(resource_attrs: &AttrMap) -> (r: Option<String>)
    requires
        resource_attrs.wf(),
    ensures
        opt_string_view(r) == spec_opt_label(resource_attrs@, "session.id"@),
{
    match resource_attrs.get("session.id") {
        Some(v) => Some(v.clone()),
        None => None,
    }
}

/// Flattens one wire metric against its resource attributes. Gauge and sum
/// shapes yield one record per data point in input order; a histogram
/// yields its derived count and sum records; a metric without data yields
/// nothing; any other shape is rejected with a per-metric failure naming
/// the metric.
#[verifier::loop_isolation(false)]
pub fn parse_claude_code_metric(metric: &WireMetric, resource_attrs: &AttrMap) -> (r: Result<
    Vec<ClaudeCodeMetric>,
    String,
>)
    requires
        resource_attrs.wf(),
    ensures
        match r {
            Ok(recs) => {
                &&& metric.data is None ==> recs@.len() == 0
                &&& metric.data matches Some(MetricData::Gauge(points)) ==> recs@.len()
                    == points@.len() && (forall|i: int|
                    0 <= i < points@.len() ==> flat_record_ok(
                        #[trigger] recs@[i],
                        metric.name@,
                        point_value_micros(points@[i].value),
                        points@[i].attributes@,
                        resource_attrs@,
                        points@[i].time_unix_nano,
                    ))
                &&& metric.data matches Some(MetricData::Sum(points)) ==> recs@.len()
                    == points@.len() && (forall|i: int|
                    0 <= i < points@.len() ==> flat_record_ok(
                        #[trigger] recs@[i],
                        metric.name@,
                        point_value_micros(points@[i].value),
                        points@[i].attributes@,
                        resource_attrs@,
                        points@[i].time_unix_nano,
                    ))
                &&& metric.data matches Some(MetricData::Histogram(points)) ==> {
                    let emits = hist_emits(points@);
                    recs@.len() == emits.len() && (forall|i: int|
                        0 <= i < emits.len() ==> hist_emit_ok(
                            #[trigger] recs@[i],
                            emits[i],
                            points@,
                            metric.name@,
                            resource_attrs@,
                        ))
                }
                &&& !(metric.data matches Some(MetricData::Unsupported))
            },
            Err(msg) => {
                &&& metric.data matches Some(MetricData::Unsupported)
                &&& msg@ == "Unsupported metric data type for "@ + metric.name@
            },
        },
{
    let session_id = resource_session_id(resource_attrs);
    let mut parsed: Vec<ClaudeCodeMetric> = Vec::new();
    match &metric.data {
        None => Ok(parsed),
        Some(MetricData::Gauge(points)) => {
            let n = points.len();
            let mut i: usize = 0;
            while i < n
                invariant
                    i <= n,
                    parsed@.len() == i,
                    forall|k: int|
                        0 <= k < i ==> flat_record_ok(
                            #[trigger] parsed@[k],
                            metric.name@,
                            point_value_micros(points@[k].value),
                            points@[k].attributes@,
                            resource_attrs@,
                            points@[k].time_unix_nano,
                        ),
                decreases n - i,
            {
                let point = &points[i];
                let point_labels = extract_labels(&point.attributes);
                let labels = resource_attrs.merged_with(&point_labels);
                let timestamp = timestamp_from_nanos(point.time_unix_nano);
                let value = number_point_value(&point.value);
                parsed.push(
                    ClaudeCodeMetric {
                        name: metric.name.clone(),
                        value,
                        timestamp,
                        labels,
                        session_id: clone_opt_string(&session_id),
                    },
                );
                i += 1;
            }
            Ok(parsed)
        },
        Some(MetricData::Sum(points)) => {
            let n = points.len();
            let mut i: usize = 0;
            while i < n
                invariant
                    i <= n,
                    parsed@.len() == i,
                    forall|k: int|
                        0 <= k < i ==> flat_record_ok(
                            #[trigger] parsed@[k],
                            metric.name@,
                            point_value_micros(points@[k].value),
                            points@[k].attributes@,
                            resource_attrs@,
                            points@[k].time_unix_nano,
                        ),
                decreases n - i,
            {
                let point = &points[i];
                let point_labels = extract_labels(&point.attributes);
                let labels = resource_attrs.merged_with(&point_labels);
                let timestamp = timestamp_from_nanos(point.time_unix_nano);
                let value = number_point_value(&point.value);
                parsed.push(
                    ClaudeCodeMetric {
                        name: metric.name.clone(),
                        value,
                        timestamp,
                        labels,
                        session_id: clone_opt_string(&session_id),
                    },
                );
                i += 1;
            }
            Ok(parsed)
        },
        Some(MetricData::Histogram(points)) => {
            let n = points.len();
            let mut i: usize = 0;
            proof {
                reveal_strlit("_count");
                reveal_strlit("_sum");
            }
            while i < n
                invariant
                    i <= n,
                    parsed@.len() == hist_emits(points@.take(i as int)).len(),
                    forall|k: int|
                        0 <= k < parsed@.len() ==> hist_emit_ok(
                            #[trigger] parsed@[k],
                            hist_emits(points@.take(i as int))[k],
                            points@,
                            metric.name@,
                            resource_attrs@,
                        ),
                decreases n - i,
            {
                let ghost parsed0 = parsed@;
                let ghost emits0 = hist_emits(points@.take(i as int));
                let point = &points[i];
                let point_labels = extract_labels(&point.attributes);
                let timestamp = timestamp_from_nanos(point.time_unix_nano);
                if point.count > 0 {
                    let labels = resource_attrs.merged_with(&point_labels);
                    parsed.push(
                        ClaudeCodeMetric {
                            name: metric.name.clone().concat("_count"),
                            value: MetricValue::from_count(point.count),
                            timestamp,
                            labels,
                            session_id: clone_opt_string(&session_id),
                        },
                    );
                }
                match &point.sum {
                    Some(sum) => {
                        let labels = resource_attrs.merged_with(&point_labels);
                        parsed.push(
                            ClaudeCodeMetric {
                                name: metric.name.clone().concat("_sum"),
                                value: *sum,
                                timestamp,
                                labels,
                                session_id: clone_opt_string(&session_id),
                            },
                        );
                    },
                    None => {},
                }
                proof {
                    let cur = points@.take(i + 1 as int);
                    assert(cur.drop_last() =~= points@.take(i as int));
                    assert(cur.last() == points@[i as int]);
                    let p = points@[i as int];
                    if p.count > 0 && p.sum is Some {
                        assert(hist_emits(cur) =~= emits0.push((true, i as int)).push(
                            (false, i as int),
                        ));
                    } else if p.count > 0 {
                        assert(hist_emits(cur) =~= emits0.push((true, i as int)));
                    } else if p.sum is Some {
                        assert(hist_emits(cur) =~= emits0.push((false, i as int)));
                    } else {
                        assert(hist_emits(cur) =~= emits0);
                    }
                    let new_emits = hist_emits(cur);
                    assert(parsed@.len() == new_emits.len());
                    assert forall|k: int| 0 <= k < parsed@.len() implies hist_emit_ok(
                        #[trigger] parsed@[k],
                        new_emits[k],
                        points@,
                        metric.name@,
                        resource_attrs@,
                    ) by {
                        if k < parsed0.len() {
                            assert(hist_emit_ok(
                                parsed0[k],
                                emits0[k],
                                points@,
                                metric.name@,
                                resource_attrs@,
                            ));
                            assert(new_emits[k] == emits0[k]);
                            assert(parsed@[k] == parsed0[k]);
                        } else {
                            assert(new_emits[k].1 == i as int);
                        }
                    }
                }
                i += 1;
            }
            proof {
                assert(points@.take(n as int) =~= points@);
            }
            Ok(parsed)
        },
        Some(MetricData::Unsupported) => {
            proof {
                reveal_strlit("Unsupported metric data type for ");
            }
            let msg = String::from_str("Unsupported metric data type for ").concat(
                metric.name.as_str(),
            );
            proof {
                assert(msg@ =~= "Unsupported metric data type for "@ + metric.name@);
            }
            Err(msg)
        },
    }
}

/// What the event name of a parsed log record is: the normalized body value
/// when the body carries one; `unknown_event` for a body without a value;
/// for no body at all, the merged `event.name` attribute, else the merged
/// `event_type` attribute, else `unknown_event`.
pub open spec fn spec_event_name(
    body: Option<Option<RawValue>>,
    merged: Map<Seq<char>, Seq<char>>,
) -> Seq<char> {
    match body {
        Some(Some(v)) => norm_of(v),
        Some(None) => "unknown_event"@,
        None => if merged.contains_key("event.name"@) {
            merged["event.name"@]
        } else if merged.contains_key("event_type"@) {
            merged["event_type"@]
        } else {
            "unknown_event"@
        },
    }
}

/// Parses one wire log record against its resource attributes into a flat
/// event. Parsing is total: every record yields an event.
pub fn parse_claude_code_event(log_record: &WireLogRecord, resource_attrs: &AttrMap) -> (r: Result<
    ClaudeCodeEvent,
    String,
>)
    requires
        resource_attrs.wf(),
    ensures
        match r {
            Ok(ev) => {
                &&& ev.attributes.wf()
                &&& ev.attributes@ == resource_attrs@.union_prefer_right(
                    extract_spec(log_record.attributes@),
                )
                &&& ev.event_type@ == spec_event_name(log_record.body, ev.attributes@)
                &&& opt_string_view(ev.session_id) == spec_opt_label(
                    resource_attrs@,
                    "session.id"@,
                )
                &&& ev.timestamp.wf()
                &&& (log_record.time_unix_nano != 0 ==> ev.timestamp.secs
                    == log_record.time_unix_nano as int / 1_000_000_000 && ev.timestamp.nanos
                    == log_record.time_unix_nano as int % 1_000_000_000)
                &&& (log_record.time_unix_nano == 0 ==> ev.timestamp.secs >= 0)
            },
            Err(_) => false,
        },
{
    let log_attrs = extract_log_attributes(&log_record.attributes);
    let attributes = resource_attrs.merged_with(&log_attrs);
    let session_id = resource_session_id(resource_attrs);
    let timestamp = timestamp_from_nanos(log_record.time_unix_nano);
    let event_type: String = match &log_record.body {
        Some(body) => {
            match extract_log_body_string(body) {
                Some(s) => s,
                None => String::from_str("unknown_event"),
            }
        },
        None => {
            match attributes.get("event.name") {
                Some(v) => v.clone(),
                None => {
                    match attributes.get("event_type") {
                        Some(v) => v.clone(),
                        None => String::from_str("unknown_event"),
                    }
                },
            }
        },
    };
    Ok(ClaudeCodeEvent { event_type, timestamp, attributes, session_id })
}

fn clone_opt_string(o: &Option<String>) -> (r: Option<String>)
    ensures
        opt_string_view(r) == opt_string_view(*o),
{
    match o {
        Some(s) => Some(s.clone()),
        None => None,
    }
}

} // verus!
