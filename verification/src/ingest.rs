//! The ingestion service front's verified half: walks a whole export batch
//! (resource, scope, item), drives the flattener and classifier, and builds
//! the durable rows to hand to the persistence gateway. Failures are per
//! metric: a rejected metric contributes its failure message and the rest
//! of the batch is processed.

use vstd::prelude::*;

use crate::attrmap::AttrMap;
use crate::enhanced::{EnhancedClaudeMetric, spec_opt_label};
use crate::flatten::{
    AttrPair, WireMetric, WireLogRecord, MetricData, ClaudeCodeMetric, extract_labels,
    extract_spec, parse_claude_code_metric, parse_claude_code_event, point_value_micros,
    hist_emits, flat_record_ok, hist_emit_ok, spec_event_name,
};
use crate::persist::{MetricRecord, LogRecord, build_metric_record, build_log_record, is_v4_id, spec_session_link};

verus! {

/// One scope block of a metrics export batch.
#[derive(Debug)]
pub struct WireScopeMetrics {
    pub metrics: Vec<WireMetric>,
}

/// One resource block of a metrics export batch: the producer's attribute
/// list and its scope blocks.
#[derive(Debug)]
pub struct WireResourceMetrics {
    pub resource_attrs: Vec<AttrPair>,
    pub scope_metrics: Vec<WireScopeMetrics>,
}

/// One scope block of a logs export batch.
#[derive(Debug)]
pub struct WireScopeLogs {
    pub log_records: Vec<WireLogRecord>,
}

/// One resource block of a logs export batch.
#[derive(Debug)]
pub struct WireResourceLogs {
    pub resource_attrs: Vec<AttrPair>,
    pub scope_logs: Vec<WireScopeLogs>,
}

/// The input-determined part of one durable metric row: its name, its
/// value in millionths, its merged labels and its raw timestamp field.
pub struct MetricRecSpec {
    pub name: Seq<char>,
    pub micros: int,
    pub labels: Map<Seq<char>, Seq<char>>,
    pub nano: u64,
}

/// Whether a flattened observation carries exactly the input-determined
/// fields of a row descriptor.
pub open spec fn flat_matches_spec(f: ClaudeCodeMetric, rs: MetricRecSpec) -> bool {
    &&& f.name@ == rs.name
    &&& f.value.micros == rs.micros
    &&& f.labels.wf()
    &&& f.labels@ == rs.labels
    &&& f.timestamp.wf()
    &&& (rs.nano != 0 ==> f.timestamp.secs == rs.nano as int / 1_000_000_000 && f.timestamp.nanos
        == rs.nano as int % 1_000_000_000)
    &&& (rs.nano == 0 ==> f.timestamp.secs >= 0)
}

/// Whether a durable metric row matches its descriptor: the observation's
/// fields, a fresh identifier, the session linkage parsed from the merged
/// `session.id` label, and a reconstructed timestamp.
pub open spec fn metric_record_matches(r: MetricRecord, rs: MetricRecSpec) -> bool {
    &&& r.name@ == rs.name
    &&& r.value.micros == rs.micros
    &&& r.labels.wf()
    &&& r.labels@ == rs.labels
    &&& r.session_id == spec_session_link(spec_opt_label(rs.labels, "session.id"@))
    &&& is_v4_id(r.id)
    &&& r.timestamp.wf()
    &&& (rs.nano != 0 ==> r.timestamp.secs == rs.nano as int / 1_000_000_000 && r.timestamp.nanos
        == rs.nano as int % 1_000_000_000)
    &&& (rs.nano == 0 ==> r.timestamp.secs >= 0)
    &&& r.created_at.wf()
    &&& r.created_at.secs >= 0
}

/// The row descriptors of one gauge or sum point list.
pub open spec fn number_point_specs(
    name: Seq<char>,
    points: Seq<crate::flatten::NumberPoint>,
    resource: Map<Seq<char>, Seq<char>>,
) -> Seq<MetricRecSpec> {
    points.map_values(
        |p: crate::flatten::NumberPoint|
            MetricRecSpec {
                name: name,
                micros: point_value_micros(p.value),
                labels: resource.union_prefer_right(extract_spec(p.attributes@)),
                nano: p.time_unix_nano,
            },
    )
}

/// The row descriptors of one histogram point list: its derived count and
/// sum rows.
pub open spec fn histogram_specs(
    name: Seq<char>,
    points: Seq<crate::flatten::HistogramPoint>,
    resource: Map<Seq<char>, Seq<char>>,
) -> Seq<MetricRecSpec> {
    hist_emits(points).map_values(
        |e: (bool, int)|
            MetricRecSpec {
                name: if e.0 {
                    name + "_count"@
                } else {
                    name + "_sum"@
                },
                micros: if e.0 {
                    points[e.1].count * 1_000_000
                } else {
                    points[e.1].sum->0.micros as int
                },
                labels: resource.union_prefer_right(extract_spec(points[e.1].attributes@)),
                nano: points[e.1].time_unix_nano,
            },
    )
}

/// The row descriptors one wire metric contributes.
pub open spec fn metric_rec_specs(m: WireMetric, resource: Map<Seq<char>, Seq<char>>) -> Seq<
    MetricRecSpec,
> {
    match m.data {
        None => Seq::empty(),
        Some(MetricData::Gauge(points)) => number_point_specs(m.name@, points@, resource),
        Some(MetricData::Sum(points)) => number_point_specs(m.name@, points@, resource),
        Some(MetricData::Histogram(points)) => histogram_specs(m.name@, points@, resource),
        Some(MetricData::Unsupported) => Seq::empty(),
    }
}

/// The failure messages one wire metric contributes: one for an
/// unsupported shape, none otherwise.
pub open spec fn metric_fail_specs(m: WireMetric) -> Seq<Seq<char>> {
    match m.data {
        Some(MetricData::Unsupported) => seq!["Unsupported metric data type for "@ + m.name@],
        _ => Seq::empty(),
    }
}

/// The row descriptors of a metric list, in order.
pub open spec fn metrics_rec_specs(ms: Seq<WireMetric>, resource: Map<Seq<char>, Seq<char>>) -> Seq<
    MetricRecSpec,
>
    decreases ms.len(),
{
    if ms.len() == 0 {
        Seq::empty()
    } else {
        metrics_rec_specs(ms.drop_last(), resource) + metric_rec_specs(ms.last(), resource)
    }
}

/// The failure messages of a metric list, in order.
pub open spec fn metrics_fail_specs(ms: Seq<WireMetric>) -> Seq<Seq<char>>
    decreases ms.len(),
{
    if ms.len() == 0 {
        Seq::empty()
    } else {
        metrics_fail_specs(ms.drop_last()) + metric_fail_specs(ms.last())
    }
}

/// The row descriptors of a scope list, in order.
pub open spec fn scopes_rec_specs(
    scopes: Seq<WireScopeMetrics>,
    resource: Map<Seq<char>, Seq<char>>,
) -> Seq<MetricRecSpec>
    decreases scopes.len(),
{
    if scopes.len() == 0 {
        Seq::empty()
    } else {
        scopes_rec_specs(scopes.drop_last(), resource) + metrics_rec_specs(
            scopes.last().metrics@,
            resource,
        )
    }
}

/// The failure messages of a scope list, in order.
pub open spec fn scopes_fail_specs(scopes: Seq<WireScopeMetrics>) -> Seq<Seq<char>>
    decreases scopes.len(),
{
    if scopes.len() == 0 {
        Seq::empty()
    } else {
        scopes_fail_specs(scopes.drop_last()) + metrics_fail_specs(scopes.last().metrics@)
    }
}

/// The row descriptors of a whole metrics export batch, in order; each
/// resource block's attribute list gives the resource map its scopes merge
/// from.
pub open spec fn resources_rec_specs(rms: Seq<WireResourceMetrics>) -> Seq<MetricRecSpec>
    decreases rms.len(),
{
    if rms.len() == 0 {
        Seq::empty()
    } else {
        resources_rec_specs(rms.drop_last()) + scopes_rec_specs(
            rms.last().scope_metrics@,
            extract_spec(rms.last().resource_attrs@),
        )
    }
}

/// The failure messages of a whole metrics export batch, in order.
pub open spec fn resources_fail_specs(rms: Seq<WireResourceMetrics>) -> Seq<Seq<char>>
    decreases rms.len(),
{
    if rms.len() == 0 {
        Seq::empty()
    } else {
        resources_fail_specs(rms.drop_last()) + scopes_fail_specs(rms.last().scope_metrics@)
    }
}

#[verifier::loop_isolation(false)]
fn process_one_metric(
    metric: &WireMetric,
    resource_attrs: &AttrMap,
    records: &mut Vec<MetricRecord>,
    failures: &mut Vec<String>,
)
    requires
        resource_attrs.wf(),
    ensures
        final(records)@.len() == old(records)@.len() + metric_rec_specs(
            *metric,
            resource_attrs@,
        ).len(),
        forall|k: int|
            0 <= k < old(records)@.len() ==> final(records)@[k] == old(records)@[k],
        forall|k: int|
            0 <= k < metric_rec_specs(*metric, resource_attrs@).len() ==> metric_record_matches(
                final(records)@[old(records)@.len() + k],
                metric_rec_specs(*metric, resource_attrs@)[k],
            ),
        final(failures)@.len() == old(failures)@.len() + metric_fail_specs(*metric).len(),
        forall|k: int|
            0 <= k < old(failures)@.len() ==> final(failures)@[k] == old(failures)@[k],
        forall|k: int|
            0 <= k < metric_fail_specs(*metric).len() ==> final(failures)@[old(failures)@.len()
                + k]@ == metric_fail_specs(*metric)[k],
{
    let ghost specs = metric_rec_specs(*metric, resource_attrs@);
    match parse_claude_code_metric(metric, resource_attrs) {
        Ok(flats) => {
            proof {
                assert(metric_fail_specs(*metric) =~= Seq::<Seq<char>>::empty());
                assert(specs.len() == flats@.len());
                assert forall|k: int| 0 <= k < flats@.len() implies flat_matches_spec(
                    flats@[k],
                    specs[k],
                ) by {
                    match metric.data {
                        Some(MetricData::Histogram(points)) => {
                            assert(hist_emit_ok(
                                flats@[k],
                                hist_emits(points@)[k],
                                points@,
                                metric.name@,
                                resource_attrs@,
                            ));
                        },
                        _ => {},
                    }
                }
            }
            let n = flats.len();
            let mut j: usize = 0;
            let ghost rec0 = records@;
            while j < n
                invariant
                    j <= n,
                    records@.len() == rec0.len() + j,
                    forall|k: int| 0 <= k < rec0.len() ==> records@[k] == rec0[k],
                    forall|k: int|
                        0 <= k < j ==> metric_record_matches(
                            #[trigger] records@[rec0.len() + k],
                            specs[k],
                        ),
                decreases n - j,
            {
                let flat = &flats[j];
                let enhanced = EnhancedClaudeMetric::from_basic_metric(
                    flat.name.clone(),
                    flat.value,
                    flat.timestamp,
                    flat.labels.duplicate(),
                );
                let record = build_metric_record(&enhanced);
                records.push(record);
                j += 1;
            }
        },
        Err(msg) => {
            proof {
                assert(specs =~= Seq::<MetricRecSpec>::empty());
                assert(metric_fail_specs(*metric) =~= seq![
                    "Unsupported metric data type for "@ + metric.name@,
                ]);
            }
            failures.push(msg);
        },
    }
}

/// Processes a whole metrics export batch: flattens every metric of every
/// scope of every resource block, classifies and enriches each flat
/// observation, and builds its durable row. Returns the rows and the
/// per-metric failure messages, each in input order; a failed metric never
/// affects any other.
#[verifier::loop_isolation(false)]
pub fn process_metrics_export(resource_metrics: &Vec<WireResourceMetrics>) -> (r: (
    Vec<MetricRecord>,
    Vec<String>,
))
    ensures
        r.0@.len() == resources_rec_specs(resource_metrics@).len(),
        forall|k: int|
            0 <= k < r.0@.len() ==> metric_record_matches(
                #[trigger] r.0@[k],
                resources_rec_specs(resource_metrics@)[k],
            ),
        r.1@.len() == resources_fail_specs(resource_metrics@).len(),
        forall|k: int|
            0 <= k < r.1@.len() ==> (#[trigger] r.1@[k])@ == resources_fail_specs(
                resource_metrics@,
            )[k],
{
    let mut records: Vec<MetricRecord> = Vec::new();
    let mut failures: Vec<String> = Vec::new();
    let nr = resource_metrics.len();
    let mut a: usize = 0;
    proof {
        assert(resources_rec_specs(resource_metrics@.take(0)) =~= Seq::<MetricRecSpec>::empty());
        assert(resources_fail_specs(resource_metrics@.take(0)) =~= Seq::<Seq<char>>::empty());
    }
    while a < nr
        invariant
            a <= nr,
            records@.len() == resources_rec_specs(resource_metrics@.take(a as int)).len(),
            forall|k: int|
                0 <= k < records@.len() ==> metric_record_matches(
                    #[trigger] records@[k],
                    resources_rec_specs(resource_metrics@.take(a as int))[k],
                ),
            failures@.len() == resources_fail_specs(resource_metrics@.take(a as int)).len(),
            forall|k: int|
                0 <= k < failures@.len() ==> (#[trigger] failures@[k])@ == resources_fail_specs(
                    resource_metrics@.take(a as int),
                )[k],
        decreases nr - a,
    {
        let rm = &resource_metrics[a];
        let resource_attrs = extract_labels(&rm.resource_attrs);
        let ns = rm.scope_metrics.len();
        let mut b: usize = 0;
        let ghost base_recs = resources_rec_specs(resource_metrics@.take(a as int));
        let ghost base_fails = resources_fail_specs(resource_metrics@.take(a as int));
        proof {
            assert(scopes_rec_specs(rm.scope_metrics@.take(0), resource_attrs@) =~= Seq::<
                MetricRecSpec,
            >::empty());
            assert(scopes_fail_specs(rm.scope_metrics@.take(0)) =~= Seq::<Seq<char>>::empty());
        }
        while b < ns
            invariant
                b <= ns,
                records@.len() == base_recs.len() + scopes_rec_specs(
                    rm.scope_metrics@.take(b as int),
                    resource_attrs@,
                ).len(),
                forall|k: int|
                    0 <= k < records@.len() ==> metric_record_matches(
                        #[trigger] records@[k],
                        (base_recs + scopes_rec_specs(
                            rm.scope_metrics@.take(b as int),
                            resource_attrs@,
                        ))[k],
                    ),
                failures@.len() == base_fails.len() + scopes_fail_specs(
                    rm.scope_metrics@.take(b as int),
                ).len(),
                forall|k: int|
                    0 <= k < failures@.len() ==> (#[trigger] failures@[k])@ == (base_fails
                        + scopes_fail_specs(rm.scope_metrics@.take(b as int)))[k],
            decreases ns - b,
        {
            let scope = &rm.scope_metrics[b];
            let nm = scope.metrics.len();
            let mut c: usize = 0;
            let ghost scope_base_recs = base_recs + scopes_rec_specs(
                rm.scope_metrics@.take(b as int),
                resource_attrs@,
            );
            let ghost scope_base_fails = base_fails + scopes_fail_specs(
                rm.scope_metrics@.take(b as int),
            );
            proof {
                assert(metrics_rec_specs(scope.metrics@.take(0), resource_attrs@) =~= Seq::<
                    MetricRecSpec,
                >::empty());
                assert(metrics_fail_specs(scope.metrics@.take(0)) =~= Seq::<Seq<char>>::empty());
            }
            while c < nm
                invariant
                    c <= nm,
                    records@.len() == scope_base_recs.len() + metrics_rec_specs(
                        scope.metrics@.take(c as int),
                        resource_attrs@,
                    ).len(),
                    forall|k: int|
                        0 <= k < records@.len() ==> metric_record_matches(
                            #[trigger] records@[k],
                            (scope_base_recs + metrics_rec_specs(
                                scope.metrics@.take(c as int),
                                resource_attrs@,
                            ))[k],
                        ),
                    failures@.len() == scope_base_fails.len() + metrics_fail_specs(
                        scope.metrics@.take(c as int),
                    ).len(),
                    forall|k: int|
                        0 <= k < failures@.len() ==> (#[trigger] failures@[k])@ == (scope_base_fails
                            + metrics_fail_specs(scope.metrics@.take(c as int)))[k],
                decreases nm - c,
            {
                process_one_metric(&scope.metrics[c], &resource_attrs, &mut records, &mut failures);
                proof {
                    let cur = scope.metrics@.take(c + 1 as int);
                    assert(cur.drop_last() =~= scope.metrics@.take(c as int));
                    assert(cur.last() == scope.metrics@[c as int]);
                    assert(scope_base_recs + metrics_rec_specs(cur, resource_attrs@)
                        =~= (scope_base_recs + metrics_rec_specs(
                        scope.metrics@.take(c as int),
                        resource_attrs@,
                    )) + metric_rec_specs(scope.metrics@[c as int], resource_attrs@));
                    assert(scope_base_fails + metrics_fail_specs(cur) =~= (scope_base_fails
                        + metrics_fail_specs(scope.metrics@.take(c as int))) + metric_fail_specs(
                        scope.metrics@[c as int],
                    ));
                }
                c += 1;
            }
            proof {
                assert(scope.metrics@.take(nm as int) =~= scope.metrics@);
                let curb = rm.scope_metrics@.take(b + 1 as int);
                assert(curb.drop_last() =~= rm.scope_metrics@.take(b as int));
                assert(curb.last() == rm.scope_metrics@[b as int]);
                assert(base_recs + scopes_rec_specs(curb, resource_attrs@) =~= scope_base_recs
                    + metrics_rec_specs(scope.metrics@, resource_attrs@));
                assert(base_fails + scopes_fail_specs(curb) =~= scope_base_fails
                    + metrics_fail_specs(scope.metrics@));
            }
            b += 1;
        }
        proof {
            assert(rm.scope_metrics@.take(ns as int) =~= rm.scope_metrics@);
            let cura = resource_metrics@.take(a + 1 as int);
            assert(cura.drop_last() =~= resource_metrics@.take(a as int));
            assert(cura.last() == resource_metrics@[a as int]);
            assert(resources_rec_specs(cura) =~= base_recs + scopes_rec_specs(
                rm.scope_metrics@,
                resource_attrs@,
            ));
            assert(resources_fail_specs(cura) =~= base_fails + scopes_fail_specs(
                rm.scope_metrics@,
            ));
        }
        a += 1;
    }
    proof {
        assert(resource_metrics@.take(nr as int) =~= resource_metrics@);
    }
    (records, failures)
}

/// The input-determined part of one durable log row.
pub struct LogRecSpec {
    pub event: Seq<char>,
    pub labels: Map<Seq<char>, Seq<char>>,
    pub session: Option<Seq<char>>,
    pub nano: u64,
}

/// Whether a durable log row matches its descriptor: the event name as the
/// message at `INFO` level, the merged attributes, a fresh identifier, the
/// session linkage parsed from the resource's `session.id` attribute, and
/// a reconstructed timestamp.
pub open spec fn log_record_matches(r: LogRecord, rs: LogRecSpec) -> bool {
    &&& r.level@ == "INFO"@
    &&& r.message@ == rs.event
    &&& r.attributes.wf()
    &&& r.attributes@ == rs.labels
    &&& r.session_id == spec_session_link(rs.session)
    &&& is_v4_id(r.id)
    &&& r.timestamp.wf()
    &&& (rs.nano != 0 ==> r.timestamp.secs == rs.nano as int / 1_000_000_000 && r.timestamp.nanos
        == rs.nano as int % 1_000_000_000)
    &&& (rs.nano == 0 ==> r.timestamp.secs >= 0)
    &&& r.created_at.wf()
    &&& r.created_at.secs >= 0
}

/// The row descriptors of one log record list.
pub open spec fn log_rec_specs(
    logs: Seq<WireLogRecord>,
    resource: Map<Seq<char>, Seq<char>>,
) -> Seq<LogRecSpec> {
    logs.map_values(
        |lr: WireLogRecord|
            LogRecSpec {
                event: spec_event_name(
                    lr.body,
                    resource.union_prefer_right(extract_spec(lr.attributes@)),
                ),
                labels: resource.union_prefer_right(extract_spec(lr.attributes@)),
                session: spec_opt_label(resource, "session.id"@),
                nano: lr.time_unix_nano,
            },
    )
}

/// The row descriptors of a log scope list, in order.
pub open spec fn log_scopes_specs(
    scopes: Seq<WireScopeLogs>,
    resource: Map<Seq<char>, Seq<char>>,
) -> Seq<LogRecSpec>
    decreases scopes.len(),
{
    if scopes.len() == 0 {
        Seq::empty()
    } else {
        log_scopes_specs(scopes.drop_last(), resource) + log_rec_specs(
            scopes.last().log_records@,
            resource,
        )
    }
}

/// The row descriptors of a whole logs export batch, in order.
pub open spec fn log_resources_specs(rls: Seq<WireResourceLogs>) -> Seq<LogRecSpec>
    decreases rls.len(),
{
    if rls.len() == 0 {
        Seq::empty()
    } else {
        log_resources_specs(rls.drop_last()) + log_scopes_specs(
            rls.last().scope_logs@,
            extract_spec(rls.last().resource_attrs@),
        )
    }
}

/// Processes a whole logs export batch: parses every log record of every
/// scope of every resource block into a flat event and builds its durable
/// row. Parsing is total, so every log record yields exactly one row, in
/// input order.
#[verifier::loop_isolation(false)]
pub fn process_logs_export(resource_logs: &Vec<WireResourceLogs>) -> (r: Vec<LogRecord>)
    ensures
        r@.len() == log_resources_specs(resource_logs@).len(),
        forall|k: int|
            0 <= k < r@.len() ==> log_record_matches(
                #[trigger] r@[k],
                log_resources_specs(resource_logs@)[k],
            ),
{
    let mut records: Vec<LogRecord> = Vec::new();
    let nr = resource_logs.len();
    let mut a: usize = 0;
    proof {
        assert(log_resources_specs(resource_logs@.take(0)) =~= Seq::<LogRecSpec>::empty());
    }
    while a < nr
        invariant
            a <= nr,
            records@.len() == log_resources_specs(resource_logs@.take(a as int)).len(),
            forall|k: int|
                0 <= k < records@.len() ==> log_record_matches(
                    #[trigger] records@[k],
                    log_resources_specs(resource_logs@.take(a as int))[k],
                ),
        decreases nr - a,
    {
        let rl = &resource_logs[a];
        let resource_attrs = extract_labels(&rl.resource_attrs);
        let ns = rl.scope_logs.len();
        let mut b: usize = 0;
        let ghost base = log_resources_specs(resource_logs@.take(a as int));
        proof {
            assert(log_scopes_specs(rl.scope_logs@.take(0), resource_attrs@) =~= Seq::<
                LogRecSpec,
            >::empty());
        }
        while b < ns
            invariant
                b <= ns,
                records@.len() == base.len() + log_scopes_specs(
                    rl.scope_logs@.take(b as int),
                    resource_attrs@,
                ).len(),
                forall|k: int|
                    0 <= k < records@.len() ==> log_record_matches(
                        #[trigger] records@[k],
                        (base + log_scopes_specs(rl.scope_logs@.take(b as int), resource_attrs@))[k],
                    ),
            decreases ns - b,
        {
            let scope = &rl.scope_logs[b];
            let nl = scope.log_records.len();
            let mut c: usize = 0;
            let ghost scope_base = base + log_scopes_specs(
                rl.scope_logs@.take(b as int),
                resource_attrs@,
            );
            proof {
                assert(log_rec_specs(scope.log_records@.take(0), resource_attrs@) =~= Seq::<
                    LogRecSpec,
                >::empty());
            }
            while c < nl
                invariant
                    c <= nl,
                    records@.len() == scope_base.len() + c,
                    forall|k: int|
                        0 <= k < records@.len() ==> log_record_matches(
                            #[trigger] records@[k],
                            (scope_base + log_rec_specs(
                                scope.log_records@.take(c as int),
                                resource_attrs@,
                            ))[k],
                        ),
                decreases nl - c,
            {
                match parse_claude_code_event(&scope.log_records[c], &resource_attrs) {
                    Ok(event) => {
                        let record = build_log_record(&event);
                        records.push(record);
                    },
                    Err(_) => {},
                }
                proof {
                    let cur = scope.log_records@.take(c + 1 as int);
                    assert(cur =~= scope.log_records@.take(c as int).push(
                        scope.log_records@[c as int],
                    ));
                    assert(scope_base + log_rec_specs(cur, resource_attrs@) =~= (scope_base
                        + log_rec_specs(scope.log_records@.take(c as int), resource_attrs@)).push(
                        log_rec_specs(cur, resource_attrs@).last(),
                    ));
                }
                c += 1;
            }
            proof {
                assert(scope.log_records@.take(nl as int) =~= scope.log_records@);
                let curb = rl.scope_logs@.take(b + 1 as int);
                assert(curb.drop_last() =~= rl.scope_logs@.take(b as int));
                assert(curb.last() == rl.scope_logs@[b as int]);
                assert(base + log_scopes_specs(curb, resource_attrs@) =~= scope_base
                    + log_rec_specs(scope.log_records@, resource_attrs@));
            }
            b += 1;
        }
        proof {
            assert(rl.scope_logs@.take(ns as int) =~= rl.scope_logs@);
            let cura = resource_logs@.take(a + 1 as int);
            assert(cura.drop_last() =~= resource_logs@.take(a as int));
            assert(cura.last() == resource_logs@[a as int]);
            assert(log_resources_specs(cura) =~= base + log_scopes_specs(
                rl.scope_logs@,
                resource_attrs@,
            ));
        }
        a += 1;
    }
    proof {
        assert(resource_logs@.take(nr as int) =~= resource_logs@);
    }
    records
}

} // verus!
