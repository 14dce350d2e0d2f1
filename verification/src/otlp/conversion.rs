//! What the OTLP conversions decide for each log record, data point and
//! span, apart from the floating-point values and the JSON documents that
//! travel along: the kind of a metric, its times, tags, counts and trace
//! links, the level and times of a log record, the status of a span.

use vstd::prelude::*;
use crate::organizations::invite::opt_text;
use crate::otlp::numbers::{nano_timestamp, parse_bucket_counts, parse_count, parse_nano_timestamp, readable_counts, texts, decimal_i64};
use crate::otlp::tags::{distinct_keys, extract_tags, pairs_map, tag_map, TagSource};
use crate::otlp::types::{status_name, SpanStatus};
use crate::time::{clock_reading, now, Timestamp};

verus! {

/// A text, or none when it is empty.
pub open spec fn optional_text(s: Seq<char>) -> Option<Seq<char>> {
    if s.len() == 0 {
        None
    } else {
        Some(s)
    }
}

/// `s` as an owned string, or `None` when it is empty.
pub fn non_empty(s: &str) -> (r: Option<String>)
    ensures
        opt_text(r) == optional_text(s@),
{
    if s.is_empty() {
        None
    } else {
        Some(s.to_string())
    }
}

/// The name, unit and description of a metric.
#[derive(Debug, Clone)]
pub struct MetricText {
    pub name: String,
    pub unit: String,
    pub description: String,
}

/// What kind of data point a metric carries, with what its conversion reads
/// of each kind.
#[derive(Debug, Clone)]
pub enum PointShape {
    /// A gauge point.
    Gauge,
    /// A sum point; the trace and span ids of its first exemplar, if any.
    Sum { is_monotonic: bool, first_exemplar: Option<(String, String)> },
    /// A histogram point: its count and bucket counts, as decimal texts.
    Histogram { count: String, bucket_counts: Vec<String> },
    /// A summary point: its count as decimal text, and how many quantiles it
    /// has.
    Summary { count: String, quantiles: usize },
}

/// A data point of a metric, but for its floating-point values.
#[derive(Debug, Clone)]
pub struct PointText {
    pub time_unix_nano: String,
    pub attributes: Vec<TagSource>,
    pub shape: PointShape,
}

/// What a data point becomes, but for its floating-point values (the value,
/// the bucket bounds, sum, minimum and maximum).
#[derive(Debug, Clone)]
pub struct MetricFacts {
    pub name: String,
    pub metric_type: String,
    pub timestamp: Option<Timestamp>,
    pub unit: Option<String>,
    pub description: Option<String>,
    pub tags: Vec<(String, String)>,
    pub bucket_counts: Option<Vec<i64>>,
    pub histogram_count: Option<i64>,
    pub trace_id: Option<String>,
    pub span_id: Option<String>,
}

/// The type of metric that a data point records: a monotonic sum is a
/// counter, any other sum a gauge, and a summary is kept as a histogram.
pub open spec fn point_type(shape: PointShape) -> Seq<char> {
    match shape {
        PointShape::Gauge => "gauge"@,
        PointShape::Sum { is_monotonic, .. } => if is_monotonic {
            "counter"@
        } else {
            "gauge"@
        },
        PointShape::Histogram { .. } => "histogram"@,
        PointShape::Summary { .. } => "histogram"@,
    }
}

/// A count in decimal, or 0 when it does not read as an `i64`.
pub open spec fn count_value(s: Seq<char>) -> i64 {
    match decimal_i64(s) {
        Some(v) => v,
        None => 0,
    }
}

/// Whether `f` is what data point `p` of metric `m` becomes, the resource
/// having attributes `resource`.
pub open spec fn describes_point(
    f: MetricFacts,
    m: MetricText,
    p: PointText,
    resource: Option<Seq<TagSource>>,
) -> bool {
    &&& f.name@ == m.name@
    &&& f.metric_type@ == point_type(p.shape)
    &&& f.timestamp == nano_timestamp(p.time_unix_nano@)
    &&& opt_text(f.unit) == optional_text(m.unit@)
    &&& opt_text(f.description) == optional_text(m.description@)
    &&& distinct_keys(f.tags@)
    &&& pairs_map(f.tags@) == tag_map(p.attributes@, resource)
    &&& match p.shape {
        PointShape::Gauge => {
            &&& f.bucket_counts is None
            &&& f.histogram_count is None
            &&& f.trace_id is None
            &&& f.span_id is None
        },
        PointShape::Sum { first_exemplar, .. } => {
            &&& f.bucket_counts is None
            &&& f.histogram_count is None
            &&& opt_text(f.trace_id) == match first_exemplar {
                Some(e) => optional_text(e.0@),
                None => None,
            }
            &&& opt_text(f.span_id) == match first_exemplar {
                Some(e) => optional_text(e.1@),
                None => None,
            }
        },
        PointShape::Histogram { count, bucket_counts } => {
            &&& f.bucket_counts matches Some(b) && b@ == readable_counts(texts(bucket_counts@))
            &&& f.histogram_count == Some(count_value(count@))
            &&& f.trace_id is None
            &&& f.span_id is None
        },
        PointShape::Summary { count, quantiles } => {
            &&& f.bucket_counts matches Some(b) && b@ == Seq::new(quantiles as nat, |i: int| 0i64)
            &&& f.histogram_count == Some(count_value(count@))
            &&& f.trace_id is None
            &&& f.span_id is None
        },
    }
}

/// One zero for each quantile of a summary point.
fn zero_counts(n: usize) -> (r: Vec<i64>)
    ensures
        r@ == Seq::new(n as nat, |i: int| 0i64),
{
    let mut out: Vec<i64> = Vec::new();
    for i in 0..n
        invariant
            out@ == Seq::new(i as nat, |k: int| 0i64),
    {
        out.push(0);
        assert(out@ =~= Seq::new((i + 1) as nat, |k: int| 0i64));
    }
    out
}

/// What one data point of a metric becomes.
pub fn point_facts(metric: &MetricText, point: &PointText, resource: Option<&Vec<TagSource>>) -> (r:
    MetricFacts)
    ensures
        point.shape is Gauge ==> r.metric_type@ == "gauge"@,
        point.shape matches PointShape::Sum { is_monotonic, .. } ==> r.metric_type@ == (if is_monotonic {
            "counter"@
        } else {
            "gauge"@
        }),
        point.shape is Histogram ==> r.metric_type@ == "histogram"@,
        point.shape is Summary ==> r.metric_type@ == "histogram"@,
        describes_point(
            r,
            *metric,
            *point,
            match resource {
                Some(v) => Some(v@),
                None => None,
            },
        ),
{
    let metric_type = match &point.shape {
        PointShape::Gauge => "gauge",
        PointShape::Sum { is_monotonic, .. } => if *is_monotonic {
            "counter"
        } else {
            "gauge"
        },
        PointShape::Histogram { .. } => "histogram",
        PointShape::Summary { .. } => "histogram",
    };
    let (bucket_counts, histogram_count, trace_id, span_id): (
        Option<Vec<i64>>,
        Option<i64>,
        Option<String>,
        Option<String>,
    ) = match &point.shape {
        PointShape::Gauge => (None, None, None, None),
        PointShape::Sum { first_exemplar, .. } => match first_exemplar {
            Some(e) => (None, None, non_empty(e.0.as_str()), non_empty(e.1.as_str())),
            None => (None, None, None, None),
        },
        PointShape::Histogram { count, bucket_counts } => (
            Some(parse_bucket_counts(bucket_counts)),
            Some(parse_count(count.as_str())),
            None,
            None,
        ),
        PointShape::Summary { count, quantiles } => (
            Some(zero_counts(*quantiles)),
            Some(parse_count(count.as_str())),
            None,
            None,
        ),
    };
    MetricFacts {
        name: metric.name.clone(),
        metric_type: metric_type.to_string(),
        timestamp: parse_nano_timestamp(point.time_unix_nano.as_str()),
        unit: non_empty(metric.unit.as_str()),
        description: non_empty(metric.description.as_str()),
        tags: extract_tags(&point.attributes, resource),
        bucket_counts,
        histogram_count,
        trace_id,
        span_id,
    }
}

/// Convert the data points of a metric, in order, appending what each
/// becomes to `output`.
pub fn convert_metric(
    metric: &MetricText,
    points: &Vec<PointText>,
    resource: Option<&Vec<TagSource>>,
    output: &mut Vec<MetricFacts>,
)
    ensures
        final(output)@.len() == old(output)@.len() + points@.len(),
        forall|k: int| 0 <= k < old(output)@.len() ==> #[trigger] final(output)@[k] == old(output)@[k],
        forall|k: int|
            0 <= k < points@.len() ==> describes_point(
                #[trigger] final(output)@[old(output)@.len() + k],
                *metric,
                points@[k],
                match resource {
                    Some(v) => Some(v@),
                    None => None,
                },
            ),
{
    let n = points.len();
    let ghost start = output@;
    for i in 0..n
        invariant
            n == points@.len(),
            output@.len() == start.len() + i,
            start == old(output)@,
            forall|k: int| 0 <= k < start.len() ==> #[trigger] output@[k] == start[k],
            forall|k: int|
                0 <= k < i ==> describes_point(
                    #[trigger] output@[start.len() + k],
                    *metric,
                    points@[k],
                    match resource {
                        Some(v) => Some(v@),
                        None => None,
                    },
                ),
    {
        let facts = point_facts(metric, &points[i], resource);
        output.push(facts);
    }
}

/// The time of a log record: its own time, or else the time it was
/// observed.
pub fn log_timestamp(time_unix_nano: &str, observed_time_unix_nano: &str) -> (r: Option<Timestamp>)
    ensures
        r == match nano_timestamp(time_unix_nano@) {
            Some(t) => Some(t),
            None => nano_timestamp(observed_time_unix_nano@),
        },
{
    match parse_nano_timestamp(time_unix_nano) {
        Some(t) => Some(t),
        None => parse_nano_timestamp(observed_time_unix_nano),
    }
}

/// The start of a span: its start time, or the current time when that does
/// not read.
pub fn span_start_time(start_time_unix_nano: &str) -> (r: Timestamp)
    ensures
        nano_timestamp(start_time_unix_nano@) matches Some(t) ==> r == t,
        nano_timestamp(start_time_unix_nano@) is None ==> clock_reading(r),
{
    match parse_nano_timestamp(start_time_unix_nano) {
        Some(t) => t,
        None => now(),
    }
}

/// The status of a span and its message: the name of its code, and the
/// message when it is not empty.
pub fn span_status_fields(status: Option<&SpanStatus>) -> (r: (Option<String>, Option<String>))
    ensures
        opt_text(r.0) == match status {
            Some(s) => Some(status_name(s.code)),
            None => None,
        },
        opt_text(r.1) == match status {
            Some(s) => optional_text(s.message@),
            None => None,
        },
{
    match status {
        Some(s) => (Some(s.code_to_string().to_string()), non_empty(s.message.as_str())),
        None => (None, None),
    }
}

/// The events of a span that are kept, with their times: those whose time
/// reads, in order.
pub open spec fn timed_events(times: Seq<Seq<char>>) -> Seq<(usize, Timestamp)>
    decreases times.len(),
{
    if times.len() == 0 {
        Seq::empty()
    } else {
        let rest = timed_events(times.drop_last());
        match nano_timestamp(times.last()) {
            Some(t) => rest.push(((times.len() - 1) as usize, t)),
            None => rest,
        }
    }
}

/// The positions and times of the events of a span whose time reads; the
/// others are dropped.
pub fn event_times(times: &Vec<String>) -> (r: Vec<(usize, Timestamp)>)
    ensures
        r@ == timed_events(texts(times@)),
{
    let mut out: Vec<(usize, Timestamp)> = Vec::new();
    let n = times.len();
    for i in 0..n
        invariant
            n == times@.len(),
            out@ == timed_events(texts(times@).take(i as int)),
    {
        assert(texts(times@).take(i + 1).drop_last() == texts(times@).take(i as int));
        if let Some(t) = parse_nano_timestamp(times[i].as_str()) {
            out.push((i, t));
        }
    }
    assert(texts(times@).take(n as int) == texts(times@));
    out
}

} // verus!
