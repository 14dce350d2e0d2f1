//! What an OTLP log record and an OTLP span become for the stores: the
//! level, message, times, source and metadata of a log record; the ids,
//! kind, times, status, service, events and links of a span.
//!
//! Attribute values travel to the stores as JSON documents. They are named
//! here by their position (`AttrOrigin`), and the caller renders each one;
//! likewise a log body whose JSON is not plain text.

use vstd::prelude::*;
use crate::numerals::{decimal_text, push_decimal};
use crate::organizations::invite::opt_text;
use crate::otlp::conversion::{
    event_times, log_timestamp, non_empty, optional_text, span_start_time, span_status_fields,
    timed_events,
};
use crate::otlp::numbers::{decimal_i64, nano_timestamp, parse_i64, parse_nano_timestamp, texts};
use crate::otlp::types::{
    first_string_value, get_service_name, get_service_version, kind_name, kind_to_string,
    severity_level, severity_to_level, status_name, ResourceAttribute, SpanStatus,
};
use crate::text::{push_char, unicode_uppercase};
use crate::time::{clock_reading, Timestamp};

verus! {

/// An OTLP attribute value, as far as its reading as text depends on it:
/// which of its fields are set, and the text of those that are texts.
#[derive(Debug, Clone)]
pub struct ValueText {
    pub string_value: Option<String>,
    pub bool_value: Option<bool>,
    /// A 64-bit integer in decimal, as OTLP's JSON form carries it.
    pub int_value: Option<String>,
    /// The bits of the double value (`f64::to_bits`).
    pub double_bits: Option<u64>,
    pub has_array: bool,
    pub has_kvlist: bool,
    /// Base64 text of a bytes value.
    pub bytes_value: Option<String>,
}

/// Whether the double with these bits is finite: its exponent is not all
/// ones.
pub open spec fn finite_double(bits: u64) -> bool {
    (bits >> 52u64) & 0x7ffu64 != 0x7ffu64
}

/// The decimal text of a signed integer, with a leading `-` when negative.
pub open spec fn integer_text(n: i64) -> Seq<char> {
    if n < 0 {
        seq!['-'] + decimal_text((-n) as nat)
    } else {
        decimal_text(n as nat)
    }
}

/// The text of an attribute value's JSON form when that is plain text, or
/// `None` when it is a JSON document that the caller renders (a finite
/// double, an array or a key-value list). A value reads, in this order, as
/// its string; its boolean; its integer (or the integer's text when that
/// does not read as an `i64`, which then stays a string); its double (a
/// double that is not finite is JSON null); its array or list; its bytes'
/// text; and otherwise JSON null.
pub open spec fn value_text(v: ValueText) -> Option<Seq<char>> {
    match v.string_value {
        Some(s) => Some(s@),
        None => match v.bool_value {
            Some(b) => Some(
                if b {
                    "true"@
                } else {
                    "false"@
                },
            ),
            None => match v.int_value {
                Some(t) => match decimal_i64(t@) {
                    Some(n) => Some(integer_text(n)),
                    None => Some(t@),
                },
                None => match v.double_bits {
                    Some(bits) => if finite_double(bits) {
                        None
                    } else {
                        Some("null"@)
                    },
                    None => if v.has_array || v.has_kvlist {
                        None
                    } else {
                        match v.bytes_value {
                            Some(b) => Some(b@),
                            None => Some("null"@),
                        }
                    },
                },
            },
        },
    }
}

/// The decimal text of `n`.
fn integer_string(n: i64) -> (r: String)
    ensures
        r@ == integer_text(n),
{
    let mut out = String::new();
    if n < 0 {
        push_char(&mut out, '-');
        let m: u64 = ((-(n + 1)) as u64) + 1;
        assert(m as nat == (-n) as nat);
        push_decimal(&mut out, m);
    } else {
        push_decimal(&mut out, n as u64);
    }
    out
}

/// The text of an attribute value, or `None` when its JSON is a document
/// for the caller to render.
pub fn value_text_of(v: &ValueText) -> (r: Option<String>)
    ensures
        opt_text(r) == value_text(*v),
        v.string_value matches Some(s) ==> opt_text(r) == Some(s@),
        v.string_value is None && v.bool_value == Some(true) ==> opt_text(r) == Some("true"@),
        v.string_value is None && v.bool_value == Some(false) ==> opt_text(r) == Some("false"@),
        v.string_value is None && v.bool_value is None && v.int_value is None && v.double_bits is None
            && !v.has_array && !v.has_kvlist && v.bytes_value is None ==> opt_text(r) == Some(
            "null"@,
        ),
        v.string_value is None && v.bool_value is None && v.int_value is None && v.double_bits is None
            && (v.has_array || v.has_kvlist) ==> r is None,
{
    if let Some(s) = &v.string_value {
        return Some(s.clone());
    }
    if let Some(b) = v.bool_value {
        return Some(
            if b {
                "true".to_string()
            } else {
                "false".to_string()
            },
        );
    }
    if let Some(t) = &v.int_value {
        return match parse_i64(t.as_str()) {
            Some(n) => Some(integer_string(n)),
            None => Some(t.clone()),
        };
    }
    if let Some(bits) = v.double_bits {
        return if (bits >> 52u64) & 0x7ffu64 != 0x7ffu64 {
            None
        } else {
            Some("null".to_string())
        };
    }
    if v.has_array || v.has_kvlist {
        return None;
    }
    match &v.bytes_value {
        Some(b) => Some(b.clone()),
        None => Some("null".to_string()),
    }
}

/// Where the value of a metadata entry comes from: the attribute at this
/// position of the resource, or of the record itself.
#[derive(Debug, Clone, Copy, PartialEq, Eq, Structural)]
pub enum AttrOrigin {
    Resource(usize),
    Record(usize),
}

/// The message of a log record.
#[derive(Debug, Clone)]
pub enum LogMessage {
    /// This text.
    Text(String),
    /// The JSON text of the record's body, rendered by the caller.
    BodyJson,
}

/// A log record, but for the values of its body and attributes beyond what
/// `ValueText` holds.
#[derive(Debug, Clone)]
pub struct LogRecordText {
    pub time_unix_nano: String,
    pub observed_time_unix_nano: String,
    pub severity_number: i32,
    pub severity_text: String,
    pub body: Option<ValueText>,
    /// The keys of the record's attributes, in order.
    pub attribute_keys: Vec<String>,
    pub trace_id: String,
    pub span_id: String,
}

/// What a log record becomes, but for the JSON values of its metadata.
#[derive(Debug, Clone)]
pub struct LogFacts {
    pub level: String,
    pub message: LogMessage,
    pub timestamp: Option<Timestamp>,
    pub source: Option<String>,
    /// The metadata object's entries, in the order they are inserted: a
    /// later entry replaces an earlier one with the same key.
    pub metadata: Option<Vec<(String, AttrOrigin)>>,
    pub trace_id: Option<String>,
    pub span_id: Option<String>,
}

/// The message of a log record with this body: the body's text, the empty
/// text without a body, or `None` when the body's JSON is rendered.
pub open spec fn message_of(body: Option<ValueText>) -> Option<Seq<char>> {
    match body {
        Some(v) => value_text(v),
        None => Some(Seq::empty()),
    }
}

/// The attributes of a resource, if there is one.
pub open spec fn resource_view(resource: Option<&Vec<ResourceAttribute>>) -> Option<
    Seq<ResourceAttribute>,
> {
    match resource {
        Some(v) => Some(v@),
        None => None,
    }
}

/// The metadata entries from the resource: each attribute's key after
/// `resource.`.
pub open spec fn resource_entries(resource: Option<Seq<ResourceAttribute>>) -> Seq<
    (Seq<char>, AttrOrigin),
> {
    match resource {
        Some(a) => Seq::new(
            a.len(),
            |i: int| ("resource."@ + a[i].key@, AttrOrigin::Resource(i as usize)),
        ),
        None => Seq::empty(),
    }
}

/// The metadata entries from the record: each attribute's key.
pub open spec fn record_entries(keys: Seq<String>) -> Seq<(Seq<char>, AttrOrigin)> {
    Seq::new(keys.len(), |j: int| (keys[j]@, AttrOrigin::Record(j as usize)))
}

/// The entries of a log record's metadata: those of the resource, then those
/// of the record, which win over resource entries with the same key.
pub open spec fn metadata_entries(resource: Option<Seq<ResourceAttribute>>, keys: Seq<String>) -> Seq<
    (Seq<char>, AttrOrigin),
> {
    resource_entries(resource) + record_entries(keys)
}

/// The entries as texts.
pub open spec fn entries_view(v: Seq<(String, AttrOrigin)>) -> Seq<(Seq<char>, AttrOrigin)> {
    Seq::new(v.len(), |i: int| (v[i].0@, v[i].1))
}

/// The service a resource names, if any.
pub open spec fn service_of(resource: Option<Seq<ResourceAttribute>>, key: Seq<char>) -> Option<
    Seq<char>,
> {
    match resource {
        Some(a) => first_string_value(a, key),
        None => None,
    }
}

/// How many attributes a resource has (none without a resource).
pub open spec fn resource_count(resource: Option<Seq<ResourceAttribute>>) -> nat {
    match resource {
        Some(a) => a.len(),
        None => 0,
    }
}

/// The metadata entries, spelled out: first one entry per resource
/// attribute, keyed `resource.` and the attribute's key, then one per record
/// attribute under its own key, each naming the attribute it comes from.
pub open spec fn entries_as_inserted(
    m: Seq<(String, AttrOrigin)>,
    resource: Option<Seq<ResourceAttribute>>,
    keys: Seq<String>,
) -> bool {
    &&& m.len() == resource_count(resource) + keys.len()
    &&& forall|i: int|
        0 <= i < resource_count(resource) ==> (#[trigger] m[i]).0@ == "resource."@
            + resource->0[i].key@ && m[i].1 == AttrOrigin::Resource(i as usize)
    &&& forall|k: int|
        resource_count(resource) <= k < m.len() ==> (#[trigger] m[k]).0@ == keys[k
            - resource_count(resource)]@ && m[k].1 == AttrOrigin::Record(
            (k - resource_count(resource)) as usize,
        )
}

/// The entries that `metadata_entries` describes are those spelled out by
/// `entries_as_inserted`.
proof fn lemma_entries_as_inserted(
    m: Seq<(String, AttrOrigin)>,
    resource: Option<Seq<ResourceAttribute>>,
    keys: Seq<String>,
)
    requires
        entries_view(m) == metadata_entries(resource, keys),
    ensures
        entries_as_inserted(m, resource, keys),
{
    let e = metadata_entries(resource, keys);
    let n = resource_count(resource);
    assert(resource_entries(resource).len() == n);
    assert(record_entries(keys).len() == keys.len());
    assert(entries_view(m).len() == m.len());
    assert forall|i: int| 0 <= i < n implies (#[trigger] m[i]).0@ == "resource."@
        + resource->0[i].key@ && m[i].1 == AttrOrigin::Resource(i as usize) by {
        assert(entries_view(m)[i] == e[i]);
    }
    assert forall|k: int| n <= k < m.len() implies (#[trigger] m[k]).0@ == keys[k - n]@ && m[k].1
        == AttrOrigin::Record((k - n) as usize) by {
        assert(entries_view(m)[k] == e[k]);
    }
}

/// Whether `f` is what log record `rec` becomes, the resource having
/// attributes `resource`.
pub open spec fn describes_log(
    f: LogFacts,
    rec: LogRecordText,
    resource: Option<Seq<ResourceAttribute>>,
) -> bool {
    &&& f.level@ == if rec.severity_text@.len() > 0 {
        unicode_uppercase(rec.severity_text@)
    } else {
        severity_level(rec.severity_number)
    }
    &&& match f.message {
        LogMessage::Text(s) => message_of(rec.body) == Some(s@),
        LogMessage::BodyJson => message_of(rec.body) is None,
    }
    &&& f.timestamp == match nano_timestamp(rec.time_unix_nano@) {
        Some(t) => Some(t),
        None => nano_timestamp(rec.observed_time_unix_nano@),
    }
    &&& opt_text(f.source) == service_of(resource, "service.name"@)
    &&& if metadata_entries(resource, rec.attribute_keys@).len() == 0 {
        f.metadata is None
    } else {
        (f.metadata matches Some(m) && entries_view(m@) == metadata_entries(
            resource,
            rec.attribute_keys@,
        ))
    }
    &&& opt_text(f.trace_id) == optional_text(rec.trace_id@)
    &&& opt_text(f.span_id) == optional_text(rec.span_id@)
}

/// The metadata entries of a record with these attribute keys.
fn metadata_of(resource: Option<&Vec<ResourceAttribute>>, keys: &Vec<String>) -> (r: Option<
    Vec<(String, AttrOrigin)>,
>)
    ensures
        metadata_entries(resource_view(resource), keys@).len() == 0 ==> r is None,
        metadata_entries(resource_view(resource), keys@).len() > 0 ==> (r matches Some(m)
            && entries_view(m@) == metadata_entries(resource_view(resource), keys@)),
{
    let mut out: Vec<(String, AttrOrigin)> = Vec::new();
    let ghost res = resource_entries(resource_view(resource));
    if let Some(attrs) = resource {
        let n = attrs.len();
        for i in 0..n
            invariant
                n == attrs@.len(),
                res == resource_entries(Some(attrs@)),
                res.len() == n,
                out@.len() == i,
                entries_view(out@) == res.take(i as int),
        {
            let key = "resource.".to_string().concat(attrs[i].key.as_str());
            let ghost prev = out@;
            out.push((key, AttrOrigin::Resource(i)));
            assert(out@ == prev.push(out@[i as int]));
            assert(entries_view(out@)[i as int] == res[i as int]);
            assert forall|k: int| 0 <= k < i implies entries_view(out@)[k] == entries_view(prev)[k] by {
                assert(out@[k] == prev[k]);
            }
            assert(entries_view(out@) =~= res.take(i + 1));
        }
        assert(res.take(n as int) == res);
    }
    assert(entries_view(out@) =~= res);
    assert(out@.len() == res.len());
    let ghost rec = record_entries(keys@);
    let m = keys.len();
    for j in 0..m
        invariant
            m == keys@.len(),
            rec == record_entries(keys@),
            rec.len() == m,
            out@.len() == res.len() + j,
            entries_view(out@) == res + rec.take(j as int),
    {
        let ghost prev = out@;
        out.push((keys[j].clone(), AttrOrigin::Record(j)));
        assert(out@ == prev.push(out@[prev.len() as int]));
        assert(entries_view(out@)[prev.len() as int] == rec[j as int]);
        assert forall|k: int| 0 <= k < prev.len() implies entries_view(out@)[k] == (res + rec.take(
            j + 1,
        ))[k] by {
            assert(out@[k] == prev[k]);
            assert(entries_view(prev)[k] == (res + rec.take(j as int))[k]);
            if k >= res.len() {
                assert(rec.take(j + 1)[k - res.len()] == rec.take(j as int)[k - res.len()]);
            }
        }
        assert(entries_view(out@) =~= res + rec.take(j + 1));
    }
    assert(rec.take(m as int) == rec);
    if out.len() == 0 {
        None
    } else {
        Some(out)
    }
}

/// What one log record becomes, the resource having attributes `resource`.
pub fn log_record_facts(resource: Option<&Vec<ResourceAttribute>>, record: &LogRecordText) -> (r:
    LogFacts)
    ensures
        describes_log(r, *record, resource_view(resource)),
        record.body is None ==> (r.message matches LogMessage::Text(s) && s@ == Seq::<char>::empty()),
        resource is None && record.attribute_keys@.len() == 0 ==> r.metadata is None,
        r.metadata matches Some(m) ==> entries_as_inserted(m@, resource_view(resource), record.attribute_keys@),
{
    let message = match &record.body {
        Some(v) => match value_text_of(v) {
            Some(s) => LogMessage::Text(s),
            None => LogMessage::BodyJson,
        },
        None => LogMessage::Text(String::new()),
    };
    let source = match resource {
        Some(attrs) => get_service_name(attrs),
        None => None,
    };
    let metadata = metadata_of(resource, &record.attribute_keys);
    proof {
        if metadata is Some {
            lemma_entries_as_inserted(metadata->0@, resource_view(resource), record.attribute_keys@);
        }
    }
    LogFacts {
        level: severity_to_level(record.severity_number, record.severity_text.as_str()),
        message,
        timestamp: log_timestamp(
            record.time_unix_nano.as_str(),
            record.observed_time_unix_nano.as_str(),
        ),
        source,
        metadata,
        trace_id: non_empty(record.trace_id.as_str()),
        span_id: non_empty(record.span_id.as_str()),
    }
}

/// Convert the log records of one scope, in order, appending what each
/// becomes to `output`.
pub fn convert_log_records(
    resource: Option<&Vec<ResourceAttribute>>,
    records: &Vec<LogRecordText>,
    output: &mut Vec<LogFacts>,
)
    ensures
        final(output)@.len() == old(output)@.len() + records@.len(),
        forall|k: int| 0 <= k < old(output)@.len() ==> #[trigger] final(output)@[k] == old(output)@[k],
        forall|k: int|
            0 <= k < records@.len() ==> describes_log(
                #[trigger] final(output)@[old(output)@.len() + k],
                records@[k],
                resource_view(resource),
            ),
{
    let n = records.len();
    let ghost start = output@;
    for i in 0..n
        invariant
            n == records@.len(),
            output@.len() == start.len() + i,
            start == old(output)@,
            forall|k: int| 0 <= k < start.len() ==> #[trigger] output@[k] == start[k],
            forall|k: int|
                0 <= k < i ==> describes_log(
                    #[trigger] output@[start.len() + k],
                    records@[k],
                    resource_view(resource),
                ),
    {
        let facts = log_record_facts(resource, &records[i]);
        output.push(facts);
    }
}

/// A span, but for the values of its attributes and those of its events and
/// links.
#[derive(Debug, Clone)]
pub struct SpanText {
    pub trace_id: String,
    pub span_id: String,
    pub parent_span_id: String,
    pub name: String,
    pub kind: i32,
    pub start_time_unix_nano: String,
    pub end_time_unix_nano: String,
    pub status: Option<SpanStatus>,
    /// The times of the span's events, in order.
    pub event_times: Vec<String>,
    /// The trace and span ids of the span's links, in order.
    pub links: Vec<(String, String)>,
}

/// What a span becomes, but for the JSON values of its attributes (and of
/// its resource, events and links).
#[derive(Debug, Clone)]
pub struct SpanFacts {
    pub trace_id: String,
    pub span_id: String,
    pub parent_span_id: Option<String>,
    pub name: String,
    pub kind: String,
    pub start_time: Timestamp,
    pub end_time: Option<Timestamp>,
    pub status: Option<String>,
    pub status_message: Option<String>,
    pub service_name: Option<String>,
    pub service_version: Option<String>,
    /// The events kept: the position of each among the span's events, and
    /// its time.
    pub events: Vec<(usize, Timestamp)>,
    /// The trace and span ids of each link, in order; the link at the same
    /// position gives its attributes.
    pub links: Vec<(String, String)>,
}

/// Pairs of texts as pairs of character sequences.
pub open spec fn id_pairs(v: Seq<(String, String)>) -> Seq<(Seq<char>, Seq<char>)> {
    Seq::new(v.len(), |i: int| (v[i].0@, v[i].1@))
}

/// Whether `f` is what span `s` becomes, the resource having attributes
/// `resource`. A span whose start time does not read starts at the time it
/// was converted, a reading of the clock.
pub open spec fn describes_span(f: SpanFacts, s: SpanText, resource: Option<Seq<ResourceAttribute>>) -> bool {
    &&& f.trace_id@ == s.trace_id@
    &&& f.span_id@ == s.span_id@
    &&& opt_text(f.parent_span_id) == optional_text(s.parent_span_id@)
    &&& f.name@ == s.name@
    &&& f.kind@ == kind_name(s.kind)
    &&& match nano_timestamp(s.start_time_unix_nano@) {
        Some(t) => f.start_time == t,
        None => clock_reading(f.start_time),
    }
    &&& f.end_time == nano_timestamp(s.end_time_unix_nano@)
    &&& opt_text(f.status) == match s.status {
        Some(st) => Some(status_name(st.code)),
        None => None,
    }
    &&& opt_text(f.status_message) == match s.status {
        Some(st) => optional_text(st.message@),
        None => None,
    }
    &&& opt_text(f.service_name) == service_of(resource, "service.name"@)
    &&& opt_text(f.service_version) == service_of(resource, "service.version"@)
    &&& f.events@ == timed_events(texts(s.event_times@))
    &&& id_pairs(f.links@) == id_pairs(s.links@)
}

/// A copy of a list of id pairs.
fn copy_pairs(v: &Vec<(String, String)>) -> (r: Vec<(String, String)>)
    ensures
        id_pairs(r@) == id_pairs(v@),
{
    let mut out: Vec<(String, String)> = Vec::new();
    let n = v.len();
    for i in 0..n
        invariant
            n == v@.len(),
            out@.len() == i,
            id_pairs(out@) == id_pairs(v@).take(i as int),
    {
        let ghost prev = out@;
        out.push((v[i].0.clone(), v[i].1.clone()));
        assert(id_pairs(out@)[i as int] == id_pairs(v@)[i as int]);
        assert forall|k: int| 0 <= k < i implies id_pairs(out@)[k] == id_pairs(prev)[k] by {
            assert(out@[k] == prev[k]);
        }
        assert(id_pairs(out@) =~= id_pairs(v@).take(i + 1));
    }
    assert(id_pairs(v@).take(n as int) =~= id_pairs(v@));
    out
}

/// What one span becomes, the resource having attributes `resource`.
pub fn span_facts(resource: Option<&Vec<ResourceAttribute>>, span: &SpanText) -> (r: SpanFacts)
    ensures
        describes_span(r, *span, resource_view(resource)),
{
    let (service_name, service_version) = match resource {
        Some(attrs) => (get_service_name(attrs), get_service_version(attrs)),
        None => (None, None),
    };
    let (status, status_message) = span_status_fields(span.status.as_ref());
    SpanFacts {
        trace_id: span.trace_id.clone(),
        span_id: span.span_id.clone(),
        parent_span_id: non_empty(span.parent_span_id.as_str()),
        name: span.name.clone(),
        kind: kind_to_string(span.kind).to_string(),
        start_time: span_start_time(span.start_time_unix_nano.as_str()),
        end_time: parse_nano_timestamp(span.end_time_unix_nano.as_str()),
        status,
        status_message,
        service_name,
        service_version,
        events: event_times(&span.event_times),
        links: copy_pairs(&span.links),
    }
}

/// Convert the spans of one scope, in order, appending what each becomes to
/// `output`.
pub fn convert_spans(
    resource: Option<&Vec<ResourceAttribute>>,
    spans: &Vec<SpanText>,
    output: &mut Vec<SpanFacts>,
)
    ensures
        final(output)@.len() == old(output)@.len() + spans@.len(),
        forall|k: int| 0 <= k < old(output)@.len() ==> #[trigger] final(output)@[k] == old(output)@[k],
        forall|k: int|
            0 <= k < spans@.len() ==> describes_span(
                #[trigger] final(output)@[old(output)@.len() + k],
                spans@[k],
                resource_view(resource),
            ),
{
    let n = spans.len();
    let ghost start = output@;
    for i in 0..n
        invariant
            n == spans@.len(),
            output@.len() == start.len() + i,
            start == old(output)@,
            forall|k: int| 0 <= k < start.len() ==> #[trigger] output@[k] == start[k],
            forall|k: int|
                0 <= k < i ==> describes_span(
                    #[trigger] output@[start.len() + k],
                    spans@[k],
                    resource_view(resource),
                ),
    {
        let facts = span_facts(resource, &spans[i]);
        output.push(facts);
    }
}

} // verus!
