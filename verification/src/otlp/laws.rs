//! Properties of the OTLP conversions that hold over all inputs: how each
//! kind of data point is stored, the names of span kinds and statuses, and
//! the levels of the OTLP severity ranges.

use vstd::prelude::*;
use crate::otlp::conversion::{count_value, point_type, timed_events, PointShape};
use crate::otlp::numbers::{decimal_i64, nano_timestamp, readable_counts};
use crate::otlp::tags::{insert_tags, tag_map, TagSource};
use crate::otlp::types::{first_string_value, kind_name, severity_level, status_name, ResourceAttribute};
use crate::time::Timestamp;

verus! {

/// A summary data point is stored like a histogram point: both are of type
/// "histogram".
pub proof fn lemma_summary_stored_as_histogram(summary: PointShape, histogram: PointShape)
    requires
        summary is Summary,
        histogram is Histogram,
    ensures
        point_type(summary) == point_type(histogram),
        point_type(summary) == "histogram"@,
{
}

/// A gauge point is a "gauge"; a sum point is a "counter" when it is
/// monotonic and a "gauge" otherwise.
pub proof fn lemma_gauge_and_sum_types(shape: PointShape)
    ensures
        shape is Gauge ==> point_type(shape) == "gauge"@,
        shape matches PointShape::Sum { is_monotonic, .. } ==> point_type(shape) == if is_monotonic {
            "counter"@
        } else {
            "gauge"@
        },
{
}

/// Each OTLP span kind has its own name: 1 internal, 2 server, 3 client,
/// 4 producer, 5 consumer, and any other number reads as internal; two
/// different kinds from 1 to 5 never share a name.
pub proof fn lemma_span_kind_names(a: i32, b: i32)
    ensures
        kind_name(1) == "internal"@,
        kind_name(2) == "server"@,
        kind_name(3) == "client"@,
        kind_name(4) == "producer"@,
        kind_name(5) == "consumer"@,
        !(1 <= a <= 5) ==> kind_name(a) == "internal"@,
        1 <= a <= 5 && 1 <= b <= 5 && a != b ==> kind_name(a) != kind_name(b),
{
    reveal_strlit("internal");
    reveal_strlit("server");
    reveal_strlit("client");
    reveal_strlit("producer");
    reveal_strlit("consumer");
    if 1 <= a <= 5 && 1 <= b <= 5 && a != b {
        assert(kind_name(a)[0] != kind_name(b)[0] || kind_name(a).len() != kind_name(b).len()
            || kind_name(a)[1] != kind_name(b)[1]);
    }
}

/// Without a severity text, each OTLP severity range has its level: 1-4
/// TRACE, 5-8 DEBUG, 9-12 INFO, 13-16 WARN, 17-20 ERROR, 21-24 FATAL, and
/// any other number INFO.
pub proof fn lemma_severity_ranges(n: i32)
    ensures
        1 <= n <= 4 ==> severity_level(n) == "TRACE"@,
        5 <= n <= 8 ==> severity_level(n) == "DEBUG"@,
        9 <= n <= 12 ==> severity_level(n) == "INFO"@,
        13 <= n <= 16 ==> severity_level(n) == "WARN"@,
        17 <= n <= 20 ==> severity_level(n) == "ERROR"@,
        21 <= n <= 24 ==> severity_level(n) == "FATAL"@,
        !(1 <= n <= 24) ==> severity_level(n) == "INFO"@,
{
}

/// A span status code 1 is "ok", 2 is "error", and any other is "unset".
pub proof fn lemma_status_names(code: i32)
    ensures
        code == 1 ==> status_name(code) == "ok"@,
        code == 2 ==> status_name(code) == "error"@,
        code != 1 && code != 2 ==> status_name(code) == "unset"@,
{
}

/// The service a resource names is decided by the first attribute with
/// the key: its string value, or nothing when its value is not a string,
/// whatever later attributes with the same key hold.
pub proof fn lemma_first_attribute_decides(attrs: Seq<ResourceAttribute>, key: Seq<char>, i: int)
    requires
        0 <= i < attrs.len(),
        attrs[i].key@ == key,
        forall|j: int| 0 <= j < i ==> (#[trigger] attrs[j]).key@ != key,
    ensures
        first_string_value(attrs, key) == match attrs[i].string_value {
            Some(s) => Some(s@),
            None => None,
        },
    decreases i,
{
    if i > 0 {
        assert forall|j: int| 0 <= j < i - 1 implies (#[trigger] attrs.drop_first()[j]).key@ != key by {
            assert(attrs.drop_first()[j] == attrs[j + 1]);
        }
        lemma_first_attribute_decides(attrs.drop_first(), key, i - 1);
        assert(attrs[0].key@ != key);
    }
}

/// A resource without an attribute with the key names nothing under it.
pub proof fn lemma_missing_attribute_names_nothing(attrs: Seq<ResourceAttribute>, key: Seq<char>)
    requires
        forall|j: int| 0 <= j < attrs.len() ==> (#[trigger] attrs[j]).key@ != key,
    ensures
        first_string_value(attrs, key) is None,
    decreases attrs.len(),
{
    if attrs.len() > 0 {
        assert forall|j: int| 0 <= j < attrs.len() - 1 implies (#[trigger] attrs.drop_first()[j]).key@
            != key by {
            assert(attrs.drop_first()[j] == attrs[j + 1]);
        }
        lemma_missing_attribute_names_nothing(attrs.drop_first(), key);
        assert(attrs[0].key@ != key);
    }
}

/// The events kept of a span are exactly those whose time reads, in order,
/// each with the time it reads as: every kept entry names an event whose
/// time reads as the entry's time, the positions increase, and every event
/// whose time reads is kept.
pub proof fn lemma_timed_events(times: Seq<Seq<char>>)
    requires
        times.len() <= usize::MAX,
    ensures
        forall|k: int|
            0 <= k < timed_events(times).len() ==> {
                let e = #[trigger] timed_events(times)[k];
                &&& 0 <= e.0 < times.len()
                &&& nano_timestamp(times[e.0 as int]) == Some(e.1)
            },
        forall|k1: int, k2: int|
            0 <= k1 < k2 < timed_events(times).len() ==> (#[trigger] timed_events(times)[k1]).0
                < (#[trigger] timed_events(times)[k2]).0,
        forall|i: int|
            0 <= i < times.len() && (#[trigger] nano_timestamp(times[i])) is Some ==> exists|k: int|
                0 <= k < timed_events(times).len() && (#[trigger] timed_events(times)[k]).0 == i,
    decreases times.len(),
{
    if times.len() > 0 {
        let d = times.drop_last();
        lemma_timed_events(d);
        let rest = timed_events(d);
        let n = times.len() - 1;
        assert forall|i: int| 0 <= i < n implies times[i] == #[trigger] d[i] by {}
        let out = timed_events(times);
        assert(times.last() == times[n]);
        match nano_timestamp(times.last()) {
            Some(t) => {
                assert(out == rest.push((n as usize, t)));
                assert(out[rest.len() as int] == (n as usize, t));
            },
            None => {
                assert(out == rest);
            },
        }
        assert forall|k: int| 0 <= k < rest.len() implies #[trigger] out[k] == rest[k] && rest[k].0 < n by {
            let e = rest[k];
            assert(d[e.0 as int] == times[e.0 as int]);
        }
        assert forall|k: int| 0 <= k < out.len() implies {
            let e = #[trigger] out[k];
            &&& 0 <= e.0 < times.len()
            &&& nano_timestamp(times[e.0 as int]) == Some(e.1)
        } by {
            if k < rest.len() {
                let e = rest[k];
                assert(d[e.0 as int] == times[e.0 as int]);
            }
        }
        assert forall|k1: int, k2: int| 0 <= k1 < k2 < out.len() implies (#[trigger] out[k1]).0
            < (#[trigger] out[k2]).0 by {
            assert(out[k1] == rest[k1]);
            if k2 < rest.len() {
                assert(out[k2] == rest[k2]);
            }
        }
        assert forall|i: int| 0 <= i < times.len() && (#[trigger] nano_timestamp(times[i])) is Some implies exists|k: int|
            0 <= k < out.len() && (#[trigger] out[k]).0 == i by {
            if i < n {
                assert(nano_timestamp(d[i]) is Some);
                let k = choose|k: int| 0 <= k < rest.len() && (#[trigger] rest[k]).0 == i;
                assert(out[k] == rest[k]);
            } else {
                assert(out[rest.len() as int].0 == i);
            }
        }
    }
}

/// How a nanosecond count is read as a point in time: a count that does
/// not read names nothing; a count `n` of zero or more names second
/// `n / 10^9` and nanosecond `n % 10^9`; a negative count names a point only
/// when it is a whole number of seconds (the remainder of Rust's truncating
/// division does not fit the nanoseconds otherwise).
pub proof fn lemma_nano_timestamp_reading(s: Seq<char>)
    ensures
        s.len() == 0 || decimal_i64(s) is None ==> nano_timestamp(s) is None,
        s.len() > 0 && (decimal_i64(s) matches Some(n) && n >= 0) ==> nano_timestamp(s) == Some(
            Timestamp {
                secs: (decimal_i64(s)->0 / 1_000_000_000) as i64,
                nanos: (decimal_i64(s)->0 % 1_000_000_000) as u32,
            },
        ),
        s.len() > 0 && (decimal_i64(s) matches Some(n) && n < 0 && (-n) % 1_000_000_000 != 0)
            ==> nano_timestamp(s) is None,
        s.len() > 0 && (decimal_i64(s) matches Some(n) && n < 0 && (-n) % 1_000_000_000 == 0)
            ==> nano_timestamp(s) == Some(
            Timestamp { secs: (-((-decimal_i64(s)->0) / 1_000_000_000)) as i64, nanos: 0 },
        ),
{
    if s.len() > 0 {
        if let Some(n) = decimal_i64(s) {
            let d: int = 1_000_000_000;
            if n >= 0 {
                vstd::arithmetic::div_mod::lemma_fundamental_div_mod(n as int, d);
                vstd::arithmetic::div_mod::lemma_mod_pos_bound(n as int, d);
                assert((n as int) / d <= 9_223_372_037) by (nonlinear_arith)
                    requires
                        n <= i64::MAX,
                        n >= 0,
                        d == 1_000_000_000,
                ;
            } else {
                let m: int = -(n as int);
                vstd::arithmetic::div_mod::lemma_fundamental_div_mod(m, d);
                vstd::arithmetic::div_mod::lemma_mod_pos_bound(m, d);
                assert(m / d <= 9_223_372_037) by (nonlinear_arith)
                    requires
                        m <= i64::MAX + 1,
                        m >= 0,
                        d == 1_000_000_000,
                ;
                assert(m / d >= 0) by (nonlinear_arith)
                    requires
                        m >= 0,
                        d == 1_000_000_000,
                ;
            }
        }
    }
}

/// Bucket counts keep the counts that read, in order, and drop the others:
/// a count that reads adds its value at the end, one that does not adds
/// nothing.
pub proof fn lemma_bucket_counts_extend(s: Seq<Seq<char>>, t: Seq<char>)
    ensures
        decimal_i64(t) is None ==> readable_counts(s.push(t)) == readable_counts(s),
        decimal_i64(t) matches Some(v) ==> readable_counts(s.push(t)) == readable_counts(s).push(v),
{
    assert(s.push(t).drop_last() == s);
    assert(s.push(t).last() == t);
}

/// A histogram or summary count that does not read counts as zero; one
/// that reads counts as its value.
pub proof fn lemma_count_value(s: Seq<char>)
    ensures
        decimal_i64(s) is None ==> count_value(s) == 0,
        decimal_i64(s) matches Some(v) ==> count_value(s) == v,
{
}

/// The tags of a data point: a resource attribute gives a tag under
/// `resource.` and its key, a point attribute a tag under its own key, and
/// when both give the same key the point's own attribute wins; an attribute
/// without tag text gives no tag.
pub proof fn lemma_tag_sources(point: TagSource, res: TagSource)
    ensures
        res.text matches Some(t) ==> tag_map(Seq::empty(), Some(seq![res])) == map![
            "resource."@ + res.key@ => t@
        ],
        point.text matches Some(t) ==> tag_map(seq![point], None) == map![point.key@ => t@],
        point.text is None ==> tag_map(seq![point], None) == Map::<Seq<char>, Seq<char>>::empty(),
        point.text matches Some(t) ==> tag_map(seq![point], Some(seq![res]))[point.key@] == t@,
{
    assert(seq![res].drop_last() =~= Seq::<TagSource>::empty());
    assert(seq![point].drop_last() =~= Seq::<TagSource>::empty());
    assert(seq![res].last() == res);
    assert(seq![point].last() == point);
    let e = Map::<Seq<char>, Seq<char>>::empty();
    assert(insert_tags(e, "resource."@, Seq::empty()) == e);
    let base = insert_tags(e, "resource."@, seq![res]);
    assert(insert_tags(base, Seq::empty(), Seq::empty()) == base);
    assert(insert_tags(e, Seq::empty(), Seq::empty()) == e);
    assert(Seq::<char>::empty() + point.key@ =~= point.key@);
    if let Some(t) = res.text {
        assert(tag_map(Seq::empty(), Some(seq![res])) =~= map!["resource."@ + res.key@ => t@]);
    }
    if let Some(t) = point.text {
        assert(tag_map(seq![point], None) =~= map![point.key@ => t@]);
    } else {
        assert(tag_map(seq![point], None) =~= e);
    }
}

} // verus!
