//! Reading the integers that OTLP JSON carries as decimal strings, and the
//! nanosecond timestamps among them.

use vstd::prelude::*;
use crate::text::chars_of;
use crate::time::{utc_timestamp, valid_utc, Timestamp};

verus! {

/// Whether every character of `s` is an ASCII digit.
pub open spec fn all_digits(s: Seq<char>) -> bool {
    forall|i: int| 0 <= i < s.len() ==> '0' <= #[trigger] s[i] <= '9'
}

/// The value of a string of ASCII digits, read in base 10.
pub open spec fn digits_value(s: Seq<char>) -> int
    decreases s.len(),
{
    if s.len() == 0 {
        0
    } else {
        digits_value(s.drop_last()) * 10 + (s.last() as int - '0' as int)
    }
}

/// Whether `s` opens with a sign character.
pub open spec fn signed(s: Seq<char>) -> bool {
    s.len() > 0 && (s[0] == '-' || s[0] == '+')
}

/// What `str::parse::<i64>` gives: an optional `+` or `-`, then one or more
/// ASCII digits, whose value must fit an `i64`.
pub open spec fn decimal_i64(s: Seq<char>) -> Option<i64> {
    let body = if signed(s) {
        s.skip(1)
    } else {
        s
    };
    let v = if s.len() > 0 && s[0] == '-' {
        -digits_value(body)
    } else {
        digits_value(body)
    };
    if body.len() == 0 || !all_digits(body) {
        None
    } else if i64::MIN <= v <= i64::MAX {
        Some(v as i64)
    } else {
        None
    }
}

proof fn lemma_digits_value_nonneg(s: Seq<char>)
    requires
        all_digits(s),
    ensures
        digits_value(s) >= 0,
    decreases s.len(),
{
    if s.len() > 0 {
        assert(all_digits(s.drop_last()));
        lemma_digits_value_nonneg(s.drop_last());
    }
}

/// Reading more digits never lowers the value.
proof fn lemma_digits_value_grows(s: Seq<char>, i: int, j: int)
    requires
        all_digits(s),
        0 <= i <= j <= s.len(),
    ensures
        digits_value(s.take(i)) <= digits_value(s.take(j)),
    decreases j - i,
{
    if i < j {
        lemma_digits_value_grows(s, i, j - 1);
        assert(s.take(j).drop_last() == s.take(j - 1));
        assert(all_digits(s.take(j - 1)));
        lemma_digits_value_nonneg(s.take(j - 1));
    }
}

/// Parse a decimal `i64` as `str::parse::<i64>` does.
pub fn parse_i64(s: &str) -> (r: Option<i64>)
    ensures
        r == decimal_i64(s@),
{
    let cs = chars_of(s);
    let n = cs.len();
    let negative = n > 0 && cs[0] == '-';
    let start: usize = if n > 0 && (cs[0] == '-' || cs[0] == '+') {
        1
    } else {
        0
    };
    let ghost body = if signed(s@) {
        s@.skip(1)
    } else {
        s@
    };
    assert(body == cs@.skip(start as int));
    if start >= n {
        return None;
    }
    let limit: u128 = if negative {
        9223372036854775808
    } else {
        9223372036854775807
    };
    let mut acc: u128 = 0;
    let mut i: usize = start;
    while i < n
        invariant
            n == cs@.len(),
            cs@ == s@,
            start <= i <= n,
            body == cs@.skip(start as int),
            body == (if signed(s@) {
                s@.skip(1)
            } else {
                s@
            }),
            body.len() > 0,
            negative == (s@.len() > 0 && s@[0] == '-'),
            limit == (if negative {
                9223372036854775808u128
            } else {
                9223372036854775807u128
            }),
            acc <= limit,
            limit <= 9223372036854775808,
            all_digits(body.take(i - start)),
            acc == digits_value(body.take(i - start)),
        decreases n - i,
    {
        let c = cs[i];
        if c < '0' || c > '9' {
            assert(body[i - start] == c);
            assert(!all_digits(body));
            return None;
        }
        let d = (c as u32) - 48;
        assert(body.take(i + 1 - start).drop_last() == body.take(i - start));
        acc = acc * 10 + (d as u128);
        assert(all_digits(body.take(i + 1 - start)));
        if acc > limit {
            proof {
                if all_digits(body) {
                    lemma_digits_value_grows(body, i + 1 - start, body.len() as int);
                    assert(body.take(body.len() as int) == body);
                }
            }
            return None;
        }
        i = i + 1;
    }
    assert(body.take(n - start) == body);
    if negative {
        if acc == 9223372036854775808 {
            Some(i64::MIN)
        } else {
            Some(-(acc as i64))
        }
    } else {
        Some(acc as i64)
    }
}

/// The quotient of `n` by `d`, rounded toward zero, as Rust divides.
pub open spec fn trunc_div(n: int, d: int) -> int {
    if n >= 0 {
        n / d
    } else {
        -((-n) / d)
    }
}

/// The remainder of `n` by `d` that goes with `trunc_div`: it has the sign
/// of `n`.
pub open spec fn trunc_rem(n: int, d: int) -> int {
    n - d * trunc_div(n, d)
}

/// A remainder taken as a `u32`, as `as u32` wraps it.
pub open spec fn wrap_u32(v: int) -> int {
    if v >= 0 {
        v
    } else {
        v + 0x1_0000_0000
    }
}

/// The point in time that a nanosecond count in decimal names: seconds and
/// nanoseconds as Rust's truncating division splits the count, read by
/// chrono. An empty or unreadable text names none.
pub open spec fn nano_timestamp(s: Seq<char>) -> Option<Timestamp> {
    if s.len() == 0 {
        None
    } else {
        match decimal_i64(s) {
            None => None,
            Some(n) => {
                let secs = trunc_div(n as int, 1_000_000_000);
                let nsecs = wrap_u32(trunc_rem(n as int, 1_000_000_000));
                if valid_utc(secs, nsecs) {
                    Some(Timestamp { secs: secs as i64, nanos: nsecs as u32 })
                } else {
                    None
                }
            },
        }
    }
}

/// Parse a nanosecond timestamp string.
pub fn parse_nano_timestamp(nano_str: &str) -> (r: Option<Timestamp>)
    ensures
        r == nano_timestamp(nano_str@),
{
    if nano_str.is_empty() {
        return None;
    }
    match parse_i64(nano_str) {
        None => None,
        Some(nanos) => {
            let (secs, rem): (i64, i64) = if nanos >= 0 {
                (nanos / 1_000_000_000, nanos % 1_000_000_000)
            } else {
                let magnitude: u64 = ((-(nanos + 1)) as u64) + 1;
                let q = (magnitude / 1_000_000_000) as i64;
                let m = (magnitude % 1_000_000_000) as i64;
                (-q, -m)
            };
            let nsecs: u32 = if rem >= 0 {
                rem as u32
            } else {
                (rem + 0x1_0000_0000) as u32
            };
            utc_timestamp(secs, nsecs)
        },
    }
}

/// A count that OTLP carries as a decimal string: its value, or 0 when it
/// is no `i64`.
pub fn parse_count(s: &str) -> (r: i64)
    ensures
        r == match decimal_i64(s@) {
            Some(v) => v,
            None => 0,
        },
{
    match parse_i64(s) {
        Some(v) => v,
        None => 0,
    }
}

/// The values of the strings that read as `i64`, in order; the others are
/// left out.
pub open spec fn readable_counts(s: Seq<Seq<char>>) -> Seq<i64>
    decreases s.len(),
{
    if s.len() == 0 {
        Seq::empty()
    } else {
        let rest = readable_counts(s.drop_last());
        match decimal_i64(s.last()) {
            Some(v) => rest.push(v),
            None => rest,
        }
    }
}

/// The view of each string of `v`.
pub open spec fn texts(v: Seq<String>) -> Seq<Seq<char>> {
    Seq::new(v.len(), |i: int| v[i]@)
}

/// Read the bucket counts of a histogram point, dropping those that are no
/// `i64`.
pub fn parse_bucket_counts(counts: &Vec<String>) -> (r: Vec<i64>)
    ensures
        r@ == readable_counts(texts(counts@)),
{
    let mut out: Vec<i64> = Vec::new();
    let n = counts.len();
    for i in 0..n
        invariant
            n == counts@.len(),
            out@ == readable_counts(texts(counts@).take(i as int)),
    {
        assert(texts(counts@).take(i + 1).drop_last() == texts(counts@).take(i as int));
        if let Some(v) = parse_i64(counts[i].as_str()) {
            out.push(v);
        }
    }
    assert(texts(counts@).take(n as int) == texts(counts@));
    out
}

} // verus!
