//! Points in time as the domain reads them: seconds since the Unix epoch
//! and the nanoseconds within that second, read from the system clock
//! through chrono and shifted by whole days as chrono shifts them.

use vstd::prelude::*;
use chrono::TimeZone;

verus! {

/// The earliest second that chrono can represent (January 1st, -262143).
pub const MIN_TIMESTAMP_SECS: i64 = -8334601228800;

/// The latest second that chrono can represent (December 31st, 262142).
pub const MAX_TIMESTAMP_SECS: i64 = 8210266876799;

/// Seconds in a day.
pub const SECS_PER_DAY: i64 = 86400;

/// The largest number of days that a chrono `TimeDelta` can hold
/// (`i64::MAX` milliseconds).
pub const MAX_DELTA_DAYS: i64 = 106751991167;

/// A point in time: whole seconds since 1970-01-01T00:00:00Z (leap seconds
/// not counted) and the nanoseconds past that second, which reach
/// 1_000_000_000 or more only inside a leap second.
#[derive(Debug, Clone, Copy, PartialEq, Eq, Structural)]
pub struct Timestamp {
    pub secs: i64,
    pub nanos: u32,
}

impl Timestamp {
    /// Strictly earlier than `other`.
    pub open spec fn spec_before(self, other: Timestamp) -> bool {
        self.secs < other.secs || (self.secs == other.secs && self.nanos < other.nanos)
    }

    /// Time is ordered by seconds, then nanoseconds: no point is before
    /// itself, and of two different points exactly one is before the other.
    pub proof fn lemma_before_is_an_order(a: Timestamp, b: Timestamp)
        ensures
            !a.spec_before(a),
            a.secs < b.secs ==> a.spec_before(b) && !b.spec_before(a),
            a.secs == b.secs && a.nanos < b.nanos ==> a.spec_before(b) && !b.spec_before(a),
            a != b ==> (a.spec_before(b) != b.spec_before(a)),
    {
    }

    /// Whether `self` comes strictly after `other`.
    pub fn is_after(&self, other: &Timestamp) -> (r: bool)
        ensures
            r == other.spec_before(*self),
    {
        self.secs > other.secs || (self.secs == other.secs && self.nanos > other.nanos)
    }

    /// The seconds of `self` moved by `days` whole days. A point inside a leap
    /// second leaves the leap second: moving forward keeps the same second,
    /// moving backward starts from the next one.
    pub open spec fn shifted_secs(self, days: int) -> int {
        if self.nanos >= 1_000_000_000 && days < 0 {
            self.secs + 1 + days * SECS_PER_DAY
        } else {
            self.secs + days * SECS_PER_DAY
        }
    }

    /// The nanoseconds of `self` moved by `days` whole days.
    pub open spec fn shifted_nanos(self, days: int) -> int {
        if self.nanos >= 1_000_000_000 && days != 0 {
            self.nanos - 1_000_000_000
        } else {
            self.nanos as int
        }
    }

    /// `self` moved by `days` whole days, as `DateTime + TimeDelta::days`.
    /// chrono panics when the days do not fit a `TimeDelta` or the result
    /// leaves its range; those inputs are left out.
    pub fn plus_days(self, days: i64) -> (r: Timestamp)
        requires
            -MAX_DELTA_DAYS <= days <= MAX_DELTA_DAYS,
            MIN_TIMESTAMP_SECS <= self.shifted_secs(days as int) <= MAX_TIMESTAMP_SECS,
            self.nanos < 2_000_000_000,
        ensures
            r.secs == self.shifted_secs(days as int),
            r.nanos == self.shifted_nanos(days as int),
            self.nanos < 1_000_000_000 ==> r.secs == self.secs + days * 86400 && r.nanos
                == self.nanos,
    {
        let delta = days * SECS_PER_DAY;
        if self.nanos >= 1_000_000_000 && days != 0 {
            if days < 0 {
                Timestamp { secs: self.secs + 1 + delta, nanos: self.nanos - 1_000_000_000 }
            } else {
                Timestamp { secs: self.secs + delta, nanos: self.nanos - 1_000_000_000 }
            }
        } else {
            Timestamp { secs: self.secs + delta, nanos: self.nanos }
        }
    }
}

/// What a reading of the clock can be: a point not before the epoch, within
/// chrono's range, and not inside a leap second.
pub open spec fn clock_reading(t: Timestamp) -> bool {
    0 <= t.secs <= MAX_TIMESTAMP_SECS && t.nanos < 1_000_000_000
}

/// The current time, read by `chrono::Utc::now`. Nothing ties the result to
/// an earlier read; chrono builds it from the system clock's duration since
/// the Unix epoch, so it is not before the epoch, within chrono's range, and
/// not inside a leap second. (chrono panics when the system clock reads a
/// time before the epoch; that depends on the machine, not on an input.)
#[verifier::external_body]
pub(crate) fn now() -> (t: Timestamp)
    ensures
        clock_reading(t),
{
    let n = chrono::Utc::now();
    Timestamp { secs: n.timestamp(), nanos: n.timestamp_subsec_nanos() }
}

/// Whether chrono has a point in time for `secs` seconds and `nsecs`
/// nanoseconds since the epoch: the day must be in its range, and the
/// nanoseconds below one second, or below two inside a leap second (the
/// last second of a minute).
pub open spec fn valid_utc(secs: int, nsecs: int) -> bool {
    &&& MIN_TIMESTAMP_SECS <= secs <= MAX_TIMESTAMP_SECS
    &&& 0 <= nsecs
    &&& (nsecs < 1_000_000_000 || (nsecs < 2_000_000_000 && secs % 60 == 59))
}

/// `Utc.timestamp_opt(secs, nsecs).single()`: chrono builds the point in time
/// from the day and the second of the day, and refuses a day out of its
/// range and a nanosecond count that the second cannot hold; the point it
/// builds gives back `secs` and `nsecs`.
#[verifier::external_body]
pub(crate) fn utc_timestamp(secs: i64, nsecs: u32) -> (r: Option<Timestamp>)
    ensures
        r is Some <==> valid_utc(secs as int, nsecs as int),
        r matches Some(t) ==> t.secs == secs && t.nanos == nsecs,
{
    match chrono::Utc.timestamp_opt(secs, nsecs).single() {
        Some(d) => Some(Timestamp { secs: d.timestamp(), nanos: d.timestamp_subsec_nanos() }),
        None => None,
    }
}

} // verus!
