//! Retention of metrics and spans: each cleanup round deletes, for every
//! active project, what is older than that project's retention.

use vstd::prelude::*;
use crate::projects::project::Project;
use crate::time::{Timestamp, MAX_TIMESTAMP_SECS};

verus! {

/// `at` moved back by `days` whole days.
pub open spec fn days_before(at: Timestamp, days: int) -> Timestamp {
    Timestamp { secs: at.shifted_secs(-days) as i64, nanos: at.shifted_nanos(-days) as u32 }
}

/// The point in time before which a project's metrics are deleted, in a
/// round that runs at `at`: its metrics retention counted back from `at`.
pub fn metrics_cutoff(project: &Project, at: Timestamp) -> (r: Timestamp)
    requires
        0 <= at.secs <= MAX_TIMESTAMP_SECS,
        at.nanos < 1_000_000_000,
    ensures
        r == days_before(at, project@.metrics_retention_days as int),
        r.secs == at.secs - project@.metrics_retention_days * 86400,
        r.nanos == at.nanos,
{
    let days = project.metrics_retention_days().value();
    at.plus_days(-(days as i64))
}

/// The point in time before which a project's spans are deleted, in a round
/// that runs at `at`: its traces retention counted back from `at`.
pub fn traces_cutoff(project: &Project, at: Timestamp) -> (r: Timestamp)
    requires
        0 <= at.secs <= MAX_TIMESTAMP_SECS,
        at.nanos < 1_000_000_000,
    ensures
        r == days_before(at, project@.traces_retention_days as int),
        r.secs == at.secs - project@.traces_retention_days * 86400,
        r.nanos == at.nanos,
{
    let days = project.traces_retention_days().value();
    at.plus_days(-(days as i64))
}

} // verus!
