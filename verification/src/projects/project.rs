//! The project aggregate and its value objects.

use vstd::prelude::*;
use crate::organizations::organization::OrgId;
use crate::organizations::invite::opt_text;
use crate::projects::errors::ProjectDomainError;
use crate::text::{name_fits, trim, validated_name, NameProblem};
use crate::time::{clock_reading, now, Timestamp};

verus! {

/// Project ID - wrapper around a UUID string.
#[derive(Debug, Clone, PartialEq, Eq, Hash)]
pub struct ProjectId(String);

impl View for ProjectId {
    type V = Seq<char>;

    closed spec fn view(&self) -> Seq<char> {
        self.0@
    }
}

impl From<String> for ProjectId {
    fn from(id: String) -> (r: Self)
        ensures
            r@ == id@,
    {
        ProjectId(id)
    }
}

impl vstd::std_specs::convert::FromSpecImpl<String> for ProjectId {
    open spec fn obeys_from_spec() -> bool {
        true
    }

    closed spec fn from_spec(id: String) -> Self {
        ProjectId(id)
    }
}

impl ProjectId {
    pub fn new(id: String) -> (r: Self)
        ensures
            r@ == id@,
    {
        ProjectId(id)
    }

    pub fn as_str(&self) -> (r: &str)
        ensures
            r@ == self@,
    {
        self.0.as_str()
    }

    pub fn into_inner(self) -> (r: String)
        ensures
            r@ == self@,
    {
        self.0
    }
}

/// Project Name - validated name (trimmed, 1 to 100 characters).
#[derive(Debug, Clone, PartialEq, Eq)]
pub struct ProjectName(String);

impl View for ProjectName {
    type V = Seq<char>;

    closed spec fn view(&self) -> Seq<char> {
        self.0@
    }
}

impl ProjectName {
    /// A name is what remains after trimming: non-empty, at most 100 characters.
    pub open spec fn wf(&self) -> bool {
        name_fits(self@) && trim(self@) == self@
    }

    pub fn new(name: String) -> (r: Result<Self, ProjectDomainError>)
        ensures
            r is Ok <==> name_fits(trim(name@)),
            r matches Ok(n) ==> n@ == trim(name@) && n.wf(),
            r matches Err(e) ==> e matches ProjectDomainError::InvalidProjectName(m) && m@ == (
            if trim(name@).len() == 0 {
                "name cannot be empty"@
            } else {
                "name cannot exceed 100 characters"@
            }),
    {
        match validated_name(name.as_str()) {
            Ok(n) => Ok(ProjectName(n)),
            Err(NameProblem::Empty) => Err(
                ProjectDomainError::InvalidProjectName("name cannot be empty".to_string()),
            ),
            Err(NameProblem::TooLong) => Err(
                ProjectDomainError::InvalidProjectName(
                    "name cannot exceed 100 characters".to_string(),
                ),
            ),
        }
    }

    pub fn as_str(&self) -> (r: &str)
        ensures
            r@ == self@,
    {
        self.0.as_str()
    }

    pub fn into_inner(self) -> (r: String)
        ensures
            r@ == self@,
    {
        self.0
    }
}

/// Log retention bounds, in days.
pub const LOG_RETENTION_MIN_DAYS: i32 = 1;
pub const LOG_RETENTION_MAX_DAYS: i32 = 365;
pub const LOG_RETENTION_DEFAULT_DAYS: i32 = 30;

/// Metrics retention bounds, in days.
pub const METRICS_RETENTION_MIN_DAYS: i32 = 1;
pub const METRICS_RETENTION_MAX_DAYS: i32 = 365;
pub const METRICS_RETENTION_DEFAULT_DAYS: i32 = 90;

/// Traces retention bounds, in days.
pub const TRACES_RETENTION_MIN_DAYS: i32 = 1;
pub const TRACES_RETENTION_MAX_DAYS: i32 = 90;
pub const TRACES_RETENTION_DEFAULT_DAYS: i32 = 14;

/// Retention Days - validated retention period for logs (1-365 days).
#[derive(Debug, Clone, Copy, PartialEq, Eq, Structural)]
pub struct RetentionDays(i32);

impl RetentionDays {
    /// The number of days kept.
    pub closed spec fn days(self) -> i32 {
        self.0
    }

    /// Two retentions of the same number of days are the same value, so
    /// `default()` and `default_value()` give equal retentions.
    pub proof fn lemma_days_determine(a: Self, b: Self)
        requires
            a.days() == b.days(),
        ensures
            a == b,
    {
    }

    /// A retention always lies within its bounds.
    #[verifier::type_invariant]
    spec fn within_bounds(self) -> bool {
        LOG_RETENTION_MIN_DAYS <= self.0 <= LOG_RETENTION_MAX_DAYS
    }

    pub fn new(days: i32) -> (r: Result<Self, ProjectDomainError>)
        ensures
            r is Ok <==> LOG_RETENTION_MIN_DAYS <= days <= LOG_RETENTION_MAX_DAYS,
            r is Ok <==> 1 <= days <= 365,
            r matches Ok(v) ==> v.days() == days,
            r matches Err(e) ==> e matches ProjectDomainError::InvalidRetentionDays(m) && m@
                == "retention days must be between 1 and 365"@,
    {
        if days < LOG_RETENTION_MIN_DAYS || days > LOG_RETENTION_MAX_DAYS {
            return Err(
                ProjectDomainError::InvalidRetentionDays(
                    "retention days must be between 1 and 365".to_string(),
                ),
            );
        }
        Ok(RetentionDays(days))
    }

    pub fn default_value() -> (r: Self)
        ensures
            r.days() == LOG_RETENTION_DEFAULT_DAYS,
            r.days() == 30,
    {
        RetentionDays(LOG_RETENTION_DEFAULT_DAYS)
    }

    pub fn value(&self) -> (r: i32)
        ensures
            r == self.days(),
            LOG_RETENTION_MIN_DAYS <= r <= LOG_RETENTION_MAX_DAYS,
    {
        proof {
            use_type_invariant(self);
        }
        self.0
    }
}

impl Default for RetentionDays {
    fn default() -> (r: Self)
        ensures
            r.days() == LOG_RETENTION_DEFAULT_DAYS,
            r.days() == 30,
    {
        RetentionDays::default_value()
    }
}

/// Metrics Retention Days - validated retention period for metrics
/// (1-365 days).
#[derive(Debug, Clone, Copy, PartialEq, Eq, Structural)]
pub struct MetricsRetentionDays(i32);

impl MetricsRetentionDays {
    /// The number of days kept.
    pub closed spec fn days(self) -> i32 {
        self.0
    }

    /// Two retentions of the same number of days are the same value, so
    /// `default()` and `default_value()` give equal retentions.
    pub proof fn lemma_days_determine(a: Self, b: Self)
        requires
            a.days() == b.days(),
        ensures
            a == b,
    {
    }

    /// A retention always lies within its bounds.
    #[verifier::type_invariant]
    spec fn within_bounds(self) -> bool {
        METRICS_RETENTION_MIN_DAYS <= self.0 <= METRICS_RETENTION_MAX_DAYS
    }

    pub fn new(days: i32) -> (r: Result<Self, ProjectDomainError>)
        ensures
            r is Ok <==> METRICS_RETENTION_MIN_DAYS <= days <= METRICS_RETENTION_MAX_DAYS,
            r is Ok <==> 1 <= days <= 365,
            r matches Ok(v) ==> v.days() == days,
            r matches Err(e) ==> e matches ProjectDomainError::InvalidRetentionDays(m) && m@
                == "metrics retention days must be between 1 and 365"@,
    {
        if days < METRICS_RETENTION_MIN_DAYS || days > METRICS_RETENTION_MAX_DAYS {
            return Err(
                ProjectDomainError::InvalidRetentionDays(
                    "metrics retention days must be between 1 and 365".to_string(),
                ),
            );
        }
        Ok(MetricsRetentionDays(days))
    }

    pub fn default_value() -> (r: Self)
        ensures
            r.days() == METRICS_RETENTION_DEFAULT_DAYS,
            r.days() == 90,
    {
        MetricsRetentionDays(METRICS_RETENTION_DEFAULT_DAYS)
    }

    pub fn value(&self) -> (r: i32)
        ensures
            r == self.days(),
            METRICS_RETENTION_MIN_DAYS <= r <= METRICS_RETENTION_MAX_DAYS,
    {
        proof {
            use_type_invariant(self);
        }
        self.0
    }
}

impl Default for MetricsRetentionDays {
    fn default() -> (r: Self)
        ensures
            r.days() == METRICS_RETENTION_DEFAULT_DAYS,
            r.days() == 90,
    {
        MetricsRetentionDays::default_value()
    }
}

/// Traces Retention Days - validated retention period for traces
/// (1-90 days).
#[derive(Debug, Clone, Copy, PartialEq, Eq, Structural)]
pub struct TracesRetentionDays(i32);

impl TracesRetentionDays {
    /// The number of days kept.
    pub closed spec fn days(self) -> i32 {
        self.0
    }

    /// Two retentions of the same number of days are the same value, so
    /// `default()` and `default_value()` give equal retentions.
    pub proof fn lemma_days_determine(a: Self, b: Self)
        requires
            a.days() == b.days(),
        ensures
            a == b,
    {
    }

    /// A retention always lies within its bounds.
    #[verifier::type_invariant]
    spec fn within_bounds(self) -> bool {
        TRACES_RETENTION_MIN_DAYS <= self.0 <= TRACES_RETENTION_MAX_DAYS
    }

    pub fn new(days: i32) -> (r: Result<Self, ProjectDomainError>)
        ensures
            r is Ok <==> TRACES_RETENTION_MIN_DAYS <= days <= TRACES_RETENTION_MAX_DAYS,
            r is Ok <==> 1 <= days <= 90,
            r matches Ok(v) ==> v.days() == days,
            r matches Err(e) ==> e matches ProjectDomainError::InvalidRetentionDays(m) && m@
                == "traces retention days must be between 1 and 90"@,
    {
        if days < TRACES_RETENTION_MIN_DAYS || days > TRACES_RETENTION_MAX_DAYS {
            return Err(
                ProjectDomainError::InvalidRetentionDays(
                    "traces retention days must be between 1 and 90".to_string(),
                ),
            );
        }
        Ok(TracesRetentionDays(days))
    }

    pub fn default_value() -> (r: Self)
        ensures
            r.days() == TRACES_RETENTION_DEFAULT_DAYS,
            r.days() == 14,
    {
        TracesRetentionDays(TRACES_RETENTION_DEFAULT_DAYS)
    }

    pub fn value(&self) -> (r: i32)
        ensures
            r == self.days(),
            TRACES_RETENTION_MIN_DAYS <= r <= TRACES_RETENTION_MAX_DAYS,
    {
        proof {
            use_type_invariant(self);
        }
        self.0
    }
}

impl Default for TracesRetentionDays {
    fn default() -> (r: Self)
        ensures
            r.days() == TRACES_RETENTION_DEFAULT_DAYS,
            r.days() == 14,
    {
        TracesRetentionDays::default_value()
    }
}

/// What a project holds, as plain values.
pub struct ProjectView {
    pub id: Seq<char>,
    pub organization_id: Seq<char>,
    pub name: Seq<char>,
    pub description: Option<Seq<char>>,
    pub retention_days: i32,
    pub metrics_retention_days: i32,
    pub traces_retention_days: i32,
    pub created_at: Timestamp,
    pub updated_at: Timestamp,
    pub deleted_at: Option<Timestamp>,
}

/// What soft-deleting a project at `at` gives: a deleted project cannot be
/// deleted again; any other is marked deleted at `at`.
pub open spec fn project_after_delete(v: ProjectView, at: Timestamp) -> Result<
    ProjectView,
    ProjectDomainError,
> {
    if v.deleted_at is Some {
        Err(ProjectDomainError::ProjectAlreadyDeleted)
    } else {
        Ok(ProjectView { deleted_at: Some(at), updated_at: at, ..v })
    }
}

/// Project - aggregate root representing a monitored application.
#[derive(Debug, Clone)]
pub struct Project {
    id: ProjectId,
    organization_id: OrgId,
    name: ProjectName,
    description: Option<String>,
    retention_days: RetentionDays,
    metrics_retention_days: MetricsRetentionDays,
    traces_retention_days: TracesRetentionDays,
    created_at: Timestamp,
    updated_at: Timestamp,
    deleted_at: Option<Timestamp>,
}

impl View for Project {
    type V = ProjectView;

    closed spec fn view(&self) -> ProjectView {
        ProjectView {
            id: self.id@,
            organization_id: self.organization_id@,
            name: self.name@,
            description: opt_text(self.description),
            retention_days: self.retention_days.days(),
            metrics_retention_days: self.metrics_retention_days.days(),
            traces_retention_days: self.traces_retention_days.days(),
            created_at: self.created_at,
            updated_at: self.updated_at,
            deleted_at: self.deleted_at,
        }
    }
}

impl Project {
    /// Reconstruct from the persistence layer (also the constructor with
    /// explicit times).
    pub fn reconstruct(
        id: ProjectId,
        organization_id: OrgId,
        name: ProjectName,
        description: Option<String>,
        retention_days: RetentionDays,
        metrics_retention_days: MetricsRetentionDays,
        traces_retention_days: TracesRetentionDays,
        created_at: Timestamp,
        updated_at: Timestamp,
        deleted_at: Option<Timestamp>,
    ) -> (r: Self)
        ensures
            r@ == (ProjectView {
                id: id@,
                organization_id: organization_id@,
                name: name@,
                description: opt_text(description),
                retention_days: retention_days.days(),
                metrics_retention_days: metrics_retention_days.days(),
                traces_retention_days: traces_retention_days.days(),
                created_at,
                updated_at,
                deleted_at,
            }),
    {
        Project {
            id,
            organization_id,
            name,
            description,
            retention_days,
            metrics_retention_days,
            traces_retention_days,
            created_at,
            updated_at,
            deleted_at,
        }
    }

    /// Create a new project, stamped with the current time.
    pub fn new(
        id: ProjectId,
        organization_id: OrgId,
        name: ProjectName,
        description: Option<String>,
        retention_days: RetentionDays,
        metrics_retention_days: MetricsRetentionDays,
        traces_retention_days: TracesRetentionDays,
    ) -> (r: Self)
        ensures
            r@.id == id@,
            r@.organization_id == organization_id@,
            r@.name == name@,
            r@.description == opt_text(description),
            r@.retention_days == retention_days.days(),
            r@.metrics_retention_days == metrics_retention_days.days(),
            r@.traces_retention_days == traces_retention_days.days(),
            r@.created_at == r@.updated_at,
            r@.deleted_at is None,
            clock_reading(r@.created_at),
    {
        let at = now();
        Project::reconstruct(
            id,
            organization_id,
            name,
            description,
            retention_days,
            metrics_retention_days,
            traces_retention_days,
            at,
            at,
            None,
        )
    }

    pub fn id(&self) -> (r: &ProjectId)
        ensures
            r@ == self@.id,
    {
        &self.id
    }

    pub fn organization_id(&self) -> (r: &OrgId)
        ensures
            r@ == self@.organization_id,
    {
        &self.organization_id
    }

    pub fn name(&self) -> (r: &ProjectName)
        ensures
            r@ == self@.name,
    {
        &self.name
    }

    pub fn description(&self) -> (r: Option<&str>)
        ensures
            match r {
                Some(s) => self@.description == Some(s@),
                None => self@.description is None,
            },
    {
        match &self.description {
            Some(s) => Some(s.as_str()),
            None => None,
        }
    }

    pub fn retention_days(&self) -> (r: RetentionDays)
        ensures
            r.days() == self@.retention_days,
    {
        self.retention_days
    }

    pub fn metrics_retention_days(&self) -> (r: MetricsRetentionDays)
        ensures
            r.days() == self@.metrics_retention_days,
    {
        self.metrics_retention_days
    }

    pub fn traces_retention_days(&self) -> (r: TracesRetentionDays)
        ensures
            r.days() == self@.traces_retention_days,
    {
        self.traces_retention_days
    }

    pub fn created_at(&self) -> (r: Timestamp)
        ensures
            r == self@.created_at,
    {
        self.created_at
    }

    pub fn updated_at(&self) -> (r: Timestamp)
        ensures
            r == self@.updated_at,
    {
        self.updated_at
    }

    pub fn deleted_at(&self) -> (r: Option<Timestamp>)
        ensures
            r == self@.deleted_at,
    {
        self.deleted_at
    }

    pub fn is_deleted(&self) -> (r: bool)
        ensures
            r == self@.deleted_at is Some,
    {
        self.deleted_at.is_some()
    }

    /// Update the project's details at time `at`: each given value replaces
    /// the current one, the others stay.
    pub fn update_at(
        &mut self,
        name: Option<ProjectName>,
        description: Option<Option<String>>,
        retention_days: Option<RetentionDays>,
        metrics_retention_days: Option<MetricsRetentionDays>,
        traces_retention_days: Option<TracesRetentionDays>,
        at: Timestamp,
    )
        ensures
            final(self)@ == (ProjectView {
                name: match name {
                    Some(n) => n@,
                    None => old(self)@.name,
                },
                description: match description {
                    Some(d) => opt_text(d),
                    None => old(self)@.description,
                },
                retention_days: match retention_days {
                    Some(d) => d.days(),
                    None => old(self)@.retention_days,
                },
                metrics_retention_days: match metrics_retention_days {
                    Some(d) => d.days(),
                    None => old(self)@.metrics_retention_days,
                },
                traces_retention_days: match traces_retention_days {
                    Some(d) => d.days(),
                    None => old(self)@.traces_retention_days,
                },
                updated_at: at,
                ..old(self)@
            }),
    {
        if let Some(name) = name {
            self.name = name;
        }
        if let Some(description) = description {
            self.description = description;
        }
        if let Some(retention_days) = retention_days {
            self.retention_days = retention_days;
        }
        if let Some(metrics_retention_days) = metrics_retention_days {
            self.metrics_retention_days = metrics_retention_days;
        }
        if let Some(traces_retention_days) = traces_retention_days {
            self.traces_retention_days = traces_retention_days;
        }
        self.updated_at = at;
    }

    /// Update the project's details, stamped with the current time.
    pub fn update(
        &mut self,
        name: Option<ProjectName>,
        description: Option<Option<String>>,
        retention_days: Option<RetentionDays>,
        metrics_retention_days: Option<MetricsRetentionDays>,
        traces_retention_days: Option<TracesRetentionDays>,
    )
        ensures
            final(self)@.name == match name {
                Some(n) => n@,
                None => old(self)@.name,
            },
            final(self)@.description == match description {
                Some(d) => opt_text(d),
                None => old(self)@.description,
            },
            final(self)@.retention_days == match retention_days {
                Some(d) => d.days(),
                None => old(self)@.retention_days,
            },
            final(self)@.metrics_retention_days == match metrics_retention_days {
                Some(d) => d.days(),
                None => old(self)@.metrics_retention_days,
            },
            final(self)@.traces_retention_days == match traces_retention_days {
                Some(d) => d.days(),
                None => old(self)@.traces_retention_days,
            },
            final(self)@.id == old(self)@.id,
            final(self)@.organization_id == old(self)@.organization_id,
            final(self)@.created_at == old(self)@.created_at,
            final(self)@.deleted_at == old(self)@.deleted_at,
            clock_reading(final(self)@.updated_at),
    {
        self.update_at(
            name,
            description,
            retention_days,
            metrics_retention_days,
            traces_retention_days,
            now(),
        );
    }

    /// Soft delete at time `at`; a deleted project cannot be deleted again,
    /// and is then left as it was.
    pub fn soft_delete_at(&mut self, at: Timestamp) -> (r: Result<(), ProjectDomainError>)
        ensures
            match project_after_delete(old(self)@, at) {
                Ok(v) => r is Ok && final(self)@ == v,
                Err(e) => r == Err::<(), ProjectDomainError>(e) && final(self)@ == old(self)@,
            },
            r is Ok <==> old(self)@.deleted_at is None,
            r is Err ==> r == Err::<(), ProjectDomainError>(
                ProjectDomainError::ProjectAlreadyDeleted,
            ) && final(self)@ == old(self)@,
            r is Ok ==> final(self)@ == (ProjectView {
                deleted_at: Some(at),
                updated_at: at,
                ..old(self)@
            }),
    {
        if self.deleted_at.is_some() {
            return Err(ProjectDomainError::ProjectAlreadyDeleted);
        }
        self.deleted_at = Some(at);
        self.updated_at = at;
        Ok(())
    }

    /// Soft delete the project, stamped with the current time.
    pub fn soft_delete(&mut self) -> (r: Result<(), ProjectDomainError>)
        ensures
            r is Ok <==> old(self)@.deleted_at is None,
            r is Err ==> r == Err::<(), ProjectDomainError>(
                ProjectDomainError::ProjectAlreadyDeleted,
            ) && final(self)@ == old(self)@,
            r is Ok ==> final(self)@.deleted_at is Some && final(self)@.id == old(self)@.id
                && final(self)@.name == old(self)@.name && final(self)@.organization_id == old(
                self,
            )@.organization_id && final(self)@.created_at == old(self)@.created_at,
            r is Ok ==> final(self)@ == (ProjectView {
                deleted_at: Some(final(self)@.updated_at),
                updated_at: final(self)@.updated_at,
                ..old(self)@
            }) && clock_reading(final(self)@.updated_at),
    {
        self.soft_delete_at(now())
    }
}

} // verus!
