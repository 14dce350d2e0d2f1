//! The decisions of the project and API key use cases. The application
//! service looks records up and stores them; each function here takes what
//! was looked up and says which error is answered, which record is written
//! and what the caller receives.

use vstd::prelude::*;
use crate::organizations::invite::opt_text;
use crate::organizations::member::OrganizationMember;
use crate::organizations::organization::{OrgId, OrgRole, Organization};
use crate::projects::api_key::{
    key_after_revoke, key_expired, key_prefix, key_usable, ApiKey, ApiKeyId, ApiKeyName,
    ApiKeyPrefix, ApiKeyView,
};
use crate::projects::dto::{
    ApiKeyCreatedResponse, ApiKeyResponse, CreateApiKeyCommand, CreateProjectCommand,
    ProjectResponse, UpdateProjectCommand,
};
use crate::projects::errors::ProjectDomainError;
use crate::projects::keys::{api_key_hash, api_key_text, generate_api_key, hash_api_key, API_KEY_RANDOM_BYTES};
use crate::projects::project::{
    MetricsRetentionDays, Project, ProjectId, ProjectName, ProjectView, RetentionDays,
    TracesRetentionDays, LOG_RETENTION_DEFAULT_DAYS, LOG_RETENTION_MAX_DAYS,
    LOG_RETENTION_MIN_DAYS, METRICS_RETENTION_DEFAULT_DAYS, TRACES_RETENTION_DEFAULT_DAYS,
};
use crate::text::{name_fits, str_equals, trim};
use crate::time::{Timestamp, MAX_DELTA_DAYS, MAX_TIMESTAMP_SECS, MIN_TIMESTAMP_SECS, SECS_PER_DAY};

verus! {

/// The text of the error for a name that does not fit after trimming.
pub open spec fn name_problem(name: Seq<char>) -> Seq<char> {
    if trim(name).len() == 0 {
        "name cannot be empty"@
    } else {
        "name cannot exceed 100 characters"@
    }
}

/// Whether a log retention, when one is given, lies in 1..=365 days.
pub open spec fn retention_ok(days: Option<i32>) -> bool {
    days matches Some(d) ==> LOG_RETENTION_MIN_DAYS <= d <= LOG_RETENTION_MAX_DAYS
}

/// Whether an organization admits project work: it exists and is not
/// deleted.
pub open spec fn org_open(org: Option<&Organization>) -> bool {
    org matches Some(o) && o@.deleted_at is None
}

/// The organization of a project use case must exist and not be deleted;
/// otherwise the user is answered as not a member.
pub fn check_project_org(org: Option<&Organization>) -> (r: Result<(), ProjectDomainError>)
    ensures
        r is Ok <==> org_open(org),
        r is Err ==> r == Err::<(), ProjectDomainError>(ProjectDomainError::NotOrgMember),
{
    match org {
        Some(o) => {
            if o.is_deleted() {
                Err(ProjectDomainError::NotOrgMember)
            } else {
                Ok(())
            }
        },
        None => Err(ProjectDomainError::NotOrgMember),
    }
}

/// Verify that the user is a member of the organization, and an admin or
/// owner when `require_admin` is set; gives the user's role.
pub fn verify_org_membership(
    org: Option<&Organization>,
    membership: Option<&OrganizationMember>,
    require_admin: bool,
) -> (r: Result<OrgRole, ProjectDomainError>)
    ensures
        !org_open(org) ==> r == Err::<OrgRole, ProjectDomainError>(ProjectDomainError::NotOrgMember),
        org_open(org) ==> match membership {
            None => r == Err::<OrgRole, ProjectDomainError>(ProjectDomainError::NotOrgMember),
            Some(m) => if require_admin && !(m@.role == OrgRole::Owner || m@.role == OrgRole::Admin) {
                r == Err::<OrgRole, ProjectDomainError>(ProjectDomainError::InsufficientPermissions)
            } else {
                r == Ok::<OrgRole, ProjectDomainError>(m@.role)
            },
        },
{
    check_project_org(org)?;
    match membership {
        None => Err(ProjectDomainError::NotOrgMember),
        Some(m) => {
            if require_admin && !m.role().can_update_org() {
                return Err(ProjectDomainError::InsufficientPermissions);
            }
            Ok(*m.role())
        },
    }
}

/// The project, which must exist and not be deleted: a deleted project is
/// answered as not found.
pub fn require_live_project(project: Option<Project>) -> (r: Result<Project, ProjectDomainError>)
    ensures
        match project {
            Some(p) => if p@.deleted_at is None {
                r == Ok::<Project, ProjectDomainError>(p)
            } else {
                r == Err::<Project, ProjectDomainError>(ProjectDomainError::ProjectNotFound)
            },
            None => r == Err::<Project, ProjectDomainError>(ProjectDomainError::ProjectNotFound),
        },
{
    match project {
        Some(p) => {
            if p.is_deleted() {
                Err(ProjectDomainError::ProjectNotFound)
            } else {
                Ok(p)
            }
        },
        None => Err(ProjectDomainError::ProjectNotFound),
    }
}

/// Whether `r` shows project `p`.
pub open spec fn describes_project(r: ProjectResponse, p: ProjectView) -> bool {
    &&& r.id@ == p.id
    &&& r.name@ == p.name
    &&& opt_text(r.description) == p.description
    &&& r.org_id@ == p.organization_id
    &&& r.retention_days == p.retention_days
    &&& r.created_at == p.created_at
    &&& r.updated_at == p.updated_at
}

/// The project as its members see it.
pub fn project_response(p: &Project) -> (r: ProjectResponse)
    ensures
        describes_project(r, p@),
{
    let description = match p.description() {
        Some(d) => Some(d.to_string()),
        None => None,
    };
    ProjectResponse {
        id: p.id().as_str().to_string(),
        name: p.name().as_str().to_string(),
        description,
        org_id: p.organization_id().as_str().to_string(),
        retention_days: p.retention_days().value(),
        created_at: p.created_at(),
        updated_at: p.updated_at(),
    }
}

/// Create a project in the organization: the name is validated, must not
/// be taken there (`name_taken` is the answer to that question for the
/// validated name), and the log retention, when given, must lie in
/// 1..=365 days. The other retentions take their defaults.
pub fn plan_create_project(
    cmd: CreateProjectCommand,
    name_taken: bool,
    project_id: String,
    at: Timestamp,
) -> (r: Result<(Project, ProjectResponse), ProjectDomainError>)
    ensures
        r is Ok <==> name_fits(trim(cmd.name@)) && !name_taken && retention_ok(cmd.retention_days),
        !name_fits(trim(cmd.name@)) ==> (r matches Err(e)
            && e matches ProjectDomainError::InvalidProjectName(m) && m@ == name_problem(cmd.name@)),
        name_fits(trim(cmd.name@)) && name_taken ==> r == Err::<
            (Project, ProjectResponse),
            ProjectDomainError,
        >(ProjectDomainError::ProjectAlreadyExists),
        name_fits(trim(cmd.name@)) && !name_taken && !retention_ok(cmd.retention_days) ==> (r matches Err(
            e,
        ) && e matches ProjectDomainError::InvalidRetentionDays(m) && m@
            == "retention days must be between 1 and 365"@),
        r matches Ok((p, resp)) ==> p@ == (ProjectView {
            id: project_id@,
            organization_id: cmd.org_id@,
            name: trim(cmd.name@),
            description: opt_text(cmd.description),
            retention_days: match cmd.retention_days {
                Some(d) => d,
                None => LOG_RETENTION_DEFAULT_DAYS,
            },
            metrics_retention_days: METRICS_RETENTION_DEFAULT_DAYS,
            traces_retention_days: TRACES_RETENTION_DEFAULT_DAYS,
            created_at: at,
            updated_at: at,
            deleted_at: None,
        }) && describes_project(resp, p@),
{
    let name = ProjectName::new(cmd.name)?;
    if name_taken {
        return Err(ProjectDomainError::ProjectAlreadyExists);
    }
    let retention_days = match cmd.retention_days {
        Some(d) => RetentionDays::new(d)?,
        None => RetentionDays::default_value(),
    };
    let project = Project::reconstruct(
        ProjectId::new(project_id),
        OrgId::new(cmd.org_id),
        name,
        cmd.description,
        retention_days,
        MetricsRetentionDays::default_value(),
        TracesRetentionDays::default_value(),
        at,
        at,
        None,
    );
    let response = project_response(&project);
    Ok((project, response))
}

/// The projects that are not deleted, in their order.
pub open spec fn live_projects(projects: Seq<Project>) -> Seq<Project>
    decreases projects.len(),
{
    if projects.len() == 0 {
        Seq::empty()
    } else {
        let rest = live_projects(projects.drop_last());
        if projects.last()@.deleted_at is None {
            rest.push(projects.last())
        } else {
            rest
        }
    }
}

/// The projects of an organization as its members see them: the deleted
/// ones are left out.
pub fn project_list(projects: &Vec<Project>) -> (r: Vec<ProjectResponse>)
    ensures
        r@.len() == live_projects(projects@).len(),
        forall|k: int|
            0 <= k < r@.len() ==> describes_project(#[trigger] r@[k], live_projects(projects@)[k]@),
{
    let mut out: Vec<ProjectResponse> = Vec::new();
    let n = projects.len();
    for i in 0..n
        invariant
            n == projects@.len(),
            out@.len() == live_projects(projects@.take(i as int)).len(),
            forall|k: int|
                0 <= k < out@.len() ==> describes_project(
                    #[trigger] out@[k],
                    live_projects(projects@.take(i as int))[k]@,
                ),
    {
        assert(projects@.take(i + 1).drop_last() == projects@.take(i as int));
        let p = &projects[i];
        if !p.is_deleted() {
            out.push(project_response(p));
        }
    }
    assert(projects@.take(n as int) == projects@);
    out
}

/// Update a project: a new name is validated and must not be taken by
/// another project of the organization (`name_taken`), a new log retention
/// must lie in 1..=365 days; then the changes are applied at time `at`.
pub fn plan_update_project(
    project: Project,
    cmd: UpdateProjectCommand,
    name_taken: bool,
    at: Timestamp,
) -> (r: Result<(Project, ProjectResponse), ProjectDomainError>)
    ensures
        r is Ok <==> (cmd.name matches Some(n) ==> name_fits(trim(n@)) && !name_taken)
            && retention_ok(cmd.retention_days),
        cmd.name is Some && !name_fits(trim(cmd.name->0@)) ==> (r matches Err(e)
            && e matches ProjectDomainError::InvalidProjectName(m) && m@ == name_problem(
            cmd.name->0@,
        )),
        cmd.name matches Some(n) && name_fits(trim(n@)) && name_taken ==> r == Err::<
            (Project, ProjectResponse),
            ProjectDomainError,
        >(ProjectDomainError::ProjectAlreadyExists),
        (cmd.name matches Some(n) ==> name_fits(trim(n@)) && !name_taken) && !retention_ok(
            cmd.retention_days,
        ) ==> (r matches Err(e) && e matches ProjectDomainError::InvalidRetentionDays(m) && m@
            == "retention days must be between 1 and 365"@),
        r matches Ok((p, resp)) ==> p@ == (ProjectView {
            name: match cmd.name {
                Some(n) => trim(n@),
                None => project@.name,
            },
            description: match cmd.description {
                Some(d) => opt_text(d),
                None => project@.description,
            },
            retention_days: match cmd.retention_days {
                Some(d) => d,
                None => project@.retention_days,
            },
            updated_at: at,
            ..project@
        }) && describes_project(resp, p@),
{
    let new_name = match cmd.name {
        Some(n) => {
            let name = ProjectName::new(n)?;
            if name_taken {
                return Err(ProjectDomainError::ProjectAlreadyExists);
            }
            Some(name)
        },
        None => None,
    };
    let new_retention = match cmd.retention_days {
        Some(d) => Some(RetentionDays::new(d)?),
        None => None,
    };
    let mut project = project;
    project.update_at(new_name, cmd.description, new_retention, None, None, at);
    let response = project_response(&project);
    Ok((project, response))
}

/// Delete a project (softly, at time `at`).
pub fn plan_delete_project(project: Project, at: Timestamp) -> (r: Result<Project, ProjectDomainError>)
    ensures
        r is Ok <==> project@.deleted_at is None,
        r is Err ==> r == Err::<Project, ProjectDomainError>(ProjectDomainError::ProjectAlreadyDeleted),
        r matches Ok(p) ==> p@ == (ProjectView { deleted_at: Some(at), updated_at: at, ..project@ }),
{
    let mut project = project;
    project.soft_delete_at(at)?;
    Ok(project)
}

/// Whether an expiry `days` whole days after `at` can be computed: the days
/// fit a chrono `TimeDelta` and the result stays in chrono's range.
pub open spec fn expiry_fits(at: Timestamp, days: i64) -> bool {
    &&& -MAX_DELTA_DAYS <= days <= MAX_DELTA_DAYS
    &&& MIN_TIMESTAMP_SECS <= at.shifted_secs(days as int) <= MAX_TIMESTAMP_SECS
}

/// Whether an expiry `days` whole days after `at` can be computed (see
/// `expiry_fits`).
pub fn expiry_in_range(at: Timestamp, days: i64) -> (r: bool)
    ensures
        r == expiry_fits(at, days),
{
    if days < -MAX_DELTA_DAYS || days > MAX_DELTA_DAYS {
        return false;
    }
    let delta: i128 = (days as i128) * (SECS_PER_DAY as i128);
    let secs: i128 = if at.nanos >= 1_000_000_000 && days < 0 {
        (at.secs as i128) + 1 + delta
    } else {
        (at.secs as i128) + delta
    };
    (MIN_TIMESTAMP_SECS as i128) <= secs && secs <= (MAX_TIMESTAMP_SECS as i128)
}

/// `at` moved by `days` whole days.
pub open spec fn days_after(at: Timestamp, days: i64) -> Timestamp {
    Timestamp { secs: at.shifted_secs(days as int) as i64, nanos: at.shifted_nanos(days as int) as u32 }
}

/// The expiry of a key created at `at` that lives `days` days, if any.
pub open spec fn key_expiry(at: Timestamp, days: Option<i64>) -> Option<Timestamp> {
    match days {
        Some(d) => Some(days_after(at, d)),
        None => None,
    }
}

/// The key record and the one-time answer for a key with the given plain
/// text: only its hash and its prefix are kept.
pub fn issue_api_key(
    project: &Project,
    name: ApiKeyName,
    plain_key: String,
    expires_at: Option<Timestamp>,
    key_id: String,
    at: Timestamp,
) -> (r: (ApiKey, ApiKeyCreatedResponse))
    ensures
        r.0@ == (ApiKeyView {
            id: key_id@,
            project_id: project@.id,
            name: name@,
            key_prefix: key_prefix(plain_key@),
            key_hash: api_key_hash(plain_key@),
            created_at: at,
            expires_at,
            revoked_at: None,
        }),
        r.1.id@ == key_id@,
        r.1.name@ == name@,
        r.1.key_prefix@ == key_prefix(plain_key@),
        r.1.plain_key@ == plain_key@,
        r.1.created_at == at,
        r.1.expires_at == expires_at,
{
    let key_hash = hash_api_key(plain_key.as_str());
    let prefix = ApiKeyPrefix::from_key(plain_key.as_str());
    let response = ApiKeyCreatedResponse {
        id: key_id.clone(),
        name: name.as_str().to_string(),
        key_prefix: prefix.as_str().to_string(),
        plain_key,
        created_at: at,
        expires_at,
    };
    let key = ApiKey::reconstruct(
        ApiKeyId::new(key_id),
        ProjectId::new(project.id().as_str().to_string()),
        name,
        prefix,
        key_hash,
        at,
        expires_at,
        None,
    );
    (key, response)
}

/// What creating an API key named `name` for `project` at time `at`
/// answers: the validated name's error, or a fresh key drawn at random whose
/// record keeps only its hash and prefix and expires `expires_in_days` days
/// after `at` when that is given.
pub open spec fn api_key_planned(
    project: ProjectView,
    name: Seq<char>,
    expires_in_days: Option<i64>,
    key_id: Seq<char>,
    at: Timestamp,
    r: Result<(ApiKey, ApiKeyCreatedResponse), ProjectDomainError>,
) -> bool {
    &&& r is Ok <==> name_fits(trim(name))
    &&& r matches Err(e) ==> e matches ProjectDomainError::InvalidApiKeyName(m) && m@ == name_problem(
        name,
    )
    &&& r matches Ok((k, resp)) ==> {
        &&& exists|b: Seq<u8>|
            b.len() == API_KEY_RANDOM_BYTES && resp.plain_key@ == #[trigger] api_key_text(b)
        &&& k@ == (ApiKeyView {
            id: key_id,
            project_id: project.id,
            name: trim(name),
            key_prefix: key_prefix(resp.plain_key@),
            key_hash: api_key_hash(resp.plain_key@),
            created_at: at,
            expires_at: key_expiry(at, expires_in_days),
            revoked_at: None,
        })
        &&& resp.id@ == key_id
        &&& resp.name@ == trim(name)
        &&& resp.key_prefix@ == key_prefix(resp.plain_key@)
        &&& resp.created_at == at
        &&& resp.expires_at == key_expiry(at, expires_in_days)
    }
}

/// Create an API key for the project: the name is validated, a fresh key is
/// drawn at random, and it expires `expires_in_days` days after `at` when
/// that is given.
pub fn plan_create_api_key(
    project: &Project,
    cmd: CreateApiKeyCommand,
    key_id: String,
    at: Timestamp,
) -> (r: Result<(ApiKey, ApiKeyCreatedResponse), ProjectDomainError>)
    requires
        at.nanos < 1_000_000_000,
        name_fits(trim(cmd.name@)) && cmd.expires_in_days is Some ==> expiry_fits(
            at,
            cmd.expires_in_days->0,
        ),
    ensures
        api_key_planned(project@, cmd.name@, cmd.expires_in_days, key_id@, at, r),
{
    let name = ApiKeyName::new(cmd.name)?;
    let plain_key = generate_api_key();
    let expires_at = match cmd.expires_in_days {
        Some(d) => Some(at.plus_days(d)),
        None => None,
    };
    Ok(issue_api_key(project, name, plain_key, expires_at, key_id, at))
}

/// `plan_create_api_key` after checking that the expiry can be computed:
/// `None` when `expires_in_days` is given and the expiry would leave
/// chrono's range (where computing it panics), the plan otherwise.
pub fn plan_create_api_key_checked(
    project: &Project,
    cmd: CreateApiKeyCommand,
    key_id: String,
    at: Timestamp,
) -> (r: Option<Result<(ApiKey, ApiKeyCreatedResponse), ProjectDomainError>>)
    requires
        at.nanos < 1_000_000_000,
    ensures
        r is None <==> (cmd.expires_in_days matches Some(d) && !expiry_fits(at, d)),
        r matches Some(res) ==> api_key_planned(
            project@,
            cmd.name@,
            cmd.expires_in_days,
            key_id@,
            at,
            res,
        ),
{
    if let Some(d) = cmd.expires_in_days {
        if !expiry_in_range(at, d) {
            return None;
        }
    }
    Some(plan_create_api_key(project, cmd, key_id, at))
}

/// Whether `r` shows key `k`, judged active at time `at`.
pub open spec fn describes_api_key(r: ApiKeyResponse, k: ApiKeyView, at: Timestamp) -> bool {
    &&& r.id@ == k.id
    &&& r.name@ == k.name
    &&& r.key_prefix@ == k.key_prefix
    &&& r.created_at == k.created_at
    &&& r.expires_at == k.expires_at
    &&& r.is_active == key_usable(k, at)
}

/// The key as its project's members see it: never the key itself.
pub fn api_key_response(k: &ApiKey, at: Timestamp) -> (r: ApiKeyResponse)
    ensures
        describes_api_key(r, k@, at),
{
    ApiKeyResponse {
        id: k.id().as_str().to_string(),
        name: k.name().as_str().to_string(),
        key_prefix: k.key_prefix().as_str().to_string(),
        created_at: k.created_at(),
        expires_at: k.expires_at(),
        is_active: k.is_valid_at(at),
    }
}

/// The keys of a project, each judged active at time `at`.
pub fn api_key_list(keys: &Vec<ApiKey>, at: Timestamp) -> (r: Vec<ApiKeyResponse>)
    ensures
        r@.len() == keys@.len(),
        forall|k: int| 0 <= k < r@.len() ==> describes_api_key(#[trigger] r@[k], keys@[k]@, at),
{
    let mut out: Vec<ApiKeyResponse> = Vec::new();
    let n = keys.len();
    for i in 0..n
        invariant
            n == keys@.len(),
            out@.len() == i,
            forall|k: int| 0 <= k < i ==> describes_api_key(#[trigger] out@[k], keys@[k]@, at),
    {
        out.push(api_key_response(&keys[i], at));
    }
    out
}

/// Revoke a key of the project at time `at`: a key that does not exist, or
/// belongs to another project, is answered as not found. A key already
/// revoked keeps its first revocation time.
pub fn plan_revoke_api_key(key: Option<ApiKey>, project_id: &str, at: Timestamp) -> (r: Result<
    ApiKey,
    ProjectDomainError,
>)
    ensures
        match key {
            None => r == Err::<ApiKey, ProjectDomainError>(ProjectDomainError::ApiKeyNotFound),
            Some(k) => if k@.project_id != project_id@ {
                r == Err::<ApiKey, ProjectDomainError>(ProjectDomainError::ApiKeyNotFound)
            } else {
                r matches Ok(k2) && k2@ == key_after_revoke(k@, at)
            },
        },
{
    match key {
        None => Err(ProjectDomainError::ApiKeyNotFound),
        Some(k) => {
            if !str_equals(k.project_id().as_str(), project_id) {
                return Err(ProjectDomainError::ApiKeyNotFound);
            }
            let mut k = k;
            k.revoke_at(at);
            Ok(k)
        },
    }
}

/// Check a key presented for ingestion, found by its hash, at time `at`:
/// an unknown key is invalid, then a revoked one is refused, then an
/// expired one.
pub fn check_api_key(key: Option<ApiKey>, at: Timestamp) -> (r: Result<ApiKey, ProjectDomainError>)
    ensures
        match key {
            None => r == Err::<ApiKey, ProjectDomainError>(ProjectDomainError::ApiKeyInvalid),
            Some(k) => if k@.revoked_at is Some {
                r == Err::<ApiKey, ProjectDomainError>(ProjectDomainError::ApiKeyRevoked)
            } else if key_expired(k@.expires_at, at) {
                r == Err::<ApiKey, ProjectDomainError>(ProjectDomainError::ApiKeyExpired)
            } else {
                r == Ok::<ApiKey, ProjectDomainError>(k)
            },
        },
{
    match key {
        None => Err(ProjectDomainError::ApiKeyInvalid),
        Some(k) => {
            if k.is_revoked() {
                return Err(ProjectDomainError::ApiKeyRevoked);
            }
            if k.is_expired_at(at) {
                return Err(ProjectDomainError::ApiKeyExpired);
            }
            Ok(k)
        },
    }
}

/// The project a valid key opens, which must exist and not be deleted,
/// with its identifier.
pub fn key_project(project: Option<Project>) -> (r: Result<(ProjectId, Project), ProjectDomainError>)
    ensures
        match project {
            Some(p) => if p@.deleted_at is None {
                r matches Ok((id, q)) && q == p && id@ == p@.id
            } else {
                r == Err::<(ProjectId, Project), ProjectDomainError>(ProjectDomainError::ProjectNotFound)
            },
            None => r == Err::<(ProjectId, Project), ProjectDomainError>(ProjectDomainError::ProjectNotFound),
        },
{
    let project = require_live_project(project)?;
    let id = ProjectId::new(project.id().as_str().to_string());
    Ok((id, project))
}

} // verus!
