//! The order of the project use cases that read before they write.
//!
//! As for the organization use cases, the caller holds the facts read so far
//! (`None` for what it has not read yet), asks the step function what comes
//! next and performs that read, until the step function refuses or says
//! that every check before the plan has passed. Nothing is written before
//! that.

use vstd::prelude::*;
use crate::organizations::member::OrganizationMember;
use crate::organizations::organization::{OrgRole, Organization};
use crate::projects::errors::ProjectDomainError;
use crate::projects::project::{Project, ProjectName};
use crate::projects::service::name_problem;
use crate::text::{name_fits, trim};

verus! {

/// The organization and membership through which a user reaches a project
/// or an organization's projects.
pub struct MembershipFacts {
    pub org: Option<Option<Organization>>,
    pub membership: Option<Option<OrganizationMember>>,
}

/// The next step of checking a membership.
#[derive(Debug)]
pub enum MembershipNext {
    FindOrg,
    FindMembership,
    Refuse(ProjectDomainError),
    /// The user is a member with this role (an admin or owner when that is
    /// required).
    Member(OrgRole),
}

/// The membership check: the organization must exist and not be deleted
/// (otherwise the user is answered as not a member), the user must be a
/// member, and an admin or owner when `require_admin` is set.
pub open spec fn membership_step(f: MembershipFacts, require_admin: bool, r: MembershipNext) -> bool {
    match f.org {
        None => r is FindOrg,
        Some(org) => if !(org matches Some(o) && o@.deleted_at is None) {
            r == MembershipNext::Refuse(ProjectDomainError::NotOrgMember)
        } else {
            match f.membership {
                None => r is FindMembership,
                Some(None) => r == MembershipNext::Refuse(ProjectDomainError::NotOrgMember),
                Some(Some(m)) => if require_admin && m@.role == OrgRole::Member {
                    r == MembershipNext::Refuse(ProjectDomainError::InsufficientPermissions)
                } else {
                    r == MembershipNext::Member(m@.role)
                },
            }
        },
    }
}

/// The next step of checking a membership.
pub fn membership_next(f: &MembershipFacts, require_admin: bool) -> (r: MembershipNext)
    ensures
        membership_step(*f, require_admin, r),
{
    match &f.org {
        None => return MembershipNext::FindOrg,
        Some(None) => return MembershipNext::Refuse(ProjectDomainError::NotOrgMember),
        Some(Some(o)) => {
            if o.is_deleted() {
                return MembershipNext::Refuse(ProjectDomainError::NotOrgMember);
            }
        },
    }
    match &f.membership {
        None => MembershipNext::FindMembership,
        Some(None) => MembershipNext::Refuse(ProjectDomainError::NotOrgMember),
        Some(Some(m)) => {
            if require_admin && !m.role().can_update_org() {
                return MembershipNext::Refuse(ProjectDomainError::InsufficientPermissions);
            }
            MembershipNext::Member(*m.role())
        },
    }
}

/// What creating a project has read: the membership facts, and whether the
/// name is taken in the organization.
pub struct CreateProjectFacts {
    pub membership: MembershipFacts,
    pub name_taken: Option<bool>,
}

/// The next step of creating a project.
#[derive(Debug)]
pub enum CreateProjectNext {
    FindOrg,
    FindMembership,
    FindNameTaken,
    Refuse(ProjectDomainError),
    /// Every read is done: plan the project (which still refuses a taken
    /// name or a retention out of range) and store it.
    Plan,
}

/// Creating a project named `name`: the user must be an admin or owner of an
/// organization that exists; then the name must be valid before the
/// organization's names are looked up.
pub fn create_project_next(f: &CreateProjectFacts, name: &str) -> (r: CreateProjectNext)
    ensures
        match f.membership.org {
            None => r is FindOrg,
            Some(org) => if !(org matches Some(o) && o@.deleted_at is None) {
                r == CreateProjectNext::Refuse(ProjectDomainError::NotOrgMember)
            } else {
                match f.membership.membership {
                    None => r is FindMembership,
                    Some(None) => r == CreateProjectNext::Refuse(ProjectDomainError::NotOrgMember),
                    Some(Some(m)) => if m@.role == OrgRole::Member {
                        r == CreateProjectNext::Refuse(ProjectDomainError::InsufficientPermissions)
                    } else if !name_fits(trim(name@)) {
                        (r matches CreateProjectNext::Refuse(e)
                            && e matches ProjectDomainError::InvalidProjectName(msg) && msg@
                            == name_problem(name@))
                    } else {
                        match f.name_taken {
                            None => r is FindNameTaken,
                            Some(_) => r is Plan,
                        }
                    },
                }
            },
        },
{
    match membership_next(&f.membership, true) {
        MembershipNext::FindOrg => CreateProjectNext::FindOrg,
        MembershipNext::FindMembership => CreateProjectNext::FindMembership,
        MembershipNext::Refuse(e) => CreateProjectNext::Refuse(e),
        MembershipNext::Member(_) => match ProjectName::new(name.to_string()) {
            Err(e) => CreateProjectNext::Refuse(e),
            Ok(_) => match f.name_taken {
                None => CreateProjectNext::FindNameTaken,
                Some(_) => CreateProjectNext::Plan,
            },
        },
    }
}

/// What reaching a project has read: the project, then the membership facts
/// of its organization.
pub struct ProjectAccessFacts {
    pub project: Option<Option<Project>>,
    pub membership: MembershipFacts,
}

/// The next step of reaching a project.
#[derive(Debug)]
pub enum ProjectAccessNext {
    FindProject,
    /// Read the organization of the project that was found.
    FindOrg,
    FindMembership,
    Refuse(ProjectDomainError),
    /// The user may work on the project, with this role.
    Granted(OrgRole),
}

/// Reaching a project: it must exist and not be deleted, and the user must
/// pass the membership check of its organization.
pub open spec fn access_step(f: ProjectAccessFacts, require_admin: bool, r: ProjectAccessNext) -> bool {
    match f.project {
        None => r is FindProject,
        Some(project) => if !(project matches Some(p) && p@.deleted_at is None) {
            r == ProjectAccessNext::Refuse(ProjectDomainError::ProjectNotFound)
        } else {
            match f.membership.org {
                None => r is FindOrg,
                Some(org) => if !(org matches Some(o) && o@.deleted_at is None) {
                    r == ProjectAccessNext::Refuse(ProjectDomainError::NotOrgMember)
                } else {
                    match f.membership.membership {
                        None => r is FindMembership,
                        Some(None) => r == ProjectAccessNext::Refuse(ProjectDomainError::NotOrgMember),
                        Some(Some(m)) => if require_admin && m@.role == OrgRole::Member {
                            r == ProjectAccessNext::Refuse(
                                ProjectDomainError::InsufficientPermissions,
                            )
                        } else {
                            r == ProjectAccessNext::Granted(m@.role)
                        },
                    }
                },
            }
        },
    }
}

/// The next step of reaching a project.
pub fn project_access_next(f: &ProjectAccessFacts, require_admin: bool) -> (r: ProjectAccessNext)
    ensures
        access_step(*f, require_admin, r),
{
    match &f.project {
        None => return ProjectAccessNext::FindProject,
        Some(None) => return ProjectAccessNext::Refuse(ProjectDomainError::ProjectNotFound),
        Some(Some(p)) => {
            if p.is_deleted() {
                return ProjectAccessNext::Refuse(ProjectDomainError::ProjectNotFound);
            }
        },
    }
    match membership_next(&f.membership, require_admin) {
        MembershipNext::FindOrg => ProjectAccessNext::FindOrg,
        MembershipNext::FindMembership => ProjectAccessNext::FindMembership,
        MembershipNext::Refuse(e) => ProjectAccessNext::Refuse(e),
        MembershipNext::Member(role) => ProjectAccessNext::Granted(role),
    }
}

/// What updating a project has read: the access facts, and (when it is
/// renamed) whether the new name is taken by another project.
pub struct UpdateProjectFacts {
    pub access: ProjectAccessFacts,
    pub name_taken: Option<bool>,
}

/// The next step of updating a project.
#[derive(Debug)]
pub enum UpdateProjectNext {
    FindProject,
    FindOrg,
    FindMembership,
    FindNameTaken,
    Refuse(ProjectDomainError),
    /// Every read is done: plan the update (which still refuses a taken name
    /// or a retention out of range) and store it.
    Plan,
}

/// Updating a project, renamed to `new_name` when that is given: the user
/// must reach it as an admin or owner; a new name must be valid before the
/// other projects' names are looked up.
pub fn update_project_next(f: &UpdateProjectFacts, new_name: Option<&str>) -> (r: UpdateProjectNext)
    ensures
        match f.access.project {
            None => r is FindProject,
            Some(project) => if !(project matches Some(p) && p@.deleted_at is None) {
                r == UpdateProjectNext::Refuse(ProjectDomainError::ProjectNotFound)
            } else {
                match f.access.membership.org {
                    None => r is FindOrg,
                    Some(org) => if !(org matches Some(o) && o@.deleted_at is None) {
                        r == UpdateProjectNext::Refuse(ProjectDomainError::NotOrgMember)
                    } else {
                        match f.access.membership.membership {
                            None => r is FindMembership,
                            Some(None) => r == UpdateProjectNext::Refuse(
                                ProjectDomainError::NotOrgMember,
                            ),
                            Some(Some(m)) => if m@.role == OrgRole::Member {
                                r == UpdateProjectNext::Refuse(
                                    ProjectDomainError::InsufficientPermissions,
                                )
                            } else {
                                match new_name {
                                    None => r is Plan,
                                    Some(n) => if !name_fits(trim(n@)) {
                                        (r matches UpdateProjectNext::Refuse(e)
                                            && e matches ProjectDomainError::InvalidProjectName(
                                            msg,
                                        ) && msg@ == name_problem(n@))
                                    } else {
                                        match f.name_taken {
                                            None => r is FindNameTaken,
                                            Some(_) => r is Plan,
                                        }
                                    },
                                }
                            },
                        }
                    },
                }
            },
        },
{
    match project_access_next(&f.access, true) {
        ProjectAccessNext::FindProject => UpdateProjectNext::FindProject,
        ProjectAccessNext::FindOrg => UpdateProjectNext::FindOrg,
        ProjectAccessNext::FindMembership => UpdateProjectNext::FindMembership,
        ProjectAccessNext::Refuse(e) => UpdateProjectNext::Refuse(e),
        ProjectAccessNext::Granted(_) => match new_name {
            None => UpdateProjectNext::Plan,
            Some(n) => match ProjectName::new(n.to_string()) {
                Err(e) => UpdateProjectNext::Refuse(e),
                Ok(_) => match f.name_taken {
                    None => UpdateProjectNext::FindNameTaken,
                    Some(_) => UpdateProjectNext::Plan,
                },
            },
        },
    }
}

} // verus!
