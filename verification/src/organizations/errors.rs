//! Errors of the organizations domain.

use vstd::prelude::*;

verus! {

/// Every way an organization use case can fail.
#[derive(Debug, Clone, PartialEq)]
pub enum OrgDomainError {
    // Validation errors
    InvalidOrgName(String),
    InvalidOrgSlug(String),
    InvalidRole(String),
    InvalidActivityType(String),
    InvalidInviteStatus(String),
    // Organization errors
    OrgNotFound,
    OrgAlreadyExists,
    SlugTaken,
    CannotDeletePersonalOrg,
    OrgAlreadyDeleted,
    // Membership errors
    NotOrgMember,
    AlreadyMember,
    UserNotFound,
    // Permission errors
    InsufficientPermissions,
    CannotRemoveLastOwner,
    CannotLeaveAsLastOwner,
    CannotDemoteLastOwner,
    // Invite errors
    InviteNotFound,
    InviteAlreadyExists,
    InviteExpired,
    InviteAlreadyProcessed,
    UserDoesNotAllowInvites,
    CannotInviteSelf,
    // Infrastructure errors
    InternalError(String),
}

/// The human-readable text of an error.
pub open spec fn org_error_message(e: OrgDomainError) -> Seq<char> {
    match e {
        OrgDomainError::InvalidOrgName(m) => "Invalid organization name: "@ + m@,
        OrgDomainError::InvalidOrgSlug(m) => "Invalid organization slug: "@ + m@,
        OrgDomainError::InvalidRole(m) => "Invalid role: "@ + m@,
        OrgDomainError::InvalidActivityType(m) => "Invalid activity type: "@ + m@,
        OrgDomainError::InvalidInviteStatus(m) => "Invalid invite status: "@ + m@,
        OrgDomainError::OrgNotFound => "Organization not found"@,
        OrgDomainError::OrgAlreadyExists => "Organization already exists"@,
        OrgDomainError::SlugTaken => "Organization slug is already taken"@,
        OrgDomainError::CannotDeletePersonalOrg => "Cannot delete personal organization"@,
        OrgDomainError::OrgAlreadyDeleted => "Organization is already deleted"@,
        OrgDomainError::NotOrgMember => "User is not a member of this organization"@,
        OrgDomainError::AlreadyMember => "User is already a member of this organization"@,
        OrgDomainError::UserNotFound => "User not found"@,
        OrgDomainError::InsufficientPermissions => "Insufficient permissions for this action"@,
        OrgDomainError::CannotRemoveLastOwner => "Cannot remove the last owner of the organization"@,
        OrgDomainError::CannotLeaveAsLastOwner => "Cannot leave as the last owner of the organization"@,
        OrgDomainError::CannotDemoteLastOwner => "Cannot demote the last owner of the organization"@,
        OrgDomainError::InviteNotFound => "Invite not found"@,
        OrgDomainError::InviteAlreadyExists => "An invite already exists for this user"@,
        OrgDomainError::InviteExpired => "Invite has expired"@,
        OrgDomainError::InviteAlreadyProcessed => "Invite has already been processed"@,
        OrgDomainError::UserDoesNotAllowInvites => "User does not allow incoming invites"@,
        OrgDomainError::CannotInviteSelf => "Cannot invite yourself"@,
        OrgDomainError::InternalError(m) => "Internal error: "@ + m@,
    }
}

impl OrgDomainError {
    /// The human-readable text of the error (what `Display` shows).
    pub fn message(&self) -> (r: String)
        ensures
            r@ == org_error_message(*self),
    {
        match self {
            OrgDomainError::InvalidOrgName(m) => "Invalid organization name: ".to_string().concat(m.as_str()),
            OrgDomainError::InvalidOrgSlug(m) => "Invalid organization slug: ".to_string().concat(m.as_str()),
            OrgDomainError::InvalidRole(m) => "Invalid role: ".to_string().concat(m.as_str()),
            OrgDomainError::InvalidActivityType(m) => "Invalid activity type: ".to_string().concat(m.as_str()),
            OrgDomainError::InvalidInviteStatus(m) => "Invalid invite status: ".to_string().concat(m.as_str()),
            OrgDomainError::OrgNotFound => "Organization not found".to_string(),
            OrgDomainError::OrgAlreadyExists => "Organization already exists".to_string(),
            OrgDomainError::SlugTaken => "Organization slug is already taken".to_string(),
            OrgDomainError::CannotDeletePersonalOrg => "Cannot delete personal organization".to_string(),
            OrgDomainError::OrgAlreadyDeleted => "Organization is already deleted".to_string(),
            OrgDomainError::NotOrgMember => "User is not a member of this organization".to_string(),
            OrgDomainError::AlreadyMember => "User is already a member of this organization".to_string(),
            OrgDomainError::UserNotFound => "User not found".to_string(),
            OrgDomainError::InsufficientPermissions => "Insufficient permissions for this action".to_string(),
            OrgDomainError::CannotRemoveLastOwner => "Cannot remove the last owner of the organization".to_string(),
            OrgDomainError::CannotLeaveAsLastOwner => "Cannot leave as the last owner of the organization".to_string(),
            OrgDomainError::CannotDemoteLastOwner => "Cannot demote the last owner of the organization".to_string(),
            OrgDomainError::InviteNotFound => "Invite not found".to_string(),
            OrgDomainError::InviteAlreadyExists => "An invite already exists for this user".to_string(),
            OrgDomainError::InviteExpired => "Invite has expired".to_string(),
            OrgDomainError::InviteAlreadyProcessed => "Invite has already been processed".to_string(),
            OrgDomainError::UserDoesNotAllowInvites => "User does not allow incoming invites".to_string(),
            OrgDomainError::CannotInviteSelf => "Cannot invite yourself".to_string(),
            OrgDomainError::InternalError(m) => "Internal error: ".to_string().concat(m.as_str()),
        }
    }
}

} // verus!
