//! What the invite endpoints read and answer: the request body, the count
//! answer, and the error answer of each domain error.

use vstd::prelude::*;
use crate::organizations::dto::InviteCountResponse;
use crate::organizations::errors::{org_error_message, OrgDomainError};
use crate::organizations::http::ErrorResponse;
use crate::status::{
    STATUS_BAD_REQUEST, STATUS_CONFLICT, STATUS_FORBIDDEN, STATUS_GONE,
    STATUS_INTERNAL_SERVER_ERROR, STATUS_NOT_FOUND,
};

verus! {

/// Body of a request to invite someone.
#[derive(Debug)]
pub struct SendInviteRequest {
    pub email: String,
    pub role: String,
}

/// The number of pending invites, as the endpoint answers it.
#[derive(Debug)]
pub struct InviteCountResponseDto {
    pub count: i64,
}

impl From<InviteCountResponse> for InviteCountResponseDto {
    fn from(r: InviteCountResponse) -> (out: Self)
        ensures
            out.count == r.count,
    {
        InviteCountResponseDto { count: r.count }
    }
}

impl vstd::std_specs::convert::FromSpecImpl<InviteCountResponse> for InviteCountResponseDto {
    open spec fn obeys_from_spec() -> bool {
        true
    }

    open spec fn from_spec(r: InviteCountResponse) -> Self {
        InviteCountResponseDto { count: r.count }
    }
}

/// The status an invite error is answered with.
pub open spec fn invite_error_status(e: OrgDomainError) -> u16 {
    match e {
        OrgDomainError::InvalidOrgName(_) | OrgDomainError::InvalidOrgSlug(_)
        | OrgDomainError::InvalidRole(_) | OrgDomainError::InvalidActivityType(_)
        | OrgDomainError::InvalidInviteStatus(_) | OrgDomainError::CannotInviteSelf => STATUS_BAD_REQUEST,
        OrgDomainError::OrgNotFound | OrgDomainError::InviteNotFound
        | OrgDomainError::UserNotFound => STATUS_NOT_FOUND,
        OrgDomainError::InviteAlreadyExists | OrgDomainError::AlreadyMember
        | OrgDomainError::InviteAlreadyProcessed => STATUS_CONFLICT,
        OrgDomainError::InsufficientPermissions | OrgDomainError::NotOrgMember
        | OrgDomainError::UserDoesNotAllowInvites => STATUS_FORBIDDEN,
        OrgDomainError::InviteExpired => STATUS_GONE,
        _ => STATUS_INTERNAL_SERVER_ERROR,
    }
}

/// The code an invite error is answered with.
pub open spec fn invite_error_code(e: OrgDomainError) -> Seq<char> {
    match e {
        OrgDomainError::InvalidOrgName(_) | OrgDomainError::InvalidOrgSlug(_)
        | OrgDomainError::InvalidRole(_) | OrgDomainError::InvalidActivityType(_)
        | OrgDomainError::InvalidInviteStatus(_) | OrgDomainError::CannotInviteSelf => "INVALID_INPUT"@,
        OrgDomainError::OrgNotFound | OrgDomainError::InviteNotFound => "NOT_FOUND"@,
        OrgDomainError::InviteAlreadyExists | OrgDomainError::AlreadyMember => "CONFLICT"@,
        OrgDomainError::InsufficientPermissions | OrgDomainError::NotOrgMember
        | OrgDomainError::UserDoesNotAllowInvites => "FORBIDDEN"@,
        OrgDomainError::InviteExpired => "INVITE_EXPIRED"@,
        OrgDomainError::InviteAlreadyProcessed => "INVITE_ALREADY_PROCESSED"@,
        OrgDomainError::UserNotFound => "USER_NOT_FOUND"@,
        _ => "INTERNAL_ERROR"@,
    }
}

/// The answer to an error of an invite use case: its status, its message
/// and its code.
pub fn to_error_response(err: OrgDomainError) -> (r: (u16, ErrorResponse))
    ensures
        r.0 == invite_error_status(err),
        r.1.error@ == org_error_message(err),
        r.1.code@ == invite_error_code(err),
        (err is InvalidOrgName || err is InvalidOrgSlug || err is InvalidRole || err is InvalidActivityType || err is InvalidInviteStatus || err is CannotInviteSelf) ==> r.0 == 400 && r.1.code@ == "INVALID_INPUT"@,
        (err is OrgNotFound || err is InviteNotFound) ==> r.0 == 404 && r.1.code@ == "NOT_FOUND"@,
        err is UserNotFound ==> r.0 == 404 && r.1.code@ == "USER_NOT_FOUND"@,
        (err is InviteAlreadyExists || err is AlreadyMember) ==> r.0 == 409 && r.1.code@ == "CONFLICT"@,
        err is InviteAlreadyProcessed ==> r.0 == 409 && r.1.code@ == "INVITE_ALREADY_PROCESSED"@,
        (err is InsufficientPermissions || err is NotOrgMember || err is UserDoesNotAllowInvites) ==> r.0 == 403 && r.1.code@ == "FORBIDDEN"@,
        err is InviteExpired ==> r.0 == 410 && r.1.code@ == "INVITE_EXPIRED"@,
        (err is SlugTaken || err is OrgAlreadyExists || err is CannotDeletePersonalOrg || err is CannotRemoveLastOwner || err is CannotLeaveAsLastOwner || err is CannotDemoteLastOwner || err is OrgAlreadyDeleted || err is InternalError) ==> r.0 == 500 && r.1.code@ == "INTERNAL_ERROR"@,
{
    let (status, code): (u16, &str) = match &err {
        OrgDomainError::InvalidOrgName(_) | OrgDomainError::InvalidOrgSlug(_)
        | OrgDomainError::InvalidRole(_) | OrgDomainError::InvalidActivityType(_)
        | OrgDomainError::InvalidInviteStatus(_) | OrgDomainError::CannotInviteSelf => (
            STATUS_BAD_REQUEST,
            "INVALID_INPUT",
        ),
        OrgDomainError::OrgNotFound | OrgDomainError::InviteNotFound => (
            STATUS_NOT_FOUND,
            "NOT_FOUND",
        ),
        OrgDomainError::InviteAlreadyExists | OrgDomainError::AlreadyMember => (
            STATUS_CONFLICT,
            "CONFLICT",
        ),
        OrgDomainError::InsufficientPermissions | OrgDomainError::NotOrgMember
        | OrgDomainError::UserDoesNotAllowInvites => (STATUS_FORBIDDEN, "FORBIDDEN"),
        OrgDomainError::InviteExpired => (STATUS_GONE, "INVITE_EXPIRED"),
        OrgDomainError::InviteAlreadyProcessed => (STATUS_CONFLICT, "INVITE_ALREADY_PROCESSED"),
        OrgDomainError::UserNotFound => (STATUS_NOT_FOUND, "USER_NOT_FOUND"),
        _ => (STATUS_INTERNAL_SERVER_ERROR, "INTERNAL_ERROR"),
    };
    (status, ErrorResponse { error: err.message(), code: code.to_string() })
}

} // verus!
