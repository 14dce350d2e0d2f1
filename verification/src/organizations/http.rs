//! What the organization endpoints read and answer: the request bodies, the
//! error answer of each domain error, and the device fingerprint that
//! switching organizations records.

use vstd::prelude::*;
use crate::encoding::{hex_lower, sha256, sha256_digest, to_hex_lower};
use crate::numerals::{decimal_text, hex_text, push_decimal, push_hex};
use crate::organizations::errors::{org_error_message, OrgDomainError};
use crate::status::{
    STATUS_BAD_REQUEST, STATUS_CONFLICT, STATUS_FORBIDDEN, STATUS_GONE,
    STATUS_INTERNAL_SERVER_ERROR, STATUS_NOT_FOUND, STATUS_UNPROCESSABLE_ENTITY,
};
use crate::text::{chars_of, string_from_prefix, trim, trimmed};

verus! {

/// Body of a request to create an organization.
#[derive(Debug)]
pub struct CreateOrgRequest {
    pub name: String,
}

/// Body of a request to rename an organization.
#[derive(Debug)]
pub struct UpdateOrgRequest {
    pub name: Option<String>,
}

/// Body of a request to add a member.
#[derive(Debug)]
pub struct AddMemberRequest {
    pub email: String,
    pub role: String,
}

/// Body of a request to change a member's role.
#[derive(Debug)]
pub struct UpdateMemberRoleRequest {
    pub role: String,
}

/// Body of a request to hand the ownership over.
#[derive(Debug)]
pub struct TransferOwnershipRequest {
    pub new_owner_user_id: String,
}

/// The body of every error answer.
#[derive(Debug)]
pub struct ErrorResponse {
    pub error: String,
    pub code: String,
}

/// Paging of the activity log.
#[derive(Debug)]
pub struct ListActivitiesQuery {
    pub limit: i64,
    pub offset: i64,
}

/// How many activity entries a page holds when the query names no limit.
pub fn default_limit() -> (r: i64)
    ensures
        r == 20,
{
    20
}

/// The status an organization error is answered with.
pub open spec fn org_error_status(e: OrgDomainError) -> u16 {
    match e {
        OrgDomainError::InvalidOrgName(_) | OrgDomainError::InvalidOrgSlug(_)
        | OrgDomainError::InvalidRole(_) | OrgDomainError::InvalidActivityType(_)
        | OrgDomainError::InvalidInviteStatus(_) | OrgDomainError::CannotInviteSelf => STATUS_BAD_REQUEST,
        OrgDomainError::OrgNotFound | OrgDomainError::InviteNotFound
        | OrgDomainError::UserNotFound => STATUS_NOT_FOUND,
        OrgDomainError::SlugTaken | OrgDomainError::OrgAlreadyExists
        | OrgDomainError::InviteAlreadyExists | OrgDomainError::InviteAlreadyProcessed
        | OrgDomainError::AlreadyMember => STATUS_CONFLICT,
        OrgDomainError::NotOrgMember | OrgDomainError::InsufficientPermissions
        | OrgDomainError::UserDoesNotAllowInvites => STATUS_FORBIDDEN,
        OrgDomainError::CannotDeletePersonalOrg | OrgDomainError::CannotRemoveLastOwner
        | OrgDomainError::CannotLeaveAsLastOwner
        | OrgDomainError::CannotDemoteLastOwner => STATUS_UNPROCESSABLE_ENTITY,
        OrgDomainError::OrgAlreadyDeleted | OrgDomainError::InviteExpired => STATUS_GONE,
        OrgDomainError::InternalError(_) => STATUS_INTERNAL_SERVER_ERROR,
    }
}

/// The code an organization error is answered with.
pub open spec fn org_error_code(e: OrgDomainError) -> Seq<char> {
    match e {
        OrgDomainError::InvalidOrgName(_) | OrgDomainError::InvalidOrgSlug(_)
        | OrgDomainError::InvalidRole(_) | OrgDomainError::InvalidActivityType(_)
        | OrgDomainError::InvalidInviteStatus(_) | OrgDomainError::CannotInviteSelf => "VALIDATION_ERROR"@,
        OrgDomainError::OrgNotFound | OrgDomainError::InviteNotFound => "NOT_FOUND"@,
        OrgDomainError::UserNotFound => "USER_NOT_FOUND"@,
        OrgDomainError::SlugTaken | OrgDomainError::OrgAlreadyExists
        | OrgDomainError::InviteAlreadyExists | OrgDomainError::InviteAlreadyProcessed => "CONFLICT"@,
        OrgDomainError::AlreadyMember => "ALREADY_MEMBER"@,
        OrgDomainError::NotOrgMember | OrgDomainError::InsufficientPermissions
        | OrgDomainError::UserDoesNotAllowInvites => "FORBIDDEN"@,
        OrgDomainError::CannotDeletePersonalOrg | OrgDomainError::CannotRemoveLastOwner
        | OrgDomainError::CannotLeaveAsLastOwner
        | OrgDomainError::CannotDemoteLastOwner => "UNPROCESSABLE"@,
        OrgDomainError::OrgAlreadyDeleted | OrgDomainError::InviteExpired => "GONE"@,
        OrgDomainError::InternalError(_) => "INTERNAL_ERROR"@,
    }
}

/// The text an organization error is answered with: its message, but for
/// an internal error, whose details stay on the server.
pub open spec fn org_error_text(e: OrgDomainError) -> Seq<char> {
    match e {
        OrgDomainError::InternalError(_) => "An internal error occurred. Please try again later."@,
        _ => org_error_message(e),
    }
}

/// The answer to an organization error: its status and body.
pub fn to_error_response(e: OrgDomainError) -> (r: (u16, ErrorResponse))
    ensures
        r.0 == org_error_status(e),
        r.1.error@ == org_error_text(e),
        r.1.code@ == org_error_code(e),
        (e is InvalidOrgName || e is InvalidOrgSlug || e is InvalidRole || e is InvalidActivityType || e is InvalidInviteStatus || e is CannotInviteSelf) ==> r.0 == 400 && r.1.code@ == "VALIDATION_ERROR"@,
        (e is OrgNotFound || e is InviteNotFound) ==> r.0 == 404 && r.1.code@ == "NOT_FOUND"@,
        e is UserNotFound ==> r.0 == 404 && r.1.code@ == "USER_NOT_FOUND"@,
        (e is SlugTaken || e is OrgAlreadyExists || e is InviteAlreadyExists || e is InviteAlreadyProcessed) ==> r.0 == 409 && r.1.code@ == "CONFLICT"@,
        e is AlreadyMember ==> r.0 == 409 && r.1.code@ == "ALREADY_MEMBER"@,
        (e is NotOrgMember || e is InsufficientPermissions || e is UserDoesNotAllowInvites) ==> r.0 == 403 && r.1.code@ == "FORBIDDEN"@,
        (e is CannotDeletePersonalOrg || e is CannotRemoveLastOwner || e is CannotLeaveAsLastOwner || e is CannotDemoteLastOwner) ==> r.0 == 422 && r.1.code@ == "UNPROCESSABLE"@,
        (e is OrgAlreadyDeleted || e is InviteExpired) ==> r.0 == 410 && r.1.code@ == "GONE"@,
        e is InternalError ==> r.0 == 500 && r.1.code@ == "INTERNAL_ERROR"@,
{
    let (status, code): (u16, &str) = match &e {
        OrgDomainError::InvalidOrgName(_) | OrgDomainError::InvalidOrgSlug(_)
        | OrgDomainError::InvalidRole(_) | OrgDomainError::InvalidActivityType(_)
        | OrgDomainError::InvalidInviteStatus(_) | OrgDomainError::CannotInviteSelf => (
            STATUS_BAD_REQUEST,
            "VALIDATION_ERROR",
        ),
        OrgDomainError::OrgNotFound | OrgDomainError::InviteNotFound => (
            STATUS_NOT_FOUND,
            "NOT_FOUND",
        ),
        OrgDomainError::UserNotFound => (STATUS_NOT_FOUND, "USER_NOT_FOUND"),
        OrgDomainError::SlugTaken | OrgDomainError::OrgAlreadyExists
        | OrgDomainError::InviteAlreadyExists | OrgDomainError::InviteAlreadyProcessed => (
            STATUS_CONFLICT,
            "CONFLICT",
        ),
        OrgDomainError::AlreadyMember => (STATUS_CONFLICT, "ALREADY_MEMBER"),
        OrgDomainError::NotOrgMember | OrgDomainError::InsufficientPermissions
        | OrgDomainError::UserDoesNotAllowInvites => (STATUS_FORBIDDEN, "FORBIDDEN"),
        OrgDomainError::CannotDeletePersonalOrg | OrgDomainError::CannotRemoveLastOwner
        | OrgDomainError::CannotLeaveAsLastOwner | OrgDomainError::CannotDemoteLastOwner => (
            STATUS_UNPROCESSABLE_ENTITY,
            "UNPROCESSABLE",
        ),
        OrgDomainError::OrgAlreadyDeleted | OrgDomainError::InviteExpired => (
            STATUS_GONE,
            "GONE",
        ),
        OrgDomainError::InternalError(_) => (STATUS_INTERNAL_SERVER_ERROR, "INTERNAL_ERROR"),
    };
    let error = match &e {
        OrgDomainError::InternalError(_) => {
            "An internal error occurred. Please try again later.".to_string()
        },
        _ => e.message(),
    };
    (status, ErrorResponse { error, code: code.to_string() })
}

/// A client address, as `std::net::IpAddr` parses it.
#[derive(Debug, Clone, Copy)]
pub enum IpAddress {
    V4([u8; 4]),
    V6([u16; 8]),
}

/// Whether `k` is the position of the first comma of `s`.
pub open spec fn first_comma_at(s: Seq<char>, k: int) -> bool {
    &&& 0 <= k < s.len()
    &&& s[k] == ','
    &&& forall|j: int| 0 <= j < k ==> s[j] != ','
}

/// The text of `s` before its first comma; all of `s` when it has none.
pub open spec fn before_first_comma(s: Seq<char>) -> Seq<char> {
    if exists|k: int| first_comma_at(s, k) {
        s.take(choose|k: int| first_comma_at(s, k))
    } else {
        s
    }
}

/// The client address text that a forwarding header names: its first
/// entry, trimmed; "unknown" without the header.
pub open spec fn client_ip_text(forwarded_for: Option<Seq<char>>) -> Seq<char> {
    match forwarded_for {
        Some(h) => trim(before_first_comma(h)),
        None => "unknown"@,
    }
}

/// The client address named by an `X-Forwarded-For` header value.
pub fn client_ip(forwarded_for: Option<&str>) -> (r: String)
    ensures
        r@ == client_ip_text(
            match forwarded_for {
                Some(h) => Some(h@),
                None => None,
            },
        ),
{
    match forwarded_for {
        None => "unknown".to_string(),
        Some(h) => {
            let cs = chars_of(h);
            let n = cs.len();
            let mut i: usize = 0;
            while i < n && cs[i] != ','
                invariant
                    n == cs@.len(),
                    cs@ == h@,
                    i <= n,
                    forall|j: int| 0 <= j < i ==> cs@[j] != ',',
                decreases n - i,
            {
                i = i + 1;
            }
            proof {
                if i < n {
                    assert(first_comma_at(h@, i as int));
                    assert forall|k: int| first_comma_at(h@, k) implies k == i by {
                        if k < i {
                            assert(h@[k] != ',');
                        } else if k > i {
                            assert(h@[i as int] != ',');
                        }
                    }
                } else {
                    assert(h@.take(n as int) =~= h@);
                }
            }
            let first = string_from_prefix(cs.as_slice(), i);
            trimmed(first.as_str())
        },
    }
}

/// The network of a client address, as the fingerprint records it: the /24
/// of an IPv4 address, the /48 of an IPv6 address, and the text itself when
/// it is no address.
pub open spec fn ip_subnet(ip_text: Seq<char>, parsed: Option<IpAddress>) -> Seq<char> {
    match parsed {
        Some(IpAddress::V4(o)) => decimal_text(o@[0] as nat) + "."@ + decimal_text(o@[1] as nat) + "."@
            + decimal_text(o@[2] as nat) + ".0/24"@,
        Some(IpAddress::V6(g)) => hex_text(g@[0] as nat) + ":"@ + hex_text(g@[1] as nat) + ":"@
            + hex_text(g@[2] as nat) + "::/48"@,
        None => ip_text,
    }
}

/// The network text of a client address; `parsed` is what the address
/// text parses to, if it is an address.
pub fn subnet_text(ip_text: &str, parsed: Option<IpAddress>) -> (r: String)
    ensures
        r@ == ip_subnet(ip_text@, parsed),
{
    match parsed {
        Some(IpAddress::V4(o)) => {
            let mut s = String::new();
            push_decimal(&mut s, o[0] as u64);
            s = s.concat(".");
            push_decimal(&mut s, o[1] as u64);
            s = s.concat(".");
            push_decimal(&mut s, o[2] as u64);
            s = s.concat(".0/24");
            proof {
                reveal_strlit(".");
                reveal_strlit(".0/24");
            }
            assert(s@ =~= ip_subnet(ip_text@, parsed));
            s
        },
        Some(IpAddress::V6(g)) => {
            let mut s = String::new();
            push_hex(&mut s, g[0] as u64);
            s = s.concat(":");
            push_hex(&mut s, g[1] as u64);
            s = s.concat(":");
            push_hex(&mut s, g[2] as u64);
            s = s.concat("::/48");
            assert(s@ =~= ip_subnet(ip_text@, parsed));
            s
        },
        None => ip_text.to_string(),
    }
}

/// The fingerprint of a device: SHA-256, in lowercase hexadecimal, of its
/// user agent followed by its network.
pub open spec fn device_fingerprint(user_agent: Seq<char>, subnet: Seq<char>) -> Seq<char> {
    hex_lower(sha256(vstd::utf8::encode_utf8(user_agent + subnet)))
}

/// Generate a device fingerprint from the `User-Agent` and
/// `X-Forwarded-For` header values (absent ones read as "unknown");
/// `parsed_ip` is what the client address text (`client_ip`) parses to.
pub fn generate_device_fingerprint(
    user_agent: Option<&str>,
    forwarded_for: Option<&str>,
    parsed_ip: Option<IpAddress>,
) -> (r: String)
    ensures
        r@ == device_fingerprint(
            match user_agent {
                Some(u) => u@,
                None => "unknown"@,
            },
            ip_subnet(
                client_ip_text(
                    match forwarded_for {
                        Some(h) => Some(h@),
                        None => None,
                    },
                ),
                parsed_ip,
            ),
        ),
{
    let agent = match user_agent {
        Some(u) => u.to_string(),
        None => "unknown".to_string(),
    };
    let ip = client_ip(forwarded_for);
    let subnet = subnet_text(ip.as_str(), parsed_ip);
    let input = agent.concat(subnet.as_str());
    let digest = sha256_digest(input.as_str().as_bytes());
    to_hex_lower(digest.as_slice())
}

} // verus!
