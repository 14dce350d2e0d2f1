//! The order of the organization use cases that read before they write.
//!
//! Each use case is a loop run by its caller: the caller holds the facts
//! read so far (`None` for what it has not read yet), asks the step function
//! what comes next, performs that read and records what it found, until the
//! step function refuses or says that every check has passed. Nothing is
//! written before that: a refusal comes with nothing to store, except where
//! the use case stores the invite it has just closed.

use vstd::prelude::*;
use crate::organizations::errors::OrgDomainError;
use crate::organizations::invitations::{addressed_to, invite_role};
use crate::organizations::invite::{InviteStatus, OrganizationInvite};
use crate::organizations::member::OrganizationMember;
use crate::organizations::organization::{role_named, OrgName, OrgRole, Organization};
use crate::organizations::service::{may_remove, new_member_role, plan_role_change, RoleChange};
use crate::text::{str_equals, trim, unicode_lowercase};
use crate::time::Timestamp;
use crate::users::UserSummary;

verus! {

/// The error text for a refused organization name.
pub open spec fn org_name_error(name: Seq<char>) -> Seq<char> {
    if trim(name).len() == 0 {
        "name cannot be empty"@
    } else {
        "name cannot exceed 100 characters"@
    }
}

// ---------------------------------------------------------------------------
// Transferring ownership
// ---------------------------------------------------------------------------

/// What a transfer of ownership has read: the requester's membership and
/// the new owner's.
pub struct TransferFacts {
    pub requester: Option<Option<OrganizationMember>>,
    pub new_owner: Option<Option<OrganizationMember>>,
}

/// The next step of a transfer of ownership.
#[derive(Debug)]
pub enum TransferNext {
    FindRequester,
    FindNewOwner,
    Refuse(OrgDomainError),
    /// Every check passed: apply the transfer and store both memberships.
    Transfer,
}

/// A transfer of ownership: the requester must be a member, and an owner;
/// the new owner must be a member.
pub fn transfer_next(f: &TransferFacts) -> (r: TransferNext)
    ensures
        match f.requester {
            None => r is FindRequester,
            Some(None) => r == TransferNext::Refuse(OrgDomainError::NotOrgMember),
            Some(Some(m)) => if m@.role != OrgRole::Owner {
                r == TransferNext::Refuse(OrgDomainError::InsufficientPermissions)
            } else {
                match f.new_owner {
                    None => r is FindNewOwner,
                    Some(None) => r == TransferNext::Refuse(OrgDomainError::NotOrgMember),
                    Some(Some(_)) => r is Transfer,
                }
            },
        },
{
    match &f.requester {
        None => TransferNext::FindRequester,
        Some(None) => TransferNext::Refuse(OrgDomainError::NotOrgMember),
        Some(Some(m)) => {
            if *m.role() != OrgRole::Owner {
                return TransferNext::Refuse(OrgDomainError::InsufficientPermissions);
            }
            match &f.new_owner {
                None => TransferNext::FindNewOwner,
                Some(None) => TransferNext::Refuse(OrgDomainError::NotOrgMember),
                Some(Some(_)) => TransferNext::Transfer,
            }
        },
    }
}

// ---------------------------------------------------------------------------
// Changing a member's role
// ---------------------------------------------------------------------------

/// What a role change has read: the requester's membership, the target's,
/// and (when an owner would be demoted) the number of owners.
pub struct RoleChangeFacts {
    pub requester: Option<Option<OrganizationMember>>,
    pub target: Option<Option<OrganizationMember>>,
    pub owner_count: Option<u32>,
}

/// The next step of a role change.
#[derive(Debug)]
pub enum RoleChangeNext {
    FindRequester,
    FindTarget,
    CountOwners,
    Refuse(OrgDomainError),
    /// Every check passed: apply this change and store the target.
    Apply(RoleChange),
}

/// A role change to the role named `new_role`: the requester must be an
/// owner, the target a member, the role must exist, and an owner can be
/// demoted only while another owner remains.
pub fn role_change_next(f: &RoleChangeFacts, new_role: &str) -> (r: RoleChangeNext)
    ensures
        match f.requester {
            None => r is FindRequester,
            Some(None) => r == RoleChangeNext::Refuse(OrgDomainError::NotOrgMember),
            Some(Some(m)) => if m@.role != OrgRole::Owner {
                r == RoleChangeNext::Refuse(OrgDomainError::InsufficientPermissions)
            } else {
                match f.target {
                    None => r is FindTarget,
                    Some(None) => r == RoleChangeNext::Refuse(OrgDomainError::NotOrgMember),
                    Some(Some(t)) => match role_named(unicode_lowercase(new_role@)) {
                        None => (r matches RoleChangeNext::Refuse(e) && e matches OrgDomainError::InvalidRole(
                            msg,
                        ) && msg@ == "unknown role: "@ + new_role@),
                        Some(role) => if t@.role == OrgRole::Owner && role != OrgRole::Owner {
                            match f.owner_count {
                                None => r is CountOwners,
                                Some(n) => if n < 2 {
                                    r == RoleChangeNext::Refuse(
                                        OrgDomainError::CannotDemoteLastOwner,
                                    )
                                } else {
                                    r == RoleChangeNext::Apply(
                                        RoleChange {
                                            old_role: t@.role,
                                            new_role: role,
                                            demotes_owner: true,
                                        },
                                    )
                                },
                            }
                        } else {
                            r == RoleChangeNext::Apply(
                                RoleChange { old_role: t@.role, new_role: role, demotes_owner: false },
                            )
                        },
                    },
                }
            },
        },
{
    match &f.requester {
        None => RoleChangeNext::FindRequester,
        Some(None) => RoleChangeNext::Refuse(OrgDomainError::NotOrgMember),
        Some(Some(m)) => {
            if *m.role() != OrgRole::Owner {
                return RoleChangeNext::Refuse(OrgDomainError::InsufficientPermissions);
            }
            match &f.target {
                None => RoleChangeNext::FindTarget,
                Some(None) => RoleChangeNext::Refuse(OrgDomainError::NotOrgMember),
                Some(Some(t)) => match plan_role_change(*t.role(), new_role) {
                    Err(e) => RoleChangeNext::Refuse(e),
                    Ok(change) => {
                        if change.demotes_owner {
                            match f.owner_count {
                                None => RoleChangeNext::CountOwners,
                                Some(n) => if n < 2 {
                                    RoleChangeNext::Refuse(OrgDomainError::CannotDemoteLastOwner)
                                } else {
                                    RoleChangeNext::Apply(change)
                                },
                            }
                        } else {
                            RoleChangeNext::Apply(change)
                        }
                    },
                },
            }
        },
    }
}

// ---------------------------------------------------------------------------
// Updating an organization
// ---------------------------------------------------------------------------

/// What an update of an organization has read: the organization and the
/// requester's membership.
pub struct UpdateOrgFacts {
    pub org: Option<Option<Organization>>,
    pub requester: Option<Option<OrganizationMember>>,
}

/// The next step of an update of an organization.
#[derive(Debug)]
pub enum UpdateOrgNext {
    FindOrg,
    FindRequester,
    Refuse(OrgDomainError),
    /// Every check passed and a new name is given: rename and store.
    Rename,
    /// Every check passed and nothing is to change: answer with the
    /// organization as it is.
    Unchanged,
}

/// An update of an organization, renaming it when `new_name` is given: the
/// organization must exist and not be deleted, the requester must be a
/// member who may update it, and the new name must be valid.
pub fn update_org_next(f: &UpdateOrgFacts, new_name: Option<&str>) -> (r: UpdateOrgNext)
    ensures
        match f.org {
            None => r is FindOrg,
            Some(None) => r == UpdateOrgNext::Refuse(OrgDomainError::OrgNotFound),
            Some(Some(o)) => if o@.deleted_at is Some {
                r == UpdateOrgNext::Refuse(OrgDomainError::OrgNotFound)
            } else {
                match f.requester {
                    None => r is FindRequester,
                    Some(None) => r == UpdateOrgNext::Refuse(OrgDomainError::NotOrgMember),
                    Some(Some(m)) => if m@.role == OrgRole::Member {
                        r == UpdateOrgNext::Refuse(OrgDomainError::InsufficientPermissions)
                    } else {
                        match new_name {
                            None => r is Unchanged,
                            Some(n) => if crate::text::name_fits(trim(n@)) {
                                r is Rename
                            } else {
                                (r matches UpdateOrgNext::Refuse(e) && e matches OrgDomainError::InvalidOrgName(
                                    msg,
                                ) && msg@ == org_name_error(n@))
                            },
                        }
                    },
                }
            },
        },
{
    match &f.org {
        None => UpdateOrgNext::FindOrg,
        Some(None) => UpdateOrgNext::Refuse(OrgDomainError::OrgNotFound),
        Some(Some(o)) => {
            if o.is_deleted() {
                return UpdateOrgNext::Refuse(OrgDomainError::OrgNotFound);
            }
            match &f.requester {
                None => UpdateOrgNext::FindRequester,
                Some(None) => UpdateOrgNext::Refuse(OrgDomainError::NotOrgMember),
                Some(Some(m)) => {
                    if !m.role().can_update_org() {
                        return UpdateOrgNext::Refuse(OrgDomainError::InsufficientPermissions);
                    }
                    match new_name {
                        None => UpdateOrgNext::Unchanged,
                        Some(n) => match OrgName::new(n.to_string()) {
                            Ok(_) => UpdateOrgNext::Rename,
                            Err(e) => UpdateOrgNext::Refuse(e),
                        },
                    }
                },
            }
        },
    }
}

// ---------------------------------------------------------------------------
// Switching organization
// ---------------------------------------------------------------------------

/// What a switch of organization has read: the organization and the user's
/// membership.
pub struct SwitchFacts {
    pub org: Option<Option<Organization>>,
    pub membership: Option<Option<OrganizationMember>>,
}

/// The next step of a switch of organization.
#[derive(Debug)]
pub enum SwitchNext {
    FindOrg,
    FindMembership,
    Refuse(OrgDomainError),
    /// Every check passed: record the access and store the membership.
    Switch,
}

/// A switch to an organization: it must exist and not be deleted, and the
/// user must be a member.
pub fn switch_next(f: &SwitchFacts) -> (r: SwitchNext)
    ensures
        match f.org {
            None => r is FindOrg,
            Some(None) => r == SwitchNext::Refuse(OrgDomainError::OrgNotFound),
            Some(Some(o)) => if o@.deleted_at is Some {
                r == SwitchNext::Refuse(OrgDomainError::OrgNotFound)
            } else {
                match f.membership {
                    None => r is FindMembership,
                    Some(None) => r == SwitchNext::Refuse(OrgDomainError::NotOrgMember),
                    Some(Some(_)) => r is Switch,
                }
            },
        },
{
    match &f.org {
        None => SwitchNext::FindOrg,
        Some(None) => SwitchNext::Refuse(OrgDomainError::OrgNotFound),
        Some(Some(o)) => {
            if o.is_deleted() {
                return SwitchNext::Refuse(OrgDomainError::OrgNotFound);
            }
            match &f.membership {
                None => SwitchNext::FindMembership,
                Some(None) => SwitchNext::Refuse(OrgDomainError::NotOrgMember),
                Some(Some(_)) => SwitchNext::Switch,
            }
        },
    }
}

// ---------------------------------------------------------------------------
// Sending an invite
// ---------------------------------------------------------------------------

/// What sending an invite has read: the organization, the inviter's
/// membership, the invitee's address as the user directory parses it, the
/// inviter, the invitee (when registered), whether the invitee is already a
/// member, and whether an invite to that address is pending.
pub struct SendInviteFacts {
    pub org: Option<Option<Organization>>,
    pub requester: Option<Option<OrganizationMember>>,
    pub invitee_email: Option<Option<String>>,
    pub inviter: Option<Option<UserSummary>>,
    pub invitee: Option<Option<UserSummary>>,
    pub invitee_is_member: Option<bool>,
    pub pending_invite: Option<bool>,
}

/// The next step of sending an invite.
#[derive(Debug)]
pub enum SendInviteNext {
    FindOrg,
    FindRequester,
    ParseInviteeEmail,
    FindInviter,
    FindInvitee,
    FindInviteeMembership,
    FindPendingInvite,
    Refuse(OrgDomainError),
    /// Every check passed: send an invite granting this role.
    Send(OrgRole),
}

/// The checks of an invite once the organization, the inviter's membership
/// and the role are settled, from the invitee's address on.
pub open spec fn send_invite_rest(f: SendInviteFacts, role: OrgRole, r: SendInviteNext) -> bool {
    match f.invitee_email {
        None => r is ParseInviteeEmail,
        Some(None) => (r matches SendInviteNext::Refuse(e) && e matches OrgDomainError::InternalError(
            msg,
        ) && msg@ == "Invalid email"@),
        Some(Some(email)) => match f.inviter {
            None => r is FindInviter,
            Some(None) => r == SendInviteNext::Refuse(OrgDomainError::UserNotFound),
            Some(Some(inviter)) => if inviter.email@ == email@ {
                r == SendInviteNext::Refuse(OrgDomainError::CannotInviteSelf)
            } else {
                match f.invitee {
                    None => r is FindInvitee,
                    Some(invitee) => if invitee matches Some(u) && !u.allow_invites {
                        r == SendInviteNext::Refuse(OrgDomainError::UserDoesNotAllowInvites)
                    } else if invitee is Some && f.invitee_is_member is None {
                        r is FindInviteeMembership
                    } else if invitee is Some && f.invitee_is_member == Some(true) {
                        r == SendInviteNext::Refuse(OrgDomainError::AlreadyMember)
                    } else {
                        match f.pending_invite {
                            None => r is FindPendingInvite,
                            Some(true) => r == SendInviteNext::Refuse(
                                OrgDomainError::InviteAlreadyExists,
                            ),
                            Some(false) => r == SendInviteNext::Send(role),
                        }
                    },
                }
            },
        },
    }
}

/// The checks of an invite after the organization and the inviter's
/// membership.
fn send_invite_rest_next(f: &SendInviteFacts, role: OrgRole) -> (r: SendInviteNext)
    ensures
        send_invite_rest(*f, role, r),
{
    let email = match &f.invitee_email {
        None => return SendInviteNext::ParseInviteeEmail,
        Some(None) => return SendInviteNext::Refuse(
            OrgDomainError::InternalError("Invalid email".to_string()),
        ),
        Some(Some(e)) => e,
    };
    let inviter = match &f.inviter {
        None => return SendInviteNext::FindInviter,
        Some(None) => return SendInviteNext::Refuse(OrgDomainError::UserNotFound),
        Some(Some(u)) => u,
    };
    if str_equals(inviter.email.as_str(), email.as_str()) {
        return SendInviteNext::Refuse(OrgDomainError::CannotInviteSelf);
    }
    let invitee = match &f.invitee {
        None => return SendInviteNext::FindInvitee,
        Some(i) => i,
    };
    if let Some(u) = invitee {
        if !u.allow_invites {
            return SendInviteNext::Refuse(OrgDomainError::UserDoesNotAllowInvites);
        }
        match f.invitee_is_member {
            None => return SendInviteNext::FindInviteeMembership,
            Some(true) => return SendInviteNext::Refuse(OrgDomainError::AlreadyMember),
            Some(false) => {},
        }
    }
    match f.pending_invite {
        None => SendInviteNext::FindPendingInvite,
        Some(true) => SendInviteNext::Refuse(OrgDomainError::InviteAlreadyExists),
        Some(false) => SendInviteNext::Send(role),
    }
}

/// Sending an invite granting the role named `role_text`: the organization
/// must exist; the inviter must be a member who manages members; the role
/// must exist and not be owner; the address must parse; the inviter must
/// exist and not be the invitee; a registered invitee must accept invites
/// and not be a member yet; and no invite to the address may be pending.
pub fn send_invite_next(f: &SendInviteFacts, role_text: &str) -> (r: SendInviteNext)
    ensures
        f.pending_invite == Some(true) ==> !(r is Send),
        r matches SendInviteNext::Send(role) ==> {
            &&& role != OrgRole::Owner
            &&& f.org matches Some(Some(_))
            &&& f.requester matches Some(Some(m)) && m@.role != OrgRole::Member
            &&& f.invitee_email matches Some(Some(email))
            &&& f.inviter matches Some(Some(inviter)) && inviter.email@ != email@
            &&& f.invitee matches Some(invitee)
            &&& (invitee matches Some(u) ==> u.allow_invites && f.invitee_is_member == Some(false))
            &&& f.pending_invite == Some(false)
        },
        match f.org {
            None => r is FindOrg,
            Some(None) => r == SendInviteNext::Refuse(OrgDomainError::OrgNotFound),
            Some(Some(_)) => match f.requester {
                None => r is FindRequester,
                Some(None) => r == SendInviteNext::Refuse(OrgDomainError::NotOrgMember),
                Some(Some(m)) => if m@.role == OrgRole::Member {
                    r == SendInviteNext::Refuse(OrgDomainError::InsufficientPermissions)
                } else {
                    match role_named(unicode_lowercase(role_text@)) {
                        None => (r matches SendInviteNext::Refuse(e) && e matches OrgDomainError::InvalidRole(
                            msg,
                        ) && msg@ == "unknown role: "@ + role_text@),
                        Some(role) => if role == OrgRole::Owner {
                            r == SendInviteNext::Refuse(OrgDomainError::InsufficientPermissions)
                        } else {
                            send_invite_rest(*f, role, r)
                        },
                    }
                },
            },
        },
{
    match &f.org {
        None => return SendInviteNext::FindOrg,
        Some(None) => return SendInviteNext::Refuse(OrgDomainError::OrgNotFound),
        Some(Some(_)) => {},
    }
    match &f.requester {
        None => SendInviteNext::FindRequester,
        Some(None) => SendInviteNext::Refuse(OrgDomainError::NotOrgMember),
        Some(Some(m)) => {
            if !m.role().can_manage_members() {
                return SendInviteNext::Refuse(OrgDomainError::InsufficientPermissions);
            }
            match invite_role(role_text) {
                Err(e) => SendInviteNext::Refuse(e),
                Ok(role) => send_invite_rest_next(f, role),
            }
        },
    }
}

// ---------------------------------------------------------------------------
// Accepting an invite
// ---------------------------------------------------------------------------

/// What accepting an invite has read: the invite, the user, the time, and
/// whether the user is already a member.
pub struct AcceptInviteFacts {
    pub invite: Option<Option<OrganizationInvite>>,
    pub user: Option<Option<UserSummary>>,
    pub at: Option<Timestamp>,
    pub already_member: Option<bool>,
}

/// The next step of accepting an invite.
#[derive(Debug)]
pub enum AcceptInviteNext {
    FindInvite,
    FindUser,
    ReadClock,
    FindMembership,
    Refuse(OrgDomainError),
    /// The invite has expired: mark it expired, store it, and refuse with
    /// `InviteExpired`.
    Expire,
    /// The user is already a member: mark the invite accepted, store it, and
    /// refuse with `AlreadyMember`.
    AcceptExisting,
    /// Every check passed: add the member and mark the invite accepted.
    Accept,
}

/// Accepting an invite: it must exist, the user must exist and be its
/// invitee, and it must be pending; an invite expired at the time read is
/// closed as expired; an invitee who is already a member closes it as
/// accepted; otherwise the invitee joins.
pub fn accept_invite_next(f: &AcceptInviteFacts) -> (r: AcceptInviteNext)
    ensures
        match f.invite {
            None => r is FindInvite,
            Some(None) => r == AcceptInviteNext::Refuse(OrgDomainError::InviteNotFound),
            Some(Some(invite)) => match f.user {
                None => r is FindUser,
                Some(None) => r == AcceptInviteNext::Refuse(OrgDomainError::UserNotFound),
                Some(Some(user)) => if !addressed_to(invite, user) {
                    r == AcceptInviteNext::Refuse(OrgDomainError::InsufficientPermissions)
                } else if invite@.status != InviteStatus::Pending {
                    r == AcceptInviteNext::Refuse(OrgDomainError::InviteAlreadyProcessed)
                } else {
                    match f.at {
                        None => r is ReadClock,
                        Some(at) => if invite@.expires_at.spec_before(at) {
                            r is Expire
                        } else {
                            match f.already_member {
                                None => r is FindMembership,
                                Some(true) => r is AcceptExisting,
                                Some(false) => r is Accept,
                            }
                        },
                    }
                },
            },
        },
{
    let invite = match &f.invite {
        None => return AcceptInviteNext::FindInvite,
        Some(None) => return AcceptInviteNext::Refuse(OrgDomainError::InviteNotFound),
        Some(Some(i)) => i,
    };
    let user = match &f.user {
        None => return AcceptInviteNext::FindUser,
        Some(None) => return AcceptInviteNext::Refuse(OrgDomainError::UserNotFound),
        Some(Some(u)) => u,
    };
    match crate::organizations::invitations::screen_invite_answer(invite, user) {
        Err(e) => return AcceptInviteNext::Refuse(e),
        Ok(()) => {},
    }
    let at = match f.at {
        None => return AcceptInviteNext::ReadClock,
        Some(t) => t,
    };
    if invite.is_expired_at(at) {
        return AcceptInviteNext::Expire;
    }
    match f.already_member {
        None => AcceptInviteNext::FindMembership,
        Some(true) => AcceptInviteNext::AcceptExisting,
        Some(false) => AcceptInviteNext::Accept,
    }
}

// ---------------------------------------------------------------------------
// Adding a member
// ---------------------------------------------------------------------------

/// What adding a member has read: the organization, the requester's
/// membership, the address as the user directory parses it, the user with
/// that address, and whether that user is already a member.
pub struct AddMemberFacts {
    pub org: Option<Option<Organization>>,
    pub requester: Option<Option<OrganizationMember>>,
    pub email: Option<Option<String>>,
    pub user: Option<Option<UserSummary>>,
    pub already_member: Option<bool>,
}

/// The next step of adding a member.
#[derive(Debug)]
pub enum AddMemberNext {
    FindOrg,
    FindRequester,
    ParseEmail,
    FindUser,
    FindMembership,
    Refuse(OrgDomainError),
    /// Every check passed: add the user with this role.
    Add(OrgRole),
}

/// Adding the user with a given address, with the role named `role_text`:
/// the organization must exist and not be deleted, the requester must be a
/// member who may grant that role, the address must parse and name a user,
/// and that user must not be a member yet.
pub fn add_member_next(f: &AddMemberFacts, role_text: &str) -> (r: AddMemberNext)
    ensures
        match f.org {
            None => r is FindOrg,
            Some(org) => if !(org matches Some(o) && o@.deleted_at is None) {
                r == AddMemberNext::Refuse(OrgDomainError::OrgNotFound)
            } else {
                match f.requester {
                    None => r is FindRequester,
                    Some(None) => r == AddMemberNext::Refuse(OrgDomainError::NotOrgMember),
                    Some(Some(m)) => match role_named(unicode_lowercase(role_text@)) {
                        None => (r matches AddMemberNext::Refuse(e) && e matches OrgDomainError::InvalidRole(
                            msg,
                        ) && msg@ == "unknown role: "@ + role_text@),
                        Some(role) => if m@.role == OrgRole::Member || (role == OrgRole::Admin
                            && m@.role != OrgRole::Owner) {
                            r == AddMemberNext::Refuse(OrgDomainError::InsufficientPermissions)
                        } else {
                            match f.email {
                                None => r is ParseEmail,
                                Some(None) => r == AddMemberNext::Refuse(OrgDomainError::UserNotFound),
                                Some(Some(_)) => match f.user {
                                    None => r is FindUser,
                                    Some(None) => r == AddMemberNext::Refuse(
                                        OrgDomainError::UserNotFound,
                                    ),
                                    Some(Some(_)) => match f.already_member {
                                        None => r is FindMembership,
                                        Some(true) => r == AddMemberNext::Refuse(
                                            OrgDomainError::AlreadyMember,
                                        ),
                                        Some(false) => r == AddMemberNext::Add(role),
                                    },
                                },
                            }
                        },
                    },
                }
            },
        },
{
    match &f.org {
        None => return AddMemberNext::FindOrg,
        Some(None) => return AddMemberNext::Refuse(OrgDomainError::OrgNotFound),
        Some(Some(o)) => {
            if o.is_deleted() {
                return AddMemberNext::Refuse(OrgDomainError::OrgNotFound);
            }
        },
    }
    let m = match &f.requester {
        None => return AddMemberNext::FindRequester,
        Some(None) => return AddMemberNext::Refuse(OrgDomainError::NotOrgMember),
        Some(Some(m)) => m,
    };
    let role = match new_member_role(*m.role(), role_text) {
        Err(e) => return AddMemberNext::Refuse(e),
        Ok(role) => role,
    };
    match &f.email {
        None => return AddMemberNext::ParseEmail,
        Some(None) => return AddMemberNext::Refuse(OrgDomainError::UserNotFound),
        Some(Some(_)) => {},
    }
    match &f.user {
        None => return AddMemberNext::FindUser,
        Some(None) => return AddMemberNext::Refuse(OrgDomainError::UserNotFound),
        Some(Some(_)) => {},
    }
    match f.already_member {
        None => AddMemberNext::FindMembership,
        Some(true) => AddMemberNext::Refuse(OrgDomainError::AlreadyMember),
        Some(false) => AddMemberNext::Add(role),
    }
}

// ---------------------------------------------------------------------------
// Removing a member, leaving, deleting an organization
// ---------------------------------------------------------------------------

/// What removing a member has read: the requester's membership, the
/// target's, and (when an owner would be removed) the number of owners.
pub struct RemovalFacts {
    pub requester: Option<Option<OrganizationMember>>,
    pub target: Option<Option<OrganizationMember>>,
    pub owner_count: Option<u32>,
}

/// The next step of removing a member.
#[derive(Debug)]
pub enum RemovalNext {
    FindRequester,
    FindTarget,
    CountOwners,
    Refuse(OrgDomainError),
    /// Every check passed: delete the target's membership.
    Remove,
}

/// Removing a member: both must be members, the requester must be allowed
/// to remove the target, and an owner can be removed only while another
/// owner remains.
pub fn removal_next(f: &RemovalFacts) -> (r: RemovalNext)
    ensures
        (f.requester matches Some(Some(m)) && f.target matches Some(Some(t)) && m@.role
            != OrgRole::Owner && t@.role != OrgRole::Member) ==> r == RemovalNext::Refuse(
            OrgDomainError::InsufficientPermissions,
        ),
        r is Remove ==> (f.requester matches Some(Some(m)) && f.target matches Some(Some(t)) && (
        m@.role == OrgRole::Owner || t@.role == OrgRole::Member) && (t@.role == OrgRole::Owner
            ==> (f.owner_count matches Some(n) && n >= 2))),
        match f.requester {
            None => r is FindRequester,
            Some(None) => r == RemovalNext::Refuse(OrgDomainError::NotOrgMember),
            Some(Some(m)) => match f.target {
                None => r is FindTarget,
                Some(None) => r == RemovalNext::Refuse(OrgDomainError::NotOrgMember),
                Some(Some(t)) => if !may_remove(m@.role, t@.role) {
                    r == RemovalNext::Refuse(OrgDomainError::InsufficientPermissions)
                } else if t@.role == OrgRole::Owner {
                    match f.owner_count {
                        None => r is CountOwners,
                        Some(n) => if n < 2 {
                            r == RemovalNext::Refuse(OrgDomainError::CannotRemoveLastOwner)
                        } else {
                            r is Remove
                        },
                    }
                } else {
                    r is Remove
                },
            },
        },
{
    let m = match &f.requester {
        None => return RemovalNext::FindRequester,
        Some(None) => return RemovalNext::Refuse(OrgDomainError::NotOrgMember),
        Some(Some(m)) => m,
    };
    let t = match &f.target {
        None => return RemovalNext::FindTarget,
        Some(None) => return RemovalNext::Refuse(OrgDomainError::NotOrgMember),
        Some(Some(t)) => t,
    };
    match crate::organizations::service::authorize_removal(*m.role(), *t.role()) {
        Err(e) => return RemovalNext::Refuse(e),
        Ok(()) => {},
    }
    if *t.role() == OrgRole::Owner {
        match f.owner_count {
            None => RemovalNext::CountOwners,
            Some(n) => if n < 2 {
                RemovalNext::Refuse(OrgDomainError::CannotRemoveLastOwner)
            } else {
                RemovalNext::Remove
            },
        }
    } else {
        RemovalNext::Remove
    }
}

/// What leaving an organization has read: the user's membership and (for
/// an owner) the number of owners.
pub struct LeaveFacts {
    pub membership: Option<Option<OrganizationMember>>,
    pub owner_count: Option<u32>,
}

/// The next step of leaving an organization.
#[derive(Debug)]
pub enum LeaveNext {
    FindMembership,
    CountOwners,
    Refuse(OrgDomainError),
    /// Every check passed: delete the membership.
    Leave,
}

/// Leaving an organization: the user must be a member, and an owner may
/// leave only while another owner remains.
pub fn leave_next(f: &LeaveFacts) -> (r: LeaveNext)
    ensures
        match f.membership {
            None => r is FindMembership,
            Some(None) => r == LeaveNext::Refuse(OrgDomainError::NotOrgMember),
            Some(Some(m)) => if m@.role == OrgRole::Owner {
                match f.owner_count {
                    None => r is CountOwners,
                    Some(n) => if n < 2 {
                        r == LeaveNext::Refuse(OrgDomainError::CannotLeaveAsLastOwner)
                    } else {
                        r is Leave
                    },
                }
            } else {
                r is Leave
            },
        },
{
    match &f.membership {
        None => LeaveNext::FindMembership,
        Some(None) => LeaveNext::Refuse(OrgDomainError::NotOrgMember),
        Some(Some(m)) => {
            if *m.role() == OrgRole::Owner {
                match f.owner_count {
                    None => LeaveNext::CountOwners,
                    Some(n) => if n < 2 {
                        LeaveNext::Refuse(OrgDomainError::CannotLeaveAsLastOwner)
                    } else {
                        LeaveNext::Leave
                    },
                }
            } else {
                LeaveNext::Leave
            }
        },
    }
}

/// What deleting an organization has read: the organization and the
/// requester's membership.
pub struct DeleteOrgFacts {
    pub org: Option<Option<Organization>>,
    pub requester: Option<Option<OrganizationMember>>,
}

/// The next step of deleting an organization.
#[derive(Debug)]
pub enum DeleteOrgNext {
    FindOrg,
    FindRequester,
    Refuse(OrgDomainError),
    /// The requester may delete it: soft delete it (which refuses a personal
    /// or already deleted organization) and store it.
    Delete,
}

/// Deleting an organization: it must exist, and the requester must be a
/// member who is an owner.
pub fn delete_org_next(f: &DeleteOrgFacts) -> (r: DeleteOrgNext)
    ensures
        match f.org {
            None => r is FindOrg,
            Some(None) => r == DeleteOrgNext::Refuse(OrgDomainError::OrgNotFound),
            Some(Some(_)) => match f.requester {
                None => r is FindRequester,
                Some(None) => r == DeleteOrgNext::Refuse(OrgDomainError::NotOrgMember),
                Some(Some(m)) => if m@.role != OrgRole::Owner {
                    r == DeleteOrgNext::Refuse(OrgDomainError::InsufficientPermissions)
                } else {
                    r is Delete
                },
            },
        },
{
    match &f.org {
        None => return DeleteOrgNext::FindOrg,
        Some(None) => return DeleteOrgNext::Refuse(OrgDomainError::OrgNotFound),
        Some(Some(_)) => {},
    }
    match &f.requester {
        None => DeleteOrgNext::FindRequester,
        Some(None) => DeleteOrgNext::Refuse(OrgDomainError::NotOrgMember),
        Some(Some(m)) => {
            if *m.role() != OrgRole::Owner {
                DeleteOrgNext::Refuse(OrgDomainError::InsufficientPermissions)
            } else {
                DeleteOrgNext::Delete
            }
        },
    }
}

// ---------------------------------------------------------------------------
// Declining and cancelling an invite
// ---------------------------------------------------------------------------

/// What declining an invite has read: the invite and the user.
pub struct DeclineInviteFacts {
    pub invite: Option<Option<OrganizationInvite>>,
    pub user: Option<Option<UserSummary>>,
}

/// The next step of declining an invite.
#[derive(Debug)]
pub enum DeclineInviteNext {
    FindInvite,
    FindUser,
    Refuse(OrgDomainError),
    /// Every check passed: mark the invite declined and store it.
    Decline,
}

/// Declining an invite: it must exist, the user must exist and be its
/// invitee, and it must be pending.
pub fn decline_invite_next(f: &DeclineInviteFacts) -> (r: DeclineInviteNext)
    ensures
        match f.invite {
            None => r is FindInvite,
            Some(None) => r == DeclineInviteNext::Refuse(OrgDomainError::InviteNotFound),
            Some(Some(invite)) => match f.user {
                None => r is FindUser,
                Some(None) => r == DeclineInviteNext::Refuse(OrgDomainError::UserNotFound),
                Some(Some(user)) => if !addressed_to(invite, user) {
                    r == DeclineInviteNext::Refuse(OrgDomainError::InsufficientPermissions)
                } else if invite@.status != InviteStatus::Pending {
                    r == DeclineInviteNext::Refuse(OrgDomainError::InviteAlreadyProcessed)
                } else {
                    r is Decline
                },
            },
        },
{
    let invite = match &f.invite {
        None => return DeclineInviteNext::FindInvite,
        Some(None) => return DeclineInviteNext::Refuse(OrgDomainError::InviteNotFound),
        Some(Some(i)) => i,
    };
    let user = match &f.user {
        None => return DeclineInviteNext::FindUser,
        Some(None) => return DeclineInviteNext::Refuse(OrgDomainError::UserNotFound),
        Some(Some(u)) => u,
    };
    match crate::organizations::invitations::screen_invite_answer(invite, user) {
        Err(e) => DeclineInviteNext::Refuse(e),
        Ok(()) => DeclineInviteNext::Decline,
    }
}

/// What cancelling an invite has read: the invite and the requester's
/// membership.
pub struct CancelInviteFacts {
    pub invite: Option<Option<OrganizationInvite>>,
    pub requester: Option<Option<OrganizationMember>>,
}

/// The next step of cancelling an invite.
#[derive(Debug)]
pub enum CancelInviteNext {
    FindInvite,
    FindRequester,
    Refuse(OrgDomainError),
    /// Every check passed: delete the invite.
    Cancel,
}

/// Cancelling an invite of organization `org_id`: the invite must exist and
/// belong to it (otherwise it is answered as not found), and the requester
/// must be a member who manages members.
pub fn cancel_invite_next(f: &CancelInviteFacts, org_id: &str) -> (r: CancelInviteNext)
    ensures
        match f.invite {
            None => r is FindInvite,
            Some(None) => r == CancelInviteNext::Refuse(OrgDomainError::InviteNotFound),
            Some(Some(invite)) => if invite@.organization_id != org_id@ {
                r == CancelInviteNext::Refuse(OrgDomainError::InviteNotFound)
            } else {
                match f.requester {
                    None => r is FindRequester,
                    Some(None) => r == CancelInviteNext::Refuse(OrgDomainError::NotOrgMember),
                    Some(Some(m)) => if m@.role == OrgRole::Member {
                        r == CancelInviteNext::Refuse(OrgDomainError::InsufficientPermissions)
                    } else {
                        r is Cancel
                    },
                }
            },
        },
{
    match &f.invite {
        None => return CancelInviteNext::FindInvite,
        Some(None) => return CancelInviteNext::Refuse(OrgDomainError::InviteNotFound),
        Some(Some(i)) => {
            if !str_equals(i.organization_id(), org_id) {
                return CancelInviteNext::Refuse(OrgDomainError::InviteNotFound);
            }
        },
    }
    match &f.requester {
        None => CancelInviteNext::FindRequester,
        Some(None) => CancelInviteNext::Refuse(OrgDomainError::NotOrgMember),
        Some(Some(m)) => {
            if !m.role().can_manage_members() {
                CancelInviteNext::Refuse(OrgDomainError::InsufficientPermissions)
            } else {
                CancelInviteNext::Cancel
            }
        },
    }
}

} // verus!
