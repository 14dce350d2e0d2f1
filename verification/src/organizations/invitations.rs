//! The decisions of the invitation use cases: who may invite whom, with
//! which role, and what accepting, declining or cancelling an invite
//! writes.

use vstd::prelude::*;
use crate::organizations::activity::{
    distinct_metadata_keys, metadata_view, ActivityId, ActivityMetadata, ActivityType, OrgActivity,
};
use crate::organizations::dto::{InviteResponse, SendInviteCommand};
use crate::organizations::errors::OrgDomainError;
use crate::organizations::invite::{
    invite_closed, opt_text, status_text, InviteId, InviteStatus, OrganizationInvite,
    OrganizationInviteView,
};
use crate::organizations::member::OrganizationMember;
use crate::organizations::organization::{role_named, role_text, MemberId, OrgId, OrgRole, Organization};
use crate::text::{str_equals, unicode_lowercase};
use crate::time::{Timestamp, MAX_TIMESTAMP_SECS};
use crate::users::{UserId, UserSummary};

verus! {

/// How many days an invite stays valid.
pub const INVITE_VALID_DAYS: i64 = 7;

/// Only admins and owners may send, list or cancel invites. The role is
/// read back from its stored text first, which gives the same role.
pub fn authorize_invite_management(role: OrgRole) -> (r: Result<(), OrgDomainError>)
    ensures
        r is Ok <==> (role == OrgRole::Owner || role == OrgRole::Admin),
        r is Err ==> r == Err::<(), OrgDomainError>(OrgDomainError::InsufficientPermissions),
{
    let reread = OrgRole::from_str(role.as_str());
    proof {
        crate::organizations::laws::lemma_role_text_round_trip(role);
    }
    let role = reread?;
    if !role.can_manage_members() {
        return Err(OrgDomainError::InsufficientPermissions);
    }
    Ok(())
}

/// The role an invite grants: it must exist, and an invite cannot make
/// anyone an owner.
pub fn invite_role(role_text_in: &str) -> (r: Result<OrgRole, OrgDomainError>)
    ensures
        match role_named(unicode_lowercase(role_text_in@)) {
            None => r matches Err(e) && e matches OrgDomainError::InvalidRole(m) && m@
                == "unknown role: "@ + role_text_in@,
            Some(role) => if role == OrgRole::Owner {
                r == Err::<OrgRole, OrgDomainError>(OrgDomainError::InsufficientPermissions)
            } else {
                r == Ok::<OrgRole, OrgDomainError>(role)
            },
        },
{
    let role = OrgRole::from_str(role_text_in)?;
    if role == OrgRole::Owner {
        return Err(OrgDomainError::InsufficientPermissions);
    }
    Ok(role)
}

/// The answer to an invitee address that is not a valid e-mail address.
pub fn invalid_invitee_email() -> (e: OrgDomainError)
    ensures
        e matches OrgDomainError::InternalError(m) && m@ == "Invalid email"@,
{
    OrgDomainError::InternalError("Invalid email".to_string())
}

/// Nobody can invite themselves.
pub fn check_not_self(inviter_email: &str, invitee_email: &str) -> (r: Result<(), OrgDomainError>)
    ensures
        r is Ok <==> inviter_email@ != invitee_email@,
        r is Err ==> r == Err::<(), OrgDomainError>(OrgDomainError::CannotInviteSelf),
{
    if str_equals(inviter_email, invitee_email) {
        return Err(OrgDomainError::CannotInviteSelf);
    }
    Ok(())
}

/// A registered invitee must accept invitations.
pub fn check_accepts_invites(invitee: &UserSummary) -> (r: Result<(), OrgDomainError>)
    ensures
        r is Ok <==> invitee.allow_invites,
        r is Err ==> r == Err::<(), OrgDomainError>(OrgDomainError::UserDoesNotAllowInvites),
{
    if !invitee.allow_invites {
        return Err(OrgDomainError::UserDoesNotAllowInvites);
    }
    Ok(())
}

/// At most one pending invite per organization and address.
pub fn require_no_pending_invite(exists: bool) -> (r: Result<(), OrgDomainError>)
    ensures
        r is Ok <==> !exists,
        r is Err ==> r == Err::<(), OrgDomainError>(OrgDomainError::InviteAlreadyExists),
{
    if exists {
        return Err(OrgDomainError::InviteAlreadyExists);
    }
    Ok(())
}

/// Whether `r` describes `invite` of the organization named `org_name`, sent
/// by the user with address `inviter_email`.
pub open spec fn describes_invite(
    r: InviteResponse,
    invite: OrganizationInvite,
    org_name: Seq<char>,
    inviter_email: Seq<char>,
) -> bool {
    &&& r.id@ == invite@.id
    &&& r.organization_id@ == invite@.organization_id
    &&& r.organization_name@ == org_name
    &&& r.inviter_email@ == inviter_email
    &&& r.invitee_email@ == invite@.invitee_email
    &&& r.role@ == role_text(invite@.role)
    &&& r.status@ == status_text(invite@.status)
    &&& r.expires_at == invite@.expires_at
    &&& r.created_at == invite@.created_at
}

/// An invite as listed.
pub fn invite_response(invite: &OrganizationInvite, org_name: &str, inviter_email: &str) -> (r: InviteResponse)
    ensures
        describes_invite(r, *invite, org_name@, inviter_email@),
{
    InviteResponse {
        id: invite.id().as_str().to_string(),
        organization_id: invite.organization_id().to_string(),
        organization_name: org_name.to_string(),
        inviter_email: inviter_email.to_string(),
        invitee_email: invite.invitee_email().to_string(),
        role: invite.role().as_str().to_string(),
        status: invite.status().as_str().to_string(),
        expires_at: invite.expires_at(),
        created_at: invite.created_at(),
    }
}

/// What sending an invite writes and answers.
pub struct SentInvite {
    pub invite: OrganizationInvite,
    pub activity: OrgActivity,
    pub response: InviteResponse,
}

/// Send an invite at `at`: pending, valid for seven days, and logged with
/// the invitee's address and the role offered.
pub fn plan_invite(
    cmd: &SendInviteCommand,
    org: &Organization,
    inviter: &UserSummary,
    invitee_email: &str,
    invitee_id: Option<String>,
    role: OrgRole,
    invite_id: String,
    activity_id: String,
    at: Timestamp,
) -> (r: SentInvite)
    requires
        at.nanos < 1_000_000_000,
        crate::time::MIN_TIMESTAMP_SECS <= at.secs,
        at.secs + INVITE_VALID_DAYS * crate::time::SECS_PER_DAY <= MAX_TIMESTAMP_SECS,
    ensures
        r.invite@ == (OrganizationInviteView {
            id: invite_id@,
            organization_id: cmd.org_id@,
            inviter_id: cmd.inviter_user_id@,
            invitee_email: invitee_email@,
            invitee_id: opt_text(invitee_id),
            role,
            status: InviteStatus::Pending,
            expires_at: Timestamp {
                secs: (at.secs + INVITE_VALID_DAYS * crate::time::SECS_PER_DAY) as i64,
                nanos: at.nanos,
            },
            created_at: at,
            updated_at: at,
        }),
        r.activity@.id == activity_id@,
        r.activity@.organization_id == org@.id,
        r.activity@.activity_type == ActivityType::InviteSent,
        r.activity@.actor_id == cmd.inviter_user_id@,
        r.activity@.target_id is None,
        r.activity@.metadata == Some(
            seq![("invitee_email"@, invitee_email@), ("role"@, role_text(role))],
        ),
        distinct_metadata_keys(r.activity@.metadata),
        r.invite@.expires_at.secs == at.secs + 7 * 86400,
        r.invite@.expires_at.nanos == at.nanos,
        r.activity@.created_at == at,
        describes_invite(r.response, r.invite, org@.name, inviter.email@),
{
    proof {
        crate::organizations::service::lemma_metadata_keys_differ();
    }
    let expires_at = at.plus_days(INVITE_VALID_DAYS);
    let invite = OrganizationInvite::new_at(
        InviteId::new(invite_id),
        cmd.org_id.clone(),
        cmd.inviter_user_id.clone(),
        invitee_email.to_string(),
        invitee_id,
        role,
        expires_at,
        at,
    );
    let mut metadata: ActivityMetadata = Vec::new();
    metadata.push(("invitee_email".to_string(), invitee_email.to_string()));
    metadata.push(("role".to_string(), role.as_str().to_string()));
    assert(metadata_view(Some(metadata)).unwrap() =~= seq![
        ("invitee_email"@, invitee_email@),
        ("role"@, role_text(role)),
    ]);
    let activity = OrgActivity::reconstruct(
        ActivityId::new(activity_id),
        OrgId::new(org.id().as_str().to_string()),
        ActivityType::InviteSent,
        UserId::new(cmd.inviter_user_id.clone()),
        None,
        Some(metadata),
        at,
    );
    let response = invite_response(&invite, org.name().as_str(), inviter.email.as_str());
    SentInvite { invite, activity, response }
}

/// The invite, which must exist.
pub fn require_invite(invite: Option<OrganizationInvite>) -> (r: Result<OrganizationInvite, OrgDomainError>)
    ensures
        match invite {
            Some(i) => r == Ok::<OrganizationInvite, OrgDomainError>(i),
            None => r == Err::<OrganizationInvite, OrgDomainError>(OrgDomainError::InviteNotFound),
        },
{
    match invite {
        Some(i) => Ok(i),
        None => Err(OrgDomainError::InviteNotFound),
    }
}

/// Whether the invite is addressed to `user`: by user id, or by e-mail
/// address.
pub open spec fn addressed_to(invite: OrganizationInvite, user: UserSummary) -> bool {
    invite@.invitee_id == Some(user.id@) || invite@.invitee_email == user.email@
}

/// Only the invitee may answer an invite, and only while it is pending.
pub fn screen_invite_answer(invite: &OrganizationInvite, user: &UserSummary) -> (r: Result<(), OrgDomainError>)
    ensures
        !addressed_to(*invite, *user) ==> r == Err::<(), OrgDomainError>(
            OrgDomainError::InsufficientPermissions,
        ),
        addressed_to(*invite, *user) && invite@.status != InviteStatus::Pending ==> r == Err::<
            (),
            OrgDomainError,
        >(OrgDomainError::InviteAlreadyProcessed),
        r is Ok <==> addressed_to(*invite, *user) && invite@.status == InviteStatus::Pending,
{
    let id_matches = match invite.invitee_id() {
        Some(id) => str_equals(id, user.id.as_str()),
        None => false,
    };
    if !id_matches && !str_equals(invite.invitee_email(), user.email.as_str()) {
        return Err(OrgDomainError::InsufficientPermissions);
    }
    if invite.status() != InviteStatus::Pending {
        return Err(OrgDomainError::InviteAlreadyProcessed);
    }
    Ok(())
}

/// An invite that has expired at `at` is marked expired (and must then be
/// stored) and refused; otherwise it is left as it was.
pub fn expire_if_due(invite: &mut OrganizationInvite, at: Timestamp) -> (r: Result<(), OrgDomainError>)
    ensures
        r is Err <==> old(invite)@.expires_at.spec_before(at),
        r is Err ==> r == Err::<(), OrgDomainError>(OrgDomainError::InviteExpired)
            && final(invite)@ == invite_closed(old(invite)@, InviteStatus::Expired, at),
        r is Ok ==> final(invite)@ == old(invite)@,
{
    if invite.is_expired_at(at) {
        invite.mark_expired_at(at);
        return Err(OrgDomainError::InviteExpired);
    }
    Ok(())
}

/// An invitee who is already a member: the invite is marked accepted (and
/// must then be stored), and the answer is that the user is a member.
pub fn accept_for_existing_member(invite: &mut OrganizationInvite, at: Timestamp) -> (e: OrgDomainError)
    ensures
        e == OrgDomainError::AlreadyMember,
        final(invite)@ == invite_closed(old(invite)@, InviteStatus::Accepted, at),
{
    invite.accept_at(at);
    OrgDomainError::AlreadyMember
}

/// Accept an invite at `at`: the user joins the organization with the role
/// offered, the invite is marked accepted, and the acceptance is logged.
pub fn plan_accept(
    invite: &mut OrganizationInvite,
    user: &UserSummary,
    member_id: String,
    activity_id: String,
    at: Timestamp,
) -> (r: (OrganizationMember, OrgActivity))
    ensures
        final(invite)@ == invite_closed(old(invite)@, InviteStatus::Accepted, at),
        r.0@.id == member_id@,
        r.0@.organization_id == old(invite)@.organization_id,
        r.0@.user_id == user.id@,
        r.0@.role == old(invite)@.role,
        r.0@.last_accessed_at is None,
        r.0@.created_at == at,
        r.1@.id == activity_id@,
        r.1@.organization_id == old(invite)@.organization_id,
        r.1@.activity_type == ActivityType::InviteAccepted,
        r.1@.actor_id == user.id@,
        r.1@.target_id is None,
        r.1@.metadata == Some(seq![("role"@, role_text(old(invite)@.role))]),
        distinct_metadata_keys(r.1@.metadata),
        r.1@.created_at == at,
{
    let member = OrganizationMember::new_at(
        MemberId::new(member_id),
        OrgId::new(invite.organization_id().to_string()),
        UserId::new(user.id.clone()),
        invite.role(),
        at,
    );
    invite.accept_at(at);
    let mut metadata: ActivityMetadata = Vec::new();
    metadata.push(("role".to_string(), invite.role().as_str().to_string()));
    assert(metadata_view(Some(metadata)).unwrap() =~= seq![("role"@, role_text(old(invite)@.role))]);
    let activity = OrgActivity::reconstruct(
        ActivityId::new(activity_id),
        OrgId::new(invite.organization_id().to_string()),
        ActivityType::InviteAccepted,
        UserId::new(user.id.clone()),
        None,
        Some(metadata),
        at,
    );
    (member, activity)
}

/// Decline an invite at `at`: the invite is marked declined and the refusal
/// logged.
pub fn plan_decline(invite: &mut OrganizationInvite, user: &UserSummary, activity_id: String, at: Timestamp) -> (r: OrgActivity)
    ensures
        final(invite)@ == invite_closed(old(invite)@, InviteStatus::Declined, at),
        r@.id == activity_id@,
        r@.organization_id == old(invite)@.organization_id,
        r@.activity_type == ActivityType::InviteDeclined,
        r@.actor_id == user.id@,
        r@.target_id is None,
        r@.metadata is None,
        r@.created_at == at,
{
    invite.decline_at(at);
    OrgActivity::reconstruct(
        ActivityId::new(activity_id),
        OrgId::new(invite.organization_id().to_string()),
        ActivityType::InviteDeclined,
        UserId::new(user.id.clone()),
        None,
        None,
        at,
    )
}

/// An invite can only be cancelled through its own organization; another
/// organization's invite is answered as not found.
pub fn check_invite_org(invite: &OrganizationInvite, org_id: &str) -> (r: Result<(), OrgDomainError>)
    ensures
        r is Ok <==> invite@.organization_id == org_id@,
        r is Err ==> r == Err::<(), OrgDomainError>(OrgDomainError::InviteNotFound),
{
    if !str_equals(invite.organization_id(), org_id) {
        return Err(OrgDomainError::InviteNotFound);
    }
    Ok(())
}

/// The address shown for an inviter: the user's address, "unknown" when the
/// user is gone.
pub fn inviter_label(inviter: &Option<UserSummary>) -> (r: String)
    ensures
        r@ == (match *inviter {
            Some(u) => u.email@,
            None => "unknown"@,
        }),
{
    match inviter {
        Some(u) => u.email.clone(),
        None => "unknown".to_string(),
    }
}

/// The name shown for an invite's organization: its name, "Unknown" when
/// it is gone.
pub fn org_label(org: &Option<Organization>) -> (r: String)
    ensures
        r@ == (match *org {
            Some(o) => o@.name,
            None => "Unknown"@,
        }),
{
    match org {
        Some(o) => o.name().as_str().to_string(),
        None => "Unknown".to_string(),
    }
}

} // verus!
