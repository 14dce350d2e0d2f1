//! Properties that hold across the organization functions.

use vstd::prelude::*;
use crate::organizations::activity::{activity_named, activity_text, ActivityType};
use crate::organizations::errors::OrgDomainError;
use crate::organizations::http::{org_error_code, org_error_status, org_error_text};
use crate::organizations::invite_http::{invite_error_code, invite_error_status};
use crate::organizations::invite::{
    invite_closed, status_named, status_text, InviteStatus, OrganizationInviteView,
};
use crate::organizations::organization::{
    deletes_org, manages_admins, manages_members, org_after_delete, role_named, role_text,
    updates_org, OrgRole, OrganizationView,
};
use crate::organizations::flows::{send_invite_rest, SendInviteFacts, SendInviteNext};
use crate::organizations::service::{email_local_part, may_remove};
use crate::text::{ascii_lower, lemma_trim_idempotent, name_fits, trim};
use crate::time::Timestamp;

verus! {

/// The text of a role is plain ASCII and already lowercase, so reading it back
/// (ignoring case) names the same role.
pub proof fn lemma_role_text_round_trip(role: OrgRole)
    ensures
        vstd::utf8::is_ascii_chars(role_text(role)),
        ascii_lower(role_text(role)) == role_text(role),
        role_named(ascii_lower(role_text(role))) == Some(role),
{
    reveal_strlit("owner");
    reveal_strlit("admin");
    reveal_strlit("member");
    assert(ascii_lower(role_text(role)) =~= role_text(role));
    assert("admin"@[0] != "owner"@[0]);
    assert("member"@.len() != "owner"@.len());
    assert("member"@.len() != "admin"@.len());
}

/// Every activity type reads back from its stored name.
pub proof fn lemma_activity_text_round_trip(t: ActivityType)
    ensures
        activity_named(activity_text(t)) == Some(t),
{
    reveal_strlit("org_created");
    reveal_strlit("member_added");
    reveal_strlit("member_removed");
    reveal_strlit("member_role_changed");
    reveal_strlit("org_name_changed");
    reveal_strlit("invite_sent");
    reveal_strlit("invite_accepted");
    reveal_strlit("invite_declined");
    assert("member_added"@[0] != "org_created"@[0]);
    assert("member_removed"@[7] != "member_added"@[7]);
    assert("member_removed"@[0] != "org_created"@[0]);
    assert("member_role_changed"@.len() != "org_created"@.len());
    assert("member_role_changed"@.len() != "member_added"@.len());
    assert("member_role_changed"@.len() != "member_removed"@.len());
    assert("org_name_changed"@.len() != "org_created"@.len());
    assert("org_name_changed"@[0] != "member_added"@[0]);
    assert("org_name_changed"@[0] != "member_removed"@[0]);
    assert("org_name_changed"@[0] != "member_role_changed"@[0]);
    assert("invite_sent"@[0] != "org_created"@[0]);
    assert("invite_sent"@[0] != "member_added"@[0]);
    assert("invite_sent"@[0] != "member_removed"@[0]);
    assert("invite_sent"@[0] != "member_role_changed"@[0]);
    assert("invite_sent"@[0] != "org_name_changed"@[0]);
    assert("invite_accepted"@[0] != "org_created"@[0]);
    assert("invite_accepted"@[0] != "member_added"@[0]);
    assert("invite_accepted"@[0] != "member_removed"@[0]);
    assert("invite_accepted"@[0] != "member_role_changed"@[0]);
    assert("invite_accepted"@[0] != "org_name_changed"@[0]);
    assert("invite_accepted"@.len() != "invite_sent"@.len());
    assert("invite_declined"@[0] != "org_created"@[0]);
    assert("invite_declined"@[0] != "member_added"@[0]);
    assert("invite_declined"@[0] != "member_removed"@[0]);
    assert("invite_declined"@[0] != "member_role_changed"@[0]);
    assert("invite_declined"@[0] != "org_name_changed"@[0]);
    assert("invite_declined"@.len() != "invite_sent"@.len());
    assert("invite_declined"@[7] != "invite_accepted"@[7]);
}

/// Every invite status reads back from its stored name.
pub proof fn lemma_status_text_round_trip(s: InviteStatus)
    ensures
        status_named(status_text(s)) == Some(s),
{
    reveal_strlit("pending");
    reveal_strlit("accepted");
    reveal_strlit("declined");
    reveal_strlit("expired");
    assert("accepted"@[0] != "pending"@[0]);
    assert("declined"@[0] != "pending"@[0]);
    assert("declined"@[0] != "accepted"@[0]);
    assert("expired"@[0] != "pending"@[0]);
    assert("expired"@[0] != "accepted"@[0]);
    assert("expired"@[0] != "declined"@[0]);
}

/// The permissions nest: whoever may manage admins may manage members;
/// deleting the organization goes with managing admins, and changing its
/// settings with managing members.
pub proof fn lemma_permissions_nest(role: OrgRole)
    ensures
        manages_admins(role) ==> manages_members(role),
        deletes_org(role) == manages_admins(role),
        updates_org(role) == manages_members(role),
{
}

/// A validated name is validated again unchanged: trimming what was kept
/// keeps it, and it still fits.
pub proof fn lemma_validated_name_stable(raw: Seq<char>)
    requires
        name_fits(trim(raw)),
    ensures
        trim(trim(raw)) == trim(raw),
        name_fits(trim(trim(raw))),
{
    lemma_trim_idempotent(raw);
}

/// An organization is deleted at most once: once a soft delete has gone
/// through, every later one is refused as already deleted.
pub proof fn lemma_org_deleted_once(v: OrganizationView, first: Timestamp, later: Timestamp)
    requires
        org_after_delete(v, first) is Ok,
    ensures
        org_after_delete(org_after_delete(v, first)->Ok_0, later) == Err::<
            OrganizationView,
            OrgDomainError,
        >(OrgDomainError::OrgAlreadyDeleted),
{
}

/// An invite is answered once: accepting, declining or expiring it closes
/// it, a closed invite is no longer pending (so every later answer is
/// refused as already processed), and closing keeps what it offered.
pub proof fn lemma_closed_invite_stays_closed(
    v: OrganizationInviteView,
    status: InviteStatus,
    at: Timestamp,
    later: Timestamp,
)
    requires
        status != InviteStatus::Pending,
    ensures
        invite_closed(v, status, at).status != InviteStatus::Pending,
        invite_closed(v, status, at).organization_id == v.organization_id,
        invite_closed(v, status, at).invitee_email == v.invitee_email,
        invite_closed(v, status, at).role == v.role,
        invite_closed(v, status, at).expires_at == v.expires_at,
        invite_closed(invite_closed(v, status, at), InviteStatus::Expired, later).status
            != InviteStatus::Pending,
{
}

/// Every organization error is answered with a client or server error
/// status and a code, on the organization and on the invite endpoints; and
/// the answer to an internal error does not depend on its details, which
/// stay on the server.
pub proof fn lemma_every_error_answered(e: OrgDomainError, m1: String, m2: String)
    ensures
        400 <= org_error_status(e) <= 500,
        org_error_code(e).len() > 0,
        400 <= invite_error_status(e) <= 500,
        invite_error_code(e).len() > 0,
        org_error_text(OrgDomainError::InternalError(m1)) == org_error_text(
            OrgDomainError::InternalError(m2),
        ),
{
    reveal_strlit("VALIDATION_ERROR");
    reveal_strlit("NOT_FOUND");
    reveal_strlit("USER_NOT_FOUND");
    reveal_strlit("CONFLICT");
    reveal_strlit("ALREADY_MEMBER");
    reveal_strlit("FORBIDDEN");
    reveal_strlit("UNPROCESSABLE");
    reveal_strlit("GONE");
    reveal_strlit("INTERNAL_ERROR");
    reveal_strlit("INVALID_INPUT");
    reveal_strlit("INVITE_EXPIRED");
    reveal_strlit("INVITE_ALREADY_PROCESSED");
}

/// How many of the members hold the owner role.
pub open spec fn owners(roles: Seq<OrgRole>) -> nat
    decreases roles.len(),
{
    if roles.len() == 0 {
        0
    } else {
        owners(roles.drop_last()) + if roles.last() == OrgRole::Owner {
            1nat
        } else {
            0nat
        }
    }
}

/// One if the role is the owner role.
pub open spec fn owner_unit(r: OrgRole) -> nat {
    if r == OrgRole::Owner {
        1
    } else {
        0
    }
}

proof fn lemma_owners_update(roles: Seq<OrgRole>, j: int, r: OrgRole)
    requires
        0 <= j < roles.len(),
    ensures
        owners(roles.update(j, r)) + owner_unit(roles[j]) == owners(roles) + owner_unit(r),
    decreases roles.len(),
{
    if j == roles.len() - 1 {
        assert(roles.update(j, r).drop_last() == roles.drop_last());
    } else {
        assert(roles.update(j, r).drop_last() == roles.drop_last().update(j, r));
        lemma_owners_update(roles.drop_last(), j, r);
    }
}

proof fn lemma_owners_remove(roles: Seq<OrgRole>, j: int)
    requires
        0 <= j < roles.len(),
    ensures
        owners(roles.remove(j)) + owner_unit(roles[j]) == owners(roles),
    decreases roles.len(),
{
    if j == roles.len() - 1 {
        assert(roles.remove(j) == roles.drop_last());
    } else {
        assert(roles.remove(j).drop_last() == roles.drop_last().remove(j));
        assert(roles.remove(j).last() == roles.last());
        lemma_owners_remove(roles.drop_last(), j);
    }
}

/// A role change that the last-owner guard lets through keeps an owner: the
/// guard lets an owner lose the role only while there are at least two.
pub proof fn lemma_role_change_keeps_owner(roles: Seq<OrgRole>, j: int, new_role: OrgRole)
    requires
        owners(roles) >= 1,
        0 <= j < roles.len(),
        roles[j] == OrgRole::Owner && new_role != OrgRole::Owner ==> owners(roles) >= 2,
    ensures
        owners(roles.update(j, new_role)) >= 1,
{
    lemma_owners_update(roles, j, new_role);
}

/// A removal (or a member leaving) that the last-owner guard lets through
/// keeps an owner.
pub proof fn lemma_removal_keeps_owner(roles: Seq<OrgRole>, j: int)
    requires
        owners(roles) >= 1,
        0 <= j < roles.len(),
        roles[j] == OrgRole::Owner ==> owners(roles) >= 2,
    ensures
        owners(roles.remove(j)) >= 1,
{
    lemma_owners_remove(roles, j);
}

/// Handing the ownership from an owner to another member keeps an owner:
/// the new owner.
pub proof fn lemma_transfer_keeps_owner(roles: Seq<OrgRole>, from: int, to: int)
    requires
        0 <= from < roles.len(),
        0 <= to < roles.len(),
        from != to,
        roles[from] == OrgRole::Owner,
    ensures
        owners(roles.update(to, OrgRole::Owner).update(from, OrgRole::Admin)) >= 1,
{
    let after = roles.update(to, OrgRole::Owner).update(from, OrgRole::Admin);
    assert(after[to] == OrgRole::Owner);
    lemma_owners_remove(after, to);
}

/// An owner may remove anyone; an admin may remove plain members only; a
/// member may remove nobody. In particular, a requester who is not an owner
/// can never remove an owner or an admin.
pub proof fn lemma_removal_rights(requester: OrgRole, target: OrgRole)
    ensures
        requester == OrgRole::Owner ==> may_remove(requester, target),
        requester == OrgRole::Admin && target == OrgRole::Member ==> may_remove(requester, target),
        requester != OrgRole::Owner && target != OrgRole::Member ==> !may_remove(requester, target),
        requester == OrgRole::Member ==> !may_remove(requester, target),
{
}

/// No invite is sent while an invite to the same address is pending,
/// whether or not the invitee is a registered user.
pub proof fn lemma_pending_invite_blocks_sending(
    f: SendInviteFacts,
    role: OrgRole,
    r: SendInviteNext,
)
    requires
        send_invite_rest(f, role, r),
        f.pending_invite == Some(true),
    ensures
        !(r is Send),
{
}

/// An invite is sent only once every check has passed: the address parsed,
/// the inviter exists and is not the invitee, a registered invitee accepts
/// invites and is not a member, and no invite to the address is pending.
pub proof fn lemma_invite_sent_only_after_every_check(
    f: SendInviteFacts,
    role: OrgRole,
    r: SendInviteNext,
)
    requires
        send_invite_rest(f, role, r),
        r is Send,
    ensures
        f.invitee_email matches Some(Some(email)) && (f.inviter matches Some(Some(inviter))
            && inviter.email@ != email@),
        f.invitee matches Some(invitee) && (invitee matches Some(u) ==> u.allow_invites
            && f.invitee_is_member == Some(false)),
        f.pending_invite == Some(false),
{
}

/// The three roles have their own names: "owner", "admin" and "member".
pub proof fn lemma_role_names(a: OrgRole, b: OrgRole)
    ensures
        role_text(OrgRole::Owner) == "owner"@,
        role_text(OrgRole::Admin) == "admin"@,
        role_text(OrgRole::Member) == "member"@,
        a != b ==> role_text(a) != role_text(b),
{
    reveal_strlit("owner");
    reveal_strlit("admin");
    reveal_strlit("member");
    if a != b {
        assert(role_text(a)[0] != role_text(b)[0]);
    }
}

/// The name of a personal organization is the part of the address before
/// its first `@` (the whole address when it has none).
pub proof fn lemma_local_part_is_before_first_at(email: Seq<char>, i: int)
    requires
        0 <= i <= email.len(),
        forall|j: int| 0 <= j < i ==> email[j] != '@',
        i == email.len() || email[i] == '@',
    ensures
        email_local_part(email) == email.take(i),
    decreases i,
{
    if i == 0 {
        assert(email.take(0) =~= Seq::<char>::empty());
    } else {
        let rest = email.drop_first();
        assert forall|j: int| 0 <= j < i - 1 implies rest[j] != '@' by {
            assert(rest[j] == email[j + 1]);
        }
        if i - 1 < rest.len() {
            assert(rest[i - 1] == email[i]);
        }
        lemma_local_part_is_before_first_at(rest, i - 1);
        assert(email.take(i) =~= seq![email[0]] + rest.take(i - 1));
    }
}

} // verus!
