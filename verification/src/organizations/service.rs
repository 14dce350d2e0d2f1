//! The decisions of the organization use cases. The application service
//! looks records up and stores them; each function here takes what was
//! looked up and says what happens next: which error is answered, which
//! records are written, and what the caller receives.

use vstd::prelude::*;
use crate::organizations::activity::{
    distinct_metadata_keys, metadata_view, ActivityId, ActivityMetadata, ActivityType, OrgActivity,
};
use crate::organizations::dto::{
    ActivityResponse, CreateOrgCommand, CreatePersonalOrgCommand, MemberResponse, OrgResponse,
    SwitchOrgResponse,
};
use crate::organizations::errors::OrgDomainError;
use crate::organizations::member::OrganizationMember;
use crate::organizations::organization::{
    generated_slug, role_text, MemberId, OrgId, OrgName, OrgRole, OrgSlug, Organization,
};
use crate::random::random_below;
use crate::text::{chars_of, name_fits, push_char, string_from_prefix, trim, unicode_lowercase};
use crate::time::Timestamp;
use crate::users::{user_label, UserId, UserSummary};

verus! {

/// The characters a slug suffix is drawn from.
pub const SLUG_SUFFIX_CHARSET: &'static str = "abcdefghijklmnopqrstuvwxyz0123456789";

/// How many characters a slug suffix has.
pub const SLUG_SUFFIX_LEN: usize = 4;

/// The characters that can appear in a generated slug suffix.
pub open spec fn suffix_char(c: char) -> bool {
    ('a' <= c && c <= 'z') || ('0' <= c && c <= '9')
}

/// Generate a random 4-character suffix for slugs, from lowercase ASCII
/// letters and digits.
pub fn generate_random_suffix() -> (r: String)
    ensures
        r@.len() == SLUG_SUFFIX_LEN,
        forall|i: int| 0 <= i < r@.len() ==> suffix_char(#[trigger] r@[i]),
{
    let charset = chars_of(SLUG_SUFFIX_CHARSET);
    proof {
        reveal_strlit("abcdefghijklmnopqrstuvwxyz0123456789");
    }
    assert(charset@.len() == 36);
    assert forall|k: int| 0 <= k < charset@.len() implies suffix_char(#[trigger] charset@[k]) by {
        reveal_strlit("abcdefghijklmnopqrstuvwxyz0123456789");
    }
    let mut s = String::new();
    for i in 0..SLUG_SUFFIX_LEN
        invariant
            charset@.len() == 36,
            forall|k: int| 0 <= k < charset@.len() ==> suffix_char(#[trigger] charset@[k]),
            s@.len() == i,
            forall|k: int| 0 <= k < s@.len() ==> suffix_char(#[trigger] s@[k]),
    {
        let idx = random_below(charset.len());
        push_char(&mut s, charset[idx]);
    }
    s
}

/// The organization, which must exist.
pub fn require_org(org: Option<Organization>) -> (r: Result<Organization, OrgDomainError>)
    ensures
        match org {
            Some(o) => r == Ok::<Organization, OrgDomainError>(o),
            None => r == Err::<Organization, OrgDomainError>(OrgDomainError::OrgNotFound),
        },
{
    match org {
        Some(o) => Ok(o),
        None => Err(OrgDomainError::OrgNotFound),
    }
}

/// The organization, which must exist and not be deleted: a deleted
/// organization is answered as not found.
pub fn require_live_org(org: Option<Organization>) -> (r: Result<Organization, OrgDomainError>)
    ensures
        match org {
            Some(o) => if o@.deleted_at is None {
                r == Ok::<Organization, OrgDomainError>(o)
            } else {
                r == Err::<Organization, OrgDomainError>(OrgDomainError::OrgNotFound)
            },
            None => r == Err::<Organization, OrgDomainError>(OrgDomainError::OrgNotFound),
        },
{
    match org {
        Some(o) => {
            if o.is_deleted() {
                Err(OrgDomainError::OrgNotFound)
            } else {
                Ok(o)
            }
        },
        None => Err(OrgDomainError::OrgNotFound),
    }
}

/// The membership, which must exist.
pub fn require_membership(m: Option<OrganizationMember>) -> (r: Result<
    OrganizationMember,
    OrgDomainError,
>)
    ensures
        match m {
            Some(x) => r == Ok::<OrganizationMember, OrgDomainError>(x),
            None => r == Err::<OrganizationMember, OrgDomainError>(OrgDomainError::NotOrgMember),
        },
{
    match m {
        Some(x) => Ok(x),
        None => Err(OrgDomainError::NotOrgMember),
    }
}

/// The user, which must exist.
pub fn require_user(u: Option<UserSummary>) -> (r: Result<UserSummary, OrgDomainError>)
    ensures
        match u {
            Some(x) => r == Ok::<UserSummary, OrgDomainError>(x),
            None => r == Err::<UserSummary, OrgDomainError>(OrgDomainError::UserNotFound),
        },
{
    match u {
        Some(x) => Ok(x),
        None => Err(OrgDomainError::UserNotFound),
    }
}

/// Whether `r` describes organization `o` seen with role `role`.
pub open spec fn describes_org(r: OrgResponse, o: Organization, role: OrgRole) -> bool {
    &&& r.id@ == o@.id
    &&& r.name@ == o@.name
    &&& r.slug@ == o@.slug
    &&& r.is_personal == o@.is_personal
    &&& r.role@ == role_text(role)
    &&& r.created_at == o@.created_at
}

/// The organization as its members see it, with their role.
pub fn org_response(org: &Organization, role: OrgRole) -> (r: OrgResponse)
    ensures
        describes_org(r, *org, role),
{
    OrgResponse {
        id: org.id().as_str().to_string(),
        name: org.name().as_str().to_string(),
        slug: org.slug().as_str().to_string(),
        is_personal: org.is_personal(),
        role: role.as_str().to_string(),
        created_at: org.created_at(),
    }
}

/// What creating an organization writes and answers.
pub struct CreatedOrg {
    pub org: Organization,
    pub owner: OrganizationMember,
    pub activity: OrgActivity,
    pub response: OrgResponse,
}

/// Create an organization: the name is validated, the slug generated with
/// `suffix`, the creator becomes its owner (accessed at `at`), and the
/// creation is logged.
pub fn plan_create_org(
    cmd: CreateOrgCommand,
    org_id: String,
    member_id: String,
    activity_id: String,
    suffix: &str,
    at: Timestamp,
) -> (r: Result<CreatedOrg, OrgDomainError>)
    ensures
        r is Ok <==> name_fits(trim(cmd.name@)),
        r matches Err(e) ==> e is InvalidOrgName,
        r matches Ok(c) ==> {
            &&& c.org@.id == org_id@
            &&& c.org@.name == trim(cmd.name@)
            &&& c.org@.slug == generated_slug(trim(cmd.name@), suffix@)
            &&& !c.org@.is_personal
            &&& c.org@.deleted_at is None
            &&& c.org@.created_at == at
            &&& c.owner@.id == member_id@
            &&& c.owner@.organization_id == org_id@
            &&& c.owner@.user_id == cmd.user_id@
            &&& c.owner@.role == OrgRole::Owner
            &&& c.owner@.last_accessed_at == Some(at)
            &&& c.activity@.id == activity_id@
            &&& c.activity@.organization_id == org_id@
            &&& c.activity@.activity_type == ActivityType::OrgCreated
            &&& c.activity@.actor_id == cmd.user_id@
            &&& c.activity@.target_id is None
            &&& c.activity@.metadata is None
            &&& describes_org(c.response, c.org, OrgRole::Owner)
        },
{
    let name = match OrgName::new(cmd.name) {
        Ok(n) => n,
        Err(e) => return Err(e),
    };
    let slug = OrgSlug::generate(&name, suffix);
    let org = Organization::new_at(OrgId::new(org_id), name, slug, at);
    let user_id = UserId::new(cmd.user_id);
    let mut owner = OrganizationMember::new_at(
        MemberId::new(member_id),
        OrgId::new(org.id().as_str().to_string()),
        UserId::new(user_id.as_str().to_string()),
        OrgRole::Owner,
        at,
    );
    owner.touch_last_accessed_at(at);
    let activity = OrgActivity::reconstruct(
        ActivityId::new(activity_id),
        OrgId::new(org.id().as_str().to_string()),
        ActivityType::OrgCreated,
        user_id,
        None,
        None,
        at,
    );
    let response = org_response(&org, OrgRole::Owner);
    Ok(CreatedOrg { org, owner, activity, response })
}

/// The part of an e-mail address before the first `@` (the whole address
/// when it has none).
pub open spec fn email_local_part(email: Seq<char>) -> Seq<char>
    decreases email.len(),
{
    if email.len() == 0 || email[0] == '@' {
        Seq::empty()
    } else {
        seq![email[0]] + email_local_part(email.drop_first())
    }
}

/// The name of a user's personal organization: the local part of the
/// e-mail address.
pub fn personal_org_name(email: &str) -> (r: String)
    ensures
        r@ == email_local_part(email@),
{
    let cs = chars_of(email);
    let n = cs.len();
    let mut i: usize = 0;
    assert(cs@.take(0) == Seq::<char>::empty());
    assert(cs@.skip(0) == cs@);
    while i < n && cs[i] != '@'
        invariant
            n == cs@.len(),
            cs@ == email@,
            i <= n,
            email_local_part(cs@) == cs@.take(i as int) + email_local_part(cs@.skip(i as int)),
        decreases n - i,
    {
        let ghost rest = cs@.skip(i as int);
        assert(rest[0] == cs@[i as int]);
        assert(rest.drop_first() == cs@.skip(i + 1));
        assert(cs@.take(i + 1) == cs@.take(i as int) + seq![cs@[i as int]]);
        i = i + 1;
    }
    assert(i < n ==> cs@.skip(i as int)[0] == cs@[i as int]);
    assert(email_local_part(cs@.skip(i as int)) == Seq::<char>::empty());
    string_from_prefix(cs.as_slice(), i)
}

/// What creating a personal organization writes.
pub struct CreatedPersonalOrg {
    pub org: Organization,
    pub owner: OrganizationMember,
}

/// Create a user's personal organization, named after the local part of the
/// e-mail address, with the user as its owner (accessed at `at`).
pub fn plan_create_personal_org(
    cmd: CreatePersonalOrgCommand,
    org_id: String,
    member_id: String,
    suffix: &str,
    at: Timestamp,
) -> (r: Result<CreatedPersonalOrg, OrgDomainError>)
    ensures
        r is Ok <==> name_fits(trim(email_local_part(cmd.email@))),
        r matches Err(e) ==> e is InvalidOrgName,
        r matches Ok(c) ==> {
            &&& c.org@.id == org_id@
            &&& c.org@.name == trim(email_local_part(cmd.email@))
            &&& c.org@.slug == generated_slug(trim(email_local_part(cmd.email@)), suffix@)
            &&& c.org@.is_personal
            &&& c.org@.deleted_at is None
            &&& c.owner@.id == member_id@
            &&& c.owner@.organization_id == org_id@
            &&& c.owner@.user_id == cmd.user_id@
            &&& c.owner@.role == OrgRole::Owner
            &&& c.owner@.last_accessed_at == Some(at)
        },
{
    let name = OrgName::new(personal_org_name(cmd.email.as_str()))?;
    let slug = OrgSlug::generate(&name, suffix);
    let org = Organization::new_personal_at(OrgId::new(org_id), name, slug, at);
    let mut owner = OrganizationMember::new_at(
        MemberId::new(member_id),
        OrgId::new(org.id().as_str().to_string()),
        UserId::new(cmd.user_id),
        OrgRole::Owner,
        at,
    );
    owner.touch_last_accessed_at(at);
    Ok(CreatedPersonalOrg { org, owner })
}

/// The memberships whose organization is found and not deleted, with that
/// organization and the member's role, in order.
pub open spec fn live_memberships(entries: Seq<(OrganizationMember, Option<Organization>)>) -> Seq<
    (Organization, OrgRole),
>
    decreases entries.len(),
{
    if entries.len() == 0 {
        Seq::empty()
    } else {
        let rest = live_memberships(entries.drop_last());
        match entries.last().1 {
            Some(o) => if o@.deleted_at is None {
                rest.push((o, entries.last().0@.role))
            } else {
                rest
            },
            None => rest,
        }
    }
}

/// The organizations a user belongs to: one entry per membership whose
/// organization exists and is not deleted, with the user's role there.
pub fn user_org_list(entries: Vec<(OrganizationMember, Option<Organization>)>) -> (r: Vec<
    OrgResponse,
>)
    ensures
        r@.len() == live_memberships(entries@).len(),
        forall|k: int|
            0 <= k < r@.len() ==> describes_org(
                #[trigger] r@[k],
                live_memberships(entries@)[k].0,
                live_memberships(entries@)[k].1,
            ),
{
    let mut out: Vec<OrgResponse> = Vec::new();
    let n = entries.len();
    for i in 0..n
        invariant
            n == entries@.len(),
            out@.len() == live_memberships(entries@.take(i as int)).len(),
            forall|k: int|
                0 <= k < out@.len() ==> describes_org(
                    #[trigger] out@[k],
                    live_memberships(entries@.take(i as int))[k].0,
                    live_memberships(entries@.take(i as int))[k].1,
                ),
    {
        assert(entries@.take(i + 1).drop_last() == entries@.take(i as int));
        let entry = &entries[i];
        match &entry.1 {
            Some(org) => {
                if !org.is_deleted() {
                    out.push(org_response(org, *entry.0.role()));
                }
            },
            None => {},
        }
    }
    assert(entries@.take(n as int) == entries@);
    out
}

/// Only admins and owners may update an organization.
pub fn authorize_org_update(role: OrgRole) -> (r: Result<(), OrgDomainError>)
    ensures
        r is Ok <==> (role == OrgRole::Owner || role == OrgRole::Admin),
        r is Err ==> r == Err::<(), OrgDomainError>(OrgDomainError::InsufficientPermissions),
{
    if !role.can_update_org() {
        return Err(OrgDomainError::InsufficientPermissions);
    }
    Ok(())
}

/// Only owners may delete an organization.
pub fn authorize_org_delete(role: OrgRole) -> (r: Result<(), OrgDomainError>)
    ensures
        r is Ok <==> role == OrgRole::Owner,
        r is Err ==> r == Err::<(), OrgDomainError>(OrgDomainError::InsufficientPermissions),
{
    if !role.can_delete_org() {
        return Err(OrgDomainError::InsufficientPermissions);
    }
    Ok(())
}

/// An activity entry written at `at`.
fn log_entry(
    activity_id: String,
    org_id: &OrgId,
    activity_type: ActivityType,
    actor_id: &str,
    target_id: Option<&str>,
    metadata: Option<ActivityMetadata>,
    at: Timestamp,
) -> (r: OrgActivity)
    ensures
        r@.id == activity_id@,
        r@.organization_id == org_id@,
        r@.activity_type == activity_type,
        r@.actor_id == actor_id@,
        r@.target_id == (match target_id {
            Some(t) => Some(t@),
            None => None::<Seq<char>>,
        }),
        r@.metadata == metadata_view(metadata),
        r@.created_at == at,
{
    let target = match target_id {
        Some(t) => Some(UserId::new(t.to_string())),
        None => None,
    };
    OrgActivity::reconstruct(
        ActivityId::new(activity_id),
        OrgId::new(org_id.as_str().to_string()),
        activity_type,
        UserId::new(actor_id.to_string()),
        target,
        metadata,
        at,
    )
}

/// The keys that activity metadata pairs differ from one another.
pub proof fn lemma_metadata_keys_differ()
    ensures
        "old_name"@ != "new_name"@,
        "old_role"@ != "new_role"@,
        "invitee_email"@ != "role"@,
{
    reveal_strlit("old_name");
    reveal_strlit("new_name");
    reveal_strlit("old_role");
    reveal_strlit("new_role");
    reveal_strlit("invitee_email");
    reveal_strlit("role");
    assert("old_name"@[0] != "new_name"@[0]);
    assert("old_role"@[0] != "new_role"@[0]);
    assert("invitee_email"@.len() != "role"@.len());
}

/// Metadata with two entries.
fn pair_metadata(k1: &str, v1: &str, k2: &str, v2: &str) -> (r: ActivityMetadata)
    requires
        k1@ != k2@,
    ensures
        metadata_view(Some(r)) == Some(seq![(k1@, v1@), (k2@, v2@)]),
        distinct_metadata_keys(metadata_view(Some(r))),
{
    let mut m: ActivityMetadata = Vec::new();
    m.push((k1.to_string(), v1.to_string()));
    m.push((k2.to_string(), v2.to_string()));
    assert(metadata_view(Some(m)).unwrap() =~= seq![(k1@, v1@), (k2@, v2@)]);
    m
}

/// Rename an organization: the new name is validated, a new slug generated
/// with `suffix`, and the change logged with the old and new names. A
/// refused name leaves the organization as it was.
pub fn rename_org(
    org: &mut Organization,
    new_name: String,
    actor_id: &str,
    activity_id: String,
    suffix: &str,
    at: Timestamp,
) -> (r: Result<OrgActivity, OrgDomainError>)
    ensures
        r is Ok <==> name_fits(trim(new_name@)),
        r matches Err(e) ==> e is InvalidOrgName && final(org)@ == old(org)@,
        r matches Ok(a) ==> {
            &&& final(org)@.name == trim(new_name@)
            &&& final(org)@.slug == generated_slug(trim(new_name@), suffix@)
            &&& final(org)@.updated_at == at
            &&& final(org)@.id == old(org)@.id
            &&& final(org)@.is_personal == old(org)@.is_personal
            &&& final(org)@.created_at == old(org)@.created_at
            &&& final(org)@.deleted_at == old(org)@.deleted_at
            &&& a@.id == activity_id@
            &&& a@.organization_id == old(org)@.id
            &&& a@.activity_type == ActivityType::OrgNameChanged
            &&& a@.actor_id == actor_id@
            &&& a@.target_id is None
            &&& a@.metadata == Some(
                seq![("old_name"@, old(org)@.name), ("new_name"@, trim(new_name@))],
            )
            &&& distinct_metadata_keys(a@.metadata)
            &&& a@.created_at == at
        },
{
    proof {
        lemma_metadata_keys_differ();
    }
    let old_name = org.name().as_str().to_string();
    let name = match OrgName::new(new_name) {
        Ok(n) => n,
        Err(e) => return Err(e),
    };
    let slug = OrgSlug::generate(&name, suffix);
    org.update_name_at(name, slug, at);
    let metadata = pair_metadata("old_name", old_name.as_str(), "new_name", org.name().as_str());
    Ok(log_entry(activity_id, org.id(), ActivityType::OrgNameChanged, actor_id, None, Some(metadata), at))
}

/// The role a new member gets: the requested role must exist; only admins
/// and owners add members, and only owners add admins.
pub fn new_member_role(requester: OrgRole, role_text: &str) -> (r: Result<OrgRole, OrgDomainError>)
    ensures
        match crate::organizations::organization::role_named(unicode_lowercase(role_text@)) {
            None => r matches Err(e) && e matches OrgDomainError::InvalidRole(m) && m@
                == "unknown role: "@ + role_text@,
            Some(role) => if !(requester == OrgRole::Owner || requester == OrgRole::Admin) {
                r == Err::<OrgRole, OrgDomainError>(OrgDomainError::InsufficientPermissions)
            } else if role == OrgRole::Admin && requester != OrgRole::Owner {
                r == Err::<OrgRole, OrgDomainError>(OrgDomainError::InsufficientPermissions)
            } else {
                r == Ok::<OrgRole, OrgDomainError>(role)
            },
        },
{
    let role = OrgRole::from_str(role_text)?;
    if !requester.can_manage_members() {
        return Err(OrgDomainError::InsufficientPermissions);
    }
    if role == OrgRole::Admin && !requester.can_manage_admins() {
        return Err(OrgDomainError::InsufficientPermissions);
    }
    Ok(role)
}

/// A user who is already a member cannot be added again.
pub fn require_not_member(existing: bool) -> (r: Result<(), OrgDomainError>)
    ensures
        r is Ok <==> !existing,
        r is Err ==> r == Err::<(), OrgDomainError>(OrgDomainError::AlreadyMember),
{
    if existing {
        return Err(OrgDomainError::AlreadyMember);
    }
    Ok(())
}

/// Whether `r` describes `member`, who is the user `user`.
pub open spec fn describes_member(r: MemberResponse, member: OrganizationMember, user: UserSummary) -> bool {
    &&& r.id@ == member@.id
    &&& r.user_id@ == member@.user_id
    &&& r.email@ == user.email@
    &&& r.display_name == user.display_name
    &&& r.role@ == role_text(member@.role)
    &&& r.joined_at == member@.created_at
}

/// A member as listed: the membership and what the user record says.
pub fn member_response(member: &OrganizationMember, user: &UserSummary) -> (r: MemberResponse)
    ensures
        describes_member(r, *member, *user),
{
    MemberResponse {
        id: member.id().as_str().to_string(),
        user_id: member.user_id().as_str().to_string(),
        email: user.email.clone(),
        display_name: user.display_name.clone(),
        role: member.role().as_str().to_string(),
        joined_at: member.created_at(),
    }
}

/// What adding a member writes and answers.
pub struct AddedMember {
    pub member: OrganizationMember,
    pub activity: OrgActivity,
    pub response: MemberResponse,
}

/// Add `user` (found by the e-mail address `email`) to the organization
/// with `role`, and log who added them.
pub fn plan_add_member(
    org_id: &OrgId,
    requester_id: &str,
    user: &UserSummary,
    email: String,
    role: OrgRole,
    member_id: String,
    activity_id: String,
    at: Timestamp,
) -> (r: AddedMember)
    ensures
        r.member@.id == member_id@,
        r.member@.organization_id == org_id@,
        r.member@.user_id == user.id@,
        r.member@.role == role,
        r.member@.last_accessed_at is None,
        r.member@.created_at == at,
        r.activity@.id == activity_id@,
        r.activity@.organization_id == org_id@,
        r.activity@.activity_type == ActivityType::MemberAdded,
        r.activity@.actor_id == requester_id@,
        r.activity@.target_id == Some(user.id@),
        r.activity@.metadata is None,
        r.response.id@ == member_id@,
        r.response.user_id@ == user.id@,
        r.response.email@ == email@,
        r.response.display_name == user.display_name,
        r.response.role@ == role_text(role),
        r.response.joined_at == at,
{
    let member = OrganizationMember::new_at(
        MemberId::new(member_id),
        OrgId::new(org_id.as_str().to_string()),
        UserId::new(user.id.clone()),
        role,
        at,
    );
    let activity = log_entry(
        activity_id,
        org_id,
        ActivityType::MemberAdded,
        requester_id,
        Some(user.id.as_str()),
        None,
        at,
    );
    let response = MemberResponse {
        id: member.id().as_str().to_string(),
        user_id: user.id.clone(),
        email,
        display_name: user.display_name.clone(),
        role: role.as_str().to_string(),
        joined_at: member.created_at(),
    };
    AddedMember { member, activity, response }
}

/// The members whose user record is found, in order.
pub open spec fn found_members(entries: Seq<(OrganizationMember, Option<UserSummary>)>) -> Seq<
    (OrganizationMember, UserSummary),
>
    decreases entries.len(),
{
    if entries.len() == 0 {
        Seq::empty()
    } else {
        let rest = found_members(entries.drop_last());
        match entries.last().1 {
            Some(u) => rest.push((entries.last().0, u)),
            None => rest,
        }
    }
}

/// The members of an organization: one entry per membership whose user is
/// found.
pub fn member_list(entries: Vec<(OrganizationMember, Option<UserSummary>)>) -> (r: Vec<MemberResponse>)
    ensures
        r@.len() == found_members(entries@).len(),
        forall|k: int|
            0 <= k < r@.len() ==> describes_member(
                #[trigger] r@[k],
                found_members(entries@)[k].0,
                found_members(entries@)[k].1,
            ),
{
    let mut out: Vec<MemberResponse> = Vec::new();
    let n = entries.len();
    for i in 0..n
        invariant
            n == entries@.len(),
            out@.len() == found_members(entries@.take(i as int)).len(),
            forall|k: int|
                0 <= k < out@.len() ==> describes_member(
                    #[trigger] out@[k],
                    found_members(entries@.take(i as int))[k].0,
                    found_members(entries@.take(i as int))[k].1,
                ),
    {
        assert(entries@.take(i + 1).drop_last() == entries@.take(i as int));
        let entry = &entries[i];
        match &entry.1 {
            Some(user) => {
                out.push(member_response(&entry.0, user));
            },
            None => {},
        }
    }
    assert(entries@.take(n as int) == entries@);
    out
}

/// Only owners may change roles.
pub fn authorize_role_change(requester: Option<OrganizationMember>) -> (r: Result<(), OrgDomainError>)
    ensures
        match requester {
            None => r == Err::<(), OrgDomainError>(OrgDomainError::NotOrgMember),
            Some(m) => if m@.role == OrgRole::Owner {
                r is Ok
            } else {
                r == Err::<(), OrgDomainError>(OrgDomainError::InsufficientPermissions)
            },
        },
{
    let m = require_membership(requester)?;
    if !m.role().can_manage_admins() {
        return Err(OrgDomainError::InsufficientPermissions);
    }
    Ok(())
}

/// A role change: the member's role before and after, and whether the
/// change takes an owner's role away (which needs another owner to remain).
#[derive(Debug, Clone, Copy)]
pub struct RoleChange {
    pub old_role: OrgRole,
    pub new_role: OrgRole,
    pub demotes_owner: bool,
}

/// The change from `current` to the role named by `new_role_text`.
pub fn plan_role_change(current: OrgRole, new_role_text: &str) -> (r: Result<RoleChange, OrgDomainError>)
    ensures
        match crate::organizations::organization::role_named(unicode_lowercase(new_role_text@)) {
            None => r matches Err(e) && e matches OrgDomainError::InvalidRole(m) && m@
                == "unknown role: "@ + new_role_text@,
            Some(role) => r matches Ok(c) && c.old_role == current && c.new_role == role
                && c.demotes_owner == (current == OrgRole::Owner && role != OrgRole::Owner),
        },
{
    let new_role = OrgRole::from_str(new_role_text)?;
    Ok(RoleChange {
        old_role: current,
        new_role,
        demotes_owner: current == OrgRole::Owner && new_role != OrgRole::Owner,
    })
}

/// An owner may lose the role (by demotion, removal or leaving) only while
/// another owner remains: with `owner_count` owners in all, one or none
/// means `refusal`.
pub fn guard_last_owner(owner_count: u32, refusal: OrgDomainError) -> (r: Result<(), OrgDomainError>)
    ensures
        r is Ok <==> owner_count >= 2,
        r is Err ==> r == Err::<(), OrgDomainError>(refusal),
{
    if owner_count <= 1 {
        return Err(refusal);
    }
    Ok(())
}

/// Apply a role change to `target` at `at` and log it with the old and new
/// roles.
pub fn apply_role_change(
    target: &mut OrganizationMember,
    change: RoleChange,
    actor_id: &str,
    activity_id: String,
    at: Timestamp,
) -> (r: OrgActivity)
    ensures
        final(target)@ == (crate::organizations::member::OrganizationMemberView {
            role: change.new_role,
            updated_at: at,
            ..old(target)@
        }),
        r@.id == activity_id@,
        r@.organization_id == old(target)@.organization_id,
        r@.activity_type == ActivityType::MemberRoleChanged,
        r@.actor_id == actor_id@,
        r@.target_id == Some(old(target)@.user_id),
        r@.metadata == Some(
            seq![("old_role"@, role_text(change.old_role)), ("new_role"@, role_text(change.new_role))],
        ),
        distinct_metadata_keys(r@.metadata),
        r@.created_at == at,
{
    proof {
        lemma_metadata_keys_differ();
    }
    target.update_role_at(change.new_role, at);
    let metadata = pair_metadata("old_role", change.old_role.as_str(), "new_role", change.new_role.as_str());
    log_entry(
        activity_id,
        target.organization_id(),
        ActivityType::MemberRoleChanged,
        actor_id,
        Some(target.user_id().as_str()),
        Some(metadata),
        at,
    )
}

/// Who may remove whom: an owner removes anyone, an admin removes plain
/// members only.
pub open spec fn may_remove(requester: OrgRole, target: OrgRole) -> bool {
    requester == OrgRole::Owner || (requester == OrgRole::Admin && target == OrgRole::Member)
}

/// The requester must be allowed to remove the target.
pub fn authorize_removal(requester: OrgRole, target: OrgRole) -> (r: Result<(), OrgDomainError>)
    ensures
        r is Ok <==> may_remove(requester, target),
        r is Err ==> r == Err::<(), OrgDomainError>(OrgDomainError::InsufficientPermissions),
        requester == OrgRole::Owner ==> r is Ok,
        requester == OrgRole::Admin && target == OrgRole::Member ==> r is Ok,
        requester != OrgRole::Owner && target != OrgRole::Member ==> r == Err::<(), OrgDomainError>(
            OrgDomainError::InsufficientPermissions,
        ),
        requester == OrgRole::Member ==> r is Err,
{
    match (requester, target) {
        (OrgRole::Owner, _) => Ok(()),
        (OrgRole::Admin, OrgRole::Member) => Ok(()),
        _ => Err(OrgDomainError::InsufficientPermissions),
    }
}

/// The log entry of a removal of `target_id` by `actor_id`.
pub fn removal_activity(org_id: &OrgId, actor_id: &str, target_id: &str, activity_id: String, at: Timestamp) -> (r: OrgActivity)
    ensures
        r@.id == activity_id@,
        r@.organization_id == org_id@,
        r@.activity_type == ActivityType::MemberRemoved,
        r@.actor_id == actor_id@,
        r@.target_id == Some(target_id@),
        r@.metadata is None,
        r@.created_at == at,
{
    log_entry(activity_id, org_id, ActivityType::MemberRemoved, actor_id, Some(target_id), None, at)
}

/// The log entry of a user leaving: the user is both actor and target, and
/// the reason is recorded.
pub fn leave_activity(org_id: &OrgId, user_id: &str, activity_id: String, at: Timestamp) -> (r: OrgActivity)
    ensures
        r@.id == activity_id@,
        r@.organization_id == org_id@,
        r@.activity_type == ActivityType::MemberRemoved,
        r@.actor_id == user_id@,
        r@.target_id == Some(user_id@),
        r@.metadata == Some(seq![("reason"@, "left"@)]),
        distinct_metadata_keys(r@.metadata),
        r@.created_at == at,
{
    let mut m: ActivityMetadata = Vec::new();
    m.push(("reason".to_string(), "left".to_string()));
    assert(metadata_view(Some(m)).unwrap() =~= seq![("reason"@, "left"@)]);
    log_entry(activity_id, org_id, ActivityType::MemberRemoved, user_id, Some(user_id), Some(m), at)
}

/// Only an owner may transfer ownership.
pub fn authorize_transfer(requester: Option<OrganizationMember>) -> (r: Result<OrganizationMember, OrgDomainError>)
    ensures
        match requester {
            None => r == Err::<OrganizationMember, OrgDomainError>(OrgDomainError::NotOrgMember),
            Some(m) => if m@.role == OrgRole::Owner {
                r == Ok::<OrganizationMember, OrgDomainError>(m)
            } else {
                r == Err::<OrganizationMember, OrgDomainError>(
                    OrgDomainError::InsufficientPermissions,
                )
            },
        },
{
    let m = require_membership(requester)?;
    if *m.role() != OrgRole::Owner {
        return Err(OrgDomainError::InsufficientPermissions);
    }
    Ok(m)
}

/// Transfer ownership at `at`: the new owner becomes an owner, the current
/// owner an admin, and both changes are logged.
pub fn apply_transfer(
    current_owner: &mut OrganizationMember,
    new_owner: &mut OrganizationMember,
    promotion_id: String,
    demotion_id: String,
    at: Timestamp,
) -> (r: (OrgActivity, OrgActivity))
    ensures
        final(new_owner)@ == (crate::organizations::member::OrganizationMemberView {
            role: OrgRole::Owner,
            updated_at: at,
            ..old(new_owner)@
        }),
        final(current_owner)@ == (crate::organizations::member::OrganizationMemberView {
            role: OrgRole::Admin,
            updated_at: at,
            ..old(current_owner)@
        }),
        r.0@.id == promotion_id@,
        r.0@.organization_id == old(new_owner)@.organization_id,
        r.0@.activity_type == ActivityType::MemberRoleChanged,
        r.0@.actor_id == old(current_owner)@.user_id,
        r.0@.target_id == Some(old(new_owner)@.user_id),
        r.0@.metadata == Some(
            seq![("old_role"@, role_text(old(new_owner)@.role)), ("new_role"@, "owner"@)],
        ),
        r.1@.id == demotion_id@,
        r.1@.organization_id == old(current_owner)@.organization_id,
        r.1@.activity_type == ActivityType::MemberRoleChanged,
        r.1@.actor_id == old(current_owner)@.user_id,
        r.1@.target_id == Some(old(current_owner)@.user_id),
        r.1@.metadata == Some(seq![("old_role"@, "owner"@), ("new_role"@, "admin"@)]),
        distinct_metadata_keys(r.0@.metadata),
        distinct_metadata_keys(r.1@.metadata),
{
    proof {
        lemma_metadata_keys_differ();
    }
    let previous = *new_owner.role();
    new_owner.update_role_at(OrgRole::Owner, at);
    current_owner.update_role_at(OrgRole::Admin, at);
    let promotion_meta = pair_metadata("old_role", previous.as_str(), "new_role", OrgRole::Owner.as_str());
    let promotion = log_entry(
        promotion_id,
        new_owner.organization_id(),
        ActivityType::MemberRoleChanged,
        current_owner.user_id().as_str(),
        Some(new_owner.user_id().as_str()),
        Some(promotion_meta),
        at,
    );
    let demotion_meta = pair_metadata("old_role", OrgRole::Owner.as_str(), "new_role", OrgRole::Admin.as_str());
    let demotion = log_entry(
        demotion_id,
        current_owner.organization_id(),
        ActivityType::MemberRoleChanged,
        current_owner.user_id().as_str(),
        Some(current_owner.user_id().as_str()),
        Some(demotion_meta),
        at,
    );
    (promotion, demotion)
}

/// The answer to a switch or a transfer: the new tokens, and the
/// organization as the member now sees it.
pub fn switch_response(
    access_token: String,
    refresh_token: String,
    expires_in: i64,
    org: &Organization,
    role: OrgRole,
) -> (r: SwitchOrgResponse)
    ensures
        r.access_token == access_token,
        r.refresh_token == refresh_token,
        r.expires_in == expires_in,
        describes_org(r.organization, *org, role),
{
    SwitchOrgResponse { access_token, refresh_token, expires_in, organization: org_response(org, role) }
}

/// The default organization from the most recently accessed membership:
/// taken when its organization still exists and is not deleted.
pub fn default_from_last_accessed(member: &OrganizationMember, org: Option<Organization>) -> (r: Option<(OrgId, OrgRole)>)
    ensures
        match org {
            Some(o) => if o@.deleted_at is None {
                r matches Some(p) && p.0@ == o@.id && p.1 == member@.role
            } else {
                r is None
            },
            None => r is None,
        },
{
    match org {
        Some(o) => {
            if o.is_deleted() {
                None
            } else {
                Some((OrgId::new(o.id().as_str().to_string()), *member.role()))
            }
        },
        None => None,
    }
}

/// The default organization from the personal organization's membership.
pub fn default_from_personal(member: &OrganizationMember) -> (r: (OrgId, OrgRole))
    ensures
        r.0@ == member@.organization_id,
        r.1 == member@.role,
{
    (OrgId::new(member.organization_id().as_str().to_string()), *member.role())
}

/// A copy of activity metadata.
fn copy_metadata(m: &ActivityMetadata) -> (r: ActivityMetadata)
    ensures
        metadata_view(Some(r)) == metadata_view(Some(*m)),
{
    let mut out: ActivityMetadata = Vec::new();
    let n = m.len();
    for i in 0..n
        invariant
            n == m@.len(),
            out@.len() == i,
            forall|k: int| 0 <= k < i ==> (#[trigger] out@[k]).0@ == m@[k].0@ && out@[k].1@ == m@[k].1@,
    {
        out.push((m[i].0.clone(), m[i].1.clone()));
    }
    assert(metadata_view(Some(out)).unwrap() =~= metadata_view(Some(*m)).unwrap());
    out
}

/// How an activity is listed: the actor and target shown by display name or
/// e-mail address, an unknown actor as "Unknown".
pub fn activity_response(
    activity: &OrgActivity,
    actor: Option<UserSummary>,
    target: Option<UserSummary>,
) -> (r: ActivityResponse)
    ensures
        r.id@ == activity@.id,
        r.activity_type@ == crate::organizations::activity::activity_text(activity@.activity_type),
        r.actor_email@ == (match actor {
            Some(u) => user_label(u),
            None => "Unknown"@,
        }),
        r.target_email matches Some(t) ==> target matches Some(u) && t@ == user_label(u),
        r.target_email is None ==> target is None,
        metadata_view(r.metadata) == activity@.metadata,
        r.created_at == activity@.created_at,
{
    let actor_email = match &actor {
        Some(u) => u.label(),
        None => "Unknown".to_string(),
    };
    let target_email = match &target {
        Some(u) => Some(u.label()),
        None => None,
    };
    let metadata = match activity.metadata() {
        Some(m) => Some(copy_metadata(m)),
        None => None,
    };
    ActivityResponse {
        id: activity.id().as_str().to_string(),
        activity_type: activity.activity_type().as_str().to_string(),
        actor_email,
        target_email,
        metadata,
        created_at: activity.created_at(),
    }
}

} // verus!
