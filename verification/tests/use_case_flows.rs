use backend::organizations::errors::OrgDomainError;
use backend::organizations::flows::{
    add_member_next, cancel_invite_next, decline_invite_next, CancelInviteFacts, CancelInviteNext,
    DeclineInviteFacts, DeclineInviteNext, delete_org_next, leave_next, removal_next, AddMemberFacts, AddMemberNext,
    DeleteOrgFacts, DeleteOrgNext, LeaveFacts, LeaveNext, RemovalFacts, RemovalNext,
    accept_invite_next, role_change_next, send_invite_next, switch_next, transfer_next,
    update_org_next, AcceptInviteFacts, AcceptInviteNext, RoleChangeFacts, RoleChangeNext,
    SendInviteFacts, SendInviteNext, SwitchFacts, SwitchNext, TransferFacts, TransferNext,
    UpdateOrgFacts, UpdateOrgNext,
};
use backend::organizations::invite::{InviteId, OrganizationInvite};
use backend::organizations::member::OrganizationMember;
use backend::organizations::organization::{MemberId, OrgId, OrgName, OrgRole, OrgSlug, Organization};
use backend::organizations::service::apply_transfer;
use backend::projects::flows::{
    create_project_next, project_access_next, update_project_next, CreateProjectFacts,
    CreateProjectNext, MembershipFacts, ProjectAccessFacts, ProjectAccessNext, UpdateProjectFacts,
    UpdateProjectNext,
};
use backend::projects::errors::ProjectDomainError;
use backend::projects::keys::api_key_from_bytes;
use backend::projects::project::{
    MetricsRetentionDays, Project, ProjectId, ProjectName, RetentionDays, TracesRetentionDays,
};
use backend::time::Timestamp;
use backend::users::{UserId, UserSummary};

fn at(secs: i64) -> Timestamp {
    Timestamp { secs, nanos: 0 }
}

fn org() -> Organization {
    let name = OrgName::new("Acme".to_string()).unwrap();
    let slug = OrgSlug::generate(&name, "abcd");
    Organization::new_at(OrgId::new("org-1".to_string()), name, slug, at(5))
}

fn deleted_org() -> Organization {
    let mut o = org();
    o.soft_delete_at(at(6)).unwrap();
    o
}

fn member(user: &str, role: OrgRole) -> OrganizationMember {
    OrganizationMember::new_at(
        MemberId::new(format!("m-{}", user)),
        OrgId::new("org-1".to_string()),
        UserId::new(user.to_string()),
        role,
        at(1),
    )
}

fn user(id: &str, email: &str, allow: bool) -> UserSummary {
    UserSummary { id: id.to_string(), email: email.to_string(), display_name: None, allow_invites: allow }
}

#[test]
fn transfer_reads_requester_then_new_owner() {
    let mut f = TransferFacts { requester: None, new_owner: None };
    assert!(matches!(transfer_next(&f), TransferNext::FindRequester));
    f.requester = Some(Some(member("u-1", OrgRole::Admin)));
    assert!(matches!(transfer_next(&f), TransferNext::Refuse(OrgDomainError::InsufficientPermissions)));
    f.requester = Some(None);
    assert!(matches!(transfer_next(&f), TransferNext::Refuse(OrgDomainError::NotOrgMember)));
    f.requester = Some(Some(member("u-1", OrgRole::Owner)));
    assert!(matches!(transfer_next(&f), TransferNext::FindNewOwner));
    f.new_owner = Some(None);
    assert!(matches!(transfer_next(&f), TransferNext::Refuse(OrgDomainError::NotOrgMember)));
    f.new_owner = Some(Some(member("u-2", OrgRole::Member)));
    assert!(matches!(transfer_next(&f), TransferNext::Transfer));
    let (Some(Some(mut a)), Some(Some(mut b))) = (f.requester, f.new_owner) else { panic!() };
    let (promotion, _) = apply_transfer(&mut a, &mut b, "a-1".to_string(), "a-2".to_string(), at(9));
    assert_eq!((*a.role(), *b.role()), (OrgRole::Admin, OrgRole::Owner));
    let meta = promotion.metadata().unwrap();
    assert_ne!(meta[0].0, meta[1].0);
}

#[test]
fn role_change_counts_owners_only_when_demoting_one() {
    let mut f = RoleChangeFacts { requester: None, target: None, owner_count: None };
    assert!(matches!(role_change_next(&f, "admin"), RoleChangeNext::FindRequester));
    f.requester = Some(Some(member("u-1", OrgRole::Admin)));
    assert!(matches!(role_change_next(&f, "admin"), RoleChangeNext::Refuse(OrgDomainError::InsufficientPermissions)));
    f.requester = Some(Some(member("u-1", OrgRole::Owner)));
    assert!(matches!(role_change_next(&f, "admin"), RoleChangeNext::FindTarget));
    f.target = Some(Some(member("u-2", OrgRole::Member)));
    match role_change_next(&f, "boss") {
        RoleChangeNext::Refuse(OrgDomainError::InvalidRole(m)) => assert_eq!(m, "unknown role: boss"),
        other => panic!("{:?}", other),
    }
    match role_change_next(&f, "Admin") {
        RoleChangeNext::Apply(c) => assert!(c.new_role == OrgRole::Admin && !c.demotes_owner),
        other => panic!("{:?}", other),
    }
    f.target = Some(Some(member("u-2", OrgRole::Owner)));
    assert!(matches!(role_change_next(&f, "member"), RoleChangeNext::CountOwners));
    f.owner_count = Some(1);
    assert!(matches!(role_change_next(&f, "member"), RoleChangeNext::Refuse(OrgDomainError::CannotDemoteLastOwner)));
    f.owner_count = Some(2);
    assert!(matches!(role_change_next(&f, "member"), RoleChangeNext::Apply(_)));
}

#[test]
fn update_and_switch_check_the_org_first() {
    let mut f = UpdateOrgFacts { org: None, requester: None };
    assert!(matches!(update_org_next(&f, Some("New")), UpdateOrgNext::FindOrg));
    f.org = Some(Some(deleted_org()));
    assert!(matches!(update_org_next(&f, Some("New")), UpdateOrgNext::Refuse(OrgDomainError::OrgNotFound)));
    f.org = Some(Some(org()));
    assert!(matches!(update_org_next(&f, Some("New")), UpdateOrgNext::FindRequester));
    f.requester = Some(Some(member("u-1", OrgRole::Member)));
    assert!(matches!(update_org_next(&f, Some("New")), UpdateOrgNext::Refuse(OrgDomainError::InsufficientPermissions)));
    f.requester = Some(Some(member("u-1", OrgRole::Admin)));
    match update_org_next(&f, Some("   ")) {
        UpdateOrgNext::Refuse(OrgDomainError::InvalidOrgName(m)) => assert_eq!(m, "name cannot be empty"),
        other => panic!("{:?}", other),
    }
    assert!(matches!(update_org_next(&f, Some("New")), UpdateOrgNext::Rename));
    assert!(matches!(update_org_next(&f, None), UpdateOrgNext::Unchanged));

    let mut s = SwitchFacts { org: None, membership: None };
    assert!(matches!(switch_next(&s), SwitchNext::FindOrg));
    s.org = Some(None);
    assert!(matches!(switch_next(&s), SwitchNext::Refuse(OrgDomainError::OrgNotFound)));
    s.org = Some(Some(org()));
    assert!(matches!(switch_next(&s), SwitchNext::FindMembership));
    s.membership = Some(None);
    assert!(matches!(switch_next(&s), SwitchNext::Refuse(OrgDomainError::NotOrgMember)));
    s.membership = Some(Some(member("u-1", OrgRole::Member)));
    assert!(matches!(switch_next(&s), SwitchNext::Switch));
}

#[test]
fn sending_an_invite_checks_in_order() {
    let mut f = SendInviteFacts {
        org: None,
        requester: None,
        invitee_email: None,
        inviter: None,
        invitee: None,
        invitee_is_member: None,
        pending_invite: None,
    };
    assert!(matches!(send_invite_next(&f, "member"), SendInviteNext::FindOrg));
    f.org = Some(Some(org()));
    assert!(matches!(send_invite_next(&f, "member"), SendInviteNext::FindRequester));
    f.requester = Some(Some(member("u-1", OrgRole::Admin)));
    assert!(matches!(send_invite_next(&f, "owner"), SendInviteNext::Refuse(OrgDomainError::InsufficientPermissions)));
    assert!(matches!(send_invite_next(&f, "member"), SendInviteNext::ParseInviteeEmail));
    f.invitee_email = Some(None);
    match send_invite_next(&f, "member") {
        SendInviteNext::Refuse(OrgDomainError::InternalError(m)) => assert_eq!(m, "Invalid email"),
        other => panic!("{:?}", other),
    }
    f.invitee_email = Some(Some("new@x.io".to_string()));
    assert!(matches!(send_invite_next(&f, "member"), SendInviteNext::FindInviter));
    f.inviter = Some(Some(user("u-1", "new@x.io", true)));
    assert!(matches!(send_invite_next(&f, "member"), SendInviteNext::Refuse(OrgDomainError::CannotInviteSelf)));
    f.inviter = Some(Some(user("u-1", "boss@x.io", true)));
    assert!(matches!(send_invite_next(&f, "member"), SendInviteNext::FindInvitee));
    f.invitee = Some(Some(user("u-2", "new@x.io", false)));
    assert!(matches!(send_invite_next(&f, "member"), SendInviteNext::Refuse(OrgDomainError::UserDoesNotAllowInvites)));
    f.invitee = Some(Some(user("u-2", "new@x.io", true)));
    assert!(matches!(send_invite_next(&f, "member"), SendInviteNext::FindInviteeMembership));
    f.invitee_is_member = Some(true);
    assert!(matches!(send_invite_next(&f, "member"), SendInviteNext::Refuse(OrgDomainError::AlreadyMember)));
    f.invitee_is_member = Some(false);
    assert!(matches!(send_invite_next(&f, "member"), SendInviteNext::FindPendingInvite));
    f.pending_invite = Some(true);
    assert!(matches!(send_invite_next(&f, "member"), SendInviteNext::Refuse(OrgDomainError::InviteAlreadyExists)));
    f.pending_invite = Some(false);
    assert!(matches!(send_invite_next(&f, "Admin"), SendInviteNext::Send(OrgRole::Admin)));
    // An unregistered invitee needs no membership lookup.
    f.invitee = Some(None);
    f.invitee_is_member = None;
    assert!(matches!(send_invite_next(&f, "member"), SendInviteNext::Send(OrgRole::Member)));
}

#[test]
fn accepting_an_invite_checks_in_order() {
    let invite = OrganizationInvite::new_at(
        InviteId::new("i-1".to_string()),
        "org-1".to_string(),
        "u-1".to_string(),
        "new@x.io".to_string(),
        None,
        OrgRole::Member,
        at(1000),
        at(10),
    );
    let mut f = AcceptInviteFacts { invite: None, user: None, at: None, already_member: None };
    assert!(matches!(accept_invite_next(&f), AcceptInviteNext::FindInvite));
    f.invite = Some(None);
    assert!(matches!(accept_invite_next(&f), AcceptInviteNext::Refuse(OrgDomainError::InviteNotFound)));
    f.invite = Some(Some(invite));
    assert!(matches!(accept_invite_next(&f), AcceptInviteNext::FindUser));
    f.user = Some(Some(user("u-9", "other@x.io", true)));
    assert!(matches!(accept_invite_next(&f), AcceptInviteNext::Refuse(OrgDomainError::InsufficientPermissions)));
    f.user = Some(Some(user("u-9", "new@x.io", true)));
    assert!(matches!(accept_invite_next(&f), AcceptInviteNext::ReadClock));
    f.at = Some(at(1001));
    assert!(matches!(accept_invite_next(&f), AcceptInviteNext::Expire));
    f.at = Some(at(1000));
    assert!(matches!(accept_invite_next(&f), AcceptInviteNext::FindMembership));
    f.already_member = Some(true);
    assert!(matches!(accept_invite_next(&f), AcceptInviteNext::AcceptExisting));
    f.already_member = Some(false);
    assert!(matches!(accept_invite_next(&f), AcceptInviteNext::Accept));
}

fn project(deleted: bool) -> Project {
    Project::reconstruct(
        ProjectId::new("p-1".to_string()),
        OrgId::new("org-1".to_string()),
        ProjectName::new("Web".to_string()).unwrap(),
        None,
        RetentionDays::default_value(),
        MetricsRetentionDays::default_value(),
        TracesRetentionDays::default_value(),
        at(1),
        at(1),
        if deleted { Some(at(2)) } else { None },
    )
}

#[test]
fn project_use_cases_check_in_order() {
    let mut c = CreateProjectFacts { membership: MembershipFacts { org: None, membership: None }, name_taken: None };
    assert!(matches!(create_project_next(&c, "Web"), CreateProjectNext::FindOrg));
    c.membership.org = Some(Some(deleted_org()));
    assert!(matches!(create_project_next(&c, "Web"), CreateProjectNext::Refuse(ProjectDomainError::NotOrgMember)));
    c.membership.org = Some(Some(org()));
    assert!(matches!(create_project_next(&c, "Web"), CreateProjectNext::FindMembership));
    c.membership.membership = Some(Some(member("u-1", OrgRole::Member)));
    assert!(matches!(create_project_next(&c, "Web"), CreateProjectNext::Refuse(ProjectDomainError::InsufficientPermissions)));
    c.membership.membership = Some(Some(member("u-1", OrgRole::Admin)));
    assert!(matches!(create_project_next(&c, " "), CreateProjectNext::Refuse(ProjectDomainError::InvalidProjectName(_))));
    assert!(matches!(create_project_next(&c, "Web"), CreateProjectNext::FindNameTaken));
    c.name_taken = Some(true);
    assert!(matches!(create_project_next(&c, "Web"), CreateProjectNext::Plan));

    let mut a = ProjectAccessFacts { project: None, membership: MembershipFacts { org: None, membership: None } };
    assert!(matches!(project_access_next(&a, false), ProjectAccessNext::FindProject));
    a.project = Some(Some(project(true)));
    assert!(matches!(project_access_next(&a, false), ProjectAccessNext::Refuse(ProjectDomainError::ProjectNotFound)));
    a.project = Some(Some(project(false)));
    assert!(matches!(project_access_next(&a, false), ProjectAccessNext::FindOrg));
    a.membership.org = Some(Some(org()));
    assert!(matches!(project_access_next(&a, false), ProjectAccessNext::FindMembership));
    a.membership.membership = Some(Some(member("u-1", OrgRole::Member)));
    assert!(matches!(project_access_next(&a, false), ProjectAccessNext::Granted(OrgRole::Member)));
    assert!(matches!(project_access_next(&a, true), ProjectAccessNext::Refuse(ProjectDomainError::InsufficientPermissions)));

    let mut u = UpdateProjectFacts { access: a, name_taken: None };
    u.access.membership.membership = Some(Some(member("u-1", OrgRole::Owner)));
    assert!(matches!(update_project_next(&u, None), UpdateProjectNext::Plan));
    assert!(matches!(update_project_next(&u, Some("x".repeat(101).as_str())), UpdateProjectNext::Refuse(ProjectDomainError::InvalidProjectName(_))));
    assert!(matches!(update_project_next(&u, Some("Api")), UpdateProjectNext::FindNameTaken));
    u.name_taken = Some(false);
    assert!(matches!(update_project_next(&u, Some("Api")), UpdateProjectNext::Plan));
}

#[test]
fn api_keys_encode_their_bytes_in_url_safe_base64() {
    assert_eq!(api_key_from_bytes(&vec![0xfb, 0xff, 0x00, 0x61]), "alt_pk_-_8AYQ");
    assert_eq!(api_key_from_bytes(&vec![]), "alt_pk_");
    assert_eq!(api_key_from_bytes(&b"f".to_vec()), "alt_pk_Zg");
    assert_eq!(api_key_from_bytes(&b"fo".to_vec()), "alt_pk_Zm8");
    assert_eq!(api_key_from_bytes(&b"foo".to_vec()), "alt_pk_Zm9v");
    let bytes: Vec<u8> = (0u8..32).collect();
    assert_eq!(api_key_from_bytes(&bytes), "alt_pk_AAECAwQFBgcICQoLDA0ODxAREhMUFRYXGBkaGxwdHh8");
}

#[test]
fn adding_a_member_checks_in_order() {
    let mut f = AddMemberFacts { org: None, requester: None, email: None, user: None, already_member: None };
    assert!(matches!(add_member_next(&f, "member"), AddMemberNext::FindOrg));
    f.org = Some(Some(deleted_org()));
    assert!(matches!(add_member_next(&f, "member"), AddMemberNext::Refuse(OrgDomainError::OrgNotFound)));
    f.org = Some(Some(org()));
    assert!(matches!(add_member_next(&f, "member"), AddMemberNext::FindRequester));
    f.requester = Some(Some(member("u-1", OrgRole::Admin)));
    assert!(matches!(add_member_next(&f, "admin"), AddMemberNext::Refuse(OrgDomainError::InsufficientPermissions)));
    assert!(matches!(add_member_next(&f, "nobody"), AddMemberNext::Refuse(OrgDomainError::InvalidRole(_))));
    assert!(matches!(add_member_next(&f, "member"), AddMemberNext::ParseEmail));
    f.email = Some(None);
    assert!(matches!(add_member_next(&f, "member"), AddMemberNext::Refuse(OrgDomainError::UserNotFound)));
    f.email = Some(Some("new@x.io".to_string()));
    assert!(matches!(add_member_next(&f, "member"), AddMemberNext::FindUser));
    f.user = Some(Some(user("u-2", "new@x.io", true)));
    assert!(matches!(add_member_next(&f, "member"), AddMemberNext::FindMembership));
    f.already_member = Some(true);
    assert!(matches!(add_member_next(&f, "member"), AddMemberNext::Refuse(OrgDomainError::AlreadyMember)));
    f.already_member = Some(false);
    assert!(matches!(add_member_next(&f, "member"), AddMemberNext::Add(OrgRole::Member)));
    // An admin may add an owner, as the original does.
    assert!(matches!(add_member_next(&f, "owner"), AddMemberNext::Add(OrgRole::Owner)));
}

#[test]
fn removing_leaving_and_deleting_check_in_order() {
    let mut r = RemovalFacts { requester: None, target: None, owner_count: None };
    assert!(matches!(removal_next(&r), RemovalNext::FindRequester));
    r.requester = Some(Some(member("u-1", OrgRole::Admin)));
    assert!(matches!(removal_next(&r), RemovalNext::FindTarget));
    r.target = Some(Some(member("u-2", OrgRole::Admin)));
    assert!(matches!(removal_next(&r), RemovalNext::Refuse(OrgDomainError::InsufficientPermissions)));
    r.requester = Some(Some(member("u-1", OrgRole::Owner)));
    r.target = Some(Some(member("u-2", OrgRole::Owner)));
    assert!(matches!(removal_next(&r), RemovalNext::CountOwners));
    r.owner_count = Some(1);
    assert!(matches!(removal_next(&r), RemovalNext::Refuse(OrgDomainError::CannotRemoveLastOwner)));
    r.owner_count = Some(3);
    assert!(matches!(removal_next(&r), RemovalNext::Remove));

    let mut l = LeaveFacts { membership: None, owner_count: None };
    assert!(matches!(leave_next(&l), LeaveNext::FindMembership));
    l.membership = Some(Some(member("u-1", OrgRole::Member)));
    assert!(matches!(leave_next(&l), LeaveNext::Leave));
    l.membership = Some(Some(member("u-1", OrgRole::Owner)));
    assert!(matches!(leave_next(&l), LeaveNext::CountOwners));
    l.owner_count = Some(1);
    assert!(matches!(leave_next(&l), LeaveNext::Refuse(OrgDomainError::CannotLeaveAsLastOwner)));

    let mut d = DeleteOrgFacts { org: None, requester: None };
    assert!(matches!(delete_org_next(&d), DeleteOrgNext::FindOrg));
    d.org = Some(Some(org()));
    assert!(matches!(delete_org_next(&d), DeleteOrgNext::FindRequester));
    d.requester = Some(Some(member("u-1", OrgRole::Admin)));
    assert!(matches!(delete_org_next(&d), DeleteOrgNext::Refuse(OrgDomainError::InsufficientPermissions)));
    d.requester = Some(Some(member("u-1", OrgRole::Owner)));
    assert!(matches!(delete_org_next(&d), DeleteOrgNext::Delete));
}

#[test]
fn declining_and_cancelling_invites_check_in_order() {
    let invite = || {
        OrganizationInvite::new_at(
            InviteId::new("i-1".to_string()),
            "org-1".to_string(),
            "u-1".to_string(),
            "new@x.io".to_string(),
            Some("u-9".to_string()),
            OrgRole::Member,
            at(1000),
            at(10),
        )
    };
    let mut d = DeclineInviteFacts { invite: None, user: None };
    assert!(matches!(decline_invite_next(&d), DeclineInviteNext::FindInvite));
    d.invite = Some(Some(invite()));
    assert!(matches!(decline_invite_next(&d), DeclineInviteNext::FindUser));
    d.user = Some(None);
    assert!(matches!(decline_invite_next(&d), DeclineInviteNext::Refuse(OrgDomainError::UserNotFound)));
    d.user = Some(Some(user("u-9", "elsewhere@x.io", true)));
    assert!(matches!(decline_invite_next(&d), DeclineInviteNext::Decline));

    let mut c = CancelInviteFacts { invite: None, requester: None };
    assert!(matches!(cancel_invite_next(&c, "org-1"), CancelInviteNext::FindInvite));
    c.invite = Some(Some(invite()));
    assert!(matches!(cancel_invite_next(&c, "org-2"), CancelInviteNext::Refuse(OrgDomainError::InviteNotFound)));
    assert!(matches!(cancel_invite_next(&c, "org-1"), CancelInviteNext::FindRequester));
    c.requester = Some(Some(member("u-1", OrgRole::Member)));
    assert!(matches!(cancel_invite_next(&c, "org-1"), CancelInviteNext::Refuse(OrgDomainError::InsufficientPermissions)));
    c.requester = Some(Some(member("u-1", OrgRole::Admin)));
    assert!(matches!(cancel_invite_next(&c, "org-1"), CancelInviteNext::Cancel));
}
