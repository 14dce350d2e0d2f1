use backend::organizations::activity::ActivityType;
use backend::organizations::dto::{CreateOrgCommand, CreatePersonalOrgCommand, SendInviteCommand};
use backend::organizations::errors::OrgDomainError;
use backend::organizations::invitations::{
    authorize_invite_management, check_not_self, expire_if_due, invite_role, plan_accept,
    plan_decline, plan_invite, screen_invite_answer, INVITE_VALID_DAYS,
};
use backend::organizations::invite::{InviteId, InviteStatus, OrganizationInvite};
use backend::organizations::member::OrganizationMember;
use backend::organizations::organization::{MemberId, OrgId, OrgName, OrgRole, OrgSlug, Organization};
use backend::organizations::service::{
    apply_role_change, apply_transfer, authorize_removal, generate_random_suffix, guard_last_owner,
    new_member_role, personal_org_name, plan_create_org, plan_create_personal_org, plan_role_change,
    user_org_list,
};
use backend::time::Timestamp;
use backend::users::{UserId, UserSummary};

fn at(secs: i64) -> Timestamp {
    Timestamp { secs, nanos: 0 }
}

fn org(id: &str, name: &str, personal: bool) -> Organization {
    let name = OrgName::new(name.to_string()).unwrap();
    let slug = OrgSlug::generate(&name, "abcd");
    if personal {
        Organization::new_personal_at(OrgId::new(id.to_string()), name, slug, at(5))
    } else {
        Organization::new_at(OrgId::new(id.to_string()), name, slug, at(5))
    }
}

fn member(id: &str, user: &str, role: OrgRole) -> OrganizationMember {
    OrganizationMember::new_at(
        MemberId::new(id.to_string()),
        OrgId::new("org-1".to_string()),
        UserId::new(user.to_string()),
        role,
        at(1),
    )
}

fn user(id: &str, email: &str, allow: bool) -> UserSummary {
    UserSummary { id: id.to_string(), email: email.to_string(), display_name: None, allow_invites: allow }
}

#[test]
fn random_suffix_has_four_lowercase_letters_or_digits() {
    for _ in 0..20 {
        let s = generate_random_suffix();
        assert_eq!(s.chars().count(), 4);
        assert!(s.chars().all(|c| c.is_ascii_lowercase() || c.is_ascii_digit()));
    }
}

#[test]
fn creating_an_org_makes_the_creator_owner() {
    let cmd = CreateOrgCommand { name: "  Acme Inc ".to_string(), user_id: "u-1".to_string() };
    let created = plan_create_org(cmd, "org-9".to_string(), "m-9".to_string(), "a-9".to_string(), "k2k2", at(7))
        .unwrap();
    assert_eq!(created.org.name().as_str(), "Acme Inc");
    assert_eq!(created.org.slug().as_str(), "acme-inc-k2k2");
    assert_eq!(created.owner.role(), &OrgRole::Owner);
    assert_eq!(created.owner.last_accessed_at(), Some(at(7)));
    assert_eq!(created.activity.activity_type(), ActivityType::OrgCreated);
    assert_eq!(created.response.role, "owner");
    let bad = CreateOrgCommand { name: "   ".to_string(), user_id: "u-1".to_string() };
    assert!(matches!(
        plan_create_org(bad, "o".to_string(), "m".to_string(), "a".to_string(), "k2k2", at(7)),
        Err(OrgDomainError::InvalidOrgName(_))
    ));
}

#[test]
fn personal_org_is_named_after_the_mail_local_part() {
    assert_eq!(personal_org_name("john.doe@example.com"), "john.doe");
    assert_eq!(personal_org_name("no-at-sign"), "no-at-sign");
    assert_eq!(personal_org_name("@example.com"), "");
    let cmd = CreatePersonalOrgCommand { user_id: "u-1".to_string(), email: "jane@x.io".to_string() };
    let created = plan_create_personal_org(cmd, "o-1".to_string(), "m-1".to_string(), "zz11", at(3)).unwrap();
    assert!(created.org.is_personal());
    assert_eq!(created.org.slug().as_str(), "jane-zz11");
    let empty = CreatePersonalOrgCommand { user_id: "u-1".to_string(), email: "@x.io".to_string() };
    assert!(plan_create_personal_org(empty, "o".to_string(), "m".to_string(), "zz11", at(3)).is_err());
}

#[test]
fn user_org_list_skips_deleted_and_missing_orgs() {
    let mut deleted = org("org-2", "Gone", false);
    deleted.soft_delete_at(at(9)).unwrap();
    let entries = vec![
        (member("m-1", "u", OrgRole::Admin), Some(org("org-1", "Alive", false))),
        (member("m-2", "u", OrgRole::Owner), Some(deleted)),
        (member("m-3", "u", OrgRole::Member), None),
    ];
    let list = user_org_list(entries);
    assert_eq!(list.len(), 1);
    assert_eq!(list[0].name, "Alive");
    assert_eq!(list[0].role, "admin");
}

#[test]
fn who_may_add_members_with_which_role() {
    assert_eq!(new_member_role(OrgRole::Owner, "Admin").unwrap(), OrgRole::Admin);
    assert_eq!(new_member_role(OrgRole::Admin, "member").unwrap(), OrgRole::Member);
    assert!(matches!(new_member_role(OrgRole::Admin, "admin"), Err(OrgDomainError::InsufficientPermissions)));
    assert!(matches!(new_member_role(OrgRole::Member, "member"), Err(OrgDomainError::InsufficientPermissions)));
    assert!(matches!(new_member_role(OrgRole::Owner, "chief"), Err(OrgDomainError::InvalidRole(_))));
}

#[test]
fn last_owner_is_protected() {
    assert!(matches!(
        guard_last_owner(1, OrgDomainError::CannotDemoteLastOwner),
        Err(OrgDomainError::CannotDemoteLastOwner)
    ));
    assert!(matches!(
        guard_last_owner(0, OrgDomainError::CannotRemoveLastOwner),
        Err(OrgDomainError::CannotRemoveLastOwner)
    ));
    assert!(guard_last_owner(2, OrgDomainError::CannotLeaveAsLastOwner).is_ok());
    let change = plan_role_change(OrgRole::Owner, "member").unwrap();
    assert!(change.demotes_owner);
    assert!(!plan_role_change(OrgRole::Admin, "member").unwrap().demotes_owner);
    assert!(!plan_role_change(OrgRole::Owner, "OWNER").unwrap().demotes_owner);
}

#[test]
fn role_change_is_applied_and_logged() {
    let mut target = member("m-2", "u-2", OrgRole::Member);
    let change = plan_role_change(OrgRole::Member, "admin").unwrap();
    let activity = apply_role_change(&mut target, change, "u-1", "a-1".to_string(), at(50));
    assert_eq!(target.role(), &OrgRole::Admin);
    assert_eq!(target.updated_at(), at(50));
    assert_eq!(activity.activity_type(), ActivityType::MemberRoleChanged);
    let meta = activity.metadata().unwrap();
    assert_eq!(meta[0], ("old_role".to_string(), "member".to_string()));
    assert_eq!(meta[1], ("new_role".to_string(), "admin".to_string()));
}

#[test]
fn removal_permissions() {
    assert!(authorize_removal(OrgRole::Owner, OrgRole::Owner).is_ok());
    assert!(authorize_removal(OrgRole::Admin, OrgRole::Member).is_ok());
    assert!(authorize_removal(OrgRole::Admin, OrgRole::Admin).is_err());
    assert!(authorize_removal(OrgRole::Member, OrgRole::Member).is_err());
}

#[test]
fn transfer_swaps_roles_and_keeps_an_owner() {
    let mut owner = member("m-1", "u-1", OrgRole::Owner);
    let mut next = member("m-2", "u-2", OrgRole::Member);
    let (promotion, demotion) = apply_transfer(&mut owner, &mut next, "a-1".to_string(), "a-2".to_string(), at(8));
    assert_eq!(owner.role(), &OrgRole::Admin);
    assert_eq!(next.role(), &OrgRole::Owner);
    assert_eq!(promotion.metadata().unwrap()[0].1, "member");
    assert_eq!(demotion.metadata().unwrap()[1].1, "admin");
}

#[test]
fn invite_management_and_roles() {
    assert!(authorize_invite_management(OrgRole::Owner).is_ok());
    assert!(authorize_invite_management(OrgRole::Admin).is_ok());
    assert!(matches!(authorize_invite_management(OrgRole::Member), Err(OrgDomainError::InsufficientPermissions)));
    assert_eq!(invite_role("Member").unwrap(), OrgRole::Member);
    assert!(matches!(invite_role("owner"), Err(OrgDomainError::InsufficientPermissions)));
    assert!(matches!(invite_role("x"), Err(OrgDomainError::InvalidRole(_))));
    assert!(matches!(check_not_self("a@x.io", "a@x.io"), Err(OrgDomainError::CannotInviteSelf)));
    assert!(check_not_self("a@x.io", "b@x.io").is_ok());
}

#[test]
fn an_invite_expires_a_week_later_and_is_answered_once() {
    let o = org("org-1", "Acme", false);
    let inviter = user("u-1", "boss@x.io", true);
    let cmd = SendInviteCommand {
        org_id: "org-1".to_string(),
        invitee_email: "new@x.io".to_string(),
        role: "member".to_string(),
        inviter_user_id: "u-1".to_string(),
    };
    let sent = plan_invite(&cmd, &o, &inviter, "new@x.io", None, OrgRole::Member, "i-1".to_string(), "a-1".to_string(), at(100));
    assert_eq!(INVITE_VALID_DAYS, 7);
    assert_eq!(sent.invite.expires_at(), at(100 + 7 * 86400));
    assert_eq!(sent.invite.status(), InviteStatus::Pending);
    assert_eq!(sent.response.status, "pending");
    assert_eq!(sent.response.organization_name, "Acme");

    let invitee = user("u-9", "new@x.io", true);
    let stranger = user("u-8", "other@x.io", true);
    let mut invite = sent.invite;
    assert!(matches!(screen_invite_answer(&invite, &stranger), Err(OrgDomainError::InsufficientPermissions)));
    assert!(screen_invite_answer(&invite, &invitee).is_ok());
    let (joined, _) = plan_accept(&mut invite, &invitee, "m-9".to_string(), "a-2".to_string(), at(200));
    assert_eq!(joined.role(), &OrgRole::Member);
    assert_eq!(invite.status(), InviteStatus::Accepted);
    assert!(matches!(screen_invite_answer(&invite, &invitee), Err(OrgDomainError::InviteAlreadyProcessed)));
    let _ = plan_decline(&mut invite, &invitee, "a-3".to_string(), at(300));
    assert_eq!(invite.status(), InviteStatus::Declined);
}

#[test]
fn an_overdue_invite_is_marked_expired() {
    let mut invite = OrganizationInvite::new_at(
        InviteId::new("i-1".to_string()),
        "org-1".to_string(),
        "u-1".to_string(),
        "new@x.io".to_string(),
        None,
        OrgRole::Admin,
        at(1000),
        at(10),
    );
    assert!(expire_if_due(&mut invite, at(1000)).is_ok());
    assert_eq!(invite.status(), InviteStatus::Pending);
    assert!(matches!(expire_if_due(&mut invite, at(1001)), Err(OrgDomainError::InviteExpired)));
    assert_eq!(invite.status(), InviteStatus::Expired);
    assert_eq!(invite.updated_at(), at(1001));
}
