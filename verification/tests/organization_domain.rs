use backend::organizations::activity::{ActivityId, ActivityType, OrgActivity};
use backend::organizations::errors::OrgDomainError;
use backend::organizations::invite::{InviteId, InviteStatus};
use backend::organizations::member::OrganizationMember;
use backend::organizations::organization::{MemberId, OrgId, OrgName, OrgRole, OrgSlug, Organization};
use backend::users::UserId;

fn create_test_org() -> Organization {
    let id = OrgId::new("org-123".to_string());
    let name = OrgName::new("Test Org".to_string()).unwrap();
    let slug = OrgSlug::generate(&name, "abcd");
    Organization::new(id, name, slug)
}

fn create_test_member() -> OrganizationMember {
    OrganizationMember::new(
        MemberId::new("member-123".to_string()),
        OrgId::new("org-456".to_string()),
        UserId::new("user-789".to_string()),
        OrgRole::Member,
    )
}

#[test]
fn test_valid_org_name() {
    assert!(OrgName::new("My Organization".to_string()).is_ok());
    assert!(OrgName::new("  Trimmed  ".to_string()).is_ok());
    assert!(OrgName::new("A".to_string()).is_ok());
}

#[test]
fn test_invalid_org_name() {
    assert!(OrgName::new("".to_string()).is_err());
    assert!(OrgName::new("   ".to_string()).is_err());
    assert!(OrgName::new("A".repeat(101)).is_err());
}

#[test]
fn org_name_is_trimmed_and_errors_are_exact() {
    assert_eq!(OrgName::new("  Trimmed  ".to_string()).unwrap().as_str(), "Trimmed");
    assert!(OrgName::new("A".repeat(100)).is_ok());
    match OrgName::new("   ".to_string()) {
        Err(OrgDomainError::InvalidOrgName(m)) => assert_eq!(m, "name cannot be empty"),
        _ => panic!("expected an invalid name"),
    }
    match OrgName::new("A".repeat(101)) {
        Err(OrgDomainError::InvalidOrgName(m)) => assert_eq!(m, "name cannot exceed 100 characters"),
        _ => panic!("expected an invalid name"),
    }
    // The limit counts characters, not bytes.
    assert!(OrgName::new("é".repeat(100)).is_ok());
    assert!(OrgName::new("é".repeat(101)).is_err());
}

#[test]
fn test_slug_generation() {
    let name = OrgName::new("My Cool Org".to_string()).unwrap();
    let slug = OrgSlug::generate(&name, "x7k2");
    assert_eq!(slug.as_str(), "my-cool-org-x7k2");
}

#[test]
fn test_slug_generation_with_special_chars() {
    let name = OrgName::new("Test & Company!".to_string()).unwrap();
    let slug = OrgSlug::generate(&name, "abc1");
    assert_eq!(slug.as_str(), "test-company-abc1");
}

#[test]
fn generated_ascii_slug_is_accepted_back() {
    let name = OrgName::new("--Hello,  World 42!--".to_string()).unwrap();
    let slug = OrgSlug::generate(&name, "zz99");
    assert_eq!(slug.as_str(), "hello-world-42-zz99");
    assert!(OrgSlug::from_string(slug.as_str().to_string()).is_ok());
}

#[test]
fn non_ascii_letters_are_left_out_of_slugs() {
    let name = OrgName::new("Café Über".to_string()).unwrap();
    let slug = OrgSlug::generate(&name, "ab12");
    assert_eq!(slug.as_str(), "caf-ber-ab12");
    assert!(OrgSlug::from_string(slug.as_str().to_string()).is_ok());
    let name = OrgName::new("日本".to_string()).unwrap();
    let slug = OrgSlug::generate(&name, "ab12");
    assert_eq!(slug.as_str(), "-ab12");
    assert!(OrgSlug::from_string(slug.as_str().to_string()).is_ok());
}

#[test]
fn slug_from_string_errors() {
    match OrgSlug::from_string(String::new()) {
        Err(OrgDomainError::InvalidOrgSlug(m)) => assert_eq!(m, "slug cannot be empty"),
        _ => panic!("expected an invalid slug"),
    }
    match OrgSlug::from_string("Has Caps".to_string()) {
        Err(OrgDomainError::InvalidOrgSlug(m)) => {
            assert_eq!(m, "slug must contain only lowercase letters, numbers, and hyphens")
        }
        _ => panic!("expected an invalid slug"),
    }
    assert_eq!(OrgSlug::from_string("a-b-1".to_string()).unwrap().as_str(), "a-b-1");
}

#[test]
fn test_org_role_from_str() {
    assert_eq!(OrgRole::from_str("owner").unwrap(), OrgRole::Owner);
    assert_eq!(OrgRole::from_str("ADMIN").unwrap(), OrgRole::Admin);
    assert_eq!(OrgRole::from_str("Member").unwrap(), OrgRole::Member);
    assert!(OrgRole::from_str("invalid").is_err());
}

#[test]
fn role_error_names_the_input_and_roles_read_back() {
    match OrgRole::from_str("boss") {
        Err(e) => assert_eq!(e.message(), "Invalid role: unknown role: boss"),
        Ok(_) => panic!("expected an invalid role"),
    }
    for role in [OrgRole::Owner, OrgRole::Admin, OrgRole::Member] {
        assert_eq!(OrgRole::from_str(role.as_str()).unwrap(), role);
    }
}

#[test]
fn test_org_role_permissions() {
    assert!(OrgRole::Owner.can_manage_members());
    assert!(OrgRole::Owner.can_manage_admins());
    assert!(OrgRole::Owner.can_delete_org());

    assert!(OrgRole::Admin.can_manage_members());
    assert!(!OrgRole::Admin.can_manage_admins());
    assert!(!OrgRole::Admin.can_delete_org());

    assert!(!OrgRole::Member.can_manage_members());
    assert!(!OrgRole::Member.can_manage_admins());
    assert!(!OrgRole::Member.can_delete_org());
}

#[test]
fn permissions_nest_for_every_role() {
    for role in [OrgRole::Owner, OrgRole::Admin, OrgRole::Member] {
        if role.can_manage_admins() {
            assert!(role.can_manage_members());
        }
        assert_eq!(role.can_delete_org(), role.can_manage_admins());
        assert_eq!(role.can_update_org(), role.can_manage_members());
    }
}

#[test]
fn test_activity_type_from_str() {
    assert_eq!(ActivityType::from_str("org_created").unwrap(), ActivityType::OrgCreated);
    assert_eq!(ActivityType::from_str("member_added").unwrap(), ActivityType::MemberAdded);
    assert_eq!(ActivityType::from_str("member_removed").unwrap(), ActivityType::MemberRemoved);
    assert_eq!(
        ActivityType::from_str("member_role_changed").unwrap(),
        ActivityType::MemberRoleChanged
    );
    assert_eq!(ActivityType::from_str("org_name_changed").unwrap(), ActivityType::OrgNameChanged);
    assert!(ActivityType::from_str("invalid").is_err());
}

#[test]
fn test_activity_type_as_str() {
    assert_eq!(ActivityType::OrgCreated.as_str(), "org_created");
    assert_eq!(ActivityType::MemberAdded.as_str(), "member_added");
    assert_eq!(ActivityType::MemberRemoved.as_str(), "member_removed");
    assert_eq!(ActivityType::MemberRoleChanged.as_str(), "member_role_changed");
    assert_eq!(ActivityType::OrgNameChanged.as_str(), "org_name_changed");
}

#[test]
fn every_activity_type_and_status_reads_back() {
    for t in [
        ActivityType::OrgCreated,
        ActivityType::MemberAdded,
        ActivityType::MemberRemoved,
        ActivityType::MemberRoleChanged,
        ActivityType::OrgNameChanged,
        ActivityType::InviteSent,
        ActivityType::InviteAccepted,
        ActivityType::InviteDeclined,
    ] {
        assert_eq!(ActivityType::from_str(t.as_str()).unwrap(), t);
    }
    for s in [InviteStatus::Pending, InviteStatus::Accepted, InviteStatus::Declined, InviteStatus::Expired] {
        assert_eq!(InviteStatus::from_str(s.as_str()).unwrap(), s);
    }
    match ActivityType::from_str("Org_Created") {
        Err(OrgDomainError::InvalidActivityType(m)) => assert_eq!(m, "Org_Created"),
        _ => panic!("activity names are case sensitive"),
    }
    match InviteStatus::from_str("done") {
        Err(OrgDomainError::InvalidInviteStatus(m)) => assert_eq!(m, "done"),
        _ => panic!("expected an invalid status"),
    }
}

#[test]
fn test_new_activity() {
    let activity = OrgActivity::new(
        ActivityId::new("activity-123".to_string()),
        OrgId::new("org-456".to_string()),
        ActivityType::MemberAdded,
        UserId::new("actor-789".to_string()),
        Some(UserId::new("target-012".to_string())),
        None,
    );
    assert_eq!(activity.id().as_str(), "activity-123");
    assert_eq!(activity.organization_id().as_str(), "org-456");
    assert_eq!(activity.activity_type(), ActivityType::MemberAdded);
    assert_eq!(activity.actor_id().as_str(), "actor-789");
    assert_eq!(activity.target_id().map(|t| t.as_str()), Some("target-012"));
    assert!(activity.metadata().is_none());
}

#[test]
fn test_activity_with_metadata() {
    let metadata = vec![
        ("old_role".to_string(), "member".to_string()),
        ("new_role".to_string(), "admin".to_string()),
    ];
    let activity = OrgActivity::new(
        ActivityId::new("activity-123".to_string()),
        OrgId::new("org-456".to_string()),
        ActivityType::MemberRoleChanged,
        UserId::new("actor-789".to_string()),
        Some(UserId::new("target-012".to_string())),
        Some(metadata),
    );
    let meta = activity.metadata().unwrap();
    let get = |k: &str| meta.iter().find(|(key, _)| key == k).map(|(_, v)| v.clone());
    assert_eq!(get("old_role"), Some("member".to_string()));
    assert_eq!(get("new_role"), Some("admin".to_string()));
}

#[test]
fn test_new_member() {
    let member = create_test_member();
    assert_eq!(member.role(), &OrgRole::Member);
    assert!(member.last_accessed_at().is_none());
}

#[test]
fn test_update_role() {
    let mut member = create_test_member();
    member.update_role(OrgRole::Admin);
    assert_eq!(member.role(), &OrgRole::Admin);
}

#[test]
fn test_touch_last_accessed() {
    let mut member = create_test_member();
    assert!(member.last_accessed_at().is_none());
    member.touch_last_accessed();
    assert!(member.last_accessed_at().is_some());
}

#[test]
fn test_new_organization() {
    let org = create_test_org();
    assert!(!org.is_personal());
    assert!(!org.is_deleted());
    assert_eq!(org.name().as_str(), "Test Org");
}

#[test]
fn test_new_personal_organization() {
    let id = OrgId::new("org-456".to_string());
    let name = OrgName::new("john".to_string()).unwrap();
    let slug = OrgSlug::generate(&name, "efgh");
    let org = Organization::new_personal(id, name, slug);
    assert!(org.is_personal());
    assert!(!org.is_deleted());
}

#[test]
fn entity_test_soft_delete() {
    let mut org = create_test_org();
    assert!(org.soft_delete().is_ok());
    assert!(org.is_deleted());
}

#[test]
fn test_cannot_delete_personal_org() {
    let id = OrgId::new("org-456".to_string());
    let name = OrgName::new("john".to_string()).unwrap();
    let slug = OrgSlug::generate(&name, "efgh");
    let mut org = Organization::new_personal(id, name, slug);
    assert!(matches!(org.soft_delete(), Err(OrgDomainError::CannotDeletePersonalOrg)));
}

#[test]
fn entity_test_cannot_delete_twice() {
    let mut org = create_test_org();
    org.soft_delete().unwrap();
    assert!(matches!(org.soft_delete(), Err(OrgDomainError::OrgAlreadyDeleted)));
}

#[test]
fn test_update_name() {
    let mut org = create_test_org();
    let old_updated_at = org.updated_at();
    let new_name = OrgName::new("Updated Org".to_string()).unwrap();
    let new_slug = OrgSlug::generate(&new_name, "wxyz");
    org.update_name(new_name, new_slug);
    assert_eq!(org.name().as_str(), "Updated Org");
    let now = org.updated_at();
    assert!((now.secs, now.nanos) >= (old_updated_at.secs, old_updated_at.nanos));
}

#[test]
fn ids_convert_from_and_to_strings() {
    let org: OrgId = "org-1".to_string().into();
    assert_eq!(org.as_str(), "org-1");
    let member: MemberId = "m-1".to_string().into();
    assert_eq!(member.as_str(), "m-1");
    let activity: ActivityId = "a-1".to_string().into();
    assert_eq!(activity.into_inner(), "a-1");
    let invite = InviteId::new("i-1".to_string());
    let text: String = invite.into();
    assert_eq!(text, "i-1");
}

#[test]
fn error_messages_match_their_display_text() {
    assert_eq!(OrgDomainError::OrgNotFound.message(), "Organization not found");
    assert_eq!(
        OrgDomainError::InvalidOrgName("x".to_string()).message(),
        "Invalid organization name: x"
    );
    assert_eq!(OrgDomainError::InternalError("db".to_string()).message(), "Internal error: db");
}

#[test]
fn validated_names_validate_again_unchanged() {
    for raw in ["  Acme  ", "x", "\tTabbed name\n", "Ünïcode  "] {
        let once = OrgName::new(raw.to_string()).unwrap();
        let twice = OrgName::new(once.as_str().to_string()).unwrap();
        assert_eq!(once.as_str(), twice.as_str());
    }
}
