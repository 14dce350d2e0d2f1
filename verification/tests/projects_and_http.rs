use backend::organizations::errors::OrgDomainError;
use backend::organizations::http::{
    client_ip, default_limit, generate_device_fingerprint, subnet_text, to_error_response, IpAddress,
};
use backend::organizations::invite_http;
use backend::organizations::dto::InviteCountResponse;
use backend::organizations::invite_http::InviteCountResponseDto;
use backend::organizations::member::OrganizationMember;
use backend::organizations::organization::{MemberId, OrgId, OrgName, OrgRole, OrgSlug, Organization};
use backend::projects::api_key::{ApiKey, ApiKeyId, ApiKeyName, ApiKeyPrefix};
use backend::projects::dto::{CreateApiKeyCommand, CreateProjectCommand, UpdateProjectCommand};
use backend::projects::errors::ProjectDomainError;
use backend::projects::http as project_http;
use backend::projects::keys::hash_api_key;
use backend::projects::project::{
    MetricsRetentionDays, ProjectId, ProjectName, RetentionDays, TracesRetentionDays,
};
use backend::projects::service::{
    api_key_list, check_api_key, expiry_in_range, key_project, plan_create_api_key,
    plan_create_api_key_checked, plan_create_project,
    plan_delete_project, plan_revoke_api_key, plan_update_project, project_list,
    verify_org_membership,
};
use backend::retention::{metrics_cutoff, traces_cutoff};
use backend::time::Timestamp;
use backend::users::UserId;

fn at(secs: i64) -> Timestamp {
    Timestamp { secs, nanos: 0 }
}

fn project_cmd(name: &str, retention: Option<i32>) -> CreateProjectCommand {
    CreateProjectCommand {
        org_id: "org-1".to_string(),
        name: name.to_string(),
        description: Some("desc".to_string()),
        retention_days: retention,
        requesting_user_id: "u-1".to_string(),
    }
}

fn key(project: &str, expires: Option<Timestamp>, revoked: Option<Timestamp>) -> ApiKey {
    ApiKey::reconstruct(
        ApiKeyId::new("k-1".to_string()),
        ProjectId::new(project.to_string()),
        ApiKeyName::new("ci".to_string()).unwrap(),
        ApiKeyPrefix::from_string("alt_pk_abcdefgh".to_string()),
        "hash".to_string(),
        at(0),
        expires,
        revoked,
    )
}

#[test]
fn membership_decides_project_access() {
    let name = OrgName::new("Acme".to_string()).unwrap();
    let slug = OrgSlug::generate(&name, "abcd");
    let org = Organization::new_at(OrgId::new("org-1".to_string()), name, slug, at(1));
    let admin = OrganizationMember::new_at(
        MemberId::new("m".to_string()),
        OrgId::new("org-1".to_string()),
        UserId::new("u".to_string()),
        OrgRole::Admin,
        at(1),
    );
    let plain = OrganizationMember::new_at(
        MemberId::new("m".to_string()),
        OrgId::new("org-1".to_string()),
        UserId::new("u".to_string()),
        OrgRole::Member,
        at(1),
    );
    assert_eq!(verify_org_membership(Some(&org), Some(&admin), true).unwrap(), OrgRole::Admin);
    assert_eq!(verify_org_membership(Some(&org), Some(&plain), false).unwrap(), OrgRole::Member);
    assert!(matches!(
        verify_org_membership(Some(&org), Some(&plain), true),
        Err(ProjectDomainError::InsufficientPermissions)
    ));
    assert!(matches!(verify_org_membership(Some(&org), None, false), Err(ProjectDomainError::NotOrgMember)));
    assert!(matches!(verify_org_membership(None, Some(&admin), false), Err(ProjectDomainError::NotOrgMember)));
    let mut gone = org.clone();
    gone.soft_delete_at(at(2)).unwrap();
    assert!(matches!(verify_org_membership(Some(&gone), Some(&admin), false), Err(ProjectDomainError::NotOrgMember)));
}

#[test]
fn creating_projects() {
    let (p, resp) = plan_create_project(project_cmd(" Web ", None), false, "p-1".to_string(), at(9)).unwrap();
    assert_eq!(p.name().as_str(), "Web");
    assert_eq!(p.retention_days().value(), 30);
    assert_eq!(p.metrics_retention_days().value(), 90);
    assert_eq!(p.traces_retention_days().value(), 14);
    assert_eq!(resp.retention_days, 30);
    assert_eq!(resp.description.as_deref(), Some("desc"));
    assert_eq!(resp.org_id, "org-1");
    assert!(matches!(
        plan_create_project(project_cmd("Web", None), true, "p".to_string(), at(9)),
        Err(ProjectDomainError::ProjectAlreadyExists)
    ));
    assert!(matches!(
        plan_create_project(project_cmd("Web", Some(400)), false, "p".to_string(), at(9)),
        Err(ProjectDomainError::InvalidRetentionDays(_))
    ));
    assert!(matches!(
        plan_create_project(project_cmd("", Some(400)), true, "p".to_string(), at(9)),
        Err(ProjectDomainError::InvalidProjectName(_))
    ));
    let (p7, _) = plan_create_project(project_cmd("Api", Some(7)), false, "p".to_string(), at(9)).unwrap();
    assert_eq!(p7.retention_days().value(), 7);
}

#[test]
fn updating_and_deleting_projects() {
    let (p, _) = plan_create_project(project_cmd("Web", None), false, "p-1".to_string(), at(9)).unwrap();
    let cmd = UpdateProjectCommand {
        project_id: "p-1".to_string(),
        name: Some("Site".to_string()),
        description: Some(None),
        retention_days: Some(60),
        requesting_user_id: "u".to_string(),
    };
    let (q, resp) = plan_update_project(p.clone(), cmd, false, at(20)).unwrap();
    assert_eq!(q.name().as_str(), "Site");
    assert!(q.description().is_none());
    assert_eq!(resp.retention_days, 60);
    assert_eq!(resp.updated_at, at(20));
    let taken = UpdateProjectCommand {
        project_id: "p-1".to_string(),
        name: Some("Other".to_string()),
        description: None,
        retention_days: None,
        requesting_user_id: "u".to_string(),
    };
    assert!(matches!(plan_update_project(p.clone(), taken, true, at(20)), Err(ProjectDomainError::ProjectAlreadyExists)));
    let deleted = plan_delete_project(p, at(30)).unwrap();
    assert_eq!(deleted.deleted_at(), Some(at(30)));
    assert!(matches!(plan_delete_project(deleted.clone(), at(31)), Err(ProjectDomainError::ProjectAlreadyDeleted)));
    assert!(project_list(&vec![deleted, q]).len() == 1);
}

#[test]
fn creating_api_keys() {
    let (p, _) = plan_create_project(project_cmd("Web", None), false, "p-1".to_string(), at(9)).unwrap();
    let cmd = CreateApiKeyCommand {
        project_id: "p-1".to_string(),
        name: " CI key ".to_string(),
        expires_in_days: Some(30),
        requesting_user_id: "u".to_string(),
    };
    let (k, resp) = plan_create_api_key(&p, cmd, "k-1".to_string(), at(1000)).unwrap();
    assert!(resp.plain_key.starts_with("alt_pk_"));
    assert_eq!(k.key_hash(), hash_api_key(&resp.plain_key));
    assert_eq!(k.key_prefix().as_str(), &resp.plain_key[..15]);
    assert_eq!(resp.expires_at, Some(at(1000 + 30 * 86400)));
    assert_eq!(resp.name, "CI key");
    assert!(!k.is_revoked());
    let bad = CreateApiKeyCommand {
        project_id: "p-1".to_string(),
        name: "".to_string(),
        expires_in_days: None,
        requesting_user_id: "u".to_string(),
    };
    assert!(matches!(plan_create_api_key(&p, bad, "k".to_string(), at(1)), Err(ProjectDomainError::InvalidApiKeyName(_))));
}

#[test]
fn listing_revoking_and_validating_keys() {
    let list = api_key_list(&vec![key("p-1", None, None), key("p-1", Some(at(5)), None)], at(10));
    assert!(list[0].is_active);
    assert!(!list[1].is_active);
    assert!(matches!(plan_revoke_api_key(None, "p-1", at(1)), Err(ProjectDomainError::ApiKeyNotFound)));
    assert!(matches!(plan_revoke_api_key(Some(key("p-2", None, None)), "p-1", at(1)), Err(ProjectDomainError::ApiKeyNotFound)));
    let revoked = plan_revoke_api_key(Some(key("p-1", None, None)), "p-1", at(1)).unwrap();
    assert_eq!(revoked.revoked_at(), Some(at(1)));
    let again = plan_revoke_api_key(Some(revoked), "p-1", at(2)).unwrap();
    assert_eq!(again.revoked_at(), Some(at(1)));

    assert!(matches!(check_api_key(None, at(1)), Err(ProjectDomainError::ApiKeyInvalid)));
    assert!(matches!(check_api_key(Some(again), at(1)), Err(ProjectDomainError::ApiKeyRevoked)));
    assert!(matches!(check_api_key(Some(key("p", Some(at(5)), None)), at(6)), Err(ProjectDomainError::ApiKeyExpired)));
    assert!(check_api_key(Some(key("p", Some(at(5)), None)), at(5)).is_ok());
    assert!(matches!(key_project(None), Err(ProjectDomainError::ProjectNotFound)));
    let (p, _) = plan_create_project(project_cmd("Web", None), false, "p-1".to_string(), at(9)).unwrap();
    let (id, _) = key_project(Some(p)).unwrap();
    assert_eq!(id.as_str(), "p-1");
}

#[test]
fn retention_cutoffs_count_back_from_now() {
    let (p, _) = plan_create_project(project_cmd("Web", None), false, "p-1".to_string(), at(9)).unwrap();
    let now = Timestamp { secs: 100 * 86400, nanos: 7 };
    assert_eq!(metrics_cutoff(&p, now), Timestamp { secs: 10 * 86400, nanos: 7 });
    assert_eq!(traces_cutoff(&p, now), Timestamp { secs: 86 * 86400, nanos: 7 });
}

#[test]
fn organization_error_answers() {
    let (status, body) = to_error_response(OrgDomainError::InvalidOrgName("x".to_string()));
    assert_eq!((status, body.code.as_str(), body.error.as_str()), (400, "VALIDATION_ERROR", "Invalid organization name: x"));
    let (status, body) = to_error_response(OrgDomainError::UserNotFound);
    assert_eq!((status, body.code.as_str()), (404, "USER_NOT_FOUND"));
    let (status, body) = to_error_response(OrgDomainError::AlreadyMember);
    assert_eq!((status, body.code.as_str()), (409, "ALREADY_MEMBER"));
    let (status, body) = to_error_response(OrgDomainError::CannotRemoveLastOwner);
    assert_eq!((status, body.code.as_str()), (422, "UNPROCESSABLE"));
    let (status, body) = to_error_response(OrgDomainError::InviteExpired);
    assert_eq!((status, body.code.as_str()), (410, "GONE"));
    let (status, body) = to_error_response(OrgDomainError::InternalError("db down".to_string()));
    assert_eq!(status, 500);
    assert_eq!(body.error, "An internal error occurred. Please try again later.");
    let (status, body) = to_error_response(OrgDomainError::NotOrgMember);
    assert_eq!((status, body.code.as_str()), (403, "FORBIDDEN"));
}

#[test]
fn invite_error_answers() {
    let (status, body) = invite_http::to_error_response(OrgDomainError::CannotInviteSelf);
    assert_eq!((status, body.code.as_str(), body.error.as_str()), (400, "INVALID_INPUT", "Cannot invite yourself"));
    let (status, body) = invite_http::to_error_response(OrgDomainError::InviteAlreadyProcessed);
    assert_eq!((status, body.code.as_str()), (409, "INVITE_ALREADY_PROCESSED"));
    let (status, body) = invite_http::to_error_response(OrgDomainError::InviteExpired);
    assert_eq!((status, body.code.as_str()), (410, "INVITE_EXPIRED"));
    let (status, body) = invite_http::to_error_response(OrgDomainError::SlugTaken);
    assert_eq!((status, body.code.as_str()), (500, "INTERNAL_ERROR"));
    let (status, body) = invite_http::to_error_response(OrgDomainError::InternalError("db".to_string()));
    assert_eq!((status, body.error.as_str()), (500, "Internal error: db"));
    let dto: InviteCountResponseDto = InviteCountResponse { count: 3 }.into();
    assert_eq!(dto.count, 3);
}

#[test]
fn project_error_answers() {
    let (status, body) = project_http::to_error_response(ProjectDomainError::InvalidProjectName("bad".to_string()));
    assert_eq!((status, body.code.as_str(), body.error.as_str()), (400, "VALIDATION_ERROR", "Invalid project name: bad"));
    let (status, body) = project_http::to_error_response(ProjectDomainError::ProjectAlreadyExists);
    assert_eq!((status, body.error.as_str()), (409, "Project with this name already exists"));
    let (status, body) = project_http::to_error_response(ProjectDomainError::ApiKeyInvalid);
    assert_eq!((status, body.code.as_str()), (401, "API_KEY_INVALID"));
    let (status, body) = project_http::to_error_response(ProjectDomainError::ProjectAlreadyDeleted);
    assert_eq!((status, body.code.as_str()), (410, "PROJECT_DELETED"));
    let (status, body) = project_http::to_error_response(ProjectDomainError::InternalError("x".to_string()));
    assert_eq!((status, body.error.as_str()), (500, "An internal error occurred"));
}

#[test]
fn device_fingerprint_pieces() {
    assert_eq!(default_limit(), 20);
    assert_eq!(client_ip(Some(" 10.1.2.3 , 172.16.0.1")), "10.1.2.3");
    assert_eq!(client_ip(Some("no-comma")), "no-comma");
    assert_eq!(client_ip(None), "unknown");
    assert_eq!(subnet_text("10.1.2.3", Some(IpAddress::V4([10, 1, 2, 3]))), "10.1.2.0/24");
    assert_eq!(
        subnet_text("2001:db8:a0b::1", Some(IpAddress::V6([0x2001, 0xdb8, 0xa0b, 0, 0, 0, 0, 1]))),
        "2001:db8:a0b::/48"
    );
    assert_eq!(subnet_text("garbage", None), "garbage");
    let fp = generate_device_fingerprint(Some("curl/8"), Some("10.1.2.3"), Some(IpAddress::V4([10, 1, 2, 3])));
    assert_eq!(fp, hash_api_key("curl/810.1.2.0/24"));
    let unknown = generate_device_fingerprint(None, None, None);
    assert_eq!(unknown, hash_api_key("unknownunknown"));
    assert_eq!(fp.len(), 64);
}

#[test]
fn project_names_are_validated_like_org_names() {
    assert_eq!(ProjectName::new(" x ".to_string()).unwrap().as_str(), "x");
}

#[test]
fn expiries_out_of_range_are_caught_before_planning() {
    assert!(expiry_in_range(at(0), 30));
    assert!(!expiry_in_range(at(0), 106_751_991_168));
    assert!(!expiry_in_range(at(8_210_266_876_799), 1));
    assert!(expiry_in_range(at(8_210_266_876_799 - 86_400), 1));
    assert!(!expiry_in_range(at(-8_334_601_228_800), -1));
    let (p, _) = plan_create_project(project_cmd("Web", None), false, "p-1".to_string(), at(9)).unwrap();
    let far = CreateApiKeyCommand {
        project_id: "p-1".to_string(),
        name: "CI".to_string(),
        expires_in_days: Some(i64::MAX),
        requesting_user_id: "u".to_string(),
    };
    assert!(plan_create_api_key_checked(&p, far, "k".to_string(), at(1)).is_none());
    let near = CreateApiKeyCommand {
        project_id: "p-1".to_string(),
        name: "CI".to_string(),
        expires_in_days: Some(1),
        requesting_user_id: "u".to_string(),
    };
    let (k, _) = plan_create_api_key_checked(&p, near, "k".to_string(), at(1)).unwrap().unwrap();
    assert_eq!(k.expires_at(), Some(at(1 + 86_400)));
}

#[test]
fn retention_defaults_are_the_default_values() {
    assert!(RetentionDays::default() == RetentionDays::default_value());
    assert!(MetricsRetentionDays::default() == MetricsRetentionDays::default_value());
    assert!(TracesRetentionDays::default() == TracesRetentionDays::default_value());
    assert_eq!(RetentionDays::default().value(), 30);
    assert_eq!(MetricsRetentionDays::default_value().value(), 90);
    assert_eq!(TracesRetentionDays::default_value().value(), 14);
}
