use backend::organizations::organization::OrgId;
use backend::projects::api_key::{ApiKey, ApiKeyId, ApiKeyName, ApiKeyPrefix};
use backend::projects::errors::ProjectDomainError;
use backend::projects::keys::{generate_api_key, hash_api_key};
use backend::projects::project::{
    MetricsRetentionDays, Project, ProjectId, ProjectName, RetentionDays, TracesRetentionDays,
};
use backend::time::Timestamp;

fn stamp(t: chrono::DateTime<chrono::Utc>) -> Timestamp {
    Timestamp { secs: t.timestamp(), nanos: t.timestamp_subsec_nanos() }
}

fn create_test_api_key() -> ApiKey {
    let id = ApiKeyId::new("key-123".to_string());
    let project_id = ProjectId::new("proj-456".to_string());
    let name = ApiKeyName::new("Production Key".to_string()).unwrap();
    let prefix = ApiKeyPrefix::from_key("alt_pk_abcdefgh12345678");
    let hash = "sha256_hash_here".to_string();
    ApiKey::new(id, project_id, name, prefix, hash, None)
}

fn create_test_project() -> Project {
    let id = ProjectId::new("proj-123".to_string());
    let org_id = OrgId::new("org-456".to_string());
    let name = ProjectName::new("Test Project".to_string()).unwrap();
    Project::new(
        id,
        org_id,
        name,
        None,
        RetentionDays::default(),
        MetricsRetentionDays::default(),
        TracesRetentionDays::default(),
    )
}

#[test]
fn test_valid_api_key_name() {
    assert!(ApiKeyName::new("Production Key".to_string()).is_ok());
    assert!(ApiKeyName::new("  Trimmed  ".to_string()).is_ok());
    assert!(ApiKeyName::new("A".to_string()).is_ok());
}

#[test]
fn test_invalid_api_key_name() {
    assert!(ApiKeyName::new("".to_string()).is_err());
    assert!(ApiKeyName::new("   ".to_string()).is_err());
    assert!(ApiKeyName::new("A".repeat(101)).is_err());
}

#[test]
fn test_api_key_prefix_from_key() {
    let full_key = "alt_pk_abcdefghijklmnop1234567890";
    let prefix = ApiKeyPrefix::from_key(full_key);
    assert_eq!(prefix.as_str(), "alt_pk_abcdefgh");
}

#[test]
fn test_api_key_prefix_short_key() {
    let full_key = "alt_pk_abc";
    let prefix = ApiKeyPrefix::from_key(full_key);
    assert_eq!(prefix.as_str(), "alt_pk_abc");
}

#[test]
fn prefix_of_a_key_without_the_marker() {
    let prefix = ApiKeyPrefix::from_key("xyz0123456789");
    assert_eq!(prefix.as_str(), "alt_pk_xyz01234");
    assert_eq!(ApiKeyPrefix::from_key("").as_str(), "alt_pk_");
}

#[test]
fn test_new_api_key() {
    let key = create_test_api_key();
    assert!(!key.is_expired());
    assert!(!key.is_revoked());
    assert!(key.is_valid());
    assert_eq!(key.name().as_str(), "Production Key");
}

#[test]
fn test_api_key_with_expiry() {
    let id = ApiKeyId::new("key-123".to_string());
    let project_id = ProjectId::new("proj-456".to_string());
    let name = ApiKeyName::new("Temp Key".to_string()).unwrap();
    let prefix = ApiKeyPrefix::from_key("alt_pk_abcdefgh12345678");
    let hash = "sha256_hash_here".to_string();
    let expires_at = stamp(chrono::Utc::now() + chrono::Duration::days(30));
    let key = ApiKey::new(id, project_id, name, prefix, hash, Some(expires_at));
    assert!(!key.is_expired());
    assert!(key.is_valid());
}

#[test]
fn test_expired_api_key() {
    let id = ApiKeyId::new("key-123".to_string());
    let project_id = ProjectId::new("proj-456".to_string());
    let name = ApiKeyName::new("Expired Key".to_string()).unwrap();
    let prefix = ApiKeyPrefix::from_key("alt_pk_abcdefgh12345678");
    let hash = "sha256_hash_here".to_string();
    let expires_at = stamp(chrono::Utc::now() - chrono::Duration::days(1));
    let key = ApiKey::new(id, project_id, name, prefix, hash, Some(expires_at));
    assert!(key.is_expired());
    assert!(!key.is_valid());
}

#[test]
fn test_revoke_api_key() {
    let mut key = create_test_api_key();
    assert!(!key.is_revoked());
    key.revoke();
    assert!(key.is_revoked());
    assert!(!key.is_valid());
}

#[test]
fn test_revoke_is_idempotent() {
    let mut key = create_test_api_key();
    key.revoke();
    let first_revoked_at = key.revoked_at();
    key.revoke();
    assert_eq!(key.revoked_at(), first_revoked_at);
}

#[test]
fn key_validity_at_given_times() {
    let expiry = Timestamp { secs: 1_000, nanos: 500 };
    let mut key = ApiKey::reconstruct(
        ApiKeyId::new("k".to_string()),
        ProjectId::new("p".to_string()),
        ApiKeyName::new("n".to_string()).unwrap(),
        ApiKeyPrefix::from_string("alt_pk_x".to_string()),
        "h".to_string(),
        Timestamp { secs: 0, nanos: 0 },
        Some(expiry),
        None,
    );
    assert!(!key.is_expired_at(expiry));
    assert!(key.is_valid_at(Timestamp { secs: 1_000, nanos: 500 }));
    assert!(key.is_expired_at(Timestamp { secs: 1_000, nanos: 501 }));
    assert!(!key.is_valid_at(Timestamp { secs: 1_001, nanos: 0 }));
    key.revoke_at(Timestamp { secs: 10, nanos: 0 });
    key.revoke_at(Timestamp { secs: 20, nanos: 0 });
    assert_eq!(key.revoked_at(), Some(Timestamp { secs: 10, nanos: 0 }));
    assert!(!key.is_valid_at(Timestamp { secs: 11, nanos: 0 }));
}

#[test]
fn generated_keys_have_marker_and_prefix() {
    let key = generate_api_key();
    assert!(key.starts_with("alt_pk_"));
    assert_eq!(key.len(), "alt_pk_".len() + 43);
    assert!(key["alt_pk_".len()..].chars().all(|c| c.is_ascii_alphanumeric() || c == '-' || c == '_'));
    let prefix = ApiKeyPrefix::from_key(&key);
    assert_eq!(prefix.as_str(), &key[..15]);
    assert_ne!(generate_api_key(), key);
}

#[test]
fn hash_is_lowercase_hex_sha256() {
    assert_eq!(
        hash_api_key("abc"),
        "ba7816bf8f01cfea414140de5dae2223b00361a396177a9cb410ff61f20015ad"
    );
    assert_eq!(
        hash_api_key(""),
        "e3b0c44298fc1c149afbf4c8996fb92427ae41e4649b934ca495991b7852b855"
    );
}

#[test]
fn test_valid_project_name() {
    assert!(ProjectName::new("My Project".to_string()).is_ok());
    assert!(ProjectName::new("  Trimmed  ".to_string()).is_ok());
    assert!(ProjectName::new("A".to_string()).is_ok());
}

#[test]
fn test_invalid_project_name() {
    assert!(ProjectName::new("".to_string()).is_err());
    assert!(ProjectName::new("   ".to_string()).is_err());
    assert!(ProjectName::new("A".repeat(101)).is_err());
}

#[test]
fn test_valid_retention_days() {
    assert!(RetentionDays::new(1).is_ok());
    assert!(RetentionDays::new(30).is_ok());
    assert!(RetentionDays::new(365).is_ok());
}

#[test]
fn test_invalid_retention_days() {
    assert!(RetentionDays::new(0).is_err());
    assert!(RetentionDays::new(-1).is_err());
    assert!(RetentionDays::new(366).is_err());
}

#[test]
fn test_retention_days_default() {
    assert_eq!(RetentionDays::default().value(), 30);
}

#[test]
fn retention_bounds_of_each_kind() {
    assert_eq!(MetricsRetentionDays::default().value(), 90);
    assert_eq!(TracesRetentionDays::default().value(), 14);
    assert!(MetricsRetentionDays::new(365).is_ok());
    assert!(MetricsRetentionDays::new(366).is_err());
    assert!(TracesRetentionDays::new(90).is_ok());
    assert!(TracesRetentionDays::new(91).is_err());
    match TracesRetentionDays::new(0) {
        Err(e) => assert_eq!(e.message(), "Invalid retention days: traces retention days must be between 1 and 90"),
        Ok(_) => panic!("expected an invalid retention"),
    }
    match RetentionDays::new(0) {
        Err(ProjectDomainError::InvalidRetentionDays(m)) => {
            assert_eq!(m, "retention days must be between 1 and 365")
        }
        _ => panic!("expected an invalid retention"),
    }
}

#[test]
fn test_new_project() {
    let project = create_test_project();
    assert!(!project.is_deleted());
    assert_eq!(project.name().as_str(), "Test Project");
    assert_eq!(project.retention_days().value(), 30);
    assert_eq!(project.metrics_retention_days().value(), 90);
    assert_eq!(project.traces_retention_days().value(), 14);
    assert!(project.description().is_none());
}

#[test]
fn test_new_project_with_description() {
    let id = ProjectId::new("proj-123".to_string());
    let org_id = OrgId::new("org-456".to_string());
    let name = ProjectName::new("Test Project".to_string()).unwrap();
    let project = Project::new(
        id,
        org_id,
        name,
        Some("A test project".to_string()),
        RetentionDays::new(90).unwrap(),
        MetricsRetentionDays::new(60).unwrap(),
        TracesRetentionDays::new(7).unwrap(),
    );
    assert_eq!(project.description(), Some("A test project"));
    assert_eq!(project.retention_days().value(), 90);
    assert_eq!(project.metrics_retention_days().value(), 60);
    assert_eq!(project.traces_retention_days().value(), 7);
}

#[test]
fn project_entity_test_soft_delete() {
    let mut project = create_test_project();
    assert!(project.soft_delete().is_ok());
    assert!(project.is_deleted());
}

#[test]
fn project_entity_test_cannot_delete_twice() {
    let mut project = create_test_project();
    project.soft_delete().unwrap();
    assert!(matches!(project.soft_delete(), Err(ProjectDomainError::ProjectAlreadyDeleted)));
}

#[test]
fn test_update() {
    let mut project = create_test_project();
    let old_updated_at = project.updated_at();
    let new_name = ProjectName::new("Updated Project".to_string()).unwrap();
    project.update(
        Some(new_name),
        Some(Some("New description".to_string())),
        Some(RetentionDays::new(60).unwrap()),
        Some(MetricsRetentionDays::new(120).unwrap()),
        Some(TracesRetentionDays::new(30).unwrap()),
    );
    assert_eq!(project.name().as_str(), "Updated Project");
    assert_eq!(project.description(), Some("New description"));
    assert_eq!(project.retention_days().value(), 60);
    assert_eq!(project.metrics_retention_days().value(), 120);
    assert_eq!(project.traces_retention_days().value(), 30);
    let now = project.updated_at();
    assert!((now.secs, now.nanos) >= (old_updated_at.secs, old_updated_at.nanos));
}

#[test]
fn ids_convert_from_strings() {
    let p: ProjectId = "p-1".to_string().into();
    assert_eq!(p.as_str(), "p-1");
    let k: ApiKeyId = "k-1".to_string().into();
    assert_eq!(k.into_inner(), "k-1");
}
