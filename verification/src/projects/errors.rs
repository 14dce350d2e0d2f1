//! Errors of the projects domain.

use vstd::prelude::*;

verus! {

/// Every way a project use case can fail.
#[derive(Debug, Clone, PartialEq)]
pub enum ProjectDomainError {
    // Validation errors
    InvalidProjectName(String),
    InvalidRetentionDays(String),
    InvalidApiKeyName(String),
    // Project errors
    ProjectNotFound,
    ProjectAlreadyExists,
    ProjectAlreadyDeleted,
    // API Key errors
    ApiKeyNotFound,
    ApiKeyRevoked,
    ApiKeyExpired,
    ApiKeyInvalid,
    // Permission errors
    InsufficientPermissions,
    NotOrgMember,
    // Infrastructure errors
    InternalError(String),
}

/// The human-readable text of an error.
pub open spec fn project_error_message(e: ProjectDomainError) -> Seq<char> {
    match e {
        ProjectDomainError::InvalidProjectName(m) => "Invalid project name: "@ + m@,
        ProjectDomainError::InvalidRetentionDays(m) => "Invalid retention days: "@ + m@,
        ProjectDomainError::InvalidApiKeyName(m) => "Invalid API key name: "@ + m@,
        ProjectDomainError::ProjectNotFound => "Project not found"@,
        ProjectDomainError::ProjectAlreadyExists => "Project already exists in this organization"@,
        ProjectDomainError::ProjectAlreadyDeleted => "Project is already deleted"@,
        ProjectDomainError::ApiKeyNotFound => "API key not found"@,
        ProjectDomainError::ApiKeyRevoked => "API key has been revoked"@,
        ProjectDomainError::ApiKeyExpired => "API key has expired"@,
        ProjectDomainError::ApiKeyInvalid => "API key is invalid"@,
        ProjectDomainError::InsufficientPermissions => "Insufficient permissions for this action"@,
        ProjectDomainError::NotOrgMember => "User is not a member of this organization"@,
        ProjectDomainError::InternalError(m) => "Internal error: "@ + m@,
    }
}

impl ProjectDomainError {
    /// The human-readable text of the error (what `Display` shows).
    pub fn message(&self) -> (r: String)
        ensures
            r@ == project_error_message(*self),
    {
        match self {
            ProjectDomainError::InvalidProjectName(m) => "Invalid project name: ".to_string().concat(m.as_str()),
            ProjectDomainError::InvalidRetentionDays(m) => "Invalid retention days: ".to_string().concat(m.as_str()),
            ProjectDomainError::InvalidApiKeyName(m) => "Invalid API key name: ".to_string().concat(m.as_str()),
            ProjectDomainError::ProjectNotFound => "Project not found".to_string(),
            ProjectDomainError::ProjectAlreadyExists => "Project already exists in this organization".to_string(),
            ProjectDomainError::ProjectAlreadyDeleted => "Project is already deleted".to_string(),
            ProjectDomainError::ApiKeyNotFound => "API key not found".to_string(),
            ProjectDomainError::ApiKeyRevoked => "API key has been revoked".to_string(),
            ProjectDomainError::ApiKeyExpired => "API key has expired".to_string(),
            ProjectDomainError::ApiKeyInvalid => "API key is invalid".to_string(),
            ProjectDomainError::InsufficientPermissions => "Insufficient permissions for this action".to_string(),
            ProjectDomainError::NotOrgMember => "User is not a member of this organization".to_string(),
            ProjectDomainError::InternalError(m) => "Internal error: ".to_string().concat(m.as_str()),
        }
    }
}

} // verus!
