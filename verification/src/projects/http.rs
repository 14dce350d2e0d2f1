//! What the project endpoints read and answer: the request bodies and the
//! error answer of each domain error.

use vstd::prelude::*;
use crate::projects::errors::{project_error_message, ProjectDomainError};
use crate::status::{
    STATUS_BAD_REQUEST, STATUS_CONFLICT, STATUS_FORBIDDEN, STATUS_GONE,
    STATUS_INTERNAL_SERVER_ERROR, STATUS_NOT_FOUND, STATUS_UNAUTHORIZED,
};

verus! {

/// Body of a request to create a project.
#[derive(Debug)]
pub struct CreateProjectRequest {
    pub name: String,
    pub description: Option<String>,
    pub retention_days: Option<i32>,
}

/// Body of a request to update a project. A description of `Some(None)`
/// clears it.
#[derive(Debug)]
pub struct UpdateProjectRequest {
    pub name: Option<String>,
    pub description: Option<Option<String>>,
    pub retention_days: Option<i32>,
}

/// Body of a request to create an API key.
#[derive(Debug)]
pub struct CreateApiKeyRequest {
    pub name: String,
    pub expires_in_days: Option<i64>,
}

/// The body of every error answer.
#[derive(Debug)]
pub struct ErrorResponse {
    pub error: String,
    pub code: String,
}

/// The status, text and code a project error is answered with.
pub open spec fn project_error_answer(e: ProjectDomainError) -> (u16, Seq<char>, Seq<char>) {
    match e {
        ProjectDomainError::InvalidProjectName(_) | ProjectDomainError::InvalidRetentionDays(_)
        | ProjectDomainError::InvalidApiKeyName(_) => (
            STATUS_BAD_REQUEST,
            project_error_message(e),
            "VALIDATION_ERROR"@,
        ),
        ProjectDomainError::ProjectNotFound => (
            STATUS_NOT_FOUND,
            "Project not found"@,
            "PROJECT_NOT_FOUND"@,
        ),
        ProjectDomainError::ApiKeyNotFound => (
            STATUS_NOT_FOUND,
            "API key not found"@,
            "API_KEY_NOT_FOUND"@,
        ),
        ProjectDomainError::ProjectAlreadyExists => (
            STATUS_CONFLICT,
            "Project with this name already exists"@,
            "PROJECT_EXISTS"@,
        ),
        ProjectDomainError::NotOrgMember => (
            STATUS_FORBIDDEN,
            "Not a member of this organization"@,
            "NOT_ORG_MEMBER"@,
        ),
        ProjectDomainError::InsufficientPermissions => (
            STATUS_FORBIDDEN,
            "Insufficient permissions"@,
            "FORBIDDEN"@,
        ),
        ProjectDomainError::ApiKeyRevoked => (
            STATUS_UNAUTHORIZED,
            "API key has been revoked"@,
            "API_KEY_REVOKED"@,
        ),
        ProjectDomainError::ApiKeyExpired => (
            STATUS_UNAUTHORIZED,
            "API key has expired"@,
            "API_KEY_EXPIRED"@,
        ),
        ProjectDomainError::ApiKeyInvalid => (
            STATUS_UNAUTHORIZED,
            "Invalid API key"@,
            "API_KEY_INVALID"@,
        ),
        ProjectDomainError::ProjectAlreadyDeleted => (
            STATUS_GONE,
            "Project has been deleted"@,
            "PROJECT_DELETED"@,
        ),
        ProjectDomainError::InternalError(_) => (
            STATUS_INTERNAL_SERVER_ERROR,
            "An internal error occurred"@,
            "INTERNAL_ERROR"@,
        ),
    }
}

/// The answer to a project error: its status and body. The details of an
/// internal error stay on the server.
pub fn to_error_response(e: ProjectDomainError) -> (r: (u16, ErrorResponse))
    ensures
        r.0 == project_error_answer(e).0,
        r.1.error@ == project_error_answer(e).1,
        r.1.code@ == project_error_answer(e).2,
        (e is InvalidProjectName || e is InvalidRetentionDays || e is InvalidApiKeyName) ==> r.0 == 400 && r.1.code@ == "VALIDATION_ERROR"@,
        e is ProjectNotFound ==> r.0 == 404 && r.1.code@ == "PROJECT_NOT_FOUND"@,
        e is ApiKeyNotFound ==> r.0 == 404 && r.1.code@ == "API_KEY_NOT_FOUND"@,
        e is ProjectAlreadyExists ==> r.0 == 409 && r.1.code@ == "PROJECT_EXISTS"@,
        e is NotOrgMember ==> r.0 == 403 && r.1.code@ == "NOT_ORG_MEMBER"@,
        e is InsufficientPermissions ==> r.0 == 403 && r.1.code@ == "FORBIDDEN"@,
        e is ApiKeyRevoked ==> r.0 == 401 && r.1.code@ == "API_KEY_REVOKED"@,
        e is ApiKeyExpired ==> r.0 == 401 && r.1.code@ == "API_KEY_EXPIRED"@,
        e is ApiKeyInvalid ==> r.0 == 401 && r.1.code@ == "API_KEY_INVALID"@,
        e is ProjectAlreadyDeleted ==> r.0 == 410 && r.1.code@ == "PROJECT_DELETED"@,
        e is InternalError ==> r.0 == 500 && r.1.code@ == "INTERNAL_ERROR"@,
{
    let (status, error, code): (u16, String, &str) = match &e {
        ProjectDomainError::InvalidProjectName(_) | ProjectDomainError::InvalidRetentionDays(_)
        | ProjectDomainError::InvalidApiKeyName(_) => (
            STATUS_BAD_REQUEST,
            e.message(),
            "VALIDATION_ERROR",
        ),
        ProjectDomainError::ProjectNotFound => (
            STATUS_NOT_FOUND,
            "Project not found".to_string(),
            "PROJECT_NOT_FOUND",
        ),
        ProjectDomainError::ApiKeyNotFound => (
            STATUS_NOT_FOUND,
            "API key not found".to_string(),
            "API_KEY_NOT_FOUND",
        ),
        ProjectDomainError::ProjectAlreadyExists => (
            STATUS_CONFLICT,
            "Project with this name already exists".to_string(),
            "PROJECT_EXISTS",
        ),
        ProjectDomainError::NotOrgMember => (
            STATUS_FORBIDDEN,
            "Not a member of this organization".to_string(),
            "NOT_ORG_MEMBER",
        ),
        ProjectDomainError::InsufficientPermissions => (
            STATUS_FORBIDDEN,
            "Insufficient permissions".to_string(),
            "FORBIDDEN",
        ),
        ProjectDomainError::ApiKeyRevoked => (
            STATUS_UNAUTHORIZED,
            "API key has been revoked".to_string(),
            "API_KEY_REVOKED",
        ),
        ProjectDomainError::ApiKeyExpired => (
            STATUS_UNAUTHORIZED,
            "API key has expired".to_string(),
            "API_KEY_EXPIRED",
        ),
        ProjectDomainError::ApiKeyInvalid => (
            STATUS_UNAUTHORIZED,
            "Invalid API key".to_string(),
            "API_KEY_INVALID",
        ),
        ProjectDomainError::ProjectAlreadyDeleted => (
            STATUS_GONE,
            "Project has been deleted".to_string(),
            "PROJECT_DELETED",
        ),
        ProjectDomainError::InternalError(_) => (
            STATUS_INTERNAL_SERVER_ERROR,
            "An internal error occurred".to_string(),
            "INTERNAL_ERROR",
        ),
    };
    (status, ErrorResponse { error, code: code.to_string() })
}

} // verus!
