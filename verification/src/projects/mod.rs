//! Projects: the monitored applications of an organization, their retention
//! settings, and the API keys that authenticate their ingestion.

pub mod errors;
pub mod project;
pub mod api_key;
pub mod keys;
pub mod dto;
pub mod service;
pub mod http;
pub mod flows;
pub mod laws;

pub use errors::ProjectDomainError;
pub use project::{
    MetricsRetentionDays, Project, ProjectId, ProjectName, RetentionDays, TracesRetentionDays,
};
pub use api_key::{ApiKey, ApiKeyId, ApiKeyName, ApiKeyPrefix};
