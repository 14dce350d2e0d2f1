//! Domain core of an observability backend: organizations, their members,
//! invites and activity log, projects with their API keys and retention
//! settings, and the decisions that the application services take on them.

pub mod text;

pub mod organizations;
pub mod time;
pub mod users;
pub mod projects;
pub mod random;
pub mod encoding;
pub mod numerals;
pub mod status;
pub mod otlp;
pub mod retention;
