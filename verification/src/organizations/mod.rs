//! Organizations: the tenants of the backend, their members and roles,
//! invitations, and the activity log.

pub mod errors;
pub mod organization;
pub mod member;
pub mod activity;
pub mod invite;
pub mod dto;
pub mod service;
pub mod invitations;
pub mod flows;
pub mod laws;
pub mod http;
pub mod invite_http;

pub use errors::OrgDomainError;
pub use organization::{MemberId, OrgId, OrgName, OrgRole, OrgSlug};
pub use member::OrganizationMember;
pub use activity::{ActivityId, ActivityType, OrgActivity};
pub use invite::{InviteId, InviteStatus, OrganizationInvite};
