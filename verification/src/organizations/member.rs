//! A user's membership in an organization.

use vstd::prelude::*;
use crate::organizations::organization::{MemberId, OrgId, OrgRole};
use crate::time::{clock_reading, now, Timestamp};
use crate::users::UserId;

verus! {

/// What a membership holds, as plain values.
pub struct OrganizationMemberView {
    pub id: Seq<char>,
    pub organization_id: Seq<char>,
    pub user_id: Seq<char>,
    pub role: OrgRole,
    pub last_accessed_at: Option<Timestamp>,
    pub created_at: Timestamp,
    pub updated_at: Timestamp,
}

/// OrganizationMember - a user's membership in an organization.
#[derive(Debug, Clone)]
pub struct OrganizationMember {
    id: MemberId,
    organization_id: OrgId,
    user_id: UserId,
    role: OrgRole,
    last_accessed_at: Option<Timestamp>,
    created_at: Timestamp,
    updated_at: Timestamp,
}

impl View for OrganizationMember {
    type V = OrganizationMemberView;

    closed spec fn view(&self) -> OrganizationMemberView {
        OrganizationMemberView {
            id: self.id@,
            organization_id: self.organization_id@,
            user_id: self.user_id@,
            role: self.role,
            last_accessed_at: self.last_accessed_at,
            created_at: self.created_at,
            updated_at: self.updated_at,
        }
    }
}

impl OrganizationMember {
    /// A fresh membership created at `at`, never accessed yet.
    pub fn new_at(id: MemberId, organization_id: OrgId, user_id: UserId, role: OrgRole, at: Timestamp) -> (r: Self)
        ensures
            r@ == (OrganizationMemberView {
                id: id@,
                organization_id: organization_id@,
                user_id: user_id@,
                role,
                last_accessed_at: None,
                created_at: at,
                updated_at: at,
            }),
    {
        OrganizationMember {
            id,
            organization_id,
            user_id,
            role,
            last_accessed_at: None,
            created_at: at,
            updated_at: at,
        }
    }

    /// Create a new membership, stamped with the current time.
    pub fn new(id: MemberId, organization_id: OrgId, user_id: UserId, role: OrgRole) -> (r: Self)
        ensures
            r@.id == id@,
            r@.organization_id == organization_id@,
            r@.user_id == user_id@,
            r@.role == role,
            r@.last_accessed_at is None,
            r@.created_at == r@.updated_at,
            clock_reading(r@.created_at),
    {
        OrganizationMember::new_at(id, organization_id, user_id, role, now())
    }

    /// Reconstruct from the persistence layer.
    pub fn reconstruct(
        id: MemberId,
        organization_id: OrgId,
        user_id: UserId,
        role: OrgRole,
        last_accessed_at: Option<Timestamp>,
        created_at: Timestamp,
        updated_at: Timestamp,
    ) -> (r: Self)
        ensures
            r@ == (OrganizationMemberView {
                id: id@,
                organization_id: organization_id@,
                user_id: user_id@,
                role,
                last_accessed_at,
                created_at,
                updated_at,
            }),
    {
        OrganizationMember { id, organization_id, user_id, role, last_accessed_at, created_at, updated_at }
    }

    pub fn id(&self) -> (r: &MemberId)
        ensures
            r@ == self@.id,
    {
        &self.id
    }

    pub fn organization_id(&self) -> (r: &OrgId)
        ensures
            r@ == self@.organization_id,
    {
        &self.organization_id
    }

    pub fn user_id(&self) -> (r: &UserId)
        ensures
            r@ == self@.user_id,
    {
        &self.user_id
    }

    pub fn role(&self) -> (r: &OrgRole)
        ensures
            *r == self@.role,
    {
        &self.role
    }

    pub fn last_accessed_at(&self) -> (r: Option<Timestamp>)
        ensures
            r == self@.last_accessed_at,
    {
        self.last_accessed_at
    }

    pub fn created_at(&self) -> (r: Timestamp)
        ensures
            r == self@.created_at,
    {
        self.created_at
    }

    pub fn updated_at(&self) -> (r: Timestamp)
        ensures
            r == self@.updated_at,
    {
        self.updated_at
    }

    /// Change the member's role at time `at`.
    pub fn update_role_at(&mut self, role: OrgRole, at: Timestamp)
        ensures
            final(self)@ == (OrganizationMemberView { role, updated_at: at, ..old(self)@ }),
    {
        self.role = role;
        self.updated_at = at;
    }

    /// Change the member's role, stamped with the current time.
    pub fn update_role(&mut self, role: OrgRole)
        ensures
            final(self)@.role == role,
            final(self)@.id == old(self)@.id,
            final(self)@.organization_id == old(self)@.organization_id,
            final(self)@.user_id == old(self)@.user_id,
            final(self)@.last_accessed_at == old(self)@.last_accessed_at,
            final(self)@.created_at == old(self)@.created_at,
            final(self)@ == (OrganizationMemberView {
                role,
                updated_at: final(self)@.updated_at,
                ..old(self)@
            }),
            clock_reading(final(self)@.updated_at),
    {
        self.update_role_at(role, now());
    }

    /// Record an access at time `at` (when the user switches to this
    /// organization).
    pub fn touch_last_accessed_at(&mut self, at: Timestamp)
        ensures
            final(self)@ == (OrganizationMemberView {
                last_accessed_at: Some(at),
                updated_at: at,
                ..old(self)@
            }),
    {
        self.last_accessed_at = Some(at);
        self.updated_at = at;
    }

    /// Record an access, stamped with the current time.
    pub fn touch_last_accessed(&mut self)
        ensures
            final(self)@.last_accessed_at is Some,
            final(self)@.role == old(self)@.role,
            final(self)@.id == old(self)@.id,
            final(self)@.organization_id == old(self)@.organization_id,
            final(self)@.user_id == old(self)@.user_id,
            final(self)@.created_at == old(self)@.created_at,
            final(self)@ == (OrganizationMemberView {
                last_accessed_at: Some(final(self)@.updated_at),
                updated_at: final(self)@.updated_at,
                ..old(self)@
            }),
            clock_reading(final(self)@.updated_at),
    {
        self.touch_last_accessed_at(now());
    }
}

} // verus!
