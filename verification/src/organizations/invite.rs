//! Invitations to join an organization.

use vstd::prelude::*;
use crate::organizations::errors::OrgDomainError;
use crate::organizations::organization::OrgRole;
use crate::text::str_equals;
use crate::time::{clock_reading, now, Timestamp};

verus! {

/// Unique identifier for an organization invite.
#[derive(Debug, Clone, PartialEq, Eq, Hash)]
pub struct InviteId(String);

impl View for InviteId {
    type V = Seq<char>;

    closed spec fn view(&self) -> Seq<char> {
        self.0@
    }
}

impl From<InviteId> for String {
    fn from(id: InviteId) -> (r: String)
        ensures
            r@ == id@,
    {
        id.0
    }
}

impl vstd::std_specs::convert::FromSpecImpl<InviteId> for String {
    open spec fn obeys_from_spec() -> bool {
        true
    }

    closed spec fn from_spec(id: InviteId) -> String {
        id.0
    }
}

impl InviteId {
    pub fn new(id: String) -> (r: Self)
        ensures
            r@ == id@,
    {
        InviteId(id)
    }

    pub fn as_str(&self) -> (r: &str)
        ensures
            r@ == self@,
    {
        self.0.as_str()
    }

    /// The identifier as text (what `Display` shows and `String::from` gives).
    pub fn into_inner(self) -> (r: String)
        ensures
            r@ == self@,
    {
        self.0
    }
}

/// Status of an organization invite.
#[derive(Debug, Clone, Copy, PartialEq, Eq, Structural)]
pub enum InviteStatus {
    Pending,
    Accepted,
    Declined,
    Expired,
}

/// The stored name of each status.
pub open spec fn status_text(s: InviteStatus) -> Seq<char> {
    match s {
        InviteStatus::Pending => "pending"@,
        InviteStatus::Accepted => "accepted"@,
        InviteStatus::Declined => "declined"@,
        InviteStatus::Expired => "expired"@,
    }
}

/// The status whose stored name is `s`, if any.
pub open spec fn status_named(s: Seq<char>) -> Option<InviteStatus> {
    if s == "pending"@ {
        Some(InviteStatus::Pending)
    } else if s == "accepted"@ {
        Some(InviteStatus::Accepted)
    } else if s == "declined"@ {
        Some(InviteStatus::Declined)
    } else if s == "expired"@ {
        Some(InviteStatus::Expired)
    } else {
        None
    }
}

impl InviteStatus {
    pub fn as_str(&self) -> (r: &'static str)
        ensures
            r@ == status_text(*self),
            *self == InviteStatus::Pending ==> r@ == "pending"@,
            *self == InviteStatus::Accepted ==> r@ == "accepted"@,
            *self == InviteStatus::Declined ==> r@ == "declined"@,
            *self == InviteStatus::Expired ==> r@ == "expired"@,
    {
        match self {
            InviteStatus::Pending => "pending",
            InviteStatus::Accepted => "accepted",
            InviteStatus::Declined => "declined",
            InviteStatus::Expired => "expired",
        }
    }

    /// Parses a stored status name (exact match).
    pub fn from_str(s: &str) -> (r: Result<Self, OrgDomainError>)
        ensures
            match status_named(s@) {
                Some(t) => r == Ok::<InviteStatus, OrgDomainError>(t),
                None => r matches Err(e) && e matches OrgDomainError::InvalidInviteStatus(m) && m@
                    == s@,
            },
    {
        if str_equals(s, "pending") {
            Ok(InviteStatus::Pending)
        } else if str_equals(s, "accepted") {
            Ok(InviteStatus::Accepted)
        } else if str_equals(s, "declined") {
            Ok(InviteStatus::Declined)
        } else if str_equals(s, "expired") {
            Ok(InviteStatus::Expired)
        } else {
            Err(OrgDomainError::InvalidInviteStatus(s.to_string()))
        }
    }
}

/// What an invite holds, as plain values.
pub struct OrganizationInviteView {
    pub id: Seq<char>,
    pub organization_id: Seq<char>,
    pub inviter_id: Seq<char>,
    pub invitee_email: Seq<char>,
    pub invitee_id: Option<Seq<char>>,
    pub role: OrgRole,
    pub status: InviteStatus,
    pub expires_at: Timestamp,
    pub created_at: Timestamp,
    pub updated_at: Timestamp,
}

/// The plain value of an optional text.
pub open spec fn opt_text(s: Option<String>) -> Option<Seq<char>> {
    match s {
        Some(x) => Some(x@),
        None => None,
    }
}

/// The invite after it is closed with `status` at time `at`: only its
/// status and its update time change.
pub open spec fn invite_closed(
    v: OrganizationInviteView,
    status: InviteStatus,
    at: Timestamp,
) -> OrganizationInviteView {
    OrganizationInviteView { status, updated_at: at, ..v }
}

/// A pending (or processed) invitation to join an organization.
#[derive(Debug, Clone)]
pub struct OrganizationInvite {
    id: InviteId,
    organization_id: String,
    inviter_id: String,
    invitee_email: String,
    invitee_id: Option<String>,
    role: OrgRole,
    status: InviteStatus,
    expires_at: Timestamp,
    created_at: Timestamp,
    updated_at: Timestamp,
}

impl View for OrganizationInvite {
    type V = OrganizationInviteView;

    closed spec fn view(&self) -> OrganizationInviteView {
        OrganizationInviteView {
            id: self.id@,
            organization_id: self.organization_id@,
            inviter_id: self.inviter_id@,
            invitee_email: self.invitee_email@,
            invitee_id: opt_text(self.invitee_id),
            role: self.role,
            status: self.status,
            expires_at: self.expires_at,
            created_at: self.created_at,
            updated_at: self.updated_at,
        }
    }
}

impl OrganizationInvite {
    /// A pending invite created at `at`.
    pub fn new_at(
        id: InviteId,
        organization_id: String,
        inviter_id: String,
        invitee_email: String,
        invitee_id: Option<String>,
        role: OrgRole,
        expires_at: Timestamp,
        at: Timestamp,
    ) -> (r: Self)
        ensures
            r@ == (OrganizationInviteView {
                id: id@,
                organization_id: organization_id@,
                inviter_id: inviter_id@,
                invitee_email: invitee_email@,
                invitee_id: opt_text(invitee_id),
                role,
                status: InviteStatus::Pending,
                expires_at,
                created_at: at,
                updated_at: at,
            }),
    {
        OrganizationInvite {
            id,
            organization_id,
            inviter_id,
            invitee_email,
            invitee_id,
            role,
            status: InviteStatus::Pending,
            expires_at,
            created_at: at,
            updated_at: at,
        }
    }

    /// Create a new pending invite, stamped with the current time.
    pub fn new(
        id: InviteId,
        organization_id: String,
        inviter_id: String,
        invitee_email: String,
        invitee_id: Option<String>,
        role: OrgRole,
        expires_at: Timestamp,
    ) -> (r: Self)
        ensures
            r@.id == id@,
            r@.organization_id == organization_id@,
            r@.inviter_id == inviter_id@,
            r@.invitee_email == invitee_email@,
            r@.invitee_id == opt_text(invitee_id),
            r@.role == role,
            r@.status == InviteStatus::Pending,
            r@.expires_at == expires_at,
            r@.created_at == r@.updated_at,
            clock_reading(r@.created_at),
    {
        OrganizationInvite::new_at(
            id,
            organization_id,
            inviter_id,
            invitee_email,
            invitee_id,
            role,
            expires_at,
            now(),
        )
    }

    /// Reconstruct from persistence.
    pub fn reconstruct(
        id: InviteId,
        organization_id: String,
        inviter_id: String,
        invitee_email: String,
        invitee_id: Option<String>,
        role: OrgRole,
        status: InviteStatus,
        expires_at: Timestamp,
        created_at: Timestamp,
        updated_at: Timestamp,
    ) -> (r: Self)
        ensures
            r@ == (OrganizationInviteView {
                id: id@,
                organization_id: organization_id@,
                inviter_id: inviter_id@,
                invitee_email: invitee_email@,
                invitee_id: opt_text(invitee_id),
                role,
                status,
                expires_at,
                created_at,
                updated_at,
            }),
    {
        OrganizationInvite {
            id,
            organization_id,
            inviter_id,
            invitee_email,
            invitee_id,
            role,
            status,
            expires_at,
            created_at,
            updated_at,
        }
    }

    pub fn id(&self) -> (r: &InviteId)
        ensures
            r@ == self@.id,
    {
        &self.id
    }

    pub fn organization_id(&self) -> (r: &str)
        ensures
            r@ == self@.organization_id,
    {
        self.organization_id.as_str()
    }

    pub fn inviter_id(&self) -> (r: &str)
        ensures
            r@ == self@.inviter_id,
    {
        self.inviter_id.as_str()
    }

    pub fn invitee_email(&self) -> (r: &str)
        ensures
            r@ == self@.invitee_email,
    {
        self.invitee_email.as_str()
    }

    pub fn invitee_id(&self) -> (r: Option<&str>)
        ensures
            match r {
                Some(s) => self@.invitee_id == Some(s@),
                None => self@.invitee_id is None,
            },
    {
        match &self.invitee_id {
            Some(s) => Some(s.as_str()),
            None => None,
        }
    }

    pub fn role(&self) -> (r: OrgRole)
        ensures
            r == self@.role,
    {
        self.role
    }

    pub fn status(&self) -> (r: InviteStatus)
        ensures
            r == self@.status,
    {
        self.status
    }

    pub fn expires_at(&self) -> (r: Timestamp)
        ensures
            r == self@.expires_at,
    {
        self.expires_at
    }

    pub fn created_at(&self) -> (r: Timestamp)
        ensures
            r == self@.created_at,
    {
        self.created_at
    }

    pub fn updated_at(&self) -> (r: Timestamp)
        ensures
            r == self@.updated_at,
    {
        self.updated_at
    }

    /// Whether the invite has expired at time `at`: strictly after its expiry.
    pub fn is_expired_at(&self, at: Timestamp) -> (r: bool)
        ensures
            r == self@.expires_at.spec_before(at),
    {
        at.is_after(&self.expires_at)
    }

    /// Whether the invite has expired, judged at the current time. The clock
    /// reads no earlier than the epoch and no later than chrono's last second,
    /// so an expiry before the epoch has always passed and one past that
    /// second never has.
    pub fn is_expired(&self) -> (r: bool)
        ensures
            self@.expires_at.secs < 0 ==> r,
            self@.expires_at.secs > crate::time::MAX_TIMESTAMP_SECS ==> !r,
            exists|t: Timestamp| #[trigger] clock_reading(t) && r == self@.expires_at.spec_before(t),
    {
        let t = now();
        assert(clock_reading(t));
        self.is_expired_at(t)
    }

    /// Move the invite to `status` at time `at`.
    fn set_status_at(&mut self, status: InviteStatus, at: Timestamp)
        ensures
            final(self)@ == invite_closed(old(self)@, status, at),
    {
        self.status = status;
        self.updated_at = at;
    }

    /// Accept the invite at time `at`.
    pub fn accept_at(&mut self, at: Timestamp)
        ensures
            final(self)@ == invite_closed(old(self)@, InviteStatus::Accepted, at),
    {
        self.set_status_at(InviteStatus::Accepted, at);
    }

    /// Accept the invite, stamped with the current time.
    pub fn accept(&mut self)
        ensures
            final(self)@.status == InviteStatus::Accepted,
            final(self)@.id == old(self)@.id,
            final(self)@.role == old(self)@.role,
            final(self)@.organization_id == old(self)@.organization_id,
            final(self)@.expires_at == old(self)@.expires_at,
            final(self)@ == invite_closed(
                old(self)@,
                InviteStatus::Accepted,
                final(self)@.updated_at,
            ),
            clock_reading(final(self)@.updated_at),
    {
        self.accept_at(now());
    }

    /// Decline the invite at time `at`.
    pub fn decline_at(&mut self, at: Timestamp)
        ensures
            final(self)@ == invite_closed(old(self)@, InviteStatus::Declined, at),
    {
        self.set_status_at(InviteStatus::Declined, at);
    }

    /// Decline the invite, stamped with the current time.
    pub fn decline(&mut self)
        ensures
            final(self)@.status == InviteStatus::Declined,
            final(self)@.id == old(self)@.id,
            final(self)@.role == old(self)@.role,
            final(self)@.organization_id == old(self)@.organization_id,
            final(self)@.expires_at == old(self)@.expires_at,
            final(self)@ == invite_closed(
                old(self)@,
                InviteStatus::Declined,
                final(self)@.updated_at,
            ),
            clock_reading(final(self)@.updated_at),
    {
        self.decline_at(now());
    }

    /// Mark the invite expired at time `at`.
    pub fn mark_expired_at(&mut self, at: Timestamp)
        ensures
            final(self)@ == invite_closed(old(self)@, InviteStatus::Expired, at),
    {
        self.set_status_at(InviteStatus::Expired, at);
    }

    /// Mark the invite expired, stamped with the current time.
    pub fn mark_expired(&mut self)
        ensures
            final(self)@.status == InviteStatus::Expired,
            final(self)@.id == old(self)@.id,
            final(self)@.role == old(self)@.role,
            final(self)@.organization_id == old(self)@.organization_id,
            final(self)@.expires_at == old(self)@.expires_at,
            final(self)@ == invite_closed(
                old(self)@,
                InviteStatus::Expired,
                final(self)@.updated_at,
            ),
            clock_reading(final(self)@.updated_at),
    {
        self.mark_expired_at(now());
    }
}

} // verus!
