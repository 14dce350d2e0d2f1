//! The activity log of an organization.

use vstd::prelude::*;
use crate::organizations::errors::OrgDomainError;
use crate::organizations::organization::OrgId;
use crate::text::str_equals;
use crate::time::{clock_reading, now, Timestamp};
use crate::users::UserId;

verus! {

/// Activity ID - wrapper around a UUID string.
#[derive(Debug, Clone, PartialEq, Eq, Hash)]
pub struct ActivityId(String);

impl View for ActivityId {
    type V = Seq<char>;

    closed spec fn view(&self) -> Seq<char> {
        self.0@
    }
}

impl From<String> for ActivityId {
    fn from(id: String) -> (r: Self)
        ensures
            r@ == id@,
    {
        ActivityId(id)
    }
}

impl vstd::std_specs::convert::FromSpecImpl<String> for ActivityId {
    open spec fn obeys_from_spec() -> bool {
        true
    }

    closed spec fn from_spec(id: String) -> Self {
        ActivityId(id)
    }
}

impl ActivityId {
    pub fn new(id: String) -> (r: Self)
        ensures
            r@ == id@,
    {
        ActivityId(id)
    }

    pub fn as_str(&self) -> (r: &str)
        ensures
            r@ == self@,
    {
        self.0.as_str()
    }

    pub fn into_inner(self) -> (r: String)
        ensures
            r@ == self@,
    {
        self.0
    }
}

/// Activity Type - what happened in the organization.
#[derive(Debug, Clone, Copy, PartialEq, Eq, Structural)]
pub enum ActivityType {
    OrgCreated,
    MemberAdded,
    MemberRemoved,
    MemberRoleChanged,
    OrgNameChanged,
    InviteSent,
    InviteAccepted,
    InviteDeclined,
}

/// The stored name of each activity type.
pub open spec fn activity_text(t: ActivityType) -> Seq<char> {
    match t {
        ActivityType::OrgCreated => "org_created"@,
        ActivityType::MemberAdded => "member_added"@,
        ActivityType::MemberRemoved => "member_removed"@,
        ActivityType::MemberRoleChanged => "member_role_changed"@,
        ActivityType::OrgNameChanged => "org_name_changed"@,
        ActivityType::InviteSent => "invite_sent"@,
        ActivityType::InviteAccepted => "invite_accepted"@,
        ActivityType::InviteDeclined => "invite_declined"@,
    }
}

/// The activity type whose stored name is `s`, if any.
pub open spec fn activity_named(s: Seq<char>) -> Option<ActivityType> {
    if s == "org_created"@ {
        Some(ActivityType::OrgCreated)
    } else if s == "member_added"@ {
        Some(ActivityType::MemberAdded)
    } else if s == "member_removed"@ {
        Some(ActivityType::MemberRemoved)
    } else if s == "member_role_changed"@ {
        Some(ActivityType::MemberRoleChanged)
    } else if s == "org_name_changed"@ {
        Some(ActivityType::OrgNameChanged)
    } else if s == "invite_sent"@ {
        Some(ActivityType::InviteSent)
    } else if s == "invite_accepted"@ {
        Some(ActivityType::InviteAccepted)
    } else if s == "invite_declined"@ {
        Some(ActivityType::InviteDeclined)
    } else {
        None
    }
}

impl ActivityType {
    /// Parses a stored activity type name (exact match).
    pub fn from_str(s: &str) -> (r: Result<Self, OrgDomainError>)
        ensures
            match activity_named(s@) {
                Some(t) => r == Ok::<ActivityType, OrgDomainError>(t),
                None => r matches Err(e) && e matches OrgDomainError::InvalidActivityType(m) && m@
                    == s@,
            },
    {
        if str_equals(s, "org_created") {
            Ok(ActivityType::OrgCreated)
        } else if str_equals(s, "member_added") {
            Ok(ActivityType::MemberAdded)
        } else if str_equals(s, "member_removed") {
            Ok(ActivityType::MemberRemoved)
        } else if str_equals(s, "member_role_changed") {
            Ok(ActivityType::MemberRoleChanged)
        } else if str_equals(s, "org_name_changed") {
            Ok(ActivityType::OrgNameChanged)
        } else if str_equals(s, "invite_sent") {
            Ok(ActivityType::InviteSent)
        } else if str_equals(s, "invite_accepted") {
            Ok(ActivityType::InviteAccepted)
        } else if str_equals(s, "invite_declined") {
            Ok(ActivityType::InviteDeclined)
        } else {
            Err(OrgDomainError::InvalidActivityType(s.to_string()))
        }
    }

    pub fn as_str(&self) -> (r: &'static str)
        ensures
            r@ == activity_text(*self),
            *self == ActivityType::OrgCreated ==> r@ == "org_created"@,
            *self == ActivityType::MemberAdded ==> r@ == "member_added"@,
            *self == ActivityType::MemberRemoved ==> r@ == "member_removed"@,
            *self == ActivityType::MemberRoleChanged ==> r@ == "member_role_changed"@,
            *self == ActivityType::OrgNameChanged ==> r@ == "org_name_changed"@,
            *self == ActivityType::InviteSent ==> r@ == "invite_sent"@,
            *self == ActivityType::InviteAccepted ==> r@ == "invite_accepted"@,
            *self == ActivityType::InviteDeclined ==> r@ == "invite_declined"@,
    {
        match self {
            ActivityType::OrgCreated => "org_created",
            ActivityType::MemberAdded => "member_added",
            ActivityType::MemberRemoved => "member_removed",
            ActivityType::MemberRoleChanged => "member_role_changed",
            ActivityType::OrgNameChanged => "org_name_changed",
            ActivityType::InviteSent => "invite_sent",
            ActivityType::InviteAccepted => "invite_accepted",
            ActivityType::InviteDeclined => "invite_declined",
        }
    }
}

/// Key/value details attached to an activity, such as the old and new role.
pub type ActivityMetadata = Vec<(String, String)>;

/// The plain values of activity metadata.
pub open spec fn metadata_view(m: Option<ActivityMetadata>) -> Option<Seq<(Seq<char>, Seq<char>)>> {
    match m {
        Some(v) => Some(v@.map_values(|p: (String, String)| (p.0@, p.1@))),
        None => None,
    }
}

/// Whether no two entries of activity metadata share a key: the metadata
/// is a key/value map.
pub open spec fn distinct_metadata_keys(m: Option<Seq<(Seq<char>, Seq<char>)>>) -> bool {
    m matches Some(s) ==> forall|i: int, j: int|
        0 <= i < j < s.len() ==> #[trigger] s[i].0 != #[trigger] s[j].0
}

/// What an activity entry holds, as plain values.
pub struct OrgActivityView {
    pub id: Seq<char>,
    pub organization_id: Seq<char>,
    pub activity_type: ActivityType,
    pub actor_id: Seq<char>,
    pub target_id: Option<Seq<char>>,
    pub metadata: Option<Seq<(Seq<char>, Seq<char>)>>,
    pub created_at: Timestamp,
}

/// OrgActivity - one entry of an organization's activity log.
#[derive(Debug, Clone)]
pub struct OrgActivity {
    id: ActivityId,
    organization_id: OrgId,
    activity_type: ActivityType,
    actor_id: UserId,
    target_id: Option<UserId>,
    metadata: Option<ActivityMetadata>,
    created_at: Timestamp,
}

/// The plain value of an optional user.
pub open spec fn opt_user_view(u: Option<UserId>) -> Option<Seq<char>> {
    match u {
        Some(x) => Some(x@),
        None => None,
    }
}

impl View for OrgActivity {
    type V = OrgActivityView;

    closed spec fn view(&self) -> OrgActivityView {
        OrgActivityView {
            id: self.id@,
            organization_id: self.organization_id@,
            activity_type: self.activity_type,
            actor_id: self.actor_id@,
            target_id: opt_user_view(self.target_id),
            metadata: metadata_view(self.metadata),
            created_at: self.created_at,
        }
    }
}

impl OrgActivity {
    /// Reconstruct from the persistence layer (also the constructor with an
    /// explicit time).
    pub fn reconstruct(
        id: ActivityId,
        organization_id: OrgId,
        activity_type: ActivityType,
        actor_id: UserId,
        target_id: Option<UserId>,
        metadata: Option<ActivityMetadata>,
        created_at: Timestamp,
    ) -> (r: Self)
        ensures
            r@ == (OrgActivityView {
                id: id@,
                organization_id: organization_id@,
                activity_type,
                actor_id: actor_id@,
                target_id: opt_user_view(target_id),
                metadata: metadata_view(metadata),
                created_at,
            }),
    {
        OrgActivity { id, organization_id, activity_type, actor_id, target_id, metadata, created_at }
    }

    /// Create a new activity log entry, stamped with the current time.
    pub fn new(
        id: ActivityId,
        organization_id: OrgId,
        activity_type: ActivityType,
        actor_id: UserId,
        target_id: Option<UserId>,
        metadata: Option<ActivityMetadata>,
    ) -> (r: Self)
        ensures
            r@.id == id@,
            r@.organization_id == organization_id@,
            r@.activity_type == activity_type,
            r@.actor_id == actor_id@,
            r@.target_id == opt_user_view(target_id),
            r@.metadata == metadata_view(metadata),
            clock_reading(r@.created_at),
    {
        OrgActivity::reconstruct(id, organization_id, activity_type, actor_id, target_id, metadata, now())
    }

    pub fn id(&self) -> (r: &ActivityId)
        ensures
            r@ == self@.id,
    {
        &self.id
    }

    pub fn organization_id(&self) -> (r: &OrgId)
        ensures
            r@ == self@.organization_id,
    {
        &self.organization_id
    }

    pub fn activity_type(&self) -> (r: ActivityType)
        ensures
            r == self@.activity_type,
    {
        self.activity_type
    }

    pub fn actor_id(&self) -> (r: &UserId)
        ensures
            r@ == self@.actor_id,
    {
        &self.actor_id
    }

    pub fn target_id(&self) -> (r: Option<&UserId>)
        ensures
            match r {
                Some(u) => self@.target_id == Some(u@),
                None => self@.target_id is None,
            },
    {
        match &self.target_id {
            Some(u) => Some(u),
            None => None,
        }
    }

    pub fn metadata(&self) -> (r: Option<&ActivityMetadata>)
        ensures
            match r {
                Some(m) => self@.metadata == metadata_view(Some(*m)),
                None => self@.metadata is None,
            },
    {
        match &self.metadata {
            Some(m) => Some(m),
            None => None,
        }
    }

    pub fn created_at(&self) -> (r: Timestamp)
        ensures
            r == self@.created_at,
    {
        self.created_at
    }
}

} // verus!
