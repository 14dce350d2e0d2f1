//! API keys that authenticate ingestion requests, and their value objects.

use vstd::prelude::*;
use crate::projects::errors::ProjectDomainError;
use crate::projects::project::ProjectId;
use crate::text::{chars_of, name_fits, string_from_chars, trim, validated_name, NameProblem};
use crate::time::{clock_reading, now, Timestamp};

verus! {

/// API Key ID - wrapper around a UUID string.
#[derive(Debug, Clone, PartialEq, Eq, Hash)]
pub struct ApiKeyId(String);

impl View for ApiKeyId {
    type V = Seq<char>;

    closed spec fn view(&self) -> Seq<char> {
        self.0@
    }
}

impl From<String> for ApiKeyId {
    fn from(id: String) -> (r: Self)
        ensures
            r@ == id@,
    {
        ApiKeyId(id)
    }
}

impl vstd::std_specs::convert::FromSpecImpl<String> for ApiKeyId {
    open spec fn obeys_from_spec() -> bool {
        true
    }

    closed spec fn from_spec(id: String) -> Self {
        ApiKeyId(id)
    }
}

impl ApiKeyId {
    pub fn new(id: String) -> (r: Self)
        ensures
            r@ == id@,
    {
        ApiKeyId(id)
    }

    pub fn as_str(&self) -> (r: &str)
        ensures
            r@ == self@,
    {
        self.0.as_str()
    }

    pub fn into_inner(self) -> (r: String)
        ensures
            r@ == self@,
    {
        self.0
    }
}

/// API Key Name - human-readable name for the key (trimmed, 1 to 100
/// characters).
#[derive(Debug, Clone, PartialEq, Eq)]
pub struct ApiKeyName(String);

impl View for ApiKeyName {
    type V = Seq<char>;

    closed spec fn view(&self) -> Seq<char> {
        self.0@
    }
}

impl ApiKeyName {
    /// A name is what remains after trimming: non-empty, at most 100 characters.
    pub open spec fn wf(&self) -> bool {
        name_fits(self@) && trim(self@) == self@
    }

    pub fn new(name: String) -> (r: Result<Self, ProjectDomainError>)
        ensures
            r is Ok <==> name_fits(trim(name@)),
            r matches Ok(n) ==> n@ == trim(name@) && n.wf(),
            r matches Err(e) ==> e matches ProjectDomainError::InvalidApiKeyName(m) && m@ == (
            if trim(name@).len() == 0 {
                "name cannot be empty"@
            } else {
                "name cannot exceed 100 characters"@
            }),
    {
        match validated_name(name.as_str()) {
            Ok(n) => Ok(ApiKeyName(n)),
            Err(NameProblem::Empty) => Err(
                ProjectDomainError::InvalidApiKeyName("name cannot be empty".to_string()),
            ),
            Err(NameProblem::TooLong) => Err(
                ProjectDomainError::InvalidApiKeyName(
                    "name cannot exceed 100 characters".to_string(),
                ),
            ),
        }
    }

    pub fn as_str(&self) -> (r: &str)
        ensures
            r@ == self@,
    {
        self.0.as_str()
    }

    pub fn into_inner(self) -> (r: String)
        ensures
            r@ == self@,
    {
        self.0
    }
}

/// The marker that every API key starts with.
pub const API_KEY_MARKER: &'static str = "alt_pk_";

/// How many characters of the key body the stored prefix keeps.
pub const API_KEY_PREFIX_BODY_CHARS: usize = 8;

/// The body of a full key: what follows the marker, or the whole key when
/// it does not start with the marker.
pub open spec fn key_body(key: Seq<char>) -> Seq<char> {
    if API_KEY_MARKER@.is_prefix_of(key) {
        key.skip(API_KEY_MARKER@.len() as int)
    } else {
        key
    }
}

/// The identifying prefix of a full key: the marker and at most the first
/// eight characters of the body.
pub open spec fn key_prefix(key: Seq<char>) -> Seq<char> {
    let body = key_body(key);
    API_KEY_MARKER@ + (if body.len() <= API_KEY_PREFIX_BODY_CHARS {
        body
    } else {
        body.take(API_KEY_PREFIX_BODY_CHARS as int)
    })
}

/// API Key Prefix - the marker and the first characters of the key, which
/// identify a key without revealing it.
#[derive(Debug, Clone, PartialEq, Eq)]
pub struct ApiKeyPrefix(String);

impl View for ApiKeyPrefix {
    type V = Seq<char>;

    closed spec fn view(&self) -> Seq<char> {
        self.0@
    }
}

impl ApiKeyPrefix {
    /// Create from the full key: "alt_pk_" and the first eight characters
    /// after it.
    pub fn from_key(full_key: &str) -> (r: Self)
        ensures
            r@ == key_prefix(full_key@),
    {
        let key = chars_of(full_key);
        let marker = chars_of(API_KEY_MARKER);
        let n = key.len();
        let m = marker.len();
        let mut has_marker = m <= n;
        let mut i: usize = 0;
        while has_marker && i < m
            invariant
                n == key@.len(),
                m == marker@.len(),
                key@ == full_key@,
                marker@ == API_KEY_MARKER@,
                i <= m,
                has_marker ==> m <= n,
                has_marker ==> forall|k: int| 0 <= k < i ==> key@[k] == marker@[k],
                !has_marker ==> !API_KEY_MARKER@.is_prefix_of(full_key@),
            decreases m - i,
        {
            if key[i] != marker[i] {
                has_marker = false;
            }
            i = i + 1;
        }
        let start: usize = if has_marker {
            assert(marker@ =~= key@.take(m as int));
            m
        } else {
            0
        };
        assert(key@.skip(start as int) == key_body(full_key@));
        let mut out: Vec<char> = marker;
        let mut j: usize = start;
        while j < n && j - start < API_KEY_PREFIX_BODY_CHARS
            invariant
                n == key@.len(),
                start <= j <= n,
                j - start <= API_KEY_PREFIX_BODY_CHARS,
                out@ == API_KEY_MARKER@ + key@.subrange(start as int, j as int),
            decreases n - j,
        {
            out.push(key[j]);
            assert(key@.subrange(start as int, j + 1) == key@.subrange(start as int, j as int).push(
                key@[j as int],
            ));
            j = j + 1;
        }
        let ghost body = key@.skip(start as int);
        assert(key@.subrange(start as int, j as int) == (if body.len() <= API_KEY_PREFIX_BODY_CHARS {
            body
        } else {
            body.take(API_KEY_PREFIX_BODY_CHARS as int)
        }));
        ApiKeyPrefix(string_from_chars(out.as_slice()))
    }

    /// Reconstruct from a stored prefix.
    pub fn from_string(prefix: String) -> (r: Self)
        ensures
            r@ == prefix@,
    {
        ApiKeyPrefix(prefix)
    }

    pub fn as_str(&self) -> (r: &str)
        ensures
            r@ == self@,
    {
        self.0.as_str()
    }

    pub fn into_inner(self) -> (r: String)
        ensures
            r@ == self@,
    {
        self.0
    }
}

/// What an API key holds, as plain values.
pub struct ApiKeyView {
    pub id: Seq<char>,
    pub project_id: Seq<char>,
    pub name: Seq<char>,
    pub key_prefix: Seq<char>,
    pub key_hash: Seq<char>,
    pub created_at: Timestamp,
    pub expires_at: Option<Timestamp>,
    pub revoked_at: Option<Timestamp>,
}

/// Whether a key with the given expiry has expired at time `at`: only a key
/// with an expiry can, strictly after it.
pub open spec fn key_expired(expires_at: Option<Timestamp>, at: Timestamp) -> bool {
    match expires_at {
        Some(exp) => exp.spec_before(at),
        None => false,
    }
}

/// The key after a revocation at `at`: a key already revoked keeps its
/// first revocation time.
pub open spec fn key_after_revoke(v: ApiKeyView, at: Timestamp) -> ApiKeyView {
    ApiKeyView {
        revoked_at: match v.revoked_at {
            Some(t) => Some(t),
            None => Some(at),
        },
        ..v
    }
}

/// Whether a key may be used at time `at`: it has neither expired nor been
/// revoked.
pub open spec fn key_usable(v: ApiKeyView, at: Timestamp) -> bool {
    !key_expired(v.expires_at, at) && v.revoked_at is None
}

/// ApiKey - entity for authenticating ingestion requests.
#[derive(Debug, Clone)]
pub struct ApiKey {
    id: ApiKeyId,
    project_id: ProjectId,
    name: ApiKeyName,
    key_prefix: ApiKeyPrefix,
    key_hash: String,
    created_at: Timestamp,
    expires_at: Option<Timestamp>,
    revoked_at: Option<Timestamp>,
}

impl View for ApiKey {
    type V = ApiKeyView;

    closed spec fn view(&self) -> ApiKeyView {
        ApiKeyView {
            id: self.id@,
            project_id: self.project_id@,
            name: self.name@,
            key_prefix: self.key_prefix@,
            key_hash: self.key_hash@,
            created_at: self.created_at,
            expires_at: self.expires_at,
            revoked_at: self.revoked_at,
        }
    }
}

impl ApiKey {
    /// Reconstruct from the persistence layer (also the constructor with an
    /// explicit creation time).
    pub fn reconstruct(
        id: ApiKeyId,
        project_id: ProjectId,
        name: ApiKeyName,
        key_prefix: ApiKeyPrefix,
        key_hash: String,
        created_at: Timestamp,
        expires_at: Option<Timestamp>,
        revoked_at: Option<Timestamp>,
    ) -> (r: Self)
        ensures
            r@ == (ApiKeyView {
                id: id@,
                project_id: project_id@,
                name: name@,
                key_prefix: key_prefix@,
                key_hash: key_hash@,
                created_at,
                expires_at,
                revoked_at,
            }),
    {
        ApiKey { id, project_id, name, key_prefix, key_hash, created_at, expires_at, revoked_at }
    }

    /// Create a new, unrevoked API key, stamped with the current time.
    pub fn new(
        id: ApiKeyId,
        project_id: ProjectId,
        name: ApiKeyName,
        key_prefix: ApiKeyPrefix,
        key_hash: String,
        expires_at: Option<Timestamp>,
    ) -> (r: Self)
        ensures
            r@.id == id@,
            r@.project_id == project_id@,
            r@.name == name@,
            r@.key_prefix == key_prefix@,
            r@.key_hash == key_hash@,
            r@.expires_at == expires_at,
            r@.revoked_at is None,
            clock_reading(r@.created_at),
    {
        ApiKey::reconstruct(id, project_id, name, key_prefix, key_hash, now(), expires_at, None)
    }

    pub fn id(&self) -> (r: &ApiKeyId)
        ensures
            r@ == self@.id,
    {
        &self.id
    }

    pub fn project_id(&self) -> (r: &ProjectId)
        ensures
            r@ == self@.project_id,
    {
        &self.project_id
    }

    pub fn name(&self) -> (r: &ApiKeyName)
        ensures
            r@ == self@.name,
    {
        &self.name
    }

    pub fn key_prefix(&self) -> (r: &ApiKeyPrefix)
        ensures
            r@ == self@.key_prefix,
    {
        &self.key_prefix
    }

    pub fn key_hash(&self) -> (r: &str)
        ensures
            r@ == self@.key_hash,
    {
        self.key_hash.as_str()
    }

    pub fn created_at(&self) -> (r: Timestamp)
        ensures
            r == self@.created_at,
    {
        self.created_at
    }

    pub fn expires_at(&self) -> (r: Option<Timestamp>)
        ensures
            r == self@.expires_at,
    {
        self.expires_at
    }

    pub fn revoked_at(&self) -> (r: Option<Timestamp>)
        ensures
            r == self@.revoked_at,
    {
        self.revoked_at
    }

    /// Whether the key has expired at time `at`.
    pub fn is_expired_at(&self, at: Timestamp) -> (r: bool)
        ensures
            r == key_expired(self@.expires_at, at),
    {
        match self.expires_at {
            Some(exp) => at.is_after(&exp),
            None => false,
        }
    }

    /// Whether the key has expired, judged at the current time. A key without
    /// expiry never has; one that expired before the epoch always has.
    pub fn is_expired(&self) -> (r: bool)
        ensures
            self@.expires_at is None ==> !r,
            self@.expires_at matches Some(exp) && exp.secs < 0 ==> r,
            self@.expires_at matches Some(exp) && exp.secs > crate::time::MAX_TIMESTAMP_SECS ==> !r,
            exists|t: Timestamp| #[trigger] clock_reading(t) && r == key_expired(self@.expires_at, t),
    {
        let t = now();
        assert(clock_reading(t));
        self.is_expired_at(t)
    }

    pub fn is_revoked(&self) -> (r: bool)
        ensures
            r == self@.revoked_at is Some,
    {
        self.revoked_at.is_some()
    }

    /// Whether the key is usable at time `at`: neither expired nor revoked.
    pub fn is_valid_at(&self, at: Timestamp) -> (r: bool)
        ensures
            r == key_usable(self@, at),
    {
        !self.is_expired_at(at) && !self.is_revoked()
    }

    /// Whether the key is usable, judged at the current time.
    pub fn is_valid(&self) -> (r: bool)
        ensures
            self@.revoked_at is Some ==> !r,
            self@.revoked_at is None && self@.expires_at is None ==> r,
            self@.expires_at matches Some(exp) && exp.secs < 0 ==> !r,
            self@.revoked_at is None && (self@.expires_at matches Some(exp) && exp.secs
                > crate::time::MAX_TIMESTAMP_SECS) ==> r,
            exists|t: Timestamp| #[trigger] clock_reading(t) && r == key_usable(self@, t),
    {
        let t = now();
        assert(clock_reading(t));
        self.is_valid_at(t)
    }

    /// Revoke the key at time `at`; a key already revoked keeps its first
    /// revocation time.
    pub fn revoke_at(&mut self, at: Timestamp)
        ensures
            final(self)@ == key_after_revoke(old(self)@, at),
    {
        if self.revoked_at.is_none() {
            self.revoked_at = Some(at);
        }
    }

    /// Revoke this API key, stamped with the current time.
    pub fn revoke(&mut self)
        ensures
            final(self)@.revoked_at is Some,
            old(self)@.revoked_at is Some ==> final(self)@ == old(self)@,
            final(self)@.id == old(self)@.id,
            final(self)@.project_id == old(self)@.project_id,
            final(self)@.name == old(self)@.name,
            final(self)@.key_prefix == old(self)@.key_prefix,
            final(self)@.key_hash == old(self)@.key_hash,
            final(self)@.created_at == old(self)@.created_at,
            final(self)@.expires_at == old(self)@.expires_at,
            final(self)@ == key_after_revoke(old(self)@, final(self)@.revoked_at->0),
            old(self)@.revoked_at is None ==> clock_reading(final(self)@.revoked_at->0),
    {
        self.revoke_at(now());
    }
}

} // verus!
