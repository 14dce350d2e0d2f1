//! Properties that hold across the project and API key functions.

use vstd::prelude::*;
use crate::projects::api_key::{
    key_after_revoke, key_expired, key_prefix, key_usable, ApiKeyView, API_KEY_MARKER,
};
use crate::projects::errors::ProjectDomainError;
use crate::projects::http::project_error_answer;
use crate::projects::project::{
    project_after_delete, ProjectView, LOG_RETENTION_DEFAULT_DAYS, LOG_RETENTION_MAX_DAYS,
    LOG_RETENTION_MIN_DAYS, METRICS_RETENTION_DEFAULT_DAYS, METRICS_RETENTION_MAX_DAYS,
    METRICS_RETENTION_MIN_DAYS, TRACES_RETENTION_DEFAULT_DAYS, TRACES_RETENTION_MAX_DAYS,
    TRACES_RETENTION_MIN_DAYS,
};
use crate::time::Timestamp;

verus! {

/// A project is deleted at most once: once a soft delete has gone through,
/// every later one is refused as already deleted.
pub proof fn lemma_project_deleted_once(v: ProjectView, first: Timestamp, later: Timestamp)
    requires
        project_after_delete(v, first) is Ok,
    ensures
        project_after_delete(project_after_delete(v, first)->Ok_0, later) == Err::<
            ProjectView,
            ProjectDomainError,
        >(ProjectDomainError::ProjectAlreadyDeleted),
{
}

/// Revoking is idempotent: a second revocation changes nothing, and the key
/// keeps its first revocation time.
pub proof fn lemma_revoke_idempotent(v: ApiKeyView, first: Timestamp, later: Timestamp)
    ensures
        key_after_revoke(key_after_revoke(v, first), later) == key_after_revoke(v, first),
{
}

/// A revoked key can never be used again, whatever the time; revoking
/// changes nothing but the revocation time.
pub proof fn lemma_revoked_key_unusable(v: ApiKeyView, at: Timestamp, later: Timestamp)
    ensures
        !key_usable(key_after_revoke(v, at), later),
        key_after_revoke(v, at).id == v.id,
        key_after_revoke(v, at).key_hash == v.key_hash,
        key_after_revoke(v, at).expires_at == v.expires_at,
{
}

/// The stored prefix of a key that starts with the marker is the marker and
/// the first eight characters after it (all of them when there are fewer).
pub proof fn lemma_prefix_of_marked_key(body: Seq<char>)
    ensures
        key_prefix(API_KEY_MARKER@ + body) == API_KEY_MARKER@ + (if body.len() <= 8 {
            body
        } else {
            body.take(8)
        }),
{
    let key = API_KEY_MARKER@ + body;
    assert(API_KEY_MARKER@.is_prefix_of(key)) by {
        assert(key.take(API_KEY_MARKER@.len() as int) =~= API_KEY_MARKER@);
    }
    assert(key.skip(API_KEY_MARKER@.len() as int) =~= body);
}

/// Every project error is answered with a client or server error status and
/// a code, and the answer to an internal error does not depend on its
/// details, which stay on the server.
pub proof fn lemma_every_error_answered(e: ProjectDomainError, m1: String, m2: String)
    ensures
        400 <= project_error_answer(e).0 <= 500,
        project_error_answer(e).2.len() > 0,
        project_error_answer(ProjectDomainError::InternalError(m1)) == project_error_answer(
            ProjectDomainError::InternalError(m2),
        ),
{
    reveal_strlit("VALIDATION_ERROR");
    reveal_strlit("PROJECT_NOT_FOUND");
    reveal_strlit("API_KEY_NOT_FOUND");
    reveal_strlit("PROJECT_EXISTS");
    reveal_strlit("NOT_ORG_MEMBER");
    reveal_strlit("FORBIDDEN");
    reveal_strlit("API_KEY_REVOKED");
    reveal_strlit("API_KEY_EXPIRED");
    reveal_strlit("API_KEY_INVALID");
    reveal_strlit("PROJECT_DELETED");
    reveal_strlit("INTERNAL_ERROR");
}

/// The default retentions lie within their bounds.
pub proof fn lemma_default_retentions_valid()
    ensures
        LOG_RETENTION_MIN_DAYS <= LOG_RETENTION_DEFAULT_DAYS <= LOG_RETENTION_MAX_DAYS,
        METRICS_RETENTION_MIN_DAYS <= METRICS_RETENTION_DEFAULT_DAYS <= METRICS_RETENTION_MAX_DAYS,
        TRACES_RETENTION_MIN_DAYS <= TRACES_RETENTION_DEFAULT_DAYS <= TRACES_RETENTION_MAX_DAYS,
{
}

/// Every API key starts with the marker `alt_pk_`, and its stored prefix
/// keeps eight characters of the key after the marker.
pub proof fn lemma_key_marker_and_prefix_length(body: Seq<char>)
    requires
        body.len() >= 8,
    ensures
        API_KEY_MARKER@ == "alt_pk_"@,
        key_prefix(API_KEY_MARKER@ + body).len() == 15,
        key_prefix(API_KEY_MARKER@ + body) == (API_KEY_MARKER@ + body).take(15),
{
    reveal_strlit("alt_pk_");
    lemma_prefix_of_marked_key(body);
    assert(key_prefix(API_KEY_MARKER@ + body) =~= (API_KEY_MARKER@ + body).take(15));
}

/// A key without expiry never expires; one with an expiry has expired
/// exactly when the time read is strictly later than it.
pub proof fn lemma_key_expiry(exp: Timestamp, at: Timestamp)
    ensures
        !key_expired(None, at),
        exp.secs < at.secs ==> key_expired(Some(exp), at),
        at.secs < exp.secs ==> !key_expired(Some(exp), at),
        !key_expired(Some(exp), exp),
        exp.secs == at.secs ==> (key_expired(Some(exp), at) <==> exp.nanos < at.nanos),
{
}

} // verus!
