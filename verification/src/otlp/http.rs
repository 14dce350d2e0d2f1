//! How the ingestion endpoints judge a request's format and answer an
//! export: refused formats and unreadable bodies, and the partial success
//! that reports the records the store did not accept.

use vstd::prelude::*;
use crate::otlp::types::{
    ExportLogsPartialSuccess, ExportLogsServiceResponse, ExportMetricsPartialSuccess,
    ExportMetricsServiceResponse, ExportTracePartialSuccess, ExportTraceServiceResponse,
};
use crate::status::{
    STATUS_BAD_REQUEST, STATUS_INTERNAL_SERVER_ERROR, STATUS_NOT_FOUND, STATUS_UNSUPPORTED_MEDIA_TYPE,
};
use crate::text::chars_of;

verus! {

/// The body of an error answer.
#[derive(Debug)]
pub struct ErrorResponse {
    pub error: String,
    pub code: String,
}

/// Whether `needle` occurs in `hay` at position `i`.
pub open spec fn occurs_at(hay: Seq<char>, needle: Seq<char>, i: int) -> bool {
    0 <= i && i + needle.len() <= hay.len() && hay.subrange(i, i + needle.len()) == needle
}

/// Whether `needle` occurs somewhere in `hay`.
pub open spec fn contains_text(hay: Seq<char>, needle: Seq<char>) -> bool {
    exists|i: int| occurs_at(hay, needle, i)
}

/// Whether `needle` occurs in `hay` (`str::contains`).
pub fn contains(hay: &str, needle: &str) -> (r: bool)
    ensures
        r == contains_text(hay@, needle@),
{
    let h = chars_of(hay);
    let nd = chars_of(needle);
    let hn = h.len();
    let nn = nd.len();
    if nn > hn {
        assert forall|i: int| !occurs_at(hay@, needle@, i) by {}
        return false;
    }
    let mut i: usize = 0;
    while i <= hn - nn
        invariant
            h@ == hay@,
            nd@ == needle@,
            hn == h@.len(),
            nn == nd@.len(),
            nn <= hn,
            i <= hn - nn + 1,
            forall|k: int| 0 <= k < i ==> !occurs_at(hay@, needle@, k),
        decreases hn - i,
    {
        let mut j: usize = 0;
        while j < nn && h[i + j] == nd[j]
            invariant
                h@ == hay@,
                nd@ == needle@,
                hn == h@.len(),
                nn == nd@.len(),
                i + nn <= hn,
                j <= nn,
                forall|m: int| 0 <= m < j ==> h@[i + m] == nd@[m],
            decreases nn - j,
        {
            j = j + 1;
        }
        if j == nn {
            assert(hay@.subrange(i as int, i + nn) =~= needle@);
            assert(occurs_at(hay@, needle@, i as int));
            return true;
        }
        assert(hay@.subrange(i as int, i + nn)[j as int] != needle@[j as int]);
        i = i + 1;
    }
    assert forall|k: int| !occurs_at(hay@, needle@, k) by {
        if 0 <= k < i {
        }
    }
    false
}

/// The content type a request is read as when it names none.
pub open spec fn effective_content_type(content_type: Option<Seq<char>>) -> Seq<char> {
    match content_type {
        Some(c) => c,
        None => "application/json"@,
    }
}

/// Only JSON bodies are read: a request whose content type names protobuf
/// is refused with 415.
pub fn check_content_type(content_type: Option<&str>) -> (r: Result<(), (u16, ErrorResponse)>)
    ensures
        r is Err <==> contains_text(
            effective_content_type(
                match content_type {
                    Some(c) => Some(c@),
                    None => None,
                },
            ),
            "application/x-protobuf"@,
        ),
        r matches Err(e) ==> e.0 == STATUS_UNSUPPORTED_MEDIA_TYPE && e.1.error@
            == "Protobuf format not yet supported. Use application/json"@ && e.1.code@
            == "UNSUPPORTED_FORMAT"@,
{
    let ct = match content_type {
        Some(c) => c,
        None => "application/json",
    };
    if contains(ct, "application/x-protobuf") {
        return Err(
            (
                STATUS_UNSUPPORTED_MEDIA_TYPE,
                ErrorResponse {
                    error: "Protobuf format not yet supported. Use application/json".to_string(),
                    code: "UNSUPPORTED_FORMAT".to_string(),
                },
            ),
        );
    }
    Ok(())
}

/// The answer to a body that is no valid export request; `detail` is what
/// the JSON reader said.
pub fn invalid_json(detail: &str) -> (r: (u16, ErrorResponse))
    ensures
        r.0 == STATUS_BAD_REQUEST,
        r.1.error@ == "Invalid JSON: "@ + detail@,
        r.1.code@ == "INVALID_JSON"@,
{
    (
        STATUS_BAD_REQUEST,
        ErrorResponse {
            error: "Invalid JSON: ".to_string().concat(detail),
            code: "INVALID_JSON".to_string(),
        },
    )
}

/// The parts joined into one text, `sep` between each two.
pub open spec fn joined(parts: Seq<Seq<char>>, sep: Seq<char>) -> Seq<char>
    decreases parts.len(),
{
    if parts.len() == 0 {
        Seq::empty()
    } else if parts.len() == 1 {
        parts[0]
    } else {
        joined(parts.drop_last(), sep) + sep + parts.last()
    }
}

/// The view of each string of `v`.
pub open spec fn string_views(v: Seq<String>) -> Seq<Seq<char>> {
    Seq::new(v.len(), |i: int| v[i]@)
}

/// The errors joined by "; " (`[String]::join`).
pub fn join_errors(errors: &Vec<String>) -> (r: String)
    ensures
        r@ == joined(string_views(errors@), "; "@),
{
    let mut out = String::new();
    let n = errors.len();
    for i in 0..n
        invariant
            n == errors@.len(),
            out@ == joined(string_views(errors@).take(i as int), "; "@),
    {
        let ghost before = string_views(errors@).take(i as int);
        assert(string_views(errors@).take(i + 1).drop_last() == before);
        if i > 0 {
            out = out.concat("; ");
        }
        out = out.concat(errors[i].as_str());
        proof {
            if i == 0 {
                assert(out@ =~= joined(string_views(errors@).take(1), "; "@));
            }
        }
    }
    assert(string_views(errors@).take(n as int) == string_views(errors@));
    out
}

/// How many of the submitted records the store refused.
pub open spec fn rejected(submitted: int, accepted: int) -> int {
    submitted - accepted
}

/// The answer to an export of `submitted` log records of which the store
/// accepted `accepted`: a partial success, with the errors joined, only
/// when some were refused.
pub fn export_logs_response(submitted: usize, accepted: usize, errors: &Vec<String>) -> (r:
    ExportLogsServiceResponse)
    requires
        submitted <= i64::MAX,
        accepted <= i64::MAX,
    ensures
        rejected(submitted as int, accepted as int) > 0 <==> r.partial_success is Some,
        r.partial_success matches Some(p) ==> p.rejected_log_records == rejected(
            submitted as int,
            accepted as int,
        ) && p.error_message@ == joined(string_views(errors@), "; "@),
        submitted > accepted ==> (r.partial_success matches Some(p) && p.rejected_log_records
            == submitted - accepted),
        submitted <= accepted ==> r.partial_success is None,
{
    let rejected: i64 = (submitted as i64) - (accepted as i64);
    if rejected > 0 {
        ExportLogsServiceResponse {
            partial_success: Some(
                ExportLogsPartialSuccess {
                    rejected_log_records: rejected,
                    error_message: join_errors(errors),
                },
            ),
        }
    } else {
        ExportLogsServiceResponse { partial_success: None }
    }
}

/// The answer to an export of `submitted` metric data points of which the
/// store took `ingested`: a partial success, with an empty message, only
/// when some were refused.
pub fn export_metrics_response(submitted: usize, ingested: usize) -> (r:
    ExportMetricsServiceResponse)
    requires
        submitted <= i64::MAX,
        ingested <= i64::MAX,
    ensures
        rejected(submitted as int, ingested as int) > 0 <==> r.partial_success is Some,
        r.partial_success matches Some(p) ==> p.rejected_data_points == rejected(
            submitted as int,
            ingested as int,
        ) && p.error_message@ == Seq::<char>::empty(),
        submitted > ingested ==> (r.partial_success matches Some(p) && p.rejected_data_points
            == submitted - ingested),
        submitted <= ingested ==> r.partial_success is None,
{
    let rejected: i64 = (submitted as i64) - (ingested as i64);
    if rejected > 0 {
        ExportMetricsServiceResponse {
            partial_success: Some(
                ExportMetricsPartialSuccess {
                    rejected_data_points: rejected,
                    error_message: String::new(),
                },
            ),
        }
    } else {
        ExportMetricsServiceResponse { partial_success: None }
    }
}

/// The answer to an export of `submitted` spans of which the store took
/// `ingested`: a partial success, with an empty message, only when some
/// were refused.
pub fn export_traces_response(submitted: usize, ingested: usize) -> (r:
    ExportTraceServiceResponse)
    requires
        submitted <= i64::MAX,
        ingested <= i64::MAX,
    ensures
        rejected(submitted as int, ingested as int) > 0 <==> r.partial_success is Some,
        r.partial_success matches Some(p) ==> p.rejected_spans == rejected(
            submitted as int,
            ingested as int,
        ) && p.error_message@ == Seq::<char>::empty(),
        submitted > ingested ==> (r.partial_success matches Some(p) && p.rejected_spans == submitted
            - ingested),
        submitted <= ingested ==> r.partial_success is None,
{
    let rejected: i64 = (submitted as i64) - (ingested as i64);
    if rejected > 0 {
        ExportTraceServiceResponse {
            partial_success: Some(
                ExportTracePartialSuccess {
                    rejected_spans: rejected,
                    error_message: String::new(),
                },
            ),
        }
    } else {
        ExportTraceServiceResponse { partial_success: None }
    }
}

/// Why a store refused an ingestion.
#[derive(Debug, Clone)]
pub enum IngestError {
    ProjectNotFound,
    ProjectDeleted,
    InternalError(String),
    /// Any other refusal, with the store's reason.
    Invalid(String),
}

/// The status and message that answer a refused ingestion.
pub open spec fn ingest_error_answer(e: IngestError) -> (u16, Seq<char>) {
    match e {
        IngestError::ProjectNotFound => (STATUS_NOT_FOUND, "Project not found"@),
        IngestError::ProjectDeleted => (STATUS_NOT_FOUND, "Project not found"@),
        IngestError::InternalError(_) => (STATUS_INTERNAL_SERVER_ERROR, "Internal error"@),
        IngestError::Invalid(_) => (STATUS_BAD_REQUEST, "Invalid request"@),
    }
}

/// The answer to a refused ingestion: a missing or deleted project is 404,
/// an internal error 500 (its detail is not shown), anything else 400; the
/// code is always `INGESTION_ERROR`.
pub fn ingestion_failure(e: &IngestError) -> (r: (u16, ErrorResponse))
    ensures
        r.0 == ingest_error_answer(*e).0,
        r.1.error@ == ingest_error_answer(*e).1,
        r.1.code@ == "INGESTION_ERROR"@,
        (*e is ProjectNotFound || *e is ProjectDeleted) ==> r.0 == 404 && r.1.error@
            == "Project not found"@,
        *e is InternalError ==> r.0 == 500 && r.1.error@ == "Internal error"@,
        *e is Invalid ==> r.0 == 400 && r.1.error@ == "Invalid request"@,
{
    let (status, msg) = match e {
        IngestError::ProjectNotFound => (STATUS_NOT_FOUND, "Project not found"),
        IngestError::ProjectDeleted => (STATUS_NOT_FOUND, "Project not found"),
        IngestError::InternalError(_) => (STATUS_INTERNAL_SERVER_ERROR, "Internal error"),
        IngestError::Invalid(_) => (STATUS_BAD_REQUEST, "Invalid request"),
    };
    (status, ErrorResponse { error: msg.to_string(), code: "INGESTION_ERROR".to_string() })
}

} // verus!
