//! The parts of the OTLP messages that hold no floating-point value: the
//! export answers, span status and kind, log severity, and the service that
//! a resource names.

use vstd::prelude::*;
use crate::text::{str_equals, to_uppercase, unicode_uppercase};

verus! {

/// Answer to an export of logs.
#[derive(Debug, Clone)]
pub struct ExportLogsServiceResponse {
    pub partial_success: Option<ExportLogsPartialSuccess>,
}

/// How many log records an export refused, and why.
#[derive(Debug, Clone)]
pub struct ExportLogsPartialSuccess {
    pub rejected_log_records: i64,
    pub error_message: String,
}

/// Answer to an export of metrics.
#[derive(Debug, Clone)]
pub struct ExportMetricsServiceResponse {
    pub partial_success: Option<ExportMetricsPartialSuccess>,
}

/// How many metric data points an export refused, and why.
#[derive(Debug, Clone)]
pub struct ExportMetricsPartialSuccess {
    pub rejected_data_points: i64,
    pub error_message: String,
}

/// Answer to an export of spans.
#[derive(Debug, Clone)]
pub struct ExportTraceServiceResponse {
    pub partial_success: Option<ExportTracePartialSuccess>,
}

/// How many spans an export refused, and why.
#[derive(Debug, Clone)]
pub struct ExportTracePartialSuccess {
    pub rejected_spans: i64,
    pub error_message: String,
}

/// The buckets of one side of an exponential histogram: the index of the
/// first bucket, and the counts (unsigned 64-bit integers in decimal).
#[derive(Debug, Clone)]
pub struct Buckets {
    pub offset: i32,
    pub bucket_counts: Vec<String>,
}

/// The status of a span: 0 unset, 1 ok, 2 error.
#[derive(Debug, Clone)]
pub struct SpanStatus {
    pub code: i32,
    pub message: String,
}

/// The name of a span status code.
pub open spec fn status_name(code: i32) -> Seq<char> {
    if code == 1 {
        "ok"@
    } else if code == 2 {
        "error"@
    } else {
        "unset"@
    }
}

impl SpanStatus {
    pub fn code_to_string(&self) -> (r: &'static str)
        ensures
            r@ == status_name(self.code),
            self.code == 1 ==> r@ == "ok"@,
            self.code == 2 ==> r@ == "error"@,
            self.code != 1 && self.code != 2 ==> r@ == "unset"@,
    {
        match self.code {
            1 => "ok",
            2 => "error",
            _ => "unset",
        }
    }
}

/// The name of a span kind: 1 internal, 2 server, 3 client, 4 producer,
/// 5 consumer; any other number reads as internal.
pub open spec fn kind_name(kind: i32) -> Seq<char> {
    if kind == 2 {
        "server"@
    } else if kind == 3 {
        "client"@
    } else if kind == 4 {
        "producer"@
    } else if kind == 5 {
        "consumer"@
    } else {
        "internal"@
    }
}

/// The name of the kind of a span.
pub fn kind_to_string(kind: i32) -> (r: &'static str)
    ensures
        r@ == kind_name(kind),
        kind == 1 ==> r@ == "internal"@,
        kind == 2 ==> r@ == "server"@,
        kind == 3 ==> r@ == "client"@,
        kind == 4 ==> r@ == "producer"@,
        kind == 5 ==> r@ == "consumer"@,
        !(1 <= kind <= 5) ==> r@ == "internal"@,
{
    match kind {
        1 => "internal",
        2 => "server",
        3 => "client",
        4 => "producer",
        5 => "consumer",
        _ => "internal",
    }
}

/// The level of a severity number: 1-4 TRACE, 5-8 DEBUG, 9-12 INFO, 13-16
/// WARN, 17-20 ERROR, 21-24 FATAL; any other number reads as INFO.
pub open spec fn severity_level(number: i32) -> Seq<char> {
    if 1 <= number <= 4 {
        "TRACE"@
    } else if 5 <= number <= 8 {
        "DEBUG"@
    } else if 9 <= number <= 12 {
        "INFO"@
    } else if 13 <= number <= 16 {
        "WARN"@
    } else if 17 <= number <= 20 {
        "ERROR"@
    } else if 21 <= number <= 24 {
        "FATAL"@
    } else {
        "INFO"@
    }
}

/// The level of a log record: its severity text in upper case when it has
/// one, else the level of its severity number.
pub fn severity_to_level(severity_number: i32, severity_text: &str) -> (r: String)
    ensures
        severity_text@.len() > 0 ==> r@ == unicode_uppercase(severity_text@),
        severity_text@.len() == 0 ==> r@ == severity_level(severity_number),
        severity_text@.len() == 0 && 1 <= severity_number <= 4 ==> r@ == "TRACE"@,
        severity_text@.len() == 0 && 5 <= severity_number <= 8 ==> r@ == "DEBUG"@,
        severity_text@.len() == 0 && 9 <= severity_number <= 12 ==> r@ == "INFO"@,
        severity_text@.len() == 0 && 13 <= severity_number <= 16 ==> r@ == "WARN"@,
        severity_text@.len() == 0 && 17 <= severity_number <= 20 ==> r@ == "ERROR"@,
        severity_text@.len() == 0 && 21 <= severity_number <= 24 ==> r@ == "FATAL"@,
        severity_text@.len() == 0 && !(1 <= severity_number <= 24) ==> r@ == "INFO"@,
{
    if !severity_text.is_empty() {
        return to_uppercase(severity_text);
    }
    let level = if 1 <= severity_number && severity_number <= 4 {
        "TRACE"
    } else if 5 <= severity_number && severity_number <= 8 {
        "DEBUG"
    } else if 9 <= severity_number && severity_number <= 12 {
        "INFO"
    } else if 13 <= severity_number && severity_number <= 16 {
        "WARN"
    } else if 17 <= severity_number && severity_number <= 20 {
        "ERROR"
    } else if 21 <= severity_number && severity_number <= 24 {
        "FATAL"
    } else {
        "INFO"
    };
    level.to_string()
}

/// An attribute of a resource, as far as the service lookup reads it: its
/// key, and its value when that is a string.
#[derive(Debug, Clone)]
pub struct ResourceAttribute {
    pub key: String,
    pub string_value: Option<String>,
}

/// The string value of the first attribute named `key`, if there is such an
/// attribute and its value is a string.
pub open spec fn first_string_value(attrs: Seq<ResourceAttribute>, key: Seq<char>) -> Option<Seq<char>>
    decreases attrs.len(),
{
    if attrs.len() == 0 {
        None
    } else if attrs[0].key@ == key {
        match attrs[0].string_value {
            Some(v) => Some(v@),
            None => None,
        }
    } else {
        first_string_value(attrs.drop_first(), key)
    }
}

/// The string value of the first attribute named `key`.
fn first_string_attribute(attrs: &Vec<ResourceAttribute>, key: &str) -> (r: Option<String>)
    ensures
        match r {
            Some(v) => first_string_value(attrs@, key@) == Some(v@),
            None => first_string_value(attrs@, key@) is None,
        },
{
    let n = attrs.len();
    let mut i: usize = 0;
    assert(attrs@.skip(0) == attrs@);
    while i < n
        invariant
            n == attrs@.len(),
            i <= n,
            first_string_value(attrs@, key@) == first_string_value(attrs@.skip(i as int), key@),
        decreases n - i,
    {
        assert(attrs@.skip(i as int).drop_first() == attrs@.skip(i + 1));
        assert(attrs@.skip(i as int)[0] == attrs@[i as int]);
        if str_equals(attrs[i].key.as_str(), key) {
            return match &attrs[i].string_value {
                Some(v) => Some(v.clone()),
                None => None,
            };
        }
        i = i + 1;
    }
    None
}

/// The name of the service that a resource describes: its `service.name`
/// attribute.
pub fn get_service_name(attrs: &Vec<ResourceAttribute>) -> (r: Option<String>)
    ensures
        match r {
            Some(v) => first_string_value(attrs@, "service.name"@) == Some(v@),
            None => first_string_value(attrs@, "service.name"@) is None,
        },
{
    first_string_attribute(attrs, "service.name")
}

/// The version of the service that a resource describes: its
/// `service.version` attribute.
pub fn get_service_version(attrs: &Vec<ResourceAttribute>) -> (r: Option<String>)
    ensures
        match r {
            Some(v) => first_string_value(attrs@, "service.version"@) == Some(v@),
            None => first_string_value(attrs@, "service.version"@) is None,
        },
{
    first_string_attribute(attrs, "service.version")
}

} // verus!
