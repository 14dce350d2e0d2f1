use backend::otlp::http::{ingestion_failure, IngestError};
use backend::otlp::records::{
    convert_log_records, convert_spans, log_record_facts, span_facts, value_text_of, AttrOrigin,
    LogMessage, LogRecordText, SpanText, ValueText,
};
use backend::otlp::types::{ResourceAttribute, SpanStatus};
use backend::time::Timestamp;

fn empty_value() -> ValueText {
    ValueText {
        string_value: None,
        bool_value: None,
        int_value: None,
        double_bits: None,
        has_array: false,
        has_kvlist: false,
        bytes_value: None,
    }
}

fn string_value(s: &str) -> ValueText {
    ValueText { string_value: Some(s.to_string()), ..empty_value() }
}

fn service(name: &str) -> Vec<ResourceAttribute> {
    vec![ResourceAttribute { key: "service.name".to_string(), string_value: Some(name.to_string()) }]
}

fn record(body: Option<ValueText>, keys: &[&str]) -> LogRecordText {
    LogRecordText {
        time_unix_nano: "1704067200000000000".to_string(),
        observed_time_unix_nano: String::new(),
        severity_number: 9,
        severity_text: String::new(),
        body,
        attribute_keys: keys.iter().map(|k| k.to_string()).collect(),
        trace_id: String::new(),
        span_id: String::new(),
    }
}

fn message_text(m: &LogMessage) -> Option<&str> {
    match m {
        LogMessage::Text(s) => Some(s.as_str()),
        LogMessage::BodyJson => None,
    }
}

#[test]
fn test_convert_simple_log() {
    let resource = service("test-service");
    let records = vec![record(Some(string_value("Test log message")), &[])];
    let mut logs = Vec::new();
    convert_log_records(Some(&resource), &records, &mut logs);
    assert_eq!(logs.len(), 1);
    assert_eq!(logs[0].level, "INFO");
    assert_eq!(message_text(&logs[0].message), Some("Test log message"));
    assert_eq!(logs[0].source, Some("test-service".to_string()));
    assert_eq!(logs[0].timestamp, Some(Timestamp { secs: 1704067200, nanos: 0 }));
    assert_eq!(logs[0].metadata, Some(vec![("resource.service.name".to_string(), AttrOrigin::Resource(0))]));
    assert!(logs[0].trace_id.is_none());
}

#[test]
fn test_convert_simple_span() {
    let resource = service("test-service");
    let spans = vec![SpanText {
        trace_id: "abc123".to_string(),
        span_id: "def456".to_string(),
        parent_span_id: String::new(),
        name: "test-operation".to_string(),
        kind: 2,
        start_time_unix_nano: "1704067200000000000".to_string(),
        end_time_unix_nano: "1704067201000000000".to_string(),
        status: Some(SpanStatus { code: 1, message: String::new() }),
        event_times: vec![],
        links: vec![],
    }];
    let mut out = Vec::new();
    convert_spans(Some(&resource), &spans, &mut out);
    assert_eq!(out.len(), 1);
    assert_eq!(out[0].trace_id, "abc123");
    assert_eq!(out[0].span_id, "def456");
    assert_eq!(out[0].name, "test-operation");
    assert_eq!(out[0].kind, "server".to_string());
    assert_eq!(out[0].status, Some("ok".to_string()));
    assert_eq!(out[0].service_name, Some("test-service".to_string()));
    assert_eq!(out[0].start_time, Timestamp { secs: 1704067200, nanos: 0 });
    assert_eq!(out[0].end_time, Some(Timestamp { secs: 1704067201, nanos: 0 }));
    assert!(out[0].parent_span_id.is_none());
    assert!(out[0].status_message.is_none());
    assert!(out[0].service_version.is_none());
}

#[test]
fn values_read_as_text_in_json_order() {
    assert_eq!(value_text_of(&string_value("hi")), Some("hi".to_string()));
    assert_eq!(value_text_of(&ValueText { bool_value: Some(true), ..empty_value() }), Some("true".to_string()));
    let int = |s: &str| ValueText { int_value: Some(s.to_string()), ..empty_value() };
    assert_eq!(value_text_of(&int("+42")), Some("42".to_string()));
    assert_eq!(value_text_of(&int("-9223372036854775808")), Some("-9223372036854775808".to_string()));
    assert_eq!(value_text_of(&int("12x")), Some("12x".to_string()));
    let double = |d: f64| ValueText { double_bits: Some(d.to_bits()), ..empty_value() };
    assert_eq!(value_text_of(&double(1.5)), None);
    assert_eq!(value_text_of(&double(f64::NAN)), Some("null".to_string()));
    assert_eq!(value_text_of(&double(f64::INFINITY)), Some("null".to_string()));
    assert_eq!(value_text_of(&ValueText { has_array: true, ..empty_value() }), None);
    assert_eq!(value_text_of(&ValueText { has_kvlist: true, ..empty_value() }), None);
    assert_eq!(value_text_of(&ValueText { bytes_value: Some("AQI=".to_string()), ..empty_value() }), Some("AQI=".to_string()));
    assert_eq!(value_text_of(&empty_value()), Some("null".to_string()));
    // The string wins over every other field.
    assert_eq!(value_text_of(&ValueText { bool_value: Some(false), ..string_value("s") }), Some("s".to_string()));
}

#[test]
fn log_message_level_and_metadata() {
    let resource = vec![
        ResourceAttribute { key: "host".to_string(), string_value: Some("a".to_string()) },
        ResourceAttribute { key: "service.name".to_string(), string_value: None },
    ];
    let mut rec = record(None, &["user", "resource.host"]);
    rec.severity_text = "warning".to_string();
    rec.time_unix_nano = String::new();
    rec.observed_time_unix_nano = "2000000000".to_string();
    rec.trace_id = "t1".to_string();
    let f = log_record_facts(Some(&resource), &rec);
    assert_eq!(f.level, "WARNING");
    assert_eq!(message_text(&f.message), Some(""));
    assert_eq!(f.timestamp, Some(Timestamp { secs: 2, nanos: 0 }));
    assert_eq!(f.source, None);
    assert_eq!(f.trace_id, Some("t1".to_string()));
    assert_eq!(f.span_id, None);
    assert_eq!(
        f.metadata,
        Some(vec![
            ("resource.host".to_string(), AttrOrigin::Resource(0)),
            ("resource.service.name".to_string(), AttrOrigin::Resource(1)),
            ("user".to_string(), AttrOrigin::Record(0)),
            ("resource.host".to_string(), AttrOrigin::Record(1)),
        ])
    );
    let json_body = record(Some(ValueText { has_kvlist: true, ..empty_value() }), &[]);
    let f = log_record_facts(None, &json_body);
    assert!(matches!(f.message, LogMessage::BodyJson));
    assert!(f.metadata.is_none());
    assert_eq!(f.source, None);
}

#[test]
fn span_events_links_and_missing_start() {
    let span = SpanText {
        trace_id: "t".to_string(),
        span_id: "s".to_string(),
        parent_span_id: "p".to_string(),
        name: "op".to_string(),
        kind: 9,
        start_time_unix_nano: "soon".to_string(),
        end_time_unix_nano: String::new(),
        status: Some(SpanStatus { code: 2, message: "boom".to_string() }),
        event_times: vec!["5".to_string(), "bad".to_string(), "7000000000".to_string()],
        links: vec![("lt".to_string(), "ls".to_string())],
    };
    let f = span_facts(None, &span);
    assert_eq!(f.parent_span_id, Some("p".to_string()));
    assert_eq!(f.kind, "internal");
    assert_eq!(f.end_time, None);
    assert_eq!(f.status, Some("error".to_string()));
    assert_eq!(f.status_message, Some("boom".to_string()));
    assert_eq!(f.events, vec![(0, Timestamp { secs: 0, nanos: 5 }), (2, Timestamp { secs: 7, nanos: 0 })]);
    assert_eq!(f.links, vec![("lt".to_string(), "ls".to_string())]);
    assert!(f.start_time.secs > 1_700_000_000);
    assert_eq!((f.service_name, f.service_version), (None, None));
}

#[test]
fn refused_ingestions_are_answered() {
    for (e, status, msg) in [
        (IngestError::ProjectNotFound, 404, "Project not found"),
        (IngestError::ProjectDeleted, 404, "Project not found"),
        (IngestError::InternalError("db down".to_string()), 500, "Internal error"),
        (IngestError::Invalid("bad".to_string()), 400, "Invalid request"),
    ] {
        let (s, body) = ingestion_failure(&e);
        assert_eq!(s, status);
        assert_eq!(body.error, msg);
        assert_eq!(body.code, "INGESTION_ERROR");
    }
}

#[test]
fn white_space_trims_as_std_does() {
    for u in 0u32..0x4000 {
        if let Some(c) = char::from_u32(u) {
            let s = format!("{c}x{c}");
            assert_eq!(backend::text::trimmed(&s), s.trim(), "U+{:04X}", u);
        }
    }
}
