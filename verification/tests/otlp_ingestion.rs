use backend::otlp::conversion::{
    convert_metric, event_times, log_timestamp, non_empty, point_facts, span_start_time,
    span_status_fields, MetricText, PointShape, PointText,
};
use backend::otlp::http::{
    check_content_type, contains, export_logs_response, export_metrics_response,
    export_traces_response, invalid_json, join_errors,
};
use backend::otlp::numbers::{parse_bucket_counts, parse_count, parse_i64, parse_nano_timestamp};
use backend::otlp::tags::{extract_tags, TagSource};
use backend::otlp::types::{
    get_service_name, get_service_version, kind_to_string, severity_to_level, ResourceAttribute,
    SpanStatus,
};
use backend::time::{Timestamp, MAX_TIMESTAMP_SECS, MIN_TIMESTAMP_SECS};

fn tag(key: &str, text: Option<&str>) -> TagSource {
    TagSource { key: key.to_string(), text: text.map(|t| t.to_string()) }
}

#[test]
fn parses_i64_like_std() {
    for s in ["0", "42", "-17", "+5", "9223372036854775807", "-9223372036854775808", "007"] {
        assert_eq!(parse_i64(s), s.parse::<i64>().ok(), "{}", s);
    }
    for s in ["", "-", "+", "12a", " 1", "9223372036854775808", "-9223372036854775809", "1.5", "--1"] {
        assert_eq!(parse_i64(s), None, "{}", s);
        assert!(s.parse::<i64>().is_err());
    }
}

#[test]
fn nano_timestamps_split_as_rust_divides() {
    assert_eq!(
        parse_nano_timestamp("1704067200000000000"),
        Some(Timestamp { secs: 1704067200, nanos: 0 })
    );
    assert_eq!(parse_nano_timestamp("1500000001"), Some(Timestamp { secs: 1, nanos: 500000001 }));
    assert_eq!(parse_nano_timestamp("-2000000000"), Some(Timestamp { secs: -2, nanos: 0 }));
    assert_eq!(parse_nano_timestamp("-1"), None);
    assert_eq!(parse_nano_timestamp(""), None);
    assert_eq!(parse_nano_timestamp("soon"), None);
    assert_eq!(log_timestamp("", "5000000000"), Some(Timestamp { secs: 5, nanos: 0 }));
    assert_eq!(log_timestamp("1000000000", "5000000000"), Some(Timestamp { secs: 1, nanos: 0 }));
}

#[test]
fn chrono_range_matches_the_stated_bounds() {
    assert!(chrono::DateTime::from_timestamp(MAX_TIMESTAMP_SECS, 0).is_some());
    assert!(chrono::DateTime::from_timestamp(MAX_TIMESTAMP_SECS + 1, 0).is_none());
    assert!(chrono::DateTime::from_timestamp(MIN_TIMESTAMP_SECS, 0).is_some());
    assert!(chrono::DateTime::from_timestamp(MIN_TIMESTAMP_SECS - 1, 0).is_none());
    assert_eq!(parse_nano_timestamp("59500000000"), Some(Timestamp { secs: 59, nanos: 500_000_000 }));
    assert_eq!(parse_nano_timestamp("9223372036854775807"), Some(Timestamp { secs: 9_223_372_036, nanos: 854_775_807 }));
}

#[test]
fn counts_read_or_default() {
    assert_eq!(parse_count("12"), 12);
    assert_eq!(parse_count("x"), 0);
    assert_eq!(parse_count("18446744073709551615"), 0);
    let counts = vec!["1".to_string(), "bad".to_string(), "3".to_string()];
    assert_eq!(parse_bucket_counts(&counts), vec![1, 3]);
}

#[test]
fn levels_kinds_and_statuses() {
    assert_eq!(severity_to_level(9, ""), "INFO");
    assert_eq!(severity_to_level(1, ""), "TRACE");
    assert_eq!(severity_to_level(8, ""), "DEBUG");
    assert_eq!(severity_to_level(13, ""), "WARN");
    assert_eq!(severity_to_level(20, ""), "ERROR");
    assert_eq!(severity_to_level(24, ""), "FATAL");
    assert_eq!(severity_to_level(0, ""), "INFO");
    assert_eq!(severity_to_level(25, ""), "INFO");
    assert_eq!(severity_to_level(17, "warning"), "WARNING");
    assert_eq!(kind_to_string(2), "server");
    assert_eq!(kind_to_string(5), "consumer");
    assert_eq!(kind_to_string(9), "internal");
    assert_eq!(SpanStatus { code: 2, message: String::new() }.code_to_string(), "error");
    assert_eq!(SpanStatus { code: 7, message: String::new() }.code_to_string(), "unset");
    let status = SpanStatus { code: 1, message: "done".to_string() };
    assert_eq!(span_status_fields(Some(&status)), (Some("ok".to_string()), Some("done".to_string())));
    let quiet = SpanStatus { code: 0, message: String::new() };
    assert_eq!(span_status_fields(Some(&quiet)), (Some("unset".to_string()), None));
    assert_eq!(span_status_fields(None), (None, None));
    assert_eq!(span_start_time("3000000000"), Timestamp { secs: 3, nanos: 0 });
    assert!(span_start_time("").secs > 1_600_000_000);
    let kept = event_times(&vec!["1000000000".to_string(), "x".to_string(), "2000000000".to_string()]);
    assert_eq!(kept, vec![(0, Timestamp { secs: 1, nanos: 0 }), (2, Timestamp { secs: 2, nanos: 0 })]);
}

#[test]
fn service_lookup_takes_the_first_matching_key() {
    let attrs = vec![
        ResourceAttribute { key: "host".to_string(), string_value: Some("h".to_string()) },
        ResourceAttribute { key: "service.name".to_string(), string_value: Some("api".to_string()) },
        ResourceAttribute { key: "service.name".to_string(), string_value: Some("other".to_string()) },
        ResourceAttribute { key: "service.version".to_string(), string_value: None },
        ResourceAttribute { key: "service.version".to_string(), string_value: Some("2".to_string()) },
    ];
    assert_eq!(get_service_name(&attrs), Some("api".to_string()));
    assert_eq!(get_service_version(&attrs), None);
    assert_eq!(get_service_name(&vec![]), None);
}

#[test]
fn tags_prefix_resource_attributes_and_later_keys_win() {
    let resource = vec![tag("service.name", Some("api")), tag("empty", None)];
    let attrs = vec![tag("route", Some("/a")), tag("route", Some("/b")), tag("code", Some("200"))];
    let mut tags = extract_tags(&attrs, Some(&resource));
    tags.sort();
    assert_eq!(
        tags,
        vec![
            ("code".to_string(), "200".to_string()),
            ("resource.service.name".to_string(), "api".to_string()),
            ("route".to_string(), "/b".to_string()),
        ]
    );
    assert!(extract_tags(&vec![], None).is_empty());
}

#[test]
fn metric_points_keep_their_kind_counts_and_links() {
    let metric = MetricText { name: "requests".to_string(), unit: String::new(), description: "all".to_string() };
    let sum = PointText {
        time_unix_nano: "2000000000".to_string(),
        attributes: vec![],
        shape: PointShape::Sum { is_monotonic: true, first_exemplar: Some(("t1".to_string(), String::new())) },
    };
    let facts = point_facts(&metric, &sum, None);
    assert_eq!(facts.metric_type, "counter");
    assert_eq!(facts.unit, None);
    assert_eq!(facts.description, Some("all".to_string()));
    assert_eq!(facts.timestamp, Some(Timestamp { secs: 2, nanos: 0 }));
    assert_eq!(facts.trace_id, Some("t1".to_string()));
    assert_eq!(facts.span_id, None);
    let gauge_sum = PointText {
        time_unix_nano: String::new(),
        attributes: vec![],
        shape: PointShape::Sum { is_monotonic: false, first_exemplar: None },
    };
    assert_eq!(point_facts(&metric, &gauge_sum, None).metric_type, "gauge");
    let hist = PointText {
        time_unix_nano: String::new(),
        attributes: vec![],
        shape: PointShape::Histogram { count: "7".to_string(), bucket_counts: vec!["3".to_string(), "4".to_string()] },
    };
    let summary = PointText {
        time_unix_nano: String::new(),
        attributes: vec![],
        shape: PointShape::Summary { count: "x".to_string(), quantiles: 3 },
    };
    let mut out = Vec::new();
    convert_metric(&metric, &vec![PointText { time_unix_nano: String::new(), attributes: vec![], shape: PointShape::Gauge }, hist, summary], None, &mut out);
    assert_eq!(out.len(), 3);
    assert_eq!(out[0].metric_type, "gauge");
    assert_eq!(out[0].bucket_counts, None);
    assert_eq!(out[1].metric_type, "histogram");
    assert_eq!(out[1].bucket_counts, Some(vec![3, 4]));
    assert_eq!(out[1].histogram_count, Some(7));
    assert_eq!(out[2].bucket_counts, Some(vec![0, 0, 0]));
    assert_eq!(out[2].histogram_count, Some(0));
}

#[test]
fn request_format_and_export_answers() {
    assert!(contains("application/x-protobuf; charset=x", "x-protobuf"));
    assert!(!contains("json", "application/json"));
    assert!(contains("abc", ""));
    let refused = check_content_type(Some("application/x-protobuf")).unwrap_err();
    assert_eq!(refused.0, 415);
    assert_eq!(refused.1.code, "UNSUPPORTED_FORMAT");
    assert_eq!(refused.1.error, "Protobuf format not yet supported. Use application/json");
    assert!(check_content_type(None).is_ok());
    assert!(check_content_type(Some("text/plain")).is_ok());
    let bad = invalid_json("expected value at line 1");
    assert_eq!((bad.0, bad.1.error.as_str(), bad.1.code.as_str()), (400, "Invalid JSON: expected value at line 1", "INVALID_JSON"));
    assert_eq!(join_errors(&vec!["a".to_string(), "b".to_string(), "c".to_string()]), "a; b; c");
    assert_eq!(join_errors(&vec![]), "");
    let errors = vec!["too old".to_string(), "bad name".to_string()];
    let logs = export_logs_response(5, 3, &errors);
    let p = logs.partial_success.unwrap();
    assert_eq!(p.rejected_log_records, 2);
    assert_eq!(p.error_message, "too old; bad name");
    assert!(export_logs_response(5, 5, &errors).partial_success.is_none());
    assert!(export_metrics_response(2, 3).partial_success.is_none());
    let metrics = export_metrics_response(4, 1).partial_success.unwrap();
    assert_eq!(metrics.rejected_data_points, 3);
    assert_eq!(metrics.error_message, "");
    let spans = export_traces_response(4, 0).partial_success.unwrap();
    assert_eq!(spans.rejected_spans, 4);
    assert_eq!(spans.error_message, "");
    assert_eq!(non_empty(""), None);
}
