use dogdata::config::{dd_enabled, log_filter_directives};
use dogdata::connection::ConnectionInfo;
use dogdata::context::TraceContext;
use dogdata::formatter::DatadogFormatter;
use dogdata::http_server::{
    update_span_from_error, update_span_from_response, update_span_from_response_or_error,
    ErrorReport,
};
use dogdata::ids::{DatadogId, SpanId, TraceId};
use dogdata::span::{SpanRecord, SpanRecorder, SpanValue};
use dogdata::vendor::{OtelData, SpanBuilder};

fn code(field: &str, value: u16) -> SpanRecord {
    SpanRecord { field: field.to_string(), value: SpanValue::Code(value) }
}

fn text(field: &str, value: &str) -> SpanRecord {
    SpanRecord { field: field.to_string(), value: SpanValue::Text(value.to_string()) }
}

#[test]
fn a_response_notes_its_status() {
    for status in [100u16, 200, 302, 404, 499, 600, 999] {
        let mut span = SpanRecorder::new();

        update_span_from_response(&mut span, status);

        assert_eq!(
            span.records,
            vec![code("http.response.status_code", status), code("http.status_code", status)]
        );
    }
}

#[test]
fn a_server_error_sets_the_span_status() {
    for status in [500u16, 503, 599] {
        let mut span = SpanRecorder::new();

        update_span_from_response(&mut span, status);

        assert_eq!(
            span.records,
            vec![
                code("http.response.status_code", status),
                code("http.status_code", status),
                text("otel.status_code", "ERROR"),
            ]
        );
        assert_eq!(http::StatusCode::from_u16(status).unwrap().is_server_error(), true);
    }
    assert!(!http::StatusCode::from_u16(499).unwrap().is_server_error());
    assert!(!http::StatusCode::from_u16(600).unwrap().is_server_error());
}

#[test]
fn an_error_notes_its_message() {
    let mut span = SpanRecorder::new();
    let error = ErrorReport { message: "connection reset".to_string(), source: None };

    update_span_from_error(&mut span, &error);

    assert_eq!(
        span.records,
        vec![text("otel.status_code", "ERROR"), text("exception.message", "connection reset")]
    );
}

#[test]
fn an_error_with_a_source_notes_the_source_last() {
    let mut span = SpanRecorder::new();
    let error = ErrorReport {
        message: "request failed".to_string(),
        source: Some("broken pipe".to_string()),
    };

    update_span_from_error(&mut span, &error);

    assert_eq!(
        span.records,
        vec![
            text("otel.status_code", "ERROR"),
            text("exception.message", "request failed"),
            text("exception.message", "broken pipe"),
        ]
    );
}

#[test]
fn an_outcome_is_noted_after_what_was_noted_before() {
    let mut span = SpanRecorder::new();
    span.record_text("request_id", "42");

    update_span_from_response_or_error(&mut span, &Ok(500));
    update_span_from_response_or_error(
        &mut span,
        &Err(ErrorReport { message: "late".to_string(), source: None }),
    );

    assert_eq!(
        span.records,
        vec![
            text("request_id", "42"),
            code("http.response.status_code", 500),
            code("http.status_code", 500),
            text("otel.status_code", "ERROR"),
            text("otel.status_code", "ERROR"),
            text("exception.message", "late"),
        ]
    );
}

#[test]
fn a_recorder_keeps_its_notes_in_order() {
    let mut span = SpanRecorder::new();
    assert!(span.records.is_empty());

    span.record_code("a", 1);
    span.record_text("b", "two");
    span.record_code("a", 3);

    assert_eq!(span.records, vec![code("a", 1), text("b", "two"), code("a", 3)]);
}

#[test]
fn an_event_in_a_traced_span_gets_both_identifiers() {
    let data = OtelData {
        parent_cx: None,
        builder: SpanBuilder {
            trace_id: Some(TraceId(0x2de7888d8f42abc9c7ba048b78f7a9fb)),
            span_id: Some(SpanId(0x58406520a0066491)),
        },
    };

    let entries = DatadogFormatter.trace_entries(Some(&data));

    assert_eq!(
        entries,
        vec![
            ("dd.span_id".to_string(), DatadogId(6359193864645272721)),
            ("dd.trace_id".to_string(), DatadogId(14391820556292303355)),
        ]
    );
}

#[test]
fn an_event_under_a_parent_gets_the_trace_of_the_parent() {
    let parent = TraceContext {
        trace_id: TraceId(9),
        span_id: SpanId(8),
        trace_flags: 0,
        is_remote: true,
    };
    let data = OtelData {
        parent_cx: Some(parent),
        builder: SpanBuilder { trace_id: None, span_id: Some(SpanId(7)) },
    };

    let entries = DatadogFormatter.trace_entries(Some(&data));

    assert_eq!(
        entries,
        vec![("dd.span_id".to_string(), DatadogId(7)), ("dd.trace_id".to_string(), DatadogId(9))]
    );
}

#[test]
fn an_event_outside_a_traced_span_gets_no_identifiers() {
    assert!(DatadogFormatter.trace_entries(None).is_empty());
}

#[test]
fn connection_info_of_postgres() {
    let configured = ConnectionInfo::postgres("db.internal", 5432, Some("orders"));
    let default = ConnectionInfo::postgres("localhost", 15432, None);

    assert_eq!(configured.host, "db.internal");
    assert_eq!(configured.port, 5432);
    assert_eq!(configured.database, "orders");
    assert_eq!(configured.system, "postgresql");
    assert_eq!(default.host, "localhost");
    assert_eq!(default.port, 15432);
    assert_eq!(default.database, "postgres");
    assert_eq!(default.system, "postgresql");
}

#[test]
fn connection_info_of_mysql() {
    let configured = ConnectionInfo::mysql("db.internal", 3306, Some("orders"));
    let default = ConnectionInfo::mysql("localhost", 13306, None);

    assert_eq!(configured.host, "db.internal");
    assert_eq!(configured.port, 3306);
    assert_eq!(configured.database, "orders");
    assert_eq!(configured.system, "mysql");
    assert_eq!(default.database, "mysql");
    assert_eq!(default.system, "mysql");
    assert_eq!(default.clone().port, 13306);
}

#[test]
fn traces_are_sent_only_when_switched_on() {
    assert!(dd_enabled(Some("true")));
    assert!(!dd_enabled(None));
    for setting in ["", "false", "TRUE", "True", "1", "true ", " true", "tru", "truee", "yes"] {
        assert!(!dd_enabled(Some(setting)), "{}", setting);
    }
}

#[test]
fn the_log_filter_has_its_defaults() {
    assert_eq!(log_filter_directives(None, None), "info,otel=debug");
    assert_eq!(log_filter_directives(Some("trace"), None), "trace,otel=debug");
    assert_eq!(log_filter_directives(None, Some("warn")), "info,otel=warn");
    assert_eq!(
        log_filter_directives(Some("warn,my_crate=debug"), Some("error")),
        "warn,my_crate=debug,otel=error"
    );
    assert_eq!(log_filter_directives(Some(""), Some("")), ",otel=");
}
