//! What the span of a served HTTP request is told of the request's outcome.

use crate::span::{RecordText, SpanRecorder, SpanValueText};
use vstd::prelude::*;

verus! {

/// An error as a span is told of it: its message, and the message of its
/// source, if it has one.
#[derive(Clone, Debug, PartialEq, Eq)]
pub struct ErrorReport {
    pub message: String,
    pub source: Option<String>,
}

/// Whether the status code `status` tells of an error of the server: one of
/// the codes from 500 to 599.
pub open spec fn is_server_error(status: u16) -> bool {
    500 <= status < 600
}

/// The notes for a response of status `status`: the status code, under both
/// of its names, and then, for an error of the server only, the error status
/// of the span. The status of the span is left unset for every other code.
pub open spec fn response_records(status: u16) -> Seq<RecordText> {
    let codes = seq![
        ("http.response.status_code"@, SpanValueText::Code(status)),
        ("http.status_code"@, SpanValueText::Code(status)),
    ];
    if is_server_error(status) {
        codes.push(("otel.status_code"@, SpanValueText::Text("ERROR"@)))
    } else {
        codes
    }
}

/// The notes for a request that failed with an error of message `message`:
/// the error status of the span, the message of the error, and then, where
/// the error has a source, the message of the source in its place.
pub open spec fn error_records(message: Seq<char>, source: Option<Seq<char>>) -> Seq<RecordText> {
    let notes = seq![
        ("otel.status_code"@, SpanValueText::Text("ERROR"@)),
        ("exception.message"@, SpanValueText::Text(message)),
    ];
    match source {
        Some(source) => notes.push(("exception.message"@, SpanValueText::Text(source))),
        None => notes,
    }
}

/// The message of the source of `error`, if it has one, as the contracts
/// speak of it.
pub open spec fn source_text(error: ErrorReport) -> Option<Seq<char>> {
    match error.source {
        Some(source) => Some(source@),
        None => None,
    }
}

/// Tells the span of the response that the request got: its status.
pub fn update_span_from_response(span: &mut SpanRecorder, status: u16)
    ensures
        final(span)@ == old(span)@ + response_records(status),
{
    span.record_code("http.response.status_code", status);
    span.record_code("http.status_code", status);
    if status >= 500 && status < 600 {
        span.record_text("otel.status_code", "ERROR");
    }
    assert(span@ =~= old(span)@ + response_records(status));
}

/// Tells the span of the error that the request failed with.
pub fn update_span_from_error(span: &mut SpanRecorder, error: &ErrorReport)
    ensures
        final(span)@ == old(span)@ + error_records(error.message@, source_text(*error)),
{
    span.record_text("otel.status_code", "ERROR");
    span.record_text("exception.message", error.message.as_str());
    match &error.source {
        Some(source) => {
            span.record_text("exception.message", source.as_str());
        },
        None => {},
    }
    assert(span@ =~= old(span)@ + error_records(error.message@, source_text(*error)));
}

/// Tells the span how the request ended: with a response of some status, or
/// with an error.
pub fn update_span_from_response_or_error(
    span: &mut SpanRecorder,
    response: &Result<u16, ErrorReport>,
)
    ensures
        final(span)@ == old(span)@ + match *response {
            Ok(status) => response_records(status),
            Err(error) => error_records(error.message@, source_text(error)),
        },
{
    match response {
        Ok(status) => {
            update_span_from_response(span, *status);
        },
        Err(error) => {
            update_span_from_error(span, error);
        },
    }
}

} // verus!
