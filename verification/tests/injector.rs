use dogdata::carrier::{inject_fields, set_header, HeaderError, InjectError};
use dogdata::context::TraceContext;
use dogdata::ids::{SpanId, TraceId};
use dogdata::middleware::TracingMiddleware;
use dogdata::propagation::{
    inject_context, inject_traceparent, PropagationFormat, TraceContextFormat,
};
use dogdata::traceparent::parse_traceparent;
use http::header::{HeaderMap, HeaderName, HeaderValue};

struct DefaultSpanBackend;

fn active_context() -> TraceContext {
    TraceContext {
        trace_id: TraceId(0x2de7888d8f42abc9c7ba048b78f7a9fb),
        span_id: SpanId(0x58406520a0066491),
        trace_flags: 1,
        is_remote: false,
    }
}

fn values(headers: &HeaderMap, name: &str) -> Vec<Vec<u8>> {
    headers.get_all(name).iter().map(|value| value.as_bytes().to_vec()).collect()
}

fn field(name: &str, value: &str) -> (String, String) {
    (name.to_string(), value.to_string())
}

fn full_map() -> HeaderMap {
    let mut headers = HeaderMap::new();
    let mut count = 0u32;
    loop {
        let name = HeaderName::from_bytes(format!("x-filler-{}", count).as_bytes()).unwrap();
        if headers.try_insert(name, HeaderValue::from_static("v")).is_err() {
            return headers;
        }
        count += 1;
        assert!(count <= 40000);
    }
}

#[test]
fn tracing_middleware_propagates_otel_data_even_when_the_span_is_disabled() {
    let middleware: TracingMiddleware<DefaultSpanBackend> = TracingMiddleware::new();
    let mut headers = HeaderMap::new();

    let injected =
        middleware.propagate(false, &TraceContextFormat, Some(&active_context()), &mut headers);

    assert_eq!(injected, Ok(()));
    assert!(
        headers.contains_key("traceparent"),
        "by default, the tracing middleware will propagate otel contexts"
    );
}

#[test]
fn context_no_propagated() {
    let middleware: TracingMiddleware<DefaultSpanBackend> = TracingMiddleware::new();
    let mut headers = HeaderMap::new();

    let injected =
        middleware.propagate(true, &TraceContextFormat, Some(&active_context()), &mut headers);

    assert_eq!(injected, Ok(()));
    assert!(
        !headers.contains_key("traceparent"),
        "request should not contain traceparent if context propagation is disabled"
    );
}

#[test]
fn disabled_propagation_leaves_the_headers_alone() {
    let middleware: TracingMiddleware<DefaultSpanBackend> = TracingMiddleware::new().clone();
    let mut headers = HeaderMap::new();
    headers.insert("traceparent", HeaderValue::from_static("stale"));
    headers.insert("accept", HeaderValue::from_static("*/*"));
    let before = headers.clone();

    let injected =
        middleware.propagate(true, &TraceContextFormat, Some(&active_context()), &mut headers);

    assert_eq!(injected, Ok(()));
    assert_eq!(headers, before);
    assert_eq!(middleware.propagate(true, &TraceContextFormat, None, &mut headers), Ok(()));
    assert_eq!(headers, before);
}

#[test]
fn no_context_no_headers() {
    let mut headers = HeaderMap::new();
    headers.insert("accept", HeaderValue::from_static("*/*"));
    let before = headers.clone();

    let injected = inject_context(&TraceContextFormat, None, &mut headers);

    assert_eq!(injected, Ok(()));
    assert_eq!(headers, before);
    assert_eq!(headers.len(), 1);
}

#[test]
fn invalid_context_is_not_injected() {
    let mut headers = HeaderMap::new();
    let no_trace = TraceContext { trace_id: TraceId::invalid(), ..active_context() };
    let no_span = TraceContext { span_id: SpanId::invalid(), ..active_context() };

    assert_eq!(inject_context(&TraceContextFormat, Some(&no_trace), &mut headers), Ok(()));
    assert_eq!(inject_context(&TraceContextFormat, Some(&no_span), &mut headers), Ok(()));

    assert!(headers.is_empty());
    assert!(TraceContextFormat.fields(&no_trace).is_empty());
}

#[test]
fn injected_traceparent_is_exact_and_can_be_read_back() {
    let mut headers = HeaderMap::new();
    let cx = active_context();

    let injected = inject_context(&TraceContextFormat, Some(&cx), &mut headers);

    assert_eq!(injected, Ok(()));
    assert_eq!(headers.len(), 1);
    let value = headers.get("traceparent").unwrap().to_str().unwrap();
    assert_eq!(value, "00-2de7888d8f42abc9c7ba048b78f7a9fb-58406520a0066491-01");
    assert_eq!(parse_traceparent(value), Some(TraceContext { is_remote: true, ..cx }));
}

#[test]
fn injection_overwrites_a_traceparent() {
    let mut headers = HeaderMap::new();
    headers.insert("traceparent", HeaderValue::from_static("00-old"));
    headers.append("traceparent", HeaderValue::from_static("00-older"));
    headers.insert("accept", HeaderValue::from_static("*/*"));

    let injected = inject_context(&TraceContextFormat, Some(&active_context()), &mut headers);

    assert_eq!(injected, Ok(()));
    assert_eq!(
        values(&headers, "traceparent"),
        vec![b"00-2de7888d8f42abc9c7ba048b78f7a9fb-58406520a0066491-01".to_vec()]
    );
    assert_eq!(values(&headers, "accept"), vec![b"*/*".to_vec()]);
    assert_eq!(headers.len(), 2);
}

#[test]
fn inject_traceparent_is_the_injector_in_that_format() {
    let mut ours = HeaderMap::new();
    let mut theirs = HeaderMap::new();
    ours.insert("traceparent", HeaderValue::from_static("00-old"));
    theirs.insert("traceparent", HeaderValue::from_static("00-old"));

    assert_eq!(inject_traceparent(None, &mut ours), Ok(()));
    assert_eq!(values(&ours, "traceparent"), vec![b"00-old".to_vec()]);

    assert_eq!(inject_traceparent(Some(&active_context()), &mut ours), Ok(()));
    assert_eq!(inject_context(&TraceContextFormat, Some(&active_context()), &mut theirs), Ok(()));

    assert_eq!(ours, theirs);
    assert_eq!(
        values(&ours, "traceparent"),
        vec![b"00-2de7888d8f42abc9c7ba048b78f7a9fb-58406520a0066491-01".to_vec()]
    );
}

#[test]
fn the_fields_of_the_traceparent_format() {
    let fields = TraceContextFormat.fields(&active_context());

    assert_eq!(
        fields,
        vec![field("traceparent", "00-2de7888d8f42abc9c7ba048b78f7a9fb-58406520a0066491-01")]
    );
}

#[test]
fn set_header_sets_the_one_value() {
    let mut headers = HeaderMap::new();

    assert_eq!(set_header(&mut headers, "x-one", "first"), Ok(()));
    assert_eq!(set_header(&mut headers, "x-one", "second"), Ok(()));
    assert_eq!(set_header(&mut headers, "x-two", "other"), Ok(()));

    assert_eq!(values(&headers, "x-one"), vec![b"second".to_vec()]);
    assert_eq!(values(&headers, "x-two"), vec![b"other".to_vec()]);
    assert_eq!(headers.len(), 2);
}

#[test]
fn set_header_turns_the_name_into_lower_case() {
    let mut headers = HeaderMap::new();
    headers.insert("traceparent", HeaderValue::from_static("old"));

    assert_eq!(set_header(&mut headers, "TraceParent", "New-Value"), Ok(()));

    assert_eq!(headers.keys().map(|name| name.as_str()).collect::<Vec<_>>(), vec!["traceparent"]);
    assert_eq!(values(&headers, "traceparent"), vec![b"New-Value".to_vec()]);
}

#[test]
fn set_header_takes_the_bytes_of_the_value() {
    let mut headers = HeaderMap::new();

    assert_eq!(set_header(&mut headers, "x-tab", "a\tb"), Ok(()));
    assert_eq!(set_header(&mut headers, "x-empty", ""), Ok(()));
    assert_eq!(set_header(&mut headers, "x-wide", "caf\u{e9}"), Ok(()));

    assert_eq!(values(&headers, "x-tab"), vec![b"a\tb".to_vec()]);
    assert_eq!(values(&headers, "x-empty"), vec![b"".to_vec()]);
    assert_eq!(values(&headers, "x-wide"), vec!["caf\u{e9}".as_bytes().to_vec()]);
}

#[test]
fn set_header_refuses_a_name_that_is_none() {
    let mut headers = HeaderMap::new();
    headers.insert("accept", HeaderValue::from_static("*/*"));
    let before = headers.clone();
    let longest = "a".repeat(65535);
    let too_long = "a".repeat(65536);

    for name in ["", "two words", "colon:", "caf\u{e9}", "new\nline", "quote\"", "a/b", "{a}", "a@b", too_long.as_str()] {
        assert_eq!(set_header(&mut headers, name, "v"), Err(HeaderError::InvalidHeaderName), "{}", name.len());
        assert_eq!(headers, before);
    }
    for name in ["a", "!#$%&'*+-.^_`|~", "0123456789", "ABCxyz", longest.as_str()] {
        assert_eq!(set_header(&mut headers, name, "v"), Ok(()), "{}", name.len());
    }
    assert_eq!(headers.len(), 6);
    assert!(headers.contains_key("abcxyz"));
}

#[test]
fn set_header_refuses_a_value_that_is_none() {
    let mut headers = HeaderMap::new();
    headers.insert("x-kept", HeaderValue::from_static("kept"));
    let before = headers.clone();

    for value in ["line\nbreak", "carriage\rreturn", "nul\0", "delete\u{7f}", "\u{1f}"] {
        assert_eq!(set_header(&mut headers, "x-kept", value), Err(HeaderError::InvalidHeaderValue));
        assert_eq!(headers, before);
    }
    assert_eq!(
        set_header(&mut headers, "bad name", "bad\nvalue"),
        Err(HeaderError::InvalidHeaderName)
    );
}

#[test]
fn inject_fields_sets_them_in_order() {
    let mut headers = HeaderMap::new();
    headers.insert("x-b", HeaderValue::from_static("old"));
    let fields = vec![field("x-a", "1"), field("X-B", "2"), field("x-a", "3")];

    assert_eq!(inject_fields(&mut headers, &fields), Ok(()));

    assert_eq!(values(&headers, "x-a"), vec![b"3".to_vec()]);
    assert_eq!(values(&headers, "x-b"), vec![b"2".to_vec()]);
    assert_eq!(headers.len(), 2);
    assert_eq!(inject_fields(&mut headers, &Vec::new()), Ok(()));
    assert_eq!(headers.len(), 2);
}

#[test]
fn inject_fields_writes_nothing_unless_all_can_be_written() {
    let mut headers = HeaderMap::new();
    headers.insert("x-a", HeaderValue::from_static("old"));
    let before = headers.clone();

    let bad_value = vec![field("x-a", "1"), field("x-b", "bad\nvalue"), field("bad name", "3")];
    assert_eq!(
        inject_fields(&mut headers, &bad_value),
        Err(InjectError { index: 1, error: HeaderError::InvalidHeaderValue })
    );
    assert_eq!(headers, before);

    let bad_name = vec![field("x-a", "1"), field("x-b", "2"), field("", "bad\nvalue")];
    assert_eq!(
        inject_fields(&mut headers, &bad_name),
        Err(InjectError { index: 2, error: HeaderError::InvalidHeaderName })
    );
    assert_eq!(headers, before);
}

#[test]
fn a_full_map_takes_no_more() {
    let mut headers = full_map();
    let before = headers.clone();
    assert!(!before.contains_key("traceparent"));

    assert_eq!(set_header(&mut headers, "traceparent", "v"), Err(HeaderError::MaxSizeReached));
    assert_eq!(headers, before);

    assert_eq!(
        inject_context(&TraceContextFormat, Some(&active_context()), &mut headers),
        Err(InjectError { index: 0, error: HeaderError::MaxSizeReached })
    );
    assert_eq!(headers, before);

    let middleware: TracingMiddleware<DefaultSpanBackend> = TracingMiddleware::new();
    assert_eq!(
        middleware.propagate(true, &TraceContextFormat, Some(&active_context()), &mut headers),
        Ok(())
    );
    assert_eq!(headers, before);
}

#[test]
fn header_names_agree_with_the_http_crate() {
    for byte in 0u8..=127 {
        let name = String::from_utf8(vec![b'x', byte]).unwrap();
        let mut headers = HeaderMap::new();
        let ours = set_header(&mut headers, &name, "v");
        let theirs = HeaderName::from_bytes(name.as_bytes());

        assert_eq!(ours.is_ok(), theirs.is_ok(), "{}", byte);
        if let Ok(theirs) = theirs {
            assert_eq!(headers.keys().next(), Some(&theirs));
            assert_eq!(theirs.as_str(), name.to_ascii_lowercase());
        }
    }
}

#[test]
fn header_values_agree_with_the_http_crate() {
    for code in 0u32..=0x17f {
        let value = char::from_u32(code).unwrap().to_string();
        let mut headers = HeaderMap::new();
        let ours = set_header(&mut headers, "x", &value);
        let theirs = HeaderValue::from_str(&value);

        assert_eq!(ours.is_ok(), theirs.is_ok(), "{}", code);
        assert_eq!(ours.is_ok(), code == 9 || (code >= 32 && code != 127), "{}", code);
        if let Ok(theirs) = theirs {
            assert_eq!(headers.get("x"), Some(&theirs));
            assert_eq!(theirs.as_bytes(), value.as_bytes());
        }
    }
}
