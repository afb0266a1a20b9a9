//! Handing the active trace context on to the next service: the context
//! injector and the formats that it writes.
//!
//! The injector is given the context, if one is active; it reads no ambient
//! state. Which header fields carry a context is the format's to say, so that
//! a vendor's format can stand in for the `traceparent` one.

use crate::carrier::{
    entries_with_fields, field_texts, inject_fields, is_field, is_injection, FieldText,
    HeaderError, InjectError,
};
use crate::context::TraceContext;
use crate::headers::{header_map_entries, is_name_byte, is_value_byte, lower_case};
use crate::traceparent::{format_traceparent, lemma_traceparent_chars, traceparent_text};
use http::header::{HeaderMap, HeaderValue};
use vstd::prelude::*;
use vstd::string::StringExecFns;
use vstd::utf8::{encode_utf8, is_ascii_chars, is_ascii_chars_encode_utf8};

verus! {

/// A propagation format: a way to write a trace context as header fields.
///
/// The trait asks nothing of a format but the fields. What the injector does
/// with them, whatever they are, is said by `is_injection`.
pub trait PropagationFormat {
    /// Writes the header fields that carry the context `cx`, in the order in
    /// which they are to be set.
    fn fields(&self, cx: &TraceContext) -> Vec<(String, String)>;
}

/// Whether the format `format` may write the fields `fields` for the context
/// `cx`.
pub open spec fn writes_fields<F: PropagationFormat>(
    format: &F,
    cx: &TraceContext,
    fields: Vec<(String, String)>,
) -> bool {
    call_ensures(F::fields, (format, cx), fields)
}

/// The format of a single `traceparent` header.
#[derive(Clone, Copy, Debug, PartialEq, Eq, Structural)]
pub struct TraceContextFormat;

/// The name of the header that carries a trace context.
pub open spec fn traceparent_name() -> Seq<char> {
    "traceparent"@
}

/// The header fields that carry the context `cx` in a `traceparent` header:
/// the one field for a valid context, none for an invalid one, which is not
/// handed on.
pub open spec fn traceparent_fields(cx: TraceContext) -> Seq<FieldText> {
    if cx.is_valid() {
        seq![(traceparent_name(), traceparent_text(cx))]
    } else {
        Seq::<FieldText>::empty()
    }
}

impl PropagationFormat for TraceContextFormat {
    fn fields(&self, cx: &TraceContext) -> (fields: Vec<(String, String)>)
        ensures
            field_texts(fields@) == traceparent_fields(*cx),
    {
        let mut fields: Vec<(String, String)> = Vec::new();
        if cx.is_valid() {
            fields.push((String::from_str("traceparent"), format_traceparent(cx)));
        }
        assert(field_texts(fields@) =~= traceparent_fields(*cx));
        fields
    }
}

/// The context injector: sets in `headers` the header fields that carry the
/// context `cx` in the format `format`.
///
/// Without a context nothing is set. With one, the fields that the format
/// writes for it are set one after the other, each in place of whatever
/// values its header had.
pub fn inject_context<F: PropagationFormat>(
    format: &F,
    cx: Option<&TraceContext>,
    headers: &mut HeaderMap<HeaderValue>,
) -> (injected: Result<(), InjectError>)
    ensures
        is_context_injection(
            format,
            cx,
            header_map_entries(*old(headers)),
            header_map_entries(*final(headers)),
            injected,
        ),
{
    match cx {
        Some(cx) => {
            let fields = format.fields(cx);
            assert(writes_fields(format, cx, fields));
            inject_fields(headers, &fields)
        },
        None => Ok(()),
    }
}

/// Whether a header map that held `before` may hold `after` once the context
/// `cx` was to be injected in the format `format`, with `injected` for the
/// outcome: without a context the map is as it was and the outcome is
/// success; with one, this is the injection of fields that the format may
/// write for it.
pub open spec fn is_context_injection<F: PropagationFormat>(
    format: &F,
    cx: Option<&TraceContext>,
    before: Map<Seq<u8>, Seq<Seq<u8>>>,
    after: Map<Seq<u8>, Seq<Seq<u8>>>,
    injected: Result<(), InjectError>,
) -> bool {
    match cx {
        Some(cx) => exists|fields: Vec<(String, String)>|
            #[trigger] writes_fields(format, cx, fields) && is_injection(
                field_texts(fields@),
                before,
                after,
                injected,
            ),
        None => injected is Ok && after == before,
    }
}

/// The context injector in the `traceparent` format.
///
/// A valid context is written to the `traceparent` header, in place of
/// whatever values the header had; without a context, or with an invalid one,
/// the headers stay as they are.
pub fn inject_traceparent(cx: Option<&TraceContext>, headers: &mut HeaderMap<HeaderValue>) -> (injected:
    Result<(), InjectError>)
    ensures
        is_injection(
            match cx {
                Some(cx) => traceparent_fields(*cx),
                None => Seq::<FieldText>::empty(),
            },
            header_map_entries(*old(headers)),
            header_map_entries(*final(headers)),
            injected,
        ),
{
    let injected = inject_context(&TraceContextFormat, cx, headers);
    proof {
        lemma_traceparent_context_injection(
            cx,
            header_map_entries(*old(headers)),
            header_map_entries(*headers),
            injected,
        );
    }
    injected
}

/// What the injector does in the `traceparent` format: it injects the fields
/// of that format, none where there is no context.
pub proof fn lemma_traceparent_context_injection(
    cx: Option<&TraceContext>,
    before: Map<Seq<u8>, Seq<Seq<u8>>>,
    after: Map<Seq<u8>, Seq<Seq<u8>>>,
    injected: Result<(), InjectError>,
)
    requires
        is_context_injection(&TraceContextFormat, cx, before, after, injected),
    ensures
        is_injection(
            match cx {
                Some(cx) => traceparent_fields(*cx),
                None => Seq::<FieldText>::empty(),
            },
            before,
            after,
            injected,
        ),
{
    match cx {
        Some(cx) => {
            let fields = choose|fields: Vec<(String, String)>|
                #[trigger] writes_fields(&TraceContextFormat, cx, fields) && is_injection(
                    field_texts(fields@),
                    before,
                    after,
                    injected,
                );
            assert(field_texts(fields@) == traceparent_fields(*cx));
        },
        None => {},
    }
}

/// The `traceparent` field of any context can be written: its name is a
/// header name, already in lower case, and its value is a header value.
pub proof fn lemma_traceparent_field_can_be_written(cx: TraceContext)
    ensures
        is_field((traceparent_name(), traceparent_text(cx))),
        lower_case(encode_utf8(traceparent_name())) == encode_utf8(traceparent_name()),
        encode_utf8(traceparent_text(cx)).len() == traceparent_text(cx).len(),
{
    let name = traceparent_name();
    reveal_strlit("traceparent");
    assert(is_ascii_chars(name));
    is_ascii_chars_encode_utf8(name);
    let name_bytes = encode_utf8(name);
    assert forall|i: int| 0 <= i < name_bytes.len() implies is_name_byte(
        #[trigger] name_bytes[i],
    ) && lower_case(name_bytes)[i] == name_bytes[i] by {
        assert(name_bytes[i] == name[i] as u8);
    }
    assert(lower_case(name_bytes) =~= name_bytes);
    let text = traceparent_text(cx);
    lemma_traceparent_chars(cx, 0);
    assert forall|i: int| 0 <= i < text.len() implies '\0' <= #[trigger] text[i] <= '\u{7f}' by {
        lemma_traceparent_chars(cx, i);
    }
    is_ascii_chars_encode_utf8(text);
    let text_bytes = encode_utf8(text);
    assert forall|i: int| 0 <= i < text_bytes.len() implies is_value_byte(
        #[trigger] text_bytes[i],
    ) by {
        lemma_traceparent_chars(cx, i);
        assert(text_bytes[i] == text[i] as u8);
    }
}

/// What the injector does with the `traceparent` format and a valid context.
///
/// Where it succeeds, the request carries exactly one `traceparent` value, the
/// one of the context, whatever `traceparent` values it carried before, and
/// its other headers are as they were. It can fail only for want of room in
/// the map, and then the headers are as they were.
pub proof fn lemma_traceparent_injection(
    cx: TraceContext,
    before: Map<Seq<u8>, Seq<Seq<u8>>>,
    after: Map<Seq<u8>, Seq<Seq<u8>>>,
    injected: Result<(), InjectError>,
)
    requires
        cx.is_valid(),
        is_injection(traceparent_fields(cx), before, after, injected),
    ensures
        injected is Ok ==> after == before.insert(
            encode_utf8(traceparent_name()),
            seq![encode_utf8(traceparent_text(cx))],
        ),
        injected is Ok ==> after[encode_utf8(traceparent_name())].len() == 1,
        injected is Err ==> after == before && injected == Err::<(), InjectError>(
            InjectError { index: 0, error: HeaderError::MaxSizeReached },
        ),
{
    let fields = traceparent_fields(cx);
    lemma_traceparent_field_can_be_written(cx);
    assert(fields.drop_last() =~= Seq::<FieldText>::empty());
    assert(fields.take(0) =~= Seq::<FieldText>::empty());
    assert(is_field(fields[0]));
    reveal_with_fuel(entries_with_fields, 2);
}

/// What the injector does with the `traceparent` format and an invalid
/// context: nothing. The invalid identifier is never written for a real one.
pub proof fn lemma_invalid_context_is_not_injected(
    cx: TraceContext,
    before: Map<Seq<u8>, Seq<Seq<u8>>>,
    after: Map<Seq<u8>, Seq<Seq<u8>>>,
    injected: Result<(), InjectError>,
)
    requires
        !cx.is_valid(),
        is_injection(traceparent_fields(cx), before, after, injected),
    ensures
        injected is Ok,
        after == before,
{
}

} // verus!
