//! The `traceparent` header value: the text that carries a trace context from
//! one service to the next.
//!
//! Its form is `00-` followed by the trace identifier in 32 hexadecimal
//! digits, `-`, the span identifier in 16, `-`, and the trace flags in 2. All
//! digits are lower case. Unlike the narrowing of identifiers, this leg loses
//! nothing: reading a written value gives the identifiers and flags back
//! (`lemma_traceparent_round_trip`).

use crate::context::TraceContext;
use crate::hex::{
    hex_digit_value, hex_text, hex_value, lemma_hex_range_fits, lemma_hex_text_chars,
    lemma_hex_text_len, lemma_hex_value_bound, lemma_hex_value_none, lemma_hex_value_of_hex_text,
    parse_hex, push_hex,
};
use crate::ids::{SpanId, TraceId};
use vstd::prelude::*;
use vstd::string::{StrSliceExecFns, StringExecFns};

verus! {

/// The number of characters of every `traceparent` value.
pub const TRACEPARENT_LEN: usize = 55;

/// The `traceparent` value of the context `cx`.
pub open spec fn traceparent_text(cx: TraceContext) -> Seq<char> {
    seq!['0', '0', '-'] + hex_text(cx.trace_id.0 as nat, 32) + seq!['-'] + hex_text(
        cx.span_id.0 as nat,
        16,
    ) + seq!['-'] + hex_text(cx.trace_flags as nat, 2)
}

/// Whether `text` has the frame of a `traceparent` value: its length, the
/// version `00` and the three hyphens.
pub open spec fn has_traceparent_frame(text: Seq<char>) -> bool {
    &&& text.len() == TRACEPARENT_LEN
    &&& text[0] == '0'
    &&& text[1] == '0'
    &&& text[2] == '-'
    &&& text[35] == '-'
    &&& text[52] == '-'
}

/// The context that the `traceparent` value `text` carries. There is none
/// where `text` has not the frame, where a field is not all lower-case
/// hexadecimal digits, or where an identifier is the invalid, all-zero one.
/// What was read came from another process, so it is marked remote.
pub open spec fn traceparent_context(text: Seq<char>) -> Option<TraceContext> {
    if has_traceparent_frame(text) {
        match (
            hex_value(text.subrange(3, 35)),
            hex_value(text.subrange(36, 52)),
            hex_value(text.subrange(53, 55)),
        ) {
            (Some(trace_id), Some(span_id), Some(flags)) => {
                if trace_id != 0 && span_id != 0 {
                    Some(
                        TraceContext {
                            trace_id: TraceId(trace_id as u128),
                            span_id: SpanId(span_id as u64),
                            trace_flags: flags as u8,
                            is_remote: true,
                        },
                    )
                } else {
                    None
                }
            },
            _ => None,
        }
    } else {
        None
    }
}

/// Where the three fields of a `traceparent` value stand in it.
pub proof fn lemma_traceparent_fields(cx: TraceContext)
    ensures
        has_traceparent_frame(traceparent_text(cx)),
        traceparent_text(cx).subrange(3, 35) == hex_text(cx.trace_id.0 as nat, 32),
        traceparent_text(cx).subrange(36, 52) == hex_text(cx.span_id.0 as nat, 16),
        traceparent_text(cx).subrange(53, 55) == hex_text(cx.trace_flags as nat, 2),
{
    let text = traceparent_text(cx);
    lemma_hex_text_len(cx.trace_id.0 as nat, 32);
    lemma_hex_text_len(cx.span_id.0 as nat, 16);
    lemma_hex_text_len(cx.trace_flags as nat, 2);
    assert(text.subrange(3, 35) =~= hex_text(cx.trace_id.0 as nat, 32));
    assert(text.subrange(36, 52) =~= hex_text(cx.span_id.0 as nat, 16));
    assert(text.subrange(53, 55) =~= hex_text(cx.trace_flags as nat, 2));
}

/// Reading the `traceparent` value of a valid context gives its trace
/// identifier, span identifier and flags back, each exactly.
pub proof fn lemma_traceparent_round_trip(cx: TraceContext)
    requires
        cx.is_valid(),
    ensures
        traceparent_context(traceparent_text(cx)) == Some(
            TraceContext { is_remote: true, ..cx },
        ),
{
    lemma_traceparent_fields(cx);
    lemma_hex_range_fits();
    lemma_hex_value_of_hex_text(cx.trace_id.0 as nat, 32);
    lemma_hex_value_of_hex_text(cx.span_id.0 as nat, 16);
    lemma_hex_value_of_hex_text(cx.trace_flags as nat, 2);
}

/// The `traceparent` value of an invalid context carries no context: a reader
/// never takes the all-zero identifier for a real one.
pub proof fn lemma_traceparent_invalid_is_rejected(cx: TraceContext)
    requires
        !cx.is_valid(),
    ensures
        traceparent_context(traceparent_text(cx)) is None,
{
    lemma_traceparent_fields(cx);
    lemma_hex_range_fits();
    lemma_hex_value_of_hex_text(cx.trace_id.0 as nat, 32);
    lemma_hex_value_of_hex_text(cx.span_id.0 as nat, 16);
    lemma_hex_value_of_hex_text(cx.trace_flags as nat, 2);
}

/// Every character of a `traceparent` value is a lower-case hexadecimal digit
/// or a hyphen.
pub proof fn lemma_traceparent_chars(cx: TraceContext, i: int)
    requires
        0 <= i < TRACEPARENT_LEN,
    ensures
        traceparent_text(cx).len() == TRACEPARENT_LEN,
        traceparent_text(cx)[i] == '-' || hex_digit_value(traceparent_text(cx)[i]) is Some,
{
    lemma_traceparent_fields(cx);
    let text = traceparent_text(cx);
    if 3 <= i < 35 {
        lemma_hex_text_chars(cx.trace_id.0 as nat, 32, i - 3);
        assert(text.subrange(3, 35)[i - 3] == text[i]);
    } else if 36 <= i < 52 {
        lemma_hex_text_chars(cx.span_id.0 as nat, 16, i - 36);
        assert(text.subrange(36, 52)[i - 36] == text[i]);
    } else if 53 <= i < 55 {
        lemma_hex_text_chars(cx.trace_flags as nat, 2, i - 53);
        assert(text.subrange(53, 55)[i - 53] == text[i]);
    }
}

/// Writes the `traceparent` value of the context `cx`.
pub fn format_traceparent(cx: &TraceContext) -> (text: String)
    ensures
        text@ == traceparent_text(*cx),
{
    proof {
        reveal_strlit("00-");
        reveal_strlit("-");
    }
    let mut text = String::from_str("00-");
    assert(text@ =~= seq!['0', '0', '-']);
    push_hex(&mut text, cx.trace_id.0, 32);
    text.append("-");
    push_hex(&mut text, cx.span_id.0 as u128, 16);
    text.append("-");
    push_hex(&mut text, cx.trace_flags as u128, 2);
    assert(text@ =~= traceparent_text(*cx));
    text
}

/// Reads the `traceparent` value `text`: the context that it carries, if it
/// carries one.
pub fn parse_traceparent(text: &str) -> (cx: Option<TraceContext>)
    ensures
        cx == traceparent_context(text@),
{
    if !text.is_ascii() {
        proof {
            lemma_not_ascii_is_rejected(text@);
        }
        return None;
    }
    proof {
        vstd::string::is_ascii_spec_bytes(text);
    }
    if text.as_bytes().len() != TRACEPARENT_LEN {
        return None;
    }
    if text.get_ascii(0) != 48 || text.get_ascii(1) != 48 || text.get_ascii(2) != 45
        || text.get_ascii(35) != 45 || text.get_ascii(52) != 45 {
        return None;
    }
    assert(has_traceparent_frame(text@));
    let trace_id = parse_hex(text, 3, 35);
    let span_id = parse_hex(text, 36, 52);
    let flags = parse_hex(text, 53, 55);
    match (trace_id, span_id, flags) {
        (Some(trace_id), Some(span_id), Some(flags)) => {
            proof {
                lemma_hex_range_fits();
                lemma_hex_value_bound(text@.subrange(36, 52));
                lemma_hex_value_bound(text@.subrange(53, 55));
            }
            if trace_id != 0 && span_id != 0 {
                Some(
                    TraceContext {
                        trace_id: TraceId(trace_id),
                        span_id: SpanId(span_id as u64),
                        trace_flags: flags as u8,
                        is_remote: true,
                    },
                )
            } else {
                None
            }
        },
        _ => None,
    }
}

/// A text with a character outside ASCII carries no context.
proof fn lemma_not_ascii_is_rejected(text: Seq<char>)
    requires
        !vstd::utf8::is_ascii_chars(text),
    ensures
        traceparent_context(text) is None,
{
    let i = choose|i: int| 0 <= i < text.len() && !('\0' <= #[trigger] text[i] <= '\u{7f}');
    if has_traceparent_frame(text) {
        if 3 <= i < 35 {
            assert(text.subrange(3, 35)[i - 3] == text[i]);
            lemma_hex_value_none(text.subrange(3, 35), i - 3);
        } else if 36 <= i < 52 {
            assert(text.subrange(36, 52)[i - 36] == text[i]);
            lemma_hex_value_none(text.subrange(36, 52), i - 36);
        } else if 53 <= i < 55 {
            assert(text.subrange(53, 55)[i - 53] == text[i]);
            lemma_hex_value_none(text.subrange(53, 55), i - 53);
        }
    }
}

} // verus!
