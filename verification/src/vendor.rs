//! Narrowing trace and span identifiers to the 64-bit identifiers of the
//! trace-collection agent, and finding the identifiers to report for a span.
//!
//! The narrowing of a trace identifier is lossy by design: it keeps the low
//! 64 bits, so two trace identifiers that differ only above them narrow to the
//! same value (`lemma_narrowing_collides`). No function here widens a
//! narrowed identifier again.

use crate::context::TraceContext;
use crate::ids::{
    be_bytes, be_value, lemma_be_bytes_tail, lemma_be_value_of_be_bytes, lemma_byte_range_eight,
    DatadogId, SpanId, TraceId, LOW_HALF_RANGE,
};
use vstd::prelude::*;
use vstd::std_specs::convert::FromSpec;
use vstd::std_specs::convert::FromSpecImpl;

verus! {

/// The low 64 bits of a trace identifier.
pub open spec fn low_half(trace_id: TraceId) -> u64 {
    (trace_id.0 % LOW_HALF_RANGE) as u64
}

/// The 64-bit identifier under which the agent knows the trace `trace_id`:
/// its last eight bytes, read as a big-endian integer. The invalid trace
/// identifier gives 0.
pub fn trace_id_to_vendor(trace_id: TraceId) -> (id: u64)
    ensures
        id == low_half(trace_id),
        id as nat == be_value(trace_id.bytes().subrange(8, 16)),
{
    proof {
        lemma_low_bytes_value(trace_id);
    }
    (trace_id.0 % LOW_HALF_RANGE) as u64
}

/// The 64-bit identifier under which the agent knows the span `span_id`: the
/// same eight bytes.
pub fn span_id_to_vendor(span_id: SpanId) -> (id: u64)
    ensures
        id == span_id.0,
        id as nat == be_value(span_id.bytes()),
{
    proof {
        lemma_be_value_of_be_bytes(span_id.0 as nat, 8);
        lemma_byte_range_eight();
    }
    span_id.0
}

impl From<TraceId> for DatadogId {
    fn from(value: TraceId) -> (id: DatadogId) {
        DatadogId(trace_id_to_vendor(value))
    }
}

impl FromSpecImpl<TraceId> for DatadogId {
    open spec fn obeys_from_spec() -> bool {
        true
    }

    open spec fn from_spec(value: TraceId) -> DatadogId {
        DatadogId(low_half(value))
    }
}

impl From<SpanId> for DatadogId {
    fn from(value: SpanId) -> (id: DatadogId) {
        DatadogId(span_id_to_vendor(value))
    }
}

impl FromSpecImpl<SpanId> for DatadogId {
    open spec fn obeys_from_spec() -> bool {
        true
    }

    open spec fn from_spec(value: SpanId) -> DatadogId {
        DatadogId(value.0)
    }
}

/// The last eight bytes of a trace identifier spell its low 64 bits.
pub proof fn lemma_low_bytes_value(trace_id: TraceId)
    ensures
        trace_id.bytes().len() == 16,
        trace_id.bytes().subrange(8, 16) == be_bytes(trace_id.0 as nat, 8),
        be_value(trace_id.bytes().subrange(8, 16)) == low_half(trace_id),
{
    lemma_be_bytes_tail(trace_id.0 as nat, 16, 8);
    lemma_be_value_of_be_bytes(trace_id.0 as nat, 8);
    lemma_byte_range_eight();
}

/// The narrowing is a function of the identifier alone: equal trace
/// identifiers narrow to equal values.
pub proof fn lemma_narrowing_deterministic(a: TraceId, b: TraceId)
    requires
        a == b,
    ensures
        low_half(a) == low_half(b),
        <DatadogId as FromSpec<TraceId>>::from_spec(a) == <DatadogId as FromSpec<TraceId>>::from_spec(b),
{
}

/// The invalid trace identifier and the invalid span identifier both narrow
/// to 0.
pub proof fn lemma_invalid_narrows_to_zero()
    ensures
        low_half(TraceId(0)) == 0,
        <DatadogId as FromSpec<TraceId>>::from_spec(TraceId(0)) == DatadogId(0),
        <DatadogId as FromSpec<SpanId>>::from_spec(SpanId(0)) == DatadogId(0),
{
}

/// The narrowing is not injective: adding any multiple of 2 to the power 64 to
/// a trace identifier leaves its narrowed value as it was.
pub proof fn lemma_narrowing_collides(trace_id: TraceId, high: u64)
    requires
        trace_id.0 < LOW_HALF_RANGE,
    ensures
        high * LOW_HALF_RANGE + trace_id.0 <= u128::MAX,
        low_half(TraceId((high * LOW_HALF_RANGE + trace_id.0) as u128)) == low_half(trace_id),
        high != 0 ==> TraceId((high * LOW_HALF_RANGE + trace_id.0) as u128) != trace_id,
{
    let low = trace_id.0 as int;
    let range = LOW_HALF_RANGE as int;
    assert(high * range + low <= u128::MAX) by (nonlinear_arith)
        requires
            0 <= high <= 0xffff_ffff_ffff_ffff,
            0 <= low < range,
            range == 0x1_0000_0000_0000_0000,
    ;
    vstd::arithmetic::div_mod::lemma_mod_multiples_vanish(high as int, low, range);
    assert(high != 0 ==> high * range + low != low) by (nonlinear_arith)
        requires
            0 <= high,
            range > 0,
    ;
}

/// Narrowing what is already narrow changes nothing: a trace identifier below
/// 2 to the power 64 narrows to itself.
pub proof fn lemma_narrowing_idempotent(trace_id: TraceId)
    ensures
        low_half(TraceId(low_half(trace_id) as u128)) == low_half(trace_id),
{
}

/// The identifiers that a span under construction has been given so far.
#[derive(Clone, Copy, Debug, PartialEq, Eq, Structural)]
pub struct SpanBuilder {
    pub trace_id: Option<TraceId>,
    pub span_id: Option<SpanId>,
}

/// What the tracing runtime keeps with a span: the context of the active span
/// that it was started under, if there is one, and the identifiers of the
/// span itself.
#[derive(Clone, Copy, Debug, PartialEq, Eq, Structural)]
pub struct OtelData {
    pub parent_cx: Option<TraceContext>,
    pub builder: SpanBuilder,
}

/// The identifiers to report for a span, as the agent reads them.
#[derive(Clone, Copy, Debug, PartialEq, Eq, Structural)]
pub struct TraceInfo {
    pub trace_id: DatadogId,
    pub span_id: DatadogId,
}

/// The trace that a span belongs to. A span that was started under an active
/// span is of that span's trace, whatever its own builder says; otherwise it
/// is of the trace that its builder names, and of none, the invalid
/// identifier, where the builder names none.
pub open spec fn trace_of(data: OtelData) -> TraceId {
    match data.parent_cx {
        Some(parent) => parent.trace_id,
        None => match data.builder.trace_id {
            Some(trace_id) => trace_id,
            None => TraceId(0),
        },
    }
}

/// The span's own identifier, the invalid one where it has none yet.
pub open spec fn span_of(data: OtelData) -> SpanId {
    match data.builder.span_id {
        Some(span_id) => span_id,
        None => SpanId(0),
    }
}

/// The identifiers to report for the span whose tracing data is `data`;
/// nothing for a span without tracing data.
pub open spec fn trace_info_of(data: Option<OtelData>) -> Option<TraceInfo> {
    match data {
        Some(data) => Some(
            TraceInfo {
                trace_id: DatadogId(low_half(trace_of(data))),
                span_id: DatadogId(span_of(data).0),
            },
        ),
        None => None,
    }
}

/// Finds the identifiers to report for a span from the tracing data kept with
/// it, if any is kept.
pub fn lookup_trace_info(data: Option<&OtelData>) -> (info: Option<TraceInfo>)
    ensures
        info == trace_info_of(
            match data {
                Some(data) => Some(*data),
                None => None,
            },
        ),
{
    match data {
        Some(data) => {
            let trace_id = match data.parent_cx {
                Some(parent) => parent.trace_id,
                None => match data.builder.trace_id {
                    Some(trace_id) => trace_id,
                    None => TraceId::invalid(),
                },
            };
            let span_id = match data.builder.span_id {
                Some(span_id) => span_id,
                None => SpanId::invalid(),
            };
            Some(TraceInfo { trace_id: DatadogId::from(trace_id), span_id: DatadogId::from(span_id) })
        },
        None => None,
    }
}

/// A span started under an active span reports the trace of that span, not
/// the one that its own builder names.
pub proof fn lemma_child_reports_parent_trace(data: OtelData)
    requires
        data.parent_cx is Some,
    ensures
        trace_info_of(Some(data)).unwrap().trace_id == DatadogId(
            low_half(data.parent_cx.unwrap().trace_id),
        ),
{
}

/// A span with neither an active parent nor identifiers of its own reports
/// the invalid identifier, 0, for both.
pub proof fn lemma_no_identifiers_reports_zero(data: OtelData)
    requires
        data.parent_cx is None,
        data.builder.trace_id is None,
        data.builder.span_id is None,
    ensures
        trace_info_of(Some(data)) == Some(
            TraceInfo { trace_id: DatadogId(0), span_id: DatadogId(0) },
        ),
{
}

} // verus!
