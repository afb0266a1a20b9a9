//! The trace context: what links a unit of work to the others of its trace.

use crate::ids::{SpanId, TraceId};
use vstd::prelude::*;

verus! {

/// The identifying state of a span within a distributed trace. The tracing
/// runtime makes one for each operation; nothing here changes it.
#[derive(Clone, Copy, Debug, PartialEq, Eq, Structural)]
pub struct TraceContext {
    pub trace_id: TraceId,
    pub span_id: SpanId,
    /// The trace flags; the lowest bit says that the trace is sampled.
    pub trace_flags: u8,
    /// Whether the context came from another process.
    pub is_remote: bool,
}

impl TraceContext {
    /// Whether the context names a trace and a span.
    pub open spec fn spec_is_valid(&self) -> bool {
        self.trace_id.0 != 0 && self.span_id.0 != 0
    }

    /// Whether the context names a trace and a span: neither identifier is the
    /// invalid, all-zero one. Only a valid context is handed on to other
    /// services.
    #[verifier::when_used_as_spec(spec_is_valid)]
    pub fn is_valid(&self) -> (valid: bool)
        ensures
            valid == self.spec_is_valid(),
    {
        self.trace_id.0 != 0 && self.span_id.0 != 0
    }
}

} // verus!
