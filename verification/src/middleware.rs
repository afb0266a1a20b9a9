//! The tracing middleware of an HTTP client: what it does to an outgoing
//! request before the request is sent.

use crate::carrier::InjectError;
use crate::context::TraceContext;
use crate::headers::header_map_entries;
use crate::propagation::{inject_context, is_context_injection, PropagationFormat};
use http::header::{HeaderMap, HeaderValue};
use std::marker::PhantomData;
use vstd::prelude::*;

verus! {

/// Middleware that traces the requests of an HTTP client. `S` is the span
/// backend: the type that says how the span of a request is made and closed.
pub struct TracingMiddleware<S> {
    span_backend: PhantomData<S>,
}

impl<S> TracingMiddleware<S> {
    /// The middleware for the span backend `S`.
    pub fn new() -> (middleware: TracingMiddleware<S>) {
        TracingMiddleware { span_backend: PhantomData }
    }

    /// Prepares the headers of an outgoing request: hands the trace context
    /// `cx` on in them, unless propagation is disabled for the request.
    ///
    /// With propagation disabled, the headers stay as they are whatever the
    /// context. Otherwise this is the context injector.
    pub fn propagate<F: PropagationFormat>(
        &self,
        propagation_disabled: bool,
        format: &F,
        cx: Option<&TraceContext>,
        headers: &mut HeaderMap<HeaderValue>,
    ) -> (injected: Result<(), InjectError>)
        ensures
            propagation_disabled ==> injected is Ok && header_map_entries(*final(headers))
                == header_map_entries(*old(headers)),
            !propagation_disabled ==> is_context_injection(
                format,
                cx,
                header_map_entries(*old(headers)),
                header_map_entries(*final(headers)),
                injected,
            ),
    {
        if propagation_disabled {
            Ok(())
        } else {
            inject_context(format, cx, headers)
        }
    }
}

impl<S> Clone for TracingMiddleware<S> {
    fn clone(&self) -> (middleware: Self) {
        Self::new()
    }
}

} // verus!
