//! Tracing adapters for services that report to a trace-collection agent:
//! handing the trace context on in the headers of outgoing requests, and
//! narrowing trace and span identifiers to the 64-bit identifiers that the
//! agent reads.
//!
//! The two pieces at the centre are the context injector (`propagation`, with
//! `carrier` and `traceparent` beneath it) and the identifier translator
//! (`vendor`, over `ids`). Around them stand what the middleware, the span
//! helpers, the event formatter and the set-up decide (`middleware`,
//! `http_server`, `formatter`, `connection`, `config`).
//!
//! Every function is pure but for the header map that it is handed: the trace
//! context comes in as an argument, never from ambient state.

use vstd::prelude::*;

pub mod carrier;
pub mod config;
pub mod connection;
pub mod context;
pub mod formatter;
pub mod headers;
pub mod hex;
pub mod http_server;
pub mod ids;
pub mod middleware;
pub mod propagation;
pub mod span;
pub mod traceparent;
pub mod vendor;

verus! {

} // verus!
