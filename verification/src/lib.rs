//! Request tracing for HTTP services on top of `fastrace`.
//!
//! For every inbound request the library decodes the caller's trace context
//! from the `traceparent` header, opens a root span named after the method and
//! the matched route, annotates it with the standard HTTP attributes and, once
//! the response is known, records its status code on the span that is current.

use vstd::prelude::*;

pub mod attributes;
pub mod context;
pub mod decimal;
pub mod header;
pub mod keys;
pub mod name;
pub mod observer;
pub mod span;
pub mod tracer;

verus! {

/// The header that carries the trace context of the caller, as the W3C Trace
/// Context recommendation names it.
pub const TRACEPARENT_HEADER: &'static str = "traceparent";

} // verus!
