//! The calls into `fastrace`.
//!
//! Nothing in this file is proved: each contract says what the source of
//! `fastrace` shows of the call, and the rest of the library builds on it.
//! `fastrace` draws trace ids and span ids from the random source of the
//! system; where that source fails, so do these calls.

use vstd::prelude::*;
use fastrace::collector::SpanContext;
use fastrace::collector::SpanId;
use fastrace::collector::TraceId;
use fastrace::local::LocalSpan;
use fastrace::Span;
use crate::attributes::response_status_attribute;
use crate::context::has_version_00;
use crate::context::TraceContext;
use crate::span::span_properties;
use crate::span::RequestHead;

verus! {

/// A span of `fastrace`. What it records is kept by the collector and cannot
/// be read back from it.
#[verifier::external_type_specification]
#[verifier::external_body]
pub struct ExSpan(fastrace::Span);

/// What `fastrace` reads out of a `traceparent` header value: the context it
/// carries, or `None` where the value is not one that `fastrace` accepts.
pub uninterp spec fn w3c_traceparent(header: Seq<char>) -> Option<TraceContext>;

/// Calls `fastrace::collector::SpanContext::decode_w3c_traceparent`.
///
/// Trusted: the result is a function of the header text alone, named
/// [`w3c_traceparent`]. `fastrace` decodes no value but one that begins with
/// `00-`, and hands out no context whose trace id or span id is zero.
#[verifier::external_body]
pub(crate) fn decode_w3c_traceparent(header: &str) -> (decoded: Option<TraceContext>)
    ensures
        decoded == w3c_traceparent(header@),
        decoded is Some ==> has_version_00(header@),
        decoded matches Some(context) ==> context.trace_id != 0 && context.span_id != 0,
{
    match SpanContext::decode_w3c_traceparent(header) {
        Some(context) => Some(TraceContext {
            trace_id: context.trace_id.0,
            span_id: context.span_id.0,
            sampled: context.sampled,
        }),
        None => None,
    }
}

/// Calls `fastrace::collector::SpanContext::random`.
///
/// Trusted: the context has a span id of zero and is sampled. Its trace id is
/// drawn at random, so nothing is known of it.
#[verifier::external_body]
pub(crate) fn random_context() -> (fresh: TraceContext)
    ensures
        fresh.span_id == 0,
        fresh.sampled,
{
    let context = SpanContext::random();
    TraceContext {
        trace_id: context.trace_id.0,
        span_id: context.span_id.0,
        sampled: context.sampled,
    }
}

/// What a root span holds of its making: the name and the parent context
/// that it was given, or `None` for a span that holds nothing because
/// `fastrace` was built without recording.
pub uninterp spec fn root_held(span: Span) -> Option<(Seq<char>, TraceContext)>;

/// Calls `fastrace::Span::root` with the name and the parent context given.
///
/// Trusted: the span that comes back holds nothing, or it holds this name
/// and the trace id, the span id and the sampling flag of this parent.
/// Whether the collector goes on to record the span depends on how
/// `fastrace` was set up, so nothing is claimed of that.
#[verifier::external_body]
pub(crate) fn create_root(name: String, parent: TraceContext) -> (span: Span)
    ensures
        root_held(span) matches Some(held) ==> held.0 == name@ && held.1 == parent,
{
    Span::root(
        name,
        SpanContext {
            trace_id: TraceId(parent.trace_id),
            span_id: SpanId(parent.span_id),
            sampled: parent.sampled,
        },
    )
}

/// Calls `fastrace::Span::add_properties` with the properties that
/// [`span_properties`] builds, which are built only if the span records.
///
/// Trusted: the call returns. It leaves the span as it is: the properties
/// go to the collector.
#[verifier::external_body]
pub(crate) fn attach_properties(span: &Span, request: &RequestHead) {
    span.add_properties(|| span_properties(request));
}

/// Calls `fastrace::local::LocalSpan::add_property` with the property that
/// [`response_status_attribute`] builds, which is built only if a span is
/// current on this thread and records.
///
/// Trusted: the call returns, unless it is made from inside a closure that
/// `fastrace` is running to build the properties of a local span, where
/// `fastrace` panics.
#[verifier::external_body]
pub(crate) fn attach_response_status(status_code: u16) {
    LocalSpan::add_property(|| response_status_attribute(status_code));
}

} // verus!
