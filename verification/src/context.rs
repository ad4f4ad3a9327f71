//! Trace contexts: the position of a request within a distributed trace.

use vstd::prelude::*;
use crate::header::has_traceparent_shape;
use crate::header::is_traceparent_shaped;
use crate::tracer::decode_w3c_traceparent;
use crate::tracer::random_context;
use crate::tracer::w3c_traceparent;

verus! {

/// The identity that a request inherits from its caller.
#[derive(Clone, Copy, Debug, PartialEq, Eq, Structural)]
pub struct TraceContext {
    /// Identifies the whole trace.
    pub trace_id: u128,
    /// Identifies the span of the caller; zero where there is no caller.
    pub span_id: u64,
    /// Whether the spans of this trace are to be collected.
    pub sampled: bool,
}

/// Whether a header value announces version `00` of the `traceparent`
/// format, the only one that is decoded: it begins with `00-`.
pub open spec fn has_version_00(header: Seq<char>) -> bool {
    header.len() >= 3 && header[0] == '0' && header[1] == '0' && header[2] == '-'
}

/// The context that an optional header value carries: what `fastrace` reads
/// out of a value of the right shape, and nothing for any other value.
pub open spec fn carried_context(header_value: Option<&str>) -> Option<TraceContext> {
    match header_value {
        Some(text) => if has_traceparent_shape(text@) {
            w3c_traceparent(text@)
        } else {
            None
        },
        None => None,
    }
}

/// The context that stands for a draw: the draw itself, but with the trace
/// id one where zero was drawn, since zero is the trace id of no trace.
pub open spec fn valid_draw(drawn: TraceContext) -> TraceContext {
    if drawn.trace_id == 0 {
        TraceContext { trace_id: 1, span_id: drawn.span_id, sampled: drawn.sampled }
    } else {
        drawn
    }
}

/// The context of a request: the one that was decoded, or else the fresh one.
pub open spec fn context_or_spec(decoded: Option<TraceContext>, fresh: TraceContext)
    -> TraceContext {
    match decoded {
        Some(context) => context,
        None => fresh,
    }
}

/// Picks the context of a request: `decoded` where the header carried one,
/// `fresh` otherwise.
pub fn context_or(decoded: Option<TraceContext>, fresh: TraceContext) -> (context: TraceContext)
    ensures
        context == context_or_spec(decoded, fresh),
{
    match decoded {
        Some(context) => context,
        None => fresh,
    }
}

/// Makes a drawn context one of a valid trace: see [`valid_draw`].
pub fn with_valid_trace_id(drawn: TraceContext) -> (context: TraceContext)
    ensures
        context == valid_draw(drawn),
        context.trace_id != 0,
{
    if drawn.trace_id == 0 {
        TraceContext { trace_id: 1, span_id: drawn.span_id, sampled: drawn.sampled }
    } else {
        drawn
    }
}

/// Decodes the trace context of a request from the value of its
/// `traceparent` header.
///
/// Never fails. A request without the header, or with a value that has not
/// the shape of one or does not decode, starts a trace of its own: its
/// context is sampled, has no parent span and has a trace id drawn at
/// random. A value of another version than `00` does not decode. A decoded
/// context always has a parent span, which tells it apart from a fresh one.
/// No context has a trace id of zero.
pub fn decode(header_value: Option<&str>) -> (context: TraceContext)
    ensures
        carried_context(header_value) matches Some(carried) ==> context == carried
            && context.span_id != 0,
        carried_context(header_value) is None ==> context.span_id == 0 && context.sampled,
        context.trace_id != 0,
        header_value matches Some(text) ==> carried_context(header_value) is Some
            ==> has_traceparent_shape(text@) && has_version_00(text@),
{
    let decoded = match header_value {
        Some(text) => if is_traceparent_shaped(text) {
            decode_w3c_traceparent(text)
        } else {
            None
        },
        None => None,
    };
    context_or(decoded, with_valid_trace_id(random_context()))
}

} // verus!
