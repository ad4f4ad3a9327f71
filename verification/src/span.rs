//! The root span of a request: opened when the request enters, annotated
//! with what is known of the request by then.

use vstd::prelude::*;
use fastrace::Span;
use crate::attributes::request_attributes;
use crate::attributes::request_properties;
use crate::attributes::route_attribute;
use crate::attributes::route_property;
use crate::attributes::Property;
use crate::attributes::PropertyText;
use crate::context::carried_context;
use crate::context::decode;
use crate::name::build_name;
use crate::name::span_name;
use crate::name::text_of;
use crate::tracer::attach_properties;
use crate::tracer::create_root;
use crate::tracer::root_held;

verus! {

/// What the middleware reads of a request before it hands it on.
#[derive(Clone, Copy, Debug)]
pub struct RequestHead<'a> {
    /// The request method, such as `GET`.
    pub method: &'a str,
    /// The raw path of the request URI.
    pub path: &'a str,
    /// The route template that the router matched, where it left one.
    pub matched_route: Option<&'a str>,
    /// The value of the `traceparent` header, where the request has one that
    /// is text.
    pub traceparent: Option<&'a str>,
}

/// The name of the span of a request.
pub open spec fn request_span_name(request: RequestHead) -> Seq<char> {
    span_name(request.method@, text_of(request.matched_route))
}

/// Builds the name of the span of a request from its method and the route
/// that matched.
pub fn get_request_span_name(request: &RequestHead) -> (name: String)
    ensures
        name@ == request_span_name(*request),
{
    build_name(request.method, request.matched_route)
}

/// The properties of the span of a request at its entry, in the order in
/// which they are recorded: the method, the raw path and, if and only if a
/// route matched, the route template.
pub open spec fn request_span_properties(request: RequestHead) -> Seq<PropertyText> {
    match text_of(request.matched_route) {
        Some(route) => request_properties(request.method@, request.path@).push(
            route_property(route),
        ),
        None => request_properties(request.method@, request.path@),
    }
}

/// Builds the properties that the span of a request carries from its entry
/// on.
pub fn span_properties(request: &RequestHead) -> (properties: Vec<Property>)
    ensures
        properties.deep_view() == request_span_properties(*request),
{
    let mut properties = request_attributes(request.method, request.path);
    if let Some(route) = request.matched_route {
        properties.push(route_attribute(route));
        assert(properties.deep_view() =~= request_span_properties(*request));
    }
    properties
}

/// Opens the span of a request.
///
/// The span is a root span under the context that [`decode`] reads from the
/// `traceparent` header: the one that the header carries, or else a fresh
/// one. It is named by [`get_request_span_name`] and is handed the
/// properties that [`span_properties`] builds. The span is not made
/// current.
///
/// The properties go to the collector and leave no mark on the span, so the
/// contract speaks of the name and the parent only.
pub fn request_span(request: &RequestHead) -> (span: Span)
    ensures
        root_held(span) matches Some(held) ==> held.0 == request_span_name(*request)
            && (carried_context(request.traceparent) matches Some(carried) ==> held.1 == carried)
            && (carried_context(request.traceparent) is None ==> held.1.span_id == 0
            && held.1.sampled) && held.1.trace_id != 0,
{
    let parent = decode(request.traceparent);
    let name = get_request_span_name(request);
    let root = create_root(name, parent);
    attach_properties(&root, request);
    root
}

} // verus!
