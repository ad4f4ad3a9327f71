//! Span names: the method, followed by the route template where one matched.

use vstd::prelude::*;
use vstd::string::StringExecFns;

verus! {

/// The text of an optional string slice.
pub open spec fn text_of(value: Option<&str>) -> Option<Seq<char>> {
    match value {
        Some(text) => Some(text@),
        None => None,
    }
}

/// The name of the span of a request: `METHOD ROUTE` where the router matched
/// a route template, the bare `METHOD` where it did not.
pub open spec fn span_name(method: Seq<char>, matched_route: Option<Seq<char>>) -> Seq<char> {
    match matched_route {
        Some(route) => method + seq![' '] + route,
        None => method,
    }
}

/// Builds the name of the span of a request.
///
/// The name holds the route template and never the raw path, so that the
/// requests of one route share one name.
pub fn build_name(method: &str, matched_route: Option<&str>) -> (name: String)
    ensures
        name@ == span_name(method@, text_of(matched_route)),
{
    let mut name = String::from_str(method);
    if let Some(route) = matched_route {
        proof {
            reveal_strlit(" ");
        }
        name.append(" ");
        name.append(route);
    }
    name
}

} // verus!
