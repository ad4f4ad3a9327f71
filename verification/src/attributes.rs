//! The properties that a request span carries.

use vstd::prelude::*;
use vstd::string::StringExecFns;
use crate::decimal::decimal;
use crate::decimal::status_text;
use crate::keys::http_request_method;
use crate::keys::http_response_status_code;
use crate::keys::http_route;
use crate::keys::method_key;
use crate::keys::path_key;
use crate::keys::route_key;
use crate::keys::status_key;
use crate::keys::url_path;

verus! {

/// A property as the collector takes it: a key of the fixed vocabulary and
/// the value recorded under it.
pub type Property = (&'static str, String);

/// The key and the value of a property, as texts.
pub type PropertyText = (Seq<char>, Seq<char>);

/// The two properties read at the entry of a request, in the order in which
/// they are recorded: the method, then the raw path.
pub open spec fn request_properties(method: Seq<char>, path: Seq<char>) -> Seq<PropertyText> {
    seq![(method_key(), method), (path_key(), path)]
}

/// The property that names the matched route.
pub open spec fn route_property(route: Seq<char>) -> PropertyText {
    (route_key(), route)
}

/// The property that holds the status code of a response, in decimal.
pub open spec fn status_property(code: u16) -> PropertyText {
    (status_key(), decimal(code as nat))
}

/// The properties that describe a request at its entry: its method and its
/// raw path.
pub fn request_attributes(method: &str, path: &str) -> (attributes: Vec<Property>)
    ensures
        attributes.deep_view() == request_properties(method@, path@),
{
    let mut attributes = Vec::new();
    attributes.push((http_request_method(), String::from_str(method)));
    attributes.push((url_path(), String::from_str(path)));
    assert(attributes.deep_view() =~= request_properties(method@, path@));
    attributes
}

/// The property that names the route template which the router matched.
pub fn route_attribute(route: &str) -> (attribute: Property)
    ensures
        attribute.deep_view() == route_property(route@),
{
    (http_route(), String::from_str(route))
}

/// The property that holds the status code of a response.
pub fn response_status_attribute(code: u16) -> (attribute: Property)
    ensures
        attribute.deep_view() == status_property(code),
{
    (http_response_status_code(), status_text(code))
}

} // verus!
