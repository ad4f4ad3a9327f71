//! The keys of the properties, as the OpenTelemetry semantic conventions
//! for HTTP spell them.
//!
//! The constants are read from `opentelemetry_semantic_conventions`; that
//! each holds the text stated here is taken on trust.

use vstd::prelude::*;
use opentelemetry_semantic_conventions::trace::HTTP_REQUEST_METHOD;
use opentelemetry_semantic_conventions::trace::HTTP_RESPONSE_STATUS_CODE;
use opentelemetry_semantic_conventions::trace::HTTP_ROUTE;
use opentelemetry_semantic_conventions::trace::URL_PATH;

verus! {

/// The key under which the request method is recorded.
pub open spec fn method_key() -> Seq<char> {
    "http.request.method"@
}

/// The key under which the raw path of the request is recorded.
pub open spec fn path_key() -> Seq<char> {
    "url.path"@
}

/// The key under which the matched route template is recorded.
pub open spec fn route_key() -> Seq<char> {
    "http.route"@
}

/// The key under which the status code of the response is recorded.
pub open spec fn status_key() -> Seq<char> {
    "http.response.status_code"@
}

/// No two keys of the vocabulary are equal, so that the method, the path, the
/// route and the status code of a request never stand under one key.
pub proof fn lemma_keys_distinct()
    ensures
        method_key() != path_key(),
        method_key() != route_key(),
        method_key() != status_key(),
        path_key() != route_key(),
        path_key() != status_key(),
        route_key() != status_key(),
{
    reveal_strlit("http.request.method");
    reveal_strlit("url.path");
    reveal_strlit("http.route");
    reveal_strlit("http.response.status_code");
    assert(method_key().len() == 19);
    assert(path_key().len() == 8);
    assert(route_key().len() == 10);
    assert(status_key().len() == 25);
}

/// Reads `opentelemetry_semantic_conventions::trace::HTTP_REQUEST_METHOD`.
///
/// Trusted: the constant is `http.request.method`.
#[verifier::external_body]
pub(crate) fn http_request_method() -> (key: &'static str)
    ensures
        key@ == method_key(),
{
    HTTP_REQUEST_METHOD
}

/// Reads `opentelemetry_semantic_conventions::trace::URL_PATH`.
///
/// Trusted: the constant is `url.path`.
#[verifier::external_body]
pub(crate) fn url_path() -> (key: &'static str)
    ensures
        key@ == path_key(),
{
    URL_PATH
}

/// Reads `opentelemetry_semantic_conventions::trace::HTTP_ROUTE`.
///
/// Trusted: the constant is `http.route`.
#[verifier::external_body]
pub(crate) fn http_route() -> (key: &'static str)
    ensures
        key@ == route_key(),
{
    HTTP_ROUTE
}

/// Reads `opentelemetry_semantic_conventions::trace::HTTP_RESPONSE_STATUS_CODE`.
///
/// Trusted: the constant is `http.response.status_code`.
#[verifier::external_body]
pub(crate) fn http_response_status_code() -> (key: &'static str)
    ensures
        key@ == status_key(),
{
    HTTP_RESPONSE_STATUS_CODE
}

} // verus!
