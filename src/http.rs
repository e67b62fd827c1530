use vstd::prelude::*;

verus! {

/// The path of the GraphQL endpoint.
pub const GRAPHQL_PATH: &'static str = "/graphql";

/// The path of the subscriptions endpoint.
pub const SUBSCRIPTIONS_PATH: &'static str = "/subscriptions";

/// HTTP status of a response whose every part executed cleanly.
pub const STATUS_OK: u16 = 200;

/// HTTP status of a response that holds an error anywhere.
pub const STATUS_BAD_REQUEST: u16 = 400;

/// The status with which an executed batch is answered: `200` when no part of
/// it holds an error, `400` otherwise.
pub fn response_status(is_ok: bool) -> (r: u16)
    ensures
        r == (if is_ok { STATUS_OK } else { STATUS_BAD_REQUEST }),
{
    if is_ok {
        STATUS_OK
    } else {
        STATUS_BAD_REQUEST
    }
}

/// The view of an optional string slice.
pub open spec fn opt_str_view(s: Option<&str>) -> Option<Seq<char>> {
    match s {
        Some(x) => Some(x@),
        None => None,
    }
}

/// The playground page that juniper renders for the given endpoints.
pub uninterp spec fn playground_page_of(graphql: Seq<char>, subscriptions: Option<Seq<char>>) -> Seq<char>;

/// Relies on juniper::http::playground::playground_source: the page depends
/// on the two endpoint URLs alone, being a fixed template with both filled in.
#[verifier::external_body]
fn playground_source(graphql_endpoint_url: &str, subscriptions_endpoint_url: Option<&str>) -> (r: String)
    ensures
        r@ == playground_page_of(graphql_endpoint_url@, opt_str_view(subscriptions_endpoint_url)),
{
    juniper::http::playground::playground_source(graphql_endpoint_url, subscriptions_endpoint_url)
}

/// The answer to a request for the playground page: status `200` and the
/// page pointed at the given endpoints.
pub fn playground(graphql_endpoint_url: &str, subscriptions_endpoint_url: Option<&str>) -> (r: (
    u16,
    String,
))
    ensures
        r.0 == STATUS_OK,
        r.1@ == playground_page_of(graphql_endpoint_url@, opt_str_view(subscriptions_endpoint_url)),
{
    (STATUS_OK, playground_source(graphql_endpoint_url, subscriptions_endpoint_url))
}

} // verus!
