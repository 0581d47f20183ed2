use vstd::prelude::*;
use vstd::string::StringExecFns;

use crate::config::{address_of, push_decimal};

verus! {

/// The status of a GraphQL response whose execution reported no error.
pub const STATUS_OK: u16 = 200;

/// The status of a GraphQL response whose execution reported errors.
pub const STATUS_BAD_REQUEST: u16 = 400;

/// The HTTP status for a GraphQL response: success when execution reported
/// no error, a client error otherwise.
pub fn graphql_status(execution_ok: bool) -> (r: u16)
    ensures
        r == (if execution_ok {
            STATUS_OK
        } else {
            STATUS_BAD_REQUEST
        }),
{
    if execution_ok {
        STATUS_OK
    } else {
        STATUS_BAD_REQUEST
    }
}

/// The URL of the GraphQL endpoint of the server listening on `port`.
pub open spec fn endpoint_url_of(port: u16) -> Seq<char> {
    "http://"@ + address_of(port) + "/graphql"@
}

/// `http://127.0.0.1:<port>/graphql`.
pub fn endpoint_url(port: u16) -> (r: String)
    ensures
        r@ == endpoint_url_of(port),
{
    let mut r = String::from_str("http://127.0.0.1:");
    push_decimal(&mut r, port);
    r.append("/graphql");
    proof {
        reveal_strlit("http://");
        reveal_strlit("127.0.0.1:");
        reveal_strlit("http://127.0.0.1:");
    }
    assert(r@ =~= endpoint_url_of(port));
    r
}

/// The HTML of the interactive query console that sends its queries to
/// `endpoint`, with no subscriptions endpoint.
pub uninterp spec fn graphiql_html(endpoint: Seq<char>) -> Seq<char>;

/// Relies on `juniper::http::graphiql::graphiql_source`: the page it builds
/// depends on the endpoint URL alone (no subscriptions endpoint is given).
#[verifier::external_body]
fn graphiql_source(endpoint: &str) -> (r: String)
    ensures
        r@ == graphiql_html(endpoint@),
{
    juniper::http::graphiql::graphiql_source(endpoint, None)
}

/// The query console page for the server listening on `port`, pointed at
/// its GraphQL endpoint.
pub fn graphiql_page(port: u16) -> (r: String)
    ensures
        r@ == graphiql_html(endpoint_url_of(port)),
{
    let url = endpoint_url(port);
    graphiql_source(url.as_str())
}

} // verus!
