//! Which transport an endpoint URL asks for.

use vstd::prelude::*;

use crate::text::{is_prefix_of, opt_text, starts_with};

verus! {

/// The two transports a chain endpoint can use.
#[derive(Clone, Copy, Debug, PartialEq, Eq, Structural)]
pub enum Transport {
    Http,
    Ws,
}

/// The transport of an endpoint: HTTP for texts that begin with `http`
/// (which covers `https`), WebSocket for texts that begin with `ws` (which
/// covers `wss`), none otherwise.
pub open spec fn endpoint_transport(endpoint: Seq<char>) -> Option<Transport> {
    if is_prefix_of("http"@, endpoint) {
        Some(Transport::Http)
    } else if is_prefix_of("ws"@, endpoint) {
        Some(Transport::Ws)
    } else {
        None
    }
}

/// Picks the transport for `endpoint`, testing the prefixes `http`, `https`,
/// `ws` and `wss` in turn.
pub fn classify_endpoint(endpoint: &str) -> (r: Option<Transport>)
    ensures
        r == endpoint_transport(endpoint@),
{
    proof {
        reveal_strlit("http");
        reveal_strlit("https");
        reveal_strlit("ws");
        reveal_strlit("wss");
    }
    let http = starts_with(endpoint, "http") || starts_with(endpoint, "https");
    if http {
        proof {
            if is_prefix_of("https"@, endpoint@) {
                assert(endpoint@.subrange(0, 4) =~= endpoint@.subrange(0, 5).subrange(0, 4));
                assert("https"@.subrange(0, 4) =~= "http"@);
            }
        }
        Some(Transport::Http)
    } else if starts_with(endpoint, "ws") || starts_with(endpoint, "wss") {
        proof {
            if is_prefix_of("wss"@, endpoint@) {
                assert(endpoint@.subrange(0, 2) =~= endpoint@.subrange(0, 3).subrange(0, 2));
                assert("wss"@.subrange(0, 2) =~= "ws"@);
            }
        }
        Some(Transport::Ws)
    } else {
        None
    }
}

/// Why `url::Url::parse` refuses a text, as the `Debug` text of its
/// `url::ParseError`; none when it accepts the text.
pub uninterp spec fn url_parse_error(s: Seq<char>) -> Option<Seq<char>>;

/// Parses `s` with `url::Url::parse` (the `Url` that `reqwest` re-exports)
/// and gives the `Debug` text of the error, if any. What the parser accepts
/// is named, not stated.
#[verifier::external_body]
pub(crate) fn check_url(s: &str) -> (r: Option<String>)
    ensures
        opt_text(r) == url_parse_error(s@),
{
    match url::Url::parse(s) {
        Ok(_) => None,
        Err(e) => Some(format!("{:?}", e)),
    }
}

/// The text `Endpoint <endpoint> is not supported`.
pub open spec fn unsupported_endpoint_text(endpoint: Seq<char>) -> Seq<char> {
    "Endpoint "@ + endpoint + " is not supported"@
}

/// The message given for an endpoint that has no transport.
pub fn unsupported_endpoint_message(endpoint: &str) -> (r: String)
    ensures
        r@ == unsupported_endpoint_text(endpoint@),
{
    String::from_str("Endpoint ").concat(endpoint).concat(" is not supported")
}

} // verus!
