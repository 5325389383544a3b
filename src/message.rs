use vstd::prelude::*;

use crate::actor::{designated_text, opt_view, principal_text_valid, resolve_actor, ActorId};
use crate::error::BridgeError;

verus! {

/// An ordered header list: (name bytes, value bytes) pairs, duplicates kept.
pub type HeaderList = Vec<(Vec<u8>, Vec<u8>)>;

/// The parts of an inbound HTTP request that the bridge reads.
pub struct InboundRequest {
    pub method: String,
    /// The full request URI, as text.
    pub uri: String,
    /// The URI's host, if it has one.
    pub host: Option<String>,
    /// The URI's path and query, if it has them.
    pub path_and_query: Option<String>,
    pub headers: HeaderList,
    pub body: Vec<u8>,
}

/// The payload handed to the actor's entry points.
pub struct CallRequest {
    pub method: String,
    pub headers: HeaderList,
    pub uri: String,
    pub body: Vec<u8>,
}

/// What an actor's entry point returns.
pub struct CallResult {
    pub status: u16,
    pub headers: HeaderList,
    pub body: Vec<u8>,
    /// Set by the read probe when the request needs the state-mutating path.
    pub upgrade: bool,
}

/// The URI carried by a call request whose inbound request has no path and
/// query.
pub const URI_SENTINEL: &'static str = ",";

/// The URI text of a call request built from a path-and-query part.
pub open spec fn call_uri(path_and_query: Option<Seq<char>>) -> Seq<char> {
    match path_and_query {
        Some(p) if p.len() > 0 => p,
        _ => URI_SENTINEL@,
    }
}

/// The characters of an optional string.
pub open spec fn opt_string_view(s: Option<String>) -> Option<Seq<char>> {
    match s {
        Some(t) => Some(t@),
        None => None,
    }
}

/// Whether `c` is `req` rendered as a call request: method, headers and body
/// copied verbatim, the URI taken from the path and query.
pub open spec fn encodes(req: InboundRequest, c: CallRequest) -> bool {
    &&& c.method@ == req.method@
    &&& c.headers@ == req.headers@
    &&& c.uri@ == call_uri(opt_string_view(req.path_and_query))
    &&& c.body@ == req.body@
}

/// Builds the call payload of an inbound request.
pub fn build_call_request(req: InboundRequest) -> (r: CallRequest)
    ensures
        encodes(req, r),
        r.uri@.len() > 0,
{
    proof {
        reveal_strlit(",");
    }
    let InboundRequest { method, uri: _, host: _, path_and_query, headers, body } = req;
    let uri = match path_and_query {
        Some(p) => {
            if p.as_str().is_empty() {
                URI_SENTINEL.to_owned()
            } else {
                p
            }
        },
        None => URI_SENTINEL.to_owned(),
    };
    CallRequest { method, headers, uri, body }
}

/// Resolves the target actor of `req` and builds its call payload; fails
/// before any network work when no valid actor identifier is found.
pub fn prepare(forced: &str, req: InboundRequest) -> (r: Result<(ActorId, CallRequest), BridgeError>)
    ensures
        forced@.len() > 0 ==> match r {
            Ok((a, c)) => principal_text_valid(forced@) && a@ == forced@ && encodes(req, c),
            Err(BridgeError::Config(t)) => !principal_text_valid(forced@) && t@ == forced@,
            Err(_) => false,
        },
        forced@.len() == 0 ==> match r {
            Ok((a, c)) => {
                &&& designated_text(forced@, opt_string_view(req.host)) matches Some(t)
                &&& principal_text_valid(t)
                &&& a@ == t
                &&& encodes(req, c)
            },
            Err(BridgeError::Resolution(u)) => {
                &&& u@ == req.uri@
                &&& !(designated_text(forced@, opt_string_view(req.host)) matches Some(t)
                    && principal_text_valid(t))
            },
            Err(_) => false,
        },
{
    let host: Option<&str> = match &req.host {
        Some(h) => Some(h.as_str()),
        None => None,
    };
    assert(opt_view(host) == opt_string_view(req.host));
    match resolve_actor(forced, host, req.uri.as_str()) {
        Ok(a) => Ok((a, build_call_request(req))),
        Err(e) => Err(e),
    }
}

} // verus!
