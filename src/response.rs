use vstd::prelude::*;

use crate::error::BridgeError;
use crate::message::{CallResult, HeaderList};

verus! {

/// Whether `name` is accepted as an HTTP header name by
/// `http::header::HeaderName::from_bytes` (token characters only, bounded
/// length).
pub uninterp spec fn header_name_accepted(name: Seq<u8>) -> bool;

/// Relies on `http::header::HeaderName::from_bytes`: it accepts or rejects a
/// name from its bytes alone.
#[verifier::external_body]
fn check_header_name(name: &[u8]) -> (r: bool)
    ensures
        r == header_name_accepted(name@),
{
    http::header::HeaderName::from_bytes(name).is_ok()
}

/// A byte that may stand in an HTTP header value: a tab, or any byte from
/// space upwards but DEL.
pub open spec fn value_byte_ok(b: u8) -> bool {
    (b >= 32 && b != 127) || b == 9
}

pub open spec fn header_value_ok(value: Seq<u8>) -> bool {
    forall|i: int| 0 <= i < value.len() ==> value_byte_ok(#[trigger] value[i])
}

/// Relies on `http::header::HeaderValue::from_bytes`: it fails exactly when a
/// byte is neither a tab nor at least a space and other than DEL.
#[verifier::external_body]
fn check_header_value(value: &[u8]) -> (r: bool)
    ensures
        r == header_value_ok(value@),
{
    http::header::HeaderValue::from_bytes(value).is_ok()
}

/// Whether every header of the list has an acceptable name and value.
pub open spec fn headers_ok(headers: Seq<(Vec<u8>, Vec<u8>)>) -> bool {
    forall|i: int|
        0 <= i < headers.len() ==> header_name_accepted(#[trigger] headers[i].0@)
            && header_value_ok(headers[i].1@)
}

/// The HTTP response handed back to the serving adapter.
pub struct HttpResponse {
    pub status: u16,
    pub headers: HeaderList,
    pub body: Vec<u8>,
}

/// Checks every header of a list, in order.
pub fn check_headers(headers: &HeaderList) -> (r: bool)
    ensures
        r == headers_ok(headers@),
{
    let mut i: usize = 0;
    while i < headers.len()
        invariant
            i <= headers@.len(),
            headers_ok(headers@.subrange(0, i as int)),
        decreases headers@.len() - i,
    {
        let name_ok = check_header_name(headers[i].0.as_slice());
        let value_ok = check_header_value(headers[i].1.as_slice());
        if !(name_ok && value_ok) {
            assert(!(header_name_accepted(headers@[i as int].0@) && header_value_ok(
                headers@[i as int].1@,
            )));
            return false;
        }
        assert(headers@.subrange(0, i + 1) =~= headers@.subrange(0, i as int).push(
            headers@[i as int],
        ));
        i = i + 1;
    }
    assert(headers@.subrange(0, i as int) =~= headers@);
    true
}

/// Rebuilds the HTTP response of a final call result: status, headers (in
/// order, duplicates kept) and body carried over unchanged; fails with
/// `Encoding` when a header is not valid HTTP.
pub fn build_response(result: CallResult) -> (r: Result<HttpResponse, BridgeError>)
    ensures
        r is Ok <==> headers_ok(result.headers@),
        r matches Ok(resp) ==> {
            &&& resp.status == result.status
            &&& resp.headers@ == result.headers@
            &&& resp.body@ == result.body@
        },
        r matches Err(e) ==> e is Encoding,
{
    if check_headers(&result.headers) {
        let CallResult { status, headers, body, upgrade: _ } = result;
        Ok(HttpResponse { status, headers, body })
    } else {
        Err(BridgeError::Encoding("a header of the call result is not valid HTTP".to_owned()))
    }
}

} // verus!
