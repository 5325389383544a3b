use vstd::prelude::*;

verus! {

/// The single typed failure that aborts the bridging of one request.
#[derive(Debug)]
pub enum BridgeError {
    /// The forced actor identifier (the text carried here) is malformed.
    Config(String),
    /// No actor identifier could be derived from the request; carries the
    /// request's URI.
    Resolution(String),
    /// Serialisation or deserialisation failed, or a header of the call's
    /// result is not valid HTTP.
    Encoding(String),
    /// A network or connection failure on either call.
    Transport(String),
    /// The authoritative call did not complete before the polling deadline.
    Timeout,
}

} // verus!
