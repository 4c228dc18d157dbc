//! What can go wrong between building a request and reading its response.
use vstd::prelude::*;

verus! {

/// A failure that the harness reports to the test.
#[derive(Clone, Copy, Debug, PartialEq, Eq, Structural)]
pub enum Error {
    /// A header key is not a valid HTTP header name.
    InvalidHeaderName,
    /// A header value holds a byte that no HTTP header value may hold.
    InvalidHeaderValue,
    /// The value for a JSON body could not be serialized.
    Serialize,
    /// The connection failed: refused, reset, timed out, or cut off mid-body.
    Transport,
    /// The body is not what it was to be read as.
    Decode,
    /// The body was to be read before the transport had delivered it.
    Incomplete,
}

} // verus!
