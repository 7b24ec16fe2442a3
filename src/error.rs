use vstd::prelude::*;

verus! {

/// The kinds of failure that a call into the client can surface.
#[derive(Debug, Clone, Copy, PartialEq, Eq, Structural)]
pub enum ClientError {
    /// The HTTP transport (TLS setup included) could not be built.
    TransportInit,
    /// A network-level failure while sending or receiving.
    Transport,
    /// The base address, path and query did not form a valid URL.
    Url,
    /// The request body could not be encoded.
    Serialization,
    /// A response header that had to be read was not valid text.
    HeaderDecode,
    /// The service rejected the bearer credential.
    InvalidToken,
    /// The credential refresh exchange failed.
    Auth,
    /// A response body did not decode into the expected record.
    Decode,
}

} // verus!
