use vstd::prelude::*;

verus! {

/// Why a ping failed.
#[derive(Debug, PartialEq, Eq)]
pub enum PingError {
    /// The host to ping is empty.
    InvalidHost,
    /// The protocol version is not one of the known ones.
    UnknownProtocol,
    /// The timeout is zero seconds.
    InvalidTimeout,
    /// The host is a literal IPv6 address, which is not supported.
    UnsupportedAddressFamily,
    /// No lookup gave an address for the named host.
    CannotResolve(String),
    /// No candidate address accepted a connection.
    AllAddressesTried,
    /// A varint in the response ran past five bytes.
    MalformedVarint,
    /// A length in the response was not strictly positive.
    NonPositiveVarint,
    /// The response packet had an id other than zero.
    UnknownPacketId(u8),
    /// The connection ended before the response was complete.
    ConnectionClosed,
}

} // verus!
