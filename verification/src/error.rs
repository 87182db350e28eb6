//! The ways a client's message can violate the protocol.

use vstd::prelude::*;

verus! {

/// A protocol error found while decoding a client message.
///
/// Every variant is fatal to the connection; `UnsupportedCommand` and
/// `UnsupportedAddressType` are the two for which the request stage
/// defines an error reply.
#[derive(Clone, Copy, PartialEq, Eq, Structural, Debug)]
pub enum ProtocolError {
    /// The message declares more bytes than were given.
    Truncated,
    /// The version byte is not the one the stage expects.
    BadVersion,
    /// The request names a command other than CONNECT.
    UnsupportedCommand,
    /// The request names an address type other than IPv4, domain or IPv6.
    UnsupportedAddressType,
    /// A username or password is not valid UTF-8 text.
    InvalidText,
}

} // verus!
