//! A SOCKS5 proxy core: method negotiation, username/password
//! sub-negotiation, CONNECT request parsing for all three address types,
//! reply encoding, and the byte-relay state machine.
//!
//! Everything here is pure protocol logic over byte buffers and plain
//! values; the sockets, tasks and timers that drive it live outside the
//! library.

pub mod auth;
pub mod bytes;
pub mod error;
pub mod methods;
pub mod negotiation;
pub mod proxy;
pub mod relay;
pub mod reply;
pub mod request;

use vstd::prelude::*;

verus! {

/// True exactly when the given byte is the SOCKS5 version byte.
pub fn check_valid_version(version: &u8) -> (r: bool)
    ensures
        r == (*version == 5u8),
{
    0x05 == *version
}

} // verus!
