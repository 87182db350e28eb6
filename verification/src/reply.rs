//! CONNECT replies: the reply codes, the mapping from failures to codes,
//! and the byte-exact encoding of the reply message.

use vstd::prelude::*;

use crate::bytes::{append_bytes, port_bytes};
use crate::error::ProtocolError;
use crate::request::TargetAddr;

verus! {

/// The reply code a CONNECT answer carries.
#[derive(Clone, Copy, PartialEq, Eq, Structural, Debug)]
pub enum ReplyCode {
    Succeeded,
    GeneralFailure,
    NotAllowed,
    NetworkUnreachable,
    HostUnreachable,
    ConnectionRefused,
    TtlExpired,
    CommandNotSupported,
    AddressTypeNotSupported,
}

impl ReplyCode {
    /// The wire byte of this reply code.
    pub open spec fn as_byte(self) -> u8 {
        match self {
            ReplyCode::Succeeded => 0,
            ReplyCode::GeneralFailure => 1,
            ReplyCode::NotAllowed => 2,
            ReplyCode::NetworkUnreachable => 3,
            ReplyCode::HostUnreachable => 4,
            ReplyCode::ConnectionRefused => 5,
            ReplyCode::TtlExpired => 6,
            ReplyCode::CommandNotSupported => 7,
            ReplyCode::AddressTypeNotSupported => 8,
        }
    }

    /// The wire byte of this reply code, as executable code.
    pub fn to_u8(&self) -> (r: u8)
        ensures
            r == self.as_byte(),
    {
        match self {
            ReplyCode::Succeeded => 0,
            ReplyCode::GeneralFailure => 1,
            ReplyCode::NotAllowed => 2,
            ReplyCode::NetworkUnreachable => 3,
            ReplyCode::HostUnreachable => 4,
            ReplyCode::ConnectionRefused => 5,
            ReplyCode::TtlExpired => 6,
            ReplyCode::CommandNotSupported => 7,
            ReplyCode::AddressTypeNotSupported => 8,
        }
    }
}

/// How an upstream connection attempt failed, as the transport reported
/// it; `Other` is everything without a closer classification.
#[derive(Clone, Copy, PartialEq, Eq, Structural, Debug)]
pub enum ConnectErrorKind {
    ConnectionRefused,
    NetworkUnreachable,
    HostUnreachable,
    TtlExpired,
    NotAllowed,
    Other,
}

/// The reply code that answers a failed upstream connection attempt;
/// an unclassifiable failure is answered with general failure.
pub fn reply_code_for_connect_error(kind: &ConnectErrorKind) -> (r: ReplyCode)
    ensures
        r == match *kind {
            ConnectErrorKind::ConnectionRefused => ReplyCode::ConnectionRefused,
            ConnectErrorKind::NetworkUnreachable => ReplyCode::NetworkUnreachable,
            ConnectErrorKind::HostUnreachable => ReplyCode::HostUnreachable,
            ConnectErrorKind::TtlExpired => ReplyCode::TtlExpired,
            ConnectErrorKind::NotAllowed => ReplyCode::NotAllowed,
            ConnectErrorKind::Other => ReplyCode::GeneralFailure,
        },
{
    match kind {
        ConnectErrorKind::ConnectionRefused => ReplyCode::ConnectionRefused,
        ConnectErrorKind::NetworkUnreachable => ReplyCode::NetworkUnreachable,
        ConnectErrorKind::HostUnreachable => ReplyCode::HostUnreachable,
        ConnectErrorKind::TtlExpired => ReplyCode::TtlExpired,
        ConnectErrorKind::NotAllowed => ReplyCode::NotAllowed,
        ConnectErrorKind::Other => ReplyCode::GeneralFailure,
    }
}

/// The reply code owed for a rejected request, where the protocol
/// defines one; a bad version or a truncated message gets no reply, the
/// connection is closed instead.
pub fn reply_code_for_protocol_error(e: &ProtocolError) -> (r: Option<ReplyCode>)
    ensures
        r == match *e {
            ProtocolError::UnsupportedCommand => Some(ReplyCode::CommandNotSupported),
            ProtocolError::UnsupportedAddressType => Some(ReplyCode::AddressTypeNotSupported),
            _ => None::<ReplyCode>,
        },
{
    match e {
        ProtocolError::UnsupportedCommand => Some(ReplyCode::CommandNotSupported),
        ProtocolError::UnsupportedAddressType => Some(ReplyCode::AddressTypeNotSupported),
        _ => None,
    }
}

/// The bytes of a CONNECT reply: version, reply code, a zero reserved
/// byte, then the bound address and port in the request encoding.
pub open spec fn reply_bytes(code: ReplyCode, addr: TargetAddr, port: u16) -> Seq<u8>
    recommends
        addr.wf(),
{
    seq![5u8, code.as_byte(), 0u8, addr.atyp_byte()] + addr.wire_bytes() + port_bytes(port)
}

/// Encodes a CONNECT reply carrying the given code, address and port.
pub fn encode_reply(code: &ReplyCode, addr: &TargetAddr, port: u16) -> (r: Vec<u8>)
    requires
        addr.wf(),
    ensures
        r@ == reply_bytes(*code, *addr, port),
{
    let mut out: Vec<u8> = Vec::new();
    out.push(5);
    out.push(code.to_u8());
    out.push(0);
    match addr {
        TargetAddr::Ipv4 { octets } => {
            out.push(1);
            proof {
                assert(out@ =~= seq![5u8, code.as_byte(), 0u8, addr.atyp_byte()]);
            }
            append_bytes(&mut out, octets);
        },
        TargetAddr::Domain { name } => {
            out.push(3);
            out.push(name.len() as u8);
            proof {
                assert(out@ =~= seq![5u8, code.as_byte(), 0u8, addr.atyp_byte()] + seq![
                    name@.len() as u8,
                ]);
            }
            append_bytes(&mut out, name);
        },
        TargetAddr::Ipv6 { octets } => {
            out.push(4);
            proof {
                assert(out@ =~= seq![5u8, code.as_byte(), 0u8, addr.atyp_byte()]);
            }
            append_bytes(&mut out, octets);
        },
    }
    proof {
        assert(out@ =~= seq![5u8, code.as_byte(), 0u8, addr.atyp_byte()] + addr.wire_bytes());
    }
    out.push((port / 256) as u8);
    out.push((port % 256) as u8);
    proof {
        assert(out@ =~= reply_bytes(*code, *addr, port));
    }
    out
}

/// Encodes the failure reply that answers before the connection is
/// closed: the code, then an all-zero IPv4 address and port.
pub fn encode_failure_reply(code: &ReplyCode) -> (r: Vec<u8>)
    ensures
        r@ == seq![5u8, code.as_byte(), 0u8, 1u8, 0u8, 0u8, 0u8, 0u8, 0u8, 0u8],
{
    let mut zero: Vec<u8> = Vec::new();
    zero.push(0);
    zero.push(0);
    zero.push(0);
    zero.push(0);
    let addr = TargetAddr::Ipv4 { octets: zero };
    let r = encode_reply(code, &addr, 0);
    proof {
        assert(r@ =~= seq![5u8, code.as_byte(), 0u8, 1u8, 0u8, 0u8, 0u8, 0u8, 0u8, 0u8]);
    }
    r
}

} // verus!
