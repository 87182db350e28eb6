//! CONNECT request parsing: the four header bytes, then a destination
//! address in one of three encodings, then a big-endian port.
//!
//! Only the CONNECT command is supported; any other command, an unknown
//! address type, and a buffer shorter than its framing promises are each
//! rejected with their own error, so the caller can answer with the
//! reply code the protocol defines.

use vstd::prelude::*;

use crate::bytes::{copy_range, port_at, read_port};
use crate::error::ProtocolError;

verus! {

/// A destination address in one of the three SOCKS5 encodings.
#[derive(Debug)]
pub enum TargetAddr {
    /// Four address octets.
    Ipv4 { octets: Vec<u8> },
    /// A hostname of at most 255 bytes, to be resolved by the connector.
    Domain { name: Vec<u8> },
    /// Sixteen address octets.
    Ipv6 { octets: Vec<u8> },
}

impl TargetAddr {
    /// True when the address has exactly the bytes its encoding asks for.
    pub open spec fn wf(self) -> bool {
        match self {
            TargetAddr::Ipv4 { octets } => octets@.len() == 4,
            TargetAddr::Domain { name } => name@.len() <= 255,
            TargetAddr::Ipv6 { octets } => octets@.len() == 16,
        }
    }

    /// The address-type byte of this encoding.
    pub open spec fn atyp_byte(self) -> u8 {
        match self {
            TargetAddr::Ipv4 { .. } => 1,
            TargetAddr::Domain { .. } => 3,
            TargetAddr::Ipv6 { .. } => 4,
        }
    }

    /// The wire bytes of the address: the octets themselves, a domain
    /// name behind its length byte.
    pub open spec fn wire_bytes(self) -> Seq<u8>
        recommends
            self.wf(),
    {
        match self {
            TargetAddr::Ipv4 { octets } => octets@,
            TargetAddr::Domain { name } => seq![name@.len() as u8] + name@,
            TargetAddr::Ipv6 { octets } => octets@,
        }
    }
}

/// A decoded CONNECT request: where the client asks the proxy to connect.
#[derive(Debug)]
pub struct ConnectRequest {
    pub addr: TargetAddr,
    pub port: u16,
}

/// True when the buffer holds a complete CONNECT request: the right
/// version, the CONNECT command, a known address type, and as many
/// address and port bytes as that type asks for.
pub open spec fn request_wf(b: Seq<u8>) -> bool {
    &&& b.len() >= 4
    &&& b[0] == 5
    &&& b[1] == 1
    &&& {
        ||| (b[3] == 1 && b.len() >= 10)
        ||| (b[3] == 3 && b.len() >= 5 && b.len() >= 7 + b[4])
        ||| (b[3] == 4 && b.len() >= 22)
    }
}

/// True when the buffer is shorter than its request framing promises.
pub open spec fn request_truncated(b: Seq<u8>) -> bool {
    ||| b.len() < 4
    ||| (b.len() >= 4 && b[0] == 5 && b[1] == 1 && {
        ||| (b[3] == 1 && b.len() < 10)
        ||| (b[3] == 3 && (b.len() < 5 || b.len() < 7 + b[4]))
        ||| (b[3] == 4 && b.len() < 22)
    })
}

/// The port a well-formed request names.
pub open spec fn requested_port(b: Seq<u8>) -> u16
    recommends
        request_wf(b),
{
    if b[3] == 1 {
        port_at(b, 8)
    } else if b[3] == 3 {
        port_at(b, 5 + b[4])
    } else {
        port_at(b, 20)
    }
}

/// Decodes a CONNECT request into its destination address and port.
///
/// Exactly the well-formed buffers are accepted; each kind of rejection
/// is told apart so the caller can send the reply the protocol defines
/// for it (command not supported, address type not supported) or close
/// the connection (bad version, truncation).
pub fn parse_request(buf: &Vec<u8>) -> (r: Result<ConnectRequest, ProtocolError>)
    ensures
        r is Ok <==> request_wf(buf@),
        r matches Ok(req) ==> req.addr.wf() && req.port == requested_port(buf@),
        r matches Ok(req) ==> {
            &&& buf@[3] == 1 ==> (req.addr matches TargetAddr::Ipv4 { octets } && octets@
                == buf@.subrange(4, 8))
            &&& buf@[3] == 3 ==> (req.addr matches TargetAddr::Domain { name } && name@
                == buf@.subrange(5, 5 + buf@[4]))
            &&& buf@[3] == 4 ==> (req.addr matches TargetAddr::Ipv6 { octets } && octets@
                == buf@.subrange(4, 20))
        },
        r matches Err(e) ==> (e == ProtocolError::Truncated <==> request_truncated(buf@)),
        r matches Err(e) ==> (e == ProtocolError::BadVersion <==> buf@.len() >= 4 && buf@[0] != 5),
        r matches Err(e) ==> (e == ProtocolError::UnsupportedCommand <==> buf@.len() >= 4
            && buf@[0] == 5 && buf@[1] != 1),
        r matches Err(e) ==> (e == ProtocolError::UnsupportedAddressType <==> buf@.len() >= 4
            && buf@[0] == 5 && buf@[1] == 1 && buf@[3] != 1 && buf@[3] != 3 && buf@[3] != 4),
{
    let n = buf.len();
    if n < 4 {
        return Err(ProtocolError::Truncated);
    }
    if buf[0] != 5 {
        return Err(ProtocolError::BadVersion);
    }
    if buf[1] != 1 {
        return Err(ProtocolError::UnsupportedCommand);
    }
    let atyp = buf[3];
    if atyp == 1 {
        if n < 10 {
            return Err(ProtocolError::Truncated);
        }
        let octets = copy_range(buf, 4, 4);
        let port = read_port(buf, 8);
        Ok(ConnectRequest { addr: TargetAddr::Ipv4 { octets }, port })
    } else if atyp == 3 {
        if n < 5 {
            return Err(ProtocolError::Truncated);
        }
        let name_len = buf[4] as usize;
        if n < 7 || n - 7 < name_len {
            return Err(ProtocolError::Truncated);
        }
        let name = copy_range(buf, 5, name_len);
        let port = read_port(buf, 5 + name_len);
        Ok(ConnectRequest { addr: TargetAddr::Domain { name }, port })
    } else if atyp == 4 {
        if n < 22 {
            return Err(ProtocolError::Truncated);
        }
        let octets = copy_range(buf, 4, 16);
        let port = read_port(buf, 20);
        Ok(ConnectRequest { addr: TargetAddr::Ipv6 { octets }, port })
    } else {
        Err(ProtocolError::UnsupportedAddressType)
    }
}

} // verus!
