//! Username/password sub-negotiation: decoding the client's credential
//! message, checking it against the store, and encoding the status reply.
//!
//! The message is one version byte (which must be 1), one length byte
//! `u`, `u` username bytes, one length byte `p`, then `p` password
//! bytes. Each connection gets exactly one attempt; a failure reply is
//! followed by closing the connection.

use vstd::prelude::*;
use vstd::utf8::{decode_utf8, valid_utf8};

use crate::bytes::copy_range;
use crate::error::ProtocolError;
use crate::proxy::Proxy;

verus! {

/// True when the buffer holds a complete credential message: the right
/// version, and both length-prefixed fields fully present.
pub open spec fn auth_msg_wf(b: Seq<u8>) -> bool {
    b.len() >= 2 && b[0] == 1 && b.len() >= 3 + b[1] && b.len() >= 3 + b[1] + b[2 + b[1]]
}

/// The username bytes a well-formed credential message carries.
pub open spec fn username_bytes(b: Seq<u8>) -> Seq<u8>
    recommends
        auth_msg_wf(b),
{
    b.subrange(2, 2 + b[1])
}

/// The password bytes a well-formed credential message carries.
pub open spec fn password_bytes(b: Seq<u8>) -> Seq<u8>
    recommends
        auth_msg_wf(b),
{
    b.subrange(3 + b[1], 3 + b[1] + b[2 + b[1]])
}

/// The credentials a client sent, still as wire bytes.
pub struct AuthRequest {
    pub username: Vec<u8>,
    pub password: Vec<u8>,
}

/// Decodes the client's credential message into its username and
/// password bytes.
///
/// A buffer shorter than its two length bytes promise is rejected as
/// truncated, never read past its end.
pub fn parse_auth_message(buf: &Vec<u8>) -> (r: Result<AuthRequest, ProtocolError>)
    ensures
        r is Ok <==> auth_msg_wf(buf@),
        r matches Ok(a) ==> a.username@ == username_bytes(buf@) && a.password@ == password_bytes(
            buf@,
        ),
        r matches Err(e) ==> (e == ProtocolError::BadVersion <==> buf@.len() >= 1 && buf@[0] != 1),
        r matches Err(e) ==> (e == ProtocolError::Truncated <==> buf@.len() == 0 || (buf@[0] == 1
            && !auth_msg_wf(buf@))),
{
    let n = buf.len();
    if n == 0 {
        return Err(ProtocolError::Truncated);
    }
    if buf[0] != 1 {
        return Err(ProtocolError::BadVersion);
    }
    if n < 2 {
        return Err(ProtocolError::Truncated);
    }
    let user_len = buf[1] as usize;
    if n < 3 || n - 3 < user_len {
        return Err(ProtocolError::Truncated);
    }
    let pass_len = buf[2 + user_len] as usize;
    if n - 3 - user_len < pass_len {
        return Err(ProtocolError::Truncated);
    }
    let username = copy_range(buf, 2, user_len);
    let password = copy_range(buf, 3 + user_len, pass_len);
    Ok(AuthRequest { username, password })
}

/// The two-byte answer to a credential attempt: the sub-negotiation
/// version byte, then 0 for success or 1 for failure.
pub fn auth_reply(success: bool) -> (r: Vec<u8>)
    ensures
        r@ == seq![1u8, if success { 0u8 } else { 1u8 }],
{
    let mut reply: Vec<u8> = Vec::new();
    reply.push(1);
    reply.push(if success { 0 } else { 1 });
    proof {
        assert(reply@ =~= seq![1u8, if success { 0u8 } else { 1u8 }]);
    }
    reply
}

/// Relies on `String::from_utf8`: it returns `Ok` exactly when the bytes
/// are valid UTF-8, and the string it returns is their decoding.
#[verifier::external_body]
fn bytes_to_text(bytes: Vec<u8>) -> (r: Result<String, ProtocolError>)
    ensures
        r is Ok <==> valid_utf8(bytes@),
        r matches Ok(s) ==> s@ == decode_utf8(bytes@),
        r matches Err(e) ==> e == ProtocolError::InvalidText,
{
    match String::from_utf8(bytes) {
        Ok(s) => Ok(s),
        Err(_) => Err(ProtocolError::InvalidText),
    }
}

/// True when the store accepts the credentials, read as UTF-8 text.
pub open spec fn auth_accepted(
    store: Map<Seq<char>, Seq<char>>,
    username: Seq<u8>,
    password: Seq<u8>,
) -> bool {
    valid_utf8(username) && valid_utf8(password) && store.contains_key(decode_utf8(username))
        && store[decode_utf8(username)] == decode_utf8(password)
}

/// Checks one credential attempt against the store and builds the status
/// reply: 0 when the username is present with exactly that password, 1
/// when it is absent or the password differs.
///
/// Credentials that are not valid UTF-8 text are an error with no reply
/// owed: the connection is failed instead.
pub fn authenticate(proxy: &Proxy, request: AuthRequest) -> (r: Result<
    (bool, Vec<u8>),
    ProtocolError,
>)
    ensures
        r is Ok <==> valid_utf8(request.username@) && valid_utf8(request.password@),
        r matches Ok(out) ==> out.0 == auth_accepted(
            proxy.users_map(),
            request.username@,
            request.password@,
        ),
        r matches Ok(out) ==> out.1@ == seq![1u8, if out.0 { 0u8 } else { 1u8 }],
        r matches Err(e) ==> e == ProtocolError::InvalidText,
{
    let username = match bytes_to_text(request.username) {
        Ok(u) => u,
        Err(e) => {
            return Err(e);
        },
    };
    let password = match bytes_to_text(request.password) {
        Ok(p) => p,
        Err(e) => {
            return Err(e);
        },
    };
    let success = proxy.check_credentials(&username, &password);
    let reply = auth_reply(success);
    Ok((success, reply))
}

} // verus!
