//! Method negotiation: decoding the client's method list, selecting the
//! method the server answers with, and encoding that answer.
//!
//! The client's first message is one version byte (which must be 5), one
//! count byte `n`, then `n` method bytes. The server prefers
//! username/password over no-auth whenever both sides allow it, and
//! answers `0xff` (not acceptable) when the offered and enabled methods
//! do not intersect on a supported method.

use vstd::prelude::*;

use crate::error::ProtocolError;
use crate::methods::AuthMethods;
use crate::proxy::Proxy;

verus! {

/// True when the buffer holds a complete negotiation message: at least
/// the two header bytes, the right version, and as many method bytes as
/// the count byte declares.
pub open spec fn negotiation_msg_wf(b: Seq<u8>) -> bool {
    b.len() >= 2 && b[0] == 5 && b.len() >= 2 + b[1]
}

/// The method list a well-formed negotiation message carries.
pub open spec fn offered_methods(b: Seq<u8>) -> Seq<u8>
    recommends
        negotiation_msg_wf(b),
{
    b.subrange(2, 2 + b[1])
}

/// Decodes the client's negotiation message into its offered method
/// bytes.
///
/// A buffer shorter than its count byte promises is rejected as
/// truncated, never read past its end; a wrong version byte is rejected
/// without a reply being owed.
pub fn parse_methods(buf: &Vec<u8>) -> (r: Result<Vec<u8>, ProtocolError>)
    ensures
        r is Ok <==> negotiation_msg_wf(buf@),
        r matches Ok(methods) ==> methods@ == offered_methods(buf@),
        r matches Err(e) ==> (e == ProtocolError::BadVersion <==> buf@.len() >= 1 && buf@[0]
            != 5),
        r matches Err(e) ==> (e == ProtocolError::Truncated <==> buf@.len() == 0 || (buf@.len()
            >= 1 && buf@[0] == 5 && (buf@.len() < 2 || buf@.len() < 2 + buf@[1]))),
{
    if buf.len() == 0 {
        return Err(ProtocolError::Truncated);
    }
    if buf[0] != 5 {
        return Err(ProtocolError::BadVersion);
    }
    if buf.len() < 2 {
        return Err(ProtocolError::Truncated);
    }
    let count = buf[1] as usize;
    let n = buf.len();
    if n - 2 < count {
        return Err(ProtocolError::Truncated);
    }
    let mut methods: Vec<u8> = Vec::new();
    let mut i: usize = 0;
    while i < count
        invariant
            i <= count,
            n == buf@.len(),
            n >= 2 + count,
            methods@ == buf@.subrange(2, 2 + i),
        decreases count - i,
    {
        methods.push(buf[2 + i]);
        proof {
            assert(methods@ =~= buf@.subrange(2, 2 + i + 1));
        }
        i = i + 1;
    }
    Ok(methods)
}

/// The method the server selects from the client's offer:
/// username/password where both sides allow it, else no-auth where both
/// sides allow it, else not acceptable.
pub open spec fn selected_method(offered: Seq<u8>, enabled: Seq<AuthMethods>) -> AuthMethods {
    if offered.contains(AuthMethods::UsernamePassword.as_byte()) && enabled.contains(
        AuthMethods::UsernamePassword,
    ) {
        AuthMethods::UsernamePassword
    } else if offered.contains(AuthMethods::NoAuth.as_byte()) && enabled.contains(
        AuthMethods::NoAuth,
    ) {
        AuthMethods::NoAuth
    } else {
        AuthMethods::NotAcceptable
    }
}

/// True when the byte list holds the given byte.
fn contains_byte(bytes: &Vec<u8>, wanted: u8) -> (r: bool)
    ensures
        r == bytes@.contains(wanted),
{
    let mut i: usize = 0;
    while i < bytes.len()
        invariant
            i <= bytes@.len(),
            forall|j: int| 0 <= j < i ==> bytes@[j] != wanted,
        decreases bytes@.len() - i,
    {
        if bytes[i] == wanted {
            return true;
        }
        i = i + 1;
    }
    false
}

/// Selects the authentication method the server answers with, preferring
/// username/password over no-auth whatever order the client listed them
/// in.
pub fn select_method(offered: &Vec<u8>, proxy: &Proxy) -> (r: AuthMethods)
    ensures
        r == selected_method(offered@, proxy.spec_methods()),
{
    if contains_byte(offered, AuthMethods::UsernamePassword.to_u8()) && proxy
        .check_valid_auth_method(&AuthMethods::UsernamePassword) {
        AuthMethods::UsernamePassword
    } else if contains_byte(offered, AuthMethods::NoAuth.to_u8()) && proxy.check_valid_auth_method(
        &AuthMethods::NoAuth,
    ) {
        AuthMethods::NoAuth
    } else {
        AuthMethods::NotAcceptable
    }
}

/// The two-byte answer to a negotiation: the version byte and the
/// selected method's byte.
pub fn negotiation_reply(selected: &AuthMethods) -> (r: Vec<u8>)
    ensures
        r@ == seq![5u8, selected.as_byte()],
{
    let mut reply: Vec<u8> = Vec::new();
    reply.push(5);
    reply.push(selected.to_u8());
    proof {
        assert(reply@ =~= seq![5u8, selected.as_byte()]);
    }
    reply
}

/// Runs the whole negotiation stage on the client's first message:
/// decodes the offered methods, selects the answer, and encodes the
/// two-byte reply. The caller sends the reply, and closes the connection
/// when the selection is not acceptable or on an error.
pub fn negotiate(buf: &Vec<u8>, proxy: &Proxy) -> (r: Result<(AuthMethods, Vec<u8>), ProtocolError>)
    ensures
        r is Ok <==> negotiation_msg_wf(buf@),
        r matches Ok(out) ==> out.0 == selected_method(offered_methods(buf@), proxy.spec_methods()),
        r matches Ok(out) ==> out.1@ == seq![5u8, out.0.as_byte()],
        r matches Err(e) ==> (e == ProtocolError::BadVersion <==> buf@.len() >= 1 && buf@[0]
            != 5),
        r matches Err(e) ==> (e == ProtocolError::Truncated <==> buf@.len() == 0 || (buf@.len()
            >= 1 && buf@[0] == 5 && (buf@.len() < 2 || buf@.len() < 2 + buf@[1]))),
{
    let offered = match parse_methods(buf) {
        Ok(methods) => methods,
        Err(e) => {
            return Err(e);
        },
    };
    let selected = select_method(&offered, proxy);
    let reply = negotiation_reply(&selected);
    Ok((selected, reply))
}

/// A client that offers both username/password and no-auth is answered
/// with username/password whenever the server enables it, with no-auth
/// when the server enables only no-auth, and with not-acceptable when the
/// server enables neither.
pub proof fn lemma_method_selection_priority(offered: Seq<u8>, enabled: Seq<AuthMethods>)
    requires
        offered.contains(AuthMethods::UsernamePassword.as_byte()),
        offered.contains(AuthMethods::NoAuth.as_byte()),
    ensures
        enabled.contains(AuthMethods::UsernamePassword) ==> selected_method(offered, enabled)
            == AuthMethods::UsernamePassword,
        !enabled.contains(AuthMethods::UsernamePassword) && enabled.contains(AuthMethods::NoAuth)
            ==> selected_method(offered, enabled) == AuthMethods::NoAuth,
        !enabled.contains(AuthMethods::UsernamePassword) && !enabled.contains(AuthMethods::NoAuth)
            ==> selected_method(offered, enabled) == AuthMethods::NotAcceptable,
{
}

} // verus!
