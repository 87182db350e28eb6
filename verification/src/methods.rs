//! The SOCKS5 authentication methods and their wire-byte encoding.

use vstd::prelude::*;

verus! {

/// The authentication methods a SOCKS5 negotiation can name.
///
/// Each variant has a fixed wire byte, given by [`AuthMethods::as_byte`];
/// `NotAcceptable` is the reply a server gives when no offered method is
/// enabled.
#[derive(Clone, Copy, PartialEq, Eq, Structural, Debug)]
pub enum AuthMethods {
    NoAuth,
    GsSAPI,
    UsernamePassword,
    IANAAssigned,
    Reserved,
    NotAcceptable,
}

impl AuthMethods {
    /// The wire byte of this method.
    pub open spec fn as_byte(self) -> u8 {
        match self {
            AuthMethods::NoAuth => 0,
            AuthMethods::GsSAPI => 1,
            AuthMethods::UsernamePassword => 2,
            AuthMethods::IANAAssigned => 3,
            AuthMethods::Reserved => 4,
            AuthMethods::NotAcceptable => 0xff,
        }
    }

    /// True exactly for the bytes that encode some method.
    pub open spec fn is_method_byte(value: u8) -> bool {
        value == 0 || value == 1 || value == 2 || value == 3 || value == 4 || value == 0xff
    }

    /// Decodes a wire byte; `None` for a byte that encodes no method.
    pub fn try_from_byte(value: u8) -> (r: Option<AuthMethods>)
        ensures
            r matches Some(m) ==> Self::is_method_byte(value) && m.as_byte() == value,
            r is None <==> !Self::is_method_byte(value),
    {
        match value {
            0 => Some(AuthMethods::NoAuth),
            1 => Some(AuthMethods::GsSAPI),
            2 => Some(AuthMethods::UsernamePassword),
            3 => Some(AuthMethods::IANAAssigned),
            4 => Some(AuthMethods::Reserved),
            0xff => Some(AuthMethods::NotAcceptable),
            _ => None,
        }
    }

    /// Decodes a wire byte known to encode a method.
    pub fn from(value: u8) -> (r: AuthMethods)
        requires
            Self::is_method_byte(value),
        ensures
            r.as_byte() == value,
    {
        match Self::try_from_byte(value) {
            Some(m) => m,
            None => AuthMethods::NoAuth,
        }
    }

    /// The wire byte of this method, as executable code.
    pub fn to_u8(&self) -> (r: u8)
        ensures
            r == self.as_byte(),
    {
        match self {
            AuthMethods::NoAuth => 0,
            AuthMethods::GsSAPI => 1,
            AuthMethods::UsernamePassword => 2,
            AuthMethods::IANAAssigned => 3,
            AuthMethods::Reserved => 4,
            AuthMethods::NotAcceptable => 0xff,
        }
    }
}

} // verus!
