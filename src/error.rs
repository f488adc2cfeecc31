//! The ways a handshake can fail, one variant per condition.
use vstd::prelude::*;

use crate::digits::{decimal, hex, push_digits};
use crate::method::Socks5Method;
use crate::reply::Socks5Reply;

verus! {

/// Why a handshake attempt failed.
#[derive(Clone, Debug, PartialEq, Eq)]
pub enum Socks5Error {
    /// A failure described by its message alone.
    Other(String),
    /// A host name whose byte length is zero or above 255.
    InvalidHostLength(usize),
    /// An address-type byte other than 0x01, 0x03 or 0x04.
    InvalidAddressType(u8),
    /// The server chose an authentication method the client cannot perform.
    UnsupportedMethod(Socks5Method),
    /// The server spoke a protocol version other than 5.
    UnsupportedVersion(u8),
    /// No explicit port, and the scheme has no known default port.
    UnsupportedScheme(String),
    /// The server accepted none of the offered methods.
    NoAcceptableMethods,
    /// The reserved byte of the reply was not zero.
    InvalidReserved(u8),
    /// The server answered the CONNECT request with a failure code.
    ReplyError(Socks5Reply),
}

impl Socks5Error {
    /// The human-readable message of the error.
    pub open spec fn text(self) -> Seq<char> {
        match self {
            Socks5Error::Other(msg) => msg@,
            Socks5Error::InvalidHostLength(length) => "invalid hostname length: "@ + decimal(
                length as nat,
            ),
            Socks5Error::InvalidAddressType(atyp) => "server replied with invalid address type: "@
                + hex(atyp as nat, false),
            Socks5Error::UnsupportedMethod(method) =>
                "server replied with method type unsupported by client: "@ + method.text(),
            Socks5Error::UnsupportedVersion(version) =>
                "server replied with unsupported socks version: "@ + decimal(version as nat),
            Socks5Error::UnsupportedScheme(scheme) => "unable to determine port for scheme: "@
                + scheme@,
            Socks5Error::NoAcceptableMethods =>
                "server indicated that none of the provided methods are acceptable"@,
            Socks5Error::InvalidReserved(rsv) => "invalid reserved byte: "@ + decimal(rsv as nat),
            Socks5Error::ReplyError(reply) => reply.text(),
        }
    }

    /// The human-readable message of the error.
    pub fn to_string(&self) -> (s: String)
        ensures
            s@ == self.text(),
    {
        match self {
            Socks5Error::Other(msg) => msg.clone(),
            Socks5Error::InvalidHostLength(length) => {
                let mut s = String::from_str("invalid hostname length: ");
                push_digits(&mut s, *length as u64, 10, false);
                s
            },
            Socks5Error::InvalidAddressType(atyp) => {
                let mut s = String::from_str("server replied with invalid address type: ");
                push_digits(&mut s, *atyp as u64, 16, false);
                s
            },
            Socks5Error::UnsupportedMethod(method) => {
                let s = String::from_str("server replied with method type unsupported by client: ");
                let name = method.to_string();
                s.concat(name.as_str())
            },
            Socks5Error::UnsupportedVersion(version) => {
                let mut s = String::from_str("server replied with unsupported socks version: ");
                push_digits(&mut s, *version as u64, 10, false);
                s
            },
            Socks5Error::UnsupportedScheme(scheme) => {
                let s = String::from_str("unable to determine port for scheme: ");
                s.concat(scheme.as_str())
            },
            Socks5Error::NoAcceptableMethods => String::from_str(
                "server indicated that none of the provided methods are acceptable",
            ),
            Socks5Error::InvalidReserved(rsv) => {
                let mut s = String::from_str("invalid reserved byte: ");
                push_digits(&mut s, *rsv as u64, 10, false);
                s
            },
            Socks5Error::ReplyError(reply) => reply.to_string(),
        }
    }
}

/// A failure described by `msg` alone.
pub fn other(msg: &str) -> (e: Socks5Error)
    ensures
        e matches Socks5Error::Other(m) && m@ == msg@,
{
    Socks5Error::Other(msg.to_owned())
}

/// The host name is `length` bytes long, which does not fit the one-byte length field.
pub fn invalid_host_length(length: usize) -> (e: Socks5Error)
    ensures
        e == Socks5Error::InvalidHostLength(length),
{
    Socks5Error::InvalidHostLength(length)
}

/// The server used the unknown address type `atyp`.
pub fn invalid_address_type(atyp: u8) -> (e: Socks5Error)
    ensures
        e == Socks5Error::InvalidAddressType(atyp),
{
    Socks5Error::InvalidAddressType(atyp)
}

/// The server chose `method`, which this client cannot perform.
pub fn unsupported_method(method: Socks5Method) -> (e: Socks5Error)
    ensures
        e == Socks5Error::UnsupportedMethod(method),
{
    Socks5Error::UnsupportedMethod(method)
}

/// The server spoke protocol version `version`.
pub fn unsupported_version(version: u8) -> (e: Socks5Error)
    ensures
        e == Socks5Error::UnsupportedVersion(version),
{
    Socks5Error::UnsupportedVersion(version)
}

/// No default port is known for `scheme`.
pub fn unsupported_scheme(scheme: &str) -> (e: Socks5Error)
    ensures
        e matches Socks5Error::UnsupportedScheme(s) && s@ == scheme@,
{
    Socks5Error::UnsupportedScheme(scheme.to_owned())
}

/// The server accepted none of the offered methods.
pub fn no_acceptable_methods() -> (e: Socks5Error)
    ensures
        e == Socks5Error::NoAcceptableMethods,
{
    Socks5Error::NoAcceptableMethods
}

/// The reply's reserved byte was `rsv` instead of zero.
pub fn invalid_reserved(rsv: u8) -> (e: Socks5Error)
    ensures
        e == Socks5Error::InvalidReserved(rsv),
{
    Socks5Error::InvalidReserved(rsv)
}

/// The server refused the CONNECT request with `reply`.
pub fn reply_error(reply: Socks5Reply) -> (e: Socks5Error)
    ensures
        e == Socks5Error::ReplyError(reply),
{
    Socks5Error::ReplyError(reply)
}

} // verus!
