use vstd::prelude::*;

use crate::digits::{hex_byte, push_hex_byte};

verus! {

/// The reply code of the server's answer to a CONNECT request.
#[derive(Clone, Copy, Debug, PartialEq, Eq, Structural)]
pub enum Socks5Reply {
    /// X'00' succeeded
    Succeeded,
    /// X'01' general SOCKS server failure
    GeneralFailure,
    /// X'02' connection not allowed by ruleset
    NotAllowedRuleset,
    /// X'03' Network unreachable
    NetworkUnreachable,
    /// X'04' Host unreachable
    HostUnreachable,
    /// X'05' Connection refused
    ConnectionRefused,
    /// X'06' TTL expired
    TtlExpired,
    /// X'07' Command not supported
    CommandNotSupported,
    /// X'08' Address type not supported
    AddressTypeNotSupported,
    /// X'09' to X'FF' unassigned
    Unassigned(u8),
}

/// The reply code that a byte on the wire denotes.
pub open spec fn reply_of_byte(b: u8) -> Socks5Reply {
    if b == 0x00 {
        Socks5Reply::Succeeded
    } else if b == 0x01 {
        Socks5Reply::GeneralFailure
    } else if b == 0x02 {
        Socks5Reply::NotAllowedRuleset
    } else if b == 0x03 {
        Socks5Reply::NetworkUnreachable
    } else if b == 0x04 {
        Socks5Reply::HostUnreachable
    } else if b == 0x05 {
        Socks5Reply::ConnectionRefused
    } else if b == 0x06 {
        Socks5Reply::TtlExpired
    } else if b == 0x07 {
        Socks5Reply::CommandNotSupported
    } else if b == 0x08 {
        Socks5Reply::AddressTypeNotSupported
    } else {
        Socks5Reply::Unassigned(b)
    }
}

impl Socks5Reply {
    /// A reply is well formed when an unassigned code really is unassigned.
    pub open spec fn wf(self) -> bool {
        match self {
            Socks5Reply::Unassigned(code) => code >= 0x09,
            _ => true,
        }
    }

    /// The byte that stands for this reply code on the wire.
    pub open spec fn byte(self) -> u8 {
        match self {
            Socks5Reply::Succeeded => 0x00,
            Socks5Reply::GeneralFailure => 0x01,
            Socks5Reply::NotAllowedRuleset => 0x02,
            Socks5Reply::NetworkUnreachable => 0x03,
            Socks5Reply::HostUnreachable => 0x04,
            Socks5Reply::ConnectionRefused => 0x05,
            Socks5Reply::TtlExpired => 0x06,
            Socks5Reply::CommandNotSupported => 0x07,
            Socks5Reply::AddressTypeNotSupported => 0x08,
            Socks5Reply::Unassigned(code) => code,
        }
    }

    /// The human-readable description of the reply code.
    pub open spec fn text(self) -> Seq<char> {
        match self {
            Socks5Reply::Succeeded => "succeeded"@,
            Socks5Reply::GeneralFailure => "general SOCKS server failure"@,
            Socks5Reply::NotAllowedRuleset => "connection not allowed by ruleset"@,
            Socks5Reply::NetworkUnreachable => "network unreachable"@,
            Socks5Reply::HostUnreachable => "host unreachable"@,
            Socks5Reply::ConnectionRefused => "connection refused"@,
            Socks5Reply::TtlExpired => "TTL expired"@,
            Socks5Reply::CommandNotSupported => "command not supported"@,
            Socks5Reply::AddressTypeNotSupported => "address type not supported"@,
            Socks5Reply::Unassigned(code) => "Unassigned reply 0x"@ + hex_byte(code),
        }
    }

    /// Decodes a reply byte; every byte denotes exactly one reply code.
    pub fn from_byte(byte: u8) -> (r: Socks5Reply)
        ensures
            r == reply_of_byte(byte),
            r.wf(),
    {
        match byte {
            0x00 => Socks5Reply::Succeeded,
            0x01 => Socks5Reply::GeneralFailure,
            0x02 => Socks5Reply::NotAllowedRuleset,
            0x03 => Socks5Reply::NetworkUnreachable,
            0x04 => Socks5Reply::HostUnreachable,
            0x05 => Socks5Reply::ConnectionRefused,
            0x06 => Socks5Reply::TtlExpired,
            0x07 => Socks5Reply::CommandNotSupported,
            0x08 => Socks5Reply::AddressTypeNotSupported,
            code => Socks5Reply::Unassigned(code),
        }
    }

    /// Encodes the reply code as its wire byte.
    pub fn to_byte(&self) -> (b: u8)
        ensures
            b == self.byte(),
    {
        match *self {
            Socks5Reply::Succeeded => 0x00,
            Socks5Reply::GeneralFailure => 0x01,
            Socks5Reply::NotAllowedRuleset => 0x02,
            Socks5Reply::NetworkUnreachable => 0x03,
            Socks5Reply::HostUnreachable => 0x04,
            Socks5Reply::ConnectionRefused => 0x05,
            Socks5Reply::TtlExpired => 0x06,
            Socks5Reply::CommandNotSupported => 0x07,
            Socks5Reply::AddressTypeNotSupported => 0x08,
            Socks5Reply::Unassigned(code) => code,
        }
    }

    /// The human-readable description of the reply code.
    pub fn to_string(&self) -> (s: String)
        ensures
            s@ == self.text(),
    {
        match *self {
            Socks5Reply::Succeeded => String::from_str("succeeded"),
            Socks5Reply::GeneralFailure => String::from_str("general SOCKS server failure"),
            Socks5Reply::NotAllowedRuleset => String::from_str("connection not allowed by ruleset"),
            Socks5Reply::NetworkUnreachable => String::from_str("network unreachable"),
            Socks5Reply::HostUnreachable => String::from_str("host unreachable"),
            Socks5Reply::ConnectionRefused => String::from_str("connection refused"),
            Socks5Reply::TtlExpired => String::from_str("TTL expired"),
            Socks5Reply::CommandNotSupported => String::from_str("command not supported"),
            Socks5Reply::AddressTypeNotSupported => String::from_str("address type not supported"),
            Socks5Reply::Unassigned(code) => {
                let mut s = String::from_str("Unassigned reply 0x");
                push_hex_byte(&mut s, code);
                s
            },
        }
    }
}

impl From<u8> for Socks5Reply {
    fn from(byte: u8) -> (r: Socks5Reply) {
        Socks5Reply::from_byte(byte)
    }
}

impl vstd::std_specs::convert::FromSpecImpl<u8> for Socks5Reply {
    open spec fn obeys_from_spec() -> bool {
        true
    }

    open spec fn from_spec(byte: u8) -> Socks5Reply {
        reply_of_byte(byte)
    }
}

impl From<Socks5Reply> for u8 {
    fn from(r: Socks5Reply) -> (b: u8) {
        r.to_byte()
    }
}

impl vstd::std_specs::convert::FromSpecImpl<Socks5Reply> for u8 {
    open spec fn obeys_from_spec() -> bool {
        true
    }

    open spec fn from_spec(r: Socks5Reply) -> u8 {
        r.byte()
    }
}

/// Decoding a byte and encoding the reply code again gives the byte back.
pub proof fn lemma_reply_byte_round_trip(b: u8)
    ensures
        reply_of_byte(b).byte() == b,
        reply_of_byte(b).wf(),
{
}

/// Encoding a well-formed reply code and decoding the byte gives the code back.
pub proof fn lemma_reply_round_trip(r: Socks5Reply)
    requires
        r.wf(),
    ensures
        reply_of_byte(r.byte()) == r,
{
}

} // verus!
