use vstd::prelude::*;

use crate::digits::{hex, push_digits};

verus! {

/// The authentication method negotiated at the start of the handshake.
#[derive(Clone, Copy, Debug, PartialEq, Eq, Structural)]
pub enum Socks5Method {
    /// X'00' NO AUTHENTICATION REQUIRED
    NoAuthRequired,
    /// X'01' GSSAPI
    Gssapi,
    /// X'02' USERNAME/PASSWORD
    UsernamePassword,
    /// X'03' to X'7F' IANA ASSIGNED
    IanaAssigned(u8),
    /// X'80' to X'FE' RESERVED FOR PRIVATE METHODS
    Private(u8),
    /// X'FF' NO ACCEPTABLE METHODS
    NoAcceptable,
}

/// The method that a byte on the wire denotes.
pub open spec fn method_of_byte(b: u8) -> Socks5Method {
    if b == 0x00 {
        Socks5Method::NoAuthRequired
    } else if b == 0x01 {
        Socks5Method::Gssapi
    } else if b == 0x02 {
        Socks5Method::UsernamePassword
    } else if b <= 0x7F {
        Socks5Method::IanaAssigned(b)
    } else if b <= 0xFE {
        Socks5Method::Private(b)
    } else {
        Socks5Method::NoAcceptable
    }
}

impl Socks5Method {
    /// A method is well formed when the code it carries lies in its variant's range.
    pub open spec fn wf(self) -> bool {
        match self {
            Socks5Method::IanaAssigned(code) => 0x03 <= code <= 0x7F,
            Socks5Method::Private(code) => 0x80 <= code <= 0xFE,
            _ => true,
        }
    }

    /// The byte that stands for this method on the wire.
    pub open spec fn byte(self) -> u8 {
        match self {
            Socks5Method::NoAuthRequired => 0x00,
            Socks5Method::Gssapi => 0x01,
            Socks5Method::UsernamePassword => 0x02,
            Socks5Method::IanaAssigned(code) => code,
            Socks5Method::Private(code) => code,
            Socks5Method::NoAcceptable => 0xFF,
        }
    }

    /// The human-readable name of the method.
    pub open spec fn text(self) -> Seq<char> {
        match self {
            Socks5Method::NoAuthRequired => "NO AUTHENTICATION REQUIRED"@,
            Socks5Method::Gssapi => "GSSAPI"@,
            Socks5Method::UsernamePassword => "USERNAME/PASSWORD"@,
            Socks5Method::IanaAssigned(code) => "IANA ASSIGNED METHOD "@ + hex(code as nat, true),
            Socks5Method::Private(code) => "PRIVATE METHOD "@ + hex(code as nat, true),
            Socks5Method::NoAcceptable => "NO ACCEPTABLE METHODS"@,
        }
    }

    /// Decodes a method byte; every byte denotes exactly one method.
    pub fn from_byte(byte: u8) -> (m: Socks5Method)
        ensures
            m == method_of_byte(byte),
            m.wf(),
    {
        match byte {
            0x00 => Socks5Method::NoAuthRequired,
            0x01 => Socks5Method::Gssapi,
            0x02 => Socks5Method::UsernamePassword,
            0x03..=0x7F => Socks5Method::IanaAssigned(byte),
            0x80..=0xFE => Socks5Method::Private(byte),
            0xFF => Socks5Method::NoAcceptable,
        }
    }

    /// Encodes the method as its wire byte.
    pub fn to_byte(&self) -> (b: u8)
        ensures
            b == self.byte(),
    {
        match *self {
            Socks5Method::NoAuthRequired => 0x00,
            Socks5Method::Gssapi => 0x01,
            Socks5Method::UsernamePassword => 0x02,
            Socks5Method::IanaAssigned(code) => code,
            Socks5Method::Private(code) => code,
            Socks5Method::NoAcceptable => 0xFF,
        }
    }
}

impl Socks5Method {
    /// The human-readable name of the method.
    pub fn to_string(&self) -> (s: String)
        ensures
            s@ == self.text(),
    {
        match *self {
            Socks5Method::NoAuthRequired => String::from_str("NO AUTHENTICATION REQUIRED"),
            Socks5Method::Gssapi => String::from_str("GSSAPI"),
            Socks5Method::UsernamePassword => String::from_str("USERNAME/PASSWORD"),
            Socks5Method::IanaAssigned(code) => {
                let mut s = String::from_str("IANA ASSIGNED METHOD ");
                push_digits(&mut s, code as u64, 16, true);
                s
            },
            Socks5Method::Private(code) => {
                let mut s = String::from_str("PRIVATE METHOD ");
                push_digits(&mut s, code as u64, 16, true);
                s
            },
            Socks5Method::NoAcceptable => String::from_str("NO ACCEPTABLE METHODS"),
        }
    }
}

impl From<u8> for Socks5Method {
    fn from(byte: u8) -> (m: Socks5Method) {
        Socks5Method::from_byte(byte)
    }
}

impl vstd::std_specs::convert::FromSpecImpl<u8> for Socks5Method {
    open spec fn obeys_from_spec() -> bool {
        true
    }

    open spec fn from_spec(byte: u8) -> Socks5Method {
        method_of_byte(byte)
    }
}

impl From<Socks5Method> for u8 {
    fn from(m: Socks5Method) -> (b: u8) {
        m.to_byte()
    }
}

impl vstd::std_specs::convert::FromSpecImpl<Socks5Method> for u8 {
    open spec fn obeys_from_spec() -> bool {
        true
    }

    open spec fn from_spec(m: Socks5Method) -> u8 {
        m.byte()
    }
}

/// Decoding a byte and encoding the method again gives the byte back.
pub proof fn lemma_method_byte_round_trip(b: u8)
    ensures
        method_of_byte(b).byte() == b,
        method_of_byte(b).wf(),
{
}

/// Encoding a well-formed method and decoding the byte gives the method back.
pub proof fn lemma_method_round_trip(m: Socks5Method)
    requires
        m.wf(),
    ensures
        method_of_byte(m.byte()) == m,
{
}

} // verus!
