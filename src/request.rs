//! Encoding of the CONNECT request for a destination.
use vstd::prelude::*;
use vstd::utf8::encode_utf8;

use crate::error::Socks5Error;

verus! {

/// The protocol version, first byte of every message in both directions.
pub const SOCKS_VERSION: u8 = 5;

/// The CONNECT command.
pub const CMD_CONNECT: u8 = 1;

/// The value of every reserved byte.
pub const RESERVED: u8 = 0;

/// Address type of a four-byte IPv4 address.
pub const ATYP_IPV4: u8 = 0x01;

/// Address type of a length-prefixed domain name.
pub const ATYP_DOMAIN: u8 = 0x03;

/// Address type of a sixteen-byte IPv6 address.
pub const ATYP_IPV6: u8 = 0x04;

/// The host of a destination: a literal IP address or a name for the proxy to resolve.
#[derive(Clone, Debug, PartialEq, Eq)]
pub enum HostAddress {
    /// A literal IPv4 address, as its octets.
    V4([u8; 4]),
    /// A literal IPv6 address, as its octets.
    V6([u8; 16]),
    /// Anything else: a domain name, sent as its UTF-8 bytes.
    Domain(String),
}

/// Where a connection attempt should lead.
#[derive(Clone, Debug, PartialEq, Eq)]
pub struct Destination {
    /// The host to reach.
    pub host: HostAddress,
    /// An explicit port, if one was given.
    pub port: Option<u16>,
    /// The scheme, used only to infer the port when none was given.
    pub scheme: String,
}

/// The bytes of a domain name on the wire.
pub open spec fn name_bytes(name: String) -> Seq<u8> {
    encode_utf8(name@)
}

/// The address-type byte and address of `host`, or why it cannot be sent.
pub open spec fn address_field(host: HostAddress) -> Result<Seq<u8>, Socks5Error> {
    match host {
        HostAddress::V4(octets) => Ok(seq![ATYP_IPV4] + octets@),
        HostAddress::V6(octets) => Ok(seq![ATYP_IPV6] + octets@),
        HostAddress::Domain(name) => {
            let b = name_bytes(name);
            if 1 <= b.len() <= 255 {
                Ok(seq![ATYP_DOMAIN, b.len() as u8] + b)
            } else {
                Err(Socks5Error::InvalidHostLength(b.len() as usize))
            }
        },
    }
}

/// The port to connect to: the explicit one, else the default of the scheme.
pub open spec fn port_for(port: Option<u16>, scheme: Seq<char>) -> Option<u16> {
    match port {
        Some(p) => Some(p),
        None => if scheme == "http"@ {
            Some(80u16)
        } else if scheme == "https"@ {
            Some(443u16)
        } else {
            None
        },
    }
}

/// A port as two bytes, most significant first.
pub open spec fn port_bytes(port: u16) -> Seq<u8> {
    seq![(port / 256) as u8, (port % 256) as u8]
}

/// The port of `dst`, or the error that an unknown scheme gives.
pub open spec fn resolved_port(port: Option<u16>, scheme: String) -> Result<u16, Socks5Error> {
    match port_for(port, scheme@) {
        Some(p) => Ok(p),
        None => Err(Socks5Error::UnsupportedScheme(scheme)),
    }
}

/// The complete CONNECT request for `dst`, or the first reason it cannot be built.
pub open spec fn connect_request(dst: Destination) -> Result<Seq<u8>, Socks5Error> {
    match address_field(dst.host) {
        Err(e) => Err(e),
        Ok(addr) => match resolved_port(dst.port, dst.scheme) {
            Err(e) => Err(e),
            Ok(p) => Ok(seq![SOCKS_VERSION, CMD_CONNECT, RESERVED] + addr + port_bytes(p)),
        },
    }
}

/// The bytes of a result, seen as a sequence.
pub open spec fn bytes_view(r: Result<Vec<u8>, Socks5Error>) -> Result<Seq<u8>, Socks5Error> {
    match r {
        Ok(v) => Ok(v@),
        Err(e) => Err(e),
    }
}

/// Appends every byte of `src` to `out`.
fn push_all(out: &mut Vec<u8>, src: &[u8])
    ensures
        final(out)@ == old(out)@ + src@,
{
    let mut i: usize = 0;
    while i < src.len()
        invariant
            i <= src@.len(),
            out@ == old(out)@ + src@.subrange(0, i as int),
        decreases src@.len() - i,
    {
        out.push(src[i]);
        i = i + 1;
        assert(out@ =~= old(out)@ + src@.subrange(0, i as int));
    }
    assert(src@.subrange(0, src@.len() as int) =~= src@);
}

/// Appends the address-type byte and address of `host` to `out`.
///
/// A domain name must be 1 to 255 bytes long; otherwise `out` is left as it was.
pub fn encode_address(host: &HostAddress, out: &mut Vec<u8>) -> (r: Result<(), Socks5Error>)
    ensures
        match address_field(*host) {
            Ok(field) => r is Ok && final(out)@ == old(out)@ + field,
            Err(e) => r == Err::<(), Socks5Error>(e) && final(out)@ == old(out)@,
        },
{
    match host {
        HostAddress::V4(octets) => {
            out.push(ATYP_IPV4);
            push_all(out, octets.as_slice());
            assert(out@ =~= old(out)@ + (seq![ATYP_IPV4] + octets@));
            Ok(())
        },
        HostAddress::V6(octets) => {
            out.push(ATYP_IPV6);
            push_all(out, octets.as_slice());
            assert(out@ =~= old(out)@ + (seq![ATYP_IPV6] + octets@));
            Ok(())
        },
        HostAddress::Domain(name) => {
            let bytes = name.as_str().as_bytes();
            let length = bytes.len();
            if length == 0 || length > 255 {
                return Err(Socks5Error::InvalidHostLength(length));
            }
            out.push(ATYP_DOMAIN);
            out.push(length as u8);
            push_all(out, bytes);
            assert(out@ =~= old(out)@ + (seq![ATYP_DOMAIN, length as u8] + name_bytes(*name)));
            Ok(())
        },
    }
}

/// The port to connect to: the explicit one, else 80 for "http" and 443 for
/// "https"; any other scheme without a port is an error.
pub fn resolve_port(port: Option<u16>, scheme: &String) -> (r: Result<u16, Socks5Error>)
    ensures
        r == resolved_port(port, *scheme),
{
    match port {
        Some(p) => Ok(p),
        None => {
            if *scheme == String::from_str("http") {
                Ok(80)
            } else if *scheme == String::from_str("https") {
                Ok(443)
            } else {
                Err(Socks5Error::UnsupportedScheme(scheme.clone()))
            }
        },
    }
}

/// Builds the CONNECT request for `dst`:
/// `[5, 1, 0, ATYP, address..., port high byte, port low byte]`.
pub fn encode_request(dst: &Destination) -> (r: Result<Vec<u8>, Socks5Error>)
    ensures
        bytes_view(r) == connect_request(*dst),
{
    let mut request: Vec<u8> = vec![SOCKS_VERSION, CMD_CONNECT, RESERVED];
    match encode_address(&dst.host, &mut request) {
        Err(e) => {
            return Err(e);
        },
        Ok(()) => {},
    }
    let port = match resolve_port(dst.port, &dst.scheme) {
        Err(e) => {
            return Err(e);
        },
        Ok(p) => p,
    };
    request.push((port / 256) as u8);
    request.push((port % 256) as u8);
    proof {
        let addr = address_field(dst.host)->Ok_0;
        assert(request@ =~= seq![SOCKS_VERSION, CMD_CONNECT, RESERVED] + addr + port_bytes(port));
    }
    Ok(request)
}

/// An IPv4 destination is sent as address type 0x01 followed by its four octets.
pub proof fn lemma_ipv4_request(dst: Destination, octets: [u8; 4])
    requires
        dst.host == HostAddress::V4(octets),
        port_for(dst.port, dst.scheme@) is Some,
    ensures
        connect_request(dst) matches Ok(b) && b.len() == 10 && b[3] == ATYP_IPV4 && b.subrange(
            4,
            8,
        ) == octets@,
{
    let b = connect_request(dst)->Ok_0;
    assert(b.subrange(4, 8) =~= octets@);
}

/// An IPv6 destination is sent as address type 0x04 followed by its sixteen octets.
pub proof fn lemma_ipv6_request(dst: Destination, octets: [u8; 16])
    requires
        dst.host == HostAddress::V6(octets),
        port_for(dst.port, dst.scheme@) is Some,
    ensures
        connect_request(dst) matches Ok(b) && b.len() == 22 && b[3] == ATYP_IPV6 && b.subrange(
            4,
            20,
        ) == octets@,
{
    let b = connect_request(dst)->Ok_0;
    assert(b.subrange(4, 20) =~= octets@);
}

/// A domain name of 1 to 255 bytes is sent as address type 0x03, its length and
/// its bytes; a name of any other length is refused with that length.
pub proof fn lemma_domain_request(dst: Destination, name: String)
    requires
        dst.host == HostAddress::Domain(name),
    ensures
        ({
            let l = name_bytes(name).len();
            if 1 <= l <= 255 {
                port_for(dst.port, dst.scheme@) is Some ==> (connect_request(dst) matches Ok(b)
                    && b[3] == ATYP_DOMAIN && b[4] == l && b.subrange(5, 5 + l as int)
                    == name_bytes(name))
            } else {
                connect_request(dst) == Err::<Seq<u8>, Socks5Error>(
                    Socks5Error::InvalidHostLength(l as usize),
                )
            }
        }),
{
    let l = name_bytes(name).len();
    if 1 <= l <= 255 && port_for(dst.port, dst.scheme@) is Some {
        let b = connect_request(dst)->Ok_0;
        assert(b.subrange(5, 5 + l as int) =~= name_bytes(name));
    }
}

/// Without an explicit port, "http" gives port bytes `[0x00, 0x50]`, "https" gives
/// `[0x01, 0xBB]`, and any other scheme is refused.
pub proof fn lemma_default_ports(dst: Destination)
    requires
        dst.port is None,
        address_field(dst.host) is Ok,
    ensures
        dst.scheme@ == "http"@ ==> (connect_request(dst) matches Ok(b) && b.subrange(
            b.len() - 2,
            b.len() as int,
        ) == seq![0x00u8, 0x50u8]),
        dst.scheme@ == "https"@ ==> (connect_request(dst) matches Ok(b) && b.subrange(
            b.len() - 2,
            b.len() as int,
        ) == seq![0x01u8, 0xBBu8]),
        dst.scheme@ != "http"@ && dst.scheme@ != "https"@ ==> connect_request(dst) == Err::<
            Seq<u8>,
            Socks5Error,
        >(Socks5Error::UnsupportedScheme(dst.scheme)),
{
    reveal_strlit("http");
    reveal_strlit("https");
    assert("http"@.len() != "https"@.len());
    if dst.scheme@ == "http"@ || dst.scheme@ == "https"@ {
        let b = connect_request(dst)->Ok_0;
        let p = port_for(dst.port, dst.scheme@)->Some_0;
        assert(b.subrange(b.len() - 2, b.len() as int) =~= port_bytes(p));
        assert(port_bytes(80u16) =~= seq![0x00u8, 0x50u8]);
        assert(port_bytes(443u16) =~= seq![0x01u8, 0xBBu8]);
    }
}

} // verus!
