use sonicks::error::Socks5Error;
use sonicks::handshake::{
    check_method, check_reply_header, method_request, Action, BoundAddress, Handshake, Phase,
};
use sonicks::method::Socks5Method;
use sonicks::reply::Socks5Reply;
use sonicks::request::{Destination, HostAddress};

fn target() -> Destination {
    Destination {
        host: HostAddress::Domain("httpbin.net".to_string()),
        port: None,
        scheme: "http".to_string(),
    }
}

/// Runs a handshake against a server that answers with `server`, byte for byte.
/// Returns the outcome, everything the client wrote, and how many bytes it read.
fn run(target: Destination, server: &[u8]) -> (Result<(), Socks5Error>, Vec<u8>, usize) {
    let mut h = Handshake::new(target);
    let mut written = Vec::new();
    let mut read = 0;
    let mut input: Vec<u8> = Vec::new();
    loop {
        match h.advance(&input) {
            Action::Exchange { send, receive } => {
                written.extend_from_slice(&send);
                assert!(read + receive <= server.len(), "client read past the script");
                input = server[read..read + receive].to_vec();
                read += receive;
            }
            Action::Established => {
                assert_eq!(h.phase, Phase::Established);
                return (Ok(()), written, read);
            }
            Action::Failed(e) => {
                assert_eq!(h.phase, Phase::Failed);
                return (Err(e), written, read);
            }
        }
    }
}

fn expected_request() -> Vec<u8> {
    let mut r = vec![5, 1, 0, 3, 11];
    r.extend_from_slice(b"httpbin.net");
    r.extend_from_slice(&[0, 80]);
    r
}

#[test]
fn scenario_ipv4_reply_succeeds() {
    let server = [5, 0, 5, 0, 0, 1, 0, 0, 0, 0, 0x1F, 0x90];
    let (r, written, read) = run(target(), &server);
    assert_eq!(r, Ok(()));
    let mut expected = vec![5, 1, 0];
    expected.extend(expected_request());
    assert_eq!(written, expected);
    assert_eq!(read, server.len());
}

#[test]
fn scenario_no_acceptable_methods() {
    let (r, written, read) = run(target(), &[5, 0xFF]);
    assert_eq!(r, Err(Socks5Error::NoAcceptableMethods));
    assert_eq!(written, vec![5, 1, 0]);
    assert_eq!(read, 2);
}

#[test]
fn scenario_connection_refused() {
    let server = [5, 0, 5, 5, 0, 1, 0, 0, 0, 0, 0, 0];
    let (r, _, read) = run(target(), &server);
    assert_eq!(r, Err(Socks5Error::ReplyError(Socks5Reply::ConnectionRefused)));
    assert_eq!(read, 6);
}

#[test]
fn scenario_domain_reply_succeeds() {
    let server = [5, 0, 5, 0, 0, 3, 5, b'p', b'r', b'o', b'x', b'y', 0x04, 0x38];
    let (r, _, read) = run(target(), &server);
    assert_eq!(r, Ok(()));
    assert_eq!(read, server.len());
}

#[test]
fn scenario_invalid_address_type() {
    let (r, _, read) = run(target(), &[5, 0, 5, 0, 0, 2]);
    assert_eq!(r, Err(Socks5Error::InvalidAddressType(2)));
    assert_eq!(read, 6);
}

#[test]
fn ipv6_reply_consumes_sixteen_bytes() {
    let mut server = vec![5, 0, 5, 0, 0, 4];
    server.extend_from_slice(&[0u8; 16]);
    server.extend_from_slice(&[0, 80]);
    let (r, _, read) = run(target(), &server);
    assert_eq!(r, Ok(()));
    assert_eq!(read, server.len());
}

#[test]
fn wrong_version_at_negotiation() {
    let (r, _, _) = run(target(), &[4, 0]);
    assert_eq!(r, Err(Socks5Error::UnsupportedVersion(4)));
}

#[test]
fn unsupported_method_chosen() {
    let (r, _, _) = run(target(), &[5, 2]);
    assert_eq!(r, Err(Socks5Error::UnsupportedMethod(Socks5Method::UsernamePassword)));
}

#[test]
fn wrong_version_in_reply() {
    let (r, _, _) = run(target(), &[5, 0, 4, 0, 0, 1]);
    assert_eq!(r, Err(Socks5Error::UnsupportedVersion(4)));
}

#[test]
fn nonzero_reserved_byte_in_reply() {
    let (r, _, _) = run(target(), &[5, 0, 5, 0, 1, 1]);
    assert_eq!(r, Err(Socks5Error::InvalidReserved(1)));
}

#[test]
fn request_error_ends_after_negotiation() {
    let t = Destination {
        host: HostAddress::V4([10, 0, 0, 1]),
        port: None,
        scheme: "ftp".to_string(),
    };
    let (r, written, read) = run(t, &[5, 0]);
    assert_eq!(r, Err(Socks5Error::UnsupportedScheme("ftp".to_string())));
    assert_eq!(written, vec![5, 1, 0]);
    assert_eq!(read, 2);
}

#[test]
fn method_table() {
    assert_eq!(method_request(), vec![5, 1, 0]);
    assert_eq!(check_method(5, Socks5Method::NoAuthRequired), Ok(()));
    assert_eq!(check_method(5, Socks5Method::NoAcceptable), Err(Socks5Error::NoAcceptableMethods));
    assert_eq!(
        check_method(5, Socks5Method::Private(0x90)),
        Err(Socks5Error::UnsupportedMethod(Socks5Method::Private(0x90)))
    );
    assert_eq!(check_method(6, Socks5Method::NoAcceptable), Err(Socks5Error::UnsupportedVersion(6)));
}

#[test]
fn reply_header_framing() {
    assert_eq!(check_reply_header(&[5, 0, 0, 1]), Ok(BoundAddress::Fixed(4)));
    assert_eq!(check_reply_header(&[5, 0, 0, 4]), Ok(BoundAddress::Fixed(16)));
    assert_eq!(check_reply_header(&[5, 0, 0, 3]), Ok(BoundAddress::Prefixed));
    assert_eq!(
        check_reply_header(&[5, 0x20, 0, 1]),
        Err(Socks5Error::ReplyError(Socks5Reply::Unassigned(0x20)))
    );
}
