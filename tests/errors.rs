use sonicks::error::{
    invalid_address_type, invalid_host_length, invalid_reserved, no_acceptable_methods, other,
    reply_error, unsupported_method, unsupported_scheme, unsupported_version, Socks5Error,
};
use sonicks::method::Socks5Method;
use sonicks::reply::Socks5Reply;

#[test]
fn constructors_build_their_variant() {
    assert_eq!(other("boom"), Socks5Error::Other("boom".to_string()));
    assert_eq!(invalid_host_length(300), Socks5Error::InvalidHostLength(300));
    assert_eq!(invalid_address_type(2), Socks5Error::InvalidAddressType(2));
    assert_eq!(
        unsupported_method(Socks5Method::Gssapi),
        Socks5Error::UnsupportedMethod(Socks5Method::Gssapi)
    );
    assert_eq!(unsupported_version(4), Socks5Error::UnsupportedVersion(4));
    assert_eq!(unsupported_scheme("ftp"), Socks5Error::UnsupportedScheme("ftp".to_string()));
    assert_eq!(no_acceptable_methods(), Socks5Error::NoAcceptableMethods);
    assert_eq!(invalid_reserved(7), Socks5Error::InvalidReserved(7));
    assert_eq!(
        reply_error(Socks5Reply::HostUnreachable),
        Socks5Error::ReplyError(Socks5Reply::HostUnreachable)
    );
}

#[test]
fn error_messages() {
    assert_eq!(other("boom").to_string(), "boom");
    assert_eq!(invalid_host_length(0).to_string(), "invalid hostname length: 0");
    assert_eq!(invalid_host_length(1234).to_string(), "invalid hostname length: 1234");
    assert_eq!(
        invalid_address_type(0x2b).to_string(),
        "server replied with invalid address type: 2b"
    );
    assert_eq!(
        unsupported_method(Socks5Method::UsernamePassword).to_string(),
        "server replied with method type unsupported by client: USERNAME/PASSWORD"
    );
    assert_eq!(
        unsupported_version(4).to_string(),
        "server replied with unsupported socks version: 4"
    );
    assert_eq!(
        unsupported_scheme("ftp").to_string(),
        "unable to determine port for scheme: ftp"
    );
    assert_eq!(
        no_acceptable_methods().to_string(),
        "server indicated that none of the provided methods are acceptable"
    );
    assert_eq!(invalid_reserved(255).to_string(), "invalid reserved byte: 255");
    assert_eq!(reply_error(Socks5Reply::ConnectionRefused).to_string(), "connection refused");
    assert_eq!(
        reply_error(Socks5Reply::Unassigned(0x0C)).to_string(),
        "Unassigned reply 0x0C"
    );
}
