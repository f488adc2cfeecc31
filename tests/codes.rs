use sonicks::method::Socks5Method;
use sonicks::reply::Socks5Reply;

#[test]
fn method_byte_round_trip_all_bytes() {
    for b in 0u16..=255 {
        let b = b as u8;
        let m = Socks5Method::from(b);
        let back: u8 = m.into();
        assert_eq!(back, b);
        assert_eq!(Socks5Method::from_byte(m.to_byte()), m);
    }
}

#[test]
fn method_variants_by_range() {
    assert_eq!(Socks5Method::from_byte(0x00), Socks5Method::NoAuthRequired);
    assert_eq!(Socks5Method::from_byte(0x01), Socks5Method::Gssapi);
    assert_eq!(Socks5Method::from_byte(0x02), Socks5Method::UsernamePassword);
    assert_eq!(Socks5Method::from_byte(0x03), Socks5Method::IanaAssigned(0x03));
    assert_eq!(Socks5Method::from_byte(0x7F), Socks5Method::IanaAssigned(0x7F));
    assert_eq!(Socks5Method::from_byte(0x80), Socks5Method::Private(0x80));
    assert_eq!(Socks5Method::from_byte(0xFE), Socks5Method::Private(0xFE));
    assert_eq!(Socks5Method::from_byte(0xFF), Socks5Method::NoAcceptable);
    assert_eq!(Socks5Method::NoAcceptable.to_byte(), 0xFF);
}

#[test]
fn method_names() {
    assert_eq!(Socks5Method::NoAuthRequired.to_string(), "NO AUTHENTICATION REQUIRED");
    assert_eq!(Socks5Method::Gssapi.to_string(), "GSSAPI");
    assert_eq!(Socks5Method::UsernamePassword.to_string(), "USERNAME/PASSWORD");
    assert_eq!(Socks5Method::IanaAssigned(0x3A).to_string(), "IANA ASSIGNED METHOD 3A");
    assert_eq!(Socks5Method::Private(0x80).to_string(), "PRIVATE METHOD 80");
    assert_eq!(Socks5Method::NoAcceptable.to_string(), "NO ACCEPTABLE METHODS");
}

#[test]
fn reply_byte_round_trip_all_bytes() {
    for b in 0u16..=255 {
        let b = b as u8;
        let r = Socks5Reply::from(b);
        let back: u8 = r.into();
        assert_eq!(back, b);
        assert_eq!(Socks5Reply::from_byte(r.to_byte()), r);
    }
}

#[test]
fn reply_variants_by_code() {
    assert_eq!(Socks5Reply::from_byte(0), Socks5Reply::Succeeded);
    assert_eq!(Socks5Reply::from_byte(5), Socks5Reply::ConnectionRefused);
    assert_eq!(Socks5Reply::from_byte(8), Socks5Reply::AddressTypeNotSupported);
    assert_eq!(Socks5Reply::from_byte(9), Socks5Reply::Unassigned(9));
    assert_eq!(Socks5Reply::from_byte(0xFF), Socks5Reply::Unassigned(0xFF));
}

#[test]
fn reply_descriptions() {
    assert_eq!(Socks5Reply::Succeeded.to_string(), "succeeded");
    assert_eq!(Socks5Reply::GeneralFailure.to_string(), "general SOCKS server failure");
    assert_eq!(Socks5Reply::ConnectionRefused.to_string(), "connection refused");
    assert_eq!(Socks5Reply::TtlExpired.to_string(), "TTL expired");
    assert_eq!(Socks5Reply::Unassigned(0x09).to_string(), "Unassigned reply 0x09");
    assert_eq!(Socks5Reply::Unassigned(0xAB).to_string(), "Unassigned reply 0xAB");
}
