use rusty_socks_proxy::codec::{
    decode_reply, encode_reply, parse_auth, parse_greeting, parse_request, ProtocolError, Reply,
    ReplyCode,
};
use rusty_socks_proxy::codec::AddressSpec;

#[test]
fn greeting_lists_methods() {
    assert_eq!(parse_greeting(&[0x05, 0x02, 0x00, 0x02]).unwrap(), vec![0x00, 0x02]);
}

#[test]
fn greeting_errors() {
    assert_eq!(parse_greeting(&[0x05]).unwrap_err(), ProtocolError::GreetingTooShort);
    assert_eq!(parse_greeting(&[0x04, 0x01, 0x00]).unwrap_err(), ProtocolError::UnsupportedVersion);
    assert_eq!(parse_greeting(&[0x05, 0x03, 0x00]).unwrap_err(), ProtocolError::MethodsIncomplete);
}

#[test]
fn auth_fields() {
    let a = parse_auth(&[0x01, 0x03, b'b', b'o', b'b', 0x02, b'p', b'w']).unwrap();
    assert_eq!(a.username, b"bob".to_vec());
    assert_eq!(a.password, b"pw".to_vec());
}

#[test]
fn auth_errors() {
    assert_eq!(parse_auth(&[0x01]).unwrap_err(), ProtocolError::AuthTooShort);
    assert_eq!(parse_auth(&[0x02, 0x00, 0x00]).unwrap_err(), ProtocolError::UnsupportedAuthVersion);
    assert_eq!(parse_auth(&[0x01, 0x05, b'a']).unwrap_err(), ProtocolError::UsernameIncomplete);
    assert_eq!(parse_auth(&[0x01, 0x01, 0xFF, 0x00]).unwrap_err(), ProtocolError::InvalidUsername);
    assert_eq!(parse_auth(&[0x01, 0x01, b'a']).unwrap_err(), ProtocolError::PasswordIncomplete);
    assert_eq!(parse_auth(&[0x01, 0x01, b'a', 0x03, b'x']).unwrap_err(), ProtocolError::PasswordIncomplete);
    assert_eq!(parse_auth(&[0x01, 0x01, b'a', 0x01, 0xC3]).unwrap_err(), ProtocolError::InvalidPassword);
}

#[test]
fn ipv4_request_resolves_to_dotted_host() {
    let d = parse_request(&[0x05, 0x01, 0x00, 0x01, 192, 0, 2, 1, 0x00, 80]).unwrap();
    let t = d.target();
    assert_eq!(String::from_utf8(t.host).unwrap(), "192.0.2.1");
    assert_eq!(t.port, 80);
}

#[test]
fn domain_request_resolves_to_name() {
    let mut b = vec![0x05, 0x01, 0x00, 0x03, 11];
    b.extend_from_slice(b"example.com");
    b.extend_from_slice(&[0x01, 0xBB]);
    let d = parse_request(&b).unwrap();
    match &d.address {
        AddressSpec::Domain(n) => assert_eq!(n, &b"example.com".to_vec()),
        _ => panic!("expected a domain"),
    }
    let t = d.target();
    assert_eq!(String::from_utf8(t.host).unwrap(), "example.com");
    assert_eq!(t.port, 443);
}

#[test]
fn ipv6_request_resolves_to_hex_groups() {
    let mut b = vec![0x05, 0x01, 0x00, 0x04];
    b.extend_from_slice(&[0x20, 0x01, 0x0d, 0xb8, 0, 0, 0, 0, 0, 0, 0, 0, 0x0a, 0xbc, 0, 1]);
    b.extend_from_slice(&[0x1f, 0x90]);
    let t = parse_request(&b).unwrap().target();
    assert_eq!(String::from_utf8(t.host).unwrap(), "2001:db8:0:0:0:0:abc:1");
    assert_eq!(t.port, 8080);
}

#[test]
fn ipv4_host_with_large_octets() {
    let t = parse_request(&[0x05, 0x01, 0x00, 0x01, 255, 10, 0, 100, 0xFF, 0xFF]).unwrap().target();
    assert_eq!(String::from_utf8(t.host).unwrap(), "255.10.0.100");
    assert_eq!(t.port, 65535);
}

#[test]
fn request_errors() {
    assert_eq!(parse_request(&[0x05, 0x01, 0x00]).unwrap_err(), ProtocolError::RequestTooShort);
    assert_eq!(parse_request(&[0x05, 0x02, 0x00, 0x01]).unwrap_err(), ProtocolError::UnsupportedCommand);
    assert_eq!(parse_request(&[0x05, 0x01, 0x00, 0x09]).unwrap_err(), ProtocolError::UnsupportedAddressType);
    assert_eq!(parse_request(&[0x05, 0x01, 0x00, 0x01, 1, 2]).unwrap_err(), ProtocolError::AddressIncomplete);
    assert_eq!(parse_request(&[0x05, 0x01, 0x00, 0x01, 1, 2, 3, 4, 0]).unwrap_err(), ProtocolError::PortMissing);
    assert_eq!(parse_request(&[0x05, 0x01, 0x00, 0x03]).unwrap_err(), ProtocolError::DomainLengthMissing);
    assert_eq!(parse_request(&[0x05, 0x01, 0x00, 0x03, 4, b'a']).unwrap_err(), ProtocolError::AddressIncomplete);
    assert_eq!(parse_request(&[0x05, 0x01, 0x00, 0x03, 1, 0xFF, 0, 1]).unwrap_err(), ProtocolError::InvalidDomain);
    assert_eq!(parse_request(&[0x05, 0x01, 0x00, 0x03, 1, b'a', 0]).unwrap_err(), ProtocolError::PortMissing);
    assert_eq!(parse_request(&[0x05, 0x01, 0x00, 0x04, 0, 0, 0]).unwrap_err(), ProtocolError::AddressIncomplete);
}

#[test]
fn reply_frames() {
    assert_eq!(encode_reply(ReplyCode::Succeeded), vec![0x05, 0x00, 0x00, 0x01, 0, 0, 0, 0, 0, 0]);
    assert_eq!(encode_reply(ReplyCode::GeneralFailure), vec![0x05, 0x01, 0x00, 0x01, 0, 0, 0, 0, 0, 0]);
    assert_eq!(encode_reply(ReplyCode::CommandNotSupported)[1], 0x07);
    assert_eq!(encode_reply(ReplyCode::AddressTypeNotSupported)[1], 0x08);
}

#[test]
fn success_reply_round_trip() {
    let r = decode_reply(&encode_reply(ReplyCode::Succeeded)).unwrap();
    assert_eq!(
        r,
        Reply { version: 0x05, code: 0x00, address_type: 0x01, bound_address: (0, 0, 0, 0), bound_port: 0 }
    );
    assert!(decode_reply(&[0x05, 0x00]).is_none());
}
