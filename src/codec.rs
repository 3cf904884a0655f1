//! Bit-exact parsing and framing of the SOCKS5 messages (RFC 1928) and of the
//! username/password sub-negotiation (RFC 1929).

use vstd::prelude::*;
use vstd::utf8::valid_utf8;

verus! {

/// Protocol version byte of every SOCKS5 frame.
pub const SOCKS_VERSION: u8 = 0x05;
/// Version byte of the username/password sub-negotiation.
pub const AUTH_VERSION: u8 = 0x01;
/// Method: no authentication required.
pub const METHOD_NO_AUTH: u8 = 0x00;
/// Method: username/password.
pub const METHOD_USER_PASS: u8 = 0x02;
/// Method selection answer: no acceptable method.
pub const METHOD_NONE_ACCEPTABLE: u8 = 0xFF;
/// Sub-negotiation status: success.
pub const AUTH_SUCCESS: u8 = 0x00;
/// Sub-negotiation status: failure.
pub const AUTH_FAILURE: u8 = 0xFF;
/// The one supported command.
pub const CMD_CONNECT: u8 = 0x01;
/// Address types.
pub const ATYP_IPV4: u8 = 0x01;
pub const ATYP_DOMAIN: u8 = 0x03;
pub const ATYP_IPV6: u8 = 0x04;

/// A malformed or unsupported frame, one variant per way of failing.
#[derive(PartialEq, Eq, Structural, Clone, Copy, Debug)]
pub enum ProtocolError {
    GreetingTooShort,
    UnsupportedVersion,
    MethodsIncomplete,
    AuthTooShort,
    UnsupportedAuthVersion,
    UsernameIncomplete,
    PasswordIncomplete,
    InvalidUsername,
    InvalidPassword,
    RequestTooShort,
    UnsupportedCommand,
    UnsupportedAddressType,
    DomainLengthMissing,
    AddressIncomplete,
    InvalidDomain,
    PortMissing,
}

/// The status byte of a reply to a request.
#[derive(PartialEq, Eq, Structural, Clone, Copy, Debug)]
pub enum ReplyCode {
    Succeeded,
    GeneralFailure,
    CommandNotSupported,
    AddressTypeNotSupported,
}

impl ReplyCode {
    pub open spec fn spec_byte(self) -> u8 {
        match self {
            ReplyCode::Succeeded => 0x00,
            ReplyCode::GeneralFailure => 0x01,
            ReplyCode::CommandNotSupported => 0x07,
            ReplyCode::AddressTypeNotSupported => 0x08,
        }
    }

    /// The REP byte on the wire.
    pub fn byte(&self) -> (r: u8)
        ensures
            r == self.spec_byte(),
    {
        match self {
            ReplyCode::Succeeded => 0x00,
            ReplyCode::GeneralFailure => 0x01,
            ReplyCode::CommandNotSupported => 0x07,
            ReplyCode::AddressTypeNotSupported => 0x08,
        }
    }
}

/// `VER REP RSV ATYP BND.ADDR BND.PORT`, with the bound address and port
/// zero-filled.
pub open spec fn reply_frame(rep: u8) -> Seq<u8> {
    seq![SOCKS_VERSION, rep, 0x00, ATYP_IPV4, 0, 0, 0, 0, 0, 0]
}

/// The ten-byte reply that carries `code`.
pub fn encode_reply(code: ReplyCode) -> (r: Vec<u8>)
    ensures
        r@ == reply_frame(code.spec_byte()),
{
    let r = vec![SOCKS_VERSION, code.byte(), 0x00, ATYP_IPV4, 0, 0, 0, 0, 0, 0];
    assert(r@ =~= reply_frame(code.spec_byte()));
    r
}

/// A two-byte answer `first second` (method selection or sub-negotiation status).
pub fn encode_pair(first: u8, second: u8) -> (r: Vec<u8>)
    ensures
        r@ == seq![first, second],
{
    let r = vec![first, second];
    assert(r@ =~= seq![first, second]);
    r
}

/// Big-endian value of the two bytes at `i`.
pub open spec fn be_u16(b: Seq<u8>, i: int) -> u16 {
    (b[i] as u16 * 256 + b[i + 1] as u16) as u16
}

/// Reads the big-endian 16-bit integer at `i`.
pub fn read_be_u16(b: &[u8], i: usize) -> (r: u16)
    requires
        i + 2 <= b@.len(),
    ensures
        r == be_u16(b@, i as int),
{
    let hi = b[i] as u16;
    let lo = b[i + 1] as u16;
    hi * 256 + lo
}

/// A reply as a client reads it.
#[derive(PartialEq, Eq, Clone, Copy, Debug)]
pub struct Reply {
    pub version: u8,
    pub code: u8,
    pub address_type: u8,
    pub bound_address: (u8, u8, u8, u8),
    pub bound_port: u16,
}

pub open spec fn spec_decode_reply(b: Seq<u8>) -> Option<Reply> {
    if b.len() == 10 && b[3] == ATYP_IPV4 {
        Some(
            Reply {
                version: b[0],
                code: b[1],
                address_type: b[3],
                bound_address: (b[4], b[5], b[6], b[7]),
                bound_port: be_u16(b, 8),
            },
        )
    } else {
        None
    }
}

/// Reads a reply with an IPv4 bound address; `None` for any other shape.
pub fn decode_reply(b: &[u8]) -> (r: Option<Reply>)
    ensures
        r == spec_decode_reply(b@),
{
    if b.len() == 10 && b[3] == ATYP_IPV4 {
        Some(
            Reply {
                version: b[0],
                code: b[1],
                address_type: b[3],
                bound_address: (b[4], b[5], b[6], b[7]),
                bound_port: read_be_u16(b, 8),
            },
        )
    } else {
        None
    }
}

/// Decoding the reply that carries any code gives back version 5, that code,
/// the IPv4 address type, the address 0.0.0.0 and port 0.
pub proof fn reply_round_trip(code: ReplyCode)
    ensures
        spec_decode_reply(reply_frame(code.spec_byte())) == Some(
            Reply {
                version: 0x05,
                code: code.spec_byte(),
                address_type: 0x01,
                bound_address: (0, 0, 0, 0),
                bound_port: 0,
            },
        ),
{
}

/// Greeting `VER NMETHODS METHODS`: the offered methods.
pub open spec fn spec_parse_greeting(b: Seq<u8>) -> Result<Seq<u8>, ProtocolError> {
    if b.len() < 2 {
        Err(ProtocolError::GreetingTooShort)
    } else if b[0] != SOCKS_VERSION {
        Err(ProtocolError::UnsupportedVersion)
    } else if b.len() - 2 < b[1] {
        Err(ProtocolError::MethodsIncomplete)
    } else {
        Ok(b.subrange(2, 2 + b[1]))
    }
}

/// Copies `b[from..to]`.
pub(crate) fn copy_range(b: &[u8], from: usize, to: usize) -> (r: Vec<u8>)
    requires
        from <= to <= b@.len(),
    ensures
        r@ == b@.subrange(from as int, to as int),
{
    let mut r: Vec<u8> = Vec::new();
    let mut i: usize = from;
    while i < to
        invariant
            from <= i <= to <= b@.len(),
            r@ == b@.subrange(from as int, i as int),
        decreases to - i,
    {
        r.push(b[i]);
        assert(r@ =~= b@.subrange(from as int, i + 1));
        i = i + 1;
    }
    r
}

/// Reads a greeting: the offered methods, or why the frame is malformed.
pub fn parse_greeting(b: &[u8]) -> (r: Result<Vec<u8>, ProtocolError>)
    ensures
        match r {
            Ok(m) => spec_parse_greeting(b@) == Ok::<Seq<u8>, ProtocolError>(m@),
            Err(e) => spec_parse_greeting(b@) == Err::<Seq<u8>, ProtocolError>(e),
        },
{
    if b.len() < 2 {
        return Err(ProtocolError::GreetingTooShort);
    }
    if b[0] != SOCKS_VERSION {
        return Err(ProtocolError::UnsupportedVersion);
    }
    let n = b[1] as usize;
    if b.len() - 2 < n {
        return Err(ProtocolError::MethodsIncomplete);
    }
    Ok(copy_range(b, 2, 2 + n))
}

/// Relies on std::str::from_utf8: it succeeds exactly on well-formed UTF-8.
#[verifier::external_body]
fn is_utf8(b: &[u8]) -> (r: bool)
    ensures
        r == valid_utf8(b@),
{
    std::str::from_utf8(b).is_ok()
}

/// Username and password of a sub-negotiation, as sent.
#[derive(Debug)]
pub struct AuthRequest {
    pub username: Vec<u8>,
    pub password: Vec<u8>,
}

/// Sub-negotiation `VER ULEN UNAME PLEN PASSWD`: username and password, each
/// of which must be UTF-8 text.
pub open spec fn spec_parse_auth(b: Seq<u8>) -> Result<(Seq<u8>, Seq<u8>), ProtocolError> {
    if b.len() < 2 {
        Err(ProtocolError::AuthTooShort)
    } else if b[0] != AUTH_VERSION {
        Err(ProtocolError::UnsupportedAuthVersion)
    } else if b.len() - 2 < b[1] {
        Err(ProtocolError::UsernameIncomplete)
    } else if !valid_utf8(b.subrange(2, 2 + b[1])) {
        Err(ProtocolError::InvalidUsername)
    } else if b.len() - 2 - b[1] < 1 {
        Err(ProtocolError::PasswordIncomplete)
    } else if b.len() - 3 - b[1] < b[2 + b[1]] {
        Err(ProtocolError::PasswordIncomplete)
    } else if !valid_utf8(b.subrange(3 + b[1], 3 + b[1] + b[2 + b[1]])) {
        Err(ProtocolError::InvalidPassword)
    } else {
        Ok((b.subrange(2, 2 + b[1]), b.subrange(3 + b[1], 3 + b[1] + b[2 + b[1]])))
    }
}

/// Reads a sub-negotiation: username and password, or why the frame is
/// malformed.
pub fn parse_auth(b: &[u8]) -> (r: Result<AuthRequest, ProtocolError>)
    ensures
        match r {
            Ok(a) => spec_parse_auth(b@) == Ok::<(Seq<u8>, Seq<u8>), ProtocolError>(
                (a.username@, a.password@),
            ),
            Err(e) => spec_parse_auth(b@) == Err::<(Seq<u8>, Seq<u8>), ProtocolError>(e),
        },
{
    if b.len() < 2 {
        return Err(ProtocolError::AuthTooShort);
    }
    if b[0] != AUTH_VERSION {
        return Err(ProtocolError::UnsupportedAuthVersion);
    }
    let ulen = b[1] as usize;
    if b.len() - 2 < ulen {
        return Err(ProtocolError::UsernameIncomplete);
    }
    let username = copy_range(b, 2, 2 + ulen);
    if !is_utf8(username.as_slice()) {
        return Err(ProtocolError::InvalidUsername);
    }
    if b.len() - 2 - ulen < 1 {
        return Err(ProtocolError::PasswordIncomplete);
    }
    let plen = b[2 + ulen] as usize;
    if b.len() - 3 - ulen < plen {
        return Err(ProtocolError::PasswordIncomplete);
    }
    let password = copy_range(b, 3 + ulen, 3 + ulen + plen);
    if !is_utf8(password.as_slice()) {
        return Err(ProtocolError::InvalidPassword);
    }
    Ok(AuthRequest { username, password })
}

/// The reply code that reports a malformed request.
pub open spec fn spec_error_reply(e: ProtocolError) -> ReplyCode {
    match e {
        ProtocolError::UnsupportedCommand => ReplyCode::CommandNotSupported,
        ProtocolError::UnsupportedAddressType => ReplyCode::AddressTypeNotSupported,
        _ => ReplyCode::GeneralFailure,
    }
}

pub fn error_reply(e: ProtocolError) -> (r: ReplyCode)
    ensures
        r == spec_error_reply(e),
{
    match e {
        ProtocolError::UnsupportedCommand => ReplyCode::CommandNotSupported,
        ProtocolError::UnsupportedAddressType => ReplyCode::AddressTypeNotSupported,
        _ => ReplyCode::GeneralFailure,
    }
}

/// A requested destination address, with its raw bytes.
#[derive(Debug)]
pub enum AddressSpec {
    Ipv4(Vec<u8>),
    Domain(Vec<u8>),
    Ipv6(Vec<u8>),
}

impl AddressSpec {
    /// The ATYP byte of this address.
    pub open spec fn kind(&self) -> u8 {
        match self {
            AddressSpec::Ipv4(_) => ATYP_IPV4,
            AddressSpec::Domain(_) => ATYP_DOMAIN,
            AddressSpec::Ipv6(_) => ATYP_IPV6,
        }
    }

    /// The address bytes as they stood in the request.
    pub open spec fn bytes(&self) -> Seq<u8> {
        match self {
            AddressSpec::Ipv4(b) => b@,
            AddressSpec::Domain(b) => b@,
            AddressSpec::Ipv6(b) => b@,
        }
    }

    pub open spec fn wf(&self) -> bool {
        match self {
            AddressSpec::Ipv4(b) => b@.len() == 4,
            AddressSpec::Domain(b) => valid_utf8(b@),
            AddressSpec::Ipv6(b) => b@.len() == 16,
        }
    }
}

/// Request `VER CMD RSV ATYP DST.ADDR DST.PORT`: address type, address bytes
/// and port. VER and RSV are not inspected.
pub open spec fn spec_parse_request(b: Seq<u8>) -> Result<(u8, Seq<u8>, u16), ProtocolError> {
    if b.len() < 4 {
        Err(ProtocolError::RequestTooShort)
    } else if b[1] != CMD_CONNECT {
        Err(ProtocolError::UnsupportedCommand)
    } else if b[3] == ATYP_IPV4 {
        if b.len() < 8 {
            Err(ProtocolError::AddressIncomplete)
        } else if b.len() < 10 {
            Err(ProtocolError::PortMissing)
        } else {
            Ok((ATYP_IPV4, b.subrange(4, 8), be_u16(b, 8)))
        }
    } else if b[3] == ATYP_DOMAIN {
        if b.len() < 5 {
            Err(ProtocolError::DomainLengthMissing)
        } else if b.len() - 5 < b[4] {
            Err(ProtocolError::AddressIncomplete)
        } else if !valid_utf8(b.subrange(5, 5 + b[4])) {
            Err(ProtocolError::InvalidDomain)
        } else if b.len() - 5 - b[4] < 2 {
            Err(ProtocolError::PortMissing)
        } else {
            Ok((ATYP_DOMAIN, b.subrange(5, 5 + b[4]), be_u16(b, 5 + b[4])))
        }
    } else if b[3] == ATYP_IPV6 {
        if b.len() < 20 {
            Err(ProtocolError::AddressIncomplete)
        } else if b.len() < 22 {
            Err(ProtocolError::PortMissing)
        } else {
            Ok((ATYP_IPV6, b.subrange(4, 20), be_u16(b, 20)))
        }
    } else {
        Err(ProtocolError::UnsupportedAddressType)
    }
}

/// Where a CONNECT request asks to go.
#[derive(Debug)]
pub struct Destination {
    pub address: AddressSpec,
    pub port: u16,
}

/// Reads a request: the destination, or why the frame is malformed or
/// unsupported.
pub fn parse_request(b: &[u8]) -> (r: Result<Destination, ProtocolError>)
    ensures
        match r {
            Ok(d) => d.address.wf() && spec_parse_request(b@) == Ok::<
                (u8, Seq<u8>, u16),
                ProtocolError,
            >((d.address.kind(), d.address.bytes(), d.port)),
            Err(e) => spec_parse_request(b@) == Err::<(u8, Seq<u8>, u16), ProtocolError>(e),
        },
{
    if b.len() < 4 {
        return Err(ProtocolError::RequestTooShort);
    }
    if b[1] != CMD_CONNECT {
        return Err(ProtocolError::UnsupportedCommand);
    }
    let atyp = b[3];
    if atyp == ATYP_IPV4 {
        if b.len() < 8 {
            return Err(ProtocolError::AddressIncomplete);
        }
        if b.len() < 10 {
            return Err(ProtocolError::PortMissing);
        }
        Ok(Destination { address: AddressSpec::Ipv4(copy_range(b, 4, 8)), port: read_be_u16(b, 8) })
    } else if atyp == ATYP_DOMAIN {
        if b.len() < 5 {
            return Err(ProtocolError::DomainLengthMissing);
        }
        let n = b[4] as usize;
        if b.len() - 5 < n {
            return Err(ProtocolError::AddressIncomplete);
        }
        let name = copy_range(b, 5, 5 + n);
        if !is_utf8(name.as_slice()) {
            return Err(ProtocolError::InvalidDomain);
        }
        if b.len() - 5 - n < 2 {
            return Err(ProtocolError::PortMissing);
        }
        Ok(Destination { address: AddressSpec::Domain(name), port: read_be_u16(b, 5 + n) })
    } else if atyp == ATYP_IPV6 {
        if b.len() < 20 {
            return Err(ProtocolError::AddressIncomplete);
        }
        if b.len() < 22 {
            return Err(ProtocolError::PortMissing);
        }
        Ok(Destination { address: AddressSpec::Ipv6(copy_range(b, 4, 20)), port: read_be_u16(b, 20) })
    } else {
        Err(ProtocolError::UnsupportedAddressType)
    }
}

} // verus!
