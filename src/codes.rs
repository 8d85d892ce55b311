//! Wire values of the protocol and the reply frame.
use vstd::prelude::*;

verus! {

/// Version of socks
pub const SOCKS_VERSION: u8 = 5;

/// Value of every reserved byte
pub const RESERVED: u8 = 0;

/// A username / password pair that may use the proxy.
pub struct User {
    username: String,
    password: String,
}

impl User {
    pub fn new(username: String, password: String) -> (r: User)
        ensures
            r.name() == username@,
            r.secret() == password@,
    {
        User { username, password }
    }

    /// The username's text.
    pub closed spec fn name(&self) -> Seq<char> {
        self.username@
    }

    /// The password's text.
    pub closed spec fn secret(&self) -> Seq<char> {
        self.password@
    }

    pub fn username(&self) -> (r: &String)
        ensures
            r@ == self.name(),
    {
        &self.username
    }

    pub fn password(&self) -> (r: &String)
        ensures
            r@ == self.secret(),
    {
        &self.password
    }

    /// Both fields are equal.
    pub open spec fn same_as(&self, o: &User) -> bool {
        self.name() == o.name() && self.secret() == o.secret()
    }
}

impl Clone for User {
    fn clone(&self) -> (r: User)
        ensures
            r.same_as(self),
    {
        User { username: self.username.clone(), password: self.password.clone() }
    }
}

impl PartialEq for User {
    fn eq(&self, o: &User) -> (r: bool) {
        self.username == o.username && self.password == o.password
    }
}

impl vstd::std_specs::cmp::PartialEqSpecImpl for User {
    open spec fn obeys_eq_spec() -> bool {
        true
    }

    open spec fn eq_spec(&self, o: &User) -> bool {
        self.same_as(o)
    }
}

/// Possible SOCKS5 Response Codes
#[derive(Debug, Clone, Copy, PartialEq, Eq, Structural)]
pub enum ResponseCode {
    Success,
    Failure,
    RuleFailure,
    NetworkUnreachable,
    HostUnreachable,
    ConnectionRefused,
    TtlExpired,
    CommandNotSupported,
    AddrTypeNotSupported,
}

impl ResponseCode {
    /// The REP byte that stands for the code.
    pub open spec fn spec_byte(self) -> u8 {
        match self {
            ResponseCode::Success => 0,
            ResponseCode::Failure => 1,
            ResponseCode::RuleFailure => 2,
            ResponseCode::NetworkUnreachable => 3,
            ResponseCode::HostUnreachable => 4,
            ResponseCode::ConnectionRefused => 5,
            ResponseCode::TtlExpired => 6,
            ResponseCode::CommandNotSupported => 7,
            ResponseCode::AddrTypeNotSupported => 8,
        }
    }

    pub fn byte(&self) -> (r: u8)
        ensures
            r == self.spec_byte(),
    {
        match self {
            ResponseCode::Success => 0,
            ResponseCode::Failure => 1,
            ResponseCode::RuleFailure => 2,
            ResponseCode::NetworkUnreachable => 3,
            ResponseCode::HostUnreachable => 4,
            ResponseCode::ConnectionRefused => 5,
            ResponseCode::TtlExpired => 6,
            ResponseCode::CommandNotSupported => 7,
            ResponseCode::AddrTypeNotSupported => 8,
        }
    }

    /// A human readable description of the code.
    pub fn describe(&self) -> (r: &'static str) {
        match self {
            ResponseCode::Success => "succeeded",
            ResponseCode::Failure => "SOCKS5 Server Failure",
            ResponseCode::RuleFailure => "SOCKS5 Rule failure",
            ResponseCode::NetworkUnreachable => "network unreachable",
            ResponseCode::HostUnreachable => "host unreachable",
            ResponseCode::ConnectionRefused => "connection refused",
            ResponseCode::TtlExpired => "TTL expired",
            ResponseCode::CommandNotSupported => "Command not supported",
            ResponseCode::AddrTypeNotSupported => "Addr Type not supported",
        }
    }
}

#[verifier::external_type_specification]
#[verifier::external_body]
pub struct ExIoError(std::io::Error);

/// What ends a connection with an error.
#[derive(Debug)]
pub enum MerinoError {
    /// The transport failed, or the client asked for what the server does not offer.
    Io(std::io::Error),
    /// A SOCKS level refusal, with the code to send.
    Socks(ResponseCode),
}

/// The reply code that reports an error: transport faults are general failures.
pub open spec fn spec_code_of(e: MerinoError) -> ResponseCode {
    match e {
        MerinoError::Socks(c) => c,
        MerinoError::Io(_) => ResponseCode::Failure,
    }
}

impl From<MerinoError> for ResponseCode {
    fn from(e: MerinoError) -> (r: ResponseCode) {
        match e {
            MerinoError::Socks(c) => c,
            MerinoError::Io(_) => ResponseCode::Failure,
        }
    }
}

impl vstd::std_specs::convert::FromSpecImpl<MerinoError> for ResponseCode {
    open spec fn obeys_from_spec() -> bool {
        true
    }

    open spec fn from_spec(e: MerinoError) -> ResponseCode {
        spec_code_of(e)
    }
}

/// DST.addr variant types
#[derive(Debug, Clone, Copy, PartialEq, Eq, Structural)]
pub enum AddrType {
    /// IP V4 address: X'01'
    V4,
    /// DOMAINNAME: X'03'
    Domain,
    /// IP V6 address: X'04'
    V6,
}

impl AddrType {
    /// The ATYP byte of the kind.
    pub open spec fn spec_byte(self) -> u8 {
        match self {
            AddrType::V4 => 1,
            AddrType::Domain => 3,
            AddrType::V6 => 4,
        }
    }

    /// The kind that an ATYP value names, if any.
    pub open spec fn spec_from(n: int) -> Option<AddrType> {
        if n == 1 {
            Some(AddrType::V4)
        } else if n == 3 {
            Some(AddrType::Domain)
        } else if n == 4 {
            Some(AddrType::V6)
        } else {
            None
        }
    }

    /// Parse Byte to AddrType
    pub fn from(n: usize) -> (r: Option<AddrType>)
        ensures
            r == AddrType::spec_from(n as int),
    {
        match n {
            1 => Some(AddrType::V4),
            3 => Some(AddrType::Domain),
            4 => Some(AddrType::V6),
            _ => None,
        }
    }

    pub fn byte(&self) -> (r: u8)
        ensures
            r == self.spec_byte(),
    {
        match self {
            AddrType::V4 => 1,
            AddrType::Domain => 3,
            AddrType::V6 => 4,
        }
    }
}

/// SOCK5 CMD Type
#[derive(Debug, Clone, Copy, PartialEq, Eq, Structural)]
pub enum SockCommand {
    Connect,
    Bind,
    UdpAssosiate,
}

impl SockCommand {
    /// The CMD byte of the command.
    pub open spec fn spec_byte(self) -> u8 {
        match self {
            SockCommand::Connect => 1,
            SockCommand::Bind => 2,
            SockCommand::UdpAssosiate => 3,
        }
    }

    /// The command that a CMD value names, if any.
    pub open spec fn spec_from(n: int) -> Option<SockCommand> {
        if n == 1 {
            Some(SockCommand::Connect)
        } else if n == 2 {
            Some(SockCommand::Bind)
        } else if n == 3 {
            Some(SockCommand::UdpAssosiate)
        } else {
            None
        }
    }

    /// Parse Byte to Command
    pub fn from(n: usize) -> (r: Option<SockCommand>)
        ensures
            r == SockCommand::spec_from(n as int),
    {
        match n {
            1 => Some(SockCommand::Connect),
            2 => Some(SockCommand::Bind),
            3 => Some(SockCommand::UdpAssosiate),
            _ => None,
        }
    }

    pub fn byte(&self) -> (r: u8)
        ensures
            r == self.spec_byte(),
    {
        match self {
            SockCommand::Connect => 1,
            SockCommand::Bind => 2,
            SockCommand::UdpAssosiate => 3,
        }
    }
}

/// Client Authentication Methods
#[derive(Debug, Clone, Copy, PartialEq, Eq, Structural)]
pub enum AuthMethods {
    /// No Authentication
    NoAuth,
    /// Authenticate with a username / password
    UserPass,
    /// Cannot authenticate
    NoMethods,
}

impl AuthMethods {
    /// The METHOD byte of the method.
    pub open spec fn spec_byte(self) -> u8 {
        match self {
            AuthMethods::NoAuth => 0,
            AuthMethods::UserPass => 2,
            AuthMethods::NoMethods => 0xff,
        }
    }

    pub fn byte(&self) -> (r: u8)
        ensures
            r == self.spec_byte(),
    {
        match self {
            AuthMethods::NoAuth => 0,
            AuthMethods::UserPass => 2,
            AuthMethods::NoMethods => 0xff,
        }
    }
}

/// The ten bytes of a reply: version, code, reserved byte, an IPv4 address
/// type, and a zero bound address and port.
pub open spec fn reply_frame(status: ResponseCode) -> Seq<u8> {
    seq![SOCKS_VERSION, status.spec_byte(), RESERVED, 1u8, 0u8, 0u8, 0u8, 0u8, 0u8, 0u8]
}

/// A reply to a request, as it goes on the wire.
pub struct SocksReply {
    buf: [u8; 10],
}

impl SocksReply {
    /// The frame as it goes on the wire.
    pub closed spec fn spec_bytes(&self) -> Seq<u8> {
        self.buf@
    }

    pub fn new(status: ResponseCode) -> (r: Self)
        ensures
            r.spec_bytes() == reply_frame(status),
    {
        let buf = [
            // VER
            SOCKS_VERSION,
            // REP
            status.byte(),
            // RSV
            RESERVED,
            // ATYP
            1,
            // BND.ADDR
            0,
            0,
            0,
            0,
            // BND.PORT
            0,
            0,
        ];
        let r = Self { buf };
        assert(r.spec_bytes() =~= reply_frame(status));
        r
    }

    /// The frame's bytes.
    pub fn to_vec(&self) -> (r: Vec<u8>)
        ensures
            r@ == self.spec_bytes(),
    {
        let mut v: Vec<u8> = Vec::new();
        let mut i: usize = 0;
        while i < 10
            invariant
                i <= 10,
                v@ == self.buf@.subrange(0, i as int),
            decreases 10 - i,
        {
            v.push(self.buf[i]);
            i = i + 1;
            assert(v@ =~= self.buf@.subrange(0, i as int));
        }
        assert(self.buf@.subrange(0, 10) =~= self.buf@);
        v
    }
}

} // verus!
