//! The life of one client connection, as a machine that is handed the bytes it
//! asked for and answers with what to send and what to do next.
use crate::addr::{be16, decode_target, SOCKSReq, SocketTarget, TargetView};
use crate::codes::{
    reply_frame, AddrType, AuthMethods, MerinoError, ResponseCode, SockCommand,
    SocksReply, User, SOCKS_VERSION,
};
use crate::text::{decode_lossy, lossy_text};
use vstd::prelude::*;

verus! {

/// The connect timeout, in milliseconds, where none is configured.
pub const DEFAULT_TIMEOUT_MS: u64 = 50;

/// Version byte of the username / password status reply.
pub const AUTH_VERSION: u8 = 1;

/// Settings that every connection shares, fixed once the server runs.
pub struct ServerConfig {
    /// The METHOD bytes that the server accepts.
    pub auth_methods: Vec<u8>,
    /// Who may log in with a username and password.
    pub users: Vec<User>,
    /// How long a connect to a target may take, in milliseconds.
    pub timeout_ms: Option<u64>,
}

/// What a [`ServerConfig`] holds.
pub struct ConfigView {
    pub methods: Seq<u8>,
    pub users: Seq<User>,
    pub timeout_ms: Option<u64>,
}

impl View for ServerConfig {
    type V = ConfigView;

    open spec fn view(&self) -> ConfigView {
        ConfigView { methods: self.auth_methods@, users: self.users@, timeout_ms: self.timeout_ms }
    }
}

impl ServerConfig {
    pub fn new(auth_methods: Vec<u8>, users: Vec<User>, timeout_ms: Option<u64>) -> (r: Self)
        ensures
            r@ == (ConfigView { methods: auth_methods@, users: users@, timeout_ms }),
    {
        ServerConfig { auth_methods, users, timeout_ms }
    }

    /// Settings under which every client gets in without credentials.
    pub fn new_no_auth(timeout_ms: Option<u64>) -> (r: Self)
        ensures
            r@.methods == seq![AuthMethods::NoAuth.spec_byte()],
            r@.users.len() == 0,
            r@.timeout_ms == timeout_ms,
    {
        let r = ServerConfig {
            auth_methods: vec![AuthMethods::NoAuth.byte()],
            users: Vec::new(),
            timeout_ms,
        };
        assert(r@.methods =~= seq![AuthMethods::NoAuth.spec_byte()]);
        r
    }

    /// Check if username + password pair are valid
    pub fn authed(&self, user: &User) -> (r: bool)
        ensures
            r == credential_known(self@.users, user.name(), user.secret()),
    {
        let mut i: usize = 0;
        while i < self.users.len()
            invariant
                i <= self.users@.len(),
                forall|j: int| 0 <= j < i ==> !(#[trigger] self.users@[j]).same_as(user),
            decreases self.users@.len() - i,
        {
            if self.users[i].eq(user) {
                return true;
            }
            i = i + 1;
        }
        false
    }
}

/// Some user has exactly this username and this password.
pub open spec fn credential_known(users: Seq<User>, name: Seq<char>, secret: Seq<char>) -> bool {
    exists|i: int| 0 <= i < users.len() && #[trigger] users[i].name() == name && users[i].secret() == secret
}

/// The methods a client may use: those it offered that the server accepts, in
/// the order offered, and `NoAuth` after them for a whitelisted client that did
/// not offer it.
pub open spec fn available_methods(offered: Seq<u8>, accepted: Seq<u8>, whitelisted: bool) -> Seq<u8> {
    let kept = offered.filter(|m: u8| accepted.contains(m));
    if whitelisted && !kept.contains(AuthMethods::NoAuth.spec_byte()) {
        kept.push(AuthMethods::NoAuth.spec_byte())
    } else {
        kept
    }
}

/// The method the server picks: username / password where it may, else none at
/// all, else no method is acceptable.
pub open spec fn chosen_method(methods: Seq<u8>) -> AuthMethods {
    if methods.contains(AuthMethods::UserPass.spec_byte()) {
        AuthMethods::UserPass
    } else if methods.contains(AuthMethods::NoAuth.spec_byte()) {
        AuthMethods::NoAuth
    } else {
        AuthMethods::NoMethods
    }
}

fn contains_byte(v: &[u8], b: u8) -> (r: bool)
    ensures
        r == v@.contains(b),
{
    let mut i: usize = 0;
    while i < v.len()
        invariant
            i <= v@.len(),
            forall|j: int| 0 <= j < i ==> v@[j] != b,
        decreases v@.len() - i,
    {
        if v[i] == b {
            return true;
        }
        i = i + 1;
    }
    false
}

/// The methods that a client offered and may use
pub fn get_avalible_methods(offered: &[u8], accepted: &[u8], whitelisted: bool) -> (r: Vec<u8>)
    ensures
        r@ == available_methods(offered@, accepted@, whitelisted),
{
    let ghost pred = |m: u8| accepted@.contains(m);
    let mut methods: Vec<u8> = Vec::new();
    let mut i: usize = 0;
    while i < offered.len()
        invariant
            i <= offered@.len(),
            pred == (|m: u8| accepted@.contains(m)),
            methods@ == offered@.subrange(0, i as int).filter(pred),
        decreases offered@.len() - i,
    {
        proof {
            reveal(Seq::filter);
            let p = offered@.subrange(0, i + 1);
            assert(p.drop_last() =~= offered@.subrange(0, i as int));
            assert(p.last() == offered@[i as int]);
        }
        if contains_byte(accepted, offered[i]) {
            methods.push(offered[i]);
        }
        i = i + 1;
    }
    assert(offered@.subrange(0, offered@.len() as int) =~= offered@);
    // Add NoAuth method if peer is whitelisted to allow connection in every configuration
    let no_auth = AuthMethods::NoAuth.byte();
    if whitelisted && !contains_byte(methods.as_slice(), no_auth) {
        methods.push(no_auth);
    }
    methods
}

/// Picks the method to use among those available
pub fn choose_method(methods: &[u8]) -> (r: AuthMethods)
    ensures
        r == chosen_method(methods@),
{
    if contains_byte(methods, AuthMethods::UserPass.byte()) {
        AuthMethods::UserPass
    } else if contains_byte(methods, AuthMethods::NoAuth.byte()) {
        AuthMethods::NoAuth
    } else {
        AuthMethods::NoMethods
    }
}

/// Relies on `std::io::Error::new`: an error of kind `Unsupported`.
#[verifier::external_body]
fn unsupported(msg: &str) -> std::io::Error {
    std::io::Error::new(std::io::ErrorKind::Unsupported, msg)
}

/// Relies on `std::io::Error::from`: an error of kind `UnexpectedEof`.
#[verifier::external_body]
fn truncated() -> std::io::Error {
    std::io::Error::from(std::io::ErrorKind::UnexpectedEof)
}

/// Where a connection stands, and what the bytes it waits for are.
#[derive(Debug, Clone, Copy, PartialEq, Eq, Structural)]
pub enum Stage {
    /// The version and the number of methods.
    Greeting,
    /// The methods the client offers.
    Methods,
    /// The first two bytes of the username / password frame.
    AuthHeader,
    Username,
    PasswordLen,
    Password,
    /// Version, command, reserved byte and address type of the request.
    RequestHeader,
    /// The length of a host name.
    DomainLen,
    Address,
    Port,
    /// Waiting to learn whether the target could be reached.
    Connecting,
    Relaying,
    Closed,
}

/// How a connection ended.
pub enum OutcomeView {
    Done,
    /// A transport error: the client asked for what the server does not
    /// offer, or sent too few bytes.
    Io,
    Socks(ResponseCode),
}

pub open spec fn outcome_of(r: Result<(), MerinoError>) -> OutcomeView {
    match r {
        Ok(()) => OutcomeView::Done,
        Err(MerinoError::Io(_)) => OutcomeView::Io,
        Err(MerinoError::Socks(c)) => OutcomeView::Socks(c),
    }
}

/// What the server does next on a connection.
pub enum Action {
    /// Send `reply` (it may be empty), then read exactly `need` bytes and hand
    /// them to `step`.
    Read { reply: Vec<u8>, need: usize },
    /// Connect to `target`, giving up after `timeout_ms`, and tell `connected`.
    Connect { target: SocketTarget, timeout_ms: u64 },
    /// Send `reply`, then copy bytes both ways until a side closes.
    Relay { reply: Vec<u8> },
    /// Send `reply` (it may be empty), then close the connection.
    Close { reply: Vec<u8>, outcome: Result<(), MerinoError> },
}

pub enum ActionView {
    Read { reply: Seq<u8>, need: nat },
    Connect { target: TargetView, timeout_ms: u64 },
    Relay { reply: Seq<u8> },
    Close { reply: Seq<u8>, outcome: OutcomeView },
}

impl View for Action {
    type V = ActionView;

    open spec fn view(&self) -> ActionView {
        match self {
            Action::Read { reply, need } => ActionView::Read { reply: reply@, need: *need as nat },
            Action::Connect { target, timeout_ms } => ActionView::Connect {
                target: target@,
                timeout_ms: *timeout_ms,
            },
            Action::Relay { reply } => ActionView::Relay { reply: reply@ },
            Action::Close { reply, outcome } => ActionView::Close {
                reply: reply@,
                outcome: outcome_of(*outcome),
            },
        }
    }
}

/// One client connection's progress through the protocol.
pub struct SOCKClient {
    whitelisted: bool,
    stage: Stage,
    need: usize,
    username: Vec<u8>,
    command: SockCommand,
    addr_type: AddrType,
    addr: Vec<u8>,
    port: u16,
}

pub struct ClientView {
    pub whitelisted: bool,
    pub stage: Stage,
    /// How many bytes the stage waits for.
    pub need: nat,
    /// The username bytes, once read.
    pub username: Seq<u8>,
    pub command: SockCommand,
    pub addr_type: AddrType,
    /// The address bytes, once read.
    pub addr: Seq<u8>,
    /// The port, once read.
    pub port: u16,
}

impl View for SOCKClient {
    type V = ClientView;

    closed spec fn view(&self) -> ClientView {
        ClientView {
            whitelisted: self.whitelisted,
            stage: self.stage,
            need: self.need as nat,
            username: self.username@,
            command: self.command,
            addr_type: self.addr_type,
            addr: self.addr@,
            port: self.port,
        }
    }
}

/// A stage that waits for bytes from the client.
pub open spec fn reads(stage: Stage) -> bool {
    !(stage is Connecting || stage is Relaying || stage is Closed)
}

/// Go on to `stage`, waiting for `need` bytes after sending `reply`.
pub open spec fn read_next(c: ClientView, stage: Stage, need: nat, reply: Seq<u8>) -> (ClientView, ActionView) {
    (ClientView { stage, need, ..c }, ActionView::Read { reply, need })
}

/// Close after sending `reply`.
pub open spec fn close_with(c: ClientView, reply: Seq<u8>, outcome: OutcomeView) -> (ClientView, ActionView) {
    (ClientView { stage: Stage::Closed, need: 0, ..c }, ActionView::Close { reply, outcome })
}

/// The connect timeout in force.
pub open spec fn timeout_of(cfg: ConfigView) -> u64 {
    match cfg.timeout_ms {
        Some(t) => t,
        None => DEFAULT_TIMEOUT_MS,
    }
}

/// The next state and action of a connection in a reading stage, given the
/// bytes it waited for.
pub open spec fn next(cfg: ConfigView, c: ClientView, input: Seq<u8>) -> (ClientView, ActionView) {
    if input.len() != c.need {
        close_with(c, seq![], OutcomeView::Io)
    } else {
        match c.stage {
            Stage::Greeting => if input[0] != SOCKS_VERSION {
                close_with(c, seq![], OutcomeView::Done)
            } else {
                read_next(c, Stage::Methods, input[1] as nat, seq![])
            },
            Stage::Methods => {
                let m = chosen_method(available_methods(input, cfg.methods, c.whitelisted));
                match m {
                    AuthMethods::UserPass => read_next(c, Stage::AuthHeader, 2, seq![SOCKS_VERSION, m.spec_byte()]),
                    AuthMethods::NoAuth => read_next(c, Stage::RequestHeader, 4, seq![SOCKS_VERSION, m.spec_byte()]),
                    AuthMethods::NoMethods => close_with(
                        c,
                        seq![SOCKS_VERSION, m.spec_byte()],
                        OutcomeView::Socks(ResponseCode::RuleFailure),
                    ),
                }
            },
            Stage::AuthHeader => read_next(c, Stage::Username, input[1] as nat, seq![]),
            Stage::Username => read_next(ClientView { username: input, ..c }, Stage::PasswordLen, 1, seq![]),
            Stage::PasswordLen => read_next(c, Stage::Password, input[0] as nat, seq![]),
            Stage::Password => if credential_known(cfg.users, lossy_text(c.username), lossy_text(input)) {
                read_next(c, Stage::RequestHeader, 4, seq![AUTH_VERSION, ResponseCode::Success.spec_byte()])
            } else {
                close_with(
                    c,
                    seq![AUTH_VERSION, ResponseCode::Failure.spec_byte()],
                    OutcomeView::Socks(ResponseCode::RuleFailure),
                )
            },
            Stage::RequestHeader => if input[0] != SOCKS_VERSION {
                close_with(c, seq![], OutcomeView::Socks(ResponseCode::Failure))
            } else {
                match (SockCommand::spec_from(input[1] as int), AddrType::spec_from(input[3] as int)) {
                    (None, _) => close_with(c, seq![], OutcomeView::Socks(ResponseCode::CommandNotSupported)),
                    (Some(_), None) => close_with(c, seq![], OutcomeView::Socks(ResponseCode::AddrTypeNotSupported)),
                    (Some(cmd), Some(kind)) => {
                        let c2 = ClientView { command: cmd, addr_type: kind, ..c };
                        match kind {
                            AddrType::Domain => read_next(c2, Stage::DomainLen, 1, seq![]),
                            AddrType::V4 => read_next(c2, Stage::Address, 4, seq![]),
                            AddrType::V6 => read_next(c2, Stage::Address, 16, seq![]),
                        }
                    },
                }
            },
            Stage::DomainLen => read_next(c, Stage::Address, input[0] as nat, seq![]),
            Stage::Address => read_next(ClientView { addr: input, ..c }, Stage::Port, 2, seq![]),
            Stage::Port => match c.command {
                SockCommand::Connect => (
                    ClientView { stage: Stage::Connecting, need: 0, port: be16(input[0], input[1]), ..c },
                    ActionView::Connect {
                        target: decode_target(c.addr_type, c.addr, be16(input[0], input[1])),
                        timeout_ms: timeout_of(cfg),
                    },
                ),
                _ => close_with(c, reply_frame(ResponseCode::Failure), OutcomeView::Io),
            },
            _ => close_with(c, seq![], OutcomeView::Io),
        }
    }
}

/// The state and last action after handing a connection the bytes of
/// `input` in the sizes it asks for, at most `fuel + 1` times, stopping at
/// the first action that is not a read; and the bytes left over.
pub open spec fn feed(cfg: ConfigView, c: ClientView, input: Seq<u8>, fuel: nat) -> (ClientView, ActionView, Seq<u8>)
    decreases fuel,
{
    let (c2, a) = next(cfg, c, input.take(c.need as int));
    let rest = input.skip(c.need as int);
    if fuel == 0 {
        (c2, a, rest)
    } else {
        match a {
            ActionView::Read { .. } => feed(cfg, c2, rest, (fuel - 1) as nat),
            _ => (c2, a, rest),
        }
    }
}

/// Each stage waits for as many bytes as its frame has, and the address
/// bytes stored so far fit the address type.
pub open spec fn client_wf(c: ClientView) -> bool {
    &&& (c.stage is Greeting || c.stage is AuthHeader || c.stage is Port) ==> c.need == 2
    &&& (c.stage is PasswordLen || c.stage is DomainLen) ==> c.need == 1
    &&& c.stage is RequestHeader ==> c.need == 4
    &&& c.stage is DomainLen ==> c.addr_type == AddrType::Domain
    &&& (c.stage is Port || c.stage is Connecting) ==> {
        &&& (c.addr_type == AddrType::V4 ==> c.addr.len() == 4)
        &&& (c.addr_type == AddrType::V6 ==> c.addr.len() == 16)
        &&& (c.addr_type == AddrType::Domain ==> c.addr.len() <= 255)
    }
    &&& (c.stage is Address) ==> {
        &&& (c.addr_type == AddrType::V4 ==> c.need == 4)
        &&& (c.addr_type == AddrType::V6 ==> c.need == 16)
        &&& (c.addr_type == AddrType::Domain ==> c.need <= 255)
    }
}

impl SOCKClient {
    /// A connection that has not read anything yet; `whitelisted` says that its
    /// peer may always come in without credentials.
    pub fn new(whitelisted: bool) -> (r: Self)
        ensures
            r@.whitelisted == whitelisted,
            r@.stage == Stage::Greeting,
            r@.need == 2,
            client_wf(r@),
    {
        SOCKClient {
            whitelisted,
            stage: Stage::Greeting,
            need: 2,
            username: Vec::new(),
            command: SockCommand::Connect,
            addr_type: AddrType::V4,
            addr: Vec::new(),
            port: 0,
        }
    }

    /// What to do first: read the greeting.
    pub fn begin(&self) -> (r: Action)
        ensures
            r@ == (ActionView::Read { reply: seq![], need: self@.need }),
    {
        let r = Action::Read { reply: Vec::new(), need: self.need };
        assert(r@ == (ActionView::Read { reply: seq![], need: self@.need }));
        r
    }

    /// The request that was read, once the connection dials its target.
    pub fn request(&self) -> (r: SOCKSReq)
        requires
            self@.stage == Stage::Connecting,
            client_wf(self@),
        ensures
            r.version == SOCKS_VERSION,
            r.command == self@.command,
            r.addr_type == self@.addr_type,
            r.addr@ == self@.addr,
            r.port == self@.port,
            r.wf(),
    {
        SOCKSReq {
            version: SOCKS_VERSION,
            command: self.command,
            addr_type: self.addr_type,
            addr: vstd::slice::slice_to_vec(self.addr.as_slice()),
            port: self.port,
        }
    }

    pub fn stage(&self) -> (r: Stage)
        ensures
            r == self@.stage,
    {
        self.stage
    }

    fn go(&mut self, stage: Stage, need: usize, reply: Vec<u8>) -> (r: Action)
        ensures
            (final(self)@, r@) == read_next(old(self)@, stage, need as nat, reply@),
    {
        self.stage = stage;
        self.need = need;
        Action::Read { reply, need }
    }

    fn close(&mut self, reply: Vec<u8>, outcome: Result<(), MerinoError>) -> (r: Action)
        ensures
            (final(self)@, r@) == close_with(old(self)@, reply@, outcome_of(outcome)),
    {
        self.stage = Stage::Closed;
        self.need = 0;
        Action::Close { reply, outcome }
    }

    /// Takes the bytes that the last action asked for, and says what to do next.
    pub fn step(&mut self, config: &ServerConfig, input: &[u8]) -> (r: Action)
        requires
            reads(old(self)@.stage),
            client_wf(old(self)@),
        ensures
            (final(self)@, r@) == next(config@, old(self)@, input@),
            client_wf(final(self)@),
    {
        if input.len() != self.need {
            return self.close(Vec::new(), Err(MerinoError::Io(truncated())));
        }
        match self.stage {
            Stage::Greeting => {
                if input[0] != SOCKS_VERSION {
                    self.close(Vec::new(), Ok(()))
                } else {
                    self.go(Stage::Methods, input[1] as usize, Vec::new())
                }
            },
            Stage::Methods => {
                let methods = get_avalible_methods(input, config.auth_methods.as_slice(), self.whitelisted);
                let m = choose_method(methods.as_slice());
                let reply = vec![SOCKS_VERSION, m.byte()];
                match m {
                    AuthMethods::UserPass => self.go(Stage::AuthHeader, 2, reply),
                    AuthMethods::NoAuth => self.go(Stage::RequestHeader, 4, reply),
                    AuthMethods::NoMethods => self.close(
                        reply,
                        Err(MerinoError::Socks(ResponseCode::RuleFailure)),
                    ),
                }
            },
            Stage::AuthHeader => self.go(Stage::Username, input[1] as usize, Vec::new()),
            Stage::Username => {
                self.username = vstd::slice::slice_to_vec(input);
                self.go(Stage::PasswordLen, 1, Vec::new())
            },
            Stage::PasswordLen => self.go(Stage::Password, input[0] as usize, Vec::new()),
            Stage::Password => {
                let user = User::new(decode_lossy(self.username.as_slice()), decode_lossy(input));
                if config.authed(&user) {
                    self.go(Stage::RequestHeader, 4, vec![AUTH_VERSION, ResponseCode::Success.byte()])
                } else {
                    self.close(
                        vec![AUTH_VERSION, ResponseCode::Failure.byte()],
                        Err(MerinoError::Socks(ResponseCode::RuleFailure)),
                    )
                }
            },
            Stage::RequestHeader => {
                if input[0] != SOCKS_VERSION {
                    return self.close(Vec::new(), Err(MerinoError::Socks(ResponseCode::Failure)));
                }
                let command = match SockCommand::from(input[1] as usize) {
                    Some(c) => c,
                    None => {
                        return self.close(
                            Vec::new(),
                            Err(MerinoError::Socks(ResponseCode::CommandNotSupported)),
                        );
                    },
                };
                let addr_type = match AddrType::from(input[3] as usize) {
                    Some(a) => a,
                    None => {
                        return self.close(
                            Vec::new(),
                            Err(MerinoError::Socks(ResponseCode::AddrTypeNotSupported)),
                        );
                    },
                };
                self.command = command;
                self.addr_type = addr_type;
                match addr_type {
                    AddrType::Domain => self.go(Stage::DomainLen, 1, Vec::new()),
                    AddrType::V4 => self.go(Stage::Address, 4, Vec::new()),
                    AddrType::V6 => self.go(Stage::Address, 16, Vec::new()),
                }
            },
            Stage::DomainLen => self.go(Stage::Address, input[0] as usize, Vec::new()),
            Stage::Address => {
                self.addr = vstd::slice::slice_to_vec(input);
                self.go(Stage::Port, 2, Vec::new())
            },
            Stage::Port => {
                let port = (input[0] as u16) * 256 + input[1] as u16;
                match self.command {
                    SockCommand::Connect => {
                        let target = crate::addr::addr_to_socket(&self.addr_type, self.addr.as_slice(), port);
                        let timeout_ms = match config.timeout_ms {
                            Some(t) => t,
                            None => DEFAULT_TIMEOUT_MS,
                        };
                        self.stage = Stage::Connecting;
                        self.need = 0;
                        self.port = port;
                        Action::Connect { target, timeout_ms }
                    },
                    SockCommand::Bind => self.close(
                        SocksReply::new(ResponseCode::Failure).to_vec(),
                        Err(MerinoError::Io(unsupported("Bind not supported"))),
                    ),
                    SockCommand::UdpAssosiate => self.close(
                        SocksReply::new(ResponseCode::Failure).to_vec(),
                        Err(MerinoError::Io(unsupported("UdpAssosiate not supported"))),
                    ),
                }
            },
            _ => self.close(Vec::new(), Err(MerinoError::Io(truncated()))),
        }
    }

    /// Takes whether the target could be reached in time, and says what to do
    /// next.
    pub fn connected(&mut self, ok: bool) -> (r: Action)
        requires
            old(self)@.stage == Stage::Connecting,
        ensures
            (final(self)@, r@) == after_connect(old(self)@, ok),
            client_wf(final(self)@),
    {
        if ok {
            self.stage = Stage::Relaying;
            Action::Relay { reply: SocksReply::new(ResponseCode::Success).to_vec() }
        } else {
            self.close(
                SocksReply::new(ResponseCode::AddrTypeNotSupported).to_vec(),
                Err(MerinoError::Socks(ResponseCode::AddrTypeNotSupported)),
            )
        }
    }
}

/// After a connect: relay behind a success reply, or close behind a reply that
/// the address type is not supported.
pub open spec fn after_connect(c: ClientView, ok: bool) -> (ClientView, ActionView) {
    if ok {
        (ClientView { stage: Stage::Relaying, ..c }, ActionView::Relay { reply: reply_frame(ResponseCode::Success) })
    } else {
        close_with(
            c,
            reply_frame(ResponseCode::AddrTypeNotSupported),
            OutcomeView::Socks(ResponseCode::AddrTypeNotSupported),
        )
    }
}

/// Relies on `std::io::Error::kind`: whether the error is of kind `NotConnected`.
#[verifier::external_body]
fn is_not_connected(e: &std::io::Error) -> bool {
    e.kind() == std::io::ErrorKind::NotConnected
}

/// How a relay ended, from what the two-way copy returned (bytes client to
/// target, bytes target to client): the count from the target, or nothing
/// when the peer had already gone, or the transport error.
pub fn relay_outcome(copied: Result<(u64, u64), std::io::Error>) -> (r: Result<u64, MerinoError>)
    ensures
        copied is Ok ==> r == Ok::<u64, MerinoError>(copied->Ok_0.1),
        copied is Err ==> r == Ok::<u64, MerinoError>(0) || r matches Err(MerinoError::Io(_)),
{
    match copied {
        Ok((_to_target, to_client)) => Ok(to_client),
        // ignore not connected for shutdown error
        Err(e) => if is_not_connected(&e) {
            Ok(0)
        } else {
            Err(MerinoError::Io(e))
        },
    }
}

} // verus!
