use merino::{
    addr_to_socket, choose_method, get_avalible_methods, pretty_print_addr, relay_outcome, Action,
    AddrType, AuthMethods, MerinoError, ResponseCode, SOCKClient, SOCKSReq, ServerConfig,
    SockCommand, SocketTarget, SocksReply, Stage, User,
};

fn reply_of(code: ResponseCode) -> Vec<u8> {
    SocksReply::new(code).to_vec()
}

fn read_action(a: Action) -> (Vec<u8>, usize) {
    match a {
        Action::Read { reply, need } => (reply, need),
        _ => panic!("expected a read"),
    }
}

fn close_action(a: Action) -> (Vec<u8>, Result<(), MerinoError>) {
    match a {
        Action::Close { reply, outcome } => (reply, outcome),
        _ => panic!("expected a close"),
    }
}

fn code_of(r: Result<(), MerinoError>) -> Option<ResponseCode> {
    match r {
        Ok(()) => None,
        Err(e) => Some(ResponseCode::from(e)),
    }
}

fn users() -> Vec<User> {
    vec![
        User::new("alice".to_string(), "secret".to_string()),
        User::new("bob".to_string(), "hunter2".to_string()),
    ]
}

fn password_config() -> ServerConfig {
    ServerConfig::new(vec![2], users(), None)
}

/// Runs a client through the greeting offering `offered`.
fn greet(config: &ServerConfig, client: &mut SOCKClient, offered: &[u8]) -> Action {
    let (reply, need) = read_action(client.begin());
    assert!(reply.is_empty());
    assert_eq!(need, 2);
    let (reply, need) = read_action(client.step(config, &[5, offered.len() as u8]));
    assert!(reply.is_empty());
    assert_eq!(need, offered.len());
    client.step(config, offered)
}

/// Runs a no-auth client up to the point where the request has been read.
fn request(config: &ServerConfig, frame: &[u8]) -> (SOCKClient, Action) {
    let mut client = SOCKClient::new(false);
    let (reply, need) = read_action(greet(config, &mut client, &[0]));
    assert_eq!(reply, vec![5, 0]);
    let mut pos = 0;
    let mut need = need;
    loop {
        let a = client.step(config, &frame[pos..pos + need]);
        pos += need;
        match a {
            Action::Read { reply, need: n } => {
                assert!(reply.is_empty());
                need = n;
            }
            other => return (client, other),
        }
    }
}

#[test]
fn reply_frame_is_ten_bytes_with_zero_bound_address() {
    assert_eq!(reply_of(ResponseCode::Success), vec![5, 0, 0, 1, 0, 0, 0, 0, 0, 0]);
    assert_eq!(reply_of(ResponseCode::Failure), vec![5, 1, 0, 1, 0, 0, 0, 0, 0, 0]);
    assert_eq!(
        reply_of(ResponseCode::AddrTypeNotSupported),
        vec![5, 8, 0, 1, 0, 0, 0, 0, 0, 0]
    );
}

#[test]
fn response_codes_have_their_wire_values() {
    let all = [
        ResponseCode::Success,
        ResponseCode::Failure,
        ResponseCode::RuleFailure,
        ResponseCode::NetworkUnreachable,
        ResponseCode::HostUnreachable,
        ResponseCode::ConnectionRefused,
        ResponseCode::TtlExpired,
        ResponseCode::CommandNotSupported,
        ResponseCode::AddrTypeNotSupported,
    ];
    for (i, c) in all.iter().enumerate() {
        assert_eq!(c.byte() as usize, i);
    }
}

#[test]
fn errors_map_to_reply_codes() {
    let io = MerinoError::Io(std::io::Error::new(std::io::ErrorKind::Other, "boom"));
    assert_eq!(ResponseCode::from(io), ResponseCode::Failure);
    let socks = MerinoError::Socks(ResponseCode::RuleFailure);
    assert_eq!(ResponseCode::from(socks), ResponseCode::RuleFailure);
}

#[test]
fn auth_method_bytes() {
    assert_eq!(AuthMethods::NoAuth.byte(), 0);
    assert_eq!(AuthMethods::UserPass.byte(), 2);
    assert_eq!(AuthMethods::NoMethods.byte(), 0xff);
}

#[test]
fn addr_type_from_byte() {
    assert_eq!(AddrType::from(1), Some(AddrType::V4));
    assert_eq!(AddrType::from(3), Some(AddrType::Domain));
    assert_eq!(AddrType::from(4), Some(AddrType::V6));
    assert_eq!(AddrType::from(2), None);
    assert_eq!(AddrType::from(0), None);
}

#[test]
fn command_from_byte() {
    assert_eq!(SockCommand::from(1), Some(SockCommand::Connect));
    assert_eq!(SockCommand::from(2), Some(SockCommand::Bind));
    assert_eq!(SockCommand::from(3), Some(SockCommand::UdpAssosiate));
    assert_eq!(SockCommand::from(4), None);
}

#[test]
fn methods_are_filtered_in_offered_order() {
    assert_eq!(get_avalible_methods(&[1, 2, 0, 9], &[0, 2], false), vec![2, 0]);
    assert_eq!(get_avalible_methods(&[1, 9], &[0, 2], false), Vec::<u8>::new());
    assert_eq!(get_avalible_methods(&[], &[0, 2], false), Vec::<u8>::new());
}

#[test]
fn whitelisted_client_always_gets_no_auth() {
    assert_eq!(get_avalible_methods(&[2], &[2], true), vec![2, 0]);
    assert_eq!(get_avalible_methods(&[], &[2], true), vec![0]);
    assert_eq!(get_avalible_methods(&[0], &[0], true), vec![0]);
}

#[test]
fn user_pass_is_preferred() {
    assert_eq!(choose_method(&[0, 2]), AuthMethods::UserPass);
    assert_eq!(choose_method(&[0]), AuthMethods::NoAuth);
    assert_eq!(choose_method(&[]), AuthMethods::NoMethods);
    assert_eq!(choose_method(&[1, 3]), AuthMethods::NoMethods);
}

#[test]
fn credentials_match_by_both_fields() {
    let config = password_config();
    assert!(config.authed(&User::new("alice".to_string(), "secret".to_string())));
    assert!(!config.authed(&User::new("alice".to_string(), "hunter2".to_string())));
    assert!(!config.authed(&User::new("carol".to_string(), "secret".to_string())));
    assert!(User::new("a".to_string(), "b".to_string()) == User::new("a".to_string(), "b".to_string()));
}

#[test]
fn pretty_print_ipv4() {
    assert_eq!(pretty_print_addr(&AddrType::V4, &[127, 0, 0, 1]), "127.0.0.1");
    assert_eq!(pretty_print_addr(&AddrType::V4, &[255, 10, 200, 9]), "255.10.200.9");
}

#[test]
fn pretty_print_ipv6() {
    let mut b = [0u8; 16];
    b[0] = 0x20;
    b[1] = 0x01;
    b[2] = 0x0d;
    b[3] = 0xb8;
    b[15] = 1;
    assert_eq!(pretty_print_addr(&AddrType::V6, &b), "2001:db8:0:0:0:0:0:1");
}

#[test]
fn pretty_print_domain() {
    assert_eq!(pretty_print_addr(&AddrType::Domain, b"example.com"), "example.com");
    assert_eq!(pretty_print_addr(&AddrType::Domain, &[b'a', 0xff, b'b']), "a\u{fffd}b");
}

#[test]
fn ipv4_address_to_socket() {
    match addr_to_socket(&AddrType::V4, &[10, 0, 0, 7], 8080) {
        SocketTarget::Ip4 { octets, port } => {
            assert_eq!(octets, [10, 0, 0, 7]);
            assert_eq!(port, 8080);
        }
        _ => panic!("expected IPv4"),
    }
}

#[test]
fn ipv6_address_to_socket() {
    let mut b = [0u8; 16];
    b[0] = 0xfe;
    b[1] = 0x80;
    b[14] = 0x12;
    b[15] = 0x34;
    match addr_to_socket(&AddrType::V6, &b, 443) {
        SocketTarget::Ip6 { segments, port } => {
            assert_eq!(segments, [0xfe80, 0, 0, 0, 0, 0, 0, 0x1234]);
            assert_eq!(port, 443);
        }
        _ => panic!("expected IPv6"),
    }
}

#[test]
fn domain_address_to_socket() {
    match addr_to_socket(&AddrType::Domain, b"localhost", 1080) {
        SocketTarget::Name { host, port } => {
            assert_eq!(host, "localhost");
            assert_eq!(port, 1080);
            assert_eq!(SocketTarget::host_port(&host, port), "localhost:1080");
        }
        _ => panic!("expected a name"),
    }
    assert_eq!(SocketTarget::host_port(&"h".to_string(), 0), "h:0");
    assert_eq!(SocketTarget::host_port(&"h".to_string(), 65535), "h:65535");
}

#[test]
fn address_round_trip() {
    let targets = vec![
        SocketTarget::Ip4 { octets: [192, 168, 1, 20], port: 22 },
        SocketTarget::Ip6 { segments: [0x2001, 0xdb8, 0, 1, 0xffff, 0, 0xabcd, 9], port: 65535 },
        SocketTarget::Name { host: "example.org".to_string(), port: 0 },
    ];
    for t in targets {
        let (kind, bytes) = t.to_wire();
        let back = addr_to_socket(&kind, &bytes, match &t {
            SocketTarget::Ip4 { port, .. } => *port,
            SocketTarget::Ip6 { port, .. } => *port,
            SocketTarget::Name { port, .. } => *port,
        });
        match (&t, &back) {
            (SocketTarget::Ip4 { octets: a, port: p }, SocketTarget::Ip4 { octets: b, port: q }) => {
                assert_eq!(a, b);
                assert_eq!(p, q);
            }
            (SocketTarget::Ip6 { segments: a, port: p }, SocketTarget::Ip6 { segments: b, port: q }) => {
                assert_eq!(a, b);
                assert_eq!(p, q);
            }
            (SocketTarget::Name { host: a, port: p }, SocketTarget::Name { host: b, port: q }) => {
                assert_eq!(a, b);
                assert_eq!(p, q);
            }
            _ => panic!("kind changed"),
        }
    }
}

#[test]
fn request_frame_bytes() {
    let req = SOCKSReq {
        version: 5,
        command: SockCommand::Connect,
        addr_type: AddrType::Domain,
        addr: b"abc".to_vec(),
        port: 0x1f90,
    };
    assert_eq!(req.to_bytes(), vec![5, 1, 0, 3, 3, b'a', b'b', b'c', 0x1f, 0x90]);
    let req = SOCKSReq {
        version: 5,
        command: SockCommand::Bind,
        addr_type: AddrType::V4,
        addr: vec![1, 2, 3, 4],
        port: 80,
    };
    assert_eq!(req.to_bytes(), vec![5, 2, 0, 1, 1, 2, 3, 4, 0, 80]);
    match req.target() {
        SocketTarget::Ip4 { octets, port } => {
            assert_eq!(octets, [1, 2, 3, 4]);
            assert_eq!(port, 80);
        }
        _ => panic!("expected IPv4"),
    }
}

#[test]
fn no_acceptable_method_closes() {
    let config = password_config();
    let mut client = SOCKClient::new(false);
    let (reply, outcome) = close_action(greet(&config, &mut client, &[0]));
    assert_eq!(reply, vec![5, 0xff]);
    assert_eq!(code_of(outcome), Some(ResponseCode::RuleFailure));
    assert_eq!(client.stage(), Stage::Closed);
}

#[test]
fn empty_method_list_closes() {
    let config = ServerConfig::new(vec![0], Vec::new(), None);
    let mut client = SOCKClient::new(false);
    let (reply, outcome) = close_action(greet(&config, &mut client, &[]));
    assert_eq!(reply, vec![5, 0xff]);
    assert_eq!(code_of(outcome), Some(ResponseCode::RuleFailure));
}

#[test]
fn whitelisted_client_gets_in_without_password() {
    let config = password_config();
    let mut client = SOCKClient::new(true);
    let (reply, need) = read_action(greet(&config, &mut client, &[]));
    assert_eq!(reply, vec![5, 0]);
    assert_eq!(need, 4);
    assert_eq!(client.stage(), Stage::RequestHeader);
}

#[test]
fn no_auth_goes_straight_to_request() {
    let config = ServerConfig::new_no_auth(None);
    let mut client = SOCKClient::new(false);
    let (reply, need) = read_action(greet(&config, &mut client, &[0]));
    assert_eq!(reply, vec![5, 0]);
    assert_eq!(need, 4);
    assert_eq!(client.stage(), Stage::RequestHeader);
}

fn login(name: &[u8], pass: &[u8]) -> (SOCKClient, Action) {
    let config = password_config();
    let mut client = SOCKClient::new(false);
    let (reply, need) = read_action(greet(&config, &mut client, &[0, 2]));
    assert_eq!(reply, vec![5, 2]);
    assert_eq!(need, 2);
    let (_, need) = read_action(client.step(&config, &[1, name.len() as u8]));
    assert_eq!(need, name.len());
    let (_, need) = read_action(client.step(&config, name));
    assert_eq!(need, 1);
    let (_, need) = read_action(client.step(&config, &[pass.len() as u8]));
    assert_eq!(need, pass.len());
    let a = client.step(&config, pass);
    (client, a)
}

#[test]
fn good_credentials_are_accepted() {
    let (client, a) = login(b"bob", b"hunter2");
    let (reply, need) = read_action(a);
    assert_eq!(reply, vec![1, 0]);
    assert_eq!(need, 4);
    assert_eq!(client.stage(), Stage::RequestHeader);
}

#[test]
fn bad_credentials_are_refused() {
    for (name, pass) in [(&b"bob"[..], &b"secret"[..]), (b"alice", b""), (b"", b"hunter2")] {
        let (client, a) = login(name, pass);
        let (reply, outcome) = close_action(a);
        assert_eq!(reply, vec![1, 1]);
        assert_eq!(code_of(outcome), Some(ResponseCode::RuleFailure));
        assert_eq!(client.stage(), Stage::Closed);
    }
}

#[test]
fn connect_request_asks_to_dial_with_default_timeout() {
    let config = ServerConfig::new_no_auth(None);
    let (client, a) = request(&config, &[5, 1, 0, 1, 127, 0, 0, 1, 0x1f, 0x90]);
    assert_eq!(client.stage(), Stage::Connecting);
    match a {
        Action::Connect { target: SocketTarget::Ip4 { octets, port }, timeout_ms } => {
            assert_eq!(octets, [127, 0, 0, 1]);
            assert_eq!(port, 8080);
            assert_eq!(timeout_ms, 50);
        }
        _ => panic!("expected a connect"),
    }
}

#[test]
fn domain_request_uses_configured_timeout() {
    let config = ServerConfig::new_no_auth(Some(2000));
    let (_, a) = request(&config, &[5, 1, 0, 3, 4, b'h', b'o', b's', b't', 0, 80]);
    match a {
        Action::Connect { target: SocketTarget::Name { host, port }, timeout_ms } => {
            assert_eq!(host, "host");
            assert_eq!(port, 80);
            assert_eq!(timeout_ms, 2000);
        }
        _ => panic!("expected a connect"),
    }
}

#[test]
fn successful_connect_replies_success_then_relays() {
    let config = ServerConfig::new_no_auth(None);
    let (mut client, _) = request(&config, &[5, 1, 0, 1, 127, 0, 0, 1, 0, 7]);
    match client.connected(true) {
        Action::Relay { reply } => assert_eq!(reply, reply_of(ResponseCode::Success)),
        _ => panic!("expected a relay"),
    }
    assert_eq!(client.stage(), Stage::Relaying);
}

#[test]
fn failed_connect_replies_addr_type_not_supported() {
    let config = ServerConfig::new_no_auth(None);
    let (mut client, _) = request(&config, &[5, 1, 0, 1, 10, 255, 255, 1, 0, 9]);
    let (reply, outcome) = close_action(client.connected(false));
    assert_eq!(reply, vec![5, 8, 0, 1, 0, 0, 0, 0, 0, 0]);
    assert_eq!(code_of(outcome), Some(ResponseCode::AddrTypeNotSupported));
    assert_eq!(client.stage(), Stage::Closed);
}

#[test]
fn bind_and_udp_associate_are_refused() {
    let config = ServerConfig::new_no_auth(None);
    for cmd in [2u8, 3u8] {
        let (client, a) = request(&config, &[5, cmd, 0, 1, 1, 1, 1, 1, 0, 53]);
        let (reply, outcome) = close_action(a);
        assert_eq!(reply, reply_of(ResponseCode::Failure));
        match outcome {
            Err(MerinoError::Io(e)) => assert_eq!(e.kind(), std::io::ErrorKind::Unsupported),
            _ => panic!("expected an unsupported error"),
        }
        assert_eq!(client.stage(), Stage::Closed);
    }
}

#[test]
fn wrong_greeting_version_closes_silently() {
    let config = ServerConfig::new_no_auth(None);
    let mut client = SOCKClient::new(false);
    let (reply, outcome) = close_action(client.step(&config, &[4, 1]));
    assert!(reply.is_empty());
    assert!(outcome.is_ok());
    assert_eq!(client.stage(), Stage::Closed);
}

#[test]
fn malformed_requests_close() {
    let config = ServerConfig::new_no_auth(None);
    let cases: [(&[u8], ResponseCode); 3] = [
        (&[4, 1, 0, 1], ResponseCode::Failure),
        (&[5, 9, 0, 1], ResponseCode::CommandNotSupported),
        (&[5, 1, 0, 2], ResponseCode::AddrTypeNotSupported),
    ];
    for (frame, code) in cases {
        let (client, a) = request(&config, frame);
        let (reply, outcome) = close_action(a);
        assert!(reply.is_empty());
        assert_eq!(code_of(outcome), Some(code));
        assert_eq!(client.stage(), Stage::Closed);
    }
}

#[test]
fn truncated_frame_closes() {
    let config = ServerConfig::new_no_auth(None);
    let mut client = SOCKClient::new(false);
    let (reply, outcome) = close_action(client.step(&config, &[5]));
    assert!(reply.is_empty());
    match outcome {
        Err(MerinoError::Io(e)) => assert_eq!(e.kind(), std::io::ErrorKind::UnexpectedEof),
        _ => panic!("expected an I/O error"),
    }
    assert_eq!(client.stage(), Stage::Closed);
}

#[test]
fn relay_outcomes() {
    assert!(matches!(relay_outcome(Ok((3, 4))), Ok(4)));
    let gone = std::io::Error::from(std::io::ErrorKind::NotConnected);
    assert!(matches!(relay_outcome(Err(gone)), Ok(0)));
    let reset = std::io::Error::from(std::io::ErrorKind::ConnectionReset);
    assert!(matches!(relay_outcome(Err(reset)), Err(MerinoError::Io(_))));
}

#[test]
fn dialing_client_reports_its_request() {
    let config = ServerConfig::new_no_auth(None);
    let (client, _) = request(&config, &[5, 1, 0, 3, 2, b'h', b'i', 0x01, 0xbb]);
    let req = client.request();
    assert_eq!(req.version, 5);
    assert_eq!(req.command, SockCommand::Connect);
    assert_eq!(req.addr_type, AddrType::Domain);
    assert_eq!(req.addr, b"hi".to_vec());
    assert_eq!(req.port, 443);
    assert_eq!(req.to_bytes(), vec![5, 1, 0, 3, 2, b'h', b'i', 0x01, 0xbb]);
}

#[test]
fn response_code_descriptions() {
    assert_eq!(ResponseCode::Failure.describe(), "SOCKS5 Server Failure");
    assert_eq!(ResponseCode::AddrTypeNotSupported.describe(), "Addr Type not supported");
}
