use rsocks5::addr::TargetAddr;
use rsocks5::error::Socks5Error;
use rsocks5::negotiate::{select_method, AuthConfig};
use rsocks5::server::Server;
use rsocks5::session::{reply_code_for, ConnectFailure, Phase, Session, Step};

// Feeds `input` to the session in one buffer until it stops taking bytes or
// needs more than there is; returns the steps and the unconsumed bytes.
fn feed(session: &mut Session, input: &[u8]) -> (Vec<Step>, Vec<u8>) {
    let mut buf = input.to_vec();
    let mut steps = Vec::new();
    while session.wants_input() {
        let step = session.on_input(&buf);
        let stop = match &step {
            Step::Read { total } => *total > buf.len(),
            Step::Reply { consumed, .. } => {
                buf.drain(..*consumed);
                false
            }
            Step::Connect { consumed, .. } => {
                buf.drain(..*consumed);
                true
            }
            _ => true,
        };
        steps.push(step);
        if stop {
            break;
        }
    }
    (steps, buf)
}

fn connect_request(host: &str, port: u16) -> Vec<u8> {
    let mut r = vec![5, 1, 0, 3, host.len() as u8];
    r.extend_from_slice(host.as_bytes());
    r.extend_from_slice(&port.to_be_bytes());
    r
}

#[test]
fn no_auth_offered_is_selected() {
    for methods in [vec![0u8], vec![1, 0], vec![2, 0, 1], vec![0, 0]] {
        let mut s = Session::new(None);
        let mut greeting = vec![5, methods.len() as u8];
        greeting.extend_from_slice(&methods);
        let (steps, rest) = feed(&mut s, &greeting);
        match &steps[0] {
            Step::Reply { consumed, bytes } => {
                assert_eq!(*consumed, greeting.len());
                assert_eq!(bytes, &vec![5, 0]);
            }
            other => panic!("unexpected {:?}", other),
        }
        assert_eq!(s.phase(), Phase::Ready);
        assert!(rest.is_empty());
    }
}

#[test]
fn no_acceptable_method_closes_without_reading() {
    let mut s = Session::new(None);
    let (steps, rest) = feed(&mut s, &[5, 2, 1, 2, 5, 1, 0, 1]);
    assert_eq!(steps.len(), 1);
    match &steps[0] {
        Step::Close { reply: Some(b), error: Socks5Error::HandshakeError(_) } => assert_eq!(b, &vec![5, 0xFF]),
        other => panic!("unexpected {:?}", other),
    }
    assert_eq!(s.phase(), Phase::Closed);
    assert!(!s.wants_input());
    assert_eq!(rest.len(), 8);

    let mut with_auth = Session::new(Some(AuthConfig::new("u", "p")));
    let (steps, _) = feed(&mut with_auth, &[5, 1, 0]);
    assert!(matches!(&steps[0], Step::Close { reply: Some(b), .. } if *b == vec![5, 0xFF]));
}

#[test]
fn greeting_with_bad_version_closes_silently() {
    let mut s = Session::new(None);
    let (steps, _) = feed(&mut s, &[4, 1, 0]);
    match &steps[0] {
        Step::Close { reply: None, error: Socks5Error::HandshakeError(m) } => {
            assert_eq!(m, "Unsupported SOCKS version: 4")
        }
        other => panic!("unexpected {:?}", other),
    }
}

#[test]
fn select_method_policy() {
    assert_eq!(select_method(&[0, 2], false), 0);
    assert_eq!(select_method(&[0, 2], true), 2);
    assert_eq!(select_method(&[0], true), 0xFF);
    assert_eq!(select_method(&[2], false), 0xFF);
    assert_eq!(select_method(&[], false), 0xFF);
}

#[test]
fn username_password_accepted() {
    let mut s = Session::new(Some(AuthConfig::new("alice", "secret")));
    let mut input = vec![5, 1, 2, 1, 5];
    input.extend_from_slice(b"alice");
    input.push(6);
    input.extend_from_slice(b"secret");
    let (steps, _) = feed(&mut s, &input);
    assert!(matches!(&steps[0], Step::Reply { consumed: 3, bytes } if *bytes == vec![5, 2]));
    assert!(matches!(&steps[1], Step::Reply { consumed: 14, bytes } if *bytes == vec![1, 0]));
    assert_eq!(s.phase(), Phase::Ready);
}

#[test]
fn username_password_refused() {
    let mut s = Session::new(Some(AuthConfig::new("alice", "secret")));
    let mut input = vec![5, 1, 2, 1, 5];
    input.extend_from_slice(b"alice");
    input.push(6);
    input.extend_from_slice(b"Secret");
    let (steps, _) = feed(&mut s, &input);
    match &steps[1] {
        Step::Close { reply: Some(b), error: Socks5Error::HandshakeError(_) } => assert_eq!(b, &vec![1, 1]),
        other => panic!("unexpected {:?}", other),
    }
    assert_eq!(s.phase(), Phase::Closed);
}

#[test]
fn subnegotiation_bad_version_refused() {
    let mut s = Session::new(Some(AuthConfig::new("a", "b")));
    let (steps, _) = feed(&mut s, &[5, 1, 2, 5, 1, b'a', 1, b'b']);
    assert!(matches!(&steps[1], Step::Close { reply: Some(b), .. } if *b == vec![1, 1]));
}

#[test]
fn connect_domain_then_success_reply() {
    let server = Server::new("127.0.0.1".to_string(), Some(1080));
    let mut s = server.session();
    let mut input = vec![5, 1, 0];
    input.extend_from_slice(&connect_request("example.com", 80));
    input.extend_from_slice(b"hello");
    let (steps, rest) = feed(&mut s, &input);
    match &steps[1] {
        Step::Connect { target: TargetAddr::Domain(name, 80), .. } => assert_eq!(name, "example.com"),
        other => panic!("unexpected {:?}", other),
    }
    assert_eq!(rest, b"hello".to_vec());
    assert_eq!(s.phase(), Phase::Connecting);
    match s.on_connected() {
        Step::Established { bytes } => assert_eq!(bytes, vec![5, 0, 0, 1, 0, 0, 0, 0, 0, 0]),
        other => panic!("unexpected {:?}", other),
    }
    assert_eq!(s.phase(), Phase::Relaying);
    s.on_relay_finished();
    assert_eq!(s.phase(), Phase::Closed);
}

#[test]
fn connect_ipv4_request_split_across_reads() {
    let mut s = Session::new(None);
    let (_, rest) = feed(&mut s, &[5, 1, 0, 5, 1, 0, 1, 127]);
    assert_eq!(rest, vec![5, 1, 0, 1, 127]);
    assert!(matches!(s.on_input(&rest), Step::Read { total: 10 }));
    let full = [5, 1, 0, 1, 127, 0, 0, 1, 0x1F, 0x90];
    match s.on_input(&full) {
        Step::Connect { consumed: 10, target } => assert_eq!(target.to_string(), "127.0.0.1:8080"),
        other => panic!("unexpected {:?}", other),
    }
}

#[test]
fn refused_connection_gets_connection_refused_reply() {
    let server = Server::new("127.0.0.1".to_string(), None);
    let mut first = server.session();
    let mut second = server.session();
    let mut input = vec![5, 1, 0];
    input.extend_from_slice(&[5, 1, 0, 1, 127, 0, 0, 1, 0, 9]);
    feed(&mut first, &input);
    feed(&mut second, &input);
    match first.on_connect_failed(ConnectFailure::Refused, "Connection refused") {
        Step::Close { reply: Some(b), error: Socks5Error::ConnectionError(m) } => {
            assert_eq!(b, vec![5, 5, 0, 1, 0, 0, 0, 0, 0, 0]);
            assert_eq!(m, "Failed to connect to target 127.0.0.1:9: Connection refused");
        }
        other => panic!("unexpected {:?}", other),
    }
    assert_eq!(first.phase(), Phase::Closed);
    assert_eq!(second.phase(), Phase::Connecting);
    assert!(matches!(second.on_connected(), Step::Established { .. }));
}

#[test]
fn failure_reply_codes() {
    assert_eq!(reply_code_for(ConnectFailure::Refused), 0x05);
    assert_eq!(reply_code_for(ConnectFailure::TimedOut), 0x04);
    assert_eq!(reply_code_for(ConnectFailure::AddrNotAvailable), 0x03);
    assert_eq!(reply_code_for(ConnectFailure::Other), 0x04);
}

#[test]
fn bind_command_not_supported_and_server_goes_on() {
    let server = Server::new("127.0.0.1".to_string(), None);
    let mut s = server.session();
    let (steps, _) = feed(&mut s, &[5, 1, 0, 5, 2, 0, 1, 127, 0, 0, 1, 0, 80]);
    match &steps[1] {
        Step::Close { reply: Some(b), error: Socks5Error::CommandError(m) } => {
            assert_eq!(b, &vec![5, 7, 0, 1, 0, 0, 0, 0, 0, 0]);
            assert_eq!(m, "Unsupported command: 2");
        }
        other => panic!("unexpected {:?}", other),
    }
    let mut next = server.session();
    let (steps, _) = feed(&mut next, &[5, 1, 0, 5, 1, 0, 1, 1, 2, 3, 4, 0, 80]);
    assert!(matches!(&steps[1], Step::Connect { .. }));
}

#[test]
fn request_failures_send_matching_replies() {
    let cases: Vec<(Vec<u8>, u8)> = vec![
        (vec![4, 1, 0, 1], 0x01),
        (vec![5, 3, 0, 1], 0x07),
        (vec![5, 1, 0, 4], 0x08),
        (vec![5, 1, 0, 7], 0x08),
        (vec![5, 1, 0, 3, 1, 0xFF], 0x01),
    ];
    for (request, code) in cases {
        let mut s = Session::new(None);
        s.on_input(&[5, 1, 0]);
        match s.on_input(&request) {
            Step::Close { reply: Some(b), .. } => assert_eq!(b, vec![5, code, 0, 1, 0, 0, 0, 0, 0, 0]),
            other => panic!("unexpected {:?}", other),
        }
    }
}

#[test]
fn address_errors_are_address_errors() {
    let mut s = Session::new(None);
    s.on_input(&[5, 1, 0]);
    match s.on_input(&[5, 1, 0, 4]) {
        Step::Close { error: Socks5Error::AddressError(m), .. } => {
            assert_eq!(m, "IPv6 address type not supported")
        }
        other => panic!("unexpected {:?}", other),
    }
    let mut s = Session::new(None);
    s.on_input(&[5, 1, 0]);
    let step = s.on_input(&[5, 1, 0, 3, 1, 0xFF, 0, 80]);
    assert!(matches!(step, Step::Close { error: Socks5Error::AddressError(_), .. }));
}

#[test]
fn interleaved_sessions_stay_apart() {
    let server = Server::new("0.0.0.0".to_string(), None);
    let mut sessions: Vec<Session> = (0..4).map(|_| server.session()).collect();
    for s in sessions.iter_mut() {
        s.on_input(&[5, 1, 0]);
    }
    let mut targets = Vec::new();
    for (i, s) in sessions.iter_mut().enumerate() {
        match s.on_input(&connect_request(&format!("host{}.test", i), 1000 + i as u16)) {
            Step::Connect { target, .. } => targets.push(target.to_string()),
            other => panic!("unexpected {:?}", other),
        }
    }
    assert_eq!(targets, vec!["host0.test:1000", "host1.test:1001", "host2.test:1002", "host3.test:1003"]);
    sessions[1].on_connect_failed(ConnectFailure::Other, "x");
    for (i, s) in sessions.iter().enumerate() {
        let expected = if i == 1 { Phase::Closed } else { Phase::Connecting };
        assert_eq!(s.phase(), expected);
    }
}
