use rusty_socks_proxy::credentials::Credentials;
use rusty_socks_proxy::handshake::{Action, Event, Phase, Session, SessionError};
use rusty_socks_proxy::codec::ProtocolError;
use rusty_socks_proxy::relay::{CopyOutcome, Direction, Relay, RelayAction};
use rusty_socks_proxy::sniff::{has_signature, sniff_target};
use rusty_socks_proxy::target::Target;

fn users(v: &[&str]) -> Credentials {
    Credentials::from_lines(&v.iter().map(|l| l.as_bytes().to_vec()).collect())
}

fn sent(a: Action) -> Vec<u8> {
    match a {
        Action::Send(b) => b,
        other => panic!("expected Send, got {:?}", other),
    }
}

fn rejected(a: Action) -> (Vec<u8>, SessionError) {
    match a {
        Action::Reject(b, e) => (b, e),
        other => panic!("expected Reject, got {:?}", other),
    }
}

fn auth_frame(u: &[u8], p: &[u8]) -> Vec<u8> {
    let mut b = vec![0x01, u.len() as u8];
    b.extend_from_slice(u);
    b.push(p.len() as u8);
    b.extend_from_slice(p);
    b
}

#[test]
fn no_auth_selected_without_users() {
    let mut s = Session::new(Credentials::new(), false);
    assert_eq!(sent(s.step(Event::Received(vec![0x05, 0x01, 0x00]))), vec![0x05, 0x00]);
    assert_eq!(s.phase(), Phase::AwaitRequest);
}

#[test]
fn no_auth_refused_with_users() {
    let mut s = Session::new(users(&["alice:pw"]), false);
    let (b, e) = rejected(s.step(Event::Received(vec![0x05, 0x01, 0x00])));
    assert_eq!(b, vec![0x05, 0xFF]);
    assert_eq!(e, SessionError::NoAcceptableMethod);
    assert_eq!(s.phase(), Phase::Failed);
    assert!(s.is_terminal());
    assert!(matches!(s.step(Event::Received(vec![0x05, 0x01, 0x00, 0x01, 1, 2, 3, 4, 0, 80])), Action::Ignore));
}

#[test]
fn user_pass_preferred_when_offered() {
    let mut s = Session::new(Credentials::new(), false);
    assert_eq!(sent(s.step(Event::Received(vec![0x05, 0x02, 0x00, 0x02]))), vec![0x05, 0x02]);
    assert_eq!(s.phase(), Phase::AwaitAuth);
}

#[test]
fn malformed_greeting_refused() {
    let mut s = Session::new(Credentials::new(), false);
    let (b, e) = rejected(s.step(Event::Received(vec![0x04, 0x01, 0x00])));
    assert_eq!(b, vec![0x05, 0xFF]);
    assert_eq!(e, SessionError::Protocol(ProtocolError::UnsupportedVersion));
}

#[test]
fn wrong_credentials_refused() {
    let mut s = Session::new(users(&["alice:pw", "bob:hunter2", "carol:x"]), false);
    sent(s.step(Event::Received(vec![0x05, 0x01, 0x02])));
    let (b, e) = rejected(s.step(Event::Received(auth_frame(b"alice", b"hunter2"))));
    assert_eq!(b, vec![0x01, 0xFF]);
    assert_eq!(e, SessionError::BadCredentials);
    assert_eq!(s.phase(), Phase::Failed);
}

#[test]
fn right_credentials_accepted() {
    let mut s = Session::new(users(&["alice:pw", "bob:hunter2"]), false);
    sent(s.step(Event::Received(vec![0x05, 0x01, 0x02])));
    assert!(s.user().is_none());
    assert_eq!(sent(s.step(Event::Received(auth_frame(b"bob", b"hunter2")))), vec![0x01, 0x00]);
    assert_eq!(s.phase(), Phase::AwaitRequest);
    assert_eq!(s.user(), Some(&b"bob".to_vec()));
}

#[test]
fn malformed_auth_refused() {
    let mut s = Session::new(users(&["alice:pw"]), false);
    sent(s.step(Event::Received(vec![0x05, 0x01, 0x02])));
    let (b, e) = rejected(s.step(Event::Received(vec![0x01, 0x05, b'a'])));
    assert_eq!(b, vec![0x01, 0xFF]);
    assert_eq!(e, SessionError::Protocol(ProtocolError::UsernameIncomplete));
}

#[test]
fn unsupported_command_refused() {
    let mut s = Session::new(Credentials::new(), false);
    sent(s.step(Event::Received(vec![0x05, 0x01, 0x00])));
    let (b, e) = rejected(s.step(Event::Received(vec![0x05, 0x02, 0x00, 0x01, 1, 2, 3, 4, 0, 80])));
    assert_eq!(b, vec![0x05, 0x07, 0x00, 0x01, 0, 0, 0, 0, 0, 0]);
    assert_eq!(e, SessionError::Protocol(ProtocolError::UnsupportedCommand));
    assert!(matches!(s.step(Event::Connected), Action::Ignore));
}

#[test]
fn unsupported_address_type_refused() {
    let mut s = Session::new(Credentials::new(), false);
    sent(s.step(Event::Received(vec![0x05, 0x01, 0x00])));
    let (b, _) = rejected(s.step(Event::Received(vec![0x05, 0x01, 0x00, 0x02, 1, 2])));
    assert_eq!(b, vec![0x05, 0x08, 0x00, 0x01, 0, 0, 0, 0, 0, 0]);
}

#[test]
fn full_session_connects_and_relays() {
    let mut s = Session::new(Credentials::new(), false);
    sent(s.step(Event::Received(vec![0x05, 0x01, 0x00])));
    match s.step(Event::Received(vec![0x05, 0x01, 0x00, 0x01, 192, 0, 2, 1, 0, 80])) {
        Action::Connect(t) => {
            assert_eq!(t.host, b"192.0.2.1".to_vec());
            assert_eq!(t.port, 80);
        },
        other => panic!("expected Connect, got {:?}", other),
    }
    match s.step(Event::Connected) {
        Action::ReplyAndRelay(b) => assert_eq!(b, vec![0x05, 0x00, 0x00, 0x01, 0, 0, 0, 0, 0, 0]),
        other => panic!("expected ReplyAndRelay, got {:?}", other),
    }
    assert_eq!(s.phase(), Phase::Relaying);
    assert!(matches!(s.step(Event::RelayEnded), Action::Finish));
    assert_eq!(s.phase(), Phase::Closed);
    assert!(matches!(s.step(Event::RelayEnded), Action::Ignore));
}

#[test]
fn connect_failure_sends_general_failure() {
    let mut s = Session::new(Credentials::new(), false);
    sent(s.step(Event::Received(vec![0x05, 0x01, 0x00])));
    s.step(Event::Received(vec![0x05, 0x01, 0x00, 0x01, 10, 0, 0, 5, 0x08, 0xAE]));
    let (b, e) = rejected(s.step(Event::ConnectFailed));
    assert_eq!(b, vec![0x05, 0x01, 0x00, 0x01, 0, 0, 0, 0, 0, 0]);
    assert_eq!(e, SessionError::ConnectFailed);
}

fn sniffing_session_to_10_0_0_5() -> Session {
    let mut s = Session::new(Credentials::new(), true);
    sent(s.step(Event::Received(vec![0x05, 0x01, 0x00])));
    assert!(matches!(
        s.step(Event::Received(vec![0x05, 0x01, 0x00, 0x01, 10, 0, 0, 5, 0x08, 0xAE])),
        Action::Sniff
    ));
    s
}

#[test]
fn ssh_banner_redirects_to_local_service() {
    let mut s = sniffing_session_to_10_0_0_5();
    match s.step(Event::Peeked(b"SSH-2.0-OpenSSH_9.6\r\n".to_vec())) {
        Action::Connect(t) => {
            assert_eq!(t.host, b"127.0.0.1".to_vec());
            assert_eq!(t.port, 22);
        },
        other => panic!("expected Connect, got {:?}", other),
    }
}

#[test]
fn other_traffic_keeps_destination() {
    let mut s = sniffing_session_to_10_0_0_5();
    match s.step(Event::Peeked(b"GET / HTTP/1.1\r\n".to_vec())) {
        Action::Connect(t) => {
            assert_eq!(t.host, b"10.0.0.5".to_vec());
            assert_eq!(t.port, 2222);
        },
        other => panic!("expected Connect, got {:?}", other),
    }
    let mut s = sniffing_session_to_10_0_0_5();
    match s.step(Event::Peeked(Vec::new())) {
        Action::Connect(t) => assert_eq!(t.host, b"10.0.0.5".to_vec()),
        other => panic!("expected Connect, got {:?}", other),
    }
}

#[test]
fn signature_search() {
    assert!(has_signature(b"xxSSH"));
    assert!(has_signature(&[0xFF, 0xFE, b'S', b'S', b'H', 0x80]));
    assert!(!has_signature(b"SS"));
    assert!(!has_signature(b"SSh-2.0"));
    let t = Target { host: b"example.com".to_vec(), port: 443 };
    let r = sniff_target(t, b"SSH");
    assert_eq!(r.host, b"127.0.0.1".to_vec());
    assert_eq!(r.port, 22);
}

#[test]
fn relay_tears_down_once_after_both_ends() {
    let mut r = Relay::new();
    assert_eq!(r.on_copy_end(Direction::ClientToServer, CopyOutcome::EndOfStream), RelayAction::Continue);
    assert_eq!(
        r.on_copy_end(Direction::ServerToClient, CopyOutcome::EndOfStream),
        RelayAction::Teardown { success: true }
    );
    assert_eq!(r.on_copy_end(Direction::ServerToClient, CopyOutcome::EndOfStream), RelayAction::Ignore);
    assert_eq!(r.on_copy_end(Direction::ClientToServer, CopyOutcome::Failed), RelayAction::Ignore);
}

#[test]
fn relay_fails_fast() {
    let mut r = Relay::new();
    assert_eq!(
        r.on_copy_end(Direction::ServerToClient, CopyOutcome::Failed),
        RelayAction::Teardown { success: false }
    );
    assert_eq!(r.on_copy_end(Direction::ClientToServer, CopyOutcome::EndOfStream), RelayAction::Ignore);
    let mut r = Relay::new();
    assert_eq!(r.on_copy_end(Direction::ClientToServer, CopyOutcome::EndOfStream), RelayAction::Continue);
    assert_eq!(r.on_copy_end(Direction::ClientToServer, CopyOutcome::EndOfStream), RelayAction::Continue);
}
