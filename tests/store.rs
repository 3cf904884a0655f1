use rusty_socks_proxy::config::{Config, ConfigError};
use rusty_socks_proxy::credentials::Credentials;

fn lines(v: &[&str]) -> Vec<Vec<u8>> {
    v.iter().map(|l| l.as_bytes().to_vec()).collect()
}

#[test]
fn lines_split_on_first_colon() {
    let c = Credentials::from_lines(&lines(&["alice:pa:ss", "no colon here", "bob: spaced "]));
    assert!(c.check(b"alice", b"pa:ss"));
    assert!(!c.check(b"alice", b"pa"));
    assert!(c.check(b"bob", b" spaced "));
    assert!(!c.check(b"bob", b"spaced"));
    assert!(!c.check(b"no colon here", b""));
    assert!(!c.is_empty());
}

#[test]
fn later_line_wins() {
    let c = Credentials::from_lines(&lines(&["carol:old", "carol:new"]));
    assert!(c.check(b"carol", b"new"));
    assert!(!c.check(b"carol", b"old"));
}

#[test]
fn empty_store() {
    assert!(Credentials::new().is_empty());
    let c = Credentials::from_lines(&lines(&["", "nothing"]));
    assert!(c.is_empty());
    assert!(!c.check(b"", b""));
    let d = Credentials::from_lines(&lines(&[":"]));
    assert!(!d.is_empty());
    assert!(d.check(b"", b""));
}

#[test]
fn config_defaults_and_values() {
    let c = Config::from_settings(None, None).unwrap();
    assert_eq!(c.listen_port, 1080);
    assert_eq!(c.keepalive_interval_secs, 0);
    assert!(!c.keepalive_enabled());
    let c = Config::from_settings(Some("+9050"), Some("30")).unwrap();
    assert_eq!(c.listen_port, 9050);
    assert_eq!(c.keepalive_interval_secs, 30);
    assert!(c.keepalive_enabled());
    let c = Config::from_settings(Some("65535"), Some("soon")).unwrap();
    assert_eq!(c.listen_port, 65535);
    assert_eq!(c.keepalive_interval_secs, 0);
}

#[test]
fn config_rejects_bad_port() {
    assert_eq!(Config::from_settings(Some("65536"), None), Err(ConfigError::InvalidPort));
    assert_eq!(Config::from_settings(Some(" 80"), None), Err(ConfigError::InvalidPort));
    assert_eq!(Config::from_settings(Some(""), None), Err(ConfigError::InvalidPort));
}
