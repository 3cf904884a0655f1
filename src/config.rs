//! The proxy's configuration, built once at startup from its settings text.

use vstd::prelude::*;

verus! {

/// Port listened on when none is configured.
pub const DEFAULT_PORT: u16 = 1080;

/// Whether every character of `d` is an ASCII digit.
pub open spec fn all_digits(d: Seq<char>) -> bool {
    forall|i: int| 0 <= i < d.len() ==> '0' <= #[trigger] d[i] && d[i] <= '9'
}

/// The value of a string of ASCII digits.
pub open spec fn digits_value(d: Seq<char>) -> nat
    decreases d.len(),
{
    if d.len() == 0 {
        0
    } else {
        digits_value(d.drop_last()) * 10 + ((d.last() as u32) - 48) as nat
    }
}

/// The value that an unsigned integer's `from_str` reads in `s`: an optional
/// `+` followed by one or more ASCII digits, nothing else.
pub open spec fn unsigned_text(s: Seq<char>) -> Option<nat> {
    let d = if s.len() > 0 && s[0] == '+' {
        s.drop_first()
    } else {
        s
    };
    if d.len() > 0 && all_digits(d) {
        Some(digits_value(d))
    } else {
        None
    }
}

/// Relies on `<u16 as FromStr>::from_str`: an optional `+` then digits, and
/// an error when the value does not fit.
#[verifier::external_body]
fn parse_u16(s: &str) -> (r: Option<u16>)
    ensures
        r == (match unsigned_text(s@) {
            Some(v) => if v <= u16::MAX {
                Some(v as u16)
            } else {
                None::<u16>
            },
            None => None::<u16>,
        }),
{
    s.parse::<u16>().ok()
}

/// Relies on `<u64 as FromStr>::from_str`: an optional `+` then digits, and
/// an error when the value does not fit.
#[verifier::external_body]
fn parse_u64(s: &str) -> (r: Option<u64>)
    ensures
        r == (match unsigned_text(s@) {
            Some(v) => if v <= u64::MAX {
                Some(v as u64)
            } else {
                None::<u64>
            },
            None => None::<u64>,
        }),
{
    s.parse::<u64>().ok()
}

#[derive(PartialEq, Eq, Structural, Clone, Copy, Debug)]
pub enum ConfigError {
    /// The listening port is not a number from 0 to 65535.
    InvalidPort,
}

/// The port and keep-alive settings that every session uses.
#[derive(PartialEq, Eq, Structural, Clone, Copy, Debug)]
pub struct Config {
    pub listen_port: u16,
    /// Seconds of idleness before keep-alive probes; 0 leaves keep-alive off.
    pub keepalive_interval_secs: u64,
}

impl Config {
    /// The configuration from the settings' text, each absent when unset:
    /// an unset port is 1080 and one that does not read as a port is an
    /// error; an unset or unreadable keep-alive interval is 0.
    pub fn from_settings(port: Option<&str>, keepalive_interval: Option<&str>) -> (r: Result<
        Config,
        ConfigError,
    >)
        ensures
            match port {
                None => r is Ok && r->Ok_0.listen_port == DEFAULT_PORT,
                Some(p) => match unsigned_text(p@) {
                    Some(v) => if v <= u16::MAX {
                        r is Ok && r->Ok_0.listen_port == v
                    } else {
                        r == Err::<Config, ConfigError>(ConfigError::InvalidPort)
                    },
                    None => r == Err::<Config, ConfigError>(ConfigError::InvalidPort),
                },
            },
            r is Ok ==> r->Ok_0.keepalive_interval_secs == match keepalive_interval {
                Some(k) => match unsigned_text(k@) {
                    Some(v) => if v <= u64::MAX {
                        v
                    } else {
                        0
                    },
                    None => 0,
                },
                None => 0,
            },
    {
        let listen_port = match port {
            None => DEFAULT_PORT,
            Some(p) => match parse_u16(p) {
                Some(v) => v,
                None => {
                    return Err(ConfigError::InvalidPort);
                },
            },
        };
        let keepalive_interval_secs = match keepalive_interval {
            None => 0,
            Some(k) => match parse_u64(k) {
                Some(v) => v,
                None => 0,
            },
        };
        Ok(Config { listen_port, keepalive_interval_secs })
    }

    /// Whether sockets get keep-alive probes.
    pub fn keepalive_enabled(&self) -> (r: bool)
        ensures
            r == (self.keepalive_interval_secs > 0),
    {
        self.keepalive_interval_secs > 0
    }
}

} // verus!
