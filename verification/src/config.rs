//! The server's configuration and the defaults that stand in for what the
//! environment leaves out.

use vstd::prelude::*;
use vstd::string::*;
use crate::text::{all_digits, is_digit, number_of};

verus! {

/// The server's configuration.
#[derive(Debug, Clone)]
pub struct Config {
    /// The room service's HTTP address.
    pub livekit_url: String,
    /// The room service's WebSocket address, handed to clients.
    pub livekit_ws_url: String,
    /// The API key that tokens are issued under.
    pub api_key: String,
    /// The API secret that tokens are signed with.
    pub api_secret: String,
    /// The port to listen on.
    pub server_port: u16,
    /// The host name that the server is announced under.
    pub server_host: String,
    /// Whether to serve over TLS.
    pub enable_https: bool,
    /// The certificate file for TLS.
    pub ssl_cert_file: String,
    /// The key file for TLS.
    pub ssl_key_file: String,
}

/// What the environment holds for each setting; `None` where a variable is
/// not set.
#[derive(Debug, Clone)]
pub struct Settings {
    pub livekit_url: Option<String>,
    pub livekit_ws_url: Option<String>,
    pub api_key: Option<String>,
    pub api_secret: Option<String>,
    pub server_port: Option<String>,
    pub server_host: Option<String>,
    pub enable_https: Option<String>,
    pub ssl_cert_file: Option<String>,
    pub ssl_key_file: Option<String>,
}

/// The port that is used where none is given or the given one is no port.
pub const DEFAULT_PORT: u16 = 8081;

/// A text without its leading plus sign, if it has one.
pub open spec fn unsigned_part(s: Seq<char>) -> Seq<char> {
    if s.len() > 0 && s[0] == '+' {
        s.subrange(1, s.len() as int)
    } else {
        s
    }
}

/// The port that a text denotes: an optional plus sign, then one or more
/// decimal digits whose number is at most 65535. Any other text denotes
/// none.
pub open spec fn port_of(s: Seq<char>) -> Option<u16> {
    let digits = unsigned_part(s);
    if digits.len() > 0 && all_digits(digits) && number_of(digits) <= u16::MAX {
        Some(number_of(digits) as u16)
    } else {
        None
    }
}

/// Reads a port number.
pub fn parse_port(s: &str) -> (r: Option<u16>)
    ensures
        r == port_of(s@),
{
    let n = s.unicode_len();
    let start: usize = if n > 0 && s.get_char(0) == '+' {
        1
    } else {
        0
    };
    let ghost digits = unsigned_part(s@);
    assert(digits =~= s@.subrange(start as int, n as int));
    if start == n {
        return None;
    }
    let mut value: u32 = 0;
    let mut too_large = false;
    let mut i: usize = start;
    while i < n
        invariant
            n == s@.len(),
            start <= i <= n,
            digits == unsigned_part(s@),
            digits == s@.subrange(start as int, n as int),
            all_digits(digits.subrange(0, i - start)),
            too_large ==> number_of(digits.subrange(0, i - start)) > u16::MAX,
            !too_large ==> value == number_of(digits.subrange(0, i - start)) && value <= u16::MAX,
        decreases n - i,
    {
        let c = s.get_char(i);
        let code: u32 = c as u32;
        let ghost done = digits.subrange(0, i - start);
        let ghost next = digits.subrange(0, i - start + 1);
        assert(next.drop_last() =~= done);
        assert(next.last() == c);
        if code < 48 || code > 57 {
            assert(!is_digit(digits[i - start]));
            return None;
        }
        assert(forall|k: int| 0 <= k < next.len() ==> is_digit(#[trigger] next[k])) by {
            assert forall|k: int| 0 <= k < next.len() implies is_digit(#[trigger] next[k]) by {
                if k < done.len() {
                    assert(next[k] == done[k]);
                }
            }
        }
        if !too_large {
            let wide: u32 = value * 10 + (code - 48);
            if wide > 65535 {
                too_large = true;
            } else {
                value = wide;
            }
        }
        i += 1;
    }
    assert(digits.subrange(0, n - start) =~= digits);
    if too_large {
        None
    } else {
        Some(value as u16)
    }
}

/// A setting's value, or its default where it is not set.
pub fn setting_or(value: &Option<String>, default: &str) -> (r: String)
    ensures
        r@ == match *value {
            Some(s) => s@,
            None => default@,
        },
{
    match value {
        Some(s) => s.clone(),
        None => String::from_str(default),
    }
}

/// The view of an optional setting.
pub open spec fn setting_text(value: Option<String>) -> Option<Seq<char>> {
    match value {
        Some(s) => Some(s@),
        None => None,
    }
}

/// The port for a setting: the port that its text denotes, else the
/// default.
pub open spec fn port_setting(value: Option<Seq<char>>) -> u16 {
    match value {
        Some(s) => match port_of(s) {
            Some(p) => p,
            None => DEFAULT_PORT,
        },
        None => DEFAULT_PORT,
    }
}

/// Whether TLS is switched on by a setting: only by the exact text `true`.
pub open spec fn https_setting(value: Option<Seq<char>>) -> bool {
    match value {
        Some(s) => s == "true"@,
        None => false,
    }
}

impl Config {
    /// The configuration for what the environment holds: each setting as
    /// given, else its default.
    pub fn from_settings(settings: &Settings) -> (r: Self)
        ensures
            r.livekit_url@ == setting_text(settings.livekit_url).unwrap_or(
                "http://localhost:7880"@,
            ),
            r.livekit_ws_url@ == setting_text(settings.livekit_ws_url).unwrap_or(
                "ws://localhost:7880"@,
            ),
            r.api_key@ == setting_text(settings.api_key).unwrap_or("devkey"@),
            r.api_secret@ == setting_text(settings.api_secret).unwrap_or("secret"@),
            r.server_port == port_setting(setting_text(settings.server_port)),
            r.server_host@ == setting_text(settings.server_host).unwrap_or("localhost"@),
            r.enable_https == https_setting(setting_text(settings.enable_https)),
            r.ssl_cert_file@ == setting_text(settings.ssl_cert_file).unwrap_or(
                "./certs/server.crt"@,
            ),
            r.ssl_key_file@ == setting_text(settings.ssl_key_file).unwrap_or(
                "./certs/server.key"@,
            ),
    {
        let server_port = match &settings.server_port {
            Some(s) => match parse_port(s.as_str()) {
                Some(p) => p,
                None => DEFAULT_PORT,
            },
            None => DEFAULT_PORT,
        };
        let enable_https = match &settings.enable_https {
            Some(s) => *s == String::from_str("true"),
            None => false,
        };
        Config {
            livekit_url: setting_or(&settings.livekit_url, "http://localhost:7880"),
            livekit_ws_url: setting_or(&settings.livekit_ws_url, "ws://localhost:7880"),
            api_key: setting_or(&settings.api_key, "devkey"),
            api_secret: setting_or(&settings.api_secret, "secret"),
            server_port,
            server_host: setting_or(&settings.server_host, "localhost"),
            enable_https,
            ssl_cert_file: setting_or(&settings.ssl_cert_file, "./certs/server.crt"),
            ssl_key_file: setting_or(&settings.ssl_key_file, "./certs/server.key"),
        }
    }
}

} // verus!
