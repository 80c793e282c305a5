//! The command-line settings of the proxy, once parsed: their defaults and
//! the checks on them.
use vstd::prelude::*;
use vstd::utf8::{decode_utf8, encode_utf8};
use crate::constants::DEFAULT_PORT;
use crate::error::joined;
use crate::negotiate::same_bytes;

verus! {

broadcast use vstd::utf8::encode_utf8_decode_utf8;

/// Whether `a` and `b` are the same text.
fn same_text(a: &str, b: &str) -> (r: bool)
    ensures
        r == (a@ == b@),
{
    let r = same_bytes(a.as_bytes(), b.as_bytes());
    proof {
        if r {
            assert(encode_utf8(a@) == encode_utf8(b@));
            assert(decode_utf8(encode_utf8(a@)) == a@);
            assert(decode_utf8(encode_utf8(b@)) == b@);
        }
    }
    r
}

/// The log levels a user may ask for.
pub open spec fn is_log_level(s: Seq<char>) -> bool {
    s == "trace"@ || s == "debug"@ || s == "info"@ || s == "warn"@ || s == "error"@
}

/// The text that reports a log level that is not one of the five.
pub open spec fn log_level_error(s: Seq<char>) -> Seq<char> {
    "Invalid log level: "@ + s + ". Valid values are: trace, debug, info, warn, error"@
}

/// Accepts exactly the log levels `trace`, `debug`, `info`, `warn` and
/// `error`, spelled in lower case.
pub fn validate_log_level(s: &str) -> (r: Result<String, String>)
    ensures
        r is Ok <==> is_log_level(s@),
        r matches Ok(v) ==> v@ == s@,
        r matches Err(m) ==> m@ == log_level_error(s@),
{
    if same_text(s, "trace") || same_text(s, "debug") || same_text(s, "info")
        || same_text(s, "warn") || same_text(s, "error") {
        Ok(String::from_str(s))
    } else {
        let head = joined("Invalid log level: ", s);
        Err(joined(head.as_str(), ". Valid values are: trace, debug, info, warn, error"))
    }
}

/// The address bound to when none is given.
pub open spec fn default_ip() -> Seq<char> {
    "0.0.0.0"@
}

/// The log level used when none is given.
pub open spec fn default_log_level() -> Seq<char> {
    "info"@
}

/// The text that reports credentials given by half.
pub open spec fn half_credentials_error() -> Seq<char> {
    "Both username and password must be provided if either is provided"@
}

/// The proxy's settings: address and port to listen on, log level, and the
/// optional credentials.
pub struct Args {
    pub ip: String,
    pub port: u16,
    pub log_level: String,
    pub username: Option<String>,
    pub password: Option<String>,
}

impl Args {
    /// The settings from what the command line gave, with the defaults
    /// `0.0.0.0`, port 1080 and log level `info` for what it did not. A log
    /// level must be one of the five; a username and a password come
    /// together or not at all.
    pub fn from_options(
        ip: Option<String>,
        port: Option<u16>,
        log_level: Option<String>,
        username: Option<String>,
        password: Option<String>,
    ) -> (r: Result<Args, String>)
        ensures
            r is Ok <==> ((log_level is None || is_log_level(log_level->Some_0@)) && (
            username is Some) == (password is Some)),
            r matches Ok(a) ==> {
                &&& a.ip@ == (match ip {
                    Some(s) => s@,
                    None => default_ip(),
                })
                &&& a.port == (match port {
                    Some(p) => p,
                    None => DEFAULT_PORT,
                })
                &&& a.log_level@ == (match log_level {
                    Some(s) => s@,
                    None => default_log_level(),
                })
                &&& a.username == username
                &&& a.password == password
            },
            r matches Err(m) ==> m@ == (if log_level is Some && !is_log_level(
                log_level->Some_0@,
            ) {
                log_level_error(log_level->Some_0@)
            } else {
                half_credentials_error()
            }),
    {
        let level = match log_level {
            Some(s) => match validate_log_level(s.as_str()) {
                Ok(v) => v,
                Err(m) => {
                    return Err(m);
                },
            },
            None => String::from_str("info"),
        };
        if username.is_some() != password.is_some() {
            return Err(
                String::from_str(
                    "Both username and password must be provided if either is provided",
                ),
            );
        }
        let ip = match ip {
            Some(s) => s,
            None => String::from_str("0.0.0.0"),
        };
        let port = match port {
            Some(p) => p,
            None => DEFAULT_PORT,
        };
        Ok(Args { ip, port, log_level: level, username, password })
    }
}

} // verus!
