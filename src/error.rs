//! The errors that end a session.
use vstd::prelude::*;
use crate::addr::{decimal, push_decimal};

verus! {

/// std's `io::Error`, carried unopened inside `Socks5Error::IoError`;
/// only its `Display` text is asked for.
#[verifier::external_type_specification]
#[verifier::external_body]
pub struct ExIoError(std::io::Error);

/// Why a session ended. Each variant but `IoError` carries a human-readable
/// detail.
#[derive(Debug)]
pub enum Socks5Error {
    /// The method negotiation or the authentication failed.
    HandshakeError(String),
    /// The request had a bad version or an unsupported command.
    CommandError(String),
    /// The request's address was malformed or of an unsupported type.
    AddressError(String),
    /// The outbound connection could not be opened.
    ConnectionError(String),
    /// A transfer failed while relaying.
    RelayError(String),
    /// A transport error on the client or target stream.
    IoError(std::io::Error),
}

/// The result of an operation that can end a session.
pub type Socks5Result<T> = Result<T, Socks5Error>;

/// The kind of a `Socks5Error`, without its detail.
#[derive(Clone, Copy, Debug, PartialEq, Eq, Structural)]
pub enum ErrorKind {
    Handshake,
    Command,
    Address,
    Connection,
    Relay,
    Io,
}

/// `a` followed by `b`.
pub(crate) fn joined(a: &str, b: &str) -> (r: String)
    ensures
        r@ == a@ + b@,
{
    let mut s = String::from_str(a);
    s.append(b);
    s
}

/// `text` followed by the decimal form of `n`.
pub(crate) fn with_number(text: &str, n: u16) -> (r: String)
    ensures
        r@ == text@ + decimal(n as nat),
{
    let mut s = String::from_str(text);
    push_decimal(&mut s, n);
    s
}

impl Socks5Error {
    /// The kind of this error.
    pub open spec fn spec_kind(&self) -> ErrorKind {
        match self {
            Socks5Error::HandshakeError(_) => ErrorKind::Handshake,
            Socks5Error::CommandError(_) => ErrorKind::Command,
            Socks5Error::AddressError(_) => ErrorKind::Address,
            Socks5Error::ConnectionError(_) => ErrorKind::Connection,
            Socks5Error::RelayError(_) => ErrorKind::Relay,
            Socks5Error::IoError(_) => ErrorKind::Io,
        }
    }

    /// The kind of this error.
    pub fn kind(&self) -> (r: ErrorKind)
        ensures
            r == self.spec_kind(),
    {
        match self {
            Socks5Error::HandshakeError(_) => ErrorKind::Handshake,
            Socks5Error::CommandError(_) => ErrorKind::Command,
            Socks5Error::AddressError(_) => ErrorKind::Address,
            Socks5Error::ConnectionError(_) => ErrorKind::Connection,
            Socks5Error::RelayError(_) => ErrorKind::Relay,
            Socks5Error::IoError(_) => ErrorKind::Io,
        }
    }

    /// The text that `message` puts before the detail of each variant.
    pub open spec fn spec_prefix(&self) -> Seq<char> {
        match self {
            Socks5Error::HandshakeError(_) => "SOCKS5 handshake error: "@,
            Socks5Error::CommandError(_) => "SOCKS5 command error: "@,
            Socks5Error::AddressError(_) => "SOCKS5 address error: "@,
            Socks5Error::ConnectionError(_) => "SOCKS5 connection error: "@,
            Socks5Error::RelayError(_) => "SOCKS5 relay error: "@,
            Socks5Error::IoError(_) => "IO error: "@,
        }
    }

    /// The human-readable form: a prefix naming the kind of error, then the
    /// detail (for `IoError`, the transport error's own text).
    pub fn message(&self) -> (r: String)
        ensures
            r@.len() >= self.spec_prefix().len(),
            r@.subrange(0, self.spec_prefix().len() as int) == self.spec_prefix(),
            match self {
                Socks5Error::HandshakeError(m) => r@ == self.spec_prefix() + m@,
                Socks5Error::CommandError(m) => r@ == self.spec_prefix() + m@,
                Socks5Error::AddressError(m) => r@ == self.spec_prefix() + m@,
                Socks5Error::ConnectionError(m) => r@ == self.spec_prefix() + m@,
                Socks5Error::RelayError(m) => r@ == self.spec_prefix() + m@,
                Socks5Error::IoError(_) => true,
            },
    {
        let r = match self {
            Socks5Error::HandshakeError(m) => joined("SOCKS5 handshake error: ", m.as_str()),
            Socks5Error::CommandError(m) => joined("SOCKS5 command error: ", m.as_str()),
            Socks5Error::AddressError(m) => joined("SOCKS5 address error: ", m.as_str()),
            Socks5Error::ConnectionError(m) => joined("SOCKS5 connection error: ", m.as_str()),
            Socks5Error::RelayError(m) => joined("SOCKS5 relay error: ", m.as_str()),
            Socks5Error::IoError(e) => {
                let text = e.to_string();
                joined("IO error: ", text.as_str())
            },
        };
        assert(r@.subrange(0, self.spec_prefix().len() as int) =~= self.spec_prefix());
        r
    }
}

impl From<std::io::Error> for Socks5Error {
    fn from(e: std::io::Error) -> (r: Socks5Error)
        ensures
            r == Socks5Error::IoError(e),
    {
        Socks5Error::IoError(e)
    }
}

impl vstd::std_specs::convert::FromSpecImpl<std::io::Error> for Socks5Error {
    open spec fn obeys_from_spec() -> bool {
        true
    }

    open spec fn from_spec(e: std::io::Error) -> Socks5Error {
        Socks5Error::IoError(e)
    }
}

} // verus!
