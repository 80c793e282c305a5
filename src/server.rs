//! The proxy's configuration: where it listens and which credentials, if
//! any, its clients must present. Each accepted connection gets a session
//! of its own from here.
use vstd::prelude::*;
use vstd::utf8::encode_utf8;
use crate::addr::{decimal, push_decimal};
use crate::constants::DEFAULT_PORT;
use crate::error::joined;
use crate::negotiate::AuthConfig;
use crate::session::{Phase, Session};

verus! {

/// A SOCKS5 proxy server's settings.
pub struct Server {
    bind_addr: String,
    port: u16,
    auth: Option<AuthConfig>,
}

impl Server {
    /// The address to bind to.
    pub closed spec fn spec_bind_addr(&self) -> Seq<char> {
        self.bind_addr@
    }

    /// The port to listen on.
    pub closed spec fn spec_port(&self) -> u16 {
        self.port
    }

    /// The credentials clients must present, as bytes, if any.
    pub closed spec fn spec_auth(&self) -> Option<(Seq<u8>, Seq<u8>)> {
        match self.auth {
            Some(a) => Some((a.spec_username(), a.spec_password())),
            None => None,
        }
    }

    /// A server for `bind_addr`, on `port` or, without one, on 1080. Clients
    /// need not authenticate.
    pub fn new(bind_addr: String, port: Option<u16>) -> (r: Server)
        ensures
            r.spec_bind_addr() == bind_addr@,
            r.spec_port() == (match port {
                Some(p) => p,
                None => DEFAULT_PORT,
            }),
            r.spec_auth() is None,
    {
        let port = match port {
            Some(p) => p,
            None => DEFAULT_PORT,
        };
        Server { bind_addr, port, auth: None }
    }

    /// The same server, demanding `username` and `password` of every client.
    pub fn with_credentials(self, username: &str, password: &str) -> (r: Server)
        ensures
            r.spec_bind_addr() == self.spec_bind_addr(),
            r.spec_port() == self.spec_port(),
            r.spec_auth() == Some((encode_utf8(username@), encode_utf8(password@))),
    {
        let auth = AuthConfig::new(username, password);
        Server { bind_addr: self.bind_addr, port: self.port, auth: Some(auth) }
    }

    /// The address to bind to.
    pub fn bind_addr(&self) -> (r: &str)
        ensures
            r@ == self.spec_bind_addr(),
    {
        self.bind_addr.as_str()
    }

    /// The port to listen on.
    pub fn port(&self) -> (r: u16)
        ensures
            r == self.spec_port(),
    {
        self.port
    }

    /// Whether clients must authenticate.
    pub fn requires_auth(&self) -> (r: bool)
        ensures
            r == self.spec_auth() is Some,
    {
        self.auth.is_some()
    }

    /// The `address:port` to listen on.
    pub fn addr(&self) -> (r: String)
        ensures
            r@ == self.spec_bind_addr() + seq![':'] + decimal(self.spec_port() as nat),
    {
        proof {
            reveal_strlit(":");
        }
        let mut s = joined(self.bind_addr.as_str(), ":");
        push_decimal(&mut s, self.port);
        s
    }

    /// A fresh session for a newly accepted client.
    pub fn session(&self) -> (r: Session)
        ensures
            r.spec_phase() == Phase::AwaitingMethods,
            r.spec_auth() == self.spec_auth(),
    {
        let auth = match &self.auth {
            Some(a) => Some(a.copy()),
            None => None,
        };
        Session::new(auth)
    }
}

} // verus!
