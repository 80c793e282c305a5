//! An open connection to a target, with the address it was opened for.
use vstd::prelude::*;
use crate::addr::{target_text, TargetAddr};

verus! {

/// tokio's `net::TcpStream`, carried unopened as the outbound stream of a
/// session; nothing is called on it here.
#[verifier::external_type_specification]
#[verifier::external_body]
pub struct ExTcpStream(tokio::net::TcpStream);

/// The outbound stream of a session and the target it reaches.
pub struct TargetConnection {
    pub stream: tokio::net::TcpStream,
    pub addr: TargetAddr,
}

impl TargetConnection {
    /// The connection `stream`, opened for `addr`.
    pub fn new(stream: tokio::net::TcpStream, addr: TargetAddr) -> (r: TargetConnection)
        ensures
            r.stream == stream,
            r.addr@ == addr@,
    {
        TargetConnection { stream, addr }
    }

    /// The `host:port` form of the target.
    pub fn addr_string(&self) -> (r: String)
        ensures
            r@ == target_text(self.addr@),
    {
        self.addr.to_string()
    }
}

} // verus!
