//! The relay: once the target is connected, bytes are copied in both
//! directions until each side has finished. The copying is the caller's;
//! this module keeps what the relay is about and judges how it ended.
use vstd::prelude::*;
use crate::addr::SocketAddr;
use crate::error::{joined, Socks5Error};

verus! {

/// The bytes copied in each direction by a relay that ended well.
#[derive(Clone, Copy, Debug, PartialEq, Eq, Structural)]
pub struct Transferred {
    /// Bytes copied from the client to the target.
    pub from_client: u64,
    /// Bytes copied from the target to the client.
    pub from_target: u64,
}

/// A relay between one client and one target.
pub struct Relay {
    client_addr: SocketAddr,
    target_addr: String,
}

impl Relay {
    /// The client's address.
    pub closed spec fn spec_client_addr(&self) -> SocketAddr {
        self.client_addr
    }

    /// The target's `host:port` text.
    pub closed spec fn spec_target_addr(&self) -> Seq<char> {
        self.target_addr@
    }

    /// A relay for the client at `client_addr` and the target written
    /// `target_addr`.
    pub fn new(client_addr: SocketAddr, target_addr: String) -> (r: Relay)
        ensures
            r.spec_client_addr() == client_addr,
            r.spec_target_addr() == target_addr@,
    {
        Relay { client_addr, target_addr }
    }

    /// The client's address.
    pub fn client_addr(&self) -> (r: SocketAddr)
        ensures
            r == self.spec_client_addr(),
    {
        self.client_addr
    }

    /// The target's `host:port` text.
    pub fn target_addr(&self) -> (r: &str)
        ensures
            r@ == self.spec_target_addr(),
    {
        self.target_addr.as_str()
    }

    /// How the relay ended, from how each direction ended: the bytes it
    /// copied, or the text of the transfer error that stopped it. The relay
    /// succeeds when both directions reached the end of their stream; an
    /// error in either one makes it a `RelayError`, the client-to-target
    /// one first.
    pub fn finish(
        &self,
        client_to_target: Result<u64, String>,
        target_to_client: Result<u64, String>,
    ) -> (r: Result<Transferred, Socks5Error>)
        ensures
            r is Ok <==> (client_to_target is Ok && target_to_client is Ok),
            r matches Ok(t) ==> t.from_client == client_to_target->Ok_0 && t.from_target
                == target_to_client->Ok_0,
            r matches Err(e) ==> e is RelayError,
            r matches Err(Socks5Error::RelayError(m)) ==> m@ == (match client_to_target {
                Err(c) => "Error copying data from client to target: "@ + c@,
                Ok(_) => "Error copying data from target to client: "@ + target_to_client->Err_0@,
            }),
    {
        match (client_to_target, target_to_client) {
            (Ok(from_client), Ok(from_target)) => Ok(Transferred { from_client, from_target }),
            (Err(c), _) => Err(
                Socks5Error::RelayError(
                    joined("Error copying data from client to target: ", c.as_str()),
                ),
            ),
            (Ok(_), Err(t)) => Err(
                Socks5Error::RelayError(
                    joined("Error copying data from target to client: ", t.as_str()),
                ),
            ),
        }
    }
}

} // verus!
