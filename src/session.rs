//! One client session as a state machine: method negotiation, the optional
//! username/password check, the request, the outbound connection, then the
//! relay. The session never touches a stream. Its caller hands it the bytes
//! the client sent and performs the step it answers with.
use vstd::prelude::*;
use crate::addr::{TargetAddr, TargetView};
use crate::codec::{
    credentials_bytes, decode_credentials, decode_frame, decode_greeting, encode_auth_status,
    encode_method_reply, encode_reply, greeting_bytes, lemma_credentials_round_trip,
    lemma_greeting_round_trip, parse_credentials, parse_frame, parse_greeting, reply_bytes, Decode,
    Parsed, WireError,
};
use crate::constants::{
    ATYP_IPV6, AUTH_FAILURE, AUTH_SUCCESS, AUTH_VERSION, CMD_CONNECT, METHOD_NO_ACCEPTABLE,
    METHOD_NO_AUTH, METHOD_USER_PASS, REPLY_ADDRESS_TYPE_NOT_SUPPORTED, REPLY_COMMAND_NOT_SUPPORTED,
    REPLY_CONNECTION_REFUSED, REPLY_GENERAL_FAILURE, REPLY_HOST_UNREACHABLE,
    REPLY_NETWORK_UNREACHABLE, REPLY_SUCCEEDED, SOCKS_VERSION,
};
use crate::error::{joined, with_number, ErrorKind, Socks5Error};
use crate::negotiate::{chosen_method, select_method, AuthConfig};

verus! {

/// Where a session stands.
#[derive(Clone, Copy, Debug, PartialEq, Eq, Structural)]
pub enum Phase {
    /// Waiting for the client's method-selection request.
    AwaitingMethods,
    /// Username/password was selected; waiting for the credentials.
    AwaitingCredentials,
    /// Negotiation is over; waiting for the request. Only from here may a
    /// request be processed.
    Ready,
    /// The request named a target; waiting for the outbound connection.
    Connecting,
    /// The success reply is sent; bytes are relayed.
    Relaying,
    /// The session is over.
    Closed,
}

/// Why an outbound connection could not be opened, as far as the reply
/// code is concerned.
#[derive(Clone, Copy, Debug, PartialEq, Eq, Structural)]
pub enum ConnectFailure {
    /// The target refused the connection.
    Refused,
    /// The attempt timed out.
    TimedOut,
    /// The address is not available from here.
    AddrNotAvailable,
    /// Any other failure.
    Other,
}

/// The reply code that reports a failed connection.
pub open spec fn failure_reply(f: ConnectFailure) -> u8 {
    match f {
        ConnectFailure::Refused => REPLY_CONNECTION_REFUSED,
        ConnectFailure::TimedOut => REPLY_HOST_UNREACHABLE,
        ConnectFailure::AddrNotAvailable => REPLY_NETWORK_UNREACHABLE,
        ConnectFailure::Other => REPLY_HOST_UNREACHABLE,
    }
}

/// The reply code that reports a failed connection.
pub fn reply_code_for(f: ConnectFailure) -> (r: u8)
    ensures
        r == failure_reply(f),
{
    match f {
        ConnectFailure::Refused => REPLY_CONNECTION_REFUSED,
        ConnectFailure::TimedOut => REPLY_HOST_UNREACHABLE,
        ConnectFailure::AddrNotAvailable => REPLY_NETWORK_UNREACHABLE,
        ConnectFailure::Other => REPLY_HOST_UNREACHABLE,
    }
}

/// What a step means: its numbers, bytes and target, and the kind of error
/// that closes the session.
pub enum StepView {
    Read(nat),
    Reply(nat, Seq<u8>),
    Connect(nat, TargetView),
    Established(Seq<u8>),
    Close(Option<Seq<u8>>, ErrorKind),
}

/// What the caller does next.
#[derive(Debug)]
pub enum Step {
    /// Read until the buffer holds at least `total` bytes, then hand the
    /// buffer in again.
    Read { total: usize },
    /// Drop `consumed` bytes from the front of the buffer, send `bytes` to
    /// the client, then hand the rest of the buffer in again.
    Reply { consumed: usize, bytes: Vec<u8> },
    /// Drop `consumed` bytes from the front of the buffer and open a
    /// connection to `target`; report how that went.
    Connect { consumed: usize, target: TargetAddr },
    /// Send `bytes` (the success reply), then relay in both directions.
    Established { bytes: Vec<u8> },
    /// Send `reply` if there is one, then end the session with `error`.
    Close { reply: Option<Vec<u8>>, error: Socks5Error },
}

impl View for Step {
    type V = StepView;

    open spec fn view(&self) -> StepView {
        match self {
            Step::Read { total } => StepView::Read(*total as nat),
            Step::Reply { consumed, bytes } => StepView::Reply(*consumed as nat, bytes@),
            Step::Connect { consumed, target } => StepView::Connect(*consumed as nat, target@),
            Step::Established { bytes } => StepView::Established(bytes@),
            Step::Close { reply, error } => StepView::Close(
                match reply {
                    Some(b) => Some(b@),
                    None => None,
                },
                error.spec_kind(),
            ),
        }
    }
}

/// The failure reply of the subnegotiation.
pub open spec fn auth_failure_bytes() -> Seq<u8> {
    seq![AUTH_VERSION, AUTH_FAILURE]
}

/// The step for a method-selection request in `b`.
pub open spec fn greeting_step(auth: Option<(Seq<u8>, Seq<u8>)>, b: Seq<u8>) -> (Phase, StepView) {
    match parse_greeting(b) {
        Parsed::Incomplete(n) => (Phase::AwaitingMethods, StepView::Read(n)),
        Parsed::Malformed(_) => (Phase::Closed, StepView::Close(None, ErrorKind::Handshake)),
        Parsed::Done(offered, n) => {
            let m = chosen_method(offered, auth is Some);
            if m == METHOD_NO_ACCEPTABLE {
                (
                    Phase::Closed,
                    StepView::Close(
                        Some(seq![SOCKS_VERSION, METHOD_NO_ACCEPTABLE]),
                        ErrorKind::Handshake,
                    ),
                )
            } else if m == METHOD_USER_PASS {
                (Phase::AwaitingCredentials, StepView::Reply(n, seq![SOCKS_VERSION, m]))
            } else {
                (Phase::Ready, StepView::Reply(n, seq![SOCKS_VERSION, m]))
            }
        },
    }
}

/// The step for a subnegotiation request in `b`.
pub open spec fn credentials_step(auth: Option<(Seq<u8>, Seq<u8>)>, b: Seq<u8>) -> (
    Phase,
    StepView,
) {
    match parse_credentials(b) {
        Parsed::Incomplete(n) => (Phase::AwaitingCredentials, StepView::Read(n)),
        Parsed::Malformed(_) => (
            Phase::Closed,
            StepView::Close(Some(auth_failure_bytes()), ErrorKind::Handshake),
        ),
        Parsed::Done(given, n) => {
            if auth == Some(given) {
                (Phase::Ready, StepView::Reply(n, seq![AUTH_VERSION, AUTH_SUCCESS]))
            } else {
                (Phase::Closed, StepView::Close(Some(auth_failure_bytes()), ErrorKind::Handshake))
            }
        },
    }
}

/// The step for a request in `b`. The version and the command are judged
/// on the 4-byte header, before any address byte is awaited.
pub open spec fn request_step(b: Seq<u8>) -> (Phase, StepView) {
    if b.len() < 4 {
        (Phase::Ready, StepView::Read(4))
    } else if b[0] != SOCKS_VERSION {
        (
            Phase::Closed,
            StepView::Close(Some(reply_bytes(REPLY_GENERAL_FAILURE)), ErrorKind::Command),
        )
    } else if b[1] != CMD_CONNECT {
        (
            Phase::Closed,
            StepView::Close(Some(reply_bytes(REPLY_COMMAND_NOT_SUPPORTED)), ErrorKind::Command),
        )
    } else {
        match parse_frame(b) {
            Parsed::Incomplete(n) => (Phase::Ready, StepView::Read(n)),
            Parsed::Malformed(WireError::UnsupportedAddressType(_)) => (
                Phase::Closed,
                StepView::Close(
                    Some(reply_bytes(REPLY_ADDRESS_TYPE_NOT_SUPPORTED)),
                    ErrorKind::Address,
                ),
            ),
            Parsed::Malformed(WireError::InvalidDomain) => (
                Phase::Closed,
                StepView::Close(Some(reply_bytes(REPLY_GENERAL_FAILURE)), ErrorKind::Address),
            ),
            Parsed::Malformed(WireError::BadVersion(_)) => (
                Phase::Closed,
                StepView::Close(Some(reply_bytes(REPLY_GENERAL_FAILURE)), ErrorKind::Command),
            ),
            Parsed::Done((_, target), n) => (Phase::Connecting, StepView::Connect(n, target)),
        }
    }
}

/// Whether a session in phase `p` takes bytes from the client.
pub open spec fn reads_input(p: Phase) -> bool {
    p == Phase::AwaitingMethods || p == Phase::AwaitingCredentials || p == Phase::Ready
}

/// The next phase and step of a session in phase `p`, with credentials
/// `auth` configured (or none), when the buffer of unconsumed client bytes
/// holds `b`.
pub open spec fn input_step(p: Phase, auth: Option<(Seq<u8>, Seq<u8>)>, b: Seq<u8>) -> (
    Phase,
    StepView,
) {
    if p == Phase::AwaitingMethods {
        greeting_step(auth, b)
    } else if p == Phase::AwaitingCredentials {
        credentials_step(auth, b)
    } else {
        request_step(b)
    }
}

/// The state of one client session.
pub struct Session {
    phase: Phase,
    auth: Option<AuthConfig>,
    target_text: String,
}

impl Session {
    /// The phase the session is in.
    pub closed spec fn spec_phase(&self) -> Phase {
        self.phase
    }

    /// The credentials the session demands, as bytes, if any.
    pub closed spec fn spec_auth(&self) -> Option<(Seq<u8>, Seq<u8>)> {
        match self.auth {
            Some(a) => Some((a.spec_username(), a.spec_password())),
            None => None,
        }
    }

    /// A session that has read nothing yet. With `auth`, clients must
    /// authenticate with these credentials; without, they must not.
    pub fn new(auth: Option<AuthConfig>) -> (r: Session)
        ensures
            r.spec_phase() == Phase::AwaitingMethods,
            r.spec_auth() == (match auth {
                Some(a) => Some((a.spec_username(), a.spec_password())),
                None => None,
            }),
    {
        Session { phase: Phase::AwaitingMethods, auth, target_text: String::new() }
    }

    /// The phase the session is in.
    pub fn phase(&self) -> (r: Phase)
        ensures
            r == self.spec_phase(),
    {
        self.phase
    }

    /// Whether the session takes bytes from the client now.
    pub fn wants_input(&self) -> (r: bool)
        ensures
            r == reads_input(self.spec_phase()),
    {
        self.phase == Phase::AwaitingMethods || self.phase == Phase::AwaitingCredentials
            || self.phase == Phase::Ready
    }

    fn close(&mut self, reply: Option<Vec<u8>>, error: Socks5Error) -> (r: Step)
        ensures
            final(self).spec_phase() == Phase::Closed,
            final(self).spec_auth() == old(self).spec_auth(),
            r == (Step::Close { reply, error }),
    {
        self.phase = Phase::Closed;
        Step::Close { reply, error }
    }

    fn on_greeting(&mut self, buf: &[u8]) -> (r: Step)
        requires
            old(self).spec_phase() == Phase::AwaitingMethods,
        ensures
            (final(self).spec_phase(), r@) == greeting_step(old(self).spec_auth(), buf@),
            final(self).spec_auth() == old(self).spec_auth(),
    {
        match decode_greeting(buf) {
            Decode::NeedMore(n) => Step::Read { total: n },
            Decode::Malformed(_) => {
                let e = with_number("Unsupported SOCKS version: ", buf[0] as u16);
                self.close(None, Socks5Error::HandshakeError(e))
            },
            Decode::Done(offered, n) => {
                let m = select_method(offered.as_slice(), self.auth.is_some());
                if m == METHOD_NO_ACCEPTABLE {
                    let e = String::from_str("No acceptable authentication methods");
                    self.close(Some(encode_method_reply(m)), Socks5Error::HandshakeError(e))
                } else {
                    if m == METHOD_USER_PASS {
                        self.phase = Phase::AwaitingCredentials;
                    } else {
                        self.phase = Phase::Ready;
                    }
                    Step::Reply { consumed: n, bytes: encode_method_reply(m) }
                }
            },
        }
    }

    fn on_credentials(&mut self, buf: &[u8]) -> (r: Step)
        requires
            old(self).spec_phase() == Phase::AwaitingCredentials,
        ensures
            (final(self).spec_phase(), r@) == credentials_step(old(self).spec_auth(), buf@),
            final(self).spec_auth() == old(self).spec_auth(),
    {
        match decode_credentials(buf) {
            Decode::NeedMore(n) => Step::Read { total: n },
            Decode::Malformed(_) => {
                let e = with_number("Unsupported authentication version: ", buf[0] as u16);
                self.close(Some(encode_auth_status(AUTH_FAILURE)), Socks5Error::HandshakeError(e))
            },
            Decode::Done((user, pass), n) => {
                let ok = match &self.auth {
                    Some(a) => a.accepts(user.as_slice(), pass.as_slice()),
                    None => false,
                };
                if ok {
                    self.phase = Phase::Ready;
                    Step::Reply { consumed: n, bytes: encode_auth_status(AUTH_SUCCESS) }
                } else {
                    let e = String::from_str("Authentication failed");
                    self.close(
                        Some(encode_auth_status(AUTH_FAILURE)),
                        Socks5Error::HandshakeError(e),
                    )
                }
            },
        }
    }

    fn on_request(&mut self, buf: &[u8]) -> (r: Step)
        requires
            old(self).spec_phase() == Phase::Ready,
        ensures
            (final(self).spec_phase(), r@) == request_step(buf@),
            final(self).spec_auth() == old(self).spec_auth(),
    {
        if buf.len() < 4 {
            return Step::Read { total: 4 };
        }
        if buf[0] != SOCKS_VERSION {
            let e = with_number("Unsupported SOCKS version in request: ", buf[0] as u16);
            return self.close(
                Some(encode_reply(REPLY_GENERAL_FAILURE)),
                Socks5Error::CommandError(e),
            );
        }
        if buf[1] != CMD_CONNECT {
            let e = with_number("Unsupported command: ", buf[1] as u16);
            return self.close(
                Some(encode_reply(REPLY_COMMAND_NOT_SUPPORTED)),
                Socks5Error::CommandError(e),
            );
        }
        match decode_frame(buf) {
            Decode::NeedMore(n) => Step::Read { total: n },
            Decode::Malformed(WireError::UnsupportedAddressType(t)) => {
                let e = if t == ATYP_IPV6 {
                    String::from_str("IPv6 address type not supported")
                } else {
                    with_number("Unknown address type: ", t as u16)
                };
                self.close(
                    Some(encode_reply(REPLY_ADDRESS_TYPE_NOT_SUPPORTED)),
                    Socks5Error::AddressError(e),
                )
            },
            Decode::Malformed(WireError::InvalidDomain) => {
                let e = String::from_str("Invalid domain name: not valid UTF-8");
                self.close(Some(encode_reply(REPLY_GENERAL_FAILURE)), Socks5Error::AddressError(e))
            },
            Decode::Malformed(WireError::BadVersion(v)) => {
                let e = with_number("Unsupported SOCKS version in request: ", v as u16);
                self.close(Some(encode_reply(REPLY_GENERAL_FAILURE)), Socks5Error::CommandError(e))
            },
            Decode::Done((_, target), n) => {
                self.target_text = target.to_string();
                self.phase = Phase::Connecting;
                Step::Connect { consumed: n, target }
            },
        }
    }

    /// Takes the client bytes not consumed yet, `buf`, and says what to do.
    /// Bytes that a step does not consume stay at the front of the buffer
    /// for the next call.
    pub fn on_input(&mut self, buf: &[u8]) -> (r: Step)
        requires
            reads_input(old(self).spec_phase()),
        ensures
            (final(self).spec_phase(), r@) == input_step(
                old(self).spec_phase(),
                old(self).spec_auth(),
                buf@,
            ),
            final(self).spec_auth() == old(self).spec_auth(),
            r@ matches StepView::Read(total) ==> total > buf@.len(),
            r@ matches StepView::Reply(consumed, _) ==> 0 < consumed <= buf@.len(),
            r@ matches StepView::Connect(consumed, _) ==> 0 < consumed <= buf@.len(),
    {
        if self.phase == Phase::AwaitingMethods {
            self.on_greeting(buf)
        } else if self.phase == Phase::AwaitingCredentials {
            self.on_credentials(buf)
        } else {
            self.on_request(buf)
        }
    }

    /// The outbound connection is open: send the success reply and relay.
    pub fn on_connected(&mut self) -> (r: Step)
        requires
            old(self).spec_phase() == Phase::Connecting,
        ensures
            final(self).spec_phase() == Phase::Relaying,
            final(self).spec_auth() == old(self).spec_auth(),
            r@ == StepView::Established(reply_bytes(REPLY_SUCCEEDED)),
    {
        self.phase = Phase::Relaying;
        Step::Established { bytes: encode_reply(REPLY_SUCCEEDED) }
    }

    /// The outbound connection failed with `failure`, described by `detail`:
    /// send the matching reply and end the session.
    pub fn on_connect_failed(&mut self, failure: ConnectFailure, detail: &str) -> (r: Step)
        requires
            old(self).spec_phase() == Phase::Connecting,
        ensures
            final(self).spec_phase() == Phase::Closed,
            final(self).spec_auth() == old(self).spec_auth(),
            r@ == StepView::Close(
                Some(reply_bytes(failure_reply(failure))),
                ErrorKind::Connection,
            ),
    {
        let head = joined("Failed to connect to target ", self.target_text.as_str());
        let head = joined(head.as_str(), ": ");
        let e = joined(head.as_str(), detail);
        self.close(
            Some(encode_reply(reply_code_for(failure))),
            Socks5Error::ConnectionError(e),
        )
    }

    /// The relay is over: the session is closed.
    pub fn on_relay_finished(&mut self)
        requires
            old(self).spec_phase() == Phase::Relaying,
        ensures
            final(self).spec_phase() == Phase::Closed,
            final(self).spec_auth() == old(self).spec_auth(),
    {
        self.phase = Phase::Closed;
    }
}

/// Without configured credentials, a client that offers "no authentication"
/// among its methods is given it: the server answers `05 00`, takes exactly
/// the method-selection request, and the session is ready for the request.
pub proof fn lemma_no_auth_offered_is_selected(offered: Seq<u8>, rest: Seq<u8>)
    requires
        offered.len() <= 255,
        offered.contains(METHOD_NO_AUTH),
    ensures
        input_step(Phase::AwaitingMethods, None, greeting_bytes(offered) + rest) == (
            Phase::Ready,
            StepView::Reply(greeting_bytes(offered).len(), seq![SOCKS_VERSION, METHOD_NO_AUTH]),
        ),
{
    lemma_greeting_round_trip(offered, rest);
}

/// A client that does not offer the method the configuration calls for
/// (username/password with credentials, no authentication without) is
/// answered `05 FF`, and the session closes: a closed session reads nothing
/// more.
pub proof fn lemma_no_acceptable_method_closes(
    auth: Option<(Seq<u8>, Seq<u8>)>,
    offered: Seq<u8>,
    rest: Seq<u8>,
)
    requires
        offered.len() <= 255,
        !offered.contains(
            if auth is Some {
                METHOD_USER_PASS
            } else {
                METHOD_NO_AUTH
            },
        ),
    ensures
        input_step(Phase::AwaitingMethods, auth, greeting_bytes(offered) + rest) == (
            Phase::Closed,
            StepView::Close(Some(seq![SOCKS_VERSION, METHOD_NO_ACCEPTABLE]), ErrorKind::Handshake),
        ),
        !reads_input(Phase::Closed),
{
    lemma_greeting_round_trip(offered, rest);
}

/// A client that presents exactly the configured credentials is accepted:
/// the server answers `01 00` and the session is ready for the request.
pub proof fn lemma_matching_credentials_accepted(user: Seq<u8>, pass: Seq<u8>, rest: Seq<u8>)
    requires
        user.len() <= 255,
        pass.len() <= 255,
    ensures
        input_step(
            Phase::AwaitingCredentials,
            Some((user, pass)),
            credentials_bytes(user, pass) + rest,
        ) == (
            Phase::Ready,
            StepView::Reply(credentials_bytes(user, pass).len(), seq![AUTH_VERSION, AUTH_SUCCESS]),
        ),
{
    lemma_credentials_round_trip(user, pass, rest);
}

/// Once negotiation is over, every request that ends the session sends the
/// client exactly one reply, and its code is a failure code.
pub proof fn lemma_rejected_request_is_answered(b: Seq<u8>)
    ensures
        request_step(b).1 is Close ==> {
            let reply = request_step(b).1->Close_0;
            &&& reply is Some
            &&& exists|code: u8|
                code != REPLY_SUCCEEDED && reply->Some_0 == #[trigger] reply_bytes(code)
        },
{
    let step = request_step(b).1;
    if b.len() >= 4 && b[0] != SOCKS_VERSION {
        assert(step->Close_0 == Some(reply_bytes(REPLY_GENERAL_FAILURE)));
    } else if b.len() >= 4 && b[1] != CMD_CONNECT {
        assert(step->Close_0 == Some(reply_bytes(REPLY_COMMAND_NOT_SUPPORTED)));
    } else if b.len() >= 4 {
        match parse_frame(b) {
            Parsed::Malformed(WireError::UnsupportedAddressType(_)) => {
                assert(step->Close_0 == Some(reply_bytes(REPLY_ADDRESS_TYPE_NOT_SUPPORTED)));
            },
            Parsed::Malformed(_) => {
                assert(step->Close_0 == Some(reply_bytes(REPLY_GENERAL_FAILURE)));
            },
            _ => {},
        }
    }
}

/// Only a session that has finished negotiating processes a request: a step
/// that opens a connection is taken in the `Ready` phase and no other.
pub proof fn lemma_connect_only_when_ready(
    p: Phase,
    auth: Option<(Seq<u8>, Seq<u8>)>,
    b: Seq<u8>,
)
    requires
        reads_input(p),
    ensures
        input_step(p, auth, b).1 is Connect ==> p == Phase::Ready,
{
}

/// With credentials configured, the method negotiation never makes a
/// session ready by itself: the credentials must be checked first.
pub proof fn lemma_auth_cannot_be_skipped(user: Seq<u8>, pass: Seq<u8>, b: Seq<u8>)
    ensures
        input_step(Phase::AwaitingMethods, Some((user, pass)), b).0 != Phase::Ready,
        input_step(Phase::AwaitingCredentials, Some((user, pass)), b).0 == Phase::Ready ==> {
            let given = parse_credentials(b);
            &&& given is Done
            &&& given->Done_0 == (user, pass)
        },
{
}

} // verus!
