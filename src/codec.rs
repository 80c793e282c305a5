//! Byte layouts of the SOCKS5 messages (RFC 1928) and of the
//! username/password subnegotiation (RFC 1929).
//!
//! Each decoder looks at the bytes received so far and says whether they hold
//! a whole message, how many bytes the message needs at least, or why they
//! can never form one. Each layout is a spec function, and each decoder is
//! proved to give back what the matching encoder wrote.
use vstd::prelude::*;
use vstd::utf8::{decode_utf8, encode_utf8, valid_utf8};
use crate::addr::{Ipv4Addr, TargetAddr, TargetView};
use crate::constants::{
    ATYP_DOMAIN, ATYP_IPV4, AUTH_VERSION, MAX_DOMAIN_LEN, RESERVED, SOCKS_VERSION,
};

verus! {

broadcast use vstd::utf8::encode_utf8_valid_utf8, vstd::utf8::encode_utf8_decode_utf8;

/// Why bytes can never form the expected message.
#[derive(Clone, Copy, Debug, PartialEq, Eq, Structural)]
pub enum WireError {
    /// The version byte is not the one of the message.
    BadVersion(u8),
    /// The address type is neither IPv4 nor a domain name.
    UnsupportedAddressType(u8),
    /// The domain name is not well-formed UTF-8.
    InvalidDomain,
}

/// What a byte sequence means as the start of a message.
pub enum Parsed<T> {
    /// A proper prefix: the message needs at least this many bytes in all.
    Incomplete(nat),
    /// A whole message, and the number of bytes it takes.
    Done(T, nat),
    /// No continuation makes a message of it.
    Malformed(WireError),
}

/// The outcome of decoding a message from the front of a buffer.
#[derive(Debug)]
pub enum Decode<T> {
    /// Read until the buffer holds at least this many bytes, then decode again.
    NeedMore(usize),
    /// A message, and the number of bytes it took from the buffer.
    Done(T, usize),
    /// The bytes can never form the message.
    Malformed(WireError),
}

impl<T: View> View for Decode<T> {
    type V = Parsed<T::V>;

    open spec fn view(&self) -> Parsed<T::V> {
        match self {
            Decode::NeedMore(n) => Parsed::Incomplete(*n as nat),
            Decode::Done(v, n) => Parsed::Done(v@, *n as nat),
            Decode::Malformed(e) => Parsed::Malformed(*e),
        }
    }
}

/// A port in network byte order.
pub open spec fn port_bytes(p: u16) -> Seq<u8> {
    seq![(p / 256) as u8, (p % 256) as u8]
}

/// The port whose network byte order is `hi`, `lo`.
pub open spec fn port_of(hi: u8, lo: u8) -> u16 {
    (hi as int * 256 + lo as int) as u16
}

/// Whether a target can be written on the wire: a domain name takes at
/// most 255 bytes.
pub open spec fn wire_target(t: TargetView) -> bool {
    match t {
        TargetView::Ipv4(_, _) => true,
        TargetView::Domain(name, _) => encode_utf8(name).len() <= MAX_DOMAIN_LEN,
    }
}

/// `ATYP, DST.ADDR, DST.PORT` of a request or a reply.
pub open spec fn target_bytes(t: TargetView) -> Seq<u8> {
    match t {
        TargetView::Ipv4(ip, p) => seq![ATYP_IPV4, ip.a, ip.b, ip.c, ip.d] + port_bytes(p),
        TargetView::Domain(name, p) => seq![ATYP_DOMAIN, encode_utf8(name).len() as u8]
            + encode_utf8(name) + port_bytes(p),
    }
}

/// A request (`VER, CMD, RSV, ATYP, DST.ADDR, DST.PORT`) or a reply
/// (`VER, REP, RSV, ATYP, BND.ADDR, BND.PORT`): both share this layout.
pub open spec fn frame_bytes(code: u8, t: TargetView) -> Seq<u8> {
    seq![SOCKS_VERSION, code, RESERVED] + target_bytes(t)
}

/// The meaning of `b` as the start of a request or a reply. The reserved
/// byte is not looked at.
pub open spec fn parse_frame(b: Seq<u8>) -> Parsed<(u8, TargetView)> {
    if b.len() < 4 {
        Parsed::Incomplete(4)
    } else if b[0] != SOCKS_VERSION {
        Parsed::Malformed(WireError::BadVersion(b[0]))
    } else if b[3] == ATYP_IPV4 {
        if b.len() < 10 {
            Parsed::Incomplete(10)
        } else {
            let ip = Ipv4Addr { a: b[4], b: b[5], c: b[6], d: b[7] };
            Parsed::Done((b[1], TargetView::Ipv4(ip, port_of(b[8], b[9]))), 10)
        }
    } else if b[3] == ATYP_DOMAIN {
        if b.len() < 5 {
            Parsed::Incomplete(5)
        } else {
            let n = b[4] as int;
            if b.len() < 5 + n {
                Parsed::Incomplete((5 + n) as nat)
            } else if !valid_utf8(b.subrange(5, 5 + n)) {
                Parsed::Malformed(WireError::InvalidDomain)
            } else if b.len() < 7 + n {
                Parsed::Incomplete((7 + n) as nat)
            } else {
                let name = decode_utf8(b.subrange(5, 5 + n));
                Parsed::Done(
                    (b[1], TargetView::Domain(name, port_of(b[5 + n], b[6 + n]))),
                    (7 + n) as nat,
                )
            }
        }
    } else {
        Parsed::Malformed(WireError::UnsupportedAddressType(b[3]))
    }
}

/// The method-selection request: `VER, NMETHODS, METHODS`.
pub open spec fn greeting_bytes(methods: Seq<u8>) -> Seq<u8> {
    seq![SOCKS_VERSION, methods.len() as u8] + methods
}

/// The meaning of `b` as the start of a method-selection request.
pub open spec fn parse_greeting(b: Seq<u8>) -> Parsed<Seq<u8>> {
    if b.len() < 2 {
        Parsed::Incomplete(2)
    } else if b[0] != SOCKS_VERSION {
        Parsed::Malformed(WireError::BadVersion(b[0]))
    } else if b.len() < 2 + b[1] {
        Parsed::Incomplete((2 + b[1]) as nat)
    } else {
        Parsed::Done(b.subrange(2, 2 + b[1]), (2 + b[1]) as nat)
    }
}

/// The subnegotiation request: `VER, ULEN, UNAME, PLEN, PASSWD`.
pub open spec fn credentials_bytes(user: Seq<u8>, pass: Seq<u8>) -> Seq<u8> {
    seq![AUTH_VERSION, user.len() as u8] + user + seq![pass.len() as u8] + pass
}

/// The meaning of `b` as the start of a subnegotiation request.
pub open spec fn parse_credentials(b: Seq<u8>) -> Parsed<(Seq<u8>, Seq<u8>)> {
    if b.len() < 2 {
        Parsed::Incomplete(2)
    } else if b[0] != AUTH_VERSION {
        Parsed::Malformed(WireError::BadVersion(b[0]))
    } else {
        let u = b[1] as int;
        if b.len() < 3 + u {
            Parsed::Incomplete((3 + u) as nat)
        } else {
            let p = b[2 + u] as int;
            if b.len() < 3 + u + p {
                Parsed::Incomplete((3 + u + p) as nat)
            } else {
                Parsed::Done(
                    (b.subrange(2, 2 + u), b.subrange(3 + u, 3 + u + p)),
                    (3 + u + p) as nat,
                )
            }
        }
    }
}

/// The bytes `buf[start..end]` as a vector.
fn copy_bytes(buf: &[u8], start: usize, end: usize) -> (r: Vec<u8>)
    requires
        start <= end <= buf@.len(),
    ensures
        r@ == buf@.subrange(start as int, end as int),
{
    let mut r: Vec<u8> = Vec::new();
    let mut i: usize = start;
    while i < end
        invariant
            start <= i <= end <= buf@.len(),
            r@ == buf@.subrange(start as int, i as int),
        decreases end - i,
    {
        r.push(buf[i]);
        i = i + 1;
        assert(r@ =~= buf@.subrange(start as int, i as int));
    }
    r
}

/// Appends all of `src` to `out`.
fn push_all(out: &mut Vec<u8>, src: &[u8])
    ensures
        final(out)@ == old(out)@ + src@,
{
    let mut i: usize = 0;
    while i < src.len()
        invariant
            i <= src@.len(),
            out@ == old(out)@ + src@.subrange(0, i as int),
        decreases src@.len() - i,
    {
        out.push(src[i]);
        i = i + 1;
        assert(out@ =~= old(out)@ + src@.subrange(0, i as int));
    }
    assert(src@.subrange(0, src@.len() as int) =~= src@);
}

/// Relies on `String::from_utf8`: it accepts exactly the well-formed UTF-8
/// byte strings, and the string it returns holds the characters they encode.
#[verifier::external_body]
fn utf8_to_string(bytes: Vec<u8>) -> (r: Option<String>)
    ensures
        r is Some <==> valid_utf8(bytes@),
        r matches Some(s) ==> s@ == decode_utf8(bytes@),
{
    String::from_utf8(bytes).ok()
}

fn port_from(hi: u8, lo: u8) -> (r: u16)
    ensures
        r == port_of(hi, lo),
{
    hi as u16 * 256 + lo as u16
}

/// Decodes a request or a reply (they share one layout) from the front of
/// `buf`, as the code byte and the address.
pub fn decode_frame(buf: &[u8]) -> (r: Decode<(u8, TargetAddr)>)
    ensures
        r@ == parse_frame(buf@),
{
    if buf.len() < 4 {
        return Decode::NeedMore(4);
    }
    if buf[0] != SOCKS_VERSION {
        return Decode::Malformed(WireError::BadVersion(buf[0]));
    }
    let code = buf[1];
    let atyp = buf[3];
    if atyp == ATYP_IPV4 {
        if buf.len() < 10 {
            return Decode::NeedMore(10);
        }
        let ip = Ipv4Addr::new(buf[4], buf[5], buf[6], buf[7]);
        let port = port_from(buf[8], buf[9]);
        Decode::Done((code, TargetAddr::Ipv4(ip, port)), 10)
    } else if atyp == ATYP_DOMAIN {
        if buf.len() < 5 {
            return Decode::NeedMore(5);
        }
        let n = buf[4] as usize;
        if buf.len() < 5 + n {
            return Decode::NeedMore(5 + n);
        }
        let name_bytes = copy_bytes(buf, 5, 5 + n);
        match utf8_to_string(name_bytes) {
            None => Decode::Malformed(WireError::InvalidDomain),
            Some(name) => {
                if buf.len() < 7 + n {
                    return Decode::NeedMore(7 + n);
                }
                let port = port_from(buf[5 + n], buf[6 + n]);
                Decode::Done((code, TargetAddr::Domain(name, port)), 7 + n)
            },
        }
    } else {
        Decode::Malformed(WireError::UnsupportedAddressType(atyp))
    }
}

/// Appends `ATYP, ADDR, PORT` of `t` to `out`.
pub fn push_target(out: &mut Vec<u8>, t: &TargetAddr)
    requires
        wire_target(t@),
    ensures
        final(out)@ == old(out)@ + target_bytes(t@),
{
    let port = match t {
        TargetAddr::Ipv4(ip, port) => {
            out.push(ATYP_IPV4);
            out.push(ip.a);
            out.push(ip.b);
            out.push(ip.c);
            out.push(ip.d);
            *port
        },
        TargetAddr::Domain(name, port) => {
            let bytes = name.as_str().as_bytes();
            out.push(ATYP_DOMAIN);
            out.push(bytes.len() as u8);
            push_all(out, bytes);
            *port
        },
    };
    out.push((port / 256) as u8);
    out.push((port % 256) as u8);
    assert(final(out)@ =~= old(out)@ + target_bytes(t@));
}

/// The bytes of a frame with this code byte and address.
pub fn encode_frame(code: u8, t: &TargetAddr) -> (r: Vec<u8>)
    requires
        wire_target(t@),
    ensures
        r@ == frame_bytes(code, t@),
{
    let mut out: Vec<u8> = Vec::new();
    out.push(SOCKS_VERSION);
    out.push(code);
    out.push(RESERVED);
    push_target(&mut out, t);
    assert(out@ =~= frame_bytes(code, t@));
    out
}

/// The address a reply carries: 0.0.0.0, port 0. This server does not
/// advertise the address it bound for the outbound connection.
pub open spec fn unspecified_target() -> TargetView {
    TargetView::Ipv4(Ipv4Addr { a: 0, b: 0, c: 0, d: 0 }, 0)
}

/// The reply this server sends with code `code`.
pub open spec fn reply_bytes(code: u8) -> Seq<u8> {
    frame_bytes(code, unspecified_target())
}

/// The bytes of a reply with code `code` and the unspecified bound address:
/// `05 code 00 01 00 00 00 00 00 00`.
pub fn encode_reply(code: u8) -> (r: Vec<u8>)
    ensures
        r@ == reply_bytes(code),
        r@ == seq![SOCKS_VERSION, code, RESERVED, ATYP_IPV4, 0u8, 0u8, 0u8, 0u8, 0u8, 0u8],
{
    let bound = TargetAddr::Ipv4(Ipv4Addr::new(0, 0, 0, 0), 0);
    let r = encode_frame(code, &bound);
    assert(r@ =~= seq![SOCKS_VERSION, code, RESERVED, ATYP_IPV4, 0u8, 0u8, 0u8, 0u8, 0u8, 0u8]);
    r
}

/// Decodes a method-selection request from the front of `buf`, as the list
/// of offered methods.
pub fn decode_greeting(buf: &[u8]) -> (r: Decode<Vec<u8>>)
    ensures
        r@ == parse_greeting(buf@),
{
    if buf.len() < 2 {
        return Decode::NeedMore(2);
    }
    if buf[0] != SOCKS_VERSION {
        return Decode::Malformed(WireError::BadVersion(buf[0]));
    }
    let n = buf[1] as usize;
    if buf.len() < 2 + n {
        return Decode::NeedMore(2 + n);
    }
    Decode::Done(copy_bytes(buf, 2, 2 + n), 2 + n)
}

/// The bytes of a method-selection request offering `methods`.
pub fn encode_greeting(methods: &[u8]) -> (r: Vec<u8>)
    requires
        methods@.len() <= 255,
    ensures
        r@ == greeting_bytes(methods@),
{
    let mut out: Vec<u8> = Vec::new();
    out.push(SOCKS_VERSION);
    out.push(methods.len() as u8);
    push_all(&mut out, methods);
    assert(out@ =~= greeting_bytes(methods@));
    out
}

/// The method-selection reply: `VER, METHOD`.
pub fn encode_method_reply(method: u8) -> (r: Vec<u8>)
    ensures
        r@ == seq![SOCKS_VERSION, method],
{
    let mut out: Vec<u8> = Vec::new();
    out.push(SOCKS_VERSION);
    out.push(method);
    assert(out@ =~= seq![SOCKS_VERSION, method]);
    out
}

/// Decodes a subnegotiation request from the front of `buf`, as the
/// username and the password.
pub fn decode_credentials(buf: &[u8]) -> (r: Decode<(Vec<u8>, Vec<u8>)>)
    ensures
        r@ == parse_credentials(buf@),
{
    if buf.len() < 2 {
        return Decode::NeedMore(2);
    }
    if buf[0] != AUTH_VERSION {
        return Decode::Malformed(WireError::BadVersion(buf[0]));
    }
    let u = buf[1] as usize;
    if buf.len() < 3 + u {
        return Decode::NeedMore(3 + u);
    }
    let p = buf[2 + u] as usize;
    if buf.len() < 3 + u + p {
        return Decode::NeedMore(3 + u + p);
    }
    let user = copy_bytes(buf, 2, 2 + u);
    let pass = copy_bytes(buf, 3 + u, 3 + u + p);
    Decode::Done((user, pass), 3 + u + p)
}

/// The bytes of a subnegotiation request.
pub fn encode_credentials(user: &[u8], pass: &[u8]) -> (r: Vec<u8>)
    requires
        user@.len() <= 255,
        pass@.len() <= 255,
    ensures
        r@ == credentials_bytes(user@, pass@),
{
    let mut out: Vec<u8> = Vec::new();
    out.push(AUTH_VERSION);
    out.push(user.len() as u8);
    push_all(&mut out, user);
    out.push(pass.len() as u8);
    push_all(&mut out, pass);
    assert(out@ =~= credentials_bytes(user@, pass@));
    out
}

/// The subnegotiation reply: `VER, STATUS`.
pub fn encode_auth_status(status: u8) -> (r: Vec<u8>)
    ensures
        r@ == seq![AUTH_VERSION, status],
{
    let mut out: Vec<u8> = Vec::new();
    out.push(AUTH_VERSION);
    out.push(status);
    assert(out@ =~= seq![AUTH_VERSION, status]);
    out
}

proof fn lemma_port_round_trip(p: u16)
    ensures
        port_of((p / 256) as u8, (p % 256) as u8) == p,
        port_bytes(p).len() == 2,
{
}

proof fn lemma_port_bytes_of(hi: u8, lo: u8)
    ensures
        port_bytes(port_of(hi, lo)) == seq![hi, lo],
{
    assert(port_bytes(port_of(hi, lo)) =~= seq![hi, lo]);
}

/// Decoding the bytes of a request or a reply, whatever follows them, gives
/// back its code and its address, and takes exactly those bytes.
pub proof fn lemma_frame_round_trip(code: u8, t: TargetView, rest: Seq<u8>)
    requires
        wire_target(t),
    ensures
        parse_frame(frame_bytes(code, t) + rest) == Parsed::Done(
            (code, t),
            frame_bytes(code, t).len(),
        ),
{
    let b = frame_bytes(code, t) + rest;
    match t {
        TargetView::Ipv4(ip, p) => {
            lemma_port_round_trip(p);
            assert(b[3] == ATYP_IPV4);
            assert(b[8] == (p / 256) as u8 && b[9] == (p % 256) as u8);
        },
        TargetView::Domain(name, p) => {
            let e = encode_utf8(name);
            let n = e.len() as int;
            lemma_port_round_trip(p);
            assert(b[3] == ATYP_DOMAIN);
            assert(b[4] == n as u8);
            assert(b.subrange(5, 5 + n) =~= e);
            assert(b[5 + n] == (p / 256) as u8 && b[6 + n] == (p % 256) as u8);
        },
    }
}

/// Bytes that decode as a request or a reply and carry the reserved byte
/// as zero are exactly the bytes that encoding the decoded value writes.
pub proof fn lemma_frame_encodes_back(b: Seq<u8>)
    requires
        parse_frame(b) is Done,
        b.len() >= 3 && b[2] == RESERVED,
    ensures
        ({
            let (code, t) = parse_frame(b)->Done_0;
            &&& wire_target(t)
            &&& b.subrange(0, parse_frame(b)->Done_1 as int) == frame_bytes(code, t)
        }),
{
    broadcast use vstd::utf8::decode_utf8_encode_utf8;

    let (code, t) = parse_frame(b)->Done_0;
    let n = parse_frame(b)->Done_1 as int;
    if b[3] == ATYP_IPV4 {
        lemma_port_bytes_of(b[8], b[9]);
        assert(b.subrange(0, n) =~= frame_bytes(code, t));
    } else {
        let k = b[4] as int;
        let raw = b.subrange(5, 5 + k);
        assert(encode_utf8(decode_utf8(raw)) == raw);
        lemma_port_bytes_of(b[5 + k], b[6 + k]);
        assert(b.subrange(0, n) =~= frame_bytes(code, t));
    }
}

/// Decoding the bytes of a method-selection request, whatever follows them,
/// gives back the offered methods.
pub proof fn lemma_greeting_round_trip(methods: Seq<u8>, rest: Seq<u8>)
    requires
        methods.len() <= 255,
    ensures
        parse_greeting(greeting_bytes(methods) + rest) == Parsed::Done(
            methods,
            greeting_bytes(methods).len(),
        ),
{
    let b = greeting_bytes(methods) + rest;
    assert(b.subrange(2, 2 + methods.len() as int) =~= methods);
}

/// Decoding the bytes of a subnegotiation request, whatever follows them,
/// gives back the username and the password.
pub proof fn lemma_credentials_round_trip(user: Seq<u8>, pass: Seq<u8>, rest: Seq<u8>)
    requires
        user.len() <= 255,
        pass.len() <= 255,
    ensures
        parse_credentials(credentials_bytes(user, pass) + rest) == Parsed::Done(
            (user, pass),
            credentials_bytes(user, pass).len(),
        ),
{
    let b = credentials_bytes(user, pass) + rest;
    let u = user.len() as int;
    assert(b[2 + u] == pass.len() as u8);
    assert(b.subrange(2, 2 + u) =~= user);
    assert(b.subrange(3 + u, 3 + u + pass.len() as int) =~= pass);
}

} // verus!
