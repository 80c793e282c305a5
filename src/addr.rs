//! Addresses: the target of a CONNECT request, IPv4 addresses, and the
//! client's peer address, with their textual forms.
use vstd::prelude::*;

verus! {

/// The character of a decimal digit.
pub open spec fn digit_char(d: int) -> char {
    if d == 0 {
        '0'
    } else if d == 1 {
        '1'
    } else if d == 2 {
        '2'
    } else if d == 3 {
        '3'
    } else if d == 4 {
        '4'
    } else if d == 5 {
        '5'
    } else if d == 6 {
        '6'
    } else if d == 7 {
        '7'
    } else if d == 8 {
        '8'
    } else {
        '9'
    }
}

/// The decimal form of `n`, with no leading zeros.
pub open spec fn decimal(n: nat) -> Seq<char>
    decreases n,
{
    if n < 10 {
        seq![digit_char(n as int)]
    } else {
        decimal(n / 10).push(digit_char((n % 10) as int))
    }
}

fn digit_str(d: u16) -> (r: &'static str)
    requires
        d < 10,
    ensures
        r@ == seq![digit_char(d as int)],
{
    if d == 0 {
        proof { reveal_strlit("0"); }
        "0"
    } else if d == 1 {
        proof { reveal_strlit("1"); }
        "1"
    } else if d == 2 {
        proof { reveal_strlit("2"); }
        "2"
    } else if d == 3 {
        proof { reveal_strlit("3"); }
        "3"
    } else if d == 4 {
        proof { reveal_strlit("4"); }
        "4"
    } else if d == 5 {
        proof { reveal_strlit("5"); }
        "5"
    } else if d == 6 {
        proof { reveal_strlit("6"); }
        "6"
    } else if d == 7 {
        proof { reveal_strlit("7"); }
        "7"
    } else if d == 8 {
        proof { reveal_strlit("8"); }
        "8"
    } else {
        proof { reveal_strlit("9"); }
        "9"
    }
}

/// Appends the decimal form of `n` to `s`.
pub fn push_decimal(s: &mut String, n: u16)
    ensures
        final(s)@ == old(s)@ + decimal(n as nat),
    decreases n,
{
    if n >= 10 {
        push_decimal(s, n / 10);
    }
    s.append(digit_str(n % 10));
}

/// An IPv4 address, as its four octets in network order.
#[derive(Clone, Copy, Debug, PartialEq, Eq, Structural)]
pub struct Ipv4Addr {
    pub a: u8,
    pub b: u8,
    pub c: u8,
    pub d: u8,
}

impl Ipv4Addr {
    /// The address `a.b.c.d`.
    pub fn new(a: u8, b: u8, c: u8, d: u8) -> (r: Ipv4Addr)
        ensures
            r == (Ipv4Addr { a, b, c, d }),
    {
        Ipv4Addr { a, b, c, d }
    }

    /// The four octets, most significant first.
    pub fn octets(&self) -> (r: [u8; 4])
        ensures
            r@ == seq![self.a, self.b, self.c, self.d],
    {
        [self.a, self.b, self.c, self.d]
    }

    /// The dotted-decimal form, `a.b.c.d`.
    pub open spec fn spec_text(self) -> Seq<char> {
        decimal(self.a as nat) + seq!['.'] + decimal(self.b as nat) + seq!['.'] + decimal(
            self.c as nat,
        ) + seq!['.'] + decimal(self.d as nat)
    }

    /// Appends the dotted-decimal form to `s`.
    pub fn push_text(&self, s: &mut String)
        ensures
            final(s)@ == old(s)@ + self.spec_text(),
    {
        proof {
            reveal_strlit(".");
        }
        push_decimal(s, self.a as u16);
        s.append(".");
        push_decimal(s, self.b as u16);
        s.append(".");
        push_decimal(s, self.c as u16);
        s.append(".");
        push_decimal(s, self.d as u16);
        assert(final(s)@ =~= old(s)@ + self.spec_text());
    }
}

/// What a target address means: an IPv4 address or a domain name (as its
/// characters), with a port.
pub enum TargetView {
    Ipv4(Ipv4Addr, u16),
    Domain(Seq<char>, u16),
}

/// The target of a CONNECT request. Immutable once parsed.
#[derive(Clone, Debug)]
pub enum TargetAddr {
    /// An IPv4 address and a port.
    Ipv4(Ipv4Addr, u16),
    /// A domain name and a port; the name is resolved when connecting.
    Domain(String, u16),
}

impl View for TargetAddr {
    type V = TargetView;

    open spec fn view(&self) -> TargetView {
        match self {
            TargetAddr::Ipv4(ip, port) => TargetView::Ipv4(*ip, *port),
            TargetAddr::Domain(name, port) => TargetView::Domain(name@, *port),
        }
    }
}

/// The `host:port` form of a target address.
pub open spec fn target_text(t: TargetView) -> Seq<char> {
    match t {
        TargetView::Ipv4(ip, port) => ip.spec_text() + seq![':'] + decimal(port as nat),
        TargetView::Domain(name, port) => name + seq![':'] + decimal(port as nat),
    }
}

impl TargetAddr {
    /// The `host:port` form: `192.168.1.1:8080`, `example.com:443`.
    pub fn to_string(&self) -> (r: String)
        ensures
            r@ == target_text(self@),
    {
        proof {
            reveal_strlit(":");
        }
        let mut s = String::new();
        let port = match self {
            TargetAddr::Ipv4(ip, port) => {
                ip.push_text(&mut s);
                *port
            },
            TargetAddr::Domain(name, port) => {
                s.append(name.as_str());
                *port
            },
        };
        s.append(":");
        push_decimal(&mut s, port);
        assert(s@ =~= target_text(self@));
        s
    }
}

/// An IPv6 address, as one 128-bit number (the first segment in the top
/// bits).
#[derive(Clone, Copy, Debug, PartialEq, Eq, Structural)]
pub struct Ipv6Addr {
    pub bits: u128,
}

/// An IPv4 or an IPv6 address.
#[derive(Clone, Copy, Debug, PartialEq, Eq, Structural)]
pub enum IpAddr {
    V4(Ipv4Addr),
    V6(Ipv6Addr),
}

/// An IP address and a port: the address of a client's end of a connection.
#[derive(Clone, Copy, Debug, PartialEq, Eq, Structural)]
pub struct SocketAddr {
    pub ip: IpAddr,
    pub port: u16,
}

impl SocketAddr {
    /// The address `ip` with port `port`.
    pub fn new(ip: IpAddr, port: u16) -> (r: SocketAddr)
        ensures
            r == (SocketAddr { ip, port }),
    {
        SocketAddr { ip, port }
    }
}

/// Whether `c` occurs nowhere in `s`.
spec fn lacks(s: Seq<char>, c: char) -> bool {
    forall|i: int| 0 <= i < s.len() ==> s[i] != c
}

proof fn lemma_decimal_shape(n: nat)
    ensures
        lacks(decimal(n), '.'),
        lacks(decimal(n), ':'),
        decimal(n).len() >= 1,
        n >= 10 ==> decimal(n).len() >= 2,
    decreases n,
{
    if n >= 10 {
        lemma_decimal_shape(n / 10);
        let d = decimal(n);
        assert forall|i: int| 0 <= i < d.len() implies d[i] != '.' && d[i] != ':' by {
            if i < d.len() - 1 {
                assert(d[i] == decimal(n / 10)[i]);
            }
        }
    }
}

proof fn lemma_digit_char_injective(d: int, e: int)
    requires
        0 <= d < 10,
        0 <= e < 10,
        digit_char(d) == digit_char(e),
    ensures
        d == e,
{
}

proof fn lemma_decimal_injective(n: nat, m: nat)
    requires
        decimal(n) == decimal(m),
    ensures
        n == m,
    decreases n,
{
    lemma_decimal_shape(n);
    lemma_decimal_shape(m);
    if n < 10 && m < 10 {
        assert(decimal(n) == seq![digit_char(n as int)]);
        assert(decimal(m) == seq![digit_char(m as int)]);
        assert(seq![digit_char(n as int)][0] == digit_char(n as int));
        assert(seq![digit_char(m as int)][0] == digit_char(m as int));
        lemma_digit_char_injective(n as int, m as int);
    } else if n >= 10 && m >= 10 {
        let dn = decimal(n);
        let dm = decimal(m);
        assert(dn.last() == dm.last());
        lemma_digit_char_injective((n % 10) as int, (m % 10) as int);
        assert(dn.drop_last() =~= decimal(n / 10));
        assert(dm.drop_last() =~= decimal(m / 10));
        lemma_decimal_injective(n / 10, m / 10);
    } else {
        assert(decimal(n).len() != decimal(m).len());
    }
}

/// Splits `x + [c] + y` at its first `c`, when `x` holds none.
proof fn lemma_split_first(x1: Seq<char>, y1: Seq<char>, x2: Seq<char>, y2: Seq<char>, c: char)
    requires
        lacks(x1, c),
        lacks(x2, c),
        x1 + seq![c] + y1 == x2 + seq![c] + y2,
    ensures
        x1 == x2,
        y1 == y2,
{
    let s = x1 + seq![c] + y1;
    let t = x2 + seq![c] + y2;
    if x1.len() < x2.len() {
        assert(s[x1.len() as int] == c);
        assert(t[x1.len() as int] == x2[x1.len() as int]);
    } else if x2.len() < x1.len() {
        assert(t[x2.len() as int] == c);
        assert(s[x2.len() as int] == x1[x2.len() as int]);
    }
    assert(x1.len() == x2.len());
    assert(x1 =~= s.subrange(0, x1.len() as int));
    assert(x2 =~= t.subrange(0, x2.len() as int));
    assert(y1 =~= s.subrange(x1.len() as int + 1, s.len() as int));
    assert(y2 =~= t.subrange(x2.len() as int + 1, t.len() as int));
}

/// Splits `x + [c] + y` at its last `c`, when `y` holds none.
proof fn lemma_split_last(x1: Seq<char>, y1: Seq<char>, x2: Seq<char>, y2: Seq<char>, c: char)
    requires
        lacks(y1, c),
        lacks(y2, c),
        x1 + seq![c] + y1 == x2 + seq![c] + y2,
    ensures
        x1 == x2,
        y1 == y2,
{
    let s = x1 + seq![c] + y1;
    let t = x2 + seq![c] + y2;
    if y1.len() < y2.len() {
        let k = s.len() - y1.len() - 1;
        assert(s[k] == c);
        assert(t[k] == y2[k - x2.len() - 1]);
    } else if y2.len() < y1.len() {
        let k = t.len() - y2.len() - 1;
        assert(t[k] == c);
        assert(s[k] == y1[k - x1.len() - 1]);
    }
    assert(y1.len() == y2.len());
    assert(x1 =~= s.subrange(0, x1.len() as int));
    assert(x2 =~= t.subrange(0, x2.len() as int));
    assert(y1 =~= s.subrange(x1.len() as int + 1, s.len() as int));
    assert(y2 =~= t.subrange(x2.len() as int + 1, t.len() as int));
}

/// `a.b.c.d:p`, cut at its separators.
proof fn lemma_ipv4_text_parts(a: Ipv4Addr, p: u16)
    ensures
        target_text(TargetView::Ipv4(a, p)) == decimal(a.a as nat) + seq!['.'] + (decimal(
            a.b as nat,
        ) + seq!['.'] + (decimal(a.c as nat) + seq!['.'] + (decimal(a.d as nat) + seq![':']
            + decimal(p as nat)))),
{
    assert(target_text(TargetView::Ipv4(a, p)) =~= decimal(a.a as nat) + seq!['.'] + (decimal(
        a.b as nat,
    ) + seq!['.'] + (decimal(a.c as nat) + seq!['.'] + (decimal(a.d as nat) + seq![':']
        + decimal(p as nat)))));
}

proof fn lemma_ipv4_text_reversible(a: Ipv4Addr, p: u16, b: Ipv4Addr, q: u16)
    requires
        target_text(TargetView::Ipv4(a, p)) == target_text(TargetView::Ipv4(b, q)),
    ensures
        a == b,
        p == q,
{
    lemma_ipv4_text_parts(a, p);
    lemma_ipv4_text_parts(b, q);
    lemma_decimal_shape(a.a as nat);
    lemma_decimal_shape(a.b as nat);
    lemma_decimal_shape(a.c as nat);
    lemma_decimal_shape(a.d as nat);
    lemma_decimal_shape(b.a as nat);
    lemma_decimal_shape(b.b as nat);
    lemma_decimal_shape(b.c as nat);
    lemma_decimal_shape(b.d as nat);
    let ra3 = decimal(a.d as nat) + seq![':'] + decimal(p as nat);
    let rb3 = decimal(b.d as nat) + seq![':'] + decimal(q as nat);
    let ra2 = decimal(a.c as nat) + seq!['.'] + ra3;
    let rb2 = decimal(b.c as nat) + seq!['.'] + rb3;
    let ra1 = decimal(a.b as nat) + seq!['.'] + ra2;
    let rb1 = decimal(b.b as nat) + seq!['.'] + rb2;
    lemma_split_first(decimal(a.a as nat), ra1, decimal(b.a as nat), rb1, '.');
    lemma_split_first(decimal(a.b as nat), ra2, decimal(b.b as nat), rb2, '.');
    lemma_split_first(decimal(a.c as nat), ra3, decimal(b.c as nat), rb3, '.');
    lemma_split_first(
        decimal(a.d as nat),
        decimal(p as nat),
        decimal(b.d as nat),
        decimal(q as nat),
        ':',
    );
    lemma_decimal_injective(a.a as nat, b.a as nat);
    lemma_decimal_injective(a.b as nat, b.b as nat);
    lemma_decimal_injective(a.c as nat, b.c as nat);
    lemma_decimal_injective(a.d as nat, b.d as nat);
    lemma_decimal_injective(p as nat, q as nat);
}

/// The `host:port` text gives the target back: two IPv4 targets, or two
/// domain targets, with the same text are the same target.
pub proof fn lemma_target_text_reversible(t: TargetView, u: TargetView)
    requires
        (t is Ipv4 && u is Ipv4) || (t is Domain && u is Domain),
        target_text(t) == target_text(u),
    ensures
        t == u,
{
    match (t, u) {
        (TargetView::Ipv4(a, p), TargetView::Ipv4(b, q)) => {
            lemma_ipv4_text_reversible(a, p, b, q);
        },
        (TargetView::Domain(m, p), TargetView::Domain(n, q)) => {
            lemma_decimal_shape(p as nat);
            lemma_decimal_shape(q as nat);
            lemma_split_last(m, decimal(p as nat), n, decimal(q as nat), ':');
            lemma_decimal_injective(p as nat, q as nat);
        },
        _ => {},
    }
}

} // verus!
