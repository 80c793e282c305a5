//! Choosing the authentication method, and checking credentials.
use vstd::prelude::*;
use vstd::utf8::encode_utf8;
use crate::constants::{METHOD_NO_ACCEPTABLE, METHOD_NO_AUTH, METHOD_USER_PASS};

verus! {

/// The username and password that clients must present. Configured once,
/// never changed, and shared by every session.
#[derive(Clone, Debug)]
pub struct AuthConfig {
    username: Vec<u8>,
    password: Vec<u8>,
}

/// The bytes of `s` (its UTF-8 encoding).
fn bytes_of(s: &str) -> (r: Vec<u8>)
    ensures
        r@ == encode_utf8(s@),
{
    copy_all(s.as_bytes())
}

/// A vector holding the bytes of `b`.
fn copy_all(b: &[u8]) -> (r: Vec<u8>)
    ensures
        r@ == b@,
{
    let mut r: Vec<u8> = Vec::new();
    let mut i: usize = 0;
    while i < b.len()
        invariant
            i <= b@.len(),
            r@ == b@.subrange(0, i as int),
        decreases b@.len() - i,
    {
        r.push(b[i]);
        i = i + 1;
        assert(r@ =~= b@.subrange(0, i as int));
    }
    assert(b@.subrange(0, b@.len() as int) =~= b@);
    r
}

impl AuthConfig {
    /// The configured username, as bytes.
    pub closed spec fn spec_username(&self) -> Seq<u8> {
        self.username@
    }

    /// The configured password, as bytes.
    pub closed spec fn spec_password(&self) -> Seq<u8> {
        self.password@
    }

    /// Credentials that clients must match byte for byte.
    pub fn new(username: &str, password: &str) -> (r: AuthConfig)
        ensures
            r.spec_username() == encode_utf8(username@),
            r.spec_password() == encode_utf8(password@),
    {
        AuthConfig { username: bytes_of(username), password: bytes_of(password) }
    }

    /// Another value holding the same credentials.
    pub fn copy(&self) -> (r: AuthConfig)
        ensures
            r.spec_username() == self.spec_username(),
            r.spec_password() == self.spec_password(),
    {
        AuthConfig {
            username: copy_all(self.username.as_slice()),
            password: copy_all(self.password.as_slice()),
        }
    }

    /// Whether `user` and `pass` are exactly the configured credentials.
    pub fn accepts(&self, user: &[u8], pass: &[u8]) -> (r: bool)
        ensures
            r == (user@ == self.spec_username() && pass@ == self.spec_password()),
    {
        let u = same_bytes(self.username.as_slice(), user);
        let p = same_bytes(self.password.as_slice(), pass);
        u && p
    }
}

/// Whether `a` and `b` hold the same bytes.
pub(crate) fn same_bytes(a: &[u8], b: &[u8]) -> (r: bool)
    ensures
        r == (a@ == b@),
{
    if a.len() != b.len() {
        return false;
    }
    let mut i: usize = 0;
    while i < a.len()
        invariant
            i <= a@.len() == b@.len(),
            a@.subrange(0, i as int) == b@.subrange(0, i as int),
        decreases a@.len() - i,
    {
        if a[i] != b[i] {
            assert(a@[i as int] != b@[i as int]);
            return false;
        }
        i = i + 1;
        assert(a@.subrange(0, i as int) =~= b@.subrange(0, i as int));
    }
    assert(a@.subrange(0, a@.len() as int) =~= a@);
    assert(b@.subrange(0, b@.len() as int) =~= b@);
    true
}

/// The method the server picks from those a client offers: username/password
/// when credentials are configured, no authentication otherwise, and
/// "no acceptable method" when the client does not offer that one.
pub open spec fn chosen_method(offered: Seq<u8>, with_auth: bool) -> u8 {
    let wanted = if with_auth {
        METHOD_USER_PASS
    } else {
        METHOD_NO_AUTH
    };
    if offered.contains(wanted) {
        wanted
    } else {
        METHOD_NO_ACCEPTABLE
    }
}

/// Picks the method for a client that offers `offered`.
pub fn select_method(offered: &[u8], with_auth: bool) -> (r: u8)
    ensures
        r == chosen_method(offered@, with_auth),
{
    let wanted = if with_auth {
        METHOD_USER_PASS
    } else {
        METHOD_NO_AUTH
    };
    let mut i: usize = 0;
    while i < offered.len()
        invariant
            i <= offered@.len(),
            wanted == (if with_auth {
                METHOD_USER_PASS
            } else {
                METHOD_NO_AUTH
            }),
            forall|j: int| 0 <= j < i ==> offered@[j] != wanted,
        decreases offered@.len() - i,
    {
        if offered[i] == wanted {
            assert(offered@[i as int] == wanted);
            return wanted;
        }
        i = i + 1;
    }
    METHOD_NO_ACCEPTABLE
}

} // verus!
