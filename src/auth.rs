//! HTTP Basic authentication: `Authorization: Basic <base64 of user:password>`.
use base64::engine::general_purpose::STANDARD;
use base64::Engine;
use vstd::prelude::*;
use vstd::string::StringSliceAdditionalSpecFns;

verus! {

/// The bytes that a standard (padded) base64 text decodes to, or `None` when
/// the text is not valid base64.
pub uninterp spec fn base64_decoded(text: Seq<u8>) -> Option<Seq<u8>>;

/// Relies on base64's `Engine::decode` with the `STANDARD` engine: the result
/// is a function of the input bytes alone.
#[verifier::external_body]
fn decode_base64(text: &[u8]) -> (r: Option<Vec<u8>>)
    ensures
        match r {
            Some(v) => base64_decoded(text@) == Some(v@),
            None => base64_decoded(text@) is None,
        },
{
    STANDARD.decode(text).ok()
}

pub const COLON: u8 = 58;

/// `"Basic "`, the scheme and the one space that follows it.
pub open spec fn basic_prefix() -> Seq<u8> {
    seq![66u8, 97u8, 115u8, 105u8, 99u8, 32u8]
}

/// The base64 text of a Basic `Authorization` header value.
pub open spec fn basic_token(header: Seq<u8>) -> Option<Seq<u8>> {
    if header.len() >= 6 && header.subrange(0, 6) == basic_prefix() {
        Some(header.subrange(6, header.len() as int))
    } else {
        None
    }
}

/// Position `i` holds the one and only colon of `d`.
pub open spec fn sole_colon_at(d: Seq<u8>, i: int) -> bool {
    0 <= i < d.len() && d[i] == COLON && forall|j: int| 0 <= j < d.len() && j != i ==> d[j] != COLON
}

/// `user:password` split at its colon; `None` unless there is exactly one.
pub open spec fn split_pair(d: Seq<u8>) -> Option<(Seq<u8>, Seq<u8>)> {
    if exists|i: int| sole_colon_at(d, i) {
        let i = choose|i: int| sole_colon_at(d, i);
        Some((d.subrange(0, i), d.subrange(i + 1, d.len() as int)))
    } else {
        None
    }
}

/// The user name and password that a header value carries, if it is a
/// well-formed Basic credential.
pub open spec fn header_pair(header: Seq<u8>) -> Option<(Seq<u8>, Seq<u8>)> {
    match basic_token(header) {
        Some(t) => match base64_decoded(t) {
            Some(d) => split_pair(d),
            None => None,
        },
        None => None,
    }
}

/// The identity a request presented.
#[derive(Clone, Debug)]
pub struct BasicAuth {
    pub username: Vec<u8>,
    pub password: Vec<u8>,
}

/// The one user name and password that the service accepts.
#[derive(Clone, Debug)]
pub struct Credentials {
    pub username: Vec<u8>,
    pub password: Vec<u8>,
}

/// Whether `header` is a Basic credential naming exactly `creds`.
pub open spec fn accepted(creds: Credentials, header: Seq<u8>) -> bool {
    header_pair(header) == Some((creds.username@, creds.password@))
}

fn copy_range(s: &[u8], lo: usize, hi: usize) -> (r: Vec<u8>)
    requires
        lo <= hi <= s@.len(),
    ensures
        r@ == s@.subrange(lo as int, hi as int),
{
    let mut r: Vec<u8> = Vec::new();
    let mut k: usize = lo;
    while k < hi
        invariant
            lo <= k <= hi <= s@.len(),
            r@ == s@.subrange(lo as int, k as int),
        decreases hi - k,
    {
        r.push(s[k]);
        k = k + 1;
        assert(r@ =~= s@.subrange(lo as int, k as int));
    }
    r
}

fn bytes_equal(a: &[u8], b: &[u8]) -> (r: bool)
    ensures
        r == (a@ == b@),
{
    if a.len() != b.len() {
        return false;
    }
    let mut k: usize = 0;
    while k < a.len()
        invariant
            a@.len() == b@.len(),
            k <= a@.len(),
            forall|j: int| 0 <= j < k ==> a@[j] == b@[j],
        decreases a@.len() - k,
    {
        if a[k] != b[k] {
            return false;
        }
        k = k + 1;
    }
    assert(a@ =~= b@);
    true
}

impl BasicAuth {
    /// Splits decoded credentials `user:password` at their colon; `None`
    /// unless the text holds exactly one colon.
    pub fn from_decoded(decoded: &[u8]) -> (r: Option<BasicAuth>)
        ensures
            match r {
                Some(a) => split_pair(decoded@) == Some((a.username@, a.password@)),
                None => split_pair(decoded@) is None,
            },
    {
        let d = decoded;
        let n = d.len();
        let mut i: usize = 0;
        while i < n && d[i] != COLON
            invariant
                n == d@.len(),
                i <= n,
                forall|j: int| 0 <= j < i ==> d@[j] != COLON,
            decreases n - i,
        {
            i = i + 1;
        }
        if i == n {
            assert forall|x: int| !sole_colon_at(d@, x) by {}
            return None;
        }
        let mut k: usize = i + 1;
        while k < n && d[k] != COLON
            invariant
                n == d@.len(),
                i < k <= n,
                d@[i as int] == COLON,
                forall|j: int| 0 <= j < i ==> d@[j] != COLON,
                forall|j: int| i < j < k ==> d@[j] != COLON,
            decreases n - k,
        {
            k = k + 1;
        }
        if k < n {
            assert forall|x: int| !sole_colon_at(d@, x) by {
                if sole_colon_at(d@, x) {
                    assert(x == i as int);
                    assert(d@[k as int] != COLON);
                }
            }
            return None;
        }
        assert(sole_colon_at(d@, i as int));
        proof {
            let c = choose|x: int| sole_colon_at(d@, x);
            assert(c == i as int);
        }
        Some(BasicAuth { username: copy_range(d, 0, i), password: copy_range(d, i + 1, n) })
    }

    /// Reads a Basic `Authorization` header value: `"Basic "` followed by the
    /// base64 text of `user:password`.
    pub fn from_authorization_header(header: &str) -> (r: Option<BasicAuth>)
        ensures
            match r {
                Some(a) => header_pair(header.spec_bytes()) == Some((a.username@, a.password@)),
                None => header_pair(header.spec_bytes()) is None,
            },
    {
        let h = header.as_bytes();
        let n = h.len();
        if n < 6 || h[0] != 66 || h[1] != 97 || h[2] != 115 || h[3] != 105 || h[4] != 99 || h[5] != 32 {
            assert(basic_token(h@) is None) by {
                if n >= 6 {
                    assert(h@.subrange(0, 6) != basic_prefix()) by {
                        let p = h@.subrange(0, 6);
                        assert(p[0] == h@[0] && p[1] == h@[1] && p[2] == h@[2]);
                        assert(p[3] == h@[3] && p[4] == h@[4] && p[5] == h@[5]);
                    }
                }
            }
            return None;
        }
        assert(h@.subrange(0, 6) =~= basic_prefix());
        let token = copy_range(h, 6, n);
        match decode_base64(token.as_slice()) {
            Some(d) => BasicAuth::from_decoded(d.as_slice()),
            None => None,
        }
    }
}

impl Credentials {
    /// Whether `auth` names exactly these credentials.
    pub fn verify(&self, auth: &BasicAuth) -> (r: bool)
        ensures
            r == (auth.username@ == self.username@ && auth.password@ == self.password@),
    {
        bytes_equal(auth.username.as_slice(), self.username.as_slice())
            && bytes_equal(auth.password.as_slice(), self.password.as_slice())
    }

    /// The guard run before every route: the identity of a request whose
    /// `Authorization` header carries exactly these credentials, else `None`.
    pub fn authenticate(&self, authorization: Option<&str>) -> (r: Option<BasicAuth>)
        ensures
            r is Some <==> (authorization matches Some(h) && accepted(*self, h.spec_bytes())),
            r matches Some(a) ==> a.username@ == self.username@ && a.password@ == self.password@,
    {
        match authorization {
            Some(h) => match BasicAuth::from_authorization_header(h) {
                Some(a) => {
                    if self.verify(&a) {
                        Some(a)
                    } else {
                        None
                    }
                },
                None => None,
            },
            None => None,
        }
    }
}

} // verus!
