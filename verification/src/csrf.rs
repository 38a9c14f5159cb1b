//! Cross-site request forgery tokens kept in a private cookie.
use vstd::prelude::*;
use crate::text::opt_str_view;
use crate::encoding::{base64_url_safe_decode, base64_url_safe_decoded, base64_url_safe_encode, base64_url_safe_encoded};
use crate::crypto::random_bytes;

verus! {

/// A CSRF token: the raw bytes held (base64 encoded) in the `csrf_token` cookie.
#[derive(Debug)]
pub struct CSRFToken(Vec<u8>);

impl View for CSRFToken {
    type V = Seq<u8>;

    closed spec fn view(&self) -> Seq<u8> {
        self.0@
    }
}

/// The cookie value a request's token is read from: the private cookie, or,
/// when there is none, the one set earlier in the same request.
pub open spec fn spec_chosen_cookie(private: Option<Seq<char>>, pending: Option<Seq<char>>) -> Option<Seq<char>> {
    match private {
        Some(c) => Some(c),
        None => pending,
    }
}

impl CSRFToken {
    /// Wraps freshly drawn random bytes as a token.
    pub fn from_bytes(bytes: Vec<u8>) -> (t: CSRFToken)
        ensures
            t@ == bytes@,
    {
        CSRFToken(bytes)
    }

    /// The token a request carries: the chosen cookie decoded with the
    /// URL-safe base64 alphabet, or `None` when there is no cookie or it does
    /// not decode (the caller then draws a fresh token and sets the cookie).
    pub fn from_cookies(private: Option<&str>, pending: Option<&str>) -> (r: Option<CSRFToken>)
        ensures
            match spec_chosen_cookie(opt_str_view(private), opt_str_view(pending)) {
                Some(c) => match base64_url_safe_decoded(c) {
                    Some(b) => r matches Some(t) && t@ == b,
                    None => r is None,
                },
                None => r is None,
            },
    {
        let chosen = match private {
            Some(c) => Some(c),
            None => pending,
        };
        match chosen {
            Some(c) => match base64_url_safe_decode(c) {
                Some(b) => Some(CSRFToken(b)),
                None => None,
            },
            None => None,
        }
    }

    /// Whether the request-start check has to issue a new token: it does
    /// unless the private cookie is present and decodes.
    pub fn needs_new_cookie(private: Option<&str>) -> (r: bool)
        ensures
            r == match private {
                Some(c) => base64_url_safe_decoded(c@) is None,
                None => true,
            },
    {
        match private {
            Some(c) => base64_url_safe_decode(c).is_none(),
            None => true,
        }
    }

    /// Checks a token submitted with a form against this one: it must decode
    /// (URL-safe base64) to exactly the token's bytes.
    pub fn verify(&self, token: &str) -> (r: bool)
        ensures
            r == (base64_url_safe_decoded(token@) == Some(self@)),
    {
        match base64_url_safe_decode(token) {
            Some(t) => vec_u8_eq(&t, &self.0),
            None => false,
        }
    }

    /// The token as it is written into forms and the cookie. The second
    /// clause is the token's round trip: by `verify`'s contract, checking the
    /// returned string against this token succeeds.
    pub fn to_string(&self) -> (r: String)
        ensures
            r@ == base64_url_safe_encoded(self@),
            base64_url_safe_decoded(r@) == Some(self@),
    {
        base64_url_safe_encode(self.0.as_slice())
    }
}

/// Byte-wise equality of two byte vectors.
pub fn vec_u8_eq(a: &Vec<u8>, b: &Vec<u8>) -> (r: bool)
    ensures
        r == (a@ == b@),
{
    if a.len() != b.len() {
        return false;
    }
    let mut i: usize = 0;
    while i < a.len()
        invariant
            a.len() == b.len(),
            i <= a.len(),
            forall|j: int| 0 <= j < i ==> a@[j] == b@[j],
        decreases a.len() - i,
    {
        if a[i] != b[i] {
            return false;
        }
        i = i + 1;
    }
    assert(a@ =~= b@);
    true
}


/// How many random bytes a fresh token holds.
pub const TOKEN_BYTES: usize = 64usize;

impl CSRFToken {
    /// A fresh token of random bytes.
    pub fn generate() -> (t: CSRFToken)
        ensures
            t@.len() == TOKEN_BYTES,
    {
        CSRFToken(random_bytes(TOKEN_BYTES))
    }

    /// The token of a request, and the cookie value to set when a fresh one
    /// had to be drawn: the token read from the cookies if there is one,
    /// else a fresh token whose cookie value reads back as it.
    pub fn from_request(private: Option<&str>, pending: Option<&str>) -> (r: (CSRFToken, Option<String>))
        ensures
            match spec_chosen_cookie(opt_str_view(private), opt_str_view(pending)) {
                Some(c) if base64_url_safe_decoded(c) is Some => r.1 is None && Some(r.0@) == base64_url_safe_decoded(c),
                _ => r.0@.len() == TOKEN_BYTES && (r.1 matches Some(v) && v@ == base64_url_safe_encoded(r.0@)
                    && base64_url_safe_decoded(v@) == Some(r.0@)),
            },
    {
        match CSRFToken::from_cookies(private, pending) {
            Some(t) => (t, None),
            None => {
                let t = CSRFToken::generate();
                let v = t.to_string();
                (t, Some(v))
            },
        }
    }
}

/// The request hook that makes sure every visitor holds a CSRF token.
pub struct CSRFFairing;

impl CSRFFairing {
    /// The name the hook is registered under.
    pub fn name(&self) -> (r: &'static str)
        ensures
            r@ == "CSRF"@,
    {
        "CSRF"
    }

    /// The `csrf_token` cookie value to set at the start of a request: none
    /// when the private cookie already holds a token that decodes, else the
    /// encoding of a fresh token.
    pub fn cookie_to_set(&self, private: Option<&str>) -> (r: Option<String>)
        ensures
            r is Some == match private {
                Some(c) => base64_url_safe_decoded(c@) is None,
                None => true,
            },
            r matches Some(v) ==> exists|b: Seq<u8>| b.len() == TOKEN_BYTES && #[trigger] base64_url_safe_decoded(v@) == Some(b),
    {
        if CSRFToken::needs_new_cookie(private) {
            let t = CSRFToken::generate();
            let v = t.to_string();
            proof {
                assert(t@.len() == TOKEN_BYTES && base64_url_safe_decoded(v@) == Some(t@));
            }
            Some(v)
        } else {
            None
        }
    }
}

/// The response hook that opens the API to other origins.
pub struct CORS;

impl CORS {
    /// The name the hook is registered under.
    pub fn name(&self) -> (r: &'static str)
        ensures
            r@ == "CORS"@,
    {
        "CORS"
    }

    /// The headers set on every response: any origin, the methods the API
    /// uses, any header, and credentials.
    pub fn headers(&self) -> (r: Vec<(&'static str, &'static str)>)
        ensures
            r@.len() == 4,
            r@[0].0@ == "Access-Control-Allow-Origin"@ && r@[0].1@ == "*"@,
            r@[1].0@ == "Access-Control-Allow-Methods"@ && r@[1].1@ == "POST, GET, PATCH, OPTIONS"@,
            r@[2].0@ == "Access-Control-Allow-Headers"@ && r@[2].1@ == "*"@,
            r@[3].0@ == "Access-Control-Allow-Credentials"@ && r@[3].1@ == "true"@,
    {
        let mut v: Vec<(&'static str, &'static str)> = Vec::new();
        v.push(("Access-Control-Allow-Origin", "*"));
        v.push(("Access-Control-Allow-Methods", "POST, GET, PATCH, OPTIONS"));
        v.push(("Access-Control-Allow-Headers", "*"));
        v.push(("Access-Control-Allow-Credentials", "true"));
        v
    }
}

} // verus!
