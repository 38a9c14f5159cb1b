//! Bearer tokens as JSON web tokens signed with HMAC-SHA-512, through the
//! `jwt-simple` crate.
use std::collections::HashMap;
use vstd::prelude::*;
use jwt_simple::algorithms::{HS512Key, MACLike};
use jwt_simple::claims::{Audiences, JWTClaims};
use jwt_simple::prelude::Duration;
use crate::text::{opt_view, strings_view};

verus! {

/// What signing these claims with `jwt_simple::algorithms::HS512Key` made
/// from `key` gives: the issuer, subject and audience (one string), the
/// not-before and issued-at times (seconds since the Unix epoch), the token
/// id, no expiry, and a `scopes` claim.
pub uninterp spec fn jwt_hs512_token(
    key: Seq<u8>, issuer: Seq<char>, subject: Seq<char>, audience: Seq<char>,
    not_before: u64, issued_at: u64, jwt_id: Seq<char>, scopes: Seq<Seq<char>>,
) -> Seq<char>;

/// Signs a token (`HS512Key::from_bytes`, `MACLike::authenticate`); `None`
/// where the crate reports an error. The contract names a signed token and
/// claims that the crate refuses exactly the keys shorter than 12 bytes: its
/// only other failures are serialising these claims to JSON and encoding
/// them in base64, which cannot fail on strings and integers held in memory.
#[verifier::external_body]
pub(crate) fn jwt_sign_hs512(
    key: &[u8], issuer: &str, subject: &str, audience: &str,
    not_before: u64, issued_at: u64, jwt_id: &str, scopes: &Vec<String>,
) -> (r: Option<String>)
    ensures
        r is Some <==> key@.len() >= 12,
        r matches Some(t) ==> t@ == jwt_hs512_token(key@, issuer@, subject@, audience@, not_before, issued_at,
            jwt_id@, strings_view(scopes@)),
{
    let custom = HashMap::from([("scopes".to_owned(), scopes.clone())]);
    let claims = JWTClaims {
        issuer: Some(issuer.to_owned()),
        subject: Some(subject.to_owned()),
        audiences: Some(Audiences::AsString(audience.to_owned())),
        invalid_before: Some(Duration::from_secs(not_before)),
        issued_at: Some(Duration::from_secs(issued_at)),
        expires_at: None,
        nonce: None,
        jwt_id: Some(jwt_id.to_owned()),
        custom,
    };
    HS512Key::from_bytes(key).authenticate(claims).ok()
}

/// The claims of a token that passed the signature and time checks, as the
/// crate gives them.
pub struct VerifiedClaims {
    pub issuer: Option<String>,
    pub subject: Option<String>,
    /// `None` without an audience; `Some(None)` when the token names more
    /// than one.
    pub audience: Option<Option<String>>,
    pub not_before: Option<u64>,
    pub issued_at: Option<u64>,
    pub jwt_id: Option<String>,
    pub scopes: Option<Vec<String>>,
}

/// Whether verified claims are exactly those given: the issuer, subject,
/// the one audience, the not-before and issued-at times, the token id and
/// the `scopes` claim.
pub open spec fn claims_match(
    c: VerifiedClaims, issuer: Seq<char>, subject: Seq<char>, audience: Seq<char>,
    not_before: u64, issued_at: u64, jwt_id: Seq<char>, scopes: Seq<Seq<char>>,
) -> bool {
    &&& opt_view(c.issuer) == Some(issuer)
    &&& opt_view(c.subject) == Some(subject)
    &&& (c.audience matches Some(Some(a)) && a@ == audience)
    &&& c.not_before == Some(not_before)
    &&& c.issued_at == Some(issued_at)
    &&& opt_view(c.jwt_id) == Some(jwt_id)
    &&& (c.scopes matches Some(v) && strings_view(v@) == scopes)
}

/// Checks a token (`HS512Key::verify_token`) against the key, for the one
/// allowed audience, refusing tokens from the future; `None` where the crate
/// reports an error (`reject_before` unset and future tokens refused, as the
/// crate's defaults have it). The checks depend on the current time, so
/// whether a token is accepted is not claimed; the contract claims only what
/// the crate's source shows of every accepted token: the key has at least 12
/// bytes, and the token names an audience that includes the allowed one, so
/// that the audience handed back, where it is a single one, is that one.
/// Last, what the crate's source shows of a token that `jwt_sign_hs512`
/// made with the same key: its header and claims are read back as they were
/// written (JSON strings and numbers, the one audience as a string, the
/// custom claims flattened beside the registered ones), so an accepted such
/// token gives back the signed claims. The times are held by `coarsetime`
/// in 32.32 fixed point, so this holds for times below 2^32 seconds.
#[verifier::external_body]
pub(crate) fn jwt_verify_hs512(key: &[u8], token: &str, audience: &str) -> (r: Option<VerifiedClaims>)
    ensures
        r is Some ==> key@.len() >= 12,
        r matches Some(c) ==> c.audience is Some,
        r matches Some(c) ==> (c.audience matches Some(Some(a)) ==> a@ == audience@),
        forall|i: Seq<char>, s: Seq<char>, a: Seq<char>, nb: u64, ia: u64, j: Seq<char>, sc: Seq<Seq<char>>|
            #![trigger jwt_hs512_token(key@, i, s, a, nb, ia, j, sc)]
            token@ == jwt_hs512_token(key@, i, s, a, nb, ia, j, sc) && nb < 0x1_0000_0000u64
                && ia < 0x1_0000_0000u64 && r is Some
                ==> claims_match(r->0, i, s, a, nb, ia, j, sc),
{
    let allowed = std::collections::HashSet::from([audience.to_owned()]);
    let options = jwt_simple::common::VerificationOptions { allowed_audiences: Some(allowed), ..Default::default() };
    let verified = HS512Key::from_bytes(key).verify_token::<HashMap<String, Vec<String>>>(token, Some(options));
    let mut c = verified.ok()?;
    Some(VerifiedClaims {
        issuer: c.issuer,
        subject: c.subject,
        audience: c.audiences.map(|a| a.into_string().ok()),
        not_before: c.invalid_before.map(|d| d.as_secs()),
        issued_at: c.issued_at.map(|d| d.as_secs()),
        jwt_id: c.jwt_id,
        scopes: c.custom.remove("scopes"),
    })
}

} // verus!
