//! Delivering activities to other servers: the headers of the signed
//! requests the server sends.
use vstd::prelude::*;
use crate::activity_streams::{best_digest, digest_entry, spec_digest_algorithm};
use crate::crypto::{DigestAlgorithm, hash_bytes, message_digest};
use crate::encoding::{base64_standard_encode, base64_standard_encoded, base64_standard_decoded};
use crate::text::{append_str, first_index_of, spec_split_once};
use crate::uris::{host_of_url, url_host};

verus! {

/// The `Digest` header of a SHA-256 digest `d`: `SHA-256=` and its base64.
pub open spec fn sha256_digest_header_text(d: Seq<u8>) -> Seq<char> {
    "SHA-256="@ + base64_standard_encoded(d)
}

/// The `Digest` header of a body: `SHA-256=` and the base64 of its SHA-256.
pub open spec fn digest_header_text(body: Seq<u8>) -> Seq<char> {
    sha256_digest_header_text(message_digest(DigestAlgorithm::SHA256, body))
}

proof fn lemma_no_equals_in_name()
    ensures
        first_index_of("SHA-256="@, '=') == Some(7int),
        spec_digest_algorithm("SHA-256"@) == Some(DigestAlgorithm::SHA256),
{
    reveal_strlit("SHA-256=");
    reveal_strlit("SHA-256");
    reveal_strlit("SHA-512");
    assert("SHA-256"@.len() == 7 && "SHA-512"@.len() == 7);
    assert("SHA-256"@[4] != "SHA-512"@[4]);
    reveal_with_fuel(first_index_of, 9);
}

/// The `Digest` header of a SHA-256 digest `d`. The receiving side's
/// `select_digest` picks its SHA-256 entry, whose value decodes to `d`.
pub fn digest_header_for(d: &[u8]) -> (r: String)
    ensures
        r@ == sha256_digest_header_text(d@),
        best_digest(seq![r@]) == Some((DigestAlgorithm::SHA256, base64_standard_encoded(d@))),
        base64_standard_decoded(base64_standard_encoded(d@)) == Some(d@),
{
    let enc = base64_standard_encode(d);
    let mut h = "SHA-256=".to_owned();
    append_str(&mut h, enc.as_str());
    proof {
        let e = enc@;
        lemma_no_equals_in_name();
        reveal_strlit("SHA-256=");
        reveal_strlit("SHA-256");
        let hv = h@;
        assert(hv =~= "SHA-256="@ + e);
        lemma_first_index_prefix("SHA-256="@, e, '=');
        assert(hv.take(7) =~= "SHA-256"@);
        assert(hv.skip(8) =~= e);
        assert(spec_split_once(hv, '=') == Some(("SHA-256"@, e)));
        assert(digest_entry(hv) == Some((DigestAlgorithm::SHA256, e)));
        assert(seq![hv].drop_last() =~= Seq::<Seq<char>>::empty());
        reveal_with_fuel(best_digest, 2);
        assert(best_digest(seq![hv]) == Some((DigestAlgorithm::SHA256, e)));
    }
    h
}

/// The `Digest` header of a body; `None` where OpenSSL could not hash it.
/// The second clause is the law that ties sending to receiving: the
/// receiving side's `select_digest` picks this header's SHA-256 entry, and
/// its value decodes to the body's SHA-256, so `check_body_digest` accepts
/// the body.
pub fn digest_header(body: &[u8]) -> (r: Option<String>)
    ensures
        r matches Some(h) ==> {
            &&& h@ == digest_header_text(body@)
            &&& best_digest(seq![h@]) == Some((DigestAlgorithm::SHA256,
                base64_standard_encoded(message_digest(DigestAlgorithm::SHA256, body@))))
            &&& base64_standard_decoded(base64_standard_encoded(message_digest(DigestAlgorithm::SHA256, body@)))
                == Some(message_digest(DigestAlgorithm::SHA256, body@))
        },
{
    match hash_bytes(DigestAlgorithm::SHA256, body) {
        Some(d) => Some(digest_header_for(d.as_slice())),
        None => None,
    }
}

proof fn lemma_first_index_prefix(a: Seq<char>, b: Seq<char>, c: char)
    requires
        first_index_of(a, c) is Some,
    ensures
        first_index_of(a + b, c) == first_index_of(a, c),
    decreases a.len(),
{
    assert((a + b)[0] == a[0]);
    if a[0] != c {
        assert((a + b).drop_first() =~= a.drop_first() + b);
        lemma_first_index_prefix(a.drop_first(), b, c);
    }
}

/// Why an activity could not be prepared for delivery.
#[derive(Clone, Copy, PartialEq, Eq, Debug)]
pub enum DeliveryError {
    /// The inbox URL does not parse or has no host.
    InvalidInbox,
    /// The body could not be hashed.
    HashFailed,
}

pub open spec fn header_pairs_view(v: Seq<(String, Vec<u8>)>) -> Seq<(Seq<char>, Seq<u8>)> {
    Seq::new(v.len(), |i: int| (v[i].0@, v[i].1@))
}

/// The headers of a delivery to `inbox` at `date` of a body whose SHA-256
/// is `digest` (`None` where it could not be computed): `Host` (the inbox's
/// host), `Date`, `Digest` and the ActivityStreams `Content-Type`, in that
/// order, as the bytes of their text.
pub fn delivery_headers_for(inbox: &str, digest: Option<Vec<u8>>, date: &str) -> (r: Result<Vec<(String, Vec<u8>)>, DeliveryError>)
    ensures
        url_host(inbox@) is None ==> r == Err::<Vec<(String, Vec<u8>)>, DeliveryError>(DeliveryError::InvalidInbox),
        url_host(inbox@) is Some && digest is None ==> r == Err::<Vec<(String, Vec<u8>)>, DeliveryError>(DeliveryError::HashFailed),
        url_host(inbox@) is Some && digest is Some ==> r is Ok,
        r matches Ok(hs) ==> ({
            let v = header_pairs_view(hs@);
            &&& v.len() == 4
            &&& v[0].0 == "Host"@ && v[0].1 == vstd::utf8::encode_utf8(url_host(inbox@)->0)
            &&& v[1].0 == "Date"@ && v[1].1 == vstd::utf8::encode_utf8(date@)
            &&& v[2].0 == "Digest"@ && v[2].1 == vstd::utf8::encode_utf8(sha256_digest_header_text(digest->0@))
            &&& v[3].0 == "Content-Type"@ && v[3].1 == vstd::utf8::encode_utf8(
                "application/ld+json; profile=\"https://www.w3.org/ns/activitystreams\""@)
        }),
{
    let host = match host_of_url(inbox) {
        Some(h) => h,
        None => return Err(DeliveryError::InvalidInbox),
    };
    let d = match digest {
        Some(d) => d,
        None => return Err(DeliveryError::HashFailed),
    };
    let digest_text = digest_header_for(d.as_slice());
    let mut hs: Vec<(String, Vec<u8>)> = Vec::new();
    hs.push(("Host".to_owned(), vstd::slice::slice_to_vec(host.as_str().as_bytes())));
    hs.push(("Date".to_owned(), vstd::slice::slice_to_vec(date.as_bytes())));
    hs.push(("Digest".to_owned(), vstd::slice::slice_to_vec(digest_text.as_str().as_bytes())));
    hs.push(("Content-Type".to_owned(),
        vstd::slice::slice_to_vec("application/ld+json; profile=\"https://www.w3.org/ns/activitystreams\"".as_bytes())));
    Ok(hs)
}

/// The headers of a delivery of `body` to `inbox` at `date`: those of
/// `delivery_headers_for` with the body's SHA-256, or with none where
/// OpenSSL could not compute it.
pub fn delivery_headers(inbox: &str, body: &[u8], date: &str) -> (r: Result<Vec<(String, Vec<u8>)>, DeliveryError>)
    ensures
        url_host(inbox@) is None ==> r == Err::<Vec<(String, Vec<u8>)>, DeliveryError>(DeliveryError::InvalidInbox),
        r is Err ==> (r == Err::<Vec<(String, Vec<u8>)>, DeliveryError>(DeliveryError::InvalidInbox) && url_host(inbox@) is None)
            || r == Err::<Vec<(String, Vec<u8>)>, DeliveryError>(DeliveryError::HashFailed),
        r matches Ok(hs) ==> ({
            let v = header_pairs_view(hs@);
            &&& url_host(inbox@) is Some
            &&& v.len() == 4
            &&& v[0].0 == "Host"@ && v[0].1 == vstd::utf8::encode_utf8(url_host(inbox@)->0)
            &&& v[1].0 == "Date"@ && v[1].1 == vstd::utf8::encode_utf8(date@)
            &&& v[2].0 == "Digest"@ && v[2].1 == vstd::utf8::encode_utf8(digest_header_text(body@))
            &&& v[3].0 == "Content-Type"@ && v[3].1 == vstd::utf8::encode_utf8(
                "application/ld+json; profile=\"https://www.w3.org/ns/activitystreams\""@)
        }),
{
    let digest = hash_bytes(DigestAlgorithm::SHA256, body);
    delivery_headers_for(inbox, digest, date)
}

/// The id of the server's own key, used to sign the requests it fetches
/// objects with.
pub fn system_key_id(uri: &str) -> (r: String)
    ensures
        r@ == "https://"@ + uri@ + "/as/system#key"@,
{
    let mut s = "https://".to_owned();
    append_str(&mut s, uri);
    append_str(&mut s, "/as/system#key");
    s
}

/// The headers of a fetch of `url` at `date`: `Host` (the URL's host) and
/// `Date`; `None` where the URL does not parse or has no host.
pub fn fetch_headers(url: &str, date: &str) -> (r: Option<Vec<(String, Vec<u8>)>>)
    ensures
        r is Some <==> url_host(url@) is Some,
        r matches Some(hs) ==> ({
            let v = header_pairs_view(hs@);
            &&& v.len() == 2
            &&& v[0].0 == "Host"@ && v[0].1 == vstd::utf8::encode_utf8(url_host(url@)->0)
            &&& v[1].0 == "Date"@ && v[1].1 == vstd::utf8::encode_utf8(date@)
        }),
{
    let host = match host_of_url(url) {
        Some(h) => h,
        None => return None,
    };
    let mut hs: Vec<(String, Vec<u8>)> = Vec::new();
    hs.push(("Host".to_owned(), vstd::slice::slice_to_vec(host.as_str().as_bytes())));
    hs.push(("Date".to_owned(), vstd::slice::slice_to_vec(date.as_bytes())));
    Some(hs)
}

} // verus!
