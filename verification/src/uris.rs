//! Absolute URIs, through Rocket's URI parser.
use vstd::prelude::*;

verus! {

/// What parsing `s` with `rocket::http::uri::Absolute::parse`, normalizing
/// it with `into_normalized` and rendering it with `to_string` gives (`None`
/// where the string is no absolute URI).
pub uninterp spec fn absolute_uri_normalized(s: Seq<char>) -> Option<Seq<char>>;

/// The scheme of `s` as `Absolute::parse(s)` reads it (`None` where the
/// string is no absolute URI).
pub uninterp spec fn absolute_uri_scheme(s: Seq<char>) -> Option<Seq<char>>;

/// Parses an absolute URI and renders its normalized form
/// (`Absolute::parse`, `into_normalized`, `to_string`); the contract names
/// the result.
#[verifier::external_body]
pub(crate) fn normalize_absolute_uri(s: &str) -> (r: Option<String>)
    ensures
        match r {
            Some(v) => absolute_uri_normalized(s@) == Some(v@),
            None => absolute_uri_normalized(s@) is None,
        },
{
    match rocket::http::uri::Absolute::parse(s) {
        Ok(u) => Some(u.into_normalized().to_string()),
        Err(_) => None,
    }
}

/// Parses an absolute URI and gives its scheme (`Absolute::parse`,
/// `scheme`). Besides naming the result, the contract claims that it comes
/// from the same parse as `normalize_absolute_uri`: both fail on the same
/// strings.
#[verifier::external_body]
pub(crate) fn absolute_uri_scheme_of(s: &str) -> (r: Option<String>)
    ensures
        match r {
            Some(v) => absolute_uri_scheme(s@) == Some(v@),
            None => absolute_uri_scheme(s@) is None,
        },
        r is Some <==> absolute_uri_normalized(s@) is Some,
{
    match rocket::http::uri::Absolute::parse(s) {
        Ok(u) => Some(u.scheme().to_string()),
        Err(_) => None,
    }
}


/// What `url::Url::parse(s)` gives, as its serialization (`None` where the
/// crate reports a `ParseError`). URLs of the crate compare as their
/// serializations do.
pub uninterp spec fn url_serialized(s: Seq<char>) -> Option<Seq<char>>;

/// What parsing `url` with `url::Url::parse`, appending `pairs` to its query
/// with `query_pairs_mut().extend_pairs` and serializing it gives (`None`
/// where `url` does not parse).
pub uninterp spec fn url_with_query(url: Seq<char>, pairs: Seq<(Seq<char>, Seq<char>)>) -> Option<Seq<char>>;

/// Calls `url::Url::parse` and serializes the result; the contract names it.
#[verifier::external_body]
pub(crate) fn parse_url(s: &str) -> (r: Option<String>)
    ensures
        match r {
            Some(v) => url_serialized(s@) == Some(v@),
            None => url_serialized(s@) is None,
        },
{
    match url::Url::parse(s) {
        Ok(u) => Some(u.to_string()),
        Err(_) => None,
    }
}

/// Parses `url`, appends `pairs` to its query (form-urlencoded, in order)
/// and serializes it; the contract names the result.
#[verifier::external_body]
pub(crate) fn append_query_pairs(url: &str, pairs: &Vec<(String, String)>) -> (r: Option<String>)
    ensures
        match r {
            Some(v) => url_with_query(url@, crate::signature::pairs_view(pairs@)) == Some(v@),
            None => url_with_query(url@, crate::signature::pairs_view(pairs@)) is None,
        },
{
    match url::Url::parse(url) {
        Ok(mut u) => {
            u.query_pairs_mut().extend_pairs(pairs.iter().map(|p| (p.0.as_str(), p.1.as_str())));
            Some(u.to_string())
        },
        Err(_) => None,
    }
}


/// What `url::Url::parse(s)` gives as the URL's domain (`None` where `s`
/// does not parse or the URL has no domain, such as an IP address host).
pub uninterp spec fn url_domain(s: Seq<char>) -> Option<Seq<char>>;

/// Parses a URL and gives its domain (`Url::parse`, `domain`); the contract
/// names the result, and claims that there is a domain only where the
/// string parses.
#[verifier::external_body]
pub(crate) fn domain_of_url(s: &str) -> (r: Option<String>)
    ensures
        match r {
            Some(d) => url_domain(s@) == Some(d@),
            None => url_domain(s@) is None,
        },
        r is Some ==> url_serialized(s@) is Some,
{
    match url::Url::parse(s) {
        Ok(u) => match u.domain() {
            Some(d) => Some(d.to_string()),
            None => None,
        },
        Err(_) => None,
    }
}


/// What `url::Url::parse(s)` gives as the URL's host, as text (`None`
/// where `s` does not parse or the URL has no host).
pub uninterp spec fn url_host(s: Seq<char>) -> Option<Seq<char>>;

/// Parses a URL and gives its host as text (`Url::parse`, `host_str`); the
/// contract names the result.
#[verifier::external_body]
pub(crate) fn host_of_url(s: &str) -> (r: Option<String>)
    ensures
        match r {
            Some(h) => url_host(s@) == Some(h@),
            None => url_host(s@) is None,
        },
{
    match url::Url::parse(s) {
        Ok(u) => match u.host_str() {
            Some(h) => Some(h.to_string()),
            None => None,
        },
        Err(_) => None,
    }
}

} // verus!
