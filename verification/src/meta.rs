//! Discovery documents: NodeInfo discovery and WebFinger (JRD documents).
use std::collections::HashMap;
use vstd::prelude::*;
use crate::text::opt_view;
use crate::text::{append_str, spec_split_once, split_once_char, str_eq};
use crate::ids::{uuid_text, uuid_to_string};

verus! {

/// Extra properties of a JRD document or link; this server sends none.
pub struct JRDProperties {}

/// A link of a JRD document.
pub struct JRDLink {
    pub rel: String,
    pub type_: Option<String>,
    pub href: Option<String>,
    pub titles: Option<HashMap<String, String>>,
    pub properties: Option<JRDProperties>,
}

/// A JSON Resource Descriptor.
pub struct JRD {
    pub subject: String,
    pub aliases: Vec<String>,
    pub properties: Option<JRDProperties>,
    pub links: Vec<JRDLink>,
}

/// A link with the given relation, media type and target, and nothing else.
pub open spec fn link_is(l: JRDLink, rel: Seq<char>, type_: Seq<char>, href: Seq<char>) -> bool {
    &&& l.rel@ == rel
    &&& opt_view(l.type_) == Some(type_)
    &&& opt_view(l.href) == Some(href)
    &&& l.titles is None
    &&& l.properties is None
}

fn make_link(rel: &str, type_: &str, href: String) -> (r: JRDLink)
    ensures
        link_is(r, rel@, type_@, href@),
{
    JRDLink { rel: rel.to_owned(), type_: Some(type_.to_owned()), href: Some(href), titles: None, properties: None }
}

/// `https://{uri}{rest}`.
fn https_url(uri: &str, rest: &str) -> (r: String)
    ensures
        r@ == "https://"@ + uri@ + rest@,
{
    let mut s = "https://".to_owned();
    append_str(&mut s, uri);
    append_str(&mut s, rest);
    s
}

/// The NodeInfo discovery document of the server at `uri`: links to the 2.1
/// and 2.0 documents.
pub fn well_known_node_info(uri: &str) -> (r: JRD)
    ensures
        r.subject@ == uri@,
        r.aliases@.len() == 0,
        r.properties is None,
        r.links@.len() == 2,
        link_is(r.links@[0], "http://nodeinfo.diaspora.software/ns/schema/2.1"@, "application/json"@,
            "https://"@ + uri@ + "/nodeinfo/2.1"@),
        link_is(r.links@[1], "http://nodeinfo.diaspora.software/ns/schema/2.0"@, "application/json"@,
            "https://"@ + uri@ + "/nodeinfo/2.0"@),
{
    let mut links: Vec<JRDLink> = Vec::new();
    links.push(make_link("http://nodeinfo.diaspora.software/ns/schema/2.1", "application/json", https_url(uri, "/nodeinfo/2.1")));
    links.push(make_link("http://nodeinfo.diaspora.software/ns/schema/2.0", "application/json", https_url(uri, "/nodeinfo/2.0")));
    JRD { subject: uri.to_owned(), aliases: Vec::new(), properties: None, links }
}

/// What a WebFinger `resource` asks for.
#[derive(Debug)]
pub enum WebFingerTarget {
    /// Nothing this server knows (404).
    NotFound,
    /// The server's own actor.
    System,
    /// The local account with this user name, if there is one.
    Account(String),
}

/// What a WebFinger `resource` asks for on the server at `uri`: it must read
/// `acct:{user}@{domain}` (split at the first `:` and the first `@`) with
/// `domain` this server; the user name equal to the server's own name is
/// the server's actor.
pub open spec fn spec_webfinger_target(resource: Seq<char>, uri: Seq<char>) -> Option<Option<Seq<char>>> {
    match spec_split_once(resource, ':') {
        None => None,
        Some((scheme, acct)) => if scheme != "acct"@ {
            None
        } else {
            match spec_split_once(acct, '@') {
                None => None,
                Some((user, domain)) => if domain != uri {
                    None
                } else if user == uri {
                    Some(None)
                } else {
                    Some(Some(user))
                },
            }
        },
    }
}

/// Reads a WebFinger `resource`.
pub fn webfinger_target(resource: &str, uri: &str) -> (r: WebFingerTarget)
    ensures
        match spec_webfinger_target(resource@, uri@) {
            None => r is NotFound,
            Some(None) => r is System,
            Some(Some(u)) => r matches WebFingerTarget::Account(name) && name@ == u,
        },
{
    let (scheme, acct) = match split_once_char(resource, ':') {
        Some(p) => p,
        None => return WebFingerTarget::NotFound,
    };
    if !str_eq(scheme.as_str(), "acct") {
        return WebFingerTarget::NotFound;
    }
    let (user, domain) = match split_once_char(acct.as_str(), '@') {
        Some(p) => p,
        None => return WebFingerTarget::NotFound,
    };
    if !str_eq(domain.as_str(), uri) {
        return WebFingerTarget::NotFound;
    }
    if str_eq(user.as_str(), uri) {
        return WebFingerTarget::System;
    }
    WebFingerTarget::Account(user)
}

/// `acct:{user}@{uri}`.
fn acct_uri(user: &str, uri: &str) -> (r: String)
    ensures
        r@ == "acct:"@ + user@ + "@"@ + uri@,
{
    let mut s = "acct:".to_owned();
    append_str(&mut s, user);
    append_str(&mut s, "@");
    append_str(&mut s, uri);
    s
}

/// The WebFinger document of the server's own actor. (Its profile-page
/// relation reads `hhttp://…`, as the server has always sent it.)
pub fn system_jrd(uri: &str) -> (r: JRD)
    ensures
        r.subject@ == "acct:"@ + uri@ + "@"@ + uri@,
        r.aliases@.len() == 0,
        r.properties is None,
        r.links@.len() == 2,
        link_is(r.links@[0], "hhttp://webfinger.net/rel/profile-page"@, "text/html"@, uri@),
        link_is(r.links@[1], "self"@, "application/activity+json"@, "https://"@ + uri@ + "/as/system"@),
{
    let mut links: Vec<JRDLink> = Vec::new();
    links.push(make_link("hhttp://webfinger.net/rel/profile-page", "text/html", uri.to_owned()));
    links.push(make_link("self", "application/activity+json", https_url(uri, "/as/system")));
    JRD { subject: acct_uri(uri, uri), aliases: Vec::new(), properties: None, links }
}

/// The WebFinger document of a local account.
pub fn account_jrd(uri: &str, username: &str, account_id: u128) -> (r: JRD)
    ensures
        r.subject@ == "acct:"@ + username@ + "@"@ + uri@,
        r.aliases@.len() == 0,
        r.properties is None,
        r.links@.len() == 2,
        link_is(r.links@[0], "hhttp://webfinger.net/rel/profile-page"@, "text/html"@,
            "https://"@ + uri@ + "/users/"@ + uuid_text(account_id)),
        link_is(r.links@[1], "self"@, "application/activity+json"@,
            "https://"@ + uri@ + "/as/users/"@ + uuid_text(account_id)),
{
    let id = uuid_to_string(account_id);
    let mut page = https_url(uri, "/users/");
    append_str(&mut page, id.as_str());
    let mut actor = https_url(uri, "/as/users/");
    append_str(&mut actor, id.as_str());
    let mut links: Vec<JRDLink> = Vec::new();
    links.push(make_link("hhttp://webfinger.net/rel/profile-page", "text/html", page));
    links.push(make_link("self", "application/activity+json", actor));
    JRD { subject: acct_uri(username, uri), aliases: Vec::new(), properties: None, links }
}

} // verus!
