//! Searching: the checks on a search request, the account address that a
//! term is resolved through, and the patterns that accounts are matched
//! with.
use vstd::prelude::*;
use crate::meta::JRDLink;
use crate::oauth::{spec_has_scope, TokenClaims};
use crate::text::{append_str, capture_group, opt_str_view, opt_view, push_char, regex_group, str_eq};
use crate::uris::{domain_of_url, parse_url, url_domain, url_serialized};
use crate::views::{parse_bool, spec_parse_bool};

verus! {

/// The most accounts one search may ask for.
pub const MAX_SEARCH_LIMIT: u64 = 50;

/// What a search asks for.
#[derive(Clone, Copy, Debug, PartialEq, Eq, Structural)]
pub struct SearchOptions {
    pub limit: u64,
    pub following: bool,
    pub resolve: bool,
}

/// The checks on a search, in order: the limit (20 where none is given)
/// may be at most 50, `following` and `resolve` must be booleans (false
/// where absent) — each else a bad request (400) —, and resolving remote
/// accounts needs a signed-in user (else 403).
pub open spec fn spec_search_options(
    limit: Option<u64>, following: Option<Seq<char>>, resolve: Option<Seq<char>>, signed_in: bool,
) -> Result<SearchOptions, u16> {
    let l: u64 = match limit {
        Some(l) => l,
        None => 20,
    };
    if l > MAX_SEARCH_LIMIT {
        Err(400)
    } else {
        match spec_parse_bool(following, false) {
            None => Err(400),
            Some(f) => match spec_parse_bool(resolve, false) {
                None => Err(400),
                Some(r) => if r && !signed_in {
                    Err(403)
                } else {
                    Ok(SearchOptions { limit: l, following: f, resolve: r })
                },
            },
        }
    }
}

/// Checks the parameters of a search.
pub fn search_options(
    limit: Option<u64>, following: Option<&str>, resolve: Option<&str>, signed_in: bool,
) -> (r: Result<SearchOptions, u16>)
    ensures
        r == spec_search_options(limit, opt_str_view(following), opt_str_view(resolve), signed_in),
{
    let l: u64 = match limit {
        Some(l) => l,
        None => 20,
    };
    if l > MAX_SEARCH_LIMIT {
        return Err(400);
    }
    let f = match parse_bool(following, false) {
        Ok(b) => b,
        Err(_) => return Err(400),
    };
    let r = match parse_bool(resolve, false) {
        Ok(b) => b,
        Err(_) => return Err(400),
    };
    if r && !signed_in {
        return Err(403);
    }
    Ok(SearchOptions { limit: l, following: f, resolve: r })
}

/// The pattern of an account address in a search term: an optional `@`,
/// then the address (`acct`) whose part after its last `@` is the domain.
pub open spec fn webfinger_pattern() -> Seq<char> {
    "@?(?P<acct>.+@(?P<domain>.+))"@
}

/// The domain a term is resolved at, and the resource asked for there: a
/// term that parses as a URL gives its domain (none for a URL without one)
/// and itself as the URL serializes; any other term that holds an account
/// address gives the address's domain and the address.
pub open spec fn spec_resolve_target(q: Seq<char>) -> Option<(Seq<char>, Seq<char>)> {
    match url_serialized(q) {
        Some(u) => match url_domain(q) {
            Some(d) => Some((d, u)),
            None => None,
        },
        None => match (regex_group(webfinger_pattern(), q, "domain"@), regex_group(webfinger_pattern(), q, "acct"@)) {
            (Some(d), Some(a)) => Some((d, a)),
            _ => None,
        },
    }
}

/// Finds where a search term is to be resolved.
pub fn resolve_target(q: &str) -> (r: Option<(String, String)>)
    ensures
        match r {
            Some((d, u)) => spec_resolve_target(q@) == Some((d@, u@)),
            None => spec_resolve_target(q@) is None,
        },
{
    proof {
        reveal_strlit("@?(?P<acct>.+@(?P<domain>.+))");
        reveal_strlit("domain");
        reveal_strlit("acct");
    }
    match parse_url(q) {
        Some(u) => match domain_of_url(q) {
            Some(d) => Some((d, u)),
            None => None,
        },
        None => {
            let domain = capture_group("@?(?P<acct>.+@(?P<domain>.+))", q, "domain");
            let acct = capture_group("@?(?P<acct>.+@(?P<domain>.+))", q, "acct");
            match (domain, acct) {
                (Some(d), Some(a)) => Some((d, a)),
                _ => None,
            }
        },
    }
}

/// The WebFinger URL that looks `resource` up at `domain` (the resource is
/// put in as it is).
pub fn webfinger_url(domain: &str, resource: &str) -> (r: String)
    ensures
        r@ == "https://"@ + domain@ + "/.well-known/webfinger?resource="@ + resource@,
{
    let mut s = "https://".to_owned();
    append_str(&mut s, domain);
    append_str(&mut s, "/.well-known/webfinger?resource=");
    append_str(&mut s, resource);
    s
}

/// Whether a link of a JRD points at an ActivityStreams actor.
pub open spec fn is_actor_link(l: JRDLink) -> bool {
    l.rel@ == "self"@ && opt_view(l.type_) == Some("application/activity+json"@)
}

/// The first link of a JRD that points at an ActivityStreams actor.
pub open spec fn first_actor_link(links: Seq<JRDLink>) -> Option<int>
    decreases links.len(),
{
    if links.len() == 0 {
        None
    } else if is_actor_link(links[0]) {
        Some(0)
    } else {
        match first_actor_link(links.drop_first()) {
            Some(i) => Some(i + 1),
            None => None,
        }
    }
}

proof fn lemma_first_actor_link(links: Seq<JRDLink>)
    ensures
        match first_actor_link(links) {
            Some(i) => 0 <= i < links.len() && is_actor_link(links[i])
                && forall|j: int| 0 <= j < i ==> !is_actor_link(#[trigger] links[j]),
            None => forall|j: int| 0 <= j < links.len() ==> !is_actor_link(#[trigger] links[j]),
        },
    decreases links.len(),
{
    if links.len() > 0 && !is_actor_link(links[0]) {
        let t = links.drop_first();
        lemma_first_actor_link(t);
        match first_actor_link(t) {
            Some(k) => {
                assert(links[k + 1] == t[k]);
                assert forall|j: int| 0 <= j < k + 1 implies !is_actor_link(#[trigger] links[j]) by {
                    if j > 0 {
                        assert(links[j] == t[j - 1]);
                    }
                }
            },
            None => {
                assert forall|j: int| 0 <= j < links.len() implies !is_actor_link(#[trigger] links[j]) by {
                    if j > 0 {
                        assert(links[j] == t[j - 1]);
                    }
                }
            },
        }
    }
}

/// The actor IRI a WebFinger answer names: the target of its first actor
/// link. The caller makes sure that this link has a target.
pub fn actor_link(links: &Vec<JRDLink>) -> (r: Option<String>)
    requires
        match first_actor_link(links@) {
            Some(i) => links@[i].href is Some,
            None => true,
        },
    ensures
        match first_actor_link(links@) {
            Some(i) => opt_view(r) == opt_view(links@[i].href),
            None => r is None,
        },
{
    proof {
        reveal_strlit("self");
        reveal_strlit("application/activity+json");
    }
    let mut i: usize = 0;
    while i < links.len()
        invariant
            i <= links.len(),
            forall|j: int| 0 <= j < i ==> !is_actor_link(#[trigger] links@[j]),
        decreases links.len() - i,
    {
        let l = &links[i];
        let is_actor = str_eq(l.rel.as_str(), "self") && match &l.type_ {
            Some(t) => str_eq(t.as_str(), "application/activity+json"),
            None => false,
        };
        if is_actor {
            proof {
                lemma_first_actor_link(links@);
                assert(is_actor_link(links@[i as int]));
                assert(first_actor_link(links@) == Some(i as int));
            }
            return match &l.href {
                Some(h) => Some(h.clone()),
                None => None,
            };
        }
        i = i + 1;
    }
    proof {
        lemma_first_actor_link(links@);
    }
    None
}

/// Whether the token may search: it needs the `read:search` scope (else
/// 403). Anonymous searches are let through.
pub fn search_access(claims: Option<&TokenClaims>) -> (r: Result<(), u16>)
    ensures
        r == (match claims {
            Some(c) => if spec_has_scope(c.scope_names(), "read:search"@) { Ok(()) } else { Err(403) },
            None => Ok::<(), u16>(()),
        }),
{
    proof {
        reveal_strlit("read:search");
    }
    match claims {
        Some(c) => if c.has_scope("read:search") {
            Ok(())
        } else {
            Err(403)
        },
        None => Ok(()),
    }
}

/// Whose follows a search is restricted to: the viewer's when it asks for
/// followed accounts only; an anonymous search cannot ask that (403).
pub fn only_following(viewer: Option<u128>, following: bool) -> (r: Result<Option<u128>, u16>)
    ensures
        r == (match viewer {
            Some(v) => Ok::<Option<u128>, u16>(if following { Some(v) } else { None }),
            None => if following { Err(403) } else { Ok(None) },
        }),
{
    match viewer {
        Some(v) => Ok(if following { Some(v) } else { None }),
        None => if following {
            Err(403)
        } else {
            Ok(None)
        },
    }
}

/// Whether a search of this type looks for accounts: all searches do but
/// those restricted to another type.
pub fn searches_accounts(type_: Option<&str>) -> (r: bool)
    ensures
        r == (match opt_str_view(type_) {
            Some(t) => t == "accounts"@,
            None => true,
        }),
{
    proof {
        reveal_strlit("accounts");
    }
    match type_ {
        Some(t) => str_eq(t, "accounts"),
        None => true,
    }
}

/// A term with the wildcards of SQL `LIKE` (`%` and `_`) escaped by a
/// backslash.
pub open spec fn escape_like(s: Seq<char>) -> Seq<char>
    decreases s.len(),
{
    if s.len() == 0 {
        Seq::empty()
    } else {
        let rest = escape_like(s.drop_last());
        let c = s.last();
        if c == '%' || c == '_' {
            rest.push('\\').push(c)
        } else {
            rest.push(c)
        }
    }
}

/// The patterns accounts are matched with: the escaped term anywhere in a
/// name, and at its start (those sort first).
pub fn like_patterns(q: &str) -> (r: (String, String))
    ensures
        r.0@ == seq!['%'] + escape_like(q@) + seq!['%'],
        r.1@ == escape_like(q@) + seq!['%'],
{
    let mut e = String::new();
    let n = q.unicode_len();
    let mut i: usize = 0;
    while i < n
        invariant
            n == q@.len(),
            i <= n,
            e@ == escape_like(q@.take(i as int)),
        decreases n - i,
    {
        let c = q.get_char(i);
        proof {
            assert(q@.take(i + 1).drop_last() =~= q@.take(i as int));
            assert(q@.take(i + 1).last() == c);
        }
        if c == '%' || c == '_' {
            push_char(&mut e, '\\');
        }
        push_char(&mut e, c);
        i = i + 1;
    }
    proof {
        assert(q@.take(n as int) =~= q@);
    }
    let mut anywhere = "%".to_owned();
    append_str(&mut anywhere, e.as_str());
    push_char(&mut anywhere, '%');
    let mut prefix = e;
    push_char(&mut prefix, '%');
    proof {
        reveal_strlit("%");
        assert(anywhere@ =~= seq!['%'] + escape_like(q@) + seq!['%']);
    }
    (anywhere, prefix)
}

} // verus!
