//! Timelines and other paginated listings: their query parameters and the
//! links to the next and previous pages.
use vstd::prelude::*;
use crate::text::opt_str_view;
use crate::text::{append_str, decimal, decimal_digits, i32_to_decimal, u64_to_decimal};
use crate::ids::{parse_uuid, uuid_parsed, uuid_text, uuid_to_string};
use crate::views::{ApiFailure, Link, page_limit, parse_bool, spec_page_limit, spec_parse_bool};

verus! {

/// `https://{host}{path}?{param}={id}`.
pub open spec fn page_url(host: Seq<char>, path: Seq<char>, param: Seq<char>, id: i32) -> Seq<char> {
    "https://"@ + host + path + "?"@ + param + "="@ + decimal(id as int)
}

fn make_page_url(host: &str, path: &str, param: &str, id: i32) -> (r: String)
    ensures
        r@ == page_url(host@, path@, param@, id),
{
    let mut s = "https://".to_owned();
    append_str(&mut s, host);
    append_str(&mut s, path);
    append_str(&mut s, "?");
    append_str(&mut s, param);
    append_str(&mut s, "=");
    let d = i32_to_decimal(id);
    append_str(&mut s, d.as_str());
    s
}

/// The links of a page of results whose entries run from `first_id` to
/// `last_id`: `next` (older, `max_id` of the last entry) and `prev` (newer,
/// `min_id` of the first entry); none for an empty page.
pub fn page_links(host: &str, path: &str, first_id: Option<i32>, last_id: Option<i32>) -> (r: Vec<Link>)
    ensures
        r@.len() == (if last_id is Some { 1int } else { 0int }) + (if first_id is Some { 1int } else { 0int }),
        last_id matches Some(l) ==> r@[0].rel@ == "next"@ && r@[0].href@ == page_url(host@, path@, "max_id"@, l),
        first_id matches Some(f) ==> ({
            let k = if last_id is Some { 1int } else { 0int };
            r@[k].rel@ == "prev"@ && r@[k].href@ == page_url(host@, path@, "min_id"@, f)
        }),
{
    let mut links: Vec<Link> = Vec::new();
    match last_id {
        Some(l) => links.push(Link { rel: "next".to_owned(), href: make_page_url(host, path, "max_id", l) }),
        None => {},
    }
    match first_id {
        Some(f) => links.push(Link { rel: "prev".to_owned(), href: make_page_url(host, path, "min_id", f) }),
        None => {},
    }
    links
}

/// The links of a page of the accounts that boosted or favourited the
/// status `status_id` (`listing` is `reblogged_by` or `favourited_by`),
/// newest first: `next` asks for those after the first entry (`min_id`),
/// `prev` for those before the last (`max_id`); none for an empty page.
pub fn reacted_by_links(host: &str, status_id: &str, listing: &str, first_id: Option<i32>, last_id: Option<i32>) -> (r: Vec<Link>)
    ensures
        ({
            let path = "/api/v1/statuses/"@ + status_id@ + "/"@ + listing@;
            &&& r@.len() == (if first_id is Some { 1int } else { 0int }) + (if last_id is Some { 1int } else { 0int })
            &&& first_id matches Some(f) ==> r@[0].rel@ == "next"@ && r@[0].href@ == page_url(host@, path, "min_id"@, f)
            &&& last_id matches Some(l) ==> ({
                let k = if first_id is Some { 1int } else { 0int };
                r@[k].rel@ == "prev"@ && r@[k].href@ == page_url(host@, path, "max_id"@, l)
            })
        }),
{
    let mut path = "/api/v1/statuses/".to_owned();
    append_str(&mut path, status_id);
    append_str(&mut path, "/");
    append_str(&mut path, listing);
    let mut links: Vec<Link> = Vec::new();
    match first_id {
        Some(f) => links.push(Link { rel: "next".to_owned(), href: make_page_url(host, path.as_str(), "min_id", f) }),
        None => {},
    }
    match last_id {
        Some(l) => links.push(Link { rel: "prev".to_owned(), href: make_page_url(host, path.as_str(), "max_id", l) }),
        None => {},
    }
    links
}

/// The checks on a listing of who boosted or favourited a status: a token
/// must grant `read:statuses` (403; `None` without a token), and the limit
/// (40 by default) must not exceed the maximum (400).
pub fn reacted_by_limit(token_grants: Option<bool>, limit: Option<u64>) -> (r: Result<u64, u16>)
    ensures
        r == (if token_grants == Some(false) {
            Err(403u16)
        } else {
            match spec_page_limit(limit, 40) {
                Some(n) => Ok(n),
                None => Err(400u16),
            }
        }),
{
    if token_grants == Some(false) {
        return Err(403);
    }
    match page_limit(limit, 40) {
        Some(n) => Ok(n),
        None => Err(400),
    }
}

/// `https://{host}/api/v1/accounts/{account}/followers?{param}={id}&limit={limit}`.
pub open spec fn followers_url(host: Seq<char>, account: u128, param: Seq<char>, id: i32, limit: u64) -> Seq<char> {
    "https://"@ + host + "/api/v1/accounts/"@ + uuid_text(account) + "/followers?"@ + param + "="@
        + decimal(id as int) + "&limit="@ + decimal_digits(limit as nat)
}

fn make_followers_url(host: &str, account: u128, param: &str, id: i32, limit: u64) -> (r: String)
    ensures
        r@ == followers_url(host@, account, param@, id, limit),
{
    let mut s = "https://".to_owned();
    append_str(&mut s, host);
    append_str(&mut s, "/api/v1/accounts/");
    let a = uuid_to_string(account);
    append_str(&mut s, a.as_str());
    append_str(&mut s, "/followers?");
    append_str(&mut s, param);
    append_str(&mut s, "=");
    let d = i32_to_decimal(id);
    append_str(&mut s, d.as_str());
    append_str(&mut s, "&limit=");
    let l = u64_to_decimal(limit);
    append_str(&mut s, l.as_str());
    s
}

/// The checks on a followers listing: the account must be a UUID (404),
/// and the limit (40 by default) at most 100 (400).
pub fn followers_query(account_id: &str, limit: Option<u64>) -> (r: Result<(u128, u64), u16>)
    ensures
        r == (match uuid_parsed(account_id@) {
            None => Err(404u16),
            Some(a) => {
                let l: u64 = match limit {
                    Some(l) => l,
                    None => 40,
                };
                if l > 100 { Err(400u16) } else { Ok((a, l)) }
            },
        }),
{
    let a = match parse_uuid(account_id) {
        Some(a) => a,
        None => return Err(404),
    };
    let l: u64 = match limit {
        Some(l) => l,
        None => 40,
    };
    if l > 100 {
        Err(400)
    } else {
        Ok((a, l))
    }
}

/// The links of a page of an account's followers (`count` entries, newest
/// first): `next` asks for those after the first entry, and `prev` for
/// those before the last, only when the page is full; both repeat the limit.
pub fn followers_links(host: &str, account: u128, first_id: Option<i32>, last_id: Option<i32>, count: usize, limit: u64) -> (r: Vec<Link>)
    ensures
        ({
            let has_prev = last_id is Some && count == limit as usize;
            &&& r@.len() == (if first_id is Some { 1int } else { 0int }) + (if has_prev { 1int } else { 0int })
            &&& first_id matches Some(f) ==> r@[0].rel@ == "next"@
                && r@[0].href@ == followers_url(host@, account, "min_id"@, f, limit)
            &&& has_prev ==> ({
                let k = if first_id is Some { 1int } else { 0int };
                r@[k].rel@ == "prev"@ && r@[k].href@ == followers_url(host@, account, "max_id"@, last_id->0, limit)
            })
        }),
{
    let mut links: Vec<Link> = Vec::new();
    match first_id {
        Some(f) => links.push(Link { rel: "next".to_owned(), href: make_followers_url(host, account, "min_id", f, limit) }),
        None => {},
    }
    match last_id {
        Some(l) => {
            if count == limit as usize {
                links.push(Link { rel: "prev".to_owned(), href: make_followers_url(host, account, "max_id", l, limit) });
            }
        },
        None => {},
    }
    links
}

/// The filters of a public timeline request.
#[derive(Clone, Copy, Debug, PartialEq, Eq, Structural)]
pub struct PublicTimelineQuery {
    pub local: bool,
    pub remote: bool,
    pub only_media: bool,
    pub limit: u64,
}

/// The checks on a public timeline request, in order: the `local`,
/// `remote` and `only_media` flags must read as booleans (400), a token, if
/// the request has one, must grant `read:statuses` (403), and the limit
/// (20 by default) must not exceed the maximum (400).
pub open spec fn spec_public_timeline_query(
    local: Option<Seq<char>>, remote: Option<Seq<char>>, only_media: Option<Seq<char>>,
    token_grants: Option<bool>, limit: Option<u64>,
) -> Result<PublicTimelineQuery, ApiFailure> {
    match (spec_parse_bool(local, false), spec_parse_bool(remote, false), spec_parse_bool(only_media, false)) {
        (Some(l), Some(r), Some(m)) => if token_grants == Some(false) {
            Err(ApiFailure::NoPermission)
        } else {
            match spec_page_limit(limit, 20) {
                Some(n) => Ok(PublicTimelineQuery { local: l, remote: r, only_media: m, limit: n }),
                None => Err(ApiFailure::LimitTooLarge),
            }
        },
        _ => Err(ApiFailure::InvalidRequest),
    }
}

/// Checks a public timeline request. `token_grants` is whether the
/// request's token grants `read:statuses`, `None` without a token.
pub fn public_timeline_query(
    local: Option<&str>, remote: Option<&str>, only_media: Option<&str>,
    token_grants: Option<bool>, limit: Option<u64>,
) -> (r: Result<PublicTimelineQuery, ApiFailure>)
    ensures
        r == spec_public_timeline_query(opt_str_view(local), opt_str_view(remote), opt_str_view(only_media),
            token_grants, limit),
{
    let l = match parse_bool(local, false) {
        Ok(b) => b,
        Err(()) => return Err(ApiFailure::InvalidRequest),
    };
    let r = match parse_bool(remote, false) {
        Ok(b) => b,
        Err(()) => return Err(ApiFailure::InvalidRequest),
    };
    let m = match parse_bool(only_media, false) {
        Ok(b) => b,
        Err(()) => return Err(ApiFailure::InvalidRequest),
    };
    if token_grants == Some(false) {
        return Err(ApiFailure::NoPermission);
    }
    match page_limit(limit, 20) {
        Some(n) => Ok(PublicTimelineQuery { local: l, remote: r, only_media: m, limit: n }),
        None => Err(ApiFailure::LimitTooLarge),
    }
}

/// The checks on a home timeline request: the token must grant
/// `read:statuses` (403), and the limit (20 by default) must not exceed the
/// maximum (400).
pub fn home_timeline_limit(token_grants: bool, limit: Option<u64>) -> (r: Result<u64, ApiFailure>)
    ensures
        r == (if !token_grants {
            Err(ApiFailure::NoPermission)
        } else {
            match spec_page_limit(limit, 20) {
                Some(n) => Ok(n),
                None => Err(ApiFailure::LimitTooLarge),
            }
        }),
{
    if !token_grants {
        return Err(ApiFailure::NoPermission);
    }
    match page_limit(limit, 20) {
        Some(n) => Ok(n),
        None => Err(ApiFailure::LimitTooLarge),
    }
}


/// The checks on a listing of the user's favourites: the token must grant
/// `read:favourites` (403), and the limit (20 by default) must not exceed
/// the maximum, which this listing refuses as unprocessable (422).
pub fn favourites_limit(token_grants: bool, limit: Option<u64>) -> (r: Result<u64, u16>)
    ensures
        r == (if !token_grants {
            Err(403u16)
        } else {
            match spec_page_limit(limit, 20) {
                Some(n) => Ok(n),
                None => Err(422u16),
            }
        }),
{
    if !token_grants {
        return Err(403);
    }
    match page_limit(limit, 20) {
        Some(n) => Ok(n),
        None => Err(422),
    }
}

/// What a notifications listing is restricted to.
#[derive(Clone, Copy, Debug, PartialEq, Eq, Structural)]
pub struct NotificationsQuery {
    pub limit: u64,
    /// Only notifications caused by this account.
    pub cause: Option<u128>,
}

/// The checks on a notifications listing, in order: the token must grant
/// `read:notifications` (403), the limit (15 by default) must not exceed
/// the maximum (400), and an account to filter by must be a UUID (404).
pub fn notifications_query(token_grants: bool, limit: Option<u64>, account_id: Option<&str>) -> (r: Result<NotificationsQuery, ApiFailure>)
    ensures
        r == (if !token_grants {
            Err(ApiFailure::NoPermission)
        } else {
            match spec_page_limit(limit, 15) {
                None => Err(ApiFailure::LimitTooLarge),
                Some(n) => match opt_str_view(account_id) {
                    Some(a) => match uuid_parsed(a) {
                        Some(u) => Ok(NotificationsQuery { limit: n, cause: Some(u) }),
                        None => Err(ApiFailure::AccountNotFound),
                    },
                    None => Ok(NotificationsQuery { limit: n, cause: None }),
                },
            }
        }),
{
    if !token_grants {
        return Err(ApiFailure::NoPermission);
    }
    let n = match page_limit(limit, 15) {
        Some(n) => n,
        None => return Err(ApiFailure::LimitTooLarge),
    };
    match account_id {
        Some(a) => match parse_uuid(a) {
            Some(u) => Ok(NotificationsQuery { limit: n, cause: Some(u) }),
            None => Err(ApiFailure::AccountNotFound),
        },
        None => Ok(NotificationsQuery { limit: n, cause: None }),
    }
}

/// Who a status is addressed to, as stored.
#[derive(Clone, Copy, Debug, PartialEq, Eq, Structural)]
pub enum AudienceTarget {
    /// An account.
    Account(u128),
    /// The followers of an account.
    Followers(u128),
}

/// A follow between two accounts, and whether the follower wants the
/// followed account's boosts.
#[derive(Clone, Copy, Debug, PartialEq, Eq, Structural)]
pub struct FollowEdge {
    pub follower: u128,
    pub followee: u128,
    pub reblogs: bool,
}

/// The local followers of `followee`, in the order of `follows`, keeping
/// for a boost only those who want boosts.
pub open spec fn local_followers(followee: u128, boost: bool, follows: Seq<FollowEdge>, local: Seq<u128>) -> Seq<u128>
    decreases follows.len(),
{
    if follows.len() == 0 {
        Seq::empty()
    } else {
        let rest = local_followers(followee, boost, follows.drop_last(), local);
        let f = follows.last();
        if f.followee == followee && (!boost || f.reblogs) && local.contains(f.follower) {
            rest.push(f.follower)
        } else {
            rest
        }
    }
}

/// The home timelines a status goes into, audience by audience: an
/// addressed account's own if it is local, and for a followers audience
/// those of the followed account's local followers.
pub open spec fn home_targets(auds: Seq<AudienceTarget>, boost: bool, follows: Seq<FollowEdge>, local: Seq<u128>) -> Seq<u128>
    decreases auds.len(),
{
    if auds.len() == 0 {
        Seq::empty()
    } else {
        let rest = home_targets(auds.drop_last(), boost, follows, local);
        match auds.last() {
            AudienceTarget::Account(a) => if local.contains(a) { rest.push(a) } else { rest },
            AudienceTarget::Followers(f) => rest + local_followers(f, boost, follows, local),
        }
    }
}

fn contains_id(v: &Vec<u128>, x: u128) -> (r: bool)
    ensures
        r == v@.contains(x),
{
    let mut i: usize = 0;
    while i < v.len()
        invariant
            i <= v.len(),
            forall|j: int| 0 <= j < i ==> v@[j] != x,
        decreases v.len() - i,
    {
        if v[i] == x {
            proof {
                assert(v@[i as int] == x);
            }
            return true;
        }
        i = i + 1;
    }
    false
}

fn push_local_followers(out: &mut Vec<u128>, followee: u128, boost: bool, follows: &Vec<FollowEdge>, local: &Vec<u128>)
    ensures
        final(out)@ == old(out)@ + local_followers(followee, boost, follows@, local@),
{
    let mut i: usize = 0;
    proof {
        assert(follows@.take(0) =~= Seq::<FollowEdge>::empty());
        assert(out@ =~= old(out)@ + Seq::<u128>::empty());
    }
    while i < follows.len()
        invariant
            i <= follows.len(),
            out@ == old(out)@ + local_followers(followee, boost, follows@.take(i as int), local@),
        decreases follows.len() - i,
    {
        proof {
            assert(follows@.take(i + 1).drop_last() =~= follows@.take(i as int));
        }
        let f = follows[i];
        let ghost before = out@;
        if f.followee == followee && (!boost || f.reblogs) && contains_id(local, f.follower) {
            out.push(f.follower);
            proof {
                assert(out@ =~= before.push(f.follower));
            }
        }
        proof {
            assert(out@ =~= old(out)@ + local_followers(followee, boost, follows@.take(i + 1), local@));
        }
        i = i + 1;
    }
    proof {
        assert(follows@.take(follows.len() as int) =~= follows@);
    }
}

/// Where a new status is listed: the public timeline if it is public, and
/// the home timelines of `home_targets` (one entry per target, in order).
/// `local` lists the local accounts among those concerned, `follows` the
/// follows of the accounts whose followers are addressed.
pub fn timeline_fanout(
    public: bool, boost: bool, auds: &Vec<AudienceTarget>, follows: &Vec<FollowEdge>, local: &Vec<u128>,
) -> (r: (bool, Vec<u128>))
    ensures
        r.0 == public,
        r.1@ == home_targets(auds@, boost, follows@, local@),
{
    let mut out: Vec<u128> = Vec::new();
    let mut i: usize = 0;
    proof {
        assert(auds@.take(0) =~= Seq::<AudienceTarget>::empty());
        assert(out@ =~= Seq::<u128>::empty());
    }
    while i < auds.len()
        invariant
            i <= auds.len(),
            out@ == home_targets(auds@.take(i as int), boost, follows@, local@),
        decreases auds.len() - i,
    {
        proof {
            assert(auds@.take(i + 1).drop_last() =~= auds@.take(i as int));
        }
        match auds[i] {
            AudienceTarget::Account(a) => {
                if contains_id(local, a) {
                    out.push(a);
                }
            },
            AudienceTarget::Followers(f) => {
                push_local_followers(&mut out, f, boost, follows, local);
            },
        }
        i = i + 1;
    }
    proof {
        assert(auds@.take(auds.len() as int) =~= auds@);
    }
    (public, out)
}

/// Only local accounts get a status in their home timeline.
pub proof fn lemma_fanout_only_local(auds: Seq<AudienceTarget>, boost: bool, follows: Seq<FollowEdge>, local: Seq<u128>, i: int)
    requires
        0 <= i < home_targets(auds, boost, follows, local).len(),
    ensures
        local.contains(home_targets(auds, boost, follows, local)[i]),
    decreases auds.len(),
{
    let t = home_targets(auds, boost, follows, local);
    if auds.len() > 0 {
        let rest = home_targets(auds.drop_last(), boost, follows, local);
        if i < rest.len() {
            match auds.last() {
                AudienceTarget::Account(a) => {},
                AudienceTarget::Followers(f) => {
                    assert(t[i] == rest[i]);
                },
            }
            lemma_fanout_only_local(auds.drop_last(), boost, follows, local, i);
        } else {
            match auds.last() {
                AudienceTarget::Account(a) => {},
                AudienceTarget::Followers(f) => {
                    lemma_followers_local(f, boost, follows, local, i - rest.len());
                },
            }
        }
    }
}

proof fn lemma_followers_local(followee: u128, boost: bool, follows: Seq<FollowEdge>, local: Seq<u128>, i: int)
    requires
        0 <= i < local_followers(followee, boost, follows, local).len(),
    ensures
        local.contains(local_followers(followee, boost, follows, local)[i]),
    decreases follows.len(),
{
    if follows.len() > 0 {
        let rest = local_followers(followee, boost, follows.drop_last(), local);
        if i < rest.len() {
            lemma_followers_local(followee, boost, follows.drop_last(), local, i);
        }
    }
}

/// An accepted public timeline request filters by the flags as its
/// parameters read (`true`/`1` and `false`/`0`, off when absent), each flag
/// by its own parameter: asking with `local` and `remote` swapped gives the
/// same answer with the two flags swapped.
pub proof fn lemma_public_timeline_flags(
    local: Option<Seq<char>>, remote: Option<Seq<char>>, only_media: Option<Seq<char>>,
    token_grants: Option<bool>, limit: Option<u64>,
)
    ensures
        spec_public_timeline_query(local, remote, only_media, token_grants, limit) matches Ok(q) ==> {
            &&& spec_parse_bool(local, false) == Some(q.local)
            &&& spec_parse_bool(remote, false) == Some(q.remote)
            &&& spec_parse_bool(only_media, false) == Some(q.only_media)
        },
        spec_public_timeline_query(local, remote, only_media, token_grants, limit) matches Ok(q) ==>
            spec_public_timeline_query(remote, local, only_media, token_grants, limit) matches Ok(q2)
                && q2.local == q.remote && q2.remote == q.local && q2.only_media == q.only_media
                && q2.limit == q.limit,
        remote == Some("true"@) || remote == Some("1"@) ==>
            (spec_public_timeline_query(local, remote, only_media, token_grants, limit) matches Ok(q) ==> q.remote),
        remote is None || remote == Some("false"@) || remote == Some("0"@) ==>
            (spec_public_timeline_query(local, remote, only_media, token_grants, limit) matches Ok(q) ==> !q.remote),
{
    reveal_strlit("true");
    reveal_strlit("1");
    reveal_strlit("0");
    reveal_strlit("false");
    assert("true"@.len() == 4 && "false"@.len() == 5 && "1"@.len() == 1 && "0"@.len() == 1);
    assert("1"@[0] != "0"@[0]);
}

} // verus!
