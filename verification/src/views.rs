//! Request-level decisions of the HTTP API that do not depend on the database.
use vstd::prelude::*;
use crate::text::opt_str_view;
use crate::text::{append_str, join_strings, spec_join, str_eq, strings_view};
use crate::encoding::{percent_encode_controls, percent_encode_controls_bytes};
use crate::oauth::{TokenClaims, spec_has_scope};
use vstd::utf8::encode_utf8;

verus! {

/// What `parse_bool` makes of an optional query/form value.
pub open spec fn spec_parse_bool(s: Option<Seq<char>>, default: bool) -> Option<bool> {
    match s {
        None => Some(default),
        Some(v) => if v == "true"@ || v == "1"@ {
            Some(true)
        } else if v == "0"@ || v == "false"@ {
            Some(false)
        } else {
            None
        },
    }
}

/// Parses a boolean request parameter: absent gives `default`, `true`/`1` and
/// `false`/`0` give their value, anything else is a bad request (`Err(())`).
pub fn parse_bool(s: Option<&str>, default: bool) -> (r: Result<bool, ()>)
    ensures
        match spec_parse_bool(opt_str_view(s), default) {
            Some(b) => r == Ok::<bool, ()>(b),
            None => r is Err,
        },
{
    proof {
        reveal_strlit("true");
        reveal_strlit("1");
        reveal_strlit("0");
        reveal_strlit("false");
    }
    match s {
        None => Ok(default),
        Some(v) => {
            if str_eq(v, "true") || str_eq(v, "1") {
                Ok(true)
            } else if str_eq(v, "0") || str_eq(v, "false") {
                Ok(false)
            } else {
                Err(())
            }
        },
    }
}


/// Why an API request failed, with the status it is answered with and the
/// key of its translated message.
#[derive(Clone, Copy, Debug, PartialEq, Eq, Structural)]
pub enum ApiFailure {
    NoPermission,
    ServiceUnavailable,
    InternalServerError,
    DatabaseError,
    InvalidRequest,
    LimitTooLarge,
    AccountNotFound,
    MediaNotFound,
    NotificationNotFound,
    UnsupportedMediaType,
    FailedToDecodeImage,
}

pub open spec fn failure_status(f: ApiFailure) -> u16 {
    match f {
        ApiFailure::NoPermission => 403,
        ApiFailure::ServiceUnavailable => 503,
        ApiFailure::InternalServerError => 500,
        ApiFailure::DatabaseError => 500,
        ApiFailure::InvalidRequest => 400,
        ApiFailure::LimitTooLarge => 400,
        ApiFailure::AccountNotFound => 404,
        ApiFailure::MediaNotFound => 404,
        ApiFailure::NotificationNotFound => 404,
        ApiFailure::UnsupportedMediaType => 422,
        ApiFailure::FailedToDecodeImage => 422,
    }
}

pub open spec fn failure_message_key(f: ApiFailure) -> Seq<char> {
    match f {
        ApiFailure::NoPermission => "error-no-permission"@,
        ApiFailure::ServiceUnavailable => "service-unavailable"@,
        ApiFailure::InternalServerError => "internal-server-error"@,
        ApiFailure::DatabaseError => "error-db"@,
        ApiFailure::InvalidRequest => "invalid-request"@,
        ApiFailure::LimitTooLarge => "limit-too-large"@,
        ApiFailure::AccountNotFound => "account-not-found"@,
        ApiFailure::MediaNotFound => "error-media-not-found"@,
        ApiFailure::NotificationNotFound => "error-notification-not-found"@,
        ApiFailure::UnsupportedMediaType => "unsupported-media-type"@,
        ApiFailure::FailedToDecodeImage => "failed-to-decode-image"@,
    }
}

impl ApiFailure {
    /// The HTTP status of the failure.
    pub fn status(&self) -> (r: u16)
        ensures
            r == failure_status(*self),
    {
        match self {
            ApiFailure::NoPermission => 403,
            ApiFailure::ServiceUnavailable => 503,
            ApiFailure::InternalServerError => 500,
            ApiFailure::DatabaseError => 500,
            ApiFailure::InvalidRequest => 400,
            ApiFailure::LimitTooLarge => 400,
            ApiFailure::AccountNotFound => 404,
            ApiFailure::MediaNotFound => 404,
            ApiFailure::NotificationNotFound => 404,
            ApiFailure::UnsupportedMediaType => 422,
            ApiFailure::FailedToDecodeImage => 422,
        }
    }

    /// The key of the failure's message in the translations.
    pub fn message_key(&self) -> (r: &'static str)
        ensures
            r@ == failure_message_key(*self),
    {
        match self {
            ApiFailure::NoPermission => "error-no-permission",
            ApiFailure::ServiceUnavailable => "service-unavailable",
            ApiFailure::InternalServerError => "internal-server-error",
            ApiFailure::DatabaseError => "error-db",
            ApiFailure::InvalidRequest => "invalid-request",
            ApiFailure::LimitTooLarge => "limit-too-large",
            ApiFailure::AccountNotFound => "account-not-found",
            ApiFailure::MediaNotFound => "error-media-not-found",
            ApiFailure::NotificationNotFound => "error-notification-not-found",
            ApiFailure::UnsupportedMediaType => "unsupported-media-type",
            ApiFailure::FailedToDecodeImage => "failed-to-decode-image",
        }
    }
}

/// An API error as sent: a status and a (translated) message.
pub struct Error {
    pub code: u16,
    pub error: String,
}

/// The error of a failure, with its message already translated.
pub fn api_error(f: ApiFailure, message: String) -> (r: Error)
    ensures
        r.code == failure_status(f),
        r.error@ == message@,
{
    Error { code: f.status(), error: message }
}

/// Refuses a request whose token does not grant `scope` (403).
pub fn require_scope(claims: &TokenClaims, scope: &str) -> (r: Result<(), ApiFailure>)
    ensures
        r == (if spec_has_scope(claims.scope_names(), scope@) {
            Ok::<(), ApiFailure>(())
        } else {
            Err(ApiFailure::NoPermission)
        }),
{
    if claims.has_scope(scope) {
        Ok(())
    } else {
        Err(ApiFailure::NoPermission)
    }
}

/// The answer of an endpoint this server does not provide yet: 403 without
/// the scope, 503 with it.
pub fn unavailable_endpoint(claims: &TokenClaims, scope: &str) -> (r: ApiFailure)
    ensures
        r == (if spec_has_scope(claims.scope_names(), scope@) {
            ApiFailure::ServiceUnavailable
        } else {
            ApiFailure::NoPermission
        }),
{
    match require_scope(claims, scope) {
        Ok(()) => ApiFailure::ServiceUnavailable,
        Err(e) => e,
    }
}

/// The most items a page of results may be asked for.
pub const MAX_PAGE_LIMIT: u64 = 500u64;

/// The size of a page of results: `default` when none is asked for;
/// `None` when more than the maximum is asked for.
pub open spec fn spec_page_limit(limit: Option<u64>, default: u64) -> Option<u64> {
    let l = match limit {
        Some(l) => l,
        None => default,
    };
    if l > MAX_PAGE_LIMIT { None } else { Some(l) }
}

/// Reads the `limit` parameter of a listing.
pub fn page_limit(limit: Option<u64>, default: u64) -> (r: Option<u64>)
    ensures
        r == spec_page_limit(limit, default),
{
    let l = match limit {
        Some(l) => l,
        None => default,
    };
    if l > MAX_PAGE_LIMIT { None } else { Some(l) }
}

/// A link of a paginated response.
#[derive(Debug)]
pub struct Link {
    pub rel: String,
    pub href: String,
}

/// One entry of a `Link` header: `<href>; rel="rel"`, both percent-encoded
/// (control characters and non-ASCII).
pub open spec fn link_entry(href: Seq<char>, rel: Seq<char>) -> Seq<char> {
    seq!['<'] + percent_encode_controls_bytes(encode_utf8(href)) + seq!['>', ';', ' ', 'r', 'e', 'l', '=', '"']
        + percent_encode_controls_bytes(encode_utf8(rel)) + seq!['"']
}

pub open spec fn link_entries(links: Seq<Link>) -> Seq<Seq<char>> {
    Seq::new(links.len(), |i: int| link_entry(links[i].href@, links[i].rel@))
}

/// The `Link` header of a paginated response: its entries joined by `, `;
/// none when there are no links.
pub fn link_header(links: &Vec<Link>) -> (r: Option<String>)
    ensures
        links@.len() == 0 ==> r is None,
        links@.len() > 0 ==> (r matches Some(h) && h@ == spec_join(link_entries(links@), ", "@)),
{
    if links.len() == 0 {
        return None;
    }
    let mut entries: Vec<String> = Vec::new();
    let mut i: usize = 0;
    while i < links.len()
        invariant
            i <= links.len(),
            strings_view(entries@) == link_entries(links@).take(i as int),
        decreases links.len() - i,
    {
        let mut e = "<".to_owned();
        let href = percent_encode_controls(links[i].href.as_str());
        let rel = percent_encode_controls(links[i].rel.as_str());
        append_str(&mut e, href.as_str());
        append_str(&mut e, ">; rel=\"");
        append_str(&mut e, rel.as_str());
        append_str(&mut e, "\"");
        proof {
            reveal_strlit("<");
            reveal_strlit(">; rel=\"");
            reveal_strlit("\"");
            assert(e@ =~= link_entry(links@[i as int].href@, links@[i as int].rel@));
        }
        let ghost before = strings_view(entries@);
        entries.push(e);
        proof {
            assert(strings_view(entries@) =~= before.push(link_entry(links@[i as int].href@, links@[i as int].rel@)));
            assert(link_entries(links@).take(i + 1) =~= link_entries(links@).take(i as int).push(link_entry(links@[i as int].href@, links@[i as int].rel@)));
        }
        i = i + 1;
    }
    proof {
        assert(link_entries(links@).take(links.len() as int) =~= link_entries(links@));
    }
    Some(join_strings(&entries, ", "))
}

/// A request to block a domain.
pub struct DomainBlock {
    pub domain: String,
}

/// Where a filter applies.
#[derive(Clone, Copy, Debug, PartialEq, Eq, Structural)]
pub enum FilterContexts {
    Home,
    Notifications,
    Public,
    Thread,
}

pub open spec fn filter_context_name(c: FilterContexts) -> Seq<char> {
    match c {
        FilterContexts::Home => "home"@,
        FilterContexts::Notifications => "notifications"@,
        FilterContexts::Public => "public"@,
        FilterContexts::Thread => "thread"@,
    }
}

impl FilterContexts {
    /// The name of the context in requests and responses.
    pub fn wire_name(&self) -> (r: &'static str)
        ensures
            r@ == filter_context_name(*self),
    {
        match self {
            FilterContexts::Home => "home",
            FilterContexts::Notifications => "notifications",
            FilterContexts::Public => "public",
            FilterContexts::Thread => "thread",
        }
    }
}

/// A request to create or change a filter.
pub struct FilterCreateForm {
    pub phrase: String,
    pub context: Vec<FilterContexts>,
    pub irreversible: Option<bool>,
    pub whole_word: Option<bool>,
    pub expires_in: Option<u64>,
}

/// One week of instance activity.
#[derive(Clone, Copy, Debug, PartialEq, Eq, Structural)]
pub struct Activity {
    pub week: i64,
    pub statuses: i64,
    pub logins: i64,
    pub registrations: i64,
}

/// Which replies a list shows.
#[derive(Clone, Copy, Debug, PartialEq, Eq, Structural)]
pub enum ListRepliesPolicy {
    Followed,
    List,
    /// Sent as `none`.
    NoReplies,
}

pub open spec fn replies_policy_name(p: ListRepliesPolicy) -> Seq<char> {
    match p {
        ListRepliesPolicy::Followed => "followed"@,
        ListRepliesPolicy::List => "list"@,
        ListRepliesPolicy::NoReplies => "none"@,
    }
}

impl ListRepliesPolicy {
    /// The name of the policy in requests and responses.
    pub fn wire_name(&self) -> (r: &'static str)
        ensures
            r@ == replies_policy_name(*self),
    {
        match self {
            ListRepliesPolicy::Followed => "followed",
            ListRepliesPolicy::List => "list",
            ListRepliesPolicy::NoReplies => "none",
        }
    }

    /// The policy of a list that names none: `list`.
    pub fn default_policy() -> (r: ListRepliesPolicy)
        ensures
            r == ListRepliesPolicy::List,
    {
        ListRepliesPolicy::List
    }
}

/// A request to create or change a list.
pub struct ListCreateForm {
    pub title: String,
    pub replies_policy: ListRepliesPolicy,
}

/// A request to add accounts to, or remove them from, a list.
pub struct ListAccountsForm {
    pub account_ids: Vec<String>,
}

} // verus!
