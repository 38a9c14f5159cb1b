//! OAuth 2 for the client API: the scope catalogue, bearer tokens and their
//! scopes, application registration, and the decisions of the authorize,
//! consent, token and revoke endpoints.
use vstd::prelude::*;
use crate::text::{opt_view, opt_str_view};
use crate::crypto::random_bytes;
use crate::ids::{parse_uuid, uuid_parsed, uuid_text, uuid_to_string};
use crate::tokens::{claims_match, jwt_hs512_token, jwt_sign_hs512, jwt_verify_hs512, VerifiedClaims};
use crate::encoding::{base64_url_safe_no_pad_encode, base64_url_safe_no_pad_encoded};
use crate::text::{contains_str, is_blank, sort_dedup, split_whitespace, spec_split_whitespace, str_eq, strictly_sorted, strings_view, trims_to_empty};
use crate::uris::{append_query_pairs, parse_url, url_serialized, url_with_query, absolute_uri_normalized, absolute_uri_scheme, absolute_uri_scheme_of, normalize_absolute_uri};

verus! {

/// A scope an application can ask for.
#[derive(Clone, Copy, Debug, PartialEq, Eq, Structural)]
pub enum ApiScope {
    Read,
    ReadAccounts,
    ReadBlocks,
    ReadBookmarks,
    ReadFavourites,
    ReadFilters,
    ReadFollows,
    ReadLists,
    ReadMutes,
    ReadNotifications,
    ReadSearch,
    ReadStatuses,
    Write,
    WriteAccounts,
    WriteBlocks,
    WriteBookmarks,
    WriteConversations,
    WriteFavourites,
    WriteFilters,
    WriteFollows,
    WriteLists,
    WriteMedia,
    WriteMutes,
    WriteNotifications,
    WriteReports,
    WriteStatuses,
    Follow,
    Push,
}

/// The name a scope goes by in requests and tokens.
pub open spec fn scope_name(s: ApiScope) -> Seq<char> {
    match s {
        ApiScope::Read => "read"@,
        ApiScope::ReadAccounts => "read:accounts"@,
        ApiScope::ReadBlocks => "read:blocks"@,
        ApiScope::ReadBookmarks => "read:bookmarks"@,
        ApiScope::ReadFavourites => "read:favourites"@,
        ApiScope::ReadFilters => "read:filters"@,
        ApiScope::ReadFollows => "read:follows"@,
        ApiScope::ReadLists => "read:lists"@,
        ApiScope::ReadMutes => "read:mutes"@,
        ApiScope::ReadNotifications => "read:notifications"@,
        ApiScope::ReadSearch => "read:search"@,
        ApiScope::ReadStatuses => "read:statuses"@,
        ApiScope::Write => "write"@,
        ApiScope::WriteAccounts => "write:accounts"@,
        ApiScope::WriteBlocks => "write:blocks"@,
        ApiScope::WriteBookmarks => "write:bookmarks"@,
        ApiScope::WriteConversations => "write:conversations"@,
        ApiScope::WriteFavourites => "write:favourites"@,
        ApiScope::WriteFilters => "write:filters"@,
        ApiScope::WriteFollows => "write:follows"@,
        ApiScope::WriteLists => "write:lists"@,
        ApiScope::WriteMedia => "write:media"@,
        ApiScope::WriteMutes => "write:mutes"@,
        ApiScope::WriteNotifications => "write:notifications"@,
        ApiScope::WriteReports => "write:reports"@,
        ApiScope::WriteStatuses => "write:statuses"@,
        ApiScope::Follow => "follow"@,
        ApiScope::Push => "push"@,
    }
}

/// The broader scopes that each grant a scope.
pub open spec fn scope_parents(s: ApiScope) -> Seq<ApiScope> {
    match s {
        ApiScope::Read => Seq::<ApiScope>::empty(),
        ApiScope::ReadAccounts => seq![ApiScope::Read],
        ApiScope::ReadBlocks => seq![ApiScope::Read, ApiScope::Follow],
        ApiScope::ReadBookmarks => seq![ApiScope::Read],
        ApiScope::ReadFavourites => seq![ApiScope::Read],
        ApiScope::ReadFilters => seq![ApiScope::Read],
        ApiScope::ReadFollows => seq![ApiScope::Read, ApiScope::Follow],
        ApiScope::ReadLists => seq![ApiScope::Read],
        ApiScope::ReadMutes => seq![ApiScope::Read, ApiScope::Follow],
        ApiScope::ReadNotifications => seq![ApiScope::Read],
        ApiScope::ReadSearch => seq![ApiScope::Read],
        ApiScope::ReadStatuses => seq![ApiScope::Read],
        ApiScope::Write => Seq::<ApiScope>::empty(),
        ApiScope::WriteAccounts => seq![ApiScope::Write],
        ApiScope::WriteBlocks => seq![ApiScope::Write, ApiScope::Follow],
        ApiScope::WriteBookmarks => seq![ApiScope::Write],
        ApiScope::WriteConversations => seq![ApiScope::Write],
        ApiScope::WriteFavourites => seq![ApiScope::Write],
        ApiScope::WriteFilters => seq![ApiScope::Write],
        ApiScope::WriteFollows => seq![ApiScope::Write, ApiScope::Follow],
        ApiScope::WriteLists => seq![ApiScope::Write],
        ApiScope::WriteMedia => seq![ApiScope::Write],
        ApiScope::WriteMutes => seq![ApiScope::Write, ApiScope::Follow],
        ApiScope::WriteNotifications => seq![ApiScope::Write],
        ApiScope::WriteReports => seq![ApiScope::Write],
        ApiScope::WriteStatuses => seq![ApiScope::Write],
        ApiScope::Follow => Seq::<ApiScope>::empty(),
        ApiScope::Push => Seq::<ApiScope>::empty(),
    }
}

/// The key under which a scope's description is translated.
pub open spec fn scope_description(s: ApiScope) -> Seq<char> {
    match s {
        ApiScope::Read => "scope-read"@,
        ApiScope::ReadAccounts => "scope-read-accounts"@,
        ApiScope::ReadBlocks => "scope-read-blocks"@,
        ApiScope::ReadBookmarks => "scope-read-bookmarks"@,
        ApiScope::ReadFavourites => "scope-read-favourites"@,
        ApiScope::ReadFilters => "scope-read-filters"@,
        ApiScope::ReadFollows => "scope-read-follows"@,
        ApiScope::ReadLists => "scope-read-lists"@,
        ApiScope::ReadMutes => "scope-read-mutes"@,
        ApiScope::ReadNotifications => "scope-read-notifications"@,
        ApiScope::ReadSearch => "scope-read-search"@,
        ApiScope::ReadStatuses => "scope-read-statuses"@,
        ApiScope::Write => "scope-write"@,
        ApiScope::WriteAccounts => "scope-write-accounts"@,
        ApiScope::WriteBlocks => "scope-write-blocks"@,
        ApiScope::WriteBookmarks => "scope-write-bookmarks"@,
        ApiScope::WriteConversations => "scope-write-conversations"@,
        ApiScope::WriteFavourites => "scope-write-favourites"@,
        ApiScope::WriteFilters => "scope-write-filters"@,
        ApiScope::WriteFollows => "scope-write-follows"@,
        ApiScope::WriteLists => "scope-write-lists"@,
        ApiScope::WriteMedia => "scope-write-media"@,
        ApiScope::WriteMutes => "scope-write-mutes"@,
        ApiScope::WriteNotifications => "scope-write-notifications"@,
        ApiScope::WriteReports => "scope-write-reports"@,
        ApiScope::WriteStatuses => "scope-write-statuses"@,
        ApiScope::Follow => "scope-follow"@,
        ApiScope::Push => "scope-push"@,
    }
}

/// The scope a name stands for, if any.
pub open spec fn spec_lookup_scope(n: Seq<char>) -> Option<ApiScope> {
    if n == "read"@ {
        Some(ApiScope::Read)
    } else if n == "read:accounts"@ {
        Some(ApiScope::ReadAccounts)
    } else if n == "read:blocks"@ {
        Some(ApiScope::ReadBlocks)
    } else if n == "read:bookmarks"@ {
        Some(ApiScope::ReadBookmarks)
    } else if n == "read:favourites"@ {
        Some(ApiScope::ReadFavourites)
    } else if n == "read:filters"@ {
        Some(ApiScope::ReadFilters)
    } else if n == "read:follows"@ {
        Some(ApiScope::ReadFollows)
    } else if n == "read:lists"@ {
        Some(ApiScope::ReadLists)
    } else if n == "read:mutes"@ {
        Some(ApiScope::ReadMutes)
    } else if n == "read:notifications"@ {
        Some(ApiScope::ReadNotifications)
    } else if n == "read:search"@ {
        Some(ApiScope::ReadSearch)
    } else if n == "read:statuses"@ {
        Some(ApiScope::ReadStatuses)
    } else if n == "write"@ {
        Some(ApiScope::Write)
    } else if n == "write:accounts"@ {
        Some(ApiScope::WriteAccounts)
    } else if n == "write:blocks"@ {
        Some(ApiScope::WriteBlocks)
    } else if n == "write:bookmarks"@ {
        Some(ApiScope::WriteBookmarks)
    } else if n == "write:conversations"@ {
        Some(ApiScope::WriteConversations)
    } else if n == "write:favourites"@ {
        Some(ApiScope::WriteFavourites)
    } else if n == "write:filters"@ {
        Some(ApiScope::WriteFilters)
    } else if n == "write:follows"@ {
        Some(ApiScope::WriteFollows)
    } else if n == "write:lists"@ {
        Some(ApiScope::WriteLists)
    } else if n == "write:media"@ {
        Some(ApiScope::WriteMedia)
    } else if n == "write:mutes"@ {
        Some(ApiScope::WriteMutes)
    } else if n == "write:notifications"@ {
        Some(ApiScope::WriteNotifications)
    } else if n == "write:reports"@ {
        Some(ApiScope::WriteReports)
    } else if n == "write:statuses"@ {
        Some(ApiScope::WriteStatuses)
    } else if n == "follow"@ {
        Some(ApiScope::Follow)
    } else if n == "push"@ {
        Some(ApiScope::Push)
    } else {
        None
    }
}

impl ApiScope {
    /// The scope a name stands for, if any.
    pub fn from_name(n: &str) -> (r: Option<ApiScope>)
        ensures
            r == spec_lookup_scope(n@),
    {
        if str_eq(n, "read") {
            return Some(ApiScope::Read);
        }
        if str_eq(n, "read:accounts") {
            return Some(ApiScope::ReadAccounts);
        }
        if str_eq(n, "read:blocks") {
            return Some(ApiScope::ReadBlocks);
        }
        if str_eq(n, "read:bookmarks") {
            return Some(ApiScope::ReadBookmarks);
        }
        if str_eq(n, "read:favourites") {
            return Some(ApiScope::ReadFavourites);
        }
        if str_eq(n, "read:filters") {
            return Some(ApiScope::ReadFilters);
        }
        if str_eq(n, "read:follows") {
            return Some(ApiScope::ReadFollows);
        }
        if str_eq(n, "read:lists") {
            return Some(ApiScope::ReadLists);
        }
        if str_eq(n, "read:mutes") {
            return Some(ApiScope::ReadMutes);
        }
        if str_eq(n, "read:notifications") {
            return Some(ApiScope::ReadNotifications);
        }
        if str_eq(n, "read:search") {
            return Some(ApiScope::ReadSearch);
        }
        if str_eq(n, "read:statuses") {
            return Some(ApiScope::ReadStatuses);
        }
        if str_eq(n, "write") {
            return Some(ApiScope::Write);
        }
        if str_eq(n, "write:accounts") {
            return Some(ApiScope::WriteAccounts);
        }
        if str_eq(n, "write:blocks") {
            return Some(ApiScope::WriteBlocks);
        }
        if str_eq(n, "write:bookmarks") {
            return Some(ApiScope::WriteBookmarks);
        }
        if str_eq(n, "write:conversations") {
            return Some(ApiScope::WriteConversations);
        }
        if str_eq(n, "write:favourites") {
            return Some(ApiScope::WriteFavourites);
        }
        if str_eq(n, "write:filters") {
            return Some(ApiScope::WriteFilters);
        }
        if str_eq(n, "write:follows") {
            return Some(ApiScope::WriteFollows);
        }
        if str_eq(n, "write:lists") {
            return Some(ApiScope::WriteLists);
        }
        if str_eq(n, "write:media") {
            return Some(ApiScope::WriteMedia);
        }
        if str_eq(n, "write:mutes") {
            return Some(ApiScope::WriteMutes);
        }
        if str_eq(n, "write:notifications") {
            return Some(ApiScope::WriteNotifications);
        }
        if str_eq(n, "write:reports") {
            return Some(ApiScope::WriteReports);
        }
        if str_eq(n, "write:statuses") {
            return Some(ApiScope::WriteStatuses);
        }
        if str_eq(n, "follow") {
            return Some(ApiScope::Follow);
        }
        if str_eq(n, "push") {
            return Some(ApiScope::Push);
        }
        None
    }

    /// The scope's name.
    pub fn name(&self) -> (r: &'static str)
        ensures
            r@ == scope_name(*self),
    {
        match self {
            ApiScope::Read => "read",
            ApiScope::ReadAccounts => "read:accounts",
            ApiScope::ReadBlocks => "read:blocks",
            ApiScope::ReadBookmarks => "read:bookmarks",
            ApiScope::ReadFavourites => "read:favourites",
            ApiScope::ReadFilters => "read:filters",
            ApiScope::ReadFollows => "read:follows",
            ApiScope::ReadLists => "read:lists",
            ApiScope::ReadMutes => "read:mutes",
            ApiScope::ReadNotifications => "read:notifications",
            ApiScope::ReadSearch => "read:search",
            ApiScope::ReadStatuses => "read:statuses",
            ApiScope::Write => "write",
            ApiScope::WriteAccounts => "write:accounts",
            ApiScope::WriteBlocks => "write:blocks",
            ApiScope::WriteBookmarks => "write:bookmarks",
            ApiScope::WriteConversations => "write:conversations",
            ApiScope::WriteFavourites => "write:favourites",
            ApiScope::WriteFilters => "write:filters",
            ApiScope::WriteFollows => "write:follows",
            ApiScope::WriteLists => "write:lists",
            ApiScope::WriteMedia => "write:media",
            ApiScope::WriteMutes => "write:mutes",
            ApiScope::WriteNotifications => "write:notifications",
            ApiScope::WriteReports => "write:reports",
            ApiScope::WriteStatuses => "write:statuses",
            ApiScope::Follow => "follow",
            ApiScope::Push => "push",
        }
    }

    /// The key of the scope's description in the translations.
    pub fn description(&self) -> (r: &'static str)
        ensures
            r@ == scope_description(*self),
    {
        match self {
            ApiScope::Read => "scope-read",
            ApiScope::ReadAccounts => "scope-read-accounts",
            ApiScope::ReadBlocks => "scope-read-blocks",
            ApiScope::ReadBookmarks => "scope-read-bookmarks",
            ApiScope::ReadFavourites => "scope-read-favourites",
            ApiScope::ReadFilters => "scope-read-filters",
            ApiScope::ReadFollows => "scope-read-follows",
            ApiScope::ReadLists => "scope-read-lists",
            ApiScope::ReadMutes => "scope-read-mutes",
            ApiScope::ReadNotifications => "scope-read-notifications",
            ApiScope::ReadSearch => "scope-read-search",
            ApiScope::ReadStatuses => "scope-read-statuses",
            ApiScope::Write => "scope-write",
            ApiScope::WriteAccounts => "scope-write-accounts",
            ApiScope::WriteBlocks => "scope-write-blocks",
            ApiScope::WriteBookmarks => "scope-write-bookmarks",
            ApiScope::WriteConversations => "scope-write-conversations",
            ApiScope::WriteFavourites => "scope-write-favourites",
            ApiScope::WriteFilters => "scope-write-filters",
            ApiScope::WriteFollows => "scope-write-follows",
            ApiScope::WriteLists => "scope-write-lists",
            ApiScope::WriteMedia => "scope-write-media",
            ApiScope::WriteMutes => "scope-write-mutes",
            ApiScope::WriteNotifications => "scope-write-notifications",
            ApiScope::WriteReports => "scope-write-reports",
            ApiScope::WriteStatuses => "scope-write-statuses",
            ApiScope::Follow => "scope-follow",
            ApiScope::Push => "scope-push",
        }
    }

    /// The broader scopes that grant this one.
    pub fn parents(&self) -> (r: Vec<ApiScope>)
        ensures
            r@ == scope_parents(*self),
    {
        match self {
            ApiScope::Read => Vec::new(),
            ApiScope::ReadAccounts => vec![ApiScope::Read],
            ApiScope::ReadBlocks => vec![ApiScope::Read, ApiScope::Follow],
            ApiScope::ReadBookmarks => vec![ApiScope::Read],
            ApiScope::ReadFavourites => vec![ApiScope::Read],
            ApiScope::ReadFilters => vec![ApiScope::Read],
            ApiScope::ReadFollows => vec![ApiScope::Read, ApiScope::Follow],
            ApiScope::ReadLists => vec![ApiScope::Read],
            ApiScope::ReadMutes => vec![ApiScope::Read, ApiScope::Follow],
            ApiScope::ReadNotifications => vec![ApiScope::Read],
            ApiScope::ReadSearch => vec![ApiScope::Read],
            ApiScope::ReadStatuses => vec![ApiScope::Read],
            ApiScope::Write => Vec::new(),
            ApiScope::WriteAccounts => vec![ApiScope::Write],
            ApiScope::WriteBlocks => vec![ApiScope::Write, ApiScope::Follow],
            ApiScope::WriteBookmarks => vec![ApiScope::Write],
            ApiScope::WriteConversations => vec![ApiScope::Write],
            ApiScope::WriteFavourites => vec![ApiScope::Write],
            ApiScope::WriteFilters => vec![ApiScope::Write],
            ApiScope::WriteFollows => vec![ApiScope::Write, ApiScope::Follow],
            ApiScope::WriteLists => vec![ApiScope::Write],
            ApiScope::WriteMedia => vec![ApiScope::Write],
            ApiScope::WriteMutes => vec![ApiScope::Write, ApiScope::Follow],
            ApiScope::WriteNotifications => vec![ApiScope::Write],
            ApiScope::WriteReports => vec![ApiScope::Write],
            ApiScope::WriteStatuses => vec![ApiScope::Write],
            ApiScope::Follow => Vec::new(),
            ApiScope::Push => Vec::new(),
        }
    }
}

/// Each scope is found again under its own name.
pub proof fn lemma_lookup_scope_name(s: ApiScope)
    ensures
        spec_lookup_scope(scope_name(s)) == Some(s),
{
    reveal_strlit("read");
    reveal_strlit("read:accounts");
    reveal_strlit("read:blocks");
    reveal_strlit("read:bookmarks");
    reveal_strlit("read:favourites");
    reveal_strlit("read:filters");
    reveal_strlit("read:follows");
    reveal_strlit("read:lists");
    reveal_strlit("read:mutes");
    reveal_strlit("read:notifications");
    reveal_strlit("read:search");
    reveal_strlit("read:statuses");
    reveal_strlit("write");
    reveal_strlit("write:accounts");
    reveal_strlit("write:blocks");
    reveal_strlit("write:bookmarks");
    reveal_strlit("write:conversations");
    reveal_strlit("write:favourites");
    reveal_strlit("write:filters");
    reveal_strlit("write:follows");
    reveal_strlit("write:lists");
    reveal_strlit("write:media");
    reveal_strlit("write:mutes");
    reveal_strlit("write:notifications");
    reveal_strlit("write:reports");
    reveal_strlit("write:statuses");
    reveal_strlit("follow");
    reveal_strlit("push");
    assert("read"@.len() == 4);
    assert("read:accounts"@.len() == 13);
    assert("read:blocks"@.len() == 11);
    assert("read:bookmarks"@.len() == 14);
    assert("read:favourites"@.len() == 15);
    assert("read:filters"@.len() == 12);
    assert("read:follows"@.len() == 12);
    assert("read:lists"@.len() == 10);
    assert("read:mutes"@.len() == 10);
    assert("read:notifications"@.len() == 18);
    assert("read:search"@.len() == 11);
    assert("read:statuses"@.len() == 13);
    assert("write"@.len() == 5);
    assert("write:accounts"@.len() == 14);
    assert("write:blocks"@.len() == 12);
    assert("write:bookmarks"@.len() == 15);
    assert("write:conversations"@.len() == 19);
    assert("write:favourites"@.len() == 16);
    assert("write:filters"@.len() == 13);
    assert("write:follows"@.len() == 13);
    assert("write:lists"@.len() == 11);
    assert("write:media"@.len() == 11);
    assert("write:mutes"@.len() == 11);
    assert("write:notifications"@.len() == 19);
    assert("write:reports"@.len() == 13);
    assert("write:statuses"@.len() == 14);
    assert("follow"@.len() == 6);
    assert("push"@.len() == 4);
    match s {
        ApiScope::Read => {
            assert(spec_lookup_scope("read"@) == Some(ApiScope::Read));
        },
        ApiScope::ReadAccounts => {
            assert(spec_lookup_scope("read:accounts"@) == Some(ApiScope::ReadAccounts));
        },
        ApiScope::ReadBlocks => {
            assert(spec_lookup_scope("read:blocks"@) == Some(ApiScope::ReadBlocks));
        },
        ApiScope::ReadBookmarks => {
            assert(spec_lookup_scope("read:bookmarks"@) == Some(ApiScope::ReadBookmarks));
        },
        ApiScope::ReadFavourites => {
            assert(spec_lookup_scope("read:favourites"@) == Some(ApiScope::ReadFavourites));
        },
        ApiScope::ReadFilters => {
            assert(spec_lookup_scope("read:filters"@) == Some(ApiScope::ReadFilters));
        },
        ApiScope::ReadFollows => {
            assert("read:follows"@[6] != "read:filters"@[6]);
            assert(spec_lookup_scope("read:follows"@) == Some(ApiScope::ReadFollows));
        },
        ApiScope::ReadLists => {
            assert(spec_lookup_scope("read:lists"@) == Some(ApiScope::ReadLists));
        },
        ApiScope::ReadMutes => {
            assert("read:mutes"@[5] != "read:lists"@[5]);
            assert(spec_lookup_scope("read:mutes"@) == Some(ApiScope::ReadMutes));
        },
        ApiScope::ReadNotifications => {
            assert(spec_lookup_scope("read:notifications"@) == Some(ApiScope::ReadNotifications));
        },
        ApiScope::ReadSearch => {
            assert("read:search"@[5] != "read:blocks"@[5]);
            assert(spec_lookup_scope("read:search"@) == Some(ApiScope::ReadSearch));
        },
        ApiScope::ReadStatuses => {
            assert("read:statuses"@[5] != "read:accounts"@[5]);
            assert(spec_lookup_scope("read:statuses"@) == Some(ApiScope::ReadStatuses));
        },
        ApiScope::Write => {
            assert(spec_lookup_scope("write"@) == Some(ApiScope::Write));
        },
        ApiScope::WriteAccounts => {
            assert("write:accounts"@[0] != "read:bookmarks"@[0]);
            assert(spec_lookup_scope("write:accounts"@) == Some(ApiScope::WriteAccounts));
        },
        ApiScope::WriteBlocks => {
            assert("write:blocks"@[0] != "read:filters"@[0]);
            assert("write:blocks"@[0] != "read:follows"@[0]);
            assert(spec_lookup_scope("write:blocks"@) == Some(ApiScope::WriteBlocks));
        },
        ApiScope::WriteBookmarks => {
            assert("write:bookmarks"@[0] != "read:favourites"@[0]);
            assert(spec_lookup_scope("write:bookmarks"@) == Some(ApiScope::WriteBookmarks));
        },
        ApiScope::WriteConversations => {
            assert(spec_lookup_scope("write:conversations"@) == Some(ApiScope::WriteConversations));
        },
        ApiScope::WriteFavourites => {
            assert(spec_lookup_scope("write:favourites"@) == Some(ApiScope::WriteFavourites));
        },
        ApiScope::WriteFilters => {
            assert("write:filters"@[0] != "read:accounts"@[0]);
            assert("write:filters"@[0] != "read:statuses"@[0]);
            assert(spec_lookup_scope("write:filters"@) == Some(ApiScope::WriteFilters));
        },
        ApiScope::WriteFollows => {
            assert("write:follows"@[0] != "read:accounts"@[0]);
            assert("write:follows"@[0] != "read:statuses"@[0]);
            assert("write:follows"@[7] != "write:filters"@[7]);
            assert(spec_lookup_scope("write:follows"@) == Some(ApiScope::WriteFollows));
        },
        ApiScope::WriteLists => {
            assert("write:lists"@[0] != "read:blocks"@[0]);
            assert("write:lists"@[0] != "read:search"@[0]);
            assert(spec_lookup_scope("write:lists"@) == Some(ApiScope::WriteLists));
        },
        ApiScope::WriteMedia => {
            assert("write:media"@[0] != "read:blocks"@[0]);
            assert("write:media"@[0] != "read:search"@[0]);
            assert("write:media"@[6] != "write:lists"@[6]);
            assert(spec_lookup_scope("write:media"@) == Some(ApiScope::WriteMedia));
        },
        ApiScope::WriteMutes => {
            assert("write:mutes"@[0] != "read:blocks"@[0]);
            assert("write:mutes"@[0] != "read:search"@[0]);
            assert("write:mutes"@[6] != "write:lists"@[6]);
            assert("write:mutes"@[7] != "write:media"@[7]);
            assert(spec_lookup_scope("write:mutes"@) == Some(ApiScope::WriteMutes));
        },
        ApiScope::WriteNotifications => {
            assert("write:notifications"@[6] != "write:conversations"@[6]);
            assert(spec_lookup_scope("write:notifications"@) == Some(ApiScope::WriteNotifications));
        },
        ApiScope::WriteReports => {
            assert("write:reports"@[0] != "read:accounts"@[0]);
            assert("write:reports"@[0] != "read:statuses"@[0]);
            assert("write:reports"@[6] != "write:filters"@[6]);
            assert("write:reports"@[6] != "write:follows"@[6]);
            assert(spec_lookup_scope("write:reports"@) == Some(ApiScope::WriteReports));
        },
        ApiScope::WriteStatuses => {
            assert("write:statuses"@[0] != "read:bookmarks"@[0]);
            assert("write:statuses"@[6] != "write:accounts"@[6]);
            assert(spec_lookup_scope("write:statuses"@) == Some(ApiScope::WriteStatuses));
        },
        ApiScope::Follow => {
            assert(spec_lookup_scope("follow"@) == Some(ApiScope::Follow));
        },
        ApiScope::Push => {
            assert("push"@[0] != "read"@[0]);
            assert(spec_lookup_scope("push"@) == Some(ApiScope::Push));
        },
    }
}


/// The claims of a bearer token issued by this server.
#[derive(Clone, Debug)]
pub struct TokenClaims {
    pub issuer: String,
    pub subject: String,
    pub audience: String,
    pub not_before: i64,
    pub issued_at: i64,
    /// The token's id (a UUID, as its 128-bit value).
    pub json_web_token_id: u128,
    pub scopes: Vec<String>,
}

/// Whether a token holding `scopes` may act under `scope`: it holds the
/// scope itself, or one of the broader scopes that grant it.
pub open spec fn spec_has_scope(scopes: Seq<Seq<char>>, scope: Seq<char>) -> bool {
    ||| scopes.contains(scope)
    ||| match spec_lookup_scope(scope) {
        Some(s) => exists|i: int|
            0 <= i < scope_parents(s).len() && #[trigger] scopes.contains(scope_name(scope_parents(s)[i])),
        None => false,
    }
}

impl TokenClaims {
    /// The names of the scopes the token holds.
    pub open spec fn scope_names(&self) -> Seq<Seq<char>> {
        strings_view(self.scopes@)
    }

    /// Whether the token grants `scope`.
    pub fn has_scope(&self, scope: &str) -> (r: bool)
        ensures
            r == spec_has_scope(self.scope_names(), scope@),
    {
        if contains_str(&self.scopes, scope) {
            return true;
        }
        match ApiScope::from_name(scope) {
            Some(s) => {
                let parents = s.parents();
                let mut i: usize = 0;
                while i < parents.len()
                    invariant
                        parents@ == scope_parents(s),
                        spec_lookup_scope(scope@) == Some(s),
                        !self.scope_names().contains(scope@),
                        i <= parents.len(),
                        forall|j: int| 0 <= j < i ==> !self.scope_names().contains(#[trigger] scope_name(parents@[j])),
                    decreases parents.len() - i,
                {
                    if contains_str(&self.scopes, parents[i].name()) {
                        proof {
                            assert(self.scope_names().contains(scope_name(scope_parents(s)[i as int])));
                        }
                        return true;
                    }
                    i = i + 1;
                }
                false
            },
            None => false,
        }
    }
}

/// A token that holds a scope is granted every scope that scope is a broader
/// scope of (a token with `read` may read accounts, one with `follow` may
/// read and change blocks, follows and mutes).
pub proof fn lemma_parent_scope_grants(scopes: Seq<Seq<char>>, child: ApiScope, i: int)
    requires
        0 <= i < scope_parents(child).len(),
        scopes.contains(scope_name(scope_parents(child)[i])),
    ensures
        spec_has_scope(scopes, scope_name(child)),
{
    lemma_lookup_scope_name(child);
}

/// A token is granted every scope it holds, whether or not the scope is known.
pub proof fn lemma_held_scope_granted(scopes: Seq<Seq<char>>, scope: Seq<char>)
    requires
        scopes.contains(scope),
    ensures
        spec_has_scope(scopes, scope),
{
}

/// A name that is no scope is granted only by holding that very name.
pub proof fn lemma_unknown_scope_needs_itself(scopes: Seq<Seq<char>>, scope: Seq<char>)
    requires
        spec_lookup_scope(scope) is None,
    ensures
        spec_has_scope(scopes, scope) == scopes.contains(scope),
{
}


/// Whether every name in a list is a scope.
pub open spec fn all_known_scopes(names: Seq<Seq<char>>) -> bool {
    forall|i: int| 0 <= i < names.len() ==> (#[trigger] spec_lookup_scope(names[i])) is Some
}

/// The scopes an application registers with: `read` when it names none;
/// otherwise the whitespace-separated names it gives, sorted and without
/// repeats, provided each is a scope (`None` otherwise).
pub fn app_scopes(scopes: Option<&str>) -> (r: Option<Vec<String>>)
    ensures
        match scopes {
            None => r matches Some(v) && strings_view(v@) == seq!["read"@],
            Some(s) => {
                &&& (r is Some <==> all_known_scopes(spec_split_whitespace(s@)))
                &&& (r matches Some(v) ==> strictly_sorted(strings_view(v@))
                    && strings_view(v@).to_set() == spec_split_whitespace(s@).to_set())
            },
        },
{
    match scopes {
        None => {
            let mut v: Vec<String> = Vec::new();
            v.push("read".to_owned());
            proof {
                assert(strings_view(v@) =~= seq!["read"@]);
            }
            Some(v)
        },
        Some(s) => {
            let words = split_whitespace(s);
            let sorted = sort_dedup(words);
            let ghost wv = spec_split_whitespace(s@);
            let mut i: usize = 0;
            while i < sorted.len()
                invariant
                    scopes == Some(s),
                    wv == spec_split_whitespace(s@),
                    i <= sorted.len(),
                    strings_view(sorted@).to_set() == wv.to_set(),
                    forall|j: int| 0 <= j < i ==> (#[trigger] spec_lookup_scope(sorted@[j]@)) is Some,
                decreases sorted.len() - i,
            {
                if ApiScope::from_name(sorted[i].as_str()).is_none() {
                    proof {
                        let w = sorted@[i as int]@;
                        assert(strings_view(sorted@)[i as int] == w);
                        assert(wv.to_set().contains(w));
                        let k = choose|k: int| 0 <= k < wv.len() && wv[k] == w;
                        assert(spec_lookup_scope(wv[k]) is None);
                    }
                    return None;
                }
                i = i + 1;
            }
            proof {
                assert forall|k: int| 0 <= k < wv.len() implies (#[trigger] spec_lookup_scope(wv[k])) is Some by {
                    assert(wv.to_set().contains(wv[k]));
                    assert(strings_view(sorted@).to_set().contains(wv[k]));
                    let j = choose|j: int| 0 <= j < strings_view(sorted@).len() && strings_view(sorted@)[j] == wv[k];
                    assert(sorted@[j]@ == wv[k]);
                }
            }
            Some(sorted)
        },
    }
}

/// A request to register an application.
pub struct AppsCreate {
    pub client_name: String,
    pub redirect_uris: String,
    pub website: Option<String>,
    pub scopes: Option<String>,
}

/// What a valid registration request registers.
pub struct AppRegistration {
    pub name: String,
    pub redirect_uri: String,
    pub website: Option<String>,
    pub scopes: Vec<String>,
}

/// The website an application gives, normalized: `Some(None)` when it gives
/// none, `None` when it is no absolute `http` or `https` URI.
pub open spec fn spec_website(w: Option<Seq<char>>) -> Option<Option<Seq<char>>> {
    match w {
        None => Some(None),
        Some(w) => match absolute_uri_scheme(w) {
            Some(scheme) => if scheme == "http"@ || scheme == "https"@ {
                Some(absolute_uri_normalized(w))
            } else {
                None
            },
            None => None,
        },
    }
}

/// Whether a registration request is valid: a name that is not blank, an
/// absolute redirect URI, an absolute http(s) website if any, and known
/// scopes.
pub open spec fn valid_registration(form: AppsCreate) -> bool {
    &&& !is_blank(form.client_name@)
    &&& absolute_uri_normalized(form.redirect_uris@) is Some
    &&& spec_website(opt_view(form.website)) is Some
    &&& match form.scopes {
        Some(s) => all_known_scopes(spec_split_whitespace(s@)),
        None => true,
    }
}

/// Checks a registration request and gives what it registers; `None`
/// (answered with 422 Unprocessable Entity) when it is invalid.
pub fn validate_app(form: &AppsCreate) -> (r: Option<AppRegistration>)
    ensures
        r is Some <==> valid_registration(*form),
        r matches Some(a) ==> {
            &&& a.name@ == form.client_name@
            &&& Some(a.redirect_uri@) == absolute_uri_normalized(form.redirect_uris@)
            &&& Some(opt_view(a.website)) == spec_website(opt_view(form.website))
            &&& match form.scopes {
                None => strings_view(a.scopes@) == seq!["read"@],
                Some(s) => strictly_sorted(strings_view(a.scopes@))
                    && strings_view(a.scopes@).to_set() == spec_split_whitespace(s@).to_set(),
            }
        },
{
    if trims_to_empty(form.client_name.as_str()) {
        return None;
    }
    let redirect_uri = match normalize_absolute_uri(form.redirect_uris.as_str()) {
        Some(u) => u,
        None => return None,
    };
    let website = match &form.website {
        None => None,
        Some(w) => {
            let scheme = match absolute_uri_scheme_of(w.as_str()) {
                Some(scheme) => scheme,
                None => return None,
            };
            if !str_eq(scheme.as_str(), "http") && !str_eq(scheme.as_str(), "https") {
                return None;
            }
            match normalize_absolute_uri(w.as_str()) {
                Some(n) => Some(n),
                None => return None,
            }
        },
    };
    let scopes = match &form.scopes {
        Some(s) => app_scopes(Some(s.as_str())),
        None => app_scopes(None),
    };
    let scopes = match scopes {
        Some(s) => s,
        None => return None,
    };
    Some(AppRegistration { name: form.client_name.clone(), redirect_uri, website, scopes })
}

/// A fresh client secret: 64 random bytes in unpadded URL-safe base64.
pub fn new_client_secret() -> (r: String)
    ensures
        exists|b: Seq<u8>| b.len() == 64 && r@ == base64_url_safe_no_pad_encoded(b),
{
    let bytes = random_bytes(64);
    let r = base64_url_safe_no_pad_encode(bytes.as_slice());
    proof {
        assert(bytes@.len() == 64 && r@ == base64_url_safe_no_pad_encoded(bytes@));
    }
    r
}


/// Why a request to the token or revoke endpoint failed.
#[derive(Clone, Copy, Debug, PartialEq, Eq, Structural)]
pub enum TokenFailure {
    UnsupportedGrantType,
    MissingCode,
    MissingRedirectUri,
    MissingCredentials,
    InvalidClientId,
    UnknownClient,
    InvalidClientCredentials,
    InvalidCode,
    CodeOtherClient,
    InvalidRedirectUri,
    CodeExpired,
    InvalidToken,
    TokenOtherClient,
    ServerError,
}

/// The body of an OAuth error response.
#[derive(Debug)]
pub struct OAuthError {
    pub error: String,
    pub error_description: Option<String>,
    pub error_uri: Option<String>,
}

/// The OAuth error code of a failure.
pub open spec fn failure_code(f: TokenFailure) -> Seq<char> {
    match f {
        TokenFailure::UnsupportedGrantType => "unsupported_grant_type"@,
        TokenFailure::MissingCode => "invalid_request"@,
        TokenFailure::MissingRedirectUri => "invalid_request"@,
        TokenFailure::MissingCredentials => "invalid_request"@,
        TokenFailure::InvalidClientId => "invalid_client"@,
        TokenFailure::UnknownClient => "invalid_client"@,
        TokenFailure::InvalidClientCredentials => "invalid_client"@,
        TokenFailure::InvalidCode => "invalid_grant"@,
        TokenFailure::CodeOtherClient => "invalid_grant"@,
        TokenFailure::InvalidRedirectUri => "invalid_grant"@,
        TokenFailure::CodeExpired => "invalid_grant"@,
        TokenFailure::InvalidToken => "invalid_request"@,
        TokenFailure::TokenOtherClient => "invalid_grant"@,
        TokenFailure::ServerError => "server_error"@,
    }
}

/// The human-readable description sent with a failure, if any.
pub open spec fn failure_description(f: TokenFailure) -> Option<Seq<char>> {
    match f {
        TokenFailure::MissingCode => Some("Missing code"@),
        TokenFailure::MissingRedirectUri => Some("Missing redirect_uri"@),
        TokenFailure::MissingCredentials => Some("Missing client credentials"@),
        TokenFailure::InvalidClientId => Some("Invalid client ID"@),
        TokenFailure::UnknownClient => Some("Unknown client"@),
        TokenFailure::InvalidClientCredentials => Some("Invalid client credentials"@),
        TokenFailure::InvalidCode => Some("Invalid code"@),
        TokenFailure::CodeOtherClient => Some("Code issued to another client"@),
        TokenFailure::InvalidRedirectUri => Some("Invalid redirect_uri"@),
        TokenFailure::CodeExpired => Some("Code expired"@),
        _ => None,
    }
}

impl TokenFailure {
    /// The HTTP status the failure is answered with.
    pub fn status(&self) -> (r: u16)
        ensures
            r == (if *self == TokenFailure::ServerError { 500u16 } else { 400u16 }),
    {
        match self {
            TokenFailure::ServerError => 500,
            _ => 400,
        }
    }

    /// The error code as sent in the response body.
    pub fn code(&self) -> (r: &'static str)
        ensures
            r@ == failure_code(*self),
    {
        match self {
            TokenFailure::UnsupportedGrantType => "unsupported_grant_type",
            TokenFailure::MissingCode => "invalid_request",
            TokenFailure::MissingRedirectUri => "invalid_request",
            TokenFailure::MissingCredentials => "invalid_request",
            TokenFailure::InvalidClientId => "invalid_client",
            TokenFailure::UnknownClient => "invalid_client",
            TokenFailure::InvalidClientCredentials => "invalid_client",
            TokenFailure::InvalidCode => "invalid_grant",
            TokenFailure::CodeOtherClient => "invalid_grant",
            TokenFailure::InvalidRedirectUri => "invalid_grant",
            TokenFailure::CodeExpired => "invalid_grant",
            TokenFailure::InvalidToken => "invalid_request",
            TokenFailure::TokenOtherClient => "invalid_grant",
            TokenFailure::ServerError => "server_error",
        }
    }

    /// The response body of the failure.
    pub fn to_error(&self) -> (r: OAuthError)
        ensures
            r.error@ == failure_code(*self),
            opt_view(r.error_description) == failure_description(*self),
            r.error_uri is None,
    {
        let description: Option<&str> = match self {
            TokenFailure::MissingCode => Some("Missing code"),
            TokenFailure::MissingRedirectUri => Some("Missing redirect_uri"),
            TokenFailure::MissingCredentials => Some("Missing client credentials"),
            TokenFailure::InvalidClientId => Some("Invalid client ID"),
            TokenFailure::UnknownClient => Some("Unknown client"),
            TokenFailure::InvalidClientCredentials => Some("Invalid client credentials"),
            TokenFailure::InvalidCode => Some("Invalid code"),
            TokenFailure::CodeOtherClient => Some("Code issued to another client"),
            TokenFailure::InvalidRedirectUri => Some("Invalid redirect_uri"),
            TokenFailure::CodeExpired => Some("Code expired"),
            _ => None,
        };
        OAuthError {
            error: self.code().to_owned(),
            error_description: match description {
                Some(d) => Some(d.to_owned()),
                None => None,
            },
            error_uri: None,
        }
    }
}

/// A request to the token endpoint.
pub struct OAuthTokenForm {
    pub grant_type: String,
    pub code: Option<String>,
    pub redirect_uri: Option<String>,
    pub client_id: Option<String>,
    pub client_secret: Option<String>,
}

/// The client credentials a request carries: those of HTTP basic
/// authentication if it has them, else the form's `client_id` and
/// `client_secret` (both are needed).
pub open spec fn spec_client_credentials(
    basic: Option<(Seq<char>, Seq<char>)>,
    client_id: Option<Seq<char>>,
    client_secret: Option<Seq<char>>,
) -> Result<(Seq<char>, Seq<char>), TokenFailure> {
    match basic {
        Some(b) => Ok(b),
        None => match (client_id, client_secret) {
            (Some(i), Some(s)) => Ok((i, s)),
            _ => Err(TokenFailure::MissingCredentials),
        },
    }
}

pub open spec fn pair_view(p: Option<(String, String)>) -> Option<(Seq<char>, Seq<char>)> {
    match p {
        Some((a, b)) => Some((a@, b@)),
        None => None,
    }
}

/// The client credentials of a request.
pub fn client_credentials(basic: Option<(String, String)>, client_id: Option<&str>, client_secret: Option<&str>)
    -> (r: Result<(String, String), TokenFailure>)
    ensures
        match spec_client_credentials(pair_view(basic), opt_str_view(client_id), opt_str_view(client_secret)) {
            Ok((i, s)) => r matches Ok(c) && c.0@ == i && c.1@ == s,
            Err(e) => r == Err::<(String, String), TokenFailure>(e),
        },
{
    match basic {
        Some(b) => Ok(b),
        None => match (client_id, client_secret) {
            (Some(i), Some(s)) => Ok((i.to_owned(), s.to_owned())),
            _ => Err(TokenFailure::MissingCredentials),
        },
    }
}

/// What a token request asks for once its form is checked.
pub struct CodeExchange {
    pub code: String,
    pub redirect_uri: String,
    pub client_id: u128,
    pub client_secret: String,
}

/// The checks a token request passes before anything is looked up, in the
/// order they are made: the grant type, the code, the redirect URI, the
/// client credentials, and the client id (a UUID).
pub open spec fn spec_token_request(form: OAuthTokenForm, basic: Option<(Seq<char>, Seq<char>)>)
    -> Result<(Seq<char>, Seq<char>, u128, Seq<char>), TokenFailure> {
    if form.grant_type@ != "authorization_code"@ {
        Err(TokenFailure::UnsupportedGrantType)
    } else if form.code is None {
        Err(TokenFailure::MissingCode)
    } else if form.redirect_uri is None {
        Err(TokenFailure::MissingRedirectUri)
    } else {
        match spec_client_credentials(basic, opt_view(form.client_id), opt_view(form.client_secret)) {
            Err(e) => Err(e),
            Ok((id, secret)) => match uuid_parsed(id) {
                None => Err(TokenFailure::InvalidClientId),
                Some(cid) => Ok((form.code.unwrap()@, form.redirect_uri.unwrap()@, cid, secret)),
            },
        }
    }
}

/// Checks a token request's form and credentials.
pub fn token_request(form: &OAuthTokenForm, basic: Option<(String, String)>) -> (r: Result<CodeExchange, TokenFailure>)
    ensures
        match spec_token_request(*form, pair_view(basic)) {
            Ok((code, redirect, cid, secret)) => r matches Ok(x) && x.code@ == code
                && x.redirect_uri@ == redirect && x.client_id == cid && x.client_secret@ == secret,
            Err(e) => r matches Err(f) && f == e,
        },
{
    if !str_eq(form.grant_type.as_str(), "authorization_code") {
        return Err(TokenFailure::UnsupportedGrantType);
    }
    let code = match &form.code {
        Some(c) => c.clone(),
        None => return Err(TokenFailure::MissingCode),
    };
    let redirect_uri = match &form.redirect_uri {
        Some(r) => r.clone(),
        None => return Err(TokenFailure::MissingRedirectUri),
    };
    let id_arg: Option<&str> = match &form.client_id {
        Some(i) => Some(i.as_str()),
        None => None,
    };
    let secret_arg: Option<&str> = match &form.client_secret {
        Some(i) => Some(i.as_str()),
        None => None,
    };
    let (id, secret) = match client_credentials(basic, id_arg, secret_arg) {
        Ok(c) => c,
        Err(e) => return Err(e),
    };
    let client_id = match parse_uuid(id.as_str()) {
        Some(u) => u,
        None => return Err(TokenFailure::InvalidClientId),
    };
    Ok(CodeExchange { code, redirect_uri, client_id, client_secret: secret })
}

/// Checks the secret a client presented against the one it registered with.
pub fn check_client_secret(registered: &str, presented: &str) -> (r: Result<(), TokenFailure>)
    ensures
        r == (if registered@ == presented@ { Ok::<(), TokenFailure>(()) } else { Err(TokenFailure::InvalidClientCredentials) }),
{
    if str_eq(registered, presented) {
        Ok(())
    } else {
        Err(TokenFailure::InvalidClientCredentials)
    }
}

/// How long an authorization code stays valid, in nanoseconds.
pub const CODE_LIFETIME_NANOS: i64 = 60_000_000_000i64;

/// Whether an authorization code may be exchanged: it was issued to this
/// client, for this redirect URI, and no more than a minute before `now`
/// (times are nanoseconds since the Unix epoch).
pub open spec fn spec_check_code(
    code_client: u128, code_redirect: Seq<char>, code_time: int,
    client: u128, redirect: Seq<char>, now: int,
) -> Result<(), TokenFailure> {
    if code_client != client {
        Err(TokenFailure::CodeOtherClient)
    } else if code_redirect != redirect {
        Err(TokenFailure::InvalidRedirectUri)
    } else if code_time + CODE_LIFETIME_NANOS < now {
        Err(TokenFailure::CodeExpired)
    } else {
        Ok(())
    }
}

/// Checks an authorization code against the request that presents it.
pub fn check_code_grant(
    code_client: u128, code_redirect: &str, code_time: i64,
    client: u128, redirect: &str, now: i64,
) -> (r: Result<(), TokenFailure>)
    requires
        code_time + CODE_LIFETIME_NANOS <= i64::MAX,
    ensures
        r == spec_check_code(code_client, code_redirect@, code_time as int, client, redirect@, now as int),
{
    if code_client != client {
        Err(TokenFailure::CodeOtherClient)
    } else if !str_eq(code_redirect, redirect) {
        Err(TokenFailure::InvalidRedirectUri)
    } else if code_time + CODE_LIFETIME_NANOS < now {
        Err(TokenFailure::CodeExpired)
    } else {
        Ok(())
    }
}

/// A successful answer of the token endpoint.
#[derive(Debug)]
pub struct OAuthToken {
    pub access_token: String,
    pub token_type: String,
    pub scope: Option<String>,
    pub created_at: Option<i64>,
}

/// The answer that hands out a signed token with its scopes (joined by
/// spaces) and the time it was created (seconds since the Unix epoch).
pub fn token_response(access_token: String, scopes: &Vec<String>, created_at: i64) -> (r: OAuthToken)
    ensures
        r.access_token@ == access_token@,
        r.token_type@ == "Bearer"@,
        r.scope matches Some(s) && s@ == crate::text::spec_join(strings_view(scopes@), " "@),
        r.created_at == Some(created_at),
{
    OAuthToken {
        access_token,
        token_type: "Bearer".to_owned(),
        scope: Some(crate::text::join_strings(scopes, " ")),
        created_at: Some(created_at),
    }
}

/// The claims of a token issued by the server at `uri` to `subject`.
pub fn new_token_claims(uri: &str, subject: String, token_id: u128, now_secs: i64, scopes: Vec<String>) -> (r: TokenClaims)
    ensures
        r.issuer@ == "https://"@ + uri@,
        r.audience@ == "https://"@ + uri@,
        r.subject@ == subject@,
        r.issued_at == now_secs,
        r.not_before == now_secs,
        r.json_web_token_id == token_id,
        r.scopes@ == scopes@,
{
    let mut issuer = "https://".to_owned();
    crate::text::append_str(&mut issuer, uri);
    let mut audience = "https://".to_owned();
    crate::text::append_str(&mut audience, uri);
    TokenClaims {
        issuer,
        subject,
        audience,
        not_before: now_secs,
        issued_at: now_secs,
        json_web_token_id: token_id,
        scopes,
    }
}

/// The token an `Authorization` header carries: the part after the first
/// space, where the part before it is `Bearer`.
pub open spec fn spec_bearer_token(header: Option<Seq<char>>) -> Option<Seq<char>> {
    match header {
        Some(h) => match crate::text::spec_split_once(h, ' ') {
            Some((kind, token)) => if kind == "Bearer"@ { Some(token) } else { None },
            None => None,
        },
        None => None,
    }
}

/// Reads the bearer token of a request (`None` is answered with 401).
pub fn bearer_token(header: Option<&str>) -> (r: Option<String>)
    ensures
        opt_view(r) == spec_bearer_token(opt_str_view(header)),
{
    match header {
        Some(h) => match crate::text::split_once_char(h, ' ') {
            Some((kind, token)) => if str_eq(kind.as_str(), "Bearer") {
                Some(token)
            } else {
                None
            },
            None => None,
        },
        None => None,
    }
}

/// Whether a bearer token is honoured once its claims have verified, given
/// the stored token with its id: `None` where there is none (401), else
/// whether it was revoked (401 when it was).
pub fn stored_token_accepted(revoked: Option<bool>) -> (r: Result<(), u16>)
    ensures
        r == (if revoked == Some(false) { Ok::<(), u16>(()) } else { Err(401u16) }),
{
    match revoked {
        Some(false) => Ok(()),
        _ => Err(401),
    }
}

/// The id of an authorization code presented to the token endpoint: a code
/// that is no UUID is an invalid grant.
pub fn code_id(code: &str) -> (r: Result<u128, TokenFailure>)
    ensures
        r == (match uuid_parsed(code@) {
            Some(u) => Ok::<u128, TokenFailure>(u),
            None => Err(TokenFailure::InvalidCode),
        }),
{
    match parse_uuid(code) {
        Some(u) => Ok(u),
        None => Err(TokenFailure::InvalidCode),
    }
}

/// Whether a revocation may go ahead: the token was issued to the client
/// that asks.
pub fn check_revoke(token_client: u128, client: u128) -> (r: Result<(), TokenFailure>)
    ensures
        r == (if token_client == client { Ok::<(), TokenFailure>(()) } else { Err(TokenFailure::TokenOtherClient) }),
{
    if token_client == client {
        Ok(())
    } else {
        Err(TokenFailure::TokenOtherClient)
    }
}


/// Removes each element that equals the one before it (`Vec::dedup`).
pub open spec fn dedup_consecutive(s: Seq<Seq<char>>) -> Seq<Seq<char>>
    decreases s.len(),
{
    if s.len() <= 1 {
        s
    } else if s.last() == s[s.len() - 2] {
        dedup_consecutive(s.drop_last())
    } else {
        dedup_consecutive(s.drop_last()).push(s.last())
    }
}

proof fn lemma_dedup_last(s: Seq<Seq<char>>)
    requires
        s.len() >= 1,
    ensures
        dedup_consecutive(s).len() >= 1,
        dedup_consecutive(s).last() == s.last(),
    decreases s.len(),
{
    if s.len() > 1 {
        lemma_dedup_last(s.drop_last());
    }
}

/// The scopes an authorization request asks for: `read` when it names none,
/// else its whitespace-separated names with neighbouring repeats dropped.
pub open spec fn spec_requested_scopes(scope: Option<Seq<char>>) -> Seq<Seq<char>> {
    match scope {
        None => seq!["read"@],
        Some(s) => dedup_consecutive(spec_split_whitespace(s)),
    }
}

/// The scopes an authorization request asks for.
pub fn requested_scopes(scope: Option<&str>) -> (r: Vec<String>)
    ensures
        strings_view(r@) == spec_requested_scopes(opt_str_view(scope)),
{
    match scope {
        None => {
            let mut v: Vec<String> = Vec::new();
            v.push("read".to_owned());
            proof {
                assert(strings_view(v@) =~= seq!["read"@]);
            }
            v
        },
        Some(s) => {
            let words = split_whitespace(s);
            let ghost ws = strings_view(words@);
            let mut out: Vec<String> = Vec::new();
            let mut i: usize = 0;
            while i < words.len()
                invariant
                    i <= words.len(),
                    ws == strings_view(words@),
                    strings_view(out@) == dedup_consecutive(ws.take(i as int)),
                decreases words.len() - i,
            {
                proof {
                    assert(ws.take(i + 1).drop_last() =~= ws.take(i as int));
                    if i > 0 {
                        lemma_dedup_last(ws.take(i as int));
                    }
                }
                let ghost before = strings_view(out@);
                if i == 0 || !str_eq(words[i].as_str(), words[i - 1].as_str()) {
                    out.push(words[i].clone());
                    proof {
                        assert(strings_view(out@) =~= before.push(ws[i as int]));
                        if i == 0 {
                            assert(ws.take(1) =~= seq![ws[0]]);
                            assert(before =~= Seq::<Seq<char>>::empty()) by {
                                assert(ws.take(0) =~= Seq::<Seq<char>>::empty());
                            }
                        }
                    }
                }
                i = i + 1;
            }
            proof {
                assert(ws.take(words.len() as int) =~= ws);
            }
            out
        },
    }
}

/// What the `force_login` parameter asks: `None` where it is none of
/// `true`, `1`, `false`, `0` (the request is then refused).
pub open spec fn spec_force_login(f: Option<Seq<char>>) -> Option<bool> {
    match f {
        None => Some(false),
        Some(v) => if v == "true"@ || v == "1"@ {
            Some(true)
        } else if v == "false"@ || v == "0"@ {
            Some(false)
        } else {
            None
        },
    }
}

/// Reads the `force_login` parameter.
pub fn parse_force_login(f: Option<&str>) -> (r: Option<bool>)
    ensures
        r == spec_force_login(opt_str_view(f)),
{
    match f {
        None => Some(false),
        Some(v) => if str_eq(v, "true") || str_eq(v, "1") {
            Some(true)
        } else if str_eq(v, "false") || str_eq(v, "0") {
            Some(false)
        } else {
            None
        },
    }
}

/// The errors an authorization request is redirected back with.
#[derive(Clone, Copy, Debug, PartialEq, Eq, Structural)]
pub enum AuthorizeError {
    InvalidRequest,
    UnsupportedResponseType,
    InvalidScope,
    AccessDenied,
    ServerError,
}

pub open spec fn authorize_error_code(e: AuthorizeError) -> Seq<char> {
    match e {
        AuthorizeError::InvalidRequest => "invalid_request"@,
        AuthorizeError::UnsupportedResponseType => "unsupported_response_type"@,
        AuthorizeError::InvalidScope => "invalid_scope"@,
        AuthorizeError::AccessDenied => "access_denied"@,
        AuthorizeError::ServerError => "server_error"@,
    }
}

impl AuthorizeError {
    /// The value of the `error` parameter the client is redirected with.
    pub fn code(&self) -> (r: &'static str)
        ensures
            r@ == authorize_error_code(*self),
    {
        match self {
            AuthorizeError::InvalidRequest => "invalid_request",
            AuthorizeError::UnsupportedResponseType => "unsupported_response_type",
            AuthorizeError::InvalidScope => "invalid_scope",
            AuthorizeError::AccessDenied => "access_denied",
            AuthorizeError::ServerError => "server_error",
        }
    }
}

/// What the authorize endpoint does with a request for a known client and
/// redirect URI.
#[derive(Debug)]
pub enum AuthorizeStep {
    /// Redirect back to the client with an error.
    Refuse(AuthorizeError),
    /// Send the user to sign in first.
    SignIn,
    /// Go on to consent with these scopes.
    Continue(Vec<String>),
}

/// The decision of the authorize endpoint, in the order its checks are
/// made: the `force_login` parameter, the response type (only `code`), the
/// requested scopes (each registered by the client), and whether the user
/// has to sign in (asked to, or not signed in).
pub open spec fn spec_authorize(
    response_type: Seq<char>, force_login: Option<Seq<char>>, scope: Option<Seq<char>>,
    app_scopes: Seq<Seq<char>>, signed_in: bool,
) -> Result<Option<Seq<Seq<char>>>, AuthorizeError> {
    match spec_force_login(force_login) {
        None => Err(AuthorizeError::InvalidRequest),
        Some(force) => if response_type != "code"@ {
            Err(AuthorizeError::UnsupportedResponseType)
        } else {
            let scopes = spec_requested_scopes(scope);
            if !(forall|i: int| 0 <= i < scopes.len() ==> app_scopes.contains(#[trigger] scopes[i])) {
                Err(AuthorizeError::InvalidScope)
            } else if force || !signed_in {
                Ok(None)
            } else {
                Ok(Some(scopes))
            }
        },
    }
}

/// Decides an authorization request.
pub fn authorize_step(
    response_type: &str, force_login: Option<&str>, scope: Option<&str>,
    app_scopes: &Vec<String>, signed_in: bool,
) -> (r: AuthorizeStep)
    ensures
        match spec_authorize(response_type@, opt_str_view(force_login),
            opt_str_view(scope), strings_view(app_scopes@), signed_in) {
            Err(e) => r matches AuthorizeStep::Refuse(f) && f == e,
            Ok(None) => r is SignIn,
            Ok(Some(s)) => r matches AuthorizeStep::Continue(v) && strings_view(v@) == s,
        },
{
    let force = match parse_force_login(force_login) {
        Some(f) => f,
        None => return AuthorizeStep::Refuse(AuthorizeError::InvalidRequest),
    };
    if !str_eq(response_type, "code") {
        return AuthorizeStep::Refuse(AuthorizeError::UnsupportedResponseType);
    }
    let scopes = requested_scopes(scope);
    let ghost sv = strings_view(scopes@);
    let mut i: usize = 0;
    while i < scopes.len()
        invariant
            i <= scopes.len(),
            sv == strings_view(scopes@),
            sv == spec_requested_scopes(opt_str_view(scope)),
            spec_force_login(opt_str_view(force_login)) == Some(force),
            response_type@ == "code"@,
            forall|j: int| 0 <= j < i ==> strings_view(app_scopes@).contains(#[trigger] sv[j]),
        decreases scopes.len() - i,
    {
        if !contains_str(app_scopes, scopes[i].as_str()) {
            proof {
                assert(!strings_view(app_scopes@).contains(sv[i as int]));
            }
            return AuthorizeStep::Refuse(AuthorizeError::InvalidScope);
        }
        i = i + 1;
    }
    if force || !signed_in {
        AuthorizeStep::SignIn
    } else {
        AuthorizeStep::Continue(scopes)
    }
}

/// Whether the user has to be asked for consent: unless an earlier consent
/// to this client covers every requested scope.
pub open spec fn spec_should_consent(requested: Seq<Seq<char>>, consented: Option<Seq<Seq<char>>>) -> bool {
    match consented {
        None => true,
        Some(c) => !(forall|i: int| 0 <= i < requested.len() ==> c.contains(#[trigger] requested[i])),
    }
}

pub open spec fn opt_strings_view(v: Option<&Vec<String>>) -> Option<Seq<Seq<char>>> {
    match v {
        Some(x) => Some(strings_view(x@)),
        None => None,
    }
}

/// Decides whether to ask for consent.
pub fn should_consent(requested: &Vec<String>, consented: Option<&Vec<String>>) -> (r: bool)
    ensures
        r == spec_should_consent(strings_view(requested@), opt_strings_view(consented)),
{
    match consented {
        None => true,
        Some(c) => {
            let mut i: usize = 0;
            while i < requested.len()
                invariant
                    consented == Some(c),
                    i <= requested.len(),
                    forall|j: int| 0 <= j < i ==> strings_view(c@).contains(#[trigger] strings_view(requested@)[j]),
                decreases requested.len() - i,
            {
                if !contains_str(c, requested[i].as_str()) {
                    proof {
                        assert(!strings_view(c@).contains(strings_view(requested@)[i as int]));
                    }
                    return true;
                }
                i = i + 1;
            }
            false
        },
    }
}

/// The scopes shown on the consent page, each known scope with its
/// description (names that are no scope are left out).
pub open spec fn spec_consent_scopes(scopes: Seq<Seq<char>>) -> Seq<ApiScope>
    decreases scopes.len(),
{
    if scopes.len() == 0 {
        Seq::<ApiScope>::empty()
    } else {
        let rest = spec_consent_scopes(scopes.drop_last());
        match spec_lookup_scope(scopes.last()) {
            Some(s) => rest.push(s),
            None => rest,
        }
    }
}

/// The scopes shown on the consent page.
pub fn consent_scopes(scopes: &Vec<String>) -> (r: Vec<ApiScope>)
    ensures
        r@ == spec_consent_scopes(strings_view(scopes@)),
{
    let ghost sv = strings_view(scopes@);
    let mut out: Vec<ApiScope> = Vec::new();
    let mut i: usize = 0;
    while i < scopes.len()
        invariant
            i <= scopes.len(),
            sv == strings_view(scopes@),
            out@ == spec_consent_scopes(sv.take(i as int)),
        decreases scopes.len() - i,
    {
        proof {
            assert(sv.take(i + 1).drop_last() =~= sv.take(i as int));
        }
        match ApiScope::from_name(scopes[i].as_str()) {
            Some(s) => out.push(s),
            None => {},
        }
        i = i + 1;
    }
    proof {
        assert(sv.take(scopes.len() as int) =~= sv);
    }
    out
}

/// Why the consent form is answered with an error page.
#[derive(Clone, Copy, Debug, PartialEq, Eq, Structural)]
pub enum ConsentFailure {
    InvalidCsrfToken,
    InvalidState,
    InvalidConsent,
}

/// What the consent endpoint does.
#[derive(Clone, Copy, Debug, PartialEq, Eq, Structural)]
pub enum ConsentStep {
    /// Show an error page (answered with 400).
    Fail(ConsentFailure),
    /// Redirect back to the client with `access_denied`.
    Deny,
    /// Record the consent and return to the authorization request.
    Grant,
}

/// The decision of the consent endpoint: the CSRF token must check, the
/// pending authorization state must be there, and the answer must be `yes`
/// or `no`.
pub open spec fn spec_consent_step(csrf_ok: bool, state_ok: bool, consent: Seq<char>) -> ConsentStep {
    if !csrf_ok {
        ConsentStep::Fail(ConsentFailure::InvalidCsrfToken)
    } else if !state_ok {
        ConsentStep::Fail(ConsentFailure::InvalidState)
    } else if consent == "no"@ {
        ConsentStep::Deny
    } else if consent == "yes"@ {
        ConsentStep::Grant
    } else {
        ConsentStep::Fail(ConsentFailure::InvalidConsent)
    }
}

/// Decides a consent form.
pub fn consent_step(csrf_ok: bool, state_ok: bool, consent: &str) -> (r: ConsentStep)
    ensures
        r == spec_consent_step(csrf_ok, state_ok, consent@),
{
    if !csrf_ok {
        ConsentStep::Fail(ConsentFailure::InvalidCsrfToken)
    } else if !state_ok {
        ConsentStep::Fail(ConsentFailure::InvalidState)
    } else if str_eq(consent, "no") {
        ConsentStep::Deny
    } else if str_eq(consent, "yes") {
        ConsentStep::Grant
    } else {
        ConsentStep::Fail(ConsentFailure::InvalidConsent)
    }
}


/// Whether the redirect URI of an authorization request is the one the
/// client registered: both parse as URLs and the URLs are equal. `None`
/// where the registered URI does not parse (which registration rules out).
pub open spec fn spec_redirect_registered(given: Seq<char>, registered: Seq<char>) -> Option<bool> {
    match url_serialized(registered) {
        None => None,
        Some(r) => Some(url_serialized(given) == Some(r)),
    }
}

/// Compares a request's redirect URI with the registered one.
pub fn redirect_uri_registered(given: &str, registered: &str) -> (r: Option<bool>)
    ensures
        r == spec_redirect_registered(given@, registered@),
{
    let reg = match parse_url(registered) {
        Some(u) => u,
        None => return None,
    };
    match parse_url(given) {
        Some(g) => Some(str_eq(g.as_str(), reg.as_str())),
        None => Some(false),
    }
}

/// The error pages the authorize endpoint shows in place of redirecting,
/// where it cannot trust the client or its redirect URI.
#[derive(Clone, Copy, Debug, PartialEq, Eq, Structural)]
pub enum AuthorizePage {
    /// The client id is no UUID, or names no registered client.
    ClientNotFound,
    /// The redirect URI does not parse, or is not the registered one.
    InvalidRedirectUri,
}

/// Reads the client id of an authorization request: a client id that is
/// no UUID is answered with the client-not-found page.
pub fn authorize_client_id(client_id: &str) -> (r: Result<u128, AuthorizePage>)
    ensures
        r == (match uuid_parsed(client_id@) {
            Some(u) => Ok::<u128, AuthorizePage>(u),
            None => Err(AuthorizePage::ClientNotFound),
        }),
{
    match parse_uuid(client_id) {
        Some(u) => Ok(u),
        None => Err(AuthorizePage::ClientNotFound),
    }
}

/// The page, if any, for an authorization request whose client has the
/// registered redirect URI `registered` (`None` where no client has that
/// id): the client-not-found page for an unknown client, the
/// invalid-redirect-URI page for a redirect URI that does not parse or is
/// not the registered one. (A registered URI that does not parse, which
/// registration never stores, gets the same page.)
pub open spec fn spec_authorize_page(registered: Option<Seq<char>>, given: Seq<char>) -> Result<(), AuthorizePage> {
    match registered {
        None => Err(AuthorizePage::ClientNotFound),
        Some(reg) => if spec_redirect_registered(given, reg) == Some(true) {
            Ok(())
        } else {
            Err(AuthorizePage::InvalidRedirectUri)
        },
    }
}

/// Checks the client and the redirect URI of an authorization request;
/// only past these checks are errors sent back to the client.
pub fn authorize_page(registered: Option<&str>, given: &str) -> (r: Result<(), AuthorizePage>)
    ensures
        r == spec_authorize_page(opt_str_view(registered), given@),
{
    match registered {
        None => Err(AuthorizePage::ClientNotFound),
        Some(reg) => match redirect_uri_registered(given, reg) {
            Some(true) => Ok(()),
            _ => Err(AuthorizePage::InvalidRedirectUri),
        },
    }
}

/// The query parameters a redirect back to the client carries: the
/// request's `state` if it had one, then `key=value`.
pub open spec fn redirect_pairs(state: Option<Seq<char>>, key: Seq<char>, value: Seq<char>) -> Seq<(Seq<char>, Seq<char>)> {
    match state {
        Some(s) => seq![("state"@, s), (key, value)],
        None => seq![(key, value)],
    }
}

/// The URL a client is sent back to, with `key=value` (an error, or the
/// authorization code) added to its query after the request's state.
pub fn client_redirect(redirect_uri: &str, state: Option<&str>, key: &str, value: &str) -> (r: Option<String>)
    ensures
        opt_view(r) == url_with_query(redirect_uri@, redirect_pairs(opt_str_view(state), key@, value@)),
{
    let mut pairs: Vec<(String, String)> = Vec::new();
    match state {
        Some(s) => pairs.push(("state".to_owned(), s.to_owned())),
        None => {},
    }
    pairs.push((key.to_owned(), value.to_owned()));
    proof {
        assert(crate::signature::pairs_view(pairs@) =~= redirect_pairs(opt_str_view(state), key@, value@));
    }
    append_query_pairs(redirect_uri, &pairs)
}


pub open spec fn opt_u64(v: Option<u64>) -> u64 {
    match v {
        Some(x) => x,
        None => 0,
    }
}

pub open spec fn some_view(s: Option<String>) -> Seq<char> {
    match s {
        Some(x) => x@,
        None => Seq::empty(),
    }
}

/// Whether verified claims make up a token of this server: every claim it
/// signs is there, the token id is a UUID and the scopes are given.
pub open spec fn complete_claims(c: VerifiedClaims) -> bool {
    &&& c.issuer is Some
    &&& c.subject is Some
    &&& c.audience is Some
    &&& c.not_before is Some
    &&& c.issued_at is Some
    &&& c.jwt_id is Some
    &&& uuid_parsed(some_view(c.jwt_id)) is Some
    &&& c.scopes is Some
}

/// The token that signing the claims `c` with `key` gives.
pub open spec fn claims_token(key: Seq<u8>, c: TokenClaims) -> Seq<char> {
    jwt_hs512_token(key, c.issuer@, c.subject@, c.audience@, c.not_before as u64, c.issued_at as u64,
        uuid_text(c.json_web_token_id), c.scope_names())
}

/// Whether two sets of claims hold the same values.
pub open spec fn same_claims(a: TokenClaims, b: TokenClaims) -> bool {
    &&& a.issuer@ == b.issuer@
    &&& a.subject@ == b.subject@
    &&& a.audience@ == b.audience@
    &&& a.not_before == b.not_before
    &&& a.issued_at == b.issued_at
    &&& a.json_web_token_id == b.json_web_token_id
    &&& a.scope_names() == b.scope_names()
}

impl TokenClaims {
    /// Signs the claims as a bearer token with the server's secret (HMAC-
    /// SHA-512; the times as unsigned seconds, the id in its hyphenated
    /// form). `None` where the crate reports an error, which it does
    /// exactly for a key shorter than 12 bytes.
    pub fn sign(&self, key: &[u8]) -> (r: Option<String>)
        ensures
            r is Some <==> key@.len() >= 12,
            r matches Some(t) ==> t@ == claims_token(key@, *self),
            r is Some ==> uuid_parsed(uuid_text(self.json_web_token_id)) == Some(self.json_web_token_id),
    {
        let jti = uuid_to_string(self.json_web_token_id);
        jwt_sign_hs512(key, self.issuer.as_str(), self.subject.as_str(), self.audience.as_str(),
            self.not_before as u64, self.issued_at as u64, jti.as_str(), &self.scopes)
    }

    /// The claims of a verified token: `None` when a claim is missing or the
    /// token id is no UUID. A token naming several audiences counts as having
    /// the empty audience.
    pub fn from_verified(c: VerifiedClaims) -> (r: Option<TokenClaims>)
        ensures
            r is Some <==> complete_claims(c),
            r matches Some(t) ==> {
                &&& t.issuer@ == some_view(c.issuer)
                &&& t.subject@ == some_view(c.subject)
                &&& t.audience@ == (match c.audience {
                    Some(a) => some_view(a),
                    None => Seq::<char>::empty(),
                })
                &&& t.not_before == opt_u64(c.not_before) as i64
                &&& t.issued_at == opt_u64(c.issued_at) as i64
                &&& Some(t.json_web_token_id) == uuid_parsed(some_view(c.jwt_id))
                &&& (c.scopes matches Some(s) && t.scopes@ == s@)
            },
    {
        let issuer = match c.issuer { Some(x) => x, None => return None };
        let subject = match c.subject { Some(x) => x, None => return None };
        let audience = match c.audience {
            Some(Some(a)) => a,
            Some(None) => String::new(),
            None => return None,
        };
        let not_before = match c.not_before { Some(x) => x, None => return None };
        let issued_at = match c.issued_at { Some(x) => x, None => return None };
        let jti = match c.jwt_id { Some(x) => x, None => return None };
        let id = match parse_uuid(jti.as_str()) { Some(u) => u, None => return None };
        let scopes = match c.scopes { Some(s) => s, None => return None };
        Some(TokenClaims {
            issuer,
            subject,
            audience,
            not_before: not_before as i64,
            issued_at: issued_at as i64,
            json_web_token_id: id,
            scopes,
        })
    }

    /// Checks a bearer token of the server at `uri`: signed with the
    /// server's secret, for the audience `https://{uri}`, not from the
    /// future, and holding this server's claims. An accepted token's
    /// audience is `https://{uri}`, or empty where the token names several.
    /// Whether a token is accepted depends on the clock; the last clause is
    /// the round trip: an accepted token that `sign` made with this key gives
    /// back the claims that were signed (times from 0 to 2^32 seconds).
    pub fn verify(token: &str, key: &[u8], uri: &str) -> (r: Option<TokenClaims>)
        ensures
            r is Some ==> key@.len() >= 12,
            r matches Some(t) ==> (t.audience@ == "https://"@ + uri@ || t.audience@.len() == 0),
            forall|c: TokenClaims| #![trigger claims_token(key@, c)]
                token@ == claims_token(key@, c) && 0 <= c.not_before < 0x1_0000_0000i64
                    && 0 <= c.issued_at < 0x1_0000_0000i64
                    && uuid_parsed(uuid_text(c.json_web_token_id)) == Some(c.json_web_token_id)
                    && r is Some
                    ==> same_claims(r->0, c),
    {
        let mut audience = "https://".to_owned();
        crate::text::append_str(&mut audience, uri);
        proof { reveal_strlit("https://"); }
        assert(audience@ == "https://"@ + uri@);
        let v = jwt_verify_hs512(key, token, audience.as_str());
        let ghost gv = v;
        let r = match v {
            Some(c) => TokenClaims::from_verified(c),
            None => None,
        };
        proof {
            assert forall|c: TokenClaims| #![trigger claims_token(key@, c)]
                token@ == claims_token(key@, c) && 0 <= c.not_before < 0x1_0000_0000i64
                    && 0 <= c.issued_at < 0x1_0000_0000i64
                    && uuid_parsed(uuid_text(c.json_web_token_id)) == Some(c.json_web_token_id)
                    && r is Some
                    implies same_claims(r->0, c) by {
                let nb = c.not_before as u64;
                let ia = c.issued_at as u64;
                assert(token@ == jwt_hs512_token(key@, c.issuer@, c.subject@, c.audience@, nb, ia,
                    uuid_text(c.json_web_token_id), c.scope_names()));
                assert(claims_match(gv->0, c.issuer@, c.subject@, c.audience@, nb, ia,
                    uuid_text(c.json_web_token_id), c.scope_names()));
                let t = r->0;
                assert(t.not_before == c.not_before);
                assert(t.issued_at == c.issued_at);
            }
        }
        r
    }
}

/// The general scopes grant their families: a token holding `write` is
/// granted every `write:` scope, and one holding `read` every `read:` scope.
pub proof fn lemma_general_scopes_grant_families(scopes: Seq<Seq<char>>, s: ApiScope)
    ensures
        scope_name(s).len() > 6 && scope_name(s).take(6) == "write:"@ && scopes.contains("write"@)
            ==> spec_has_scope(scopes, scope_name(s)),
        scope_name(s).len() > 5 && scope_name(s).take(5) == "read:"@ && scopes.contains("read"@)
            ==> spec_has_scope(scopes, scope_name(s)),
{
    reveal_strlit("read");
    reveal_strlit("read:accounts");
    reveal_strlit("read:blocks");
    reveal_strlit("read:bookmarks");
    reveal_strlit("read:favourites");
    reveal_strlit("read:filters");
    reveal_strlit("read:follows");
    reveal_strlit("read:lists");
    reveal_strlit("read:mutes");
    reveal_strlit("read:notifications");
    reveal_strlit("read:search");
    reveal_strlit("read:statuses");
    reveal_strlit("write");
    reveal_strlit("write:accounts");
    reveal_strlit("write:blocks");
    reveal_strlit("write:bookmarks");
    reveal_strlit("write:conversations");
    reveal_strlit("write:favourites");
    reveal_strlit("write:filters");
    reveal_strlit("write:follows");
    reveal_strlit("write:lists");
    reveal_strlit("write:media");
    reveal_strlit("write:mutes");
    reveal_strlit("write:notifications");
    reveal_strlit("write:reports");
    reveal_strlit("write:statuses");
    reveal_strlit("follow");
    reveal_strlit("push");
    reveal_strlit("write:");
    reveal_strlit("read:");
    let n = scope_name(s);
    if n.len() > 6 && n.take(6) == "write:"@ && scopes.contains("write"@) {
        assert(n[0] == 'w') by {
            assert(n.take(6)[0] == n[0]);
        }
        assert(scope_parents(s).len() > 0 && scope_parents(s)[0] == ApiScope::Write);
        lemma_parent_scope_grants(scopes, s, 0);
    }
    if n.len() > 5 && n.take(5) == "read:"@ && scopes.contains("read"@) {
        assert(n[0] == 'r' && n[4] == ':') by {
            assert(n.take(5)[0] == n[0]);
            assert(n.take(5)[4] == n[4]);
        }
        assert(scope_parents(s).len() > 0 && scope_parents(s)[0] == ApiScope::Read);
        lemma_parent_scope_grants(scopes, s, 0);
    }
}

/// Whether a scope name belongs to the family that `follow` grants: the
/// block, follow and mute scopes, to read or to write.
pub open spec fn follow_family(n: Seq<char>) -> bool {
    ||| n.len() > 7 && n.skip(n.len() - 7) == ":blocks"@
    ||| n.len() > 8 && n.skip(n.len() - 8) == ":follows"@
    ||| n.len() > 6 && n.skip(n.len() - 6) == ":mutes"@
}

/// What a token holding a single general scope is granted, scope by scope:
/// `write` grants itself and every `write:` scope, `read` itself and every
/// `read:` scope, `follow` itself and the block, follow and mute scopes,
/// and `push` only itself.
pub proof fn lemma_single_scope_tokens(s: ApiScope)
    ensures
        spec_has_scope(seq!["write"@], scope_name(s))
            <==> (scope_name(s) == "write"@ || (scope_name(s).len() > 6 && scope_name(s).take(6) == "write:"@)),
        spec_has_scope(seq!["read"@], scope_name(s))
            <==> (scope_name(s) == "read"@ || (scope_name(s).len() > 5 && scope_name(s).take(5) == "read:"@)),
        spec_has_scope(seq!["follow"@], scope_name(s)) <==> (scope_name(s) == "follow"@ || follow_family(scope_name(s))),
        spec_has_scope(seq!["push"@], scope_name(s)) <==> scope_name(s) == "push"@,
{
    reveal_strlit("read");
    reveal_strlit("read:accounts");
    reveal_strlit("read:blocks");
    reveal_strlit("read:bookmarks");
    reveal_strlit("read:favourites");
    reveal_strlit("read:filters");
    reveal_strlit("read:follows");
    reveal_strlit("read:lists");
    reveal_strlit("read:mutes");
    reveal_strlit("read:notifications");
    reveal_strlit("read:search");
    reveal_strlit("read:statuses");
    reveal_strlit("write");
    reveal_strlit("write:accounts");
    reveal_strlit("write:blocks");
    reveal_strlit("write:bookmarks");
    reveal_strlit("write:conversations");
    reveal_strlit("write:favourites");
    reveal_strlit("write:filters");
    reveal_strlit("write:follows");
    reveal_strlit("write:lists");
    reveal_strlit("write:media");
    reveal_strlit("write:mutes");
    reveal_strlit("write:notifications");
    reveal_strlit("write:reports");
    reveal_strlit("write:statuses");
    reveal_strlit("follow");
    reveal_strlit("push");
    reveal_strlit("write:");
    reveal_strlit("read:");
    reveal_strlit(":blocks");
    reveal_strlit(":follows");
    reveal_strlit(":mutes");
    assert("read"@.len() == 4);
    assert("read:accounts"@.len() == 13);
    assert("read:blocks"@.len() == 11);
    assert("read:bookmarks"@.len() == 14);
    assert("read:favourites"@.len() == 15);
    assert("read:filters"@.len() == 12);
    assert("read:follows"@.len() == 12);
    assert("read:lists"@.len() == 10);
    assert("read:mutes"@.len() == 10);
    assert("read:notifications"@.len() == 18);
    assert("read:search"@.len() == 11);
    assert("read:statuses"@.len() == 13);
    assert("write"@.len() == 5);
    assert("write:accounts"@.len() == 14);
    assert("write:blocks"@.len() == 12);
    assert("write:bookmarks"@.len() == 15);
    assert("write:conversations"@.len() == 19);
    assert("write:favourites"@.len() == 16);
    assert("write:filters"@.len() == 13);
    assert("write:follows"@.len() == 13);
    assert("write:lists"@.len() == 11);
    assert("write:media"@.len() == 11);
    assert("write:mutes"@.len() == 11);
    assert("write:notifications"@.len() == 19);
    assert("write:reports"@.len() == 13);
    assert("write:statuses"@.len() == 14);
    assert("follow"@.len() == 6);
    assert("push"@.len() == 4);
    assert("write:"@.len() == 6);
    assert("read:"@.len() == 5);
    assert(":blocks"@.len() == 7);
    assert(":follows"@.len() == 8);
    assert(":mutes"@.len() == 6);
    lemma_lookup_scope_name(s);
    let n = scope_name(s);
    let ps = scope_parents(s);
    assert(forall|g: Seq<char>, x: Seq<char>| #[trigger] seq![g].contains(x) <==> x == g) by {
        assert forall|g: Seq<char>, x: Seq<char>| #[trigger] seq![g].contains(x) implies x == g by {
            let k = choose|k: int| 0 <= k < seq![g].len() && seq![g][k] == x;
        }
        assert forall|g: Seq<char>, x: Seq<char>| x == g implies #[trigger] seq![g].contains(x) by {
            assert(seq![g][0] == x);
        }
    }
    if ps.len() > 0 {
        assert(seq!["write"@].contains(scope_name(ps[0])) == (scope_name(ps[0]) == "write"@));
        assert(seq!["read"@].contains(scope_name(ps[0])) == (scope_name(ps[0]) == "read"@));
        assert(seq!["follow"@].contains(scope_name(ps[0])) == (scope_name(ps[0]) == "follow"@));
        assert(seq!["push"@].contains(scope_name(ps[0])) == (scope_name(ps[0]) == "push"@));
    }
    if ps.len() > 1 {
        assert(seq!["write"@].contains(scope_name(ps[1])) == (scope_name(ps[1]) == "write"@));
        assert(seq!["read"@].contains(scope_name(ps[1])) == (scope_name(ps[1]) == "read"@));
        assert(seq!["follow"@].contains(scope_name(ps[1])) == (scope_name(ps[1]) == "follow"@));
        assert(seq!["push"@].contains(scope_name(ps[1])) == (scope_name(ps[1]) == "push"@));
    }
    assert("write:"@[0] == 'w' && "read:"@[0] == 'r');
    assert("push"@[0] == 'p' && "read"@[0] == 'r' && "follow"@[0] == 'f' && "write"@[0] == 'w');
    assert(":blocks"@[0] == ':' && ":follows"@[0] == ':' && ":mutes"@[0] == ':');
    match s {
        ApiScope::Read => {
            assert(n =~= "read"@);
            assert(n[0] == 'r');
        },
        ApiScope::ReadAccounts => {
            assert(n =~= "read:accounts"@);
            assert(n[0] == 'r');
            assert(n.take(6)[0] == n[0]);
            assert(n.take(5) =~= "read:"@);
            assert(n.skip(6)[0] == n[6] && n[6] == 'c' && ":blocks"@[0] == ':');
            assert(n.skip(5)[0] == n[5] && n[5] == 'a' && ":follows"@[0] == ':');
            assert(n.skip(7)[0] == n[7] && n[7] == 'c' && ":mutes"@[0] == ':');
        },
        ApiScope::ReadBlocks => {
            assert(n =~= "read:blocks"@);
            assert(n[0] == 'r');
            assert(n.take(6)[0] == n[0]);
            assert(n.take(5) =~= "read:"@);
            assert(n.skip(4) =~= ":blocks"@);
            assert(n.skip(3)[0] == n[3] && n[3] == 'd' && ":follows"@[0] == ':');
            assert(n.skip(5)[0] == n[5] && n[5] == 'b' && ":mutes"@[0] == ':');
        },
        ApiScope::ReadBookmarks => {
            assert(n =~= "read:bookmarks"@);
            assert(n[0] == 'r');
            assert(n.take(6)[0] == n[0]);
            assert(n.take(5) =~= "read:"@);
            assert(n.skip(7)[0] == n[7] && n[7] == 'o' && ":blocks"@[0] == ':');
            assert(n.skip(6)[0] == n[6] && n[6] == 'o' && ":follows"@[0] == ':');
            assert(n.skip(8)[0] == n[8] && n[8] == 'k' && ":mutes"@[0] == ':');
        },
        ApiScope::ReadFavourites => {
            assert(n =~= "read:favourites"@);
            assert(n[0] == 'r');
            assert(n.take(6)[0] == n[0]);
            assert(n.take(5) =~= "read:"@);
            assert(n.skip(8)[0] == n[8] && n[8] == 'o' && ":blocks"@[0] == ':');
            assert(n.skip(7)[0] == n[7] && n[7] == 'v' && ":follows"@[0] == ':');
            assert(n.skip(9)[0] == n[9] && n[9] == 'u' && ":mutes"@[0] == ':');
        },
        ApiScope::ReadFilters => {
            assert(n =~= "read:filters"@);
            assert(n[0] == 'r');
            assert(n.take(6)[0] == n[0]);
            assert(n.take(5) =~= "read:"@);
            assert(n.skip(5)[0] == n[5] && n[5] == 'f' && ":blocks"@[0] == ':');
            assert(n.skip(4)[2] == n[6] && n[6] == 'i' && ":follows"@[2] == 'o');
            assert(n.skip(6)[0] == n[6] && n[6] == 'i' && ":mutes"@[0] == ':');
        },
        ApiScope::ReadFollows => {
            assert(n =~= "read:follows"@);
            assert(n[0] == 'r');
            assert(n.take(6)[0] == n[0]);
            assert(n.take(5) =~= "read:"@);
            assert(n.skip(5)[0] == n[5] && n[5] == 'f' && ":blocks"@[0] == ':');
            assert(n.skip(4) =~= ":follows"@);
            assert(n.skip(6)[0] == n[6] && n[6] == 'o' && ":mutes"@[0] == ':');
        },
        ApiScope::ReadLists => {
            assert(n =~= "read:lists"@);
            assert(n[0] == 'r');
            assert(n.take(6)[0] == n[0]);
            assert(n.take(5) =~= "read:"@);
            assert(n.skip(3)[0] == n[3] && n[3] == 'd' && ":blocks"@[0] == ':');
            assert(n.skip(2)[0] == n[2] && n[2] == 'a' && ":follows"@[0] == ':');
            assert(n.skip(4)[1] == n[5] && n[5] == 'l' && ":mutes"@[1] == 'm');
        },
        ApiScope::ReadMutes => {
            assert(n =~= "read:mutes"@);
            assert(n[0] == 'r');
            assert(n.take(6)[0] == n[0]);
            assert(n.take(5) =~= "read:"@);
            assert(n.skip(3)[0] == n[3] && n[3] == 'd' && ":blocks"@[0] == ':');
            assert(n.skip(2)[0] == n[2] && n[2] == 'a' && ":follows"@[0] == ':');
            assert(n.skip(4) =~= ":mutes"@);
        },
        ApiScope::ReadNotifications => {
            assert(n =~= "read:notifications"@);
            assert(n[0] == 'r');
            assert(n.take(6)[0] == n[0]);
            assert(n.take(5) =~= "read:"@);
            assert(n.skip(11)[0] == n[11] && n[11] == 'c' && ":blocks"@[0] == ':');
            assert(n.skip(10)[0] == n[10] && n[10] == 'i' && ":follows"@[0] == ':');
            assert(n.skip(12)[0] == n[12] && n[12] == 'a' && ":mutes"@[0] == ':');
        },
        ApiScope::ReadSearch => {
            assert(n =~= "read:search"@);
            assert(n[0] == 'r');
            assert(n.take(6)[0] == n[0]);
            assert(n.take(5) =~= "read:"@);
            assert(n.skip(4)[1] == n[5] && n[5] == 's' && ":blocks"@[1] == 'b');
            assert(n.skip(3)[0] == n[3] && n[3] == 'd' && ":follows"@[0] == ':');
            assert(n.skip(5)[0] == n[5] && n[5] == 's' && ":mutes"@[0] == ':');
        },
        ApiScope::ReadStatuses => {
            assert(n =~= "read:statuses"@);
            assert(n[0] == 'r');
            assert(n.take(6)[0] == n[0]);
            assert(n.take(5) =~= "read:"@);
            assert(n.skip(6)[0] == n[6] && n[6] == 't' && ":blocks"@[0] == ':');
            assert(n.skip(5)[0] == n[5] && n[5] == 's' && ":follows"@[0] == ':');
            assert(n.skip(7)[0] == n[7] && n[7] == 'a' && ":mutes"@[0] == ':');
        },
        ApiScope::Write => {
            assert(n =~= "write"@);
            assert(n[0] == 'w');
        },
        ApiScope::WriteAccounts => {
            assert(n =~= "write:accounts"@);
            assert(n[0] == 'w');
            assert(n.take(6) =~= "write:"@);
            assert(n.take(5)[0] == n[0]);
            assert(n.skip(7)[0] == n[7] && n[7] == 'c' && ":blocks"@[0] == ':');
            assert(n.skip(6)[0] == n[6] && n[6] == 'a' && ":follows"@[0] == ':');
            assert(n.skip(8)[0] == n[8] && n[8] == 'c' && ":mutes"@[0] == ':');
        },
        ApiScope::WriteBlocks => {
            assert(n =~= "write:blocks"@);
            assert(n[0] == 'w');
            assert(n.take(6) =~= "write:"@);
            assert(n.take(5)[0] == n[0]);
            assert(n.skip(5) =~= ":blocks"@);
            assert(n.skip(4)[0] == n[4] && n[4] == 'e' && ":follows"@[0] == ':');
            assert(n.skip(6)[0] == n[6] && n[6] == 'b' && ":mutes"@[0] == ':');
        },
        ApiScope::WriteBookmarks => {
            assert(n =~= "write:bookmarks"@);
            assert(n[0] == 'w');
            assert(n.take(6) =~= "write:"@);
            assert(n.take(5)[0] == n[0]);
            assert(n.skip(8)[0] == n[8] && n[8] == 'o' && ":blocks"@[0] == ':');
            assert(n.skip(7)[0] == n[7] && n[7] == 'o' && ":follows"@[0] == ':');
            assert(n.skip(9)[0] == n[9] && n[9] == 'k' && ":mutes"@[0] == ':');
        },
        ApiScope::WriteConversations => {
            assert(n =~= "write:conversations"@);
            assert(n[0] == 'w');
            assert(n.take(6) =~= "write:"@);
            assert(n.take(5)[0] == n[0]);
            assert(n.skip(12)[0] == n[12] && n[12] == 's' && ":blocks"@[0] == ':');
            assert(n.skip(11)[0] == n[11] && n[11] == 'r' && ":follows"@[0] == ':');
            assert(n.skip(13)[0] == n[13] && n[13] == 'a' && ":mutes"@[0] == ':');
        },
        ApiScope::WriteFavourites => {
            assert(n =~= "write:favourites"@);
            assert(n[0] == 'w');
            assert(n.take(6) =~= "write:"@);
            assert(n.take(5)[0] == n[0]);
            assert(n.skip(9)[0] == n[9] && n[9] == 'o' && ":blocks"@[0] == ':');
            assert(n.skip(8)[0] == n[8] && n[8] == 'v' && ":follows"@[0] == ':');
            assert(n.skip(10)[0] == n[10] && n[10] == 'u' && ":mutes"@[0] == ':');
        },
        ApiScope::WriteFilters => {
            assert(n =~= "write:filters"@);
            assert(n[0] == 'w');
            assert(n.take(6) =~= "write:"@);
            assert(n.take(5)[0] == n[0]);
            assert(n.skip(6)[0] == n[6] && n[6] == 'f' && ":blocks"@[0] == ':');
            assert(n.skip(5)[2] == n[7] && n[7] == 'i' && ":follows"@[2] == 'o');
            assert(n.skip(7)[0] == n[7] && n[7] == 'i' && ":mutes"@[0] == ':');
        },
        ApiScope::WriteFollows => {
            assert(n =~= "write:follows"@);
            assert(n[0] == 'w');
            assert(n.take(6) =~= "write:"@);
            assert(n.take(5)[0] == n[0]);
            assert(n.skip(6)[0] == n[6] && n[6] == 'f' && ":blocks"@[0] == ':');
            assert(n.skip(5) =~= ":follows"@);
            assert(n.skip(7)[0] == n[7] && n[7] == 'o' && ":mutes"@[0] == ':');
        },
        ApiScope::WriteLists => {
            assert(n =~= "write:lists"@);
            assert(n[0] == 'w');
            assert(n.take(6) =~= "write:"@);
            assert(n.take(5)[0] == n[0]);
            assert(n.skip(4)[0] == n[4] && n[4] == 'e' && ":blocks"@[0] == ':');
            assert(n.skip(3)[0] == n[3] && n[3] == 't' && ":follows"@[0] == ':');
            assert(n.skip(5)[1] == n[6] && n[6] == 'l' && ":mutes"@[1] == 'm');
        },
        ApiScope::WriteMedia => {
            assert(n =~= "write:media"@);
            assert(n[0] == 'w');
            assert(n.take(6) =~= "write:"@);
            assert(n.take(5)[0] == n[0]);
            assert(n.skip(4)[0] == n[4] && n[4] == 'e' && ":blocks"@[0] == ':');
            assert(n.skip(3)[0] == n[3] && n[3] == 't' && ":follows"@[0] == ':');
            assert(n.skip(5)[2] == n[7] && n[7] == 'e' && ":mutes"@[2] == 'u');
        },
        ApiScope::WriteMutes => {
            assert(n =~= "write:mutes"@);
            assert(n[0] == 'w');
            assert(n.take(6) =~= "write:"@);
            assert(n.take(5)[0] == n[0]);
            assert(n.skip(4)[0] == n[4] && n[4] == 'e' && ":blocks"@[0] == ':');
            assert(n.skip(3)[0] == n[3] && n[3] == 't' && ":follows"@[0] == ':');
            assert(n.skip(5) =~= ":mutes"@);
        },
        ApiScope::WriteNotifications => {
            assert(n =~= "write:notifications"@);
            assert(n[0] == 'w');
            assert(n.take(6) =~= "write:"@);
            assert(n.take(5)[0] == n[0]);
            assert(n.skip(12)[0] == n[12] && n[12] == 'c' && ":blocks"@[0] == ':');
            assert(n.skip(11)[0] == n[11] && n[11] == 'i' && ":follows"@[0] == ':');
            assert(n.skip(13)[0] == n[13] && n[13] == 'a' && ":mutes"@[0] == ':');
        },
        ApiScope::WriteReports => {
            assert(n =~= "write:reports"@);
            assert(n[0] == 'w');
            assert(n.take(6) =~= "write:"@);
            assert(n.take(5)[0] == n[0]);
            assert(n.skip(6)[0] == n[6] && n[6] == 'r' && ":blocks"@[0] == ':');
            assert(n.skip(5)[1] == n[6] && n[6] == 'r' && ":follows"@[1] == 'f');
            assert(n.skip(7)[0] == n[7] && n[7] == 'e' && ":mutes"@[0] == ':');
        },
        ApiScope::WriteStatuses => {
            assert(n =~= "write:statuses"@);
            assert(n[0] == 'w');
            assert(n.take(6) =~= "write:"@);
            assert(n.take(5)[0] == n[0]);
            assert(n.skip(7)[0] == n[7] && n[7] == 't' && ":blocks"@[0] == ':');
            assert(n.skip(6)[0] == n[6] && n[6] == 's' && ":follows"@[0] == ':');
            assert(n.skip(8)[0] == n[8] && n[8] == 'a' && ":mutes"@[0] == ':');
        },
        ApiScope::Follow => {
            assert(n =~= "follow"@);
            assert(n[0] == 'f');
            assert(n.take(5)[0] == n[0]);
        },
        ApiScope::Push => {
            assert(n =~= "push"@);
            assert(n[0] == 'p');
        },
    }
}

} // verus!
