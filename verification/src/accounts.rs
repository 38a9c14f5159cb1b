//! Local accounts: how they are made at first sign-in, and how accounts
//! are shown through the client API.
use vstd::prelude::*;
use crate::text::{opt_view, opt_str_view};
use crate::text::append_str;
use crate::ids::{new_uuid_v4, parse_uuid, uuid_parsed, uuid_text, uuid_to_string};
use crate::media::{media_url, ImageFormat, spec_attachment_accepted, attachment_accepted};
use crate::uris::{domain_of_url, url_domain};
use crate::crypto::generate_private_key_pem;

verus! {

/// The `acct` of an account: the user name, followed by `@` and the domain
/// of the account's URL when it has one with a domain.
pub open spec fn spec_acct(username: Seq<char>, url: Option<Seq<char>>) -> Seq<char> {
    match url {
        Some(u) => match url_domain(u) {
            Some(d) => username + "@"@ + d,
            None => username,
        },
        None => username,
    }
}

/// The `acct` of an account.
pub fn account_acct(username: &str, url: Option<&str>) -> (r: String)
    ensures
        r@ == spec_acct(username@, opt_str_view(url)),
{
    let domain = match url {
        Some(u) => domain_of_url(u),
        None => None,
    };
    match domain {
        Some(d) => {
            let mut s = username.to_owned();
            append_str(&mut s, "@");
            append_str(&mut s, d.as_str());
            s
        },
        None => username.to_owned(),
    }
}

/// The profile URL of an account: this server's profile page for a local
/// account, the URL it came with for a remote one.
pub fn account_url(uri: &str, local: bool, id: u128, url: Option<String>) -> (r: Option<String>)
    ensures
        opt_view(r) == (if local {
            Some("https://"@ + uri@ + "/users/"@ + uuid_text(id))
        } else {
            opt_view(url)
        }),
{
    if local {
        let mut s = "https://".to_owned();
        append_str(&mut s, uri);
        append_str(&mut s, "/users/");
        let i = uuid_to_string(id);
        append_str(&mut s, i.as_str());
        Some(s)
    } else {
        url
    }
}

/// The URL of an image of an account: the stored file, or the server's
/// stand-in image (`missing.png` for avatars, `header.png` for headers).
pub fn account_image_url(uri: &str, file: Option<&str>, fallback: &str) -> (r: String)
    ensures
        r@ == match opt_str_view(file) {
            Some(f) => "https://"@ + uri@ + "/media/"@ + f,
            None => "https://"@ + uri@ + "/static/"@ + fallback@,
        },
{
    match file {
        Some(f) => media_url(uri, f),
        None => {
            let mut s = "https://".to_owned();
            append_str(&mut s, uri);
            append_str(&mut s, "/static/");
            append_str(&mut s, fallback);
            s
        },
    }
}

/// The follower or following count shown: counted from the database for a
/// local account, as the remote server last reported it otherwise.
pub fn shown_count(local: bool, counted: i64, reported: i32) -> (r: i64)
    ensures
        r == (if local { counted as int } else { reported as int }),
{
    if local { counted } else { reported as i64 }
}


/// Whether a default language given with a profile update is acceptable:
/// two bytes long (a two-letter code); anything else is refused with 400.
pub fn language_code_ok(lang: &str) -> (r: bool)
    ensures
        r == (vstd::utf8::encode_utf8(lang@).len() == 2),
{
    lang.as_bytes().len() == 2
}

/// Which image of a profile an upload replaces.
#[derive(Clone, Copy, Debug, PartialEq, Eq, Structural)]
pub enum ProfileImage {
    Avatar,
    Header,
}

/// The check on an uploaded profile image, by what its content type says:
/// `None` when it has none (400), `Some(None)` when it names no image
/// format, else the format. Only PNG, JPEG and GIF are taken; the others,
/// and unknown types, are refused with 422 for an avatar and 400 for a
/// header.
pub open spec fn spec_profile_image_check(which: ProfileImage, format: Option<Option<ImageFormat>>) -> Result<ImageFormat, u16> {
    let refusal: u16 = if which == ProfileImage::Avatar { 422 } else { 400 };
    match format {
        None => Err(400),
        Some(None) => Err(refusal),
        Some(Some(f)) => if spec_attachment_accepted(f) { Ok(f) } else { Err(refusal) },
    }
}

/// Checks an uploaded profile image.
pub fn profile_image_check(which: ProfileImage, format: Option<Option<ImageFormat>>) -> (r: Result<ImageFormat, u16>)
    ensures
        r == spec_profile_image_check(which, format),
{
    let refusal: u16 = match which {
        ProfileImage::Avatar => 422,
        ProfileImage::Header => 400,
    };
    match format {
        None => Err(400),
        Some(None) => Err(refusal),
        Some(Some(f)) => if attachment_accepted(f) { Ok(f) } else { Err(refusal) },
    }
}

/// How the viewer stands with another account, as the client API shows it.
#[derive(Debug)]
pub struct RelationshipView {
    pub id: String,
    pub following: bool,
    pub followed_by: bool,
    pub blocking: bool,
    pub blocked_by: bool,
    pub muting: bool,
    pub muting_notifications: bool,
    pub requested: bool,
    pub domain_blocking: bool,
    pub showing_reblogs: bool,
    pub notifying: bool,
    pub endorsed: bool,
    pub languages: Vec<String>,
    pub note: Option<String>,
}

/// The relationship with the account `id`: followed when an accepted follow
/// of it is stored, requested when a pending one is, followed by it when it
/// has an accepted follow of the viewer. Blocks, mutes, domain blocks,
/// notifications and endorsements are not kept, so they are all off; boosts
/// are shown; no languages and no note.
pub fn relationship(id: u128, following: bool, pending: bool, followed_by: bool) -> (r: RelationshipView)
    ensures
        r.id@ == uuid_text(id),
        r.following == following,
        r.followed_by == followed_by,
        r.requested == pending,
        !r.blocking && !r.blocked_by && !r.muting && !r.muting_notifications,
        !r.domain_blocking && !r.notifying && !r.endorsed,
        r.showing_reblogs,
        r.languages@.len() == 0,
        r.note is None,
{
    RelationshipView {
        id: uuid_to_string(id),
        following,
        followed_by,
        blocking: false,
        blocked_by: false,
        muting: false,
        muting_notifications: false,
        requested: pending,
        domain_blocking: false,
        showing_reblogs: true,
        notifying: false,
        endorsed: false,
        languages: Vec::new(),
        note: None,
    }
}

/// The relationship shown right after asking to follow an account: followed
/// at once unless the account is locked, requested if it is.
pub fn after_follow_request(rel: RelationshipView, locked: bool) -> (r: RelationshipView)
    ensures
        r == (RelationshipView { following: !locked, requested: locked, ..rel }),
{
    let mut r = rel;
    r.following = !locked;
    r.requested = locked;
    r
}

/// The relationship shown right after unfollowing an account: neither
/// followed nor requested.
pub fn after_unfollow(rel: RelationshipView) -> (r: RelationshipView)
    ensures
        r == (RelationshipView { following: false, requested: false, ..rel }),
{
    let mut r = rel;
    r.following = false;
    r.requested = false;
    r
}

/// Whether every string of the list is a UUID.
pub open spec fn all_uuids(ids: Seq<String>) -> bool {
    forall|i: int| 0 <= i < ids.len() ==> (#[trigger] uuid_parsed(ids[i]@)) is Some
}

/// Reads a list of account ids: each must be a UUID, else the whole list is
/// refused (`None`).
pub fn parse_uuid_list(ids: &Vec<String>) -> (r: Option<Vec<u128>>)
    ensures
        match r {
            Some(v) => all_uuids(ids@) && v@.len() == ids@.len()
                && forall|i: int| 0 <= i < ids@.len() ==> uuid_parsed(ids@[i]@) == Some(#[trigger] v@[i]),
            None => !all_uuids(ids@),
        },
{
    let mut out: Vec<u128> = Vec::new();
    let mut i: usize = 0;
    while i < ids.len()
        invariant
            i <= ids.len(),
            out@.len() == i,
            forall|j: int| 0 <= j < i ==> uuid_parsed(ids@[j]@) == Some(#[trigger] out@[j]),
        decreases ids.len() - i,
    {
        match parse_uuid(ids[i].as_str()) {
            Some(u) => out.push(u),
            None => {
                assert(uuid_parsed(ids@[i as int]@) is None);
                return None;
            },
        }
        i = i + 1;
    }
    assert forall|j: int| 0 <= j < ids@.len() implies (#[trigger] uuid_parsed(ids@[j]@)) is Some by {
        assert(uuid_parsed(ids@[j]@) == Some(out@[j]));
    }
    Some(out)
}

/// What `str::to_lowercase` gives for `s` (Unicode lower case).
pub uninterp spec fn unicode_lowercase(s: Seq<char>) -> Seq<char>;

/// Lower-cases a string with `str::to_lowercase`; the contract names the
/// result.
#[verifier::external_body]
fn lowercase(s: &str) -> (r: String)
    ensures
        r@ == unicode_lowercase(s@),
{
    s.to_lowercase()
}

/// The user name a new account asks for: the identity's preferred user
/// name, else its given name in lower case, else its subject.
pub fn preferred_username(preferred: Option<String>, given_name: Option<String>, subject: String) -> (r: String)
    ensures
        r@ == (match preferred {
            Some(p) => p@,
            None => match given_name {
                Some(g) => unicode_lowercase(g@),
                None => subject@,
            },
        }),
{
    match preferred {
        Some(p) => p,
        None => match given_name {
            Some(g) => lowercase(g.as_str()),
            None => subject,
        },
    }
}

/// The user name tried for a new account: the preferred one while no local
/// account has it, else that name followed by `1`. (Only that one other
/// name is ever tried: while it is taken, it is tried again.)
pub fn username_to_try(pref: &str, pref_taken: bool) -> (r: String)
    ensures
        r@ == (if pref_taken { pref@ + "1"@ } else { pref@ }),
{
    let mut s = pref.to_owned();
    if pref_taken {
        append_str(&mut s, "1");
    }
    s
}

/// A new local account, as first stored.
pub struct NewLocalAccount {
    pub id: u128,
    pub owned_by: String,
    pub username: String,
    pub display_name: String,
    pub private_key: String,
    pub default_sensitive: bool,
    pub default_language: String,
    pub discoverable: bool,
    pub follower_count: i32,
    pub following_count: i32,
    pub statuses_count: i32,
    pub bio: String,
    pub locked: bool,
    pub bot: bool,
    pub group: bool,
    pub local: bool,
    pub created_at: i64,
    pub updated_at: i64,
}

/// The account made at the first sign-in of `subject`, with id `id` and
/// user name `username`, made at `now`: shown under the identity's name,
/// else its user name; signing with `private_key`; not sensitive by
/// default, in English by default, discoverable, with no followers,
/// follows or statuses, no biography, not locked, no bot and no group.
pub open spec fn is_new_account(
    a: NewLocalAccount, id: u128, subject: Seq<char>, username: Seq<char>, name: Option<Seq<char>>,
    private_key: Seq<char>, now: i64,
) -> bool {
    &&& a.id == id
    &&& a.owned_by@ == subject
    &&& a.username@ == username
    &&& a.display_name@ == (match name {
        Some(n) => n,
        None => username,
    })
    &&& a.private_key@ == private_key
    &&& !a.default_sensitive
    &&& a.default_language@ == "en"@
    &&& a.discoverable
    &&& a.follower_count == 0 && a.following_count == 0 && a.statuses_count == 0
    &&& a.bio@ == Seq::<char>::empty()
    &&& !a.locked && !a.bot && !a.group
    &&& a.local
    &&& a.created_at == now && a.updated_at == now
}

/// Builds a new local account around a private key.
pub fn new_local_account(
    id: u128, subject: String, username: String, name: Option<String>, private_key: String, now: i64,
) -> (r: NewLocalAccount)
    ensures
        is_new_account(r, id, subject@, username@, opt_view(name), private_key@, now),
{
    proof {
        reveal_strlit("en");
    }
    let display_name = match name {
        Some(n) => n,
        None => username.clone(),
    };
    NewLocalAccount {
        id,
        owned_by: subject,
        username,
        display_name,
        private_key,
        default_sensitive: false,
        default_language: "en".to_owned(),
        discoverable: true,
        follower_count: 0,
        following_count: 0,
        statuses_count: 0,
        bio: String::new(),
        locked: false,
        bot: false,
        group: false,
        local: true,
        created_at: now,
        updated_at: now,
    }
}

/// Makes the account of a first sign-in: generates its key pair and builds
/// the account around its private key, with a fresh random id; an internal
/// server error (500) where no key could be made.
pub fn sign_up_account(subject: String, username: String, name: Option<String>, now: i64) -> (r: Result<NewLocalAccount, u16>)
    ensures
        match r {
            Ok(a) => is_new_account(a, a.id, subject@, username@, opt_view(name), a.private_key@, now),
            Err(code) => code == 500,
        },
{
    match generate_private_key_pem() {
        Some(key) => {
            let id = new_uuid_v4();
            Ok(new_local_account(id, subject, username, name, key, now))
        },
        None => Err(500),
    }
}

/// The first sign-in of a user: nothing to do where the user already owns
/// an account (`Ok(None)`); else the account of `sign_up_account`.
pub fn init_account(has_account: bool, subject: String, username: String, name: Option<String>, now: i64)
    -> (r: Result<Option<NewLocalAccount>, u16>)
    ensures
        has_account ==> r matches Ok(None),
        !has_account ==> match r {
            Ok(Some(a)) => is_new_account(a, a.id, subject@, username@, opt_view(name), a.private_key@, now),
            Ok(None) => false,
            Err(code) => code == 500,
        },
{
    if has_account {
        return Ok(None);
    }
    match sign_up_account(subject, username, name, now) {
        Ok(a) => Ok(Some(a)),
        Err(c) => Err(c),
    }
}

} // verus!
