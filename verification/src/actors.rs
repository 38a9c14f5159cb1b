//! Actors: how what a remote actor document says is merged into the
//! stored account and which of its keys are taken, and the documents this
//! server serves of its own actors.
use vstd::prelude::*;
use crate::text::{opt_view, str_eq};
use crate::activity_streams::{ObjectKind, URLOrLink};
use crate::tasks::{url_of, spec_resolve_url};
use crate::text::append_str;
use crate::ids::{parse_uuid, uuid_parsed, uuid_text, uuid_to_string};
use crate::delivery::system_key_id;
use crate::crypto::{public_key_from_pem, public_pem_parses};

verus! {

/// What an actor document says of the account, as far as it is stored.
pub struct ActorProfile {
    pub kind: ObjectKind,
    pub id: Option<String>,
    pub name: Option<String>,
    pub preferred_username: Option<String>,
    pub summary: Option<String>,
    pub inbox: String,
    pub outbox: String,
    pub manually_approves_followers: Option<bool>,
    /// When the account was made, if the document says.
    pub published: Option<i64>,
    pub url: Option<URLOrLink>,
    /// The shared inbox of the actor's endpoints, if any.
    pub shared_inbox: Option<String>,
}

/// A stored image of an account: the local file, where it came from, and
/// its content type.
pub struct StoredImage {
    pub file: String,
    pub remote_url: String,
    pub content_type: String,
}

/// The stored fields of a remote account that an actor document updates.
pub struct RemoteAccount {
    pub actor: Option<String>,
    pub bot: bool,
    pub group: bool,
    pub display_name: String,
    pub username: String,
    pub bio: String,
    pub inbox_url: Option<String>,
    pub outbox_url: Option<String>,
    pub locked: bool,
    pub created_at: i64,
    pub url: Option<String>,
    pub shared_inbox_url: Option<String>,
    pub avatar_file: Option<String>,
    pub avatar_content_type: Option<String>,
    pub avatar_remote_url: Option<String>,
    pub header_file: Option<String>,
    pub header_content_type: Option<String>,
    pub header_remote_url: Option<String>,
}

pub open spec fn or_else(v: Option<String>, d: Seq<char>) -> Seq<char> {
    match v {
        Some(x) => x@,
        None => d,
    }
}

fn string_or(v: &Option<String>, d: String) -> (r: String)
    ensures
        r@ == or_else(*v, d@),
{
    match v {
        Some(x) => x.clone(),
        None => d,
    }
}

/// The stored fields of a remote account, as values.
pub struct AccountView {
    pub actor: Option<Seq<char>>,
    pub bot: bool,
    pub group: bool,
    pub display_name: Seq<char>,
    pub username: Seq<char>,
    pub bio: Seq<char>,
    pub inbox_url: Option<Seq<char>>,
    pub outbox_url: Option<Seq<char>>,
    pub locked: bool,
    pub created_at: i64,
    pub url: Option<Seq<char>>,
    pub shared_inbox_url: Option<Seq<char>>,
    pub avatar: (Option<Seq<char>>, Option<Seq<char>>, Option<Seq<char>>),
    pub header: (Option<Seq<char>>, Option<Seq<char>>, Option<Seq<char>>),
}

pub open spec fn account_view(a: RemoteAccount) -> AccountView {
    AccountView {
        actor: opt_view(a.actor),
        bot: a.bot,
        group: a.group,
        display_name: a.display_name@,
        username: a.username@,
        bio: a.bio@,
        inbox_url: opt_view(a.inbox_url),
        outbox_url: opt_view(a.outbox_url),
        locked: a.locked,
        created_at: a.created_at,
        url: opt_view(a.url),
        shared_inbox_url: opt_view(a.shared_inbox_url),
        avatar: (opt_view(a.avatar_file), opt_view(a.avatar_content_type), opt_view(a.avatar_remote_url)),
        header: (opt_view(a.header_file), opt_view(a.header_content_type), opt_view(a.header_remote_url)),
    }
}

/// The fields of an account made from scratch at time `now`.
pub open spec fn blank_account(now: i64) -> AccountView {
    AccountView {
        actor: None,
        bot: false,
        group: false,
        display_name: Seq::empty(),
        username: Seq::empty(),
        bio: Seq::empty(),
        inbox_url: None,
        outbox_url: None,
        locked: false,
        created_at: now,
        url: None,
        shared_inbox_url: None,
        avatar: (None, None, None),
        header: (None, None, None),
    }
}

/// The image fields after an update: a new image replaces the stored one,
/// with its type and where it came from; without one they stay.
pub open spec fn image_fields(img: Option<StoredImage>, old: (Option<Seq<char>>, Option<Seq<char>>, Option<Seq<char>>))
    -> (Option<Seq<char>>, Option<Seq<char>>, Option<Seq<char>>) {
    match img {
        Some(i) => (Some(i.file@), Some(i.content_type@), Some(i.remote_url@)),
        None => old,
    }
}

/// What an actor document makes of stored account fields: the actor IRI,
/// bot (a service or an application) and group flags are taken over; the
/// display name, user name and biography when the document gives them; the
/// inbox and outbox always; the account is locked when the document asks
/// for approval of followers (not locked when it does not say); the creation
/// time and profile URL when the document gives them; the shared inbox as
/// the document has it; and new images.
pub open spec fn merged_account(
    old: AccountView, p: ActorProfile, avatar: Option<StoredImage>, header: Option<StoredImage>, new: AccountView,
) -> bool {
    &&& new.actor == opt_view(p.id)
    &&& new.bot == (p.kind == ObjectKind::Service || p.kind == ObjectKind::Application)
    &&& new.group == (p.kind == ObjectKind::Group)
    &&& new.display_name == or_else(p.name, old.display_name)
    &&& new.username == or_else(p.preferred_username, old.username)
    &&& new.bio == or_else(p.summary, old.bio)
    &&& new.inbox_url == Some(p.inbox@)
    &&& new.outbox_url == Some(p.outbox@)
    &&& new.locked == (match p.manually_approves_followers { Some(b) => b, None => false })
    &&& new.created_at == (match p.published { Some(t) => t, None => old.created_at })
    &&& new.url == (match p.url {
        Some(u) => match spec_resolve_url(u) {
            Some(s) => Some(s),
            None => old.url,
        },
        None => old.url,
    })
    &&& new.shared_inbox_url == opt_view(p.shared_inbox)
    &&& new.avatar == image_fields(avatar, old.avatar)
    &&& new.header == image_fields(header, old.header)
}

/// Merges an actor document into a stored remote account.
pub fn merge_actor(old: RemoteAccount, p: &ActorProfile, avatar: Option<StoredImage>, header: Option<StoredImage>) -> (r: RemoteAccount)
    ensures
        merged_account(account_view(old), *p, avatar, header, account_view(r)),
{
    let mut a = old;
    a.actor = match &p.id {
        Some(x) => Some(x.clone()),
        None => None,
    };
    a.bot = p.kind == ObjectKind::Service || p.kind == ObjectKind::Application;
    a.group = p.kind == ObjectKind::Group;
    a.display_name = string_or(&p.name, a.display_name);
    a.username = string_or(&p.preferred_username, a.username);
    a.bio = string_or(&p.summary, a.bio);
    a.inbox_url = Some(p.inbox.clone());
    a.outbox_url = Some(p.outbox.clone());
    a.locked = match p.manually_approves_followers {
        Some(b) => b,
        None => false,
    };
    a.created_at = match p.published {
        Some(t) => t,
        None => a.created_at,
    };
    let resolved = match &p.url {
        Some(u) => url_of(u),
        None => None,
    };
    a.url = match resolved {
        Some(u) => Some(u),
        None => a.url,
    };
    a.locked = match p.manually_approves_followers {
        Some(b) => b,
        None => a.locked,
    };
    a.shared_inbox_url = match &p.shared_inbox {
        Some(x) => Some(x.clone()),
        None => None,
    };
    match avatar {
        Some(i) => {
            a.avatar_file = Some(i.file);
            a.avatar_content_type = Some(i.content_type);
            a.avatar_remote_url = Some(i.remote_url);
        },
        None => {},
    }
    match header {
        Some(i) => {
            a.header_file = Some(i.file);
            a.header_content_type = Some(i.content_type);
            a.header_remote_url = Some(i.remote_url);
        },
        None => {},
    }
    a
}

/// A new remote account from an actor document: the fields of
/// `merge_actor` with empty name, user name and biography where the
/// document gives none, no profile URL or images but what it gives, and
/// `now` as creation time where it gives none.
pub fn new_remote_account(p: &ActorProfile, now: i64, avatar: Option<StoredImage>, header: Option<StoredImage>) -> (r: RemoteAccount)
    ensures
        merged_account(blank_account(now), *p, avatar, header, account_view(r)),
{
    let blank = RemoteAccount {
        actor: None, bot: false, group: false, display_name: String::new(), username: String::new(),
        bio: String::new(), inbox_url: None, outbox_url: None, locked: false, created_at: now, url: None,
        shared_inbox_url: None, avatar_file: None, avatar_content_type: None, avatar_remote_url: None,
        header_file: None, header_content_type: None, header_remote_url: None,
    };
    proof {
        assert(account_view(blank) =~~= blank_account(now));
    }
    merge_actor(blank, p, avatar, header)
}

/// A public key an actor document lists.
pub struct ListedKey {
    pub id: Option<String>,
    /// `None` without an owner; `Some(None)` when the owner has no id.
    pub owner: Option<Option<String>>,
    pub public_key_pem: Option<String>,
}

/// Whether a listed key is stored for the account whose actor IRI is
/// `actor` (the empty string when the account has none): it has an id, an
/// owner whose id is that IRI, and a PEM.
pub open spec fn spec_key_accepted(k: ListedKey, actor: Seq<char>) -> bool {
    &&& k.id is Some
    &&& (k.owner matches Some(Some(o)) && o@ == actor)
    &&& k.public_key_pem is Some
}

/// Decides whether a listed key is stored.
pub fn key_accepted(k: &ListedKey, actor: Option<&str>) -> (r: bool)
    ensures
        r == spec_key_accepted(*k, match actor {
            Some(a) => a@,
            None => Seq::<char>::empty(),
        }),
{
    if k.id.is_none() || k.public_key_pem.is_none() {
        return false;
    }
    let a = match actor {
        Some(a) => a,
        None => "",
    };
    proof {
        reveal_strlit("");
        assert(""@ =~= Seq::<char>::empty());
    }
    match &k.owner {
        Some(Some(o)) => str_eq(o.as_str(), a),
        _ => false,
    }
}

/// What becomes of a listed key when its actor is taken in.
#[derive(Clone, Copy, Debug, PartialEq, Eq, Structural)]
pub enum KeyOutcome {
    /// It is not the account's key: passed over.
    Skipped,
    /// It is stored for the account.
    Stored,
    /// It is the account's key but its PEM holds no public key: taking the
    /// actor in fails.
    Unparsable,
}

/// What becomes of a listed key: passed over unless `spec_key_accepted`
/// holds, then stored where its PEM text reads as a public key, and
/// otherwise the actor is refused.
pub open spec fn spec_key_outcome(k: ListedKey, actor: Seq<char>) -> KeyOutcome {
    if !spec_key_accepted(k, actor) {
        KeyOutcome::Skipped
    } else if public_pem_parses(vstd::utf8::encode_utf8(k.public_key_pem->0@)) {
        KeyOutcome::Stored
    } else {
        KeyOutcome::Unparsable
    }
}

/// Decides what becomes of a listed key, reading its PEM text with OpenSSL.
pub fn key_outcome(k: &ListedKey, actor: Option<&str>) -> (r: KeyOutcome)
    ensures
        r == spec_key_outcome(*k, match actor {
            Some(a) => a@,
            None => Seq::<char>::empty(),
        }),
{
    if !key_accepted(k, actor) {
        return KeyOutcome::Skipped;
    }
    match &k.public_key_pem {
        Some(pem) => if public_key_from_pem(pem.as_str().as_bytes()).is_some() {
            KeyOutcome::Stored
        } else {
            KeyOutcome::Unparsable
        },
        None => KeyOutcome::Skipped,
    }
}

/// A profile field from a property value of an actor: its name and value,
/// empty where missing.
pub fn profile_field(name: Option<String>, value: Option<String>) -> (r: (String, String))
    ensures
        r.0@ == or_else(name, Seq::<char>::empty()),
        r.1@ == or_else(value, Seq::<char>::empty()),
{
    (string_or(&name, String::new()), string_or(&value, String::new()))
}

/// The check on a local actor asked for by id: the id must be a UUID, and
/// the account with it (`local` says whether it is local, where it exists)
/// a local one; anything else is not found (404).
pub fn local_actor_id(id: &str) -> (r: Result<u128, u16>)
    ensures
        r == (match uuid_parsed(id@) {
            Some(u) => Ok::<u128, u16>(u),
            None => Err(404u16),
        }),
{
    match parse_uuid(id) {
        Some(u) => Ok(u),
        None => Err(404),
    }
}

/// The second check on a local actor: the account must be local (else 404).
pub fn served_actor(local: bool) -> (r: Result<(), u16>)
    ensures
        r == (if local { Ok::<(), u16>(()) } else { Err(404u16) }),
{
    if local { Ok(()) } else { Err(404) }
}

/// `https://{uri}/as/users/{account}/outbox`.
pub open spec fn outbox_iri(uri: Seq<char>, account: u128) -> Seq<char> {
    "https://"@ + uri + "/as/users/"@ + uuid_text(account) + "/outbox"@
}

fn make_outbox_iri(uri: &str, account: u128) -> (r: String)
    ensures
        r@ == outbox_iri(uri@, account),
{
    let mut s = "https://".to_owned();
    append_str(&mut s, uri);
    append_str(&mut s, "/as/users/");
    let a = uuid_to_string(account);
    append_str(&mut s, a.as_str());
    append_str(&mut s, "/outbox");
    s
}

/// The outbox of a local actor, as an ordered collection.
pub struct Outbox {
    pub id: String,
    pub total_items: u64,
    /// The IRI of its first page.
    pub first: String,
}

/// The outbox of `account`: its IRI, the account's status count as the
/// number of items (as an unsigned number), and its page as first page.
pub fn outbox(uri: &str, account: u128, statuses_count: i32) -> (r: Outbox)
    ensures
        r.id@ == outbox_iri(uri@, account),
        r.total_items == statuses_count as u64,
        r.first@ == outbox_iri(uri@, account) + "/page"@,
{
    let id = make_outbox_iri(uri, account);
    let mut first = id.clone();
    append_str(&mut first, "/page");
    Outbox { id, total_items: statuses_count as u64, first }
}

/// A page of a local actor's outbox: it lists nothing.
pub struct OutboxPage {
    pub id: String,
    /// The outbox it is part of.
    pub part_of: String,
    pub items: Vec<String>,
}

/// The outbox page of `account` before `before` (the page IRI names it),
/// part of the outbox, with no items.
pub fn outbox_page(uri: &str, account: u128, before: Option<i64>) -> (r: OutboxPage)
    ensures
        r.id@ == (match before {
            Some(b) => outbox_iri(uri@, account) + "/page"@ + "?before="@ + crate::text::decimal(b as int),
            None => outbox_iri(uri@, account) + "/page"@,
        }),
        r.part_of@ == outbox_iri(uri@, account),
        r.items@.len() == 0,
{
    let part_of = make_outbox_iri(uri, account);
    let mut id = part_of.clone();
    append_str(&mut id, "/page");
    match before {
        Some(b) => {
            append_str(&mut id, "?before=");
            let d = crate::text::i64_to_decimal(b);
            append_str(&mut id, d.as_str());
        },
        None => {},
    }
    OutboxPage { id, part_of, items: Vec::new() }
}

/// The actor that stands for the server itself: an Application.
pub struct SystemActor {
    pub id: String,
    pub url: String,
    pub preferred_username: String,
    pub inbox: String,
    pub outbox: String,
    pub manually_approves_followers: bool,
    pub shared_inbox: String,
    pub key_id: String,
    pub key_owner: String,
    pub public_key_pem: String,
    pub discoverable: bool,
}

/// The server's own actor at `uri`, with the public key `public_key_pem`:
/// `https://{uri}/as/system`, its inbox and outbox under it, the shared
/// inbox, the key under `#key` owned by the actor; the host as user name
/// and `https://{uri}` as page; followers are approved, and it is not
/// discoverable.
pub fn system_actor(uri: &str, public_key_pem: String) -> (r: SystemActor)
    ensures
        r.id@ == "https://"@ + uri@ + "/as/system"@,
        r.url@ == "https://"@ + uri@,
        r.preferred_username@ == uri@,
        r.inbox@ == "https://"@ + uri@ + "/as/system"@ + "/inbox"@,
        r.outbox@ == "https://"@ + uri@ + "/as/system"@ + "/outbox"@,
        r.manually_approves_followers,
        r.shared_inbox@ == "https://"@ + uri@ + "/as/inbox"@,
        r.key_id@ == "https://"@ + uri@ + "/as/system#key"@,
        r.key_owner@ == "https://"@ + uri@ + "/as/system"@,
        r.public_key_pem@ == public_key_pem@,
        !r.discoverable,
{
    let mut url = "https://".to_owned();
    append_str(&mut url, uri);
    let mut id = url.clone();
    append_str(&mut id, "/as/system");
    let mut inbox = id.clone();
    append_str(&mut inbox, "/inbox");
    let mut outbox = id.clone();
    append_str(&mut outbox, "/outbox");
    let mut shared_inbox = url.clone();
    append_str(&mut shared_inbox, "/as/inbox");
    let key_owner = id.clone();
    SystemActor {
        id,
        url,
        preferred_username: uri.to_owned(),
        inbox,
        outbox,
        manually_approves_followers: true,
        shared_inbox,
        key_id: system_key_id(uri),
        key_owner,
        public_key_pem,
        discoverable: false,
    }
}

/// The kinds of object that are actors: a person, a service, an
/// organization, an application or a group.
pub open spec fn spec_is_actor_kind(k: ObjectKind) -> bool {
    k == ObjectKind::Person || k == ObjectKind::Service || k == ObjectKind::Organization
        || k == ObjectKind::Application || k == ObjectKind::Group
}

/// Whether an object of kind `k` is an actor.
pub fn is_actor_kind(k: ObjectKind) -> (r: bool)
    ensures
        r == spec_is_actor_kind(k),
{
    match k {
        ObjectKind::Person | ObjectKind::Service | ObjectKind::Organization | ObjectKind::Application
        | ObjectKind::Group => true,
        _ => false,
    }
}

/// What taking in an actor document does to the stored account.
pub enum AccountUpdate {
    /// The stored account is local, and is kept as it is.
    KeptLocal,
    /// The stored remote account, updated from the document.
    Updated(RemoteAccount),
    /// A new remote account made from the document.
    Created(RemoteAccount),
}

/// Takes in an actor document: `None` (the task fails) where the object is
/// no actor; else, with no stored account, a new one (`new_remote_account`);
/// a stored local account is kept; a stored remote one is updated
/// (`merge_actor`). `existing` holds whether the stored account is local,
/// and its fields.
pub fn take_in_actor(
    p: &ActorProfile, existing: Option<(bool, RemoteAccount)>, now: i64,
    avatar: Option<StoredImage>, header: Option<StoredImage>,
) -> (r: Option<AccountUpdate>)
    ensures
        !spec_is_actor_kind(p.kind) ==> r is None,
        spec_is_actor_kind(p.kind) ==> match existing {
            None => r matches Some(AccountUpdate::Created(a))
                && merged_account(blank_account(now), *p, avatar, header, account_view(a)),
            Some((true, _)) => r matches Some(AccountUpdate::KeptLocal),
            Some((false, old)) => r matches Some(AccountUpdate::Updated(a))
                && merged_account(account_view(old), *p, avatar, header, account_view(a)),
        },
{
    if !is_actor_kind(p.kind) {
        return None;
    }
    match existing {
        None => Some(AccountUpdate::Created(new_remote_account(p, now, avatar, header))),
        Some((local, old)) => if local {
            Some(AccountUpdate::KeptLocal)
        } else {
            Some(AccountUpdate::Updated(merge_actor(old, p, avatar, header)))
        },
    }
}

/// An attachment of an actor document, as far as its profile fields read
/// it: its kind, and the name and value of a property value.
pub struct ProfileAttachment {
    pub kind: ObjectKind,
    pub name: Option<String>,
    pub value: Option<String>,
}

/// The profile fields of an actor, in order: one (name, value) pair, empty
/// where missing, for each attachment that could be had and is a property
/// value; the others are passed over.
pub open spec fn spec_profile_fields(atts: Seq<Option<ProfileAttachment>>) -> Seq<(Seq<char>, Seq<char>)>
    decreases atts.len(),
{
    if atts.len() == 0 {
        Seq::empty()
    } else {
        let rest = spec_profile_fields(atts.drop_last());
        match atts.last() {
            Some(a) => if a.kind == ObjectKind::PropertyValue {
                rest.push((or_else(a.name, Seq::<char>::empty()), or_else(a.value, Seq::<char>::empty())))
            } else {
                rest
            },
            None => rest,
        }
    }
}

/// The view of a list of (name, value) pairs.
pub open spec fn field_pairs_view(v: Seq<(String, String)>) -> Seq<(Seq<char>, Seq<char>)> {
    Seq::new(v.len(), |i: int| (v[i].0@, v[i].1@))
}

/// The profile fields of an actor from its attachments.
pub fn profile_fields(atts: Vec<Option<ProfileAttachment>>) -> (r: Vec<(String, String)>)
    ensures
        field_pairs_view(r@) == spec_profile_fields(atts@),
{
    let ghost all = atts@;
    let mut out: Vec<(String, String)> = Vec::new();
    proof {
        assert(all.take(all.len() as int) =~= all);
    }
    let mut src = atts;
    let n = src.len();
    let mut rest: Vec<Option<ProfileAttachment>> = Vec::new();
    while src.len() > 0
        invariant
            n == all.len(),
            src@ == all.take(src.len() as int),
            rest.len() + src.len() == n,
            forall|j: int| 0 <= j < rest.len() ==> #[trigger] rest@[j] == all[n - 1 - j],
        decreases src.len(),
    {
        let x = src.pop().unwrap();
        proof {
            assert(all.take(src.len() + 1)[src.len() as int] == all[src.len() as int]);
            assert(all.take(src.len() as int) =~= all.take(src.len() + 1).drop_last());
        }
        rest.push(x);
    }
    let mut i: usize = 0;
    proof {
        assert(all.take(0) =~= Seq::<Option<ProfileAttachment>>::empty());
        assert(field_pairs_view(out@) =~= Seq::<(Seq<char>, Seq<char>)>::empty());
    }
    while rest.len() > 0
        invariant
            n == all.len(),
            rest.len() + i == n,
            forall|j: int| 0 <= j < rest.len() ==> #[trigger] rest@[j] == all[n - 1 - j],
            field_pairs_view(out@) == spec_profile_fields(all.take(i as int)),
        decreases rest.len(),
    {
        let a = rest.pop().unwrap();
        proof {
            assert(a == all[i as int]);
            assert(all.take(i + 1).drop_last() =~= all.take(i as int));
            assert(all.take(i + 1).last() == all[i as int]);
        }
        match a {
            Some(x) => if x.kind == ObjectKind::PropertyValue {
                let f = profile_field(x.name, x.value);
                let ghost before = out@;
                out.push(f);
                proof {
                    assert(field_pairs_view(out@) =~= field_pairs_view(before).push((f.0@, f.1@)));
                }
            },
            None => {},
        }
        i = i + 1;
    }
    proof {
        assert(all.take(n as int) =~= all);
    }
    out
}

} // verus!
