//! Statuses and reactions: how remote Notes, Announces, Likes and deletes
//! change the stored statuses and who is told of them; what a local post,
//! boost, like or delete stores; what a status's IRI serves; and the Note
//! that a local status is sent out as.
use vstd::prelude::*;
use crate::activity_streams::{ObjectKind, ObjectOrLink, ReferenceOrObject, URLOrLink};
use crate::media::{file_url, media_url};
use crate::tasks::ASAudiences;
use crate::actors::or_else;
use crate::tasks::{spec_resolve_url, url_of};
use crate::notifications::NotificationKind;
use crate::text::{opt_str_view, opt_view, str_eq};
use crate::statuses::{StatusVisibility, has_content, spec_stored_visibility, stored_visibility};
use crate::ids::new_uuid_v4;

verus! {

/// Why an object cannot be stored as a status.
#[derive(Clone, Copy, Debug, PartialEq, Eq, Structural)]
pub enum NoteRefusal {
    /// The object is not a Note.
    NotANote,
    /// The Note has no id.
    NoId,
}

/// The first checks on an object that is to become a status: it must be a
/// Note, and it must have an id.
pub fn note_gate(kind: ObjectKind, has_id: bool) -> (r: Option<NoteRefusal>)
    ensures
        r == (if kind != ObjectKind::Note {
            Some(NoteRefusal::NotANote)
        } else if !has_id {
            Some(NoteRefusal::NoId)
        } else {
            None
        }),
{
    if kind != ObjectKind::Note {
        Some(NoteRefusal::NotANote)
    } else if !has_id {
        Some(NoteRefusal::NoId)
    } else {
        None
    }
}

/// What a Note object says of a status, as far as it is stored. `content`
/// and `summary` come already cleaned of unsafe markup.
pub struct IncomingNote {
    /// The object's id.
    pub id: String,
    pub url: Option<URLOrLink>,
    pub content: Option<String>,
    pub summary: Option<String>,
    pub published: Option<i64>,
    pub updated: Option<i64>,
    /// Whether `to` holds the public collection.
    pub to_public: bool,
    /// Whether `cc` holds the public collection.
    pub cc_public: bool,
    /// The id of the object it replies to, where it names one.
    pub in_reply_to_url: Option<String>,
    /// The stored status it replies to, where that one could be had.
    pub in_reply_to: Option<u128>,
}

/// A stored status.
pub struct StoredStatus {
    pub id: u128,
    /// The id of the object it was made from.
    pub url: String,
    pub uri: Option<String>,
    pub text: String,
    pub created_at: i64,
    pub updated_at: i64,
    pub in_reply_to_url: Option<String>,
    pub in_reply_to_id: Option<u128>,
    pub boost_of_id: Option<u128>,
    pub boost_of_url: Option<String>,
    pub sensitive: bool,
    pub spoiler_text: String,
    pub language: Option<String>,
    pub local: bool,
    pub account_id: u128,
    pub deleted_at: Option<i64>,
    pub edited_at: Option<i64>,
    pub public: bool,
    pub visible: bool,
    pub text_source: Option<String>,
    pub spoiler_text_source: Option<String>,
}

/// What storing a Note did to the stored status.
pub enum StatusSync {
    /// Nothing: the stored status is local, or belongs to another account.
    Kept(StoredStatus),
    /// The stored status, updated from the Note.
    Updated(StoredStatus),
    /// A new status made from the Note.
    Created(StoredStatus),
}

/// The fields that a Note sets on the status it is stored as: its URL, its
/// text and summary (empty where it has none), its visibility (public when
/// `to` holds the public collection, visible when `to` or `cc` does), and
/// the status it replies to, by id where that status is stored and by the
/// object's id otherwise.
pub open spec fn note_fields(note: IncomingNote, s: StoredStatus) -> bool {
    &&& opt_view(s.uri) == (match note.url {
        Some(u) => spec_resolve_url(u),
        None => None,
    })
    &&& s.text@ == or_else(note.content, Seq::empty())
    &&& s.spoiler_text@ == or_else(note.summary, Seq::empty())
    &&& s.public == note.to_public
    &&& s.visible == (note.to_public || note.cc_public)
    &&& s.in_reply_to_id == note.in_reply_to
    &&& opt_view(s.in_reply_to_url) == (if note.in_reply_to is Some {
        None
    } else {
        opt_view(note.in_reply_to_url)
    })
}

/// A stored status updated from a Note: the Note's fields, its publication
/// and update times where it gives them, and all else as it was.
pub open spec fn updated_from(old: StoredStatus, note: IncomingNote, new: StoredStatus) -> bool {
    &&& note_fields(note, new)
    &&& new.created_at == (match note.published {
        Some(t) => t,
        None => old.created_at,
    })
    &&& new.updated_at == (match note.updated {
        Some(t) => t,
        None => old.updated_at,
    })
    &&& new.id == old.id
    &&& new.url == old.url
    &&& new.boost_of_id == old.boost_of_id
    &&& new.boost_of_url == old.boost_of_url
    &&& new.sensitive == old.sensitive
    &&& new.language == old.language
    &&& new.local == old.local
    &&& new.account_id == old.account_id
    &&& new.deleted_at == old.deleted_at
    &&& new.edited_at == old.edited_at
    &&& new.text_source == old.text_source
    &&& new.spoiler_text_source == old.spoiler_text_source
}

/// A new remote status made from a Note: id `id`, owned by `account`, made
/// at the Note's publication time (or `now`), updated at its update time
/// (or publication time, or `now`); not a boost, not sensitive, of no
/// stated language, not local, never deleted or edited, with no source.
pub open spec fn created_from(note: IncomingNote, account: u128, id: u128, now: i64, new: StoredStatus) -> bool {
    &&& note_fields(note, new)
    &&& new.id == id
    &&& new.url@ == note.id@
    &&& new.created_at == (match note.published {
        Some(t) => t,
        None => now,
    })
    &&& new.updated_at == (match note.updated {
        Some(t) => t,
        None => match note.published {
            Some(t) => t,
            None => now,
        },
    })
    &&& new.boost_of_id is None
    &&& new.boost_of_url is None
    &&& !new.sensitive
    &&& new.language is None
    &&& !new.local
    &&& new.account_id == account
    &&& new.deleted_at is None
    &&& new.edited_at is None
    &&& new.text_source is None
    &&& new.spoiler_text_source is None
}

fn text_or_empty(v: &Option<String>) -> (r: String)
    ensures
        r@ == or_else(*v, Seq::empty()),
{
    match v {
        Some(x) => x.clone(),
        None => String::new(),
    }
}

fn copy_opt_string(v: &Option<String>) -> (r: Option<String>)
    ensures
        opt_view(r) == opt_view(*v),
{
    match v {
        Some(x) => Some(x.clone()),
        None => None,
    }
}

/// Stores a Note as the status of `account`. With no stored status for it,
/// a new one is made with id `new_id`; a stored status is updated only when
/// it is remote and belongs to `account`, and is otherwise kept as it is.
pub fn sync_status(existing: Option<StoredStatus>, note: &IncomingNote, account: u128, new_id: u128, now: i64) -> (r: StatusSync)
    ensures
        match existing {
            None => r matches StatusSync::Created(s) && created_from(*note, account, new_id, now, s),
            Some(old) => if may_change(old, account) {
                r matches StatusSync::Updated(s) && updated_from(old, *note, s)
            } else {
                r == StatusSync::Kept(old)
            },
        },
{
    let uri = match &note.url {
        Some(u) => url_of(u),
        None => None,
    };
    let text = text_or_empty(&note.content);
    let spoiler_text = text_or_empty(&note.summary);
    let in_reply_to_url = if note.in_reply_to.is_some() {
        None
    } else {
        copy_opt_string(&note.in_reply_to_url)
    };
    match existing {
        Some(old) => {
            if old.local || old.account_id != account {
                return StatusSync::Kept(old);
            }
            let mut s = old;
            s.uri = uri;
            s.text = text;
            s.created_at = match note.published {
                Some(t) => t,
                None => s.created_at,
            };
            s.updated_at = match note.updated {
                Some(t) => t,
                None => s.updated_at,
            };
            s.spoiler_text = spoiler_text;
            s.public = note.to_public;
            s.visible = note.to_public || note.cc_public;
            s.in_reply_to_url = in_reply_to_url;
            s.in_reply_to_id = note.in_reply_to;
            StatusSync::Updated(s)
        },
        None => {
            let created_at = match note.published {
                Some(t) => t,
                None => now,
            };
            let updated_at = match note.updated {
                Some(t) => t,
                None => created_at,
            };
            StatusSync::Created(StoredStatus {
                id: new_id,
                url: note.id.clone(),
                uri,
                text,
                created_at,
                updated_at,
                in_reply_to_url,
                in_reply_to_id: note.in_reply_to,
                boost_of_id: None,
                boost_of_url: None,
                sensitive: false,
                spoiler_text,
                language: None,
                local: false,
                account_id: account,
                deleted_at: None,
                edited_at: None,
                public: note.to_public,
                visible: note.to_public || note.cc_public,
                text_source: None,
                spoiler_text_source: None,
            })
        },
    }
}

/// Stores a Note of `account` as `sync_status` does, a new status getting a
/// fresh random id and a stored one keeping its own.
pub fn store_note(existing: Option<StoredStatus>, note: &IncomingNote, account: u128, now: i64) -> (r: StatusSync)
    ensures
        match existing {
            None => r matches StatusSync::Created(s) && created_from(*note, account, s.id, now, s),
            Some(old) => if may_change(old, account) {
                r matches StatusSync::Updated(s) && updated_from(old, *note, s)
            } else {
                r == StatusSync::Kept(old)
            },
        },
{
    match existing {
        None => {
            let id = new_uuid_v4();
            sync_status(None, note, account, id, now)
        },
        Some(s) => {
            let id = s.id;
            sync_status(Some(s), note, account, id, now)
        },
    }
}

/// Whether two stored statuses hold the same values, field by field.
pub open spec fn same_status(a: StoredStatus, b: StoredStatus) -> bool {
    &&& a.id == b.id
    &&& a.url@ == b.url@
    &&& opt_view(a.uri) == opt_view(b.uri)
    &&& a.text@ == b.text@
    &&& a.created_at == b.created_at
    &&& a.updated_at == b.updated_at
    &&& opt_view(a.in_reply_to_url) == opt_view(b.in_reply_to_url)
    &&& a.in_reply_to_id == b.in_reply_to_id
    &&& a.boost_of_id == b.boost_of_id
    &&& opt_view(a.boost_of_url) == opt_view(b.boost_of_url)
    &&& a.sensitive == b.sensitive
    &&& a.spoiler_text@ == b.spoiler_text@
    &&& opt_view(a.language) == opt_view(b.language)
    &&& a.local == b.local
    &&& a.account_id == b.account_id
    &&& a.deleted_at == b.deleted_at
    &&& a.edited_at == b.edited_at
    &&& a.public == b.public
    &&& a.visible == b.visible
    &&& opt_view(a.text_source) == opt_view(b.text_source)
    &&& opt_view(a.spoiler_text_source) == opt_view(b.spoiler_text_source)
}

/// Taking in the same Note again changes nothing: a status updated from a
/// Note, updated from that Note once more, holds the same values.
pub proof fn lemma_note_update_idempotent(old: StoredStatus, note: IncomingNote, once: StoredStatus, twice: StoredStatus)
    requires
        updated_from(old, note, once),
        updated_from(once, note, twice),
    ensures
        same_status(once, twice),
{
}

/// A stored audience of a status: an account or an account's followers,
/// and whether the status mentions it.
#[derive(Clone, Copy, Debug, PartialEq, Eq, Structural)]
pub struct StatusAudience {
    pub mention: bool,
    pub account: Option<u128>,
    pub account_followers: Option<u128>,
}

/// The accounts that the mentioning audiences name, in order.
pub open spec fn audience_mentions(auds: Seq<StatusAudience>) -> Seq<u128>
    decreases auds.len(),
{
    if auds.len() == 0 {
        Seq::empty()
    } else {
        let rest = audience_mentions(auds.drop_last());
        let a = auds.last();
        match a.account {
            Some(id) => if a.mention { rest.push(id) } else { rest },
            None => rest,
        }
    }
}

/// The accounts told of a new status that mentions them: each account of a
/// mentioning audience, then each account tagged in a Mention, one notice
/// each and in that order. An updated status tells no one.
pub fn mention_notices(new_status: bool, auds: &Vec<StatusAudience>, mentions: &Vec<u128>) -> (r: Vec<u128>)
    ensures
        r@ == (if new_status { audience_mentions(auds@) + mentions@ } else { Seq::empty() }),
{
    let mut out: Vec<u128> = Vec::new();
    if !new_status {
        return out;
    }
    let mut i: usize = 0;
    proof {
        assert(auds@.take(0) =~= Seq::<StatusAudience>::empty());
    }
    while i < auds.len()
        invariant
            i <= auds.len(),
            out@ == audience_mentions(auds@.take(i as int)),
        decreases auds.len() - i,
    {
        proof {
            assert(auds@.take(i + 1).drop_last() =~= auds@.take(i as int));
        }
        let a = auds[i];
        match a.account {
            Some(id) => {
                if a.mention {
                    out.push(id);
                }
            },
            None => {},
        }
        i = i + 1;
    }
    proof {
        assert(auds@.take(auds.len() as int) =~= auds@);
    }
    let ghost head = out@;
    let mut j: usize = 0;
    while j < mentions.len()
        invariant
            j <= mentions.len(),
            out@ == head + mentions@.take(j as int),
        decreases mentions.len() - j,
    {
        out.push(mentions[j]);
        proof {
            assert(mentions@.take(j + 1) =~= mentions@.take(j as int).push(mentions@[j as int]));
        }
        j = j + 1;
    }
    proof {
        assert(mentions@.take(mentions.len() as int) =~= mentions@);
    }
    out
}


/// Whether an activity of `account` may change the stored status `s`: only
/// a remote status of that same account may be.
pub open spec fn may_change(s: StoredStatus, account: u128) -> bool {
    !s.local && s.account_id == account
}

/// Why an Announce or a Like cannot be taken.
#[derive(Clone, Copy, Debug, PartialEq, Eq, Structural)]
pub enum ReactionRefusal {
    /// The activity has no id.
    NoId,
    /// The activity has no object.
    NoObject,
    /// The activity's object has no id.
    ObjectHasNoId,
}

/// The checks on an Announce, in order: it has an id, an object, and the
/// object has an id.
pub fn announce_gate(has_id: bool, has_object: bool, object_has_id: bool) -> (r: Option<ReactionRefusal>)
    ensures
        r == (if !has_id {
            Some(ReactionRefusal::NoId)
        } else if !has_object {
            Some(ReactionRefusal::NoObject)
        } else if !object_has_id {
            Some(ReactionRefusal::ObjectHasNoId)
        } else {
            None
        }),
{
    if !has_id {
        Some(ReactionRefusal::NoId)
    } else if !has_object {
        Some(ReactionRefusal::NoObject)
    } else if !object_has_id {
        Some(ReactionRefusal::ObjectHasNoId)
    } else {
        None
    }
}

/// The checks on a Like: it has an id; a Like already stored under that id
/// is taken as done (`Ok(false)`); otherwise it needs an object with an id,
/// and is then to be stored (`Ok(true)`).
pub fn like_gate(has_id: bool, already_stored: bool, has_object: bool, object_has_id: bool) -> (r: Result<bool, ReactionRefusal>)
    ensures
        r == (if !has_id {
            Err(ReactionRefusal::NoId)
        } else if already_stored {
            Ok(false)
        } else if !has_object {
            Err(ReactionRefusal::NoObject)
        } else if !object_has_id {
            Err(ReactionRefusal::ObjectHasNoId)
        } else {
            Ok(true)
        }),
{
    if !has_id {
        Err(ReactionRefusal::NoId)
    } else if already_stored {
        Ok(false)
    } else if !has_object {
        Err(ReactionRefusal::NoObject)
    } else if !object_has_id {
        Err(ReactionRefusal::ObjectHasNoId)
    } else {
        Ok(true)
    }
}

/// A stored status that an Announce or a Like is about.
#[derive(Clone, Copy, Debug, PartialEq, Eq, Structural)]
pub struct TargetStatus {
    pub id: u128,
    pub local: bool,
    pub account_id: u128,
}

/// What an Announce says of the boost it makes.
pub struct IncomingBoost {
    /// The activity's id.
    pub id: String,
    pub published: Option<i64>,
    pub updated: Option<i64>,
    pub to_public: bool,
    pub cc_public: bool,
    /// The id of the boosted object.
    pub object_id: String,
    /// The stored status boosted, where it could be had.
    pub boost_of: Option<TargetStatus>,
}

/// A notice to `recipient` that `cause` acted on the status `status`.
#[derive(Clone, Copy, Debug, PartialEq, Eq, Structural)]
pub struct ReactionNotice {
    pub kind: NotificationKind,
    pub recipient: u128,
    pub cause: u128,
    pub status: u128,
}

/// A boost updated from an Announce: its times where the Announce gives
/// them, its visibility, and the boosted status where it is stored.
pub open spec fn boost_updated_from(old: StoredStatus, b: IncomingBoost, new: StoredStatus) -> bool {
    &&& new.created_at == (match b.published {
        Some(t) => t,
        None => old.created_at,
    })
    &&& new.updated_at == (match b.updated {
        Some(t) => t,
        None => old.updated_at,
    })
    &&& new.public == b.to_public
    &&& new.visible == (b.to_public || b.cc_public)
    &&& new.boost_of_id == (match b.boost_of {
        Some(t) => Some(t.id),
        None => old.boost_of_id,
    })
    &&& new.boost_of_url == (match b.boost_of {
        Some(_) => None,
        None => old.boost_of_url,
    })
    &&& new.id == old.id
    &&& new.url == old.url
    &&& new.uri == old.uri
    &&& new.text == old.text
    &&& new.in_reply_to_url == old.in_reply_to_url
    &&& new.in_reply_to_id == old.in_reply_to_id
    &&& new.sensitive == old.sensitive
    &&& new.spoiler_text == old.spoiler_text
    &&& new.language == old.language
    &&& new.local == old.local
    &&& new.account_id == old.account_id
    &&& new.deleted_at == old.deleted_at
    &&& new.edited_at == old.edited_at
    &&& new.text_source == old.text_source
    &&& new.spoiler_text_source == old.spoiler_text_source
}

/// A new boost made from an Announce: empty text and summary, no URL and no
/// reply, the boosted status by id where it is stored and by the object's id
/// otherwise, times and visibility as for a Note.
pub open spec fn boost_created_from(b: IncomingBoost, account: u128, id: u128, now: i64, new: StoredStatus) -> bool {
    &&& new.id == id
    &&& new.url@ == b.id@
    &&& new.uri is None
    &&& new.text@ == Seq::<char>::empty()
    &&& new.created_at == (match b.published {
        Some(t) => t,
        None => now,
    })
    &&& new.updated_at == (match b.updated {
        Some(t) => t,
        None => match b.published {
            Some(t) => t,
            None => now,
        },
    })
    &&& new.in_reply_to_url is None
    &&& new.in_reply_to_id is None
    &&& new.boost_of_id == (match b.boost_of {
        Some(t) => Some(t.id),
        None => None,
    })
    &&& opt_view(new.boost_of_url) == (match b.boost_of {
        Some(_) => None,
        None => Some(b.object_id@),
    })
    &&& !new.sensitive
    &&& new.spoiler_text@ == Seq::<char>::empty()
    &&& new.language is None
    &&& !new.local
    &&& new.account_id == account
    &&& new.deleted_at is None
    &&& new.edited_at is None
    &&& new.public == b.to_public
    &&& new.visible == (b.to_public || b.cc_public)
    &&& new.text_source is None
    &&& new.spoiler_text_source is None
}

/// The notice a new boost or like sends: to the owner of the status it is
/// about, when that status is stored and local.
pub open spec fn reaction_notice(kind: NotificationKind, target: Option<TargetStatus>, cause: u128) -> Option<ReactionNotice> {
    match target {
        Some(t) => if t.local {
            Some(ReactionNotice { kind, recipient: t.account_id, cause, status: t.id })
        } else {
            None
        },
        None => None,
    }
}

fn notice_for(kind: NotificationKind, target: Option<TargetStatus>, cause: u128) -> (r: Option<ReactionNotice>)
    ensures
        r == reaction_notice(kind, target, cause),
{
    match target {
        Some(t) => if t.local {
            Some(ReactionNotice { kind, recipient: t.account_id, cause, status: t.id })
        } else {
            None
        },
        None => None,
    }
}

/// Stores an Announce of `account` as a boost. With no stored status for
/// it, a new one is made with id `new_id`, and the owner of a local boosted
/// status is told; a stored boost is updated only when `account` may change
/// it, and tells no one.
pub fn sync_boost(existing: Option<StoredStatus>, b: &IncomingBoost, account: u128, new_id: u128, now: i64) -> (r: (StatusSync, Option<ReactionNotice>))
    ensures
        match existing {
            None => {
                &&& r.0 matches StatusSync::Created(s) && boost_created_from(*b, account, new_id, now, s)
                &&& r.1 == reaction_notice(NotificationKind::Reblog, b.boost_of, account)
            },
            Some(old) => {
                &&& r.1 is None
                &&& if may_change(old, account) {
                    r.0 matches StatusSync::Updated(s) && boost_updated_from(old, *b, s)
                } else {
                    r.0 == StatusSync::Kept(old)
                }
            },
        },
{
    match existing {
        Some(old) => {
            if old.local || old.account_id != account {
                return (StatusSync::Kept(old), None);
            }
            let mut s = old;
            s.created_at = match b.published {
                Some(t) => t,
                None => s.created_at,
            };
            s.updated_at = match b.updated {
                Some(t) => t,
                None => s.updated_at,
            };
            s.public = b.to_public;
            s.visible = b.to_public || b.cc_public;
            match b.boost_of {
                Some(t) => {
                    s.boost_of_id = Some(t.id);
                    s.boost_of_url = None;
                },
                None => {},
            }
            (StatusSync::Updated(s), None)
        },
        None => {
            let created_at = match b.published {
                Some(t) => t,
                None => now,
            };
            let updated_at = match b.updated {
                Some(t) => t,
                None => created_at,
            };
            let (boost_of_id, boost_of_url) = match b.boost_of {
                Some(t) => (Some(t.id), None),
                None => (None, Some(b.object_id.clone())),
            };
            let s = StoredStatus {
                id: new_id,
                url: b.id.clone(),
                uri: None,
                text: String::new(),
                created_at,
                updated_at,
                in_reply_to_url: None,
                in_reply_to_id: None,
                boost_of_id,
                boost_of_url,
                sensitive: false,
                spoiler_text: String::new(),
                language: None,
                local: false,
                account_id: account,
                deleted_at: None,
                edited_at: None,
                public: b.to_public,
                visible: b.to_public || b.cc_public,
                text_source: None,
                spoiler_text_source: None,
            };
            (StatusSync::Created(s), notice_for(NotificationKind::Reblog, b.boost_of, account))
        },
    }
}

/// Stores an Announce of `account` as `sync_boost` does, a new boost
/// getting a fresh random id and a stored one keeping its own.
pub fn store_boost(existing: Option<StoredStatus>, b: &IncomingBoost, account: u128, now: i64) -> (r: (StatusSync, Option<ReactionNotice>))
    ensures
        match existing {
            None => {
                &&& r.0 matches StatusSync::Created(s) && boost_created_from(*b, account, s.id, now, s)
                &&& r.1 == reaction_notice(NotificationKind::Reblog, b.boost_of, account)
            },
            Some(old) => {
                &&& r.1 is None
                &&& if may_change(old, account) {
                    r.0 matches StatusSync::Updated(s) && boost_updated_from(old, *b, s)
                } else {
                    r.0 == StatusSync::Kept(old)
                }
            },
        },
{
    match existing {
        None => {
            let id = new_uuid_v4();
            sync_boost(None, b, account, id, now)
        },
        Some(s) => {
            let id = s.id;
            sync_boost(Some(s), b, account, id, now)
        },
    }
}

/// Taking in the same Announce again changes nothing: a boost updated from
/// an Announce, updated from it once more, holds the same values.
pub proof fn lemma_boost_update_idempotent(old: StoredStatus, b: IncomingBoost, once: StoredStatus, twice: StoredStatus)
    requires
        boost_updated_from(old, b, once),
        boost_updated_from(once, b, twice),
    ensures
        same_status(once, twice),
{
}

/// A stored like.
pub struct StoredLike {
    pub id: u128,
    pub account: u128,
    /// The liked status, where it is stored.
    pub status: Option<u128>,
    /// The liked object's id, where the status is not stored.
    pub status_url: Option<String>,
    pub local: bool,
    /// The Like activity's id.
    pub url: Option<String>,
    pub created_at: i64,
}

/// Records a remote Like of `account`: a new like with id `new_id`, of the
/// stored status where there is one and of the object's id otherwise, made
/// at the Like's publication time (or `now`); and the notice to the owner
/// of a local liked status.
pub fn record_like(
    like_id: &String, object_id: &String, like_of: Option<TargetStatus>, account: u128, new_id: u128,
    published: Option<i64>, now: i64,
) -> (r: (StoredLike, Option<ReactionNotice>))
    ensures
        r.0.id == new_id,
        r.0.account == account,
        r.0.status == (match like_of {
            Some(t) => Some(t.id),
            None => None,
        }),
        opt_view(r.0.status_url) == (match like_of {
            Some(_) => None,
            None => Some(object_id@),
        }),
        !r.0.local,
        opt_view(r.0.url) == Some(like_id@),
        r.0.created_at == (match published {
            Some(t) => t,
            None => now,
        }),
        r.1 == reaction_notice(NotificationKind::Favourite, like_of, account),
{
    let (status, status_url) = match like_of {
        Some(t) => (Some(t.id), None),
        None => (None, Some(object_id.clone())),
    };
    let created_at = match published {
        Some(t) => t,
        None => now,
    };
    let like = StoredLike {
        id: new_id,
        account,
        status,
        status_url,
        local: false,
        url: Some(like_id.clone()),
        created_at,
    };
    (like, notice_for(NotificationKind::Favourite, like_of, account))
}

/// Records a remote Like as `record_like` does, with a fresh random id.
pub fn store_remote_like(
    like_id: &String, object_id: &String, like_of: Option<TargetStatus>, account: u128, published: Option<i64>, now: i64,
) -> (r: (StoredLike, Option<ReactionNotice>))
    ensures
        r.0.account == account,
        r.0.status == (match like_of {
            Some(t) => Some(t.id),
            None => None,
        }),
        opt_view(r.0.status_url) == (match like_of {
            Some(_) => None,
            None => Some(object_id@),
        }),
        !r.0.local,
        opt_view(r.0.url) == Some(like_id@),
        r.0.created_at == (match published {
            Some(t) => t,
            None => now,
        }),
        r.1 == reaction_notice(NotificationKind::Favourite, like_of, account),
{
    let id = new_uuid_v4();
    record_like(like_id, object_id, like_of, account, id, published, now)
}

/// Whether an Undo of `account` removes a stored like: only a remote like
/// of that account is removed.
pub fn like_undoable(like: &StoredLike, account: u128) -> (r: bool)
    ensures
        r == (!like.local && like.account == account),
{
    !like.local && like.account == account
}

/// Marks a stored status deleted at `deleted` for a Delete (or an Undo of
/// an Announce) of `account`: only when `account` may change it; all else
/// stays as it was. `None` where the status is kept unchanged.
pub fn delete_remote_status(s: StoredStatus, account: u128, deleted: i64) -> (r: Option<StoredStatus>)
    ensures
        match r {
            Some(n) => may_change(s, account) && n == (StoredStatus { deleted_at: Some(deleted), ..s }),
            None => !may_change(s, account),
        },
{
    if s.local || s.account_id != account {
        return None;
    }
    let mut n = s;
    n.deleted_at = Some(deleted);
    Some(n)
}

/// Whether a media file may be attached by the user `subject`: it must be
/// owned by them.
pub fn media_owned_by(owner: Option<&str>, subject: &str) -> (r: bool)
    ensures
        r == (opt_str_view(owner) == Some(subject@)),
{
    match owner {
        Some(o) => str_eq(o, subject),
        None => false,
    }
}

/// What a user posts as a new status, checked, with its text already
/// rendered to HTML.
pub struct LocalPost {
    pub html: String,
    /// The text as written.
    pub source: String,
    pub spoiler_text: Option<String>,
    pub language: Option<String>,
    pub sensitive: Option<bool>,
    pub in_reply_to: Option<u128>,
    pub visibility: StatusVisibility,
}

/// A new local status with id `id` of `account`, posted at `now`: the
/// rendered text and its source, the summary as written (empty where there
/// is none, kept as its own source too), the language asked for or else
/// the account's default, sensitive as asked or else as the account's
/// default or else not, the status it replies to, and the visibility's
/// flags; no IRI yet, no boost, never edited or deleted. Unless the status
/// is direct, its audience holds the author's followers.
pub open spec fn local_status_made(
    id: u128, account: u128, post: LocalPost, default_language: Option<String>, default_sensitive: Option<bool>,
    now: i64, r: (StoredStatus, Option<StatusAudience>),
) -> bool {
    let s = r.0;
    let v = spec_stored_visibility(post.visibility);
    &&& s.id == id
    &&& s.url@ == Seq::<char>::empty()
    &&& s.uri is None
    &&& s.text == post.html
    &&& s.created_at == now
    &&& s.updated_at == now
    &&& s.in_reply_to_id == post.in_reply_to
    &&& s.in_reply_to_url is None
    &&& s.boost_of_id is None
    &&& s.boost_of_url is None
    &&& s.sensitive == (match post.sensitive {
        Some(b) => b,
        None => match default_sensitive {
            Some(b) => b,
            None => false,
        },
    })
    &&& s.spoiler_text@ == or_else(post.spoiler_text, Seq::empty())
    &&& s.language == (match post.language {
        Some(l) => Some(l),
        None => default_language,
    })
    &&& s.local
    &&& s.account_id == account
    &&& s.deleted_at is None
    &&& s.edited_at is None
    &&& s.public == v.public
    &&& s.visible == v.visible
    &&& s.text_source == Some(post.source)
    &&& opt_view(s.spoiler_text_source) == Some(or_else(post.spoiler_text, Seq::empty()))
    &&& r.1 == (if v.followers_audience {
        Some(StatusAudience { mention: false, account: None, account_followers: Some(account) })
    } else {
        None
    })
}

/// Builds the new local status with id `id` (see `local_status_made`).
pub fn new_local_status(
    id: u128, account: u128, post: LocalPost, default_language: Option<String>, default_sensitive: Option<bool>, now: i64,
) -> (r: (StoredStatus, Option<StatusAudience>))
    ensures
        local_status_made(id, account, post, default_language, default_sensitive, now, r),
{
    let v = stored_visibility(post.visibility);
    let spoiler_text = text_or_empty(&post.spoiler_text);
    let spoiler_source = spoiler_text.clone();
    let sensitive = match post.sensitive {
        Some(b) => b,
        None => match default_sensitive {
            Some(b) => b,
            None => false,
        },
    };
    let language = match post.language {
        Some(l) => Some(l),
        None => default_language,
    };
    let s = StoredStatus {
        id,
        url: String::new(),
        uri: None,
        text: post.html,
        created_at: now,
        updated_at: now,
        in_reply_to_url: None,
        in_reply_to_id: post.in_reply_to,
        boost_of_id: None,
        boost_of_url: None,
        sensitive,
        spoiler_text,
        language,
        local: true,
        account_id: account,
        deleted_at: None,
        edited_at: None,
        public: v.public,
        visible: v.visible,
        text_source: Some(post.source),
        spoiler_text_source: Some(spoiler_source),
    };
    let audience = if v.followers_audience {
        Some(StatusAudience { mention: false, account: None, account_followers: Some(account) })
    } else {
        None
    };
    (s, audience)
}

/// Posts a status for `account`: the new local status of
/// `local_status_made`, with a fresh random id.
pub fn post_status(
    account: u128, post: LocalPost, default_language: Option<String>, default_sensitive: Option<bool>, now: i64,
) -> (r: (StoredStatus, Option<StatusAudience>))
    ensures
        local_status_made(r.0.id, account, post, default_language, default_sensitive, now, r),
{
    let id = new_uuid_v4();
    new_local_status(id, account, post, default_language, default_sensitive, now)
}

/// A new local boost with id `id` by `account` of the status `boosted`
/// (of the account `boosted_author`), made at `now`: no text, summary or
/// language, not sensitive, local, and flagged by the visibility asked for.
/// Its audiences are the booster's followers and the boosted status's
/// author, in that order.
pub open spec fn local_boost_made(
    id: u128, account: u128, boosted: u128, boosted_author: u128, visibility: StatusVisibility, now: i64,
    r: (StoredStatus, Vec<StatusAudience>),
) -> bool {
    let s = r.0;
    let v = spec_stored_visibility(visibility);
    &&& s.id == id
    &&& s.url@ == Seq::<char>::empty()
    &&& s.uri is None
    &&& s.text@ == Seq::<char>::empty()
    &&& s.created_at == now && s.updated_at == now
    &&& s.in_reply_to_id is None && s.in_reply_to_url is None
    &&& s.boost_of_id == Some(boosted) && s.boost_of_url is None
    &&& !s.sensitive
    &&& s.spoiler_text@ == Seq::<char>::empty()
    &&& s.language is None
    &&& s.local
    &&& s.account_id == account
    &&& s.deleted_at is None && s.edited_at is None
    &&& s.public == v.public && s.visible == v.visible
    &&& s.text_source is None && s.spoiler_text_source is None
    &&& r.1@ == seq![
        StatusAudience { mention: false, account: None, account_followers: Some(account) },
        StatusAudience { mention: false, account: Some(boosted_author), account_followers: None },
    ]
}

/// Builds the new local boost with id `id` (see `local_boost_made`).
pub fn new_local_boost(
    id: u128, account: u128, boosted: u128, boosted_author: u128, visibility: StatusVisibility, now: i64,
) -> (r: (StoredStatus, Vec<StatusAudience>))
    ensures
        local_boost_made(id, account, boosted, boosted_author, visibility, now, r),
{
    let v = stored_visibility(visibility);
    let s = StoredStatus {
        id,
        url: String::new(),
        uri: None,
        text: String::new(),
        created_at: now,
        updated_at: now,
        in_reply_to_url: None,
        in_reply_to_id: None,
        boost_of_id: Some(boosted),
        boost_of_url: None,
        sensitive: false,
        spoiler_text: String::new(),
        language: None,
        local: true,
        account_id: account,
        deleted_at: None,
        edited_at: None,
        public: v.public,
        visible: v.visible,
        text_source: None,
        spoiler_text_source: None,
    };
    let mut auds: Vec<StatusAudience> = Vec::new();
    auds.push(StatusAudience { mention: false, account: None, account_followers: Some(account) });
    auds.push(StatusAudience { mention: false, account: Some(boosted_author), account_followers: None });
    proof {
        assert(auds@ =~= seq![
            StatusAudience { mention: false, account: None, account_followers: Some(account) },
            StatusAudience { mention: false, account: Some(boosted_author), account_followers: None },
        ]);
    }
    (s, auds)
}

/// Boosts a status for `account`: the new local boost of
/// `local_boost_made`, with a fresh random id.
pub fn post_boost(
    account: u128, boosted: u128, boosted_author: u128, visibility: StatusVisibility, now: i64,
) -> (r: (StoredStatus, Vec<StatusAudience>))
    ensures
        local_boost_made(r.0.id, account, boosted, boosted_author, visibility, now, r),
{
    let id = new_uuid_v4();
    new_local_boost(id, account, boosted, boosted_author, visibility, now)
}

/// The check on a status looked up by the client API: a deleted status is
/// gone (410), one the viewer may not see is not found (404).
pub fn status_reachable(deleted: bool, may_view: bool) -> (r: Result<(), u16>)
    ensures
        r == (if deleted { Err(410u16) } else if !may_view { Err(404u16) } else { Ok(()) }),
{
    if deleted {
        Err(410)
    } else if !may_view {
        Err(404)
    } else {
        Ok(())
    }
}

/// A user deleting a status: only their own (else 403); it is marked
/// deleted at `now`, all else kept.
pub fn delete_own_status(s: StoredStatus, account: u128, now: i64) -> (r: Result<StoredStatus, u16>)
    ensures
        if s.account_id != account {
            r == Err::<StoredStatus, u16>(403)
        } else {
            r == Ok::<StoredStatus, u16>(StoredStatus { deleted_at: Some(now), ..s })
        },
{
    if s.account_id != account {
        return Err(403);
    }
    let mut n = s;
    n.deleted_at = Some(now);
    Ok(n)
}

/// A like by the local user `account` of the stored status `status`, with
/// id `id`, made at `now`: local, with no IRI of its own yet.
pub fn new_local_like(id: u128, account: u128, status: u128, now: i64) -> (r: StoredLike)
    ensures
        r.id == id && r.account == account && r.status == Some(status) && r.status_url is None,
        r.local && r.url is None && r.created_at == now,
{
    StoredLike { id, account, status: Some(status), status_url: None, local: true, url: None, created_at: now }
}

/// Likes a status for `account`: the new local like of `new_local_like`,
/// with a fresh random id.
pub fn post_like(account: u128, status: u128, now: i64) -> (r: StoredLike)
    ensures
        r.account == account && r.status == Some(status) && r.status_url is None,
        r.local && r.url is None && r.created_at == now,
{
    let id = new_uuid_v4();
    new_local_like(id, account, status, now)
}

/// What is served for a status's ActivityStreams IRI.
#[derive(Clone, Copy, Debug, PartialEq, Eq, Structural)]
pub enum StatusDocument {
    NotFound,
    /// A deleted boost.
    Gone,
    /// The status's Note.
    Note,
    /// The Create activity that carries its Note.
    CreateActivity,
    /// The Announce of a boost.
    Announce,
}

/// What the ActivityStreams IRI of a status (`activity` for the IRI of its
/// activity) serves: nothing for a remote status or one that is not
/// visible; for a boost, no Note, and as activity its Announce unless it is
/// deleted (gone); otherwise its Note or the Create of it.
pub fn status_document(local: bool, visible: bool, is_boost: bool, deleted: bool, activity: bool) -> (r: StatusDocument)
    ensures
        r == (if !local || !visible {
            StatusDocument::NotFound
        } else if !activity {
            if is_boost { StatusDocument::NotFound } else { StatusDocument::Note }
        } else if is_boost {
            if deleted { StatusDocument::Gone } else { StatusDocument::Announce }
        } else {
            StatusDocument::CreateActivity
        }),
{
    if !local || !visible {
        StatusDocument::NotFound
    } else if !activity {
        if is_boost { StatusDocument::NotFound } else { StatusDocument::Note }
    } else if is_boost {
        if deleted { StatusDocument::Gone } else { StatusDocument::Announce }
    } else {
        StatusDocument::CreateActivity
    }
}

/// Whether the ActivityStreams IRI of a like serves its Like activity: only
/// for a local like of a stored status whose audiences make it visible.
pub fn like_served(like: &StoredLike, visible: bool) -> (r: bool)
    ensures
        r == (like.local && like.status_url is None && visible),
{
    like.local && like.status_url.is_none() && visible
}

/// A local status as its Note shows it.
pub struct OutgoingStatus {
    /// The status's own IRI.
    pub url: String,
    pub deleted_at: Option<i64>,
    pub created_at: i64,
    pub updated_at: i64,
    pub sensitive: bool,
    pub text: String,
    pub spoiler_text: String,
    pub language: Option<String>,
}

/// A media file attached to a local status (its focus point, a pair of
/// floats, is added by the caller).
pub struct OutgoingMedia {
    pub file: Option<String>,
    pub description: Option<String>,
    pub blurhash: Option<String>,
    pub width: Option<i32>,
    pub height: Option<i32>,
    pub content_type: Option<String>,
    pub created_at: i64,
    pub preview_file: Option<String>,
    pub preview_content_type: Option<String>,
    pub preview_width: Option<i32>,
    pub preview_height: Option<i32>,
}

/// The preview Document of an attachment.
pub struct NotePreview {
    pub url: String,
    pub media_type: Option<String>,
    pub width: Option<u64>,
    pub height: Option<u64>,
}

/// An attachment of a Note: a Document.
pub struct NoteAttachment {
    pub url: Option<String>,
    pub summary: Option<String>,
    pub blurhash: Option<String>,
    pub width: Option<u64>,
    pub height: Option<u64>,
    pub media_type: Option<String>,
    pub published: i64,
    pub preview: Option<NotePreview>,
}

/// The Note of a local status.
pub struct NoteObject {
    pub id: String,
    pub published: i64,
    pub updated: i64,
    pub to: Vec<ReferenceOrObject<ObjectOrLink>>,
    pub cc: Vec<ReferenceOrObject<ObjectOrLink>>,
    pub attributed_to: String,
    pub sensitive: bool,
    pub content: String,
    /// The content under its language, where the status has one.
    pub content_map: Option<(String, String)>,
    pub summary: Option<String>,
    /// The summary under its language, where there are both.
    pub summary_map: Option<(String, String)>,
    pub attachment: Vec<NoteAttachment>,
}

/// What a local status is sent out as.
pub enum RenderedStatus {
    /// A deleted status: a Tombstone of a former Note, with its id and the
    /// time of deletion.
    Tombstone { id: String, deleted: i64 },
    Note(NoteObject),
}

pub open spec fn opt_cast(v: Option<i32>) -> Option<u64> {
    match v {
        Some(w) => Some(w as u64),
        None => None,
    }
}

fn cast_dimension(v: Option<i32>) -> (r: Option<u64>)
    ensures
        r == opt_cast(v),
{
    match v {
        Some(w) => Some(w as u64),
        None => None,
    }
}

/// How an attachment shows a media file: the URLs of its file and preview
/// on this server, its description as summary, its hash, sizes and type,
/// and the time it was stored; a preview only where there is a preview file.
pub open spec fn shows_media(uri: Seq<char>, m: OutgoingMedia, a: NoteAttachment) -> bool {
    &&& opt_view(a.url) == file_url(uri, m.file)
    &&& opt_view(a.summary) == opt_view(m.description)
    &&& opt_view(a.blurhash) == opt_view(m.blurhash)
    &&& a.width == opt_cast(m.width)
    &&& a.height == opt_cast(m.height)
    &&& opt_view(a.media_type) == opt_view(m.content_type)
    &&& a.published == m.created_at
    &&& match m.preview_file {
        Some(p) => a.preview matches Some(pv) && {
            &&& pv.url@ == "https://"@ + uri + "/media/"@ + p@
            &&& opt_view(pv.media_type) == opt_view(m.preview_content_type)
            &&& pv.width == opt_cast(m.preview_width)
            &&& pv.height == opt_cast(m.preview_height)
        },
        None => a.preview is None,
    }
}

fn render_attachment(uri: &str, m: &OutgoingMedia) -> (r: NoteAttachment)
    ensures
        shows_media(uri@, *m, r),
{
    let url = match &m.file {
        Some(f) => Some(media_url(uri, f.as_str())),
        None => None,
    };
    let preview = match &m.preview_file {
        Some(p) => Some(NotePreview {
            url: media_url(uri, p.as_str()),
            media_type: copy_opt_string(&m.preview_content_type),
            width: cast_dimension(m.preview_width),
            height: cast_dimension(m.preview_height),
        }),
        None => None,
    };
    NoteAttachment {
        url,
        summary: copy_opt_string(&m.description),
        blurhash: copy_opt_string(&m.blurhash),
        width: cast_dimension(m.width),
        height: cast_dimension(m.height),
        media_type: copy_opt_string(&m.content_type),
        published: m.created_at,
        preview,
    }
}

/// The Note of a local status, or its Tombstone once deleted. The Note has
/// the status's IRI as id, its times, the audiences given, `actor` as its
/// author, its sensitivity and text; the text under the status's language
/// where it has one; the summary only where it is not empty (and under the
/// language where there is one); and one Document per media file.
pub fn render_note(st: &OutgoingStatus, aud: ASAudiences, actor: &str, media: &Vec<OutgoingMedia>, uri: &str) -> (r: RenderedStatus)
    ensures
        match st.deleted_at {
            Some(d) => r matches RenderedStatus::Tombstone { id, deleted } && id@ == st.url@ && deleted == d,
            None => r matches RenderedStatus::Note(n) && {
                &&& n.id@ == st.url@
                &&& n.published == st.created_at
                &&& n.updated == st.updated_at
                &&& n.to == aud.to
                &&& n.cc == aud.cc
                &&& n.attributed_to@ == actor@
                &&& n.sensitive == st.sensitive
                &&& n.content@ == st.text@
                &&& match st.language {
                    Some(l) => n.content_map matches Some(cm) && cm.0@ == l@ && cm.1@ == st.text@,
                    None => n.content_map is None,
                }
                &&& if st.spoiler_text@.len() == 0 {
                    n.summary is None && n.summary_map is None
                } else {
                    &&& opt_view(n.summary) == Some(st.spoiler_text@)
                    &&& match st.language {
                        Some(l) => n.summary_map matches Some(sm) && sm.0@ == l@ && sm.1@ == st.spoiler_text@,
                        None => n.summary_map is None,
                    }
                }
                &&& n.attachment@.len() == media@.len()
                &&& forall|i: int| 0 <= i < media@.len() ==> shows_media(uri@, #[trigger] media@[i], n.attachment@[i])
            },
        },
{
    match st.deleted_at {
        Some(d) => {
            return RenderedStatus::Tombstone { id: st.url.clone(), deleted: d };
        },
        None => {},
    }
    let content_map = match &st.language {
        Some(l) => Some((l.clone(), st.text.clone())),
        None => None,
    };
    let has_summary = st.spoiler_text.unicode_len() != 0;
    let summary = if has_summary {
        Some(st.spoiler_text.clone())
    } else {
        None
    };
    let summary_map = if has_summary {
        match &st.language {
            Some(l) => Some((l.clone(), st.spoiler_text.clone())),
            None => None,
        }
    } else {
        None
    };
    let mut attachment: Vec<NoteAttachment> = Vec::new();
    let mut i: usize = 0;
    while i < media.len()
        invariant
            i <= media.len(),
            attachment@.len() == i,
            forall|j: int| 0 <= j < i ==> shows_media(uri@, #[trigger] media@[j], attachment@[j]),
        decreases media.len() - i,
    {
        attachment.push(render_attachment(uri, &media[i]));
        i = i + 1;
    }
    RenderedStatus::Note(NoteObject {
        id: st.url.clone(),
        published: st.created_at,
        updated: st.updated_at,
        to: aud.to,
        cc: aud.cc,
        attributed_to: actor.to_owned(),
        sensitive: st.sensitive,
        content: st.text.clone(),
        content_map,
        summary,
        summary_map,
        attachment,
    })
}

/// A task that storing a status orders next.
#[derive(Clone, Copy, Debug, PartialEq, Eq, Structural)]
pub enum FollowUp {
    /// Put the status with this id into the timelines of its audiences.
    InsertIntoTimelines(u128),
    /// Fetch the replies collection of the Note the status was made from.
    FetchReplies,
    /// Send this notice of a reaction.
    Notify(ReactionNotice),
    /// Deliver the local status with this id to the servers of its audiences.
    Deliver(u128),
}

/// The tasks that storing a Note orders: for a new status, one insertion
/// into the timelines, then a fetch of the Note's replies where it has a
/// replies collection; none for a kept or updated status. (The notices of
/// mentions are `mention_notices`.)
pub open spec fn spec_note_follow_ups(sync: StatusSync, has_replies: bool) -> Seq<FollowUp> {
    match sync {
        StatusSync::Created(s) => if has_replies {
            seq![FollowUp::InsertIntoTimelines(s.id), FollowUp::FetchReplies]
        } else {
            seq![FollowUp::InsertIntoTimelines(s.id)]
        },
        _ => Seq::empty(),
    }
}

/// The tasks that storing a Note orders.
pub fn note_follow_ups(sync: &StatusSync, has_replies: bool) -> (r: Vec<FollowUp>)
    ensures
        r@ == spec_note_follow_ups(*sync, has_replies),
{
    let mut v: Vec<FollowUp> = Vec::new();
    match sync {
        StatusSync::Created(s) => {
            v.push(FollowUp::InsertIntoTimelines(s.id));
            if has_replies {
                v.push(FollowUp::FetchReplies);
                assert(v@ =~= seq![FollowUp::InsertIntoTimelines(s.id), FollowUp::FetchReplies]);
            } else {
                assert(v@ =~= seq![FollowUp::InsertIntoTimelines(s.id)]);
            }
        },
        _ => {
            assert(v@ =~= Seq::<FollowUp>::empty());
        },
    }
    v
}

/// The tasks that storing an Announce orders: for a new boost, one
/// insertion into the timelines, then the reblog notice where there is one;
/// none for a kept or updated boost.
pub open spec fn spec_boost_follow_ups(sync: StatusSync, notice: Option<ReactionNotice>) -> Seq<FollowUp> {
    match sync {
        StatusSync::Created(s) => match notice {
            Some(n) => seq![FollowUp::InsertIntoTimelines(s.id), FollowUp::Notify(n)],
            None => seq![FollowUp::InsertIntoTimelines(s.id)],
        },
        _ => Seq::empty(),
    }
}

/// The tasks that storing an Announce orders, given what `sync_boost` or
/// `store_boost` returned.
pub fn boost_follow_ups(sync: &StatusSync, notice: Option<ReactionNotice>) -> (r: Vec<FollowUp>)
    ensures
        r@ == spec_boost_follow_ups(*sync, notice),
{
    let mut v: Vec<FollowUp> = Vec::new();
    match sync {
        StatusSync::Created(s) => {
            v.push(FollowUp::InsertIntoTimelines(s.id));
            match notice {
                Some(n) => {
                    v.push(FollowUp::Notify(n));
                    assert(v@ =~= seq![FollowUp::InsertIntoTimelines(s.id), FollowUp::Notify(n)]);
                },
                None => {
                    assert(v@ =~= seq![FollowUp::InsertIntoTimelines(s.id)]);
                },
            }
        },
        _ => {
            assert(v@ =~= Seq::<FollowUp>::empty());
        },
    }
    v
}

/// The tasks that posting a local status orders: exactly one delivery of
/// it to the servers of its audiences.
pub fn local_status_follow_ups(s: &StoredStatus) -> (r: Vec<FollowUp>)
    ensures
        r@ == seq![FollowUp::Deliver(s.id)],
{
    let mut v: Vec<FollowUp> = Vec::new();
    v.push(FollowUp::Deliver(s.id));
    proof {
        assert(v@ =~= seq![FollowUp::Deliver(s.id)]);
    }
    v
}

/// A new boost orders exactly one insertion into the timelines, of the new
/// boost, whatever notice it sends.
pub proof fn lemma_new_boost_one_insertion(sync: StatusSync, notice: Option<ReactionNotice>)
    requires
        sync is Created,
    ensures
        spec_boost_follow_ups(sync, notice).filter(|f: FollowUp| f is InsertIntoTimelines)
            == seq![FollowUp::InsertIntoTimelines(sync->Created_0.id)],
{
    let f = |f: FollowUp| f is InsertIntoTimelines;
    let s = sync->Created_0;
    let ins = FollowUp::InsertIntoTimelines(s.id);
    reveal_with_fuel(Seq::filter, 3);
    match notice {
        Some(n) => {
            let q = seq![ins, FollowUp::Notify(n)];
            assert(q.drop_last() =~= seq![ins]);
            assert(seq![ins].drop_last() =~= Seq::<FollowUp>::empty());
            assert(q.filter(f) =~= seq![ins]);
        },
        None => {
            let q = seq![ins];
            assert(q.drop_last() =~= Seq::<FollowUp>::empty());
            assert(q.filter(f) =~= seq![ins]);
        },
    }
}

/// The refusal of the first attachment of a new status that cannot be
/// attached, in order: 422 for a media id that names no stored media, 403
/// for media that the user `subject` does not own. `owners` holds, for
/// each media id, `None` where it names no stored media, else its owner.
pub open spec fn media_refusal(owners: Seq<Option<Option<String>>>, subject: Seq<char>) -> Option<u16>
    decreases owners.len(),
{
    if owners.len() == 0 {
        None
    } else {
        match owners[0] {
            None => Some(422u16),
            Some(o) => if opt_view(o) == Some(subject) {
                media_refusal(owners.drop_first(), subject)
            } else {
                Some(403u16)
            },
        }
    }
}

/// Why a new status is refused, checked in order: 403 without the
/// `write:statuses` scope, 422 for a status it replies to that is not
/// stored, the refusal of its attachments, then 422 for a status with
/// neither text nor media.
pub open spec fn post_refusal(
    has_scope: bool, reply_missing: bool, owners: Seq<Option<Option<String>>>, subject: Seq<char>, html: Seq<char>,
) -> Option<u16> {
    if !has_scope {
        Some(403u16)
    } else if reply_missing {
        Some(422u16)
    } else {
        match media_refusal(owners, subject) {
            Some(c) => Some(c),
            None => if html.len() == 0 && owners.len() == 0 { Some(422u16) } else { None },
        }
    }
}

/// The first refusal among the attachments of a new status.
fn check_media(media_owners: &Vec<Option<Option<String>>>, subject: &str) -> (r: Option<u16>)
    ensures
        r == media_refusal(media_owners@, subject@),
{
    let mut i: usize = 0;
    proof {
        assert(media_owners@.skip(0) =~= media_owners@);
    }
    while i < media_owners.len()
        invariant
            i <= media_owners.len(),
            media_refusal(media_owners@, subject@) == media_refusal(media_owners@.skip(i as int), subject@),
        decreases media_owners.len() - i,
    {
        let ghost rest = media_owners@.skip(i as int);
        proof {
            assert(rest[0] == media_owners@[i as int]);
            assert(rest.drop_first() =~= media_owners@.skip(i + 1));
        }
        match &media_owners[i] {
            None => return Some(422),
            Some(o) => {
                let owner = match o {
                    Some(x) => Some(x.as_str()),
                    None => None,
                };
                if !media_owned_by(owner, subject) {
                    return Some(403);
                }
            },
        }
        i = i + 1;
    }
    proof {
        assert(media_owners@.skip(i as int) =~= Seq::<Option<Option<String>>>::empty());
    }
    None
}

/// Posts a new status of the user `subject` (of the account `account`),
/// after the checks of `post_refusal`: `has_scope` is whether the token
/// grants `write:statuses`, `reply_missing` whether the status it replies
/// to could not be found, and `media_owners` holds, for each media id
/// asked for, `None` where it names no stored media, else its owner. The
/// status made is that of `local_status_made`, with its audience, and it
/// orders exactly one delivery.
pub fn create_local_status(
    has_scope: bool, reply_missing: bool, media_owners: &Vec<Option<Option<String>>>, subject: &str,
    account: u128, post: LocalPost, default_language: Option<String>, default_sensitive: Option<bool>, now: i64,
) -> (r: Result<(StoredStatus, Option<StatusAudience>, Vec<FollowUp>), u16>)
    ensures
        match post_refusal(has_scope, reply_missing, media_owners@, subject@, post.html@) {
            Some(c) => r == Err::<(StoredStatus, Option<StatusAudience>, Vec<FollowUp>), u16>(c),
            None => r matches Ok(t) && local_status_made(t.0.id, account, post, default_language,
                default_sensitive, now, (t.0, t.1)) && t.2@ == seq![FollowUp::Deliver(t.0.id)],
        },
{
    if !has_scope {
        return Err(403);
    }
    if reply_missing {
        return Err(422);
    }
    match check_media(media_owners, subject) {
        Some(c) => return Err(c),
        None => {},
    }
    if !has_content(post.html.as_str(), media_owners.len()) {
        return Err(422);
    }
    let (s, aud) = post_status(account, post, default_language, default_sensitive, now);
    let follow = local_status_follow_ups(&s);
    Ok((s, aud, follow))
}

} // verus!
