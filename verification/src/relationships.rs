//! Follows between accounts: the decisions of the follow tasks and the
//! activities they send.
use vstd::prelude::*;
use crate::text::opt_view;
use crate::activity_streams::{Object, ObjectKind, ObjectOrLink, Pluralisable, ReferenceOrObject};
use crate::ids::{new_uuid_v4, uuid_text, uuid_to_string};
use crate::text::append_str;
use crate::tasks::ASAudiences;

verus! {

/// What an incoming follow leads to.
#[derive(Clone, Copy, PartialEq, Eq, Debug)]
pub enum FollowDecision {
    /// The follow names nothing to follow: logged and dropped.
    NoObject,
    /// What it names is no known account: logged and dropped.
    UnknownTarget,
    /// It follows a remote account: nothing to do here.
    RemoteTarget,
    /// It follows a local account: the follow is recorded and notified, and
    /// accepted back when the follower has an inbox to send to.
    LocalTarget { send_accept: bool },
}

/// Decides an incoming follow. `target_local` is `None` when the object is
/// no known account, else whether that account is local.
pub open spec fn spec_follow_decision(has_object: bool, target_local: Option<bool>, follower_has_inbox: bool) -> FollowDecision {
    if !has_object {
        FollowDecision::NoObject
    } else {
        match target_local {
            None => FollowDecision::UnknownTarget,
            Some(false) => FollowDecision::RemoteTarget,
            Some(true) => FollowDecision::LocalTarget { send_accept: follower_has_inbox },
        }
    }
}

/// Decides an incoming follow.
pub fn follow_decision(has_object: bool, target_local: Option<bool>, follower_has_inbox: bool) -> (r: FollowDecision)
    ensures
        r == spec_follow_decision(has_object, target_local, follower_has_inbox),
{
    if !has_object {
        FollowDecision::NoObject
    } else {
        match target_local {
            None => FollowDecision::UnknownTarget,
            Some(false) => FollowDecision::RemoteTarget,
            Some(true) => FollowDecision::LocalTarget { send_accept: follower_has_inbox },
        }
    }
}

/// A stored follow.
#[derive(Clone, Copy, Debug, PartialEq, Eq, Structural)]
pub struct FollowRecord {
    pub id: u128,
    pub follower: u128,
    pub followee: u128,
    pub created_at: i64,
    pub pending: bool,
    pub notify: bool,
    pub reblogs: bool,
}

/// What an accepted incoming follow stores: a follow with id `id` of
/// `followee` by `follower`, made when the activity was published (or
/// `now`), already accepted, without notifications or boosts; and the
/// follow notification's account and cause, with its time.
pub fn incoming_follow(id: u128, follower: u128, followee: u128, published: Option<i64>, now: i64) -> (r: (FollowRecord, (u128, u128, i64)))
    ensures
        ({
            let t = match published {
                Some(p) => p,
                None => now,
            };
            &&& r.0 == FollowRecord { id, follower, followee, created_at: t, pending: false, notify: false, reblogs: false }
            &&& r.1 == (followee, follower, t)
        }),
{
    let t = match published {
        Some(p) => p,
        None => now,
    };
    (FollowRecord { id, follower, followee, created_at: t, pending: false, notify: false, reblogs: false }, (followee, follower, t))
}

/// The follow stored when a local user asks to follow an account: with id
/// `id`, made at `now`, pending until it is accepted, without notifications
/// or boosts.
pub fn outgoing_follow(id: u128, follower: u128, followee: u128, now: i64) -> (r: FollowRecord)
    ensures
        r == (FollowRecord { id, follower, followee, created_at: now, pending: true, notify: false, reblogs: false }),
{
    FollowRecord { id, follower, followee, created_at: now, pending: true, notify: false, reblogs: false }
}

/// Records an accepted incoming follow as `incoming_follow` does, with a
/// fresh random id.
pub fn accept_incoming_follow(follower: u128, followee: u128, published: Option<i64>, now: i64) -> (r: (FollowRecord, (u128, u128, i64)))
    ensures
        ({
            let t = match published {
                Some(p) => p,
                None => now,
            };
            &&& r.0 == FollowRecord { id: r.0.id, follower, followee, created_at: t, pending: false, notify: false, reblogs: false }
            &&& r.1 == (followee, follower, t)
        }),
{
    let id = new_uuid_v4();
    incoming_follow(id, follower, followee, published, now)
}

/// Records a local user's request to follow an account as
/// `outgoing_follow` does, with a fresh random id.
pub fn request_follow(follower: u128, followee: u128, now: i64) -> (r: FollowRecord)
    ensures
        r == (FollowRecord { id: r.id, follower, followee, created_at: now, pending: true, notify: false, reblogs: false }),
{
    let id = new_uuid_v4();
    outgoing_follow(id, follower, followee, now)
}

/// The followed account whose follow by the sender an Undo of a follow
/// removes: none where the undone follow names no object, or no known
/// account.
pub fn undo_follow_target(has_object: bool, followee: Option<u128>) -> (r: Option<u128>)
    ensures
        r == (if has_object { followee } else { None }),
{
    if has_object {
        followee
    } else {
        None
    }
}

/// What an Accept or a Reject of a follow leads to.
#[derive(Clone, Copy, Debug, PartialEq, Eq, Structural)]
pub enum FollowAnswer {
    /// The answered follow names no actor: dropped.
    NoActor,
    /// It names nothing followed: dropped.
    NoObject,
    /// Its actor is no known account: dropped.
    UnknownFollower,
    /// What it follows is no known account: dropped.
    UnknownFollowee,
    /// The answer does not come from the followed account: dropped.
    WrongSender,
    /// The follow of `follower` of the sender is accepted or removed.
    Apply { follower: u128 },
}

/// Decides an Accept or Reject sent by `sender` of a follow. `follower` and
/// `followee` are the accounts the follow's actor and object were found
/// to be, where they were.
pub fn follow_answer(has_actor: bool, has_object: bool, follower: Option<u128>, followee: Option<u128>, sender: u128) -> (r: FollowAnswer)
    ensures
        r == (if !has_actor {
            FollowAnswer::NoActor
        } else if !has_object {
            FollowAnswer::NoObject
        } else {
            match (follower, followee) {
                (None, _) => FollowAnswer::UnknownFollower,
                (Some(_), None) => FollowAnswer::UnknownFollowee,
                (Some(f), Some(e)) => if e == sender { FollowAnswer::Apply { follower: f } } else { FollowAnswer::WrongSender },
            }
        }),
{
    if !has_actor {
        FollowAnswer::NoActor
    } else if !has_object {
        FollowAnswer::NoObject
    } else {
        match (follower, followee) {
            (None, _) => FollowAnswer::UnknownFollower,
            (Some(_), None) => FollowAnswer::UnknownFollowee,
            (Some(f), Some(e)) => if e == sender { FollowAnswer::Apply { follower: f } } else { FollowAnswer::WrongSender },
        }
    }
}

/// Whether a follow or unfollow made here is sent to the followed account.
#[derive(Clone, Copy, PartialEq, Eq, Debug)]
pub enum OutgoingDecision {
    /// The follower is not local: no activity is made for it.
    NotLocal,
    /// The followed account has no inbox: logged.
    NoInbox,
    /// The activity is delivered to the followed account's inbox.
    Deliver,
}

/// Decides whether a follow or unfollow is sent.
pub fn outgoing_decision(follower_local: bool, followee_has_inbox: bool) -> (r: OutgoingDecision)
    ensures
        r == (if !follower_local {
            OutgoingDecision::NotLocal
        } else if !followee_has_inbox {
            OutgoingDecision::NoInbox
        } else {
            OutgoingDecision::Deliver
        }),
{
    if !follower_local {
        OutgoingDecision::NotLocal
    } else if !followee_has_inbox {
        OutgoingDecision::NoInbox
    } else {
        OutgoingDecision::Deliver
    }
}

/// The id of an activity made here.
pub fn activity_id(uri: &str, kind: &str, id: u128) -> (r: String)
    ensures
        r@ == "https://"@ + uri@ + "/as/"@ + kind@ + "/"@ + uuid_text(id),
{
    let mut s = "https://".to_owned();
    append_str(&mut s, uri);
    append_str(&mut s, "/as/");
    append_str(&mut s, kind);
    append_str(&mut s, "/");
    let t = uuid_to_string(id);
    append_str(&mut s, t.as_str());
    s
}

/// An activity of this server: its kind, id, actor, audiences and
/// publication time.
pub open spec fn is_activity(
    o: Object, kind: ObjectKind, id: Seq<char>, actor: Seq<char>,
    to: Seq<ReferenceOrObject<ObjectOrLink>>, cc: Seq<ReferenceOrObject<ObjectOrLink>>, published: Option<i64>,
) -> bool {
    &&& o.kind == kind
    &&& opt_view(o.id) == Some(id)
    &&& o.href is None
    &&& (o.actor matches Some(ReferenceOrObject::Reference(a)) && a@ == actor)
    &&& o.to.items() == to
    &&& o.cc.items() == cc
    &&& o.url is None
    &&& o.published == published
}

fn activity(
    kind: ObjectKind, id: String, actor: &str, object: Option<ReferenceOrObject<ObjectOrLink>>,
    to: Pluralisable<ReferenceOrObject<ObjectOrLink>>, cc: Pluralisable<ReferenceOrObject<ObjectOrLink>>,
    published: Option<i64>,
) -> (r: Object)
    ensures
        is_activity(r, kind, id@, actor@, to.items(), cc.items(), published),
        r.object == object,
        r.to == to,
        r.cc == cc,
{
    Object {
        kind,
        id: Some(id),
        href: None,
        actor: Some(ReferenceOrObject::Reference(actor.to_owned())),
        object,
        to,
        cc,
        url: None,
        published,
    }
}

/// The follow activity sent for the follow with id `following_id`, made at
/// `created_at`: made by `actor`, of the followed account's actor IRI if it
/// has one, with no audience.
pub fn follow_activity(uri: &str, following_id: u128, actor: &str, followee: Option<String>, created_at: i64) -> (r: Object)
    ensures
        is_activity(r, ObjectKind::Follow, "https://"@ + uri@ + "/as/"@ + "follow"@ + "/"@ + uuid_text(following_id), actor@,
            Seq::empty(), Seq::empty(), Some(created_at)),
        match followee {
            Some(f) => r.object matches Some(ReferenceOrObject::Reference(o)) && o@ == f@,
            None => r.object is None,
        },
{
    let id = activity_id(uri, "follow", following_id);
    let object = match followee {
        Some(f) => Some(ReferenceOrObject::Reference(f)),
        None => None,
    };
    let r = activity(ObjectKind::Follow, id, actor, object, Pluralisable::empty(), Pluralisable::empty(), Some(created_at));
    proof {
        assert(r.to.items() =~= Seq::<ReferenceOrObject<ObjectOrLink>>::empty());
        assert(r.cc.items() =~= Seq::<ReferenceOrObject<ObjectOrLink>>::empty());
    }
    r
}

/// An activity that answers or takes back `inner` (an accept of a follow,
/// or the undo of one): a fresh random transient id (given back beside the
/// activity), made by `actor`, with `inner` as its object, no audience, and
/// the publication time given.
pub fn wrapping_activity(kind: ObjectKind, uri: &str, actor: &str, inner: Object, published: Option<i64>) -> (r: (Object, u128))
    ensures
        is_activity(r.0, kind, "https://"@ + uri@ + "/as/"@ + "transient"@ + "/"@ + uuid_text(r.1), actor@,
            Seq::empty(), Seq::empty(), published),
        r.0.object == Some(ReferenceOrObject::Object(Box::new(ObjectOrLink::Object(inner)))),
{
    let transient_id = new_uuid_v4();
    let id = activity_id(uri, "transient", transient_id);
    let r = activity(kind, id, actor, Some(ReferenceOrObject::Object(Box::new(ObjectOrLink::Object(inner)))),
        Pluralisable::empty(), Pluralisable::empty(), published);
    proof {
        assert(r.to.items() =~= Seq::<ReferenceOrObject<ObjectOrLink>>::empty());
        assert(r.cc.items() =~= Seq::<ReferenceOrObject<ObjectOrLink>>::empty());
    }
    (r, transient_id)
}

/// The activity of a boost or a like: its own IRI as id, made by `actor` at
/// `published`, addressed to the audiences given, with the IRI of the
/// boosted or liked status as object.
pub fn reaction_activity(kind: ObjectKind, id: String, actor: &str, aud: ASAudiences, object_iri: String, published: i64) -> (r: Object)
    ensures
        is_activity(r, kind, id@, actor@, aud.to@, aud.cc@, Some(published)),
        r.object matches Some(ReferenceOrObject::Reference(o)) && o@ == object_iri@,
{
    activity(kind, id, actor, Some(ReferenceOrObject::Reference(object_iri)), Pluralisable::List(aud.to),
        Pluralisable::List(aud.cc), Some(published))
}

/// The undo of a boost or a like: a fresh random transient id (given back
/// beside the activity), made by `actor`, addressed as the boost or like
/// was, with it as object; an undone boost is dated with the deletion of the
/// boost, an undone like not at all.
pub fn undo_reaction(uri: &str, actor: &str, aud: ASAudiences, inner: Object, published: Option<i64>) -> (r: (Object, u128))
    ensures
        is_activity(r.0, ObjectKind::Undo, "https://"@ + uri@ + "/as/"@ + "transient"@ + "/"@ + uuid_text(r.1), actor@,
            aud.to@, aud.cc@, published),
        r.0.object == Some(ReferenceOrObject::Object(Box::new(ObjectOrLink::Object(inner)))),
{
    let transient_id = new_uuid_v4();
    let id = activity_id(uri, "transient", transient_id);
    let r = activity(ObjectKind::Undo, id, actor, Some(ReferenceOrObject::Object(Box::new(ObjectOrLink::Object(inner)))),
        Pluralisable::List(aud.to), Pluralisable::List(aud.cc), published);
    (r, transient_id)
}

/// Whether a follow decision sends an Accept back to the follower.
pub open spec fn sends_accept(d: FollowDecision) -> bool {
    d matches FollowDecision::LocalTarget { send_accept } && send_accept
}

/// Whether a follow decision records the follow (and notifies its target).
pub open spec fn records_follow(d: FollowDecision) -> bool {
    d is LocalTarget
}

/// An incoming follow is recorded exactly when it names a known local
/// account, and an Accept goes back exactly when, besides, the follower has
/// an inbox to send it to.
pub proof fn lemma_follow_accepted_back(has_object: bool, target_local: Option<bool>, follower_has_inbox: bool)
    ensures
        records_follow(spec_follow_decision(has_object, target_local, follower_has_inbox))
            <==> (has_object && target_local == Some(true)),
        sends_accept(spec_follow_decision(has_object, target_local, follower_has_inbox))
            <==> (has_object && target_local == Some(true) && follower_has_inbox),
{
}

} // verus!
