//! Decisions of the background tasks: what an incoming activity leads to,
//! where a referenced object is looked up, how a status is addressed, and
//! what a push-service answer means.
use vstd::prelude::*;
use crate::text::opt_view;
use crate::activity_streams::{ObjectKind, ObjectID, ObjectOrLink, ReferenceOrObject, URLOrLink, Link,
    is_public_iri, public_iri, is_public_reference, has_public_reference};
use crate::text::{append_str, capture_group, regex_group, str_eq};
use crate::activity_streams::Object;
use crate::ids::{parse_uuid, uuid_parsed};

verus! {

/// Where an object that an activity refers to is to be found.
pub enum ObjectLookup {
    /// The activity carries the object itself.
    Inline(Object),
    /// It names an object of this server, by id.
    Local(u128),
    /// It names an object elsewhere, by IRI.
    Remote(String),
    /// It gives a link with no target (an error).
    LinkWithoutHref,
    /// It names an object of this server whose id is no UUID (an error).
    BadLocalId,
}

/// The pattern of the IRIs of this server's objects of one kind (`status`
/// or `users`): `https://{uri}/as/{kind}/` and the id (the host is put into
/// the pattern as it is).
pub open spec fn local_pattern(uri: Seq<char>, kind: Seq<char>) -> Seq<char> {
    "https://"@ + uri + "/as/"@ + kind + "/(?P<id>.+)"@
}

/// Where an IRI leads: to a local object where it matches the pattern of
/// local IRIs, by the id it holds; elsewhere otherwise.
pub open spec fn iri_lookup_kind(iri: Seq<char>, uri: Seq<char>, kind: Seq<char>) -> Option<Option<u128>> {
    match regex_group(local_pattern(uri, kind), iri, "id"@) {
        Some(id) => Some(uuid_parsed(id)),
        None => None,
    }
}

fn lookup_iri(iri: String, uri: &str, kind: &str) -> (r: ObjectLookup)
    ensures
        match iri_lookup_kind(iri@, uri@, kind@) {
            Some(Some(u)) => r == ObjectLookup::Local(u),
            Some(None) => r == ObjectLookup::BadLocalId,
            None => r matches ObjectLookup::Remote(s) && s@ == iri@,
        },
{
    proof {
        reveal_strlit("id");
    }
    let mut pattern = "https://".to_owned();
    append_str(&mut pattern, uri);
    append_str(&mut pattern, "/as/");
    append_str(&mut pattern, kind);
    append_str(&mut pattern, "/(?P<id>.+)");
    assert(pattern@ == local_pattern(uri@, kind@));
    match capture_group(pattern.as_str(), iri.as_str(), "id") {
        Some(id) => match parse_uuid(id.as_str()) {
            Some(u) => ObjectLookup::Local(u),
            None => ObjectLookup::BadLocalId,
        },
        None => ObjectLookup::Remote(iri),
    }
}

/// Where an object that an activity refers to is found: an inline object as
/// it is; a link by its target; a reference, and a link's target, locally
/// when it is an IRI of this server's objects of kind `kind`, elsewhere
/// otherwise.
pub fn lookup_object(r: ReferenceOrObject<ObjectOrLink>, uri: &str, kind: &str) -> (l: ObjectLookup)
    ensures
        match r {
            ReferenceOrObject::Object(b) => match *b {
                ObjectOrLink::Object(o) => l == ObjectLookup::Inline(o),
                ObjectOrLink::Link(k) => match k.href {
                    None => l == ObjectLookup::LinkWithoutHref,
                    Some(h) => match iri_lookup_kind(h@, uri@, kind@) {
                        Some(Some(u)) => l == ObjectLookup::Local(u),
                        Some(None) => l == ObjectLookup::BadLocalId,
                        None => l matches ObjectLookup::Remote(s) && s@ == h@,
                    },
                },
            },
            ReferenceOrObject::Reference(iri) => match iri_lookup_kind(iri@, uri@, kind@) {
                Some(Some(u)) => l == ObjectLookup::Local(u),
                Some(None) => l == ObjectLookup::BadLocalId,
                None => l matches ObjectLookup::Remote(s) && s@ == iri@,
            },
        },
{
    match r {
        ReferenceOrObject::Object(b) => match *b {
            ObjectOrLink::Object(o) => ObjectLookup::Inline(o),
            ObjectOrLink::Link(k) => match k.href {
                None => ObjectLookup::LinkWithoutHref,
                Some(h) => lookup_iri(h, uri, kind),
            },
        },
        ReferenceOrObject::Reference(iri) => lookup_iri(iri, uri, kind),
    }
}

/// The URL a `url` property gives: the bare URL, or the link's `href`.
pub open spec fn spec_resolve_url(obj: URLOrLink) -> Option<Seq<char>> {
    match obj {
        URLOrLink::URL(u) => Some(u@),
        URLOrLink::Link(l) => opt_view(l.href),
    }
}

/// Reads the URL out of a `url` property.
pub fn resolve_url(obj: URLOrLink) -> (r: Option<String>)
    ensures
        opt_view(r) == spec_resolve_url(obj),
{
    match obj {
        URLOrLink::URL(u) => Some(u),
        URLOrLink::Link(l) => l.href,
    }
}

/// Reads the URL out of a borrowed `url` property.
pub fn url_of(obj: &URLOrLink) -> (r: Option<String>)
    ensures
        opt_view(r) == spec_resolve_url(*obj),
{
    match obj {
        URLOrLink::URL(u) => Some(u.clone()),
        URLOrLink::Link(l) => match &l.href {
            Some(h) => Some(h.clone()),
            None => None,
        },
    }
}

/// Whether an object type is one of the activity types the inbox accepts.
pub open spec fn is_activity_kind(k: ObjectKind) -> bool {
    match k {
        ObjectKind::Accept | ObjectKind::TentativeAccept | ObjectKind::Add | ObjectKind::Arrive
        | ObjectKind::Create | ObjectKind::Delete | ObjectKind::Follow | ObjectKind::Ignore
        | ObjectKind::Join | ObjectKind::Leave | ObjectKind::Like | ObjectKind::Offer
        | ObjectKind::Invite | ObjectKind::Reject | ObjectKind::TentativeReject | ObjectKind::Remove
        | ObjectKind::Undo | ObjectKind::Update | ObjectKind::View | ObjectKind::Listen
        | ObjectKind::Read | ObjectKind::Move | ObjectKind::Travel | ObjectKind::Announce
        | ObjectKind::Block | ObjectKind::Flag | ObjectKind::Dislike | ObjectKind::Question => true,
        _ => false,
    }
}

/// Whether an object type is an actor type.
pub open spec fn is_actor_kind(k: ObjectKind) -> bool {
    match k {
        ObjectKind::Person | ObjectKind::Service | ObjectKind::Organization
        | ObjectKind::Application | ObjectKind::Group => true,
        _ => false,
    }
}

/// What the inbox does with a signed, verified activity before looking at
/// the object it refers to.
#[derive(Clone, Copy, PartialEq, Eq, Debug)]
pub enum InboxDispatch {
    /// Not an activity: logged and dropped.
    NotAnActivity,
    /// A follow request: handed to the follow task.
    ProcessFollow,
    /// The activity's object has to be resolved first, for the given purpose.
    ResolveObject(ObjectPurpose),
    /// An activity the server does not act on.
    Unsupported,
}

/// Why the inbox resolves an activity's object.
#[derive(Clone, Copy, PartialEq, Eq, Debug)]
pub enum ObjectPurpose {
    Update,
    Undo,
    Accept,
    Reject,
}

/// The task an activity finally leads to.
#[derive(Clone, Copy, PartialEq, Eq, Debug)]
pub enum InboxTask {
    UpdateAccount,
    UndoFollow,
    AcceptFollow,
    RejectFollow,
    /// The object does not support the activity: logged and dropped.
    Unsupported,
}

/// The first dispatch of an incoming object, by its type.
pub open spec fn spec_inbox_dispatch(k: ObjectKind) -> InboxDispatch {
    if !is_activity_kind(k) {
        InboxDispatch::NotAnActivity
    } else {
        match k {
            ObjectKind::Follow => InboxDispatch::ProcessFollow,
            ObjectKind::Update => InboxDispatch::ResolveObject(ObjectPurpose::Update),
            ObjectKind::Undo => InboxDispatch::ResolveObject(ObjectPurpose::Undo),
            ObjectKind::Accept => InboxDispatch::ResolveObject(ObjectPurpose::Accept),
            ObjectKind::Reject => InboxDispatch::ResolveObject(ObjectPurpose::Reject),
            _ => InboxDispatch::Unsupported,
        }
    }
}

/// Dispatches an incoming object by its type.
pub fn inbox_dispatch(k: ObjectKind) -> (r: InboxDispatch)
    ensures
        r == spec_inbox_dispatch(k),
{
    match k {
        ObjectKind::Follow => InboxDispatch::ProcessFollow,
        ObjectKind::Update => InboxDispatch::ResolveObject(ObjectPurpose::Update),
        ObjectKind::Undo => InboxDispatch::ResolveObject(ObjectPurpose::Undo),
        ObjectKind::Accept => InboxDispatch::ResolveObject(ObjectPurpose::Accept),
        ObjectKind::Reject => InboxDispatch::ResolveObject(ObjectPurpose::Reject),
        ObjectKind::TentativeAccept | ObjectKind::Add | ObjectKind::Arrive | ObjectKind::Create
        | ObjectKind::Delete | ObjectKind::Ignore | ObjectKind::Join | ObjectKind::Leave
        | ObjectKind::Like | ObjectKind::Offer | ObjectKind::Invite | ObjectKind::TentativeReject
        | ObjectKind::Remove | ObjectKind::View | ObjectKind::Listen | ObjectKind::Read
        | ObjectKind::Move | ObjectKind::Travel | ObjectKind::Announce | ObjectKind::Block
        | ObjectKind::Flag | ObjectKind::Dislike | ObjectKind::Question => InboxDispatch::Unsupported,
        _ => InboxDispatch::NotAnActivity,
    }
}

/// The task an activity leads to once its object is resolved: updates apply
/// to actors, undo/accept/reject to follow requests.
pub open spec fn spec_inbox_task(p: ObjectPurpose, resolved: ObjectKind) -> InboxTask {
    match p {
        ObjectPurpose::Update => if is_actor_kind(resolved) {
            InboxTask::UpdateAccount
        } else {
            InboxTask::Unsupported
        },
        ObjectPurpose::Undo => if resolved == ObjectKind::Follow {
            InboxTask::UndoFollow
        } else {
            InboxTask::Unsupported
        },
        ObjectPurpose::Accept => if resolved == ObjectKind::Follow {
            InboxTask::AcceptFollow
        } else {
            InboxTask::Unsupported
        },
        ObjectPurpose::Reject => if resolved == ObjectKind::Follow {
            InboxTask::RejectFollow
        } else {
            InboxTask::Unsupported
        },
    }
}

/// Chooses the task for an activity whose object has been resolved.
pub fn inbox_task(p: ObjectPurpose, resolved: ObjectKind) -> (r: InboxTask)
    ensures
        r == spec_inbox_task(p, resolved),
{
    let is_follow = match resolved {
        ObjectKind::Follow => true,
        _ => false,
    };
    match p {
        ObjectPurpose::Update => match resolved {
            ObjectKind::Person | ObjectKind::Service | ObjectKind::Organization
            | ObjectKind::Application | ObjectKind::Group => InboxTask::UpdateAccount,
            _ => InboxTask::Unsupported,
        },
        ObjectPurpose::Undo => if is_follow {
            InboxTask::UndoFollow
        } else {
            InboxTask::Unsupported
        },
        ObjectPurpose::Accept => if is_follow {
            InboxTask::AcceptFollow
        } else {
            InboxTask::Unsupported
        },
        ObjectPurpose::Reject => if is_follow {
            InboxTask::RejectFollow
        } else {
            InboxTask::Unsupported
        },
    }
}

/// What a push service's answer to a notification delivery means.
#[derive(Clone, Copy, PartialEq, Eq, Debug)]
pub enum PushOutcome {
    /// 2xx: delivered.
    Delivered,
    /// 404, 403 or 410: the subscription is dead and is removed.
    RemoveSubscription,
    /// Anything else: the delivery task fails (and is retried).
    Failed,
}

/// The meaning of an HTTP status code returned by a push service.
pub open spec fn spec_push_outcome(status: u16) -> PushOutcome {
    if 200 <= status && status <= 299 {
        PushOutcome::Delivered
    } else if status == 410 || status == 404 || status == 403 {
        PushOutcome::RemoveSubscription
    } else {
        PushOutcome::Failed
    }
}

/// Classifies a push service's HTTP status code.
pub fn classify_push_response(status: u16) -> (r: PushOutcome)
    ensures
        r == spec_push_outcome(status),
{
    if 200 <= status && status <= 299 {
        PushOutcome::Delivered
    } else if status == 410 || status == 404 || status == 403 {
        PushOutcome::RemoveSubscription
    } else {
        PushOutcome::Failed
    }
}

/// The ActivityStreams addressing of a status.
#[derive(Debug)]
pub struct ASAudiences {
    pub to: Vec<ReferenceOrObject<ObjectOrLink>>,
    pub cc: Vec<ReferenceOrObject<ObjectOrLink>>,
}

/// Whether some element of `s` is named by the public collection's IRI.
pub open spec fn names_public(s: Seq<ReferenceOrObject<ObjectOrLink>>) -> bool {
    exists|i: int| 0 <= i < s.len() && #[trigger] s[i].spec_id() == Some(public_iri())
}

fn any_names_public(s: &Vec<ReferenceOrObject<ObjectOrLink>>) -> (r: bool)
    ensures
        r == names_public(s@),
{
    let mut i: usize = 0;
    while i < s.len()
        invariant
            i <= s.len(),
            forall|j: int| 0 <= j < i ==> #[trigger] s@[j].spec_id() != Some(public_iri()),
        decreases s.len() - i,
    {
        match s[i].id() {
            Some(id) => {
                if is_public_iri(id) {
                    assert(s@[i as int].spec_id() == Some(public_iri()));
                    return true;
                }
            },
            None => {},
        }
        i = i + 1;
    }
    false
}

impl ASAudiences {
    /// A status is visible to everyone when the public collection is among
    /// its `cc` or `to` audiences.
    pub fn is_visible(&self) -> (r: bool)
        ensures
            r == (names_public(self.cc@) || names_public(self.to@)),
    {
        any_names_public(&self.cc) || any_names_public(&self.to)
    }
}

/// One stored audience of a status, resolved to the IRI of an actor or of an
/// actor's followers collection; mentions go to `to`, the rest to `cc`.
#[derive(Debug, Clone)]
pub struct AudienceRef {
    pub mention: bool,
    pub iri: String,
}

/// The references a list of audiences leads to: each IRI whose `mention`
/// flag equals `to`.
pub open spec fn audience_refs(auds: Seq<AudienceRef>, to: bool) -> Seq<Seq<char>>
    decreases auds.len(),
{
    if auds.len() == 0 {
        Seq::empty()
    } else {
        let rest = audience_refs(auds.drop_last(), to);
        if auds.last().mention == to {
            rest.push(auds.last().iri@)
        } else {
            rest
        }
    }
}

/// The IRIs of a list of references (inline objects count as nothing).
pub open spec fn reference_iris(v: Seq<ReferenceOrObject<ObjectOrLink>>) -> Seq<Option<Seq<char>>> {
    Seq::new(v.len(), |i: int| match v[i] {
        ReferenceOrObject::Reference(r) => Some(r@),
        ReferenceOrObject::Object(_) => None,
    })
}

/// The `to` and `cc` of a status: a public status addresses the public
/// collection in `to`, an unlisted (visible but not public) one in `cc`;
/// then each stored audience follows, mentions in `to` and the rest in `cc`.
pub open spec fn spec_audience_lists(public: bool, visible: bool, auds: Seq<AudienceRef>) -> (Seq<Option<Seq<char>>>, Seq<Option<Seq<char>>>) {
    let pub_to: Seq<Seq<char>> = if public { seq![public_iri()] } else { Seq::empty() };
    let pub_cc: Seq<Seq<char>> = if !public && visible { seq![public_iri()] } else { Seq::empty() };
    (
        (pub_to + audience_refs(auds, true)).map_values(|s: Seq<char>| Some(s)),
        (pub_cc + audience_refs(auds, false)).map_values(|s: Seq<char>| Some(s)),
    )
}

/// Addresses a status from its flags and its resolved audiences.
pub fn build_audiences(public: bool, visible: bool, auds: &Vec<AudienceRef>) -> (r: ASAudiences)
    ensures
        (reference_iris(r.to@), reference_iris(r.cc@)) == spec_audience_lists(public, visible, auds@),
{
    proof {
        reveal_strlit("https://www.w3.org/ns/activitystreams#Public");
    }
    let mut to: Vec<ReferenceOrObject<ObjectOrLink>> = Vec::new();
    let mut cc: Vec<ReferenceOrObject<ObjectOrLink>> = Vec::new();
    if public {
        to.push(ReferenceOrObject::Reference("https://www.w3.org/ns/activitystreams#Public".to_owned()));
    } else if visible {
        cc.push(ReferenceOrObject::Reference("https://www.w3.org/ns/activitystreams#Public".to_owned()));
    }
    let ghost pub_to: Seq<Seq<char>> = if public { seq![public_iri()] } else { Seq::empty() };
    let ghost pub_cc: Seq<Seq<char>> = if !public && visible { seq![public_iri()] } else { Seq::empty() };
    proof {
        assert(reference_iris(to@) =~= (pub_to + audience_refs(auds@.take(0), true)).map_values(|s: Seq<char>| Some(s)));
        assert(reference_iris(cc@) =~= (pub_cc + audience_refs(auds@.take(0), false)).map_values(|s: Seq<char>| Some(s)));
    }
    let mut i: usize = 0;
    while i < auds.len()
        invariant
            i <= auds.len(),
            reference_iris(to@) == (pub_to + audience_refs(auds@.take(i as int), true)).map_values(|s: Seq<char>| Some(s)),
            reference_iris(cc@) == (pub_cc + audience_refs(auds@.take(i as int), false)).map_values(|s: Seq<char>| Some(s)),
        decreases auds.len() - i,
    {
        proof {
            assert(auds@.take(i + 1).drop_last() =~= auds@.take(i as int));
        }
        let a = &auds[i];
        let iri = a.iri.clone();
        proof {
            assert(auds@.take(i + 1).last() == auds@[i as int]);
            let t0 = auds@.take(i as int);
            let t1 = auds@.take(i + 1);
            if a.mention {
                assert(audience_refs(t1, true) == audience_refs(t0, true).push(iri@));
                assert(audience_refs(t1, false) == audience_refs(t0, false));
                assert((pub_to + audience_refs(t0, true).push(iri@)) =~= (pub_to + audience_refs(t0, true)).push(iri@));
            } else {
                assert(audience_refs(t1, false) == audience_refs(t0, false).push(iri@));
                assert(audience_refs(t1, true) == audience_refs(t0, true));
                assert((pub_cc + audience_refs(t0, false).push(iri@)) =~= (pub_cc + audience_refs(t0, false)).push(iri@));
            }
        }
        let ghost old_to = to@;
        let ghost old_cc = cc@;
        let ghost iv = iri@;
        let r = ReferenceOrObject::Reference(iri);
        if a.mention {
            to.push(r);
            proof {
                assert(reference_iris(to@) =~= reference_iris(old_to).push(Some(iv)));
                let x = pub_to + audience_refs(auds@.take(i as int), true);
                assert(x.push(iv).map_values(|s: Seq<char>| Some(s)) =~= x.map_values(|s: Seq<char>| Some(s)).push(Some(iv)));
                assert(reference_iris(to@) =~= (pub_to + audience_refs(auds@.take(i + 1), true)).map_values(|s: Seq<char>| Some(s)));
                assert(reference_iris(cc@) =~= (pub_cc + audience_refs(auds@.take(i + 1), false)).map_values(|s: Seq<char>| Some(s)));
            }
        } else {
            cc.push(r);
            proof {
                assert(reference_iris(cc@) =~= reference_iris(old_cc).push(Some(iv)));
                let x = pub_cc + audience_refs(auds@.take(i as int), false);
                assert(x.push(iv).map_values(|s: Seq<char>| Some(s)) =~= x.map_values(|s: Seq<char>| Some(s)).push(Some(iv)));
                assert(reference_iris(to@) =~= (pub_to + audience_refs(auds@.take(i + 1), true)).map_values(|s: Seq<char>| Some(s)));
                assert(reference_iris(cc@) =~= (pub_cc + audience_refs(auds@.take(i + 1), false)).map_values(|s: Seq<char>| Some(s)));
            }
        }
        i = i + 1;
    }
    proof {
        assert(auds@.take(auds.len() as int) =~= auds@);
    }
    ASAudiences { to, cc }
}


/// The audiences of a like: the liked status's author in `to`, the liker's
/// followers in `cc`, and the public collection in `cc` too where the liked
/// status is visible.
pub fn like_audiences(author_actor: String, liker_followers: String, visible: bool) -> (r: ASAudiences)
    ensures
        reference_iris(r.to@) == seq![Some(author_actor@)],
        reference_iris(r.cc@) == (if visible {
            seq![Some(liker_followers@), Some(public_iri())]
        } else {
            seq![Some(liker_followers@)]
        }),
{
    proof {
        reveal_strlit("https://www.w3.org/ns/activitystreams#Public");
    }
    let ghost a = author_actor@;
    let ghost f = liker_followers@;
    let mut to: Vec<ReferenceOrObject<ObjectOrLink>> = Vec::new();
    to.push(ReferenceOrObject::Reference(author_actor));
    let mut cc: Vec<ReferenceOrObject<ObjectOrLink>> = Vec::new();
    cc.push(ReferenceOrObject::Reference(liker_followers));
    if visible {
        cc.push(ReferenceOrObject::Reference("https://www.w3.org/ns/activitystreams#Public".to_owned()));
    }
    proof {
        assert(reference_iris(to@) =~= seq![Some(a)]);
        if visible {
            assert(reference_iris(cc@) =~= seq![Some(f), Some(public_iri())]);
        } else {
            assert(reference_iris(cc@) =~= seq![Some(f)]);
        }
    }
    ASAudiences { to, cc }
}

/// A status that is public or visible is addressed so that it reads as
/// visible again: what `build_audiences` gives, `ASAudiences::is_visible`
/// accepts.
pub proof fn lemma_visible_status_reads_visible(public: bool, visible: bool, auds: Seq<AudienceRef>, r: ASAudiences)
    requires
        (reference_iris(r.to@), reference_iris(r.cc@)) == spec_audience_lists(public, visible, auds),
        public || visible,
    ensures
        names_public(r.cc@) || names_public(r.to@),
{
    let (to, cc) = spec_audience_lists(public, visible, auds);
    if public {
        assert(to[0] == Some(public_iri()));
        assert(reference_iris(r.to@).len() == r.to@.len());
        assert(reference_iris(r.to@)[0] == Some(public_iri()));
        assert(r.to@[0].spec_id() == Some(public_iri()));
        assert(names_public(r.to@));
    } else {
        assert(cc[0] == Some(public_iri()));
        assert(reference_iris(r.cc@).len() == r.cc@.len());
        assert(reference_iris(r.cc@)[0] == Some(public_iri()));
        assert(r.cc@[0].spec_id() == Some(public_iri()));
        assert(names_public(r.cc@));
    }
}

/// A status that is neither public nor visible is not addressed to the
/// public collection by `build_audiences` unless one of its stored audiences
/// is that collection.
pub proof fn lemma_hidden_status_reads_hidden(auds: Seq<AudienceRef>, r: ASAudiences)
    requires
        (reference_iris(r.to@), reference_iris(r.cc@)) == spec_audience_lists(false, false, auds),
        forall|i: int| 0 <= i < auds.len() ==> (#[trigger] auds[i]).iri@ != public_iri(),
    ensures
        !(names_public(r.cc@) || names_public(r.to@)),
{
    lemma_refs_avoid_public(auds, true);
    lemma_refs_avoid_public(auds, false);
    let (to, cc) = spec_audience_lists(false, false, auds);
    let pt = Seq::<Seq<char>>::empty() + audience_refs(auds, true);
    let pc = Seq::<Seq<char>>::empty() + audience_refs(auds, false);
    assert(pt =~= audience_refs(auds, true));
    assert(pc =~= audience_refs(auds, false));
    assert(to == pt.map_values(|s: Seq<char>| Some(s)));
    assert(cc == pc.map_values(|s: Seq<char>| Some(s)));
    assert(reference_iris(r.to@).len() == r.to@.len());
    assert(reference_iris(r.cc@).len() == r.cc@.len());
    assert forall|i: int| 0 <= i < r.to@.len() implies (#[trigger] r.to@[i]).spec_id() != Some(public_iri()) by {
        assert(reference_iris(r.to@)[i] == to[i]);
        assert(to[i] == Some(pt[i]));
    }
    assert forall|i: int| 0 <= i < r.cc@.len() implies (#[trigger] r.cc@[i]).spec_id() != Some(public_iri()) by {
        assert(reference_iris(r.cc@)[i] == cc[i]);
        assert(cc[i] == Some(pc[i]));
    }
}

proof fn lemma_refs_avoid_public(auds: Seq<AudienceRef>, to: bool)
    requires
        forall|i: int| 0 <= i < auds.len() ==> (#[trigger] auds[i]).iri@ != public_iri(),
    ensures
        forall|i: int| 0 <= i < audience_refs(auds, to).len() ==> #[trigger] audience_refs(auds, to)[i] != public_iri(),
    decreases auds.len(),
{
    if auds.len() > 0 {
        assert forall|i: int| 0 <= i < auds.drop_last().len() implies (#[trigger] auds.drop_last()[i]).iri@ != public_iri() by {
            assert(auds.drop_last()[i] == auds[i]);
        }
        lemma_refs_avoid_public(auds.drop_last(), to);
        assert(auds[auds.len() - 1] == auds.last());
        let rest = audience_refs(auds.drop_last(), to);
        assert forall|i: int| 0 <= i < audience_refs(auds, to).len() implies #[trigger] audience_refs(auds, to)[i] != public_iri() by {
            if i < rest.len() {
                assert(audience_refs(auds, to)[i] == rest[i]);
            }
        }
    }
}


/// Why an incoming activity is dropped before it is acted on.
#[derive(Clone, Copy, PartialEq, Eq, Debug)]
pub enum InboxRefusal {
    /// The activity names no actor.
    NoActor,
    /// The actor is a local account (local activities do not come in).
    LocalActor,
    /// The signature's key is not known.
    UnknownKey,
    /// The signature does not check out with the key.
    BadSignature,
}

/// The checks an incoming activity passes, in order: it names an actor, the
/// actor is remote, the signature's key is known, and the signature checks
/// out. Each later check is only made when the earlier ones pass.
pub open spec fn spec_inbox_gate(has_actor: bool, actor_local: bool, key_known: bool, signature_ok: bool) -> Option<InboxRefusal> {
    if !has_actor {
        Some(InboxRefusal::NoActor)
    } else if actor_local {
        Some(InboxRefusal::LocalActor)
    } else if !key_known {
        Some(InboxRefusal::UnknownKey)
    } else if !signature_ok {
        Some(InboxRefusal::BadSignature)
    } else {
        None
    }
}

/// Decides whether an incoming activity is acted on.
pub fn inbox_gate(has_actor: bool, actor_local: bool, key_known: bool, signature_ok: bool) -> (r: Option<InboxRefusal>)
    ensures
        r == spec_inbox_gate(has_actor, actor_local, key_known, signature_ok),
{
    if !has_actor {
        Some(InboxRefusal::NoActor)
    } else if actor_local {
        Some(InboxRefusal::LocalActor)
    } else if !key_known {
        Some(InboxRefusal::UnknownKey)
    } else if !signature_ok {
        Some(InboxRefusal::BadSignature)
    } else {
        None
    }
}

/// What becomes of an activity whose object had to be resolved.
#[derive(Clone, Copy, PartialEq, Eq, Debug)]
pub enum ObjectOutcome {
    /// The activity has no object: logged and dropped.
    NoObject,
    /// The object could not be resolved: the task fails and is retried.
    Unresolved,
    /// The object was resolved; the task it leads to.
    Task(InboxTask),
}

/// What becomes of an activity, for the purpose its object is resolved for:
/// no object, an object that could not be resolved (of which kind is `None`),
/// or the task the resolved object's kind leads to.
pub open spec fn spec_object_outcome(p: ObjectPurpose, has_object: bool, resolved: Option<ObjectKind>) -> ObjectOutcome {
    if !has_object {
        ObjectOutcome::NoObject
    } else {
        match resolved {
            None => ObjectOutcome::Unresolved,
            Some(k) => ObjectOutcome::Task(spec_inbox_task(p, k)),
        }
    }
}

/// Decides what becomes of an activity once its object is resolved.
pub fn object_outcome(p: ObjectPurpose, has_object: bool, resolved: Option<ObjectKind>) -> (r: ObjectOutcome)
    ensures
        r == spec_object_outcome(p, has_object, resolved),
{
    if !has_object {
        ObjectOutcome::NoObject
    } else {
        match resolved {
            None => ObjectOutcome::Unresolved,
            Some(k) => ObjectOutcome::Task(inbox_task(p, k)),
        }
    }
}


/// How an incoming status is stored: public if its `to` names the public
/// collection, visible if its `to` or its `cc` does.
pub open spec fn spec_incoming_flags(to_public: bool, cc_public: bool) -> (bool, bool) {
    (to_public, to_public || cc_public)
}

/// The stored flags (public, visible) of an incoming status.
pub fn incoming_flags(to_public: bool, cc_public: bool) -> (r: (bool, bool))
    ensures
        r == spec_incoming_flags(to_public, cc_public),
{
    (to_public, to_public || cc_public)
}

/// A status sent out is read back with the flags it was sent with: the
/// addressing that `build_audiences` gives a status (public ones are always
/// visible) names the public collection in `to` exactly when the status is
/// public and in `cc` exactly when it is unlisted, so the receiving side's
/// flags are the sender's, provided no stored audience is the public
/// collection itself.
pub proof fn lemma_audiences_read_back(public: bool, visible: bool, auds: Seq<AudienceRef>, r: ASAudiences)
    requires
        (reference_iris(r.to@), reference_iris(r.cc@)) == spec_audience_lists(public, visible, auds),
        public ==> visible,
        forall|i: int| 0 <= i < auds.len() ==> (#[trigger] auds[i]).iri@ != public_iri(),
    ensures
        spec_incoming_flags(has_public_reference(r.to@), has_public_reference(r.cc@)) == (public, visible),
{
    lemma_refs_avoid_public(auds, true);
    lemma_refs_avoid_public(auds, false);
    let (to, cc) = spec_audience_lists(public, visible, auds);
    let pub_to: Seq<Seq<char>> = if public { seq![public_iri()] } else { Seq::empty() };
    let pub_cc: Seq<Seq<char>> = if !public && visible { seq![public_iri()] } else { Seq::empty() };
    let pt = pub_to + audience_refs(auds, true);
    let pc = pub_cc + audience_refs(auds, false);
    assert(to == pt.map_values(|s: Seq<char>| Some(s)));
    assert(cc == pc.map_values(|s: Seq<char>| Some(s)));
    assert(reference_iris(r.to@).len() == r.to@.len());
    assert(reference_iris(r.cc@).len() == r.cc@.len());
    if public {
        assert(reference_iris(r.to@)[0] == Some(public_iri()));
        assert(is_public_reference(r.to@[0]));
    } else {
        assert forall|i: int| 0 <= i < r.to@.len() implies !is_public_reference(#[trigger] r.to@[i]) by {
            assert(reference_iris(r.to@)[i] == to[i]);
            assert(to[i] == Some(pt[i]));
            assert(pt[i] == audience_refs(auds, true)[i]);
        }
    }
    if !public && visible {
        assert(reference_iris(r.cc@)[0] == Some(public_iri()));
        assert(is_public_reference(r.cc@[0]));
    } else {
        assert forall|i: int| 0 <= i < r.cc@.len() implies !is_public_reference(#[trigger] r.cc@[i]) by {
            assert(reference_iris(r.cc@)[i] == cc[i]);
            assert(cc[i] == Some(pc[i]));
            assert(pc[i] == audience_refs(auds, false)[i]);
        }
    }
}

/// The activity type whose object is resolved for a purpose.
pub open spec fn purpose_activity(p: ObjectPurpose) -> ObjectKind {
    match p {
        ObjectPurpose::Update => ObjectKind::Update,
        ObjectPurpose::Undo => ObjectKind::Undo,
        ObjectPurpose::Accept => ObjectKind::Accept,
        ObjectPurpose::Reject => ObjectKind::Reject,
    }
}

/// The activity type that a task carries out, and the type of object it
/// acts on: an update of an actor, or an undo, accept or reject of a follow.
pub open spec fn task_activity(t: InboxTask) -> Option<ObjectKind> {
    match t {
        InboxTask::UpdateAccount => Some(ObjectKind::Update),
        InboxTask::UndoFollow => Some(ObjectKind::Undo),
        InboxTask::AcceptFollow => Some(ObjectKind::Accept),
        InboxTask::RejectFollow => Some(ObjectKind::Reject),
        InboxTask::Unsupported => None,
    }
}

/// Each activity is handled as what it says it is: an Update, Undo, Accept
/// or Reject (and nothing else) has its object resolved, for the purpose of
/// that same activity type; a Follow (and nothing else) goes to the follow
/// task; and once the object is resolved, the task chosen carries out the
/// activity the object was resolved for, on a follow request for undo,
/// accept and reject.
pub proof fn lemma_activities_keep_their_meaning(k: ObjectKind, p: ObjectPurpose, resolved: ObjectKind)
    ensures
        (spec_inbox_dispatch(k) is ResolveObject) <==> (k == ObjectKind::Update || k == ObjectKind::Undo
            || k == ObjectKind::Accept || k == ObjectKind::Reject),
        spec_inbox_dispatch(k) matches InboxDispatch::ResolveObject(q) ==> purpose_activity(q) == k,
        (spec_inbox_dispatch(k) == InboxDispatch::ProcessFollow) <==> k == ObjectKind::Follow,
        spec_inbox_task(p, resolved) != InboxTask::Unsupported
            ==> task_activity(spec_inbox_task(p, resolved)) == Some(purpose_activity(p)),
        p != ObjectPurpose::Update && resolved == ObjectKind::Follow
            ==> task_activity(spec_inbox_task(p, resolved)) == Some(purpose_activity(p)),
{
}

} // verus!
