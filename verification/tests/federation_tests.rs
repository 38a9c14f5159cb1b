use tafarn::activity_streams::Link;
use tafarn::tasks::{lookup_object, ObjectLookup};
use tafarn::activity_streams::{addresses_public, ObjectID, ObjectKind, ObjectOrLink, Pluralisable, ReferenceOrObject};
use tafarn::relationships::{
    accept_incoming_follow, activity_id, undo_follow_target, follow_activity, follow_answer, outgoing_follow, request_follow, incoming_follow, FollowAnswer, FollowRecord, follow_decision, outgoing_decision, reaction_activity, undo_reaction, wrapping_activity,
    FollowDecision, OutgoingDecision,
};
use tafarn::tasks::like_audiences;
use tafarn::tasks::{build_audiences, inbox_gate, incoming_flags, object_outcome, AudienceRef, InboxRefusal, InboxTask, ObjectOutcome, ObjectPurpose};

#[test]
fn inbox_gates() {
    assert_eq!(inbox_gate(false, false, true, true), Some(InboxRefusal::NoActor));
    assert_eq!(inbox_gate(true, true, true, true), Some(InboxRefusal::LocalActor));
    assert_eq!(inbox_gate(true, false, false, true), Some(InboxRefusal::UnknownKey));
    assert_eq!(inbox_gate(true, false, true, false), Some(InboxRefusal::BadSignature));
    assert_eq!(inbox_gate(true, false, true, true), None);
    assert_eq!(object_outcome(ObjectPurpose::Undo, false, None), ObjectOutcome::NoObject);
    assert_eq!(object_outcome(ObjectPurpose::Undo, true, None), ObjectOutcome::Unresolved);
    assert_eq!(object_outcome(ObjectPurpose::Undo, true, Some(ObjectKind::Follow)), ObjectOutcome::Task(InboxTask::UndoFollow));
}

#[test]
fn sent_flags_read_back() {
    let auds = vec![AudienceRef { mention: false, iri: "https://a/users/2/followers".to_string() }];
    for (public, visible) in [(true, true), (false, true), (false, false)] {
        let a = build_audiences(public, visible, &auds);
        let to = Pluralisable::List(a.to);
        let cc = Pluralisable::List(a.cc);
        assert_eq!(incoming_flags(addresses_public(&to), addresses_public(&cc)), (public, visible));
    }
}

#[test]
fn follow_decisions() {
    assert_eq!(follow_decision(false, Some(true), true), FollowDecision::NoObject);
    assert_eq!(follow_decision(true, None, true), FollowDecision::UnknownTarget);
    assert_eq!(follow_decision(true, Some(false), true), FollowDecision::RemoteTarget);
    assert_eq!(follow_decision(true, Some(true), false), FollowDecision::LocalTarget { send_accept: false });
    assert_eq!(outgoing_decision(false, true), OutgoingDecision::NotLocal);
    assert_eq!(outgoing_decision(true, false), OutgoingDecision::NoInbox);
    assert_eq!(outgoing_decision(true, true), OutgoingDecision::Deliver);
}

#[test]
fn follow_activities() {
    assert_eq!(activity_id("example.com", "follow", 1), "https://example.com/as/follow/00000000-0000-0000-0000-000000000001");
    let f = follow_activity("example.com", 1, "https://example.com/as/users/a", Some("https://remote/users/b".to_string()), 1700);
    assert_eq!(f.published, Some(1700));
    assert!(f.to.is_none() && f.cc.is_none());
    assert_eq!(f.kind, ObjectKind::Follow);
    assert_eq!(f.id(), Some("https://example.com/as/follow/00000000-0000-0000-0000-000000000001"));
    assert_eq!(f.actor.as_ref().unwrap().id(), Some("https://example.com/as/users/a"));
    assert_eq!(f.object.as_ref().unwrap().id(), Some("https://remote/users/b"));
    let (u, t) = wrapping_activity(ObjectKind::Undo, "example.com", "https://example.com/as/users/a", f, None);
    assert_eq!(u.published, None);
    assert_eq!(u.kind, ObjectKind::Undo);
    assert_eq!(u.id(), Some(format!("https://example.com/as/transient/{}", uuid::Uuid::from_u128(t)).as_str()));
    match u.object {
        Some(ReferenceOrObject::Object(o)) => match *o {
            ObjectOrLink::Object(inner) => assert_eq!(inner.kind, ObjectKind::Follow),
            _ => panic!("not an object"),
        },
        _ => panic!("no object"),
    }
}

#[test]
fn like_and_boost_activities() {
    let aud = like_audiences("https://r/users/b".to_string(), "https://h/as/users/a/followers".to_string(), true);
    assert_eq!(aud.to.len(), 1);
    assert_eq!(aud.to[0].id(), Some("https://r/users/b"));
    assert_eq!(aud.cc.len(), 2);
    assert_eq!(aud.cc[0].id(), Some("https://h/as/users/a/followers"));
    assert_eq!(aud.cc[1].id(), Some("https://www.w3.org/ns/activitystreams#Public"));
    assert_eq!(like_audiences("x".to_string(), "y".to_string(), false).cc.len(), 1);
    let like = reaction_activity(ObjectKind::Like, "https://h/as/likes/1".to_string(), "https://h/as/users/a", aud,
        "https://r/statuses/9".to_string(), 1234);
    assert_eq!(like.kind, ObjectKind::Like);
    assert_eq!(like.id(), Some("https://h/as/likes/1"));
    assert_eq!(like.published, Some(1234));
    assert_eq!(like.object.as_ref().unwrap().id(), Some("https://r/statuses/9"));
    assert_eq!(like.to.as_slice().len(), 1);
    assert_eq!(like.cc.as_slice().len(), 2);
    let aud2 = like_audiences("https://r/users/b".to_string(), "https://h/as/users/a/followers".to_string(), false);
    let (undo, t) = undo_reaction("h", "https://h/as/users/a", aud2, like, None);
    assert_eq!(undo.kind, ObjectKind::Undo);
    assert_eq!(undo.id(), Some(format!("https://h/as/transient/{}", uuid::Uuid::from_u128(t)).as_str()));
    assert_eq!(undo.cc.as_slice().len(), 1);
    assert_eq!(undo.published, None);
}

#[test]
fn referenced_objects_are_looked_up_locally_or_remotely() {
    let r = |s: &str| ReferenceOrObject::Reference(s.to_string());
    let id = "00000000-0000-0000-0000-000000000009";
    match lookup_object(r(&format!("https://h.example/as/status/{}", id)), "h.example", "status") {
        ObjectLookup::Local(u) => assert_eq!(u, 9),
        _ => panic!("expected a local status"),
    }
    match lookup_object(r("https://h.example/as/status/nine"), "h.example", "status") {
        ObjectLookup::BadLocalId => {}
        _ => panic!("expected a bad id"),
    }
    match lookup_object(r(&format!("https://h.example/as/users/{}", id)), "h.example", "status") {
        ObjectLookup::Remote(s) => assert_eq!(s, format!("https://h.example/as/users/{}", id)),
        _ => panic!("expected a remote object"),
    }
    match lookup_object(r(&format!("https://hxexample/as/users/{}", id)), "h.example", "users") {
        ObjectLookup::Local(u) => assert_eq!(u, 9),
        _ => panic!("the host goes into the pattern as it is"),
    }
    let no_href = Link { href: None, rel: vec![], media_type: None, name: None, name_map: None, href_lang: None, height: None, width: None };
    match lookup_object(ReferenceOrObject::Object(Box::new(ObjectOrLink::Link(no_href))), "h.example", "users") {
        ObjectLookup::LinkWithoutHref => {}
        _ => panic!("expected a link error"),
    }
    let link = Link {
        href: Some("https://r.example/users/x".to_string()), rel: vec![], media_type: None, name: None, name_map: None,
        href_lang: None, height: None, width: None,
    };
    match lookup_object(ReferenceOrObject::Object(Box::new(ObjectOrLink::Link(link))), "h.example", "users") {
        ObjectLookup::Remote(s) => assert_eq!(s, "https://r.example/users/x"),
        _ => panic!("expected a remote object"),
    }
}

#[test]
fn incoming_follows_and_answers() {
    let (rec, notice) = incoming_follow(1, 2, 3, None, 50);
    assert_eq!(rec, FollowRecord { id: 1, follower: 2, followee: 3, created_at: 50, pending: false, notify: false, reblogs: false });
    assert_eq!(notice, (3, 2, 50));
    assert_eq!(incoming_follow(1, 2, 3, Some(7), 50).0.created_at, 7);
    assert_eq!(follow_answer(false, true, Some(1), Some(2), 2), FollowAnswer::NoActor);
    assert_eq!(follow_answer(true, false, Some(1), Some(2), 2), FollowAnswer::NoObject);
    assert_eq!(follow_answer(true, true, None, Some(2), 2), FollowAnswer::UnknownFollower);
    assert_eq!(follow_answer(true, true, Some(1), None, 2), FollowAnswer::UnknownFollowee);
    assert_eq!(follow_answer(true, true, Some(1), Some(3), 2), FollowAnswer::WrongSender);
    assert_eq!(follow_answer(true, true, Some(1), Some(2), 2), FollowAnswer::Apply { follower: 1 });
}

#[test]
fn outgoing_follows_start_pending() {
    assert_eq!(
        outgoing_follow(1, 2, 3, 4),
        FollowRecord { id: 1, follower: 2, followee: 3, created_at: 4, pending: true, notify: false, reblogs: false }
    );
}

#[test]
fn follows_get_fresh_ids() {
    let (a, n) = accept_incoming_follow(2, 3, None, 10);
    let (b, _) = accept_incoming_follow(2, 3, None, 10);
    assert_ne!(a.id, b.id);
    assert_eq!((a.follower, a.followee, a.created_at, a.pending), (2, 3, 10, false));
    assert_eq!(n, (3, 2, 10));
    let r = request_follow(2, 3, 11);
    assert!(r.pending);
    assert_ne!(r.id, request_follow(2, 3, 11).id);
}

#[test]
fn undone_follows() {
    assert_eq!(undo_follow_target(false, Some(3)), None);
    assert_eq!(undo_follow_target(true, None), None);
    assert_eq!(undo_follow_target(true, Some(3)), Some(3));
}
