use tafarn::activity_streams::{
    accept_content_type, addresses_public, check_body_digest, check_context, is_public_iri, select_digest,
    ContextError, DigestError, JsonContext, Link, ObjectID, ObjectKind, ObjectOrLink, Pluralisable, ReferenceOrObject,
    URLOrLink,
};
use tafarn::crypto::DigestAlgorithm;
use tafarn::tasks::{
    build_audiences, classify_push_response, inbox_dispatch, inbox_task, resolve_url, AudienceRef, InboxDispatch,
    InboxTask, ObjectPurpose, PushOutcome,
};

const PUBLIC: &str = "https://www.w3.org/ns/activitystreams#Public";

fn link(href: Option<&str>) -> Link {
    Link {
        href: href.map(|s| s.to_string()),
        rel: vec![],
        media_type: None,
        name: None,
        name_map: None,
        href_lang: None,
        height: None,
        width: None,
    }
}

#[test]
fn resolve_urls() {
    assert_eq!(resolve_url(URLOrLink::URL("https://a.example/x".to_string())), Some("https://a.example/x".to_string()));
    assert_eq!(resolve_url(URLOrLink::Link(link(Some("https://b.example")))), Some("https://b.example".to_string()));
    assert_eq!(resolve_url(URLOrLink::Link(link(None))), None);
}

#[test]
fn ids_and_public_addressing() {
    let r: ReferenceOrObject<ObjectOrLink> = ReferenceOrObject::Reference(PUBLIC.to_string());
    assert_eq!(r.id(), Some(PUBLIC));
    let l: ReferenceOrObject<ObjectOrLink> = ReferenceOrObject::Object(Box::new(ObjectOrLink::Link(link(None))));
    assert_eq!(l.id(), None);
    assert_eq!(l.id_or_default(), "<no ID>");
    assert!(is_public_iri(PUBLIC));
    assert!(!is_public_iri("https://example.com"));
    let aud = Pluralisable::List(vec![ReferenceOrObject::Reference("https://x".to_string()), ReferenceOrObject::Reference(PUBLIC.to_string())]);
    assert!(addresses_public(&aud));
    let none: Pluralisable<ReferenceOrObject<ObjectOrLink>> = Pluralisable::empty();
    assert!(none.is_none());
    assert!(!addresses_public(&none));
    let one = Pluralisable::Object(7u8);
    assert_eq!(one.as_slice(), &[7u8]);
    assert_eq!(one.to_vec(), vec![7u8]);
}

#[test]
fn digests() {
    assert_eq!(DigestAlgorithm::from_str("SHA-256"), Some(DigestAlgorithm::SHA256));
    assert_eq!(DigestAlgorithm::from_str("sha-256"), None);
    let vals = vec!["MD5=abc".to_string(), "SHA-256=def".to_string(), "X=1".to_string()];
    assert_eq!(select_digest(&vals), Some((DigestAlgorithm::SHA256, "def".to_string())));
    assert_eq!(select_digest(&vec!["nope".to_string()]), None);
    let body = b"hello";
    let good = base64::encode(openssl::sha::sha256(body));
    assert_eq!(check_body_digest(&Some((DigestAlgorithm::SHA256, good)), body), Ok(()));
    let bad = base64::encode([0u8; 32]);
    assert_eq!(check_body_digest(&Some((DigestAlgorithm::SHA256, bad)), body), Err(DigestError::Mismatch));
    assert_eq!(check_body_digest(&Some((DigestAlgorithm::SHA256, "***".to_string())), body), Err(DigestError::BadEncoding));
    assert_eq!(check_body_digest(&None, body), Ok(()));
}

#[test]
fn content_types_and_context() {
    assert_eq!(accept_content_type(Some(("application", "json"))), Some(true));
    assert_eq!(accept_content_type(Some(("application", "ld+json"))), Some(true));
    assert_eq!(accept_content_type(Some(("application", "activity+json"))), Some(false));
    assert_eq!(accept_content_type(Some(("text", "html"))), None);
    assert_eq!(accept_content_type(None), None);
    let ns = "https://www.w3.org/ns/activitystreams".to_string();
    assert_eq!(check_context(false, &JsonContext::NotAnObject), Ok(()));
    assert_eq!(check_context(true, &JsonContext::NotAnObject), Err(ContextError::NotAnObject));
    assert_eq!(check_context(true, &JsonContext::Missing), Err(ContextError::MissingContext));
    assert_eq!(check_context(true, &JsonContext::Single(ns.clone())), Ok(()));
    assert_eq!(check_context(true, &JsonContext::Single("x".to_string())), Err(ContextError::InvalidContext));
    assert_eq!(check_context(true, &JsonContext::List(vec![None, Some(ns)])), Ok(()));
    assert_eq!(check_context(true, &JsonContext::List(vec![None])), Err(ContextError::InvalidContext));
}

#[test]
fn inbox_routing() {
    assert_eq!(inbox_dispatch(ObjectKind::Note), InboxDispatch::NotAnActivity);
    assert_eq!(inbox_dispatch(ObjectKind::Follow), InboxDispatch::ProcessFollow);
    assert_eq!(inbox_dispatch(ObjectKind::Undo), InboxDispatch::ResolveObject(ObjectPurpose::Undo));
    assert_eq!(inbox_dispatch(ObjectKind::Like), InboxDispatch::Unsupported);
    assert_eq!(inbox_task(ObjectPurpose::Update, ObjectKind::Person), InboxTask::UpdateAccount);
    assert_eq!(inbox_task(ObjectPurpose::Undo, ObjectKind::Follow), InboxTask::UndoFollow);
    assert_eq!(inbox_task(ObjectPurpose::Accept, ObjectKind::Follow), InboxTask::AcceptFollow);
    assert_eq!(inbox_task(ObjectPurpose::Reject, ObjectKind::Follow), InboxTask::RejectFollow);
    assert_eq!(inbox_task(ObjectPurpose::Undo, ObjectKind::Like), InboxTask::Unsupported);
    assert_eq!(classify_push_response(201), PushOutcome::Delivered);
    assert_eq!(classify_push_response(410), PushOutcome::RemoveSubscription);
    assert_eq!(classify_push_response(500), PushOutcome::Failed);
}

#[test]
fn audiences_of_statuses() {
    let auds = vec![
        AudienceRef { mention: true, iri: "https://a/users/1".to_string() },
        AudienceRef { mention: false, iri: "https://a/users/2/followers".to_string() },
    ];
    let public = build_audiences(true, true, &auds);
    assert_eq!(public.to.iter().map(|r| r.id().unwrap().to_string()).collect::<Vec<_>>(), vec![PUBLIC, "https://a/users/1"]);
    assert_eq!(public.cc.iter().map(|r| r.id().unwrap().to_string()).collect::<Vec<_>>(), vec!["https://a/users/2/followers"]);
    assert!(public.is_visible());
    let unlisted = build_audiences(false, true, &auds);
    assert_eq!(unlisted.cc[0].id(), Some(PUBLIC));
    assert!(unlisted.is_visible());
    let hidden = build_audiences(false, false, &auds);
    assert!(!hidden.is_visible());
}
