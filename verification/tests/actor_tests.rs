use tafarn::actors::{profile_fields, take_in_actor, AccountUpdate, ProfileAttachment};
use tafarn::actors::{key_outcome, KeyOutcome};
use tafarn::activity_streams::{check_body_digest, select_digest, ObjectKind, URLOrLink};
use tafarn::actors::{key_accepted, merge_actor, new_remote_account, profile_field, ActorProfile, ListedKey, RemoteAccount, StoredImage};
use tafarn::crypto::DigestAlgorithm;
use tafarn::delivery::{delivery_headers, digest_header, fetch_headers, system_key_id, DeliveryError};
use tafarn::signing::signing_parts;

fn profile() -> ActorProfile {
    ActorProfile {
        kind: ObjectKind::Service,
        id: Some("https://remote/users/bot".to_string()),
        name: None,
        preferred_username: Some("bot".to_string()),
        summary: Some("I am a bot".to_string()),
        inbox: "https://remote/users/bot/inbox".to_string(),
        outbox: "https://remote/users/bot/outbox".to_string(),
        manually_approves_followers: None,
        published: None,
        url: Some(URLOrLink::URL("https://remote/@bot".to_string())),
        shared_inbox: Some("https://remote/inbox".to_string()),
    }
}

fn stored() -> RemoteAccount {
    RemoteAccount {
        actor: None,
        bot: false,
        group: true,
        display_name: "Old Name".to_string(),
        username: "old".to_string(),
        bio: "old bio".to_string(),
        inbox_url: None,
        outbox_url: None,
        locked: true,
        created_at: 5,
        url: Some("https://old".to_string()),
        shared_inbox_url: Some("https://old/inbox".to_string()),
        avatar_file: Some("a.png".to_string()),
        avatar_content_type: Some("image/png".to_string()),
        avatar_remote_url: Some("https://old/a.png".to_string()),
        header_file: None,
        header_content_type: None,
        header_remote_url: None,
    }
}

#[test]
fn actor_documents_merge() {
    let header = StoredImage { file: "h.png".to_string(), remote_url: "https://remote/h.png".to_string(), content_type: "image/png".to_string() };
    let a = merge_actor(stored(), &profile(), None, Some(header));
    assert_eq!(a.actor.as_deref(), Some("https://remote/users/bot"));
    assert!(a.bot);
    assert!(!a.group);
    assert_eq!(a.display_name, "Old Name");
    assert_eq!(a.username, "bot");
    assert_eq!(a.bio, "I am a bot");
    assert_eq!(a.inbox_url.as_deref(), Some("https://remote/users/bot/inbox"));
    assert!(!a.locked);
    assert_eq!(a.created_at, 5);
    assert_eq!(a.url.as_deref(), Some("https://remote/@bot"));
    assert_eq!(a.shared_inbox_url.as_deref(), Some("https://remote/inbox"));
    assert_eq!(a.avatar_file.as_deref(), Some("a.png"));
    assert_eq!(a.header_file.as_deref(), Some("h.png"));
    let n = new_remote_account(&ActorProfile { published: Some(9), manually_approves_followers: Some(true), ..profile() }, 100, None, None);
    assert_eq!(n.display_name, "");
    assert_eq!(n.created_at, 9);
    assert!(n.locked);
    assert_eq!(n.avatar_file, None);
}

#[test]
fn listed_keys() {
    let k = ListedKey {
        id: Some("https://remote/users/bot#key".to_string()),
        owner: Some(Some("https://remote/users/bot".to_string())),
        public_key_pem: Some("PEM".to_string()),
    };
    assert!(key_accepted(&k, Some("https://remote/users/bot")));
    assert!(!key_accepted(&k, Some("https://remote/users/other")));
    assert!(!key_accepted(&ListedKey { owner: Some(None), ..k }, Some("https://remote/users/bot")));
    let k2 = ListedKey { id: None, owner: Some(Some("".to_string())), public_key_pem: Some("P".to_string()) };
    assert!(!key_accepted(&k2, None));
    let k3 = ListedKey { id: Some("x".to_string()), owner: Some(Some("".to_string())), public_key_pem: Some("P".to_string()) };
    assert!(key_accepted(&k3, None));
    assert_eq!(profile_field(Some("n".to_string()), None), ("n".to_string(), "".to_string()));
}

#[test]
fn delivery_digest_is_accepted() {
    let body = br#"{"type":"Note"}"#;
    let h = digest_header(body).unwrap();
    assert!(h.starts_with("SHA-256="));
    let chosen = select_digest(&vec![h.clone()]);
    assert_eq!(chosen.as_ref().map(|c| c.0), Some(DigestAlgorithm::SHA256));
    assert_eq!(check_body_digest(&chosen, body), Ok(()));
    let hs = delivery_headers("https://remote.example/inbox", body, "Tue, 07 Jun 2022 20:51:35 GMT").unwrap();
    assert_eq!(hs[0], ("Host".to_string(), b"remote.example".to_vec()));
    assert_eq!(hs[2].1, h.as_bytes().to_vec());
    let (_, names) = signing_parts("POST", "/inbox", &hs).unwrap();
    assert_eq!(names, vec!["(request-target)", "host", "date", "digest", "content-type"]);
    assert_eq!(delivery_headers("not a url", body, "d").err(), Some(DeliveryError::InvalidInbox));
    assert_eq!(fetch_headers("https://x.example/a", "d").unwrap()[0].1, b"x.example".to_vec());
    assert!(fetch_headers("nope", "d").is_none());
    assert_eq!(system_key_id("example.com"), "https://example.com/as/system#key");
}

#[test]
fn local_actor_documents() {
    let a = 0x0000_0000_0000_0000_0000_0000_0000_0001u128;
    assert_eq!(tafarn::actors::local_actor_id("00000000-0000-0000-0000-000000000001"), Ok(a));
    assert_eq!(tafarn::actors::local_actor_id("me"), Err(404));
    assert_eq!(tafarn::actors::served_actor(false), Err(404));
    assert_eq!(tafarn::actors::served_actor(true), Ok(()));
    let o = tafarn::actors::outbox("h.example", a, -1);
    assert_eq!(o.id, "https://h.example/as/users/00000000-0000-0000-0000-000000000001/outbox");
    assert_eq!(o.first, "https://h.example/as/users/00000000-0000-0000-0000-000000000001/outbox/page");
    assert_eq!(o.total_items, u64::MAX);
    let p = tafarn::actors::outbox_page("h.example", a, Some(-5));
    assert_eq!(p.id, "https://h.example/as/users/00000000-0000-0000-0000-000000000001/outbox/page?before=-5");
    assert_eq!(p.part_of, o.id);
    assert!(p.items.is_empty());
    assert_eq!(tafarn::actors::outbox_page("h.example", a, None).id, o.first);
    let s = tafarn::actors::system_actor("h.example", "PEM".to_string());
    assert_eq!(s.id, "https://h.example/as/system");
    assert_eq!(s.url, "https://h.example");
    assert_eq!(s.preferred_username, "h.example");
    assert_eq!(s.inbox, "https://h.example/as/system/inbox");
    assert_eq!(s.outbox, "https://h.example/as/system/outbox");
    assert_eq!(s.shared_inbox, "https://h.example/as/inbox");
    assert_eq!(s.key_id, "https://h.example/as/system#key");
    assert_eq!(s.key_owner, "https://h.example/as/system");
    assert_eq!(s.public_key_pem, "PEM");
    assert!(s.manually_approves_followers && !s.discoverable);
}

#[test]
fn listed_key_outcomes() {
    let rsa = openssl::rsa::Rsa::generate(2048).unwrap();
    let pem = String::from_utf8(openssl::pkey::PKey::from_rsa(rsa).unwrap().public_key_to_pem().unwrap()).unwrap();
    let k = ListedKey {
        id: Some("https://remote/users/bot#key".to_string()),
        owner: Some(Some("https://remote/users/bot".to_string())),
        public_key_pem: Some(pem),
    };
    assert_eq!(key_outcome(&k, Some("https://remote/users/bot")), KeyOutcome::Stored);
    assert_eq!(key_outcome(&k, Some("https://remote/users/other")), KeyOutcome::Skipped);
    let bad = ListedKey { public_key_pem: Some("PEM".to_string()), ..k };
    assert_eq!(key_outcome(&bad, Some("https://remote/users/bot")), KeyOutcome::Unparsable);
}

#[test]
fn actors_are_taken_in() {
    assert!(take_in_actor(&ActorProfile { kind: ObjectKind::Note, ..profile() }, None, 100, None, None).is_none());
    match take_in_actor(&profile(), None, 100, None, None) {
        Some(AccountUpdate::Created(a)) => {
            assert_eq!(a.username, "bot");
            assert_eq!(a.created_at, 100);
        }
        _ => panic!("expected a new account"),
    }
    assert!(matches!(take_in_actor(&profile(), Some((true, stored())), 100, None, None), Some(AccountUpdate::KeptLocal)));
    match take_in_actor(&ActorProfile { kind: ObjectKind::Group, ..profile() }, Some((false, stored())), 100, None, None) {
        Some(AccountUpdate::Updated(a)) => {
            assert!(a.group && !a.bot);
            assert_eq!(a.display_name, "Old Name");
        }
        _ => panic!("expected an update"),
    }
}

#[test]
fn profile_fields_keep_order() {
    let pv = |n: Option<&str>, v: Option<&str>| Some(ProfileAttachment {
        kind: ObjectKind::PropertyValue, name: n.map(|s| s.to_string()), value: v.map(|s| s.to_string()),
    });
    let atts = vec![
        pv(Some("Site"), Some("https://a")),
        None,
        Some(ProfileAttachment { kind: ObjectKind::Image, name: Some("x".to_string()), value: None }),
        pv(None, Some("v")),
    ];
    assert_eq!(profile_fields(atts), vec![
        ("Site".to_string(), "https://a".to_string()),
        ("".to_string(), "v".to_string()),
    ]);
    assert!(profile_fields(vec![]).is_empty());
}
