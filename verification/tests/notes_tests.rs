use tafarn::notes::create_local_status;
use tafarn::notes::{boost_follow_ups, local_status_follow_ups, note_follow_ups, FollowUp};
use tafarn::activity_streams::{ObjectKind, ReferenceOrObject, URLOrLink};
use tafarn::media::{
    attachment_download, fresh_media_name, image_download, media_access, media_request_id, render_media_attachment, upload_format, ImageFormat, MediaAttachmentType, StoredMedia,
};
use tafarn::tasks::ASAudiences;
use tafarn::views::ApiFailure;
use tafarn::notes::{
    announce_gate, delete_own_status, post_boost, post_like, post_status, store_boost, store_note, store_remote_like, delete_remote_status, new_local_like, status_reachable, new_local_boost, like_served, status_document, StatusDocument, like_undoable, media_owned_by, new_local_status, LocalPost, StoredLike, render_note, OutgoingMedia, OutgoingStatus, RenderedStatus, like_gate, mention_notices, note_gate, record_like, sync_boost,
    sync_status, IncomingBoost, IncomingNote, NoteRefusal, ReactionNotice, ReactionRefusal, StatusAudience,
    StatusSync, StoredStatus, TargetStatus,
};
use tafarn::notifications::NotificationKind;
use tafarn::statuses::StatusVisibility;

fn note() -> IncomingNote {
    IncomingNote {
        id: "https://remote.example/notes/1".to_string(),
        url: Some(URLOrLink::URL("https://remote.example/@bob/1".to_string())),
        content: Some("<p>hello</p>".to_string()),
        summary: None,
        published: Some(1000),
        updated: None,
        to_public: false,
        cc_public: true,
        in_reply_to_url: Some("https://other.example/notes/9".to_string()),
        in_reply_to: None,
    }
}

fn stored(local: bool, account_id: u128) -> StoredStatus {
    StoredStatus {
        id: 42,
        url: "https://remote.example/notes/1".to_string(),
        uri: None,
        text: "old".to_string(),
        created_at: 10,
        updated_at: 20,
        in_reply_to_url: None,
        in_reply_to_id: Some(3),
        boost_of_id: None,
        boost_of_url: None,
        sensitive: true,
        spoiler_text: "cw".to_string(),
        language: Some("en".to_string()),
        local,
        account_id,
        deleted_at: None,
        edited_at: Some(15),
        public: true,
        visible: true,
        text_source: None,
        spoiler_text_source: None,
    }
}

#[test]
fn note_gate_checks_kind_then_id() {
    assert_eq!(note_gate(ObjectKind::Person, false), Some(NoteRefusal::NotANote));
    assert_eq!(note_gate(ObjectKind::Note, false), Some(NoteRefusal::NoId));
    assert_eq!(note_gate(ObjectKind::Note, true), None);
}

#[test]
fn new_note_becomes_unlisted_remote_status() {
    match sync_status(None, &note(), 7, 99, 5000) {
        StatusSync::Created(s) => {
            assert_eq!(s.id, 99);
            assert_eq!(s.url, "https://remote.example/notes/1");
            assert_eq!(s.uri.as_deref(), Some("https://remote.example/@bob/1"));
            assert_eq!(s.text, "<p>hello</p>");
            assert_eq!(s.spoiler_text, "");
            assert_eq!(s.created_at, 1000);
            assert_eq!(s.updated_at, 1000);
            assert!(!s.public);
            assert!(s.visible);
            assert_eq!(s.in_reply_to_url.as_deref(), Some("https://other.example/notes/9"));
            assert_eq!(s.in_reply_to_id, None);
            assert!(!s.local);
            assert_eq!(s.account_id, 7);
        }
        _ => panic!("expected a new status"),
    }
    let mut n = note();
    n.published = None;
    n.in_reply_to = Some(12);
    match sync_status(None, &n, 7, 99, 5000) {
        StatusSync::Created(s) => {
            assert_eq!(s.created_at, 5000);
            assert_eq!(s.updated_at, 5000);
            assert_eq!(s.in_reply_to_url, None);
            assert_eq!(s.in_reply_to_id, Some(12));
        }
        _ => panic!("expected a new status"),
    }
}

#[test]
fn update_keeps_identity() {
    match sync_status(Some(stored(false, 7)), &note(), 7, 99, 5000) {
        StatusSync::Updated(s) => {
            assert_eq!(s.id, 42);
            assert_eq!(s.text, "<p>hello</p>");
            assert_eq!(s.spoiler_text, "");
            assert_eq!(s.created_at, 1000);
            assert_eq!(s.updated_at, 20);
            assert!(s.sensitive);
            assert_eq!(s.language.as_deref(), Some("en"));
            assert_eq!(s.edited_at, Some(15));
            assert!(!s.public);
            assert!(s.visible);
            assert_eq!(s.in_reply_to_id, None);
        }
        _ => panic!("expected an update"),
    }
}

#[test]
fn local_or_foreign_status_is_kept() {
    match sync_status(Some(stored(true, 7)), &note(), 7, 99, 5000) {
        StatusSync::Kept(s) => assert_eq!(s.text, "old"),
        _ => panic!("a local status must be kept"),
    }
    match sync_status(Some(stored(false, 8)), &note(), 7, 99, 5000) {
        StatusSync::Kept(s) => assert_eq!(s.text, "old"),
        _ => panic!("another account's status must be kept"),
    }
}

#[test]
fn mentions_are_notified_once_for_new_statuses() {
    let auds = vec![
        StatusAudience { mention: true, account: Some(1), account_followers: None },
        StatusAudience { mention: false, account: Some(2), account_followers: None },
        StatusAudience { mention: true, account: None, account_followers: Some(3) },
        StatusAudience { mention: true, account: Some(4), account_followers: None },
    ];
    assert_eq!(mention_notices(true, &auds, &vec![9, 1]), vec![1, 4, 9, 1]);
    assert!(mention_notices(false, &auds, &vec![9]).is_empty());
}

fn boost(boost_of: Option<TargetStatus>) -> IncomingBoost {
    IncomingBoost {
        id: "https://remote.example/announce/5".to_string(),
        published: None,
        updated: Some(3000),
        to_public: true,
        cc_public: false,
        object_id: "https://here.example/statuses/1".to_string(),
        boost_of,
    }
}

#[test]
fn reaction_gates_check_in_order() {
    assert_eq!(announce_gate(false, false, false), Some(ReactionRefusal::NoId));
    assert_eq!(announce_gate(true, false, false), Some(ReactionRefusal::NoObject));
    assert_eq!(announce_gate(true, true, false), Some(ReactionRefusal::ObjectHasNoId));
    assert_eq!(announce_gate(true, true, true), None);
    assert_eq!(like_gate(false, true, true, true), Err(ReactionRefusal::NoId));
    assert_eq!(like_gate(true, true, false, false), Ok(false));
    assert_eq!(like_gate(true, false, false, true), Err(ReactionRefusal::NoObject));
    assert_eq!(like_gate(true, false, true, false), Err(ReactionRefusal::ObjectHasNoId));
    assert_eq!(like_gate(true, false, true, true), Ok(true));
}

#[test]
fn new_boost_of_local_status_notifies_its_owner() {
    let target = TargetStatus { id: 1, local: true, account_id: 11 };
    let (sync, notice) = sync_boost(None, &boost(Some(target)), 7, 50, 4000);
    match sync {
        StatusSync::Created(s) => {
            assert_eq!(s.id, 50);
            assert_eq!(s.url, "https://remote.example/announce/5");
            assert_eq!(s.text, "");
            assert_eq!(s.boost_of_id, Some(1));
            assert_eq!(s.boost_of_url, None);
            assert_eq!(s.created_at, 4000);
            assert_eq!(s.updated_at, 3000);
            assert!(s.public && s.visible);
        }
        _ => panic!("expected a new boost"),
    }
    assert_eq!(notice, Some(ReactionNotice { kind: NotificationKind::Reblog, recipient: 11, cause: 7, status: 1 }));
    let (sync, notice) = sync_boost(None, &boost(None), 7, 50, 4000);
    match sync {
        StatusSync::Created(s) => {
            assert_eq!(s.boost_of_id, None);
            assert_eq!(s.boost_of_url.as_deref(), Some("https://here.example/statuses/1"));
        }
        _ => panic!("expected a new boost"),
    }
    assert_eq!(notice, None);
}

#[test]
fn stored_boost_updates_quietly() {
    let target = TargetStatus { id: 1, local: true, account_id: 11 };
    let (sync, notice) = sync_boost(Some(stored(false, 7)), &boost(Some(target)), 7, 50, 4000);
    assert_eq!(notice, None);
    match sync {
        StatusSync::Updated(s) => {
            assert_eq!(s.id, 42);
            assert_eq!(s.created_at, 10);
            assert_eq!(s.updated_at, 3000);
            assert_eq!(s.boost_of_id, Some(1));
            assert_eq!(s.text, "old");
        }
        _ => panic!("expected an update"),
    }
    match sync_boost(Some(stored(true, 7)), &boost(None), 7, 50, 4000).0 {
        StatusSync::Kept(s) => assert_eq!(s.updated_at, 20),
        _ => panic!("a local status must be kept"),
    }
}

#[test]
fn remote_like_is_recorded() {
    let id = "https://remote.example/likes/3".to_string();
    let obj = "https://here.example/statuses/1".to_string();
    let target = TargetStatus { id: 1, local: true, account_id: 11 };
    let (like, notice) = record_like(&id, &obj, Some(target), 7, 60, Some(900), 4000);
    assert_eq!(like.id, 60);
    assert_eq!(like.account, 7);
    assert_eq!(like.status, Some(1));
    assert_eq!(like.status_url, None);
    assert!(!like.local);
    assert_eq!(like.url.as_deref(), Some("https://remote.example/likes/3"));
    assert_eq!(like.created_at, 900);
    assert_eq!(notice, Some(ReactionNotice { kind: NotificationKind::Favourite, recipient: 11, cause: 7, status: 1 }));
    let remote = TargetStatus { id: 2, local: false, account_id: 12 };
    assert_eq!(record_like(&id, &obj, Some(remote), 7, 60, None, 4000).1, None);
    let (like, notice) = record_like(&id, &obj, None, 7, 60, None, 4000);
    assert_eq!(like.status, None);
    assert_eq!(like.status_url.as_deref(), Some("https://here.example/statuses/1"));
    assert_eq!(like.created_at, 4000);
    assert_eq!(notice, None);
}

#[test]
fn only_own_remote_statuses_are_deleted() {
    let d = delete_remote_status(stored(false, 7), 7, 777).expect("deleted");
    assert_eq!(d.deleted_at, Some(777));
    assert_eq!(d.text, "old");
    assert!(delete_remote_status(stored(true, 7), 7, 777).is_none());
    assert!(delete_remote_status(stored(false, 8), 7, 777).is_none());
}

fn outgoing(deleted_at: Option<i64>, spoiler: &str, language: Option<&str>) -> OutgoingStatus {
    OutgoingStatus {
        url: "https://here.example/as/statuses/1".to_string(),
        deleted_at,
        created_at: 100,
        updated_at: 200,
        sensitive: false,
        text: "<p>hi</p>".to_string(),
        spoiler_text: spoiler.to_string(),
        language: language.map(|l| l.to_string()),
    }
}

fn audiences() -> ASAudiences {
    ASAudiences {
        to: vec![ReferenceOrObject::Reference("https://www.w3.org/ns/activitystreams#Public".to_string())],
        cc: vec![],
    }
}

#[test]
fn deleted_status_goes_out_as_tombstone() {
    match render_note(&outgoing(Some(300), "", None), audiences(), "https://here.example/as/users/a", &vec![], "here.example") {
        RenderedStatus::Tombstone { id, deleted } => {
            assert_eq!(id, "https://here.example/as/statuses/1");
            assert_eq!(deleted, 300);
        }
        RenderedStatus::Note(_) => panic!("expected a tombstone"),
    }
}

#[test]
fn note_carries_text_summary_and_media() {
    let media = vec![OutgoingMedia {
        file: Some("a.png".to_string()),
        description: Some("a cat".to_string()),
        blurhash: None,
        width: Some(640),
        height: Some(-1),
        content_type: Some("image/png".to_string()),
        created_at: 50,
        preview_file: Some("a-p.png".to_string()),
        preview_content_type: None,
        preview_width: None,
        preview_height: Some(10),
    }];
    match render_note(&outgoing(None, "cw", Some("en")), audiences(), "https://here.example/as/users/a", &media, "here.example") {
        RenderedStatus::Note(n) => {
            assert_eq!(n.id, "https://here.example/as/statuses/1");
            assert_eq!((n.published, n.updated), (100, 200));
            assert_eq!(n.to.len(), 1);
            assert!(n.cc.is_empty());
            assert_eq!(n.attributed_to, "https://here.example/as/users/a");
            assert_eq!(n.content, "<p>hi</p>");
            assert_eq!(n.content_map, Some(("en".to_string(), "<p>hi</p>".to_string())));
            assert_eq!(n.summary.as_deref(), Some("cw"));
            assert_eq!(n.summary_map, Some(("en".to_string(), "cw".to_string())));
            assert_eq!(n.attachment.len(), 1);
            let a = &n.attachment[0];
            assert_eq!(a.url.as_deref(), Some("https://here.example/media/a.png"));
            assert_eq!(a.summary.as_deref(), Some("a cat"));
            assert_eq!(a.width, Some(640));
            assert_eq!(a.height, Some(u64::MAX));
            assert_eq!(a.published, 50);
            let p = a.preview.as_ref().expect("preview");
            assert_eq!(p.url, "https://here.example/media/a-p.png");
            assert_eq!(p.height, Some(10));
        }
        RenderedStatus::Tombstone { .. } => panic!("expected a note"),
    }
    match render_note(&outgoing(None, "", None), audiences(), "x", &vec![], "here.example") {
        RenderedStatus::Note(n) => {
            assert_eq!(n.summary, None);
            assert_eq!(n.summary_map, None);
            assert_eq!(n.content_map, None);
            if let ReferenceOrObject::Reference(r) = &n.to[0] {
                assert_eq!(r, "https://www.w3.org/ns/activitystreams#Public");
            }
        }
        RenderedStatus::Tombstone { .. } => panic!("expected a note"),
    }
}

#[test]
fn media_attachments_for_the_client_api() {
    let m = StoredMedia {
        id: 0x0123_4567_89ab_cdef_0123_4567_89ab_cdef,
        media_type: "image".to_string(),
        file: Some("f.jpg".to_string()),
        preview_file: None,
        blurhash: Some("LKO2".to_string()),
        description: None,
        remote_url: Some("https://remote.example/f.jpg".to_string()),
    };
    let v = render_media_attachment(m, "here.example").expect("known type");
    assert_eq!(v.id, "01234567-89ab-cdef-0123-456789abcdef");
    assert_eq!(v.media_type, MediaAttachmentType::Image);
    assert_eq!(v.url.as_deref(), Some("https://here.example/media/f.jpg"));
    assert_eq!(v.preview_url, None);
    assert_eq!(v.blurhash.as_deref(), Some("LKO2"));
    assert_eq!(v.remote_url.as_deref(), Some("https://remote.example/f.jpg"));
    let bad = StoredMedia {
        id: 1,
        media_type: "audio".to_string(),
        file: None,
        preview_file: None,
        blurhash: None,
        description: None,
        remote_url: None,
    };
    assert!(matches!(render_media_attachment(bad, "here.example"), Err(ApiFailure::InternalServerError)));
}

#[test]
fn only_own_remote_likes_are_undone() {
    let like = StoredLike {
        id: 1, account: 7, status: Some(2), status_url: None, local: false,
        url: Some("https://r/likes/1".to_string()), created_at: 0,
    };
    assert!(like_undoable(&like, 7));
    assert!(!like_undoable(&like, 8));
    let local = StoredLike { local: true, ..like };
    assert!(!like_undoable(&local, 7));
}

fn post(visibility: StatusVisibility) -> LocalPost {
    LocalPost {
        html: "<p>hello <em>there</em></p>".to_string(),
        source: "hello *there*".to_string(),
        spoiler_text: None,
        language: None,
        sensitive: None,
        in_reply_to: Some(4),
        visibility,
    }
}

#[test]
fn new_local_statuses() {
    let (s, aud) = new_local_status(10, 20, post(StatusVisibility::Unlisted), Some("cy".to_string()), Some(true), 777);
    assert_eq!(s.id, 10);
    assert_eq!(s.url, "");
    assert_eq!(s.text, "<p>hello <em>there</em></p>");
    assert_eq!(s.text_source.as_deref(), Some("hello *there*"));
    assert_eq!(s.spoiler_text, "");
    assert_eq!(s.spoiler_text_source.as_deref(), Some(""));
    assert_eq!(s.language.as_deref(), Some("cy"));
    assert!(s.sensitive);
    assert!(s.local);
    assert!(!s.public && s.visible);
    assert_eq!((s.created_at, s.updated_at), (777, 777));
    assert_eq!(s.in_reply_to_id, Some(4));
    assert_eq!(aud, Some(StatusAudience { mention: false, account: None, account_followers: Some(20) }));
    let mut p = post(StatusVisibility::Direct);
    p.language = Some("en".to_string());
    p.sensitive = Some(false);
    p.spoiler_text = Some("cw".to_string());
    let (s, aud) = new_local_status(10, 20, p, Some("cy".to_string()), Some(true), 777);
    assert_eq!(s.language.as_deref(), Some("en"));
    assert!(!s.sensitive);
    assert_eq!(s.spoiler_text, "cw");
    assert!(!s.public && !s.visible);
    assert_eq!(aud, None);
    let (s, _) = new_local_status(10, 20, post(StatusVisibility::Public), None, None, 1);
    assert!(s.public && s.visible && !s.sensitive);
    assert_eq!(s.language, None);
}

#[test]
fn media_must_belong_to_the_poster() {
    assert!(media_owned_by(Some("user-1"), "user-1"));
    assert!(!media_owned_by(Some("user-2"), "user-1"));
    assert!(!media_owned_by(None, "user-1"));
}

#[test]
fn media_requests_are_checked() {
    assert_eq!(upload_format(None), Err(ApiFailure::InvalidRequest));
    assert_eq!(upload_format(Some(None)), Err(ApiFailure::UnsupportedMediaType));
    assert_eq!(upload_format(Some(Some(ImageFormat::WebP))), Ok(ImageFormat::WebP));
    assert_eq!(media_request_id(false, "00000000-0000-0000-0000-000000000001"), Err(ApiFailure::NoPermission));
    assert_eq!(media_request_id(true, "nope"), Err(ApiFailure::MediaNotFound));
    assert_eq!(media_request_id(true, "00000000-0000-0000-0000-000000000001"), Ok(1));
    assert_eq!(media_access(None, "me"), Err(ApiFailure::MediaNotFound));
    assert_eq!(media_access(Some(None), "me"), Err(ApiFailure::NoPermission));
    assert_eq!(media_access(Some(Some("you")), "me"), Err(ApiFailure::NoPermission));
    assert_eq!(media_access(Some(Some("me")), "me"), Ok(()));
}

#[test]
fn remote_attachments_to_download() {
    let url = Some(URLOrLink::URL("https://r.example/media/a.png".to_string()));
    assert_eq!(
        attachment_download(ObjectKind::Document, &url, Some(Some(ImageFormat::Png))),
        Some(("https://r.example/media/a.png".to_string(), ImageFormat::Png))
    );
    assert_eq!(
        attachment_download(ObjectKind::Image, &Some(URLOrLink::URL("HTTPS://R.example/x.gif".to_string())), Some(Some(ImageFormat::Gif))),
        Some(("https://r.example/x.gif".to_string(), ImageFormat::Gif))
    );
    assert_eq!(attachment_download(ObjectKind::Note, &url, Some(Some(ImageFormat::Png))), None);
    assert_eq!(attachment_download(ObjectKind::Document, &url, Some(Some(ImageFormat::WebP))), None);
    assert_eq!(attachment_download(ObjectKind::Document, &url, Some(None)), None);
    assert_eq!(attachment_download(ObjectKind::Document, &url, None), None);
    assert_eq!(attachment_download(ObjectKind::Document, &None, Some(Some(ImageFormat::Png))), None);
    let rel = Some(URLOrLink::URL("/media/a.png".to_string()));
    assert_eq!(attachment_download(ObjectKind::Document, &rel, Some(Some(ImageFormat::Png))), None);
}

#[test]
fn status_iris_serve_documents() {
    assert_eq!(status_document(false, true, false, false, false), StatusDocument::NotFound);
    assert_eq!(status_document(true, false, false, false, true), StatusDocument::NotFound);
    assert_eq!(status_document(true, true, false, false, false), StatusDocument::Note);
    assert_eq!(status_document(true, true, true, false, false), StatusDocument::NotFound);
    assert_eq!(status_document(true, true, false, false, true), StatusDocument::CreateActivity);
    assert_eq!(status_document(true, true, true, false, true), StatusDocument::Announce);
    assert_eq!(status_document(true, true, true, true, true), StatusDocument::Gone);
    let like = StoredLike { id: 1, account: 7, status: Some(2), status_url: None, local: true, url: None, created_at: 0 };
    assert!(like_served(&like, true));
    assert!(!like_served(&like, false));
    let remote = StoredLike { local: false, ..like };
    assert!(!like_served(&remote, true));
}

#[test]
fn new_local_boosts() {
    let (s, auds) = new_local_boost(3, 20, 40, 50, StatusVisibility::Private, 12);
    assert_eq!(s.id, 3);
    assert_eq!(s.boost_of_id, Some(40));
    assert_eq!(s.text, "");
    assert!(s.local && !s.public && !s.visible);
    assert_eq!((s.created_at, s.updated_at), (12, 12));
    assert_eq!(auds, vec![
        StatusAudience { mention: false, account: None, account_followers: Some(20) },
        StatusAudience { mention: false, account: Some(50), account_followers: None },
    ]);
    let (s, _) = new_local_boost(3, 20, 40, 50, StatusVisibility::Public, 12);
    assert!(s.public && s.visible);
}

#[test]
fn local_status_actions() {
    assert_eq!(status_reachable(true, true), Err(410));
    assert_eq!(status_reachable(false, false), Err(404));
    assert_eq!(status_reachable(false, true), Ok(()));
    assert!(matches!(delete_own_status(stored(true, 7), 8, 99), Err(403)));
    let d = delete_own_status(stored(true, 7), 7, 99).expect("own status");
    assert_eq!(d.deleted_at, Some(99));
    assert_eq!(d.text, "old");
    let l = new_local_like(1, 2, 3, 4);
    assert_eq!((l.id, l.account, l.status, l.created_at), (1, 2, Some(3), 4));
    assert!(l.local && l.status_url.is_none() && l.url.is_none());
}

#[test]
fn fresh_ids_for_new_statuses_likes_and_boosts() {
    let a = match store_note(None, &note(), 7, 5000) {
        StatusSync::Created(s) => s,
        _ => panic!("expected a new status"),
    };
    let b = match store_note(None, &note(), 7, 5000) {
        StatusSync::Created(s) => s,
        _ => panic!("expected a new status"),
    };
    assert_ne!(a.id, b.id);
    assert_eq!(a.text, "<p>hello</p>");
    match store_note(Some(stored(false, 7)), &note(), 7, 5000) {
        StatusSync::Updated(s) => assert_eq!(s.id, 42),
        _ => panic!("expected an update"),
    }
    match store_boost(Some(stored(false, 7)), &boost(None), 7, 5000).0 {
        StatusSync::Updated(s) => assert_eq!(s.id, 42),
        _ => panic!("expected an update"),
    }
    let (like, _) = store_remote_like(&"https://r/l/1".to_string(), &"https://h/s/1".to_string(), None, 7, None, 3);
    assert_eq!(like.created_at, 3);
    let (s1, _) = post_status(20, post(StatusVisibility::Public), None, None, 1);
    let (s2, _) = post_status(20, post(StatusVisibility::Public), None, None, 1);
    assert_ne!(s1.id, s2.id);
    let (b1, auds) = post_boost(20, 40, 50, StatusVisibility::Unlisted, 2);
    assert_eq!(b1.boost_of_id, Some(40));
    assert_eq!(auds.len(), 2);
    let l = post_like(20, 40, 3);
    assert_ne!(l.id, post_like(20, 40, 3).id);
}

#[test]
fn media_files_get_fresh_names() {
    let (name, id) = fresh_media_name("png");
    assert_eq!(name, format!("{}.png", uuid::Uuid::from_u128(id)));
    assert_ne!(fresh_media_name("png").1, id);
}

#[test]
fn remote_profile_images_to_download() {
    let url = Some(URLOrLink::URL("https://r.example/a.jpg".to_string()));
    assert_eq!(image_download(true, &url, Some(Some(ImageFormat::Jpeg))), Some(("https://r.example/a.jpg".to_string(), ImageFormat::Jpeg)));
    assert_eq!(image_download(false, &url, Some(Some(ImageFormat::Jpeg))), None);
    assert_eq!(image_download(true, &url, Some(Some(ImageFormat::Tiff))), None);
    assert_eq!(image_download(true, &url, None), None);
    let rel = Some(URLOrLink::URL("/a.jpg".to_string()));
    assert_eq!(image_download(true, &rel, Some(Some(ImageFormat::Png))), Some(("/a.jpg".to_string(), ImageFormat::Png)));
}

#[test]
fn the_same_note_twice_changes_nothing() {
    let once = match sync_status(Some(stored(false, 7)), &note(), 7, 99, 5000) {
        StatusSync::Updated(s) => s,
        _ => panic!("expected an update"),
    };
    let (text, created, updated, public, visible) = (once.text.clone(), once.created_at, once.updated_at, once.public, once.visible);
    let uri = once.uri.clone();
    let twice = match sync_status(Some(once), &note(), 7, 99, 6000) {
        StatusSync::Updated(s) => s,
        _ => panic!("expected an update"),
    };
    assert_eq!((twice.text, twice.created_at, twice.updated_at, twice.public, twice.visible), (text, created, updated, public, visible));
    assert_eq!(twice.uri, uri);
}

#[test]
fn storing_orders_follow_up_tasks() {
    let target = TargetStatus { id: 1, local: true, account_id: 11 };
    let (sync, notice) = sync_boost(None, &boost(Some(target)), 7, 50, 4000);
    assert_eq!(boost_follow_ups(&sync, notice), vec![
        FollowUp::InsertIntoTimelines(50),
        FollowUp::Notify(ReactionNotice { kind: NotificationKind::Reblog, recipient: 11, cause: 7, status: 1 }),
    ]);
    let (sync, notice) = sync_boost(None, &boost(None), 7, 50, 4000);
    assert_eq!(boost_follow_ups(&sync, notice), vec![FollowUp::InsertIntoTimelines(50)]);
    let (sync, notice) = sync_boost(Some(stored(false, 7)), &boost(Some(target)), 7, 50, 4000);
    assert!(boost_follow_ups(&sync, notice).is_empty());
    let created = sync_status(None, &note(), 7, 99, 5000);
    assert_eq!(note_follow_ups(&created, true), vec![FollowUp::InsertIntoTimelines(99), FollowUp::FetchReplies]);
    assert_eq!(note_follow_ups(&created, false), vec![FollowUp::InsertIntoTimelines(99)]);
    let updated = sync_status(Some(stored(false, 7)), &note(), 7, 99, 5000);
    assert!(note_follow_ups(&updated, true).is_empty());
    assert_eq!(local_status_follow_ups(&stored(true, 7)), vec![FollowUp::Deliver(42)]);
}

#[test]
fn posting_checks_scope_reply_media_and_content() {
    let mine = vec![Some(Some("alice".to_string()))];
    let (s, aud, follow) = create_local_status(true, false, &mine, "alice", 20, post(StatusVisibility::Public), None, None, 5).unwrap();
    assert!(s.local && s.public && s.visible);
    assert_eq!(aud.unwrap().account_followers, Some(20));
    assert_eq!(follow, vec![FollowUp::Deliver(s.id)]);
    assert_eq!(create_local_status(false, false, &mine, "alice", 20, post(StatusVisibility::Public), None, None, 5).err(), Some(403));
    assert_eq!(create_local_status(true, true, &mine, "alice", 20, post(StatusVisibility::Public), None, None, 5).err(), Some(422));
    let theirs = vec![Some(Some("bob".to_string())), None];
    assert_eq!(create_local_status(true, false, &theirs, "alice", 20, post(StatusVisibility::Public), None, None, 5).err(), Some(403));
    let missing = vec![None, Some(Some("bob".to_string()))];
    assert_eq!(create_local_status(true, false, &missing, "alice", 20, post(StatusVisibility::Public), None, None, 5).err(), Some(422));
    let empty = LocalPost { html: String::new(), ..post(StatusVisibility::Direct) };
    assert_eq!(create_local_status(true, false, &vec![], "alice", 20, empty, None, None, 5).err(), Some(422));
    let empty = LocalPost { html: String::new(), ..post(StatusVisibility::Direct) };
    let (s, aud, _) = create_local_status(true, false, &mine, "alice", 20, empty, None, None, 5).unwrap();
    assert!(!s.visible && aud.is_none());
}
