use tafarn::statuses::{
    boost_visibility, can_view, has_content, parse_i32, parse_i64, shown_visibility, stored_visibility, CreateStatus,
    StatusForm, StatusJson, StatusVisibility, viewer_flags, ViewerFlags,
};

#[test]
fn visibility_round_trip() {
    for v in [StatusVisibility::Public, StatusVisibility::Unlisted, StatusVisibility::Private, StatusVisibility::Direct] {
        let s = stored_visibility(v);
        assert_eq!(shown_visibility(s.public, s.visible, s.followers_audience), v);
        assert_eq!(StatusVisibility::from_str(v.wire_name()), Some(v));
    }
    assert_eq!(StatusVisibility::from_str("secret"), None);
}

#[test]
fn who_may_view() {
    assert!(can_view(true, None, 1, false, false));
    assert!(!can_view(false, None, 1, true, true));
    assert!(can_view(false, Some(1), 1, false, false));
    assert!(can_view(false, Some(2), 1, true, false));
    assert!(can_view(false, Some(2), 1, false, true));
    assert!(!can_view(false, Some(2), 1, false, false));
}

#[test]
fn parse_i32_like_std() {
    for s in ["0", "42", "-17", "+5", "2147483647", "-2147483648", "2147483648", "-2147483649", "", "-", "+", "1a", "007", "99999999999999999999"] {
        assert_eq!(parse_i32(s), s.parse::<i32>().ok(), "{}", s);
    }
}

fn form() -> StatusForm {
    StatusForm {
        status: Some("hi".to_string()),
        media_ids: Some(vec!["67e55044-10b1-426f-9247-bb680e5fe0c8".to_string()]),
        in_reply_to_id: Some("12".to_string()),
        sensitive: Some("1".to_string()),
        spoiler_text: None,
        language: Some("en".to_string()),
        visibility: Some("unlisted".to_string()),
    }
}

#[test]
fn create_status_form_checks() {
    let c = CreateStatus::from_form(form()).ok().unwrap();
    assert_eq!(c.media_ids, vec![0x67e5504410b1426f9247bb680e5fe0c8]);
    assert_eq!(c.in_reply_to_id, Some(12));
    assert_eq!(c.sensitive, Some(true));
    assert_eq!(c.visibility, StatusVisibility::Unlisted);
    assert_eq!(CreateStatus::from_form(StatusForm { media_ids: Some(vec!["x".to_string()]), ..form() }).err(), Some(422));
    assert_eq!(CreateStatus::from_form(StatusForm { in_reply_to_id: Some("a".to_string()), ..form() }).err(), Some(422));
    assert_eq!(CreateStatus::from_form(StatusForm { sensitive: Some("maybe".to_string()), ..form() }).err(), Some(400));
    assert_eq!(CreateStatus::from_form(StatusForm { visibility: Some("secret".to_string()), ..form() }).err(), Some(422));
    let d = CreateStatus::from_form(StatusForm { visibility: None, media_ids: None, sensitive: None, ..form() }).ok().unwrap();
    assert_eq!(d.visibility, StatusVisibility::Public);
    assert!(d.media_ids.is_empty());
    assert_eq!(d.sensitive, None);
}

#[test]
fn create_status_json_checks() {
    let j = StatusJson {
        status: None,
        media_ids: None,
        in_reply_to_id: None,
        sensitive: Some(false),
        spoiler_text: Some("cw".to_string()),
        language: None,
        visibility: Some("direct".to_string()),
    };
    let c = CreateStatus::from_json(j).ok().unwrap();
    assert_eq!(c.visibility, StatusVisibility::Direct);
    assert_eq!(c.sensitive, Some(false));
    assert_eq!(c.spoiler_text.as_deref(), Some("cw"));
    assert!(has_content("x", 0));
    assert!(has_content("", 1));
    assert!(!has_content("", 0));
}

#[test]
fn boost_visibilities() {
    assert_eq!(boost_visibility(None), Ok(StatusVisibility::Public));
    assert_eq!(boost_visibility(Some("private")), Ok(StatusVisibility::Private));
    assert_eq!(boost_visibility(Some("direct")), Err(400));
    assert_eq!(boost_visibility(Some("nope")), Err(422));
}

#[test]
fn viewer_flags_only_for_signed_in_viewers() {
    let none = ViewerFlags { favourited: None, reblogged: None, muted: None, bookmarked: None, pinned: None };
    assert_eq!(viewer_flags(None, 1, true, 5, 5, 5, 5), none);
    let own_boost = viewer_flags(Some(1), 1, true, 0, 0, 0, 0);
    assert_eq!(own_boost.reblogged, Some(true));
    assert_eq!(own_boost.favourited, Some(false));
    assert_eq!(own_boost.muted, Some(false));
    let other = viewer_flags(Some(2), 1, true, 0, 3, 1, 0);
    assert_eq!(other, ViewerFlags {
        favourited: Some(true),
        reblogged: Some(false),
        muted: Some(false),
        bookmarked: Some(true),
        pinned: Some(false),
    });
    assert_eq!(viewer_flags(Some(2), 1, false, 1, 0, 0, 1).reblogged, Some(true));
}

#[test]
fn i64_parsing_follows_std() {
    for s in ["0", "-0", "+7", "-9223372036854775808", "9223372036854775807", "9223372036854775808", "", "-", "1x", " 1", "007"] {
        assert_eq!(parse_i64(s), s.parse::<i64>().ok(), "{:?}", s);
    }
}
