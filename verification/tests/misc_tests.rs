use tafarn::i18n::nan_quality_in;
use tafarn::i18n::requested_languages;
use tafarn::accounts::{parse_uuid_list, relationship};
use tafarn::media::{attachment_accepted, image_format_to_content_type, key_id, media_name, media_url, AttachmentFormat, ImageFormat};
use tafarn::notifications::{notification_data, push_wanted, NotificationKind, SubscriptionAlerts};
use tafarn::oidc::{session_state, SessionState, AdditionalClaims, ClientRoles};

#[test]
fn languages() {
    assert_eq!(requested_languages(None), vec!["en-GB".to_string()]);
    assert_eq!(requested_languages(Some("fr;q=0.5, de, en-US;q=0.8")), vec!["de".to_string(), "en-US".to_string(), "fr".to_string()]);
    assert!(requested_languages(Some("")).is_empty());
}

#[test]
fn uuids() {
    let ids = parse_uuid_list(&vec!["67e55044-10b1-426f-9247-bb680e5fe0c8".to_string()]).unwrap();
    assert_eq!(ids, vec![0x67e55044_10b1_426f_9247_bb680e5fe0c8]);
    assert_eq!(relationship(ids[0], false, false, false).id, "67e55044-10b1-426f-9247-bb680e5fe0c8");
    assert_eq!(parse_uuid_list(&vec!["not-a-uuid".to_string()]), None);
}

#[test]
fn media_names() {
    assert_eq!(image_format_to_content_type(ImageFormat::Pnm), "image/x-portable-bitmap");
    assert_eq!(image_format_to_content_type(ImageFormat::Other), "application/octet-stream");
    assert_eq!(AttachmentFormat::Image(ImageFormat::Png).content_type(), "image/png");
    assert!(attachment_accepted(ImageFormat::Gif));
    assert!(!attachment_accepted(ImageFormat::WebP));
    assert_eq!(media_name(1, "png"), "00000000-0000-0000-0000-000000000001.png");
    assert_eq!(media_url("example.com", "a.png"), "https://example.com/media/a.png");
    assert_eq!(key_id("example.com", 1), "https://example.com/as/users/00000000-0000-0000-0000-000000000001#key");
}

#[test]
fn push_selection() {
    let alerts = SubscriptionAlerts { follow: true, favourite: false, reblog: true, mention: true };
    assert!(push_wanted(NotificationKind::Follow, alerts, "all", false, false));
    assert!(!push_wanted(NotificationKind::Favourite, alerts, "all", true, true));
    assert!(push_wanted(NotificationKind::Reblog, alerts, "follower", true, false));
    assert!(!push_wanted(NotificationKind::Reblog, alerts, "follower", false, true));
    assert!(push_wanted(NotificationKind::Mention, alerts, "followed", false, true));
    assert!(!push_wanted(NotificationKind::Mention, alerts, "none", true, true));
    assert_eq!(NotificationKind::from_name("reblog"), Some(NotificationKind::Reblog));
    assert_eq!(NotificationKind::from_name("poll"), None);
    assert_eq!(NotificationKind::Favourite.title_key(), "favourite-notification");
}

#[test]
fn push_payloads() {
    let d = notification_data(NotificationKind::Follow, 5, "Alice followed you".to_string(), "example.com", Some("a.png"), "bio", Some("text"), None);
    assert_eq!(d.body, "bio");
    assert_eq!(d.preferred_locale, "en");
    assert_eq!(d.icon.as_deref(), Some("https://example.com/media/a.png"));
    assert_eq!(d.notification_type, "follow");
    assert_eq!(d.access_token, "");
    let m = notification_data(NotificationKind::Mention, 6, "t".to_string(), "example.com", None, "bio", None, Some("de"));
    assert_eq!(m.body, "");
    assert_eq!(m.preferred_locale, "de");
    assert_eq!(m.icon, None);
}

#[test]
fn roles() {
    let mut claims = AdditionalClaims {
        resource_access: vec![("tafarn".to_string(), ClientRoles { roles: vec!["admin".to_string()] })],
    };
    assert!(claims.has_role("tafarn", "admin"));
    assert!(!claims.has_role("tafarn", "user"));
    assert!(!claims.has_role("other", "admin"));
    assert_eq!(claims.own_roles("tafarn").roles, vec!["admin".to_string()]);
    assert!(claims.own_roles("other").roles.is_empty());
    assert_eq!(claims.resource_access.len(), 2);
    assert!(!claims.has_role("other", "admin"));
}

#[test]
fn sessions_expire_into_refresh_or_sign_out() {
    assert_eq!(session_state(None, false, 100), SessionState::Valid);
    assert_eq!(session_state(Some(101), false, 100), SessionState::Valid);
    assert_eq!(session_state(Some(100), true, 100), SessionState::Refresh);
    assert_eq!(session_state(Some(50), false, 100), SessionState::SignedOut);
}

#[test]
fn notifications_are_read_by_their_owner() {
    assert_eq!(tafarn::notifications::notification_access("x", Some(1), 1), Err(tafarn::views::ApiFailure::NotificationNotFound));
    assert_eq!(tafarn::notifications::notification_access("5", None, 1), Err(tafarn::views::ApiFailure::NotificationNotFound));
    assert_eq!(tafarn::notifications::notification_access("5", Some(2), 1), Err(tafarn::views::ApiFailure::NoPermission));
    assert_eq!(tafarn::notifications::notification_access("5", Some(1), 1), Ok(5));
}

#[test]
fn nan_qualities_are_detected() {
    assert!(nan_quality_in("en;q=NaN"));
    assert!(nan_quality_in("de, fr ; q = -nan"));
    assert!(!nan_quality_in("en;q=0.5, de"));
    assert!(!nan_quality_in("nan-TW"));
    assert!(!nan_quality_in("en;x;q=nan"));
    assert_eq!(requested_languages(Some("nan-TW, en;q=inf")), vec!["en".to_string(), "nan-TW".to_string()]);
}
