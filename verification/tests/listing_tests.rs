use tafarn::accounts::{account_acct, account_image_url, account_url, shown_count};
use tafarn::signature::{HeaderSyntaxError, SignatureError};
use tafarn::text::{i32_to_decimal, i64_to_decimal, u64_to_decimal};
use tafarn::timelines::{
    favourites_limit, followers_links, followers_query, home_timeline_limit, notifications_query, reacted_by_limit, reacted_by_links, page_links, NotificationsQuery, public_timeline_query, timeline_fanout, AudienceTarget, FollowEdge,
    PublicTimelineQuery,
};
use tafarn::views::ApiFailure;

#[test]
fn decimals() {
    for n in [0i32, 7, 10, 123, -1, -45, i32::MAX, i32::MIN] {
        assert_eq!(i32_to_decimal(n), n.to_string());
    }
    assert_eq!(u64_to_decimal(u64::MAX), u64::MAX.to_string());
}

#[test]
fn pagination_links() {
    let l = page_links("example.com", "/api/v1/timelines/home", Some(9), Some(3));
    assert_eq!(l.len(), 2);
    assert_eq!(l[0].rel, "next");
    assert_eq!(l[0].href, "https://example.com/api/v1/timelines/home?max_id=3");
    assert_eq!(l[1].rel, "prev");
    assert_eq!(l[1].href, "https://example.com/api/v1/timelines/home?min_id=9");
    assert!(page_links("example.com", "/x", None, None).is_empty());
}

#[test]
fn timeline_queries() {
    assert_eq!(
        public_timeline_query(Some("true"), None, None, None, None),
        Ok(PublicTimelineQuery { local: true, remote: false, only_media: false, limit: 20 })
    );
    assert_eq!(public_timeline_query(Some("x"), None, None, Some(false), None), Err(ApiFailure::InvalidRequest));
    assert_eq!(public_timeline_query(None, None, None, Some(false), None), Err(ApiFailure::NoPermission));
    assert_eq!(public_timeline_query(None, None, None, Some(true), Some(501)), Err(ApiFailure::LimitTooLarge));
    assert_eq!(home_timeline_limit(true, Some(40)), Ok(40));
    assert_eq!(home_timeline_limit(false, Some(40)), Err(ApiFailure::NoPermission));
    assert_eq!(home_timeline_limit(true, Some(1000)), Err(ApiFailure::LimitTooLarge));
}

#[test]
fn account_rendering() {
    assert_eq!(account_acct("alice", Some("https://remote.example/@alice")), "alice@remote.example");
    assert_eq!(account_acct("alice", None), "alice");
    assert_eq!(account_acct("alice", Some("https://127.0.0.1/u")), "alice");
    assert_eq!(account_url("example.com", true, 1, Some("https://x".to_string())).as_deref(), Some("https://example.com/users/00000000-0000-0000-0000-000000000001"));
    assert_eq!(account_url("example.com", false, 1, Some("https://x".to_string())).as_deref(), Some("https://x"));
    assert_eq!(account_image_url("example.com", None, "missing.png"), "https://example.com/static/missing.png");
    assert_eq!(account_image_url("example.com", Some("a.png"), "missing.png"), "https://example.com/media/a.png");
    assert_eq!(shown_count(true, 5, 9), 5);
    assert_eq!(shown_count(false, 5, 9), 9);
}

#[test]
fn signature_error_messages() {
    assert_eq!(SignatureError::Syntax(HeaderSyntaxError::InvalidNumber).message(), "Invalid number");
    assert_eq!(SignatureError::MissingRequiredFields.message(), "Missing required fields");
    assert_eq!(SignatureError::InvalidSignatureEncoding.message(), "Invalid signature encoding");
}

#[test]
fn fanout_reaches_local_followers_only() {
    let auds = vec![AudienceTarget::Account(5), AudienceTarget::Account(99), AudienceTarget::Followers(1)];
    let follows = vec![
        FollowEdge { follower: 2, followee: 1, reblogs: true },
        FollowEdge { follower: 3, followee: 1, reblogs: false },
        FollowEdge { follower: 77, followee: 1, reblogs: true },
        FollowEdge { follower: 4, followee: 8, reblogs: true },
    ];
    let local = vec![2, 3, 4, 5];
    let (public, homes) = timeline_fanout(true, false, &auds, &follows, &local);
    assert!(public);
    assert_eq!(homes, vec![5, 2, 3]);
    let (public, homes) = timeline_fanout(false, true, &auds, &follows, &local);
    assert!(!public);
    assert_eq!(homes, vec![5, 2]);
    assert!(timeline_fanout(false, false, &vec![], &follows, &local).1.is_empty());
}

#[test]
fn notification_listing_checks() {
    assert_eq!(notifications_query(false, None, None), Err(ApiFailure::NoPermission));
    assert_eq!(notifications_query(true, None, None), Ok(NotificationsQuery { limit: 15, cause: None }));
    assert_eq!(notifications_query(true, Some(501), None), Err(ApiFailure::LimitTooLarge));
    assert_eq!(notifications_query(true, Some(500), Some("nope")), Err(ApiFailure::AccountNotFound));
    assert_eq!(
        notifications_query(true, Some(3), Some("00000000-0000-0000-0000-00000000002a")),
        Ok(NotificationsQuery { limit: 3, cause: Some(42) })
    );
}

#[test]
fn reacted_by_pages() {
    let l = reacted_by_links("h.example", "abc", "reblogged_by", Some(9), Some(3));
    assert_eq!(l.len(), 2);
    assert_eq!(l[0].rel, "next");
    assert_eq!(l[0].href, "https://h.example/api/v1/statuses/abc/reblogged_by?min_id=9");
    assert_eq!(l[1].rel, "prev");
    assert_eq!(l[1].href, "https://h.example/api/v1/statuses/abc/reblogged_by?max_id=3");
    assert!(reacted_by_links("h", "abc", "favourited_by", None, None).is_empty());
    assert_eq!(reacted_by_limit(Some(false), None), Err(403));
    assert_eq!(reacted_by_limit(None, None), Ok(40));
    assert_eq!(reacted_by_limit(Some(true), Some(501)), Err(400));
}

#[test]
fn follower_pages() {
    assert_eq!(followers_query("x", None), Err(404));
    assert_eq!(followers_query("00000000-0000-0000-0000-000000000001", None), Ok((1, 40)));
    assert_eq!(followers_query("00000000-0000-0000-0000-000000000001", Some(101)), Err(400));
    let l = followers_links("h", 1, Some(8), Some(2), 2, 2);
    assert_eq!(l.len(), 2);
    assert_eq!(l[0].href, "https://h/api/v1/accounts/00000000-0000-0000-0000-000000000001/followers?min_id=8&limit=2");
    assert_eq!(l[1].rel, "prev");
    assert_eq!(l[1].href, "https://h/api/v1/accounts/00000000-0000-0000-0000-000000000001/followers?max_id=2&limit=2");
    let l = followers_links("h", 1, Some(8), Some(2), 2, 40);
    assert_eq!(l.len(), 1);
    assert_eq!(l[0].rel, "next");
}

#[test]
fn favourites_listing_limit() {
    assert_eq!(favourites_limit(false, None), Err(403));
    assert_eq!(favourites_limit(true, None), Ok(20));
    assert_eq!(favourites_limit(true, Some(500)), Ok(500));
    assert_eq!(favourites_limit(true, Some(501)), Err(422));
}

#[test]
fn i64_decimals() {
    for n in [0i64, 9, -10, i64::MAX, i64::MIN] {
        assert_eq!(i64_to_decimal(n), n.to_string());
    }
}
