use tafarn::oauth::TokenClaims;
use tafarn::views::{
    api_error, link_header, page_limit, parse_bool, require_scope, unavailable_endpoint, ApiFailure, FilterContexts,
    Link, ListRepliesPolicy,
};

fn claims(scopes: &[&str]) -> TokenClaims {
    TokenClaims {
        issuer: String::new(),
        subject: String::new(),
        audience: String::new(),
        not_before: 0,
        issued_at: 0,
        json_web_token_id: 0,
        scopes: scopes.iter().map(|s| s.to_string()).collect(),
    }
}

#[test]
fn parse_bool_values() {
    assert_eq!(parse_bool(None, true), Ok(true));
    assert_eq!(parse_bool(Some("1"), false), Ok(true));
    assert_eq!(parse_bool(Some("false"), true), Ok(false));
    assert_eq!(parse_bool(Some("yes"), true), Err(()));
}

#[test]
fn scope_gates() {
    let c = claims(&["write"]);
    assert_eq!(require_scope(&c, "write:lists"), Ok(()));
    assert_eq!(require_scope(&c, "read:lists"), Err(ApiFailure::NoPermission));
    assert_eq!(unavailable_endpoint(&c, "write:filters"), ApiFailure::ServiceUnavailable);
    assert_eq!(unavailable_endpoint(&c, "read:filters"), ApiFailure::NoPermission);
    assert_eq!(ApiFailure::NoPermission.status(), 403);
    assert_eq!(ApiFailure::NoPermission.message_key(), "error-no-permission");
    assert_eq!(ApiFailure::ServiceUnavailable.status(), 503);
    assert_eq!(ApiFailure::UnsupportedMediaType.status(), 422);
    let e = api_error(ApiFailure::LimitTooLarge, "too many".to_string());
    assert_eq!(e.code, 400);
    assert_eq!(e.error, "too many");
}

#[test]
fn page_limits() {
    assert_eq!(page_limit(None, 20), Some(20));
    assert_eq!(page_limit(Some(500), 20), Some(500));
    assert_eq!(page_limit(Some(501), 20), None);
}

#[test]
fn link_headers() {
    assert_eq!(link_header(&vec![]), None);
    let links = vec![
        Link { rel: "next".to_string(), href: "https://example.com/api?max_id=5".to_string() },
        Link { rel: "prev".to_string(), href: "https://example.com/a\u{7f}é".to_string() },
    ];
    assert_eq!(
        link_header(&links),
        Some("<https://example.com/api?max_id=5>; rel=\"next\", <https://example.com/a%7F%C3%A9>; rel=\"prev\"".to_string())
    );
}

#[test]
fn form_names() {
    assert_eq!(FilterContexts::Thread.wire_name(), "thread");
    assert_eq!(ListRepliesPolicy::default_policy(), ListRepliesPolicy::List);
    assert_eq!(ListRepliesPolicy::NoReplies.wire_name(), "none");
}
