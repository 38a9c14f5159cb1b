use tafarn::meta::JRDLink;
use tafarn::oauth::TokenClaims;
use tafarn::search::{
    actor_link, like_patterns, search_access, only_following, resolve_target, search_options, searches_accounts, webfinger_url,
    SearchOptions,
};

#[test]
fn search_parameters() {
    assert_eq!(search_options(None, None, None, false), Ok(SearchOptions { limit: 20, following: false, resolve: false }));
    assert_eq!(search_options(Some(50), Some("true"), Some("1"), true), Ok(SearchOptions { limit: 50, following: true, resolve: true }));
    assert_eq!(search_options(Some(51), None, None, true), Err(400));
    assert_eq!(search_options(None, Some("yes"), None, true), Err(400));
    assert_eq!(search_options(None, None, Some("maybe"), true), Err(400));
    assert_eq!(search_options(None, None, Some("true"), false), Err(403));
}

#[test]
fn terms_resolve_to_webfinger_lookups() {
    assert_eq!(
        resolve_target("@alice@example.com"),
        Some(("example.com".to_string(), "alice@example.com".to_string()))
    );
    assert_eq!(resolve_target("bob@social.example"), Some(("social.example".to_string(), "bob@social.example".to_string())));
    assert_eq!(resolve_target("a@b@c"), Some(("c".to_string(), "a@b@c".to_string())));
    assert_eq!(
        resolve_target("https://example.com/@alice"),
        Some(("example.com".to_string(), "https://example.com/@alice".to_string()))
    );
    assert_eq!(resolve_target("http://127.0.0.1/users/a"), None);
    assert_eq!(resolve_target("alice"), None);
    assert_eq!(
        webfinger_url("example.com", "alice@example.com"),
        "https://example.com/.well-known/webfinger?resource=alice@example.com"
    );
}

fn link(rel: &str, type_: Option<&str>, href: Option<&str>) -> JRDLink {
    JRDLink {
        rel: rel.to_string(),
        type_: type_.map(|t| t.to_string()),
        href: href.map(|h| h.to_string()),
        titles: None,
        properties: None,
    }
}

#[test]
fn first_actor_link_is_taken() {
    let links = vec![
        link("http://webfinger.net/rel/profile-page", Some("text/html"), Some("https://e/@a")),
        link("self", Some("application/json"), None),
        link("self", Some("application/activity+json"), Some("https://e/users/a")),
        link("self", Some("application/activity+json"), Some("https://e/users/b")),
    ];
    assert_eq!(actor_link(&links).as_deref(), Some("https://e/users/a"));
    assert_eq!(actor_link(&vec![]), None);
}

#[test]
fn search_restrictions() {
    assert_eq!(only_following(Some(5), true), Ok(Some(5)));
    assert_eq!(only_following(Some(5), false), Ok(None));
    assert_eq!(only_following(None, true), Err(403));
    assert_eq!(only_following(None, false), Ok(None));
    assert!(searches_accounts(None));
    assert!(searches_accounts(Some("accounts")));
    assert!(!searches_accounts(Some("statuses")));
}

#[test]
fn like_wildcards_are_escaped() {
    let (anywhere, prefix) = like_patterns("50%_off");
    assert_eq!(anywhere, "%50\\%\\_off%");
    assert_eq!(prefix, "50\\%\\_off%");
    assert_eq!(like_patterns(""), ("%%".to_string(), "%".to_string()));
}

fn claims(scopes: &[&str]) -> TokenClaims {
    TokenClaims {
        issuer: "https://example.com".to_string(),
        subject: "user".to_string(),
        audience: "https://example.com".to_string(),
        not_before: 0,
        issued_at: 0,
        json_web_token_id: 1,
        scopes: scopes.iter().map(|s| s.to_string()).collect(),
    }
}

#[test]
fn searching_needs_the_search_scope() {
    assert_eq!(search_access(None), Ok(()));
    assert_eq!(search_access(Some(&claims(&["read:search"]))), Ok(()));
    assert_eq!(search_access(Some(&claims(&["read"]))), Ok(()));
    assert_eq!(search_access(Some(&claims(&["write"]))), Err(403));
}
