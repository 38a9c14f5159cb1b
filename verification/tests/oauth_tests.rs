use tafarn::oauth::{
    app_scopes, authorize_step, bearer_token, check_client_secret, check_code_grant, check_revoke,
    client_credentials, client_redirect, consent_scopes, consent_step, new_client_secret, new_token_claims,
    parse_force_login, redirect_uri_registered, requested_scopes, should_consent, token_request, token_response,
    validate_app, ApiScope, AppsCreate, AuthorizeError, AuthorizeStep, ConsentFailure, ConsentStep, OAuthTokenForm,
    TokenClaims, TokenFailure, CODE_LIFETIME_NANOS,
};

fn claims(scopes: &[&str]) -> TokenClaims {
    TokenClaims {
        issuer: "https://example.com".to_string(),
        subject: "user".to_string(),
        audience: "https://example.com".to_string(),
        not_before: 0,
        issued_at: 0,
        json_web_token_id: 1,
        scopes: scopes.iter().map(|s| s.to_string()).collect(),
    }
}

fn strings(v: &[&str]) -> Vec<String> {
    v.iter().map(|s| s.to_string()).collect()
}

#[test]
fn scope_names_round_trip() {
    for name in ["read", "read:accounts", "write:media", "follow", "push", "write:statuses"] {
        let s = ApiScope::from_name(name).expect("known scope");
        assert_eq!(s.name(), name);
    }
    assert_eq!(ApiScope::from_name("admin"), None);
    assert_eq!(ApiScope::ReadBlocks.description(), "scope-read-blocks");
    assert_eq!(ApiScope::ReadBlocks.parents(), vec![ApiScope::Read, ApiScope::Follow]);
    assert!(ApiScope::Push.parents().is_empty());
}

#[test]
fn has_scope_direct_and_parent() {
    let c = claims(&["read"]);
    assert!(c.has_scope("read"));
    assert!(c.has_scope("read:accounts"));
    assert!(c.has_scope("read:blocks"));
    assert!(!c.has_scope("write:statuses"));
    assert!(!c.has_scope("follow"));
    let f = claims(&["follow"]);
    assert!(f.has_scope("read:mutes"));
    assert!(f.has_scope("write:blocks"));
    assert!(!f.has_scope("read:accounts"));
    let odd = claims(&["custom"]);
    assert!(odd.has_scope("custom"));
    assert!(!odd.has_scope("read"));
}

#[test]
fn app_scopes_sorted_dedup() {
    assert_eq!(app_scopes(None), Some(strings(&["read"])));
    assert_eq!(
        app_scopes(Some("write read  follow read\twrite")),
        Some(strings(&["follow", "read", "write"]))
    );
    assert_eq!(app_scopes(Some("read admin")), None);
    assert_eq!(app_scopes(Some("   ")), Some(vec![]));
}

#[test]
fn validate_app_checks() {
    let ok = AppsCreate {
        client_name: "My App".to_string(),
        redirect_uris: "https://app.example/cb".to_string(),
        website: Some("https://app.example".to_string()),
        scopes: Some("read write".to_string()),
    };
    let reg = validate_app(&ok).expect("valid");
    assert_eq!(reg.name, "My App");
    assert_eq!(reg.scopes, strings(&["read", "write"]));
    assert!(reg.website.is_some());
    let blank = AppsCreate { client_name: " \t".to_string(), ..ok_form() };
    assert!(validate_app(&blank).is_none());
    let bad_site = AppsCreate { website: Some("ftp://app.example".to_string()), ..ok_form() };
    assert!(validate_app(&bad_site).is_none());
    let bad_redirect = AppsCreate { redirect_uris: "not a uri".to_string(), ..ok_form() };
    assert!(validate_app(&bad_redirect).is_none());
    let bad_scope = AppsCreate { scopes: Some("read nope".to_string()), ..ok_form() };
    assert!(validate_app(&bad_scope).is_none());
    let no_site = AppsCreate { website: None, scopes: None, ..ok_form() };
    let reg = validate_app(&no_site).expect("valid");
    assert_eq!(reg.website, None);
    assert_eq!(reg.scopes, strings(&["read"]));
}

fn ok_form() -> AppsCreate {
    AppsCreate {
        client_name: "My App".to_string(),
        redirect_uris: "https://app.example/cb".to_string(),
        website: Some("https://app.example".to_string()),
        scopes: Some("read write".to_string()),
    }
}

#[test]
fn client_secret_is_64_bytes() {
    let s = new_client_secret();
    let bytes = base64::decode_config(&s, base64::URL_SAFE_NO_PAD).unwrap();
    assert_eq!(bytes.len(), 64);
    assert!(!s.contains('='));
}

#[test]
fn token_failures_render() {
    let e = TokenFailure::MissingCode.to_error();
    assert_eq!(e.error, "invalid_request");
    assert_eq!(e.error_description.as_deref(), Some("Missing code"));
    assert_eq!(e.error_uri, None);
    assert_eq!(TokenFailure::MissingCode.status(), 400);
    assert_eq!(TokenFailure::ServerError.status(), 500);
    assert_eq!(TokenFailure::ServerError.to_error().error_description, None);
    assert_eq!(TokenFailure::UnsupportedGrantType.code(), "unsupported_grant_type");
    assert_eq!(TokenFailure::CodeExpired.to_error().error_description.as_deref(), Some("Code expired"));
}

fn token_form() -> OAuthTokenForm {
    OAuthTokenForm {
        grant_type: "authorization_code".to_string(),
        code: Some("c".to_string()),
        redirect_uri: Some("https://app.example/cb".to_string()),
        client_id: Some("67e55044-10b1-426f-9247-bb680e5fe0c8".to_string()),
        client_secret: Some("s3cret".to_string()),
    }
}

#[test]
fn token_request_checks_in_order() {
    let x = token_request(&token_form(), None).ok().unwrap();
    assert_eq!(x.client_id, 0x67e5504410b1426f9247bb680e5fe0c8);
    assert_eq!(x.client_secret, "s3cret");
    assert_eq!(x.code, "c");
    let bad_grant = OAuthTokenForm { grant_type: "password".to_string(), code: None, ..token_form() };
    assert_eq!(token_request(&bad_grant, None).err(), Some(TokenFailure::UnsupportedGrantType));
    let no_code = OAuthTokenForm { code: None, redirect_uri: None, ..token_form() };
    assert_eq!(token_request(&no_code, None).err(), Some(TokenFailure::MissingCode));
    let no_redirect = OAuthTokenForm { redirect_uri: None, client_id: None, ..token_form() };
    assert_eq!(token_request(&no_redirect, None).err(), Some(TokenFailure::MissingRedirectUri));
    let no_creds = OAuthTokenForm { client_secret: None, ..token_form() };
    assert_eq!(token_request(&no_creds, None).err(), Some(TokenFailure::MissingCredentials));
    let bad_id = OAuthTokenForm { client_id: Some("nope".to_string()), ..token_form() };
    assert_eq!(token_request(&bad_id, None).err(), Some(TokenFailure::InvalidClientId));
    let basic = token_request(&no_creds, Some(("67e55044-10b1-426f-9247-bb680e5fe0c8".to_string(), "pw".to_string()))).ok().unwrap();
    assert_eq!(basic.client_secret, "pw");
}

#[test]
fn client_credentials_prefers_basic() {
    let r = client_credentials(Some(("a".to_string(), "b".to_string())), Some("c"), Some("d")).unwrap();
    assert_eq!(r, ("a".to_string(), "b".to_string()));
    let r = client_credentials(None, Some("c"), Some("d")).unwrap();
    assert_eq!(r, ("c".to_string(), "d".to_string()));
    assert_eq!(client_credentials(None, Some("c"), None), Err(TokenFailure::MissingCredentials));
}

#[test]
fn code_grant_checks() {
    let t = 1_000_000_000_000i64;
    assert_eq!(check_code_grant(1, "r", t, 1, "r", t + CODE_LIFETIME_NANOS), Ok(()));
    assert_eq!(check_code_grant(1, "r", t, 1, "r", t + CODE_LIFETIME_NANOS + 1), Err(TokenFailure::CodeExpired));
    assert_eq!(check_code_grant(1, "r", t, 2, "r", t), Err(TokenFailure::CodeOtherClient));
    assert_eq!(check_code_grant(1, "r", t, 1, "q", t), Err(TokenFailure::InvalidRedirectUri));
    assert_eq!(check_client_secret("a", "a"), Ok(()));
    assert_eq!(check_client_secret("a", "b"), Err(TokenFailure::InvalidClientCredentials));
    assert_eq!(check_revoke(3, 3), Ok(()));
    assert_eq!(check_revoke(3, 4), Err(TokenFailure::TokenOtherClient));
}

#[test]
fn token_response_and_claims() {
    let r = token_response("tok".to_string(), &strings(&["read", "write"]), 42);
    assert_eq!(r.access_token, "tok");
    assert_eq!(r.token_type, "Bearer");
    assert_eq!(r.scope.as_deref(), Some("read write"));
    assert_eq!(r.created_at, Some(42));
    let c = new_token_claims("example.com", "alice".to_string(), 7, 100, strings(&["read"]));
    assert_eq!(c.issuer, "https://example.com");
    assert_eq!(c.audience, "https://example.com");
    assert_eq!(c.subject, "alice");
    assert_eq!(c.issued_at, 100);
    assert_eq!(c.not_before, 100);
    assert_eq!(c.json_web_token_id, 7);
}

#[test]
fn bearer_tokens() {
    assert_eq!(bearer_token(Some("Bearer abc def")), Some("abc def".to_string()));
    assert_eq!(bearer_token(Some("Basic abc")), None);
    assert_eq!(bearer_token(Some("Bearer")), None);
    assert_eq!(bearer_token(None), None);
}

#[test]
fn authorize_decisions() {
    let app = strings(&["read", "write"]);
    match authorize_step("code", None, Some("read read write"), &app, true) {
        AuthorizeStep::Continue(s) => assert_eq!(s, strings(&["read", "write"])),
        other => panic!("{:?}", other),
    }
    assert!(matches!(authorize_step("code", Some("true"), None, &app, true), AuthorizeStep::SignIn));
    assert!(matches!(authorize_step("code", None, None, &app, false), AuthorizeStep::SignIn));
    assert!(matches!(authorize_step("code", Some("maybe"), None, &app, true), AuthorizeStep::Refuse(AuthorizeError::InvalidRequest)));
    assert!(matches!(authorize_step("token", None, None, &app, true), AuthorizeStep::Refuse(AuthorizeError::UnsupportedResponseType)));
    assert!(matches!(authorize_step("code", None, Some("follow"), &app, true), AuthorizeStep::Refuse(AuthorizeError::InvalidScope)));
    assert_eq!(parse_force_login(Some("1")), Some(true));
    assert_eq!(parse_force_login(Some("false")), Some(false));
    assert_eq!(parse_force_login(Some("yes")), None);
    assert_eq!(requested_scopes(Some("a a b a")), strings(&["a", "b", "a"]));
    assert_eq!(AuthorizeError::AccessDenied.code(), "access_denied");
}

#[test]
fn consent_decisions() {
    let req = strings(&["read", "write"]);
    assert!(should_consent(&req, None));
    assert!(should_consent(&req, Some(&strings(&["read"]))));
    assert!(!should_consent(&req, Some(&strings(&["write", "read", "push"]))));
    assert_eq!(consent_scopes(&strings(&["read", "bogus", "push"])), vec![ApiScope::Read, ApiScope::Push]);
    assert_eq!(consent_step(false, true, "yes"), ConsentStep::Fail(ConsentFailure::InvalidCsrfToken));
    assert_eq!(consent_step(true, false, "yes"), ConsentStep::Fail(ConsentFailure::InvalidState));
    assert_eq!(consent_step(true, true, "no"), ConsentStep::Deny);
    assert_eq!(consent_step(true, true, "yes"), ConsentStep::Grant);
    assert_eq!(consent_step(true, true, "maybe"), ConsentStep::Fail(ConsentFailure::InvalidConsent));
}

#[test]
fn redirects() {
    assert_eq!(redirect_uri_registered("https://app.example/cb", "https://app.example/cb"), Some(true));
    assert_eq!(redirect_uri_registered("https://app.example/other", "https://app.example/cb"), Some(false));
    assert_eq!(redirect_uri_registered("nope", "https://app.example/cb"), Some(false));
    assert_eq!(redirect_uri_registered("https://app.example/cb", "nope"), None);
    assert_eq!(
        client_redirect("https://app.example/cb", Some("xyz"), "error", "invalid_scope"),
        Some("https://app.example/cb?state=xyz&error=invalid_scope".to_string())
    );
    assert_eq!(
        client_redirect("https://app.example/cb?a=1", None, "code", "a b"),
        Some("https://app.example/cb?a=1&code=a+b".to_string())
    );
    assert_eq!(client_redirect("nope", None, "code", "x"), None);
}
