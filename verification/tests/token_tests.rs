use tafarn::oauth::TokenClaims;
use tafarn::tokens::VerifiedClaims;

fn now() -> i64 {
    std::time::SystemTime::now().duration_since(std::time::UNIX_EPOCH).unwrap().as_secs() as i64
}

fn claims() -> TokenClaims {
    TokenClaims {
        issuer: "https://example.com".to_string(),
        subject: "alice".to_string(),
        audience: "https://example.com".to_string(),
        not_before: now(),
        issued_at: now(),
        json_web_token_id: 0x67e5504410b1426f9247bb680e5fe0c8,
        scopes: vec!["read".to_string(), "write".to_string()],
    }
}

#[test]
fn signed_tokens_verify() {
    let key = [7u8; 64];
    let c = claims();
    let token = c.sign(&key).unwrap();
    let back = TokenClaims::verify(&token, &key, "example.com").unwrap();
    assert_eq!(back.issuer, c.issuer);
    assert_eq!(back.subject, c.subject);
    assert_eq!(back.audience, c.audience);
    assert_eq!(back.not_before, c.not_before);
    assert_eq!(back.issued_at, c.issued_at);
    assert_eq!(back.json_web_token_id, c.json_web_token_id);
    assert_eq!(back.scopes, c.scopes);
    assert!(TokenClaims::verify(&token, &key, "other.example").is_none());
    assert!(TokenClaims::verify(&token, &[8u8; 64], "example.com").is_none());
    assert!(TokenClaims::verify("garbage", &key, "example.com").is_none());
}

#[test]
fn weak_keys_are_refused() {
    assert!(claims().sign(&[1u8; 8]).is_none());
}

fn verified() -> VerifiedClaims {
    VerifiedClaims {
        issuer: Some("i".to_string()),
        subject: Some("s".to_string()),
        audience: Some(None),
        not_before: Some(5),
        issued_at: Some(6),
        jwt_id: Some("67e55044-10b1-426f-9247-bb680e5fe0c8".to_string()),
        scopes: Some(vec!["read".to_string()]),
    }
}

#[test]
fn verified_claims_must_be_complete() {
    let t = TokenClaims::from_verified(verified()).unwrap();
    assert_eq!(t.audience, "");
    assert_eq!(t.not_before, 5);
    assert_eq!(t.issued_at, 6);
    assert!(TokenClaims::from_verified(VerifiedClaims { scopes: None, ..verified() }).is_none());
    assert!(TokenClaims::from_verified(VerifiedClaims { jwt_id: Some("x".to_string()), ..verified() }).is_none());
    assert!(TokenClaims::from_verified(VerifiedClaims { audience: None, ..verified() }).is_none());
}

#[test]
fn twelve_byte_keys_are_the_shortest_accepted() {
    assert!(claims().sign(&[3u8; 11]).is_none());
    let key = [3u8; 12];
    let token = claims().sign(&key).unwrap();
    assert!(TokenClaims::verify(&token, &[3u8; 11], "example.com").is_none());
    let back = TokenClaims::verify(&token, &key, "example.com").unwrap();
    assert_eq!(back.audience, "https://example.com");
}
