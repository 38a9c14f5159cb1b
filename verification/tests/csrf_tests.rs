use tafarn::csrf::{CSRFFairing, CSRFToken, CORS, TOKEN_BYTES};

#[test]
fn token_round_trip() {
    let t = CSRFToken::from_bytes(vec![1, 2, 3, 250]);
    let s = t.to_string();
    assert_eq!(s, base64::encode_config([1u8, 2, 3, 250], base64::URL_SAFE));
    assert!(t.verify(&s));
    assert!(!t.verify("AQID"));
    assert!(!t.verify("not base64!"));
}

#[test]
fn token_from_cookies() {
    let enc = base64::encode_config([9u8, 8, 7], base64::URL_SAFE);
    let t = CSRFToken::from_cookies(Some(&enc), None).unwrap();
    assert!(t.verify(&enc));
    let t = CSRFToken::from_cookies(None, Some(&enc)).unwrap();
    assert!(t.verify(&enc));
    assert!(CSRFToken::from_cookies(Some("%%%"), Some(&enc)).is_none());
    assert!(CSRFToken::from_cookies(None, None).is_none());
    let (t, cookie) = CSRFToken::from_request(Some(&enc), None);
    assert!(cookie.is_none());
    assert!(t.verify(&enc));
    let (t, cookie) = CSRFToken::from_request(None, None);
    let cookie = cookie.unwrap();
    assert!(t.verify(&cookie));
    assert_eq!(base64::decode_config(&cookie, base64::URL_SAFE).unwrap().len(), TOKEN_BYTES);
}

#[test]
fn fairing_sets_cookie_only_when_needed() {
    let f = CSRFFairing;
    assert_eq!(f.name(), "CSRF");
    let enc = base64::encode_config([1u8; 64], base64::URL_SAFE);
    assert!(f.cookie_to_set(Some(&enc)).is_none());
    let fresh = f.cookie_to_set(Some("***")).unwrap();
    assert_eq!(base64::decode_config(&fresh, base64::URL_SAFE).unwrap().len(), 64);
    assert!(f.cookie_to_set(None).is_some());
    assert!(!CSRFToken::needs_new_cookie(Some(&enc)));
    assert!(CSRFToken::needs_new_cookie(None));
}

#[test]
fn cors_headers() {
    let c = CORS;
    assert_eq!(c.name(), "CORS");
    assert_eq!(c.headers(), vec![
        ("Access-Control-Allow-Origin", "*"),
        ("Access-Control-Allow-Methods", "POST, GET, PATCH, OPTIONS"),
        ("Access-Control-Allow-Headers", "*"),
        ("Access-Control-Allow-Credentials", "true"),
    ]);
}
