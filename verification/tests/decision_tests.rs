use openssl::pkey::PKey;
use openssl::rsa::Rsa;
use tafarn::accounts::init_account;
use tafarn::media::uploaded_media;
use tafarn::oauth::{authorize_client_id, authorize_page, code_id, stored_token_accepted, AuthorizePage, TokenFailure};
use tafarn::signature::{check_against_stored_keys, KeyCheck, Signature, SignatureAlgorithm};
use tafarn::signing::sign_request;
use tafarn::statuses::{boost_step, BoostStep, StatusVisibility};

#[test]
fn token_codes_and_rows() {
    assert_eq!(code_id("67e55044-10b1-426f-9247-bb680e5fe0c8"), Ok(0x67e5504410b1426f9247bb680e5fe0c8));
    assert_eq!(code_id("not-a-code"), Err(TokenFailure::InvalidCode));
    assert_eq!(stored_token_accepted(Some(false)), Ok(()));
    assert_eq!(stored_token_accepted(Some(true)), Err(401));
    assert_eq!(stored_token_accepted(None), Err(401));
}

#[test]
fn authorize_error_pages() {
    assert_eq!(authorize_client_id("x"), Err(AuthorizePage::ClientNotFound));
    assert_eq!(authorize_client_id("67e55044-10b1-426f-9247-bb680e5fe0c8"), Ok(0x67e5504410b1426f9247bb680e5fe0c8));
    assert_eq!(authorize_page(None, "https://app.example/cb"), Err(AuthorizePage::ClientNotFound));
    assert_eq!(authorize_page(Some("https://app.example/cb"), "https://app.example/cb"), Ok(()));
    assert_eq!(authorize_page(Some("https://app.example/cb"), "https://evil.example/cb"), Err(AuthorizePage::InvalidRedirectUri));
    assert_eq!(authorize_page(Some("https://app.example/cb"), "not a url"), Err(AuthorizePage::InvalidRedirectUri));
}

#[test]
fn boost_requests() {
    assert_eq!(boost_step(Some(7), Some("nonsense")), Ok(BoostStep::Existing(7)));
    assert_eq!(boost_step(None, None), Ok(BoostStep::New(StatusVisibility::Public)));
    assert_eq!(boost_step(None, Some("unlisted")), Ok(BoostStep::New(StatusVisibility::Unlisted)));
    assert_eq!(boost_step(None, Some("direct")), Err(400));
    assert_eq!(boost_step(None, Some("nonsense")), Err(422));
}

#[test]
fn first_sign_in() {
    assert!(matches!(init_account(true, "sub".to_string(), "u".to_string(), None, 5), Ok(None)));
    let a = init_account(false, "sub".to_string(), "u".to_string(), None, 5).unwrap().unwrap();
    assert_eq!(a.username, "u");
    assert!(a.private_key.starts_with("-----BEGIN"));
}

#[test]
fn upload_rows() {
    let m = uploaded_media(1, "f.png".to_string(), "image/png".to_string(), "p.png".to_string(), "image/jpeg".to_string(),
        "LEHV".to_string(), (640, 480), (400, 300), 9, Some("cat".to_string()), "alice".to_string());
    assert_eq!(m.media_type, "image");
    assert_eq!(m.original_width, Some(640));
    assert_eq!(m.preview_height, Some(300));
    assert_eq!(m.owned_by.as_deref(), Some("alice"));
    assert_eq!(m.remote_url, None);
}

#[test]
fn stored_keys_decide_signatures() {
    let private = PKey::from_rsa(Rsa::generate(2048).unwrap()).unwrap();
    let pem = String::from_utf8(private.public_key_to_pem().unwrap()).unwrap();
    let h = vec![("Date".to_string(), b"now".to_vec())];
    let header = sign_request("POST", "/inbox", &h, &private, "k1").unwrap();
    let text = vec![("Date".to_string(), "now".to_string())];
    let sig = Signature::from_header(&header, "POST", "/inbox", &text).ok().unwrap();
    let other = PKey::from_rsa(Rsa::generate(2048).unwrap()).unwrap();
    let other_pem = String::from_utf8(other.public_key_to_pem().unwrap()).unwrap();
    let keys = vec![("k0".to_string(), other_pem.clone()), ("k1".to_string(), pem.clone()), ("k1".to_string(), other_pem.clone())];
    assert_eq!(check_against_stored_keys(&sig, &keys), KeyCheck::Accepted);
    let keys = vec![("k1".to_string(), other_pem.clone()), ("k1".to_string(), pem.clone())];
    assert_eq!(check_against_stored_keys(&sig, &keys), KeyCheck::Rejected);
    assert_eq!(check_against_stored_keys(&sig, &vec![("k1".to_string(), "junk".to_string())]), KeyCheck::Unparsable);
    assert_eq!(check_against_stored_keys(&sig, &vec![]), KeyCheck::UnknownKey);
    let public = PKey::public_key_from_pem(pem.as_bytes()).unwrap();
    assert!(sig.verify(&public));
    let dsa = Signature { algorithm: SignatureAlgorithm::DsaSha1, ..sig.clone() };
    assert!(!dsa.verify(&public));
}
