use tafarn::signing::{signature_header_for, signing_data};
use openssl::pkey::PKey;
use openssl::rsa::Rsa;
use tafarn::signature::{parse_header_params, HeaderSyntaxError, Signature, SignatureAlgorithm, SignatureError};
use tafarn::signing::{sign_request, signing_parts, SigningError};

fn headers() -> Vec<(String, Vec<u8>)> {
    vec![
        ("Host".to_string(), b"remote.example".to_vec()),
        ("Accept".to_string(), b"application/activity+json".to_vec()),
        ("Date".to_string(), b"Tue, 07 Jun 2022 20:51:35 GMT".to_vec()),
        ("Digest".to_string(), b"SHA-256=abc=".to_vec()),
    ]
}

fn text_headers(h: &[(String, Vec<u8>)]) -> Vec<(String, String)> {
    h.iter().map(|(n, v)| (n.clone(), String::from_utf8(v.clone()).unwrap())).collect()
}

#[test]
fn signing_lines_cover_signed_headers() {
    let (lines, names) = signing_parts("POST", "/inbox", &headers()).unwrap();
    assert_eq!(names, vec!["(request-target)", "host", "date", "digest"]);
    assert_eq!(lines, vec![
        "(request-target): post /inbox",
        "host: remote.example",
        "date: Tue, 07 Jun 2022 20:51:35 GMT",
        "digest: SHA-256=abc=",
    ]);
}

#[test]
fn signing_refuses_binary_header_value() {
    let mut h = headers();
    h.push(("Content-Type".to_string(), vec![0xff, 0x00]));
    assert_eq!(signing_parts("POST", "/inbox", &h).err(), Some(SigningError::InvalidHeaderValue));
    let mut h = headers();
    h.push(("X-Other".to_string(), vec![0xff]));
    assert!(signing_parts("POST", "/inbox", &h).is_ok());
}

#[test]
fn signed_request_reads_back_and_verifies() {
    let rsa = Rsa::generate(2048).unwrap();
    let private = PKey::from_rsa(rsa).unwrap();
    let public_pem = private.public_key_to_pem().unwrap();
    let public = PKey::public_key_from_pem(&public_pem).unwrap();
    let h = headers();
    let header = sign_request("POST", "/inbox", &h, &private, "https://example.com/as/users/1#key").unwrap();
    assert!(header.starts_with("keyId=\"https://example.com/as/users/1#key\",algorithm=\"rsa-sha256\",headers=\"(request-target) host date digest\",signature=\""));
    let sig = Signature::from_header(&header, "POST", "/inbox", &text_headers(&h)).ok().unwrap();
    assert_eq!(sig.key_id, "https://example.com/as/users/1#key");
    assert_eq!(sig.algorithm, SignatureAlgorithm::RsaSha256);
    let (lines, _) = signing_parts("POST", "/inbox", &h).unwrap();
    assert_eq!(sig.signed_data, lines.join("\n").into_bytes());
    assert!(sig.verify(&public));
    let tampered = Signature::from_header(&header, "POST", "/outbox", &text_headers(&h)).ok().unwrap();
    assert!(!tampered.verify(&public));
}

#[test]
fn header_params_grammar() {
    let p = parse_header_params("keyId=\"a\",algorithm=\"rsa-sha256\",created=123,expires=9").ok().unwrap();
    assert_eq!(p, vec![
        ("keyId".to_string(), "a".to_string()),
        ("algorithm".to_string(), "rsa-sha256".to_string()),
        ("created".to_string(), "123".to_string()),
    ]);
    assert_eq!(parse_header_params("key-id=\"a\"").err(), Some(HeaderSyntaxError::InvalidFieldName));
    assert_eq!(parse_header_params("a=12x").err(), Some(HeaderSyntaxError::InvalidNumber));
    assert_eq!(parse_header_params("a=\"x\"b").err(), Some(HeaderSyntaxError::InvalidStructure));
}

#[test]
fn from_header_errors() {
    let h: Vec<(String, String)> = vec![];
    assert_eq!(Signature::from_header("keyId=\"a\"", "GET", "/", &h).err(), Some(SignatureError::MissingRequiredFields));
    assert_eq!(
        Signature::from_header("keyId=\"a\",algorithm=\"x\",signature=\"AAAA\"", "GET", "/", &h).err(),
        Some(SignatureError::InvalidAlgorithm)
    );
    assert_eq!(
        Signature::from_header("keyId=\"a\",algorithm=\"rsa-sha256\",signature=\"***\"", "GET", "/", &h).err(),
        Some(SignatureError::InvalidSignatureEncoding)
    );
    assert_eq!(
        Signature::from_header("keyId=x", "GET", "/", &h).err(),
        Some(SignatureError::Syntax(HeaderSyntaxError::InvalidNumber))
    );
    let hs = vec![("Date".to_string(), "now".to_string())];
    let s = Signature::from_header("keyId=\"a\",algorithm=\"hmac-sha256\",signature=\"AAAA\"", "GET", "/", &hs).ok().unwrap();
    assert_eq!(s.signed_data, b"date: now".to_vec());
    assert_eq!(s.signature, vec![0, 0, 0]);
    let rsa = Rsa::generate(2048).unwrap();
    let key = PKey::public_key_from_pem(&PKey::from_rsa(rsa).unwrap().public_key_to_pem().unwrap()).unwrap();
    assert!(!s.verify(&key));
}

#[test]
fn signature_checks_against_pem_text() {
    let rsa = Rsa::generate(2048).unwrap();
    let private = PKey::from_rsa(rsa).unwrap();
    let public_pem = private.public_key_to_pem().unwrap();
    let h = headers();
    let header = sign_request("POST", "/inbox", &h, &private, "k").unwrap();
    let sig = Signature::from_header(&header, "POST", "/inbox", &text_headers(&h)).ok().unwrap();
    assert_eq!(sig.verify_with_pem(&public_pem), Some(true));
    assert_eq!(sig.verify_with_pem(b"not a key"), None);
    let sha1 = Signature { algorithm: SignatureAlgorithm::RsaSha1, ..sig.clone() };
    assert_eq!(sha1.verify_with_pem(&public_pem), Some(false));
    let dsa = Signature { algorithm: SignatureAlgorithm::DsaSha1, ..sig.clone() };
    assert_eq!(dsa.verify_with_pem(&public_pem), Some(false));
    let hmac = Signature { algorithm: SignatureAlgorithm::HmacSha256, ..sig.clone() };
    assert_eq!(hmac.verify_with_pem(&public_pem), Some(false));
    let tampered = Signature::from_header(&header, "POST", "/outbox", &text_headers(&h)).ok().unwrap();
    assert_eq!(tampered.verify_with_pem(&public_pem), Some(false));
}

#[test]
fn signature_header_of_known_bytes() {
    let names = vec!["(request-target)".to_string(), "date".to_string()];
    assert_eq!(
        signature_header_for("k", &names, &[0, 0, 0]),
        "keyId=\"k\",algorithm=\"rsa-sha256\",headers=\"(request-target) date\",signature=\"AAAA\""
    );
    let lines = vec!["(request-target): post /inbox".to_string(), "date: now".to_string()];
    assert_eq!(signing_data(&lines), b"(request-target): post /inbox\ndate: now".to_vec());
}
