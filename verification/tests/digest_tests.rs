use tafarn::activity_streams::{digest_verdict, DigestError};
use tafarn::delivery::{delivery_headers_for, digest_header, digest_header_for, DeliveryError};

const EMPTY_SHA256_B64: &str = "47DEQpj8HBSa+/TImW+5JCeuQeRkm5NMpJWZG3hSuFU=";

fn empty_sha256() -> Vec<u8> {
    vec![
        0xe3, 0xb0, 0xc4, 0x42, 0x98, 0xfc, 0x1c, 0x14, 0x9a, 0xfb, 0xf4, 0xc8, 0x99, 0x6f, 0xb9, 0x24,
        0x27, 0xae, 0x41, 0xe4, 0x64, 0x9b, 0x93, 0x4c, 0xa4, 0x95, 0x99, 0x1b, 0x78, 0x52, 0xb8, 0x55,
    ]
}

#[test]
fn digest_header_of_known_digest() {
    assert_eq!(digest_header_for(&empty_sha256()), format!("SHA-256={}", EMPTY_SHA256_B64));
    assert_eq!(digest_header(b"").unwrap(), format!("SHA-256={}", EMPTY_SHA256_B64));
}

#[test]
fn digest_verdicts() {
    assert_eq!(digest_verdict(EMPTY_SHA256_B64, Some(empty_sha256())), Ok(()));
    assert_eq!(digest_verdict(EMPTY_SHA256_B64, Some(vec![1, 2, 3])), Err(DigestError::Mismatch));
    assert_eq!(digest_verdict(EMPTY_SHA256_B64, None), Err(DigestError::HashFailed));
    assert_eq!(digest_verdict("***", None), Err(DigestError::BadEncoding));
    assert_eq!(DigestError::Mismatch.status(), 422);
}

#[test]
fn delivery_headers_from_digest() {
    let hs = delivery_headers_for("https://remote.example/inbox", Some(empty_sha256()), "d").unwrap();
    assert_eq!(hs.len(), 4);
    assert_eq!(hs[2], ("Digest".to_string(), format!("SHA-256={}", EMPTY_SHA256_B64).into_bytes()));
    assert_eq!(delivery_headers_for("https://remote.example/inbox", None, "d").err(), Some(DeliveryError::HashFailed));
    assert_eq!(delivery_headers_for("nope", None, "d").err(), Some(DeliveryError::InvalidInbox));
}
