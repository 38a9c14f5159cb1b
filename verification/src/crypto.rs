//! Hashing and public-key signature checks, through the `openssl` crate.
use vstd::prelude::*;
use rand::Rng;

verus! {

/// Public keys of the `openssl` crate; opaque here.
#[verifier::external_type_specification]
#[verifier::external_body]
#[verifier::reject_recursive_types(T)]
pub struct ExPKey<T>(openssl::pkey::PKey<T>);

/// The `openssl` marker type of public keys.
#[verifier::external_type_specification]
#[verifier::external_body]
pub struct ExPublic(openssl::pkey::Public);

/// The `openssl` marker type of private keys.
#[verifier::external_type_specification]
#[verifier::external_body]
pub struct ExPrivate(openssl::pkey::Private);

/// The digest algorithms a `Digest` request header can name, strongest first.
#[derive(Clone, Copy, PartialEq, Eq, Debug)]
pub enum DigestAlgorithm {
    SHA512,
    SHA256,
    SHA1,
    MD5,
}

/// The message digests a signature can be made over.
#[derive(Clone, Copy, PartialEq, Eq, Debug)]
pub enum SignatureDigest {
    Sha1,
    Sha256,
    Sha512,
}

/// What `openssl::hash::hash` computes over `data` with the digest that `alg`
/// names.
pub uninterp spec fn message_digest(alg: DigestAlgorithm, data: Seq<u8>) -> Seq<u8>;

/// Calls `openssl::hash::hash` with the digest that `alg` names. When the
/// call succeeds, the contract names the digest; it says nothing of when
/// OpenSSL reports an error.
#[verifier::external_body]
pub(crate) fn hash_bytes(alg: DigestAlgorithm, data: &[u8]) -> (r: Option<Vec<u8>>)
    ensures
        r matches Some(d) ==> d@ == message_digest(alg, data@),
{
    let md = match alg {
        DigestAlgorithm::SHA512 => openssl::hash::MessageDigest::sha512(),
        DigestAlgorithm::SHA256 => openssl::hash::MessageDigest::sha256(),
        DigestAlgorithm::SHA1 => openssl::hash::MessageDigest::sha1(),
        DigestAlgorithm::MD5 => openssl::hash::MessageDigest::md5(),
    };
    openssl::hash::hash(md, data).ok().map(|d| d.to_vec())
}

/// Whether `PKey::public_key_from_pem` reads a public key out of `pem`.
pub uninterp spec fn public_pem_parses(pem: Seq<u8>) -> bool;

/// Calls `PKey::public_key_from_pem`: the contract names whether it
/// succeeds; the key itself is opaque here.
#[verifier::external_body]
pub(crate) fn public_key_from_pem(pem: &[u8]) -> (r: Option<openssl::pkey::PKey<openssl::pkey::Public>>)
    ensures
        r is Some == public_pem_parses(pem@),
{
    openssl::pkey::PKey::public_key_from_pem(pem).ok()
}

/// Whether `PKeyRef::rsa` succeeds on `key`, that is whether it is an RSA key.
pub uninterp spec fn pkey_is_rsa(key: openssl::pkey::PKey<openssl::pkey::Public>) -> bool;

/// Calls `PKeyRef::rsa` and reports whether it succeeded, that is whether
/// the key is an RSA key. The contract names the answer.
#[verifier::external_body]
pub(crate) fn key_is_rsa(key: &openssl::pkey::PKey<openssl::pkey::Public>) -> (r: bool)
    ensures
        r == pkey_is_rsa(*key),
{
    key.rsa().is_ok()
}

/// Whether `PKeyRef::dsa` succeeds on `key`, that is whether it is a DSA key.
pub uninterp spec fn pkey_is_dsa(key: openssl::pkey::PKey<openssl::pkey::Public>) -> bool;

/// Calls `PKeyRef::dsa` and reports whether it succeeded (a DSA key). The
/// contract names the answer.
#[verifier::external_body]
pub(crate) fn key_is_dsa(key: &openssl::pkey::PKey<openssl::pkey::Public>) -> (r: bool)
    ensures
        r == pkey_is_dsa(*key),
{
    key.dsa().is_ok()
}

/// Whether `openssl::sign::Verifier` with the digest `digest` and the key
/// `key` accepts `signature` over `data`.
pub uninterp spec fn key_signature_valid(
    digest: SignatureDigest, key: openssl::pkey::PKey<openssl::pkey::Public>, data: Seq<u8>, signature: Seq<u8>,
) -> bool;

/// Checks `signature` over `data` with `openssl::sign::Verifier` (digest
/// `digest`, key `key`); any OpenSSL error counts as a failed check. The
/// contract names the answer.
#[verifier::external_body]
pub(crate) fn verify_with_key(
    digest: SignatureDigest,
    key: &openssl::pkey::PKey<openssl::pkey::Public>,
    data: &[u8],
    signature: &[u8],
) -> (r: bool)
    ensures
        r == key_signature_valid(digest, *key, data@, signature@),
{
    let md = match digest {
        SignatureDigest::Sha1 => openssl::hash::MessageDigest::sha1(),
        SignatureDigest::Sha256 => openssl::hash::MessageDigest::sha256(),
        SignatureDigest::Sha512 => openssl::hash::MessageDigest::sha512(),
    };
    match openssl::sign::Verifier::new(md, key) {
        Ok(mut v) => v.update(data).is_ok() && v.verify(signature).unwrap_or(false),
        Err(_) => false,
    }
}


/// Whether the public key that `PKey::public_key_from_pem` reads out of
/// `pem` is an RSA key (`PKeyRef::rsa` succeeds on it).
pub uninterp spec fn pem_key_is_rsa(pem: Seq<u8>) -> bool;

/// Reads a public key out of PEM text and reports whether it is an RSA key
/// (`PKey::public_key_from_pem`, `PKeyRef::rsa`); `false` where the text
/// holds no public key. The contract names the answer.
#[verifier::external_body]
pub(crate) fn rsa_key_in_pem(pem: &[u8]) -> (r: bool)
    ensures
        r == pem_key_is_rsa(pem@),
        r ==> public_pem_parses(pem@),
{
    match openssl::pkey::PKey::public_key_from_pem(pem) {
        Ok(k) => k.rsa().is_ok(),
        Err(_) => false,
    }
}

/// Whether the public key that `PKey::public_key_from_pem` reads out of
/// `pem` is a DSA key (`PKeyRef::dsa` succeeds on it).
pub uninterp spec fn pem_key_is_dsa(pem: Seq<u8>) -> bool;

/// Reads a public key out of PEM text and reports whether it is a DSA key
/// (`PKey::public_key_from_pem`, `PKeyRef::dsa`); `false` where the text
/// holds no public key. The contract names the answer.
#[verifier::external_body]
pub(crate) fn dsa_key_in_pem(pem: &[u8]) -> (r: bool)
    ensures
        r == pem_key_is_dsa(pem@),
        r ==> public_pem_parses(pem@),
{
    match openssl::pkey::PKey::public_key_from_pem(pem) {
        Ok(k) => k.dsa().is_ok(),
        Err(_) => false,
    }
}

/// Whether `signature` verifies over `data` with `openssl::sign::Verifier`,
/// the digest `digest` and the public key read out of `pem`.
pub uninterp spec fn pem_signature_verifies(
    digest: SignatureDigest, pem: Seq<u8>, data: Seq<u8>, signature: Seq<u8>,
) -> bool;

/// Reads a public key out of PEM text and checks `signature` over `data`
/// with it and the digest `digest` (`PKey::public_key_from_pem`,
/// `openssl::sign::Verifier`); a text without a public key, or any OpenSSL
/// error, counts as a failed check. The contract names the answer.
#[verifier::external_body]
pub(crate) fn verify_with_pem_key(digest: SignatureDigest, pem: &[u8], data: &[u8], signature: &[u8]) -> (r: bool)
    ensures
        r == pem_signature_verifies(digest, pem@, data@, signature@),
{
    let key = match openssl::pkey::PKey::public_key_from_pem(pem) {
        Ok(k) => k,
        Err(_) => return false,
    };
    let md = match digest {
        SignatureDigest::Sha1 => openssl::hash::MessageDigest::sha1(),
        SignatureDigest::Sha256 => openssl::hash::MessageDigest::sha256(),
        SignatureDigest::Sha512 => openssl::hash::MessageDigest::sha512(),
    };
    let ok = match openssl::sign::Verifier::new(md, &key) {
        Ok(mut v) => v.update(data).is_ok() && v.verify(signature).unwrap_or(false),
        Err(_) => false,
    };
    ok
}

/// Draws `n` bytes from `rand::thread_rng()` (the crate's `Standard`
/// distribution). Only the length is claimed: the bytes are random.
#[verifier::external_body]
pub(crate) fn random_bytes(n: usize) -> (r: Vec<u8>)
    ensures
        r@.len() == n,
{
    rand::thread_rng().sample_iter(rand::distributions::Standard).take(n).collect()
}


/// Whether `sig` is a signature that `openssl::sign::Signer` with SHA-256
/// and the key `key` can give for `data`. (For an RSA key the signature is
/// fixed by the key and the data; other kinds of keys sign with a random
/// nonce, so this is a relation rather than a function.)
pub uninterp spec fn sha256_signed_by(key: openssl::pkey::PKey<openssl::pkey::Private>, data: Seq<u8>, sig: Seq<u8>) -> bool;

/// Signs `data` with `key` and SHA-256 (`openssl::sign::Signer`,
/// `sign_oneshot_to_vec`); `None` where OpenSSL reports an error. The
/// contract claims that what it gives is a signature of `data` by `key`.
#[verifier::external_body]
pub(crate) fn sign_sha256(key: &openssl::pkey::PKey<openssl::pkey::Private>, data: &[u8]) -> (r: Option<Vec<u8>>)
    ensures
        r matches Some(s) ==> sha256_signed_by(*key, data@, s@),
{
    match openssl::sign::Signer::new(openssl::hash::MessageDigest::sha256(), key) {
        Ok(mut signer) => signer.sign_oneshot_to_vec(data).ok(),
        Err(_) => None,
    }
}

/// Generates a 2048-bit RSA key pair (`openssl::rsa::Rsa::generate`) and
/// renders its private key as PEM text (`private_key_to_pem`); `None` where
/// OpenSSL reports an error. The key is random, so nothing is claimed of it.
#[verifier::external_body]
pub(crate) fn generate_private_key_pem() -> Option<String> {
    match openssl::rsa::Rsa::generate(2048) {
        Ok(k) => match k.private_key_to_pem() {
            Ok(pem) => String::from_utf8(pem).ok(),
            Err(_) => None,
        },
        Err(_) => None,
    }
}

} // verus!
