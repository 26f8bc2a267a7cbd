use base64::Engine;
use bunqledger::crypto::sign;
use bunqledger::error::ApiError;
use openssl::hash::MessageDigest;
use openssl::pkey::PKey;
use openssl::rsa::Rsa;
use openssl::sign::Verifier;

#[test]
fn signing_twice_gives_the_same_signature_and_both_verify() {
    let rsa = Rsa::generate(2048).unwrap();
    let pem = String::from_utf8(rsa.private_key_to_pem().unwrap()).unwrap();
    let key = PKey::from_rsa(rsa).unwrap();
    let body = "{\"secret\":\"k\"}";

    let s1 = sign(body, &pem).unwrap();
    let s2 = sign(body, &pem).unwrap();
    assert_eq!(s1, s2);

    let raw = base64::prelude::BASE64_STANDARD.decode(s1.as_bytes()).unwrap();
    let mut verifier = Verifier::new(MessageDigest::sha256(), &key).unwrap();
    assert!(verifier.verify_oneshot(&raw, body.as_bytes()).unwrap());

    let mut verifier = Verifier::new(MessageDigest::sha256(), &key).unwrap();
    assert!(!verifier.verify_oneshot(&raw, b"another body").unwrap());
}

#[test]
fn signing_with_a_malformed_key_is_a_crypto_error() {
    assert_eq!(sign("body", "not a pem"), Err(ApiError::Crypto));
}

#[test]
fn signing_with_an_encrypted_key_is_a_crypto_error() {
    let rsa = Rsa::generate(2048).unwrap();
    let pem = String::from_utf8(
        rsa.private_key_to_pem_passphrase(openssl::symm::Cipher::aes_128_cbc(), b"secret-pw")
            .unwrap(),
    )
    .unwrap();
    assert_eq!(sign("body", &pem), Err(ApiError::Crypto));
}

#[test]
fn signing_with_a_non_rsa_key_is_a_crypto_error() {
    let group =
        openssl::ec::EcGroup::from_curve_name(openssl::nid::Nid::X9_62_PRIME256V1).unwrap();
    let ec = openssl::ec::EcKey::generate(&group).unwrap();
    let pem = String::from_utf8(ec.private_key_to_pem().unwrap()).unwrap();
    assert_eq!(sign("body", &pem), Err(ApiError::Crypto));
}
