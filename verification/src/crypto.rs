use vstd::prelude::*;
use base64::Engine;
use crate::error::ApiError;

verus! {

/// Key material generated at installation time: the RSA private key and
/// its public counterpart, both in PEM form.
#[derive(Debug)]
pub struct KeyMaterial {
    pub private_pem: String,
    pub public_pem: String,
}

/// The PKCS#1 v1.5 RSA signature over the SHA-256 digest of `msg`, under
/// the plain RSA private key written in `key_pem` (the signing wrapper
/// refuses any other key algorithm). That scheme is deterministic, so the
/// signature is a function of the key and the message alone.
pub uninterp spec fn rsa_sha256_sig(key_pem: Seq<char>, msg: Seq<char>) -> Seq<u8>;

/// The standard base64 text of the given bytes.
pub uninterp spec fn base64_enc(bytes: Seq<u8>) -> Seq<char>;

/// Whether openssl accepts `key_pem` as an unencrypted, plain RSA private
/// key and can sign with it: a function of the key text alone. Named, not
/// spelled out — what makes a PEM a valid RSA key takes pages to state.
pub uninterp spec fn rsa_key_ok(key_pem: Seq<char>) -> bool;

/// Relies on openssl's Rsa::generate (2048 bits), private_key_to_pem,
/// PKey::from_rsa and public_key_to_pem: a fresh keypair written in PEM
/// form. The keys are drawn at random, so nothing is claimed of their
/// value; what openssl writes for a generated RSA key is an unencrypted
/// plain-RSA PEM that parses back, so the private key can sign.
#[verifier::external_body]
pub(crate) fn generate_keypair() -> (r: Result<KeyMaterial, ApiError>)
    ensures
        r matches Ok(km) ==> rsa_key_ok(km.private_pem@),
{
    let rsa = openssl::rsa::Rsa::generate(2048).map_err(|_| ApiError::Crypto)?;
    let private_pem = rsa.private_key_to_pem().map_err(|_| ApiError::Crypto)?;
    let keypair = openssl::pkey::PKey::from_rsa(rsa).map_err(|_| ApiError::Crypto)?;
    let public_pem = keypair.public_key_to_pem().map_err(|_| ApiError::Crypto)?;
    match (String::from_utf8(private_pem), String::from_utf8(public_pem)) {
        (Ok(private_pem), Ok(public_pem)) => Ok(KeyMaterial { private_pem, public_pem }),
        _ => Err(ApiError::Crypto),
    }
}

/// Relies on openssl's PKey::private_key_from_pem_passphrase and Signer
/// with MessageDigest::sha256. The key is parsed with an empty passphrase
/// so an encrypted PEM fails at once instead of prompting on a terminal,
/// and only a plain RSA key is accepted — the parser takes a private key
/// of any algorithm, so the wrapper refuses every other kind (EC, DSA,
/// RSA-PSS, ...), whose signatures are salted or nonce-based: PKCS#1 v1.5
/// RSA signing alone is deterministic per key and message. Whether the
/// whole pipeline succeeds is then a function of the key text, which is
/// what `rsa_key_ok` names.
#[verifier::external_body]
fn rsa_sign(key_pem: &str, msg: &str) -> (r: Result<Vec<u8>, ApiError>)
    ensures
        r is Ok <==> rsa_key_ok(key_pem@),
        r matches Ok(sig) ==> sig@ == rsa_sha256_sig(key_pem@, msg@),
{
    let key = openssl::pkey::PKey::private_key_from_pem_passphrase(key_pem.as_bytes(), b"")
        .map_err(|_| ApiError::Crypto)?;
    if key.id() != openssl::pkey::Id::RSA {
        return Err(ApiError::Crypto);
    }
    let mut signer = openssl::sign::Signer::new(openssl::hash::MessageDigest::sha256(), &key)
        .map_err(|_| ApiError::Crypto)?;
    signer.sign_oneshot_to_vec(msg.as_bytes()).map_err(|_| ApiError::Crypto)
}

/// Relies on base64's STANDARD engine: the base64 text of the bytes, a
/// function of the bytes alone.
#[verifier::external_body]
fn b64_encode(bytes: &Vec<u8>) -> (r: String)
    ensures
        r@ == base64_enc(bytes@),
{
    base64::prelude::BASE64_STANDARD.encode(bytes)
}

/// Sign the exact body bytes that will be transmitted, and encode the
/// signature as base64 text for the signature header. Signing succeeds
/// exactly where the key text is a valid unencrypted RSA private key.
pub fn sign(body: &str, key_pem: &str) -> (r: Result<String, ApiError>)
    ensures
        r is Ok <==> rsa_key_ok(key_pem@),
        r matches Ok(s) ==> s@ == base64_enc(rsa_sha256_sig(key_pem@, body@)),
        r matches Err(e) ==> e == ApiError::Crypto,
{
    match rsa_sign(key_pem, body) {
        Ok(sig) => Ok(b64_encode(&sig)),
        Err(_) => Err(ApiError::Crypto),
    }
}

/// Signing is deterministic: two successful signatures over the same body
/// under the same key are the same text.
pub proof fn lemma_sign_deterministic(
    key_pem: Seq<char>,
    body: Seq<char>,
    s1: Seq<char>,
    s2: Seq<char>,
)
    requires
        s1 == base64_enc(rsa_sha256_sig(key_pem, body)),
        s2 == base64_enc(rsa_sha256_sig(key_pem, body)),
    ensures
        s1 == s2,
{
}

} // verus!
