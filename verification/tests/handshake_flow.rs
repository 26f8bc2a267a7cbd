use base64::Engine;
use bunqledger::error::ApiError;
use bunqledger::handshake::{
    handshake_step, AppState, BunqConfig, HsAction, HsEvent, HsState,
};
use openssl::hash::MessageDigest;
use openssl::pkey::PKey;
use openssl::rsa::Rsa;
use openssl::sign::Verifier;

fn fresh_private_pem() -> String {
    let rsa = Rsa::generate(2048).unwrap();
    String::from_utf8(rsa.private_key_to_pem().unwrap()).unwrap()
}

fn verify_signature(private_pem: &str, body: &str, signature_b64: &str) -> bool {
    let key = PKey::private_key_from_pem(private_pem.as_bytes()).unwrap();
    let sig = base64::prelude::BASE64_STANDARD
        .decode(signature_b64.as_bytes())
        .unwrap();
    let mut verifier = Verifier::new(MessageDigest::sha256(), &key).unwrap();
    verifier.verify_oneshot(&sig, body.as_bytes()).unwrap()
}

const SESSION_RESPONSE: &str =
    "{\"Response\":[{\"Token\":{\"token\":\"S1\"}},{\"UserPerson\":{\"id\":42}}]}";

#[test]
fn handshake_with_persisted_state_issues_only_session_creation() {
    let pem = fresh_private_pem();
    let cfg = BunqConfig {
        api_key: String::from("k"),
        state: Some(AppState { token: String::from("DT"), pem_private: pem.clone() }),
    };
    let (s1, a1) = handshake_step(HsState::Start { cfg }, HsEvent::Begin);
    assert!(matches!(s1, HsState::AwaitSession { .. }));
    let (url, auth, signature, body) = match a1 {
        Some(HsAction::PostSessionServer { url, auth, signature, body }) => {
            (url, auth, signature, body)
        },
        _ => panic!("expected exactly one request, the session creation"),
    };
    assert_eq!(url, "https://api.bunq.com/v1/session-server");
    assert_eq!(auth, "DT");
    assert_eq!(body, "{\"secret\":\"k\"}");
    assert!(verify_signature(&pem, &body, &signature));

    let (s2, a2) = handshake_step(
        s1,
        HsEvent::Response { status: 200, body: String::from(SESSION_RESPONSE) },
    );
    assert!(a2.is_none());
    match s2 {
        HsState::Done { ready } => {
            assert_eq!(ready.token, "S1");
            assert_eq!(ready.user_id, 42);
            assert_eq!(ready.keypair_pem, pem);
        },
        _ => panic!("expected the handshake to finish"),
    }
}

#[test]
fn handshake_from_fresh_config_runs_all_three_stages() {
    let cfg = BunqConfig { api_key: String::from("k"), state: None };

    let (s1, a1) = handshake_step(HsState::Start { cfg }, HsEvent::Begin);
    assert!(matches!(s1, HsState::AwaitInstallation { .. }));
    match &a1 {
        Some(HsAction::PostInstallation { url, body }) => {
            assert_eq!(url, "https://api.bunq.com/v1/installation");
            assert!(body.starts_with("{\"client_public_key\":\""));
            assert!(body.contains("PUBLIC KEY"));
        },
        _ => panic!("expected the installation request first"),
    }

    let install_response = String::from("{\"Response\":[{\"Token\":{\"token\":\"T1\"}}]}");
    let (s2, a2) = handshake_step(s1, HsEvent::Response { status: 200, body: install_response });
    assert!(matches!(s2, HsState::AwaitDeviceRegistration { .. }));
    match &a2 {
        Some(HsAction::PostDeviceServer { url, auth, body }) => {
            assert_eq!(url, "https://api.bunq.com/v1/device-server");
            assert_eq!(auth, "T1");
            assert_eq!(
                body,
                "{\"description\":\"awesome\",\"secret\":\"k\",\"permitted_ips\":[\"31.21.118.143\",\"*\"]}"
            );
        },
        _ => panic!("expected the device registration request second"),
    }

    let (s3, a3) = handshake_step(s2, HsEvent::Response { status: 200, body: String::from("{}") });
    let saved_pem = match &a3 {
        Some(HsAction::SaveState { api_key, pem_private, token }) => {
            assert_eq!(api_key, "k");
            assert_eq!(token, "T1");
            assert!(pem_private.contains("PRIVATE KEY"));
            pem_private.clone()
        },
        _ => panic!("expected the fresh state to be persisted"),
    };

    let (s4, a4) = handshake_step(s3, HsEvent::Saved { ok: true });
    assert!(matches!(s4, HsState::AwaitSession { .. }));
    match &a4 {
        Some(HsAction::PostSessionServer { url, auth, signature, body }) => {
            assert_eq!(url, "https://api.bunq.com/v1/session-server");
            assert_eq!(auth, "T1");
            assert_eq!(body, "{\"secret\":\"k\"}");
            assert!(verify_signature(&saved_pem, body, signature));
        },
        _ => panic!("expected the session creation request third"),
    }

    let (s5, a5) = handshake_step(
        s4,
        HsEvent::Response { status: 200, body: String::from(SESSION_RESPONSE) },
    );
    assert!(a5.is_none());
    match s5 {
        HsState::Done { ready } => {
            assert_eq!(ready.token, "S1");
            assert_eq!(ready.user_id, 42);
            assert_eq!(ready.keypair_pem, saved_pem);
        },
        _ => panic!("expected the handshake to finish"),
    }
}

#[test]
fn handshake_surfaces_http_errors() {
    let cfg = BunqConfig { api_key: String::from("k"), state: None };
    let (s1, _a1) = handshake_step(HsState::Start { cfg }, HsEvent::Begin);
    let (s2, a2) = handshake_step(s1, HsEvent::Response { status: 403, body: String::new() });
    assert!(a2.is_none());
    assert!(matches!(s2, HsState::Failed { error: ApiError::HttpStatus(403) }));
}

#[test]
fn handshake_surfaces_decode_errors() {
    let pem = fresh_private_pem();
    let cfg = BunqConfig {
        api_key: String::from("k"),
        state: Some(AppState { token: String::from("DT"), pem_private: pem }),
    };
    let (s1, _a1) = handshake_step(HsState::Start { cfg }, HsEvent::Begin);
    let (s2, a2) = handshake_step(
        s1,
        HsEvent::Response { status: 200, body: String::from("{\"Response\":[]}") },
    );
    assert!(a2.is_none());
    assert!(matches!(s2, HsState::Failed { error: ApiError::Decode }));
}

#[test]
fn handshake_surfaces_persistence_failure() {
    let s = HsState::PendingSave {
        api_key: String::from("k"),
        pem_private: String::from("p"),
        token: String::from("T1"),
    };
    let (s2, a2) = handshake_step(s, HsEvent::Saved { ok: false });
    assert!(a2.is_none());
    assert!(matches!(s2, HsState::Failed { error: ApiError::Persistence }));
}

#[test]
fn handshake_fails_with_crypto_error_on_malformed_key() {
    let cfg = BunqConfig {
        api_key: String::from("k"),
        state: Some(AppState { token: String::from("DT"), pem_private: String::from("junk") }),
    };
    let (s1, a1) = handshake_step(HsState::Start { cfg }, HsEvent::Begin);
    assert!(a1.is_none());
    assert!(matches!(s1, HsState::Failed { error: ApiError::Crypto }));
}
