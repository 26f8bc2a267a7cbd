use vstd::prelude::*;
use crate::error::ApiError;
use crate::json::{JsonVal, obj_get, obj_find, parse_json, json_parse};
use crate::envelope::{
    envelope_decodable, envelope_items, flatten_ok, flattened_pairs, obj_get_last,
    decode_envelope, check_flattened, flat_find, key,
};
use crate::crypto::{KeyMaterial, generate_keypair, sign, rsa_sha256_sig, base64_enc, rsa_key_ok};
use crate::requests::{
    base_url, installation_body, installation_body_spec, device_body, device_body_spec,
    session_body, session_body_spec, installation_url, device_server_url, session_server_url,
};

verus! {

/// The persisted installation state: the device token and the private key
/// it was issued under, in PEM form.
#[derive(Debug)]
pub struct AppState {
    pub token: String,
    pub pem_private: String,
}

/// The persisted configuration: the API secret, and the installation
/// state once a device has been registered.
#[derive(Debug)]
pub struct BunqConfig {
    pub api_key: String,
    pub state: Option<AppState>,
}

/// A completed handshake: the fresh session token, the signing key in PEM
/// form, and the authenticated user's identity.
#[derive(Debug)]
pub struct BunqConfigReady {
    pub token: String,
    pub keypair_pem: String,
    pub user_id: i64,
}

/// A well-formed flattened response: an envelope whose `Response` array
/// holds only single-key objects.
pub open spec fn flat_decodable(v: JsonVal) -> bool {
    envelope_decodable(v) && flatten_ok(envelope_items(v))
}

/// The merged mapping of a flattened response: every element's sole
/// key/value pair, in array order.
pub open spec fn merged(v: JsonVal) -> Seq<(String, JsonVal)> {
    flattened_pairs(envelope_items(v))
}

/// The installation response carries the server-issued token under
/// `Token.token`.
pub open spec fn install_token_ok(v: JsonVal) -> bool {
    &&& flat_decodable(v)
    &&& obj_get_last(merged(v), "Token"@) matches Some(JsonVal::Obj(tfs))
    &&& obj_get(tfs@, "token"@) matches Some(JsonVal::Str(_))
}

pub open spec fn is_install_token_of(v: JsonVal, t: Seq<char>) -> bool {
    &&& obj_get_last(merged(v), "Token"@) matches Some(JsonVal::Obj(tfs))
    &&& obj_get(tfs@, "token"@) matches Some(JsonVal::Str(s))
    &&& s@ == t
}

/// Decode a flattened installation response down to the issued token.
pub fn decode_install_token(body: &str) -> (r: Result<String, ApiError>)
    ensures
        r is Ok <==> (json_parse(body@) matches Some(v) && install_token_ok(v)),
        r matches Ok(t) ==> (json_parse(body@) matches Some(v) && is_install_token_of(v, t@)),
        r matches Err(e) ==> e == ApiError::Decode,
{
    let v = match parse_json(body) {
        Some(v) => v,
        None => { return Err(ApiError::Decode); },
    };
    let env = match decode_envelope(v) {
        Ok(env) => env,
        Err(e) => { return Err(e); },
    };
    if !check_flattened(&env.items) {
        return Err(ApiError::Decode);
    }
    match flat_find(&env.items, &key("Token")) {
        Some(tv) => match tv {
            JsonVal::Obj(tfs) => match obj_find(tfs, &key("token")) {
                Some(sv) => match sv {
                    JsonVal::Str(s) => Ok(s.clone()),
                    _ => Err(ApiError::Decode),
                },
                None => Err(ApiError::Decode),
            },
            _ => Err(ApiError::Decode),
        },
        None => Err(ApiError::Decode),
    }
}

/// The session response carries the session token under `Token.token` and
/// the identity under `UserPerson.id`.
pub open spec fn session_ok(v: JsonVal) -> bool {
    &&& flat_decodable(v)
    &&& obj_get_last(merged(v), "Token"@) matches Some(JsonVal::Obj(tfs))
    &&& obj_get(tfs@, "token"@) matches Some(JsonVal::Str(_))
    &&& obj_get_last(merged(v), "UserPerson"@) matches Some(JsonVal::Obj(ufs))
    &&& obj_get(ufs@, "id"@) matches Some(JsonVal::Int(_))
}

pub open spec fn is_session_of(v: JsonVal, t: Seq<char>, id: i64) -> bool {
    &&& obj_get_last(merged(v), "Token"@) matches Some(JsonVal::Obj(tfs))
    &&& obj_get(tfs@, "token"@) matches Some(JsonVal::Str(s))
    &&& s@ == t
    &&& obj_get_last(merged(v), "UserPerson"@) matches Some(JsonVal::Obj(ufs))
    &&& obj_get(ufs@, "id"@) matches Some(JsonVal::Int(m))
    &&& m == id
}

/// Decode a flattened session response down to the token and identity.
pub fn decode_session(body: &str) -> (r: Result<(String, i64), ApiError>)
    ensures
        r is Ok <==> (json_parse(body@) matches Some(v) && session_ok(v)),
        r matches Ok(p) ==> (json_parse(body@) matches Some(v) && is_session_of(v, p.0@, p.1)),
        r matches Err(e) ==> e == ApiError::Decode,
{
    let v = match parse_json(body) {
        Some(v) => v,
        None => { return Err(ApiError::Decode); },
    };
    let env = match decode_envelope(v) {
        Ok(env) => env,
        Err(e) => { return Err(e); },
    };
    if !check_flattened(&env.items) {
        return Err(ApiError::Decode);
    }
    let token = match flat_find(&env.items, &key("Token")) {
        Some(tv) => match tv {
            JsonVal::Obj(tfs) => match obj_find(tfs, &key("token")) {
                Some(sv) => match sv {
                    JsonVal::Str(s) => s.clone(),
                    _ => { return Err(ApiError::Decode); },
                },
                None => { return Err(ApiError::Decode); },
            },
            _ => { return Err(ApiError::Decode); },
        },
        None => { return Err(ApiError::Decode); },
    };
    match flat_find(&env.items, &key("UserPerson")) {
        Some(uv) => match uv {
            JsonVal::Obj(ufs) => match obj_find(ufs, &key("id")) {
                Some(iv) => match iv {
                    JsonVal::Int(id) => Ok((token, *id)),
                    _ => Err(ApiError::Decode),
                },
                None => Err(ApiError::Decode),
            },
            _ => Err(ApiError::Decode),
        },
        None => Err(ApiError::Decode),
    }
}

/// Where a handshake run stands.
#[derive(Debug)]
pub enum HsState {
    Start { cfg: BunqConfig },
    AwaitInstallation { api_key: String, pem_private: String },
    AwaitDeviceRegistration { api_key: String, pem_private: String, token: String },
    PendingSave { api_key: String, pem_private: String, token: String },
    AwaitSession { api_key: String, pem_private: String, token: String },
    Done { ready: BunqConfigReady },
    Failed { error: ApiError },
}

/// What the outside world hands the machine: the start signal, an HTTP
/// response, or the outcome of persisting the configuration.
#[derive(Debug)]
pub enum HsEvent {
    Begin,
    Response { status: u16, body: String },
    Saved { ok: bool },
}

/// What the machine asks the outside world to perform next.
#[derive(Debug)]
pub enum HsAction {
    PostInstallation { url: String, body: String },
    PostDeviceServer { url: String, auth: String, body: String },
    PostSessionServer { url: String, auth: String, signature: String, body: String },
    SaveState { api_key: String, pem_private: String, token: String },
}

/// The outcome of entering session creation: where the key text is a
/// valid RSA private key the signed request is issued, and otherwise the
/// run ends with a crypto error.
pub open spec fn session_post_ok(
    api_key: Seq<char>,
    pem: Seq<char>,
    token: Seq<char>,
    s2: HsState,
    a: Option<HsAction>,
) -> bool {
    if !rsa_key_ok(pem) {
        s2 == (HsState::Failed { error: ApiError::Crypto }) && a is None
    } else {
        &&& s2 matches HsState::AwaitSession { api_key: k2, pem_private: p2, token: t2 }
        &&& k2@ == api_key
        &&& p2@ == pem
        &&& t2@ == token
        &&& a matches Some(HsAction::PostSessionServer { url, auth, signature, body })
        &&& url@ == base_url() + "/v1/session-server"@
        &&& auth@ == token
        &&& body@ == session_body_spec(api_key)
        &&& signature@ == base64_enc(rsa_sha256_sig(pem, session_body_spec(api_key)))
    }
}

/// The transition relation of the handshake machine: everything
/// `handshake_step` may do for a state and an event. The outcome is pinned
/// except where a cryptographic call may fail, and except for the freshly
/// drawn key material.
pub open spec fn step_rel(s: HsState, e: HsEvent, s2: HsState, a: Option<HsAction>) -> bool {
    match (s, e) {
        (HsState::Start { cfg }, HsEvent::Begin) => match cfg.state {
            Some(st) => session_post_ok(cfg.api_key@, st.pem_private@, st.token@, s2, a),
            None => {
                ||| (s2 matches HsState::Failed { error } && error == ApiError::Crypto && a
                    is None)
                ||| {
                    &&& s2 matches HsState::AwaitInstallation { api_key: k2, pem_private: _p2 }
                    &&& k2@ == cfg.api_key@
                    &&& a matches Some(HsAction::PostInstallation { url, body })
                    &&& url@ == base_url() + "/v1/installation"@
                    &&& exists|pem_pub: Seq<char>| body@ == installation_body_spec(pem_pub)
                }
            },
        },
        (
            HsState::AwaitInstallation { api_key, pem_private },
            HsEvent::Response { status, body },
        ) => {
            if !(200 <= status < 300) {
                s2 == (HsState::Failed { error: ApiError::HttpStatus(status) }) && a is None
            } else if json_parse(body@) matches Some(v) && install_token_ok(v) {
                &&& s2 matches HsState::AwaitDeviceRegistration {
                    api_key: k2,
                    pem_private: p2,
                    token: t2,
                }
                &&& k2@ == api_key@
                &&& p2@ == pem_private@
                &&& json_parse(body@) matches Some(v2)
                &&& is_install_token_of(v2, t2@)
                &&& a matches Some(HsAction::PostDeviceServer { url, auth, body: b })
                &&& url@ == base_url() + "/v1/device-server"@
                &&& auth@ == t2@
                &&& b@ == device_body_spec(api_key@)
            } else {
                s2 == (HsState::Failed { error: ApiError::Decode }) && a is None
            }
        },
        (
            HsState::AwaitDeviceRegistration { api_key, pem_private, token },
            HsEvent::Response { status, body: _body },
        ) => {
            if !(200 <= status < 300) {
                s2 == (HsState::Failed { error: ApiError::HttpStatus(status) }) && a is None
            } else {
                &&& s2 matches HsState::PendingSave { api_key: k2, pem_private: p2, token: t2 }
                &&& k2@ == api_key@
                &&& p2@ == pem_private@
                &&& t2@ == token@
                &&& a matches Some(HsAction::SaveState { api_key: k3, pem_private: p3, token: t3 })
                &&& k3@ == api_key@
                &&& p3@ == pem_private@
                &&& t3@ == token@
            }
        },
        (HsState::PendingSave { api_key, pem_private, token }, HsEvent::Saved { ok }) => {
            if ok {
                session_post_ok(api_key@, pem_private@, token@, s2, a)
            } else {
                s2 == (HsState::Failed { error: ApiError::Persistence }) && a is None
            }
        },
        (
            HsState::AwaitSession { api_key: _k, pem_private, token: _t },
            HsEvent::Response { status, body },
        ) => {
            if !(200 <= status < 300) {
                s2 == (HsState::Failed { error: ApiError::HttpStatus(status) }) && a is None
            } else if json_parse(body@) matches Some(v) && session_ok(v) {
                &&& s2 matches HsState::Done { ready }
                &&& ready.keypair_pem@ == pem_private@
                &&& json_parse(body@) matches Some(v2)
                &&& is_session_of(v2, ready.token@, ready.user_id)
                &&& a is None
            } else {
                s2 == (HsState::Failed { error: ApiError::Decode }) && a is None
            }
        },
        _ => s2 == s && a is None,
    }
}

fn make_session_post(api_key: String, pem_private: String, token: String) -> (r: (
    HsState,
    Option<HsAction>,
))
    ensures
        session_post_ok(api_key@, pem_private@, token@, r.0, r.1),
{
    let body = session_body(api_key.as_str());
    match sign(body.as_str(), pem_private.as_str()) {
        Err(_) => (HsState::Failed { error: ApiError::Crypto }, None),
        Ok(signature) => {
            let url = session_server_url();
            let auth = token.clone();
            (
                HsState::AwaitSession { api_key, pem_private, token },
                Some(HsAction::PostSessionServer { url, auth, signature, body }),
            )
        },
    }
}

/// Drive the handshake one step: from a state and an incoming event to the
/// next state and the request (or persistence) the caller must perform.
/// The caller performs I/O only; every decision is taken here.
pub fn handshake_step(s: HsState, e: HsEvent) -> (r: (HsState, Option<HsAction>))
    ensures
        step_rel(s, e, r.0, r.1),
{
    match (s, e) {
        (HsState::Start { cfg }, HsEvent::Begin) => {
            let BunqConfig { api_key, state } = cfg;
            match state {
                Some(st) => make_session_post(api_key, st.pem_private, st.token),
                None => match generate_keypair() {
                    Err(_) => (HsState::Failed { error: ApiError::Crypto }, None),
                    Ok(km) => {
                        let url = installation_url();
                        let body = installation_body(km.public_pem.as_str());
                        proof {
                            assert(body@ == installation_body_spec(km.public_pem@));
                        }
                        (
                            HsState::AwaitInstallation {
                                api_key,
                                pem_private: km.private_pem,
                            },
                            Some(HsAction::PostInstallation { url, body }),
                        )
                    },
                },
            }
        },
        (
            HsState::AwaitInstallation { api_key, pem_private },
            HsEvent::Response { status, body },
        ) => {
            if !(200 <= status && status < 300) {
                (HsState::Failed { error: ApiError::HttpStatus(status) }, None)
            } else {
                match decode_install_token(body.as_str()) {
                    Ok(token) => {
                        let url = device_server_url();
                        let b = device_body(api_key.as_str());
                        let auth = token.clone();
                        (
                            HsState::AwaitDeviceRegistration { api_key, pem_private, token },
                            Some(HsAction::PostDeviceServer { url, auth, body: b }),
                        )
                    },
                    Err(_) => (HsState::Failed { error: ApiError::Decode }, None),
                }
            }
        },
        (
            HsState::AwaitDeviceRegistration { api_key, pem_private, token },
            HsEvent::Response { status, body: _body },
        ) => {
            if !(200 <= status && status < 300) {
                (HsState::Failed { error: ApiError::HttpStatus(status) }, None)
            } else {
                let k3 = api_key.clone();
                let p3 = pem_private.clone();
                let t3 = token.clone();
                (
                    HsState::PendingSave { api_key, pem_private, token },
                    Some(HsAction::SaveState { api_key: k3, pem_private: p3, token: t3 }),
                )
            }
        },
        (HsState::PendingSave { api_key, pem_private, token }, HsEvent::Saved { ok }) => {
            if ok {
                make_session_post(api_key, pem_private, token)
            } else {
                (HsState::Failed { error: ApiError::Persistence }, None)
            }
        },
        (
            HsState::AwaitSession { api_key: _, pem_private, token: _ },
            HsEvent::Response { status, body },
        ) => {
            if !(200 <= status && status < 300) {
                (HsState::Failed { error: ApiError::HttpStatus(status) }, None)
            } else {
                match decode_session(body.as_str()) {
                    Ok(p) => {
                        (
                            HsState::Done {
                                ready: BunqConfigReady {
                                    token: p.0,
                                    keypair_pem: pem_private,
                                    user_id: p.1,
                                },
                            },
                            None,
                        )
                    },
                    Err(_) => (HsState::Failed { error: ApiError::Decode }, None),
                }
            }
        },
        (other, _) => (other, None),
    }
}

/// With a persisted key and device token, a handshake run issues no
/// installation and no device-registration request: the only request its
/// first step can issue is session creation, and it issues that request
/// exactly when the persisted key text is a valid RSA private key.
pub proof fn lemma_handshake_skips_installation(cfg: BunqConfig, s2: HsState, a: Option<HsAction>)
    requires
        cfg.state is Some,
        step_rel(HsState::Start { cfg }, HsEvent::Begin, s2, a),
    ensures
        a matches Some(act) ==> act is PostSessionServer,
        s2 is AwaitSession || s2 is Failed,
        s2 is AwaitSession <==> a is Some,
        cfg.state matches Some(st) ==> (a is Some <==> rsa_key_ok(st.pem_private@)),
{
}

/// With no persisted state, the first step issues the installation
/// request and nothing else — and issues it exactly when key generation
/// succeeded.
pub proof fn lemma_handshake_fresh_first_request(
    cfg: BunqConfig,
    s2: HsState,
    a: Option<HsAction>,
)
    requires
        cfg.state is None,
        step_rel(HsState::Start { cfg }, HsEvent::Begin, s2, a),
    ensures
        a matches Some(act) ==> act is PostInstallation,
        s2 is AwaitInstallation || s2 is Failed,
        s2 is AwaitInstallation <==> a is Some,
{
}

/// The requests of a run come in the protocol's order, at most one per
/// stage: after installation only device registration can be asked for,
/// after device registration only the save, after the save only session
/// creation, and a finished or failed run asks for nothing.
pub proof fn lemma_handshake_request_order(s: HsState, e: HsEvent, s2: HsState, a: Option<HsAction>)
    requires
        step_rel(s, e, s2, a),
    ensures
        s is AwaitInstallation ==> (a matches Some(x) ==> x is PostDeviceServer),
        s is AwaitDeviceRegistration ==> (a matches Some(x) ==> x is SaveState),
        s is PendingSave ==> (a matches Some(x) ==> x is PostSessionServer),
        (s is Done || s is Failed) ==> a is None,
{
}

/// A fresh run that is answered successfully at every stage issues
/// exactly three requests, in protocol order — installation, then device
/// registration, then session creation — persists the state between the
/// second and the third, and asks for nothing once it is done. Each
/// `step_rel` premise is what `handshake_step` ensures of one step; the
/// success of a stage is witnessed by the state it reached.
pub proof fn lemma_handshake_fresh_run_in_order(
    cfg: BunqConfig,
    s1: HsState,
    a1: Option<HsAction>,
    e1: HsEvent,
    s2: HsState,
    a2: Option<HsAction>,
    e2: HsEvent,
    s3: HsState,
    a3: Option<HsAction>,
    e3: HsEvent,
    s4: HsState,
    a4: Option<HsAction>,
    e4: HsEvent,
    s5: HsState,
    a5: Option<HsAction>,
)
    requires
        cfg.state is None,
        step_rel(HsState::Start { cfg }, HsEvent::Begin, s1, a1),
        s1 is AwaitInstallation,
        step_rel(s1, e1, s2, a2),
        s2 is AwaitDeviceRegistration,
        step_rel(s2, e2, s3, a3),
        s3 is PendingSave,
        step_rel(s3, e3, s4, a4),
        s4 is AwaitSession,
        step_rel(s4, e4, s5, a5),
        s5 is Done,
    ensures
        a1 matches Some(x1) && x1 is PostInstallation,
        a2 matches Some(x2) && x2 is PostDeviceServer,
        a3 matches Some(x3) && x3 is SaveState,
        a4 matches Some(x4) && x4 is PostSessionServer,
        a5 is None,
{
}

/// Once the session request is in flight, or the run has ended, no further
/// request of any kind is ever issued: a run that starts from persisted
/// state performs exactly one request.
pub proof fn lemma_handshake_single_request(
    s: HsState,
    e: HsEvent,
    s2: HsState,
    a: Option<HsAction>,
)
    requires
        s is AwaitSession || s is Done || s is Failed,
        step_rel(s, e, s2, a),
    ensures
        a is None,
        s2 is AwaitSession || s2 is Done || s2 is Failed,
{
}

} // verus!
