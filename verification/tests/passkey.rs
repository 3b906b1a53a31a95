use base64::engine::general_purpose::URL_SAFE_NO_PAD;
use base64::Engine;
use noap_server::config::{AppState, Environment};
use noap_server::flow::{Action, Ceremony, Event, Flow, Step};
use noap_server::handlers::passkey;
use noap_server::handlers::passkey::authenticate::{
    assertion_checked, claim_read, AuthFinish, AuthStart, Offer,
};
use noap_server::handlers::passkey::register::{
    credential_checked, passkey_label, require_resident_key, RegisterFinish, RegisterStart,
};
use noap_server::handlers::passkey::{
    ceremony_filter, cred_id_string, load_passkeys, new_ceremony, AuthFinishReq, RegisterFinishReq,
    PK_AUTH_PURPOSE, PK_REG_PURPOSE,
};
use noap_server::http::{Body, Cookie, Cookies, Headers, Reply};
use noap_server::json::Json;
use noap_server::models::{PasskeyCredential, User};
use noap_server::object_id::ObjectId;
use noap_server::time::UtcTime;
use noap_server::utils::crypto::Claims;
use noap_server::utils::object_id_from_str;
use noap_server::utils::webauthn::{
    start_authentication, start_registration, user_uuid, Authenticated, Identified, Party,
    Registered,
};
use openssl::bn::BigNumContext;
use openssl::ec::{EcGroup, EcKey, PointConversionForm};
use openssl::hash::MessageDigest;
use openssl::nid::Nid;
use openssl::pkey::{PKey, Private};
use openssl::sign::Signer;
use serde_cbor_2::Value as Cbor;
use serde_json::Value;
use std::collections::BTreeMap;

const USER: &str = "0123456789abcdef01234567";
const NOW: UtcTime = UtcTime { secs: 1_790_000_000, nanos: 123_456_789 };

fn id(hex: &str) -> ObjectId {
    object_id_from_str(hex).unwrap()
}

fn claims(sub: &str) -> Claims {
    Claims { iss: "login-form".to_string(), sub: sub.to_string(), user: None, exp: 0 }
}

fn environment() -> Environment {
    Environment {
        mail_hostname: None,
        mail_port: None,
        mail_username: None,
        mail_password: None,
        host_mail: None,
        ipgeolocation_key: None,
        allowed_origins: None,
        cookie_secure: None,
        cookie_samesite: None,
        webauthn_rp_id: None,
        webauthn_origin: None,
        webauthn_rp_name: None,
        vapid_private_key: None,
        vapid_subject: None,
        cron_secret: None,
    }
}

fn app() -> AppState {
    AppState::from_env(environment(), "secret".to_string())
}

fn no_headers() -> Headers {
    Headers {
        authorization: None,
        cookie: None,
        origin: None,
        referer: None,
        x_forwarded_for: None,
        x_real_ip: None,
        user_agent: None,
    }
}

fn relying_party() -> Party<'static> {
    Party { id: "localhost", origin: "http://localhost:5173", name: "Noap" }
}

fn object(members: Vec<(&str, Value)>) -> Value {
    let mut map = serde_json::Map::new();
    for (name, value) in members {
        map.insert(name.to_string(), value);
    }
    Value::Object(map)
}

fn text(s: &str) -> Value {
    Value::String(s.to_string())
}

fn member<'a>(json: &'a Json, names: &[&str]) -> &'a Json {
    let mut at = json;
    for name in names {
        at = at.get(name).unwrap();
    }
    at
}

fn asked<S>(step: Step<S, Reply>) -> (Action, S) {
    match step {
        Step::Ask(action, after) => (action, after),
        Step::Done(reply) => panic!("done: {:?}", reply),
    }
}

fn done<S>(step: Step<S, Reply>) -> Reply {
    match step {
        Step::Done(reply) => reply,
        Step::Ask(action, _) => panic!("asks: {:?}", action),
    }
}

fn ceremony(state: &str) -> Ceremony {
    Ceremony {
        token: "opaque".to_string(),
        purpose: String::new(),
        subject: String::new(),
        state_json: state.to_string(),
        expires_at: NOW,
    }
}

fn user(hex: &str) -> User {
    User {
        id: Some(id(hex)),
        email: "test@example.com".to_string(),
        name: "Test".to_string(),
        password: None,
        verified: None,
        googleId: None,
        tfa_status: None,
        googleAccount: None,
        lastOpenedNote: None,
        settings: None,
    }
}

fn row(passkey: &str, cred_id: &str, owner: &str) -> PasskeyCredential {
    PasskeyCredential {
        id: None,
        userId: id(owner),
        cred_id: cred_id.to_string(),
        passkey_json: passkey.to_string(),
        label: None,
        createdAt: None,
        lastUsedAt: None,
    }
}

fn offer(assertion: &str) -> Offer {
    Offer {
        payload: AuthFinishReq {
            assertion: assertion.to_string(),
            stateToken: Some("opaque".to_string()),
            identifier: String::new(),
        },
        ua: "browser".to_string(),
    }
}

#[test]
fn ceremony_filter_binds_account_purpose_and_expiry() {
    let filter = ceremony_filter("opaque", PK_REG_PURPOSE, "account", NOW);
    assert_eq!(filter.token, "opaque");
    assert_eq!(filter.subject, "account");
    assert_eq!(filter.purpose, PK_REG_PURPOSE);
    assert_eq!(filter.expires_after, UtcTime { secs: NOW.secs, nanos: 123_000_000 });
}

#[test]
fn a_ceremony_is_used_once() {
    let began = NOW;
    let c = || new_ceremony(&vec![7u8; 32], PK_REG_PURPOSE, USER, "state".to_string(), began);
    let token = c().token;
    assert_eq!(token.len(), 43);
    assert!(token.chars().all(|d| d.is_ascii_alphanumeric() || d == '-' || d == '_'));
    let at = |secs: i64| UtcTime { secs: began.secs + secs, nanos: began.nanos };
    // A store that takes a ceremony away when it is found.
    let mut kept = vec![c()];
    let mut take = |purpose: &str, subject: &str, now: UtcTime| {
        let f = ceremony_filter(&token, purpose, subject, now);
        let found = kept.iter().position(|c| {
            c.token == f.token
                && c.purpose == f.purpose
                && c.subject == f.subject
                && f.expires_after.is_before(&c.expires_at)
        });
        found.map(|i| kept.remove(i).state_json)
    };
    assert_eq!(take(PK_AUTH_PURPOSE, USER, at(1)), None);
    assert_eq!(take(PK_REG_PURPOSE, "another", at(2)), None);
    assert_eq!(take(PK_REG_PURPOSE, USER, at(599)).as_deref(), Some("state"));
    assert_eq!(take(PK_REG_PURPOSE, USER, at(599)), None);
    let f = ceremony_filter(&token, PK_REG_PURPOSE, USER, at(600));
    assert!(!f.expires_after.is_before(&c().expires_at));
}

#[test]
fn the_state_keeps_the_challenge_of_the_options() {
    let handle = user_uuid(USER);
    let begun =
        start_registration(&relying_party(), &handle, "test@example.com", "Test", Vec::new())
            .unwrap();
    let state: Value = serde_json::from_str(&begun.state).unwrap();
    let challenge = begun.options.get_str("challenge").unwrap();
    assert_eq!(challenge.len(), 43);
    assert_eq!(state["rs"]["challenge"], challenge);
    let begun = start_authentication(&relying_party()).unwrap();
    let state: Value = serde_json::from_str(&begun.state).unwrap();
    assert_eq!(state["ast"]["challenge"], begun.options.get_str("challenge").unwrap());
}

/// A software authenticator with one credential.
struct Authenticator {
    key: PKey<Private>,
    credential_id: Vec<u8>,
    cose: Vec<u8>,
}

impl Authenticator {
    fn new(credential_id: Vec<u8>) -> Authenticator {
        let ec =
            EcKey::generate(&EcGroup::from_curve_name(Nid::X9_62_PRIME256V1).unwrap()).unwrap();
        let mut ctx = BigNumContext::new().unwrap();
        let point = ec
            .public_key()
            .to_bytes(ec.group(), PointConversionForm::UNCOMPRESSED, &mut ctx)
            .unwrap();
        let cose = Cbor::Map(BTreeMap::from([
            (Cbor::Integer(1), Cbor::Integer(2)),
            (Cbor::Integer(3), Cbor::Integer(-7)),
            (Cbor::Integer(-1), Cbor::Integer(1)),
            (Cbor::Integer(-2), Cbor::Bytes(point[1..33].to_vec())),
            (Cbor::Integer(-3), Cbor::Bytes(point[33..].to_vec())),
        ]));
        Authenticator {
            key: PKey::from_ec_key(ec).unwrap(),
            credential_id,
            cose: serde_cbor_2::to_vec(&cose).unwrap(),
        }
    }

    fn id(&self) -> String {
        URL_SAFE_NO_PAD.encode(&self.credential_id)
    }

    fn register(&self, challenge: &str) -> String {
        let mut auth_data = openssl::sha::sha256(b"localhost").to_vec();
        auth_data.push(0x45); // user present, verified, attested credential data
        auth_data.extend(0u32.to_be_bytes());
        auth_data.extend([0u8; 16]);
        auth_data.extend((self.credential_id.len() as u16).to_be_bytes());
        auth_data.extend(&self.credential_id);
        auth_data.extend(&self.cose);
        let attestation = Cbor::Map(BTreeMap::from([
            (Cbor::Text("fmt".into()), Cbor::Text("none".into())),
            (Cbor::Text("attStmt".into()), Cbor::Map(BTreeMap::new())),
            (Cbor::Text("authData".into()), Cbor::Bytes(auth_data)),
        ]));
        let client = object(vec![
            ("type", text("webauthn.create")),
            ("challenge", text(challenge)),
            ("origin", text("http://localhost:5173")),
            ("crossOrigin", Value::Bool(false)),
        ]);
        let response = object(vec![
            (
                "attestationObject",
                text(&URL_SAFE_NO_PAD.encode(serde_cbor_2::to_vec(&attestation).unwrap())),
            ),
            (
                "clientDataJSON",
                text(&URL_SAFE_NO_PAD.encode(serde_json::to_vec(&client).unwrap())),
            ),
        ]);
        object(vec![
            ("id", text(&self.id())),
            ("rawId", text(&self.id())),
            ("type", text("public-key")),
            ("extensions", object(vec![])),
            ("response", response),
        ])
        .to_string()
    }

    fn assertion(&self, origin: &str, challenge: &str, flags: u8, handle: &[u8]) -> Value {
        let client = serde_json::to_vec(&object(vec![
            ("type", text("webauthn.get")),
            ("challenge", text(challenge)),
            ("origin", text(origin)),
            ("crossOrigin", Value::Bool(false)),
        ]))
        .unwrap();
        let mut data = openssl::sha::sha256(b"localhost").to_vec();
        data.push(flags);
        data.extend(1u32.to_be_bytes());
        let mut signer = Signer::new(MessageDigest::sha256(), &self.key).unwrap();
        signer.update(&data).unwrap();
        signer.update(&openssl::sha::sha256(&client)).unwrap();
        let response = object(vec![
            ("authenticatorData", text(&URL_SAFE_NO_PAD.encode(data))),
            ("clientDataJSON", text(&URL_SAFE_NO_PAD.encode(client))),
            ("signature", text(&URL_SAFE_NO_PAD.encode(signer.sign_to_vec().unwrap()))),
            ("userHandle", text(&URL_SAFE_NO_PAD.encode(handle))),
        ]);
        object(vec![
            ("id", text(&self.id())),
            ("rawId", text(&self.id())),
            ("type", text("public-key")),
            ("extensions", object(vec![])),
            ("response", response),
        ])
    }
}

/// A passkey of `authenticator`, registered through the two requests.
fn registered_passkey(authenticator: &Authenticator, handle: &Vec<u8>) -> String {
    let begun =
        start_registration(&relying_party(), handle, "test@example.com", "Test", Vec::new())
            .unwrap();
    let challenge = begun.options.get_str("challenge").unwrap();
    let payload = RegisterFinishReq {
        credential: authenticator.register(challenge),
        stateToken: Some("opaque".to_string()),
        label: None,
    };
    let flow = RegisterFinish::Taken { uid: id(USER), payload };
    let taken = Event::Taken(Some(ceremony(&begun.state)));
    let (action, after) = asked(flow.resume(&app(), taken, NOW));
    match action {
        Action::PasskeyByCredential(cred_id) => assert_eq!(cred_id, authenticator.id()),
        other => panic!("{:?}", other),
    }
    match after {
        RegisterFinish::Existing { passkey, .. } => passkey,
        _ => panic!("no passkey"),
    }
}

/// What an assertion comes to with a stored passkey: the step after the check.
fn check(assertion: &str, state: &str, passkey: &str, credential: &str) -> Step<AuthFinish, Reply> {
    let flow = AuthFinish::Taken { offer: offer(assertion) };
    let taken = Event::Taken(Some(ceremony(state)));
    let (action, after) = asked(flow.resume(&app(), taken, NOW));
    match action {
        Action::PasskeyByCredential(cred_id) => assert_eq!(cred_id, credential),
        other => panic!("{:?}", other),
    }
    match &after {
        AuthFinish::Passkey { handle, .. } => assert_eq!(*handle, user_uuid(USER)),
        _ => panic!("no claim"),
    }
    let found = Event::Passkey(Some(row(passkey, credential, USER)));
    after.resume(&app(), found, NOW)
}

// Exercise actual registration and signed authentication using a software
// authenticator. No browser, production secrets, or database are required.
#[test]
fn discoverable_ceremony_verifies_signature_challenge_origin_and_uv() {
    let party = relying_party();
    let handle = user_uuid("0123456789abcdef01234567");
    let authenticator = Authenticator::new(vec![42u8; 32]);
    let credential = authenticator.id();
    let begun =
        start_registration(&party, &handle, "test@example.com", "Test", Vec::new()).unwrap();
    assert!(begun.options.get_str("challenge").is_some());
    assert_eq!(
        member(&begun.options, &["authenticatorSelection", "userVerification"]).as_str(),
        Some("required")
    );
    let passkey = registered_passkey(&authenticator, &handle);
    let begun = start_authentication(&party).unwrap();
    assert_eq!(begun.options.get_str("userVerification"), Some("required"));
    let challenge = begun.options.get_str("challenge").unwrap();
    let good = authenticator.assertion("http://localhost:5173", challenge, 5, &handle);
    let updated = match asked(check(&good.to_string(), &begun.state, &passkey, &credential)).0 {
        Action::UpdatePasskey { cred_id, previous, passkey_json, at } => {
            assert_eq!(cred_id, credential);
            assert_eq!(previous, passkey);
            assert_eq!(at, NOW);
            passkey_json
        }
        other => panic!("{:?}", other),
    };
    let wrong_challenge = URL_SAFE_NO_PAD.encode([7u8; 32]);
    for bad in [
        authenticator.assertion("https://attacker.example", challenge, 5, &handle),
        authenticator.assertion("http://localhost:5173", &wrong_challenge, 5, &handle),
        authenticator.assertion("http://localhost:5173", challenge, 1, &handle),
    ] {
        let step = check(&bad.to_string(), &begun.state, &passkey, &credential);
        assert_eq!(done(step).status, 401);
    }
    let mut tampered = good.clone();
    tampered["response"]["signature"] = text(&URL_SAFE_NO_PAD.encode([0u8; 64]));
    let step = check(&tampered.to_string(), &begun.state, &passkey, &credential);
    assert_eq!(done(step).status, 401);
    // The counter went up: the passkey has changed, and the same assertion is
    // not accepted again.
    assert_ne!(updated, passkey);
    let step = check(&good.to_string(), &begun.state, &updated, &credential);
    assert_eq!(done(step).status, 401);
    // No stored passkey, no sign-in.
    let flow = AuthFinish::Taken { offer: offer(&good.to_string()) };
    let taken = Event::Taken(Some(ceremony(&begun.state)));
    let (_, after) = asked(flow.resume(&app(), taken, NOW));
    assert_eq!(done(after.resume(&app(), Event::Passkey(None), NOW)).status, 401);
}

#[test]
fn a_passkey_of_another_owner_is_denied() {
    let handle = user_uuid(USER);
    let authenticator = Authenticator::new(vec![7u8; 16]);
    let passkey = registered_passkey(&authenticator, &handle);
    let begun = start_authentication(&relying_party()).unwrap();
    let challenge = begun.options.get_str("challenge").unwrap();
    let good = authenticator.assertion("http://localhost:5173", challenge, 5, &handle).to_string();
    let flow = AuthFinish::Taken { offer: offer(&good) };
    let taken = Event::Taken(Some(ceremony(&begun.state)));
    let (_, after) = asked(flow.resume(&app(), taken, NOW));
    let other = row(&passkey, &authenticator.id(), "000000000000000000000001");
    assert_eq!(done(after.resume(&app(), Event::Passkey(Some(other)), NOW)).status, 401);
}

#[test]
fn registration_leaves_out_the_passkeys_that_the_user_has() {
    let handle = user_uuid(USER);
    let authenticator = Authenticator::new(vec![9u8; 20]);
    let passkey = registered_passkey(&authenticator, &handle);
    let rows = vec![
        row("not a passkey", "x", USER),
        row(&passkey, &authenticator.id(), USER),
    ];
    assert_eq!(load_passkeys(&rows), vec![vec![9u8; 20]]);
    let (action, after) = asked(passkey::register_start(&claims(USER)));
    assert!(matches!(action, Action::UserById(_)));
    let (action, after) = asked(after.resume(&app(), Event::User(Some(user(USER))), NOW));
    match action {
        Action::Limit { key, max_attempts, window_secs } => {
            assert_eq!(key, format!("pk-register:{}", USER));
            assert_eq!(max_attempts, 10);
            assert_eq!(window_secs, 600);
        }
        other => panic!("{:?}", other),
    }
    let (action, after) = asked(after.resume(&app(), Event::Allowed, NOW));
    assert!(matches!(action, Action::PasskeysOf(_)));
    let (action, after) = asked(after.resume(&app(), Event::Passkeys(rows), NOW));
    let token = match action {
        Action::StoreCeremony(c) => {
            assert_eq!(c.purpose, PK_REG_PURPOSE);
            assert_eq!(c.subject, USER);
            assert_eq!(c.expires_at, UtcTime { secs: NOW.secs + 600, nanos: 123_000_000 });
            assert_eq!(URL_SAFE_NO_PAD.decode(&c.token).unwrap().len(), 32);
            c.token
        }
        other => panic!("{:?}", other),
    };
    match done(after.resume(&app(), Event::Done, NOW)).body {
        Body::PasskeyOptions { options, state_token } => {
            assert_eq!(state_token, token);
            assert_eq!(
                member(&options, &["authenticatorSelection", "residentKey"]).as_str(),
                Some("required")
            );
            assert_eq!(
                member(&options, &["authenticatorSelection", "requireResidentKey"]).as_bool(),
                Some(true)
            );
            assert_eq!(member(&options, &["user", "name"]).as_str(), Some("test@example.com"));
            assert_eq!(member(&options, &["rp", "id"]).as_str(), Some("localhost"));
            match options.get("excludeCredentials").unwrap() {
                Json::Array(items) => {
                    assert_eq!(items.len(), 1);
                    assert_eq!(items[0].get_str("id"), Some(authenticator.id().as_str()));
                }
                other => panic!("{:?}", other),
            }
        }
        other => panic!("{:?}", other),
    }
}

#[test]
fn a_registration_does_not_begin_without_a_name_or_a_site() {
    let mut nameless = user(USER);
    nameless.name = String::new();
    let flow = RegisterStart::Passkeys { uid: id(USER), user: nameless };
    let reply = done(flow.resume(&app(), Event::Passkeys(Vec::new()), NOW));
    assert_eq!(reply.status, 400);
    let mut elsewhere = app();
    elsewhere.webauthn_rp_id = "example.com".to_string();
    let flow = RegisterStart::Passkeys { uid: id(USER), user: user(USER) };
    let reply = done(flow.resume(&elsewhere, Event::Passkeys(Vec::new()), NOW));
    assert_eq!(reply.status, 500);
    assert!(!Party { id: "example.com", origin: "http://localhost:5173", name: "x" }.check());
    assert!(!Party { id: "localhost", origin: "not a url", name: "x" }.check());
    assert!(relying_party().check());
}

#[test]
fn a_registration_ends_with_a_row() {
    let req = RegisterFinishReq {
        credential: "{}".to_string(),
        stateToken: Some("opaque".to_string()),
        label: Some("  Phone ".to_string()),
    };
    let (action, after) = asked(passkey::register_finish(&claims(USER), req, NOW));
    match action {
        Action::TakeCeremony(f) => {
            assert_eq!(f.token, "opaque");
            assert_eq!(f.subject, USER);
        }
        other => panic!("{:?}", other),
    }
    assert_eq!(done(after.resume(&app(), Event::Taken(None), NOW)).status, 400);
    let outcome = Registered { credential_id: vec![1, 2, 3], passkey: "key".to_string() };
    let step = credential_checked(id(USER), Some(outcome), Some("  Phone ".to_string()));
    let (action, after) = asked(step);
    match action {
        Action::PasskeyByCredential(c) => assert_eq!(c, "AQID"),
        other => panic!("{:?}", other),
    }
    let (action, after) = asked(after.resume(&app(), Event::Passkey(None), NOW));
    match action {
        Action::InsertPasskey(p) => {
            assert_eq!(p.cred_id, "AQID");
            assert_eq!(p.passkey_json, "key");
            assert_eq!(p.label.as_deref(), Some("Phone"));
            assert_eq!(p.createdAt, Some(NOW));
            assert_eq!(p.userId.to_hex(), USER);
        }
        other => panic!("{:?}", other),
    }
    assert_eq!(done(after.resume(&app(), Event::Done, NOW)).status, 200);
    assert_eq!(done(RegisterFinish::Insert.resume(&app(), Event::Duplicate, NOW)).status, 400);
    assert_eq!(done(RegisterFinish::Insert.resume(&app(), Event::Failed, NOW)).status, 500);
    assert_eq!(done(credential_checked(id(USER), None, None)).status, 400);
}

#[test]
fn a_rejected_credential_and_a_broken_state_differ() {
    let begun = start_registration(
        &relying_party(),
        &user_uuid(USER),
        "test@example.com",
        "Test",
        Vec::new(),
    )
    .unwrap();
    for (state, expected) in [(begun.state.as_str(), 400), ("{}", 500)] {
        let payload = RegisterFinishReq {
            credential: "{}".to_string(),
            stateToken: None,
            label: None,
        };
        let flow = RegisterFinish::Taken { uid: id(USER), payload };
        let step = flow.resume(&app(), Event::Taken(Some(ceremony(state))), NOW);
        assert_eq!(done(step).status, expected);
    }
    let begun = start_authentication(&relying_party()).unwrap();
    for (state, expected) in [(begun.state.as_str(), 401), ("{}", 500)] {
        let flow = AuthFinish::Taken { offer: offer("{}") };
        let step = flow.resume(&app(), Event::Taken(Some(ceremony(state))), NOW);
        assert_eq!(done(step).status, expected);
    }
}

#[test]
fn labels_are_trimmed_and_cut() {
    assert_eq!(passkey_label(None), "Passkey");
    assert_eq!(passkey_label(Some("   ".to_string())), "Passkey");
    assert_eq!(passkey_label(Some(" a ".to_string())), "a");
    assert_eq!(passkey_label(Some("x".repeat(80))), "x".repeat(64));
}

#[test]
fn only_objects_are_asked_for_a_resident_key() {
    assert!(matches!(require_resident_key(Json::Null), Json::Null));
    let options = Json::Object(vec![
        ("authenticatorSelection".to_string(), Json::Object(Vec::new())),
        ("timeout".to_string(), Json::Bool(true)),
    ]);
    let options = require_resident_key(options);
    assert_eq!(
        member(&options, &["authenticatorSelection", "residentKey"]).as_str(),
        Some("required")
    );
    assert_eq!(member(&options, &["timeout"]).as_bool(), Some(true));
}

#[test]
fn a_sign_in_begins_without_a_subject() {
    let (action, after) = asked(passkey::auth_start(&no_headers()));
    assert!(matches!(action, Action::Limit { max_attempts: 20, window_secs: 600, .. }));
    let (action, after) = asked(after.resume(&app(), Event::Allowed, NOW));
    match action {
        Action::StoreCeremony(c) => {
            assert_eq!(c.purpose, PK_AUTH_PURPOSE);
            assert_eq!(c.subject, "");
        }
        other => panic!("{:?}", other),
    }
    match done(after.resume(&app(), Event::Done, NOW)).body {
        Body::PasskeyOptions { options, .. } => {
            assert_eq!(options.get_str("rpId"), Some("localhost"));
        }
        other => panic!("{:?}", other),
    }
    assert_eq!(done(AuthStart::Limit.resume(&app(), Event::Limited, NOW)).status, 429);
}

#[test]
fn a_checked_assertion_opens_a_session() {
    let outcome = Authenticated {
        user_verified: true,
        changed: Some(false),
        passkey: "new".to_string(),
    };
    let stored = row("old", "AQID", USER);
    let step = assertion_checked(Some(outcome), stored, offer("{}"), "AQID".to_string(), NOW);
    let (action, after) = asked(step);
    match action {
        Action::UpdatePasskey { passkey_json, previous, .. } => {
            assert_eq!(passkey_json, "old");
            assert_eq!(previous, "old");
        }
        other => panic!("{:?}", other),
    }
    let (action, after) = asked(after.resume(&app(), Event::Count(1), NOW));
    assert!(matches!(action, Action::UserById(_)));
    let (action, after) = asked(after.resume(&app(), Event::User(Some(user(USER))), NOW));
    let token = match action {
        Action::InsertSession(s) => {
            assert_eq!(s.browserData, "browser");
            assert_eq!(s.expAt, NOW.secs + 604_800);
            s.token
        }
        other => panic!("{:?}", other),
    };
    let reply = done(after.resume(&app(), Event::Done, NOW));
    assert_eq!(reply.status, 200);
    match reply.cookies {
        Cookies::Two(Cookie::Session { token: t, max_age_secs }, Cookie::ClearTfa) => {
            assert_eq!(t, token);
            assert_eq!(max_age_secs, 604_800);
        }
        other => panic!("{:?}", other),
    }
    assert!(matches!(reply.body, Body::PasskeySignedIn { .. }));
}

#[test]
fn an_unverified_user_or_a_stale_passkey_gets_no_session() {
    let outcome = Authenticated { user_verified: false, changed: None, passkey: String::new() };
    let stored = row("old", "AQID", USER);
    let step = assertion_checked(Some(outcome), stored, offer("{}"), "AQID".to_string(), NOW);
    assert_eq!(done(step).status, 401);
    let flow = AuthFinish::Update { offer: offer("{}"), uid: id(USER) };
    assert_eq!(done(flow.resume(&app(), Event::Count(0), NOW)).status, 401);
    assert_eq!(done(claim_read(None, offer("{}"), String::new())).status, 401);
    let claim = Identified { handle: vec![0; 16], credential_id: vec![1, 2, 3] };
    let (action, _) = asked(claim_read(Some(claim), offer("{}"), String::new()));
    match action {
        Action::PasskeyByCredential(c) => assert_eq!(c, "AQID"),
        other => panic!("{:?}", other),
    }
}

#[test]
fn passkeys_are_listed_without_keys_and_removed_by_their_owner() {
    let (_, after) = asked(passkey::list(&claims(USER)));
    let rows = vec![row("key material", "AQID", USER)];
    let reply = done(after.resume(&app(), Event::Passkeys(rows), NOW));
    assert!(!format!("{:?}", reply).contains("key material"));
    assert!(format!("{:?}", reply).contains("AQID"));
    let (action, after) = asked(passkey::remove(&claims(USER), "AQID".to_string()));
    match action {
        Action::DeletePasskey { user, cred_id } => {
            assert_eq!(user.to_hex(), USER);
            assert_eq!(cred_id, "AQID");
        }
        other => panic!("{:?}", other),
    }
    assert_eq!(done(after.resume(&app(), Event::Count(1), NOW)).status, 200);
    let (_, after) = asked(passkey::remove(&claims(USER), "AQID".to_string()));
    assert_eq!(done(after.resume(&app(), Event::Count(0), NOW)).status, 400);
    assert_eq!(done(passkey::list(&claims("nobody"))).status, 400);
}

#[test]
fn handles_are_version_five_uuids() {
    let handle = user_uuid("www.example.com");
    assert_eq!(handle.len(), 16);
    assert_eq!(handle[6] >> 4, 5);
    assert_ne!(handle, user_uuid(USER));
    assert_eq!(user_uuid(USER), user_uuid(USER));
}

#[test]
fn ceremonies_carry_random_tokens() {
    let c = new_ceremony(&vec![0u8; 32], PK_REG_PURPOSE, USER, "state".to_string(), NOW);
    assert_eq!(c.token, "A".repeat(43));
    assert_eq!(c.state_json, "state");
    assert_eq!(cred_id_string(&vec![255, 254]), "__4");
}
