use base64::engine::general_purpose::URL_SAFE_NO_PAD;
use base64::Engine;
use noap_server::config::{AppState, Environment};
use noap_server::flow::{Action, Event, Flow, PushAnswer, PushRequest, Step};
use noap_server::handlers::push;
use noap_server::handlers::push::{
    due_occurrence_key, minutes_to_hhmm, push_made, recife_now, same_secret, subtle_time_eq,
    validate_subscription, Sending, SubscribeReq, Sweep, Tally, WallClock,
};
use noap_server::http::{Body, Headers, Reply};
use noap_server::json::Json;
use noap_server::models::{Activity, ActivityTrigger, PushSubscription};
use noap_server::object_id::ObjectId;
use noap_server::time::UtcTime;
use noap_server::utils::crypto::Claims;
use noap_server::utils::object_id_from_str;
use openssl::bn::BigNumContext;
use openssl::derive::Deriver;
use openssl::ec::{EcGroup, EcKey, EcPoint, PointConversionForm};
use openssl::hash::MessageDigest;
use openssl::nid::Nid;
use openssl::pkey::{PKey, Private};
use openssl::sign::Signer;
use openssl::symm::{decrypt_aead, Cipher};

const USER: &str = "648a173ca6d551d5ee99e897";
const P256DH: &str =
    "BGa4N1PI79lboMR_YrwCiCsgp35DRvedt7opHcf0yM3iOBTSoQYqQLwWxAfRKE6tsDnReWmhsImkhDF_DBdkNSU";
const AUTH: &str = "EvcWjEgzr4rbvhfi3yds0A";

/// 22 September 2026, 09:02 in Recife.
const MORNING: UtcTime = UtcTime { secs: 1_790_078_520, nanos: 0 };

fn id(hex: &str) -> ObjectId {
    object_id_from_str(hex).unwrap()
}

fn claims(sub: &str) -> Claims {
    Claims { iss: "login-form".to_string(), sub: sub.to_string(), user: None, exp: 0 }
}

fn environment() -> Environment {
    Environment {
        mail_hostname: None,
        mail_port: None,
        mail_username: None,
        mail_password: None,
        host_mail: None,
        ipgeolocation_key: None,
        allowed_origins: None,
        cookie_secure: None,
        cookie_samesite: None,
        webauthn_rp_id: None,
        webauthn_origin: None,
        webauthn_rp_name: None,
        vapid_private_key: None,
        vapid_subject: None,
        cron_secret: None,
    }
}

fn app() -> AppState {
    AppState::from_env(environment(), "secret".to_string())
}

fn headers(authorization: Option<&str>) -> Headers {
    Headers {
        authorization: authorization.map(|a| a.to_string()),
        cookie: None,
        origin: None,
        referer: None,
        x_forwarded_for: None,
        x_real_ip: None,
        user_agent: None,
    }
}

fn activity(trigger_type: &str, time: &str, date: Option<&str>, enabled: bool) -> Activity {
    Activity {
        id: None,
        userId: id(USER),
        title: "Test".to_string(),
        description: None,
        triggerType: trigger_type.to_string(),
        trigger: ActivityTrigger {
            time: time.to_string(),
            date: date.map(|d| d.to_string()),
            weekdays: None,
        },
        enabled,
        lastPushKey: None,
        noteId: None,
        seenOccurrences: None,
        doneDates: None,
        lastTriggeredAt: None,
        createdAt: None,
        updatedAt: None,
    }
}

fn asked<S>(step: Step<S, Reply>) -> (Action, S) {
    match step {
        Step::Ask(action, after) => (action, after),
        Step::Done(reply) => panic!("done: {:?}", reply),
    }
}

fn done<S>(step: Step<S, Reply>) -> Reply {
    match step {
        Step::Done(reply) => reply,
        Step::Ask(action, _) => panic!("asks: {:?}", action),
    }
}

#[test]
fn daily_is_due_at_trigger_and_inside_grace() {
    let a = activity("daily", "09:00", None, true);
    assert_eq!(
        due_occurrence_key(&a, "22/09/2026", 9 * 60, "2026-09-22"),
        Some("daily:2026-09-22".to_string())
    );
    assert_eq!(
        due_occurrence_key(&a, "22/09/2026", 9 * 60 + 5, "2026-09-22"),
        Some("daily:2026-09-22".to_string())
    );
}

#[test]
fn daily_not_due_before_trigger_or_after_grace() {
    let a = activity("daily", "09:00", None, true);
    assert_eq!(due_occurrence_key(&a, "22/09/2026", 9 * 60 - 1, "2026-09-22"), None);
    assert_eq!(due_occurrence_key(&a, "22/09/2026", 9 * 60 + 6, "2026-09-22"), None);
}

#[test]
fn once_fires_only_on_its_day() {
    let a = activity("once", "09:00", Some("22/09/2026"), true);
    assert_eq!(
        due_occurrence_key(&a, "22/09/2026", 9 * 60 + 2, "2026-09-22"),
        Some("once:22/09/2026".to_string())
    );
    assert_eq!(due_occurrence_key(&a, "23/09/2026", 9 * 60 + 2, "2026-09-23"), None);
    assert_eq!(due_occurrence_key(&a, "21/09/2026", 9 * 60 + 2, "2026-09-21"), None);
}

#[test]
fn disabled_or_unknown_never_due() {
    assert_eq!(
        due_occurrence_key(
            &activity("daily", "09:00", None, false),
            "22/09/2026",
            9 * 60,
            "2026-09-22"
        ),
        None
    );
    assert_eq!(
        due_occurrence_key(
            &activity("weekly", "09:00", None, true),
            "22/09/2026",
            9 * 60,
            "2026-09-22"
        ),
        None
    );
}

fn subscription(endpoint: &str, p256dh: &str) -> SubscribeReq {
    SubscribeReq {
        endpoint: endpoint.to_string(),
        p256dh: p256dh.to_string(),
        auth: "EvcWjEgzr4rbvhfi3yds0A".to_string(),
        user_agent: None,
    }
}

#[test]
fn subscription_validation_rejects_non_https_and_blank_keys() {
    let mk = subscription;
    assert!(validate_subscription(&mk("https://fcm.googleapis.com/fcm/send/abc", "BGa4N1PI79lboMR_YrwCiCsgp35DRvedt7opHcf0yM3iOBTSoQYqQLwWxAfRKE6tsDnReWmhsImkhDF_DBdkNSU")).is_ok());
    assert!(validate_subscription(&mk("http://evil.example/sub", "BGa4N1PI79lboMR_YrwCiCsgp35DRvedt7opHcf0yM3iOBTSoQYqQLwWxAfRKE6tsDnReWmhsImkhDF_DBdkNSU")).is_err());
    assert!(validate_subscription(&mk("https://fcm.googleapis.com/fcm/send/abc", "  ")).is_err());
    assert!(validate_subscription(&mk("", "BGa4N1PI79lboMR_YrwCiCsgp35DRvedt7opHcf0yM3iOBTSoQYqQLwWxAfRKE6tsDnReWmhsImkhDF_DBdkNSU")).is_err());
}

#[test]
fn the_clock_of_recife() {
    let (today, minutes, key) = recife_now(MORNING);
    assert_eq!(today, "22/09/2026");
    assert_eq!(minutes, 9 * 60 + 2);
    assert_eq!(key, "2026-09-22");
    assert_eq!(minutes_to_hhmm(minutes), "09:02");
    assert_eq!(minutes_to_hhmm(0), "00:00");
    assert_eq!(minutes_to_hhmm(1500), "25:00");
    assert_eq!(minutes_to_hhmm(-61), "-1:-1");
}

#[test]
fn secrets_are_compared_whole() {
    assert!(same_secret("abc", "abc"));
    assert!(!same_secret("abc", "abd"));
    assert!(!same_secret("abc", "abcd"));
    assert!(subtle_time_eq(b"ab", b"ab"));
    assert!(!subtle_time_eq(b"ab", b"ba"));
    assert!(subtle_time_eq(b"ab", b"abc"));
}

#[test]
fn the_public_key_is_derived_from_the_private_one() {
    let key = push_app().vapid_public_key.unwrap();
    // 65 bytes, uncompressed: base64url begins with B.
    assert_eq!(key.len(), 87);
    assert!(key.starts_with('B'));
    let reply = push::vapid_key(&push_app());
    assert_eq!(reply.status, 200);
    match reply.body {
        Body::VapidKey(k) => assert_eq!(k, key),
        other => panic!("{:?}", other),
    }
    assert_eq!(push::vapid_key(&app()).status, 503);
}

fn push_app() -> AppState {
    let mut app = app();
    let env = Environment {
        vapid_private_key: Some("IQ9Ur0ykXoHS9gzfYX0aBjy9lvdrjx_PFUXmie9YRcY".to_string()),
        ..environment()
    };
    let keys = AppState::from_env(env, String::new());
    app.vapid_private_key = keys.vapid_private_key;
    app.vapid_public_key = keys.vapid_public_key;
    app
}

#[test]
fn subscriptions_are_kept_by_their_endpoint() {
    let url = "https://fcm.googleapis.com/fcm/send/abc";
    let step =
        push::subscribe(&claims(USER), &push_app(), USER, subscription(url, P256DH), MORNING);
    let (action, after) = asked(step);
    match action {
        Action::UpsertSubscription(s, at) => {
            assert_eq!(s.endpoint, url);
            assert_eq!(s.userId.to_hex(), USER);
            assert_eq!(s.p256dh, P256DH);
            assert_eq!(s.auth, AUTH);
            assert_eq!(at, MORNING);
        }
        other => panic!("{:?}", other),
    }
    assert_eq!(done(after.resume(&push_app(), Event::Done, MORNING)).status, 200);
    let off = push::subscribe(&claims(USER), &app(), USER, subscription(url, P256DH), MORNING);
    assert_eq!(done(off).status, 503);
    let other = "000000000000000000000001";
    let step =
        push::subscribe(&claims(other), &push_app(), USER, subscription(url, P256DH), MORNING);
    assert_eq!(done(step).status, 403);
}

/// A stored device: its owner, its keys, its agent and when it was created.
struct Kept {
    endpoint: String,
    owner: String,
    keys: (String, String),
    agent: String,
    created: UtcTime,
}

fn keep(rows: &mut Vec<Kept>, action: Action) {
    match action {
        Action::UpsertSubscription(s, at) => {
            let keys = (s.p256dh, s.auth);
            match rows.iter_mut().find(|r| r.endpoint == s.endpoint) {
                Some(row) => {
                    row.owner = s.userId.to_hex();
                    row.keys = keys;
                    row.agent = s.userAgent;
                }
                None => rows.push(Kept {
                    endpoint: s.endpoint,
                    owner: s.userId.to_hex(),
                    keys,
                    agent: s.userAgent,
                    created: at,
                }),
            }
        }
        other => panic!("{:?}", other),
    }
}

#[test]
fn a_device_is_stored_once() {
    let other = "000000000000000000000001";
    let later = UtcTime { secs: MORNING.secs + 60, nanos: 0 };
    let mut rows = Vec::new();
    let mine = subscription(" https://push.example/one", P256DH);
    keep(&mut rows, asked(push::subscribe(&claims(USER), &push_app(), USER, mine, MORNING)).0);
    let mut theirs = subscription("https://push.example/one ", &format!(" {P256DH} "));
    theirs.user_agent = Some("second".to_string());
    keep(&mut rows, asked(push::subscribe(&claims(other), &push_app(), other, theirs, later)).0);
    assert_eq!(rows.len(), 1);
    assert_eq!(rows[0].endpoint, "https://push.example/one");
    assert_eq!(rows[0].owner, other);
    assert_eq!(rows[0].keys, (P256DH.to_string(), AUTH.to_string()));
    assert_eq!(rows[0].agent, "second");
    assert_eq!(rows[0].created, MORNING);
}

#[test]
fn a_subscription_is_ended_by_its_endpoint() {
    let body = Json::Object(vec![("endpoint".to_string(), Json::Text(" https://a ".to_string()))]);
    match asked(push::unsubscribe(&claims(USER), USER, &body)).0 {
        Action::DeleteSubscriptionOf { user, endpoint } => {
            assert_eq!(user.to_hex(), USER);
            assert_eq!(endpoint, "https://a");
        }
        other => panic!("{:?}", other),
    }
    assert_eq!(done(push::unsubscribe(&claims(USER), USER, &Json::Null)).status, 400);
}

fn device(endpoint: &str) -> PushSubscription {
    PushSubscription {
        id: None,
        userId: id(USER),
        endpoint: endpoint.to_string(),
        p256dh: P256DH.to_string(),
        auth: AUTH.to_string(),
        userAgent: None,
        createdAt: None,
        updatedAt: None,
    }
}

fn due() -> Activity {
    let mut a = activity("daily", "09:00", None, true);
    a.id = Some(id("6ab290bf9c189ae12d54b155"));
    a
}

/// The sweep up to the first activity that it looks at.
fn first_claim(app: &AppState) -> (Action, Sweep) {
    let (action, after) = asked(push::cron_push_due(&headers(None), app, MORNING));
    match action {
        Action::ScanActivities { up_to } => assert_eq!(up_to, "09:02"),
        other => panic!("{:?}", other),
    }
    let (action, after) = asked(after.resume(app, Event::Done, MORNING));
    assert!(matches!(action, Action::NextActivity));
    asked(after.resume(app, Event::Activity(Some(due())), MORNING))
}

#[test]
fn a_due_occurrence_is_claimed_then_pushed_to_each_device() {
    let app = push_app();
    let (action, after) = first_claim(&app);
    match action {
        Action::ClaimOccurrence { key, .. } => assert_eq!(key, "daily:2026-09-22"),
        other => panic!("{:?}", other),
    }
    let (action, after) = asked(after.resume(&app, Event::Changed(true), MORNING));
    assert!(matches!(action, Action::SubscriptionsOfEither(_, _)));
    let devices = vec![device("https://push.example/one"), device("https://push.example/two")];
    let (action, after) = asked(after.resume(&app, Event::Subscriptions(devices), MORNING));
    let mut uris = Vec::new();
    let mut request = action;
    let mut state = after;
    for _ in 0..2 {
        match &request {
            Action::SendPush(push) => {
                uris.push(push.uri.clone());
                assert!(!push.body.is_empty());
                assert!(push.headers.iter().any(|(name, _)| {
                    name.eq_ignore_ascii_case("authorization")
                }));
            }
            other => panic!("{:?}", other),
        }
        let (next, after) =
            asked(state.resume(&app, Event::Pushed(PushAnswer::Status(201)), MORNING));
        request = next;
        state = after;
    }
    assert!(uris.contains(&"https://push.example/one".to_string()));
    assert!(uris.contains(&"https://push.example/two".to_string()));
    assert!(matches!(request, Action::NextActivity));
    match done(state.resume(&app, Event::Activity(None), MORNING)).body {
        Body::PushSweep { checked, pushed } => {
            assert_eq!(checked, 1);
            assert_eq!(pushed, 1);
        }
        other => panic!("{:?}", other),
    }
}

fn hmac(key: &[u8], data: &[&[u8]]) -> Vec<u8> {
    let key = PKey::hmac(key).unwrap();
    let mut signer = Signer::new(MessageDigest::sha256(), &key).unwrap();
    for part in data {
        signer.update(part).unwrap();
    }
    signer.sign_to_vec().unwrap()
}

/// Opens the body of a request as the device does.
fn open(body: &[u8], key: &EcKey<Private>, auth: &[u8]) -> String {
    let group = EcGroup::from_curve_name(Nid::X9_62_PRIME256V1).unwrap();
    let mut ctx = BigNumContext::new().unwrap();
    let form = PointConversionForm::UNCOMPRESSED;
    let mine = key.public_key().to_bytes(&group, form, &mut ctx).unwrap();
    let (salt, theirs, sealed) = (&body[..16], &body[21..86], &body[86..]);
    assert_eq!(body[20], 65);
    let point = EcPoint::from_bytes(&group, theirs, &mut ctx).unwrap();
    let peer = PKey::from_ec_key(EcKey::from_public_key(&group, &point).unwrap()).unwrap();
    let own = PKey::from_ec_key(key.clone()).unwrap();
    let mut deriver = Deriver::new(&own).unwrap();
    deriver.set_peer(&peer).unwrap();
    let shared = hmac(auth, &[&deriver.derive_to_vec().unwrap()]);
    let input = hmac(&shared, &[b"WebPush: info\0", &mine, theirs, &[1]]);
    let secret = hmac(salt, &[&input]);
    let cek = hmac(&secret, &[b"Content-Encoding: aes128gcm\0", &[1]]);
    let nonce = hmac(&secret, &[b"Content-Encoding: nonce\0", &[1]]);
    let (data, tag) = sealed.split_at(sealed.len() - 16);
    let cipher = Cipher::aes_128_gcm();
    let plain = decrypt_aead(cipher, &cek[..16], Some(&nonce[..12]), &[], data, tag).unwrap();
    let end = plain.iter().rposition(|b| *b != 0).unwrap();
    assert_eq!(plain[end], 2);
    String::from_utf8(plain[..end].to_vec()).unwrap()
}

#[test]
fn the_device_reads_the_notice_from_the_request() {
    let app = push_app();
    let group = EcGroup::from_curve_name(Nid::X9_62_PRIME256V1).unwrap();
    let key = EcKey::generate(&group).unwrap();
    let mut ctx = BigNumContext::new().unwrap();
    let form = PointConversionForm::UNCOMPRESSED;
    let mut mine = device("https://push.example/one");
    mine.p256dh =
        URL_SAFE_NO_PAD.encode(key.public_key().to_bytes(&group, form, &mut ctx).unwrap());
    let (_, after) = first_claim(&app);
    let (_, after) = asked(after.resume(&app, Event::Changed(true), MORNING));
    let request = match asked(after.resume(&app, Event::Subscriptions(vec![mine]), MORNING)).0 {
        Action::SendPush(request) => request,
        other => panic!("{:?}", other),
    };
    let text = open(&request.body, &key, &URL_SAFE_NO_PAD.decode(AUTH).unwrap());
    let notice: serde_json::Value = serde_json::from_str(&text).unwrap();
    assert_eq!(notice["title"], due().title);
    assert_eq!(notice["url"], "/");
    assert_eq!(notice["tag"], "noap-activity-6ab290bf9c189ae12d54b155-2026-09-22");
    assert_eq!(request.body.len(), 102 + 128 * (text.len() / 128 + 1));
    let value = |name: &str| {
        let found = request.headers.iter().find(|h| h.0 == name).unwrap();
        String::from_utf8(found.1.clone()).unwrap()
    };
    assert_eq!(value("ttl"), "86400");
    assert_eq!(value("urgency"), "high");
    assert_eq!(value("content-encoding"), "aes128gcm");
    let authorization = value("authorization");
    let (token, point) =
        authorization.strip_prefix("vapid t=").unwrap().split_once(", k=").unwrap();
    assert_eq!(Some(point), app.vapid_public_key.as_deref());
    let parts: Vec<&str> = token.split('.').collect();
    assert_eq!(parts.len(), 3);
    let claims = URL_SAFE_NO_PAD.decode(parts[1]).unwrap();
    let claims: serde_json::Value = serde_json::from_slice(&claims).unwrap();
    assert_eq!(claims["sub"], app.vapid_subject);
    assert_eq!(claims["aud"], "https://push.example");
}

#[test]
fn a_notification_is_sent_or_the_device_passed_over() {
    let sending = || Sending {
        clock: WallClock {
            today_br: "22/09/2026".to_string(),
            minutes: 542,
            today_key: "2026-09-22".to_string(),
        },
        tally: Tally { checked: 1, pushed: 0 },
        devices: vec![device("https://push.example/one"), device("https://push.example/two")],
        payload: "notice".to_string(),
        any_sent: false,
    };
    let request = PushRequest {
        uri: "https://push.example/two".to_string(),
        headers: Vec::new(),
        body: vec![1],
    };
    match push_made(Some(request), sending()) {
        Ok(Step::Ask(Action::SendPush(r), Sweep::Push { devices, payload, .. })) => {
            assert_eq!(r.body, [1]);
            assert_eq!(devices.len(), 2);
            assert_eq!(payload, "notice");
        }
        _ => panic!("nothing is sent"),
    }
    match push_made(None, sending()) {
        Err(left) => {
            assert_eq!(left.devices.len(), 1);
            assert_eq!(left.devices[0].endpoint, "https://push.example/one");
            assert_eq!(left.tally, Tally { checked: 1, pushed: 0 });
        }
        Ok(_) => panic!("something is sent"),
    }
}

#[test]
fn an_occurrence_that_another_sweep_claimed_is_not_pushed() {
    let app = push_app();
    let (_, after) = first_claim(&app);
    let (action, _) = asked(after.resume(&app, Event::Changed(false), MORNING));
    assert!(matches!(action, Action::NextActivity));
}

#[test]
fn one_sweep_at_most_sends_an_occurrence() {
    let app = push_app();
    let mut stored: Option<String> = None;
    let mut sent = 0;
    let sweeps = [first_claim(&app), first_claim(&app), first_claim(&app)];
    for (action, after) in sweeps {
        let key = match action {
            Action::ClaimOccurrence { key, .. } => key,
            other => panic!("{:?}", other),
        };
        let claimed = stored.as_ref() != Some(&key);
        stored = Some(key);
        let (action, after) = asked(after.resume(&app, Event::Changed(claimed), MORNING));
        if let Action::SubscriptionsOfEither(..) = action {
            let devices = vec![device("https://push.example/one")];
            let (action, _) = asked(after.resume(&app, Event::Subscriptions(devices), MORNING));
            assert!(matches!(action, Action::SendPush(_)));
            sent += 1;
        }
    }
    assert_eq!(sent, 1);
    assert_eq!(stored.as_deref(), Some("daily:2026-09-22"));
}

#[test]
fn a_key_of_the_wrong_length_signs_nothing() {
    let mut app = push_app();
    app.vapid_private_key = Some("AAAA".to_string());
    let (_, after) = first_claim(&app);
    let (_, after) = asked(after.resume(&app, Event::Changed(true), MORNING));
    let devices = vec![device("https://push.example/one")];
    let (action, _) = asked(after.resume(&app, Event::Subscriptions(devices), MORNING));
    assert!(matches!(action, Action::NextActivity));
}

#[test]
fn a_device_that_is_gone_is_forgotten() {
    let app = push_app();
    let (_, after) = first_claim(&app);
    let (_, after) = asked(after.resume(&app, Event::Changed(true), MORNING));
    let devices = vec![device("https://push.example/one")];
    let (_, after) = asked(after.resume(&app, Event::Subscriptions(devices), MORNING));
    let (action, _) =
        asked(after.resume(&app, Event::Pushed(PushAnswer::Status(410)), MORNING));
    match action {
        Action::DeleteSubscription { endpoint } => {
            assert_eq!(endpoint, "https://push.example/one");
        }
        other => panic!("{:?}", other),
    }
}

#[test]
fn the_sweep_asks_for_its_secret() {
    let mut app = push_app();
    app.cron_secret = Some("hush".to_string());
    assert_eq!(done(push::cron_push_due(&headers(None), &app, MORNING)).status, 401);
    let wrong = headers(Some("Bearer other"));
    assert_eq!(done(push::cron_push_due(&wrong, &app, MORNING)).status, 401);
    let right = headers(Some("Bearer hush"));
    assert!(matches!(push::cron_push_due(&right, &app, MORNING), Step::Ask(..)));
}
