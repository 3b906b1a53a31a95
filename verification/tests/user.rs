use noap_server::config::{AppState, Environment};
use noap_server::flow::{Action, Event, Flow, GoogleAnswer, Step, UserChange};
use noap_server::handlers::user;
use noap_server::handlers::user::account::{answer_password, store_first_password, VerifyToken};
use noap_server::handlers::user::recovery::{
    code_text, issue_code, may_act_for, store_password, FindCode, VerifyOtp,
};
use noap_server::handlers::user::settings::{ChangeSetting, Setting};
use noap_server::handlers::user::sign_in::{
    conclude_sign_in, create_user, pending_reply, GoogleLogin, SignIn,
};
use noap_server::handlers::user::tfa::{enrol_key, Attempt, GenerateTfa, RemoveTfa, VerifyTfa};
use noap_server::handlers::user::{
    account_rate_key, mint_session, validate_password, verify_google_token, ChangePassReq,
    ConditionReq, ConvertNormalReq, FindUserReq, Gen2FAReq, GlobalBgReq, GoogleLoginReq,
    LastOpenedReq, LoginReq, OnLoginReq, Remove2FAReq, SessionMeta, SignUpReq, ThemeReq,
    Verify2FAReq, VerifyOtpReq, VerifyTokenReq, VerifyUserReq, VisualizationReq,
};
use noap_server::http::{Body, Cookie, Cookies, Headers, Reply};
use noap_server::json::Json;
use noap_server::models::{Otp, Session, Tfa, TfaOptions, User, UserSettings};
use noap_server::object_id::ObjectId;
use noap_server::time::UtcTime;
use noap_server::utils::crypto::{
    create_reset_token, create_tfa_token, create_token_at, decode_token, hash_password,
    verify_password, verify_reset_token, verify_tfa_token, Claims, JwtSub,
};
use noap_server::utils::geo::{geo_info, IpGeoResponse};
use noap_server::utils::object_id_from_str;
use noap_server::utils::totp::{check_code, enrol};

const USER: &str = "648a173ca6d551d5ee99e897";
const OTHER: &str = "000000000000000000000001";
const NOW: UtcTime = UtcTime { secs: 1_790_000_000, nanos: 5 };

fn later(secs: i64) -> UtcTime {
    UtcTime { secs: NOW.secs + secs, nanos: NOW.nanos }
}

fn id(hex: &str) -> ObjectId {
    object_id_from_str(hex).unwrap()
}

fn claims(sub: &str) -> Claims {
    Claims { iss: "login-form".to_string(), sub: sub.to_string(), user: None, exp: 0 }
}

fn environment() -> Environment {
    Environment {
        mail_hostname: None,
        mail_port: None,
        mail_username: None,
        mail_password: None,
        host_mail: None,
        ipgeolocation_key: None,
        allowed_origins: None,
        cookie_secure: None,
        cookie_samesite: None,
        webauthn_rp_id: None,
        webauthn_origin: None,
        webauthn_rp_name: None,
        vapid_private_key: None,
        vapid_subject: None,
        cron_secret: None,
    }
}

fn app() -> AppState {
    AppState::from_env(environment(), "secret".to_string())
}

fn headers() -> Headers {
    Headers {
        authorization: None,
        cookie: None,
        origin: None,
        referer: None,
        x_forwarded_for: Some("1.2.3.4".to_string()),
        x_real_ip: None,
        user_agent: Some("browser".to_string()),
    }
}

fn account(password: Option<&str>) -> User {
    User {
        id: Some(id(USER)),
        email: "ann@example.com".to_string(),
        name: "Ann".to_string(),
        password: password.map(|p| p.to_string()),
        verified: None,
        googleId: None,
        tfa_status: None,
        googleAccount: Some(false),
        lastOpenedNote: None,
        settings: None,
    }
}

fn login(password: &str) -> LoginReq {
    LoginReq {
        email: "ann@example.com".to_string(),
        password: password.to_string(),
        identifier: String::new(),
    }
}

fn asked<S>(step: Step<S, Reply>) -> (Action, S) {
    match step {
        Step::Ask(action, after) => (action, after),
        Step::Done(reply) => panic!("done: {:?}", reply),
    }
}

fn done<S>(step: Step<S, Reply>) -> Reply {
    match step {
        Step::Done(reply) => reply,
        Step::Ask(action, _) => panic!("asks: {:?}", action),
    }
}

fn says<S>(step: Step<S, Reply>) -> String {
    match done(step).body {
        Body::Message(m) => m.to_string(),
        Body::Coded(m, code) => format!("{} ({})", m, code),
        other => format!("{:?}", other),
    }
}

fn new_session(action: Action) -> Session {
    match action {
        Action::InsertSession(s) => s,
        other => panic!("{:?}", other),
    }
}

// ---------- passwords and budgets ----------

#[test]
fn passwords_have_six_to_128_bytes() {
    assert!(validate_password("12345").is_err());
    assert!(validate_password("123456").is_ok());
    assert!(validate_password("éé").is_err());
    assert!(validate_password("ééé").is_ok());
    assert!(validate_password(&"x".repeat(128)).is_ok());
    assert!(validate_password(&"x".repeat(129)).is_err());
}

#[test]
fn a_hash_accepts_its_password_alone() {
    let hash = hash_password("secret1").unwrap();
    assert_ne!(hash, "secret1");
    assert!(hash.starts_with("$2b$10$"));
    assert_eq!(hash.len(), 60);
    assert_eq!(verify_password("secret1", &hash), Some(true));
    assert_eq!(verify_password("secret2", &hash), Some(false));
    assert_eq!(verify_password("secret1", "no hash"), None);
}

#[test]
fn account_keys_are_folded() {
    assert_eq!(
        account_rate_key("find-user-acct", "  Ann+Tag@Example.com "),
        "find-user-acct:anntag@example.com"
    );
}

#[test]
fn account_keys_are_canonical() {
    for id in ["Ann@Example.com", "JO\u{e3}O@x.y", "\u{212a}elvin", "a".repeat(200).as_str(), "+"] {
        let key = account_rate_key("s", id);
        let part = key.strip_prefix("s:").unwrap();
        assert!(!part.is_empty() && part.len() <= 128);
        assert!(part.chars().all(|c| {
            c.is_ascii_lowercase() || c.is_ascii_digit() || ".@_-".contains(c)
        }));
        assert_eq!(account_rate_key("s", part), key);
        assert_eq!(account_rate_key("s", &id.to_ascii_uppercase()), key);
        assert_eq!(account_rate_key("s", &format!(" \t{id}\u{a0}")), key);
    }
    assert_eq!(account_rate_key("s", "JO\u{e3}O@x.y"), "s:joo@x.y");
    assert_eq!(account_rate_key("s", "\u{212a}elvin"), "s:kelvin");
    assert_eq!(account_rate_key("s", "+ \u{e3} +"), "s:unknown");
    for id in ["+ \u{e3} +", "\u{3000}", "\u{a0}\u{3a3}\u{2028}", ""] {
        let kept = |c: char| c.is_ascii_lowercase() || c.is_ascii_digit() || ".@_-".contains(c);
        assert!(!id.to_lowercase().chars().any(kept));
        assert_eq!(account_rate_key("s", id), "s:unknown");
    }
    // White space around a word changes nothing in it, not even at its end.
    let word = "\u{391}\u{3a3}";
    assert_eq!(format!("\u{a0}{word}\u{3000}").to_lowercase(), format!("\u{a0}{}\u{3000}", word.to_lowercase()));
}

// ---------- signing up and in ----------

fn sign_up(name: &str, email: &str, password: &str) -> SignUpReq {
    SignUpReq {
        name: name.to_string(),
        email: email.to_string(),
        password: password.to_string(),
    }
}

#[test]
fn a_new_user_can_sign_in() {
    let (action, after) = asked(user::sign_up(sign_up("Ann", "ann@example.com", "secret1")));
    assert!(matches!(action, Action::UserByEmail(_)));
    let (action, after) = asked(after.resume(&app(), Event::User(None), NOW));
    let mut created = match action {
        Action::InsertUser(u) => u,
        other => panic!("{:?}", other),
    };
    assert_eq!(created.googleAccount, Some(false));
    assert_eq!(created.settings.as_ref().unwrap().theme.as_deref(), Some("dark"));
    assert_eq!(created.settings.as_ref().unwrap().noteTextExpanded, Some(true));
    assert_eq!(done(after.resume(&app(), Event::Done, NOW)).status, 200);
    created.id = Some(id(USER));

    let (action, after) = asked(user::sign_in(&headers(), login("secret1")));
    match action {
        Action::Limit { key, max_attempts, window_secs } => {
            assert_eq!(key, "signin:1.2.3.4");
            assert_eq!(max_attempts, 20);
            assert_eq!(window_secs, 600);
        }
        other => panic!("{:?}", other),
    }
    let (_, after) = asked(after.resume(&app(), Event::Allowed, NOW));
    let (action, after) = asked(after.resume(&app(), Event::User(Some(created)), NOW));
    let session = new_session(action);
    assert_eq!(session.ip, "Unknown");
    assert_eq!(session.browserData, "browser");
    assert_eq!(session.location, "Unknown, Unknown, Unknown");
    let read = decode_token(&session.token, "secret").unwrap();
    assert_eq!(read.sub, USER);
    assert_eq!(read.exp, (NOW.secs + 604_800) as u64);
    let reply = done(after.resume(&app(), Event::Done, NOW));
    match reply.cookies {
        Cookies::One(Cookie::Session { token, max_age_secs }) => {
            assert_eq!(token, session.token);
            assert_eq!(max_age_secs, 604_800);
        }
        other => panic!("{:?}", other),
    }
    assert!(matches!(reply.body, Body::SignedIn { tfa_enabled: false, .. }));
}

#[test]
fn a_sign_up_is_checked() {
    assert!(says(user::sign_up(sign_up("Ann", "a@b.c", "short"))).contains("Password"));
    assert_eq!(
        says(user::sign_up(sign_up("  ", "a@b.c", "secret1"))),
        "Name and email are required!"
    );
    let (_, after) = asked(user::sign_up(sign_up("Ann", "a@b.c", "secret1")));
    let step = after.resume(&app(), Event::User(Some(account(None))), NOW);
    assert_eq!(says(step), "User already exists, please sign in!");
    let (_, after) = asked(user::sign_up(sign_up("Ann", "a@b.c", "secret1")));
    assert_eq!(done(after.resume(&app(), Event::Failed, NOW)).status, 500);
    assert_eq!(done(create_user(sign_up("Ann", "a@b.c", "secret1"), None)).status, 500);
}

#[test]
fn a_sign_in_tells_wrong_from_unknown_by_its_status_only() {
    let wrong = "Wrong email or password combination!";
    for (verdict, status) in [(None, 400), (Some(false), 404)] {
        let step = conclude_sign_in(
            verdict,
            login("x"),
            "ua".to_string(),
            account(None),
            &geo_info(None),
            false,
            "secret",
            NOW,
        );
        let reply = done(step);
        assert_eq!(reply.status, status);
        assert!(format!("{:?}", reply.body).contains(wrong));
    }
    let flow = SignIn::User { payload: login("x"), ua: "ua".to_string() };
    assert_eq!(says(flow.resume(&app(), Event::User(None), NOW)), wrong);
    let mut google = account(None);
    google.googleAccount = Some(true);
    let flow = SignIn::User { payload: login("x"), ua: "ua".to_string() };
    assert_eq!(done(flow.resume(&app(), Event::User(Some(google)), NOW)).status, 400);
    let flow = SignIn::Limit { payload: login("x"), ua: "ua".to_string() };
    assert_eq!(done(flow.resume(&app(), Event::Limited, NOW)).status, 429);
}

fn factor(secret: &str, verified: bool) -> Tfa {
    Tfa {
        id: Some(id("6ab290bf9c189ae12d54b155")),
        qrcode: "picture".to_string(),
        userId: id(USER),
        secret: secret.to_string(),
        options: Some(TfaOptions { useToResetPass: Some(true) }),
        verified,
    }
}

#[test]
fn a_pending_second_factor_opens_no_session() {
    let hash = hash_password("secret1").unwrap();
    let mut with_factor = account(Some(&hash));
    with_factor.tfa_status = Some(id("6ab290bf9c189ae12d54b155"));
    let flow = SignIn::User { payload: login("secret1"), ua: "ua".to_string() };
    let (action, after) = asked(flow.resume(&app(), Event::User(Some(with_factor)), NOW));
    assert!(matches!(action, Action::TfaById(_)));
    let reply = done(after.resume(&app(), Event::Tfa(Some(factor("x", true))), NOW));
    assert!(matches!(reply.body, Body::SignedIn { tfa_enabled: true, .. }));
    match reply.cookies {
        Cookies::One(Cookie::Tfa { token }) => {
            assert_eq!(verify_tfa_token(&token, "secret", later(600)).as_deref(), Some(USER));
            assert_eq!(verify_tfa_token(&token, "secret", later(601)), None);
        }
        other => panic!("{:?}", other),
    }
}

#[test]
fn a_place_is_looked_up_where_there_is_a_key() {
    let mut placed = app();
    placed.ipgeo_key = "key".to_string();
    let hash = hash_password("secret1").unwrap();
    let mut payload = login("secret1");
    payload.identifier = "8.8.8.8".to_string();
    let flow = SignIn::User { payload, ua: "ua".to_string() };
    let found = Event::User(Some(account(Some(&hash))));
    let (action, after) = asked(flow.resume(&placed, found, NOW));
    match action {
        Action::Geo { url } => assert!(url.contains("8.8.8.8") && url.contains("key")),
        other => panic!("{:?}", other),
    }
    let place = IpGeoResponse {
        city: Some("Recife".to_string()),
        state_prov: Some("PE".to_string()),
        country_name: Some("Brazil".to_string()),
        country_code2: Some("br".to_string()),
    };
    let (action, _) = asked(after.resume(&placed, Event::Geo(Some(place)), NOW));
    let session = new_session(action);
    assert_eq!(session.location, "Recife, PE, Brazil");
    assert_eq!(session.ip, "8.8.8.8");
    assert_eq!(session.countryFlag, "🇧🇷");
}

fn google(email: &str, google_id: &str) -> GoogleLoginReq {
    GoogleLoginReq {
        email: email.to_string(),
        name: "Ann".to_string(),
        id: google_id.to_string(),
        identifier: String::new(),
        access_token: "access".to_string(),
    }
}

fn google_says(email: &str, google_id: &str) -> Event {
    Event::Google(GoogleAnswer::User {
        email: Some(email.to_string()),
        id: Some(google_id.to_string()),
    })
}

#[test]
fn google_confirms_an_identity() {
    assert!(verify_google_token(google_says("ANN@x.y", "7"), "ann@X.Y", "7").is_none());
    assert!(verify_google_token(google_says("bob@x.y", "7"), "ann@x.y", "7").is_some());
    assert!(verify_google_token(google_says("ann@x.y", "8"), "ann@x.y", "7").is_some());
    let refused = verify_google_token(Event::Google(GoogleAnswer::Refused), "a", "b").unwrap();
    let unreachable =
        verify_google_token(Event::Google(GoogleAnswer::Unreachable), "a", "b").unwrap();
    assert_eq!(refused.status, 401);
    assert_ne!(format!("{:?}", refused), format!("{:?}", unreachable));
}

#[test]
fn a_google_user_is_created_once() {
    let (_, after) = asked(user::google_login(&headers(), google("ann@x.y", "7")));
    let (action, after) = asked(after.resume(&app(), Event::Allowed, NOW));
    assert!(matches!(action, Action::GoogleUser { .. }));
    let (_, after) = asked(after.resume(&app(), google_says("ann@x.y", "7"), NOW));
    let (action, after) = asked(after.resume(&app(), Event::User(None), NOW));
    match action {
        Action::InsertUser(u) => {
            assert_eq!(u.googleId.as_deref(), Some("7"));
            assert_eq!(u.googleAccount, Some(true));
            assert!(u.password.is_none());
        }
        other => panic!("{:?}", other),
    }
    let (_, after) = asked(after.resume(&app(), Event::Done, NOW));
    let (action, after) = asked(after.resume(&app(), Event::User(Some(account(None))), NOW));
    let session = new_session(action);
    assert!(decode_token(&session.token, "secret").unwrap().user.unwrap().googleAccount);
    let reply = done(after.resume(&app(), Event::Done, NOW));
    assert!(matches!(reply.body, Body::GoogleSignedIn { .. }));
    let flow = GoogleLogin::User { payload: google("ann@x.y", "7"), ua: "ua".to_string() };
    let step = flow.resume(&app(), Event::User(Some(account(None))), NOW);
    assert!(says(step).contains("email and password"));
}

// ---------- sessions ----------

fn token_at(now: UtcTime) -> String {
    let sub = JwtSub { _id: USER.to_string(), name: "Ann".to_string(), googleAccount: false };
    create_token_at(&sub, "secret", now).unwrap()
}

fn session(token: &str, exp: i64) -> Session {
    let sub = JwtSub { _id: USER.to_string(), name: "Ann".to_string(), googleAccount: false };
    let meta = SessionMeta { ua: "ua".to_string(), identifier: String::new() };
    let mut s = mint_session(id(USER), &sub, &meta, &geo_info(None), "secret", NOW).unwrap();
    s.token = token.to_string();
    s.expAt = exp;
    s
}

#[test]
fn a_token_in_the_body_moves_into_a_cookie() {
    let token = token_at(NOW);
    let body = VerifyTokenReq { token: format!(" {} ", token), identifier: String::new() };
    let (_, after) = asked(user::verify_token(&headers(), Some(body), &app(), NOW));
    let (_, after) = asked(after.resume(&app(), Event::User(Some(account(None))), NOW));
    let rows = vec![session("other", NOW.secs), session(&token, NOW.secs + 100)];
    let (action, after) = asked(after.resume(&app(), Event::Sessions(rows), later(40)));
    let renewed = match action {
        Action::ReplaceSessionToken { user, old, new } => {
            assert_eq!(user.to_hex(), USER);
            assert_eq!(old, token);
            assert_ne!(new, token);
            new
        }
        other => panic!("{:?}", other),
    };
    let claims = decode_token(&renewed, "secret").unwrap();
    assert_eq!(claims.sub, USER);
    assert_eq!(claims.exp, (NOW.secs + 100) as u64);
    let reply = done(after.resume(&app(), Event::Changed(true), later(40)));
    match reply.cookies {
        Cookies::One(Cookie::Session { token: t, max_age_secs }) => {
            assert_eq!(t, renewed);
            assert_eq!(max_age_secs, 60);
        }
        other => panic!("{:?}", other),
    }
    match reply.body {
        Body::TokenVerified { sub, name, tfa_enabled, .. } => {
            assert_eq!(sub, USER);
            assert_eq!(name, "Ann");
            assert!(!tfa_enabled);
        }
        other => panic!("{:?}", other),
    }
}

#[test]
fn a_token_in_the_body_is_accepted_once() {
    let token = token_at(NOW);
    let sessions = |row: &str| {
        let body = VerifyTokenReq { token: token_at(NOW), identifier: String::new() };
        let (_, after) = asked(user::verify_token(&headers(), Some(body), &app(), NOW));
        let (_, after) = asked(after.resume(&app(), Event::User(Some(account(None))), NOW));
        after.resume(&app(), Event::Sessions(vec![session(row, NOW.secs + 604_800)]), NOW)
    };
    let (action, after) = asked(sessions(&token));
    let new = match action {
        Action::ReplaceSessionToken { new, .. } => new,
        other => panic!("{:?}", other),
    };
    // The session expires with the token, so that the new one lasts a second longer.
    assert_ne!(new, token);
    // Another request replaced the token in the meantime.
    assert_eq!(done(after.resume(&app(), Event::Changed(false), NOW)).status, 401);
    assert_eq!(done(sessions(&new)).status, 401);
}

#[test]
fn a_token_needs_a_live_session() {
    assert_eq!(done(user::verify_token(&headers(), None, &app(), NOW)).status, 401);
    let mut bearer = headers();
    bearer.authorization = Some("Bearer nonsense".to_string());
    assert_eq!(done(user::verify_token(&bearer, None, &app(), NOW)).status, 401);
    bearer.authorization = Some(format!("Bearer {}", token_at(NOW)));
    let old = user::verify_token(&bearer, None, &app(), later(604_801));
    assert!(says(old).contains("expired"));
    for (rows, expected) in [
        (Vec::new(), "denied"),
        (vec![session("other", NOW.secs + 9)], "denied"),
        (vec![session("mine", NOW.secs - 1)], "expired"),
    ] {
        let flow = VerifyToken::Sessions {
            token: "mine".to_string(),
            migrate: false,
            claims: claims(USER),
            user: account(None),
            uid: id(USER),
        };
        let reply = says(flow.resume(&app(), Event::Sessions(rows), NOW));
        assert!(reply.contains(expected), "{}", reply);
    }
}

#[test]
fn signing_out_clears_both_cookies() {
    let mut bearer = headers();
    bearer.authorization = Some("Bearer abc".to_string());
    let (action, after) = asked(user::sign_out(&claims(USER), &bearer));
    match action {
        Action::DeleteSessionByToken { user, token } => {
            assert_eq!(user.to_hex(), USER);
            assert_eq!(token, "abc");
        }
        other => panic!("{:?}", other),
    }
    let reply = done(after.resume(&app(), Event::Failed, NOW));
    assert!(matches!(reply.cookies, Cookies::Two(Cookie::ClearSession, Cookie::ClearTfa)));
    assert_eq!(done(user::sign_out(&claims(USER), &headers())).status, 200);
    assert_eq!(done(user::sign_out(&claims("nobody"), &headers())).status, 400);
}

#[test]
fn the_password_is_asked_again() {
    let hash = hash_password("secret1").unwrap();
    for (password, status) in [("secret1", 200), ("secret2", 400)] {
        let req = VerifyUserReq { _id: USER.to_string(), password: password.to_string() };
        let (_, after) = asked(user::verify_user(&claims(USER), req));
        let step = after.resume(&app(), Event::User(Some(account(Some(&hash)))), NOW);
        assert_eq!(done(step).status, status);
    }
    assert_eq!(answer_password(None).status, 400);
    let req = VerifyUserReq { _id: USER.to_string(), password: "x".to_string() };
    assert_eq!(done(user::verify_user(&claims(OTHER), req)).status, 403);
}

// ---------- recovery ----------

fn find(remove: Option<&str>) -> FindUserReq {
    FindUserReq {
        email: "ann@example.com".to_string(),
        remove2FA: remove.map(|r| r.to_string()),
    }
}

fn otp(hash: &str, created: UtcTime, spam: i64) -> Otp {
    Otp {
        id: Some(id("6ab290bf9c189ae12d54b155")),
        userId: USER.to_string(),
        otp: hash.to_string(),
        createdAt: Some(created),
        expiresAt: Some(UtcTime { secs: created.secs + 3600, nanos: created.nanos }),
        spam: Some(UtcTime { secs: created.secs + spam, nanos: created.nanos }),
    }
}

#[test]
fn codes_have_four_digits() {
    assert_eq!(code_text(0), "1000");
    assert_eq!(code_text(8999), "9999");
    assert_eq!(code_text(9000), "1000");
    assert_eq!(code_text(65_535), "3535");
}

#[test]
fn a_code_is_sent_and_accepted() {
    let (_, after) = asked(user::find_and_send_code(&headers(), find(None)));
    let (action, after) = asked(after.resume(&app(), Event::Allowed, NOW));
    match action {
        Action::Limit { key, max_attempts, .. } => {
            assert_eq!(key, "find-user-acct:ann@example.com");
            assert_eq!(max_attempts, 5);
        }
        other => panic!("{:?}", other),
    }
    let (_, after) = asked(after.resume(&app(), Event::Allowed, NOW));
    let (action, after) = asked(after.resume(&app(), Event::User(Some(account(None))), NOW));
    match action {
        Action::OtpsOf(hex) => assert_eq!(hex, USER),
        other => panic!("{:?}", other),
    }
    // Without a mail host the code is recorded at once.
    let (action, after) = asked(after.resume(&app(), Event::Otps(Vec::new()), NOW));
    match action {
        Action::InsertOtp(o) => {
            assert_eq!(o.expiresAt, Some(later(3600)));
            assert_eq!(o.spam, Some(later(120)));
        }
        other => panic!("{:?}", other),
    }
    let reply = done(after.resume(&app(), Event::Done, NOW));
    assert!(matches!(reply.body, Body::OtpSent { .. }));

    let hash = hash_password("1234").unwrap();
    let req = VerifyOtpReq { userId: USER.to_string(), otp: "1234".to_string() };
    let flow = VerifyOtp::Otps { payload: req };
    let rows = Event::Otps(vec![otp(&hash, NOW, 120)]);
    let (action, after) = asked(flow.resume(&app(), rows, later(3599)));
    assert!(matches!(action, Action::DeleteOtp(_)));
    match done(after.resume(&app(), Event::Done, NOW)).body {
        Body::OtpVerified { reset_token } => {
            assert_eq!(verify_reset_token(&reset_token, "secret", NOW).as_deref(), Some(USER));
        }
        other => panic!("{:?}", other),
    }
    let req = VerifyOtpReq { userId: USER.to_string(), otp: "1234".to_string() };
    let flow = VerifyOtp::Otps { payload: req };
    let rows = Event::Otps(vec![otp(&hash, NOW, 120)]);
    assert_eq!(done(flow.resume(&app(), rows, later(3600))).status, 400);
    let req = VerifyOtpReq { userId: USER.to_string(), otp: "4321".to_string() };
    let flow = VerifyOtp::Otps { payload: req };
    let rows = Event::Otps(vec![otp(&hash, NOW, 120)]);
    assert_eq!(done(flow.resume(&app(), rows, NOW)).status, 400);
}

#[test]
fn a_code_is_spent_with_all_others() {
    let old = hash_password("1111").unwrap();
    let new = hash_password("2222").unwrap();
    let try_code = |code: &str, rows: Vec<Otp>| {
        let req = VerifyOtpReq { userId: USER.to_string(), otp: code.to_string() };
        VerifyOtp::Otps { payload: req }.resume(&app(), Event::Otps(rows), NOW)
    };
    let rows = || {
        let mut first = otp(&old, NOW, 120);
        first.id = Some(id("6ab290bf9c189ae12d54b154"));
        vec![first, otp(&new, NOW, 120)]
    };
    assert_eq!(done(try_code("1111", rows())).status, 400);
    match asked(try_code("2222", rows())).0 {
        Action::DeleteOtps { user_id, ids } => {
            assert_eq!(user_id, USER);
            let ids: Vec<String> = ids.iter().map(|i| i.to_hex()).collect();
            assert_eq!(ids, ["6ab290bf9c189ae12d54b154", "6ab290bf9c189ae12d54b155"]);
        }
        other => panic!("{:?}", other),
    }
    assert_eq!(done(try_code("2222", Vec::new())).status, 400);
}

#[test]
fn codes_are_counted_and_paused() {
    let codes = |n: usize, age: i64| -> Event {
        let mut rows = Vec::new();
        for _ in 0..n {
            rows.push(otp("hash", UtcTime { secs: NOW.secs - age, nanos: NOW.nanos }, 120));
        }
        Event::Otps(rows)
    };
    let flow = || FindCode::Otps { user: account(None), uid: id(USER) };
    let reply = done(flow().resume(&app(), codes(1, 60), NOW));
    match reply.body {
        Body::OtpWait { spam } => assert_eq!(spam, later(60)),
        other => panic!("{:?}", other),
    }
    assert!(says(flow().resume(&app(), codes(5, 600), NOW)).contains("(3)"));
    let (action, _) = asked(flow().resume(&app(), codes(4, 600), NOW));
    assert!(matches!(action, Action::InsertOtp(_)));
    let (action, _) = asked(flow().resume(&app(), codes(2, 86_400), NOW));
    match action {
        Action::DeleteOtps { ids, .. } => assert_eq!(ids.len(), 2),
        other => panic!("{:?}", other),
    }
}

#[test]
fn a_code_goes_out_by_mail() {
    let mut mailing = app();
    mailing.mail_host = "mail.example.com".to_string();
    mailing.mail_from = "Noap <noap@example.com>".to_string();
    let step =
        issue_code(7, Some("hash".to_string()), account(None), id(USER), &mailing, NOW);
    let (action, after) = asked(step);
    match action {
        Action::MailRelay { host } => assert_eq!(host, "mail.example.com"),
        other => panic!("{:?}", other),
    }
    let (action, after) = asked(after.resume(&mailing, Event::Done, NOW));
    match action {
        Action::SendMail { from, to, subject, html } => {
            assert_eq!(from, "Noap <noap@example.com>");
            assert_eq!(to, "ann@example.com");
            assert_eq!(subject, "Noap OTP code verification");
            assert!(html.contains("1007") && html.contains("Hi, Ann!"));
        }
        other => panic!("{:?}", other),
    }
    let (action, _) = asked(after.resume(&mailing, Event::Failed, NOW));
    match action {
        Action::InsertOtp(o) => assert_eq!(o.otp, "hash"),
        other => panic!("{:?}", other),
    }
    let relay = || -> FindCode {
        let step =
            issue_code(7, Some("hash".to_string()), account(None), id(USER), &mailing, NOW);
        asked(step).1
    };
    assert!(says(relay().resume(&mailing, Event::Failed, NOW)).contains("(2)"));
    let mut broken = app();
    broken.mail_from = "not a mailbox".to_string();
    assert_eq!(done(relay().resume(&broken, Event::Done, NOW)).status, 500);
    assert_eq!(done(issue_code(7, None, account(None), id(USER), &mailing, NOW)).status, 500);
}

#[test]
fn recovery_does_not_tell_whether_there_is_an_account() {
    let sent = "If an account with this email exists, the code will be sent";
    let flow = FindCode::User { payload: find(None) };
    assert!(says(flow.resume(&app(), Event::User(None), NOW)).starts_with(sent));
    let flow = FindCode::User { payload: find(Some("2fa")) };
    assert_eq!(says(flow.resume(&app(), Event::User(Some(account(None))), NOW)), sent);
    let flow = || FindCode::Tfa { payload: find(None), user: account(None), uid: id(USER) };
    let reply = done(flow().resume(&app(), Event::Tfa(Some(factor("x", true))), NOW));
    assert!(matches!(reply.body, Body::ResetWithTfa { .. }));
    assert!(matches!(flow().resume(&app(), Event::Tfa(None), NOW), Step::Ask(..)));
}

fn change(user_id: &str, password: &str, token: Option<String>) -> ChangePassReq {
    ChangePassReq {
        userId: user_id.to_string(),
        password: password.to_string(),
        resetToken: token,
    }
}

#[test]
fn a_password_is_changed_with_a_proof_of_ownership() {
    let proof = || Some(create_reset_token(USER, "secret", NOW).unwrap());
    let denied = user::change_password(&headers(), change(USER, "secret9", None), &app(), NOW);
    assert_eq!(done(denied).status, 401);
    let other = user::change_password(&headers(), change(OTHER, "secret9", proof()), &app(), NOW);
    assert_eq!(done(other).status, 401);
    let late = user::change_password(
        &headers(),
        change(USER, "secret9", proof()),
        &app(),
        later(901),
    );
    assert_eq!(done(late).status, 401);
    let tfa = Some(create_tfa_token(USER, "secret", NOW).unwrap());
    let wrong = user::change_password(&headers(), change(USER, "secret9", tfa), &app(), NOW);
    assert_eq!(done(wrong).status, 401);
    let short = user::change_password(&headers(), change(USER, "abc", proof()), &app(), NOW);
    assert_eq!(done(short).status, 400);

    let step = user::change_password(&headers(), change(USER, "secret9", proof()), &app(), NOW);
    let (action, after) = asked(step);
    assert!(matches!(action, Action::UserById(_)));
    let (action, after) = asked(after.resume(&app(), Event::User(Some(account(None))), NOW));
    match action {
        Action::UpdateUser(uid, UserChange::Password(hash)) => {
            assert_eq!(uid.to_hex(), USER);
            assert_eq!(verify_password("secret9", &hash), Some(true));
        }
        other => panic!("{:?}", other),
    }
    assert_eq!(says(after.resume(&app(), Event::Done, NOW)), "Password changed!");
    assert_eq!(done(store_password(id(USER), None)).status, 500);
    assert!(may_act_for(&Some(USER.to_string()), USER, &None, "secret", NOW));
    assert!(!may_act_for(&Some(OTHER.to_string()), USER, &proof(), "secret", NOW));
}

#[test]
fn a_live_session_changes_the_password_too() {
    let mut bearer = headers();
    let sub = JwtSub { _id: USER.to_string(), name: "Ann".to_string(), googleAccount: false };
    let now = noap_server::time::clock();
    let token = create_token_at(&sub, "secret", now).unwrap();
    bearer.authorization = Some(format!("Bearer {}", token));
    let step = user::change_password(&bearer, change(USER, "secret9", None), &app(), now);
    let (action, after) = asked(step);
    assert!(matches!(action, Action::SessionByToken(_)));
    let row = Event::Session(Some(session(&token, now.secs + 10)));
    let (action, _) = asked(after.resume(&app(), row, now));
    assert!(matches!(action, Action::UserById(_)));
    let step = user::change_password(&bearer, change(USER, "secret9", None), &app(), now);
    let (_, after) = asked(step);
    assert_eq!(done(after.resume(&app(), Event::Session(None), now)).status, 401);
}

// ---------- the second factor ----------

/// The RFC 6238 key "12345678901234567890" in base32.
const RFC_KEY: &str = "GEZDGNBVGY3TQOJQGEZDGNBVGY3TQOJQ";

#[test]
fn codes_follow_the_clock() {
    // From the RFC: 94287082 at 59 seconds, of which the last six digits count.
    let at = |secs: i64| UtcTime { secs, nanos: 0 };
    assert_eq!(check_code(RFC_KEY, "287082", at(59)), Some(true));
    assert_eq!(check_code(RFC_KEY, "287082", at(89)), Some(true));
    assert_eq!(check_code(RFC_KEY, "287082", at(90)), Some(false));
    assert_eq!(check_code(RFC_KEY, "287083", at(59)), Some(false));
    assert_eq!(check_code(RFC_KEY, "081804", at(1_111_111_109)), Some(true));
    assert_eq!(check_code("not base32!", "287082", at(59)), None);
    assert_eq!(check_code("GEZDGNBV", "287082", at(59)), None);
}

#[test]
fn an_enrolment_carries_its_key() {
    let e = enrol(b"12345678901234567890".to_vec()).unwrap();
    assert_eq!(e.secret, RFC_KEY);
    assert_eq!(check_code(&RFC_KEY.to_lowercase(), "000000", NOW), None);
    assert!(e.qrcode.starts_with("data:image/png;base64,iVBOR"));
    let (action, after) = asked(enrol_key(id(USER), b"12345678901234567890".to_vec()));
    match action {
        Action::InsertTfa(t) => {
            assert_eq!(t.secret, RFC_KEY);
            assert!(!t.verified);
            assert_eq!(t.options.unwrap().useToResetPass, Some(true));
        }
        other => panic!("{:?}", other),
    }
    let (_, after) = asked(after.resume(&app(), Event::Done, NOW));
    let (action, after) = asked(after.resume(&app(), Event::Tfa(Some(factor("x", false))), NOW));
    assert!(matches!(action, Action::UpdateUser(_, UserChange::TfaStatus(_))));
    match done(after.resume(&app(), Event::Done, NOW)).body {
        Body::QrCode(q) => assert_eq!(q, e.qrcode),
        other => panic!("{:?}", other),
    }
}

#[test]
fn an_account_has_one_second_factor() {
    let req = Gen2FAReq { userId: USER.to_string() };
    let (_, after) = asked(user::generate_2fa_qrcode(&claims(USER), req));
    let rows = Event::Tfas(vec![factor("x", true)]);
    match done(after.resume(&app(), rows, NOW)).body {
        Body::QrCode(q) => assert_eq!(q, "picture"),
        other => panic!("{:?}", other),
    }
    let flow = GenerateTfa::Existing { uid: id(USER) };
    let (action, _) = asked(flow.resume(&app(), Event::Tfas(Vec::new()), NOW));
    match action {
        Action::InsertTfa(t) => assert_eq!(t.secret.len(), 32),
        other => panic!("{:?}", other),
    }
    let req = Gen2FAReq { userId: USER.to_string() };
    assert_eq!(done(user::generate_2fa_qrcode(&claims(OTHER), req)).status, 403);
}

fn attempt(cookie: Option<String>) -> Attempt {
    Attempt {
        payload: Verify2FAReq {
            userId: USER.to_string(),
            tfa_code: "287082".to_string(),
            identifier: String::new(),
        },
        cookie,
        ua: "ua".to_string(),
    }
}

#[test]
fn a_code_opens_the_session_of_a_pending_sign_in() {
    let now = UtcTime { secs: 59, nanos: 0 };
    let pending = match pending_reply(Body::Message(""), &id(USER), "secret", now).cookies {
        Cookies::One(Cookie::Tfa { token }) => token,
        other => panic!("{:?}", other),
    };
    let mut with_cookie = headers();
    with_cookie.cookie = Some(format!("a=b; noap_tfa={}", pending));
    let payload = attempt(None).payload;
    let (_, after) = asked(user::verify_2fa_code(&with_cookie, payload));
    let (action, after) = asked(after.resume(&app(), Event::Allowed, now));
    match action {
        Action::Limit { key, .. } => assert_eq!(key, format!("2fa-verify-acct:{}", USER)),
        other => panic!("{:?}", other),
    }
    let (_, after) = asked(after.resume(&app(), Event::Allowed, now));
    let rows = Event::Tfas(vec![factor(RFC_KEY, false)]);
    let (action, after) = asked(after.resume(&app(), rows, now));
    assert!(matches!(action, Action::MarkTfaVerified(_)));
    let (action, after) = asked(after.resume(&app(), Event::Done, now));
    assert!(matches!(action, Action::UserById(_)));
    let (action, after) = asked(after.resume(&app(), Event::User(Some(account(None))), now));
    let session = new_session(action);
    assert_eq!(session.userId.to_hex(), USER);
    let reply = done(after.resume(&app(), Event::Done, now));
    assert!(matches!(reply.cookies, Cookies::Two(Cookie::Session { .. }, Cookie::ClearTfa)));
}

#[test]
fn a_code_alone_opens_no_session() {
    let now = UtcTime { secs: 59, nanos: 0 };
    let flow = VerifyTfa::AccountLimit { attempt: attempt(None) };
    let (_, after) = asked(flow.resume(&app(), Event::Allowed, now));
    let rows = Event::Tfas(vec![factor(RFC_KEY, true)]);
    let (_, after) = asked(after.resume(&app(), rows, now));
    let reply = done(after.resume(&app(), Event::Done, now));
    assert_eq!(reply.status, 200);
    assert!(matches!(reply.cookies, Cookies::Nothing));
    // The pending sign-in of another account counts for nothing either.
    let theirs = Some(create_tfa_token(OTHER, "secret", now).unwrap());
    let flow = VerifyTfa::AccountLimit { attempt: attempt(theirs) };
    let (_, after) = asked(flow.resume(&app(), Event::Allowed, now));
    assert!(matches!(after, VerifyTfa::Tfas { pending: false, .. }));
    let wrong = VerifyTfa::Tfas { attempt: attempt(None), uid: id(USER), pending: false };
    let rows = Event::Tfas(vec![factor(RFC_KEY, true)]);
    assert_eq!(done(wrong.resume(&app(), rows, NOW)).status, 401);
    let none = VerifyTfa::Tfas { attempt: attempt(None), uid: id(USER), pending: false };
    assert_eq!(done(none.resume(&app(), Event::Tfas(Vec::new()), NOW)).status, 401);
    let broken = VerifyTfa::Tfas { attempt: attempt(None), uid: id(USER), pending: false };
    let rows = Event::Tfas(vec![factor("0", true)]);
    assert_eq!(done(broken.resume(&app(), rows, NOW)).status, 500);
}

#[test]
fn a_second_factor_is_removed_with_a_proof_of_ownership() {
    let req = Remove2FAReq { userId: USER.to_string(), resetToken: None };
    assert_eq!(done(user::remove_2fa(&headers(), req, &app(), NOW)).status, 401);
    let proof = Some(create_reset_token(USER, "secret", NOW).unwrap());
    let req = Remove2FAReq { userId: USER.to_string(), resetToken: proof };
    let (_, after) = asked(user::remove_2fa(&headers(), req, &app(), NOW));
    let rows = Event::Tfas(vec![factor("x", true)]);
    let (action, after) = asked(after.resume(&app(), rows, NOW));
    assert!(matches!(action, Action::DeleteTfa(_)));
    let (action, after) = asked(after.resume(&app(), Event::Done, NOW));
    assert!(matches!(action, Action::UpdateUser(_, UserChange::TfaStatusNull)));
    let (action, after) = asked(after.resume(&app(), Event::Done, NOW));
    assert!(matches!(action, Action::UpdateUser(_, UserChange::TfaStatusUnset)));
    assert_eq!(says(after.resume(&app(), Event::Done, NOW)), "2FA removed successfuly!");
    let flow = RemoveTfa::Tfas { uid: id(USER) };
    assert_eq!(done(flow.resume(&app(), Event::Tfas(Vec::new()), NOW)).status, 400);
}

// ---------- conversions and settings ----------

#[test]
fn a_google_account_gets_a_password() {
    let req = ConvertNormalReq { id: USER.to_string(), password: "secret1".to_string() };
    let (_, after) = asked(user::convert_into_normal(&claims(USER), req));
    let (action, after) = asked(after.resume(&app(), Event::User(Some(account(None))), NOW));
    match action {
        Action::UpdateUser(_, UserChange::IntoNormal { password }) => {
            assert_eq!(verify_password("secret1", &password), Some(true));
        }
        other => panic!("{:?}", other),
    }
    assert_eq!(done(after.resume(&app(), Event::Done, NOW)).status, 200);
    assert_eq!(done(store_first_password(id(USER), None)).status, 500);
}

fn google_payload(owner: &str) -> Json {
    let member = |name: &str, value: &str| (name.to_string(), Json::Text(value.to_string()));
    Json::Object(vec![
        member("_id", owner),
        member("email", "new@x.y"),
        member("name", "Ann"),
        member("id", "7"),
    ])
}

#[test]
fn an_account_is_linked_unless_the_email_is_taken() {
    let (_, after) = asked(user::convert_into_google(&claims(USER), &google_payload(USER)));
    let (action, after) = asked(after.resume(&app(), Event::User(Some(account(None))), NOW));
    assert!(matches!(action, Action::UserByEmail(_)));
    let mut taken = account(None);
    taken.email = "new@x.y".to_string();
    assert_eq!(says(after.resume(&app(), Event::User(Some(taken)), NOW)), "User already exists!");
    let (_, after) = asked(user::convert_into_google(&claims(USER), &google_payload(USER)));
    let (_, after) = asked(after.resume(&app(), Event::User(Some(account(None))), NOW));
    let (action, _) = asked(after.resume(&app(), Event::User(None), NOW));
    match action {
        Action::UpdateUser(_, UserChange::IntoGoogle { google_id, name, email }) => {
            assert_eq!(google_id, "7");
            assert_eq!(name, "Ann");
            assert_eq!(email, "new@x.y");
        }
        other => panic!("{:?}", other),
    }
    assert_eq!(done(user::convert_into_google(&claims(USER), &Json::Null)).status, 403);
}

fn changed(step: Step<ChangeSetting, Reply>, stored: Option<UserSettings>) -> UserSettings {
    let (_, after) = asked(step);
    let mut owner = account(None);
    owner.settings = stored;
    match asked(after.resume(&app(), Event::User(Some(owner)), NOW)).0 {
        Action::UpdateUser(uid, UserChange::Settings(s)) => {
            assert_eq!(uid.to_hex(), USER);
            s
        }
        other => panic!("{:?}", other),
    }
}

#[test]
fn settings_change_one_at_a_time() {
    let me = claims(USER);
    let s = changed(user::change_theme(&me, USER, ThemeReq { theme: "light".to_string() }), None);
    assert_eq!(s.theme.as_deref(), Some("light"));
    let s = changed(
        user::note_text_expanded(&me, USER, ConditionReq { condition: true }),
        Some(s),
    );
    let s = changed(
        user::show_pinned_in_folder(&me, USER, ConditionReq { condition: false }),
        Some(s),
    );
    let s = changed(
        user::change_visualization(
            &me,
            USER,
            VisualizationReq { visualization: "1".to_string() },
        ),
        Some(s),
    );
    let s = changed(
        user::on_login_go_to_last(&me, USER, OnLoginReq { onLoginGoToLastOpenedNote: true }),
        Some(s),
    );
    let s = changed(
        user::change_global_bg(
            &me,
            USER,
            GlobalBgReq { globalNoteBackgroundColor: "#fff".to_string() },
        ),
        Some(s),
    );
    assert_eq!(s.theme.as_deref(), Some("light"));
    assert_eq!(s.noteTextExpanded, Some(true));
    assert_eq!(s.showPinnedNotesInFolder, Some(false));
    assert_eq!(s.noteVisualization.as_deref(), Some("1"));
    assert_eq!(s.onLoginGoToLastOpenedNote, Some(true));
    assert_eq!(s.globalNoteBackgroundColor.as_deref(), Some("#fff"));
    assert_eq!(s.language, None);
    let theme = ThemeReq { theme: "light".to_string() };
    assert_eq!(done(user::change_theme(&claims(OTHER), USER, theme)).status, 403);
    let mut settings = UserSettings::default();
    Setting::Theme("dark".to_string()).apply(&mut settings);
    assert_eq!(settings.theme.as_deref(), Some("dark"));
    assert_eq!(done(ChangeSetting::Update.resume(&app(), Event::Failed, NOW)).status, 400);
}

#[test]
fn the_last_opened_note_is_recorded() {
    let req = |note: &str| LastOpenedReq { lastOpenedNote: note.to_string() };
    let (action, after) = asked(user::last_opened_note(&claims(USER), USER, req(OTHER)));
    match action {
        Action::UpdateUser(_, UserChange::LastOpenedNote(note)) => {
            assert_eq!(note.to_hex(), OTHER);
        }
        other => panic!("{:?}", other),
    }
    assert_eq!(done(after.resume(&app(), Event::Done, NOW)).status, 200);
    // A text that is no identifier stands for a note that does not exist.
    let (action, _) = asked(user::last_opened_note(&claims(USER), USER, req("draft")));
    assert!(matches!(action, Action::UpdateUser(_, UserChange::LastOpenedNote(_))));
    assert_eq!(done(user::last_opened_note(&claims(USER), USER, req(""))).status, 401);
}
