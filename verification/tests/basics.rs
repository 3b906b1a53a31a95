use noap_server::config::{parse_origins, port, AppState, Environment};
use noap_server::flow::{Action, Event, Flow, Step};
use noap_server::http::{cors_origins, set_cookie_headers, Cookie, Cookies, Headers, Method};
use noap_server::json::{Json, JsonNumber};
use noap_server::lists::reversed;
use noap_server::middleware::auth::{
    bearer_session_user, cookie_request_origin_ok, request_session_token, require_owner,
    verify_user, Admission,
};
use noap_server::models::bson_rfc3339_option;
use noap_server::models::dates::DateError;
use noap_server::models::object_id_hex::{self, IdError};
use noap_server::models::{rfc3339_option, vec_object_id_hex, Bson, Session};
use noap_server::numbers::{decimal_text, padded_text, parse_i64, parse_u16, signed_text};
use noap_server::object_id::ObjectId;
use noap_server::pagination::{page_count, read_number, skip_for, take_page};
use noap_server::routes::{endpoints, Endpoint, Verb};
use noap_server::text::{
    contains, eq_ignore_ascii_case, split, split_once, starts_with, trim, trim_end_matches,
};
use noap_server::time::{br_text, calendar_holds, can_write, clock, from_millis, iso_text, UtcTime};
use noap_server::utils::cookies::{get_cookie, session_cookie, tfa_cookie, CookieConfig};
use noap_server::utils::crypto::{
    claims_from_json, create_reset_token, create_tfa_token, create_token, create_token_at,
    decode_token, verify_reset_token, verify_tfa_token, Claims, ClaimsError, JwtSub, TokenError,
};
use noap_server::utils::flag::country_code_to_flag;
use noap_server::utils::geo::{fetch_geo, geo_info, IpGeoResponse};
use noap_server::utils::mail::mail_html;
use noap_server::utils::object_id_from_str;
use noap_server::utils::ratelimit::{client_key, RateLimiter};

const USER: &str = "648a173ca6d551d5ee99e897";
const NOW: UtcTime = UtcTime { secs: 1_790_000_000, nanos: 0 };

fn id(hex: &str) -> ObjectId {
    object_id_from_str(hex).unwrap()
}

fn environment() -> Environment {
    Environment {
        mail_hostname: None,
        mail_port: None,
        mail_username: None,
        mail_password: None,
        host_mail: None,
        ipgeolocation_key: None,
        allowed_origins: None,
        cookie_secure: None,
        cookie_samesite: None,
        webauthn_rp_id: None,
        webauthn_origin: None,
        webauthn_rp_name: None,
        vapid_private_key: None,
        vapid_subject: None,
        cron_secret: None,
    }
}

fn app() -> AppState {
    AppState::from_env(environment(), "secret".to_string())
}

fn headers() -> Headers {
    Headers {
        authorization: None,
        cookie: None,
        origin: None,
        referer: None,
        x_forwarded_for: None,
        x_real_ip: None,
        user_agent: None,
    }
}

fn text(s: &str) -> Json {
    Json::Text(s.to_string())
}

fn object(members: Vec<(&str, Json)>) -> Json {
    let mut list = Vec::new();
    for (name, value) in members {
        list.push((name.to_string(), value));
    }
    Json::Object(list)
}

fn number(n: i64) -> Json {
    Json::Number(JsonNumber { signed: Some(n), unsigned: u64::try_from(n).ok() })
}

// ---------- texts and numbers ----------

#[test]
fn texts_are_trimmed_split_and_compared() {
    assert_eq!(trim("\u{a0} a b \n"), "a b");
    assert_eq!(trim_end_matches("x//", '/'), "x");
    assert_eq!(split("a,,b", ','), vec!["a", "", "b"]);
    assert_eq!(split_once("a:b:c", ':'), Some(("a", "b:c")));
    assert_eq!(split_once("abc", ':'), None);
    assert!(contains("abcd", "bc") && !contains("abcd", "cb"));
    assert!(starts_with("abcd", "ab") && !starts_with("a", "ab"));
    assert!(eq_ignore_ascii_case("BeArEr", "bearer"));
}

#[test]
fn numbers_are_written_and_read() {
    assert_eq!(decimal_text(0), "0");
    assert_eq!(decimal_text(1203), "1203");
    assert_eq!(signed_text(-5), "-5");
    assert_eq!(padded_text(7, 3), "007");
    assert_eq!(parse_u16("65535"), Some(65_535));
    assert_eq!(parse_u16("65536"), None);
    assert_eq!(parse_i64("-9223372036854775808"), Some(i64::MIN));
    assert_eq!(parse_i64("9223372036854775808"), None);
}

#[test]
fn identifiers_are_read_and_written() {
    assert_eq!(id(USER).to_hex(), USER);
    assert_eq!(id("ABCDEF0123456789abcdef01").to_hex(), "abcdef0123456789abcdef01");
    assert!(object_id_from_str("xyz").is_none());
    assert!(object_id_from_str("648a173ca6d551d5ee99e89g").is_none());
    assert!(id(USER).is(&id(USER)));
    assert!(!id(USER).is(&id("000000000000000000000001")));
}

#[test]
fn lists_are_reversed() {
    assert_eq!(reversed(vec![1, 2, 3]), vec![3, 2, 1]);
}

// ---------- time ----------

#[test]
fn days_are_written_in_two_ways() {
    assert_eq!(br_text(2026, 9, 2), "02/09/2026");
    assert_eq!(iso_text(2026, 9, 2), "2026-09-02");
}

#[test]
fn moments_are_compared_and_moved() {
    let t = UtcTime { secs: 10, nanos: 5 };
    assert!(t.is_before(&UtcTime { secs: 10, nanos: 6 }));
    assert!(!t.is_before(&t));
    assert_eq!(t.plus(60), UtcTime { secs: 70, nanos: 5 });
    assert_eq!(from_millis(-1), UtcTime { secs: -1, nanos: 999_000_000 });
    assert_eq!(from_millis(1500), UtcTime { secs: 1, nanos: 500_000_000 });
    assert!(t.passed_by(60, &UtcTime { secs: 70, nanos: 5 }));
    assert!(!t.passed_by(60, &UtcTime { secs: 70, nanos: 4 }));
    assert!(clock().secs > 1_700_000_000);
}

#[test]
fn dates_are_read_from_their_stored_forms() {
    let t = UtcTime { secs: 1_790_087_359, nanos: 563_439_220 };
    let written = "2026-09-22T14:29:19.563439220+00:00";
    assert_eq!(
        bson_rfc3339_option::deserialize(&Bson::Text(written.to_string())),
        Ok(Some(t))
    );
    assert_eq!(bson_rfc3339_option::deserialize(&Bson::Null), Ok(None));
    assert_eq!(
        bson_rfc3339_option::deserialize(&Bson::Int64(1500)),
        Ok(Some(from_millis(1500)))
    );
    assert_eq!(
        bson_rfc3339_option::deserialize(&Bson::Text("yesterday".to_string())),
        Err(DateError::Text)
    );
    let extended = object(vec![("$date", object(vec![("$numberLong", text("1500"))]))]);
    assert_eq!(
        bson_rfc3339_option::deserialize_json_value(&extended),
        Ok(Some(from_millis(1500)))
    );
    assert_eq!(rfc3339_option::serialize(&Some(t)).as_deref(), Some(written));
    assert_eq!(rfc3339_option::serialize(&None), None);
    assert!(can_write(&t));
    assert!(!can_write(&UtcTime { secs: i64::MAX, nanos: 0 }));
    assert!(can_write(&UtcTime { secs: 59, nanos: 1_500_000_000 }));
    assert!(!can_write(&UtcTime { secs: 58, nanos: 1_500_000_000 }));
    assert!(calendar_holds(8_210_266_876_799));
    assert!(!calendar_holds(8_210_266_876_800));
    assert_eq!(bson_rfc3339_option::read(&Bson::Int64(1500)), Some(Ok(Some(from_millis(1500)))));
    assert_eq!(bson_rfc3339_option::read(&Bson::Int64(i64::MAX)), None);
    assert_eq!(bson_rfc3339_option::read(&Bson::Text(i64::MIN.to_string())), None);
    assert_eq!(rfc3339_option::read(&None), Some(Ok(None)));
    let date = object(vec![("$date", text(written))]);
    assert_eq!(rfc3339_option::deserialize(&Some(date)), Ok(Some(t)));
    assert_eq!(rfc3339_option::deserialize(&None), Ok(None));
    let empty = Some(object(vec![]));
    assert_eq!(rfc3339_option::deserialize(&empty), Err(DateError::ExpectedDate));
}

#[test]
fn stored_identifiers_are_read() {
    assert_eq!(object_id_hex::serialize(&id(USER)), USER);
    assert_eq!(object_id_hex::deserialize(&text(USER)).unwrap().to_hex(), USER);
    let extended = object(vec![("$oid", text(USER))]);
    assert_eq!(object_id_hex::deserialize(&extended).unwrap().to_hex(), USER);
    assert!(matches!(object_id_hex::deserialize(&text("x")), Err(IdError::Digits)));
    assert!(matches!(object_id_hex::deserialize(&object(vec![])), Err(IdError::ExpectedOid)));
    assert!(matches!(object_id_hex::deserialize(&Json::Null), Err(IdError::Type)));
    assert!(object_id_hex::option::deserialize(&None).unwrap().is_none());
    let list = Some(Json::Array(vec![text(USER)]));
    let ids = vec_object_id_hex::deserialize(&list).unwrap().unwrap();
    assert_eq!(vec_object_id_hex::serialize(&Some(ids)), Some(vec![USER.to_string()]));
}

// ---------- pages ----------

#[test]
fn pages_are_counted() {
    assert_eq!(read_number(Some("3"), 1), 3);
    assert_eq!(read_number(Some("-3"), 1), 1);
    assert_eq!(read_number(Some("x"), 10), 10);
    assert_eq!(read_number(None, 10), 10);
    assert_eq!(skip_for(3, 10), 20);
    assert_eq!(page_count(0, 10), 0);
    assert_eq!(page_count(21, 10), 3);
    assert_eq!(take_page(vec![1, 2, 3, 4, 5], 2, 2), vec![3, 4]);
    assert_eq!(take_page(vec![1, 2, 3], 9, 2), Vec::<i32>::new());
}

// ---------- configuration ----------

#[test]
fn the_environment_is_read() {
    let app = app();
    assert_eq!(app.mail_port, 587);
    assert_eq!(app.allowed_origins.len(), 4);
    assert_eq!(app.allowed_origins[0], "http://localhost:5173");
    assert!(app.cookie_secure);
    assert_eq!(app.cookie_samesite, "None");
    assert_eq!(app.webauthn_rp_id, "localhost");
    assert!(app.vapid_public_key.is_none());
    let env = Environment {
        allowed_origins: Some(" https://a.b/ ,, https://c.d".to_string()),
        cookie_secure: Some("NO".to_string()),
        mail_port: Some("25".to_string()),
        mail_username: Some("me".to_string()),
        vapid_private_key: Some("not a key".to_string()),
        cron_secret: Some(String::new()),
        ..environment()
    };
    let app = AppState::from_env(env, "s".to_string());
    assert_eq!(app.allowed_origins, vec!["https://a.b", "https://c.d"]);
    assert!(!app.cookie_secure);
    assert_eq!(app.mail_port, 25);
    assert_eq!(app.mail_from, "me");
    assert!(app.vapid_private_key.is_none());
    assert!(app.vapid_public_key.is_none());
    assert!(app.cron_secret.is_none());
    assert_eq!(port(&None), 3002);
    assert_eq!(port(&Some("8080".to_string())), 8080);
    assert_eq!(port(&Some("x".to_string())), 3002);
}

#[test]
fn a_key_of_the_wrong_length_switches_push_off() {
    let keys = |text: &str| {
        let env = Environment { vapid_private_key: Some(text.to_string()), ..environment() };
        let app = AppState::from_env(env, String::new());
        (app.vapid_private_key, app.vapid_public_key)
    };
    let key = "IQ9Ur0ykXoHS9gzfYX0aBjy9lvdrjx_PFUXmie9YRcY";
    let (private, public) = keys(&format!("  {key}\n"));
    assert_eq!(private.as_deref(), Some(key));
    assert_eq!(public.unwrap().len(), 87);
    for bad in ["AAAA", "", &key[1..], &format!("{key}A")] {
        assert_eq!(keys(bad), (None, None));
    }
}

#[test]
fn origins_that_no_header_can_name_are_left_out() {
    let origins = parse_origins("https://a.b,https://c\u{7f}d");
    assert_eq!(cors_origins(&origins), vec!["https://a.b"]);
}

// ---------- cookies ----------

#[test]
fn cookies_are_written_and_read() {
    let cfg = CookieConfig { secure: true, same_site: "None".to_string() };
    let cookie = session_cookie("tok", 60, &cfg);
    assert!(cookie.starts_with("noap_session=tok"));
    assert!(cookie.contains("HttpOnly") && cookie.contains("Secure"));
    assert!(cookie.contains("Max-Age=60") && cookie.contains("SameSite=None"));
    let lax = CookieConfig { secure: false, same_site: "None".to_string() };
    assert!(session_cookie("tok", 60, &lax).contains("SameSite=Lax"));
    assert_eq!(get_cookie("a=b; noap_session=tok", "noap_session").as_deref(), Some("tok"));
    assert_eq!(get_cookie("a=b", "noap_session"), None);
    let both = Cookies::Two(Cookie::ClearSession, Cookie::ClearTfa);
    let lines = set_cookie_headers(&both, &cfg);
    assert_eq!(lines.len(), 2);
    assert!(lines[0].contains("Max-Age=0"));
    assert!(set_cookie_headers(&Cookies::Nothing, &cfg).is_empty());
}

#[test]
fn joined_cookie_headers_hold_the_cookies_of_both() {
    let all = |header: &str| {
        ["a", "b", "c"].map(|name| get_cookie(header, name).unwrap_or_default())
    };
    assert_eq!(all("a=1; b=2"), ["1", "2", ""]);
    assert_eq!(all("b=3;c = 4 "), ["", "3", "4"]);
    assert_eq!(all("a=1; b=2;b=3;c = 4 "), ["1", "3", "4"]);
    assert_eq!(all(""), ["", "", ""]);
    assert_eq!(get_cookie("=x; a", ""), None);
}

#[test]
fn a_session_cookie_gives_back_its_token() {
    for same_site in ["None", "Lax", "Strict"] {
        for secure in [true, false] {
            for age in [i64::MIN, -1, 0, 604_800, i64::MAX] {
                let cfg = CookieConfig { secure, same_site: same_site.to_string() };
                let cookie = session_cookie("ab=c.d==", age, &cfg);
                assert_eq!(get_cookie(&cookie, "noap_session").as_deref(), Some("ab=c.d=="));
                assert_eq!(get_cookie(&cookie, "noap_tfa"), None);
                let cookie = tfa_cookie("t", &cfg);
                assert_eq!(get_cookie(&cookie, "noap_tfa").as_deref(), Some("t"));
                assert_eq!(get_cookie(&cookie, "noap_session"), None);
            }
        }
    }
}

// ---------- tokens ----------

fn sub() -> JwtSub {
    JwtSub { _id: USER.to_string(), name: "Ann".to_string(), googleAccount: true }
}

#[test]
fn a_session_token_reads_back() {
    let token = create_token_at(&sub(), "secret", NOW).unwrap();
    let claims = decode_token(&token, "secret").unwrap();
    assert_eq!(claims.sub, USER);
    assert_eq!(claims.iss, "login-form");
    assert_eq!(claims.exp, 1_790_604_800);
    assert_eq!(claims.jwt_sub().name, "Ann");
    assert!(matches!(decode_token(&token, "other"), Err(TokenError::Rejected)));
    assert!(matches!(decode_token("x.y.z", "secret"), Err(TokenError::Rejected)));
    assert!(create_token(sub(), "secret").is_ok());
}

#[test]
fn single_purpose_tokens_do_not_mix() {
    let reset = create_reset_token(USER, "secret", NOW).unwrap();
    let tfa = create_tfa_token(USER, "secret", NOW).unwrap();
    let session = create_token_at(&sub(), "secret", NOW).unwrap();
    assert_eq!(verify_reset_token(&reset, "secret", NOW).as_deref(), Some(USER));
    assert_eq!(verify_reset_token(&tfa, "secret", NOW), None);
    assert_eq!(verify_reset_token(&session, "secret", NOW), None);
    assert_eq!(verify_tfa_token(&tfa, "secret", NOW).as_deref(), Some(USER));
    assert_eq!(verify_tfa_token(&reset, "secret", NOW), None);
    let end = UtcTime { secs: NOW.secs + 901, nanos: 0 };
    assert_eq!(verify_reset_token(&reset, "secret", end), None);
}

#[test]
fn claims_are_read_in_both_shapes() {
    let user = || {
        object(vec![
            ("_id", text(USER)),
            ("name", text("Ann")),
            ("googleAccount", Json::Bool(false)),
        ])
    };
    let old = object(vec![("sub", user()), ("exp", number(7))]);
    let claims = claims_from_json(&old).unwrap();
    assert_eq!(claims.sub_id(), USER);
    assert_eq!(claims.sub_obj().unwrap().name, "Ann");
    assert_eq!(claims.exp, 7);
    let new = object(vec![("sub", text(USER)), ("user", user())]);
    assert_eq!(claims_from_json(&new).unwrap().jwt_sub().name, "Ann");
    let bare = object(vec![("sub", text(USER))]);
    assert_eq!(claims_from_json(&bare).unwrap().jwt_sub().name, "");
    for (value, error) in [
        (Json::Null, ClaimsError::ExpectedObject),
        (object(vec![("sub", object(vec![]))]), ClaimsError::InvalidSubObject),
        (object(vec![("sub", number(1))]), ClaimsError::InvalidSubType),
        (object(vec![]), ClaimsError::MissingSub),
    ] {
        match claims_from_json(&value) {
            Err(e) => assert_eq!(e, error),
            Ok(_) => panic!("read"),
        }
    }
}

// ---------- who makes a request ----------

#[test]
fn the_bearer_token_comes_before_the_cookie() {
    let mut h = headers();
    h.cookie = Some("noap_session=fromcookie".to_string());
    assert_eq!(request_session_token(&h), Some(("fromcookie".to_string(), true)));
    h.authorization = Some("bearer  abc ".to_string());
    assert_eq!(request_session_token(&h), Some(("abc".to_string(), false)));
    h.authorization = Some("Basic abc".to_string());
    assert_eq!(request_session_token(&h), Some(("fromcookie".to_string(), true)));
    assert_eq!(request_session_token(&headers()), None);
}

#[test]
fn a_cookie_counts_only_from_an_allowed_origin() {
    let allowed = vec!["https://a.b".to_string()];
    let mut h = headers();
    assert!(cookie_request_origin_ok(&h, &allowed, Method::Get));
    assert!(!cookie_request_origin_ok(&h, &allowed, Method::Other));
    h.referer = Some("https://a.b/page?x=1".to_string());
    assert!(cookie_request_origin_ok(&h, &allowed, Method::Other));
    h.origin = Some("https://evil.example".to_string());
    assert!(!cookie_request_origin_ok(&h, &allowed, Method::Other));
}

fn row(token: &str, owner: &str, exp: i64) -> Session {
    Session {
        id: None,
        userId: id(owner),
        token: token.to_string(),
        expAt: exp,
        ip: String::new(),
        browserData: String::new(),
        location: String::new(),
        countryFlag: String::new(),
        deviceData: Bson::Null,
        clientData: String::new(),
        createdAt: None,
    }
}

fn admission(rows: Vec<Session>, now: UtcTime) -> Admission {
    let token = create_token_at(&sub(), "secret", now).unwrap();
    let mut h = headers();
    h.authorization = Some(format!("Bearer {}", token));
    let mut listed = Vec::new();
    for mut r in rows {
        if r.token == "mine" {
            r.token = token.clone();
        }
        listed.push(r);
    }
    match verify_user(&h, Method::Get, &app(), now) {
        Step::Done(a) => a,
        Step::Ask(_, after) => match after.resume(&app(), Event::Sessions(listed), now) {
            Step::Done(a) => a,
            Step::Ask(action, after) => {
                assert!(matches!(action, Action::SessionByToken(_)));
                match after.resume(&app(), Event::Session(None), now) {
                    Step::Done(a) => a,
                    Step::Ask(..) => panic!("asks again"),
                }
            }
        },
    }
}

#[test]
fn a_request_needs_a_live_session() {
    let now = clock();
    match admission(vec![row("mine", USER, now.secs)], now) {
        Admission::Admit(claims) => assert_eq!(claims.sub, USER),
        _ => panic!("not admitted"),
    }
    for rows in [
        vec![row("mine", USER, now.secs - 1)],
        vec![row("other", USER, now.secs + 9)],
        Vec::new(),
    ] {
        match admission(rows, now) {
            Admission::Deny(reply) => assert_eq!(reply.status, 401),
            _ => panic!("not denied"),
        }
    }
    let preflight = verify_user(&headers(), Method::Options, &app(), now);
    assert!(matches!(preflight, Step::Done(Admission::Pass)));
    match verify_user(&headers(), Method::Get, &app(), now) {
        Step::Done(Admission::Deny(reply)) => assert_eq!(reply.status, 401),
        _ => panic!("not denied"),
    }
}

#[test]
fn the_session_of_a_request_has_one_owner() {
    let now = clock();
    let token = create_token_at(&sub(), "secret", now).unwrap();
    let mut h = headers();
    h.authorization = Some(format!("Bearer {}", token));
    let flow = || match bearer_session_user(&h, &app(), now) {
        Step::Ask(_, after) => after,
        Step::Done(_) => panic!("no session looked up"),
    };
    let mine = Event::Session(Some(row(&token, USER, now.secs + 9)));
    assert_eq!(flow().finish(mine, now).as_deref(), Some(USER));
    let theirs = Event::Session(Some(row(&token, "000000000000000000000001", now.secs + 9)));
    assert_eq!(flow().finish(theirs, now), None);
    assert_eq!(flow().finish(Event::Failed, now), None);
    assert!(matches!(bearer_session_user(&headers(), &app(), now), Step::Done(None)));
    let claims =
        Claims { iss: String::new(), sub: USER.to_string(), user: None, exp: 0 };
    assert!(require_owner(&claims, USER).is_ok());
    assert_eq!(require_owner(&claims, "x").unwrap_err().status, 403);
}

// ---------- budgets ----------

#[test]
fn a_budget_is_kept_and_comes_back() {
    let second = 1_000_000_000u64;
    let window = 600 * second;
    let mut limiter = RateLimiter::new();
    for i in 0..3u64 {
        assert!(limiter.check("k".to_string(), 3, window, i * second).is_ok());
    }
    assert_eq!(limiter.check("k".to_string(), 3, window, 10 * second), Err(590));
    assert!(limiter.check("other".to_string(), 3, window, 10 * second).is_ok());
    assert!(limiter.check("k".to_string(), 3, window, 601 * second).is_ok());
}

#[test]
fn only_calls_that_passed_count() {
    let mut limiter = RateLimiter::new();
    let window = 100;
    let mut passed: Vec<u64> = Vec::new();
    for now in [0, 10, 20, 30, 99, 100, 101, 109, 110, 115, 120, 205, 220] {
        let earlier = passed.iter().filter(|t| now - **t < window).count();
        let ok = limiter.check("k".to_string(), 3, window, now).is_ok();
        assert_eq!(ok, earlier < 3, "at {now}");
        if ok {
            passed.push(now);
        }
        assert!(limiter.check("other".to_string(), 50, window, now).is_ok());
        assert!(limiter.check("none".to_string(), 0, window, now).is_err());
    }
    assert_eq!(passed, [0, 10, 20, 100, 110, 120, 205, 220]);
    for from in 0..=220u64 {
        assert!(passed.iter().filter(|t| (from..from + window).contains(*t)).count() <= 3);
    }
}

#[test]
fn clients_are_told_apart_by_their_address() {
    let mut h = headers();
    assert_eq!(client_key(&h, "signin"), "signin:unknown");
    h.x_real_ip = Some("5.6.7.8".to_string());
    assert_eq!(client_key(&h, "signin"), "signin:5.6.7.8");
    h.x_forwarded_for = Some(" 1.2.3.4 , 9.9.9.9".to_string());
    assert_eq!(client_key(&h, "signin"), "signin:1.2.3.4");
}

// ---------- places and mails ----------

#[test]
fn places_and_flags() {
    assert_eq!(country_code_to_flag("br"), "🇧🇷");
    let unknown = geo_info(None);
    assert_eq!(unknown.city, "Unknown");
    let place = geo_info(Some(IpGeoResponse {
        country_name: Some("Brazil".to_string()),
        country_code2: Some("BR".to_string()),
        state_prov: None,
        city: Some("Recife".to_string()),
    }));
    assert_eq!(place.city, "Recife");
    assert_eq!(place.country_code, "BR");
    assert_eq!(fetch_geo("1.2.3.4", ""), None);
    assert!(fetch_geo("1.2.3.4", "key").unwrap().contains("1.2.3.4"));
}

#[test]
fn a_mail_greets_and_shows_the_code() {
    let html = mail_html("1234", "Ann");
    assert!(html.contains("Hi, Ann!"));
    assert!(html.contains(">1234</div>"));
    assert!(html.contains("This code expire in 1 hour."));
}

// ---------- routes ----------

#[test]
fn routes_are_listed_once() {
    let all = endpoints();
    assert_eq!(all.len(), 64);
    let mut seen = Vec::new();
    let mut open = 0;
    for e in &all {
        let r = e.route();
        let key = format!("{:?} {}", r.verb, r.path);
        assert!(!seen.contains(&key), "{}", key);
        seen.push(key);
        if !r.needs_session {
            open += 1;
        }
    }
    assert_eq!(open, 15);
    let r = Endpoint::PasskeyRemove.route();
    assert_eq!(r.verb, Verb::Delete);
    assert_eq!(r.path, "/passkeys/{credId}");
    assert!(r.needs_session);
}
