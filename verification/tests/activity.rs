use noap_server::config::{AppState, Environment};
use noap_server::flow::{Action, ActivityChange, Event, Flow, Step};
use noap_server::handlers::activity;
use noap_server::handlers::activity::{
    clean_description, clean_note_id, clean_title, normalize_dd_mm_yyyy, normalize_hhmm,
    parse_br_date_to_naive, streak_stats, today_recife_br, validate_trigger, ActivityFlow, AddReq,
    CompleteReq, LinkReq, SeenReq, ToggleReq,
};
use noap_server::http::{Body, Reply};
use noap_server::models::{Activity, ActivityTrigger, Note};
use noap_server::object_id::ObjectId;
use noap_server::time::UtcTime;
use noap_server::utils::crypto::Claims;
use noap_server::utils::object_id_from_str;

const USER: &str = "648a173ca6d551d5ee99e897";
const OTHER: &str = "000000000000000000000001";

/// 22 September 2026, 15:00 UTC: noon in Recife.
const NOON: UtcTime = UtcTime { secs: 1_790_089_200, nanos: 0 };

fn trigger(time: &str) -> ActivityTrigger {
    ActivityTrigger { time: time.to_string(), date: None, weekdays: None }
}

fn once_trigger(time: &str, date: &str) -> ActivityTrigger {
    ActivityTrigger { time: time.to_string(), date: Some(date.to_string()), weekdays: None }
}

fn id(hex: &str) -> ObjectId {
    object_id_from_str(hex).unwrap()
}

fn claims(sub: &str) -> Claims {
    Claims { iss: "login-form".to_string(), sub: sub.to_string(), user: None, exp: 0 }
}

fn app() -> AppState {
    let env = Environment {
        mail_hostname: None,
        mail_port: None,
        mail_username: None,
        mail_password: None,
        host_mail: None,
        ipgeolocation_key: None,
        allowed_origins: None,
        cookie_secure: None,
        cookie_samesite: None,
        webauthn_rp_id: None,
        webauthn_origin: None,
        webauthn_rp_name: None,
        vapid_private_key: None,
        vapid_subject: None,
        cron_secret: None,
    };
    AppState::from_env(env, "secret".to_string())
}

fn stored(owner: &str) -> Activity {
    Activity {
        id: Some(id("6ab290bf9c189ae12d54b155")),
        userId: id(owner),
        title: "teste".to_string(),
        description: None,
        triggerType: "once".to_string(),
        trigger: once_trigger("11:30", "22/09/2026"),
        enabled: true,
        lastPushKey: None,
        noteId: None,
        seenOccurrences: None,
        doneDates: None,
        lastTriggeredAt: None,
        createdAt: None,
        updatedAt: None,
    }
}

fn status<S>(step: &Step<S, Reply>) -> u16 {
    match step {
        Step::Done(reply) => reply.status,
        Step::Ask(..) => 0,
    }
}

fn says<S>(step: &Step<S, Reply>) -> String {
    match step {
        Step::Done(reply) => match &reply.body {
            Body::Message(m) => m.to_string(),
            Body::Text(m) => m.clone(),
            _ => String::new(),
        },
        Step::Ask(..) => String::new(),
    }
}

fn asked<S>(step: Step<S, Reply>) -> (Action, S) {
    match step {
        Step::Ask(action, after) => (action, after),
        Step::Done(reply) => panic!("done: {:?}", reply),
    }
}

#[test]
fn normalize_hhmm_accepts_and_pads() {
    assert_eq!(normalize_hhmm("9:05").as_deref(), Some("09:05"));
    assert_eq!(normalize_hhmm("23:59").as_deref(), Some("23:59"));
    assert_eq!(normalize_hhmm("00:00").as_deref(), Some("00:00"));
    assert_eq!(normalize_hhmm(" 8:30 ").as_deref(), Some("08:30"));
}

#[test]
fn normalize_hhmm_rejects_malformed_times() {
    assert_eq!(normalize_hhmm("24:00"), None);
    assert_eq!(normalize_hhmm("12:60"), None);
    assert_eq!(normalize_hhmm("1200"), None);
    assert_eq!(normalize_hhmm(""), None);
    assert_eq!(normalize_hhmm("ab:cd"), None);
    assert_eq!(normalize_hhmm("1:2:3"), None);
    assert_eq!(normalize_hhmm("123:45"), None);
}

#[test]
fn normalize_dd_mm_yyyy_accepts_and_pads() {
    assert_eq!(normalize_dd_mm_yyyy("1/5/2026").as_deref(), Some("01/05/2026"));
    assert_eq!(normalize_dd_mm_yyyy("25/12/2026").as_deref(), Some("25/12/2026"));
}

#[test]
fn normalize_dd_mm_yyyy_rejects_invalid_dates() {
    assert_eq!(normalize_dd_mm_yyyy("31/02/2026"), None);
    assert_eq!(normalize_dd_mm_yyyy("2026/05/01"), None);
    assert_eq!(normalize_dd_mm_yyyy("32/01/2026"), None);
    assert_eq!(normalize_dd_mm_yyyy("01/13/2026"), None);
    assert_eq!(normalize_dd_mm_yyyy("garbage"), None);
    assert_eq!(normalize_dd_mm_yyyy(""), None);
}

#[test]
fn times_and_dates_have_no_signs() {
    assert_eq!(normalize_hhmm("+9:05"), None);
    assert_eq!(normalize_hhmm("9:+5"), None);
    assert_eq!(normalize_dd_mm_yyyy("+1/5/2026"), None);
    assert_eq!(normalize_dd_mm_yyyy("1/+5/2026"), None);
    assert_eq!(normalize_dd_mm_yyyy("1/5/+026"), None);
    assert_eq!(normalize_dd_mm_yyyy("1/5/-001"), None);
    assert_eq!(normalize_dd_mm_yyyy("1/5/0001").as_deref(), Some("01/05/0001"));
}

#[test]
fn validate_trigger_daily_normalizes_time() {
    let normalized = validate_trigger("daily", &trigger("8:30")).unwrap();
    assert_eq!(normalized.time, "08:30");
    assert!(normalized.date.is_none());
}

#[test]
fn validate_trigger_once_normalizes_time_and_date() {
    let normalized = validate_trigger("once", &once_trigger("7:5", "3/4/2027")).unwrap();
    assert_eq!(normalized.time, "07:05");
    assert_eq!(normalized.date.as_deref(), Some("03/04/2027"));
}

#[test]
fn validate_trigger_once_requires_a_valid_date() {
    assert!(validate_trigger("once", &trigger("10:00")).is_err());
    assert!(validate_trigger("once", &once_trigger("10:00", "31/02/2026")).is_err());
    // 29/02 only exists in leap years.
    assert!(validate_trigger("once", &once_trigger("10:00", "29/02/2026")).is_err());
    assert!(validate_trigger("once", &once_trigger("10:00", "29/02/2028")).is_ok());
}

#[test]
fn validate_trigger_rejects_bad_times_and_unknown_types() {
    assert!(validate_trigger("daily", &trigger("25:00")).is_err());
    assert!(validate_trigger("daily", &trigger("")).is_err());
    assert!(validate_trigger("weekly", &trigger("10:00")).is_err());
    assert!(validate_trigger("interval", &trigger("10:00")).is_err());
}

#[test]
fn clean_note_id_treats_missing_and_empty_as_no_link() {
    assert_eq!(clean_note_id(None).unwrap(), None);
    assert_eq!(clean_note_id(Some("".to_string())).unwrap(), None);
    assert_eq!(clean_note_id(Some("   ".to_string())).unwrap(), None);
}

#[test]
fn clean_note_id_accepts_valid_hex_and_rejects_garbage() {
    let hex = "648a173ca6d551d5ee99e897";
    assert_eq!(clean_note_id(Some(hex.to_string())).unwrap(), Some(hex.to_string()));
    assert!(clean_note_id(Some("not-an-id".to_string())).is_err());
}

/// `days` days before the day of `NOON`, written `DD/MM/YYYY`.
fn days_ago(days: i64) -> String {
    today_recife_br(UtcTime { secs: NOON.secs - days * 86_400, nanos: 0 })
}

#[test]
fn streak_stats_counts_consecutive_days_back_from_today() {
    let done = vec![days_ago(2), days_ago(1), days_ago(0)];
    assert_eq!(streak_stats(&done, NOON), (3, 3));
}

#[test]
fn streak_stats_keeps_streak_when_today_not_done_yet() {
    let done = vec![days_ago(1), days_ago(2)];
    assert_eq!(streak_stats(&done, NOON), (2, 2));
}

#[test]
fn streak_stats_breaks_on_gaps_and_ignores_bad_dates() {
    // Gap yesterday -> streak 0, but total still counts older days.
    let done = vec![days_ago(2), "garbage".to_string()];
    assert_eq!(streak_stats(&done, NOON), (0, 1));
    // Empty history -> no streak, no total.
    assert_eq!(streak_stats(&Vec::new(), NOON), (0, 0));
}

#[test]
fn today_in_recife_is_three_hours_behind() {
    assert_eq!(today_recife_br(NOON), "22/09/2026");
    // 02:59:59 UTC on the 23rd is still the 22nd in Recife.
    assert_eq!(today_recife_br(UtcTime { secs: 1_790_132_399, nanos: 0 }), "22/09/2026");
    assert_eq!(today_recife_br(UtcTime { secs: 1_790_132_400, nanos: 0 }), "23/09/2026");
}

#[test]
fn days_are_counted_from_the_first_of_january_of_the_year_one() {
    assert_eq!(parse_br_date_to_naive("01/01/0001"), Some(1));
    assert_eq!(parse_br_date_to_naive("01/01/1970"), Some(719_163));
    assert_eq!(parse_br_date_to_naive("29/02/2027"), None);
}

#[test]
fn a_day_counts_once() {
    let done = vec![days_ago(0), days_ago(0), days_ago(1)];
    assert_eq!(streak_stats(&done, NOON), (2, 2));
}

#[test]
fn titles_and_descriptions_are_trimmed_and_bounded() {
    assert_eq!(clean_title("  Read ").unwrap(), "Read");
    assert!(clean_title("   ").is_err());
    assert!(clean_title(&"x".repeat(121)).is_err());
    assert_eq!(clean_title(&"x".repeat(120)).unwrap().len(), 120);
    assert_eq!(clean_description(Some("  ".to_string())).unwrap(), None);
    assert_eq!(clean_description(Some(" a ".to_string())).unwrap(), Some("a".to_string()));
    assert!(clean_description(Some("x".repeat(501))).is_err());
}

#[test]
fn an_unknown_trigger_is_named_in_the_refusal() {
    match validate_trigger("weekly", &trigger("10:00")) {
        Err(reply) => assert!(format!("{:?}", reply.body).contains("weekly")),
        Ok(_) => panic!("accepted"),
    }
}

fn new_activity(note: Option<&str>) -> AddReq {
    AddReq {
        title: " Water ".to_string(),
        description: None,
        triggerType: "daily".to_string(),
        trigger: trigger("8:30"),
        enabled: None,
        noteId: note.map(|n| n.to_string()),
    }
}

#[test]
fn an_activity_is_added_for_its_owner() {
    let (action, after) = asked(activity::add(&claims(USER), USER, new_activity(None), NOON));
    match action {
        Action::InsertActivity(a) => {
            assert_eq!(a.title, "Water");
            assert_eq!(a.trigger.time, "08:30");
            assert!(a.enabled);
            assert_eq!(a.userId.to_hex(), USER);
            assert_eq!(a.createdAt, Some(NOON));
        }
        other => panic!("{:?}", other),
    }
    let done = after.resume(&app(), Event::Done, NOON);
    assert_eq!(status(&done), 200);
}

#[test]
fn an_activity_is_not_added_for_another() {
    let step = activity::add(&claims(OTHER), USER, new_activity(None), NOON);
    assert_eq!(status(&step), 403);
    assert_eq!(says(&step), "Access denied");
}

fn note(author: &str) -> Note {
    Note {
        id: Some(id("6ab290bf9c189ae12d54b155")),
        name: Some("list".to_string()),
        body: None,
        labels: None,
        image: None,
        state: None,
        settings: None,
        author: author.to_string(),
        pageLocation: None,
        createdAt: None,
        updatedAt: None,
    }
}

#[test]
fn only_own_notes_are_linked() {
    let hex = "6ab290bf9c189ae12d54b155";
    for (author, expected) in [(USER, 0), (OTHER, 403)] {
        let (action, after) =
            asked(activity::add(&claims(USER), USER, new_activity(Some(hex)), NOON));
        assert!(matches!(action, Action::NoteById(_)));
        let step = after.resume(&app(), Event::Note(Some(note(author))), NOON);
        assert_eq!(status(&step), expected);
    }
    let (_, after) = asked(activity::add(&claims(USER), USER, new_activity(Some(hex)), NOON));
    assert_eq!(status(&after.resume(&app(), Event::Note(None), NOON)), 404);
}

#[test]
fn only_the_owner_changes_an_activity() {
    let act = "6ab290bf9c189ae12d54b155";
    let (_, after) = asked(activity::toggle(&claims(OTHER), act, ToggleReq { enabled: false }));
    let step = after.resume(&app(), Event::Activity(Some(stored(USER))), NOON);
    assert_eq!(status(&step), 403);
    let (_, after) = asked(activity::toggle(&claims(USER), act, ToggleReq { enabled: false }));
    let (action, after) =
        asked(after.resume(&app(), Event::Activity(Some(stored(USER))), NOON));
    match action {
        Action::UpdateActivity { change: ActivityChange::Enabled(on), at, .. } => {
            assert!(!on);
            assert_eq!(at, NOON);
        }
        other => panic!("{:?}", other),
    }
    assert_eq!(status(&after.resume(&app(), Event::Done, NOON)), 200);
    assert_eq!(says(&activity::delete(&claims(USER), "nonsense")), "Invalid id");
}

#[test]
fn a_day_is_completed_and_counted() {
    let act = "6ab290bf9c189ae12d54b155";
    let (_, after) = asked(activity::complete(&claims(USER), act, CompleteReq { date: None }));
    let (action, after) =
        asked(after.resume(&app(), Event::Activity(Some(stored(USER))), NOON));
    match action {
        Action::UpdateActivity { change: ActivityChange::Done(day), .. } => {
            assert_eq!(day, "22/09/2026");
        }
        other => panic!("{:?}", other),
    }
    let (_, after) = match after.resume(&app(), Event::Done, NOON) {
        Step::Ask(a, s) => (a, s),
        Step::Done(r) => panic!("{:?}", r),
    };
    let mut again = stored(USER);
    again.doneDates = Some(vec!["22/09/2026".to_string()]);
    match after.resume(&app(), Event::Activity(Some(again)), NOON) {
        Step::Done(reply) => match reply.body {
            Body::Completed { progress, date } => {
                assert_eq!(date, "22/09/2026");
                assert_eq!(progress.currentStreak, 1);
                assert_eq!(progress.totalCompletions, 1);
            }
            other => panic!("{:?}", other),
        },
        Step::Ask(a, _) => panic!("{:?}", a),
    }
}

#[test]
fn a_seen_occurrence_is_recorded() {
    let act = "6ab290bf9c189ae12d54b155";
    let req = SeenReq { occurrenceKey: Some("daily:2026-09-22".to_string()), occurrence: None };
    let (_, after) = asked(activity::record_seen(&claims(USER), act, req));
    let (action, _) = asked(after.resume(&app(), Event::Activity(Some(stored(USER))), NOON));
    match action {
        Action::UpdateActivity { change: ActivityChange::Seen(key), .. } => {
            assert_eq!(key, "daily:2026-09-22");
        }
        other => panic!("{:?}", other),
    }
}

#[test]
fn a_note_is_linked_and_unlinked() {
    let act = "6ab290bf9c189ae12d54b155";
    let req = LinkReq { noteId: "648a173ca6d551d5ee99e8aa".to_string() };
    let (_, after) = asked(activity::link_note(&claims(USER), act, req));
    let (action, after) =
        asked(after.resume(&app(), Event::Activity(Some(stored(USER))), NOON));
    assert!(matches!(action, Action::NoteById(_)));
    let (action, _) = asked(after.resume(&app(), Event::Note(Some(note(USER))), NOON));
    assert!(matches!(
        action,
        Action::UpdateActivity { change: ActivityChange::LinkNote(_), .. }
    ));
    let (_, after) = asked(activity::unlink_note(&claims(USER), act));
    let (action, _) = asked(after.resume(&app(), Event::Activity(Some(stored(USER))), NOON));
    assert!(matches!(
        action,
        Action::UpdateActivity { change: ActivityChange::UnlinkNote, .. }
    ));
}

#[test]
fn the_list_of_activities_is_the_owners() {
    let (action, after) = asked(activity::view(&claims(USER), USER.to_string()));
    assert!(matches!(action, Action::ActivitiesOfEither(_, _)));
    match after.resume(&app(), Event::Activities(vec![stored(USER)]), NOON) {
        Step::Done(reply) => assert!(matches!(reply.body, Body::Activities(_))),
        Step::Ask(a, _) => panic!("{:?}", a),
    }
    assert_eq!(status(&activity::view(&claims(OTHER), USER.to_string())), 403);
    let failed: Step<ActivityFlow, Reply> = ActivityFlow::List.resume(&app(), Event::Failed, NOON);
    assert!(status(&failed) >= 400);
}
