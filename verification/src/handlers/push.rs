//! Push notifications for activities.
//!
//! Each device subscribes once; a sweep that runs every minute notifies the
//! devices of every activity that is due, whether a page is open or not.

use vstd::prelude::*;
#[allow(unused_imports)]
use vstd::string::*;

use crate::config::{AppState, VAPID_KEY_LEN};
#[allow(unused_imports)]
use crate::config::{vapid_pair, vapid_point};
#[allow(unused_imports)]
use crate::encoding::base64_text;
use crate::flow::{Action, Event, Flow, PushAnswer, PushRequest, Step, Subscription};
#[allow(unused_imports)]
use crate::handlers::activity::schedule::{is_time_text, time_form};
use crate::http::{message, reply, Body, Device, Headers, Reply, BAD_REQUEST, INTERNAL_SERVER_ERROR, OK, SERVICE_UNAVAILABLE, UNAUTHORIZED};
#[allow(unused_imports)]
use crate::http::{plain, says, Cookies};
use crate::json::{to_value, value_text, Json};
#[allow(unused_imports)]
use crate::json::{distinct_names, lemma_plain_is_whole, is_record, json_text, text_member, JsonView};
use crate::lists::reversed;
use crate::middleware::auth::require_owner;
#[allow(unused_imports)]
use crate::middleware::auth::forbidden;
use crate::models::{Activity, PushSubscription};
use crate::numbers::{padded_text, parse_i32, signed_text};
#[allow(unused_imports)]
use crate::numbers::{decimal, digits_value, in_range, signed_decimal, signed_value};
#[allow(unused_imports)]
use crate::object_id::{hex_form, is_object_id, object_id_of, ObjectId};
use crate::text::{eq_ignore_ascii_case, owned, same, split_once, starts_with, to_lowercase, trim};
#[allow(unused_imports)]
use crate::text::{ascii_lowercase, byte_len, chars_of, lemma_first_index_is, lowercase, occurs_at, split_once_at, text_of, trimmed};
use crate::time::{br_text, iso_text, recife_clock, UtcTime};
#[allow(unused_imports)]
use crate::time::{br_form, is_br_day, is_iso_day, iso_form, recife_day, recife_minutes, two_digits};
use crate::utils::crypto::Claims;
#[allow(unused_imports)]
use crate::utils::crypto::{is_token_text, text_view};
use crate::utils::{db_error, object_id_from_str};
#[allow(unused_imports)]
use crate::utils::db_failed;

pub mod kept;
pub mod stored;

verus! {

/// Minutes after its time in which an activity is still due.
pub const PUSH_GRACE_MINUTES: i32 = 5;

/// Seconds for which a push service keeps a notification.
pub const PUSH_TTL_SECS: u32 = 86_400;

pub const NOT_CONFIGURED: &'static str = "Push notifications are not configured on this server";

// ---------- subscriptions ----------

#[derive(Debug)]
pub struct SubscribeReq {
    pub endpoint: String,
    pub p256dh: String,
    pub auth: String,
    pub user_agent: Option<String>,
}

/// The public key that browsers subscribe with. It names the server and grants
/// nothing.
pub fn vapid_key(app: &AppState) -> (r: Reply)
    ensures
        match app.vapid_public_key {
            Some(key) => r == plain(OK, Body::VapidKey(key)),
            None => r == says(SERVICE_UNAVAILABLE, NOT_CONFIGURED),
        },
{
    match &app.vapid_public_key {
        Some(key) => reply(OK, Body::VapidKey(key.clone())),
        None => message(SERVICE_UNAVAILABLE, NOT_CONFIGURED),
    }
}

/// What a subscription is refused for.
pub open spec fn subscription_refused(req: SubscribeReq) -> Option<&'static str> {
    let endpoint = trimmed(req.endpoint@);
    if endpoint.len() == 0 || byte_len(endpoint) > 2048 {
        Some("Invalid push subscription endpoint")
    } else if !occurs_at(lowercase(endpoint), "https://"@, 0) {
        Some("Push subscription endpoint must be an https URL")
    } else if trimmed(req.p256dh@).len() == 0 || byte_len(req.p256dh@) > 256 {
        Some("Invalid push subscription p256dh key")
    } else if trimmed(req.auth@).len() == 0 || byte_len(req.auth@) > 256 {
        Some("Invalid push subscription auth key")
    } else {
        None
    }
}

/// Checks a subscription: an https endpoint and two keys, none too long.
pub fn validate_subscription(req: &SubscribeReq) -> (r: Result<(), Reply>)
    ensures
        match subscription_refused(*req) {
            Some(why) => r == Err::<(), Reply>(says(BAD_REQUEST, why)),
            None => r is Ok,
        },
{
    let endpoint = trim(req.endpoint.as_str());
    if endpoint.unicode_len() == 0 || endpoint.len() > 2048 {
        return Err(message(BAD_REQUEST, "Invalid push subscription endpoint"));
    }
    if !starts_with(to_lowercase(endpoint).as_str(), "https://") {
        return Err(message(BAD_REQUEST, "Push subscription endpoint must be an https URL"));
    }
    if trim(req.p256dh.as_str()).unicode_len() == 0 || req.p256dh.as_str().len() > 256 {
        return Err(message(BAD_REQUEST, "Invalid push subscription p256dh key"));
    }
    if trim(req.auth.as_str()).unicode_len() == 0 || req.auth.as_str().len() > 256 {
        return Err(message(BAD_REQUEST, "Invalid push subscription auth key"));
    }
    Ok(())
}

/// What the handling of subscriptions waits for.
pub enum PushFlow {
    /// The subscriptions of a user.
    List,
    /// The change.
    Write { done: &'static str },
}

/// `s` is the subscription of a request.
pub open spec fn is_subscription(s: Subscription, req: SubscribeReq, user: ObjectId) -> bool {
    &&& s.endpoint@ == trimmed(req.endpoint@)
    &&& s.userId == user
    &&& s.p256dh@ == trimmed(req.p256dh@)
    &&& s.auth@ == trimmed(req.auth@)
    &&& s.userAgent@ == match req.user_agent {
        Some(ua) => ua@,
        None => Seq::empty(),
    }
}

/// `r` is what a request to subscribe a device leads to.
pub open spec fn subscribe_step(
    claims: Claims,
    app: AppState,
    userId: Seq<char>,
    payload: SubscribeReq,
    now: UtcTime,
    r: Step<PushFlow, Reply>,
) -> bool {
    if claims.sub@ != userId {
        r == Step::<PushFlow, Reply>::Done(forbidden())
    } else if app.vapid_private_key is None {
        r == Step::<PushFlow, Reply>::Done(says(SERVICE_UNAVAILABLE, NOT_CONFIGURED))
    } else if subscription_refused(payload) is Some {
        r == Step::<PushFlow, Reply>::Done(says(BAD_REQUEST, subscription_refused(payload)->0))
    } else if !is_object_id(userId) {
        r == Step::<PushFlow, Reply>::Done(says(BAD_REQUEST, "Invalid userId"))
    } else {
        r matches Step::Ask(Action::UpsertSubscription(s, at), after) && is_subscription(
            s,
            payload,
            object_id_of(userId),
        ) && at == now && after == (PushFlow::Write {
            done: "Device subscribed to push notifications!",
        })
    }
}

/// Subscribes a device. The endpoint decides: a device that subscribes again is
/// updated, and one that changes hands goes to the latest subscriber.
pub fn subscribe(
    claims: &Claims,
    app: &AppState,
    userId: &str,
    payload: SubscribeReq,
    now: UtcTime,
) -> (r: Step<PushFlow, Reply>)
    ensures
        subscribe_step(*claims, *app, userId@, payload, now, r),
{
    match require_owner(claims, userId) {
        Err(e) => {
            return Step::Done(e);
        },
        Ok(_) => {},
    }
    if app.vapid_private_key.is_none() {
        return Step::Done(message(SERVICE_UNAVAILABLE, NOT_CONFIGURED));
    }
    match validate_subscription(&payload) {
        Err(e) => {
            return Step::Done(e);
        },
        Ok(_) => {},
    }
    match object_id_from_str(userId) {
        None => Step::Done(message(BAD_REQUEST, "Invalid userId")),
        Some(user) => {
            let subscription = Subscription {
                endpoint: owned(trim(payload.endpoint.as_str())),
                userId: user,
                p256dh: owned(trim(payload.p256dh.as_str())),
                auth: owned(trim(payload.auth.as_str())),
                userAgent: match payload.user_agent {
                    Some(ua) => ua,
                    None => String::new(),
                },
            };
            Step::Ask(
                Action::UpsertSubscription(subscription, now),
                PushFlow::Write { done: "Device subscribed to push notifications!" },
            )
        },
    }
}

/// The endpoint that a request names, trimmed; empty where it names none.
pub open spec fn named_endpoint(payload: JsonView) -> Seq<char> {
    match text_member(payload, "endpoint"@) {
        Some(s) => trimmed(s),
        None => trimmed(Seq::empty()),
    }
}

/// Ends the subscription of a device. One that is not subscribed is no error.
pub fn unsubscribe(claims: &Claims, userId: &str, payload: &Json) -> (r: Step<PushFlow, Reply>)
    ensures
        if claims.sub@ != userId@ {
            r == Step::<PushFlow, Reply>::Done(forbidden())
        } else if named_endpoint(payload@).len() == 0 {
            r == Step::<PushFlow, Reply>::Done(says(BAD_REQUEST, "Missing subscription endpoint"))
        } else if !is_object_id(userId@) {
            r == Step::<PushFlow, Reply>::Done(says(BAD_REQUEST, "Invalid userId"))
        } else {
            r matches Step::Ask(Action::DeleteSubscriptionOf { user, endpoint }, after) && user
                == object_id_of(userId@) && endpoint@ == named_endpoint(payload@) && after == (
            PushFlow::Write { done: "Device unsubscribed!" })
        },
{
    match require_owner(claims, userId) {
        Err(e) => {
            return Step::Done(e);
        },
        Ok(_) => {},
    }
    let endpoint = match payload.get_str("endpoint") {
        Some(s) => owned(trim(s)),
        None => {
            let none = String::new();
            owned(trim(none.as_str()))
        },
    };
    if endpoint.as_str().unicode_len() == 0 {
        return Step::Done(message(BAD_REQUEST, "Missing subscription endpoint"));
    }
    match object_id_from_str(userId) {
        None => Step::Done(message(BAD_REQUEST, "Invalid userId")),
        Some(user) => Step::Ask(
            Action::DeleteSubscriptionOf { user, endpoint },
            PushFlow::Write { done: "Device unsubscribed!" },
        ),
    }
}

/// Lists the devices of a user.
pub fn list(claims: &Claims, userId: &str) -> (r: Step<PushFlow, Reply>)
    ensures
        r == if claims.sub@ != userId@ {
            Step::Done(forbidden())
        } else if !is_object_id(userId@) {
            Step::Done(says(BAD_REQUEST, "Invalid userId"))
        } else {
            Step::Ask(Action::SubscriptionsOf(object_id_of(userId@)), PushFlow::List)
        },
{
    match require_owner(claims, userId) {
        Err(e) => {
            return Step::Done(e);
        },
        Ok(_) => {},
    }
    match object_id_from_str(userId) {
        None => Step::Done(message(BAD_REQUEST, "Invalid userId")),
        Some(user) => Step::Ask(Action::SubscriptionsOf(user), PushFlow::List),
    }
}

/// A subscription without its keys.
pub open spec fn device_of(s: PushSubscription) -> Device {
    Device {
        endpoint: s.endpoint,
        userAgent: s.userAgent,
        createdAt: s.createdAt,
        updatedAt: s.updatedAt,
    }
}

fn devices(subscriptions: Vec<PushSubscription>) -> (r: Vec<Device>)
    ensures
        r@.len() == subscriptions@.len(),
        forall|i: int| 0 <= i < r@.len() ==> #[trigger] r@[i] == device_of(subscriptions@[i]),
{
    let mut out: Vec<Device> = Vec::new();
    for s in it: subscriptions
        invariant
            it.seq() == subscriptions@,
            out@.len() == it.index(),
            forall|i: int|
                0 <= i < out@.len() ==> #[trigger] out@[i] == device_of(subscriptions@[i]),
    {
        out.push(
            Device {
                endpoint: s.endpoint,
                userAgent: s.userAgent,
                createdAt: s.createdAt,
                updatedAt: s.updatedAt,
            },
        );
    }
    out
}

impl PushFlow {
    /// `r` is what follows an answer. The keys of the devices are not in it.
    pub open spec fn next(self, event: Event, r: Step<PushFlow, Reply>) -> bool {
        match self {
            PushFlow::List => match event {
                Event::Subscriptions(subscriptions) => r matches Step::Done(
                    Reply { status, cookies: Cookies::Nothing, body: Body::Devices(list) },
                ) && status == OK && list@.len() == subscriptions@.len() && forall|i: int|
                    0 <= i < list@.len() ==> #[trigger] list@[i] == device_of(subscriptions@[i]),
                _ => r == Step::<PushFlow, Reply>::Done(db_failed(INTERNAL_SERVER_ERROR)),
            },
            PushFlow::Write { done } => r == Step::<PushFlow, Reply>::Done(
                if event is Done {
                    says(OK, done)
                } else {
                    db_failed(INTERNAL_SERVER_ERROR)
                },
            ),
        }
    }
}

impl Flow for PushFlow {
    type Out = Reply;

    open spec fn ready(self) -> bool {
        true
    }

    fn resume(self, app: &AppState, event: Event, now: UtcTime) -> (r: Step<PushFlow, Reply>)
        ensures
            self.next(event, r),
    {
        match self {
            PushFlow::List => match event {
                Event::Subscriptions(subscriptions) => Step::Done(
                    reply(OK, Body::Devices(devices(subscriptions))),
                ),
                _ => Step::Done(db_error(INTERNAL_SERVER_ERROR)),
            },
            PushFlow::Write { done } => match event {
                Event::Done => Step::Done(message(OK, done)),
                _ => Step::Done(db_error(INTERNAL_SERVER_ERROR)),
            },
        }
    }
}

// ---------- what is due ----------

/// Today as `DD/MM/YYYY`, the minute of the day, and today as `YYYY-MM-DD`, by
/// the wall clock of Recife.
pub fn recife_now(now: UtcTime) -> (r: (String, i32, String))
    requires
        now.is_clock(),
    ensures
        is_br_day(r.0@, recife_day(now)),
        r.1 == recife_minutes(now),
        0 <= r.1 < 1440,
        is_iso_day(r.2@, recife_day(now)),
{
    let ((year, month, day), minutes) = recife_clock(now);
    let br = br_text(year, month, day);
    let iso = iso_text(year, month, day);
    proof {
        assert(br@ == br_form(year as int, month as int, day as int));
        assert(iso@ == iso_form(year as int, month as int, day as int));
    }
    (br, minutes, iso)
}

/// The minute of the day that a time writes.
pub open spec fn trigger_minutes(time: Seq<char>) -> Option<int> {
    match split_once_at(time, ':') {
        Some((h, m)) => match (
            in_range(signed_value(h), i32::MIN as int, i32::MAX as int),
            in_range(signed_value(m), i32::MIN as int, i32::MAX as int),
        ) {
            (Some(hours), Some(minutes)) => Some(hours * 60 + minutes),
            _ => None,
        },
        None => None,
    }
}

/// The occurrence of an activity that is due: `daily:` and the day, or `once:`
/// and the day. It is due from its time on, for the minutes of grace.
pub open spec fn due_key(
    activity: Activity,
    today_br: Seq<char>,
    now_minutes: int,
    today_key: Seq<char>,
) -> Option<Seq<char>> {
    match trigger_minutes(activity.trigger.time@) {
        None => None,
        Some(at) => if !activity.enabled || !(0 <= now_minutes - at <= PUSH_GRACE_MINUTES) {
            None
        } else if activity.triggerType@ == "daily"@ {
            Some("daily:"@ + today_key)
        } else if activity.triggerType@ == "once"@ && text_view(activity.trigger.date) == Some(
            today_br,
        ) {
            Some("once:"@ + today_br)
        } else {
            None
        },
    }
}

/// The occurrence of an activity that is due now, if one is.
pub fn due_occurrence_key(
    activity: &Activity,
    today_br: &str,
    now_minutes: i32,
    today_key: &str,
) -> (r: Option<String>)
    ensures
        text_view(r) == due_key(*activity, today_br@, now_minutes as int, today_key@),
{
    if !activity.enabled {
        return None;
    }
    let (hours, minutes) = match split_once(activity.trigger.time.as_str(), ':') {
        None => {
            return None;
        },
        Some((h, m)) => match (parse_i32(h), parse_i32(m)) {
            (Some(hours), Some(minutes)) => (hours, minutes),
            _ => {
                return None;
            },
        },
    };
    let diff: i64 = now_minutes as i64 - (hours as i64 * 60 + minutes as i64);
    if diff < 0 || diff > PUSH_GRACE_MINUTES as i64 {
        return None;
    }
    if same(activity.triggerType.as_str(), "daily") {
        let mut key = owned("daily:");
        key.push_str(today_key);
        return Some(key);
    }
    if same(activity.triggerType.as_str(), "once") {
        match &activity.trigger.date {
            Some(date) => {
                if same(date.as_str(), today_br) {
                    let mut key = owned("once:");
                    key.push_str(today_br);
                    return Some(key);
                }
            },
            None => {},
        }
    }
    None
}

/// The occurrence that is due follows from the time that is written, two digits
/// of hours, a colon and two digits of minutes: it is due from then on, for the
/// five minutes that follow.
pub proof fn law_due_key_follows_the_written_time(
    activity: Activity,
    hours: int,
    minutes: int,
    today_br: Seq<char>,
    now_minutes: int,
    today_key: Seq<char>,
)
    requires
        0 <= hours < 24,
        0 <= minutes < 60,
        is_time_text(activity.trigger.time@, hours, minutes),
    ensures
        ({
            let r = due_key(activity, today_br, now_minutes, today_key);
            let due = activity.enabled && hours * 60 + minutes <= now_minutes <= hours * 60
                + minutes + 5;
            let own_day = activity.trigger.date matches Some(date) && date@ == today_br;
            &&& activity.triggerType@ == "daily"@ ==> r == if due {
                Some("daily:"@ + today_key)
            } else {
                None
            }
            &&& activity.triggerType@ == "once"@ ==> r == if due && own_day {
                Some("once:"@ + today_br)
            } else {
                None
            }
            &&& activity.triggerType@ != "daily"@ && activity.triggerType@ != "once"@ ==> r is None
        }),
{
    let text = activity.trigger.time@;
    reveal_strlit("daily");
    reveal_strlit("once");
    assert("daily"@.len() == 5 && "once"@.len() == 4);
    lemma_first_index_is(text, ':', 2);
    let (h, m) = (text.take(2), text.skip(3));
    assert(h[0] == text[0] && h[1] == text[1] && m[0] == text[3] && m[1] == text[4]);
    lemma_two_digit_value(h, hours);
    lemma_two_digit_value(m, minutes);
}

/// An activity is due from the time that its text writes, two digits of hours,
/// a colon and two digits of minutes, for the five minutes that follow: a daily
/// one every day, a single one on its own day. Before and after it is not due,
/// nor is it while it is disabled.
pub proof fn law_due_from_the_written_time(
    activity: Activity,
    hours: int,
    minutes: int,
    today_br: &str,
    now_minutes: i32,
    today_key: &str,
    r: Option<String>,
)
    requires
        call_ensures(due_occurrence_key, (&activity, today_br, now_minutes, today_key), r),
        0 <= hours < 24,
        0 <= minutes < 60,
        is_time_text(activity.trigger.time@, hours, minutes),
    ensures
        ({
            let due = activity.enabled && hours * 60 + minutes <= now_minutes <= hours * 60
                + minutes + 5;
            let own_day = activity.trigger.date matches Some(date) && date@ == today_br@;
            &&& activity.triggerType@ == "daily"@ ==> (r is Some) == due
            &&& activity.triggerType@ == "daily"@ && due ==> r->0@ == "daily:"@ + today_key@
            &&& activity.triggerType@ == "once"@ ==> (r is Some) == (due && own_day)
            &&& activity.triggerType@ == "once"@ && due && own_day ==> r->0@ == "once:"@
                + today_br@
            &&& r is Some ==> activity.triggerType@ == "daily"@ || activity.triggerType@
                == "once"@
        }),
{
    law_due_key_follows_the_written_time(
        activity,
        hours,
        minutes,
        today_br@,
        now_minutes as int,
        today_key@,
    );
}

/// Two digits write their number.
proof fn lemma_two_digit_value(s: Seq<char>, n: int)
    requires
        0 <= n < 100,
        s.len() == 2,
        s[0] as int == '0' as int + n / 10,
        s[1] as int == '0' as int + n % 10,
    ensures
        signed_value(s) == Some(n),
{
    assert(s.drop_last().drop_last() =~= Seq::empty());
    assert(digits_value(s.drop_last().drop_last()) == 0);
    assert(s.drop_last().last() == s[0]);
    assert(digits_value(s.drop_last()) == n / 10);
    assert(crate::text::is_digit(s[0]) && crate::text::is_digit(s[1]));
}

/// A number in two characters at least: zeros go before the digits, and a
/// minus counts.
pub open spec fn two_wide(n: int) -> Seq<char> {
    if n < 0 {
        signed_decimal(n)
    } else {
        two_digits(n)
    }
}

fn two_wide_text(n: i64) -> (r: String)
    ensures
        r@ == two_wide(n as int),
{
    if n < 0 {
        signed_text(n)
    } else {
        padded_text(n as u64, 2)
    }
}

/// Writes minutes as `HH:MM`. Of negative minutes, both parts are negative.
pub fn minutes_to_hhmm(minutes: i32) -> (r: String)
    ensures
        minutes >= 0 ==> r@ == time_form(minutes as int / 60, minutes as int % 60),
        minutes < 0 ==> r@ == two_wide(-((-minutes) / 60)) + seq![':'] + two_wide(
            -((-minutes) % 60),
        ),
{
    let n: i64 = minutes as i64;
    let size: i64 = if n < 0 {
        -n
    } else {
        n
    };
    let hours: i64 = size / 60;
    let rest: i64 = size % 60;
    let mut s = two_wide_text(
        if n < 0 {
            -hours
        } else {
            hours
        },
    );
    s.push(':');
    let tail = two_wide_text(
        if n < 0 {
            -rest
        } else {
            rest
        },
    );
    let ghost head = s@;
    s.push_str(tail.as_str());
    assert(s@ =~= head + tail@);
    assert(minutes >= 0 ==> s@ =~= time_form(minutes as int / 60, minutes as int % 60));
    s
}

/// Whether `b` begins with `a`; of one length, whether they are the same. All
/// bytes of `a` are looked at, whatever the first ones are.
pub fn subtle_time_eq(a: &[u8], b: &[u8]) -> (r: bool)
    requires
        a@.len() <= b@.len(),
    ensures
        r == (a@ == b@.take(a@.len() as int)),
{
    let mut diff: u8 = 0;
    let mut i: usize = 0;
    assert(a@.take(0) =~= b@.take(0));
    while i < a.len()
        invariant
            i <= a@.len(),
            a@.len() <= b@.len(),
            (diff == 0) == (a@.take(i as int) == b@.take(i as int)),
        decreases a@.len() - i,
    {
        let x = a[i];
        let y = b[i];
        assert(((diff | (x ^ y)) == 0) == (diff == 0 && x == y)) by (bit_vector);
        proof {
            let s = a@.take(i + 1);
            let t = b@.take(i + 1);
            assert(s =~= a@.take(i as int).push(x));
            assert(t =~= b@.take(i as int).push(y));
            if s == t {
                assert(s.drop_last() == t.drop_last());
                assert(s.drop_last() =~= a@.take(i as int));
                assert(t.drop_last() =~= b@.take(i as int));
                assert(s.last() == t.last());
            }
        }
        diff = diff | (x ^ y);
        i += 1;
    }
    assert(a@.take(i as int) =~= a@);
    diff == 0
}

/// Whether two texts are the same, in time that depends on their lengths only.
pub fn same_secret(presented: &str, expected: &str) -> (r: bool)
    ensures
        r == (presented@ == expected@),
{
    let a = presented.as_bytes();
    let b = expected.as_bytes();
    proof {
        vstd::utf8::encode_utf8_decode_utf8(presented@);
        vstd::utf8::encode_utf8_decode_utf8(expected@);
    }
    assert(a@.len() == b@.len() ==> b@.take(a@.len() as int) =~= b@);
    a.len() == b.len() && subtle_time_eq(a, b)
}

// ---------- notifications ----------

/// What a notification says.
#[derive(Debug)]
pub struct PushPayload {
    pub title: String,
    pub body: String,
    pub tag: String,
    pub url: String,
    pub activity_id: String,
    pub occurrence_key: String,
}

/// The part of an occurrence after its kind.
pub open spec fn short_key(occurrence: Seq<char>) -> Seq<char> {
    match split_once_at(occurrence, ':') {
        Some((_, k)) => k,
        None => occurrence,
    }
}

/// `p` is the notification for an occurrence of an activity. It opens the
/// linked note. Its tag is that of the notification which an open page shows,
/// so that one replaces the other.
pub open spec fn is_payload(
    p: PushPayload,
    activity: Activity,
    id: ObjectId,
    occurrence: Seq<char>,
) -> bool {
    &&& p.title@ == activity.title@
    &&& p.body@ == match activity.description {
        Some(d) => d@,
        None => "Scheduled activity"@,
    }
    &&& p.tag@ == "noap-activity-"@ + hex_form(id@) + "-"@ + short_key(occurrence)
    &&& p.url@ == match activity.noteId {
        Some(n) => "/notes/page/1/note/"@ + n@,
        None => "/"@,
    }
    &&& p.activity_id@ == hex_form(id@)
    &&& p.occurrence_key@ == occurrence
}

/// Puts the notification for an occurrence together.
pub fn push_payload(activity: &Activity, id: &ObjectId, occurrence: &str) -> (r: PushPayload)
    ensures
        is_payload(r, *activity, *id, occurrence@),
{
    let hex = id.to_hex();
    let url = match &activity.noteId {
        Some(n) => {
            let mut url = owned("/notes/page/1/note/");
            url.push_str(n.as_str());
            url
        },
        None => owned("/"),
    };
    let short = match split_once(occurrence, ':') {
        Some((_, k)) => k,
        None => occurrence,
    };
    let mut tag = owned("noap-activity-");
    tag.push_str(hex.as_str());
    tag.push_str("-");
    tag.push_str(short);
    PushPayload {
        title: activity.title.clone(),
        body: match &activity.description {
            Some(d) => d.clone(),
            None => owned("Scheduled activity"),
        },
        tag,
        url,
        activity_id: hex,
        occurrence_key: owned(occurrence),
    }
}

/// The JSON form of a notification.
pub open spec fn payload_json(p: PushPayload) -> JsonView {
    JsonView::Object(
        seq![
            ("title"@, JsonView::Text(p.title@)),
            ("body"@, JsonView::Text(p.body@)),
            ("tag"@, JsonView::Text(p.tag@)),
            ("url"@, JsonView::Text(p.url@)),
            ("activityId"@, JsonView::Text(p.activity_id@)),
            ("occurrenceKey"@, JsonView::Text(p.occurrence_key@)),
        ],
    )
}

/// `text` is the notification for an occurrence, as JSON text.
pub open spec fn is_notice(
    text: Seq<char>,
    activity: Activity,
    id: ObjectId,
    occurrence: Seq<char>,
) -> bool {
    exists|p: PushPayload|
        is_payload(p, activity, id, occurrence) && text == json_text(#[trigger] payload_json(p))
}

/// Writes a notification as JSON text.
pub fn payload_text(p: PushPayload) -> (r: String)
    ensures
        r@ == json_text(payload_json(p)),
{
    let ghost form = payload_json(p);
    let json = Json::Object(
        vec![
            (owned("title"), Json::Text(p.title)),
            (owned("body"), Json::Text(p.body)),
            (owned("tag"), Json::Text(p.tag)),
            (owned("url"), Json::Text(p.url)),
            (owned("activityId"), Json::Text(p.activity_id)),
            (owned("occurrenceKey"), Json::Text(p.occurrence_key)),
        ],
    );
    proof {
        reveal_with_fuel(Json::view, 2);
        assert(json@->Object_0 =~= form->Object_0);
        reveal_strlit("title");
        reveal_strlit("body");
        reveal_strlit("tag");
        reveal_strlit("url");
        reveal_strlit("activityId");
        reveal_strlit("occurrenceKey");
        assert("title"@[0] == 't' && "title"@.len() == 5 && "tag"@[0] == 't' && "tag"@.len() == 3);
        assert("body"@[0] == 'b' && "url"@[0] == 'u');
        assert("activityId"@[0] == 'a' && "occurrenceKey"@[0] == 'o');
        assert(distinct_names(form->Object_0));
        assert(is_record(form));
        lemma_plain_is_whole(form);
    }
    value_text(&to_value(json))
}

/// An endpoint that a request can be sent to, by its scheme.
pub open spec fn is_web(endpoint: Seq<char>) -> bool {
    ||| endpoint.len() >= 7 && ascii_lowercase(endpoint.take(7)) == ascii_lowercase("http://"@)
    ||| endpoint.len() >= 8 && ascii_lowercase(endpoint.take(8)) == ascii_lowercase("https://"@)
}

fn has_web_scheme(endpoint: &str) -> (r: bool)
    ensures
        r == is_web(endpoint@),
{
    let chars = chars_of(endpoint);
    if chars.len() < 7 {
        return false;
    }
    let short = text_of(&chars, 0, 7);
    assert(short@ =~= endpoint@.take(7));
    if eq_ignore_ascii_case(short.as_str(), "http://") {
        return true;
    }
    if chars.len() < 8 {
        return false;
    }
    let long = text_of(&chars, 0, 8);
    assert(long@ =~= endpoint@.take(8));
    eq_ignore_ascii_case(long.as_str(), "https://")
}

/// The text of a URI that `http::Uri` reads.
pub uninterp spec fn uri_text(uri: Seq<char>) -> Seq<char>;

/// One of the headers is `name`, with the text `value`.
pub open spec fn has_header(
    headers: Seq<(String, Vec<u8>)>,
    name: Seq<char>,
    value: Seq<char>,
) -> bool {
    exists|i: int|
        0 <= i < headers.len() && (#[trigger] headers[i]).0@ == name && headers[i].1@
            == vstd::utf8::encode_utf8(value)
}

/// One of the headers is the VAPID authorization of a token and the public key
/// that it was signed for.
pub open spec fn has_authorization(
    headers: Seq<(String, Vec<u8>)>,
    token: Seq<char>,
    point: Seq<u8>,
) -> bool {
    has_header(
        headers,
        "authorization"@,
        "vapid t="@ + token + ", k="@ + base64_text(point, true),
    )
}

/// The headers of an urgent, encrypted request that lasts for a time.
pub open spec fn are_push_headers(headers: Seq<(String, Vec<u8>)>, ttl: u32) -> bool {
    &&& has_header(headers, "ttl"@, decimal(ttl as nat))
    &&& has_header(headers, "urgency"@, "high"@)
    &&& has_header(headers, "content-encoding"@, "aes128gcm"@)
}

/// The signature of a request: a signed token, and the public key to check it
/// with.
struct Signature {
    token: String,
    point: Vec<u8>,
}

/// What a device subscribed with.
struct DeviceKeys<'a> {
    endpoint: &'a str,
    p256dh: &'a str,
    auth: &'a str,
}

/// `web_push` signs with a private key for the service of an endpoint, naming
/// a subject.
pub uninterp spec fn is_signable(
    private_key: Seq<char>,
    endpoint: Seq<char>,
    subject: Seq<char>,
) -> bool;

/// The subject that a token names to the service of an endpoint, where the
/// private key of the point has signed it.
pub uninterp spec fn vouched(token: Seq<char>, point: Seq<u8>, endpoint: Seq<char>) -> Option<
    Seq<char>,
>;

/// `web_push::VapidSignatureBuilder`: signs with the private key for the
/// service of an endpoint, naming the subject. Whether it does is a function of
/// the three. The token rests on the clock: of it is said that it names the
/// subject to that service, signed by the key whose public key comes with it,
/// and that it is base64url parts joined by dots. An endpoint without a scheme
/// or a host makes `web_push` panic, and so does a key that decodes to another
/// number of bytes than 32.
#[verifier::external_body]
fn sign_push(private_key: &str, device: &DeviceKeys, subject: &str) -> (r: Option<Signature>)
    requires
        is_web(device.endpoint@),
        private_key@.len() == VAPID_KEY_LEN,
    ensures
        (r is Some) == is_signable(private_key@, device.endpoint@, subject@),
        r matches Some(s) ==> vapid_point(private_key@) == Some(s.point@),
        r matches Some(s) ==> vouched(s.token@, s.point@, device.endpoint@) == Some(subject@),
        r matches Some(s) ==> is_token_text(s.token@),
{
    let info = web_push::SubscriptionInfo::new(device.endpoint, device.p256dh, device.auth);
    let partial = web_push::VapidSignatureBuilder::from_base64_no_sub(private_key).ok()?;
    let mut signer = partial.add_sub_info(&info);
    signer.add_claim("sub", subject);
    let signature = signer.build().ok()?;
    Some(Signature { token: signature.auth_t, point: signature.auth_k })
}

/// What the body of a request says to the device whose public key and secret
/// these are.
pub uninterp spec fn opened(body: Seq<u8>, p256dh: Seq<char>, auth: Seq<char>) -> Option<Seq<char>>;

/// How many bytes the body of a request for a text takes: the text is filled up
/// to a multiple of 128 bytes, and 102 bytes come with it.
pub open spec fn sealed_len(payload: Seq<char>) -> nat {
    102 + 128 * (vstd::utf8::encode_utf8(payload).len() / 128 + 1)
}

/// `web_push::WebPushMessageBuilder` and `request_builder::build_request`:
/// encrypts the payload for the device and makes an urgent request of it. The
/// request goes to the endpoint, as `http::Uri` writes it, and its headers say
/// how long it lasts, that it is urgent, how it is encrypted, and who signed
/// it. The body rests on random keys: of it is said that the device reads the
/// payload from it (as `ece::decrypt` does with the private key of the device),
/// and how long it is. Without random bytes there is no request, so none is
/// promised. A token that no header can hold makes `web_push` panic.
#[verifier::external_body]
fn encrypt_push(
    signature: Signature,
    device: &DeviceKeys,
    payload: &str,
    ttl: u32,
) -> (r: Option<PushRequest>)
    requires
        is_token_text(signature.token@),
    ensures
        r is Some ==> r->0.uri@ == uri_text(device.endpoint@),
        r is Some ==> are_push_headers(r->0.headers@, ttl),
        r is Some ==> has_authorization(r->0.headers@, signature.token@, signature.point@),
        r is Some ==> opened(r->0.body@, device.p256dh@, device.auth@) == Some(payload@),
        r is Some ==> r->0.body@.len() == sealed_len(payload@),
{
    let info = web_push::SubscriptionInfo::new(device.endpoint, device.p256dh, device.auth);
    let mut push = web_push::WebPushMessageBuilder::new(&info);
    push.set_urgency(web_push::Urgency::High);
    push.set_ttl(ttl);
    push.set_payload(web_push::ContentEncoding::Aes128Gcm, payload.as_bytes());
    push.set_vapid_signature(
        web_push::VapidSignature { auth_t: signature.token, auth_k: signature.point },
    );
    let request = web_push::request_builder::build_request::<Vec<u8>>(push.build().ok()?);
    let (parts, body) = request.into_parts();
    let named = parts.headers.iter().map(|(n, v)| (n.to_string(), v.as_bytes().into()));
    Some(PushRequest { uri: parts.uri.to_string(), headers: named.collect(), body })
}

/// Nothing but chance stands between a device and a notification: a request can
/// be signed for its endpoint.
pub open spec fn can_push(app: AppState, device: PushSubscription) -> bool {
    &&& app.vapid_private_key matches Some(key)
    &&& key@.len() == VAPID_KEY_LEN
    &&& is_web(device.endpoint@)
    &&& is_signable(key@, device.endpoint@, app.vapid_subject@)
}

/// The request is signed with the configured key, whose public key it names, for
/// the service of the device, and names the configured subject.
pub open spec fn is_signed_for(
    request: PushRequest,
    app: AppState,
    device: PushSubscription,
) -> bool {
    exists|token: Seq<char>, point: Seq<u8>|
        vapid_point(app.vapid_private_key->0@) == Some(point) && vouched(
            token,
            point,
            device.endpoint@,
        ) == Some(app.vapid_subject@) && #[trigger] has_authorization(
            request.headers@,
            token,
            point,
        )
}

/// `request` notifies the device of the payload: it goes to its endpoint, and
/// the device reads the payload from it.
pub open spec fn is_request_for(
    request: PushRequest,
    app: AppState,
    device: PushSubscription,
    payload: Seq<char>,
) -> bool {
    &&& request.uri@ == uri_text(device.endpoint@)
    &&& are_push_headers(request.headers@, PUSH_TTL_SECS)
    &&& is_signed_for(request, app, device)
    &&& opened(request.body@, device.p256dh@, device.auth@) == Some(payload)
    &&& request.body@.len() == sealed_len(payload)
}

/// A request that notifies the device of the payload was signed, and
/// `web_push` was asked to encrypt it and did not.
pub closed spec fn encryption_failed(
    app: AppState,
    device: PushSubscription,
    payload: Seq<char>,
) -> bool {
    exists|signature: Signature, keys: &DeviceKeys, text: &str|
        text@ == payload && keys.endpoint@ == device.endpoint@ && keys.p256dh@ == device.p256dh@
            && keys.auth@ == device.auth@ && vapid_point(app.vapid_private_key->0@) == Some(
            signature.point@,
        ) && vouched(signature.token@, signature.point@, device.endpoint@) == Some(
            app.vapid_subject@,
        ) && #[trigger] call_ensures(
            encrypt_push,
            (signature, keys, text, PUSH_TTL_SECS),
            None::<PushRequest>,
        )
}

/// No request can be made for the device, or making it failed.
pub open spec fn has_no_request(
    app: AppState,
    device: PushSubscription,
    payload: Seq<char>,
) -> bool {
    !can_push(app, device) || encryption_failed(app, device, payload)
}

/// Calls a function that encrypts, and keeps that the result is what it
/// returned.
fn encrypted_by(
    encrypt: impl Fn(Signature, &DeviceKeys, &str, u32) -> Option<PushRequest>,
    signature: Signature,
    device: &DeviceKeys,
    payload: &str,
    ttl: u32,
) -> (r: Option<PushRequest>)
    requires
        call_requires(encrypt, (signature, device, payload, ttl)),
    ensures
        call_ensures(encrypt, (signature, device, payload, ttl), r),
{
    encrypt(signature, device, payload, ttl)
}

fn build_push(app: &AppState, device: &PushSubscription, payload: &str) -> (r: Option<PushRequest>)
    ensures
        r is Some ==> can_push(*app, *device) && is_request_for(r->0, *app, *device, payload@),
        r is None ==> has_no_request(*app, *device, payload@),
{
    match &app.vapid_private_key {
        None => None,
        Some(key) => {
            if key.as_str().unicode_len() != VAPID_KEY_LEN || !has_web_scheme(
                device.endpoint.as_str(),
            ) {
                return None;
            }
            let keys = DeviceKeys {
                endpoint: device.endpoint.as_str(),
                p256dh: device.p256dh.as_str(),
                auth: device.auth.as_str(),
            };
            match sign_push(key.as_str(), &keys, app.vapid_subject.as_str()) {
                Some(signature) => {
                    let ghost s = signature;
                    let r = encrypted_by(encrypt_push, signature, &keys, payload, PUSH_TTL_SECS);
                    proof {
                        if r is Some {
                            assert(has_authorization(r->0.headers@, s.token@, s.point@));
                        }
                    }
                    r
                },
                None => None,
            }
        },
    }
}

/// What an answer of a push service means: whether the notification counts as
/// sent, and whether the subscription is dead.
pub open spec fn push_outcome(event: Event) -> (bool, bool) {
    match event {
        Event::Pushed(PushAnswer::Status(s)) => if 200 <= s <= 299 {
            (true, false)
        } else if s == 410 || s == 404 {
            (true, true)
        } else {
            (false, false)
        },
        _ => (false, false),
    }
}

fn read_outcome(event: Event) -> (r: (bool, bool))
    ensures
        r == push_outcome(event),
{
    match event {
        Event::Pushed(PushAnswer::Status(s)) => {
            if 200 <= s && s <= 299 {
                (true, false)
            } else if s == 410 || s == 404 {
                (true, true)
            } else {
                (false, false)
            }
        },
        _ => (false, false),
    }
}

// ---------- the sweep ----------

/// The wall clock when a sweep began.
#[derive(Debug)]
pub struct WallClock {
    pub today_br: String,
    pub minutes: i32,
    pub today_key: String,
}

/// What a sweep has done so far.
#[derive(Clone, Copy, Debug, PartialEq, Eq, Structural)]
pub struct Tally {
    pub checked: u32,
    pub pushed: u32,
}

/// What a sweep waits for.
pub enum Sweep {
    /// The beginning of the activities.
    Open { clock: WallClock },
    /// The next activity.
    Next { clock: WallClock, tally: Tally },
    /// Whether this sweep is the first to claim an occurrence.
    Claim { clock: WallClock, tally: Tally, activity: Activity, id: ObjectId, key: String },
    /// The devices of the owner.
    Devices { clock: WallClock, tally: Tally, activity: Activity, id: ObjectId, key: String },
    /// The answer for the last of `devices`; those before it are still to be
    /// notified, the last one first.
    Push {
        clock: WallClock,
        tally: Tally,
        devices: Vec<PushSubscription>,
        payload: String,
        any_sent: bool,
    },
    /// The deletion of a dead subscription.
    Prune {
        clock: WallClock,
        tally: Tally,
        devices: Vec<PushSubscription>,
        payload: String,
        any_sent: bool,
    },
}

/// One more, up to the largest number.
pub open spec fn one_more(n: u32) -> u32 {
    if n < u32::MAX {
        (n + 1) as u32
    } else {
        n
    }
}

fn add_one(n: u32) -> (r: u32)
    ensures
        r == one_more(n),
{
    if n < u32::MAX {
        n + 1
    } else {
        n
    }
}

/// On to the next activity.
pub open spec fn go_on(clock: WallClock, tally: Tally) -> Step<Sweep, Reply> {
    Step::Ask(Action::NextActivity, Sweep::Next { clock, tally })
}

/// On to the next activity, after the devices of one were notified.
pub open spec fn after_devices(clock: WallClock, tally: Tally, any_sent: bool) -> Step<
    Sweep,
    Reply,
> {
    go_on(
        clock,
        if any_sent {
            Tally { pushed: one_more(tally.pushed), ..tally }
        } else {
            tally
        },
    )
}

/// Devices of one owner that are to be notified, the last one first.
pub struct Sending {
    pub clock: WallClock,
    pub tally: Tally,
    pub devices: Vec<PushSubscription>,
    pub payload: String,
    pub any_sent: bool,
}

/// Goes on by whether a notification could be made for the last of the devices:
/// it is sent, or the device is passed over.
pub fn push_made(made: Option<PushRequest>, sending: Sending) -> (r: Result<
    Step<Sweep, Reply>,
    Sending,
>)
    requires
        sending.devices@.len() > 0,
    ensures
        match made {
            Some(request) => r == Ok::<Step<Sweep, Reply>, Sending>(
                Step::Ask(
                    Action::SendPush(request),
                    Sweep::Push {
                        clock: sending.clock,
                        tally: sending.tally,
                        devices: sending.devices,
                        payload: sending.payload,
                        any_sent: sending.any_sent,
                    },
                ),
            ),
            None => r matches Err(left) && left.devices@ == sending.devices@.drop_last()
                && left.clock == sending.clock && left.tally == sending.tally && left.payload
                == sending.payload && left.any_sent == sending.any_sent,
        },
{
    let Sending { clock, tally, devices, payload, any_sent } = sending;
    match made {
        Some(request) => Ok(
            Step::Ask(
                Action::SendPush(request),
                Sweep::Push { clock, tally, devices, payload, any_sent },
            ),
        ),
        None => {
            let mut devices = devices;
            let _ = devices.pop();
            assert(devices@ =~= sending.devices@.drop_last());
            Err(Sending { clock, tally, devices, payload, any_sent })
        },
    }
}

/// `r` is what follows while `devices` are to be notified, the last one first:
/// a notification to the last of them that one can be made for; or the next
/// activity, where there is none.
pub open spec fn is_push_step(
    r: Step<Sweep, Reply>,
    app: AppState,
    clock: WallClock,
    tally: Tally,
    devices: Seq<PushSubscription>,
    payload: String,
    any_sent: bool,
) -> bool {
    ||| r == after_devices(clock, tally, any_sent) && forall|i: int|
        0 <= i < devices.len() ==> has_no_request(app, #[trigger] devices[i], payload@)
    ||| is_sent_step(r, app, clock, tally, devices, payload, any_sent)
}

/// `r` sends a notification to the last of the first few of `devices`, where
/// none can be made for those behind it.
pub open spec fn is_sent_step(
    r: Step<Sweep, Reply>,
    app: AppState,
    clock: WallClock,
    tally: Tally,
    devices: Seq<PushSubscription>,
    payload: String,
    any_sent: bool,
) -> bool {
    r matches Step::Ask(
        Action::SendPush(request),
        Sweep::Push { clock: c, tally: t, devices: left, payload: p, any_sent: a },
    ) && c == clock && t == tally && 0 < left@.len() <= devices.len() && left@ == devices.take(
        left@.len() as int,
    ) && p == payload && a == any_sent && can_push(app, left@.last()) && is_request_for(
        request,
        app,
        left@.last(),
        payload@,
    ) && forall|i: int|
        left@.len() <= i < devices.len() ==> has_no_request(app, #[trigger] devices[i], payload@)
}

fn send_push(
    app: &AppState,
    clock: WallClock,
    tally: Tally,
    devices: Vec<PushSubscription>,
    payload: String,
    any_sent: bool,
) -> (r: Step<Sweep, Reply>)
    ensures
        is_push_step(r, *app, clock, tally, devices@, payload, any_sent),
{
    let ghost all = devices@;
    let mut sending = Sending { clock, tally, devices, payload, any_sent };
    assert(all.take(all.len() as int) =~= all);
    while sending.devices.len() > 0
        invariant
            sending.devices@.len() <= all.len(),
            sending.devices@ == all.take(sending.devices@.len() as int),
            all == devices@,
            sending.clock == clock,
            sending.tally == tally,
            sending.payload == payload,
            sending.any_sent == any_sent,
            forall|i: int|
                sending.devices@.len() <= i < all.len() ==> has_no_request(
                    *app,
                    #[trigger] all[i],
                    payload@,
                ),
        decreases sending.devices@.len(),
    {
        let ghost n = sending.devices@.len();
        let last = sending.devices.len() - 1;
        let made = build_push(app, &sending.devices[last], sending.payload.as_str());
        match push_made(made, sending) {
            Ok(step) => {
                return step;
            },
            Err(left) => {
                sending = left;
                assert(sending.devices@ =~= all.take(n - 1));
            },
        }
    }
    let pushed = if sending.any_sent {
        add_one(sending.tally.pushed)
    } else {
        sending.tally.pushed
    };
    Step::Ask(
        Action::NextActivity,
        Sweep::Next { clock: sending.clock, tally: Tally { checked: tally.checked, pushed } },
    )
}

/// The secret that a caller of the sweep must present.
pub open spec fn cron_accepted(secret: Option<String>, headers: Headers) -> bool {
    match secret {
        Some(s) => {
            let presented = match headers.authorization {
                Some(a) => a@,
                None => Seq::empty(),
            };
            presented == "Bearer "@ + s@
        },
        None => true,
    }
}

/// `clock` is the wall clock of Recife at `now`.
pub open spec fn is_wall_clock(clock: WallClock, now: UtcTime) -> bool {
    &&& is_br_day(clock.today_br@, recife_day(now))
    &&& clock.minutes == recife_minutes(now)
    &&& is_iso_day(clock.today_key@, recife_day(now))
}

/// `r` is the first step of a sweep.
pub open spec fn sweep_start(
    headers: Headers,
    app: AppState,
    now: UtcTime,
    r: Step<Sweep, Reply>,
) -> bool {
    if !cron_accepted(app.cron_secret, headers) {
        r == Step::<Sweep, Reply>::Done(says(UNAUTHORIZED, "Invalid cron secret"))
    } else if app.vapid_private_key is None {
        r == Step::<Sweep, Reply>::Done(says(SERVICE_UNAVAILABLE, NOT_CONFIGURED))
    } else {
        r matches Step::Ask(Action::ScanActivities { up_to }, Sweep::Open { clock })
            && is_wall_clock(clock, now) && up_to@ == time_form(
            recife_minutes(now) / 60,
            recife_minutes(now) % 60,
        )
    }
}

/// Notifies the devices of every activity that is due. The caller presents the
/// configured secret; there is no user session. An occurrence is claimed
/// before anything is sent, also where there is no device: overlapping sweeps
/// notify once, and a device that subscribes later does not get an old
/// occurrence.
pub fn cron_push_due(headers: &Headers, app: &AppState, now: UtcTime) -> (r: Step<Sweep, Reply>)
    requires
        now.is_clock(),
    ensures
        sweep_start(*headers, *app, now, r),
{
    match &app.cron_secret {
        Some(secret) => {
            let mut expected = owned("Bearer ");
            expected.push_str(secret.as_str());
            let ok = match &headers.authorization {
                Some(presented) => same_secret(presented.as_str(), expected.as_str()),
                None => {
                    let nothing = String::new();
                    same_secret(nothing.as_str(), expected.as_str())
                },
            };
            if !ok {
                return Step::Done(message(UNAUTHORIZED, "Invalid cron secret"));
            }
        },
        None => {},
    }
    if app.vapid_private_key.is_none() {
        return Step::Done(message(SERVICE_UNAVAILABLE, NOT_CONFIGURED));
    }
    let (today_br, minutes, today_key) = recife_now(now);
    Step::Ask(
        Action::ScanActivities { up_to: minutes_to_hhmm(minutes) },
        Sweep::Open { clock: WallClock { today_br, minutes, today_key } },
    )
}

/// `r` is what follows an activity: it is passed over, unless an occurrence is
/// due that was not pushed.
pub open spec fn is_activity_step(
    r: Step<Sweep, Reply>,
    clock: WallClock,
    tally: Tally,
    activity: Activity,
    now: UtcTime,
) -> bool {
    let due = due_key(activity, clock.today_br@, clock.minutes as int, clock.today_key@);
    if due is None || text_view(activity.lastPushKey) == due || activity.id is None {
        r == go_on(clock, tally)
    } else {
        r matches Step::Ask(
            Action::ClaimOccurrence { id, key, at },
            Sweep::Claim { clock: c, tally: t, activity: a, id: i, key: k },
        ) && Some(id) == activity.id && key@ == due->0 && at == now && c == clock && t == tally && a
            == activity && i == id && k@ == due->0
    }
}

fn next_activity(clock: WallClock, tally: Tally, activity: Activity, now: UtcTime) -> (r: Step<
    Sweep,
    Reply,
>)
    ensures
        is_activity_step(r, clock, tally, activity, now),
{
    let due = due_occurrence_key(
        &activity,
        clock.today_br.as_str(),
        clock.minutes,
        clock.today_key.as_str(),
    );
    match due {
        None => Step::Ask(Action::NextActivity, Sweep::Next { clock, tally }),
        Some(key) => {
            let pushed = match &activity.lastPushKey {
                Some(last) => same(last.as_str(), key.as_str()),
                None => false,
            };
            if pushed {
                return Step::Ask(Action::NextActivity, Sweep::Next { clock, tally });
            }
            match activity.id {
                None => Step::Ask(Action::NextActivity, Sweep::Next { clock, tally }),
                Some(id) => Step::Ask(
                    Action::ClaimOccurrence { id, key: key.clone(), at: now },
                    Sweep::Claim { clock, tally, activity, id, key },
                ),
            }
        },
    }
}

impl Sweep {
    /// `r` is what follows an answer.
    pub open spec fn next(
        self,
        app: AppState,
        event: Event,
        now: UtcTime,
        r: Step<Sweep, Reply>,
    ) -> bool {
        match self {
            Sweep::Open { clock } => r == if event is Done {
                go_on(clock, Tally { checked: 0, pushed: 0 })
            } else {
                Step::Done(db_failed(INTERNAL_SERVER_ERROR))
            },
            Sweep::Next { clock, tally } => match event {
                Event::Activity(Some(activity)) => is_activity_step(
                    r,
                    clock,
                    Tally { checked: one_more(tally.checked), ..tally },
                    activity,
                    now,
                ),
                Event::Activity(None) => r == Step::<Sweep, Reply>::Done(
                    plain(OK, Body::PushSweep { checked: tally.checked, pushed: tally.pushed }),
                ),
                _ => r == Step::<Sweep, Reply>::Done(db_failed(INTERNAL_SERVER_ERROR)),
            },
            Sweep::Claim { clock, tally, activity, id, key } => if event == Event::Changed(true) {
                r matches Step::Ask(
                    Action::SubscriptionsOfEither(user, text),
                    Sweep::Devices { clock: c, tally: t, activity: a, id: i, key: k },
                ) && user == activity.userId && text@ == hex_form(activity.userId@) && c == clock
                    && t == tally && a == activity && i == id && k == key
            } else {
                r == go_on(clock, tally)
            },
            Sweep::Devices { clock, tally, activity, id, key } => match event {
                Event::Subscriptions(devices) => if devices@.len() == 0 {
                    r == go_on(clock, tally)
                } else {
                    exists|text: String|
                        is_notice(text@, activity, id, key@) && #[trigger] is_push_step(
                            r,
                            app,
                            clock,
                            tally,
                            devices@.reverse(),
                            text,
                            false,
                        )
                },
                _ => r == Step::<Sweep, Reply>::Done(db_failed(INTERNAL_SERVER_ERROR)),
            },
            Sweep::Push { clock, tally, devices, payload, any_sent } => {
                let (sent, dead) = push_outcome(event);
                if devices@.len() == 0 {
                    r == after_devices(clock, tally, any_sent || sent)
                } else if dead {
                    r matches Step::Ask(
                        Action::DeleteSubscription { endpoint },
                        Sweep::Prune { clock: c, tally: t, devices: d, payload: p, any_sent: a },
                    ) && endpoint == devices@.last().endpoint && c == clock && t == tally && d@
                        == devices@.drop_last() && p == payload && a == true
                } else {
                    is_push_step(
                        r,
                        app,
                        clock,
                        tally,
                        devices@.drop_last(),
                        payload,
                        any_sent || sent,
                    )
                }
            },
            Sweep::Prune { clock, tally, devices, payload, any_sent } => is_push_step(
                r,
                app,
                clock,
                tally,
                devices@,
                payload,
                any_sent,
            ),
        }
    }
}

impl Flow for Sweep {
    type Out = Reply;

    open spec fn ready(self) -> bool {
        true
    }

    fn resume(self, app: &AppState, event: Event, now: UtcTime) -> (r: Step<Sweep, Reply>)
        ensures
            self.next(*app, event, now, r),
    {
        match self {
            Sweep::Open { clock } => match event {
                Event::Done => Step::Ask(
                    Action::NextActivity,
                    Sweep::Next { clock, tally: Tally { checked: 0, pushed: 0 } },
                ),
                _ => Step::Done(db_error(INTERNAL_SERVER_ERROR)),
            },
            Sweep::Next { clock, tally } => match event {
                Event::Activity(Some(activity)) => next_activity(
                    clock,
                    Tally { checked: add_one(tally.checked), pushed: tally.pushed },
                    activity,
                    now,
                ),
                Event::Activity(None) => Step::Done(
                    reply(OK, Body::PushSweep { checked: tally.checked, pushed: tally.pushed }),
                ),
                _ => Step::Done(db_error(INTERNAL_SERVER_ERROR)),
            },
            Sweep::Claim { clock, tally, activity, id, key } => match event {
                Event::Changed(true) => {
                    let owner = activity.userId.to_hex();
                    Step::Ask(
                        Action::SubscriptionsOfEither(activity.userId, owner),
                        Sweep::Devices { clock, tally, activity, id, key },
                    )
                },
                _ => Step::Ask(Action::NextActivity, Sweep::Next { clock, tally }),
            },
            Sweep::Devices { clock, tally, activity, id, key } => match event {
                Event::Subscriptions(devices) => {
                    if devices.len() == 0 {
                        return Step::Ask(Action::NextActivity, Sweep::Next { clock, tally });
                    }
                    let payload = push_payload(&activity, &id, key.as_str());
                    let ghost p = payload;
                    let text = payload_text(payload);
                    let ghost t = text;
                    let r = send_push(app, clock, tally, reversed(devices), text, false);
                    assert(is_notice(t@, activity, id, key@)) by {
                        assert(t@ == json_text(payload_json(p)));
                    }
                    assert(is_push_step(r, *app, clock, tally, devices@.reverse(), t, false));
                    r
                },
                _ => Step::Done(db_error(INTERNAL_SERVER_ERROR)),
            },
            Sweep::Push { clock, tally, devices, payload, any_sent } => {
                let (sent, dead) = read_outcome(event);
                let mut devices = devices;
                match devices.pop() {
                    None => send_push(app, clock, tally, devices, payload, any_sent || sent),
                    Some(device) => {
                        assert(devices@ =~= self->Push_devices@.drop_last());
                        if dead {
                            Step::Ask(
                                Action::DeleteSubscription { endpoint: device.endpoint },
                                Sweep::Prune { clock, tally, devices, payload, any_sent: true },
                            )
                        } else {
                            send_push(app, clock, tally, devices, payload, any_sent || sent)
                        }
                    },
                }
            },
            Sweep::Prune { clock, tally, devices, payload, any_sent } => send_push(
                app,
                clock,
                tally,
                devices,
                payload,
                any_sent,
            ),
        }
    }
}

/// Nothing is sent for an activity before its occurrence was claimed: devices
/// are looked up only after the claim went through.
pub proof fn law_claimed_before_sent(
    flow: Sweep,
    app: AppState,
    event: Event,
    now: UtcTime,
    action: Action,
    after: Sweep,
)
    requires
        flow.next(app, event, now, Step::Ask(action, after)),
        action is SendPush,
    ensures
        flow is Devices || flow is Push || flow is Prune,
{
}

/// Devices are looked up only for an occurrence that this sweep claimed.
pub proof fn law_only_claimed_occurrences_are_pushed(
    flow: Sweep,
    app: AppState,
    event: Event,
    now: UtcTime,
    action: Action,
    after: Sweep,
)
    requires
        flow.next(app, event, now, Step::Ask(action, after)),
        after is Devices,
    ensures
        flow is Claim,
        event == Event::Changed(true),
{
}

/// An occurrence is claimed only where it is due and is not the one that was
/// last pushed.
pub proof fn law_only_due_occurrences_are_claimed(
    clock: WallClock,
    tally: Tally,
    activity: Activity,
    now: UtcTime,
    r: Step<Sweep, Reply>,
    id: ObjectId,
    key: String,
    at: UtcTime,
    after: Sweep,
)
    requires
        is_activity_step(r, clock, tally, activity, now),
        r == Step::<Sweep, Reply>::Ask(Action::ClaimOccurrence { id, key, at }, after),
    ensures
        activity.enabled,
        due_key(activity, clock.today_br@, clock.minutes as int, clock.today_key@) == Some(key@),
        text_view(activity.lastPushKey) != Some(key@),
        0 <= clock.minutes - trigger_minutes(activity.trigger.time@)->0 <= PUSH_GRACE_MINUTES,
{
}

/// A notification names the public key that devices subscribe with: the one
/// that comes with the configured private key.
pub proof fn law_notifications_name_the_public_key(
    configured: Option<String>,
    app: AppState,
    request: PushRequest,
    device: PushSubscription,
    payload: Seq<char>,
)
    requires
        vapid_pair(configured) matches Some((private, public)) && text_view(app.vapid_private_key)
            == Some(private) && text_view(app.vapid_public_key) == Some(public),
        is_request_for(request, app, device, payload),
    ensures
        exists|token: Seq<char>| #[trigger]
            has_header(
                request.headers@,
                "authorization"@,
                "vapid t="@ + token + ", k="@ + app.vapid_public_key->0@,
            ),
{
    let (token, point) = choose|token: Seq<char>, point: Seq<u8>|
        vapid_point(app.vapid_private_key->0@) == Some(point) && vouched(
            token,
            point,
            device.endpoint@,
        ) == Some(app.vapid_subject@) && #[trigger] has_authorization(
            request.headers@,
            token,
            point,
        );
    assert(has_header(
        request.headers@,
        "authorization"@,
        "vapid t="@ + token + ", k="@ + app.vapid_public_key->0@,
    ));
}

/// A device that a request can be signed for is without one only where
/// `web_push` was asked to encrypt the payload for it and gave none.
proof fn law_only_encryption_fails(app: AppState, device: PushSubscription, payload: Seq<char>)
    requires
        encryption_failed(app, device, payload),
    ensures
        exists|signature: Signature, keys: &DeviceKeys, text: &str|
            text@ == payload && keys.endpoint@ == device.endpoint@ && keys.p256dh@
                == device.p256dh@ && keys.auth@ == device.auth@ && #[trigger] call_ensures(
                encrypt_push,
                (signature, keys, text, 86400),
                None::<PushRequest>,
            ),
{
}

/// Every device with a web address has a request, where a key is configured that
/// `web_push` signs with for it, unless the encryption failed.
pub proof fn law_web_devices_have_a_request(
    app: AppState,
    device: PushSubscription,
    key: String,
    scheme: Seq<char>,
    rest: Seq<char>,
    payload: Seq<char>,
)
    requires
        app.vapid_private_key == Some(key),
        key@.len() == 43,
        scheme == "https://"@ || scheme == "http://"@,
        device.endpoint@ == scheme + rest,
        is_signable(key@, device.endpoint@, app.vapid_subject@),
        !encryption_failed(app, device, payload),
    ensures
        !has_no_request(app, device, payload),
{
    reveal_strlit("http://");
    reveal_strlit("https://");
    if scheme == "https://"@ {
        assert(device.endpoint@.take(8) =~= scheme);
    } else {
        assert(device.endpoint@.take(7) =~= scheme);
    }
}

/// A request for a device goes to its endpoint, and what the device reads from it
/// with its keys is the text; it is signed for the endpoint with the configured
/// key, for the configured subject.
pub proof fn law_request_reaches_the_device(
    request: PushRequest,
    app: AppState,
    device: PushSubscription,
    text: Seq<char>,
)
    requires
        is_request_for(request, app, device, text),
    ensures
        request.uri@ == uri_text(device.endpoint@),
        opened(request.body@, device.p256dh@, device.auth@) == Some(text),
        has_header(request.headers@, "content-encoding"@, "aes128gcm"@),
        exists|token: Seq<char>, point: Seq<u8>|
            vapid_point(app.vapid_private_key->0@) == Some(point) && vouched(
                token,
                point,
                device.endpoint@,
            ) == Some(app.vapid_subject@) && #[trigger] has_header(
                request.headers@,
                "authorization"@,
                "vapid t="@ + token + ", k="@ + base64_text(point, true),
            ),
{
    let (token, point) = choose|token: Seq<char>, point: Seq<u8>|
        vapid_point(app.vapid_private_key->0@) == Some(point) && vouched(
            token,
            point,
            device.endpoint@,
        ) == Some(app.vapid_subject@) && #[trigger] has_authorization(
            request.headers@,
            token,
            point,
        );
    assert(has_header(
        request.headers@,
        "authorization"@,
        "vapid t="@ + token + ", k="@ + base64_text(point, true),
    ));
}

} // verus!
