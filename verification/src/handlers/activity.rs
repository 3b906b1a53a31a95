//! Scheduled activities.

use vstd::prelude::*;
#[allow(unused_imports)]
use vstd::string::*;

use crate::config::AppState;
use crate::flow::{Action, ActivityChange, Event, Flow, Step};
use crate::handlers::note::TRY_LATER;
use crate::http::{message, reply, Body, Progress, Reply, BAD_REQUEST, INTERNAL_SERVER_ERROR, NOT_FOUND, OK};
#[allow(unused_imports)]
use crate::http::{plain, says, Cookies};
use crate::middleware::auth::{require_owner, require_sub};
#[allow(unused_imports)]
use crate::middleware::auth::forbidden;
use crate::models::{Activity, ActivityTrigger};
#[allow(unused_imports)]
use crate::object_id::{hex_form, is_object_id, object_id_bytes, object_id_of, ObjectId};
use crate::text::{owned, same, trim};
#[allow(unused_imports)]
use crate::text::trimmed;
use crate::time::UtcTime;
#[allow(unused_imports)]
use crate::time::{is_br_day, recife_day};
use crate::utils::crypto::Claims;
#[allow(unused_imports)]
use crate::utils::crypto::text_view;
use crate::utils::{db_error, object_id_from_str};
#[allow(unused_imports)]
use crate::utils::db_failed;

pub mod kept;
pub mod schedule;

pub use crate::handlers::activity::schedule::{normalize_dd_mm_yyyy, normalize_hhmm, parse_br_date_to_naive, streak_stats, today_recife_br};
#[allow(unused_imports)]
use crate::handlers::activity::schedule::{done_days, is_streak, normal_date, normal_time};

verus! {

// ---------- requests ----------

#[derive(Debug)]
pub struct AddReq {
    pub title: String,
    pub description: Option<String>,
    pub triggerType: String,
    pub trigger: ActivityTrigger,
    pub enabled: Option<bool>,
    /// The note that serves as the activity's list of things to do; empty or
    /// missing for none.
    pub noteId: Option<String>,
}

#[derive(Debug)]
pub struct EditReq {
    pub _id: String,
    pub title: String,
    pub description: Option<String>,
    pub triggerType: String,
    pub trigger: ActivityTrigger,
    /// As in `AddReq`; none takes the link away.
    pub noteId: Option<String>,
}

#[derive(Debug)]
pub struct ToggleReq {
    pub enabled: bool,
}

#[derive(Debug)]
pub struct LinkReq {
    pub noteId: String,
}

#[derive(Debug)]
pub struct CompleteReq {
    /// The day to mark as done, `DD/MM/YYYY`; today where it is missing or
    /// blank.
    pub date: Option<String>,
}

#[derive(Debug)]
pub struct SeenReq {
    /// The occurrence that was seen, kept as it is.
    pub occurrenceKey: Option<String>,
    /// Another name for the same.
    pub occurrence: Option<String>,
}

// ---------- checks ----------

/// The longest title, in characters.
pub const MAX_TITLE: usize = 120;

/// The longest description, in characters.
pub const MAX_DESCRIPTION: usize = 500;

/// The longest occurrence key, in characters.
pub const MAX_KEY: usize = 64;

pub const BAD_TIME: &'static str = "Trigger time must be a valid 24-hour \"HH:MM\" time";

pub const BAD_DATE: &'static str = "Trigger date must be a valid \"DD/MM/YYYY\" date";

/// `r` is the answer to a trigger: normalized, or why it is refused. A daily
/// one has a time; a single one has a time and a day.
pub open spec fn is_trigger_result(
    r: Result<ActivityTrigger, Reply>,
    trigger_type: Seq<char>,
    trigger: ActivityTrigger,
) -> bool {
    if trigger_type == "daily"@ || trigger_type == "once"@ {
        let once = trigger_type != "daily"@;
        let date = normal_date(
            match trigger.date {
                Some(d) => d@,
                None => Seq::empty(),
            },
        );
        if normal_time(trigger.time@) is None {
            r == Err::<ActivityTrigger, Reply>(says(BAD_REQUEST, BAD_TIME))
        } else if once && date is None {
            r == Err::<ActivityTrigger, Reply>(says(BAD_REQUEST, BAD_DATE))
        } else {
            r matches Ok(t) && Some(t.time@) == normal_time(trigger.time@) && text_view(t.date) == (
            if once {
                date
            } else {
                None
            }) && bytes_view(t.weekdays) == bytes_view(trigger.weekdays)
        }
    } else {
        r matches Err(Reply { status, cookies: Cookies::Nothing, body: Body::Text(text) })
            && status == BAD_REQUEST && text@ == "Unsupported trigger type \""@ + trigger_type
            + "\" (supported: daily, once)"@
    }
}

/// The view under an option.
pub open spec fn bytes_view(v: Option<Vec<u8>>) -> Option<Seq<u8>> {
    match v {
        Some(b) => Some(b@),
        None => None,
    }
}

fn copy_days(days: &Option<Vec<u8>>) -> (r: Option<Vec<u8>>)
    ensures
        bytes_view(r) == bytes_view(*days),
{
    match days {
        Some(v) => {
            let mut copy: Vec<u8> = Vec::new();
            let mut i: usize = 0;
            while i < v.len()
                invariant
                    i <= v@.len(),
                    copy@ == v@.take(i as int),
                decreases v@.len() - i,
            {
                copy.push(v[i]);
                i += 1;
                assert(copy@ =~= v@.take(i as int));
            }
            assert(v@.take(i as int) =~= v@);
            Some(copy)
        },
        None => None,
    }
}

/// Checks the trigger of a kind and normalizes it. The kinds are `daily`, at
/// the same time every day, and `once`, at a time of one day.
pub fn validate_trigger(trigger_type: &str, trigger: &ActivityTrigger) -> (r: Result<
    ActivityTrigger,
    Reply,
>)
    ensures
        is_trigger_result(r, trigger_type@, *trigger),
{
    let daily = same(trigger_type, "daily");
    if !daily && !same(trigger_type, "once") {
        let mut text = owned("Unsupported trigger type \"");
        text.push_str(trigger_type);
        text.push_str("\" (supported: daily, once)");
        return Err(reply(BAD_REQUEST, Body::Text(text)));
    }
    let time = match normalize_hhmm(trigger.time.as_str()) {
        Some(t) => t,
        None => {
            return Err(message(BAD_REQUEST, BAD_TIME));
        },
    };
    if daily {
        return Ok(
            ActivityTrigger { time, date: None, weekdays: copy_days(&trigger.weekdays) },
        );
    }
    let given = match &trigger.date {
        Some(d) => d.clone(),
        None => String::new(),
    };
    match normalize_dd_mm_yyyy(given.as_str()) {
        Some(date) => Ok(
            ActivityTrigger { time, date: Some(date), weekdays: copy_days(&trigger.weekdays) },
        ),
        None => Err(message(BAD_REQUEST, BAD_DATE)),
    }
}

/// Why a title is refused.
pub open spec fn title_refused(title: Seq<char>) -> Option<Reply> {
    if trimmed(title).len() == 0 {
        Some(says(BAD_REQUEST, "Activity title is required"))
    } else if trimmed(title).len() > MAX_TITLE {
        Some(says(BAD_REQUEST, "Activity title must be at most 120 characters"))
    } else {
        None
    }
}

/// Trims a title; it must be there and not too long.
pub fn clean_title(title: &str) -> (r: Result<String, Reply>)
    ensures
        match title_refused(title@) {
            Some(e) => r == Err::<String, Reply>(e),
            None => r is Ok && r->Ok_0@ == trimmed(title@),
        },
{
    let title = trim(title);
    if title.unicode_len() == 0 {
        return Err(message(BAD_REQUEST, "Activity title is required"));
    }
    if title.unicode_len() > MAX_TITLE {
        return Err(message(BAD_REQUEST, "Activity title must be at most 120 characters"));
    }
    Ok(owned(title))
}

/// A text that is trimmed, and none where it is blank.
pub open spec fn unless_blank(text: Option<String>) -> Option<Seq<char>> {
    match text {
        Some(s) => if trimmed(s@).len() > 0 {
            Some(trimmed(s@))
        } else {
            None
        },
        None => None,
    }
}

fn not_blank(text: Option<String>) -> (r: Option<String>)
    ensures
        text_view(r) == unless_blank(text),
{
    match text {
        Some(s) => {
            let t = trim(s.as_str());
            if t.unicode_len() > 0 {
                Some(owned(t))
            } else {
                None
            }
        },
        None => None,
    }
}

/// A description is too long.
pub open spec fn description_refused(description: Option<String>) -> bool {
    unless_blank(description) matches Some(d) && d.len() > MAX_DESCRIPTION
}

/// Trims a description; a blank one is none, and it must not be too long.
pub fn clean_description(description: Option<String>) -> (r: Result<Option<String>, Reply>)
    ensures
        if description_refused(description) {
            r == Err::<Option<String>, Reply>(
                says(BAD_REQUEST, "Activity description must be at most 500 characters"),
            )
        } else {
            r is Ok && text_view(r->Ok_0) == unless_blank(description)
        },
{
    let text = not_blank(description);
    let long = match &text {
        Some(d) => d.as_str().unicode_len() > MAX_DESCRIPTION,
        None => false,
    };
    if long {
        Err(message(BAD_REQUEST, "Activity description must be at most 500 characters"))
    } else {
        Ok(text)
    }
}

/// The identifier of a linked note, in lower case: none where it is blank.
pub open spec fn linked_id(raw: Option<String>) -> Result<Option<Seq<char>>, Reply> {
    match unless_blank(raw) {
        None => Ok(None),
        Some(s) => if is_object_id(s) {
            Ok(Some(hex_form(object_id_bytes(s))))
        } else {
            Err(says(BAD_REQUEST, "Linked note id is invalid"))
        },
    }
}

/// Normalizes the identifier of a linked note.
pub fn clean_note_id(raw: Option<String>) -> (r: Result<Option<String>, Reply>)
    ensures
        match linked_id(raw) {
            Err(e) => r == Err::<Option<String>, Reply>(e),
            Ok(id) => r is Ok && text_view(r->Ok_0) == id,
        },
{
    match not_blank(raw) {
        None => Ok(None),
        Some(s) => match object_id_from_str(s.as_str()) {
            Some(id) => Ok(Some(id.to_hex())),
            None => Err(message(BAD_REQUEST, "Linked note id is invalid")),
        },
    }
}

/// What an activity is made of, checked.
#[derive(Debug)]
pub struct Checked {
    pub title: String,
    pub description: Option<String>,
    pub trigger: ActivityTrigger,
    pub noteId: Option<String>,
}

/// `r` is the answer to the parts of an activity: the first that is refused
/// decides, title, description, trigger and linked note in turn.
pub open spec fn is_check(
    r: Result<Checked, Reply>,
    title: Seq<char>,
    description: Option<String>,
    trigger_type: Seq<char>,
    trigger: ActivityTrigger,
    note_id: Option<String>,
) -> bool {
    if title_refused(title) is Some {
        r == Err::<Checked, Reply>(title_refused(title)->0)
    } else if description_refused(description) {
        r == Err::<Checked, Reply>(
            says(BAD_REQUEST, "Activity description must be at most 500 characters"),
        )
    } else {
        exists|t: Result<ActivityTrigger, Reply>|
            #[trigger] is_trigger_result(t, trigger_type, trigger) && match t {
                Err(e) => r == Err::<Checked, Reply>(e),
                Ok(trigger) => match linked_id(note_id) {
                    Err(e) => r == Err::<Checked, Reply>(e),
                    Ok(id) => r matches Ok(c) && c.title@ == trimmed(title) && text_view(
                        c.description,
                    ) == unless_blank(description) && c.trigger == trigger && text_view(c.noteId)
                        == id,
                },
            }
    }
}

fn check_activity(
    title: &str,
    description: Option<String>,
    trigger_type: &str,
    trigger: &ActivityTrigger,
    note_id: Option<String>,
) -> (r: Result<Checked, Reply>)
    ensures
        is_check(r, title@, description, trigger_type@, *trigger, note_id),
{
    let title = match clean_title(title) {
        Ok(t) => t,
        Err(e) => {
            return Err(e);
        },
    };
    let description = match clean_description(description) {
        Ok(d) => d,
        Err(e) => {
            return Err(e);
        },
    };
    let checked = validate_trigger(trigger_type, trigger);
    assert(is_trigger_result(checked, trigger_type@, *trigger));
    let trigger = match checked {
        Ok(t) => t,
        Err(e) => {
            return Err(e);
        },
    };
    match clean_note_id(note_id) {
        Ok(noteId) => Ok(Checked { title, description, trigger, noteId }),
        Err(e) => Err(e),
    }
}

// ---------- owners ----------

/// The activity that was looked up, where it is the subject's own.
pub open spec fn owned_activity_of(event: Event, sub: Seq<char>) -> Result<Activity, Reply> {
    match event {
        Event::Activity(Some(activity)) => if hex_form(activity.userId@) == sub {
            Ok(activity)
        } else {
            Err(forbidden())
        },
        Event::Activity(None) => Err(says(NOT_FOUND, "Activity wasn't found!")),
        _ => Err(db_failed(INTERNAL_SERVER_ERROR)),
    }
}

/// Takes the activity that was looked up only where it is the subject's own.
pub fn owned_activity(event: Event, sub: &str) -> (r: Result<Activity, Reply>)
    ensures
        r == owned_activity_of(event, sub@),
{
    match event {
        Event::Activity(Some(activity)) => {
            let owner = activity.userId.to_hex();
            match require_sub(sub, owner.as_str()) {
                Ok(_) => Ok(activity),
                Err(e) => Err(e),
            }
        },
        Event::Activity(None) => Err(message(NOT_FOUND, "Activity wasn't found!")),
        _ => Err(db_error(INTERNAL_SERVER_ERROR)),
    }
}

/// What an answer says against linking the note that was looked up.
pub open spec fn link_refused(event: Event, sub: Seq<char>) -> Option<Reply> {
    match event {
        Event::Note(Some(note)) => if note.author@ == sub {
            None
        } else {
            Some(forbidden())
        },
        Event::Note(None) => Some(says(NOT_FOUND, "Linked note wasn't found!")),
        _ => Some(db_failed(INTERNAL_SERVER_ERROR)),
    }
}

/// Lets a note be linked only where it is the subject's own: the activity
/// would show it.
pub fn ensure_note_owned(event: Event, sub: &str) -> (r: Result<(), Reply>)
    ensures
        match link_refused(event, sub@) {
            None => r is Ok,
            Some(e) => r == Err::<(), Reply>(e),
        },
{
    match event {
        Event::Note(Some(note)) => require_sub(sub, note.author.as_str()),
        Event::Note(None) => Err(message(NOT_FOUND, "Linked note wasn't found!")),
        _ => Err(db_error(INTERNAL_SERVER_ERROR)),
    }
}

// ---------- progress ----------

/// The list under an option, empty where there is none.
pub open spec fn list_of(v: Option<Vec<String>>) -> Seq<String> {
    match v {
        Some(l) => l@,
        None => Seq::empty(),
    }
}

/// One of the days, in its normal form, is `today`.
pub open spec fn has_day(dates: Seq<String>, today: Seq<char>) -> bool {
    exists|i: int| 0 <= i < dates.len() && normal_date((#[trigger] dates[i])@) == Some(today)
}

/// The last of a list.
pub open spec fn last_of(dates: Seq<String>) -> Option<String> {
    if dates.len() > 0 {
        Some(dates.last())
    } else {
        None
    }
}

/// `p` is how an activity stands at `now`.
pub open spec fn is_progress(p: Progress, activity: Activity, now: UtcTime) -> bool {
    &&& p.noteId == activity.noteId
    &&& p.doneDates@ == list_of(activity.doneDates)
    &&& p.seenOccurrences@ == list_of(activity.seenOccurrences)
    &&& is_streak(
        done_days(list_of(activity.doneDates)),
        recife_day(now),
        p.currentStreak as int,
    )
    &&& p.totalCompletions == done_days(list_of(activity.doneDates)).len()
    &&& is_br_day(p.today@, recife_day(now))
    &&& p.doneToday == has_day(list_of(activity.doneDates), p.today@)
    &&& p.lastDone == last_of(list_of(activity.doneDates))
}

/// How an activity stands: what was done, the streak, and today.
pub fn progress_payload(activity: Activity, now: UtcTime) -> (r: Progress)
    requires
        now.is_clock(),
    ensures
        is_progress(r, activity, now),
{
    let done_dates = match activity.doneDates {
        Some(l) => l,
        None => Vec::new(),
    };
    let seen = match activity.seenOccurrences {
        Some(l) => l,
        None => Vec::new(),
    };
    let (streak, total) = streak_stats(&done_dates, now);
    let today = today_recife_br(now);
    let mut done_today = false;
    let mut i: usize = 0;
    while i < done_dates.len()
        invariant
            i <= done_dates@.len(),
            done_today == has_day(done_dates@.take(i as int), today@),
        decreases done_dates@.len() - i,
    {
        let hit = match normalize_dd_mm_yyyy(done_dates[i].as_str()) {
            Some(d) => same(d.as_str(), today.as_str()),
            None => false,
        };
        proof {
            let a = done_dates@.take(i as int);
            let b = done_dates@.take(i + 1);
            if has_day(a, today@) {
                let k = choose|k: int|
                    0 <= k < a.len() && normal_date((#[trigger] a[k])@) == Some(today@);
                assert(b[k] == a[k]);
            }
            if hit {
                assert(b[i as int] == done_dates@[i as int]);
            }
            if has_day(b, today@) {
                let k = choose|k: int|
                    0 <= k < b.len() && normal_date((#[trigger] b[k])@) == Some(today@);
                if k < i {
                    assert(a[k] == b[k]);
                }
            }
        }
        if hit {
            done_today = true;
        }
        i += 1;
    }
    assert(done_dates@.take(i as int) =~= done_dates@);
    let last_done = if done_dates.len() > 0 {
        Some(done_dates[done_dates.len() - 1].clone())
    } else {
        None
    };
    Progress {
        noteId: activity.noteId,
        doneDates: done_dates,
        seenOccurrences: seen,
        currentStreak: streak,
        totalCompletions: total,
        doneToday: done_today,
        today,
        lastDone: last_done,
    }
}

// ---------- handlers ----------

/// What the handling of activities waits for.
pub enum ActivityFlow {
    /// The activities of a user.
    List,
    /// The linked note of a new activity.
    AddNote { sub: String, activity: Activity },
    /// The activity, which is then to be edited.
    LoadEdit { sub: String, id: ObjectId, payload: EditReq },
    /// The linked note of a change.
    LinkNote { sub: String, id: ObjectId, change: ActivityChange, done: &'static str },
    /// The activity, which is then to be changed.
    Load { sub: String, id: ObjectId, change: ActivityChange, done: &'static str },
    /// The activity, which is then to be deleted.
    LoadDelete { sub: String, id: ObjectId },
    /// The activity that was triggered.
    LoadTriggered { sub: String, id: ObjectId },
    /// The record of a trigger.
    WriteTriggered { at: UtcTime },
    /// The activity that a note is to be linked to.
    LoadLink { sub: String, id: ObjectId, note_id: String },
    /// The activity whose progress is asked for.
    LoadProgress { sub: String },
    /// The activity of which a day is done.
    LoadComplete { sub: String, id: ObjectId, wanted: Option<String> },
    /// The record of the day.
    WriteComplete { sub: String, id: ObjectId, date: String },
    /// The activity with the day.
    Completed { sub: String, date: String },
    /// The activity of which an occurrence was seen.
    LoadSeen { sub: String, id: ObjectId, reported: Option<String> },
    /// The record of the occurrence.
    WriteSeen { key: String },
    /// The change.
    Write { done: &'static str },
}

/// Lists the activities of a user as the agenda of a day.
pub fn view(claims: &Claims, userId: String) -> (r: Step<ActivityFlow, Reply>)
    ensures
        r == if claims.sub@ != userId@ {
            Step::Done(forbidden())
        } else if !is_object_id(userId@) {
            Step::Done(says(BAD_REQUEST, "Invalid userId"))
        } else {
            Step::Ask(
                Action::ActivitiesOfEither(object_id_of(userId@), userId),
                ActivityFlow::List,
            )
        },
{
    match require_owner(claims, userId.as_str()) {
        Err(e) => {
            return Step::Done(e);
        },
        Ok(_) => {},
    }
    match object_id_from_str(userId.as_str()) {
        None => Step::Done(message(BAD_REQUEST, "Invalid userId")),
        Some(user) => Step::Ask(Action::ActivitiesOfEither(user, userId), ActivityFlow::List),
    }
}

/// `a` is the new activity of a request, of which `c` are the checked parts.
pub open spec fn is_new_activity(
    a: Activity,
    c: Checked,
    payload: AddReq,
    user: ObjectId,
    now: UtcTime,
) -> bool {
    a == (Activity {
        id: None,
        userId: user,
        title: c.title,
        description: c.description,
        triggerType: payload.triggerType,
        trigger: c.trigger,
        enabled: match payload.enabled {
            Some(b) => b,
            None => true,
        },
        lastPushKey: None,
        noteId: c.noteId,
        seenOccurrences: None,
        doneDates: None,
        lastTriggeredAt: None,
        createdAt: Some(now),
        updatedAt: None,
    })
}

/// What follows the check of a new activity: the lookup of its note, or its
/// insertion where it has none.
pub open spec fn is_add_step(
    r: Step<ActivityFlow, Reply>,
    checked: Result<Checked, Reply>,
    sub: String,
    payload: AddReq,
    user: ObjectId,
    now: UtcTime,
) -> bool {
    match checked {
        Err(e) => r == Step::<ActivityFlow, Reply>::Done(e),
        Ok(c) => match c.noteId {
            Some(n) => r matches Step::Ask(
                Action::NoteById(id),
                ActivityFlow::AddNote { sub: s, activity },
            ) && id == object_id_of(n@) && s == sub && is_new_activity(
                activity,
                c,
                payload,
                user,
                now,
            ),
            None => r matches Step::Ask(Action::InsertActivity(activity), after)
                && is_new_activity(activity, c, payload, user, now) && after == (
            ActivityFlow::Write { done: "Activity created!" }),
        },
    }
}

/// Creates an activity.
pub fn add(claims: &Claims, userId: &str, payload: AddReq, now: UtcTime) -> (r: Step<
    ActivityFlow,
    Reply,
>)
    ensures
        if claims.sub@ != userId@ {
            r == Step::<ActivityFlow, Reply>::Done(forbidden())
        } else if !is_object_id(userId@) {
            r == Step::<ActivityFlow, Reply>::Done(says(BAD_REQUEST, "Invalid userId"))
        } else {
            exists|c: Result<Checked, Reply>|
                is_check(
                    c,
                    payload.title@,
                    payload.description,
                    payload.triggerType@,
                    payload.trigger,
                    payload.noteId,
                ) && #[trigger] is_add_step(
                    r,
                    c,
                    claims.sub,
                    payload,
                    object_id_of(userId@),
                    now,
                )
        },
{
    match require_owner(claims, userId) {
        Err(e) => {
            return Step::Done(e);
        },
        Ok(_) => {},
    }
    let user = match object_id_from_str(userId) {
        None => {
            return Step::Done(message(BAD_REQUEST, "Invalid userId"));
        },
        Some(user) => user,
    };
    let ghost whole = payload;
    let checked = check_activity(
        payload.title.as_str(),
        payload.description,
        payload.triggerType.as_str(),
        &payload.trigger,
        payload.noteId,
    );
    let ghost c0 = checked;
    let r = match checked {
        Err(e) => Step::Done(e),
        Ok(c) => {
            let linked = match &c.noteId {
                Some(n) => Some(n.clone()),
                None => None,
            };
            let activity = Activity {
                id: None,
                userId: user,
                title: c.title,
                description: c.description,
                triggerType: payload.triggerType,
                trigger: c.trigger,
                enabled: match payload.enabled {
                    Some(b) => b,
                    None => true,
                },
                lastPushKey: None,
                noteId: c.noteId,
                seenOccurrences: None,
                doneDates: None,
                lastTriggeredAt: None,
                createdAt: Some(now),
                updatedAt: None,
            };
            match linked {
                Some(n) => match object_id_from_str(n.as_str()) {
                    Some(id) => Step::Ask(
                        Action::NoteById(id),
                        ActivityFlow::AddNote { sub: claims.sub.clone(), activity },
                    ),
                    None => Step::Done(message(BAD_REQUEST, "Linked note id is invalid")),
                },
                None => Step::Ask(
                    Action::InsertActivity(activity),
                    ActivityFlow::Write { done: "Activity created!" },
                ),
            }
        },
    };
    proof {
        lemma_linked_id(whole.noteId);
        assert(is_add_step(r, c0, claims.sub, whole, user, now));
    }
    r
}

/// The identifier of a linked note writes an identifier.
proof fn lemma_linked_id(raw: Option<String>)
    ensures
        linked_id(raw) matches Ok(Some(s)) ==> is_object_id(s),
{
    match unless_blank(raw) {
        Some(s) => {
            if is_object_id(s) {
                crate::object_id::law_hex_reads_back(object_id_bytes(s));
            }
        },
        None => {},
    }
}

/// What a change of an activity begins with: its lookup, or a bad request.
pub open spec fn starts_with_activity(
    r: Step<ActivityFlow, Reply>,
    id: Seq<char>,
    state: ActivityFlow,
) -> bool {
    r == if is_object_id(id) {
        Step::Ask(Action::ActivityById(object_id_of(id)), state)
    } else {
        Step::Done(says(BAD_REQUEST, "Invalid id"))
    }
}

/// Changes an activity. Its owner is that of the stored activity.
pub fn edit(claims: &Claims, payload: EditReq) -> (r: Step<ActivityFlow, Reply>)
    ensures
        starts_with_activity(
            r,
            payload._id@,
            ActivityFlow::LoadEdit { sub: claims.sub, id: object_id_of(payload._id@), payload },
        ),
{
    match object_id_from_str(payload._id.as_str()) {
        None => Step::Done(message(BAD_REQUEST, "Invalid id")),
        Some(id) => Step::Ask(
            Action::ActivityById(id),
            ActivityFlow::LoadEdit { sub: claims.sub.clone(), id, payload },
        ),
    }
}

/// Enables an activity, or disables it.
pub fn toggle(claims: &Claims, id: &str, payload: ToggleReq) -> (r: Step<ActivityFlow, Reply>)
    ensures
        starts_with_activity(
            r,
            id@,
            ActivityFlow::Load {
                sub: claims.sub,
                id: object_id_of(id@),
                change: ActivityChange::Enabled(payload.enabled),
                done: if payload.enabled {
                    "Activity enabled!"
                } else {
                    "Activity disabled!"
                },
            },
        ),
{
    match object_id_from_str(id) {
        None => Step::Done(message(BAD_REQUEST, "Invalid id")),
        Some(id) => Step::Ask(
            Action::ActivityById(id),
            ActivityFlow::Load {
                sub: claims.sub.clone(),
                id,
                change: ActivityChange::Enabled(payload.enabled),
                done: if payload.enabled {
                    "Activity enabled!"
                } else {
                    "Activity disabled!"
                },
            },
        ),
    }
}

/// Deletes an activity.
pub fn delete(claims: &Claims, id: &str) -> (r: Step<ActivityFlow, Reply>)
    ensures
        starts_with_activity(
            r,
            id@,
            ActivityFlow::LoadDelete { sub: claims.sub, id: object_id_of(id@) },
        ),
{
    match object_id_from_str(id) {
        None => Step::Done(message(BAD_REQUEST, "Invalid id")),
        Some(id) => Step::Ask(
            Action::ActivityById(id),
            ActivityFlow::LoadDelete { sub: claims.sub.clone(), id },
        ),
    }
}

/// Records that a client showed a notification for an activity.
pub fn mark_triggered(claims: &Claims, id: &str) -> (r: Step<ActivityFlow, Reply>)
    ensures
        starts_with_activity(
            r,
            id@,
            ActivityFlow::LoadTriggered { sub: claims.sub, id: object_id_of(id@) },
        ),
{
    match object_id_from_str(id) {
        None => Step::Done(message(BAD_REQUEST, "Invalid id")),
        Some(id) => Step::Ask(
            Action::ActivityById(id),
            ActivityFlow::LoadTriggered { sub: claims.sub.clone(), id },
        ),
    }
}

/// Links a note to an activity.
pub fn link_note(claims: &Claims, id: &str, payload: LinkReq) -> (r: Step<ActivityFlow, Reply>)
    ensures
        starts_with_activity(
            r,
            id@,
            ActivityFlow::LoadLink {
                sub: claims.sub,
                id: object_id_of(id@),
                note_id: payload.noteId,
            },
        ),
{
    match object_id_from_str(id) {
        None => Step::Done(message(BAD_REQUEST, "Invalid id")),
        Some(id) => Step::Ask(
            Action::ActivityById(id),
            ActivityFlow::LoadLink { sub: claims.sub.clone(), id, note_id: payload.noteId },
        ),
    }
}

/// Takes the linked note off an activity. What was done stays, and so does the
/// note.
pub fn unlink_note(claims: &Claims, id: &str) -> (r: Step<ActivityFlow, Reply>)
    ensures
        starts_with_activity(
            r,
            id@,
            ActivityFlow::Load {
                sub: claims.sub,
                id: object_id_of(id@),
                change: ActivityChange::UnlinkNote,
                done: "Note unlinked from activity!",
            },
        ),
{
    match object_id_from_str(id) {
        None => Step::Done(message(BAD_REQUEST, "Invalid id")),
        Some(id) => Step::Ask(
            Action::ActivityById(id),
            ActivityFlow::Load {
                sub: claims.sub.clone(),
                id,
                change: ActivityChange::UnlinkNote,
                done: "Note unlinked from activity!",
            },
        ),
    }
}

/// Tells how an activity stands.
pub fn progress(claims: &Claims, id: &str) -> (r: Step<ActivityFlow, Reply>)
    ensures
        starts_with_activity(r, id@, ActivityFlow::LoadProgress { sub: claims.sub }),
{
    match object_id_from_str(id) {
        None => Step::Done(message(BAD_REQUEST, "Invalid id")),
        Some(id) => Step::Ask(
            Action::ActivityById(id),
            ActivityFlow::LoadProgress { sub: claims.sub.clone() },
        ),
    }
}

/// Marks a day of an activity as done.
pub fn complete(claims: &Claims, id: &str, payload: CompleteReq) -> (r: Step<ActivityFlow, Reply>)
    ensures
        starts_with_activity(
            r,
            id@,
            ActivityFlow::LoadComplete {
                sub: claims.sub,
                id: object_id_of(id@),
                wanted: payload.date,
            },
        ),
{
    match object_id_from_str(id) {
        None => Step::Done(message(BAD_REQUEST, "Invalid id")),
        Some(id) => Step::Ask(
            Action::ActivityById(id),
            ActivityFlow::LoadComplete { sub: claims.sub.clone(), id, wanted: payload.date },
        ),
    }
}

/// Records that a client has rolled over to an occurrence.
pub fn record_seen(claims: &Claims, id: &str, payload: SeenReq) -> (r: Step<ActivityFlow, Reply>)
    ensures
        starts_with_activity(
            r,
            id@,
            ActivityFlow::LoadSeen {
                sub: claims.sub,
                id: object_id_of(id@),
                reported: match payload.occurrenceKey {
                    Some(k) => Some(k),
                    None => payload.occurrence,
                },
            },
        ),
{
    match object_id_from_str(id) {
        None => Step::Done(message(BAD_REQUEST, "Invalid id")),
        Some(id) => Step::Ask(
            Action::ActivityById(id),
            ActivityFlow::LoadSeen {
                sub: claims.sub.clone(),
                id,
                reported: match payload.occurrenceKey {
                    Some(k) => Some(k),
                    None => payload.occurrence,
                },
            },
        ),
    }
}

// ---------- what follows ----------

/// A change of an activity, to be written.
pub open spec fn change_step(
    id: ObjectId,
    change: ActivityChange,
    now: UtcTime,
    after: ActivityFlow,
) -> Step<ActivityFlow, Reply> {
    Step::Ask(Action::UpdateActivity { id, change, at: now.to_millis() }, after)
}

/// The change that an edit makes.
pub open spec fn edit_change(c: Checked, trigger_type: String) -> ActivityChange {
    ActivityChange::Edit {
        title: c.title,
        description: c.description,
        triggerType: trigger_type,
        trigger: c.trigger,
        noteId: c.noteId,
    }
}

/// What follows the check of an edit: the lookup of the linked note, or the
/// change where there is none.
pub open spec fn edit_step(
    checked: Result<Checked, Reply>,
    sub: String,
    id: ObjectId,
    trigger_type: String,
    now: UtcTime,
) -> Step<ActivityFlow, Reply> {
    match checked {
        Err(e) => Step::Done(e),
        Ok(c) => match c.noteId {
            Some(n) => Step::Ask(
                Action::NoteById(object_id_of(n@)),
                ActivityFlow::LinkNote {
                    sub,
                    id,
                    change: edit_change(c, trigger_type),
                    done: "Activity updated!",
                },
            ),
            None => change_step(
                id,
                edit_change(c, trigger_type),
                now,
                ActivityFlow::Write { done: "Activity updated!" },
            ),
        },
    }
}

fn make_change(id: ObjectId, change: ActivityChange, now: UtcTime, after: ActivityFlow) -> (r: Step<
    ActivityFlow,
    Reply,
>)
    ensures
        r == change_step(id, change, now, after),
{
    Step::Ask(Action::UpdateActivity { id, change, at: now.whole_millis() }, after)
}

fn make_edit(sub: String, id: ObjectId, payload: EditReq, now: UtcTime) -> (r: Step<
    ActivityFlow,
    Reply,
>)
    ensures
        exists|c: Result<Checked, Reply>|
            is_check(
                c,
                payload.title@,
                payload.description,
                payload.triggerType@,
                payload.trigger,
                payload.noteId,
            ) && r == #[trigger] edit_step(c, sub, id, payload.triggerType, now),
{
    let ghost whole = payload;
    let checked = check_activity(
        payload.title.as_str(),
        payload.description,
        payload.triggerType.as_str(),
        &payload.trigger,
        payload.noteId,
    );
    let ghost c0 = checked;
    let ghost s0 = sub;
    let r = match checked {
        Err(e) => Step::Done(e),
        Ok(c) => {
            let linked = match &c.noteId {
                Some(n) => Some(n.clone()),
                None => None,
            };
            let change = ActivityChange::Edit {
                title: c.title,
                description: c.description,
                triggerType: payload.triggerType,
                trigger: c.trigger,
                noteId: c.noteId,
            };
            match linked {
                Some(n) => match object_id_from_str(n.as_str()) {
                    Some(note) => Step::Ask(
                        Action::NoteById(note),
                        ActivityFlow::LinkNote { sub, id, change, done: "Activity updated!" },
                    ),
                    None => Step::Done(message(BAD_REQUEST, "Linked note id is invalid")),
                },
                None => make_change(
                    id,
                    change,
                    now,
                    ActivityFlow::Write { done: "Activity updated!" },
                ),
            }
        },
    };
    proof {
        lemma_linked_id(whole.noteId);
        assert(r == edit_step(c0, s0, id, whole.triggerType, now));
    }
    r
}

/// `r` is what follows the request to mark a day as done: the given day in its
/// normal form, or today.
pub open spec fn is_complete_step(
    r: Step<ActivityFlow, Reply>,
    sub: String,
    id: ObjectId,
    date: Option<String>,
    now: UtcTime,
) -> bool {
    match unless_blank(date) {
        Some(d) => match normal_date(d) {
            None => r == Step::<ActivityFlow, Reply>::Done(
                says(BAD_REQUEST, "Completion date must be a valid \"DD/MM/YYYY\" date"),
            ),
            Some(day) => r matches Step::Ask(
                Action::UpdateActivity { id: i, change: ActivityChange::Done(a), at },
                ActivityFlow::WriteComplete { sub: s, id: j, date: b },
            ) && i == id && j == id && s == sub && a@ == day && b@ == day && at == now.to_millis(),
        },
        None => r matches Step::Ask(
            Action::UpdateActivity { id: i, change: ActivityChange::Done(a), at },
            ActivityFlow::WriteComplete { sub: s, id: j, date: b },
        ) && i == id && j == id && s == sub && a@ == b@ && is_br_day(b@, recife_day(now)) && at
            == now.to_millis(),
    }
}

fn make_complete(sub: String, id: ObjectId, date: Option<String>, now: UtcTime) -> (r: Step<
    ActivityFlow,
    Reply,
>)
    requires
        now.is_clock(),
    ensures
        is_complete_step(r, sub, id, date, now),
{
    let date = match not_blank(date) {
        Some(d) => match normalize_dd_mm_yyyy(d.as_str()) {
            Some(day) => day,
            None => {
                return Step::Done(
                    message(
                        BAD_REQUEST,
                        "Completion date must be a valid \"DD/MM/YYYY\" date",
                    ),
                );
            },
        },
        None => today_recife_br(now),
    };
    make_change(
        id,
        ActivityChange::Done(date.clone()),
        now,
        ActivityFlow::WriteComplete { sub, id, date },
    )
}

/// `r` is what follows the report of an occurrence.
pub open spec fn is_seen_step(
    r: Step<ActivityFlow, Reply>,
    id: ObjectId,
    key: Option<String>,
    now: UtcTime,
) -> bool {
    match unless_blank(key) {
        None => r == Step::<ActivityFlow, Reply>::Done(
            says(BAD_REQUEST, "occurrenceKey is required"),
        ),
        Some(k) => if k.len() > MAX_KEY {
            r == Step::<ActivityFlow, Reply>::Done(says(BAD_REQUEST, "occurrenceKey is too long"))
        } else {
            r matches Step::Ask(
                Action::UpdateActivity { id: i, change: ActivityChange::Seen(a), at },
                ActivityFlow::WriteSeen { key: b },
            ) && i == id && a@ == k && b@ == k && at == now.to_millis()
        },
    }
}

fn make_seen(id: ObjectId, key: Option<String>, now: UtcTime) -> (r: Step<ActivityFlow, Reply>)
    ensures
        is_seen_step(r, id, key, now),
{
    match not_blank(key) {
        None => Step::Done(message(BAD_REQUEST, "occurrenceKey is required")),
        Some(k) => {
            if k.as_str().unicode_len() > MAX_KEY {
                return Step::Done(message(BAD_REQUEST, "occurrenceKey is too long"));
            }
            make_change(
                id,
                ActivityChange::Seen(k.clone()),
                now,
                ActivityFlow::WriteSeen { key: k },
            )
        },
    }
}

/// `r` is what follows the request to link a note.
pub open spec fn is_link_step(
    r: Step<ActivityFlow, Reply>,
    sub: String,
    id: ObjectId,
    note_id: String,
) -> bool {
    match linked_id(Some(note_id)) {
        Err(e) => r == Step::<ActivityFlow, Reply>::Done(e),
        Ok(None) => r == Step::<ActivityFlow, Reply>::Done(
            says(BAD_REQUEST, "Linked note id is required"),
        ),
        Ok(Some(n)) => r matches Step::Ask(
            Action::NoteById(note),
            ActivityFlow::LinkNote { sub: s, id: i, change: ActivityChange::LinkNote(text), done },
        ) && note == object_id_of(n) && s == sub && i == id && text@ == n && done
            == "Note linked to activity!",
    }
}

fn make_link(sub: String, id: ObjectId, note_id: String) -> (r: Step<ActivityFlow, Reply>)
    ensures
        is_link_step(r, sub, id, note_id),
{
    proof {
        lemma_linked_id(Some(note_id));
    }
    match clean_note_id(Some(note_id)) {
        Err(e) => Step::Done(e),
        Ok(None) => Step::Done(message(BAD_REQUEST, "Linked note id is required")),
        Ok(Some(n)) => match object_id_from_str(n.as_str()) {
            Some(note) => Step::Ask(
                Action::NoteById(note),
                ActivityFlow::LinkNote {
                    sub,
                    id,
                    change: ActivityChange::LinkNote(n),
                    done: "Note linked to activity!",
                },
            ),
            None => Step::Done(message(BAD_REQUEST, "Linked note id is invalid")),
        },
    }
}

impl ActivityFlow {
    /// `r` is what follows an answer. Nothing is written to an activity that
    /// is not the subject's own, and no note is linked that is not.
    pub open spec fn next(self, event: Event, now: UtcTime, r: Step<ActivityFlow, Reply>) -> bool {
        match self {
            ActivityFlow::List => r == Step::<ActivityFlow, Reply>::Done(
                match event {
                    Event::Activities(list) => plain(OK, Body::Activities(list)),
                    _ => db_failed(INTERNAL_SERVER_ERROR),
                },
            ),
            ActivityFlow::AddNote { sub, activity } => r == match link_refused(event, sub@) {
                Some(e) => Step::Done(e),
                None => Step::Ask(
                    Action::InsertActivity(Activity { createdAt: Some(now), ..activity }),
                    ActivityFlow::Write { done: "Activity created!" },
                ),
            },
            ActivityFlow::LoadEdit { sub, id, payload } => match owned_activity_of(event, sub@) {
                Err(e) => r == Step::<ActivityFlow, Reply>::Done(e),
                Ok(_) => exists|c: Result<Checked, Reply>|
                    is_check(
                        c,
                        payload.title@,
                        payload.description,
                        payload.triggerType@,
                        payload.trigger,
                        payload.noteId,
                    ) && r == #[trigger] edit_step(c, sub, id, payload.triggerType, now),
            },
            ActivityFlow::LinkNote { sub, id, change, done } => r == match link_refused(
                event,
                sub@,
            ) {
                Some(e) => Step::Done(e),
                None => change_step(id, change, now, ActivityFlow::Write { done }),
            },
            ActivityFlow::Load { sub, id, change, done } => r == match owned_activity_of(
                event,
                sub@,
            ) {
                Err(e) => Step::Done(e),
                Ok(_) => change_step(id, change, now, ActivityFlow::Write { done }),
            },
            ActivityFlow::LoadDelete { sub, id } => r == match owned_activity_of(event, sub@) {
                Err(e) => Step::Done(e),
                Ok(_) => Step::Ask(
                    Action::DeleteActivity(id),
                    ActivityFlow::Write { done: "Activity deleted!" },
                ),
            },
            ActivityFlow::LoadTriggered { sub, id } => r == match owned_activity_of(event, sub@) {
                Err(e) => Step::Done(e),
                Ok(_) => change_step(
                    id,
                    ActivityChange::Triggered,
                    now,
                    ActivityFlow::WriteTriggered { at: now.to_millis() },
                ),
            },
            ActivityFlow::WriteTriggered { at } => r == Step::<ActivityFlow, Reply>::Done(
                if event is Done {
                    plain(OK, Body::Triggered { at })
                } else {
                    says(BAD_REQUEST, TRY_LATER)
                },
            ),
            ActivityFlow::LoadLink { sub, id, note_id } => match owned_activity_of(event, sub@) {
                Err(e) => r == Step::<ActivityFlow, Reply>::Done(e),
                Ok(_) => is_link_step(r, sub, id, note_id),
            },
            ActivityFlow::LoadProgress { sub } => match owned_activity_of(event, sub@) {
                Err(e) => r == Step::<ActivityFlow, Reply>::Done(e),
                Ok(activity) => r matches Step::Done(
                    Reply { status, cookies: Cookies::Nothing, body: Body::ActivityProgress(p) },
                ) && status == OK && is_progress(p, activity, now),
            },
            ActivityFlow::LoadComplete { sub, id, wanted } => match owned_activity_of(event, sub@) {
                Err(e) => r == Step::<ActivityFlow, Reply>::Done(e),
                Ok(_) => is_complete_step(r, sub, id, wanted, now),
            },
            ActivityFlow::WriteComplete { sub, id, date } => r == if event is Done {
                Step::Ask(Action::ActivityById(id), ActivityFlow::Completed { sub, date })
            } else {
                Step::Done(says(BAD_REQUEST, TRY_LATER))
            },
            ActivityFlow::Completed { sub, date } => match owned_activity_of(event, sub@) {
                Err(e) => r == Step::<ActivityFlow, Reply>::Done(e),
                Ok(activity) => r matches Step::Done(
                    Reply {
                        status,
                        cookies: Cookies::Nothing,
                        body: Body::Completed { progress: p, date: d },
                    },
                ) && status == OK && is_progress(p, activity, now) && d == date,
            },
            ActivityFlow::LoadSeen { sub, id, reported } => match owned_activity_of(event, sub@) {
                Err(e) => r == Step::<ActivityFlow, Reply>::Done(e),
                Ok(_) => is_seen_step(r, id, reported, now),
            },
            ActivityFlow::WriteSeen { key } => r == Step::<ActivityFlow, Reply>::Done(
                if event is Done {
                    plain(OK, Body::Occurrence { key })
                } else {
                    says(BAD_REQUEST, TRY_LATER)
                },
            ),
            ActivityFlow::Write { done } => r == Step::<ActivityFlow, Reply>::Done(
                if event is Done {
                    says(OK, done)
                } else {
                    says(BAD_REQUEST, TRY_LATER)
                },
            ),
        }
    }
}

impl Flow for ActivityFlow {
    type Out = Reply;

    open spec fn ready(self) -> bool {
        true
    }

    fn resume(self, app: &AppState, event: Event, now: UtcTime) -> (r: Step<ActivityFlow, Reply>)
        ensures
            self.next(event, now, r),
    {
        match self {
            ActivityFlow::List => match event {
                Event::Activities(list) => Step::Done(reply(OK, Body::Activities(list))),
                _ => Step::Done(db_error(INTERNAL_SERVER_ERROR)),
            },
            ActivityFlow::AddNote { sub, activity } => match ensure_note_owned(
                event,
                sub.as_str(),
            ) {
                Err(e) => Step::Done(e),
                Ok(_) => {
                    let mut activity = activity;
                    activity.createdAt = Some(now);
                    Step::Ask(
                        Action::InsertActivity(activity),
                        ActivityFlow::Write { done: "Activity created!" },
                    )
                },
            },
            ActivityFlow::LoadEdit { sub, id, payload } => match owned_activity(
                event,
                sub.as_str(),
            ) {
                Err(e) => Step::Done(e),
                Ok(_) => make_edit(sub, id, payload, now),
            },
            ActivityFlow::LinkNote { sub, id, change, done } => match ensure_note_owned(
                event,
                sub.as_str(),
            ) {
                Err(e) => Step::Done(e),
                Ok(_) => make_change(id, change, now, ActivityFlow::Write { done }),
            },
            ActivityFlow::Load { sub, id, change, done } => match owned_activity(
                event,
                sub.as_str(),
            ) {
                Err(e) => Step::Done(e),
                Ok(_) => make_change(id, change, now, ActivityFlow::Write { done }),
            },
            ActivityFlow::LoadDelete { sub, id } => match owned_activity(event, sub.as_str()) {
                Err(e) => Step::Done(e),
                Ok(_) => Step::Ask(
                    Action::DeleteActivity(id),
                    ActivityFlow::Write { done: "Activity deleted!" },
                ),
            },
            ActivityFlow::LoadTriggered { sub, id } => match owned_activity(event, sub.as_str()) {
                Err(e) => Step::Done(e),
                Ok(_) => make_change(
                    id,
                    ActivityChange::Triggered,
                    now,
                    ActivityFlow::WriteTriggered { at: now.whole_millis() },
                ),
            },
            ActivityFlow::WriteTriggered { at } => match event {
                Event::Done => Step::Done(reply(OK, Body::Triggered { at })),
                _ => Step::Done(message(BAD_REQUEST, TRY_LATER)),
            },
            ActivityFlow::LoadLink { sub, id, note_id } => match owned_activity(
                event,
                sub.as_str(),
            ) {
                Err(e) => Step::Done(e),
                Ok(_) => make_link(sub, id, note_id),
            },
            ActivityFlow::LoadProgress { sub } => match owned_activity(event, sub.as_str()) {
                Err(e) => Step::Done(e),
                Ok(activity) => Step::Done(
                    reply(OK, Body::ActivityProgress(progress_payload(activity, now))),
                ),
            },
            ActivityFlow::LoadComplete { sub, id, wanted } => match owned_activity(
                event,
                sub.as_str(),
            ) {
                Err(e) => Step::Done(e),
                Ok(_) => make_complete(sub, id, wanted, now),
            },
            ActivityFlow::WriteComplete { sub, id, date } => match event {
                Event::Done => Step::Ask(
                    Action::ActivityById(id),
                    ActivityFlow::Completed { sub, date },
                ),
                _ => Step::Done(message(BAD_REQUEST, TRY_LATER)),
            },
            ActivityFlow::Completed { sub, date } => match owned_activity(event, sub.as_str()) {
                Err(e) => Step::Done(e),
                Ok(activity) => Step::Done(
                    reply(
                        OK,
                        Body::Completed { progress: progress_payload(activity, now), date },
                    ),
                ),
            },
            ActivityFlow::LoadSeen { sub, id, reported } => match owned_activity(event, sub.as_str()) {
                Err(e) => Step::Done(e),
                Ok(_) => make_seen(id, reported, now),
            },
            ActivityFlow::WriteSeen { key } => match event {
                Event::Done => Step::Done(reply(OK, Body::Occurrence { key })),
                _ => Step::Done(message(BAD_REQUEST, TRY_LATER)),
            },
            ActivityFlow::Write { done } => match event {
                Event::Done => Step::Done(message(OK, done)),
                _ => Step::Done(message(BAD_REQUEST, TRY_LATER)),
            },
        }
    }
}

/// An activity is written to right after it is found only where it belongs to
/// the subject.
pub proof fn law_only_the_owner_changes_an_activity(
    flow: ActivityFlow,
    event: Event,
    now: UtcTime,
    action: Action,
    after: ActivityFlow,
    sub: String,
)
    requires
        flow.next(event, now, Step::Ask(action, after)),
        match flow {
            ActivityFlow::LoadEdit { sub: s, .. } => s == sub,
            ActivityFlow::Load { sub: s, .. } => s == sub,
            ActivityFlow::LoadDelete { sub: s, .. } => s == sub,
            ActivityFlow::LoadTriggered { sub: s, .. } => s == sub,
            ActivityFlow::LoadLink { sub: s, .. } => s == sub,
            ActivityFlow::LoadComplete { sub: s, .. } => s == sub,
            ActivityFlow::LoadSeen { sub: s, .. } => s == sub,
            _ => false,
        },
    ensures
        event matches Event::Activity(Some(activity)) && hex_form(activity.userId@) == sub@,
{
}

/// A note is linked only where the subject is its author.
pub proof fn law_only_own_notes_are_linked(
    flow: ActivityFlow,
    event: Event,
    now: UtcTime,
    action: Action,
    after: ActivityFlow,
    sub: String,
)
    requires
        flow.next(event, now, Step::Ask(action, after)),
        match flow {
            ActivityFlow::AddNote { sub: s, .. } => s == sub,
            ActivityFlow::LinkNote { sub: s, .. } => s == sub,
            _ => false,
        },
    ensures
        event matches Event::Note(Some(note)) && note.author@ == sub@,
{
}

/// A trigger that was accepted is accepted again, and stays as it is.
pub proof fn law_checked_trigger_is_stable(
    trigger_type: Seq<char>,
    trigger: ActivityTrigger,
    once: Result<ActivityTrigger, Reply>,
    twice: Result<ActivityTrigger, Reply>,
)
    requires
        is_trigger_result(once, trigger_type, trigger),
        once is Ok,
        is_trigger_result(twice, trigger_type, once->Ok_0),
    ensures
        twice is Ok,
        twice->Ok_0.time@ == once->Ok_0.time@,
        text_view(twice->Ok_0.date) == text_view(once->Ok_0.date),
        bytes_view(once->Ok_0.weekdays) == bytes_view(trigger.weekdays),
        bytes_view(twice->Ok_0.weekdays) == bytes_view(once->Ok_0.weekdays),
{
    crate::handlers::activity::schedule::law_normal_time_is_normal(trigger.time@);
    let date = match trigger.date {
        Some(d) => d@,
        None => Seq::empty(),
    };
    if trigger_type != "daily"@ {
        crate::handlers::activity::schedule::law_normal_date_is_normal(date);
    }
}

} // verus!
