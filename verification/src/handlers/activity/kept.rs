//! What becomes of the stored activities when a request is answered.

use vstd::prelude::*;
#[allow(unused_imports)]
use vstd::string::*;

use crate::config::AppState;
#[allow(unused_imports)]
use crate::flow::Step;
#[allow(unused_imports)]
use crate::handlers::activity::schedule::{done_days, is_date_text, is_streak, is_time_text, law_day_is_accepted, law_time_of_day_is_accepted};
#[allow(unused_imports)]
use crate::handlers::activity::{add, complete, delete, edit, is_check, link_note, mark_triggered, progress, record_seen, toggle, unlink_note, view};
use crate::handlers::activity::{ActivityFlow, AddReq, CompleteReq, EditReq, LinkReq, SeenReq, ToggleReq};
#[allow(unused_imports)]
use crate::handlers::activity::Checked;
#[allow(unused_imports)]
use crate::http::{says, Body, Progress, OK};
use crate::http::Reply;
use crate::models::ActivityTrigger;
#[allow(unused_imports)]
use crate::models::Activity;
#[allow(unused_imports)]
use crate::object_id::{hex_form, is_object_id, law_hex_reads_back, law_text_names_its_bytes, object_id_bytes, object_id_of, ObjectId};
#[allow(unused_imports)]
use crate::store::{is_of, runs, text_views, unfailed, Rows, Turn};
#[allow(unused_imports)]
use crate::text::trimmed;
#[allow(unused_imports)]
use crate::time::{is_br_day, is_date, recife_day};
use crate::time::UtcTime;
use crate::utils::crypto::Claims;

verus! {

/// The text names an activity of the subject.
pub open spec fn has_own_activity(rows: Rows, id: Seq<char>, sub: Seq<char>) -> bool {
    is_object_id(id) && rows.activities.dom().contains(object_id_of(id)) && hex_form(
        rows.activities[object_id_of(id)].userId@,
    ) == sub
}

/// The text names a note of the subject.
pub open spec fn names_own_note(rows: Rows, id: Seq<char>, sub: Seq<char>) -> bool {
    is_object_id(id) && rows.notes.dom().contains(object_id_of(id)) && rows.notes[object_id_of(
        id,
    )].author@ == sub
}

/// A time, and for a single activity a day, as a request writes them.
pub struct Written {
    pub hours: int,
    pub minutes: int,
    pub year: int,
    pub month: int,
    pub day: int,
}

/// The trigger of a request has the characters of a time, and that of a single
/// activity those of a day.
pub open spec fn is_written(w: Written, kind: Seq<char>, trigger: ActivityTrigger) -> bool {
    &&& 0 <= w.hours < 100
    &&& 0 <= w.minutes < 100
    &&& is_time_text(trigger.time@, w.hours, w.minutes)
    &&& kind == "once"@ ==> {
        &&& 0 <= w.year < 10000
        &&& 0 <= w.month < 100
        &&& 0 <= w.day < 100
        &&& trigger.date matches Some(date) && is_date_text(date@, w.year, w.month, w.day)
    }
}

/// An activity that may be stored: a title of 1 to 120 characters, a description
/// of at most 500, a time of day, every day or on a day of the calendar, and no
/// linked note but one of the subject.
pub open spec fn may_be_stored(
    w: Written,
    title: Seq<char>,
    description: Option<String>,
    kind: Seq<char>,
    note: Option<String>,
    rows: Rows,
    sub: Seq<char>,
) -> bool {
    &&& 1 <= trimmed(title).len() <= 120
    &&& description matches Some(d) ==> trimmed(d@).len() <= 500
    &&& w.hours < 24
    &&& w.minutes < 60
    &&& kind == "daily"@ || (kind == "once"@ && is_date(w.year, w.month, w.day))
    &&& note matches Some(n) ==> trimmed(n@).len() == 0 || names_own_note(rows, trimmed(n@), sub)
}

/// `a` has the parts of a request: the texts trimmed, blank ones left out, the
/// time and the day as they were written, and the linked note by its
/// identifier.
pub open spec fn has_parts(
    a: Activity,
    title: Seq<char>,
    description: Option<String>,
    kind: String,
    trigger: ActivityTrigger,
    note: Option<String>,
) -> bool {
    &&& a.title@ == trimmed(title)
    &&& a.description is Some <==> (description is Some && trimmed(description->0@).len() > 0)
    &&& a.description matches Some(d) ==> d@ == trimmed(description->0@)
    &&& a.triggerType == kind
    &&& a.trigger.time@ == trigger.time@
    &&& kind@ == "daily"@ ==> a.trigger.date is None
    &&& kind@ == "once"@ ==> (a.trigger.date matches Some(d) && d@ == trigger.date->0@)
    &&& a.trigger.weekdays is Some <==> trigger.weekdays is Some
    &&& a.trigger.weekdays matches Some(days) ==> days@ == trigger.weekdays->0@
    &&& a.noteId is Some <==> (note is Some && trimmed(note->0@).len() > 0)
    &&& a.noteId matches Some(n) ==> is_object_id(trimmed(note->0@)) && n@ == hex_form(
        object_id_of(trimmed(note->0@))@,
    )
}

proof fn lemma_checked(
    w: Written,
    c: Result<Checked, Reply>,
    title: Seq<char>,
    description: Option<String>,
    kind: String,
    trigger: ActivityTrigger,
    note: Option<String>,
    rows: Rows,
    sub: Seq<char>,
)
    requires
        is_written(w, kind@, trigger),
        is_check(c, title, description, kind@, trigger, note),
    ensures
        c matches Ok(parts) ==> {
            let linked = parts.noteId;
            &&& forall|a: Activity|
                a.title == parts.title && a.description == parts.description && a.triggerType
                    == kind && a.trigger == parts.trigger && a.noteId == parts.noteId
                    ==> #[trigger] has_parts(a, title, description, kind, trigger, note)
            &&& linked matches Some(n) ==> note is Some && is_object_id(trimmed(note->0@))
                && object_id_of(n@) == object_id_of(trimmed(note->0@))
            &&& may_be_stored(w, title, description, kind@, note, rows, sub) <==> (
            linked matches Some(_) ==> names_own_note(rows, trimmed(note->0@), sub))
        },
        c is Err ==> !may_be_stored(w, title, description, kind@, note, rows, sub),
        c matches Err(e) ==> e.status != OK,
{
    reveal_strlit("daily");
    reveal_strlit("once");
    assert("daily"@.len() == 5 && "once"@.len() == 4);
    law_time_of_day_is_accepted(trigger.time@, w.hours, w.minutes);
    if kind@ == "once"@ {
        law_day_is_accepted(trigger.date->0@, w.year, w.month, w.day);
    }
    if let Some(n) = note {
        let s = trimmed(n@);
        if is_object_id(s) {
            let bytes = object_id_bytes(s);
            law_hex_reads_back(bytes);
            assert(object_id_bytes(hex_form(bytes)) == bytes);
            law_text_names_its_bytes(s);
            assert(object_id_of(s)@ == bytes);
        }
    }
}

/// An activity that was added is stored with the parts of the request, for the
/// user who added it: enabled unless it was sent disabled, and with nothing done
/// or seen yet. Nothing else is changed. Each that may be stored is, unless the
/// database failed, and no other.
pub proof fn law_added_activity_is_stored(
    claims: Claims,
    user: &str,
    payload: AddReq,
    began: UtcTime,
    w: Written,
    app: AppState,
    start: Step<ActivityFlow, Reply>,
    rows: Rows,
    turns: Seq<Turn<ActivityFlow>>,
    reply: Reply,
    after: Rows,
)
    requires
        call_ensures(add, (&claims, user, payload, began), start),
        runs(app, start, rows, turns, (reply, after)),
        is_written(w, payload.triggerType@, payload.trigger),
    ensures
        reply.status == OK ==> {
            &&& reply == says(OK, "Activity created!")
            &&& exists|id: ObjectId|
                #![trigger after.activities[id]]
                {
                    let a = after.activities[id];
                    &&& !rows.activities.dom().contains(id)
                    &&& after == (Rows { activities: rows.activities.insert(id, a), ..rows })
                    &&& a.id == Some(id)
                    &&& a.userId == object_id_of(user@)
                    &&& has_parts(
                        a,
                        payload.title@,
                        payload.description,
                        payload.triggerType,
                        payload.trigger,
                        payload.noteId,
                    )
                    &&& a.enabled == (payload.enabled != Some(false))
                    &&& a.lastPushKey is None
                    &&& a.seenOccurrences is None
                    &&& a.doneDates is None
                    &&& a.lastTriggeredAt is None
                    &&& a.createdAt is Some
                    &&& a.updatedAt is None
                }
        },
        reply.status != OK ==> after == rows,
        unfailed(turns) ==> (reply.status == OK) == (claims.sub@ == user@ && is_object_id(user@)
            && may_be_stored(
            w,
            payload.title@,
            payload.description,
            payload.triggerType@,
            payload.noteId,
            rows,
            claims.sub@,
        )),
{
    reveal_with_fuel(runs, 4);
    if claims.sub@ == user@ && is_object_id(user@) {
        let c = choose|c: Result<Checked, Reply>|
            is_check(
                c,
                payload.title@,
                payload.description,
                payload.triggerType@,
                payload.trigger,
                payload.noteId,
            ) && #[trigger] crate::handlers::activity::is_add_step(
                start,
                c,
                claims.sub,
                payload,
                object_id_of(user@),
                began,
            );
        lemma_checked(
            w,
            c,
            payload.title@,
            payload.description,
            payload.triggerType,
            payload.trigger,
            payload.noteId,
            rows,
            claims.sub@,
        );
        if reply.status == OK {
            let last = turns.len() - 1;
            let step = if last == 0 {
                start
            } else {
                turns[0].step
            };
            let made = step->Ask_0->InsertActivity_0;
            let id = choose|id: ObjectId|
                !(#[trigger] rows.activities.dom().contains(id)) && after.activities
                    == rows.activities.insert(id, Activity { id: Some(id), ..made });
            assert(after.activities[id] == (Activity { id: Some(id), ..made }));
        }
    }
}

/// An activity that was edited has the parts of the request, and all else of it
/// is as it was: who it belongs to, whether it is enabled, what was done and
/// seen. Nothing else is changed. Each own activity is edited to what may be
/// stored, unless the database failed, and no other.
pub proof fn law_edited_activity_is_stored(
    claims: Claims,
    payload: EditReq,
    w: Written,
    app: AppState,
    start: Step<ActivityFlow, Reply>,
    rows: Rows,
    turns: Seq<Turn<ActivityFlow>>,
    reply: Reply,
    after: Rows,
)
    requires
        call_ensures(edit, (&claims, payload), start),
        runs(app, start, rows, turns, (reply, after)),
        is_written(w, payload.triggerType@, payload.trigger),
    ensures
        reply.status == OK ==> {
            let id = object_id_of(payload._id@);
            let a = after.activities[id];
            &&& has_own_activity(rows, payload._id@, claims.sub@)
            &&& reply == says(OK, "Activity updated!")
            &&& has_parts(
                a,
                payload.title@,
                payload.description,
                payload.triggerType,
                payload.trigger,
                payload.noteId,
            )
            &&& a == (Activity {
                title: a.title,
                description: a.description,
                triggerType: a.triggerType,
                trigger: a.trigger,
                noteId: a.noteId,
                updatedAt: a.updatedAt,
                ..rows.activities[id]
            })
            &&& after == (Rows { activities: rows.activities.insert(id, a), ..rows })
        },
        reply.status != OK ==> after == rows,
        unfailed(turns) ==> (reply.status == OK) == (has_own_activity(
            rows,
            payload._id@,
            claims.sub@,
        ) && may_be_stored(
            w,
            payload.title@,
            payload.description,
            payload.triggerType@,
            payload.noteId,
            rows,
            claims.sub@,
        )),
{
    reveal_with_fuel(runs, 5);
    if has_own_activity(rows, payload._id@, claims.sub@) && !(turns[0].event is Failed) {
        let id = object_id_of(payload._id@);
        let c = choose|c: Result<Checked, Reply>|
            is_check(
                c,
                payload.title@,
                payload.description,
                payload.triggerType@,
                payload.trigger,
                payload.noteId,
            ) && turns[0].step == #[trigger] crate::handlers::activity::edit_step(
                c,
                claims.sub,
                id,
                payload.triggerType,
                turns[0].now,
            );
        lemma_checked(
            w,
            c,
            payload.title@,
            payload.description,
            payload.triggerType,
            payload.trigger,
            payload.noteId,
            rows,
            claims.sub@,
        );
        assert(turns.len() > 1 ==> turns.skip(1)[0] == turns[1]);
        assert(turns.len() > 2 ==> turns.skip(1).skip(1)[0] == turns[2]);
    }
}

/// An activity that was enabled or disabled is, and nothing else of it is
/// changed but the date of the change.
pub proof fn law_toggle_is_stored(
    claims: Claims,
    id: &str,
    payload: ToggleReq,
    app: AppState,
    start: Step<ActivityFlow, Reply>,
    rows: Rows,
    turns: Seq<Turn<ActivityFlow>>,
    reply: Reply,
    after: Rows,
)
    requires
        call_ensures(toggle, (&claims, id, payload), start),
        runs(app, start, rows, turns, (reply, after)),
    ensures
        reply.status == OK ==> {
            let a = object_id_of(id@);
            &&& has_own_activity(rows, id@, claims.sub@)
            &&& reply == says(
                OK,
                if payload.enabled {
                    "Activity enabled!"
                } else {
                    "Activity disabled!"
                },
            )
            &&& after == (Rows {
                activities: rows.activities.insert(
                    a,
                    Activity {
                        enabled: payload.enabled,
                        updatedAt: Some(turns[0].now.to_millis()),
                        ..rows.activities[a]
                    },
                ),
                ..rows
            })
        },
        reply.status != OK ==> after == rows,
        unfailed(turns) ==> (reply.status == OK) == has_own_activity(rows, id@, claims.sub@),
{
    reveal_with_fuel(runs, 4);
}

/// An activity that was deleted is gone, and nothing else is.
pub proof fn law_deleted_activity_is_gone(
    claims: Claims,
    id: &str,
    app: AppState,
    start: Step<ActivityFlow, Reply>,
    rows: Rows,
    turns: Seq<Turn<ActivityFlow>>,
    reply: Reply,
    after: Rows,
)
    requires
        call_ensures(delete, (&claims, id), start),
        runs(app, start, rows, turns, (reply, after)),
    ensures
        reply.status == OK ==> {
            &&& has_own_activity(rows, id@, claims.sub@)
            &&& reply == says(OK, "Activity deleted!")
            &&& after == (Rows { activities: rows.activities.remove(object_id_of(id@)), ..rows })
        },
        reply.status != OK ==> after == rows,
        unfailed(turns) ==> (reply.status == OK) == has_own_activity(rows, id@, claims.sub@),
{
    reveal_with_fuel(runs, 4);
}

/// When an activity was triggered is stored with it, to the millisecond, and
/// the client is told the same time.
pub proof fn law_trigger_is_stored(
    claims: Claims,
    id: &str,
    app: AppState,
    start: Step<ActivityFlow, Reply>,
    rows: Rows,
    turns: Seq<Turn<ActivityFlow>>,
    reply: Reply,
    after: Rows,
)
    requires
        call_ensures(mark_triggered, (&claims, id), start),
        runs(app, start, rows, turns, (reply, after)),
    ensures
        reply.status == OK ==> {
            let a = object_id_of(id@);
            &&& has_own_activity(rows, id@, claims.sub@)
            &&& reply.cookies is Nothing
            &&& reply.body matches Body::Triggered { at }
            &&& at.secs == turns[0].now.secs
            &&& at.nanos == turns[0].now.nanos - turns[0].now.nanos % 1_000_000
            &&& after == (Rows {
                activities: rows.activities.insert(
                    a,
                    Activity {
                        lastTriggeredAt: Some(at),
                        updatedAt: Some(at),
                        ..rows.activities[a]
                    },
                ),
                ..rows
            })
        },
        reply.status != OK ==> after == rows,
        unfailed(turns) ==> (reply.status == OK) == has_own_activity(rows, id@, claims.sub@),
{
    reveal_with_fuel(runs, 4);
}

/// A note that was linked is stored with the activity, by its identifier, and
/// nothing else of it is changed. An own note is linked to an own activity
/// unless the database failed, and no other.
pub proof fn law_link_is_stored(
    claims: Claims,
    id: &str,
    payload: LinkReq,
    app: AppState,
    start: Step<ActivityFlow, Reply>,
    rows: Rows,
    turns: Seq<Turn<ActivityFlow>>,
    reply: Reply,
    after: Rows,
)
    requires
        call_ensures(link_note, (&claims, id, payload), start),
        runs(app, start, rows, turns, (reply, after)),
    ensures
        reply.status == OK ==> {
            let a = object_id_of(id@);
            &&& reply == says(OK, "Note linked to activity!")
            &&& after.activities[a].noteId matches Some(n) && n@ == hex_form(
                object_id_of(trimmed(payload.noteId@))@,
            )
            &&& after == (Rows {
                activities: rows.activities.insert(
                    a,
                    Activity {
                        noteId: after.activities[a].noteId,
                        updatedAt: Some(turns[1].now.to_millis()),
                        ..rows.activities[a]
                    },
                ),
                ..rows
            })
        },
        reply.status != OK ==> after == rows,
        unfailed(turns) ==> (reply.status == OK) == (has_own_activity(rows, id@, claims.sub@)
            && names_own_note(rows, trimmed(payload.noteId@), claims.sub@)),
{
    reveal_with_fuel(runs, 5);
    let s = trimmed(payload.noteId@);
    if is_object_id(s) {
        let bytes = object_id_bytes(s);
        law_hex_reads_back(bytes);
        assert(object_id_bytes(hex_form(bytes)) == bytes);
        law_text_names_its_bytes(s);
    }
    assert(turns.len() > 1 ==> turns.skip(1)[0] == turns[1]);
    assert(turns.len() > 2 ==> turns.skip(1).skip(1)[0] == turns[2]);
}

/// An activity whose note was taken off has none; what was done stays, and so
/// does the note.
pub proof fn law_link_is_taken_off(
    claims: Claims,
    id: &str,
    app: AppState,
    start: Step<ActivityFlow, Reply>,
    rows: Rows,
    turns: Seq<Turn<ActivityFlow>>,
    reply: Reply,
    after: Rows,
)
    requires
        call_ensures(unlink_note, (&claims, id), start),
        runs(app, start, rows, turns, (reply, after)),
    ensures
        reply.status == OK ==> {
            let a = object_id_of(id@);
            &&& has_own_activity(rows, id@, claims.sub@)
            &&& reply == says(OK, "Note unlinked from activity!")
            &&& after == (Rows {
                activities: rows.activities.insert(
                    a,
                    Activity {
                        noteId: None,
                        updatedAt: Some(turns[0].now.to_millis()),
                        ..rows.activities[a]
                    },
                ),
                ..rows
            })
        },
        reply.status != OK ==> after == rows,
        unfailed(turns) ==> (reply.status == OK) == has_own_activity(rows, id@, claims.sub@),
{
    reveal_with_fuel(runs, 4);
}

/// An occurrence that was seen is stored among those seen, once, and the client
/// is told which. The first name of it that is given counts. Each of 1 to 64
/// characters is stored for an own activity, unless the database failed.
pub proof fn law_seen_occurrence_is_stored(
    claims: Claims,
    id: &str,
    payload: SeenReq,
    reported: Seq<char>,
    app: AppState,
    start: Step<ActivityFlow, Reply>,
    rows: Rows,
    turns: Seq<Turn<ActivityFlow>>,
    reply: Reply,
    after: Rows,
)
    requires
        call_ensures(record_seen, (&claims, id, payload), start),
        runs(app, start, rows, turns, (reply, after)),
        match payload.occurrenceKey {
            Some(k) => k@ == reported,
            None => payload.occurrence matches Some(k) && k@ == reported,
        },
    ensures
        reply.status == OK ==> {
            let a = object_id_of(id@);
            let (old, new) = (rows.activities[a], after.activities[a]);
            &&& reply.cookies is Nothing
            &&& reply.body matches Body::Occurrence { key } && key@ == trimmed(reported)
            &&& text_views(new.seenOccurrences).contains(trimmed(reported))
            &&& text_views(new.seenOccurrences) == if text_views(old.seenOccurrences).contains(
                trimmed(reported),
            ) {
                text_views(old.seenOccurrences)
            } else {
                text_views(old.seenOccurrences).push(trimmed(reported))
            }
            &&& new == (Activity {
                seenOccurrences: new.seenOccurrences,
                updatedAt: Some(turns[0].now.to_millis()),
                ..old
            })
            &&& after == (Rows { activities: rows.activities.insert(a, new), ..rows })
        },
        reply.status != OK ==> after == rows,
        unfailed(turns) ==> (reply.status == OK) == (has_own_activity(rows, id@, claims.sub@) && 1
            <= trimmed(reported).len() <= 64),
{
    reveal_with_fuel(runs, 4);
    if reply.status == OK {
        let a = object_id_of(id@);
        let (old, new) = (
            text_views(rows.activities[a].seenOccurrences),
            text_views(after.activities[a].seenOccurrences),
        );
        if !old.contains(trimmed(reported)) {
            assert(new[new.len() - 1] == trimmed(reported));
        }
    }
}

/// A user who lists the activities gets all of their own and no other, as they
/// are stored. No row is changed.
pub proof fn law_activities_are_listed(
    claims: Claims,
    user: String,
    app: AppState,
    start: Step<ActivityFlow, Reply>,
    rows: Rows,
    turns: Seq<Turn<ActivityFlow>>,
    stored: ObjectId,
    reply: Reply,
    after: Rows,
)
    requires
        call_ensures(view, (&claims, user), start),
        runs(app, start, rows, turns, (reply, after)),
    ensures
        after == rows,
        reply.status == OK ==> {
            &&& reply.cookies is Nothing
            &&& reply.body matches Body::Activities(list)
            &&& forall|i: int| #![trigger list@[i]]
                0 <= i < list@.len() ==> is_of(list@[i].userId, object_id_of(user@), user@)
                    && exists|id: ObjectId| #[trigger]
                    rows.activities.dom().contains(id) && rows.activities[id] == list@[i]
            &&& rows.activities.dom().contains(stored) && is_of(
                rows.activities[stored].userId,
                object_id_of(user@),
                user@,
            ) ==> list@.contains(rows.activities[stored])
        },
        unfailed(turns) ==> (reply.status == OK) == (claims.sub@ == user@ && is_object_id(user@)),
{
    reveal_with_fuel(runs, 3);
}

/// `p` is how an activity stands: its note, the days done and the occurrences
/// seen as they are stored, today by the clock of Recife, whether it is done,
/// the day that was added last, how many days are done, and how many in a row.
pub open spec fn tells(p: Progress, a: Activity, now: UtcTime) -> bool {
    &&& p.noteId == a.noteId
    &&& a.doneDates matches Some(l) ==> p.doneDates@ == l@
    &&& a.doneDates is None ==> p.doneDates@.len() == 0
    &&& a.seenOccurrences matches Some(l) ==> p.seenOccurrences@ == l@
    &&& a.seenOccurrences is None ==> p.seenOccurrences@.len() == 0
    &&& is_br_day(p.today@, recife_day(now))
    &&& p.lastDone is Some <==> p.doneDates@.len() > 0
    &&& p.lastDone matches Some(d) ==> d == p.doneDates@.last()
    &&& p.totalCompletions == done_days(p.doneDates@).len()
    &&& is_streak(done_days(p.doneDates@), recife_day(now), p.currentStreak as int)
}

/// How an own activity stands is told as it is stored; nobody is told of
/// another's. No row is changed.
pub proof fn law_progress_is_told(
    claims: Claims,
    id: &str,
    app: AppState,
    start: Step<ActivityFlow, Reply>,
    rows: Rows,
    turns: Seq<Turn<ActivityFlow>>,
    reply: Reply,
    after: Rows,
)
    requires
        call_ensures(progress, (&claims, id), start),
        runs(app, start, rows, turns, (reply, after)),
    ensures
        after == rows,
        reply.status == OK ==> has_own_activity(rows, id@, claims.sub@) && reply.cookies is Nothing
            && (reply.body matches Body::ActivityProgress(p) && tells(
            p,
            rows.activities[object_id_of(id@)],
            turns[0].now,
        )),
        unfailed(turns) ==> (reply.status == OK) == has_own_activity(rows, id@, claims.sub@),
{
    reveal_with_fuel(runs, 3);
}

/// A day that was marked as done is stored among those done, once, and the
/// client is told it and how the activity then stands: the day that was given,
/// or today by the clock of Recife where none was. Nothing else of the activity
/// is changed. Each day of the calendar is stored for an own activity, unless
/// the database failed, and no other text.
pub proof fn law_done_day_is_stored(
    claims: Claims,
    id: &str,
    payload: CompleteReq,
    year: int,
    month: int,
    day: int,
    app: AppState,
    start: Step<ActivityFlow, Reply>,
    rows: Rows,
    turns: Seq<Turn<ActivityFlow>>,
    reply: Reply,
    after: Rows,
)
    requires
        call_ensures(complete, (&claims, id, payload), start),
        runs(app, start, rows, turns, (reply, after)),
        payload.date matches Some(t) ==> trimmed(t@).len() == 0 || (0 <= year < 10000 && 0 <= month
            < 100 && 0 <= day < 100 && is_date_text(trimmed(t@), year, month, day)),
    ensures
        reply.status == OK ==> {
            let a = object_id_of(id@);
            let (old, new) = (rows.activities[a], after.activities[a]);
            &&& reply.cookies is Nothing
            &&& reply.body matches Body::Completed { progress: p, date }
            &&& payload.date is Some && trimmed(payload.date->0@).len() > 0 ==> date@ == trimmed(
                payload.date->0@,
            )
            &&& payload.date is None || trimmed(payload.date->0@).len() == 0 ==> is_br_day(
                date@,
                recife_day(turns[0].now),
            )
            &&& text_views(new.doneDates) == if text_views(old.doneDates).contains(date@) {
                text_views(old.doneDates)
            } else {
                text_views(old.doneDates).push(date@)
            }
            &&& new == (Activity {
                doneDates: new.doneDates,
                updatedAt: Some(turns[0].now.to_millis()),
                ..old
            })
            &&& after == (Rows { activities: rows.activities.insert(a, new), ..rows })
            &&& tells(p, new, turns[2].now)
        },
        !has_own_activity(rows, id@, claims.sub@) ==> after == rows && reply.status != OK,
        unfailed(turns) ==> (reply.status == OK) == (has_own_activity(rows, id@, claims.sub@) && (
        payload.date is Some && trimmed(payload.date->0@).len() > 0 ==> is_date(
            year,
            month,
            day,
        ))),
{
    reveal_with_fuel(runs, 5);
    if let Some(t) = payload.date {
        if trimmed(t@).len() > 0 {
            law_day_is_accepted(trimmed(t@), year, month, day);
        }
    }
    assert(turns.len() > 1 ==> turns.skip(1)[0] == turns[1]);
    assert(turns.len() > 2 ==> turns.skip(1).skip(1)[0] == turns[2]);
}

} // verus!
