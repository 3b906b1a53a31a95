//! What the database holds, and what the actions of a handler do to it.
//!
//! Nothing here runs. A law of a handler speaks of the rows before and after a
//! whole request, from what the client sent to what it is told.

use vstd::prelude::*;

use crate::config::AppState;
use crate::flow::{Action, ActivityChange, Ceremony, CeremonyFilter, Event, Flow, NoteChange, StateChange, Step, Subscription, UserChange};
use crate::http::Reply;
use crate::models::{Activity, Label, Note, NoteState, Otp, PasskeyCredential, PushSubscription, Session, Tfa, User};
#[allow(unused_imports)]
use crate::object_id::{hex_form, ObjectId};
use crate::time::UtcTime;

verus! {

/// The rows of each kind, by identifier.
pub struct Rows {
    pub users: Map<ObjectId, User>,
    pub tfas: Map<ObjectId, Tfa>,
    pub otps: Map<ObjectId, Otp>,
    pub sessions: Map<ObjectId, Session>,
    pub notes: Map<ObjectId, Note>,
    pub states: Map<ObjectId, NoteState>,
    pub labels: Map<ObjectId, Label>,
    pub activities: Map<ObjectId, Activity>,
    pub subscriptions: Map<ObjectId, PushSubscription>,
    pub passkeys: Map<ObjectId, PasskeyCredential>,
    /// By their tokens.
    pub ceremonies: Map<Seq<char>, Ceremony>,
}

/// The row with an identifier.
pub open spec fn found<T>(rows: Map<ObjectId, T>, id: ObjectId) -> Option<T> {
    if rows.dom().contains(id) {
        Some(rows[id])
    } else {
        None
    }
}

/// `r` is one of the rows that are wanted, and none only where there is none.
pub open spec fn is_one<T>(r: Option<T>, rows: Map<ObjectId, T>, wanted: spec_fn(T) -> bool) -> bool {
    match r {
        Some(row) => exists|id: ObjectId| #[trigger]
            rows.dom().contains(id) && rows[id] == row && wanted(row),
        None => forall|id: ObjectId| #[trigger] rows.dom().contains(id) ==> !wanted(rows[id]),
    }
}

/// `list` holds the rows that are wanted, each once.
pub open spec fn is_list<T>(
    list: Seq<T>,
    rows: Map<ObjectId, T>,
    wanted: spec_fn(T) -> bool,
) -> bool {
    &&& list.no_duplicates()
    &&& forall|i: int|
        0 <= i < list.len() ==> wanted(#[trigger] list[i]) && exists|id: ObjectId| #[trigger]
            rows.dom().contains(id) && rows[id] == list[i]
    &&& forall|id: ObjectId| #[trigger]
        rows.dom().contains(id) && wanted(rows[id]) ==> list.contains(rows[id])
}

/// The rows that are not wanted are left.
pub open spec fn without<T>(rows: Map<ObjectId, T>, wanted: spec_fn(T) -> bool) -> Map<ObjectId, T> {
    Map::new(|id: ObjectId| rows.dom().contains(id) && !wanted(rows[id]), |id: ObjectId| rows[id])
}

/// `after` has one row more, whose identifier is the given one where one is
/// given.
pub open spec fn has_new<T>(
    rows: Map<ObjectId, T>,
    given: Option<ObjectId>,
    row: spec_fn(ObjectId) -> T,
    after: Map<ObjectId, T>,
) -> bool {
    exists|id: ObjectId|
        !(#[trigger] rows.dom().contains(id)) && (given is None || given == Some(id)) && after
            == rows.insert(id, row(id))
}

/// The first of two values that is there.
pub open spec fn given_or<T>(given: Option<T>, kept: Option<T>) -> Option<T> {
    if given is Some {
        given
    } else {
        kept
    }
}

/// An account after a change.
pub open spec fn changed_user(user: User, change: UserChange) -> User {
    match change {
        UserChange::Password(password) => User { password: Some(password), ..user },
        UserChange::IntoNormal { password } => User {
            password: Some(password),
            googleAccount: Some(false),
            ..user
        },
        UserChange::IntoGoogle { google_id, name, email } => User {
            password: None,
            googleAccount: Some(true),
            googleId: Some(google_id),
            name,
            email,
            ..user
        },
        UserChange::LastOpenedNote(note) => User { lastOpenedNote: Some(note), ..user },
        UserChange::Settings(settings) => User { settings: Some(settings), ..user },
        UserChange::TfaStatus(tfa) => User { tfa_status: Some(tfa), ..user },
        UserChange::TfaStatusNull => User { tfa_status: None, ..user },
        UserChange::TfaStatusUnset => User { tfa_status: None, ..user },
    }
}

/// A note after a change.
pub open spec fn changed_note(note: Note, change: NoteChange) -> Note {
    match change {
        NoteChange::Labels(labels) => Note { labels: Some(labels), ..note },
        NoteChange::Name(name) => Note { name: Some(name), ..note },
        NoteChange::Image(image) => Note { image: Some(image), ..note },
        NoteChange::Settings(settings) => Note { settings: Some(settings), ..note },
        NoteChange::Contents { name, body, image } => Note {
            name: given_or(name, note.name),
            body: given_or(body, note.body),
            image: given_or(image, note.image),
            ..note
        },
    }
}

/// The text of a note after a change.
pub open spec fn changed_state(state: NoteState, change: StateChange) -> NoteState {
    match change {
        StateChange::NoteId(note) => NoteState { noteId: Some(note), ..state },
        StateChange::Text(text) => NoteState { state: text, ..state },
    }
}

/// `after` is what `texts` is with one text added that was not there.
pub open spec fn has_text(texts: Option<Vec<String>>, text: Seq<char>, after: Option<Vec<String>>) -> bool {
    let old = text_views(texts);
    after is Some && text_views(after) == if old.contains(text) {
        old
    } else {
        old.push(text)
    }
}

/// The texts of a list; none where there is no list.
pub open spec fn text_views(texts: Option<Vec<String>>) -> Seq<Seq<char>> {
    match texts {
        Some(v) => Seq::new(v@.len(), |i: int| v@[i]@),
        None => Seq::empty(),
    }
}

/// `after` is an activity after a change.
pub open spec fn is_changed_activity(
    activity: Activity,
    change: ActivityChange,
    at: UtcTime,
    after: Activity,
) -> bool {
    match change {
        ActivityChange::Edit { title, description, triggerType, trigger, noteId } => after == (
        Activity {
            title,
            description,
            triggerType,
            trigger,
            noteId,
            updatedAt: Some(at),
            ..activity
        }),
        ActivityChange::Enabled(enabled) => after == (Activity {
            enabled,
            updatedAt: Some(at),
            ..activity
        }),
        ActivityChange::Triggered => after == (Activity {
            lastTriggeredAt: Some(at),
            updatedAt: Some(at),
            ..activity
        }),
        ActivityChange::LinkNote(note) => after == (Activity {
            noteId: Some(note),
            updatedAt: Some(at),
            ..activity
        }),
        ActivityChange::UnlinkNote => after == (Activity {
            noteId: None,
            updatedAt: Some(at),
            ..activity
        }),
        ActivityChange::Done(day) => {
            &&& has_text(activity.doneDates, day@, after.doneDates)
            &&& after == (Activity {
                doneDates: after.doneDates,
                updatedAt: Some(at),
                ..activity
            })
        },
        ActivityChange::Seen(key) => {
            &&& has_text(activity.seenOccurrences, key@, after.seenOccurrences)
            &&& after == (Activity {
                seenOccurrences: after.seenOccurrences,
                updatedAt: Some(at),
                ..activity
            })
        },
    }
}

/// A row is one of a user, whichever form of the identifier it has.
pub open spec fn is_of(owner: ObjectId, user: ObjectId, text: Seq<char>) -> bool {
    owner == user || hex_form(owner@) == text
}

/// `event` is a true answer to an action on accounts, which leaves `after`.
pub open spec fn acts_on_accounts(rows: Rows, action: Action, event: Event, after: Rows) -> bool {
    match action {
        Action::UserByEmail(email) => event matches Event::User(u) && after == rows && is_one(
            u,
            rows.users,
            |row: User| row.email@ == email@,
        ),
        Action::UserById(id) => after == rows && event == Event::User(found(rows.users, id)),
        Action::InsertUser(user) => {
            &&& event is Done
            &&& has_new(
                rows.users,
                user.id,
                |id: ObjectId| User { id: Some(id), ..user },
                after.users,
            )
            &&& after == (Rows { users: after.users, ..rows })
        },
        Action::UpdateUser(id, change) => event is Done && after == if rows.users.dom().contains(
            id,
        ) {
            Rows { users: rows.users.insert(id, changed_user(rows.users[id], change)), ..rows }
        } else {
            rows
        },
        Action::TfaById(id) => after == rows && event == Event::Tfa(found(rows.tfas, id)),
        Action::TfaOf(user) => event matches Event::Tfa(t) && after == rows && is_one(
            t,
            rows.tfas,
            |row: Tfa| row.userId == user,
        ),
        Action::TfasOf(user) => event matches Event::Tfas(list) && after == rows && is_list(
            list@,
            rows.tfas,
            |row: Tfa| row.userId == user,
        ),
        Action::InsertTfa(tfa) => {
            &&& event is Done
            &&& has_new(
                rows.tfas,
                tfa.id,
                |id: ObjectId| Tfa { id: Some(id), ..tfa },
                after.tfas,
            )
            &&& after == (Rows { tfas: after.tfas, ..rows })
        },
        Action::MarkTfaVerified(id) => event is Done && after == if rows.tfas.dom().contains(id) {
            Rows { tfas: rows.tfas.insert(id, Tfa { verified: true, ..rows.tfas[id] }), ..rows }
        } else {
            rows
        },
        Action::DeleteTfa(id) => event is Done && after == (Rows {
            tfas: rows.tfas.remove(id),
            ..rows
        }),
        Action::OtpsOf(user) => event matches Event::Otps(list) && after == rows && is_list(
            list@,
            rows.otps,
            |row: Otp| row.userId@ == user@,
        ),
        Action::InsertOtp(otp) => {
            &&& event is Done
            &&& has_new(
                rows.otps,
                otp.id,
                |id: ObjectId| Otp { id: Some(id), ..otp },
                after.otps,
            )
            &&& after == (Rows { otps: after.otps, ..rows })
        },
        Action::DeleteOtps { user_id, ids } => event is Done && after == (Rows {
            otps: without(
                rows.otps,
                |row: Otp| row.userId@ == user_id@ && (row.id matches Some(id) && ids@.contains(id)),
            ),
            ..rows
        }),
        Action::DeleteOtp(id) => event is Done && after == (Rows {
            otps: rows.otps.remove(id),
            ..rows
        }),
        _ => false,
    }
}

/// `event` is a true answer to an action on sessions, which leaves `after`.
pub open spec fn acts_on_sessions(rows: Rows, action: Action, event: Event, after: Rows) -> bool {
    match action {
        Action::SessionsOf(user) => event matches Event::Sessions(list) && after == rows
            && is_list(list@, rows.sessions, |row: Session| row.userId == user),
        Action::SessionsOfEither(user, text) => event matches Event::Sessions(list) && after == rows
            && is_list(list@, rows.sessions, |row: Session| is_of(row.userId, user, text@)),
        Action::SessionByToken(token) => event matches Event::Session(s) && after == rows && is_one(
            s,
            rows.sessions,
            |row: Session| row.token@ == token@,
        ),
        Action::InsertSession(session) => {
            &&& event is Done
            &&& has_new(
                rows.sessions,
                session.id,
                |id: ObjectId| Session { id: Some(id), ..session },
                after.sessions,
            )
            &&& after == (Rows { sessions: after.sessions, ..rows })
        },
        Action::ReplaceSessionToken { user, old, new } => {
            &&& event matches Event::Changed(changed) && changed == (old@ != new@ && exists|
                id: ObjectId,
            | #[trigger]
                rows.sessions.dom().contains(id) && rows.sessions[id].userId == user
                    && rows.sessions[id].token@ == old@)
            &&& after == (Rows {
                sessions: rows.sessions.map_values(
                    |row: Session|
                        if row.userId == user && row.token@ == old@ {
                            Session { token: new, ..row }
                        } else {
                            row
                        },
                ),
                ..rows
            })
        },
        Action::DeleteSessionByToken { user, token } => event is Done && after == (Rows {
            sessions: without(
                rows.sessions,
                |row: Session| row.userId == user && row.token@ == token@,
            ),
            ..rows
        }),
        Action::DeleteSession { id, user, user_text } => event is Done && after == if (
        rows.sessions.dom().contains(id) && is_of(rows.sessions[id].userId, user, user_text@)) {
            Rows { sessions: rows.sessions.remove(id), ..rows }
        } else {
            rows
        },
        Action::DeleteSessions { user, user_text } => event is Done && after == (Rows {
            sessions: without(
                rows.sessions,
                |row: Session| is_of(row.userId, user, user_text@),
            ),
            ..rows
        }),
        _ => false,
    }
}

/// `event` is a true answer to an action on notes, their texts and labels,
/// which leaves `after`.
pub open spec fn acts_on_notes(rows: Rows, action: Action, event: Event, after: Rows) -> bool {
    match action {
        Action::NoteById(id) => after == rows && event == Event::Note(found(rows.notes, id)),
        Action::InsertNote(note) => event matches Event::Inserted(id) && !rows.notes.dom().contains(
            id,
        ) && (note.id is None || note.id == Some(id)) && after == (Rows {
            notes: rows.notes.insert(id, Note { id: Some(id), ..note }),
            ..rows
        }),
        Action::UpdateNote(id, change) => event is Done && after == if rows.notes.dom().contains(
            id,
        ) {
            Rows { notes: rows.notes.insert(id, changed_note(rows.notes[id], change)), ..rows }
        } else {
            rows
        },
        Action::DeleteNote(id) => event is Done && after == (Rows {
            notes: rows.notes.remove(id),
            ..rows
        }),
        Action::StateById(id) => after == rows && event == Event::State(found(rows.states, id)),
        Action::InsertState(state) => event matches Event::Inserted(id)
            && !rows.states.dom().contains(id) && (state.id is None || state.id == Some(id))
            && after == (Rows {
            states: rows.states.insert(id, NoteState { id: Some(id), ..state }),
            ..rows
        }),
        Action::UpdateState(id, change) => event is Done && after == if rows.states.dom().contains(
            id,
        ) {
            Rows { states: rows.states.insert(id, changed_state(rows.states[id], change)), ..rows }
        } else {
            rows
        },
        Action::DeleteState(id) => event is Done && after == (Rows {
            states: rows.states.remove(id),
            ..rows
        }),
        Action::LabelById(id) => after == rows && event == Event::Label(found(rows.labels, id)),
        Action::InsertLabel(label) => {
            &&& event is Done
            &&& has_new(
                rows.labels,
                label.id,
                |id: ObjectId| Label { id: Some(id), ..label },
                after.labels,
            )
            &&& after == (Rows { labels: after.labels, ..rows })
        },
        Action::UpdateLabel { id, name, color, label_type, at } => event is Done && after
            == if rows.labels.dom().contains(id) {
            Rows {
                labels: rows.labels.insert(
                    id,
                    Label { name, color, label_type, updatedAt: Some(at), ..rows.labels[id] },
                ),
                ..rows
            }
        } else {
            rows
        },
        Action::DeleteLabel(id) => event is Done && after == (Rows {
            labels: rows.labels.remove(id),
            ..rows
        }),
        _ => false,
    }
}

/// `event` is a true answer to an action on activities, which leaves `after`.
pub open spec fn acts_on_activities(rows: Rows, action: Action, event: Event, after: Rows) -> bool {
    match action {
        Action::ActivityById(id) => after == rows && event == Event::Activity(
            found(rows.activities, id),
        ),
        Action::ActivitiesOfEither(user, text) => event matches Event::Activities(
            list,
        ) && after == rows && is_list(list@, rows.activities, |row: Activity| is_of(row.userId, user, text@)),
        Action::InsertActivity(activity) => {
            &&& event is Done
            &&& has_new(
                rows.activities,
                activity.id,
                |id: ObjectId| Activity { id: Some(id), ..activity },
                after.activities,
            )
            &&& after == (Rows { activities: after.activities, ..rows })
        },
        Action::UpdateActivity { id, change, at } => {
            &&& event is Done
            &&& if rows.activities.dom().contains(id) {
                &&& after.activities.dom().contains(id)
                &&& is_changed_activity(rows.activities[id], change, at, after.activities[id])
                &&& after == (Rows {
                    activities: rows.activities.insert(id, after.activities[id]),
                    ..rows
                })
            } else {
                after == rows
            }
        },
        Action::DeleteActivity(id) => event is Done && after == (Rows {
            activities: rows.activities.remove(id),
            ..rows
        }),
        _ => false,
    }
}

/// `row` is what a subscription makes of the row `id`: the one with its
/// endpoint, which keeps the date of its creation, or a new one where there is
/// none.
pub open spec fn is_upserted(
    rows: Map<ObjectId, PushSubscription>,
    s: Subscription,
    at: UtcTime,
    id: ObjectId,
    row: PushSubscription,
) -> bool {
    &&& if rows.dom().contains(id) {
        rows[id].endpoint@ == s.endpoint@ && row.id == rows[id].id && row.createdAt
            == rows[id].createdAt
    } else {
        &&& forall|i: ObjectId| #[trigger]
            rows.dom().contains(i) ==> rows[i].endpoint@ != s.endpoint@
        &&& row.id == Some(id)
        &&& row.createdAt == Some(at.to_millis())
    }
    &&& row.endpoint == s.endpoint
    &&& row.userId == s.userId
    &&& row.p256dh == s.p256dh
    &&& row.auth == s.auth
    &&& row.userAgent == Some(s.userAgent)
    &&& row.updatedAt == Some(at.to_millis())
}

/// A ceremony is the one that may be taken.
pub open spec fn is_wanted(wanted: CeremonyFilter, c: Ceremony) -> bool {
    &&& c.token@ == wanted.token@
    &&& c.purpose@ == wanted.purpose@
    &&& c.subject@ == wanted.subject@
    &&& wanted.expires_after.before(c.expires_at)
}

/// `event` is a true answer to an action on devices and passkeys, which leaves
/// `after`.
pub open spec fn acts_on_devices(rows: Rows, action: Action, event: Event, after: Rows) -> bool {
    match action {
        Action::SubscriptionsOf(user) => event matches Event::Subscriptions(list) && after == rows
            && is_list(list@, rows.subscriptions, |row: PushSubscription| row.userId == user),
        Action::SubscriptionsOfEither(user, text) => event matches Event::Subscriptions(list) && after == rows && is_list(
            list@,
            rows.subscriptions,
            |row: PushSubscription| is_of(row.userId, user, text@),
        ),
        Action::UpsertSubscription(s, at) => {
            &&& event is Done
            &&& exists|id: ObjectId, row: PushSubscription| #[trigger]
                is_upserted(rows.subscriptions, s, at, id, row) && after == (Rows {
                    subscriptions: rows.subscriptions.insert(id, row),
                    ..rows
                })
        },
        Action::DeleteSubscriptionOf { user, endpoint } => event is Done && after == (Rows {
            subscriptions: without(
                rows.subscriptions,
                |row: PushSubscription| row.userId == user && row.endpoint@ == endpoint@,
            ),
            ..rows
        }),
        Action::DeleteSubscription { endpoint } => event is Done && after == (Rows {
            subscriptions: without(
                rows.subscriptions,
                |row: PushSubscription| row.endpoint@ == endpoint@,
            ),
            ..rows
        }),
        Action::PasskeysOf(user) => event matches Event::Passkeys(list) && after == rows && is_list(
            list@,
            rows.passkeys,
            |row: PasskeyCredential| row.userId == user,
        ),
        Action::PasskeyByCredential(cred_id) => event matches Event::Passkey(p) && after == rows
            && is_one(p, rows.passkeys, |row: PasskeyCredential| row.cred_id@ == cred_id@),
        Action::InsertPasskey(passkey) => if exists|id: ObjectId| #[trigger]
            rows.passkeys.dom().contains(id) && rows.passkeys[id].cred_id@ == passkey.cred_id@ {
            event is Duplicate && after == rows
        } else {
            &&& event is Done
            &&& has_new(
                rows.passkeys,
                passkey.id,
                |id: ObjectId| PasskeyCredential { id: Some(id), ..passkey },
                after.passkeys,
            )
            &&& after == (Rows { passkeys: after.passkeys, ..rows })
        },
        Action::UpdatePasskey { cred_id, previous, passkey_json, at } => {
            &&& event matches Event::Count(n) && n == if exists|id: ObjectId| #[trigger]
                rows.passkeys.dom().contains(id) && rows.passkeys[id].cred_id@ == cred_id@
                    && rows.passkeys[id].passkey_json@ == previous@ {
                1u64
            } else {
                0
            }
            &&& after == (Rows {
                passkeys: rows.passkeys.map_values(
                    |row: PasskeyCredential|
                        if row.cred_id@ == cred_id@ && row.passkey_json@ == previous@ {
                            PasskeyCredential { passkey_json, lastUsedAt: Some(at), ..row }
                        } else {
                            row
                        },
                ),
                ..rows
            })
        },
        Action::StoreCeremony(ceremony) => event is Done && after == (Rows {
            ceremonies: rows.ceremonies.insert(ceremony.token@, ceremony),
            ..rows
        }),
        Action::TakeCeremony(wanted) => if rows.ceremonies.dom().contains(wanted.token@)
            && is_wanted(wanted, rows.ceremonies[wanted.token@]) {
            event == Event::Taken(Some(rows.ceremonies[wanted.token@])) && after == (Rows {
                ceremonies: rows.ceremonies.remove(wanted.token@),
                ..rows
            })
        } else {
            event == Event::Taken(None) && after == rows
        },
        Action::DeletePasskey { user, cred_id } => {
            &&& event matches Event::Count(n) && n == if exists|id: ObjectId| #[trigger]
                rows.passkeys.dom().contains(id) && rows.passkeys[id].userId == user
                    && rows.passkeys[id].cred_id@ == cred_id@ {
                1u64
            } else {
                0
            }
            &&& after == (Rows {
                passkeys: without(
                    rows.passkeys,
                    |row: PasskeyCredential| row.userId == user && row.cred_id@ == cred_id@,
                ),
                ..rows
            })
        },
        _ => false,
    }
}

/// `event` is a true answer to an action on the rows, which leaves `after`. Of
/// an action that is not on the rows nothing is said but that they stay.
pub open spec fn acts(rows: Rows, action: Action, event: Event, after: Rows) -> bool {
    match action {
        Action::UserByEmail(_) | Action::UserById(_) | Action::InsertUser(_) | Action::UpdateUser(
            _,
            _,
        ) | Action::TfaById(_) | Action::TfaOf(_) | Action::TfasOf(_) | Action::InsertTfa(_)
        | Action::MarkTfaVerified(_) | Action::DeleteTfa(_) | Action::OtpsOf(_)
        | Action::InsertOtp(_) | Action::DeleteOtps { .. } | Action::DeleteOtp(
            _,
        ) => acts_on_accounts(rows, action, event, after),
        Action::SessionsOf(_) | Action::SessionsOfEither(_, _) | Action::SessionByToken(_)
        | Action::InsertSession(_) | Action::ReplaceSessionToken { .. }
        | Action::DeleteSessionByToken { .. } | Action::DeleteSession { .. }
        | Action::DeleteSessions { .. } => acts_on_sessions(rows, action, event, after),
        Action::NoteById(_) | Action::InsertNote(_) | Action::UpdateNote(_, _)
        | Action::DeleteNote(_) | Action::StateById(_) | Action::InsertState(_)
        | Action::UpdateState(_, _) | Action::DeleteState(_) | Action::LabelById(_)
        | Action::InsertLabel(_) | Action::UpdateLabel { .. } | Action::DeleteLabel(
            _,
        ) => acts_on_notes(rows, action, event, after),
        Action::ActivityById(_) | Action::ActivitiesOfEither(_, _) | Action::InsertActivity(_)
        | Action::UpdateActivity { .. } | Action::DeleteActivity(_) => acts_on_activities(
            rows,
            action,
            event,
            after,
        ),
        Action::UpsertSubscription(_, _) | Action::SubscriptionsOf(_)
        | Action::SubscriptionsOfEither(_, _) | Action::DeleteSubscriptionOf { .. } | Action::DeleteSubscription { .. }
        | Action::PasskeysOf(_) | Action::PasskeyByCredential(_) | Action::InsertPasskey(_)
        | Action::UpdatePasskey { .. } | Action::DeletePasskey { .. } | Action::StoreCeremony(_)
        | Action::TakeCeremony(_) => acts_on_devices(
            rows,
            action,
            event,
            after,
        ),
        _ => after == rows,
    }
}

/// One turn of a request: the answer, when it came, what the handler did with
/// it, and the rows that the action left.
pub struct Turn<S> {
    pub event: Event,
    pub now: UtcTime,
    pub step: Step<S, Reply>,
    pub rows: Rows,
}

/// From `step` the turns lead to the end of the request: what the client is
/// told, and the rows. Each answer is true, or says that the action failed,
/// which then did nothing.
pub open spec fn runs<S: Flow<Out = Reply>>(
    app: AppState,
    step: Step<S, Reply>,
    rows: Rows,
    turns: Seq<Turn<S>>,
    end: (Reply, Rows),
) -> bool
    decreases turns.len(),
{
    match step {
        Step::Done(reply) => turns.len() == 0 && end == (reply, rows),
        Step::Ask(action, state) => {
            &&& turns.len() > 0
            &&& acts(rows, action, turns[0].event, turns[0].rows) || (turns[0].event is Failed
                && turns[0].rows == rows)
            &&& call_ensures(
                S::resume,
                (state, &app, turns[0].event, turns[0].now),
                turns[0].step,
            )
            &&& runs(app, turns[0].step, turns[0].rows, turns.skip(1), end)
        },
    }
}

/// No action failed.
pub open spec fn unfailed<S>(turns: Seq<Turn<S>>) -> bool {
    forall|i: int| 0 <= i < turns.len() ==> !((#[trigger] turns[i]).event is Failed)
}

} // verus!
