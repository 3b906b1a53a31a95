//! How a handler and the outside world take turns.
//!
//! A handler does nothing by itself. It says what is to be done next, an
//! `Action`, and goes on when it is told what came of it, an `Event`. An event
//! that is no answer to the action counts as a failure of it.

use vstd::prelude::*;

use crate::config::AppState;
use crate::models::{Activity, ActivityTrigger, Label, Note, NoteSettings, NoteState, Otp, PasskeyCredential, PushSubscription, Session, Tfa, User, UserSettings};
use crate::object_id::ObjectId;
use crate::time::UtcTime;
use crate::utils::geo::IpGeoResponse;

verus! {

/// What changes in an account.
#[derive(Debug)]
pub enum UserChange {
    Password(String),
    /// A password, and no Google account.
    IntoNormal { password: String },
    /// A Google account, and no password.
    IntoGoogle { google_id: String, name: String, email: String },
    LastOpenedNote(ObjectId),
    Settings(UserSettings),
    TfaStatus(ObjectId),
    /// The second factor's status set to null.
    TfaStatusNull,
    /// The second factor's status taken out.
    TfaStatusUnset,
}

/// What changes in a note.
#[derive(Debug)]
pub enum NoteChange {
    Labels(Vec<ObjectId>),
    Name(String),
    Image(String),
    Settings(NoteSettings),
    /// Each of those that are there; one at least is.
    Contents { name: Option<String>, body: Option<String>, image: Option<String> },
}

/// What changes in the text of a note.
#[derive(Debug)]
pub enum StateChange {
    NoteId(ObjectId),
    Text(String),
}

/// What changes in an activity.
#[derive(Debug)]
pub enum ActivityChange {
    /// All of it; without a note the link is taken out.
    Edit {
        title: String,
        description: Option<String>,
        triggerType: String,
        trigger: ActivityTrigger,
        noteId: Option<String>,
    },
    Enabled(bool),
    Triggered,
    LinkNote(String),
    UnlinkNote,
    /// A day added to those done, once.
    Done(String),
    /// An occurrence added to those seen, once.
    Seen(String),
}

/// A subscription of a device, by its endpoint.
#[derive(Debug)]
pub struct Subscription {
    pub endpoint: String,
    pub userId: ObjectId,
    pub p256dh: String,
    pub auth: String,
    pub userAgent: String,
}

/// A request to a push service.
#[derive(Debug)]
pub struct PushRequest {
    pub uri: String,
    pub headers: Vec<(String, Vec<u8>)>,
    pub body: Vec<u8>,
}

/// The state of a passkey ceremony between its two requests.
#[derive(Debug)]
pub struct Ceremony {
    pub token: String,
    pub purpose: String,
    pub subject: String,
    pub state_json: String,
    pub expires_at: UtcTime,
}

/// Which ceremony may be taken: the one with this token, for this purpose and
/// this subject, that expires after `expires_after`.
#[derive(Debug)]
pub struct CeremonyFilter {
    pub token: String,
    pub purpose: String,
    pub subject: String,
    pub expires_after: UtcTime,
}

/// What is to be done next.
#[derive(Debug)]
pub enum Action {
    /// Count an attempt: `Allowed` or `Limited`.
    Limit { key: String, max_attempts: u32, window_secs: u64 },
    /// Ask Google whose token this is: `Google`.
    GoogleUser { access_token: String },
    /// Ask where an address is: `Geo`.
    Geo { url: String },
    /// Set up the mail relay: `Done`.
    MailRelay { host: String },
    /// Send a mail; whether it goes out does not matter.
    SendMail { from: String, to: String, subject: &'static str, html: String },
    /// Send a push notification: `Pushed`.
    SendPush(PushRequest),
    /// `User`.
    UserByEmail(String),
    /// `User`.
    UserById(ObjectId),
    InsertUser(User),
    UpdateUser(ObjectId, UserChange),
    /// `Tfa`.
    TfaById(ObjectId),
    /// The second factor of a user: `Tfa`.
    TfaOf(ObjectId),
    /// All second factors of a user: `Tfas`.
    TfasOf(ObjectId),
    InsertTfa(Tfa),
    MarkTfaVerified(ObjectId),
    DeleteTfa(ObjectId),
    /// `Otps`, oldest first.
    OtpsOf(String),
    InsertOtp(Otp),
    DeleteOtps { user_id: String, ids: Vec<ObjectId> },
    DeleteOtp(ObjectId),
    /// `Sessions`.
    SessionsOf(ObjectId),
    /// The sessions of a user, in either form of the identifier: `Sessions`.
    SessionsOfEither(ObjectId, String),
    /// `Session`.
    SessionByToken(String),
    InsertSession(Session),
    /// Give the sessions of a user that have the token `old` the token `new`:
    /// `Changed`, whether there was one.
    ReplaceSessionToken { user: ObjectId, old: String, new: String },
    DeleteSessionByToken { user: ObjectId, token: String },
    DeleteSession { id: ObjectId, user: ObjectId, user_text: String },
    DeleteSessions { user: ObjectId, user_text: String },
    /// `Note`.
    NoteById(ObjectId),
    /// All notes of an author: `Notes`.
    NotesOf(String),
    /// How many notes of an author are pinned, or not: `Count`.
    CountNotes { author: String, pinned: bool },
    /// Notes of an author that are pinned, or not, oldest first: `Notes`.
    NotesPage { author: String, pinned: bool, skip: u64, limit: i64 },
    /// `Inserted`.
    InsertNote(Note),
    UpdateNote(ObjectId, NoteChange),
    DeleteNote(ObjectId),
    /// `State`.
    StateById(ObjectId),
    /// `Inserted`.
    InsertState(NoteState),
    UpdateState(ObjectId, StateChange),
    DeleteState(ObjectId),
    /// `Label`.
    LabelById(ObjectId),
    /// How many labels of a user match: `Count`.
    CountLabels { user: ObjectId, search: String },
    /// Labels of a user that match, by identifier: `Labels`.
    LabelsPage { user: ObjectId, search: String, skip: u64, limit: i64 },
    InsertLabel(Label),
    UpdateLabel { id: ObjectId, name: String, color: String, label_type: String, at: UtcTime },
    DeleteLabel(ObjectId),
    /// `Activity`.
    ActivityById(ObjectId),
    /// The activities of a user, in either form of the identifier, by time of
    /// day: `Activities`.
    ActivitiesOfEither(ObjectId, String),
    /// Begin to go through the activities that are not disabled and not later
    /// in the day: `Done`.
    ScanActivities { up_to: String },
    /// The next activity that is gone through, none at the end: `Activity`.
    NextActivity,
    InsertActivity(Activity),
    UpdateActivity { id: ObjectId, change: ActivityChange, at: UtcTime },
    DeleteActivity(ObjectId),
    /// Record an occurrence as pushed, unless it already is: `Changed`.
    ClaimOccurrence { id: ObjectId, key: String, at: UtcTime },
    UpsertSubscription(Subscription, UtcTime),
    /// The subscriptions of a user, oldest first: `Subscriptions`.
    SubscriptionsOf(ObjectId),
    /// The subscriptions of a user, in either form of the identifier:
    /// `Subscriptions`.
    SubscriptionsOfEither(ObjectId, String),
    DeleteSubscriptionOf { user: ObjectId, endpoint: String },
    DeleteSubscription { endpoint: String },
    /// `Passkeys`.
    PasskeysOf(ObjectId),
    /// `Passkey`.
    PasskeyByCredential(String),
    /// `Done`, or `Duplicate` where the credential is registered.
    InsertPasskey(PasskeyCredential),
    /// Replace the credential where it is still `previous`: `Count` of the
    /// rows that matched.
    UpdatePasskey { cred_id: String, previous: String, passkey_json: String, at: UtcTime },
    /// `Count` of the rows that went.
    DeletePasskey { user: ObjectId, cred_id: String },
    StoreCeremony(Ceremony),
    /// Find and delete in one step: `Taken`.
    TakeCeremony(CeremonyFilter),
}

/// What Google says of an access token.
#[derive(Debug)]
pub enum GoogleAnswer {
    /// There was no answer.
    Unreachable,
    /// The answer was no user.
    Refused,
    User { email: Option<String>, id: Option<String> },
}

/// What a push service answers.
#[derive(Debug)]
pub enum PushAnswer {
    /// There was no answer.
    NoAnswer,
    Status(u16),
}

/// What came of an action.
#[derive(Debug)]
pub enum Event {
    Failed,
    Done,
    Allowed,
    Limited,
    Duplicate,
    Changed(bool),
    Count(u64),
    Inserted(ObjectId),
    Google(GoogleAnswer),
    Geo(Option<IpGeoResponse>),
    Pushed(PushAnswer),
    User(Option<User>),
    Tfa(Option<Tfa>),
    Tfas(Vec<Tfa>),
    Otps(Vec<Otp>),
    Session(Option<Session>),
    Sessions(Vec<Session>),
    Note(Option<Note>),
    Notes(Vec<Note>),
    State(Option<NoteState>),
    Label(Option<Label>),
    Labels(Vec<Label>),
    Activity(Option<Activity>),
    Activities(Vec<Activity>),
    Subscriptions(Vec<PushSubscription>),
    Passkey(Option<PasskeyCredential>),
    Passkeys(Vec<PasskeyCredential>),
    Taken(Option<Ceremony>),
}

/// A handler's turn: it is done, or it asks for something and goes on later.
#[derive(Debug)]
pub enum Step<S, T> {
    Done(T),
    Ask(Action, S),
}

/// What a handler is while it waits for an answer.
pub trait Flow: Sized {
    type Out;

    /// What holds of a handler that waits.
    spec fn ready(self) -> bool;

    /// Takes the answer, at the time `now`.
    fn resume(self, app: &AppState, event: Event, now: UtcTime) -> (r: Step<Self, Self::Out>)
        requires
            self.ready(),
            now.is_clock(),
        ensures
            r matches Step::Ask(_, after) ==> after.ready(),
    ;
}

} // verus!
