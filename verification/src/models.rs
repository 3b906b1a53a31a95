//! The stored documents and the pieces that they are made of.

use vstd::prelude::*;

use crate::json::Json;
use crate::object_id::ObjectId;
use crate::time::UtcTime;

pub mod bson_rfc3339_option;
pub mod dates;
pub mod object_id_hex;
pub mod read_back;
pub mod rfc3339_option;
pub mod vec_object_id_hex;

verus! {

/// A stored value of no fixed type.
#[derive(Debug)]
pub enum Bson {
    Null,
    Int32(i32),
    Int64(i64),
    Text(String),
    ObjectId(ObjectId),
    DateTime(UtcTime),
    Document(Json),
    /// Any other value, by its Extended JSON text.
    Other(String),
}

/// An account.
#[derive(Debug)]
pub struct User {
    pub id: Option<ObjectId>,
    pub email: String,
    pub name: String,
    pub password: Option<String>,
    pub verified: Option<bool>,
    pub googleId: Option<String>,
    pub tfa_status: Option<ObjectId>,
    pub googleAccount: Option<bool>,
    pub lastOpenedNote: Option<ObjectId>,
    pub settings: Option<UserSettings>,
}

/// What a user has chosen.
#[derive(Debug)]
pub struct UserSettings {
    pub showPinnedNotesInFolder: Option<bool>,
    pub noteTextExpanded: Option<bool>,
    pub globalNoteBackgroundColor: Option<String>,
    pub onLoginGoToLastOpenedNote: Option<bool>,
    pub noteVisualization: Option<String>,
    pub theme: Option<String>,
    pub language: Option<String>,
}

/// Settings in which nothing has been chosen.
pub open spec fn no_settings() -> UserSettings {
    UserSettings {
        showPinnedNotesInFolder: None,
        noteTextExpanded: None,
        globalNoteBackgroundColor: None,
        onLoginGoToLastOpenedNote: None,
        noteVisualization: None,
        theme: None,
        language: None,
    }
}

impl Default for UserSettings {
    fn default() -> (r: UserSettings)
        ensures
            r == no_settings(),
    {
        UserSettings {
            showPinnedNotesInFolder: None,
            noteTextExpanded: None,
            globalNoteBackgroundColor: None,
            onLoginGoToLastOpenedNote: None,
            noteVisualization: None,
            theme: None,
            language: None,
        }
    }
}

/// A note. Its text is kept apart, in the `NoteState` that `state` names.
#[derive(Debug)]
pub struct Note {
    pub id: Option<ObjectId>,
    pub name: Option<String>,
    pub body: Option<String>,
    pub labels: Option<Vec<ObjectId>>,
    pub image: Option<String>,
    pub state: Option<Bson>,
    pub settings: Option<NoteSettings>,
    pub author: String,
    pub pageLocation: Option<String>,
    pub createdAt: Option<UtcTime>,
    pub updatedAt: Option<UtcTime>,
}

/// What has been chosen for one note.
#[derive(Debug)]
pub struct NoteSettings {
    pub shared: Option<bool>,
    pub permissions: Option<Bson>,
    pub pinned: Option<bool>,
    pub noteBackgroundColor: Option<String>,
}

/// Note settings in which nothing has been chosen.
pub open spec fn no_note_settings() -> NoteSettings {
    NoteSettings { shared: None, permissions: None, pinned: None, noteBackgroundColor: None }
}

impl Default for NoteSettings {
    fn default() -> (r: NoteSettings)
        ensures
            r == no_note_settings(),
    {
        NoteSettings { shared: None, permissions: None, pinned: None, noteBackgroundColor: None }
    }
}

/// The text of a note, as its editor keeps it.
#[derive(Debug)]
pub struct NoteState {
    pub id: Option<ObjectId>,
    pub state: String,
    pub noteId: Option<ObjectId>,
    pub createdAt: Option<UtcTime>,
    pub updatedAt: Option<UtcTime>,
}

/// A label that notes can carry.
#[derive(Debug)]
pub struct Label {
    pub id: Option<ObjectId>,
    pub name: String,
    pub color: String,
    pub fontColor: Option<String>,
    pub label_type: String,
    pub userId: ObjectId,
    pub createdAt: Option<UtcTime>,
    pub updatedAt: Option<UtcTime>,
}

/// A signed-in device.
#[derive(Debug)]
pub struct Session {
    pub id: Option<ObjectId>,
    pub userId: ObjectId,
    pub token: String,
    pub expAt: i64,
    pub ip: String,
    pub browserData: String,
    pub location: String,
    pub countryFlag: String,
    pub deviceData: Bson,
    pub clientData: String,
    pub createdAt: Option<UtcTime>,
}

/// A one-time code that was mailed to a user, hashed.
#[derive(Debug)]
pub struct Otp {
    pub id: Option<ObjectId>,
    pub userId: String,
    pub otp: String,
    pub createdAt: Option<UtcTime>,
    pub expiresAt: Option<UtcTime>,
    pub spam: Option<UtcTime>,
}

/// The second factor of an account.
#[derive(Debug)]
pub struct Tfa {
    pub id: Option<ObjectId>,
    pub qrcode: String,
    pub userId: ObjectId,
    pub secret: String,
    pub options: Option<TfaOptions>,
    pub verified: bool,
}

#[derive(Debug)]
pub struct TfaOptions {
    pub useToResetPass: Option<bool>,
}

/// When an activity is due: the time of day, and for a single occurrence its
/// day.
#[derive(Debug)]
pub struct ActivityTrigger {
    pub time: String,
    pub date: Option<String>,
    pub weekdays: Option<Vec<u8>>,
}

/// A scheduled activity and the history of its completions.
#[derive(Debug)]
pub struct Activity {
    pub id: Option<ObjectId>,
    pub userId: ObjectId,
    pub title: String,
    pub description: Option<String>,
    pub triggerType: String,
    pub trigger: ActivityTrigger,
    pub enabled: bool,
    pub lastPushKey: Option<String>,
    pub noteId: Option<String>,
    pub seenOccurrences: Option<Vec<String>>,
    pub doneDates: Option<Vec<String>>,
    pub lastTriggeredAt: Option<UtcTime>,
    pub createdAt: Option<UtcTime>,
    pub updatedAt: Option<UtcTime>,
}

/// A device that receives push notifications.
#[derive(Debug)]
pub struct PushSubscription {
    pub id: Option<ObjectId>,
    pub userId: ObjectId,
    pub endpoint: String,
    pub p256dh: String,
    pub auth: String,
    pub userAgent: Option<String>,
    pub createdAt: Option<UtcTime>,
    pub updatedAt: Option<UtcTime>,
}

/// A registered passkey. `passkey_json` is the credential itself.
#[derive(Debug)]
pub struct PasskeyCredential {
    pub id: Option<ObjectId>,
    pub userId: ObjectId,
    pub cred_id: String,
    pub passkey_json: String,
    pub label: Option<String>,
    pub createdAt: Option<UtcTime>,
    pub lastUsedAt: Option<UtcTime>,
}

/// One page of a longer list.
#[derive(Debug)]
pub struct PaginateResponse<T> {
    pub docs: Vec<T>,
    pub totalDocs: i64,
    pub limit: i64,
    pub page: i64,
    pub totalPages: i64,
    pub hasNextPage: bool,
    pub hasPrevPage: bool,
    pub nextPage: Option<i64>,
    pub prevPage: Option<i64>,
}

} // verus!
