//! The settings of an account.

use vstd::prelude::*;
#[allow(unused_imports)]
use vstd::string::*;

use crate::config::AppState;
use crate::flow::{Action, Event, Flow, Step, UserChange};
use crate::handlers::user::{ConditionReq, GlobalBgReq, LastOpenedReq, OnLoginReq, ThemeReq, VisualizationReq};
use crate::http::{message, Reply, BAD_REQUEST, OK, UNAUTHORIZED};
#[allow(unused_imports)]
use crate::http::says;
use crate::middleware::auth::require_owner;
#[allow(unused_imports)]
use crate::middleware::auth::forbidden;
use crate::models::UserSettings;
#[allow(unused_imports)]
use crate::models::no_settings;
use crate::object_id::{new_id, ObjectId};
#[allow(unused_imports)]
use crate::object_id::{is_fresh, is_object_id, object_id_of};
use crate::time::UtcTime;
use crate::utils::crypto::Claims;
use crate::utils::{db_error, object_id_from_str};
#[allow(unused_imports)]
use crate::utils::db_failed;

verus! {

/// One setting and its new value.
#[derive(Debug)]
pub enum Setting {
    Theme(String),
    NoteTextExpanded(bool),
    ShowPinnedNotesInFolder(bool),
    NoteVisualization(String),
    OnLoginGoToLastOpenedNote(bool),
    GlobalNoteBackgroundColor(String),
}

impl Setting {
    /// The settings with this one changed.
    pub open spec fn applied(self, s: UserSettings) -> UserSettings {
        match self {
            Setting::Theme(v) => UserSettings { theme: Some(v), ..s },
            Setting::NoteTextExpanded(v) => UserSettings { noteTextExpanded: Some(v), ..s },
            Setting::ShowPinnedNotesInFolder(v) => UserSettings {
                showPinnedNotesInFolder: Some(v),
                ..s
            },
            Setting::NoteVisualization(v) => UserSettings { noteVisualization: Some(v), ..s },
            Setting::OnLoginGoToLastOpenedNote(v) => UserSettings {
                onLoginGoToLastOpenedNote: Some(v),
                ..s
            },
            Setting::GlobalNoteBackgroundColor(v) => UserSettings {
                globalNoteBackgroundColor: Some(v),
                ..s
            },
        }
    }

    /// Changes this setting.
    pub fn apply(self, settings: &mut UserSettings)
        ensures
            *final(settings) == self.applied(*old(settings)),
    {
        match self {
            Setting::Theme(v) => {
                settings.theme = Some(v);
            },
            Setting::NoteTextExpanded(v) => {
                settings.noteTextExpanded = Some(v);
            },
            Setting::ShowPinnedNotesInFolder(v) => {
                settings.showPinnedNotesInFolder = Some(v);
            },
            Setting::NoteVisualization(v) => {
                settings.noteVisualization = Some(v);
            },
            Setting::OnLoginGoToLastOpenedNote(v) => {
                settings.onLoginGoToLastOpenedNote = Some(v);
            },
            Setting::GlobalNoteBackgroundColor(v) => {
                settings.globalNoteBackgroundColor = Some(v);
            },
        }
    }
}

/// What the change of a setting waits for.
pub enum ChangeSetting {
    /// The account.
    User { uid: ObjectId, setting: Setting },
    /// The change.
    Update,
}

/// What the change of a setting begins with.
pub open spec fn setting_start(claims: Claims, id: Seq<char>, setting: Setting) -> Step<
    ChangeSetting,
    Reply,
> {
    if claims.sub@ != id {
        Step::Done(forbidden())
    } else if !is_object_id(id) {
        Step::Done(says(BAD_REQUEST, "Invalid id"))
    } else {
        Step::Ask(
            Action::UserById(object_id_of(id)),
            ChangeSetting::User { uid: object_id_of(id), setting },
        )
    }
}

fn change_setting(claims: &Claims, id: &str, setting: Setting) -> (r: Step<ChangeSetting, Reply>)
    ensures
        r == setting_start(*claims, id@, setting),
{
    match require_owner(claims, id) {
        Err(e) => {
            return Step::Done(e);
        },
        Ok(_) => {},
    }
    match object_id_from_str(id) {
        None => Step::Done(message(BAD_REQUEST, "Invalid id")),
        Some(uid) => Step::Ask(Action::UserById(uid), ChangeSetting::User { uid, setting }),
    }
}

pub fn change_theme(claims: &Claims, id: &str, payload: ThemeReq) -> (r: Step<ChangeSetting, Reply>)
    ensures
        r == setting_start(*claims, id@, Setting::Theme(payload.theme)),
{
    change_setting(claims, id, Setting::Theme(payload.theme))
}

pub fn note_text_expanded(claims: &Claims, id: &str, payload: ConditionReq) -> (r: Step<
    ChangeSetting,
    Reply,
>)
    ensures
        r == setting_start(*claims, id@, Setting::NoteTextExpanded(payload.condition)),
{
    change_setting(claims, id, Setting::NoteTextExpanded(payload.condition))
}

pub fn show_pinned_in_folder(claims: &Claims, id: &str, payload: ConditionReq) -> (r: Step<
    ChangeSetting,
    Reply,
>)
    ensures
        r == setting_start(*claims, id@, Setting::ShowPinnedNotesInFolder(payload.condition)),
{
    change_setting(claims, id, Setting::ShowPinnedNotesInFolder(payload.condition))
}

pub fn change_visualization(claims: &Claims, id: &str, payload: VisualizationReq) -> (r: Step<
    ChangeSetting,
    Reply,
>)
    ensures
        r == setting_start(*claims, id@, Setting::NoteVisualization(payload.visualization)),
{
    change_setting(claims, id, Setting::NoteVisualization(payload.visualization))
}

pub fn on_login_go_to_last(claims: &Claims, id: &str, payload: OnLoginReq) -> (r: Step<
    ChangeSetting,
    Reply,
>)
    ensures
        r == setting_start(
            *claims,
            id@,
            Setting::OnLoginGoToLastOpenedNote(payload.onLoginGoToLastOpenedNote),
        ),
{
    change_setting(
        claims,
        id,
        Setting::OnLoginGoToLastOpenedNote(payload.onLoginGoToLastOpenedNote),
    )
}

pub fn change_global_bg(claims: &Claims, id: &str, payload: GlobalBgReq) -> (r: Step<
    ChangeSetting,
    Reply,
>)
    ensures
        r == setting_start(
            *claims,
            id@,
            Setting::GlobalNoteBackgroundColor(payload.globalNoteBackgroundColor),
        ),
{
    change_setting(
        claims,
        id,
        Setting::GlobalNoteBackgroundColor(payload.globalNoteBackgroundColor),
    )
}

impl ChangeSetting {
    /// What follows an answer.
    pub open spec fn next(self, event: Event) -> Step<ChangeSetting, Reply> {
        match self {
            ChangeSetting::User { uid, setting } => match event {
                Event::User(Some(user)) => Step::Ask(
                    Action::UpdateUser(
                        uid,
                        UserChange::Settings(
                            setting.applied(
                                match user.settings {
                                    Some(s) => s,
                                    None => no_settings(),
                                },
                            ),
                        ),
                    ),
                    ChangeSetting::Update,
                ),
                Event::User(None) => Step::Done(says(BAD_REQUEST, "User not found")),
                _ => Step::Done(db_failed(BAD_REQUEST)),
            },
            ChangeSetting::Update => Step::Done(
                if event is Done {
                    says(OK, "Updated!")
                } else {
                    db_failed(BAD_REQUEST)
                },
            ),
        }
    }
}

impl Flow for ChangeSetting {
    type Out = Reply;

    open spec fn ready(self) -> bool {
        true
    }

    fn resume(self, app: &AppState, event: Event, now: UtcTime) -> (r: Step<ChangeSetting, Reply>)
        ensures
            r == self.next(event),
    {
        match self {
            ChangeSetting::User { uid, setting } => match event {
                Event::User(Some(user)) => {
                    let mut settings = match user.settings {
                        Some(s) => s,
                        None => UserSettings::default(),
                    };
                    setting.apply(&mut settings);
                    Step::Ask(
                        Action::UpdateUser(uid, UserChange::Settings(settings)),
                        ChangeSetting::Update,
                    )
                },
                Event::User(None) => Step::Done(message(BAD_REQUEST, "User not found")),
                _ => Step::Done(db_error(BAD_REQUEST)),
            },
            ChangeSetting::Update => match event {
                Event::Done => Step::Done(message(OK, "Updated!")),
                _ => Step::Done(db_error(BAD_REQUEST)),
            },
        }
    }
}

/// A setting changes alone.
pub proof fn law_other_settings_are_kept(setting: Setting, s: UserSettings)
    ensures
        !(setting is Theme) ==> setting.applied(s).theme == s.theme,
        !(setting is NoteTextExpanded) ==> setting.applied(s).noteTextExpanded
            == s.noteTextExpanded,
        !(setting is ShowPinnedNotesInFolder) ==> setting.applied(s).showPinnedNotesInFolder
            == s.showPinnedNotesInFolder,
        !(setting is NoteVisualization) ==> setting.applied(s).noteVisualization
            == s.noteVisualization,
        !(setting is OnLoginGoToLastOpenedNote) ==> setting.applied(s).onLoginGoToLastOpenedNote
            == s.onLoginGoToLastOpenedNote,
        !(setting is GlobalNoteBackgroundColor) ==> setting.applied(s).globalNoteBackgroundColor
            == s.globalNoteBackgroundColor,
        setting.applied(s).language == s.language,
{
}

/// The same change made again changes nothing.
pub proof fn law_setting_twice_is_once(setting: Setting, s: UserSettings)
    ensures
        setting.applied(setting.applied(s)) == setting.applied(s),
{
}

/// Only the owner of an account changes its settings.
pub proof fn law_only_the_owner_changes_settings(claims: Claims, id: Seq<char>, setting: Setting)
    requires
        setting_start(claims, id, setting) is Ask,
    ensures
        claims.sub@ == id,
        setting_start(claims, id, setting)->Ask_0 == Action::UserById(object_id_of(claims.sub@)),
{
}

// ---------- the note that was opened last ----------

/// What the record of the note that was opened last waits for: the change.
pub struct LastOpened;

/// Records the note that was opened last. A text that writes no identifier
/// counts as a note that does not exist.
pub fn last_opened_note(claims: &Claims, id: &str, payload: LastOpenedReq) -> (r: Step<
    LastOpened,
    Reply,
>)
    ensures
        if claims.sub@ != id@ {
            r == Step::<LastOpened, Reply>::Done(forbidden())
        } else if id@.len() == 0 || payload.lastOpenedNote@.len() == 0 {
            r == Step::<LastOpened, Reply>::Done(says(UNAUTHORIZED, "Invalid request!"))
        } else if !is_object_id(id@) {
            r == Step::<LastOpened, Reply>::Done(says(BAD_REQUEST, "Invalid id"))
        } else {
            r matches Step::Ask(
                Action::UpdateUser(uid, UserChange::LastOpenedNote(note)),
                LastOpened,
            ) && uid == object_id_of(id@) && (is_object_id(payload.lastOpenedNote@) ==> note
                == object_id_of(payload.lastOpenedNote@)) && (!is_object_id(
                payload.lastOpenedNote@,
            ) ==> is_fresh(note))
        },
{
    match require_owner(claims, id) {
        Err(e) => {
            return Step::Done(e);
        },
        Ok(_) => {},
    }
    if id.unicode_len() == 0 || payload.lastOpenedNote.as_str().unicode_len() == 0 {
        return Step::Done(message(UNAUTHORIZED, "Invalid request!"));
    }
    let uid = match object_id_from_str(id) {
        Some(uid) => uid,
        None => {
            return Step::Done(message(BAD_REQUEST, "Invalid id"));
        },
    };
    let note = match object_id_from_str(payload.lastOpenedNote.as_str()) {
        Some(note) => note,
        None => new_id(),
    };
    Step::Ask(Action::UpdateUser(uid, UserChange::LastOpenedNote(note)), LastOpened)
}

impl LastOpened {
    /// What follows an answer.
    pub open spec fn next(self, event: Event) -> Step<LastOpened, Reply> {
        Step::Done(
            if event is Done {
                says(OK, "Updated!")
            } else {
                db_failed(BAD_REQUEST)
            },
        )
    }
}

impl Flow for LastOpened {
    type Out = Reply;

    open spec fn ready(self) -> bool {
        true
    }

    fn resume(self, app: &AppState, event: Event, now: UtcTime) -> (r: Step<LastOpened, Reply>)
        ensures
            r == self.next(event),
    {
        match event {
            Event::Done => Step::Done(message(OK, "Updated!")),
            _ => Step::Done(db_error(BAD_REQUEST)),
        }
    }
}

} // verus!
