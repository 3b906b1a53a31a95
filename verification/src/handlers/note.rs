//! Notes.

use vstd::prelude::*;
#[allow(unused_imports)]
use vstd::string::*;

use crate::config::AppState;
use crate::flow::{Action, Event, Flow, NoteChange, StateChange, Step};
use crate::http::{coded, message, reply, Body, Reply, BAD_REQUEST, INTERNAL_SERVER_ERROR, NOT_FOUND, OK, UNAUTHORIZED};
#[allow(unused_imports)]
use crate::http::{plain, says, says_code, Cookies};
use crate::middleware::auth::{require_owner, require_sub};
#[allow(unused_imports)]
use crate::middleware::auth::forbidden;
use crate::models::{Bson, Label, Note, NoteSettings, NoteState};
#[allow(unused_imports)]
use crate::models::no_note_settings;
#[allow(unused_imports)]
use crate::object_id::{hex_form, is_object_id, lemma_same_bytes, object_id_of, ObjectId};
use crate::text::{owned, same};
use crate::time::UtcTime;
use crate::utils::crypto::Claims;
use crate::utils::{db_error, object_id_from_str};
#[allow(unused_imports)]
use crate::utils::db_failed;

pub mod kept;
pub mod listed;
pub mod pages;
pub mod stored;

pub use crate::handlers::note::pages::view;

verus! {

// ---------- requests ----------

/// The settings of a request, as far as they can be read.
#[derive(Debug)]
pub enum SettingsReq {
    Missing,
    NotADocument,
    Unreadable,
    Settings(NoteSettings),
}

/// The page location of a request: a text, or another JSON value by its text.
#[derive(Debug)]
pub enum PageLocation {
    Text(String),
    Other(String),
}

#[derive(Debug)]
pub struct AddReq {
    pub name: Option<String>,
    pub body: Option<String>,
    pub image: Option<String>,
    pub state: String,
    pub author: String,
    pub settings: SettingsReq,
    pub pageLocation: Option<PageLocation>,
}

#[derive(Debug)]
pub struct AddLabelReq {
    pub labels: Vec<String>,
    pub noteId: String,
}

#[derive(Debug)]
pub struct EditReq {
    pub _id: String,
    pub title: Option<String>,
    pub body: Option<String>,
    pub image: Option<String>,
    pub state: Option<String>,
    pub stateId: Option<String>,
}

#[derive(Debug)]
pub struct RenameReq {
    pub name: String,
}

#[derive(Debug)]
pub struct PinReq {
    pub condition: bool,
}

#[derive(Debug)]
pub struct ImageReq {
    pub image: String,
}

#[derive(Debug)]
pub struct BgReq {
    pub noteBackgroundColor: String,
}

// ---------- the owner of a note ----------

/// The note that was looked up, where it is the subject's own.
pub open spec fn owned_note_of(event: Event, sub: Seq<char>) -> Result<Note, Reply> {
    match event {
        Event::Note(Some(note)) => if note.author@ == sub {
            Ok(note)
        } else {
            Err(forbidden())
        },
        Event::Note(None) => Err(says(NOT_FOUND, "Note wasn't found!")),
        _ => Err(db_failed(INTERNAL_SERVER_ERROR)),
    }
}

/// Takes the note that was looked up only where it is the subject's own:
/// identifiers can be guessed.
pub fn owned_note(event: Event, sub: &str) -> (r: Result<Note, Reply>)
    ensures
        r == owned_note_of(event, sub@),
{
    match event {
        Event::Note(Some(note)) => match require_sub(sub, note.author.as_str()) {
            Ok(_) => Ok(note),
            Err(e) => Err(e),
        },
        Event::Note(None) => Err(message(NOT_FOUND, "Note wasn't found!")),
        _ => Err(db_error(INTERNAL_SERVER_ERROR)),
    }
}

/// As `owned_note_of`, where a failed lookup and a missing note are bad
/// requests.
pub open spec fn own_note_of(event: Event, sub: Seq<char>, missing: &'static str) -> Result<
    Note,
    Reply,
> {
    match event {
        Event::Note(Some(note)) => if note.author@ == sub {
            Ok(note)
        } else {
            Err(forbidden())
        },
        Event::Note(None) => Err(says(BAD_REQUEST, missing)),
        _ => Err(db_failed(BAD_REQUEST)),
    }
}

fn own_note(event: Event, sub: &str, missing: &'static str) -> (r: Result<Note, Reply>)
    ensures
        r == own_note_of(event, sub@, missing),
{
    match event {
        Event::Note(Some(note)) => match require_sub(sub, note.author.as_str()) {
            Ok(_) => Ok(note),
            Err(e) => Err(e),
        },
        Event::Note(None) => Err(message(BAD_REQUEST, missing)),
        _ => Err(db_error(BAD_REQUEST)),
    }
}

// ---------- changing a note ----------

/// A change of the settings of a note.
#[derive(Debug)]
pub enum NoteSetting {
    Pinned(bool),
    Background(String),
}

impl NoteSetting {
    /// The settings with this one changed and the others kept.
    pub open spec fn applied(self, settings: NoteSettings) -> NoteSettings {
        match self {
            NoteSetting::Pinned(p) => NoteSettings { pinned: Some(p), ..settings },
            NoteSetting::Background(c) => NoteSettings { noteBackgroundColor: Some(c), ..settings },
        }
    }
}

/// What the change of a note waits for.
pub enum ChangeNote {
    /// The note, which is then to be changed.
    Load { id: ObjectId, sub: String, change: NoteChange, failed: &'static str, done: &'static str },
    /// The note, of whose settings one is then to be changed.
    LoadSettings { id: ObjectId, sub: String, setting: NoteSetting, done: &'static str },
    /// The note, which is then to lose the label.
    LoadLabels { id: ObjectId, sub: String, label: String },
    /// The note, which is then to be changed with its text.
    LoadEdit {
        id: ObjectId,
        sub: String,
        title: Option<String>,
        body: Option<String>,
        image: Option<String>,
        text: Option<(ObjectId, String)>,
    },
    /// The text that is to be changed with the note, to see whose it is.
    CheckText {
        id: ObjectId,
        sub: String,
        title: Option<String>,
        body: Option<String>,
        image: Option<String>,
        text_id: ObjectId,
        new_text: String,
    },
    /// The note of that text, to see whose it is.
    CheckOwner {
        id: ObjectId,
        sub: String,
        title: Option<String>,
        body: Option<String>,
        image: Option<String>,
        text_id: ObjectId,
        new_text: String,
    },
    /// The change of the note, which that of its text follows.
    WriteNote { text: Option<(ObjectId, String)> },
    /// The note, which is then to be deleted.
    LoadDelete { id: ObjectId, sub: String },
    /// The deletion of the note's text.
    DeleteState { id: ObjectId },
    /// The change.
    Write { failed: &'static str, done: &'static str },
}

/// What a client is told when a change cannot be written.
pub const TRY_LATER: &'static str = "Error, please try again later!";

/// What a client is told when the database fails.
pub const DB_ERROR: &'static str = "Database error, please try again later";

/// The identifiers among the labels, each text that is none left out.
pub open spec fn label_ids(labels: Seq<String>) -> Seq<ObjectId>
    decreases labels.len(),
{
    if labels.len() == 0 {
        Seq::empty()
    } else {
        let rest = label_ids(labels.drop_last());
        if is_object_id(labels.last()@) {
            rest.push(object_id_of(labels.last()@))
        } else {
            rest
        }
    }
}

fn read_labels(labels: &Vec<String>) -> (r: Vec<ObjectId>)
    ensures
        r@ == label_ids(labels@),
{
    let mut ids: Vec<ObjectId> = Vec::new();
    let mut i: usize = 0;
    while i < labels.len()
        invariant
            i <= labels@.len(),
            ids@ == label_ids(labels@.take(i as int)),
        decreases labels@.len() - i,
    {
        proof {
            assert(labels@.take(i + 1).drop_last() =~= labels@.take(i as int));
            assert(labels@.take(i + 1).last() == labels@[i as int]);
        }
        match object_id_from_str(labels[i].as_str()) {
            Some(id) => ids.push(id),
            None => {},
        }
        i += 1;
    }
    assert(labels@.take(i as int) =~= labels@);
    ids
}

/// The labels that are not written `label`.
pub open spec fn labels_without(labels: Seq<ObjectId>, label: Seq<char>) -> Seq<ObjectId>
    decreases labels.len(),
{
    if labels.len() == 0 {
        Seq::empty()
    } else {
        let rest = labels_without(labels.drop_last(), label);
        if hex_form(labels.last()@) != label {
            rest.push(labels.last())
        } else {
            rest
        }
    }
}

fn remove_label(labels: &Vec<ObjectId>, label: &str) -> (r: Vec<ObjectId>)
    ensures
        r@ == labels_without(labels@, label@),
{
    let mut kept: Vec<ObjectId> = Vec::new();
    let mut i: usize = 0;
    while i < labels.len()
        invariant
            i <= labels@.len(),
            kept@ == labels_without(labels@.take(i as int), label@),
        decreases labels@.len() - i,
    {
        proof {
            assert(labels@.take(i + 1).drop_last() =~= labels@.take(i as int));
            assert(labels@.take(i + 1).last() == labels@[i as int]);
        }
        let text = labels[i].to_hex();
        if !same(text.as_str(), label) {
            kept.push(labels[i]);
        }
        i += 1;
    }
    assert(labels@.take(i as int) =~= labels@);
    kept
}

/// The text that a note names: an identifier, or a text that writes one.
pub open spec fn state_of(note: Note) -> Option<ObjectId> {
    match note.state {
        Some(Bson::ObjectId(id)) => Some(id),
        Some(Bson::Text(s)) => if is_object_id(s@) {
            Some(object_id_of(s@))
        } else {
            None
        },
        _ => None,
    }
}

fn read_state(note: &Note) -> (r: Option<ObjectId>)
    ensures
        r == state_of(*note),
{
    match &note.state {
        Some(Bson::ObjectId(id)) => Some(*id),
        Some(Bson::Text(s)) => object_id_from_str(s.as_str()),
        _ => None,
    }
}

fn names_text(note: &Note, id: &ObjectId) -> (r: bool)
    ensures
        r == (state_of(*note) == Some(*id)),
{
    match read_state(note) {
        Some(s) => {
            proof {
                if s@ == id@ {
                    lemma_same_bytes(s, *id);
                }
            }
            s.is(id)
        },
        None => false,
    }
}

/// What follows the change of a note: that of its text, where there is one.
pub open spec fn edit_text(text: Option<(ObjectId, String)>) -> Step<ChangeNote, Reply> {
    match text {
        Some((id, state)) => Step::Ask(
            Action::UpdateState(id, StateChange::Text(state)),
            ChangeNote::Write { failed: TRY_LATER, done: "Note updated!" },
        ),
        None => Step::Done(says(OK, "Note updated!")),
    }
}

fn write_text(text: Option<(ObjectId, String)>) -> (r: Step<ChangeNote, Reply>)
    ensures
        r == edit_text(text),
{
    match text {
        Some((id, state)) => Step::Ask(
            Action::UpdateState(id, StateChange::Text(state)),
            ChangeNote::Write { failed: TRY_LATER, done: "Note updated!" },
        ),
        None => Step::Done(message(OK, "Note updated!")),
    }
}

/// An edit of a note that may be made: of its title, body and image, as far as
/// they are given, then of the text.
pub open spec fn edit_step(
    id: ObjectId,
    title: Option<String>,
    body: Option<String>,
    image: Option<String>,
    text: Option<(ObjectId, String)>,
) -> Step<ChangeNote, Reply> {
    if title is None && body is None && image is None {
        edit_text(text)
    } else {
        Step::Ask(
            Action::UpdateNote(id, NoteChange::Contents { name: title, body, image }),
            ChangeNote::WriteNote { text },
        )
    }
}

fn write_edit(
    id: ObjectId,
    title: Option<String>,
    body: Option<String>,
    image: Option<String>,
    text: Option<(ObjectId, String)>,
) -> (r: Step<ChangeNote, Reply>)
    ensures
        r == edit_step(id, title, body, image, text),
{
    if title.is_none() && body.is_none() && image.is_none() {
        write_text(text)
    } else {
        Step::Ask(
            Action::UpdateNote(id, NoteChange::Contents { name: title, body, image }),
            ChangeNote::WriteNote { text },
        )
    }
}

/// Deleting a note comes last.
pub open spec fn delete_row(id: ObjectId) -> Step<ChangeNote, Reply> {
    Step::Ask(
        Action::DeleteNote(id),
        ChangeNote::Write { failed: DB_ERROR, done: "Note deleted!" },
    )
}

impl ChangeNote {
    /// `r` is what follows an answer. Nothing is written to a note that is not
    /// the subject's own, nor to the text of one.
    pub open spec fn next(self, event: Event, r: Step<ChangeNote, Reply>) -> bool {
        match self {
            ChangeNote::Load { id, sub, change, failed, done } => r == match owned_note_of(
                event,
                sub@,
            ) {
                Ok(_) => Step::Ask(
                    Action::UpdateNote(id, change),
                    ChangeNote::Write { failed, done },
                ),
                Err(e) => Step::Done(e),
            },
            ChangeNote::LoadSettings { id, sub, setting, done } => r == match own_note_of(
                event,
                sub@,
                "Note not found",
            ) {
                Ok(note) => Step::Ask(
                    Action::UpdateNote(
                        id,
                        NoteChange::Settings(
                            setting.applied(
                                match note.settings {
                                    Some(s) => s,
                                    None => no_note_settings(),
                                },
                            ),
                        ),
                    ),
                    ChangeNote::Write { failed: DB_ERROR, done },
                ),
                Err(e) => Step::Done(e),
            },
            ChangeNote::LoadLabels { id, sub, label } => match own_note_of(
                event,
                sub@,
                "Note wasn't found!",
            ) {
                Ok(note) => r matches Step::Ask(
                    Action::UpdateNote(target, NoteChange::Labels(labels)),
                    state,
                ) && target == id && labels@ == labels_without(
                    match note.labels {
                        Some(v) => v@,
                        None => Seq::empty(),
                    },
                    label@,
                ) && state == (ChangeNote::Write { failed: DB_ERROR, done: "Label detached!" }),
                Err(e) => r == Step::<ChangeNote, Reply>::Done(e),
            },
            ChangeNote::LoadEdit { id, sub, title, body, image, text } => r == match owned_note_of(
                event,
                sub@,
            ) {
                Ok(note) => match text {
                    Some((t, s)) => if state_of(note) == Some(t) {
                        edit_step(id, title, body, image, text)
                    } else {
                        Step::Ask(
                            Action::StateById(t),
                            ChangeNote::CheckText {
                                id,
                                sub,
                                title,
                                body,
                                image,
                                text_id: t,
                                new_text: s,
                            },
                        )
                    },
                    None => edit_step(id, title, body, image, None),
                },
                Err(e) => Step::Done(e),
            },
            ChangeNote::CheckText { id, sub, title, body, image, text_id, new_text } => r
                == match event {
                Event::State(Some(found)) => match found.noteId {
                    Some(n) => if n == id {
                        edit_step(id, title, body, image, Some((text_id, new_text)))
                    } else {
                        Step::Ask(
                            Action::NoteById(n),
                            ChangeNote::CheckOwner { id, sub, title, body, image, text_id, new_text },
                        )
                    },
                    None => Step::Done(says(NOT_FOUND, "Note wasn't found!")),
                },
                Event::State(None) => edit_step(id, title, body, image, None),
                _ => Step::Done(db_failed(INTERNAL_SERVER_ERROR)),
            },
            ChangeNote::CheckOwner { id, sub, title, body, image, text_id, new_text } => r
                == match owned_note_of(event, sub@) {
                Ok(_) => edit_step(id, title, body, image, Some((text_id, new_text))),
                Err(e) => Step::Done(e),
            },
            ChangeNote::WriteNote { text } => r == if event is Done {
                edit_text(text)
            } else {
                Step::Done(says(BAD_REQUEST, TRY_LATER))
            },
            ChangeNote::LoadDelete { id, sub } => r == match event {
                Event::Note(None) => Step::Done(says(OK, "Note deleted!")),
                Event::Note(Some(note)) => if note.author@ != sub@ {
                    Step::Done(forbidden())
                } else {
                    match note.state {
                        Some(Bson::ObjectId(state)) => Step::Ask(
                            Action::DeleteState(state),
                            ChangeNote::DeleteState { id },
                        ),
                        _ => delete_row(id),
                    }
                },
                _ => Step::Done(db_failed(BAD_REQUEST)),
            },
            ChangeNote::DeleteState { id } => r == if event is Done {
                delete_row(id)
            } else {
                Step::Done(db_failed(BAD_REQUEST))
            },
            ChangeNote::Write { failed, done } => r == Step::<ChangeNote, Reply>::Done(
                if event is Done {
                    says(OK, done)
                } else {
                    says(BAD_REQUEST, failed)
                },
            ),
        }
    }
}

impl Flow for ChangeNote {
    type Out = Reply;

    open spec fn ready(self) -> bool {
        true
    }

    fn resume(self, app: &AppState, event: Event, now: UtcTime) -> (r: Step<ChangeNote, Reply>)
        ensures
            self.next(event, r),
    {
        match self {
            ChangeNote::Load { id, sub, change, failed, done } => match owned_note(
                event,
                sub.as_str(),
            ) {
                Ok(_) => Step::Ask(
                    Action::UpdateNote(id, change),
                    ChangeNote::Write { failed, done },
                ),
                Err(e) => Step::Done(e),
            },
            ChangeNote::LoadSettings { id, sub, setting, done } => match own_note(
                event,
                sub.as_str(),
                "Note not found",
            ) {
                Ok(note) => {
                    let mut settings = match note.settings {
                        Some(s) => s,
                        None => NoteSettings::default(),
                    };
                    match setting {
                        NoteSetting::Pinned(p) => {
                            settings.pinned = Some(p);
                        },
                        NoteSetting::Background(c) => {
                            settings.noteBackgroundColor = Some(c);
                        },
                    }
                    Step::Ask(
                        Action::UpdateNote(id, NoteChange::Settings(settings)),
                        ChangeNote::Write { failed: DB_ERROR, done },
                    )
                },
                Err(e) => Step::Done(e),
            },
            ChangeNote::LoadLabels { id, sub, label } => match own_note(
                event,
                sub.as_str(),
                "Note wasn't found!",
            ) {
                Ok(note) => {
                    let labels = match note.labels {
                        Some(v) => v,
                        None => Vec::new(),
                    };
                    let kept = remove_label(&labels, label.as_str());
                    Step::Ask(
                        Action::UpdateNote(id, NoteChange::Labels(kept)),
                        ChangeNote::Write { failed: DB_ERROR, done: "Label detached!" },
                    )
                },
                Err(e) => Step::Done(e),
            },
            ChangeNote::LoadEdit { id, sub, title, body, image, text } => match owned_note(
                event,
                sub.as_str(),
            ) {
                Ok(note) => match text {
                    Some((t, s)) => {
                        if names_text(&note, &t) {
                            write_edit(id, title, body, image, Some((t, s)))
                        } else {
                            Step::Ask(
                                Action::StateById(t),
                                ChangeNote::CheckText {
                                    id,
                                    sub,
                                    title,
                                    body,
                                    image,
                                    text_id: t,
                                    new_text: s,
                                },
                            )
                        }
                    },
                    None => write_edit(id, title, body, image, None),
                },
                Err(e) => Step::Done(e),
            },
            ChangeNote::CheckText { id, sub, title, body, image, text_id, new_text } => match event {
                Event::State(Some(found)) => match found.noteId {
                    Some(n) => {
                        proof {
                            if n@ == id@ {
                                lemma_same_bytes(n, id);
                            }
                        }
                        if n.is(&id) {
                            write_edit(id, title, body, image, Some((text_id, new_text)))
                        } else {
                            Step::Ask(
                                Action::NoteById(n),
                                ChangeNote::CheckOwner {
                                    id,
                                    sub,
                                    title,
                                    body,
                                    image,
                                    text_id,
                                    new_text,
                                },
                            )
                        }
                    },
                    None => Step::Done(message(NOT_FOUND, "Note wasn't found!")),
                },
                Event::State(None) => write_edit(id, title, body, image, None),
                _ => Step::Done(db_error(INTERNAL_SERVER_ERROR)),
            },
            ChangeNote::CheckOwner { id, sub, title, body, image, text_id, new_text } => {
                match owned_note(event, sub.as_str()) {
                    Ok(_) => write_edit(id, title, body, image, Some((text_id, new_text))),
                    Err(e) => Step::Done(e),
                }
            },
            ChangeNote::WriteNote { text } => match event {
                Event::Done => write_text(text),
                _ => Step::Done(message(BAD_REQUEST, TRY_LATER)),
            },
            ChangeNote::LoadDelete { id, sub } => match event {
                Event::Note(None) => Step::Done(message(OK, "Note deleted!")),
                Event::Note(Some(note)) => match require_sub(sub.as_str(), note.author.as_str()) {
                    Err(e) => Step::Done(e),
                    Ok(_) => match note.state {
                        Some(Bson::ObjectId(state)) => Step::Ask(
                            Action::DeleteState(state),
                            ChangeNote::DeleteState { id },
                        ),
                        _ => Step::Ask(
                            Action::DeleteNote(id),
                            ChangeNote::Write { failed: DB_ERROR, done: "Note deleted!" },
                        ),
                    },
                },
                _ => Step::Done(db_error(BAD_REQUEST)),
            },
            ChangeNote::DeleteState { id } => match event {
                Event::Done => Step::Ask(
                    Action::DeleteNote(id),
                    ChangeNote::Write { failed: DB_ERROR, done: "Note deleted!" },
                ),
                _ => Step::Done(db_error(BAD_REQUEST)),
            },
            ChangeNote::Write { failed, done } => match event {
                Event::Done => Step::Done(message(OK, done)),
                _ => Step::Done(message(BAD_REQUEST, failed)),
            },
        }
    }
}

/// What a change of a note begins with: the lookup of the note that the text
/// names, or a bad request.
pub open spec fn starts_with_note(
    r: Step<ChangeNote, Reply>,
    id: Seq<char>,
    bad: &'static str,
    state: ChangeNote,
) -> bool {
    r == if is_object_id(id) {
        Step::Ask(Action::NoteById(object_id_of(id)), state)
    } else {
        Step::Done(says(BAD_REQUEST, bad))
    }
}

/// Replaces the labels of a note.
pub fn add_label(claims: &Claims, payload: AddLabelReq) -> (r: Step<ChangeNote, Reply>)
    ensures
        exists|labels: Vec<ObjectId>|
            labels@ == label_ids(payload.labels@) && #[trigger] starts_with_note(
                r,
                payload.noteId@,
                TRY_LATER,
                ChangeNote::Load {
                    id: object_id_of(payload.noteId@),
                    sub: claims.sub,
                    change: NoteChange::Labels(labels),
                    failed: TRY_LATER,
                    done: "Label attached!",
                },
            ),
{
    let labels = read_labels(&payload.labels);
    let ghost written = labels;
    let r = match object_id_from_str(payload.noteId.as_str()) {
        None => Step::Done(message(BAD_REQUEST, TRY_LATER)),
        Some(id) => Step::Ask(
            Action::NoteById(id),
            ChangeNote::Load {
                id,
                sub: claims.sub.clone(),
                change: NoteChange::Labels(labels),
                failed: TRY_LATER,
                done: "Label attached!",
            },
        ),
    };
    assert(starts_with_note(
        r,
        payload.noteId@,
        TRY_LATER,
        ChangeNote::Load {
            id: object_id_of(payload.noteId@),
            sub: claims.sub,
            change: NoteChange::Labels(written),
            failed: TRY_LATER,
            done: "Label attached!",
        },
    ));
    r
}

/// The text that an edit replaces, where it names it and gives a new one.
pub open spec fn edited_text(id: Option<String>, state: Option<String>) -> Option<
    (ObjectId, String),
> {
    match (id, state) {
        (Some(i), Some(s)) => if is_object_id(i@) {
            Some((object_id_of(i@), s))
        } else {
            None
        },
        _ => None,
    }
}

/// Changes the title, the body, the image and the text of a note, as far as
/// they are given. A text of another note is written where that note is the
/// caller's own too; where it is not, nothing is.
pub fn edit(claims: &Claims, payload: EditReq) -> (r: Step<ChangeNote, Reply>)
    ensures
        starts_with_note(
            r,
            payload._id@,
            TRY_LATER,
            ChangeNote::LoadEdit {
                id: object_id_of(payload._id@),
                sub: claims.sub,
                title: payload.title,
                body: payload.body,
                image: payload.image,
                text: edited_text(payload.stateId, payload.state),
            },
        ),
{
    match object_id_from_str(payload._id.as_str()) {
        None => Step::Done(message(BAD_REQUEST, TRY_LATER)),
        Some(id) => {
            let text = match (payload.stateId, payload.state) {
                (Some(i), Some(s)) => match object_id_from_str(i.as_str()) {
                    Some(state_id) => Some((state_id, s)),
                    None => None,
                },
                _ => None,
            };
            Step::Ask(
                Action::NoteById(id),
                ChangeNote::LoadEdit {
                    id,
                    sub: claims.sub.clone(),
                    title: payload.title,
                    body: payload.body,
                    image: payload.image,
                    text,
                },
            )
        },
    }
}

/// Deletes a note and its text.
pub fn delete(claims: &Claims, id: &str) -> (r: Step<ChangeNote, Reply>)
    ensures
        starts_with_note(
            r,
            id@,
            TRY_LATER,
            ChangeNote::LoadDelete { id: object_id_of(id@), sub: claims.sub },
        ),
{
    match object_id_from_str(id) {
        None => Step::Done(message(BAD_REQUEST, TRY_LATER)),
        Some(id) => Step::Ask(
            Action::NoteById(id),
            ChangeNote::LoadDelete { id, sub: claims.sub.clone() },
        ),
    }
}

/// Takes one label off a note.
pub fn delete_label(claims: &Claims, id: String, noteId: &str) -> (r: Step<ChangeNote, Reply>)
    ensures
        starts_with_note(
            r,
            noteId@,
            TRY_LATER,
            ChangeNote::LoadLabels { id: object_id_of(noteId@), sub: claims.sub, label: id },
        ),
{
    match object_id_from_str(noteId) {
        None => Step::Done(message(BAD_REQUEST, TRY_LATER)),
        Some(note) => Step::Ask(
            Action::NoteById(note),
            ChangeNote::LoadLabels { id: note, sub: claims.sub.clone(), label: id },
        ),
    }
}

/// Takes all labels off a note.
pub fn delete_all_labels(claims: &Claims, noteId: &str) -> (r: Step<ChangeNote, Reply>)
    ensures
        exists|labels: Vec<ObjectId>|
            labels@.len() == 0 && #[trigger] starts_with_note(
                r,
                noteId@,
                TRY_LATER,
                ChangeNote::Load {
                    id: object_id_of(noteId@),
                    sub: claims.sub,
                    change: NoteChange::Labels(labels),
                    failed: DB_ERROR,
                    done: "Labels detached!",
                },
            ),
{
    let labels: Vec<ObjectId> = Vec::new();
    let ghost none = labels;
    let r = match object_id_from_str(noteId) {
        None => Step::Done(message(BAD_REQUEST, TRY_LATER)),
        Some(id) => Step::Ask(
            Action::NoteById(id),
            ChangeNote::Load {
                id,
                sub: claims.sub.clone(),
                change: NoteChange::Labels(labels),
                failed: DB_ERROR,
                done: "Labels detached!",
            },
        ),
    };
    assert(starts_with_note(
        r,
        noteId@,
        TRY_LATER,
        ChangeNote::Load {
            id: object_id_of(noteId@),
            sub: claims.sub,
            change: NoteChange::Labels(none),
            failed: DB_ERROR,
            done: "Labels detached!",
        },
    ));
    r
}

/// Pins a note, or unpins it.
pub fn pin_note(claims: &Claims, noteId: &str, payload: PinReq) -> (r: Step<ChangeNote, Reply>)
    ensures
        starts_with_note(
            r,
            noteId@,
            TRY_LATER,
            ChangeNote::LoadSettings {
                id: object_id_of(noteId@),
                sub: claims.sub,
                setting: NoteSetting::Pinned(payload.condition),
                done: if payload.condition {
                    "Note pinned!"
                } else {
                    "Note unpinned!"
                },
            },
        ),
{
    match object_id_from_str(noteId) {
        None => Step::Done(message(BAD_REQUEST, TRY_LATER)),
        Some(id) => Step::Ask(
            Action::NoteById(id),
            ChangeNote::LoadSettings {
                id,
                sub: claims.sub.clone(),
                setting: NoteSetting::Pinned(payload.condition),
                done: if payload.condition {
                    "Note pinned!"
                } else {
                    "Note unpinned!"
                },
            },
        ),
    }
}

/// Renames a note.
pub fn rename(claims: &Claims, id: &str, payload: RenameReq) -> (r: Step<ChangeNote, Reply>)
    ensures
        starts_with_note(
            r,
            id@,
            TRY_LATER,
            ChangeNote::Load {
                id: object_id_of(id@),
                sub: claims.sub,
                change: NoteChange::Name(payload.name),
                failed: DB_ERROR,
                done: "Updated!",
            },
        ),
{
    match object_id_from_str(id) {
        None => Step::Done(message(BAD_REQUEST, TRY_LATER)),
        Some(id) => Step::Ask(
            Action::NoteById(id),
            ChangeNote::Load {
                id,
                sub: claims.sub.clone(),
                change: NoteChange::Name(payload.name),
                failed: DB_ERROR,
                done: "Updated!",
            },
        ),
    }
}

/// Changes the background of a note.
pub fn change_bg(claims: &Claims, noteId: &str, payload: BgReq) -> (r: Step<ChangeNote, Reply>)
    ensures
        starts_with_note(
            r,
            noteId@,
            "Invalid id",
            ChangeNote::LoadSettings {
                id: object_id_of(noteId@),
                sub: claims.sub,
                setting: NoteSetting::Background(payload.noteBackgroundColor),
                done: "Updated!",
            },
        ),
{
    match object_id_from_str(noteId) {
        None => Step::Done(message(BAD_REQUEST, "Invalid id")),
        Some(id) => Step::Ask(
            Action::NoteById(id),
            ChangeNote::LoadSettings {
                id,
                sub: claims.sub.clone(),
                setting: NoteSetting::Background(payload.noteBackgroundColor),
                done: "Updated!",
            },
        ),
    }
}

/// Changes the image of a note.
pub fn change_image(claims: &Claims, noteId: &str, payload: ImageReq) -> (r: Step<
    ChangeNote,
    Reply,
>)
    ensures
        starts_with_note(
            r,
            noteId@,
            "Invalid id",
            ChangeNote::Load {
                id: object_id_of(noteId@),
                sub: claims.sub,
                change: NoteChange::Image(payload.image),
                failed: DB_ERROR,
                done: "Updated!",
            },
        ),
{
    match object_id_from_str(noteId) {
        None => Step::Done(message(BAD_REQUEST, "Invalid id")),
        Some(id) => Step::Ask(
            Action::NoteById(id),
            ChangeNote::Load {
                id,
                sub: claims.sub.clone(),
                change: NoteChange::Image(payload.image),
                failed: DB_ERROR,
                done: "Updated!",
            },
        ),
    }
}

/// Whether an action writes to a note or deletes it or its text.
pub open spec fn touches_notes(action: Action) -> bool {
    action is UpdateNote || action is DeleteNote || action is UpdateState || action is DeleteState
}

/// A note is changed only after it was found to be the subject's own. A text is
/// written or deleted only where such a note names it, where it names the note
/// that was found, or where the note that it names was found to be the
/// subject's own as well.
pub proof fn law_only_the_author_changes_a_note(
    flow: ChangeNote,
    event: Event,
    action: Action,
    state: ChangeNote,
    sub: String,
    id: ObjectId,
)
    requires
        flow.next(event, Step::Ask(action, state)),
        touches_notes(action),
        match flow {
            ChangeNote::Load { sub: s, id: i, .. } => s == sub && i == id,
            ChangeNote::LoadSettings { sub: s, id: i, .. } => s == sub && i == id,
            ChangeNote::LoadLabels { sub: s, id: i, .. } => s == sub && i == id,
            ChangeNote::LoadEdit { sub: s, id: i, .. } => s == sub && i == id,
            ChangeNote::CheckText { sub: s, id: i, .. } => s == sub && i == id,
            ChangeNote::CheckOwner { sub: s, id: i, .. } => s == sub && i == id,
            ChangeNote::LoadDelete { sub: s, id: i, .. } => s == sub && i == id,
            _ => false,
        },
    ensures
        match flow {
            ChangeNote::CheckText { text_id, .. } => written_text(action, state) is Some
                ==> written_text(action, state) == Some(text_id) && (event matches Event::State(
                Some(found),
            ) && found.noteId == Some(id)),
            ChangeNote::CheckOwner { text_id, .. } => (event matches Event::Note(Some(note))
                && note.author@ == sub@) && (written_text(action, state) is Some ==> written_text(
                action,
                state,
            ) == Some(text_id)),
            _ => event matches Event::Note(Some(note)) && note.author@ == sub@ && (written_text(
                action,
                state,
            ) is Some ==> written_text(action, state) == state_of(note)),
        },
        action matches Action::UpdateNote(i, _) ==> i == id,
        action matches Action::DeleteNote(i) ==> i == id,
        state matches ChangeNote::DeleteState { id: i } ==> i == id,
{
}

/// The text that an action writes or deletes, or that its answer leads to.
pub open spec fn written_text(action: Action, state: ChangeNote) -> Option<ObjectId> {
    match action {
        Action::UpdateState(t, _) => Some(t),
        Action::DeleteState(t) => Some(t),
        _ => match state {
            ChangeNote::WriteNote { text: Some((t, _)) } => Some(t),
            _ => None,
        },
    }
}

/// A text is looked up only after its edit's note was found to be the subject's
/// own, and then the note that the text names; both for the same edit.
pub proof fn law_texts_are_checked_for_an_own_note(
    flow: ChangeNote,
    event: Event,
    action: Action,
    state: ChangeNote,
    edit: (ObjectId, String, ObjectId, String),
)
    requires
        flow.next(event, Step::Ask(action, state)),
        match state {
            ChangeNote::CheckText { id, sub, text_id, new_text, .. } => edit == (
                id,
                sub,
                text_id,
                new_text,
            ),
            ChangeNote::CheckOwner { id, sub, text_id, new_text, .. } => edit == (
                id,
                sub,
                text_id,
                new_text,
            ),
            _ => false,
        },
    ensures
        match flow {
            ChangeNote::LoadEdit { id, sub, text, .. } => {
                &&& event matches Event::Note(Some(note)) && note.author@ == sub@
                &&& action == Action::StateById(edit.2)
                &&& id == edit.0 && sub == edit.1 && text == Some((edit.2, edit.3))
            },
            ChangeNote::CheckText { id, sub, text_id, new_text, .. } => {
                &&& event matches Event::State(Some(found)) && (found.noteId matches Some(n)
                    && action == Action::NoteById(n))
                &&& edit == (id, sub, text_id, new_text)
            },
            _ => false,
        },
{
}

/// What follows a change is written where the change before it was allowed.
pub proof fn law_later_changes_stay_with_the_note(
    flow: ChangeNote,
    event: Event,
    action: Action,
    state: ChangeNote,
)
    requires
        flow.next(event, Step::Ask(action, state)),
        flow is WriteNote || flow is DeleteState || flow is Write,
    ensures
        match flow {
            ChangeNote::WriteNote { text } => text matches Some((t, s)) && action
                == Action::UpdateState(t, StateChange::Text(s)),
            ChangeNote::DeleteState { id } => action == Action::DeleteNote(id),
            _ => false,
        },
{
}

/// Pinning a note keeps its other settings, and pinning and unpinning leaves
/// only the pin changed.
pub proof fn law_settings_are_kept(settings: NoteSettings, pinned: bool, color: String)
    ensures
        NoteSetting::Background(color).applied(NoteSetting::Pinned(pinned).applied(settings))
            == NoteSetting::Pinned(pinned).applied(
            NoteSetting::Background(color).applied(settings),
        ),
        NoteSetting::Pinned(pinned).applied(settings).shared == settings.shared,
        NoteSetting::Pinned(pinned).applied(settings).permissions == settings.permissions,
        NoteSetting::Pinned(pinned).applied(settings).noteBackgroundColor
            == settings.noteBackgroundColor,
        NoteSetting::Background(color).applied(settings).pinned == settings.pinned,
{
}

/// Taking a label off a note twice is taking it off once.
pub proof fn law_label_is_gone(labels: Seq<ObjectId>, label: Seq<char>)
    ensures
        labels_without(labels_without(labels, label), label) == labels_without(labels, label),
        forall|i: int|
            0 <= i < labels_without(labels, label).len() ==> hex_form(
                (#[trigger] labels_without(labels, label)[i])@,
            ) != label,
    decreases labels.len(),
{
    if labels.len() > 0 {
        let last = labels.last();
        let rest = labels_without(labels.drop_last(), label);
        law_label_is_gone(labels.drop_last(), label);
        if hex_form(last@) != label {
            assert(rest.push(last).drop_last() =~= rest);
            assert forall|i: int| 0 <= i < labels_without(labels, label).len() implies hex_form(
                (#[trigger] labels_without(labels, label)[i])@,
            ) != label by {
                if i < rest.len() {
                    assert(rest.push(last)[i] == rest[i]);
                }
            }
        }
    }
}

// ---------- a new note ----------

/// What a new note waits for.
pub enum AddNote {
    /// Its text.
    State { payload: AddReq },
    /// The note.
    Note { state: ObjectId, page_location: String },
    /// The text that is to name the note.
    Link { note: ObjectId, page_location: String },
}

/// What a client is told when a note cannot be created.
pub const NOT_CREATED: &'static str = "Error creating a new note, please try again or later";

/// The settings of a new note: those that were sent, else not shared and not
/// pinned.
pub open spec fn new_settings(settings: SettingsReq) -> NoteSettings {
    match settings {
        SettingsReq::Settings(s) => s,
        SettingsReq::Unreadable => no_note_settings(),
        SettingsReq::Missing | SettingsReq::NotADocument => NoteSettings {
            shared: Some(false),
            pinned: Some(false),
            ..no_note_settings()
        },
    }
}

/// The text of a page location.
pub open spec fn location_text(location: Option<PageLocation>) -> Option<String> {
    match location {
        Some(PageLocation::Text(s)) => Some(s),
        Some(PageLocation::Other(s)) => Some(s),
        None => None,
    }
}

/// The page location of a reply: a text that was sent, else `0`.
pub open spec fn replied_location(location: Option<PageLocation>) -> Seq<char> {
    match location {
        Some(PageLocation::Text(s)) => s@,
        _ => "0"@,
    }
}

/// `note` is the new note of a request.
pub open spec fn is_new_note(note: Note, payload: AddReq, state: ObjectId, now: UtcTime) -> bool {
    &&& note.id is None
    &&& note.name == payload.name
    &&& note.body == payload.body
    &&& note.image == payload.image
    &&& note.labels is Some
    &&& note.labels->0@.len() == 0
    &&& note.state == Some(Bson::ObjectId(state))
    &&& note.settings == Some(new_settings(payload.settings))
    &&& note.author == payload.author
    &&& note.pageLocation == location_text(payload.pageLocation)
    &&& note.createdAt == Some(now)
    &&& note.updatedAt is None
}

/// Creates a note: first its text, then the note, then the link back.
pub fn add(claims: &Claims, payload: AddReq, now: UtcTime) -> (r: Step<AddNote, Reply>)
    ensures
        r == if claims.sub@ == payload.author@ {
            Step::Ask(
                Action::InsertState(
                    NoteState {
                        id: None,
                        state: payload.state,
                        noteId: None,
                        createdAt: Some(now),
                        updatedAt: None,
                    },
                ),
                AddNote::State { payload },
            )
        } else {
            Step::Done(forbidden())
        },
{
    match require_owner(claims, payload.author.as_str()) {
        Err(e) => Step::Done(e),
        Ok(_) => Step::Ask(
            Action::InsertState(
                NoteState {
                    id: None,
                    state: payload.state.clone(),
                    noteId: None,
                    createdAt: Some(now),
                    updatedAt: None,
                },
            ),
            AddNote::State { payload },
        ),
    }
}

impl AddNote {
    /// `r` is what follows an answer.
    pub open spec fn next(self, event: Event, now: UtcTime, r: Step<AddNote, Reply>) -> bool {
        match self {
            AddNote::State { payload } => match event {
                Event::Inserted(state) => r matches Step::Ask(
                    Action::InsertNote(note),
                    AddNote::Note { state: s, page_location },
                ) && is_new_note(note, payload, state, now) && s == state && page_location@
                    == replied_location(payload.pageLocation),
                _ => r == Step::<AddNote, Reply>::Done(says(BAD_REQUEST, NOT_CREATED)),
            },
            AddNote::Note { state, page_location } => r == match event {
                Event::Inserted(note) => Step::Ask(
                    Action::UpdateState(state, StateChange::NoteId(note)),
                    AddNote::Link { note, page_location },
                ),
                _ => Step::Done(says(BAD_REQUEST, NOT_CREATED)),
            },
            AddNote::Link { note, page_location } => r == Step::<AddNote, Reply>::Done(
                if event is Done {
                    plain(OK, Body::NoteAdded { id: note, page_location })
                } else {
                    db_failed(BAD_REQUEST)
                },
            ),
        }
    }
}

impl Flow for AddNote {
    type Out = Reply;

    open spec fn ready(self) -> bool {
        true
    }

    fn resume(self, app: &AppState, event: Event, now: UtcTime) -> (r: Step<AddNote, Reply>)
        ensures
            self.next(event, now, r),
    {
        match self {
            AddNote::State { payload } => match event {
                Event::Inserted(state) => {
                    let settings = match payload.settings {
                        SettingsReq::Settings(s) => s,
                        SettingsReq::Unreadable => NoteSettings::default(),
                        SettingsReq::Missing | SettingsReq::NotADocument => {
                            let mut s = NoteSettings::default();
                            s.shared = Some(false);
                            s.pinned = Some(false);
                            s
                        },
                    };
                    let (location, page_location) = match payload.pageLocation {
                        Some(PageLocation::Text(s)) => (Some(s.clone()), s),
                        Some(PageLocation::Other(s)) => (Some(s), owned("0")),
                        None => (None, owned("0")),
                    };
                    let note = Note {
                        id: None,
                        name: payload.name,
                        body: payload.body,
                        labels: Some(Vec::new()),
                        image: payload.image,
                        state: Some(Bson::ObjectId(state)),
                        settings: Some(settings),
                        author: payload.author,
                        pageLocation: location,
                        createdAt: Some(now),
                        updatedAt: None,
                    };
                    Step::Ask(Action::InsertNote(note), AddNote::Note { state, page_location })
                },
                _ => Step::Done(message(BAD_REQUEST, NOT_CREATED)),
            },
            AddNote::Note { state, page_location } => match event {
                Event::Inserted(note) => Step::Ask(
                    Action::UpdateState(state, StateChange::NoteId(note)),
                    AddNote::Link { note, page_location },
                ),
                _ => Step::Done(message(BAD_REQUEST, NOT_CREATED)),
            },
            AddNote::Link { note, page_location } => match event {
                Event::Done => Step::Done(reply(OK, Body::NoteAdded { id: note, page_location })),
                _ => Step::Done(db_error(BAD_REQUEST)),
            },
        }
    }
}

// ---------- one note ----------

/// What the reading of a note waits for.
pub enum GetNote {
    /// The note.
    Load { sub: String, author: String },
    /// Its text.
    State { note: Note },
    /// The label `next` of the note; those before it were looked up.
    Labels { note: Note, state: NoteState, next: usize, labels: Vec<Label> },
}

/// The identifiers of the labels of a note.
pub open spec fn labels_of(note: Note) -> Seq<ObjectId> {
    match note.labels {
        Some(v) => v@,
        None => Seq::empty(),
    }
}

/// A note on its own.
pub open spec fn bare_note(note: Note) -> Reply {
    plain(OK, Body::NoteFound { note, state: None, labels: None })
}

/// Reads a note with its text and its labels.
pub fn get_note(claims: &Claims, id: &str, author: Option<String>) -> (r: Step<GetNote, Reply>)
    ensures
        match author {
            Some(a) => r == if claims.sub@ != a@ {
                Step::Done(forbidden())
            } else if !is_object_id(id@) {
                Step::Done(says(BAD_REQUEST, "Error fetching note contents"))
            } else {
                Step::Ask(
                    Action::NoteById(object_id_of(id@)),
                    GetNote::Load { sub: claims.sub, author: a },
                )
            },
            None => if claims.sub@.len() > 0 {
                r == Step::<GetNote, Reply>::Done(forbidden())
            } else if !is_object_id(id@) {
                r == Step::<GetNote, Reply>::Done(says(BAD_REQUEST, "Error fetching note contents"))
            } else {
                r matches Step::Ask(Action::NoteById(n), GetNote::Load { sub, author: a }) && n
                    == object_id_of(id@) && sub == claims.sub && a@.len() == 0
            },
        },
{
    let author = match author {
        Some(a) => a,
        None => String::new(),
    };
    assert(claims.sub@.len() == 0 && author@.len() == 0 ==> claims.sub@ =~= author@);
    match require_owner(claims, author.as_str()) {
        Err(e) => {
            return Step::Done(e);
        },
        Ok(_) => {},
    }
    match object_id_from_str(id) {
        None => Step::Done(message(BAD_REQUEST, "Error fetching note contents")),
        Some(oid) => Step::Ask(
            Action::NoteById(oid),
            GetNote::Load { sub: claims.sub.clone(), author },
        ),
    }
}

/// What follows once `labels` are those before `next`: the lookup of the next
/// label, or the reply.
pub open spec fn labels_step(
    note: Note,
    state: NoteState,
    next: int,
    labels: Seq<Label>,
    r: Step<GetNote, Reply>,
) -> bool {
    if next < labels_of(note).len() {
        r matches Step::Ask(
            Action::LabelById(id),
            GetNote::Labels { note: n, state: s, next: k, labels: l },
        ) && id == labels_of(note)[next] && n == note && s == state && k == next && l@ == labels
    } else {
        r matches Step::Done(
            Reply {
                status,
                cookies: Cookies::Nothing,
                body: Body::NoteFound { note: n, state: s, labels: Some(l) },
            },
        ) && status == OK && n == note && s == Some(state) && l@ == labels
    }
}

fn next_label(note: Note, state: NoteState, next: usize, labels: Vec<Label>) -> (r: Step<
    GetNote,
    Reply,
>)
    ensures
        labels_step(note, state, next as int, labels@, r),
{
    let wanted = match &note.labels {
        Some(ids) => if next < ids.len() {
            Some(ids[next])
        } else {
            None
        },
        None => None,
    };
    match wanted {
        Some(id) => Step::Ask(
            Action::LabelById(id),
            GetNote::Labels { note, state, next, labels },
        ),
        None => Step::Done(
            reply(OK, Body::NoteFound { note, state: Some(state), labels: Some(labels) }),
        ),
    }
}

impl GetNote {
    /// `r` is what follows an answer. A label that cannot be found is left
    /// out.
    pub open spec fn next(self, event: Event, r: Step<GetNote, Reply>) -> bool {
        match self {
            GetNote::Load { sub, author } => r == match own_note_of(
                event,
                sub@,
                "Error fetching note contents",
            ) {
                Err(e) => Step::Done(e),
                Ok(note) => if note.author@ != author@ {
                    Step::Done(
                        says_code(
                            UNAUTHORIZED,
                            "You don't have permission to access this note!",
                            1,
                        ),
                    )
                } else {
                    match state_of(note) {
                        Some(id) => Step::Ask(Action::StateById(id), GetNote::State { note }),
                        None => Step::Done(bare_note(note)),
                    }
                },
            },
            GetNote::State { note } => match event {
                Event::State(Some(state)) => if note.labels is Some {
                    labels_step(note, state, 0, Seq::empty(), r)
                } else {
                    r == Step::<GetNote, Reply>::Done(
                        plain(OK, Body::NoteFound { note, state: Some(state), labels: None }),
                    )
                },
                Event::State(None) => r == Step::<GetNote, Reply>::Done(bare_note(note)),
                _ => r == Step::<GetNote, Reply>::Done(db_failed(BAD_REQUEST)),
            },
            GetNote::Labels { note, state, next, labels } => labels_step(
                note,
                state,
                next + 1,
                match event {
                    Event::Label(Some(label)) => labels@.push(label),
                    _ => labels@,
                },
                r,
            ),
        }
    }
}

impl Flow for GetNote {
    type Out = Reply;

    open spec fn ready(self) -> bool {
        true
    }

    fn resume(self, app: &AppState, event: Event, now: UtcTime) -> (r: Step<GetNote, Reply>)
        ensures
            self.next(event, r),
    {
        match self {
            GetNote::Load { sub, author } => match own_note(
                event,
                sub.as_str(),
                "Error fetching note contents",
            ) {
                Err(e) => Step::Done(e),
                Ok(note) => {
                    if !same(note.author.as_str(), author.as_str()) {
                        return Step::Done(
                            coded(
                                UNAUTHORIZED,
                                "You don't have permission to access this note!",
                                1,
                            ),
                        );
                    }
                    match read_state(&note) {
                        Some(id) => Step::Ask(Action::StateById(id), GetNote::State { note }),
                        None => Step::Done(
                            reply(OK, Body::NoteFound { note, state: None, labels: None }),
                        ),
                    }
                },
            },
            GetNote::State { note } => match event {
                Event::State(Some(state)) => {
                    if note.labels.is_some() {
                        next_label(note, state, 0, Vec::new())
                    } else {
                        Step::Done(
                            reply(OK, Body::NoteFound { note, state: Some(state), labels: None }),
                        )
                    }
                },
                Event::State(None) => Step::Done(
                    reply(OK, Body::NoteFound { note, state: None, labels: None }),
                ),
                _ => Step::Done(db_error(BAD_REQUEST)),
            },
            GetNote::Labels { note, state, next, labels } => {
                let mut labels = labels;
                match event {
                    Event::Label(Some(label)) => labels.push(label),
                    _ => {},
                }
                let known = match &note.labels {
                    Some(ids) => next < ids.len(),
                    None => false,
                };
                if known {
                    next_label(note, state, next + 1, labels)
                } else {
                    Step::Done(
                        reply(
                            OK,
                            Body::NoteFound { note, state: Some(state), labels: Some(labels) },
                        ),
                    )
                }
            },
        }
    }
}

} // verus!
