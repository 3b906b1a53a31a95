//! What a reply holds, as JSON.

use vstd::prelude::*;

use crate::http::{Body, Device, NotePage, PasskeyEntry, Progress, SessionEntry};
use crate::json::{Json, JsonView};
use crate::models::{Activity, ActivityTrigger, Bson, Label, Note, NoteSettings, NoteState, PaginateResponse, UserSettings};
#[allow(unused_imports)]
use crate::object_id::{hex_form, ObjectId};
use crate::time::{to_rfc3339, UtcTime};
#[allow(unused_imports)]
use crate::time::{is_representable, rfc3339_form};

pub mod told;

verus! {

/// A JSON value of a reply.
#[derive(Debug)]
pub enum Content<'a> {
    Null,
    Bool(bool),
    Int(i64),
    Text(String),
    List(Vec<Content<'a>>),
    Record(Vec<(&'static str, Content<'a>)>),
    /// A stored value of no fixed type, in Extended JSON.
    Stored(&'a Bson),
    /// A value that is JSON already.
    Json(&'a Json),
}

/// The mathematical form of a value of a reply.
pub enum ContentView {
    Null,
    Bool(bool),
    Int(int),
    Text(Seq<char>),
    List(Seq<ContentView>),
    Record(Seq<(Seq<char>, ContentView)>),
    Stored(Bson),
    Json(JsonView),
}

impl<'a> Content<'a> {
    pub open spec fn view(&self) -> ContentView
        decreases self,
    {
        match self {
            Content::Null => ContentView::Null,
            Content::Bool(b) => ContentView::Bool(*b),
            Content::Int(n) => ContentView::Int(*n as int),
            Content::Text(s) => ContentView::Text(s@),
            Content::List(items) => ContentView::List(
                Seq::new(
                    items@.len(),
                    |i: int|
                        if 0 <= i < items@.len() {
                            items@[i].view()
                        } else {
                            ContentView::Null
                        },
                ),
            ),
            Content::Record(members) => ContentView::Record(
                Seq::new(
                    members@.len(),
                    |i: int|
                        if 0 <= i < members@.len() {
                            (members@[i].0@, members@[i].1.view())
                        } else {
                            (Seq::empty(), ContentView::Null)
                        },
                ),
            ),
            Content::Stored(value) => ContentView::Stored(**value),
            Content::Json(value) => ContentView::Json(value@),
        }
    }
}

// ---------- members ----------

/// The members of a record, in their order.
pub struct Members {
    pub all: Seq<(Seq<char>, ContentView)>,
}

/// No members.
pub open spec fn members() -> Members {
    Members { all: Seq::empty() }
}

impl Members {
    /// One member more.
    pub open spec fn with(self, key: Seq<char>, value: ContentView) -> Members {
        Members { all: self.all.push((key, value)) }
    }

    /// One member more, where there is a value.
    pub open spec fn maybe(self, key: Seq<char>, value: Option<ContentView>) -> Members {
        match value {
            Some(v) => self.with(key, v),
            None => self,
        }
    }

    /// The record.
    pub open spec fn record(self) -> ContentView {
        ContentView::Record(self.all)
    }
}

/// A record that is being put together.
struct Record<'a> {
    members: Vec<(&'static str, Content<'a>)>,
}

impl<'a> Record<'a> {
    spec fn view(&self) -> Members {
        Members {
            all: Seq::new(
                self.members@.len(),
                |i: int| (self.members@[i].0@, self.members@[i].1@),
            ),
        }
    }

    fn new() -> (r: Record<'a>)
        ensures
            r@ == members(),
    {
        let r = Record { members: Vec::new() };
        assert(r@.all =~= Seq::empty());
        r
    }

    fn with(self, key: &'static str, value: Content<'a>) -> (r: Record<'a>)
        ensures
            r@ == self@.with(key@, value@),
    {
        let mut members = self.members;
        members.push((key, value));
        let r = Record { members };
        assert(r@.all =~= self@.all.push((key@, value@)));
        r
    }

    fn maybe(self, key: &'static str, value: Option<Content<'a>>) -> (r: Record<'a>)
        ensures
            r@ == self@.maybe(
                key@,
                match value {
                    Some(v) => Some(v@),
                    None => None,
                },
            ),
    {
        match value {
            Some(v) => self.with(key, v),
            None => self,
        }
    }

    fn done(self) -> (r: Content<'a>)
        ensures
            r@ == self@.record(),
    {
        let r = Content::Record(self.members);
        assert(r@->Record_0 =~= self@.all);
        r
    }
}

// ---------- values ----------

/// What can stand in a reply.
pub trait Shown: Sized {
    /// The JSON value that this is.
    spec fn content(&self) -> ContentView;

    fn show<'a>(&'a self) -> (r: Content<'a>)
        ensures
            r@ == self.content(),
    ;
}

/// A value, or null.
pub open spec fn or_null<T: Shown>(v: Option<T>) -> ContentView {
    match v {
        Some(x) => x.content(),
        None => ContentView::Null,
    }
}

/// A value, where there is one.
pub open spec fn if_any<T: Shown>(v: Option<T>) -> Option<ContentView> {
    match v {
        Some(x) => Some(x.content()),
        None => None,
    }
}

/// A list of values.
pub open spec fn listed<T: Shown>(v: Seq<T>) -> ContentView {
    ContentView::List(Seq::new(v.len(), |i: int| v[i].content()))
}

fn show_or_null<'a, T: Shown>(v: &'a Option<T>) -> (r: Content<'a>)
    ensures
        r@ == or_null(*v),
{
    match v {
        Some(x) => x.show(),
        None => Content::Null,
    }
}

fn show_if_any<'a, T: Shown>(v: &'a Option<T>) -> (r: Option<Content<'a>>)
    ensures
        if_any(*v) == match r {
            Some(x) => Some(x@),
            None => None,
        },
{
    match v {
        Some(x) => Some(x.show()),
        None => None,
    }
}

fn show_list<'a, T: Shown>(v: &'a Vec<T>) -> (r: Content<'a>)
    ensures
        r@ == listed(v@),
{
    let mut items: Vec<Content<'a>> = Vec::new();
    let mut i: usize = 0;
    while i < v.len()
        invariant
            i <= v@.len(),
            items@.len() == i,
            forall|j: int| 0 <= j < i ==> (#[trigger] items@[j])@ == v@[j].content(),
        decreases v@.len() - i,
    {
        items.push(v[i].show());
        i += 1;
    }
    let r = Content::List(items);
    assert(r@->List_0 =~= listed(v@)->List_0);
    r
}

/// A fixed text.
fn said<'a>(text: &'static str) -> (r: Content<'a>)
    ensures
        r@ == ContentView::Text(text@),
{
    Content::Text(text.to_string())
}

impl Shown for bool {
    open spec fn content(&self) -> ContentView {
        ContentView::Bool(*self)
    }

    fn show<'a>(&'a self) -> (r: Content<'a>) {
        Content::Bool(*self)
    }
}

impl Shown for u8 {
    open spec fn content(&self) -> ContentView {
        ContentView::Int(*self as int)
    }

    fn show<'a>(&'a self) -> (r: Content<'a>) {
        Content::Int(*self as i64)
    }
}

impl Shown for u32 {
    open spec fn content(&self) -> ContentView {
        ContentView::Int(*self as int)
    }

    fn show<'a>(&'a self) -> (r: Content<'a>) {
        Content::Int(*self as i64)
    }
}

impl Shown for i64 {
    open spec fn content(&self) -> ContentView {
        ContentView::Int(*self as int)
    }

    fn show<'a>(&'a self) -> (r: Content<'a>) {
        Content::Int(*self)
    }
}

impl Shown for String {
    open spec fn content(&self) -> ContentView {
        ContentView::Text(self@)
    }

    fn show<'a>(&'a self) -> (r: Content<'a>) {
        Content::Text(self.clone())
    }
}

/// An identifier is its hexadecimal digits.
impl Shown for ObjectId {
    open spec fn content(&self) -> ContentView {
        ContentView::Text(hex_form(self@))
    }

    fn show<'a>(&'a self) -> (r: Content<'a>) {
        Content::Text(self.to_hex())
    }
}

/// A moment is its RFC 3339 text. One that the calendar does not hold has none.
impl Shown for UtcTime {
    open spec fn content(&self) -> ContentView {
        if is_representable(*self) {
            ContentView::Text(rfc3339_form(self.secs, self.nanos))
        } else {
            ContentView::Null
        }
    }

    fn show<'a>(&'a self) -> (r: Content<'a>) {
        match to_rfc3339(*self) {
            Some(s) => Content::Text(s),
            None => Content::Null,
        }
    }
}

impl Shown for Bson {
    open spec fn content(&self) -> ContentView {
        ContentView::Stored(*self)
    }

    fn show<'a>(&'a self) -> (r: Content<'a>) {
        Content::Stored(self)
    }
}

impl<T: Shown> Shown for Vec<T> {
    open spec fn content(&self) -> ContentView {
        listed(self@)
    }

    fn show<'a>(&'a self) -> (r: Content<'a>) {
        show_list(self)
    }
}

// ---------- documents ----------

impl Shown for UserSettings {
    open spec fn content(&self) -> ContentView {
        members()
            .with("showPinnedNotesInFolder"@, or_null(self.showPinnedNotesInFolder))
            .with("noteTextExpanded"@, or_null(self.noteTextExpanded))
            .with("globalNoteBackgroundColor"@, or_null(self.globalNoteBackgroundColor))
            .with("onLoginGoToLastOpenedNote"@, or_null(self.onLoginGoToLastOpenedNote))
            .with("noteVisualization"@, or_null(self.noteVisualization))
            .with("theme"@, or_null(self.theme))
            .with("language"@, or_null(self.language))
            .record()
    }

    fn show<'a>(&'a self) -> (r: Content<'a>) {
        Record::new()
            .with("showPinnedNotesInFolder", show_or_null(&self.showPinnedNotesInFolder))
            .with("noteTextExpanded", show_or_null(&self.noteTextExpanded))
            .with("globalNoteBackgroundColor", show_or_null(&self.globalNoteBackgroundColor))
            .with("onLoginGoToLastOpenedNote", show_or_null(&self.onLoginGoToLastOpenedNote))
            .with("noteVisualization", show_or_null(&self.noteVisualization))
            .with("theme", show_or_null(&self.theme))
            .with("language", show_or_null(&self.language))
            .done()
    }
}

impl Shown for NoteSettings {
    open spec fn content(&self) -> ContentView {
        members()
            .with("shared"@, or_null(self.shared))
            .with("permissions"@, or_null(self.permissions))
            .with("pinned"@, or_null(self.pinned))
            .with("noteBackgroundColor"@, or_null(self.noteBackgroundColor))
            .record()
    }

    fn show<'a>(&'a self) -> (r: Content<'a>) {
        Record::new()
            .with("shared", show_or_null(&self.shared))
            .with("permissions", show_or_null(&self.permissions))
            .with("pinned", show_or_null(&self.pinned))
            .with("noteBackgroundColor", show_or_null(&self.noteBackgroundColor))
            .done()
    }
}

/// A note with `labels` and `state` for its own.
pub open spec fn note_content(
    note: Note,
    labels: Option<ContentView>,
    state: ContentView,
) -> ContentView {
    members()
        .maybe("_id"@, if_any(note.id))
        .with("name"@, or_null(note.name))
        .with("body"@, or_null(note.body))
        .maybe("labels"@, labels)
        .with("image"@, or_null(note.image))
        .with("state"@, state)
        .maybe("settings"@, if_any(note.settings))
        .with("author"@, note.author.content())
        .with("pageLocation"@, or_null(note.pageLocation))
        .maybe("createdAt"@, if_any(note.createdAt))
        .maybe("updatedAt"@, if_any(note.updatedAt))
        .record()
}

fn show_note<'a>(note: &'a Note, labels: Option<Content<'a>>, state: Content<'a>) -> (r: Content<
    'a,
>)
    ensures
        r@ == note_content(
            *note,
            match labels {
                Some(l) => Some(l@),
                None => None,
            },
            state@,
        ),
{
    Record::new()
        .maybe("_id", show_if_any(&note.id))
        .with("name", show_or_null(&note.name))
        .with("body", show_or_null(&note.body))
        .maybe("labels", labels)
        .with("image", show_or_null(&note.image))
        .with("state", state)
        .maybe("settings", show_if_any(&note.settings))
        .with("author", note.author.show())
        .with("pageLocation", show_or_null(&note.pageLocation))
        .maybe("createdAt", show_if_any(&note.createdAt))
        .maybe("updatedAt", show_if_any(&note.updatedAt))
        .done()
}

impl Shown for Note {
    open spec fn content(&self) -> ContentView {
        note_content(*self, if_any(self.labels), or_null(self.state))
    }

    fn show<'a>(&'a self) -> (r: Content<'a>) {
        show_note(self, show_if_any(&self.labels), show_or_null(&self.state))
    }
}

impl Shown for Label {
    open spec fn content(&self) -> ContentView {
        members()
            .maybe("_id"@, if_any(self.id))
            .with("name"@, self.name.content())
            .with("color"@, self.color.content())
            .with("fontColor"@, or_null(self.fontColor))
            .with("type"@, self.label_type.content())
            .with("userId"@, self.userId.content())
            .maybe("createdAt"@, if_any(self.createdAt))
            .maybe("updatedAt"@, if_any(self.updatedAt))
            .record()
    }

    fn show<'a>(&'a self) -> (r: Content<'a>) {
        Record::new()
            .maybe("_id", show_if_any(&self.id))
            .with("name", self.name.show())
            .with("color", self.color.show())
            .with("fontColor", show_or_null(&self.fontColor))
            .with("type", self.label_type.show())
            .with("userId", self.userId.show())
            .maybe("createdAt", show_if_any(&self.createdAt))
            .maybe("updatedAt", show_if_any(&self.updatedAt))
            .done()
    }
}

impl Shown for ActivityTrigger {
    open spec fn content(&self) -> ContentView {
        members()
            .with("time"@, self.time.content())
            .maybe("date"@, if_any(self.date))
            .maybe("weekdays"@, if_any(self.weekdays))
            .record()
    }

    fn show<'a>(&'a self) -> (r: Content<'a>) {
        Record::new()
            .with("time", self.time.show())
            .maybe("date", show_if_any(&self.date))
            .maybe("weekdays", show_if_any(&self.weekdays))
            .done()
    }
}

impl Shown for Activity {
    open spec fn content(&self) -> ContentView {
        members()
            .maybe("_id"@, if_any(self.id))
            .with("userId"@, self.userId.content())
            .with("title"@, self.title.content())
            .maybe("description"@, if_any(self.description))
            .with("triggerType"@, self.triggerType.content())
            .with("trigger"@, self.trigger.content())
            .with("enabled"@, self.enabled.content())
            .maybe("lastPushKey"@, if_any(self.lastPushKey))
            .maybe("noteId"@, if_any(self.noteId))
            .maybe("seenOccurrences"@, if_any(self.seenOccurrences))
            .maybe("doneDates"@, if_any(self.doneDates))
            .maybe("lastTriggeredAt"@, if_any(self.lastTriggeredAt))
            .maybe("createdAt"@, if_any(self.createdAt))
            .maybe("updatedAt"@, if_any(self.updatedAt))
            .record()
    }

    fn show<'a>(&'a self) -> (r: Content<'a>) {
        Record::new()
            .maybe("_id", show_if_any(&self.id))
            .with("userId", self.userId.show())
            .with("title", self.title.show())
            .maybe("description", show_if_any(&self.description))
            .with("triggerType", self.triggerType.show())
            .with("trigger", self.trigger.show())
            .with("enabled", self.enabled.show())
            .maybe("lastPushKey", show_if_any(&self.lastPushKey))
            .maybe("noteId", show_if_any(&self.noteId))
            .maybe("seenOccurrences", show_if_any(&self.seenOccurrences))
            .maybe("doneDates", show_if_any(&self.doneDates))
            .maybe("lastTriggeredAt", show_if_any(&self.lastTriggeredAt))
            .maybe("createdAt", show_if_any(&self.createdAt))
            .maybe("updatedAt", show_if_any(&self.updatedAt))
            .done()
    }
}

// ---------- parts of replies ----------

impl Shown for NotePage {
    open spec fn content(&self) -> ContentView {
        members()
            .with("docs"@, self.docs.content())
            .with("totalDocs"@, self.totalDocs.content())
            .with("hasNextPage"@, self.hasNextPage.content())
            .with("totalPages"@, self.totalPages.content())
            .record()
    }

    fn show<'a>(&'a self) -> (r: Content<'a>) {
        Record::new()
            .with("docs", self.docs.show())
            .with("totalDocs", self.totalDocs.show())
            .with("hasNextPage", self.hasNextPage.show())
            .with("totalPages", self.totalPages.show())
            .done()
    }
}

impl<T: Shown> Shown for PaginateResponse<T> {
    open spec fn content(&self) -> ContentView {
        members()
            .with("docs"@, self.docs.content())
            .with("totalDocs"@, self.totalDocs.content())
            .with("limit"@, self.limit.content())
            .with("page"@, self.page.content())
            .with("totalPages"@, self.totalPages.content())
            .with("hasNextPage"@, self.hasNextPage.content())
            .with("hasPrevPage"@, self.hasPrevPage.content())
            .with("nextPage"@, or_null(self.nextPage))
            .with("prevPage"@, or_null(self.prevPage))
            .record()
    }

    fn show<'a>(&'a self) -> (r: Content<'a>) {
        Record::new()
            .with("docs", self.docs.show())
            .with("totalDocs", self.totalDocs.show())
            .with("limit", self.limit.show())
            .with("page", self.page.show())
            .with("totalPages", self.totalPages.show())
            .with("hasNextPage", self.hasNextPage.show())
            .with("hasPrevPage", self.hasPrevPage.show())
            .with("nextPage", show_or_null(&self.nextPage))
            .with("prevPage", show_or_null(&self.prevPage))
            .done()
    }
}

impl Shown for Device {
    open spec fn content(&self) -> ContentView {
        members()
            .with("endpoint"@, self.endpoint.content())
            .with("userAgent"@, or_null(self.userAgent))
            .with("createdAt"@, or_null(self.createdAt))
            .with("updatedAt"@, or_null(self.updatedAt))
            .record()
    }

    fn show<'a>(&'a self) -> (r: Content<'a>) {
        Record::new()
            .with("endpoint", self.endpoint.show())
            .with("userAgent", show_or_null(&self.userAgent))
            .with("createdAt", show_or_null(&self.createdAt))
            .with("updatedAt", show_or_null(&self.updatedAt))
            .done()
    }
}

impl Shown for SessionEntry {
    open spec fn content(&self) -> ContentView {
        members()
            .maybe("_id"@, if_any(self.id))
            .with("userId"@, self.userId.content())
            .with("expAt"@, self.expAt.content())
            .with("ip"@, self.ip.content())
            .with("browserData"@, self.browserData.content())
            .with("location"@, self.location.content())
            .with("countryFlag"@, self.countryFlag.content())
            .with("deviceData"@, self.deviceData.content())
            .with("clientData"@, self.clientData.content())
            .maybe("createdAt"@, if_any(self.createdAt))
            .with("current"@, self.current.content())
            .record()
    }

    fn show<'a>(&'a self) -> (r: Content<'a>) {
        Record::new()
            .maybe("_id", show_if_any(&self.id))
            .with("userId", self.userId.show())
            .with("expAt", self.expAt.show())
            .with("ip", self.ip.show())
            .with("browserData", self.browserData.show())
            .with("location", self.location.show())
            .with("countryFlag", self.countryFlag.show())
            .with("deviceData", self.deviceData.show())
            .with("clientData", self.clientData.show())
            .maybe("createdAt", show_if_any(&self.createdAt))
            .with("current", self.current.show())
            .done()
    }
}

impl Shown for PasskeyEntry {
    open spec fn content(&self) -> ContentView {
        members()
            .with("cred_id"@, self.cred_id.content())
            .with("label"@, or_null(self.label))
            .with("createdAt"@, or_null(self.createdAt))
            .with("lastUsedAt"@, or_null(self.lastUsedAt))
            .record()
    }

    fn show<'a>(&'a self) -> (r: Content<'a>) {
        Record::new()
            .with("cred_id", self.cred_id.show())
            .with("label", show_or_null(&self.label))
            .with("createdAt", show_or_null(&self.createdAt))
            .with("lastUsedAt", show_or_null(&self.lastUsedAt))
            .done()
    }
}

impl Progress {
    /// The members that tell how an activity stands.
    pub open spec fn members(self) -> Members {
        members()
            .with("noteId"@, or_null(self.noteId))
            .with("doneDates"@, self.doneDates.content())
            .with("seenOccurrences"@, self.seenOccurrences.content())
            .with("currentStreak"@, self.currentStreak.content())
            .with("totalCompletions"@, self.totalCompletions.content())
            .with("doneToday"@, self.doneToday.content())
            .with("today"@, self.today.content())
            .with("lastDone"@, or_null(self.lastDone))
    }

    fn show_members<'a>(&'a self) -> (r: Record<'a>)
        ensures
            r@ == self.members(),
    {
        Record::new()
            .with("noteId", show_or_null(&self.noteId))
            .with("doneDates", self.doneDates.show())
            .with("seenOccurrences", self.seenOccurrences.show())
            .with("currentStreak", self.currentStreak.show())
            .with("totalCompletions", self.totalCompletions.show())
            .with("doneToday", self.doneToday.show())
            .with("today", self.today.show())
            .with("lastDone", show_or_null(&self.lastDone))
    }
}

/// The text of a note, under its identifier.
pub open spec fn state_content(state: NoteState) -> ContentView {
    members()
        .with(
            "_id"@,
            match state.id {
                Some(id) => id.content(),
                None => ContentView::Text(Seq::empty()),
            },
        )
        .with("state"@, state.state.content())
        .record()
}

fn show_state<'a>(state: &'a NoteState) -> (r: Content<'a>)
    ensures
        r@ == state_content(*state),
{
    let id = match &state.id {
        Some(id) => id.show(),
        None => Content::Text(String::new()),
    };
    Record::new().with("_id", id).with("state", state.state.show()).done()
}

/// A note with its text and its labels in place of their identifiers.
pub open spec fn found_content(
    note: Note,
    state: Option<NoteState>,
    labels: Option<Vec<Label>>,
) -> ContentView {
    note_content(
        note,
        match labels {
            Some(l) => Some(l.content()),
            None => if_any(note.labels),
        },
        match state {
            Some(s) => state_content(s),
            None => or_null(note.state),
        },
    )
}

fn show_found<'a>(
    note: &'a Note,
    state: &'a Option<NoteState>,
    labels: &'a Option<Vec<Label>>,
) -> (r: Content<'a>)
    ensures
        r@ == found_content(*note, *state, *labels),
{
    let shown_labels = match labels {
        Some(l) => Some(l.show()),
        None => show_if_any(&note.labels),
    };
    let shown_state = match state {
        Some(s) => show_state(s),
        None => show_or_null(&note.state),
    };
    show_note(note, shown_labels, shown_state)
}

// ---------- replies ----------

/// A record that begins with a message.
pub open spec fn message_members(text: Seq<char>) -> Members {
    members().with("message"@, ContentView::Text(text))
}

fn message<'a>(text: &'static str) -> (r: Record<'a>)
    ensures
        r@ == message_members(text@),
{
    Record::new().with("message", said(text))
}

impl Shown for Body {
    open spec fn content(&self) -> ContentView {
        match *self {
            Body::Message(text) => message_members(text@).record(),
            Body::Text(text) => message_members(text@).record(),
            Body::Coded(text, code) => message_members(text@)
                .with("code"@, code.content())
                .record(),
            Body::SignedIn { id, name, tfa_enabled, settings, last_opened } => members()
                .with("_id"@, id.content())
                .with("name"@, name.content())
                .with("TFAEnabled"@, tfa_enabled.content())
                .with("settings"@, or_null(settings))
                .with("lastOpenedNote"@, or_null(last_opened))
                .record(),
            Body::GoogleSignedIn { id, name, tfa_enabled, settings } => message_members("Success"@)
                .with("_id"@, id.content())
                .with("name"@, name.content())
                .with("googleAccount"@, ContentView::Bool(true))
                .with("TFAEnabled"@, tfa_enabled.content())
                .with("settings"@, or_null(settings))
                .record(),
            Body::PasskeySignedIn { id, name, google_account, settings, last_opened } => members()
                .with("_id"@, id.content())
                .with("name"@, name.content())
                .with("TFAEnabled"@, ContentView::Bool(false))
                .with("googleAccount"@, google_account.content())
                .with("settings"@, or_null(settings))
                .with("lastOpenedNote"@, or_null(last_opened))
                .record(),
            Body::TokenVerified { sub, name, google_account, tfa_enabled, user_settings } => members()
                .with("_id"@, sub.content())
                .with("name"@, name.content())
                .with("googleAccount"@, google_account.content())
                .with("TFAEnabled"@, tfa_enabled.content())
                .with("settings"@, user_settings.content())
                .record(),
            Body::ResetWithTfa { user } => members()
                .with("code"@, ContentView::Int(5))
                .with("userId"@, user.content())
                .record(),
            Body::OtpWait { spam } => message_members(
                "Wait at least a 2 minutes to send another email!"@,
            )
                .with("spam"@, spam.content())
                .with("code"@, ContentView::Int(4))
                .record(),
            Body::OtpSent { user } => message_members(
                "If an account with this email exists, the code will be sent"@,
            )
                .with("userId"@, user.content())
                .record(),
            Body::OtpVerified { reset_token } => message_members("Verified!"@)
                .with("resetToken"@, reset_token.content())
                .record(),
            Body::QrCode(url) => url.content(),
            Body::Notes { notes, pinned } => members()
                .with("notes"@, notes.content())
                .with(
                    "pinnedNotes"@,
                    match pinned {
                        Some(page) => page.content(),
                        None => members().record(),
                    },
                )
                .record(),
            Body::NoteFound { note, state, labels } => members()
                .with("note"@, found_content(note, state, labels))
                .record(),
            Body::NoteAdded { id, page_location } => members()
                .with("noteId"@, id.content())
                .with("pageLocation"@, page_location.content())
                .with("message"@, ContentView::Text("Saved susccessfuly!"@))
                .record(),
            Body::Labels(page) => page.content(),
            Body::Activities(list) => members().with("activities"@, list.content()).record(),
            Body::Triggered { at } => message_members("Activity trigger recorded!"@)
                .with("lastTriggeredAt"@, at.content())
                .record(),
            Body::ActivityProgress(progress) => progress.members().record(),
            Body::Completed { progress, date } => progress.members()
                .with("message"@, ContentView::Text("Activity marked as done!"@))
                .with("date"@, date.content())
                .record(),
            Body::Occurrence { key } => message_members("Occurrence recorded!"@)
                .with("occurrenceKey"@, key.content())
                .record(),
            Body::VapidKey(key) => members().with("publicKey"@, key.content()).record(),
            Body::Devices(devices) => members().with("subscriptions"@, devices.content()).record(),
            Body::PushSweep { checked, pushed } => message_members("Push sweep done"@)
                .with("checked"@, checked.content())
                .with("pushed"@, pushed.content())
                .record(),
            Body::Sessions(entries) => entries.content(),
            Body::PasskeyOptions { options, state_token } => members()
                .with("options"@, ContentView::Json(options@))
                .with("stateToken"@, state_token.content())
                .record(),
            Body::Passkeys(entries) => entries.content(),
        }
    }

    fn show<'a>(&'a self) -> (r: Content<'a>) {
        match self {
            Body::Message(text) => message(*text).done(),
            Body::Text(text) => Record::new().with("message", text.show()).done(),
            Body::Coded(text, code) => message(*text).with("code", code.show()).done(),
            Body::SignedIn { id, name, tfa_enabled, settings, last_opened } => Record::new()
                .with("_id", id.show())
                .with("name", name.show())
                .with("TFAEnabled", tfa_enabled.show())
                .with("settings", show_or_null(settings))
                .with("lastOpenedNote", show_or_null(last_opened))
                .done(),
            Body::GoogleSignedIn { id, name, tfa_enabled, settings } => message("Success")
                .with("_id", id.show())
                .with("name", name.show())
                .with("googleAccount", Content::Bool(true))
                .with("TFAEnabled", tfa_enabled.show())
                .with("settings", show_or_null(settings))
                .done(),
            Body::PasskeySignedIn { id, name, google_account, settings, last_opened } => Record::new()
                .with("_id", id.show())
                .with("name", name.show())
                .with("TFAEnabled", Content::Bool(false))
                .with("googleAccount", google_account.show())
                .with("settings", show_or_null(settings))
                .with("lastOpenedNote", show_or_null(last_opened))
                .done(),
            Body::TokenVerified { sub, name, google_account, tfa_enabled, user_settings } => Record::new()
                .with("_id", sub.show())
                .with("name", name.show())
                .with("googleAccount", google_account.show())
                .with("TFAEnabled", tfa_enabled.show())
                .with("settings", user_settings.show())
                .done(),
            Body::ResetWithTfa { user } => Record::new()
                .with("code", Content::Int(5))
                .with("userId", user.show())
                .done(),
            Body::OtpWait { spam } => message("Wait at least a 2 minutes to send another email!")
                .with("spam", spam.show())
                .with("code", Content::Int(4))
                .done(),
            Body::OtpSent { user } => message(
                "If an account with this email exists, the code will be sent",
            )
                .with("userId", user.show())
                .done(),
            Body::OtpVerified { reset_token } => message("Verified!")
                .with("resetToken", reset_token.show())
                .done(),
            Body::QrCode(url) => url.show(),
            Body::Notes { notes, pinned } => {
                let shown = match pinned {
                    Some(page) => page.show(),
                    None => Record::new().done(),
                };
                Record::new().with("notes", notes.show()).with("pinnedNotes", shown).done()
            },
            Body::NoteFound { note, state, labels } => Record::new()
                .with("note", show_found(note, state, labels))
                .done(),
            Body::NoteAdded { id, page_location } => Record::new()
                .with("noteId", id.show())
                .with("pageLocation", page_location.show())
                .with("message", said("Saved susccessfuly!"))
                .done(),
            Body::Labels(page) => page.show(),
            Body::Activities(list) => Record::new().with("activities", list.show()).done(),
            Body::Triggered { at } => message("Activity trigger recorded!")
                .with("lastTriggeredAt", at.show())
                .done(),
            Body::ActivityProgress(progress) => progress.show_members().done(),
            Body::Completed { progress, date } => progress.show_members()
                .with("message", said("Activity marked as done!"))
                .with("date", date.show())
                .done(),
            Body::Occurrence { key } => message("Occurrence recorded!")
                .with("occurrenceKey", key.show())
                .done(),
            Body::VapidKey(key) => Record::new().with("publicKey", key.show()).done(),
            Body::Devices(devices) => Record::new().with("subscriptions", devices.show()).done(),
            Body::PushSweep { checked, pushed } => message("Push sweep done")
                .with("checked", checked.show())
                .with("pushed", pushed.show())
                .done(),
            Body::Sessions(entries) => entries.show(),
            Body::PasskeyOptions { options, state_token } => Record::new()
                .with("options", Content::Json(options))
                .with("stateToken", state_token.show())
                .done(),
            Body::Passkeys(entries) => entries.show(),
        }
    }
}

// ---------- what replies keep back ----------

/// A record has no member named `key`.
pub open spec fn keeps_back(v: ContentView, key: Seq<char>) -> bool {
    v matches ContentView::Record(all) && forall|i: int|
        0 <= i < all.len() ==> (#[trigger] all[i]).0 != key
}

/// A list of sessions does not tell their tokens.
pub proof fn law_sessions_keep_their_tokens(entries: Vec<SessionEntry>, i: int)
    requires
        0 <= i < entries@.len(),
    ensures
        Body::Sessions(entries).content() matches ContentView::List(items) && items.len()
            == entries@.len() && keeps_back(items[i], "token"@),
{
    let items = Body::Sessions(entries).content()->List_0;
    assert(items[i] == entries@[i].content());
    reveal_strlit("token");
    reveal_strlit("_id");
    reveal_strlit("userId");
    reveal_strlit("expAt");
    reveal_strlit("ip");
    reveal_strlit("browserData");
    reveal_strlit("location");
    reveal_strlit("countryFlag");
    reveal_strlit("deviceData");
    reveal_strlit("clientData");
    reveal_strlit("createdAt");
    reveal_strlit("current");
    assert("expAt"@[0] != "token"@[0]);
}

/// A list of devices does not tell the keys that messages to them are
/// encrypted with.
pub proof fn law_devices_keep_their_keys(devices: Vec<Device>, i: int)
    requires
        0 <= i < devices@.len(),
    ensures
        devices.content() matches ContentView::List(items) && items.len() == devices@.len()
            && keeps_back(items[i], "p256dh"@) && keeps_back(items[i], "auth"@),
        Body::Devices(devices).content() == members().with(
            "subscriptions"@,
            devices.content(),
        ).record(),
{
    let items = devices.content()->List_0;
    assert(items[i] == devices@[i].content());
    reveal_strlit("p256dh");
    reveal_strlit("auth");
    reveal_strlit("endpoint");
    reveal_strlit("userAgent");
    reveal_strlit("createdAt");
    reveal_strlit("updatedAt");
    assert("endpoint"@.len() == 8 && "userAgent"@.len() == 9);
    assert("createdAt"@.len() == 9 && "updatedAt"@.len() == 9);
}

/// A list of passkeys does not tell the credentials themselves.
pub proof fn law_passkeys_keep_their_credentials(entries: Vec<PasskeyEntry>, i: int)
    requires
        0 <= i < entries@.len(),
    ensures
        Body::Passkeys(entries).content() matches ContentView::List(items) && items.len()
            == entries@.len() && keeps_back(items[i], "passkey_json"@),
{
    let items = Body::Passkeys(entries).content()->List_0;
    assert(items[i] == entries@[i].content());
    reveal_strlit("passkey_json");
    reveal_strlit("cred_id");
    reveal_strlit("label");
    reveal_strlit("createdAt");
    reveal_strlit("lastUsedAt");
    assert("cred_id"@.len() == 7 && "label"@.len() == 5);
    assert("createdAt"@.len() == 9 && "lastUsedAt"@.len() == 10);
}

} // verus!
