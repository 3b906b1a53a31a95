//! Labels.

use vstd::prelude::*;
#[allow(unused_imports)]
use vstd::string::*;

use crate::config::AppState;
use crate::flow::{Action, Event, Flow, Step};
use crate::handlers::note::TRY_LATER;
use crate::http::{message, reply, Body, Reply, BAD_REQUEST, INTERNAL_SERVER_ERROR, NOT_FOUND, OK};
#[allow(unused_imports)]
use crate::http::{says, Cookies};
use crate::json::Json;
#[allow(unused_imports)]
use crate::json::{member_or_empty, text_member, JsonView};
use crate::middleware::auth::{require_owner, require_sub};
#[allow(unused_imports)]
use crate::middleware::auth::forbidden;
use crate::models::{Label, PaginateResponse};
#[allow(unused_imports)]
use crate::object_id::{hex_form, is_object_id, object_id_of, ObjectId};
use crate::pagination::{page_count, read_number, skip_for, total_for};
#[allow(unused_imports)]
use crate::pagination::{number_of, pages_of, skip_of, total_of};
use crate::text::owned;
use crate::time::UtcTime;
use crate::utils::crypto::Claims;
#[allow(unused_imports)]
use crate::utils::crypto::text_view;
use crate::utils::{db_error, object_id_from_str};
#[allow(unused_imports)]
use crate::utils::db_failed;

pub mod kept;

verus! {

// ---------- requests ----------

/// The query of a request for labels.
#[derive(Debug)]
pub struct ViewQuery {
    pub search: Option<String>,
    pub page: Option<String>,
    pub limit: Option<String>,
}

/// What a new label is made of.
#[derive(Debug)]
pub struct AddReq {
    pub name: String,
    pub color: String,
    pub fontColor: Option<String>,
    pub selectedStyle: Option<String>,
    pub label_type: Option<String>,
}

#[derive(Debug)]
pub struct EditReq {
    pub _id: String,
    pub name: String,
    pub color: String,
    pub label_type: String,
}

// ---------- the list ----------

/// What a list of labels waits for.
pub enum ViewLabels {
    /// How many there are.
    Count { user: ObjectId, search: String, page: i64, limit: i64 },
    /// Those of the page.
    Docs { page: i64, limit: i64, total: i64 },
}

/// The text of an option, empty where there is none.
pub open spec fn or_empty(v: Option<String>) -> Seq<char> {
    match v {
        Some(s) => s@,
        None => Seq::empty(),
    }
}

/// Lists the labels of a user, page by page; where something is searched, those
/// whose name it matches.
pub fn view(claims: &Claims, userId: &str, query: ViewQuery) -> (r: Step<ViewLabels, Reply>)
    ensures
        r matches Step::Ask(_, after) ==> after.ready(),
        if claims.sub@ != userId@ {
            r == Step::<ViewLabels, Reply>::Done(forbidden())
        } else if !is_object_id(userId@) {
            r == Step::<ViewLabels, Reply>::Done(says(BAD_REQUEST, "Invalid userId"))
        } else {
            r matches Step::Ask(
                Action::CountLabels { user, search },
                ViewLabels::Count { user: u, search: s, page, limit },
            ) && user == object_id_of(userId@) && u == user && search@ == or_empty(query.search)
                && s@ == search@ && page == number_of(text_view(query.page), 1) && limit
                == number_of(text_view(query.limit), 10)
        },
{
    match require_owner(claims, userId) {
        Err(e) => {
            return Step::Done(e);
        },
        Ok(_) => {},
    }
    match object_id_from_str(userId) {
        None => Step::Done(message(BAD_REQUEST, "Invalid userId")),
        Some(user) => {
            let search = match query.search {
                Some(s) => s,
                None => String::new(),
            };
            let page = match &query.page {
                Some(s) => read_number(Some(s.as_str()), 1),
                None => read_number(None, 1),
            };
            let limit = match &query.limit {
                Some(s) => read_number(Some(s.as_str()), 10),
                None => read_number(None, 10),
            };
            Step::Ask(
                Action::CountLabels { user, search: search.clone() },
                ViewLabels::Count { user, search, page, limit },
            )
        },
    }
}

/// `page` is the page `number` of `total` labels, with these on it.
pub open spec fn is_label_page(
    page: PaginateResponse<Label>,
    docs: Vec<Label>,
    total: int,
    number: int,
    limit: int,
) -> bool {
    let pages = pages_of(total, limit);
    &&& page.docs == docs
    &&& page.totalDocs == total
    &&& page.limit == limit
    &&& page.page == number
    &&& page.totalPages == pages
    &&& page.hasNextPage == (number < pages)
    &&& page.hasPrevPage == (number > 1)
    &&& page.nextPage == (if number < pages {
        Some((number + 1) as i64)
    } else {
        None
    })
    &&& page.prevPage == (if number > 1 {
        Some((number - 1) as i64)
    } else {
        None
    })
}

impl ViewLabels {
    /// `r` is what follows an answer.
    pub open spec fn next(self, event: Event, r: Step<ViewLabels, Reply>) -> bool {
        match self {
            ViewLabels::Count { user, search, page, limit } => r == match event {
                Event::Count(n) => Step::Ask(
                    Action::LabelsPage {
                        user,
                        search,
                        skip: skip_of(page as int, limit as int) as u64,
                        limit,
                    },
                    ViewLabels::Docs { page, limit, total: total_of(n as int) as i64 },
                ),
                _ => Step::Done(db_failed(BAD_REQUEST)),
            },
            ViewLabels::Docs { page, limit, total } => match event {
                Event::Labels(docs) => r matches Step::Done(
                    Reply { status, cookies: Cookies::Nothing, body: Body::Labels(p) },
                ) && status == OK && is_label_page(
                    p,
                    docs,
                    total as int,
                    page as int,
                    limit as int,
                ),
                _ => r == Step::<ViewLabels, Reply>::Done(db_failed(BAD_REQUEST)),
            },
        }
    }
}

impl Flow for ViewLabels {
    type Out = Reply;

    open spec fn ready(self) -> bool {
        match self {
            ViewLabels::Count { page, limit, .. } => page >= 1 && limit >= 1,
            ViewLabels::Docs { page, limit, total } => page >= 1 && limit >= 1 && total >= 0,
        }
    }

    fn resume(self, app: &AppState, event: Event, now: UtcTime) -> (r: Step<ViewLabels, Reply>)
        ensures
            self.next(event, r),
    {
        match self {
            ViewLabels::Count { user, search, page, limit } => match event {
                Event::Count(n) => Step::Ask(
                    Action::LabelsPage { user, search, skip: skip_for(page, limit), limit },
                    ViewLabels::Docs { page, limit, total: total_for(n) },
                ),
                _ => Step::Done(db_error(BAD_REQUEST)),
            },
            ViewLabels::Docs { page, limit, total } => match event {
                Event::Labels(docs) => {
                    let pages = page_count(total, limit);
                    let has_next = page < pages;
                    let has_prev = page > 1;
                    let page = PaginateResponse {
                        docs,
                        totalDocs: total,
                        limit,
                        page,
                        totalPages: pages,
                        hasNextPage: has_next,
                        hasPrevPage: has_prev,
                        nextPage: if has_next {
                            Some(page + 1)
                        } else {
                            None
                        },
                        prevPage: if has_prev {
                            Some(page - 1)
                        } else {
                            None
                        },
                    };
                    Step::Done(reply(OK, Body::Labels(page)))
                },
                _ => Step::Done(db_error(BAD_REQUEST)),
            },
        }
    }
}

// ---------- changes ----------

/// What the change of a label waits for.
pub enum ChangeLabel {
    /// The label, which is then to be changed.
    LoadEdit { id: ObjectId, sub: String, name: String, color: String, label_type: String },
    /// The label, which is then to be deleted.
    LoadDelete { id: ObjectId, sub: String },
    /// The change.
    Write { done: &'static str },
}

/// `label` is the new label of a request: missing texts are empty, and the
/// style is `selectedStyle`, else `type`.
pub open spec fn is_new_label(
    label: Label,
    payload: JsonView,
    user: ObjectId,
    now: UtcTime,
) -> bool {
    &&& label.id is None
    &&& label.name@ == member_or_empty(payload, "name"@)
    &&& label.color@ == member_or_empty(payload, "color"@)
    &&& text_view(label.fontColor) == text_member(payload, "fontColor"@)
    &&& label.label_type@ == match text_member(payload, "selectedStyle"@) {
        Some(s) => s,
        None => member_or_empty(payload, "type"@),
    }
    &&& label.userId == user
    &&& label.createdAt == Some(now)
    &&& label.updatedAt is None
}

fn optional_text(payload: &Json, key: &str) -> (r: Option<String>)
    ensures
        text_view(r) == text_member(payload@, key@),
{
    match payload.get_str(key) {
        Some(s) => Some(owned(s)),
        None => None,
    }
}

/// Reads a new label from a request.
pub fn read_label(payload: &Json) -> (r: AddReq)
    ensures
        r.name@ == member_or_empty(payload@, "name"@),
        r.color@ == member_or_empty(payload@, "color"@),
        text_view(r.fontColor) == text_member(payload@, "fontColor"@),
        text_view(r.selectedStyle) == text_member(payload@, "selectedStyle"@),
        text_view(r.label_type) == text_member(payload@, "type"@),
{
    AddReq {
        name: payload.text_or_empty("name"),
        color: payload.text_or_empty("color"),
        fontColor: optional_text(payload, "fontColor"),
        selectedStyle: optional_text(payload, "selectedStyle"),
        label_type: optional_text(payload, "type"),
    }
}

/// Creates a label.
pub fn add(claims: &Claims, userId: &str, payload: &Json, now: UtcTime) -> (r: Step<
    ChangeLabel,
    Reply,
>)
    ensures
        if claims.sub@ != userId@ {
            r == Step::<ChangeLabel, Reply>::Done(forbidden())
        } else if !is_object_id(userId@) {
            r == Step::<ChangeLabel, Reply>::Done(says(BAD_REQUEST, "Invalid userId"))
        } else {
            r matches Step::Ask(Action::InsertLabel(label), after) && is_new_label(
                label,
                payload@,
                object_id_of(userId@),
                now,
            ) && after == (ChangeLabel::Write { done: "Label was created!" })
        },
{
    match require_owner(claims, userId) {
        Err(e) => {
            return Step::Done(e);
        },
        Ok(_) => {},
    }
    match object_id_from_str(userId) {
        None => Step::Done(message(BAD_REQUEST, "Invalid userId")),
        Some(user) => {
            let req = read_label(payload);
            let label_type = match req.selectedStyle {
                Some(style) => style,
                None => match req.label_type {
                    Some(t) => t,
                    None => String::new(),
                },
            };
            Step::Ask(
                Action::InsertLabel(
                    Label {
                        id: None,
                        name: req.name,
                        color: req.color,
                        fontColor: req.fontColor,
                        label_type,
                        userId: user,
                        createdAt: Some(now),
                        updatedAt: None,
                    },
                ),
                ChangeLabel::Write { done: "Label was created!" },
            )
        },
    }
}

/// Changes a label.
pub fn edit(claims: &Claims, payload: EditReq) -> (r: Step<ChangeLabel, Reply>)
    ensures
        r == if is_object_id(payload._id@) {
            Step::Ask(
                Action::LabelById(object_id_of(payload._id@)),
                ChangeLabel::LoadEdit {
                    id: object_id_of(payload._id@),
                    sub: claims.sub,
                    name: payload.name,
                    color: payload.color,
                    label_type: payload.label_type,
                },
            )
        } else {
            Step::Done(says(BAD_REQUEST, "Invalid id"))
        },
{
    match object_id_from_str(payload._id.as_str()) {
        None => Step::Done(message(BAD_REQUEST, "Invalid id")),
        Some(id) => Step::Ask(
            Action::LabelById(id),
            ChangeLabel::LoadEdit {
                id,
                sub: claims.sub.clone(),
                name: payload.name,
                color: payload.color,
                label_type: payload.label_type,
            },
        ),
    }
}

/// Deletes a label.
pub fn delete(claims: &Claims, id: &str) -> (r: Step<ChangeLabel, Reply>)
    ensures
        r == if is_object_id(id@) {
            Step::Ask(
                Action::LabelById(object_id_of(id@)),
                ChangeLabel::LoadDelete { id: object_id_of(id@), sub: claims.sub },
            )
        } else {
            Step::Done(says(BAD_REQUEST, "Invalid id"))
        },
{
    match object_id_from_str(id) {
        None => Step::Done(message(BAD_REQUEST, "Invalid id")),
        Some(id) => Step::Ask(
            Action::LabelById(id),
            ChangeLabel::LoadDelete { id, sub: claims.sub.clone() },
        ),
    }
}

/// What an answer says against touching the label that was looked up.
pub open spec fn label_refused(event: Event, sub: Seq<char>) -> Option<Reply> {
    match event {
        Event::Label(Some(label)) => if hex_form(label.userId@) == sub {
            None
        } else {
            Some(forbidden())
        },
        Event::Label(None) => Some(says(NOT_FOUND, "Label not found")),
        _ => Some(db_failed(INTERNAL_SERVER_ERROR)),
    }
}

/// Lets a caller touch a label only where it is their own.
fn refuse_label(event: Event, sub: &str) -> (r: Option<Reply>)
    ensures
        r == label_refused(event, sub@),
{
    match event {
        Event::Label(Some(label)) => {
            let owner = label.userId.to_hex();
            match require_sub(sub, owner.as_str()) {
                Ok(_) => None,
                Err(e) => Some(e),
            }
        },
        Event::Label(None) => Some(message(NOT_FOUND, "Label not found")),
        _ => Some(db_error(INTERNAL_SERVER_ERROR)),
    }
}

impl ChangeLabel {
    /// What follows an answer.
    pub open spec fn next(self, event: Event, now: UtcTime) -> Step<ChangeLabel, Reply> {
        match self {
            ChangeLabel::LoadEdit { id, sub, name, color, label_type } => match label_refused(
                event,
                sub@,
            ) {
                Some(e) => Step::Done(e),
                None => Step::Ask(
                    Action::UpdateLabel { id, name, color, label_type, at: now },
                    ChangeLabel::Write { done: "Label updated!" },
                ),
            },
            ChangeLabel::LoadDelete { id, sub } => match label_refused(event, sub@) {
                Some(e) => Step::Done(e),
                None => Step::Ask(
                    Action::DeleteLabel(id),
                    ChangeLabel::Write { done: "Label deleted!" },
                ),
            },
            ChangeLabel::Write { done } => Step::Done(
                if event is Done {
                    says(OK, done)
                } else {
                    says(BAD_REQUEST, TRY_LATER)
                },
            ),
        }
    }
}

impl Flow for ChangeLabel {
    type Out = Reply;

    open spec fn ready(self) -> bool {
        true
    }

    fn resume(self, app: &AppState, event: Event, now: UtcTime) -> (r: Step<ChangeLabel, Reply>)
        ensures
            r == self.next(event, now),
    {
        match self {
            ChangeLabel::LoadEdit { id, sub, name, color, label_type } => match refuse_label(
                event,
                sub.as_str(),
            ) {
                Some(e) => Step::Done(e),
                None => Step::Ask(
                    Action::UpdateLabel { id, name, color, label_type, at: now },
                    ChangeLabel::Write { done: "Label updated!" },
                ),
            },
            ChangeLabel::LoadDelete { id, sub } => match refuse_label(event, sub.as_str()) {
                Some(e) => Step::Done(e),
                None => Step::Ask(
                    Action::DeleteLabel(id),
                    ChangeLabel::Write { done: "Label deleted!" },
                ),
            },
            ChangeLabel::Write { done } => match event {
                Event::Done => Step::Done(message(OK, done)),
                _ => Step::Done(message(BAD_REQUEST, TRY_LATER)),
            },
        }
    }
}

/// A label is changed or deleted only where it belongs to the subject.
pub proof fn law_only_the_owner_changes_a_label(
    flow: ChangeLabel,
    event: Event,
    now: UtcTime,
    sub: String,
)
    requires
        flow.next(event, now) is Ask,
        match flow {
            ChangeLabel::LoadEdit { sub: s, .. } => s == sub,
            ChangeLabel::LoadDelete { sub: s, .. } => s == sub,
            _ => false,
        },
    ensures
        event matches Event::Label(Some(label)) && hex_form(label.userId@) == sub@,
{
}

} // verus!
