//! What becomes of the stored labels when a request is answered.

use vstd::prelude::*;
#[allow(unused_imports)]
use vstd::string::*;

use crate::config::AppState;
#[allow(unused_imports)]
use crate::flow::{Action, Event, Step};
#[allow(unused_imports)]
use crate::handlers::label::{add, delete, edit, view};
use crate::handlers::label::{ChangeLabel, EditReq, ViewLabels, ViewQuery};
#[allow(unused_imports)]
use crate::http::{says, Body, OK};
use crate::http::Reply;
use crate::json::Json;
#[allow(unused_imports)]
use crate::json::{has_text_member, lacks_member, law_text_member_is_found};
#[allow(unused_imports)]
use crate::models::Label;
#[allow(unused_imports)]
use crate::numbers::decimal;
#[allow(unused_imports)]
use crate::object_id::{hex_form, is_object_id, object_id_of};
#[allow(unused_imports)]
use crate::pagination::law_number_reads_back;
#[allow(unused_imports)]
use crate::store::{runs, unfailed, Rows, Turn};
use crate::time::UtcTime;
use crate::utils::crypto::Claims;

verus! {

/// The text names a label of the subject.
pub open spec fn has_own_label(rows: Rows, id: Seq<char>, sub: Seq<char>) -> bool {
    is_object_id(id) && rows.labels.dom().contains(object_id_of(id)) && hex_form(
        rows.labels[object_id_of(id)].userId@,
    ) == sub
}

/// A label that was changed has the name, the color and the style of the
/// request, and nothing else is changed. An own label is changed unless the
/// database failed, another one never.
pub proof fn law_edited_label_is_stored(
    claims: Claims,
    payload: EditReq,
    app: AppState,
    start: Step<ChangeLabel, Reply>,
    rows: Rows,
    turns: Seq<Turn<ChangeLabel>>,
    reply: Reply,
    after: Rows,
)
    requires
        call_ensures(edit, (&claims, payload), start),
        runs(app, start, rows, turns, (reply, after)),
    ensures
        reply.status == OK ==> {
            let id = object_id_of(payload._id@);
            &&& has_own_label(rows, payload._id@, claims.sub@)
            &&& reply == says(OK, "Label updated!")
            &&& after == (Rows {
                labels: rows.labels.insert(
                    id,
                    Label {
                        name: payload.name,
                        color: payload.color,
                        label_type: payload.label_type,
                        updatedAt: Some(turns[0].now),
                        ..rows.labels[id]
                    },
                ),
                ..rows
            })
        },
        reply.status != OK ==> after == rows,
        unfailed(turns) ==> (reply.status == OK) == has_own_label(rows, payload._id@, claims.sub@),
{
    reveal_with_fuel(runs, 4);
}

/// A label that was deleted is gone, and nothing else is. An own label is
/// deleted unless the database failed, another one never.
pub proof fn law_deleted_label_is_gone(
    claims: Claims,
    id: &str,
    app: AppState,
    start: Step<ChangeLabel, Reply>,
    rows: Rows,
    turns: Seq<Turn<ChangeLabel>>,
    reply: Reply,
    after: Rows,
)
    requires
        call_ensures(delete, (&claims, id), start),
        runs(app, start, rows, turns, (reply, after)),
    ensures
        reply.status == OK ==> {
            &&& has_own_label(rows, id@, claims.sub@)
            &&& reply == says(OK, "Label deleted!")
            &&& after == (Rows { labels: rows.labels.remove(object_id_of(id@)), ..rows })
        },
        reply.status != OK ==> after == rows,
        unfailed(turns) ==> (reply.status == OK) == has_own_label(rows, id@, claims.sub@),
{
    reveal_with_fuel(runs, 4);
}

/// A label that was added has the name, the color and the style that were sent,
/// and belongs to the one who sent them; nothing else is changed. It is added
/// unless the database failed, and not for another user.
pub proof fn law_added_label_is_stored(
    claims: Claims,
    user: &str,
    payload: &Json,
    began: UtcTime,
    name: Seq<char>,
    color: Seq<char>,
    font: Seq<char>,
    style: Seq<char>,
    other: Seq<char>,
    app: AppState,
    start: Step<ChangeLabel, Reply>,
    rows: Rows,
    turns: Seq<Turn<ChangeLabel>>,
    reply: Reply,
    after: Rows,
)
    requires
        call_ensures(add, (&claims, user, payload, began), start),
        runs(app, start, rows, turns, (reply, after)),
        has_text_member(payload@, "name"@, name),
        has_text_member(payload@, "color"@, color),
    ensures
        reply.status == OK ==> {
            &&& claims.sub@ == user@
            &&& reply == says(OK, "Label was created!")
            &&& exists|id: crate::object_id::ObjectId|
                #![trigger rows.labels.dom().contains(id)]
                {
                    let label = after.labels[id];
                    &&& !rows.labels.dom().contains(id)
                    &&& after == (Rows { labels: rows.labels.insert(id, label), ..rows })
                    &&& label.id == Some(id)
                    &&& label.name@ == name
                    &&& label.color@ == color
                    &&& label.userId == object_id_of(user@)
                    &&& label.createdAt == Some(began)
                    &&& label.updatedAt is None
                    &&& has_text_member(payload@, "fontColor"@, font) ==> (label.fontColor matches Some(f)
                        && f@ == font)
                    &&& lacks_member(payload@, "fontColor"@) ==> label.fontColor is None
                    &&& has_text_member(payload@, "selectedStyle"@, style) ==> label.label_type@ == style
                    &&& lacks_member(payload@, "selectedStyle"@) && has_text_member(
                        payload@,
                        "type"@,
                        other,
                    ) ==> label.label_type@ == other
                }
        },
        reply.status != OK ==> after == rows,
        unfailed(turns) ==> (reply.status == OK) == (claims.sub@ == user@ && is_object_id(user@)),
{
    reveal_with_fuel(runs, 3);
    law_text_member_is_found(payload@, "name"@, name);
    law_text_member_is_found(payload@, "color"@, color);
    law_text_member_is_found(payload@, "fontColor"@, font);
    law_text_member_is_found(payload@, "selectedStyle"@, style);
    law_text_member_is_found(payload@, "type"@, other);
    if start is Ask {
        if turns[0].event is Done {
            let label = start->Ask_0->InsertLabel_0;
            let id = choose|id: crate::object_id::ObjectId|
                !(#[trigger] rows.labels.dom().contains(id)) && after.labels
                    == rows.labels.insert(id, Label { id: Some(id), ..label });
            assert(after.labels[id] == (Label { id: Some(id), ..label }));
        }
    }
}

/// Who asks for a page of own labels by its number and length gets the labels
/// that stand on it, with how many there are in all and how many pages, and
/// whether there is a page before and after it. What is searched is handed on
/// as it was sent. No row is changed, and nobody gets those of another.
pub proof fn law_page_of_labels_is_given(
    claims: Claims,
    user: &str,
    query: ViewQuery,
    page: nat,
    limit: nat,
    app: AppState,
    start: Step<ViewLabels, Reply>,
    rows: Rows,
    turns: Seq<Turn<ViewLabels>>,
    count: u64,
    docs: Vec<Label>,
    reply: Reply,
    after: Rows,
)
    requires
        call_ensures(view, (&claims, user, query), start),
        runs(app, start, rows, turns, (reply, after)),
        1 <= page,
        1 <= limit,
        page * limit <= i64::MAX,
        page <= i64::MAX,
        limit <= i64::MAX,
        count <= i64::MAX,
        query.page matches Some(p) && p@ == decimal(page),
        query.limit matches Some(l) && l@ == decimal(limit),
        start is Ask ==> turns[0].event == Event::Count(count) && turns[1].event == Event::Labels(
            docs,
        ),
    ensures
        after == rows,
        (reply.status == OK) == (claims.sub@ == user@ && is_object_id(user@)),
        reply.status == OK ==> {
            &&& start matches Step::Ask(Action::CountLabels { user: u, search }, _) && u
                == object_id_of(user@) && search@ == (match query.search {
                Some(s) => s@,
                None => Seq::empty(),
            })
            &&& turns[0].step matches Step::Ask(
                Action::LabelsPage { user: u, search, skip, limit: l },
                _,
            ) && u == object_id_of(user@) && search@ == (match query.search {
                Some(s) => s@,
                None => Seq::empty(),
            }) && skip == (page - 1) * limit && l == limit
            &&& reply.cookies is Nothing
            &&& reply.body matches Body::Labels(p)
            &&& p.docs == docs
            &&& p.totalDocs == count
            &&& p.limit == limit
            &&& p.page == page
            &&& (p.totalPages - 1) * limit < count <= p.totalPages * limit
            &&& p.hasNextPage == (page * limit < count)
            &&& p.hasPrevPage == (page > 1)
            &&& p.nextPage == (if page * limit < count {
                Some((page + 1) as i64)
            } else {
                None
            })
            &&& p.prevPage == (if page > 1 {
                Some((page - 1) as i64)
            } else {
                None
            })
        },
{
    reveal_with_fuel(runs, 4);
    law_number_reads_back(page, 1);
    law_number_reads_back(limit, 10);
    assert((page - 1) * limit <= page * limit) by (nonlinear_arith);
    crate::pagination::law_next_page_has_items(count as int, page as int, limit as int);
    let pages = crate::pagination::pages_of(count as int, limit as int);
    assert((pages - 1) * limit < count <= pages * limit) by (nonlinear_arith)
        requires
            pages == (count + limit - 1) / limit as int,
            limit >= 1,
            count >= 0,
    ;
    if start is Ask {
        assert(turns.skip(1)[0] == turns[1]);
    }
}

} // verus!
