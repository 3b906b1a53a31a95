//! Which notes are shown.

use vstd::prelude::*;

use crate::config::AppState;
#[allow(unused_imports)]
use crate::flow::{Event, Flow, Step};
#[allow(unused_imports)]
use crate::handlers::note::pages::{by_date, view, NotesQuery, ViewNotes};
#[allow(unused_imports)]
use crate::handlers::note::stored::{answers, is_match, law_view_gives_the_page, lemma_notes_of, notes_of};
#[allow(unused_imports)]
use crate::http::{Body, NotePage, Reply, OK};
use crate::models::{Label, Note};
#[allow(unused_imports)]
use crate::numbers::decimal;
use crate::object_id::ObjectId;
#[allow(unused_imports)]
use crate::pagination::{law_next_page_has_items, law_number_reads_back, page_of, pages_of};
#[allow(unused_imports)]
use crate::text::{contains_text, lowercase};
use crate::time::UtcTime;
use crate::utils::crypto::Claims;

verus! {

/// `after` follows `before` once the stored notes have answered.
pub open spec fn goes_on(
    app: AppState,
    rows: Seq<Note>,
    before: Step<ViewNotes, Reply>,
    event: Event,
    now: UtcTime,
    after: Step<ViewNotes, Reply>,
) -> bool {
    before matches Step::Ask(action, state) && answers(rows, action, event) && call_ensures(
        <ViewNotes as Flow>::resume,
        (state, &app, event, now),
        after,
    )
}

/// A text is missing, or writes the number.
pub open spec fn writes(text: Option<String>, n: int, other: int) -> bool {
    match text {
        Some(s) => n >= 1 && s@ == decimal(n as nat),
        None => n == other,
    }
}

/// `page` is page `n` of `all`, with `limit` on a page.
pub open spec fn is_part(page: NotePage, all: Seq<Note>, n: int, limit: int) -> bool {
    let to = if n * limit <= all.len() {
        n * limit
    } else {
        all.len() as int
    };
    &&& (n - 1) * limit <= all.len() ==> page.docs@ == all.subrange((n - 1) * limit, to)
    &&& (n - 1) * limit > all.len() ==> page.docs@.len() == 0
    &&& page.totalDocs == all.len()
    &&& page.hasNextPage == (n * limit < all.len())
    &&& (page.totalPages - 1) * limit < all.len() <= page.totalPages * limit || (all.len() == 0
        && page.totalPages == 0)
}

proof fn lemma_part(page: NotePage, all: Seq<Note>, n: int, limit: int)
    requires
        1 <= n <= i64::MAX,
        1 <= limit <= i64::MAX,
        n * limit <= i64::MAX,
        all.len() <= i64::MAX,
        crate::handlers::note::pages::is_page(
            page,
            page_of(all, n, limit),
            all.len() as int,
            n,
            limit,
        ),
    ensures
        is_part(page, all, n, limit),
{
    let total = all.len() as int;
    law_next_page_has_items(total, n, limit);
    assert((n - 1) * limit <= n * limit && (n - 1) * limit + limit == n * limit) by (nonlinear_arith)
        requires
            limit >= 1,
    ;
    let p = pages_of(total, limit);
    assert((p - 1) * limit < total <= p * limit || (total == 0 && p == 0)) by (nonlinear_arith)
        requires
            p == (total + limit - 1) / limit,
            total >= 0,
            limit >= 1,
    ;
    if (n - 1) * limit > total {
        assert(page_of(all, n, limit).len() == 0);
    }
}

/// An author who asks for a page of their notes gets that page of those that are
/// not pinned, ten on a page unless they ask for another number, and the page
/// that they ask for of the pinned ones, ten on a page.
pub proof fn law_asked_page_is_given(
    app: AppState,
    now: UtcTime,
    rows: Seq<Note>,
    claims: Claims,
    page: &str,
    author: String,
    query: NotesQuery,
    steps: Seq<Step<ViewNotes, Reply>>,
    events: Seq<Event>,
    n: nat,
    limit: int,
    pinned_page: int,
)
    requires
        rows.len() <= i64::MAX,
        claims.sub@ == author@,
        author@.len() > 0,
        1 <= n <= i64::MAX,
        1 <= limit <= i64::MAX,
        n * limit <= i64::MAX,
        1 <= pinned_page,
        pinned_page * 10 <= i64::MAX,
        page@ == decimal(n),
        writes(query.limit, limit, 10),
        writes(query.pinnedNotesPage, pinned_page, 1),
        query.search is None || query.search->0@.len() == 0,
        call_ensures(view, (&claims, page, author, query), steps[0]),
        steps.len() == 5,
        goes_on(app, rows, steps[0], events[0], now, steps[1]),
        goes_on(app, rows, steps[1], events[1], now, steps[2]),
        goes_on(app, rows, steps[2], events[2], now, steps[3]),
        goes_on(app, rows, steps[3], events[3], now, steps[4]),
    ensures
        steps[4] matches Step::Done(reply) && reply.status == OK && (reply.body matches Body::Notes {
            notes,
            pinned: Some(pinned),
        } && is_part(notes, by_date(notes_of(rows, author@, false)), n as int, limit) && is_part(
            pinned,
            by_date(notes_of(rows, author@, true)),
            pinned_page,
            10,
        )),
{
    law_number_reads_back(n, 1);
    law_number_reads_back(limit as nat, 10);
    law_number_reads_back(pinned_page as nat, 1);
    let free = notes_of(rows, author@, false);
    let fixed = notes_of(rows, author@, true);
    lemma_notes_of(rows, author@, false);
    lemma_notes_of(rows, author@, true);
    assert(decimal(n).len() > 0);
    law_view_gives_the_page(rows, claims, page@, author@, query, steps, events);
    let reply = steps[4]->Done_0;
    let notes = reply.body->notes;
    let pinned = reply.body->Notes_pinned->0;
    lemma_part(notes, by_date(free), n as int, limit);
    lemma_part(pinned, by_date(fixed), pinned_page, 10);
}

/// A note is found by what its name holds, by what its body holds and by what
/// the name of one of its labels holds, the case aside, and by nothing else.
pub proof fn law_search_looks_everywhere(
    labels: Map<ObjectId, Label>,
    note: Note,
    search: Seq<char>,
)
    ensures
        note.name matches Some(s) ==> contains_text(lowercase(s@), lowercase(search)) ==> is_match(
            labels,
            note,
            search,
        ),
        note.body matches Some(s) ==> contains_text(lowercase(s@), lowercase(search)) ==> is_match(
            labels,
            note,
            search,
        ),
        note.labels matches Some(ids) ==> forall|k: int|
            0 <= k < ids@.len() && labels.dom().contains(#[trigger] ids@[k]) && contains_text(
                lowercase(labels[ids@[k]].name@),
                lowercase(search),
            ) ==> is_match(labels, note, search),
        is_match(labels, note, search) ==> {
            ||| note.name matches Some(s) && contains_text(lowercase(s@), lowercase(search))
            ||| note.body matches Some(s) && contains_text(lowercase(s@), lowercase(search))
            ||| note.labels matches Some(ids) && exists|k: int|
                0 <= k < ids@.len() && labels.dom().contains(#[trigger] ids@[k]) && contains_text(
                    lowercase(labels[ids@[k]].name@),
                    lowercase(search),
                )
        },
{
    if let Some(ids) = note.labels {
        assert forall|k: int|
            0 <= k < ids@.len() && labels.dom().contains(#[trigger] ids@[k]) && contains_text(
                lowercase(labels[ids@[k]].name@),
                lowercase(search),
            ) implies is_match(labels, note, search) by {
            assert(crate::handlers::note::stored::label_holds(labels, note, k, search));
        }
    }
}

} // verus!
