//! What becomes of the stored devices when a request is answered, and what a
//! sweep counts.

use vstd::prelude::*;
#[allow(unused_imports)]
use vstd::string::*;

use crate::config::AppState;
#[allow(unused_imports)]
use crate::flow::{Event, Flow, PushAnswer, Step};
#[allow(unused_imports)]
use crate::handlers::push::{list, minutes_to_hhmm, subscribe, unsubscribe, vapid_key};
use crate::handlers::push::{PushFlow, SubscribeReq, Sweep, Tally};
#[allow(unused_imports)]
use crate::handlers::activity::schedule::{is_time_text, law_time_is_written, time_form};
#[allow(unused_imports)]
use crate::http::{says, Body, OK, SERVICE_UNAVAILABLE};
use crate::http::Reply;
use crate::json::Json;
#[allow(unused_imports)]
use crate::json::{has_text_member, law_text_member_is_found};
#[allow(unused_imports)]
use crate::models::PushSubscription;
#[allow(unused_imports)]
use crate::object_id::{is_object_id, object_id_of, ObjectId};
#[allow(unused_imports)]
use crate::store::{runs, unfailed, Rows, Turn};
#[allow(unused_imports)]
use crate::text::{byte_len, lowercase, trimmed};
use crate::time::UtcTime;
use crate::utils::crypto::Claims;

verus! {

/// A text begins with another.
pub open spec fn begins_with(s: Seq<char>, start: Seq<char>) -> bool {
    s.len() >= start.len() && s.take(start.len() as int) == start
}

/// A device that was subscribed is stored with its endpoint and its keys, for
/// the user who subscribed it, and no other row with its endpoint comes up;
/// nothing else is changed. Every device with an https endpoint of at most 2048
/// bytes and two keys of at most 256 bytes is subscribed by its user, where push
/// is configured and the database does not fail; no other is.
pub proof fn law_subscribed_device_is_stored(
    claims: Claims,
    app: AppState,
    user: &str,
    payload: SubscribeReq,
    began: UtcTime,
    start: Step<PushFlow, Reply>,
    rows: Rows,
    turns: Seq<Turn<PushFlow>>,
    reply: Reply,
    after: Rows,
)
    requires
        call_ensures(subscribe, (&claims, &app, user, payload, began), start),
        runs(app, start, rows, turns, (reply, after)),
    ensures
        reply.status == OK ==> {
            &&& reply == says(OK, "Device subscribed to push notifications!")
            &&& exists|id: ObjectId|
                #![trigger after.subscriptions[id]]
                {
                    let row = after.subscriptions[id];
                    &&& after == (Rows {
                        subscriptions: rows.subscriptions.insert(id, row),
                        ..rows
                    })
                    &&& row.userId == object_id_of(user@)
                    &&& row.endpoint@ == trimmed(payload.endpoint@)
                    &&& row.p256dh@ == trimmed(payload.p256dh@)
                    &&& row.auth@ == trimmed(payload.auth@)
                    &&& row.userAgent matches Some(agent) && agent@ == (match payload.user_agent {
                        Some(ua) => ua@,
                        None => Seq::empty(),
                    })
                    &&& rows.subscriptions.dom().contains(id) ==> rows.subscriptions[id].endpoint@
                        == row.endpoint@
                    &&& !rows.subscriptions.dom().contains(id) ==> forall|i: ObjectId| #[trigger]
                        rows.subscriptions.dom().contains(i) ==> rows.subscriptions[i].endpoint@
                            != row.endpoint@
                }
        },
        reply.status != OK ==> after == rows,
        unfailed(turns) ==> (reply.status == OK) == {
            &&& claims.sub@ == user@
            &&& is_object_id(user@)
            &&& app.vapid_private_key is Some
            &&& trimmed(payload.endpoint@).len() > 0
            &&& byte_len(trimmed(payload.endpoint@)) <= 2048
            &&& begins_with(lowercase(trimmed(payload.endpoint@)), "https://"@)
            &&& trimmed(payload.p256dh@).len() > 0
            &&& byte_len(payload.p256dh@) <= 256
            &&& trimmed(payload.auth@).len() > 0
            &&& byte_len(payload.auth@) <= 256
        },
{
    reveal_with_fuel(runs, 3);
    let low = lowercase(trimmed(payload.endpoint@));
    let n = "https://"@.len();
    assert(low.len() >= n ==> low.take(n as int) =~= low.subrange(0, n as int));
    if start is Ask {
        if turns[0].event is Done {
            let s = start->Ask_0->UpsertSubscription_0;
            let (id, row) = choose|id: ObjectId, row: PushSubscription| #[trigger]
                crate::store::is_upserted(rows.subscriptions, s, began, id, row) && after == (Rows {
                    subscriptions: rows.subscriptions.insert(id, row),
                    ..rows
                });
            assert(after.subscriptions[id] == row);
        }
    }
}

/// A device that was unsubscribed by its user is stored no more, and no other
/// device is touched.
pub proof fn law_unsubscribed_device_is_gone(
    claims: Claims,
    user: &str,
    payload: &Json,
    endpoint: Seq<char>,
    id: ObjectId,
    app: AppState,
    start: Step<PushFlow, Reply>,
    rows: Rows,
    turns: Seq<Turn<PushFlow>>,
    reply: Reply,
    after: Rows,
)
    requires
        call_ensures(unsubscribe, (&claims, user, payload), start),
        runs(app, start, rows, turns, (reply, after)),
        has_text_member(payload@, "endpoint"@, endpoint),
    ensures
        reply.status == OK ==> {
            &&& reply == says(OK, "Device unsubscribed!")
            &&& after.subscriptions.dom().contains(id) == (rows.subscriptions.dom().contains(id)
                && !(rows.subscriptions[id].userId == object_id_of(user@)
                && rows.subscriptions[id].endpoint@ == trimmed(endpoint)))
            &&& after.subscriptions.dom().contains(id) ==> after.subscriptions[id]
                == rows.subscriptions[id]
            &&& after == (Rows { subscriptions: after.subscriptions, ..rows })
        },
        reply.status != OK ==> after == rows,
        unfailed(turns) ==> (reply.status == OK) == (claims.sub@ == user@ && is_object_id(user@)
            && trimmed(endpoint).len() > 0),
{
    reveal_with_fuel(runs, 3);
    law_text_member_is_found(payload@, "endpoint"@, endpoint);
}

/// A user who lists the devices gets all of their own and no other, each with
/// what is stored of it but the keys. No row is changed.
pub proof fn law_devices_are_listed(
    claims: Claims,
    user: &str,
    app: AppState,
    start: Step<PushFlow, Reply>,
    rows: Rows,
    turns: Seq<Turn<PushFlow>>,
    stored: ObjectId,
    reply: Reply,
    after: Rows,
)
    requires
        call_ensures(list, (&claims, user), start),
        runs(app, start, rows, turns, (reply, after)),
    ensures
        after == rows,
        reply.status == OK ==> {
            &&& reply.cookies is Nothing
            &&& reply.body matches Body::Devices(found)
            &&& forall|i: int|
                #![trigger found@[i]]
                0 <= i < found@.len() ==> exists|id: ObjectId| #[trigger]
                    rows.subscriptions.dom().contains(id) && rows.subscriptions[id].userId
                        == object_id_of(user@) && found@[i].endpoint
                        == rows.subscriptions[id].endpoint && found@[i].userAgent
                        == rows.subscriptions[id].userAgent && found@[i].createdAt
                        == rows.subscriptions[id].createdAt && found@[i].updatedAt
                        == rows.subscriptions[id].updatedAt
            &&& rows.subscriptions.dom().contains(stored) && rows.subscriptions[stored].userId
                == object_id_of(user@) ==> exists|i: int|
                0 <= i < found@.len() && (#[trigger] found@[i]).endpoint
                    == rows.subscriptions[stored].endpoint
        },
        unfailed(turns) ==> (reply.status == OK) == (claims.sub@ == user@ && is_object_id(user@)),
{
    reveal_with_fuel(runs, 3);
    if reply.status == OK {
        let rows_of = turns[0].event->Subscriptions_0@;
        let found = reply.body->Devices_0;
        assert forall|i: int| #![trigger found@[i]] 0 <= i < found@.len() implies exists|
            id: ObjectId,
        | #[trigger]
            rows.subscriptions.dom().contains(id) && rows.subscriptions[id].userId == object_id_of(
                user@,
            ) && found@[i].endpoint == rows.subscriptions[id].endpoint && found@[i].userAgent
                == rows.subscriptions[id].userAgent && found@[i].createdAt
                == rows.subscriptions[id].createdAt && found@[i].updatedAt
                == rows.subscriptions[id].updatedAt by {
            let id = choose|id: ObjectId| #[trigger]
                rows.subscriptions.dom().contains(id) && rows.subscriptions[id] == rows_of[i];
            assert(rows.subscriptions.dom().contains(id));
        }
        if rows.subscriptions.dom().contains(stored) && rows.subscriptions[stored].userId
            == object_id_of(user@) {
            assert(rows_of.contains(rows.subscriptions[stored]));
            let i = choose|i: int|
                0 <= i < rows_of.len() && rows_of[i] == rows.subscriptions[stored];
            assert(found@[i].endpoint == rows.subscriptions[stored].endpoint);
        }
    }
}

/// The configured public key is given to browsers, where there is one.
pub proof fn law_public_key_is_given(app: AppState, r: Reply)
    requires
        call_ensures(vapid_key, (&app,), r),
    ensures
        match app.vapid_public_key {
            Some(key) => r.status == OK && r.cookies is Nothing && r.body == Body::VapidKey(key),
            None => r.status == SERVICE_UNAVAILABLE,
        },
{
}

/// Minutes of a day are written as the two digits of the hours and the two
/// digits of the minutes.
pub proof fn law_minutes_are_written(minutes: i32, r: String)
    requires
        call_ensures(minutes_to_hhmm, (minutes,), r),
        0 <= minutes < 1440,
    ensures
        is_time_text(r@, minutes as int / 60, minutes as int % 60),
{
    let m = minutes as int;
    law_time_is_written(m / 60, m % 60, time_form(m / 60, m % 60));
}

/// What a waiting sweep has counted.
pub open spec fn tally_of(flow: Sweep) -> Tally {
    match flow {
        Sweep::Open { .. } => Tally { checked: 0, pushed: 0 },
        Sweep::Next { tally, .. } => tally,
        Sweep::Claim { tally, .. } => tally,
        Sweep::Devices { tally, .. } => tally,
        Sweep::Push { tally, .. } => tally,
        Sweep::Prune { tally, .. } => tally,
    }
}

/// A waiting sweep has notified a device of the activity at hand.
pub open spec fn has_notified(flow: Sweep) -> bool {
    match flow {
        Sweep::Push { any_sent, .. } => any_sent,
        Sweep::Prune { any_sent, .. } => any_sent,
        _ => false,
    }
}

/// A push service took a notification, or says that the subscription is gone.
pub open spec fn is_taken(event: Event) -> bool {
    event matches Event::Pushed(PushAnswer::Status(s)) && (200 <= s <= 299 || s == 404 || s == 410)
}

/// A sweep counts every activity that it is given, once, and as pushed those of
/// which a push service took a notification for some device. It ends with what
/// it counted.
pub proof fn law_sweep_counts(
    flow: Sweep,
    app: AppState,
    event: Event,
    now: UtcTime,
    r: Step<Sweep, Reply>,
)
    requires
        call_ensures(<Sweep as Flow>::resume, (flow, &app, event, now), r),
        tally_of(flow).checked < u32::MAX,
        tally_of(flow).pushed < u32::MAX,
        flow matches Sweep::Push { devices, .. } ==> devices@.len() > 0,
    ensures
        ({
            let (t, sent) = (
                tally_of(flow),
                has_notified(flow) || (flow is Push && is_taken(event)),
            );
            match r {
                Step::Ask(_, after) => {
                    let u = tally_of(after);
                    &&& u.checked == t.checked + (if flow is Next {
                        1int
                    } else {
                        0
                    })
                    &&& u.pushed == t.pushed + (if after is Next && sent {
                        1int
                    } else {
                        0
                    })
                    &&& after is Push || after is Prune ==> has_notified(after) == sent
                },
                Step::Done(reply) => reply.status == OK ==> flow is Next && reply.body
                    == (Body::PushSweep { checked: t.checked, pushed: t.pushed }),
            }
        }),
        flow is Next && event == Event::Activity(None) ==> r is Done && r->Done_0.status == OK,
{
}

} // verus!
