//! What follows a failure of the database.

use vstd::prelude::*;

use crate::config::AppState;
#[allow(unused_imports)]
use crate::flow::{Event, Flow, Step};
#[allow(unused_imports)]
use crate::handlers::activity::ActivityFlow;
#[allow(unused_imports)]
use crate::handlers::label::{ChangeLabel, ViewLabels};
#[allow(unused_imports)]
use crate::handlers::note::pages::ViewNotes;
#[allow(unused_imports)]
use crate::handlers::note::{AddNote, ChangeNote, GetNote};
#[allow(unused_imports)]
use crate::handlers::passkey::authenticate::{AuthFinish, AuthStart};
#[allow(unused_imports)]
use crate::handlers::passkey::register::{RegisterFinish, RegisterStart};
#[allow(unused_imports)]
use crate::handlers::passkey::{ListPasskeys, RemovePasskey};
#[allow(unused_imports)]
use crate::handlers::push::PushFlow;
#[allow(unused_imports)]
use crate::handlers::session::SessionFlow;
#[allow(unused_imports)]
use crate::handlers::user::account::{ConvertGoogle, ConvertNormal, VerifyPassword, VerifyToken};
#[allow(unused_imports)]
use crate::handlers::user::recovery::{ChangePassword, FindCode, VerifyOtp};
#[allow(unused_imports)]
use crate::handlers::user::settings::{ChangeSetting, LastOpened};
#[allow(unused_imports)]
use crate::handlers::user::sign_in::{GoogleLogin, SignIn, SignUp};
#[allow(unused_imports)]
use crate::handlers::user::tfa::{GenerateTfa, RemoveTfa, VerifyTfa};
#[allow(unused_imports)]
use crate::http::Reply;
use crate::time::UtcTime;

verus! {

/// The caller is told of a failure, and is given no session.
pub open spec fn tells_failure<S>(r: Step<S, Reply>) -> bool {
    r matches Step::Done(reply) && reply.status >= 400 && reply.cookies is Nothing
}

/// Where the database fails, no reply says that a note was read or changed. Only
/// a label that cannot be looked up is passed over.
pub proof fn law_failed_notes_are_told(
    app: AppState,
    now: UtcTime,
    change: (ChangeNote, Step<ChangeNote, Reply>),
    add: (AddNote, Step<AddNote, Reply>),
    get: (GetNote, Step<GetNote, Reply>),
    view: (ViewNotes, Step<ViewNotes, Reply>),
)
    requires
        call_ensures(<ChangeNote as Flow>::resume, (change.0, &app, Event::Failed, now), change.1),
        call_ensures(<AddNote as Flow>::resume, (add.0, &app, Event::Failed, now), add.1),
        call_ensures(<GetNote as Flow>::resume, (get.0, &app, Event::Failed, now), get.1),
        call_ensures(<ViewNotes as Flow>::resume, (view.0, &app, Event::Failed, now), view.1),
        !(view.0 is Label),
        !(get.0 is Labels),
    ensures
        tells_failure(change.1),
        tells_failure(add.1),
        tells_failure(get.1),
        tells_failure(view.1),
{
}

/// Where the database fails, no reply says that a label, an activity or a device
/// was read or changed.
pub proof fn law_failed_lists_are_told(
    app: AppState,
    now: UtcTime,
    label: (ChangeLabel, Step<ChangeLabel, Reply>),
    labels: (ViewLabels, Step<ViewLabels, Reply>),
    activity: (ActivityFlow, Step<ActivityFlow, Reply>),
    device: (PushFlow, Step<PushFlow, Reply>),
    session: (SessionFlow, Step<SessionFlow, Reply>),
    passkeys: (ListPasskeys, Step<ListPasskeys, Reply>),
    passkey: (RemovePasskey, Step<RemovePasskey, Reply>),
)
    requires
        call_ensures(<ChangeLabel as Flow>::resume, (label.0, &app, Event::Failed, now), label.1),
        call_ensures(<ViewLabels as Flow>::resume, (labels.0, &app, Event::Failed, now), labels.1),
        call_ensures(
            <ActivityFlow as Flow>::resume,
            (activity.0, &app, Event::Failed, now),
            activity.1,
        ),
        call_ensures(<PushFlow as Flow>::resume, (device.0, &app, Event::Failed, now), device.1),
        call_ensures(
            <SessionFlow as Flow>::resume,
            (session.0, &app, Event::Failed, now),
            session.1,
        ),
        call_ensures(
            <ListPasskeys as Flow>::resume,
            (passkeys.0, &app, Event::Failed, now),
            passkeys.1,
        ),
        call_ensures(
            <RemovePasskey as Flow>::resume,
            (passkey.0, &app, Event::Failed, now),
            passkey.1,
        ),
    ensures
        tells_failure(label.1),
        tells_failure(labels.1),
        tells_failure(activity.1),
        tells_failure(device.1),
        tells_failure(session.1),
        tells_failure(passkeys.1),
        tells_failure(passkey.1),
{
}

/// Where the database fails, no reply says that an account was created, checked
/// or changed.
pub proof fn law_failed_accounts_are_told(
    app: AppState,
    now: UtcTime,
    up: (SignUp, Step<SignUp, Reply>),
    token: (VerifyToken, Step<VerifyToken, Reply>),
    check: (VerifyPassword, Step<VerifyPassword, Reply>),
    normal: (ConvertNormal, Step<ConvertNormal, Reply>),
    setting: (ChangeSetting, Step<ChangeSetting, Reply>),
    last: (LastOpened, Step<LastOpened, Reply>),
)
    requires
        call_ensures(<SignUp as Flow>::resume, (up.0, &app, Event::Failed, now), up.1),
        call_ensures(<VerifyToken as Flow>::resume, (token.0, &app, Event::Failed, now), token.1),
        call_ensures(
            <VerifyPassword as Flow>::resume,
            (check.0, &app, Event::Failed, now),
            check.1,
        ),
        call_ensures(
            <ConvertNormal as Flow>::resume,
            (normal.0, &app, Event::Failed, now),
            normal.1,
        ),
        call_ensures(
            <ChangeSetting as Flow>::resume,
            (setting.0, &app, Event::Failed, now),
            setting.1,
        ),
        call_ensures(<LastOpened as Flow>::resume, (last.0, &app, Event::Failed, now), last.1),
    ensures
        tells_failure(up.1),
        tells_failure(token.1),
        tells_failure(check.1),
        tells_failure(normal.1),
        tells_failure(setting.1),
        tells_failure(last.1),
{
}

/// Where the database fails, nobody is signed in, and no reply says that a code
/// was sent or accepted, a password changed, or a second factor or a passkey
/// registered or removed. A second factor that cannot be looked up is taken for
/// none, a session for none, and old codes stay; the mail relay and the place of
/// a client are not asked of the database.
pub proof fn law_failed_factors_are_told(
    app: AppState,
    now: UtcTime,
    login: (SignIn, Step<SignIn, Reply>),
    google: (GoogleLogin, Step<GoogleLogin, Reply>),
    factor: (VerifyTfa, Step<VerifyTfa, Reply>),
    find: (FindCode, Step<FindCode, Reply>),
    otp: (VerifyOtp, Step<VerifyOtp, Reply>),
    password: (ChangePassword, Step<ChangePassword, Reply>),
    remove: (RemoveTfa, Step<RemoveTfa, Reply>),
    enrol: (GenerateTfa, Step<GenerateTfa, Reply>),
    link: (ConvertGoogle, Step<ConvertGoogle, Reply>),
    begin: (AuthStart, Step<AuthStart, Reply>),
    finish: (AuthFinish, Step<AuthFinish, Reply>),
    register: (RegisterStart, Step<RegisterStart, Reply>),
    registered: (RegisterFinish, Step<RegisterFinish, Reply>),
)
    requires
        call_ensures(<SignIn as Flow>::resume, (login.0, &app, Event::Failed, now), login.1),
        call_ensures(<GoogleLogin as Flow>::resume, (google.0, &app, Event::Failed, now), google.1),
        call_ensures(<VerifyTfa as Flow>::resume, (factor.0, &app, Event::Failed, now), factor.1),
        call_ensures(<FindCode as Flow>::resume, (find.0, &app, Event::Failed, now), find.1),
        call_ensures(<VerifyOtp as Flow>::resume, (otp.0, &app, Event::Failed, now), otp.1),
        call_ensures(<ChangePassword as Flow>::resume, (password.0, &app, Event::Failed, now), password.1),
        call_ensures(<RemoveTfa as Flow>::resume, (remove.0, &app, Event::Failed, now), remove.1),
        call_ensures(<GenerateTfa as Flow>::resume, (enrol.0, &app, Event::Failed, now), enrol.1),
        call_ensures(<ConvertGoogle as Flow>::resume, (link.0, &app, Event::Failed, now), link.1),
        call_ensures(<AuthStart as Flow>::resume, (begin.0, &app, Event::Failed, now), begin.1),
        call_ensures(<AuthFinish as Flow>::resume, (finish.0, &app, Event::Failed, now), finish.1),
        call_ensures(<RegisterStart as Flow>::resume, (register.0, &app, Event::Failed, now), register.1),
        call_ensures(<RegisterFinish as Flow>::resume, (registered.0, &app, Event::Failed, now), registered.1),
        !(login.0 is Geo) && !(login.0 is Tfa),
        !(google.0 is Geo) && !(google.0 is Tfa),
        !(factor.0 is Geo),
        !(find.0 is Tfa) && !(find.0 is Cleanup) && !(find.0 is Relay) && !(find.0 is Send),
        !(password.0 is Owner),
        !(remove.0 is Owner),
        !(finish.0 is Geo),
    ensures
        tells_failure(login.1),
        tells_failure(google.1),
        tells_failure(factor.1),
        tells_failure(find.1),
        tells_failure(otp.1),
        tells_failure(password.1),
        tells_failure(remove.1),
        tells_failure(enrol.1),
        tells_failure(link.1),
        tells_failure(begin.1),
        tells_failure(finish.1),
        tells_failure(register.1),
        tells_failure(registered.1),
{
}

} // verus!
