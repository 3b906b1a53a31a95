//! The routes of the server, and who may call across origins.

use vstd::prelude::*;

verus! {

/// A request method that routes answer.
#[derive(Clone, Copy, Debug, PartialEq, Eq, Structural)]
pub enum Verb {
    Get,
    Post,
    Patch,
    Delete,
}

/// What the server offers.
#[derive(Clone, Copy, Debug, PartialEq, Eq, Structural)]
pub enum Endpoint {
    // Open to everyone; some of them check a token, a code or a secret themselves.
    SignUp,
    SignIn,
    GoogleLogin,
    VerifyOtp,
    RemoveTfa,
    VerifyTfa,
    FindUser,
    ChangePassword,
    PasskeyAuthStart,
    PasskeyAuthFinish,
    VerifyToken,
    VapidKey,
    CronPushDue,
    CronPushDuePosted,
    Running,
    // For the owner of a session.
    SignOut,
    VerifyUser,
    TfaQrCode,
    PasskeyRegisterStart,
    PasskeyRegisterFinish,
    PasskeyList,
    PasskeyRemove,
    ConvertIntoNormal,
    ConvertIntoGoogle,
    LastOpenedNote,
    ChangeTheme,
    NoteTextExpanded,
    ShowPinnedInFolder,
    ChangeVisualization,
    OnLoginGoToLast,
    ChangeGlobalBg,
    SessionView,
    SessionDelete,
    SessionDeleteAll,
    NoteAdd,
    NoteEdit,
    NoteGet,
    NoteDelete,
    NoteView,
    NoteAddLabel,
    NoteRename,
    NotePin,
    NoteChangeImage,
    NoteDeleteLabel,
    NoteDeleteAllLabels,
    NoteChangeBg,
    LabelView,
    LabelAdd,
    LabelEdit,
    LabelDelete,
    ActivityView,
    ActivityAdd,
    ActivityEdit,
    ActivityToggle,
    ActivityTriggered,
    ActivityDelete,
    ActivityLinkNote,
    ActivityUnlinkNote,
    ActivityComplete,
    ActivitySeen,
    ActivityProgress,
    PushSubscribe,
    PushUnsubscribe,
    PushList,
}

/// How an endpoint is reached. A part of the path in braces stands for one
/// segment.
#[derive(Clone, Copy, Debug)]
pub struct Route {
    pub verb: Verb,
    pub path: &'static str,
    /// The request needs a live session before it is looked at.
    pub needs_session: bool,
}

pub open spec fn open_route(verb: Verb, path: &'static str) -> Route {
    Route { verb, path, needs_session: false }
}

pub open spec fn session_route(verb: Verb, path: &'static str) -> Route {
    Route { verb, path, needs_session: true }
}

fn open_to_all(verb: Verb, path: &'static str) -> (r: Route)
    ensures
        r == open_route(verb, path),
{
    Route { verb, path, needs_session: false }
}

fn with_session(verb: Verb, path: &'static str) -> (r: Route)
    ensures
        r == session_route(verb, path),
{
    Route { verb, path, needs_session: true }
}

impl Endpoint {
    /// Where this endpoint is.
    pub open spec fn at(self) -> Route {
        match self {
            Endpoint::SignUp => open_route(Verb::Post, "/sign-up"),
            Endpoint::SignIn => open_route(Verb::Post, "/sign-in"),
            Endpoint::GoogleLogin => open_route(Verb::Post, "/sign-in/google"),
            Endpoint::VerifyOtp => open_route(Verb::Post, "/verify-otp"),
            Endpoint::RemoveTfa => open_route(Verb::Post, "/2fa/remove"),
            Endpoint::VerifyTfa => open_route(Verb::Post, "/2fa/verify"),
            Endpoint::FindUser => open_route(Verb::Post, "/find-user"),
            Endpoint::ChangePassword => open_route(Verb::Patch, "/change-pass"),
            Endpoint::PasskeyAuthStart => open_route(Verb::Post, "/passkeys/auth/start"),
            Endpoint::PasskeyAuthFinish => open_route(Verb::Post, "/passkeys/auth/finish"),
            Endpoint::VerifyToken => open_route(Verb::Post, "/verify-token"),
            Endpoint::VapidKey => open_route(Verb::Get, "/push/vapid-key"),
            Endpoint::CronPushDue => open_route(Verb::Get, "/cron/push-due"),
            Endpoint::CronPushDuePosted => open_route(Verb::Post, "/cron/push-due"),
            Endpoint::Running => open_route(Verb::Get, "/"),
            Endpoint::SignOut => session_route(Verb::Post, "/sign-out"),
            Endpoint::VerifyUser => session_route(Verb::Post, "/verify-user"),
            Endpoint::TfaQrCode => session_route(Verb::Post, "/2fa/qrcode"),
            Endpoint::PasskeyRegisterStart => session_route(Verb::Post, "/passkeys/register/start"),
            Endpoint::PasskeyRegisterFinish => session_route(
                Verb::Post,
                "/passkeys/register/finish",
            ),
            Endpoint::PasskeyList => session_route(Verb::Get, "/passkeys"),
            Endpoint::PasskeyRemove => session_route(Verb::Delete, "/passkeys/{credId}"),
            Endpoint::ConvertIntoNormal => session_route(Verb::Patch, "/convert/account/email"),
            Endpoint::ConvertIntoGoogle => session_route(Verb::Patch, "/convert/account/google"),
            Endpoint::LastOpenedNote => session_route(Verb::Patch, "/lastOpenedNote/{id}"),
            Endpoint::ChangeTheme => session_route(Verb::Patch, "/settings/change-theme/{id}"),
            Endpoint::NoteTextExpanded => session_route(Verb::Post, "/settings/note-text/{id}"),
            Endpoint::ShowPinnedInFolder => session_route(
                Verb::Post,
                "/settings/pin-notes-folder/{id}",
            ),
            Endpoint::ChangeVisualization => session_route(
                Verb::Patch,
                "/settings/note-visualization/{id}",
            ),
            Endpoint::OnLoginGoToLast => session_route(
                Verb::Patch,
                "/settings/onLoginGoToLastOpenedNote/{id}",
            ),
            Endpoint::ChangeGlobalBg => session_route(
                Verb::Patch,
                "/settings/global-note-background-color/{id}",
            ),
            Endpoint::SessionView => session_route(Verb::Get, "/get/sessions/{userId}"),
            Endpoint::SessionDelete => session_route(
                Verb::Delete,
                "/delete/session/{userId}/{sessionId}",
            ),
            Endpoint::SessionDeleteAll => session_route(
                Verb::Delete,
                "/delete/all/sessions/{userId}",
            ),
            Endpoint::NoteAdd => session_route(Verb::Post, "/add"),
            Endpoint::NoteEdit => session_route(Verb::Patch, "/edit"),
            Endpoint::NoteGet => session_route(Verb::Get, "/note/{id}"),
            Endpoint::NoteDelete => session_route(Verb::Delete, "/delete/{id}"),
            Endpoint::NoteView => session_route(Verb::Get, "/notes/{page}/{author}"),
            Endpoint::NoteAddLabel => session_route(Verb::Post, "/note/add/label"),
            Endpoint::NoteRename => session_route(Verb::Post, "/note/rename/{id}"),
            Endpoint::NotePin => session_route(Verb::Post, "/note/pin-note/{noteId}"),
            Endpoint::NoteChangeImage => session_route(Verb::Post, "/note/image/{noteId}"),
            Endpoint::NoteDeleteLabel => session_route(
                Verb::Delete,
                "/note/delete/label/{id}/{noteId}",
            ),
            Endpoint::NoteDeleteAllLabels => session_route(
                Verb::Delete,
                "/note/delete-all/label/{noteId}",
            ),
            Endpoint::NoteChangeBg => session_route(
                Verb::Patch,
                "/settings/note-background-color/{noteId}",
            ),
            Endpoint::LabelView => session_route(Verb::Get, "/labels/{userId}"),
            Endpoint::LabelAdd => session_route(Verb::Post, "/label/add/{userId}"),
            Endpoint::LabelEdit => session_route(Verb::Patch, "/label/edit/{userId}"),
            Endpoint::LabelDelete => session_route(Verb::Delete, "/label/delete/{id}"),
            Endpoint::ActivityView => session_route(Verb::Get, "/activities/{userId}"),
            Endpoint::ActivityAdd => session_route(Verb::Post, "/activity/add/{userId}"),
            Endpoint::ActivityEdit => session_route(Verb::Patch, "/activity/edit/{userId}"),
            Endpoint::ActivityToggle => session_route(Verb::Post, "/activity/toggle/{id}"),
            Endpoint::ActivityTriggered => session_route(Verb::Post, "/activity/triggered/{id}"),
            Endpoint::ActivityDelete => session_route(Verb::Delete, "/activity/delete/{id}"),
            Endpoint::ActivityLinkNote => session_route(Verb::Post, "/activity/link-note/{id}"),
            Endpoint::ActivityUnlinkNote => session_route(Verb::Post, "/activity/unlink-note/{id}"),
            Endpoint::ActivityComplete => session_route(Verb::Post, "/activity/complete/{id}"),
            Endpoint::ActivitySeen => session_route(Verb::Post, "/activity/seen/{id}"),
            Endpoint::ActivityProgress => session_route(Verb::Get, "/activity/progress/{id}"),
            Endpoint::PushSubscribe => session_route(Verb::Post, "/push/subscribe/{userId}"),
            Endpoint::PushUnsubscribe => session_route(Verb::Post, "/push/unsubscribe/{userId}"),
            Endpoint::PushList => session_route(Verb::Get, "/push/subscriptions/{userId}"),
        }
    }

    /// Where this endpoint is.
    pub fn route(&self) -> (r: Route)
        ensures
            r == self.at(),
    {
        match self {
            Endpoint::SignUp => open_to_all(Verb::Post, "/sign-up"),
            Endpoint::SignIn => open_to_all(Verb::Post, "/sign-in"),
            Endpoint::GoogleLogin => open_to_all(Verb::Post, "/sign-in/google"),
            Endpoint::VerifyOtp => open_to_all(Verb::Post, "/verify-otp"),
            Endpoint::RemoveTfa => open_to_all(Verb::Post, "/2fa/remove"),
            Endpoint::VerifyTfa => open_to_all(Verb::Post, "/2fa/verify"),
            Endpoint::FindUser => open_to_all(Verb::Post, "/find-user"),
            Endpoint::ChangePassword => open_to_all(Verb::Patch, "/change-pass"),
            Endpoint::PasskeyAuthStart => open_to_all(Verb::Post, "/passkeys/auth/start"),
            Endpoint::PasskeyAuthFinish => open_to_all(Verb::Post, "/passkeys/auth/finish"),
            Endpoint::VerifyToken => open_to_all(Verb::Post, "/verify-token"),
            Endpoint::VapidKey => open_to_all(Verb::Get, "/push/vapid-key"),
            Endpoint::CronPushDue => open_to_all(Verb::Get, "/cron/push-due"),
            Endpoint::CronPushDuePosted => open_to_all(Verb::Post, "/cron/push-due"),
            Endpoint::Running => open_to_all(Verb::Get, "/"),
            Endpoint::SignOut => with_session(Verb::Post, "/sign-out"),
            Endpoint::VerifyUser => with_session(Verb::Post, "/verify-user"),
            Endpoint::TfaQrCode => with_session(Verb::Post, "/2fa/qrcode"),
            Endpoint::PasskeyRegisterStart => with_session(Verb::Post, "/passkeys/register/start"),
            Endpoint::PasskeyRegisterFinish => with_session(
                Verb::Post,
                "/passkeys/register/finish",
            ),
            Endpoint::PasskeyList => with_session(Verb::Get, "/passkeys"),
            Endpoint::PasskeyRemove => with_session(Verb::Delete, "/passkeys/{credId}"),
            Endpoint::ConvertIntoNormal => with_session(Verb::Patch, "/convert/account/email"),
            Endpoint::ConvertIntoGoogle => with_session(Verb::Patch, "/convert/account/google"),
            Endpoint::LastOpenedNote => with_session(Verb::Patch, "/lastOpenedNote/{id}"),
            Endpoint::ChangeTheme => with_session(Verb::Patch, "/settings/change-theme/{id}"),
            Endpoint::NoteTextExpanded => with_session(Verb::Post, "/settings/note-text/{id}"),
            Endpoint::ShowPinnedInFolder => with_session(
                Verb::Post,
                "/settings/pin-notes-folder/{id}",
            ),
            Endpoint::ChangeVisualization => with_session(
                Verb::Patch,
                "/settings/note-visualization/{id}",
            ),
            Endpoint::OnLoginGoToLast => with_session(
                Verb::Patch,
                "/settings/onLoginGoToLastOpenedNote/{id}",
            ),
            Endpoint::ChangeGlobalBg => with_session(
                Verb::Patch,
                "/settings/global-note-background-color/{id}",
            ),
            Endpoint::SessionView => with_session(Verb::Get, "/get/sessions/{userId}"),
            Endpoint::SessionDelete => with_session(
                Verb::Delete,
                "/delete/session/{userId}/{sessionId}",
            ),
            Endpoint::SessionDeleteAll => with_session(
                Verb::Delete,
                "/delete/all/sessions/{userId}",
            ),
            Endpoint::NoteAdd => with_session(Verb::Post, "/add"),
            Endpoint::NoteEdit => with_session(Verb::Patch, "/edit"),
            Endpoint::NoteGet => with_session(Verb::Get, "/note/{id}"),
            Endpoint::NoteDelete => with_session(Verb::Delete, "/delete/{id}"),
            Endpoint::NoteView => with_session(Verb::Get, "/notes/{page}/{author}"),
            Endpoint::NoteAddLabel => with_session(Verb::Post, "/note/add/label"),
            Endpoint::NoteRename => with_session(Verb::Post, "/note/rename/{id}"),
            Endpoint::NotePin => with_session(Verb::Post, "/note/pin-note/{noteId}"),
            Endpoint::NoteChangeImage => with_session(Verb::Post, "/note/image/{noteId}"),
            Endpoint::NoteDeleteLabel => with_session(
                Verb::Delete,
                "/note/delete/label/{id}/{noteId}",
            ),
            Endpoint::NoteDeleteAllLabels => with_session(
                Verb::Delete,
                "/note/delete-all/label/{noteId}",
            ),
            Endpoint::NoteChangeBg => with_session(
                Verb::Patch,
                "/settings/note-background-color/{noteId}",
            ),
            Endpoint::LabelView => with_session(Verb::Get, "/labels/{userId}"),
            Endpoint::LabelAdd => with_session(Verb::Post, "/label/add/{userId}"),
            Endpoint::LabelEdit => with_session(Verb::Patch, "/label/edit/{userId}"),
            Endpoint::LabelDelete => with_session(Verb::Delete, "/label/delete/{id}"),
            Endpoint::ActivityView => with_session(Verb::Get, "/activities/{userId}"),
            Endpoint::ActivityAdd => with_session(Verb::Post, "/activity/add/{userId}"),
            Endpoint::ActivityEdit => with_session(Verb::Patch, "/activity/edit/{userId}"),
            Endpoint::ActivityToggle => with_session(Verb::Post, "/activity/toggle/{id}"),
            Endpoint::ActivityTriggered => with_session(Verb::Post, "/activity/triggered/{id}"),
            Endpoint::ActivityDelete => with_session(Verb::Delete, "/activity/delete/{id}"),
            Endpoint::ActivityLinkNote => with_session(Verb::Post, "/activity/link-note/{id}"),
            Endpoint::ActivityUnlinkNote => with_session(Verb::Post, "/activity/unlink-note/{id}"),
            Endpoint::ActivityComplete => with_session(Verb::Post, "/activity/complete/{id}"),
            Endpoint::ActivitySeen => with_session(Verb::Post, "/activity/seen/{id}"),
            Endpoint::ActivityProgress => with_session(Verb::Get, "/activity/progress/{id}"),
            Endpoint::PushSubscribe => with_session(Verb::Post, "/push/subscribe/{userId}"),
            Endpoint::PushUnsubscribe => with_session(Verb::Post, "/push/unsubscribe/{userId}"),
            Endpoint::PushList => with_session(Verb::Get, "/push/subscriptions/{userId}"),
        }
    }

    /// The place of this endpoint among all.
    pub open spec fn place(self) -> int {
        match self {
            Endpoint::SignUp => 0,
            Endpoint::SignIn => 1,
            Endpoint::GoogleLogin => 2,
            Endpoint::VerifyOtp => 3,
            Endpoint::RemoveTfa => 4,
            Endpoint::VerifyTfa => 5,
            Endpoint::FindUser => 6,
            Endpoint::ChangePassword => 7,
            Endpoint::PasskeyAuthStart => 8,
            Endpoint::PasskeyAuthFinish => 9,
            Endpoint::VerifyToken => 10,
            Endpoint::VapidKey => 11,
            Endpoint::CronPushDue => 12,
            Endpoint::CronPushDuePosted => 13,
            Endpoint::Running => 14,
            Endpoint::SignOut => 15,
            Endpoint::VerifyUser => 16,
            Endpoint::TfaQrCode => 17,
            Endpoint::PasskeyRegisterStart => 18,
            Endpoint::PasskeyRegisterFinish => 19,
            Endpoint::PasskeyList => 20,
            Endpoint::PasskeyRemove => 21,
            Endpoint::ConvertIntoNormal => 22,
            Endpoint::ConvertIntoGoogle => 23,
            Endpoint::LastOpenedNote => 24,
            Endpoint::ChangeTheme => 25,
            Endpoint::NoteTextExpanded => 26,
            Endpoint::ShowPinnedInFolder => 27,
            Endpoint::ChangeVisualization => 28,
            Endpoint::OnLoginGoToLast => 29,
            Endpoint::ChangeGlobalBg => 30,
            Endpoint::SessionView => 31,
            Endpoint::SessionDelete => 32,
            Endpoint::SessionDeleteAll => 33,
            Endpoint::NoteAdd => 34,
            Endpoint::NoteEdit => 35,
            Endpoint::NoteGet => 36,
            Endpoint::NoteDelete => 37,
            Endpoint::NoteView => 38,
            Endpoint::NoteAddLabel => 39,
            Endpoint::NoteRename => 40,
            Endpoint::NotePin => 41,
            Endpoint::NoteChangeImage => 42,
            Endpoint::NoteDeleteLabel => 43,
            Endpoint::NoteDeleteAllLabels => 44,
            Endpoint::NoteChangeBg => 45,
            Endpoint::LabelView => 46,
            Endpoint::LabelAdd => 47,
            Endpoint::LabelEdit => 48,
            Endpoint::LabelDelete => 49,
            Endpoint::ActivityView => 50,
            Endpoint::ActivityAdd => 51,
            Endpoint::ActivityEdit => 52,
            Endpoint::ActivityToggle => 53,
            Endpoint::ActivityTriggered => 54,
            Endpoint::ActivityDelete => 55,
            Endpoint::ActivityLinkNote => 56,
            Endpoint::ActivityUnlinkNote => 57,
            Endpoint::ActivityComplete => 58,
            Endpoint::ActivitySeen => 59,
            Endpoint::ActivityProgress => 60,
            Endpoint::PushSubscribe => 61,
            Endpoint::PushUnsubscribe => 62,
            Endpoint::PushList => 63,
        }
    }
}

/// All endpoints, each of them once.
pub fn endpoints() -> (r: Vec<Endpoint>)
    ensures
        r@.len() == 64,
        forall|e: Endpoint| r@[#[trigger] e.place()] == e && 0 <= e.place() < r@.len(),
{
    vec![
        Endpoint::SignUp,
        Endpoint::SignIn,
        Endpoint::GoogleLogin,
        Endpoint::VerifyOtp,
        Endpoint::RemoveTfa,
        Endpoint::VerifyTfa,
        Endpoint::FindUser,
        Endpoint::ChangePassword,
        Endpoint::PasskeyAuthStart,
        Endpoint::PasskeyAuthFinish,
        Endpoint::VerifyToken,
        Endpoint::VapidKey,
        Endpoint::CronPushDue,
        Endpoint::CronPushDuePosted,
        Endpoint::Running,
        Endpoint::SignOut,
        Endpoint::VerifyUser,
        Endpoint::TfaQrCode,
        Endpoint::PasskeyRegisterStart,
        Endpoint::PasskeyRegisterFinish,
        Endpoint::PasskeyList,
        Endpoint::PasskeyRemove,
        Endpoint::ConvertIntoNormal,
        Endpoint::ConvertIntoGoogle,
        Endpoint::LastOpenedNote,
        Endpoint::ChangeTheme,
        Endpoint::NoteTextExpanded,
        Endpoint::ShowPinnedInFolder,
        Endpoint::ChangeVisualization,
        Endpoint::OnLoginGoToLast,
        Endpoint::ChangeGlobalBg,
        Endpoint::SessionView,
        Endpoint::SessionDelete,
        Endpoint::SessionDeleteAll,
        Endpoint::NoteAdd,
        Endpoint::NoteEdit,
        Endpoint::NoteGet,
        Endpoint::NoteDelete,
        Endpoint::NoteView,
        Endpoint::NoteAddLabel,
        Endpoint::NoteRename,
        Endpoint::NotePin,
        Endpoint::NoteChangeImage,
        Endpoint::NoteDeleteLabel,
        Endpoint::NoteDeleteAllLabels,
        Endpoint::NoteChangeBg,
        Endpoint::LabelView,
        Endpoint::LabelAdd,
        Endpoint::LabelEdit,
        Endpoint::LabelDelete,
        Endpoint::ActivityView,
        Endpoint::ActivityAdd,
        Endpoint::ActivityEdit,
        Endpoint::ActivityToggle,
        Endpoint::ActivityTriggered,
        Endpoint::ActivityDelete,
        Endpoint::ActivityLinkNote,
        Endpoint::ActivityUnlinkNote,
        Endpoint::ActivityComplete,
        Endpoint::ActivitySeen,
        Endpoint::ActivityProgress,
        Endpoint::PushSubscribe,
        Endpoint::PushUnsubscribe,
        Endpoint::PushList,
    ]
}

/// The only endpoints that a request without a session reaches: signing up and
/// in, recovery, the check of a token, the public push key, the timed push
/// sweep, and the word that the server is running.
pub proof fn law_open_endpoints_are_few(e: Endpoint)
    requires
        !e.at().needs_session,
    ensures
        e is SignUp
            || e is SignIn
            || e is GoogleLogin
            || e is VerifyOtp
            || e is RemoveTfa
            || e is VerifyTfa
            || e is FindUser
            || e is ChangePassword
            || e is PasskeyAuthStart
            || e is PasskeyAuthFinish
            || e is VerifyToken
            || e is VapidKey
            || e is CronPushDue
            || e is CronPushDuePosted
            || e is Running,
{
}

/// Who has no session yet signs up, signs in and recovers an account; a token is
/// checked, the public push key read and the sweep called without one.
pub proof fn law_open_endpoints_are_open(e: Endpoint)
    requires
        e is SignUp
            || e is SignIn
            || e is GoogleLogin
            || e is VerifyOtp
            || e is RemoveTfa
            || e is VerifyTfa
            || e is FindUser
            || e is ChangePassword
            || e is PasskeyAuthStart
            || e is PasskeyAuthFinish
            || e is VerifyToken
            || e is VapidKey
            || e is CronPushDue
            || e is CronPushDuePosted
            || e is Running,
    ensures
        !e.at().needs_session,
{
}

/// No endpoint is listed twice.
pub proof fn law_places_are_distinct(a: Endpoint, b: Endpoint)
    requires
        a.place() == b.place(),
    ensures
        a == b,
{
}

} // verus!
