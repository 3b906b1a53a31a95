//! What a refused request is answered.

use vstd::prelude::*;

use crate::config::AppState;
#[allow(unused_imports)]
use crate::flow::{Event, Flow, GoogleAnswer, Step};
#[allow(unused_imports)]
use crate::handlers::user::account::{verify_token, VerifyToken};
#[allow(unused_imports)]
use crate::handlers::user::recovery::{change_password, ChangePassword, VerifyOtp};
#[allow(unused_imports)]
use crate::handlers::user::sign_in::{sign_up, GoogleLogin, SignIn, SignUp};
#[allow(unused_imports)]
use crate::handlers::user::tfa::{remove_2fa, RemoveTfa, VerifyTfa};
#[allow(unused_imports)]
use crate::handlers::user::{ChangePassReq, Remove2FAReq, SignUpReq};
#[allow(unused_imports)]
use crate::http::{Body, Headers, Reply};
#[allow(unused_imports)]
use crate::middleware::auth::session_token;
#[allow(unused_imports)]
use crate::models::{Otp, Tfa, User};
#[allow(unused_imports)]
use crate::text::{ascii_lowercase, byte_len, trimmed};
use crate::time::UtcTime;
#[allow(unused_imports)]
use crate::utils::crypto::{bcrypt_matches, token_claims};
#[allow(unused_imports)]
use crate::utils::totp::tfa_verdict;

verus! {

/// The request ends with this status and this message, and no cookie is set.
pub open spec fn ends_with<S>(r: Step<S, Reply>, status: int, text: Seq<char>) -> bool {
    r matches Step::Done(reply) && reply.status == status && reply.cookies is Nothing && (reply.body
        matches Body::Message(said) && said@ == text)
}

/// A password of fewer than 6 or more than 128 bytes, a blank name or email and
/// an email that has an account are no sign-up.
pub proof fn law_refused_sign_up(
    payload: SignUpReq,
    app: AppState,
    now: UtcTime,
    user: User,
    start: Step<SignUp, Reply>,
    taken: Step<SignUp, Reply>,
)
    requires
        call_ensures(sign_up, (payload,), start),
        call_ensures(
            <SignUp as Flow>::resume,
            (SignUp::Existing { payload }, &app, Event::User(Some(user)), now),
            taken,
        ),
    ensures
        byte_len(payload.password@) < 6 || byte_len(payload.password@) > 128 ==> ends_with(
            start,
            400,
            "Password must be between 6 and 128 characters!"@,
        ),
        6 <= byte_len(payload.password@) <= 128 && (trimmed(payload.name@).len() == 0 || trimmed(
            payload.email@,
        ).len() == 0) ==> ends_with(start, 400, "Name and email are required!"@),
        ends_with(taken, 400, "User already exists, please sign in!"@),
{
}

/// Who signs in with an email that has no account, or with a wrong password, is
/// told the same; an account that signs in with Google has no password.
pub proof fn law_refused_sign_in(
    state: SignIn,
    placed: SignIn,
    app: AppState,
    now: UtcTime,
    user: User,
    google: User,
    event: Event,
    unknown: Step<SignIn, Reply>,
    other: Step<SignIn, Reply>,
    wrong: Step<SignIn, Reply>,
)
    requires
        state is User,
        google.googleAccount == Some(true),
        placed matches SignIn::Tfa { payload, ua, user: u, geo } && u == user && bcrypt_matches(
            payload.password@,
            user.password->0@,
        ) == Some(false),
        user.password is Some,
        call_ensures(<SignIn as Flow>::resume, (state, &app, Event::User(None), now), unknown),
        call_ensures(<SignIn as Flow>::resume, (state, &app, Event::User(Some(google)), now), other),
        call_ensures(<SignIn as Flow>::resume, (placed, &app, event, now), wrong),
    ensures
        ends_with(unknown, 400, "Wrong email or password combination!"@),
        ends_with(wrong, 404, "Wrong email or password combination!"@),
        ends_with(other, 400, "The selected sign in method isn't available to this email!"@),
{
}

/// Who signs in with Google as somebody else, or is refused by Google, is not
/// signed in.
pub proof fn law_refused_google_sign_in(
    state: GoogleLogin,
    app: AppState,
    now: UtcTime,
    email: String,
    id: String,
    other: Step<GoogleLogin, Reply>,
    refused: Step<GoogleLogin, Reply>,
)
    requires
        state matches GoogleLogin::Google { payload, ua } && (ascii_lowercase(email@)
            != ascii_lowercase(payload.email@) || id@ != payload.id@),
        call_ensures(
            <GoogleLogin as Flow>::resume,
            (
                state,
                &app,
                Event::Google(GoogleAnswer::User { email: Some(email), id: Some(id) }),
                now,
            ),
            other,
        ),
        call_ensures(
            <GoogleLogin as Flow>::resume,
            (state, &app, Event::Google(GoogleAnswer::Refused), now),
            refused,
        ),
    ensures
        ends_with(other, 401, "Google account mismatch, please try again"@),
        ends_with(refused, 401, "Google verification failed, please try again"@),
{
}

/// Who presents no token, a token that does not read, or one that has expired is
/// sent to sign in again.
pub proof fn law_refused_token(
    headers: Headers,
    app: AppState,
    now: UtcTime,
    r: Step<VerifyToken, Reply>,
)
    requires
        call_ensures(verify_token, (&headers, None, &app, now), r),
    ensures
        session_token(headers) is None ==> ends_with(r, 401, "Access denied, sign in again"@),
        session_token(headers) matches Some((token, _)) ==> {
            &&& token_claims(token, app.jwt_secret@) is Err ==> ends_with(
                r,
                401,
                "Access denied, sign in again"@,
            )
            &&& token_claims(token, app.jwt_secret@) matches Ok(c) ==> c.exp < now.secs ==> ends_with(
                r,
                401,
                "Session expired, please sign in again"@,
            )
        },
{
}

/// A code that is not that of the last mail, or that has expired, is refused.
pub proof fn law_refused_code(
    state: VerifyOtp,
    app: AppState,
    now: UtcTime,
    otps: Vec<Otp>,
    r: Step<VerifyOtp, Reply>,
)
    requires
        state matches VerifyOtp::Otps { payload } && (otps@.len() == 0 || bcrypt_matches(
            payload.otp@,
            otps@.last().otp@,
        ) != Some(true) || (otps@.last().expiresAt matches Some(e) && e.secs < now.secs)),
        call_ensures(<VerifyOtp as Flow>::resume, (state, &app, Event::Otps(otps), now), r),
    ensures
        ends_with(r, 400, "Wrong OTP code, please try again!"@),
{
}

/// A code that is not that of the second factor is refused, and so is any where
/// the account has none.
pub proof fn law_refused_second_factor(
    state: VerifyTfa,
    app: AppState,
    now: UtcTime,
    tfas: Vec<Tfa>,
    r: Step<VerifyTfa, Reply>,
)
    requires
        state matches VerifyTfa::Tfas { attempt, uid, pending } && (tfas@.len() == 0 || tfa_verdict(
            tfas@[0].secret@,
            attempt.payload.tfa_code@,
            now,
        ) == Some(false)),
        call_ensures(<VerifyTfa as Flow>::resume, (state, &app, Event::Tfas(tfas), now), r),
    ensures
        ends_with(r, 401, "Wrong code, please try again"@),
{
}

/// Who has neither a session nor a reset token changes no password and removes no
/// second factor.
pub proof fn law_refused_recovery(
    headers: Headers,
    password: ChangePassReq,
    remove: Remove2FAReq,
    app: AppState,
    now: UtcTime,
    changed: Step<ChangePassword, Reply>,
    removed: Step<RemoveTfa, Reply>,
)
    requires
        headers.authorization is None,
        headers.cookie is None,
        password.resetToken is None,
        remove.resetToken is None,
        call_ensures(change_password, (&headers, password, &app, now), changed),
        call_ensures(remove_2fa, (&headers, remove, &app, now), removed),
    ensures
        ends_with(changed, 401, "Access denied, sign in again"@),
        ends_with(removed, 401, "Access denied, sign in again"@),
{
}

} // verus!
