//! Which attempts are counted, and against whom.

use vstd::prelude::*;
#[allow(unused_imports)]
use vstd::string::*;
#[allow(unused_imports)]
use vstd::utf8::is_ascii_chars;

use crate::config::AppState;
#[allow(unused_imports)]
use crate::flow::{Action, Event, Flow, Step};
#[allow(unused_imports)]
use crate::handlers::passkey::authenticate::{auth_finish, auth_start, AuthFinish, AuthFinishReq, AuthStart};
#[allow(unused_imports)]
use crate::handlers::passkey::register::RegisterStart;
#[allow(unused_imports)]
use crate::handlers::user::recovery::{find_and_send_code, verify_otp, FindCode, VerifyOtp};
#[allow(unused_imports)]
use crate::handlers::user::sign_in::{google_login, sign_in, GoogleLogin, SignIn};
#[allow(unused_imports)]
use crate::handlers::user::tfa::{verify_2fa_code, VerifyTfa};
#[allow(unused_imports)]
use crate::handlers::user::{is_account_char, FindUserReq, GoogleLoginReq, LoginReq, Verify2FAReq, VerifyOtpReq};
#[allow(unused_imports)]
use crate::http::{Headers, Reply, TOO_MANY_REQUESTS};
#[allow(unused_imports)]
use crate::models::User;
#[allow(unused_imports)]
use crate::object_id::hex_form;
#[allow(unused_imports)]
use crate::text::{ascii_lowercase, is_ascii_alphanumeric, is_whitespace, lemma_first_index_is, lemma_split_joined, lemma_trimmed_is_itself, split_at};
use crate::time::UtcTime;
#[allow(unused_imports)]
use crate::utils::ratelimit::{at_most, client_identity, client_key, kept_chars, lemma_kept_chars};

verus! {

/// An address as a proxy writes it: one to 64 letters, digits, dots, colons,
/// dashes and underscores.
pub open spec fn is_address(ip: Seq<char>) -> bool {
    1 <= ip.len() <= 64 && forall|i: int|
        0 <= i < ip.len() ==> is_ascii_alphanumeric(#[trigger] ip[i]) || ip[i] == '.' || ip[i]
            == ':' || ip[i] == '_' || ip[i] == '-'
}

/// The proxies say that the request comes from `ip`: it stands first among
/// those that forwarded it, or is the only address given.
pub open spec fn comes_from(headers: Headers, ip: Seq<char>) -> bool {
    match headers.x_forwarded_for {
        Some(f) => f@ == ip || exists|rest: Seq<char>| f@ == #[trigger] (ip + seq![','] + rest),
        None => headers.x_real_ip matches Some(own) && own@ == ip,
    }
}

/// `action` counts one of `max` attempts in ten minutes that `who` has at
/// `scope`.
pub open spec fn counts(action: Action, scope: Seq<char>, who: Seq<char>, max: int) -> bool {
    action matches Action::Limit { key, max_attempts, window_secs } && key@ == scope + ":"@ + who
        && max_attempts == max && window_secs == 600
}

proof fn lemma_address(headers: Headers, ip: Seq<char>)
    requires
        is_address(ip),
        comes_from(headers, ip),
    ensures
        client_identity(headers) == ip,
        at_most(kept_chars(client_identity(headers), ".:_-"@), 64) == ip,
{
    reveal_strlit(".:_-");
    let marks = ".:_-"@;
    assert(marks[0] == '.' && marks[1] == ':' && marks[2] == '_' && marks[3] == '-');
    lemma_kept_chars(ip, marks);
    assert(!is_whitespace(ip[0]) && !is_whitespace(ip.last()));
    lemma_trimmed_is_itself(ip);
    assert forall|i: int| 0 <= i < ip.len() implies ip[i] != ',' by {
        assert(is_ascii_alphanumeric(ip[i]) || ip[i] == '.' || ip[i] == ':' || ip[i] == '_'
            || ip[i] == '-');
    }
    lemma_first_index_is(ip, ',', ip.len() as int);
    assert(split_at(ip, ',') =~= seq![ip]);
    if let Some(f) = headers.x_forwarded_for {
        if f@ != ip {
            let rest = choose|rest: Seq<char>| f@ == #[trigger] (ip + seq![','] + rest);
            lemma_split_joined(ip, ',', rest);
            assert(split_at(f@, ',')[0] == ip);
        }
    }
}

/// The attempts of two clients are counted together exactly where they come
/// from one address and are made at one place.
pub proof fn law_clients_are_counted_apart(
    first: Headers,
    second: Headers,
    one: Seq<char>,
    other: Seq<char>,
    scope: &str,
    place: &str,
    a: String,
    b: String,
)
    requires
        is_address(one),
        is_address(other),
        comes_from(first, one),
        comes_from(second, other),
        !scope@.contains(':'),
        !place@.contains(':'),
        call_ensures(client_key, (&first, scope), a),
        call_ensures(client_key, (&second, place), b),
    ensures
        a@ == b@ <==> one == other && scope@ == place@,
{
    reveal_strlit(":");
    lemma_address(first, one);
    lemma_address(second, other);
    assert(a@ == scope@ + ":"@ + one);
    assert(b@ == place@ + ":"@ + other);
    if a@ == b@ {
        let k = scope@.len() as int;
        let j = place@.len() as int;
        assert(a@[k] == ':' && b@[j] == ':');
        if k < j {
            assert(b@[k] == place@[k]);
            assert(place@.contains(place@[k]));
        }
        if j < k {
            assert(a@[j] == scope@[j]);
            assert(scope@.contains(scope@[j]));
        }
        assert(scope@ =~= a@.take(k));
        assert(place@ =~= b@.take(k));
        assert(one =~= a@.skip(k + 1));
        assert(other =~= b@.skip(k + 1));
    }
}

/// Before anything else happens, an attempt is counted against the address
/// that it comes from: twenty in ten minutes to sign in, ten to give a code, to
/// ask for one, and to finish with a passkey.
pub proof fn law_attempts_are_counted_by_address(
    headers: Headers,
    ip: Seq<char>,
    login: LoginReq,
    google: GoogleLoginReq,
    second: Verify2FAReq,
    find: FindUserReq,
    otp: VerifyOtpReq,
    passkey: AuthFinishReq,
    starts: (Step<SignIn, Reply>, Step<GoogleLogin, Reply>, Step<VerifyTfa, Reply>),
    more: (Step<FindCode, Reply>, Step<VerifyOtp, Reply>),
    keys: (Step<AuthStart, Reply>, Step<AuthFinish, Reply>),
)
    requires
        is_address(ip),
        comes_from(headers, ip),
        call_ensures(sign_in, (&headers, login), starts.0),
        call_ensures(google_login, (&headers, google), starts.1),
        call_ensures(verify_2fa_code, (&headers, second), starts.2),
        call_ensures(find_and_send_code, (&headers, find), more.0),
        call_ensures(verify_otp, (&headers, otp), more.1),
        call_ensures(auth_start, (&headers,), keys.0),
        call_ensures(auth_finish, (&headers, passkey), keys.1),
    ensures
        starts.0 matches Step::Ask(action, _) && counts(action, "signin"@, ip, 20),
        starts.1 matches Step::Ask(action, _) && counts(action, "signin-google"@, ip, 20),
        starts.2 matches Step::Ask(action, _) && counts(action, "2fa-verify"@, ip, 10),
        more.0 matches Step::Ask(action, _) && counts(action, "find-user"@, ip, 10),
        more.1 matches Step::Ask(action, _) && counts(action, "verify-otp"@, ip, 10),
        keys.0 matches Step::Ask(action, _) && counts(action, "pk-auth-start"@, ip, 20),
        keys.1 matches Step::Ask(action, _) && counts(action, "pk-auth-finish"@, ip, 10),
{
    lemma_address(headers, ip);
}

/// Where the client has attempts left, they are counted against the account
/// too, whoever makes them: five in ten minutes to be sent a code, ten to give
/// one.
pub proof fn law_attempts_are_counted_by_account(
    app: AppState,
    now: UtcTime,
    account: Seq<char>,
    find: FindCode,
    otp: VerifyOtp,
    second: VerifyTfa,
    sent: Step<FindCode, Reply>,
    given: Step<VerifyOtp, Reply>,
    verified: Step<VerifyTfa, Reply>,
)
    requires
        1 <= account.len() <= 128,
        forall|i: int| 0 <= i < account.len() ==> is_account_char(#[trigger] account[i]),
        find matches FindCode::ClientLimit { payload } && payload.email@ == account,
        otp matches VerifyOtp::ClientLimit { payload } && payload.userId@ == account,
        second matches VerifyTfa::ClientLimit { attempt } && attempt.payload.userId@ == account,
        call_ensures(<FindCode as Flow>::resume, (find, &app, Event::Allowed, now), sent),
        call_ensures(<VerifyOtp as Flow>::resume, (otp, &app, Event::Allowed, now), given),
        call_ensures(<VerifyTfa as Flow>::resume, (second, &app, Event::Allowed, now), verified),
    ensures
        sent matches Step::Ask(action, _) && counts(action, "find-user-acct"@, account, 5),
        given matches Step::Ask(action, _) && counts(action, "verify-otp-acct"@, account, 10),
        verified matches Step::Ask(action, _) && counts(action, "2fa-verify-acct"@, account, 10),
{
    let marks = ".@_-"@;
    reveal_strlit(".@_-");
    assert(marks[0] == '.' && marks[1] == '@' && marks[2] == '_' && marks[3] == '-');
    lemma_trimmed_is_itself(account);
    assert(is_ascii_chars(account));
    assert(ascii_lowercase(account) =~= account);
    lemma_kept_chars(account, marks);
}

/// The reply to an attempt that is one too many.
pub open spec fn refuses_attempt<S>(r: Step<S, Reply>) -> bool {
    r matches Step::Done(reply) && reply.status == TOO_MANY_REQUESTS
}

/// An attempt for which no budget is left is refused, and nothing is read or
/// written for it.
pub proof fn law_spent_budget_is_refused(
    app: AppState,
    now: UtcTime,
    login: (SignIn, Step<SignIn, Reply>),
    google: (GoogleLogin, Step<GoogleLogin, Reply>),
    second: (VerifyTfa, Step<VerifyTfa, Reply>),
    find: (FindCode, Step<FindCode, Reply>),
    otp: (VerifyOtp, Step<VerifyOtp, Reply>),
    begin: (AuthStart, Step<AuthStart, Reply>),
    finish: (AuthFinish, Step<AuthFinish, Reply>),
    register: (RegisterStart, Step<RegisterStart, Reply>),
)
    requires
        login.0 is Limit,
        google.0 is Limit,
        second.0 is ClientLimit || second.0 is AccountLimit,
        find.0 is ClientLimit || find.0 is AccountLimit,
        otp.0 is ClientLimit || otp.0 is AccountLimit,
        begin.0 is Limit,
        finish.0 is Limit,
        register.0 is Limit,
        call_ensures(<SignIn as Flow>::resume, (login.0, &app, Event::Limited, now), login.1),
        call_ensures(
            <GoogleLogin as Flow>::resume,
            (google.0, &app, Event::Limited, now),
            google.1,
        ),
        call_ensures(<VerifyTfa as Flow>::resume, (second.0, &app, Event::Limited, now), second.1),
        call_ensures(<FindCode as Flow>::resume, (find.0, &app, Event::Limited, now), find.1),
        call_ensures(<VerifyOtp as Flow>::resume, (otp.0, &app, Event::Limited, now), otp.1),
        call_ensures(<AuthStart as Flow>::resume, (begin.0, &app, Event::Limited, now), begin.1),
        call_ensures(<AuthFinish as Flow>::resume, (finish.0, &app, Event::Limited, now), finish.1),
        call_ensures(
            <RegisterStart as Flow>::resume,
            (register.0, &app, Event::Limited, now),
            register.1,
        ),
    ensures
        refuses_attempt(login.1),
        refuses_attempt(google.1),
        refuses_attempt(second.1),
        refuses_attempt(find.1),
        refuses_attempt(otp.1),
        refuses_attempt(begin.1),
        refuses_attempt(finish.1),
        refuses_attempt(register.1),
{
}

/// Ten passkeys in ten minutes may be asked for by a user.
pub proof fn law_registrations_are_counted(
    app: AppState,
    now: UtcTime,
    state: RegisterStart,
    user: User,
    r: Step<RegisterStart, Reply>,
)
    requires
        state is User,
        call_ensures(
            <RegisterStart as Flow>::resume,
            (state, &app, Event::User(Some(user)), now),
            r,
        ),
    ensures
        r matches Step::Ask(action, _) && counts(
            action,
            "pk-register"@,
            hex_form(state->User_uid@),
            10,
        ),
{
    reveal_strlit("pk-register:");
    reveal_strlit("pk-register");
    reveal_strlit(":");
    assert("pk-register:"@ =~= "pk-register"@ + ":"@);
}

} // verus!
