//! What the server is configured with.

use vstd::prelude::*;
#[allow(unused_imports)]
use vstd::string::*;

use crate::encoding::base64_url;
#[allow(unused_imports)]
use crate::encoding::base64_text;
#[allow(unused_imports)]
use crate::http::text_views;
use crate::numbers::parse_u16;
#[allow(unused_imports)]
use crate::numbers::{decimal, in_range, lemma_decimal_reads, unsigned_value};
#[allow(unused_imports)]
use crate::text::{ascii_lowercase, eq_ignore_ascii_case, is_digit, is_whitespace, lemma_first_index_is, lemma_split_joined, lemma_trimmed_is_itself, owned, same, split, split_at, trim, trim_end_char, trim_end_matches, trimmed, views};
use crate::utils::cookies::CookieConfig;

verus! {

/// The variables of the environment that are read; one that is not set is
/// `None`.
#[derive(Debug)]
pub struct Environment {
    pub mail_hostname: Option<String>,
    pub mail_port: Option<String>,
    pub mail_username: Option<String>,
    pub mail_password: Option<String>,
    pub host_mail: Option<String>,
    pub ipgeolocation_key: Option<String>,
    pub allowed_origins: Option<String>,
    pub cookie_secure: Option<String>,
    pub cookie_samesite: Option<String>,
    pub webauthn_rp_id: Option<String>,
    pub webauthn_origin: Option<String>,
    pub webauthn_rp_name: Option<String>,
    pub vapid_private_key: Option<String>,
    pub vapid_subject: Option<String>,
    pub cron_secret: Option<String>,
}

/// The configuration that the handlers read.
#[derive(Debug)]
pub struct AppState {
    /// The VAPID private key, base64url. `None` while push is disabled.
    pub vapid_private_key: Option<String>,
    /// The contact attached to VAPID signatures.
    pub vapid_subject: String,
    /// The VAPID public key that browsers subscribe with, base64url. It comes
    /// from the private key, so the two always match.
    pub vapid_public_key: Option<String>,
    /// The secret that authorizes the push sweep. `None` leaves it open.
    pub cron_secret: Option<String>,
    pub jwt_secret: String,
    pub mail_host: String,
    pub mail_port: u16,
    pub mail_user: String,
    pub mail_pass: String,
    pub mail_from: String,
    pub ipgeo_key: String,
    /// The origins that may call, each with scheme, host and port.
    pub allowed_origins: Vec<String>,
    pub cookie_secure: bool,
    pub cookie_samesite: String,
    /// The relying party that passkeys are bound to.
    pub webauthn_rp_id: String,
    pub webauthn_rp_origin: String,
    pub webauthn_rp_name: String,
}

/// The origins that may call where none are configured.
pub const LOCAL_ORIGINS: &'static str =
    "http://localhost:5173,http://localhost:3000,http://127.0.0.1:5173,http://127.0.0.1:3000";

// ---------- parts ----------

/// A variable, or what stands for it.
pub open spec fn variable(v: Option<String>, other: Seq<char>) -> Seq<char> {
    match v {
        Some(s) => s@,
        None => other,
    }
}

fn value_or(v: Option<String>, other: &str) -> (r: String)
    ensures
        r@ == variable(v, other@),
{
    match v {
        Some(s) => s,
        None => owned(other),
    }
}

/// An origin of the list: no white space around it, no slashes behind it.
pub open spec fn origin_of(part: Seq<char>) -> Seq<char> {
    trim_end_char(trimmed(part), '/')
}

/// The origins of a comma-separated list, the blank ones left out.
pub open spec fn origins_of(parts: Seq<Seq<char>>) -> Seq<Seq<char>>
    decreases parts.len(),
{
    if parts.len() == 0 {
        Seq::empty()
    } else {
        let rest = origins_of(parts.drop_last());
        if origin_of(parts.last()).len() > 0 {
            rest.push(origin_of(parts.last()))
        } else {
            rest
        }
    }
}

/// Reads a comma-separated list of origins.
pub fn parse_origins(list: &str) -> (r: Vec<String>)
    ensures
        text_views(r@) == origins_of(split_at(list@, ',')),
{
    let parts = split(list, ',');
    let ghost all = views(parts@);
    let mut origins: Vec<String> = Vec::new();
    let mut i: usize = 0;
    assert(text_views(origins@) =~= origins_of(all.take(0)));
    while i < parts.len()
        invariant
            i <= parts@.len(),
            all == views(parts@),
            text_views(origins@) == origins_of(all.take(i as int)),
        decreases parts@.len() - i,
    {
        let ghost before = origins@;
        let origin = owned(trim_end_matches(trim(parts[i]), '/'));
        proof {
            assert(all.take(i + 1).drop_last() =~= all.take(i as int));
            assert(all.take(i + 1).last() == parts@[i as int]@);
        }
        if origin.as_str().unicode_len() > 0 {
            origins.push(origin);
            assert(text_views(origins@) =~= text_views(before).push(origin@));
        }
        i += 1;
    }
    assert(all.take(i as int) =~= all);
    origins
}

/// Whether cookies are marked `Secure`: unless that is switched off.
pub open spec fn is_secure(v: Option<String>) -> bool {
    match v {
        Some(s) => !(s@ == "false"@ || s@ == "0"@ || ascii_lowercase(s@) == ascii_lowercase(
            "no"@,
        )),
        None => true,
    }
}

/// The port of the mail relay, 587 where none is given.
pub open spec fn port_of(v: Option<String>) -> int {
    match v {
        Some(s) => match in_range(unsigned_value(s@), 0, u16::MAX as int) {
            Some(port) => port,
            None => 587,
        },
        None => 587,
    }
}

/// How many characters of base64url the 32 bytes of a private key take.
pub const VAPID_KEY_LEN: usize = 43;

/// The public key, uncompressed, that `web_push` derives from a base64url
/// private key of the right length; `None` for a text that is no key.
pub uninterp spec fn vapid_point(private_key: Seq<char>) -> Option<Seq<u8>>;

/// `web_push::VapidSignatureBuilder::from_base64_no_sub` and
/// `get_public_key`: the public key is a function of the private one. A text
/// that decodes to another number of bytes than 32 makes `web_push` panic.
#[verifier::external_body]
fn vapid_public(private_key: &str) -> (r: Option<Vec<u8>>)
    requires
        private_key@.len() == VAPID_KEY_LEN,
    ensures
        match r {
            Some(point) => vapid_point(private_key@) == Some(point@),
            None => vapid_point(private_key@) is None,
        },
{
    match web_push::VapidSignatureBuilder::from_base64_no_sub(private_key) {
        Ok(partial) => Some(partial.get_public_key()),
        Err(_) => None,
    }
}

/// The private and the public key of a configured key, without the white space
/// around it. A key of another length and an invalid key give neither.
pub open spec fn vapid_pair(v: Option<String>) -> Option<(Seq<char>, Seq<char>)> {
    match v {
        Some(k) => if trimmed(k@).len() == VAPID_KEY_LEN {
            match vapid_point(trimmed(k@)) {
                Some(point) => Some((trimmed(k@), base64_text(point, true))),
                None => None,
            }
        } else {
            None
        },
        None => None,
    }
}

fn vapid_keys(v: Option<String>) -> (r: Option<(String, String)>)
    ensures
        match r {
            Some(pair) => vapid_pair(v) == Some((pair.0@, pair.1@)),
            None => vapid_pair(v) is None,
        },
{
    match v {
        Some(k) => {
            let key = trim(k.as_str());
            if key.unicode_len() != VAPID_KEY_LEN {
                return None;
            }
            match vapid_public(key) {
                Some(point) => {
                    let public = base64_url(&point);
                    Some((owned(key), public))
                },
                None => None,
            }
        },
        None => None,
    }
}

/// The text of an option.
pub open spec fn option_text(v: Option<String>) -> Option<Seq<char>> {
    match v {
        Some(s) => Some(s@),
        None => None,
    }
}

/// A variable that is not empty.
pub open spec fn non_empty(v: Option<String>) -> Option<Seq<char>> {
    match v {
        Some(s) => if s@.len() > 0 {
            Some(s@)
        } else {
            None
        },
        None => None,
    }
}

// ---------- the configuration ----------

impl AppState {
    /// The configuration of an environment.
    pub fn from_env(env: Environment, jwt_secret: String) -> (r: AppState)
        ensures
            r.jwt_secret == jwt_secret,
            r.mail_host@ == variable(env.mail_hostname, ""@),
            r.mail_port == port_of(env.mail_port),
            r.mail_user@ == variable(env.mail_username, ""@),
            r.mail_pass@ == variable(env.mail_password, ""@),
            r.mail_from@ == variable(env.host_mail, variable(env.mail_username, ""@)),
            r.ipgeo_key@ == variable(env.ipgeolocation_key, ""@),
            text_views(r.allowed_origins@) == origins_of(
                split_at(variable(env.allowed_origins, LOCAL_ORIGINS@), ','),
            ),
            r.cookie_secure == is_secure(env.cookie_secure),
            r.cookie_samesite@ == variable(env.cookie_samesite, "None"@),
            r.webauthn_rp_id@ == variable(env.webauthn_rp_id, "localhost"@),
            r.webauthn_rp_origin@ == variable(env.webauthn_origin, "http://localhost:5173"@),
            r.webauthn_rp_name@ == variable(env.webauthn_rp_name, "Noap"@),
            r.vapid_subject@ == variable(env.vapid_subject, "mailto:noreply@noap.example.com"@),
            match vapid_pair(env.vapid_private_key) {
                Some(pair) => option_text(r.vapid_private_key) == Some(pair.0) && option_text(
                    r.vapid_public_key,
                ) == Some(pair.1),
                None => r.vapid_private_key is None && r.vapid_public_key is None,
            },
            option_text(r.cron_secret) == non_empty(env.cron_secret),
    {
        let mail_user = value_or(env.mail_username, "");
        let mail_from = value_or(env.host_mail, mail_user.as_str());
        let mail_port: u16 = match env.mail_port {
            Some(p) => match parse_u16(p.as_str()) {
                Some(port) => port,
                None => 587,
            },
            None => 587,
        };
        let origins = value_or(env.allowed_origins, LOCAL_ORIGINS);
        let cookie_secure = match env.cookie_secure {
            Some(v) => !(same(v.as_str(), "false") || same(v.as_str(), "0")
                || eq_ignore_ascii_case(v.as_str(), "no")),
            None => true,
        };
        let (vapid_private_key, vapid_public_key) = match vapid_keys(env.vapid_private_key) {
            Some((private, public)) => (Some(private), Some(public)),
            None => (None, None),
        };
        let cron_secret = match env.cron_secret {
            Some(s) => if s.as_str().unicode_len() > 0 {
                Some(s)
            } else {
                None
            },
            None => None,
        };
        AppState {
            vapid_private_key,
            vapid_subject: value_or(env.vapid_subject, "mailto:noreply@noap.example.com"),
            vapid_public_key,
            cron_secret,
            jwt_secret,
            mail_host: value_or(env.mail_hostname, ""),
            mail_port,
            mail_user,
            mail_pass: value_or(env.mail_password, ""),
            mail_from,
            ipgeo_key: value_or(env.ipgeolocation_key, ""),
            allowed_origins: parse_origins(origins.as_str()),
            cookie_secure,
            cookie_samesite: value_or(env.cookie_samesite, "None"),
            webauthn_rp_id: value_or(env.webauthn_rp_id, "localhost"),
            webauthn_rp_origin: value_or(env.webauthn_origin, "http://localhost:5173"),
            webauthn_rp_name: value_or(env.webauthn_rp_name, "Noap"),
        }
    }

    /// How cookies are sent.
    pub open spec fn cookie_settings(self) -> CookieConfig {
        CookieConfig { secure: self.cookie_secure, same_site: self.cookie_samesite }
    }

    /// How cookies are sent.
    pub fn cookie_config(&self) -> (r: CookieConfig)
        ensures
            r == self.cookie_settings(),
    {
        CookieConfig { secure: self.cookie_secure, same_site: self.cookie_samesite.clone() }
    }
}

/// The port that the server listens on, 3002 where none is given.
pub open spec fn listen_port(v: Option<String>) -> int {
    match v {
        Some(s) => match in_range(unsigned_value(s@), 0, u16::MAX as int) {
            Some(port) => port,
            None => 3002,
        },
        None => 3002,
    }
}

/// The port that the server listens on.
pub fn port(v: &Option<String>) -> (r: u16)
    ensures
        r == listen_port(*v),
{
    match v {
        Some(p) => match parse_u16(p.as_str()) {
            Some(port) => port,
            None => 3002,
        },
        None => 3002,
    }
}

// ---------- what an environment sets ----------

/// What is set is kept, each under its own name.
pub proof fn law_what_is_set_is_kept(env: Environment, secret: String, r: AppState)
    requires
        call_ensures(AppState::from_env, (env, secret), r),
    ensures
        r.jwt_secret == secret,
        env.mail_hostname matches Some(v) ==> r.mail_host@ == v@,
        env.mail_username matches Some(v) ==> r.mail_user@ == v@,
        env.mail_password matches Some(v) ==> r.mail_pass@ == v@,
        env.host_mail matches Some(v) ==> r.mail_from@ == v@,
        env.ipgeolocation_key matches Some(v) ==> r.ipgeo_key@ == v@,
        env.cookie_samesite matches Some(v) ==> r.cookie_samesite@ == v@,
        env.webauthn_rp_id matches Some(v) ==> r.webauthn_rp_id@ == v@,
        env.webauthn_origin matches Some(v) ==> r.webauthn_rp_origin@ == v@,
        env.webauthn_rp_name matches Some(v) ==> r.webauthn_rp_name@ == v@,
        env.vapid_subject matches Some(v) ==> r.vapid_subject@ == v@,
        env.cron_secret matches Some(v) ==> v@.len() > 0 ==> (r.cron_secret matches Some(kept)
            && kept@ == v@),
{
}

/// What is not set has a value that works for a server on one's own machine;
/// mail is sent from the mail user, cookies are `Secure`, and there is neither
/// push nor a secret for the sweep.
pub proof fn law_what_is_not_set(env: Environment, secret: String, r: AppState)
    requires
        call_ensures(AppState::from_env, (env, secret), r),
    ensures
        env.mail_hostname is None ==> r.mail_host@.len() == 0,
        env.mail_username is None ==> r.mail_user@.len() == 0,
        env.mail_password is None ==> r.mail_pass@.len() == 0,
        env.host_mail is None ==> r.mail_from@ == r.mail_user@,
        env.mail_port is None ==> r.mail_port == 587,
        env.ipgeolocation_key is None ==> r.ipgeo_key@.len() == 0,
        env.cookie_secure is None ==> r.cookie_secure,
        env.cookie_samesite is None ==> r.cookie_samesite@ == "None"@,
        env.webauthn_rp_id is None ==> r.webauthn_rp_id@ == "localhost"@,
        env.webauthn_origin is None ==> r.webauthn_rp_origin@ == "http://localhost:5173"@,
        env.webauthn_rp_name is None ==> r.webauthn_rp_name@ == "Noap"@,
        env.vapid_subject is None ==> r.vapid_subject@ == "mailto:noreply@noap.example.com"@,
        env.vapid_private_key is None ==> r.vapid_private_key is None && r.vapid_public_key is None,
        env.cron_secret is None ==> r.cron_secret is None,
        env.cron_secret matches Some(v) && v@.len() == 0 ==> r.cron_secret is None,
{
    reveal_strlit("");
}

/// Cookies are `Secure` unless that is switched off by "false", by "0" or by
/// "no" in letters of either case.
pub proof fn law_cookies_are_secure_unless_switched_off(
    env: Environment,
    secret: String,
    v: String,
    r: AppState,
)
    requires
        call_ensures(AppState::from_env, (env, secret), r),
        env.cookie_secure == Some(v),
    ensures
        v@ == "false"@ || v@ == "0"@ || v@ == "no"@ || v@ == "NO"@ || v@ == "No"@ || v@ == "nO"@
            <==> !r.cookie_secure,
{
    reveal_strlit("false");
    reveal_strlit("0");
    reveal_strlit("no");
    reveal_strlit("NO");
    reveal_strlit("No");
    reveal_strlit("nO");
    let lower = ascii_lowercase("no"@);
    assert(lower =~= "no"@);
    assert(ascii_lowercase("NO"@) =~= "no"@);
    assert(ascii_lowercase("No"@) =~= "no"@);
    assert(ascii_lowercase("nO"@) =~= "no"@);
    if ascii_lowercase(v@) == lower {
        assert(ascii_lowercase(v@).len() == v@.len());
        assert(ascii_lowercase(v@)[0] == 'n' && ascii_lowercase(v@)[1] == 'o');
        assert(v@[0] == 'n' || v@[0] == 'N');
        assert(v@[1] == 'o' || v@[1] == 'O');
        assert(v@ =~= seq![v@[0], v@[1]]);
        assert("no"@ =~= seq!['n', 'o'] && "NO"@ =~= seq!['N', 'O']);
        assert("No"@ =~= seq!['N', 'o'] && "nO"@ =~= seq!['n', 'O']);
    }
}

/// A port that is written out is the port, of the server and of the mail relay;
/// the server listens on 3002 where none is given.
pub proof fn law_ports_are_read(
    env: Environment,
    secret: String,
    text: Option<String>,
    n: nat,
    app: AppState,
    r: u16,
)
    requires
        n <= u16::MAX,
        text matches Some(s) ==> s@ == decimal(n),
        env.mail_port == text,
        call_ensures(AppState::from_env, (env, secret), app),
        call_ensures(port, (&text,), r),
    ensures
        text is Some ==> r == n && app.mail_port == n,
        text is None ==> r == 3002 && app.mail_port == 587,
{
    lemma_decimal_reads(n);
    let s = decimal(n);
    assert(s.len() > 0 && is_digit(s[0]));
    assert(unsigned_value(s) == Some(n as int));
}

proof fn lemma_origins_joined(parts: Seq<Seq<char>>, more: Seq<Seq<char>>)
    ensures
        origins_of(parts + more) == origins_of(parts) + origins_of(more),
    decreases more.len(),
{
    if more.len() == 0 {
        assert(parts + more =~= parts);
        assert(origins_of(more) =~= Seq::<Seq<char>>::empty());
    } else {
        lemma_origins_joined(parts, more.drop_last());
        assert((parts + more).drop_last() =~= parts + more.drop_last());
        assert(origins_of(parts + more) =~= origins_of(parts) + origins_of(more));
    }
}

/// A list of origins has those before a comma and those after it, in order.
pub proof fn law_origins_join(
    first: &str,
    second: &str,
    both: &str,
    a: Vec<String>,
    b: Vec<String>,
    r: Vec<String>,
)
    requires
        both@ == first@ + seq![','] + second@,
        call_ensures(parse_origins, (first,), a),
        call_ensures(parse_origins, (second,), b),
        call_ensures(parse_origins, (both,), r),
    ensures
        text_views(r@) == text_views(a@) + text_views(b@),
{
    lemma_split_joined(first@, ',', second@);
    lemma_origins_joined(split_at(first@, ','), split_at(second@, ','));
}

/// An origin that is listed is read as it stands, and one with a slash behind it
/// without; nothing is read from a blank.
pub proof fn law_an_origin_is_read(
    origin: Seq<char>,
    text: &str,
    r: Vec<String>,
)
    requires
        !origin.contains(','),
        trimmed(origin) == origin,
        origin.len() > 0 ==> origin.last() != '/' && !is_whitespace(origin[0]),
        text@ == origin || (origin.len() > 0 && text@ == origin.push('/')),
        call_ensures(parse_origins, (text,), r),
    ensures
        origin.len() > 0 ==> text_views(r@) == seq![origin],
        origin.len() == 0 ==> r@.len() == 0,
{
    let t = text@;
    assert forall|i: int| 0 <= i < t.len() implies t[i] != ',' by {
        if i < origin.len() {
            assert(t[i] == origin[i]);
            assert(origin.contains(origin[i]));
        }
    }
    lemma_first_index_is(t, ',', t.len() as int);
    assert(split_at(t, ',') =~= seq![t]);
    assert(split_at(t, ',').drop_last() =~= Seq::<Seq<char>>::empty());
    assert(origins_of(Seq::<Seq<char>>::empty()) =~= Seq::<Seq<char>>::empty());
    if t != origin {
        assert(t[0] == origin[0]);
        lemma_trimmed_is_itself(t);
        assert(t.drop_last() =~= origin);
        assert(trim_end_char(t, '/') == trim_end_char(origin, '/'));
    }
    assert(origin_of(t) == origin);
    assert(origins_of(seq![t]) =~= if origin.len() > 0 {
        seq![origin]
    } else {
        Seq::empty()
    });
    assert(text_views(r@).len() == r@.len());
}

/// Push is on exactly where the configured key is one: it is kept without the
/// white space around it, and browsers subscribe with the public key that
/// belongs to it.
pub proof fn law_push_keys_belong_together(
    env: Environment,
    secret: String,
    key: String,
    r: AppState,
)
    requires
        call_ensures(AppState::from_env, (env, secret), r),
        env.vapid_private_key == Some(key),
    ensures
        r.vapid_private_key is Some <==> r.vapid_public_key is Some,
        r.vapid_private_key is Some <==> trimmed(key@).len() == 43 && vapid_point(
            trimmed(key@),
        ) is Some,
        r.vapid_private_key matches Some(kept) ==> kept@ == trimmed(key@) && (r.vapid_public_key
            matches Some(public) && public@ == base64_text(vapid_point(kept@)->0, true)),
{
}

} // verus!
