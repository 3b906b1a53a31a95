//! HttpOnly cookies for session authentication.
//!
//! The session token is kept in an HttpOnly cookie, so that page scripts can
//! never read it. In production the cookie is sent cross-site
//! (`SameSite=None; Secure`); requests that change state and rely on it pass
//! an origin check as well (see `middleware::auth`).

use vstd::hash_map::StringHashMap;
use vstd::prelude::*;
#[allow(unused_imports)]
use vstd::string::*;

use crate::numbers::signed_text;
#[allow(unused_imports)]
use crate::numbers::{decimal, lemma_signed_decimal, signed_decimal};
use crate::text::{eq_ignore_ascii_case, owned, split, split_once, trim};
#[allow(unused_imports)]
use crate::text::{ascii_lowercase, first_index, is_ascii_alphabetic, lemma_first_index, lemma_first_index_is, lemma_split_joined, lemma_split_parts, lemma_trimmed, lemma_trimmed_is_itself, lemma_trimmed_stays, split_at, split_once_at, trimmed, views};

verus! {

pub const SESSION_COOKIE: &'static str = "noap_session";

/// Proves "password accepted, second factor still pending".
pub const TFA_COOKIE: &'static str = "noap_tfa";

/// Seven days, the lifetime of a session.
pub const SESSION_MAX_AGE_SECS: i64 = 604800;

/// Ten minutes to complete the second factor.
pub const TFA_MAX_AGE_SECS: i64 = 600;

/// How cookies are sent.
#[derive(Debug)]
pub struct CookieConfig {
    pub secure: bool,
    pub same_site: String,
}

/// `s` is the word "none", in any case.
pub open spec fn is_none_word(s: Seq<char>) -> bool {
    ascii_lowercase(s) == ascii_lowercase("none"@)
}

impl CookieConfig {
    /// The `SameSite` value in effect.
    pub open spec fn effective_same_site(self) -> Seq<char> {
        if !self.secure && is_none_word(self.same_site@) {
            "Lax"@
        } else {
            self.same_site@
        }
    }

    /// Browsers reject `SameSite=None` without `Secure`; such a configuration
    /// is sent as `Lax`, so that the cookie is kept at all.
    pub fn normalized(&self) -> (r: (bool, String))
        ensures
            r.0 == self.secure,
            r.1@ == self.effective_same_site(),
    {
        if !self.secure && eq_ignore_ascii_case(self.same_site.as_str(), "none") {
            (false, "Lax".to_string())
        } else {
            (self.secure, self.same_site.clone())
        }
    }
}

/// A cookie that is not `Secure` is never sent as `SameSite=None`.
pub proof fn law_same_site_none_is_secure(cfg: CookieConfig)
    ensures
        is_none_word(cfg.effective_same_site()) ==> cfg.secure,
{
    reveal_strlit("Lax");
    reveal_strlit("none");
    if !cfg.secure && is_none_word(cfg.same_site@) {
        assert(ascii_lowercase("Lax"@).len() == 3);
        assert(ascii_lowercase("none"@).len() == 4);
    }
}

/// The name and the value that one part of a `Cookie` header gives.
pub open spec fn cookie_pair(part: Seq<char>) -> Option<(Seq<char>, Seq<char>)> {
    match split_once_at(part, '=') {
        Some((name, value)) => if trimmed(name).len() > 0 {
            Some((trimmed(name), trimmed(value)))
        } else {
            None
        },
        None => None,
    }
}

/// The cookies of the parts of a header; a later part overrides an earlier
/// one of the same name.
pub open spec fn cookie_map(parts: Seq<Seq<char>>) -> Map<Seq<char>, Seq<char>>
    decreases parts.len(),
{
    if parts.len() == 0 {
        Map::empty()
    } else {
        match cookie_pair(parts.last()) {
            Some((name, value)) => cookie_map(parts.drop_last()).insert(name, value),
            None => cookie_map(parts.drop_last()),
        }
    }
}

/// The cookies of a `Cookie` header.
pub open spec fn header_cookies(header: Seq<char>) -> Map<Seq<char>, Seq<char>> {
    cookie_map(split_at(header, ';'))
}

/// `jar` holds exactly the cookies of `expected`.
pub open spec fn holds_cookies(
    jar: Map<Seq<char>, String>,
    expected: Map<Seq<char>, Seq<char>>,
) -> bool {
    &&& jar.dom() == expected.dom()
    &&& forall|name: Seq<char>| #[trigger]
        jar.dom().contains(name) ==> jar[name]@ == expected[name]
}

/// Parses a `Cookie` request header into names and values.
pub fn parse_cookies(header_value: &str) -> (out: StringHashMap<String>)
    ensures
        holds_cookies(out@, header_cookies(header_value@)),
{
    let mut out: StringHashMap<String> = StringHashMap::new();
    let parts = split(header_value, ';');
    let ghost all = split_at(header_value@, ';');
    let mut i: usize = 0;
    assert(all.take(0) =~= Seq::<Seq<char>>::empty());
    assert(out@.dom() =~= cookie_map(all.take(0)).dom());
    while i < parts.len()
        invariant
            i <= parts@.len(),
            views(parts@) == all,
            holds_cookies(out@, cookie_map(all.take(i as int))),
        decreases parts@.len() - i,
    {
        let part = parts[i];
        let ghost before = out@;
        assert(all[i as int] == part@);
        assert(all.take(i + 1).drop_last() =~= all.take(i as int));
        assert(all.take(i + 1).last() == part@);
        if let Some((name, value)) = split_once(part, '=') {
            let name = trim(name);
            if !name.is_empty() {
                out.insert(owned(name), owned(trim(value)));
            }
        }
        assert(out@.dom() =~= cookie_map(all.take(i + 1)).dom());
        i += 1;
    }
    assert(all.take(all.len() as int) =~= all);
    out
}

/// The value of one cookie of a header, where it is there and not empty.
pub open spec fn cookie_value(header: Seq<char>, name: Seq<char>) -> Option<Seq<char>> {
    let jar = header_cookies(header);
    if jar.dom().contains(name) && jar[name].len() > 0 {
        Some(jar[name])
    } else {
        None
    }
}

/// Reads one cookie value from a `Cookie` header, if present and non-empty.
pub fn get_cookie(header_value: &str, name: &str) -> (r: Option<String>)
    ensures
        match r {
            Some(value) => cookie_value(header_value@, name@) == Some(value@),
            None => cookie_value(header_value@, name@) is None,
        },
{
    let jar = parse_cookies(header_value);
    match jar.get(name) {
        Some(value) => {
            if value.as_str().is_empty() {
                None
            } else {
                Some(value.clone())
            }
        },
        None => None,
    }
}

proof fn lemma_maps_join(parts: Seq<Seq<char>>, more: Seq<Seq<char>>)
    ensures
        cookie_map(parts + more) == cookie_map(parts).union_prefer_right(cookie_map(more)),
    decreases more.len(),
{
    if more.len() == 0 {
        assert(parts + more =~= parts);
        assert(cookie_map(parts) =~= cookie_map(parts).union_prefer_right(cookie_map(more)));
    } else {
        lemma_maps_join(parts, more.drop_last());
        assert((parts + more).drop_last() =~= parts + more.drop_last());
        assert(cookie_map(parts + more) =~= cookie_map(parts).union_prefer_right(cookie_map(more)));
    }
}

/// Two headers joined by a `;` have the cookies of both; those of the second
/// override those of the first. An empty header has none.
pub proof fn law_headers_join(first: Seq<char>, second: Seq<char>)
    ensures
        header_cookies(first + seq![';'] + second) == header_cookies(first).union_prefer_right(
            header_cookies(second),
        ),
        header_cookies(Seq::empty()) == Map::<Seq<char>, Seq<char>>::empty(),
{
    let none = split_at(Seq::<char>::empty(), ';');
    assert(none =~= seq![Seq::<char>::empty()]);
    assert(none.drop_last() =~= Seq::<Seq<char>>::empty());
    assert(cookie_map(none.drop_last()) =~= Map::<Seq<char>, Seq<char>>::empty());
    lemma_split_joined(first, ';', second);
    lemma_maps_join(split_at(first, ';'), split_at(second, ';'));
}

proof fn lemma_cookie_of_part(parts: Seq<Seq<char>>, name: Seq<char>)
    requires
        cookie_map(parts).dom().contains(name),
    ensures
        exists|i: int|
            0 <= i < parts.len() && cookie_pair(#[trigger] parts[i]) == Some(
                (name, cookie_map(parts)[name]),
            ),
    decreases parts.len(),
{
    if parts.len() > 0 {
        let last = parts.len() - 1;
        if cookie_pair(parts[last]) matches Some((n, _)) && n == name {
            assert(parts.last() == parts[last]);
        } else {
            lemma_cookie_of_part(parts.drop_last(), name);
            let i = choose|i: int|
                0 <= i < parts.drop_last().len() && cookie_pair(
                    #[trigger] parts.drop_last()[i],
                ) == Some((name, cookie_map(parts.drop_last())[name]));
            assert(parts.drop_last()[i] == parts[i]);
        }
    }
}

/// The name of a cookie is not empty, is trimmed and holds neither `=` nor `;`;
/// its value is trimmed and holds no `;`.
pub proof fn law_cookies_are_clean(header: Seq<char>, name: Seq<char>)
    requires
        header_cookies(header).dom().contains(name),
    ensures
        name.len() > 0,
        trimmed(name) == name,
        !name.contains('=') && !name.contains(';'),
        trimmed(header_cookies(header)[name]) == header_cookies(header)[name],
        !header_cookies(header)[name].contains(';'),
{
    let parts = split_at(header, ';');
    let value = header_cookies(header)[name];
    lemma_split_parts(header, ';');
    lemma_cookie_of_part(parts, name);
    let i = choose|i: int|
        0 <= i < parts.len() && cookie_pair(#[trigger] parts[i]) == Some((name, value));
    let part = parts[i];
    lemma_first_index(part, '=');
    let k = first_index(part, '=');
    let before = part.take(k);
    let after = part.skip(k + 1);
    lemma_trimmed_stays(before);
    lemma_trimmed_stays(after);
    assert(forall|j: int| 0 <= j < before.len() ==> before[j] == #[trigger] part[j]);
    assert forall|c: char| before.contains(c) implies #[trigger] part.contains(c) && c != '=' by {
        let j = choose|j: int| 0 <= j < before.len() && before[j] == c;
        assert(part[j] == c);
    }
    assert forall|c: char| after.contains(c) implies #[trigger] part.contains(c) by {
        let j = choose|j: int| 0 <= j < after.len() && after[j] == c;
        assert(part[k + 1 + j] == c);
    }
    assert forall|c: char| name.contains(c) implies #[trigger] part.contains(c) && c != '=' by {
        let j = choose|j: int| 0 <= j < name.len() && name[j] == c;
        assert(before.contains(name[j]));
        assert(part.contains(c));
    }
    assert forall|c: char| value.contains(c) implies #[trigger] part.contains(c) by {
        let j = choose|j: int| 0 <= j < value.len() && value[j] == c;
        assert(after.contains(value[j]));
        assert(part.contains(c));
    }
    assert(name.contains('=') ==> part.contains('='));
    assert(name.contains(';') ==> part.contains(';'));
    assert(value.contains(';') ==> part.contains(';'));
}

/// A cookie sent back as `name=value` reads as its value.
pub proof fn law_cookie_reads_back(name: Seq<char>, value: Seq<char>)
    requires
        name.len() > 0,
        value.len() > 0,
        trimmed(name) == name,
        trimmed(value) == value,
        forall|i: int| 0 <= i < name.len() ==> name[i] != '=' && name[i] != ';',
        forall|i: int| 0 <= i < value.len() ==> value[i] != ';',
    ensures
        cookie_value(name + seq!['='] + value, name) == Some(value),
{
    lemma_one_cookie(name, value);
}

proof fn lemma_one_cookie(name: Seq<char>, value: Seq<char>)
    requires
        name.len() > 0,
        trimmed(name) == name,
        trimmed(value) == value,
        forall|i: int| 0 <= i < name.len() ==> name[i] != '=' && name[i] != ';',
        forall|i: int| 0 <= i < value.len() ==> value[i] != ';',
    ensures
        header_cookies(name + seq!['='] + value) == Map::<Seq<char>, Seq<char>>::empty().insert(
            name,
            value,
        ),
{
    let header = name + seq!['='] + value;
    assert forall|i: int| 0 <= i < header.len() implies header[i] != ';' by {
        if i < name.len() {
            assert(header[i] == name[i]);
        } else if i > name.len() {
            assert(header[i] == value[i - name.len() - 1]);
        }
    }
    lemma_first_index_is(header, ';', header.len() as int);
    assert(split_at(header, ';') =~= seq![header]);
    assert forall|i: int| 0 <= i < name.len() implies header[i] != '=' by {
        assert(header[i] == name[i]);
    }
    lemma_first_index_is(header, '=', name.len() as int);
    assert(header.take(name.len() as int) =~= name);
    assert(header.skip(name.len() as int + 1) =~= value);
    assert(split_at(header, ';').drop_last() =~= Seq::<Seq<char>>::empty());
    assert(cookie_map(split_at(header, ';').drop_last()) =~= Map::<Seq<char>, Seq<char>>::empty());
}

/// The `Set-Cookie` value for a cookie.
pub open spec fn cookie_form(
    name: Seq<char>,
    value: Seq<char>,
    max_age_secs: int,
    cfg: CookieConfig,
) -> Seq<char> {
    name + "="@ + value + "; Path=/; HttpOnly; Max-Age="@ + signed_decimal(max_age_secs)
        + "; SameSite="@ + cfg.effective_same_site() + (if cfg.secure {
        "; Secure"@
    } else {
        ""@
    })
}

fn build_cookie(name: &str, value: &str, max_age_secs: i64, cfg: &CookieConfig) -> (r: String)
    ensures
        r@ == cookie_form(name@, value@, max_age_secs as int, *cfg),
{
    let (secure, same_site) = cfg.normalized();
    let mut s = owned(name);
    s.push_str("=");
    s.push_str(value);
    s.push_str("; Path=/; HttpOnly; Max-Age=");
    let age = signed_text(max_age_secs);
    s.push_str(age.as_str());
    s.push_str("; SameSite=");
    s.push_str(same_site.as_str());
    s.push_str(
        if secure {
            "; Secure"
        } else {
            ""
        },
    );
    s
}

/// The cookies of a part that begins with a blank and a letter begin with the
/// letter.
proof fn lemma_attribute(part: Seq<char>, name: Seq<char>)
    requires
        part.len() >= 2,
        part[0] == ' ',
        is_ascii_alphabetic(part[1]),
        !part.contains(';'),
        header_cookies(part).dom().contains(name),
    ensures
        name.len() > 0 && name[0] == part[1],
{
    assert forall|i: int| 0 <= i < part.len() implies part[i] != ';' by {
        assert(part.contains(part[i]));
    }
    lemma_first_index_is(part, ';', part.len() as int);
    let parts = split_at(part, ';');
    assert(parts =~= seq![part]);
    lemma_cookie_of_part(parts, name);
    lemma_first_index(part, '=');
    let k = first_index(part, '=');
    let before = part.take(k);
    let (a, b) = lemma_trimmed(before);
    assert(k >= 2);
    assert(before[0] == ' ' && before[1] == part[1]);
    assert(a == 1);
    assert(name == before.subrange(a, b));
}

/// The attributes of a cookie are no cookie of a name in lower case.
proof fn lemma_attributes(age: int, cfg: CookieConfig, name: Seq<char>)
    requires
        !cfg.same_site@.contains(';'),
        name.len() > 0 && 'a' <= name[0] <= 'z',
    ensures
        !header_cookies(cookie_attributes(age, cfg)).dom().contains(name),
{
    let path = " Path=/"@;
    let http = " HttpOnly"@;
    let max = " Max-Age="@ + signed_decimal(age);
    let site = " SameSite="@ + cfg.effective_same_site();
    let secure = " Secure"@;
    let semi = seq![';'];
    reveal_strlit(" Path=/");
    reveal_strlit(" HttpOnly");
    reveal_strlit(" Max-Age=");
    reveal_strlit(" SameSite=");
    reveal_strlit(" Secure");
    reveal_strlit("Lax");
    lemma_signed_decimal(age);
    assert(path[1] == 'P' && http[1] == 'H' && max[1] == 'M' && site[1] == 'S' && secure[1] == 'S');
    assert(!path.contains(';') && !http.contains(';') && !secure.contains(';'));
    assert(!max.contains(';')) by {
        assert forall|i: int| 0 <= i < max.len() implies max[i] != ';' by {
            if i >= 9 {
                assert(max[i] == signed_decimal(age)[i - 9]);
            }
        }
    }
    assert(!site.contains(';')) by {
        let same = cfg.effective_same_site();
        assert(!"Lax"@.contains(';'));
        assert forall|i: int| 0 <= i < site.len() implies site[i] != ';' by {
            if i >= 10 {
                assert(site[i] == same[i - 10]);
                assert(same.contains(same[i - 10]));
            }
        }
    }
    let one = path;
    let two = one + semi + http;
    let three = two + semi + max;
    let four = three + semi + site;
    law_headers_join(one, http);
    law_headers_join(two, max);
    law_headers_join(three, site);
    law_headers_join(four, secure);
    if header_cookies(path).dom().contains(name) {
        lemma_attribute(path, name);
    }
    if header_cookies(http).dom().contains(name) {
        lemma_attribute(http, name);
    }
    if header_cookies(max).dom().contains(name) {
        lemma_attribute(max, name);
    }
    if header_cookies(site).dom().contains(name) {
        lemma_attribute(site, name);
    }
    if header_cookies(secure).dom().contains(name) {
        lemma_attribute(secure, name);
    }
}

/// What follows the name and the value of a cookie, after a `;`.
pub open spec fn cookie_attributes(age: int, cfg: CookieConfig) -> Seq<char> {
    let start = " Path=/"@ + seq![';'] + " HttpOnly"@ + seq![';'] + (" Max-Age="@ + signed_decimal(
        age,
    )) + seq![';'] + (" SameSite="@ + cfg.effective_same_site());
    if cfg.secure {
        start + seq![';'] + " Secure"@
    } else {
        start
    }
}

proof fn lemma_cookie_form(name: Seq<char>, value: Seq<char>, age: int, cfg: CookieConfig)
    ensures
        cookie_form(name, value, age, cfg) == (name + seq!['='] + value) + seq![';']
            + cookie_attributes(age, cfg),
{
    reveal_strlit("=");
    reveal_strlit("; Path=/; HttpOnly; Max-Age=");
    reveal_strlit(" Path=/");
    reveal_strlit(" HttpOnly");
    reveal_strlit(" Max-Age=");
    reveal_strlit("; SameSite=");
    reveal_strlit(" SameSite=");
    reveal_strlit("; Secure");
    reveal_strlit(" Secure");
    reveal_strlit("");
    assert("="@ =~= seq!['=']);
    assert("; Path=/; HttpOnly; Max-Age="@ =~= seq![';'] + " Path=/"@ + seq![';'] + " HttpOnly"@
        + seq![';'] + " Max-Age="@);
    assert("; SameSite="@ =~= seq![';'] + " SameSite="@);
    assert("; Secure"@ =~= seq![';'] + " Secure"@);
    assert(cookie_form(name, value, age, cfg) =~= (name + seq!['='] + value) + seq![';']
        + cookie_attributes(age, cfg));
}

/// A session cookie, read as a header, gives back its token whatever its age,
/// and no proof of a pending second factor. A token may hold a `=`.
pub proof fn law_session_cookie_reads_back(token: Seq<char>, age: int, cfg: CookieConfig)
    requires
        token.len() > 0,
        trimmed(token) == token,
        !token.contains(';'),
        !cfg.same_site@.contains(';'),
    ensures
        cookie_value(cookie_form(SESSION_COOKIE@, token, age, cfg), SESSION_COOKIE@) == Some(token),
        cookie_value(cookie_form(SESSION_COOKIE@, token, age, cfg), TFA_COOKIE@) is None,
{
    lemma_cookie_names();
    lemma_set_cookie(SESSION_COOKIE@, token, age, cfg, TFA_COOKIE@);
}

/// The cookie of a pending second factor reads back as a session cookie does,
/// and is no session.
pub proof fn law_tfa_cookie_reads_back(token: Seq<char>, age: int, cfg: CookieConfig)
    requires
        token.len() > 0,
        trimmed(token) == token,
        !token.contains(';'),
        !cfg.same_site@.contains(';'),
    ensures
        cookie_value(cookie_form(TFA_COOKIE@, token, age, cfg), TFA_COOKIE@) == Some(token),
        cookie_value(cookie_form(TFA_COOKIE@, token, age, cfg), SESSION_COOKIE@) is None,
{
    lemma_cookie_names();
    lemma_set_cookie(TFA_COOKIE@, token, age, cfg, SESSION_COOKIE@);
}

proof fn lemma_cookie_names()
    ensures
        SESSION_COOKIE@.len() == 12 && SESSION_COOKIE@[0] == 'n',
        TFA_COOKIE@.len() == 8 && TFA_COOKIE@[0] == 'n',
        trimmed(SESSION_COOKIE@) == SESSION_COOKIE@,
        trimmed(TFA_COOKIE@) == TFA_COOKIE@,
        forall|i: int|
            0 <= i < SESSION_COOKIE@.len() ==> SESSION_COOKIE@[i] != '=' && SESSION_COOKIE@[i]
                != ';',
        forall|i: int| 0 <= i < TFA_COOKIE@.len() ==> TFA_COOKIE@[i] != '=' && TFA_COOKIE@[i] != ';',
{
    reveal_strlit("noap_session");
    reveal_strlit("noap_tfa");
    lemma_trimmed_is_itself(SESSION_COOKIE@);
    lemma_trimmed_is_itself(TFA_COOKIE@);
}

proof fn lemma_set_cookie(
    name: Seq<char>,
    value: Seq<char>,
    age: int,
    cfg: CookieConfig,
    other: Seq<char>,
)
    requires
        name.len() > 0 && 'a' <= name[0] <= 'z',
        other.len() > 0 && 'a' <= other[0] <= 'z' && other != name,
        value.len() > 0,
        trimmed(name) == name,
        trimmed(value) == value,
        forall|i: int| 0 <= i < name.len() ==> name[i] != '=' && name[i] != ';',
        !value.contains(';'),
        !cfg.same_site@.contains(';'),
    ensures
        cookie_value(cookie_form(name, value, age, cfg), name) == Some(value),
        cookie_value(cookie_form(name, value, age, cfg), other) is None,
{
    let pair = name + seq!['='] + value;
    assert forall|i: int| 0 <= i < value.len() implies value[i] != ';' by {
        assert(value.contains(value[i]));
    }
    lemma_cookie_form(name, value, age, cfg);
    law_headers_join(pair, cookie_attributes(age, cfg));
    lemma_one_cookie(name, value);
    lemma_attributes(age, cfg, name);
    lemma_attributes(age, cfg, other);
}

/// The cookie that carries a session token.
pub fn session_cookie(token: &str, max_age_secs: i64, cfg: &CookieConfig) -> (r: String)
    ensures
        r@ == cookie_form(SESSION_COOKIE@, token@, max_age_secs as int, *cfg),
{
    build_cookie(SESSION_COOKIE, token, max_age_secs, cfg)
}

/// The cookie that carries the proof of a pending second factor.
pub fn tfa_cookie(token: &str, cfg: &CookieConfig) -> (r: String)
    ensures
        r@ == cookie_form(TFA_COOKIE@, token@, TFA_MAX_AGE_SECS as int, *cfg),
{
    build_cookie(TFA_COOKIE, token, TFA_MAX_AGE_SECS, cfg)
}

/// The cookie that removes the session cookie.
pub fn clear_session_cookie(cfg: &CookieConfig) -> (r: String)
    ensures
        r@ == cookie_form(SESSION_COOKIE@, ""@, 0, *cfg),
{
    build_cookie(SESSION_COOKIE, "", 0, cfg)
}

/// The cookie that removes the pending-second-factor cookie.
pub fn clear_tfa_cookie(cfg: &CookieConfig) -> (r: String)
    ensures
        r@ == cookie_form(TFA_COOKIE@, ""@, 0, *cfg),
{
    build_cookie(TFA_COOKIE, "", 0, cfg)
}

// ---------- how cookies are guarded ----------

proof fn lemma_whole(part: Seq<char>)
    requires
        !part.contains(';'),
    ensures
        split_at(part, ';') == seq![part],
{
    assert forall|i: int| 0 <= i < part.len() implies part[i] != ';' by {
        assert(part.contains(part[i]));
    }
    lemma_first_index_is(part, ';', part.len() as int);
    assert(split_at(part, ';') =~= seq![part]);
}

/// The parts of a cookie that is set: its name and value, and how it is guarded.
/// It holds for the whole site and lasts as long as it says. No script reads it.
pub open spec fn cookie_parts(
    name: Seq<char>,
    value: Seq<char>,
    age: Seq<char>,
    site: Seq<char>,
    secure: bool,
) -> Seq<Seq<char>> {
    let parts = seq![
        name + seq!['='] + value,
        " Path=/"@,
        " HttpOnly"@,
        " Max-Age="@ + age,
        " SameSite="@ + site,
    ];
    if secure {
        parts.push(" Secure"@)
    } else {
        parts
    }
}

proof fn lemma_parts(name: Seq<char>, value: Seq<char>, age: int, cfg: CookieConfig)
    requires
        !name.contains(';'),
        !value.contains(';'),
        !cfg.same_site@.contains(';'),
    ensures
        split_at(cookie_form(name, value, age, cfg), ';') == cookie_parts(
            name,
            value,
            signed_decimal(age),
            cfg.effective_same_site(),
            cfg.secure,
        ),
{
    let first = name + seq!['='] + value;
    let path = " Path=/"@;
    let http = " HttpOnly"@;
    let max = " Max-Age="@ + signed_decimal(age);
    let site = " SameSite="@ + cfg.effective_same_site();
    let secure = " Secure"@;
    let semi = seq![';'];
    reveal_strlit(" Path=/");
    reveal_strlit(" HttpOnly");
    reveal_strlit(" Max-Age=");
    reveal_strlit(" SameSite=");
    reveal_strlit(" Secure");
    reveal_strlit("Lax");
    lemma_signed_decimal(age);
    assert(!path.contains(';') && !http.contains(';') && !secure.contains(';'));
    assert(!first.contains(';')) by {
        assert forall|i: int| 0 <= i < first.len() implies first[i] != ';' by {
            if i < name.len() {
                assert(first[i] == name[i]);
                assert(name.contains(name[i]));
            } else if i > name.len() {
                assert(first[i] == value[i - name.len() - 1]);
                assert(value.contains(value[i - name.len() - 1]));
            }
        }
    }
    assert(!max.contains(';')) by {
        assert forall|i: int| 0 <= i < max.len() implies max[i] != ';' by {
            if i >= 9 {
                assert(max[i] == signed_decimal(age)[i - 9]);
            }
        }
    }
    assert(!site.contains(';')) by {
        let same = cfg.effective_same_site();
        assert(!"Lax"@.contains(';'));
        assert forall|i: int| 0 <= i < site.len() implies site[i] != ';' by {
            if i >= 10 {
                assert(site[i] == same[i - 10]);
                assert(same.contains(same[i - 10]));
            }
        }
    }
    lemma_whole(first);
    lemma_whole(path);
    lemma_whole(http);
    lemma_whole(max);
    lemma_whole(site);
    lemma_whole(secure);
    let four = path + semi + http + semi + max + semi + site;
    lemma_split_joined(path, ';', http);
    lemma_split_joined(path + semi + http, ';', max);
    lemma_split_joined(path + semi + http + semi + max, ';', site);
    lemma_split_joined(four, ';', secure);
    lemma_cookie_form(name, value, age, cfg);
    lemma_split_joined(first, ';', cookie_attributes(age, cfg));
    assert(split_at(cookie_form(name, value, age, cfg), ';') =~= cookie_parts(
        name,
        value,
        signed_decimal(age),
        cfg.effective_same_site(),
        cfg.secure,
    ));
}

/// The session cookie carries the token and lasts as long as it is told to, the
/// one of a pending second factor ten minutes. Both are guarded, and marked
/// `Secure` where that is configured.
pub proof fn law_cookies_are_guarded(
    token: &str,
    age: i64,
    cfg: CookieConfig,
    session: String,
    pending: String,
)
    requires
        !token@.contains(';'),
        !cfg.same_site@.contains(';'),
        cfg.secure,
        call_ensures(session_cookie, (token, age, &cfg), session),
        call_ensures(tfa_cookie, (token, &cfg), pending),
    ensures
        split_at(session@, ';') == cookie_parts(
            "noap_session"@,
            token@,
            signed_decimal(age as int),
            cfg.same_site@,
            true,
        ),
        split_at(pending@, ';') == cookie_parts("noap_tfa"@, token@, "600"@, cfg.same_site@, true),
{
    reveal_strlit("noap_session");
    reveal_strlit("noap_tfa");
    lemma_parts("noap_session"@, token@, age as int, cfg);
    lemma_parts("noap_tfa"@, token@, 600, cfg);
    reveal_strlit("600");
    reveal_with_fuel(decimal, 4);
    assert(signed_decimal(600) =~= "600"@);
}

/// Without `Secure`, a cookie for any site is sent for one's own alone.
pub proof fn law_plain_cookies_stay_on_their_site(
    token: &str,
    age: i64,
    cfg: CookieConfig,
    r: String,
)
    requires
        !token@.contains(';'),
        !cfg.same_site@.contains(';'),
        !cfg.secure,
        call_ensures(session_cookie, (token, age, &cfg), r),
    ensures
        split_at(r@, ';') == cookie_parts(
            "noap_session"@,
            token@,
            signed_decimal(age as int),
            if ascii_lowercase(cfg.same_site@) == ascii_lowercase("none"@) {
                "Lax"@
            } else {
                cfg.same_site@
            },
            false,
        ),
{
    reveal_strlit("noap_session");
    lemma_parts("noap_session"@, token@, age as int, cfg);
}

/// A cookie is cleared by an empty one of its name that has run out, guarded
/// alike.
pub proof fn law_cleared_cookies_run_out(cfg: CookieConfig, session: String, pending: String)
    requires
        !cfg.same_site@.contains(';'),
        call_ensures(clear_session_cookie, (&cfg,), session),
        call_ensures(clear_tfa_cookie, (&cfg,), pending),
    ensures
        split_at(session@, ';') == cookie_parts(
            "noap_session"@,
            Seq::empty(),
            "0"@,
            cfg.effective_same_site(),
            cfg.secure,
        ),
        split_at(pending@, ';') == cookie_parts(
            "noap_tfa"@,
            Seq::empty(),
            "0"@,
            cfg.effective_same_site(),
            cfg.secure,
        ),
{
    reveal_strlit("noap_session");
    reveal_strlit("noap_tfa");
    reveal_strlit("");
    assert(""@ =~= Seq::<char>::empty());
    lemma_parts("noap_session"@, ""@, 0, cfg);
    lemma_parts("noap_tfa"@, ""@, 0, cfg);
    reveal_strlit("0");
    assert(signed_decimal(0) =~= "0"@);
}

} // verus!
