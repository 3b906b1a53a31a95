//! Time-based one-time codes of a second factor.

use vstd::prelude::*;
#[allow(unused_imports)]
use vstd::string::*;

use crate::encoding::base64_standard;
#[allow(unused_imports)]
use crate::encoding::{base32_bytes, base32_text, base64_text, law_base32_reads_back};
use crate::text::owned;
#[allow(unused_imports)]
use crate::text::is_ascii_alphanumeric;
use crate::time::UtcTime;

verus! {

/// Digits of a code.
pub const DIGITS: usize = 6;

/// Steps before and after the present one whose codes are accepted too.
pub const SKEW: u8 = 1;

/// Seconds for which a code is shown.
pub const STEP: u64 = 30;

pub const ISSUER: &'static str = "Noap";

// ---------- secrets ----------

/// `totp_rs::Secret::generate_secret`: twenty random bytes.
#[verifier::external_body]
pub(crate) fn generate_secret() -> (r: Vec<u8>)
    ensures
        r@.len() == 20,
{
    match totp_rs::Secret::generate_secret() {
        totp_rs::Secret::Raw(bytes) => bytes,
        totp_rs::Secret::Encoded(text) => text.into_bytes(),
    }
}

/// The key was drawn at random.
pub closed spec fn is_drawn_key(key: Seq<u8>) -> bool {
    exists|v: Vec<u8>| v@ == key && #[trigger] call_ensures(generate_secret, (), v)
}

/// Calls a function that draws a key, and keeps that it is the one that was
/// drawn.
fn drawn_by(draw: impl Fn() -> Vec<u8>) -> (r: Vec<u8>)
    requires
        call_requires(draw, ()),
    ensures
        call_ensures(draw, (), r),
{
    draw()
}

/// Draws the key of a second factor: 20 random bytes.
pub(crate) fn draw_key() -> (r: Vec<u8>)
    ensures
        r@.len() == 20,
        is_drawn_key(r@),
{
    drawn_by(generate_secret)
}

/// `totp_rs::Secret::to_encoded` of a raw secret, as text: the base32 text of
/// the bytes.
#[verifier::external_body]
fn encode_secret(bytes: Vec<u8>) -> (r: String)
    ensures
        r@ == base32_text(bytes@),
{
    totp_rs::Secret::Raw(bytes).to_encoded().to_string()
}

/// `totp_rs::Secret::to_bytes` of an encoded secret: the bytes that the base32
/// text writes; `None` where a character is no base32 digit.
#[verifier::external_body]
fn decode_secret(text: &str) -> (r: Option<Vec<u8>>)
    ensures
        match r {
            Some(bytes) => base32_bytes(text@) == Some(bytes@),
            None => base32_bytes(text@) is None,
        },
{
    totp_rs::Secret::Encoded(text.to_string()).to_bytes().ok()
}

// ---------- codes ----------

/// The code of a key with HMAC-SHA-1 at a counter, as `totp_rs::TOTP` generates
/// it.
pub uninterp spec fn totp_code(key: Seq<u8>, digits: usize, counter: int) -> Seq<char>;

/// A code is that of the step of a time, or of one of the `skew` steps before
/// and after it.
pub open spec fn is_code_at(
    key: Seq<u8>,
    digits: usize,
    skew: u8,
    step: u64,
    code: Seq<char>,
    time: u64,
) -> bool {
    exists|c: int|
        time as int / step as int - skew <= c <= time as int / step as int + skew && code
            == #[trigger] totp_code(key, digits, c)
}

/// `totp_rs::TOTP::new` with HMAC-SHA-1 and its `check`. A key of fewer than
/// sixteen bytes is refused; else a code is accepted where it is that of one of
/// the steps around the time.
#[verifier::external_body]
fn totp_check(key: Vec<u8>, digits: usize, skew: u8, step: u64, code: &str, time: u64) -> (r: Option<
    bool,
>)
    requires
        6 <= digits <= 8,
        step > 0,
        time as int / step as int >= skew,
        time + skew * step <= u64::MAX,
    ensures
        (r is Some) == (key@.len() >= 16),
        r is Some ==> r->0 == (exists|c: int|
            time as int / step as int - skew <= c <= time as int / step as int + skew && code@
                == #[trigger] totp_code(key@, digits, c)),
{
    totp_rs::TOTP::new(totp_rs::Algorithm::SHA1, digits, skew, step, key, None, String::new())
        .ok()
        .map(|totp| totp.check(code, time))
}

/// What the secret of a second factor says of a code: `None` where it is no
/// base32 text or its key is too short.
pub open spec fn tfa_verdict(secret: Seq<char>, code: Seq<char>, now: UtcTime) -> Option<bool> {
    match base32_bytes(secret) {
        None => None,
        Some(key) => if key.len() < 16 {
            None
        } else {
            Some(
                now.secs >= STEP && is_code_at(key, DIGITS, SKEW, STEP, code, now.secs as u64),
            )
        },
    }
}

/// Holds a code against the secret of a second factor.
pub fn check_code(secret: &str, code: &str, now: UtcTime) -> (r: Option<bool>)
    requires
        now.is_clock(),
    ensures
        r == tfa_verdict(secret@, code@, now),
{
    match decode_secret(secret) {
        None => None,
        Some(key) => {
            if key.len() < 16 {
                return None;
            }
            if now.secs < STEP as i64 {
                return Some(false);
            }
            totp_check(key, DIGITS, SKEW, STEP, code, now.secs as u64)
        },
    }
}

// ---------- enrolment ----------

/// The address that an authenticator reads a secret from.
pub open spec fn otpauth_url(key: Seq<u8>, issuer: Seq<char>) -> Seq<char> {
    "otpauth://totp/"@ + issuer + ":?secret="@ + base32_text(key) + "&issuer="@ + issuer
}

/// ASCII letters and digits only.
pub open spec fn is_alphanumeric(s: Seq<char>) -> bool {
    forall|i: int| 0 <= i < s.len() ==> is_ascii_alphanumeric(#[trigger] s[i])
}

/// `totp_rs::TOTP::new` with HMAC-SHA-1 and no account, and its `get_url`. A
/// key of fewer than sixteen bytes is refused. The address carries the key in
/// base32, in the same form as a secret; six digits, thirty seconds and a name
/// of letters and digits stand in it as they are. Of other parameters nothing
/// is said.
#[verifier::external_body]
fn totp_url(key: Vec<u8>, digits: usize, skew: u8, step: u64, issuer: &str) -> (r: Option<String>)
    requires
        6 <= digits <= 8,
        is_alphanumeric(issuer@),
    ensures
        (r is Some) == (key@.len() >= 16),
        r is Some && digits == 6 && step == 30 ==> r->0@ == otpauth_url(key@, issuer@),
{
    let name = Some(issuer.to_string());
    totp_rs::TOTP::new(totp_rs::Algorithm::SHA1, digits, skew, step, key, name, String::new())
        .ok()
        .map(|totp| totp.get_url())
}

/// The bytes of the PNG picture of the QR code of a text, `None` where the text
/// is too long for one.
pub uninterp spec fn qr_picture(text: Seq<char>) -> Option<Seq<u8>>;

/// `qrcode::QrCode::new`, its picture in grey by `render`, and `write_to` of
/// `image` as PNG: the bytes are a function of the text.
#[verifier::external_body]
fn qr_png(text: &str) -> (r: Option<Vec<u8>>)
    ensures
        match r {
            Some(png) => qr_picture(text@) == Some(png@),
            None => qr_picture(text@) is None,
        },
{
    let picture = qrcode::QrCode::new(text.as_bytes()).ok()?.render::<image::Luma<u8>>().build();
    let mut png: Vec<u8> = Vec::new();
    picture.write_to(&mut std::io::Cursor::new(&mut png), image::ImageFormat::Png).ok()?;
    Some(png)
}

/// The address that is the picture itself.
pub open spec fn data_url(png: Seq<u8>) -> Seq<char> {
    "data:image/png;base64,"@ + base64_text(png, false)
}

/// The secret of a second factor and the picture that an authenticator reads it
/// from.
pub struct Enrolment {
    pub secret: String,
    pub qrcode: String,
}

/// `e` is the enrolment of a key; there is none where there is no picture.
pub open spec fn is_enrolment(e: Option<Enrolment>, key: Seq<u8>) -> bool {
    match qr_picture(otpauth_url(key, ISSUER@)) {
        None => e is None,
        Some(png) => e matches Some(x) && x.secret@ == base32_text(key) && x.qrcode@ == data_url(
            png,
        ),
    }
}

/// Enrols a key.
pub fn enrol(key: Vec<u8>) -> (r: Option<Enrolment>)
    requires
        key@.len() >= 16,
    ensures
        is_enrolment(r, key@),
{
    proof {
        reveal_strlit("Noap");
    }
    let mut copy: Vec<u8> = Vec::new();
    let mut i: usize = 0;
    while i < key.len()
        invariant
            i <= key@.len(),
            copy@ == key@.take(i as int),
        decreases key@.len() - i,
    {
        copy.push(key[i]);
        assert(copy@ =~= key@.take(i + 1));
        i += 1;
    }
    assert(copy@ =~= key@);
    let url = match totp_url(copy, DIGITS, SKEW, STEP, ISSUER) {
        Some(url) => url,
        None => {
            return None;
        },
    };
    match qr_png(url.as_str()) {
        None => None,
        Some(png) => {
            let mut qrcode = owned("data:image/png;base64,");
            qrcode.push_str(base64_standard(&png).as_str());
            Some(Enrolment { secret: encode_secret(key), qrcode })
        },
    }
}

/// The code that an authenticator shows for an enrolled key is accepted from
/// one step before to one step after the step that it is shown in.
pub proof fn law_shown_code_is_accepted(key: Seq<u8>, secret: Seq<char>, shown: UtcTime, now: UtcTime)
    requires
        key.len() >= 16,
        secret == base32_text(key),
        shown.is_clock(),
        now.is_clock(),
        now.secs >= STEP,
        now.secs / 30 - 1 <= shown.secs / 30 <= now.secs / 30 + 1,
    ensures
        tfa_verdict(secret, totp_code(key, DIGITS, shown.secs as int / 30), now) == Some(true),
{
    law_base32_reads_back(key);
    let c = shown.secs as int / 30;
    let code = totp_code(key, DIGITS, c);
    assert(now.secs as u64 as int / STEP as int - SKEW <= c <= now.secs as u64 as int / STEP as int
        + SKEW && code == totp_code(key, DIGITS, c));
}

/// The key of a second factor is one that the random number generator gave.
proof fn law_keys_are_drawn(key: Seq<u8>)
    requires
        is_drawn_key(key),
    ensures
        exists|v: Vec<u8>| v@ == key && #[trigger] call_ensures(generate_secret, (), v),
{
}

} // verus!
