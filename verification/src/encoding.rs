//! Base64 and base32.

use vstd::prelude::*;

verus! {

/// The base64 digit for a value below 64, in the standard or the URL-safe
/// alphabet.
pub open spec fn base64_digit(n: int, url_safe: bool) -> char {
    if n < 26 {
        ('A' as int + n) as char
    } else if n < 52 {
        ('a' as int + (n - 26)) as char
    } else if n < 62 {
        ('0' as int + (n - 52)) as char
    } else if n == 62 {
        if url_safe {
            '-'
        } else {
            '+'
        }
    } else {
        if url_safe {
            '_'
        } else {
            '/'
        }
    }
}

/// The base64 text of bytes: four digits for three bytes. What is left over
/// makes two or three digits, padded with `=` in the standard form and not in
/// the URL-safe form.
pub open spec fn base64_text(b: Seq<u8>, url_safe: bool) -> Seq<char>
    decreases b.len(),
{
    if b.len() == 0 {
        Seq::empty()
    } else if b.len() == 1 {
        seq![base64_digit(b[0] as int / 4, url_safe), base64_digit(b[0] as int % 4 * 16, url_safe)]
            + (if url_safe {
            Seq::empty()
        } else {
            seq!['=', '=']
        })
    } else if b.len() == 2 {
        seq![
            base64_digit(b[0] as int / 4, url_safe),
            base64_digit(b[0] as int % 4 * 16 + b[1] as int / 16, url_safe),
            base64_digit(b[1] as int % 16 * 4, url_safe),
        ] + (if url_safe {
            Seq::empty()
        } else {
            seq!['=']
        })
    } else {
        seq![
            base64_digit(b[0] as int / 4, url_safe),
            base64_digit(b[0] as int % 4 * 16 + b[1] as int / 16, url_safe),
            base64_digit(b[1] as int % 16 * 4 + b[2] as int / 64, url_safe),
            base64_digit(b[2] as int % 64, url_safe),
        ] + base64_text(b.skip(3), url_safe)
    }
}

/// `base64::engine::general_purpose::URL_SAFE_NO_PAD.encode`.
#[verifier::external_body]
pub(crate) fn base64_url(bytes: &Vec<u8>) -> (r: String)
    ensures
        r@ == base64_text(bytes@, true),
{
    base64::Engine::encode(&base64::engine::general_purpose::URL_SAFE_NO_PAD, bytes)
}

/// `base64::engine::general_purpose::STANDARD.encode`.
#[verifier::external_body]
pub(crate) fn base64_standard(bytes: &Vec<u8>) -> (r: String)
    ensures
        r@ == base64_text(bytes@, false),
{
    base64::Engine::encode(&base64::engine::general_purpose::STANDARD, bytes)
}

/// A letter, a digit, `-` or `_`.
pub open spec fn is_url_char(c: char) -> bool {
    'A' <= c <= 'Z' || 'a' <= c <= 'z' || '0' <= c <= '9' || c == '-' || c == '_'
}

/// The URL-safe text of bytes has four characters for three bytes, and two or
/// three for what is left over; it is not padded.
pub proof fn law_url_text_is_not_padded(b: Seq<u8>)
    ensures
        base64_text(b, true).len() == (4 * b.len() + 2) / 3,
        forall|i: int|
            0 <= i < base64_text(b, true).len() ==> is_url_char(#[trigger] base64_text(b, true)[i]),
    decreases b.len(),
{
    assert forall|n: int| 0 <= n < 64 implies is_url_char(#[trigger] base64_digit(n, true)) by {}
    if b.len() >= 3 {
        law_url_text_is_not_padded(b.skip(3));
        let rest = base64_text(b.skip(3), true);
        let text = base64_text(b, true);
        assert forall|i: int| 0 <= i < text.len() implies is_url_char(#[trigger] text[i]) by {
            if i >= 4 {
                assert(text[i] == rest[i - 4]);
            }
        }
    }
}

// ---------- base32 ----------

/// The base32 digit for a value below 32.
pub open spec fn base32_digit(n: int) -> char {
    if n < 26 {
        ('A' as int + n) as char
    } else {
        ('2' as int + (n - 26)) as char
    }
}

/// A base32 digit: an upper-case letter, or one of `2` to `7`.
pub open spec fn is_base32_digit(c: char) -> bool {
    'A' <= c <= 'Z' || '2' <= c <= '7'
}

/// The value of a base32 digit.
pub open spec fn base32_digit_value(c: char) -> int {
    if 'A' <= c <= 'Z' {
        c as int - 'A' as int
    } else {
        c as int - '2' as int + 26
    }
}

/// The byte at `i`, zero behind the last.
pub open spec fn byte_or_zero(b: Seq<u8>, i: int) -> int {
    if i < b.len() {
        b[i] as int
    } else {
        0
    }
}

/// The value of the digit at `i`, zero behind the last.
pub open spec fn digit_or_zero(s: Seq<char>, i: int) -> int {
    if i < s.len() {
        base32_digit_value(s[i])
    } else {
        0
    }
}

/// The five bits that make the digit at `i`: eight digits for five bytes.
pub open spec fn five_bits(b: Seq<u8>, i: int) -> int {
    let g = i / 8 * 5;
    if i % 8 == 0 {
        byte_or_zero(b, g) / 8
    } else if i % 8 == 1 {
        byte_or_zero(b, g) % 8 * 4 + byte_or_zero(b, g + 1) / 64
    } else if i % 8 == 2 {
        byte_or_zero(b, g + 1) / 2 % 32
    } else if i % 8 == 3 {
        byte_or_zero(b, g + 1) % 2 * 16 + byte_or_zero(b, g + 2) / 16
    } else if i % 8 == 4 {
        byte_or_zero(b, g + 2) % 16 * 2 + byte_or_zero(b, g + 3) / 128
    } else if i % 8 == 5 {
        byte_or_zero(b, g + 3) / 4 % 32
    } else if i % 8 == 6 {
        byte_or_zero(b, g + 3) % 4 * 8 + byte_or_zero(b, g + 4) / 32
    } else {
        byte_or_zero(b, g + 4) % 32
    }
}

/// The eight bits that digits give for the byte at `i`.
pub open spec fn eight_bits(s: Seq<char>, i: int) -> int {
    let g = i / 5 * 8;
    if i % 5 == 0 {
        digit_or_zero(s, g) * 8 + digit_or_zero(s, g + 1) / 4
    } else if i % 5 == 1 {
        digit_or_zero(s, g + 1) % 4 * 64 + digit_or_zero(s, g + 2) * 2 + digit_or_zero(s, g + 3)
            / 16
    } else if i % 5 == 2 {
        digit_or_zero(s, g + 3) % 16 * 16 + digit_or_zero(s, g + 4) / 2
    } else if i % 5 == 3 {
        digit_or_zero(s, g + 4) % 2 * 128 + digit_or_zero(s, g + 5) * 4 + digit_or_zero(s, g + 6)
            / 8
    } else {
        digit_or_zero(s, g + 6) % 8 * 32 + digit_or_zero(s, g + 7)
    }
}

/// The base32 text of bytes, not padded.
pub open spec fn base32_text(b: Seq<u8>) -> Seq<char> {
    Seq::new(((b.len() * 8 + 4) / 5) as nat, |i: int| base32_digit(five_bits(b, i)))
}

/// The bytes that a base32 text without padding writes: as many whole ones as
/// its digits have the bits for.
pub open spec fn base32_bytes(s: Seq<char>) -> Option<Seq<u8>> {
    if forall|i: int| 0 <= i < s.len() ==> is_base32_digit(#[trigger] s[i]) {
        Some(Seq::new((s.len() * 5 / 8) as nat, |i: int| eight_bits(s, i) as u8))
    } else {
        None
    }
}

/// Bytes read back from their base32 text.
pub proof fn law_base32_reads_back(b: Seq<u8>)
    ensures
        base32_bytes(base32_text(b)) == Some(b),
{
    let s = base32_text(b);
    assert forall|i: int| 0 <= i < s.len() implies is_base32_digit(#[trigger] s[i])
        && base32_digit_value(s[i]) == five_bits(b, i) by {
        assert(0 <= five_bits(b, i) < 32);
    }
    assert(s.len() * 5 / 8 == b.len());
    let r = base32_bytes(s)->0;
    assert forall|i: int| 0 <= i < b.len() implies r[i] == b[i] by {
        lemma_base32_byte(b, i);
    }
    assert(r =~= b);
}

proof fn lemma_base32_digit(b: Seq<u8>, i: int)
    requires
        0 <= i < base32_text(b).len(),
    ensures
        digit_or_zero(base32_text(b), i) == five_bits(b, i),
{
    assert(0 <= five_bits(b, i) < 32);
}

/// Five bytes are their eight digits put together again.
proof fn lemma_bits(a: int, b: int, c: int, d: int, e: int)
    requires
        0 <= a < 256,
        0 <= b < 256,
        0 <= c < 256,
        0 <= d < 256,
        0 <= e < 256,
    ensures
        a / 8 * 8 + (a % 8 * 4 + b / 64) / 4 == a,
        (a % 8 * 4 + b / 64) % 4 * 64 + (b / 2 % 32) * 2 + (b % 2 * 16 + c / 16) / 16 == b,
        (b % 2 * 16 + c / 16) % 16 * 16 + (c % 16 * 2 + d / 128) / 2 == c,
        (c % 16 * 2 + d / 128) % 2 * 128 + (d / 4 % 32) * 4 + (d % 4 * 8 + e / 32) / 8 == d,
        (d % 4 * 8 + e / 32) % 8 * 32 + e % 32 == e,
{
}

proof fn lemma_base32_byte(b: Seq<u8>, i: int)
    requires
        0 <= i < b.len(),
    ensures
        eight_bits(base32_text(b), i) == b[i],
{
    let q = i / 5;
    let g = q * 8;
    let n = base32_text(b).len();
    let h = q * 5;
    assert(n == (b.len() * 8 + 4) / 5);
    lemma_bits(
        byte_or_zero(b, h),
        byte_or_zero(b, h + 1),
        byte_or_zero(b, h + 2),
        byte_or_zero(b, h + 3),
        byte_or_zero(b, h + 4),
    );
    if i % 5 == 0 {
        lemma_base32_digit(b, g);
        lemma_base32_digit(b, g + 1);
    } else if i % 5 == 1 {
        lemma_base32_digit(b, g + 1);
        lemma_base32_digit(b, g + 2);
        lemma_base32_digit(b, g + 3);
    } else if i % 5 == 2 {
        lemma_base32_digit(b, g + 3);
        lemma_base32_digit(b, g + 4);
    } else if i % 5 == 3 {
        lemma_base32_digit(b, g + 4);
        lemma_base32_digit(b, g + 5);
        lemma_base32_digit(b, g + 6);
    } else {
        lemma_base32_digit(b, g + 6);
        lemma_base32_digit(b, g + 7);
    }
}

} // verus!
