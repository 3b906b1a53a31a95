//! Decimal numbers: reading them from text and writing them as text.

use vstd::prelude::*;

use crate::text::{chars_of, digit, is_digit};

verus! {

/// The character of a decimal digit.
pub open spec fn digit_char(d: int) -> char {
    ((48 + d) as u32) as char
}

/// The value of a decimal digit character.
pub open spec fn digit_value(c: char) -> int {
    c as int - 48
}

/// All characters of `s` are decimal digits, and there is at least one.
pub open spec fn is_digits(s: Seq<char>) -> bool {
    s.len() > 0 && forall|i: int| 0 <= i < s.len() ==> is_digit(#[trigger] s[i])
}

/// The number that a sequence of decimal digits writes.
pub open spec fn digits_value(s: Seq<char>) -> int
    decreases s.len(),
{
    if s.len() == 0 {
        0
    } else {
        10 * digits_value(s.drop_last()) + digit_value(s.last())
    }
}

/// What the text `s` writes as an unsigned integer: digits, after a `+` or
/// not.
pub open spec fn unsigned_value(s: Seq<char>) -> Option<int> {
    let body = if s.len() > 0 && s[0] == '+' {
        s.skip(1)
    } else {
        s
    };
    if is_digits(body) {
        Some(digits_value(body))
    } else {
        None
    }
}

/// What the text `s` writes as a signed integer: digits, after a `+`, a `-`
/// or no sign.
pub open spec fn signed_value(s: Seq<char>) -> Option<int> {
    if s.len() > 0 && s[0] == '-' {
        if is_digits(s.skip(1)) {
            Some(-digits_value(s.skip(1)))
        } else {
            None
        }
    } else {
        unsigned_value(s)
    }
}

/// `value` where it lies in `lo..=hi`.
pub open spec fn in_range(value: Option<int>, lo: int, hi: int) -> Option<int> {
    match value {
        Some(v) => if lo <= v <= hi {
            Some(v)
        } else {
            None
        },
        None => None,
    }
}

/// The decimal digits of `n`, without leading zeros.
pub open spec fn decimal(n: nat) -> Seq<char>
    decreases n,
{
    if n < 10 {
        seq![digit_char(n as int)]
    } else {
        decimal(n / 10).push(digit_char((n % 10) as int))
    }
}

/// The decimal digits of `n`, after a `-` where `n` is negative.
pub open spec fn signed_decimal(n: int) -> Seq<char> {
    if n < 0 {
        seq!['-'] + decimal((-n) as nat)
    } else {
        decimal(n as nat)
    }
}

/// A decimal number is written with digits, and a `-` where it is negative.
pub proof fn lemma_signed_decimal(n: int)
    ensures
        forall|i: int|
            0 <= i < signed_decimal(n).len() ==> is_digit(#[trigger] signed_decimal(n)[i])
                || signed_decimal(n)[i] == '-',
{
    if n < 0 {
        lemma_decimal_reads((-n) as nat);
    } else {
        lemma_decimal_reads(n as nat);
    }
}

/// `s` with as many zeros before it as it takes to reach `width` characters.
pub open spec fn zero_padded(s: Seq<char>, width: nat) -> Seq<char>
    decreases width - s.len(),
{
    if s.len() < width {
        zero_padded(seq!['0'] + s, width)
    } else {
        s
    }
}

proof fn lemma_digits_nonnegative(s: Seq<char>)
    requires
        forall|i: int| 0 <= i < s.len() ==> is_digit(#[trigger] s[i]),
    ensures
        digits_value(s) >= 0,
    decreases s.len(),
{
    if s.len() > 0 {
        lemma_digits_nonnegative(s.drop_last());
    }
}

/// Reads the digits of `v` from index `from` on, as a number of at most
/// `limit`.
fn read_digits(v: &Vec<char>, from: usize, limit: u64) -> (r: Option<u64>)
    requires
        from <= v@.len(),
    ensures
        ({
            let s = v@.skip(from as int);
            match r {
                Some(n) => is_digits(s) && digits_value(s) == n && n <= limit,
                None => !is_digits(s) || digits_value(s) > limit,
            }
        }),
{
    let ghost s = v@.skip(from as int);
    if from == v.len() {
        return None;
    }
    let mut n: u64 = 0;
    let mut i: usize = from;
    assert(s.take(0) =~= Seq::<char>::empty());
    let mut over = false;
    while i < v.len()
        invariant
            from <= i <= v@.len(),
            s == v@.skip(from as int),
                forall|j: int| 0 <= j < i - from ==> is_digit(#[trigger] s[j]),
            !over ==> n == digits_value(s.take(i - from)) && n <= limit,
            over ==> digits_value(s.take(i - from)) > limit,
        decreases v@.len() - i,
    {
        let c = v[i];
        assert(c == s[i - from]);
        if !digit(c) {
            return None;
        }
        let d: u64 = (c as u32 - 48) as u64;
        proof {
            let t = s.take(i + 1 - from);
            assert(t.drop_last() =~= s.take(i - from));
            assert(t.last() == c);
            lemma_digits_nonnegative(s.take(i - from));
        }
        if !over {
            if d > limit || n > (limit - d) / 10 {
                over = true;
            } else {
                n = 10 * n + d;
            }
        }
        i += 1;
    }
    assert(s.take(s.len() as int) =~= s);
    if over {
        None
    } else {
        Some(n)
    }
}

/// Reads an unsigned integer of at most `max`.
pub fn parse_unsigned(s: &str, max: u64) -> (r: Option<u64>)
    ensures
        match r {
            Some(n) => in_range(unsigned_value(s@), 0, max as int) == Some(n as int),
            None => in_range(unsigned_value(s@), 0, max as int) is None,
        },
{
    let v = chars_of(s);
    let from: usize = if v.len() > 0 && v[0] == '+' {
        1
    } else {
        0
    };
    assert(v@.skip(0) =~= v@);
    let r = read_digits(&v, from, max);
    proof {
        if is_digits(v@.skip(from as int)) {
            lemma_digits_nonnegative(v@.skip(from as int));
        }
    }
    r
}

/// What digits alone write, where they are at least one and at most `max`.
pub open spec fn few_digits(s: Seq<char>, max: int) -> Option<int> {
    if is_digits(s) && s.len() <= max {
        Some(digits_value(s))
    } else {
        None
    }
}

/// Reads up to four digits, without a sign.
pub fn parse_digits(s: &str, max: usize) -> (r: Option<u32>)
    requires
        max <= 4,
    ensures
        match r {
            Some(n) => few_digits(s@, max as int) == Some(n as int),
            None => few_digits(s@, max as int) is None,
        },
{
    let v = chars_of(s);
    if v.len() > max {
        return None;
    }
    assert(v@.skip(0) =~= v@);
    proof {
        if is_digits(v@) {
            lemma_digits_below(v@);
        }
    }
    match read_digits(&v, 0, 9999) {
        Some(n) => Some(n as u32),
        None => None,
    }
}

/// Reads a `u16`.
pub fn parse_u16(s: &str) -> (r: Option<u16>)
    ensures
        match r {
            Some(n) => in_range(unsigned_value(s@), 0, u16::MAX as int) == Some(n as int),
            None => in_range(unsigned_value(s@), 0, u16::MAX as int) is None,
        },
{
    match parse_unsigned(s, u16::MAX as u64) {
        Some(n) => Some(n as u16),
        None => None,
    }
}

/// Reads an `i64`.
pub fn parse_i64(s: &str) -> (r: Option<i64>)
    ensures
        match r {
            Some(n) => in_range(signed_value(s@), i64::MIN as int, i64::MAX as int) == Some(
                n as int,
            ),
            None => in_range(signed_value(s@), i64::MIN as int, i64::MAX as int) is None,
        },
{
    let v = chars_of(s);
    if v.len() > 0 && v[0] == '-' {
        match read_digits(&v, 1, 0x8000_0000_0000_0000) {
            Some(n) => Some((-(n as i128)) as i64),
            None => None,
        }
    } else {
        proof {
            if unsigned_value(s@) is Some {
                if s@.len() > 0 && s@[0] == '+' {
                    lemma_digits_nonnegative(s@.skip(1));
                } else {
                    lemma_digits_nonnegative(s@);
                }
            }
        }
        match parse_unsigned(s, i64::MAX as u64) {
            Some(n) => Some(n as i64),
            None => None,
        }
    }
}

/// Reads an `i32`.
pub fn parse_i32(s: &str) -> (r: Option<i32>)
    ensures
        match r {
            Some(n) => in_range(signed_value(s@), i32::MIN as int, i32::MAX as int) == Some(
                n as int,
            ),
            None => in_range(signed_value(s@), i32::MIN as int, i32::MAX as int) is None,
        },
{
    match parse_i64(s) {
        Some(n) => if i32::MIN as i64 <= n && n <= i32::MAX as i64 {
            Some(n as i32)
        } else {
            None
        },
        None => None,
    }
}

/// The character of the digit `d`.
pub fn char_of_digit(d: u64) -> (c: char)
    requires
        d < 10,
    ensures
        c == digit_char(d as int),
{
    (48 + d as u8) as char
}

/// The decimal text of `n`.
pub fn decimal_text(n: u64) -> (s: String)
    ensures
        s@ == decimal(n as nat),
    decreases n,
{
    if n < 10 {
        let mut s = String::new();
        s.push(char_of_digit(n));
        assert(s@ =~= seq![digit_char(n as int)]);
        s
    } else {
        let mut s = decimal_text(n / 10);
        s.push(char_of_digit(n % 10));
        s
    }
}

/// The decimal text of a signed number.
pub fn signed_text(n: i64) -> (s: String)
    ensures
        s@ == signed_decimal(n as int),
{
    if n < 0 {
        let mut s = String::new();
        s.push('-');
        let digits = decimal_text((-(n as i128)) as u64);
        s.push_str(digits.as_str());
        assert(s@ =~= signed_decimal(n as int));
        s
    } else {
        decimal_text(n as u64)
    }
}

/// The decimal text of `n`, with zeros before it up to `width` characters.
pub fn padded_text(n: u64, width: usize) -> (s: String)
    ensures
        s@ == zero_padded(decimal(n as nat), width as nat),
{
    let digits = decimal_text(n);
    let mut s = digits.as_str().to_string();
    let mut len: usize = digits.as_str().unicode_len();
    while len < width
        invariant
            len == s@.len(),
            zero_padded(s@, width as nat) == zero_padded(decimal(n as nat), width as nat),
        decreases width - len,
    {
        let mut t = String::new();
        t.push('0');
        t.push_str(s.as_str());
        assert(t@ =~= seq!['0'] + s@);
        s = t;
        len += 1;
    }
    s
}

// ---------- What is written reads back ----------

/// The decimal text of a number reads back as the number.
pub proof fn lemma_decimal_reads(n: nat)
    ensures
        is_digits(decimal(n)),
        digits_value(decimal(n)) == n,
    decreases n,
{
    if n < 10 {
        let s = decimal(n);
        assert(s =~= seq![digit_char(n as int)]);
        assert(s.drop_last() =~= Seq::empty());
        assert(digits_value(s.drop_last()) == 0);
    } else {
        lemma_decimal_reads(n / 10);
        let s = decimal(n);
        let head = decimal(n / 10);
        let c = digit_char((n % 10) as int);
        assert(s.drop_last() =~= head);
        assert(is_digit(c));
        assert forall|i: int| 0 <= i < s.len() implies is_digit(#[trigger] s[i]) by {
            if i < head.len() {
                assert(s[i] == head[i]);
            }
        }
    }
}

proof fn lemma_leading_zero(s: Seq<char>)
    ensures
        digits_value(seq!['0'] + s) == digits_value(s),
    decreases s.len(),
{
    let t = seq!['0'] + s;
    if s.len() == 0 {
        assert(t.drop_last() =~= Seq::empty());
        assert(digits_value(t.drop_last()) == 0);
    } else {
        lemma_leading_zero(s.drop_last());
        assert(t.drop_last() =~= seq!['0'] + s.drop_last());
        assert(t.last() == s.last());
    }
}

/// Zeros before a number do not change it.
pub proof fn lemma_padded_reads(s: Seq<char>, width: nat)
    requires
        is_digits(s),
    ensures
        is_digits(zero_padded(s, width)),
        digits_value(zero_padded(s, width)) == digits_value(s),
        zero_padded(s, width).len() == (if s.len() < width {
            width
        } else {
            s.len()
        }),
    decreases width - s.len(),
{
    if s.len() < width {
        let t = seq!['0'] + s;
        lemma_leading_zero(s);
        assert forall|i: int| 0 <= i < t.len() implies is_digit(#[trigger] t[i]) by {
            if i > 0 {
                assert(t[i] == s[i - 1]);
            }
        }
        lemma_padded_reads(t, width);
    }
}

/// How many digits a number has.
pub proof fn lemma_decimal_len(n: nat)
    ensures
        n < 10 ==> decimal(n).len() == 1,
        n < 100 ==> decimal(n).len() <= 2,
        n < 1000 ==> decimal(n).len() <= 3,
        n < 10000 ==> decimal(n).len() <= 4,
{
    reveal_with_fuel(decimal, 4);
}

/// A text of at most four digits writes less than the power of ten.
pub proof fn lemma_digits_below(s: Seq<char>)
    requires
        is_digits(s),
        s.len() <= 4,
    ensures
        0 <= digits_value(s) < 10000,
        s.len() <= 3 ==> digits_value(s) < 1000,
{
    reveal_with_fuel(digits_value, 5);
    assert(is_digit(s[0]));
    assert(is_digit(s[s.len() - 1]));
    if s.len() >= 2 {
        assert(is_digit(s[s.len() - 2]));
    }
    if s.len() >= 3 {
        assert(is_digit(s[s.len() - 3]));
    }
}

/// A number that is written reads back, with its sign, where it fits what is
/// read; the digits of a number are its own, the last one last.
pub proof fn law_numbers_read_back(
    n: i64,
    back: &str,
    text: String,
    long: Option<i64>,
    short: Option<i32>,
    port: Option<u16>,
)
    requires
        call_ensures(signed_text, (n,), text),
        back@ == text@,
        call_ensures(parse_i64, (back,), long),
        call_ensures(parse_i32, (back,), short),
        call_ensures(parse_u16, (back,), port),
    ensures
        long == Some(n),
        i32::MIN <= n <= i32::MAX ==> short == Some(n as i32),
        !(i32::MIN <= n <= i32::MAX) ==> short is None,
        0 <= n <= u16::MAX ==> port == Some(n as u16),
        !(0 <= n <= u16::MAX) ==> port is None,
        n < 0 ==> text@[0] == '-',
        n >= 0 ==> text@.last() as int == '0' as int + n % 10,
{
    let s = text@;
    if n < 0 {
        lemma_decimal_reads((-n) as nat);
        assert(s.skip(1) =~= decimal((-n) as nat));
        assert(!is_digit('-'));
        assert(!is_digits(s)) by {
            assert(s[0] == '-');
        }
    } else {
        lemma_decimal_reads(n as nat);
        assert(s.len() > 0 && is_digit(s[0]));
    }
}

/// A text with anything but digits behind its sign is no number.
pub proof fn law_other_texts_are_no_number(
    text: &str,
    k: int,
    long: Option<i64>,
    port: Option<u16>,
)
    requires
        0 <= k < text@.len(),
        !is_digit(text@[k]),
        k > 0 || (text@[0] != '+' && text@[0] != '-') || text@.len() == 1,
        call_ensures(parse_i64, (text,), long),
        call_ensures(parse_u16, (text,), port),
    ensures
        long is None,
        port is None,
{
    let s = text@;
    let rest = s.skip(1);
    if k > 0 {
        assert(rest[k - 1] == s[k]);
        assert(!is_digits(rest));
    }
    assert(!is_digits(s));
}

} // verus!
