//! Characters, slices of text and the string operations that the rest of the
//! crate is written with.
//!
//! A text is modelled by the sequence of its characters; every operation
//! states its result as a function of that sequence.

use vstd::prelude::*;
#[allow(unused_imports)]
use vstd::string::*;
#[allow(unused_imports)]
use vstd::utf8::*;

verus! {

/// `String::push` appends one character.
pub assume_specification[ String::push ](s: &mut String, c: char)
    ensures
        final(s)@ == old(s)@.push(c),
;

/// `String::push_str` appends a text.
pub assume_specification[ String::push_str ](s: &mut String, other: &str)
    ensures
        final(s)@ == old(s)@ + other@,
;

/// What `str::to_lowercase` makes of a text that is not all ASCII.
pub uninterp spec fn unicode_lowercase(s: Seq<char>) -> Seq<char>;

/// What `str::to_uppercase` makes of a text that is not all ASCII.
pub uninterp spec fn unicode_uppercase(s: Seq<char>) -> Seq<char>;

/// `s` with `inner` in the place of what is left of it when it is trimmed.
pub open spec fn around(s: Seq<char>, inner: Seq<char>) -> Seq<char> {
    let from = s.len() - trim_start(s).len();
    s.take(from) + inner + s.skip(from + trimmed(s).len())
}

/// The lowercase of a text: of ASCII text letter by letter. Of other text, the
/// case of the ASCII letters makes no difference, and no upper-case ASCII letter
/// is left; white space around it stays, and makes no difference either.
pub open spec fn lowercase(s: Seq<char>) -> Seq<char> {
    if is_ascii_chars(s) {
        ascii_lowercase(s)
    } else if is_ascii_chars(trimmed(s)) {
        around(s, ascii_lowercase(trimmed(s)))
    } else {
        around(s, ascii_lowercase(unicode_lowercase(ascii_lowercase(trimmed(s)))))
    }
}

/// The uppercase of a text: of ASCII text letter by letter.
pub open spec fn uppercase(s: Seq<char>) -> Seq<char> {
    if is_ascii_chars(s) {
        ascii_uppercase(s)
    } else {
        unicode_uppercase(s)
    }
}

/// `str::to_lowercase`: on ASCII text the letter-by-letter lowercase. On other
/// text it is a function of the text in which the case of ASCII letters makes
/// no difference, and its result has no upper-case ASCII letter. White space has
/// no case, and ends a word: that around a text stays as it is, and changes
/// nothing in what becomes of the text.
#[verifier::external_body]
pub(crate) fn to_lowercase(s: &str) -> (res: String)
    ensures
        is_ascii_chars(s@) ==> res@ == ascii_lowercase(s@),
        !is_ascii_chars(s@) && is_ascii_chars(trimmed(s@)) ==> res@ == around(
            s@,
            ascii_lowercase(trimmed(s@)),
        ),
        !is_ascii_chars(s@) && !is_ascii_chars(trimmed(s@)) ==> res@ == around(
            s@,
            ascii_lowercase(unicode_lowercase(ascii_lowercase(trimmed(s@)))),
        ),
{
    s.to_lowercase()
}

/// `str::to_uppercase`: on ASCII text the letter-by-letter uppercase, on other
/// text a function of the text.
#[verifier::external_body]
pub(crate) fn to_uppercase(s: &str) -> (res: String)
    ensures
        is_ascii_chars(s@) ==> res@ == ascii_uppercase(s@),
        !is_ascii_chars(s@) ==> res@ == unicode_uppercase(s@),
{
    s.to_uppercase()
}

// ---------- Characters ----------

/// The Unicode `White_Space` property.
pub open spec fn is_whitespace(c: char) -> bool {
    ||| '\u{9}' <= c <= '\u{d}'
    ||| c == '\u{20}'
    ||| c == '\u{85}'
    ||| c == '\u{a0}'
    ||| c == '\u{1680}'
    ||| '\u{2000}' <= c <= '\u{200a}'
    ||| c == '\u{2028}'
    ||| c == '\u{2029}'
    ||| c == '\u{202f}'
    ||| c == '\u{205f}'
    ||| c == '\u{3000}'
}

pub open spec fn is_digit(c: char) -> bool {
    '0' <= c <= '9'
}

pub open spec fn is_ascii_alphabetic(c: char) -> bool {
    ('a' <= c <= 'z') || ('A' <= c <= 'Z')
}

pub open spec fn is_ascii_alphanumeric(c: char) -> bool {
    is_digit(c) || is_ascii_alphabetic(c)
}

pub open spec fn ascii_lower(c: char) -> char {
    if 'A' <= c <= 'Z' {
        ((c as u32 + 32) as u32) as char
    } else {
        c
    }
}

pub open spec fn ascii_upper(c: char) -> char {
    if 'a' <= c <= 'z' {
        ((c as u32 - 32) as u32) as char
    } else {
        c
    }
}

pub open spec fn ascii_lowercase(s: Seq<char>) -> Seq<char> {
    Seq::new(s.len(), |i: int| ascii_lower(s[i]))
}

pub open spec fn ascii_uppercase(s: Seq<char>) -> Seq<char> {
    Seq::new(s.len(), |i: int| ascii_upper(s[i]))
}

/// Number of bytes of the UTF-8 form of a text.
pub open spec fn byte_len(s: Seq<char>) -> usize {
    encode_utf8(s).len() as usize
}

pub fn white(c: char) -> (r: bool)
    ensures
        r == is_whitespace(c),
{
    ('\u{9}' <= c && c <= '\u{d}') || c == '\u{20}' || c == '\u{85}' || c == '\u{a0}' || c
        == '\u{1680}' || ('\u{2000}' <= c && c <= '\u{200a}') || c == '\u{2028}' || c == '\u{2029}'
        || c == '\u{202f}' || c == '\u{205f}' || c == '\u{3000}'
}

pub fn digit(c: char) -> (r: bool)
    ensures
        r == is_digit(c),
{
    '0' <= c && c <= '9'
}

pub fn alphabetic(c: char) -> (r: bool)
    ensures
        r == is_ascii_alphabetic(c),
{
    ('a' <= c && c <= 'z') || ('A' <= c && c <= 'Z')
}

pub fn alphanumeric(c: char) -> (r: bool)
    ensures
        r == is_ascii_alphanumeric(c),
{
    digit(c) || alphabetic(c)
}

/// The ASCII lowercase of one character.
pub fn lower(c: char) -> (r: char)
    ensures
        r == ascii_lower(c),
{
    if 'A' <= c && c <= 'Z' {
        (c as u8 + 32) as char
    } else {
        c
    }
}

// ---------- Text and its characters ----------

/// The characters of a text.
pub fn chars_of(s: &str) -> (v: Vec<char>)
    ensures
        v@ == s@,
{
    let mut v: Vec<char> = Vec::new();
    for c in it: s.chars()
        invariant
            it.seq() == s@,
            v@ == s@.take(it.index() as int),
    {
        v.push(c);
        assert(v@ =~= s@.take(it.index() + 1));
    }
    assert(s@.take(s@.len() as int) =~= s@);
    v
}

/// The text made of the characters `from..to`.
pub fn text_of(v: &Vec<char>, from: usize, to: usize) -> (s: String)
    requires
        from <= to <= v@.len(),
    ensures
        s@ == v@.subrange(from as int, to as int),
{
    let mut s = String::new();
    let mut i = from;
    while i < to
        invariant
            from <= i <= to <= v@.len(),
            s@ == v@.subrange(from as int, i as int),
        decreases to - i,
    {
        s.push(v[i]);
        i += 1;
        assert(s@ =~= v@.subrange(from as int, i as int));
    }
    s
}

/// A copy of a text.
pub fn owned(s: &str) -> (r: String)
    ensures
        r@ == s@,
{
    s.to_string()
}

/// Whether two texts are the same.
pub fn same(a: &str, b: &str) -> (r: bool)
    ensures
        r == (a@ == b@),
{
    let x = chars_of(a);
    let y = chars_of(b);
    if x.len() != y.len() {
        return false;
    }
    let mut i: usize = 0;
    while i < x.len()
        invariant
            x@ == a@,
            y@ == b@,
            x.len() == y.len(),
            i <= x.len(),
            forall|j: int| 0 <= j < i ==> x@[j] == y@[j],
        decreases x.len() - i,
    {
        if x[i] != y[i] {
            return false;
        }
        i += 1;
    }
    assert(a@ =~= b@);
    true
}

// ---------- Trimming ----------

/// `s` without its leading white space.
pub open spec fn trim_start(s: Seq<char>) -> Seq<char>
    decreases s.len(),
{
    if s.len() > 0 && is_whitespace(s[0]) {
        trim_start(s.skip(1))
    } else {
        s
    }
}

/// `s` without its trailing white space.
pub open spec fn trim_end(s: Seq<char>) -> Seq<char>
    decreases s.len(),
{
    if s.len() > 0 && is_whitespace(s.last()) {
        trim_end(s.drop_last())
    } else {
        s
    }
}

/// `s` without leading and trailing white space.
pub open spec fn trimmed(s: Seq<char>) -> Seq<char> {
    trim_end(trim_start(s))
}

/// `s` without the characters `c` at its end.
pub open spec fn trim_end_char(s: Seq<char>, c: char) -> Seq<char>
    decreases s.len(),
{
    if s.len() > 0 && s.last() == c {
        trim_end_char(s.drop_last(), c)
    } else {
        s
    }
}

/// The slice of a text without leading and trailing white space.
pub fn trim<'a>(s: &'a str) -> (r: &'a str)
    ensures
        r@ == trimmed(s@),
{
    let v = chars_of(s);
    let mut a: usize = 0;
    assert(s@.skip(0) =~= s@);
    while a < v.len() && white(v[a])
        invariant
            v@ == s@,
            a <= v.len(),
            trim_start(s@.skip(a as int)) == trim_start(s@),
        decreases v.len() - a,
    {
        assert(s@.skip(a as int).skip(1) =~= s@.skip(a + 1));
        a += 1;
    }
    assert(trim_start(s@) == s@.skip(a as int));
    let mut b: usize = v.len();
    assert(s@.subrange(a as int, b as int) =~= s@.skip(a as int));
    while b > a && white(v[b - 1])
        invariant
            v@ == s@,
            a <= b <= v.len(),
            trim_end(s@.subrange(a as int, b as int)) == trimmed(s@),
        decreases b,
    {
        assert(s@.subrange(a as int, b as int).drop_last() =~= s@.subrange(a as int, b - 1));
        b -= 1;
    }
    s.substring_char(a, b)
}

/// The slice of a text without the characters `c` at its end.
pub fn trim_end_matches<'a>(s: &'a str, c: char) -> (r: &'a str)
    ensures
        r@ == trim_end_char(s@, c),
{
    let v = chars_of(s);
    let mut b: usize = v.len();
    assert(s@.subrange(0, b as int) =~= s@);
    while b > 0 && v[b - 1] == c
        invariant
            v@ == s@,
            b <= v.len(),
            trim_end_char(s@.subrange(0, b as int), c) == trim_end_char(s@, c),
        decreases b,
    {
        assert(s@.subrange(0, b as int).drop_last() =~= s@.subrange(0, b - 1));
        b -= 1;
    }
    s.substring_char(0, b)
}

/// A text that neither begins nor ends with white space stays as it is.
pub proof fn lemma_trimmed_is_itself(s: Seq<char>)
    requires
        s.len() > 0 ==> !is_whitespace(s[0]) && !is_whitespace(s.last()),
    ensures
        trimmed(s) == s,
{
}

/// How many characters of white space a text begins with.
proof fn lemma_trim_start(s: Seq<char>) -> (a: int)
    ensures
        0 <= a <= s.len(),
        forall|i: int| 0 <= i < a ==> is_whitespace(#[trigger] s[i]),
        a < s.len() ==> !is_whitespace(s[a]),
        trim_start(s) == s.skip(a),
    decreases s.len(),
{
    if s.len() > 0 && is_whitespace(s[0]) {
        let a = lemma_trim_start(s.skip(1)) + 1;
        assert forall|i: int| 0 <= i < a implies is_whitespace(#[trigger] s[i]) by {
            if i > 0 {
                assert(s.skip(1)[i - 1] == s[i]);
            }
        }
        if a < s.len() {
            assert(s.skip(1)[a - 1] == s[a]);
        }
        assert(s.skip(1).skip(a - 1) =~= s.skip(a));
        a
    } else {
        assert(s.skip(0) =~= s);
        0
    }
}

/// Where the white space at the end of a text begins.
proof fn lemma_trim_end(s: Seq<char>) -> (b: int)
    ensures
        0 <= b <= s.len(),
        forall|i: int| b <= i < s.len() ==> is_whitespace(#[trigger] s[i]),
        b > 0 ==> !is_whitespace(s[b - 1]),
        trim_end(s) == s.take(b),
    decreases s.len(),
{
    if s.len() > 0 && is_whitespace(s.last()) {
        let b = lemma_trim_end(s.drop_last());
        assert forall|i: int| b <= i < s.len() implies is_whitespace(#[trigger] s[i]) by {
            if i < s.len() - 1 {
                assert(s.drop_last()[i] == s[i]);
            }
        }
        assert(s.drop_last().take(b) =~= s.take(b));
        b
    } else {
        assert(s.take(s.len() as int) =~= s);
        s.len() as int
    }
}

/// Where the trimmed text stands in a text: what is around it is white space,
/// and it neither begins nor ends with any.
pub proof fn lemma_trimmed(s: Seq<char>) -> (r: (int, int))
    ensures
        0 <= r.0 <= r.1 <= s.len(),
        trimmed(s) == s.subrange(r.0, r.1),
        r.0 == s.len() - trim_start(s).len(),
        forall|i: int| 0 <= i < r.0 ==> is_whitespace(#[trigger] s[i]),
        forall|i: int| r.1 <= i < s.len() ==> is_whitespace(#[trigger] s[i]),
        r.0 < r.1 ==> !is_whitespace(s[r.0]) && !is_whitespace(s[r.1 - 1]),
{
    let a = lemma_trim_start(s);
    let rest = s.skip(a);
    let b = lemma_trim_end(rest);
    assert(rest.take(b) =~= s.subrange(a, a + b));
    assert forall|i: int| a + b <= i < s.len() implies is_whitespace(#[trigger] s[i]) by {
        assert(rest[i - a] == s[i]);
    }
    if b > 0 {
        assert(rest[b - 1] == s[a + b - 1]);
        assert(rest[0] == s[a]);
    }
    (a, a + b)
}

/// A part of a text with nothing but white space around it, that neither begins
/// nor ends with any, is the trimmed text.
pub proof fn lemma_trimmed_is(s: Seq<char>, a: int, b: int)
    requires
        0 <= a <= b <= s.len(),
        forall|i: int| 0 <= i < a ==> is_whitespace(#[trigger] s[i]),
        forall|i: int| b <= i < s.len() ==> is_whitespace(#[trigger] s[i]),
        a < b ==> !is_whitespace(s[a]) && !is_whitespace(s[b - 1]),
    ensures
        trimmed(s) == s.subrange(a, b),
{
    let (x, y) = lemma_trimmed(s);
    if a < b {
        assert(x <= a && b <= y);
        assert(a <= x && y <= b) by {
            assert(!is_whitespace(s[x]) && !is_whitespace(s[y - 1]));
        }
    } else {
        if x < y {
            assert(!is_whitespace(s[x]));
        }
        assert(s.subrange(x, y) =~= s.subrange(a, b));
    }
}

/// A trimmed text is trimmed.
pub proof fn lemma_trimmed_stays(s: Seq<char>)
    ensures
        trimmed(trimmed(s)) == trimmed(s),
        trimmed(s).len() > 0 ==> !is_whitespace(trimmed(s)[0]) && !is_whitespace(trimmed(s).last()),
        forall|i: int| 0 <= i < trimmed(s).len() ==> s.contains(#[trigger] trimmed(s)[i]),
{
    let (a, b) = lemma_trimmed(s);
    let t = trimmed(s);
    assert forall|i: int| 0 <= i < t.len() implies s.contains(#[trigger] t[i]) by {
        assert(s[a + i] == t[i]);
    }
    lemma_trimmed_is_itself(t);
}

/// White space around a text does not change the trimmed text.
pub proof fn lemma_trimmed_inside(before: Seq<char>, s: Seq<char>, after: Seq<char>)
    requires
        forall|i: int| 0 <= i < before.len() ==> is_whitespace(#[trigger] before[i]),
        forall|i: int| 0 <= i < after.len() ==> is_whitespace(#[trigger] after[i]),
    ensures
        trimmed(before + s + after) == trimmed(s),
{
    let (a, b) = lemma_trimmed(s);
    let all = before + s + after;
    let n = before.len() as int;
    assert forall|i: int| 0 <= i < a + n implies is_whitespace(#[trigger] all[i]) by {
        if i < n {
            assert(all[i] == before[i]);
        } else {
            assert(all[i] == s[i - n]);
        }
    }
    assert forall|i: int| b + n <= i < all.len() implies is_whitespace(#[trigger] all[i]) by {
        if i < n + s.len() {
            assert(all[i] == s[i - n]);
        } else {
            assert(all[i] == after[i - n - s.len()]);
        }
    }
    if a < b {
        assert(all[a + n] == s[a] && all[b + n - 1] == s[b - 1]);
    }
    lemma_trimmed_is(all, a + n, b + n);
    assert(all.subrange(a + n, b + n) =~= s.subrange(a, b));
}

// ---------- Case ----------

/// ASCII letters in upper case are the same letters.
proof fn lemma_ascii_uppercase(s: Seq<char>)
    ensures
        ascii_lowercase(ascii_uppercase(s)) == ascii_lowercase(s),
        is_ascii_chars(ascii_uppercase(s)) == is_ascii_chars(s),
{
    let t = ascii_uppercase(s);
    assert forall|i: int| 0 <= i < s.len() implies ascii_lower(#[trigger] t[i]) == ascii_lower(
        s[i],
    ) && ((t[i] <= '\u{7f}') == (s[i] <= '\u{7f}')) by {}
    assert(ascii_lowercase(t) =~= ascii_lowercase(s));
    assert(is_ascii_chars(t) ==> is_ascii_chars(s)) by {
        assert(forall|i: int| 0 <= i < s.len() ==> t[i] == ascii_upper(#[trigger] s[i]));
    }
    assert(is_ascii_chars(s) ==> is_ascii_chars(t));
}

/// The lowercase of a trimmed text stands in the lowercase of the text.
pub proof fn lemma_lowercase_trimmed(s: Seq<char>)
    ensures
        forall|i: int|
            0 <= i < lowercase(trimmed(s)).len() ==> lowercase(s).contains(
                #[trigger] lowercase(trimmed(s))[i],
            ),
{
    let t = trimmed(s);
    let (a, b) = lemma_trimmed(s);
    lemma_trimmed_stays(s);
    let (c, d) = lemma_trimmed(t);
    assert(c == 0 && d == t.len()) by {
        if t.len() > 0 {
            assert(!is_whitespace(t[0]) && !is_whitespace(t[t.len() - 1]));
        }
    }
    let low = lowercase(t);
    if is_ascii_chars(s) {
        assert(is_ascii_chars(t));
        assert forall|i: int| 0 <= i < low.len() implies lowercase(s).contains(#[trigger] low[i]) by {
            assert(lowercase(s)[a + i] == low[i]);
        }
    } else {
        let inner = if is_ascii_chars(t) {
            ascii_lowercase(t)
        } else {
            ascii_lowercase(unicode_lowercase(ascii_lowercase(t)))
        };
        assert(around(t, inner) =~= inner);
        assert(low == inner);
        assert forall|i: int| 0 <= i < low.len() implies lowercase(s).contains(#[trigger] low[i]) by {
            assert(lowercase(s)[a + i] == low[i]);
        }
    }
}

/// The case of ASCII letters makes no difference to the lowercase of a trimmed
/// text, and none of them is upper-case in it.
pub proof fn lemma_lowercase(s: Seq<char>)
    requires
        trimmed(s) == s,
    ensures
        lowercase(ascii_uppercase(s)) == lowercase(s),
        forall|i: int|
            0 <= i < lowercase(s).len() ==> !('A' <= #[trigger] lowercase(s)[i] <= 'Z'),
{
    let t = ascii_uppercase(s);
    lemma_ascii_uppercase(s);
    lemma_trimmed_uppercase(s);
    let (a, b) = lemma_trimmed(s);
    let (c, d) = lemma_trimmed(t);
    let inner = ascii_lowercase(unicode_lowercase(ascii_lowercase(s)));
    assert(b - a == s.len() && d - c == t.len());
    assert(around(s, inner) =~= inner);
    assert(around(t, inner) =~= inner);
}

/// Trimming and the uppercase of ASCII letters do not get in each other's way.
pub proof fn lemma_trimmed_uppercase(s: Seq<char>)
    ensures
        trimmed(ascii_uppercase(s)) == ascii_uppercase(trimmed(s)),
{
    let t = ascii_uppercase(s);
    let (a, b) = lemma_trimmed(s);
    assert forall|i: int| 0 <= i < s.len() implies is_whitespace(#[trigger] t[i]) == is_whitespace(
        s[i],
    ) by {}
    lemma_trimmed_is(t, a, b);
    assert(t.subrange(a, b) =~= ascii_uppercase(trimmed(s)));
}

// ---------- Searching and splitting ----------

/// Index of the first `c` in `s`, or the length of `s` where there is none.
pub open spec fn first_index(s: Seq<char>, c: char) -> int
    decreases s.len(),
{
    if s.len() == 0 || s[0] == c {
        0
    } else {
        1 + first_index(s.skip(1), c)
    }
}

pub proof fn lemma_first_index(s: Seq<char>, c: char)
    ensures
        0 <= first_index(s, c) <= s.len(),
        forall|i: int| 0 <= i < first_index(s, c) ==> s[i] != c,
        first_index(s, c) < s.len() ==> s[first_index(s, c)] == c,
    decreases s.len(),
{
    if s.len() > 0 && s[0] != c {
        lemma_first_index(s.skip(1), c);
        let k = first_index(s.skip(1), c);
        assert forall|i: int| 0 <= i < 1 + k implies s[i] != c by {
            if i > 0 {
                assert(s.skip(1)[i - 1] == s[i]);
            }
        }
        if k < s.skip(1).len() {
            assert(s.skip(1)[k] == s[1 + k]);
        }
    }
}

/// An index with no `c` before it, and a `c` at it or the end of `s`, is the
/// first index of `c`.
pub proof fn lemma_first_index_is(s: Seq<char>, c: char, k: int)
    requires
        0 <= k <= s.len(),
        forall|i: int| 0 <= i < k ==> s[i] != c,
        k < s.len() ==> s[k] == c,
    ensures
        first_index(s, c) == k,
{
    lemma_first_index(s, c);
}

/// The parts before and after the first `c`.
pub open spec fn split_once_at(s: Seq<char>, c: char) -> Option<(Seq<char>, Seq<char>)> {
    let k = first_index(s, c);
    if k < s.len() {
        Some((s.take(k), s.skip(k + 1)))
    } else {
        None
    }
}

/// The parts between the `c`s of `s`; one part where there is no `c`.
pub open spec fn split_at(s: Seq<char>, c: char) -> Seq<Seq<char>>
    decreases s.len(),
{
    let k = first_index(s, c);
    if 0 <= k < s.len() {
        seq![s.take(k)] + split_at(s.skip(k + 1), c)
    } else {
        seq![s]
    }
}

/// No part holds the character that parts them.
pub proof fn lemma_split_parts(s: Seq<char>, c: char)
    ensures
        split_at(s, c).len() > 0,
        forall|i: int|
            0 <= i < split_at(s, c).len() ==> !(#[trigger] split_at(s, c)[i]).contains(c),
    decreases s.len(),
{
    lemma_first_index(s, c);
    let k = first_index(s, c);
    if k < s.len() {
        lemma_split_parts(s.skip(k + 1), c);
        let rest = split_at(s.skip(k + 1), c);
        assert forall|i: int| 0 <= i < split_at(s, c).len() implies !(#[trigger] split_at(
            s,
            c,
        )[i]).contains(c) by {
            if i > 0 {
                assert(split_at(s, c)[i] == rest[i - 1]);
            }
        }
    }
}

/// The parts of two texts with the parting character between them.
pub proof fn lemma_split_joined(s: Seq<char>, c: char, t: Seq<char>)
    ensures
        split_at(s + seq![c] + t, c) == split_at(s, c) + split_at(t, c),
    decreases s.len(),
{
    let all = s + seq![c] + t;
    let k = first_index(s, c);
    lemma_first_index(s, c);
    assert forall|i: int| 0 <= i < k implies all[i] != c by {
        assert(all[i] == s[i]);
    }
    assert(all[k] == c) by {
        if k < s.len() {
            assert(all[k] == s[k]);
        }
    }
    lemma_first_index_is(all, c, k);
    if k < s.len() {
        lemma_split_joined(s.skip(k + 1), c, t);
        assert(all.skip(k + 1) =~= s.skip(k + 1) + seq![c] + t);
        assert(all.take(k) =~= s.take(k));
        assert(split_at(all, c) =~= split_at(s, c) + split_at(t, c));
    } else {
        assert(all.skip(k + 1) =~= t);
        assert(all.take(k) =~= s);
        assert(split_at(all, c) =~= split_at(s, c) + split_at(t, c));
    }
}

/// `needle` stands in `s` at index `i`.
pub open spec fn occurs_at(s: Seq<char>, needle: Seq<char>, i: int) -> bool {
    0 <= i && i + needle.len() <= s.len() && s.subrange(i, i + needle.len()) == needle
}

/// `needle` stands somewhere in `s`.
pub open spec fn contains_text(s: Seq<char>, needle: Seq<char>) -> bool {
    exists|i: int| occurs_at(s, needle, i)
}

/// Index of the first `c` in `v` at or after `from`, or the length of `v`.
pub fn find_char(v: &Vec<char>, c: char, from: usize) -> (k: usize)
    requires
        from <= v@.len(),
    ensures
        from <= k <= v@.len(),
        k == from + first_index(v@.skip(from as int), c),
{
    let mut k = from;
    while k < v.len() && v[k] != c
        invariant
            from <= k <= v@.len(),
            forall|i: int| from <= i < k ==> v@[i] != c,
        decreases v@.len() - k,
    {
        k += 1;
    }
    proof {
        let t = v@.skip(from as int);
        assert forall|i: int| 0 <= i < k - from implies t[i] != c by {
            assert(t[i] == v@[from + i]);
        }
        lemma_first_index_is(t, c, k - from);
    }
    k
}

/// The parts of a text before and after the first `c`.
pub fn split_once<'a>(s: &'a str, c: char) -> (r: Option<(&'a str, &'a str)>)
    ensures
        match r {
            Some((a, b)) => split_once_at(s@, c) == Some((a@, b@)),
            None => split_once_at(s@, c) is None,
        },
{
    let v = chars_of(s);
    let k = find_char(&v, c, 0);
    assert(v@.skip(0) =~= s@);
    if k < v.len() {
        let a = s.substring_char(0, k);
        let b = s.substring_char(k + 1, v.len());
        assert(a@ =~= s@.take(k as int));
        assert(b@ =~= s@.skip(k + 1));
        Some((a, b))
    } else {
        None
    }
}

/// The views of the texts of a list.
pub open spec fn views(v: Seq<&str>) -> Seq<Seq<char>> {
    Seq::new(v.len(), |i: int| v[i]@)
}

/// The parts of a text between its `c`s.
pub fn split<'a>(s: &'a str, c: char) -> (r: Vec<&'a str>)
    ensures
        views(r@) == split_at(s@, c),
        r@.len() >= 1,
{
    let v = chars_of(s);
    let mut r: Vec<&'a str> = Vec::new();
    let mut from: usize = 0;
    let mut last = false;
    assert(v@.skip(0) =~= s@);
    assert(views(r@) + split_at(s@.skip(0), c) =~= split_at(s@, c));
    while !last
        invariant
            v@ == s@,
            from <= v@.len(),
            !last ==> views(r@) + split_at(s@.skip(from as int), c) == split_at(s@, c),
            last ==> views(r@) == split_at(s@, c) && r@.len() >= 1,
        decreases (if last { 0int } else { 1 + v@.len() - from }),
    {
        let k = find_char(&v, c, from);
        let part = s.substring_char(from, k);
        let ghost before = r@;
        let ghost rest = s@.skip(from as int);
        r.push(part);
        assert(views(r@) =~= views(before).push(part@));
        assert(part@ =~= rest.take(k - from));
        if k < v.len() {
            assert(rest.skip(k - from + 1) =~= s@.skip(k + 1));
            assert(views(r@) + split_at(s@.skip(k + 1), c) =~= views(before) + split_at(rest, c));
            from = k + 1;
        } else {
            assert(part@ =~= rest);
            assert(views(r@) =~= views(before) + seq![rest]);
            last = true;
        }
    }
    r
}

/// Whether `needle` stands in `v` at index `i`.
fn occurs(v: &Vec<char>, needle: &Vec<char>, i: usize) -> (r: bool)
    requires
        i <= v@.len(),
    ensures
        r == occurs_at(v@, needle@, i as int),
{
    if needle.len() > v.len() - i {
        return false;
    }
    let mut j: usize = 0;
    while j < needle.len()
        invariant
            i + needle.len() <= v.len(),
            j <= needle@.len(),
            forall|t: int| 0 <= t < j ==> v@[i + t] == needle@[t],
        decreases needle@.len() - j,
    {
        if v[i + j] != needle[j] {
            assert(v@.subrange(i as int, i + needle@.len())[j as int] != needle@[j as int]);
            return false;
        }
        j += 1;
    }
    assert(v@.subrange(i as int, i + needle@.len()) =~= needle@);
    true
}

/// `k` is the first index at which `needle` stands in `s`.
pub open spec fn first_occurrence(s: Seq<char>, needle: Seq<char>, k: int) -> bool {
    occurs_at(s, needle, k) && forall|i: int| 0 <= i < k ==> !occurs_at(s, needle, i)
}

/// The first index at which `needle` stands in `v`.
pub fn find_text(v: &Vec<char>, needle: &Vec<char>) -> (r: Option<usize>)
    ensures
        match r {
            Some(k) => first_occurrence(v@, needle@, k as int),
            None => !contains_text(v@, needle@),
        },
{
    let mut i: usize = 0;
    let mut found = false;
    while !found && i < v.len()
        invariant
            i <= v@.len(),
            forall|t: int| 0 <= t < i ==> !occurs_at(v@, needle@, t),
            found ==> occurs_at(v@, needle@, i as int),
        decreases v@.len() - i, (if found { 0int } else { 1 }),
    {
        if occurs(v, needle, i) {
            found = true;
        } else {
            i += 1;
        }
    }
    if found || occurs(v, needle, i) {
        Some(i)
    } else {
        None
    }
}

/// Whether `needle` stands somewhere in a text.
pub fn contains(s: &str, needle: &str) -> (r: bool)
    ensures
        r == contains_text(s@, needle@),
{
    let v = chars_of(s);
    let n = chars_of(needle);
    find_text(&v, &n).is_some()
}

/// Whether a text begins with `prefix`.
pub fn starts_with(s: &str, prefix: &str) -> (r: bool)
    ensures
        r == occurs_at(s@, prefix@, 0),
{
    let v = chars_of(s);
    let n = chars_of(prefix);
    occurs(&v, &n, 0)
}

/// Whether two texts are the same up to the case of ASCII letters.
pub fn eq_ignore_ascii_case(a: &str, b: &str) -> (r: bool)
    ensures
        r == (ascii_lowercase(a@) == ascii_lowercase(b@)),
{
    let x = chars_of(a);
    let y = chars_of(b);
    if x.len() != y.len() {
        assert(ascii_lowercase(a@).len() != ascii_lowercase(b@).len());
        return false;
    }
    let mut i: usize = 0;
    while i < x.len()
        invariant
            x@ == a@,
            y@ == b@,
            x.len() == y.len(),
            i <= x.len(),
            forall|j: int| 0 <= j < i ==> ascii_lower(x@[j]) == ascii_lower(y@[j]),
        decreases x.len() - i,
    {
        if lower(x[i]) != lower(y[i]) {
            assert(ascii_lowercase(a@)[i as int] != ascii_lowercase(b@)[i as int]);
            return false;
        }
        i += 1;
    }
    assert(ascii_lowercase(a@) =~= ascii_lowercase(b@));
    true
}

// ---------- what the functions on texts are for ----------

/// White space around a text is dropped, whatever kind of it, and nothing else
/// is.
pub proof fn law_white_space_around_is_dropped(
    before: Seq<char>,
    core: Seq<char>,
    after: Seq<char>,
    text: &str,
    r: &str,
)
    requires
        text@ == before + core + after,
        forall|i: int| 0 <= i < before.len() ==> is_blank(#[trigger] before[i]),
        forall|i: int| 0 <= i < after.len() ==> is_blank(#[trigger] after[i]),
        core.len() > 0 ==> '!' <= core[0] <= '~' && '!' <= core.last() <= '~',
        call_ensures(trim, (text,), r),
    ensures
        r@ == core,
{
    let s = text@;
    let a = before.len() as int;
    let b = a + core.len();
    assert forall|i: int| 0 <= i < a implies is_whitespace(#[trigger] s[i]) by {
        assert(s[i] == before[i]);
    }
    assert forall|i: int| b <= i < s.len() implies is_whitespace(#[trigger] s[i]) by {
        assert(s[i] == after[i - b]);
    }
    if core.len() > 0 {
        assert(s[a] == core[0] && s[b - 1] == core.last());
    }
    lemma_trimmed_is(s, a, b);
    assert(s.subrange(a, b) =~= core);
}

/// A space, a tab, the end of a line, or a space that is not broken or is as wide
/// as an ideograph.
pub open spec fn is_blank(c: char) -> bool {
    c == ' ' || c == '\t' || c == '\n' || c == '\r' || c == '\u{a0}' || c == '\u{3000}'
}

/// A text holds each part of it, begins with each beginning of it, and is no part
/// of a shorter one.
pub proof fn law_parts_are_found(
    before: Seq<char>,
    after: Seq<char>,
    text: &str,
    part: &str,
    start: &str,
    held: bool,
    begun: bool,
    back: bool,
)
    requires
        text@ == before + part@ + after,
        start@ == before,
        call_ensures(contains, (text, part), held),
        call_ensures(starts_with, (text, start), begun),
        call_ensures(contains, (part, text), back),
    ensures
        held,
        begun,
        back <==> part@.len() == text@.len(),
{
    let s = text@;
    let k = before.len() as int;
    assert(s.subrange(k, k + part@.len()) =~= part@);
    assert(occurs_at(s, part@, k));
    assert(s.subrange(0, k) =~= start@);
    if back {
        let i = choose|i: int| occurs_at(part@, s, i);
        assert(i + s.len() <= part@.len());
    }
    if part@.len() == s.len() {
        assert(part@ =~= s);
        assert(part@.subrange(0, s.len() as int) =~= s);
        assert(occurs_at(part@, s, 0));
    }
}

/// A text is split at the first mark: what stands before it has none.
pub proof fn law_text_is_split_once(
    before: Seq<char>,
    mark: char,
    after: Seq<char>,
    text: &str,
    r: Option<(&str, &str)>,
)
    requires
        !before.contains(mark),
        text@ == before + seq![mark] + after,
        call_ensures(split_once, (text, mark), r),
    ensures
        r matches Some((a, b)) && a@ == before && b@ == after,
{
    let s = text@;
    let k = before.len() as int;
    assert forall|i: int| 0 <= i < k implies s[i] != mark by {
        assert(s[i] == before[i]);
        assert(before.contains(before[i]));
    }
    assert(s[k] == mark);
    lemma_first_index_is(s, mark, k);
    assert(s.take(k) =~= before);
    assert(s.skip(k + 1) =~= after);
}

} // verus!
