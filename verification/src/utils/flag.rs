//! Flag emoji.

use vstd::prelude::*;

#[allow(unused_imports)]
use crate::text::{alphabetic, chars_of, is_ascii_alphabetic, owned, to_uppercase, uppercase};

verus! {

/// `char::from_u32`: the character of a Unicode scalar value.
pub assume_specification[ char::from_u32 ](i: u32) -> (r: Option<char>)
    ensures
        (r is Some) == (i <= 0xD7FF || (0xE000 <= i && i <= 0x10FFFF)),
        r is Some ==> r->0 == i as char,
;

/// The regional indicator of a letter.
pub open spec fn regional_indicator(letter: char) -> char {
    (0x1F1E6 + (letter as int - 'A' as int)) as char
}

/// The flag of an upper-case country code: two regional indicators, or the
/// white flag where the code is not two letters.
pub open spec fn flag_of(code: Seq<char>) -> Seq<char> {
    if code.len() == 2 && is_ascii_alphabetic(code[0]) && is_ascii_alphabetic(code[1]) {
        seq![regional_indicator(code[0]), regional_indicator(code[1])]
    } else {
        "🏳️"@
    }
}

/// The flag of a country code in upper case.
pub fn upper_code_to_flag(code: &str) -> (r: String)
    ensures
        r@ == flag_of(code@),
{
    let letters = chars_of(code);
    if letters.len() != 2 || !alphabetic(letters[0]) || !alphabetic(letters[1]) {
        return owned("🏳️");
    }
    let mut flag = String::new();
    let base: u32 = 0x1F1E6;
    match char::from_u32(base + (letters[0] as u32 - 'A' as u32)) {
        Some(c) => flag.push(c),
        None => {},
    }
    match char::from_u32(base + (letters[1] as u32 - 'A' as u32)) {
        Some(c) => flag.push(c),
        None => {},
    }
    assert(flag@ =~= flag_of(code@));
    flag
}

/// The flag emoji of an ISO 3166-1 alpha-2 country code, in any case.
pub fn country_code_to_flag(code: &str) -> (r: String)
    ensures
        r@ == flag_of(uppercase(code@)),
{
    let code = to_uppercase(code);
    upper_code_to_flag(code.as_str())
}

/// Two capital letters have a flag of two characters, a regional indicator for
/// each, and no two codes the same.
pub proof fn law_flags_tell_countries_apart(code: &str, other: &str, r: String, o: String)
    requires
        code@.len() == 2,
        other@.len() == 2,
        'A' <= code@[0] <= 'Z' && 'A' <= code@[1] <= 'Z',
        'A' <= other@[0] <= 'Z' && 'A' <= other@[1] <= 'Z',
        call_ensures(upper_code_to_flag, (code,), r),
        call_ensures(upper_code_to_flag, (other,), o),
    ensures
        r@.len() == 2,
        r@[0] as int - code@[0] as int == 0x1F1E6 - 65 && r@[1] as int - code@[1] as int == 0x1F1E6
            - 65,
        r@ == o@ <==> code@ == other@,
{
    if r@ == o@ {
        assert(code@[0] as int == other@[0] as int);
        assert(code@ =~= other@);
    }
}

/// What is not two letters has the white flag.
pub proof fn law_no_country_has_the_white_flag(code: &str, r: String)
    requires
        call_ensures(upper_code_to_flag, (code,), r),
        code@.len() != 2 || !is_ascii_alphabetic(code@[0]) || !is_ascii_alphabetic(code@[1]),
    ensures
        r@ == "🏳️"@,
{
}

} // verus!
