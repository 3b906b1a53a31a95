//! Times of day, days, and streaks of days.

use std::collections::HashSet;

use vstd::prelude::*;
#[allow(unused_imports)]
use vstd::string::*;

use crate::numbers::{padded_text, parse_digits};
#[allow(unused_imports)]
use crate::numbers::{decimal, lemma_decimal_len, lemma_decimal_reads, lemma_digits_below, lemma_padded_reads, few_digits, is_digits, zero_padded};
#[allow(unused_imports)]
use crate::text::{first_index, is_digit, lemma_first_index, lemma_first_index_is, lemma_trimmed_is_itself, lemma_trimmed_stays, same, split_once, split_once_at, trim, trimmed};
use crate::time::{br_text, day_of, recife_clock, UtcTime};
#[allow(unused_imports)]
use crate::time::{br_form, day_number, first_day, in_years, is_br_day, is_date, last_day, lemma_calendar_bounds, recife_day, two_digits};
#[allow(unused_imports)]
use crate::utils::crypto::text_view;

verus! {

// ---------- times of day ----------

/// A part of a time or a day: one or two digits.
pub open spec fn part_of(s: Seq<char>) -> Option<int> {
    few_digits(s, 2)
}

fn read_part(s: &str) -> (r: Option<u32>)
    ensures
        match r {
            Some(n) => part_of(s@) == Some(n as int),
            None => part_of(s@) is None,
        },
{
    parse_digits(s, 2)
}

/// The hours and minutes of a 24-hour time, `H:MM` or `HH:MM`.
pub open spec fn time_of(text: Seq<char>) -> Option<(int, int)> {
    match split_once_at(trimmed(text), ':') {
        Some((h, m)) => match (part_of(h), part_of(m)) {
            (Some(hours), Some(minutes)) => if hours <= 23 && minutes <= 59 {
                Some((hours, minutes))
            } else {
                None
            },
            _ => None,
        },
        None => None,
    }
}

/// A time written `HH:MM`.
pub open spec fn time_form(hours: int, minutes: int) -> Seq<char> {
    two_digits(hours) + seq![':'] + two_digits(minutes)
}

/// A time in its normal form; `None` for a text that writes none.
pub open spec fn normal_time(text: Seq<char>) -> Option<Seq<char>> {
    match time_of(text) {
        Some((hours, minutes)) => Some(time_form(hours, minutes)),
        None => None,
    }
}

/// Writes a time as `HH:MM`.
pub fn time_text(hours: u32, minutes: u32) -> (s: String)
    ensures
        s@ == time_form(hours as int, minutes as int),
{
    let mut s = padded_text(hours as u64, 2);
    s.push(':');
    let m = padded_text(minutes as u64, 2);
    s.push_str(m.as_str());
    assert(s@ =~= time_form(hours as int, minutes as int));
    s
}

/// Reads a 24-hour time and writes it as `HH:MM`. `None` for anything
/// malformed or out of range.
pub fn normalize_hhmm(time: &str) -> (r: Option<String>)
    ensures
        text_view(r) == normal_time(time@),
{
    match split_once(trim(time), ':') {
        None => None,
        Some((h, m)) => match (read_part(h), read_part(m)) {
            (Some(hours), Some(minutes)) => {
                if hours > 23 || minutes > 59 {
                    None
                } else {
                    Some(time_text(hours, minutes))
                }
            },
            _ => None,
        },
    }
}

// ---------- days ----------

/// The year, month and day of a day of the calendar, `D/M/YYYY` to
/// `DD/MM/YYYY`.
pub open spec fn date_of_text(text: Seq<char>) -> Option<(int, int, int)> {
    match split_once_at(trimmed(text), '/') {
        Some((d, rest)) => match split_once_at(rest, '/') {
            Some((m, y)) => if y.len() != 4 {
                None
            } else {
                match (part_of(d), part_of(m), few_digits(y, 4)) {
                    (Some(day), Some(month), Some(year)) => if is_date(year, month, day) {
                        Some((year, month, day))
                    } else {
                        None
                    },
                    _ => None,
                }
            },
            None => None,
        },
        None => None,
    }
}

/// A day written `DD/MM/YYYY`.
pub open spec fn date_form(year: int, month: int, day: int) -> Seq<char> {
    two_digits(day) + seq!['/'] + two_digits(month) + seq!['/'] + zero_padded(
        decimal(year as nat),
        4,
    )
}

/// A day in its normal form; `None` for a text that writes no day of the
/// calendar.
pub open spec fn normal_date(text: Seq<char>) -> Option<Seq<char>> {
    match date_of_text(text) {
        Some((year, month, day)) => Some(date_form(year, month, day)),
        None => None,
    }
}

/// The number of the day that a text writes.
pub open spec fn day_of_text(text: Seq<char>) -> Option<int> {
    match date_of_text(text) {
        Some((year, month, day)) => Some(day_number(year, month, day)),
        None => None,
    }
}

/// The views of three parts.
pub open spec fn date_view(r: Option<(i32, u32, u32, i32)>) -> Option<(int, int, int)> {
    match r {
        Some((y, m, d, _)) => Some((y as int, m as int, d as int)),
        None => None,
    }
}

/// Reads a day: its year, month and day, and its number.
fn read_date(date: &str) -> (r: Option<(i32, u32, u32, i32)>)
    ensures
        date_view(r) == date_of_text(date@),
        r matches Some((y, m, d, n)) ==> 0 <= y < 10000 && n == day_number(
            y as int,
            m as int,
            d as int,
        ),
{
    match split_once(trim(date), '/') {
        None => None,
        Some((d, rest)) => match split_once(rest, '/') {
            None => None,
            Some((m, y)) => {
                if y.unicode_len() != 4 {
                    return None;
                }
                proof {
                    if is_digits(y@) {
                        lemma_digits_below(y@);
                    }
                }
                match (read_part(d), read_part(m), parse_digits(y, 4)) {
                    (Some(day), Some(month), Some(year)) => match day_of(year as i32, month, day) {
                        Some(number) => Some((year as i32, month, day, number)),
                        None => None,
                    },
                    _ => None,
                }
            },
        },
    }
}

/// Reads a day and writes it as `DD/MM/YYYY`. `None` for anything malformed or
/// not a day of the calendar.
pub fn normalize_dd_mm_yyyy(date: &str) -> (r: Option<String>)
    ensures
        text_view(r) == normal_date(date@),
{
    match read_date(date) {
        None => None,
        Some((year, month, day, _)) => {
            let mut s = padded_text(day as u64, 2);
            s.push('/');
            let m = padded_text(month as u64, 2);
            s.push_str(m.as_str());
            s.push('/');
            let y = padded_text(year as u64, 4);
            s.push_str(y.as_str());
            assert(s@ =~= date_form(year as int, month as int, day as int));
            Some(s)
        },
    }
}

/// The number of the day that a text writes, `None` for a text that writes no
/// day.
pub fn parse_br_date_to_naive(date: &str) -> (r: Option<i32>)
    ensures
        match r {
            Some(n) => day_of_text(date@) == Some(n as int),
            None => day_of_text(date@) is None,
        },
{
    match read_date(date) {
        Some((_, _, _, number)) => Some(number),
        None => None,
    }
}

/// Today by the wall clock of Recife (three hours behind UTC all year), as
/// `DD/MM/YYYY`.
pub fn today_recife_br(now: UtcTime) -> (r: String)
    requires
        now.is_clock(),
    ensures
        is_br_day(r@, recife_day(now)),
{
    let ((year, month, day), _) = recife_clock(now);
    let text = br_text(year, month, day);
    proof {
        assert(text@ == br_form(year as int, month as int, day as int));
    }
    text
}

// ---------- streaks ----------

/// The days among the texts; texts that write no day are left out.
pub open spec fn done_days(dates: Seq<String>) -> Set<i32>
    decreases dates.len(),
{
    if dates.len() == 0 {
        Set::empty()
    } else {
        let rest = done_days(dates.drop_last());
        match day_of_text(dates.last()@) {
            Some(day) => rest.insert(day as i32),
            None => rest,
        }
    }
}

/// The day from which a streak counts back: today where it is done, else
/// yesterday, so that a streak does not end every morning.
pub open spec fn streak_start(days: Set<i32>, today: int) -> int {
    if days.contains(today as i32) {
        today
    } else {
        today - 1
    }
}

/// `n` days in a row are done, back from where the streak counts, and not one
/// more.
pub open spec fn is_streak(days: Set<i32>, today: int, n: int) -> bool {
    let start = streak_start(days, today);
    &&& n >= 0
    &&& forall|i: int| 0 <= i < n ==> days.contains(#[trigger] ((start - i) as i32))
    &&& !days.contains((start - n) as i32)
}

/// All days lie in the calendar.
pub open spec fn in_days(days: Set<i32>) -> bool {
    days.finite() && forall|d: i32| #[trigger]
        days.contains(d) ==> first_day() <= d && d <= last_day()
}

proof fn lemma_day_number_bounds(year: int, month: int, day: int)
    requires
        in_years(year),
        is_date(year, month, day),
    ensures
        first_day() <= day_number(year, month, day) <= last_day(),
{
    lemma_calendar_bounds();
    reveal_with_fuel(crate::time::days_before_month, 13);
}

proof fn lemma_done_days(dates: Seq<String>)
    ensures
        in_days(done_days(dates)),
    decreases dates.len(),
{
    if dates.len() > 0 {
        lemma_done_days(dates.drop_last());
        match date_of_text(dates.last()@) {
            Some((y, m, d)) => {
                lemma_parts(dates.last()@);
                lemma_day_number_bounds(y, m, d);
                lemma_calendar_bounds();
            },
            None => {},
        }
    }
}

proof fn lemma_few_days(days: Set<i32>, lo: int, hi: int)
    requires
        days.finite(),
        i32::MIN <= lo,
        hi <= i32::MAX,
        forall|d: i32| #[trigger] days.contains(d) ==> lo <= d < hi,
        lo <= hi,
    ensures
        days.len() <= hi - lo,
    decreases hi - lo,
{
    if lo == hi {
        assert(days =~= Set::empty());
    } else {
        let last = (hi - 1) as i32;
        let rest = days.remove(last);
        assert forall|d: i32| #[trigger] rest.contains(d) implies lo <= d < hi - 1 by {
            assert(days.contains(d));
        }
        lemma_few_days(rest, lo, hi - 1);
        if days.contains(last) {
            assert(days.len() == rest.len() + 1);
        } else {
            assert(rest =~= days);
        }
    }
}

/// The streak of days and how many days there are in all. Days are counted
/// once; the streak is zero where neither today nor yesterday is done.
pub fn streak_stats(done_dates: &Vec<String>, now: UtcTime) -> (r: (i64, i64))
    requires
        now.is_clock(),
    ensures
        is_streak(done_days(done_dates@), recife_day(now), r.0 as int),
        r.1 == done_days(done_dates@).len(),
{
    broadcast use vstd::std_specs::hash::group_hash_axioms;

    let mut set: HashSet<i32> = HashSet::new();
    let mut i: usize = 0;
    while i < done_dates.len()
        invariant
            i <= done_dates@.len(),
            set@ == done_days(done_dates@.take(i as int)),
        decreases done_dates@.len() - i,
    {
        broadcast use vstd::std_specs::hash::group_hash_axioms;

        proof {
            assert(done_dates@.take(i + 1).drop_last() =~= done_dates@.take(i as int));
            assert(done_dates@.take(i + 1).last() == done_dates@[i as int]);
        }
        match parse_br_date_to_naive(done_dates[i].as_str()) {
            Some(day) => {
                set.insert(day);
            },
            None => {},
        }
        i += 1;
    }
    let ghost days = done_days(done_dates@);
    proof {
        assert(done_dates@.take(i as int) =~= done_dates@);
        lemma_done_days(done_dates@);
        lemma_calendar_bounds();
        lemma_few_days(days, first_day(), last_day() + 1);
    }
    let total = set.len() as i64;
    let ((year, month, day), _) = recife_clock(now);
    let today: i32 = match day_of(year, month, day) {
        Some(n) => n,
        None => 0,
    };
    proof {
        lemma_recife_day(now, year as int, month as int, day as int);
    }
    let start: i32 = if set.contains(&today) {
        today
    } else {
        today - 1
    };
    let mut cursor: i32 = start;
    let mut streak: i64 = 0;
    while set.contains(&cursor)
        invariant
            set@ == days,
            in_days(days),
            first_day() == -95746129,
            last_day() == 95745399,
            first_day() - 1 <= start <= last_day(),
            streak == start - cursor,
            0 <= streak,
            first_day() - 1 <= cursor,
            forall|k: int| 0 <= k < streak ==> days.contains(#[trigger] ((start - k) as i32)),
        decreases cursor - (first_day() - 1),
    {
        broadcast use vstd::std_specs::hash::group_hash_axioms;

        assert(days.contains(cursor));
        assert(days.contains((start - streak) as i32));
        streak += 1;
        cursor -= 1;
    }
    (streak, total)
}

/// The date of the wall clock of Recife lies in the calendar.
proof fn lemma_recife_day(now: UtcTime, year: int, month: int, day: int)
    requires
        now.is_clock(),
        is_date(year, month, day),
        day_number(year, month, day) == recife_day(now),
    ensures
        in_years(year),
        first_day() < recife_day(now) <= last_day(),
{
    lemma_calendar_bounds();
    reveal_with_fuel(crate::time::days_before_month, 13);
}

// ---------- laws ----------

/// Two digits read back.
proof fn lemma_two_digits(n: int)
    requires
        0 <= n < 100,
    ensures
        two_digits(n).len() == 2,
        is_digits(two_digits(n)),
        part_of(two_digits(n)) == Some(n),
{
    lemma_decimal_reads(n as nat);
    lemma_decimal_len(n as nat);
    lemma_padded_reads(decimal(n as nat), 2);
    let s = two_digits(n);
    assert(is_digit(s[0]));
    assert(s[0] != '+');
}

/// Two digits of a text write a number.
pub open spec fn writes_at(text: Seq<char>, k: int, n: int) -> bool {
    &&& 0 <= k && k + 2 <= text.len()
    &&& text[k] as int == '0' as int + n / 10
    &&& text[k + 1] as int == '0' as int + n % 10
}

/// The five characters of a time: two digits, a colon, two digits.
pub open spec fn is_time_text(text: Seq<char>, hours: int, minutes: int) -> bool {
    text.len() == 5 && writes_at(text, 0, hours) && text[2] == ':' && writes_at(text, 3, minutes)
}

/// The ten characters of a day: two digits, a slash, two digits, a slash, four
/// digits.
pub open spec fn is_date_text(text: Seq<char>, year: int, month: int, day: int) -> bool {
    &&& text.len() == 10
    &&& writes_at(text, 0, day)
    &&& text[2] == '/'
    &&& writes_at(text, 3, month)
    &&& text[5] == '/'
    &&& writes_at(text, 6, year / 100)
    &&& writes_at(text, 8, year % 100)
}

/// Two digits are those of the number.
pub proof fn lemma_two_chars(n: int)
    requires
        0 <= n < 100,
    ensures
        two_digits(n).len() == 2,
        writes_at(two_digits(n), 0, n),
{
    reveal_with_fuel(decimal, 2);
    reveal_with_fuel(zero_padded, 3);
}

proof fn lemma_four_chars(year: int)
    requires
        0 <= year < 10000,
    ensures
        zero_padded(decimal(year as nat), 4).len() == 4,
        writes_at(zero_padded(decimal(year as nat), 4), 0, year / 100),
        writes_at(zero_padded(decimal(year as nat), 4), 2, year % 100),
{
    reveal_with_fuel(decimal, 4);
    reveal_with_fuel(zero_padded, 5);
}

/// A time is written with the five characters of its hours and minutes, and
/// those characters write no other time.
pub proof fn law_time_is_written(hours: int, minutes: int, text: Seq<char>)
    requires
        0 <= hours < 100,
        0 <= minutes < 100,
    ensures
        is_time_text(text, hours, minutes) <==> text == time_form(hours, minutes),
{
    lemma_two_chars(hours);
    lemma_two_chars(minutes);
    let f = time_form(hours, minutes);
    let (h, m) = (two_digits(hours), two_digits(minutes));
    assert(f[0] == h[0] && f[1] == h[1] && f[2] == ':' && f[3] == m[0] && f[4] == m[1]);
    if is_time_text(text, hours, minutes) {
        assert(text =~= f);
    }
}

/// A day is written with the ten characters of its day, month and year, and
/// those characters write no other day.
pub proof fn law_date_is_written(year: int, month: int, day: int, text: Seq<char>)
    requires
        0 <= year < 10000,
        0 <= month < 100,
        0 <= day < 100,
    ensures
        is_date_text(text, year, month, day) <==> text == date_form(year, month, day),
{
    lemma_two_chars(month);
    lemma_two_chars(day);
    lemma_four_chars(year);
    let f = date_form(year, month, day);
    let (d, m, y) = (two_digits(day), two_digits(month), zero_padded(decimal(year as nat), 4));
    assert(f[0] == d[0] && f[1] == d[1] && f[2] == '/' && f[3] == m[0] && f[4] == m[1] && f[5]
        == '/' && f[6] == y[0] && f[7] == y[1] && f[8] == y[2] && f[9] == y[3]);
    if is_date_text(text, year, month, day) {
        assert(text =~= f);
    }
}

/// Five characters of a time are accepted as they are where the hours are below
/// 24 and the minutes below 60, and refused where they are not.
pub proof fn law_time_of_day_is_accepted(text: Seq<char>, hours: int, minutes: int)
    requires
        0 <= hours < 100,
        0 <= minutes < 100,
        is_time_text(text, hours, minutes),
    ensures
        normal_time(text) == (if hours < 24 && minutes < 60 {
            Some(text)
        } else {
            None
        }),
{
    law_time_is_written(hours, minutes, text);
    let (h, m) = (two_digits(hours), two_digits(minutes));
    lemma_two_digits(hours);
    lemma_two_digits(minutes);
    assert(text[0] == h[0] && text[1] == h[1] && text[2] == ':' && text.last() == m[1]);
    assert(is_digit(text[0]) && is_digit(text[1]) && is_digit(text.last()));
    lemma_trimmed_is_itself(text);
    lemma_first_index_is(text, ':', 2);
    assert(text.take(2) =~= h);
    assert(text.skip(3) =~= m);
}

/// Ten characters of a day are accepted as they are, and stand for that day,
/// where it is one of the calendar, and refused where it is not.
pub proof fn law_day_is_accepted(text: Seq<char>, year: int, month: int, day: int)
    requires
        0 <= year < 10000,
        0 <= month < 100,
        0 <= day < 100,
        is_date_text(text, year, month, day),
    ensures
        normal_date(text) == (if is_date(year, month, day) {
            Some(text)
        } else {
            None
        }),
        is_date(year, month, day) ==> day_of_text(text) == Some(day_number(year, month, day)),
{
    law_date_is_written(year, month, day, text);
    lemma_two_digits(day);
    lemma_two_digits(month);
    lemma_padded_year(year);
    let (d, m, y) = (two_digits(day), two_digits(month), zero_padded(decimal(year as nat), 4));
    assert(is_digit(y[3]));
    assert(text[0] == d[0] && text[1] == d[1] && text[2] == '/');
    assert(text.last() == y[3]);
    lemma_trimmed_is_itself(text);
    lemma_first_index_is(text, '/', 2);
    let tail = text.skip(3);
    assert(text.take(2) =~= d);
    assert(tail[0] == m[0] && tail[1] == m[1] && tail[2] == '/');
    lemma_first_index_is(tail, '/', 2);
    assert(tail.take(2) =~= m);
    assert(tail.skip(3) =~= y);
}

/// A time in its normal form is its own normal form.
pub proof fn law_normal_time_is_normal(text: Seq<char>)
    requires
        normal_time(text) is Some,
    ensures
        normal_time(normal_time(text)->0) == normal_time(text),
{
    let (h, m) = time_of(text)->0;
    let f = time_form(h, m);
    lemma_parts(text);
    lemma_two_digits(h);
    lemma_two_digits(m);
    assert(f[0] == two_digits(h)[0]);
    assert(f[1] == two_digits(h)[1]);
    assert(f[2] == ':');
    assert(f.last() == two_digits(m)[1]);
    assert(is_digit(f[0]) && is_digit(f[1]) && is_digit(f.last()));
    lemma_trimmed_is_itself(f);
    lemma_first_index_is(f, ':', 2);
    assert(f.take(2) =~= two_digits(h));
    assert(f.skip(3) =~= two_digits(m));
}

proof fn lemma_parts(text: Seq<char>)
    ensures
        time_of(text) matches Some((h, m)) ==> 0 <= h <= 23 && 0 <= m <= 59,
        date_of_text(text) matches Some((y, m, d)) ==> 0 <= y < 10000 && 1 <= m <= 12 && 1 <= d
            <= 31,
{
    if time_of(text) is Some {
        let (h, m) = split_once_at(trimmed(text), ':')->0;
        lemma_digits_below(h);
        lemma_digits_below(m);
    }
    if date_of_text(text) is Some {
        let (_, rest) = split_once_at(trimmed(text), '/')->0;
        let (_, y) = split_once_at(rest, '/')->0;
        lemma_digits_below(y);
    }
}

/// A year in four digits reads back.
proof fn lemma_padded_year(year: int)
    requires
        0 <= year < 10000,
    ensures
        zero_padded(decimal(year as nat), 4).len() == 4,
        is_digits(zero_padded(decimal(year as nat), 4)),
        few_digits(zero_padded(decimal(year as nat), 4), 4) == Some(year),
{
    lemma_decimal_reads(year as nat);
    lemma_decimal_len(year as nat);
    lemma_padded_reads(decimal(year as nat), 4);
}

/// A day in its normal form is its own normal form, and writes the same day.
pub proof fn law_normal_date_is_normal(text: Seq<char>)
    requires
        normal_date(text) is Some,
    ensures
        normal_date(normal_date(text)->0) == normal_date(text),
        day_of_text(normal_date(text)->0) == day_of_text(text),
{
    let (y, m, d) = date_of_text(text)->0;
    let f = date_form(y, m, d);
    lemma_parts(text);
    lemma_two_digits(d);
    lemma_two_digits(m);
    lemma_padded_year(y);
    let dd = two_digits(d);
    let mm = two_digits(m);
    let yy = zero_padded(decimal(y as nat), 4);
    assert(is_digit(yy[3]));
    assert(f.len() == 10);
    assert(f[0] == dd[0] && f[1] == dd[1] && f[2] == '/');
    assert(f.last() == yy[3]);
    lemma_trimmed_is_itself(f);
    lemma_first_index_is(f, '/', 2);
    let tail = f.skip(3);
    assert(f.take(2) =~= dd);
    assert(tail[0] == mm[0] && tail[1] == mm[1] && tail[2] == '/');
    lemma_first_index_is(tail, '/', 2);
    assert(tail.take(2) =~= mm);
    assert(tail.skip(3) =~= yy);
}

/// A streak has one length.
pub proof fn law_streak_is_one(days: Set<i32>, today: int, a: int, b: int)
    requires
        is_streak(days, today, a),
        is_streak(days, today, b),
    ensures
        a == b,
{
    let start = streak_start(days, today);
    if a < b {
        assert(days.contains((start - a) as i32));
    }
    if b < a {
        assert(days.contains((start - b) as i32));
    }
}

/// Doing today what was not done yet makes the streak one day longer.
pub proof fn law_today_extends_the_streak(days: Set<i32>, today: int, n: int)
    requires
        i32::MIN < today - n,
        today <= i32::MAX,
        !days.contains(today as i32),
        is_streak(days, today, n),
    ensures
        is_streak(days.insert(today as i32), today, n + 1),
{
    let after = days.insert(today as i32);
    assert forall|i: int| 0 <= i < n + 1 implies after.contains(#[trigger] ((today - i) as i32)) by {
        if i > 0 {
            assert(days.contains((today - 1 - (i - 1)) as i32));
        }
    }
}

/// Doing a day again changes nothing.
pub proof fn law_days_count_once(dates: Seq<String>, again: String)
    requires
        day_of_text(again@) matches Some(day) ==> done_days(dates).contains(day as i32),
    ensures
        done_days(dates.push(again)) == done_days(dates),
{
    assert(dates.push(again).drop_last() =~= dates);
    if day_of_text(again@) is Some {
        let day = day_of_text(again@)->0 as i32;
        assert(done_days(dates).insert(day) =~= done_days(dates));
    }
}

/// The normal form of a time or of a day is found by what the text writes, the
/// white space around it aside. A text of another shape writes none: a time has
/// three to five characters, a day eight to ten, and nothing but digits and the
/// marks between them.
pub proof fn law_other_texts_write_nothing(text: Seq<char>, k: int)
    requires
        0 <= k < trimmed(text).len(),
    ensures
        normal_time(text) is Some ==> 3 <= trimmed(text).len() <= 5 && (is_digit(trimmed(text)[k])
            || trimmed(text)[k] == ':'),
        normal_date(text) is Some ==> 8 <= trimmed(text).len() <= 10 && (is_digit(trimmed(text)[k])
            || trimmed(text)[k] == '/'),
        normal_time(text) == normal_time(trimmed(text)),
        normal_date(text) == normal_date(trimmed(text)),
{
    let s = trimmed(text);
    lemma_trimmed_stays(text);
    lemma_first_index(s, ':');
    let c = first_index(s, ':');
    if normal_time(text) is Some {
        let h = s.take(c);
        let m = s.skip(c + 1);
        assert(part_of(h) is Some && part_of(m) is Some);
        if k < c {
            assert(h[k] == s[k]);
        } else if k > c {
            assert(m[k - c - 1] == s[k]);
        }
    }
    lemma_first_index(s, '/');
    let a = first_index(s, '/');
    if normal_date(text) is Some {
        let d = s.take(a);
        let rest = s.skip(a + 1);
        lemma_first_index(rest, '/');
        let b = first_index(rest, '/');
        let m = rest.take(b);
        let y = rest.skip(b + 1);
        assert(part_of(d) is Some && part_of(m) is Some && y.len() == 4);
        if k < a {
            assert(d[k] == s[k]);
        } else if k > a {
            assert(rest[k - a - 1] == s[k]);
            if k - a - 1 < b {
                assert(m[k - a - 1] == s[k]);
            } else if k - a - 1 > b {
                assert(y[k - a - 1 - b - 1] == s[k]);
            }
        }
    }
}

} // verus!
