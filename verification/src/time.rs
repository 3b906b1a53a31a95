//! Moments, calendar days and the wall clock of America/Recife.
//!
//! Recife is three hours behind UTC the whole year round, so that its wall
//! clock is a fixed offset from UTC.

use chrono::Datelike;
use vstd::prelude::*;
#[allow(unused_imports)]
use vstd::string::*;

use crate::numbers::{decimal, padded_text, zero_padded};

verus! {

pub const MINUTE: i64 = 60;

pub const HOUR: i64 = 3600;

pub const DAY: i64 = 86400;

/// Seconds by which the wall clock of Recife is behind UTC.
pub const RECIFE_OFFSET: i64 = 10800;

// ---------- Moments ----------

/// A moment: whole seconds since 1970-01-01T00:00:00Z and the nanoseconds
/// after the last whole second. Nanoseconds from a thousand million on stand
/// for a leap second.
#[derive(Clone, Copy, Debug, PartialEq, Eq, Structural)]
pub struct UtcTime {
    pub secs: i64,
    pub nanos: u32,
}

impl UtcTime {
    /// A reading of the system clock: since 1970, in the calendar, and in no
    /// leap second.
    pub open spec fn is_clock(self) -> bool {
        0 <= self.secs <= 8_210_266_876_799 && self.nanos < 1_000_000_000
    }

    /// This moment comes before `other`.
    pub open spec fn before(self, other: UtcTime) -> bool {
        self.secs < other.secs || (self.secs == other.secs && self.nanos < other.nanos)
    }

    /// The moment `n` seconds later, `n` being positive. Time added to a leap
    /// second counts from the second before it.
    pub open spec fn later(self, n: int) -> (int, int) {
        (
            self.secs + n,
            if self.nanos >= 1_000_000_000 {
                self.nanos - 1_000_000_000
            } else {
                self.nanos as int
            },
        )
    }

    /// Whether this moment comes before `other`.
    pub fn is_before(&self, other: &UtcTime) -> (r: bool)
        ensures
            r == self.before(*other),
    {
        self.secs < other.secs || (self.secs == other.secs && self.nanos < other.nanos)
    }

    /// The moment `n` seconds later.
    pub fn plus(&self, n: i64) -> (r: UtcTime)
        requires
            self.is_clock(),
            0 < n <= 7 * DAY,
        ensures
            (r.secs as int, r.nanos as int) == self.later(n as int),
    {
        UtcTime {
            secs: self.secs + n,
            nanos: if self.nanos >= 1_000_000_000 {
                self.nanos - 1_000_000_000
            } else {
                self.nanos
            },
        }
    }

    /// The moment to the millisecond, as the database stores it.
    pub open spec fn to_millis(self) -> UtcTime {
        UtcTime { secs: self.secs, nanos: (self.nanos - self.nanos % 1_000_000) as u32 }
    }

    /// The moment to the millisecond.
    pub fn whole_millis(&self) -> (r: UtcTime)
        ensures
            r == self.to_millis(),
    {
        UtcTime { secs: self.secs, nanos: self.nanos - self.nanos % 1_000_000 }
    }

    /// Whether the moment `n` seconds after this one is not after `other`.
    pub fn passed_by(&self, n: i64, other: &UtcTime) -> (r: bool)
        requires
            0 < n <= 7 * DAY,
        ensures
            r == ({
                let (secs, nanos) = self.later(n as int);
                secs < other.secs || (secs == other.secs && nanos <= other.nanos)
            }),
    {
        let secs: i128 = self.secs as i128 + n as i128;
        let nanos: u32 = if self.nanos >= 1_000_000_000 {
            self.nanos - 1_000_000_000
        } else {
            self.nanos
        };
        secs < other.secs as i128 || (secs == other.secs as i128 && nanos <= other.nanos)
    }
}

/// First and last second of the calendar: the years -262143 to 262142.
pub open spec fn in_calendar(secs: int) -> bool {
    days_at(first_day()) <= secs < days_at(last_day() + 1)
}

/// The second at which day `day` begins.
pub open spec fn days_at(day: int) -> int {
    (day - 719163) * 86400
}

/// The moment that `millis` milliseconds since 1970 write.
pub open spec fn millis_time(millis: int) -> UtcTime {
    UtcTime { secs: (millis / 1000) as i64, nanos: ((millis % 1000) * 1_000_000) as u32 }
}

/// `millis` milliseconds since 1970 lie in the calendar.
pub open spec fn millis_in_calendar(millis: int) -> bool {
    in_calendar(millis / 1000)
}

/// Whether the calendar holds a second.
pub fn calendar_holds(secs: i64) -> (r: bool)
    ensures
        r == in_calendar(secs as int),
{
    proof {
        reveal_with_fuel(days_before_month, 13);
        assert(days_at(first_day()) == -8_334_601_228_800);
        assert(days_at(last_day() + 1) == 8_210_266_876_800);
    }
    -8_334_601_228_800 <= secs && secs < 8_210_266_876_800
}

/// The moment that `millis` milliseconds since 1970 write.
pub fn from_millis(millis: i64) -> (r: UtcTime)
    ensures
        r == millis_time(millis as int),
{
    let m: i128 = millis as i128;
    let shifted: i128 = m + 10_000_000_000_000_000_000;
    let secs: i128 = shifted / 1000 - 10_000_000_000_000_000;
    let rest: i128 = shifted % 1000;
    assert(secs == millis as int / 1000);
    assert(rest == millis as int % 1000);
    UtcTime { secs: secs as i64, nanos: (rest * 1_000_000) as u32 }
}

/// What an RFC 3339 text writes, as seconds and nanoseconds.
pub uninterp spec fn rfc3339_value(s: Seq<char>) -> Option<(i64, u32)>;

/// The RFC 3339 text of a moment in UTC.
pub uninterp spec fn rfc3339_form(secs: i64, nanos: u32) -> Seq<char>;

/// The calendar holds the moment: leap seconds end a minute.
pub open spec fn is_representable(t: UtcTime) -> bool {
    in_calendar(t.secs as int) && (t.nanos < 1_000_000_000 || (t.nanos < 2_000_000_000 && t.secs % 60
        == 59))
}

/// Whether the calendar holds a moment.
pub fn can_write(t: &UtcTime) -> (r: bool)
    ensures
        r == is_representable(*t),
{
    if !calendar_holds(t.secs) {
        return false;
    }
    if t.nanos < 1_000_000_000 {
        return true;
    }
    let shifted: i128 = t.secs as i128 + 60_000_000_000_000;
    assert(shifted % 60 == t.secs as int % 60);
    t.nanos < 2_000_000_000 && shifted % 60 == 59
}

/// The moment lies in the years 0 to 9999 and in no leap second.
pub open spec fn four_digit_year(t: UtcTime) -> bool {
    -62_167_219_200 <= t.secs <= 253_402_300_799 && t.nanos < 1_000_000_000
}

/// `chrono::DateTime::parse_from_rfc3339`, as seconds and nanoseconds: a
/// function of the text.
#[verifier::external_body]
pub(crate) fn parse_rfc3339(s: &str) -> (r: Option<UtcTime>)
    ensures
        match r {
            Some(t) => rfc3339_value(s@) == Some((t.secs, t.nanos)),
            None => rfc3339_value(s@) is None,
        },
{
    match chrono::DateTime::parse_from_rfc3339(s) {
        Ok(d) => Some(UtcTime { secs: d.timestamp(), nanos: d.timestamp_subsec_nanos() }),
        Err(_) => None,
    }
}

/// `chrono::DateTime::to_rfc3339` of a moment in UTC: a function of the
/// moment. In the years 0 to 9999 the text reads back as the same moment. A
/// moment that the calendar does not hold has no text.
#[verifier::external_body]
pub(crate) fn to_rfc3339(t: UtcTime) -> (r: Option<String>)
    ensures
        (r is Some) == is_representable(t),
        r is Some ==> r->0@ == rfc3339_form(t.secs, t.nanos),
        r is Some && four_digit_year(t) ==> rfc3339_value(r->0@) == Some((t.secs, t.nanos)),
{
    match chrono::DateTime::from_timestamp(t.secs, t.nanos) {
        Some(d) => Some(d.to_rfc3339()),
        None => None,
    }
}

/// `chrono::Utc::now`: a reading of the system clock.
#[verifier::external_body]
pub(crate) fn utc_now() -> (r: UtcTime)
    ensures
        r.is_clock(),
{
    let now = chrono::Utc::now();
    UtcTime { secs: now.timestamp(), nanos: now.timestamp_subsec_nanos() }
}

/// The present moment.
pub fn clock() -> (r: UtcTime)
    ensures
        r.is_clock(),
{
    utc_now()
}

// ---------- Calendar days ----------

/// Years of the Gregorian calendar with a 29 February.
pub open spec fn is_leap_year(year: int) -> bool {
    year % 4 == 0 && (year % 100 != 0 || year % 400 == 0)
}

pub open spec fn days_in_month(year: int, month: int) -> int {
    if month == 2 {
        if is_leap_year(year) {
            29
        } else {
            28
        }
    } else if month == 4 || month == 6 || month == 9 || month == 11 {
        30
    } else {
        31
    }
}

/// A day of the Gregorian calendar.
pub open spec fn is_date(year: int, month: int, day: int) -> bool {
    1 <= month <= 12 && 1 <= day <= days_in_month(year, month)
}

/// Days of `year` before the first of `month`.
pub open spec fn days_before_month(year: int, month: int) -> int
    decreases month,
{
    if month <= 1 {
        0
    } else {
        days_before_month(year, month - 1) + days_in_month(year, month - 1)
    }
}

/// The number of a day, 1 January of the year 1 being day 1.
pub open spec fn day_number(year: int, month: int, day: int) -> int {
    365 * (year - 1) + (year - 1) / 4 - (year - 1) / 100 + (year - 1) / 400 + days_before_month(
        year,
        month,
    ) + day
}

/// The first and the last year of the calendar.
pub open spec fn in_years(year: int) -> bool {
    -262143 <= year <= 262142
}

pub open spec fn first_day() -> int {
    day_number(-262143, 1, 1)
}

pub open spec fn last_day() -> int {
    day_number(262142, 12, 31)
}

/// `chrono::NaiveDate::from_ymd_opt` and the day's `num_days_from_ce`: exactly
/// the days of the calendar, by their numbers.
#[verifier::external_body]
pub(crate) fn day_of(year: i32, month: u32, day: u32) -> (r: Option<i32>)
    ensures
        (r is Some) == (in_years(year as int) && is_date(year as int, month as int, day as int)),
        r is Some ==> r->0 == day_number(year as int, month as int, day as int),
{
    chrono::NaiveDate::from_ymd_opt(year, month, day).map(|d| d.num_days_from_ce())
}

/// `chrono::NaiveDate::from_num_days_from_ce_opt`, as year, month and day: the
/// day of the calendar that has the number.
#[verifier::external_body]
pub(crate) fn date_of(number: i32) -> (r: Option<(i32, u32, u32)>)
    ensures
        (r is Some) == (first_day() <= number <= last_day()),
        r matches Some((y, m, d)) ==> is_date(y as int, m as int, d as int) && day_number(
            y as int,
            m as int,
            d as int,
        ) == number && in_years(y as int),
{
    chrono::NaiveDate::from_num_days_from_ce_opt(number).map(|d| (d.year(), d.month(), d.day()))
}

// ---------- Days as text ----------

/// A year of at least four digits, with its sign where it lies outside 0 to
/// 9999.
pub open spec fn year_form(year: int) -> Seq<char> {
    if 0 <= year < 10000 {
        zero_padded(decimal(year as nat), 4)
    } else if year < 0 {
        seq!['-'] + zero_padded(decimal((-year) as nat), 4)
    } else {
        seq!['+'] + zero_padded(decimal(year as nat), 4)
    }
}

/// Two digits.
pub open spec fn two_digits(n: int) -> Seq<char> {
    zero_padded(decimal(n as nat), 2)
}

/// A day written `DD/MM/YYYY`.
pub open spec fn br_form(year: int, month: int, day: int) -> Seq<char> {
    two_digits(day) + seq!['/'] + two_digits(month) + seq!['/'] + year_form(year)
}

/// A day written `YYYY-MM-DD`.
pub open spec fn iso_form(year: int, month: int, day: int) -> Seq<char> {
    year_form(year) + seq!['-'] + two_digits(month) + seq!['-'] + two_digits(day)
}

/// Writes a year.
pub fn year_text(year: i32) -> (s: String)
    ensures
        s@ == year_form(year as int),
{
    if 0 <= year && year < 10000 {
        padded_text(year as u64, 4)
    } else {
        let mut s = String::new();
        let size: u64 = if year < 0 {
            s.push('-');
            (-(year as i64)) as u64
        } else {
            s.push('+');
            year as u64
        };
        let digits = padded_text(size, 4);
        s.push_str(digits.as_str());
        assert(s@ =~= year_form(year as int));
        s
    }
}

/// Writes a day as `DD/MM/YYYY`.
pub fn br_text(year: i32, month: u32, day: u32) -> (s: String)
    ensures
        s@ == br_form(year as int, month as int, day as int),
{
    let mut s = padded_text(day as u64, 2);
    s.push('/');
    let m = padded_text(month as u64, 2);
    s.push_str(m.as_str());
    s.push('/');
    let y = year_text(year);
    s.push_str(y.as_str());
    assert(s@ =~= br_form(year as int, month as int, day as int));
    s
}

/// Writes a day as `YYYY-MM-DD`.
pub fn iso_text(year: i32, month: u32, day: u32) -> (s: String)
    ensures
        s@ == iso_form(year as int, month as int, day as int),
{
    let mut s = year_text(year);
    s.push('-');
    let m = padded_text(month as u64, 2);
    s.push_str(m.as_str());
    s.push('-');
    let d = padded_text(day as u64, 2);
    s.push_str(d.as_str());
    assert(s@ =~= iso_form(year as int, month as int, day as int));
    s
}

// ---------- The wall clock of Recife ----------

/// The day at which the wall clock of Recife stands.
pub open spec fn recife_day(now: UtcTime) -> int {
    (now.secs - RECIFE_OFFSET) / (DAY as int) + 719163
}

/// The minute of the day at which the wall clock of Recife stands.
pub open spec fn recife_minutes(now: UtcTime) -> int {
    ((now.secs - RECIFE_OFFSET) % (DAY as int)) / (MINUTE as int)
}

/// `text` is the day with number `number`, in the form that `form` gives the
/// days of the calendar.
pub open spec fn is_br_day(text: Seq<char>, number: int) -> bool {
    exists|y: int, m: int, d: int|
        #![trigger br_form(y, m, d)]
        is_date(y, m, d) && day_number(y, m, d) == number && text == br_form(y, m, d)
}

/// `text` is the day with number `number`, written `YYYY-MM-DD`.
pub open spec fn is_iso_day(text: Seq<char>, number: int) -> bool {
    exists|y: int, m: int, d: int|
        #![trigger iso_form(y, m, d)]
        is_date(y, m, d) && day_number(y, m, d) == number && text == iso_form(y, m, d)
}

pub proof fn lemma_calendar_bounds()
    ensures
        first_day() == -95746129,
        last_day() == 95745399,
{
    reveal_with_fuel(days_before_month, 13);
}

/// The day and the minute at which the wall clock of Recife stands.
pub(crate) fn recife_clock(now: UtcTime) -> (r: ((i32, u32, u32), i32))
    requires
        now.is_clock(),
    ensures
        is_date(r.0.0 as int, r.0.1 as int, r.0.2 as int),
        day_number(r.0.0 as int, r.0.1 as int, r.0.2 as int) == recife_day(now),
        r.1 == recife_minutes(now),
        0 <= r.1 < 1440,
{
    let local: i64 = now.secs - RECIFE_OFFSET;
    // Shifted by a whole number of days, so that the division rounds down.
    let shifted: i64 = local + DAY;
    let number: i64 = shifted / DAY - 1 + 719163;
    let minutes: i64 = (shifted % DAY) / MINUTE;
    assert(number == recife_day(now));
    assert(minutes == recife_minutes(now));
    proof {
        lemma_calendar_bounds();
    }
    (date_of(number as i32).unwrap(), minutes as i32)
}

// ---------- The calendar ----------

/// The months have 31 and 30 days in turn, but for February and August: in
/// February there are 29 in every fourth year, of the centuries every fourth,
/// and else 28.
pub proof fn law_months_have_their_days(year: int, month: int)
    requires
        1 <= month <= 12,
    ensures
        month == 1 || month == 3 || month == 5 || month == 7 || month == 8 || month == 10 || month
            == 12 ==> is_date(year, month, 31) && !is_date(year, month, 32),
        month == 4 || month == 6 || month == 9 || month == 11 ==> is_date(year, month, 30)
            && !is_date(year, month, 31),
        month == 2 ==> is_date(year, 2, 28) && !is_date(year, 2, 30),
        is_date(year, 2, 29) <==> year % 4 == 0 && (year % 100 != 0 || year % 400 == 0),
        !is_date(year, month, 0),
        !is_date(year, 0, 1),
        !is_date(year, 13, 1),
{
}

/// The days are numbered one after the other: within a month, from a month to
/// the next and from a year to the next. Day 719163 is 1 January 1970.
pub proof fn law_days_follow_each_other(year: int, month: int, day: int)
    requires
        is_date(year, month, day),
    ensures
        is_date(year, month, day + 1) ==> day_number(year, month, day + 1) == day_number(
            year,
            month,
            day,
        ) + 1,
        !is_date(year, month, day + 1) && month < 12 ==> is_date(year, month + 1, 1) && day_number(
            year,
            month + 1,
            1,
        ) == day_number(year, month, day) + 1,
        !is_date(year, month, day + 1) && month == 12 ==> day_number(year + 1, 1, 1) == day_number(
            year,
            month,
            day,
        ) + 1,
        day_number(1970, 1, 1) == 719163,
{
    reveal_with_fuel(days_before_month, 13);
    if month == 12 {
        let y = year - 1;
        assert(is_leap_year(year) ==> (y + 1) / 4 == y / 4 + 1);
        assert((y + 1) % 4 == 0 <==> (y + 1) / 4 == y / 4 + 1);
        assert((y + 1) % 4 != 0 ==> (y + 1) / 4 == y / 4);
        assert((y + 1) % 100 == 0 <==> (y + 1) / 100 == y / 100 + 1);
        assert((y + 1) % 100 != 0 ==> (y + 1) / 100 == y / 100);
        assert((y + 1) % 400 == 0 <==> (y + 1) / 400 == y / 400 + 1);
        assert((y + 1) % 400 != 0 ==> (y + 1) / 400 == y / 400);
        assert(year % 400 == 0 ==> year % 100 == 0);
        assert(year % 100 == 0 ==> year % 4 == 0);
    }
}

/// The wall clock of Recife runs three hours behind UTC: so many days and
/// minutes have passed on it since 1970 began.
pub proof fn law_recife_is_three_hours_behind(now: UtcTime)
    requires
        now.is_clock(),
    ensures
        ({
            let minutes = recife_minutes(now);
            let passed = (recife_day(now) - day_number(1970, 1, 1)) * 1440 + minutes;
            &&& 0 <= minutes < 1440
            &&& passed * 60 <= now.secs - 3 * 3600 < passed * 60 + 60
        }),
{
    reveal_with_fuel(days_before_month, 13);
    let local = now.secs - 10800;
    let day = local / 86400;
    let rest = local % 86400;
    assert(local == day * 86400 + rest);
    assert(day_number(1970, 1, 1) == 719163);
}

/// Adding seconds moves a moment on by them; it has passed at a later moment and
/// from then on, and not before.
pub proof fn law_time_moves_on(
    t: UtcTime,
    n: i64,
    later: UtcTime,
    other: UtcTime,
    passed: bool,
    early: bool,
)
    requires
        t.is_clock(),
        other.is_clock(),
        0 < n <= 7 * DAY,
        call_ensures(UtcTime::plus, (&t, n), later),
        call_ensures(UtcTime::passed_by, (&t, n, &other), passed),
        call_ensures(UtcTime::is_before, (&other, &later), early),
    ensures
        later.secs - t.secs == n,
        later.nanos == t.nanos,
        passed == !early,
        early == (other.secs * 1_000_000_000 + other.nanos < later.secs * 1_000_000_000
            + later.nanos),
{
}

} // verus!
