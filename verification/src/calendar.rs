//! Calendar dates and times of day as text: the shapes `YYYY-MM-DD` and
//! `HH:MM:SS`, the two parts of a timestamp, the day of the week.

use crate::text::{
    append_decimal, chars_of, decimal_text, digit_char, digit_of, digit_value, find_char,
    is_digit, is_digit_char,
};
use chrono::Datelike;
use vstd::prelude::*;

verus! {

/// Whether February of the year has 29 days.
pub open spec fn is_leap_year(year: int) -> bool {
    year % 4 == 0 && (year % 100 != 0 || year % 400 == 0)
}

/// The number of days of a month of the Gregorian calendar.
pub open spec fn days_in_month(year: int, month: int) -> int {
    if month == 2 {
        if is_leap_year(year) {
            29
        } else {
            28
        }
    } else if month == 4 || month == 6 || month == 9 || month == 11 {
        30
    } else {
        31
    }
}

/// Whether the Gregorian calendar has the day `day` of the month `month` of
/// the year `year`.
pub open spec fn is_valid_ymd(year: int, month: int, day: int) -> bool {
    &&& 1 <= month <= 12
    &&& 1 <= day <= days_in_month(year, month)
}

/// The number that the two digits at `at` and `at + 1` denote.
pub open spec fn two_digits(s: Seq<char>, at: int) -> int {
    10 * digit_value(s[at]) + digit_value(s[at + 1])
}

/// Four digits, a hyphen, two digits, a hyphen, two digits.
pub open spec fn has_date_shape(s: Seq<char>) -> bool {
    &&& s.len() == 10
    &&& is_digit(s[0])
    &&& is_digit(s[1])
    &&& is_digit(s[2])
    &&& is_digit(s[3])
    &&& s[4] == '-'
    &&& is_digit(s[5])
    &&& is_digit(s[6])
    &&& s[7] == '-'
    &&& is_digit(s[8])
    &&& is_digit(s[9])
}

/// The year of a text of the shape of a date.
pub open spec fn year_of(s: Seq<char>) -> int {
    100 * two_digits(s, 0) + two_digits(s, 2)
}

/// The month of a text of the shape of a date.
pub open spec fn month_of(s: Seq<char>) -> int {
    two_digits(s, 5)
}

/// The day of the month of a text of the shape of a date.
pub open spec fn day_of(s: Seq<char>) -> int {
    two_digits(s, 8)
}

/// A day of the Gregorian calendar, written `YYYY-MM-DD`.
pub open spec fn is_calendar_date(s: Seq<char>) -> bool {
    has_date_shape(s) && is_valid_ymd(year_of(s), month_of(s), day_of(s))
}

/// Two digits, a colon, two digits, a colon, two digits.
pub open spec fn has_time_shape(s: Seq<char>) -> bool {
    &&& s.len() == 8
    &&& is_digit(s[0])
    &&& is_digit(s[1])
    &&& s[2] == ':'
    &&& is_digit(s[3])
    &&& is_digit(s[4])
    &&& s[5] == ':'
    &&& is_digit(s[6])
    &&& is_digit(s[7])
}

/// A time of day, written `HH:MM:SS`.
pub open spec fn is_clock_time(s: Seq<char>) -> bool {
    &&& has_time_shape(s)
    &&& two_digits(s, 0) < 24
    &&& two_digits(s, 3) < 60
    &&& two_digits(s, 6) < 60
}

/// What stands before the first `T` of a timestamp; all of it where it has
/// no `T`.
pub open spec fn date_portion(stamp: Seq<char>) -> Seq<char> {
    match stamp.index_of_first('T') {
        Some(i) => stamp.take(i),
        None => stamp,
    }
}

/// What follows the first `T` of a timestamp; nothing where it has no `T`.
pub open spec fn time_portion(stamp: Seq<char>) -> Seq<char> {
    match stamp.index_of_first('T') {
        Some(i) => stamp.skip(i + 1),
        None => Seq::empty(),
    }
}

/// The date of a timestamp: its date portion, where that is a calendar date.
pub open spec fn calendar_date_of(stamp: Seq<char>) -> Option<Seq<char>> {
    if is_calendar_date(date_portion(stamp)) {
        Some(date_portion(stamp))
    } else {
        None
    }
}

/// The time of a timestamp: the first eight characters of its time portion,
/// where they are a time of day. Fractions of a second and a time zone are
/// cut off.
pub open spec fn clock_time_of(stamp: Seq<char>) -> Option<Seq<char>> {
    let time = time_portion(stamp);
    if time.len() >= 8 && is_clock_time(time.take(8)) {
        Some(time.take(8))
    } else {
        None
    }
}

/// The day of the week of a calendar day, counted from Monday, which is 0,
/// to Sunday, which is 6.
pub uninterp spec fn weekday_from_monday(year: int, month: int, day: int) -> int;

/// The day of the week on which the calendar date `date` falls.
pub open spec fn weekday_of_date(date: Seq<char>) -> int {
    weekday_from_monday(year_of(date), month_of(date), day_of(date))
}

/// `chrono::NaiveDate::from_ymd_opt`, which makes a date of every existing
/// calendar day from year 0 to 9999, and of that date
/// `chrono::Datelike::weekday` and `chrono::Weekday::num_days_from_monday`,
/// which count the day of the week from Monday (0) to Sunday (6). What the
/// number is for a given day is not stated: it has a name.
#[verifier::external_body]
fn weekday_number(year: u16, month: u8, day: u8) -> (r: u8)
    requires
        year <= 9999,
        is_valid_ymd(year as int, month as int, day as int),
    ensures
        r == weekday_from_monday(year as int, month as int, day as int),
        r < 7,
{
    let date = chrono::NaiveDate::from_ymd_opt(year as i32, month as u32, day as u32).unwrap();
    date.weekday().num_days_from_monday() as u8
}

/// The number that the two digits at `at` and `at + 1` denote.
fn two_digits_at(text: &Vec<char>, at: usize) -> (r: u8)
    requires
        at + 1 < text.len(),
        is_digit(text@[at as int]),
        is_digit(text@[at + 1]),
    ensures
        r == two_digits(text@, at as int),
        r <= 99,
{
    10 * digit_of(text[at]) + digit_of(text[at + 1])
}

/// Whether February of the year has 29 days.
pub fn is_leap(year: u16) -> (r: bool)
    ensures
        r == is_leap_year(year as int),
{
    year % 4 == 0 && (year % 100 != 0 || year % 400 == 0)
}

/// The number of days of a month of the Gregorian calendar.
pub fn month_length(year: u16, month: u8) -> (r: u8)
    ensures
        r == days_in_month(year as int, month as int),
{
    if month == 2 {
        if is_leap(year) {
            29
        } else {
            28
        }
    } else if month == 4 || month == 6 || month == 9 || month == 11 {
        30
    } else {
        31
    }
}

/// Reads the ten characters from `from` on as a calendar date.
fn date_at(text: &Vec<char>, from: usize) -> (r: Option<(u16, u8, u8)>)
    requires
        from + 10 <= text.len(),
    ensures
        r is Some <==> is_calendar_date(text@.subrange(from as int, from + 10)),
        r matches Some(ymd) ==> {
            let date = text@.subrange(from as int, from + 10);
            &&& ymd.0 == year_of(date)
            &&& ymd.1 == month_of(date)
            &&& ymd.2 == day_of(date)
            &&& ymd.0 <= 9999
        },
{
    let shaped = is_digit_char(text[from]) && is_digit_char(text[from + 1]) && is_digit_char(
        text[from + 2],
    ) && is_digit_char(text[from + 3]) && text[from + 4] == '-' && is_digit_char(text[from + 5])
        && is_digit_char(text[from + 6]) && text[from + 7] == '-' && is_digit_char(
        text[from + 8],
    ) && is_digit_char(text[from + 9]);
    if !shaped {
        return None;
    }
    let century: u8 = two_digits_at(text, from);
    let years: u8 = two_digits_at(text, from + 2);
    let year: u16 = 100 * (century as u16) + (years as u16);
    let month: u8 = two_digits_at(text, from + 5);
    let day: u8 = two_digits_at(text, from + 8);
    if 1 <= month && month <= 12 && 1 <= day && day <= month_length(year, month) {
        Some((year, month, day))
    } else {
        None
    }
}

/// Whether the eight characters from `from` on are a time of day.
fn time_at(text: &Vec<char>, from: usize) -> (r: bool)
    requires
        from + 8 <= text.len(),
    ensures
        r == is_clock_time(text@.subrange(from as int, from + 8)),
{
    let shaped = is_digit_char(text[from]) && is_digit_char(text[from + 1]) && text[from + 2]
        == ':' && is_digit_char(text[from + 3]) && is_digit_char(text[from + 4]) && text[from
        + 5] == ':' && is_digit_char(text[from + 6]) && is_digit_char(text[from + 7]);
    if !shaped {
        return false;
    }
    two_digits_at(text, from) < 24 && two_digits_at(text, from + 3) < 60 && two_digits_at(
        text,
        from + 6,
    ) < 60
}

/// Whether `date` is a calendar date written `YYYY-MM-DD`.
pub fn is_calendar_date_text(date: &str) -> (r: bool)
    ensures
        r == is_calendar_date(date@),
{
    let chars = chars_of(date);
    if chars.len() != 10 {
        return false;
    }
    date_at(&chars, 0).is_some()
}

/// Whether `time` is a time of day written `HH:MM:SS`.
pub fn is_clock_time_text(time: &str) -> (r: bool)
    ensures
        r == is_clock_time(time@),
{
    let chars = chars_of(time);
    if chars.len() != 8 {
        return false;
    }
    time_at(&chars, 0)
}

/// The date of a timestamp `<date>T<time>...`: what stands before the first
/// `T`, where that is a calendar date.
pub fn strip_time_date_to_date(time_date: &str) -> (r: Option<String>)
    ensures
        match r {
            Some(date) => calendar_date_of(time_date@) == Some(date@),
            None => calendar_date_of(time_date@) is None,
        },
{
    let chars = chars_of(time_date);
    let end: usize = match find_char(&chars, 'T') {
        Some(i) => i,
        None => chars.len(),
    };
    if end != 10 {
        return None;
    }
    if date_at(&chars, 0).is_some() {
        Some(time_date.substring_char(0, 10).to_owned())
    } else {
        None
    }
}

/// The time of a timestamp `<date>T<time>...`: the eight characters that
/// follow the first `T`, where they are a time of day.
pub fn strip_time_date_to_time(time_date: &str) -> (r: Option<String>)
    ensures
        match r {
            Some(time) => clock_time_of(time_date@) == Some(time@),
            None => clock_time_of(time_date@) is None,
        },
{
    let chars = chars_of(time_date);
    match find_char(&chars, 'T') {
        Some(i) => {
            let start: usize = i + 1;
            if chars.len() - start < 8 {
                return None;
            }
            if time_at(&chars, start) {
                Some(time_date.substring_char(start, start + 8).to_owned())
            } else {
                None
            }
        },
        None => None,
    }
}

/// The day of the week on which `date` falls, from Monday (0) to Sunday (6),
/// where `date` is a calendar date written `YYYY-MM-DD`.
pub fn weekday_index(date: &str) -> (r: Option<u8>)
    ensures
        r is Some <==> is_calendar_date(date@),
        r matches Some(day) ==> day == weekday_of_date(date@) && day < 7,
{
    let chars = chars_of(date);
    if chars.len() != 10 {
        return None;
    }
    match date_at(&chars, 0) {
        Some(ymd) => Some(weekday_number(ymd.0, ymd.1, ymd.2)),
        None => None,
    }
}

/// The day of the week on which the calendar date `date` falls, from Monday
/// (0) to Sunday (6).
pub(crate) fn weekday_of(date: &str) -> (r: u8)
    requires
        is_calendar_date(date@),
    ensures
        r == weekday_of_date(date@),
        r < 7,
{
    let chars = chars_of(date);
    let ymd = date_at(&chars, 0).unwrap();
    weekday_number(ymd.0, ymd.1, ymd.2)
}

/// `count` zeros; none where `count` is below 0.
pub open spec fn zeros(count: int) -> Seq<char> {
    if count <= 0 {
        Seq::empty()
    } else {
        Seq::new(count as nat, |i: int| '0')
    }
}

/// The decimal digits of `n`, with zeros before them where they are fewer
/// than `width`.
pub open spec fn zero_padded(n: nat, width: nat) -> Seq<char> {
    zeros(width - decimal_text(n).len()) + decimal_text(n)
}

/// A year as a date shows it: four digits or more, with a `-` before a year
/// below 0 and a `+` before a year above 9999.
pub open spec fn year_text(year: int) -> Seq<char> {
    if year < 0 {
        seq!['-'] + zero_padded((-year) as nat, 4)
    } else if year > 9999 {
        seq!['+'] + zero_padded(year as nat, 4)
    } else {
        zero_padded(year as nat, 4)
    }
}

/// A day as text: the year, the month and the day of the month, with
/// hyphens between them; month and day in two digits.
pub open spec fn date_text(year: int, month: nat, day: nat) -> Seq<char> {
    year_text(year) + seq!['-'] + zero_padded(month, 2) + seq!['-'] + zero_padded(day, 2)
}

/// A number below 100 in two digits.
proof fn lemma_two_digit_text(n: nat)
    requires
        n < 100,
    ensures
        zero_padded(n, 2) == seq![digit_char((n / 10) as int), digit_char((n % 10) as int)],
{
    reveal_with_fuel(decimal_text, 3);
}

/// A number below 10000 in four digits.
proof fn lemma_four_digit_text(n: nat)
    requires
        n < 10000,
    ensures
        zero_padded(n, 4) == seq![
            digit_char((n / 1000) as int),
            digit_char((n / 100 % 10) as int),
            digit_char((n / 10 % 10) as int),
            digit_char((n % 10) as int),
        ],
{
    reveal_with_fuel(decimal_text, 5);
}

/// A day of the calendar from the year 0 to the year 9999, written as text,
/// is a calendar date, and its year, month and day are read back of it.
pub proof fn lemma_date_text_is_calendar_date(year: int, month: nat, day: nat)
    requires
        0 <= year <= 9999,
        is_valid_ymd(year, month as int, day as int),
    ensures
        is_calendar_date(date_text(year, month, day)),
        year_of(date_text(year, month, day)) == year,
        month_of(date_text(year, month, day)) == month,
        day_of(date_text(year, month, day)) == day,
{
    lemma_four_digit_text(year as nat);
    lemma_two_digit_text(month);
    lemma_two_digit_text(day);
    assert(forall|d: int| 0 <= d <= 9 ==> is_digit(#[trigger] digit_char(d)) && digit_value(
        digit_char(d),
    ) == d);
}

/// The number of decimal digits of `n`.
fn decimal_len(n: u64) -> (r: usize)
    ensures
        r == decimal_text(n as nat).len(),
        1 <= r <= 20,
    decreases n,
{
    if n < 10 {
        1
    } else {
        let shorter: usize = decimal_len(n / 10);
        proof {
            lemma_decimal_len_bound(n as nat);
        }
        shorter + 1
    }
}

proof fn lemma_decimal_len_bound(n: nat)
    requires
        n <= u64::MAX,
    ensures
        decimal_text(n).len() <= 20,
{
    reveal_with_fuel(decimal_text, 21);
}

/// Appends the decimal digits of `n` to `out`, with zeros before them where
/// they are fewer than `width`.
fn append_zero_padded(out: &mut String, n: u64, width: usize)
    ensures
        final(out)@ == old(out)@ + zero_padded(n as nat, width as nat),
{
    let digits: usize = decimal_len(n);
    let mut written: usize = 0;
    while written + digits < width
        invariant
            digits == decimal_text(n as nat).len(),
            written + digits <= width || written == 0,
            out@ == old(out)@ + zeros(written as int),
        decreases width - written,
    {
        out.append("0");
        proof {
            reveal_strlit("0");
        }
        written = written + 1;
    }
    append_decimal(out, n);
}

/// A day as text `YYYY-MM-DD`.
pub fn format_date(year: i64, month: u8, day: u8) -> (r: String)
    ensures
        r@ == date_text(year as int, month as nat, day as nat),
{
    let mut out = String::new();
    proof {
        reveal_strlit("-");
        reveal_strlit("+");
    }
    if year < 0 {
        out.append("-");
        append_zero_padded(&mut out, (-(year as i128)) as u64, 4);
    } else {
        if year > 9999 {
            out.append("+");
        }
        append_zero_padded(&mut out, year as u64, 4);
    }
    out.append("-");
    append_zero_padded(&mut out, month as u64, 2);
    out.append("-");
    append_zero_padded(&mut out, day as u64, 2);
    out
}

/// The day a year after a day: the same day of the next year, and
/// February 28 after February 29.
pub open spec fn a_year_later(year: int, month: nat, day: nat) -> (int, nat, nat) {
    (
        year + 1,
        month,
        if month == 2 && day == 29 {
            28
        } else {
            day
        },
    )
}

/// The day a year after a day of the calendar is a day of the calendar.
pub proof fn lemma_year_later_is_valid(year: int, month: nat, day: nat)
    requires
        is_valid_ymd(year, month as int, day as int),
    ensures
        is_valid_ymd(
            a_year_later(year, month, day).0,
            a_year_later(year, month, day).1 as int,
            a_year_later(year, month, day).2 as int,
        ),
{
}

/// A moment of the system clock in UTC: its day, and the moment as text.
#[derive(Debug)]
pub struct Moment {
    pub year: i32,
    pub month: u8,
    pub day: u8,
    pub stamp: String,
}

/// `chrono::Utc::now`, the time of the system clock. Of it
/// `chrono::DateTime::date_naive` takes the day, of which `chrono::Datelike`
/// gives the year, the month from 1 to 12 and the day of the month from 1 to
/// 31, and `chrono::DateTime::to_rfc3339` writes it as text, of which
/// nothing is claimed. The moment differs from call to call.
#[verifier::external_body]
pub(crate) fn now_utc() -> (r: Moment)
    ensures
        1 <= r.month <= 12,
        1 <= r.day <= 31,
{
    let now = chrono::Utc::now();
    let today = now.date_naive();
    Moment {
        year: today.year(),
        month: today.month() as u8,
        day: today.day() as u8,
        stamp: now.to_rfc3339(),
    }
}

} // verus!
