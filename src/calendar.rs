//! Calendar dates and the names of the day sheets.

use vstd::prelude::*;
use chrono::{Datelike, Offset, TimeZone};
use crate::text::{decimal_of, digit_char};

verus! {

/// A date of the proleptic Gregorian calendar.
pub struct CalendarDate {
    pub year: i32,
    pub month: u32,
    pub day: u32,
}

/// The earliest year that the calendar library can hold.
pub const MIN_YEAR: i32 = -262143;

/// The latest year that the calendar library can hold.
pub const MAX_YEAR: i32 = 262142;

/// Years divisible by 4 are leap years, but for centuries not divisible by 400.
pub open spec fn is_leap_year(year: int) -> bool {
    (year % 4 == 0 && year % 100 != 0) || year % 400 == 0
}

/// The number of days of a month, January being month 1.
pub open spec fn days_in_month(year: int, month: int) -> int {
    if month == 2 {
        if is_leap_year(year) {
            29
        } else {
            28
        }
    } else if month == 4 || month == 6 || month == 9 || month == 11 {
        30
    } else {
        31
    }
}

/// The date exists and lies in the years the calendar library can hold.
pub open spec fn is_valid_date(d: CalendarDate) -> bool {
    &&& MIN_YEAR <= d.year <= MAX_YEAR
    &&& 1 <= d.month <= 12
    &&& 1 <= d.day <= days_in_month(d.year as int, d.month as int)
}

/// The day of the month in two places, a space before a single digit.
pub open spec fn padded_day(day: u32) -> Seq<char> {
    if day < 10 {
        seq![' ', digit_char(day as int)]
    } else {
        seq![digit_char(day as int / 10), digit_char(day as int % 10)]
    }
}

/// The English three-letter name of a month, January being month 1.
pub open spec fn month_abbreviation(month: u32) -> Seq<char> {
    if month == 1 {
        seq!['J', 'a', 'n']
    } else if month == 2 {
        seq!['F', 'e', 'b']
    } else if month == 3 {
        seq!['M', 'a', 'r']
    } else if month == 4 {
        seq!['A', 'p', 'r']
    } else if month == 5 {
        seq!['M', 'a', 'y']
    } else if month == 6 {
        seq!['J', 'u', 'n']
    } else if month == 7 {
        seq!['J', 'u', 'l']
    } else if month == 8 {
        seq!['A', 'u', 'g']
    } else if month == 9 {
        seq!['S', 'e', 'p']
    } else if month == 10 {
        seq!['O', 'c', 't']
    } else if month == 11 {
        seq!['N', 'o', 'v']
    } else {
        seq!['D', 'e', 'c']
    }
}

/// A date written as the padded day of the month and the month's
/// abbreviation, such as " 5 Jun".
pub open spec fn day_month_label(d: CalendarDate) -> Seq<char> {
    padded_day(d.day) + seq![' '] + month_abbreviation(d.month)
}

/// A character of the Unicode property White_Space.
pub open spec fn is_white_space(c: char) -> bool {
    let u = c as u32;
    (0x09 <= u && u <= 0x0D) || u == 0x20 || u == 0x85 || u == 0xA0 || u == 0x1680 || (0x2000
        <= u && u <= 0x200A) || u == 0x2028 || u == 0x2029 || u == 0x202F || u == 0x205F || u
        == 0x3000
}

/// A text without its leading white space.
pub open spec fn trim_start_of(s: Seq<char>) -> Seq<char>
    decreases s.len(),
{
    if s.len() > 0 && is_white_space(s[0]) {
        trim_start_of(s.drop_first())
    } else {
        s
    }
}

/// A text without its trailing white space.
pub open spec fn trim_end_of(s: Seq<char>) -> Seq<char>
    decreases s.len(),
{
    if s.len() > 0 && is_white_space(s.last()) {
        trim_end_of(s.drop_last())
    } else {
        s
    }
}

/// A text without its leading and trailing white space.
pub open spec fn trim_of(s: Seq<char>) -> Seq<char> {
    trim_end_of(trim_start_of(s))
}

/// The name of the day sheet of a date: its label, trimmed.
pub open spec fn sheet_name_of(d: CalendarDate) -> Seq<char> {
    trim_of(day_month_label(d))
}

/// Relies on std's `SystemTime::now`, chrono's `DateTime::from_timestamp`
/// and `NaiveDateTime::checked_add_offset`, and chrono-tz's `Asia::Kolkata`:
/// the current date in India, a date that chrono can hold; none where the
/// clock lies before 1970 or outside chrono's range.
#[verifier::external_body]
fn today_in_kolkata() -> (r: Option<CalendarDate>)
    ensures
        r matches Some(d) ==> is_valid_date(d),
{
    let since = std::time::SystemTime::now().duration_since(std::time::UNIX_EPOCH).ok()?;
    let secs = i64::try_from(since.as_secs()).ok()?;
    let utc = chrono::DateTime::from_timestamp(secs, 0)?.naive_utc();
    let offset = chrono_tz::Asia::Kolkata.offset_from_utc_datetime(&utc).fix();
    let local = utc.checked_add_offset(offset)?;
    Some(CalendarDate { year: local.year(), month: local.month(), day: local.day() })
}

/// Relies on chrono's `NaiveDate::from_ymd_opt`, which has a date exactly
/// when it exists and lies in the supported years, and on its `%e %b`
/// format: the space-padded day and the English month abbreviation.
#[verifier::external_body]
fn format_day_month(d: &CalendarDate) -> (r: Option<String>)
    ensures
        r is Some <==> is_valid_date(*d),
        r matches Some(s) ==> s@ == day_month_label(*d),
{
    chrono::NaiveDate::from_ymd_opt(d.year, d.month, d.day).map(
        |date| date.format("%e %b").to_string(),
    )
}

/// Relies on `str::trim`: the text without leading and trailing characters
/// of the Unicode property White_Space.
#[verifier::external_body]
fn trim_text(s: &str) -> (r: String)
    ensures
        r@ == trim_of(s@),
{
    s.trim().to_string()
}

/// The day of the month without padding, a space, and the month's
/// abbreviation, such as "5 Jun".
pub open spec fn day_month_name(d: CalendarDate) -> Seq<char> {
    decimal_of(d.day as nat) + seq![' '] + month_abbreviation(d.month)
}

proof fn lemma_month_abbreviation(month: u32)
    ensures
        month_abbreviation(month).len() == 3,
        !is_white_space(month_abbreviation(month)[2]),
{
}

/// Trimming the label of an existing date leaves the unpadded day and the
/// month's abbreviation.
pub proof fn lemma_sheet_name_unpadded(d: CalendarDate)
    requires
        is_valid_date(d),
    ensures
        sheet_name_of(d) == day_month_name(d),
{
    let label = day_month_label(d);
    let name = day_month_name(d);
    lemma_month_abbreviation(d.month);
    reveal_with_fuel(decimal_of, 2);
    if d.day < 10 {
        assert(label.drop_first() =~= name);
        assert(trim_start_of(label.drop_first()) == name);
        assert(trim_start_of(label) == name);
    } else {
        assert(label =~= name);
        assert(trim_start_of(label) == name);
    }
    assert(name.last() == month_abbreviation(d.month)[2]);
    assert(trim_end_of(name) == name);
}

/// The name of the day sheet of a date, such as "5 Jun"; none for a date
/// that does not exist.
pub fn day_sheet_name(date: &CalendarDate) -> (r: Option<String>)
    ensures
        r is Some <==> is_valid_date(*date),
        r matches Some(s) ==> s@ == sheet_name_of(*date) && s@ == day_month_name(*date),
{
    match format_day_month(date) {
        Some(label) => {
            proof {
                lemma_sheet_name_unpadded(*date);
            }
            Some(trim_text(label.as_str()))
        },
        None => None,
    }
}

/// The name of today's day sheet, today being the date in India; none
/// where the clock gives no date.
pub fn todays_sheet_name() -> (r: Option<String>)
    ensures
        r matches Some(s) ==> exists|d: CalendarDate| is_valid_date(d) && s@ == sheet_name_of(d),
{
    match today_in_kolkata() {
        Some(today) => day_sheet_name(&today),
        None => None,
    }
}

} // verus!
