//! Calendar dates: the window of expiration dates that a listing asks for.
//! The calendar itself is `chrono`'s.

use crate::decimal::decimal_digits;
use vstd::prelude::*;

verus! {

/// A day of the proleptic Gregorian calendar, by its numbers.
#[derive(Clone, Copy, Debug, PartialEq, Eq)]
pub struct CalendarDate {
    pub year: i32,
    pub month: u32,
    pub day: u32,
}

/// Whether `year` has a 29th of February.
pub open spec fn leap_year(year: int) -> bool {
    year % 4 == 0 && (year % 100 != 0 || year % 400 == 0)
}

/// The number of days of a month.
pub open spec fn days_in_month(year: int, month: int) -> int {
    if month == 2 {
        if leap_year(year) {
            29
        } else {
            28
        }
    } else if month == 4 || month == 6 || month == 9 || month == 11 {
        30
    } else {
        31
    }
}

/// The first year that `chrono::NaiveDate` holds.
pub open spec fn first_year() -> int {
    -262143
}

/// The last year that `chrono::NaiveDate` holds.
pub open spec fn last_year() -> int {
    262142
}

/// Whether the calendar has a day with these numbers, in a year that
/// `chrono::NaiveDate` holds.
pub open spec fn calendar_day(year: int, month: int, day: int) -> bool {
    &&& first_year() <= year <= last_year()
    &&& 1 <= month <= 12
    &&& 1 <= day <= days_in_month(year, month)
}

/// The decimal digits of `n`, with zeros in front up to `width` characters.
pub open spec fn zero_padded(n: nat, width: nat) -> Seq<char> {
    let digits = decimal_digits(n);
    if digits.len() >= width {
        digits
    } else {
        Seq::new((width - digits.len()) as nat, |i: int| '0') + digits
    }
}

/// A year in four digits or more; with a sign in front unless it is one of
/// the years 0 to 9999.
pub open spec fn year_text(year: int) -> Seq<char> {
    if 0 <= year <= 9999 {
        zero_padded(year as nat, 4)
    } else if year < 0 {
        seq!['-'] + zero_padded((-year) as nat, 4)
    } else {
        seq!['+'] + zero_padded(year as nat, 4)
    }
}

/// A date as year, month and day with hyphens between: `2024-03-09`.
pub open spec fn iso_text(year: int, month: int, day: int) -> Seq<char> {
    year_text(year) + seq!['-'] + zero_padded(month as nat, 2) + seq!['-'] + zero_padded(
        day as nat,
        2,
    )
}

impl CalendarDate {
    /// Whether the calendar has this day.
    pub open spec fn valid(self) -> bool {
        calendar_day(self.year as int, self.month as int, self.day as int)
    }

    /// The date as `YYYY-MM-DD`.
    pub open spec fn text(self) -> Seq<char> {
        iso_text(self.year as int, self.month as int, self.day as int)
    }
}

/// `chrono::NaiveDate`, carried from one call into `chrono` to the next.
#[verifier::external_type_specification]
#[verifier::external_body]
pub struct ExNaiveDate(chrono::NaiveDate);

/// The year, month and day of a `chrono::NaiveDate`.
pub uninterp spec fn date_numbers(date: chrono::NaiveDate) -> (int, int, int);

/// The day that lies `days` days after the given one (before it, where `days`
/// is negative), as `chrono::NaiveDate::checked_add_signed` finds it; `None`
/// where `chrono` cannot hold that many days or that day.
pub uninterp spec fn date_after(year: int, month: int, day: int, days: int) -> Option<
    (int, int, int),
>;

/// Calls `chrono::NaiveDate::from_ymd_opt`. Claimed: it gives a date exactly
/// for a day that the calendar has, in a year that `NaiveDate` holds, and the
/// date has the numbers given.
#[verifier::external_body]
fn make_date(date: &CalendarDate) -> (made: Option<chrono::NaiveDate>)
    ensures
        match made {
            Some(d) => date.valid() && date_numbers(d) == (
                date.year as int,
                date.month as int,
                date.day as int,
            ),
            None => !date.valid(),
        },
{
    chrono::NaiveDate::from_ymd_opt(date.year, date.month, date.day)
}

/// Calls `chrono::TimeDelta::try_days` and, with what it gives,
/// `chrono::NaiveDate::checked_add_signed`. Claimed: whether a date comes
/// out, and which, depends on the date and the number of days alone.
#[verifier::external_body]
fn add_days(date: chrono::NaiveDate, days: i64) -> (later: Option<chrono::NaiveDate>)
    ensures
        match later {
            Some(d) => date_after(
                date_numbers(date).0,
                date_numbers(date).1,
                date_numbers(date).2,
                days as int,
            ) == Some(date_numbers(d)),
            None => date_after(
                date_numbers(date).0,
                date_numbers(date).1,
                date_numbers(date).2,
                days as int,
            ) is None,
        },
{
    date.checked_add_signed(chrono::TimeDelta::try_days(days)?)
}

/// Calls `chrono::NaiveDate::format` with `%Y-%m-%d` and takes the text.
/// Claimed: the year in four digits, with a sign and more digits outside 0 to
/// 9999, then the month and the day in two digits each, hyphens between.
#[verifier::external_body]
fn date_text(date: chrono::NaiveDate) -> (text: String)
    ensures
        text@ == iso_text(date_numbers(date).0, date_numbers(date).1, date_numbers(date).2),
{
    date.format("%Y-%m-%d").to_string()
}

/// The first and the last day of a window that starts on `today` and ends
/// `days` days later, each as `YYYY-MM-DD`. `None` where `today` is no day
/// of the calendar, or the last day is one that `chrono` cannot hold.
pub open spec fn window_texts(today: CalendarDate, days: int) -> Option<(Seq<char>, Seq<char>)> {
    if !today.valid() {
        None
    } else {
        match date_after(today.year as int, today.month as int, today.day as int, days) {
            Some(end) => Some((today.text(), iso_text(end.0, end.1, end.2))),
            None => None,
        }
    }
}

/// Finds the window of `days` days from `today` on.
pub fn expiration_window(today: &CalendarDate, days: i64) -> (window: Option<(String, String)>)
    ensures
        match window {
            Some((from, to)) => window_texts(*today, days as int) == Some((from@, to@)),
            None => window_texts(*today, days as int) is None,
        },
{
    match make_date(today) {
        Some(start) => match add_days(start, days) {
            Some(end) => Some((date_text(start), date_text(end))),
            None => None,
        },
        None => None,
    }
}

} // verus!
