//! Months of the proleptic Gregorian calendar, as `chrono` knows them.

use vstd::prelude::*;

use crate::text::zero_padded;

verus! {

/// The first year that a date of `chrono` can lie in.
pub const MIN_YEAR: i32 = -262143;

/// The last year that a date of `chrono` can lie in.
pub const MAX_YEAR: i32 = 262142;

/// The first day of a month.
#[derive(Debug, Clone, Copy, PartialEq, Eq, Structural)]
pub struct MonthStart {
    pub year: i32,
    pub month: u32,
}

/// Whether `year` and `month` name a month that `chrono` has dates for.
pub open spec fn is_calendar_month(year: int, month: int) -> bool {
    MIN_YEAR <= year <= MAX_YEAR && 1 <= month <= 12
}

/// A year as a date shows it: four digits from 0 to 9999, and a sign with
/// at least four digits for every other year.
pub open spec fn year_text(year: int) -> Seq<char> {
    if 0 <= year <= 9999 {
        zero_padded(year as nat, 4)
    } else if year < 0 {
        seq!['-'] + zero_padded((-year) as nat, 4)
    } else {
        seq!['+'] + zero_padded(year as nat, 4)
    }
}

/// A date in the form `YYYY-MM-DD`.
pub open spec fn date_text(year: int, month: int, day: int) -> Seq<char> {
    year_text(year) + seq!['-'] + zero_padded(month as nat, 2) + seq!['-'] + zero_padded(
        day as nat,
        2,
    )
}

/// The first day of a month in the form `YYYY-MM-DD`.
pub open spec fn month_start_text(year: int, month: int) -> Seq<char> {
    date_text(year, month, 1)
}

/// `chrono::NaiveDate::from_ymd_opt`, asked whether it gives a date. For a
/// day that every month has, there is a date when the month is one of the
/// twelve and the year lies within the range of `NaiveDate`.
#[verifier::external_body]
pub(crate) fn date_exists(year: i32, month: u32, day: u32) -> (r: bool)
    requires
        1 <= day <= 28,
    ensures
        r == is_calendar_month(year as int, month as int),
{
    chrono::NaiveDate::from_ymd_opt(year, month, day).is_some()
}

/// `chrono::NaiveDate::format` with the pattern `%Y-%m-%d`: the year,
/// zero-padded to four digits and signed outside 0 to 9999, then the month
/// and the day with two digits each, with hyphens between them.
#[verifier::external_body]
pub(crate) fn format_date(year: i32, month: u32, day: u32) -> (r: String)
    requires
        is_calendar_month(year as int, month as int),
        1 <= day <= 28,
    ensures
        r@ == date_text(year as int, month as int, day as int),
{
    match chrono::NaiveDate::from_ymd_opt(year, month, day) {
        Some(date) => date.format("%Y-%m-%d").to_string(),
        None => String::new(),
    }
}

/// Decides whether `year` and `month` name a month of the calendar.
pub fn month_exists(year: i32, month: u32) -> (r: bool)
    ensures
        r == is_calendar_month(year as int, month as int),
{
    date_exists(year, month, 1)
}

impl MonthStart {
    /// Whether the month is one of the calendar.
    pub open spec fn wf(self) -> bool {
        is_calendar_month(self.year as int, self.month as int)
    }

    /// The day in the form `YYYY-MM-DD`; `None` where the month is not one
    /// of the calendar.
    pub fn text(&self) -> (r: Option<String>)
        ensures
            self.wf() ==> r.deep_view() == Some(
                month_start_text(self.year as int, self.month as int),
            ),
            !self.wf() ==> r is None,
    {
        if date_exists(self.year, self.month, 1) {
            Some(format_date(self.year, self.month, 1))
        } else {
            None
        }
    }
}

} // verus!
