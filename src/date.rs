//! Calendar dates in `YYYY-MM-DD` form and the signed number of days between
//! two of them.

use chrono::NaiveDate;
use vstd::prelude::*;

verus! {

/// The earliest year that a parsed date can have.
pub const MIN_YEAR: i32 = -262143;

/// The latest year that a parsed date can have.
pub const MAX_YEAR: i32 = 262142;

/// A date of the proleptic Gregorian calendar.
#[derive(Clone, Copy, Debug, PartialEq, Eq, Structural)]
pub struct CivilDate {
    pub year: i32,
    pub month: u32,
    pub day: u32,
}

pub open spec fn is_leap_year(y: int) -> bool {
    (y % 4 == 0 && y % 100 != 0) || y % 400 == 0
}

pub open spec fn days_in_month(y: int, m: int) -> int {
    if m == 2 {
        if is_leap_year(y) { 29 } else { 28 }
    } else if m == 4 || m == 6 || m == 9 || m == 11 {
        30
    } else {
        31
    }
}

/// Days in the months of year `y` that come before month `m`.
pub open spec fn days_before_month(y: int, m: int) -> int
    decreases m,
{
    if m <= 1 { 0 } else { days_before_month(y, m - 1) + days_in_month(y, m - 1) }
}

/// The day number of a date: 1 for 0001-01-01, counting on (and back) one
/// per day.
pub open spec fn day_number(y: int, m: int, d: int) -> int {
    let p = y - 1;
    365 * p + p / 4 - p / 100 + p / 400 + days_before_month(y, m) + d
}

pub open spec fn ymd_day_number(ymd: (int, int, int)) -> int {
    day_number(ymd.0, ymd.1, ymd.2)
}

/// A valid calendar date within the range of years that can be parsed.
pub open spec fn valid_ymd(y: int, m: int, d: int) -> bool {
    MIN_YEAR <= y <= MAX_YEAR && 1 <= m <= 12 && 1 <= d <= days_in_month(y, m)
}

impl CivilDate {
    pub open spec fn wf(&self) -> bool {
        valid_ymd(self.year as int, self.month as int, self.day as int)
    }

    pub open spec fn ymd(&self) -> (int, int, int) {
        (self.year as int, self.month as int, self.day as int)
    }

    pub open spec fn day_number(&self) -> int {
        ymd_day_number(self.ymd())
    }
}

/// The date, as year, month and day, that `%Y-%m-%d` reads from a string,
/// or `None` where the string is not such a date.
pub uninterp spec fn parsed_date(s: Seq<char>) -> Option<(int, int, int)>;

/// Relies on chrono's `NaiveDate::parse_from_str` with the format
/// `%Y-%m-%d`: it gives a date, always a valid one within chrono's range of
/// years, or an error, and depends on the string alone.
#[verifier::external_body]
fn parse_ymd(s: &str) -> (r: Option<CivilDate>)
    ensures
        match r {
            Some(d) => d.wf() && parsed_date(s@) == Some(d.ymd()),
            None => parsed_date(s@).is_none(),
        },
{
    NaiveDate::parse_from_str(s, "%Y-%m-%d").ok().map(
        |d| CivilDate { year: chrono::Datelike::year(&d), month: chrono::Datelike::month(&d), day: chrono::Datelike::day(&d) },
    )
}

/// Relies on chrono's `NaiveDate::from_ymd_opt` (a valid date in range is
/// `Some`), on `NaiveDate - NaiveDate` (`signed_duration_since`: the whole
/// days from `start` to `end`) and on `TimeDelta::num_days`.
#[verifier::external_body]
fn days_between(start: &CivilDate, end: &CivilDate) -> (r: i64)
    requires
        start.wf(),
        end.wf(),
    ensures
        r == end.day_number() - start.day_number(),
{
    let a = NaiveDate::from_ymd_opt(start.year, start.month, start.day).unwrap();
    let b = NaiveDate::from_ymd_opt(end.year, end.month, end.day).unwrap();
    (b - a).num_days()
}

/// Which of a trip's two dates could not be read.
#[derive(Clone, Copy, Debug, PartialEq, Eq, Structural)]
pub enum DateError {
    StartDate,
    EndDate,
}

/// Days from the date in `start` to the date in `end`, where both read as
/// dates.
pub open spec fn duration_of(start: Seq<char>, end: Seq<char>) -> Option<int> {
    match (parsed_date(start), parsed_date(end)) {
        (Some(a), Some(b)) => Some(ymd_day_number(b) - ymd_day_number(a)),
        _ => None,
    }
}

/// What reading two dates and counting the days between them gives: the
/// start date is read first.
pub open spec fn duration_result(start: Seq<char>, end: Seq<char>) -> Result<int, DateError> {
    if parsed_date(start).is_none() {
        Err(DateError::StartDate)
    } else if parsed_date(end).is_none() {
        Err(DateError::EndDate)
    } else {
        Ok(duration_of(start, end).unwrap())
    }
}

/// Days from the date written in `start` to that written in `end`, both as
/// `YYYY-MM-DD`; negative where `end` comes first.
pub fn duration_between(start: &str, end: &str) -> (r: Result<i64, DateError>)
    ensures
        match r {
            Ok(n) => duration_result(start@, end@) == Ok::<int, DateError>(n as int),
            Err(e) => duration_result(start@, end@) == Err::<int, DateError>(e),
        },
{
    let a = match parse_ymd(start) {
        Some(a) => a,
        None => return Err(DateError::StartDate),
    };
    let b = match parse_ymd(end) {
        Some(b) => b,
        None => return Err(DateError::EndDate),
    };
    Ok(days_between(&a, &b))
}

/// Swapping the two dates negates the number of days between them.
pub proof fn lemma_duration_antisymmetric(d1: Seq<char>, d2: Seq<char>)
    requires
        parsed_date(d1).is_some(),
        parsed_date(d2).is_some(),
    ensures
        duration_of(d1, d2).is_some(),
        duration_of(d2, d1) == Some(-duration_of(d1, d2).unwrap()),
{
}

/// From a date to itself there are no days.
pub proof fn lemma_duration_same_date(d: Seq<char>)
    requires
        parsed_date(d).is_some(),
    ensures
        duration_of(d, d) == Some(0int),
{
}

} // verus!
