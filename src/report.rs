//! The report over the first records of a file: one summary line per record,
//! in order, up to the first record whose dates cannot be read.

use crate::date::DateError;
use crate::trip::Trip;
use vstd::prelude::*;

verus! {

/// How many records a report covers at most.
pub const REPORT_LIMIT: usize = 10;

/// The record, counted from zero, whose date could not be read, and which
/// date it was.
#[derive(Clone, Copy, Debug, PartialEq, Eq, Structural)]
pub struct DateFailure {
    pub row: usize,
    pub error: DateError,
}

/// The summary lines of a report, and the record at which it stopped, if it
/// stopped early.
#[derive(Clone, Debug)]
pub struct Report {
    pub lines: Vec<String>,
    pub failure: Option<DateFailure>,
}

/// How many records a report over `n` records covers.
pub open spec fn report_len(n: int) -> int {
    if n < REPORT_LIMIT as int { n } else { REPORT_LIMIT as int }
}

/// `r` is the report over `trips`: a line for each covered record up to the
/// first one that has a date that cannot be read, and that record.
pub open spec fn is_report_of(trips: Seq<Trip>, r: Report) -> bool {
    let n = report_len(trips.len() as int);
    &&& forall|i: int|
        0 <= i < r.lines@.len() ==> trips[i].line_spec() == Ok::<Seq<char>, DateError>(
            #[trigger] r.lines@[i]@,
        )
    &&& match r.failure {
        None => r.lines@.len() == n,
        Some(f) => {
            &&& f.row < n
            &&& r.lines@.len() == f.row
            &&& trips[f.row as int].line_spec() == Err::<Seq<char>, DateError>(f.error)
        },
    }
}

/// The report over `trips`: the lines of the first `REPORT_LIMIT` records in
/// order, stopping at the first record whose start or end date is not a
/// `YYYY-MM-DD` calendar date.
pub fn render_report(trips: &Vec<Trip>) -> (r: Report)
    ensures
        is_report_of(trips@, r),
{
    let n: usize = if trips.len() < REPORT_LIMIT { trips.len() } else { REPORT_LIMIT };
    let mut lines: Vec<String> = Vec::new();
    let mut i: usize = 0;
    while i < n
        invariant
            n == report_len(trips@.len() as int),
            i <= n,
            lines@.len() == i,
            forall|k: int|
                0 <= k < i ==> trips@[k].line_spec() == Ok::<Seq<char>, DateError>(
                    #[trigger] lines@[k]@,
                ),
        decreases n - i,
    {
        match trips[i].render_line() {
            Ok(s) => lines.push(s),
            Err(e) => {
                return Report { lines, failure: Some(DateFailure { row: i, error: e }) };
            },
        }
        i = i + 1;
    }
    Report { lines, failure: None }
}

/// Where every covered record has readable dates, the report holds one line
/// per record, `REPORT_LIMIT` of them where there are at least as many
/// records, and all of them otherwise, in the records' order.
pub proof fn lemma_report_covers_valid_rows(trips: Seq<Trip>, r: Report)
    requires
        is_report_of(trips, r),
        forall|i: int| 0 <= i < report_len(trips.len() as int) ==> (#[trigger] trips[i]).dates_valid(),
    ensures
        r.failure.is_none(),
        r.lines@.len() == report_len(trips.len() as int),
        trips.len() >= REPORT_LIMIT ==> r.lines@.len() == REPORT_LIMIT,
        trips.len() < REPORT_LIMIT ==> r.lines@.len() == trips.len(),
        forall|i: int| 0 <= i < r.lines@.len() ==> trips[i].line_spec() == Ok::<Seq<char>, DateError>(
            #[trigger] r.lines@[i]@,
        ),
{
    if let Some(f) = r.failure {
        assert(trips[f.row as int].dates_valid());
    }
}

/// A covered record with a date that cannot be read stops the report: no
/// line is given for it or for any record after it.
pub proof fn lemma_report_stops_at_bad_date(trips: Seq<Trip>, r: Report, k: int)
    requires
        is_report_of(trips, r),
        0 <= k < report_len(trips.len() as int),
        !trips[k].dates_valid(),
    ensures
        r.failure.is_some(),
        r.failure.unwrap().row <= k,
        r.lines@.len() <= k,
{
    if r.lines@.len() > k {
        assert(trips[k].line_spec() == Ok::<Seq<char>, DateError>(r.lines@[k]@));
    }
}

} // verus!
