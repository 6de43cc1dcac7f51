//! One travel-expense disclosure record, its duration, and the line that
//! summarises it.

use crate::date::{DateError, duration_between, duration_of, duration_result, parsed_date};
use crate::text::{cents_text, int_text, push_cents, push_int};
use vstd::prelude::*;

verus! {

/// One row of a travel-expense disclosure file. Amounts are in cents;
/// `None` is a blank field.
#[derive(Clone, Debug)]
pub struct Trip {
    pub ref_number: String,
    pub disclosure_group: String,
    pub title_en: String,
    pub title_fr: String,
    pub name: String,
    pub purpose_en: String,
    pub purpose_fr: String,
    pub start_date: String,
    pub end_date: String,
    pub destination_en: String,
    pub destination_fr: String,
    pub airfare: Option<i64>,
    pub other_transport: Option<i64>,
    pub lodging: Option<i64>,
    pub meals: Option<i64>,
    pub other_expenses: Option<i64>,
    pub total: Option<i64>,
    pub additional_comments_en: String,
    pub additional_comments_fr: String,
    pub owner_org: String,
    pub owner_org_title: String,
}

/// The total as shown in a line: a blank total shows as zero.
pub open spec fn total_text(total: Option<i64>) -> Seq<char> {
    match total {
        Some(c) => cents_text(c as int),
        None => cents_text(0),
    }
}

/// The summary line of a trip that lasts `days` days.
pub open spec fn line_text(t: Trip, days: int) -> Seq<char> {
    "Ref Number: "@ + t.ref_number@ + ". Name: "@ + t.name@ + ". Purpose: "@ + t.purpose_en@
        + ". Destination: "@ + t.destination_en@ + ". Duration: "@ + int_text(days)
        + " days. Total: $"@ + total_text(t.total)
}

impl Trip {
    /// Both dates of the trip read as dates.
    pub open spec fn dates_valid(&self) -> bool {
        parsed_date(self.start_date@).is_some() && parsed_date(self.end_date@).is_some()
    }

    pub open spec fn duration_spec(&self) -> Result<int, DateError> {
        duration_result(self.start_date@, self.end_date@)
    }

    /// The summary line, or the date that could not be read.
    pub open spec fn line_spec(&self) -> Result<Seq<char>, DateError> {
        match self.duration_spec() {
            Ok(d) => Ok(line_text(*self, d)),
            Err(e) => Err(e),
        }
    }

    /// Days from the start date to the end date; negative where the trip
    /// ends before it starts.
    pub fn calculate_duration(&self) -> (r: i64)
        requires
            self.dates_valid(),
        ensures
            duration_of(self.start_date@, self.end_date@) == Some(r as int),
    {
        match duration_between(self.start_date.as_str(), self.end_date.as_str()) {
            Ok(n) => n,
            Err(_) => {
                proof {
                    assert(false);
                }
                0
            },
        }
    }

    /// Days from the start date to the end date, or which of the two dates
    /// is not a `YYYY-MM-DD` calendar date (the start date is read first).
    pub fn duration(&self) -> (r: Result<i64, DateError>)
        ensures
            match r {
                Ok(n) => self.duration_spec() == Ok::<int, DateError>(n as int),
                Err(e) => self.duration_spec() == Err::<int, DateError>(e),
            },
    {
        match duration_between(self.start_date.as_str(), self.end_date.as_str()) {
            Ok(_) => Ok(self.calculate_duration()),
            Err(e) => Err(e),
        }
    }

    /// The total as shown in a line, with two decimal places; a blank total
    /// shows as `0.00`.
    pub fn total_display(&self) -> (r: String)
        ensures
            r@ == total_text(self.total),
    {
        let mut s = String::new();
        match self.total {
            Some(c) => push_cents(&mut s, c),
            None => push_cents(&mut s, 0),
        }
        assert(s@ =~= total_text(self.total));
        s
    }

    /// The summary line of the trip, as
    /// `Ref Number: R. Name: N. Purpose: P. Destination: D. Duration: K days. Total: $T`,
    /// or which date could not be read.
    pub fn render_line(&self) -> (r: Result<String, DateError>)
        ensures
            match r {
                Ok(s) => self.line_spec() == Ok::<Seq<char>, DateError>(s@),
                Err(e) => self.line_spec() == Err::<Seq<char>, DateError>(e),
            },
    {
        let days = match self.duration() {
            Ok(d) => d,
            Err(e) => return Err(e),
        };
        let mut s = String::new();
        s.append("Ref Number: ");
        s.append(self.ref_number.as_str());
        s.append(". Name: ");
        s.append(self.name.as_str());
        s.append(". Purpose: ");
        s.append(self.purpose_en.as_str());
        s.append(". Destination: ");
        s.append(self.destination_en.as_str());
        s.append(". Duration: ");
        push_int(&mut s, days);
        s.append(" days. Total: $");
        match self.total {
            Some(c) => push_cents(&mut s, c),
            None => push_cents(&mut s, 0),
        }
        assert(s@ =~= line_text(*self, days as int));
        Ok(s)
    }
}

} // verus!
