//! Calendar dates as day numbers: day 1 is 1 January of year 1 in the
//! proleptic Gregorian calendar, and each later day counts one more.

use vstd::prelude::*;

verus! {

/// The day number of the date that chrono reads from `text` under the format
/// `%Y-%m-%d`, or `None` where chrono reads no date from it.
pub uninterp spec fn date_of_text(text: Seq<char>) -> Option<i32>;

/// Calls `chrono::NaiveDate::parse_from_str` with the format `%Y-%m-%d` and
/// hands back the date's `num_days_from_ce`. Nothing is proved of it: the
/// contract only gives the outcome its name, `date_of_text`.
#[verifier::external_body]
pub(crate) fn parse_date(text: &str) -> (r: Option<i32>)
    ensures
        r == date_of_text(text@),
{
    match chrono::NaiveDate::parse_from_str(text, "%Y-%m-%d") {
        Ok(date) => Some(chrono::Datelike::num_days_from_ce(&date)),
        Err(_) => None,
    }
}

} // verus!
