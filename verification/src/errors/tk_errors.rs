//! What the making of price bars reports.

use crate::errors::yf_error::YFinanceError;
use vstd::prelude::*;

verus! {

/// A date range that ends before it starts, as day numbers.
#[derive(Debug, Clone, Copy, PartialEq, Eq)]
pub enum TickerDateRangeError {
    InvalidDateRange { start: i32, end: i32 },
}

/// Why a retrieval gave no price bars.
#[derive(Debug, Clone, PartialEq, Eq)]
pub enum FetchError {
    /// The request's start is no date.
    InvalidStartDate,
    /// The request's end is no date.
    InvalidEndDate,
    /// A provider call failed.
    History(YFinanceError),
    /// The range ends before it starts.
    Range(TickerDateRangeError),
}

} // verus!
