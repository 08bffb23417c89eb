//! What the retrieval of a history reports.

use crate::data::yfinance_data::Window;
use vstd::prelude::*;

verus! {

/// The provider gave no history: the ticker asked for and the first window
/// that went unanswered.
#[derive(Debug, Clone, PartialEq, Eq)]
pub enum YFinanceError {
    FetchFailed { ticker: String, window: Window },
}

} // verus!
