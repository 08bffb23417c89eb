//! What request validation reports.

use vstd::prelude::*;

verus! {

/// Why a ticker symbol was refused.
#[derive(Debug, Clone, Copy, PartialEq, Eq)]
pub enum TickerError {
    Empty,
    TooLong,
    InvalidFormat,
}

impl TickerError {
    /// The sentence shown to the client for this refusal.
    pub open spec fn message_spec(self) -> Seq<char> {
        match self {
            TickerError::Empty => "Ticker cannot be empty"@,
            TickerError::TooLong => "Ticker too long"@,
            TickerError::InvalidFormat => "Invalid ticker format"@,
        }
    }

    pub fn message(&self) -> (r: String)
        ensures
            r@ == self.message_spec(),
    {
        match self {
            TickerError::Empty => "Ticker cannot be empty".to_owned(),
            TickerError::TooLong => "Ticker too long".to_owned(),
            TickerError::InvalidFormat => "Invalid ticker format".to_owned(),
        }
    }
}

/// A text that is no calendar date.
#[derive(Debug, Clone, Copy, PartialEq, Eq)]
pub struct DateFormatError;

impl DateFormatError {
    pub open spec fn message_spec(self) -> Seq<char> {
        "Invalid date format"@
    }

    pub fn message(&self) -> (r: String)
        ensures
            r@ == self.message_spec(),
    {
        "Invalid date format".to_owned()
    }
}

/// A refused request: the field at fault and the sentence for the client.
#[derive(Debug, Clone, PartialEq, Eq)]
pub struct ValidationError {
    pub field: String,
    pub message: String,
}

/// A refusal as character sequences.
pub struct Refusal {
    pub field: Seq<char>,
    pub message: Seq<char>,
}

impl View for ValidationError {
    type V = Refusal;

    open spec fn view(&self) -> Refusal {
        Refusal { field: self.field@, message: self.message@ }
    }
}

} // verus!
