//! The request a client sends, and the defaults that fill its blanks.

use vstd::prelude::*;

verus! {

/// A request as the client wrote it: any field may be blank.
#[derive(Debug, Clone, PartialEq, Eq)]
pub struct TickerRequest {
    pub ticker: String,
    pub start: String,
    pub end: String,
}

/// The three fields of a request as character sequences.
pub struct RequestText {
    pub ticker: Seq<char>,
    pub start: Seq<char>,
    pub end: Seq<char>,
}

impl View for TickerRequest {
    type V = RequestText;

    open spec fn view(&self) -> RequestText {
        RequestText { ticker: self.ticker@, start: self.start@, end: self.end@ }
    }
}

/// The configured defaults; a blank one means that none is configured.
#[derive(Debug, Clone, PartialEq, Eq)]
pub struct Defaults {
    pub ticker: String,
    pub start: String,
    pub end: String,
}

impl View for Defaults {
    type V = RequestText;

    open spec fn view(&self) -> RequestText {
        RequestText { ticker: self.ticker@, start: self.start@, end: self.end@ }
    }
}

/// `configured` unless it is blank, else `fallback`.
pub open spec fn or_fallback(configured: Seq<char>, fallback: Seq<char>) -> Seq<char> {
    if configured.len() == 0 {
        fallback
    } else {
        configured
    }
}

/// The request that stands in when a client's request cannot be used.
pub open spec fn fallback_request(defaults: RequestText) -> RequestText {
    RequestText {
        ticker: or_fallback(defaults.ticker, "XAUUSD"@),
        start: or_fallback(defaults.start, "2025-01-01"@),
        end: or_fallback(defaults.end, "2025-02-01"@),
    }
}

fn configured_or(configured: &String, fallback: &str) -> (r: String)
    ensures
        r@ == or_fallback(configured@, fallback@),
{
    if configured.as_str().is_empty() {
        fallback.to_owned()
    } else {
        configured.clone()
    }
}

impl TickerRequest {
    /// The stand-in request: each configured default, and where none is
    /// configured `XAUUSD`, `2025-01-01` and `2025-02-01`.
    pub fn new(defaults: &Defaults) -> (r: TickerRequest)
        ensures
            r@ == fallback_request(defaults@),
    {
        TickerRequest {
            ticker: configured_or(&defaults.ticker, "XAUUSD"),
            start: configured_or(&defaults.start, "2025-01-01"),
            end: configured_or(&defaults.end, "2025-02-01"),
        }
    }
}

impl Default for TickerRequest {
    /// The request with every field blank.
    fn default() -> (r: TickerRequest)
        ensures
            r@.ticker.len() == 0,
            r@.start.len() == 0,
            r@.end.len() == 0,
    {
        TickerRequest { ticker: String::new(), start: String::new(), end: String::new() }
    }
}

impl Defaults {
    /// No default configured for any field.
    pub fn none() -> (r: Defaults)
        ensures
            r@.ticker.len() == 0,
            r@.start.len() == 0,
            r@.end.len() == 0,
    {
        Defaults { ticker: String::new(), start: String::new(), end: String::new() }
    }
}

} // verus!
