//! Retrieval for one request: its dates are read, the provider's answers are
//! joined, and the history becomes price bars.

use crate::app::app_box::AppBox;
use crate::creator::tk_creator::{bars_of, TickerParams};
use crate::data::yfinance_data::{
    all_answered,
    fails_at,
    joined,
    spans_of,
    windows,
    Candle,
    Window,
};
use crate::dates::{date_of_text, parse_date};
use crate::errors::tk_errors::{FetchError, TickerDateRangeError};
use crate::errors::yf_error::YFinanceError;
use crate::requests::tk_request::TickerRequest;
use vstd::prelude::*;

verus! {

/// The number of provider calls that a range of dates takes.
pub open spec fn calls(start: i32, end: i32) -> int {
    windows(start as int, end as int).len() as int
}

/// What a retrieval answers, given what was read from the request's dates
/// and what the provider answered window by window.
pub open spec fn fetch_answer(
    r: Result<Vec<TickerParams>, FetchError>,
    ticker: Seq<char>,
    start: Option<i32>,
    end: Option<i32>,
    outcomes: Seq<Option<Vec<Candle>>>,
) -> bool {
    match (start, end) {
        (None, _) => r == Err::<Vec<TickerParams>, FetchError>(FetchError::InvalidStartDate),
        (Some(_), None) => r == Err::<Vec<TickerParams>, FetchError>(FetchError::InvalidEndDate),
        (Some(s), Some(e)) => if s > e {
            r == Err::<Vec<TickerParams>, FetchError>(
                FetchError::Range(TickerDateRangeError::InvalidDateRange { start: s, end: e }),
            )
        } else if all_answered(outcomes, calls(s, e)) {
            r matches Ok(bars) && bars@ == bars_of(joined(outcomes, calls(s, e)))
        } else {
            match r {
                Err(FetchError::History(YFinanceError::FetchFailed { ticker: t, window })) => t@
                    == ticker && exists|k: int| #[trigger]
                    fails_at(outcomes, s as int, e as int, k) && window@ == windows(
                        s as int,
                        e as int,
                    )[k],
                _ => false,
            }
        },
    }
}

/// The coordinator of one retrieval.
#[derive(Debug, Clone, Copy, PartialEq, Eq)]
pub struct TickerData;

impl TickerData {
    pub fn new() -> (r: Self)
        ensures
            r == TickerData,
    {
        TickerData
    }

    /// The provider calls to make, given what was read from the request's
    /// dates: none unless both are dates.
    pub fn windows_between(&self, start: Option<i32>, end: Option<i32>, app: &AppBox) -> (plan: Vec<
        Window,
    >)
        ensures
            spans_of(plan@) == match (start, end) {
                (Some(s), Some(e)) => windows(s as int, e as int),
                _ => Seq::empty(),
            },
    {
        match (start, end) {
            (Some(s), Some(e)) => app.yfinance_data.plan_windows(s, e),
            _ => {
                let plan: Vec<Window> = Vec::new();
                assert(spans_of(plan@) =~= Seq::empty());
                plan
            },
        }
    }

    /// The provider calls that the request takes, in call order.
    pub fn windows_to_fetch(&self, tk_request: &TickerRequest, app: &AppBox) -> (plan: Vec<Window>)
        ensures
            spans_of(plan@) == match (date_of_text(tk_request@.start), date_of_text(
                tk_request@.end,
            )) {
                (Some(s), Some(e)) => windows(s as int, e as int),
                _ => Seq::empty(),
            },
    {
        let start = parse_date(tk_request.start.as_str());
        let end = parse_date(tk_request.end.as_str());
        self.windows_between(start, end, app)
    }

    /// The price bars of a range, given what was read from the request's
    /// dates and the provider's answers to the planned windows. A start that
    /// is no date is reported first, then such an end, then the first failed
    /// provider call, then a range that runs backwards; else the bars are the
    /// joined answers, one bar per candle.
    pub fn fetch_between(
        &self,
        ticker: &String,
        start: Option<i32>,
        end: Option<i32>,
        app: &AppBox,
        outcomes: &Vec<Option<Vec<Candle>>>,
    ) -> (r: Result<Vec<TickerParams>, FetchError>)
        ensures
            fetch_answer(r, ticker@, start, end, outcomes@),
    {
        let s = match start {
            Some(s) => s,
            None => { return Err(FetchError::InvalidStartDate); },
        };
        let e = match end {
            Some(e) => e,
            None => { return Err(FetchError::InvalidEndDate); },
        };
        let history_data = match app.yfinance_data.fetch_history_data(ticker, s, e, outcomes) {
            Ok(h) => h,
            Err(err) => {
                proof {
                    if s > e {
                        reveal_with_fuel(windows, 1);
                        assert(windows(s as int, e as int).len() == 0);
                    }
                }
                return Err(FetchError::History(err));
            },
        };
        match app.ticker_box.create_ticker_data(history_data, s, e) {
            Ok(bars) => Ok(bars),
            Err(err) => Err(FetchError::Range(err)),
        }
    }

    /// The price bars that the request asks for, given the provider's
    /// answers to the windows of `windows_to_fetch`.
    pub fn fetch_data(
        &self,
        tk_request: &TickerRequest,
        app: &AppBox,
        outcomes: &Vec<Option<Vec<Candle>>>,
    ) -> (r: Result<Vec<TickerParams>, FetchError>)
        ensures
            fetch_answer(
                r,
                tk_request@.ticker,
                date_of_text(tk_request@.start),
                date_of_text(tk_request@.end),
                outcomes@,
            ),
    {
        let start = parse_date(tk_request.start.as_str());
        let end = parse_date(tk_request.end.as_str());
        self.fetch_between(&tk_request.ticker, start, end, app, outcomes)
    }
}

} // verus!
