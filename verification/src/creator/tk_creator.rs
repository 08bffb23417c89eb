//! Price bars made from the provider's candles.

use crate::data::yfinance_data::Candle;
use crate::errors::tk_errors::TickerDateRangeError;
use rust_decimal::Decimal;
use vstd::prelude::*;

verus! {

/// One price bar as the client receives it.
#[derive(Debug, Clone, Copy, PartialEq)]
pub struct TickerParams {
    pub time: i32,
    pub open: Decimal,
    pub high: Decimal,
    pub low: Decimal,
    pub close: Decimal,
}

/// The bar that a candle becomes.
pub open spec fn bar_of(h: Candle) -> TickerParams {
    TickerParams { time: h.day, open: h.open, high: h.high, low: h.low, close: h.close }
}

/// One bar per candle, in the order of the candles.
pub open spec fn bars_of(history: Seq<Candle>) -> Seq<TickerParams> {
    history.map_values(|h: Candle| bar_of(h))
}

/// The maker of price bars.
#[derive(Debug, Clone, Copy, PartialEq, Eq)]
pub struct TickerBox;

impl TickerBox {
    pub fn new() -> (r: Self)
        ensures
            r == TickerBox,
    {
        TickerBox
    }

    /// Turns a history into price bars, one per candle and in the same
    /// order. A range that ends before it starts is refused, whatever the
    /// history holds.
    pub fn create_ticker_data(&self, history_data: Vec<Candle>, start: i32, end: i32) -> (r: Result<
        Vec<TickerParams>,
        TickerDateRangeError,
    >)
        ensures
            start > end ==> r == Err::<Vec<TickerParams>, TickerDateRangeError>(
                TickerDateRangeError::InvalidDateRange { start, end },
            ),
            start <= end ==> (r matches Ok(bars) && bars@ == bars_of(history_data@)),
    {
        if start > end {
            return Err(TickerDateRangeError::InvalidDateRange { start, end });
        }
        let n: usize = history_data.len();
        let mut bars: Vec<TickerParams> = Vec::new();
        let mut i: usize = 0;
        while i < n
            invariant
                n == history_data@.len(),
                i <= n,
                bars@ == bars_of(history_data@.subrange(0, i as int)),
            decreases n - i,
        {
            let h = history_data[i];
            bars.push(
                TickerParams { time: h.day, open: h.open, high: h.high, low: h.low, close: h.close },
            );
            i = i + 1;
            assert(bars@ =~= bars_of(history_data@.subrange(0, i as int)));
        }
        assert(history_data@.subrange(0, n as int) =~= history_data@);
        Ok(bars)
    }
}

} // verus!
