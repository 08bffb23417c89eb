//! The parts that every session works with.

use crate::creator::tk_creator::TickerBox;
use crate::data::yfinance_data::YFinanceData;
use vstd::prelude::*;

verus! {

/// The retrieval side and the maker of price bars, handed to each session.
#[derive(Debug, Clone, Copy, PartialEq, Eq)]
pub struct AppBox {
    pub yfinance_data: YFinanceData,
    pub ticker_box: TickerBox,
}

pub fn build_app() -> (r: AppBox)
    ensures
        r == (AppBox { yfinance_data: YFinanceData, ticker_box: TickerBox }),
{
    AppBox { yfinance_data: YFinanceData::new(), ticker_box: TickerBox::new() }
}

} // verus!
