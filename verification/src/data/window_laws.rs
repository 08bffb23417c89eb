//! What holds of the windows of every range, and of every retrieval.

use crate::creator::tk_creator::{bars_of, TickerParams};
use crate::data::ticker_data::{calls, fetch_answer};
use crate::data::yfinance_data::{
    all_answered,
    fails_at,
    joined,
    unanswered,
    windows,
    Candle,
};
use crate::errors::tk_errors::{FetchError, TickerDateRangeError};
use vstd::prelude::*;

verus! {

/// `a` divided by `b`, rounded up.
pub open spec fn ceil_div(a: int, b: int) -> int {
    (a + b - 1) / b
}

/// A range that is empty or runs backwards takes no provider call.
pub proof fn lemma_no_windows(start: int, end: int)
    requires
        start >= end,
    ensures
        windows(start, end).len() == 0,
{
}

/// A range of `end - start` days takes one provider call for every 366 days
/// or part of them: each window spans 365 days and the next starts a day
/// later.
pub proof fn lemma_window_count(start: int, end: int)
    requires
        start <= end,
    ensures
        windows(start, end).len() == ceil_div(end - start, 366),
    decreases end - start,
{
    if start < end {
        if start + 365 < end {
            lemma_window_count(start + 366, end);
        } else {
            lemma_no_windows(end + 1, end);
        }
    }
}

/// A range of more than 365 days takes as many provider calls as it has
/// spans of 365 days or parts of them, wherever that number is the number of
/// its spans of 366 days or parts of them.
pub proof fn lemma_long_range_calls(start: int, end: int)
    requires
        end - start > 365,
        ceil_div(end - start, 365) == ceil_div(end - start, 366),
    ensures
        windows(start, end).len() == ceil_div(end - start, 365),
{
    lemma_window_count(start, end);
}

/// Every window lies within the range and spans at most 365 days.
pub proof fn lemma_window_bounds(start: int, end: int, i: int)
    requires
        0 <= i < windows(start, end).len(),
    ensures
        start <= windows(start, end)[i].start <= windows(start, end)[i].end <= end,
        windows(start, end)[i].end - windows(start, end)[i].start <= 365,
    decreases end - start + 1,
{
    if start < end {
        if i > 0 {
            let next = if start + 365 < end {
                start + 366
            } else {
                end + 1
            };
            lemma_window_bounds(next, end, i - 1);
        }
    }
}

/// The windows are contiguous and do not overlap: the first starts at the
/// start of the range, and each later one starts the day after the one
/// before it ended.
pub proof fn lemma_windows_contiguous(start: int, end: int, i: int)
    requires
        0 <= i < windows(start, end).len(),
    ensures
        i == 0 ==> windows(start, end)[i].start == start,
        i > 0 ==> windows(start, end)[i].start == windows(start, end)[i - 1].end + 1,
    decreases end - start + 1,
{
    if start < end {
        if i > 0 {
            let next = if start + 365 < end {
                start + 366
            } else {
                end + 1
            };
            lemma_windows_contiguous(next, end, i - 1);
        }
    }
}

/// No two windows share a day: a later window starts after every earlier
/// one has ended.
pub proof fn lemma_windows_disjoint(start: int, end: int, i: int, j: int)
    requires
        0 <= i < j < windows(start, end).len(),
    ensures
        windows(start, end)[i].end < windows(start, end)[j].start,
    decreases j - i,
{
    lemma_windows_contiguous(start, end, j);
    if i + 1 < j {
        lemma_windows_disjoint(start, end, i, j - 1);
        lemma_window_bounds(start, end, j - 1);
    }
}

/// The last window ends at the end of the range, or on the day before it
/// where the range is a whole number of 366-day strides.
pub proof fn lemma_last_window(start: int, end: int)
    requires
        start < end,
    ensures
        windows(start, end).len() > 0,
        windows(start, end).last().end == if (end - start) % 366 == 0 {
            end - 1
        } else {
            end
        },
    decreases end - start,
{
    if start + 365 < end {
        if start + 366 < end {
            lemma_last_window(start + 366, end);
            assert(windows(start, end).last() == windows(start + 366, end).last());
        } else {
            lemma_no_windows(start + 366, end);
        }
    } else {
        lemma_no_windows(end + 1, end);
    }
}

/// A failed retrieval names one window only: the first that went unanswered
/// is unique, and there is one exactly where not every window was answered.
pub proof fn lemma_first_failure_unique(
    outcomes: Seq<Option<Vec<Candle>>>,
    start: int,
    end: int,
    j: int,
    k: int,
)
    requires
        fails_at(outcomes, start, end, j),
        fails_at(outcomes, start, end, k),
    ensures
        j == k,
        !all_answered(outcomes, windows(start, end).len() as int),
{
    if j < k {
        assert(!unanswered(outcomes, j));
    }
    if k < j {
        assert(!unanswered(outcomes, k));
    }
}

/// The candles of `market` whose day lies from `lo` to `hi`, in the order of
/// `market`: what one provider call over those days gives.
pub open spec fn rows_in(market: Seq<Candle>, lo: int, hi: int) -> Seq<Candle>
    decreases market.len(),
{
    if market.len() == 0 {
        Seq::empty()
    } else if lo <= market.last().day <= hi {
        rows_in(market.drop_last(), lo, hi).push(market.last())
    } else {
        rows_in(market.drop_last(), lo, hi)
    }
}

/// The candles of `market` stand in the order of their days.
pub open spec fn by_day(market: Seq<Candle>) -> bool {
    forall|i: int, j: int| 0 <= i <= j < market.len() ==> market[i].day <= market[j].day
}

/// Each of the first `n` answers is what the provider has for its window.
pub open spec fn answers_from(
    market: Seq<Candle>,
    outcomes: Seq<Option<Vec<Candle>>>,
    start: int,
    end: int,
    n: int,
) -> bool {
    n <= outcomes.len() && forall|i: int|
        0 <= i < n ==> ((#[trigger] outcomes[i]) matches Some(rows) && rows@ == rows_in(
            market,
            windows(start, end)[i].start,
            windows(start, end)[i].end,
        ))
}

proof fn lemma_rows_beyond(market: Seq<Candle>, lo: int, hi: int, top: int)
    requires
        top < lo,
        forall|i: int| 0 <= i < market.len() ==> market[i].day <= top,
    ensures
        rows_in(market, lo, hi).len() == 0,
    decreases market.len(),
{
    if market.len() > 0 {
        lemma_rows_beyond(market.drop_last(), lo, hi, top);
    }
}

/// Two calls over adjoining days give, one after the other, what one call
/// over all those days gives.
pub proof fn lemma_rows_adjoin(market: Seq<Candle>, lo: int, mid: int, hi: int)
    requires
        by_day(market),
        lo <= mid + 1 <= hi + 1,
    ensures
        rows_in(market, lo, mid) + rows_in(market, mid + 1, hi) == rows_in(market, lo, hi),
    decreases market.len(),
{
    if market.len() == 0 {
        assert(rows_in(market, lo, mid) + rows_in(market, mid + 1, hi) =~= rows_in(
            market,
            lo,
            hi,
        ));
    } else {
        let init = market.drop_last();
        let x = market.last();
        assert(by_day(init)) by {
            assert forall|i: int, j: int| 0 <= i <= j < init.len() implies init[i].day
                <= init[j].day by {
                assert(market[i].day <= market[j].day);
            }
        }
        lemma_rows_adjoin(init, lo, mid, hi);
        let a = rows_in(init, lo, mid);
        let b = rows_in(init, mid + 1, hi);
        if lo <= x.day <= mid {
            assert forall|i: int| 0 <= i < init.len() implies init[i].day <= mid by {
                assert(market[i].day <= market[market.len() - 1].day);
            }
            lemma_rows_beyond(init, mid + 1, hi, mid);
            assert(a.push(x) + b =~= (a + b).push(x));
        } else if mid + 1 <= x.day <= hi {
            assert(a + b.push(x) =~= (a + b).push(x));
        }
    }
}

/// The joined answers to the first `n` windows are what one call from the
/// start of the range to the end of the `n`-th window gives: cutting the
/// range into windows neither loses, repeats nor reorders a candle.
pub proof fn lemma_joined_is_unchunked(
    market: Seq<Candle>,
    outcomes: Seq<Option<Vec<Candle>>>,
    start: int,
    end: int,
    n: int,
)
    requires
        by_day(market),
        1 <= n <= windows(start, end).len(),
        answers_from(market, outcomes, start, end, n),
    ensures
        joined(outcomes, n) == rows_in(market, start, windows(start, end)[n - 1].end),
    decreases n,
{
    let ws = windows(start, end);
    lemma_windows_contiguous(start, end, n - 1);
    lemma_window_bounds(start, end, n - 1);
    assert(outcomes[n - 1] matches Some(rows) && rows@ == rows_in(
        market,
        ws[n - 1].start,
        ws[n - 1].end,
    ));
    if n == 1 {
        assert(joined(outcomes, 0) =~= Seq::<Candle>::empty());
        assert(joined(outcomes, 1) =~= rows_in(market, start, ws[0].end));
    } else {
        lemma_joined_is_unchunked(market, outcomes, start, end, n - 1);
        lemma_window_bounds(start, end, n - 2);
        lemma_rows_adjoin(market, start, ws[n - 2].end, ws[n - 1].end);
    }
}

/// What one call gives lies within the days asked for and stands in the
/// order of its days.
pub proof fn lemma_rows_in_order(market: Seq<Candle>, lo: int, hi: int)
    requires
        by_day(market),
    ensures
        by_day(rows_in(market, lo, hi)),
        forall|k: int|
            0 <= k < rows_in(market, lo, hi).len() ==> lo <= (#[trigger] rows_in(
                market,
                lo,
                hi,
            )[k]).day <= hi,
        forall|k: int|
            0 <= k < rows_in(market, lo, hi).len() ==> (#[trigger] rows_in(market, lo, hi)[k]).day
                <= market.last().day,
    decreases market.len(),
{
    if market.len() > 0 {
        let init = market.drop_last();
        assert(by_day(init)) by {
            assert forall|i: int, j: int| 0 <= i <= j < init.len() implies init[i].day
                <= init[j].day by {
                assert(market[i].day <= market[j].day);
            }
        }
        lemma_rows_in_order(init, lo, hi);
        if init.len() > 0 {
            assert(init.last().day <= market.last().day) by {
                assert(market[init.len() - 1].day <= market[market.len() - 1].day);
            }
        }
    }
}

/// Where every window was answered from a market that stands in the order
/// of its days, the retrieval succeeds and its bars are those of one call
/// from the start of the range to the end of the last window, one per
/// candle and in the order of their days.
pub proof fn lemma_retrieval_is_unchunked(
    r: Result<Vec<TickerParams>, FetchError>,
    ticker: Seq<char>,
    market: Seq<Candle>,
    start: i32,
    end: i32,
    outcomes: Seq<Option<Vec<Candle>>>,
)
    requires
        start < end,
        by_day(market),
        answers_from(market, outcomes, start as int, end as int, calls(start, end)),
        fetch_answer(r, ticker, Some(start), Some(end), outcomes),
    ensures
        r matches Ok(bars) && bars@ == bars_of(
            rows_in(market, start as int, windows(start as int, end as int).last().end),
        ),
        by_day(rows_in(market, start as int, windows(start as int, end as int).last().end)),
{
    let n = calls(start, end);
    lemma_last_window(start as int, end as int);
    assert(all_answered(outcomes, n)) by {
        assert forall|i: int| 0 <= i < n implies !unanswered(outcomes, i) by {
            assert(outcomes[i] is Some);
        }
    }
    lemma_joined_is_unchunked(market, outcomes, start as int, end as int, n);
    lemma_rows_in_order(market, start as int, windows(start as int, end as int).last().end);
}

/// A range that runs backwards is reported as such, with no provider call
/// and no bar, whatever the provider would have answered.
pub proof fn lemma_backwards_range_refused(
    r: Result<Vec<TickerParams>, FetchError>,
    ticker: Seq<char>,
    start: i32,
    end: i32,
    outcomes: Seq<Option<Vec<Candle>>>,
)
    requires
        start > end,
        fetch_answer(r, ticker, Some(start), Some(end), outcomes),
    ensures
        calls(start, end) == 0,
        r == Err::<Vec<TickerParams>, FetchError>(
            FetchError::Range(TickerDateRangeError::InvalidDateRange { start, end }),
        ),
{
    lemma_no_windows(start as int, end as int);
}

/// A range of one day takes no provider call and gives no bar, whatever the
/// provider would have answered.
pub proof fn lemma_single_day_is_empty(
    r: Result<Vec<TickerParams>, FetchError>,
    ticker: Seq<char>,
    day: i32,
    outcomes: Seq<Option<Vec<Candle>>>,
)
    requires
        fetch_answer(r, ticker, Some(day), Some(day), outcomes),
    ensures
        calls(day, day) == 0,
        r matches Ok(bars) && bars@.len() == 0,
{
    lemma_no_windows(day as int, day as int);
}

} // verus!
