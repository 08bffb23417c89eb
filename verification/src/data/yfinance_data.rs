//! Windowed retrieval: a date range is cut into windows of at most 365 days,
//! one provider call each, and the answers are joined in call order.

use crate::errors::yf_error::YFinanceError;
use rust_decimal::Decimal;
use vstd::prelude::*;

verus! {

/// `rust_decimal::Decimal`, carried through as the provider gave it.
#[verifier::external_type_specification]
#[verifier::external_body]
pub struct ExDecimal(rust_decimal::Decimal);

/// The longest span of one provider call, in days.
pub const MAX_WINDOW_DAYS: i64 = 365;

/// One day's prices as the provider reports them.
#[derive(Debug, Clone, Copy, PartialEq)]
pub struct Candle {
    pub day: i32,
    pub open: Decimal,
    pub high: Decimal,
    pub low: Decimal,
    pub close: Decimal,
}

/// The dates of one provider call, both ends included, as day numbers.
#[derive(Debug, Clone, Copy, PartialEq, Eq)]
pub struct Window {
    pub start: i32,
    pub end: i32,
}

/// A window over the integers.
pub struct Span {
    pub start: int,
    pub end: int,
}

impl View for Window {
    type V = Span;

    open spec fn view(&self) -> Span {
        Span { start: self.start as int, end: self.end as int }
    }
}

/// The spans of a sequence of windows.
pub open spec fn spans_of(ws: Seq<Window>) -> Seq<Span> {
    ws.map_values(|w: Window| w@)
}

/// Where the window that starts at `current` ends: 365 days on, or at `end`
/// if that comes first.
pub open spec fn window_end(current: int, end: int) -> int {
    if current + 365 < end {
        current + 365
    } else {
        end
    }
}

/// The windows fetched from `current` on: one while `current` lies before
/// `end`, each starting the day after the last one ended.
pub open spec fn windows(current: int, end: int) -> Seq<Span>
    decreases end - current + 1,
{
    if current < end {
        seq![Span { start: current, end: window_end(current, end) }] + windows(
            window_end(current, end) + 1,
            end,
        )
    } else {
        Seq::empty()
    }
}

/// The window in answer `i` went unanswered: the call failed or was not made.
pub open spec fn unanswered(outcomes: Seq<Option<Vec<Candle>>>, i: int) -> bool {
    i >= outcomes.len() || outcomes[i].is_none()
}

/// Each of the first `n` windows has its answer.
pub open spec fn all_answered(outcomes: Seq<Option<Vec<Candle>>>, n: int) -> bool {
    forall|i: int| 0 <= i < n ==> !unanswered(outcomes, i)
}

/// Window `k` of the range is the first that went unanswered.
pub open spec fn fails_at(outcomes: Seq<Option<Vec<Candle>>>, start: int, end: int, k: int) -> bool {
    0 <= k < windows(start, end).len() && unanswered(outcomes, k) && all_answered(outcomes, k)
}

/// The first `n` answers joined in call order.
pub open spec fn joined(outcomes: Seq<Option<Vec<Candle>>>, n: int) -> Seq<Candle>
    decreases n,
{
    if n <= 0 {
        Seq::empty()
    } else {
        joined(outcomes, n - 1) + outcomes[n - 1].unwrap()@
    }
}

/// The provider's side of the retrieval.
#[derive(Debug, Clone, Copy, PartialEq, Eq)]
pub struct YFinanceData;

impl YFinanceData {
    pub fn new() -> (r: Self)
        ensures
            r == YFinanceData,
    {
        YFinanceData
    }

    /// The provider calls that the range from `start` to `end` takes, in call
    /// order. A range that is empty or runs backwards takes none.
    pub fn plan_windows(&self, start: i32, end: i32) -> (plan: Vec<Window>)
        ensures
            spans_of(plan@) == windows(start as int, end as int),
    {
        let mut plan: Vec<Window> = Vec::new();
        let mut current: i64 = start as i64;
        let last: i64 = end as i64;
        assert(spans_of(plan@) =~= Seq::<Span>::empty());
        while current < last
            invariant
                last == end,
                start <= current,
                spans_of(plan@) + windows(current as int, end as int) == windows(
                    start as int,
                    end as int,
                ),
            decreases last - current + 1,
        {
            let chunk_end: i64 = if last - current > MAX_WINDOW_DAYS {
                current + MAX_WINDOW_DAYS
            } else {
                last
            };
            let w = Window { start: current as i32, end: chunk_end as i32 };
            proof {
                let before = spans_of(plan@);
                let rest = windows(chunk_end + 1, end as int);
                assert(w@ == Span { start: current as int, end: chunk_end as int });
                assert(windows(current as int, end as int) == seq![w@] + rest);
                assert(spans_of(plan@.push(w)) =~= before + seq![w@]);
                assert((before + seq![w@]) + rest =~= before + (seq![w@] + rest));
            }
            plan.push(w);
            current = chunk_end + 1;
        }
        assert(spans_of(plan@) + Seq::<Span>::empty() =~= spans_of(plan@));
        plan
    }

    /// Joins the provider's answers into one history. `outcomes[i]` is the
    /// answer to the `i`-th planned window, `None` where that call failed;
    /// a window without an entry counts as failed. One failure fails the
    /// whole retrieval and names the first window that went unanswered.
    pub fn fetch_history_data(
        &self,
        ticker: &String,
        start: i32,
        end: i32,
        outcomes: &Vec<Option<Vec<Candle>>>,
    ) -> (r: Result<Vec<Candle>, YFinanceError>)
        ensures
            match r {
                Ok(all) => all_answered(outcomes@, windows(start as int, end as int).len() as int)
                    && all@ == joined(outcomes@, windows(start as int, end as int).len() as int),
                Err(YFinanceError::FetchFailed { ticker: t, window }) => t@ == ticker@
                    && exists|k: int| #[trigger]
                    fails_at(outcomes@, start as int, end as int, k) && window@ == windows(
                        start as int,
                        end as int,
                    )[k],
            },
    {
        let plan = self.plan_windows(start, end);
        let n: usize = plan.len();
        assert(spans_of(plan@).len() == plan@.len());
        let mut all: Vec<Candle> = Vec::new();
        let mut i: usize = 0;
        while i < n
            invariant
                n == plan@.len(),
                spans_of(plan@) == windows(start as int, end as int),
                i <= n,
                all_answered(outcomes@, i as int),
                all@ == joined(outcomes@, i as int),
            decreases n - i,
        {
            if i >= outcomes.len() {
                proof {
                    assert(spans_of(plan@)[i as int] == plan@[i as int]@);
                    assert(fails_at(outcomes@, start as int, end as int, i as int));
                }
                return Err(YFinanceError::FetchFailed { ticker: ticker.clone(), window: plan[i] });
            }
            match &outcomes[i] {
                None => {
                    proof {
                        assert(spans_of(plan@)[i as int] == plan@[i as int]@);
                        assert(fails_at(outcomes@, start as int, end as int, i as int));
                    }
                    return Err(
                        YFinanceError::FetchFailed { ticker: ticker.clone(), window: plan[i] },
                    );
                },
                Some(chunk) => {
                    let m: usize = chunk.len();
                    let mut j: usize = 0;
                    let ghost before = all@;
                    while j < m
                        invariant
                            m == chunk@.len(),
                            j <= m,
                            all@ == before + chunk@.subrange(0, j as int),
                        decreases m - j,
                    {
                        all.push(chunk[j]);
                        j = j + 1;
                        assert(before + chunk@.subrange(0, j as int) =~= (before + chunk@.subrange(
                            0,
                            j - 1,
                        )).push(chunk@[j - 1]));
                    }
                    assert(chunk@.subrange(0, m as int) =~= chunk@);
                },
            }
            i = i + 1;
        }
        Ok(all)
    }
}

} // verus!
