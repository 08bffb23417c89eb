//! Streaming delivery: the frames of one retrieval, their order and pacing.

use crate::app::app_box::AppBox;
use crate::creator::tk_creator::TickerParams;
use crate::data::ticker_data::{fetch_answer, TickerData};
use crate::data::yfinance_data::Candle;
use crate::dates::date_of_text;
use crate::errors::tk_errors::FetchError;
use crate::errors::ws_errors::send_error_to_socket;
use crate::json::json_object_text;
use crate::requests::tk_request::TickerRequest;
use vstd::prelude::*;

verus! {

/// The milliseconds to wait after a bar has been sent.
pub const PACING_MS: u64 = 100;

/// A frame to send: a price bar, or the text of an error frame.
#[derive(Debug, Clone, PartialEq)]
pub enum Outbound {
    Bar(TickerParams),
    Error(String),
}

/// A frame as plain values.
pub enum FrameText {
    Bar(TickerParams),
    Error(Seq<char>),
}

impl View for Outbound {
    type V = FrameText;

    open spec fn view(&self) -> FrameText {
        match self {
            Outbound::Bar(b) => FrameText::Bar(*b),
            Outbound::Error(t) => FrameText::Error(t@),
        }
    }
}

/// The frames of a sequence as plain values.
pub open spec fn frame_texts(frames: Seq<Outbound>) -> Seq<FrameText> {
    frames.map_values(|f: Outbound| f@)
}

/// One frame per bar, in the order of the bars.
pub open spec fn bar_frames(bars: Seq<TickerParams>) -> Seq<FrameText> {
    bars.map_values(|b: TickerParams| FrameText::Bar(b))
}

/// The frames of one delivery: a retrieval that succeeded gives one frame
/// per bar, in the order of the bars, and no error frame; one that failed
/// gives a single error frame and no bar.
pub open spec fn frames_of(fetched: Result<Vec<TickerParams>, FetchError>) -> Seq<FrameText> {
    match fetched {
        Ok(bars) => bar_frames(bars@),
        Err(_) => seq![
            FrameText::Error(json_object_text(seq![("error"@, "Fetching ticker data failed"@)])),
        ],
    }
}

/// The wait after a frame: the pacing delay after a bar, none after an error
/// frame.
pub open spec fn pause_of(frame: FrameText) -> u64 {
    match frame {
        FrameText::Bar(_) => 100,
        FrameText::Error(_) => 0,
    }
}

/// The frame to send after frame `sent`: the one behind it where `sent` was
/// delivered and was not the last; none where the client is gone.
pub open spec fn frame_after(len: int, sent: int, delivered: bool) -> Option<usize> {
    if delivered && 0 <= sent && sent + 1 < len {
        Some((sent + 1) as usize)
    } else {
        None
    }
}

impl Outbound {
    /// The milliseconds to wait once this frame has been sent.
    pub fn pause_ms(&self) -> (r: u64)
        ensures
            r == pause_of(self@),
    {
        match self {
            Outbound::Bar(_) => PACING_MS,
            Outbound::Error(_) => 0,
        }
    }
}

/// The frames that deliver the outcome of a retrieval.
pub fn delivery_frames(fetched: Result<Vec<TickerParams>, FetchError>) -> (frames: Vec<Outbound>)
    ensures
        frame_texts(frames@) == frames_of(fetched),
{
    match fetched {
        Ok(bars) => {
            let n: usize = bars.len();
            let mut frames: Vec<Outbound> = Vec::new();
            let mut i: usize = 0;
            while i < n
                invariant
                    n == bars@.len(),
                    i <= n,
                    frame_texts(frames@) == bar_frames(bars@.subrange(0, i as int)),
                decreases n - i,
            {
                let ghost sent = frame_texts(frames@);
                frames.push(Outbound::Bar(bars[i]));
                i = i + 1;
                assert(frame_texts(frames@) =~= sent.push(FrameText::Bar(bars@[i - 1])));
                assert(bar_frames(bars@.subrange(0, i as int)) =~= bar_frames(
                    bars@.subrange(0, i - 1),
                ).push(FrameText::Bar(bars@[i - 1])));
            }
            assert(bars@.subrange(0, n as int) =~= bars@);
            frames
        },
        Err(_) => {
            let mut frames: Vec<Outbound> = Vec::new();
            frames.push(Outbound::Error(send_error_to_socket("Fetching ticker data failed")));
            assert(frame_texts(frames@) =~= frames_of(fetched));
            frames
        },
    }
}

/// The frames to stream for a request, given the provider's answers to its
/// windows: the frames of the retrieval's outcome.
pub fn send_data_to_socket(
    app: &AppBox,
    tk_request: &TickerRequest,
    outcomes: &Vec<Option<Vec<Candle>>>,
) -> (frames: Vec<Outbound>)
    ensures
        exists|fetched: Result<Vec<TickerParams>, FetchError>|
            fetch_answer(
                fetched,
                tk_request@.ticker,
                date_of_text(tk_request@.start),
                date_of_text(tk_request@.end),
                outcomes@,
            ) && frame_texts(frames@) == #[trigger] frames_of(fetched),
{
    let ticker = TickerData::new();
    let fetched = ticker.fetch_data(tk_request, app, outcomes);
    delivery_frames(fetched)
}

/// The first frame to send, if there is any.
pub fn first_frame(frames: &Vec<Outbound>) -> (r: Option<usize>)
    ensures
        r == if frames@.len() > 0 {
            Some(0usize)
        } else {
            None
        },
{
    if frames.len() > 0 {
        Some(0)
    } else {
        None
    }
}

/// The frame to send once frame `sent` has gone out or failed to: a send
/// that failed ends the delivery, with no further frame.
pub fn next_frame(frames: &Vec<Outbound>, sent: usize, delivered: bool) -> (r: Option<usize>)
    ensures
        r == frame_after(frames@.len() as int, sent as int, delivered),
{
    if delivered && sent < frames.len() && sent + 1 < frames.len() {
        Some(sent + 1)
    } else {
        None
    }
}

} // verus!
