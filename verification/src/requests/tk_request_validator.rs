//! Format rules for ticker symbols and dates.

use crate::dates::{date_of_text, parse_date};
use crate::errors::rq_errors::{DateFormatError, Refusal, TickerError, ValidationError};
use vstd::prelude::*;
use vstd::string::*;
use vstd::utf8::*;

verus! {

/// The longest ticker symbol, in bytes.
pub const MAX_TICKER_LEN: usize = 10;

/// A character that a ticker symbol may hold: an upper-case letter or a hyphen.
pub open spec fn is_ticker_char(c: char) -> bool {
    ('A' <= c && c <= 'Z') || c == '-'
}

/// Every character of `s` may stand in a ticker symbol.
pub open spec fn all_ticker_chars(s: Seq<char>) -> bool {
    forall|i: int| 0 <= i < s.len() ==> is_ticker_char(#[trigger] s[i])
}

/// A well-formed ticker symbol: one to ten characters, each a letter `A`-`Z`
/// or a hyphen.
pub open spec fn ticker_well_formed(s: Seq<char>) -> bool {
    1 <= s.len() <= 10 && all_ticker_chars(s)
}

/// The outcome of the ticker check, with the first failing rule.
pub open spec fn ticker_verdict(s: Seq<char>) -> Result<(), TickerError> {
    if s.len() == 0 {
        Err(TickerError::Empty)
    } else if encode_utf8(s).len() > MAX_TICKER_LEN {
        Err(TickerError::TooLong)
    } else if !all_ticker_chars(s) {
        Err(TickerError::InvalidFormat)
    } else {
        Ok(())
    }
}

/// The ticker check passes exactly on the well-formed symbols.
pub proof fn lemma_ticker_verdict_ok(s: Seq<char>)
    ensures
        ticker_verdict(s).is_ok() <==> ticker_well_formed(s),
{
    if all_ticker_chars(s) {
        assert(is_ascii_chars(s)) by {
            assert forall|i: int| 0 <= i < s.len() implies '\0' <= #[trigger] s[i] <= '\u{7f}' by {
                assert(is_ticker_char(s[i]));
            }
        }
        is_ascii_chars_encode_utf8(s);
    }
}

fn ticker_char(c: char) -> (r: bool)
    ensures
        r == is_ticker_char(c),
{
    ('A' <= c && c <= 'Z') || c == '-'
}

/// Checks a ticker symbol: not empty, at most ten bytes, only `A`-`Z` and `-`.
pub fn validate_ticker(ticker: &str) -> (r: Result<(), TickerError>)
    ensures
        r == ticker_verdict(ticker@),
        r.is_ok() <==> ticker_well_formed(ticker@),
{
    proof {
        lemma_ticker_verdict_ok(ticker@);
    }
    if ticker.is_empty() {
        return Err(TickerError::Empty);
    }
    if ticker.as_bytes().len() > MAX_TICKER_LEN {
        return Err(TickerError::TooLong);
    }
    let n: usize = ticker.unicode_len();
    let mut i: usize = 0;
    while i < n
        invariant
            n == ticker@.len(),
            n > 0,
            encode_utf8(ticker@).len() <= MAX_TICKER_LEN,
            i <= n,
            forall|j: int| 0 <= j < i ==> is_ticker_char(#[trigger] ticker@[j]),
        decreases n - i,
    {
        if !ticker_char(ticker.get_char(i)) {
            return Err(TickerError::InvalidFormat);
        }
        i = i + 1;
    }
    Ok(())
}

/// What the date check answers once the text has been read: the day number,
/// or the refusal where no date was read.
pub fn check_parsed_date(parsed: Option<i32>) -> (r: Result<i32, DateFormatError>)
    ensures
        r == match parsed {
            Some(day) => Ok::<i32, DateFormatError>(day),
            None => Err::<i32, DateFormatError>(DateFormatError),
        },
{
    match parsed {
        Some(day) => Ok(day),
        None => Err(DateFormatError),
    }
}

/// Checks that `date` reads as a calendar date written `YYYY-MM-DD`.
pub fn validate_date(date: &str) -> (r: Result<(), DateFormatError>)
    ensures
        r.is_ok() <==> date_of_text(date@).is_some(),
{
    match check_parsed_date(parse_date(date)) {
        Ok(_) => Ok(()),
        Err(e) => Err(e),
    }
}

/// The sentence that refuses the text `df` as the date of `field`.
pub open spec fn date_fmt_message(df: Seq<char>, field: Seq<char>) -> Seq<char> {
    "Invalid "@ + field + " date format, expected %Y-%m-%d: "@ + df
}

/// What the date check of a named field answers for the text `df`, given
/// what was read from it.
pub open spec fn date_fmt_verdict(df: Seq<char>, field: Seq<char>, parsed: Option<i32>) -> Result<
    Seq<char>,
    Refusal,
> {
    match parsed {
        Some(_) => Ok(df),
        None => Err(Refusal { field, message: date_fmt_message(df, field) }),
    }
}

/// The view of a check's answer: the accepted text, or the refusal.
pub open spec fn answer_view(r: Result<String, ValidationError>) -> Result<Seq<char>, Refusal> {
    match r {
        Ok(s) => Ok(s@),
        Err(e) => Err(e@),
    }
}

/// Accepts `df` where a date was read from it; else refuses it, tagged with
/// `field`.
pub fn date_fmt_outcome(df: &str, field: &str, parsed: Option<i32>) -> (r: Result<
    String,
    ValidationError,
>)
    ensures
        answer_view(r) == date_fmt_verdict(df@, field@, parsed),
{
    match parsed {
        Some(_) => Ok(df.to_owned()),
        None => {
            let mut message = "Invalid ".to_owned();
            message.append(field);
            message.append(" date format, expected %Y-%m-%d: ");
            message.append(df);
            Err(ValidationError { field: field.to_owned(), message })
        },
    }
}

/// Accepts `df` exactly where it reads as a date written `YYYY-MM-DD`; a
/// refusal names `field` and quotes `df`.
pub fn ensure_date_fmt(df: &str, field: &str) -> (r: Result<String, ValidationError>)
    ensures
        answer_view(r) == date_fmt_verdict(df@, field@, date_of_text(df@)),
{
    date_fmt_outcome(df, field, parse_date(df))
}

} // verus!
