//! Normalisation: blanks resolve to the configured defaults, and what results
//! is checked field by field.

use crate::dates::date_of_text;
use crate::errors::rq_errors::{Refusal, ValidationError};
use crate::requests::tk_request::{Defaults, RequestText, TickerRequest};
use crate::requests::tk_request_validator::{
    answer_view,
    date_fmt_verdict,
    ensure_date_fmt,
    lemma_ticker_verdict_ok,
    ticker_verdict,
    ticker_well_formed,
    validate_ticker,
};
use vstd::prelude::*;

verus! {

/// A character with the Unicode property `White_Space`.
pub open spec fn is_white_space(c: char) -> bool {
    let n = c as u32;
    (0x09 <= n <= 0x0D) || n == 0x20 || n == 0x85 || n == 0xA0 || n == 0x1680 || (0x2000 <= n
        <= 0x200A) || n == 0x2028 || n == 0x2029 || n == 0x202F || n == 0x205F || n == 0x3000
}

/// `s` without its leading white space.
pub open spec fn trim_start(s: Seq<char>) -> Seq<char>
    decreases s.len(),
{
    if s.len() > 0 && is_white_space(s[0]) {
        trim_start(s.drop_first())
    } else {
        s
    }
}

/// `s` without its trailing white space.
pub open spec fn trim_end(s: Seq<char>) -> Seq<char>
    decreases s.len(),
{
    if s.len() > 0 && is_white_space(s.last()) {
        trim_end(s.drop_last())
    } else {
        s
    }
}

/// `s` without leading and trailing white space.
pub open spec fn trimmed(s: Seq<char>) -> Seq<char> {
    trim_end(trim_start(s))
}

/// Calls `str::trim`, which removes leading and trailing characters of the
/// Unicode property `White_Space`, and copies what is left.
#[verifier::external_body]
fn trim(s: &str) -> (r: String)
    ensures
        r@ == trimmed(s@),
{
    s.trim().to_string()
}

/// The value a field resolves to: what the client wrote, trimmed, or the
/// default where that is blank.
pub open spec fn resolved(written: Seq<char>, default: Seq<char>) -> Seq<char> {
    if trimmed(written).len() == 0 {
        default
    } else {
        trimmed(written)
    }
}

fn resolve(written: &String, default: &String) -> (r: String)
    ensures
        r@ == resolved(written@, default@),
{
    let t = trim(written.as_str());
    if t.as_str().is_empty() {
        default.clone()
    } else {
        t
    }
}

/// What normalisation answers for the ticker.
pub open spec fn ticker_answer(req: RequestText, defaults: RequestText) -> Result<
    Seq<char>,
    Refusal,
> {
    let t = resolved(req.ticker, defaults.ticker);
    match ticker_verdict(t) {
        Ok(_) => Ok(t),
        Err(e) => Err(Refusal { field: "ticker"@, message: e.message_spec() }),
    }
}

/// What normalisation answers for the start date.
pub open spec fn start_answer(req: RequestText, defaults: RequestText) -> Result<
    Seq<char>,
    Refusal,
> {
    let t = resolved(req.start, defaults.start);
    date_fmt_verdict(t, "start"@, date_of_text(t))
}

/// What normalisation answers for the end date.
pub open spec fn end_answer(req: RequestText, defaults: RequestText) -> Result<Seq<char>, Refusal> {
    let t = resolved(req.end, defaults.end);
    date_fmt_verdict(t, "end"@, date_of_text(t))
}

/// The ticker of the request, or the default where it is blank, checked as a
/// ticker symbol.
pub fn get_default_or_ticker(t_request: &TickerRequest, defaults: &Defaults) -> (r: Result<
    String,
    ValidationError,
>)
    ensures
        answer_view(r) == ticker_answer(t_request@, defaults@),
{
    let val = resolve(&t_request.ticker, &defaults.ticker);
    match validate_ticker(val.as_str()) {
        Ok(_) => Ok(val),
        Err(e) => Err(ValidationError { field: "ticker".to_owned(), message: e.message() }),
    }
}

/// The start date of the request, or the default where it is blank, checked
/// as a date.
pub fn get_default_or_start(t_request: &TickerRequest, defaults: &Defaults) -> (r: Result<
    String,
    ValidationError,
>)
    ensures
        answer_view(r) == start_answer(t_request@, defaults@),
{
    let val = resolve(&t_request.start, &defaults.start);
    ensure_date_fmt(val.as_str(), "start")
}

/// The end date of the request, or the default where it is blank, checked as
/// a date.
pub fn get_default_or_end(t_request: &TickerRequest, defaults: &Defaults) -> (r: Result<
    String,
    ValidationError,
>)
    ensures
        answer_view(r) == end_answer(t_request@, defaults@),
{
    let val = resolve(&t_request.end, &defaults.end);
    ensure_date_fmt(val.as_str(), "end")
}

/// A date field is accepted exactly where its resolved text reads as a date,
/// and then unchanged; a refusal names the field, `start` or `end`, and no
/// other.
pub proof fn lemma_date_refusals_name_their_field(req: RequestText, defaults: RequestText)
    ensures
        start_answer(req, defaults).is_ok() <==> date_of_text(
            resolved(req.start, defaults.start),
        ).is_some(),
        end_answer(req, defaults).is_ok() <==> date_of_text(
            resolved(req.end, defaults.end),
        ).is_some(),
        start_answer(req, defaults) matches Ok(t) ==> t == resolved(req.start, defaults.start),
        end_answer(req, defaults) matches Ok(t) ==> t == resolved(req.end, defaults.end),
        start_answer(req, defaults) matches Err(e) ==> e.field == "start"@,
        end_answer(req, defaults) matches Err(e) ==> e.field == "end"@,
{
}

/// A ticker is accepted exactly where its resolved text is a well-formed
/// symbol; a refusal names the field `ticker`.
pub proof fn lemma_ticker_refusals_name_their_field(req: RequestText, defaults: RequestText)
    ensures
        ticker_answer(req, defaults).is_ok() <==> ticker_well_formed(
            resolved(req.ticker, defaults.ticker),
        ),
        ticker_answer(req, defaults) matches Err(e) ==> e.field == "ticker"@,
{
    lemma_ticker_verdict_ok(resolved(req.ticker, defaults.ticker));
}

/// The normalised request, or the first refusal in the order ticker, start,
/// end.
pub open spec fn normalized(req: RequestText, defaults: RequestText) -> Result<
    RequestText,
    Refusal,
> {
    match ticker_answer(req, defaults) {
        Err(e) => Err(e),
        Ok(ticker) => match start_answer(req, defaults) {
            Err(e) => Err(e),
            Ok(start) => match end_answer(req, defaults) {
                Err(e) => Err(e),
                Ok(end) => Ok(RequestText { ticker, start, end }),
            },
        },
    }
}

/// The view of a normalisation's answer.
pub open spec fn request_answer_view(r: Result<TickerRequest, ValidationError>) -> Result<
    RequestText,
    Refusal,
> {
    match r {
        Ok(q) => Ok(q@),
        Err(e) => Err(e@),
    }
}

/// Normalises a request: resolves each blank field to its default and checks
/// ticker, start and end in that order, stopping at the first refusal.
pub fn init_ticker_request(ticker_req: &TickerRequest, defaults: &Defaults) -> (r: Result<
    TickerRequest,
    ValidationError,
>)
    ensures
        request_answer_view(r) == normalized(ticker_req@, defaults@),
{
    let ticker = match get_default_or_ticker(ticker_req, defaults) {
        Ok(t) => t,
        Err(e) => { return Err(e); },
    };
    let start = match get_default_or_start(ticker_req, defaults) {
        Ok(s) => s,
        Err(e) => { return Err(e); },
    };
    let end = match get_default_or_end(ticker_req, defaults) {
        Ok(s) => s,
        Err(e) => { return Err(e); },
    };
    Ok(TickerRequest { ticker, start, end })
}

} // verus!
