//! The handshake: a query is normalised, and accepted or refused.

use crate::errors::api_error::{
    invalid_date_text,
    invalid_query_text,
    invalid_ticker_text,
    ApiError,
    ApiErrorText,
};
use crate::requests::tk_request::{Defaults, RequestText, TickerRequest};
use crate::requests::tk_request_checker::{
    end_answer,
    get_default_or_end,
    get_default_or_start,
    get_default_or_ticker,
    normalized,
    start_answer,
    ticker_answer,
};
use vstd::prelude::*;

verus! {

/// What the handshake answers. `query` is the request read from the query
/// string, or the reason why none could be read. The request is normalised;
/// the first refusal in the order ticker, start, end is the answer.
pub open spec fn upgrade_answer(
    query: Result<TickerRequest, String>,
    defaults: RequestText,
) -> Result<RequestText, ApiErrorText> {
    match query {
        Err(rejection) => Err(
            invalid_query_text("Invalid query parameters format"@, Some(rejection@)),
        ),
        Ok(q) => match ticker_answer(q@, defaults) {
            Err(e) => Err(invalid_ticker_text(e.message)),
            Ok(ticker) => match start_answer(q@, defaults) {
                Err(e) => Err(invalid_date_text(e.message, e.field)),
                Ok(start) => match end_answer(q@, defaults) {
                    Err(e) => Err(invalid_date_text(e.message, e.field)),
                    Ok(end) => Ok(RequestText { ticker, start, end }),
                },
            },
        },
    }
}

/// The view of a handshake's answer.
pub open spec fn upgrade_view(r: Result<TickerRequest, ApiError>) -> Result<
    RequestText,
    ApiErrorText,
> {
    match r {
        Ok(q) => Ok(q@),
        Err(e) => Err(e@),
    }
}

/// Decides a handshake: the normalised request with which the session
/// starts, or the refusal to answer with, status 400.
pub fn upgrade_socket_data(tk_query: Result<TickerRequest, String>, defaults: &Defaults) -> (r:
    Result<TickerRequest, ApiError>)
    ensures
        upgrade_view(r) == upgrade_answer(tk_query, defaults@),
{
    match tk_query {
        Err(rejection) => Err(
            ApiError::invalid_query(
                "Invalid query parameters format".to_owned(),
                Some(rejection),
            ),
        ),
        Ok(query) => {
            let ticker = match get_default_or_ticker(&query, defaults) {
                Ok(t) => t,
                Err(e) => { return Err(ApiError::invalid_ticker(e.message)); },
            };
            let start = match get_default_or_start(&query, defaults) {
                Ok(s) => s,
                Err(e) => { return Err(ApiError::invalid_date(e.message, e.field)); },
            };
            let end = match get_default_or_end(&query, defaults) {
                Ok(s) => s,
                Err(e) => { return Err(ApiError::invalid_date(e.message, e.field)); },
            };
            Ok(TickerRequest { ticker, start, end })
        },
    }
}

/// A query that could be read is accepted exactly where its request
/// normalises, and then with the normalised request; a refusal carries the
/// normaliser's sentence and, for a date, its field.
pub proof fn lemma_upgrade_follows_normalizer(q: TickerRequest, defaults: RequestText)
    ensures
        upgrade_answer(Ok(q), defaults).is_ok() <==> normalized(q@, defaults).is_ok(),
        normalized(q@, defaults) matches Ok(n) ==> upgrade_answer(Ok(q), defaults) == Ok::<
            RequestText,
            ApiErrorText,
        >(n),
        normalized(q@, defaults) matches Err(e) ==> (upgrade_answer(Ok(q), defaults) matches Err(a)
            && a.message == e.message && a.status == 400 && a.field == Some(e.field)),
        upgrade_answer(Ok(q), defaults) matches Err(e) ==> (e.error_type == "InvalidTicker"@
            <==> ticker_answer(q@, defaults).is_err()),
{
    assert("InvalidTicker"@ != "InvalidDate"@) by {
        reveal_strlit("InvalidTicker");
        reveal_strlit("InvalidDate");
        assert("InvalidTicker"@.len() != "InvalidDate"@.len());
    }
}

} // verus!
