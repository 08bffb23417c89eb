use tradebox::errors::rq_errors::{DateFormatError, TickerError};
use tradebox::requests::tk_request::{Defaults, TickerRequest};
use tradebox::requests::tk_request_checker::{
    get_default_or_end, get_default_or_start, get_default_or_ticker, init_ticker_request,
};
use tradebox::requests::tk_request_validator::{
    check_parsed_date, date_fmt_outcome, ensure_date_fmt, validate_date, validate_ticker,
};

fn defaults() -> Defaults {
    Defaults {
        ticker: "XAUUSD".to_string(),
        start: "2025-01-01".to_string(),
        end: "2025-02-01".to_string(),
    }
}

fn request(ticker: &str, start: &str, end: &str) -> TickerRequest {
    TickerRequest { ticker: ticker.to_string(), start: start.to_string(), end: end.to_string() }
}

#[test]
fn validates_date_format_env() {
    let configured = defaults();
    let def_ticker = configured.ticker.clone();
    let def_start = configured.start.clone();

    let req = TickerRequest { ticker: def_ticker, start: def_start, end: "bad-date".into() };

    assert!(get_default_or_start(&req, &configured).is_ok());
    assert!(get_default_or_end(&req, &configured).is_err());
}

#[test]
fn ticker_accepts_letters_and_hyphen_up_to_ten() {
    assert_eq!(validate_ticker("A"), Ok(()));
    assert_eq!(validate_ticker("BTC-USD"), Ok(()));
    assert_eq!(validate_ticker("ABCDEFGHIJ"), Ok(()));
    assert_eq!(validate_ticker("-"), Ok(()));
}

#[test]
fn ticker_rejects_empty() {
    assert_eq!(validate_ticker(""), Err(TickerError::Empty));
}

#[test]
fn ticker_rejects_eleven_characters() {
    assert_eq!(validate_ticker("ABCDEFGHIJK"), Err(TickerError::TooLong));
    assert_eq!(validate_ticker("TOO_LONG_TICKER_123"), Err(TickerError::TooLong));
}

#[test]
fn ticker_rejects_lowercase_digits_and_symbols() {
    assert_eq!(validate_ticker("btc"), Err(TickerError::InvalidFormat));
    assert_eq!(validate_ticker("123"), Err(TickerError::InvalidFormat));
    assert_eq!(validate_ticker("INVALID$"), Err(TickerError::InvalidFormat));
    assert_eq!(validate_ticker("1NV@LID"), Err(TickerError::InvalidFormat));
    assert_eq!(validate_ticker("BTC USD"), Err(TickerError::InvalidFormat));
}

#[test]
fn ticker_length_counts_bytes() {
    assert_eq!(validate_ticker("\u{c4}\u{c4}\u{c4}\u{c4}\u{c4}\u{c4}"), Err(TickerError::TooLong));
    assert_eq!(validate_ticker("\u{c4}B"), Err(TickerError::InvalidFormat));
}

#[test]
fn ticker_error_messages() {
    assert_eq!(TickerError::Empty.message(), "Ticker cannot be empty");
    assert_eq!(TickerError::TooLong.message(), "Ticker too long");
    assert_eq!(TickerError::InvalidFormat.message(), "Invalid ticker format");
    assert_eq!(DateFormatError.message(), "Invalid date format");
}

#[test]
fn date_accepts_iso_dates_only() {
    assert_eq!(validate_date("2023-01-01"), Ok(()));
    assert_eq!(validate_date("2024-02-29"), Ok(()));
    assert_eq!(validate_date("not-a-date"), Err(DateFormatError));
    assert_eq!(validate_date(""), Err(DateFormatError));
    assert_eq!(validate_date("2023-13-01"), Err(DateFormatError));
    assert_eq!(validate_date("2023-02-30"), Err(DateFormatError));
    assert_eq!(validate_date("01/02/2023"), Err(DateFormatError));
    assert_eq!(validate_date("2023-01-01T00:00:00"), Err(DateFormatError));
}

#[test]
fn parsed_date_is_handed_on() {
    assert_eq!(check_parsed_date(Some(738521)), Ok(738521));
    assert_eq!(check_parsed_date(None), Err(DateFormatError));
}

#[test]
fn date_refusal_names_field_and_quotes_text() {
    let e = ensure_date_fmt("bad-date", "end").unwrap_err();
    assert_eq!(e.field, "end");
    assert_eq!(e.message, "Invalid end date format, expected %Y-%m-%d: bad-date");
    let e = ensure_date_fmt("2023-1x", "start").unwrap_err();
    assert_eq!(e.field, "start");
    assert_eq!(e.message, "Invalid start date format, expected %Y-%m-%d: 2023-1x");
    assert_eq!(ensure_date_fmt("2023-01-10", "end"), Ok("2023-01-10".to_string()));
}

#[test]
fn date_outcome_follows_what_was_read() {
    assert_eq!(date_fmt_outcome("anything", "start", Some(1)), Ok("anything".to_string()));
    let e = date_fmt_outcome("2023-01-01", "start", None).unwrap_err();
    assert_eq!(e.field, "start");
    assert_eq!(e.message, "Invalid start date format, expected %Y-%m-%d: 2023-01-01");
}

#[test]
fn blank_fields_resolve_to_defaults() {
    let req = request("", "   ", "\t\n");
    let d = defaults();
    assert_eq!(get_default_or_ticker(&req, &d), Ok("XAUUSD".to_string()));
    assert_eq!(get_default_or_start(&req, &d), Ok("2025-01-01".to_string()));
    assert_eq!(get_default_or_end(&req, &d), Ok("2025-02-01".to_string()));
}

#[test]
fn written_fields_are_trimmed() {
    let req = request("  BTC-USD \n", " 2023-01-01", "2023-01-10\u{3000}");
    let d = defaults();
    let n = init_ticker_request(&req, &d).unwrap();
    assert_eq!(n, request("BTC-USD", "2023-01-01", "2023-01-10"));
}

#[test]
fn inner_white_space_is_kept_and_refused() {
    let req = request("BTC USD", "2023-01-01", "2023-01-10");
    let e = get_default_or_ticker(&req, &defaults()).unwrap_err();
    assert_eq!(e.field, "ticker");
    assert_eq!(e.message, "Invalid ticker format");
}

#[test]
fn blank_ticker_without_default_is_refused_as_empty() {
    let req = request(" ", "2023-01-01", "2023-01-10");
    let e = get_default_or_ticker(&req, &Defaults::none()).unwrap_err();
    assert_eq!(e.field, "ticker");
    assert_eq!(e.message, "Ticker cannot be empty");
}

#[test]
fn first_failure_wins_in_order_ticker_start_end() {
    let d = defaults();
    let e = init_ticker_request(&request("bad$", "nope", "nope"), &d).unwrap_err();
    assert_eq!(e.field, "ticker");
    let e = init_ticker_request(&request("BTC-USD", "nope", "nope"), &d).unwrap_err();
    assert_eq!(e.field, "start");
    assert_eq!(e.message, "Invalid start date format, expected %Y-%m-%d: nope");
    let e = init_ticker_request(&request("BTC-USD", "2023-01-01", "nope"), &d).unwrap_err();
    assert_eq!(e.field, "end");
}

#[test]
fn normalisation_does_not_order_the_dates() {
    let n = init_ticker_request(&request("BTC-USD", "2023-01-10", "2023-01-01"), &defaults());
    assert_eq!(n, Ok(request("BTC-USD", "2023-01-10", "2023-01-01")));
}

#[test]
fn stand_in_request_uses_configured_defaults() {
    let d = Defaults { ticker: "ETH-USD".to_string(), start: String::new(), end: "2024-06-01".to_string() };
    assert_eq!(TickerRequest::new(&d), request("ETH-USD", "2025-01-01", "2024-06-01"));
}

#[test]
fn stand_in_request_without_defaults() {
    assert_eq!(TickerRequest::new(&Defaults::none()), request("XAUUSD", "2025-01-01", "2025-02-01"));
}

#[test]
fn default_request_is_blank() {
    assert_eq!(TickerRequest::default(), request("", "", ""));
}

#[test]
fn every_kind_of_white_space_is_trimmed() {
    let req = request("\u{85}\u{a0}BTC-USD\u{2003}\u{2028}\r\n", "\u{1680}2023-01-01\u{205f}", "\u{202f}2023-01-10\u{b}\u{c}");
    let n = init_ticker_request(&req, &defaults()).unwrap();
    assert_eq!(n, request("BTC-USD", "2023-01-01", "2023-01-10"));
}

#[test]
fn zero_width_space_is_no_white_space() {
    let req = request("\u{200b}BTC-USD", "2023-01-01", "2023-01-10");
    let e = get_default_or_ticker(&req, &defaults()).unwrap_err();
    assert_eq!(e.message, "Invalid ticker format");
    let blank = request("\u{200b}", "", "");
    let e = get_default_or_ticker(&blank, &defaults()).unwrap_err();
    assert_eq!(e.message, "Invalid ticker format");
}
