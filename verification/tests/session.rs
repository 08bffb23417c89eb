use rust_decimal::Decimal;
use tradebox::app::app_box::build_app;
use tradebox::configs::yaml_config::{CorsConfig, YamlConfig};
use tradebox::creator::tk_creator::TickerParams;
use tradebox::data::yfinance_data::Candle;
use tradebox::errors::api_error::ApiError;
use tradebox::errors::tk_errors::FetchError;
use tradebox::errors::ws_errors::send_error_to_socket;
use tradebox::requests::tk_request::{Defaults, TickerRequest};
use tradebox::websocket::ws_handler::{handle_socket_data, SessionEvent, SessionState, HEARTBEAT_SECS};
use tradebox::websocket::ws_msg_handler::{handle_socket_message, SessionAction, SocketMessage};
use tradebox::websocket::ws_sender::{
    delivery_frames, first_frame, next_frame, send_data_to_socket, Outbound, PACING_MS,
};
use tradebox::websocket::ws_upgrade::upgrade_socket_data;

fn defaults() -> Defaults {
    Defaults {
        ticker: "XAUUSD".to_string(),
        start: "2025-01-01".to_string(),
        end: "2025-02-01".to_string(),
    }
}

fn request(ticker: &str, start: &str, end: &str) -> TickerRequest {
    TickerRequest { ticker: ticker.to_string(), start: start.to_string(), end: end.to_string() }
}

fn day(y: i32, m: u32, d: u32) -> i32 {
    chrono::Datelike::num_days_from_ce(&chrono::NaiveDate::from_ymd_opt(y, m, d).unwrap())
}

fn candle(day: i32, price: i64) -> Candle {
    Candle {
        day,
        open: Decimal::new(price, 2),
        high: Decimal::new(price + 50, 2),
        low: Decimal::new(price - 50, 2),
        close: Decimal::new(price + 10, 2),
    }
}

fn bar(day: i32, price: i64) -> TickerParams {
    TickerParams {
        time: day,
        open: Decimal::new(price, 2),
        high: Decimal::new(price + 50, 2),
        low: Decimal::new(price - 50, 2),
        close: Decimal::new(price + 10, 2),
    }
}

fn body_member(body: &str, name: &str) -> Option<String> {
    let value: serde_json::Value = serde_json::from_str(body).expect("Valid JSON expected");
    value.get(name).and_then(|v| v.as_str()).map(|s| s.to_string())
}

#[test]
fn test_websocket_upgrade_success() {
    let d = Defaults::none();
    let app = build_app();
    let query = request("BTC-USD", "2023-01-01", "2023-01-10");
    let (state, action) =
        handle_socket_data(SessionState::Connecting, SessionEvent::Handshake(Ok(query.clone())), &d);
    assert_eq!(state, SessionState::UpgradeAccepted);
    assert_eq!(action, SessionAction::Upgrade(query.clone()));

    let (state, action) = handle_socket_data(state, SessionEvent::Opened(query.clone()), &d);
    assert_eq!(state, SessionState::Active);
    assert_eq!(action, SessionAction::Deliver(query.clone()));

    let s: i32 = day(2023, 1, 1);
    let outcomes = vec![Some(vec![candle(s, 1650000), candle(s + 1, 1660000), candle(s + 8, 1720000)])];
    let frames = send_data_to_socket(&app, &query, &outcomes);
    assert_eq!(
        frames,
        vec![
            Outbound::Bar(bar(s, 1650000)),
            Outbound::Bar(bar(s + 1, 1660000)),
            Outbound::Bar(bar(s + 8, 1720000)),
        ]
    );
    for f in frames.iter() {
        assert!(matches!(f, Outbound::Bar(_)));
        assert_eq!(f.pause_ms(), 100);
    }
    assert_eq!(first_frame(&frames), Some(0));
    assert_eq!(next_frame(&frames, 0, true), Some(1));
    assert_eq!(next_frame(&frames, 1, true), Some(2));
    assert_eq!(next_frame(&frames, 2, true), None);
}

#[test]
fn test_websocket_invalid_ticker() {
    let invalid_tickers = vec!["INVALID$", "1NV@LID", "TOO_LONG_TICKER_123"];

    for ticker in invalid_tickers {
        let result = upgrade_socket_data(Ok(request(ticker, "2025-01-01", "2025-01-10")), &Defaults::none());
        assert!(result.is_err(), "Server should reject invalid ticker: {}", ticker);
        let (state, action) = handle_socket_data(
            SessionState::Connecting,
            SessionEvent::Handshake(Ok(request(ticker, "2025-01-01", "2025-01-10"))),
            &Defaults::none(),
        );
        assert_eq!(state, SessionState::Closed);
        assert!(matches!(action, SessionAction::Reject(_)));
    }
}

#[test]
fn test_http_invalid_query_params() {
    let test_cases = vec![
        (request("INVALID$", "2023-01-01", "2023-01-10"), "InvalidTicker"),
        (request("123", "2023-01-01", "2023-01-10"), "InvalidTicker"),
        (request("BTC-USD", "not-a-date", "2023-01-10"), "InvalidDate"),
        (request("BTC-USD", "2023-01-01", "not-a-date"), "InvalidDate"),
        (TickerRequest::default(), "InvalidTicker"),
    ];

    for (query, expected_error) in test_cases {
        let response = upgrade_socket_data(Ok(query.clone()), &Defaults::none()).unwrap_err();
        assert_eq!(response.status, 400);

        let body = response.json_body();
        println!("Response: {}", body);

        assert_eq!(
            body_member(&body, "error").unwrap(),
            expected_error,
            "For query '{:?}': expected '{}'",
            query,
            expected_error
        );
    }
}

#[test]
fn handshake_with_invalid_ticker_is_refused_with_its_field() {
    let e = upgrade_socket_data(Ok(request("INVALID$", "2025-01-01", "2025-01-10")), &defaults()).unwrap_err();
    assert_eq!(e, ApiError::invalid_ticker("Invalid ticker format".to_string()));
    assert_eq!(e.status, 400);
    assert_eq!(e.error_type, "InvalidTicker");
    assert_eq!(e.field, Some("ticker".to_string()));
    assert_eq!(e.details, None);
    let body = e.json_body();
    assert_eq!(body_member(&body, "error").unwrap(), "InvalidTicker");
    assert_eq!(body_member(&body, "field").unwrap(), "ticker");
    assert_eq!(body_member(&body, "message").unwrap(), "Invalid ticker format");
    assert_eq!(body_member(&body, "details"), None);
}

#[test]
fn handshake_with_invalid_end_is_refused_with_its_field() {
    let e = upgrade_socket_data(Ok(request("BTC-USD", "2023-01-01", "not-a-date")), &defaults()).unwrap_err();
    assert_eq!(e.status, 400);
    assert_eq!(e.error_type, "InvalidDate");
    assert_eq!(e.field, Some("end".to_string()));
    assert_eq!(e.message, "Invalid end date format, expected %Y-%m-%d: not-a-date");
    let e = upgrade_socket_data(Ok(request("BTC-USD", "nope", "not-a-date")), &defaults()).unwrap_err();
    assert_eq!(e.error_type, "InvalidDate");
    assert_eq!(e.field, Some("start".to_string()));
}

#[test]
fn handshake_with_unreadable_query_is_refused_with_details() {
    let e = upgrade_socket_data(Err("bad encoding".to_string()), &defaults()).unwrap_err();
    assert_eq!(
        e,
        ApiError::invalid_query("Invalid query parameters format".to_string(), Some("bad encoding".to_string()))
    );
    assert_eq!(e.error_type, "InvalidQuery");
    assert_eq!(e.field, None);
    let body = e.json_body();
    assert_eq!(body_member(&body, "error").unwrap(), "InvalidQuery");
    assert_eq!(body_member(&body, "details").unwrap(), "bad encoding");
    assert_eq!(body_member(&body, "field"), None);
}

#[test]
fn handshake_resolves_blanks_to_defaults() {
    let q = upgrade_socket_data(Ok(TickerRequest::default()), &defaults());
    assert_eq!(q, Ok(request("XAUUSD", "2025-01-01", "2025-02-01")));
}

#[test]
fn api_error_constructors() {
    let e = ApiError::invalid_date("m".to_string(), "start".to_string());
    assert_eq!(e.status, 400);
    assert_eq!(e.error_type, "InvalidDate");
    assert_eq!(e.message, "m");
    assert_eq!(e.field, Some("start".to_string()));
    assert_eq!(e.details, None);
    let e = ApiError::invalid_query("m".to_string(), None);
    assert_eq!(e.details, None);
    assert_eq!(body_member(&e.json_body(), "message").unwrap(), "m");
}

#[test]
fn idle_session_is_pinged() {
    let (state, action) = handle_socket_data(SessionState::Active, SessionEvent::Tick, &defaults());
    assert_eq!(state, SessionState::Active);
    assert_eq!(action, SessionAction::SendPing);
    assert_eq!(HEARTBEAT_SECS, 30);
}

#[test]
fn malformed_json_gets_an_error_frame_and_the_session_stays_open() {
    let d = defaults();
    let (state, action) =
        handle_socket_data(SessionState::Active, SessionEvent::Received(SocketMessage::Text(None)), &d);
    assert_eq!(state, SessionState::Active);
    assert_eq!(action, SessionAction::SendError("{\"error\":\"Invalid JSON\"}".to_string()));

    let next = request("BTC-USD", "2023-01-01", "2023-01-10");
    let (state, action) = handle_socket_data(
        state,
        SessionEvent::Received(SocketMessage::Text(Some(next.clone()))),
        &d,
    );
    assert_eq!(state, SessionState::Active);
    assert_eq!(action, SessionAction::Deliver(next));
}

#[test]
fn invalid_request_in_session_is_replaced_by_the_stand_in() {
    let d = defaults();
    let action = handle_socket_message(SocketMessage::Text(Some(request("bad$", "x", "y"))), &d);
    assert_eq!(action, SessionAction::Deliver(request("XAUUSD", "2025-01-01", "2025-02-01")));
    let action = handle_socket_message(SocketMessage::Text(Some(request("bad$", "x", "y"))), &Defaults::none());
    assert_eq!(action, SessionAction::Deliver(request("XAUUSD", "2025-01-01", "2025-02-01")));
}

#[test]
fn blank_request_in_session_streams_the_defaults() {
    let action = handle_socket_message(SocketMessage::Text(Some(TickerRequest::default())), &defaults());
    assert_eq!(action, SessionAction::Deliver(request("XAUUSD", "2025-01-01", "2025-02-01")));
}

#[test]
fn ping_is_answered_with_its_payload() {
    let (state, action) = handle_socket_data(
        SessionState::Active,
        SessionEvent::Received(SocketMessage::Ping(vec![1, 2, 3])),
        &defaults(),
    );
    assert_eq!(state, SessionState::Active);
    assert_eq!(action, SessionAction::SendPong(vec![1, 2, 3]));
}

#[test]
fn pong_and_other_frames_are_passed_over() {
    let d = defaults();
    assert_eq!(handle_socket_message(SocketMessage::Pong, &d), SessionAction::Nothing);
    assert_eq!(handle_socket_message(SocketMessage::Other, &d), SessionAction::Nothing);
    let (state, _) = handle_socket_data(SessionState::Active, SessionEvent::Received(SocketMessage::Pong), &d);
    assert_eq!(state, SessionState::Active);
}

#[test]
fn close_frame_closes_the_session() {
    let d = defaults();
    let (state, action) =
        handle_socket_data(SessionState::Active, SessionEvent::Received(SocketMessage::Close), &d);
    assert_eq!(state, SessionState::Closed);
    assert_eq!(action, SessionAction::Close);
}

#[test]
fn transport_error_closes_the_session() {
    let d = defaults();
    for state in vec![SessionState::Connecting, SessionState::UpgradeAccepted, SessionState::Active] {
        let (next, action) = handle_socket_data(state, SessionEvent::TransportError, &d);
        assert_eq!(next, SessionState::Closed);
        assert_eq!(action, SessionAction::Close);
    }
}

#[test]
fn closed_session_does_nothing() {
    let d = defaults();
    let events = vec![
        SessionEvent::Tick,
        SessionEvent::TransportError,
        SessionEvent::Received(SocketMessage::Ping(vec![9])),
        SessionEvent::Opened(request("BTC-USD", "2023-01-01", "2023-01-10")),
        SessionEvent::Handshake(Ok(request("BTC-USD", "2023-01-01", "2023-01-10"))),
    ];
    for event in events {
        let (state, action) = handle_socket_data(SessionState::Closed, event, &d);
        assert_eq!(state, SessionState::Closed);
        assert_eq!(action, SessionAction::Nothing);
    }
}

#[test]
fn events_out_of_place_change_nothing() {
    let d = defaults();
    let (state, action) = handle_socket_data(SessionState::Connecting, SessionEvent::Tick, &d);
    assert_eq!((state, action), (SessionState::Connecting, SessionAction::Nothing));
    let (state, action) = handle_socket_data(SessionState::UpgradeAccepted, SessionEvent::Tick, &d);
    assert_eq!((state, action), (SessionState::UpgradeAccepted, SessionAction::Nothing));
}

#[test]
fn failed_retrieval_gives_one_error_frame_and_no_bar() {
    let frames = delivery_frames(Err(FetchError::InvalidStartDate));
    assert_eq!(
        frames,
        vec![Outbound::Error("{\"error\":\"Fetching ticker data failed\"}".to_string())]
    );
    assert_eq!(frames[0].pause_ms(), 0);
    let app = build_app();
    let frames = send_data_to_socket(&app, &request("BTC-USD", "2023-01-01", "2024-06-01"), &vec![None]);
    assert_eq!(
        frames,
        vec![Outbound::Error("{\"error\":\"Fetching ticker data failed\"}".to_string())]
    );
    let frames = send_data_to_socket(&app, &request("BTC-USD", "2023-01-10", "2023-01-01"), &vec![]);
    assert_eq!(frames.len(), 1);
}

#[test]
fn failed_send_ends_the_delivery() {
    let frames = delivery_frames(Ok(vec![bar(1, 100), bar(2, 200), bar(3, 300)]));
    assert_eq!(frames.len(), 3);
    assert_eq!(PACING_MS, 100);
    assert_eq!(next_frame(&frames, 0, false), None);
    assert_eq!(next_frame(&frames, 1, false), None);
    assert_eq!(next_frame(&frames, usize::MAX, true), None);
    assert_eq!(first_frame(&vec![]), None);
}

#[test]
fn error_frame_escapes_its_text() {
    assert_eq!(send_error_to_socket("a \"b\"\n"), "{\"error\":\"a \\\"b\\\"\\n\"}");
}

#[test]
fn origins_come_from_the_configuration_or_the_default() {
    let config = YamlConfig { cors: CorsConfig { origins: vec!["http://a".to_string(), "http://b".to_string()] } };
    assert_eq!(
        YamlConfig::origins_or(Some(config), "http://d".to_string()),
        vec!["http://a".to_string(), "http://b".to_string()]
    );
    assert_eq!(YamlConfig::origins_or(None, "http://d".to_string()), vec!["http://d".to_string()]);
}
