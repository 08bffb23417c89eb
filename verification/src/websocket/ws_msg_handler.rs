//! What the session does with one inbound message.

use crate::errors::api_error::{ApiError, ApiErrorText};
use crate::errors::ws_errors::send_error_to_socket;
use crate::json::json_object_text;
use crate::requests::tk_request::{fallback_request, Defaults, RequestText, TickerRequest};
use crate::requests::tk_request_checker::{init_ticker_request, normalized};
use vstd::prelude::*;

verus! {

/// An inbound message. A text frame carries the request read from its JSON,
/// or nothing where the text was no such JSON.
#[derive(Debug, Clone, PartialEq, Eq)]
pub enum SocketMessage {
    Text(Option<TickerRequest>),
    Ping(Vec<u8>),
    Pong,
    Close,
    Other,
}

/// What the session does next.
#[derive(Debug, Clone, PartialEq, Eq)]
pub enum SessionAction {
    /// Answer the handshake with this refusal; no session starts.
    Reject(ApiError),
    /// Accept the handshake; the session starts with this request.
    Upgrade(TickerRequest),
    /// Retrieve and stream the bars of this request.
    Deliver(TickerRequest),
    /// Send a heartbeat ping.
    SendPing,
    /// Answer a ping with a pong of the same payload.
    SendPong(Vec<u8>),
    /// Send this text as an error frame.
    SendError(String),
    /// Send nothing and go on.
    Nothing,
    /// Send nothing more and end the session.
    Close,
}

/// An action as plain values.
pub enum ActionText {
    Reject(ApiErrorText),
    Upgrade(RequestText),
    Deliver(RequestText),
    SendPing,
    SendPong(Seq<u8>),
    SendError(Seq<char>),
    Nothing,
    Close,
}

impl View for SessionAction {
    type V = ActionText;

    open spec fn view(&self) -> ActionText {
        match self {
            SessionAction::Reject(e) => ActionText::Reject(e@),
            SessionAction::Upgrade(q) => ActionText::Upgrade(q@),
            SessionAction::Deliver(q) => ActionText::Deliver(q@),
            SessionAction::SendPing => ActionText::SendPing,
            SessionAction::SendPong(p) => ActionText::SendPong(p@),
            SessionAction::SendError(t) => ActionText::SendError(t@),
            SessionAction::Nothing => ActionText::Nothing,
            SessionAction::Close => ActionText::Close,
        }
    }
}

/// The request that a running session streams for `req`: the normalised
/// request, or the stand-in where `req` is refused.
pub open spec fn request_in_session(req: RequestText, defaults: RequestText) -> RequestText {
    match normalized(req, defaults) {
        Ok(n) => n,
        Err(_) => fallback_request(defaults),
    }
}

/// The action for an inbound message: a close ends the session; a request
/// is streamed; text that is no request is answered with one error frame; a
/// ping is answered with a pong; anything else is passed over.
pub open spec fn message_action(msg: SocketMessage, defaults: RequestText) -> ActionText {
    match msg {
        SocketMessage::Close => ActionText::Close,
        SocketMessage::Text(None) => ActionText::SendError(
            json_object_text(seq![("error"@, "Invalid JSON"@)]),
        ),
        SocketMessage::Text(Some(req)) => ActionText::Deliver(request_in_session(req@, defaults)),
        SocketMessage::Ping(payload) => ActionText::SendPong(payload@),
        SocketMessage::Pong => ActionText::Nothing,
        SocketMessage::Other => ActionText::Nothing,
    }
}

/// The request to stream in a running session for the request `req`.
pub fn request_or_fallback(req: &TickerRequest, defaults: &Defaults) -> (r: TickerRequest)
    ensures
        r@ == request_in_session(req@, defaults@),
{
    match init_ticker_request(req, defaults) {
        Ok(n) => n,
        Err(_) => TickerRequest::new(defaults),
    }
}

/// Decides what to do with one inbound message.
pub fn handle_socket_message(msg: SocketMessage, defaults: &Defaults) -> (r: SessionAction)
    ensures
        r@ == message_action(msg, defaults@),
{
    match msg {
        SocketMessage::Close => SessionAction::Close,
        SocketMessage::Text(None) => SessionAction::SendError(send_error_to_socket("Invalid JSON")),
        SocketMessage::Text(Some(req)) => SessionAction::Deliver(
            request_or_fallback(&req, defaults),
        ),
        SocketMessage::Ping(payload) => SessionAction::SendPong(payload),
        SocketMessage::Pong => SessionAction::Nothing,
        SocketMessage::Other => SessionAction::Nothing,
    }
}

} // verus!
