//! The life of one connection, as a function from state and event to the
//! next state and the action to perform.

use crate::requests::tk_request::{Defaults, RequestText, TickerRequest};
use crate::websocket::ws_msg_handler::{
    handle_socket_message,
    message_action,
    request_in_session,
    request_or_fallback,
    ActionText,
    SessionAction,
    SocketMessage,
};
use crate::websocket::ws_upgrade::{upgrade_answer, upgrade_socket_data};
use vstd::prelude::*;

verus! {

/// The seconds between two heartbeat pings.
pub const HEARTBEAT_SECS: u64 = 30;

/// Where a connection stands.
#[derive(Debug, Clone, Copy, PartialEq, Eq)]
pub enum SessionState {
    Connecting,
    UpgradeAccepted,
    Active,
    Closed,
}

/// What happened on a connection.
#[derive(Debug)]
pub enum SessionEvent {
    /// The handshake arrived: the request read from its query, or the reason
    /// why none could be read.
    Handshake(Result<TickerRequest, String>),
    /// The connection was upgraded, with the request of the handshake.
    Opened(TickerRequest),
    /// The heartbeat timer fired.
    Tick,
    /// A message arrived.
    Received(SocketMessage),
    /// Reading or writing failed, or the stream ended.
    TransportError,
}

/// The next state and the action, for each state and event.
pub open spec fn session_step(state: SessionState, event: SessionEvent, defaults: RequestText) -> (
    SessionState,
    ActionText,
) {
    match state {
        SessionState::Closed => (SessionState::Closed, ActionText::Nothing),
        SessionState::Connecting => match event {
            SessionEvent::Handshake(query) => match upgrade_answer(query, defaults) {
                Ok(q) => (SessionState::UpgradeAccepted, ActionText::Upgrade(q)),
                Err(e) => (SessionState::Closed, ActionText::Reject(e)),
            },
            SessionEvent::TransportError => (SessionState::Closed, ActionText::Close),
            _ => (SessionState::Connecting, ActionText::Nothing),
        },
        SessionState::UpgradeAccepted => match event {
            SessionEvent::Opened(req) => (
                SessionState::Active,
                ActionText::Deliver(request_in_session(req@, defaults)),
            ),
            SessionEvent::TransportError => (SessionState::Closed, ActionText::Close),
            _ => (SessionState::UpgradeAccepted, ActionText::Nothing),
        },
        SessionState::Active => match event {
            SessionEvent::Tick => (SessionState::Active, ActionText::SendPing),
            SessionEvent::Received(msg) => (
                if msg == SocketMessage::Close {
                    SessionState::Closed
                } else {
                    SessionState::Active
                },
                message_action(msg, defaults),
            ),
            SessionEvent::TransportError => (SessionState::Closed, ActionText::Close),
            _ => (SessionState::Active, ActionText::Nothing),
        },
    }
}

/// Serves one event of a connection: gives the state it is in afterwards and
/// the one action to perform.
pub fn handle_socket_data(state: SessionState, event: SessionEvent, defaults: &Defaults) -> (r: (
    SessionState,
    SessionAction,
))
    ensures
        (r.0, r.1@) == session_step(state, event, defaults@),
{
    match state {
        SessionState::Closed => (SessionState::Closed, SessionAction::Nothing),
        SessionState::Connecting => match event {
            SessionEvent::Handshake(query) => match upgrade_socket_data(query, defaults) {
                Ok(q) => (SessionState::UpgradeAccepted, SessionAction::Upgrade(q)),
                Err(e) => (SessionState::Closed, SessionAction::Reject(e)),
            },
            SessionEvent::TransportError => (SessionState::Closed, SessionAction::Close),
            _ => (SessionState::Connecting, SessionAction::Nothing),
        },
        SessionState::UpgradeAccepted => match event {
            SessionEvent::Opened(req) => (
                SessionState::Active,
                SessionAction::Deliver(request_or_fallback(&req, defaults)),
            ),
            SessionEvent::TransportError => (SessionState::Closed, SessionAction::Close),
            _ => (SessionState::UpgradeAccepted, SessionAction::Nothing),
        },
        SessionState::Active => match event {
            SessionEvent::Tick => (SessionState::Active, SessionAction::SendPing),
            SessionEvent::Received(msg) => {
                let next = match &msg {
                    SocketMessage::Close => SessionState::Closed,
                    _ => SessionState::Active,
                };
                (next, handle_socket_message(msg, defaults))
            },
            SessionEvent::TransportError => (SessionState::Closed, SessionAction::Close),
            _ => (SessionState::Active, SessionAction::Nothing),
        },
    }
}

/// A closed session stays closed and does nothing more.
pub proof fn lemma_closed_is_terminal(event: SessionEvent, defaults: RequestText)
    ensures
        session_step(SessionState::Closed, event, defaults) == (
            SessionState::Closed,
            ActionText::Nothing,
        ),
{
}

/// A heartbeat tick on an active session sends one ping and leaves the
/// session active, whether or not an earlier ping was answered.
pub proof fn lemma_heartbeat_keeps_session(defaults: RequestText)
    ensures
        session_step(SessionState::Active, SessionEvent::Tick, defaults) == (
            SessionState::Active,
            ActionText::SendPing,
        ),
{
}

/// An inbound message ends an active session exactly when it is a close
/// frame; text that is no request is answered with an error frame and the
/// session stays active.
pub proof fn lemma_only_close_ends_session(msg: SocketMessage, defaults: RequestText)
    ensures
        session_step(SessionState::Active, SessionEvent::Received(msg), defaults).0 == (if msg
            == SocketMessage::Close {
            SessionState::Closed
        } else {
            SessionState::Active
        }),
        msg == SocketMessage::Text(None) ==> session_step(
            SessionState::Active,
            SessionEvent::Received(msg),
            defaults,
        ).1 is SendError,
{
}

/// A session is served bars only while it is open: an action that delivers
/// leaves it active, and no handshake that is refused opens one.
pub proof fn lemma_delivery_only_when_active(
    state: SessionState,
    event: SessionEvent,
    defaults: RequestText,
)
    ensures
        session_step(state, event, defaults).1 is Deliver ==> session_step(
            state,
            event,
            defaults,
        ).0 == SessionState::Active,
        session_step(state, event, defaults).1 is Reject ==> state == SessionState::Connecting
            && session_step(state, event, defaults).0 == SessionState::Closed,
        session_step(state, event, defaults).1 is Close ==> session_step(
            state,
            event,
            defaults,
        ).0 == SessionState::Closed,
{
}

} // verus!
