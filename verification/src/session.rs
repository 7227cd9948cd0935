//! Decisions of a WebSocket streaming session: what to do with each frame
//! the client sends and with each item the sensor feed delivers.
use vstd::prelude::*;

use crate::text::{decimal, decimal_text, join2, owned};

verus! {

/// What arrived from the client.
pub enum ClientEvent {
    /// A text frame.
    Text(String),
    /// A close frame.
    Close,
    /// The connection reported an error.
    Failed,
    /// The connection ended without a close frame.
    Ended,
    /// Any other frame (binary, ping, pong).
    Other,
}

/// What the sensor feed delivered.
#[derive(PartialEq, Eq, Structural, Clone, Copy, Debug)]
pub enum FeedEvent {
    /// A message ready to be sent on.
    Message,
    /// The session fell behind and this many messages were dropped.
    Lagged(u64),
    /// The feed has no sender left.
    Closed,
}

/// What the session does next.
#[derive(PartialEq, Eq, Debug)]
pub enum SessionAction {
    /// Send this text to the client.
    Reply(String),
    /// Send the feed's message to the client.
    Forward,
    /// Tell the client of an error: its message and its code.
    ReportError(String, String),
    /// Nothing to send; wait for the next event.
    Continue,
    /// End the session.
    Stop,
}

/// The text sent to a client that fell behind by `skipped` messages.
pub open spec fn lag_text(skipped: nat) -> Seq<char> {
    "Client lagging, skipped "@ + decimal_text(skipped) + " messages"@
}

/// A `ping` text is answered with `pong`; other text and frames are ignored;
/// a close frame, an error or the end of the connection ends the session.
pub fn on_client_event(event: &ClientEvent) -> (a: SessionAction)
    ensures
        match *event {
            ClientEvent::Text(t) => if t@ == "ping"@ {
                a matches SessionAction::Reply(r) && r@ == "pong"@
            } else {
                a is Continue
            },
            ClientEvent::Other => a is Continue,
            _ => a is Stop,
        },
{
    match event {
        ClientEvent::Text(t) => {
            if *t == owned("ping") {
                SessionAction::Reply(owned("pong"))
            } else {
                SessionAction::Continue
            }
        },
        ClientEvent::Other => SessionAction::Continue,
        _ => SessionAction::Stop,
    }
}

/// A message is sent on; a closed feed ends the session. When the session
/// fell behind, the client is told so with code `CLIENT_LAGGING` if
/// `report_lag` is set, and nothing is sent otherwise.
pub fn on_feed_event(event: FeedEvent, report_lag: bool) -> (a: SessionAction)
    ensures
        match event {
            FeedEvent::Message => a is Forward,
            FeedEvent::Lagged(n) => if report_lag {
                a matches SessionAction::ReportError(m, c) && m@ == lag_text(n as nat) && c@
                    == "CLIENT_LAGGING"@
            } else {
                a is Continue
            },
            FeedEvent::Closed => a is Stop,
        },
{
    match event {
        FeedEvent::Message => SessionAction::Forward,
        FeedEvent::Lagged(n) => {
            if report_lag {
                let mut m = join2("Client lagging, skipped ", decimal(n).as_str());
                m.append(" messages");
                SessionAction::ReportError(m, owned("CLIENT_LAGGING"))
            } else {
                SessionAction::Continue
            }
        },
        FeedEvent::Closed => SessionAction::Stop,
    }
}

} // verus!
