//! The decisions of one client connection to the supervisor: what to answer to
//! each inbound message, and how a failed connection is closed. The caller runs
//! the connection and performs the action decided here; a failure closes only
//! that connection.
use vstd::prelude::*;

use crate::text::{decimal, decimal_string};

verus! {

/// Close code sent when the connection fails ("internal error").
pub const CLOSE_INTERNAL_ERROR: u16 = 1011;

/// An event on a client connection.
pub enum Inbound {
    /// A text message.
    Text(String),
    /// A binary message of this many bytes.
    Binary(usize),
    /// A control frame (ping, pong, close), which the transport answers itself.
    Control,
    /// Receiving failed, with this description.
    Failed(String),
}

/// What to do on the connection.
pub enum Outbound {
    /// Send this text message.
    Reply(String),
    /// Send a close frame with this code and reason, and end the connection.
    Close { code: u16, reason: String },
    /// Nothing.
    Ignore,
}

pub open spec fn close_reason(error: Seq<char>) -> Seq<char> {
    "Error occured: "@ + error
}

/// The answer to `msg`: an echo of a text message, the length of a binary one,
/// and a close frame with code 1011 when receiving failed.
pub fn handle_message(msg: &Inbound) -> (r: Outbound)
    ensures
        match msg {
            Inbound::Text(t) => r is Reply && r->Reply_0@ == "Echo back text: "@ + t@,
            Inbound::Binary(n) => r is Reply && r->Reply_0@ == "Received bytes of length: "@
                + decimal(*n as nat),
            Inbound::Control => r is Ignore,
            Inbound::Failed(e) => r is Close && r->code == CLOSE_INTERNAL_ERROR && r->reason@
                == close_reason(e@),
        },
{
    match msg {
        Inbound::Text(t) => {
            let mut s = String::from_str("Echo back text: ");
            s.append(t.as_str());
            Outbound::Reply(s)
        },
        Inbound::Binary(n) => {
            let mut s = String::from_str("Received bytes of length: ");
            let digits = decimal_string(*n as u64);
            s.append(digits.as_str());
            Outbound::Reply(s)
        },
        Inbound::Control => Outbound::Ignore,
        Inbound::Failed(e) => send_failure_close(e.as_str()),
    }
}

/// The close frame after sending failed with `error`.
pub fn send_failure_close(error: &str) -> (r: Outbound)
    ensures
        r is Close && r->code == CLOSE_INTERNAL_ERROR && r->reason@ == close_reason(error@),
{
    let mut reason = String::from_str("Error occured: ");
    reason.append(error);
    Outbound::Close { code: CLOSE_INTERNAL_ERROR, reason }
}

} // verus!
