//! The close signal: the closed set of WebSocket close codes this protocol
//! emits, each paired with a human-readable reason when a connection is
//! terminated.

use vstd::prelude::*;

verus! {

/// The close codes this protocol can emit, as a closed enumeration rather
/// than a bare integer.
#[derive(Debug, Clone, Copy, PartialEq, Eq, Structural)]
pub enum CloseCode {
    /// Normal termination of a session.
    NormalClosure,
    /// The peer's first message was not the expected text-based handshake.
    UnsupportedData,
    /// The server failed while servicing the session.
    InternalError,
    /// The peer should reconnect and retry, e.g. after a handshake timeout.
    TryAgainLater,
    /// The handshake carried a key outside the accepted set
    /// (application-defined range).
    Unauthorized,
}

/// A close frame about to be sent: a wire code plus its reason text.
pub struct CloseMessage {
    pub code: CloseCode,
    pub reason: String,
}

impl CloseCode {
    /// The numeric value this code has on the wire.
    pub open spec fn wire_code(self) -> u16 {
        match self {
            CloseCode::NormalClosure => 1000,
            CloseCode::UnsupportedData => 1007,
            CloseCode::InternalError => 1011,
            CloseCode::TryAgainLater => 1013,
            CloseCode::Unauthorized => 3000,
        }
    }

    /// The numeric value this code has on the wire.
    pub fn code(&self) -> (c: u16)
        ensures
            c == self.wire_code(),
    {
        match self {
            CloseCode::NormalClosure => 1000,
            CloseCode::UnsupportedData => 1007,
            CloseCode::InternalError => 1011,
            CloseCode::TryAgainLater => 1013,
            CloseCode::Unauthorized => 3000,
        }
    }

    /// Pair this code with a reason, ready to be sent as a close frame.
    pub fn into_close_message(self, reason: &str) -> (m: CloseMessage)
        ensures
            m.code == self,
            m.reason@ == reason@,
    {
        CloseMessage { code: self, reason: reason.to_owned() }
    }
}

} // verus!
