//! The auth handshake: the first message of every WebSocket session must be
//! a text frame carrying a JSON object with string fields `api_key` and
//! `state`, and the key must belong to the accepted set. Anything else ends
//! the session with a close signal; a success yields the correlation token.

use vstd::prelude::*;

use crate::close::{CloseCode, CloseMessage};

verus! {

/// The two fields a client must present: a shared secret and the
/// correlation token its flow is keyed by.
pub struct AuthMessage {
    pub api_key: String,
    pub state: String,
}

/// What the transport observed while waiting for the first message of a
/// session: nothing within the allowed time, a frame that was not text, or
/// the text itself.
pub enum FirstMessage {
    Timeout,
    NonText,
    Text(String),
}

/// How a handshake ends: a close signal to send before dropping the
/// session, or the correlation token to register the session under.
pub enum HandshakeOutcome {
    Reject(CloseMessage),
    Accept(String),
}

/// `r` is a rejection carrying exactly this close code and reason.
pub open spec fn rejects(r: HandshakeOutcome, code: CloseCode, reason: Seq<char>) -> bool {
    r matches HandshakeOutcome::Reject(m) && m.code == code && m.reason@ == reason
}

/// `r` accepts the session under the correlation token `token`.
pub open spec fn accepts(r: HandshakeOutcome, token: Seq<char>) -> bool {
    r matches HandshakeOutcome::Accept(t) && t@ == token
}

/// Is `k` one of the accepted keys?
pub open spec fn key_listed(keys: Seq<String>, k: Seq<char>) -> bool {
    exists|i: int| 0 <= i < keys.len() && keys[i]@ == k
}

/// Exactly how a parsed first message must be decided: no parse ends the
/// session as unsupported data, a key outside the accepted set as
/// unauthorized, and a valid message yields its correlation token.
pub open spec fn authorize_post(
    parsed: Option<AuthMessage>,
    keys: Seq<String>,
    r: HandshakeOutcome,
) -> bool {
    match parsed {
        None => rejects(r, CloseCode::UnsupportedData, "expected valid JSON data"@),
        Some(m) => if key_listed(keys, m.api_key@) {
            accepts(r, m.state@)
        } else {
            rejects(r, CloseCode::Unauthorized, "api_key was invalid"@)
        },
    }
}

/// Exactly how the first observation of a session must be decided: silence
/// is answered with try-again-later, a non-text frame or unparsable text
/// with unsupported data, and the rest as `authorize_post` says of the
/// parsed fields.
pub open spec fn handshake_post(first: FirstMessage, keys: Seq<String>, r: HandshakeOutcome) -> bool {
    match first {
        FirstMessage::Timeout => rejects(
            r,
            CloseCode::TryAgainLater,
            "timed out waiting for auth message"@,
        ),
        FirstMessage::NonText => rejects(
            r,
            CloseCode::UnsupportedData,
            "expected text-based auth message"@,
        ),
        FirstMessage::Text(text) => match auth_fields(text@) {
            None => rejects(r, CloseCode::UnsupportedData, "expected valid JSON data"@),
            Some(f) => if key_listed(keys, f.0) {
                accepts(r, f.1)
            } else {
                rejects(r, CloseCode::Unauthorized, "api_key was invalid"@)
            },
        },
    }
}

/// The string fields `api_key` and `state` of `text` read as a JSON object,
/// if it reads as one and has both: a function of the characters alone.
pub uninterp spec fn auth_fields(text: Seq<char>) -> Option<(Seq<char>, Seq<char>)>;

/// Relies on `serde_json::from_str` and `serde_json::Value::{get, as_str}`:
/// parses `text` as JSON and hands out the string fields `api_key` and
/// `state` of the top-level object, or `None` when `text` is not a JSON
/// object with both fields present as strings.
#[verifier::external_body]
fn parse_auth_message(text: &str) -> (r: Option<AuthMessage>)
    ensures
        r matches Some(m) ==> auth_fields(text@) == Some((m.api_key@, m.state@)),
        r is None ==> auth_fields(text@) is None,
{
    let value: serde_json::Value = serde_json::from_str(text).ok()?;
    let api_key = value.get("api_key")?.as_str()?.to_owned();
    let state = value.get("state")?.as_str()?.to_owned();
    Some(AuthMessage { api_key, state })
}

/// Is `candidate` a member of the accepted key set?
pub fn key_accepted(keys: &Vec<String>, candidate: &String) -> (r: bool)
    ensures
        r == key_listed(keys@, candidate@),
{
    let n = keys.len();
    let mut i: usize = 0;
    while i < n
        invariant
            n == keys@.len(),
            i <= n,
            forall|j: int| 0 <= j < i ==> keys@[j]@ != candidate@,
        decreases n - i,
    {
        if keys[i] == *candidate {
            return true;
        }
        i = i + 1;
    }
    false
}

/// Decides a parsed first message: no parse ends the session as unsupported
/// data, a key outside the accepted set as unauthorized, and a valid
/// message yields the correlation token.
pub fn authorize(parsed: Option<AuthMessage>, keys: &Vec<String>) -> (r: HandshakeOutcome)
    ensures
        authorize_post(parsed, keys@, r),
{
    match parsed {
        None => HandshakeOutcome::Reject(
            CloseCode::UnsupportedData.into_close_message("expected valid JSON data"),
        ),
        Some(m) => {
            if key_accepted(keys, &m.api_key) {
                HandshakeOutcome::Accept(m.state)
            } else {
                HandshakeOutcome::Reject(
                    CloseCode::Unauthorized.into_close_message("api_key was invalid"),
                )
            }
        },
    }
}

/// The whole handshake decision on the first observation of a session.
/// A failed handshake always rejects — the client must reconnect; only a
/// well-formed, authenticated message yields a token to register.
pub fn handshake(first: FirstMessage, keys: &Vec<String>) -> (r: HandshakeOutcome)
    ensures
        handshake_post(first, keys@, r),
{
    match first {
        FirstMessage::Timeout => HandshakeOutcome::Reject(
            CloseCode::TryAgainLater.into_close_message("timed out waiting for auth message"),
        ),
        FirstMessage::NonText => HandshakeOutcome::Reject(
            CloseCode::UnsupportedData.into_close_message("expected text-based auth message"),
        ),
        FirstMessage::Text(text) => {
            let parsed = parse_auth_message(text.as_str());
            authorize(parsed, keys)
        },
    }
}

} // verus!
