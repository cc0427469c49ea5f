//! The life of one WebSocket session around the registry: admission after
//! the handshake, and the keepalive loop's bookkeeping — removal on a peer
//! close, a ping while the entry is still registered.

use vstd::prelude::*;

use crate::auth::{auth_fields, handshake, key_listed, FirstMessage, HandshakeOutcome};
use crate::close::{CloseCode, CloseMessage};
use crate::registry::Registry;

verus! {

/// How a session begins: refused with a close signal — the send capability
/// handed back so the transport can say goodbye — or admitted under its
/// correlation token, the capability now owned by the registry.
pub enum SessionStart<S> {
    Refused { close: CloseMessage, sink: S },
    Admitted { token: String },
}

/// `r` refuses the session with exactly this close signal and returns the
/// untouched send capability.
pub open spec fn refused_with<S>(
    r: SessionStart<S>,
    code: CloseCode,
    reason: Seq<char>,
    sink: S,
) -> bool {
    r matches SessionStart::Refused { close, sink: s } && close.code == code && close.reason@
        == reason && s == sink
}

/// `r` admits the session under the correlation token `token`.
pub open spec fn admitted_with<S>(r: SessionStart<S>, token: Seq<char>) -> bool {
    r matches SessionStart::Admitted { token: t } && t@ == token
}

/// Exactly what admission must do: every failed handshake refuses with the
/// close signal the handshake calls for and leaves the registry untouched —
/// no entry is ever created for a session that did not authenticate — while
/// a successful one registers the send capability under the token the
/// client named.
pub open spec fn admit_post<S>(
    first: FirstMessage,
    keys: Seq<String>,
    sink: S,
    reg0: Map<Seq<char>, S>,
    reg1: Map<Seq<char>, S>,
    r: SessionStart<S>,
) -> bool {
    match first {
        FirstMessage::Timeout => refused_with(
            r,
            CloseCode::TryAgainLater,
            "timed out waiting for auth message"@,
            sink,
        ) && reg1 == reg0,
        FirstMessage::NonText => refused_with(
            r,
            CloseCode::UnsupportedData,
            "expected text-based auth message"@,
            sink,
        ) && reg1 == reg0,
        FirstMessage::Text(text) => match auth_fields(text@) {
            None => refused_with(
                r,
                CloseCode::UnsupportedData,
                "expected valid JSON data"@,
                sink,
            ) && reg1 == reg0,
            Some(f) => if key_listed(keys, f.0) {
                admitted_with(r, f.1) && reg1 == reg0.insert(f.1, sink)
            } else {
                refused_with(r, CloseCode::Unauthorized, "api_key was invalid"@, sink) && reg1
                    == reg0
            },
        },
    }
}

/// Runs the handshake on the first observation of a session and, only when
/// it succeeds, registers the send capability under the yielded token.
pub fn admit_session<S>(
    reg: &mut Registry<S>,
    first: FirstMessage,
    keys: &Vec<String>,
    sink: S,
) -> (r: SessionStart<S>)
    ensures
        admit_post(first, keys@, sink, old(reg)@, final(reg)@, r),
{
    let outcome = handshake(first, keys);
    match outcome {
        HandshakeOutcome::Reject(close) => SessionStart::Refused { close, sink },
        HandshakeOutcome::Accept(token) => {
            let registered = token.clone();
            reg.insert(registered, sink);
            SessionStart::Admitted { token }
        },
    }
}

/// What the keepalive loop just observed: an inbound close frame, any other
/// inbound frame (this protocol has no post-auth payloads, so it is
/// discarded), or the ping timer firing.
#[derive(Debug, Clone, Copy, PartialEq, Eq, Structural)]
pub enum SessionEvent {
    CloseFrame,
    OtherFrame,
    PingTick,
}

/// What the loop must do next: tear the session down, keep waiting, or send
/// a ping over the still-registered capability.
#[derive(Debug, Clone, Copy, PartialEq, Eq, Structural)]
pub enum KeepaliveAction {
    Terminate,
    Continue,
    SendPing,
}

/// One turn of the keepalive loop. A peer close removes the session's entry
/// — the loop's sole termination signal; a ping is called for exactly while
/// the entry is still registered, and never changes the registry.
pub fn keepalive_step<S>(reg: &mut Registry<S>, token: &String, event: &SessionEvent) -> (r:
    KeepaliveAction)
    ensures
        event is CloseFrame ==> final(reg)@ == old(reg)@.remove(token@) && r is Terminate,
        !(event is CloseFrame) ==> final(reg)@ == old(reg)@,
        event is OtherFrame ==> r is Continue,
        event is PingTick ==> (r is SendPing <==> old(reg)@.contains_key(token@)),
        event is PingTick ==> r is SendPing || r is Continue,
{
    match event {
        SessionEvent::CloseFrame => {
            let _ = reg.remove(token);
            KeepaliveAction::Terminate
        },
        SessionEvent::OtherFrame => KeepaliveAction::Continue,
        SessionEvent::PingTick => {
            if reg.contains(token) {
                KeepaliveAction::SendPing
            } else {
                KeepaliveAction::Continue
            }
        },
    }
}

} // verus!
