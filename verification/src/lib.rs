//! A relay that joins an OAuth-style HTTP redirect to the client that started
//! the flow. A client opens a WebSocket, authenticates with a shared key, and
//! names an opaque correlation token; the registry holds its send capability
//! under that token until the provider's redirect arrives with the
//! authorization code, which is then handed over exactly once — either pushed
//! over the still-open socket or stored for a later authenticated pull.
//!
//! This crate holds the decision logic of that protocol: the handshake state
//! machine, the token registry, the keepalive bookkeeping, and the two
//! HTTP-facing correlators. The network transport around it hands in plain
//! events and carries the answers back out.

pub mod auth;
pub mod close;
pub mod json;
pub mod redirect;
pub mod registry;
pub mod response;
pub mod retrieval;
pub mod session;
pub mod state;
