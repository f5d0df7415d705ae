//! Delivery routing for a multi-channel agent gateway: a routing table that
//! maps `(channel, sender)` to an agent, and the decision logic of a
//! streaming HTTP channel adapter (event-stream framing, payload decoding,
//! allow-list filtering, reconnect backoff and response classification).
pub mod text;
pub mod config;
pub mod router;
pub mod sse;
pub mod message;
pub mod channel;
pub mod listen;
