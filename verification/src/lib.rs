//! A single-process broker for a networked application: it tracks live
//! client sessions, organizes them into topic-scoped rooms, fans broadcast
//! messages out to room members, enforces per-address token-bucket rate
//! limits, and routes inbound operation envelopes to handlers.

pub mod dispatch;
pub mod errors;
pub mod json;
pub mod ops;
pub mod rate_limit;
pub mod server;
