//! Access-control decision engine for a real-time, multi-user collaborative
//! canvas session.
//!
//! Every state-changing message a participant sends passes through
//! [`filter::AclFilter::filter_message`] before it may affect shared session
//! state. The engine decides, per message, whether the sender is authorized,
//! and tracks the mutable permission state (operators, locked users, per-layer
//! access rules, protected annotations) that future decisions depend on.
//!
//! The engine consumes already-decoded, typed messages and performs no I/O,
//! serialization, or rendering itself.

pub mod filter;
pub mod laws;
pub mod messages;
pub mod model;
pub mod tier;
pub mod userbits;
