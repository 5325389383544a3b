//! Bridges inbound HTTP requests to actors of a replicated execution
//! platform: resolves the target actor, builds the call payload, drives the
//! two-phase (read probe, then authoritative) call sequence and rebuilds the
//! HTTP response from the call's result.
pub mod error;
pub mod actor;
pub mod message;
pub mod dispatch;
pub mod response;
