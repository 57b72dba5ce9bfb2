//! A verified core for a fleet-automation client that drives rate-limited
//! HTTP operations: a sliding-window rate limiter, a bounded retry policy,
//! a structured error classifier, and the cooldown-aware operation loops
//! built on top of them.
pub mod client;
pub mod configuration;
pub mod json;
pub mod limiter;
pub mod manager;
pub mod models;
pub mod pipeline;
pub mod retry;
pub mod setup;
pub mod ship;
