//! Core of a chat-platform client: an event-driven in-memory cache, the
//! configuration of a shard cluster, and a header-driven REST rate limiter.
//!
//! Every function in this crate carries a contract that Verus proves, apart
//! from the thin wrappers around `dashmap`, `hyper` and `std` that are marked
//! `#[verifier::external_body]` and documented where they stand.

pub mod cache;
pub mod gateway;
pub mod model;
pub mod ratelimiting;
pub mod routing;
