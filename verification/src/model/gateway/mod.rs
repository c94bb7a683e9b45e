//! What the gateway sends: events, their payloads, presences.

pub mod event;
pub mod intents;
pub mod payload;
pub mod presence;
