//! Plain data types for the entities and gateway payloads the core works on.

pub mod channel;
pub mod gateway;
pub mod guild;
pub mod id;
pub mod invite;
pub mod oauth;
pub mod user;
pub mod voice;
