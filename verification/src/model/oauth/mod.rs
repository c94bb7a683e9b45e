//! Entities of the platform's application directory.

pub mod team;
