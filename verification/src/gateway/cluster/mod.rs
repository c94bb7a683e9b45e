//! The configuration of a cluster of shards.

pub mod builder;
pub mod config;
pub mod scheme;

pub use self::builder::ClusterBuilder;
pub use self::config::Config;
pub use self::scheme::{ShardScheme, ShardSchemeRangeError};
