//! The configuration of shards and of the cluster that owns them, and the
//! queue that paces their handshakes.

pub mod cluster;
pub mod queue;
pub mod shard;
