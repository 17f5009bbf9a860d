//! Client-side communication core for a quorum-based blob storage network.
//!
//! The library models the per-node communication pipeline of a storage
//! client: Byzantine-fault-tolerant threshold arithmetic, committee shard
//! assignment, exponential backoff with seeded jitter, nested connection
//! limiting, the store/retrieve pipeline against a single storage node, and
//! the aggregation of weighted per-node outcomes into a quorum decision.

pub mod aggregate;
pub mod backoff;
pub mod bft;
pub mod cli;
pub mod committee;
pub mod format;
pub mod limiter;
pub mod peer;
pub mod result;
pub mod script;
pub mod types;
