//! Plain data model of the values exchanged with storage nodes.
//!
//! Blob identifiers, verified metadata, sliver pairs, confirmations, the
//! error taxonomy of the communication layer, and the per-peer request-rate
//! parameters.

use vstd::prelude::*;
use crate::result::Epoch;

verus! {

/// Content-derived identifier of a blob, immutable once computed.
#[derive(Clone, Copy, PartialEq, Eq, Structural, Debug)]
pub struct BlobId(pub u64);

/// The erasure-coding axis a sliver belongs to.
#[derive(Clone, Copy, PartialEq, Eq, Structural, Debug)]
pub enum SliverType {
    /// The primary encoding axis.
    Primary,
    /// The secondary encoding axis.
    Secondary,
}

/// Blob metadata already proven consistent with its blob identifier and the
/// encoding configuration.  Only this verified form may enter store and
/// retrieve calls.
#[derive(Clone, Copy, PartialEq, Eq, Structural, Debug)]
pub struct VerifiedMetadata {
    /// The identifier the metadata was verified against.
    pub blob_id: BlobId,
}

/// One erasure-coded fragment along one axis.
pub struct Sliver {
    /// The encoded symbol bytes of the fragment.
    pub symbols: Vec<u8>,
}

/// The primary and secondary fragments sharing one pair index.
pub struct SliverPair {
    /// The pair index within `0 .. n_shards`.
    pub index: u16,
    /// The fragment along the primary axis.
    pub primary: Sliver,
    /// The fragment along the secondary axis.
    pub secondary: Sliver,
}

/// A storage confirmation signed by a node, bound to the blob, the epoch,
/// and the signing node's key.
pub struct SignedStorageConfirmation {
    /// The blob the confirmation is for.
    pub blob_id: BlobId,
    /// The epoch the confirmation was issued in.
    pub epoch: Epoch,
    /// The public key of the signing node.
    pub signer_key: Vec<u8>,
}

/// A transport or verification failure reported while talking to a node.
#[derive(Clone, Copy, PartialEq, Eq, Structural, Debug)]
pub struct NodeError;

/// A specific sliver could not be stored after exhausting retries; carries
/// enough identity to diagnose which fragment failed.
#[derive(Clone, Copy, PartialEq, Eq, Structural, Debug)]
pub struct SliverStoreError {
    /// The pair index of the failed fragment.
    pub pair_index: u16,
    /// The axis of the failed fragment.
    pub sliver_type: SliverType,
    /// The underlying failure of the last attempt.
    pub error: NodeError,
}

/// Which stage of the write pipeline failed.
#[derive(Clone, Copy, PartialEq, Eq, Structural, Debug)]
pub enum StoreError {
    /// Metadata could not be stored after retries.
    Metadata(NodeError),
    /// A sliver could not be stored after retries.
    Sliver(SliverStoreError),
    /// The signed storage confirmation could not be obtained or verified.
    Confirmation(NodeError),
}

/// Constructing a peer client failed.
#[derive(Clone, Copy, PartialEq, Eq, Structural, Debug)]
pub enum ClientError {
    /// The committee or peer configuration violates an invariant, such as a
    /// member owning zero shards.
    InvalidConfig,
}

/// Per-peer request-rate parameters: the connection bound and the backoff
/// configuration.
#[derive(Clone, Copy, PartialEq, Eq, Structural, Debug)]
pub struct RequestRateConfig {
    /// Bound on concurrent connections to this node.
    pub max_node_connections: usize,
    /// Delay of the first backoff step, in milliseconds.
    pub min_backoff_ms: u64,
    /// Cap on every backoff delay, in milliseconds.
    pub max_backoff_ms: u64,
    /// Retries allowed after the first attempt of each retried call.
    pub max_retries: u32,
}

impl RequestRateConfig {
    /// The backoff bounds are ordered and at least one connection is
    /// admitted.
    pub open spec fn wf(self) -> bool {
        &&& self.min_backoff_ms <= self.max_backoff_ms
        &&& self.max_node_connections >= 1
    }
}

/// The sliver-pair index a shard index maps to for a given blob: the shard
/// space rotated by an offset derived from the blob identifier.
pub open spec fn spec_pair_index(shard_index: u16, n_shards: u16, blob_id: BlobId) -> int
    recommends
        n_shards >= 1,
        shard_index < n_shards,
{
    let rotation = blob_id.0 as int % n_shards as int;
    (shard_index as int + n_shards as int - rotation) % n_shards as int
}

/// Maps a shard index to the sliver-pair index space of the blob.
pub fn shard_to_pair_index(shard_index: u16, n_shards: u16, blob_id: &BlobId) -> (pair_index: u16)
    requires
        n_shards >= 1,
        shard_index < n_shards,
    ensures
        pair_index == spec_pair_index(shard_index, n_shards, *blob_id),
        pair_index < n_shards,
{
    let rotation = (blob_id.0 % n_shards as u64) as u32;
    let shifted = shard_index as u32 + n_shards as u32 - rotation;
    (shifted % n_shards as u32) as u16
}

} // verus!
