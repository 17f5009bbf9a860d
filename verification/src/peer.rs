//! Per-node communication: retries, nested connection limiting, and the
//! store/retrieve pipeline against a single storage node.
//!
//! A `NodeCommunication` owns one peer's per-node admission gate, encoding
//! context and backoff configuration; every operation returns a uniform
//! `NodeResult` and never lets a raw transport failure escape its boundary.
//! The write pipeline stores metadata (with retries), then every sliver of
//! every pair (each with retries, stopping at the first sliver that
//! exhausts its budget), then requests a signed storage confirmation.

use vstd::prelude::*;
use crate::backoff::ExponentialBackoff;
use crate::limiter::{release_nested, try_acquire_nested, PermitGate};
use crate::result::{Epoch, NodeIndex, NodeResult};
use crate::script::{spec_sliver_failures, ScriptedNode};
use crate::committee::StorageNode;
use crate::types::{
    shard_to_pair_index,
    spec_pair_index,
    BlobId,
    ClientError,
    NodeError,
    RequestRateConfig,
    SignedStorageConfirmation,
    Sliver,
    SliverPair,
    SliverStoreError,
    SliverType,
    StoreError,
    VerifiedMetadata,
};

verus! {

/// Number of attempts a retried call makes against a peer whose first
/// `failures` attempts fail: one more than the failures, capped by the
/// retry budget.
pub open spec fn spec_attempts_used(failures: u64, max_retries: u32) -> int {
    if failures > max_retries as u64 {
        max_retries as int + 1
    } else {
        failures as int + 1
    }
}

/// Whether a retried store of one sliver eventually succeeds under the
/// given script and retry budget.
pub open spec fn spec_sliver_ok(
    entries: Seq<(u16, SliverType, u64)>,
    max_retries: u32,
    pair_index: u16,
    sliver_type: SliverType,
) -> bool {
    spec_sliver_failures(entries, pair_index, sliver_type) <= max_retries as u64
}

/// Whether both slivers of a pair eventually store successfully.
pub open spec fn spec_pair_ok(
    entries: Seq<(u16, SliverType, u64)>,
    max_retries: u32,
    pair: SliverPair,
) -> bool {
    &&& spec_sliver_ok(entries, max_retries, pair.index, SliverType::Primary)
    &&& spec_sliver_ok(entries, max_retries, pair.index, SliverType::Secondary)
}

/// Whether every sliver of every pair eventually stores successfully.
pub open spec fn spec_all_pairs_ok(
    entries: Seq<(u16, SliverType, u64)>,
    max_retries: u32,
    pairs: Seq<SliverPair>,
) -> bool {
    forall|i: int| 0 <= i < pairs.len() ==> spec_pair_ok(entries, max_retries, #[trigger] pairs[i])
}

/// The error identifies a sliver of the batch whose retry budget the
/// script exhausts.
pub open spec fn spec_failing_sliver(
    entries: Seq<(u16, SliverType, u64)>,
    max_retries: u32,
    pairs: Seq<SliverPair>,
    e: SliverStoreError,
) -> bool {
    &&& exists|i: int| 0 <= i < pairs.len() && (#[trigger] pairs[i]).index == e.pair_index
    &&& !spec_sliver_ok(entries, max_retries, e.pair_index, e.sliver_type)
}

/// If exactly one sliver of the batch fails — pair index `k` on the given
/// axis — then the error returned for the batch identifies that sliver.
pub proof fn lemma_single_failing_sliver(
    entries: Seq<(u16, SliverType, u64)>,
    max_retries: u32,
    pairs: Seq<SliverPair>,
    e: SliverStoreError,
    k: u16,
    failing_type: SliverType,
)
    requires
        spec_failing_sliver(entries, max_retries, pairs, e),
        forall|i: int, t: SliverType|
            0 <= i < pairs.len() && !(pairs[i].index == k && t == failing_type)
                ==> #[trigger] spec_sliver_ok(entries, max_retries, pairs[i].index, t),
    ensures
        e.pair_index == k,
        e.sliver_type == failing_type,
{
    let i = choose|i: int| 0 <= i < pairs.len() && (#[trigger] pairs[i]).index == e.pair_index;
    assert(!(pairs[i].index == k && e.sliver_type == failing_type) ==> spec_sliver_ok(
        entries,
        max_retries,
        pairs[i].index,
        e.sliver_type,
    ));
}

/// All interaction with exactly one storage node of the committee.
pub struct NodeCommunication {
    /// Index of the node in the committee's member list.
    pub node_index: NodeIndex,
    /// The epoch this client is bound to.
    pub epoch: Epoch,
    /// The committee member this client talks to.
    pub node: StorageNode,
    /// Total shard count of the encoding configuration.
    pub n_shards: u16,
    /// Request-rate parameters for this peer.
    pub config: RequestRateConfig,
    /// Per-peer admission gate, exclusively owned by this client.
    pub node_connection_limit: PermitGate,
}

impl NodeCommunication {
    /// The node owns at least one shard and at most a 16-bit count of
    /// them, the configuration is ordered, and the per-peer gate matches
    /// its configured bound.
    pub open spec fn wf(self) -> bool {
        &&& 1 <= self.node.shard_ids@.len() <= u16::MAX
        &&& self.n_shards >= 1
        &&& self.config.wf()
        &&& self.node_connection_limit.wf()
        &&& self.node_connection_limit.capacity == self.config.max_node_connections
    }

    /// Creates a client for one committee member.  Fails with
    /// `InvalidConfig` iff the node owns no shards: such a node cannot
    /// produce a meaningful weight and indicates a malformed committee.
    pub fn new(
        node_index: NodeIndex,
        epoch: Epoch,
        node: StorageNode,
        n_shards: u16,
        config: RequestRateConfig,
    ) -> (r: Result<NodeCommunication, ClientError>)
        requires
            node.shard_ids@.len() <= u16::MAX,
            n_shards >= 1,
            config.wf(),
        ensures
            r is Err <==> node.shard_ids@.len() == 0,
            r is Err ==> r == Err::<NodeCommunication, ClientError>(ClientError::InvalidConfig),
            r matches Ok(c) ==> c.wf() && c.node_index == node_index && c.epoch == epoch && c.node
                == node && c.n_shards == n_shards && c.config == config
                && c.node_connection_limit.capacity == config.max_node_connections
                && c.node_connection_limit.available == config.max_node_connections,
    {
        if node.shard_ids.len() == 0 {
            return Err(ClientError::InvalidConfig);
        }
        let node_connection_limit = PermitGate::new(config.max_node_connections);
        Ok(NodeCommunication { node_index, epoch, node, n_shards, config, node_connection_limit })
    }

    /// Returns the total number of shards.
    pub fn n_shards(&self) -> (n: u16)
        ensures
            n == self.n_shards,
    {
        self.n_shards
    }

    /// Returns the number of shards owned by the node.
    pub fn n_owned_shards(&self) -> (n: u16)
        requires
            self.wf(),
        ensures
            n == self.node.shard_ids@.len(),
            n >= 1,
    {
        self.node.shard_ids.len() as u16
    }

    /// The public key of the node.
    fn public_key(&self) -> (key: &Vec<u8>)
        ensures
            key@ == self.node.public_key@,
    {
        &self.node.public_key
    }

    /// Wraps an outcome in the uniform weighted envelope of this node.
    fn to_node_result<T, E>(&self, weight: usize, result: Result<T, E>) -> (r: NodeResult<T, E>)
        ensures
            r.0 == self.epoch,
            r.1 == weight,
            r.2 == self.node_index,
            r.3 == result,
    {
        NodeResult(self.epoch, weight, self.node_index, result)
    }

    /// The backoff strategy for this node, seeded by its index so retry
    /// schedules across peers are decorrelated but reproducible.
    fn backoff_strategy(&self) -> (b: ExponentialBackoff)
        requires
            self.config.wf(),
        ensures
            b.wf(),
            b.min_delay_ms == self.config.min_backoff_ms,
            b.max_delay_ms == self.config.max_backoff_ms,
            b.max_retries == self.config.max_retries,
            b.attempt == 0,
    {
        ExponentialBackoff::new_with_seed(
            self.config.min_backoff_ms,
            self.config.max_backoff_ms,
            self.config.max_retries,
            self.node_index as u64,
        )
    }

    // Read operations.

    /// Requests the metadata for a blob from the node: a single request
    /// without retry.  The weight is the node's full owned-shard count,
    /// since metadata is shard-independent.
    pub fn retrieve_verified_metadata(&self, peer: &ScriptedNode, blob_id: &BlobId) -> (r:
        NodeResult<VerifiedMetadata, NodeError>)
        requires
            self.wf(),
        ensures
            r.0 == self.epoch,
            r.1 == self.node.shard_ids@.len(),
            r.2 == self.node_index,
            r.3 is Ok <==> peer.metadata_fetch_ok,
            r.3 matches Ok(m) ==> m.blob_id == *blob_id,
    {
        let weight = self.n_owned_shards() as usize;
        let result = peer.get_and_verify_metadata(blob_id);
        self.to_node_result(weight, result)
    }

    /// Requests the sliver for one shard from the node, verified against
    /// the metadata: a single request without retry, with weight 1 (one
    /// shard's worth of evidence).  The shard index is mapped into the
    /// sliver-pair index space of the blob.
    pub fn retrieve_verified_sliver(
        &self,
        peer: &ScriptedNode,
        metadata: &VerifiedMetadata,
        shard_index: u16,
        sliver_type: SliverType,
    ) -> (r: NodeResult<Sliver, NodeError>)
        requires
            self.wf(),
            shard_index < self.n_shards,
        ensures
            r.0 == self.epoch,
            r.1 == 1,
            r.2 == self.node_index,
            r.3 is Ok <==> !peer.sliver_fetch_failures@.contains(
                (
                    spec_pair_index(shard_index, self.n_shards, metadata.blob_id) as u16,
                    sliver_type,
                ),
            ),
    {
        let pair_index = shard_to_pair_index(shard_index, self.n_shards, &metadata.blob_id);
        let result = peer.get_and_verify_sliver(pair_index, sliver_type);
        self.to_node_result(1, result)
    }

    // Write operations.

    /// Stores metadata and sliver pairs on the node and requests a signed
    /// storage confirmation.  The three stages run in order and
    /// short-circuit on the first failure: metadata with retries, then
    /// every sliver of every pair (stopping at the first sliver whose
    /// retry budget is exhausted, without touching metadata again), then
    /// the confirmation request, which is not retried.  On success the
    /// weight is the node's full owned-shard count, since a confirmation
    /// attests the node's whole shard set.
    pub fn store_metadata_and_pairs(
        &mut self,
        peer: &mut ScriptedNode,
        global_limit: &mut PermitGate,
        metadata: &VerifiedMetadata,
        pairs: &Vec<SliverPair>,
    ) -> (r: NodeResult<SignedStorageConfirmation, StoreError>)
        requires
            old(self).wf(),
            old(global_limit).wf(),
            old(self).node_connection_limit.available >= 1,
            old(global_limit).available >= 1,
            old(peer).metadata_store_attempts + old(self).config.max_retries + 1 <= u64::MAX,
        ensures
            *final(self) == *old(self),
            *final(global_limit) == *old(global_limit),
            final(peer).same_script(*old(peer)),
            r.0 == old(self).epoch,
            r.1 == old(self).node.shard_ids@.len(),
            r.2 == old(self).node_index,
            r.3 is Ok <==> (old(peer).metadata_store_failures <= old(self).config.max_retries
                && spec_all_pairs_ok(
                old(peer).sliver_store_failures@,
                old(self).config.max_retries,
                pairs@,
            ) && old(peer).confirmation_ok),
            r.3 matches Ok(c) ==> c.blob_id == metadata.blob_id && c.epoch == old(self).epoch
                && c.signer_key@ == old(self).node.public_key@,
            final(peer).metadata_store_attempts == old(peer).metadata_store_attempts
                + spec_attempts_used(
                old(peer).metadata_store_failures,
                old(self).config.max_retries,
            ),
            old(peer).metadata_store_failures > old(self).config.max_retries ==> (r.3 matches Err(
                StoreError::Metadata { .. },
            ) && final(peer).sliver_store_attempts == old(peer).sliver_store_attempts),
            (old(peer).metadata_store_failures <= old(self).config.max_retries
                && !spec_all_pairs_ok(
                old(peer).sliver_store_failures@,
                old(self).config.max_retries,
                pairs@,
            )) ==> match r.3 {
                Err(StoreError::Sliver(e)) => spec_failing_sliver(
                    old(peer).sliver_store_failures@,
                    old(self).config.max_retries,
                    pairs@,
                    e,
                ),
                _ => false,
            },
            (old(peer).metadata_store_failures <= old(self).config.max_retries
                && spec_all_pairs_ok(
                old(peer).sliver_store_failures@,
                old(self).config.max_retries,
                pairs@,
            ) && !old(peer).confirmation_ok) ==> r.3 matches Err(StoreError::Confirmation { .. }),
    {
        let weight = self.n_owned_shards() as usize;
        match self.store_metadata_with_retries(peer, global_limit, metadata) {
            Err(e) => {
                return self.to_node_result(weight, Err(StoreError::Metadata(e)));
            },
            Ok(()) => {},
        }
        let blob_id = metadata.blob_id;
        match self.store_pairs(peer, global_limit, &blob_id, pairs) {
            Err(e) => {
                return self.to_node_result(weight, Err(StoreError::Sliver(e)));
            },
            Ok(()) => {},
        }
        let result = peer.get_and_verify_confirmation(&blob_id, self.epoch, self.public_key());
        match result {
            Ok(c) => self.to_node_result(weight, Ok(c)),
            Err(e) => self.to_node_result(weight, Err(StoreError::Confirmation(e))),
        }
    }

    /// Stores the blob metadata on the node, retrying failed attempts with
    /// backoff until the retry budget is exhausted.  Each attempt holds
    /// the per-peer and global permits for its duration only.
    fn store_metadata_with_retries(
        &mut self,
        peer: &mut ScriptedNode,
        global_limit: &mut PermitGate,
        metadata: &VerifiedMetadata,
    ) -> (r: Result<(), NodeError>)
        requires
            old(self).wf(),
            old(global_limit).wf(),
            old(self).node_connection_limit.available >= 1,
            old(global_limit).available >= 1,
            old(peer).metadata_store_attempts + old(self).config.max_retries + 1 <= u64::MAX,
        ensures
            *final(self) == *old(self),
            *final(global_limit) == *old(global_limit),
            final(peer).same_script(*old(peer)),
            final(peer).sliver_store_attempts == old(peer).sliver_store_attempts,
            r is Ok <==> old(peer).metadata_store_failures <= old(self).config.max_retries,
            final(peer).metadata_store_attempts == old(peer).metadata_store_attempts
                + spec_attempts_used(
                old(peer).metadata_store_failures,
                old(self).config.max_retries,
            ),
    {
        let max_retries = self.config.max_retries;
        let mut backoff = self.backoff_strategy();
        let mut attempt: u64 = 0;
        loop
            invariant
                self.wf(),
                *self == *old(self),
                *global_limit == *old(global_limit),
                global_limit.wf(),
                global_limit.available >= 1,
                self.node_connection_limit.available >= 1,
                peer.same_script(*old(peer)),
                peer.sliver_store_attempts == old(peer).sliver_store_attempts,
                max_retries == self.config.max_retries,
                attempt <= max_retries,
                attempt <= old(peer).metadata_store_failures,
                peer.metadata_store_attempts == old(peer).metadata_store_attempts + attempt,
                old(peer).metadata_store_attempts + max_retries + 1 <= u64::MAX,
                backoff.wf(),
                backoff.attempt == attempt,
            decreases max_retries - attempt,
        {
            let granted = try_acquire_nested(&mut self.node_connection_limit, global_limit);
            assert(granted);
            let result = peer.store_metadata(metadata, attempt);
            release_nested(&mut self.node_connection_limit, global_limit);
            match result {
                Ok(()) => {
                    return Ok(());
                },
                Err(e) => {
                    if attempt >= max_retries as u64 {
                        return Err(e);
                    }
                    // The scripted run computes the delay but does not
                    // sleep; the caller of a live run does.
                    let _delay = backoff.next_delay_ms();
                    attempt = attempt + 1;
                },
            }
        }
    }

    /// Stores every sliver of every pair on the node, each with its own
    /// retry budget.  The first sliver to exhaust its budget stops the
    /// batch: the operation returns immediately with that sliver's pair
    /// index and axis, since the peer's confirmation is already
    /// unreachable.
    fn store_pairs(
        &mut self,
        peer: &mut ScriptedNode,
        global_limit: &mut PermitGate,
        blob_id: &BlobId,
        pairs: &Vec<SliverPair>,
    ) -> (r: Result<(), SliverStoreError>)
        requires
            old(self).wf(),
            old(global_limit).wf(),
            old(self).node_connection_limit.available >= 1,
            old(global_limit).available >= 1,
        ensures
            *final(self) == *old(self),
            *final(global_limit) == *old(global_limit),
            final(peer).same_script(*old(peer)),
            final(peer).metadata_store_attempts == old(peer).metadata_store_attempts,
            r is Ok <==> spec_all_pairs_ok(
                old(peer).sliver_store_failures@,
                old(self).config.max_retries,
                pairs@,
            ),
            r matches Err(e) ==> spec_failing_sliver(
                old(peer).sliver_store_failures@,
                old(self).config.max_retries,
                pairs@,
                e,
            ),
    {
        let mut i: usize = 0;
        while i < pairs.len()
            invariant
                self.wf(),
                *self == *old(self),
                *global_limit == *old(global_limit),
                global_limit.wf(),
                global_limit.available >= 1,
                self.node_connection_limit.available >= 1,
                peer.same_script(*old(peer)),
                peer.metadata_store_attempts == old(peer).metadata_store_attempts,
                i <= pairs.len(),
                forall|j: int|
                    0 <= j < i ==> spec_pair_ok(
                        old(peer).sliver_store_failures@,
                        old(self).config.max_retries,
                        #[trigger] pairs@[j],
                    ),
            decreases pairs.len() - i,
        {
            let pair_index = pairs[i].index;
            match self.store_sliver(
                peer,
                global_limit,
                blob_id,
                &pairs[i].primary,
                pair_index,
                SliverType::Primary,
            ) {
                Err(e) => {
                    return Err(e);
                },
                Ok(()) => {},
            }
            match self.store_sliver(
                peer,
                global_limit,
                blob_id,
                &pairs[i].secondary,
                pair_index,
                SliverType::Secondary,
            ) {
                Err(e) => {
                    return Err(e);
                },
                Ok(()) => {},
            }
            i = i + 1;
        }
        Ok(())
    }

    /// Stores one sliver on the node, retrying failed attempts with
    /// backoff until the retry budget is exhausted; a terminal failure is
    /// tagged with the sliver's pair index and axis.
    fn store_sliver(
        &mut self,
        peer: &mut ScriptedNode,
        global_limit: &mut PermitGate,
        blob_id: &BlobId,
        sliver: &Sliver,
        pair_index: u16,
        sliver_type: SliverType,
    ) -> (r: Result<(), SliverStoreError>)
        requires
            old(self).wf(),
            old(global_limit).wf(),
            old(self).node_connection_limit.available >= 1,
            old(global_limit).available >= 1,
        ensures
            *final(self) == *old(self),
            *final(global_limit) == *old(global_limit),
            final(peer).same_script(*old(peer)),
            final(peer).metadata_store_attempts == old(peer).metadata_store_attempts,
            r is Ok <==> spec_sliver_ok(
                old(peer).sliver_store_failures@,
                old(self).config.max_retries,
                pair_index,
                sliver_type,
            ),
            r matches Err(e) ==> e.pair_index == pair_index && e.sliver_type == sliver_type,
    {
        let max_retries = self.config.max_retries;
        let mut backoff = self.backoff_strategy();
        let mut attempt: u64 = 0;
        loop
            invariant
                self.wf(),
                *self == *old(self),
                *global_limit == *old(global_limit),
                global_limit.wf(),
                global_limit.available >= 1,
                self.node_connection_limit.available >= 1,
                peer.same_script(*old(peer)),
                peer.metadata_store_attempts == old(peer).metadata_store_attempts,
                max_retries == self.config.max_retries,
                attempt <= max_retries,
                backoff.wf(),
                backoff.attempt == attempt,
            decreases max_retries - attempt,
        {
            let granted = try_acquire_nested(&mut self.node_connection_limit, global_limit);
            assert(granted);
            let result = peer.store_sliver(blob_id, pair_index, sliver_type, sliver, attempt);
            release_nested(&mut self.node_connection_limit, global_limit);
            match result {
                Ok(()) => {
                    return Ok(());
                },
                Err(error) => {
                    if attempt >= max_retries as u64 {
                        return Err(SliverStoreError { pair_index, sliver_type, error });
                    }
                    let _delay = backoff.next_delay_ms();
                    attempt = attempt + 1;
                },
            }
        }
    }
}

} // verus!
