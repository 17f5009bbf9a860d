//! An in-process stand-in for one remote storage node.
//!
//! The peer pipeline talks to a node through a small set of calls; a
//! `ScriptedNode` answers each of them from a fixed script (how many leading
//! attempts of each store call fail, which fetches fail, whether the
//! confirmation succeeds) and records how often it was called.  This lets
//! the retry and pipeline logic run — and be tested — without any I/O, with
//! every response a function of the script and the attempt number alone.

use vstd::prelude::*;
use crate::result::Epoch;
use crate::types::{
    BlobId,
    NodeError,
    SignedStorageConfirmation,
    Sliver,
    SliverType,
    VerifiedMetadata,
};

verus! {

/// The scripted failure budget of one sliver: how many leading store
/// attempts for `(pair index, axis)` fail before the first success.
/// Slivers without an entry always succeed; `u64::MAX` never succeeds
/// within any realistic retry budget.
pub open spec fn spec_sliver_failures(
    entries: Seq<(u16, SliverType, u64)>,
    pair_index: u16,
    sliver_type: SliverType,
) -> u64
    decreases entries.len(),
{
    if entries.len() == 0 {
        0
    } else if entries.first().0 == pair_index && entries.first().1 == sliver_type {
        entries.first().2
    } else {
        spec_sliver_failures(entries.drop_first(), pair_index, sliver_type)
    }
}

/// A scripted storage node: fixed behavior plus call counters.
pub struct ScriptedNode {
    /// Number of leading metadata-store attempts that fail.
    pub metadata_store_failures: u64,
    /// Failure budget per sliver, keyed by pair index and axis; the first
    /// matching entry governs, absent slivers always succeed.
    pub sliver_store_failures: Vec<(u16, SliverType, u64)>,
    /// Whether a metadata fetch succeeds.
    pub metadata_fetch_ok: bool,
    /// Sliver fetches that fail, keyed by pair index and axis.
    pub sliver_fetch_failures: Vec<(u16, SliverType)>,
    /// Whether the storage-confirmation request succeeds.
    pub confirmation_ok: bool,
    /// Number of metadata-store attempts received so far.
    pub metadata_store_attempts: u64,
    /// Number of sliver-store attempts received so far (saturating).
    pub sliver_store_attempts: u64,
}

impl ScriptedNode {
    /// A node whose script never fails anything.
    pub fn all_ok() -> (node: ScriptedNode)
        ensures
            node.metadata_store_failures == 0,
            node.sliver_store_failures@ =~= Seq::<(u16, SliverType, u64)>::empty(),
            node.metadata_fetch_ok,
            node.sliver_fetch_failures@ =~= Seq::<(u16, SliverType)>::empty(),
            node.confirmation_ok,
            node.metadata_store_attempts == 0,
            node.sliver_store_attempts == 0,
    {
        ScriptedNode {
            metadata_store_failures: 0,
            sliver_store_failures: Vec::new(),
            metadata_fetch_ok: true,
            sliver_fetch_failures: Vec::new(),
            confirmation_ok: true,
            metadata_store_attempts: 0,
            sliver_store_attempts: 0,
        }
    }

    /// The scripted behavior, without the call counters.  The pipeline
    /// never changes it.
    pub open spec fn same_script(self, other: ScriptedNode) -> bool {
        &&& self.metadata_store_failures == other.metadata_store_failures
        &&& self.sliver_store_failures@ == other.sliver_store_failures@
        &&& self.metadata_fetch_ok == other.metadata_fetch_ok
        &&& self.sliver_fetch_failures@ == other.sliver_fetch_failures@
        &&& self.confirmation_ok == other.confirmation_ok
    }

    /// Looks up the scripted failure budget of one sliver.
    pub fn sliver_failures(&self, pair_index: u16, sliver_type: SliverType) -> (failures: u64)
        ensures
            failures == spec_sliver_failures(
                self.sliver_store_failures@,
                pair_index,
                sliver_type,
            ),
    {
        let entries = &self.sliver_store_failures;
        let ghost full = entries@;
        let mut i: usize = 0;
        proof {
            assert(full.skip(0) =~= full);
        }
        while i < entries.len()
            invariant
                i <= entries.len(),
                entries@ == full,
                full == self.sliver_store_failures@,
                spec_sliver_failures(full, pair_index, sliver_type) == spec_sliver_failures(
                    full.skip(i as int),
                    pair_index,
                    sliver_type,
                ),
            decreases entries.len() - i,
        {
            let (p, t, f) = entries[i];
            proof {
                assert(full.skip(i as int).first() == full[i as int]);
                assert(full.skip(i as int).drop_first() =~= full.skip(i as int + 1));
            }
            if p == pair_index && t == sliver_type {
                return f;
            }
            i = i + 1;
        }
        proof {
            assert(full.skip(entries@.len() as int) =~= Seq::<(u16, SliverType, u64)>::empty());
        }
        0
    }

    /// One metadata-store attempt, numbered by `attempt`: succeeds iff the
    /// scripted failure budget is exhausted.
    pub fn store_metadata(&mut self, metadata: &VerifiedMetadata, attempt: u64) -> (r: Result<
        (),
        NodeError,
    >)
        requires
            old(self).metadata_store_attempts < u64::MAX,
        ensures
            final(self).same_script(*old(self)),
            final(self).metadata_store_attempts == old(self).metadata_store_attempts + 1,
            final(self).sliver_store_attempts == old(self).sliver_store_attempts,
            r is Ok <==> attempt >= old(self).metadata_store_failures,
    {
        self.metadata_store_attempts = self.metadata_store_attempts + 1;
        if attempt >= self.metadata_store_failures {
            Ok(())
        } else {
            Err(NodeError)
        }
    }

    /// One sliver-store attempt, numbered by `attempt`: succeeds iff the
    /// scripted failure budget of that sliver is exhausted.
    pub fn store_sliver(
        &mut self,
        blob_id: &BlobId,
        pair_index: u16,
        sliver_type: SliverType,
        sliver: &Sliver,
        attempt: u64,
    ) -> (r: Result<(), NodeError>)
        ensures
            final(self).same_script(*old(self)),
            final(self).metadata_store_attempts == old(self).metadata_store_attempts,
            final(self).sliver_store_attempts == if old(self).sliver_store_attempts < u64::MAX {
                old(self).sliver_store_attempts + 1
            } else {
                old(self).sliver_store_attempts as int
            },
            r is Ok <==> attempt >= spec_sliver_failures(
                old(self).sliver_store_failures@,
                pair_index,
                sliver_type,
            ),
    {
        if self.sliver_store_attempts < u64::MAX {
            self.sliver_store_attempts = self.sliver_store_attempts + 1;
        }
        let failures = self.sliver_failures(pair_index, sliver_type);
        if attempt >= failures {
            Ok(())
        } else {
            Err(NodeError)
        }
    }

    /// A metadata fetch: returns metadata verified against the requested
    /// blob identifier iff the script allows it.
    pub fn get_and_verify_metadata(&self, blob_id: &BlobId) -> (r: Result<
        VerifiedMetadata,
        NodeError,
    >)
        ensures
            r is Ok <==> self.metadata_fetch_ok,
            r matches Ok(m) ==> m.blob_id == *blob_id,
    {
        if self.metadata_fetch_ok {
            Ok(VerifiedMetadata { blob_id: *blob_id })
        } else {
            Err(NodeError)
        }
    }

    /// A sliver fetch for one pair index and axis: succeeds iff the script
    /// does not list that sliver as failing.
    pub fn get_and_verify_sliver(&self, pair_index: u16, sliver_type: SliverType) -> (r: Result<
        Sliver,
        NodeError,
    >)
        ensures
            r is Ok <==> !self.sliver_fetch_failures@.contains((pair_index, sliver_type)),
    {
        let entries = &self.sliver_fetch_failures;
        let ghost full = entries@;
        let mut i: usize = 0;
        while i < entries.len()
            invariant
                i <= entries.len(),
                entries@ == full,
                full == self.sliver_fetch_failures@,
                forall|j: int| 0 <= j < i ==> full[j] != (pair_index, sliver_type),
            decreases entries.len() - i,
        {
            let (p, t) = entries[i];
            if p == pair_index && t == sliver_type {
                assert(full.contains((pair_index, sliver_type)));
                return Err(NodeError);
            }
            i = i + 1;
        }
        Ok(Sliver { symbols: Vec::new() })
    }

    /// A storage-confirmation request: iff the script allows it, returns a
    /// confirmation bound to the requested blob, epoch and node key.
    pub fn get_and_verify_confirmation(
        &self,
        blob_id: &BlobId,
        epoch: Epoch,
        public_key: &Vec<u8>,
    ) -> (r: Result<SignedStorageConfirmation, NodeError>)
        ensures
            r is Ok <==> self.confirmation_ok,
            r matches Ok(c) ==> c.blob_id == *blob_id && c.epoch == epoch && c.signer_key@
                == public_key@,
    {
        if self.confirmation_ok {
            Ok(
                SignedStorageConfirmation {
                    blob_id: *blob_id,
                    epoch,
                    signer_key: clone_key(public_key),
                },
            )
        } else {
            Err(NodeError)
        }
    }
}

/// Copies a public key buffer.
fn clone_key(key: &Vec<u8>) -> (out: Vec<u8>)
    ensures
        out@ == key@,
{
    let mut out: Vec<u8> = Vec::new();
    let mut i: usize = 0;
    while i < key.len()
        invariant
            i <= key.len(),
            out@ == key@.take(i as int),
        decreases key.len() - i,
    {
        out.push(key[i]);
        proof {
            assert(key@.take(i + 1) =~= key@.take(i as int).push(key@[i as int]));
        }
        i = i + 1;
    }
    proof {
        assert(key@.take(key@.len() as int) =~= key@);
    }
    out
}

} // verus!
