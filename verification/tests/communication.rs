use walrus_comms::committee::StorageNode;
use walrus_comms::limiter::PermitGate;
use walrus_comms::peer::NodeCommunication;
use walrus_comms::script::ScriptedNode;
use walrus_comms::types::{
    shard_to_pair_index, BlobId, ClientError, RequestRateConfig, Sliver, SliverPair, SliverType,
    StoreError, VerifiedMetadata,
};

fn test_config() -> RequestRateConfig {
    RequestRateConfig {
        max_node_connections: 2,
        min_backoff_ms: 10,
        max_backoff_ms: 1_000,
        max_retries: 3,
    }
}

fn test_node(shards: Vec<u16>) -> StorageNode {
    StorageNode {
        network_address: String::from("node0.example.com:9185"),
        public_key: vec![1, 2, 3, 4],
        shard_ids: shards,
    }
}

fn test_client(shards: Vec<u16>) -> NodeCommunication {
    NodeCommunication::new(0, 7, test_node(shards), 10, test_config()).unwrap()
}

fn empty_pair(index: u16) -> SliverPair {
    SliverPair {
        index,
        primary: Sliver { symbols: vec![] },
        secondary: Sliver { symbols: vec![] },
    }
}

#[test]
fn construction_fails_iff_no_owned_shards() {
    let ok = NodeCommunication::new(0, 7, test_node(vec![0, 1]), 10, test_config());
    assert!(ok.is_ok());

    let empty = NodeCommunication::new(0, 7, test_node(vec![]), 10, test_config());
    assert!(matches!(empty, Err(ClientError::InvalidConfig)));
}

#[test]
fn metadata_retrieval_weights_full_shard_set() {
    let client = test_client(vec![0, 1, 2]);
    let peer = ScriptedNode::all_ok();
    let result = client.retrieve_verified_metadata(&peer, &BlobId(42));
    assert_eq!(result.0, 7);
    assert_eq!(result.weight(), 3);
    assert_eq!(result.2, 0);
    let metadata = result.take_inner_result().unwrap();
    assert_eq!(metadata.blob_id, BlobId(42));
}

#[test]
fn metadata_retrieval_reports_a_miss() {
    let client = test_client(vec![0, 1, 2]);
    let mut peer = ScriptedNode::all_ok();
    peer.metadata_fetch_ok = false;
    let result = client.retrieve_verified_metadata(&peer, &BlobId(42));
    assert!(result.inner_result().is_err());
    assert_eq!(result.weight(), 3);
}

#[test]
fn sliver_retrieval_has_weight_one() {
    let client = test_client(vec![0, 1]);
    let peer = ScriptedNode::all_ok();
    let metadata = VerifiedMetadata { blob_id: BlobId(0) };
    let result = client.retrieve_verified_sliver(&peer, &metadata, 4, SliverType::Primary);
    assert_eq!(result.weight(), 1);
    assert!(result.inner_result().is_ok());
}

#[test]
fn store_succeeds_on_cooperative_peer() {
    let mut client = test_client(vec![0, 1]);
    let mut peer = ScriptedNode::all_ok();
    let mut global = PermitGate::new(8);
    let metadata = VerifiedMetadata { blob_id: BlobId(9) };
    let pairs = vec![empty_pair(0), empty_pair(1)];

    let result = client.store_metadata_and_pairs(&mut peer, &mut global, &metadata, &pairs);
    assert_eq!(result.weight(), 2);
    let confirmation = result.take_inner_result().unwrap();
    assert_eq!(confirmation.blob_id, BlobId(9));
    assert_eq!(confirmation.epoch, 7);
    assert_eq!(confirmation.signer_key, vec![1, 2, 3, 4]);
    // One metadata attempt, four sliver attempts, permits all returned.
    assert_eq!(peer.metadata_store_attempts, 1);
    assert_eq!(peer.sliver_store_attempts, 4);
    assert_eq!(global.available(), 8);
}

#[test]
fn transient_failures_are_retried_to_success() {
    let mut client = test_client(vec![0, 1]);
    let mut peer = ScriptedNode::all_ok();
    // Fail the first two metadata attempts and the first three attempts of
    // one sliver; the budget of three retries absorbs both.
    peer.metadata_store_failures = 2;
    peer.sliver_store_failures = vec![(1, SliverType::Primary, 3)];
    let mut global = PermitGate::new(8);
    let metadata = VerifiedMetadata { blob_id: BlobId(9) };
    let pairs = vec![empty_pair(0), empty_pair(1)];

    let result = client.store_metadata_and_pairs(&mut peer, &mut global, &metadata, &pairs);
    assert!(result.inner_result().is_ok());
    assert_eq!(peer.metadata_store_attempts, 3);
    assert_eq!(peer.sliver_store_attempts, 7);
}

#[test]
fn metadata_store_that_always_fails_never_touches_slivers() {
    let mut client = test_client(vec![0, 1]);
    let mut peer = ScriptedNode::all_ok();
    peer.metadata_store_failures = u64::MAX;
    let mut global = PermitGate::new(8);
    let metadata = VerifiedMetadata { blob_id: BlobId(9) };
    let pairs = vec![empty_pair(0), empty_pair(1)];

    let result = client.store_metadata_and_pairs(&mut peer, &mut global, &metadata, &pairs);
    assert!(matches!(result.inner_result(), Err(StoreError::Metadata(_))));
    // max_retries = 3, so exactly four attempts, and no sliver was tried.
    assert_eq!(peer.metadata_store_attempts, 4);
    assert_eq!(peer.sliver_store_attempts, 0);
    assert_eq!(global.available(), 8);
}

#[test]
fn single_failing_sliver_is_identified() {
    let mut client = test_client(vec![0, 1]);
    let mut peer = ScriptedNode::all_ok();
    peer.sliver_store_failures = vec![(3, SliverType::Secondary, u64::MAX)];
    let mut global = PermitGate::new(8);
    let metadata = VerifiedMetadata { blob_id: BlobId(9) };
    let pairs = vec![empty_pair(0), empty_pair(3), empty_pair(5)];

    let result = client.store_metadata_and_pairs(&mut peer, &mut global, &metadata, &pairs);
    match result.take_inner_result() {
        Err(StoreError::Sliver(e)) => {
            assert_eq!(e.pair_index, 3);
            assert_eq!(e.sliver_type, SliverType::Secondary);
        },
        other => panic!("expected a sliver store error, got {:?}", other.map(|_| ())),
    }
    assert_eq!(global.available(), 8);
}

#[test]
fn confirmation_failure_ends_the_pipeline() {
    let mut client = test_client(vec![0, 1]);
    let mut peer = ScriptedNode::all_ok();
    peer.confirmation_ok = false;
    let mut global = PermitGate::new(8);
    let metadata = VerifiedMetadata { blob_id: BlobId(9) };
    let pairs = vec![empty_pair(0)];

    let result = client.store_metadata_and_pairs(&mut peer, &mut global, &metadata, &pairs);
    assert!(matches!(result.inner_result(), Err(StoreError::Confirmation(_))));
}

#[test]
fn shard_index_is_rotated_by_the_blob() {
    assert_eq!(shard_to_pair_index(4, 10, &BlobId(0)), 4);
    assert_eq!(shard_to_pair_index(4, 10, &BlobId(3)), 1);
    assert_eq!(shard_to_pair_index(0, 10, &BlobId(3)), 7);
    assert_eq!(shard_to_pair_index(9, 10, &BlobId(13)), 6);
}

#[test]
fn sliver_retrieval_reports_a_failing_sliver() {
    let client = test_client(vec![0, 1]);
    let mut peer = ScriptedNode::all_ok();
    // Blob 0 maps shard 4 to pair index 4; its secondary sliver fails.
    peer.sliver_fetch_failures = vec![(4, SliverType::Secondary)];
    let metadata = VerifiedMetadata { blob_id: BlobId(0) };
    let failing = client.retrieve_verified_sliver(&peer, &metadata, 4, SliverType::Secondary);
    assert!(failing.inner_result().is_err());
    let fine = client.retrieve_verified_sliver(&peer, &metadata, 4, SliverType::Primary);
    assert!(fine.inner_result().is_ok());
}
