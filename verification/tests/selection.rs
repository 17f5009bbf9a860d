use walrus_comms::backoff::ExponentialBackoff;
use walrus_comms::cli::{choose_rpc_source, path_or_defaults_if_exist, RpcSource, DEFAULT_RPC_URL};
use walrus_comms::committee::{verify_committee, Committee, StorageNode};
use walrus_comms::limiter::{release_nested, try_acquire_nested, PermitGate};
use walrus_comms::types::ClientError;

fn node(shards: Vec<u16>) -> StorageNode {
    StorageNode {
        network_address: String::from("node.example.com:9185"),
        public_key: vec![0],
        shard_ids: shards,
    }
}

#[test]
fn explicit_path_wins() {
    let chosen = path_or_defaults_if_exist(
        &Some(String::from("explicit.yaml")),
        &vec![String::from("a.yaml"), String::from("b.yaml")],
        &vec![true, true],
    );
    assert_eq!(chosen, Some(String::from("explicit.yaml")));
}

#[test]
fn first_existing_default_is_chosen() {
    let defaults = vec![String::from("a.yaml"), String::from("b.yaml"), String::from("c.yaml")];
    let chosen = path_or_defaults_if_exist(&None, &defaults, &vec![false, true, true]);
    assert_eq!(chosen, Some(String::from("b.yaml")));
}

#[test]
fn no_existing_default_yields_none() {
    let defaults = vec![String::from("a.yaml"), String::from("b.yaml")];
    let chosen = path_or_defaults_if_exist(&None, &defaults, &vec![false, false]);
    assert_eq!(chosen, None);
}

#[test]
fn rpc_source_prefers_explicit_url() {
    let chosen = choose_rpc_source(Some(String::from("http://localhost:9000")), true, true);
    match chosen {
        Ok(RpcSource::ExplicitUrl(url)) => assert_eq!(url, "http://localhost:9000"),
        _ => panic!("expected the explicit URL"),
    }
}

#[test]
fn rpc_source_falls_back_in_order() {
    assert!(matches!(choose_rpc_source(None, true, false), Ok(RpcSource::WalletConfig)));
    assert!(matches!(choose_rpc_source(None, false, true), Ok(RpcSource::DefaultUrl)));
    assert!(matches!(
        choose_rpc_source(None, false, false),
        Err(ClientError::InvalidConfig)
    ));
    assert!(DEFAULT_RPC_URL.starts_with("https://"));
}

#[test]
fn committee_partition_is_checked() {
    let valid = Committee {
        epoch: 1,
        n_shards: 6,
        members: vec![node(vec![0, 3]), node(vec![1, 4]), node(vec![2, 5])],
    };
    assert!(verify_committee(&valid));

    let gap = Committee {
        epoch: 1,
        n_shards: 6,
        members: vec![node(vec![0, 3]), node(vec![1, 4]), node(vec![2])],
    };
    assert!(!verify_committee(&gap));

    let overlap = Committee {
        epoch: 1,
        n_shards: 6,
        members: vec![node(vec![0, 3]), node(vec![1, 3]), node(vec![2, 5])],
    };
    assert!(!verify_committee(&overlap));

    let out_of_range = Committee {
        epoch: 1,
        n_shards: 6,
        members: vec![node(vec![0, 3]), node(vec![1, 4]), node(vec![2, 6])],
    };
    assert!(!verify_committee(&out_of_range));

    let empty = Committee { epoch: 1, n_shards: 0, members: vec![] };
    assert!(!verify_committee(&empty));
}

#[test]
fn permits_stay_within_capacity() {
    let mut gate = PermitGate::new(2);
    assert_eq!(gate.available(), 2);
    assert!(gate.try_acquire());
    assert!(gate.try_acquire());
    assert!(!gate.try_acquire());
    assert_eq!(gate.available(), 0);
    gate.release();
    gate.release();
    assert_eq!(gate.available(), 2);
    assert_eq!(gate.capacity(), 2);
}

#[test]
fn nested_acquisition_takes_peer_permit_first() {
    let mut node_gate = PermitGate::new(1);
    let mut global_gate = PermitGate::new(1);
    assert!(try_acquire_nested(&mut node_gate, &mut global_gate));
    assert_eq!(node_gate.available(), 0);
    assert_eq!(global_gate.available(), 0);
    // Both gates saturated: nothing is granted and nothing leaks.
    assert!(!try_acquire_nested(&mut node_gate, &mut global_gate));
    assert_eq!(node_gate.available(), 0);
    assert_eq!(global_gate.available(), 0);
    release_nested(&mut node_gate, &mut global_gate);
    assert_eq!(node_gate.available(), 1);
    assert_eq!(global_gate.available(), 1);

    // A saturated global gate leaves the per-peer permit untouched.
    let mut busy_global = PermitGate::new(1);
    assert!(busy_global.try_acquire());
    assert!(!try_acquire_nested(&mut node_gate, &mut busy_global));
    assert_eq!(node_gate.available(), 1);
}

#[test]
fn backoff_delays_are_bounded_and_grow() {
    let mut backoff = ExponentialBackoff::new_with_seed(100, 10_000, 5, 0);
    let mut last: u64 = 0;
    for attempt in 0..10u32 {
        let delay = backoff.next_delay_ms();
        assert!(delay <= 10_000);
        // Base delay for this attempt, and the sampled jitter window.
        let base = ExponentialBackoff::base_delay_ms(100, 10_000, attempt as u64);
        assert!(delay >= base - base / 2);
        assert!(delay <= base);
        if ExponentialBackoff::base_delay_ms(100, 10_000, attempt as u64) < 10_000 {
            assert!(delay >= last || base == 10_000);
        }
        last = delay;
    }
}

#[test]
fn backoff_base_delay_doubles_to_the_cap() {
    assert_eq!(ExponentialBackoff::base_delay_ms(100, 10_000, 0), 100);
    assert_eq!(ExponentialBackoff::base_delay_ms(100, 10_000, 1), 200);
    assert_eq!(ExponentialBackoff::base_delay_ms(100, 10_000, 2), 400);
    assert_eq!(ExponentialBackoff::base_delay_ms(100, 10_000, 6), 6_400);
    assert_eq!(ExponentialBackoff::base_delay_ms(100, 10_000, 7), 10_000);
    assert_eq!(ExponentialBackoff::base_delay_ms(100, 10_000, 63), 10_000);
    assert_eq!(ExponentialBackoff::base_delay_ms(0, 10_000, 9), 0);
}

#[test]
fn backoff_is_reproducible_per_seed() {
    let mut a = ExponentialBackoff::new_with_seed(50, 5_000, 5, 42);
    let mut b = ExponentialBackoff::new_with_seed(50, 5_000, 5, 42);
    let mut c = ExponentialBackoff::new_with_seed(50, 5_000, 5, 43);
    let delays_a: Vec<u64> = (0..8).map(|_| a.next_delay_ms()).collect();
    let delays_b: Vec<u64> = (0..8).map(|_| b.next_delay_ms()).collect();
    let delays_c: Vec<u64> = (0..8).map(|_| c.next_delay_ms()).collect();
    assert_eq!(delays_a, delays_b);
    assert_ne!(delays_a, delays_c);
}
