use walrus_comms::aggregate::{QuorumAggregator, QuorumDecision};
use walrus_comms::bft::{max_n_faulty, min_n_correct, quorum_threshold};

#[test]
fn bft_thresholds_for_small_counts() {
    assert_eq!(max_n_faulty(1), 0);
    assert_eq!(quorum_threshold(1), 1);
    assert_eq!(min_n_correct(1), 1);

    assert_eq!(max_n_faulty(4), 1);
    assert_eq!(quorum_threshold(4), 3);
    assert_eq!(min_n_correct(4), 3);

    assert_eq!(max_n_faulty(10), 3);
    assert_eq!(quorum_threshold(10), 7);
    assert_eq!(min_n_correct(10), 7);

    assert_eq!(max_n_faulty(1000), 333);
    assert_eq!(quorum_threshold(1000), 667);
    assert_eq!(min_n_correct(1000), 667);
}

#[test]
fn bft_quorum_never_exceeds_shards() {
    for n in 1..=2000u16 {
        let f = max_n_faulty(n);
        let q = quorum_threshold(n);
        assert_eq!(f, (n - 1) / 3);
        assert_eq!(q, 2 * f + 1);
        assert!(q <= n);
        assert!(min_n_correct(n) >= q);
    }
}

#[test]
fn aggregator_at_quorum_minus_one_is_not_success() {
    // quorum for 10 shards is 7.
    let mut agg = QuorumAggregator::new(10);
    agg.observe(6, true);
    assert_eq!(agg.decision(), QuorumDecision::Pending);
    agg.observe(3, false);
    // 6 successes, 1 still pending: 6 + 1 >= 7, so the round is still open.
    assert_eq!(agg.decision(), QuorumDecision::Pending);
    agg.observe(1, false);
    // 6 successes and nothing pending: quorum is out of reach.
    assert_eq!(agg.decision(), QuorumDecision::Failure);
}

#[test]
fn aggregator_reaching_quorum_is_success() {
    let mut agg = QuorumAggregator::new(10);
    agg.observe(4, true);
    agg.observe(3, true);
    assert_eq!(agg.decision(), QuorumDecision::Success);
}

#[test]
fn aggregator_is_order_insensitive() {
    let outcomes = vec![(2usize, true), (3usize, false), (4usize, true), (1usize, true)];
    let mut forward = QuorumAggregator::new(10);
    forward.observe_all(&outcomes);

    let mut reversed_outcomes = outcomes.clone();
    reversed_outcomes.reverse();
    let mut backward = QuorumAggregator::new(10);
    backward.observe_all(&reversed_outcomes);

    assert_eq!(forward.success_weight, backward.success_weight);
    assert_eq!(forward.pending_weight, backward.pending_weight);
    assert_eq!(forward.decision(), backward.decision());
    assert_eq!(forward.decision(), QuorumDecision::Success);
}

#[test]
fn evenly_split_committee_scenario() {
    // 10 shards over 5 nodes with 2 shards each: f = 3, quorum = 7.
    assert_eq!(max_n_faulty(10), 3);
    assert_eq!(quorum_threshold(10), 7);

    // 4 nodes (8 shards) succeed: success.
    let mut agg = QuorumAggregator::new(10);
    for _ in 0..4 {
        agg.observe(2, true);
    }
    assert_eq!(agg.decision(), QuorumDecision::Success);

    // Only 3 nodes (6 shards) succeed, 2 nodes (4 shards) failed:
    // 6 < 7 with no pending weight left, so failure.
    let mut agg = QuorumAggregator::new(10);
    for _ in 0..3 {
        agg.observe(2, true);
    }
    for _ in 0..2 {
        agg.observe(2, false);
    }
    assert_eq!(agg.decision(), QuorumDecision::Failure);
}
