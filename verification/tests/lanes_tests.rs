//! The request-server lanes and their differentiated backpressure.

use ledger_node::lanes::{
    Admission, Facade, Lane, lane_of, policy_for, INFO_LANE_DEPTH, INFO_RATE_LIMIT,
    MEMPOOL_LANE_DEPTH,
};
use ledger_node::shims::{CheckTxRequest, QueryRequest, Request};

#[test]
fn test_mempool_lane_sheds_only_the_overflow() {
    let mut f = Facade::new();
    // 1025 concurrent admission checks against a lane of depth 1024:
    // the first 1024 are all admitted, the 1025th is shed
    let mut admitted = 0;
    let mut shed = 0;
    for _ in 0..(MEMPOOL_LANE_DEPTH + 1) {
        match f.offer_mempool() {
            Admission::Admitted => admitted += 1,
            Admission::Shed => shed += 1,
        }
    }
    assert_eq!(admitted, 1024);
    assert_eq!(shed, 1);
    // as soon as one request is handed on, there is room again
    f.mempool_done();
    assert!(matches!(f.offer_mempool(), Admission::Admitted));
}

#[test]
fn test_consensus_lane_never_sheds() {
    let f = Facade::new();
    for _ in 0..2000 {
        assert!(matches!(f.offer_consensus(), Admission::Admitted));
    }
}

#[test]
fn test_info_lane_rate_limit() {
    let mut f = Facade::new();
    let now = 100;
    let mut admitted = 0;
    for _ in 0..INFO_RATE_LIMIT + 10 {
        if matches!(f.offer_info(now), Admission::Admitted) {
            admitted += 1;
        }
    }
    assert_eq!(admitted as u64, INFO_RATE_LIMIT);
    // the next second opens a fresh allowance
    assert!(matches!(f.offer_info(now + 1), Admission::Admitted));
}

#[test]
fn test_info_lane_depth_bound() {
    let mut f = Facade::new();
    let mut admitted = 0;
    // spread over seconds so only the queue bound binds
    for s in 0..4u64 {
        for _ in 0..INFO_RATE_LIMIT {
            if matches!(f.offer_info(s), Admission::Admitted) {
                admitted += 1;
            }
        }
    }
    assert_eq!(admitted, INFO_LANE_DEPTH);
}

#[test]
fn test_lane_classification() {
    assert_eq!(lane_of(&Request::Commit), Lane::Consensus);
    assert_eq!(lane_of(&Request::VerifyHeader), Lane::Consensus);
    assert_eq!(
        lane_of(&Request::CheckTx(CheckTxRequest { tx: vec![1], kind: 0 })),
        Lane::Mempool
    );
    assert_eq!(lane_of(&Request::Info), Lane::Info);
    assert_eq!(lane_of(&Request::Query(QueryRequest { key: vec![] })), Lane::Info);
    assert_eq!(lane_of(&Request::Flush), Lane::Info);
    assert_eq!(lane_of(&Request::ListSnapshots), Lane::Snapshot);
    assert_eq!(lane_of(&Request::ApplySnapshotChunk), Lane::Snapshot);
}

#[test]
fn test_policy_table() {
    let consensus = policy_for(Lane::Consensus);
    assert_eq!(consensus.depth, None);
    assert!(!consensus.shed);
    let mempool = policy_for(Lane::Mempool);
    assert_eq!(mempool.depth, Some(1024));
    assert!(mempool.shed);
    assert!(!mempool.rate_limited);
    let info = policy_for(Lane::Info);
    assert_eq!(info.depth, Some(100));
    assert!(info.shed);
    assert!(info.rate_limited);
    let snapshot = policy_for(Lane::Snapshot);
    assert!(!snapshot.shed);
}
