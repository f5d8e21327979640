//! The broadcaster: validator-only, in-order submission, retry on
//! transient failure.

use ledger_node::broadcaster::{
    Broadcaster, BroadcasterPlan, SubmitOutcome, TendermintMode, plan_broadcaster,
};

#[test]
fn test_only_validators_broadcast() {
    assert_eq!(plan_broadcaster(TendermintMode::Validator), BroadcasterPlan::Run);
    assert_eq!(plan_broadcaster(TendermintMode::Full), BroadcasterPlan::NoOp);
    assert_eq!(plan_broadcaster(TendermintMode::Seed), BroadcasterPlan::NoOp);
}

#[test]
fn test_submission_order_survives_transient_failure() {
    let mut b = Broadcaster::new();
    let t1 = b"t1".to_vec();
    let t2 = b"t2".to_vec();
    let t3 = b"t3".to_vec();
    b.enqueue(t1.clone());
    b.enqueue(t2.clone());
    b.enqueue(t3.clone());

    assert_eq!(b.next_tx(), Some(&t1));
    b.on_submit_result(SubmitOutcome::Delivered);

    // t2's first attempt fails transiently: it stays at the head and is
    // retried; the broadcaster does not terminate
    assert_eq!(b.next_tx(), Some(&t2));
    b.on_submit_result(SubmitOutcome::TransientFailure);
    assert_eq!(b.next_tx(), Some(&t2));
    b.on_submit_result(SubmitOutcome::Delivered);

    assert_eq!(b.next_tx(), Some(&t3));
    b.on_submit_result(SubmitOutcome::Delivered);
    assert_eq!(b.next_tx(), None);

    // submitted exactly in receipt order
    assert_eq!(b.submitted, vec![t1, t2, t3]);
}

#[test]
fn test_broadcaster_stops_only_on_signal() {
    let mut b = Broadcaster::new();
    b.enqueue(b"x".to_vec());
    assert!(!b.stopped);
    b.stop();
    assert!(b.stopped);
    // what was already submitted and queued is untouched by the signal
    assert_eq!(b.queue, vec![b"x".to_vec()]);
}
