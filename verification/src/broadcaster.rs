//! The protocol-transaction broadcaster: relays internally generated
//! transactions to the consensus engine's submission endpoint, in receipt
//! order, tolerating transient submission failures by retrying the head of
//! the queue; it runs only on validator nodes and stops only on the shared
//! shutdown signal.

use vstd::prelude::*;
use crate::shell::tx_views;

verus! {

/// The node's operating mode under the consensus engine.
#[derive(Clone, Copy, PartialEq, Eq, Structural, Debug)]
pub enum TendermintMode {
    Validator,
    Full,
    Seed,
}

/// Whether a real broadcaster runs, or the immediately-complete placeholder.
#[derive(Clone, Copy, PartialEq, Eq, Structural, Debug)]
pub enum BroadcasterPlan {
    Run,
    NoOp,
}

/// Only a validator node broadcasts protocol transactions.
pub fn plan_broadcaster(mode: TendermintMode) -> (p: BroadcasterPlan)
    ensures
        p == (if mode is Validator {
            BroadcasterPlan::Run
        } else {
            BroadcasterPlan::NoOp
        }),
{
    match mode {
        TendermintMode::Validator => BroadcasterPlan::Run,
        _ => BroadcasterPlan::NoOp,
    }
}

/// What one submission attempt against the engine's endpoint came to.
#[derive(Clone, Copy, PartialEq, Eq, Structural, Debug)]
pub enum SubmitOutcome {
    Delivered,
    /// Logged; the transaction stays at the head of the queue and is
    /// retried, so the broadcaster itself never terminates on it.
    TransientFailure,
}

/// The broadcaster's state: the pending queue, what has been submitted, and
/// — as ghost bookkeeping — everything received, in receipt order.
pub struct Broadcaster {
    pub queue: Vec<Vec<u8>>,
    pub submitted: Vec<Vec<u8>>,
    pub stopped: bool,
    pub received: Ghost<Seq<Seq<u8>>>,
}

impl Broadcaster {
    /// Everything received is either already submitted or still queued, in
    /// receipt order.
    pub open spec fn wf(self) -> bool {
        self.received@ == tx_views(self.submitted@) + tx_views(self.queue@)
    }

    pub fn new() -> (b: Broadcaster)
        ensures
            b.wf(),
            !b.stopped,
            b.queue@ == Seq::<Vec<u8>>::empty(),
            b.submitted@ == Seq::<Vec<u8>>::empty(),
            b.received@ == Seq::<Seq<u8>>::empty(),
    {
        let b = Broadcaster {
            queue: Vec::new(),
            submitted: Vec::new(),
            stopped: false,
            received: Ghost(Seq::empty()),
        };
        proof {
            assert(b.queue@ =~= Seq::<Vec<u8>>::empty());
            assert(b.submitted@ =~= Seq::<Vec<u8>>::empty());
            assert(b.wf()) by {
                assert(b.received@ =~= tx_views(b.submitted@) + tx_views(b.queue@));
            }
        }
        b
    }

    /// Accepts one outbound transaction; the stream is unbounded.
    pub fn enqueue(&mut self, tx: Vec<u8>)
        requires
            old(self).wf(),
        ensures
            final(self).wf(),
            final(self).queue@ == old(self).queue@.push(tx),
            final(self).submitted == old(self).submitted,
            final(self).stopped == old(self).stopped,
            final(self).received@ == old(self).received@.push(tx@),
    {
        let ghost tv = tx@;
        self.queue.push(tx);
        proof {
            self.received = Ghost(self.received@.push(tv));
            assert(self.wf()) by {
                assert(tx_views(self.queue@) =~= tx_views(old(self).queue@).push(tv));
                assert(self.received@ =~= tx_views(self.submitted@) + tx_views(self.queue@));
            }
        }
    }

    /// The transaction to submit next, if any: always the head of the queue.
    pub fn next_tx(&self) -> (r: Option<&Vec<u8>>)
        ensures
            match r {
                Some(tx) => self.queue@.len() > 0 && tx == self.queue@[0],
                None => self.queue@.len() == 0,
            },
    {
        if self.queue.len() == 0 {
            None
        } else {
            Some(&self.queue[0])
        }
    }

    /// Records the outcome of submitting the head of the queue: a delivery
    /// moves it to the submitted log; a transient failure leaves it in
    /// place to be retried, so order is never disturbed.
    pub fn on_submit_result(&mut self, outcome: SubmitOutcome)
        requires
            old(self).wf(),
            old(self).queue@.len() > 0,
        ensures
            final(self).wf(),
            final(self).stopped == old(self).stopped,
            final(self).received == old(self).received,
            match outcome {
                SubmitOutcome::Delivered => final(self).submitted@ == old(self).submitted@.push(
                    old(self).queue@[0],
                ) && final(self).queue@ == old(self).queue@.skip(1),
                SubmitOutcome::TransientFailure => final(self).submitted == old(self).submitted
                    && final(self).queue@ == old(self).queue@,
            },
    {
        match outcome {
            SubmitOutcome::Delivered => {
                let tx = self.queue.remove(0);
                proof {
                    assert(self.queue@ =~= old(self).queue@.skip(1));
                }
                self.submitted.push(tx);
                proof {
                    assert(self.wf()) by {
                        assert(tx_views(self.submitted@) =~= tx_views(old(self).submitted@).push(
                            old(self).queue@[0]@,
                        ));
                        assert(tx_views(old(self).queue@) =~= tx_views(old(self).queue@).take(
                            1,
                        ) + tx_views(self.queue@));
                        assert(tx_views(old(self).queue@).take(1) =~= seq![old(self).queue@[0]@]);
                        assert(tx_views(self.submitted@) + tx_views(self.queue@) =~= tx_views(old(self).submitted@) + tx_views(old(self).queue@));
                    }
                }
            }
            SubmitOutcome::TransientFailure => {}
        }
    }

    /// The shared shutdown signal: the only thing that stops the
    /// broadcaster.
    pub fn stop(&mut self)
        ensures
            final(self).stopped,
            final(self).queue == old(self).queue,
            final(self).submitted == old(self).submitted,
            final(self).received == old(self).received,
    {
        self.stopped = true;
    }
}

/// Order preservation: whatever submission outcomes occur, what has been
/// submitted is exactly the first transactions received, in receipt order.
pub proof fn lemma_submission_order(b: Broadcaster)
    requires
        b.wf(),
    ensures
        tx_views(b.submitted@) == b.received@.take(b.submitted@.len() as int),
{
    assert(tx_views(b.submitted@) =~= b.received@.take(b.submitted@.len() as int));
}

} // verus!
