//! The request-server façade's lanes: one inbound stream split into four
//! independently governed categories, each with its own backpressure.
//! Consensus traffic is never shed — block-processing correctness must not
//! be sacrificed for load — while mempool and introspection traffic may be,
//! to protect the critical path.

use vstd::prelude::*;
use crate::shims::Request;

verus! {

/// Fixed depth of the mempool lane's queue.
pub const MEMPOOL_LANE_DEPTH: usize = 1024;

/// Fixed depth of the info lane's queue.
pub const INFO_LANE_DEPTH: usize = 100;

/// Requests per second admitted on the info lane.
pub const INFO_RATE_LIMIT: u64 = 50;

/// The four request categories.
#[derive(Clone, Copy, PartialEq, Eq, Structural, Debug)]
pub enum Lane {
    Consensus,
    Mempool,
    Info,
    Snapshot,
}

/// Which lane a request travels.
pub fn lane_of(req: &Request) -> (l: Lane)
    ensures
        l == (match req {
            Request::InitChain(_) => Lane::Consensus,
            Request::PrepareProposal(_) => Lane::Consensus,
            Request::VerifyHeader => Lane::Consensus,
            Request::ProcessProposal(_) => Lane::Consensus,
            Request::RevertProposal => Lane::Consensus,
            Request::FinalizeBlock(_) => Lane::Consensus,
            Request::Commit => Lane::Consensus,
            Request::CheckTx(_) => Lane::Mempool,
            Request::Info => Lane::Info,
            Request::Query(_) => Lane::Info,
            Request::Echo(_) => Lane::Info,
            Request::Flush => Lane::Info,
            Request::ListSnapshots => Lane::Snapshot,
            Request::OfferSnapshot => Lane::Snapshot,
            Request::LoadSnapshotChunk => Lane::Snapshot,
            Request::ApplySnapshotChunk => Lane::Snapshot,
        }),
{
    match req {
        Request::InitChain(_)
        | Request::PrepareProposal(_)
        | Request::VerifyHeader
        | Request::ProcessProposal(_)
        | Request::RevertProposal
        | Request::FinalizeBlock(_)
        | Request::Commit => Lane::Consensus,
        Request::CheckTx(_) => Lane::Mempool,
        Request::Info | Request::Query(_) | Request::Echo(_) | Request::Flush => Lane::Info,
        Request::ListSnapshots
        | Request::OfferSnapshot
        | Request::LoadSnapshotChunk
        | Request::ApplySnapshotChunk => Lane::Snapshot,
    }
}

/// A lane's backpressure policy.
#[derive(Clone, Copy, PartialEq, Eq, Structural, Debug)]
pub struct LanePolicy {
    /// The queue bound, where the lane is bounded at all.
    pub depth: Option<usize>,
    /// Whether excess work may be shed with a load-shedding response.
    pub shed: bool,
    /// Whether a rate limit additionally applies.
    pub rate_limited: bool,
}

/// The differentiated policy table: every consensus request is processed,
/// mempool and info traffic may be shed, info traffic is also rate
/// limited, and snapshot requests are answered immediately with defaults,
/// needing no queue.
pub fn policy_for(lane: Lane) -> (p: LanePolicy)
    ensures
        p == (match lane {
            Lane::Consensus => LanePolicy { depth: None, shed: false, rate_limited: false },
            Lane::Mempool => LanePolicy {
                depth: Some(MEMPOOL_LANE_DEPTH),
                shed: true,
                rate_limited: false,
            },
            Lane::Info => LanePolicy {
                depth: Some(INFO_LANE_DEPTH),
                shed: true,
                rate_limited: true,
            },
            Lane::Snapshot => LanePolicy { depth: None, shed: false, rate_limited: false },
        }),
{
    match lane {
        Lane::Consensus => LanePolicy { depth: None, shed: false, rate_limited: false },
        Lane::Mempool => LanePolicy {
            depth: Some(MEMPOOL_LANE_DEPTH),
            shed: true,
            rate_limited: false,
        },
        Lane::Info => LanePolicy { depth: Some(INFO_LANE_DEPTH), shed: true, rate_limited: true },
        Lane::Snapshot => LanePolicy { depth: None, shed: false, rate_limited: false },
    }
}

/// Whether a request was taken, or shed with a load-shedding response.
#[derive(Clone, Copy, PartialEq, Eq, Structural, Debug)]
pub enum Admission {
    Admitted,
    Shed,
}

/// The façade's admission state: how much of each bounded queue is in use,
/// and the info lane's rate window.
pub struct Facade {
    pub mempool_depth: usize,
    pub info_depth: usize,
    /// The second the current rate window began.
    pub window_start: u64,
    /// Requests admitted on the info lane in the current window.
    pub info_in_window: u64,
}

impl Facade {
    pub fn new() -> (f: Facade)
        ensures
            f.mempool_depth == 0,
            f.info_depth == 0,
            f.window_start == 0,
            f.info_in_window == 0,
    {
        Facade { mempool_depth: 0, info_depth: 0, window_start: 0, info_in_window: 0 }
    }

    /// The consensus lane is unbounded and never sheds: correctness
    /// requires every request be processed.
    pub fn offer_consensus(&self) -> (r: Admission)
        ensures
            r == Admission::Admitted,
    {
        Admission::Admitted
    }

    /// Offers one mempool request: admitted while the bounded queue has
    /// room, shed — never silently dropped — once it is full.
    pub fn offer_mempool(&mut self) -> (r: Admission)
        ensures
            final(self).info_depth == old(self).info_depth,
            final(self).window_start == old(self).window_start,
            final(self).info_in_window == old(self).info_in_window,
            if old(self).mempool_depth < MEMPOOL_LANE_DEPTH {
                r == Admission::Admitted && final(self).mempool_depth == old(self).mempool_depth
                    + 1
            } else {
                r == Admission::Shed && final(self).mempool_depth == old(self).mempool_depth
            },
    {
        if self.mempool_depth < MEMPOOL_LANE_DEPTH {
            self.mempool_depth = self.mempool_depth + 1;
            Admission::Admitted
        } else {
            Admission::Shed
        }
    }

    /// One queued mempool request was handed to the dispatcher.
    pub fn mempool_done(&mut self)
        requires
            old(self).mempool_depth > 0,
        ensures
            final(self).mempool_depth == old(self).mempool_depth - 1,
            final(self).info_depth == old(self).info_depth,
            final(self).window_start == old(self).window_start,
            final(self).info_in_window == old(self).info_in_window,
    {
        self.mempool_depth = self.mempool_depth - 1;
    }

    /// Offers one info-lane request at time `now` (in seconds): a new
    /// second opens a fresh rate window; the request is admitted only if
    /// the bounded queue has room and the window's rate allowance is not
    /// yet spent.
    pub fn offer_info(&mut self, now: u64) -> (r: Admission)
        ensures
            final(self).mempool_depth == old(self).mempool_depth,
            final(self).window_start == (if now != old(self).window_start {
                now
            } else {
                old(self).window_start
            }),
            ({
                let in_window: u64 = if now != old(self).window_start {
                    0u64
                } else {
                    old(self).info_in_window
                };
                if old(self).info_depth < INFO_LANE_DEPTH && in_window < INFO_RATE_LIMIT {
                    r == Admission::Admitted && final(self).info_depth == old(self).info_depth + 1
                        && final(self).info_in_window == in_window + 1
                } else {
                    r == Admission::Shed && final(self).info_depth == old(self).info_depth
                        && final(self).info_in_window == in_window
                }
            }),
    {
        if now != self.window_start {
            self.window_start = now;
            self.info_in_window = 0;
        }
        if self.info_depth < INFO_LANE_DEPTH && self.info_in_window < INFO_RATE_LIMIT {
            self.info_depth = self.info_depth + 1;
            self.info_in_window = self.info_in_window + 1;
            Admission::Admitted
        } else {
            Admission::Shed
        }
    }

    /// One queued info-lane request was handed to the dispatcher.
    pub fn info_done(&mut self)
        requires
            old(self).info_depth > 0,
        ensures
            final(self).info_depth == old(self).info_depth - 1,
            final(self).mempool_depth == old(self).mempool_depth,
            final(self).window_start == old(self).window_start,
            final(self).info_in_window == old(self).info_in_window,
    {
        self.info_depth = self.info_depth - 1;
    }
}

} // verus!
