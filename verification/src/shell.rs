//! The application dispatcher: a deterministic state machine that consumes
//! one consensus-engine request at a time and produces exactly one response
//! per request.
//!
//! Block finalization first loads the governance proposals whose stored
//! commit epoch equals the last committed epoch into the pending set, and
//! only then applies the block's transactions; the instrumentation trace
//! records that order. Commit then moves the finalized working block into
//! committed state in one step.

use vstd::prelude::*;
use crate::shims::{
    ApplySnapshotChunkResponse, CheckTxRequest, CheckTxResponse, CommitResponse, EchoResponse,
    FinalizeBlockRequest, FinalizeBlockResponse, FlushResponse, InfoResponse, InitChainRequest,
    InitChainResponse, ListSnapshotsResponse, LoadSnapshotChunkResponse, OfferSnapshotResponse,
    PrepareProposalRequest, PrepareProposalResponse, ProcessProposalRequest,
    ProcessProposalResponse, QueryRequest, QueryResponse, Request, Response,
    RevertProposalResponse, VerifyHeaderResponse,
};
use crate::storage::{key_listed, key_of_some_proposal, proposal_key_spec, epoch_prefix,
    epoch_prefix_spec, parse_proposal_key, Entry, Storage};

verus! {

/// Application version reported by Info.
pub const APP_VERSION: u64 = 1;

/// Upper bound on the size of a single transaction admitted to a block.
pub const MAX_TX_BYTES: usize = 1048576;

/// Mempool admission distinguishes a first-time check from a recheck of an
/// already-pooled transaction.
#[derive(Clone, Copy, PartialEq, Eq, Structural, Debug)]
pub enum MempoolTxType {
    NewTransaction,
    RecheckTransaction,
}

/// One observable step of block processing, recorded in arrival order.
#[derive(Clone, Copy, PartialEq, Eq, Structural, Debug)]
pub enum Step {
    LoadProposals,
    ApplyTx,
}

/// Counters of which mempool validation path ran.
#[derive(Clone, Copy, PartialEq, Eq, Structural, Debug)]
pub struct MempoolStats {
    pub new_validations: u64,
    pub recheck_validations: u64,
}

/// A finalized, not yet committed block.
pub struct WorkingBlock {
    pub height: u64,
    pub epoch: u64,
    pub applied: Vec<Vec<u8>>,
}

/// Fatal dispatcher errors; each aborts processing of its request and is
/// surfaced to the consensus engine.
pub enum Error {
    /// The genesis handed to chain initialization was malformed.
    InitChain,
}

/// A transaction a block may carry: non-empty and within the size bound.
pub open spec fn tx_well_sized(tx: Seq<u8>) -> bool {
    0 < tx.len() <= MAX_TX_BYTES
}

/// The views of a list of transactions.
pub open spec fn tx_views(txs: Seq<Vec<u8>>) -> Seq<Seq<u8>> {
    txs.map_values(|t: Vec<u8>| t@)
}

/// Proposal selection: keep exactly the well-sized transactions, in order.
pub open spec fn select_txs(txs: Seq<Seq<u8>>) -> Seq<Seq<u8>>
    decreases txs.len(),
{
    if txs.len() == 0 {
        Seq::empty()
    } else if tx_well_sized(txs.last()) {
        select_txs(txs.drop_last()).push(txs.last())
    } else {
        select_txs(txs.drop_last())
    }
}

/// Committed-state lookup: the value of the latest entry written under
/// `key`, if any.
pub open spec fn lookup_spec(entries: Seq<Entry>, key: Seq<u8>) -> Option<Seq<u8>>
    decreases entries.len(),
{
    if entries.len() == 0 {
        None
    } else if entries.last().key@ == key {
        Some(entries.last().value@)
    } else {
        lookup_spec(entries.drop_last(), key)
    }
}

/// One mixing step of the running application hash.
pub open spec fn mix(h: u64, tx: Seq<u8>) -> u64 {
    h.wrapping_mul(31).wrapping_add(tx.len() as u64)
}

/// The application hash after applying `txs` on top of hash `h`.
pub open spec fn chain_hash(h: u64, txs: Seq<Seq<u8>>) -> u64
    decreases txs.len(),
{
    if txs.len() == 0 {
        h
    } else {
        mix(chain_hash(h, txs.drop_last()), txs.last())
    }
}

/// Byte-for-byte equality of two byte vectors.
pub fn bytes_eq(a: &Vec<u8>, b: &Vec<u8>) -> (r: bool)
    ensures
        r == (a@ == b@),
{
    if a.len() != b.len() {
        return false;
    }
    let mut i: usize = 0;
    while i < a.len()
        invariant
            0 <= i <= a@.len(),
            a@.len() == b@.len(),
            forall|j: int| 0 <= j < i ==> a@[j] == b@[j],
        decreases a@.len() - i,
    {
        if a[i] != b[i] {
            return false;
        }
        i = i + 1;
    }
    proof {
        assert(a@ =~= b@);
    }
    true
}

/// A fresh copy of a byte vector.
pub fn copy_bytes(v: &Vec<u8>) -> (r: Vec<u8>)
    ensures
        r@ == v@,
{
    let mut r: Vec<u8> = Vec::new();
    let mut i: usize = 0;
    while i < v.len()
        invariant
            0 <= i <= v@.len(),
            r@ == v@.take(i as int),
        decreases v@.len() - i,
    {
        r.push(v[i]);
        proof {
            assert(v@.take(i + 1) =~= v@.take(i as int).push(v@[i as int]));
        }
        i = i + 1;
    }
    proof {
        assert(v@.take(v@.len() as int) =~= v@);
    }
    r
}

/// Whether `x` occurs in `v`.
pub fn contains_u64(v: &Vec<u64>, x: u64) -> (r: bool)
    ensures
        r == v@.contains(x),
{
    let mut i: usize = 0;
    while i < v.len()
        invariant
            0 <= i <= v@.len(),
            forall|j: int| 0 <= j < i ==> v@[j] != x,
        decreases v@.len() - i,
    {
        if v[i] == x {
            return true;
        }
        i = i + 1;
    }
    false
}

/// The deterministic request dispatcher. It exclusively owns the chain
/// state; every mutation happens inside request handling.
pub struct Shell {
    pub chain_id: Vec<u8>,
    pub storage: Storage,
    /// Pending governance proposal ids collected for the current epoch.
    pub proposal_data: Vec<u64>,
    /// The finalized block awaiting commit, if any.
    pub working: Option<WorkingBlock>,
    pub stats: MempoolStats,
    /// Instrumentation: the order of observable block-processing steps.
    pub trace: Vec<Step>,
}

impl Shell {
    /// The just-constructed state: nothing committed, nothing pending.
    pub open spec fn is_initial(self) -> bool {
        &&& self.chain_id@ == Seq::<u8>::empty()
        &&& self.storage.last_epoch == 0
        &&& self.storage.last_height == 0
        &&& self.storage.last_app_hash == 0
        &&& self.storage.proposals@ == Seq::<crate::storage::Proposal>::empty()
        &&& self.storage.entries@ == Seq::<Entry>::empty()
        &&& self.proposal_data@ == Seq::<u64>::empty()
        &&& self.working is None
        &&& self.stats == (MempoolStats { new_validations: 0, recheck_validations: 0 })
        &&& self.trace@ == Seq::<Step>::empty()
    }

    pub fn new() -> (s: Shell)
        ensures
            s.is_initial(),
    {
        let s = Shell {
            chain_id: Vec::new(),
            storage: Storage::new(),
            proposal_data: Vec::new(),
            working: None,
            stats: MempoolStats { new_validations: 0, recheck_validations: 0 },
            trace: Vec::new(),
        };
        proof {
            assert(s.chain_id@ =~= Seq::<u8>::empty());
            assert(s.proposal_data@ =~= Seq::<u64>::empty());
            assert(s.trace@ =~= Seq::<Step>::empty());
        }
        s
    }

    /// Loads into the pending set the id of every stored proposal whose
    /// commit epoch equals the last committed epoch — exactly those, even
    /// though the underlying prefix scan also surfaces every proposal whose
    /// decimal epoch merely begins with the current epoch's digits.
    pub fn load_proposals(&mut self)
        ensures
            final(self).chain_id == old(self).chain_id,
            final(self).storage == old(self).storage,
            final(self).working == old(self).working,
            final(self).stats == old(self).stats,
            final(self).trace@ == old(self).trace@.push(Step::LoadProposals),
            forall|id: u64|
                final(self).proposal_data@.contains(id) <==> (old(self).proposal_data@.contains(
                    id,
                ) || old(self).storage.has_proposal(old(self).storage.last_epoch, id)),
    {
        self.trace.push(Step::LoadProposals);
        let ghost e_now = self.storage.last_epoch;
        let prefix = epoch_prefix(self.storage.last_epoch);
        let keys = self.storage.iter_prefix(&prefix);
        let mut j: usize = 0;
        while j < keys.len()
            invariant
                0 <= j <= keys@.len(),
                e_now == old(self).storage.last_epoch,
                self.chain_id == old(self).chain_id,
                self.storage == old(self).storage,
                self.working == old(self).working,
                self.stats == old(self).stats,
                self.trace@ == old(self).trace@.push(Step::LoadProposals),
                // keys returned by the scan, as iter_prefix promises
                forall|jp: int|
                    0 <= jp < keys@.len() ==> key_of_some_proposal(
                        self.storage.proposals@,
                        (#[trigger] keys@[jp])@,
                    ),
                // the pending set only grows
                forall|id: u64|
                    old(self).proposal_data@.contains(id)
                        ==> self.proposal_data@.contains(id),
                // nothing foreign enters the pending set
                forall|id: u64|
                    self.proposal_data@.contains(id) ==> old(self).proposal_data@.contains(id)
                        || old(self).storage.has_proposal(e_now, id),
                // every processed key with the current epoch has been taken
                forall|jp: int, e: u64, i: u64|
                    #![trigger keys@[jp], proposal_key_spec(e, i)]
                    0 <= jp < j && keys@[jp]@ == proposal_key_spec(e, i) && e == e_now
                        ==> self.proposal_data@.contains(i),
            decreases keys@.len() - j,
        {
            let ghost pd_before = self.proposal_data@;
            let parsed = parse_proposal_key(&keys[j]);
            match parsed {
                Some((e, id)) => {
                    if e == self.storage.last_epoch {
                        if !contains_u64(&self.proposal_data, id) {
                            self.proposal_data.push(id);
                            proof {
                                assert(self.proposal_data@[pd_before.len() as int] == id);
                            }
                        }
                        proof {
                            assert(self.proposal_data@.contains(id));
                            // the key came from a stored proposal, whose
                            // epoch and id the parse recovered exactly
                            let t = choose|t: int|
                                0 <= t < self.storage.proposals@.len() && (keys@[j as int])@
                                    == proposal_key_spec(
                                    (#[trigger] self.storage.proposals@[t]).epoch,
                                    self.storage.proposals@[t].id,
                                );
                            assert(parsed == Some(
                                (
                                    self.storage.proposals@[t].epoch,
                                    self.storage.proposals@[t].id,
                                ),
                            ));
                            assert(self.storage.proposals@[t].epoch == e_now
                                && self.storage.proposals@[t].id == id);
                            assert(old(self).storage.has_proposal(e_now, id));
                        }
                    }
                }
                None => {}
            }
            proof {
                assert forall|x: u64| pd_before.contains(x) implies self.proposal_data@.contains(
                    x,
                ) by {
                    let ix = choose|ix: int| 0 <= ix < pd_before.len() && pd_before[ix] == x;
                    assert(self.proposal_data@[ix] == x);
                }
                assert forall|x: u64| self.proposal_data@.contains(x) implies pd_before.contains(x)
                    || old(self).proposal_data@.contains(x) || old(self).storage.has_proposal(
                    e_now,
                    x,
                ) by {
                    let ix = choose|ix: int|
                        0 <= ix < self.proposal_data@.len() && self.proposal_data@[ix] == x;
                    if ix < pd_before.len() {
                        assert(pd_before[ix] == x);
                    }
                }
                assert forall|jp: int, e: u64, i: u64|
                    #![trigger keys@[jp], proposal_key_spec(e, i)]
                    0 <= jp < j + 1 && keys@[jp]@ == proposal_key_spec(e, i) && e == e_now
                        implies self.proposal_data@.contains(i) by {
                    if jp < j {
                        assert(pd_before.contains(i));
                        let ix = choose|ix: int| 0 <= ix < pd_before.len() && pd_before[ix] == i;
                        assert(self.proposal_data@[ix] == i);
                    } else {
                        // this is the key just processed: the parse returned
                        // exactly (e, i), so the insert above took it
                        assert(parsed == Some((e, i)));
                    }
                }
            }
            j = j + 1;
        }
        proof {
            assert forall|id: u64|
                old(self).storage.has_proposal(e_now, id) implies self.proposal_data@.contains(
                id,
            ) by {
                let t = choose|t: int|
                    0 <= t < old(self).storage.proposals@.len() && (#[trigger] old(self).storage.proposals@[t]).epoch == e_now && old(self).storage.proposals@[t].id
                        == id;
                assert(epoch_prefix_spec(e_now).is_prefix_of(proposal_key_spec(e_now, id))) by {
                    assert(proposal_key_spec(e_now, id).subrange(
                        0,
                        epoch_prefix_spec(e_now).len() as int,
                    ) =~= epoch_prefix_spec(e_now));
                }
                assert(key_listed(keys@, proposal_key_spec(e_now, id)));
                let j0 = choose|j0: int|
                    0 <= j0 < keys@.len() && (#[trigger] keys@[j0])@ == proposal_key_spec(
                        e_now,
                        id,
                    );
                assert(keys@[j0]@ == proposal_key_spec(e_now, id) && e_now == e_now);
            }
        }
    }

    /// Chain initialization from genesis; fails fatally on a malformed
    /// genesis and is the only request that may do so.
    pub fn init_chain(&mut self, req: InitChainRequest) -> (r: Result<InitChainResponse, Error>)
        ensures
            match r {
                Ok(_) => req.well_formed() && final(self).chain_id == req.chain_id && final(self).storage == old(self).storage && final(self).proposal_data == old(self).proposal_data && final(self).working == old(self).working && final(self).stats
                    == old(self).stats && final(self).trace == old(self).trace,
                Err(e) => !req.well_formed() && e == Error::InitChain && *final(self) == *old(self),
            },
    {
        if req.chain_id.len() == 0 || req.validators == 0 {
            return Err(Error::InitChain);
        }
        self.chain_id = req.chain_id;
        Ok(InitChainResponse {})
    }

    /// The committed state summary reported to Info; reads only.
    pub fn last_state(&self) -> (r: InfoResponse)
        ensures
            r == (InfoResponse {
                last_height: self.storage.last_height,
                last_app_hash: self.storage.last_app_hash,
                app_version: APP_VERSION,
            }),
    {
        InfoResponse {
            last_height: self.storage.last_height,
            last_app_hash: self.storage.last_app_hash,
            app_version: APP_VERSION,
        }
    }

    /// Read-only lookup against committed state.
    pub fn query(&self, req: &QueryRequest) -> (r: QueryResponse)
        ensures
            match r.value {
                Some(v) => lookup_spec(self.storage.entries@, req.key@) == Some(v@),
                None => lookup_spec(self.storage.entries@, req.key@) is None,
            },
    {
        let entries = &self.storage.entries;
        let mut i: usize = entries.len();
        proof {
            assert(entries@.take(i as int) =~= entries@);
        }
        while i > 0
            invariant
                0 <= i <= entries@.len(),
                entries@ == self.storage.entries@,
                lookup_spec(entries@.take(i as int), req.key@) == lookup_spec(
                    entries@,
                    req.key@,
                ),
            decreases i,
        {
            proof {
                assert(entries@.take(i as int).last() == entries@[i - 1]);
                assert(entries@.take(i as int).drop_last() =~= entries@.take(i - 1));
            }
            if bytes_eq(&entries[i - 1].key, &req.key) {
                let v = copy_bytes(&entries[i - 1].value);
                proof {
                    assert(lookup_spec(entries@.take(i as int), req.key@) == Some(
                        entries@[i - 1].value@,
                    ));
                }
                return QueryResponse { value: Some(v) };
            }
            i = i - 1;
        }
        proof {
            assert(entries@.take(0) =~= Seq::<Entry>::empty());
        }
        QueryResponse { value: None }
    }

    /// Proposal preparation: a pure selection over the offered transactions,
    /// keeping exactly the well-sized ones in their given order.
    pub fn prepare_proposal(&self, req: &PrepareProposalRequest) -> (r: PrepareProposalResponse)
        ensures
            tx_views(r.txs@) == select_txs(tx_views(req.txs@)),
    {
        let mut out: Vec<Vec<u8>> = Vec::new();
        let mut i: usize = 0;
        proof {
            assert(tx_views(req.txs@).take(0) =~= Seq::<Seq<u8>>::empty());
            assert(tx_views(out@) =~= Seq::<Seq<u8>>::empty());
        }
        while i < req.txs.len()
            invariant
                0 <= i <= req.txs@.len(),
                tx_views(out@) == select_txs(tx_views(req.txs@).take(i as int)),
            decreases req.txs@.len() - i,
        {
            let ghost pre = tx_views(out@);
            let tx = &req.txs[i];
            proof {
                assert(tx_views(req.txs@).take(i + 1).drop_last() =~= tx_views(req.txs@).take(
                    i as int,
                ));
                assert(tx_views(req.txs@).take(i + 1).last() == req.txs@[i as int]@);
            }
            if tx.len() > 0 && tx.len() <= MAX_TX_BYTES {
                let copied = copy_bytes(tx);
                out.push(copied);
                proof {
                    assert(tx_views(out@) =~= pre.push(req.txs@[i as int]@));
                }
            }
            i = i + 1;
        }
        proof {
            assert(tx_views(req.txs@).take(req.txs@.len() as int) =~= tx_views(req.txs@));
        }
        PrepareProposalResponse { txs: out }
    }

    /// Header verification hook: always succeeds in the current scope.
    pub fn verify_header(&self) -> (r: VerifyHeaderResponse) {
        VerifyHeaderResponse {}
    }

    /// Proposal validation before voting: accepts a block exactly when all
    /// its transactions are well sized.
    pub fn process_proposal(&self, req: &ProcessProposalRequest) -> (r: ProcessProposalResponse)
        ensures
            r.accepted == (forall|i: int|
                0 <= i < req.txs@.len() ==> tx_well_sized((#[trigger] req.txs@[i])@)),
    {
        let mut i: usize = 0;
        while i < req.txs.len()
            invariant
                0 <= i <= req.txs@.len(),
                forall|j: int| 0 <= j < i ==> tx_well_sized((#[trigger] req.txs@[j])@),
            decreases req.txs@.len() - i,
        {
            let tx = &req.txs[i];
            if tx.len() == 0 || tx.len() > MAX_TX_BYTES {
                return ProcessProposalResponse { accepted: false };
            }
            i = i + 1;
        }
        ProcessProposalResponse { accepted: true }
    }

    /// Proposal revert hook: always succeeds in the current scope.
    pub fn revert_proposal(&self) -> (r: RevertProposalResponse) {
        RevertProposalResponse {}
    }

    /// Applies the block's transactions, extending chain state into the
    /// working block; the caller loads proposals first.
    pub fn finalize_block(&mut self, req: FinalizeBlockRequest) -> (r: Result<
        FinalizeBlockResponse,
        Error,
    >)
        ensures
            final(self).chain_id == old(self).chain_id,
            final(self).storage == old(self).storage,
            final(self).proposal_data == old(self).proposal_data,
            final(self).stats == old(self).stats,
            final(self).trace@ == old(self).trace@ + Seq::new(
                req.txs@.len(),
                |i: int| Step::ApplyTx,
            ),
            final(self).working == Some(
                WorkingBlock { height: req.height, epoch: req.epoch, applied: req.txs },
            ),
            r == Ok::<FinalizeBlockResponse, Error>(
                FinalizeBlockResponse { n_applied: req.txs@.len() as usize },
            ),
    {
        let n = req.txs.len();
        let mut i: usize = 0;
        while i < n
            invariant
                0 <= i <= n,
                self.chain_id == old(self).chain_id,
                self.storage == old(self).storage,
                self.proposal_data == old(self).proposal_data,
                self.stats == old(self).stats,
                self.working == old(self).working,
                self.trace@ == old(self).trace@ + Seq::new(i as nat, |k: int| Step::ApplyTx),
            decreases n - i,
        {
            self.trace.push(Step::ApplyTx);
            proof {
                assert(old(self).trace@ + Seq::new((i + 1) as nat, |k: int| Step::ApplyTx) =~= (
                old(self).trace@ + Seq::new(i as nat, |k: int| Step::ApplyTx)).push(
                    Step::ApplyTx,
                ));
            }
            i = i + 1;
        }
        let resp = FinalizeBlockResponse { n_applied: n };
        self.working = Some(
            WorkingBlock { height: req.height, epoch: req.epoch, applied: req.txs },
        );
        Ok(resp)
    }

    /// Durably persists the finalized working block, in one atomic step of
    /// the committed state, and reports the new height and hash. Without a
    /// finalized block it repeats the committed values and changes nothing,
    /// so that a replayed FinalizeBlock/Commit pair is always recoverable.
    pub fn commit(&mut self) -> (r: CommitResponse)
        ensures
            match old(self).working {
                Some(w) => {
                    &&& final(self).storage.last_height == w.height
                    &&& final(self).storage.last_epoch == w.epoch
                    &&& final(self).storage.last_app_hash == chain_hash(
                        old(self).storage.last_app_hash,
                        tx_views(w.applied@),
                    )
                    &&& final(self).storage.proposals == old(self).storage.proposals
                    &&& final(self).storage.entries == old(self).storage.entries
                    &&& final(self).working is None
                    &&& r == (CommitResponse {
                        height: w.height,
                        app_hash: final(self).storage.last_app_hash,
                    })
                },
                None => *final(self) == *old(self) && r == (CommitResponse {
                    height: old(self).storage.last_height,
                    app_hash: old(self).storage.last_app_hash,
                }),
            },
            final(self).chain_id == old(self).chain_id,
            final(self).proposal_data == old(self).proposal_data,
            final(self).stats == old(self).stats,
            final(self).trace == old(self).trace,
    {
        let w_opt = self.working.take();
        match w_opt {
            Some(w) => {
                let mut h: u64 = self.storage.last_app_hash;
                let mut i: usize = 0;
                proof {
                    assert(tx_views(w.applied@).take(0) =~= Seq::<Seq<u8>>::empty());
                }
                while i < w.applied.len()
                    invariant
                        0 <= i <= w.applied@.len(),
                        h == chain_hash(
                            old(self).storage.last_app_hash,
                            tx_views(w.applied@).take(i as int),
                        ),
                    decreases w.applied@.len() - i,
                {
                    proof {
                        assert(tx_views(w.applied@).take(i + 1).drop_last() =~= tx_views(
                            w.applied@,
                        ).take(i as int));
                        assert(tx_views(w.applied@).take(i + 1).last() == w.applied@[i as int]@);
                    }
                    h = h.wrapping_mul(31).wrapping_add(w.applied[i].len() as u64);
                    i = i + 1;
                }
                proof {
                    assert(tx_views(w.applied@).take(w.applied@.len() as int) =~= tx_views(
                        w.applied@,
                    ));
                }
                self.storage.last_height = w.height;
                self.storage.last_epoch = w.epoch;
                self.storage.last_app_hash = h;
                CommitResponse { height: w.height, app_hash: h }
            }
            None => {
                CommitResponse {
                    height: self.storage.last_height,
                    app_hash: self.storage.last_app_hash,
                }
            }
        }
    }

    /// Mempool admission. A first-time transaction takes the full
    /// validation path; a recheck takes only the narrower path reserved for
    /// already-pooled transactions and runs none of the first-admission
    /// steps, as the two counters record.
    pub fn mempool_validate(&mut self, tx: &Vec<u8>, ty: MempoolTxType) -> (r: CheckTxResponse)
        ensures
            final(self).chain_id == old(self).chain_id,
            final(self).storage == old(self).storage,
            final(self).proposal_data == old(self).proposal_data,
            final(self).working == old(self).working,
            final(self).trace == old(self).trace,
            match ty {
                MempoolTxType::NewTransaction => {
                    &&& r.code == (if tx_well_sized(tx@) {
                        0u32
                    } else {
                        1u32
                    })
                    &&& final(self).stats.new_validations == old(self).stats.new_validations.saturating_add(1)
                    &&& final(self).stats.recheck_validations == old(self).stats.recheck_validations
                },
                MempoolTxType::RecheckTransaction => {
                    &&& r.code == (if tx@.len() > 0 {
                        0u32
                    } else {
                        1u32
                    })
                    &&& final(self).stats.new_validations == old(self).stats.new_validations
                    &&& final(self).stats.recheck_validations == old(self).stats.recheck_validations.saturating_add(1)
                },
            },
    {
        match ty {
            MempoolTxType::NewTransaction => {
                self.stats.new_validations = self.stats.new_validations.saturating_add(1);
                let ok = tx.len() > 0 && tx.len() <= MAX_TX_BYTES;
                CheckTxResponse { code: if ok { 0 } else { 1 } }
            }
            MempoolTxType::RecheckTransaction => {
                self.stats.recheck_validations = self.stats.recheck_validations.saturating_add(
                    1,
                );
                let ok = tx.len() > 0;
                CheckTxResponse { code: if ok { 0 } else { 1 } }
            }
        }
    }

    /// Dispatches one request to its handler and produces exactly one
    /// response. Block finalization loads pending proposals first and only
    /// then applies transactions; snapshot-family requests always answer
    /// with a structurally default response and never an error.
    pub fn call(&mut self, req: Request) -> (r: Result<Response, Error>)
        requires
            match req {
                Request::CheckTx(c) => c.kind == 0 || c.kind == 1,
                _ => true,
            },
        ensures
            match req {
                Request::InitChain(g) => match r {
                    Ok(resp) => g.well_formed() && resp == Response::InitChain(
                        InitChainResponse {},
                    ) && final(self).chain_id == g.chain_id && final(self).storage == old(self).storage && final(self).proposal_data == old(self).proposal_data && final(self).working == old(self).working && final(self).stats == old(self).stats
                        && final(self).trace == old(self).trace,
                    Err(e) => !g.well_formed() && e == Error::InitChain && *final(self) == *old(self),
                },
                Request::Info => r == Ok::<Response, Error>(
                    Response::Info(
                        InfoResponse {
                            last_height: old(self).storage.last_height,
                            last_app_hash: old(self).storage.last_app_hash,
                            app_version: APP_VERSION,
                        },
                    ),
                ) && *final(self) == *old(self),
                Request::Query(q) => *final(self) == *old(self) && match r {
                    Ok(Response::Query(qr)) => match qr.value {
                        Some(v) => lookup_spec(old(self).storage.entries@, q.key@) == Some(v@),
                        None => lookup_spec(old(self).storage.entries@, q.key@) is None,
                    },
                    _ => false,
                },
                Request::PrepareProposal(p) => *final(self) == *old(self) && match r {
                    Ok(Response::PrepareProposal(pr)) => tx_views(pr.txs@) == select_txs(
                        tx_views(p.txs@),
                    ),
                    _ => false,
                },
                Request::VerifyHeader => r == Ok::<Response, Error>(
                    Response::VerifyHeader(VerifyHeaderResponse {}),
                ) && *final(self) == *old(self),
                Request::ProcessProposal(p) => *final(self) == *old(self) && match r {
                    Ok(Response::ProcessProposal(pr)) => pr.accepted == (forall|i: int|
                        0 <= i < p.txs@.len() ==> tx_well_sized((#[trigger] p.txs@[i])@)),
                    _ => false,
                },
                Request::RevertProposal => r == Ok::<Response, Error>(
                    Response::RevertProposal(RevertProposalResponse {}),
                ) && *final(self) == *old(self),
                Request::FinalizeBlock(f) => {
                    &&& r == Ok::<Response, Error>(
                        Response::FinalizeBlock(
                            FinalizeBlockResponse { n_applied: f.txs@.len() as usize },
                        ),
                    )
                    &&& final(self).chain_id == old(self).chain_id
                    &&& final(self).storage == old(self).storage
                    &&& final(self).stats == old(self).stats
                    // proposals load first, then every transaction applies
                    &&& final(self).trace@ == old(self).trace@.push(Step::LoadProposals)
                        + Seq::new(f.txs@.len(), |i: int| Step::ApplyTx)
                    &&& final(self).working == Some(
                        WorkingBlock { height: f.height, epoch: f.epoch, applied: f.txs },
                    )
                    &&& forall|id: u64|
                        final(self).proposal_data@.contains(id) <==> (old(self).proposal_data@.contains(id) || old(self).storage.has_proposal(
                            old(self).storage.last_epoch,
                            id,
                        ))
                },
                Request::Commit => {
                    &&& final(self).chain_id == old(self).chain_id
                    &&& final(self).proposal_data == old(self).proposal_data
                    &&& final(self).stats == old(self).stats
                    &&& final(self).trace == old(self).trace
                    &&& match old(self).working {
                        Some(w) => {
                            &&& final(self).storage.last_height == w.height
                            &&& final(self).storage.last_epoch == w.epoch
                            &&& final(self).storage.last_app_hash == chain_hash(
                                old(self).storage.last_app_hash,
                                tx_views(w.applied@),
                            )
                            &&& final(self).storage.proposals == old(self).storage.proposals
                            &&& final(self).storage.entries == old(self).storage.entries
                            &&& final(self).working is None
                            &&& r == Ok::<Response, Error>(
                                Response::Commit(
                                    CommitResponse {
                                        height: w.height,
                                        app_hash: final(self).storage.last_app_hash,
                                    },
                                ),
                            )
                        },
                        None => *final(self) == *old(self) && r == Ok::<Response, Error>(
                            Response::Commit(
                                CommitResponse {
                                    height: old(self).storage.last_height,
                                    app_hash: old(self).storage.last_app_hash,
                                },
                            ),
                        ),
                    }
                },
                Request::Flush => r == Ok::<Response, Error>(Response::Flush(FlushResponse {}))
                    && *final(self) == *old(self),
                Request::Echo(m) => r == Ok::<Response, Error>(
                    Response::Echo(EchoResponse { message: m.message }),
                ) && *final(self) == *old(self),
                Request::CheckTx(c) => {
                    &&& final(self).chain_id == old(self).chain_id
                    &&& final(self).storage == old(self).storage
                    &&& final(self).proposal_data == old(self).proposal_data
                    &&& final(self).working == old(self).working
                    &&& final(self).trace == old(self).trace
                    &&& if c.kind == 0 {
                        &&& final(self).stats.new_validations == old(self).stats.new_validations.saturating_add(1)
                        &&& final(self).stats.recheck_validations == old(self).stats.recheck_validations
                        &&& r == Ok::<Response, Error>(
                            Response::CheckTx(
                                CheckTxResponse {
                                    code: if tx_well_sized(c.tx@) {
                                        0u32
                                    } else {
                                        1u32
                                    },
                                },
                            ),
                        )
                    } else {
                        &&& final(self).stats.new_validations == old(self).stats.new_validations
                        &&& final(self).stats.recheck_validations == old(self).stats.recheck_validations.saturating_add(1)
                        &&& r == Ok::<Response, Error>(
                            Response::CheckTx(
                                CheckTxResponse {
                                    code: if c.tx@.len() > 0 {
                                        0u32
                                    } else {
                                        1u32
                                    },
                                },
                            ),
                        )
                    }
                },
                Request::ListSnapshots => r == Ok::<Response, Error>(
                    Response::ListSnapshots(ListSnapshotsResponse {}),
                ) && *final(self) == *old(self),
                Request::OfferSnapshot => r == Ok::<Response, Error>(
                    Response::OfferSnapshot(OfferSnapshotResponse {}),
                ) && *final(self) == *old(self),
                Request::LoadSnapshotChunk => r == Ok::<Response, Error>(
                    Response::LoadSnapshotChunk(LoadSnapshotChunkResponse {}),
                ) && *final(self) == *old(self),
                Request::ApplySnapshotChunk => r == Ok::<Response, Error>(
                    Response::ApplySnapshotChunk(ApplySnapshotChunkResponse {}),
                ) && *final(self) == *old(self),
            },
    {
        match req {
            Request::InitChain(init) => match self.init_chain(init) {
                Ok(resp) => Ok(Response::InitChain(resp)),
                Err(e) => Err(e),
            },
            Request::Info => Ok(Response::Info(self.last_state())),
            Request::Query(query) => Ok(Response::Query(self.query(&query))),
            Request::PrepareProposal(block) => Ok(
                Response::PrepareProposal(self.prepare_proposal(&block)),
            ),
            Request::VerifyHeader => Ok(Response::VerifyHeader(self.verify_header())),
            Request::ProcessProposal(block) => Ok(
                Response::ProcessProposal(self.process_proposal(&block)),
            ),
            Request::RevertProposal => Ok(Response::RevertProposal(self.revert_proposal())),
            Request::FinalizeBlock(finalize) => {
                self.load_proposals();
                match self.finalize_block(finalize) {
                    Ok(resp) => Ok(Response::FinalizeBlock(resp)),
                    Err(e) => Err(e),
                }
            }
            Request::Commit => Ok(Response::Commit(self.commit())),
            Request::Flush => Ok(Response::Flush(FlushResponse {})),
            Request::Echo(msg) => Ok(Response::Echo(EchoResponse { message: msg.message })),
            Request::CheckTx(tx) => {
                let ty = if tx.kind == 0 {
                    MempoolTxType::NewTransaction
                } else {
                    MempoolTxType::RecheckTransaction
                };
                Ok(Response::CheckTx(self.mempool_validate(&tx.tx, ty)))
            }
            Request::ListSnapshots => Ok(Response::ListSnapshots(ListSnapshotsResponse {})),
            Request::OfferSnapshot => Ok(Response::OfferSnapshot(OfferSnapshotResponse {})),
            Request::LoadSnapshotChunk => Ok(
                Response::LoadSnapshotChunk(LoadSnapshotChunkResponse {}),
            ),
            Request::ApplySnapshotChunk => Ok(
                Response::ApplySnapshotChunk(ApplySnapshotChunkResponse {}),
            ),
        }
    }
}

/// Resets the chain state to its just-constructed form; removing the
/// on-disk artefacts is the caller's concern.
pub fn reset(shell: &mut Shell) -> (r: Result<(), Error>)
    ensures
        r is Ok,
        final(shell).is_initial(),
{
    *shell = Shell::new();
    Ok(())
}

} // verus!
