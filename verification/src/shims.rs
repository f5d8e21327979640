//! Request and response types of the consensus-engine wire protocol, as they
//! reach the shell: one request kind per lifecycle step, one response kind
//! mirroring each request kind.

use vstd::prelude::*;

verus! {

/// Genesis parameters handed over at chain initialization.
pub struct InitChainRequest {
    pub chain_id: Vec<u8>,
    pub validators: u64,
}

impl InitChainRequest {
    /// A genesis is well formed when it names a chain and at least one
    /// initial validator.
    pub open spec fn well_formed(self) -> bool {
        self.chain_id@.len() > 0 && self.validators > 0
    }
}

pub struct QueryRequest {
    pub key: Vec<u8>,
}

pub struct PrepareProposalRequest {
    pub txs: Vec<Vec<u8>>,
}

pub struct ProcessProposalRequest {
    pub txs: Vec<Vec<u8>>,
}

pub struct FinalizeBlockRequest {
    pub height: u64,
    pub epoch: u64,
    pub txs: Vec<Vec<u8>>,
}

pub struct EchoRequest {
    pub message: Vec<u8>,
}

/// Mempool admission request; `kind` is the wire-level discriminant, 0 for a
/// first-time check and 1 for a recheck of an already-pooled transaction.
pub struct CheckTxRequest {
    pub tx: Vec<u8>,
    pub kind: i32,
}

/// One inbound request from the consensus engine.
pub enum Request {
    InitChain(InitChainRequest),
    Info,
    Query(QueryRequest),
    PrepareProposal(PrepareProposalRequest),
    VerifyHeader,
    ProcessProposal(ProcessProposalRequest),
    RevertProposal,
    FinalizeBlock(FinalizeBlockRequest),
    Commit,
    Flush,
    Echo(EchoRequest),
    CheckTx(CheckTxRequest),
    ListSnapshots,
    OfferSnapshot,
    LoadSnapshotChunk,
    ApplySnapshotChunk,
}

pub struct InitChainResponse {}

pub struct InfoResponse {
    pub last_height: u64,
    pub last_app_hash: u64,
    pub app_version: u64,
}

pub struct QueryResponse {
    pub value: Option<Vec<u8>>,
}

pub struct PrepareProposalResponse {
    pub txs: Vec<Vec<u8>>,
}

pub struct VerifyHeaderResponse {}

pub struct ProcessProposalResponse {
    pub accepted: bool,
}

pub struct RevertProposalResponse {}

pub struct FinalizeBlockResponse {
    pub n_applied: usize,
}

pub struct CommitResponse {
    pub height: u64,
    pub app_hash: u64,
}

pub struct FlushResponse {}

pub struct EchoResponse {
    pub message: Vec<u8>,
}

pub struct CheckTxResponse {
    pub code: u32,
}

pub struct ListSnapshotsResponse {}

pub struct OfferSnapshotResponse {}

pub struct LoadSnapshotChunkResponse {}

pub struct ApplySnapshotChunkResponse {}

/// One response to the consensus engine, mirroring the request kinds.
pub enum Response {
    InitChain(InitChainResponse),
    Info(InfoResponse),
    Query(QueryResponse),
    PrepareProposal(PrepareProposalResponse),
    VerifyHeader(VerifyHeaderResponse),
    ProcessProposal(ProcessProposalResponse),
    RevertProposal(RevertProposalResponse),
    FinalizeBlock(FinalizeBlockResponse),
    Commit(CommitResponse),
    Flush(FlushResponse),
    Echo(EchoResponse),
    CheckTx(CheckTxResponse),
    ListSnapshots(ListSnapshotsResponse),
    OfferSnapshot(OfferSnapshotResponse),
    LoadSnapshotChunk(LoadSnapshotChunkResponse),
    ApplySnapshotChunk(ApplySnapshotChunkResponse),
}

} // verus!
