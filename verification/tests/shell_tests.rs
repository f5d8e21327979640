//! The dispatcher's behavior table, request by request.

use ledger_node::shell::{Error, MempoolTxType, Shell, Step, reset, APP_VERSION, MAX_TX_BYTES};
use ledger_node::shims::{
    CheckTxRequest, EchoRequest, FinalizeBlockRequest, InitChainRequest, PrepareProposalRequest,
    ProcessProposalRequest, QueryRequest, Request, Response,
};

#[test]
fn test_load_proposals_epoch_exact_match() {
    // Proposals filed under epochs 1, 11 and 110 share decimal prefixes;
    // a scan at each epoch must pick out exactly its own proposal.
    for (epoch, expected_id) in [(1u64, 10u64), (11, 20), (110, 30)] {
        let mut sh = Shell::new();
        sh.storage.write_proposal(1, 10);
        sh.storage.write_proposal(11, 20);
        sh.storage.write_proposal(110, 30);
        sh.storage.last_epoch = epoch;
        sh.load_proposals();
        assert_eq!(sh.proposal_data, vec![expected_id]);
    }
}

#[test]
fn test_load_proposals_dedup_and_accumulate() {
    let mut sh = Shell::new();
    sh.storage.write_proposal(5, 42);
    sh.storage.write_proposal(5, 42);
    sh.storage.write_proposal(5, 43);
    sh.storage.last_epoch = 5;
    sh.load_proposals();
    let mut ids = sh.proposal_data.clone();
    ids.sort();
    assert_eq!(ids, vec![42, 43]);
    // loading again adds nothing new
    sh.load_proposals();
    let mut again = sh.proposal_data.clone();
    again.sort();
    assert_eq!(again, vec![42, 43]);
}

#[test]
fn test_finalize_loads_proposals_before_applying() {
    let mut sh = Shell::new();
    let req = FinalizeBlockRequest {
        height: 1,
        epoch: 0,
        txs: vec![vec![1], vec![2], vec![3]],
    };
    let r = sh.call(Request::FinalizeBlock(req));
    assert!(r.is_ok());
    assert_eq!(
        sh.trace,
        vec![Step::LoadProposals, Step::ApplyTx, Step::ApplyTx, Step::ApplyTx]
    );
}

#[test]
fn test_recheck_skips_first_admission_path() {
    let mut sh = Shell::new();
    let tx = vec![9u8, 9, 9];
    sh.mempool_validate(&tx, MempoolTxType::NewTransaction);
    assert_eq!(sh.stats.new_validations, 1);
    assert_eq!(sh.stats.recheck_validations, 0);
    // a recheck runs none of the first-admission steps
    sh.mempool_validate(&tx, MempoolTxType::RecheckTransaction);
    assert_eq!(sh.stats.new_validations, 1);
    assert_eq!(sh.stats.recheck_validations, 1);
}

#[test]
fn test_checktx_codes() {
    let mut sh = Shell::new();
    let ok = sh.mempool_validate(&vec![1u8], MempoolTxType::NewTransaction);
    assert_eq!(ok.code, 0);
    let empty = sh.mempool_validate(&vec![], MempoolTxType::NewTransaction);
    assert_eq!(empty.code, 1);
    let oversized = sh.mempool_validate(&vec![0u8; MAX_TX_BYTES + 1], MempoolTxType::NewTransaction);
    assert_eq!(oversized.code, 1);
    // recheck's narrower path only rejects the empty transaction
    let re_over = sh.mempool_validate(&vec![0u8; MAX_TX_BYTES + 1], MempoolTxType::RecheckTransaction);
    assert_eq!(re_over.code, 0);
    let re_empty = sh.mempool_validate(&vec![], MempoolTxType::RecheckTransaction);
    assert_eq!(re_empty.code, 1);
}

#[test]
fn test_checktx_through_call() {
    let mut sh = Shell::new();
    let r = sh.call(Request::CheckTx(CheckTxRequest { tx: vec![5u8], kind: 0 }));
    match r {
        Ok(Response::CheckTx(resp)) => assert_eq!(resp.code, 0),
        _ => panic!("expected a CheckTx response"),
    }
    assert_eq!(sh.stats.new_validations, 1);
    let r = sh.call(Request::CheckTx(CheckTxRequest { tx: vec![5u8], kind: 1 }));
    match r {
        Ok(Response::CheckTx(resp)) => assert_eq!(resp.code, 0),
        _ => panic!("expected a CheckTx response"),
    }
    assert_eq!(sh.stats.new_validations, 1);
    assert_eq!(sh.stats.recheck_validations, 1);
}

#[test]
fn test_snapshot_requests_answer_defaults() {
    let mut sh = Shell::new();
    let r = sh.call(Request::ListSnapshots);
    assert!(matches!(r, Ok(Response::ListSnapshots(_))));
    let r = sh.call(Request::OfferSnapshot);
    assert!(matches!(r, Ok(Response::OfferSnapshot(_))));
    let r = sh.call(Request::LoadSnapshotChunk);
    assert!(matches!(r, Ok(Response::LoadSnapshotChunk(_))));
    let r = sh.call(Request::ApplySnapshotChunk);
    assert!(matches!(r, Ok(Response::ApplySnapshotChunk(_))));
    // and none of them touched any state
    assert_eq!(sh.storage.last_height, 0);
    assert_eq!(sh.stats.new_validations, 0);
    assert!(sh.trace.is_empty());
    assert!(sh.proposal_data.is_empty());
}

#[test]
fn test_init_chain_rejects_malformed_genesis() {
    let mut sh = Shell::new();
    let r = sh.call(Request::InitChain(InitChainRequest { chain_id: vec![], validators: 3 }));
    assert!(matches!(r, Err(Error::InitChain)));
    let r = sh.call(Request::InitChain(InitChainRequest { chain_id: vec![b'x'], validators: 0 }));
    assert!(matches!(r, Err(Error::InitChain)));
}

#[test]
fn test_init_chain_ok() {
    let mut sh = Shell::new();
    let r = sh.call(Request::InitChain(InitChainRequest {
        chain_id: b"main".to_vec(),
        validators: 4,
    }));
    assert!(matches!(r, Ok(Response::InitChain(_))));
    assert_eq!(sh.chain_id, b"main".to_vec());
}

#[test]
fn test_info_reports_committed_state() {
    let mut sh = Shell::new();
    sh.storage.last_height = 7;
    sh.storage.last_app_hash = 99;
    let r = sh.call(Request::Info);
    match r {
        Ok(Response::Info(info)) => {
            assert_eq!(info.last_height, 7);
            assert_eq!(info.last_app_hash, 99);
            assert_eq!(info.app_version, APP_VERSION);
        }
        _ => panic!("expected an Info response"),
    }
}

#[test]
fn test_query_reads_latest_write() {
    let mut sh = Shell::new();
    sh.storage.write_entry(b"k".to_vec(), b"old".to_vec());
    sh.storage.write_entry(b"other".to_vec(), b"x".to_vec());
    sh.storage.write_entry(b"k".to_vec(), b"new".to_vec());
    let r = sh.call(Request::Query(QueryRequest { key: b"k".to_vec() }));
    match r {
        Ok(Response::Query(q)) => assert_eq!(q.value, Some(b"new".to_vec())),
        _ => panic!("expected a Query response"),
    }
    let r = sh.call(Request::Query(QueryRequest { key: b"missing".to_vec() }));
    match r {
        Ok(Response::Query(q)) => assert_eq!(q.value, None),
        _ => panic!("expected a Query response"),
    }
}

#[test]
fn test_echo_and_flush() {
    let mut sh = Shell::new();
    let r = sh.call(Request::Echo(EchoRequest { message: b"ping".to_vec() }));
    match r {
        Ok(Response::Echo(e)) => assert_eq!(e.message, b"ping".to_vec()),
        _ => panic!("expected an Echo response"),
    }
    assert!(matches!(sh.call(Request::Flush), Ok(Response::Flush(_))));
}

#[test]
fn test_prepare_proposal_selects_well_sized() {
    let mut sh = Shell::new();
    let good1 = vec![1u8; 10];
    let empty: Vec<u8> = vec![];
    let oversized = vec![0u8; MAX_TX_BYTES + 1];
    let good2 = vec![2u8; 20];
    let r = sh.call(Request::PrepareProposal(PrepareProposalRequest {
        txs: vec![good1.clone(), empty, oversized, good2.clone()],
    }));
    match r {
        Ok(Response::PrepareProposal(p)) => assert_eq!(p.txs, vec![good1, good2]),
        _ => panic!("expected a PrepareProposal response"),
    }
}

#[test]
fn test_process_proposal_rejects_malformed() {
    let mut sh = Shell::new();
    let r = sh.call(Request::ProcessProposal(ProcessProposalRequest {
        txs: vec![vec![1u8], vec![]],
    }));
    match r {
        Ok(Response::ProcessProposal(p)) => assert!(!p.accepted),
        _ => panic!("expected a ProcessProposal response"),
    }
    let r = sh.call(Request::ProcessProposal(ProcessProposalRequest { txs: vec![vec![1u8]] }));
    match r {
        Ok(Response::ProcessProposal(p)) => assert!(p.accepted),
        _ => panic!("expected a ProcessProposal response"),
    }
}

#[test]
fn test_verify_header_and_revert_always_succeed() {
    let mut sh = Shell::new();
    assert!(matches!(sh.call(Request::VerifyHeader), Ok(Response::VerifyHeader(_))));
    assert!(matches!(sh.call(Request::RevertProposal), Ok(Response::RevertProposal(_))));
}

#[test]
fn test_commit_persists_finalized_block() {
    let mut sh = Shell::new();
    let r = sh.call(Request::FinalizeBlock(FinalizeBlockRequest {
        height: 3,
        epoch: 2,
        txs: vec![vec![1, 2], vec![3, 4, 5]],
    }));
    assert!(r.is_ok());
    // nothing is committed yet
    assert_eq!(sh.storage.last_height, 0);
    let r = sh.call(Request::Commit);
    // hash chain: 0 * 31 + 2 = 2, then 2 * 31 + 3 = 65
    match r {
        Ok(Response::Commit(c)) => {
            assert_eq!(c.height, 3);
            assert_eq!(c.app_hash, 65);
        }
        _ => panic!("expected a Commit response"),
    }
    assert_eq!(sh.storage.last_height, 3);
    assert_eq!(sh.storage.last_epoch, 2);
    assert_eq!(sh.storage.last_app_hash, 65);
    assert!(sh.working.is_none());
}

#[test]
fn test_commit_without_finalized_block_changes_nothing() {
    let mut sh = Shell::new();
    sh.storage.last_height = 9;
    sh.storage.last_app_hash = 4;
    let r = sh.call(Request::Commit);
    match r {
        Ok(Response::Commit(c)) => {
            assert_eq!(c.height, 9);
            assert_eq!(c.app_hash, 4);
        }
        _ => panic!("expected a Commit response"),
    }
    assert_eq!(sh.storage.last_height, 9);
}

#[test]
fn test_reset_returns_to_initial_state() {
    let mut sh = Shell::new();
    sh.storage.write_proposal(1, 1);
    sh.storage.last_height = 5;
    let r = reset(&mut sh);
    assert!(r.is_ok());
    assert_eq!(sh.storage.last_height, 0);
    assert!(sh.storage.proposals.is_empty());
    assert!(sh.proposal_data.is_empty());
    assert!(sh.trace.is_empty());
}
