//! The test wasm artefacts the integration suites load, and the file name
//! each is built under. Locating the repository root and reading the file
//! itself are the caller's concern.

use vstd::prelude::*;

verus! {

/// Path from the root of the repository to the directory under which built
/// test wasms can be found.
pub fn wasm_for_tests_dir() -> (r: &'static str)
    ensures
        r@ == "wasm_for_tests"@,
{
    "wasm_for_tests"
}

/// The wasms built for tests.
#[derive(Debug, Clone, Copy, PartialEq, Eq, Structural)]
pub enum TestWasms {
    TxMemoryLimit,
    TxMintTokens,
    TxNoOp,
    TxProposalCode,
    TxReadStorageKey,
    TxWriteStorageKey,
    VpAlwaysFalse,
    VpAlwaysTrue,
    VpEval,
    VpMemoryLimit,
    VpReadStorageKey,
}

impl TestWasms {
    /// The file name this test wasm is built under.
    pub fn file_name(&self) -> (r: &'static str)
        ensures
            r@ == (match self {
                TestWasms::TxMemoryLimit => "tx_memory_limit.wasm"@,
                TestWasms::TxMintTokens => "tx_mint_tokens.wasm"@,
                TestWasms::TxNoOp => "tx_no_op.wasm"@,
                TestWasms::TxProposalCode => "tx_proposal_code.wasm"@,
                TestWasms::TxReadStorageKey => "tx_read_storage_key.wasm"@,
                TestWasms::TxWriteStorageKey => "tx_write_storage_key.wasm"@,
                TestWasms::VpAlwaysFalse => "vp_always_false.wasm"@,
                TestWasms::VpAlwaysTrue => "vp_always_true.wasm"@,
                TestWasms::VpEval => "vp_eval.wasm"@,
                TestWasms::VpMemoryLimit => "vp_memory_limit.wasm"@,
                TestWasms::VpReadStorageKey => "vp_read_storage_key.wasm"@,
            }),
    {
        match self {
            TestWasms::TxMemoryLimit => "tx_memory_limit.wasm",
            TestWasms::TxMintTokens => "tx_mint_tokens.wasm",
            TestWasms::TxNoOp => "tx_no_op.wasm",
            TestWasms::TxProposalCode => "tx_proposal_code.wasm",
            TestWasms::TxReadStorageKey => "tx_read_storage_key.wasm",
            TestWasms::TxWriteStorageKey => "tx_write_storage_key.wasm",
            TestWasms::VpAlwaysFalse => "vp_always_false.wasm",
            TestWasms::VpAlwaysTrue => "vp_always_true.wasm",
            TestWasms::VpEval => "vp_eval.wasm",
            TestWasms::VpMemoryLimit => "vp_memory_limit.wasm",
            TestWasms::VpReadStorageKey => "vp_read_storage_key.wasm",
        }
    }
}

} // verus!
