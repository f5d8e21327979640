//! Startup sizing decisions: worker-thread counts for the two pools and the
//! three cache budgets, each taken from configuration when set and from the
//! machine's available memory otherwise. Reading the environment and the
//! machine is the caller's concern; the decisions are here.

use vstd::prelude::*;

verus! {

/// The cache budgets computed before the shell starts.
#[derive(Clone, Copy, PartialEq, Eq, Structural, Debug)]
pub struct CacheSizes {
    pub vp_wasm: u64,
    pub tx_wasm: u64,
    pub db_block: u64,
}

/// The cache budgets: each taken from configuration where configured; the
/// two compilation caches otherwise get a sixth of available memory each,
/// and the block cache a third.
pub fn cache_sizes(
    vp_cfg: Option<u64>,
    tx_cfg: Option<u64>,
    block_cfg: Option<u64>,
    available_memory_bytes: u64,
) -> (r: CacheSizes)
    ensures
        r.vp_wasm == (match vp_cfg {
            Some(v) => v,
            None => available_memory_bytes / 6,
        }),
        r.tx_wasm == (match tx_cfg {
            Some(v) => v,
            None => available_memory_bytes / 6,
        }),
        r.db_block == (match block_cfg {
            Some(v) => v,
            None => available_memory_bytes / 3,
        }),
{
    let vp_wasm = match vp_cfg {
        Some(v) => v,
        None => available_memory_bytes / 6,
    };
    let tx_wasm = match tx_cfg {
        Some(v) => v,
        None => available_memory_bytes / 6,
    };
    let db_block = match block_cfg {
        Some(v) => v,
        None => available_memory_bytes / 3,
    };
    CacheSizes { vp_wasm, tx_wasm, db_block }
}

/// A worker pool's thread count: the environment's override when one is
/// set, else half of the logical cores.
pub fn num_of_threads(env_override: Option<u64>, logical_cores: u64) -> (r: u64)
    ensures
        r == (match env_override {
            Some(n) => n,
            None => logical_cores / 2,
        }),
{
    match env_override {
        Some(n) => n,
        None => logical_cores / 2,
    }
}

} // verus!
