//! Node-side application layer of a blockchain validator: a deterministic
//! request dispatcher (the shell) together with models of the supervision
//! machinery that keeps a running node's long-lived subsystems coordinated.

pub mod abortable;
pub mod broadcaster;
pub mod digits;
pub mod lanes;
pub mod oracle;
pub mod setup;
pub mod shell;
pub mod shims;
pub mod storage;
pub mod tendermint_node;
pub mod test_wasms;
pub mod vp;
