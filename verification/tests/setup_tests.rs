//! Startup sizing and the consensus-engine shutdown handshake.

use ledger_node::setup::{cache_sizes, num_of_threads};
use ledger_node::tendermint_node::{
    HandshakeState, ProcessMonitor, Severity, ack_absence_is_fatal, shutdown_error_severity,
};

#[test]
fn test_cache_sizes_from_configuration() {
    let s = cache_sizes(Some(100), Some(200), Some(300), 6000);
    assert_eq!(s.vp_wasm, 100);
    assert_eq!(s.tx_wasm, 200);
    assert_eq!(s.db_block, 300);
}

#[test]
fn test_cache_sizes_from_available_memory() {
    // unconfigured: a sixth of memory for each compilation cache, a third
    // for the block cache
    let s = cache_sizes(None, None, None, 6000);
    assert_eq!(s.vp_wasm, 1000);
    assert_eq!(s.tx_wasm, 1000);
    assert_eq!(s.db_block, 2000);
}

#[test]
fn test_thread_counts() {
    assert_eq!(num_of_threads(Some(12), 8), 12);
    assert_eq!(num_of_threads(None, 8), 4);
}

#[test]
fn test_handshake_with_acknowledgment() {
    let mut m = ProcessMonitor::new();
    assert!(!m.retired());
    m.request_abort();
    assert!(!m.retired());
    m.on_ack();
    assert!(m.retired());
    assert_eq!(m.state, HandshakeState::AckReceived);
}

#[test]
fn test_handshake_channel_closed_is_not_fatal() {
    let mut m = ProcessMonitor::new();
    m.request_abort();
    m.on_channel_closed();
    // the process may have already exited: retired all the same, not fatal
    assert!(m.retired());
    assert!(!ack_absence_is_fatal(m.state));
    assert!(!ack_absence_is_fatal(HandshakeState::AckReceived));
}

#[test]
fn test_shutdown_error_severity() {
    assert_eq!(shutdown_error_severity(true), Severity::Reduced);
    assert_eq!(shutdown_error_severity(false), Severity::Elevated);
}
