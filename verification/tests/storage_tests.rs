//! Decimal keys, prefix scans, and the parsing that disambiguates them.

use ledger_node::digits::{parse_u64, render_u64};
use ledger_node::storage::{Storage, is_prefix, parse_proposal_key, proposal_key};
use ledger_node::test_wasms::{TestWasms, wasm_for_tests_dir};

#[test]
fn test_render_decimal() {
    assert_eq!(render_u64(0), b"0".to_vec());
    assert_eq!(render_u64(7), b"7".to_vec());
    assert_eq!(render_u64(110), b"110".to_vec());
    assert_eq!(render_u64(u64::MAX), b"18446744073709551615".to_vec());
}

#[test]
fn test_parse_decimal() {
    assert_eq!(parse_u64(b"0"), Some(0));
    assert_eq!(parse_u64(b"110"), Some(110));
    assert_eq!(parse_u64(b"18446744073709551615"), Some(u64::MAX));
    // not a number, empty, or too large
    assert_eq!(parse_u64(b""), None);
    assert_eq!(parse_u64(b"1x0"), None);
    assert_eq!(parse_u64(b"18446744073709551616"), None);
}

#[test]
fn test_proposal_key_round_trip() {
    let k = proposal_key(110, 42);
    assert_eq!(k, b"110/42".to_vec());
    assert_eq!(parse_proposal_key(&k), Some((110, 42)));
    assert_eq!(parse_proposal_key(&b"noslash".to_vec()), None);
}

#[test]
fn test_prefix_scan_shows_decimal_false_positives() {
    // this is the storage behavior the shell must compensate for: the key
    // of epoch 110 starts with the digits of epoch 11
    assert!(is_prefix(b"11", b"110/42"));
    assert!(is_prefix(b"11", b"11/9"));
    assert!(!is_prefix(b"12", b"110/42"));

    let mut st = Storage::new();
    st.write_proposal(11, 9);
    st.write_proposal(110, 42);
    st.write_proposal(2, 5);
    let keys = st.iter_prefix(&b"11".to_vec());
    let mut keys: Vec<Vec<u8>> = keys;
    keys.sort();
    assert_eq!(keys, vec![b"11/9".to_vec(), b"110/42".to_vec()]);
}

#[test]
fn test_wasm_file_names() {
    assert_eq!(wasm_for_tests_dir(), "wasm_for_tests");
    assert_eq!(TestWasms::TxNoOp.file_name(), "tx_no_op.wasm");
    assert_eq!(TestWasms::TxMemoryLimit.file_name(), "tx_memory_limit.wasm");
    assert_eq!(TestWasms::VpAlwaysTrue.file_name(), "vp_always_true.wasm");
    assert_eq!(TestWasms::VpEval.file_name(), "vp_eval.wasm");
}
