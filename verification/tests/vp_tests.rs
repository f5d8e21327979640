//! The user validity predicate's decision rules, including the
//! exchange-rate comparison that runs on 96-bit decimals.

use ledger_node::vp::{ChangedKey, ExchangeCheck, check_intent, check_intent_transfers, validate_tx};

fn intent_template() -> ExchangeCheck {
    ExchangeCheck {
        key_known: true,
        sig_valid: true,
        exchange_fresh: true,
        sell_pre: 10,
        sell_post: 7,
        buy_pre: 0,
        buy_post: 2,
        rate_num: 14,
        rate_scale: 1,
        max_sell: 5,
    }
}

#[test]
fn test_no_op_transaction() {
    // a transaction that changes nothing is valid for any account
    let keys_changed: Vec<ChangedKey> = vec![];
    let valid = validate_tx(7, false, None, &keys_changed);
    assert!(valid);
}

#[test]
fn test_debit_requires_signature_or_intent() {
    let debit = ChangedKey::Token { owner: 7, pre: 10, post: 4 };
    assert!(!validate_tx(7, false, None, &vec![debit]));
    assert!(validate_tx(7, true, None, &vec![debit]));
}

#[test]
fn test_credit_needs_no_signature() {
    let credit = ChangedKey::Token { owner: 7, pre: 4, post: 10 };
    assert!(validate_tx(7, false, None, &vec![credit]));
}

#[test]
fn test_foreign_and_unknown_keys_need_signature() {
    let foreign = ChangedKey::Token { owner: 8, pre: 4, post: 10 };
    assert!(!validate_tx(7, false, None, &vec![foreign]));
    assert!(validate_tx(7, true, None, &vec![foreign]));
    assert!(!validate_tx(7, false, None, &vec![ChangedKey::Unknown]));
    assert!(validate_tx(7, true, None, &vec![ChangedKey::Unknown]));
}

#[test]
fn test_intent_set_grows_by_exactly_one() {
    let ok = ChangedKey::InvalidIntentSet { owner: 7, pre_len: 2, post_len: 3 };
    assert!(validate_tx(7, false, None, &vec![ok]));
    let too_many = ChangedKey::InvalidIntentSet { owner: 7, pre_len: 2, post_len: 4 };
    assert!(!validate_tx(7, false, None, &vec![too_many]));
    let shrank = ChangedKey::InvalidIntentSet { owner: 7, pre_len: 2, post_len: 1 };
    assert!(!validate_tx(7, false, None, &vec![shrank]));
}

#[test]
fn test_exchange_rate_respected() {
    // sold 3, bought 2: the achieved rate is 1.5
    let c = intent_template();
    // a minimum of 1.4 is exceeded: the exchange is invalid
    assert!(!check_intent(&ExchangeCheck { rate_num: 14, rate_scale: 1, ..c }));
    // a minimum of 1.5 is met exactly
    assert!(check_intent(&ExchangeCheck { rate_num: 15, rate_scale: 1, ..c }));
    // a minimum of 1.6 is met with room
    assert!(check_intent(&ExchangeCheck { rate_num: 16, rate_scale: 1, ..c }));
    // the same rate written at another scale decides the same way
    assert!(!check_intent(&ExchangeCheck { rate_num: 1400, rate_scale: 3, ..c }));
    assert!(check_intent(&ExchangeCheck { rate_num: 1500, rate_scale: 3, ..c }));
}

#[test]
fn test_exchange_needs_a_purchase() {
    let c = ExchangeCheck { buy_pre: 2, buy_post: 2, ..intent_template() };
    assert!(!check_intent(&c));
    let c = ExchangeCheck { buy_pre: 3, buy_post: 2, ..intent_template() };
    assert!(!check_intent(&c));
}

#[test]
fn test_exchange_respects_max_sell() {
    let c = ExchangeCheck { max_sell: 2, rate_num: 16, ..intent_template() };
    assert!(!check_intent(&c));
}

#[test]
fn test_exchange_needs_key_signature_freshness() {
    let c = intent_template();
    assert!(!check_intent(&ExchangeCheck { key_known: false, ..c }));
    assert!(!check_intent(&ExchangeCheck { sig_valid: false, ..c }));
    assert!(!check_intent(&ExchangeCheck { exchange_fresh: false, ..c }));
}

#[test]
fn test_missing_intent_grants_nothing() {
    assert!(!check_intent_transfers(None));
    // a debit authorized neither by signature nor by intent fails
    let debit = ChangedKey::Token { owner: 7, pre: 10, post: 4 };
    assert!(!validate_tx(7, false, None, &vec![debit]));
    // but a fulfilled intent authorizes it
    let c = ExchangeCheck { rate_num: 16, rate_scale: 1, ..intent_template() };
    assert!(validate_tx(7, false, Some(&c), &vec![debit]));
}
