//! The user account's validity predicate: the decision rules that authorize
//! or reject a transaction's changes to an account's storage.
//!
//! The host environment reads the pre/post values of each changed key,
//! looks up keys, and verifies signatures; those reads arrive here as plain
//! values, and every rule over them is verified. The one outside
//! computation in the middle of the rules — the exchange-rate comparison
//! on 96-bit decimals — is done by `rust_decimal` behind two trusted items
//! below.

use vstd::prelude::*;

verus! {

/// The largest mantissa a 96-bit decimal can carry.
pub const MAX_DECIMAL_MANTISSA: i128 = 79228162514264337593543950335;

/// The largest scale a 96-bit decimal can carry.
pub const MAX_DECIMAL_SCALE: u32 = 28;

/// Ten to the `n`.
pub open spec fn pow10(n: nat) -> int
    decreases n,
{
    if n == 0 {
        1
    } else {
        10 * pow10((n - 1) as nat)
    }
}

/// What `rust_decimal`'s division makes of the integer-valued decimals
/// `sell` and `buy`: the rounded quotient, as (mantissa, scale), meaning
/// mantissa × 10^-scale. A pure function of the two operands.
pub uninterp spec fn decimal_quotient(sell: int, buy: int) -> (int, int);

/// Relies on rust_decimal's `Decimal::from_i128_with_scale` and `Div`: the
/// quotient of the two integer-valued decimals, unpacked into mantissa and
/// scale via `mantissa` and `scale`. The bounds hold of every decimal by
/// representation (96-bit mantissa, scale at most 28); division cannot
/// overflow here since the quotient's magnitude never exceeds the
/// dividend's, and division by zero is excluded by the caller.
#[verifier::external_body]
fn decimal_div(sell: i128, buy: i128) -> (r: (i128, u32))
    requires
        buy != 0,
        -MAX_DECIMAL_MANTISSA <= sell <= MAX_DECIMAL_MANTISSA,
        -MAX_DECIMAL_MANTISSA <= buy <= MAX_DECIMAL_MANTISSA,
    ensures
        (r.0 as int, r.1 as int) == decimal_quotient(sell as int, buy as int),
        -MAX_DECIMAL_MANTISSA <= r.0 <= MAX_DECIMAL_MANTISSA,
        r.1 <= MAX_DECIMAL_SCALE,
{
    let q = rust_decimal::Decimal::from_i128_with_scale(sell, 0)
        / rust_decimal::Decimal::from_i128_with_scale(buy, 0);
    (q.mantissa(), q.scale())
}

/// Relies on rust_decimal's `Ord`: comparing two decimals is exact rational
/// comparison — the lower-scale operand is rescaled, and a rescale overflow
/// itself decides the order — so a×10^-as > b×10^-bs holds exactly when
/// a×10^bs > b×10^as over the unbounded integers.
#[verifier::external_body]
fn decimal_gt(a_num: i128, a_scale: u32, b_num: i128, b_scale: u32) -> (r: bool)
    requires
        -MAX_DECIMAL_MANTISSA <= a_num <= MAX_DECIMAL_MANTISSA,
        -MAX_DECIMAL_MANTISSA <= b_num <= MAX_DECIMAL_MANTISSA,
        a_scale <= MAX_DECIMAL_SCALE,
        b_scale <= MAX_DECIMAL_SCALE,
    ensures
        r == (a_num * pow10(b_scale as nat) > b_num * pow10(a_scale as nat)),
{
    rust_decimal::Decimal::from_i128_with_scale(a_num, a_scale)
        > rust_decimal::Decimal::from_i128_with_scale(b_num, b_scale)
}

/// One storage key a transaction changed, classified, with what the host
/// read under it before and after the transaction.
#[derive(Clone, Copy, PartialEq, Eq, Structural, Debug)]
pub enum ChangedKey {
    /// A token balance of `owner`: the amounts before and after.
    Token { owner: u64, pre: u64, post: u64 },
    /// `owner`'s set of signatures over spent intents: its sizes before and
    /// after.
    InvalidIntentSet { owner: u64, pre_len: usize, post_len: usize },
    /// A key this predicate knows nothing about.
    Unknown,
}

/// The data the exchange-intent check runs on, read by the host from the
/// signed intent and the token balances involved.
#[derive(Clone, Copy, PartialEq, Eq, Structural, Debug)]
pub struct ExchangeCheck {
    /// A public key is known for the account at all.
    pub key_known: bool,
    /// The intent's signature verified against that key.
    pub sig_valid: bool,
    /// The exchange was not already marked used.
    pub exchange_fresh: bool,
    /// The sold token's balance, before and after.
    pub sell_pre: u64,
    pub sell_post: u64,
    /// The bought token's balance, before and after.
    pub buy_pre: u64,
    pub buy_post: u64,
    /// The minimum rate demanded, as mantissa × 10^-scale.
    pub rate_num: i128,
    pub rate_scale: u32,
    /// The most the intent allows to be sold.
    pub max_sell: u64,
}

/// Whether the intent authorizes the exchange the balances show: signature
/// and freshness hold, something was actually bought, the achieved
/// sell/buy rate does not exceed the demanded minimum, and no more was
/// sold than the intent allows.
pub open spec fn check_intent_spec(c: ExchangeCheck) -> bool {
    let sell = c.sell_pre - c.sell_post;
    let buy = c.buy_post - c.buy_pre;
    &&& c.key_known
    &&& c.sig_valid
    &&& c.exchange_fresh
    &&& buy > 0
    &&& !(decimal_quotient(sell, buy).0 * pow10(c.rate_scale as nat) > c.rate_num * pow10(
        decimal_quotient(sell, buy).1 as nat,
    ))
    &&& c.max_sell >= sell
}

/// Whether a change to one key is authorized, given the account address and
/// the signature/intent verdicts: a debit of the owner's token balance
/// needs a signature or a fulfilled intent, a credit passes freely, the
/// intent-signature set may only grow by exactly one entry, and any other
/// key of the owner — or any foreign or unknown key — needs the signature.
pub open spec fn key_valid(k: ChangedKey, addr: u64, valid_sig: bool, valid_intent: bool) -> bool {
    match k {
        ChangedKey::Token { owner, pre, post } => {
            if owner == addr {
                (post < pre && (valid_sig || valid_intent)) || post > pre
            } else {
                valid_sig
            }
        },
        ChangedKey::InvalidIntentSet { owner, pre_len, post_len } => {
            if owner == addr {
                pre_len + 1 == post_len
            } else {
                valid_sig
            }
        },
        ChangedKey::Unknown => valid_sig,
    }
}

/// What the intent check concludes when the transaction carried no
/// decodable intent for this account at all.
pub open spec fn intent_valid_spec(intent: Option<ExchangeCheck>) -> bool {
    match intent {
        Some(c) => check_intent_spec(c),
        None => false,
    }
}

/// Checks one exchange intent against the balance changes the transaction
/// caused.
pub fn check_intent(c: &ExchangeCheck) -> (r: bool)
    requires
        c.rate_scale <= MAX_DECIMAL_SCALE,
        -MAX_DECIMAL_MANTISSA <= c.rate_num <= MAX_DECIMAL_MANTISSA,
    ensures
        r == check_intent_spec(*c),
{
    if !c.key_known {
        return false;
    }
    if !c.sig_valid {
        return false;
    }
    if !c.exchange_fresh {
        return false;
    }
    let sell_diff: i128 = c.sell_pre as i128 - c.sell_post as i128;
    let buy_diff: i128 = c.buy_post as i128 - c.buy_pre as i128;
    if buy_diff <= 0 {
        return false;
    }
    let q = decimal_div(sell_diff, buy_diff);
    if decimal_gt(q.0, q.1, c.rate_num, c.rate_scale) {
        return false;
    }
    if (c.max_sell as i128) < sell_diff {
        return false;
    }
    true
}

/// Checks the intent the transaction carries for this account, if the host
/// decoded one: with none — an undecodable payload, or no exchange naming
/// the account — no intent-based authority is granted.
pub fn check_intent_transfers(intent: Option<&ExchangeCheck>) -> (r: bool)
    requires
        match intent {
            Some(c) => c.rate_scale <= MAX_DECIMAL_SCALE && -MAX_DECIMAL_MANTISSA <= c.rate_num
                <= MAX_DECIMAL_MANTISSA,
            None => true,
        },
    ensures
        r == intent_valid_spec(match intent {
            Some(c) => Some(*c),
            None => None,
        }),
{
    match intent {
        Some(c) => check_intent(c),
        None => false,
    }
}

/// Validates a transaction against the account's rules: every changed key
/// must be individually authorized, the signature verdict and the intent
/// verdict standing in for the host's signature check and the decoded
/// intent.
pub fn validate_tx(
    addr: u64,
    valid_sig: bool,
    intent: Option<&ExchangeCheck>,
    keys_changed: &Vec<ChangedKey>,
) -> (r: bool)
    requires
        match intent {
            Some(c) => c.rate_scale <= MAX_DECIMAL_SCALE && -MAX_DECIMAL_MANTISSA <= c.rate_num
                <= MAX_DECIMAL_MANTISSA,
            None => true,
        },
    ensures
        r == (forall|i: int|
            0 <= i < keys_changed@.len() ==> key_valid(
                #[trigger] keys_changed@[i],
                addr,
                valid_sig,
                intent_valid_spec(match intent {
                    Some(c) => Some(*c),
                    None => None,
                }),
            )),
{
    let valid_intent = check_intent_transfers(intent);
    let mut i: usize = 0;
    while i < keys_changed.len()
        invariant
            0 <= i <= keys_changed@.len(),
            forall|j: int|
                0 <= j < i ==> key_valid(
                    #[trigger] keys_changed@[j],
                    addr,
                    valid_sig,
                    valid_intent,
                ),
            valid_intent == intent_valid_spec(match intent {
                Some(c) => Some(*c),
                None => None,
            }),
        decreases keys_changed@.len() - i,
    {
        let key = keys_changed[i];
        let is_valid: bool = match key {
            ChangedKey::Token { owner, pre, post } => {
                if owner == addr {
                    (post < pre && (valid_sig || valid_intent)) || post > pre
                } else {
                    valid_sig
                }
            }
            ChangedKey::InvalidIntentSet { owner, pre_len, post_len } => {
                if owner == addr {
                    post_len > 0 && post_len - 1 == pre_len
                } else {
                    valid_sig
                }
            }
            ChangedKey::Unknown => valid_sig,
        };
        if !is_valid {
            return false;
        }
        i = i + 1;
    }
    true
}

} // verus!
