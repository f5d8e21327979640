//! Decimal rendering and parsing of unsigned integers, used to build and read
//! the storage keys under which governance proposals are filed.
//!
//! Storage scans match by *byte prefix*, so the decimal text of one epoch can
//! be a proper prefix of another's (epoch 11 of 110). The round-trip lemmas
//! here are what lets the shell reject those false positives soundly.

use vstd::prelude::*;

verus! {

/// Decimal digit bytes of `n`, most significant first.
pub open spec fn dec_digits(n: nat) -> Seq<u8>
    decreases n,
{
    if n < 10 {
        seq![(n + 48) as u8]
    } else {
        dec_digits(n / 10).push(((n % 10) + 48) as u8)
    }
}

/// The numeric value read from a sequence of decimal digit bytes.
pub open spec fn dec_value(s: Seq<u8>) -> int
    decreases s.len(),
{
    if s.len() == 0 {
        0
    } else {
        dec_value(s.drop_last()) * 10 + (s.last() - 48)
    }
}

pub open spec fn is_dec_digit(b: u8) -> bool {
    48 <= b <= 57
}

pub open spec fn all_dec_digits(s: Seq<u8>) -> bool {
    forall|i: int| 0 <= i < s.len() ==> is_dec_digit(#[trigger] s[i])
}

/// Every byte that decimal rendering produces is a digit byte.
pub proof fn lemma_dec_digits_are_digits(n: nat)
    ensures
        all_dec_digits(dec_digits(n)),
        dec_digits(n).len() >= 1,
    decreases n,
{
    if n >= 10 {
        lemma_dec_digits_are_digits(n / 10);
        assert forall|i: int| 0 <= i < dec_digits(n).len() implies is_dec_digit(
            #[trigger] dec_digits(n)[i],
        ) by {
            if i < dec_digits(n / 10).len() {
                assert(dec_digits(n)[i] == dec_digits(n / 10)[i]);
            }
        }
    }
}

/// Reading back the decimal rendering of `n` yields `n` again.
pub proof fn lemma_dec_round_trip(n: nat)
    ensures
        dec_value(dec_digits(n)) == n,
    decreases n,
{
    if n < 10 {
        assert(dec_digits(n).drop_last() =~= Seq::<u8>::empty());
        assert(dec_value(dec_digits(n).drop_last()) == 0);
        assert(dec_digits(n).last() == (n + 48) as u8);
        assert((n + 48) as u8 == n + 48);
        assert(dec_value(dec_digits(n)) == n);
    } else {
        lemma_dec_round_trip(n / 10);
        assert(dec_digits(n).drop_last() =~= dec_digits(n / 10));
        assert(dec_digits(n).last() == ((n % 10) + 48) as u8);
        vstd::arithmetic::div_mod::lemma_fundamental_div_mod(n as int, 10);
        vstd::arithmetic::div_mod::lemma_mod_bound(n as int, 10);
        assert((n % 10 + 48) as u8 == n % 10 + 48);
        assert(dec_value(dec_digits(n)) == (n / 10) * 10 + ((n % 10 + 48) as u8 - 48));
        assert(dec_value(dec_digits(n)) == (n / 10) * 10 + n % 10);
        assert((n / 10) * 10 == 10 * ((n as int) / 10));
    }
}

/// A digit string reads as a non-negative value.
proof fn lemma_dec_value_nonneg(s: Seq<u8>)
    requires
        all_dec_digits(s),
    ensures
        dec_value(s) >= 0,
    decreases s.len(),
{
    if s.len() > 0 {
        assert(all_dec_digits(s.drop_last()));
        lemma_dec_value_nonneg(s.drop_last());
        assert(dec_value(s.drop_last()) * 10 >= 0) by (nonlinear_arith)
            requires
                dec_value(s.drop_last()) >= 0,
        ;
    }
}

/// Within an all-digit string, the value read from a prefix, extended by the
/// next digit, never exceeds the value of the whole string.
proof fn lemma_dec_value_monotone(s: Seq<u8>, i: int)
    requires
        all_dec_digits(s),
        0 <= i < s.len(),
    ensures
        dec_value(s.take(i)) * 10 + (s[i] - 48) <= dec_value(s),
    decreases s.len() - i,
{
    assert(s.take(i + 1).drop_last() =~= s.take(i));
    assert(s.take(i + 1).last() == s[i]);
    if i + 1 == s.len() {
        assert(s.take(i + 1) =~= s);
    } else {
        lemma_dec_value_monotone(s, i + 1);
        let a = dec_value(s.take(i));
        let b = dec_value(s.take(i + 1));
        assert(b == a * 10 + (s[i] - 48));
        assert(all_dec_digits(s.take(i + 1)));
        lemma_dec_value_nonneg(s.take(i + 1));
        assert(b <= b * 10) by (nonlinear_arith)
            requires
                b >= 0,
        ;
        assert(b * 10 + (s[i + 1] - 48) <= dec_value(s));
    }
}

/// Renders `n` in decimal, most significant digit first.
pub fn render_u64(n: u64) -> (r: Vec<u8>)
    ensures
        r@ == dec_digits(n as nat),
    decreases n,
{
    let mut r: Vec<u8> = if n >= 10 {
        render_u64(n / 10)
    } else {
        Vec::new()
    };
    r.push((n % 10) as u8 + 48);
    proof {
        if n < 10 {
            assert(r@ =~= dec_digits(n as nat));
        }
    }
    r
}

/// Parses a decimal number, accepting exactly the non-empty all-digit
/// strings whose value fits in a `u64`.
pub fn parse_u64(s: &[u8]) -> (r: Option<u64>)
    ensures
        match r {
            Some(v) => s@.len() > 0 && all_dec_digits(s@) && dec_value(s@) == v,
            None => s@.len() == 0 || !all_dec_digits(s@) || dec_value(s@) > u64::MAX,
        },
{
    if s.len() == 0 {
        return None;
    }
    let mut v: u64 = 0;
    let mut i: usize = 0;
    while i < s.len()
        invariant
            0 <= i <= s@.len(),
            all_dec_digits(s@.take(i as int)),
            dec_value(s@.take(i as int)) == v,
        decreases s@.len() - i,
    {
        let b = s[i];
        if b < 48 || b > 57 {
            assert(!is_dec_digit(s@[i as int]));
            return None;
        }
        let d = (b - 48) as u64;
        if v > (u64::MAX - d) / 10 {
            proof {
                if all_dec_digits(s@) {
                    lemma_dec_value_monotone(s@, i as int);
                    assert(v * 10 + d > u64::MAX) by (nonlinear_arith)
                        requires
                            v > (u64::MAX - d) / 10,
                            d <= 9,
                    ;
                }
            }
            return None;
        }
        proof {
            assert(v * 10 + d <= u64::MAX) by (nonlinear_arith)
                requires
                    v <= (u64::MAX - d) / 10,
                    d <= 9,
            ;
            assert(s@.take(i + 1).drop_last() =~= s@.take(i as int));
            assert(s@.take(i + 1).last() == s@[i as int]);
        }
        v = v * 10 + d;
        i = i + 1;
    }
    proof {
        assert(s@.take(i as int) =~= s@);
    }
    Some(v)
}

} // verus!
