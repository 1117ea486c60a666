//! Common calculations: share/value conversions with a wide intermediate product.
use vstd::prelude::*;
use vstd::arithmetic::div_mod::*;
use vstd::arithmetic::mul::*;

use crate::error::MarinadeError;

verus! {

/// `amount * numerator / denominator` over the integers (rounded down), or `amount` itself
/// when the denominator is zero.
pub open spec fn proportional_value(amount: u64, numerator: u64, denominator: u64) -> int {
    if denominator == 0 {
        amount as int
    } else {
        (amount as int * numerator as int) / denominator as int
    }
}

/// What `proportional` answers: the exact value when it fits in 64 bits, else a calculation failure.
pub open spec fn spec_proportional(amount: u64, numerator: u64, denominator: u64) -> Result<u64, MarinadeError> {
    let v = proportional_value(amount, numerator, denominator);
    if v <= u64::MAX {
        Ok(v as u64)
    } else {
        Err(MarinadeError::CalculationFailure)
    }
}

/// What `shares_from_value` answers: the value itself for the first mint, otherwise the value
/// priced at `total_shares / total_value`.
pub open spec fn spec_shares_from_value(value: u64, total_value: u64, total_shares: u64) -> Result<u64, MarinadeError> {
    if total_shares == 0 {
        Ok(value)
    } else {
        spec_proportional(value, total_shares, total_value)
    }
}

proof fn lemma_product_fits_u128(a: u64, b: u64)
    ensures
        (a as int) * (b as int) <= u128::MAX,
        0 <= (a as int) * (b as int),
{
    assert((a as int) * (b as int) <= (u64::MAX as int) * (u64::MAX as int)) by (nonlinear_arith)
        requires
            a <= u64::MAX,
            b <= u64::MAX,
    ;
    assert(0 <= (a as int) * (b as int)) by (nonlinear_arith);
}

/// calculate amount*numerator/denominator
/// as value  = shares * share_price where share_price=total_value/total_shares
/// or shares = amount_value / share_price where share_price=total_value/total_shares
///     => shares = amount_value * 1/share_price where 1/share_price=total_shares/total_value
pub fn proportional(amount: u64, numerator: u64, denominator: u64) -> (r: Result<u64, MarinadeError>)
    ensures
        r == spec_proportional(amount, numerator, denominator),
{
    if denominator == 0 {
        return Ok(amount);
    }
    proof {
        lemma_product_fits_u128(amount, numerator);
    }
    let product: u128 = (amount as u128) * (numerator as u128);
    let quotient: u128 = product / (denominator as u128);
    if quotient <= (u64::MAX as u128) {
        Ok(quotient as u64)
    } else {
        Err(MarinadeError::CalculationFailure)
    }
}

/// Value of `shares` when `total_shares` shares stand for `total_value` (alias of `proportional`).
pub fn value_from_shares(shares: u64, total_value: u64, total_shares: u64) -> (r: Result<u64, MarinadeError>)
    ensures
        r == spec_proportional(shares, total_value, total_shares),
{
    proportional(shares, total_value, total_shares)
}

/// Shares worth `value` when `total_shares` shares stand for `total_value`;
/// with no shares yet (first mint) one share per unit of value.
pub fn shares_from_value(value: u64, total_value: u64, total_shares: u64) -> (r: Result<u64, MarinadeError>)
    ensures
        r == spec_shares_from_value(value, total_value, total_shares),
{
    if total_shares == 0 {
        //no shares minted yet / First mint
        Ok(value)
    } else {
        proportional(value, total_shares, total_value)
    }
}

/// A proportional part never exceeds the whole when the ratio is at most one:
/// `proportional(amount, n, d)` succeeds and is at most `amount` whenever `n <= d`.
pub proof fn lemma_proportional_at_most_amount(amount: u64, numerator: u64, denominator: u64)
    requires
        numerator <= denominator,
    ensures
        spec_proportional(amount, numerator, denominator) is Ok,
        spec_proportional(amount, numerator, denominator)->Ok_0 <= amount,
{
    if denominator != 0 {
        let a = amount as int;
        let n = numerator as int;
        let d = denominator as int;
        assert(a * n <= a * d) by (nonlinear_arith)
            requires
                0 <= a,
                n <= d,
        ;
        lemma_div_is_ordered(a * n, a * d, d);
        lemma_div_multiples_vanish(a, d);
        lemma_mul_is_commutative(a, d);
        assert(a * n >= 0) by (nonlinear_arith)
            requires
                0 <= a,
                0 <= n,
        ;
        lemma_div_pos_is_pos(a * n, d);
    }
}

/// `proportional` is monotone in the amount: a larger amount never gives a smaller part.
pub proof fn lemma_proportional_monotone(a1: u64, a2: u64, numerator: u64, denominator: u64)
    requires
        a1 <= a2,
    ensures
        proportional_value(a1, numerator, denominator) <= proportional_value(a2, numerator, denominator),
{
    if denominator != 0 {
        let n = numerator as int;
        assert((a1 as int) * n <= (a2 as int) * n) by (nonlinear_arith)
            requires
                a1 <= a2,
                0 <= n,
        ;
        lemma_div_is_ordered((a1 as int) * n, (a2 as int) * n, denominator as int);
    }
}

/// Minting shares for a value and then valuing those shares never gives back more than was put in
/// (both conversions round down), for any non-empty pool.
pub proof fn lemma_shares_round_trip_never_gains(value: u64, total_value: u64, total_shares: u64)
    requires
        total_value > 0,
        total_shares > 0,
        spec_shares_from_value(value, total_value, total_shares) is Ok,
    ensures
        proportional_value(spec_shares_from_value(value, total_value, total_shares)->Ok_0, total_value, total_shares)
            <= value,
{
    let v = value as int;
    let tv = total_value as int;
    let ts = total_shares as int;
    let s = (v * ts) / tv;
    assert(spec_shares_from_value(value, total_value, total_shares)->Ok_0 == s);
    // s * tv <= v * ts
    lemma_fundamental_div_mod(v * ts, tv);
    lemma_mod_pos_bound(v * ts, tv);
    lemma_mul_is_commutative(tv, s);
    assert(s * tv <= v * ts);
    // (s * tv) / ts <= (v * ts) / ts == v
    assert(s >= 0) by {
        assert(v * ts >= 0) by (nonlinear_arith)
            requires
                v >= 0,
                ts >= 0,
        ;
        lemma_div_pos_is_pos(v * ts, tv);
    }
    lemma_div_is_ordered(s * tv, v * ts, ts);
    lemma_div_multiples_vanish(v, ts);
    lemma_mul_is_commutative(v, ts);
}

} // verus!
