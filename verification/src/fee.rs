//! Fees expressed in basis points and in hundredths of a basis point.
use vstd::prelude::*;
use vstd::arithmetic::div_mod::*;

use crate::error::MarinadeError;

verus! {

/// 100% in basis points.
pub const MAX_BASIS_POINTS: u32 = 10_000;

/// 100% in basis-point cents.
pub const MAX_BP_CENTS: u32 = 1_000_000;

/// A fee in basis points (1/10000).
#[derive(Clone, Copy, Debug, PartialEq, Eq, Default)]
pub struct Fee {
    pub basis_points: u32,
}

/// A fee in hundredths of a basis point (1/1000000).
#[derive(Clone, Copy, Debug, PartialEq, Eq, Default)]
pub struct FeeCents {
    pub bp_cents: u32,
}

/// `lamports * rate / denominator`, computed in 128 bits and truncated to 64.
pub open spec fn spec_apply_rate(lamports: u64, rate: u32, denominator: u32) -> u64 {
    ((lamports as int * rate as int) / denominator as int) as u64
}

/// A rate of at most one takes a part between zero and the whole, computed without overflow.
pub proof fn lemma_rate_bounds(lamports: u64, rate: u32, denominator: u32)
    requires
        denominator > 0,
    ensures
        0 <= (lamports as int * rate as int) / denominator as int,
        (lamports as int * rate as int) <= u128::MAX,
        rate <= denominator ==> (lamports as int * rate as int) / denominator as int <= lamports,
{
    let a = lamports as int;
    let r = rate as int;
    let d = denominator as int;
    assert(0 <= a * r && a * r <= u128::MAX) by (nonlinear_arith)
        requires
            0 <= a <= u64::MAX,
            0 <= r <= u32::MAX,
    ;
    lemma_div_pos_is_pos(a * r, d);
    if rate <= denominator {
        assert(a * r <= a * d) by (nonlinear_arith)
            requires
                0 <= a,
                r <= d,
        ;
        lemma_div_is_ordered(a * r, a * d, d);
        lemma_div_by_multiple(a, d);
    }
}

fn apply_rate(lamports: u64, rate: u32, denominator: u32) -> (r: u64)
    requires
        denominator > 0,
    ensures
        r == spec_apply_rate(lamports, rate, denominator),
        rate <= denominator ==> r == (lamports as int * rate as int) / denominator as int,
        rate <= denominator ==> r <= lamports,
{
    proof {
        lemma_rate_bounds(lamports, rate, denominator);
    }
    let product: u128 = (lamports as u128) * (rate as u128);
    let q: u128 = product / (denominator as u128);
    q as u64
}

impl Fee {
    pub fn from_basis_points(basis_points: u32) -> (f: Fee)
        ensures
            f.basis_points == basis_points,
    {
        Fee { basis_points }
    }

    /// The fee must not exceed 100%.
    pub fn check(&self) -> (r: Result<(), MarinadeError>)
        ensures
            r is Ok <==> self.basis_points <= MAX_BASIS_POINTS,
            r is Err ==> r == Err::<(), MarinadeError>(MarinadeError::BasisPointsOverflow),
    {
        if self.basis_points > MAX_BASIS_POINTS {
            Err(MarinadeError::BasisPointsOverflow)
        } else {
            Ok(())
        }
    }

    /// The fee part of `lamports`, rounded down.
    pub fn apply(&self, lamports: u64) -> (r: u64)
        ensures
            r == spec_apply_rate(lamports, self.basis_points, MAX_BASIS_POINTS),
            self.basis_points <= MAX_BASIS_POINTS ==> r <= lamports,
    {
        apply_rate(lamports, self.basis_points, MAX_BASIS_POINTS)
    }
}

impl FeeCents {
    pub fn from_bp_cents(bp_cents: u32) -> (f: FeeCents)
        ensures
            f.bp_cents == bp_cents,
    {
        FeeCents { bp_cents }
    }

    /// The fee must not exceed 100%.
    pub fn check(&self) -> (r: Result<(), MarinadeError>)
        ensures
            r is Ok <==> self.bp_cents <= MAX_BP_CENTS,
            r is Err ==> r == Err::<(), MarinadeError>(MarinadeError::BasisPointCentsOverflow),
    {
        if self.bp_cents > MAX_BP_CENTS {
            Err(MarinadeError::BasisPointCentsOverflow)
        } else {
            Ok(())
        }
    }

    /// The fee part of `lamports`, rounded down.
    pub fn apply(&self, lamports: u64) -> (r: u64)
        ensures
            r == spec_apply_rate(lamports, self.bp_cents, MAX_BP_CENTS),
            self.bp_cents <= MAX_BP_CENTS ==> r <= lamports,
    {
        apply_rate(lamports, self.bp_cents, MAX_BP_CENTS)
    }
}

/// A valid fee never takes more than the amount it is applied to, and never takes
/// more from a smaller amount than from a larger one.
pub proof fn lemma_fee_apply_bounded_and_monotone(fee: Fee, a1: u64, a2: u64)
    requires
        fee.basis_points <= MAX_BASIS_POINTS,
        a1 <= a2,
    ensures
        spec_apply_rate(a1, fee.basis_points, MAX_BASIS_POINTS) <= a1,
        spec_apply_rate(a1, fee.basis_points, MAX_BASIS_POINTS)
            <= spec_apply_rate(a2, fee.basis_points, MAX_BASIS_POINTS),
{
    lemma_rate_bounds(a1, fee.basis_points, MAX_BASIS_POINTS);
    lemma_rate_bounds(a2, fee.basis_points, MAX_BASIS_POINTS);
    let r = fee.basis_points as int;
    assert((a1 as int) * r <= (a2 as int) * r) by (nonlinear_arith)
        requires
            a1 <= a2,
            0 <= r,
    ;
    lemma_div_is_ordered((a1 as int) * r, (a2 as int) * r, MAX_BASIS_POINTS as int);
}


/// A rate applied to lamports is their exact share divided down: the result times the
/// denominator is at most `lamports * rate`, and one more would exceed it.
pub proof fn lemma_apply_rate_divides_down(lamports: u64, rate: u32, denominator: u32)
    requires
        denominator > 0,
        rate <= denominator,
    ensures
        spec_apply_rate(lamports, rate, denominator) * denominator <= lamports as int * rate as int,
        (lamports as int * rate as int) < (spec_apply_rate(lamports, rate, denominator) + 1) * denominator,
        spec_apply_rate(lamports, rate, denominator) <= lamports,
{
    lemma_rate_bounds(lamports, rate, denominator);
    let p = lamports as int * rate as int;
    let d = denominator as int;
    vstd::arithmetic::div_mod::lemma_fundamental_div_mod(p, d);
    vstd::arithmetic::div_mod::lemma_mod_pos_bound(p, d);
    vstd::arithmetic::mul::lemma_mul_is_commutative(d, p / d);
    vstd::arithmetic::mul::lemma_mul_is_distributive_add(d, p / d, 1);
    vstd::arithmetic::mul::lemma_mul_is_commutative(d, p / d + 1);
}

} // verus!
