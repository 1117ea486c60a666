//! The SOL/mSOL liquidity pool: its parameters, the liquid-unstake fee curve and LP accounting.
use vstd::prelude::*;

use crate::calc::{proportional, proportional_value, lemma_proportional_at_most_amount, lemma_proportional_monotone};
use crate::error::{MarinadeError, ProgramError};
use crate::fee::{Fee, MAX_BASIS_POINTS};
use crate::pda::{
    address_with_seed, find_address, spec_create_with_seed, spec_program_id, spec_seeds, spec_token_program_id,
    spec_try_find_program_address, token_program_id, SeedTag,
};
use crate::pubkey::Pubkey;

verus! {

/// The liquidity pool parameters and counters kept in the state.
#[derive(Clone, Copy, Debug)]
pub struct LiqPool {
    pub lp_mint: Pubkey,
    pub lp_mint_authority_bump_seed: u8,
    pub sol_leg_bump_seed: u8,
    pub msol_leg_authority_bump_seed: u8,
    pub msol_leg: Pubkey,
    //The next 3 values define the SOL/mSOL Liquidity pool fee curve params
    // We assume this pool is always UNBALANCED, there should be more SOL than mSOL 99% of the time
    ///Liquidity target. If the Liquidity reach this amount, the fee reaches lp_min_discount_fee
    pub lp_liquidity_target: u64,  // 10_000 SOL initially
    /// Liquidity pool max fee
    pub lp_max_fee: Fee,  //3% initially
    /// SOL/mSOL Liquidity pool min fee
    pub lp_min_fee: Fee,  //0.3% initially
    /// Treasury cut
    pub treasury_cut: Fee,  //2500 => 25% how much of the Liquid unstake fee goes to treasury_msol_account
    pub lp_supply: u64,  // virtual lp token supply. May be > real supply because of burning tokens. Use UpdateLiqPool to align it with real value
    pub lent_from_sol_leg: u64,
    pub liquidity_sol_cap: u64,
}

/// Lowest liquidity target an admin may set (50 SOL).
pub const MIN_LIQUIDITY_TARGET: u64 = 50_000_000_000;

/// Highest liquid-unstake fee (10%).
pub const MAX_LP_FEE_BASIS_POINTS: u32 = 1_000;

/// Highest treasury cut of the liquid-unstake fee (75%).
pub const MAX_TREASURY_CUT_BASIS_POINTS: u32 = 7_500;

/// The text seed of the default mSOL leg token account.
pub const MSOL_LEG_SEED: &'static str = "liq_st_sol";

/// The liquid-unstake fee in basis points when `lamports` of liquidity remain: from the max
/// fee at no liquidity down linearly to the min fee at the liquidity target.
pub open spec fn spec_linear_fee(pool: LiqPool, lamports: u64) -> u32 {
    if lamports >= pool.lp_liquidity_target {
        pool.lp_min_fee.basis_points
    } else {
        (pool.lp_max_fee.basis_points - proportional_value(spec_delta(pool) as u64, lamports, pool.lp_liquidity_target)) as u32
    }
}

/// Spread between the max and the min fee (none when they are the wrong way round).
pub open spec fn spec_delta(pool: LiqPool) -> u32 {
    if pool.lp_max_fee.basis_points >= pool.lp_min_fee.basis_points {
        (pool.lp_max_fee.basis_points - pool.lp_min_fee.basis_points) as u32
    } else {
        0
    }
}

/// What `validate` answers: the first parameter check that fails, in order.
pub open spec fn spec_validate(pool: LiqPool) -> Result<(), MarinadeError> {
    if pool.lp_min_fee.basis_points > MAX_BASIS_POINTS || pool.lp_max_fee.basis_points > MAX_BASIS_POINTS
        || pool.treasury_cut.basis_points > MAX_BASIS_POINTS {
        Err(MarinadeError::BasisPointsOverflow)
    } else if pool.lp_max_fee.basis_points > MAX_LP_FEE_BASIS_POINTS {
        Err(MarinadeError::LpMaxFeeIsTooHigh)
    } else if pool.lp_max_fee.basis_points < pool.lp_min_fee.basis_points {
        Err(MarinadeError::LpFeesAreWrongWayRound)
    } else if pool.lp_liquidity_target < MIN_LIQUIDITY_TARGET {
        Err(MarinadeError::LiquidityTargetTooLow)
    } else if pool.treasury_cut.basis_points > MAX_TREASURY_CUT_BASIS_POINTS {
        Err(MarinadeError::TreasuryCutIsTooHigh)
    } else {
        Ok(())
    }
}

/// What `check_fees` answers for a min/max fee pair.
pub open spec fn spec_check_fees(min_fee: Fee, max_fee: Fee) -> Result<(), MarinadeError> {
    if min_fee.basis_points > MAX_BASIS_POINTS || max_fee.basis_points > MAX_BASIS_POINTS {
        Err(MarinadeError::BasisPointsOverflow)
    } else if max_fee.basis_points > MAX_LP_FEE_BASIS_POINTS {
        Err(MarinadeError::LpMaxFeeIsTooHigh)
    } else if min_fee.basis_points > max_fee.basis_points {
        Err(MarinadeError::LpFeesAreWrongWayRound)
    } else {
        Ok(())
    }
}

/// Checks a min/max liquid-unstake fee pair: both valid, max at most 10%, min not above max.
pub fn check_fees(min_fee: Fee, max_fee: Fee) -> (r: Result<(), MarinadeError>)
    ensures
        r == spec_check_fees(min_fee, max_fee),
{
    min_fee.check()?;
    max_fee.check()?;
    //hard-limit, max liquid unstake-fee of 10%
    if max_fee.basis_points > MAX_LP_FEE_BASIS_POINTS {
        return Err(MarinadeError::LpMaxFeeIsTooHigh);
    }
    if min_fee.basis_points > max_fee.basis_points {
        return Err(MarinadeError::LpFeesAreWrongWayRound);
    }
    Ok(())
}

/// Checks the liquidity target is at least 50 SOL.
pub fn check_liquidity_target(liquidity_target: u64) -> (r: Result<(), MarinadeError>)
    ensures
        r is Ok <==> liquidity_target >= MIN_LIQUIDITY_TARGET,
        r is Err ==> r == Err::<(), MarinadeError>(MarinadeError::LiquidityTargetTooLow),
{
    if liquidity_target < MIN_LIQUIDITY_TARGET {
        Err(MarinadeError::LiquidityTargetTooLow)
    } else {
        Ok(())
    }
}

/// Checks an address equals the expected one.
pub fn check_address(actual: &Pubkey, expected: &Pubkey, field_name: &str) -> (r: Result<(), ProgramError>)
    ensures
        r is Ok <==> actual@ == expected@,
        r is Err ==> r == Err::<(), ProgramError>(ProgramError::InvalidArgument),
{
    if actual.same_key(expected) {
        Ok(())
    } else {
        Err(ProgramError::InvalidArgument)
    }
}

impl LiqPool {
    /// The LP mint authority derived from the state address, with its bump.
    pub fn find_lp_mint_authority(state: &Pubkey) -> (r: Option<(Pubkey, u8)>)
        ensures
            r is Some <==> spec_try_find_program_address(spec_seeds(state@, SeedTag::LpMintAuthority), spec_program_id())
                is Some,
            r matches Some(p) ==> spec_try_find_program_address(spec_seeds(state@, SeedTag::LpMintAuthority), spec_program_id())
                == Some((p.0@, p.1)),
    {
        find_address(state, SeedTag::LpMintAuthority)
    }

    /// The SOL leg account derived from the state address, with its bump.
    pub fn find_sol_leg_address(state: &Pubkey) -> (r: Option<(Pubkey, u8)>)
        ensures
            r is Some <==> spec_try_find_program_address(spec_seeds(state@, SeedTag::SolLeg), spec_program_id()) is Some,
            r matches Some(p) ==> spec_try_find_program_address(spec_seeds(state@, SeedTag::SolLeg), spec_program_id())
                == Some((p.0@, p.1)),
    {
        find_address(state, SeedTag::SolLeg)
    }

    /// The mSOL leg authority derived from the state address, with its bump.
    pub fn find_msol_leg_authority(state: &Pubkey) -> (r: Option<(Pubkey, u8)>)
        ensures
            r is Some <==> spec_try_find_program_address(spec_seeds(state@, SeedTag::MsolLegAuthority), spec_program_id())
                is Some,
            r matches Some(p) ==> spec_try_find_program_address(spec_seeds(state@, SeedTag::MsolLegAuthority), spec_program_id())
                == Some((p.0@, p.1)),
    {
        find_address(state, SeedTag::MsolLegAuthority)
    }

    /// The default mSOL leg token account: derived from the state address with the
    /// `liq_st_sol` seed for the token program.
    pub fn default_msol_leg_address(state: &Pubkey) -> (r: Option<Pubkey>)
        ensures
            r is Some <==> spec_create_with_seed(state@, MSOL_LEG_SEED@, spec_token_program_id()) is Some,
            r matches Some(k) ==> spec_create_with_seed(state@, MSOL_LEG_SEED@, spec_token_program_id()) == Some(k@),
    {
        let owner = token_program_id();
        address_with_seed(state, MSOL_LEG_SEED, &owner)
    }

    pub fn check_lp_mint(&self, lp_mint: &Pubkey) -> (r: Result<(), ProgramError>)
        ensures
            r is Ok <==> lp_mint@ == self.lp_mint@,
            r is Err ==> r == Err::<(), ProgramError>(ProgramError::InvalidArgument),
    {
        check_address(lp_mint, &self.lp_mint, "lp_mint")
    }

    pub fn check_liq_pool_msol_leg(&self, liq_pool_msol_leg: &Pubkey) -> (r: Result<(), ProgramError>)
        ensures
            r is Ok <==> liq_pool_msol_leg@ == self.msol_leg@,
            r is Err ==> r == Err::<(), ProgramError>(ProgramError::InvalidArgument),
    {
        check_address(liq_pool_msol_leg, &self.msol_leg, "liq_pool_msol_leg")
    }

    pub fn delta(&self) -> (r: u32)
        ensures
            r == spec_delta(*self),
    {
        self.lp_max_fee.basis_points.saturating_sub(self.lp_min_fee.basis_points)
    }

    ///compute a linear fee based on liquidity amount, it goes from fee(0)=max -> fee(x>=target)=min
    pub fn linear_fee(&self, lamports: u64) -> (r: Fee)
        ensures
            r.basis_points == spec_linear_fee(*self, lamports),
    {
        if lamports >= self.lp_liquidity_target {
            self.lp_min_fee
        } else {
            let delta = self.delta();
            proof {
                lemma_proportional_part_below_whole(delta as u64, lamports, self.lp_liquidity_target);
            }
            let part = match proportional(delta as u64, lamports, self.lp_liquidity_target) {
                Ok(p) => p,
                Err(_) => 0,  // unreachable: the part is below the spread
            };
            Fee { basis_points: self.lp_max_fee.basis_points - part as u32 }
        }
    }

    /// Accounts newly minted LP tokens.
    pub fn on_lp_mint(&mut self, amount: u64)
        requires
            old(self).lp_supply + amount <= u64::MAX,
        ensures
            *final(self) == (LiqPool { lp_supply: (old(self).lp_supply + amount) as u64, ..*old(self) }),
    {
        self.lp_supply = self.lp_supply + amount;
    }

    /// Accounts burnt LP tokens (never below zero).
    pub fn on_lp_burn(&mut self, amount: u64)
        ensures
            *final(self) == (LiqPool {
                lp_supply: if old(self).lp_supply >= amount { (old(self).lp_supply - amount) as u64 } else { 0 },
                ..*old(self)
            }),
    {
        self.lp_supply = self.lp_supply.saturating_sub(amount);
    }

    /// Checks that the SOL leg stays within the liquidity cap after receiving `transfering_lamports`.
    pub fn check_liquidity_cap(&self, transfering_lamports: u64, sol_leg_balance: u64) -> (r: Result<(), ProgramError>)
        ensures
            sol_leg_balance + transfering_lamports > u64::MAX ==> r == Err::<(), ProgramError>(ProgramError::InvalidArgument),
            sol_leg_balance + transfering_lamports <= u64::MAX && sol_leg_balance + transfering_lamports > self.liquidity_sol_cap
                ==> r == Err::<(), ProgramError>(ProgramError::Custom(LIQUIDITY_CAPPED_CODE)),
            r is Ok <==> sol_leg_balance + transfering_lamports <= self.liquidity_sol_cap,
    {
        let result_amount = match sol_leg_balance.checked_add(transfering_lamports) {
            Some(v) => v,
            None => {
                return Err(ProgramError::InvalidArgument);
            },
        };
        if result_amount > self.liquidity_sol_cap {
            return Err(ProgramError::Custom(LIQUIDITY_CAPPED_CODE));
        }
        Ok(())
    }

    /// Checks the pool parameters: valid fees, max fee at most 10%, min fee not above max fee,
    /// liquidity target at least 50 SOL, treasury cut at most 75%.
    pub fn validate(&self) -> (r: Result<(), MarinadeError>)
        ensures
            r == spec_validate(*self),
    {
        self.lp_min_fee.check()?;
        self.lp_max_fee.check()?;
        self.treasury_cut.check()?;
        // hard-limit, max liquid unstake-fee of 10%
        if self.lp_max_fee.basis_points > MAX_LP_FEE_BASIS_POINTS {
            return Err(MarinadeError::LpMaxFeeIsTooHigh);
        }
        if self.lp_max_fee.basis_points < self.lp_min_fee.basis_points {
            return Err(MarinadeError::LpFeesAreWrongWayRound);
        }
        if self.lp_liquidity_target < MIN_LIQUIDITY_TARGET {
            return Err(MarinadeError::LiquidityTargetTooLow);
        }
        if self.treasury_cut.basis_points > MAX_TREASURY_CUT_BASIS_POINTS {
            return Err(MarinadeError::TreasuryCutIsTooHigh);
        }
        Ok(())
    }
}

/// Code of the liquidity-cap error as raised by the cap check.
pub const LIQUIDITY_CAPPED_CODE: u32 = 3782;

proof fn lemma_proportional_part_below_whole(delta: u64, lamports: u64, target: u64)
    requires
        lamports < target,
        delta <= u32::MAX,
    ensures
        proportional_value(delta, lamports, target) <= delta,
        crate::calc::spec_proportional(delta, lamports, target) == Ok::<u64, MarinadeError>(
            proportional_value(delta, lamports, target) as u64,
        ),
{
    lemma_proportional_at_most_amount(delta, lamports, target);
}

/// The liquid-unstake fee curve: for a pool with valid parameters the fee is the max fee with no
/// liquidity left, the min fee at or above the liquidity target, always between the two, and it
/// never grows when more liquidity remains.
pub proof fn lemma_linear_fee_curve(pool: LiqPool, l1: u64, l2: u64)
    requires
        pool.lp_min_fee.basis_points <= pool.lp_max_fee.basis_points,
        pool.lp_liquidity_target > 0,
        l1 <= l2,
    ensures
        spec_linear_fee(pool, 0) == pool.lp_max_fee.basis_points,
        l1 >= pool.lp_liquidity_target ==> spec_linear_fee(pool, l1) == pool.lp_min_fee.basis_points,
        pool.lp_min_fee.basis_points <= spec_linear_fee(pool, l1) <= pool.lp_max_fee.basis_points,
        spec_linear_fee(pool, l2) <= spec_linear_fee(pool, l1),
{
    let d = spec_delta(pool);
    let t = pool.lp_liquidity_target;
    assert(proportional_value(d as u64, 0, t) == 0) by {
        assert((d as int) * 0 == 0);
    }
    if l1 < t {
        lemma_proportional_at_most_amount(d as u64, l1, t);
        assert(proportional_value(d as u64, l1, t) >= 0) by {
            assert((d as int) * (l1 as int) >= 0) by (nonlinear_arith)
                requires
                    d >= 0,
                    l1 >= 0,
            ;
            vstd::arithmetic::div_mod::lemma_div_pos_is_pos((d as int) * (l1 as int), t as int);
        }
    }
    if l2 < t {
        lemma_proportional_at_most_amount(d as u64, l2, t);
        lemma_proportional_monotone_in_numerator(d as u64, l1, l2, t);
    } else if l1 < t {
        // the fee at l2 is the min fee; at l1 it is at least the min fee
    }
}

proof fn lemma_proportional_monotone_in_numerator(amount: u64, n1: u64, n2: u64, denominator: u64)
    requires
        n1 <= n2,
    ensures
        proportional_value(amount, n1, denominator) <= proportional_value(amount, n2, denominator),
{
    if denominator != 0 {
        let a = amount as int;
        assert(a * (n1 as int) <= a * (n2 as int)) by (nonlinear_arith)
            requires
                0 <= a,
                n1 <= n2,
        ;
        vstd::arithmetic::div_mod::lemma_div_is_ordered(a * (n1 as int), a * (n2 as int), denominator as int);
    }
}


/// Below the liquidity target the liquid-unstake fee falls on a straight line from the max fee
/// with no liquidity to the min fee at the target: `max - (max - min) * liquidity / target`,
/// the product divided down.
pub proof fn lemma_linear_fee_formula(pool: LiqPool, lamports: u64)
    requires
        pool.lp_min_fee.basis_points <= pool.lp_max_fee.basis_points,
        lamports < pool.lp_liquidity_target,
    ensures
        spec_linear_fee(pool, lamports) == pool.lp_max_fee.basis_points - ((pool.lp_max_fee.basis_points
            - pool.lp_min_fee.basis_points) as int * lamports as int) / pool.lp_liquidity_target as int,
{
    let d = spec_delta(pool);
    lemma_proportional_part_below_whole(d as u64, lamports, pool.lp_liquidity_target);
    assert((d as int) * (lamports as int) >= 0) by (nonlinear_arith)
        requires
            d >= 0,
            lamports >= 0,
    ;
    vstd::arithmetic::div_mod::lemma_div_pos_is_pos((d as int) * (lamports as int), pool.lp_liquidity_target as int);
}

} // verus!
