//! Liquidity pool operations: providing liquidity, withdrawing it, and liquid unstaking (selling
//! mSOL to the pool for SOL at a fee).
use vstd::prelude::*;

use crate::calc::{shares_from_value, spec_proportional, spec_shares_from_value};
use crate::checks::{check_token_source_account, spec_check_token_source_account, TokenAccount};
use crate::error::{Error, MarinadeError, ProgramError};
use crate::fee::{spec_apply_rate, Fee, MAX_BASIS_POINTS};
use crate::liq_pool::{spec_linear_fee, LiqPool, LIQUIDITY_CAPPED_CODE};
use crate::pubkey::Pubkey;
use crate::state::{spec_msol_to_sol, totals_fit, State};

verus! {

/// What providing `lamports` of liquidity answers: the LP tokens minted for them.
pub open spec fn spec_add_liquidity(
    s: State,
    lamports: u64,
    transfer_from_lamports: u64,
    sol_leg_lamports: u64,
    lp_mint_supply: u64,
    msol_leg_amount: u64,
) -> Result<u64, Error> {
    if lamports < s.min_deposit {
        Err(Error::Program(ProgramError::InvalidArgument))
    } else if transfer_from_lamports < lamports {
        Err(Error::Program(ProgramError::InsufficientFunds))
    } else if sol_leg_lamports + lamports > u64::MAX {
        Err(Error::Program(ProgramError::InvalidArgument))
    } else if sol_leg_lamports + lamports > s.liq_pool.liquidity_sol_cap {
        Err(Error::Program(ProgramError::Custom(LIQUIDITY_CAPPED_CODE)))
    } else if lp_mint_supply > s.liq_pool.lp_supply {
        Err(Error::Program(ProgramError::InvalidAccountData))
    } else {
        let total_value = (sol_leg_lamports - s.rent_exempt_for_token_acc) + spec_msol_to_sol(s, msol_leg_amount)->Ok_0;
        match spec_shares_from_value(lamports, total_value as u64, lp_mint_supply) {
            Err(e) => Err(Error::Marinade(e)),
            Ok(shares) => Ok(shares),
        }
    }
}

/// Whether providing liquidity passes its checks and goes on to price the pool (where the
/// program panics if the pool's value cannot be computed).
pub open spec fn spec_add_liquidity_reaches_pricing(
    s: State,
    lamports: u64,
    transfer_from_lamports: u64,
    sol_leg_lamports: u64,
    lp_mint_supply: u64,
) -> bool {
    &&& lamports >= s.min_deposit
    &&& transfer_from_lamports >= lamports
    &&& sol_leg_lamports + lamports <= s.liq_pool.liquidity_sol_cap
    &&& lp_mint_supply <= s.liq_pool.lp_supply
}

/// Provide `lamports` of liquidity to the pool's SOL leg for LP tokens: the LP tokens are priced
/// at the pool's value (SOL leg above rent plus the mSOL leg's value) over the LP supply, which is
/// first aligned with the real mint supply.
pub fn add_liquidity(
    state: &mut State,
    lamports: u64,
    transfer_from_lamports: u64,
    sol_leg_lamports: u64,
    lp_mint_supply: u64,
    msol_leg_amount: u64,
) -> (r: Result<u64, Error>)
    requires
        totals_fit(*old(state)),
        spec_add_liquidity_reaches_pricing(*old(state), lamports, transfer_from_lamports, sol_leg_lamports, lp_mint_supply) ==> {
            &&& sol_leg_lamports >= old(state).rent_exempt_for_token_acc
            &&& spec_msol_to_sol(*old(state), msol_leg_amount) is Ok
            &&& (sol_leg_lamports - old(state).rent_exempt_for_token_acc) + spec_msol_to_sol(*old(state), msol_leg_amount)->Ok_0
                <= u64::MAX
            &&& spec_shares_from_value(
                lamports,
                ((sol_leg_lamports - old(state).rent_exempt_for_token_acc) + spec_msol_to_sol(
                    *old(state),
                    msol_leg_amount,
                )->Ok_0) as u64,
                lp_mint_supply,
            ) matches Ok(shares) ==> lp_mint_supply + shares <= u64::MAX
        },
    ensures
        r == spec_add_liquidity(*old(state), lamports, transfer_from_lamports, sol_leg_lamports, lp_mint_supply, msol_leg_amount),
        r matches Ok(shares) ==> *final(state) == (State {
            liq_pool: LiqPool { lp_supply: (lp_mint_supply + shares) as u64, ..old(state).liq_pool },
            ..*old(state)
        }),
        r is Err ==> *final(state) == *old(state),
{
    if lamports < state.min_deposit {
        return Err(Error::Program(ProgramError::InvalidArgument));
    }
    if transfer_from_lamports < lamports {
        return Err(Error::Program(ProgramError::InsufficientFunds));
    }
    match state.liq_pool.check_liquidity_cap(lamports, sol_leg_lamports) {
        Ok(()) => {},
        Err(e) => {
            return Err(Error::Program(e));
        },
    }
    // Update virtual lp_supply by real one
    if lp_mint_supply > state.liq_pool.lp_supply {
        return Err(Error::Program(ProgramError::InvalidAccountData));
    }
    // we need to compute how many LP-shares to mint for this deposit in the liq-pool
    // in order to do that, we need total liq-pool value, to compute LP-share price
    //compute current liq-pool total value BEFORE adding user's deposit
    let sol_leg_value = sol_leg_lamports - state.rent_exempt_for_token_acc;
    let msol_leg_value = match state.calc_lamports_from_msol_amount(msol_leg_amount) {
        Ok(v) => v,
        Err(e) => {
            return Err(Error::Marinade(e));
        },
    };
    let total_liq_pool_value = sol_leg_value + msol_leg_value;
    let shares_for_user = match shares_from_value(lamports, total_liq_pool_value, lp_mint_supply) {
        Ok(v) => v,
        Err(e) => {
            return Err(Error::Marinade(e));
        },
    };
    state.liq_pool.lp_supply = lp_mint_supply;
    state.liq_pool.on_lp_mint(shares_for_user);
    Ok(shares_for_user)
}

/// The amounts moved by a liquid unstake.
#[derive(Clone, Copy, Debug, PartialEq, Eq)]
pub struct LiquidUnstakeOutcome {
    /// The fee, in mSOL.
    pub msol_fee: u64,
    /// Lamports paid to the user from the SOL leg.
    pub sol_amount: u64,
    /// Part of the fee sent to the treasury, in mSOL.
    pub treasury_msol_cut: u64,
    /// mSOL sent to the pool's mSOL leg.
    pub msol_to_pool: u64,
}

/// The liquid-unstake fee in basis points when the user takes `user_remove_lamports` from
/// `available` lamports: the max fee when everything is taken, else the curve at what is left.
pub open spec fn spec_liquid_unstake_fee(pool: LiqPool, available: u64, user_remove_lamports: u64) -> u32 {
    if user_remove_lamports >= available {
        pool.lp_max_fee.basis_points
    } else {
        spec_linear_fee(pool, (available - user_remove_lamports) as u64)
    }
}

/// The lamports a liquid unstake of `msol_amount` pays (the value of the mSOL minus the fee),
/// with the fee in mSOL.
pub open spec fn spec_liquid_unstake_working(s: State, msol_amount: u64, sol_leg_lamports: u64) -> Result<(u64, u64), MarinadeError> {
    let available = if sol_leg_lamports >= s.rent_exempt_for_token_acc {
        (sol_leg_lamports - s.rent_exempt_for_token_acc) as u64
    } else {
        0u64
    };
    match spec_msol_to_sol(s, msol_amount) {
        Err(e) => Err(e),
        Ok(user_remove_lamports) => {
            let fee_bp = spec_liquid_unstake_fee(s.liq_pool, available, user_remove_lamports);
            let msol_fee = spec_apply_rate(msol_amount, fee_bp, MAX_BASIS_POINTS);
            match spec_msol_to_sol(s, (msol_amount - msol_fee) as u64) {
                Err(e) => Err(e),
                Ok(working) => Ok((working, msol_fee)),
            }
        },
    }
}

/// What a liquid unstake of `msol_amount` answers.
pub open spec fn spec_liquid_unstake(
    s: State,
    msol_amount: u64,
    source: TokenAccount,
    authority: Pubkey,
    treasury_msol_balance: Option<u64>,
    sol_leg_lamports: u64,
) -> Result<LiquidUnstakeOutcome, Error> {
    if s.paused {
        Err(Error::Marinade(MarinadeError::ProgramIsPaused))
    } else if spec_check_token_source_account(source, authority, msol_amount) is Err {
        Err(Error::Marinade(spec_check_token_source_account(source, authority, msol_amount)->Err_0))
    } else {
        match spec_liquid_unstake_working(s, msol_amount, sol_leg_lamports) {
            Err(e) => Err(Error::Marinade(e)),
            Ok((working, msol_fee)) => if working + s.rent_exempt_for_token_acc > sol_leg_lamports {
                Err(Error::Marinade(MarinadeError::InsufficientLiquidity))
            } else if working < s.min_withdraw {
                Err(Error::Marinade(MarinadeError::WithdrawAmountIsTooLow))
            } else {
                let cut = if treasury_msol_balance is Some {
                    spec_apply_rate(msol_fee, s.liq_pool.treasury_cut.basis_points, MAX_BASIS_POINTS)
                } else {
                    0
                };
                Ok(
                    LiquidUnstakeOutcome {
                        msol_fee,
                        sol_amount: working,
                        treasury_msol_cut: cut,
                        msol_to_pool: (msol_amount - cut) as u64,
                    },
                )
            },
        }
    }
}

/// Sell `msol_amount` of the user's mSOL to the pool for SOL now. The fee depends on the SOL
/// liquidity left after the user takes theirs; part of it goes to the treasury (when the treasury
/// account can receive mSOL). The state is not changed.
pub fn liquid_unstake(
    state: &State,
    msol_amount: u64,
    source: &TokenAccount,
    authority: &Pubkey,
    treasury_msol_owner: &Pubkey,
    treasury_msol_data: &Vec<u8>,
    sol_leg_lamports: u64,
) -> (r: Result<LiquidUnstakeOutcome, Error>)
    requires
        totals_fit(*state),
        state.liq_pool.lp_max_fee.basis_points <= MAX_BASIS_POINTS,
        state.liq_pool.lp_min_fee.basis_points <= MAX_BASIS_POINTS,
        state.liq_pool.treasury_cut.basis_points <= MAX_BASIS_POINTS,
        spec_liquid_unstake_working(*state, msol_amount, sol_leg_lamports) matches Ok(w) ==> w.0
            + state.rent_exempt_for_token_acc <= u64::MAX,
    ensures
        r == spec_liquid_unstake(
            *state,
            msol_amount,
            *source,
            *authority,
            crate::state::spec_treasury_msol_balance(*state, *treasury_msol_owner, treasury_msol_data@),
            sol_leg_lamports,
        ),
        r matches Ok(o) ==> o.treasury_msol_cut <= o.msol_fee <= msol_amount && o.sol_amount + state.rent_exempt_for_token_acc
            <= sol_leg_lamports,
{
    if state.paused {
        return Err(Error::Marinade(MarinadeError::ProgramIsPaused));
    }
    match check_token_source_account(source, authority, msol_amount) {
        Ok(()) => {},
        Err(e) => {
            return Err(Error::Marinade(e));
        },
    }
    let liq_pool_available_sol_balance = sol_leg_lamports.saturating_sub(state.rent_exempt_for_token_acc);
    // fee is computed based on the liquidity *after* the user takes the sol
    let user_remove_lamports = match state.msol_to_sol(msol_amount) {
        Ok(v) => v,
        Err(e) => {
            return Err(Error::Marinade(e));
        },
    };
    let liquid_unstake_fee = if user_remove_lamports >= liq_pool_available_sol_balance {
        // user is removing all liquidity
        state.liq_pool.lp_max_fee
    } else {
        let after_lamports = liq_pool_available_sol_balance - user_remove_lamports;  //how much will be left?
        state.liq_pool.linear_fee(after_lamports)
    };
    proof {
        lemma_linear_fee_at_most_100(state.liq_pool, liq_pool_available_sol_balance, user_remove_lamports);
    }
    // compute fee in msol
    let msol_fee = liquid_unstake_fee.apply(msol_amount);
    // fee goes into treasury & LPs, so the user receives lamport value of data.msol_amount - msol_fee
    // compute how many lamports the msol_amount the user is "selling" (minus fee) is worth
    let working_lamports_value = match state.msol_to_sol(msol_amount - msol_fee) {
        Ok(v) => v,
        Err(e) => {
            return Err(Error::Marinade(e));
        },
    };
    // it can't be more than what's in the LiqPool
    if working_lamports_value + state.rent_exempt_for_token_acc > sol_leg_lamports {
        return Err(Error::Marinade(MarinadeError::InsufficientLiquidity));
    }
    if working_lamports_value < state.min_withdraw {
        return Err(Error::Marinade(MarinadeError::WithdrawAmountIsTooLow));
    }
    // cut 25% from the fee for the treasury (when it can receive mSOL)
    let treasury_msol_balance = state.get_treasury_msol_balance(treasury_msol_owner, treasury_msol_data);
    let treasury_msol_cut = if treasury_msol_balance.is_some() {
        state.liq_pool.treasury_cut.apply(msol_fee)
    } else {
        0
    };
    Ok(
        LiquidUnstakeOutcome {
            msol_fee,
            sol_amount: working_lamports_value,
            treasury_msol_cut,
            msol_to_pool: msol_amount - treasury_msol_cut,
        },
    )
}

proof fn lemma_linear_fee_at_most_100(pool: LiqPool, available: u64, user_remove_lamports: u64)
    requires
        pool.lp_max_fee.basis_points <= MAX_BASIS_POINTS,
        pool.lp_min_fee.basis_points <= MAX_BASIS_POINTS,
    ensures
        spec_liquid_unstake_fee(pool, available, user_remove_lamports) <= MAX_BASIS_POINTS,
{
    if user_remove_lamports < available {
        let l = (available - user_remove_lamports) as u64;
        if l < pool.lp_liquidity_target {
            crate::calc::lemma_proportional_at_most_amount(crate::liq_pool::spec_delta(pool) as u64, l, pool.lp_liquidity_target);
            assert(crate::calc::proportional_value(crate::liq_pool::spec_delta(pool) as u64, l, pool.lp_liquidity_target) >= 0) by {
                let d = crate::liq_pool::spec_delta(pool) as int;
                assert(d * (l as int) >= 0) by (nonlinear_arith)
                    requires
                        d >= 0,
                        l >= 0,
                ;
                vstd::arithmetic::div_mod::lemma_div_pos_is_pos(d * (l as int), pool.lp_liquidity_target as int);
            }
        }
    }
}

/// The amounts paid out when liquidity is removed.
#[derive(Clone, Copy, Debug, PartialEq, Eq)]
pub struct RemoveLiquidityOutcome {
    /// Lamports sent from the SOL leg.
    pub sol_out_amount: u64,
    /// mSOL sent from the mSOL leg.
    pub msol_out_amount: u64,
}

/// What `check_burn_from` answers: the owner or the delegate may burn within their means.
pub open spec fn spec_check_burn_from(burn_from: TokenAccount, authority: Pubkey, lp_mint: Pubkey, tokens: u64) -> Result<
    (),
    ProgramError,
> {
    if burn_from.mint@ != lp_mint@ {
        Err(ProgramError::InvalidAccountData)
    } else if authority@ == burn_from.owner@ {
        if burn_from.amount < tokens {
            Err(ProgramError::InsufficientFunds)
        } else {
            Ok(())
        }
    } else if crate::checks::holds_key(burn_from.delegate, authority) {
        if burn_from.delegated_amount < tokens {
            Err(ProgramError::InsufficientFunds)
        } else {
            Ok(())
        }
    } else {
        Err(ProgramError::InvalidArgument)
    }
}

/// The LP supply used to price a withdrawal: the real mint supply unless more LP tokens exist
/// than the program minted.
pub open spec fn spec_lp_supply_after_sync(pool: LiqPool, lp_mint_supply: u64) -> u64 {
    if lp_mint_supply > pool.lp_supply {
        pool.lp_supply
    } else {
        lp_mint_supply
    }
}

/// The parts of the SOL leg (above rent) and of the mSOL leg that `tokens` LP tokens stand for.
pub open spec fn spec_remove_liquidity_parts(
    s: State,
    tokens: u64,
    lp_mint_supply: u64,
    sol_leg_lamports: u64,
    msol_leg_amount: u64,
) -> Result<(u64, u64), MarinadeError> {
    let supply = spec_lp_supply_after_sync(s.liq_pool, lp_mint_supply);
    match spec_proportional(tokens, (sol_leg_lamports - s.rent_exempt_for_token_acc) as u64, supply) {
        Err(e) => Err(e),
        Ok(sol_out) => match spec_proportional(tokens, msol_leg_amount, supply) {
            Err(e) => Err(e),
            Ok(msol_out) => Ok((sol_out, msol_out)),
        },
    }
}

/// What removing `tokens` LP tokens answers: the proportional parts of both legs.
pub open spec fn spec_remove_liquidity(
    s: State,
    tokens: u64,
    burn_from: TokenAccount,
    authority: Pubkey,
    transfer_msol_to: TokenAccount,
    lp_mint_supply: u64,
    sol_leg_lamports: u64,
    msol_leg_amount: u64,
) -> Result<RemoveLiquidityOutcome, Error> {
    if spec_check_burn_from(burn_from, authority, s.liq_pool.lp_mint, tokens) is Err {
        Err(Error::Program(spec_check_burn_from(burn_from, authority, s.liq_pool.lp_mint, tokens)->Err_0))
    } else if transfer_msol_to.mint@ != s.msol_mint@ {
        Err(Error::Program(ProgramError::InvalidAccountData))
    } else {
        match spec_remove_liquidity_parts(s, tokens, lp_mint_supply, sol_leg_lamports, msol_leg_amount) {
            Err(e) => Err(Error::Marinade(e)),
            Ok((sol_out, msol_out)) => if sol_out + spec_msol_to_sol(s, msol_out)->Ok_0 < s.min_withdraw {
                Err(Error::Program(ProgramError::InvalidArgument))
            } else {
                Ok(RemoveLiquidityOutcome { sol_out_amount: sol_out, msol_out_amount: msol_out })
            },
        }
    }
}

/// Withdraw liquidity: burn `tokens` LP tokens for the same share of the pool's SOL leg (above
/// rent) and of its mSOL leg. The LP supply is aligned with the real mint supply (unless more
/// LP tokens exist than were minted by the program) and then reduced by the burnt tokens.
pub fn remove_liquidity(
    state: &mut State,
    tokens: u64,
    burn_from: &TokenAccount,
    burn_from_authority: &Pubkey,
    transfer_msol_to: &TokenAccount,
    lp_mint_supply: u64,
    sol_leg_lamports: u64,
    msol_leg_amount: u64,
) -> (r: Result<RemoveLiquidityOutcome, Error>)
    requires
        totals_fit(*old(state)),
        sol_leg_lamports >= old(state).rent_exempt_for_token_acc,
        spec_remove_liquidity_parts(*old(state), tokens, lp_mint_supply, sol_leg_lamports, msol_leg_amount) matches Ok(p)
            ==> spec_msol_to_sol(*old(state), p.1) is Ok && p.0 + spec_msol_to_sol(*old(state), p.1)->Ok_0 <= u64::MAX,
    ensures
        r == spec_remove_liquidity(
            *old(state),
            tokens,
            *burn_from,
            *burn_from_authority,
            *transfer_msol_to,
            lp_mint_supply,
            sol_leg_lamports,
            msol_leg_amount,
        ),
        r is Ok ==> {
            let supply = spec_lp_supply_after_sync(old(state).liq_pool, lp_mint_supply);
            *final(state) == (State {
                liq_pool: LiqPool {
                    lp_supply: if supply >= tokens { (supply - tokens) as u64 } else { 0 },
                    ..old(state).liq_pool
                },
                ..*old(state)
            })
        },
        r is Err ==> *final(state) == *old(state),
{
    if !burn_from.mint.same_key(&state.liq_pool.lp_mint) {
        return Err(Error::Program(ProgramError::InvalidAccountData));
    }
    // if delegated, check delegated amount
    if burn_from_authority.same_key(&burn_from.owner) {
        if burn_from.amount < tokens {
            return Err(Error::Program(ProgramError::InsufficientFunds));
        }
    } else if match &burn_from.delegate {
        Some(d) => d.same_key(burn_from_authority),
        None => false,
    } {
        // delegated_amount & delegate must be set on the user's lp account before
        if burn_from.delegated_amount < tokens {
            return Err(Error::Program(ProgramError::InsufficientFunds));
        }
    } else {
        return Err(Error::Program(ProgramError::InvalidArgument));
    }
    if !transfer_msol_to.mint.same_key(&state.msol_mint) {
        return Err(Error::Program(ProgramError::InvalidAccountData));
    }
    // Update virtual lp_supply by real one
    let supply = if lp_mint_supply > state.liq_pool.lp_supply {
        // Someone minted lp tokens without our permission or bug found
        state.liq_pool.lp_supply
    } else {
        // maybe burn
        lp_mint_supply
    };
    let sol_out_amount = match crate::calc::proportional(tokens, sol_leg_lamports - state.rent_exempt_for_token_acc, supply) {
        Ok(v) => v,
        Err(e) => {
            return Err(Error::Marinade(e));
        },
    };
    let msol_out_amount = match crate::calc::proportional(tokens, msol_leg_amount, supply) {
        Ok(v) => v,
        Err(e) => {
            return Err(Error::Marinade(e));
        },
    };
    let msol_value = match state.calc_lamports_from_msol_amount(msol_out_amount) {
        Ok(v) => v,
        Err(_) => 0,  // unreachable: the value of the mSOL part is computable
    };
    if sol_out_amount + msol_value < state.min_withdraw {
        return Err(Error::Program(ProgramError::InvalidArgument));
    }
    state.liq_pool.lp_supply = supply;
    state.liq_pool.on_lp_burn(tokens);
    Ok(RemoveLiquidityOutcome { sol_out_amount, msol_out_amount })
}


/// Providing liquidity prices the pool at both legs: the SOL leg above its rent plus the SOL
/// value of the mSOL leg. With LP tokens outstanding the provider gets `lamports * lp_supply /
/// pool value` (divided down), so the LP tokens held before never stand for less of the pool;
/// the first provider gets one LP token per lamport.
pub proof fn lemma_add_liquidity_prices_both_legs(
    s: State,
    lamports: u64,
    transfer_from_lamports: u64,
    sol_leg_lamports: u64,
    lp_mint_supply: u64,
    msol_leg_amount: u64,
)
    requires
        spec_add_liquidity(s, lamports, transfer_from_lamports, sol_leg_lamports, lp_mint_supply, msol_leg_amount) is Ok,
        sol_leg_lamports >= s.rent_exempt_for_token_acc,
        spec_msol_to_sol(s, msol_leg_amount) is Ok,
        (sol_leg_lamports - s.rent_exempt_for_token_acc) + spec_msol_to_sol(s, msol_leg_amount)->Ok_0 <= u64::MAX,
    ensures
        ({
            let pool_value = (sol_leg_lamports - s.rent_exempt_for_token_acc) + spec_msol_to_sol(s, msol_leg_amount)->Ok_0;
            let minted = spec_add_liquidity(
                s,
                lamports,
                transfer_from_lamports,
                sol_leg_lamports,
                lp_mint_supply,
                msol_leg_amount,
            )->Ok_0;
            &&& lp_mint_supply == 0 ==> minted == lamports
            &&& lp_mint_supply > 0 && pool_value > 0 ==> minted == (lamports as int * lp_mint_supply as int) / pool_value
            &&& lp_mint_supply > 0 && pool_value > 0 ==> minted * pool_value <= lamports as int * lp_mint_supply as int
        }),
{
    let pool_value = (sol_leg_lamports - s.rent_exempt_for_token_acc) + spec_msol_to_sol(s, msol_leg_amount)->Ok_0;
    if lp_mint_supply > 0 && pool_value > 0 {
        let p = lamports as int * lp_mint_supply as int;
        vstd::arithmetic::div_mod::lemma_fundamental_div_mod(p, pool_value);
        vstd::arithmetic::div_mod::lemma_mod_pos_bound(p, pool_value);
        vstd::arithmetic::mul::lemma_mul_is_commutative(pool_value, p / pool_value);
    }
}


/// A liquid unstake of `msol_amount` takes its fee in mSOL at the rate the pool's curve gives for
/// the SOL liquidity left once the user's value is out (the max fee when the user takes it all,
/// the min fee at or above the target, linear in between), pays the SOL value of the rest, and
/// sends the treasury its cut of the fee when the treasury can receive mSOL.
pub proof fn lemma_liquid_unstake_amounts(
    s: State,
    msol_amount: u64,
    source: TokenAccount,
    authority: Pubkey,
    treasury_msol_balance: Option<u64>,
    sol_leg_lamports: u64,
)
    requires
        s.liq_pool.lp_min_fee.basis_points <= s.liq_pool.lp_max_fee.basis_points <= MAX_BASIS_POINTS,
        s.liq_pool.treasury_cut.basis_points <= MAX_BASIS_POINTS,
        spec_liquid_unstake(s, msol_amount, source, authority, treasury_msol_balance, sol_leg_lamports) is Ok,
    ensures
        ({
            let o = spec_liquid_unstake(s, msol_amount, source, authority, treasury_msol_balance, sol_leg_lamports)->Ok_0;
            let pool = s.liq_pool;
            let value = spec_msol_to_sol(s, msol_amount)->Ok_0;
            let available: int = if sol_leg_lamports >= s.rent_exempt_for_token_acc {
                sol_leg_lamports - s.rent_exempt_for_token_acc
            } else {
                0
            };
            let left = available - value;
            let fee_bp: int = if value >= available {
                pool.lp_max_fee.basis_points as int
            } else if left >= pool.lp_liquidity_target {
                pool.lp_min_fee.basis_points as int
            } else {
                pool.lp_max_fee.basis_points - ((pool.lp_max_fee.basis_points - pool.lp_min_fee.basis_points) as int
                    * left) / pool.lp_liquidity_target as int
            };
            &&& spec_msol_to_sol(s, msol_amount) is Ok
            &&& o.msol_fee == (msol_amount as int * fee_bp) / MAX_BASIS_POINTS as int
            &&& spec_msol_to_sol(s, (msol_amount - o.msol_fee) as u64) == Ok::<u64, MarinadeError>(o.sol_amount)
            &&& treasury_msol_balance is Some ==> o.treasury_msol_cut == (o.msol_fee as int
                * pool.treasury_cut.basis_points as int) / MAX_BASIS_POINTS as int
            &&& treasury_msol_balance is None ==> o.treasury_msol_cut == 0
            &&& o.msol_to_pool == msol_amount - o.treasury_msol_cut
        }),
{
    let pool = s.liq_pool;
    let value = spec_msol_to_sol(s, msol_amount)->Ok_0;
    let available = if sol_leg_lamports >= s.rent_exempt_for_token_acc {
        (sol_leg_lamports - s.rent_exempt_for_token_acc) as u64
    } else {
        0u64
    };
    if value < available && ((available - value) as u64) < pool.lp_liquidity_target {
        crate::liq_pool::lemma_linear_fee_formula(pool, (available - value) as u64);
    }
    lemma_linear_fee_at_most_100(pool, available, value);
    let fee_bp = spec_liquid_unstake_fee(pool, available, value);
    crate::fee::lemma_rate_bounds(msol_amount, fee_bp, MAX_BASIS_POINTS);
    let msol_fee = spec_apply_rate(msol_amount, fee_bp, MAX_BASIS_POINTS);
    crate::fee::lemma_rate_bounds(msol_fee, pool.treasury_cut.basis_points, MAX_BASIS_POINTS);
}


/// Withdrawing liquidity pays the burnt LP tokens' share of each leg: `tokens / LP supply` of the
/// SOL leg above its rent and of the mSOL leg, each divided down (the LP supply being the real
/// mint supply unless the program minted fewer), so the LP tokens left never stand for less.
pub proof fn lemma_remove_liquidity_pays_shares(
    s: State,
    tokens: u64,
    burn_from: TokenAccount,
    authority: Pubkey,
    transfer_msol_to: TokenAccount,
    lp_mint_supply: u64,
    sol_leg_lamports: u64,
    msol_leg_amount: u64,
)
    requires
        sol_leg_lamports >= s.rent_exempt_for_token_acc,
        spec_remove_liquidity(
            s,
            tokens,
            burn_from,
            authority,
            transfer_msol_to,
            lp_mint_supply,
            sol_leg_lamports,
            msol_leg_amount,
        ) is Ok,
    ensures
        ({
            let o = spec_remove_liquidity(
                s,
                tokens,
                burn_from,
                authority,
                transfer_msol_to,
                lp_mint_supply,
                sol_leg_lamports,
                msol_leg_amount,
            )->Ok_0;
            let supply: int = if lp_mint_supply > s.liq_pool.lp_supply {
                s.liq_pool.lp_supply as int
            } else {
                lp_mint_supply as int
            };
            let sol_leg: int = sol_leg_lamports - s.rent_exempt_for_token_acc;
            &&& supply > 0 ==> o.sol_out_amount == (tokens as int * sol_leg) / supply
            &&& supply > 0 ==> o.msol_out_amount == (tokens as int * msol_leg_amount as int) / supply
            &&& supply > 0 ==> o.sol_out_amount * supply <= tokens as int * sol_leg
            &&& supply > 0 ==> o.msol_out_amount * supply <= tokens as int * msol_leg_amount as int
        }),
{
    let supply: int = if lp_mint_supply > s.liq_pool.lp_supply {
        s.liq_pool.lp_supply as int
    } else {
        lp_mint_supply as int
    };
    let sol_leg: int = sol_leg_lamports - s.rent_exempt_for_token_acc;
    if supply > 0 {
        let a = tokens as int * sol_leg;
        let b = tokens as int * msol_leg_amount as int;
        vstd::arithmetic::div_mod::lemma_fundamental_div_mod(a, supply);
        vstd::arithmetic::div_mod::lemma_mod_pos_bound(a, supply);
        vstd::arithmetic::mul::lemma_mul_is_commutative(supply, a / supply);
        vstd::arithmetic::div_mod::lemma_fundamental_div_mod(b, supply);
        vstd::arithmetic::div_mod::lemma_mod_pos_bound(b, supply);
        vstd::arithmetic::mul::lemma_mul_is_commutative(supply, b / supply);
    }
}

} // verus!
