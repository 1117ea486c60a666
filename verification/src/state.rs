//! The protocol state: balances under control, mSOL supply and price, parameters and authorities.
use vstd::prelude::*;

use crate::calc::{proportional_value, shares_from_value, spec_proportional, spec_shares_from_value, value_from_shares};
use crate::error::{MarinadeError, ProgramError};
use crate::fee::{Fee, FeeCents};
use crate::liq_pool::{check_address, LiqPool};
use crate::checks::{spec_unpack_token_account, unpack_token_account};
use crate::pda::{create_address, find_address, spec_program_id, spec_seeds, spec_token_program_id, spec_try_find_program_address, token_program_id, SeedTag};
use crate::pubkey::Pubkey;
use crate::user::derived;
use crate::stake_system::StakeSystem;
use crate::validator_system::ValidatorSystem;

verus! {

/// Progress of the one-time re-count of delinquent stake after an upgrade.
#[derive(Clone, Copy, Debug, PartialEq, Eq)]
pub enum DelinquentUpgraderState {
    IteratingStakes { visited_count: u32, total_active_balance: u64, total_delinquent_balance: u64 },
    IteratingValidators { visited_count: u32, delinquent_balance_left: u64 },
    Done,
}

impl DelinquentUpgraderState {
    pub fn is_iterating_stakes(&self) -> (r: bool)
        ensures
            r == (*self is IteratingStakes),
    {
        match self {
            DelinquentUpgraderState::IteratingStakes { .. } => true,
            _ => false,
        }
    }
}

/// The main program state.
#[derive(Clone, Copy, Debug)]
pub struct State {
    pub msol_mint: Pubkey,
    pub admin_authority: Pubkey,
    // Target for withdrawing rent reserve SOLs. Save bot wallet account here
    pub operational_sol_account: Pubkey,
    // treasury - external accounts managed by marinade DAO
    pub treasury_msol_account: Pubkey,
    // Bump seeds:
    pub reserve_bump_seed: u8,
    pub msol_mint_authority_bump_seed: u8,
    pub rent_exempt_for_token_acc: u64,  // Token-Account For rent exempt
    // fee applied on rewards
    pub reward_fee: Fee,
    pub stake_system: StakeSystem,
    pub validator_system: ValidatorSystem,  //includes total_balance = total stake under management
    // sum of all the orders received in this epoch
    // must not be used for stake-unstake amount calculation
    // only for reference
    // epoch_stake_orders: u64,
    // epoch_unstake_orders: u64,
    pub liq_pool: LiqPool,
    pub available_reserve_balance: u64,  // reserve_pda.lamports() - self.rent_exempt_for_token_acc. Virtual value (real may be > because of transfers into reserve). Use Update* to align
    pub msol_supply: u64,  // Virtual value (may be < because of token burn). Use Update* to align
    // For FE. Don't use it for token amount calculation
    pub msol_price: u64,
    ///count tickets for delayed-unstake
    pub circulating_ticket_count: u64,
    ///total lamports amount of generated and not claimed yet tickets
    pub circulating_ticket_balance: u64,
    pub lent_from_reserve: u64,
    pub min_deposit: u64,
    pub min_withdraw: u64,
    pub staking_sol_cap: u64,
    pub emergency_cooling_down: u64,
    /// emergency pause
    pub pause_authority: Pubkey,
    pub paused: bool,
    // delayed unstake account fee
    // to avoid economic attacks this value should not be zero
    // (this is required because tickets are ready at the end of the epoch)
    // preferred value is one epoch rewards
    pub delayed_unstake_fee: FeeCents,
    // withdraw stake account fee
    // to avoid economic attacks this value should not be zero
    // (this is required because stake accounts are delivered immediately)
    // preferred value is one epoch rewards
    pub withdraw_stake_account_fee: FeeCents,
    pub withdraw_stake_account_enabled: bool,
    pub delinquent_upgrader: DelinquentUpgraderState,
}

/// Fixed-point denominator of the stored mSOL price.
pub const PRICE_DENOMINATOR: u64 = 0x1_0000_0000;

/// Highest reward fee (10%).
pub const MAX_REWARD_FEE_BASIS_POINTS: u32 = 1_000;

/// Highest configurable minimal withdrawal (0.1 SOL).
pub const MAX_WITHDRAW_ATOM: u64 = 100_000_000;

/// Highest delayed-unstake fee (0.2%).
pub const MAX_DELAYED_UNSTAKE_FEE_BP_CENTS: u32 = 2_000;

/// Highest withdraw-stake-account fee (0.2%).
pub const MAX_WITHDRAW_STAKE_ACCOUNT_FEE_BP_CENTS: u32 = 2_000;

/// Lamports that stand for all mSOL: everything under control minus what tickets owe
/// (never below zero).
pub open spec fn spec_total_virtual_staked_lamports(s: State) -> int {
    let under_control = s.validator_system.total_active_balance + s.stake_system.delayed_unstake_cooling_down
        + s.emergency_cooling_down + s.available_reserve_balance;
    if under_control >= s.circulating_ticket_balance {
        under_control - s.circulating_ticket_balance
    } else {
        0
    }
}

/// All lamports under control: active stake, stake cooling down and the reserve.
pub open spec fn spec_total_lamports_under_control(s: State) -> int {
    s.validator_system.total_active_balance + s.stake_system.delayed_unstake_cooling_down + s.emergency_cooling_down
        + s.available_reserve_balance
}

/// The totals of the state fit in 64 bits (the program panics otherwise).
pub open spec fn totals_fit(s: State) -> bool {
    spec_total_lamports_under_control(s) <= u64::MAX
}

/// Value in lamports of `msol_amount` at the current price.
pub open spec fn spec_msol_to_sol(s: State, msol_amount: u64) -> Result<u64, MarinadeError> {
    spec_proportional(msol_amount, spec_total_virtual_staked_lamports(s) as u64, s.msol_supply)
}

/// mSOL worth `lamports` at the current price (one for one before any mSOL exists).
pub open spec fn spec_calc_msol_from_lamports(s: State, lamports: u64) -> Result<u64, MarinadeError> {
    spec_shares_from_value(lamports, spec_total_virtual_staked_lamports(s) as u64, s.msol_supply)
}

/// How much to stake (positive) or unstake (negative) this epoch, from the reserve balance:
/// the reserve (above its rent) plus delayed-unstake cooling down, minus what tickets owe;
/// when negative, emergency cooling down can cover part of it but never make it positive.
pub open spec fn spec_stake_delta(s: State, reserve_balance: u64) -> int {
    let reserve_above_rent = if reserve_balance >= s.rent_exempt_for_token_acc {
        reserve_balance - s.rent_exempt_for_token_acc
    } else {
        0
    };
    let raw = reserve_above_rent + s.stake_system.delayed_unstake_cooling_down - s.circulating_ticket_balance;
    if raw >= 0 {
        raw
    } else {
        let with_emergency = raw + s.emergency_cooling_down;
        if with_emergency > 0 {
            0
        } else {
            with_emergency
        }
    }
}

/// The treasury's mSOL balance when the treasury account is an mSOL token account (owned by
/// the token program, holding a token account of the mSOL mint); `None` otherwise, and then
/// no fee is minted to it.
pub open spec fn spec_treasury_msol_balance(s: State, treasury_owner: Pubkey, treasury_data: Seq<u8>) -> Option<u64> {
    if treasury_owner@ != spec_token_program_id() {
        None
    } else {
        match spec_unpack_token_account(treasury_data) {
            None => None,
            Some(t) => if t.mint@ == s.msol_mint@ {
                Some(t.amount)
            } else {
                None
            },
        }
    }
}

impl State {
    /// The reserve account derived from the state address, with its bump.
    pub fn find_reserve_address(state: &Pubkey) -> (r: Option<(Pubkey, u8)>)
        ensures
            r is Some <==> spec_try_find_program_address(spec_seeds(state@, SeedTag::Reserve), spec_program_id()) is Some,
            r matches Some(p) ==> spec_try_find_program_address(spec_seeds(state@, SeedTag::Reserve), spec_program_id())
                == Some((p.0@, p.1)),
    {
        find_address(state, SeedTag::Reserve)
    }

    /// The mSOL mint authority derived from the state address, with its bump.
    pub fn find_msol_mint_authority(state: &Pubkey) -> (r: Option<(Pubkey, u8)>)
        ensures
            r is Some <==> spec_try_find_program_address(spec_seeds(state@, SeedTag::MsolMintAuthority), spec_program_id())
                is Some,
            r matches Some(p) ==> spec_try_find_program_address(
                spec_seeds(state@, SeedTag::MsolMintAuthority),
                spec_program_id(),
            ) == Some((p.0@, p.1)),
    {
        find_address(state, SeedTag::MsolMintAuthority)
    }

    /// The treasury's mSOL balance, when fees can be minted to the treasury account.
    pub fn get_treasury_msol_balance(&self, treasury_owner: &Pubkey, treasury_data: &Vec<u8>) -> (r: Option<u64>)
        ensures
            r == spec_treasury_msol_balance(*self, *treasury_owner, treasury_data@),
    {
        let token_program = token_program_id();
        if !treasury_owner.same_key(&token_program) {
            // Not an error. Admins may decide to reject fee transfers to themselves
            return None;
        }
        match unpack_token_account(treasury_data.as_slice()) {
            Some(t) => {
                if t.mint.same_key(&self.msol_mint) {
                    Some(t.amount)
                } else {
                    None
                }
            },
            None => None,
        }
    }

    /// Stake cooling down, delayed and emergency.
    pub fn total_cooling_down(&self) -> (r: u64)
        requires
            self.stake_system.delayed_unstake_cooling_down + self.emergency_cooling_down <= u64::MAX,
        ensures
            r == self.stake_system.delayed_unstake_cooling_down + self.emergency_cooling_down,
    {
        self.stake_system.delayed_unstake_cooling_down + self.emergency_cooling_down
    }

    /// Total lamports under control: active stake, cooling down and the reserve.
    pub fn total_lamports_under_control(&self) -> (r: u64)
        requires
            totals_fit(*self),
        ensures
            r == spec_total_lamports_under_control(*self),
    {
        self.validator_system.total_active_balance + self.total_cooling_down() + self.available_reserve_balance
    }

    /// Lamports standing for the mSOL supply (all under control minus ticket debts, at least zero).
    pub fn total_virtual_staked_lamports(&self) -> (r: u64)
        requires
            totals_fit(*self),
        ensures
            r == spec_total_virtual_staked_lamports(*self),
    {
        // if we get slashed it may be negative but we must use 0 instead
        self.total_lamports_under_control().saturating_sub(self.circulating_ticket_balance)
    }

    /// Checks that adding `transfering_lamports` keeps the lamports under control within the staking cap.
    pub fn check_staking_cap(&self, transfering_lamports: u64) -> (r: Result<(), MarinadeError>)
        requires
            totals_fit(*self),
        ensures
            spec_total_lamports_under_control(*self) + transfering_lamports > u64::MAX
                ==> r == Err::<(), MarinadeError>(MarinadeError::CalculationFailure),
            spec_total_lamports_under_control(*self) + transfering_lamports <= u64::MAX
                && spec_total_lamports_under_control(*self) + transfering_lamports > self.staking_sol_cap
                ==> r == Err::<(), MarinadeError>(MarinadeError::StakingIsCapped),
            r is Ok <==> spec_total_lamports_under_control(*self) + transfering_lamports <= self.staking_sol_cap,
    {
        let result_amount = match self.total_lamports_under_control().checked_add(transfering_lamports) {
            Some(v) => v,
            None => {
                return Err(MarinadeError::CalculationFailure);
            },
        };
        if result_amount > self.staking_sol_cap {
            return Err(MarinadeError::StakingIsCapped);
        }
        Ok(())
    }

    /// Value in lamports of `msol_amount`.
    pub fn msol_to_sol(&self, msol_amount: u64) -> (r: Result<u64, MarinadeError>)
        requires
            totals_fit(*self),
        ensures
            r == spec_msol_to_sol(*self, msol_amount),
    {
        value_from_shares(msol_amount, self.total_virtual_staked_lamports(), self.msol_supply)
    }

    /// Value in lamports of `msol_amount` (same as `msol_to_sol`).
    pub fn calc_lamports_from_msol_amount(&self, msol_amount: u64) -> (r: Result<u64, MarinadeError>)
        requires
            totals_fit(*self),
        ensures
            r == spec_msol_to_sol(*self, msol_amount),
    {
        value_from_shares(msol_amount, self.total_virtual_staked_lamports(), self.msol_supply)
    }

    /// mSOL worth `stake_lamports`.
    pub fn calc_msol_from_lamports(&self, stake_lamports: u64) -> (r: Result<u64, MarinadeError>)
        requires
            totals_fit(*self),
        ensures
            r == spec_calc_msol_from_lamports(*self, stake_lamports),
    {
        shares_from_value(stake_lamports, self.total_virtual_staked_lamports(), self.msol_supply)
    }

    /// How much to stake (positive) or unstake (negative), given the reserve balance.
    pub fn stake_delta(&self, reserve_balance: u64) -> (r: i128)
        ensures
            r == spec_stake_delta(*self, reserve_balance),
    {
        // Never try to stake lamports from emergency_cooling_down
        // (we must wait for update-deactivated first to keep SOLs for claiming on reserve)
        // But if we need to unstake without emergency_cooling_down and we have emergency_cooling_down in the cooling down account
        // then use it to reduce unstaking amount
        let raw: i128 = reserve_balance.saturating_sub(self.rent_exempt_for_token_acc) as i128
            + self.stake_system.delayed_unstake_cooling_down as i128 - self.circulating_ticket_balance as i128;
        if raw >= 0 {
            raw
        } else {
            // When it negative we can extract some SOL from emergency_cooling_down
            // the amount to unstake is reduced
            let with_emergency: i128 = raw + self.emergency_cooling_down as i128;
            // And we can't use emergency_cooling_down to get positive delta
            if with_emergency > 0 {
                0
            } else {
                with_emergency
            }
        }
    }

    /// Accounts lamports that arrived in the reserve.
    pub fn on_transfer_to_reserve(&mut self, amount: u64)
        requires
            old(self).available_reserve_balance + amount <= u64::MAX,
        ensures
            *final(self) == (State {
                available_reserve_balance: (old(self).available_reserve_balance + amount) as u64,
                ..*old(self)
            }),
    {
        self.available_reserve_balance = self.available_reserve_balance + amount;
    }

    /// Accounts lamports that left the reserve.
    pub fn on_transfer_from_reserve(&mut self, amount: u64) -> (r: Result<(), MarinadeError>)
        ensures
            r is Ok <==> amount <= old(self).available_reserve_balance,
            r is Ok ==> *final(self) == (State {
                available_reserve_balance: (old(self).available_reserve_balance - amount) as u64,
                ..*old(self)
            }),
            r is Err ==> r == Err::<(), MarinadeError>(MarinadeError::CalculationFailure) && *final(self) == *old(self),
    {
        match self.available_reserve_balance.checked_sub(amount) {
            Some(v) => {
                self.available_reserve_balance = v;
                Ok(())
            },
            None => Err(MarinadeError::CalculationFailure),
        }
    }

    /// Accounts newly minted mSOL.
    pub fn on_msol_mint(&mut self, amount: u64)
        requires
            old(self).msol_supply + amount <= u64::MAX,
        ensures
            *final(self) == (State { msol_supply: (old(self).msol_supply + amount) as u64, ..*old(self) }),
    {
        self.msol_supply = self.msol_supply + amount;
    }

    /// Accounts burnt mSOL.
    pub fn on_msol_burn(&mut self, amount: u64) -> (r: Result<(), MarinadeError>)
        ensures
            r is Ok <==> amount <= old(self).msol_supply,
            r is Ok ==> *final(self) == (State { msol_supply: (old(self).msol_supply - amount) as u64, ..*old(self) }),
            r is Err ==> r == Err::<(), MarinadeError>(MarinadeError::CalculationFailure) && *final(self) == *old(self),
    {
        match self.msol_supply.checked_sub(amount) {
            Some(v) => {
                self.msol_supply = v;
                Ok(())
            },
            None => Err(MarinadeError::CalculationFailure),
        }
    }

    /// Emergency pause: refused when already paused.
    pub fn pause(&mut self) -> (r: Result<(), MarinadeError>)
        ensures
            r is Ok <==> !old(self).paused,
            r is Ok ==> *final(self) == (State { paused: true, ..*old(self) }),
            r is Err ==> r == Err::<(), MarinadeError>(MarinadeError::AlreadyPaused) && *final(self) == *old(self),
    {
        if self.paused {
            return Err(MarinadeError::AlreadyPaused);
        }
        self.paused = true;
        Ok(())
    }

    /// Resume after an emergency pause: refused when not paused.
    pub fn resume(&mut self) -> (r: Result<(), MarinadeError>)
        ensures
            r is Ok <==> old(self).paused,
            r is Ok ==> *final(self) == (State { paused: false, ..*old(self) }),
            r is Err ==> r == Err::<(), MarinadeError>(MarinadeError::NotPaused) && *final(self) == *old(self),
    {
        if !self.paused {
            return Err(MarinadeError::NotPaused);
        }
        self.paused = false;
        Ok(())
    }

    /// Refuses to operate while paused.
    pub fn check_not_paused(&self) -> (r: Result<(), MarinadeError>)
        ensures
            r is Ok <==> !self.paused,
            r is Err ==> r == Err::<(), MarinadeError>(MarinadeError::ProgramIsPaused),
    {
        if self.paused {
            Err(MarinadeError::ProgramIsPaused)
        } else {
            Ok(())
        }
    }

    pub fn check_admin_authority(&self, admin_authority: &Pubkey) -> (r: Result<(), MarinadeError>)
        ensures
            r is Ok <==> admin_authority@ == self.admin_authority@,
            r is Err ==> r == Err::<(), MarinadeError>(MarinadeError::InvalidAdminAuthority),
    {
        if admin_authority.same_key(&self.admin_authority) {
            Ok(())
        } else {
            Err(MarinadeError::InvalidAdminAuthority)
        }
    }

    pub fn check_msol_mint(&self, msol_mint: &Pubkey) -> (r: Result<(), ProgramError>)
        ensures
            r is Ok <==> msol_mint@ == self.msol_mint@,
            r is Err ==> r == Err::<(), ProgramError>(ProgramError::InvalidArgument),
    {
        check_address(msol_mint, &self.msol_mint, "msol_mint")
    }

    pub fn check_operational_sol_account(&self, operational_sol_account: &Pubkey) -> (r: Result<(), ProgramError>)
        ensures
            r is Ok <==> operational_sol_account@ == self.operational_sol_account@,
            r is Err ==> r == Err::<(), ProgramError>(ProgramError::InvalidArgument),
    {
        check_address(operational_sol_account, &self.operational_sol_account, "operational_sol_account")
    }

    /// The stored price: value of `PRICE_DENOMINATOR` mSOL units.
    pub fn update_msol_price(&mut self) -> (r: Result<(u64, u64), MarinadeError>)
        requires
            totals_fit(*old(self)),
        ensures
            r is Ok <==> spec_msol_to_sol(*old(self), PRICE_DENOMINATOR) is Ok,
            r matches Ok(change) ==> change.0 == old(self).msol_price && change.1 == spec_msol_to_sol(
                *old(self),
                PRICE_DENOMINATOR,
            )->Ok_0 && *final(self) == (State { msol_price: change.1, ..*old(self) }),
            r is Err ==> *final(self) == *old(self) && r == Err::<(u64, u64), MarinadeError>(
                MarinadeError::CalculationFailure,
            ),
    {
        let old_price = self.msol_price;
        let new_price = self.msol_to_sol(PRICE_DENOMINATOR)?;
        self.msol_price = new_price;
        Ok((old_price, new_price))
    }
}

/// Minting mSOL for a deposit and valuing those mSOL at the same price never gives back more
/// lamports than were deposited.
pub proof fn lemma_deposit_then_value_never_gains(s: State, lamports: u64)
    requires
        totals_fit(s),
        s.msol_supply > 0,
        spec_total_virtual_staked_lamports(s) > 0,
        spec_calc_msol_from_lamports(s, lamports) is Ok,
    ensures
        proportional_value(spec_calc_msol_from_lamports(s, lamports)->Ok_0, spec_total_virtual_staked_lamports(s) as u64, s.msol_supply)
            <= lamports,
{
    crate::calc::lemma_shares_round_trip_never_gains(lamports, spec_total_virtual_staked_lamports(s) as u64, s.msol_supply);
}

/// Checks `key` is the address derived from the state address, `tag` and the stored `bump`.
fn check_derived(state_address: &Pubkey, tag: SeedTag, bump: u8, key: &Pubkey, field_name: &str) -> (r: Result<
    (),
    ProgramError,
>)
    ensures
        derived(*state_address, tag, bump) is None ==> r == Err::<(), ProgramError>(ProgramError::InvalidSeeds),
        derived(*state_address, tag, bump) matches Some(k) && k != key@ ==> r == Err::<(), ProgramError>(
            ProgramError::InvalidArgument,
        ),
        r is Ok <==> derived(*state_address, tag, bump) == Some(key@),
{
    match create_address(state_address, tag, bump) {
        Some(expected) => check_address(key, &expected, field_name),
        None => Err(ProgramError::InvalidSeeds),
    }
}

impl State {
    /// The LP mint authority of the pool of the state at `state_address`.
    pub fn lp_mint_authority(&self, state_address: &Pubkey) -> (r: Option<Pubkey>)
        ensures
            r is Some <==> derived(*state_address, SeedTag::LpMintAuthority, self.liq_pool.lp_mint_authority_bump_seed)
                is Some,
            r matches Some(k) ==> derived(*state_address, SeedTag::LpMintAuthority, self.liq_pool.lp_mint_authority_bump_seed)
                == Some(k@),
    {
        create_address(state_address, SeedTag::LpMintAuthority, self.liq_pool.lp_mint_authority_bump_seed)
    }

    /// The SOL leg of the pool of the state at `state_address`.
    pub fn liq_pool_sol_leg_address(&self, state_address: &Pubkey) -> (r: Option<Pubkey>)
        ensures
            r is Some <==> derived(*state_address, SeedTag::SolLeg, self.liq_pool.sol_leg_bump_seed) is Some,
            r matches Some(k) ==> derived(*state_address, SeedTag::SolLeg, self.liq_pool.sol_leg_bump_seed) == Some(k@),
    {
        create_address(state_address, SeedTag::SolLeg, self.liq_pool.sol_leg_bump_seed)
    }

    /// The authority of the mSOL leg of the pool of the state at `state_address`.
    pub fn liq_pool_msol_leg_authority(&self, state_address: &Pubkey) -> (r: Option<Pubkey>)
        ensures
            r is Some <==> derived(*state_address, SeedTag::MsolLegAuthority, self.liq_pool.msol_leg_authority_bump_seed)
                is Some,
            r matches Some(k) ==> derived(
                *state_address,
                SeedTag::MsolLegAuthority,
                self.liq_pool.msol_leg_authority_bump_seed,
            ) == Some(k@),
    {
        create_address(state_address, SeedTag::MsolLegAuthority, self.liq_pool.msol_leg_authority_bump_seed)
    }

    /// The stake withdraw authority of the state at `state_address`.
    pub fn stake_withdraw_authority(&self, state_address: &Pubkey) -> (r: Option<Pubkey>)
        ensures
            r is Some <==> derived(*state_address, SeedTag::StakeWithdraw, self.stake_system.stake_withdraw_bump_seed)
                is Some,
            r matches Some(k) ==> derived(*state_address, SeedTag::StakeWithdraw, self.stake_system.stake_withdraw_bump_seed)
                == Some(k@),
    {
        create_address(state_address, SeedTag::StakeWithdraw, self.stake_system.stake_withdraw_bump_seed)
    }

    /// The stake deposit authority of the state at `state_address`.
    pub fn stake_deposit_authority(&self, state_address: &Pubkey) -> (r: Option<Pubkey>)
        ensures
            r is Some <==> derived(*state_address, SeedTag::StakeDeposit, self.stake_system.stake_deposit_bump_seed)
                is Some,
            r matches Some(k) ==> derived(*state_address, SeedTag::StakeDeposit, self.stake_system.stake_deposit_bump_seed)
                == Some(k@),
    {
        create_address(state_address, SeedTag::StakeDeposit, self.stake_system.stake_deposit_bump_seed)
    }

    pub fn check_lp_mint_authority(&self, state_address: &Pubkey, lp_mint_authority: &Pubkey) -> (r: Result<
        (),
        ProgramError,
    >)
        ensures
            r is Ok <==> derived(*state_address, SeedTag::LpMintAuthority, self.liq_pool.lp_mint_authority_bump_seed)
                == Some(lp_mint_authority@),
            r is Err ==> r == Err::<(), ProgramError>(ProgramError::InvalidSeeds) || r == Err::<(), ProgramError>(
                ProgramError::InvalidArgument,
            ),
    {
        check_derived(
            state_address,
            SeedTag::LpMintAuthority,
            self.liq_pool.lp_mint_authority_bump_seed,
            lp_mint_authority,
            "lp_mint_authority",
        )
    }

    pub fn check_liq_pool_sol_leg_pda(&self, state_address: &Pubkey, liq_pool_sol_leg_pda: &Pubkey) -> (r: Result<
        (),
        ProgramError,
    >)
        ensures
            r is Ok <==> derived(*state_address, SeedTag::SolLeg, self.liq_pool.sol_leg_bump_seed) == Some(
                liq_pool_sol_leg_pda@,
            ),
            r is Err ==> r == Err::<(), ProgramError>(ProgramError::InvalidSeeds) || r == Err::<(), ProgramError>(
                ProgramError::InvalidArgument,
            ),
    {
        check_derived(
            state_address,
            SeedTag::SolLeg,
            self.liq_pool.sol_leg_bump_seed,
            liq_pool_sol_leg_pda,
            "liq_pool_sol_leg_pda",
        )
    }

    pub fn check_liq_pool_msol_leg_authority(&self, state_address: &Pubkey, liq_pool_msol_leg_authority: &Pubkey) -> (r:
        Result<(), ProgramError>)
        ensures
            r is Ok <==> derived(*state_address, SeedTag::MsolLegAuthority, self.liq_pool.msol_leg_authority_bump_seed)
                == Some(liq_pool_msol_leg_authority@),
            r is Err ==> r == Err::<(), ProgramError>(ProgramError::InvalidSeeds) || r == Err::<(), ProgramError>(
                ProgramError::InvalidArgument,
            ),
    {
        check_derived(
            state_address,
            SeedTag::MsolLegAuthority,
            self.liq_pool.msol_leg_authority_bump_seed,
            liq_pool_msol_leg_authority,
            "liq_pool_msol_leg_authority",
        )
    }

    pub fn check_stake_withdraw_authority(&self, state_address: &Pubkey, stake_withdraw_authority: &Pubkey) -> (r:
        Result<(), ProgramError>)
        ensures
            r is Ok <==> derived(*state_address, SeedTag::StakeWithdraw, self.stake_system.stake_withdraw_bump_seed)
                == Some(stake_withdraw_authority@),
            r is Err ==> r == Err::<(), ProgramError>(ProgramError::InvalidSeeds) || r == Err::<(), ProgramError>(
                ProgramError::InvalidArgument,
            ),
    {
        check_derived(
            state_address,
            SeedTag::StakeWithdraw,
            self.stake_system.stake_withdraw_bump_seed,
            stake_withdraw_authority,
            "stake_withdraw_authority",
        )
    }

    pub fn check_stake_deposit_authority(&self, state_address: &Pubkey, stake_deposit_authority: &Pubkey) -> (r: Result<
        (),
        ProgramError,
    >)
        ensures
            r is Ok <==> derived(*state_address, SeedTag::StakeDeposit, self.stake_system.stake_deposit_bump_seed)
                == Some(stake_deposit_authority@),
            r is Err ==> r == Err::<(), ProgramError>(ProgramError::InvalidSeeds) || r == Err::<(), ProgramError>(
                ProgramError::InvalidArgument,
            ),
    {
        check_derived(
            state_address,
            SeedTag::StakeDeposit,
            self.stake_system.stake_deposit_bump_seed,
            stake_deposit_authority,
            "stake_deposit_authority",
        )
    }
}

/// The mSOL price depends only on the lamports under control, the tickets' debt and the mSOL
/// supply: states that agree on those value mSOL alike, both ways.
pub proof fn lemma_price_follows_totals(s: State, t: State, amount: u64)
    requires
        spec_total_lamports_under_control(s) == spec_total_lamports_under_control(t),
        s.circulating_ticket_balance == t.circulating_ticket_balance,
        s.msol_supply == t.msol_supply,
    ensures
        spec_msol_to_sol(s, amount) == spec_msol_to_sol(t, amount),
        spec_calc_msol_from_lamports(s, amount) == spec_calc_msol_from_lamports(t, amount),
{
}


/// The mSOL price is the lamports standing for the mSOL supply (everything under control less
/// what tickets owe, never below zero) over the supply: mSOL is valued at `amount * those
/// lamports / supply` and lamports buy `lamports * supply / those lamports` mSOL, both divided
/// down; before any mSOL exists one mSOL stands for one lamport.
pub proof fn lemma_price_conversions(s: State, amount: u64)
    requires
        totals_fit(s),
    ensures
        ({
            let backing: int = if spec_total_lamports_under_control(s) >= s.circulating_ticket_balance {
                spec_total_lamports_under_control(s) - s.circulating_ticket_balance
            } else {
                0
            };
            &&& spec_total_virtual_staked_lamports(s) == backing
            &&& s.msol_supply == 0 ==> spec_msol_to_sol(s, amount) == Ok::<u64, MarinadeError>(amount)
                && spec_calc_msol_from_lamports(s, amount) == Ok::<u64, MarinadeError>(amount)
            &&& s.msol_supply > 0 ==> (spec_msol_to_sol(s, amount) matches Ok(v) ==> v == (amount as int * backing)
                / s.msol_supply as int)
            &&& s.msol_supply > 0 && backing > 0 ==> (spec_calc_msol_from_lamports(s, amount) matches Ok(m) ==> m
                == (amount as int * s.msol_supply as int) / backing)
        }),
{
}


/// The stake delta is what the reserve above its rent and the delayed-unstake cooling down hold
/// beyond what tickets owe; when they owe more, emergency cooling down covers part of the
/// shortfall, but the delta then never turns positive.
pub proof fn lemma_stake_delta_covers_tickets(s: State, reserve_balance: u64)
    ensures
        ({
            let above_rent: int = if reserve_balance >= s.rent_exempt_for_token_acc {
                reserve_balance - s.rent_exempt_for_token_acc
            } else {
                0
            };
            let free = above_rent + s.stake_system.delayed_unstake_cooling_down - s.circulating_ticket_balance;
            let delta = spec_stake_delta(s, reserve_balance);
            &&& free >= 0 ==> delta == free
            &&& free < 0 ==> free <= delta <= 0
            &&& free < 0 && free + s.emergency_cooling_down <= 0 ==> delta == free + s.emergency_cooling_down
            &&& free < 0 && free + s.emergency_cooling_down > 0 ==> delta == 0
        }),
{
}

} // verus!
