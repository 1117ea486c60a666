//! Creation of the program state: the checks on the accounts handed in and the initial values.
use vstd::prelude::*;

use crate::checks::{
    check_freeze_authority, check_mint_authority, check_mint_empty, check_token_mint, check_token_owner, holds_key, Mint,
    TokenAccount,
};
use crate::error::{Error, MarinadeError, ProgramError, RequireError};
use crate::fee::{Fee, FeeCents};
use crate::liq_pool::{spec_validate, LiqPool};
use crate::pda::{spec_program_id, spec_seeds, spec_try_find_program_address, SeedTag};
use crate::pubkey::{default_key_view, Pubkey};
use crate::stake_system::{spec_stake_list_discriminator, StakeSystem, STAKE_RECORD_SIZE};
use crate::state::{DelinquentUpgraderState, State, MAX_REWARD_FEE_BASIS_POINTS, PRICE_DENOMINATOR};
use crate::validator_system::{spec_validator_list_discriminator, ValidatorSystem, VALIDATOR_RECORD_SIZE};

verus! {

/// The liquidity pool parameters given at creation.
#[derive(Clone, Copy, Debug, PartialEq, Eq)]
pub struct LiqPoolInitializeData {
    pub lp_liquidity_target: u64,
    pub lp_max_fee: Fee,
    pub lp_min_fee: Fee,
    pub lp_treasury_cut: Fee,
}

/// The parameters given at creation.
#[derive(Clone, Copy, Debug, PartialEq, Eq)]
pub struct InitializeData {
    pub admin_authority: Pubkey,
    pub validator_manager_authority: Pubkey,
    pub min_stake: u64,
    pub rewards_fee: Fee,
    pub liq_pool: LiqPoolInitializeData,
    pub additional_stake_record_space: u32,
    pub additional_validator_record_space: u32,
    pub slots_for_stake_delta: u64,
    pub pause_authority: Pubkey,
}

/// The liquidity pool's accounts handed in at creation, with what is read of them.
#[derive(Clone, Copy, Debug)]
pub struct LiqPoolInitializeAccounts {
    pub lp_mint: Pubkey,
    pub lp_mint_info: Mint,
    pub sol_leg_pda: Pubkey,
    pub sol_leg_lamports: u64,
    pub msol_leg: Pubkey,
    pub msol_leg_info: TokenAccount,
}

/// The bump of the address derived from the state address and `tag`, or the error when none is.
pub open spec fn spec_found_bump(state_address: Pubkey, tag: SeedTag) -> Option<(Seq<u8>, u8)> {
    spec_try_find_program_address(spec_seeds(state_address@, tag), spec_program_id())
}

/// The checks on a new mint: its authority is `authority`, nothing minted, no freeze authority.
pub open spec fn spec_check_new_mint(mint: Mint, authority: Seq<u8>) -> Result<(), Error> {
    if !(mint.mint_authority matches Some(k) && k@ == authority) {
        Err(Error::Program(ProgramError::InvalidAccountData))
    } else if mint.supply != 0 {
        Err(Error::Program(ProgramError::InvalidArgument))
    } else if mint.freeze_authority is Some {
        Err(Error::Program(ProgramError::InvalidAccountData))
    } else {
        Ok(())
    }
}

fn check_new_mint(mint: &Mint, authority: &Pubkey, field_name: &str) -> (r: Result<(), Error>)
    ensures
        r == spec_check_new_mint(*mint, authority@),
{
    if let Err(e) = check_mint_authority(mint, authority, field_name) {
        return Err(Error::Program(e));
    }
    if let Err(e) = check_mint_empty(mint, field_name) {
        return Err(Error::Program(e));
    }
    if let Err(e) = check_freeze_authority(mint, field_name) {
        return Err(Error::Program(e));
    }
    Ok(())
}

/// The checks on the mSOL mint: it is controlled by the derived mint authority, empty and not
/// freezable; `Ok` carries the authority's bump.
pub open spec fn spec_check_msol_mint(state_address: Pubkey, msol_mint: Mint) -> Result<u8, Error> {
    match spec_found_bump(state_address, SeedTag::MsolMintAuthority) {
        None => Err(Error::Program(ProgramError::InvalidSeeds)),
        Some(p) => match spec_check_new_mint(msol_mint, p.0) {
            Err(e) => Err(e),
            Ok(()) => Ok(p.1),
        },
    }
}

/// Checks the mSOL mint; answers the bump of its authority.
pub fn check_msol_mint(state_address: &Pubkey, msol_mint: &Mint) -> (r: Result<u8, Error>)
    ensures
        r == spec_check_msol_mint(*state_address, *msol_mint),
{
    let (authority, bump) = match State::find_msol_mint_authority(state_address) {
        Some(p) => p,
        None => {
            return Err(Error::Program(ProgramError::InvalidSeeds));
        },
    };
    check_new_mint(msol_mint, &authority, "msol_mint")?;
    Ok(bump)
}

/// The checks on the LP mint: another mint than mSOL's, controlled by the derived LP mint
/// authority, empty and not freezable; `Ok` carries the authority's bump.
pub open spec fn spec_check_lp_mint(state_address: Pubkey, msol_mint: Pubkey, accounts: LiqPoolInitializeAccounts) -> Result<
    u8,
    Error,
> {
    if accounts.lp_mint@ == msol_mint@ {
        Err(Error::Require(RequireError::RequireKeysNeqViolated))
    } else {
        match spec_found_bump(state_address, SeedTag::LpMintAuthority) {
            None => Err(Error::Program(ProgramError::InvalidSeeds)),
            Some(p) => match spec_check_new_mint(accounts.lp_mint_info, p.0) {
                Err(e) => Err(e),
                Ok(()) => Ok(p.1),
            },
        }
    }
}

/// Checks the LP mint; answers the bump of its authority.
pub fn check_lp_mint(state_address: &Pubkey, msol_mint: &Pubkey, accounts: &LiqPoolInitializeAccounts) -> (r: Result<
    u8,
    Error,
>)
    ensures
        r == spec_check_lp_mint(*state_address, *msol_mint, *accounts),
{
    if accounts.lp_mint.same_key(msol_mint) {
        return Err(Error::Require(RequireError::RequireKeysNeqViolated));
    }
    let (authority, bump) = match LiqPool::find_lp_mint_authority(state_address) {
        Some(p) => p,
        None => {
            return Err(Error::Program(ProgramError::InvalidSeeds));
        },
    };
    check_new_mint(&accounts.lp_mint_info, &authority, "lp_mint")?;
    Ok(bump)
}

/// The checks on the SOL leg: it is the derived account and holds `required_lamports`; `Ok`
/// carries its bump.
pub open spec fn spec_check_sol_leg(state_address: Pubkey, accounts: LiqPoolInitializeAccounts, required_lamports: u64) -> Result<
    u8,
    Error,
> {
    match spec_found_bump(state_address, SeedTag::SolLeg) {
        None => Err(Error::Program(ProgramError::InvalidSeeds)),
        Some(p) => if accounts.sol_leg_pda@ != p.0 {
            Err(Error::Require(RequireError::RequireKeysEqViolated))
        } else if accounts.sol_leg_lamports != required_lamports {
            Err(Error::Require(RequireError::RequireEqViolated))
        } else {
            Ok(p.1)
        },
    }
}

/// Checks the SOL leg; answers its bump.
pub fn check_sol_leg(state_address: &Pubkey, accounts: &LiqPoolInitializeAccounts, required_lamports: u64) -> (r: Result<
    u8,
    Error,
>)
    ensures
        r == spec_check_sol_leg(*state_address, *accounts, required_lamports),
{
    let (address, bump) = match LiqPool::find_sol_leg_address(state_address) {
        Some(p) => p,
        None => {
            return Err(Error::Program(ProgramError::InvalidSeeds));
        },
    };
    if !accounts.sol_leg_pda.same_key(&address) {
        return Err(Error::Require(RequireError::RequireKeysEqViolated));
    }
    if accounts.sol_leg_lamports != required_lamports {
        return Err(Error::Require(RequireError::RequireEqViolated));
    }
    Ok(bump)
}

/// The checks on the mSOL leg: an mSOL token account owned by the derived mSOL leg authority;
/// `Ok` carries the authority's bump.
pub open spec fn spec_check_msol_leg(state_address: Pubkey, msol_mint: Pubkey, accounts: LiqPoolInitializeAccounts) -> Result<
    u8,
    Error,
> {
    if accounts.msol_leg_info.mint@ != msol_mint@ {
        Err(Error::Program(ProgramError::InvalidAccountData))
    } else {
        match spec_found_bump(state_address, SeedTag::MsolLegAuthority) {
            None => Err(Error::Program(ProgramError::InvalidSeeds)),
            Some(p) => if accounts.msol_leg_info.owner@ != p.0 {
                Err(Error::Program(ProgramError::InvalidAccountData))
            } else {
                Ok(p.1)
            },
        }
    }
}

/// Checks the mSOL leg; answers the bump of its authority.
pub fn check_msol_leg(state_address: &Pubkey, msol_mint: &Pubkey, accounts: &LiqPoolInitializeAccounts) -> (r: Result<
    u8,
    Error,
>)
    ensures
        r == spec_check_msol_leg(*state_address, *msol_mint, *accounts),
{
    if let Err(e) = check_token_mint(&accounts.msol_leg_info, msol_mint, "liq_msol") {
        return Err(Error::Program(e));
    }
    let (authority, bump) = match LiqPool::find_msol_leg_authority(state_address) {
        Some(p) => p,
        None => {
            return Err(Error::Program(ProgramError::InvalidSeeds));
        },
    };
    if let Err(e) = check_token_owner(&accounts.msol_leg_info, &authority, "liq_msol_leg") {
        return Err(Error::Program(e));
    }
    Ok(bump)
}

/// The new liquidity pool: its accounts checked, its parameters valid, nothing lent or minted
/// and liquidity uncapped.
pub open spec fn spec_liq_pool_initialize(
    state_address: Pubkey,
    msol_mint: Pubkey,
    accounts: LiqPoolInitializeAccounts,
    data: LiqPoolInitializeData,
    required_sol_leg_lamports: u64,
) -> Result<LiqPool, Error> {
    match spec_check_lp_mint(state_address, msol_mint, accounts) {
        Err(e) => Err(e),
        Ok(lp_bump) => match spec_check_sol_leg(state_address, accounts, required_sol_leg_lamports) {
            Err(e) => Err(e),
            Ok(sol_bump) => match spec_check_msol_leg(state_address, msol_mint, accounts) {
                Err(e) => Err(e),
                Ok(msol_bump) => {
                    let pool = LiqPool {
                        lp_mint: accounts.lp_mint,
                        lp_mint_authority_bump_seed: lp_bump,
                        sol_leg_bump_seed: sol_bump,
                        msol_leg_authority_bump_seed: msol_bump,
                        msol_leg: accounts.msol_leg,
                        lp_liquidity_target: data.lp_liquidity_target,
                        lp_max_fee: data.lp_max_fee,
                        lp_min_fee: data.lp_min_fee,
                        treasury_cut: data.lp_treasury_cut,
                        lp_supply: 0,
                        lent_from_sol_leg: 0,
                        liquidity_sol_cap: u64::MAX,
                    };
                    match spec_validate(pool) {
                        Err(e) => Err(Error::Marinade(e)),
                        Ok(()) => Ok(pool),
                    }
                },
            },
        },
    }
}

/// Creates the liquidity pool from its checked accounts and parameters.
pub fn liq_pool_initialize(
    state_address: &Pubkey,
    msol_mint: &Pubkey,
    accounts: &LiqPoolInitializeAccounts,
    data: LiqPoolInitializeData,
    required_sol_leg_lamports: u64,
) -> (r: Result<LiqPool, Error>)
    ensures
        r == spec_liq_pool_initialize(*state_address, *msol_mint, *accounts, data, required_sol_leg_lamports),
{
    let lp_mint_authority_bump_seed = check_lp_mint(state_address, msol_mint, accounts)?;
    let sol_leg_bump_seed = check_sol_leg(state_address, accounts, required_sol_leg_lamports)?;
    let msol_leg_authority_bump_seed = check_msol_leg(state_address, msol_mint, accounts)?;
    let liq_pool = LiqPool {
        lp_mint: accounts.lp_mint,
        lp_mint_authority_bump_seed,
        sol_leg_bump_seed,
        msol_leg_authority_bump_seed,
        msol_leg: accounts.msol_leg,
        lp_liquidity_target: data.lp_liquidity_target,
        lp_max_fee: data.lp_max_fee,
        lp_min_fee: data.lp_min_fee,
        treasury_cut: data.lp_treasury_cut,
        lp_supply: 0,
        lent_from_sol_leg: 0,
        liquidity_sol_cap: u64::MAX,
    };
    if let Err(e) = liq_pool.validate() {
        return Err(Error::Marinade(e));
    }
    Ok(liq_pool)
}

/// Whether a list account can be initialized: at least a discriminator long, and no
/// discriminator written yet.
pub open spec fn spec_check_list_uninitialized(data: Seq<u8>) -> Result<(), ProgramError> {
    if data.len() < 8 {
        Err(ProgramError::AccountDataTooSmall)
    } else if data.subrange(0, 8) != Seq::new(8, |i: int| 0u8) {
        Err(ProgramError::AccountAlreadyInitialized)
    } else {
        Ok(())
    }
}

fn check_list_uninitialized(data: &Vec<u8>) -> (r: Result<(), ProgramError>)
    ensures
        r == spec_check_list_uninitialized(data@),
{
    if data.len() < 8 {
        return Err(ProgramError::AccountDataTooSmall);
    }
    let mut i: usize = 0;
    while i < 8
        invariant
            i <= 8,
            data@.len() >= 8,
            forall|j: int| 0 <= j < i ==> data@[j] == 0u8,
        decreases 8 - i,
    {
        if data[i] != 0 {
            assert(data@.subrange(0, 8)[i as int] != Seq::new(8, |k: int| 0u8)[i as int]);
            return Err(ProgramError::AccountAlreadyInitialized);
        }
        i = i + 1;
    }
    assert(data@.subrange(0, 8) =~= Seq::new(8, |k: int| 0u8));
    Ok(())
}

/// The checks of the program's creation, in order; `Ok` carries the bump of the mSOL mint
/// authority and the new liquidity pool.
pub open spec fn spec_initialize_checks(
    state_address: Pubkey,
    data: InitializeData,
    stake_list: Pubkey,
    stake_list_data: Seq<u8>,
    validator_list: Pubkey,
    validator_list_data: Seq<u8>,
    msol_mint: Pubkey,
    msol_mint_info: Mint,
    reserve_lamports: u64,
    rent_exempt_for_token_acc: u64,
    liq_pool_accounts: LiqPoolInitializeAccounts,
) -> Result<(u8, LiqPool), Error> {
    if data.rewards_fee.basis_points > MAX_REWARD_FEE_BASIS_POINTS {
        Err(Error::Marinade(MarinadeError::RewardsFeeIsTooHigh))
    } else if state_address@ == stake_list@ || state_address@ == validator_list@ || stake_list@ == validator_list@ {
        Err(Error::Require(RequireError::RequireKeysNeqViolated))
    } else if reserve_lamports != rent_exempt_for_token_acc {
        Err(Error::Require(RequireError::RequireEqViolated))
    } else {
        match spec_check_msol_mint(state_address, msol_mint_info) {
            Err(e) => Err(e),
            Ok(msol_bump) => if spec_check_list_uninitialized(stake_list_data) is Err {
                Err(Error::Program(spec_check_list_uninitialized(stake_list_data)->Err_0))
            } else if spec_found_bump(state_address, SeedTag::StakeDeposit) is None || spec_found_bump(
                state_address,
                SeedTag::StakeWithdraw,
            ) is None {
                Err(Error::Program(ProgramError::InvalidSeeds))
            } else if spec_check_list_uninitialized(validator_list_data) is Err {
                Err(Error::Program(spec_check_list_uninitialized(validator_list_data)->Err_0))
            } else {
                match spec_liq_pool_initialize(
                    state_address,
                    msol_mint,
                    liq_pool_accounts,
                    data.liq_pool,
                    rent_exempt_for_token_acc,
                ) {
                    Err(e) => Err(e),
                    Ok(pool) => Ok((msol_bump, pool)),
                }
            },
        }
    }
}

/// Creates the program state at `state_address`: checks the fee, that the state and list
/// accounts are distinct, the reserve (holding exactly the rent of a token account, which the
/// caller computes), the mSOL mint and the liquidity pool's accounts; stamps both lists; and
/// answers the new state: nothing staked, minted or owed, price one, deposits and withdrawals
/// from one lamport, staking uncapped, not paused, no unstake fees, no delinquent re-count to
/// run.
pub fn initialize(
    state_address: &Pubkey,
    data: InitializeData,
    reserve_pda_bump: u8,
    stake_list: &Pubkey,
    stake_list_data: &mut Vec<u8>,
    validator_list: &Pubkey,
    validator_list_data: &mut Vec<u8>,
    msol_mint: &Pubkey,
    msol_mint_info: &Mint,
    operational_sol_account: &Pubkey,
    treasury_msol_account: &Pubkey,
    reserve_lamports: u64,
    rent_exempt_for_token_acc: u64,
    liq_pool_accounts: &LiqPoolInitializeAccounts,
) -> (r: Result<State, Error>)
    requires
        data.additional_stake_record_space <= u32::MAX - STAKE_RECORD_SIZE,
        data.additional_validator_record_space <= u32::MAX - VALIDATOR_RECORD_SIZE,
    ensures
        ({
            let checks = spec_initialize_checks(
                *state_address,
                data,
                *stake_list,
                old(stake_list_data)@,
                *validator_list,
                old(validator_list_data)@,
                *msol_mint,
                *msol_mint_info,
                reserve_lamports,
                rent_exempt_for_token_acc,
                *liq_pool_accounts,
            );
            &&& r is Ok <==> checks is Ok
            &&& r is Err ==> r->Err_0 == checks->Err_0 && final(stake_list_data)@ == old(stake_list_data)@
                && final(validator_list_data)@ == old(validator_list_data)@
            &&& r is Ok ==> {
                let s = r->Ok_0;
                let (msol_bump, pool) = checks->Ok_0;
                &&& s.msol_mint == *msol_mint
                &&& s.admin_authority == data.admin_authority
                &&& s.operational_sol_account == *operational_sol_account
                &&& s.treasury_msol_account == *treasury_msol_account
                &&& s.reserve_bump_seed == reserve_pda_bump
                &&& s.msol_mint_authority_bump_seed == msol_bump
                &&& s.rent_exempt_for_token_acc == rent_exempt_for_token_acc
                &&& s.reward_fee == data.rewards_fee
                &&& s.liq_pool == pool
                &&& s.available_reserve_balance == 0
                &&& s.msol_supply == 0
                &&& s.msol_price == PRICE_DENOMINATOR
                &&& s.circulating_ticket_count == 0
                &&& s.circulating_ticket_balance == 0
                &&& s.lent_from_reserve == 0
                &&& s.min_deposit == 1
                &&& s.min_withdraw == 1
                &&& s.staking_sol_cap == u64::MAX
                &&& s.emergency_cooling_down == 0
                &&& s.pause_authority == data.pause_authority
                &&& !s.paused
                &&& s.delayed_unstake_fee == FeeCents { bp_cents: 0 }
                &&& s.withdraw_stake_account_fee == FeeCents { bp_cents: 0 }
                &&& !s.withdraw_stake_account_enabled
                &&& s.delinquent_upgrader == DelinquentUpgraderState::Done
                &&& s.stake_system.stake_list.account == *stake_list
                &&& s.stake_system.stake_list.item_size == STAKE_RECORD_SIZE + data.additional_stake_record_space
                &&& s.stake_system.stake_list.count == 0
                &&& s.stake_system.stake_list.new_account@ == default_key_view()
                &&& s.stake_system.delayed_unstake_cooling_down == 0
                &&& s.stake_system.slots_for_stake_delta == data.slots_for_stake_delta
                &&& s.stake_system.last_stake_delta_epoch == u64::MAX
                &&& s.stake_system.min_stake == data.min_stake
                &&& s.stake_system.extra_stake_delta_runs == 0
                &&& s.stake_system.stake_deposit_bump_seed == spec_found_bump(*state_address, SeedTag::StakeDeposit)->Some_0.1
                &&& s.stake_system.stake_withdraw_bump_seed == spec_found_bump(
                    *state_address,
                    SeedTag::StakeWithdraw,
                )->Some_0.1
                &&& s.validator_system.validator_list.account == *validator_list
                &&& s.validator_system.validator_list.item_size == VALIDATOR_RECORD_SIZE
                    + data.additional_validator_record_space
                &&& s.validator_system.validator_list.count == 0
                &&& s.validator_system.validator_list.new_account@ == default_key_view()
                &&& s.validator_system.manager_authority == data.validator_manager_authority
                &&& s.validator_system.total_validator_score == 0
                &&& s.validator_system.total_active_balance == 0
                &&& s.validator_system.auto_add_validator_enabled == 0
                &&& final(stake_list_data)@ == spec_stake_list_discriminator() + old(stake_list_data)@.subrange(
                    8,
                    old(stake_list_data)@.len() as int,
                )
                &&& final(validator_list_data)@ == spec_validator_list_discriminator() + old(validator_list_data)@.subrange(
                    8,
                    old(validator_list_data)@.len() as int,
                )
            }
        }),
{
    if data.rewards_fee.basis_points > MAX_REWARD_FEE_BASIS_POINTS {
        return Err(Error::Marinade(MarinadeError::RewardsFeeIsTooHigh));
    }
    if state_address.same_key(stake_list) || state_address.same_key(validator_list) || stake_list.same_key(validator_list) {
        return Err(Error::Require(RequireError::RequireKeysNeqViolated));
    }
    // the reserve holds exactly the rent of a token account
    if reserve_lamports != rent_exempt_for_token_acc {
        return Err(Error::Require(RequireError::RequireEqViolated));
    }
    let msol_mint_authority_bump_seed = check_msol_mint(state_address, msol_mint_info)?;
    // both lists and the pool are checked before any account is written
    if let Err(e) = check_list_uninitialized(stake_list_data) {
        return Err(Error::Program(e));
    }
    if StakeSystem::find_stake_deposit_authority(state_address).is_none() || StakeSystem::find_stake_withdraw_authority(
        state_address,
    ).is_none() {
        return Err(Error::Program(ProgramError::InvalidSeeds));
    }
    if let Err(e) = check_list_uninitialized(validator_list_data) {
        return Err(Error::Program(e));
    }
    let liq_pool = liq_pool_initialize(state_address, msol_mint, liq_pool_accounts, data.liq_pool, rent_exempt_for_token_acc)?;
    let stake_system = match StakeSystem::new(
        state_address,
        *stake_list,
        stake_list_data,
        data.slots_for_stake_delta,
        data.min_stake,
        0,
        data.additional_stake_record_space,
    ) {
        Ok(s) => s,
        Err(e) => {
            return Err(Error::Program(e));
        },
    };
    let validator_system = match ValidatorSystem::new(
        *validator_list,
        validator_list_data,
        data.validator_manager_authority,
        data.additional_validator_record_space,
    ) {
        Ok(v) => v,
        Err(e) => {
            return Err(Error::Program(e));
        },
    };
    Ok(
        State {
            msol_mint: *msol_mint,
            admin_authority: data.admin_authority,
            operational_sol_account: *operational_sol_account,
            treasury_msol_account: *treasury_msol_account,
            reserve_bump_seed: reserve_pda_bump,
            msol_mint_authority_bump_seed,
            rent_exempt_for_token_acc,
            reward_fee: data.rewards_fee,
            stake_system,
            validator_system,
            liq_pool,
            available_reserve_balance: 0,
            msol_supply: 0,
            msol_price: PRICE_DENOMINATOR,
            circulating_ticket_count: 0,
            circulating_ticket_balance: 0,
            lent_from_reserve: 0,
            min_deposit: 1,  // 1 lamport
            min_withdraw: 1,  // 1 lamport
            staking_sol_cap: u64::MAX,  // Unlimited
            emergency_cooling_down: 0,
            pause_authority: data.pause_authority,
            paused: false,
            delayed_unstake_fee: FeeCents::from_bp_cents(0),
            withdraw_stake_account_fee: FeeCents::from_bp_cents(0),
            withdraw_stake_account_enabled: false,
            delinquent_upgrader: DelinquentUpgraderState::Done,
        },
    )
}

} // verus!
