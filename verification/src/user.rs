//! User deposits: SOL for mSOL (first bought from the liquidity pool, the rest minted against
//! the reserve).
use vstd::prelude::*;

use crate::calc::{lemma_proportional_monotone, lemma_shares_round_trip_never_gains, proportional_value, spec_proportional};
use crate::checks::{Delegation, StakeAccountInfo};
use crate::error::{Error, MarinadeError, ProgramError};
use crate::list::slot_after_write;
use crate::pda::{create_address, spec_create_program_address, spec_program_id, spec_seeds, SeedTag};
use crate::pubkey::Pubkey;
use crate::stake_system::{spec_encode_stake_record, StakeRecord, StakeStatus};
use crate::validator_system::{spec_encode_validator_record, ValidatorRecord};
use crate::state::{
    spec_calc_msol_from_lamports, spec_msol_to_sol, spec_total_lamports_under_control, spec_total_virtual_staked_lamports,
    totals_fit, State,
};

verus! {

/// The amounts moved by a deposit.
#[derive(Clone, Copy, Debug, PartialEq, Eq)]
pub struct DepositOutcome {
    /// mSOL sold to the user from the liquidity pool's mSOL leg.
    pub msol_swapped: u64,
    /// Lamports paid into the liquidity pool's SOL leg for them.
    pub sol_swapped: u64,
    /// Lamports transferred into the reserve.
    pub sol_deposited: u64,
    /// mSOL minted to the user for them.
    pub msol_minted: u64,
}

/// The lamports paid to the pool for `msol_swapped` of an order of `order` mSOL.
pub open spec fn spec_sol_swapped(s: State, lamports: u64, order: u64, msol_swapped: u64) -> Result<u64, MarinadeError> {
    if msol_swapped == 0 {
        Ok(0)
    } else if order == msol_swapped {
        Ok(lamports)
    } else {
        spec_msol_to_sol(s, msol_swapped)
    }
}

/// What a deposit of `lamports` answers, given the depositor's balance, the mSOL mint's supply
/// and the mSOL held by the pool's mSOL leg.
pub open spec fn spec_deposit(
    s: State,
    lamports: u64,
    user_lamports: u64,
    msol_mint_supply: u64,
    liq_pool_msol_leg_amount: u64,
) -> Result<DepositOutcome, Error> {
    if lamports < s.min_deposit {
        Err(Error::Marinade(MarinadeError::DepositAmountIsTooLow))
    } else if lamports > user_lamports {
        Err(Error::Marinade(MarinadeError::NotEnoughUserFunds))
    } else if msol_mint_supply > s.msol_supply {
        Err(Error::Marinade(MarinadeError::UnregisteredMsolMinted))
    } else {
        match spec_calc_msol_from_lamports(s, lamports) {
            Err(e) => Err(Error::Marinade(e)),
            Ok(order) => {
                let msol_swapped = if order < liq_pool_msol_leg_amount { order } else { liq_pool_msol_leg_amount };
                match spec_sol_swapped(s, lamports, order, msol_swapped) {
                    Err(e) => Err(Error::Marinade(e)),
                    Ok(sol_swapped) => {
                        let sol_deposited = (lamports - sol_swapped) as u64;
                        if sol_deposited == 0 {
                            Ok(DepositOutcome { msol_swapped, sol_swapped, sol_deposited, msol_minted: 0 })
                        } else if spec_total_lamports_under_control(s) + sol_deposited > u64::MAX {
                            Err(Error::Marinade(MarinadeError::CalculationFailure))
                        } else if spec_total_lamports_under_control(s) + sol_deposited > s.staking_sol_cap {
                            Err(Error::Marinade(MarinadeError::StakingIsCapped))
                        } else {
                            match spec_calc_msol_from_lamports(s, sol_deposited) {
                                Err(e) => Err(Error::Marinade(e)),
                                Ok(msol_minted) => Ok(
                                    DepositOutcome { msol_swapped, sol_swapped, sol_deposited, msol_minted },
                                ),
                            }
                        }
                    },
                }
            },
        }
    }
}

/// The value of no more mSOL than a deposit buys never exceeds the deposit.
proof fn lemma_value_of_bought_msol(s: State, lamports: u64, m: u64)
    requires
        totals_fit(s),
        spec_calc_msol_from_lamports(s, lamports) is Ok,
        m <= spec_calc_msol_from_lamports(s, lamports)->Ok_0,
        m < spec_calc_msol_from_lamports(s, lamports)->Ok_0 || s.msol_supply > 0,
    ensures
        spec_msol_to_sol(s, m) is Ok,
        spec_msol_to_sol(s, m)->Ok_0 <= lamports,
{
    let tv = spec_total_virtual_staked_lamports(s) as u64;
    let order = spec_calc_msol_from_lamports(s, lamports)->Ok_0;
    if s.msol_supply == 0 {
        // first mint: one for one
    } else if tv == 0 {
        assert(proportional_value(m, 0, s.msol_supply) == 0) by {
            assert((m as int) * 0 == 0);
        }
    } else {
        lemma_shares_round_trip_never_gains(lamports, tv, s.msol_supply);
        lemma_proportional_monotone(m, order, tv, s.msol_supply);
    }
}

/// Deposit `lamports` of the depositor's SOL for mSOL: mSOL in the liquidity pool's mSOL leg is
/// sold first (no fee); the rest of the SOL goes to the reserve and fresh mSOL is minted for it.
/// The state accounts the reserve inflow and the minted mSOL.
pub fn deposit(
    state: &mut State,
    lamports: u64,
    user_lamports: u64,
    msol_mint_supply: u64,
    liq_pool_msol_leg_amount: u64,
) -> (r: Result<DepositOutcome, Error>)
    requires
        totals_fit(*old(state)),
        spec_calc_msol_from_lamports(*old(state), lamports) is Ok ==> old(state).msol_supply
            + spec_calc_msol_from_lamports(*old(state), lamports)->Ok_0 <= u64::MAX,
    ensures
        r == spec_deposit(*old(state), lamports, user_lamports, msol_mint_supply, liq_pool_msol_leg_amount),
        r matches Ok(o) ==> *final(state) == (State {
            available_reserve_balance: (old(state).available_reserve_balance + o.sol_deposited) as u64,
            msol_supply: (old(state).msol_supply + o.msol_minted) as u64,
            ..*old(state)
        }),
        r matches Ok(o) ==> o.sol_swapped + o.sol_deposited == lamports && o.msol_swapped <= liq_pool_msol_leg_amount,
        r is Err ==> *final(state) == *old(state),
{
    if lamports < state.min_deposit {
        return Err(Error::Marinade(MarinadeError::DepositAmountIsTooLow));
    }
    if lamports > user_lamports {
        return Err(Error::Marinade(MarinadeError::NotEnoughUserFunds));
    }
    // impossible to happen check outside bug (msol mint auth is a PDA)
    if msol_mint_supply > state.msol_supply {
        return Err(Error::Marinade(MarinadeError::UnregisteredMsolMinted));
    }
    //compute how many mSOL to sell/mint for the user, base on how many lamports being deposited
    let user_msol_buy_order = match state.calc_msol_from_lamports(lamports) {
        Ok(v) => v,
        Err(e) => {
            return Err(Error::Marinade(e));
        },
    };
    //First we try to "sell" mSOL to the user from the LiqPool.
    //The LiqPool needs to get rid of their mSOL because it works better if fully "unbalanced", i.e. with all SOL no mSOL
    //so, if we can, the LiqPool "sells" mSOL to the user (no fee)
    //
    // At max, we can sell all the mSOL in the LiqPool.mSOL_leg
    let msol_swapped: u64 = if user_msol_buy_order < liq_pool_msol_leg_amount {
        user_msol_buy_order
    } else {
        liq_pool_msol_leg_amount
    };
    //if we can sell from the LiqPool
    let sol_swapped: u64 = if msol_swapped > 0 {
        // how much lamports go into the LiqPool?
        if user_msol_buy_order == msol_swapped {
            //we are fulfilling 100% the user order
            lamports  //100% of the user deposit
        } else {
            // partially filled
            // then it's the lamport value of the tokens we're selling
            proof {
                lemma_value_of_bought_msol(*state, lamports, msol_swapped);
            }
            match state.calc_lamports_from_msol_amount(msol_swapped) {
                Ok(v) => v,
                Err(e) => {
                    return Err(Error::Marinade(e));
                },
            }
        }
    } else {
        0
    };
    let sol_deposited: u64 = lamports - sol_swapped;
    // check if we have more lamports from the user
    let msol_minted: u64 = if sol_deposited > 0 {
        match state.check_staking_cap(sol_deposited) {
            Ok(()) => {},
            Err(e) => {
                return Err(Error::Marinade(e));
            },
        }
        //compute how much msol_to_mint
        //NOTE: it is IMPORTANT to use calc_msol_from_lamports() BEFORE adding the lamports
        // because on_transfer_to_reserve(sol_deposited) alters price calculation
        // the same goes for state.on_msol_mint()
        let msol_to_mint = match state.calc_msol_from_lamports(sol_deposited) {
            Ok(v) => v,
            Err(e) => {
                return Err(Error::Marinade(e));
            },
        };
        proof {
            lemma_minted_at_most_ordered(*state, sol_deposited, lamports);
        }
        state.on_transfer_to_reserve(sol_deposited);
        if msol_to_mint > 0 {
            state.on_msol_mint(msol_to_mint);
        }
        msol_to_mint
    } else {
        0
    };
    Ok(DepositOutcome { msol_swapped, sol_swapped, sol_deposited, msol_minted })
}

/// mSOL minted for part of a deposit is no more than what the whole deposit buys.
proof fn lemma_minted_at_most_ordered(s: State, part: u64, lamports: u64)
    requires
        part <= lamports,
        spec_calc_msol_from_lamports(s, part) is Ok,
        spec_calc_msol_from_lamports(s, lamports) is Ok,
    ensures
        spec_calc_msol_from_lamports(s, part)->Ok_0 <= spec_calc_msol_from_lamports(s, lamports)->Ok_0,
{
    if s.msol_supply != 0 {
        lemma_proportional_monotone(part, lamports, s.msol_supply, spec_total_virtual_staked_lamports(s) as u64);
    }
}

/// The amounts of a stake account deposit.
#[derive(Clone, Copy, Debug, PartialEq, Eq)]
pub struct DepositStakeAccountOutcome {
    /// Delegated lamports taken over.
    pub delegated: u64,
    /// mSOL minted to the depositor.
    pub msol_minted: u64,
    /// Index of the new stake record.
    pub stake_index: u32,
    /// Whether the lockup must be cleared before taking over the authorities.
    pub clear_lockup: bool,
    /// The new staker authority (the stake deposit authority).
    pub new_staker: Pubkey,
    /// The new withdrawer authority (the stake withdraw authority).
    pub new_withdrawer: Pubkey,
}

/// The address derived from the state address, a tag and a bump, when it exists.
pub open spec fn derived(state_address: Pubkey, tag: SeedTag, bump: u8) -> Option<Seq<u8>> {
    spec_create_program_address(spec_seeds(state_address@, tag).push(seq![bump]), spec_program_id())
}

/// The checks of a stake account deposit, in order; `Ok` carries the delegation.
pub open spec fn spec_deposit_stake_account_checks(
    s: State,
    msol_mint_supply: u64,
    stake: StakeAccountInfo,
    epoch: u64,
) -> Result<Delegation, Error> {
    if s.paused {
        Err(Error::Marinade(MarinadeError::ProgramIsPaused))
    } else if msol_mint_supply > s.msol_supply {
        Err(Error::Marinade(MarinadeError::UnregisteredMsolMinted))
    } else {
        match stake.delegation {
            None => Err(Error::Marinade(MarinadeError::RequiredDelegatedStake)),
            Some(d) => if d.deactivation_epoch != u64::MAX {
                Err(Error::Marinade(MarinadeError::RequiredActiveStake))
            } else if epoch < d.activation_epoch {
                Err(Error::Marinade(MarinadeError::DepositingNotActivatedStake))
            } else if d.stake < s.stake_system.min_stake {
                Err(Error::Marinade(MarinadeError::TooLowDelegationInDepositingStake))
            } else if stake.lamports != d.stake + stake.rent_exempt_reserve {
                Err(Error::Marinade(MarinadeError::WrongStakeBalance))
            } else if spec_total_lamports_under_control(s) + d.stake > u64::MAX {
                Err(Error::Marinade(MarinadeError::CalculationFailure))
            } else if spec_total_lamports_under_control(s) + d.stake > s.staking_sol_cap {
                Err(Error::Marinade(MarinadeError::StakingIsCapped))
            } else if stake.lockup_in_force {
                Err(Error::Marinade(MarinadeError::StakeAccountWithLockup))
            } else {
                Ok(d)
            },
        }
    }
}

/// The checks of a stake account deposit once the stake account passed its own, in order: the
/// validator record names the delegation's voter, both authorities derive and differ from the
/// account's current ones, both lists can be written and the stake list has room, and the mSOL
/// to mint computes.
pub open spec fn spec_deposit_stake_account_rest(
    s: State,
    state_address: Pubkey,
    stake_list_len: usize,
    validator_list: Seq<u8>,
    validator_index: u32,
    d: Delegation,
    stake: StakeAccountInfo,
) -> Result<(), Error> {
    let deposit_authority = derived(state_address, SeedTag::StakeDeposit, s.stake_system.stake_deposit_bump_seed);
    let withdraw_authority = derived(state_address, SeedTag::StakeWithdraw, s.stake_system.stake_withdraw_bump_seed);
    if validator_index >= s.validator_system.validator_list.count {
        Err(Error::Program(ProgramError::InvalidArgument))
    } else if s.validator_system.record_at(validator_list, validator_index as int).validator_account@ != d.voter_pubkey@ {
        Err(Error::Marinade(MarinadeError::WrongValidatorAccountOrIndex))
    } else if s.validator_system.validator_list.spec_is_changing_account() {
        Err(Error::Program(ProgramError::InvalidAccountData))
    } else if deposit_authority is None {
        Err(Error::Program(ProgramError::InvalidSeeds))
    } else if stake.staker@ == deposit_authority->Some_0 {
        Err(Error::Marinade(MarinadeError::RedepositingMarinadeStake))
    } else if withdraw_authority is None {
        Err(Error::Program(ProgramError::InvalidSeeds))
    } else if stake.withdrawer@ == withdraw_authority->Some_0 {
        Err(Error::Marinade(MarinadeError::RedepositingMarinadeStake))
    } else if s.stake_system.stake_list.spec_is_changing_account() {
        Err(Error::Program(ProgramError::InvalidAccountData))
    } else if s.stake_system.stake_list.spec_capacity(stake_list_len) is Err {
        Err(Error::Program(s.stake_system.stake_list.spec_capacity(stake_list_len)->Err_0))
    } else if s.stake_system.stake_list.count >= s.stake_system.stake_list.spec_capacity(stake_list_len)->Ok_0 {
        Err(Error::Program(ProgramError::AccountDataTooSmall))
    } else if spec_calc_msol_from_lamports(s, d.stake) is Err {
        Err(Error::Marinade(spec_calc_msol_from_lamports(s, d.stake)->Err_0))
    } else {
        Ok(())
    }
}

/// Deposit an active, delegated stake account: the program takes over its staker and withdrawer
/// authorities, records it in the stake list, adds its delegation to the validator's and the
/// total active balance and mints mSOL for it.
pub fn deposit_stake_account(
    state: &mut State,
    state_address: &Pubkey,
    stake_list_data: &mut Vec<u8>,
    validator_list_data: &mut Vec<u8>,
    validator_index: u32,
    stake_account: &Pubkey,
    stake: &StakeAccountInfo,
    msol_mint_supply: u64,
    epoch: u64,
) -> (r: Result<DepositStakeAccountOutcome, Error>)
    requires
        totals_fit(*old(state)),
        old(state).stake_system.list_fits(old(stake_list_data)@),
        old(state).validator_system.list_fits(old(validator_list_data)@),
        stake.delegation matches Some(d) ==> d.stake + stake.rent_exempt_reserve <= u64::MAX,
        stake.delegation matches Some(d) ==> validator_index < old(state).validator_system.validator_list.count ==> old(
            state,
        ).validator_system.record_at(old(validator_list_data)@, validator_index as int).active_balance + d.stake
            <= u64::MAX,
        stake.delegation matches Some(d) ==> (spec_calc_msol_from_lamports(*old(state), d.stake) is Ok ==> old(state).msol_supply
            + spec_calc_msol_from_lamports(*old(state), d.stake)->Ok_0 <= u64::MAX),
    ensures
        spec_deposit_stake_account_checks(*old(state), msol_mint_supply, *stake, epoch) matches Err(e) ==> r == Err::<
            DepositStakeAccountOutcome,
            Error,
        >(e),
        spec_deposit_stake_account_checks(*old(state), msol_mint_supply, *stake, epoch) matches Ok(d) ==> {
            let rest = spec_deposit_stake_account_rest(
                *old(state),
                *state_address,
                old(stake_list_data)@.len() as usize,
                old(validator_list_data)@,
                validator_index,
                d,
                *stake,
            );
            &&& r is Ok <==> rest is Ok
            &&& rest matches Err(e) ==> r == Err::<DepositStakeAccountOutcome, Error>(e)
        },
        r is Ok ==> {
            let d = stake.delegation->Some_0;
            let v = old(state).validator_system.record_at(old(validator_list_data)@, validator_index as int);
            &&& spec_deposit_stake_account_checks(*old(state), msol_mint_supply, *stake, epoch) is Ok
            &&& validator_index < old(state).validator_system.validator_list.count
            &&& v.validator_account@ == d.voter_pubkey@
            &&& derived(*state_address, SeedTag::StakeDeposit, old(state).stake_system.stake_deposit_bump_seed) is Some
            &&& derived(*state_address, SeedTag::StakeWithdraw, old(state).stake_system.stake_withdraw_bump_seed) is Some
            &&& stake.staker@ != derived(*state_address, SeedTag::StakeDeposit, old(state).stake_system.stake_deposit_bump_seed)->Some_0
            &&& stake.withdrawer@ != derived(*state_address, SeedTag::StakeWithdraw, old(state).stake_system.stake_withdraw_bump_seed)->Some_0
            &&& r->Ok_0.delegated == d.stake
            &&& r->Ok_0.msol_minted == spec_calc_msol_from_lamports(*old(state), d.stake)->Ok_0
            &&& r->Ok_0.stake_index == old(state).stake_system.stake_list.count
            &&& r->Ok_0.clear_lockup == stake.lockup_has_custodian
            &&& r->Ok_0.new_staker@ == derived(*state_address, SeedTag::StakeDeposit, old(state).stake_system.stake_deposit_bump_seed)->Some_0
            &&& r->Ok_0.new_withdrawer@ == derived(*state_address, SeedTag::StakeWithdraw, old(state).stake_system.stake_withdraw_bump_seed)->Some_0
            &&& old(state).validator_system.items(final(validator_list_data)@) == old(state).validator_system.items(
                old(validator_list_data)@,
            ).update(
                validator_index as int,
                slot_after_write(
                    old(state).validator_system.items(old(validator_list_data)@)[validator_index as int],
                    spec_encode_validator_record(ValidatorRecord { active_balance: (v.active_balance + d.stake) as u64, ..v }),
                ),
            )
            &&& final(state).stake_system.items(final(stake_list_data)@) == old(state).stake_system.items(old(stake_list_data)@).push(
                slot_after_write(
                    old(state).stake_system.stake_list.item_at(old(stake_list_data)@, old(state).stake_system.stake_list.count as int),
                    spec_encode_stake_record(StakeRecord {
                        stake_account: *stake_account,
                        last_update_delegated_lamports: d.stake,
                        last_update_epoch: epoch,
                        is_emergency_unstaking: 0,
                        last_update_status: StakeStatus::Active,
                    }),
                ),
            )
            &&& *final(state) == (State {
                msol_supply: (old(state).msol_supply + r->Ok_0.msol_minted) as u64,
                validator_system: crate::validator_system::ValidatorSystem {
                    total_active_balance: (old(state).validator_system.total_active_balance + d.stake) as u64,
                    ..old(state).validator_system
                },
                stake_system: final(state).stake_system,
                ..*old(state)
            })
            &&& final(state).stake_system == (crate::stake_system::StakeSystem {
                stake_list: final(state).stake_system.stake_list,
                ..old(state).stake_system
            })
            &&& final(state).stake_system.stake_list.count == old(state).stake_system.stake_list.count + 1
        },
        r is Err ==> *final(state) == *old(state) && final(stake_list_data)@ == old(stake_list_data)@
            && final(validator_list_data)@ == old(validator_list_data)@,
{
    if state.paused {
        return Err(Error::Marinade(MarinadeError::ProgramIsPaused));
    }
    // impossible to happen check outside bug (msol mint auth is a PDA)
    if msol_mint_supply > state.msol_supply {
        return Err(Error::Marinade(MarinadeError::UnregisteredMsolMinted));
    }
    let delegation = match stake.delegation {
        Some(d) => d,
        None => {
            return Err(Error::Marinade(MarinadeError::RequiredDelegatedStake));
        },
    };
    // require stake is active (deactivation_epoch == u64::MAX)
    if delegation.deactivation_epoch != u64::MAX {
        return Err(Error::Marinade(MarinadeError::RequiredActiveStake));
    }
    // require the stake to have been created for at least WAIT_EPOCHS = 0 (activation_epoch field contains creation epoch)
    if epoch < delegation.activation_epoch {
        return Err(Error::Marinade(MarinadeError::DepositingNotActivatedStake));
    }
    // require the stake amount is at least min_stake
    if delegation.stake < state.stake_system.min_stake {
        return Err(Error::Marinade(MarinadeError::TooLowDelegationInDepositingStake));
    }
    // Check that stake account has the right amount of lamports.
    // if there's extra the user should withdraw the extra and try again
    // (some times users send lamports to active stake accounts believing that will top up the account)
    if stake.lamports != delegation.stake + stake.rent_exempt_reserve {
        return Err(Error::Marinade(MarinadeError::WrongStakeBalance));
    }
    match state.check_staking_cap(delegation.stake) {
        Ok(()) => {},
        Err(e) => {
            return Err(Error::Marinade(e));
        },
    }
    // Check Lockup
    if stake.lockup_in_force {
        return Err(Error::Marinade(MarinadeError::StakeAccountWithLockup));
    }
    let validator = state.validator_system.get_checked(validator_list_data, validator_index, &delegation.voter_pubkey)?;
    // the validator record is written back with the new balance
    if state.validator_system.validator_list.is_changing_account() {
        return Err(Error::Program(ProgramError::InvalidAccountData));
    }
    let new_staker = match create_address(state_address, SeedTag::StakeDeposit, state.stake_system.stake_deposit_bump_seed) {
        Some(k) => k,
        None => {
            return Err(Error::Program(ProgramError::InvalidSeeds));
        },
    };
    // Can not deposit stake already under marinade stake auth. old staker must be different than ours
    if stake.staker.same_key(&new_staker) {
        return Err(Error::Marinade(MarinadeError::RedepositingMarinadeStake));
    }
    let new_withdrawer = match create_address(
        state_address,
        SeedTag::StakeWithdraw,
        state.stake_system.stake_withdraw_bump_seed,
    ) {
        Some(k) => k,
        None => {
            return Err(Error::Program(ProgramError::InvalidSeeds));
        },
    };
    // Can not deposit stake already under marinade stake auth. old_withdrawer must be different than ours
    if stake.withdrawer.same_key(&new_withdrawer) {
        return Err(Error::Marinade(MarinadeError::RedepositingMarinadeStake));
    }
    // the stake record is appended
    if state.stake_system.stake_list.is_changing_account() {
        return Err(Error::Program(ProgramError::InvalidAccountData));
    }
    let capacity = match state.stake_system.stake_list_capacity(stake_list_data.len()) {
        Ok(c) => c,
        Err(e) => {
            return Err(Error::Program(e));
        },
    };
    if state.stake_system.stake_count() >= capacity {
        return Err(Error::Program(ProgramError::AccountDataTooSmall));
    }
    let msol_to_mint = match state.calc_msol_from_lamports(delegation.stake) {
        Ok(v) => v,
        Err(e) => {
            return Err(Error::Marinade(e));
        },
    };
    // update validator.active_balance
    let updated = ValidatorRecord { active_balance: validator.active_balance + delegation.stake, ..validator };
    let set_result = state.validator_system.set(validator_list_data, validator_index, updated);
    let stake_index = state.stake_system.stake_count();
    let add_result = state.stake_system.add(stake_list_data, stake_account, delegation.stake, epoch, 0);
    proof {
        assert(set_result is Ok);
        assert(add_result is Ok);
    }
    state.on_msol_mint(msol_to_mint);
    // update total_active_balance
    state.validator_system.total_active_balance = state.validator_system.total_active_balance + delegation.stake;
    Ok(DepositStakeAccountOutcome {
        delegated: delegation.stake,
        msol_minted: msol_to_mint,
        stake_index,
        clear_lockup: stake.lockup_has_custodian,
        new_staker,
        new_withdrawer,
    })
}


/// A deposit first buys the mSOL the pool's mSOL leg holds, up to what the deposit is worth at
/// the current price, paying the SOL value of what it takes (the whole deposit when it takes the
/// whole order); the rest of the lamports go to the reserve and fresh mSOL is minted for them at
/// the same price. Together the two parts are exactly the deposit.
pub proof fn lemma_deposit_amounts(
    s: State,
    lamports: u64,
    user_lamports: u64,
    msol_mint_supply: u64,
    liq_pool_msol_leg_amount: u64,
)
    requires
        totals_fit(s),
        spec_deposit(s, lamports, user_lamports, msol_mint_supply, liq_pool_msol_leg_amount) is Ok,
    ensures
        ({
            let o = spec_deposit(s, lamports, user_lamports, msol_mint_supply, liq_pool_msol_leg_amount)->Ok_0;
            let order = spec_calc_msol_from_lamports(s, lamports)->Ok_0;
            &&& spec_calc_msol_from_lamports(s, lamports) is Ok
            &&& o.msol_swapped == (if order < liq_pool_msol_leg_amount {
                order
            } else {
                liq_pool_msol_leg_amount
            })
            &&& o.msol_swapped == 0 ==> o.sol_swapped == 0
            &&& o.msol_swapped == order && order > 0 ==> o.sol_swapped == lamports
            &&& 0 < o.msol_swapped < order ==> spec_msol_to_sol(s, o.msol_swapped) == Ok::<u64, MarinadeError>(
                o.sol_swapped,
            )
            &&& o.sol_swapped + o.sol_deposited == lamports
            &&& o.sol_deposited == 0 ==> o.msol_minted == 0
            &&& o.sol_deposited > 0 ==> spec_calc_msol_from_lamports(s, o.sol_deposited) == Ok::<u64, MarinadeError>(
                o.msol_minted,
            )
        }),
{
    let order = spec_calc_msol_from_lamports(s, lamports)->Ok_0;
    let m = if order < liq_pool_msol_leg_amount {
        order
    } else {
        liq_pool_msol_leg_amount
    };
    if 0 < m && m < order {
        lemma_value_of_bought_msol(s, lamports, m);
    }
}

} // verus!
