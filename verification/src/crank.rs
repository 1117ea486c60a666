//! Decisions of the permissionless crank: staking the reserve into validators.
//!
//! Each function checks everything the instruction checks, then updates the state and the
//! lists and answers what the caller must do with the stake program and the reserve. When
//! it fails, nothing was changed.
use vstd::prelude::*;

use crate::checks::{check_stake_amount_and_validator, spec_check_stake_amount_and_validator, Delegation};
use crate::error::{Error, MarinadeError, ProgramError};
use crate::list::slot_after_write;
use crate::pda::{
    create_address, find_pair_address, spec_pair_seeds, spec_program_id, spec_stake_program_id, spec_try_find_program_address,
    stake_program_id, SeedTag,
};
use crate::pubkey::Pubkey;
use crate::schedule::EpochSchedule;
use crate::stake_system::{spec_encode_stake_record, StakeRecord, StakeStatus, StakeSystem};
use crate::state::{spec_stake_delta, DelinquentUpgraderState, State};
use crate::user::derived;
use crate::validator_system::{spec_encode_validator_record, spec_validator_stake_target, ValidatorRecord, ValidatorSystem};

verus! {

/// How much to stake into a validator: what it lacks of its target, at least the minimal
/// stake, at most the whole delta, and the whole delta when less than the minimal stake
/// would be left over.
pub open spec fn spec_stake_amount(
    validator_stake_target: u64,
    validator_active_balance: u64,
    min_stake: u64,
    total_stake_delta: u64,
) -> u64 {
    let lacking: int = if validator_stake_target > validator_active_balance {
        validator_stake_target - validator_active_balance
    } else {
        0
    };
    let at_least: int = if lacking > min_stake {
        lacking
    } else {
        min_stake as int
    };
    let amount: int = if at_least < total_stake_delta {
        at_least
    } else {
        total_stake_delta as int
    };
    if total_stake_delta - amount < min_stake {
        total_stake_delta
    } else {
        amount as u64
    }
}

/// The total stake target: active stake plus the stake delta, saturated.
pub open spec fn spec_total_stake_target(s: State, total_stake_delta: u64) -> u64 {
    let t = s.validator_system.total_active_balance + total_stake_delta;
    if t > u64::MAX {
        u64::MAX
    } else {
        t as u64
    }
}

/// The stake target of validator `v` when the reserve holds `reserve_balance`.
pub open spec fn spec_reserve_validator_target(s: State, v: ValidatorRecord, reserve_balance: u64) -> Result<
    u64,
    MarinadeError,
> {
    spec_validator_stake_target(
        s.validator_system.total_validator_score,
        v.score,
        spec_total_stake_target(s, spec_stake_delta(s, reserve_balance) as u64),
    )
}

/// What staking the reserve into validator `v` moves.
pub open spec fn spec_reserve_stake_amount(s: State, v: ValidatorRecord, reserve_balance: u64) -> u64 {
    spec_stake_amount(
        spec_reserve_validator_target(s, v, reserve_balance)->Ok_0,
        v.active_balance,
        s.stake_system.min_stake,
        spec_stake_delta(s, reserve_balance) as u64,
    )
}

/// The checks made before the validator is looked at pass and there is stake to add.
pub open spec fn stake_reserve_has_delta(
    s: State,
    state_address: Pubkey,
    stake_account_lamports: u64,
    stake_account_rent: u64,
    reserve_balance: u64,
) -> bool {
    &&& !s.paused
    &&& stake_account_lamports == stake_account_rent
    &&& derived(state_address, SeedTag::StakeDeposit, s.stake_system.stake_deposit_bump_seed) is Some
    &&& derived(state_address, SeedTag::StakeWithdraw, s.stake_system.stake_withdraw_bump_seed) is Some
    &&& spec_stake_delta(s, reserve_balance) > 0
}

/// The state after a run that used one of the extra stake-delta runs (when the validator was
/// already staked into this epoch).
pub open spec fn spec_after_extra_run(s: State, v: ValidatorRecord, epoch: u64) -> State {
    if v.last_stake_delta_epoch == epoch {
        State {
            stake_system: StakeSystem {
                extra_stake_delta_runs: (s.stake_system.extra_stake_delta_runs - 1) as u32,
                ..s.stake_system
            },
            ..s
        }
    } else {
        s
    }
}

/// A stake of the reserve to perform.
#[derive(Clone, Copy, Debug, PartialEq, Eq)]
pub struct StakeReserveAction {
    /// Lamports to move from the reserve into the new stake account.
    pub amount: u64,
    /// The staker authority of the new stake account.
    pub staker: Pubkey,
    /// The withdrawer authority of the new stake account.
    pub withdrawer: Pubkey,
    /// Index of the new stake record.
    pub stake_index: u32,
    /// The whole stake delta of the epoch.
    pub total_stake_delta: u64,
    /// Active stake plus the stake delta.
    pub total_stake_target: u64,
    /// The validator's share of the total stake target.
    pub validator_stake_target: u64,
}

/// What a stake-reserve run decided.
#[derive(Clone, Copy, Debug, PartialEq, Eq)]
pub enum StakeReserveOutcome {
    /// There is nothing to stake (the reserve is short, or stake must be removed instead).
    NothingToStake,
    /// The validator was already staked into this epoch and no extra run is left.
    AlreadyStakedThisEpoch,
    /// The validator already holds its stake target.
    TargetReached { validator_stake_target: u64 },
    /// Stake from the reserve into a new stake account delegated to the validator.
    Staked(StakeReserveAction),
}

/// Stakes lamports of the reserve into a new stake account delegated to the validator at
/// `validator_index`, when the reserve holds more than the tickets owe, the validator is
/// under its stake target and the epoch is close to its end. The new stake account must hold
/// exactly its rent. Skipping is no error, so that other instructions of the transaction go on.
pub fn stake_reserve(
    state: &mut State,
    state_address: &Pubkey,
    validator_list_data: &mut Vec<u8>,
    stake_list_data: &mut Vec<u8>,
    validator_index: u32,
    validator_vote: &Pubkey,
    stake_account: &Pubkey,
    stake_account_lamports: u64,
    stake_account_rent: u64,
    reserve_balance: u64,
    epoch: u64,
    slot: u64,
    epoch_schedule: &EpochSchedule,
) -> (r: Result<StakeReserveOutcome, Error>)
    requires
        old(state).stake_system.list_fits(old(stake_list_data)@),
        old(state).validator_system.list_fits(old(validator_list_data)@),
        spec_stake_delta(*old(state), reserve_balance) <= u64::MAX,
        ({
            let s = *old(state);
            let v = s.validator_system.record_at(old(validator_list_data)@, validator_index as int);
            spec_stake_delta(s, reserve_balance) > 0 && validator_index < s.validator_system.validator_list.count
                && spec_reserve_validator_target(s, v, reserve_balance) is Ok
                && v.active_balance < spec_reserve_validator_target(s, v, reserve_balance)->Ok_0 ==> {
                &&& v.active_balance + spec_reserve_stake_amount(s, v, reserve_balance) <= u64::MAX
                &&& s.validator_system.total_active_balance + spec_reserve_stake_amount(s, v, reserve_balance) <= u64::MAX
            }
        }),
    ensures
        ({
            let s = *old(state);
            let v = s.validator_system.record_at(old(validator_list_data)@, validator_index as int);
            let has_delta = stake_reserve_has_delta(
                s,
                *state_address,
                stake_account_lamports,
                stake_account_rent,
                reserve_balance,
            );
            let found = has_delta && validator_index < s.validator_system.validator_list.count
                && v.validator_account@ == validator_vote@;
            let runs = found && !(v.last_stake_delta_epoch == epoch && s.stake_system.extra_stake_delta_runs == 0);
            let in_window = runs && slot >= (if epoch_schedule.last_slot(epoch) >= s.stake_system.slots_for_stake_delta {
                epoch_schedule.last_slot(epoch) - s.stake_system.slots_for_stake_delta
            } else {
                0
            });
            let target = spec_reserve_validator_target(s, v, reserve_balance);
            let under_target = in_window && target is Ok && v.active_balance < target->Ok_0;
            let amount = spec_reserve_stake_amount(s, v, reserve_balance);
            let s1 = spec_after_extra_run(s, v, epoch);
            &&& s.paused ==> r == Err::<StakeReserveOutcome, Error>(Error::Marinade(MarinadeError::ProgramIsPaused))
            &&& !s.paused && stake_account_lamports != stake_account_rent ==> r == Err::<StakeReserveOutcome, Error>(
                Error::Marinade(MarinadeError::InvalidEmptyStakeBalance),
            )
            &&& !s.paused && stake_account_lamports == stake_account_rent && (derived(
                *state_address,
                SeedTag::StakeDeposit,
                s.stake_system.stake_deposit_bump_seed,
            ) is None || derived(*state_address, SeedTag::StakeWithdraw, s.stake_system.stake_withdraw_bump_seed) is None)
                ==> r == Err::<StakeReserveOutcome, Error>(Error::Program(ProgramError::InvalidSeeds))
            &&& !s.paused && stake_account_lamports == stake_account_rent && derived(
                *state_address,
                SeedTag::StakeDeposit,
                s.stake_system.stake_deposit_bump_seed,
            ) is Some && derived(*state_address, SeedTag::StakeWithdraw, s.stake_system.stake_withdraw_bump_seed) is Some
                && spec_stake_delta(s, reserve_balance) <= 0 ==> r == Ok::<StakeReserveOutcome, Error>(
                StakeReserveOutcome::NothingToStake,
            )
            &&& has_delta && validator_index >= s.validator_system.validator_list.count ==> r == Err::<
                StakeReserveOutcome,
                Error,
            >(Error::Program(ProgramError::InvalidArgument))
            &&& has_delta && validator_index < s.validator_system.validator_list.count && v.validator_account@
                != validator_vote@ ==> r == Err::<StakeReserveOutcome, Error>(
                Error::Marinade(MarinadeError::WrongValidatorAccountOrIndex),
            )
            &&& found && v.last_stake_delta_epoch == epoch && s.stake_system.extra_stake_delta_runs == 0 ==> r == Ok::<
                StakeReserveOutcome,
                Error,
            >(StakeReserveOutcome::AlreadyStakedThisEpoch)
            &&& runs && !in_window ==> r == Err::<StakeReserveOutcome, Error>(
                Error::Marinade(MarinadeError::TooEarlyForStakeDelta),
            )
            &&& in_window && target is Err ==> r == Err::<StakeReserveOutcome, Error>(Error::Marinade(target->Err_0))
            &&& (in_window && target is Ok && v.active_balance >= target->Ok_0 ==> r == Ok::<StakeReserveOutcome, Error>(
                StakeReserveOutcome::TargetReached { validator_stake_target: target->Ok_0 },
            ) && *final(state) == s1 && final(stake_list_data)@ == old(stake_list_data)@ && final(validator_list_data)@
                == old(validator_list_data)@)
            &&& under_target && amount > s.available_reserve_balance ==> r == Err::<StakeReserveOutcome, Error>(
                Error::Marinade(MarinadeError::CalculationFailure),
            )
            &&& under_target && amount <= s.available_reserve_balance && s.stake_system.stake_list.spec_check_push(
                old(stake_list_data)@.len() as usize,
            ) is Err ==> r == Err::<StakeReserveOutcome, Error>(
                Error::Program(s.stake_system.stake_list.spec_check_push(old(stake_list_data)@.len() as usize)->Err_0),
            )
            &&& under_target && amount <= s.available_reserve_balance && s.stake_system.stake_list.spec_check_push(
                old(stake_list_data)@.len() as usize,
            ) is Ok && s.validator_system.validator_list.spec_is_changing_account() ==> r == Err::<
                StakeReserveOutcome,
                Error,
            >(Error::Program(ProgramError::InvalidAccountData))
            &&& under_target && amount <= s.available_reserve_balance && s.stake_system.stake_list.spec_check_push(
                old(stake_list_data)@.len() as usize,
            ) is Ok && !s.validator_system.validator_list.spec_is_changing_account() ==> r is Ok && r->Ok_0 is Staked
            &&& (r is Ok && r->Ok_0 is Staked ==> {
                let a = r->Ok_0->Staked_0;
                &&& under_target
                &&& a.amount == amount
                &&& a.staker@ == derived(*state_address, SeedTag::StakeDeposit, s.stake_system.stake_deposit_bump_seed)->Some_0
                &&& a.withdrawer@ == derived(
                    *state_address,
                    SeedTag::StakeWithdraw,
                    s.stake_system.stake_withdraw_bump_seed,
                )->Some_0
                &&& a.stake_index == s.stake_system.stake_list.count
                &&& a.total_stake_delta == spec_stake_delta(s, reserve_balance)
                &&& a.total_stake_target == spec_total_stake_target(s, spec_stake_delta(s, reserve_balance) as u64)
                &&& a.validator_stake_target == target->Ok_0
                &&& final(state).stake_system.items(final(stake_list_data)@) == s.stake_system.items(
                    old(stake_list_data)@,
                ).push(
                    slot_after_write(
                        s.stake_system.stake_list.item_at(old(stake_list_data)@, s.stake_system.stake_list.count as int),
                        spec_encode_stake_record(StakeRecord {
                            stake_account: *stake_account,
                            last_update_delegated_lamports: amount,
                            last_update_epoch: epoch,
                            is_emergency_unstaking: 0,
                            last_update_status: StakeStatus::Active,
                        }),
                    ),
                )
                &&& final(state).stake_system.stake_list.count == s.stake_system.stake_list.count + 1
                &&& s.validator_system.items(final(validator_list_data)@) == s.validator_system.items(
                    old(validator_list_data)@,
                ).update(
                    validator_index as int,
                    slot_after_write(
                        s.validator_system.items(old(validator_list_data)@)[validator_index as int],
                        spec_encode_validator_record(
                            ValidatorRecord {
                                active_balance: (v.active_balance + amount) as u64,
                                last_stake_delta_epoch: epoch,
                                ..v
                            },
                        ),
                    ),
                )
                &&& *final(state) == (State {
                    available_reserve_balance: (s.available_reserve_balance - amount) as u64,
                    validator_system: ValidatorSystem {
                        total_active_balance: (s.validator_system.total_active_balance + amount) as u64,
                        ..s.validator_system
                    },
                    stake_system: StakeSystem {
                        stake_list: final(state).stake_system.stake_list,
                        last_stake_delta_epoch: epoch,
                        ..s1.stake_system
                    },
                    ..s
                })
                &&& final(state).stake_system.stake_list == (crate::list::List {
                    count: (s.stake_system.stake_list.count + 1) as u32,
                    ..s.stake_system.stake_list
                })
            })
            &&& r is Err || r == Ok::<StakeReserveOutcome, Error>(StakeReserveOutcome::NothingToStake) || r == Ok::<
                StakeReserveOutcome,
                Error,
            >(StakeReserveOutcome::AlreadyStakedThisEpoch) ==> *final(state) == s && final(stake_list_data)@
                == old(stake_list_data)@ && final(validator_list_data)@ == old(validator_list_data)@
        }),
{
    if state.paused {
        return Err(Error::Marinade(MarinadeError::ProgramIsPaused));
    }
    if stake_account_lamports != stake_account_rent {
        return Err(Error::Marinade(MarinadeError::InvalidEmptyStakeBalance));
    }
    let staker = match create_address(state_address, SeedTag::StakeDeposit, state.stake_system.stake_deposit_bump_seed) {
        Some(k) => k,
        None => {
            return Err(Error::Program(ProgramError::InvalidSeeds));
        },
    };
    let withdrawer = match create_address(
        state_address,
        SeedTag::StakeWithdraw,
        state.stake_system.stake_withdraw_bump_seed,
    ) {
        Some(k) => k,
        None => {
            return Err(Error::Program(ProgramError::InvalidSeeds));
        },
    };
    let stake_delta = state.stake_delta(reserve_balance);
    if stake_delta <= 0 {
        // Not an error: other instructions of the transaction go on
        return Ok(StakeReserveOutcome::NothingToStake);
    }
    let total_stake_delta: u64 = stake_delta as u64;
    let total_stake_target = state.validator_system.total_active_balance.saturating_add(total_stake_delta);
    let validator = state.validator_system.get_checked(validator_list_data, validator_index, validator_vote)?;
    let uses_extra_run = validator.last_stake_delta_epoch == epoch;
    if uses_extra_run && state.stake_system.extra_stake_delta_runs == 0 {
        // Double delta stake command for the validator in this epoch
        return Ok(StakeReserveOutcome::AlreadyStakedThisEpoch);
    }
    let last_slot = epoch_schedule.last_slot_in_epoch(epoch);
    if slot < last_slot.saturating_sub(state.stake_system.slots_for_stake_delta) {
        return Err(Error::Marinade(MarinadeError::TooEarlyForStakeDelta));
    }
    let validator_stake_target = match state.validator_system.validator_stake_target(&validator, total_stake_target) {
        Ok(t) => t,
        Err(e) => {
            return Err(Error::Marinade(e));
        },
    };
    if validator.active_balance >= validator_stake_target {
        // the validator already reached its stake target: stake into another one
        if uses_extra_run {
            state.stake_system.extra_stake_delta_runs = state.stake_system.extra_stake_delta_runs - 1;
        }
        return Ok(StakeReserveOutcome::TargetReached { validator_stake_target });
    }
    // what the validator lacks, at least min_stake and at most the whole delta
    let wanted = validator_stake_target.saturating_sub(validator.active_balance);
    let at_least = if wanted > state.stake_system.min_stake {
        wanted
    } else {
        state.stake_system.min_stake
    };
    let stake_target = if at_least < total_stake_delta {
        at_least
    } else {
        total_stake_delta
    };
    // if what's left after this stake is < min_stake, take all the remainder
    let stake_target = if total_stake_delta - stake_target < state.stake_system.min_stake {
        total_stake_delta
    } else {
        stake_target
    };
    if stake_target > state.available_reserve_balance {
        return Err(Error::Marinade(MarinadeError::CalculationFailure));
    }
    match state.stake_system.stake_list.check_push(stake_list_data.len()) {
        Ok(()) => {},
        Err(e) => {
            return Err(Error::Program(e));
        },
    }
    if state.validator_system.validator_list.is_changing_account() {
        return Err(Error::Program(ProgramError::InvalidAccountData));
    }
    if uses_extra_run {
        state.stake_system.extra_stake_delta_runs = state.stake_system.extra_stake_delta_runs - 1;
    }
    let transferred = state.on_transfer_from_reserve(stake_target);
    let stake_index = state.stake_system.stake_count();
    let added = state.stake_system.add(stake_list_data, stake_account, stake_target, epoch, 0);
    let updated = ValidatorRecord {
        active_balance: validator.active_balance + stake_target,
        last_stake_delta_epoch: epoch,
        ..validator
    };
    // Any stake-delta activity must activate stake delta mode
    state.stake_system.last_stake_delta_epoch = epoch;
    let set = state.validator_system.set(validator_list_data, validator_index, updated);
    proof {
        assert(transferred is Ok);
        assert(added is Ok);
        assert(set is Ok);
    }
    state.validator_system.total_active_balance = state.validator_system.total_active_balance + stake_target;
    Ok(
        StakeReserveOutcome::Staked(
            StakeReserveAction {
                amount: stake_target,
                staker,
                withdrawer,
                stake_index,
                total_stake_delta,
                total_stake_target,
                validator_stake_target,
            },
        ),
    )
}

/// A validator's stake target when the stake delta is applied to the active stake: its score's
/// share of active stake plus the (signed) stake delta.
pub open spec fn spec_delta_validator_target(s: State, v: ValidatorRecord, reserve_balance: u64) -> Result<
    u64,
    MarinadeError,
> {
    spec_validator_stake_target(
        s.validator_system.total_validator_score,
        v.score,
        (s.validator_system.total_active_balance + spec_stake_delta(s, reserve_balance)) as u64,
    )
}

/// The unstake delta: how much stake must be removed this epoch (the stake delta, negated).
pub open spec fn spec_unstake_delta(s: State, reserve_balance: u64) -> int {
    -spec_stake_delta(s, reserve_balance)
}

/// What a stake account keeps when the validator must lose `unstake_from_validator` and the
/// epoch `total_unstake_delta` (saturated at zero).
pub open spec fn spec_stake_account_target(
    delegated: u64,
    unstake_from_validator: u64,
    total_unstake_delta: u64,
) -> int {
    let removed: int = if unstake_from_validator > total_unstake_delta {
        total_unstake_delta as int
    } else {
        unstake_from_validator as int
    };
    if delegated >= removed {
        delegated - removed
    } else {
        0
    }
}

/// The stake target of validator `v` when stake must be removed.
pub open spec fn spec_unstake_validator_target(s: State, v: ValidatorRecord, reserve_balance: u64) -> Result<
    u64,
    MarinadeError,
> {
    let tud = spec_unstake_delta(s, reserve_balance);
    let total_target: int = if s.validator_system.total_active_balance >= tud {
        s.validator_system.total_active_balance - tud
    } else {
        0
    };
    spec_validator_stake_target(s.validator_system.total_validator_score, v.score, total_target as u64)
}

/// The slot from which stake-delta operations may run in `epoch`.
pub open spec fn spec_stake_delta_window_start(s: State, epoch_schedule: EpochSchedule, epoch: u64) -> int {
    if epoch_schedule.last_slot(epoch) >= s.stake_system.slots_for_stake_delta {
        epoch_schedule.last_slot(epoch) - s.stake_system.slots_for_stake_delta
    } else {
        0
    }
}

/// What a deactivate-stake run decided.
#[derive(Clone, Copy, Debug, PartialEq, Eq)]
pub enum DeactivateStakeOutcome {
    /// The validator holds no more than its stake target.
    TargetReached { validator_stake_target: u64 },
    /// A part of this validator's stake was already deactivated this epoch.
    AlreadyUnstakedThisEpoch,
    /// Deactivate the whole stake account (and give the unused split account's rent back).
    DeactivateWhole { amount: u64 },
    /// Split `amount` into the split stake account (recorded at `split_stake_index`) and
    /// deactivate it.
    DeactivateSplit { amount: u64, split_stake_index: u32 },
}

/// The checks of a deactivate-stake run that come before its plan pass, for the stake record
/// `st`, the validator record `v` and the stake account's delegation.
pub open spec fn deactivate_checks_pass(
    s: State,
    st: StakeRecord,
    v: ValidatorRecord,
    stake_delegation: Option<Delegation>,
    reserve_balance: u64,
    slot: u64,
    epoch: u64,
    epoch_schedule: EpochSchedule,
) -> bool {
    &&& st.is_emergency_unstaking == 0
    &&& slot >= spec_stake_delta_window_start(s, epoch_schedule, epoch)
    &&& spec_stake_delta(s, reserve_balance) < 0
    &&& spec_check_stake_amount_and_validator(stake_delegation, st.last_update_delegated_lamports, v.validator_account)
        is Ok
    &&& spec_unstake_validator_target(s, v, reserve_balance) is Ok
    &&& v.active_balance > spec_unstake_validator_target(s, v, reserve_balance)->Ok_0
}

/// The stake a deactivate-stake run removes from the validator: the whole account when less
/// than twice the minimal stake would be left in it, else the part split off.
pub open spec fn spec_deactivate_amount(s: State, st: StakeRecord, v: ValidatorRecord, reserve_balance: u64) -> (
    bool,
    u64,
) {
    let target = spec_stake_account_target(
        st.last_update_delegated_lamports,
        (v.active_balance - spec_unstake_validator_target(s, v, reserve_balance)->Ok_0) as u64,
        spec_unstake_delta(s, reserve_balance) as u64,
    );
    if target < 2 * s.stake_system.min_stake {
        (true, st.last_update_delegated_lamports)
    } else {
        (false, (st.last_update_delegated_lamports - target) as u64)
    }
}

/// Starts removing stake from the validator at `validator_index` when the reserve cannot
/// cover what tickets owe: deactivates the stake account at `stake_index` whole, or splits
/// the part the validator must lose into the new split stake account and deactivates that
/// part. The deactivated lamports move from active stake to delayed-unstake cooling down.
/// A validator above its target is split at most once per epoch; skipping is no error.
pub fn deactivate_stake(
    state: &mut State,
    validator_list_data: &mut Vec<u8>,
    stake_list_data: &mut Vec<u8>,
    stake_index: u32,
    validator_index: u32,
    stake_account: &Pubkey,
    stake_delegation: &Option<Delegation>,
    split_stake_account: &Pubkey,
    reserve_balance: u64,
    epoch: u64,
    slot: u64,
    epoch_schedule: &EpochSchedule,
) -> (r: Result<DeactivateStakeOutcome, Error>)
    requires
        old(state).stake_system.list_fits(old(stake_list_data)@),
        old(state).validator_system.list_fits(old(validator_list_data)@),
        ({
            let s = *old(state);
            let st = s.stake_system.record_at(old(stake_list_data)@, stake_index as int);
            let v = s.validator_system.record_at(old(validator_list_data)@, validator_index as int);
            let (whole, amount) = spec_deactivate_amount(s, st, v, reserve_balance);
            !s.paused && stake_index < s.stake_system.stake_list.count && validator_index
                < s.validator_system.validator_list.count && deactivate_checks_pass(
                s,
                st,
                v,
                *stake_delegation,
                reserve_balance,
                slot,
                epoch,
                *epoch_schedule,
            ) ==> {
                &&& 2 * s.stake_system.min_stake <= u64::MAX
                &&& !whole && v.last_stake_delta_epoch != epoch ==> 0 < amount
                &&& (whole || v.last_stake_delta_epoch != epoch) && amount <= v.active_balance && amount
                    <= s.validator_system.total_active_balance ==> s.stake_system.delayed_unstake_cooling_down + amount
                    <= u64::MAX
            }
        }),
    ensures
        ({
            let s = *old(state);
            let st = s.stake_system.record_at(old(stake_list_data)@, stake_index as int);
            let v = s.validator_system.record_at(old(validator_list_data)@, validator_index as int);
            let stake_found = !s.paused && stake_index < s.stake_system.stake_list.count
                && stake_record_decodes_at(s.stake_system, old(stake_list_data)@, stake_index)
                && st.stake_account@ == stake_account@;
            let validator_found = stake_found && st.is_emergency_unstaking == 0 && validator_index
                < s.validator_system.validator_list.count;
            let in_window = validator_found && slot >= spec_stake_delta_window_start(s, *epoch_schedule, epoch);
            let negative = in_window && spec_stake_delta(s, reserve_balance) < 0;
            let checked = negative && spec_check_stake_amount_and_validator(
                *stake_delegation,
                st.last_update_delegated_lamports,
                v.validator_account,
            ) is Ok;
            let target = spec_unstake_validator_target(s, v, reserve_balance);
            let above = checked && target is Ok && v.active_balance > target->Ok_0;
            let (whole, amount) = spec_deactivate_amount(s, st, v, reserve_balance);
            let acts = above && (whole || v.last_stake_delta_epoch != epoch);
            let sums = acts && amount <= v.active_balance && amount <= s.validator_system.total_active_balance;
            let pushes = sums && (whole || s.stake_system.stake_list.spec_check_push(old(stake_list_data)@.len() as usize)
                is Ok);
            &&& s.paused ==> r == Err::<DeactivateStakeOutcome, Error>(Error::Marinade(MarinadeError::ProgramIsPaused))
            &&& !s.paused && stake_index >= s.stake_system.stake_list.count ==> r == Err::<DeactivateStakeOutcome, Error>(
                Error::Program(ProgramError::InvalidArgument),
            )
            &&& !s.paused && stake_index < s.stake_system.stake_list.count && stake_record_decodes_at(
                s.stake_system,
                old(stake_list_data)@,
                stake_index,
            ) && st.stake_account@ != stake_account@ ==> r == Err::<DeactivateStakeOutcome, Error>(
                Error::Marinade(MarinadeError::WrongStakeAccountOrIndex),
            )
            &&& stake_found && st.is_emergency_unstaking != 0 ==> r == Err::<DeactivateStakeOutcome, Error>(
                Error::Marinade(MarinadeError::StakeAccountIsEmergencyUnstaking),
            )
            &&& stake_found && st.is_emergency_unstaking == 0 && validator_index >= s.validator_system.validator_list.count
                ==> r == Err::<DeactivateStakeOutcome, Error>(Error::Program(ProgramError::InvalidArgument))
            &&& validator_found && !in_window ==> r == Err::<DeactivateStakeOutcome, Error>(
                Error::Marinade(MarinadeError::TooEarlyForStakeDelta),
            )
            &&& in_window && !negative ==> r == Err::<DeactivateStakeOutcome, Error>(
                Error::Marinade(MarinadeError::UnstakingOnPositiveDelta),
            )
            &&& negative && !checked ==> r == Err::<DeactivateStakeOutcome, Error>(
                Error::Marinade(
                    spec_check_stake_amount_and_validator(
                        *stake_delegation,
                        st.last_update_delegated_lamports,
                        v.validator_account,
                    )->Err_0,
                ),
            )
            &&& checked && target is Err ==> r == Err::<DeactivateStakeOutcome, Error>(Error::Marinade(target->Err_0))
            &&& checked && target is Ok && v.active_balance <= target->Ok_0 ==> r == Ok::<DeactivateStakeOutcome, Error>(
                DeactivateStakeOutcome::TargetReached { validator_stake_target: target->Ok_0 },
            )
            &&& above && !whole && v.last_stake_delta_epoch == epoch ==> r == Ok::<DeactivateStakeOutcome, Error>(
                DeactivateStakeOutcome::AlreadyUnstakedThisEpoch,
            )
            &&& acts && !whole && s.stake_system.stake_list.spec_check_push(old(stake_list_data)@.len() as usize) is Err
                ==> r == Err::<DeactivateStakeOutcome, Error>(
                Error::Program(s.stake_system.stake_list.spec_check_push(old(stake_list_data)@.len() as usize)->Err_0),
            )
            &&& acts && (whole || s.stake_system.stake_list.spec_check_push(old(stake_list_data)@.len() as usize) is Ok)
                && !sums ==> r == Err::<DeactivateStakeOutcome, Error>(
                Error::Marinade(MarinadeError::CalculationFailure),
            )
            &&& pushes && s.stake_system.stake_list.spec_is_changing_account() ==> r == Err::<DeactivateStakeOutcome, Error>(
                Error::Program(ProgramError::InvalidAccountData),
            )
            &&& pushes && !s.stake_system.stake_list.spec_is_changing_account()
                && s.validator_system.validator_list.spec_is_changing_account() ==> r == Err::<
                DeactivateStakeOutcome,
                Error,
            >(Error::Program(ProgramError::InvalidAccountData))
            &&& pushes && !s.stake_system.stake_list.spec_is_changing_account()
                && !s.validator_system.validator_list.spec_is_changing_account() ==> {
                &&& whole ==> r == Ok::<DeactivateStakeOutcome, Error>(DeactivateStakeOutcome::DeactivateWhole { amount })
                &&& !whole ==> r == Ok::<DeactivateStakeOutcome, Error>(
                    DeactivateStakeOutcome::DeactivateSplit { amount, split_stake_index: s.stake_system.stake_list.count },
                )
                &&& s.validator_system.items(final(validator_list_data)@) == s.validator_system.items(
                    old(validator_list_data)@,
                ).update(
                    validator_index as int,
                    slot_after_write(
                        s.validator_system.items(old(validator_list_data)@)[validator_index as int],
                        spec_encode_validator_record(
                            ValidatorRecord {
                                active_balance: (v.active_balance - amount) as u64,
                                last_stake_delta_epoch: if whole {
                                    v.last_stake_delta_epoch
                                } else {
                                    epoch
                                },
                                ..v
                            },
                        ),
                    ),
                )
                &&& whole ==> final(stake_list_data)@.len() == old(stake_list_data)@.len() && s.stake_system.items(
                    final(stake_list_data)@,
                ) == s.stake_system.items(old(stake_list_data)@).update(
                    stake_index as int,
                    slot_after_write(s.stake_system.items(old(stake_list_data)@)[stake_index as int], spec_encode_stake_record(st)),
                )
                &&& !whole ==> final(state).stake_system.items(final(stake_list_data)@) == s.stake_system.items(
                    old(stake_list_data)@,
                ).update(
                    stake_index as int,
                    slot_after_write(
                        s.stake_system.items(old(stake_list_data)@)[stake_index as int],
                        spec_encode_stake_record(
                            StakeRecord {
                                last_update_delegated_lamports: (st.last_update_delegated_lamports - amount) as u64,
                                ..st
                            },
                        ),
                    ),
                ).push(
                    slot_after_write(
                        s.stake_system.stake_list.item_at(old(stake_list_data)@, s.stake_system.stake_list.count as int),
                        spec_encode_stake_record(
                            StakeRecord {
                                stake_account: *split_stake_account,
                                last_update_delegated_lamports: amount,
                                last_update_epoch: epoch,
                                is_emergency_unstaking: 0,
                                last_update_status: StakeStatus::Active,
                            },
                        ),
                    ),
                )
                &&& *final(state) == (State {
                    validator_system: ValidatorSystem {
                        total_active_balance: (s.validator_system.total_active_balance - amount) as u64,
                        ..s.validator_system
                    },
                    stake_system: StakeSystem {
                        stake_list: final(state).stake_system.stake_list,
                        last_stake_delta_epoch: epoch,
                        delayed_unstake_cooling_down: (s.stake_system.delayed_unstake_cooling_down + amount) as u64,
                        ..s.stake_system
                    },
                    ..s
                })
                &&& final(state).stake_system.stake_list == (crate::list::List {
                    count: if whole {
                        s.stake_system.stake_list.count
                    } else {
                        (s.stake_system.stake_list.count + 1) as u32
                    },
                    ..s.stake_system.stake_list
                })
            }
            &&& r is Err || r matches Ok(DeactivateStakeOutcome::TargetReached { .. }) || r == Ok::<
                DeactivateStakeOutcome,
                Error,
            >(DeactivateStakeOutcome::AlreadyUnstakedThisEpoch) ==> *final(state) == s && final(stake_list_data)@
                == old(stake_list_data)@ && final(validator_list_data)@ == old(validator_list_data)@
        }),
{
    if state.paused {
        return Err(Error::Marinade(MarinadeError::ProgramIsPaused));
    }
    let stake = state.stake_system.get_checked(stake_list_data, stake_index, stake_account)?;
    // check the account is not already in emergency_unstake
    if stake.is_emergency_unstaking != 0 {
        return Err(Error::Marinade(MarinadeError::StakeAccountIsEmergencyUnstaking));
    }
    let validator = match state.validator_system.get(validator_list_data, validator_index) {
        Ok(v) => v,
        Err(e) => {
            return Err(Error::Program(e));
        },
    };
    // check that we're in the last slots of the epoch (stake-delta window)
    let last_slot = epoch_schedule.last_slot_in_epoch(epoch);
    if slot < last_slot.saturating_sub(state.stake_system.slots_for_stake_delta) {
        return Err(Error::Marinade(MarinadeError::TooEarlyForStakeDelta));
    }
    // compute total required stake delta (must be negative)
    let total_stake_delta = state.stake_delta(reserve_balance);
    if total_stake_delta >= 0 {
        return Err(Error::Marinade(MarinadeError::UnstakingOnPositiveDelta));
    }
    proof {
        lemma_unstake_delta_fits(*state, reserve_balance);
    }
    let total_unstake_delta: u64 = (-total_stake_delta) as u64;
    // compute total target stake (current total active stake minus delta)
    let total_stake_target = state.validator_system.total_active_balance.saturating_sub(total_unstake_delta);
    // check currently_staked in this account & validator vote-key
    match check_stake_amount_and_validator(stake_delegation, stake.last_update_delegated_lamports, &validator.validator_account) {
        Ok(()) => {},
        Err(e) => {
            return Err(Error::Marinade(e));
        },
    }
    // compute target for this particular validator (total_stake_target * score/total_score)
    let validator_stake_target = match state.validator_system.validator_stake_target(&validator, total_stake_target) {
        Ok(t) => t,
        Err(e) => {
            return Err(Error::Marinade(e));
        },
    };
    if validator.active_balance <= validator_stake_target {
        // Not an error: other instructions of the transaction go on
        return Ok(DeactivateStakeOutcome::TargetReached { validator_stake_target });
    }
    let unstake_from_validator = validator.active_balance - validator_stake_target;
    // how much this particular account should keep,
    // not unstaking more than total_unstake_delta
    let removed = if unstake_from_validator > total_unstake_delta {
        total_unstake_delta
    } else {
        unstake_from_validator
    };
    let stake_account_target = stake.last_update_delegated_lamports.saturating_sub(removed);
    let whole = stake_account_target < 2 * state.stake_system.min_stake;
    let unstaked_amount = if whole {
        // unstake all if what will remain in the account is < twice min_stake
        stake.last_update_delegated_lamports
    } else {
        // only one partial unstake per validator and epoch
        if validator.last_stake_delta_epoch == epoch {
            return Ok(DeactivateStakeOutcome::AlreadyUnstakedThisEpoch);
        }
        stake.last_update_delegated_lamports - stake_account_target
    };
    if !whole {
        match state.stake_system.stake_list.check_push(stake_list_data.len()) {
            Ok(()) => {},
            Err(e) => {
                return Err(Error::Program(e));
            },
        }
    }
    // we now consider amount no longer "active" for this specific validator
    if unstaked_amount > validator.active_balance || unstaked_amount > state.validator_system.total_active_balance {
        return Err(Error::Marinade(MarinadeError::CalculationFailure));
    }
    if state.stake_system.stake_list.is_changing_account() || state.validator_system.validator_list.is_changing_account() {
        return Err(Error::Program(ProgramError::InvalidAccountData));
    }
    let split_stake_index = state.stake_system.stake_count();
    let updated_stake = if whole {
        stake
    } else {
        let added = state.stake_system.add(stake_list_data, split_stake_account, unstaked_amount, epoch, 0);
        proof {
            assert(added is Ok);
        }
        StakeRecord { last_update_delegated_lamports: stake.last_update_delegated_lamports - unstaked_amount, ..stake }
    };
    let updated_validator = ValidatorRecord {
        active_balance: validator.active_balance - unstaked_amount,
        last_stake_delta_epoch: if whole {
            validator.last_stake_delta_epoch
        } else {
            epoch
        },
        ..validator
    };
    // Any stake-delta activity must activate stake delta mode
    state.stake_system.last_stake_delta_epoch = epoch;
    // move from total_active_balance -> total_cooling_down
    state.validator_system.total_active_balance = state.validator_system.total_active_balance - unstaked_amount;
    state.stake_system.delayed_unstake_cooling_down = state.stake_system.delayed_unstake_cooling_down + unstaked_amount;
    let set_stake = state.stake_system.set(stake_list_data, stake_index, updated_stake);
    let set_validator = state.validator_system.set(validator_list_data, validator_index, updated_validator);
    proof {
        assert(set_stake is Ok);
        assert(set_validator is Ok);
    }
    if whole {
        Ok(DeactivateStakeOutcome::DeactivateWhole { amount: unstaked_amount })
    } else {
        Ok(DeactivateStakeOutcome::DeactivateSplit { amount: unstaked_amount, split_stake_index })
    }
}

/// Whether the stake record at `index` decodes.
pub open spec fn stake_record_decodes_at(ss: StakeSystem, data: Seq<u8>, index: u32) -> bool {
    crate::stake_system::stake_record_decodes(ss.stake_list.item_at(data, index as int))
}

/// A negative stake delta is never below minus what the tickets owe, so its negation fits in
/// 64 bits.
proof fn lemma_unstake_delta_fits(s: State, reserve_balance: u64)
    ensures
        spec_stake_delta(s, reserve_balance) >= -(s.circulating_ticket_balance as int),
{
}

/// What a redelegation moves, and whether it takes the whole stake account: no more than the
/// source validator holds above its target, the stake account holds and the destination
/// validator lacks of its target; the whole account when less than the minimal stake would be
/// left in it.
pub open spec fn spec_redelegate_amount(
    s: State,
    st: StakeRecord,
    source: ValidatorRecord,
    dest: ValidatorRecord,
    reserve_balance: u64,
) -> (bool, u64) {
    let source_target = spec_delta_validator_target(s, source, reserve_balance)->Ok_0;
    let dest_target = spec_delta_validator_target(s, dest, reserve_balance)->Ok_0;
    let source_room: int = source.active_balance - source_target;
    let max_from_source: int = if source_room < st.last_update_delegated_lamports {
        source_room
    } else {
        st.last_update_delegated_lamports as int
    };
    let dest_room: int = dest_target - dest.active_balance;
    let amount: int = if dest_room < max_from_source {
        dest_room
    } else {
        max_from_source
    };
    if st.last_update_delegated_lamports - amount < s.stake_system.min_stake {
        (true, st.last_update_delegated_lamports)
    } else {
        (false, amount as u64)
    }
}

/// What a redelegation run decided.
#[derive(Clone, Copy, Debug, PartialEq, Eq)]
pub enum RedelegateOutcome {
    /// The source validator holds less than its target plus the minimal stake; the rent of the
    /// unused split and redelegate accounts goes back.
    SourceAtTarget { source_validator_stake_target: u64 },
    /// The destination validator lacks less than the minimal stake; the rent of the unused split
    /// and redelegate accounts goes back.
    DestAtTarget { dest_validator_stake_target: u64 },
    /// Redelegate the whole stake account into the redelegate account (recorded at
    /// `redelegate_stake_index`); the rent of the unused split account goes back.
    RedelegateWhole { amount: u64, redelegate_stake_index: u32 },
    /// Split `amount` into the split account (recorded at `split_stake_index`) and redelegate it
    /// into the redelegate account (recorded at `redelegate_stake_index`).
    RedelegateSplit { amount: u64, split_stake_index: u32, redelegate_stake_index: u32 },
}

/// A redelegation reaches the source validator's record: the program runs, the indices differ,
/// the epoch is in its stake-delta window and the stake record is the stake account's and not
/// emergency unstaking.
pub open spec fn redelegate_reaches_source(
    s: State,
    st: StakeRecord,
    stake_list_data: Seq<u8>,
    stake_index: u32,
    stake_account: Pubkey,
    source_validator_index: u32,
    dest_validator_index: u32,
    slot: u64,
    epoch: u64,
    epoch_schedule: EpochSchedule,
) -> bool {
    &&& !s.paused
    &&& source_validator_index != dest_validator_index
    &&& slot >= spec_stake_delta_window_start(s, epoch_schedule, epoch)
    &&& stake_index < s.stake_system.stake_list.count
    &&& stake_record_decodes_at(s.stake_system, stake_list_data, stake_index)
    &&& st.stake_account@ == stake_account@
    &&& st.is_emergency_unstaking == 0
}

/// Moves stake from an over-target validator to an under-target one near the end of the epoch:
/// the stake account at `stake_index` (delegated to the source validator) is redelegated whole
/// into the redelegate account, or the amount to move is first split into the split account.
/// The records of both validators and of the new accounts follow the move; active stake as a
/// whole does not change. Validators already at their targets are no error.
pub fn redelegate(
    state: &mut State,
    validator_list_data: &mut Vec<u8>,
    stake_list_data: &mut Vec<u8>,
    stake_index: u32,
    source_validator_index: u32,
    dest_validator_index: u32,
    stake_account: &Pubkey,
    stake_delegation: &Option<Delegation>,
    split_stake_account: &Pubkey,
    dest_validator_account: &Pubkey,
    redelegate_stake_account: &Pubkey,
    reserve_balance: u64,
    epoch: u64,
    slot: u64,
    epoch_schedule: &EpochSchedule,
) -> (r: Result<RedelegateOutcome, Error>)
    requires
        old(state).stake_system.list_fits(old(stake_list_data)@),
        old(state).validator_system.list_fits(old(validator_list_data)@),
        ({
            let s = *old(state);
            let st = s.stake_system.record_at(old(stake_list_data)@, stake_index as int);
            let source = s.validator_system.record_at(old(validator_list_data)@, source_validator_index as int);
            let dest = s.validator_system.record_at(old(validator_list_data)@, dest_validator_index as int);
            let source_target = spec_delta_validator_target(s, source, reserve_balance);
            let dest_target = spec_delta_validator_target(s, dest, reserve_balance);
            let (whole, amount) = spec_redelegate_amount(s, st, source, dest, reserve_balance);
            redelegate_reaches_source(
                s,
                st,
                old(stake_list_data)@,
                stake_index,
                *stake_account,
                source_validator_index,
                dest_validator_index,
                slot,
                epoch,
                *epoch_schedule,
            ) && source_validator_index < s.validator_system.validator_list.count
                && spec_check_stake_amount_and_validator(
                *stake_delegation,
                st.last_update_delegated_lamports,
                source.validator_account,
            ) is Ok ==> {
                &&& 0 <= s.validator_system.total_active_balance + spec_stake_delta(s, reserve_balance) <= u64::MAX
                &&& source_target is Ok ==> source_target->Ok_0 + s.stake_system.min_stake <= u64::MAX
                &&& source_target is Ok && source.active_balance >= source_target->Ok_0 + s.stake_system.min_stake
                    && dest_validator_index < s.validator_system.validator_list.count ==> {
                    &&& dest_target is Ok ==> dest.active_balance + s.stake_system.min_stake <= u64::MAX
                    &&& dest_target is Ok && dest.active_balance + s.stake_system.min_stake <= dest_target->Ok_0 ==> {
                        &&& amount <= source.active_balance
                        &&& dest.active_balance + amount <= u64::MAX
                    }
                }
            }
        }),
    ensures
        ({
            let s = *old(state);
            let st = s.stake_system.record_at(old(stake_list_data)@, stake_index as int);
            let source = s.validator_system.record_at(old(validator_list_data)@, source_validator_index as int);
            let dest = s.validator_system.record_at(old(validator_list_data)@, dest_validator_index as int);
            let source_target = spec_delta_validator_target(s, source, reserve_balance);
            let dest_target = spec_delta_validator_target(s, dest, reserve_balance);
            let (whole, amount) = spec_redelegate_amount(s, st, source, dest, reserve_balance);
            let distinct = !s.paused && source_validator_index != dest_validator_index;
            let in_window = distinct && slot >= spec_stake_delta_window_start(s, *epoch_schedule, epoch);
            let stake_decodes = in_window && stake_index < s.stake_system.stake_list.count && stake_record_decodes_at(
                s.stake_system,
                old(stake_list_data)@,
                stake_index,
            );
            let reaches = redelegate_reaches_source(
                s,
                st,
                old(stake_list_data)@,
                stake_index,
                *stake_account,
                source_validator_index,
                dest_validator_index,
                slot,
                epoch,
                *epoch_schedule,
            );
            let source_found = reaches && source_validator_index < s.validator_system.validator_list.count;
            let checked = source_found && spec_check_stake_amount_and_validator(
                *stake_delegation,
                st.last_update_delegated_lamports,
                source.validator_account,
            ) is Ok;
            let source_above = checked && source_target is Ok && source.active_balance >= source_target->Ok_0
                + s.stake_system.min_stake;
            let dest_found = source_above && dest_validator_index < s.validator_system.validator_list.count
                && dest.validator_account@ == dest_validator_account@;
            let dest_below = dest_found && dest_target is Ok && dest.active_balance + s.stake_system.min_stake
                <= dest_target->Ok_0;
            let room = s.stake_system.stake_list.spec_check_push(old(stake_list_data)@.len() as usize);
            let capacity = s.stake_system.stake_list.spec_capacity(old(stake_list_data)@.len() as usize);
            let pushes = dest_below && room is Ok && (whole || s.stake_system.stake_list.count + 1 < capacity->Ok_0);
            let moved_source = ValidatorRecord { active_balance: (source.active_balance - amount) as u64, ..source };
            let moved_dest = ValidatorRecord { active_balance: (dest.active_balance + amount) as u64, ..dest };
            let count = s.stake_system.stake_list.count;
            let redelegate_record = StakeRecord {
                stake_account: *redelegate_stake_account,
                last_update_delegated_lamports: amount,
                last_update_epoch: epoch,
                is_emergency_unstaking: 0,
                last_update_status: StakeStatus::Active,
            };
            let split_record = StakeRecord {
                stake_account: *split_stake_account,
                last_update_delegated_lamports: 0,
                last_update_epoch: epoch,
                is_emergency_unstaking: 0,
                last_update_status: StakeStatus::Active,
            };
            let old_items = s.stake_system.items(old(stake_list_data)@);
            &&& s.paused ==> r == Err::<RedelegateOutcome, Error>(Error::Marinade(MarinadeError::ProgramIsPaused))
            &&& !s.paused && source_validator_index == dest_validator_index ==> r == Err::<RedelegateOutcome, Error>(
                Error::Marinade(MarinadeError::SourceAndDestValidatorsAreTheSame),
            )
            &&& distinct && !in_window ==> r == Err::<RedelegateOutcome, Error>(
                Error::Marinade(MarinadeError::TooEarlyForStakeDelta),
            )
            &&& in_window && stake_index >= s.stake_system.stake_list.count ==> r == Err::<RedelegateOutcome, Error>(
                Error::Program(ProgramError::InvalidArgument),
            )
            &&& in_window && stake_index < s.stake_system.stake_list.count && !stake_record_decodes_at(
                s.stake_system,
                old(stake_list_data)@,
                stake_index,
            ) ==> r == Err::<RedelegateOutcome, Error>(Error::Program(ProgramError::BorshIoError))
            &&& stake_decodes && st.stake_account@ != stake_account@ ==> r == Err::<RedelegateOutcome, Error>(
                Error::Marinade(MarinadeError::WrongStakeAccountOrIndex),
            )
            &&& stake_decodes && st.stake_account@ == stake_account@ && st.is_emergency_unstaking != 0 ==> r == Err::<
                RedelegateOutcome,
                Error,
            >(Error::Marinade(MarinadeError::StakeAccountIsEmergencyUnstaking))
            &&& reaches && source_validator_index >= s.validator_system.validator_list.count ==> r == Err::<
                RedelegateOutcome,
                Error,
            >(Error::Program(ProgramError::InvalidArgument))
            &&& source_found && !checked ==> r == Err::<RedelegateOutcome, Error>(
                Error::Marinade(
                    spec_check_stake_amount_and_validator(
                        *stake_delegation,
                        st.last_update_delegated_lamports,
                        source.validator_account,
                    )->Err_0,
                ),
            )
            &&& checked && source_target is Err ==> r == Err::<RedelegateOutcome, Error>(
                Error::Marinade(source_target->Err_0),
            )
            &&& checked && source_target is Ok && source.active_balance < source_target->Ok_0 + s.stake_system.min_stake
                ==> r == Ok::<RedelegateOutcome, Error>(
                RedelegateOutcome::SourceAtTarget { source_validator_stake_target: source_target->Ok_0 },
            )
            &&& source_above && dest_validator_index >= s.validator_system.validator_list.count ==> r == Err::<
                RedelegateOutcome,
                Error,
            >(Error::Program(ProgramError::InvalidArgument))
            &&& source_above && dest_validator_index < s.validator_system.validator_list.count
                && dest.validator_account@ != dest_validator_account@ ==> r == Err::<RedelegateOutcome, Error>(
                Error::Marinade(MarinadeError::WrongValidatorAccountOrIndex),
            )
            &&& dest_found && dest_target is Err ==> r == Err::<RedelegateOutcome, Error>(
                Error::Marinade(dest_target->Err_0),
            )
            &&& dest_found && dest_target is Ok && dest.active_balance + s.stake_system.min_stake > dest_target->Ok_0
                ==> r == Ok::<RedelegateOutcome, Error>(
                RedelegateOutcome::DestAtTarget { dest_validator_stake_target: dest_target->Ok_0 },
            )
            &&& dest_below && room is Err ==> r == Err::<RedelegateOutcome, Error>(Error::Program(room->Err_0))
            &&& dest_below && room is Ok && !whole && count + 1 >= capacity->Ok_0 ==> r == Err::<RedelegateOutcome, Error>(
                Error::Program(ProgramError::AccountDataTooSmall),
            )
            &&& pushes && s.validator_system.validator_list.spec_is_changing_account() ==> r == Err::<
                RedelegateOutcome,
                Error,
            >(Error::Program(ProgramError::InvalidAccountData))
            &&& pushes && !s.validator_system.validator_list.spec_is_changing_account() ==> {
                &&& whole ==> r == Ok::<RedelegateOutcome, Error>(
                    RedelegateOutcome::RedelegateWhole { amount, redelegate_stake_index: count },
                )
                &&& !whole ==> r == Ok::<RedelegateOutcome, Error>(
                    RedelegateOutcome::RedelegateSplit {
                        amount,
                        split_stake_index: count,
                        redelegate_stake_index: (count + 1) as u32,
                    },
                )
                &&& s.validator_system.items(final(validator_list_data)@) == s.validator_system.items(
                    old(validator_list_data)@,
                ).update(
                    source_validator_index as int,
                    slot_after_write(
                        s.validator_system.items(old(validator_list_data)@)[source_validator_index as int],
                        spec_encode_validator_record(moved_source),
                    ),
                ).update(
                    dest_validator_index as int,
                    slot_after_write(
                        s.validator_system.items(old(validator_list_data)@)[dest_validator_index as int],
                        spec_encode_validator_record(moved_dest),
                    ),
                )
                &&& whole ==> final(state).stake_system.items(final(stake_list_data)@) == old_items.update(
                    stake_index as int,
                    slot_after_write(
                        old_items[stake_index as int],
                        spec_encode_stake_record(
                            StakeRecord { is_emergency_unstaking: 0, last_update_delegated_lamports: 0, ..st },
                        ),
                    ),
                ).push(
                    slot_after_write(
                        s.stake_system.stake_list.item_at(old(stake_list_data)@, count as int),
                        spec_encode_stake_record(redelegate_record),
                    ),
                )
                &&& !whole ==> final(state).stake_system.items(final(stake_list_data)@) == old_items.update(
                    stake_index as int,
                    slot_after_write(
                        old_items[stake_index as int],
                        spec_encode_stake_record(
                            StakeRecord {
                                last_update_delegated_lamports: (st.last_update_delegated_lamports - amount) as u64,
                                ..st
                            },
                        ),
                    ),
                ).push(
                    slot_after_write(
                        s.stake_system.stake_list.item_at(old(stake_list_data)@, count as int),
                        spec_encode_stake_record(split_record),
                    ),
                ).push(
                    slot_after_write(
                        s.stake_system.stake_list.item_at(old(stake_list_data)@, count + 1),
                        spec_encode_stake_record(redelegate_record),
                    ),
                )
                &&& *final(state) == (State {
                    stake_system: StakeSystem { stake_list: final(state).stake_system.stake_list, ..s.stake_system },
                    ..s
                })
                &&& final(state).stake_system.stake_list == (crate::list::List {
                    count: if whole {
                        (count + 1) as u32
                    } else {
                        (count + 2) as u32
                    },
                    ..s.stake_system.stake_list
                })
            }
            &&& r is Err || (r is Ok && (r->Ok_0 is SourceAtTarget || r->Ok_0 is DestAtTarget)) ==> *final(state) == s
                && final(stake_list_data)@ == old(stake_list_data)@ && final(validator_list_data)@ == old(
                validator_list_data,
            )@
        }),
        final(state).validator_system.total_active_balance == old(state).validator_system.total_active_balance,
{
    if state.paused {
        return Err(Error::Marinade(MarinadeError::ProgramIsPaused));
    }
    if source_validator_index == dest_validator_index {
        return Err(Error::Marinade(MarinadeError::SourceAndDestValidatorsAreTheSame));
    }
    // only allow redelegation in the stake/unstake window at the end of the epoch
    let last_slot = epoch_schedule.last_slot_in_epoch(epoch);
    if slot < last_slot.saturating_sub(state.stake_system.slots_for_stake_delta) {
        return Err(Error::Marinade(MarinadeError::TooEarlyForStakeDelta));
    }
    let stake = state.stake_system.get_checked(stake_list_data, stake_index, stake_account)?;
    // check the account is not already in emergency_unstake
    if stake.is_emergency_unstaking != 0 {
        return Err(Error::Marinade(MarinadeError::StakeAccountIsEmergencyUnstaking));
    }
    let source = match state.validator_system.get(validator_list_data, source_validator_index) {
        Ok(v) => v,
        Err(e) => {
            return Err(Error::Program(e));
        },
    };
    // check amount currently_staked matched observation (stake is updated)
    // and that the account is delegated to the validator_index sent
    match check_stake_amount_and_validator(stake_delegation, stake.last_update_delegated_lamports, &source.validator_account) {
        Ok(()) => {},
        Err(e) => {
            return Err(Error::Marinade(e));
        },
    }
    // total target stake: current total active stake +/- delta
    let total_stake_delta = state.stake_delta(reserve_balance);
    let total_stake_target: u64 = (state.validator_system.total_active_balance as i128 + total_stake_delta) as u64;
    let source_target = match state.validator_system.validator_stake_target(&source, total_stake_target) {
        Ok(t) => t,
        Err(e) => {
            return Err(Error::Marinade(e));
        },
    };
    // if the source validator is already on target (or the split would be lower than min_stake), exit now
    if source.active_balance < source_target + state.stake_system.min_stake {
        return Ok(RedelegateOutcome::SourceAtTarget { source_validator_stake_target: source_target });
    }
    // can't remove more than needed to reach target, nor more than what's in the account
    let source_room = source.active_balance - source_target;
    let max_from_source = if source_room < stake.last_update_delegated_lamports {
        source_room
    } else {
        stake.last_update_delegated_lamports
    };
    let dest = state.validator_system.get_checked(validator_list_data, dest_validator_index, dest_validator_account)?;
    let dest_target = match state.validator_system.validator_stake_target(&dest, total_stake_target) {
        Ok(t) => t,
        Err(e) => {
            return Err(Error::Marinade(e));
        },
    };
    // the destination validator must be under target
    if dest.active_balance + state.stake_system.min_stake > dest_target {
        return Ok(RedelegateOutcome::DestAtTarget { dest_validator_stake_target: dest_target });
    }
    // can't send more than needed to reach the destination's target
    let dest_room = dest_target - dest.active_balance;
    let theoretical = if dest_room < max_from_source {
        dest_room
    } else {
        max_from_source
    };
    // do not leave less than min_stake in the account
    let whole = stake.last_update_delegated_lamports - theoretical < state.stake_system.min_stake;
    match state.stake_system.stake_list.check_push(stake_list_data.len()) {
        Ok(()) => {},
        Err(e) => {
            return Err(Error::Program(e));
        },
    }
    let capacity = match state.stake_system.stake_list_capacity(stake_list_data.len()) {
        Ok(c) => c,
        Err(e) => {
            return Err(Error::Program(e));
        },
    };
    if !whole && state.stake_system.stake_count() + 1 >= capacity {
        return Err(Error::Program(ProgramError::AccountDataTooSmall));
    }
    if state.validator_system.validator_list.is_changing_account() {
        return Err(Error::Program(ProgramError::InvalidAccountData));
    }
    let ghost before = stake_list_data@;
    let ghost list0 = state.stake_system.stake_list;
    let count = state.stake_system.stake_count();
    let (updated_stake, amount) = if whole {
        // all lamports move to the redelegated account: this one keeps none of them
        (StakeRecord { is_emergency_unstaking: 0, last_update_delegated_lamports: 0, ..stake }, stake.last_update_delegated_lamports)
    } else {
        // the split account will be deactivating after the move, with no lamports accounted
        let added = state.stake_system.add(stake_list_data, split_stake_account, 0, epoch, 0);
        proof {
            assert(added is Ok);
        }
        (
            StakeRecord { last_update_delegated_lamports: stake.last_update_delegated_lamports - theoretical, ..stake },
            theoretical,
        )
    };
    let ghost middle = stake_list_data@;
    proof {
        if !whole {
            assert(list0.item_size > 0);
            crate::list::lemma_slot_within_capacity(list0, before.len() as usize, count + 1);
            crate::list::lemma_write_slot_keeps_other_items(
                list0,
                before,
                count as int,
                count + 1,
                spec_encode_stake_record(
                    StakeRecord {
                        stake_account: *split_stake_account,
                        last_update_delegated_lamports: 0,
                        last_update_epoch: epoch,
                        is_emergency_unstaking: 0,
                        last_update_status: StakeStatus::Active,
                    },
                ),
            );
        }
    }
    // the redelegated account carries the moved lamports
    let redelegate_index = state.stake_system.stake_count();
    let added = state.stake_system.add(stake_list_data, redelegate_stake_account, amount, epoch, 0);
    proof {
        assert(added is Ok);
    }
    let moved_source = ValidatorRecord { active_balance: source.active_balance - amount, ..source };
    let moved_dest = ValidatorRecord { active_balance: dest.active_balance + amount, ..dest };
    let set_stake = state.stake_system.set(stake_list_data, stake_index, updated_stake);
    let set_source = state.validator_system.set(validator_list_data, source_validator_index, moved_source);
    let set_dest = state.validator_system.set(validator_list_data, dest_validator_index, moved_dest);
    proof {
        assert(set_stake is Ok);
        assert(set_source is Ok);
        assert(set_dest is Ok);
    }
    if whole {
        Ok(RedelegateOutcome::RedelegateWhole { amount, redelegate_stake_index: redelegate_index })
    } else {
        Ok(RedelegateOutcome::RedelegateSplit { amount, split_stake_index: count, redelegate_stake_index: redelegate_index })
    }
}

/// The checks on one of the two stake accounts of a merge: delegated, not deactivating, and
/// up to date with its record.
pub open spec fn spec_merge_side_checks(
    delegation: Option<Delegation>,
    recorded: u64,
    not_delegated: MarinadeError,
    deactivating: MarinadeError,
    not_updated: MarinadeError,
) -> Result<Delegation, MarinadeError> {
    match delegation {
        None => Err(not_delegated),
        Some(d) => if d.deactivation_epoch != u64::MAX {
            Err(deactivating)
        } else if recorded != d.stake {
            Err(not_updated)
        } else {
            Ok(d)
        },
    }
}

fn merge_side_checks(
    delegation: &Option<Delegation>,
    recorded: u64,
    not_delegated: MarinadeError,
    deactivating: MarinadeError,
    not_updated: MarinadeError,
) -> (r: Result<Delegation, MarinadeError>)
    ensures
        r == spec_merge_side_checks(*delegation, recorded, not_delegated, deactivating, not_updated),
{
    match delegation {
        None => Err(not_delegated),
        Some(d) => {
            if d.deactivation_epoch != u64::MAX {
                Err(deactivating)
            } else if recorded != d.stake {
                Err(not_updated)
            } else {
                Ok(*d)
            }
        },
    }
}

/// What the checks of a merge on its destination answer, once the validator and the
/// destination record are found.
pub open spec fn spec_merge_destination_checks(
    v: ValidatorRecord,
    destination: StakeRecord,
    destination_delegation: Option<Delegation>,
) -> Result<(), MarinadeError> {
    match spec_merge_side_checks(
        destination_delegation,
        destination.last_update_delegated_lamports,
        MarinadeError::DestinationStakeMustBeDelegated,
        MarinadeError::DestinationStakeMustNotBeDeactivating,
        MarinadeError::DestinationStakeMustBeUpdated,
    ) {
        Err(e) => Err(e),
        Ok(d) => if d.voter_pubkey@ != v.validator_account@ {
            Err(MarinadeError::InvalidDestinationStakeDelegation)
        } else {
            Ok(())
        },
    }
}

/// Checks the two stake accounts of a merge before the stake program merges the source into
/// the destination: both are recorded at their indices, delegated to the validator at
/// `validator_index`, active and up to date, and the source holds exactly its delegation and
/// rent. Nothing is changed; `finish_merge_stakes` accounts the merge afterwards.
pub fn merge_stakes(
    state: &State,
    validator_list_data: &Vec<u8>,
    stake_list_data: &Vec<u8>,
    destination_stake_index: u32,
    source_stake_index: u32,
    validator_index: u32,
    destination_stake: &Pubkey,
    destination_delegation: &Option<Delegation>,
    source_stake: &Pubkey,
    source_delegation: &Option<Delegation>,
    source_lamports: u64,
    source_rent_exempt_reserve: u64,
) -> (r: Result<(), Error>)
    requires
        state.stake_system.list_fits(stake_list_data@),
        state.validator_system.list_fits(validator_list_data@),
    ensures
        ({
            let s = *state;
            let v = s.validator_system.record_at(validator_list_data@, validator_index as int);
            let dst = s.stake_system.record_at(stake_list_data@, destination_stake_index as int);
            let src = s.stake_system.record_at(stake_list_data@, source_stake_index as int);
            let dst_found = destination_stake_index < s.stake_system.stake_list.count && stake_record_decodes_at(
                s.stake_system,
                stake_list_data@,
                destination_stake_index,
            ) && dst.stake_account@ == destination_stake@;
            let src_found = source_stake_index < s.stake_system.stake_list.count && stake_record_decodes_at(
                s.stake_system,
                stake_list_data@,
                source_stake_index,
            ) && src.stake_account@ == source_stake@;
            let dst_checks = spec_merge_destination_checks(v, dst, *destination_delegation);
            let src_checks = spec_merge_side_checks(
                *source_delegation,
                src.last_update_delegated_lamports,
                MarinadeError::SourceStakeMustBeDelegated,
                MarinadeError::SourceStakeMustNotBeDeactivating,
                MarinadeError::SourceStakeMustBeUpdated,
            );
            let reaches_dst = !s.paused && validator_index < s.validator_system.validator_list.count;
            let reaches_src = reaches_dst && dst_found && dst_checks is Ok;
            &&& s.paused ==> r == Err::<(), Error>(Error::Marinade(MarinadeError::ProgramIsPaused))
            &&& !s.paused && validator_index >= s.validator_system.validator_list.count ==> r == Err::<(), Error>(
                Error::Program(ProgramError::InvalidArgument),
            )
            &&& reaches_dst && destination_stake_index >= s.stake_system.stake_list.count ==> r == Err::<(), Error>(
                Error::Program(ProgramError::InvalidArgument),
            )
            &&& reaches_dst && destination_stake_index < s.stake_system.stake_list.count && !stake_record_decodes_at(
                s.stake_system,
                stake_list_data@,
                destination_stake_index,
            ) ==> r == Err::<(), Error>(Error::Program(ProgramError::BorshIoError))
            &&& reaches_dst && destination_stake_index < s.stake_system.stake_list.count && stake_record_decodes_at(
                s.stake_system,
                stake_list_data@,
                destination_stake_index,
            ) && dst.stake_account@ != destination_stake@ ==> r == Err::<(), Error>(
                Error::Marinade(MarinadeError::WrongStakeAccountOrIndex),
            )
            &&& reaches_dst && dst_found && dst_checks is Err ==> r == Err::<(), Error>(Error::Marinade(dst_checks->Err_0))
            &&& reaches_src && source_stake_index >= s.stake_system.stake_list.count ==> r == Err::<(), Error>(
                Error::Program(ProgramError::InvalidArgument),
            )
            &&& reaches_src && source_stake_index < s.stake_system.stake_list.count && !stake_record_decodes_at(
                s.stake_system,
                stake_list_data@,
                source_stake_index,
            ) ==> r == Err::<(), Error>(Error::Program(ProgramError::BorshIoError))
            &&& reaches_src && source_stake_index < s.stake_system.stake_list.count && stake_record_decodes_at(
                s.stake_system,
                stake_list_data@,
                source_stake_index,
            ) && src.stake_account@ != source_stake@ ==> r == Err::<(), Error>(
                Error::Marinade(MarinadeError::WrongStakeAccountOrIndex),
            )
            &&& reaches_src && src_found && src_checks is Err ==> r == Err::<(), Error>(Error::Marinade(src_checks->Err_0))
            &&& reaches_src && src_found && src_checks is Ok ==> {
                let d = src_checks->Ok_0;
                &&& d.stake + source_rent_exempt_reserve > u64::MAX ==> r == Err::<(), Error>(
                    Error::Marinade(MarinadeError::CalculationFailure),
                )
                &&& d.stake + source_rent_exempt_reserve <= u64::MAX && source_lamports != d.stake
                    + source_rent_exempt_reserve ==> r == Err::<(), Error>(
                    Error::Marinade(MarinadeError::SourceStakeMustBeUpdated),
                )
                &&& source_lamports == d.stake + source_rent_exempt_reserve && d.voter_pubkey@ != v.validator_account@
                    ==> r == Err::<(), Error>(Error::Marinade(MarinadeError::InvalidSourceStakeDelegation))
                &&& source_lamports == d.stake + source_rent_exempt_reserve && d.voter_pubkey@ == v.validator_account@
                    ==> r == Ok::<(), Error>(())
            }
        }),
{
    if state.paused {
        return Err(Error::Marinade(MarinadeError::ProgramIsPaused));
    }
    let validator = match state.validator_system.get(validator_list_data, validator_index) {
        Ok(v) => v,
        Err(e) => {
            return Err(Error::Program(e));
        },
    };
    let destination = state.stake_system.get_checked(stake_list_data, destination_stake_index, destination_stake)?;
    let dst = match merge_side_checks(
        destination_delegation,
        destination.last_update_delegated_lamports,
        MarinadeError::DestinationStakeMustBeDelegated,
        MarinadeError::DestinationStakeMustNotBeDeactivating,
        MarinadeError::DestinationStakeMustBeUpdated,
    ) {
        Ok(d) => d,
        Err(e) => {
            return Err(Error::Marinade(e));
        },
    };
    if !dst.voter_pubkey.same_key(&validator.validator_account) {
        return Err(Error::Marinade(MarinadeError::InvalidDestinationStakeDelegation));
    }
    let source = state.stake_system.get_checked(stake_list_data, source_stake_index, source_stake)?;
    let src = match merge_side_checks(
        source_delegation,
        source.last_update_delegated_lamports,
        MarinadeError::SourceStakeMustBeDelegated,
        MarinadeError::SourceStakeMustNotBeDeactivating,
        MarinadeError::SourceStakeMustBeUpdated,
    ) {
        Ok(d) => d,
        Err(e) => {
            return Err(Error::Marinade(e));
        },
    };
    let expected_lamports = match src.stake.checked_add(source_rent_exempt_reserve) {
        Some(v) => v,
        None => {
            return Err(Error::Marinade(MarinadeError::CalculationFailure));
        },
    };
    if source_lamports != expected_lamports {
        return Err(Error::Marinade(MarinadeError::SourceStakeMustBeUpdated));
    }
    if !src.voter_pubkey.same_key(&validator.validator_account) {
        return Err(Error::Marinade(MarinadeError::InvalidSourceStakeDelegation));
    }
    Ok(())
}

/// What a merge added: delegation that neither record accounted, and the rent of the source
/// account that went to the destination's free lamports (to be withdrawn to the operational
/// account when positive).
#[derive(Clone, Copy, Debug, PartialEq, Eq)]
pub struct MergeStakesOutcome {
    pub extra_delegated: u64,
    pub returned_stake_rent: u64,
}

/// Accounts a merge the stake program made: the destination's delegation after the merge,
/// beyond what both records held, is new active stake of the validator; the source's record
/// is removed (the last record takes its place); what of the source's rent did not become
/// delegation is answered, for the caller to withdraw.
pub fn finish_merge_stakes(
    state: &mut State,
    validator_list_data: &mut Vec<u8>,
    stake_list_data: &mut Vec<u8>,
    destination_stake_index: u32,
    source_stake_index: u32,
    validator_index: u32,
    merged_delegation: u64,
    source_rent_exempt_reserve: u64,
) -> (r: Result<MergeStakesOutcome, Error>)
    requires
        old(state).stake_system.list_fits(old(stake_list_data)@),
        old(state).validator_system.list_fits(old(validator_list_data)@),
        ({
            let s = *old(state);
            let v = s.validator_system.record_at(old(validator_list_data)@, validator_index as int);
            let dst = s.stake_system.record_at(old(stake_list_data)@, destination_stake_index as int);
            let src = s.stake_system.record_at(old(stake_list_data)@, source_stake_index as int);
            let extra = merged_delegation - dst.last_update_delegated_lamports - src.last_update_delegated_lamports;
            0 <= extra <= source_rent_exempt_reserve ==> v.active_balance + extra <= u64::MAX
                && s.validator_system.total_active_balance + extra <= u64::MAX
        }),
    ensures
        ({
            let s = *old(state);
            let v = s.validator_system.record_at(old(validator_list_data)@, validator_index as int);
            let dst = s.stake_system.record_at(old(stake_list_data)@, destination_stake_index as int);
            let src = s.stake_system.record_at(old(stake_list_data)@, source_stake_index as int);
            let extra = merged_delegation - dst.last_update_delegated_lamports - src.last_update_delegated_lamports;
            let found = validator_index < s.validator_system.validator_list.count && destination_stake_index
                < s.stake_system.stake_list.count && stake_record_decodes_at(
                s.stake_system,
                old(stake_list_data)@,
                destination_stake_index,
            ) && source_stake_index < s.stake_system.stake_list.count && stake_record_decodes_at(
                s.stake_system,
                old(stake_list_data)@,
                source_stake_index,
            );
            let lists_ok = !s.stake_system.stake_list.spec_is_changing_account()
                && !s.validator_system.validator_list.spec_is_changing_account();
            &&& found && (extra < 0 || extra > source_rent_exempt_reserve) ==> r == Err::<MergeStakesOutcome, Error>(
                Error::Marinade(MarinadeError::CalculationFailure),
            )
            &&& found && 0 <= extra <= source_rent_exempt_reserve && !lists_ok ==> r == Err::<MergeStakesOutcome, Error>(
                Error::Program(ProgramError::InvalidAccountData),
            )
            &&& r is Ok <==> found && 0 <= extra <= source_rent_exempt_reserve && lists_ok
            &&& r is Ok ==> {
                let old_items = s.stake_system.items(old(stake_list_data)@);
                &&& r->Ok_0.extra_delegated == extra
                &&& r->Ok_0.returned_stake_rent == source_rent_exempt_reserve - extra
                &&& s.validator_system.items(final(validator_list_data)@) == s.validator_system.items(
                    old(validator_list_data)@,
                ).update(
                    validator_index as int,
                    slot_after_write(
                        s.validator_system.items(old(validator_list_data)@)[validator_index as int],
                        spec_encode_validator_record(ValidatorRecord { active_balance: (v.active_balance + extra) as u64, ..v }),
                    ),
                )
                &&& final(state).stake_system.items(final(stake_list_data)@) == crate::list::swap_remove(
                    old_items.update(
                        destination_stake_index as int,
                        slot_after_write(
                            old_items[destination_stake_index as int],
                            spec_encode_stake_record(StakeRecord { last_update_delegated_lamports: merged_delegation, ..dst }),
                        ),
                    ),
                    source_stake_index as int,
                )
                &&& *final(state) == (State {
                    validator_system: ValidatorSystem {
                        total_active_balance: (s.validator_system.total_active_balance + extra) as u64,
                        ..s.validator_system
                    },
                    stake_system: StakeSystem { stake_list: final(state).stake_system.stake_list, ..s.stake_system },
                    ..s
                })
                &&& final(state).stake_system.stake_list == (crate::list::List {
                    count: (s.stake_system.stake_list.count - 1) as u32,
                    ..s.stake_system.stake_list
                })
            }
            &&& r is Err ==> *final(state) == s && final(stake_list_data)@ == old(stake_list_data)@
                && final(validator_list_data)@ == old(validator_list_data)@
        }),
{
    let validator = match state.validator_system.get(validator_list_data, validator_index) {
        Ok(v) => v,
        Err(e) => {
            return Err(Error::Program(e));
        },
    };
    let destination = match state.stake_system.get(stake_list_data, destination_stake_index) {
        Ok(st) => st,
        Err(e) => {
            return Err(Error::Program(e));
        },
    };
    let source = match state.stake_system.get(stake_list_data, source_stake_index) {
        Ok(st) => st,
        Err(e) => {
            return Err(Error::Program(e));
        },
    };
    // extra_delegated = delegation after merge - (destination + source as recorded)
    let extra_delegated = match merged_delegation.checked_sub(destination.last_update_delegated_lamports) {
        Some(x) => match x.checked_sub(source.last_update_delegated_lamports) {
            Some(y) => y,
            None => {
                return Err(Error::Marinade(MarinadeError::CalculationFailure));
            },
        },
        None => {
            return Err(Error::Marinade(MarinadeError::CalculationFailure));
        },
    };
    // the source's rent that did not become delegation went to the destination's free lamports
    let returned_stake_rent = match source_rent_exempt_reserve.checked_sub(extra_delegated) {
        Some(x) => x,
        None => {
            return Err(Error::Marinade(MarinadeError::CalculationFailure));
        },
    };
    if state.stake_system.stake_list.is_changing_account() || state.validator_system.validator_list.is_changing_account() {
        return Err(Error::Program(ProgramError::InvalidAccountData));
    }
    let updated_validator = ValidatorRecord { active_balance: validator.active_balance + extra_delegated, ..validator };
    let set_validator = state.validator_system.set(validator_list_data, validator_index, updated_validator);
    state.validator_system.total_active_balance = state.validator_system.total_active_balance + extra_delegated;
    let updated_destination = StakeRecord { last_update_delegated_lamports: merged_delegation, ..destination };
    let set_destination = state.stake_system.set(stake_list_data, destination_stake_index, updated_destination);
    // last, because of index invalidation
    let removed = state.stake_system.remove(stake_list_data, source_stake_index);
    proof {
        assert(set_validator is Ok);
        assert(set_destination is Ok);
        assert(removed is Ok);
    }
    Ok(MergeStakesOutcome { extra_delegated, returned_stake_rent })
}

/// The canonical stake account of a validator: derived from the state address, the validator's
/// vote account and the canonical stake seed.
pub open spec fn spec_canonical_stake_address(state_address: Pubkey, validator: Pubkey, canonical_stake_seed: Seq<u8>) -> Option<
    (Seq<u8>, u8),
> {
    spec_try_find_program_address(spec_pair_seeds(state_address@, validator@, canonical_stake_seed), spec_program_id())
}

/// What creating a canonical stake account decided.
#[derive(Clone, Copy, Debug, PartialEq, Eq)]
pub struct CreateCanonicalStakeOutcome {
    /// The canonical stake account's address.
    pub canonical_stake: Pubkey,
    /// The bump of its derivation, to sign for it.
    pub bump: u8,
}

/// Moves the whole stake account at `source_stake_index` into the validator's canonical stake
/// account (derived from the state address, the validator and the canonical stake seed), which
/// must not exist yet: the source must be active, up to date, hold exactly its delegation and
/// rent, and be delegated to the validator at `validator_index`. The canonical account is
/// recorded with the source's delegation and the source's record removed (the last record takes
/// its place). The caller sweeps lamports already in the canonical address to the operational
/// account and splits the source into it.
pub fn create_canonical_stake(
    state: &mut State,
    state_address: &Pubkey,
    validator_list_data: &Vec<u8>,
    stake_list_data: &mut Vec<u8>,
    source_stake_index: u32,
    validator_index: u32,
    canonical_stake: &Pubkey,
    canonical_stake_owner: &Pubkey,
    canonical_stake_seed: &[u8],
    source_stake: &Pubkey,
    source_delegation: &Option<Delegation>,
    source_lamports: u64,
    source_rent_exempt_reserve: u64,
    epoch: u64,
) -> (r: Result<CreateCanonicalStakeOutcome, Error>)
    requires
        old(state).stake_system.list_fits(old(stake_list_data)@),
        old(state).validator_system.list_fits(validator_list_data@),
        source_delegation matches Some(d) ==> d.stake + source_rent_exempt_reserve <= u64::MAX,
    ensures
        ({
            let s = *old(state);
            let v = s.validator_system.record_at(validator_list_data@, validator_index as int);
            let src = s.stake_system.record_at(old(stake_list_data)@, source_stake_index as int);
            let derived = spec_canonical_stake_address(*state_address, v.validator_account, canonical_stake_seed@);
            let found = !s.paused && validator_index < s.validator_system.validator_list.count;
            let fresh = found && canonical_stake_owner@ != spec_stake_program_id();
            let addressed = fresh && derived is Some && derived->Some_0.0 == canonical_stake@;
            let src_decodes = addressed && source_stake_index < s.stake_system.stake_list.count
                && stake_record_decodes_at(s.stake_system, old(stake_list_data)@, source_stake_index);
            let src_found = src_decodes && src.stake_account@ == source_stake@;
            let src_checks = spec_merge_side_checks(
                *source_delegation,
                src.last_update_delegated_lamports,
                MarinadeError::SourceStakeMustBeDelegated,
                MarinadeError::SourceStakeMustNotBeDeactivating,
                MarinadeError::SourceStakeMustBeUpdated,
            );
            let d = src_checks->Ok_0;
            let checked = src_found && src_checks is Ok && source_lamports == d.stake + source_rent_exempt_reserve
                && d.voter_pubkey@ == v.validator_account@;
            let room = s.stake_system.stake_list.spec_check_push(old(stake_list_data)@.len() as usize);
            &&& s.paused ==> r == Err::<CreateCanonicalStakeOutcome, Error>(
                Error::Marinade(MarinadeError::ProgramIsPaused),
            )
            &&& !s.paused && validator_index >= s.validator_system.validator_list.count ==> r == Err::<
                CreateCanonicalStakeOutcome,
                Error,
            >(Error::Program(ProgramError::InvalidArgument))
            &&& found && canonical_stake_owner@ == spec_stake_program_id() ==> r == Err::<
                CreateCanonicalStakeOutcome,
                Error,
            >(Error::Marinade(MarinadeError::CanonicalStakeAccountAlreadyCreated))
            &&& fresh && derived is None ==> r == Err::<CreateCanonicalStakeOutcome, Error>(
                Error::Program(ProgramError::InvalidSeeds),
            )
            &&& fresh && derived is Some && derived->Some_0.0 != canonical_stake@ ==> r == Err::<
                CreateCanonicalStakeOutcome,
                Error,
            >(Error::Marinade(MarinadeError::InvalidCanonicalStakeAccountAddress))
            &&& addressed && source_stake_index >= s.stake_system.stake_list.count ==> r == Err::<
                CreateCanonicalStakeOutcome,
                Error,
            >(Error::Program(ProgramError::InvalidArgument))
            &&& addressed && source_stake_index < s.stake_system.stake_list.count && !stake_record_decodes_at(
                s.stake_system,
                old(stake_list_data)@,
                source_stake_index,
            ) ==> r == Err::<CreateCanonicalStakeOutcome, Error>(Error::Program(ProgramError::BorshIoError))
            &&& src_decodes && src.stake_account@ != source_stake@ ==> r == Err::<CreateCanonicalStakeOutcome, Error>(
                Error::Marinade(MarinadeError::WrongStakeAccountOrIndex),
            )
            &&& src_found && src_checks is Err ==> r == Err::<CreateCanonicalStakeOutcome, Error>(
                Error::Marinade(src_checks->Err_0),
            )
            &&& src_found && src_checks is Ok && source_lamports != d.stake + source_rent_exempt_reserve ==> r == Err::<
                CreateCanonicalStakeOutcome,
                Error,
            >(Error::Marinade(MarinadeError::SourceStakeMustBeUpdated))
            &&& src_found && src_checks is Ok && source_lamports == d.stake + source_rent_exempt_reserve
                && d.voter_pubkey@ != v.validator_account@ ==> r == Err::<CreateCanonicalStakeOutcome, Error>(
                Error::Marinade(MarinadeError::InvalidSourceStakeDelegation),
            )
            &&& checked && room is Err ==> r == Err::<CreateCanonicalStakeOutcome, Error>(Error::Program(room->Err_0))
            &&& r is Ok <==> checked && room is Ok
            &&& r is Ok ==> {
                &&& r->Ok_0.canonical_stake@ == canonical_stake@
                &&& r->Ok_0.bump == derived->Some_0.1
                &&& final(state).stake_system.items(final(stake_list_data)@) == crate::list::swap_remove(
                    s.stake_system.items(old(stake_list_data)@).push(
                        slot_after_write(
                            s.stake_system.stake_list.item_at(old(stake_list_data)@, s.stake_system.stake_list.count as int),
                            spec_encode_stake_record(
                                StakeRecord {
                                    stake_account: *canonical_stake,
                                    last_update_delegated_lamports: d.stake,
                                    last_update_epoch: epoch,
                                    is_emergency_unstaking: 0,
                                    last_update_status: StakeStatus::Active,
                                },
                            ),
                        ),
                    ),
                    source_stake_index as int,
                )
                &&& *final(state) == (State {
                    stake_system: StakeSystem { stake_list: final(state).stake_system.stake_list, ..s.stake_system },
                    ..s
                })
                &&& final(state).stake_system.stake_list == s.stake_system.stake_list
            }
            &&& r is Err ==> *final(state) == s && final(stake_list_data)@ == old(stake_list_data)@
        }),
{
    if state.paused {
        return Err(Error::Marinade(MarinadeError::ProgramIsPaused));
    }
    let validator = match state.validator_system.get(validator_list_data, validator_index) {
        Ok(v) => v,
        Err(e) => {
            return Err(Error::Program(e));
        },
    };
    // the canonical account must not exist yet
    let stake_prog = stake_program_id();
    if canonical_stake_owner.same_key(&stake_prog) {
        return Err(Error::Marinade(MarinadeError::CanonicalStakeAccountAlreadyCreated));
    }
    // check derivation
    let (canonical_stake_account, bump) = match find_pair_address(
        state_address,
        &validator.validator_account,
        canonical_stake_seed,
    ) {
        Some(p) => p,
        None => {
            return Err(Error::Program(ProgramError::InvalidSeeds));
        },
    };
    if !canonical_stake.same_key(&canonical_stake_account) {
        return Err(Error::Marinade(MarinadeError::InvalidCanonicalStakeAccountAddress));
    }
    let source = state.stake_system.get_checked(stake_list_data, source_stake_index, source_stake)?;
    let d = match merge_side_checks(
        source_delegation,
        source.last_update_delegated_lamports,
        MarinadeError::SourceStakeMustBeDelegated,
        MarinadeError::SourceStakeMustNotBeDeactivating,
        MarinadeError::SourceStakeMustBeUpdated,
    ) {
        Ok(d) => d,
        Err(e) => {
            return Err(Error::Marinade(e));
        },
    };
    if source_lamports != d.stake + source_rent_exempt_reserve {
        return Err(Error::Marinade(MarinadeError::SourceStakeMustBeUpdated));
    }
    if !d.voter_pubkey.same_key(&validator.validator_account) {
        return Err(Error::Marinade(MarinadeError::InvalidSourceStakeDelegation));
    }
    match state.stake_system.stake_list.check_push(stake_list_data.len()) {
        Ok(()) => {},
        Err(e) => {
            return Err(Error::Program(e));
        },
    }
    // record the canonical account
    let added = state.stake_system.add(stake_list_data, canonical_stake, d.stake, epoch, 0);
    // last, because of index invalidation
    let removed = state.stake_system.remove(stake_list_data, source_stake_index);
    proof {
        assert(added is Ok);
        assert(removed is Ok);
    }
    Ok(CreateCanonicalStakeOutcome { canonical_stake: canonical_stake_account, bump })
}

/// The active balance the re-count did not find behind the validators `[from, to)`: each one's
/// active balance minus what the upgrader counted for it.
pub open spec fn spec_uncounted_balance(vs: ValidatorSystem, data: Seq<u8>, from: int, to: int) -> int
    decreases to - from,
{
    if to <= from {
        0
    } else {
        spec_uncounted_balance(vs, data, from, to - 1) + vs.record_at(data, to - 1).active_balance - vs.record_at(
            data,
            to - 1,
        ).delinquent_upgrader_active_balance
    }
}

/// A validator record once the re-count is applied: its active balance is what was counted.
pub open spec fn spec_recounted(v: ValidatorRecord) -> ValidatorRecord {
    ValidatorRecord {
        active_balance: v.delinquent_upgrader_active_balance,
        delinquent_upgrader_active_balance: 0,
        ..v
    }
}

/// The last validator the next finalize run visits: `max_validators` more, at most all.
pub open spec fn spec_finalize_end(visited_count: u32, count: u32, max_validators: u32) -> int {
    if visited_count + max_validators < count {
        visited_count + max_validators
    } else if visited_count < count {
        count as int
    } else {
        visited_count as int
    }
}

/// Finishes the re-count of delinquent stake, `max_validators` validators at a time: each
/// visited validator's active balance becomes what the upgrader counted for it, and what it
/// held beyond that is taken from the delinquent balance still to explain; after the last
/// validator nothing may be left to explain and the upgrade is done.
pub fn finalize_delinquent_upgrade(state: &mut State, validator_list_data: &mut Vec<u8>, max_validators: u32) -> (r: Result<
    (),
    Error,
>)
    requires
        old(state).validator_system.list_fits(old(validator_list_data)@),
        ({
            let s = *old(state);
            let vs = s.validator_system;
            let data = old(validator_list_data)@;
            !s.paused && s.delinquent_upgrader is IteratingValidators ==> {
                let from = s.delinquent_upgrader->IteratingValidators_visited_count as int;
                let to = spec_finalize_end(
                    s.delinquent_upgrader->IteratingValidators_visited_count,
                    vs.validator_list.count,
                    max_validators,
                );
                &&& forall|i: int| from <= i < to ==> #[trigger] vs.record_at(data, i).delinquent_upgrader_active_balance
                    <= vs.record_at(data, i).active_balance
                &&& spec_uncounted_balance(vs, data, from, to) <= s.delinquent_upgrader->IteratingValidators_delinquent_balance_left
            }
        }),
    ensures
        ({
            let s = *old(state);
            let vs = s.validator_system;
            let data = old(validator_list_data)@;
            let iterating = !s.paused && s.delinquent_upgrader is IteratingValidators;
            let from = s.delinquent_upgrader->IteratingValidators_visited_count as int;
            let to = spec_finalize_end(
                s.delinquent_upgrader->IteratingValidators_visited_count,
                vs.validator_list.count,
                max_validators,
            );
            let left = s.delinquent_upgrader->IteratingValidators_delinquent_balance_left - spec_uncounted_balance(
                vs,
                data,
                from,
                to,
            );
            let writes = from < to;
            &&& s.paused ==> r == Err::<(), Error>(Error::Marinade(MarinadeError::ProgramIsPaused))
            &&& !s.paused && !(s.delinquent_upgrader is IteratingValidators) ==> r == Err::<(), Error>(
                Error::Marinade(MarinadeError::UpgradingInvariantViolation),
            )
            &&& iterating && writes && vs.validator_list.spec_is_changing_account() ==> r == Err::<(), Error>(
                Error::Program(ProgramError::InvalidAccountData),
            )
            &&& iterating && !(writes && vs.validator_list.spec_is_changing_account()) && to == vs.validator_list.count
                && left != 0 ==> r == Err::<(), Error>(Error::Marinade(MarinadeError::UpgradingInvariantViolation))
            &&& r is Ok <==> iterating && !(writes && vs.validator_list.spec_is_changing_account()) && (to
                != vs.validator_list.count || left == 0)
            &&& r is Ok ==> {
                &&& to == vs.validator_list.count ==> *final(state) == (State {
                    delinquent_upgrader: DelinquentUpgraderState::Done,
                    ..s
                })
                &&& to != vs.validator_list.count ==> *final(state) == (State {
                    delinquent_upgrader: DelinquentUpgraderState::IteratingValidators {
                        visited_count: to as u32,
                        delinquent_balance_left: left as u64,
                    },
                    ..s
                })
                &&& final(validator_list_data)@.len() == data.len()
                &&& forall|i: int|
                    0 <= i < vs.validator_list.count ==> #[trigger] vs.validator_list.item_at(final(validator_list_data)@, i)
                        == if from <= i < to {
                        slot_after_write(
                            vs.validator_list.item_at(data, i),
                            spec_encode_validator_record(spec_recounted(vs.record_at(data, i))),
                        )
                    } else {
                        vs.validator_list.item_at(data, i)
                    }
            }
            &&& r is Err ==> *final(state) == s && final(validator_list_data)@ == data
        }),
{
    if state.paused {
        return Err(Error::Marinade(MarinadeError::ProgramIsPaused));
    }
    let (start, left0) = match state.delinquent_upgrader {
        DelinquentUpgraderState::IteratingValidators { visited_count, delinquent_balance_left } => (
            visited_count,
            delinquent_balance_left,
        ),
        _ => {
            return Err(Error::Marinade(MarinadeError::UpgradingInvariantViolation));
        },
    };
    let count = state.validator_system.validator_count();
    let vs = state.validator_system;
    let end: u32 = if (start as u64) + (max_validators as u64) < count as u64 {
        start + max_validators
    } else if start < count {
        count
    } else {
        start
    };
    if start < end && vs.validator_list.is_changing_account() {
        return Err(Error::Program(ProgramError::InvalidAccountData));
    }
    // what the visited validators hold beyond what was counted for them
    let uncounted = if start < end {
        uncounted_balance(&vs, validator_list_data, start, end, left0)
    } else {
        0
    };
    let delinquent_balance_left = left0 - uncounted;
    proof {
        assert(end as int == spec_finalize_end(start, count, max_validators));
        assert(delinquent_balance_left == left0 - spec_uncounted_balance(vs, validator_list_data@, start as int, end as int));
    }
    if end == count && delinquent_balance_left != 0 {
        return Err(Error::Marinade(MarinadeError::UpgradingInvariantViolation));
    }
    let ghost data0 = validator_list_data@;
    let mut visited_count = start;
    while visited_count < end
        invariant
            *state == *old(state),
            vs == old(state).validator_system,
            old(state).delinquent_upgrader == (DelinquentUpgraderState::IteratingValidators {
                visited_count: start,
                delinquent_balance_left: left0,
            }),
            data0 == old(validator_list_data)@,
            end as int == spec_finalize_end(start, count, max_validators),
            delinquent_balance_left == left0 - spec_uncounted_balance(vs, data0, start as int, end as int),
            end == count ==> delinquent_balance_left == 0,
            vs.list_fits(validator_list_data@),
            vs.list_fits(data0),
            count == vs.validator_list.count,
            start <= visited_count <= end <= count || (start == end && visited_count == start),
            end <= count || start == end,
            start < end ==> !vs.validator_list.spec_is_changing_account(),
            validator_list_data@.len() == data0.len(),
            forall|i: int|
                0 <= i < count ==> #[trigger] vs.validator_list.item_at(validator_list_data@, i) == if start <= i
                    < visited_count {
                    slot_after_write(
                        vs.validator_list.item_at(data0, i),
                        spec_encode_validator_record(spec_recounted(vs.record_at(data0, i))),
                    )
                } else {
                    vs.validator_list.item_at(data0, i)
                },
        decreases end - visited_count,
    {
        let validator = match vs.get(validator_list_data, visited_count) {
            Ok(v) => v,
            Err(e) => {
                return Err(Error::Program(e));
            },
        };
        proof {
            assert(vs.validator_list.item_at(validator_list_data@, visited_count as int) == vs.validator_list.item_at(
                data0,
                visited_count as int,
            ));
        }
        let updated = ValidatorRecord {
            active_balance: validator.delinquent_upgrader_active_balance,
            delinquent_upgrader_active_balance: 0,
            ..validator
        };
        let ghost before = validator_list_data@;
        let set = vs.set(validator_list_data, visited_count, updated);
        proof {
            assert(set is Ok);
            assert forall|i: int| 0 <= i < count implies #[trigger] vs.validator_list.item_at(validator_list_data@, i)
                == if start <= i < visited_count + 1 {
                slot_after_write(
                    vs.validator_list.item_at(data0, i),
                    spec_encode_validator_record(spec_recounted(vs.record_at(data0, i))),
                )
            } else {
                vs.validator_list.item_at(data0, i)
            } by {
                if i == visited_count {
                    assert(vs.items(validator_list_data@)[i] == vs.validator_list.item_at(validator_list_data@, i));
                    assert(vs.items(before)[i] == vs.validator_list.item_at(before, i));
                } else {
                    assert(vs.validator_list.item_at(validator_list_data@, i) == vs.validator_list.item_at(before, i));
                }
            }
        }
        visited_count = visited_count + 1;
    }
    if end == count {
        state.delinquent_upgrader = DelinquentUpgraderState::Done;
    } else {
        state.delinquent_upgrader =
        DelinquentUpgraderState::IteratingValidators { visited_count: end, delinquent_balance_left };
    }
    Ok(())
}

/// Sums the balance the re-count did not find behind the validators `[from, to)`.
fn uncounted_balance(vs: &ValidatorSystem, data: &Vec<u8>, from: u32, to: u32, bound: u64) -> (r: u64)
    requires
        vs.list_fits(data@),
        from <= to <= vs.validator_list.count,
        forall|i: int| from <= i < to ==> #[trigger] vs.record_at(data@, i).delinquent_upgrader_active_balance
            <= vs.record_at(data@, i).active_balance,
        spec_uncounted_balance(*vs, data@, from as int, to as int) <= bound,
    ensures
        r == spec_uncounted_balance(*vs, data@, from as int, to as int),
{
    let mut sum: u64 = 0;
    let mut i = from;
    while i < to
        invariant
            vs.list_fits(data@),
            from <= i <= to <= vs.validator_list.count,
            forall|j: int| from <= j < to ==> #[trigger] vs.record_at(data@, j).delinquent_upgrader_active_balance
                <= vs.record_at(data@, j).active_balance,
            spec_uncounted_balance(*vs, data@, from as int, to as int) <= bound,
            sum == spec_uncounted_balance(*vs, data@, from as int, i as int),
        decreases to - i,
    {
        let v = match vs.get(data, i) {
            Ok(v) => v,
            Err(_) => {
                return sum;
            },
        };
        proof {
            lemma_uncounted_grows(*vs, data@, from as int, i + 1, to as int);
            assert(vs.record_at(data@, i as int).delinquent_upgrader_active_balance <= vs.record_at(data@, i as int).active_balance);
        }
        sum = sum + (v.active_balance - v.delinquent_upgrader_active_balance);
        i = i + 1;
    }
    sum
}

/// The uncounted balance of a longer range is no smaller, when every validator in it counted
/// no more than it holds.
proof fn lemma_uncounted_grows(vs: ValidatorSystem, data: Seq<u8>, from: int, mid: int, to: int)
    requires
        from <= mid <= to,
        forall|i: int| from <= i < to ==> #[trigger] vs.record_at(data, i).delinquent_upgrader_active_balance
            <= vs.record_at(data, i).active_balance,
    ensures
        spec_uncounted_balance(vs, data, from, mid) <= spec_uncounted_balance(vs, data, from, to),
        0 <= spec_uncounted_balance(vs, data, from, mid),
    decreases to - from,
{
    if to > mid {
        lemma_uncounted_grows(vs, data, from, mid, to - 1);
    } else if mid > from {
        lemma_uncounted_grows(vs, data, from, mid - 1, mid - 1);
    }
}

/// Staking from the reserve moves lamports from the reserve into active stake: the lamports
/// under control stay the same, and so does the mSOL price.
pub proof fn lemma_stake_reserve_keeps_price(s: State, amount: u64, stake_system: StakeSystem, x: u64)
    requires
        amount <= s.available_reserve_balance,
        s.validator_system.total_active_balance + amount <= u64::MAX,
        stake_system.delayed_unstake_cooling_down == s.stake_system.delayed_unstake_cooling_down,
    ensures
        ({
            let after = State {
                available_reserve_balance: (s.available_reserve_balance - amount) as u64,
                validator_system: ValidatorSystem {
                    total_active_balance: (s.validator_system.total_active_balance + amount) as u64,
                    ..s.validator_system
                },
                stake_system,
                ..s
            };
            &&& crate::state::spec_total_lamports_under_control(after) == crate::state::spec_total_lamports_under_control(s)
            &&& crate::state::spec_msol_to_sol(after, x) == crate::state::spec_msol_to_sol(s, x)
        }),
{
    let after = State {
        available_reserve_balance: (s.available_reserve_balance - amount) as u64,
        validator_system: ValidatorSystem {
            total_active_balance: (s.validator_system.total_active_balance + amount) as u64,
            ..s.validator_system
        },
        stake_system,
        ..s
    };
    crate::state::lemma_price_follows_totals(after, s, x);
}

/// Deactivating stake moves it from active stake to delayed-unstake cooling down: the lamports
/// under control stay the same, and so does the mSOL price.
pub proof fn lemma_deactivate_keeps_price(s: State, amount: u64, stake_system: StakeSystem, x: u64)
    requires
        amount <= s.validator_system.total_active_balance,
        stake_system.delayed_unstake_cooling_down == s.stake_system.delayed_unstake_cooling_down + amount,
    ensures
        ({
            let after = State {
                validator_system: ValidatorSystem {
                    total_active_balance: (s.validator_system.total_active_balance - amount) as u64,
                    ..s.validator_system
                },
                stake_system,
                ..s
            };
            &&& crate::state::spec_total_lamports_under_control(after) == crate::state::spec_total_lamports_under_control(s)
            &&& crate::state::spec_msol_to_sol(after, x) == crate::state::spec_msol_to_sol(s, x)
        }),
{
    let after = State {
        validator_system: ValidatorSystem {
            total_active_balance: (s.validator_system.total_active_balance - amount) as u64,
            ..s.validator_system
        },
        stake_system,
        ..s
    };
    crate::state::lemma_price_follows_totals(after, s, x);
}


/// Staking the reserve into a validator under its target moves what the validator lacks of
/// its target, raised to the minimal stake and capped by the epoch's stake delta; the whole
/// delta goes only when less than the minimal stake would be left for other validators.
pub proof fn lemma_reserve_stake_amount(s: State, v: ValidatorRecord, reserve_balance: u64)
    requires
        0 < spec_stake_delta(s, reserve_balance) <= u64::MAX,
        spec_reserve_validator_target(s, v, reserve_balance) is Ok,
        v.active_balance < spec_reserve_validator_target(s, v, reserve_balance)->Ok_0,
    ensures
        ({
            let delta = spec_stake_delta(s, reserve_balance);
            let min_stake = s.stake_system.min_stake;
            let lacking = spec_reserve_validator_target(s, v, reserve_balance)->Ok_0 - v.active_balance;
            let wanted = if lacking > min_stake {
                lacking
            } else {
                min_stake as int
            };
            let amount = spec_reserve_stake_amount(s, v, reserve_balance);
            &&& amount <= delta
            &&& wanted <= delta && delta - wanted >= min_stake ==> amount == wanted
            &&& !(wanted <= delta && delta - wanted >= min_stake) ==> amount == delta
            &&& amount == delta || delta - amount >= min_stake
            &&& amount >= lacking || amount == delta
        }),
{
}


/// Deactivating stake removes from the validator what it holds above its target, but never
/// more than the epoch must unstake nor than the stake account holds; that part is split off
/// the stake account when at least twice the minimal stake stays in it, otherwise the whole
/// account is deactivated.
pub proof fn lemma_deactivate_amount(s: State, st: StakeRecord, v: ValidatorRecord, reserve_balance: u64)
    requires
        spec_stake_delta(s, reserve_balance) < 0,
        spec_unstake_validator_target(s, v, reserve_balance) is Ok,
        v.active_balance > spec_unstake_validator_target(s, v, reserve_balance)->Ok_0,
    ensures
        ({
            let (whole, amount) = spec_deactivate_amount(s, st, v, reserve_balance);
            let excess: int = v.active_balance - spec_unstake_validator_target(s, v, reserve_balance)->Ok_0;
            let needed: int = -spec_stake_delta(s, reserve_balance);
            let removed: int = if excess < needed {
                excess
            } else {
                needed
            };
            let min_stake = s.stake_system.min_stake;
            let kept: int = if st.last_update_delegated_lamports >= removed {
                st.last_update_delegated_lamports - removed
            } else {
                0
            };
            &&& whole <==> kept < 2 * min_stake
            &&& whole ==> amount == st.last_update_delegated_lamports
            &&& !whole ==> amount == st.last_update_delegated_lamports - kept && amount <= excess && amount <= needed
                && st.last_update_delegated_lamports - amount >= 2 * min_stake
        }),
{
}

/// A redelegation moves no more than the source validator holds above its target, the stake
/// account holds and the destination lacks of its target, and exactly the least of the three;
/// the whole account goes when less than the minimal stake would be left in it.
pub proof fn lemma_redelegate_amount(
    s: State,
    st: StakeRecord,
    source: ValidatorRecord,
    dest: ValidatorRecord,
    reserve_balance: u64,
)
    requires
        spec_delta_validator_target(s, source, reserve_balance) is Ok,
        spec_delta_validator_target(s, dest, reserve_balance) is Ok,
        source.active_balance >= spec_delta_validator_target(s, source, reserve_balance)->Ok_0,
        dest.active_balance <= spec_delta_validator_target(s, dest, reserve_balance)->Ok_0,
    ensures
        ({
            let (whole, amount) = spec_redelegate_amount(s, st, source, dest, reserve_balance);
            let source_room: int = source.active_balance - spec_delta_validator_target(s, source, reserve_balance)->Ok_0;
            let dest_room: int = spec_delta_validator_target(s, dest, reserve_balance)->Ok_0 - dest.active_balance;
            let delegated = st.last_update_delegated_lamports;
            let least: int = if source_room <= delegated && source_room <= dest_room {
                source_room
            } else if delegated <= dest_room {
                delegated as int
            } else {
                dest_room
            };
            &&& whole ==> amount == delegated
            &&& !whole ==> {
                &&& amount <= source_room && amount <= delegated && amount <= dest_room
                &&& amount == least
                &&& delegated - amount >= s.stake_system.min_stake
            }
            &&& whole <==> delegated - least < s.stake_system.min_stake
        }),
{
}


/// Every validator's stake target is its score's share, divided down, of the active stake once
/// the epoch's stake delta is applied: the same share whether the reserve is staked, stake is
/// deactivated or stake is redelegated.
pub proof fn lemma_validator_targets(s: State, v: ValidatorRecord, reserve_balance: u64)
    requires
        0 <= s.validator_system.total_active_balance + spec_stake_delta(s, reserve_balance) <= u64::MAX,
        0 < s.validator_system.total_validator_score,
        v.score <= s.validator_system.total_validator_score,
    ensures
        ({
            let share: int = ((s.validator_system.total_active_balance + spec_stake_delta(s, reserve_balance))
                * v.score as int) / s.validator_system.total_validator_score as int;
            &&& spec_delta_validator_target(s, v, reserve_balance) == Ok::<u64, MarinadeError>(share as u64)
            &&& spec_unstake_validator_target(s, v, reserve_balance) == Ok::<u64, MarinadeError>(share as u64)
            &&& spec_stake_delta(s, reserve_balance) >= 0 ==> spec_reserve_validator_target(s, v, reserve_balance)
                == Ok::<u64, MarinadeError>(share as u64)
            &&& 0 <= share <= s.validator_system.total_active_balance + spec_stake_delta(s, reserve_balance)
        }),
{
    let total = (s.validator_system.total_active_balance + spec_stake_delta(s, reserve_balance)) as u64;
    crate::validator_system::lemma_validator_stake_target_share(s.validator_system.total_validator_score, v.score, total);
    crate::validator_system::lemma_validator_stake_target_at_most_total(
        s.validator_system.total_validator_score,
        v.score,
        total,
    );
}

} // verus!
