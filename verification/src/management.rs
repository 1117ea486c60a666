//! Decisions of the validator manager: unstaking from a validator on demand.
//!
//! Each function checks everything the instruction checks, then updates the state and the
//! lists and answers what the caller must do with the stake program. When it fails, nothing
//! was changed.
use vstd::prelude::*;

use crate::checks::{
    check_owner_program, check_stake_amount_and_validator, spec_check_stake_amount_and_validator,
    spec_stake_state_uninitialized, stake_state_uninitialized, Delegation, STAKE_STATE_SIZE,
};
use crate::crank::spec_delta_validator_target;
use crate::error::{Error, MarinadeError, ProgramError, RequireError};
use crate::list::slot_after_write;
use crate::pda::{
    spec_create_program_address, spec_program_id, spec_seeds, spec_stake_program_id, spec_try_find_program_address,
    stake_program_id, SeedTag,
};
use crate::pubkey::{default_key_view, Pubkey};
use crate::stake_system::{spec_encode_stake_record, stake_record_decodes, StakeRecord, StakeStatus, StakeSystem};
use crate::state::{spec_stake_delta, State};
use crate::validator_system::{spec_encode_validator_record, spec_validator_stake_target, ValidatorRecord, ValidatorSystem};

verus! {

/// What a manager's unstake removes: the whole account when less than the minimal stake would
/// be left in it, else the desired amount capped by what the validator holds above its target.
pub open spec fn spec_partial_unstake_amount(
    s: State,
    st: StakeRecord,
    v: ValidatorRecord,
    reserve_balance: u64,
    desired_unstake_amount: u64,
) -> (bool, u64) {
    let max_unstake = v.active_balance - spec_delta_validator_target(s, v, reserve_balance)->Ok_0;
    let unstake_amount: int = if desired_unstake_amount > max_unstake {
        max_unstake
    } else {
        desired_unstake_amount as int
    };
    let after: int = if st.last_update_delegated_lamports >= unstake_amount {
        st.last_update_delegated_lamports - unstake_amount
    } else {
        0
    };
    if after < s.stake_system.min_stake {
        (true, st.last_update_delegated_lamports)
    } else {
        (false, unstake_amount as u64)
    }
}

/// The checks a split stake account that is not a fresh system account must pass: owned by
/// the stake program, large enough, rent exempt and uninitialized.
pub open spec fn spec_check_split_stake_account(owner: Pubkey, data: Seq<u8>, rent_exempt: bool) -> Result<
    (),
    ProgramError,
> {
    if owner@ != spec_stake_program_id() {
        Err(ProgramError::InvalidArgument)
    } else if data.len() < STAKE_STATE_SIZE {
        Err(ProgramError::InvalidAccountData)
    } else if !rent_exempt {
        Err(ProgramError::InsufficientFunds)
    } else {
        match spec_stake_state_uninitialized(data) {
            None => Err(ProgramError::BorshIoError),
            Some(false) => Err(ProgramError::InvalidAccountData),
            Some(true) => Ok(()),
        }
    }
}

/// What a manager's unstake decided.
#[derive(Clone, Copy, Debug, PartialEq, Eq)]
pub enum PartialUnstakeOutcome {
    /// The validator holds no more than its stake target plus the minimal stake.
    TargetReached { validator_stake_target: u64 },
    /// Deactivate the whole stake account (now marked emergency unstaking); give the rent of the
    /// unused split account back when it is an uninitialized stake account.
    DeactivateWhole { amount: u64, return_split_rent: bool },
    /// Split `amount` into the split stake account (recorded at `split_stake_index`) and
    /// deactivate it; the account is created first when it is still a system account.
    DeactivateSplit { amount: u64, split_stake_index: u32, create_split_account: bool },
}

/// The checks of a manager's unstake before its plan pass.
pub open spec fn partial_unstake_checks_pass(
    s: State,
    manager_authority: Pubkey,
    st: StakeRecord,
    v: ValidatorRecord,
    stake_account: Pubkey,
    stake_delegation: Option<Delegation>,
) -> bool {
    &&& manager_authority@ == s.validator_system.manager_authority@
    &&& st.stake_account@ == stake_account@
    &&& st.is_emergency_unstaking == 0
    &&& spec_check_stake_amount_and_validator(stake_delegation, st.last_update_delegated_lamports, v.validator_account)
        is Ok
}

/// The validator manager unstakes up to `desired_unstake_amount` from the validator at
/// `validator_index` through the stake account at `stake_index`, never below the validator's
/// stake target: the whole account when less than the minimal stake would be left in it
/// (marking it emergency unstaking), else the amount split into the split stake account. The
/// lamports move from active stake to emergency cooling down.
pub fn partial_unstake(
    state: &mut State,
    manager_authority: &Pubkey,
    validator_list_data: &mut Vec<u8>,
    stake_list_data: &mut Vec<u8>,
    stake_index: u32,
    validator_index: u32,
    desired_unstake_amount: u64,
    stake_account: &Pubkey,
    stake_delegation: &Option<Delegation>,
    split_stake_account: &Pubkey,
    split_stake_owner: &Pubkey,
    split_stake_data: &Vec<u8>,
    split_stake_rent_exempt: bool,
    reserve_balance: u64,
    epoch: u64,
) -> (r: Result<PartialUnstakeOutcome, Error>)
    requires
        old(state).stake_system.list_fits(old(stake_list_data)@),
        old(state).validator_system.list_fits(old(validator_list_data)@),
        desired_unstake_amount >= old(state).stake_system.min_stake,
        ({
            let s = *old(state);
            let st = s.stake_system.record_at(old(stake_list_data)@, stake_index as int);
            let v = s.validator_system.record_at(old(validator_list_data)@, validator_index as int);
            let target = spec_delta_validator_target(s, v, reserve_balance);
            let (whole, amount) = spec_partial_unstake_amount(s, st, v, reserve_balance, desired_unstake_amount);
            validator_index < s.validator_system.validator_list.count && stake_index < s.stake_system.stake_list.count
                && partial_unstake_checks_pass(s, *manager_authority, st, v, *stake_account, *stake_delegation) ==> {
                &&& 0 <= s.validator_system.total_active_balance + spec_stake_delta(s, reserve_balance) <= u64::MAX
                &&& target is Ok ==> target->Ok_0 + s.stake_system.min_stake <= u64::MAX
                &&& target is Ok && v.active_balance > target->Ok_0 + s.stake_system.min_stake ==> {
                    &&& !whole ==> amount <= st.last_update_delegated_lamports
                    &&& amount <= v.active_balance
                    &&& amount <= s.validator_system.total_active_balance
                    &&& s.emergency_cooling_down + amount <= u64::MAX
                }
            }
        }),
    ensures
        ({
            let s = *old(state);
            let st = s.stake_system.record_at(old(stake_list_data)@, stake_index as int);
            let v = s.validator_system.record_at(old(validator_list_data)@, validator_index as int);
            let manager_ok = manager_authority@ == s.validator_system.manager_authority@;
            let validator_found = manager_ok && validator_index < s.validator_system.validator_list.count;
            let stake_decodes = validator_found && stake_index < s.stake_system.stake_list.count && stake_record_decodes(
                s.stake_system.stake_list.item_at(old(stake_list_data)@, stake_index as int),
            );
            let stake_found = stake_decodes && st.stake_account@ == stake_account@;
            let checked = stake_found && st.is_emergency_unstaking == 0 && spec_check_stake_amount_and_validator(
                *stake_delegation,
                st.last_update_delegated_lamports,
                v.validator_account,
            ) is Ok;
            let target = spec_delta_validator_target(s, v, reserve_balance);
            let above = checked && target is Ok && v.active_balance > target->Ok_0 + s.stake_system.min_stake;
            let (whole, amount) = spec_partial_unstake_amount(s, st, v, reserve_balance, desired_unstake_amount);
            let fresh_split = split_stake_owner@ == default_key_view();
            let split_check = spec_check_split_stake_account(*split_stake_owner, split_stake_data@, split_stake_rent_exempt);
            let pushes = above && (whole || s.stake_system.stake_list.spec_check_push(old(stake_list_data)@.len() as usize)
                is Ok);
            let split_ok = pushes && (whole || fresh_split || split_check is Ok);
            let lists_ok = !s.stake_system.stake_list.spec_is_changing_account()
                && !s.validator_system.validator_list.spec_is_changing_account();
            &&& !manager_ok ==> r == Err::<PartialUnstakeOutcome, Error>(Error::Require(RequireError::ConstraintAddress))
            &&& manager_ok && validator_index >= s.validator_system.validator_list.count ==> r == Err::<
                PartialUnstakeOutcome,
                Error,
            >(Error::Program(ProgramError::InvalidArgument))
            &&& validator_found && stake_index >= s.stake_system.stake_list.count ==> r == Err::<
                PartialUnstakeOutcome,
                Error,
            >(Error::Program(ProgramError::InvalidArgument))
            &&& stake_decodes && st.stake_account@ != stake_account@ ==> r == Err::<PartialUnstakeOutcome, Error>(
                Error::Marinade(MarinadeError::WrongStakeAccountOrIndex),
            )
            &&& stake_found && st.is_emergency_unstaking != 0 ==> r == Err::<PartialUnstakeOutcome, Error>(
                Error::Marinade(MarinadeError::StakeAccountIsEmergencyUnstaking),
            )
            &&& stake_found && st.is_emergency_unstaking == 0 && !checked ==> r == Err::<PartialUnstakeOutcome, Error>(
                Error::Marinade(
                    spec_check_stake_amount_and_validator(
                        *stake_delegation,
                        st.last_update_delegated_lamports,
                        v.validator_account,
                    )->Err_0,
                ),
            )
            &&& checked && target is Err ==> r == Err::<PartialUnstakeOutcome, Error>(Error::Marinade(target->Err_0))
            &&& checked && target is Ok && v.active_balance <= target->Ok_0 + s.stake_system.min_stake ==> r == Ok::<
                PartialUnstakeOutcome,
                Error,
            >(PartialUnstakeOutcome::TargetReached { validator_stake_target: target->Ok_0 })
            &&& above && !whole && s.stake_system.stake_list.spec_check_push(old(stake_list_data)@.len() as usize) is Err
                ==> r == Err::<PartialUnstakeOutcome, Error>(
                Error::Program(s.stake_system.stake_list.spec_check_push(old(stake_list_data)@.len() as usize)->Err_0),
            )
            &&& pushes && !whole && !fresh_split && split_check is Err ==> r == Err::<PartialUnstakeOutcome, Error>(
                Error::Program(split_check->Err_0),
            )
            &&& split_ok && !lists_ok ==> r == Err::<PartialUnstakeOutcome, Error>(
                Error::Program(ProgramError::InvalidAccountData),
            )
            &&& split_ok && lists_ok ==> {
                &&& whole ==> r == Ok::<PartialUnstakeOutcome, Error>(
                    PartialUnstakeOutcome::DeactivateWhole {
                        amount,
                        return_split_rent: split_stake_owner@ == spec_stake_program_id() && spec_stake_state_uninitialized(
                            split_stake_data@,
                        ) == Some(true),
                    },
                )
                &&& !whole ==> r == Ok::<PartialUnstakeOutcome, Error>(
                    PartialUnstakeOutcome::DeactivateSplit {
                        amount,
                        split_stake_index: s.stake_system.stake_list.count,
                        create_split_account: fresh_split,
                    },
                )
                &&& s.validator_system.items(final(validator_list_data)@) == s.validator_system.items(
                    old(validator_list_data)@,
                ).update(
                    validator_index as int,
                    slot_after_write(
                        s.validator_system.items(old(validator_list_data)@)[validator_index as int],
                        spec_encode_validator_record(ValidatorRecord { active_balance: (v.active_balance - amount) as u64, ..v }),
                    ),
                )
                &&& whole ==> final(stake_list_data)@.len() == old(stake_list_data)@.len() && s.stake_system.items(
                    final(stake_list_data)@,
                ) == s.stake_system.items(old(stake_list_data)@).update(
                    stake_index as int,
                    slot_after_write(
                        s.stake_system.items(old(stake_list_data)@)[stake_index as int],
                        spec_encode_stake_record(StakeRecord { is_emergency_unstaking: 1, ..st }),
                    ),
                )
                &&& !whole ==> final(state).stake_system.items(final(stake_list_data)@) == s.stake_system.items(
                    old(stake_list_data)@,
                ).update(
                    stake_index as int,
                    slot_after_write(
                        s.stake_system.items(old(stake_list_data)@)[stake_index as int],
                        spec_encode_stake_record(
                            StakeRecord {
                                last_update_delegated_lamports: (st.last_update_delegated_lamports - amount) as u64,
                                ..st
                            },
                        ),
                    ),
                ).push(
                    slot_after_write(
                        s.stake_system.stake_list.item_at(old(stake_list_data)@, s.stake_system.stake_list.count as int),
                        spec_encode_stake_record(
                            StakeRecord {
                                stake_account: *split_stake_account,
                                last_update_delegated_lamports: amount,
                                last_update_epoch: epoch,
                                is_emergency_unstaking: 1,
                                last_update_status: StakeStatus::Active,
                            },
                        ),
                    ),
                )
                &&& *final(state) == (State {
                    validator_system: ValidatorSystem {
                        total_active_balance: (s.validator_system.total_active_balance - amount) as u64,
                        ..s.validator_system
                    },
                    stake_system: StakeSystem { stake_list: final(state).stake_system.stake_list, ..s.stake_system },
                    emergency_cooling_down: (s.emergency_cooling_down + amount) as u64,
                    ..s
                })
                &&& final(state).stake_system.stake_list == (crate::list::List {
                    count: if whole {
                        s.stake_system.stake_list.count
                    } else {
                        (s.stake_system.stake_list.count + 1) as u32
                    },
                    ..s.stake_system.stake_list
                })
            }
            &&& r is Err || (r is Ok && r->Ok_0 is TargetReached) ==> *final(state) == s
                && final(stake_list_data)@ == old(stake_list_data)@ && final(validator_list_data)@ == old(validator_list_data)@
        }),
        r is Ok && !(r->Ok_0 is TargetReached) ==> final(state).validator_system.total_active_balance
            + final(state).emergency_cooling_down == old(state).validator_system.total_active_balance
            + old(state).emergency_cooling_down,
{
    if !manager_authority.same_key(&state.validator_system.manager_authority) {
        return Err(Error::Require(RequireError::ConstraintAddress));
    }
    let validator = match state.validator_system.get(validator_list_data, validator_index) {
        Ok(v) => v,
        Err(e) => {
            return Err(Error::Program(e));
        },
    };
    let stake = state.stake_system.get_checked(stake_list_data, stake_index, stake_account)?;
    // check the account is not already in emergency_unstake
    if stake.is_emergency_unstaking != 0 {
        return Err(Error::Marinade(MarinadeError::StakeAccountIsEmergencyUnstaking));
    }
    // check amount currently_staked in this account
    // and that the account is delegated to the validator_index sent
    match check_stake_amount_and_validator(stake_delegation, stake.last_update_delegated_lamports, &validator.validator_account) {
        Ok(()) => {},
        Err(e) => {
            return Err(Error::Marinade(e));
        },
    }
    // total target stake: current total active stake +/- delta
    let total_stake_delta = state.stake_delta(reserve_balance);
    let total_stake_target: u64 = (state.validator_system.total_active_balance as i128 + total_stake_delta) as u64;
    // compute target for this particular validator (total_stake_target * score/total_score)
    let validator_stake_target = match state.validator_system.validator_stake_target(&validator, total_stake_target) {
        Ok(t) => t,
        Err(e) => {
            return Err(Error::Marinade(e));
        },
    };
    // if validator is already on-target (or the split would be lower than min_stake), exit now
    if validator.active_balance <= validator_stake_target + state.stake_system.min_stake {
        // Not an error: other instructions of the transaction go on
        return Ok(PartialUnstakeOutcome::TargetReached { validator_stake_target });
    }
    // how much can be unstaked from this validator, and cap unstake amount to it
    let max_unstake_from_validator = validator.active_balance - validator_stake_target;
    let unstake_amount = if desired_unstake_amount > max_unstake_from_validator {
        max_unstake_from_validator
    } else {
        desired_unstake_amount
    };
    // how much this particular account will have after unstake
    let stake_account_after = stake.last_update_delegated_lamports.saturating_sub(unstake_amount);
    let whole = stake_account_after < state.stake_system.min_stake;
    let stake_prog = stake_program_id();
    let fresh_split = split_stake_owner.is_default();
    if !whole {
        match state.stake_system.stake_list.check_push(stake_list_data.len()) {
            Ok(()) => {},
            Err(e) => {
                return Err(Error::Program(e));
            },
        }
        if !fresh_split {
            // a ready uninitialized stake account
            match check_owner_program(split_stake_owner, &stake_prog, "split_stake_account") {
                Ok(()) => {},
                Err(e) => {
                    return Err(Error::Program(e));
                },
            }
            if split_stake_data.len() < STAKE_STATE_SIZE {
                return Err(Error::Program(ProgramError::InvalidAccountData));
            }
            if !split_stake_rent_exempt {
                return Err(Error::Program(ProgramError::InsufficientFunds));
            }
            match stake_state_uninitialized(split_stake_data.as_slice()) {
                None => {
                    return Err(Error::Program(ProgramError::BorshIoError));
                },
                Some(false) => {
                    return Err(Error::Program(ProgramError::InvalidAccountData));
                },
                Some(true) => {},
            }
        }
    }
    if state.stake_system.stake_list.is_changing_account() || state.validator_system.validator_list.is_changing_account() {
        return Err(Error::Program(ProgramError::InvalidAccountData));
    }
    let split_stake_index = state.stake_system.stake_count();
    let (updated_stake, unstaked) = if whole {
        // mark as emergency_unstaking, so the SOL will be re-staked ASAP
        (StakeRecord { is_emergency_unstaking: 1, ..stake }, stake.last_update_delegated_lamports)
    } else {
        // add the split account to the stake list
        let added = state.stake_system.add(stake_list_data, split_stake_account, unstake_amount, epoch, 1);
        proof {
            assert(added is Ok);
        }
        (
            StakeRecord { last_update_delegated_lamports: stake.last_update_delegated_lamports - unstake_amount, ..stake },
            unstake_amount,
        )
    };
    // the amount is no longer "active" for this validator;
    // move from total_active_balance -> emergency cooling down
    let updated_validator = ValidatorRecord { active_balance: validator.active_balance - unstaked, ..validator };
    state.validator_system.total_active_balance = state.validator_system.total_active_balance - unstaked;
    state.emergency_cooling_down = state.emergency_cooling_down + unstaked;
    let set_stake = state.stake_system.set(stake_list_data, stake_index, updated_stake);
    let set_validator = state.validator_system.set(validator_list_data, validator_index, updated_validator);
    proof {
        assert(set_stake is Ok);
        assert(set_validator is Ok);
    }
    if whole {
        let return_split_rent = split_stake_owner.same_key(&stake_prog) && match stake_state_uninitialized(
            split_stake_data.as_slice(),
        ) {
            Some(true) => true,
            _ => false,
        };
        Ok(PartialUnstakeOutcome::DeactivateWhole { amount: unstaked, return_split_rent })
    } else {
        Ok(PartialUnstakeOutcome::DeactivateSplit { amount: unstaked, split_stake_index, create_split_account: fresh_split })
    }
}

/// The validator manager deactivates a whole stake account of a validator whose score was set
/// to zero: its delegation moves from active stake to emergency cooling down and the record is
/// marked emergency unstaking.
pub fn emergency_unstake(
    state: &mut State,
    manager_authority: &Pubkey,
    validator_list_data: &mut Vec<u8>,
    stake_list_data: &mut Vec<u8>,
    stake_index: u32,
    validator_index: u32,
    stake_account: &Pubkey,
    stake_delegation: &Option<Delegation>,
) -> (r: Result<(), Error>)
    requires
        old(state).stake_system.list_fits(old(stake_list_data)@),
        old(state).validator_system.list_fits(old(validator_list_data)@),
        ({
            let s = *old(state);
            let st = s.stake_system.record_at(old(stake_list_data)@, stake_index as int);
            let v = s.validator_system.record_at(old(validator_list_data)@, validator_index as int);
            let reaches_unstake = {
                &&& manager_authority@ == s.validator_system.manager_authority@
                &&& !s.paused
                &&& stake_index < s.stake_system.stake_list.count
                &&& stake_record_decodes(s.stake_system.stake_list.item_at(old(stake_list_data)@, stake_index as int))
                &&& st.stake_account@ == stake_account@
                &&& validator_index < s.validator_system.validator_list.count
                &&& v.score == 0
                &&& spec_check_stake_amount_and_validator(
                    *stake_delegation,
                    st.last_update_delegated_lamports,
                    v.validator_account,
                ) is Ok
                &&& st.is_emergency_unstaking == 0
            };
            reaches_unstake ==> {
                &&& st.last_update_delegated_lamports <= v.active_balance
                &&& st.last_update_delegated_lamports <= s.validator_system.total_active_balance
                &&& s.emergency_cooling_down + st.last_update_delegated_lamports <= u64::MAX
            }
        }),
    ensures
        ({
            let s = *old(state);
            let st = s.stake_system.record_at(old(stake_list_data)@, stake_index as int);
            let v = s.validator_system.record_at(old(validator_list_data)@, validator_index as int);
            let manager_ok = manager_authority@ == s.validator_system.manager_authority@;
            let running = manager_ok && !s.paused;
            let stake_decodes = running && stake_index < s.stake_system.stake_list.count && stake_record_decodes(
                s.stake_system.stake_list.item_at(old(stake_list_data)@, stake_index as int),
            );
            let validator_found = stake_decodes && st.stake_account@ == stake_account@ && validator_index
                < s.validator_system.validator_list.count;
            let zero_score = validator_found && v.score == 0;
            let checked = zero_score && spec_check_stake_amount_and_validator(
                *stake_delegation,
                st.last_update_delegated_lamports,
                v.validator_account,
            ) is Ok;
            let amount = st.last_update_delegated_lamports;
            &&& !manager_ok ==> r == Err::<(), Error>(Error::Marinade(MarinadeError::InvalidValidatorManager))
            &&& manager_ok && s.paused ==> r == Err::<(), Error>(Error::Marinade(MarinadeError::ProgramIsPaused))
            &&& running && stake_index >= s.stake_system.stake_list.count ==> r == Err::<(), Error>(
                Error::Program(ProgramError::InvalidArgument),
            )
            &&& running && stake_index < s.stake_system.stake_list.count && !stake_record_decodes(
                s.stake_system.stake_list.item_at(old(stake_list_data)@, stake_index as int),
            ) ==> r == Err::<(), Error>(Error::Program(ProgramError::BorshIoError))
            &&& stake_decodes && st.stake_account@ != stake_account@ ==> r == Err::<(), Error>(
                Error::Marinade(MarinadeError::WrongStakeAccountOrIndex),
            )
            &&& stake_decodes && st.stake_account@ == stake_account@ && validator_index
                >= s.validator_system.validator_list.count ==> r == Err::<(), Error>(
                Error::Program(ProgramError::InvalidArgument),
            )
            &&& validator_found && v.score != 0 ==> r == Err::<(), Error>(
                Error::Marinade(MarinadeError::EmergencyUnstakingFromNonZeroScoredValidator),
            )
            &&& zero_score && !checked ==> r == Err::<(), Error>(
                Error::Marinade(
                    spec_check_stake_amount_and_validator(
                        *stake_delegation,
                        st.last_update_delegated_lamports,
                        v.validator_account,
                    )->Err_0,
                ),
            )
            &&& checked && st.is_emergency_unstaking != 0 ==> r == Err::<(), Error>(
                Error::Marinade(MarinadeError::StakeAccountIsEmergencyUnstaking),
            )
            &&& checked && st.is_emergency_unstaking == 0 && (s.stake_system.stake_list.spec_is_changing_account()
                || s.validator_system.validator_list.spec_is_changing_account()) ==> r == Err::<(), Error>(
                Error::Program(ProgramError::InvalidAccountData),
            )
            &&& r is Ok <==> checked && st.is_emergency_unstaking == 0
                && !s.stake_system.stake_list.spec_is_changing_account()
                && !s.validator_system.validator_list.spec_is_changing_account()
            &&& r is Ok ==> {
                &&& *final(state) == (State {
                    validator_system: ValidatorSystem {
                        total_active_balance: (s.validator_system.total_active_balance - amount) as u64,
                        ..s.validator_system
                    },
                    emergency_cooling_down: (s.emergency_cooling_down + amount) as u64,
                    ..s
                })
                &&& s.stake_system.items(final(stake_list_data)@) == s.stake_system.items(old(stake_list_data)@).update(
                    stake_index as int,
                    slot_after_write(
                        s.stake_system.items(old(stake_list_data)@)[stake_index as int],
                        spec_encode_stake_record(StakeRecord { is_emergency_unstaking: 1, ..st }),
                    ),
                )
                &&& s.validator_system.items(final(validator_list_data)@) == s.validator_system.items(
                    old(validator_list_data)@,
                ).update(
                    validator_index as int,
                    slot_after_write(
                        s.validator_system.items(old(validator_list_data)@)[validator_index as int],
                        spec_encode_validator_record(ValidatorRecord { active_balance: (v.active_balance - amount) as u64, ..v }),
                    ),
                )
            }
            &&& r is Err ==> *final(state) == s && final(stake_list_data)@ == old(stake_list_data)@
                && final(validator_list_data)@ == old(validator_list_data)@
        }),
        final(state).validator_system.total_active_balance + final(state).emergency_cooling_down
            == old(state).validator_system.total_active_balance + old(state).emergency_cooling_down,
{
    if let Err(e) = state.validator_system.check_validator_manager_authority(manager_authority) {
        return Err(Error::Marinade(e));
    }
    if state.paused {
        return Err(Error::Marinade(MarinadeError::ProgramIsPaused));
    }
    let stake = state.stake_system.get_checked(stake_list_data, stake_index, stake_account)?;
    let validator = match state.validator_system.get(validator_list_data, validator_index) {
        Ok(v) => v,
        Err(e) => {
            return Err(Error::Program(e));
        },
    };
    // one more level of protection: the validator's score must have been set to 0 first
    if validator.score != 0 {
        return Err(Error::Marinade(MarinadeError::EmergencyUnstakingFromNonZeroScoredValidator));
    }
    // check that the account is delegated to the right validator
    match check_stake_amount_and_validator(stake_delegation, stake.last_update_delegated_lamports, &validator.validator_account) {
        Ok(()) => {},
        Err(e) => {
            return Err(Error::Marinade(e));
        },
    }
    // check the account is not already in emergency_unstake
    if stake.is_emergency_unstaking != 0 {
        return Err(Error::Marinade(MarinadeError::StakeAccountIsEmergencyUnstaking));
    }
    if state.stake_system.stake_list.is_changing_account() || state.validator_system.validator_list.is_changing_account() {
        return Err(Error::Program(ProgramError::InvalidAccountData));
    }
    let unstake_amount = stake.last_update_delegated_lamports;
    let updated_stake = StakeRecord { is_emergency_unstaking: 1, ..stake };
    // the amount is no longer "active" for this validator;
    // move from total_active_balance -> emergency cooling down
    let updated_validator = ValidatorRecord { active_balance: validator.active_balance - unstake_amount, ..validator };
    state.validator_system.total_active_balance = state.validator_system.total_active_balance - unstake_amount;
    state.emergency_cooling_down = state.emergency_cooling_down + unstake_amount;
    let set_stake = state.stake_system.set(stake_list_data, stake_index, updated_stake);
    let set_validator = state.validator_system.set(validator_list_data, validator_index, updated_validator);
    proof {
        assert(set_stake is Ok);
        assert(set_validator is Ok);
    }
    Ok(())
}

/// The validator manager registers the validator with vote account `validator_vote` and a
/// score; `duplication_flag` is the account the caller creates to mark it registered (derived
/// from the state address and the vote account), so a validator is never registered twice.
pub fn add_validator(
    state: &mut State,
    manager_authority: &Pubkey,
    state_address: &Pubkey,
    validator_list_data: &mut Vec<u8>,
    validator_vote: &Pubkey,
    duplication_flag: &Pubkey,
    score: u32,
) -> (r: Result<(), Error>)
    requires
        old(state).validator_system.list_fits(old(validator_list_data)@),
        old(state).validator_system.total_validator_score + score <= u32::MAX,
    ensures
        manager_authority@ != old(state).validator_system.manager_authority@ ==> r == Err::<(), Error>(
            Error::Require(RequireError::ConstraintAddress),
        ),
        r is Ok ==> {
            let s = *old(state);
            let bump = spec_try_find_program_address(
                spec_seeds(state_address@, SeedTag::DuplicateFlag).push(validator_vote@),
                spec_program_id(),
            );
            &&& manager_authority@ == s.validator_system.manager_authority@
            &&& bump is Some && bump->Some_0.0 == duplication_flag@
            &&& *final(state) == (State {
                validator_system: ValidatorSystem {
                    total_validator_score: (s.validator_system.total_validator_score + score) as u32,
                    validator_list: final(state).validator_system.validator_list,
                    ..s.validator_system
                },
                ..s
            })
            &&& final(state).validator_system.validator_list.count == s.validator_system.validator_list.count + 1
            &&& final(state).validator_system.items(final(validator_list_data)@) == s.validator_system.items(
                old(validator_list_data)@,
            ).push(
                slot_after_write(
                    s.validator_system.validator_list.item_at(old(validator_list_data)@, s.validator_system.validator_list.count as int),
                    spec_encode_validator_record(
                        ValidatorRecord {
                            validator_account: *validator_vote,
                            active_balance: 0,
                            score,
                            last_stake_delta_epoch: u64::MAX,
                            duplication_flag_bump_seed: bump->Some_0.1,
                            delinquent_upgrader_active_balance: 0,
                        },
                    ),
                ),
            )
        },
        manager_authority@ == old(state).validator_system.manager_authority@ ==> {
            let bump = spec_try_find_program_address(
                spec_seeds(state_address@, SeedTag::DuplicateFlag).push(validator_vote@),
                spec_program_id(),
            );
            &&& bump is None ==> r == Err::<(), Error>(Error::Program(ProgramError::InvalidSeeds))
            &&& bump is Some && bump->Some_0.0 != duplication_flag@ ==> r == Err::<(), Error>(
                Error::Marinade(MarinadeError::WrongValidatorDuplicationFlag),
            )
            &&& bump is Some && bump->Some_0.0 == duplication_flag@ ==> (r is Ok <==> old(
                state,
            ).validator_system.validator_list.spec_check_push(old(validator_list_data)@.len() as usize) is Ok)
        },
        r is Err ==> *final(state) == *old(state) && final(validator_list_data)@ == old(validator_list_data)@,
{
    if !manager_authority.same_key(&state.validator_system.manager_authority) {
        return Err(Error::Require(RequireError::ConstraintAddress));
    }
    let mut validator_system = state.validator_system;
    let r = validator_system.add(validator_list_data, *validator_vote, score, state_address, duplication_flag);
    proof {
        if r is Ok {
            assert(!old(state).validator_system.validator_list.spec_is_changing_account());
        }
    }
    if r.is_ok() {
        state.validator_system = validator_system;
    }
    r
}

/// The validator manager removes the validator at `index` (its vote account `validator_vote`),
/// which must hold no stake; `duplication_flag` must be its flag account, whose lamports the
/// caller moves to the operational account.
pub fn remove_validator(
    state: &mut State,
    manager_authority: &Pubkey,
    state_address: &Pubkey,
    validator_list_data: &mut Vec<u8>,
    index: u32,
    validator_vote: &Pubkey,
    duplication_flag: &Pubkey,
) -> (r: Result<(), Error>)
    requires
        old(state).validator_system.list_fits(old(validator_list_data)@),
        index < old(state).validator_system.validator_list.count ==> old(state).validator_system.record_at(
            old(validator_list_data)@,
            index as int,
        ).score <= old(state).validator_system.total_validator_score,
    ensures
        ({
            let s = *old(state);
            let v = s.validator_system.record_at(old(validator_list_data)@, index as int);
            let manager_ok = manager_authority@ == s.validator_system.manager_authority@;
            let found = manager_ok && index < s.validator_system.validator_list.count && v.validator_account@
                == validator_vote@;
            let flag = spec_create_program_address(
                spec_seeds(state_address@, SeedTag::DuplicateFlag).push(v.validator_account@).push(
                    seq![v.duplication_flag_bump_seed],
                ),
                spec_program_id(),
            );
            let flag_ok = found && flag is Some && flag->Some_0 == duplication_flag@;
            &&& !manager_ok ==> r == Err::<(), Error>(Error::Marinade(MarinadeError::InvalidValidatorManager))
            &&& manager_ok && index >= s.validator_system.validator_list.count ==> r == Err::<(), Error>(
                Error::Program(ProgramError::InvalidArgument),
            )
            &&& manager_ok && index < s.validator_system.validator_list.count && v.validator_account@ != validator_vote@
                ==> r == Err::<(), Error>(Error::Marinade(MarinadeError::WrongValidatorAccountOrIndex))
            &&& found && flag is None ==> r == Err::<(), Error>(Error::Program(ProgramError::InvalidSeeds))
            &&& found && flag is Some && flag->Some_0 != duplication_flag@ ==> r == Err::<(), Error>(
                Error::Marinade(MarinadeError::WrongValidatorDuplicationFlag),
            )
            &&& flag_ok && v.active_balance != 0 ==> r == Err::<(), Error>(
                Error::Marinade(MarinadeError::RemovingValidatorWithBalance),
            )
            &&& r is Ok <==> flag_ok && v.active_balance == 0 && !s.validator_system.validator_list.spec_is_changing_account()
            &&& r is Ok ==> {
                &&& *final(state) == (State {
                    validator_system: ValidatorSystem {
                        total_validator_score: (s.validator_system.total_validator_score - v.score) as u32,
                        validator_list: final(state).validator_system.validator_list,
                        ..s.validator_system
                    },
                    ..s
                })
                &&& final(state).validator_system.validator_list.count == s.validator_system.validator_list.count - 1
                &&& final(state).validator_system.items(final(validator_list_data)@) == crate::list::swap_remove(
                    s.validator_system.items(old(validator_list_data)@),
                    index as int,
                )
            }
            &&& r is Err ==> *final(state) == s && final(validator_list_data)@ == old(validator_list_data)@
        }),
{
    if let Err(e) = state.validator_system.check_validator_manager_authority(manager_authority) {
        return Err(Error::Marinade(e));
    }
    let validator = state.validator_system.get_checked(validator_list_data, index, validator_vote)?;
    let flag = match validator.duplication_flag_address(state_address) {
        Some(k) => k,
        None => {
            return Err(Error::Program(ProgramError::InvalidSeeds));
        },
    };
    if !duplication_flag.same_key(&flag) {
        return Err(Error::Marinade(MarinadeError::WrongValidatorDuplicationFlag));
    }
    let mut validator_system = state.validator_system;
    let r = validator_system.remove(validator_list_data, index, validator);
    if r.is_ok() {
        state.validator_system = validator_system;
    }
    r
}

/// The validator manager sets the score of the validator at `index` (its vote account
/// `validator_vote`); the total score follows.
pub fn set_validator_score(
    state: &mut State,
    manager_authority: &Pubkey,
    validator_list_data: &mut Vec<u8>,
    index: u32,
    validator_vote: &Pubkey,
    score: u32,
) -> (r: Result<(), Error>)
    requires
        old(state).validator_system.list_fits(old(validator_list_data)@),
        index < old(state).validator_system.validator_list.count ==> {
            let v = old(state).validator_system.record_at(old(validator_list_data)@, index as int);
            &&& v.score <= old(state).validator_system.total_validator_score
            &&& old(state).validator_system.total_validator_score - v.score + score <= u32::MAX
        },
    ensures
        ({
            let s = *old(state);
            let v = s.validator_system.record_at(old(validator_list_data)@, index as int);
            let manager_ok = manager_authority@ == s.validator_system.manager_authority@;
            let running = manager_ok && !s.paused;
            let found = running && index < s.validator_system.validator_list.count && v.validator_account@
                == validator_vote@;
            &&& !manager_ok ==> r == Err::<(), Error>(Error::Marinade(MarinadeError::InvalidValidatorManager))
            &&& manager_ok && s.paused ==> r == Err::<(), Error>(Error::Marinade(MarinadeError::ProgramIsPaused))
            &&& running && index >= s.validator_system.validator_list.count ==> r == Err::<(), Error>(
                Error::Program(ProgramError::InvalidArgument),
            )
            &&& running && index < s.validator_system.validator_list.count && v.validator_account@ != validator_vote@
                ==> r == Err::<(), Error>(Error::Marinade(MarinadeError::WrongValidatorAccountOrIndex))
            &&& found && s.validator_system.validator_list.spec_is_changing_account() ==> r == Err::<(), Error>(
                Error::Program(ProgramError::InvalidAccountData),
            )
            &&& r is Ok <==> found && !s.validator_system.validator_list.spec_is_changing_account()
            &&& r is Ok ==> {
                &&& *final(state) == (State {
                    validator_system: ValidatorSystem {
                        total_validator_score: (s.validator_system.total_validator_score - v.score + score) as u32,
                        ..s.validator_system
                    },
                    ..s
                })
                &&& s.validator_system.items(final(validator_list_data)@) == s.validator_system.items(
                    old(validator_list_data)@,
                ).update(
                    index as int,
                    slot_after_write(
                        s.validator_system.items(old(validator_list_data)@)[index as int],
                        spec_encode_validator_record(ValidatorRecord { score, ..v }),
                    ),
                )
            }
            &&& r is Err ==> *final(state) == s && final(validator_list_data)@ == old(validator_list_data)@
        }),
{
    if let Err(e) = state.validator_system.check_validator_manager_authority(manager_authority) {
        return Err(Error::Marinade(e));
    }
    if state.paused {
        return Err(Error::Marinade(MarinadeError::ProgramIsPaused));
    }
    let validator = state.validator_system.get_checked(validator_list_data, index, validator_vote)?;
    if state.validator_system.validator_list.is_changing_account() {
        return Err(Error::Program(ProgramError::InvalidAccountData));
    }
    state.validator_system.total_validator_score = state.validator_system.total_validator_score - validator.score + score;
    let updated = ValidatorRecord { score, ..validator };
    let set = state.validator_system.set(validator_list_data, index, updated);
    proof {
        assert(set is Ok);
    }
    Ok(())
}

/// What a manager's redelegation moves, and whether it takes the whole stake account: the
/// desired amount capped by what the validator holds above its target; the whole account when
/// less than the minimal stake would be left in it.
pub open spec fn spec_manager_redelegate_amount(
    s: State,
    st: StakeRecord,
    v: ValidatorRecord,
    reserve_balance: u64,
    desired_redelegate_amount: u64,
) -> (bool, u64) {
    let room = v.active_balance - spec_delta_validator_target(s, v, reserve_balance)->Ok_0;
    let amount: int = if desired_redelegate_amount > room {
        room
    } else {
        desired_redelegate_amount as int
    };
    let after: int = if st.last_update_delegated_lamports >= amount {
        st.last_update_delegated_lamports - amount
    } else {
        0
    };
    if after < s.stake_system.min_stake {
        (true, st.last_update_delegated_lamports)
    } else {
        (false, amount as u64)
    }
}

/// What a manager's redelegation decided.
#[derive(Clone, Copy, Debug, PartialEq, Eq)]
pub enum ManagerRedelegateOutcome {
    /// The validator holds no more than its stake target plus the minimal stake.
    TargetReached { validator_stake_target: u64 },
    /// Redelegate the whole stake account (now marked emergency unstaking) into the redelegate
    /// account, recorded at `redelegate_stake_index`; the rent of the unused split account goes
    /// back.
    RedelegateWhole { amount: u64, redelegate_stake_index: u32 },
    /// Split `amount` into the split account (recorded at `split_stake_index`) and redelegate it
    /// into the redelegate account (recorded at `redelegate_stake_index`).
    RedelegateSplit { amount: u64, split_stake_index: u32, redelegate_stake_index: u32 },
}

/// The validator manager moves up to `desired_redelegate_amount` of the stake account at
/// `stake_index` from the validator at `validator_index` to the one at `dest_validator_index`,
/// never below the source's target nor above the destination's: the whole account (marked
/// emergency unstaking) when less than the minimal stake would be left in it, else the part
/// split off first.
pub fn redelegate(
    state: &mut State,
    manager_authority: &Pubkey,
    validator_list_data: &mut Vec<u8>,
    stake_list_data: &mut Vec<u8>,
    stake_index: u32,
    validator_index: u32,
    dest_validator_index: u32,
    desired_redelegate_amount: u64,
    stake_account: &Pubkey,
    stake_delegation: &Option<Delegation>,
    split_stake_account: &Pubkey,
    dest_validator_account: &Pubkey,
    redelegate_stake_account: &Pubkey,
    reserve_balance: u64,
    epoch: u64,
) -> (r: Result<ManagerRedelegateOutcome, Error>)
    requires
        old(state).stake_system.list_fits(old(stake_list_data)@),
        old(state).validator_system.list_fits(old(validator_list_data)@),
        desired_redelegate_amount >= old(state).stake_system.min_stake,
        validator_index != dest_validator_index,
        ({
            let s = *old(state);
            let st = s.stake_system.record_at(old(stake_list_data)@, stake_index as int);
            let v = s.validator_system.record_at(old(validator_list_data)@, validator_index as int);
            let dest = s.validator_system.record_at(old(validator_list_data)@, dest_validator_index as int);
            let target = spec_delta_validator_target(s, v, reserve_balance);
            let dest_target = spec_delta_validator_target(s, dest, reserve_balance);
            let (whole, amount) = spec_manager_redelegate_amount(s, st, v, reserve_balance, desired_redelegate_amount);
            let wanted: int = if desired_redelegate_amount > v.active_balance - target->Ok_0 {
                v.active_balance - target->Ok_0
            } else {
                desired_redelegate_amount as int
            };
            manager_authority@ == s.validator_system.manager_authority@ && validator_index
                < s.validator_system.validator_list.count && stake_index < s.stake_system.stake_list.count
                && st.stake_account@ == stake_account@ && st.is_emergency_unstaking == 0
                && spec_check_stake_amount_and_validator(
                *stake_delegation,
                st.last_update_delegated_lamports,
                v.validator_account,
            ) is Ok ==> {
                &&& 0 <= s.validator_system.total_active_balance + spec_stake_delta(s, reserve_balance) <= u64::MAX
                &&& target is Ok ==> target->Ok_0 + s.stake_system.min_stake <= u64::MAX
                &&& target is Ok && v.active_balance > target->Ok_0 + s.stake_system.min_stake && dest_validator_index
                    < s.validator_system.validator_list.count && dest.validator_account@ == dest_validator_account@
                    && dest_target is Ok ==> {
                    &&& dest.active_balance + wanted <= u64::MAX
                    &&& dest.active_balance + wanted <= dest_target->Ok_0 ==> {
                        &&& !whole ==> amount <= st.last_update_delegated_lamports
                        &&& amount <= v.active_balance
                        &&& dest.active_balance + amount <= u64::MAX
                    }
                }
            }
        }),
    ensures
        ({
            let s = *old(state);
            let st = s.stake_system.record_at(old(stake_list_data)@, stake_index as int);
            let v = s.validator_system.record_at(old(validator_list_data)@, validator_index as int);
            let dest = s.validator_system.record_at(old(validator_list_data)@, dest_validator_index as int);
            let target = spec_delta_validator_target(s, v, reserve_balance);
            let dest_target = spec_delta_validator_target(s, dest, reserve_balance);
            let (whole, amount) = spec_manager_redelegate_amount(s, st, v, reserve_balance, desired_redelegate_amount);
            let wanted: int = if desired_redelegate_amount > v.active_balance - target->Ok_0 {
                v.active_balance - target->Ok_0
            } else {
                desired_redelegate_amount as int
            };
            let manager_ok = manager_authority@ == s.validator_system.manager_authority@;
            let validator_found = manager_ok && validator_index < s.validator_system.validator_list.count;
            let stake_decodes = validator_found && stake_index < s.stake_system.stake_list.count && stake_record_decodes(
                s.stake_system.stake_list.item_at(old(stake_list_data)@, stake_index as int),
            );
            let stake_found = stake_decodes && st.stake_account@ == stake_account@;
            let checked = stake_found && st.is_emergency_unstaking == 0 && spec_check_stake_amount_and_validator(
                *stake_delegation,
                st.last_update_delegated_lamports,
                v.validator_account,
            ) is Ok;
            let above = checked && target is Ok && v.active_balance > target->Ok_0 + s.stake_system.min_stake;
            let dest_found = above && dest_validator_index < s.validator_system.validator_list.count
                && dest.validator_account@ == dest_validator_account@;
            let fits = dest_found && dest_target is Ok && dest.active_balance + wanted <= dest_target->Ok_0;
            let room = s.stake_system.stake_list.spec_check_push(old(stake_list_data)@.len() as usize);
            let capacity = s.stake_system.stake_list.spec_capacity(old(stake_list_data)@.len() as usize);
            let count = s.stake_system.stake_list.count;
            let pushes = fits && room is Ok && (whole || count + 1 < capacity->Ok_0);
            let redelegate_record = StakeRecord {
                stake_account: *redelegate_stake_account,
                last_update_delegated_lamports: amount,
                last_update_epoch: epoch,
                is_emergency_unstaking: 0,
                last_update_status: StakeStatus::Active,
            };
            let split_record = StakeRecord {
                stake_account: *split_stake_account,
                last_update_delegated_lamports: 0,
                last_update_epoch: epoch,
                is_emergency_unstaking: 1,
                last_update_status: StakeStatus::Active,
            };
            let old_items = s.stake_system.items(old(stake_list_data)@);
            &&& !manager_ok ==> r == Err::<ManagerRedelegateOutcome, Error>(
                Error::Marinade(MarinadeError::InvalidValidatorManager),
            )
            &&& manager_ok && validator_index >= s.validator_system.validator_list.count ==> r == Err::<
                ManagerRedelegateOutcome,
                Error,
            >(Error::Program(ProgramError::InvalidArgument))
            &&& validator_found && stake_index >= s.stake_system.stake_list.count ==> r == Err::<
                ManagerRedelegateOutcome,
                Error,
            >(Error::Program(ProgramError::InvalidArgument))
            &&& stake_decodes && st.stake_account@ != stake_account@ ==> r == Err::<ManagerRedelegateOutcome, Error>(
                Error::Marinade(MarinadeError::WrongStakeAccountOrIndex),
            )
            &&& stake_found && st.is_emergency_unstaking != 0 ==> r == Err::<ManagerRedelegateOutcome, Error>(
                Error::Marinade(MarinadeError::StakeAccountIsEmergencyUnstaking),
            )
            &&& stake_found && st.is_emergency_unstaking == 0 && !checked ==> r == Err::<ManagerRedelegateOutcome, Error>(
                Error::Marinade(
                    spec_check_stake_amount_and_validator(
                        *stake_delegation,
                        st.last_update_delegated_lamports,
                        v.validator_account,
                    )->Err_0,
                ),
            )
            &&& checked && target is Err ==> r == Err::<ManagerRedelegateOutcome, Error>(Error::Marinade(target->Err_0))
            &&& checked && target is Ok && v.active_balance <= target->Ok_0 + s.stake_system.min_stake ==> r == Ok::<
                ManagerRedelegateOutcome,
                Error,
            >(ManagerRedelegateOutcome::TargetReached { validator_stake_target: target->Ok_0 })
            &&& above && dest_validator_index >= s.validator_system.validator_list.count ==> r == Err::<
                ManagerRedelegateOutcome,
                Error,
            >(Error::Program(ProgramError::InvalidArgument))
            &&& above && dest_validator_index < s.validator_system.validator_list.count && dest.validator_account@
                != dest_validator_account@ ==> r == Err::<ManagerRedelegateOutcome, Error>(
                Error::Marinade(MarinadeError::IncorrectDestValidatorAccountOrIndex),
            )
            &&& dest_found && dest_target is Err ==> r == Err::<ManagerRedelegateOutcome, Error>(
                Error::Marinade(dest_target->Err_0),
            )
            &&& dest_found && dest_target is Ok && dest.active_balance + wanted > dest_target->Ok_0 ==> r == Err::<
                ManagerRedelegateOutcome,
                Error,
            >(Error::Marinade(MarinadeError::RedelegateOverTarget))
            &&& fits && room is Err ==> r == Err::<ManagerRedelegateOutcome, Error>(Error::Program(room->Err_0))
            &&& fits && room is Ok && !whole && count + 1 >= capacity->Ok_0 ==> r == Err::<ManagerRedelegateOutcome, Error>(
                Error::Program(ProgramError::AccountDataTooSmall),
            )
            &&& pushes && s.validator_system.validator_list.spec_is_changing_account() ==> r == Err::<
                ManagerRedelegateOutcome,
                Error,
            >(Error::Program(ProgramError::InvalidAccountData))
            &&& pushes && !s.validator_system.validator_list.spec_is_changing_account() ==> {
                &&& whole ==> r == Ok::<ManagerRedelegateOutcome, Error>(
                    ManagerRedelegateOutcome::RedelegateWhole { amount, redelegate_stake_index: count },
                )
                &&& !whole ==> r == Ok::<ManagerRedelegateOutcome, Error>(
                    ManagerRedelegateOutcome::RedelegateSplit {
                        amount,
                        split_stake_index: count,
                        redelegate_stake_index: (count + 1) as u32,
                    },
                )
                &&& s.validator_system.items(final(validator_list_data)@) == s.validator_system.items(
                    old(validator_list_data)@,
                ).update(
                    validator_index as int,
                    slot_after_write(
                        s.validator_system.items(old(validator_list_data)@)[validator_index as int],
                        spec_encode_validator_record(ValidatorRecord { active_balance: (v.active_balance - amount) as u64, ..v }),
                    ),
                ).update(
                    dest_validator_index as int,
                    slot_after_write(
                        s.validator_system.items(old(validator_list_data)@)[dest_validator_index as int],
                        spec_encode_validator_record(
                            ValidatorRecord { active_balance: (dest.active_balance + amount) as u64, ..dest },
                        ),
                    ),
                )
                &&& whole ==> final(state).stake_system.items(final(stake_list_data)@) == old_items.update(
                    stake_index as int,
                    slot_after_write(
                        old_items[stake_index as int],
                        spec_encode_stake_record(
                            StakeRecord { is_emergency_unstaking: 1, last_update_delegated_lamports: 0, ..st },
                        ),
                    ),
                ).push(
                    slot_after_write(
                        s.stake_system.stake_list.item_at(old(stake_list_data)@, count as int),
                        spec_encode_stake_record(redelegate_record),
                    ),
                )
                &&& !whole ==> final(state).stake_system.items(final(stake_list_data)@) == old_items.update(
                    stake_index as int,
                    slot_after_write(
                        old_items[stake_index as int],
                        spec_encode_stake_record(
                            StakeRecord {
                                last_update_delegated_lamports: (st.last_update_delegated_lamports - amount) as u64,
                                ..st
                            },
                        ),
                    ),
                ).push(
                    slot_after_write(
                        s.stake_system.stake_list.item_at(old(stake_list_data)@, count as int),
                        spec_encode_stake_record(split_record),
                    ),
                ).push(
                    slot_after_write(
                        s.stake_system.stake_list.item_at(old(stake_list_data)@, count + 1),
                        spec_encode_stake_record(redelegate_record),
                    ),
                )
                &&& *final(state) == (State {
                    stake_system: StakeSystem { stake_list: final(state).stake_system.stake_list, ..s.stake_system },
                    ..s
                })
                &&& final(state).stake_system.stake_list == (crate::list::List {
                    count: if whole {
                        (count + 1) as u32
                    } else {
                        (count + 2) as u32
                    },
                    ..s.stake_system.stake_list
                })
            }
            &&& r is Err || (r is Ok && r->Ok_0 is TargetReached) ==> *final(state) == s && final(stake_list_data)@
                == old(stake_list_data)@ && final(validator_list_data)@ == old(validator_list_data)@
        }),
{
    if let Err(e) = state.validator_system.check_validator_manager_authority(manager_authority) {
        return Err(Error::Marinade(e));
    }
    let validator = match state.validator_system.get(validator_list_data, validator_index) {
        Ok(v) => v,
        Err(e) => {
            return Err(Error::Program(e));
        },
    };
    let stake = state.stake_system.get_checked(stake_list_data, stake_index, stake_account)?;
    // check the account is not already in emergency_unstake
    if stake.is_emergency_unstaking != 0 {
        return Err(Error::Marinade(MarinadeError::StakeAccountIsEmergencyUnstaking));
    }
    // check amount currently_staked in this account
    // and that the account is delegated to the validator_index sent
    match check_stake_amount_and_validator(stake_delegation, stake.last_update_delegated_lamports, &validator.validator_account) {
        Ok(()) => {},
        Err(e) => {
            return Err(Error::Marinade(e));
        },
    }
    // total target stake: current total active stake +/- delta
    let total_stake_delta = state.stake_delta(reserve_balance);
    let total_stake_target: u64 = (state.validator_system.total_active_balance as i128 + total_stake_delta) as u64;
    let validator_stake_target = match state.validator_system.validator_stake_target(&validator, total_stake_target) {
        Ok(t) => t,
        Err(e) => {
            return Err(Error::Marinade(e));
        },
    };
    // if validator is already on-target (or the split would be lower than min_stake), exit now
    if validator.active_balance <= validator_stake_target + state.stake_system.min_stake {
        return Ok(ManagerRedelegateOutcome::TargetReached { validator_stake_target });
    }
    // how much can be moved from this validator, and cap the amount to it
    let max_redelegate_from_validator = validator.active_balance - validator_stake_target;
    let re_delegate_amount = if desired_redelegate_amount > max_redelegate_from_validator {
        max_redelegate_from_validator
    } else {
        desired_redelegate_amount
    };
    // how much this particular account will have after split
    let stake_account_after = stake.last_update_delegated_lamports.saturating_sub(re_delegate_amount);
    let dest = match state.validator_system.get(validator_list_data, dest_validator_index) {
        Ok(v) => v,
        Err(e) => {
            return Err(Error::Program(e));
        },
    };
    // verify dest_validator_account matches
    if !dest_validator_account.same_key(&dest.validator_account) {
        return Err(Error::Marinade(MarinadeError::IncorrectDestValidatorAccountOrIndex));
    }
    let dest_target = match state.validator_system.validator_stake_target(&dest, total_stake_target) {
        Ok(t) => t,
        Err(e) => {
            return Err(Error::Marinade(e));
        },
    };
    // if added stake will put the validator over target, reject
    if dest.active_balance + re_delegate_amount > dest_target {
        return Err(Error::Marinade(MarinadeError::RedelegateOverTarget));
    }
    let whole = stake_account_after < state.stake_system.min_stake;
    match state.stake_system.stake_list.check_push(stake_list_data.len()) {
        Ok(()) => {},
        Err(e) => {
            return Err(Error::Program(e));
        },
    }
    let capacity = match state.stake_system.stake_list_capacity(stake_list_data.len()) {
        Ok(c) => c,
        Err(e) => {
            return Err(Error::Program(e));
        },
    };
    if !whole && state.stake_system.stake_count() + 1 >= capacity {
        return Err(Error::Program(ProgramError::AccountDataTooSmall));
    }
    if state.validator_system.validator_list.is_changing_account() {
        return Err(Error::Program(ProgramError::InvalidAccountData));
    }
    let ghost before = stake_list_data@;
    let ghost list0 = state.stake_system.stake_list;
    let count = state.stake_system.stake_count();
    let (updated_stake, amount) = if whole {
        // the account will be cooling down: all its lamports move to the redelegated account
        (StakeRecord { is_emergency_unstaking: 1, last_update_delegated_lamports: 0, ..stake }, stake.last_update_delegated_lamports)
    } else {
        // the split account will be deactivating after the move, with no lamports accounted
        let added = state.stake_system.add(stake_list_data, split_stake_account, 0, epoch, 1);
        proof {
            assert(added is Ok);
        }
        (
            StakeRecord { last_update_delegated_lamports: stake.last_update_delegated_lamports - re_delegate_amount, ..stake },
            re_delegate_amount,
        )
    };
    proof {
        if !whole {
            assert(list0.item_size > 0);
            crate::list::lemma_slot_within_capacity(list0, before.len() as usize, count + 1);
            crate::list::lemma_write_slot_keeps_other_items(
                list0,
                before,
                count as int,
                count + 1,
                spec_encode_stake_record(
                    StakeRecord {
                        stake_account: *split_stake_account,
                        last_update_delegated_lamports: 0,
                        last_update_epoch: epoch,
                        is_emergency_unstaking: 1,
                        last_update_status: StakeStatus::Active,
                    },
                ),
            );
        }
    }
    // the redelegated account carries the moved lamports
    let redelegate_index = state.stake_system.stake_count();
    let added = state.stake_system.add(stake_list_data, redelegate_stake_account, amount, epoch, 0);
    proof {
        assert(added is Ok);
    }
    let moved_source = ValidatorRecord { active_balance: validator.active_balance - amount, ..validator };
    let moved_dest = ValidatorRecord { active_balance: dest.active_balance + amount, ..dest };
    let set_stake = state.stake_system.set(stake_list_data, stake_index, updated_stake);
    let set_source = state.validator_system.set(validator_list_data, validator_index, moved_source);
    let set_dest = state.validator_system.set(validator_list_data, dest_validator_index, moved_dest);
    proof {
        assert(set_stake is Ok);
        assert(set_source is Ok);
        assert(set_dest is Ok);
    }
    if whole {
        Ok(ManagerRedelegateOutcome::RedelegateWhole { amount, redelegate_stake_index: redelegate_index })
    } else {
        Ok(ManagerRedelegateOutcome::RedelegateSplit { amount, split_stake_index: count, redelegate_stake_index: redelegate_index })
    }
}

/// Unstaking on the manager's demand moves stake from active stake to emergency cooling down:
/// the lamports under control stay the same, and so does the mSOL price.
pub proof fn lemma_emergency_unstake_keeps_price(s: State, amount: u64, stake_system: StakeSystem, x: u64)
    requires
        amount <= s.validator_system.total_active_balance,
        s.emergency_cooling_down + amount <= u64::MAX,
        stake_system.delayed_unstake_cooling_down == s.stake_system.delayed_unstake_cooling_down,
    ensures
        ({
            let after = State {
                validator_system: ValidatorSystem {
                    total_active_balance: (s.validator_system.total_active_balance - amount) as u64,
                    ..s.validator_system
                },
                stake_system,
                emergency_cooling_down: (s.emergency_cooling_down + amount) as u64,
                ..s
            };
            &&& crate::state::spec_total_lamports_under_control(after) == crate::state::spec_total_lamports_under_control(s)
            &&& crate::state::spec_msol_to_sol(after, x) == crate::state::spec_msol_to_sol(s, x)
        }),
{
    let after = State {
        validator_system: ValidatorSystem {
            total_active_balance: (s.validator_system.total_active_balance - amount) as u64,
            ..s.validator_system
        },
        stake_system,
        emergency_cooling_down: (s.emergency_cooling_down + amount) as u64,
        ..s
    };
    crate::state::lemma_price_follows_totals(after, s, x);
}


/// A manager's unstake removes the desired amount capped by what the validator holds above its
/// target, split off the stake account when at least the minimal stake stays in it; otherwise
/// the whole account goes.
pub proof fn lemma_partial_unstake_amount(
    s: State,
    st: StakeRecord,
    v: ValidatorRecord,
    reserve_balance: u64,
    desired_unstake_amount: u64,
)
    requires
        spec_delta_validator_target(s, v, reserve_balance) is Ok,
        v.active_balance >= spec_delta_validator_target(s, v, reserve_balance)->Ok_0,
    ensures
        ({
            let (whole, amount) = spec_partial_unstake_amount(s, st, v, reserve_balance, desired_unstake_amount);
            let above: int = v.active_balance - spec_delta_validator_target(s, v, reserve_balance)->Ok_0;
            let wanted: int = if desired_unstake_amount < above {
                desired_unstake_amount as int
            } else {
                above
            };
            let kept: int = if st.last_update_delegated_lamports >= wanted {
                st.last_update_delegated_lamports - wanted
            } else {
                0
            };
            &&& whole <==> kept < s.stake_system.min_stake
            &&& whole ==> amount == st.last_update_delegated_lamports
            &&& !whole ==> amount == wanted && amount <= desired_unstake_amount && amount <= above
            &&& !whole && st.last_update_delegated_lamports >= wanted ==> st.last_update_delegated_lamports - amount
                >= s.stake_system.min_stake
        }),
{
}

} // verus!
