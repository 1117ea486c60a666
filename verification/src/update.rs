//! Decisions of the crank's update runs: rewards and slashes of stake accounts, protocol fees,
//! the reserve and the mSOL price, and the re-count of delinquent stake after an upgrade.
//!
//! Each run checks everything the instruction checks, then updates the state and the lists
//! and answers what the caller must move (lamports into the reserve, mSOL to the treasury).
//! When it fails, nothing was changed.
use vstd::prelude::*;

use crate::checks::Delegation;
use crate::error::{Error, MarinadeError, ProgramError};
use crate::fee::{spec_apply_rate, MAX_BASIS_POINTS};
use crate::list::slot_after_write;
use crate::pubkey::Pubkey;
use crate::stake_system::{spec_encode_stake_record, stake_record_decodes, StakeRecord, StakeStatus, StakeSystem};
use crate::state::{
    spec_calc_msol_from_lamports, spec_msol_to_sol, totals_fit, DelinquentUpgraderState, State, PRICE_DENOMINATOR,
};
use crate::validator_system::{spec_encode_validator_record, ValidatorRecord, ValidatorSystem};

verus! {

/// mSOL the treasury gets for `lamports` of rewards: the reward fee's share of them, valued at
/// the price of `s`.
pub open spec fn spec_protocol_fee_msol(s: State, lamports: u64) -> Result<u64, MarinadeError> {
    spec_calc_msol_from_lamports(s, spec_apply_rate(lamports, s.reward_fee.basis_points, MAX_BASIS_POINTS))
}

/// Accounts the protocol fee on `lamports_incoming` of rewards, as mSOL minted to the treasury
/// at the current price (the caller mints them); answers the mSOL.
pub fn mint_protocol_fees(state: &mut State, lamports_incoming: u64) -> (r: Result<u64, MarinadeError>)
    requires
        totals_fit(*old(state)),
        spec_protocol_fee_msol(*old(state), lamports_incoming) is Ok ==> old(state).msol_supply
            + spec_protocol_fee_msol(*old(state), lamports_incoming)->Ok_0 <= u64::MAX,
    ensures
        r == spec_protocol_fee_msol(*old(state), lamports_incoming),
        r is Ok ==> *final(state) == (State { msol_supply: (old(state).msol_supply + r->Ok_0) as u64, ..*old(state) }),
        r is Err ==> *final(state) == *old(state),
{
    // apply x% protocol fee on staking rewards
    let protocol_rewards_fee = state.reward_fee.apply(lamports_incoming);
    // compute mSOL amount for protocol_rewards_fee
    let fee_as_msol_amount = state.calc_msol_from_lamports(protocol_rewards_fee)?;
    if fee_as_msol_amount > 0 {
        state.on_msol_mint(fee_as_msol_amount);
    }
    Ok(fee_as_msol_amount)
}

/// The first update of a stake record after the program upgrade (status `Unknown`): the record
/// becomes `Active` and, while the upgrader iterates stakes, its balance is counted with the
/// validator's; neither count may exceed the balance it re-counts. `None` where the program
/// would panic.
pub open spec fn spec_delinquent_upgrade(s: State, st: StakeRecord, v: ValidatorRecord) -> Option<
    Result<(State, StakeRecord, ValidatorRecord), Error>,
> {
    if st.last_update_status != StakeStatus::Unknown {
        Some(Ok((s, st, v)))
    } else {
        match s.delinquent_upgrader {
            DelinquentUpgraderState::IteratingStakes {
                visited_count,
                total_active_balance,
                total_delinquent_balance,
            } => {
                let counted = total_active_balance + st.last_update_delegated_lamports;
                let counted_validator = v.delinquent_upgrader_active_balance + st.last_update_delegated_lamports;
                if visited_count + 1 > u32::MAX || counted > u64::MAX {
                    None
                } else if counted > s.validator_system.total_active_balance {
                    Some(Err(Error::Marinade(MarinadeError::UpgradingInvariantViolation)))
                } else if counted_validator > u64::MAX {
                    None
                } else if counted_validator > v.active_balance {
                    Some(Err(Error::Marinade(MarinadeError::UpgradingInvariantViolation)))
                } else {
                    Some(
                        Ok(
                            (
                                State {
                                    delinquent_upgrader: DelinquentUpgraderState::IteratingStakes {
                                        visited_count: (visited_count + 1) as u32,
                                        total_active_balance: counted as u64,
                                        total_delinquent_balance,
                                    },
                                    ..s
                                },
                                StakeRecord { last_update_status: StakeStatus::Active, ..st },
                                ValidatorRecord { delinquent_upgrader_active_balance: counted_validator as u64, ..v },
                            ),
                        ),
                    )
                }
            },
            _ => Some(Err(Error::Marinade(MarinadeError::UpgradingInvariantViolation))),
        }
    }
}

/// Upgrades a stake record seen for the first time since the program upgrade.
pub fn delinquent_upgrade(state: &mut State, stake: &mut StakeRecord, validator: &mut ValidatorRecord) -> (r: Result<
    (),
    Error,
>)
    requires
        spec_delinquent_upgrade(*old(state), *old(stake), *old(validator)) is Some,
    ensures
        r is Ok <==> spec_delinquent_upgrade(*old(state), *old(stake), *old(validator))->Some_0 is Ok,
        r is Ok ==> (*final(state), *final(stake), *final(validator)) == spec_delinquent_upgrade(
            *old(state),
            *old(stake),
            *old(validator),
        )->Some_0->Ok_0,
        r is Err ==> r->Err_0 == spec_delinquent_upgrade(*old(state), *old(stake), *old(validator))->Some_0->Err_0
            && *final(state) == *old(state) && *final(stake) == *old(stake) && *final(validator) == *old(validator),
{
    match stake.last_update_status {
        StakeStatus::Unknown => {},
        _ => {
            return Ok(());
        },
    }
    match state.delinquent_upgrader {
        DelinquentUpgraderState::IteratingStakes { visited_count, total_active_balance, total_delinquent_balance } => {
            let counted = total_active_balance + stake.last_update_delegated_lamports;
            if counted > state.validator_system.total_active_balance {
                return Err(Error::Marinade(MarinadeError::UpgradingInvariantViolation));
            }
            let counted_validator = validator.delinquent_upgrader_active_balance + stake.last_update_delegated_lamports;
            if counted_validator > validator.active_balance {
                return Err(Error::Marinade(MarinadeError::UpgradingInvariantViolation));
            }
            state.delinquent_upgrader =
            DelinquentUpgraderState::IteratingStakes {
                visited_count: visited_count + 1,
                total_active_balance: counted,
                total_delinquent_balance,
            };
            stake.last_update_status = StakeStatus::Active;
            validator.delinquent_upgrader_active_balance = counted_validator;
            Ok(())
        },
        _ => Err(Error::Marinade(MarinadeError::UpgradingInvariantViolation)),
    }
}

/// Rewards grow the validator's and the total active stake, and the counts of a running
/// upgrader. `None` where the program would panic.
pub open spec fn spec_account_rewards(s: State, v: ValidatorRecord, rewards: u64) -> Option<(State, ValidatorRecord)> {
    let balance = v.active_balance + rewards;
    let total = s.validator_system.total_active_balance + rewards;
    if balance > u64::MAX || total > u64::MAX {
        None
    } else {
        let s1 = State {
            validator_system: ValidatorSystem { total_active_balance: total as u64, ..s.validator_system },
            ..s
        };
        let v1 = ValidatorRecord { active_balance: balance as u64, ..v };
        match s.delinquent_upgrader {
            DelinquentUpgraderState::IteratingStakes {
                visited_count,
                total_active_balance,
                total_delinquent_balance,
            } => if v.delinquent_upgrader_active_balance + rewards > u64::MAX || total_active_balance + rewards
                > u64::MAX {
                None
            } else {
                Some(
                    (
                        State {
                            delinquent_upgrader: DelinquentUpgraderState::IteratingStakes {
                                visited_count,
                                total_active_balance: (total_active_balance + rewards) as u64,
                                total_delinquent_balance,
                            },
                            ..s1
                        },
                        ValidatorRecord {
                            delinquent_upgrader_active_balance: (v.delinquent_upgrader_active_balance
                                + rewards) as u64,
                            ..v1
                        },
                    ),
                )
            },
            _ => Some((s1, v1)),
        }
    }
}

/// When the upgrader has visited every stake record, its count of active stake must be the
/// active stake, and it moves on to the validators with the delinquent balance found.
pub open spec fn spec_upgrade_progression(s: State) -> Result<State, Error> {
    match s.delinquent_upgrader {
        DelinquentUpgraderState::IteratingStakes {
            visited_count,
            total_active_balance,
            total_delinquent_balance,
        } => if visited_count == s.stake_system.stake_list.count {
            if total_active_balance != s.validator_system.total_active_balance {
                Err(Error::Marinade(MarinadeError::UpgradingInvariantViolation))
            } else {
                Ok(
                    State {
                        delinquent_upgrader: DelinquentUpgraderState::IteratingValidators {
                            visited_count: 0,
                            delinquent_balance_left: total_delinquent_balance,
                        },
                        ..s
                    },
                )
            }
        } else {
            Ok(s)
        },
        _ => Ok(s),
    }
}

/// Moves the upgrader from stakes to validators once every stake record was visited.
pub fn check_delinquent_upgrade_state_progression(state: &mut State) -> (r: Result<(), Error>)
    ensures
        r is Ok <==> spec_upgrade_progression(*old(state)) is Ok,
        r is Ok ==> *final(state) == spec_upgrade_progression(*old(state))->Ok_0,
        r is Err ==> r->Err_0 == spec_upgrade_progression(*old(state))->Err_0 && *final(state) == *old(state),
{
    match state.delinquent_upgrader {
        DelinquentUpgraderState::IteratingStakes { visited_count, total_active_balance, total_delinquent_balance } => {
            if visited_count == state.stake_system.stake_count() {
                if total_active_balance != state.validator_system.total_active_balance {
                    return Err(Error::Marinade(MarinadeError::UpgradingInvariantViolation));
                }
                state.delinquent_upgrader =
                DelinquentUpgraderState::IteratingValidators {
                    visited_count: 0,
                    delinquent_balance_left: total_delinquent_balance,
                };
            }
            Ok(())
        },
        _ => Ok(()),
    }
}

/// What every update run does first: the reserve balance and the mSOL supply are taken from
/// their accounts; mSOL minted outside the program closes staking (cap set to zero).
pub open spec fn spec_update_begin(s: State, reserve_balance: u64, msol_mint_supply: u64) -> State {
    State {
        available_reserve_balance: if reserve_balance >= s.rent_exempt_for_token_acc {
            (reserve_balance - s.rent_exempt_for_token_acc) as u64
        } else {
            0
        },
        staking_sol_cap: if msol_mint_supply > s.msol_supply {
            0
        } else {
            s.staking_sol_cap
        },
        msol_supply: msol_mint_supply,
        ..s
    }
}

/// The stake record at `stake_index` (of `stake_account`) and the record of the validator its
/// delegation names, at `validator_index`; or the error of the first lookup that fails.
pub open spec fn spec_update_records(
    s: State,
    stake_list: Seq<u8>,
    validator_list: Seq<u8>,
    stake_index: u32,
    validator_index: u32,
    stake_account: Pubkey,
    delegation: Option<Delegation>,
) -> Result<(StakeRecord, ValidatorRecord, Delegation), Error> {
    let st = s.stake_system.record_at(stake_list, stake_index as int);
    let v = s.validator_system.record_at(validator_list, validator_index as int);
    if stake_index >= s.stake_system.stake_list.count {
        Err(Error::Program(ProgramError::InvalidArgument))
    } else if !stake_record_decodes(s.stake_system.stake_list.item_at(stake_list, stake_index as int)) {
        Err(Error::Program(ProgramError::BorshIoError))
    } else if st.stake_account@ != stake_account@ {
        Err(Error::Marinade(MarinadeError::WrongStakeAccountOrIndex))
    } else {
        match delegation {
            None => Err(Error::Marinade(MarinadeError::StakeNotDelegated)),
            Some(d) => if validator_index >= s.validator_system.validator_list.count {
                Err(Error::Program(ProgramError::InvalidArgument))
            } else if v.validator_account@ != d.voter_pubkey@ {
                Err(Error::Marinade(MarinadeError::WrongValidatorAccountOrIndex))
            } else {
                Ok((st, v, d))
            },
        }
    }
}

fn update_records(
    state: &State,
    stake_list_data: &Vec<u8>,
    validator_list_data: &Vec<u8>,
    stake_index: u32,
    validator_index: u32,
    stake_account: &Pubkey,
    delegation: &Option<Delegation>,
) -> (r: Result<(StakeRecord, ValidatorRecord, Delegation), Error>)
    requires
        state.stake_system.list_fits(stake_list_data@),
        state.validator_system.list_fits(validator_list_data@),
    ensures
        r == spec_update_records(
            *state,
            stake_list_data@,
            validator_list_data@,
            stake_index,
            validator_index,
            *stake_account,
            *delegation,
        ),
{
    let stake = state.stake_system.get_checked(stake_list_data, stake_index, stake_account)?;
    let d = match delegation {
        Some(d) => *d,
        None => {
            return Err(Error::Marinade(MarinadeError::StakeNotDelegated));
        },
    };
    let validator = state.validator_system.get_checked(validator_list_data, validator_index, &d.voter_pubkey)?;
    Ok((stake, validator, d))
}

/// What an update of an active stake account found and what the caller must move.
#[derive(Clone, Copy, Debug, PartialEq, Eq)]
pub struct UpdateActiveOutcome {
    /// Lamports above delegation and rent (mostly MEV rewards), to withdraw into the reserve.
    pub extra_lamports: u64,
    /// mSOL to mint to the treasury for the extra lamports (`None`: the treasury takes no fees).
    pub extra_msol_fees: Option<u64>,
    /// mSOL to mint to the treasury for the delegation's growth (`None`: the treasury takes no
    /// fees).
    pub delegation_growth_msol_fees: Option<u64>,
    pub old_msol_price: u64,
    pub new_msol_price: u64,
}

/// The end of an active update: the records are written (the lists must not be moving), the
/// price is recomputed, the reserve must hold what the state accounts and the upgrader may
/// move on. `None` where the program would panic.
pub open spec fn spec_update_active_end(
    s: State,
    st: StakeRecord,
    v: ValidatorRecord,
    delegated: u64,
    extra: u64,
    extra_fees: Option<u64>,
    growth_fees: Option<u64>,
    epoch: u64,
    reserve_balance: u64,
) -> Option<Result<(State, StakeRecord, ValidatorRecord, UpdateActiveOutcome), Error>> {
    if s.validator_system.validator_list.spec_is_changing_account() {
        Some(Err(Error::Program(ProgramError::InvalidAccountData)))
    } else if !totals_fit(s) {
        None
    } else {
        match spec_msol_to_sol(s, PRICE_DENOMINATOR) {
            Err(e) => Some(Err(Error::Marinade(e))),
            Ok(price) => {
                let s1 = State { msol_price: price, ..s };
                if s1.stake_system.stake_list.spec_is_changing_account() {
                    Some(Err(Error::Program(ProgramError::InvalidAccountData)))
                } else if s1.available_reserve_balance + s1.rent_exempt_for_token_acc != reserve_balance + extra {
                    None
                } else {
                    match spec_upgrade_progression(s1) {
                        Err(e) => Some(Err(e)),
                        Ok(s2) => Some(
                            Ok(
                                (
                                    s2,
                                    StakeRecord {
                                        last_update_epoch: epoch,
                                        last_update_delegated_lamports: delegated,
                                        ..st
                                    },
                                    v,
                                    UpdateActiveOutcome {
                                        extra_lamports: extra,
                                        extra_msol_fees: extra_fees,
                                        delegation_growth_msol_fees: growth_fees,
                                        old_msol_price: s.msol_price,
                                        new_msol_price: price,
                                    },
                                ),
                            ),
                        ),
                    }
                }
            },
        }
    }
}

/// An update of an active stake account, once its records are found and checked: the stake
/// record is upgraded when new; lamports above delegation and rent go to the reserve, with
/// the protocol fee on them; the delegation's growth is rewards (with the fee) and its shrink
/// a slash, both moving the validator's and the total active stake. `None` where the program
/// would panic.
#[verifier::opaque]
pub open spec fn spec_update_active_found(
    s: State,
    st: StakeRecord,
    v: ValidatorRecord,
    d: Delegation,
    stake_lamports: u64,
    stake_rent_exempt_reserve: u64,
    reserve_balance: u64,
    treasury_ready: bool,
    epoch: u64,
) -> Option<Result<(State, StakeRecord, ValidatorRecord, UpdateActiveOutcome), Error>> {
    if d.deactivation_epoch != u64::MAX || st.last_update_status == StakeStatus::Deactivating {
        Some(Err(Error::Marinade(MarinadeError::RequiredActiveStake)))
    } else {
        match spec_delinquent_upgrade(s, st, v) {
            None => None,
            Some(Err(e)) => Some(Err(e)),
            Some(Ok((s2, st2, v2))) => if stake_lamports < stake_rent_exempt_reserve {
                None
            } else {
                let balance = stake_lamports - stake_rent_exempt_reserve;
                let extra: u64 = if balance > d.stake {
                    (balance - d.stake) as u64
                } else {
                    0
                };
                if s2.available_reserve_balance + extra > u64::MAX {
                    None
                } else {
                    let s3 = State { available_reserve_balance: (s2.available_reserve_balance + extra) as u64, ..s2 };
                    let fees = if extra > 0 {
                        spec_fees_if_ready(s3, extra, treasury_ready)
                    } else {
                        Some(Ok((s3, if treasury_ready { Some(0u64) } else { None })))
                    };
                    match fees {
                        None => None,
                        Some(Err(e)) => Some(Err(e)),
                        Some(Ok((s4, extra_fees))) => if d.stake >= st2.last_update_delegated_lamports {
                            let rewards = (d.stake - st2.last_update_delegated_lamports) as u64;
                            match spec_fees_if_ready(s4, rewards, treasury_ready) {
                                None => None,
                                Some(Err(e)) => Some(Err(e)),
                                Some(Ok((s5, growth_fees))) => match spec_account_rewards(s5, v2, rewards) {
                                    None => None,
                                    Some((s6, v3)) => spec_update_active_end(
                                        s6,
                                        st2,
                                        v3,
                                        d.stake,
                                        extra,
                                        extra_fees,
                                        growth_fees,
                                        epoch,
                                        reserve_balance,
                                    ),
                                },
                            }
                        } else {
                            let slashed = (st2.last_update_delegated_lamports - d.stake) as u64;
                            match spec_account_slash(s4, v2, slashed) {
                                None => None,
                                Some((s6, v3)) => spec_update_active_end(
                                    s6,
                                    st2,
                                    v3,
                                    d.stake,
                                    extra,
                                    extra_fees,
                                    if treasury_ready {
                                        Some(0u64)
                                    } else {
                                        None
                                    },
                                    epoch,
                                    reserve_balance,
                                ),
                            }
                        },
                    }
                }
            },
        }
    }
}

/// An update of an active stake account: the state, stake record and validator record after
/// it and what it found, or its error; `None` where the program would panic.
pub open spec fn spec_update_active(
    s: State,
    stake_list: Seq<u8>,
    validator_list: Seq<u8>,
    stake_index: u32,
    validator_index: u32,
    stake_account: Pubkey,
    delegation: Option<Delegation>,
    stake_lamports: u64,
    stake_rent_exempt_reserve: u64,
    reserve_balance: u64,
    msol_mint_supply: u64,
    treasury_ready: bool,
    epoch: u64,
) -> Option<Result<(State, StakeRecord, ValidatorRecord, UpdateActiveOutcome), Error>> {
    if s.paused {
        Some(Err(Error::Marinade(MarinadeError::ProgramIsPaused)))
    } else if !totals_fit(s) {
        None
    } else {
        match spec_update_records(s, stake_list, validator_list, stake_index, validator_index, stake_account, delegation) {
            Err(e) => Some(Err(e)),
            Ok((st, v, d)) => spec_update_active_found(
                spec_update_begin(s, reserve_balance, msol_mint_supply),
                st,
                v,
                d,
                stake_lamports,
                stake_rent_exempt_reserve,
                reserve_balance,
                treasury_ready,
                epoch,
            ),
        }
    }
}

/// Updates an active stake account at the end of an epoch: accounts its rewards or slash into
/// the validator's and the total active stake, moves lamports above delegation and rent into
/// the reserve, takes the protocol fee on rewards as mSOL for the treasury (when the treasury
/// account is an mSOL token account) and recomputes the mSOL price. The reserve balance and
/// mSOL supply are re-read from their accounts first.
pub fn update_active(
    state: &mut State,
    validator_list_data: &mut Vec<u8>,
    stake_list_data: &mut Vec<u8>,
    stake_index: u32,
    validator_index: u32,
    stake_account: &Pubkey,
    delegation: &Option<Delegation>,
    stake_lamports: u64,
    stake_rent_exempt_reserve: u64,
    reserve_balance: u64,
    msol_mint_supply: u64,
    treasury_msol_owner: &Pubkey,
    treasury_msol_data: &Vec<u8>,
    epoch: u64,
) -> (r: Result<UpdateActiveOutcome, Error>)
    requires
        old(state).stake_system.list_fits(old(stake_list_data)@),
        old(state).validator_system.list_fits(old(validator_list_data)@),
        spec_update_active(
            *old(state),
            old(stake_list_data)@,
            old(validator_list_data)@,
            stake_index,
            validator_index,
            *stake_account,
            *delegation,
            stake_lamports,
            stake_rent_exempt_reserve,
            reserve_balance,
            msol_mint_supply,
            crate::state::spec_treasury_msol_balance(*old(state), *treasury_msol_owner, treasury_msol_data@) is Some,
            epoch,
        ) is Some,
    ensures
        ({
            let res = spec_update_active(
                *old(state),
                old(stake_list_data)@,
                old(validator_list_data)@,
                stake_index,
                validator_index,
                *stake_account,
                *delegation,
                stake_lamports,
                stake_rent_exempt_reserve,
                reserve_balance,
                msol_mint_supply,
                crate::state::spec_treasury_msol_balance(*old(state), *treasury_msol_owner, treasury_msol_data@) is Some,
                epoch,
            )->Some_0;
            &&& r is Ok <==> res is Ok
            &&& r is Err ==> r->Err_0 == res->Err_0 && *final(state) == *old(state) && final(stake_list_data)@ == old(
                stake_list_data,
            )@ && final(validator_list_data)@ == old(validator_list_data)@
            &&& r is Ok ==> {
                let (s2, st2, v2, outcome) = res->Ok_0;
                &&& r->Ok_0 == outcome
                &&& *final(state) == s2
                &&& old(state).stake_system.items(final(stake_list_data)@) == old(state).stake_system.items(
                    old(stake_list_data)@,
                ).update(
                    stake_index as int,
                    slot_after_write(
                        old(state).stake_system.items(old(stake_list_data)@)[stake_index as int],
                        spec_encode_stake_record(st2),
                    ),
                )
                &&& old(state).validator_system.items(final(validator_list_data)@) == old(state).validator_system.items(
                    old(validator_list_data)@,
                ).update(
                    validator_index as int,
                    slot_after_write(
                        old(state).validator_system.items(old(validator_list_data)@)[validator_index as int],
                        spec_encode_validator_record(v2),
                    ),
                )
            }
        }),
{
    if state.paused {
        return Err(Error::Marinade(MarinadeError::ProgramIsPaused));
    }
    let treasury_ready = match state.get_treasury_msol_balance(treasury_msol_owner, treasury_msol_data) {
        Some(_) => true,
        None => false,
    };
    let (stake, validator, d) = update_records(
        state,
        stake_list_data,
        validator_list_data,
        stake_index,
        validator_index,
        stake_account,
        delegation,
    )?;
    // the accounting happens on a copy, committed when nothing can fail any more
    let mut s = *state;
    // Update reserve balance
    s.available_reserve_balance = reserve_balance.saturating_sub(s.rent_exempt_for_token_acc);
    // mSOL minted outside of the program closes staking
    if msol_mint_supply > s.msol_supply {
        s.staking_sol_cap = 0;
    }
    s.msol_supply = msol_mint_supply;
    let (s2, updated_stake, updated_validator, outcome) = match try_update_active_found(
        s,
        stake,
        validator,
        d,
        stake_lamports,
        stake_rent_exempt_reserve,
        reserve_balance,
        treasury_ready,
        epoch,
    ) {
        Some(Ok(x)) => x,
        Some(Err(e)) => {
            return Err(e);
        },
        None => {
            // excluded by the precondition
            return Err(Error::Program(ProgramError::InvalidArgument));
        },
    };
    let set_validator = state.validator_system.set(validator_list_data, validator_index, updated_validator);
    let set_stake = state.stake_system.set(stake_list_data, stake_index, updated_stake);
    proof {
        assert(set_validator is Ok);
        assert(set_stake is Ok);
    }
    *state = s2;
    Ok(outcome)
}

/// What an update of a deactivated stake account found and what the caller must move.
#[derive(Clone, Copy, Debug, PartialEq, Eq)]
pub struct UpdateDeactivatedOutcome {
    /// All lamports of the stake account, to withdraw into the reserve.
    pub withdrawn_to_reserve: u64,
    /// The account's rent reserve, to send from the reserve to the operational account.
    pub rent_to_operational: u64,
    /// mSOL to mint to the treasury for the rewards (`None`: the treasury takes no fees).
    pub msol_fees: Option<u64>,
    pub old_msol_price: u64,
    pub new_msol_price: u64,
}

/// The settling of a deactivated update once the fee is taken: the stake's lamports enter the
/// reserve, its rent leaves it, the cooling-down balance is released and the price recomputed;
/// `None` where the program would panic.
pub open spec fn spec_deactivated_settle(
    s2: State,
    msol_fees: Option<u64>,
    v1: Option<ValidatorRecord>,
    stake_lamports: u64,
    stake_rent_exempt_reserve: u64,
    delegated: u64,
    emergency: bool,
) -> Option<Result<(State, Option<ValidatorRecord>, UpdateDeactivatedOutcome), Error>> {
    if s2.available_reserve_balance + stake_lamports > u64::MAX {
        None
    } else {
        let s3 = State { available_reserve_balance: (s2.available_reserve_balance + stake_lamports) as u64, ..s2 };
        // the rent goes on to the operational account (when the accounted reserve holds it)
        let s4 = if stake_rent_exempt_reserve <= s3.available_reserve_balance {
            State {
                available_reserve_balance: (s3.available_reserve_balance - stake_rent_exempt_reserve) as u64,
                ..s3
            }
        } else {
            s3
        };
        match spec_release_cooling_down(s4, delegated, emergency) {
            None => None,
            Some(s5) => if !totals_fit(s5) {
                None
            } else {
                match spec_msol_to_sol(s5, PRICE_DENOMINATOR) {
                    Err(e) => Some(Err(Error::Marinade(e))),
                    Ok(price) => if s5.stake_system.stake_list.spec_is_changing_account() {
                        Some(Err(Error::Program(ProgramError::InvalidAccountData)))
                    } else {
                        Some(
                            Ok(
                                (
                                    State { msol_price: price, ..s5 },
                                    v1,
                                    UpdateDeactivatedOutcome {
                                        withdrawn_to_reserve: stake_lamports,
                                        rent_to_operational: stake_rent_exempt_reserve,
                                        msol_fees,
                                        old_msol_price: s5.msol_price,
                                        new_msol_price: price,
                                    },
                                ),
                            ),
                        )
                    },
                }
            },
        }
    }
}

/// An update of a deactivated stake account, once its records are found: an account still
/// recorded active was deactivated from outside (delinquent) and is emergency unstaked first;
/// lamports above the recorded delegation are rewards (with the protocol fee); all lamports go
/// to the reserve and the rent on to the operational account; its cooling-down balance is
/// released and the price recomputed. Answers the state, the validator record (written when it
/// changed) and the outcome; `None` where the program would panic.
#[verifier::opaque]
pub open spec fn spec_update_deactivated_found(
    s: State,
    st: StakeRecord,
    v: ValidatorRecord,
    d: Delegation,
    stake_lamports: u64,
    stake_rent_exempt_reserve: u64,
    treasury_ready: bool,
) -> Option<Result<(State, Option<ValidatorRecord>, UpdateDeactivatedOutcome), Error>> {
    if d.deactivation_epoch == u64::MAX {
        Some(Err(Error::Marinade(MarinadeError::RequiredDeactivatingStake)))
    } else if st.last_update_status == StakeStatus::Active && st.is_emergency_unstaking != 0 {
        Some(Err(Error::Marinade(MarinadeError::StakeAccountIsEmergencyUnstaking)))
    } else if st.last_update_status == StakeStatus::Active && (s.emergency_cooling_down
        + st.last_update_delegated_lamports > u64::MAX || s.validator_system.total_active_balance
        < st.last_update_delegated_lamports || v.active_balance < st.last_update_delegated_lamports) {
        None
    } else if st.last_update_status == StakeStatus::Active && s.validator_system.validator_list.spec_is_changing_account() {
        Some(Err(Error::Program(ProgramError::InvalidAccountData)))
    } else if stake_lamports < stake_rent_exempt_reserve {
        None
    } else {
        let delinquent = st.last_update_status == StakeStatus::Active;
        let s1 = if delinquent {
            State {
                emergency_cooling_down: (s.emergency_cooling_down + st.last_update_delegated_lamports) as u64,
                validator_system: ValidatorSystem {
                    total_active_balance: (s.validator_system.total_active_balance
                        - st.last_update_delegated_lamports) as u64,
                    ..s.validator_system
                },
                ..s
            }
        } else {
            s
        };
        let v1 = if delinquent {
            Some(ValidatorRecord { active_balance: (v.active_balance - st.last_update_delegated_lamports) as u64, ..v })
        } else {
            None
        };
        let emergency = delinquent || st.is_emergency_unstaking != 0;
        let balance = (stake_lamports - stake_rent_exempt_reserve) as u64;
        let fees = if balance >= st.last_update_delegated_lamports {
            spec_fees_if_ready(s1, (balance - st.last_update_delegated_lamports) as u64, treasury_ready)
        } else {
            Some(Ok((s1, if treasury_ready { Some(0u64) } else { None })))
        };
        match fees {
            None => None,
            Some(Err(e)) => Some(Err(e)),
            Some(Ok((s2, msol_fees))) => spec_deactivated_settle(
                s2,
                msol_fees,
                v1,
                stake_lamports,
                stake_rent_exempt_reserve,
                st.last_update_delegated_lamports,
                emergency,
            ),
        }
    }
}

/// An update of a deactivated stake account: the state, the validator record written (when
/// one is) and what it found, or its error; `None` where the program would panic.
pub open spec fn spec_update_deactivated(
    s: State,
    stake_list: Seq<u8>,
    validator_list: Seq<u8>,
    stake_index: u32,
    validator_index: u32,
    stake_account: Pubkey,
    delegation: Option<Delegation>,
    stake_lamports: u64,
    stake_rent_exempt_reserve: u64,
    reserve_balance: u64,
    msol_mint_supply: u64,
    treasury_ready: bool,
) -> Option<Result<(State, Option<ValidatorRecord>, UpdateDeactivatedOutcome), Error>> {
    if s.paused {
        Some(Err(Error::Marinade(MarinadeError::ProgramIsPaused)))
    } else if !totals_fit(s) {
        None
    } else {
        match spec_update_records(s, stake_list, validator_list, stake_index, validator_index, stake_account, delegation) {
            Err(e) => Some(Err(e)),
            Ok((st, v, d)) => match spec_update_deactivated_found(
                spec_update_begin(s, reserve_balance, msol_mint_supply),
                st,
                v,
                d,
                stake_lamports,
                stake_rent_exempt_reserve,
                treasury_ready,
            ) {
                None => None,
                Some(Err(e)) => Some(Err(e)),
                // the stake record is removed, then the upgrader may move on
                Some(Ok((s1, v1, outcome))) => {
                    let s2 = State {
                        stake_system: StakeSystem {
                            stake_list: crate::list::List {
                                count: (s1.stake_system.stake_list.count - 1) as u32,
                                ..s1.stake_system.stake_list
                            },
                            ..s1.stake_system
                        },
                        ..s1
                    };
                    match spec_upgrade_progression(s2) {
                        Err(e) => Some(Err(e)),
                        Ok(s3) => Some(Ok((s3, v1, outcome))),
                    }
                },
            },
        }
    }
}

/// Updates a deactivated stake account: its lamports (rewards included, with the protocol fee
/// for the treasury) go to the reserve and its rent on to the operational account, its
/// cooling-down balance is released, the mSOL price is recomputed and its record is removed
/// from the stake list (the last record takes its place). A stake account deactivated from
/// outside while recorded active is emergency unstaked first.
pub fn update_deactivated(
    state: &mut State,
    validator_list_data: &mut Vec<u8>,
    stake_list_data: &mut Vec<u8>,
    stake_index: u32,
    validator_index: u32,
    stake_account: &Pubkey,
    delegation: &Option<Delegation>,
    stake_lamports: u64,
    stake_rent_exempt_reserve: u64,
    reserve_balance: u64,
    msol_mint_supply: u64,
    treasury_msol_owner: &Pubkey,
    treasury_msol_data: &Vec<u8>,
) -> (r: Result<UpdateDeactivatedOutcome, Error>)
    requires
        old(state).stake_system.list_fits(old(stake_list_data)@),
        old(state).validator_system.list_fits(old(validator_list_data)@),
        spec_update_deactivated(
            *old(state),
            old(stake_list_data)@,
            old(validator_list_data)@,
            stake_index,
            validator_index,
            *stake_account,
            *delegation,
            stake_lamports,
            stake_rent_exempt_reserve,
            reserve_balance,
            msol_mint_supply,
            crate::state::spec_treasury_msol_balance(*old(state), *treasury_msol_owner, treasury_msol_data@) is Some,
        ) is Some,
    ensures
        ({
            let res = spec_update_deactivated(
                *old(state),
                old(stake_list_data)@,
                old(validator_list_data)@,
                stake_index,
                validator_index,
                *stake_account,
                *delegation,
                stake_lamports,
                stake_rent_exempt_reserve,
                reserve_balance,
                msol_mint_supply,
                crate::state::spec_treasury_msol_balance(*old(state), *treasury_msol_owner, treasury_msol_data@) is Some,
            )->Some_0;
            &&& r is Ok <==> res is Ok
            &&& r is Err ==> r->Err_0 == res->Err_0 && *final(state) == *old(state) && final(stake_list_data)@ == old(
                stake_list_data,
            )@ && final(validator_list_data)@ == old(validator_list_data)@
            &&& r is Ok ==> {
                let (s2, v2, outcome) = res->Ok_0;
                &&& r->Ok_0 == outcome
                &&& *final(state) == s2
                &&& final(state).stake_system.items(final(stake_list_data)@) == crate::list::swap_remove(
                    old(state).stake_system.items(old(stake_list_data)@),
                    stake_index as int,
                )
                &&& v2 is None ==> final(validator_list_data)@ == old(validator_list_data)@
                &&& v2 is Some ==> old(state).validator_system.items(final(validator_list_data)@)
                    == old(state).validator_system.items(old(validator_list_data)@).update(
                    validator_index as int,
                    slot_after_write(
                        old(state).validator_system.items(old(validator_list_data)@)[validator_index as int],
                        spec_encode_validator_record(v2->Some_0),
                    ),
                )
            }
        }),
{
    if state.paused {
        return Err(Error::Marinade(MarinadeError::ProgramIsPaused));
    }
    let treasury_ready = match state.get_treasury_msol_balance(treasury_msol_owner, treasury_msol_data) {
        Some(_) => true,
        None => false,
    };
    let (stake, validator, d) = update_records(
        state,
        stake_list_data,
        validator_list_data,
        stake_index,
        validator_index,
        stake_account,
        delegation,
    )?;
    // the accounting happens on a copy, committed when nothing can fail any more
    let mut s = *state;
    // Update reserve balance
    s.available_reserve_balance = reserve_balance.saturating_sub(s.rent_exempt_for_token_acc);
    // mSOL minted outside of the program closes staking
    if msol_mint_supply > s.msol_supply {
        s.staking_sol_cap = 0;
    }
    s.msol_supply = msol_mint_supply;
    let (s, updated_validator, outcome) = match try_update_deactivated_found(
        s,
        stake,
        validator,
        d,
        stake_lamports,
        stake_rent_exempt_reserve,
        treasury_ready,
    ) {
        Some(Ok(x)) => x,
        Some(Err(e)) => {
            return Err(e);
        },
        None => {
            // excluded by the precondition
            return Err(Error::Program(ProgramError::InvalidArgument));
        },
    };
    // the stake list shrinks before the upgrader checks its progress
    let mut after = s;
    after.stake_system.stake_list.count = s.stake_system.stake_list.count - 1;
    check_delinquent_upgrade_state_progression(&mut after)?;
    let mut stake_system = s.stake_system;
    let removed = stake_system.remove(stake_list_data, stake_index);
    proof {
        assert(removed is Ok);
        assert(stake_system.stake_list == after.stake_system.stake_list);
    }
    match updated_validator {
        Some(v) => {
            let set_validator = state.validator_system.set(validator_list_data, validator_index, v);
            proof {
                assert(set_validator is Ok);
            }
        },
        None => {},
    }
    *state = after;
    Ok(outcome)
}

/// Whether the lamports under control fit 64 bits.
fn exec_totals_fit(s: &State) -> (r: bool)
    ensures
        r == totals_fit(*s),
{
    let total = s.validator_system.total_active_balance as u128 + s.stake_system.delayed_unstake_cooling_down as u128
        + s.emergency_cooling_down as u128 + s.available_reserve_balance as u128;
    total <= u64::MAX as u128
}

/// The protocol fee on `lamports` when the treasury takes fees; `None` where the program
/// would panic.
fn try_fees(s: State, lamports: u64, treasury_ready: bool) -> (r: Option<Result<(State, Option<u64>), Error>>)
    ensures
        r == spec_fees_if_ready(s, lamports, treasury_ready),
{
    if !treasury_ready {
        return Some(Ok((s, None)));
    }
    if !exec_totals_fit(&s) {
        return None;
    }
    let fee = s.reward_fee.apply(lamports);
    match s.calc_msol_from_lamports(fee) {
        Err(e) => Some(Err(Error::Marinade(e))),
        Ok(m) => match s.msol_supply.checked_add(m) {
            None => None,
            Some(supply) => Some(Ok((State { msol_supply: supply, ..s }, Some(m)))),
        },
    }
}

/// The first-visit upgrade of a stake record; `None` where the program would panic.
fn try_delinquent_upgrade(s: State, st: StakeRecord, v: ValidatorRecord) -> (r: Option<
    Result<(State, StakeRecord, ValidatorRecord), Error>,
>)
    ensures
        r == spec_delinquent_upgrade(s, st, v),
{
    match st.last_update_status {
        StakeStatus::Unknown => {},
        _ => {
            return Some(Ok((s, st, v)));
        },
    }
    match s.delinquent_upgrader {
        DelinquentUpgraderState::IteratingStakes { visited_count, total_active_balance, total_delinquent_balance } => {
            if visited_count == u32::MAX {
                return None;
            }
            let counted = match total_active_balance.checked_add(st.last_update_delegated_lamports) {
                Some(c) => c,
                None => {
                    return None;
                },
            };
            if counted > s.validator_system.total_active_balance {
                return Some(Err(Error::Marinade(MarinadeError::UpgradingInvariantViolation)));
            }
            let counted_validator = match v.delinquent_upgrader_active_balance.checked_add(st.last_update_delegated_lamports) {
                Some(c) => c,
                None => {
                    return None;
                },
            };
            if counted_validator > v.active_balance {
                return Some(Err(Error::Marinade(MarinadeError::UpgradingInvariantViolation)));
            }
            Some(
                Ok(
                    (
                        State {
                            delinquent_upgrader: DelinquentUpgraderState::IteratingStakes {
                                visited_count: visited_count + 1,
                                total_active_balance: counted,
                                total_delinquent_balance,
                            },
                            ..s
                        },
                        StakeRecord { last_update_status: StakeStatus::Active, ..st },
                        ValidatorRecord { delinquent_upgrader_active_balance: counted_validator, ..v },
                    ),
                ),
            )
        },
        _ => Some(Err(Error::Marinade(MarinadeError::UpgradingInvariantViolation))),
    }
}

/// Rewards added to the validator's and the total active stake; `None` where the program
/// would panic.
fn try_account_rewards(s: State, v: ValidatorRecord, rewards: u64) -> (r: Option<(State, ValidatorRecord)>)
    ensures
        r == spec_account_rewards(s, v, rewards),
{
    let balance = match v.active_balance.checked_add(rewards) {
        Some(b) => b,
        None => {
            return None;
        },
    };
    let total = match s.validator_system.total_active_balance.checked_add(rewards) {
        Some(t) => t,
        None => {
            return None;
        },
    };
    let s1 = State { validator_system: ValidatorSystem { total_active_balance: total, ..s.validator_system }, ..s };
    let v1 = ValidatorRecord { active_balance: balance, ..v };
    match s.delinquent_upgrader {
        DelinquentUpgraderState::IteratingStakes { visited_count, total_active_balance, total_delinquent_balance } => {
            let counted_validator = match v.delinquent_upgrader_active_balance.checked_add(rewards) {
                Some(c) => c,
                None => {
                    return None;
                },
            };
            let counted = match total_active_balance.checked_add(rewards) {
                Some(c) => c,
                None => {
                    return None;
                },
            };
            Some(
                (
                    State {
                        delinquent_upgrader: DelinquentUpgraderState::IteratingStakes {
                            visited_count,
                            total_active_balance: counted,
                            total_delinquent_balance,
                        },
                        ..s1
                    },
                    ValidatorRecord { delinquent_upgrader_active_balance: counted_validator, ..v1 },
                ),
            )
        },
        _ => Some((s1, v1)),
    }
}

/// A slash taken from the validator's and the total active stake; `None` where the program
/// would panic.
fn try_account_slash(s: State, v: ValidatorRecord, slashed: u64) -> (r: Option<(State, ValidatorRecord)>)
    ensures
        r == spec_account_slash(s, v, slashed),
{
    if v.active_balance < slashed || s.validator_system.total_active_balance < slashed {
        return None;
    }
    let s1 = State {
        validator_system: ValidatorSystem {
            total_active_balance: s.validator_system.total_active_balance - slashed,
            ..s.validator_system
        },
        ..s
    };
    let v1 = ValidatorRecord { active_balance: v.active_balance - slashed, ..v };
    match s.delinquent_upgrader {
        DelinquentUpgraderState::IteratingStakes { visited_count, total_active_balance, total_delinquent_balance } => {
            if v.delinquent_upgrader_active_balance < slashed || total_active_balance < slashed {
                return None;
            }
            Some(
                (
                    State {
                        delinquent_upgrader: DelinquentUpgraderState::IteratingStakes {
                            visited_count,
                            total_active_balance: total_active_balance - slashed,
                            total_delinquent_balance,
                        },
                        ..s1
                    },
                    ValidatorRecord { delinquent_upgrader_active_balance: v.delinquent_upgrader_active_balance - slashed, ..v1 },
                ),
            )
        },
        _ => Some((s1, v1)),
    }
}

/// The end of an active update; `None` where the program would panic.
fn try_update_active_end(
    s: State,
    stake: StakeRecord,
    validator: ValidatorRecord,
    delegated: u64,
    extra: u64,
    extra_fees: Option<u64>,
    growth_fees: Option<u64>,
    epoch: u64,
    reserve_balance: u64,
) -> (r: Option<Result<(State, StakeRecord, ValidatorRecord, UpdateActiveOutcome), Error>>)
    ensures
        r == spec_update_active_end(s, stake, validator, delegated, extra, extra_fees, growth_fees, epoch, reserve_balance),
{
    if s.validator_system.validator_list.is_changing_account() {
        return Some(Err(Error::Program(ProgramError::InvalidAccountData)));
    }
    if !exec_totals_fit(&s) {
        return None;
    }
    let price = match s.msol_to_sol(PRICE_DENOMINATOR) {
        Ok(p) => p,
        Err(e) => {
            return Some(Err(Error::Marinade(e)));
        },
    };
    let s1 = State { msol_price: price, ..s };
    if s1.stake_system.stake_list.is_changing_account() {
        return Some(Err(Error::Program(ProgramError::InvalidAccountData)));
    }
    if s1.available_reserve_balance as u128 + s1.rent_exempt_for_token_acc as u128 != reserve_balance as u128
        + extra as u128 {
        return None;
    }
    let mut s2 = s1;
    match check_delinquent_upgrade_state_progression(&mut s2) {
        Err(e) => Some(Err(e)),
        Ok(()) => Some(
            Ok(
                (
                    s2,
                    StakeRecord { last_update_epoch: epoch, last_update_delegated_lamports: delegated, ..stake },
                    validator,
                    UpdateActiveOutcome {
                        extra_lamports: extra,
                        extra_msol_fees: extra_fees,
                        delegation_growth_msol_fees: growth_fees,
                        old_msol_price: s.msol_price,
                        new_msol_price: price,
                    },
                ),
            ),
        ),
    }
}

/// The accounting of an active update once its records are found; `None` where the program
/// would panic.
#[verifier::rlimit(60)]
fn try_update_active_found(
    s: State,
    st: StakeRecord,
    v: ValidatorRecord,
    d: Delegation,
    stake_lamports: u64,
    stake_rent_exempt_reserve: u64,
    reserve_balance: u64,
    treasury_ready: bool,
    epoch: u64,
) -> (r: Option<Result<(State, StakeRecord, ValidatorRecord, UpdateActiveOutcome), Error>>)
    ensures
        r == spec_update_active_found(
            s,
            st,
            v,
            d,
            stake_lamports,
            stake_rent_exempt_reserve,
            reserve_balance,
            treasury_ready,
            epoch,
        ),
        r matches Some(Ok(x)) ==> !s.validator_system.validator_list.spec_is_changing_account()
            && !s.stake_system.stake_list.spec_is_changing_account(),
{
    reveal(spec_update_active_found);
    if d.deactivation_epoch != u64::MAX {
        return Some(Err(Error::Marinade(MarinadeError::RequiredActiveStake)));
    }
    match st.last_update_status {
        StakeStatus::Deactivating => {
            return Some(Err(Error::Marinade(MarinadeError::RequiredActiveStake)));
        },
        _ => {},
    }
    let (s2, st2, v2) = match try_delinquent_upgrade(s, st, v) {
        None => {
            return None;
        },
        Some(Err(e)) => {
            return Some(Err(e));
        },
        Some(Ok(x)) => x,
    };
    if stake_lamports < stake_rent_exempt_reserve {
        return None;
    }
    let balance = stake_lamports - stake_rent_exempt_reserve;
    let extra: u64 = if balance > d.stake {
        balance - d.stake
    } else {
        0
    };
    let available = match s2.available_reserve_balance.checked_add(extra) {
        Some(a) => a,
        None => {
            return None;
        },
    };
    let s3 = State { available_reserve_balance: available, ..s2 };
    let fees = if extra > 0 {
        try_fees(s3, extra, treasury_ready)
    } else {
        Some(Ok((s3, if treasury_ready { Some(0u64) } else { None })))
    };
    let (s4, extra_fees) = match fees {
        None => {
            return None;
        },
        Some(Err(e)) => {
            return Some(Err(e));
        },
        Some(Ok(x)) => x,
    };
    if d.stake >= st2.last_update_delegated_lamports {
        let rewards = d.stake - st2.last_update_delegated_lamports;
        let (s5, growth_fees) = match try_fees(s4, rewards, treasury_ready) {
            None => {
                return None;
            },
            Some(Err(e)) => {
                return Some(Err(e));
            },
            Some(Ok(x)) => x,
        };
        match try_account_rewards(s5, v2, rewards) {
            None => None,
            Some((s6, v3)) => try_update_active_end(
                s6,
                st2,
                v3,
                d.stake,
                extra,
                extra_fees,
                growth_fees,
                epoch,
                reserve_balance,
            ),
        }
    } else {
        let slashed = st2.last_update_delegated_lamports - d.stake;
        match try_account_slash(s4, v2, slashed) {
            None => None,
            Some((s6, v3)) => try_update_active_end(
                s6,
                st2,
                v3,
                d.stake,
                extra,
                extra_fees,
                if treasury_ready {
                    Some(0u64)
                } else {
                    None
                },
                epoch,
                reserve_balance,
            ),
        }
    }
}

/// The cooling-down balance a deactivated stake leaves; `None` where the program would panic.
fn try_release_cooling_down(s: State, delegated: u64, emergency: bool) -> (r: Option<State>)
    ensures
        r == spec_release_cooling_down(s, delegated, emergency),
{
    if delegated == 0 {
        return Some(s);
    }
    match s.delinquent_upgrader {
        DelinquentUpgraderState::IteratingStakes { visited_count, total_active_balance, total_delinquent_balance } => {
            let cooling = if emergency {
                s.emergency_cooling_down
            } else {
                s.stake_system.delayed_unstake_cooling_down
            };
            let available = if cooling < delegated {
                cooling
            } else {
                delegated
            };
            let delinquent = delegated - available;
            let s1 = if emergency {
                State { emergency_cooling_down: s.emergency_cooling_down - available, ..s }
            } else {
                State {
                    stake_system: StakeSystem {
                        delayed_unstake_cooling_down: s.stake_system.delayed_unstake_cooling_down - available,
                        ..s.stake_system
                    },
                    ..s
                }
            };
            let total_delinquent = match total_delinquent_balance.checked_add(delinquent) {
                Some(t) => t,
                None => {
                    return None;
                },
            };
            if s.validator_system.total_active_balance < delinquent {
                return None;
            }
            Some(
                State {
                    delinquent_upgrader: DelinquentUpgraderState::IteratingStakes {
                        visited_count,
                        total_active_balance,
                        total_delinquent_balance: total_delinquent,
                    },
                    validator_system: ValidatorSystem {
                        total_active_balance: s.validator_system.total_active_balance - delinquent,
                        ..s.validator_system
                    },
                    ..s1
                },
            )
        },
        _ => {
            if emergency {
                if s.emergency_cooling_down < delegated {
                    None
                } else {
                    Some(State { emergency_cooling_down: s.emergency_cooling_down - delegated, ..s })
                }
            } else if s.stake_system.delayed_unstake_cooling_down < delegated {
                None
            } else {
                Some(
                    State {
                        stake_system: StakeSystem {
                            delayed_unstake_cooling_down: s.stake_system.delayed_unstake_cooling_down - delegated,
                            ..s.stake_system
                        },
                        ..s
                    },
                )
            }
        },
    }
}

/// The settling of a deactivated update once the fee is taken; `None` where the program would
/// panic.
fn try_deactivated_settle(
    s2: State,
    msol_fees: Option<u64>,
    v1: Option<ValidatorRecord>,
    stake_lamports: u64,
    stake_rent_exempt_reserve: u64,
    amount: u64,
    emergency: bool,
) -> (r: Option<Result<(State, Option<ValidatorRecord>, UpdateDeactivatedOutcome), Error>>)
    ensures
        r == spec_deactivated_settle(s2, msol_fees, v1, stake_lamports, stake_rent_exempt_reserve, amount, emergency),
        r matches Some(Ok(x)) ==> !s2.stake_system.stake_list.spec_is_changing_account() && x.0.stake_system.stake_list
            == s2.stake_system.stake_list && x.1 == v1,
{
    let available = match s2.available_reserve_balance.checked_add(stake_lamports) {
        Some(a) => a,
        None => {
            return None;
        },
    };
    let s3 = State { available_reserve_balance: available, ..s2 };
    let s4 = if stake_rent_exempt_reserve <= s3.available_reserve_balance {
        State { available_reserve_balance: s3.available_reserve_balance - stake_rent_exempt_reserve, ..s3 }
    } else {
        s3
    };
    let s5 = match try_release_cooling_down(s4, amount, emergency) {
        Some(x) => x,
        None => {
            return None;
        },
    };
    if !exec_totals_fit(&s5) {
        return None;
    }
    let price = match s5.msol_to_sol(PRICE_DENOMINATOR) {
        Ok(p) => p,
        Err(e) => {
            return Some(Err(Error::Marinade(e)));
        },
    };
    if s5.stake_system.stake_list.is_changing_account() {
        return Some(Err(Error::Program(ProgramError::InvalidAccountData)));
    }
    Some(
        Ok(
            (
                State { msol_price: price, ..s5 },
                v1,
                UpdateDeactivatedOutcome {
                    withdrawn_to_reserve: stake_lamports,
                    rent_to_operational: stake_rent_exempt_reserve,
                    msol_fees,
                    old_msol_price: s5.msol_price,
                    new_msol_price: price,
                },
            ),
        ),
    )
}

/// The accounting of a deactivated update once its records are found; `None` where the
/// program would panic.
#[verifier::rlimit(60)]
fn try_update_deactivated_found(
    s: State,
    st: StakeRecord,
    v: ValidatorRecord,
    d: Delegation,
    stake_lamports: u64,
    stake_rent_exempt_reserve: u64,
    treasury_ready: bool,
) -> (r: Option<Result<(State, Option<ValidatorRecord>, UpdateDeactivatedOutcome), Error>>)
    ensures
        r == spec_update_deactivated_found(s, st, v, d, stake_lamports, stake_rent_exempt_reserve, treasury_ready),
        r matches Some(Ok(x)) ==> !s.stake_system.stake_list.spec_is_changing_account() && (x.1 is Some
            ==> !s.validator_system.validator_list.spec_is_changing_account()) && x.0.stake_system.stake_list
            == s.stake_system.stake_list,
{
    reveal(spec_update_deactivated_found);
    if d.deactivation_epoch == u64::MAX {
        return Some(Err(Error::Marinade(MarinadeError::RequiredDeactivatingStake)));
    }
    let delinquent = match st.last_update_status {
        StakeStatus::Active => true,
        _ => false,
    };
    let amount = st.last_update_delegated_lamports;
    if delinquent && st.is_emergency_unstaking != 0 {
        return Some(Err(Error::Marinade(MarinadeError::StakeAccountIsEmergencyUnstaking)));
    }
    if delinquent && (s.emergency_cooling_down.checked_add(amount).is_none() || s.validator_system.total_active_balance
        < amount || v.active_balance < amount) {
        return None;
    }
    if delinquent && s.validator_system.validator_list.is_changing_account() {
        return Some(Err(Error::Program(ProgramError::InvalidAccountData)));
    }
    if stake_lamports < stake_rent_exempt_reserve {
        return None;
    }
    let s1 = if delinquent {
        State {
            emergency_cooling_down: s.emergency_cooling_down + amount,
            validator_system: ValidatorSystem {
                total_active_balance: s.validator_system.total_active_balance - amount,
                ..s.validator_system
            },
            ..s
        }
    } else {
        s
    };
    let v1 = if delinquent {
        Some(ValidatorRecord { active_balance: v.active_balance - amount, ..v })
    } else {
        None
    };
    let emergency = delinquent || st.is_emergency_unstaking != 0;
    let balance = stake_lamports - stake_rent_exempt_reserve;
    let fees = if balance >= amount {
        try_fees(s1, balance - amount, treasury_ready)
    } else {
        Some(Ok((s1, if treasury_ready { Some(0u64) } else { None })))
    };
    let (s2, msol_fees) = match fees {
        None => {
            return None;
        },
        Some(Err(e)) => {
            return Some(Err(e));
        },
        Some(Ok(x)) => x,
    };
    try_deactivated_settle(s2, msol_fees, v1, stake_lamports, stake_rent_exempt_reserve, amount, emergency)
}

/// The protocol fee on `lamports` when the treasury can take it (`None` as fee when it cannot):
/// the state after, or the error; `None` where the program would panic.
pub open spec fn spec_fees_if_ready(s: State, lamports: u64, treasury_ready: bool) -> Option<
    Result<(State, Option<u64>), Error>,
> {
    if !treasury_ready {
        Some(Ok((s, None)))
    } else if !totals_fit(s) {
        None
    } else {
        match spec_protocol_fee_msol(s, lamports) {
            Err(e) => Some(Err(Error::Marinade(e))),
            Ok(m) => if s.msol_supply + m > u64::MAX {
                None
            } else {
                Some(Ok((State { msol_supply: (s.msol_supply + m) as u64, ..s }, Some(m))))
            },
        }
    }
}

/// A slash shrinks the validator's and the total active stake, and the counts of a running
/// upgrader. `None` where the program would panic.
pub open spec fn spec_account_slash(s: State, v: ValidatorRecord, slashed: u64) -> Option<(State, ValidatorRecord)> {
    if v.active_balance < slashed || s.validator_system.total_active_balance < slashed {
        None
    } else {
        let s1 = State {
            validator_system: ValidatorSystem {
                total_active_balance: (s.validator_system.total_active_balance - slashed) as u64,
                ..s.validator_system
            },
            ..s
        };
        let v1 = ValidatorRecord { active_balance: (v.active_balance - slashed) as u64, ..v };
        match s.delinquent_upgrader {
            DelinquentUpgraderState::IteratingStakes {
                visited_count,
                total_active_balance,
                total_delinquent_balance,
            } => if v.delinquent_upgrader_active_balance < slashed || total_active_balance < slashed {
                None
            } else {
                Some(
                    (
                        State {
                            delinquent_upgrader: DelinquentUpgraderState::IteratingStakes {
                                visited_count,
                                total_active_balance: (total_active_balance - slashed) as u64,
                                total_delinquent_balance,
                            },
                            ..s1
                        },
                        ValidatorRecord {
                            delinquent_upgrader_active_balance: (v.delinquent_upgrader_active_balance
                                - slashed) as u64,
                            ..v1
                        },
                    ),
                )
            },
            _ => Some((s1, v1)),
        }
    }
}

/// The cooling-down balance a finished stake account leaves: while the upgrader iterates
/// stakes, what cooling down cannot cover is delinquent stake, counted by the upgrader and
/// taken from active stake. `None` where the program would panic.
pub open spec fn spec_release_cooling_down(s: State, delegated: u64, emergency: bool) -> Option<State> {
    if delegated == 0 {
        Some(s)
    } else if s.delinquent_upgrader is IteratingStakes {
        let cooling: u64 = if emergency {
            s.emergency_cooling_down
        } else {
            s.stake_system.delayed_unstake_cooling_down
        };
        let available: u64 = if cooling < delegated {
            cooling
        } else {
            delegated
        };
        let delinquent = delegated - available;
        let s1 = if emergency {
            State { emergency_cooling_down: (s.emergency_cooling_down - available) as u64, ..s }
        } else {
            State {
                stake_system: StakeSystem {
                    delayed_unstake_cooling_down: (s.stake_system.delayed_unstake_cooling_down - available) as u64,
                    ..s.stake_system
                },
                ..s
            }
        };
        let total_delinquent = s.delinquent_upgrader->IteratingStakes_total_delinquent_balance + delinquent;
        if total_delinquent > u64::MAX || s.validator_system.total_active_balance < delinquent {
            None
        } else {
            Some(
                State {
                    delinquent_upgrader: DelinquentUpgraderState::IteratingStakes {
                        visited_count: s.delinquent_upgrader->IteratingStakes_visited_count,
                        total_active_balance: s.delinquent_upgrader->IteratingStakes_total_active_balance,
                        total_delinquent_balance: total_delinquent as u64,
                    },
                    validator_system: ValidatorSystem {
                        total_active_balance: (s.validator_system.total_active_balance - delinquent) as u64,
                        ..s.validator_system
                    },
                    ..s1
                },
            )
        }
    } else if emergency {
        if s.emergency_cooling_down < delegated {
            None
        } else {
            Some(State { emergency_cooling_down: (s.emergency_cooling_down - delegated) as u64, ..s })
        }
    } else if s.stake_system.delayed_unstake_cooling_down < delegated {
        None
    } else {
        Some(
            State {
                stake_system: StakeSystem {
                    delayed_unstake_cooling_down: (s.stake_system.delayed_unstake_cooling_down - delegated) as u64,
                    ..s.stake_system
                },
                ..s
            },
        )
    }
}

/// Updates an active stake account as `update_active` does, wherever the program completes the update or
/// refuses it with an error; answers `None`, changing nothing, on the inputs where the program
/// would panic instead (an arithmetic overflow, or a reserve that does not hold what the state
/// accounts), which `update_active` does not take.
pub fn try_update_active(
    state: &mut State,
    validator_list_data: &mut Vec<u8>,
    stake_list_data: &mut Vec<u8>,
    stake_index: u32,
    validator_index: u32,
    stake_account: &Pubkey,
    delegation: &Option<Delegation>,
    stake_lamports: u64,
    stake_rent_exempt_reserve: u64,
    reserve_balance: u64,
    msol_mint_supply: u64,
    treasury_msol_owner: &Pubkey,
    treasury_msol_data: &Vec<u8>,
    epoch: u64,
) -> (r: Option<Result<UpdateActiveOutcome, Error>>)
    requires
        old(state).stake_system.list_fits(old(stake_list_data)@),
        old(state).validator_system.list_fits(old(validator_list_data)@),
    ensures
        (spec_update_active(
                *old(state),
                old(stake_list_data)@,
                old(validator_list_data)@,
                stake_index,
                validator_index,
                *stake_account,
                *delegation,
                stake_lamports,
                stake_rent_exempt_reserve,
                reserve_balance,
                msol_mint_supply,
                crate::state::spec_treasury_msol_balance(*old(state), *treasury_msol_owner, treasury_msol_data@) is Some,
                epoch,
            ) is None) <==> r is None,
        r is None ==> *final(state) == *old(state) && final(stake_list_data)@ == old(stake_list_data)@
            && final(validator_list_data)@ == old(validator_list_data)@,
        r is Some ==> ({
            let x = r->Some_0;
            let res = spec_update_active(
                *old(state),
                old(stake_list_data)@,
                old(validator_list_data)@,
                stake_index,
                validator_index,
                *stake_account,
                *delegation,
                stake_lamports,
                stake_rent_exempt_reserve,
                reserve_balance,
                msol_mint_supply,
                crate::state::spec_treasury_msol_balance(*old(state), *treasury_msol_owner, treasury_msol_data@) is Some,
                epoch,
            )->Some_0;
            &&& x is Ok <==> res is Ok
            &&& x is Err ==> x->Err_0 == res->Err_0 && *final(state) == *old(state) && final(stake_list_data)@ == old(
                stake_list_data,
            )@ && final(validator_list_data)@ == old(validator_list_data)@
            &&& x is Ok ==> {
                let (s2, st2, v2, outcome) = res->Ok_0;
                &&& x->Ok_0 == outcome
                &&& *final(state) == s2
                &&& old(state).stake_system.items(final(stake_list_data)@) == old(state).stake_system.items(
                    old(stake_list_data)@,
                ).update(
                    stake_index as int,
                    slot_after_write(
                        old(state).stake_system.items(old(stake_list_data)@)[stake_index as int],
                        spec_encode_stake_record(st2),
                    ),
                )
                &&& old(state).validator_system.items(final(validator_list_data)@) == old(state).validator_system.items(
                    old(validator_list_data)@,
                ).update(
                    validator_index as int,
                    slot_after_write(
                        old(state).validator_system.items(old(validator_list_data)@)[validator_index as int],
                        spec_encode_validator_record(v2),
                    ),
                )
            }
        
        }),
{
    if !state.paused {
        if !exec_totals_fit(state) {
            return None;
        }
        let treasury_ready = match state.get_treasury_msol_balance(treasury_msol_owner, treasury_msol_data) {
            Some(_) => true,
            None => false,
        };
        match update_records(
            state,
            stake_list_data,
            validator_list_data,
            stake_index,
            validator_index,
            stake_account,
            delegation,
        ) {
            Err(_) => {},
            Ok((stake, validator, d)) => {
                let mut s = *state;
                s.available_reserve_balance = reserve_balance.saturating_sub(s.rent_exempt_for_token_acc);
                if msol_mint_supply > s.msol_supply {
                    s.staking_sol_cap = 0;
                }
                s.msol_supply = msol_mint_supply;
                if try_update_active_found(s, stake, validator, d, stake_lamports, stake_rent_exempt_reserve, reserve_balance, treasury_ready, epoch).is_none() {
                    return None;
                }
            },
        }
    }
    Some(update_active(state, validator_list_data, stake_list_data, stake_index, validator_index, stake_account, delegation, stake_lamports, stake_rent_exempt_reserve, reserve_balance, msol_mint_supply, treasury_msol_owner, treasury_msol_data, epoch))
}

/// Updates a deactivated stake account as `update_deactivated` does, wherever the program completes the update or
/// refuses it with an error; answers `None`, changing nothing, on the inputs where the program
/// would panic instead (an arithmetic overflow, or a reserve that does not hold what the state
/// accounts), which `update_deactivated` does not take.
pub fn try_update_deactivated(
    state: &mut State,
    validator_list_data: &mut Vec<u8>,
    stake_list_data: &mut Vec<u8>,
    stake_index: u32,
    validator_index: u32,
    stake_account: &Pubkey,
    delegation: &Option<Delegation>,
    stake_lamports: u64,
    stake_rent_exempt_reserve: u64,
    reserve_balance: u64,
    msol_mint_supply: u64,
    treasury_msol_owner: &Pubkey,
    treasury_msol_data: &Vec<u8>,
) -> (r: Option<Result<UpdateDeactivatedOutcome, Error>>)
    requires
        old(state).stake_system.list_fits(old(stake_list_data)@),
        old(state).validator_system.list_fits(old(validator_list_data)@),
    ensures
        (spec_update_deactivated(
                *old(state),
                old(stake_list_data)@,
                old(validator_list_data)@,
                stake_index,
                validator_index,
                *stake_account,
                *delegation,
                stake_lamports,
                stake_rent_exempt_reserve,
                reserve_balance,
                msol_mint_supply,
                crate::state::spec_treasury_msol_balance(*old(state), *treasury_msol_owner, treasury_msol_data@) is Some,
            ) is None) <==> r is None,
        r is None ==> *final(state) == *old(state) && final(stake_list_data)@ == old(stake_list_data)@
            && final(validator_list_data)@ == old(validator_list_data)@,
        r is Some ==> ({
            let x = r->Some_0;
            let res = spec_update_deactivated(
                *old(state),
                old(stake_list_data)@,
                old(validator_list_data)@,
                stake_index,
                validator_index,
                *stake_account,
                *delegation,
                stake_lamports,
                stake_rent_exempt_reserve,
                reserve_balance,
                msol_mint_supply,
                crate::state::spec_treasury_msol_balance(*old(state), *treasury_msol_owner, treasury_msol_data@) is Some,
            )->Some_0;
            &&& x is Ok <==> res is Ok
            &&& x is Err ==> x->Err_0 == res->Err_0 && *final(state) == *old(state) && final(stake_list_data)@ == old(
                stake_list_data,
            )@ && final(validator_list_data)@ == old(validator_list_data)@
            &&& x is Ok ==> {
                let (s2, v2, outcome) = res->Ok_0;
                &&& x->Ok_0 == outcome
                &&& *final(state) == s2
                &&& final(state).stake_system.items(final(stake_list_data)@) == crate::list::swap_remove(
                    old(state).stake_system.items(old(stake_list_data)@),
                    stake_index as int,
                )
                &&& v2 is None ==> final(validator_list_data)@ == old(validator_list_data)@
                &&& v2 is Some ==> old(state).validator_system.items(final(validator_list_data)@)
                    == old(state).validator_system.items(old(validator_list_data)@).update(
                    validator_index as int,
                    slot_after_write(
                        old(state).validator_system.items(old(validator_list_data)@)[validator_index as int],
                        spec_encode_validator_record(v2->Some_0),
                    ),
                )
            }
        
        }),
{
    if !state.paused {
        if !exec_totals_fit(state) {
            return None;
        }
        let treasury_ready = match state.get_treasury_msol_balance(treasury_msol_owner, treasury_msol_data) {
            Some(_) => true,
            None => false,
        };
        match update_records(
            state,
            stake_list_data,
            validator_list_data,
            stake_index,
            validator_index,
            stake_account,
            delegation,
        ) {
            Err(_) => {},
            Ok((stake, validator, d)) => {
                let mut s = *state;
                s.available_reserve_balance = reserve_balance.saturating_sub(s.rent_exempt_for_token_acc);
                if msol_mint_supply > s.msol_supply {
                    s.staking_sol_cap = 0;
                }
                s.msol_supply = msol_mint_supply;
                if try_update_deactivated_found(s, stake, validator, d, stake_lamports, stake_rent_exempt_reserve, treasury_ready).is_none() {
                    return None;
                }
            },
        }
    }
    Some(update_deactivated(state, validator_list_data, stake_list_data, stake_index, validator_index, stake_account, delegation, stake_lamports, stake_rent_exempt_reserve, reserve_balance, msol_mint_supply, treasury_msol_owner, treasury_msol_data))
}

/// mSOL a fee mints: the amount where the treasury takes fees, nothing where it does not.
pub open spec fn spec_minted(fee: Option<u64>) -> int {
    match fee {
        Some(m) => m as int,
        None => 0,
    }
}

/// What the end of an active update leaves: the price of its state, the reserve matched.
proof fn lemma_update_active_end(
    s: State,
    st: StakeRecord,
    v: ValidatorRecord,
    delegated: u64,
    extra: u64,
    extra_fees: Option<u64>,
    growth_fees: Option<u64>,
    epoch: u64,
    reserve_balance: u64,
)
    requires
        spec_update_active_end(s, st, v, delegated, extra, extra_fees, growth_fees, epoch, reserve_balance) matches Some(
            Ok(_),
        ),
    ensures
        ({
            let (s2, st2, v2, out) = spec_update_active_end(
                s,
                st,
                v,
                delegated,
                extra,
                extra_fees,
                growth_fees,
                epoch,
                reserve_balance,
            )->Some_0->Ok_0;
            &&& s2.msol_price == out.new_msol_price
            &&& spec_msol_to_sol(s2, PRICE_DENOMINATOR) == Ok::<u64, MarinadeError>(s2.msol_price)
            &&& s2.available_reserve_balance + s2.rent_exempt_for_token_acc == reserve_balance + extra
            &&& out.old_msol_price == s.msol_price
            &&& out.extra_lamports == extra
            &&& out.extra_msol_fees == extra_fees
            &&& out.delegation_growth_msol_fees == growth_fees
            &&& s2.msol_supply == s.msol_supply
            &&& s2.validator_system.total_active_balance == s.validator_system.total_active_balance
            &&& st2 == (StakeRecord { last_update_epoch: epoch, last_update_delegated_lamports: delegated, ..st })
            &&& v2 == v
        }),
{
}

/// What an active update leaves once its records are found.
proof fn lemma_update_active_found(
    s: State,
    st: StakeRecord,
    v: ValidatorRecord,
    d: Delegation,
    stake_lamports: u64,
    stake_rent_exempt_reserve: u64,
    reserve_balance: u64,
    treasury_ready: bool,
    epoch: u64,
)
    requires
        spec_update_active_found(
            s,
            st,
            v,
            d,
            stake_lamports,
            stake_rent_exempt_reserve,
            reserve_balance,
            treasury_ready,
            epoch,
        ) matches Some(Ok(_)),
    ensures
        ({
            let (s2, st2, v2, out) = spec_update_active_found(
                s,
                st,
                v,
                d,
                stake_lamports,
                stake_rent_exempt_reserve,
                reserve_balance,
                treasury_ready,
                epoch,
            )->Some_0->Ok_0;
            &&& s2.msol_price == out.new_msol_price
            &&& spec_msol_to_sol(s2, PRICE_DENOMINATOR) == Ok::<u64, MarinadeError>(s2.msol_price)
            &&& s2.available_reserve_balance + s2.rent_exempt_for_token_acc == reserve_balance + out.extra_lamports
            &&& out.old_msol_price == s.msol_price
            &&& out.extra_lamports == (if stake_lamports - stake_rent_exempt_reserve > d.stake {
                stake_lamports - stake_rent_exempt_reserve - d.stake
            } else {
                0
            })
            &&& s2.msol_supply == s.msol_supply + spec_minted(out.extra_msol_fees) + spec_minted(
                out.delegation_growth_msol_fees,
            )
            &&& s2.validator_system.total_active_balance == s.validator_system.total_active_balance + d.stake
                - st.last_update_delegated_lamports
            &&& v2.active_balance == v.active_balance + d.stake - st.last_update_delegated_lamports
            &&& v2.validator_account == v.validator_account
            &&& st2.last_update_delegated_lamports == d.stake
            &&& st2.last_update_epoch == epoch
            &&& st2.stake_account == st.stake_account
            &&& treasury_ready ==> out.extra_msol_fees == Some(
                if out.extra_lamports > 0 {
                    spec_calc_msol_from_lamports(
                        State { available_reserve_balance: (s.available_reserve_balance + out.extra_lamports) as u64, ..s },
                        spec_apply_rate(out.extra_lamports, s.reward_fee.basis_points, MAX_BASIS_POINTS),
                    )->Ok_0
                } else {
                    0u64
                },
            )
            &&& treasury_ready && d.stake >= st.last_update_delegated_lamports ==> out.delegation_growth_msol_fees == Some(
                spec_calc_msol_from_lamports(
                    State {
                        available_reserve_balance: (s.available_reserve_balance + out.extra_lamports) as u64,
                        msol_supply: (s.msol_supply + spec_minted(out.extra_msol_fees)) as u64,
                        ..s
                    },
                    spec_apply_rate(
                        (d.stake - st.last_update_delegated_lamports) as u64,
                        s.reward_fee.basis_points,
                        MAX_BASIS_POINTS,
                    ),
                )->Ok_0,
            )
            &&& treasury_ready && d.stake < st.last_update_delegated_lamports ==> out.delegation_growth_msol_fees
                == Some(0u64)
            &&& !treasury_ready ==> out.extra_msol_fees is None && out.delegation_growth_msol_fees is None
        }),
{
    reveal(spec_update_active_found);
    lemma_no_fee_on_nothing(s);
    assert forall|
        s0: State,
        st0: StakeRecord,
        v0: ValidatorRecord,
        delegated: u64,
        extra: u64,
        ef: Option<u64>,
        gf: Option<u64>,
        ep: u64,
        rb: u64,
    |
        #[trigger] spec_update_active_end(s0, st0, v0, delegated, extra, ef, gf, ep, rb) matches Some(Ok(_)) implies {
        let (s2, st2, v2, out) = spec_update_active_end(s0, st0, v0, delegated, extra, ef, gf, ep, rb)->Some_0->Ok_0;
        &&& s2.msol_price == out.new_msol_price
        &&& spec_msol_to_sol(s2, PRICE_DENOMINATOR) == Ok::<u64, MarinadeError>(s2.msol_price)
        &&& s2.available_reserve_balance + s2.rent_exempt_for_token_acc == rb + extra
        &&& out.old_msol_price == s0.msol_price
        &&& out.extra_lamports == extra
        &&& out.extra_msol_fees == ef
        &&& out.delegation_growth_msol_fees == gf
        &&& s2.msol_supply == s0.msol_supply
        &&& s2.validator_system.total_active_balance == s0.validator_system.total_active_balance
        &&& st2 == (StakeRecord { last_update_epoch: ep, last_update_delegated_lamports: delegated, ..st0 })
        &&& v2 == v0
    } by {
        lemma_update_active_end(s0, st0, v0, delegated, extra, ef, gf, ep, rb);
    }
}

/// An update of an active stake account leaves the price of the state it leaves, and a
/// reserve that accounts exactly the reserve's lamports once the extra lamports moved in; the
/// validator's and the total active stake both move by the delegation's change since the last
/// update, which the stake record then holds; the mSOL supply is the mint's plus the fees
/// minted.
pub proof fn lemma_update_active_accounts(
    s: State,
    stake_list: Seq<u8>,
    validator_list: Seq<u8>,
    stake_index: u32,
    validator_index: u32,
    stake_account: Pubkey,
    delegation: Option<Delegation>,
    stake_lamports: u64,
    stake_rent_exempt_reserve: u64,
    reserve_balance: u64,
    msol_mint_supply: u64,
    treasury_ready: bool,
    epoch: u64,
)
    requires
        spec_update_active(
            s,
            stake_list,
            validator_list,
            stake_index,
            validator_index,
            stake_account,
            delegation,
            stake_lamports,
            stake_rent_exempt_reserve,
            reserve_balance,
            msol_mint_supply,
            treasury_ready,
            epoch,
        ) matches Some(Ok(_)),
    ensures
        ({
            let (st, v, d) = spec_update_records(
                s,
                stake_list,
                validator_list,
                stake_index,
                validator_index,
                stake_account,
                delegation,
            )->Ok_0;
            let (s2, st2, v2, out) = spec_update_active(
                s,
                stake_list,
                validator_list,
                stake_index,
                validator_index,
                stake_account,
                delegation,
                stake_lamports,
                stake_rent_exempt_reserve,
                reserve_balance,
                msol_mint_supply,
                treasury_ready,
                epoch,
            )->Some_0->Ok_0;
            &&& s2.msol_price == out.new_msol_price
            &&& out.old_msol_price == s.msol_price
            &&& spec_msol_to_sol(s2, PRICE_DENOMINATOR) == Ok::<u64, MarinadeError>(s2.msol_price)
            &&& s2.available_reserve_balance + s2.rent_exempt_for_token_acc == reserve_balance + out.extra_lamports
            &&& out.extra_lamports == (if stake_lamports - stake_rent_exempt_reserve > d.stake {
                stake_lamports - stake_rent_exempt_reserve - d.stake
            } else {
                0
            })
            &&& s2.msol_supply == msol_mint_supply + spec_minted(out.extra_msol_fees) + spec_minted(
                out.delegation_growth_msol_fees,
            )
            &&& s2.validator_system.total_active_balance == s.validator_system.total_active_balance + d.stake
                - st.last_update_delegated_lamports
            &&& v2.active_balance == v.active_balance + d.stake - st.last_update_delegated_lamports
            &&& v2.validator_account == v.validator_account
            &&& st2.last_update_delegated_lamports == d.stake
            &&& st2.last_update_epoch == epoch
            &&& st2.stake_account@ == stake_account@
            &&& treasury_ready ==> out.extra_msol_fees == Some(
                if out.extra_lamports > 0 {
                    spec_calc_msol_from_lamports(
                        State { available_reserve_balance: (spec_update_begin(s, reserve_balance, msol_mint_supply).available_reserve_balance + out.extra_lamports) as u64, ..spec_update_begin(s, reserve_balance, msol_mint_supply) },
                        spec_apply_rate(out.extra_lamports, spec_update_begin(s, reserve_balance, msol_mint_supply).reward_fee.basis_points, MAX_BASIS_POINTS),
                    )->Ok_0
                } else {
                    0u64
                },
            )
            &&& treasury_ready && d.stake >= st.last_update_delegated_lamports ==> out.delegation_growth_msol_fees == Some(
                spec_calc_msol_from_lamports(
                    State {
                        available_reserve_balance: (spec_update_begin(s, reserve_balance, msol_mint_supply).available_reserve_balance + out.extra_lamports) as u64,
                        msol_supply: (spec_update_begin(s, reserve_balance, msol_mint_supply).msol_supply + spec_minted(out.extra_msol_fees)) as u64,
                        ..spec_update_begin(s, reserve_balance, msol_mint_supply)
                    },
                    spec_apply_rate(
                        (d.stake - st.last_update_delegated_lamports) as u64,
                        spec_update_begin(s, reserve_balance, msol_mint_supply).reward_fee.basis_points,
                        MAX_BASIS_POINTS,
                    ),
                )->Ok_0,
            )
            &&& treasury_ready && d.stake < st.last_update_delegated_lamports ==> out.delegation_growth_msol_fees
                == Some(0u64)
            &&& !treasury_ready ==> out.extra_msol_fees is None && out.delegation_growth_msol_fees is None
        }),
{
    let (st, v, d) = spec_update_records(
        s,
        stake_list,
        validator_list,
        stake_index,
        validator_index,
        stake_account,
        delegation,
    )->Ok_0;
    lemma_update_active_found(
        spec_update_begin(s, reserve_balance, msol_mint_supply),
        st,
        v,
        d,
        stake_lamports,
        stake_rent_exempt_reserve,
        reserve_balance,
        treasury_ready,
        epoch,
    );
}

/// What the settling of a deactivated update leaves: the price of its state, the list untouched.
proof fn lemma_deactivated_settle(
    s2: State,
    msol_fees: Option<u64>,
    v1: Option<ValidatorRecord>,
    stake_lamports: u64,
    stake_rent_exempt_reserve: u64,
    delegated: u64,
    emergency: bool,
)
    requires
        spec_deactivated_settle(s2, msol_fees, v1, stake_lamports, stake_rent_exempt_reserve, delegated, emergency) matches Some(
            Ok(_),
        ),
    ensures
        ({
            let (s3, v3, out) = spec_deactivated_settle(
                s2,
                msol_fees,
                v1,
                stake_lamports,
                stake_rent_exempt_reserve,
                delegated,
                emergency,
            )->Some_0->Ok_0;
            &&& s3.msol_price == out.new_msol_price
            &&& spec_msol_to_sol(s3, PRICE_DENOMINATOR) == Ok::<u64, MarinadeError>(s3.msol_price)
            &&& out.old_msol_price == s2.msol_price
            &&& out.withdrawn_to_reserve == stake_lamports
            &&& out.rent_to_operational == stake_rent_exempt_reserve
            &&& out.msol_fees == msol_fees
            &&& s3.msol_supply == s2.msol_supply
            &&& s3.stake_system.stake_list == s2.stake_system.stake_list
            &&& v3 == v1
        }),
{
}

/// No mSOL is minted for no lamports, whatever the price.
proof fn lemma_no_fee_on_nothing(s: State)
    ensures
        forall|x: u64| x == 0 ==> #[trigger] spec_calc_msol_from_lamports(s, x) == Ok::<u64, MarinadeError>(0u64),
        forall|n: u64| #[trigger] spec_apply_rate(0u64, n as u32, MAX_BASIS_POINTS) == 0u64,
{
    assert(0 * (s.msol_supply as int) == 0);
    assert forall|n: u64| #[trigger] spec_apply_rate(0u64, n as u32, MAX_BASIS_POINTS) == 0u64 by {
        assert(0 * ((n as u32) as int) == 0);
    }
}

/// What a deactivated update leaves once its records are found.
proof fn lemma_update_deactivated_found(
    s: State,
    st: StakeRecord,
    v: ValidatorRecord,
    d: Delegation,
    stake_lamports: u64,
    stake_rent_exempt_reserve: u64,
    treasury_ready: bool,
)
    requires
        spec_update_deactivated_found(s, st, v, d, stake_lamports, stake_rent_exempt_reserve, treasury_ready) matches Some(
            Ok(_),
        ),
    ensures
        ({
            let (s3, v3, out) = spec_update_deactivated_found(
                s,
                st,
                v,
                d,
                stake_lamports,
                stake_rent_exempt_reserve,
                treasury_ready,
            )->Some_0->Ok_0;
            &&& s3.msol_price == out.new_msol_price
            &&& spec_msol_to_sol(s3, PRICE_DENOMINATOR) == Ok::<u64, MarinadeError>(s3.msol_price)
            &&& out.old_msol_price == s.msol_price
            &&& out.withdrawn_to_reserve == stake_lamports
            &&& out.rent_to_operational == stake_rent_exempt_reserve
            &&& s3.msol_supply == s.msol_supply + spec_minted(out.msol_fees)
            &&& s3.stake_system.stake_list == s.stake_system.stake_list
            &&& treasury_ready ==> out.msol_fees == Some(
                spec_calc_msol_from_lamports(
                    s,
                    spec_apply_rate(
                        if stake_lamports - stake_rent_exempt_reserve >= st.last_update_delegated_lamports {
                            (stake_lamports - stake_rent_exempt_reserve - st.last_update_delegated_lamports) as u64
                        } else {
                            0u64
                        },
                        s.reward_fee.basis_points,
                        MAX_BASIS_POINTS,
                    ),
                )->Ok_0,
            )
            &&& treasury_ready && stake_lamports - stake_rent_exempt_reserve <= st.last_update_delegated_lamports
                ==> out.msol_fees == Some(0u64)
            &&& !treasury_ready ==> out.msol_fees is None
        }),
{
    reveal(spec_update_deactivated_found);
    lemma_no_fee_on_nothing(s);
    assert forall|
        s2: State,
        fees: Option<u64>,
        v1: Option<ValidatorRecord>,
        lamports: u64,
        rent: u64,
        delegated: u64,
        emergency: bool,
    |
        #[trigger] spec_deactivated_settle(s2, fees, v1, lamports, rent, delegated, emergency) matches Some(Ok(_)) implies {
        let (s3, v3, out) = spec_deactivated_settle(s2, fees, v1, lamports, rent, delegated, emergency)->Some_0->Ok_0;
        &&& s3.msol_price == out.new_msol_price
        &&& spec_msol_to_sol(s3, PRICE_DENOMINATOR) == Ok::<u64, MarinadeError>(s3.msol_price)
        &&& out.old_msol_price == s2.msol_price
        &&& out.withdrawn_to_reserve == lamports
        &&& out.rent_to_operational == rent
        &&& out.msol_fees == fees
        &&& s3.msol_supply == s2.msol_supply
        &&& s3.stake_system.stake_list == s2.stake_system.stake_list
    } by {
        lemma_deactivated_settle(s2, fees, v1, lamports, rent, delegated, emergency);
    }
}

/// An update of a deactivated stake account removes one stake record, moves all the account's
/// lamports into the reserve and its rent on to the operational account, and leaves the price
/// of the state it leaves; the mSOL supply is the mint's plus the fees minted.
pub proof fn lemma_update_deactivated_accounts(
    s: State,
    stake_list: Seq<u8>,
    validator_list: Seq<u8>,
    stake_index: u32,
    validator_index: u32,
    stake_account: Pubkey,
    delegation: Option<Delegation>,
    stake_lamports: u64,
    stake_rent_exempt_reserve: u64,
    reserve_balance: u64,
    msol_mint_supply: u64,
    treasury_ready: bool,
)
    requires
        spec_update_deactivated(
            s,
            stake_list,
            validator_list,
            stake_index,
            validator_index,
            stake_account,
            delegation,
            stake_lamports,
            stake_rent_exempt_reserve,
            reserve_balance,
            msol_mint_supply,
            treasury_ready,
        ) matches Some(Ok(_)),
    ensures
        ({
            let st = spec_update_records(
                s,
                stake_list,
                validator_list,
                stake_index,
                validator_index,
                stake_account,
                delegation,
            )->Ok_0.0;
            let (s2, v2, out) = spec_update_deactivated(
                s,
                stake_list,
                validator_list,
                stake_index,
                validator_index,
                stake_account,
                delegation,
                stake_lamports,
                stake_rent_exempt_reserve,
                reserve_balance,
                msol_mint_supply,
                treasury_ready,
            )->Some_0->Ok_0;
            &&& s2.stake_system.stake_list.count == s.stake_system.stake_list.count - 1
            &&& s2.msol_price == out.new_msol_price
            &&& out.old_msol_price == s.msol_price
            &&& spec_msol_to_sol(s2, PRICE_DENOMINATOR) == Ok::<u64, MarinadeError>(s2.msol_price)
            &&& out.withdrawn_to_reserve == stake_lamports
            &&& out.rent_to_operational == stake_rent_exempt_reserve
            &&& s2.msol_supply == msol_mint_supply + spec_minted(out.msol_fees)
            &&& treasury_ready ==> out.msol_fees == Some(
                spec_calc_msol_from_lamports(
                    spec_update_begin(s, reserve_balance, msol_mint_supply),
                    spec_apply_rate(
                        if stake_lamports - stake_rent_exempt_reserve >= st.last_update_delegated_lamports {
                            (stake_lamports - stake_rent_exempt_reserve - st.last_update_delegated_lamports) as u64
                        } else {
                            0u64
                        },
                        s.reward_fee.basis_points,
                        MAX_BASIS_POINTS,
                    ),
                )->Ok_0,
            )
            &&& treasury_ready && stake_lamports - stake_rent_exempt_reserve <= st.last_update_delegated_lamports
                ==> out.msol_fees == Some(0u64)
            &&& !treasury_ready ==> out.msol_fees is None
        }),
{
    let (st, v, d) = spec_update_records(
        s,
        stake_list,
        validator_list,
        stake_index,
        validator_index,
        stake_account,
        delegation,
    )->Ok_0;
    lemma_update_deactivated_found(
        spec_update_begin(s, reserve_balance, msol_mint_supply),
        st,
        v,
        d,
        stake_lamports,
        stake_rent_exempt_reserve,
        treasury_ready,
    );
}

} // verus!
