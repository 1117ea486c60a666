//! Administration: authorities, protocol and pool parameters, emergency pause, list capacity.
use vstd::prelude::*;

use crate::error::{Error, MarinadeError};
use crate::fee::{Fee, FeeCents, MAX_BASIS_POINTS, MAX_BP_CENTS};
use crate::liq_pool::{spec_validate, LiqPool};
use crate::pubkey::Pubkey;
use crate::stake_system::{StakeSystem, MIN_UPDATE_WINDOW};
use crate::state::{
    State, MAX_DELAYED_UNSTAKE_FEE_BP_CENTS, MAX_REWARD_FEE_BASIS_POINTS, MAX_WITHDRAW_ATOM,
    MAX_WITHDRAW_STAKE_ACCOUNT_FEE_BP_CENTS,
};
use crate::validator_system::ValidatorSystem;

verus! {

/// New authorities; `None` keeps the current one.
#[derive(Clone, Copy, Debug, Default)]
pub struct ChangeAuthorityData {
    pub admin: Option<Pubkey>,
    pub validator_manager: Option<Pubkey>,
    pub operational_sol_account: Option<Pubkey>,
    pub treasury_msol_account: Option<Pubkey>,
    pub pause_authority: Option<Pubkey>,
}

/// `new` when given, else `current`.
pub open spec fn or_keep<T>(new: Option<T>, current: T) -> T {
    match new {
        Some(v) => v,
        None => current,
    }
}

fn keep_or<T: Copy>(new: Option<T>, current: T) -> (r: T)
    ensures
        r == or_keep(new, current),
{
    match new {
        Some(v) => v,
        None => current,
    }
}

/// A configured value before and after a change.
#[derive(Clone, Copy, Debug, PartialEq, Eq)]
pub struct ValueChange<T> {
    pub old: T,
    pub new: T,
}

/// The change that replacing `current` by `new` makes, when a new value is given.
pub open spec fn spec_change<T>(new: Option<T>, current: T) -> Option<ValueChange<T>> {
    match new {
        Some(v) => Some(ValueChange { old: current, new: v }),
        None => None,
    }
}

fn change_of<T: Copy>(new: Option<T>, current: T) -> (r: Option<ValueChange<T>>)
    ensures
        r == spec_change(new, current),
{
    match new {
        Some(v) => Some(ValueChange { old: current, new: v }),
        None => None,
    }
}

/// Which authorities an authority change replaced, and from what.
#[derive(Clone, Copy, Debug, PartialEq, Eq)]
pub struct AuthorityChanges {
    pub admin_change: Option<ValueChange<Pubkey>>,
    pub validator_manager_change: Option<ValueChange<Pubkey>>,
    pub operational_sol_account_change: Option<ValueChange<Pubkey>>,
    pub treasury_msol_account_change: Option<ValueChange<Pubkey>>,
    pub pause_authority_change: Option<ValueChange<Pubkey>>,
}

/// Replace the given authorities (signed by the admin authority); answers each replaced
/// authority with its old and new value.
pub fn change_authority(state: &mut State, admin_authority: &Pubkey, data: ChangeAuthorityData) -> (r: Result<
    AuthorityChanges,
    Error,
>)
    ensures
        r is Ok <==> admin_authority@ == old(state).admin_authority@,
        r is Err ==> r == Err::<AuthorityChanges, Error>(Error::Marinade(MarinadeError::InvalidAdminAuthority)) && *final(state)
            == *old(state),
        r is Ok ==> r->Ok_0 == (AuthorityChanges {
            admin_change: spec_change(data.admin, old(state).admin_authority),
            validator_manager_change: spec_change(data.validator_manager, old(state).validator_system.manager_authority),
            operational_sol_account_change: spec_change(data.operational_sol_account, old(state).operational_sol_account),
            treasury_msol_account_change: spec_change(data.treasury_msol_account, old(state).treasury_msol_account),
            pause_authority_change: spec_change(data.pause_authority, old(state).pause_authority),
        }),
        r is Ok ==> *final(state) == (State {
            admin_authority: or_keep(data.admin, old(state).admin_authority),
            validator_system: ValidatorSystem {
                manager_authority: or_keep(data.validator_manager, old(state).validator_system.manager_authority),
                ..old(state).validator_system
            },
            operational_sol_account: or_keep(data.operational_sol_account, old(state).operational_sol_account),
            treasury_msol_account: or_keep(data.treasury_msol_account, old(state).treasury_msol_account),
            pause_authority: or_keep(data.pause_authority, old(state).pause_authority),
            ..*old(state)
        }),
{
    if let Err(e) = state.check_admin_authority(admin_authority) {
        return Err(Error::Marinade(e));
    }
    let changes = AuthorityChanges {
        admin_change: change_of(data.admin, state.admin_authority),
        validator_manager_change: change_of(data.validator_manager, state.validator_system.manager_authority),
        operational_sol_account_change: change_of(data.operational_sol_account, state.operational_sol_account),
        treasury_msol_account_change: change_of(data.treasury_msol_account, state.treasury_msol_account),
        pause_authority_change: change_of(data.pause_authority, state.pause_authority),
    };
    state.admin_authority = keep_or(data.admin, state.admin_authority);
    state.validator_system.manager_authority = keep_or(data.validator_manager, state.validator_system.manager_authority);
    state.operational_sol_account = keep_or(data.operational_sol_account, state.operational_sol_account);
    state.treasury_msol_account = keep_or(data.treasury_msol_account, state.treasury_msol_account);
    state.pause_authority = keep_or(data.pause_authority, state.pause_authority);
    Ok(changes)
}

/// New liquidity pool parameters; `None` keeps the current one.
#[derive(Clone, Copy, Debug, Default)]
pub struct ConfigLpParams {
    pub min_fee: Option<Fee>,
    pub max_fee: Option<Fee>,
    pub liquidity_target: Option<u64>,
    pub treasury_cut: Option<Fee>,
}

/// The pool with the given parameters replaced.
pub open spec fn spec_configured_pool(pool: LiqPool, params: ConfigLpParams) -> LiqPool {
    LiqPool {
        lp_min_fee: or_keep(params.min_fee, pool.lp_min_fee),
        lp_max_fee: or_keep(params.max_fee, pool.lp_max_fee),
        lp_liquidity_target: or_keep(params.liquidity_target, pool.lp_liquidity_target),
        treasury_cut: or_keep(params.treasury_cut, pool.treasury_cut),
        ..pool
    }
}

/// Which pool parameters a configuration replaced, and from what.
#[derive(Clone, Copy, Debug, PartialEq, Eq)]
pub struct ConfigLpChanges {
    pub min_fee_change: Option<ValueChange<Fee>>,
    pub max_fee_change: Option<ValueChange<Fee>>,
    pub liquidity_target_change: Option<ValueChange<u64>>,
    pub treasury_cut_change: Option<ValueChange<Fee>>,
}

/// Configure the liquidity pool (signed by the admin authority); the resulting parameters must
/// be valid.
pub fn config_lp(state: &mut State, admin_authority: &Pubkey, params: ConfigLpParams) -> (r: Result<ConfigLpChanges, Error>)
    ensures
        admin_authority@ != old(state).admin_authority@ ==> r == Err::<ConfigLpChanges, Error>(
            Error::Marinade(MarinadeError::InvalidAdminAuthority),
        ),
        admin_authority@ == old(state).admin_authority@ && spec_validate(spec_configured_pool(old(state).liq_pool, params))
            is Err ==> r == Err::<ConfigLpChanges, Error>(
            Error::Marinade(spec_validate(spec_configured_pool(old(state).liq_pool, params))->Err_0),
        ),
        r is Ok <==> admin_authority@ == old(state).admin_authority@ && spec_validate(
            spec_configured_pool(old(state).liq_pool, params),
        ) is Ok,
        r is Ok ==> *final(state) == (State { liq_pool: spec_configured_pool(old(state).liq_pool, params), ..*old(state) }),
        r is Ok ==> r->Ok_0 == (ConfigLpChanges {
            min_fee_change: spec_change(params.min_fee, old(state).liq_pool.lp_min_fee),
            max_fee_change: spec_change(params.max_fee, old(state).liq_pool.lp_max_fee),
            liquidity_target_change: spec_change(params.liquidity_target, old(state).liq_pool.lp_liquidity_target),
            treasury_cut_change: spec_change(params.treasury_cut, old(state).liq_pool.treasury_cut),
        }),
        r is Err ==> *final(state) == *old(state),
{
    if let Err(e) = state.check_admin_authority(admin_authority) {
        return Err(Error::Marinade(e));
    }
    let pool = LiqPool {
        lp_min_fee: keep_or(params.min_fee, state.liq_pool.lp_min_fee),
        lp_max_fee: keep_or(params.max_fee, state.liq_pool.lp_max_fee),
        lp_liquidity_target: keep_or(params.liquidity_target, state.liq_pool.lp_liquidity_target),
        treasury_cut: keep_or(params.treasury_cut, state.liq_pool.treasury_cut),
        ..state.liq_pool
    };
    if let Err(e) = pool.validate() {
        return Err(Error::Marinade(e));
    }
    let changes = ConfigLpChanges {
        min_fee_change: change_of(params.min_fee, state.liq_pool.lp_min_fee),
        max_fee_change: change_of(params.max_fee, state.liq_pool.lp_max_fee),
        liquidity_target_change: change_of(params.liquidity_target, state.liq_pool.lp_liquidity_target),
        treasury_cut_change: change_of(params.treasury_cut, state.liq_pool.treasury_cut),
    };
    state.liq_pool = pool;
    Ok(changes)
}

/// Set the liquidity pool's fees and liquidity target (signed by the admin authority): the fees
/// must be valid, the max fee at most 10% and not below the min fee, the target at least 50 SOL.
pub fn set_lp_params(state: &mut State, admin_authority: &Pubkey, min_fee: Fee, max_fee: Fee, liquidity_target: u64) -> (r:
    Result<(), Error>)
    ensures
        admin_authority@ != old(state).admin_authority@ ==> r == Err::<(), Error>(
            Error::Marinade(MarinadeError::InvalidAdminAuthority),
        ),
        admin_authority@ == old(state).admin_authority@ && crate::liq_pool::spec_check_fees(min_fee, max_fee) is Err ==> r
            == Err::<(), Error>(Error::Marinade(crate::liq_pool::spec_check_fees(min_fee, max_fee)->Err_0)),
        admin_authority@ == old(state).admin_authority@ && crate::liq_pool::spec_check_fees(min_fee, max_fee) is Ok
            && liquidity_target < crate::liq_pool::MIN_LIQUIDITY_TARGET ==> r == Err::<(), Error>(
            Error::Marinade(MarinadeError::LiquidityTargetTooLow),
        ),
        r is Ok <==> admin_authority@ == old(state).admin_authority@ && crate::liq_pool::spec_check_fees(min_fee, max_fee) is Ok
            && liquidity_target >= crate::liq_pool::MIN_LIQUIDITY_TARGET,
        r is Ok ==> *final(state) == (State {
            liq_pool: LiqPool {
                lp_min_fee: min_fee,
                lp_max_fee: max_fee,
                lp_liquidity_target: liquidity_target,
                ..old(state).liq_pool
            },
            ..*old(state)
        }),
        r is Err ==> *final(state) == *old(state),
{
    if let Err(e) = state.check_admin_authority(admin_authority) {
        return Err(Error::Marinade(e));
    }
    if let Err(e) = crate::liq_pool::check_fees(min_fee, max_fee) {
        return Err(Error::Marinade(e));
    }
    if let Err(e) = crate::liq_pool::check_liquidity_target(liquidity_target) {
        return Err(Error::Marinade(e));
    }
    state.liq_pool.lp_min_fee = min_fee;
    state.liq_pool.lp_max_fee = max_fee;
    state.liq_pool.lp_liquidity_target = liquidity_target;
    Ok(())
}

/// New protocol parameters; `None` keeps the current one.
#[derive(Clone, Copy, Debug, Default)]
pub struct ConfigMarinadeParams {
    pub rewards_fee: Option<Fee>,
    pub slots_for_stake_delta: Option<u64>,
    pub min_stake: Option<u64>,
    pub min_deposit: Option<u64>,
    pub min_withdraw: Option<u64>,
    pub staking_sol_cap: Option<u64>,
    pub liquidity_sol_cap: Option<u64>,
    pub auto_add_validator_enabled: Option<bool>,
    pub withdraw_stake_account_enabled: Option<bool>,
    pub delayed_unstake_fee: Option<FeeCents>,
    pub withdraw_stake_account_fee: Option<FeeCents>,
}

/// The first parameter check of `config_marinade` that fails, in order.
pub open spec fn spec_config_marinade_check(s: State, p: ConfigMarinadeParams) -> Result<(), MarinadeError> {
    if p.rewards_fee matches Some(f) && f.basis_points > MAX_REWARD_FEE_BASIS_POINTS {
        Err(MarinadeError::RewardsFeeIsTooHigh)
    } else if p.slots_for_stake_delta matches Some(v) && v < MIN_UPDATE_WINDOW {
        Err(MarinadeError::UpdateWindowIsTooLow)
    } else if p.min_stake matches Some(v) && v < 5 * s.rent_exempt_for_token_acc {
        Err(MarinadeError::MinStakeIsTooLow)
    } else if p.min_withdraw matches Some(v) && v > MAX_WITHDRAW_ATOM {
        Err(MarinadeError::MinWithdrawIsTooHigh)
    } else if p.delayed_unstake_fee matches Some(f) && f.bp_cents > MAX_DELAYED_UNSTAKE_FEE_BP_CENTS {
        Err(MarinadeError::RewardsFeeIsTooHigh)
    } else if p.withdraw_stake_account_fee matches Some(f) && f.bp_cents > MAX_WITHDRAW_STAKE_ACCOUNT_FEE_BP_CENTS {
        Err(MarinadeError::RewardsFeeIsTooHigh)
    } else {
        Ok(())
    }
}

/// The state with the given protocol parameters replaced.
pub open spec fn spec_configured_state(s: State, p: ConfigMarinadeParams) -> State {
    State {
        reward_fee: or_keep(p.rewards_fee, s.reward_fee),
        stake_system: StakeSystem {
            slots_for_stake_delta: or_keep(p.slots_for_stake_delta, s.stake_system.slots_for_stake_delta),
            min_stake: or_keep(p.min_stake, s.stake_system.min_stake),
            ..s.stake_system
        },
        min_deposit: or_keep(p.min_deposit, s.min_deposit),
        min_withdraw: or_keep(p.min_withdraw, s.min_withdraw),
        staking_sol_cap: or_keep(p.staking_sol_cap, s.staking_sol_cap),
        liq_pool: LiqPool { liquidity_sol_cap: or_keep(p.liquidity_sol_cap, s.liq_pool.liquidity_sol_cap), ..s.liq_pool },
        validator_system: ValidatorSystem {
            auto_add_validator_enabled: match p.auto_add_validator_enabled {
                Some(b) => if b { 1u8 } else { 0u8 },
                None => s.validator_system.auto_add_validator_enabled,
            },
            ..s.validator_system
        },
        withdraw_stake_account_enabled: or_keep(p.withdraw_stake_account_enabled, s.withdraw_stake_account_enabled),
        delayed_unstake_fee: or_keep(p.delayed_unstake_fee, s.delayed_unstake_fee),
        withdraw_stake_account_fee: or_keep(p.withdraw_stake_account_fee, s.withdraw_stake_account_fee),
        ..s
    }
}

/// Which protocol parameters a configuration replaced, and from what.
#[derive(Clone, Copy, Debug, PartialEq, Eq)]
pub struct ConfigMarinadeChanges {
    pub rewards_fee_change: Option<ValueChange<Fee>>,
    pub slots_for_stake_delta_change: Option<ValueChange<u64>>,
    pub min_stake_change: Option<ValueChange<u64>>,
    pub min_deposit_change: Option<ValueChange<u64>>,
    pub min_withdraw_change: Option<ValueChange<u64>>,
    pub staking_sol_cap_change: Option<ValueChange<u64>>,
    pub liquidity_sol_cap_change: Option<ValueChange<u64>>,
    pub auto_add_validator_enabled_change: Option<ValueChange<bool>>,
    pub withdraw_stake_account_enabled_change: Option<ValueChange<bool>>,
    pub delayed_unstake_fee_change: Option<ValueChange<FeeCents>>,
    pub withdraw_stake_account_fee_change: Option<ValueChange<FeeCents>>,
}

/// The changes a configuration with `p` makes to the state `s`.
pub open spec fn spec_config_marinade_changes(s: State, p: ConfigMarinadeParams) -> ConfigMarinadeChanges {
    ConfigMarinadeChanges {
        rewards_fee_change: spec_change(p.rewards_fee, s.reward_fee),
        slots_for_stake_delta_change: spec_change(p.slots_for_stake_delta, s.stake_system.slots_for_stake_delta),
        min_stake_change: spec_change(p.min_stake, s.stake_system.min_stake),
        min_deposit_change: spec_change(p.min_deposit, s.min_deposit),
        min_withdraw_change: spec_change(p.min_withdraw, s.min_withdraw),
        staking_sol_cap_change: spec_change(p.staking_sol_cap, s.staking_sol_cap),
        liquidity_sol_cap_change: spec_change(p.liquidity_sol_cap, s.liq_pool.liquidity_sol_cap),
        auto_add_validator_enabled_change: spec_change(
            p.auto_add_validator_enabled,
            s.validator_system.auto_add_validator_enabled != 0,
        ),
        withdraw_stake_account_enabled_change: spec_change(p.withdraw_stake_account_enabled, s.withdraw_stake_account_enabled),
        delayed_unstake_fee_change: spec_change(p.delayed_unstake_fee, s.delayed_unstake_fee),
        withdraw_stake_account_fee_change: spec_change(p.withdraw_stake_account_fee, s.withdraw_stake_account_fee),
    }
}

/// Configure the protocol parameters (signed by the admin authority): reward fee at most 10%,
/// stake-delta window at least the minimal update window, minimal stake at least five token
/// account rents, minimal withdrawal at most 0.1 SOL, delayed-unstake and withdraw-stake-account
/// fees at most 0.2%; the deposit minimum and the caps are taken as given.
pub fn config_marinade(state: &mut State, admin_authority: &Pubkey, params: ConfigMarinadeParams) -> (r: Result<
    ConfigMarinadeChanges,
    Error,
>)
    requires
        5 * old(state).rent_exempt_for_token_acc <= u64::MAX,
    ensures
        admin_authority@ != old(state).admin_authority@ ==> r == Err::<ConfigMarinadeChanges, Error>(
            Error::Marinade(MarinadeError::InvalidAdminAuthority),
        ),
        admin_authority@ == old(state).admin_authority@ && spec_config_marinade_check(*old(state), params) is Err ==> r
            == Err::<ConfigMarinadeChanges, Error>(Error::Marinade(spec_config_marinade_check(*old(state), params)->Err_0)),
        r is Ok <==> admin_authority@ == old(state).admin_authority@ && spec_config_marinade_check(*old(state), params) is Ok,
        r is Ok ==> *final(state) == spec_configured_state(*old(state), params),
        r is Ok ==> r->Ok_0 == spec_config_marinade_changes(*old(state), params),
        r is Err ==> *final(state) == *old(state),
{
    if let Err(e) = state.check_admin_authority(admin_authority) {
        return Err(Error::Marinade(e));
    }
    if let Some(f) = params.rewards_fee {
        if f.basis_points > MAX_REWARD_FEE_BASIS_POINTS {
            return Err(Error::Marinade(MarinadeError::RewardsFeeIsTooHigh));
        }
    }
    if let Some(v) = params.slots_for_stake_delta {
        if v < MIN_UPDATE_WINDOW {
            return Err(Error::Marinade(MarinadeError::UpdateWindowIsTooLow));
        }
    }
    if let Some(v) = params.min_stake {
        if v < 5 * state.rent_exempt_for_token_acc {
            return Err(Error::Marinade(MarinadeError::MinStakeIsTooLow));
        }
    }
    // It is not dangerous to skip value checks of min_deposit because it is deposit only action
    // We can use u64::MAX to stop accepting deposits
    // or 0 to accept 1 lamport
    if let Some(v) = params.min_withdraw {
        if v > MAX_WITHDRAW_ATOM {
            return Err(Error::Marinade(MarinadeError::MinWithdrawIsTooHigh));
        }
    }
    if let Some(f) = params.delayed_unstake_fee {
        if f.bp_cents > MAX_DELAYED_UNSTAKE_FEE_BP_CENTS {
            return Err(Error::Marinade(MarinadeError::RewardsFeeIsTooHigh));
        }
    }
    if let Some(f) = params.withdraw_stake_account_fee {
        if f.bp_cents > MAX_WITHDRAW_STAKE_ACCOUNT_FEE_BP_CENTS {
            return Err(Error::Marinade(MarinadeError::RewardsFeeIsTooHigh));
        }
    }
    let changes = ConfigMarinadeChanges {
        rewards_fee_change: change_of(params.rewards_fee, state.reward_fee),
        slots_for_stake_delta_change: change_of(params.slots_for_stake_delta, state.stake_system.slots_for_stake_delta),
        min_stake_change: change_of(params.min_stake, state.stake_system.min_stake),
        min_deposit_change: change_of(params.min_deposit, state.min_deposit),
        min_withdraw_change: change_of(params.min_withdraw, state.min_withdraw),
        staking_sol_cap_change: change_of(params.staking_sol_cap, state.staking_sol_cap),
        liquidity_sol_cap_change: change_of(params.liquidity_sol_cap, state.liq_pool.liquidity_sol_cap),
        auto_add_validator_enabled_change: change_of(
            params.auto_add_validator_enabled,
            state.validator_system.auto_add_validator_enabled != 0,
        ),
        withdraw_stake_account_enabled_change: change_of(
            params.withdraw_stake_account_enabled,
            state.withdraw_stake_account_enabled,
        ),
        delayed_unstake_fee_change: change_of(params.delayed_unstake_fee, state.delayed_unstake_fee),
        withdraw_stake_account_fee_change: change_of(params.withdraw_stake_account_fee, state.withdraw_stake_account_fee),
    };
    state.reward_fee = keep_or(params.rewards_fee, state.reward_fee);
    state.stake_system.slots_for_stake_delta = keep_or(params.slots_for_stake_delta, state.stake_system.slots_for_stake_delta);
    state.stake_system.min_stake = keep_or(params.min_stake, state.stake_system.min_stake);
    state.min_deposit = keep_or(params.min_deposit, state.min_deposit);
    state.min_withdraw = keep_or(params.min_withdraw, state.min_withdraw);
    state.staking_sol_cap = keep_or(params.staking_sol_cap, state.staking_sol_cap);
    state.liq_pool.liquidity_sol_cap = keep_or(params.liquidity_sol_cap, state.liq_pool.liquidity_sol_cap);
    if let Some(b) = params.auto_add_validator_enabled {
        state.validator_system.auto_add_validator_enabled = if b {
            1
        } else {
            0
        };
    }
    state.withdraw_stake_account_enabled = keep_or(params.withdraw_stake_account_enabled, state.withdraw_stake_account_enabled);
    state.delayed_unstake_fee = keep_or(params.delayed_unstake_fee, state.delayed_unstake_fee);
    state.withdraw_stake_account_fee = keep_or(params.withdraw_stake_account_fee, state.withdraw_stake_account_fee);
    Ok(changes)
}

/// Set how many extra stake-delta runs are allowed (signed by the validator manager).
pub fn config_validator_system(state: &mut State, manager_authority: &Pubkey, extra_runs: u32) -> (r: Result<(), Error>)
    ensures
        r is Ok <==> manager_authority@ == old(state).validator_system.manager_authority@,
        r is Err ==> r == Err::<(), Error>(Error::Marinade(MarinadeError::InvalidValidatorManager)) && *final(state)
            == *old(state),
        r is Ok ==> *final(state) == (State {
            stake_system: StakeSystem { extra_stake_delta_runs: extra_runs, ..old(state).stake_system },
            ..*old(state)
        }),
{
    if let Err(e) = state.validator_system.check_validator_manager_authority(manager_authority) {
        return Err(Error::Marinade(e));
    }
    state.stake_system.extra_stake_delta_runs = extra_runs;  // TODO: think about is it stake or validator thing?
    Ok(())
}

/// Checks the signer is the pause authority.
fn check_pause_authority(state: &State, pause_authority: &Pubkey) -> (r: Result<(), Error>)
    ensures
        r is Ok <==> pause_authority@ == state.pause_authority@,
        r is Err ==> r == Err::<(), Error>(Error::Marinade(MarinadeError::InvalidPauseAuthority)),
{
    if pause_authority.same_key(&state.pause_authority) {
        Ok(())
    } else {
        Err(Error::Marinade(MarinadeError::InvalidPauseAuthority))
    }
}

/// Emergency pause (signed by the pause authority).
pub fn pause(state: &mut State, pause_authority: &Pubkey) -> (r: Result<(), Error>)
    ensures
        pause_authority@ != old(state).pause_authority@ ==> r == Err::<(), Error>(
            Error::Marinade(MarinadeError::InvalidPauseAuthority),
        ),
        pause_authority@ == old(state).pause_authority@ && old(state).paused ==> r == Err::<(), Error>(
            Error::Marinade(MarinadeError::AlreadyPaused),
        ),
        r is Ok <==> pause_authority@ == old(state).pause_authority@ && !old(state).paused,
        r is Ok ==> *final(state) == (State { paused: true, ..*old(state) }),
        r is Err ==> *final(state) == *old(state),
{
    check_pause_authority(state, pause_authority)?;
    match state.pause() {
        Ok(()) => Ok(()),
        Err(e) => Err(Error::Marinade(e)),
    }
}

/// Resume after an emergency pause (signed by the pause authority).
pub fn resume(state: &mut State, pause_authority: &Pubkey) -> (r: Result<(), Error>)
    ensures
        pause_authority@ != old(state).pause_authority@ ==> r == Err::<(), Error>(
            Error::Marinade(MarinadeError::InvalidPauseAuthority),
        ),
        pause_authority@ == old(state).pause_authority@ && !old(state).paused ==> r == Err::<(), Error>(
            Error::Marinade(MarinadeError::NotPaused),
        ),
        r is Ok <==> pause_authority@ == old(state).pause_authority@ && old(state).paused,
        r is Ok ==> *final(state) == (State { paused: false, ..*old(state) }),
        r is Err ==> *final(state) == *old(state),
{
    check_pause_authority(state, pause_authority)?;
    match state.resume() {
        Ok(()) => Ok(()),
        Err(e) => Err(Error::Marinade(e)),
    }
}

/// Pause (`true`) or resume (`false`), signed by the pause authority.
pub fn set_emergency_pause(state: &mut State, pause_authority: &Pubkey, value: bool) -> (r: Result<(), Error>)
    ensures
        pause_authority@ != old(state).pause_authority@ ==> r == Err::<(), Error>(
            Error::Marinade(MarinadeError::InvalidPauseAuthority),
        ),
        r is Ok <==> pause_authority@ == old(state).pause_authority@ && old(state).paused != value,
        pause_authority@ == old(state).pause_authority@ && old(state).paused == value ==> r == Err::<(), Error>(
            Error::Marinade(if value { MarinadeError::AlreadyPaused } else { MarinadeError::NotPaused }),
        ),
        r is Ok ==> *final(state) == (State { paused: value, ..*old(state) }),
        r is Err ==> *final(state) == *old(state),
{
    if value {
        pause(state, pause_authority)
    } else {
        resume(state, pause_authority)
    }
}

/// Check a new capacity of the stake list (signed by the admin authority): it must hold the
/// records already there. Returns the current count.
pub fn realloc_stake_list(state: &State, admin_authority: &Pubkey, capacity: u32) -> (r: Result<u32, Error>)
    ensures
        admin_authority@ != state.admin_authority@ ==> r == Err::<u32, Error>(Error::Marinade(MarinadeError::InvalidAdminAuthority)),
        r is Ok <==> admin_authority@ == state.admin_authority@ && capacity >= state.stake_system.stake_list.count,
        admin_authority@ == state.admin_authority@ && capacity < state.stake_system.stake_list.count ==> r == Err::<u32, Error>(
            Error::Marinade(MarinadeError::ShrinkingListWithDeletingContents),
        ),
        r matches Ok(c) ==> c == state.stake_system.stake_list.count,
{
    if let Err(e) = state.check_admin_authority(admin_authority) {
        return Err(Error::Marinade(e));
    }
    if capacity < state.stake_system.stake_count() {
        return Err(Error::Marinade(MarinadeError::ShrinkingListWithDeletingContents));
    }
    Ok(state.stake_system.stake_count())
}

/// Account size for a stake list of `capacity` records of the current record size.
pub fn realloc_stake_list_size(state: &State, capacity: u32) -> (r: usize)
    requires
        8 + state.stake_system.stake_list.item_size as int * capacity as int <= u32::MAX,
    ensures
        r == 8 + state.stake_system.stake_list.item_size as int * capacity as int,
{
    proof {
        vstd::arithmetic::mul::lemma_mul_nonnegative(state.stake_system.stake_list.item_size as int, capacity as int);
    }
    8 + (state.stake_system.stake_record_size() * capacity) as usize
}

/// Pausing then resuming gives the state back as it was.
pub proof fn lemma_pause_then_resume_restores(s: State)
    requires
        !s.paused,
    ensures
        (State { paused: false, ..(State { paused: true, ..s }) }) == s,
{
}

} // verus!
