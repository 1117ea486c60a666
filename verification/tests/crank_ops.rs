use marinade_finance::checks::{Delegation, Mint, StakeAccountInfo, TokenAccount};
use marinade_finance::crank::{
    create_canonical_stake, deactivate_stake, finalize_delinquent_upgrade, finish_merge_stakes, merge_stakes, redelegate,
    stake_reserve, DeactivateStakeOutcome, RedelegateOutcome, StakeReserveOutcome,
};
use marinade_finance::error::{Error, MarinadeError, ProgramError, RequireError};
use marinade_finance::fee::{Fee, FeeCents};
use marinade_finance::initialize::{initialize, InitializeData, LiqPoolInitializeAccounts, LiqPoolInitializeData};
use marinade_finance::liq_pool::LiqPool;
use marinade_finance::list::List;
use marinade_finance::management::{
    add_validator, emergency_unstake, partial_unstake, remove_validator, set_validator_score, PartialUnstakeOutcome,
};
use marinade_finance::pda::{create_address, find_address, find_pair_address, stake_program_id, token_program_id, SeedTag};
use marinade_finance::pubkey::Pubkey;
use marinade_finance::schedule::EpochSchedule;
use marinade_finance::stake_system::{StakeRecord, StakeStatus, StakeSystem};
use marinade_finance::state::{DelinquentUpgraderState, State, PRICE_DENOMINATOR};
use marinade_finance::user::deposit_stake_account;
use marinade_finance::update::{mint_protocol_fees, try_update_active, try_update_deactivated, update_active, update_deactivated};
use marinade_finance::validator_system::{ValidatorRecord, ValidatorSystem};

const RENT: u64 = 2_039_280;
const STAKE_RENT: u64 = 2_282_880;
const SOL: u64 = 1_000_000_000;

fn key(b: u8) -> Pubkey {
    Pubkey::new_from_array([b; 32])
}

fn list(account: u8, item_size: u32) -> List {
    List { account: key(account), item_size, count: 0, new_account: Pubkey::default_key(), copied_count: 0 }
}

fn schedule() -> EpochSchedule {
    EpochSchedule {
        slots_per_epoch: 432_000,
        leader_schedule_slot_offset: 432_000,
        warmup: false,
        first_normal_epoch: 0,
        first_normal_slot: 0,
    }
}

/// A late slot of `epoch` under `schedule()`: inside the stake-delta window.
fn late_slot(epoch: u64) -> u64 {
    epoch * 432_000 + 431_000
}

fn state_address() -> Pubkey {
    key(50)
}

fn base_state() -> State {
    let addr = state_address();
    State {
        msol_mint: key(1),
        admin_authority: key(2),
        operational_sol_account: key(3),
        treasury_msol_account: key(4),
        reserve_bump_seed: find_address(&addr, SeedTag::Reserve).unwrap().1,
        msol_mint_authority_bump_seed: find_address(&addr, SeedTag::MsolMintAuthority).unwrap().1,
        rent_exempt_for_token_acc: RENT,
        reward_fee: Fee::from_basis_points(200),
        stake_system: StakeSystem {
            stake_list: list(5, 50),
            delayed_unstake_cooling_down: 0,
            stake_deposit_bump_seed: find_address(&addr, SeedTag::StakeDeposit).unwrap().1,
            stake_withdraw_bump_seed: find_address(&addr, SeedTag::StakeWithdraw).unwrap().1,
            slots_for_stake_delta: 3_000,
            last_stake_delta_epoch: u64::MAX,
            min_stake: SOL,
            extra_stake_delta_runs: 0,
        },
        validator_system: ValidatorSystem {
            validator_list: list(6, 61),
            manager_authority: key(7),
            total_validator_score: 0,
            total_active_balance: 0,
            auto_add_validator_enabled: 0,
        },
        liq_pool: LiqPool {
            lp_mint: key(8),
            lp_mint_authority_bump_seed: 251,
            sol_leg_bump_seed: 250,
            msol_leg_authority_bump_seed: 249,
            msol_leg: key(9),
            lp_liquidity_target: 100 * SOL,
            lp_max_fee: Fee::from_basis_points(300),
            lp_min_fee: Fee::from_basis_points(30),
            treasury_cut: Fee::from_basis_points(2_500),
            lp_supply: 0,
            lent_from_sol_leg: 0,
            liquidity_sol_cap: u64::MAX,
        },
        available_reserve_balance: 0,
        msol_supply: 0,
        msol_price: PRICE_DENOMINATOR,
        circulating_ticket_count: 0,
        circulating_ticket_balance: 0,
        lent_from_reserve: 0,
        min_deposit: 1,
        min_withdraw: 1,
        staking_sol_cap: u64::MAX,
        emergency_cooling_down: 0,
        pause_authority: key(10),
        paused: false,
        delayed_unstake_fee: FeeCents::from_bp_cents(0),
        withdraw_stake_account_fee: FeeCents::from_bp_cents(0),
        withdraw_stake_account_enabled: false,
        delinquent_upgrader: DelinquentUpgraderState::Done,
    }
}

/// A state with the given validators (vote key, score, active balance) and room for 10 stakes.
fn setup(validators: &[(u8, u32, u64)]) -> (State, Vec<u8>, Vec<u8>) {
    let mut s = base_state();
    let mut validator_data = vec![0u8; 8 + 61 * 10];
    let stake_data = vec![0u8; 8 + 50 * 10];
    for (i, (vote, score, active)) in validators.iter().enumerate() {
        let (flag, _) = ValidatorRecord::find_duplication_flag(&state_address(), &key(*vote)).unwrap();
        add_validator(&mut s, &key(7), &state_address(), &mut validator_data, &key(*vote), &flag, *score).unwrap();
        let rec = s.validator_system.get(&validator_data, i as u32).unwrap();
        s.validator_system.set(&mut validator_data, i as u32, ValidatorRecord { active_balance: *active, ..rec }).unwrap();
        s.validator_system.total_active_balance += *active;
    }
    (s, validator_data, stake_data)
}

fn add_stake(s: &mut State, stake_data: &mut Vec<u8>, account: u8, lamports: u64) {
    s.stake_system.add(stake_data, &key(account), lamports, 1, 0).unwrap();
}

fn delegation(vote: u8, stake: u64) -> Option<Delegation> {
    Some(Delegation { voter_pubkey: key(vote), stake, activation_epoch: 1, deactivation_epoch: u64::MAX })
}

fn token_account_data(mint: u8, owner: u8, amount: u64) -> Vec<u8> {
    let mut d = Vec::new();
    d.extend_from_slice(&[mint; 32]);
    d.extend_from_slice(&[owner; 32]);
    d.extend_from_slice(&amount.to_le_bytes());
    d.extend_from_slice(&[0u8; 36]);
    d.push(1);
    d.extend_from_slice(&[0u8; 12]);
    d.extend_from_slice(&0u64.to_le_bytes());
    d.extend_from_slice(&[0u8; 36]);
    d
}

#[test]
fn stake_reserve_stakes_the_delta_into_the_validator() {
    let (mut s, mut vdata, mut sdata) = setup(&[(20, 100, 0)]);
    s.available_reserve_balance = 10 * SOL;
    let reserve = RENT + 10 * SOL;
    let out = stake_reserve(
        &mut s, &state_address(), &mut vdata, &mut sdata, 0, &key(20), &key(30), STAKE_RENT, STAKE_RENT, reserve, 10,
        late_slot(10), &schedule(),
    )
    .unwrap();
    let deposit_authority = find_address(&state_address(), SeedTag::StakeDeposit).unwrap().0;
    let withdraw_authority = find_address(&state_address(), SeedTag::StakeWithdraw).unwrap().0;
    match out {
        StakeReserveOutcome::Staked(a) => {
            assert_eq!(a.amount, 10 * SOL);
            assert_eq!(a.stake_index, 0);
            assert_eq!(a.staker, deposit_authority);
            assert_eq!(a.withdrawer, withdraw_authority);
            assert_eq!(a.validator_stake_target, 10 * SOL);
        },
        other => panic!("unexpected {:?}", other),
    }
    assert_eq!(s.available_reserve_balance, 0);
    assert_eq!(s.validator_system.total_active_balance, 10 * SOL);
    assert_eq!(s.stake_system.last_stake_delta_epoch, 10);
    let rec = s.stake_system.get(&sdata, 0).unwrap();
    assert_eq!(rec.stake_account, key(30));
    assert_eq!(rec.last_update_delegated_lamports, 10 * SOL);
    assert_eq!(rec.last_update_status, StakeStatus::Active);
    let v = s.validator_system.get(&vdata, 0).unwrap();
    assert_eq!(v.active_balance, 10 * SOL);
    assert_eq!(v.last_stake_delta_epoch, 10);
    // the reserve now holds only its rent: nothing more to stake
    let again = stake_reserve(
        &mut s, &state_address(), &mut vdata, &mut sdata, 0, &key(20), &key(31), STAKE_RENT, STAKE_RENT, RENT, 10,
        late_slot(10), &schedule(),
    );
    assert_eq!(again, Ok(StakeReserveOutcome::NothingToStake));
    // more deposits in the same epoch: the validator was already staked into
    s.available_reserve_balance = 5 * SOL;
    let again = stake_reserve(
        &mut s, &state_address(), &mut vdata, &mut sdata, 0, &key(20), &key(31), STAKE_RENT, STAKE_RENT, RENT + 5 * SOL,
        10, late_slot(10), &schedule(),
    );
    assert_eq!(again, Ok(StakeReserveOutcome::AlreadyStakedThisEpoch));
}

#[test]
fn stake_reserve_errors() {
    let (mut s, mut vdata, mut sdata) = setup(&[(20, 100, 0)]);
    s.available_reserve_balance = 10 * SOL;
    let reserve = RENT + 10 * SOL;
    let run = |s: &mut State, vdata: &mut Vec<u8>, sdata: &mut Vec<u8>, vote: u8, lamports: u64, slot: u64| {
        stake_reserve(s, &state_address(), vdata, sdata, 0, &key(vote), &key(30), lamports, STAKE_RENT, reserve, 10, slot, &schedule())
    };
    assert_eq!(
        run(&mut s, &mut vdata, &mut sdata, 20, STAKE_RENT + 1, late_slot(10)),
        Err(Error::Marinade(MarinadeError::InvalidEmptyStakeBalance))
    );
    assert_eq!(
        run(&mut s, &mut vdata, &mut sdata, 21, STAKE_RENT, late_slot(10)),
        Err(Error::Marinade(MarinadeError::WrongValidatorAccountOrIndex))
    );
    assert_eq!(
        run(&mut s, &mut vdata, &mut sdata, 20, STAKE_RENT, 10 * 432_000),
        Err(Error::Marinade(MarinadeError::TooEarlyForStakeDelta))
    );
    s.paused = true;
    assert_eq!(
        run(&mut s, &mut vdata, &mut sdata, 20, STAKE_RENT, late_slot(10)),
        Err(Error::Marinade(MarinadeError::ProgramIsPaused))
    );
    // nothing changed
    assert_eq!(s.available_reserve_balance, 10 * SOL);
    assert_eq!(s.stake_system.stake_count(), 0);
}

#[test]
fn stake_reserve_skips_a_validator_at_target() {
    let (mut s, mut vdata, mut sdata) = setup(&[(20, 100, 10 * SOL), (21, 100, 0)]);
    add_stake(&mut s, &mut sdata, 40, 10 * SOL);
    s.available_reserve_balance = 2 * SOL;
    let out = stake_reserve(
        &mut s, &state_address(), &mut vdata, &mut sdata, 0, &key(20), &key(30), STAKE_RENT, STAKE_RENT, RENT + 2 * SOL,
        10, late_slot(10), &schedule(),
    );
    // target is half of 12 SOL
    assert_eq!(out, Ok(StakeReserveOutcome::TargetReached { validator_stake_target: 6 * SOL }));
    assert_eq!(s.available_reserve_balance, 2 * SOL);
}

#[test]
fn deactivate_stake_splits_what_tickets_need() {
    let (mut s, mut vdata, mut sdata) = setup(&[(20, 100, 10 * SOL)]);
    add_stake(&mut s, &mut sdata, 40, 10 * SOL);
    s.circulating_ticket_balance = 3 * SOL;
    s.circulating_ticket_count = 1;
    let out = deactivate_stake(
        &mut s, &mut vdata, &mut sdata, 0, 0, &key(40), &delegation(20, 10 * SOL), &key(41), RENT, 10, late_slot(10),
        &schedule(),
    );
    assert_eq!(out, Ok(DeactivateStakeOutcome::DeactivateSplit { amount: 3 * SOL, split_stake_index: 1 }));
    assert_eq!(s.validator_system.total_active_balance, 7 * SOL);
    assert_eq!(s.stake_system.delayed_unstake_cooling_down, 3 * SOL);
    assert_eq!(s.stake_system.get(&sdata, 0).unwrap().last_update_delegated_lamports, 7 * SOL);
    let split = s.stake_system.get(&sdata, 1).unwrap();
    assert_eq!(split.stake_account, key(41));
    assert_eq!(split.last_update_delegated_lamports, 3 * SOL);
    assert_eq!(s.validator_system.get(&vdata, 0).unwrap().active_balance, 7 * SOL);
    // a second split for the same validator waits for the next epoch
    s.circulating_ticket_balance = 6 * SOL;
    let out = deactivate_stake(
        &mut s, &mut vdata, &mut sdata, 0, 0, &key(40), &delegation(20, 7 * SOL), &key(42), RENT, 10, late_slot(10),
        &schedule(),
    );
    assert_eq!(out, Ok(DeactivateStakeOutcome::AlreadyUnstakedThisEpoch));
}

#[test]
fn deactivate_stake_whole_account_and_errors() {
    let (mut s, mut vdata, mut sdata) = setup(&[(20, 100, 3 * SOL)]);
    add_stake(&mut s, &mut sdata, 40, 3 * SOL);
    s.circulating_ticket_balance = 2 * SOL;
    // less than twice the minimal stake would be left: the whole account
    let out = deactivate_stake(
        &mut s, &mut vdata, &mut sdata, 0, 0, &key(40), &delegation(20, 3 * SOL), &key(41), RENT, 10, late_slot(10),
        &schedule(),
    );
    assert_eq!(out, Ok(DeactivateStakeOutcome::DeactivateWhole { amount: 3 * SOL }));
    assert_eq!(s.validator_system.total_active_balance, 0);
    assert_eq!(s.stake_system.delayed_unstake_cooling_down, 3 * SOL);
    assert_eq!(s.stake_system.stake_count(), 1);

    let (mut s, mut vdata, mut sdata) = setup(&[(20, 100, 3 * SOL)]);
    add_stake(&mut s, &mut sdata, 40, 3 * SOL);
    let out = deactivate_stake(
        &mut s, &mut vdata, &mut sdata, 0, 0, &key(40), &delegation(20, 3 * SOL), &key(41), RENT, 10, late_slot(10),
        &schedule(),
    );
    assert_eq!(out, Err(Error::Marinade(MarinadeError::UnstakingOnPositiveDelta)));
    s.circulating_ticket_balance = SOL;
    let out = deactivate_stake(
        &mut s, &mut vdata, &mut sdata, 0, 0, &key(40), &delegation(20, 2 * SOL), &key(41), RENT, 10, late_slot(10),
        &schedule(),
    );
    assert_eq!(out, Err(Error::Marinade(MarinadeError::StakeAccountNotUpdatedYet)));
    let out = deactivate_stake(
        &mut s, &mut vdata, &mut sdata, 0, 0, &key(49), &delegation(20, 3 * SOL), &key(41), RENT, 10, late_slot(10),
        &schedule(),
    );
    assert_eq!(out, Err(Error::Marinade(MarinadeError::WrongStakeAccountOrIndex)));
    assert_eq!(s.validator_system.total_active_balance, 3 * SOL);
}

#[test]
fn redelegate_moves_stake_between_validators() {
    let (mut s, mut vdata, mut sdata) = setup(&[(20, 100, 10 * SOL), (21, 100, 0)]);
    add_stake(&mut s, &mut sdata, 40, 10 * SOL);
    let out = redelegate(
        &mut s, &mut vdata, &mut sdata, 0, 0, 1, &key(40), &delegation(20, 10 * SOL), &key(41), &key(21), &key(42),
        RENT, 10, late_slot(10), &schedule(),
    );
    assert_eq!(out, Ok(RedelegateOutcome::RedelegateSplit { amount: 5 * SOL, split_stake_index: 1, redelegate_stake_index: 2 }));
    // active stake as a whole does not change
    assert_eq!(s.validator_system.total_active_balance, 10 * SOL);
    assert_eq!(s.validator_system.get(&vdata, 0).unwrap().active_balance, 5 * SOL);
    assert_eq!(s.validator_system.get(&vdata, 1).unwrap().active_balance, 5 * SOL);
    assert_eq!(s.stake_system.get(&sdata, 0).unwrap().last_update_delegated_lamports, 5 * SOL);
    assert_eq!(s.stake_system.get(&sdata, 1).unwrap().last_update_delegated_lamports, 0);
    assert_eq!(s.stake_system.get(&sdata, 2).unwrap().stake_account, key(42));
    assert_eq!(s.stake_system.get(&sdata, 2).unwrap().last_update_delegated_lamports, 5 * SOL);
    // both at target now
    let out = redelegate(
        &mut s, &mut vdata, &mut sdata, 0, 0, 1, &key(40), &delegation(20, 5 * SOL), &key(43), &key(21), &key(44),
        RENT, 10, late_slot(10), &schedule(),
    );
    assert_eq!(out, Ok(RedelegateOutcome::SourceAtTarget { source_validator_stake_target: 5 * SOL }));
    assert_eq!(
        redelegate(
            &mut s, &mut vdata, &mut sdata, 0, 1, 1, &key(40), &delegation(20, 5 * SOL), &key(43), &key(21), &key(44),
            RENT, 10, late_slot(10), &schedule(),
        ),
        Err(Error::Marinade(MarinadeError::SourceAndDestValidatorsAreTheSame))
    );
}

#[test]
fn merge_accounts_extra_delegation_and_removes_the_source() {
    let (mut s, mut vdata, mut sdata) = setup(&[(20, 100, 10 * SOL)]);
    add_stake(&mut s, &mut sdata, 40, 6 * SOL);
    add_stake(&mut s, &mut sdata, 41, 4 * SOL);
    assert_eq!(
        merge_stakes(&s, &vdata, &sdata, 0, 1, 0, &key(40), &delegation(20, 6 * SOL), &key(41), &delegation(20, 4 * SOL),
            4 * SOL + STAKE_RENT, STAKE_RENT),
        Ok(())
    );
    assert_eq!(
        merge_stakes(&s, &vdata, &sdata, 0, 1, 0, &key(40), &delegation(20, 6 * SOL), &key(41), &delegation(21, 4 * SOL),
            4 * SOL + STAKE_RENT, STAKE_RENT),
        Err(Error::Marinade(MarinadeError::InvalidSourceStakeDelegation))
    );
    assert_eq!(
        merge_stakes(&s, &vdata, &sdata, 0, 1, 0, &key(40), &delegation(20, 6 * SOL), &key(41), &delegation(20, 4 * SOL),
            4 * SOL + STAKE_RENT + 1, STAKE_RENT),
        Err(Error::Marinade(MarinadeError::SourceStakeMustBeUpdated))
    );
    assert_eq!(
        merge_stakes(&s, &vdata, &sdata, 0, 1, 0, &key(40), &None, &key(41), &delegation(20, 4 * SOL),
            4 * SOL + STAKE_RENT, STAKE_RENT),
        Err(Error::Marinade(MarinadeError::DestinationStakeMustBeDelegated))
    );
    let out = finish_merge_stakes(&mut s, &mut vdata, &mut sdata, 0, 1, 0, 10 * SOL + 1_000, STAKE_RENT).unwrap();
    assert_eq!(out.extra_delegated, 1_000);
    assert_eq!(out.returned_stake_rent, STAKE_RENT - 1_000);
    assert_eq!(s.stake_system.stake_count(), 1);
    assert_eq!(s.stake_system.get(&sdata, 0).unwrap().last_update_delegated_lamports, 10 * SOL + 1_000);
    assert_eq!(s.validator_system.total_active_balance, 10 * SOL + 1_000);
    assert_eq!(s.validator_system.get(&vdata, 0).unwrap().active_balance, 10 * SOL + 1_000);
}

#[test]
fn update_active_accounts_rewards_and_fees() {
    let (mut s, mut vdata, mut sdata) = setup(&[(20, 100, 10 * SOL)]);
    add_stake(&mut s, &mut sdata, 40, 10 * SOL);
    s.msol_supply = 10 * SOL;
    s.available_reserve_balance = 0;
    let treasury = token_account_data(1, 4, 0);
    // 0.1 SOL of rewards in the delegation, 0.01 SOL extra (MEV) in the account
    let out = update_active(
        &mut s, &mut vdata, &mut sdata, 0, 0, &key(40), &delegation(20, 10 * SOL + SOL / 10),
        10 * SOL + SOL / 10 + SOL / 100 + STAKE_RENT, STAKE_RENT, RENT, 10 * SOL, &token_program_id(), &treasury, 11,
    )
    .unwrap();
    assert_eq!(out.extra_lamports, SOL / 100);
    assert!(out.extra_msol_fees.unwrap() > 0);
    assert!(out.delegation_growth_msol_fees.unwrap() > 0);
    assert_eq!(s.available_reserve_balance, SOL / 100);
    assert_eq!(s.validator_system.total_active_balance, 10 * SOL + SOL / 10);
    assert_eq!(s.validator_system.get(&vdata, 0).unwrap().active_balance, 10 * SOL + SOL / 10);
    let rec = s.stake_system.get(&sdata, 0).unwrap();
    assert_eq!(rec.last_update_delegated_lamports, 10 * SOL + SOL / 10);
    assert_eq!(rec.last_update_epoch, 11);
    assert_eq!(s.msol_supply, 10 * SOL + out.extra_msol_fees.unwrap() + out.delegation_growth_msol_fees.unwrap());
    assert_eq!(out.old_msol_price, PRICE_DENOMINATOR);
    assert!(out.new_msol_price > PRICE_DENOMINATOR);
    assert_eq!(out.new_msol_price, s.msol_price);
}

#[test]
fn update_active_slash_and_errors() {
    let (mut s, mut vdata, mut sdata) = setup(&[(20, 100, 10 * SOL)]);
    add_stake(&mut s, &mut sdata, 40, 10 * SOL);
    s.msol_supply = 10 * SOL;
    let no_treasury = vec![0u8; 3];
    let out = update_active(
        &mut s, &mut vdata, &mut sdata, 0, 0, &key(40), &delegation(20, 9 * SOL), 9 * SOL + STAKE_RENT, STAKE_RENT,
        RENT, 10 * SOL, &key(42), &no_treasury, 11,
    )
    .unwrap();
    assert_eq!(out.extra_msol_fees, None);
    assert_eq!(out.delegation_growth_msol_fees, None);
    assert_eq!(s.validator_system.total_active_balance, 9 * SOL);
    let deactivating = Some(Delegation { voter_pubkey: key(20), stake: 9 * SOL, activation_epoch: 1, deactivation_epoch: 11 });
    assert_eq!(
        update_active(
            &mut s, &mut vdata, &mut sdata, 0, 0, &key(40), &deactivating, 9 * SOL + STAKE_RENT, STAKE_RENT, RENT,
            10 * SOL, &key(42), &no_treasury, 12,
        ),
        Err(Error::Marinade(MarinadeError::RequiredActiveStake))
    );
    assert_eq!(
        update_active(
            &mut s, &mut vdata, &mut sdata, 0, 0, &key(40), &None, 9 * SOL + STAKE_RENT, STAKE_RENT, RENT, 10 * SOL,
            &key(42), &no_treasury, 12,
        ),
        Err(Error::Marinade(MarinadeError::StakeNotDelegated))
    );
    s.paused = true;
    assert_eq!(
        update_active(
            &mut s, &mut vdata, &mut sdata, 0, 0, &key(40), &delegation(20, 9 * SOL), 9 * SOL + STAKE_RENT, STAKE_RENT,
            RENT, 10 * SOL, &key(42), &no_treasury, 12,
        ),
        Err(Error::Marinade(MarinadeError::ProgramIsPaused))
    );
}

#[test]
fn update_deactivated_returns_the_stake_to_the_reserve() {
    let (mut s, mut vdata, mut sdata) = setup(&[(20, 100, 0)]);
    s.stake_system.add(&mut sdata, &key(40), 3 * SOL, 1, 0).unwrap();
    let rec = s.stake_system.get(&sdata, 0).unwrap();
    s.stake_system.set(&mut sdata, 0, StakeRecord { last_update_status: StakeStatus::Deactivating, ..rec }).unwrap();
    s.stake_system.delayed_unstake_cooling_down = 3 * SOL;
    s.msol_supply = 3 * SOL;
    let deactivated = Some(Delegation { voter_pubkey: key(20), stake: 3 * SOL, activation_epoch: 1, deactivation_epoch: 10 });
    let out = update_deactivated(
        &mut s, &mut vdata, &mut sdata, 0, 0, &key(40), &deactivated, 3 * SOL + 1_000 + STAKE_RENT, STAKE_RENT, RENT,
        3 * SOL, &key(42), &vec![], 
    )
    .unwrap();
    assert_eq!(out.withdrawn_to_reserve, 3 * SOL + 1_000 + STAKE_RENT);
    assert_eq!(out.rent_to_operational, STAKE_RENT);
    assert_eq!(out.msol_fees, None);
    assert_eq!(s.available_reserve_balance, 3 * SOL + 1_000);
    assert_eq!(s.stake_system.delayed_unstake_cooling_down, 0);
    assert_eq!(s.stake_system.stake_count(), 0);
    assert!(out.new_msol_price > PRICE_DENOMINATOR);
}

#[test]
fn try_update_refuses_a_reserve_below_its_rent() {
    let (mut s, mut vdata, mut sdata) = setup(&[(20, 100, 10 * SOL)]);
    add_stake(&mut s, &mut sdata, 40, 10 * SOL);
    s.msol_supply = 10 * SOL;
    let no_treasury = vec![0u8; 3];
    let before = s;
    let (vbefore, sbefore) = (vdata.clone(), sdata.clone());
    // the reserve holds less than its own rent: the accounted reserve cannot match it
    let out = try_update_active(
        &mut s, &mut vdata, &mut sdata, 0, 0, &key(40), &delegation(20, 10 * SOL), 10 * SOL + STAKE_RENT, STAKE_RENT,
        RENT - 1, 10 * SOL, &key(42), &no_treasury, 11,
    );
    assert!(out.is_none());
    assert_eq!(s.validator_system.total_active_balance, before.validator_system.total_active_balance);
    assert_eq!(s.available_reserve_balance, before.available_reserve_balance);
    assert_eq!((vdata.clone(), sdata.clone()), (vbefore, sbefore));
    // with the reserve at its rent the same update completes
    let out = try_update_active(
        &mut s, &mut vdata, &mut sdata, 0, 0, &key(40), &delegation(20, 10 * SOL), 10 * SOL + STAKE_RENT, STAKE_RENT,
        RENT, 10 * SOL, &key(42), &no_treasury, 11,
    );
    let out = out.unwrap().unwrap();
    assert_eq!(out.extra_lamports, 0);
    assert_eq!(s.available_reserve_balance + s.rent_exempt_for_token_acc, RENT);
    assert_eq!(s.stake_system.get(&sdata, 0).unwrap().last_update_epoch, 11);
}

#[test]
fn try_update_deactivated_removes_the_record() {
    let (mut s, mut vdata, mut sdata) = setup(&[(20, 100, 0)]);
    s.stake_system.add(&mut sdata, &key(40), 2 * SOL, 1, 0).unwrap();
    let rec = s.stake_system.get(&sdata, 0).unwrap();
    s.stake_system.set(&mut sdata, 0, StakeRecord { last_update_status: StakeStatus::Deactivating, ..rec }).unwrap();
    s.stake_system.delayed_unstake_cooling_down = 2 * SOL;
    s.msol_supply = 2 * SOL;
    let deactivated = Some(Delegation { voter_pubkey: key(20), stake: 2 * SOL, activation_epoch: 1, deactivation_epoch: 10 });
    let out = try_update_deactivated(
        &mut s, &mut vdata, &mut sdata, 0, 0, &key(40), &deactivated, 2 * SOL + STAKE_RENT, STAKE_RENT, RENT, 2 * SOL,
        &key(42), &vec![],
    )
    .unwrap()
    .unwrap();
    assert_eq!(s.stake_system.stake_count(), 0);
    assert_eq!(out.withdrawn_to_reserve, 2 * SOL + STAKE_RENT);
    assert_eq!(out.new_msol_price, s.msol_price);
    assert_eq!(s.msol_supply, 2 * SOL);
}

#[test]
fn update_deactivated_refuses_an_active_stake() {
    let (mut s, mut vdata, mut sdata) = setup(&[(20, 100, 3 * SOL)]);
    add_stake(&mut s, &mut sdata, 40, 3 * SOL);
    assert_eq!(
        update_deactivated(
            &mut s, &mut vdata, &mut sdata, 0, 0, &key(40), &delegation(20, 3 * SOL), 3 * SOL + STAKE_RENT, STAKE_RENT,
            RENT, 0, &key(42), &vec![],
        ),
        Err(Error::Marinade(MarinadeError::RequiredDeactivatingStake))
    );
    assert_eq!(s.stake_system.stake_count(), 1);
}

#[test]
fn protocol_fee_is_minted_at_the_current_price() {
    let mut s = base_state();
    s.available_reserve_balance = 200;
    s.msol_supply = 100;
    s.reward_fee = Fee::from_basis_points(1_000);
    // 10% of 1000 lamports is 100 lamports, worth 50 mSOL at 2 lamports each
    assert_eq!(mint_protocol_fees(&mut s, 1_000), Ok(50));
    assert_eq!(s.msol_supply, 150);
}

#[test]
fn manager_partial_unstake_and_emergency_unstake() {
    let (mut s, mut vdata, mut sdata) = setup(&[(20, 0, 10 * SOL), (21, 100, 0)]);
    add_stake(&mut s, &mut sdata, 40, 10 * SOL);
    assert_eq!(
        partial_unstake(
            &mut s, &key(99), &mut vdata, &mut sdata, 0, 0, 2 * SOL, &key(40), &delegation(20, 10 * SOL), &key(41),
            &Pubkey::default_key(), &vec![], false, RENT, 10,
        ),
        Err(Error::Require(RequireError::ConstraintAddress))
    );
    // the validator has no score: its target is zero, a part is split off
    let out = partial_unstake(
        &mut s, &key(7), &mut vdata, &mut sdata, 0, 0, 2 * SOL, &key(40), &delegation(20, 10 * SOL), &key(41),
        &Pubkey::default_key(), &vec![], false, RENT, 10,
    );
    assert_eq!(out, Ok(PartialUnstakeOutcome::DeactivateSplit { amount: 2 * SOL, split_stake_index: 1, create_split_account: true }));
    assert_eq!(s.emergency_cooling_down, 2 * SOL);
    assert_eq!(s.validator_system.total_active_balance, 8 * SOL);
    assert_eq!(s.stake_system.get(&sdata, 1).unwrap().is_emergency_unstaking, 1);
    // a ready split account must be an uninitialized stake account
    let out = partial_unstake(
        &mut s, &key(7), &mut vdata, &mut sdata, 0, 0, 2 * SOL, &key(40), &delegation(20, 8 * SOL), &key(42),
        &stake_program_id(), &vec![1u8; 200], true, RENT, 10,
    );
    assert_eq!(out, Err(Error::Program(ProgramError::BorshIoError)));
    let mut initialized = vec![0u8; 200];
    initialized[0] = 1;
    let out = partial_unstake(
        &mut s, &key(7), &mut vdata, &mut sdata, 0, 0, 2 * SOL, &key(40), &delegation(20, 8 * SOL), &key(42),
        &stake_program_id(), &initialized, true, RENT, 10,
    );
    assert_eq!(out, Err(Error::Program(ProgramError::InvalidAccountData)));
    let out = partial_unstake(
        &mut s, &key(7), &mut vdata, &mut sdata, 0, 0, 2 * SOL, &key(40), &delegation(20, 8 * SOL), &key(42),
        &stake_program_id(), &vec![0u8; 200], false, RENT, 10,
    );
    assert_eq!(out, Err(Error::Program(ProgramError::InsufficientFunds)));
    // the rest of the account goes through emergency unstake
    emergency_unstake(&mut s, &key(7), &mut vdata, &mut sdata, 0, 0, &key(40), &delegation(20, 8 * SOL)).unwrap();
    assert_eq!(s.emergency_cooling_down, 10 * SOL);
    assert_eq!(s.validator_system.total_active_balance, 0);
    assert_eq!(s.stake_system.get(&sdata, 0).unwrap().is_emergency_unstaking, 1);
    assert_eq!(
        emergency_unstake(&mut s, &key(7), &mut vdata, &mut sdata, 0, 0, &key(40), &delegation(20, 8 * SOL)),
        Err(Error::Marinade(MarinadeError::StakeAccountIsEmergencyUnstaking))
    );
    add_stake(&mut s, &mut sdata, 45, 0);
    assert_eq!(
        emergency_unstake(&mut s, &key(7), &mut vdata, &mut sdata, 2, 1, &key(45), &delegation(21, 0)),
        Err(Error::Marinade(MarinadeError::EmergencyUnstakingFromNonZeroScoredValidator))
    );
}

#[test]
fn validator_registry_keeps_the_score_total() {
    let (mut s, mut vdata, _) = setup(&[(20, 10, 0), (21, 20, 0), (22, 30, 0)]);
    assert_eq!(s.validator_system.total_validator_score, 60);
    set_validator_score(&mut s, &key(7), &mut vdata, 1, &key(21), 5).unwrap();
    assert_eq!(s.validator_system.total_validator_score, 45);
    assert_eq!(
        set_validator_score(&mut s, &key(7), &mut vdata, 1, &key(22), 5),
        Err(Error::Marinade(MarinadeError::WrongValidatorAccountOrIndex))
    );
    let (flag, _) = ValidatorRecord::find_duplication_flag(&state_address(), &key(20)).unwrap();
    remove_validator(&mut s, &key(7), &state_address(), &mut vdata, 0, &key(20), &flag).unwrap();
    assert_eq!(s.validator_system.total_validator_score, 35);
    assert_eq!(s.validator_system.validator_count(), 2);
    // the last validator took the removed one's place
    assert_eq!(s.validator_system.get(&vdata, 0).unwrap().validator_account, key(22));
    let sum: u32 = (0..s.validator_system.validator_count()).map(|i| s.validator_system.get(&vdata, i).unwrap().score).sum();
    assert_eq!(sum, s.validator_system.total_validator_score);
    assert_eq!(
        add_validator(&mut s, &key(7), &state_address(), &mut vdata, &key(23), &key(99), 1),
        Err(Error::Marinade(MarinadeError::WrongValidatorDuplicationFlag))
    );
    assert_eq!(
        add_validator(&mut s, &key(8), &state_address(), &mut vdata, &key(23), &key(99), 1),
        Err(Error::Require(RequireError::ConstraintAddress))
    );
    let rec = s.validator_system.get(&vdata, 0).unwrap();
    s.validator_system.set(&mut vdata, 0, ValidatorRecord { active_balance: 1, ..rec }).unwrap();
    let (flag, _) = ValidatorRecord::find_duplication_flag(&state_address(), &key(22)).unwrap();
    assert_eq!(
        remove_validator(&mut s, &key(7), &state_address(), &mut vdata, 0, &key(22), &flag),
        Err(Error::Marinade(MarinadeError::RemovingValidatorWithBalance))
    );
}

#[test]
fn finalize_delinquent_upgrade_recounts_validators() {
    let (mut s, mut vdata, _) = setup(&[(20, 10, 5 * SOL), (21, 20, 3 * SOL)]);
    for (i, counted) in [(0u32, 4 * SOL), (1u32, 3 * SOL)] {
        let rec = s.validator_system.get(&vdata, i).unwrap();
        s.validator_system.set(&mut vdata, i, ValidatorRecord { delinquent_upgrader_active_balance: counted, ..rec }).unwrap();
    }
    s.delinquent_upgrader = DelinquentUpgraderState::IteratingValidators { visited_count: 0, delinquent_balance_left: SOL };
    finalize_delinquent_upgrade(&mut s, &mut vdata, 1).unwrap();
    assert_eq!(
        s.delinquent_upgrader,
        DelinquentUpgraderState::IteratingValidators { visited_count: 1, delinquent_balance_left: 0 }
    );
    assert_eq!(s.validator_system.get(&vdata, 0).unwrap().active_balance, 4 * SOL);
    assert_eq!(s.validator_system.get(&vdata, 0).unwrap().delinquent_upgrader_active_balance, 0);
    finalize_delinquent_upgrade(&mut s, &mut vdata, 5).unwrap();
    assert_eq!(s.delinquent_upgrader, DelinquentUpgraderState::Done);
    assert_eq!(
        finalize_delinquent_upgrade(&mut s, &mut vdata, 5),
        Err(Error::Marinade(MarinadeError::UpgradingInvariantViolation))
    );
}

#[test]
fn canonical_stake_takes_the_source_record_place() {
    let (mut s, vdata, mut sdata) = setup(&[(20, 10, 5 * SOL)]);
    add_stake(&mut s, &mut sdata, 40, 5 * SOL);
    let (canonical, bump) = find_pair_address(&state_address(), &key(20), b"canonical").unwrap();
    let out = create_canonical_stake(
        &mut s, &state_address(), &vdata, &mut sdata, 0, 0, &canonical, &Pubkey::default_key(), b"canonical", &key(40),
        &delegation(20, 5 * SOL), 5 * SOL + STAKE_RENT, STAKE_RENT, 12,
    )
    .unwrap();
    assert_eq!(out.canonical_stake, canonical);
    assert_eq!(out.bump, bump);
    assert_eq!(s.stake_system.stake_count(), 1);
    let rec = s.stake_system.get(&sdata, 0).unwrap();
    assert_eq!(rec.stake_account, canonical);
    assert_eq!(rec.last_update_delegated_lamports, 5 * SOL);
    assert_eq!(
        create_canonical_stake(
            &mut s, &state_address(), &vdata, &mut sdata, 0, 0, &canonical, &stake_program_id(), b"canonical", &canonical,
            &delegation(20, 5 * SOL), 5 * SOL + STAKE_RENT, STAKE_RENT, 12,
        ),
        Err(Error::Marinade(MarinadeError::CanonicalStakeAccountAlreadyCreated))
    );
    assert_eq!(
        create_canonical_stake(
            &mut s, &state_address(), &vdata, &mut sdata, 0, 0, &key(77), &Pubkey::default_key(), b"canonical", &canonical,
            &delegation(20, 5 * SOL), 5 * SOL + STAKE_RENT, STAKE_RENT, 12,
        ),
        Err(Error::Marinade(MarinadeError::InvalidCanonicalStakeAccountAddress))
    );
}

#[test]
fn initialize_creates_a_fresh_state() {
    let addr = state_address();
    let msol_authority = find_address(&addr, SeedTag::MsolMintAuthority).unwrap().0;
    let lp_authority = find_address(&addr, SeedTag::LpMintAuthority).unwrap().0;
    let (sol_leg, sol_bump) = find_address(&addr, SeedTag::SolLeg).unwrap();
    let msol_leg_authority = find_address(&addr, SeedTag::MsolLegAuthority).unwrap().0;
    let data = InitializeData {
        admin_authority: key(2),
        validator_manager_authority: key(7),
        min_stake: SOL,
        rewards_fee: Fee::from_basis_points(200),
        liq_pool: LiqPoolInitializeData {
            lp_liquidity_target: 100 * SOL,
            lp_max_fee: Fee::from_basis_points(300),
            lp_min_fee: Fee::from_basis_points(30),
            lp_treasury_cut: Fee::from_basis_points(2_500),
        },
        additional_stake_record_space: 0,
        additional_validator_record_space: 0,
        slots_for_stake_delta: 3_000,
        pause_authority: key(10),
    };
    let msol_mint = Mint { mint_authority: Some(msol_authority), supply: 0, freeze_authority: None };
    let accounts = LiqPoolInitializeAccounts {
        lp_mint: key(8),
        lp_mint_info: Mint { mint_authority: Some(lp_authority), supply: 0, freeze_authority: None },
        sol_leg_pda: sol_leg,
        sol_leg_lamports: RENT,
        msol_leg: key(9),
        msol_leg_info: TokenAccount { mint: key(1), owner: msol_leg_authority, amount: 0, delegate: None, delegated_amount: 0 },
    };
    let mut sdata = vec![0u8; 8 + 50 * 4];
    let mut vdata = vec![0u8; 8 + 61 * 4];
    let s = initialize(&addr, data, 255, &key(5), &mut sdata, &key(6), &mut vdata, &key(1), &msol_mint, &key(3), &key(4),
        RENT, RENT, &accounts).unwrap();
    assert_eq!(s.msol_price, PRICE_DENOMINATOR);
    assert_eq!(s.liq_pool.sol_leg_bump_seed, sol_bump);
    assert_eq!(s.stake_system.min_stake, SOL);
    assert_eq!(s.stake_system.stake_list_capacity(sdata.len()), Ok(4));
    assert_eq!(&sdata[0..8], b"staker__");
    assert_eq!(&vdata[0..8], b"validatr");
    assert_eq!(s.staking_sol_cap, u64::MAX);
    assert_eq!(s.delinquent_upgrader, DelinquentUpgraderState::Done);
    // a second initialization of the same lists is refused
    let again = initialize(&addr, data, 255, &key(5), &mut sdata, &key(6), &mut vdata, &key(1), &msol_mint, &key(3),
        &key(4), RENT, RENT, &accounts);
    assert_eq!(again.err(), Some(Error::Program(ProgramError::AccountAlreadyInitialized)));
    let mut fresh_s = vec![0u8; 8 + 50];
    let mut fresh_v = vec![0u8; 8 + 61];
    let bad_fee = InitializeData { rewards_fee: Fee::from_basis_points(1_001), ..data };
    assert_eq!(
        initialize(&addr, bad_fee, 255, &key(5), &mut fresh_s, &key(6), &mut fresh_v, &key(1), &msol_mint, &key(3),
            &key(4), RENT, RENT, &accounts).err(),
        Some(Error::Marinade(MarinadeError::RewardsFeeIsTooHigh))
    );
    assert_eq!(
        initialize(&addr, data, 255, &key(5), &mut fresh_s, &key(5), &mut fresh_v, &key(1), &msol_mint, &key(3),
            &key(4), RENT, RENT, &accounts).err(),
        Some(Error::Require(RequireError::RequireKeysNeqViolated))
    );
    assert_eq!(
        initialize(&addr, data, 255, &key(5), &mut fresh_s, &key(6), &mut fresh_v, &key(1), &msol_mint, &key(3),
            &key(4), RENT + 1, RENT, &accounts).err(),
        Some(Error::Require(RequireError::RequireEqViolated))
    );
    assert_eq!(fresh_s, vec![0u8; 8 + 50]);
}

#[test]
fn deposit_stake_account_takes_over_an_active_stake() {
    let (mut s, mut vdata, mut sdata) = setup(&[(20, 100, 0)]);
    let stake = StakeAccountInfo {
        lamports: 2 * SOL + STAKE_RENT,
        delegation: delegation(20, 2 * SOL),
        rent_exempt_reserve: STAKE_RENT,
        staker: key(50),
        withdrawer: key(50),
        lockup_in_force: false,
        lockup_has_custodian: false,
    };
    let out = deposit_stake_account(&mut s, &state_address(), &mut sdata, &mut vdata, 0, &key(40), &stake, 0, 5).unwrap();
    assert_eq!(out.delegated, 2 * SOL);
    // no mSOL exists yet: one for one
    assert_eq!(out.msol_minted, 2 * SOL);
    assert_eq!(out.stake_index, 0);
    assert!(!out.clear_lockup);
    assert_eq!(
        Some(out.new_staker),
        create_address(&state_address(), SeedTag::StakeDeposit, s.stake_system.stake_deposit_bump_seed)
    );
    assert_eq!(
        Some(out.new_withdrawer),
        create_address(&state_address(), SeedTag::StakeWithdraw, s.stake_system.stake_withdraw_bump_seed)
    );
    assert_eq!(s.msol_supply, 2 * SOL);
    assert_eq!(s.validator_system.total_active_balance, 2 * SOL);
    assert_eq!(s.validator_system.get(&vdata, 0).unwrap().active_balance, 2 * SOL);
    let rec = s.stake_system.get(&sdata, 0).unwrap();
    assert_eq!(rec.stake_account, key(40));
    assert_eq!(rec.last_update_delegated_lamports, 2 * SOL);
    assert_eq!(rec.last_update_epoch, 5);
    // the program's own stake cannot come in twice
    let again = StakeAccountInfo { staker: out.new_staker, withdrawer: out.new_withdrawer, ..stake };
    assert_eq!(
        deposit_stake_account(&mut s, &state_address(), &mut sdata, &mut vdata, 0, &key(40), &again, 2 * SOL, 5),
        Err(Error::Marinade(MarinadeError::RedepositingMarinadeStake))
    );
    // the validator index must name the delegation's voter
    let elsewhere = StakeAccountInfo { delegation: delegation(21, 2 * SOL), ..stake };
    assert_eq!(
        deposit_stake_account(&mut s, &state_address(), &mut sdata, &mut vdata, 0, &key(41), &elsewhere, 2 * SOL, 5),
        Err(Error::Marinade(MarinadeError::WrongValidatorAccountOrIndex))
    );
    assert_eq!(
        deposit_stake_account(&mut s, &state_address(), &mut sdata, &mut vdata, 3, &key(41), &stake, 2 * SOL, 5),
        Err(Error::Program(ProgramError::InvalidArgument))
    );
    let locked = StakeAccountInfo { lockup_in_force: true, ..stake };
    assert_eq!(
        deposit_stake_account(&mut s, &state_address(), &mut sdata, &mut vdata, 0, &key(41), &locked, 2 * SOL, 5),
        Err(Error::Marinade(MarinadeError::StakeAccountWithLockup))
    );
    assert_eq!(s.stake_system.stake_count(), 1);
}
