use marinade_finance::admin::{
    change_authority, config_lp, config_marinade, config_validator_system, pause, realloc_stake_list, resume,
    set_emergency_pause, ChangeAuthorityData, ConfigLpParams, ConfigMarinadeParams, ValueChange,
};
use marinade_finance::checks::TokenAccount;
use marinade_finance::delayed_unstake::{check_ticket_account, claim, order_unstake, TicketAccountData};
use marinade_finance::error::{Error, MarinadeError, ProgramError};
use marinade_finance::fee::{Fee, FeeCents};
use marinade_finance::liq_pool::LiqPool;
use marinade_finance::list::List;
use marinade_finance::liquidity::{add_liquidity, liquid_unstake, remove_liquidity};
use marinade_finance::pda::token_program_id;
use marinade_finance::pubkey::Pubkey;
use marinade_finance::stake_system::StakeSystem;
use marinade_finance::state::{DelinquentUpgraderState, State, PRICE_DENOMINATOR};
use marinade_finance::user::deposit;
use marinade_finance::validator_system::ValidatorSystem;

const RENT: u64 = 2_039_280;

fn key(b: u8) -> Pubkey {
    Pubkey::new_from_array([b; 32])
}

fn list(account: u8, item_size: u32) -> List {
    List { account: key(account), item_size, count: 0, new_account: Pubkey::default_key(), copied_count: 0 }
}

fn base_state() -> State {
    State {
        msol_mint: key(1),
        admin_authority: key(2),
        operational_sol_account: key(3),
        treasury_msol_account: key(4),
        reserve_bump_seed: 255,
        msol_mint_authority_bump_seed: 254,
        rent_exempt_for_token_acc: RENT,
        reward_fee: Fee::from_basis_points(200),
        stake_system: StakeSystem {
            stake_list: list(5, 50),
            delayed_unstake_cooling_down: 0,
            stake_deposit_bump_seed: 253,
            stake_withdraw_bump_seed: 252,
            slots_for_stake_delta: 3_000,
            last_stake_delta_epoch: u64::MAX,
            min_stake: 1_000_000_000,
            extra_stake_delta_runs: 0,
        },
        validator_system: ValidatorSystem {
            validator_list: list(6, 61),
            manager_authority: key(7),
            total_validator_score: 0,
            total_active_balance: 0,
            auto_add_validator_enabled: 0,
        },
        liq_pool: LiqPool {
            lp_mint: key(8),
            lp_mint_authority_bump_seed: 251,
            sol_leg_bump_seed: 250,
            msol_leg_authority_bump_seed: 249,
            msol_leg: key(9),
            lp_liquidity_target: 100_000_000_000,
            lp_max_fee: Fee::from_basis_points(300),
            lp_min_fee: Fee::from_basis_points(30),
            treasury_cut: Fee::from_basis_points(2_500),
            lp_supply: 0,
            lent_from_sol_leg: 0,
            liquidity_sol_cap: u64::MAX,
        },
        available_reserve_balance: 0,
        msol_supply: 0,
        msol_price: PRICE_DENOMINATOR,
        circulating_ticket_count: 0,
        circulating_ticket_balance: 0,
        lent_from_reserve: 0,
        min_deposit: 1,
        min_withdraw: 1,
        staking_sol_cap: u64::MAX,
        emergency_cooling_down: 0,
        pause_authority: key(10),
        paused: false,
        delayed_unstake_fee: FeeCents::from_bp_cents(0),
        withdraw_stake_account_fee: FeeCents::from_bp_cents(0),
        withdraw_stake_account_enabled: false,
        delinquent_upgrader: DelinquentUpgraderState::Done,
    }
}

fn token(mint: u8, owner: u8, amount: u64) -> TokenAccount {
    TokenAccount { mint: key(mint), owner: key(owner), amount, delegate: None, delegated_amount: 0 }
}

/// The bytes of an initialized token account of `mint` holding `amount`.
fn token_account_data(mint: u8, owner: u8, amount: u64) -> Vec<u8> {
    let mut d = Vec::new();
    d.extend_from_slice(&[mint; 32]);
    d.extend_from_slice(&[owner; 32]);
    d.extend_from_slice(&amount.to_le_bytes());
    d.extend_from_slice(&[0u8; 36]); // no delegate
    d.push(1); // initialized
    d.extend_from_slice(&[0u8; 12]); // not native
    d.extend_from_slice(&0u64.to_le_bytes());
    d.extend_from_slice(&[0u8; 36]); // no close authority
    assert_eq!(d.len(), 165);
    d
}

#[test]
fn first_deposit_mints_one_for_one() {
    let mut s = base_state();
    let out = deposit(&mut s, 5_000_000_000, 10_000_000_000, 0, 0).unwrap();
    assert_eq!(out.msol_swapped, 0);
    assert_eq!(out.sol_deposited, 5_000_000_000);
    assert_eq!(out.msol_minted, 5_000_000_000);
    assert_eq!(s.available_reserve_balance, 5_000_000_000);
    assert_eq!(s.msol_supply, 5_000_000_000);
}

#[test]
fn deposit_at_a_higher_price_mints_less() {
    let mut s = base_state();
    s.available_reserve_balance = 2_000;
    s.msol_supply = 1_000;
    // 1 mSOL is worth 2 lamports
    let out = deposit(&mut s, 100, 1_000, 1_000, 0).unwrap();
    assert_eq!(out.msol_minted, 50);
    assert_eq!(s.msol_supply, 1_050);
    assert_eq!(s.available_reserve_balance, 2_100);
    // what the minted mSOL is worth never exceeds the deposit
    assert!(s.msol_to_sol(out.msol_minted).unwrap() <= 100);
}

#[test]
fn deposit_buys_from_the_pool_first() {
    let mut s = base_state();
    s.available_reserve_balance = 1_000;
    s.msol_supply = 1_000;
    let out = deposit(&mut s, 100, 1_000, 1_000, 40).unwrap();
    assert_eq!(out.msol_swapped, 40);
    assert_eq!(out.sol_swapped, 40);
    assert_eq!(out.sol_deposited, 60);
    assert_eq!(out.msol_minted, 60);
}

#[test]
fn deposit_errors() {
    let mut s = base_state();
    s.min_deposit = 10;
    assert_eq!(deposit(&mut s, 9, 100, 0, 0), Err(Error::Marinade(MarinadeError::DepositAmountIsTooLow)));
    assert_eq!(deposit(&mut s, 50, 49, 0, 0), Err(Error::Marinade(MarinadeError::NotEnoughUserFunds)));
    assert_eq!(deposit(&mut s, 50, 100, 1, 0), Err(Error::Marinade(MarinadeError::UnregisteredMsolMinted)));
    s.staking_sol_cap = 40;
    assert_eq!(deposit(&mut s, 50, 100, 0, 0), Err(Error::Marinade(MarinadeError::StakingIsCapped)));
    assert_eq!(s.msol_supply, 0);
}

#[test]
fn state_totals_and_price() {
    let mut s = base_state();
    s.validator_system.total_active_balance = 700;
    s.stake_system.delayed_unstake_cooling_down = 100;
    s.emergency_cooling_down = 50;
    s.available_reserve_balance = 150;
    s.circulating_ticket_balance = 200;
    s.msol_supply = 400;
    assert_eq!(s.total_cooling_down(), 150);
    assert_eq!(s.total_lamports_under_control(), 1_000);
    assert_eq!(s.total_virtual_staked_lamports(), 800);
    assert_eq!(s.msol_to_sol(100), Ok(200));
    assert_eq!(s.calc_msol_from_lamports(200), Ok(100));
    assert_eq!(s.update_msol_price(), Ok((PRICE_DENOMINATOR, 2 * PRICE_DENOMINATOR)));
    assert_eq!(s.msol_price, 2 * PRICE_DENOMINATOR);
    s.staking_sol_cap = 1_050;
    assert_eq!(s.check_staking_cap(50), Ok(()));
    assert_eq!(s.check_staking_cap(51), Err(MarinadeError::StakingIsCapped));
}

#[test]
fn stake_delta_cases() {
    let mut s = base_state();
    // reserve above rent plus delayed cooling down, minus what tickets owe
    s.stake_system.delayed_unstake_cooling_down = 10;
    s.circulating_ticket_balance = 5;
    assert_eq!(s.stake_delta(RENT + 100), 105);
    // tickets owe more: negative, reduced by emergency cooling down
    s.circulating_ticket_balance = 200;
    s.emergency_cooling_down = 30;
    assert_eq!(s.stake_delta(RENT + 100), -60);
    // emergency cooling down never makes it positive
    s.emergency_cooling_down = 500;
    assert_eq!(s.stake_delta(RENT + 100), 0);
}

#[test]
fn treasury_balance_reads_the_token_account() {
    let s = base_state();
    let data = token_account_data(1, 4, 77);
    assert_eq!(s.get_treasury_msol_balance(&token_program_id(), &data), Some(77));
    // not owned by the token program
    assert_eq!(s.get_treasury_msol_balance(&key(42), &data), None);
    // another mint
    assert_eq!(s.get_treasury_msol_balance(&token_program_id(), &token_account_data(2, 4, 77)), None);
    // not a token account
    assert_eq!(s.get_treasury_msol_balance(&token_program_id(), &vec![0u8; 10]), None);
}

#[test]
fn liquid_unstake_fee_follows_liquidity() {
    let mut s = base_state();
    s.available_reserve_balance = 1_000_000_000_000;
    s.msol_supply = 1_000_000_000_000;
    let src = token(1, 20, 10_000_000_000);
    let treasury = token_account_data(1, 4, 0);
    // plenty of liquidity left: the min fee
    let out = liquid_unstake(&s, 1_000_000_000, &src, &key(20), &token_program_id(), &treasury, RENT + 1_000_000_000_000)
        .unwrap();
    assert_eq!(out.msol_fee, 3_000_000);
    assert_eq!(out.sol_amount, 997_000_000);
    assert_eq!(out.treasury_msol_cut, 750_000);
    assert_eq!(out.msol_to_pool, 1_000_000_000 - 750_000);
    // the user takes everything there is: the max fee
    let out = liquid_unstake(&s, 1_000_000_000, &src, &key(20), &key(42), &treasury, RENT + 900_000_000).err();
    assert_eq!(out, Some(Error::Marinade(MarinadeError::InsufficientLiquidity)));
    let out = liquid_unstake(&s, 1_000_000_000, &src, &key(20), &key(42), &treasury, RENT + 999_999_999_999).unwrap();
    // no treasury cut when the treasury cannot receive mSOL
    assert_eq!(out.treasury_msol_cut, 0);
    assert!(out.msol_fee >= 3_000_000 && out.msol_fee <= 30_000_000);
    s.paused = true;
    assert_eq!(
        liquid_unstake(&s, 1, &src, &key(20), &key(42), &treasury, RENT),
        Err(Error::Marinade(MarinadeError::ProgramIsPaused))
    );
}

#[test]
fn liquidity_add_then_remove() {
    let mut s = base_state();
    s.available_reserve_balance = 1_000;
    s.msol_supply = 1_000;
    let lp = add_liquidity(&mut s, 1_000_000, 2_000_000, RENT, 0, 0).unwrap();
    assert_eq!(lp, 1_000_000);
    assert_eq!(s.liq_pool.lp_supply, 1_000_000);
    let burn_from = token(8, 30, lp);
    let msol_to = token(1, 30, 0);
    let out = remove_liquidity(&mut s, lp / 2, &burn_from, &key(30), &msol_to, lp, RENT + 1_000_000, 0).unwrap();
    assert_eq!(out.sol_out_amount, 500_000);
    assert_eq!(out.msol_out_amount, 0);
    assert_eq!(s.liq_pool.lp_supply, lp - lp / 2);
    assert_eq!(
        remove_liquidity(&mut s, lp, &burn_from, &key(31), &msol_to, lp, RENT + 1_000_000, 0).err(),
        Some(Error::Program(ProgramError::InvalidArgument))
    );
    assert_eq!(
        add_liquidity(&mut s, 10, 9, RENT, 0, 0),
        Err(Error::Program(ProgramError::InsufficientFunds))
    );
}

#[test]
fn ticket_is_paid_once_and_restores_circulation() {
    let mut s = base_state();
    s.available_reserve_balance = 10_000_000_000;
    s.msol_supply = 10_000_000_000;
    s.delayed_unstake_fee = FeeCents::from_bp_cents(1_000); // 0.1%
    let state_address = key(50);
    let src = token(1, 21, 2_000_000_000);
    let mut ticket = order_unstake(&mut s, &state_address, 1_000_000_000, &src, &key(21), 100).unwrap();
    assert_eq!(ticket.lamports_amount, 999_000_000);
    assert_eq!(ticket.beneficiary, key(21));
    assert_eq!(ticket.created_epoch, 100);
    assert_eq!(s.circulating_ticket_count, 1);
    assert_eq!(s.circulating_ticket_balance, 999_000_000);
    assert_eq!(s.msol_supply, 9_000_000_000);
    // not due in the same epoch, nor early in the next one
    assert_eq!(
        check_ticket_account(&ticket, &state_address, 100, 0, 0),
        Err(MarinadeError::TicketNotDue)
    );
    assert_eq!(
        check_ticket_account(&ticket, &state_address, 101, 100, 0),
        Err(MarinadeError::TicketNotReady)
    );
    assert_eq!(claim(&mut s, &mut ticket, &state_address, 101, 1_800, 0, RENT + 10_000_000_000), Ok(999_000_000));
    assert_eq!(s.circulating_ticket_count, 0);
    assert_eq!(s.circulating_ticket_balance, 0);
    assert_eq!(s.available_reserve_balance, 10_000_000_000 - 999_000_000);
    // a claimed ticket is refused
    s.circulating_ticket_count = 1;
    assert_eq!(
        claim(&mut s, &mut ticket, &state_address, 102, 0, 0, RENT + 10_000_000_000),
        Err(Error::Marinade(MarinadeError::ReusingDelayedUnstakeTicket))
    );
}

#[test]
fn ticket_errors() {
    let mut s = base_state();
    s.circulating_ticket_count = 1;
    s.circulating_ticket_balance = 500;
    s.available_reserve_balance = 100;
    let mut ticket = TicketAccountData { state_address: key(50), beneficiary: key(1), lamports_amount: 500, created_epoch: 5 };
    assert_eq!(
        check_ticket_account(&ticket, &key(51), 9, 0, 0),
        Err(MarinadeError::InvalidDelayedUnstakeTicket)
    );
    // the reserve does not hold it yet
    assert_eq!(
        claim(&mut s, &mut ticket, &key(50), 9, 0, 0, RENT + 400),
        Err(Error::Marinade(MarinadeError::TicketNotReady))
    );
    assert_eq!(ticket.lamports_amount, 500);
    let mut s2 = base_state();
    s2.paused = true;
    assert_eq!(
        order_unstake(&mut s2, &key(50), 1, &token(1, 21, 10), &key(21), 1),
        Err(Error::Marinade(MarinadeError::ProgramIsPaused))
    );
}

#[test]
fn pause_then_resume_restores_the_state() {
    let mut s = base_state();
    assert_eq!(pause(&mut s, &key(99)), Err(Error::Marinade(MarinadeError::InvalidPauseAuthority)));
    pause(&mut s, &key(10)).unwrap();
    assert!(s.paused);
    assert_eq!(pause(&mut s, &key(10)), Err(Error::Marinade(MarinadeError::AlreadyPaused)));
    resume(&mut s, &key(10)).unwrap();
    assert!(!s.paused);
    assert_eq!(resume(&mut s, &key(10)), Err(Error::Marinade(MarinadeError::NotPaused)));
    assert_eq!(set_emergency_pause(&mut s, &key(10), true), Ok(()));
    assert!(s.paused);
}

#[test]
fn admin_changes() {
    let mut s = base_state();
    let data = ChangeAuthorityData { admin: Some(key(60)), ..Default::default() };
    assert_eq!(change_authority(&mut s, &key(61), data), Err(Error::Marinade(MarinadeError::InvalidAdminAuthority)));
    let changes = change_authority(&mut s, &key(2), data).unwrap();
    assert_eq!(changes.admin_change, Some(ValueChange { old: key(2), new: key(60) }));
    assert_eq!(changes.validator_manager_change, None);
    assert_eq!(changes.pause_authority_change, None);
    assert_eq!(s.admin_authority, key(60));
    assert_eq!(s.validator_system.manager_authority, key(7));

    let bad = ConfigLpParams { max_fee: Some(Fee::from_basis_points(1_001)), ..Default::default() };
    assert_eq!(config_lp(&mut s, &key(60), bad), Err(Error::Marinade(MarinadeError::LpMaxFeeIsTooHigh)));
    let good = ConfigLpParams { liquidity_target: Some(60_000_000_000), ..Default::default() };
    config_lp(&mut s, &key(60), good).unwrap();
    assert_eq!(s.liq_pool.lp_liquidity_target, 60_000_000_000);

    let params = ConfigMarinadeParams { min_withdraw: Some(100_000_001), ..Default::default() };
    assert_eq!(config_marinade(&mut s, &key(60), params), Err(Error::Marinade(MarinadeError::MinWithdrawIsTooHigh)));
    let old_cap = s.staking_sol_cap;
    let old_min_deposit = s.min_deposit;
    let params = ConfigMarinadeParams {
        staking_sol_cap: Some(5),
        min_deposit: Some(7),
        auto_add_validator_enabled: Some(true),
        ..Default::default()
    };
    let changes = config_marinade(&mut s, &key(60), params).unwrap();
    assert_eq!(changes.staking_sol_cap_change, Some(ValueChange { old: old_cap, new: 5 }));
    assert_eq!(changes.min_deposit_change, Some(ValueChange { old: old_min_deposit, new: 7 }));
    assert_eq!(changes.auto_add_validator_enabled_change, Some(ValueChange { old: false, new: true }));
    assert_eq!(changes.rewards_fee_change, None);
    assert_eq!(s.validator_system.auto_add_validator_enabled, 1);
    assert_eq!(s.staking_sol_cap, 5);
    assert_eq!(s.min_deposit, 7);

    assert_eq!(config_validator_system(&mut s, &key(60), 3), Err(Error::Marinade(MarinadeError::InvalidValidatorManager)));
    config_validator_system(&mut s, &key(7), 3).unwrap();
    assert_eq!(s.stake_system.extra_stake_delta_runs, 3);
    assert_eq!(realloc_stake_list(&s, &key(60), 10), Ok(0));
}
