use std::collections::BTreeSet;

use marinade_finance::calc::{proportional, shares_from_value, value_from_shares};
use marinade_finance::checks::{check_context, check_stake_amount_and_validator, check_token_source_account, Delegation, TokenAccount};
use marinade_finance::error::{MarinadeError, ProgramError};
use marinade_finance::fee::{Fee, FeeCents};
use marinade_finance::liq_pool::LiqPool;
use marinade_finance::list::List;
use marinade_finance::pda::{create_address, find_address, find_pair_address, program_id, stake_program_id, token_program_id, SeedTag};
use marinade_finance::pubkey::Pubkey;
use marinade_finance::stake_system::{StakeRecord, StakeStatus};
use marinade_finance::validator_system::ValidatorRecord;

fn key(b: u8) -> Pubkey {
    Pubkey::new_from_array([b; 32])
}

#[test]
fn test_remove() -> Result<(), ProgramError> {
    const COUNT: usize = 10;
    for remove_index in 0..COUNT {
        let mut list_data = vec![0u8; COUNT + 8];
        let list_account = key(77);
        let discriminator = &[1, 2, 3, 4, 5, 6, 7, 8];
        let mut list = List::new(discriminator, 1u32, list_account, &mut list_data, "test_list")?;
        for i in 0..COUNT {
            list.push(&mut list_data, &[9 + i as u8], "test_list")?;
        }
        assert_eq!(list.len(), COUNT as u32);
        for i in 0..COUNT {
            assert_eq!(list.get(&list_data, i as u32, "test_list")?, vec![9 + i as u8]);
        }

        list.remove(&mut list_data, remove_index as u32, "test_list")?;
        assert_eq!(list.len(), COUNT as u32 - 1);
        let expected_set: BTreeSet<u8> = (0..COUNT).filter(|i| *i as usize != remove_index).map(|x| (x + 9) as u8).collect();
        let result_set = (0..list.len())
            .map(|i| list.get(&list_data, i as u32, "test_list").map(|v| v[0]))
            .collect::<Result<BTreeSet<u8>, ProgramError>>()?;

        assert_eq!(expected_set, result_set);
    }
    Ok(())
}

#[test]
fn list_new_stamps_discriminator_and_refuses_reuse() {
    let mut data = vec![0u8; 8 + 3 * 4];
    let list = List::new(&[1, 2, 3, 4, 5, 6, 7, 8], 4, key(1), &mut data, "l").unwrap();
    assert_eq!(&data[0..8], &[1, 2, 3, 4, 5, 6, 7, 8]);
    assert_eq!(list.len(), 0);
    assert!(list.is_empty());
    assert_eq!(list.capacity(data.len()), Ok(3));
    assert_eq!(
        List::new(&[1, 2, 3, 4, 5, 6, 7, 8], 4, key(1), &mut data, "l").err(),
        Some(ProgramError::AccountAlreadyInitialized)
    );
    let mut short = vec![0u8; 7];
    assert_eq!(List::new(&[1; 8], 4, key(1), &mut short, "l").err(), Some(ProgramError::AccountDataTooSmall));
}

#[test]
fn list_push_set_get_round_trip_and_errors() {
    let mut data = vec![0u8; 8 + 2 * 3];
    let mut list = List::new(&[9; 8], 3, key(2), &mut data, "l").unwrap();
    list.push(&mut data, &[1, 2, 3], "l").unwrap();
    list.push(&mut data, &[4, 5], "l").unwrap();
    assert_eq!(list.get(&data, 0, "l").unwrap(), vec![1, 2, 3]);
    // a shorter item keeps the slot's other bytes
    assert_eq!(list.get(&data, 1, "l").unwrap(), vec![4, 5, 0]);
    // full
    assert_eq!(list.push(&mut data, &[7], "l"), Err(ProgramError::AccountDataTooSmall));
    list.set(&mut data, 0, &[6, 6, 6], "l").unwrap();
    assert_eq!(list.get(&data, 0, "l").unwrap(), vec![6, 6, 6]);
    assert_eq!(list.get(&data, 2, "l"), Err(ProgramError::InvalidArgument));
    assert_eq!(list.set(&mut data, 2, &[1], "l"), Err(ProgramError::InvalidArgument));
    // an item larger than the slot cannot be stored
    assert_eq!(list.set(&mut data, 0, &[1, 2, 3, 4], "l"), Err(ProgramError::BorshIoError));
    assert_eq!(list.remove(&mut data, 5, "l"), Err(ProgramError::InvalidArgument));
}

#[test]
fn list_remove_touches_only_the_refilled_slot() {
    let mut data = vec![0u8; 8 + 4 * 2];
    let mut list = List::new(&[3; 8], 2, key(5), &mut data, "l").unwrap();
    for i in 0..4u8 {
        list.push(&mut data, &[10 + i, 20 + i], "l").unwrap();
    }
    let before = data.clone();
    list.remove(&mut data, 1, "l").unwrap();
    assert_eq!(list.len(), 3);
    // the last item moved into slot 1; the discriminator and the freed slot are untouched
    assert_eq!(&data[0..8], &before[0..8]);
    assert_eq!(&data[10..12], &[13, 23]);
    assert_eq!(&data[8..10], &before[8..10]);
    assert_eq!(&data[12..16], &before[12..16]);
    // removing the last item changes no byte
    let before = data.clone();
    list.remove(&mut data, 2, "l").unwrap();
    assert_eq!(list.len(), 2);
    assert_eq!(data, before);
}

#[test]
fn list_sizes() {
    assert_eq!(List::bytes_for(50, 10), 8 + 500);
    assert_eq!(List::capacity_of(50, 8 + 500), 10);
    assert_eq!(List::capacity_of(50, 8 + 549), 10);
}

#[test]
fn proportional_examples() {
    assert_eq!(proportional(10, 3, 4), Ok(7));
    assert_eq!(proportional(10, 0, 4), Ok(0));
    // no denominator: the amount itself
    assert_eq!(proportional(123, 5, 0), Ok(123));
    assert_eq!(proportional(u64::MAX, u64::MAX, 1), Err(MarinadeError::CalculationFailure));
    assert_eq!(proportional(u64::MAX, u64::MAX, u64::MAX), Ok(u64::MAX));
}

#[test]
fn value_and_shares_examples() {
    // 100 shares stand for 150 lamports
    assert_eq!(value_from_shares(10, 150, 100), Ok(15));
    assert_eq!(shares_from_value(15, 150, 100), Ok(10));
    // first mint: one share per lamport
    assert_eq!(shares_from_value(42, 0, 0), Ok(42));
    // rounding is down both ways: a round trip never gains
    let shares = shares_from_value(7, 3, 2).unwrap();
    assert_eq!(shares, 4);
    assert!(value_from_shares(shares, 3, 2).unwrap() <= 7);
}

#[test]
fn fee_examples() {
    let fee = Fee::from_basis_points(250);
    assert_eq!(fee.apply(10_000), 250);
    assert_eq!(fee.apply(399), 9);
    assert_eq!(fee.check(), Ok(()));
    assert_eq!(Fee::from_basis_points(10_001).check(), Err(MarinadeError::BasisPointsOverflow));
    let cents = FeeCents::from_bp_cents(1_500);
    assert_eq!(cents.apply(1_000_000), 1_500);
    assert_eq!(cents.check(), Ok(()));
    assert_eq!(FeeCents::from_bp_cents(1_000_001).check(), Err(MarinadeError::BasisPointCentsOverflow));
    // a fee is bounded by the amount and grows with it
    assert!(Fee::from_basis_points(10_000).apply(77) <= 77);
    assert!(fee.apply(1000) <= fee.apply(2000));
}

#[test]
fn stake_record_round_trip() {
    let rec = StakeRecord {
        stake_account: key(5),
        last_update_delegated_lamports: 123_456_789,
        last_update_epoch: 321,
        is_emergency_unstaking: 1,
        last_update_status: StakeStatus::Deactivating,
    };
    let bytes = rec.encode();
    assert_eq!(bytes.len(), 50);
    assert_eq!(&bytes[0..32], &[5u8; 32]);
    assert_eq!(&bytes[32..40], &123_456_789u64.to_le_bytes());
    assert_eq!(bytes[49], 2);
    assert_eq!(StakeRecord::decode(&bytes), Ok(rec));
    let mut bad = bytes.clone();
    bad[49] = 3;
    assert_eq!(StakeRecord::decode(&bad), Err(ProgramError::BorshIoError));
    assert_eq!(StakeRecord::decode(&bytes[..49]), Err(ProgramError::BorshIoError));
}

#[test]
fn validator_record_round_trip() {
    let rec = ValidatorRecord {
        validator_account: key(6),
        active_balance: 5,
        score: 7,
        last_stake_delta_epoch: u64::MAX,
        duplication_flag_bump_seed: 254,
        delinquent_upgrader_active_balance: 3,
    };
    let bytes = rec.encode();
    assert_eq!(bytes.len(), 61);
    assert_eq!(&bytes[40..44], &7u32.to_le_bytes());
    assert_eq!(ValidatorRecord::decode(&bytes), Ok(rec));
    assert_eq!(ValidatorRecord::decode(&bytes[..60]), Err(ProgramError::BorshIoError));
}

#[test]
fn derived_addresses_agree() {
    let state = key(11);
    let (reserve, bump) = find_address(&state, SeedTag::Reserve).unwrap();
    // the derived address is neither the base nor the program
    assert_ne!(reserve, state);
    assert_ne!(reserve, program_id());
    // recreating it from the bump gives the same address
    assert_eq!(create_address(&state, SeedTag::Reserve, bump), Some(reserve));
    // another tag gives another address
    let (deposit, _) = find_address(&state, SeedTag::StakeDeposit).unwrap();
    assert_ne!(deposit, reserve);
    let (pair, _) = find_pair_address(&state, &key(12), b"canonical").unwrap();
    assert_ne!(pair, state);
    assert_ne!(pair, key(12));
    assert_ne!(find_pair_address(&state, &key(13), b"canonical").unwrap().0, pair);
}

#[test]
fn well_known_ids() {
    assert_eq!(
        program_id().to_bytes(),
        [5u8, 69, 227, 101, 190, 242, 113, 173, 117, 53, 3, 103, 86, 93, 164, 13, 163, 54, 220, 28, 135, 155, 177, 84,
            138, 122, 252, 197, 90, 169, 57, 30]
    );
    assert_eq!(token_program_id().to_bytes()[0], 6);
    assert_eq!(stake_program_id().to_bytes()[28..32], [0u8, 0, 0, 0]);
}

#[test]
fn check_context_cases() {
    assert_eq!(check_context(&program_id(), 0), Ok(()));
    assert_eq!(check_context(&key(1), 0), Err(MarinadeError::InvalidProgramId));
    assert_eq!(check_context(&program_id(), 2), Err(MarinadeError::UnexpectedAccount));
}

#[test]
fn stake_amount_and_validator_checks() {
    let d = Delegation { voter_pubkey: key(3), stake: 100, activation_epoch: 1, deactivation_epoch: u64::MAX };
    assert_eq!(check_stake_amount_and_validator(&Some(d), 100, &key(3)), Ok(()));
    assert_eq!(check_stake_amount_and_validator(&None, 100, &key(3)), Err(MarinadeError::StakeNotDelegated));
    assert_eq!(
        check_stake_amount_and_validator(&Some(d), 100, &key(4)),
        Err(MarinadeError::WrongValidatorAccountOrIndex)
    );
    assert_eq!(
        check_stake_amount_and_validator(&Some(d), 99, &key(3)),
        Err(MarinadeError::StakeAccountNotUpdatedYet)
    );
}

#[test]
fn token_source_checks() {
    let owned = TokenAccount { mint: key(1), owner: key(2), amount: 50, delegate: None, delegated_amount: 0 };
    assert_eq!(check_token_source_account(&owned, &key(2), 50), Ok(()));
    assert_eq!(check_token_source_account(&owned, &key(2), 51), Err(MarinadeError::NotEnoughUserFunds));
    assert_eq!(check_token_source_account(&owned, &key(3), 1), Err(MarinadeError::WrongTokenOwnerOrDelegate));
    let delegated = TokenAccount { delegate: Some(key(3)), delegated_amount: 10, ..owned };
    assert_eq!(check_token_source_account(&delegated, &key(3), 10), Ok(()));
    assert_eq!(check_token_source_account(&delegated, &key(3), 11), Err(MarinadeError::NotEnoughUserFunds));
}

#[test]
fn error_codes() {
    assert_eq!(MarinadeError::WrongReserveOwner.code(), 6000);
    assert_eq!(MarinadeError::CalculationFailure.code(), 6013);
    assert_eq!(MarinadeError::ProgramIsPaused.code(), 6077);
}

#[test]
fn default_msol_leg_is_derived_with_the_leg_seed_for_the_token_program() {
    let state = key(3);
    let derived = LiqPool::default_msol_leg_address(&state).unwrap();
    let runtime_state = anchor_lang::solana_program::pubkey::Pubkey::new_from_array([3; 32]);
    let expected =
        anchor_lang::solana_program::pubkey::Pubkey::create_with_seed(&runtime_state, "liq_st_sol", &spl_token::id())
            .unwrap();
    assert_eq!(derived.to_bytes(), expected.to_bytes());
    assert_ne!(derived, state);
}
