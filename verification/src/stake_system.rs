//! The registry of stake accounts the program controls.
use vstd::prelude::*;

use crate::codec::{get_pubkey, get_u64, le_bytes_u64, lemma_bytes_of_u64_value, lemma_u64_round_trip, put_pubkey, put_u64};
use crate::error::{Error, MarinadeError, ProgramError};
use crate::list::{slot_after_write, swap_remove, write_slot, List};
use crate::pda::{find_address, spec_program_id, spec_seeds, spec_try_find_program_address, SeedTag};
use crate::pubkey::{default_key_view, lemma_pubkey_view_injective, Pubkey};

verus! {

/// Size of an encoded stake record.
pub const STAKE_RECORD_SIZE: u32 = 50;

/// What the program last observed of a stake account.
#[derive(Clone, Copy, Debug, PartialEq, Eq)]
pub enum StakeStatus {
    Unknown,
    Active,
    Deactivating,
}

/// One controlled stake account.
#[derive(Clone, Copy, Debug, PartialEq, Eq)]
pub struct StakeRecord {
    pub stake_account: Pubkey,
    pub last_update_delegated_lamports: u64,
    pub last_update_epoch: u64,
    pub is_emergency_unstaking: u8,  // 1 for cooling down after emergency unstake, 0 otherwise
    pub last_update_status: StakeStatus,
}

pub open spec fn status_byte(s: StakeStatus) -> u8 {
    match s {
        StakeStatus::Unknown => 0,
        StakeStatus::Active => 1,
        StakeStatus::Deactivating => 2,
    }
}

/// The wire layout of a stake record: address, delegated lamports and epoch (little-endian),
/// the emergency flag and the status byte.
pub open spec fn spec_encode_stake_record(r: StakeRecord) -> Seq<u8> {
    r.stake_account@ + le_bytes_u64(r.last_update_delegated_lamports) + le_bytes_u64(r.last_update_epoch)
        + seq![r.is_emergency_unstaking, status_byte(r.last_update_status)]
}

/// Whether `bytes` start with a well-formed stake record.
pub open spec fn stake_record_decodes(bytes: Seq<u8>) -> bool {
    bytes.len() >= STAKE_RECORD_SIZE && bytes[49] <= 2
}

/// The stake record stored at the start of `bytes` (meaningful when it decodes).
pub open spec fn spec_decode_stake_record(bytes: Seq<u8>) -> StakeRecord {
    choose|r: StakeRecord| spec_encode_stake_record(r) == bytes.subrange(0, STAKE_RECORD_SIZE as int)
}

proof fn lemma_stake_record_encoding_len(r: StakeRecord)
    ensures
        spec_encode_stake_record(r).len() == STAKE_RECORD_SIZE,
{
    lemma_u64_round_trip(r.last_update_delegated_lamports);
    lemma_u64_round_trip(r.last_update_epoch);
}

/// Two records with the same encoding are the same record.
pub proof fn lemma_stake_record_encoding_injective(a: StakeRecord, b: StakeRecord)
    requires
        spec_encode_stake_record(a) == spec_encode_stake_record(b),
    ensures
        a == b,
{
    let ea = spec_encode_stake_record(a);
    let eb = spec_encode_stake_record(b);
    lemma_stake_record_encoding_len(a);
    lemma_u64_round_trip(a.last_update_delegated_lamports);
    lemma_u64_round_trip(a.last_update_epoch);
    lemma_u64_round_trip(b.last_update_delegated_lamports);
    lemma_u64_round_trip(b.last_update_epoch);
    assert(ea.subrange(0, 32) =~= a.stake_account@);
    assert(eb.subrange(0, 32) =~= b.stake_account@);
    lemma_pubkey_view_injective(a.stake_account, b.stake_account);
    assert(ea.subrange(32, 40) =~= le_bytes_u64(a.last_update_delegated_lamports));
    assert(eb.subrange(32, 40) =~= le_bytes_u64(b.last_update_delegated_lamports));
    assert(ea.subrange(40, 48) =~= le_bytes_u64(a.last_update_epoch));
    assert(eb.subrange(40, 48) =~= le_bytes_u64(b.last_update_epoch));
    assert(ea[48] == a.is_emergency_unstaking);
    assert(eb[48] == b.is_emergency_unstaking);
    assert(ea[49] == status_byte(a.last_update_status));
    assert(eb[49] == status_byte(b.last_update_status));
}

/// Decoding what was encoded gives the record back, also when the slot has spare bytes after it.
pub proof fn lemma_stake_record_round_trip(r: StakeRecord, tail: Seq<u8>)
    ensures
        stake_record_decodes(spec_encode_stake_record(r) + tail),
        spec_decode_stake_record(spec_encode_stake_record(r) + tail) == r,
{
    let e = spec_encode_stake_record(r);
    lemma_stake_record_encoding_len(r);
    assert((e + tail).subrange(0, STAKE_RECORD_SIZE as int) =~= e);
    assert((e + tail)[49] == status_byte(r.last_update_status));
    let d = spec_decode_stake_record(e + tail);
    assert(spec_encode_stake_record(d) == e);
    lemma_stake_record_encoding_injective(d, r);
}

impl StakeRecord {
    /// The record encoded for the list (the 8-byte `staker__` discriminator marks the list).
    pub fn encode(&self) -> (v: Vec<u8>)
        ensures
            v@ == spec_encode_stake_record(*self),
            v@.len() == STAKE_RECORD_SIZE,
    {
        let mut v: Vec<u8> = Vec::new();
        put_pubkey(&mut v, &self.stake_account);
        put_u64(&mut v, self.last_update_delegated_lamports);
        put_u64(&mut v, self.last_update_epoch);
        v.push(self.is_emergency_unstaking);
        let status: u8 = match self.last_update_status {
            StakeStatus::Unknown => 0,
            StakeStatus::Active => 1,
            StakeStatus::Deactivating => 2,
        };
        v.push(status);
        proof {
            lemma_stake_record_encoding_len(*self);
        }
        assert(v@ =~= spec_encode_stake_record(*self));
        v
    }

    /// Reads the record at the start of `bytes`.
    pub fn decode(bytes: &[u8]) -> (r: Result<StakeRecord, ProgramError>)
        ensures
            r is Ok <==> stake_record_decodes(bytes@),
            r is Err ==> r == Err::<StakeRecord, ProgramError>(ProgramError::BorshIoError),
            r matches Ok(rec) ==> rec == spec_decode_stake_record(bytes@),
            r matches Ok(rec) ==> spec_encode_stake_record(rec) == bytes@.subrange(0, STAKE_RECORD_SIZE as int),
    {
        if bytes.len() < 50 {
            return Err(ProgramError::BorshIoError);
        }
        let status = match bytes[49] {
            0 => StakeStatus::Unknown,
            1 => StakeStatus::Active,
            2 => StakeStatus::Deactivating,
            _ => {
                return Err(ProgramError::BorshIoError);
            },
        };
        let rec = StakeRecord {
            stake_account: get_pubkey(bytes, 0),
            last_update_delegated_lamports: get_u64(bytes, 32),
            last_update_epoch: get_u64(bytes, 40),
            is_emergency_unstaking: bytes[48],
            last_update_status: status,
        };
        proof {
            let s = bytes@.subrange(0, 50);
            let e = spec_encode_stake_record(rec);
            lemma_stake_record_encoding_len(rec);
            lemma_bytes_of_u64_value(bytes@.subrange(32, 40));
            lemma_bytes_of_u64_value(bytes@.subrange(40, 48));
            assert(e =~= s);
            let d = spec_decode_stake_record(bytes@);
            assert(spec_encode_stake_record(d) == s);
            lemma_stake_record_encoding_injective(d, rec);
        }
        Ok(rec)
    }
}

/// The stake registry: the list of stake records and the stake-delta parameters.
#[derive(Clone, Copy, Debug)]
pub struct StakeSystem {
    pub stake_list: List,
    //pub last_update_epoch: u64,
    //pub updated_during_last_epoch: u32,
    pub delayed_unstake_cooling_down: u64,
    pub stake_deposit_bump_seed: u8,
    pub stake_withdraw_bump_seed: u8,
    /// set by admin, how much slots before the end of the epoch, stake-delta can start
    pub slots_for_stake_delta: u64,
    /// Marks the start of stake-delta operations, meaning that if somebody starts a delayed-unstake ticket
    /// after this var is set with epoch_num the ticket will have epoch_created = current_epoch+1
    /// (the user must wait one more epoch, because their unstake-delta will be execute in this epoch)
    pub last_stake_delta_epoch: u64,
    pub min_stake: u64,  // Minimal stake account delegation
    /// can be set by validator-manager-auth to allow a second run of stake-delta to stake late stakers in the last minute of the epoch
    /// so we maximize user's rewards
    pub extra_stake_delta_runs: u32,
}

/// The `staker__` discriminator of the stake list account.
pub open spec fn spec_stake_list_discriminator() -> Seq<u8> {
    seq![115u8, 116, 97, 107, 101, 114, 95, 95]
}

/// Minimal slots-for-stake-delta window an admin may configure.
pub const MIN_UPDATE_WINDOW: u64 = 3_000;

impl StakeSystem {
    /// The list is well formed for its account data: items fit and each holds a record.
    pub open spec fn list_fits(&self, data: Seq<u8>) -> bool {
        &&& self.stake_list.fits(data.len() as int)
        &&& self.stake_list.item_size >= STAKE_RECORD_SIZE
    }

    /// The stake record at `index` (meaningful when it decodes).
    pub open spec fn record_at(&self, data: Seq<u8>, index: int) -> StakeRecord {
        spec_decode_stake_record(self.stake_list.item_at(data, index))
    }

    /// The raw items of the stake list.
    pub open spec fn items(&self, data: Seq<u8>) -> Seq<Seq<u8>> {
        self.stake_list.items(data)
    }

    /// The discriminator bytes of the stake list account.
    pub fn discriminator() -> (d: [u8; 8])
        ensures
            d@ == spec_stake_list_discriminator(),
    {
        let d: [u8; 8] = [115u8, 116, 97, 107, 101, 114, 95, 95];
        assert(d@ =~= spec_stake_list_discriminator());
        d
    }

    /// Account size for a list of `count` records with `additional_record_space` spare bytes each.
    pub fn bytes_for_list(count: u32, additional_record_space: u32) -> (r: u32)
        requires
            additional_record_space <= u32::MAX - STAKE_RECORD_SIZE,
            8 + count as int * (STAKE_RECORD_SIZE + additional_record_space) <= u32::MAX,
        ensures
            r == 8 + count as int * (STAKE_RECORD_SIZE + additional_record_space),
    {
        List::bytes_for(STAKE_RECORD_SIZE + additional_record_space, count)
    }

    /// The stake withdraw authority derived from the state address, with its bump.
    pub fn find_stake_withdraw_authority(state: &Pubkey) -> (r: Option<(Pubkey, u8)>)
        ensures
            r is Some <==> spec_try_find_program_address(spec_seeds(state@, SeedTag::StakeWithdraw), spec_program_id()) is Some,
            r matches Some(p) ==> spec_try_find_program_address(spec_seeds(state@, SeedTag::StakeWithdraw), spec_program_id())
                == Some((p.0@, p.1)),
    {
        find_address(state, SeedTag::StakeWithdraw)
    }

    /// The stake deposit authority derived from the state address, with its bump.
    pub fn find_stake_deposit_authority(state: &Pubkey) -> (r: Option<(Pubkey, u8)>)
        ensures
            r is Some <==> spec_try_find_program_address(spec_seeds(state@, SeedTag::StakeDeposit), spec_program_id()) is Some,
            r matches Some(p) ==> spec_try_find_program_address(spec_seeds(state@, SeedTag::StakeDeposit), spec_program_id())
                == Some((p.0@, p.1)),
    {
        find_address(state, SeedTag::StakeDeposit)
    }

    /// Creates the registry with an empty list stamped into `stake_list_data`.
    pub fn new(
        state: &Pubkey,
        stake_list_account: Pubkey,
        stake_list_data: &mut Vec<u8>,
        slots_for_stake_delta: u64,
        min_stake: u64,
        extra_stake_delta_runs: u32,
        additional_record_space: u32,
    ) -> (r: Result<Self, ProgramError>)
        requires
            additional_record_space <= u32::MAX - STAKE_RECORD_SIZE,
        ensures
            r matches Ok(s) ==> {
                &&& s.stake_list.account == stake_list_account
                &&& s.stake_list.item_size == STAKE_RECORD_SIZE + additional_record_space
                &&& s.stake_list.count == 0
                &&& s.stake_list.new_account@ == default_key_view()
                &&& s.delayed_unstake_cooling_down == 0
                &&& s.slots_for_stake_delta == slots_for_stake_delta
                &&& s.last_stake_delta_epoch == u64::MAX
                &&& s.min_stake == min_stake
                &&& s.extra_stake_delta_runs == extra_stake_delta_runs
                &&& spec_try_find_program_address(spec_seeds(state@, SeedTag::StakeDeposit), spec_program_id())->Some_0.1
                    == s.stake_deposit_bump_seed
                &&& spec_try_find_program_address(spec_seeds(state@, SeedTag::StakeWithdraw), spec_program_id())->Some_0.1
                    == s.stake_withdraw_bump_seed
                &&& final(stake_list_data)@ == spec_stake_list_discriminator() + old(stake_list_data)@.subrange(
                    8,
                    old(stake_list_data)@.len() as int,
                )
            },
            old(stake_list_data)@.len() < 8 ==> r == Err::<Self, ProgramError>(ProgramError::AccountDataTooSmall),
            old(stake_list_data)@.len() >= 8 && old(stake_list_data)@.subrange(0, 8) != Seq::new(8, |i: int| 0u8)
                ==> r == Err::<Self, ProgramError>(ProgramError::AccountAlreadyInitialized),
            r is Ok <==> old(stake_list_data)@.len() >= 8 && old(stake_list_data)@.subrange(0, 8) == Seq::new(8, |i: int| 0u8)
                && spec_try_find_program_address(spec_seeds(state@, SeedTag::StakeDeposit), spec_program_id()) is Some
                && spec_try_find_program_address(spec_seeds(state@, SeedTag::StakeWithdraw), spec_program_id()) is Some,
    {
        let disc = Self::discriminator();
        let stake_list = List::new(
            &disc,
            STAKE_RECORD_SIZE + additional_record_space,
            stake_list_account,
            stake_list_data,
            "stake_list",
        )?;
        let deposit = match Self::find_stake_deposit_authority(state) {
            Some(p) => p,
            None => {
                return Err(ProgramError::InvalidSeeds);
            },
        };
        let withdraw = match Self::find_stake_withdraw_authority(state) {
            Some(p) => p,
            None => {
                return Err(ProgramError::InvalidSeeds);
            },
        };
        Ok(Self {
            stake_list,
            delayed_unstake_cooling_down: 0,
            stake_deposit_bump_seed: deposit.1,
            stake_withdraw_bump_seed: withdraw.1,
            slots_for_stake_delta,
            last_stake_delta_epoch: u64::MAX,  // never
            min_stake,
            extra_stake_delta_runs,
        })
    }

    pub fn stake_list_address(&self) -> (r: &Pubkey)
        ensures
            *r == self.stake_list.account,
    {
        &self.stake_list.account
    }

    pub fn stake_count(&self) -> (r: u32)
        ensures
            r == self.stake_list.count,
    {
        self.stake_list.len()
    }

    pub fn stake_list_capacity(&self, stake_list_len: usize) -> (r: Result<u32, ProgramError>)
        ensures
            r == self.stake_list.spec_capacity(stake_list_len),
    {
        self.stake_list.capacity(stake_list_len)
    }

    pub fn stake_record_size(&self) -> (r: u32)
        ensures
            r == self.stake_list.item_size,
    {
        self.stake_list.item_size()
    }

    /// Appends a record for a newly controlled stake account.
    pub fn add(
        &mut self,
        stake_list_data: &mut Vec<u8>,
        stake_account: &Pubkey,
        delegated_lamports: u64,
        epoch: u64,
        is_emergency_unstaking: u8,
    ) -> (r: Result<(), ProgramError>)
        requires
            old(self).list_fits(old(stake_list_data)@),
        ensures
            final(self).list_fits(final(stake_list_data)@),
            *final(self) == (StakeSystem { stake_list: final(self).stake_list, ..*old(self) }),
            final(self).stake_list.account == old(self).stake_list.account,
            final(self).stake_list.item_size == old(self).stake_list.item_size,
            final(self).stake_list.new_account == old(self).stake_list.new_account,
            final(self).stake_list.copied_count == old(self).stake_list.copied_count,
            r is Ok <==> !old(self).stake_list.spec_is_changing_account()
                && old(self).stake_list.spec_capacity(old(stake_list_data)@.len() as usize) is Ok
                && old(self).stake_list.count < old(self).stake_list.spec_capacity(old(stake_list_data)@.len() as usize)->Ok_0,
            r is Ok ==> final(self).stake_list.count == old(self).stake_list.count + 1,
            r is Ok ==> final(stake_list_data)@ == write_slot(
                old(stake_list_data)@,
                old(self).stake_list.slot_start(old(self).stake_list.count as int),
                old(self).stake_list.item_size as int,
                spec_encode_stake_record(StakeRecord {
                    stake_account: *stake_account,
                    last_update_delegated_lamports: delegated_lamports,
                    last_update_epoch: epoch,
                    is_emergency_unstaking,
                    last_update_status: StakeStatus::Active,
                }),
            ),
            r is Ok ==> final(self).items(final(stake_list_data)@) == old(self).items(old(stake_list_data)@).push(
                slot_after_write(
                    old(self).stake_list.item_at(old(stake_list_data)@, old(self).stake_list.count as int),
                    spec_encode_stake_record(StakeRecord {
                        stake_account: *stake_account,
                        last_update_delegated_lamports: delegated_lamports,
                        last_update_epoch: epoch,
                        is_emergency_unstaking,
                        last_update_status: StakeStatus::Active,
                    }),
                ),
            ),
            r is Err ==> *final(self) == *old(self) && final(stake_list_data)@ == old(stake_list_data)@,
            r is Err ==> r == Err::<(), ProgramError>(ProgramError::InvalidAccountData)
                || r == Err::<(), ProgramError>(ProgramError::AccountDataTooSmall)
                || r == Err::<(), ProgramError>(ProgramError::Custom(crate::list::CALCULATION_FAILURE_CODE)),
    {
        let record = StakeRecord {
            stake_account: *stake_account,
            last_update_delegated_lamports: delegated_lamports,
            last_update_epoch: epoch,
            is_emergency_unstaking,
            last_update_status: StakeStatus::Active,
        };
        let bytes = record.encode();
        self.stake_list.push(stake_list_data, bytes.as_slice(), "stake_list")
    }

    /// Reads the record at `index`.
    pub fn get(&self, stake_list_data: &Vec<u8>, index: u32) -> (r: Result<StakeRecord, ProgramError>)
        requires
            self.list_fits(stake_list_data@),
        ensures
            index >= self.stake_list.count ==> r == Err::<StakeRecord, ProgramError>(ProgramError::InvalidArgument),
            r is Ok <==> index < self.stake_list.count && stake_record_decodes(self.stake_list.item_at(stake_list_data@, index as int)),
            r matches Ok(rec) ==> rec == self.record_at(stake_list_data@, index as int),
            r is Err && index < self.stake_list.count ==> r == Err::<StakeRecord, ProgramError>(ProgramError::BorshIoError),
    {
        let bytes = self.stake_list.get(stake_list_data, index, "stake_list")?;
        StakeRecord::decode(bytes.as_slice())
    }

    /// Reads the record at `index` and checks it is the record of `stake_account`.
    pub fn get_checked(&self, stake_list_data: &Vec<u8>, index: u32, stake_account: &Pubkey) -> (r: Result<StakeRecord, Error>)
        requires
            self.list_fits(stake_list_data@),
        ensures
            r is Ok <==> index < self.stake_list.count && stake_record_decodes(self.stake_list.item_at(stake_list_data@, index as int))
                && self.record_at(stake_list_data@, index as int).stake_account@ == stake_account@,
            r matches Ok(rec) ==> rec == self.record_at(stake_list_data@, index as int),
            index >= self.stake_list.count ==> r == Err::<StakeRecord, Error>(Error::Program(ProgramError::InvalidArgument)),
            index < self.stake_list.count && !stake_record_decodes(self.stake_list.item_at(stake_list_data@, index as int))
                ==> r == Err::<StakeRecord, Error>(Error::Program(ProgramError::BorshIoError)),
            index < self.stake_list.count && stake_record_decodes(self.stake_list.item_at(stake_list_data@, index as int))
                && self.record_at(stake_list_data@, index as int).stake_account@ != stake_account@
                ==> r == Err::<StakeRecord, Error>(Error::Marinade(MarinadeError::WrongStakeAccountOrIndex)),
    {
        let rec = match self.get(stake_list_data, index) {
            Ok(rec) => rec,
            Err(e) => {
                return Err(Error::Program(e));
            },
        };
        if !rec.stake_account.same_key(stake_account) {
            return Err(Error::Marinade(MarinadeError::WrongStakeAccountOrIndex));
        }
        Ok(rec)
    }

    /// Overwrites the record at `index`.
    pub fn set(&self, stake_list_data: &mut Vec<u8>, index: u32, stake: StakeRecord) -> (r: Result<(), ProgramError>)
        requires
            self.list_fits(old(stake_list_data)@),
        ensures
            final(stake_list_data)@.len() == old(stake_list_data)@.len(),
            r is Ok <==> !self.stake_list.spec_is_changing_account() && index < self.stake_list.count,
            r is Err ==> final(stake_list_data)@ == old(stake_list_data)@,
            r is Ok ==> self.items(final(stake_list_data)@) == self.items(old(stake_list_data)@).update(
                index as int,
                slot_after_write(self.items(old(stake_list_data)@)[index as int], spec_encode_stake_record(stake)),
            ),
            r is Ok ==> self.record_at(final(stake_list_data)@, index as int) == stake,
            r is Ok ==> forall|i: int| 0 <= i < self.stake_list.count && i != index
                ==> #[trigger] self.stake_list.item_at(final(stake_list_data)@, i) == self.stake_list.item_at(old(stake_list_data)@, i),
    {
        let bytes = stake.encode();
        let r = self.stake_list.set(stake_list_data, index, bytes.as_slice(), "stake_list");
        proof {
            if r is Ok {
                let old_items = self.items(old(stake_list_data)@);
                let new_items = self.items(stake_list_data@);
                assert(new_items[index as int] == self.stake_list.item_at(stake_list_data@, index as int));
                let old_slot = old_items[index as int];
                let e = spec_encode_stake_record(stake);
                assert(old_slot.len() == self.stake_list.item_size) by {
                    crate::list::lemma_item_len(self.stake_list, old(stake_list_data)@, index as int);
                }
                assert(slot_after_write(old_slot, e) =~= e + old_slot.subrange(STAKE_RECORD_SIZE as int, old_slot.len() as int));
                lemma_stake_record_round_trip(stake, old_slot.subrange(STAKE_RECORD_SIZE as int, old_slot.len() as int));
                assert forall|i: int| 0 <= i < self.stake_list.count && i != index implies
                    #[trigger] self.stake_list.item_at(stake_list_data@, i) == self.stake_list.item_at(old(stake_list_data)@, i) by {
                    assert(new_items[i] == old_items[i]);
                }
            }
        }
        r
    }

    /// Removes the record at `index`, moving the last record into its place.
    pub fn remove(&mut self, stake_list_data: &mut Vec<u8>, index: u32) -> (r: Result<(), ProgramError>)
        requires
            old(self).list_fits(old(stake_list_data)@),
        ensures
            final(self).list_fits(final(stake_list_data)@),
            *final(self) == (StakeSystem { stake_list: final(self).stake_list, ..*old(self) }),
            final(self).stake_list.account == old(self).stake_list.account,
            final(self).stake_list.item_size == old(self).stake_list.item_size,
            final(self).stake_list.new_account == old(self).stake_list.new_account,
            final(self).stake_list.copied_count == old(self).stake_list.copied_count,
            r is Ok <==> !old(self).stake_list.spec_is_changing_account() && index < old(self).stake_list.count,
            r is Ok ==> final(self).stake_list.count == old(self).stake_list.count - 1,
            r is Ok ==> final(self).items(final(stake_list_data)@) == swap_remove(old(self).items(old(stake_list_data)@), index as int),
            r is Ok ==> forall|j: int|
                0 <= j < old(stake_list_data)@.len() && !(old(self).stake_list.slot_start(index as int) <= j
                    < old(self).stake_list.slot_start(index as int) + old(self).stake_list.item_size)
                    ==> #[trigger] final(stake_list_data)@[j] == old(stake_list_data)@[j],
            r is Err ==> *final(self) == *old(self) && final(stake_list_data)@ == old(stake_list_data)@,
    {
        self.stake_list.remove(stake_list_data, index, "stake_list")
    }

    /// Checks the stake list account is the registered one and carries the stake list discriminator.
    pub fn check_stake_list(&self, stake_list_key: &Pubkey, stake_list_data: &Vec<u8>) -> (r: Result<(), ProgramError>)
        ensures
            r is Ok <==> stake_list_key@ == self.stake_list.account@ && stake_list_data@.len() >= 8
                && stake_list_data@.subrange(0, 8) == spec_stake_list_discriminator(),
            r is Err ==> r == Err::<(), ProgramError>(ProgramError::InvalidArgument) || r == Err::<(), ProgramError>(
                ProgramError::InvalidAccountData,
            ),
            stake_list_key@ != self.stake_list.account@ ==> r == Err::<(), ProgramError>(ProgramError::InvalidArgument),
    {
        if !stake_list_key.same_key(self.stake_list_address()) {
            return Err(ProgramError::InvalidArgument);
        }
        let disc = Self::discriminator();
        if stake_list_data.len() < 8 {
            return Err(ProgramError::InvalidAccountData);
        }
        let mut i: usize = 0;
        while i < 8
            invariant
                i <= 8,
                stake_list_data@.len() >= 8,
                disc@ == spec_stake_list_discriminator(),
                stake_list_key@ == self.stake_list.account@,
                forall|j: int| 0 <= j < i ==> stake_list_data@[j] == disc@[j],
            decreases 8 - i,
        {
            if stake_list_data[i] != disc[i] {
                assert(stake_list_data@.subrange(0, 8)[i as int] != spec_stake_list_discriminator()[i as int]);
                return Err(ProgramError::InvalidAccountData);
            }
            i = i + 1;
        }
        assert(stake_list_data@.subrange(0, 8) =~= spec_stake_list_discriminator());
        Ok(())
    }
}

} // verus!
