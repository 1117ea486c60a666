//! The registry of validators the protocol delegates to, with their scores and balances.
use vstd::prelude::*;

use crate::calc::{proportional, spec_proportional};
use crate::codec::{
    get_pubkey, get_u32, get_u64, le_bytes_u32, le_bytes_u64, lemma_bytes_of_u32_value, lemma_bytes_of_u64_value,
    lemma_u32_round_trip, lemma_u64_round_trip, put_pubkey, put_u32, put_u64,
};
use crate::error::{Error, MarinadeError, ProgramError, RequireError};
use crate::list::{slot_after_write, swap_remove, List};
use crate::pda::{
    create_address_with, find_address_with, spec_create_program_address, spec_program_id, spec_seeds,
    spec_try_find_program_address, SeedTag,
};
use crate::pubkey::{default_key_view, lemma_pubkey_view_injective, Pubkey};

verus! {

/// Size of an encoded validator record.
pub const VALIDATOR_RECORD_SIZE: u32 = 61;

/// One validator the protocol may delegate to.
#[derive(Clone, Copy, Debug, PartialEq, Eq)]
pub struct ValidatorRecord {
    /// Validator vote pubkey
    pub validator_account: Pubkey,
    /// Validator total balance in lamports
    pub active_balance: u64,  // must be 0 for removing
    pub score: u32,
    pub last_stake_delta_epoch: u64,
    pub duplication_flag_bump_seed: u8,
    /// Balance accounted while re-counting delinquent stakes
    pub delinquent_upgrader_active_balance: u64,
}

/// The wire layout of a validator record.
pub open spec fn spec_encode_validator_record(r: ValidatorRecord) -> Seq<u8> {
    r.validator_account@ + le_bytes_u64(r.active_balance) + le_bytes_u32(r.score) + le_bytes_u64(r.last_stake_delta_epoch)
        + seq![r.duplication_flag_bump_seed] + le_bytes_u64(r.delinquent_upgrader_active_balance)
}

/// Whether `bytes` start with a well-formed validator record.
pub open spec fn validator_record_decodes(bytes: Seq<u8>) -> bool {
    bytes.len() >= VALIDATOR_RECORD_SIZE
}

/// The validator record stored at the start of `bytes` (meaningful when it decodes).
pub open spec fn spec_decode_validator_record(bytes: Seq<u8>) -> ValidatorRecord {
    choose|r: ValidatorRecord| spec_encode_validator_record(r) == bytes.subrange(0, VALIDATOR_RECORD_SIZE as int)
}

proof fn lemma_validator_record_encoding_len(r: ValidatorRecord)
    ensures
        spec_encode_validator_record(r).len() == VALIDATOR_RECORD_SIZE,
{
    lemma_u64_round_trip(r.active_balance);
    lemma_u32_round_trip(r.score);
    lemma_u64_round_trip(r.last_stake_delta_epoch);
    lemma_u64_round_trip(r.delinquent_upgrader_active_balance);
}

/// Two records with the same encoding are the same record.
pub proof fn lemma_validator_record_encoding_injective(a: ValidatorRecord, b: ValidatorRecord)
    requires
        spec_encode_validator_record(a) == spec_encode_validator_record(b),
    ensures
        a == b,
{
    let ea = spec_encode_validator_record(a);
    let eb = spec_encode_validator_record(b);
    lemma_validator_record_encoding_len(a);
    lemma_validator_record_encoding_len(b);
    assert(ea.subrange(0, 32) =~= a.validator_account@);
    assert(eb.subrange(0, 32) =~= b.validator_account@);
    lemma_pubkey_view_injective(a.validator_account, b.validator_account);
    assert(ea.subrange(32, 40) =~= le_bytes_u64(a.active_balance));
    assert(eb.subrange(32, 40) =~= le_bytes_u64(b.active_balance));
    assert(ea.subrange(40, 44) =~= le_bytes_u32(a.score));
    assert(eb.subrange(40, 44) =~= le_bytes_u32(b.score));
    assert(ea.subrange(44, 52) =~= le_bytes_u64(a.last_stake_delta_epoch));
    assert(eb.subrange(44, 52) =~= le_bytes_u64(b.last_stake_delta_epoch));
    assert(ea[52] == a.duplication_flag_bump_seed);
    assert(eb[52] == b.duplication_flag_bump_seed);
    assert(ea.subrange(53, 61) =~= le_bytes_u64(a.delinquent_upgrader_active_balance));
    assert(eb.subrange(53, 61) =~= le_bytes_u64(b.delinquent_upgrader_active_balance));
    assert(le_bytes_u64(a.active_balance) == le_bytes_u64(b.active_balance));
    assert(le_bytes_u32(a.score) == le_bytes_u32(b.score));
    assert(le_bytes_u64(a.last_stake_delta_epoch) == le_bytes_u64(b.last_stake_delta_epoch));
    assert(le_bytes_u64(a.delinquent_upgrader_active_balance) == le_bytes_u64(b.delinquent_upgrader_active_balance));
    lemma_u64_round_trip(a.active_balance);
    lemma_u64_round_trip(b.active_balance);
    lemma_u32_round_trip(a.score);
    lemma_u32_round_trip(b.score);
    lemma_u64_round_trip(a.last_stake_delta_epoch);
    lemma_u64_round_trip(b.last_stake_delta_epoch);
    lemma_u64_round_trip(a.delinquent_upgrader_active_balance);
    lemma_u64_round_trip(b.delinquent_upgrader_active_balance);
    assert(a.validator_account == b.validator_account);
    assert(a.active_balance == b.active_balance);
    assert(a.score == b.score);
    assert(a.last_stake_delta_epoch == b.last_stake_delta_epoch);
    assert(a.duplication_flag_bump_seed == b.duplication_flag_bump_seed);
    assert(a.delinquent_upgrader_active_balance == b.delinquent_upgrader_active_balance);
}

/// Decoding what was encoded gives the record back, also when the slot has spare bytes after it.
pub proof fn lemma_validator_record_round_trip(r: ValidatorRecord, tail: Seq<u8>)
    ensures
        validator_record_decodes(spec_encode_validator_record(r) + tail),
        spec_decode_validator_record(spec_encode_validator_record(r) + tail) == r,
{
    let e = spec_encode_validator_record(r);
    lemma_validator_record_encoding_len(r);
    assert((e + tail).subrange(0, VALIDATOR_RECORD_SIZE as int) =~= e);
    let d = spec_decode_validator_record(e + tail);
    assert(spec_encode_validator_record(d) == e);
    lemma_validator_record_encoding_injective(d, r);
}

impl ValidatorRecord {
    /// The record encoded for the list.
    pub fn encode(&self) -> (v: Vec<u8>)
        ensures
            v@ == spec_encode_validator_record(*self),
            v@.len() == VALIDATOR_RECORD_SIZE,
    {
        let mut v: Vec<u8> = Vec::new();
        put_pubkey(&mut v, &self.validator_account);
        put_u64(&mut v, self.active_balance);
        put_u32(&mut v, self.score);
        put_u64(&mut v, self.last_stake_delta_epoch);
        v.push(self.duplication_flag_bump_seed);
        put_u64(&mut v, self.delinquent_upgrader_active_balance);
        proof {
            lemma_validator_record_encoding_len(*self);
        }
        assert(v@ =~= spec_encode_validator_record(*self));
        v
    }

    /// Reads the record at the start of `bytes`.
    pub fn decode(bytes: &[u8]) -> (r: Result<ValidatorRecord, ProgramError>)
        ensures
            r is Ok <==> validator_record_decodes(bytes@),
            r is Err ==> r == Err::<ValidatorRecord, ProgramError>(ProgramError::BorshIoError),
            r matches Ok(rec) ==> rec == spec_decode_validator_record(bytes@),
    {
        if bytes.len() < 61 {
            return Err(ProgramError::BorshIoError);
        }
        let rec = ValidatorRecord {
            validator_account: get_pubkey(bytes, 0),
            active_balance: get_u64(bytes, 32),
            score: get_u32(bytes, 40),
            last_stake_delta_epoch: get_u64(bytes, 44),
            duplication_flag_bump_seed: bytes[52],
            delinquent_upgrader_active_balance: get_u64(bytes, 53),
        };
        proof {
            let s = bytes@.subrange(0, 61);
            let e = spec_encode_validator_record(rec);
            lemma_validator_record_encoding_len(rec);
            lemma_bytes_of_u64_value(bytes@.subrange(32, 40));
            lemma_bytes_of_u32_value(bytes@.subrange(40, 44));
            lemma_bytes_of_u64_value(bytes@.subrange(44, 52));
            lemma_bytes_of_u64_value(bytes@.subrange(53, 61));
            assert(e =~= s);
            let d = spec_decode_validator_record(bytes@);
            assert(spec_encode_validator_record(d) == s);
            lemma_validator_record_encoding_injective(d, rec);
        }
        Ok(rec)
    }

    /// The duplication flag account of a validator, derived from the state address and the vote
    /// account, with its bump.
    pub fn find_duplication_flag(state_address: &Pubkey, validator_account: &Pubkey) -> (r: Option<(Pubkey, u8)>)
        ensures
            r is Some <==> spec_try_find_program_address(
                spec_seeds(state_address@, SeedTag::DuplicateFlag).push(validator_account@),
                spec_program_id(),
            ) is Some,
            r matches Some(p) ==> spec_try_find_program_address(
                spec_seeds(state_address@, SeedTag::DuplicateFlag).push(validator_account@),
                spec_program_id(),
            ) == Some((p.0@, p.1)),
    {
        find_address_with(state_address, SeedTag::DuplicateFlag, validator_account)
    }

    /// The duplication flag address recreated from the stored bump.
    pub fn duplication_flag_address(&self, state_address: &Pubkey) -> (r: Option<Pubkey>)
        ensures
            r is Some <==> spec_create_program_address(
                spec_seeds(state_address@, SeedTag::DuplicateFlag).push(self.validator_account@).push(
                    seq![self.duplication_flag_bump_seed],
                ),
                spec_program_id(),
            ) is Some,
            r matches Some(k) ==> spec_create_program_address(
                spec_seeds(state_address@, SeedTag::DuplicateFlag).push(self.validator_account@).push(
                    seq![self.duplication_flag_bump_seed],
                ),
                spec_program_id(),
            ) == Some(k@),
    {
        create_address_with(state_address, SeedTag::DuplicateFlag, &self.validator_account, self.duplication_flag_bump_seed)
    }
}

/// The validator registry.
#[derive(Clone, Copy, Debug)]
pub struct ValidatorSystem {
    pub validator_list: List,
    pub manager_authority: Pubkey,
    pub total_validator_score: u32,
    /// sum of all active lamports staked
    pub total_active_balance: u64,
    /// DEPRECATED, no longer used
    pub auto_add_validator_enabled: u8,
}

/// The `validatr` discriminator of the validator list account.
pub open spec fn spec_validator_list_discriminator() -> Seq<u8> {
    seq![118u8, 97, 108, 105, 100, 97, 116, 114]
}

/// The stake target of a validator: its score's share of the total stake target
/// (nothing when no validator has a score).
pub open spec fn spec_validator_stake_target(total_validator_score: u32, score: u32, total_stake_target: u64) -> Result<
    u64,
    MarinadeError,
> {
    if total_validator_score == 0 {
        Ok(0)
    } else {
        spec_proportional(total_stake_target, score as u64, total_validator_score as u64)
    }
}

impl ValidatorSystem {
    /// The list is well formed for its account data: items fit and each holds a record.
    pub open spec fn list_fits(&self, data: Seq<u8>) -> bool {
        &&& self.validator_list.fits(data.len() as int)
        &&& self.validator_list.item_size >= VALIDATOR_RECORD_SIZE
    }

    /// The validator record at `index` (meaningful when it decodes).
    pub open spec fn record_at(&self, data: Seq<u8>, index: int) -> ValidatorRecord {
        spec_decode_validator_record(self.validator_list.item_at(data, index))
    }

    /// The raw items of the validator list.
    pub open spec fn items(&self, data: Seq<u8>) -> Seq<Seq<u8>> {
        self.validator_list.items(data)
    }

    /// The discriminator bytes of the validator list account.
    pub fn discriminator() -> (d: [u8; 8])
        ensures
            d@ == spec_validator_list_discriminator(),
    {
        let d: [u8; 8] = [118u8, 97, 108, 105, 100, 97, 116, 114];
        assert(d@ =~= spec_validator_list_discriminator());
        d
    }

    /// Creates the registry with an empty list stamped into `validator_list_data`.
    pub fn new(
        validator_list_account: Pubkey,
        validator_list_data: &mut Vec<u8>,
        manager_authority: Pubkey,
        additional_record_space: u32,
    ) -> (r: Result<Self, ProgramError>)
        requires
            additional_record_space <= u32::MAX - VALIDATOR_RECORD_SIZE,
        ensures
            r is Ok <==> old(validator_list_data)@.len() >= 8 && old(validator_list_data)@.subrange(0, 8) == Seq::new(
                8,
                |i: int| 0u8,
            ),
            r matches Ok(v) ==> {
                &&& v.validator_list.account == validator_list_account
                &&& v.validator_list.item_size == VALIDATOR_RECORD_SIZE + additional_record_space
                &&& v.validator_list.count == 0
                &&& v.validator_list.new_account@ == default_key_view()
                &&& v.manager_authority == manager_authority
                &&& v.total_validator_score == 0
                &&& v.total_active_balance == 0
                &&& v.auto_add_validator_enabled == 0
                &&& final(validator_list_data)@ == spec_validator_list_discriminator() + old(validator_list_data)@.subrange(
                    8,
                    old(validator_list_data)@.len() as int,
                )
            },
            old(validator_list_data)@.len() < 8 ==> r == Err::<Self, ProgramError>(ProgramError::AccountDataTooSmall),
            old(validator_list_data)@.len() >= 8 && old(validator_list_data)@.subrange(0, 8) != Seq::new(8, |i: int| 0u8)
                ==> r == Err::<Self, ProgramError>(ProgramError::AccountAlreadyInitialized),
    {
        let disc = Self::discriminator();
        let validator_list = List::new(
            &disc,
            VALIDATOR_RECORD_SIZE + additional_record_space,
            validator_list_account,
            validator_list_data,
            "validator_list",
        )?;
        Ok(Self {
            validator_list,
            manager_authority,
            total_validator_score: 0,
            total_active_balance: 0,
            auto_add_validator_enabled: 0,
        })
    }

    pub fn validator_list_address(&self) -> (r: &Pubkey)
        ensures
            *r == self.validator_list.account,
    {
        &self.validator_list.account
    }

    pub fn validator_count(&self) -> (r: u32)
        ensures
            r == self.validator_list.count,
    {
        self.validator_list.len()
    }

    pub fn validator_list_capacity(&self, validator_list_len: usize) -> (r: Result<u32, ProgramError>)
        ensures
            r == self.validator_list.spec_capacity(validator_list_len),
    {
        self.validator_list.capacity(validator_list_len)
    }

    pub fn validator_record_size(&self) -> (r: u32)
        ensures
            r == self.validator_list.item_size,
    {
        self.validator_list.item_size()
    }

    /// Registers a validator with a score, checking the duplication flag account is the one
    /// derived for it.
    pub fn add(
        &mut self,
        validator_list_data: &mut Vec<u8>,
        validator_account: Pubkey,
        score: u32,
        state_address: &Pubkey,
        duplication_flag_address: &Pubkey,
    ) -> (r: Result<(), Error>)
        requires
            old(self).list_fits(old(validator_list_data)@),
            old(self).total_validator_score + score <= u32::MAX,
        ensures
            final(self).list_fits(final(validator_list_data)@),
            final(self).validator_list.account == old(self).validator_list.account,
            final(self).validator_list.item_size == old(self).validator_list.item_size,
            final(self).manager_authority == old(self).manager_authority,
            final(self).total_active_balance == old(self).total_active_balance,
            final(self).auto_add_validator_enabled == old(self).auto_add_validator_enabled,
            spec_try_find_program_address(spec_seeds(state_address@, SeedTag::DuplicateFlag).push(validator_account@), spec_program_id())
                is None ==> r == Err::<(), Error>(Error::Program(ProgramError::InvalidSeeds)),
            spec_try_find_program_address(spec_seeds(state_address@, SeedTag::DuplicateFlag).push(validator_account@), spec_program_id())
                matches Some(p) && p.0 != duplication_flag_address@
                ==> r == Err::<(), Error>(Error::Marinade(MarinadeError::WrongValidatorDuplicationFlag)),
            r is Ok ==> {
                &&& spec_try_find_program_address(
                    spec_seeds(state_address@, SeedTag::DuplicateFlag).push(validator_account@),
                    spec_program_id(),
                ) matches Some(p) && p.0 == duplication_flag_address@
                &&& final(self).total_validator_score == old(self).total_validator_score + score
                &&& final(self).validator_list.count == old(self).validator_list.count + 1
                &&& final(self).items(final(validator_list_data)@) == old(self).items(old(validator_list_data)@).push(
                    slot_after_write(
                        old(self).validator_list.item_at(old(validator_list_data)@, old(self).validator_list.count as int),
                        spec_encode_validator_record(ValidatorRecord {
                            validator_account,
                            active_balance: 0,
                            score,
                            last_stake_delta_epoch: u64::MAX,
                            duplication_flag_bump_seed: spec_try_find_program_address(
                                spec_seeds(state_address@, SeedTag::DuplicateFlag).push(validator_account@),
                                spec_program_id(),
                            )->Some_0.1,
                            delinquent_upgrader_active_balance: 0,
                        }),
                    ),
                )
            },
            spec_try_find_program_address(spec_seeds(state_address@, SeedTag::DuplicateFlag).push(validator_account@), spec_program_id())
                matches Some(p) && p.0 == duplication_flag_address@ ==> (r is Ok <==> old(self).validator_list.spec_check_push(
                old(validator_list_data)@.len() as usize,
            ) is Ok),
            spec_try_find_program_address(spec_seeds(state_address@, SeedTag::DuplicateFlag).push(validator_account@), spec_program_id())
                matches Some(p) && p.0 == duplication_flag_address@ && old(self).validator_list.spec_check_push(
                old(validator_list_data)@.len() as usize,
            ) is Err ==> r == Err::<(), Error>(
                Error::Program(old(self).validator_list.spec_check_push(old(validator_list_data)@.len() as usize)->Err_0),
            ),
            r is Err ==> *final(self) == *old(self) && final(validator_list_data)@ == old(validator_list_data)@,
    {
        let (duplication_flag, duplication_flag_bump_seed) = match ValidatorRecord::find_duplication_flag(
            state_address,
            &validator_account,
        ) {
            Some(p) => p,
            None => {
                return Err(Error::Program(ProgramError::InvalidSeeds));
            },
        };
        if !duplication_flag.same_key(duplication_flag_address) {
            return Err(Error::Marinade(MarinadeError::WrongValidatorDuplicationFlag));
        }
        let record = ValidatorRecord {
            validator_account,
            active_balance: 0,
            score,
            last_stake_delta_epoch: u64::MAX,
            duplication_flag_bump_seed,
            delinquent_upgrader_active_balance: 0,
        };
        let bytes = record.encode();
        match self.validator_list.push(validator_list_data, bytes.as_slice(), "validator_list") {
            Ok(()) => {},
            Err(e) => {
                return Err(Error::Program(e));
            },
        }
        self.total_validator_score = self.total_validator_score + score;
        Ok(())
    }

    /// Removes the validator at `index` (given its record): its balance must be empty.
    pub fn remove(&mut self, validator_list_data: &mut Vec<u8>, index: u32, record: ValidatorRecord) -> (r: Result<(), Error>)
        requires
            old(self).list_fits(old(validator_list_data)@),
            record.score <= old(self).total_validator_score,
        ensures
            final(self).list_fits(final(validator_list_data)@),
            final(self).validator_list.account == old(self).validator_list.account,
            final(self).validator_list.item_size == old(self).validator_list.item_size,
            final(self).manager_authority == old(self).manager_authority,
            final(self).total_active_balance == old(self).total_active_balance,
            final(self).auto_add_validator_enabled == old(self).auto_add_validator_enabled,
            record.active_balance != 0 ==> r == Err::<(), Error>(Error::Marinade(MarinadeError::RemovingValidatorWithBalance)),
            r is Ok <==> record.active_balance == 0 && !old(self).validator_list.spec_is_changing_account()
                && index < old(self).validator_list.count,
            r is Ok ==> final(self).total_validator_score == old(self).total_validator_score - record.score,
            r is Ok ==> final(self).validator_list.count == old(self).validator_list.count - 1,
            r is Ok ==> final(self).items(final(validator_list_data)@) == swap_remove(
                old(self).items(old(validator_list_data)@),
                index as int,
            ),
            r is Ok ==> forall|j: int|
                0 <= j < old(validator_list_data)@.len() && !(old(self).validator_list.slot_start(index as int) <= j
                    < old(self).validator_list.slot_start(index as int) + old(self).validator_list.item_size)
                    ==> #[trigger] final(validator_list_data)@[j] == old(validator_list_data)@[j],
            r is Err ==> final(validator_list_data)@ == old(validator_list_data)@ && final(self).validator_list
                == old(self).validator_list,
    {
        if record.active_balance != 0 {
            return Err(Error::Marinade(MarinadeError::RemovingValidatorWithBalance));
        }
        self.total_validator_score = self.total_validator_score - record.score;
        match self.validator_list.remove(validator_list_data, index, "validator_list") {
            Ok(()) => Ok(()),
            Err(e) => Err(Error::Program(e)),
        }
    }

    /// Reads the record at `index`.
    pub fn get(&self, validator_list_data: &Vec<u8>, index: u32) -> (r: Result<ValidatorRecord, ProgramError>)
        requires
            self.list_fits(validator_list_data@),
        ensures
            index >= self.validator_list.count ==> r == Err::<ValidatorRecord, ProgramError>(ProgramError::InvalidArgument),
            r is Ok <==> index < self.validator_list.count,
            r matches Ok(rec) ==> rec == self.record_at(validator_list_data@, index as int),
    {
        let bytes = self.validator_list.get(validator_list_data, index, "validator_list")?;
        proof {
            crate::list::lemma_item_len(self.validator_list, validator_list_data@, index as int);
        }
        ValidatorRecord::decode(bytes.as_slice())
    }

    /// Reads the record at `index` and checks it is the record of `validator_account`.
    pub fn get_checked(&self, validator_list_data: &Vec<u8>, index: u32, validator_account: &Pubkey) -> (r: Result<
        ValidatorRecord,
        Error,
    >)
        requires
            self.list_fits(validator_list_data@),
        ensures
            r is Ok <==> index < self.validator_list.count && self.record_at(
                validator_list_data@,
                index as int,
            ).validator_account@ == validator_account@,
            r matches Ok(rec) ==> rec == self.record_at(validator_list_data@, index as int),
            index >= self.validator_list.count ==> r == Err::<ValidatorRecord, Error>(
                Error::Program(ProgramError::InvalidArgument),
            ),
            index < self.validator_list.count && self.record_at(validator_list_data@, index as int).validator_account@
                != validator_account@ ==> r == Err::<ValidatorRecord, Error>(
                Error::Marinade(MarinadeError::WrongValidatorAccountOrIndex),
            ),
    {
        let rec = match self.get(validator_list_data, index) {
            Ok(rec) => rec,
            Err(e) => {
                return Err(Error::Program(e));
            },
        };
        if !rec.validator_account.same_key(validator_account) {
            return Err(Error::Marinade(MarinadeError::WrongValidatorAccountOrIndex));
        }
        Ok(rec)
    }

    /// Overwrites the record at `index`.
    pub fn set(&self, validator_list_data: &mut Vec<u8>, index: u32, validator_record: ValidatorRecord) -> (r: Result<
        (),
        ProgramError,
    >)
        requires
            self.list_fits(old(validator_list_data)@),
        ensures
            final(validator_list_data)@.len() == old(validator_list_data)@.len(),
            r is Ok <==> !self.validator_list.spec_is_changing_account() && index < self.validator_list.count,
            r is Err ==> final(validator_list_data)@ == old(validator_list_data)@,
            r is Ok ==> self.items(final(validator_list_data)@) == self.items(old(validator_list_data)@).update(
                index as int,
                slot_after_write(
                    self.items(old(validator_list_data)@)[index as int],
                    spec_encode_validator_record(validator_record),
                ),
            ),
            r is Ok ==> self.record_at(final(validator_list_data)@, index as int) == validator_record,
            r is Ok ==> forall|i: int|
                0 <= i < self.validator_list.count && i != index ==> #[trigger] self.validator_list.item_at(
                    final(validator_list_data)@,
                    i,
                ) == self.validator_list.item_at(old(validator_list_data)@, i),
    {
        let bytes = validator_record.encode();
        let r = self.validator_list.set(validator_list_data, index, bytes.as_slice(), "validator_list");
        proof {
            if r is Ok {
                let old_items = self.items(old(validator_list_data)@);
                let new_items = self.items(validator_list_data@);
                let old_slot = old_items[index as int];
                let e = spec_encode_validator_record(validator_record);
                crate::list::lemma_item_len(self.validator_list, old(validator_list_data)@, index as int);
                crate::list::lemma_item_len(self.validator_list, validator_list_data@, index as int);
                assert(slot_after_write(old_slot, e) =~= e + old_slot.subrange(
                    VALIDATOR_RECORD_SIZE as int,
                    old_slot.len() as int,
                ));
                lemma_validator_record_round_trip(
                    validator_record,
                    old_slot.subrange(VALIDATOR_RECORD_SIZE as int, old_slot.len() as int),
                );
                assert forall|i: int| 0 <= i < self.validator_list.count && i != index implies
                    #[trigger] self.validator_list.item_at(validator_list_data@, i) == self.validator_list.item_at(
                    old(validator_list_data)@,
                    i,
                ) by {
                    assert(new_items[i] == old_items[i]);
                }
            }
        }
        r
    }

    /// A validator's stake target: its score's share of `total_stake_target`.
    pub fn validator_stake_target(&self, validator: &ValidatorRecord, total_stake_target: u64) -> (r: Result<
        u64,
        MarinadeError,
    >)
        ensures
            r == spec_validator_stake_target(self.total_validator_score, validator.score, total_stake_target),
    {
        if self.total_validator_score == 0 {
            return Ok(0);
        }
        proportional(total_stake_target, validator.score as u64, self.total_validator_score as u64)
    }

    /// Checks the signer is the validator manager.
    pub fn check_validator_manager_authority(&self, manager_authority: &Pubkey) -> (r: Result<(), MarinadeError>)
        ensures
            r is Ok <==> manager_authority@ == self.manager_authority@,
            r is Err ==> r == Err::<(), MarinadeError>(MarinadeError::InvalidValidatorManager),
    {
        if !manager_authority.same_key(&self.manager_authority) {
            return Err(MarinadeError::InvalidValidatorManager);
        }
        Ok(())
    }
}

/// A validator's stake target never exceeds the total stake target when its score is part of
/// the total score.
pub proof fn lemma_validator_stake_target_at_most_total(total_validator_score: u32, score: u32, total_stake_target: u64)
    requires
        score <= total_validator_score,
    ensures
        spec_validator_stake_target(total_validator_score, score, total_stake_target) is Ok,
        spec_validator_stake_target(total_validator_score, score, total_stake_target)->Ok_0 <= total_stake_target,
{
    if total_validator_score != 0 {
        crate::calc::lemma_proportional_at_most_amount(total_stake_target, score as u64, total_validator_score as u64);
    }
}

/// A validator's stake target is its score's share of the total stake target, divided down;
/// nothing while no validator has a score.
pub proof fn lemma_validator_stake_target_share(total_validator_score: u32, score: u32, total_stake_target: u64)
    requires
        score <= total_validator_score,
    ensures
        total_validator_score == 0 ==> spec_validator_stake_target(total_validator_score, score, total_stake_target)
            == Ok::<u64, MarinadeError>(0u64),
        total_validator_score > 0 ==> spec_validator_stake_target(total_validator_score, score, total_stake_target)
            is Ok && spec_validator_stake_target(total_validator_score, score, total_stake_target)->Ok_0
            == (total_stake_target as int * score as int) / total_validator_score as int,
{
    lemma_validator_stake_target_at_most_total(total_validator_score, score, total_stake_target);
}

/// The sum of the scores of the validator records in `items`.
pub open spec fn spec_total_score(items: Seq<Seq<u8>>) -> int
    decreases items.len(),
{
    if items.len() == 0 {
        0
    } else {
        spec_total_score(items.drop_last()) + spec_decode_validator_record(items.last()).score
    }
}

proof fn lemma_total_score_push(items: Seq<Seq<u8>>, item: Seq<u8>)
    ensures
        spec_total_score(items.push(item)) == spec_total_score(items) + spec_decode_validator_record(item).score,
{
    assert(items.push(item).drop_last() =~= items);
}

proof fn lemma_total_score_update(items: Seq<Seq<u8>>, index: int, item: Seq<u8>)
    requires
        0 <= index < items.len(),
    ensures
        spec_total_score(items.update(index, item)) == spec_total_score(items) - spec_decode_validator_record(
            items[index],
        ).score + spec_decode_validator_record(item).score,
    decreases items.len(),
{
    let updated = items.update(index, item);
    if index == items.len() - 1 {
        assert(updated.drop_last() =~= items.drop_last());
    } else {
        assert(updated.drop_last() =~= items.drop_last().update(index, item));
        lemma_total_score_update(items.drop_last(), index, item);
    }
}

/// Registering a validator adds its score to the sum of the listed scores: the total score
/// stays that sum.
pub proof fn lemma_add_keeps_total_score(vs: ValidatorSystem, data: Seq<u8>, record: ValidatorRecord)
    requires
        vs.list_fits(data),
        vs.validator_list.spec_check_push(data.len() as usize) is Ok,
        vs.total_validator_score == spec_total_score(vs.items(data)),
    ensures
        spec_total_score(
            vs.items(data).push(
                slot_after_write(
                    vs.validator_list.item_at(data, vs.validator_list.count as int),
                    spec_encode_validator_record(record),
                ),
            ),
        ) == vs.total_validator_score + record.score,
{
    let list = vs.validator_list;
    let slot = list.item_at(data, list.count as int);
    crate::list::lemma_slot_within_capacity(list, data.len() as usize, list.count as int);
    vstd::arithmetic::mul::lemma_mul_nonnegative(list.count as int, list.item_size as int);
    let e = spec_encode_validator_record(record);
    lemma_validator_record_encoding_len(record);
    assert(slot.len() == list.item_size);
    assert(slot_after_write(slot, e) =~= e + slot.subrange(VALIDATOR_RECORD_SIZE as int, slot.len() as int)) by {
        if e.len() == slot.len() {
            assert(slot.subrange(VALIDATOR_RECORD_SIZE as int, slot.len() as int) =~= Seq::<u8>::empty());
            assert(e.subrange(0, slot.len() as int) =~= e);
        }
    }
    lemma_validator_record_round_trip(record, slot.subrange(VALIDATOR_RECORD_SIZE as int, slot.len() as int));
    lemma_total_score_push(vs.items(data), slot_after_write(slot, e));
}

/// Removing a validator takes its score off the sum of the listed scores: the total score stays
/// that sum.
pub proof fn lemma_remove_keeps_total_score(vs: ValidatorSystem, data: Seq<u8>, index: int)
    requires
        vs.list_fits(data),
        0 <= index < vs.validator_list.count,
        vs.total_validator_score == spec_total_score(vs.items(data)),
    ensures
        spec_total_score(swap_remove(vs.items(data), index)) == vs.total_validator_score - vs.record_at(data, index).score,
{
    let items = vs.items(data);
    crate::list::lemma_item_len(vs.validator_list, data, index);
    let last = items.last();
    if index == items.len() - 1 {
        assert(swap_remove(items, index) == items.drop_last());
    } else {
        let updated = items.update(index, last);
        lemma_total_score_update(items, index, last);
        assert(updated.last() == last);
        assert(swap_remove(items, index) == updated.drop_last());
    }
}

/// Setting a validator's score replaces its old score in the sum of the listed scores: the
/// total score stays that sum.
pub proof fn lemma_set_score_keeps_total_score(vs: ValidatorSystem, data: Seq<u8>, index: int, score: u32)
    requires
        vs.list_fits(data),
        0 <= index < vs.validator_list.count,
        vs.total_validator_score == spec_total_score(vs.items(data)),
    ensures
        spec_total_score(
            vs.items(data).update(
                index,
                slot_after_write(
                    vs.items(data)[index],
                    spec_encode_validator_record(ValidatorRecord { score, ..vs.record_at(data, index) }),
                ),
            ),
        ) == vs.total_validator_score - vs.record_at(data, index).score + score,
{
    let items = vs.items(data);
    let slot = items[index];
    crate::list::lemma_item_len(vs.validator_list, data, index);
    let record = ValidatorRecord { score, ..vs.record_at(data, index) };
    let e = spec_encode_validator_record(record);
    lemma_validator_record_encoding_len(record);
    assert(slot_after_write(slot, e) =~= e + slot.subrange(VALIDATOR_RECORD_SIZE as int, slot.len() as int)) by {
        if e.len() == slot.len() {
            assert(slot.subrange(VALIDATOR_RECORD_SIZE as int, slot.len() as int) =~= Seq::<u8>::empty());
            assert(e.subrange(0, slot.len() as int) =~= e);
        }
    }
    lemma_validator_record_round_trip(record, slot.subrange(VALIDATOR_RECORD_SIZE as int, slot.len() as int));
    lemma_total_score_update(items, index, slot_after_write(slot, e));
}

} // verus!
