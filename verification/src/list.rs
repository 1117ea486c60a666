//! A list of fixed-size items stored in an account's data after an 8-byte discriminator.
use vstd::prelude::*;
use vstd::arithmetic::mul::*;

use crate::error::{MarinadeError, ProgramError};
use crate::pubkey::{default_key_view, Pubkey};

verus! {

broadcast use vstd::seq_lib::group_to_multiset_ensures;

/// Code of the calculation-failure error when it is reported as a generic program error.
pub const CALCULATION_FAILURE_CODE: u32 = 6013;

/// Header of a list kept in another account: where it lives, the item size and how many items it holds.
#[derive(Clone, Copy, Debug)]
pub struct List {
    pub account: Pubkey,
    pub item_size: u32,
    pub count: u32,
    // For chunked change account
    pub new_account: Pubkey,
    pub copied_count: u32,
}

/// The bytes of `data` after writing `item` into the slot `[start, start + size)`: as many
/// bytes of `item` as fit are written, the rest of the slot keeps its old bytes.
pub open spec fn write_slot(data: Seq<u8>, start: int, size: int, item: Seq<u8>) -> Seq<u8> {
    let n = if item.len() < size { item.len() as int } else { size };
    Seq::new(data.len(), |j: int| if start <= j < start + n { item[j - start] } else { data[j] })
}

/// The slot bytes after writing `item` into a slot that held `old`.
pub open spec fn slot_after_write(old: Seq<u8>, item: Seq<u8>) -> Seq<u8> {
    if item.len() < old.len() {
        item + old.subrange(item.len() as int, old.len() as int)
    } else {
        item.subrange(0, old.len() as int)
    }
}

proof fn lemma_slot_bounds(i: int, j: int, size: int)
    requires
        0 <= i < j,
        0 <= size,
    ensures
        (i + 1) * size <= j * size,
        i * size + size == (i + 1) * size,
        0 <= i * size,
{
    lemma_mul_is_distributive_add_other_way(size, i, 1);
    lemma_mul_inequality(i + 1, j, size);
    lemma_mul_nonnegative(i, size);
}

impl List {
    /// Start of slot `index` in the account data.
    pub open spec fn slot_start(&self, index: int) -> int {
        8 + index * self.item_size
    }

    /// The bytes of item `index`.
    pub open spec fn item_at(&self, data: Seq<u8>, index: int) -> Seq<u8> {
        data.subrange(self.slot_start(index), self.slot_start(index) + self.item_size)
    }

    /// The items of the list, in order.
    pub open spec fn items(&self, data: Seq<u8>) -> Seq<Seq<u8>> {
        Seq::new(self.count as nat, |i: int| self.item_at(data, i))
    }

    /// The items fit in `data_len` bytes and their offsets fit in 32 bits.
    pub open spec fn fits(&self, data_len: int) -> bool {
        &&& self.count as int * self.item_size as int <= u32::MAX
        &&& 8 + self.count as int * self.item_size as int <= data_len
    }

    /// The list's account is being replaced (no modifications allowed meanwhile).
    pub open spec fn spec_is_changing_account(&self) -> bool {
        self.new_account@ != default_key_view()
    }

    /// What `capacity` answers for an account of `account_len` bytes.
    pub open spec fn spec_capacity(&self, account_len: usize) -> Result<u32, ProgramError> {
        if account_len < 8 {
            Err(ProgramError::AccountDataTooSmall)
        } else if account_len - 8 > u32::MAX {
            Err(ProgramError::Custom(CALCULATION_FAILURE_CODE))
        } else if self.item_size == 0 {
            Ok(u32::MAX)
        } else {
            Ok(((account_len - 8) / self.item_size as int) as u32)
        }
    }

    /// Creates an empty list and stamps the account data with the discriminator.
    pub fn new(
        discriminator: &[u8; 8],
        item_size: u32,
        account: Pubkey,
        data: &mut Vec<u8>,
        list_name: &str,
    ) -> (r: Result<Self, ProgramError>)
        ensures
            old(data)@.len() < 8 ==> r == Err::<Self, ProgramError>(ProgramError::AccountDataTooSmall)
                && final(data)@ == old(data)@,
            old(data)@.len() >= 8 && old(data)@.subrange(0, 8) != Seq::new(8, |i: int| 0u8)
                ==> r == Err::<Self, ProgramError>(ProgramError::AccountAlreadyInitialized)
                && final(data)@ == old(data)@,
            r is Ok <==> old(data)@.len() >= 8 && old(data)@.subrange(0, 8) == Seq::new(8, |i: int| 0u8),
            r matches Ok(l) ==> {
                &&& l.account == account
                &&& l.item_size == item_size
                &&& l.count == 0
                &&& l.new_account@ == default_key_view()
                &&& l.copied_count == 0
                &&& final(data)@ == discriminator@ + old(data)@.subrange(8, old(data)@.len() as int)
            },
    {
        let result = List {
            account,
            item_size,
            count: 0,
            new_account: Pubkey::default_key(),
            copied_count: 0,
        };
        result.init_account(discriminator, data, list_name)?;
        Ok(result)
    }

    /// Checks the account is long enough and still zeroed, then writes the discriminator.
    fn init_account(&self, discriminator: &[u8; 8], data: &mut Vec<u8>, list_name: &str) -> (r: Result<(), ProgramError>)
        requires
            self.count == 0,
        ensures
            old(data)@.len() < 8 ==> r == Err::<(), ProgramError>(ProgramError::AccountDataTooSmall),
            old(data)@.len() >= 8 && old(data)@.subrange(0, 8) != Seq::new(8, |i: int| 0u8)
                ==> r == Err::<(), ProgramError>(ProgramError::AccountAlreadyInitialized),
            r is Ok <==> old(data)@.len() >= 8 && old(data)@.subrange(0, 8) == Seq::new(8, |i: int| 0u8),
            r is Err ==> final(data)@ == old(data)@,
            r is Ok ==> final(data)@ == discriminator@ + old(data)@.subrange(8, old(data)@.len() as int),
    {
        if data.len() < 8 {
            return Err(ProgramError::AccountDataTooSmall);
        }
        let mut i: usize = 0;
        while i < 8
            invariant
                i <= 8,
                data@.len() >= 8,
                forall|j: int| 0 <= j < i ==> data@[j] == 0u8,
            decreases 8 - i,
        {
            if data[i] != 0 {
                assert(data@.subrange(0, 8)[i as int] != Seq::new(8, |k: int| 0u8)[i as int]);
                return Err(ProgramError::AccountAlreadyInitialized);
            }
            i = i + 1;
        }
        assert(data@.subrange(0, 8) =~= Seq::new(8, |k: int| 0u8));
        let ghost before = data@;
        let mut k: usize = 0;
        while k < 8
            invariant
                k <= 8,
                data@.len() == before.len(),
                before.len() >= 8,
                discriminator@.len() == 8,
                forall|j: int| 0 <= j < k ==> data@[j] == discriminator@[j],
                forall|j: int| k <= j < before.len() ==> data@[j] == before[j],
            decreases 8 - k,
        {
            data.set(k, discriminator[k]);
            k = k + 1;
        }
        assert(data@ =~= discriminator@ + before.subrange(8, before.len() as int));
        Ok(())
    }

    /// Account size needed for `count` items of `item_size` bytes.
    pub fn bytes_for(item_size: u32, count: u32) -> (r: u32)
        requires
            8 + count as int * item_size as int <= u32::MAX,
        ensures
            r == 8 + count as int * item_size as int,
    {
        proof {
            lemma_mul_nonnegative(count as int, item_size as int);
        }
        8 + count * item_size
    }

    /// Number of items that fit in an account of `account_len` bytes (the length taken modulo 2^32).
    pub fn capacity_of(item_size: u32, account_len: usize) -> (r: u32)
        requires
            item_size > 0,
            account_len as u32 >= 8,
        ensures
            r == ((account_len as u32) - 8) / (item_size as int),
    {
        (account_len as u32 - 8) / item_size
    }

    pub fn item_size(&self) -> (r: u32)
        ensures
            r == self.item_size,
    {
        self.item_size
    }

    pub fn len(&self) -> (r: u32)
        ensures
            r == self.count,
    {
        self.count
    }

    pub fn is_empty(&self) -> (r: bool)
        ensures
            r == (self.count == 0),
    {
        self.count == 0
    }

    pub fn is_changing_account(&self) -> (r: bool)
        ensures
            r == self.spec_is_changing_account(),
    {
        !self.new_account.is_default()
    }

    /// Whether one more item can be appended in an account of `account_len` bytes, with the
    /// error `push` gives when not.
    pub open spec fn spec_check_push(&self, account_len: usize) -> Result<(), ProgramError> {
        if self.spec_is_changing_account() {
            Err(ProgramError::InvalidAccountData)
        } else {
            match self.spec_capacity(account_len) {
                Err(e) => Err(e),
                Ok(c) => if self.count >= c {
                    Err(ProgramError::AccountDataTooSmall)
                } else {
                    Ok(())
                },
            }
        }
    }

    /// Checks, before any change is made, that `push` would find room for one more item.
    pub(crate) fn check_push(&self, account_len: usize) -> (r: Result<(), ProgramError>)
        ensures
            r == self.spec_check_push(account_len),
    {
        if self.is_changing_account() {
            return Err(ProgramError::InvalidAccountData);
        }
        let capacity = self.capacity(account_len)?;
        if self.count >= capacity {
            return Err(ProgramError::AccountDataTooSmall);
        }
        Ok(())
    }

    /// Number of items that fit in an account of `account_len` bytes
    /// (the maximum for zero-sized items).
    pub fn capacity(&self, account_len: usize) -> (r: Result<u32, ProgramError>)
        ensures
            r == self.spec_capacity(account_len),
    {
        if account_len < 8 {
            return Err(ProgramError::AccountDataTooSmall);
        }
        let rest: usize = account_len - 8;
        if rest > u32::MAX as usize {
            return Err(ProgramError::Custom(CALCULATION_FAILURE_CODE));
        }
        let rest32: u32 = rest as u32;
        match rest32.checked_div(self.item_size) {
            Some(c) => Ok(c),
            None => Ok(u32::MAX),
        }
    }

    /// Copy of the bytes of item `index`.
    pub fn get(&self, data: &Vec<u8>, index: u32, list_name: &str) -> (r: Result<Vec<u8>, ProgramError>)
        requires
            self.fits(data@.len() as int),
        ensures
            index >= self.count ==> r == Err::<Vec<u8>, ProgramError>(ProgramError::InvalidArgument),
            index < self.count ==> r is Ok,
            r matches Ok(v) ==> v@ == self.item_at(data@, index as int),
            r matches Ok(v) ==> v@ == self.items(data@)[index as int],
    {
        if index >= self.len() {
            return Err(ProgramError::InvalidArgument);
        }
        let data_len: usize = data.len();
        proof {
            lemma_slot_bounds(index as int, self.count as int, self.item_size as int);
        }
        let start: usize = 8 + (index * self.item_size()) as usize;
        let size: usize = self.item_size() as usize;
        let mut out: Vec<u8> = Vec::new();
        let mut k: usize = 0;
        while k < size
            invariant
                k <= size,
                start + size <= data@.len(),
                data@.len() == data_len,
                out@.len() == k,
                forall|j: int| 0 <= j < k ==> out@[j] == data@[start + j],
            decreases size - k,
        {
            out.push(data[start + k]);
            k = k + 1;
        }
        assert(out@ =~= data@.subrange(start as int, start + size));
        Ok(out)
    }

    /// Writes `item` into slot `start`; returns whether all of it fit.
    fn write_item(data: &mut Vec<u8>, start: usize, size: usize, item: &[u8]) -> (fit: bool)
        requires
            start + size <= old(data)@.len(),
        ensures
            final(data)@ == write_slot(old(data)@, start as int, size as int, item@),
            fit == (item@.len() <= size),
    {
        let n: usize = if item.len() < size { item.len() } else { size };
        let data_len: usize = data.len();
        let ghost before = data@;
        let mut k: usize = 0;
        while k < n
            invariant
                k <= n,
                n <= size,
                n <= item@.len(),
                start + size <= before.len(),
                data@.len() == before.len(),
                before.len() == data_len,
                forall|j: int| 0 <= j < data@.len() ==> data@[j] == (if start <= j < start + k { item@[j - start] } else { before[j] }),
            decreases n - k,
        {
            data.set(start + k, item[k]);
            k = k + 1;
        }
        assert(data@ =~= write_slot(before, start as int, size as int, item@));
        item.len() <= size
    }

    /// Overwrites item `index` with the bytes of `item`.
    pub fn set(&self, data: &mut Vec<u8>, index: u32, item: &[u8], list_name: &str) -> (r: Result<(), ProgramError>)
        requires
            self.fits(old(data)@.len() as int),
        ensures
            self.spec_is_changing_account() ==> r == Err::<(), ProgramError>(ProgramError::InvalidAccountData)
                && final(data)@ == old(data)@,
            !self.spec_is_changing_account() && index >= self.count
                ==> r == Err::<(), ProgramError>(ProgramError::InvalidArgument) && final(data)@ == old(data)@,
            !self.spec_is_changing_account() && index < self.count ==> {
                &&& final(data)@ == write_slot(old(data)@, self.slot_start(index as int), self.item_size as int, item@)
                &&& r is Ok <==> item@.len() <= self.item_size
                &&& r is Err ==> r == Err::<(), ProgramError>(ProgramError::BorshIoError)
                &&& self.items(final(data)@) == self.items(old(data)@).update(
                    index as int,
                    slot_after_write(self.items(old(data)@)[index as int], item@),
                )
            },
    {
        if self.is_changing_account() {
            return Err(ProgramError::InvalidAccountData);
        }
        if index >= self.len() {
            return Err(ProgramError::InvalidArgument);
        }
        let data_len: usize = data.len();
        proof {
            lemma_slot_bounds(index as int, self.count as int, self.item_size as int);
        }
        let start: usize = 8 + (index * self.item_size()) as usize;
        let ghost before = data@;
        let fit = Self::write_item(data, start, self.item_size() as usize, item);
        proof {
            self.lemma_items_after_write(before, data@, index as int, item@);
        }
        if fit {
            Ok(())
        } else {
            Err(ProgramError::BorshIoError)
        }
    }

    /// Writing one slot changes that item only.
    proof fn lemma_items_after_write(&self, before: Seq<u8>, after: Seq<u8>, index: int, item: Seq<u8>)
        requires
            self.fits(before.len() as int),
            0 <= index < self.count,
            after == write_slot(before, self.slot_start(index), self.item_size as int, item),
        ensures
            self.items(after) == self.items(before).update(index, slot_after_write(self.items(before)[index], item)),
    {
        let s = self.item_size as int;
        assert forall|i: int| 0 <= i < self.count implies #[trigger] self.items(after)[i] == self.items(before).update(
            index,
            slot_after_write(self.items(before)[index], item),
        )[i] by {
            if i < index {
                lemma_slot_bounds(i, index, s);
                lemma_slot_bounds(index, self.count as int, s);
                assert(self.item_at(after, i) =~= self.item_at(before, i));
            } else if i > index {
                lemma_slot_bounds(index, i, s);
                lemma_slot_bounds(i, self.count as int, s);
                assert(self.item_at(after, i) =~= self.item_at(before, i));
            } else {
                lemma_slot_bounds(index, self.count as int, s);
                assert(self.item_at(after, i) =~= slot_after_write(self.item_at(before, i), item));
            }
        }
        assert(self.items(after) =~= self.items(before).update(index, slot_after_write(self.items(before)[index], item)));
    }

    /// Appends `item` after the last item.
    pub fn push(&mut self, data: &mut Vec<u8>, item: &[u8], list_name: &str) -> (r: Result<(), ProgramError>)
        requires
            old(self).fits(old(data)@.len() as int),
        ensures
            final(self).fits(final(data)@.len() as int),
            final(self).account == old(self).account,
            final(self).item_size == old(self).item_size,
            final(self).new_account == old(self).new_account,
            final(self).copied_count == old(self).copied_count,
            final(data)@.len() == old(data)@.len(),
            old(self).spec_is_changing_account() ==> r == Err::<(), ProgramError>(ProgramError::InvalidAccountData),
            !old(self).spec_is_changing_account() && old(self).spec_capacity(old(data)@.len() as usize) is Err
                ==> r == Err::<(), ProgramError>(old(self).spec_capacity(old(data)@.len() as usize)->Err_0),
            !old(self).spec_is_changing_account() && old(self).spec_capacity(old(data)@.len() as usize) is Ok
                && old(self).count >= old(self).spec_capacity(old(data)@.len() as usize)->Ok_0 ==> r == Err::<(), ProgramError>(ProgramError::AccountDataTooSmall),
            !old(self).spec_is_changing_account() && old(self).spec_capacity(old(data)@.len() as usize) is Ok
                && old(self).count < old(self).spec_capacity(old(data)@.len() as usize)->Ok_0 ==> {
                    &&& r is Ok <==> item@.len() <= old(self).item_size
                    &&& r is Err ==> r == Err::<(), ProgramError>(ProgramError::BorshIoError)
                    &&& final(data)@ == write_slot(old(data)@, old(self).slot_start(old(self).count as int),
                        old(self).item_size as int, item@)
                },
            r is Ok ==> final(self).count == old(self).count + 1,
            r is Ok ==> final(self).items(final(data)@) == old(self).items(old(data)@).push(
                slot_after_write(old(self).item_at(old(data)@, old(self).count as int), item@)),
            r is Err ==> final(self).count == old(self).count,
            r is Err && (old(self).spec_is_changing_account() || old(self).spec_capacity(old(data)@.len() as usize) is Err
                || old(self).count >= old(self).spec_capacity(old(data)@.len() as usize)->Ok_0) ==> final(data)@ == old(data)@,
    {
        if self.is_changing_account() {
            return Err(ProgramError::InvalidAccountData);
        }
        let capacity = self.capacity(data.len())?;
        if self.len() >= capacity {
            return Err(ProgramError::AccountDataTooSmall);
        }
        let ghost before = data@;
        let ghost cnt = self.count as int;
        let ghost s = self.item_size as int;
        proof {
            // the new slot lies inside the account
            if s > 0 {
                vstd::arithmetic::div_mod::lemma_fundamental_div_mod((before.len() - 8) as int, s);
                vstd::arithmetic::div_mod::lemma_mod_pos_bound((before.len() - 8) as int, s);
                lemma_mul_inequality(cnt + 1, capacity as int, s);
                lemma_mul_is_commutative(s, capacity as int);
                lemma_mul_is_distributive_add_other_way(s, cnt, 1);
            } else {
                lemma_mul_by_zero_is_zero(cnt + 1);
                lemma_mul_by_zero_is_zero(cnt);
            }
            lemma_mul_nonnegative(cnt, s);
        }
        let start: usize = 8 + (self.count * self.item_size()) as usize;
        let fit = Self::write_item(data, start, self.item_size() as usize, item);
        if !fit {
            return Err(ProgramError::BorshIoError);
        }
        let ghost old_list = *self;
        self.count = self.count + 1;
        proof {
            let after = data@;
            assert forall|i: int| 0 <= i < cnt + 1 implies #[trigger] self.items(after)[i] == old_list.items(before).push(
                slot_after_write(old_list.item_at(before, cnt), item@),
            )[i] by {
                if i < cnt {
                    lemma_slot_bounds(i, cnt, s);
                    assert(self.item_at(after, i) =~= old_list.item_at(before, i));
                } else {
                    assert(self.item_at(after, i) =~= slot_after_write(old_list.item_at(before, cnt), item@));
                }
            }
            assert(self.items(after) =~= old_list.items(before).push(slot_after_write(old_list.item_at(before, cnt), item@)));
        }
        Ok(())
    }

    /// Removes item `index` by moving the last item into its slot.
    pub fn remove(&mut self, data: &mut Vec<u8>, index: u32, list_name: &str) -> (r: Result<(), ProgramError>)
        requires
            old(self).fits(old(data)@.len() as int),
        ensures
            final(self).fits(final(data)@.len() as int),
            final(self).account == old(self).account,
            final(self).item_size == old(self).item_size,
            final(self).new_account == old(self).new_account,
            final(self).copied_count == old(self).copied_count,
            final(data)@.len() == old(data)@.len(),
            old(self).spec_is_changing_account() ==> r == Err::<(), ProgramError>(ProgramError::InvalidAccountData),
            !old(self).spec_is_changing_account() && index >= old(self).count
                ==> r == Err::<(), ProgramError>(ProgramError::InvalidArgument),
            r is Ok <==> !old(self).spec_is_changing_account() && index < old(self).count,
            r is Err ==> final(self).count == old(self).count && final(data)@ == old(data)@,
            r is Ok ==> final(self).count == old(self).count - 1,
            r is Ok ==> final(self).items(final(data)@) == swap_remove(old(self).items(old(data)@), index as int),
            r is Ok && index == old(self).count - 1 ==> final(data)@ == old(data)@,
            r is Ok ==> forall|j: int|
                0 <= j < old(data)@.len() && !(old(self).slot_start(index as int) <= j < old(self).slot_start(index as int)
                    + old(self).item_size) ==> #[trigger] final(data)@[j] == old(data)@[j],
    {
        if self.is_changing_account() {
            return Err(ProgramError::InvalidAccountData);
        }
        if index >= self.len() {
            return Err(ProgramError::InvalidArgument);
        }
        let data_len: usize = data.len();
        let ghost before = data@;
        let ghost old_list = *self;
        let ghost s = self.item_size as int;
        self.count = self.count - 1;
        if index == self.count {
            proof {
                assert(self.items(before) =~= swap_remove(old_list.items(before), index as int));
                lemma_mul_inequality(self.count as int, old_list.count as int, s);
                lemma_mul_nonnegative(self.count as int, s);
            }
            return Ok(());
        }
        proof {
            lemma_slot_bounds(index as int, self.count as int, s);
            lemma_slot_bounds(self.count as int, old_list.count as int, s);
        }
        let start: usize = 8 + (index * self.item_size()) as usize;
        let last_item_start: usize = 8 + (self.count * self.item_size()) as usize;
        let size: usize = self.item_size() as usize;
        let mut k: usize = 0;
        while k < size
            invariant
                k <= size,
                start + size <= last_item_start,
                last_item_start + size <= before.len(),
                data@.len() == before.len(),
                before.len() == data_len,
                forall|j: int| 0 <= j < data@.len() ==> data@[j] == (if start <= j < start + k { before[last_item_start + (j - start)] } else { before[j] }),
            decreases size - k,
        {
            let b = data[last_item_start + k];
            data.set(start + k, b);
            k = k + 1;
        }
        proof {
            let after = data@;
            let cnt = self.count as int;
            assert forall|i: int| 0 <= i < cnt implies #[trigger] self.items(after)[i] == swap_remove(old_list.items(before), index as int)[i] by {
                if i < index {
                    lemma_slot_bounds(i, index as int, s);
                    assert(self.item_at(after, i) =~= old_list.item_at(before, i));
                } else if i > index {
                    lemma_slot_bounds(index as int, i, s);
                    lemma_slot_bounds(i, cnt, s);
                    assert(self.item_at(after, i) =~= old_list.item_at(before, i));
                } else {
                    assert(self.item_at(after, i) =~= old_list.item_at(before, cnt));
                }
            }
            assert(self.items(after) =~= swap_remove(old_list.items(before), index as int));
            lemma_mul_inequality(cnt, old_list.count as int, s);
            lemma_mul_nonnegative(cnt, s);
        }
        Ok(())
    }
}

/// Every item of a fitting list has the item size.
pub proof fn lemma_item_len(list: List, data: Seq<u8>, index: int)
    requires
        list.fits(data.len() as int),
        0 <= index < list.count,
    ensures
        list.item_at(data, index).len() == list.item_size,
        list.items(data)[index] == list.item_at(data, index),
{
    lemma_slot_bounds(index, list.count as int, list.item_size as int);
}

/// Writing the slot of item `index` leaves every other item within the data unchanged.
pub proof fn lemma_write_slot_keeps_other_items(list: List, data: Seq<u8>, index: int, other: int, item: Seq<u8>)
    requires
        0 <= index,
        0 <= other,
        index != other,
        list.slot_start(other) + list.item_size <= data.len(),
    ensures
        list.item_at(write_slot(data, list.slot_start(index), list.item_size as int, item), other) == list.item_at(
            data,
            other,
        ),
{
    let s = list.item_size as int;
    if other < index {
        lemma_slot_bounds(other, index, s);
    } else {
        lemma_slot_bounds(index, other, s);
    }
    lemma_mul_nonnegative(other, s);
    assert(list.item_at(write_slot(data, list.slot_start(index), s, item), other) =~= list.item_at(data, other));
}

/// Every slot below the capacity of an account lies within its data.
pub proof fn lemma_slot_within_capacity(list: List, len: usize, index: int)
    requires
        list.item_size > 0,
        list.spec_capacity(len) is Ok,
        0 <= index < list.spec_capacity(len)->Ok_0,
    ensures
        list.slot_start(index) + list.item_size <= len,
{
    let s = list.item_size as int;
    let rest = len - 8;
    let cap = rest / s;
    vstd::arithmetic::div_mod::lemma_fundamental_div_mod(rest, s);
    lemma_mul_inequality(index + 1, cap, s);
    lemma_mul_is_distributive_add_other_way(s, index, 1);
    lemma_mul_is_commutative(s, cap);
}

/// The items after removing item `index` by moving the last item into its place.
pub open spec fn swap_remove<A>(items: Seq<A>, index: int) -> Seq<A> {
    if index == items.len() - 1 {
        items.drop_last()
    } else {
        items.update(index, items.last()).drop_last()
    }
}

/// Removing an item keeps every other item: the multiset of items loses exactly the removed one.
pub proof fn lemma_swap_remove_multiset<A>(items: Seq<A>, index: int)
    requires
        0 <= index < items.len(),
    ensures
        swap_remove(items, index).to_multiset() == items.to_multiset().remove(items[index]),
        swap_remove(items, index).len() == items.len() - 1,
{
    broadcast use vstd::multiset::group_multiset_axioms;
    let last_index = items.len() - 1;
    if index == last_index {
        assert(items.drop_last() == items.remove(last_index));
    } else {
        let upd = items.update(index, items.last());
        assert(upd.drop_last() == upd.remove(last_index));
        assert(upd[last_index] == items.last());
        assert(upd.to_multiset() == items.to_multiset().insert(items.last()).remove(items[index]));
        assert(upd.drop_last().to_multiset() == upd.to_multiset().remove(items.last()));
        assert(upd.drop_last().to_multiset() =~= items.to_multiset().remove(items[index]));
    }
}

} // verus!
