//! The cluster's epoch schedule: which slots belong to an epoch.
use vstd::prelude::*;

verus! {

/// The cluster's epoch schedule parameters.
#[derive(Clone, Copy, Debug, PartialEq, Eq)]
pub struct EpochSchedule {
    /// The maximum number of slots in each epoch.
    pub slots_per_epoch: u64,
    /// Slots before an epoch at which its leader schedule is computed.
    pub leader_schedule_slot_offset: u64,
    /// Whether epochs start short and grow.
    pub warmup: bool,
    /// The first epoch after the warmup period.
    pub first_normal_epoch: u64,
    /// The first slot after the warmup period.
    pub first_normal_slot: u64,
}

/// Slots of the shortest (first) epoch of the warmup period.
pub const MINIMUM_SLOTS_PER_EPOCH: u64 = 32;

/// `a + b` in 64 bits, saturating at the maximum.
pub open spec fn saturating_add(a: int, b: int) -> u64 {
    if a + b > u64::MAX {
        u64::MAX
    } else {
        (a + b) as u64
    }
}

/// `a - b` in 64 bits, saturating at zero.
pub open spec fn saturating_sub(a: int, b: int) -> u64 {
    if a < b {
        0
    } else {
        (a - b) as u64
    }
}

/// `a * b` in 64 bits, saturating at the maximum.
pub open spec fn saturating_mul(a: int, b: int) -> u64 {
    if a * b > u64::MAX {
        u64::MAX
    } else {
        (a * b) as u64
    }
}

/// `2^e` in 64 bits, saturating at the maximum.
pub open spec fn saturating_pow2(e: nat) -> u64 {
    if e >= 64 {
        u64::MAX
    } else {
        vstd::arithmetic::power2::pow2(e) as u64
    }
}

/// The first slot of `epoch`: epochs of the warmup period double in length from the minimal
/// epoch on, later ones have `slots_per_epoch` slots from the first normal slot on.
pub open spec fn spec_first_slot_in_epoch(slots_per_epoch: u64, first_normal_epoch: u64, first_normal_slot: u64, epoch: u64) -> u64 {
    if epoch <= first_normal_epoch {
        saturating_mul(saturating_sub(saturating_pow2((epoch as u32) as nat) as int, 1) as int, MINIMUM_SLOTS_PER_EPOCH as int)
    } else {
        saturating_add(
            saturating_mul(saturating_sub(epoch as int, first_normal_epoch as int) as int, slots_per_epoch as int) as int,
            first_normal_slot as int,
        )
    }
}

/// The number of slots of `epoch`.
pub open spec fn spec_slots_in_epoch(slots_per_epoch: u64, first_normal_epoch: u64, epoch: u64) -> u64 {
    if epoch < first_normal_epoch {
        let e = (epoch as u32) as int + 5;
        saturating_pow2((if e > u32::MAX { u32::MAX as int } else { e }) as nat)
    } else {
        slots_per_epoch
    }
}

/// The last slot of `epoch` under the schedule with these parameters: its first slot plus its
/// number of slots, minus one (all in saturating 64-bit arithmetic).
pub open spec fn spec_last_slot_in_epoch(
    slots_per_epoch: u64,
    leader_schedule_slot_offset: u64,
    warmup: bool,
    first_normal_epoch: u64,
    first_normal_slot: u64,
    epoch: u64,
) -> u64 {
    saturating_sub(
        saturating_add(
            spec_first_slot_in_epoch(slots_per_epoch, first_normal_epoch, first_normal_slot, epoch) as int,
            spec_slots_in_epoch(slots_per_epoch, first_normal_epoch, epoch) as int,
        ) as int,
        1,
    )
}

impl EpochSchedule {
    /// The last slot of `epoch` under this schedule.
    pub open spec fn last_slot(&self, epoch: u64) -> u64 {
        spec_last_slot_in_epoch(
            self.slots_per_epoch,
            self.leader_schedule_slot_offset,
            self.warmup,
            self.first_normal_epoch,
            self.first_normal_slot,
            epoch,
        )
    }

    /// `EpochSchedule::get_last_slot_in_epoch` of `solana_program`, on a schedule built from
    /// these fields. Claimed: the result is what the source computes, in saturating arithmetic
    /// that never panics: the first slot of the epoch plus its number of slots, minus one.
    #[verifier::external_body]
    pub(crate) fn last_slot_in_epoch(&self, epoch: u64) -> (r: u64)
        ensures
            r == spec_last_slot_in_epoch(
                self.slots_per_epoch,
                self.leader_schedule_slot_offset,
                self.warmup,
                self.first_normal_epoch,
                self.first_normal_slot,
                epoch,
            ),
    {
        let schedule = anchor_lang::solana_program::epoch_schedule::EpochSchedule {
            slots_per_epoch: self.slots_per_epoch,
            leader_schedule_slot_offset: self.leader_schedule_slot_offset,
            warmup: self.warmup,
            first_normal_epoch: self.first_normal_epoch,
            first_normal_slot: self.first_normal_slot,
        };
        schedule.get_last_slot_in_epoch(epoch)
    }
}

} // verus!
