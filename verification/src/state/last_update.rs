//! Freshness of a state that depends on time.

use crate::error::ErrorCode;
use vstd::prelude::*;

verus! {

/// Number of elapsed slots from which a state counts as stale.
pub const STALE_AFTER_SLOTS_ELAPSED: u64 = 1;

/// The slot of the last update, and whether the state was marked stale since.
#[derive(Clone, Copy, Debug, Default)]
pub struct LastUpdate {
    /// Slot of the last update.
    pub slot: u64,
    /// True when marked stale, false when the slot was updated.
    pub stale: bool,
}

impl LastUpdate {
    /// A last update at `slot`, stale until the first refresh.
    pub fn new(slot: u64) -> (r: LastUpdate)
        ensures
            r == (LastUpdate { slot, stale: true }),
    {
        LastUpdate { slot, stale: true }
    }

    /// What [`LastUpdate::slots_elapsed`] returns.
    pub open spec fn spec_slots_elapsed(&self, slot: u64) -> Result<u64, ErrorCode> {
        if slot < self.slot {
            Err(ErrorCode::MathOverflow)
        } else {
            Ok((slot - self.slot) as u64)
        }
    }

    /// Number of slots from the last update to `slot`.
    pub fn slots_elapsed(&self, slot: u64) -> (r: Result<u64, ErrorCode>)
        ensures
            r == self.spec_slots_elapsed(slot),
    {
        match slot.checked_sub(self.slot) {
            Some(elapsed) => Ok(elapsed),
            None => Err(ErrorCode::MathOverflow),
        }
    }

    /// Records an update at `slot`.
    pub fn update_slot(&mut self, slot: u64)
        ensures
            *final(self) == (LastUpdate { slot, stale: false }),
    {
        self.slot = slot;
        self.stale = false;
    }

    /// Marks the state stale.
    pub fn mark_stale(&mut self)
        ensures
            *final(self) == (LastUpdate { slot: old(self).slot, stale: true }),
    {
        self.stale = true;
    }

    /// What [`LastUpdate::is_stale`] returns.
    pub open spec fn spec_is_stale(&self, slot: u64) -> Result<bool, ErrorCode> {
        if self.stale {
            Ok(true)
        } else if slot < self.slot {
            Err(ErrorCode::MathOverflow)
        } else {
            Ok(slot - self.slot >= STALE_AFTER_SLOTS_ELAPSED)
        }
    }

    /// Whether the state was marked stale, or last updated before `slot`.
    pub fn is_stale(&self, slot: u64) -> (r: Result<bool, ErrorCode>)
        ensures
            r == self.spec_is_stale(slot),
    {
        if self.stale {
            return Ok(true);
        }
        match self.slots_elapsed(slot) {
            Ok(elapsed) => Ok(elapsed >= STALE_AFTER_SLOTS_ELAPSED),
            Err(e) => Err(e),
        }
    }
}

impl PartialEq for LastUpdate {
    /// Two last updates are equal when their slots are.
    fn eq(&self, other: &LastUpdate) -> (r: bool) {
        self.slot == other.slot
    }
}

impl vstd::std_specs::cmp::PartialEqSpecImpl for LastUpdate {
    open spec fn obeys_eq_spec() -> bool {
        true
    }

    open spec fn eq_spec(&self, other: &LastUpdate) -> bool {
        self.slot == other.slot
    }
}

} // verus!
