//! Refreshing the interest of a reserve.

use crate::error::{commits, ErrorCode};
use crate::state::last_update::LastUpdate;
use crate::state::reserve::Reserve;
use vstd::prelude::*;

verus! {

/// The reserve after its interest was brought up to `slot`.
pub open spec fn spec_refresh_reserve_interest(reserve: Reserve, slot: u64) -> Result<
    Reserve,
    ErrorCode,
> {
    match reserve.spec_accrue_interest(slot) {
        Err(e) => Err(e),
        Ok(accrued) => Ok(Reserve { last_update: LastUpdate { slot, stale: false }, ..accrued }),
    }
}

/// Accrues the interest of a reserve up to `slot` and marks the reserve as
/// updated at that slot.
pub fn _refresh_reserve_interest(reserve: &mut Reserve, slot: u64) -> (r: Result<(), ErrorCode>)
    ensures
        commits(r, *old(reserve), *final(reserve), spec_refresh_reserve_interest(*old(reserve), slot)),
        old(reserve).wf() ==> final(reserve).wf(),
        final(reserve).liquidity.cumulative_borrow_rate_wads@ >= old(
            reserve,
        ).liquidity.cumulative_borrow_rate_wads@,
        final(reserve).liquidity.borrowed_amount_wads@ >= old(reserve).liquidity.borrowed_amount_wads@,
{
    reserve.accrue_interest(slot)?;
    reserve.last_update.update_slot(slot);
    Ok(())
}

/// Refreshing a reserve a second time in the same slot changes nothing.
///
/// Where a refresh at `slot` succeeds, another refresh of the reserve it
/// leaves, at the same slot, succeeds too and leaves the same reserve: no
/// slot has passed, so no interest is accrued.
pub proof fn lemma_refresh_is_idempotent(reserve: Reserve, slot: u64)
    requires
        spec_refresh_reserve_interest(reserve, slot) is Ok,
    ensures
        spec_refresh_reserve_interest(spec_refresh_reserve_interest(reserve, slot)->Ok_0, slot)
            == spec_refresh_reserve_interest(reserve, slot),
{
}

} // verus!
