//! Scales shared by the fixed-point types.

use vstd::prelude::*;

verus! {

/// Number of decimal places a scaled value keeps.
pub const SCALE: usize = 18;

/// The scaled value of one.
pub const WAD: u64 = 1_000_000_000_000_000_000;

/// The scaled value of one half.
pub const HALF_WAD: u64 = 500_000_000_000_000_000;

/// The scaled value of one percent.
pub const PERCENT_SCALER: u64 = 10_000_000_000_000_000;

/// The scaled value of one basis point.
pub const BPS_SCALER: u64 = 100_000_000_000_000;

/// [`WAD`] as a natural number.
#[verifier::inline]
pub open spec fn wad() -> nat {
    1_000_000_000_000_000_000nat
}

/// [`HALF_WAD`] as a natural number.
#[verifier::inline]
pub open spec fn half_wad() -> nat {
    500_000_000_000_000_000nat
}

/// [`PERCENT_SCALER`] as a natural number.
#[verifier::inline]
pub open spec fn percent_scaler() -> nat {
    10_000_000_000_000_000nat
}

} // verus!
