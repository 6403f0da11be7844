//! The state of markets, reserves and obligations.

pub mod last_update;
pub mod lending_market;
pub mod mock_pyth_price_feed;
pub mod obligation;
pub mod rate_limiter;
pub mod reserve;
pub mod reserve_collateral;
pub mod reserve_config;
pub mod reserve_liquidity;
pub mod round_trip;

use vstd::prelude::*;

verus! {

/// Version written into every state that has been initialized.
pub const PROGRAM_VERSION: u8 = 1;

/// Version of a state that has not been initialized.
pub const UNINITIALIZED_VERSION: u8 = 0;

/// Number of slots in a year, at two slots a second.
pub const SLOTS_PER_YEAR: u64 = 63072000;

/// Collateral tokens minted for one liquidity token while a reserve is empty.
pub const INITIAL_COLLATERAL_RATIO: u64 = 1;

/// [`INITIAL_COLLATERAL_RATIO`] as a scaled value.
pub const INITIAL_COLLATERAL_RATE: u64 = 1_000_000_000_000_000_000;

} // verus!
