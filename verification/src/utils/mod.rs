//! Helpers shared by the operations.

pub mod _refresh_reserve_interest;
pub mod math;
pub mod program_address;
pub mod update_borrow_attribution_values;
