//! Accounting and risk core of a collateralized lending protocol.
//!
//! Every monetary computation is carried out in exact, overflow-checked
//! fixed-point arithmetic, and every state transition is stated as a
//! contract over the mathematical value of the state it reads and writes.

pub mod account;
pub mod error;
pub mod instructions;
pub mod math;
pub mod pubkey;
pub mod safe_math;
pub mod state;
pub mod utils;
