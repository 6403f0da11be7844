//! Fixed-point arithmetic.

pub mod common;
pub mod decimal;
pub mod decimal_text;
pub mod u192;
