//! Arithmetic that neither wraps nor panics.

use vstd::prelude::*;

verus! {

/// Subtraction that stops at zero, and division that refuses a zero divisor.
pub trait SafeMath: Sized {
    /// What [`SafeMath::saturating_sub`] returns.
    spec fn spec_saturating_sub(self, rhs: Self) -> Self;

    /// What [`SafeMath::checked_div`] returns.
    spec fn spec_checked_div(self, rhs: Self) -> Option<Self>;

    /// The difference, or zero where `rhs` is greater than `self`.
    fn saturating_sub(self, rhs: Self) -> (r: Self)
        ensures
            r == self.spec_saturating_sub(rhs),
    ;

    /// The quotient, or `None` where `rhs` is zero.
    fn checked_div(self, rhs: Self) -> (r: Option<Self>)
        ensures
            r == self.spec_checked_div(rhs),
    ;
}

impl SafeMath for u128 {
    open spec fn spec_saturating_sub(self, rhs: u128) -> u128 {
        if self < rhs {
            0
        } else {
            (self - rhs) as u128
        }
    }

    open spec fn spec_checked_div(self, rhs: u128) -> Option<u128> {
        if rhs == 0 {
            None
        } else {
            Some(self / rhs)
        }
    }

    fn saturating_sub(self, rhs: u128) -> (r: u128) {
        if self < rhs {
            0
        } else {
            self - rhs
        }
    }

    fn checked_div(self, rhs: u128) -> (r: Option<u128>) {
        if rhs == 0 {
            None
        } else {
            Some(self / rhs)
        }
    }
}

} // verus!
