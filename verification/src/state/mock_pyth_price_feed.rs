//! A price feed whose price is set by hand, for testing.

use vstd::prelude::*;

verus! {

/// A price and its exponent.
#[derive(Clone, Copy, Debug, Default, PartialEq, Eq, Structural)]
pub struct MockPythPriceFeed {
    /// Price.
    pub price: u64,
    /// Number of decimal places of the price.
    pub expo: u32,
}

impl MockPythPriceFeed {
    /// Sets the price and its exponent.
    pub fn set_price(&mut self, new_price: u64, expo: u32)
        ensures
            *final(self) == (MockPythPriceFeed { price: new_price, expo }),
    {
        self.price = new_price;
        self.expo = expo;
    }

    /// The price and its exponent.
    pub fn get_price(&self) -> (r: (u64, u32))
        ensures
            r == (self.price, self.expo),
    {
        (self.price, self.expo)
    }
}

} // verus!
