//! The collateral of a reserve, and the rate at which it is exchanged for liquidity.

use crate::error::{commits, ErrorCode};
use crate::math::decimal::Decimal;
use crate::pubkey::Pubkey;
use crate::state::INITIAL_COLLATERAL_RATE;
use vstd::prelude::*;

verus! {

/// The collateral of a reserve.
#[derive(Clone, Copy, Debug, Default, PartialEq, Eq)]
pub struct ReserveCollateral {
    /// Mint of the collateral token.
    pub mint_pubkey: Pubkey,
    /// Collateral tokens in existence; the exchange rate goes by it.
    pub mint_total_supply: u64,
    /// Account that holds the collateral deposited in obligations.
    pub supply_pubkey: Pubkey,
}

/// What a new reserve collateral is made of.
#[derive(Clone, Copy, Debug)]
pub struct NewReserveCollateralParams {
    /// Mint of the collateral token.
    pub mint_pubkey: Pubkey,
    /// Account that holds the collateral deposited in obligations.
    pub supply_pubkey: Pubkey,
}

/// Collateral tokens for one liquidity token, as a decimal.
#[derive(Clone, Copy, Debug, PartialEq, Eq)]
pub struct CollateralExchangeRate(pub Decimal);

impl ReserveCollateral {
    /// A collateral with no token in existence.
    pub fn new(params: NewReserveCollateralParams) -> (r: ReserveCollateral)
        ensures
            r == (ReserveCollateral {
                mint_pubkey: params.mint_pubkey,
                mint_total_supply: 0,
                supply_pubkey: params.supply_pubkey,
            }),
    {
        ReserveCollateral {
            mint_pubkey: params.mint_pubkey,
            mint_total_supply: 0,
            supply_pubkey: params.supply_pubkey,
        }
    }

    /// The collateral after tokens were minted.
    pub open spec fn spec_mint(self, collateral_amount: u64) -> Result<
        ReserveCollateral,
        ErrorCode,
    > {
        if self.mint_total_supply + collateral_amount > u64::MAX {
            Err(ErrorCode::MathOverflow)
        } else {
            Ok(
                ReserveCollateral {
                    mint_total_supply: (self.mint_total_supply + collateral_amount) as u64,
                    ..self
                },
            )
        }
    }

    /// Adds minted tokens to the total supply.
    pub fn mint(&mut self, collateral_amount: u64) -> (r: Result<(), ErrorCode>)
        ensures
            commits(r, *old(self), *final(self), old(self).spec_mint(collateral_amount)),
    {
        match self.mint_total_supply.checked_add(collateral_amount) {
            Some(sum) => {
                self.mint_total_supply = sum;
                Ok(())
            },
            None => Err(ErrorCode::MathOverflow),
        }
    }

    /// The collateral after tokens were burnt.
    pub open spec fn spec_burn(self, collateral_amount: u64) -> Result<
        ReserveCollateral,
        ErrorCode,
    > {
        if collateral_amount > self.mint_total_supply {
            Err(ErrorCode::MathOverflow)
        } else {
            Ok(
                ReserveCollateral {
                    mint_total_supply: (self.mint_total_supply - collateral_amount) as u64,
                    ..self
                },
            )
        }
    }

    /// Takes burnt tokens out of the total supply.
    pub fn burn(&mut self, collateral_amount: u64) -> (r: Result<(), ErrorCode>)
        ensures
            commits(r, *old(self), *final(self), old(self).spec_burn(collateral_amount)),
    {
        match self.mint_total_supply.checked_sub(collateral_amount) {
            Some(difference) => {
                self.mint_total_supply = difference;
                Ok(())
            },
            None => Err(ErrorCode::MathOverflow),
        }
    }

    /// What [`ReserveCollateral::exchange_rate`] returns.
    pub open spec fn spec_exchange_rate(&self, total_liquidity: Decimal) -> Result<
        CollateralExchangeRate,
        ErrorCode,
    > {
        if self.mint_total_supply == 0 || total_liquidity@ == 0 {
            Ok(CollateralExchangeRate(Decimal::spec_from_scaled_val(INITIAL_COLLATERAL_RATE as nat)))
        } else {
            match Decimal::spec_from_int(self.mint_total_supply as nat).spec_try_div(
                total_liquidity,
            ) {
                Err(e) => Err(e),
                Ok(rate) => Ok(CollateralExchangeRate(rate)),
            }
        }
    }

    /// The exchange rate: the tokens in existence over the supply of
    /// liquidity, or the initial rate while either of them is zero.
    pub fn exchange_rate(&self, total_liquidity: Decimal) -> (r: Result<
        CollateralExchangeRate,
        ErrorCode,
    >)
        ensures
            r == self.spec_exchange_rate(total_liquidity),
    {
        let rate = if self.mint_total_supply == 0 || total_liquidity.is_zero() {
            Decimal::from_scaled_val(INITIAL_COLLATERAL_RATE as u128)
        } else {
            Decimal::from_u64(self.mint_total_supply).try_div(total_liquidity)?
        };
        Ok(CollateralExchangeRate(rate))
    }
}

impl CollateralExchangeRate {
    /// What [`CollateralExchangeRate::decimal_collateral_to_liquidity`] returns.
    pub open spec fn spec_decimal_collateral_to_liquidity(
        &self,
        collateral_amount: Decimal,
    ) -> Result<Decimal, ErrorCode> {
        collateral_amount.spec_try_div(self.0)
    }

    /// What [`CollateralExchangeRate::decimal_liquidity_to_collateral`] returns.
    pub open spec fn spec_decimal_liquidity_to_collateral(
        &self,
        liquidity_amount: Decimal,
    ) -> Result<Decimal, ErrorCode> {
        liquidity_amount.spec_try_mul(self.0)
    }

    /// The liquidity that an amount of collateral is worth, rounded down to whole units.
    pub open spec fn spec_collateral_to_liquidity(&self, collateral_amount: nat) -> Result<
        u64,
        ErrorCode,
    > {
        match self.spec_decimal_collateral_to_liquidity(Decimal::spec_from_int(collateral_amount)) {
            Err(e) => Err(e),
            Ok(liquidity) => liquidity.spec_try_floor_u64(),
        }
    }

    /// The collateral that an amount of liquidity is worth, rounded down to whole units.
    pub open spec fn spec_liquidity_to_collateral(&self, liquidity_amount: nat) -> Result<
        u64,
        ErrorCode,
    > {
        match self.spec_decimal_liquidity_to_collateral(Decimal::spec_from_int(liquidity_amount)) {
            Err(e) => Err(e),
            Ok(collateral) => collateral.spec_try_floor_u64(),
        }
    }

    /// Converts collateral to liquidity.
    pub fn collateral_to_liquidity(&self, collateral_amount: u64) -> (r: Result<u64, ErrorCode>)
        ensures
            r == self.spec_collateral_to_liquidity(collateral_amount as nat),
    {
        self.u128_collateral_to_liquidity(collateral_amount as u128)
    }

    /// Converts collateral to liquidity, for an amount of up to 128 bits.
    pub fn u128_collateral_to_liquidity(&self, collateral_amount: u128) -> (r: Result<
        u64,
        ErrorCode,
    >)
        ensures
            r == self.spec_collateral_to_liquidity(collateral_amount as nat),
    {
        self.decimal_collateral_to_liquidity(Decimal::from_u128(collateral_amount))?.try_floor_u64()
    }

    /// Converts a decimal amount of collateral to liquidity.
    pub fn decimal_collateral_to_liquidity(&self, collateral_amount: Decimal) -> (r: Result<
        Decimal,
        ErrorCode,
    >)
        ensures
            r == self.spec_decimal_collateral_to_liquidity(collateral_amount),
    {
        collateral_amount.try_div(self.0)
    }

    /// Converts liquidity to collateral.
    pub fn liquidity_to_collateral(&self, liquidity_amount: u64) -> (r: Result<u64, ErrorCode>)
        ensures
            r == self.spec_liquidity_to_collateral(liquidity_amount as nat),
    {
        self.u128_liquidity_to_collateral(liquidity_amount as u128)
    }

    /// Converts liquidity to collateral, for an amount of up to 128 bits.
    pub fn u128_liquidity_to_collateral(&self, liquidity_amount: u128) -> (r: Result<
        u64,
        ErrorCode,
    >)
        ensures
            r == self.spec_liquidity_to_collateral(liquidity_amount as nat),
    {
        self.decimal_liquidity_to_collateral(Decimal::from_u128(liquidity_amount))?.try_floor_u64()
    }

    /// Converts a decimal amount of liquidity to collateral.
    pub fn decimal_liquidity_to_collateral(&self, liquidity_amount: Decimal) -> (r: Result<
        Decimal,
        ErrorCode,
    >)
        ensures
            r == self.spec_decimal_liquidity_to_collateral(liquidity_amount),
    {
        liquidity_amount.try_mul(self.0)
    }
}

} // verus!
