//! A reserve: one pooled asset, with its supply, its debt and its price.

use crate::error::{commits, commits_with, ErrorCode};
use crate::math::common::wad;
use crate::math::decimal::Decimal;
use crate::pubkey::Pubkey;
use crate::state::last_update::LastUpdate;
use crate::state::obligation::{Obligation, ObligationCollateral, ObligationLiquidity};
use crate::state::rate_limiter::{RateLimiter, RateLimiterConfig};
use crate::state::reserve_collateral::{CollateralExchangeRate, ReserveCollateral};
use crate::state::reserve_config::{
    FeeCalculation, ReserveConfig, MAX_BONUS_PCT, MAX_SCALED_PRICE_OFFSET_BPS,
    MIN_SCALED_PRICE_OFFSET_BPS,
};
use crate::state::reserve_liquidity::ReserveLiquidity;
use crate::state::PROGRAM_VERSION;
use crate::utils::math::{pow10, spec_pow10};
use vstd::prelude::*;

verus! {

/// The state of a reserve.
#[derive(Clone, Copy, Debug, Default, PartialEq)]
pub struct Reserve {
    /// Version of the state.
    pub version: u8,
    /// Last slot when supply and rates were updated.
    pub last_update: LastUpdate,
    /// Lending market the reserve belongs to.
    pub lending_market: Pubkey,
    /// Liquidity of the reserve.
    pub liquidity: ReserveLiquidity,
    /// Collateral of the reserve.
    pub collateral: ReserveCollateral,
    /// Risk parameters.
    pub config: ReserveConfig,
    /// Limit on the outflow of tokens.
    pub rate_limiter: RateLimiter,
    /// Borrows attributed to the collateral of this reserve, over all obligations.
    pub attributed_borrow_value: Decimal,
    /// Key the address of the reserve was derived with.
    pub key: u64,
}

/// What a new reserve is made of.
#[derive(Clone, Copy, Debug)]
pub struct InitReserveParams {
    /// Slot of the initialization.
    pub current_slot: u64,
    /// Lending market the reserve belongs to.
    pub lending_market: Pubkey,
    /// Liquidity of the reserve.
    pub liquidity: ReserveLiquidity,
    /// Collateral of the reserve.
    pub collateral: ReserveCollateral,
    /// Risk parameters.
    pub config: ReserveConfig,
    /// Parameters of the limit on outflow.
    pub rate_limiter_config: RateLimiterConfig,
    /// Key the address of the reserve was derived with.
    pub key: u64,
}

/// What a borrow comes to.
#[derive(Clone, Copy, Debug, PartialEq, Eq)]
pub struct CalculateBorrowResult {
    /// Amount borrowed, the fee included.
    pub borrow_amount: Decimal,
    /// Amount the borrower receives.
    pub receive_amount: u64,
    /// Fee on the borrow.
    pub borrow_fee: u64,
    /// Part of the fee that goes to the host.
    pub host_fee: u64,
}

/// What a repayment comes to.
#[derive(Clone, Copy, Debug, PartialEq, Eq)]
pub struct CalculateRepayResult {
    /// Amount of debt that is settled.
    pub settle_amount: Decimal,
    /// Amount that is paid, in whole units.
    pub repay_amount: u64,
}

/// What a liquidation comes to.
#[derive(Clone, Copy, Debug, PartialEq, Eq)]
pub struct CalculateLiquidationResult {
    /// Amount of debt that is settled.
    pub settle_amount: Decimal,
    /// Amount that is paid, in whole units.
    pub repay_amount: u64,
    /// Amount of collateral handed over in exchange.
    pub withdraw_amount: u64,
}

/// The bonus of a liquidation.
#[derive(Clone, Copy, Debug, PartialEq, Eq)]
pub struct Bonus {
    /// Bonus of the liquidator and fee of the protocol together, as a share of one.
    pub total_bonus: Decimal,
    /// Fee of the protocol, as a share of one.
    pub protocol_liquidation_fee: Decimal,
}

/// The price offset held within its bounds.
pub open spec fn clamped_price_offset(offset: i64) -> i64 {
    if offset < MIN_SCALED_PRICE_OFFSET_BPS {
        MIN_SCALED_PRICE_OFFSET_BPS
    } else if offset > MAX_SCALED_PRICE_OFFSET_BPS {
        MAX_SCALED_PRICE_OFFSET_BPS
    } else {
        offset
    }
}

/// A rate that goes from `low` to `high` as `part` goes from nothing to `whole`.
pub open spec fn spec_interpolate(part: Decimal, whole: Decimal, low: Decimal, high: Decimal) -> Result<
    Decimal,
    ErrorCode,
> {
    match part.spec_try_div(whole) {
        Err(e) => Err(e),
        Ok(weight) => match high.spec_try_sub(low) {
            Err(e) => Err(e),
            Ok(range) => match weight.spec_try_mul(range) {
                Err(e) => Err(e),
                Ok(above) => above.spec_try_add(low),
            },
        },
    }
}

fn interpolate(part: Decimal, whole: Decimal, low: Decimal, high: Decimal) -> (r: Result<
    Decimal,
    ErrorCode,
>)
    ensures
        r == spec_interpolate(part, whole, low, high),
{
    let weight = part.try_div(whole)?;
    let range = high.try_sub(low)?;
    weight.try_mul(range)?.try_add(low)
}

impl Reserve {
    /// The configuration keeps its bounds, and the limit on outflow is well formed.
    pub open spec fn wf(&self) -> bool {
        self.config.valid() && self.rate_limiter.wf()
    }

    /// What [`Reserve::new`] returns.
    pub open spec fn spec_new(params: InitReserveParams) -> Reserve {
        Reserve {
            version: PROGRAM_VERSION,
            last_update: LastUpdate { slot: params.current_slot, stale: true },
            lending_market: params.lending_market,
            liquidity: params.liquidity,
            collateral: params.collateral,
            config: params.config,
            rate_limiter: RateLimiter::spec_new(params.rate_limiter_config, params.current_slot),
            attributed_borrow_value: Decimal::spec_zero(),
            key: params.key,
        }
    }

    /// A new reserve, stale until its first refresh.
    pub fn new(params: InitReserveParams) -> (r: Reserve)
        ensures
            r == Self::spec_new(params),
            params.config.valid() ==> r.wf(),
    {
        Reserve {
            version: PROGRAM_VERSION,
            last_update: LastUpdate::new(params.current_slot),
            lending_market: params.lending_market,
            liquidity: params.liquidity,
            collateral: params.collateral,
            config: params.config,
            rate_limiter: RateLimiter::new(params.rate_limiter_config, params.current_slot),
            attributed_borrow_value: Decimal::zero(),
            key: params.key,
        }
    }

    /// Initializes a reserve: whatever it held is replaced.
    pub fn init(&mut self, params: InitReserveParams)
        ensures
            *final(self) == Self::spec_new(params),
            params.config.valid() ==> final(self).wf(),
    {
        *self = Self::new(params);
    }

    /// What [`Reserve::borrow_weight`] returns.
    pub open spec fn spec_borrow_weight(&self) -> Decimal {
        Decimal::spec_one().spec_try_add(
            Decimal::spec_from_bps(self.config.added_borrow_weight_bps as nat),
        )->Ok_0
    }

    /// The weight by which the value of a debt in this asset is multiplied:
    /// one and the added weight. It is never below one.
    pub fn borrow_weight(&self) -> (r: Decimal)
        ensures
            r == self.spec_borrow_weight(),
            r@ == wad() + self.config.added_borrow_weight_bps * wad() / 10_000,
            r@ >= wad(),
    {
        let added = Decimal::from_bps(self.config.added_borrow_weight_bps);
        let weight = Decimal::one().try_add(added);
        weight.unwrap()
    }

    /// The price weight in basis points: ten thousand and the price offset,
    /// the offset held within its bounds.
    pub fn price_scale(&self) -> (r: u128)
        ensures
            r == 10_000 + clamped_price_offset(self.config.scaled_price_offset_bps),
    {
        let offset: i64 = self.config.scaled_price_offset_bps;
        let clamped: i64 = if offset < MIN_SCALED_PRICE_OFFSET_BPS {
            MIN_SCALED_PRICE_OFFSET_BPS
        } else if offset > MAX_SCALED_PRICE_OFFSET_BPS {
            MAX_SCALED_PRICE_OFFSET_BPS
        } else {
            offset
        };
        (10_000 + clamped) as u128
    }

    /// What [`Reserve::loan_to_value_ratio`] returns.
    pub open spec fn spec_loan_to_value_ratio(&self) -> Decimal {
        Decimal::spec_from_percent(self.config.loan_to_value_ratio as nat)
    }

    /// The loan to value ratio as a decimal.
    pub fn loan_to_value_ratio(&self) -> (r: Decimal)
        ensures
            r == self.spec_loan_to_value_ratio(),
    {
        Decimal::from_percent(self.config.loan_to_value_ratio)
    }

    /// What [`Reserve::price_upper_bound`] returns.
    pub open spec fn spec_price_upper_bound(&self) -> Decimal {
        let price = self.liquidity.market_price.spec_max(self.liquidity.smoothed_market_price);
        match self.liquidity.extra_market_price {
            Some(extra_price) => price.spec_max(extra_price),
            None => price,
        }
    }

    /// The greatest of the market price, the smoothed price and the extra price.
    pub fn price_upper_bound(&self) -> (r: Decimal)
        ensures
            r == self.spec_price_upper_bound(),
            r@ >= self.liquidity.market_price@,
            r@ >= self.liquidity.smoothed_market_price@,
    {
        let price = self.liquidity.market_price.max(self.liquidity.smoothed_market_price);
        match self.liquidity.extra_market_price {
            Some(extra_price) => price.max(extra_price),
            None => price,
        }
    }

    /// What [`Reserve::price_lower_bound`] returns.
    pub open spec fn spec_price_lower_bound(&self) -> Decimal {
        let price = self.liquidity.market_price.spec_min(self.liquidity.smoothed_market_price);
        match self.liquidity.extra_market_price {
            Some(extra_price) => price.spec_min(extra_price),
            None => price,
        }
    }

    /// The least of the market price, the smoothed price and the extra price.
    pub fn price_lower_bound(&self) -> (r: Decimal)
        ensures
            r == self.spec_price_lower_bound(),
            r@ <= self.liquidity.market_price@,
            r@ <= self.liquidity.smoothed_market_price@,
    {
        let price = self.liquidity.market_price.min(self.liquidity.smoothed_market_price);
        match self.liquidity.extra_market_price {
            Some(extra_price) => price.min(extra_price),
            None => price,
        }
    }

    /// What [`Reserve::usd_to_liquidity_amount_lower_bound`] returns.
    pub open spec fn spec_usd_to_liquidity_amount_lower_bound(
        &self,
        quote_amount: Decimal,
    ) -> Result<Decimal, ErrorCode> {
        match spec_pow10(self.liquidity.mint_decimals as u32) {
            Err(e) => Err(e),
            Ok(decimals) => match quote_amount.spec_try_mul_u128(decimals) {
                Err(e) => Err(e),
                Ok(scaled_up) => scaled_up.spec_try_div(self.spec_price_upper_bound()),
            },
        }
    }

    /// The least amount of liquidity, in native units, that an amount of the
    /// quote currency buys: the amount at the upper bound of the price.
    pub fn usd_to_liquidity_amount_lower_bound(&self, quote_amount: Decimal) -> (r: Result<
        Decimal,
        ErrorCode,
    >)
        ensures
            r == self.spec_usd_to_liquidity_amount_lower_bound(quote_amount),
    {
        let decimals: u128 = pow10(self.liquidity.mint_decimals as u32)?;
        quote_amount.try_mul_u128(decimals)?.try_div(self.price_upper_bound())
    }

    /// The value of an amount of liquidity, in native units, at the given
    /// price of one whole token.
    pub open spec fn spec_value_at(&self, price: Decimal, liquidity_amount: Decimal) -> Result<
        Decimal,
        ErrorCode,
    > {
        match price.spec_try_mul(liquidity_amount) {
            Err(e) => Err(e),
            Ok(value) => match spec_pow10(self.liquidity.mint_decimals as u32) {
                Err(e) => Err(e),
                Ok(decimals) => value.spec_try_div_u128(decimals),
            },
        }
    }

    fn value_at(&self, price: Decimal, liquidity_amount: Decimal) -> (r: Result<Decimal, ErrorCode>)
        ensures
            r == self.spec_value_at(price, liquidity_amount),
    {
        let value = price.try_mul(liquidity_amount)?;
        let decimals: u128 = pow10(self.liquidity.mint_decimals as u32)?;
        value.try_div_u128(decimals)
    }

    /// What [`Reserve::market_value`] returns.
    pub open spec fn spec_market_value(&self, liquidity_amount: Decimal) -> Result<
        Decimal,
        ErrorCode,
    > {
        self.spec_value_at(self.liquidity.market_price, liquidity_amount)
    }

    /// The value of an amount of liquidity at the market price.
    pub fn market_value(&self, liquidity_amount: Decimal) -> (r: Result<Decimal, ErrorCode>)
        ensures
            r == self.spec_market_value(liquidity_amount),
    {
        self.value_at(self.liquidity.market_price, liquidity_amount)
    }

    /// What [`Reserve::market_value_upper_bound`] returns.
    pub open spec fn spec_market_value_upper_bound(&self, liquidity_amount: Decimal) -> Result<
        Decimal,
        ErrorCode,
    > {
        self.spec_value_at(self.spec_price_upper_bound(), liquidity_amount)
    }

    /// The value of an amount of liquidity at the upper bound of the price.
    pub fn market_value_upper_bound(&self, liquidity_amount: Decimal) -> (r: Result<
        Decimal,
        ErrorCode,
    >)
        ensures
            r == self.spec_market_value_upper_bound(liquidity_amount),
    {
        self.value_at(self.price_upper_bound(), liquidity_amount)
    }

    /// What [`Reserve::market_value_lower_bound`] returns.
    pub open spec fn spec_market_value_lower_bound(&self, liquidity_amount: Decimal) -> Result<
        Decimal,
        ErrorCode,
    > {
        self.spec_value_at(self.spec_price_lower_bound(), liquidity_amount)
    }

    /// The value of an amount of liquidity at the lower bound of the price.
    pub fn market_value_lower_bound(&self, liquidity_amount: Decimal) -> (r: Result<
        Decimal,
        ErrorCode,
    >)
        ensures
            r == self.spec_market_value_lower_bound(liquidity_amount),
    {
        self.value_at(self.price_lower_bound(), liquidity_amount)
    }

    /// What [`Reserve::collateral_exchange_rate`] returns.
    pub open spec fn spec_collateral_exchange_rate(&self) -> Result<
        CollateralExchangeRate,
        ErrorCode,
    > {
        match self.liquidity.spec_total_supply() {
            Err(e) => Err(e),
            Ok(total_liquidity) => self.collateral.spec_exchange_rate(total_liquidity),
        }
    }

    /// The rate at which collateral is exchanged for liquidity.
    pub fn collateral_exchange_rate(&self) -> (r: Result<CollateralExchangeRate, ErrorCode>)
        ensures
            r == self.spec_collateral_exchange_rate(),
    {
        let total_liquidity = self.liquidity.total_supply()?;
        self.collateral.exchange_rate(total_liquidity)
    }

    /// The reserve after a deposit, and the collateral minted for it.
    pub open spec fn spec_deposit_liquidity(self, liquidity_amount: u64) -> Result<
        (Reserve, u64),
        ErrorCode,
    > {
        match self.spec_collateral_exchange_rate() {
            Err(e) => Err(e),
            Ok(rate) => match rate.spec_liquidity_to_collateral(liquidity_amount as nat) {
                Err(e) => Err(e),
                Ok(collateral_amount) => match self.liquidity.spec_deposit(liquidity_amount) {
                    Err(e) => Err(e),
                    Ok(liquidity) => match self.collateral.spec_mint(collateral_amount) {
                        Err(e) => Err(e),
                        Ok(collateral) => Ok(
                            (Reserve { liquidity, collateral, ..self }, collateral_amount),
                        ),
                    },
                },
            },
        }
    }

    /// Records a deposit of liquidity and returns the collateral to mint for
    /// it: the amount at the exchange rate, rounded down.
    pub fn deposit_liquidity(&mut self, liquidity_amount: u64) -> (r: Result<u64, ErrorCode>)
        ensures
            commits_with(
                r,
                *old(self),
                *final(self),
                old(self).spec_deposit_liquidity(liquidity_amount),
            ),
            r is Ok ==> final(self).liquidity.supply() == old(self).liquidity.supply()
                + liquidity_amount * wad(),
    {
        let collateral_amount: u64 = self.collateral_exchange_rate()?.liquidity_to_collateral(
            liquidity_amount,
        )?;
        let mut liquidity = self.liquidity;
        liquidity.deposit(liquidity_amount)?;
        let mut collateral = self.collateral;
        collateral.mint(collateral_amount)?;
        self.liquidity = liquidity;
        self.collateral = collateral;
        Ok(collateral_amount)
    }

    /// The reserve after collateral was redeemed, and the liquidity paid out for it.
    pub open spec fn spec_redeem_collateral(self, collateral_amount: u64) -> Result<
        (Reserve, u64),
        ErrorCode,
    > {
        match self.spec_collateral_exchange_rate() {
            Err(e) => Err(e),
            Ok(rate) => match rate.spec_collateral_to_liquidity(collateral_amount as nat) {
                Err(e) => Err(e),
                Ok(liquidity_amount) => match self.collateral.spec_burn(collateral_amount) {
                    Err(e) => Err(e),
                    Ok(collateral) => match self.liquidity.spec_withdraw(liquidity_amount) {
                        Err(e) => Err(e),
                        Ok(liquidity) => Ok(
                            (Reserve { liquidity, collateral, ..self }, liquidity_amount),
                        ),
                    },
                },
            },
        }
    }

    /// Records that collateral was redeemed and returns the liquidity to pay
    /// out for it: the amount at the exchange rate, rounded down.
    pub fn redeem_collateral(&mut self, collateral_amount: u64) -> (r: Result<u64, ErrorCode>)
        ensures
            commits_with(
                r,
                *old(self),
                *final(self),
                old(self).spec_redeem_collateral(collateral_amount),
            ),
            r is Ok ==> final(self).liquidity.supply() == old(self).liquidity.supply() - r->Ok_0
                * wad(),
    {
        let collateral_exchange_rate = self.collateral_exchange_rate()?;
        let liquidity_amount: u64 = collateral_exchange_rate.collateral_to_liquidity(
            collateral_amount,
        )?;
        let mut collateral = self.collateral;
        collateral.burn(collateral_amount)?;
        let mut liquidity = self.liquidity;
        liquidity.withdraw(liquidity_amount)?;
        self.liquidity = liquidity;
        self.collateral = collateral;
        Ok(liquidity_amount)
    }

    /// What [`Reserve::current_borrow_rate`] returns.
    pub open spec fn spec_current_borrow_rate(&self) -> Result<Decimal, ErrorCode> {
        match self.liquidity.spec_utilization_rate() {
            Err(e) => Err(e),
            Ok(utilization_rate) => {
                let optimal_utilization_rate = Decimal::spec_from_percent(
                    self.config.optimal_utilization_rate as nat,
                );
                let max_utilization_rate = Decimal::spec_from_percent(
                    self.config.max_utilization_rate as nat,
                );
                let min_rate = Decimal::spec_from_percent(self.config.min_borrow_rate as nat);
                let optimal_rate = Decimal::spec_from_percent(
                    self.config.optimal_borrow_rate as nat,
                );
                let max_rate = Decimal::spec_from_percent(self.config.max_borrow_rate as nat);
                let super_max_rate = Decimal::spec_from_percent(
                    self.config.super_max_borrow_rate as nat,
                );
                if utilization_rate@ <= optimal_utilization_rate@ {
                    if optimal_utilization_rate@ == 0 {
                        Ok(min_rate)
                    } else {
                        spec_interpolate(
                            utilization_rate,
                            optimal_utilization_rate,
                            min_rate,
                            optimal_rate,
                        )
                    }
                } else if utilization_rate@ <= max_utilization_rate@ {
                    match utilization_rate.spec_try_sub(optimal_utilization_rate) {
                        Err(e) => Err(e),
                        Ok(part) => match max_utilization_rate.spec_try_sub(
                            optimal_utilization_rate,
                        ) {
                            Err(e) => Err(e),
                            Ok(whole) => spec_interpolate(part, whole, optimal_rate, max_rate),
                        },
                    }
                } else {
                    match utilization_rate.spec_try_sub(max_utilization_rate) {
                        Err(e) => Err(e),
                        Ok(part) => match Decimal::spec_from_percent(100).spec_try_sub(
                            max_utilization_rate,
                        ) {
                            Err(e) => Err(e),
                            Ok(whole) => spec_interpolate(part, whole, max_rate, super_max_rate),
                        },
                    }
                }
            },
        }
    }

    /// The yearly borrow rate at the current utilization.
    ///
    /// The rate follows three straight segments: from the least rate at no
    /// utilization to the optimal rate at the optimal utilization, from
    /// there to the maximal rate at the maximal utilization, and from there
    /// to the highest rate at full utilization.
    pub fn current_borrow_rate(&self) -> (r: Result<Decimal, ErrorCode>)
        ensures
            r == self.spec_current_borrow_rate(),
    {
        let utilization_rate = self.liquidity.utilization_rate()?;
        let optimal_utilization_rate = Decimal::from_percent(self.config.optimal_utilization_rate);
        let max_utilization_rate = Decimal::from_percent(self.config.max_utilization_rate);
        if utilization_rate.le(&optimal_utilization_rate) {
            let min_rate = Decimal::from_percent(self.config.min_borrow_rate);
            if optimal_utilization_rate.is_zero() {
                return Ok(min_rate);
            }
            interpolate(
                utilization_rate,
                optimal_utilization_rate,
                min_rate,
                Decimal::from_percent(self.config.optimal_borrow_rate),
            )
        } else if utilization_rate.le(&max_utilization_rate) {
            let part = utilization_rate.try_sub(optimal_utilization_rate)?;
            let whole = max_utilization_rate.try_sub(optimal_utilization_rate)?;
            interpolate(
                part,
                whole,
                Decimal::from_percent(self.config.optimal_borrow_rate),
                Decimal::from_percent(self.config.max_borrow_rate),
            )
        } else {
            let part = utilization_rate.try_sub(max_utilization_rate)?;
            let whole = Decimal::from_percent(100).try_sub(max_utilization_rate)?;
            interpolate(
                part,
                whole,
                Decimal::from_percent(self.config.max_borrow_rate),
                Decimal::from_percent_u64(self.config.super_max_borrow_rate),
            )
        }
    }

    /// The reserve after interest was accrued up to `current_slot`.
    pub open spec fn spec_accrue_interest(self, current_slot: u64) -> Result<Reserve, ErrorCode> {
        match self.last_update.spec_slots_elapsed(current_slot) {
            Err(e) => Err(e),
            Ok(slots_elapsed) => if slots_elapsed > 0 {
                match self.spec_current_borrow_rate() {
                    Err(e) => Err(e),
                    Ok(current_borrow_rate) => match self.liquidity.spec_compound_interest(
                        current_borrow_rate,
                        slots_elapsed,
                        Decimal::spec_from_percent(self.config.protocol_take_rate as nat),
                    ) {
                        Err(e) => Err(e),
                        Ok(liquidity) => Ok(Reserve { liquidity, ..self }),
                    },
                }
            } else {
                Ok(self)
            },
        }
    }

    /// Accrues the interest of the slots since the last update at the
    /// current borrow rate. Nothing changes where no slot has passed.
    pub fn accrue_interest(&mut self, current_slot: u64) -> (r: Result<(), ErrorCode>)
        ensures
            commits(r, *old(self), *final(self), old(self).spec_accrue_interest(current_slot)),
            r is Ok ==> final(self).liquidity.cumulative_borrow_rate_wads@ >= old(
                self,
            ).liquidity.cumulative_borrow_rate_wads@,
            r is Ok ==> final(self).liquidity.borrowed_amount_wads@ >= old(
                self,
            ).liquidity.borrowed_amount_wads@,
    {
        let slots_elapsed: u64 = self.last_update.slots_elapsed(current_slot)?;
        if slots_elapsed > 0 {
            let current_borrow_rate = self.current_borrow_rate()?;
            let take_rate = Decimal::from_percent(self.config.protocol_take_rate);
            let mut liquidity = self.liquidity;
            liquidity.compound_interest(current_borrow_rate, slots_elapsed, take_rate)?;
            self.liquidity = liquidity;
        }
        Ok(())
    }
}

/// What is settled, repaid and withdrawn when `amount` of a debt, which is
/// worth `liquidation_value` with the bonus, is liquidated against a collateral.
///
/// Where the collateral is worth less than that value, only the part of the
/// amount that the collateral covers is settled, and all of the collateral
/// is withdrawn. Where it is worth as much, the amount is settled and all of
/// the collateral is withdrawn. Where it is worth more, the amount is
/// settled and the part of the collateral of that value is withdrawn.
pub open spec fn spec_liquidate_against(
    amount: Decimal,
    liquidation_value: Decimal,
    collateral: &ObligationCollateral,
) -> Result<CalculateLiquidationResult, ErrorCode> {
    if liquidation_value@ > collateral.market_value@ {
        match collateral.market_value.spec_try_div(liquidation_value) {
            Err(e) => Err(e),
            Ok(repay_pct) => match amount.spec_try_mul(repay_pct) {
                Err(e) => Err(e),
                Ok(settle_amount) => match settle_amount.spec_try_ceil_u64() {
                    Err(e) => Err(e),
                    Ok(repay_amount) => Ok(
                        CalculateLiquidationResult {
                            settle_amount,
                            repay_amount,
                            withdraw_amount: collateral.deposited_amount,
                        },
                    ),
                },
            },
        }
    } else if liquidation_value@ == collateral.market_value@ {
        match amount.spec_try_ceil_u64() {
            Err(e) => Err(e),
            Ok(repay_amount) => Ok(
                CalculateLiquidationResult {
                    settle_amount: amount,
                    repay_amount,
                    withdraw_amount: collateral.deposited_amount,
                },
            ),
        }
    } else {
        match liquidation_value.spec_try_div(collateral.market_value) {
            Err(e) => Err(e),
            Ok(withdraw_pct) => match amount.spec_try_ceil_u64() {
                Err(e) => Err(e),
                Ok(repay_amount) => match Decimal::spec_from_int(
                    collateral.deposited_amount as nat,
                ).spec_try_mul(withdraw_pct) {
                    Err(e) => Err(e),
                    Ok(part) => match part.spec_try_floor_u64() {
                        Err(e) => Err(e),
                        Ok(withdraw_amount) => Ok(
                            CalculateLiquidationResult {
                                settle_amount: amount,
                                repay_amount,
                                withdraw_amount,
                            },
                        ),
                    },
                },
            },
        }
    }
}

fn liquidate_against(
    amount: Decimal,
    liquidation_value: Decimal,
    collateral: &ObligationCollateral,
) -> (r: Result<CalculateLiquidationResult, ErrorCode>)
    ensures
        r == spec_liquidate_against(amount, liquidation_value, collateral),
{
    if liquidation_value.gt(&collateral.market_value) {
        let repay_pct = collateral.market_value.try_div(liquidation_value)?;
        let settle_amount = amount.try_mul(repay_pct)?;
        let repay_amount: u64 = settle_amount.try_ceil_u64()?;
        Ok(
            CalculateLiquidationResult {
                settle_amount,
                repay_amount,
                withdraw_amount: collateral.deposited_amount,
            },
        )
    } else if liquidation_value.ge(&collateral.market_value) {
        let repay_amount: u64 = amount.try_ceil_u64()?;
        Ok(
            CalculateLiquidationResult {
                settle_amount: amount,
                repay_amount,
                withdraw_amount: collateral.deposited_amount,
            },
        )
    } else {
        let withdraw_pct = liquidation_value.try_div(collateral.market_value)?;
        let repay_amount: u64 = amount.try_ceil_u64()?;
        let withdraw_amount: u64 = Decimal::from_u64(collateral.deposited_amount).try_mul(
            withdraw_pct,
        )?.try_floor_u64()?;
        Ok(CalculateLiquidationResult { settle_amount: amount, repay_amount, withdraw_amount })
    }
}

impl Reserve {
    /// What a borrow of as much as the given value allows comes to.
    pub open spec fn spec_calculate_max_borrow(
        &self,
        max_borrow_value: Decimal,
        remaining_reserve_borrow: Decimal,
    ) -> Result<CalculateBorrowResult, ErrorCode> {
        match spec_pow10(self.liquidity.mint_decimals as u32) {
            Err(e) => Err(e),
            Ok(decimals) => match max_borrow_value.spec_try_mul_u128(decimals) {
                Err(e) => Err(e),
                Ok(scaled_up) => match scaled_up.spec_try_div(self.spec_price_upper_bound()) {
                    Err(e) => Err(e),
                    Ok(unweighted) => match unweighted.spec_try_div(self.spec_borrow_weight()) {
                        Err(e) => Err(e),
                        Ok(affordable) => {
                            let borrow_amount = affordable.spec_min(
                                remaining_reserve_borrow,
                            ).spec_min(
                                Decimal::spec_from_int(self.liquidity.available_amount as nat),
                            );
                            match self.config.fees.spec_calculate_fees(
                                borrow_amount,
                                self.config.fees.borrow_fee_wad,
                                FeeCalculation::Inclusive,
                            ) {
                                Err(e) => Err(e),
                                Ok((borrow_fee, host_fee)) => match borrow_amount.spec_try_floor_u64() {
                                    Err(e) => Err(e),
                                    Ok(whole) => if whole < borrow_fee {
                                        Err(ErrorCode::MathOverflow)
                                    } else {
                                        Ok(
                                            CalculateBorrowResult {
                                                borrow_amount,
                                                receive_amount: (whole - borrow_fee) as u64,
                                                borrow_fee,
                                                host_fee,
                                            },
                                        )
                                    },
                                },
                            }
                        },
                    },
                },
            },
        }
    }

    /// What a borrow of which the borrower receives the given amount comes to.
    pub open spec fn spec_calculate_exact_borrow(
        &self,
        receive_amount: u64,
        max_borrow_value: Decimal,
    ) -> Result<CalculateBorrowResult, ErrorCode> {
        match self.config.fees.spec_calculate_fees(
            Decimal::spec_from_int(receive_amount as nat),
            self.config.fees.borrow_fee_wad,
            FeeCalculation::Exclusive,
        ) {
            Err(e) => Err(e),
            Ok((borrow_fee, host_fee)) => match Decimal::spec_from_int(
                receive_amount as nat,
            ).spec_try_add(Decimal::spec_from_int(borrow_fee as nat)) {
                Err(e) => Err(e),
                Ok(borrow_amount) => match self.spec_market_value_upper_bound(borrow_amount) {
                    Err(e) => Err(e),
                    Ok(value) => match value.spec_try_mul(self.spec_borrow_weight()) {
                        Err(e) => Err(e),
                        Ok(borrow_value) => if borrow_value@ > max_borrow_value@ {
                            Err(ErrorCode::BorrowTooLarge)
                        } else {
                            Ok(
                                CalculateBorrowResult {
                                    borrow_amount,
                                    receive_amount,
                                    borrow_fee,
                                    host_fee,
                                },
                            )
                        },
                    },
                },
            },
        }
    }

    /// What [`Reserve::calculate_borrow`] returns.
    pub open spec fn spec_calculate_borrow(
        &self,
        amount_to_borrow: u64,
        max_borrow_value: Decimal,
        remaining_reserve_borrow: Decimal,
    ) -> Result<CalculateBorrowResult, ErrorCode> {
        if amount_to_borrow == u64::MAX {
            self.spec_calculate_max_borrow(max_borrow_value, remaining_reserve_borrow)
        } else {
            self.spec_calculate_exact_borrow(amount_to_borrow, max_borrow_value)
        }
    }

    /// Sizes a borrow of liquidity up to a greatest market value.
    ///
    /// The greatest 64-bit amount asks for as much as may be borrowed: what
    /// the value allows at the upper bound of the price and the borrow
    /// weight, but no more than the reserve may still lend and no more than
    /// is available; the fee is taken out of it. Any other amount is what
    /// the borrower receives; the fee is added to it, and the borrow is refused
    /// where its weighted value at the upper bound of the price exceeds the
    /// greatest value.
    pub fn calculate_borrow(
        &self,
        amount_to_borrow: u64,
        max_borrow_value: Decimal,
        remaining_reserve_borrow: Decimal,
    ) -> (r: Result<CalculateBorrowResult, ErrorCode>)
        ensures
            r == self.spec_calculate_borrow(
                amount_to_borrow,
                max_borrow_value,
                remaining_reserve_borrow,
            ),
    {
        if amount_to_borrow == u64::MAX {
            let decimals: u128 = pow10(self.liquidity.mint_decimals as u32)?;
            let borrow_amount = max_borrow_value.try_mul_u128(decimals)?.try_div(
                self.price_upper_bound(),
            )?.try_div(self.borrow_weight())?.min(remaining_reserve_borrow).min(
                Decimal::from_u64(self.liquidity.available_amount),
            );
            let (borrow_fee, host_fee) = self.config.fees.calculate_borrow_fees(
                borrow_amount,
                FeeCalculation::Inclusive,
            )?;
            let whole: u64 = borrow_amount.try_floor_u64()?;
            let receive_amount: u64 = match whole.checked_sub(borrow_fee) {
                Some(difference) => difference,
                None => { return Err(ErrorCode::MathOverflow); },
            };
            Ok(CalculateBorrowResult { borrow_amount, receive_amount, borrow_fee, host_fee })
        } else {
            let receive_amount: u64 = amount_to_borrow;
            let (borrow_fee, host_fee) = self.config.fees.calculate_borrow_fees(
                Decimal::from_u64(receive_amount),
                FeeCalculation::Exclusive,
            )?;
            let borrow_amount = Decimal::from_u64(receive_amount).try_add(
                Decimal::from_u64(borrow_fee),
            )?;
            let borrow_value = self.market_value_upper_bound(borrow_amount)?.try_mul(
                self.borrow_weight(),
            )?;
            if borrow_value.gt(&max_borrow_value) {
                return Err(ErrorCode::BorrowTooLarge);
            }
            Ok(CalculateBorrowResult { borrow_amount, receive_amount, borrow_fee, host_fee })
        }
    }

    /// What [`Reserve::calculate_repay`] returns.
    pub open spec fn spec_calculate_repay(
        &self,
        amount_to_repay: u64,
        borrowed_amount: Decimal,
    ) -> Result<CalculateRepayResult, ErrorCode> {
        let settle_amount = if amount_to_repay == u64::MAX {
            borrowed_amount
        } else {
            Decimal::spec_from_int(amount_to_repay as nat).spec_min(borrowed_amount)
        };
        match settle_amount.spec_try_ceil_u64() {
            Err(e) => Err(e),
            Ok(repay_amount) => Ok(CalculateRepayResult { settle_amount, repay_amount }),
        }
    }

    /// Sizes a repayment: what is settled is the amount offered, but no more
    /// than is borrowed; the greatest 64-bit amount offers all that is
    /// borrowed. What is paid is what is settled, rounded up to whole units.
    pub fn calculate_repay(&self, amount_to_repay: u64, borrowed_amount: Decimal) -> (r: Result<
        CalculateRepayResult,
        ErrorCode,
    >)
        ensures
            r == self.spec_calculate_repay(amount_to_repay, borrowed_amount),
            r is Ok ==> r->Ok_0.settle_amount@ <= borrowed_amount@,
    {
        let settle_amount = if amount_to_repay == u64::MAX {
            borrowed_amount
        } else {
            Decimal::from_u64(amount_to_repay).min(borrowed_amount)
        };
        let repay_amount: u64 = settle_amount.try_ceil_u64()?;
        Ok(CalculateRepayResult { settle_amount, repay_amount })
    }

    /// The share of the way from the unhealthy to the very unhealthy borrow
    /// value that the obligation has gone, at most one.
    pub open spec fn spec_bonus_weight(obligation: &Obligation) -> Result<Decimal, ErrorCode> {
        match obligation.borrowed_value.spec_try_sub(obligation.unhealthy_borrow_value) {
            Err(e) => Err(e),
            Ok(above) => match obligation.super_unhealthy_borrow_value.spec_try_sub(
                obligation.unhealthy_borrow_value,
            ) {
                Err(e) => Err(e),
                Ok(span) => match above.spec_try_div(span) {
                    Err(_) => Ok(Decimal::spec_one()),
                    Ok(weight) => Ok(weight.spec_min(Decimal::spec_one())),
                },
            },
        }
    }

    /// What [`Reserve::calculate_bonus`] returns.
    pub open spec fn spec_calculate_bonus(&self, obligation: &Obligation) -> Result<
        Bonus,
        ErrorCode,
    > {
        let liquidation_bonus = Decimal::spec_from_percent(self.config.liquidation_bonus as nat);
        let max_liquidation_bonus = Decimal::spec_from_percent(
            self.config.max_liquidation_bonus as nat,
        );
        let protocol_liquidation_fee = Decimal::spec_from_deca_bps(
            self.config.protocol_liquidation_fee as nat,
        );
        let max_bonus = Decimal::spec_from_percent(MAX_BONUS_PCT as nat);
        if obligation.borrowed_value@ < obligation.unhealthy_borrow_value@ {
            if obligation.closeable {
                Ok(
                    Bonus {
                        total_bonus: Decimal::spec_zero(),
                        protocol_liquidation_fee: Decimal::spec_zero(),
                    },
                )
            } else {
                Err(ErrorCode::ObligationHealthy)
            }
        } else if obligation.unhealthy_borrow_value@ == obligation.super_unhealthy_borrow_value@ {
            match liquidation_bonus.spec_try_add(protocol_liquidation_fee) {
                Err(e) => Err(e),
                Ok(total) => Ok(
                    Bonus { total_bonus: total.spec_min(max_bonus), protocol_liquidation_fee },
                ),
            }
        } else {
            match Self::spec_bonus_weight(obligation) {
                Err(e) => Err(e),
                Ok(weight) => match max_liquidation_bonus.spec_try_sub(liquidation_bonus) {
                    Err(e) => Err(e),
                    Ok(range) => match weight.spec_try_mul(range) {
                        Err(e) => Err(e),
                        Ok(above) => match liquidation_bonus.spec_try_add(above) {
                            Err(e) => Err(e),
                            Ok(bonus) => match bonus.spec_try_add(protocol_liquidation_fee) {
                                Err(e) => Err(e),
                                Ok(total) => Ok(
                                    Bonus {
                                        total_bonus: total.spec_min(max_bonus),
                                        protocol_liquidation_fee,
                                    },
                                ),
                            },
                        },
                    },
                },
            }
        }
    }

    /// The bonus of a liquidation of the given obligation, as a share of one.
    ///
    /// A healthy obligation, one that has borrowed less than its unhealthy
    /// borrow value, has no bonus: the call fails, unless the obligation is
    /// closeable, for which the bonus is zero. Where the unhealthy and the
    /// very unhealthy borrow value are the same, the bonus is the
    /// liquidation bonus and the protocol's fee. Otherwise it goes from the
    /// liquidation bonus to the greatest liquidation bonus as the borrowed
    /// value goes from the one borrow value to the other, and the protocol's
    /// fee is added. The bonus never exceeds the greatest bonus there is.
    pub fn calculate_bonus(&self, obligation: &Obligation) -> (r: Result<Bonus, ErrorCode>)
        ensures
            r == self.spec_calculate_bonus(obligation),
            obligation.borrowed_value@ < obligation.unhealthy_borrow_value@
                && !obligation.closeable ==> r == Err::<Bonus, ErrorCode>(
                ErrorCode::ObligationHealthy,
            ),
            obligation.borrowed_value@ < obligation.unhealthy_borrow_value@ && r is Ok
                ==> r->Ok_0.total_bonus@ == 0,
            r is Ok ==> r->Ok_0.total_bonus@ <= MAX_BONUS_PCT * crate::math::common::percent_scaler(),
    {
        if obligation.borrowed_value.lt(&obligation.unhealthy_borrow_value) {
            if obligation.closeable {
                return Ok(
                    Bonus {
                        total_bonus: Decimal::zero(),
                        protocol_liquidation_fee: Decimal::zero(),
                    },
                );
            }
            return Err(ErrorCode::ObligationHealthy);
        }
        let liquidation_bonus = Decimal::from_percent(self.config.liquidation_bonus);
        let max_liquidation_bonus = Decimal::from_percent(self.config.max_liquidation_bonus);
        let protocol_liquidation_fee = Decimal::from_deca_bps(self.config.protocol_liquidation_fee);
        let max_bonus = Decimal::from_percent(MAX_BONUS_PCT);
        // could also return the average of liquidation bonus and max liquidation bonus here, but
        // there is no slope to go by
        if obligation.unhealthy_borrow_value.ge(&obligation.super_unhealthy_borrow_value)
            && obligation.unhealthy_borrow_value.le(&obligation.super_unhealthy_borrow_value) {
            let total = liquidation_bonus.try_add(protocol_liquidation_fee)?;
            return Ok(Bonus { total_bonus: total.min(max_bonus), protocol_liquidation_fee });
        }
        let above = obligation.borrowed_value.try_sub(obligation.unhealthy_borrow_value)?;
        let span = obligation.super_unhealthy_borrow_value.try_sub(
            obligation.unhealthy_borrow_value,
        )?;
        let weight = match above.try_div(span) {
            Ok(weight) => weight.min(Decimal::one()),
            Err(_) => Decimal::one(),
        };
        let range = max_liquidation_bonus.try_sub(liquidation_bonus)?;
        let bonus = liquidation_bonus.try_add(weight.try_mul(range)?)?;
        let total = bonus.try_add(protocol_liquidation_fee)?;
        Ok(Bonus { total_bonus: total.min(max_bonus), protocol_liquidation_fee })
    }

    /// What [`Reserve::calculate_liquidation`] returns.
    pub open spec fn spec_calculate_liquidation(
        &self,
        amount_to_liquidate: u64,
        obligation: &Obligation,
        liquidity: &ObligationLiquidity,
        collateral: &ObligationCollateral,
        bonus: &Bonus,
    ) -> Result<CalculateLiquidationResult, ErrorCode> {
        if bonus.total_bonus@ > Decimal::spec_from_percent(MAX_BONUS_PCT as nat)@ {
            Err(ErrorCode::InvalidAmount)
        } else {
            match bonus.total_bonus.spec_try_add(Decimal::spec_one()) {
                Err(e) => Err(e),
                Ok(bonus_rate) => {
                    let max_amount = if amount_to_liquidate == u64::MAX {
                        liquidity.borrowed_amount_wads
                    } else {
                        Decimal::spec_from_int(amount_to_liquidate as nat).spec_min(
                            liquidity.borrowed_amount_wads,
                        )
                    };
                    if liquidity.market_value@ <= Decimal::spec_one()@ {
                        match liquidity.market_value.spec_try_mul(bonus_rate) {
                            Err(e) => Err(e),
                            Ok(liquidation_value) => spec_liquidate_against(
                                liquidity.borrowed_amount_wads,
                                liquidation_value,
                                collateral,
                            ),
                        }
                    } else {
                        match obligation.spec_max_liquidation_amount(liquidity) {
                            Err(e) => Err(e),
                            Ok(most) => {
                                let liquidation_amount = most.spec_min(max_amount);
                                match liquidation_amount.spec_try_div(
                                    liquidity.borrowed_amount_wads,
                                ) {
                                    Err(e) => Err(e),
                                    Ok(liquidation_pct) => match liquidity.market_value.spec_try_mul(
                                        liquidation_pct,
                                    ) {
                                        Err(e) => Err(e),
                                        Ok(value) => match value.spec_try_mul(bonus_rate) {
                                            Err(e) => Err(e),
                                            Ok(liquidation_value) => spec_liquidate_against(
                                                liquidation_amount,
                                                liquidation_value,
                                                collateral,
                                            ),
                                        },
                                    },
                                }
                            },
                        }
                    }
                },
            }
        }
    }

    /// Sizes the liquidation of some or all of a borrow of an unhealthy obligation.
    ///
    /// A bonus above the greatest bonus is refused. A borrow worth no more
    /// than one unit of the quote currency is liquidated as a whole.
    /// Otherwise the amount liquidated is the amount asked for, but no more
    /// than is borrowed and no more than one liquidation may repay; the
    /// greatest 64-bit amount asks for all of the borrow. What is settled,
    /// paid and withdrawn then goes by the value of the amount with the
    /// bonus, against the value of the collateral.
    pub fn calculate_liquidation(
        &self,
        amount_to_liquidate: u64,
        obligation: &Obligation,
        liquidity: &ObligationLiquidity,
        collateral: &ObligationCollateral,
        bonus: &Bonus,
    ) -> (r: Result<CalculateLiquidationResult, ErrorCode>)
        ensures
            r == self.spec_calculate_liquidation(
                amount_to_liquidate,
                obligation,
                liquidity,
                collateral,
                bonus,
            ),
    {
        if bonus.total_bonus.gt(&Decimal::from_percent(MAX_BONUS_PCT)) {
            return Err(ErrorCode::InvalidAmount);
        }
        let bonus_rate = bonus.total_bonus.try_add(Decimal::one())?;
        let max_amount = if amount_to_liquidate == u64::MAX {
            liquidity.borrowed_amount_wads
        } else {
            Decimal::from_u64(amount_to_liquidate).min(liquidity.borrowed_amount_wads)
        };
        if liquidity.market_value.le(&Decimal::one()) {
            // a borrow this small is closed out as a whole
            let liquidation_value = liquidity.market_value.try_mul(bonus_rate)?;
            liquidate_against(liquidity.borrowed_amount_wads, liquidation_value, collateral)
        } else {
            // partial liquidation
            let liquidation_amount = obligation.max_liquidation_amount(liquidity)?.min(max_amount);
            let liquidation_pct = liquidation_amount.try_div(liquidity.borrowed_amount_wads)?;
            let liquidation_value = liquidity.market_value.try_mul(liquidation_pct)?.try_mul(
                bonus_rate,
            )?;
            liquidate_against(liquidation_amount, liquidation_value, collateral)
        }
    }

    /// What [`Reserve::calculate_protocol_liquidation_fee`] returns.
    pub open spec fn spec_calculate_protocol_liquidation_fee(
        &self,
        amount_liquidated: u64,
        bonus: &Bonus,
    ) -> Result<u64, ErrorCode> {
        if bonus.total_bonus@ > Decimal::spec_from_percent(MAX_BONUS_PCT as nat)@ {
            Err(ErrorCode::InvalidAmount)
        } else {
            match Decimal::spec_one().spec_try_add(bonus.total_bonus) {
                Err(e) => Err(e),
                Ok(bonus_rate) => match Decimal::spec_from_int(amount_liquidated as nat).spec_try_div(
                    bonus_rate,
                ) {
                    Err(e) => Err(e),
                    Ok(nonbonus_amount) => match nonbonus_amount.spec_try_mul(
                        bonus.protocol_liquidation_fee,
                    ) {
                        Err(e) => Err(e),
                        Ok(fee) => match fee.spec_try_floor_u64() {
                            Err(e) => Err(e),
                            Ok(whole) => Ok(
                                if whole < 1 {
                                    1
                                } else {
                                    whole
                                },
                            ),
                        },
                    },
                },
            }
        }
    }

    /// The protocol's part of what a liquidation seized: its fee on the part
    /// that is not bonus, rounded down, but one unit at least.
    ///
    /// The bonus has to be handed in, since it cannot be worked out again
    /// once the liquidation has changed the obligation.
    pub fn calculate_protocol_liquidation_fee(&self, amount_liquidated: u64, bonus: &Bonus) -> (r:
        Result<u64, ErrorCode>)
        ensures
            r == self.spec_calculate_protocol_liquidation_fee(amount_liquidated, bonus),
            r is Ok ==> r->Ok_0 >= 1,
    {
        if bonus.total_bonus.gt(&Decimal::from_percent(MAX_BONUS_PCT)) {
            return Err(ErrorCode::InvalidAmount);
        }
        let amount_liquidated_wads = Decimal::from_u64(amount_liquidated);
        let nonbonus_amount = amount_liquidated_wads.try_div(
            Decimal::one().try_add(bonus.total_bonus)?,
        )?;
        let whole: u64 = nonbonus_amount.try_mul(bonus.protocol_liquidation_fee)?.try_floor_u64()?;
        Ok(
            if whole < 1 {
                1
            } else {
                whole
            },
        )
    }

    /// What [`Reserve::calculate_redeem_fees`] returns.
    pub open spec fn spec_calculate_redeem_fees(&self) -> Result<u64, ErrorCode> {
        match self.liquidity.accumulated_protocol_fees_wads.spec_try_floor_u64() {
            Err(e) => Err(e),
            Ok(fees) => Ok(
                if self.liquidity.available_amount < fees {
                    self.liquidity.available_amount
                } else {
                    fees
                },
            ),
        }
    }

    /// The protocol's fees that can be redeemed: the whole units
    /// accumulated, but no more than is available.
    pub fn calculate_redeem_fees(&self) -> (r: Result<u64, ErrorCode>)
        ensures
            r == self.spec_calculate_redeem_fees(),
            r is Ok ==> r->Ok_0 <= self.liquidity.available_amount,
    {
        let fees: u64 = self.liquidity.accumulated_protocol_fees_wads.try_floor_u64()?;
        Ok(
            if self.liquidity.available_amount < fees {
                self.liquidity.available_amount
            } else {
                fees
            },
        )
    }
}

} // verus!
