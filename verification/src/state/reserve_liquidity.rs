//! The liquidity of a reserve: what is available, what is lent, and at what price.

use crate::error::{commits, ErrorCode};
use crate::math::common::{wad, WAD};
use crate::math::decimal::Decimal;
use crate::math::u192::limit;
use crate::pubkey::Pubkey;
use crate::state::SLOTS_PER_YEAR;
use crate::utils::math::{lemma_pow_decimal_grows, pow_decimal, spec_pow_decimal};
use vstd::prelude::*;

verus! {

/// The liquidity of a reserve.
#[derive(Clone, Copy, Debug, Default, PartialEq, Eq)]
pub struct ReserveLiquidity {
    /// Mint of the liquidity token.
    pub mint_pubkey: Pubkey,
    /// Number of decimals of the liquidity token.
    pub mint_decimals: u8,
    /// Account that holds the supply.
    pub supply_pubkey: Pubkey,
    /// Feed of the price oracle.
    pub pyth_oracle_feed_id: [u8; 32],
    /// Liquidity available, in native units.
    pub available_amount: u64,
    /// Liquidity lent out, with interest.
    pub borrowed_amount_wads: Decimal,
    /// Index of the interest accrued since the reserve was opened.
    pub cumulative_borrow_rate_wads: Decimal,
    /// Fees that the protocol has earned and not yet redeemed.
    pub accumulated_protocol_fees_wads: Decimal,
    /// Price of one whole token in the quote currency.
    pub market_price: Decimal,
    /// Smoothed price of one whole token (a moving average).
    pub smoothed_market_price: Decimal,
    /// Price from the second oracle, if there is one.
    pub extra_market_price: Option<Decimal>,
}

/// What a new reserve liquidity is made of.
#[derive(Clone, Copy, Debug)]
pub struct NewReserveLiquidityParams {
    /// Mint of the liquidity token.
    pub mint_pubkey: Pubkey,
    /// Number of decimals of the liquidity token.
    pub mint_decimals: u8,
    /// Account that holds the supply.
    pub supply_pubkey: Pubkey,
    /// Feed of the price oracle.
    pub pyth_oracle_feed_id: [u8; 32],
    /// Price of one whole token in the quote currency.
    pub market_price: Decimal,
    /// Smoothed price of one whole token.
    pub smoothed_market_price: Decimal,
}

impl ReserveLiquidity {
    /// What [`ReserveLiquidity::new`] returns.
    pub open spec fn spec_new(params: NewReserveLiquidityParams) -> ReserveLiquidity {
        ReserveLiquidity {
            mint_pubkey: params.mint_pubkey,
            mint_decimals: params.mint_decimals,
            supply_pubkey: params.supply_pubkey,
            pyth_oracle_feed_id: params.pyth_oracle_feed_id,
            available_amount: 0,
            borrowed_amount_wads: Decimal::spec_zero(),
            cumulative_borrow_rate_wads: Decimal::spec_one(),
            accumulated_protocol_fees_wads: Decimal::spec_zero(),
            market_price: params.market_price,
            smoothed_market_price: params.smoothed_market_price,
            extra_market_price: None,
        }
    }

    /// An empty liquidity: nothing available, nothing lent, the index at one.
    pub fn new(params: NewReserveLiquidityParams) -> (r: ReserveLiquidity)
        ensures
            r == Self::spec_new(params),
    {
        ReserveLiquidity {
            mint_pubkey: params.mint_pubkey,
            mint_decimals: params.mint_decimals,
            supply_pubkey: params.supply_pubkey,
            pyth_oracle_feed_id: params.pyth_oracle_feed_id,
            available_amount: 0,
            borrowed_amount_wads: Decimal::zero(),
            cumulative_borrow_rate_wads: Decimal::one(),
            accumulated_protocol_fees_wads: Decimal::zero(),
            market_price: params.market_price,
            smoothed_market_price: params.smoothed_market_price,
            extra_market_price: None,
        }
    }

    /// The scaled value of what the suppliers own: what is available and
    /// what is lent, less the fees that belong to the protocol.
    pub open spec fn supply(&self) -> int {
        self.available_amount * wad() + self.borrowed_amount_wads@
            - self.accumulated_protocol_fees_wads@
    }

    /// What [`ReserveLiquidity::total_supply`] returns.
    pub open spec fn spec_total_supply(&self) -> Result<Decimal, ErrorCode> {
        match Decimal::spec_from_int(self.available_amount as nat).spec_try_add(
            self.borrowed_amount_wads,
        ) {
            Err(e) => Err(e),
            Ok(gross) => gross.spec_try_sub(self.accumulated_protocol_fees_wads),
        }
    }

    /// The supply of the reserve, loans included and the protocol's fees left out.
    ///
    /// It is [`ReserveLiquidity::supply`] wherever that is not negative and
    /// the sum on the way fits.
    pub fn total_supply(&self) -> (r: Result<Decimal, ErrorCode>)
        ensures
            r == self.spec_total_supply(),
            match r {
                Ok(total) => total@ == self.supply(),
                Err(e) => e == ErrorCode::MathOverflow && (self.supply() < 0
                    || self.available_amount * wad() + self.borrowed_amount_wads@ >= limit()),
            },
    {
        Decimal::from_u64(self.available_amount).try_add(self.borrowed_amount_wads)?.try_sub(
            self.accumulated_protocol_fees_wads,
        )
    }

    /// The liquidity after a deposit.
    pub open spec fn spec_deposit(self, liquidity_amount: u64) -> Result<
        ReserveLiquidity,
        ErrorCode,
    > {
        if self.available_amount + liquidity_amount > u64::MAX {
            Err(ErrorCode::MathOverflow)
        } else {
            Ok(
                ReserveLiquidity {
                    available_amount: (self.available_amount + liquidity_amount) as u64,
                    ..self
                },
            )
        }
    }

    /// Adds liquidity to the available amount.
    pub fn deposit(&mut self, liquidity_amount: u64) -> (r: Result<(), ErrorCode>)
        ensures
            commits(r, *old(self), *final(self), old(self).spec_deposit(liquidity_amount)),
            r is Ok ==> final(self).supply() == old(self).supply() + liquidity_amount * wad(),
    {
        match self.available_amount.checked_add(liquidity_amount) {
            Some(sum) => {
                self.available_amount = sum;
                Ok(())
            },
            None => Err(ErrorCode::MathOverflow),
        }
    }

    /// The liquidity after a withdrawal.
    pub open spec fn spec_withdraw(self, liquidity_amount: u64) -> Result<
        ReserveLiquidity,
        ErrorCode,
    > {
        if liquidity_amount > self.available_amount {
            Err(ErrorCode::InsufficientLiquidity)
        } else {
            Ok(
                ReserveLiquidity {
                    available_amount: (self.available_amount - liquidity_amount) as u64,
                    ..self
                },
            )
        }
    }

    /// Removes liquidity from the available amount.
    pub fn withdraw(&mut self, liquidity_amount: u64) -> (r: Result<(), ErrorCode>)
        ensures
            commits(r, *old(self), *final(self), old(self).spec_withdraw(liquidity_amount)),
            r is Ok ==> final(self).supply() == old(self).supply() - liquidity_amount * wad(),
    {
        if liquidity_amount > self.available_amount {
            return Err(ErrorCode::InsufficientLiquidity);
        }
        self.available_amount = self.available_amount - liquidity_amount;
        Ok(())
    }

    /// The liquidity after a borrow.
    pub open spec fn spec_borrow(self, borrow_decimal: Decimal) -> Result<
        ReserveLiquidity,
        ErrorCode,
    > {
        match borrow_decimal.spec_try_floor_u64() {
            Err(e) => Err(e),
            Ok(borrow_amount) => if borrow_amount > self.available_amount {
                Err(ErrorCode::InsufficientLiquidity)
            } else {
                match self.borrowed_amount_wads.spec_try_add(borrow_decimal) {
                    Err(e) => Err(e),
                    Ok(borrowed) => Ok(
                        ReserveLiquidity {
                            available_amount: (self.available_amount - borrow_amount) as u64,
                            borrowed_amount_wads: borrowed,
                            ..self
                        },
                    ),
                }
            },
        }
    }

    /// Takes the whole units of a borrow out of the available amount and
    /// adds the borrow to what is lent.
    pub fn borrow(&mut self, borrow_decimal: Decimal) -> (r: Result<(), ErrorCode>)
        ensures
            commits(r, *old(self), *final(self), old(self).spec_borrow(borrow_decimal)),
            r is Ok ==> old(self).supply() <= final(self).supply() < old(self).supply() + wad(),
    {
        let borrow_amount: u64 = borrow_decimal.try_floor_u64()?;
        if borrow_amount > self.available_amount {
            return Err(ErrorCode::InsufficientLiquidity);
        }
        let borrowed = self.borrowed_amount_wads.try_add(borrow_decimal)?;
        self.available_amount = self.available_amount - borrow_amount;
        self.borrowed_amount_wads = borrowed;
        Ok(())
    }

    /// The liquidity after a repayment.
    pub open spec fn spec_repay(self, repay_amount: u64, settle_amount: Decimal) -> Result<
        ReserveLiquidity,
        ErrorCode,
    > {
        if self.available_amount + repay_amount > u64::MAX {
            Err(ErrorCode::MathOverflow)
        } else {
            match self.borrowed_amount_wads.spec_try_sub(
                settle_amount.spec_min(self.borrowed_amount_wads),
            ) {
                Err(e) => Err(e),
                Ok(borrowed) => Ok(
                    ReserveLiquidity {
                        available_amount: (self.available_amount + repay_amount) as u64,
                        borrowed_amount_wads: borrowed,
                        ..self
                    },
                ),
            }
        }
    }

    /// Adds a repayment to the available amount and takes what it settles,
    /// but no more than is lent, out of what is lent.
    pub fn repay(&mut self, repay_amount: u64, settle_amount: Decimal) -> (r: Result<
        (),
        ErrorCode,
    >)
        ensures
            commits(r, *old(self), *final(self), old(self).spec_repay(repay_amount, settle_amount)),
            r is Ok ==> final(self).supply() == old(self).supply() + repay_amount * wad() - (
            if settle_amount@ < old(self).borrowed_amount_wads@ {
                settle_amount@
            } else {
                old(self).borrowed_amount_wads@
            }),
    {
        let available: u64 = match self.available_amount.checked_add(repay_amount) {
            Some(sum) => sum,
            None => { return Err(ErrorCode::MathOverflow); },
        };
        let safe_settle_amount = settle_amount.min(self.borrowed_amount_wads);
        let borrowed = self.borrowed_amount_wads.try_sub(safe_settle_amount)?;
        self.available_amount = available;
        self.borrowed_amount_wads = borrowed;
        Ok(())
    }

    /// The liquidity after a debt was forgiven.
    pub open spec fn spec_forgive_debt(self, liquidity_amount: Decimal) -> Result<
        ReserveLiquidity,
        ErrorCode,
    > {
        match self.borrowed_amount_wads.spec_try_sub(liquidity_amount) {
            Err(e) => Err(e),
            Ok(borrowed) => Ok(ReserveLiquidity { borrowed_amount_wads: borrowed, ..self }),
        }
    }

    /// Forgives bad debt: the loss is spread over all who hold collateral of the reserve.
    pub fn forgive_debt(&mut self, liquidity_amount: Decimal) -> (r: Result<(), ErrorCode>)
        ensures
            commits(r, *old(self), *final(self), old(self).spec_forgive_debt(liquidity_amount)),
            r is Ok ==> final(self).supply() == old(self).supply() - liquidity_amount@,
    {
        let borrowed = self.borrowed_amount_wads.try_sub(liquidity_amount)?;
        self.borrowed_amount_wads = borrowed;
        Ok(())
    }

    /// The liquidity after fees were redeemed.
    pub open spec fn spec_redeem_fees(self, withdraw_amount: u64) -> Result<
        ReserveLiquidity,
        ErrorCode,
    > {
        if withdraw_amount > self.available_amount {
            Err(ErrorCode::MathOverflow)
        } else {
            match self.accumulated_protocol_fees_wads.spec_try_sub(
                Decimal::spec_from_int(withdraw_amount as nat),
            ) {
                Err(e) => Err(e),
                Ok(fees) => Ok(
                    ReserveLiquidity {
                        available_amount: (self.available_amount - withdraw_amount) as u64,
                        accumulated_protocol_fees_wads: fees,
                        ..self
                    },
                ),
            }
        }
    }

    /// Takes redeemed fees out of the available amount and out of the fees accumulated.
    pub fn redeem_fees(&mut self, withdraw_amount: u64) -> (r: Result<(), ErrorCode>)
        ensures
            commits(r, *old(self), *final(self), old(self).spec_redeem_fees(withdraw_amount)),
            r is Ok ==> final(self).supply() == old(self).supply(),
    {
        let available: u64 = match self.available_amount.checked_sub(withdraw_amount) {
            Some(difference) => difference,
            None => { return Err(ErrorCode::MathOverflow); },
        };
        let fees = self.accumulated_protocol_fees_wads.try_sub(Decimal::from_u64(withdraw_amount))?;
        self.available_amount = available;
        self.accumulated_protocol_fees_wads = fees;
        Ok(())
    }

    /// What [`ReserveLiquidity::utilization_rate`] returns.
    pub open spec fn spec_utilization_rate(&self) -> Result<Decimal, ErrorCode> {
        match self.spec_total_supply() {
            Err(e) => Err(e),
            Ok(total_supply) => if total_supply@ == 0 || self.borrowed_amount_wads@ == 0 {
                Ok(Decimal::spec_zero())
            } else {
                match self.borrowed_amount_wads.spec_try_add(
                    Decimal::spec_from_int(self.available_amount as nat),
                ) {
                    Err(e) => Err(e),
                    Ok(denominator) => self.borrowed_amount_wads.spec_try_div(denominator),
                }
            },
        }
    }

    /// The share of the liquidity that is lent out: zero for an empty
    /// reserve, else what is lent over what is lent and available.
    pub fn utilization_rate(&self) -> (r: Result<Decimal, ErrorCode>)
        ensures
            r == self.spec_utilization_rate(),
            r is Ok ==> r->Ok_0@ <= wad(),
    {
        let total_supply = self.total_supply()?;
        if total_supply.is_zero() || self.borrowed_amount_wads.is_zero() {
            return Ok(Decimal::zero());
        }
        let denominator = self.borrowed_amount_wads.try_add(
            Decimal::from_u64(self.available_amount),
        )?;
        let rate = self.borrowed_amount_wads.try_div(denominator)?;
        proof {
            let lent = self.borrowed_amount_wads@ as int;
            let all = denominator@ as int;
            vstd::arithmetic::div_mod::lemma_div_is_ordered(lent * wad(), all * wad(), all);
            vstd::arithmetic::div_mod::lemma_div_multiples_vanish(wad() as int, all);
            assert(all * wad() == wad() * all) by (nonlinear_arith);
        }
        Ok(rate)
    }

    /// The factor by which a debt grows over `slots_elapsed` slots at the given yearly rate.
    pub open spec fn spec_compounded_interest_rate(
        current_borrow_rate: Decimal,
        slots_elapsed: u64,
    ) -> Result<Decimal, ErrorCode> {
        match current_borrow_rate.spec_try_div_u64(SLOTS_PER_YEAR) {
            Err(e) => Err(e),
            Ok(slot_interest_rate) => match Decimal::spec_one().spec_try_add(slot_interest_rate) {
                Err(e) => Err(e),
                Ok(base) => match base.spec_to_scaled_val() {
                    Err(e) => Err(e),
                    Ok(scaled_base) => match spec_pow_decimal(
                        scaled_base,
                        slots_elapsed,
                        WAD as u128,
                    ) {
                        Err(e) => Err(e),
                        Ok(power) => Ok(Decimal::spec_from_scaled_val(power as nat)),
                    },
                },
            },
        }
    }

    /// The liquidity after interest was compounded.
    pub open spec fn spec_compound_interest(
        self,
        current_borrow_rate: Decimal,
        slots_elapsed: u64,
        take_rate: Decimal,
    ) -> Result<ReserveLiquidity, ErrorCode> {
        match Self::spec_compounded_interest_rate(current_borrow_rate, slots_elapsed) {
            Err(e) => Err(e),
            Ok(compounded) => match self.cumulative_borrow_rate_wads.spec_try_mul(compounded) {
                Err(e) => Err(e),
                Ok(cumulative) => match self.borrowed_amount_wads.spec_try_mul(compounded) {
                    Err(e) => Err(e),
                    Ok(grown) => match grown.spec_try_sub(self.borrowed_amount_wads) {
                        Err(e) => Err(e),
                        Ok(net_new_debt) => match net_new_debt.spec_try_mul(take_rate) {
                            Err(e) => Err(e),
                            Ok(taken) => match taken.spec_try_add(
                                self.accumulated_protocol_fees_wads,
                            ) {
                                Err(e) => Err(e),
                                Ok(fees) => match self.borrowed_amount_wads.spec_try_add(
                                    net_new_debt,
                                ) {
                                    Err(e) => Err(e),
                                    Ok(borrowed) => Ok(
                                        ReserveLiquidity {
                                            cumulative_borrow_rate_wads: cumulative,
                                            accumulated_protocol_fees_wads: fees,
                                            borrowed_amount_wads: borrowed,
                                            ..self
                                        },
                                    ),
                                },
                            },
                        },
                    },
                },
            },
        }
    }

    fn compounded_interest_rate(current_borrow_rate: Decimal, slots_elapsed: u64) -> (r: Result<
        Decimal,
        ErrorCode,
    >)
        ensures
            r == Self::spec_compounded_interest_rate(current_borrow_rate, slots_elapsed),
            r is Ok ==> r->Ok_0@ >= wad(),
    {
        let slot_interest_rate = current_borrow_rate.try_div_u64(SLOTS_PER_YEAR)?;
        let base = Decimal::one().try_add(slot_interest_rate)?;
        let scaled_base: u128 = base.to_scaled_val()?;
        let power: u128 = pow_decimal(scaled_base, slots_elapsed, WAD as u128)?;
        proof {
            lemma_pow_decimal_grows(WAD as u128, scaled_base, slots_elapsed, WAD as u128);
        }
        Ok(Decimal::from_scaled_val(power))
    }

    /// Compounds the yearly rate over the slots elapsed: the index and what
    /// is lent grow by the compounded factor, and the protocol takes its
    /// share of the new debt.
    pub fn compound_interest(
        &mut self,
        current_borrow_rate: Decimal,
        slots_elapsed: u64,
        take_rate: Decimal,
    ) -> (r: Result<(), ErrorCode>)
        ensures
            commits(
                r,
                *old(self),
                *final(self),
                old(self).spec_compound_interest(current_borrow_rate, slots_elapsed, take_rate),
            ),
            r is Ok ==> final(self).cumulative_borrow_rate_wads@ >= old(
                self,
            ).cumulative_borrow_rate_wads@,
            r is Ok ==> final(self).borrowed_amount_wads@ >= old(self).borrowed_amount_wads@,
            r is Ok ==> final(self).accumulated_protocol_fees_wads@ >= old(
                self,
            ).accumulated_protocol_fees_wads@,
    {
        let compounded = Self::compounded_interest_rate(current_borrow_rate, slots_elapsed)?;
        let cumulative = self.cumulative_borrow_rate_wads.try_mul(compounded)?;
        let net_new_debt = self.borrowed_amount_wads.try_mul(compounded)?.try_sub(
            self.borrowed_amount_wads,
        )?;
        let fees = net_new_debt.try_mul(take_rate)?.try_add(self.accumulated_protocol_fees_wads)?;
        let borrowed = self.borrowed_amount_wads.try_add(net_new_debt)?;
        proof {
            lemma_grows(self.cumulative_borrow_rate_wads@, compounded@);
        }
        self.cumulative_borrow_rate_wads = cumulative;
        self.accumulated_protocol_fees_wads = fees;
        self.borrowed_amount_wads = borrowed;
        Ok(())
    }
}

/// A scaled value times a factor of at least one, scaled back, is no less than the value.
proof fn lemma_grows(value: nat, factor: nat)
    requires
        factor >= wad(),
    ensures
        value * factor / wad() >= value,
{
    assert(value * factor >= wad() * value) by (nonlinear_arith)
        requires
            factor >= wad(),
    ;
    vstd::arithmetic::div_mod::lemma_div_is_ordered(
        (wad() * value) as int,
        (value * factor) as int,
        wad() as int,
    );
    vstd::arithmetic::div_mod::lemma_div_multiples_vanish(value as int, wad() as int);
}

} // verus!
