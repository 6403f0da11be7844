//! One user's positions: the collateral deposited and the liquidity borrowed.

use crate::error::{commits, ErrorCode};
use crate::state::reserve::Reserve;
use crate::utils::math::{pow10, spec_pow10};
use crate::utils::update_borrow_attribution_values::copy_of;
use crate::math::decimal::Decimal;
use crate::pubkey::Pubkey;
use crate::state::last_update::LastUpdate;
use crate::state::reserve_config::{LIQUIDATION_CLOSE_FACTOR, MAX_LIQUIDATABLE_VALUE_AT_ONCE};
use crate::state::PROGRAM_VERSION;
use vstd::prelude::*;

verus! {

/// Greatest number of deposits and borrows together that an obligation holds.
pub const MAX_OBLIGATION_RESERVES: usize = 10;

/// Greatest number of deposits.
pub const MAX_OBLIGATION_DEPOSITS: usize = 10;

/// Greatest number of borrows.
pub const MAX_OBLIGATION_BORROWS: usize = 10;

/// Collateral deposited from one reserve.
#[derive(Clone, Copy, Debug, Default, PartialEq, Eq)]
pub struct ObligationCollateral {
    /// Reserve the collateral belongs to.
    pub deposit_reserve: Pubkey,
    /// Amount of collateral deposited.
    pub deposited_amount: u64,
    /// Value of the collateral in the quote currency.
    pub market_value: Decimal,
    /// Part of the obligation's debt that is attributed to this collateral.
    pub attributed_borrow_value: Decimal,
}

/// Liquidity borrowed from one reserve.
#[derive(Clone, Copy, Debug, Default, PartialEq, Eq)]
pub struct ObligationLiquidity {
    /// Reserve the liquidity was borrowed from.
    pub borrow_reserve: Pubkey,
    /// The reserve's index of interest when interest was last accrued here.
    pub cumulative_borrow_rate_wads: Decimal,
    /// Amount borrowed, with interest.
    pub borrowed_amount_wads: Decimal,
    /// Value of the debt in the quote currency.
    pub market_value: Decimal,
}

/// The positions of one user within a lending market.
#[derive(Clone, Debug, Default, PartialEq)]
pub struct Obligation {
    /// Version of the state.
    pub version: u8,
    /// Last update of the collateral, the liquidity or their values.
    pub last_update: LastUpdate,
    /// Lending market the obligation belongs to.
    pub lending_market: Pubkey,
    /// Owner, who may borrow and withdraw.
    pub owner: Pubkey,
    /// Collateral deposited, one entry for each reserve.
    pub deposits: Vec<ObligationCollateral>,
    /// Liquidity borrowed, one entry for each reserve.
    pub borrows: Vec<ObligationLiquidity>,
    /// Value of the deposits.
    pub deposited_value: Decimal,
    /// Value of the borrows, each weighted by its reserve's borrow weight.
    pub borrowed_value: Decimal,
    /// Value of the borrows, unweighted.
    pub unweighted_borrowed_value: Decimal,
    /// Weighted value of the borrows at the upper bound of the prices.
    pub borrowed_value_upper_bound: Decimal,
    /// Greatest borrowed value at which more may be borrowed.
    pub allowed_borrow_value: Decimal,
    /// Borrowed value from which the obligation can be liquidated.
    pub unhealthy_borrow_value: Decimal,
    /// Borrowed value from which the obligation is liquidated at the greatest bonus.
    pub super_unhealthy_borrow_value: Decimal,
    /// Whether an isolated asset is among the borrows.
    pub borrowing_isolated_asset: bool,
    /// Whether no reserve of the deposits exceeds its closing limit of attributed borrows.
    pub closeable: bool,
    /// Key the address of the obligation was derived with.
    pub key: u64,
}

/// What a new obligation is made of.
#[derive(Clone, Debug)]
pub struct InitObligationParams {
    /// Slot of the initialization.
    pub current_slot: u64,
    /// Lending market the obligation belongs to.
    pub lending_market: Pubkey,
    /// Owner, who may borrow and withdraw.
    pub owner: Pubkey,
    /// Collateral deposited, one entry for each reserve.
    pub deposits: Vec<ObligationCollateral>,
    /// Liquidity borrowed, one entry for each reserve.
    pub borrows: Vec<ObligationLiquidity>,
    /// Key the address of the obligation was derived with.
    pub key: u64,
}

impl ObligationCollateral {
    /// What [`ObligationCollateral::new`] returns.
    pub open spec fn spec_new(deposit_reserve: Pubkey) -> ObligationCollateral {
        ObligationCollateral {
            deposit_reserve,
            deposited_amount: 0,
            market_value: Decimal::spec_zero(),
            attributed_borrow_value: Decimal::spec_zero(),
        }
    }

    /// An empty deposit in the given reserve.
    pub fn new(deposit_reserve: Pubkey) -> (r: ObligationCollateral)
        ensures
            r == Self::spec_new(deposit_reserve),
    {
        ObligationCollateral {
            deposit_reserve,
            deposited_amount: 0,
            market_value: Decimal::zero(),
            attributed_borrow_value: Decimal::zero(),
        }
    }

    /// The deposit after more was deposited.
    pub open spec fn spec_deposit(self, collateral_amount: u64) -> Result<
        ObligationCollateral,
        ErrorCode,
    > {
        if self.deposited_amount + collateral_amount > u64::MAX {
            Err(ErrorCode::MathOverflow)
        } else {
            Ok(
                ObligationCollateral {
                    deposited_amount: (self.deposited_amount + collateral_amount) as u64,
                    ..self
                },
            )
        }
    }

    /// Increases the collateral deposited.
    pub fn deposit(&mut self, collateral_amount: u64) -> (r: Result<(), ErrorCode>)
        ensures
            commits(r, *old(self), *final(self), old(self).spec_deposit(collateral_amount)),
    {
        match self.deposited_amount.checked_add(collateral_amount) {
            Some(sum) => {
                self.deposited_amount = sum;
                Ok(())
            },
            None => Err(ErrorCode::MathOverflow),
        }
    }

    /// The deposit after some was withdrawn.
    pub open spec fn spec_withdraw(self, collateral_amount: u64) -> Result<
        ObligationCollateral,
        ErrorCode,
    > {
        if collateral_amount > self.deposited_amount {
            Err(ErrorCode::MathOverflow)
        } else {
            Ok(
                ObligationCollateral {
                    deposited_amount: (self.deposited_amount - collateral_amount) as u64,
                    ..self
                },
            )
        }
    }

    /// Decreases the collateral deposited.
    pub fn withdraw(&mut self, collateral_amount: u64) -> (r: Result<(), ErrorCode>)
        ensures
            commits(r, *old(self), *final(self), old(self).spec_withdraw(collateral_amount)),
    {
        match self.deposited_amount.checked_sub(collateral_amount) {
            Some(difference) => {
                self.deposited_amount = difference;
                Ok(())
            },
            None => Err(ErrorCode::MathOverflow),
        }
    }
}

impl ObligationLiquidity {
    /// What [`ObligationLiquidity::new`] returns.
    pub open spec fn spec_new(
        borrow_reserve: Pubkey,
        cumulative_borrow_rate_wads: Decimal,
    ) -> ObligationLiquidity {
        ObligationLiquidity {
            borrow_reserve,
            cumulative_borrow_rate_wads,
            borrowed_amount_wads: Decimal::spec_zero(),
            market_value: Decimal::spec_zero(),
        }
    }

    /// An empty borrow from the given reserve, at the reserve's index of interest.
    pub fn new(borrow_reserve: Pubkey, cumulative_borrow_rate_wads: Decimal) -> (r:
        ObligationLiquidity)
        ensures
            r == Self::spec_new(borrow_reserve, cumulative_borrow_rate_wads),
    {
        ObligationLiquidity {
            borrow_reserve,
            cumulative_borrow_rate_wads,
            borrowed_amount_wads: Decimal::zero(),
            market_value: Decimal::zero(),
        }
    }

    /// The borrow after a repayment.
    pub open spec fn spec_repay(self, settle_amount: Decimal) -> Result<
        ObligationLiquidity,
        ErrorCode,
    > {
        match self.borrowed_amount_wads.spec_try_sub(settle_amount) {
            Err(e) => Err(e),
            Ok(borrowed) => Ok(ObligationLiquidity { borrowed_amount_wads: borrowed, ..self }),
        }
    }

    /// Decreases the liquidity borrowed.
    pub fn repay(&mut self, settle_amount: Decimal) -> (r: Result<(), ErrorCode>)
        ensures
            commits(r, *old(self), *final(self), old(self).spec_repay(settle_amount)),
    {
        let borrowed = self.borrowed_amount_wads.try_sub(settle_amount)?;
        self.borrowed_amount_wads = borrowed;
        Ok(())
    }

    /// The borrow after more was borrowed.
    pub open spec fn spec_borrow(self, borrow_amount: Decimal) -> Result<
        ObligationLiquidity,
        ErrorCode,
    > {
        match self.borrowed_amount_wads.spec_try_add(borrow_amount) {
            Err(e) => Err(e),
            Ok(borrowed) => Ok(ObligationLiquidity { borrowed_amount_wads: borrowed, ..self }),
        }
    }

    /// Increases the liquidity borrowed.
    pub fn borrow(&mut self, borrow_amount: Decimal) -> (r: Result<(), ErrorCode>)
        ensures
            commits(r, *old(self), *final(self), old(self).spec_borrow(borrow_amount)),
    {
        let borrowed = self.borrowed_amount_wads.try_add(borrow_amount)?;
        self.borrowed_amount_wads = borrowed;
        Ok(())
    }

    /// The borrow after interest was accrued up to the given index.
    pub open spec fn spec_accrue_interest(self, cumulative_borrow_rate_wads: Decimal) -> Result<
        ObligationLiquidity,
        ErrorCode,
    > {
        if cumulative_borrow_rate_wads@ < self.cumulative_borrow_rate_wads@ {
            Err(ErrorCode::NegativeInterestRate)
        } else if cumulative_borrow_rate_wads@ == self.cumulative_borrow_rate_wads@ {
            Ok(self)
        } else {
            match cumulative_borrow_rate_wads.spec_try_div(self.cumulative_borrow_rate_wads) {
                Err(e) => Err(e),
                Ok(compounded) => match self.borrowed_amount_wads.spec_try_mul(compounded) {
                    Err(e) => Err(e),
                    Ok(borrowed) => Ok(
                        ObligationLiquidity {
                            borrowed_amount_wads: borrowed,
                            cumulative_borrow_rate_wads,
                            ..self
                        },
                    ),
                },
            }
        }
    }

    /// Accrues interest: the amount borrowed grows as the reserve's index
    /// has grown since interest was last accrued. An index that has fallen is refused.
    pub fn accrue_interest(&mut self, cumulative_borrow_rate_wads: Decimal) -> (r: Result<
        (),
        ErrorCode,
    >)
        ensures
            commits(
                r,
                *old(self),
                *final(self),
                old(self).spec_accrue_interest(cumulative_borrow_rate_wads),
            ),
    {
        if cumulative_borrow_rate_wads.lt(&self.cumulative_borrow_rate_wads) {
            return Err(ErrorCode::NegativeInterestRate);
        }
        if cumulative_borrow_rate_wads.gt(&self.cumulative_borrow_rate_wads) {
            let compounded_interest_rate = cumulative_borrow_rate_wads.try_div(
                self.cumulative_borrow_rate_wads,
            )?;
            let borrowed = self.borrowed_amount_wads.try_mul(compounded_interest_rate)?;
            self.borrowed_amount_wads = borrowed;
            self.cumulative_borrow_rate_wads = cumulative_borrow_rate_wads;
        }
        Ok(())
    }
}

impl Obligation {
    /// What [`Obligation::max_liquidation_amount`] returns.
    pub open spec fn spec_max_liquidation_amount(&self, liquidity: &ObligationLiquidity) -> Result<
        Decimal,
        ErrorCode,
    > {
        match self.borrowed_value.spec_try_mul(
            Decimal::spec_from_percent(LIQUIDATION_CLOSE_FACTOR as nat),
        ) {
            Err(e) => Err(e),
            Ok(close_value) => {
                let max_liquidation_value = close_value.spec_min(liquidity.market_value).spec_min(
                    Decimal::spec_from_int(MAX_LIQUIDATABLE_VALUE_AT_ONCE as nat),
                );
                match max_liquidation_value.spec_try_div(liquidity.market_value) {
                    Err(e) => Err(e),
                    Ok(max_liquidation_pct) => liquidity.borrowed_amount_wads.spec_try_mul(
                        max_liquidation_pct,
                    ),
                }
            },
        }
    }

    /// The greatest amount of a borrow that one liquidation may repay: the
    /// part of the borrow whose value is the close factor's share of the
    /// whole borrowed value, but no more than the borrow is worth and no
    /// more than may be liquidated at once.
    pub fn max_liquidation_amount(&self, liquidity: &ObligationLiquidity) -> (r: Result<
        Decimal,
        ErrorCode,
    >)
        ensures
            r == self.spec_max_liquidation_amount(liquidity),
    {
        let max_liquidation_value = self.borrowed_value.try_mul(
            Decimal::from_percent(LIQUIDATION_CLOSE_FACTOR),
        )?.min(liquidity.market_value).min(Decimal::from_u64(MAX_LIQUIDATABLE_VALUE_AT_ONCE));
        let max_liquidation_pct = max_liquidation_value.try_div(liquidity.market_value)?;
        liquidity.borrowed_amount_wads.try_mul(max_liquidation_pct)
    }
}

/// Whether no entry of `deposits` before `end` belongs to `reserve`.
pub open spec fn no_deposit_before(
    deposits: Seq<ObligationCollateral>,
    reserve: Pubkey,
    end: int,
) -> bool {
    forall|j: int| 0 <= j < end && j < deposits.len() ==> (#[trigger] deposits[j]).deposit_reserve
        != reserve
}

/// Whether no entry of `borrows` before `end` belongs to `reserve`.
pub open spec fn no_borrow_before(borrows: Seq<ObligationLiquidity>, reserve: Pubkey, end: int) -> bool {
    forall|j: int| 0 <= j < end && j < borrows.len() ==> (#[trigger] borrows[j]).borrow_reserve
        != reserve
}

/// Whether `index` is the place of the first entry of `deposits` that belongs to `reserve`.
pub open spec fn first_deposit_at(
    deposits: Seq<ObligationCollateral>,
    reserve: Pubkey,
    index: int,
) -> bool {
    &&& 0 <= index < deposits.len()
    &&& deposits[index].deposit_reserve == reserve
    &&& no_deposit_before(deposits, reserve, index)
}

/// Whether `index` is the place of the first entry of `borrows` that belongs to `reserve`.
pub open spec fn first_borrow_at(
    borrows: Seq<ObligationLiquidity>,
    reserve: Pubkey,
    index: int,
) -> bool {
    &&& 0 <= index < borrows.len()
    &&& borrows[index].borrow_reserve == reserve
    &&& no_borrow_before(borrows, reserve, index)
}

/// The place of the first entry of `deposits` that belongs to `reserve`.
pub open spec fn spec_find_collateral_index(
    deposits: Seq<ObligationCollateral>,
    reserve: Pubkey,
) -> Option<int> {
    if exists|i: int| first_deposit_at(deposits, reserve, i) {
        Some(choose|i: int| first_deposit_at(deposits, reserve, i))
    } else {
        None
    }
}

/// The place of the first entry of `borrows` that belongs to `reserve`.
pub open spec fn spec_find_liquidity_index(
    borrows: Seq<ObligationLiquidity>,
    reserve: Pubkey,
) -> Option<int> {
    if exists|i: int| first_borrow_at(borrows, reserve, i) {
        Some(choose|i: int| first_borrow_at(borrows, reserve, i))
    } else {
        None
    }
}

/// There is one first entry at most, and [`spec_find_collateral_index`] gives it.
pub proof fn lemma_find_collateral_index(
    deposits: Seq<ObligationCollateral>,
    reserve: Pubkey,
    index: int,
)
    ensures
        first_deposit_at(deposits, reserve, index) ==> spec_find_collateral_index(
            deposits,
            reserve,
        ) == Some(index),
        no_deposit_before(deposits, reserve, deposits.len() as int) ==> spec_find_collateral_index(
            deposits,
            reserve,
        ) is None,
{
    if first_deposit_at(deposits, reserve, index) {
        let other = choose|i: int| first_deposit_at(deposits, reserve, i);
        if other < index {
            assert(deposits[other].deposit_reserve != reserve);
        } else if index < other {
            assert(deposits[index].deposit_reserve != reserve);
        }
    }
    if no_deposit_before(deposits, reserve, deposits.len() as int) {
        if exists|i: int| first_deposit_at(deposits, reserve, i) {
            let i = choose|i: int| first_deposit_at(deposits, reserve, i);
            assert(deposits[i].deposit_reserve != reserve);
        }
    }
}

/// There is one first entry at most, and [`spec_find_liquidity_index`] gives it.
pub proof fn lemma_find_liquidity_index(
    borrows: Seq<ObligationLiquidity>,
    reserve: Pubkey,
    index: int,
)
    ensures
        first_borrow_at(borrows, reserve, index) ==> spec_find_liquidity_index(borrows, reserve)
            == Some(index),
        no_borrow_before(borrows, reserve, borrows.len() as int) ==> spec_find_liquidity_index(
            borrows,
            reserve,
        ) is None,
{
    if first_borrow_at(borrows, reserve, index) {
        let other = choose|i: int| first_borrow_at(borrows, reserve, i);
        if other < index {
            assert(borrows[other].borrow_reserve != reserve);
        } else if index < other {
            assert(borrows[index].borrow_reserve != reserve);
        }
    }
    if no_borrow_before(borrows, reserve, borrows.len() as int) {
        if exists|i: int| first_borrow_at(borrows, reserve, i) {
            let i = choose|i: int| first_borrow_at(borrows, reserve, i);
            assert(borrows[i].borrow_reserve != reserve);
        }
    }
}

impl Obligation {
    /// An obligation with the same positions and the same values.
    pub fn duplicate(&self) -> (r: Obligation)
        ensures
            r.deposits@ == self.deposits@,
            r.borrows@ == self.borrows@,
            r == (Obligation { deposits: r.deposits, borrows: r.borrows, ..*self }),
    {
        Obligation {
            version: self.version,
            last_update: self.last_update,
            lending_market: self.lending_market,
            owner: self.owner,
            deposits: copy_of(&self.deposits),
            borrows: copy_of(&self.borrows),
            deposited_value: self.deposited_value,
            borrowed_value: self.borrowed_value,
            unweighted_borrowed_value: self.unweighted_borrowed_value,
            borrowed_value_upper_bound: self.borrowed_value_upper_bound,
            allowed_borrow_value: self.allowed_borrow_value,
            unhealthy_borrow_value: self.unhealthy_borrow_value,
            super_unhealthy_borrow_value: self.super_unhealthy_borrow_value,
            borrowing_isolated_asset: self.borrowing_isolated_asset,
            closeable: self.closeable,
            key: self.key,
        }
    }

    /// No two deposits belong to one reserve, no two borrows either, and
    /// deposits and borrows together are no more than an obligation holds.
    pub open spec fn wf(&self) -> bool {
        &&& self.deposits.len() + self.borrows.len() <= MAX_OBLIGATION_RESERVES
        &&& forall|i: int, j: int|
            0 <= i < j < self.deposits.len() ==> (#[trigger] self.deposits[i]).deposit_reserve != (
            #[trigger] self.deposits[j]).deposit_reserve
        &&& forall|i: int, j: int|
            0 <= i < j < self.borrows.len() ==> (#[trigger] self.borrows[i]).borrow_reserve != (
            #[trigger] self.borrows[j]).borrow_reserve
    }

    /// A new obligation, stale until its first refresh, with no value yet.
    pub fn new(params: InitObligationParams) -> (r: Obligation)
        ensures
            r.version == PROGRAM_VERSION,
            r.last_update == (LastUpdate { slot: params.current_slot, stale: true }),
            r.lending_market == params.lending_market,
            r.owner == params.owner,
            r.deposits == params.deposits,
            r.borrows == params.borrows,
            r.key == params.key,
            r.deposited_value@ == 0,
            r.borrowed_value@ == 0,
            r.unweighted_borrowed_value@ == 0,
            r.borrowed_value_upper_bound@ == 0,
            r.allowed_borrow_value@ == 0,
            r.unhealthy_borrow_value@ == 0,
            r.super_unhealthy_borrow_value@ == 0,
            !r.borrowing_isolated_asset,
            !r.closeable,
    {
        Obligation {
            version: PROGRAM_VERSION,
            last_update: LastUpdate::new(params.current_slot),
            lending_market: params.lending_market,
            owner: params.owner,
            deposits: params.deposits,
            borrows: params.borrows,
            deposited_value: Decimal::zero(),
            borrowed_value: Decimal::zero(),
            unweighted_borrowed_value: Decimal::zero(),
            borrowed_value_upper_bound: Decimal::zero(),
            allowed_borrow_value: Decimal::zero(),
            unhealthy_borrow_value: Decimal::zero(),
            super_unhealthy_borrow_value: Decimal::zero(),
            borrowing_isolated_asset: false,
            closeable: false,
            key: params.key,
        }
    }

    /// Initializes an obligation: the identities, the positions and the key
    /// are replaced, the values and flags are kept.
    pub fn init(&mut self, params: InitObligationParams)
        ensures
            *final(self) == (Obligation {
                version: PROGRAM_VERSION,
                last_update: LastUpdate { slot: params.current_slot, stale: true },
                lending_market: params.lending_market,
                owner: params.owner,
                deposits: params.deposits,
                borrows: params.borrows,
                key: params.key,
                ..*old(self)
            }),
    {
        self.version = PROGRAM_VERSION;
        self.last_update = LastUpdate::new(params.current_slot);
        self.lending_market = params.lending_market;
        self.owner = params.owner;
        self.deposits = params.deposits;
        self.borrows = params.borrows;
        self.key = params.key;
    }

    /// What [`Obligation::loan_to_value`] returns.
    pub open spec fn spec_loan_to_value(&self) -> Result<Decimal, ErrorCode> {
        if self.deposited_value@ == 0 {
            Err(ErrorCode::DivisionByZero)
        } else {
            self.borrowed_value.spec_try_div(self.deposited_value)
        }
    }

    /// The borrowed value over the deposited value.
    pub fn loan_to_value(&self) -> (r: Result<Decimal, ErrorCode>)
        ensures
            r == self.spec_loan_to_value(),
    {
        if self.deposited_value.is_zero() {
            return Err(ErrorCode::DivisionByZero);
        }
        self.borrowed_value.try_div(self.deposited_value)
    }

    /// The borrows after a repayment of the borrow at `liquidity_index`.
    pub open spec fn spec_repay(
        borrows: Seq<ObligationLiquidity>,
        settle_amount: Decimal,
        liquidity_index: int,
    ) -> Result<Seq<ObligationLiquidity>, ErrorCode> {
        if settle_amount@ >= borrows[liquidity_index].borrowed_amount_wads@ {
            Ok(borrows.remove(liquidity_index))
        } else {
            match borrows[liquidity_index].spec_repay(settle_amount) {
                Err(e) => Err(e),
                Ok(liquidity) => Ok(borrows.update(liquidity_index, liquidity)),
            }
        }
    }

    /// Repays liquidity, and removes the borrow once nothing of it is left.
    pub fn repay(&mut self, settle_amount: Decimal, liquidity_index: usize) -> (r: Result<
        (),
        ErrorCode,
    >)
        requires
            liquidity_index < old(self).borrows.len(),
        ensures
            r is Ok,
            Self::spec_repay(old(self).borrows@, settle_amount, liquidity_index as int) == Ok::<
                Seq<ObligationLiquidity>,
                ErrorCode,
            >(final(self).borrows@),
            *final(self) == (Obligation { borrows: final(self).borrows, ..*old(self) }),
            old(self).wf() ==> final(self).wf(),
    {
        let mut liquidity = self.borrows[liquidity_index];
        if settle_amount.ge(&liquidity.borrowed_amount_wads) {
            self.borrows.remove(liquidity_index);
        } else {
            liquidity.repay(settle_amount)?;
            self.borrows[liquidity_index] = liquidity;
        }
        Ok(())
    }

    /// The deposits after a withdrawal from the deposit at `collateral_index`.
    pub open spec fn spec_withdraw(
        deposits: Seq<ObligationCollateral>,
        withdraw_amount: u64,
        collateral_index: int,
    ) -> Result<Seq<ObligationCollateral>, ErrorCode> {
        if withdraw_amount >= deposits[collateral_index].deposited_amount {
            Ok(deposits.remove(collateral_index))
        } else {
            match deposits[collateral_index].spec_withdraw(withdraw_amount) {
                Err(e) => Err(e),
                Ok(collateral) => Ok(deposits.update(collateral_index, collateral)),
            }
        }
    }

    /// Withdraws collateral, and removes the deposit once nothing of it is left.
    pub fn withdraw(&mut self, withdraw_amount: u64, collateral_index: usize) -> (r: Result<
        (),
        ErrorCode,
    >)
        requires
            collateral_index < old(self).deposits.len(),
        ensures
            r is Ok,
            Self::spec_withdraw(old(self).deposits@, withdraw_amount, collateral_index as int)
                == Ok::<Seq<ObligationCollateral>, ErrorCode>(final(self).deposits@),
            *final(self) == (Obligation { deposits: final(self).deposits, ..*old(self) }),
            old(self).wf() ==> final(self).wf(),
    {
        let mut collateral = self.deposits[collateral_index];
        if withdraw_amount >= collateral.deposited_amount {
            self.deposits.remove(collateral_index);
        } else {
            collateral.withdraw(withdraw_amount)?;
            self.deposits[collateral_index] = collateral;
        }
        Ok(())
    }

    /// The collateral that the value still free to back borrows comes to,
    /// before it is held to the amount deposited.
    pub open spec fn spec_free_collateral(&self, withdraw_reserve: &Reserve) -> Result<
        u64,
        ErrorCode,
    > {
        match self.allowed_borrow_value.spec_try_sub(self.borrowed_value_upper_bound) {
            Err(e) => Err(e),
            Ok(free_value) => match free_value.spec_try_div(
                withdraw_reserve.spec_loan_to_value_ratio(),
            ) {
                Err(e) => Err(e),
                Ok(max_withdraw_value) => match spec_pow10(
                    withdraw_reserve.liquidity.mint_decimals as u32,
                ) {
                    Err(e) => Err(e),
                    Ok(decimals) => match max_withdraw_value.spec_try_mul_u128(decimals) {
                        Err(e) => Err(e),
                        Ok(scaled_up) => match scaled_up.spec_try_div(
                            withdraw_reserve.spec_price_lower_bound(),
                        ) {
                            Err(e) => Err(e),
                            Ok(liquidity_amount) => match withdraw_reserve.spec_collateral_exchange_rate() {
                                Err(e) => Err(e),
                                Ok(rate) => match rate.spec_decimal_liquidity_to_collateral(
                                    liquidity_amount,
                                ) {
                                    Err(e) => Err(e),
                                    Ok(collateral_amount) => collateral_amount.spec_try_floor_u64(),
                                },
                            },
                        },
                    },
                },
            },
        }
    }

    /// What [`Obligation::max_withdraw_amount`] returns.
    pub open spec fn spec_max_withdraw_amount(
        &self,
        collateral: &ObligationCollateral,
        withdraw_reserve: &Reserve,
    ) -> Result<u64, ErrorCode> {
        if self.borrows.len() == 0 {
            Ok(collateral.deposited_amount)
        } else if self.allowed_borrow_value@ <= self.borrowed_value_upper_bound@ {
            Ok(0)
        } else if withdraw_reserve.spec_loan_to_value_ratio()@ == 0 {
            Ok(collateral.deposited_amount)
        } else {
            match self.spec_free_collateral(withdraw_reserve) {
                Err(e) => Err(e),
                Ok(free) => Ok(
                    if free < collateral.deposited_amount {
                        free
                    } else {
                        collateral.deposited_amount
                    },
                ),
            }
        }
    }

    /// The greatest amount of the given collateral that can be withdrawn.
    ///
    /// An obligation without borrows can withdraw all of it. One that has
    /// borrowed as much as it is allowed to, at the upper bound of the
    /// prices, can withdraw nothing. Otherwise the value still free to back
    /// borrows, divided by the loan to value ratio of the reserve, is what
    /// can be withdrawn: it is turned into liquidity at the lower bound of
    /// the price, that into collateral at the exchange rate, rounded down,
    /// and no more than is deposited. A reserve whose collateral backs
    /// nothing lets all of it go.
    pub fn max_withdraw_amount(
        &self,
        collateral: &ObligationCollateral,
        withdraw_reserve: &Reserve,
    ) -> (r: Result<u64, ErrorCode>)
        ensures
            r == self.spec_max_withdraw_amount(collateral, withdraw_reserve),
            r is Ok ==> r->Ok_0 <= collateral.deposited_amount,
            self.borrows.len() == 0 ==> r == Ok::<u64, ErrorCode>(collateral.deposited_amount),
    {
        if self.borrows.len() == 0 {
            return Ok(collateral.deposited_amount);
        }
        if self.allowed_borrow_value.le(&self.borrowed_value_upper_bound) {
            return Ok(0);
        }
        let loan_to_value_ratio = withdraw_reserve.loan_to_value_ratio();
        if loan_to_value_ratio.is_zero() {
            return Ok(collateral.deposited_amount);
        }
        // the value that may leave
        let max_withdraw_value = self.allowed_borrow_value.try_sub(
            self.borrowed_value_upper_bound,
        )?.try_div(loan_to_value_ratio)?;
        // as an amount of liquidity
        let price = withdraw_reserve.price_lower_bound();
        let decimals: u128 = pow10(withdraw_reserve.liquidity.mint_decimals as u32)?;
        let max_withdraw_liquidity_amount = max_withdraw_value.try_mul_u128(decimals)?.try_div(
            price,
        )?;
        // as an amount of collateral
        let collateral_amount: u64 =
            withdraw_reserve.collateral_exchange_rate()?.decimal_liquidity_to_collateral(
            max_withdraw_liquidity_amount,
        )?.try_floor_u64()?;
        Ok(
            if collateral_amount < collateral.deposited_amount {
                collateral_amount
            } else {
                collateral.deposited_amount
            },
        )
    }

    /// What [`Obligation::remaining_borrow_value`] returns.
    pub open spec fn spec_remaining_borrow_value(&self) -> Result<Decimal, ErrorCode> {
        self.allowed_borrow_value.spec_try_sub(self.borrowed_value_upper_bound)
    }

    /// The value that can still be borrowed.
    pub fn remaining_borrow_value(&self) -> (r: Result<Decimal, ErrorCode>)
        ensures
            r == self.spec_remaining_borrow_value(),
    {
        self.allowed_borrow_value.try_sub(self.borrowed_value_upper_bound)
    }

    /// The deposit in the given reserve and its place among the deposits.
    pub fn find_collateral_in_deposits(&self, deposit_reserve: Pubkey) -> (r: Result<
        (&ObligationCollateral, usize),
        ErrorCode,
    >)
        ensures
            match r {
                Ok((collateral, index)) => first_deposit_at(
                    self.deposits@,
                    deposit_reserve,
                    index as int,
                ) && *collateral == self.deposits[index as int] && spec_find_collateral_index(
                    self.deposits@,
                    deposit_reserve,
                ) == Some(index as int),
                Err(e) => no_deposit_before(
                    self.deposits@,
                    deposit_reserve,
                    self.deposits.len() as int,
                ) && spec_find_collateral_index(self.deposits@, deposit_reserve) is None && e == (
                if self.deposits.len() == 0 {
                    ErrorCode::ObligationDepositsEmpty
                } else {
                    ErrorCode::InvalidObligationCollateral
                }),
            },
    {
        if self.deposits.len() == 0 {
            return Err(ErrorCode::ObligationDepositsEmpty);
        }
        match self._find_collateral_index_in_deposits(deposit_reserve) {
            Some(collateral_index) => Ok((&self.deposits[collateral_index], collateral_index)),
            None => Err(ErrorCode::InvalidObligationCollateral),
        }
    }

    /// The place of the deposit in the given reserve; an empty deposit is
    /// added at the end where there is none yet and the obligation can hold
    /// one more position.
    pub fn find_or_add_collateral_to_deposits(&mut self, deposit_reserve: Pubkey) -> (r: Result<
        usize,
        ErrorCode,
    >)
        ensures
            *final(self) == (Obligation { deposits: final(self).deposits, ..*old(self) }),
            match r {
                Ok(index) => first_deposit_at(final(self).deposits@, deposit_reserve, index as int)
                    && (if index < old(self).deposits.len() {
                    *final(self) == *old(self)
                } else {
                    final(self).deposits@ == old(self).deposits@.push(
                        ObligationCollateral::spec_new(deposit_reserve),
                    ) && old(self).deposits.len() + old(self).borrows.len()
                        < MAX_OBLIGATION_RESERVES
                }),
                Err(e) => e == ErrorCode::ObligationReserveLimit && no_deposit_before(
                    old(self).deposits@,
                    deposit_reserve,
                    old(self).deposits.len() as int,
                ) && old(self).deposits.len() + old(self).borrows.len() >= MAX_OBLIGATION_RESERVES
                    && *final(self) == *old(self),
            },
            old(self).wf() ==> final(self).wf(),
    {
        if let Some(collateral_index) = self._find_collateral_index_in_deposits(deposit_reserve) {
            return Ok(collateral_index);
        }
        if self.deposits.len() >= MAX_OBLIGATION_RESERVES || self.borrows.len()
            >= MAX_OBLIGATION_RESERVES - self.deposits.len() {
            return Err(ErrorCode::ObligationReserveLimit);
        }
        let collateral = ObligationCollateral::new(deposit_reserve);
        self.deposits.push(collateral);
        Ok(self.deposits.len() - 1)
    }

    fn _find_collateral_index_in_deposits(&self, deposit_reserve: Pubkey) -> (r: Option<usize>)
        ensures
            match r {
                Some(index) => first_deposit_at(self.deposits@, deposit_reserve, index as int),
                None => no_deposit_before(
                    self.deposits@,
                    deposit_reserve,
                    self.deposits.len() as int,
                ),
            },
            spec_find_collateral_index(self.deposits@, deposit_reserve) == (match r {
                Some(index) => Some(index as int),
                None => None,
            }),
    {
        let mut i: usize = 0;
        while i < self.deposits.len()
            invariant
                i <= self.deposits.len(),
                no_deposit_before(self.deposits@, deposit_reserve, i as int),
            decreases self.deposits.len() - i,
        {
            if self.deposits[i].deposit_reserve.equals(&deposit_reserve) {
                proof {
                    lemma_find_collateral_index(self.deposits@, deposit_reserve, i as int);
                }
                return Some(i);
            }
            i = i + 1;
        }
        proof {
            lemma_find_collateral_index(self.deposits@, deposit_reserve, 0);
        }
        None
    }

    /// The borrow from the given reserve and its place among the borrows.
    pub fn find_liquidity_in_borrows(&self, borrow_reserve: Pubkey) -> (r: Result<
        (&ObligationLiquidity, usize),
        ErrorCode,
    >)
        ensures
            match r {
                Ok((liquidity, index)) => first_borrow_at(
                    self.borrows@,
                    borrow_reserve,
                    index as int,
                ) && *liquidity == self.borrows[index as int],
                Err(e) => no_borrow_before(self.borrows@, borrow_reserve, self.borrows.len() as int)
                    && e == (if self.borrows.len() == 0 {
                    ErrorCode::ObligationBorrowsEmpty
                } else {
                    ErrorCode::InvalidObligationLiquidity
                }),
            },
    {
        if self.borrows.len() == 0 {
            return Err(ErrorCode::ObligationBorrowsEmpty);
        }
        match self._find_liquidity_index_in_borrows(borrow_reserve) {
            Some(liquidity_index) => Ok((&self.borrows[liquidity_index], liquidity_index)),
            None => Err(ErrorCode::InvalidObligationLiquidity),
        }
    }

    /// The place among the borrows of the borrow from the given reserve,
    /// for a caller that goes on to change it.
    pub fn find_liquidity_in_borrows_mut(&mut self, borrow_reserve: Pubkey) -> (r: Result<
        usize,
        ErrorCode,
    >)
        ensures
            *final(self) == *old(self),
            match r {
                Ok(index) => first_borrow_at(old(self).borrows@, borrow_reserve, index as int),
                Err(e) => no_borrow_before(
                    old(self).borrows@,
                    borrow_reserve,
                    old(self).borrows.len() as int,
                ) && e == (if old(self).borrows.len() == 0 {
                    ErrorCode::ObligationBorrowsEmpty
                } else {
                    ErrorCode::InvalidObligationLiquidity
                }),
            },
    {
        if self.borrows.len() == 0 {
            return Err(ErrorCode::ObligationBorrowsEmpty);
        }
        match self._find_liquidity_index_in_borrows(borrow_reserve) {
            Some(liquidity_index) => Ok(liquidity_index),
            None => Err(ErrorCode::InvalidObligationLiquidity),
        }
    }

    /// The place of the borrow from the given reserve; an empty borrow at
    /// the given index of interest is added at the end where there is none
    /// yet and the obligation can hold one more position.
    pub fn find_or_add_liquidity_to_borrows(
        &mut self,
        borrow_reserve: Pubkey,
        cumulative_borrow_rate_wads: Decimal,
    ) -> (r: Result<usize, ErrorCode>)
        ensures
            *final(self) == (Obligation { borrows: final(self).borrows, ..*old(self) }),
            match r {
                Ok(index) => first_borrow_at(final(self).borrows@, borrow_reserve, index as int)
                    && (if index < old(self).borrows.len() {
                    *final(self) == *old(self)
                } else {
                    final(self).borrows@ == old(self).borrows@.push(
                        ObligationLiquidity::spec_new(borrow_reserve, cumulative_borrow_rate_wads),
                    ) && old(self).deposits.len() + old(self).borrows.len()
                        < MAX_OBLIGATION_RESERVES
                }),
                Err(e) => e == ErrorCode::ObligationReserveLimit && no_borrow_before(
                    old(self).borrows@,
                    borrow_reserve,
                    old(self).borrows.len() as int,
                ) && old(self).deposits.len() + old(self).borrows.len() >= MAX_OBLIGATION_RESERVES
                    && *final(self) == *old(self),
            },
            old(self).wf() ==> final(self).wf(),
    {
        if let Some(liquidity_index) = self._find_liquidity_index_in_borrows(borrow_reserve) {
            return Ok(liquidity_index);
        }
        if self.deposits.len() >= MAX_OBLIGATION_RESERVES || self.borrows.len()
            >= MAX_OBLIGATION_RESERVES - self.deposits.len() {
            return Err(ErrorCode::ObligationReserveLimit);
        }
        let liquidity = ObligationLiquidity::new(borrow_reserve, cumulative_borrow_rate_wads);
        self.borrows.push(liquidity);
        Ok(self.borrows.len() - 1)
    }

    fn _find_liquidity_index_in_borrows(&self, borrow_reserve: Pubkey) -> (r: Option<usize>)
        ensures
            match r {
                Some(index) => first_borrow_at(self.borrows@, borrow_reserve, index as int),
                None => no_borrow_before(self.borrows@, borrow_reserve, self.borrows.len() as int),
            },
            spec_find_liquidity_index(self.borrows@, borrow_reserve) == (match r {
                Some(index) => Some(index as int),
                None => None,
            }),
    {
        let mut i: usize = 0;
        while i < self.borrows.len()
            invariant
                i <= self.borrows.len(),
                no_borrow_before(self.borrows@, borrow_reserve, i as int),
            decreases self.borrows.len() - i,
        {
            if self.borrows[i].borrow_reserve.equals(&borrow_reserve) {
                proof {
                    lemma_find_liquidity_index(self.borrows@, borrow_reserve, i as int);
                }
                return Some(i);
            }
            i = i + 1;
        }
        proof {
            lemma_find_liquidity_index(self.borrows@, borrow_reserve, 0);
        }
        None
    }
}

} // verus!
