//! Risk parameters and fees of a reserve.

use crate::error::ErrorCode;
use crate::math::common::WAD;
use crate::math::decimal::Decimal;
use crate::pubkey::Pubkey;
use vstd::prelude::*;
use vstd::string::StringSliceAdditionalSpecFns;

verus! {

/// Percentage of an obligation that can be repaid during each liquidation call.
pub const LIQUIDATION_CLOSE_FACTOR: u8 = 20;

/// Obligation borrow amount that is small enough to close out.
pub const LIQUIDATION_CLOSE_AMOUNT: u64 = 2;

/// Maximum quote currency value that can be liquidated in one call.
pub const MAX_LIQUIDATABLE_VALUE_AT_ONCE: u64 = 500_000;

/// Maximum bonus received during liquidation, as a percentage; includes the protocol fee.
pub const MAX_BONUS_PCT: u8 = 25;

/// Maximum protocol liquidation fee in deca bps (1 deca bp = 10 bps).
pub const MAX_PROTOCOL_LIQUIDATION_FEE_DECA_BPS: u8 = 50;

/// Upper bound on the scaled price offset.
pub const MAX_SCALED_PRICE_OFFSET_BPS: i64 = 2000;

/// Lower bound on the scaled price offset.
pub const MIN_SCALED_PRICE_OFFSET_BPS: i64 = -2000;

/// Whether an asset can back loans.
#[derive(Clone, Copy, Debug, Default, PartialEq, Eq, Structural)]
pub enum ReserveType {
    /// This asset can be used as collateral.
    #[default]
    Regular,
    /// This asset cannot be used as collateral and can only be borrowed in isolation.
    Isolated,
}

/// The bytes of the name `Regular`.
pub open spec fn regular_name() -> Seq<u8> {
    seq![82u8, 101u8, 103u8, 117u8, 108u8, 97u8, 114u8]
}

/// The bytes of the name `Isolated`.
pub open spec fn isolated_name() -> Seq<u8> {
    seq![73u8, 115u8, 111u8, 108u8, 97u8, 116u8, 101u8, 100u8]
}

fn same_bytes(a: &[u8], b: &[u8]) -> (r: bool)
    ensures
        r == (a@ == b@),
{
    if a.len() != b.len() {
        return false;
    }
    let mut i: usize = 0;
    while i < a.len()
        invariant
            i <= a.len(),
            a.len() == b.len(),
            a@.subrange(0, i as int) == b@.subrange(0, i as int),
        decreases a.len() - i,
    {
        if a[i] != b[i] {
            assert(a@[i as int] != b@[i as int]);
            return false;
        }
        assert(a@.subrange(0, i + 1) == a@.subrange(0, i as int).push(a@[i as int]));
        assert(b@.subrange(0, i + 1) == b@.subrange(0, i as int).push(b@[i as int]));
        i = i + 1;
    }
    assert(a@ == a@.subrange(0, a.len() as int));
    assert(b@ == b@.subrange(0, b.len() as int));
    true
}

impl ReserveType {
    /// The type whose name the bytes spell: `Regular` or `Isolated`, spelt
    /// exactly so; any other name is refused.
    pub open spec fn spec_from_name(name: Seq<u8>) -> Result<ReserveType, ErrorCode> {
        if name == regular_name() {
            Ok(ReserveType::Regular)
        } else if name == isolated_name() {
            Ok(ReserveType::Isolated)
        } else {
            Err(ErrorCode::InvalidConfig)
        }
    }

    /// The type of that name: `Regular` or `Isolated`, spelt exactly so.
    pub fn from_name(input: &str) -> (r: Result<ReserveType, ErrorCode>)
        ensures
            r == Self::spec_from_name(input.spec_bytes()),
    {
        let regular: [u8; 7] = [82, 101, 103, 117, 108, 97, 114];
        let isolated: [u8; 8] = [73, 115, 111, 108, 97, 116, 101, 100];
        assert(regular@ == regular_name());
        assert(isolated@ == isolated_name());
        let bytes = input.as_bytes();
        if same_bytes(bytes, &regular) {
            Ok(ReserveType::Regular)
        } else if same_bytes(bytes, &isolated) {
            Ok(ReserveType::Isolated)
        } else {
            Err(ErrorCode::InvalidConfig)
        }
    }
}

impl std::str::FromStr for ReserveType {
    type Err = ErrorCode;

    /// The type of that name: `Regular` or `Isolated`, spelt exactly so.
    fn from_str(input: &str) -> (r: Result<ReserveType, ErrorCode>)
        ensures
            r == ReserveType::spec_from_name(input.spec_bytes()),
    {
        ReserveType::from_name(input)
    }
}

/// Whether a fee is added to an amount or taken out of it.
#[derive(Clone, Copy, Debug, PartialEq, Eq, Structural)]
pub enum FeeCalculation {
    /// Fee added to the amount: fee = rate * amount.
    Exclusive,
    /// Fee included in the amount: fee = (rate / (1 + rate)) * amount.
    Inclusive,
}

/// Fees of a reserve that are not interest.
///
/// They are taken as a share of the liquidity borrowed, for the owner of the
/// program and for the host of the front end.
#[derive(Clone, Copy, Debug, Default, PartialEq, Eq, Structural)]
pub struct ReserveFees {
    /// Fee on a borrow, as a scaled value: [`WAD`] stands for the whole amount.
    pub borrow_fee_wad: u64,
    /// Fee on a flash loan, as a scaled value.
    pub flash_loan_fee_wad: u64,
    /// Share of a fee that goes to the host, as a percentage.
    pub host_fee_percentage: u8,
}

impl ReserveFees {
    /// The least fee: one unit for the owner, and one for the host if it takes a share.
    pub open spec fn spec_minimum_fee(&self) -> u64 {
        if self.host_fee_percentage > 0 {
            2
        } else {
            1
        }
    }

    /// The share of `amount` that a fee of the given rate comes to, before the
    /// least fee is applied.
    pub open spec fn spec_fee_share(
        amount: Decimal,
        fee_wad: u64,
        fee_calculation: FeeCalculation,
    ) -> Result<Decimal, ErrorCode> {
        let rate = Decimal::spec_from_scaled_val(fee_wad as nat);
        match fee_calculation {
            FeeCalculation::Exclusive => amount.spec_try_mul(rate),
            FeeCalculation::Inclusive => match rate.spec_try_add(Decimal::spec_one()) {
                Err(e) => Err(e),
                Ok(with_whole) => match rate.spec_try_div(with_whole) {
                    Err(e) => Err(e),
                    Ok(inclusive_rate) => amount.spec_try_mul(inclusive_rate),
                },
            },
        }
    }

    /// The host's part of a fee: its share rounded down, but one unit at least.
    pub open spec fn spec_host_fee(&self, fee: Decimal) -> Result<u64, ErrorCode> {
        if self.host_fee_percentage == 0 {
            Ok(0)
        } else {
            match fee.spec_try_mul(Decimal::spec_from_percent(self.host_fee_percentage as nat)) {
                Err(e) => Err(e),
                Ok(share) => match share.spec_try_floor_u64() {
                    Err(e) => Err(e),
                    Ok(host_fee) => Ok(
                        if host_fee < 1 {
                            1
                        } else {
                            host_fee
                        },
                    ),
                },
            }
        }
    }

    /// The whole fee on `amount` and the host's part of it.
    ///
    /// Nothing is taken where the rate or the amount is zero. Otherwise the
    /// fee is the share of the amount that the rate gives, but the least fee
    /// at least, rounded down to whole units; a fee that leaves nothing of
    /// the amount is refused.
    pub open spec fn spec_calculate_fees(
        &self,
        amount: Decimal,
        fee_wad: u64,
        fee_calculation: FeeCalculation,
    ) -> Result<(u64, u64), ErrorCode> {
        if fee_wad == 0 || amount@ == 0 {
            Ok((0, 0))
        } else {
            match Self::spec_fee_share(amount, fee_wad, fee_calculation) {
                Err(e) => Err(e),
                Ok(share) => {
                    let fee = share.spec_max(Decimal::spec_from_int(self.spec_minimum_fee() as nat));
                    if fee@ >= amount@ {
                        Err(ErrorCode::BorrowTooSmall)
                    } else {
                        match fee.spec_try_floor_u64() {
                            Err(e) => Err(e),
                            Ok(borrow_fee) => match self.spec_host_fee(fee) {
                                Err(e) => Err(e),
                                Ok(host_fee) => Ok((borrow_fee, host_fee)),
                            },
                        }
                    }
                },
            }
        }
    }

    /// What [`ReserveFees::calculate_flash_loan_fees`] returns.
    pub open spec fn spec_calculate_flash_loan_fees(&self, flash_loan_amount: Decimal) -> Result<
        (u64, u64),
        ErrorCode,
    > {
        match self.spec_calculate_fees(
            flash_loan_amount,
            self.flash_loan_fee_wad,
            FeeCalculation::Exclusive,
        ) {
            Err(e) => Err(e),
            Ok((total_fees, host_fee)) => if total_fees < host_fee {
                Err(ErrorCode::MathOverflow)
            } else {
                Ok(((total_fees - host_fee) as u64, host_fee))
            },
        }
    }

    /// The fee on a borrow and the host's part of it.
    pub fn calculate_borrow_fees(
        &self,
        borrow_amount: Decimal,
        fee_calculation: FeeCalculation,
    ) -> (r: Result<(u64, u64), ErrorCode>)
        ensures
            r == self.spec_calculate_fees(borrow_amount, self.borrow_fee_wad, fee_calculation),
    {
        self.calculate_fees(borrow_amount, self.borrow_fee_wad, fee_calculation)
    }

    /// The owner's part and the host's part of the fee on a flash loan.
    pub fn calculate_flash_loan_fees(&self, flash_loan_amount: Decimal) -> (r: Result<
        (u64, u64),
        ErrorCode,
    >)
        ensures
            r == self.spec_calculate_flash_loan_fees(flash_loan_amount),
    {
        let (total_fees, host_fee) = self.calculate_fees(
            flash_loan_amount,
            self.flash_loan_fee_wad,
            FeeCalculation::Exclusive,
        )?;
        match total_fees.checked_sub(host_fee) {
            Some(origination_fee) => Ok((origination_fee, host_fee)),
            None => Err(ErrorCode::MathOverflow),
        }
    }

    fn calculate_fees(&self, amount: Decimal, fee_wad: u64, fee_calculation: FeeCalculation) -> (r:
        Result<(u64, u64), ErrorCode>)
        ensures
            r == self.spec_calculate_fees(amount, fee_wad, fee_calculation),
    {
        let borrow_fee_rate = Decimal::from_scaled_val(fee_wad as u128);
        if fee_wad > 0 && !amount.is_zero() {
            let need_to_assess_host_fee = self.host_fee_percentage > 0;
            let minimum_fee: u64 = if need_to_assess_host_fee {
                2u64  // 1 token to owner, 1 to host
            } else {
                1u64  // 1 token to owner, nothing else
            };
            let borrow_fee_amount = match fee_calculation {
                // fee to be added to the amount: fee = amount * rate
                FeeCalculation::Exclusive => amount.try_mul(borrow_fee_rate)?,
                // fee to be taken out of the amount: fee = amount * (rate / (rate + 1))
                FeeCalculation::Inclusive => {
                    let inclusive_rate = borrow_fee_rate.try_div(
                        borrow_fee_rate.try_add(Decimal::one())?,
                    )?;
                    amount.try_mul(inclusive_rate)?
                },
            };
            let borrow_fee_decimal = borrow_fee_amount.max(Decimal::from_u64(minimum_fee));
            if borrow_fee_decimal.ge(&amount) {
                return Err(ErrorCode::BorrowTooSmall);
            }
            let borrow_fee: u64 = borrow_fee_decimal.try_floor_u64()?;
            let host_fee: u64 = if need_to_assess_host_fee {
                let share: u64 = borrow_fee_decimal.try_mul(
                    Decimal::from_percent(self.host_fee_percentage),
                )?.try_floor_u64()?;
                if share < 1 {
                    1
                } else {
                    share
                }
            } else {
                0
            };
            Ok((borrow_fee, host_fee))
        } else {
            Ok((0, 0))
        }
    }
}

/// Risk parameters of a reserve.
#[derive(Clone, Copy, Debug, Default, PartialEq, Eq)]
pub struct ReserveConfig {
    /// Optimal utilization rate, as a percentage.
    pub optimal_utilization_rate: u8,
    /// Unhealthy utilization rate, as a percentage.
    pub max_utilization_rate: u8,
    /// Target ratio of the value of borrows to deposits, as a percentage;
    /// 0 if use as collateral is disabled.
    pub loan_to_value_ratio: u8,
    /// The least bonus a liquidator gets, as a percentage.
    pub liquidation_bonus: u8,
    /// The greatest bonus a liquidator gets, as a percentage.
    pub max_liquidation_bonus: u8,
    /// Loan to value ratio at which an obligation can be liquidated, as a percentage.
    pub liquidation_threshold: u8,
    /// Loan to value ratio at which an obligation can be liquidated for the
    /// greatest bonus, as a percentage.
    pub max_liquidation_threshold: u8,
    /// Borrow rate at no utilization, as a percentage a year.
    pub min_borrow_rate: u8,
    /// Borrow rate at optimal utilization, as a percentage a year.
    pub optimal_borrow_rate: u8,
    /// Borrow rate at the unhealthy utilization, as a percentage a year.
    pub max_borrow_rate: u8,
    /// Borrow rate at full utilization, as a percentage a year.
    pub super_max_borrow_rate: u64,
    /// Fees that are not interest.
    pub fees: ReserveFees,
    /// Greatest supply of liquidity, in native units.
    pub deposit_limit: u64,
    /// Greatest amount borrowed, in native units.
    pub borrow_limit: u64,
    /// Address that receives the fees.
    pub fee_receiver: Pubkey,
    /// Part of the liquidation bonus that the protocol takes, in deca bps.
    pub protocol_liquidation_fee: u8,
    /// Part of the interest that the protocol takes, as a percentage.
    pub protocol_take_rate: u8,
    /// Added borrow weight in basis points.
    pub added_borrow_weight_bps: u64,
    /// Whether the asset can back loans.
    pub reserve_type: ReserveType,
    /// Offset of the price in basis points, for staked assets.
    pub scaled_price_offset_bps: i64,
    /// A second oracle, used only to limit borrows and withdrawals.
    pub extra_oracle_pubkey: Option<Pubkey>,
    /// Attributed borrow value from which nothing more may be opened.
    pub attributed_borrow_limit_open: u64,
    /// Attributed borrow value from which nothing may be withdrawn.
    pub attributed_borrow_limit_close: u64,
}

impl ReserveConfig {
    /// Every bound that a configuration has to keep.
    pub open spec fn valid(&self) -> bool {
        &&& self.optimal_utilization_rate <= self.max_utilization_rate <= 100
        &&& self.loan_to_value_ratio < 100
        &&& self.liquidation_bonus <= self.max_liquidation_bonus <= 100
        &&& self.loan_to_value_ratio <= self.liquidation_threshold
            <= self.max_liquidation_threshold <= 100
        &&& self.min_borrow_rate <= self.optimal_borrow_rate <= self.max_borrow_rate
            <= self.super_max_borrow_rate
        &&& self.fees.borrow_fee_wad < WAD
        &&& self.fees.host_fee_percentage <= 100
        &&& self.protocol_liquidation_fee <= MAX_PROTOCOL_LIQUIDATION_FEE_DECA_BPS
        &&& self.max_liquidation_bonus * 100 + self.protocol_liquidation_fee * 10 <= MAX_BONUS_PCT
            * 100
        &&& self.protocol_take_rate <= 100
        &&& (self.reserve_type == ReserveType::Isolated ==> self.loan_to_value_ratio == 0
            && self.liquidation_threshold == 0)
        &&& MIN_SCALED_PRICE_OFFSET_BPS <= self.scaled_price_offset_bps
            <= MAX_SCALED_PRICE_OFFSET_BPS
        &&& self.attributed_borrow_limit_open <= self.attributed_borrow_limit_close
    }
}

/// Accepts a configuration that keeps every bound, and refuses any other.
pub fn validate_reserve_config(config: ReserveConfig) -> (r: Result<(), ErrorCode>)
    ensures
        r == (if config.valid() {
            Ok::<(), ErrorCode>(())
        } else {
            Err(ErrorCode::InvalidConfig)
        }),
{
    if config.optimal_utilization_rate > 100 {
        return Err(ErrorCode::InvalidConfig);
    }
    if config.max_utilization_rate < config.optimal_utilization_rate
        || config.max_utilization_rate > 100 {
        return Err(ErrorCode::InvalidConfig);
    }
    if config.loan_to_value_ratio >= 100 {
        return Err(ErrorCode::InvalidConfig);
    }
    if config.liquidation_bonus > 100 {
        return Err(ErrorCode::InvalidConfig);
    }
    if config.max_liquidation_bonus < config.liquidation_bonus || config.max_liquidation_bonus
        > 100 {
        return Err(ErrorCode::InvalidConfig);
    }
    if config.liquidation_threshold < config.loan_to_value_ratio || config.liquidation_threshold
        > 100 {
        return Err(ErrorCode::InvalidConfig);
    }
    if config.max_liquidation_threshold < config.liquidation_threshold
        || config.max_liquidation_threshold > 100 {
        return Err(ErrorCode::InvalidConfig);
    }
    if config.optimal_borrow_rate < config.min_borrow_rate {
        return Err(ErrorCode::InvalidConfig);
    }
    if config.optimal_borrow_rate > config.max_borrow_rate {
        return Err(ErrorCode::InvalidConfig);
    }
    if config.super_max_borrow_rate < config.max_borrow_rate as u64 {
        return Err(ErrorCode::InvalidConfig);
    }
    if config.fees.borrow_fee_wad >= WAD {
        return Err(ErrorCode::InvalidConfig);
    }
    if config.fees.host_fee_percentage > 100 {
        return Err(ErrorCode::InvalidConfig);
    }
    if config.protocol_liquidation_fee > MAX_PROTOCOL_LIQUIDATION_FEE_DECA_BPS {
        return Err(ErrorCode::InvalidConfig);
    }
    if config.max_liquidation_bonus as u64 * 100 + config.protocol_liquidation_fee as u64 * 10
        > MAX_BONUS_PCT as u64 * 100 {
        return Err(ErrorCode::InvalidConfig);
    }
    if config.protocol_take_rate > 100 {
        return Err(ErrorCode::InvalidConfig);
    }
    if config.reserve_type == ReserveType::Isolated && !(config.loan_to_value_ratio == 0
        && config.liquidation_threshold == 0) {
        return Err(ErrorCode::InvalidConfig);
    }
    if config.scaled_price_offset_bps < MIN_SCALED_PRICE_OFFSET_BPS
        || config.scaled_price_offset_bps > MAX_SCALED_PRICE_OFFSET_BPS {
        return Err(ErrorCode::InvalidConfig);
    }
    if config.attributed_borrow_limit_open > config.attributed_borrow_limit_close {
        return Err(ErrorCode::InvalidConfig);
    }
    Ok(())
}

} // verus!
