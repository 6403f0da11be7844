use splyce_lending::error::ErrorCode;
use splyce_lending::math::common::WAD;
use splyce_lending::math::decimal::Decimal;
use splyce_lending::pubkey::Pubkey;
use splyce_lending::state::obligation::{Obligation, ObligationCollateral, ObligationLiquidity};
use splyce_lending::state::rate_limiter::RateLimiterConfig;
use splyce_lending::state::reserve::{
    Bonus, CalculateBorrowResult, CalculateLiquidationResult, CalculateRepayResult,
    InitReserveParams, Reserve,
};
use splyce_lending::state::reserve_collateral::{
    CollateralExchangeRate, NewReserveCollateralParams, ReserveCollateral,
};
use splyce_lending::state::reserve_config::{
    validate_reserve_config, FeeCalculation, ReserveConfig, ReserveFees, ReserveType,
};
use splyce_lending::state::reserve_liquidity::{NewReserveLiquidityParams, ReserveLiquidity};

fn key(n: u8) -> Pubkey {
    Pubkey([n; 32])
}

fn scaled(value: u128) -> Decimal {
    Decimal::from_scaled_val(value)
}

fn percent(value: u8) -> Decimal {
    Decimal::from_percent(value)
}

fn config() -> ReserveConfig {
    ReserveConfig {
        optimal_utilization_rate: 80,
        max_utilization_rate: 90,
        loan_to_value_ratio: 50,
        liquidation_bonus: 5,
        max_liquidation_bonus: 10,
        liquidation_threshold: 55,
        max_liquidation_threshold: 65,
        min_borrow_rate: 2,
        optimal_borrow_rate: 8,
        max_borrow_rate: 50,
        super_max_borrow_rate: 150,
        fees: ReserveFees {
            borrow_fee_wad: 10_000_000_000_000_000,
            flash_loan_fee_wad: 3_000_000_000_000_000,
            host_fee_percentage: 20,
        },
        deposit_limit: 1_000_000,
        borrow_limit: u64::MAX,
        fee_receiver: key(9),
        protocol_liquidation_fee: 10,
        protocol_take_rate: 10,
        added_borrow_weight_bps: 0,
        reserve_type: ReserveType::Regular,
        scaled_price_offset_bps: 0,
        extra_oracle_pubkey: None,
        attributed_borrow_limit_open: u64::MAX,
        attributed_borrow_limit_close: u64::MAX,
    }
}

fn reserve() -> Reserve {
    Reserve::new(InitReserveParams {
        current_slot: 0,
        lending_market: key(1),
        liquidity: ReserveLiquidity::new(NewReserveLiquidityParams {
            mint_pubkey: key(2),
            mint_decimals: 6,
            supply_pubkey: key(3),
            pyth_oracle_feed_id: [7; 32],
            market_price: Decimal::from(10u64),
            smoothed_market_price: Decimal::from(10u64),
        }),
        collateral: ReserveCollateral::new(NewReserveCollateralParams {
            mint_pubkey: key(4),
            supply_pubkey: key(5),
        }),
        config: config(),
        rate_limiter_config: RateLimiterConfig { window_duration: 0, max_outflow: 0 },
        key: 11,
    })
}

fn reserve_with(available: u64, borrowed: u64, minted: u64) -> Reserve {
    let mut r = reserve();
    r.liquidity.available_amount = available;
    r.liquidity.borrowed_amount_wads = Decimal::from(borrowed);
    r.collateral.mint_total_supply = minted;
    r
}

#[test]
fn new_reserve_is_empty_and_stale() {
    let r = reserve();
    assert_eq!(r.version, 1);
    assert!(r.last_update.stale);
    assert_eq!(r.last_update.slot, 0);
    assert_eq!(r.liquidity.available_amount, 0);
    assert_eq!(r.liquidity.borrowed_amount_wads, Decimal::zero());
    assert_eq!(r.liquidity.cumulative_borrow_rate_wads, Decimal::one());
    assert_eq!(r.liquidity.accumulated_protocol_fees_wads, Decimal::zero());
    assert_eq!(r.liquidity.extra_market_price, None);
    assert_eq!(r.collateral.mint_total_supply, 0);
    assert_eq!(r.attributed_borrow_value, Decimal::zero());
    assert_eq!(r.key, 11);
    let mut other = Reserve::default();
    other.init(InitReserveParams {
        current_slot: 0,
        lending_market: key(1),
        liquidity: r.liquidity,
        collateral: r.collateral,
        config: config(),
        rate_limiter_config: RateLimiterConfig { window_duration: 0, max_outflow: 0 },
        key: 11,
    });
    assert!(other == r);
}

#[test]
fn first_deposit_mints_collateral_one_for_one() {
    let mut r = reserve();
    assert_eq!(r.deposit_liquidity(100_000), Ok(100_000));
    assert_eq!(r.liquidity.available_amount, 100_000);
    assert_eq!(r.collateral.mint_total_supply, 100_000);
    assert_eq!(r.liquidity.total_supply(), Ok(Decimal::from(100_000u64)));
}

#[test]
fn deposit_mints_collateral_at_the_exchange_rate_rounded_down() {
    let mut r = reserve_with(150, 0, 100);
    assert_eq!(
        r.collateral_exchange_rate(),
        Ok(CollateralExchangeRate(scaled(666_666_666_666_666_666)))
    );
    assert_eq!(r.deposit_liquidity(30), Ok(19));
    assert_eq!(r.liquidity.available_amount, 180);
    assert_eq!(r.collateral.mint_total_supply, 119);
}

#[test]
fn redeem_pays_liquidity_at_the_exchange_rate_rounded_down() {
    let mut r = reserve_with(150, 0, 100);
    assert_eq!(r.redeem_collateral(10), Ok(15));
    assert_eq!(r.liquidity.available_amount, 135);
    assert_eq!(r.collateral.mint_total_supply, 90);
}

#[test]
fn deposit_then_redeem_returns_the_deposit_at_rate_one() {
    let mut r = reserve_with(1_000, 0, 1_000);
    let before = r;
    let minted = r.deposit_liquidity(777).unwrap();
    assert_eq!(minted, 777);
    assert_eq!(r.redeem_collateral(minted), Ok(777));
    assert!(r == before);
}

#[test]
fn redeem_fails_without_changing_the_reserve() {
    let mut r = reserve_with(10, 140, 100);
    let before = r;
    assert_eq!(r.redeem_collateral(20), Err(ErrorCode::InsufficientLiquidity));
    assert!(r == before);
    assert_eq!(r.redeem_collateral(101), Err(ErrorCode::MathOverflow));
    assert!(r == before);
}

#[test]
fn deposit_that_overflows_changes_nothing() {
    let mut r = reserve_with(u64::MAX - 5, 0, 0);
    let before = r;
    assert_eq!(r.deposit_liquidity(6), Err(ErrorCode::MathOverflow));
    assert!(r == before);
}

#[test]
fn total_supply_is_available_and_borrowed_less_fees() {
    let mut r = reserve_with(100, 0, 0);
    r.liquidity.borrowed_amount_wads = scaled(50 * WAD as u128 + WAD as u128 / 2);
    r.liquidity.accumulated_protocol_fees_wads = scaled(WAD as u128 / 2);
    assert_eq!(r.liquidity.total_supply(), Ok(Decimal::from(150u64)));
    r.liquidity.accumulated_protocol_fees_wads = Decimal::from(151u64);
    assert_eq!(r.liquidity.total_supply(), Err(ErrorCode::MathOverflow));
}

#[test]
fn liquidity_operations_keep_the_supply() {
    let mut l = reserve_with(100, 50, 0).liquidity;
    l.deposit(20).unwrap();
    assert_eq!(l.total_supply(), Ok(Decimal::from(170u64)));
    l.withdraw(30).unwrap();
    assert_eq!(l.total_supply(), Ok(Decimal::from(140u64)));
    assert_eq!(l.withdraw(91), Err(ErrorCode::InsufficientLiquidity));
    l.borrow(Decimal::from(40u64)).unwrap();
    assert_eq!(l.available_amount, 50);
    assert_eq!(l.borrowed_amount_wads, Decimal::from(90u64));
    assert_eq!(l.total_supply(), Ok(Decimal::from(140u64)));
    assert_eq!(l.borrow(Decimal::from(51u64)), Err(ErrorCode::InsufficientLiquidity));
    l.repay(10, Decimal::from(10u64)).unwrap();
    assert_eq!(l.available_amount, 60);
    assert_eq!(l.borrowed_amount_wads, Decimal::from(80u64));
    l.repay(0, Decimal::from(1_000u64)).unwrap();
    assert_eq!(l.borrowed_amount_wads, Decimal::zero());
    l.borrowed_amount_wads = Decimal::from(5u64);
    l.forgive_debt(Decimal::from(2u64)).unwrap();
    assert_eq!(l.borrowed_amount_wads, Decimal::from(3u64));
    assert_eq!(l.forgive_debt(Decimal::from(4u64)), Err(ErrorCode::MathOverflow));
    l.accumulated_protocol_fees_wads = Decimal::from(7u64);
    l.redeem_fees(7).unwrap();
    assert_eq!(l.available_amount, 53);
    assert_eq!(l.accumulated_protocol_fees_wads, Decimal::zero());
    assert_eq!(l.redeem_fees(1), Err(ErrorCode::MathOverflow));
    assert_eq!(l.redeem_fees(54), Err(ErrorCode::MathOverflow));
}

#[test]
fn borrow_of_a_fraction_takes_whole_units_from_what_is_available() {
    let mut l = reserve_with(100, 0, 0).liquidity;
    l.borrow(scaled(2 * WAD as u128 + 7)).unwrap();
    assert_eq!(l.available_amount, 98);
    assert_eq!(l.borrowed_amount_wads, scaled(2 * WAD as u128 + 7));
}

#[test]
fn utilization_is_the_share_that_is_lent() {
    assert_eq!(reserve_with(150, 50, 0).liquidity.utilization_rate(), Ok(percent(25)));
    assert_eq!(reserve_with(150, 0, 0).liquidity.utilization_rate(), Ok(Decimal::zero()));
    assert_eq!(reserve_with(0, 0, 0).liquidity.utilization_rate(), Ok(Decimal::zero()));
    assert_eq!(reserve_with(0, 10, 0).liquidity.utilization_rate(), Ok(Decimal::one()));
}

#[test]
fn borrow_rate_below_optimal_utilization() {
    assert_eq!(reserve_with(60, 40, 0).current_borrow_rate(), Ok(percent(5)));
    assert_eq!(reserve_with(100, 0, 0).current_borrow_rate(), Ok(percent(2)));
    assert_eq!(reserve_with(20, 80, 0).current_borrow_rate(), Ok(percent(8)));
}

#[test]
fn borrow_rate_between_optimal_and_maximal_utilization() {
    assert_eq!(reserve_with(15, 85, 0).current_borrow_rate(), Ok(percent(29)));
    assert_eq!(reserve_with(10, 90, 0).current_borrow_rate(), Ok(percent(50)));
}

#[test]
fn borrow_rate_above_maximal_utilization() {
    assert_eq!(reserve_with(5, 95, 0).current_borrow_rate(), Ok(percent(100)));
    assert_eq!(reserve_with(0, 100, 0).current_borrow_rate(), Ok(Decimal::from_percent_u64(150)));
}

#[test]
fn borrow_rate_with_no_optimal_utilization_is_the_least_rate() {
    let mut r = reserve_with(100, 0, 0);
    r.config.optimal_utilization_rate = 0;
    assert_eq!(r.current_borrow_rate(), Ok(percent(2)));
}

#[test]
fn borrow_rate_with_rates_out_of_order_fails() {
    let mut r = reserve_with(60, 40, 0);
    r.config.min_borrow_rate = 9;
    assert_eq!(r.current_borrow_rate(), Err(ErrorCode::MathOverflow));
}

#[test]
fn interest_of_one_slot() {
    let mut r = reserve_with(60, 40, 100);
    assert_eq!(r.accrue_interest(1), Ok(()));
    assert_eq!(r.liquidity.cumulative_borrow_rate_wads, scaled(1_000_000_000_792_744_799));
    assert_eq!(r.liquidity.borrowed_amount_wads, scaled(40_000_000_031_709_791_960));
    assert_eq!(r.liquidity.accumulated_protocol_fees_wads, scaled(3_170_979_196));
    assert_eq!(r.liquidity.available_amount, 60);
    // the slot of the last update is left to the caller
    assert_eq!(r.last_update.slot, 0);
}

#[test]
fn interest_of_a_year_compounds() {
    let mut r = reserve_with(60, 40, 100);
    assert_eq!(r.accrue_interest(63_072_000), Ok(()));
    assert_eq!(r.liquidity.cumulative_borrow_rate_wads, scaled(1_051_271_096_282_350_121));
    assert_eq!(r.liquidity.borrowed_amount_wads, scaled(42_050_843_851_294_004_840));
    assert_eq!(r.liquidity.accumulated_protocol_fees_wads, scaled(205_084_385_129_400_484));
}

#[test]
fn interest_of_no_slot_changes_nothing() {
    let mut r = reserve_with(60, 40, 100);
    r.last_update.update_slot(9);
    let before = r;
    assert_eq!(r.accrue_interest(9), Ok(()));
    assert!(r == before);
    assert_eq!(r.liquidity, before.liquidity);
    assert_eq!(r.accrue_interest(8), Err(ErrorCode::MathOverflow));
}

#[test]
fn prices_and_their_bounds() {
    let mut r = reserve();
    r.liquidity.market_price = Decimal::from(10u64);
    r.liquidity.smoothed_market_price = Decimal::from(12u64);
    assert_eq!(r.price_upper_bound(), Decimal::from(12u64));
    assert_eq!(r.price_lower_bound(), Decimal::from(10u64));
    r.liquidity.extra_market_price = Some(Decimal::from(9u64));
    assert_eq!(r.price_upper_bound(), Decimal::from(12u64));
    assert_eq!(r.price_lower_bound(), Decimal::from(9u64));
    r.liquidity.extra_market_price = Some(Decimal::from(15u64));
    assert_eq!(r.price_upper_bound(), Decimal::from(15u64));
    assert_eq!(r.price_lower_bound(), Decimal::from(10u64));
}

#[test]
fn market_values_of_an_amount() {
    let mut r = reserve();
    r.liquidity.smoothed_market_price = Decimal::from(12u64);
    r.liquidity.extra_market_price = Some(Decimal::from(8u64));
    let two_tokens = Decimal::from(2_000_000u64);
    assert_eq!(r.market_value(two_tokens), Ok(Decimal::from(20u64)));
    assert_eq!(r.market_value_upper_bound(two_tokens), Ok(Decimal::from(24u64)));
    assert_eq!(r.market_value_lower_bound(two_tokens), Ok(Decimal::from(16u64)));
    assert_eq!(
        r.usd_to_liquidity_amount_lower_bound(Decimal::from(24u64)),
        Ok(Decimal::from(2_000_000u64))
    );
    assert_eq!(r.market_value(Decimal::from(1u64)), Ok(scaled(10_000_000_000_000)));
}

#[test]
fn market_value_with_too_many_decimals_fails() {
    let mut r = reserve();
    r.liquidity.mint_decimals = 39;
    assert_eq!(r.market_value(Decimal::from(1u64)), Err(ErrorCode::MathOverflow));
    r.liquidity.mint_decimals = 6;
    r.liquidity.market_price = Decimal::zero();
    r.liquidity.smoothed_market_price = Decimal::zero();
    assert_eq!(
        r.usd_to_liquidity_amount_lower_bound(Decimal::from(1u64)),
        Err(ErrorCode::DivisionByZero)
    );
}

#[test]
fn borrow_weight_is_one_and_the_added_weight() {
    let mut r = reserve();
    assert_eq!(r.borrow_weight(), Decimal::one());
    r.config.added_borrow_weight_bps = 2_500;
    assert_eq!(r.borrow_weight(), scaled(1_250_000_000_000_000_000));
    r.config.added_borrow_weight_bps = u64::MAX;
    assert!(r.borrow_weight().gt(&Decimal::one()));
}

#[test]
fn price_scale_holds_the_offset_within_its_bounds() {
    let mut r = reserve();
    assert_eq!(r.price_scale(), 10_000);
    r.config.scaled_price_offset_bps = 500;
    assert_eq!(r.price_scale(), 10_500);
    r.config.scaled_price_offset_bps = -500;
    assert_eq!(r.price_scale(), 9_500);
    r.config.scaled_price_offset_bps = 5_000;
    assert_eq!(r.price_scale(), 12_000);
    r.config.scaled_price_offset_bps = i64::MIN;
    assert_eq!(r.price_scale(), 8_000);
}

#[test]
fn loan_to_value_ratio_as_a_decimal() {
    assert_eq!(reserve().loan_to_value_ratio(), percent(50));
}

#[test]
fn fee_added_to_an_amount() {
    let fees = config().fees;
    assert_eq!(
        fees.calculate_borrow_fees(Decimal::from(1_000u64), FeeCalculation::Exclusive),
        Ok((10, 2))
    );
    // below the least fee of two units, of which the host gets one
    assert_eq!(
        fees.calculate_borrow_fees(Decimal::from(50u64), FeeCalculation::Exclusive),
        Ok((2, 1))
    );
    assert_eq!(
        fees.calculate_borrow_fees(Decimal::from(2u64), FeeCalculation::Exclusive),
        Err(ErrorCode::BorrowTooSmall)
    );
    assert_eq!(fees.calculate_borrow_fees(Decimal::zero(), FeeCalculation::Exclusive), Ok((0, 0)));
}

#[test]
fn fee_taken_out_of_an_amount() {
    let fees = config().fees;
    // 1010 * (0.01 / 1.01), every quotient rounded down
    assert_eq!(
        fees.calculate_borrow_fees(Decimal::from(1_010u64), FeeCalculation::Inclusive),
        Ok((9, 1))
    );
    assert_eq!(
        fees.calculate_borrow_fees(Decimal::from(101_000u64), FeeCalculation::Inclusive),
        Ok((999, 199))
    );
}

#[test]
fn fee_without_a_host_and_without_a_rate() {
    let mut fees = config().fees;
    fees.host_fee_percentage = 0;
    assert_eq!(
        fees.calculate_borrow_fees(Decimal::from(50u64), FeeCalculation::Exclusive),
        Ok((1, 0))
    );
    assert_eq!(
        fees.calculate_borrow_fees(Decimal::from(1u64), FeeCalculation::Exclusive),
        Err(ErrorCode::BorrowTooSmall)
    );
    fees.borrow_fee_wad = 0;
    assert_eq!(
        fees.calculate_borrow_fees(Decimal::from(50u64), FeeCalculation::Exclusive),
        Ok((0, 0))
    );
}

#[test]
fn flash_loan_fee_is_split_between_owner_and_host() {
    let fees = config().fees;
    assert_eq!(fees.calculate_flash_loan_fees(Decimal::from(10_000u64)), Ok((24, 6)));
    assert_eq!(fees.calculate_flash_loan_fees(Decimal::zero()), Ok((0, 0)));
}

#[test]
fn borrow_of_a_given_amount() {
    let r = reserve_with(5_000, 0, 0);
    assert_eq!(
        r.calculate_borrow(1_000, Decimal::one(), Decimal::from(u64::MAX)),
        Ok(CalculateBorrowResult {
            borrow_amount: Decimal::from(1_010u64),
            receive_amount: 1_000,
            borrow_fee: 10,
            host_fee: 2,
        })
    );
    // 1010 units at a price of 10 for a million units are worth 0.0101
    assert_eq!(
        r.calculate_borrow(1_000, scaled(10_100_000_000_000_000), Decimal::zero()),
        Ok(CalculateBorrowResult {
            borrow_amount: Decimal::from(1_010u64),
            receive_amount: 1_000,
            borrow_fee: 10,
            host_fee: 2,
        })
    );
    assert_eq!(
        r.calculate_borrow(1_000, scaled(10_099_999_999_999_999), Decimal::zero()),
        Err(ErrorCode::BorrowTooLarge)
    );
    assert_eq!(
        r.calculate_borrow(1, Decimal::one(), Decimal::zero()),
        Err(ErrorCode::BorrowTooSmall)
    );
}

#[test]
fn borrow_weight_makes_a_borrow_worth_more() {
    let mut r = reserve_with(5_000, 0, 0);
    r.config.added_borrow_weight_bps = 10_000;
    assert_eq!(
        r.calculate_borrow(1_000, scaled(20_199_999_999_999_999), Decimal::zero()),
        Err(ErrorCode::BorrowTooLarge)
    );
    assert!(r.calculate_borrow(1_000, scaled(20_200_000_000_000_000), Decimal::zero()).is_ok());
}

#[test]
fn borrow_of_as_much_as_is_allowed() {
    let r = reserve_with(5_000, 0, 0);
    assert_eq!(
        r.calculate_borrow(u64::MAX, scaled(10_100_000_000_000_000), Decimal::from(u64::MAX)),
        Ok(CalculateBorrowResult {
            borrow_amount: Decimal::from(1_010u64),
            receive_amount: 1_001,
            borrow_fee: 9,
            host_fee: 1,
        })
    );
    // no more than the reserve may still lend
    assert_eq!(
        r.calculate_borrow(u64::MAX, Decimal::one(), Decimal::from(1_000u64)).map(|b| b.borrow_amount),
        Ok(Decimal::from(1_000u64))
    );
    // no more than is available
    assert_eq!(
        r.calculate_borrow(u64::MAX, Decimal::one(), Decimal::from(u64::MAX)).map(|b| b.borrow_amount),
        Ok(Decimal::from(5_000u64))
    );
}

#[test]
fn repayment_settles_no_more_than_is_borrowed() {
    let r = reserve();
    let borrowed = scaled(50 * WAD as u128 + WAD as u128 / 2);
    assert_eq!(
        r.calculate_repay(100, borrowed),
        Ok(CalculateRepayResult { settle_amount: borrowed, repay_amount: 51 })
    );
    assert_eq!(
        r.calculate_repay(u64::MAX, borrowed),
        Ok(CalculateRepayResult { settle_amount: borrowed, repay_amount: 51 })
    );
    assert_eq!(
        r.calculate_repay(20, borrowed),
        Ok(CalculateRepayResult { settle_amount: Decimal::from(20u64), repay_amount: 20 })
    );
}

fn obligation(borrowed: u64, unhealthy: u64, super_unhealthy: u64, closeable: bool) -> Obligation {
    let mut o = Obligation::default();
    o.borrowed_value = Decimal::from(borrowed);
    o.unhealthy_borrow_value = Decimal::from(unhealthy);
    o.super_unhealthy_borrow_value = Decimal::from(super_unhealthy);
    o.closeable = closeable;
    o
}

#[test]
fn healthy_obligation_has_no_bonus() {
    let r = reserve();
    assert_eq!(
        r.calculate_bonus(&obligation(99, 100, 200, false)),
        Err(ErrorCode::ObligationHealthy)
    );
    assert_eq!(
        r.calculate_bonus(&obligation(99, 100, 200, true)),
        Ok(Bonus { total_bonus: Decimal::zero(), protocol_liquidation_fee: Decimal::zero() })
    );
}

#[test]
fn bonus_grows_from_the_unhealthy_to_the_very_unhealthy_borrow_value() {
    let r = reserve();
    let fee = percent(1);
    assert_eq!(
        r.calculate_bonus(&obligation(100, 100, 200, false)),
        Ok(Bonus { total_bonus: percent(6), protocol_liquidation_fee: fee })
    );
    assert_eq!(
        r.calculate_bonus(&obligation(150, 100, 200, false)),
        Ok(Bonus { total_bonus: scaled(85_000_000_000_000_000), protocol_liquidation_fee: fee })
    );
    assert_eq!(
        r.calculate_bonus(&obligation(200, 100, 200, false)),
        Ok(Bonus { total_bonus: percent(11), protocol_liquidation_fee: fee })
    );
    assert_eq!(
        r.calculate_bonus(&obligation(300, 100, 200, false)),
        Ok(Bonus { total_bonus: percent(11), protocol_liquidation_fee: fee })
    );
}

#[test]
fn bonus_without_a_slope_is_the_liquidation_bonus_and_the_fee() {
    let r = reserve();
    assert_eq!(
        r.calculate_bonus(&obligation(500, 100, 100, false)),
        Ok(Bonus { total_bonus: percent(6), protocol_liquidation_fee: percent(1) })
    );
}

#[test]
fn bonus_is_held_to_the_greatest_bonus() {
    let mut r = reserve();
    r.config.liquidation_bonus = 20;
    r.config.max_liquidation_bonus = 25;
    r.config.protocol_liquidation_fee = 50;
    assert_eq!(
        r.calculate_bonus(&obligation(200, 100, 200, false)),
        Ok(Bonus { total_bonus: percent(25), protocol_liquidation_fee: percent(5) })
    );
    assert_eq!(
        r.calculate_bonus(&obligation(100, 100, 100, false)),
        Ok(Bonus { total_bonus: percent(25), protocol_liquidation_fee: percent(5) })
    );
}

#[test]
fn bonus_with_borrow_values_out_of_order_fails() {
    let r = reserve();
    assert_eq!(
        r.calculate_bonus(&obligation(300, 200, 100, false)),
        Err(ErrorCode::MathOverflow)
    );
}

fn liquidity(borrowed: u64, value: Decimal) -> ObligationLiquidity {
    ObligationLiquidity {
        borrow_reserve: key(20),
        cumulative_borrow_rate_wads: Decimal::one(),
        borrowed_amount_wads: Decimal::from(borrowed),
        market_value: value,
    }
}

fn collateral(deposited: u64, value: Decimal) -> ObligationCollateral {
    ObligationCollateral {
        deposit_reserve: key(21),
        deposited_amount: deposited,
        market_value: value,
        attributed_borrow_value: Decimal::zero(),
    }
}

fn ten_percent() -> Bonus {
    Bonus { total_bonus: percent(10), protocol_liquidation_fee: percent(1) }
}

#[test]
fn small_borrow_is_liquidated_as_a_whole() {
    let r = reserve();
    let o = obligation(1, 0, 0, false);
    let l = liquidity(100, Decimal::one());
    // worth 1.1 with the bonus, against collateral worth 2.2
    assert_eq!(
        r.calculate_liquidation(1, &o, &l, &collateral(1_000, scaled(2_200_000_000_000_000_000)), &ten_percent()),
        Ok(CalculateLiquidationResult {
            settle_amount: Decimal::from(100u64),
            repay_amount: 100,
            withdraw_amount: 500,
        })
    );
    // against collateral worth as much
    assert_eq!(
        r.calculate_liquidation(1, &o, &l, &collateral(1_000, scaled(1_100_000_000_000_000_000)), &ten_percent()),
        Ok(CalculateLiquidationResult {
            settle_amount: Decimal::from(100u64),
            repay_amount: 100,
            withdraw_amount: 1_000,
        })
    );
    // against collateral worth half as much
    assert_eq!(
        r.calculate_liquidation(1, &o, &l, &collateral(1_000, scaled(550_000_000_000_000_000)), &ten_percent()),
        Ok(CalculateLiquidationResult {
            settle_amount: Decimal::from(50u64),
            repay_amount: 50,
            withdraw_amount: 1_000,
        })
    );
}

#[test]
fn larger_borrow_is_liquidated_in_part() {
    let r = reserve();
    let o = obligation(1_000, 0, 0, false);
    let l = liquidity(5_000, Decimal::from(500u64));
    // a fifth of the borrowed value may go: 200 of 500, that is 2000 of 5000 units
    assert_eq!(o.max_liquidation_amount(&l), Ok(Decimal::from(2_000u64)));
    assert_eq!(
        r.calculate_liquidation(1_000, &o, &l, &collateral(1_000, Decimal::from(220u64)), &ten_percent()),
        Ok(CalculateLiquidationResult {
            settle_amount: Decimal::from(1_000u64),
            repay_amount: 1_000,
            withdraw_amount: 500,
        })
    );
    assert_eq!(
        r.calculate_liquidation(u64::MAX, &o, &l, &collateral(1_000, Decimal::from(220u64)), &ten_percent()),
        Ok(CalculateLiquidationResult {
            settle_amount: Decimal::from(2_000u64),
            repay_amount: 2_000,
            withdraw_amount: 1_000,
        })
    );
    assert_eq!(
        r.calculate_liquidation(u64::MAX, &o, &l, &collateral(1_000, Decimal::from(110u64)), &ten_percent()),
        Ok(CalculateLiquidationResult {
            settle_amount: Decimal::from(1_000u64),
            repay_amount: 1_000,
            withdraw_amount: 1_000,
        })
    );
}

#[test]
fn liquidation_with_too_great_a_bonus_is_refused() {
    let r = reserve();
    let bonus = Bonus { total_bonus: percent(26), protocol_liquidation_fee: percent(1) };
    assert_eq!(
        r.calculate_liquidation(
            1,
            &obligation(1, 0, 0, false),
            &liquidity(100, Decimal::one()),
            &collateral(1_000, Decimal::one()),
            &bonus
        ),
        Err(ErrorCode::InvalidAmount)
    );
    assert_eq!(r.calculate_protocol_liquidation_fee(100, &bonus), Err(ErrorCode::InvalidAmount));
}

#[test]
fn borrow_without_value_is_settled_for_nothing() {
    let r = reserve();
    assert_eq!(
        r.calculate_liquidation(
            1,
            &obligation(1, 0, 0, false),
            &liquidity(100, Decimal::zero()),
            &collateral(1_000, Decimal::zero()),
            &ten_percent()
        ),
        Ok(CalculateLiquidationResult {
            settle_amount: Decimal::from(100u64),
            repay_amount: 100,
            withdraw_amount: 1_000,
        })
    );
    assert_eq!(
        r.calculate_liquidation(
            1,
            &obligation(1, 0, 0, false),
            &liquidity(100, Decimal::zero()),
            &collateral(1_000, Decimal::one()),
            &ten_percent()
        ),
        Ok(CalculateLiquidationResult {
            settle_amount: Decimal::from(100u64),
            repay_amount: 100,
            withdraw_amount: 0,
        })
    );
}

#[test]
fn protocol_takes_its_fee_of_what_is_not_bonus() {
    let r = reserve();
    assert_eq!(r.calculate_protocol_liquidation_fee(1_100, &ten_percent()), Ok(10));
    assert_eq!(r.calculate_protocol_liquidation_fee(10, &ten_percent()), Ok(1));
    assert_eq!(r.calculate_protocol_liquidation_fee(0, &ten_percent()), Ok(1));
}

#[test]
fn fees_that_can_be_redeemed() {
    let mut r = reserve_with(10, 0, 0);
    r.liquidity.accumulated_protocol_fees_wads = scaled(12 * WAD as u128 + 700_000_000_000_000_000);
    assert_eq!(r.calculate_redeem_fees(), Ok(10));
    r.liquidity.available_amount = 100;
    assert_eq!(r.calculate_redeem_fees(), Ok(12));
}

#[test]
fn collateral_supply_is_minted_and_burnt() {
    let mut c = reserve().collateral;
    assert_eq!(c.mint(10), Ok(()));
    assert_eq!(c.burn(4), Ok(()));
    assert_eq!(c.mint_total_supply, 6);
    assert_eq!(c.burn(7), Err(ErrorCode::MathOverflow));
    assert_eq!(c.mint(u64::MAX), Err(ErrorCode::MathOverflow));
    assert_eq!(c.mint_total_supply, 6);
}

#[test]
fn exchange_rate_of_an_empty_reserve_is_the_initial_one() {
    let c = reserve().collateral;
    assert_eq!(c.exchange_rate(Decimal::from(5u64)), Ok(CollateralExchangeRate(Decimal::one())));
    let mut minted = c;
    minted.mint_total_supply = 8;
    assert_eq!(minted.exchange_rate(Decimal::zero()), Ok(CollateralExchangeRate(Decimal::one())));
    assert_eq!(
        minted.exchange_rate(Decimal::from(4u64)),
        Ok(CollateralExchangeRate(Decimal::from(2u64)))
    );
}

#[test]
fn exchange_rate_converts_both_ways() {
    let rate = CollateralExchangeRate(Decimal::from(2u64));
    assert_eq!(rate.liquidity_to_collateral(7), Ok(14));
    assert_eq!(rate.collateral_to_liquidity(7), Ok(3));
    assert_eq!(rate.u128_liquidity_to_collateral(7), Ok(14));
    assert_eq!(rate.u128_collateral_to_liquidity(7), Ok(3));
    assert_eq!(
        rate.decimal_collateral_to_liquidity(Decimal::from(7u64)),
        Ok(scaled(3_500_000_000_000_000_000))
    );
    assert_eq!(rate.decimal_liquidity_to_collateral(percent(50)), Ok(Decimal::one()));
    assert_eq!(rate.liquidity_to_collateral(u64::MAX), Err(ErrorCode::MathOverflow));
    assert_eq!(
        CollateralExchangeRate(Decimal::zero()).collateral_to_liquidity(1),
        Err(ErrorCode::DivisionByZero)
    );
}

#[test]
fn valid_configuration_is_accepted() {
    assert_eq!(validate_reserve_config(config()), Ok(()));
    let mut isolated = config();
    isolated.reserve_type = ReserveType::Isolated;
    isolated.loan_to_value_ratio = 0;
    isolated.liquidation_threshold = 0;
    assert_eq!(validate_reserve_config(isolated), Ok(()));
    let mut edge = config();
    edge.max_utilization_rate = 100;
    edge.optimal_utilization_rate = 100;
    edge.loan_to_value_ratio = 99;
    edge.liquidation_threshold = 100;
    edge.max_liquidation_threshold = 100;
    edge.liquidation_bonus = 20;
    edge.max_liquidation_bonus = 20;
    edge.protocol_liquidation_fee = 50;
    edge.fees.borrow_fee_wad = WAD - 1;
    edge.fees.host_fee_percentage = 100;
    edge.protocol_take_rate = 100;
    edge.scaled_price_offset_bps = -2000;
    assert_eq!(validate_reserve_config(edge), Ok(()));
}

fn invalid(change: fn(&mut ReserveConfig)) {
    let mut c = config();
    change(&mut c);
    assert_eq!(validate_reserve_config(c), Err(ErrorCode::InvalidConfig));
}

#[test]
fn configuration_out_of_bounds_is_refused() {
    invalid(|c| c.optimal_utilization_rate = 101);
    invalid(|c| c.max_utilization_rate = 79);
    invalid(|c| c.max_utilization_rate = 101);
    invalid(|c| c.loan_to_value_ratio = 100);
    invalid(|c| c.liquidation_bonus = 101);
    invalid(|c| c.max_liquidation_bonus = 4);
    invalid(|c| c.max_liquidation_bonus = 101);
    invalid(|c| c.liquidation_threshold = 49);
    invalid(|c| c.liquidation_threshold = 101);
    invalid(|c| c.max_liquidation_threshold = 54);
    invalid(|c| c.max_liquidation_threshold = 101);
    invalid(|c| c.optimal_borrow_rate = 1);
    invalid(|c| c.optimal_borrow_rate = 51);
    invalid(|c| c.super_max_borrow_rate = 49);
    invalid(|c| c.fees.borrow_fee_wad = WAD);
    invalid(|c| c.fees.host_fee_percentage = 101);
    invalid(|c| c.protocol_liquidation_fee = 51);
    invalid(|c| c.max_liquidation_bonus = 25);
    invalid(|c| {
        c.max_liquidation_bonus = 20;
        c.protocol_liquidation_fee = 50;
        c.liquidation_bonus = 20;
        c.max_liquidation_bonus = 21;
    });
    invalid(|c| c.protocol_take_rate = 101);
    invalid(|c| c.reserve_type = ReserveType::Isolated);
    invalid(|c| {
        c.reserve_type = ReserveType::Isolated;
        c.loan_to_value_ratio = 0;
    });
    invalid(|c| c.scaled_price_offset_bps = 2001);
    invalid(|c| c.scaled_price_offset_bps = -2001);
    invalid(|c| {
        c.attributed_borrow_limit_open = 10;
        c.attributed_borrow_limit_close = 9;
    });
}

#[test]
fn reserve_type_by_its_name() {
    assert_eq!("Regular".parse::<ReserveType>(), Ok(ReserveType::Regular));
    assert_eq!("Isolated".parse::<ReserveType>(), Ok(ReserveType::Isolated));
    assert_eq!(ReserveType::from_name("Isolated"), Ok(ReserveType::Isolated));
    assert_eq!("regular".parse::<ReserveType>(), Err(ErrorCode::InvalidConfig));
    assert_eq!("Regular ".parse::<ReserveType>(), Err(ErrorCode::InvalidConfig));
    assert_eq!("".parse::<ReserveType>(), Err(ErrorCode::InvalidConfig));
    assert_eq!(ReserveType::default(), ReserveType::Regular);
}

#[test]
fn addresses_are_ordered_byte_by_byte() {
    let mut low = [5u8; 32];
    let mut high = [5u8; 32];
    low[31] = 4;
    assert!(Pubkey(low).before(&Pubkey(high)));
    assert!(!Pubkey(high).before(&Pubkey(low)));
    assert!(!Pubkey(high).before(&Pubkey(high)));
    high[0] = 4;
    assert!(Pubkey(high).before(&Pubkey(low)));
    assert!(Pubkey(low).equals(&Pubkey::new_from_array(low)));
    assert!(!Pubkey(low).equals(&Pubkey(high)));
    assert_eq!(Pubkey(low).to_bytes(), low);
}

#[test]
fn deposit_then_redeem_loses_a_unit_at_most() {
    // three units of collateral for two of liquidity
    let mut r = reserve_with(1_000, 0, 1_500);
    let minted = r.deposit_liquidity(7).unwrap();
    assert_eq!(minted, 10);
    assert_eq!(r.redeem_collateral(minted), Ok(6));
    assert_eq!(r.collateral.mint_total_supply, 1_500);
    assert_eq!(r.liquidity.available_amount, 1_001);
    let mut even = reserve_with(1_000, 0, 1_500);
    let minted = even.deposit_liquidity(8).unwrap();
    assert_eq!(minted, 12);
    assert_eq!(even.redeem_collateral(minted), Ok(8));
}

#[test]
fn deposit_worth_less_than_a_unit_of_collateral_is_lost() {
    // a unit of collateral is worth a million units of liquidity
    let mut r = reserve_with(1_000_000, 0, 1);
    assert_eq!(r.deposit_liquidity(999_999), Ok(0));
    assert_eq!(r.redeem_collateral(0), Ok(0));
    assert_eq!(r.liquidity.available_amount, 1_999_999);
}
