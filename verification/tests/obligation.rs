use splyce_lending::account::Account;
use splyce_lending::error::ErrorCode;
use splyce_lending::math::decimal::Decimal;
use splyce_lending::pubkey::Pubkey;
use splyce_lending::state::last_update::LastUpdate;
use splyce_lending::state::obligation::{
    InitObligationParams, Obligation, ObligationCollateral, ObligationLiquidity,
};
use splyce_lending::state::reserve::Reserve;
use splyce_lending::utils::update_borrow_attribution_values::update_borrow_attribution_values;

fn address(n: u8) -> Pubkey {
    Pubkey([n; 32])
}

fn deposit(reserve: u8, amount: u64, value: u64) -> ObligationCollateral {
    ObligationCollateral {
        deposit_reserve: address(reserve),
        deposited_amount: amount,
        market_value: Decimal::from(value),
        attributed_borrow_value: Decimal::zero(),
    }
}

fn borrow(reserve: u8, amount: u64, value: u64) -> ObligationLiquidity {
    ObligationLiquidity {
        borrow_reserve: address(reserve),
        cumulative_borrow_rate_wads: Decimal::one(),
        borrowed_amount_wads: Decimal::from(amount),
        market_value: Decimal::from(value),
    }
}

fn obligation_with(deposits: Vec<ObligationCollateral>, borrows: Vec<ObligationLiquidity>) -> Obligation {
    Obligation::new(InitObligationParams {
        current_slot: 3,
        lending_market: address(1),
        owner: address(2),
        deposits,
        borrows,
        key: 5,
    })
}

fn priced_reserve(price: u64, decimals: u8, loan_to_value_ratio: u8) -> Reserve {
    let mut r = Reserve::default();
    r.liquidity.market_price = Decimal::from(price);
    r.liquidity.smoothed_market_price = Decimal::from(price);
    r.liquidity.mint_decimals = decimals;
    r.config.loan_to_value_ratio = loan_to_value_ratio;
    r
}

#[test]
fn new_obligation_is_stale_and_worth_nothing() {
    let o = obligation_with(vec![deposit(10, 1, 1)], vec![]);
    assert_eq!(o.version, 1);
    assert_eq!(o.last_update.slot, 3);
    assert!(o.last_update.stale);
    assert_eq!(o.lending_market, address(1));
    assert_eq!(o.owner, address(2));
    assert_eq!(o.deposits.len(), 1);
    assert_eq!(o.deposited_value, Decimal::zero());
    assert_eq!(o.key, 5);
    assert!(!o.closeable);
}

#[test]
fn init_keeps_the_values_of_the_obligation() {
    let mut o = obligation_with(vec![], vec![]);
    o.deposited_value = Decimal::from(9u64);
    o.init(InitObligationParams {
        current_slot: 8,
        lending_market: address(3),
        owner: address(4),
        deposits: vec![deposit(10, 1, 1)],
        borrows: vec![borrow(11, 1, 1)],
        key: 6,
    });
    assert_eq!(o.last_update.slot, 8);
    assert!(o.last_update.stale);
    assert_eq!(o.owner, address(4));
    assert_eq!(o.deposits.len(), 1);
    assert_eq!(o.borrows.len(), 1);
    assert_eq!(o.deposited_value, Decimal::from(9u64));
    assert_eq!(o.key, 6);
}

#[test]
fn deposits_are_found_by_their_reserve() {
    let o = obligation_with(vec![deposit(10, 1, 1), deposit(11, 2, 2)], vec![]);
    assert_eq!(o.find_collateral_in_deposits(address(11)), Ok((&deposit(11, 2, 2), 1)));
    assert_eq!(
        o.find_collateral_in_deposits(address(12)),
        Err(ErrorCode::InvalidObligationCollateral)
    );
    let empty = obligation_with(vec![], vec![]);
    assert_eq!(
        empty.find_collateral_in_deposits(address(10)),
        Err(ErrorCode::ObligationDepositsEmpty)
    );
}

#[test]
fn borrows_are_found_by_their_reserve() {
    let mut o = obligation_with(vec![], vec![borrow(10, 1, 1), borrow(11, 2, 2)]);
    assert_eq!(o.find_liquidity_in_borrows(address(11)), Ok((&borrow(11, 2, 2), 1)));
    assert_eq!(o.find_liquidity_in_borrows_mut(address(10)), Ok(0));
    assert_eq!(
        o.find_liquidity_in_borrows(address(12)),
        Err(ErrorCode::InvalidObligationLiquidity)
    );
    let mut empty = obligation_with(vec![], vec![]);
    assert_eq!(
        empty.find_liquidity_in_borrows(address(10)),
        Err(ErrorCode::ObligationBorrowsEmpty)
    );
    assert_eq!(
        empty.find_liquidity_in_borrows_mut(address(10)),
        Err(ErrorCode::ObligationBorrowsEmpty)
    );
}

#[test]
fn a_deposit_is_added_where_there_is_none() {
    let mut o = obligation_with(vec![deposit(10, 1, 1)], vec![]);
    assert_eq!(o.find_or_add_collateral_to_deposits(address(10)), Ok(0));
    assert_eq!(o.deposits.len(), 1);
    assert_eq!(o.find_or_add_collateral_to_deposits(address(11)), Ok(1));
    assert_eq!(o.deposits[1], ObligationCollateral::new(address(11)));
}

#[test]
fn a_borrow_is_added_where_there_is_none() {
    let mut o = obligation_with(vec![], vec![borrow(10, 1, 1)]);
    assert_eq!(o.find_or_add_liquidity_to_borrows(address(10), Decimal::from(2u64)), Ok(0));
    assert_eq!(o.borrows[0].cumulative_borrow_rate_wads, Decimal::one());
    assert_eq!(o.find_or_add_liquidity_to_borrows(address(11), Decimal::from(2u64)), Ok(1));
    assert_eq!(o.borrows[1], ObligationLiquidity::new(address(11), Decimal::from(2u64)));
}

#[test]
fn an_obligation_holds_ten_positions_at_most() {
    let deposits: Vec<ObligationCollateral> = (0..6u8).map(|i| deposit(10 + i, 1, 1)).collect();
    let borrows: Vec<ObligationLiquidity> = (0..4u8).map(|i| borrow(30 + i, 1, 1)).collect();
    let mut o = obligation_with(deposits, borrows);
    assert_eq!(
        o.find_or_add_collateral_to_deposits(address(50)),
        Err(ErrorCode::ObligationReserveLimit)
    );
    assert_eq!(
        o.find_or_add_liquidity_to_borrows(address(50), Decimal::one()),
        Err(ErrorCode::ObligationReserveLimit)
    );
    assert_eq!(o.deposits.len(), 6);
    assert_eq!(o.borrows.len(), 4);
    assert_eq!(o.find_or_add_collateral_to_deposits(address(12)), Ok(2));
}

#[test]
fn repayment_removes_a_borrow_that_is_settled() {
    let mut o = obligation_with(vec![], vec![borrow(10, 5, 1), borrow(11, 7, 2)]);
    assert_eq!(o.repay(Decimal::from(3u64), 0), Ok(()));
    assert_eq!(o.borrows[0].borrowed_amount_wads, Decimal::from(2u64));
    assert_eq!(o.repay(Decimal::from(2u64), 0), Ok(()));
    assert_eq!(o.borrows, vec![borrow(11, 7, 2)]);
    assert_eq!(o.repay(Decimal::from(100u64), 0), Ok(()));
    assert!(o.borrows.is_empty());
}

#[test]
fn withdrawal_removes_a_deposit_that_is_empty() {
    let mut o = obligation_with(vec![deposit(10, 5, 1), deposit(11, 7, 2)], vec![]);
    assert_eq!(o.withdraw(3, 1), Ok(()));
    assert_eq!(o.deposits[1].deposited_amount, 4);
    assert_eq!(o.withdraw(5, 0), Ok(()));
    assert_eq!(o.deposits, vec![deposit(11, 4, 2)]);
}

#[test]
fn loan_to_value_of_an_obligation() {
    let mut o = obligation_with(vec![], vec![]);
    assert_eq!(o.loan_to_value(), Err(ErrorCode::DivisionByZero));
    o.deposited_value = Decimal::from(200u64);
    o.borrowed_value = Decimal::from(50u64);
    assert_eq!(o.loan_to_value(), Ok(Decimal::from_percent(25)));
}

#[test]
fn value_that_can_still_be_borrowed() {
    let mut o = obligation_with(vec![], vec![]);
    o.allowed_borrow_value = Decimal::from(500u64);
    o.borrowed_value_upper_bound = Decimal::from(300u64);
    assert_eq!(o.remaining_borrow_value(), Ok(Decimal::from(200u64)));
    o.borrowed_value_upper_bound = Decimal::from(501u64);
    assert_eq!(o.remaining_borrow_value(), Err(ErrorCode::MathOverflow));
}

#[test]
fn all_collateral_can_be_withdrawn_without_borrows() {
    let mut o = obligation_with(vec![deposit(10, 100, 1_000)], vec![]);
    o.deposited_value = Decimal::from(1_000u64);
    o.allowed_borrow_value = Decimal::from(500u64);
    let collateral = o.deposits[0];
    assert_eq!(o.max_withdraw_amount(&collateral, &priced_reserve(10, 6, 50)), Ok(100));
}

#[test]
fn nothing_can_be_withdrawn_at_the_borrowing_limit() {
    let mut o = obligation_with(vec![deposit(10, 100, 1_000)], vec![borrow(11, 1, 1)]);
    o.allowed_borrow_value = Decimal::from(500u64);
    o.borrowed_value_upper_bound = Decimal::from(500u64);
    let collateral = o.deposits[0];
    assert_eq!(o.max_withdraw_amount(&collateral, &priced_reserve(10, 6, 50)), Ok(0));
}

#[test]
fn collateral_that_backs_nothing_can_be_withdrawn() {
    let mut o = obligation_with(vec![deposit(10, 100, 1_000)], vec![borrow(11, 1, 1)]);
    o.allowed_borrow_value = Decimal::from(500u64);
    o.borrowed_value_upper_bound = Decimal::from(300u64);
    let collateral = o.deposits[0];
    assert_eq!(o.max_withdraw_amount(&collateral, &priced_reserve(10, 6, 0)), Ok(100));
}

#[test]
fn collateral_that_can_be_spared_is_sized_by_the_value_left() {
    let mut o =
        obligation_with(vec![deposit(10, 100_000_000, 1_000)], vec![borrow(11, 1, 1)]);
    o.allowed_borrow_value = Decimal::from(500u64);
    o.borrowed_value_upper_bound = Decimal::from(300u64);
    // 200 of value left, over a loan to value ratio of a half, at a price of 10
    let collateral = o.deposits[0];
    assert_eq!(o.max_withdraw_amount(&collateral, &priced_reserve(10, 6, 50)), Ok(40_000_000));
    let small = deposit(10, 10_000_000, 100);
    assert_eq!(o.max_withdraw_amount(&small, &priced_reserve(10, 6, 50)), Ok(10_000_000));
    assert_eq!(
        o.max_withdraw_amount(&collateral, &priced_reserve(0, 6, 50)),
        Err(ErrorCode::DivisionByZero)
    );
}

#[test]
fn amount_of_a_borrow_that_one_liquidation_may_repay() {
    let mut o = obligation_with(vec![], vec![]);
    o.borrowed_value = Decimal::from(1_000u64);
    // a fifth of the borrowed value
    assert_eq!(o.max_liquidation_amount(&borrow(10, 5_000, 500)), Ok(Decimal::from(2_000u64)));
    // no more than the borrow is worth
    assert_eq!(o.max_liquidation_amount(&borrow(10, 5_000, 100)), Ok(Decimal::from(5_000u64)));
    // no more than may be liquidated at once
    o.borrowed_value = Decimal::from(10_000_000u64);
    assert_eq!(
        o.max_liquidation_amount(&borrow(10, 4_000_000, 1_000_000)),
        Ok(Decimal::from(2_000_000u64))
    );
    assert_eq!(o.max_liquidation_amount(&borrow(10, 5, 0)), Err(ErrorCode::DivisionByZero));
}

#[test]
fn collateral_of_a_deposit_goes_up_and_down() {
    let mut c = ObligationCollateral::new(address(10));
    assert_eq!(c.deposit(10), Ok(()));
    assert_eq!(c.withdraw(4), Ok(()));
    assert_eq!(c.deposited_amount, 6);
    assert_eq!(c.withdraw(7), Err(ErrorCode::MathOverflow));
    assert_eq!(c.deposit(u64::MAX), Err(ErrorCode::MathOverflow));
    assert_eq!(c.deposited_amount, 6);
}

#[test]
fn liquidity_of_a_borrow_goes_up_and_down() {
    let mut l = ObligationLiquidity::new(address(10), Decimal::one());
    assert_eq!(l.borrow(Decimal::from(10u64)), Ok(()));
    assert_eq!(l.repay(Decimal::from(4u64)), Ok(()));
    assert_eq!(l.borrowed_amount_wads, Decimal::from(6u64));
    assert_eq!(l.repay(Decimal::from(7u64)), Err(ErrorCode::MathOverflow));
    assert_eq!(l.borrowed_amount_wads, Decimal::from(6u64));
}

#[test]
fn a_borrow_grows_as_the_index_of_its_reserve_has_grown() {
    let mut l = borrow(10, 100, 0);
    assert_eq!(l.accrue_interest(Decimal::from_scaled_val(1_100_000_000_000_000_000)), Ok(()));
    assert_eq!(l.borrowed_amount_wads, Decimal::from(110u64));
    assert_eq!(l.cumulative_borrow_rate_wads, Decimal::from_scaled_val(1_100_000_000_000_000_000));
    let before = l;
    assert_eq!(l.accrue_interest(Decimal::from_scaled_val(1_100_000_000_000_000_000)), Ok(()));
    assert_eq!(l, before);
    assert_eq!(l.accrue_interest(Decimal::one()), Err(ErrorCode::NegativeInterestRate));
    assert_eq!(l, before);
}

fn reserve_account(n: u8, attributed: u64, open: u64, close: u64) -> Account<Reserve> {
    let mut r = Reserve::default();
    r.attributed_borrow_value = Decimal::from(attributed);
    r.config.attributed_borrow_limit_open = open;
    r.config.attributed_borrow_limit_close = close;
    Account { key: address(n), data: r }
}

fn attributing_obligation() -> Obligation {
    let mut first = deposit(10, 1, 300);
    first.attributed_borrow_value = Decimal::from(100u64);
    let mut second = deposit(11, 1, 100);
    second.attributed_borrow_value = Decimal::from(20u64);
    let mut o = obligation_with(vec![first, second], vec![]);
    o.deposited_value = Decimal::from(400u64);
    o.unweighted_borrowed_value = Decimal::from(200u64);
    o
}

#[test]
fn debt_is_attributed_to_deposits_by_their_share_of_the_value() {
    let mut o = attributing_obligation();
    let mut reserves =
        vec![reserve_account(11, 500, 1_000, 1_000), reserve_account(10, 1_000, 1_049, 1_050)];
    assert_eq!(
        update_borrow_attribution_values(&mut o, &mut reserves),
        Ok((Some(address(10)), None))
    );
    assert_eq!(o.deposits[0].attributed_borrow_value, Decimal::from(150u64));
    assert_eq!(o.deposits[1].attributed_borrow_value, Decimal::from(50u64));
    assert_eq!(reserves[1].data.attributed_borrow_value, Decimal::from(1_050u64));
    assert_eq!(reserves[0].data.attributed_borrow_value, Decimal::from(530u64));
}

#[test]
fn attributed_debt_above_the_closing_limit_is_reported() {
    let mut o = attributing_obligation();
    let mut reserves =
        vec![reserve_account(10, 1_000, 1_000, 1_049), reserve_account(11, 500, 529, 529)];
    assert_eq!(
        update_borrow_attribution_values(&mut o, &mut reserves),
        Ok((Some(address(11)), Some(address(11))))
    );
}

#[test]
fn nothing_is_attributed_where_nothing_of_value_is_deposited() {
    let mut o = attributing_obligation();
    o.deposited_value = Decimal::zero();
    let mut reserves =
        vec![reserve_account(10, 1_000, 2_000, 2_000), reserve_account(11, 500, 2_000, 2_000)];
    assert_eq!(update_borrow_attribution_values(&mut o, &mut reserves), Ok((None, None)));
    assert_eq!(o.deposits[0].attributed_borrow_value, Decimal::zero());
    assert_eq!(reserves[0].data.attributed_borrow_value, Decimal::from(900u64));
    assert_eq!(reserves[1].data.attributed_borrow_value, Decimal::from(480u64));
}

#[test]
fn attribution_that_fails_changes_nothing() {
    let mut o = attributing_obligation();
    let before = o.clone();
    let mut reserves = vec![reserve_account(10, 1_000, 2_000, 2_000)];
    let reserves_before = reserves.clone();
    assert_eq!(
        update_borrow_attribution_values(&mut o, &mut reserves),
        Err(ErrorCode::InvalidObligationCollateral)
    );
    assert!(o == before);
    assert!(reserves == reserves_before);
    let mut low = vec![reserve_account(10, 99, 2_000, 2_000), reserve_account(11, 500, 2_000, 2_000)];
    assert_eq!(update_borrow_attribution_values(&mut o, &mut low), Err(ErrorCode::MathOverflow));
    assert!(o == before);
}

#[test]
fn last_update_goes_stale_after_a_slot() {
    let mut u = LastUpdate::new(5);
    assert_eq!(u.is_stale(5), Ok(true));
    assert_eq!(u.is_stale(4), Ok(true));
    u.update_slot(7);
    assert_eq!(u.is_stale(7), Ok(false));
    assert_eq!(u.is_stale(8), Ok(true));
    assert_eq!(u.is_stale(6), Err(ErrorCode::MathOverflow));
    assert_eq!(u.slots_elapsed(10), Ok(3));
    assert_eq!(u.slots_elapsed(6), Err(ErrorCode::MathOverflow));
    u.mark_stale();
    assert_eq!(u.is_stale(7), Ok(true));
    assert_eq!(u.slot, 7);
    assert!(u == LastUpdate { slot: 7, stale: false });
}
