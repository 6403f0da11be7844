//! Refreshing an obligation: the values of its positions, its borrowing
//! limits, and the borrows it attributes to the reserves of its collateral.

use crate::account::{Account, Context};
use crate::error::ErrorCode;
use crate::math::decimal::Decimal;
use crate::pubkey::{bytes_before, Pubkey};
use crate::state::last_update::LastUpdate;
use crate::state::obligation::{Obligation, ObligationCollateral, ObligationLiquidity};
use crate::state::reserve::Reserve;
use crate::state::reserve_config::ReserveType;
use crate::utils::update_borrow_attribution_values::{
    copy_of, same_reserves_but_attribution, spec_attribute_from,
    update_borrow_attribution_values, Attribution,
};
use vstd::prelude::*;

verus! {

/// Greatest allowed borrow value of any obligation, in whole units of the quote currency.
pub const GLOBAL_ALLOWED_BORROW_VALUE: u64 = 65_000_000;

/// Greatest unhealthy borrow value of any obligation, in whole units of the quote currency.
pub const GLOBAL_UNHEALTHY_BORROW_VALUE: u64 = 70_000_000;

/// The accounts of [`handle_refresh_obligation`].
///
/// The reserves of all deposits, in the order of the deposits, and then the
/// reserves of all borrows, in the order of the borrows, are handed in
/// after them.
#[derive(Clone, Debug, PartialEq)]
pub struct RefreshObligation {
    /// The obligation to refresh.
    pub obligation: Account<Obligation>,
}

/// The sums over the deposits of an obligation.
#[derive(Clone, Copy, Debug, PartialEq, Eq)]
pub struct DepositSums {
    /// Value of the deposits.
    pub deposited_value: Decimal,
    /// Value that the deposits allow to borrow, at the lower bound of the prices.
    pub allowed_borrow_value: Decimal,
    /// Borrowed value from which the obligation can be liquidated.
    pub unhealthy_borrow_value: Decimal,
    /// Borrowed value from which the obligation is liquidated at the greatest bonus.
    pub super_unhealthy_borrow_value: Decimal,
}

/// The sums over the borrows of an obligation.
#[derive(Clone, Copy, Debug, PartialEq, Eq)]
pub struct BorrowSums {
    /// Value of the borrows, each weighted by its reserve's borrow weight.
    pub borrowed_value: Decimal,
    /// Value of the borrows, unweighted.
    pub unweighted_borrowed_value: Decimal,
    /// Weighted value of the borrows at the upper bound of the prices.
    pub borrowed_value_upper_bound: Decimal,
    /// Whether an isolated asset is among the borrows.
    pub borrowing_isolated_asset: bool,
    /// The heaviest borrow so far that is not empty: the added borrow weight
    /// and the address of its reserve, and its place.
    pub max_borrow_weight: Option<(u64, Pubkey, usize)>,
}

/// What a refresh of an obligation leaves.
pub struct ObligationRefreshed {
    /// The deposits that are not empty.
    pub deposits: Seq<ObligationCollateral>,
    /// The borrows that are not empty, the heaviest first.
    pub borrows: Seq<ObligationLiquidity>,
    /// The reserves handed in.
    pub reserves: Seq<Account<Reserve>>,
    /// The sums over the deposits, held to the greatest values there are.
    pub deposit_sums: DepositSums,
    /// The sums over the borrows.
    pub borrow_sums: BorrowSums,
    /// Whether no reserve of the deposits exceeds its closing limit of attributed borrows.
    pub closeable: bool,
}

/// Whether a reserve was refreshed in the given slot; an error where it was not.
pub open spec fn spec_require_fresh(reserve: Reserve, clock_slot: u64) -> Result<(), ErrorCode> {
    match reserve.last_update.spec_is_stale(clock_slot) {
        Err(e) => Err(e),
        Ok(true) => Err(ErrorCode::ReserveStale),
        Ok(false) => Ok(()),
    }
}

/// A deposit with its value, and the sums with the deposit added.
///
/// The collateral is turned into liquidity at the exchange rate of its
/// reserve, rounded down. Its value at the market price is the value of the
/// deposit. The value at the lower bound of the price, times the loan to
/// value ratio, is what the deposit allows to borrow; the value times the
/// liquidation threshold, and times the greatest liquidation threshold, are
/// its parts of the two unhealthy borrow values.
pub open spec fn spec_refresh_deposit(
    collateral: ObligationCollateral,
    reserve: Account<Reserve>,
    sums: DepositSums,
    clock_slot: u64,
) -> Result<(ObligationCollateral, DepositSums), ErrorCode> {
    if collateral.deposit_reserve != reserve.key {
        Err(ErrorCode::InvalidAccountInput)
    } else {
        match spec_require_fresh(reserve.data, clock_slot) {
            Err(e) => Err(e),
            Ok(()) => match reserve.data.spec_collateral_exchange_rate() {
                Err(e) => Err(e),
                Ok(rate) => match rate.spec_collateral_to_liquidity(
                    collateral.deposited_amount as nat,
                ) {
                    Err(e) => Err(e),
                    Ok(liquidity_amount) => {
                        let liquidity = Decimal::spec_from_int(liquidity_amount as nat);
                        match reserve.data.spec_market_value(liquidity) {
                            Err(e) => Err(e),
                            Ok(market_value) => match reserve.data.spec_market_value_lower_bound(
                                liquidity,
                            ) {
                                Err(e) => Err(e),
                                Ok(lower_bound) => spec_add_deposit(
                                    collateral,
                                    reserve.data,
                                    sums,
                                    market_value,
                                    lower_bound,
                                ),
                            },
                        }
                    },
                },
            },
        }
    }
}

/// A deposit of the given value, and the sums with the deposit added.
pub open spec fn spec_add_deposit(
    collateral: ObligationCollateral,
    reserve: Reserve,
    sums: DepositSums,
    market_value: Decimal,
    lower_bound: Decimal,
) -> Result<(ObligationCollateral, DepositSums), ErrorCode> {
    match sums.deposited_value.spec_try_add(market_value) {
        Err(e) => Err(e),
        Ok(deposited_value) => match lower_bound.spec_try_mul(
            Decimal::spec_from_percent(reserve.config.loan_to_value_ratio as nat),
        ) {
            Err(e) => Err(e),
            Ok(allowed) => match sums.allowed_borrow_value.spec_try_add(allowed) {
                Err(e) => Err(e),
                Ok(allowed_borrow_value) => match market_value.spec_try_mul(
                    Decimal::spec_from_percent(reserve.config.liquidation_threshold as nat),
                ) {
                    Err(e) => Err(e),
                    Ok(unhealthy) => match sums.unhealthy_borrow_value.spec_try_add(unhealthy) {
                        Err(e) => Err(e),
                        Ok(unhealthy_borrow_value) => match market_value.spec_try_mul(
                            Decimal::spec_from_percent(
                                reserve.config.max_liquidation_threshold as nat,
                            ),
                        ) {
                            Err(e) => Err(e),
                            Ok(super_unhealthy) => match sums.super_unhealthy_borrow_value.spec_try_add(
                                super_unhealthy,
                            ) {
                                Err(e) => Err(e),
                                Ok(super_unhealthy_borrow_value) => Ok(
                                    (
                                        ObligationCollateral { market_value, ..collateral },
                                        DepositSums {
                                            deposited_value,
                                            allowed_borrow_value,
                                            unhealthy_borrow_value,
                                            super_unhealthy_borrow_value,
                                        },
                                    ),
                                ),
                            },
                        },
                    },
                },
            },
        },
    }
}

/// The deposits and the sums once the deposits from `index` on were
/// refreshed, each against the reserve at its own place.
pub open spec fn spec_refresh_deposits_from(
    deposits: Seq<ObligationCollateral>,
    sums: DepositSums,
    reserves: Seq<Account<Reserve>>,
    index: int,
    clock_slot: u64,
) -> Result<(Seq<ObligationCollateral>, DepositSums), ErrorCode>
    decreases deposits.len() - index,
{
    if index < 0 || index >= deposits.len() {
        Ok((deposits, sums))
    } else {
        match spec_refresh_deposit(deposits[index], reserves[index], sums, clock_slot) {
            Err(e) => Err(e),
            Ok((collateral, next)) => spec_refresh_deposits_from(
                deposits.update(index, collateral),
                next,
                reserves,
                index + 1,
                clock_slot,
            ),
        }
    }
}

/// Whether a borrow of the first weight and reserve is heavier than one of the second.
pub open spec fn heavier(a: (u64, Pubkey), b: (u64, Pubkey)) -> bool {
    a.0 > b.0 || (a.0 == b.0 && bytes_before(b.1@, a.1@))
}

/// The heaviest borrow once the borrow at `index` was looked at.
pub open spec fn spec_heaviest(
    so_far: Option<(u64, Pubkey, usize)>,
    liquidity: ObligationLiquidity,
    reserve: Account<Reserve>,
    index: usize,
) -> Option<(u64, Pubkey, usize)> {
    let weight = reserve.data.config.added_borrow_weight_bps;
    if liquidity.borrowed_amount_wads@ == 0 {
        so_far
    } else {
        match so_far {
            None => Some((weight, reserve.key, index)),
            Some((max_weight, max_key, _)) => if heavier(
                (weight, reserve.key),
                (max_weight, max_key),
            ) {
                Some((weight, reserve.key, index))
            } else {
                so_far
            },
        }
    }
}

/// A borrow with its interest and its value, and the sums with the borrow added.
///
/// Interest is accrued up to the index of the reserve. The value of what
/// is borrowed at the market price is the value of the borrow. Times the
/// borrow weight of the reserve it is its part of the borrowed value; the
/// value at the upper bound of the price, times the borrow weight, is its
/// part of the upper bound.
pub open spec fn spec_refresh_borrow(
    liquidity: ObligationLiquidity,
    reserve: Account<Reserve>,
    sums: BorrowSums,
    index: usize,
    clock_slot: u64,
) -> Result<(ObligationLiquidity, BorrowSums), ErrorCode> {
    if liquidity.borrow_reserve != reserve.key {
        Err(ErrorCode::InvalidAccountInput)
    } else {
        match spec_require_fresh(reserve.data, clock_slot) {
            Err(e) => Err(e),
            Ok(()) => match liquidity.spec_accrue_interest(
                reserve.data.liquidity.cumulative_borrow_rate_wads,
            ) {
                Err(e) => Err(e),
                Ok(accrued) => match reserve.data.spec_market_value(accrued.borrowed_amount_wads) {
                    Err(e) => Err(e),
                    Ok(market_value) => match reserve.data.spec_market_value_upper_bound(
                        accrued.borrowed_amount_wads,
                    ) {
                        Err(e) => Err(e),
                        Ok(upper_bound) => spec_add_borrow(
                            accrued,
                            reserve,
                            sums,
                            index,
                            market_value,
                            upper_bound,
                        ),
                    },
                },
            },
        }
    }
}

/// A borrow of the given value, and the sums with the borrow added.
pub open spec fn spec_add_borrow(
    accrued: ObligationLiquidity,
    reserve: Account<Reserve>,
    sums: BorrowSums,
    index: usize,
    market_value: Decimal,
    upper_bound: Decimal,
) -> Result<(ObligationLiquidity, BorrowSums), ErrorCode> {
    let borrow_weight = reserve.data.spec_borrow_weight();
    match market_value.spec_try_mul(borrow_weight) {
        Err(e) => Err(e),
        Ok(weighted) => match sums.borrowed_value.spec_try_add(weighted) {
            Err(e) => Err(e),
            Ok(borrowed_value) => match upper_bound.spec_try_mul(borrow_weight) {
                Err(e) => Err(e),
                Ok(weighted_upper) => match sums.borrowed_value_upper_bound.spec_try_add(
                    weighted_upper,
                ) {
                    Err(e) => Err(e),
                    Ok(borrowed_value_upper_bound) => match sums.unweighted_borrowed_value.spec_try_add(
                        market_value,
                    ) {
                        Err(e) => Err(e),
                        Ok(unweighted_borrowed_value) => Ok(
                            (
                                ObligationLiquidity { market_value, ..accrued },
                                BorrowSums {
                                    borrowed_value,
                                    unweighted_borrowed_value,
                                    borrowed_value_upper_bound,
                                    borrowing_isolated_asset: sums.borrowing_isolated_asset
                                        || reserve.data.config.reserve_type
                                        == ReserveType::Isolated,
                                    max_borrow_weight: spec_heaviest(
                                        sums.max_borrow_weight,
                                        accrued,
                                        reserve,
                                        index,
                                    ),
                                },
                            ),
                        ),
                    },
                },
            },
        },
    }
}

/// The borrows and the sums once the borrows from `index` on were
/// refreshed, each against the reserve that stands `base` places after its own.
pub open spec fn spec_refresh_borrows_from(
    borrows: Seq<ObligationLiquidity>,
    sums: BorrowSums,
    reserves: Seq<Account<Reserve>>,
    base: int,
    index: int,
    clock_slot: u64,
) -> Result<(Seq<ObligationLiquidity>, BorrowSums), ErrorCode>
    decreases borrows.len() - index,
{
    if index < 0 || index >= borrows.len() {
        Ok((borrows, sums))
    } else {
        match spec_refresh_borrow(
            borrows[index],
            reserves[base + index],
            sums,
            index as usize,
            clock_slot,
        ) {
            Err(e) => Err(e),
            Ok((liquidity, next)) => spec_refresh_borrows_from(
                borrows.update(index, liquidity),
                next,
                reserves,
                base,
                index + 1,
                clock_slot,
            ),
        }
    }
}

/// The entries of a sequence that are to be kept, in their order.
pub open spec fn kept<A>(entries: Seq<A>, keep: spec_fn(A) -> bool) -> Seq<A>
    decreases entries.len(),
{
    if entries.len() == 0 {
        entries
    } else if keep(entries.last()) {
        kept(entries.drop_last(), keep).push(entries.last())
    } else {
        kept(entries.drop_last(), keep)
    }
}

/// Entries that are kept are entries that there were, and no two of them
/// have the same key where no two of the entries had.
pub proof fn lemma_kept_distinct<A>(
    entries: Seq<A>,
    keep: spec_fn(A) -> bool,
    key: spec_fn(A) -> Pubkey,
)
    requires
        forall|i: int, j: int|
            0 <= i < j < entries.len() ==> key(#[trigger] entries[i]) != key(#[trigger] entries[j]),
    ensures
        kept(entries, keep).len() <= entries.len(),
        forall|k: int|
            0 <= k < kept(entries, keep).len() ==> exists|m: int|
                0 <= m < entries.len() && #[trigger] kept(entries, keep)[k] == entries[m],
        forall|i: int, j: int|
            0 <= i < j < kept(entries, keep).len() ==> key(#[trigger] kept(entries, keep)[i])
                != key(#[trigger] kept(entries, keep)[j]),
    decreases entries.len(),
{
    if entries.len() > 0 {
        let first = entries.drop_last();
        let last = entries.last();
        assert forall|i: int, j: int| 0 <= i < j < first.len() implies key(#[trigger] first[i])
            != key(#[trigger] first[j]) by {
            assert(first[i] == entries[i] && first[j] == entries[j]);
        }
        lemma_kept_distinct(first, keep, key);
        let before = kept(first, keep);
        let all = kept(entries, keep);
        assert forall|k: int| 0 <= k < all.len() implies exists|m: int|
            0 <= m < entries.len() && #[trigger] all[k] == entries[m] by {
            if k < before.len() {
                let m = choose|m: int| 0 <= m < first.len() && before[k] == first[m];
                assert(all[k] == entries[m]);
            } else {
                assert(all[k] == entries[entries.len() - 1]);
            }
        }
        assert forall|i: int, j: int| 0 <= i < j < all.len() implies key(#[trigger] all[i]) != key(
            #[trigger] all[j],
        ) by {
            if j < before.len() {
                assert(all[i] == before[i] && all[j] == before[j]);
            } else {
                let m = choose|m: int| 0 <= m < first.len() && before[i] == first[m];
                assert(all[i] == entries[m]);
                assert(all[j] == entries[entries.len() - 1]);
            }
        }
    }
}

/// The deposits that are not empty.
pub open spec fn spec_open_deposits(deposits: Seq<ObligationCollateral>) -> Seq<
    ObligationCollateral,
> {
    kept(deposits, |collateral: ObligationCollateral| collateral.deposited_amount > 0)
}

/// The borrows that are not empty.
pub open spec fn spec_open_borrows(borrows: Seq<ObligationLiquidity>) -> Seq<ObligationLiquidity> {
    kept(borrows, |liquidity: ObligationLiquidity| liquidity.borrowed_amount_wads@ > 0)
}

/// The borrows with the heaviest one moved to the front, in exchange for the first.
pub open spec fn spec_heaviest_first(
    borrows: Seq<ObligationLiquidity>,
    max_borrow_weight: Option<(u64, Pubkey, usize)>,
) -> Seq<ObligationLiquidity> {
    match max_borrow_weight {
        Some((_, _, index)) => borrows.update(0, borrows[index as int]).update(
            index as int,
            borrows[0],
        ),
        None => borrows,
    }
}

/// The sums over the deposits, held to the greatest values there are.
pub open spec fn spec_held(sums: DepositSums) -> DepositSums {
    let unhealthy = Decimal::spec_from_int(GLOBAL_UNHEALTHY_BORROW_VALUE as nat);
    DepositSums {
        allowed_borrow_value: sums.allowed_borrow_value.spec_min(
            Decimal::spec_from_int(GLOBAL_ALLOWED_BORROW_VALUE as nat),
        ),
        unhealthy_borrow_value: sums.unhealthy_borrow_value.spec_min(unhealthy),
        super_unhealthy_borrow_value: sums.super_unhealthy_borrow_value.spec_min(unhealthy),
        ..sums
    }
}

/// Sums of nothing.
pub open spec fn spec_no_deposits() -> DepositSums {
    DepositSums {
        deposited_value: Decimal::spec_zero(),
        allowed_borrow_value: Decimal::spec_zero(),
        unhealthy_borrow_value: Decimal::spec_zero(),
        super_unhealthy_borrow_value: Decimal::spec_zero(),
    }
}

/// Sums of nothing.
pub open spec fn spec_no_borrows() -> BorrowSums {
    BorrowSums {
        borrowed_value: Decimal::spec_zero(),
        unweighted_borrowed_value: Decimal::spec_zero(),
        borrowed_value_upper_bound: Decimal::spec_zero(),
        borrowing_isolated_asset: false,
        max_borrow_weight: None,
    }
}

/// What a refresh of an obligation leaves.
pub open spec fn spec_refresh_obligation(
    obligation: Obligation,
    reserves: Seq<Account<Reserve>>,
    clock_slot: u64,
) -> Result<ObligationRefreshed, ErrorCode> {
    if reserves.len() < obligation.deposits@.len() + obligation.borrows@.len() {
        Err(ErrorCode::InvalidAccountInput)
    } else {
        match spec_refresh_deposits_from(
            obligation.deposits@,
            spec_no_deposits(),
            reserves,
            0,
            clock_slot,
        ) {
            Err(e) => Err(e),
            Ok((deposits, deposit_sums)) => match spec_refresh_borrows_from(
                obligation.borrows@,
                spec_no_borrows(),
                reserves,
                obligation.deposits@.len() as int,
                0,
                clock_slot,
            ) {
                Err(e) => Err(e),
                Ok((borrows, borrow_sums)) => match spec_attribute_from(
                    Attribution { deposits, reserves, open_exceeded: None, close_exceeded: None },
                    0,
                    deposit_sums.deposited_value,
                    borrow_sums.unweighted_borrowed_value,
                ) {
                    Err(e) => Err(e),
                    Ok(attributed) => Ok(
                        ObligationRefreshed {
                            deposits: spec_open_deposits(attributed.deposits),
                            borrows: spec_open_borrows(
                                spec_heaviest_first(borrows, borrow_sums.max_borrow_weight),
                            ),
                            reserves: attributed.reserves,
                            deposit_sums: spec_held(deposit_sums),
                            borrow_sums,
                            closeable: attributed.close_exceeded is None,
                        },
                    ),
                },
            },
        }
    }
}

/// Whether an obligation and the reserves are what a refresh at the given
/// slot leaves of the obligation before.
pub open spec fn refreshed_to(
    before: Obligation,
    after: Obligation,
    reserves: Seq<Account<Reserve>>,
    outcome: ObligationRefreshed,
    clock_slot: u64,
) -> bool {
    &&& after.deposits@ == outcome.deposits
    &&& after.borrows@ == outcome.borrows
    &&& reserves == outcome.reserves
    &&& after == (Obligation {
        last_update: LastUpdate { slot: clock_slot, stale: false },
        deposits: after.deposits,
        borrows: after.borrows,
        deposited_value: outcome.deposit_sums.deposited_value,
        borrowed_value: outcome.borrow_sums.borrowed_value,
        unweighted_borrowed_value: outcome.borrow_sums.unweighted_borrowed_value,
        borrowed_value_upper_bound: outcome.borrow_sums.borrowed_value_upper_bound,
        allowed_borrow_value: outcome.deposit_sums.allowed_borrow_value,
        unhealthy_borrow_value: outcome.deposit_sums.unhealthy_borrow_value,
        super_unhealthy_borrow_value: outcome.deposit_sums.super_unhealthy_borrow_value,
        borrowing_isolated_asset: outcome.borrow_sums.borrowing_isolated_asset,
        closeable: outcome.closeable,
        ..before
    })
}

fn require_fresh(reserve: &Reserve, clock_slot: u64) -> (r: Result<(), ErrorCode>)
    ensures
        r == spec_require_fresh(*reserve, clock_slot),
{
    if reserve.last_update.is_stale(clock_slot)? {
        return Err(ErrorCode::ReserveStale);
    }
    Ok(())
}

fn refresh_deposit(
    collateral: &ObligationCollateral,
    reserve: &Account<Reserve>,
    sums: &DepositSums,
    clock_slot: u64,
) -> (r: Result<(ObligationCollateral, DepositSums), ErrorCode>)
    ensures
        r == spec_refresh_deposit(*collateral, *reserve, *sums, clock_slot),
{
    if !collateral.deposit_reserve.equals(&reserve.key) {
        return Err(ErrorCode::InvalidAccountInput);
    }
    require_fresh(&reserve.data, clock_slot)?;
    let liquidity_amount: u64 = reserve.data.collateral_exchange_rate()?.collateral_to_liquidity(
        collateral.deposited_amount,
    )?;
    let liquidity = Decimal::from_u64(liquidity_amount);
    let market_value = reserve.data.market_value(liquidity)?;
    let lower_bound = reserve.data.market_value_lower_bound(liquidity)?;
    let deposited_value = sums.deposited_value.try_add(market_value)?;
    let allowed_borrow_value = sums.allowed_borrow_value.try_add(
        lower_bound.try_mul(Decimal::from_percent(reserve.data.config.loan_to_value_ratio))?,
    )?;
    let unhealthy_borrow_value = sums.unhealthy_borrow_value.try_add(
        market_value.try_mul(Decimal::from_percent(reserve.data.config.liquidation_threshold))?,
    )?;
    let super_unhealthy_borrow_value = sums.super_unhealthy_borrow_value.try_add(
        market_value.try_mul(
            Decimal::from_percent(reserve.data.config.max_liquidation_threshold),
        )?,
    )?;
    let mut refreshed = *collateral;
    refreshed.market_value = market_value;
    Ok(
        (
            refreshed,
            DepositSums {
                deposited_value,
                allowed_borrow_value,
                unhealthy_borrow_value,
                super_unhealthy_borrow_value,
            },
        ),
    )
}

fn refresh_deposits(
    deposits: &Vec<ObligationCollateral>,
    reserves: &Vec<Account<Reserve>>,
    clock_slot: u64,
) -> (r: Result<(Vec<ObligationCollateral>, DepositSums), ErrorCode>)
    requires
        reserves.len() >= deposits.len(),
    ensures
        match r {
            Ok((refreshed, sums)) => spec_refresh_deposits_from(
                deposits@,
                spec_no_deposits(),
                reserves@,
                0,
                clock_slot,
            ) == Ok::<(Seq<ObligationCollateral>, DepositSums), ErrorCode>((refreshed@, sums))
                && refreshed.len() == deposits.len() && forall|k: int|
                0 <= k < deposits.len() ==> (#[trigger] refreshed[k]).deposit_reserve
                    == deposits[k].deposit_reserve,
            Err(e) => spec_refresh_deposits_from(
                deposits@,
                spec_no_deposits(),
                reserves@,
                0,
                clock_slot,
            ) == Err::<(Seq<ObligationCollateral>, DepositSums), ErrorCode>(e),
        },
{
    let mut refreshed = copy_of(deposits);
    let mut sums = DepositSums {
        deposited_value: Decimal::zero(),
        allowed_borrow_value: Decimal::zero(),
        unhealthy_borrow_value: Decimal::zero(),
        super_unhealthy_borrow_value: Decimal::zero(),
    };
    let mut i: usize = 0;
    while i < refreshed.len()
        invariant
            i <= refreshed.len(),
            refreshed.len() == deposits.len(),
            reserves.len() >= deposits.len(),
            forall|k: int|
                0 <= k < deposits.len() ==> (#[trigger] refreshed[k]).deposit_reserve
                    == deposits[k].deposit_reserve,
            spec_refresh_deposits_from(refreshed@, sums, reserves@, i as int, clock_slot)
                == spec_refresh_deposits_from(
                deposits@,
                spec_no_deposits(),
                reserves@,
                0,
                clock_slot,
            ),
        decreases refreshed.len() - i,
    {
        let (collateral, next) = refresh_deposit(&refreshed[i], &reserves[i], &sums, clock_slot)?;
        refreshed[i] = collateral;
        sums = next;
        i = i + 1;
    }
    Ok((refreshed, sums))
}

fn refresh_borrow(
    liquidity: &ObligationLiquidity,
    reserve: &Account<Reserve>,
    sums: &BorrowSums,
    index: usize,
    clock_slot: u64,
) -> (r: Result<(ObligationLiquidity, BorrowSums), ErrorCode>)
    ensures
        r == spec_refresh_borrow(*liquidity, *reserve, *sums, index, clock_slot),
{
    if !liquidity.borrow_reserve.equals(&reserve.key) {
        return Err(ErrorCode::InvalidAccountInput);
    }
    require_fresh(&reserve.data, clock_slot)?;
    let borrowing_isolated_asset = sums.borrowing_isolated_asset
        || reserve.data.config.reserve_type == ReserveType::Isolated;
    let mut accrued = *liquidity;
    accrued.accrue_interest(reserve.data.liquidity.cumulative_borrow_rate_wads)?;
    let weight: u64 = reserve.data.config.added_borrow_weight_bps;
    let max_borrow_weight = if accrued.borrowed_amount_wads.is_zero() {
        sums.max_borrow_weight
    } else {
        match sums.max_borrow_weight {
            None => Some((weight, reserve.key, index)),
            Some((max_weight, max_key, _)) => {
                if weight > max_weight || (weight == max_weight && max_key.before(&reserve.key)) {
                    Some((weight, reserve.key, index))
                } else {
                    sums.max_borrow_weight
                }
            },
        }
    };
    let market_value = reserve.data.market_value(accrued.borrowed_amount_wads)?;
    let upper_bound = reserve.data.market_value_upper_bound(accrued.borrowed_amount_wads)?;
    let borrow_weight = reserve.data.borrow_weight();
    let borrowed_value = sums.borrowed_value.try_add(market_value.try_mul(borrow_weight)?)?;
    let borrowed_value_upper_bound = sums.borrowed_value_upper_bound.try_add(
        upper_bound.try_mul(borrow_weight)?,
    )?;
    let unweighted_borrowed_value = sums.unweighted_borrowed_value.try_add(market_value)?;
    accrued.market_value = market_value;
    Ok(
        (
            accrued,
            BorrowSums {
                borrowed_value,
                unweighted_borrowed_value,
                borrowed_value_upper_bound,
                borrowing_isolated_asset,
                max_borrow_weight,
            },
        ),
    )
}

fn refresh_borrows(
    borrows: &Vec<ObligationLiquidity>,
    reserves: &Vec<Account<Reserve>>,
    base: usize,
    clock_slot: u64,
) -> (r: Result<(Vec<ObligationLiquidity>, BorrowSums), ErrorCode>)
    requires
        reserves.len() >= base + borrows.len(),
    ensures
        match r {
            Ok((refreshed, sums)) => spec_refresh_borrows_from(
                borrows@,
                spec_no_borrows(),
                reserves@,
                base as int,
                0,
                clock_slot,
            ) == Ok::<(Seq<ObligationLiquidity>, BorrowSums), ErrorCode>((refreshed@, sums))
                && refreshed.len() == borrows.len() && (forall|k: int|
                0 <= k < borrows.len() ==> (#[trigger] refreshed[k]).borrow_reserve
                    == borrows[k].borrow_reserve) && (match sums.max_borrow_weight {
                Some((_, _, index)) => index < borrows.len(),
                None => true,
            }),
            Err(e) => spec_refresh_borrows_from(
                borrows@,
                spec_no_borrows(),
                reserves@,
                base as int,
                0,
                clock_slot,
            ) == Err::<(Seq<ObligationLiquidity>, BorrowSums), ErrorCode>(e),
        },
{
    let mut refreshed = copy_of(borrows);
    let mut sums = BorrowSums {
        borrowed_value: Decimal::zero(),
        unweighted_borrowed_value: Decimal::zero(),
        borrowed_value_upper_bound: Decimal::zero(),
        borrowing_isolated_asset: false,
        max_borrow_weight: None,
    };
    let mut i: usize = 0;
    while i < refreshed.len()
        invariant
            i <= refreshed.len(),
            refreshed.len() == borrows.len(),
            reserves.len() >= base + borrows.len(),
            forall|k: int|
                0 <= k < borrows.len() ==> (#[trigger] refreshed[k]).borrow_reserve
                    == borrows[k].borrow_reserve,
            match sums.max_borrow_weight {
                Some((_, _, index)) => index < i,
                None => true,
            },
            spec_refresh_borrows_from(
                refreshed@,
                sums,
                reserves@,
                base as int,
                i as int,
                clock_slot,
            ) == spec_refresh_borrows_from(
                borrows@,
                spec_no_borrows(),
                reserves@,
                base as int,
                0,
                clock_slot,
            ),
        decreases refreshed.len() - i,
    {
        let (liquidity, next) = refresh_borrow(
            &refreshed[i],
            &reserves[base + i],
            &sums,
            i,
            clock_slot,
        )?;
        refreshed[i] = liquidity;
        sums = next;
        i = i + 1;
    }
    Ok((refreshed, sums))
}

fn open_deposits(deposits: &Vec<ObligationCollateral>) -> (r: Vec<ObligationCollateral>)
    ensures
        r@ == spec_open_deposits(deposits@),
{
    let mut open: Vec<ObligationCollateral> = Vec::new();
    let mut i: usize = 0;
    while i < deposits.len()
        invariant
            i <= deposits.len(),
            open@ == spec_open_deposits(deposits@.subrange(0, i as int)),
        decreases deposits.len() - i,
    {
        assert(deposits@.subrange(0, i + 1).drop_last() == deposits@.subrange(0, i as int));
        if deposits[i].deposited_amount > 0 {
            open.push(deposits[i]);
        }
        i = i + 1;
    }
    assert(deposits@.subrange(0, deposits.len() as int) == deposits@);
    open
}

fn open_borrows(borrows: &Vec<ObligationLiquidity>) -> (r: Vec<ObligationLiquidity>)
    ensures
        r@ == spec_open_borrows(borrows@),
{
    let mut open: Vec<ObligationLiquidity> = Vec::new();
    let mut i: usize = 0;
    while i < borrows.len()
        invariant
            i <= borrows.len(),
            open@ == spec_open_borrows(borrows@.subrange(0, i as int)),
        decreases borrows.len() - i,
    {
        assert(borrows@.subrange(0, i + 1).drop_last() == borrows@.subrange(0, i as int));
        if !borrows[i].borrowed_amount_wads.is_zero() {
            open.push(borrows[i]);
        }
        i = i + 1;
    }
    assert(borrows@.subrange(0, borrows.len() as int) == borrows@);
    open
}

/// Refreshes an obligation.
///
/// At least as many reserves as the obligation has positions must be
/// handed in: the reserve of each deposit at the place of the deposit, then
/// the reserve of each borrow, each of them refreshed in the current slot.
/// Every deposit is valued, every borrow accrues interest and is valued;
/// the values and the borrowing limits of the obligation are summed up
/// anew, the limits held to the greatest values there are; the borrows
/// attributed to the reserves of the deposits are brought up to date; the
/// heaviest borrow is moved to the front; empty positions are removed. The
/// obligation is marked as updated. Where the refresh fails, nothing is
/// changed.
pub fn handle_refresh_obligation(ctx: &mut Context<RefreshObligation>, clock_slot: u64) -> (r:
    Result<(), ErrorCode>)
    ensures
        match r {
            Ok(()) => spec_refresh_obligation(
                old(ctx).accounts.obligation.data,
                old(ctx).remaining_accounts@,
                clock_slot,
            ) is Ok && refreshed_to(
                old(ctx).accounts.obligation.data,
                final(ctx).accounts.obligation.data,
                final(ctx).remaining_accounts@,
                spec_refresh_obligation(
                    old(ctx).accounts.obligation.data,
                    old(ctx).remaining_accounts@,
                    clock_slot,
                )->Ok_0,
                clock_slot,
            ) && final(ctx).accounts.obligation.key == old(ctx).accounts.obligation.key,
            Err(e) => spec_refresh_obligation(
                old(ctx).accounts.obligation.data,
                old(ctx).remaining_accounts@,
                clock_slot,
            ) == Err::<ObligationRefreshed, ErrorCode>(e) && *final(ctx) == *old(ctx),
        },
        final(ctx).program_id == old(ctx).program_id,
        old(ctx).accounts.obligation.data.wf() ==> final(ctx).accounts.obligation.data.wf(),
        same_reserves_but_attribution(old(ctx).remaining_accounts@, final(ctx).remaining_accounts@),
{
    let obligation = &ctx.accounts.obligation.data;
    let deposits_len: usize = obligation.deposits.len();
    if ctx.remaining_accounts.len() < deposits_len || ctx.remaining_accounts.len() - deposits_len
        < obligation.borrows.len() {
        return Err(ErrorCode::InvalidAccountInput);
    }
    let (deposits, deposit_sums) = refresh_deposits(
        &obligation.deposits,
        &ctx.remaining_accounts,
        clock_slot,
    )?;
    let (mut borrows, borrow_sums) = refresh_borrows(
        &obligation.borrows,
        &ctx.remaining_accounts,
        deposits_len,
        clock_slot,
    )?;
    let global_unhealthy_borrow_value = Decimal::from_u64(GLOBAL_UNHEALTHY_BORROW_VALUE);
    let global_allowed_borrow_value = Decimal::from_u64(GLOBAL_ALLOWED_BORROW_VALUE);
    let mut refreshed = Obligation {
        version: obligation.version,
        last_update: LastUpdate { slot: clock_slot, stale: false },
        lending_market: obligation.lending_market,
        owner: obligation.owner,
        deposits,
        borrows: Vec::new(),
        deposited_value: deposit_sums.deposited_value,
        borrowed_value: borrow_sums.borrowed_value,
        unweighted_borrowed_value: borrow_sums.unweighted_borrowed_value,
        borrowed_value_upper_bound: borrow_sums.borrowed_value_upper_bound,
        allowed_borrow_value: deposit_sums.allowed_borrow_value.min(global_allowed_borrow_value),
        unhealthy_borrow_value: deposit_sums.unhealthy_borrow_value.min(
            global_unhealthy_borrow_value,
        ),
        super_unhealthy_borrow_value: deposit_sums.super_unhealthy_borrow_value.min(
            global_unhealthy_borrow_value,
        ),
        borrowing_isolated_asset: borrow_sums.borrowing_isolated_asset,
        closeable: obligation.closeable,
        key: obligation.key,
    };
    let mut reserves = copy_of(&ctx.remaining_accounts);
    let (_, close_exceeded) = update_borrow_attribution_values(&mut refreshed, &mut reserves)?;
    refreshed.closeable = close_exceeded.is_none();
    // the borrow with the greatest borrow weight goes to the front
    if let Some((_, _, max_borrow_weight_index)) = borrow_sums.max_borrow_weight {
        let first = borrows[0];
        let heaviest = borrows[max_borrow_weight_index];
        borrows[0] = heaviest;
        borrows[max_borrow_weight_index] = first;
    }
    proof {
        if obligation.wf() {
            let attributed = refreshed.deposits@;
            assert forall|i: int, j: int| 0 <= i < j < attributed.len() implies (
            #[trigger] attributed[i]).deposit_reserve != (
            #[trigger] attributed[j]).deposit_reserve by {
                assert(attributed[i].deposit_reserve == obligation.deposits[i].deposit_reserve);
                assert(attributed[j].deposit_reserve == obligation.deposits[j].deposit_reserve);
            }
            lemma_kept_distinct(
                attributed,
                |collateral: ObligationCollateral| collateral.deposited_amount > 0,
                |collateral: ObligationCollateral| collateral.deposit_reserve,
            );
            let ordered = borrows@;
            assert forall|i: int, j: int| 0 <= i < j < ordered.len() implies (
            #[trigger] ordered[i]).borrow_reserve != (#[trigger] ordered[j]).borrow_reserve by {
                let from = |k: int|
                    match borrow_sums.max_borrow_weight {
                        Some((_, _, index)) => if k == 0 {
                            index as int
                        } else if k == index {
                            0
                        } else {
                            k
                        },
                        None => k,
                    };
                assert(ordered[i].borrow_reserve == obligation.borrows[from(i)].borrow_reserve);
                assert(ordered[j].borrow_reserve == obligation.borrows[from(j)].borrow_reserve);
                if from(i) < from(j) {
                    assert(obligation.borrows[from(i)].borrow_reserve
                        != obligation.borrows[from(j)].borrow_reserve);
                } else {
                    assert(obligation.borrows[from(j)].borrow_reserve
                        != obligation.borrows[from(i)].borrow_reserve);
                }
            }
            lemma_kept_distinct(
                ordered,
                |liquidity: ObligationLiquidity| liquidity.borrowed_amount_wads@ > 0,
                |liquidity: ObligationLiquidity| liquidity.borrow_reserve,
            );
        }
    }
    // positions with nothing in them are dropped
    refreshed.deposits = open_deposits(&refreshed.deposits);
    refreshed.borrows = open_borrows(&borrows);
    ctx.accounts.obligation.data = refreshed;
    ctx.remaining_accounts = reserves;
    Ok(())
}

} // verus!
