//! Attribution of an obligation's debt to the reserves of its collateral.
//!
//! Every reserve keeps the sum, over all obligations, of the debt that is
//! attributed to its collateral. An obligation attributes its unweighted
//! debt to its deposits in proportion to their value.

use crate::account::Account;
use crate::error::ErrorCode;
use crate::math::decimal::Decimal;
use crate::pubkey::Pubkey;
use crate::state::obligation::{Obligation, ObligationCollateral};
use crate::state::reserve::Reserve;
use vstd::prelude::*;

verus! {

/// The deposits, the reserves and the limits found exceeded, while the
/// attribution of an obligation is brought up to date.
pub struct Attribution {
    /// Deposits of the obligation.
    pub deposits: Seq<ObligationCollateral>,
    /// Reserves handed in.
    pub reserves: Seq<Account<Reserve>>,
    /// Reserve of the last deposit whose reserve exceeds its opening limit.
    pub open_exceeded: Option<Pubkey>,
    /// Reserve of the last deposit whose reserve exceeds its closing limit.
    pub close_exceeded: Option<Pubkey>,
}

/// The place of the first account at or after `start` that is stored at `key`.
pub open spec fn spec_find_reserve_from(
    reserves: Seq<Account<Reserve>>,
    key: Pubkey,
    start: int,
) -> Option<int>
    decreases reserves.len() - start,
{
    if start < 0 || start >= reserves.len() {
        None
    } else if reserves[start].key == key {
        Some(start)
    } else {
        spec_find_reserve_from(reserves, key, start + 1)
    }
}

/// The place of the first account that is stored at `key`.
pub open spec fn spec_find_reserve(reserves: Seq<Account<Reserve>>, key: Pubkey) -> Option<int> {
    spec_find_reserve_from(reserves, key, 0)
}

/// The part of an obligation's unweighted debt that is attributed to a
/// deposit: the debt in proportion to the deposit's share of the deposited
/// value, and nothing where nothing of value is deposited.
pub open spec fn spec_attributed_value(
    market_value: Decimal,
    deposited_value: Decimal,
    unweighted_borrowed_value: Decimal,
) -> Result<Decimal, ErrorCode> {
    if deposited_value@ > 0 {
        match market_value.spec_try_mul(unweighted_borrowed_value) {
            Err(e) => Err(e),
            Ok(product) => product.spec_try_div(deposited_value),
        }
    } else {
        Ok(Decimal::spec_zero())
    }
}

/// The attribution once the deposit at `index` was brought up to date.
///
/// What the deposit had attributed leaves the sum of its reserve, what it
/// attributes now enters it, and the sum is held against the two limits of
/// the reserve.
pub open spec fn spec_attribute_deposit(
    state: Attribution,
    index: int,
    deposited_value: Decimal,
    unweighted_borrowed_value: Decimal,
) -> Result<Attribution, ErrorCode> {
    let collateral = state.deposits[index];
    match spec_find_reserve(state.reserves, collateral.deposit_reserve) {
        None => Err(ErrorCode::InvalidObligationCollateral),
        Some(place) => {
            let account = state.reserves[place];
            match account.data.attributed_borrow_value.spec_try_sub(
                collateral.attributed_borrow_value,
            ) {
                Err(e) => Err(e),
                Ok(without) => match spec_attributed_value(
                    collateral.market_value,
                    deposited_value,
                    unweighted_borrowed_value,
                ) {
                    Err(e) => Err(e),
                    Ok(attributed) => match without.spec_try_add(attributed) {
                        Err(e) => Err(e),
                        Ok(sum) => Ok(
                            Attribution {
                                deposits: state.deposits.update(
                                    index,
                                    ObligationCollateral {
                                        attributed_borrow_value: attributed,
                                        ..collateral
                                    },
                                ),
                                reserves: state.reserves.update(
                                    place,
                                    Account {
                                        data: Reserve {
                                            attributed_borrow_value: sum,
                                            ..account.data
                                        },
                                        ..account
                                    },
                                ),
                                open_exceeded: if sum@ > Decimal::spec_from_int(
                                    account.data.config.attributed_borrow_limit_open as nat,
                                )@ {
                                    Some(collateral.deposit_reserve)
                                } else {
                                    state.open_exceeded
                                },
                                close_exceeded: if sum@ > Decimal::spec_from_int(
                                    account.data.config.attributed_borrow_limit_close as nat,
                                )@ {
                                    Some(collateral.deposit_reserve)
                                } else {
                                    state.close_exceeded
                                },
                            },
                        ),
                    },
                },
            }
        },
    }
}

/// The attribution once the deposits from `index` on were brought up to date, in order.
pub open spec fn spec_attribute_from(
    state: Attribution,
    index: int,
    deposited_value: Decimal,
    unweighted_borrowed_value: Decimal,
) -> Result<Attribution, ErrorCode>
    decreases state.deposits.len() - index,
{
    if index < 0 || index >= state.deposits.len() {
        Ok(state)
    } else {
        match spec_attribute_deposit(state, index, deposited_value, unweighted_borrowed_value) {
            Err(e) => Err(e),
            Ok(next) => if next.deposits.len() == state.deposits.len() {
                spec_attribute_from(next, index + 1, deposited_value, unweighted_borrowed_value)
            } else {
                Ok(next)
            },
        }
    }
}

/// What [`update_borrow_attribution_values`] leaves and returns.
pub open spec fn spec_update_borrow_attribution_values(
    obligation: Obligation,
    reserves: Seq<Account<Reserve>>,
) -> Result<Attribution, ErrorCode> {
    spec_attribute_from(
        Attribution {
            deposits: obligation.deposits@,
            reserves,
            open_exceeded: None,
            close_exceeded: None,
        },
        0,
        obligation.deposited_value,
        obligation.unweighted_borrowed_value,
    )
}

/// Whether the reserves are what they were but for the borrows attributed.
pub open spec fn same_reserves_but_attribution(
    reserves_before: Seq<Account<Reserve>>,
    reserves_after: Seq<Account<Reserve>>,
) -> bool {
    &&& reserves_after.len() == reserves_before.len()
    &&& forall|i: int|
        0 <= i < reserves_after.len() ==> #[trigger] reserves_after[i] == (Account {
            data: Reserve {
                attributed_borrow_value: reserves_after[i].data.attributed_borrow_value,
                ..reserves_before[i].data
            },
            ..reserves_before[i]
        })
}

/// Whether the deposits and the reserves are what they were but for the
/// borrows attributed.
pub open spec fn only_attribution_differs(
    deposits_before: Seq<ObligationCollateral>,
    deposits_after: Seq<ObligationCollateral>,
    reserves_before: Seq<Account<Reserve>>,
    reserves_after: Seq<Account<Reserve>>,
) -> bool {
    &&& deposits_after.len() == deposits_before.len()
    &&& forall|i: int|
        0 <= i < deposits_after.len() ==> #[trigger] deposits_after[i] == (ObligationCollateral {
            attributed_borrow_value: deposits_after[i].attributed_borrow_value,
            ..deposits_before[i]
        })
    &&& same_reserves_but_attribution(reserves_before, reserves_after)
}

fn find_reserve(reserve_accounts: &Vec<Account<Reserve>>, key: &Pubkey) -> (r: Option<usize>)
    ensures
        match r {
            Some(place) => spec_find_reserve(reserve_accounts@, *key) == Some(place as int)
                && place < reserve_accounts.len(),
            None => spec_find_reserve(reserve_accounts@, *key) is None,
        },
{
    let mut j: usize = 0;
    while j < reserve_accounts.len()
        invariant
            j <= reserve_accounts.len(),
            spec_find_reserve_from(reserve_accounts@, *key, j as int) == spec_find_reserve(
                reserve_accounts@,
                *key,
            ),
        decreases reserve_accounts.len() - j,
    {
        if reserve_accounts[j].key.equals(key) {
            return Some(j);
        }
        j = j + 1;
    }
    None
}

/// A copy of a vector of values that are copied bit by bit.
pub fn copy_of<T: Copy>(values: &Vec<T>) -> (r: Vec<T>)
    ensures
        r@ == values@,
{
    let mut copy: Vec<T> = Vec::new();
    let mut i: usize = 0;
    while i < values.len()
        invariant
            i <= values.len(),
            copy@ == values@.subrange(0, i as int),
        decreases values.len() - i,
    {
        copy.push(values[i]);
        assert(values@.subrange(0, i + 1) == values@.subrange(0, i as int).push(values@[i as int]));
        i = i + 1;
    }
    assert(values@.subrange(0, values.len() as int) == values@);
    copy
}

/// Brings the debt that an obligation attributes to its deposits, and the
/// sums of the reserves of those deposits, up to date.
///
/// The value of the deposits, the deposited value and the unweighted
/// borrowed value of the obligation must have been refreshed. Every deposit
/// takes the first of the reserves handed in that is stored at the address
/// of its reserve; a deposit that finds none is refused. Returned are the
/// reserve of the last deposit whose reserve exceeds its opening limit, and
/// the same for the closing limit.
pub fn update_borrow_attribution_values(
    obligation: &mut Obligation,
    reserve_accounts: &mut Vec<Account<Reserve>>,
) -> (r: Result<(Option<Pubkey>, Option<Pubkey>), ErrorCode>)
    ensures
        *final(obligation) == (Obligation { deposits: final(obligation).deposits, ..*old(obligation) }),
        final(obligation).deposits.len() == old(obligation).deposits.len(),
        final(reserve_accounts).len() == old(reserve_accounts).len(),
        only_attribution_differs(
            old(obligation).deposits@,
            final(obligation).deposits@,
            old(reserve_accounts)@,
            final(reserve_accounts)@,
        ),
        match r {
            Ok((open_exceeded, close_exceeded)) => spec_update_borrow_attribution_values(
                *old(obligation),
                old(reserve_accounts)@,
            ) == Ok::<Attribution, ErrorCode>(
                Attribution {
                    deposits: final(obligation).deposits@,
                    reserves: final(reserve_accounts)@,
                    open_exceeded,
                    close_exceeded,
                },
            ),
            Err(e) => spec_update_borrow_attribution_values(*old(obligation), old(reserve_accounts)@)
                == Err::<Attribution, ErrorCode>(e) && *final(obligation) == *old(obligation)
                && *final(reserve_accounts) == *old(reserve_accounts),
        },
{
    let mut open_exceeded: Option<Pubkey> = None;
    let mut close_exceeded: Option<Pubkey> = None;
    let mut deposits = copy_of(&obligation.deposits);
    let mut reserves = copy_of(reserve_accounts);
    let deposited_value = obligation.deposited_value;
    let unweighted_borrowed_value = obligation.unweighted_borrowed_value;
    let ghost whole = spec_update_borrow_attribution_values(*obligation, reserve_accounts@);
    let mut i: usize = 0;
    while i < deposits.len()
        invariant
            i <= deposits.len(),
            *obligation == *old(obligation),
            *reserve_accounts == *old(reserve_accounts),
            deposits.len() == obligation.deposits.len(),
            reserves.len() == reserve_accounts.len(),
            only_attribution_differs(
                obligation.deposits@,
                deposits@,
                reserve_accounts@,
                reserves@,
            ),
            whole == spec_update_borrow_attribution_values(
                *old(obligation),
                old(reserve_accounts)@,
            ),
            spec_attribute_from(
                Attribution {
                    deposits: deposits@,
                    reserves: reserves@,
                    open_exceeded,
                    close_exceeded,
                },
                i as int,
                deposited_value,
                unweighted_borrowed_value,
            ) == whole,
        decreases deposits.len() - i,
    {
        let mut collateral = deposits[i];
        let place: usize = match find_reserve(&reserves, &collateral.deposit_reserve) {
            Some(place) => place,
            None => { return Err(ErrorCode::InvalidObligationCollateral); },
        };
        let mut account = reserves[place];
        // what the deposit had attributed leaves the sum of its reserve
        let without = account.data.attributed_borrow_value.try_sub(
            collateral.attributed_borrow_value,
        )?;
        let attributed = if !deposited_value.is_zero() {
            collateral.market_value.try_mul(unweighted_borrowed_value)?.try_div(deposited_value)?
        } else {
            Decimal::zero()
        };
        // what it attributes now enters it
        let sum = without.try_add(attributed)?;
        collateral.attributed_borrow_value = attributed;
        account.data.attributed_borrow_value = sum;
        if sum.gt(&Decimal::from_u64(account.data.config.attributed_borrow_limit_open)) {
            open_exceeded = Some(collateral.deposit_reserve);
        }
        if sum.gt(&Decimal::from_u64(account.data.config.attributed_borrow_limit_close)) {
            close_exceeded = Some(collateral.deposit_reserve);
        }
        deposits[i] = collateral;
        reserves[place] = account;
        i = i + 1;
    }
    obligation.deposits = deposits;
    *reserve_accounts = reserves;
    Ok((open_exceeded, close_exceeded))
}

} // verus!
