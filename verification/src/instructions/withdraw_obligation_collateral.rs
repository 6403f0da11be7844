//! Withdrawing collateral from an obligation.

use crate::account::{Account, Context};
use crate::error::ErrorCode;
use crate::math::decimal::Decimal;
use crate::pubkey::Pubkey;
use crate::state::last_update::LastUpdate;
use crate::state::lending_market::LendingMarket;
use crate::state::obligation::{spec_find_collateral_index, Obligation, ObligationCollateral};
use crate::state::reserve::Reserve;
use crate::utils::update_borrow_attribution_values::{
    copy_of, same_reserves_but_attribution, spec_attribute_from,
    update_borrow_attribution_values, Attribution,
};
use vstd::prelude::*;

verus! {

/// The accounts of [`handle_withdraw_obligation_collateral`].
///
/// The reserves of all deposits of the obligation are handed in after them.
#[derive(Clone, Debug, PartialEq)]
pub struct WithdrawObligationCollateral {
    /// Where the collateral goes to.
    pub collateral_user_account: Pubkey,
    /// Where the reserve keeps the collateral deposited in obligations.
    pub collateral_reserve_account: Pubkey,
    /// The reserve the collateral belongs to.
    pub withdraw_reserve: Account<Reserve>,
    /// The obligation to withdraw from.
    pub obligation: Account<Obligation>,
    /// The lending market of both.
    pub lending_market: Account<LendingMarket>,
    /// Who signs: the owner of the obligation.
    pub signer: Pubkey,
    /// Token program.
    pub token_program: Pubkey,
}

/// What a withdrawal of collateral leaves and returns.
pub struct CollateralWithdrawn {
    /// Amount of collateral to hand out.
    pub withdraw_amount: u64,
    /// Value of the deposits of the obligation.
    pub deposited_value: Decimal,
    /// The deposits of the obligation.
    pub deposits: Seq<ObligationCollateral>,
    /// The reserves handed in.
    pub reserves: Seq<Account<Reserve>>,
}

/// What is withdrawn: from which deposit, how much, and what it is worth.
pub struct WithdrawSize {
    /// Place of the deposit.
    pub index: usize,
    /// Amount of collateral withdrawn.
    pub withdraw_amount: u64,
    /// Value of the collateral withdrawn.
    pub withdraw_value: Decimal,
}

/// The first of the accounts of a withdrawal that is not the one it has to be.
pub open spec fn spec_withdraw_mismatch(accounts: WithdrawObligationCollateral) -> Option<
    ErrorCode,
> {
    let reserve = accounts.withdraw_reserve.data;
    if accounts.lending_market.data.token_program_id != accounts.token_program {
        Some(ErrorCode::InvalidTokenProgram)
    } else if reserve.lending_market != accounts.lending_market.key {
        Some(ErrorCode::InvalidLendingMarketAccount)
    } else if reserve.collateral.supply_pubkey == accounts.collateral_user_account {
        Some(ErrorCode::InvalidDestinationOfCollateral)
    } else if reserve.collateral.supply_pubkey != accounts.collateral_reserve_account {
        Some(ErrorCode::InvalidSourceOfCollateral)
    } else if accounts.obligation.data.lending_market != accounts.lending_market.key {
        Some(ErrorCode::InvalidLendingMarketAccount)
    } else if accounts.obligation.data.owner != accounts.signer {
        Some(ErrorCode::ObligationNotOwnedBySigner)
    } else {
        None
    }
}

/// What a withdrawal of up to `collateral_amount` from the obligation's
/// deposit in the reserve comes to.
pub open spec fn spec_withdraw_size(
    obligation: Obligation,
    withdraw_reserve: Account<Reserve>,
    collateral_amount: u64,
) -> Result<WithdrawSize, ErrorCode> {
    if obligation.deposits@.len() == 0 {
        Err(ErrorCode::ObligationDepositsEmpty)
    } else {
        match spec_find_collateral_index(obligation.deposits@, withdraw_reserve.key) {
            None => Err(ErrorCode::InvalidObligationCollateral),
            Some(index) => {
                let collateral = obligation.deposits@[index];
                if collateral.deposited_amount == 0 {
                    Err(ErrorCode::ObligationCollateralEmpty)
                } else {
                    match obligation.spec_max_withdraw_amount(&collateral, &withdraw_reserve.data) {
                        Err(e) => Err(e),
                        Ok(max_withdraw_amount) => {
                            let withdraw_amount = if collateral_amount < max_withdraw_amount {
                                collateral_amount
                            } else {
                                max_withdraw_amount
                            };
                            if withdraw_amount == 0 {
                                Err(ErrorCode::WithdrawTooLarge)
                            } else {
                                match withdraw_reserve.data.spec_collateral_exchange_rate() {
                                    Err(e) => Err(e),
                                    Ok(rate) => match rate.spec_collateral_to_liquidity(
                                        withdraw_amount as nat,
                                    ) {
                                        Err(e) => Err(e),
                                        Ok(liquidity_amount) => match withdraw_reserve.data.spec_market_value(
                                            Decimal::spec_from_int(liquidity_amount as nat),
                                        ) {
                                            Err(e) => Err(e),
                                            Ok(withdraw_value) => Ok(
                                                WithdrawSize {
                                                    index: index as usize,
                                                    withdraw_amount,
                                                    withdraw_value,
                                                },
                                            ),
                                        },
                                    },
                                }
                            }
                        },
                    }
                }
            },
        }
    }
}

/// What a withdrawal of the given size leaves: the value withdrawn leaves
/// the obligation, the borrows attributed are brought up to date, no
/// reserve may exceed a limit of attributed borrows, and the collateral
/// leaves its deposit.
pub open spec fn spec_withdrawn(
    obligation: Obligation,
    reserves: Seq<Account<Reserve>>,
    size: WithdrawSize,
) -> Result<CollateralWithdrawn, ErrorCode> {
    let index = size.index as int;
    let collateral = obligation.deposits@[index];
    let deposited_value = obligation.deposited_value.spec_saturating_sub(size.withdraw_value);
    let deposits = obligation.deposits@.update(
        index,
        ObligationCollateral {
            market_value: collateral.market_value.spec_saturating_sub(size.withdraw_value),
            ..collateral
        },
    );
    match spec_attribute_from(
        Attribution { deposits, reserves, open_exceeded: None, close_exceeded: None },
        0,
        deposited_value,
        obligation.unweighted_borrowed_value,
    ) {
        Err(e) => Err(e),
        Ok(attributed) => if attributed.open_exceeded is Some || attributed.close_exceeded is Some {
            Err(ErrorCode::BorrowAttributionLimitExceeded)
        } else {
            match Obligation::spec_withdraw(attributed.deposits, size.withdraw_amount, index) {
                Err(e) => Err(e),
                Ok(left) => Ok(
                    CollateralWithdrawn {
                        withdraw_amount: size.withdraw_amount,
                        deposited_value,
                        deposits: left,
                        reserves: attributed.reserves,
                    },
                ),
            }
        },
    }
}

/// What a withdrawal of collateral from an obligation leaves and returns.
pub open spec fn spec_withdraw_obligation_collateral(
    accounts: WithdrawObligationCollateral,
    reserves: Seq<Account<Reserve>>,
    collateral_amount: u64,
    clock_slot: u64,
) -> Result<CollateralWithdrawn, ErrorCode> {
    if collateral_amount == 0 {
        Err(ErrorCode::InvalidAmount)
    } else {
        match spec_withdraw_mismatch(accounts) {
            Some(e) => Err(e),
            None => if accounts.obligation.data.last_update.spec_is_stale(clock_slot) != Ok::<
                bool,
                ErrorCode,
            >(false) {
                Err(ErrorCode::ObligationStale)
            } else if accounts.withdraw_reserve.data.last_update.spec_is_stale(clock_slot) != Ok::<
                bool,
                ErrorCode,
            >(false) {
                Err(ErrorCode::ReserveStale)
            } else {
                match spec_withdraw_size(
                    accounts.obligation.data,
                    accounts.withdraw_reserve,
                    collateral_amount,
                ) {
                    Err(e) => Err(e),
                    Ok(size) => spec_withdrawn(accounts.obligation.data, reserves, size),
                }
            },
        }
    }
}

fn withdraw_mismatch(accounts: &WithdrawObligationCollateral) -> (r: Option<ErrorCode>)
    ensures
        r == spec_withdraw_mismatch(*accounts),
{
    let reserve = &accounts.withdraw_reserve.data;
    if !accounts.lending_market.data.token_program_id.equals(&accounts.token_program) {
        return Some(ErrorCode::InvalidTokenProgram);
    }
    if !reserve.lending_market.equals(&accounts.lending_market.key) {
        return Some(ErrorCode::InvalidLendingMarketAccount);
    }
    if reserve.collateral.supply_pubkey.equals(&accounts.collateral_user_account) {
        return Some(ErrorCode::InvalidDestinationOfCollateral);
    }
    if !reserve.collateral.supply_pubkey.equals(&accounts.collateral_reserve_account) {
        return Some(ErrorCode::InvalidSourceOfCollateral);
    }
    if !accounts.obligation.data.lending_market.equals(&accounts.lending_market.key) {
        return Some(ErrorCode::InvalidLendingMarketAccount);
    }
    if !accounts.obligation.data.owner.equals(&accounts.signer) {
        return Some(ErrorCode::ObligationNotOwnedBySigner);
    }
    None
}

fn withdraw_size(
    obligation: &Obligation,
    withdraw_reserve: &Account<Reserve>,
    collateral_amount: u64,
) -> (r: Result<WithdrawSize, ErrorCode>)
    ensures
        r == spec_withdraw_size(*obligation, *withdraw_reserve, collateral_amount),
        r is Ok ==> r->Ok_0.index < obligation.deposits.len() && 0 < r->Ok_0.withdraw_amount
            <= obligation.deposits[r->Ok_0.index as int].deposited_amount
            && r->Ok_0.withdraw_amount <= collateral_amount,
{
    let (collateral, index) = obligation.find_collateral_in_deposits(withdraw_reserve.key)?;
    if collateral.deposited_amount == 0 {
        return Err(ErrorCode::ObligationCollateralEmpty);
    }
    let max_withdraw_amount: u64 = obligation.max_withdraw_amount(
        collateral,
        &withdraw_reserve.data,
    )?;
    let withdraw_amount: u64 = if collateral_amount < max_withdraw_amount {
        collateral_amount
    } else {
        max_withdraw_amount
    };
    if withdraw_amount == 0 {
        return Err(ErrorCode::WithdrawTooLarge);
    }
    let liquidity_amount: u64 =
        withdraw_reserve.data.collateral_exchange_rate()?.u128_collateral_to_liquidity(
        withdraw_amount as u128,
    )?;
    let withdraw_value = withdraw_reserve.data.market_value(Decimal::from_u64(liquidity_amount))?;
    Ok(WithdrawSize { index, withdraw_amount, withdraw_value })
}

/// The obligation and the reserves after a withdrawal of the given size.
fn withdrawn(
    obligation: &Obligation,
    reserve_accounts: &Vec<Account<Reserve>>,
    size: &WithdrawSize,
) -> (r: Result<(Obligation, Vec<Account<Reserve>>), ErrorCode>)
    requires
        size.index < obligation.deposits.len(),
    ensures
        match r {
            Ok((after, reserves)) => spec_withdrawn(*obligation, reserve_accounts@, *size) == Ok::<
                CollateralWithdrawn,
                ErrorCode,
            >(
                CollateralWithdrawn {
                    withdraw_amount: size.withdraw_amount,
                    deposited_value: after.deposited_value,
                    deposits: after.deposits@,
                    reserves: reserves@,
                },
            ) && after == (Obligation {
                deposits: after.deposits,
                borrows: after.borrows,
                deposited_value: after.deposited_value,
                ..*obligation
            }) && after.borrows@ == obligation.borrows@ && same_reserves_but_attribution(
                reserve_accounts@,
                reserves@,
            ) && (obligation.wf() ==> after.wf()),
            Err(e) => spec_withdrawn(*obligation, reserve_accounts@, *size) == Err::<
                CollateralWithdrawn,
                ErrorCode,
            >(e),
        },
{
    let mut after = obligation.duplicate();
    let mut reserves = copy_of(reserve_accounts);
    let index: usize = size.index;
    after.deposited_value = after.deposited_value.saturating_sub(size.withdraw_value);
    let mut collateral = after.deposits[index];
    collateral.market_value = collateral.market_value.saturating_sub(size.withdraw_value);
    after.deposits[index] = collateral;
    let ghost priced = after.deposits@;
    let (open_exceeded, close_exceeded) = update_borrow_attribution_values(
        &mut after,
        &mut reserves,
    )?;
    if open_exceeded.is_some() {
        return Err(ErrorCode::BorrowAttributionLimitExceeded);
    }
    if close_exceeded.is_some() {
        return Err(ErrorCode::BorrowAttributionLimitExceeded);
    }
    proof {
        if obligation.wf() {
            assert forall|i: int, j: int| 0 <= i < j < after.deposits.len() implies (
            #[trigger] after.deposits[i]).deposit_reserve != (
            #[trigger] after.deposits[j]).deposit_reserve by {
                assert(priced[i].deposit_reserve == obligation.deposits[i].deposit_reserve);
                assert(priced[j].deposit_reserve == obligation.deposits[j].deposit_reserve);
            }
            assert(after.wf());
        }
    }
    after.withdraw(size.withdraw_amount, index)?;
    Ok((after, reserves))
}

/// Withdraws collateral from an obligation and returns the amount to hand out.
///
/// The amount must not be zero, the accounts must be the ones of the
/// reserve and of the lending market, the signer must own the obligation,
/// and both the obligation and the reserve must have been refreshed in the
/// current slot. What is withdrawn is the amount asked for, but no more
/// than the obligation can spare; nothing to spare is an error. The value
/// withdrawn leaves the deposited value of the obligation and the value of
/// the deposit; the borrows attributed are brought up to date over the
/// reserves handed in, none of which may then exceed a limit; the deposit
/// is removed once it is empty. The obligation is left stale. Where the
/// withdrawal fails, nothing is changed.
pub fn handle_withdraw_obligation_collateral(
    ctx: &mut Context<WithdrawObligationCollateral>,
    collateral_amount: u64,
    clock_slot: u64,
) -> (r: Result<u64, ErrorCode>)
    ensures
        match r {
            Ok(withdraw_amount) => spec_withdraw_obligation_collateral(
                old(ctx).accounts,
                old(ctx).remaining_accounts@,
                collateral_amount,
                clock_slot,
            ) == Ok::<CollateralWithdrawn, ErrorCode>(
                CollateralWithdrawn {
                    withdraw_amount,
                    deposited_value: final(ctx).accounts.obligation.data.deposited_value,
                    deposits: final(ctx).accounts.obligation.data.deposits@,
                    reserves: final(ctx).remaining_accounts@,
                },
            ) && final(ctx).accounts == (WithdrawObligationCollateral {
                obligation: Account {
                    data: Obligation {
                        deposits: final(ctx).accounts.obligation.data.deposits,
                        borrows: final(ctx).accounts.obligation.data.borrows,
                        deposited_value: final(ctx).accounts.obligation.data.deposited_value,
                        last_update: LastUpdate {
                            stale: true,
                            ..old(ctx).accounts.obligation.data.last_update
                        },
                        ..old(ctx).accounts.obligation.data
                    },
                    ..old(ctx).accounts.obligation
                },
                ..old(ctx).accounts
            }) && final(ctx).accounts.obligation.data.borrows@ == old(
                ctx,
            ).accounts.obligation.data.borrows@ && 0 < withdraw_amount <= collateral_amount,
            Err(e) => spec_withdraw_obligation_collateral(
                old(ctx).accounts,
                old(ctx).remaining_accounts@,
                collateral_amount,
                clock_slot,
            ) == Err::<CollateralWithdrawn, ErrorCode>(e) && *final(ctx) == *old(ctx),
        },
        final(ctx).program_id == old(ctx).program_id,
        old(ctx).accounts.obligation.data.wf() ==> final(ctx).accounts.obligation.data.wf(),
        same_reserves_but_attribution(old(ctx).remaining_accounts@, final(ctx).remaining_accounts@),
{
    if collateral_amount == 0 {
        return Err(ErrorCode::InvalidAmount);
    }
    if let Some(e) = withdraw_mismatch(&ctx.accounts) {
        return Err(e);
    }
    match ctx.accounts.obligation.data.last_update.is_stale(clock_slot) {
        Ok(false) => {},
        _ => { return Err(ErrorCode::ObligationStale); },
    }
    match ctx.accounts.withdraw_reserve.data.last_update.is_stale(clock_slot) {
        Ok(false) => {},
        _ => { return Err(ErrorCode::ReserveStale); },
    }
    let size = withdraw_size(
        &ctx.accounts.obligation.data,
        &ctx.accounts.withdraw_reserve,
        collateral_amount,
    )?;
    let (mut obligation, reserves) = withdrawn(
        &ctx.accounts.obligation.data,
        &ctx.remaining_accounts,
        &size,
    )?;
    obligation.last_update.mark_stale();
    ctx.accounts.obligation.data = obligation;
    ctx.remaining_accounts = reserves;
    Ok(size.withdraw_amount)
}

} // verus!
