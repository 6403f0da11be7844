//! Depositing collateral in an obligation.

use crate::account::{Account, Context};
use crate::error::ErrorCode;
use crate::pubkey::Pubkey;
use crate::state::last_update::LastUpdate;
use crate::state::lending_market::LendingMarket;
use crate::state::obligation::{
    spec_find_collateral_index, Obligation, ObligationCollateral, MAX_OBLIGATION_RESERVES,
};
use crate::state::reserve::Reserve;
use crate::utils::_refresh_reserve_interest::{
    _refresh_reserve_interest, spec_refresh_reserve_interest,
};
use vstd::prelude::*;

verus! {

/// The accounts of [`handle_deposit_obligation_collateral`].
#[derive(Clone, Debug, PartialEq)]
pub struct DepositObligationCollateral {
    /// Where the collateral comes from.
    pub collateral_user_account: Pubkey,
    /// Where the reserve keeps the collateral deposited in obligations.
    pub collateral_reserve_account: Pubkey,
    /// The reserve the collateral belongs to.
    pub deposit_reserve: Account<Reserve>,
    /// The obligation that takes the deposit.
    pub obligation: Account<Obligation>,
    /// The lending market of both.
    pub lending_market: Account<LendingMarket>,
    /// Who signs: the owner of the obligation.
    pub signer: Pubkey,
    /// Token program.
    pub token_program: Pubkey,
}

/// What a deposit of collateral leaves.
pub struct CollateralDeposited {
    /// The reserve, refreshed and left stale.
    pub deposit_reserve: Reserve,
    /// The deposits of the obligation.
    pub deposits: Seq<ObligationCollateral>,
}

/// The first of the accounts of a deposit of collateral that is not the one it has to be.
pub open spec fn spec_deposit_collateral_mismatch(
    accounts: DepositObligationCollateral,
    reserve: Reserve,
) -> Option<ErrorCode> {
    if accounts.lending_market.data.token_program_id != accounts.token_program {
        Some(ErrorCode::InvalidTokenProgram)
    } else if reserve.lending_market != accounts.lending_market.key {
        Some(ErrorCode::InvalidLendingMarketAccount)
    } else if reserve.collateral.supply_pubkey == accounts.collateral_user_account {
        Some(ErrorCode::InvalidSourceOfCollateral)
    } else if reserve.collateral.supply_pubkey != accounts.collateral_reserve_account {
        Some(ErrorCode::InvalidDestinationOfCollateral)
    } else if accounts.obligation.data.lending_market != accounts.lending_market.key {
        Some(ErrorCode::InvalidLendingMarketAccount)
    } else if accounts.obligation.data.owner != accounts.signer {
        Some(ErrorCode::ObligationNotOwnedBySigner)
    } else {
        None
    }
}

/// The deposits after collateral of the given reserve was added: to the
/// deposit in that reserve, or as a new deposit at the end where the
/// obligation has none in it and can hold one more position.
pub open spec fn spec_deposits_with(
    deposits: Seq<ObligationCollateral>,
    borrows: nat,
    deposit_reserve: Pubkey,
    collateral_amount: u64,
) -> Result<Seq<ObligationCollateral>, ErrorCode> {
    match spec_find_collateral_index(deposits, deposit_reserve) {
        Some(index) => match deposits[index].spec_deposit(collateral_amount) {
            Err(e) => Err(e),
            Ok(collateral) => Ok(deposits.update(index, collateral)),
        },
        None => if deposits.len() + borrows >= MAX_OBLIGATION_RESERVES {
            Err(ErrorCode::ObligationReserveLimit)
        } else {
            Ok(
                deposits.push(
                    ObligationCollateral {
                        deposited_amount: collateral_amount,
                        ..ObligationCollateral::spec_new(deposit_reserve)
                    },
                ),
            )
        },
    }
}

/// What a deposit of collateral in an obligation leaves.
pub open spec fn spec_deposit_obligation_collateral(
    accounts: DepositObligationCollateral,
    collateral_amount: u64,
    clock_slot: u64,
) -> Result<CollateralDeposited, ErrorCode> {
    if collateral_amount == 0 {
        Err(ErrorCode::InvalidAmount)
    } else {
        match spec_refresh_reserve_interest(accounts.deposit_reserve.data, clock_slot) {
            Err(e) => Err(e),
            Ok(refreshed) => match spec_deposit_collateral_mismatch(accounts, refreshed) {
                Some(e) => Err(e),
                None => match spec_deposits_with(
                    accounts.obligation.data.deposits@,
                    accounts.obligation.data.borrows@.len(),
                    accounts.deposit_reserve.key,
                    collateral_amount,
                ) {
                    Err(e) => Err(e),
                    Ok(deposits) => Ok(
                        CollateralDeposited {
                            deposit_reserve: Reserve {
                                last_update: LastUpdate { stale: true, ..refreshed.last_update },
                                ..refreshed
                            },
                            deposits,
                        },
                    ),
                },
            },
        }
    }
}

fn deposit_collateral_mismatch(accounts: &DepositObligationCollateral, reserve: &Reserve) -> (r:
    Option<ErrorCode>)
    ensures
        r == spec_deposit_collateral_mismatch(*accounts, *reserve),
{
    if !accounts.lending_market.data.token_program_id.equals(&accounts.token_program) {
        return Some(ErrorCode::InvalidTokenProgram);
    }
    if !reserve.lending_market.equals(&accounts.lending_market.key) {
        return Some(ErrorCode::InvalidLendingMarketAccount);
    }
    if reserve.collateral.supply_pubkey.equals(&accounts.collateral_user_account) {
        return Some(ErrorCode::InvalidSourceOfCollateral);
    }
    if !reserve.collateral.supply_pubkey.equals(&accounts.collateral_reserve_account) {
        return Some(ErrorCode::InvalidDestinationOfCollateral);
    }
    if !accounts.obligation.data.lending_market.equals(&accounts.lending_market.key) {
        return Some(ErrorCode::InvalidLendingMarketAccount);
    }
    if !accounts.obligation.data.owner.equals(&accounts.signer) {
        return Some(ErrorCode::ObligationNotOwnedBySigner);
    }
    None
}

/// Adds collateral of the given reserve to the deposits of an obligation.
fn deposit_in(obligation: &mut Obligation, deposit_reserve: Pubkey, collateral_amount: u64) -> (r:
    Result<(), ErrorCode>)
    ensures
        match r {
            Ok(()) => spec_deposits_with(
                old(obligation).deposits@,
                old(obligation).borrows@.len(),
                deposit_reserve,
                collateral_amount,
            ) == Ok::<Seq<ObligationCollateral>, ErrorCode>(final(obligation).deposits@)
                && *final(obligation) == (Obligation {
                deposits: final(obligation).deposits,
                ..*old(obligation)
            }),
            Err(e) => spec_deposits_with(
                old(obligation).deposits@,
                old(obligation).borrows@.len(),
                deposit_reserve,
                collateral_amount,
            ) == Err::<Seq<ObligationCollateral>, ErrorCode>(e) && *final(obligation) == *old(
                obligation,
            ),
        },
        old(obligation).wf() ==> final(obligation).wf(),
{
    // what can fail is tried before anything is changed
    match obligation.find_collateral_in_deposits(deposit_reserve) {
        Ok((found, index)) => {
            let mut collateral = *found;
            collateral.deposit(collateral_amount)?;
            obligation.deposits[index] = collateral;
            proof {
                if old(obligation).wf() {
                    assert forall|i: int, j: int|
                        0 <= i < j < obligation.deposits.len() implies (
                    #[trigger] obligation.deposits[i]).deposit_reserve != (
                    #[trigger] obligation.deposits[j]).deposit_reserve by {
                        assert(old(obligation).deposits[i].deposit_reserve != old(
                            obligation,
                        ).deposits[j].deposit_reserve);
                    }
                }
            }
        },
        Err(_) => {
            let index: usize = obligation.find_or_add_collateral_to_deposits(deposit_reserve)?;
            let ghost pushed = obligation.deposits@;
            let mut collateral = obligation.deposits[index];
            let added = collateral.deposit(collateral_amount);
            assert(added is Ok);
            obligation.deposits[index] = collateral;
            assert(obligation.deposits@ == old(obligation).deposits@.push(collateral));
            proof {
                if old(obligation).wf() {
                    assert forall|i: int, j: int|
                        0 <= i < j < obligation.deposits.len() implies (
                    #[trigger] obligation.deposits[i]).deposit_reserve != (
                    #[trigger] obligation.deposits[j]).deposit_reserve by {
                        assert(pushed[i].deposit_reserve != pushed[j].deposit_reserve);
                    }
                }
            }
        },
    }
    Ok(())
}

/// Deposits collateral of a reserve in an obligation.
///
/// The amount must not be zero. The interest of the reserve is brought up
/// to the current slot first. The accounts must be the ones of the reserve
/// and of the lending market, and the signer must own the obligation. The
/// collateral is added to the obligation's deposit in the reserve, which is
/// created where there is none yet. The obligation and the reserve are left
/// stale. Where the deposit fails, nothing is changed.
pub fn handle_deposit_obligation_collateral(
    ctx: &mut Context<DepositObligationCollateral>,
    collateral_amount: u64,
    clock_slot: u64,
) -> (r: Result<(), ErrorCode>)
    ensures
        match r {
            Ok(()) => spec_deposit_obligation_collateral(
                old(ctx).accounts,
                collateral_amount,
                clock_slot,
            ) == Ok::<CollateralDeposited, ErrorCode>(
                CollateralDeposited {
                    deposit_reserve: final(ctx).accounts.deposit_reserve.data,
                    deposits: final(ctx).accounts.obligation.data.deposits@,
                },
            ) && *final(ctx) == (Context {
                accounts: DepositObligationCollateral {
                    deposit_reserve: Account {
                        data: final(ctx).accounts.deposit_reserve.data,
                        ..old(ctx).accounts.deposit_reserve
                    },
                    obligation: Account {
                        data: Obligation {
                            deposits: final(ctx).accounts.obligation.data.deposits,
                            last_update: LastUpdate {
                                stale: true,
                                ..old(ctx).accounts.obligation.data.last_update
                            },
                            ..old(ctx).accounts.obligation.data
                        },
                        ..old(ctx).accounts.obligation
                    },
                    ..old(ctx).accounts
                },
                ..*old(ctx)
            }),
            Err(e) => spec_deposit_obligation_collateral(
                old(ctx).accounts,
                collateral_amount,
                clock_slot,
            ) == Err::<CollateralDeposited, ErrorCode>(e) && *final(ctx) == *old(ctx),
        },
        old(ctx).accounts.obligation.data.wf() ==> final(ctx).accounts.obligation.data.wf(),
        old(ctx).accounts.deposit_reserve.data.wf() ==> final(ctx).accounts.deposit_reserve.data.wf(),
{
    if collateral_amount == 0 {
        return Err(ErrorCode::InvalidAmount);
    }
    let mut deposit_reserve = ctx.accounts.deposit_reserve.data;
    _refresh_reserve_interest(&mut deposit_reserve, clock_slot)?;
    if let Some(e) = deposit_collateral_mismatch(&ctx.accounts, &deposit_reserve) {
        return Err(e);
    }
    let reserve_key = ctx.accounts.deposit_reserve.key;
    deposit_in(&mut ctx.accounts.obligation.data, reserve_key, collateral_amount)?;
    ctx.accounts.obligation.data.last_update.mark_stale();
    deposit_reserve.last_update.mark_stale();
    ctx.accounts.deposit_reserve.data = deposit_reserve;
    Ok(())
}

} // verus!
