//! Depositing liquidity in a reserve.

use crate::account::{Account, Context};
use crate::error::{commits_with, ErrorCode};
use crate::math::decimal::Decimal;
use crate::pubkey::Pubkey;
use crate::state::last_update::LastUpdate;
use crate::state::lending_market::LendingMarket;
use crate::state::reserve::Reserve;
use crate::utils::_refresh_reserve_interest::{
    _refresh_reserve_interest, spec_refresh_reserve_interest,
};
use vstd::prelude::*;

verus! {

/// The accounts of [`handle_deposit_reserve_liquidity`].
#[derive(Clone, Copy, Debug, PartialEq)]
pub struct DepositReserveLiquidity {
    /// Where the liquidity comes from.
    pub liquidity_user_account: Pubkey,
    /// Where the collateral minted goes to.
    pub collateral_user_account: Pubkey,
    /// The reserve that takes the deposit.
    pub reserve: Account<Reserve>,
    /// Where the reserve keeps its liquidity.
    pub liquidity_reserve_account: Pubkey,
    /// Mint of the collateral token.
    pub collateral_mint_account: Pubkey,
    /// The lending market of the reserve.
    pub lending_market: Account<LendingMarket>,
    /// Who signs.
    pub signer: Pubkey,
    /// Token program.
    pub token_program: Pubkey,
}

/// The first of the accounts of a deposit that is not the one it has to be.
pub open spec fn spec_deposit_accounts_mismatch(
    accounts: DepositReserveLiquidity,
    reserve: Reserve,
) -> Option<ErrorCode> {
    if reserve.lending_market != accounts.lending_market.key {
        Some(ErrorCode::InvalidLendingMarketAccount)
    } else if accounts.lending_market.data.token_program_id != accounts.token_program {
        Some(ErrorCode::InvalidTokenProgram)
    } else if reserve.collateral.mint_pubkey != accounts.collateral_mint_account {
        Some(ErrorCode::InvalidCollateralMintAccount)
    } else if reserve.liquidity.supply_pubkey != accounts.liquidity_reserve_account {
        Some(ErrorCode::InvalidDestinationOfLiquidity)
    } else if reserve.liquidity.supply_pubkey == accounts.liquidity_user_account {
        Some(ErrorCode::InvalidSourceOfLiquidity)
    } else if reserve.collateral.supply_pubkey == accounts.collateral_user_account {
        Some(ErrorCode::InvalidDestinationOfCollateral)
    } else {
        None
    }
}

/// Whether a deposit would raise the supply of a reserve above its limit.
pub open spec fn spec_over_deposit_limit(reserve: Reserve, liquidity_amount: u64) -> Result<
    bool,
    ErrorCode,
> {
    match reserve.liquidity.spec_total_supply() {
        Err(e) => Err(e),
        Ok(total_supply) => match Decimal::spec_from_int(liquidity_amount as nat).spec_try_add(
            total_supply,
        ) {
            Err(e) => Err(e),
            Ok(new_total_liquidity) => Ok(
                new_total_liquidity@ > Decimal::spec_from_int(
                    reserve.config.deposit_limit as nat,
                )@,
            ),
        },
    }
}

/// The accounts after a deposit, and the collateral to mint for it.
pub open spec fn spec_deposit_reserve_liquidity(
    accounts: DepositReserveLiquidity,
    liquidity_amount: u64,
    clock_slot: u64,
) -> Result<(DepositReserveLiquidity, u64), ErrorCode> {
    if liquidity_amount == 0 {
        Err(ErrorCode::InvalidAmount)
    } else {
        match spec_refresh_reserve_interest(accounts.reserve.data, clock_slot) {
            Err(e) => Err(e),
            Ok(refreshed) => match spec_deposit_accounts_mismatch(accounts, refreshed) {
                Some(e) => Err(e),
                None => match spec_over_deposit_limit(refreshed, liquidity_amount) {
                    Err(e) => Err(e),
                    Ok(true) => Err(ErrorCode::DepositedOverLimit),
                    Ok(false) => match refreshed.spec_deposit_liquidity(liquidity_amount) {
                        Err(e) => Err(e),
                        Ok((reserve, collateral_amount)) => Ok(
                            (
                                DepositReserveLiquidity {
                                    reserve: Account {
                                        data: Reserve {
                                            last_update: LastUpdate {
                                                stale: true,
                                                ..reserve.last_update
                                            },
                                            ..reserve
                                        },
                                        ..accounts.reserve
                                    },
                                    ..accounts
                                },
                                collateral_amount,
                            ),
                        ),
                    },
                },
            },
        }
    }
}

/// Deposits liquidity in a reserve and returns the collateral to mint for it.
///
/// The amount must not be zero. The interest of the reserve is brought up
/// to the current slot first. The accounts must be the ones of the reserve,
/// and the deposit must not raise the supply of the reserve above its
/// deposit limit. The reserve is left stale.
pub fn handle_deposit_reserve_liquidity(
    ctx: &mut Context<DepositReserveLiquidity>,
    liquidity_amount: u64,
    clock_slot: u64,
) -> (r: Result<u64, ErrorCode>)
    ensures
        commits_with(
            r,
            old(ctx).accounts,
            final(ctx).accounts,
            spec_deposit_reserve_liquidity(old(ctx).accounts, liquidity_amount, clock_slot),
        ),
        final(ctx).program_id == old(ctx).program_id,
        final(ctx).remaining_accounts == old(ctx).remaining_accounts,
        old(ctx).accounts.reserve.data.wf() ==> final(ctx).accounts.reserve.data.wf(),
{
    if liquidity_amount == 0 {
        return Err(ErrorCode::InvalidAmount);
    }
    let mut reserve = ctx.accounts.reserve.data;
    _refresh_reserve_interest(&mut reserve, clock_slot)?;
    if !reserve.lending_market.equals(&ctx.accounts.lending_market.key) {
        return Err(ErrorCode::InvalidLendingMarketAccount);
    }
    if !ctx.accounts.lending_market.data.token_program_id.equals(&ctx.accounts.token_program) {
        return Err(ErrorCode::InvalidTokenProgram);
    }
    if !reserve.collateral.mint_pubkey.equals(&ctx.accounts.collateral_mint_account) {
        return Err(ErrorCode::InvalidCollateralMintAccount);
    }
    if !reserve.liquidity.supply_pubkey.equals(&ctx.accounts.liquidity_reserve_account) {
        return Err(ErrorCode::InvalidDestinationOfLiquidity);
    }
    if reserve.liquidity.supply_pubkey.equals(&ctx.accounts.liquidity_user_account) {
        return Err(ErrorCode::InvalidSourceOfLiquidity);
    }
    if reserve.collateral.supply_pubkey.equals(&ctx.accounts.collateral_user_account) {
        return Err(ErrorCode::InvalidDestinationOfCollateral);
    }
    let new_total_liquidity = Decimal::from_u64(liquidity_amount).try_add(
        reserve.liquidity.total_supply()?,
    )?;
    if new_total_liquidity.gt(&Decimal::from_u64(reserve.config.deposit_limit)) {
        return Err(ErrorCode::DepositedOverLimit);
    }
    let collateral_amount: u64 = reserve.deposit_liquidity(liquidity_amount)?;
    reserve.last_update.mark_stale();
    ctx.accounts.reserve.data = reserve;
    Ok(collateral_amount)
}

} // verus!
