//! Redeeming collateral of a reserve for liquidity.

use crate::account::{Account, Context};
use crate::error::{commits_with, ErrorCode};
use crate::math::decimal::Decimal;
use crate::pubkey::Pubkey;
use crate::state::last_update::LastUpdate;
use crate::state::lending_market::LendingMarket;
use crate::state::reserve::Reserve;
use vstd::prelude::*;

verus! {

/// The accounts of [`handle_redeem_reserve_collateral`].
#[derive(Clone, Copy, Debug, PartialEq)]
pub struct RedeemCollateral {
    /// Where the collateral is burnt from.
    pub collateral_user_account: Pubkey,
    /// Where the liquidity goes to.
    pub liquidity_user_account: Pubkey,
    /// The reserve that pays out.
    pub reserve: Account<Reserve>,
    /// Mint of the collateral token.
    pub collateral_mint_account: Pubkey,
    /// Where the reserve keeps its liquidity.
    pub liquidity_reserve_account: Pubkey,
    /// The lending market of the reserve.
    pub lending_market: Account<LendingMarket>,
    /// Who signs.
    pub signer: Pubkey,
    /// Token program.
    pub token_program: Pubkey,
}

/// The first of the accounts of a redemption that is not the one it has to be.
pub open spec fn spec_redeem_accounts_mismatch(accounts: RedeemCollateral) -> Option<ErrorCode> {
    let reserve = accounts.reserve.data;
    if reserve.lending_market != accounts.lending_market.key {
        Some(ErrorCode::InvalidLendingMarketAccount)
    } else if accounts.lending_market.data.token_program_id != accounts.token_program {
        Some(ErrorCode::InvalidTokenProgram)
    } else if reserve.collateral.mint_pubkey != accounts.collateral_mint_account {
        Some(ErrorCode::InvalidCollateralMintAccount)
    } else if reserve.collateral.supply_pubkey == accounts.collateral_user_account {
        Some(ErrorCode::InvalidSourceOfCollateral)
    } else if reserve.liquidity.supply_pubkey != accounts.liquidity_reserve_account {
        Some(ErrorCode::InvalidSourceOfLiquidity)
    } else if reserve.liquidity.supply_pubkey == accounts.liquidity_user_account {
        Some(ErrorCode::InvalidDestinationOfLiquidity)
    } else {
        None
    }
}

/// The reserve and the lending market after liquidity has left the reserve:
/// the value of the liquidity, at the upper bound of the price, is recorded
/// as outflow of the market, the liquidity as outflow of the reserve.
pub open spec fn spec_record_outflow(
    reserve: Reserve,
    lending_market: LendingMarket,
    liquidity_amount: u64,
    clock_slot: u64,
) -> Result<(Reserve, LendingMarket), ErrorCode> {
    match reserve.spec_market_value_upper_bound(Decimal::spec_from_int(liquidity_amount as nat)) {
        Err(e) => Err(e),
        Ok(value) => match lending_market.rate_limiter.spec_update(clock_slot, value) {
            Err(e) => Err(e),
            Ok(market_limiter) => match reserve.rate_limiter.spec_update(
                clock_slot,
                Decimal::spec_from_int(liquidity_amount as nat),
            ) {
                Err(e) => Err(e),
                Ok(reserve_limiter) => Ok(
                    (
                        Reserve { rate_limiter: reserve_limiter, ..reserve },
                        LendingMarket { rate_limiter: market_limiter, ..lending_market },
                    ),
                ),
            },
        },
    }
}

/// The accounts after a redemption, and the liquidity to pay out for it.
pub open spec fn spec_redeem_reserve_collateral(
    accounts: RedeemCollateral,
    collateral_amount: u64,
    clock_slot: u64,
) -> Result<(RedeemCollateral, u64), ErrorCode> {
    if collateral_amount == 0 {
        Err(ErrorCode::InvalidAmount)
    } else {
        match spec_redeem_accounts_mismatch(accounts) {
            Some(e) => Err(e),
            None => if accounts.reserve.data.last_update.spec_is_stale(clock_slot) != Ok::<
                bool,
                ErrorCode,
            >(false) {
                Err(ErrorCode::ReserveStale)
            } else {
                match accounts.reserve.data.spec_redeem_collateral(collateral_amount) {
                    Err(e) => Err(e),
                    Ok((redeemed, liquidity_amount)) => match spec_record_outflow(
                        redeemed,
                        accounts.lending_market.data,
                        liquidity_amount,
                        clock_slot,
                    ) {
                        Err(e) => Err(e),
                        Ok((reserve, lending_market)) => Ok(
                            (
                                RedeemCollateral {
                                    reserve: Account {
                                        data: Reserve {
                                            last_update: LastUpdate {
                                                stale: true,
                                                ..reserve.last_update
                                            },
                                            ..reserve
                                        },
                                        ..accounts.reserve
                                    },
                                    lending_market: Account {
                                        data: lending_market,
                                        ..accounts.lending_market
                                    },
                                    ..accounts
                                },
                                liquidity_amount,
                            ),
                        ),
                    },
                }
            },
        }
    }
}

/// Redeems collateral of a reserve and returns the liquidity to pay out for it.
///
/// The amount must not be zero, the accounts must be the ones of the
/// reserve, and the reserve must have been refreshed in the current slot.
/// The outflow must be within the limits of the lending market and of the
/// reserve. The reserve is left stale.
pub fn handle_redeem_reserve_collateral(
    ctx: &mut Context<RedeemCollateral>,
    collateral_amount: u64,
    clock_slot: u64,
) -> (r: Result<u64, ErrorCode>)
    ensures
        commits_with(
            r,
            old(ctx).accounts,
            final(ctx).accounts,
            spec_redeem_reserve_collateral(old(ctx).accounts, collateral_amount, clock_slot),
        ),
        final(ctx).program_id == old(ctx).program_id,
        final(ctx).remaining_accounts == old(ctx).remaining_accounts,
        old(ctx).accounts.reserve.data.wf() ==> final(ctx).accounts.reserve.data.wf(),
        old(ctx).accounts.lending_market.data.wf() ==> final(ctx).accounts.lending_market.data.wf(),
{
    if collateral_amount == 0 {
        return Err(ErrorCode::InvalidAmount);
    }
    let mut reserve = ctx.accounts.reserve.data;
    let mut lending_market = ctx.accounts.lending_market.data;
    if !reserve.lending_market.equals(&ctx.accounts.lending_market.key) {
        return Err(ErrorCode::InvalidLendingMarketAccount);
    }
    if !lending_market.token_program_id.equals(&ctx.accounts.token_program) {
        return Err(ErrorCode::InvalidTokenProgram);
    }
    if !reserve.collateral.mint_pubkey.equals(&ctx.accounts.collateral_mint_account) {
        return Err(ErrorCode::InvalidCollateralMintAccount);
    }
    if reserve.collateral.supply_pubkey.equals(&ctx.accounts.collateral_user_account) {
        return Err(ErrorCode::InvalidSourceOfCollateral);
    }
    if !reserve.liquidity.supply_pubkey.equals(&ctx.accounts.liquidity_reserve_account) {
        return Err(ErrorCode::InvalidSourceOfLiquidity);
    }
    if reserve.liquidity.supply_pubkey.equals(&ctx.accounts.liquidity_user_account) {
        return Err(ErrorCode::InvalidDestinationOfLiquidity);
    }
    match reserve.last_update.is_stale(clock_slot) {
        Ok(false) => {},
        _ => { return Err(ErrorCode::ReserveStale); },
    }
    let liquidity_amount: u64 = reserve.redeem_collateral(collateral_amount)?;
    let value = reserve.market_value_upper_bound(Decimal::from_u64(liquidity_amount))?;
    lending_market.rate_limiter.update(clock_slot, value)?;
    reserve.rate_limiter.update(clock_slot, Decimal::from_u64(liquidity_amount))?;
    reserve.last_update.mark_stale();
    ctx.accounts.reserve.data = reserve;
    ctx.accounts.lending_market.data = lending_market;
    Ok(liquidity_amount)
}

} // verus!
