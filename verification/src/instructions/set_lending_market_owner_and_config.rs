//! Handing a lending market to a new owner and setting its limits.

use crate::account::{Account, Context};
use crate::error::{commits, ErrorCode};
use crate::pubkey::Pubkey;
use crate::state::lending_market::LendingMarket;
use crate::state::rate_limiter::{RateLimiter, RateLimiterConfig};
use crate::utils::program_address::{address_bytes, find_program_address, program_address};
use vstd::prelude::*;

verus! {

/// The accounts of [`handle_set_lending_market_owner_and_config`].
#[derive(Clone, Copy, Debug, PartialEq)]
pub struct LendingMarketSet {
    /// The lending market to change.
    pub lending_market: Account<LendingMarket>,
    /// Who signs.
    pub signer: Pubkey,
}

/// The accounts after the owner and the limits of a lending market were
/// set, given the address derived from the first owner.
pub open spec fn spec_set_lending_market_owner_and_config(
    accounts: LendingMarketSet,
    derived: Option<(Seq<u8>, u8)>,
    new_owner: Pubkey,
    rate_limiter_config: RateLimiterConfig,
    whitelisted_liquidator: Option<Pubkey>,
    risk_authority: Pubkey,
    clock_slot: u64,
) -> Result<LendingMarketSet, ErrorCode> {
    if accounts.signer != accounts.lending_market.data.owner {
        Err(ErrorCode::Unauthorized)
    } else {
        match derived {
            None => Err(ErrorCode::InvalidBumpSeed),
            Some((expected, _)) => if accounts.lending_market.key@ != expected {
                Err(ErrorCode::InvalidLendingMarketAccount)
            } else if rate_limiter_config.window_duration == 0 {
                Err(ErrorCode::InvalidArgument)
            } else {
                Ok(
                    LendingMarketSet {
                        lending_market: Account {
                            data: LendingMarket {
                                owner: new_owner,
                                rate_limiter: RateLimiter::spec_new(rate_limiter_config, clock_slot),
                                whitelisted_liquidator,
                                risk_authority,
                                ..accounts.lending_market.data
                            },
                            ..accounts.lending_market
                        },
                        ..accounts
                    },
                )
            },
        }
    }
}

/// Sets the owner, the limit on outflow, the liquidator singled out and the
/// risk authority of a lending market.
///
/// Only the owner may do so, only for the market whose address is the one
/// derived from its first owner, and only with a limit on outflow that is
/// switched on.
pub fn set_lending_market_owner_and_config(
    ctx: &mut Context<LendingMarketSet>,
    derived: Option<(Pubkey, u8)>,
    new_owner: Pubkey,
    rate_limiter_config: RateLimiterConfig,
    whitelisted_liquidator: Option<Pubkey>,
    risk_authority: Pubkey,
    clock_slot: u64,
) -> (r: Result<(), ErrorCode>)
    ensures
        commits(
            r,
            old(ctx).accounts,
            final(ctx).accounts,
            spec_set_lending_market_owner_and_config(
                old(ctx).accounts,
                address_bytes(derived),
                new_owner,
                rate_limiter_config,
                whitelisted_liquidator,
                risk_authority,
                clock_slot,
            ),
        ),
        final(ctx).program_id == old(ctx).program_id,
        final(ctx).remaining_accounts == old(ctx).remaining_accounts,
        r is Ok ==> final(ctx).accounts.lending_market.data.wf(),
{
    if !ctx.accounts.signer.equals(&ctx.accounts.lending_market.data.owner) {
        return Err(ErrorCode::Unauthorized);
    }
    let expected_pda = match derived {
        Some((address, _)) => address,
        None => { return Err(ErrorCode::InvalidBumpSeed); },
    };
    if !ctx.accounts.lending_market.key.equals(&expected_pda) {
        return Err(ErrorCode::InvalidLendingMarketAccount);
    }
    if rate_limiter_config.window_duration == 0 {
        return Err(ErrorCode::InvalidArgument);
    }
    ctx.accounts.lending_market.data.owner = new_owner;
    ctx.accounts.lending_market.data.rate_limiter = RateLimiter::new(
        rate_limiter_config,
        clock_slot,
    );
    ctx.accounts.lending_market.data.whitelisted_liquidator = whitelisted_liquidator;
    ctx.accounts.lending_market.data.risk_authority = risk_authority;
    Ok(())
}

/// Sets the owner, the limit on outflow, the liquidator singled out and the
/// risk authority of a lending market.
///
/// The address of the market is held against the one that the program
/// derives from `original_owner`.
pub fn handle_set_lending_market_owner_and_config(
    ctx: &mut Context<LendingMarketSet>,
    new_owner: Pubkey,
    rate_limiter_config: RateLimiterConfig,
    whitelisted_liquidator: Option<Pubkey>,
    risk_authority: Pubkey,
    original_owner: Pubkey,
    clock_slot: u64,
) -> (r: Result<(), ErrorCode>)
    ensures
        commits(
            r,
            old(ctx).accounts,
            final(ctx).accounts,
            spec_set_lending_market_owner_and_config(
                old(ctx).accounts,
                program_address(original_owner@, old(ctx).program_id@),
                new_owner,
                rate_limiter_config,
                whitelisted_liquidator,
                risk_authority,
                clock_slot,
            ),
        ),
        final(ctx).program_id == old(ctx).program_id,
        final(ctx).remaining_accounts == old(ctx).remaining_accounts,
        r is Ok ==> final(ctx).accounts.lending_market.data.wf(),
{
    let derived = find_program_address(&original_owner, &ctx.program_id);
    set_lending_market_owner_and_config(
        ctx,
        derived,
        new_owner,
        rate_limiter_config,
        whitelisted_liquidator,
        risk_authority,
        clock_slot,
    )
}

} // verus!
