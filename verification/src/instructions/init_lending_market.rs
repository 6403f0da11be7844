//! Creating a lending market.

use crate::account::{Account, Context};
use crate::error::{commits, ErrorCode};
use crate::pubkey::Pubkey;
use crate::state::lending_market::{InitLendingMarketParams, LendingMarket};
use crate::utils::program_address::{address_bytes, find_program_address, program_address};
use vstd::prelude::*;

verus! {

/// The accounts of [`handle_init_lending_market`].
#[derive(Clone, Copy, Debug, PartialEq)]
pub struct LendingMarketInit {
    /// The lending market to initialize.
    pub lending_market: Account<LendingMarket>,
    /// Who signs, and becomes the owner.
    pub signer: Pubkey,
    /// Token program of the market.
    pub token_program: Pubkey,
}

/// The accounts after a lending market was created, given the address derived for it.
pub open spec fn spec_init_lending_market(
    accounts: LendingMarketInit,
    derived: Option<(Seq<u8>, u8)>,
    quote_currency: [u8; 32],
    fee_authority: Pubkey,
) -> Result<LendingMarketInit, ErrorCode> {
    match derived {
        None => Err(ErrorCode::InvalidBumpSeed),
        Some((_, bump_seed)) => Ok(
            LendingMarketInit {
                lending_market: Account {
                    data: LendingMarket::spec_new(
                        InitLendingMarketParams {
                            bump_seed,
                            owner: accounts.signer,
                            quote_currency,
                            token_program_id: accounts.token_program,
                            fee_authority,
                        },
                    ),
                    ..accounts.lending_market
                },
                ..accounts
            },
        ),
    }
}

/// Creates a lending market owned by the signer, with the bump seed of the
/// address that was derived for it from the signer.
///
/// Fails where no address could be derived.
pub fn init_lending_market(
    ctx: &mut Context<LendingMarketInit>,
    derived: Option<(Pubkey, u8)>,
    quote_currency: [u8; 32],
    fee_authority: Pubkey,
) -> (r: Result<(), ErrorCode>)
    ensures
        commits(
            r,
            old(ctx).accounts,
            final(ctx).accounts,
            spec_init_lending_market(
                old(ctx).accounts,
                address_bytes(derived),
                quote_currency,
                fee_authority,
            ),
        ),
        final(ctx).program_id == old(ctx).program_id,
        final(ctx).remaining_accounts == old(ctx).remaining_accounts,
        r is Ok ==> final(ctx).accounts.lending_market.data.wf(),
{
    let bump_seed: u8 = match derived {
        Some((_, bump_seed)) => bump_seed,
        None => { return Err(ErrorCode::InvalidBumpSeed); },
    };
    let owner = ctx.accounts.signer;
    let token_program_id = ctx.accounts.token_program;
    ctx.accounts.lending_market.data.init(
        InitLendingMarketParams {
            bump_seed,
            owner,
            quote_currency,
            token_program_id,
            fee_authority,
        },
    );
    Ok(())
}

/// Creates a lending market owned by the signer.
///
/// The bump seed of the market is that of the address that the program
/// derives from the signer.
pub fn handle_init_lending_market(
    ctx: &mut Context<LendingMarketInit>,
    quote_currency: [u8; 32],
    fee_authority: Pubkey,
) -> (r: Result<(), ErrorCode>)
    ensures
        commits(
            r,
            old(ctx).accounts,
            final(ctx).accounts,
            spec_init_lending_market(
                old(ctx).accounts,
                program_address(old(ctx).accounts.signer@, old(ctx).program_id@),
                quote_currency,
                fee_authority,
            ),
        ),
        final(ctx).program_id == old(ctx).program_id,
        final(ctx).remaining_accounts == old(ctx).remaining_accounts,
        r is Ok ==> final(ctx).accounts.lending_market.data.wf(),
{
    let derived = find_program_address(&ctx.accounts.signer, &ctx.program_id);
    init_lending_market(ctx, derived, quote_currency, fee_authority)
}

} // verus!
