//! Creating an obligation.

use crate::account::{Account, Context};
use crate::error::ErrorCode;
use crate::pubkey::Pubkey;
use crate::state::last_update::LastUpdate;
use crate::state::lending_market::LendingMarket;
use crate::state::obligation::{InitObligationParams, Obligation};
use crate::state::PROGRAM_VERSION;
use vstd::prelude::*;

verus! {

/// The accounts of [`handle_init_obligation`].
#[derive(Clone, Debug, PartialEq)]
pub struct ObligationInit {
    /// The obligation to initialize.
    pub obligation: Account<Obligation>,
    /// The lending market of the obligation.
    pub lending_market: Account<LendingMarket>,
    /// Who signs, and becomes the owner.
    pub signer: Pubkey,
    /// Token program.
    pub token_program: Pubkey,
}

/// Creates an obligation of the signer in a lending market, with no
/// deposits and no borrows.
///
/// Fails, and changes nothing, where the token program is not the one of
/// the market.
pub fn handle_init_obligation(ctx: &mut Context<ObligationInit>, key: u64, clock_slot: u64) -> (r:
    Result<(), ErrorCode>)
    ensures
        final(ctx).program_id == old(ctx).program_id,
        final(ctx).remaining_accounts == old(ctx).remaining_accounts,
        r is Err <==> old(ctx).accounts.lending_market.data.token_program_id != old(
            ctx,
        ).accounts.token_program,
        match r {
            Ok(()) => final(ctx).accounts == (ObligationInit {
                obligation: Account {
                    data: Obligation {
                        version: PROGRAM_VERSION,
                        last_update: LastUpdate { slot: clock_slot, stale: true },
                        lending_market: old(ctx).accounts.lending_market.key,
                        owner: old(ctx).accounts.signer,
                        deposits: final(ctx).accounts.obligation.data.deposits,
                        borrows: final(ctx).accounts.obligation.data.borrows,
                        key,
                        ..old(ctx).accounts.obligation.data
                    },
                    ..old(ctx).accounts.obligation
                },
                ..old(ctx).accounts
            }) && final(ctx).accounts.obligation.data.deposits@.len() == 0
                && final(ctx).accounts.obligation.data.borrows@.len() == 0,
            Err(e) => e == ErrorCode::InvalidTokenProgram && *final(ctx) == *old(ctx),
        },
{
    if !ctx.accounts.lending_market.data.token_program_id.equals(&ctx.accounts.token_program) {
        return Err(ErrorCode::InvalidTokenProgram);
    }
    let params = InitObligationParams {
        current_slot: clock_slot,
        lending_market: ctx.accounts.lending_market.key,
        owner: ctx.accounts.signer,
        deposits: Vec::new(),
        borrows: Vec::new(),
        key,
    };
    ctx.accounts.obligation.data.init(params);
    Ok(())
}

} // verus!
