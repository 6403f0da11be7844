//! A lending market: who owns it, what it quotes prices in, and its limit on outflow.

use crate::pubkey::Pubkey;
use crate::state::rate_limiter::{RateLimiter, RateLimiterConfig};
use crate::state::PROGRAM_VERSION;
use vstd::prelude::*;

verus! {

/// The state of a lending market.
#[derive(Clone, Copy, Debug, Default, PartialEq, Eq)]
pub struct LendingMarket {
    /// Version of the state.
    pub version: u8,
    /// Bump seed of the derived address of the market.
    pub bump_seed: u8,
    /// Owner, who can add reserves and change their risk parameters.
    pub owner: Pubkey,
    /// Owner at initialization, from whom the address of the market was derived.
    pub original_owner: Pubkey,
    /// Currency that prices are quoted in: a name padded with zeros, or the mint of a token.
    pub quote_currency: [u8; 32],
    /// Token program of the market.
    pub token_program_id: Pubkey,
    /// Limit on the outflow of the market, in the quote currency.
    pub rate_limiter: RateLimiter,
    /// The only liquidator admitted, if there is one.
    pub whitelisted_liquidator: Option<Pubkey>,
    /// Risk authority, who can tighten limits.
    pub risk_authority: Pubkey,
    /// Fee authority, who alone can change fees.
    pub fee_authority: Pubkey,
}

/// What a new lending market is made of.
#[derive(Clone, Copy, Debug)]
pub struct InitLendingMarketParams {
    /// Bump seed of the derived address of the market.
    pub bump_seed: u8,
    /// Owner, who can add reserves and change their risk parameters.
    pub owner: Pubkey,
    /// Currency that prices are quoted in.
    pub quote_currency: [u8; 32],
    /// Token program of the market.
    pub token_program_id: Pubkey,
    /// Fee authority, who alone can change fees.
    pub fee_authority: Pubkey,
}

impl LendingMarket {
    /// The limit on outflow is well formed.
    pub open spec fn wf(&self) -> bool {
        self.rate_limiter.wf()
    }

    /// What [`LendingMarket::new`] returns.
    pub open spec fn spec_new(params: InitLendingMarketParams) -> LendingMarket {
        LendingMarket {
            version: PROGRAM_VERSION,
            bump_seed: params.bump_seed,
            owner: params.owner,
            original_owner: params.owner,
            quote_currency: params.quote_currency,
            token_program_id: params.token_program_id,
            rate_limiter: RateLimiter::spec_new(
                RateLimiterConfig { window_duration: 1, max_outflow: u64::MAX as u128 },
                1,
            ),
            whitelisted_liquidator: None,
            risk_authority: params.owner,
            fee_authority: params.fee_authority,
        }
    }

    /// A new lending market: the owner is the risk authority too, no
    /// liquidator is singled out, and the limit on outflow admits everything.
    pub fn new(params: InitLendingMarketParams) -> (r: LendingMarket)
        ensures
            r == Self::spec_new(params),
            r.wf(),
    {
        LendingMarket {
            version: PROGRAM_VERSION,
            bump_seed: params.bump_seed,
            owner: params.owner,
            original_owner: params.owner,
            quote_currency: params.quote_currency,
            token_program_id: params.token_program_id,
            rate_limiter: RateLimiter::new(
                RateLimiterConfig { window_duration: 1, max_outflow: u64::MAX as u128 },
                1,
            ),
            whitelisted_liquidator: None,
            risk_authority: params.owner,
            fee_authority: params.fee_authority,
        }
    }

    /// Initializes a lending market: whatever it held is replaced.
    pub fn init(&mut self, params: InitLendingMarketParams)
        ensures
            *final(self) == Self::spec_new(params),
            final(self).wf(),
    {
        *self = Self::new(params);
    }
}

} // verus!
