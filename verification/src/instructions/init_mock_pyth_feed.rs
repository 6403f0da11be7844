//! Creating and setting a price feed for testing.

use crate::account::{Account, Context};
use crate::error::ErrorCode;
use crate::pubkey::Pubkey;
use crate::state::mock_pyth_price_feed::MockPythPriceFeed;
use vstd::prelude::*;

verus! {

/// The accounts of [`handle_init_mock_pyth_feed`].
#[derive(Clone, Copy, Debug, PartialEq)]
pub struct InitMockPythPriceFeed {
    /// The price feed to initialize.
    pub mock_pyth_feed: Account<MockPythPriceFeed>,
    /// Who signs.
    pub signer: Pubkey,
}

/// The accounts of [`handle_update_mock_pyth_price`].
#[derive(Clone, Copy, Debug, PartialEq)]
pub struct UpdateMockPythPrice {
    /// The price feed to set.
    pub mock_pyth_feed: Account<MockPythPriceFeed>,
    /// Who signs.
    pub signer: Pubkey,
}

/// Sets the first price of a new price feed.
pub fn handle_init_mock_pyth_feed(
    ctx: &mut Context<InitMockPythPriceFeed>,
    initial_price: u64,
    expo: u32,
) -> (r: Result<(), ErrorCode>)
    ensures
        r is Ok,
        *final(ctx) == (Context {
            accounts: InitMockPythPriceFeed {
                mock_pyth_feed: Account {
                    data: MockPythPriceFeed { price: initial_price, expo },
                    ..old(ctx).accounts.mock_pyth_feed
                },
                ..old(ctx).accounts
            },
            ..*old(ctx)
        }),
{
    ctx.accounts.mock_pyth_feed.data.set_price(initial_price, expo);
    Ok(())
}

/// Sets the price of a price feed.
pub fn handle_update_mock_pyth_price(
    ctx: &mut Context<UpdateMockPythPrice>,
    new_price: u64,
    expo: u32,
) -> (r: Result<(), ErrorCode>)
    ensures
        r is Ok,
        *final(ctx) == (Context {
            accounts: UpdateMockPythPrice {
                mock_pyth_feed: Account {
                    data: MockPythPriceFeed { price: new_price, expo },
                    ..old(ctx).accounts.mock_pyth_feed
                },
                ..old(ctx).accounts
            },
            ..*old(ctx)
        }),
{
    ctx.accounts.mock_pyth_feed.data.set_price(new_price, expo);
    Ok(())
}

} // verus!
