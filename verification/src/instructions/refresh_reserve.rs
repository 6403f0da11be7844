//! Refreshing a reserve.

use crate::account::{Account, Context};
use crate::error::{commits, ErrorCode};
use crate::math::decimal::Decimal;
use crate::pubkey::Pubkey;
use crate::state::mock_pyth_price_feed::MockPythPriceFeed;
use crate::state::reserve::Reserve;
use crate::state::reserve_liquidity::ReserveLiquidity;
use crate::utils::_refresh_reserve_interest::{
    _refresh_reserve_interest, lemma_refresh_is_idempotent, spec_refresh_reserve_interest,
};
use vstd::prelude::*;

verus! {

/// The accounts of [`handle_refresh_reserve`].
#[derive(Clone, Copy, Debug, PartialEq)]
pub struct RefreshReserve {
    /// The reserve to refresh.
    pub reserve: Account<Reserve>,
    /// Who signs.
    pub signer: Pubkey,
    /// Price feed for testing.
    pub mock_pyth_feed: Account<MockPythPriceFeed>,
}

/// A reserve with the price of the test feed, in a test; the reserve as it is otherwise.
pub open spec fn spec_with_test_price(
    reserve: Reserve,
    mock_pyth_feed: MockPythPriceFeed,
    is_test: bool,
) -> Reserve {
    if is_test {
        Reserve {
            liquidity: ReserveLiquidity {
                market_price: Decimal::spec_from_int(mock_pyth_feed.price as nat),
                smoothed_market_price: Decimal::spec_from_int(mock_pyth_feed.price as nat),
                ..reserve.liquidity
            },
            ..reserve
        }
    } else {
        reserve
    }
}

/// The accounts after a reserve was refreshed.
pub open spec fn spec_refresh_reserve(
    accounts: RefreshReserve,
    is_test: bool,
    clock_slot: u64,
) -> Result<RefreshReserve, ErrorCode> {
    match spec_refresh_reserve_interest(
        spec_with_test_price(accounts.reserve.data, accounts.mock_pyth_feed.data, is_test),
        clock_slot,
    ) {
        Err(e) => Err(e),
        Ok(reserve) => Ok(
            RefreshReserve { reserve: Account { data: reserve, ..accounts.reserve }, ..accounts },
        ),
    }
}

/// Refreshes a reserve: takes the price of the test feed, in a test, accrues
/// the interest up to the current slot and marks the reserve as updated.
pub fn handle_refresh_reserve(
    ctx: &mut Context<RefreshReserve>,
    is_test: bool,
    clock_slot: u64,
) -> (r: Result<(), ErrorCode>)
    ensures
        commits(
            r,
            old(ctx).accounts,
            final(ctx).accounts,
            spec_refresh_reserve(old(ctx).accounts, is_test, clock_slot),
        ),
        final(ctx).program_id == old(ctx).program_id,
        final(ctx).remaining_accounts == old(ctx).remaining_accounts,
        old(ctx).accounts.reserve.data.wf() ==> final(ctx).accounts.reserve.data.wf(),
{
    let mut reserve = ctx.accounts.reserve.data;
    if is_test {
        let (market_price, _) = ctx.accounts.mock_pyth_feed.data.get_price();
        reserve.liquidity.market_price = Decimal::from_u64(market_price);
        reserve.liquidity.smoothed_market_price = Decimal::from_u64(market_price);
    }
    _refresh_reserve_interest(&mut reserve, clock_slot)?;
    ctx.accounts.reserve.data = reserve;
    Ok(())
}

/// Refreshing a reserve twice in one slot is the same as refreshing it once.
///
/// Where a refresh succeeds, a second refresh of the accounts that it
/// leaves, at the same slot and with the same price feed, succeeds and
/// leaves the same accounts.
pub proof fn lemma_refresh_reserve_twice(accounts: RefreshReserve, is_test: bool, clock_slot: u64)
    requires
        spec_refresh_reserve(accounts, is_test, clock_slot) is Ok,
    ensures
        spec_refresh_reserve(
            spec_refresh_reserve(accounts, is_test, clock_slot)->Ok_0,
            is_test,
            clock_slot,
        ) == spec_refresh_reserve(accounts, is_test, clock_slot),
{
    let priced = spec_with_test_price(accounts.reserve.data, accounts.mock_pyth_feed.data, is_test);
    lemma_refresh_is_idempotent(priced, clock_slot);
    let once = spec_refresh_reserve_interest(priced, clock_slot)->Ok_0;
    assert(spec_with_test_price(once, accounts.mock_pyth_feed.data, is_test) == once);
}

} // verus!
