//! Creating a reserve.

use crate::account::{Account, Context};
use crate::error::{commits, ErrorCode};
use crate::math::decimal::Decimal;
use crate::pubkey::Pubkey;
use crate::state::lending_market::LendingMarket;
use crate::state::mock_pyth_price_feed::MockPythPriceFeed;
use crate::state::rate_limiter::RateLimiterConfig;
use crate::state::reserve::{InitReserveParams, Reserve};
use crate::state::reserve_collateral::{NewReserveCollateralParams, ReserveCollateral};
use crate::state::reserve_config::{validate_reserve_config, ReserveConfig};
use crate::state::reserve_liquidity::{NewReserveLiquidityParams, ReserveLiquidity};
use crate::utils::program_address::{address_bytes, find_program_address, program_address};
use vstd::prelude::*;

verus! {

/// What the operations read of the mint of a token.
#[derive(Clone, Copy, Debug, Default, PartialEq, Eq, Structural)]
pub struct Mint {
    /// Number of decimals of the token.
    pub decimals: u8,
}

/// The accounts of [`handle_init_reserve`].
#[derive(Clone, Copy, Debug, PartialEq)]
pub struct ReserveInit {
    /// The reserve to initialize.
    pub reserve: Account<Reserve>,
    /// The lending market the reserve is added to.
    pub lending_market: Account<LendingMarket>,
    /// Mint of the collateral token.
    pub collateral_mint_account: Account<Mint>,
    /// Where the reserve keeps the collateral deposited in obligations.
    pub collateral_reserve_account: Pubkey,
    /// Where the signer receives collateral.
    pub collateral_user_account: Pubkey,
    /// Mint of the liquidity token.
    pub liquidity_mint_account: Account<Mint>,
    /// Where the reserve keeps its liquidity.
    pub liquidity_reserve_account: Pubkey,
    /// Where the fees of the reserve are sent.
    pub liquidity_fee_account: Pubkey,
    /// Where the signer's liquidity comes from.
    pub liquidity_user_account: Pubkey,
    /// Who signs: the owner of the lending market.
    pub signer: Pubkey,
    /// Owner of the account that receives the fees.
    pub fee_account_owner: Pubkey,
    /// Price feed for testing.
    pub mock_pyth_feed: Account<MockPythPriceFeed>,
}

/// The price that a new or reconfigured reserve takes: the price of the
/// test feed in a test, and nothing outside of one.
pub open spec fn spec_fetched_price(mock_pyth_feed: MockPythPriceFeed, is_test: bool) -> Option<
    Decimal,
> {
    if is_test {
        Some(Decimal::spec_from_int(mock_pyth_feed.price as nat))
    } else {
        None
    }
}

/// The accounts after a reserve was created, given the address derived for
/// the lending market from the signer.
pub open spec fn spec_init_reserve(
    accounts: ReserveInit,
    derived: Option<(Seq<u8>, u8)>,
    liquidity_amount: u64,
    key: u64,
    feed_id: [u8; 32],
    config: ReserveConfig,
    is_test: bool,
    clock_slot: u64,
) -> Result<ReserveInit, ErrorCode> {
    if liquidity_amount == 0 {
        Err(ErrorCode::InvalidArgument)
    } else if accounts.lending_market.data.owner != accounts.signer {
        Err(ErrorCode::Unauthorized)
    } else {
        match derived {
            None => Err(ErrorCode::InvalidBumpSeed),
            Some((expected, expected_bump)) => if expected != accounts.lending_market.key@
                || expected_bump != accounts.lending_market.data.bump_seed {
                Err(ErrorCode::InvalidArgument)
            } else if !config.valid() {
                Err(ErrorCode::InvalidConfig)
            } else {
                let market_price = match spec_fetched_price(accounts.mock_pyth_feed.data, is_test) {
                    Some(price) => price,
                    None => Decimal::spec_zero(),
                };
                Ok(
                    ReserveInit {
                        reserve: Account {
                            data: Reserve::spec_new(
                                InitReserveParams {
                                    current_slot: clock_slot,
                                    lending_market: accounts.lending_market.key,
                                    liquidity: ReserveLiquidity::spec_new(
                                        NewReserveLiquidityParams {
                                            mint_pubkey: accounts.liquidity_mint_account.key,
                                            mint_decimals: accounts.liquidity_mint_account.data.decimals,
                                            supply_pubkey: accounts.liquidity_reserve_account,
                                            pyth_oracle_feed_id: feed_id,
                                            market_price,
                                            smoothed_market_price: market_price,
                                        },
                                    ),
                                    collateral: ReserveCollateral {
                                        mint_pubkey: accounts.collateral_mint_account.key,
                                        mint_total_supply: 0,
                                        supply_pubkey: accounts.collateral_reserve_account,
                                    },
                                    config,
                                    rate_limiter_config: RateLimiterConfig {
                                        window_duration: 0,
                                        max_outflow: 0,
                                    },
                                    key,
                                },
                            ),
                            ..accounts.reserve
                        },
                        ..accounts
                    },
                )
            },
        }
    }
}

/// Creates a reserve in a lending market.
///
/// The amount of liquidity must not be zero, the signer must own the
/// market, the address and the bump seed of the market must be the ones
/// derived from the signer, and the configuration must keep its bounds. The
/// reserve starts empty, stale, with its limit on outflow switched off, at
/// the price of the test feed in a test and at a price of zero otherwise.
pub fn init_reserve(
    ctx: &mut Context<ReserveInit>,
    derived: Option<(Pubkey, u8)>,
    liquidity_amount: u64,
    key: u64,
    feed_id: [u8; 32],
    config: ReserveConfig,
    is_test: bool,
    clock_slot: u64,
) -> (r: Result<(), ErrorCode>)
    ensures
        commits(
            r,
            old(ctx).accounts,
            final(ctx).accounts,
            spec_init_reserve(
                old(ctx).accounts,
                address_bytes(derived),
                liquidity_amount,
                key,
                feed_id,
                config,
                is_test,
                clock_slot,
            ),
        ),
        final(ctx).program_id == old(ctx).program_id,
        final(ctx).remaining_accounts == old(ctx).remaining_accounts,
        r is Ok ==> final(ctx).accounts.reserve.data.wf(),
{
    if liquidity_amount == 0 {
        return Err(ErrorCode::InvalidArgument);
    }
    if !ctx.accounts.lending_market.data.owner.equals(&ctx.accounts.signer) {
        return Err(ErrorCode::Unauthorized);
    }
    let (expected_pda, expected_bump) = match derived {
        Some(found) => found,
        None => { return Err(ErrorCode::InvalidBumpSeed); },
    };
    if !expected_pda.equals(&ctx.accounts.lending_market.key) {
        return Err(ErrorCode::InvalidArgument);
    }
    if expected_bump != ctx.accounts.lending_market.data.bump_seed {
        return Err(ErrorCode::InvalidArgument);
    }
    validate_reserve_config(config)?;
    let market_price = if is_test {
        let (price, _) = ctx.accounts.mock_pyth_feed.data.get_price();
        Decimal::from_u64(price)
    } else {
        Decimal::zero()
    };
    let params = InitReserveParams {
        current_slot: clock_slot,
        lending_market: ctx.accounts.lending_market.key,
        liquidity: ReserveLiquidity::new(
            NewReserveLiquidityParams {
                mint_pubkey: ctx.accounts.liquidity_mint_account.key,
                mint_decimals: ctx.accounts.liquidity_mint_account.data.decimals,
                supply_pubkey: ctx.accounts.liquidity_reserve_account,
                pyth_oracle_feed_id: feed_id,
                market_price,
                smoothed_market_price: market_price,
            },
        ),
        collateral: ReserveCollateral::new(
            NewReserveCollateralParams {
                mint_pubkey: ctx.accounts.collateral_mint_account.key,
                supply_pubkey: ctx.accounts.collateral_reserve_account,
            },
        ),
        config,
        rate_limiter_config: RateLimiterConfig { window_duration: 0, max_outflow: 0 },
        key,
    };
    ctx.accounts.reserve.data.init(params);
    Ok(())
}

/// Creates a reserve in a lending market.
///
/// The address and the bump seed of the market are held against the ones
/// that the program derives from the signer.
pub fn handle_init_reserve(
    ctx: &mut Context<ReserveInit>,
    liquidity_amount: u64,
    key: u64,
    feed_id: [u8; 32],
    config: ReserveConfig,
    is_test: bool,
    clock_slot: u64,
) -> (r: Result<(), ErrorCode>)
    ensures
        commits(
            r,
            old(ctx).accounts,
            final(ctx).accounts,
            spec_init_reserve(
                old(ctx).accounts,
                program_address(old(ctx).accounts.signer@, old(ctx).program_id@),
                liquidity_amount,
                key,
                feed_id,
                config,
                is_test,
                clock_slot,
            ),
        ),
        final(ctx).program_id == old(ctx).program_id,
        final(ctx).remaining_accounts == old(ctx).remaining_accounts,
        r is Ok ==> final(ctx).accounts.reserve.data.wf(),
{
    let derived = find_program_address(&ctx.accounts.signer, &ctx.program_id);
    init_reserve(ctx, derived, liquidity_amount, key, feed_id, config, is_test, clock_slot)
}

} // verus!
