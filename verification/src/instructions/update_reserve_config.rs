//! Changing the configuration of a reserve.

use crate::account::{Account, Context};
use crate::error::{commits, ErrorCode};
use crate::math::decimal::Decimal;
use crate::pubkey::Pubkey;
use crate::state::last_update::LastUpdate;
use crate::state::lending_market::LendingMarket;
use crate::state::mock_pyth_price_feed::MockPythPriceFeed;
use crate::state::rate_limiter::{RateLimiter, RateLimiterConfig};
use crate::state::reserve::Reserve;
use crate::state::reserve_config::{validate_reserve_config, ReserveConfig};
use crate::instructions::refresh_reserve::spec_with_test_price;
use vstd::prelude::*;

verus! {

/// The accounts of [`handle_update_reserve_config`].
#[derive(Clone, Copy, Debug, PartialEq)]
pub struct ReserveConfigUpdate {
    /// The reserve to configure.
    pub reserve: Account<Reserve>,
    /// The lending market of the reserve.
    pub lending_market: Account<LendingMarket>,
    /// Who signs.
    pub signer: Pubkey,
    /// The owner of the lending market.
    pub lending_market_owner: Pubkey,
    /// Price feed for testing.
    pub mock_pyth_feed: Account<MockPythPriceFeed>,
}

/// A configuration with the fees of another.
pub open spec fn with_fees_of(config: ReserveConfig, fees_from: ReserveConfig) -> ReserveConfig {
    ReserveConfig {
        fees: fees_from.fees,
        protocol_liquidation_fee: fees_from.protocol_liquidation_fee,
        protocol_take_rate: fees_from.protocol_take_rate,
        fee_receiver: fees_from.fee_receiver,
        ..config
    }
}

/// Whether two configurations have the same fees.
pub open spec fn same_fees(a: ReserveConfig, b: ReserveConfig) -> bool {
    &&& a.fees == b.fees
    &&& a.protocol_liquidation_fee == b.protocol_liquidation_fee
    &&& a.protocol_take_rate == b.protocol_take_rate
    &&& a.fee_receiver == b.fee_receiver
}

/// A reserve with a new limit on outflow where the parameters differ from
/// the ones it has, and with the price of the test feed in a test.
pub open spec fn spec_with_limit_and_price(
    reserve: Reserve,
    rate_limiter_config: RateLimiterConfig,
    mock_pyth_feed: MockPythPriceFeed,
    is_test: bool,
    clock_slot: u64,
) -> Reserve {
    let limited = if rate_limiter_config != reserve.rate_limiter.config {
        Reserve { rate_limiter: RateLimiter::spec_new(rate_limiter_config, clock_slot), ..reserve }
    } else {
        reserve
    };
    spec_with_test_price(limited, mock_pyth_feed, is_test)
}

/// What the risk authority makes of a reserve: it can switch all outflow
/// off, and lower the two limits of the reserve.
pub open spec fn spec_tightened(
    reserve: Reserve,
    config: ReserveConfig,
    rate_limiter_config: RateLimiterConfig,
    clock_slot: u64,
) -> Reserve {
    Reserve {
        rate_limiter: if rate_limiter_config.window_duration > 0 && rate_limiter_config.max_outflow
            == 0 {
            RateLimiter::spec_new(rate_limiter_config, clock_slot)
        } else {
            reserve.rate_limiter
        },
        config: ReserveConfig {
            borrow_limit: if config.borrow_limit < reserve.config.borrow_limit {
                config.borrow_limit
            } else {
                reserve.config.borrow_limit
            },
            deposit_limit: if config.deposit_limit < reserve.config.deposit_limit {
                config.deposit_limit
            } else {
                reserve.config.deposit_limit
            },
            ..reserve.config
        },
        ..reserve
    }
}

/// The reserve after its configuration was changed by the given signer.
pub open spec fn spec_reconfigured(
    reserve: Reserve,
    lending_market: LendingMarket,
    signer: Pubkey,
    mock_pyth_feed: MockPythPriceFeed,
    config: ReserveConfig,
    rate_limiter_config: RateLimiterConfig,
    is_test: bool,
    clock_slot: u64,
) -> Result<Reserve, ErrorCode> {
    if signer == lending_market.fee_authority {
        if signer != lending_market.owner {
            if with_fees_of(reserve.config, config).valid() {
                Ok(Reserve { config: with_fees_of(reserve.config, config), ..reserve })
            } else {
                Err(ErrorCode::InvalidConfig)
            }
        } else {
            Ok(
                spec_with_limit_and_price(
                    Reserve { config, ..reserve },
                    rate_limiter_config,
                    mock_pyth_feed,
                    is_test,
                    clock_slot,
                ),
            )
        }
    } else if signer == lending_market.owner {
        if !same_fees(reserve.config, config) {
            Err(ErrorCode::NotBernanke)
        } else {
            Ok(
                spec_with_limit_and_price(
                    Reserve { config, ..reserve },
                    rate_limiter_config,
                    mock_pyth_feed,
                    is_test,
                    clock_slot,
                ),
            )
        }
    } else if signer == lending_market.risk_authority {
        Ok(spec_tightened(reserve, config, rate_limiter_config, clock_slot))
    } else {
        Err(ErrorCode::Unauthorized)
    }
}

/// The accounts after the configuration of a reserve was changed.
pub open spec fn spec_update_reserve_config(
    accounts: ReserveConfigUpdate,
    config: ReserveConfig,
    rate_limiter_config: RateLimiterConfig,
    is_test: bool,
    clock_slot: u64,
) -> Result<ReserveConfigUpdate, ErrorCode> {
    if !config.valid() {
        Err(ErrorCode::InvalidConfig)
    } else if accounts.reserve.data.lending_market != accounts.lending_market.key {
        Err(ErrorCode::InvalidReserveLendingMarketMatch)
    } else {
        match spec_reconfigured(
            accounts.reserve.data,
            accounts.lending_market.data,
            accounts.signer,
            accounts.mock_pyth_feed.data,
            config,
            rate_limiter_config,
            is_test,
            clock_slot,
        ) {
            Err(e) => Err(e),
            Ok(reserve) => Ok(
                ReserveConfigUpdate {
                    reserve: Account {
                        data: Reserve {
                            last_update: LastUpdate { stale: true, ..reserve.last_update },
                            ..reserve
                        },
                        ..accounts.reserve
                    },
                    ..accounts
                },
            ),
        }
    }
}

fn with_limit_and_price(
    reserve: &mut Reserve,
    rate_limiter_config: RateLimiterConfig,
    mock_pyth_feed: &MockPythPriceFeed,
    is_test: bool,
    clock_slot: u64,
)
    ensures
        *final(reserve) == spec_with_limit_and_price(
            *old(reserve),
            rate_limiter_config,
            *mock_pyth_feed,
            is_test,
            clock_slot,
        ),
        old(reserve).wf() ==> final(reserve).wf(),
{
    if rate_limiter_config != reserve.rate_limiter.config {
        reserve.rate_limiter = RateLimiter::new(rate_limiter_config, clock_slot);
    }
    if is_test {
        let (market_price, _) = mock_pyth_feed.get_price();
        reserve.liquidity.market_price = Decimal::from_u64(market_price);
        reserve.liquidity.smoothed_market_price = Decimal::from_u64(market_price);
    }
}

/// Changes the configuration of a reserve, as far as the signer may.
///
/// The configuration handed in must keep its bounds, and the reserve must
/// belong to the lending market. Then:
/// - the fee authority that does not own the market changes the fees, and
///   nothing else; the fees must keep the bounds together with the risk
///   parameters that stay;
/// - the owner of the market who is not the fee authority changes
///   everything but the fees, which must be handed in as they are; one who
///   is both changes everything. Either replaces the limit on outflow where
///   its parameters change, and takes the price of the test feed in a test;
/// - the risk authority can switch all outflow off, and lower the borrow
///   limit and the deposit limit;
/// - anyone else is refused.
/// The reserve is marked stale.
pub fn handle_update_reserve_config(
    ctx: &mut Context<ReserveConfigUpdate>,
    config: ReserveConfig,
    rate_limiter_config: RateLimiterConfig,
    is_test: bool,
    clock_slot: u64,
) -> (r: Result<(), ErrorCode>)
    ensures
        commits(
            r,
            old(ctx).accounts,
            final(ctx).accounts,
            spec_update_reserve_config(
                old(ctx).accounts,
                config,
                rate_limiter_config,
                is_test,
                clock_slot,
            ),
        ),
        final(ctx).program_id == old(ctx).program_id,
        final(ctx).remaining_accounts == old(ctx).remaining_accounts,
        old(ctx).accounts.reserve.data.wf() ==> final(ctx).accounts.reserve.data.wf(),
{
    validate_reserve_config(config)?;
    let lending_market = ctx.accounts.lending_market.data;
    let signer = ctx.accounts.signer;
    let mut reserve = ctx.accounts.reserve.data;
    if !reserve.lending_market.equals(&ctx.accounts.lending_market.key) {
        return Err(ErrorCode::InvalidReserveLendingMarketMatch);
    }
    if signer.equals(&lending_market.fee_authority) {
        if !signer.equals(&lending_market.owner) {
            // the fee authority changes the fees and nothing else
            reserve.config.fees = config.fees;
            reserve.config.protocol_liquidation_fee = config.protocol_liquidation_fee;
            reserve.config.protocol_take_rate = config.protocol_take_rate;
            reserve.config.fee_receiver = config.fee_receiver;
            // with the risk parameters that stay, the fees must keep the bounds
            validate_reserve_config(reserve.config)?;
        } else {
            reserve.config = config;
            with_limit_and_price(
                &mut reserve,
                rate_limiter_config,
                &ctx.accounts.mock_pyth_feed.data,
                is_test,
                clock_slot,
            );
        }
    } else if signer.equals(&lending_market.owner) {
        // the owner must leave the fees as they are
        if reserve.config.protocol_liquidation_fee != config.protocol_liquidation_fee {
            return Err(ErrorCode::NotBernanke);
        }
        if reserve.config.protocol_take_rate != config.protocol_take_rate {
            return Err(ErrorCode::NotBernanke);
        }
        if !reserve.config.fee_receiver.equals(&config.fee_receiver) {
            return Err(ErrorCode::NotBernanke);
        }
        if reserve.config.fees != config.fees {
            return Err(ErrorCode::NotBernanke);
        }
        reserve.config = config;
        with_limit_and_price(
            &mut reserve,
            rate_limiter_config,
            &ctx.accounts.mock_pyth_feed.data,
            is_test,
            clock_slot,
        );
    } else if signer.equals(&lending_market.risk_authority) {
        // the risk authority can only switch outflow off
        if rate_limiter_config.window_duration > 0 && rate_limiter_config.max_outflow == 0 {
            reserve.rate_limiter = RateLimiter::new(rate_limiter_config, clock_slot);
        }
        // and move the limits of the reserve in the safer direction
        if config.borrow_limit < reserve.config.borrow_limit {
            reserve.config.borrow_limit = config.borrow_limit;
        }
        if config.deposit_limit < reserve.config.deposit_limit {
            reserve.config.deposit_limit = config.deposit_limit;
        }
    } else {
        return Err(ErrorCode::Unauthorized);
    }
    reserve.last_update.mark_stale();
    ctx.accounts.reserve.data = reserve;
    Ok(())
}

} // verus!
