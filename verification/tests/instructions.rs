use splyce_lending::account::{Account, Context};
use splyce_lending::error::ErrorCode;
use splyce_lending::instructions::deposit_obligation_collateral::{
    handle_deposit_obligation_collateral, DepositObligationCollateral,
};
use splyce_lending::instructions::deposit_reserve_liquidity::{
    handle_deposit_reserve_liquidity, DepositReserveLiquidity,
};
use splyce_lending::instructions::init_lending_market::{
    handle_init_lending_market, init_lending_market, LendingMarketInit,
};
use splyce_lending::instructions::init_mock_pyth_feed::{
    handle_init_mock_pyth_feed, handle_update_mock_pyth_price, InitMockPythPriceFeed,
    UpdateMockPythPrice,
};
use splyce_lending::instructions::init_obligation::{handle_init_obligation, ObligationInit};
use splyce_lending::instructions::init_reserve::{handle_init_reserve, init_reserve, Mint, ReserveInit};
use splyce_lending::instructions::redeem_reserve_collateral::{
    handle_redeem_reserve_collateral, RedeemCollateral,
};
use splyce_lending::instructions::refresh_obligation::{
    handle_refresh_obligation, RefreshObligation,
};
use splyce_lending::instructions::refresh_reserve::{handle_refresh_reserve, RefreshReserve};
use splyce_lending::instructions::set_lending_market_owner_and_config::{
    handle_set_lending_market_owner_and_config, set_lending_market_owner_and_config,
    LendingMarketSet,
};
use splyce_lending::instructions::update_reserve_config::{
    handle_update_reserve_config, ReserveConfigUpdate,
};
use splyce_lending::instructions::withdraw_obligation_collateral::{
    handle_withdraw_obligation_collateral, WithdrawObligationCollateral,
};
use splyce_lending::math::decimal::Decimal;
use splyce_lending::pubkey::Pubkey;
use splyce_lending::state::last_update::LastUpdate;
use splyce_lending::state::lending_market::{InitLendingMarketParams, LendingMarket};
use splyce_lending::state::mock_pyth_price_feed::MockPythPriceFeed;
use splyce_lending::state::obligation::{Obligation, ObligationCollateral, ObligationLiquidity};
use splyce_lending::state::rate_limiter::{RateLimiter, RateLimiterConfig};
use splyce_lending::state::reserve::{InitReserveParams, Reserve};
use splyce_lending::state::reserve_collateral::{NewReserveCollateralParams, ReserveCollateral};
use splyce_lending::state::reserve_config::{ReserveConfig, ReserveFees, ReserveType};
use splyce_lending::state::reserve_liquidity::{NewReserveLiquidityParams, ReserveLiquidity};

const PROGRAM: u8 = 200;
const MARKET: u8 = 1;
const OWNER: u8 = 2;
const TOKEN_PROGRAM: u8 = 3;
const FEE_AUTHORITY: u8 = 4;
const RISK_AUTHORITY: u8 = 5;
const RESERVE: u8 = 10;
const LIQUIDITY_MINT: u8 = 11;
const LIQUIDITY_SUPPLY: u8 = 12;
const COLLATERAL_MINT: u8 = 13;
const COLLATERAL_SUPPLY: u8 = 14;
const USER_LIQUIDITY: u8 = 20;
const USER_COLLATERAL: u8 = 21;
const USER: u8 = 22;
const OBLIGATION: u8 = 30;

fn address(n: u8) -> Pubkey {
    Pubkey([n; 32])
}

fn context<T>(accounts: T) -> Context<T> {
    Context { program_id: address(PROGRAM), accounts, remaining_accounts: Vec::new() }
}

fn derived(seed: &Pubkey, program: &Pubkey) -> (Pubkey, u8) {
    let (found, bump) = solana_program::pubkey::Pubkey::find_program_address(
        &[&seed.0],
        &solana_program::pubkey::Pubkey::new_from_array(program.0),
    );
    (Pubkey(found.to_bytes()), bump)
}

fn market() -> LendingMarket {
    let mut m = LendingMarket::new(InitLendingMarketParams {
        bump_seed: 255,
        owner: address(OWNER),
        quote_currency: [85; 32],
        token_program_id: address(TOKEN_PROGRAM),
        fee_authority: address(FEE_AUTHORITY),
    });
    m.risk_authority = address(RISK_AUTHORITY);
    m
}

fn market_account() -> Account<LendingMarket> {
    Account { key: address(MARKET), data: market() }
}

fn config() -> ReserveConfig {
    ReserveConfig {
        optimal_utilization_rate: 80,
        max_utilization_rate: 90,
        loan_to_value_ratio: 50,
        liquidation_bonus: 5,
        max_liquidation_bonus: 10,
        liquidation_threshold: 55,
        max_liquidation_threshold: 65,
        min_borrow_rate: 2,
        optimal_borrow_rate: 8,
        max_borrow_rate: 50,
        super_max_borrow_rate: 150,
        fees: ReserveFees {
            borrow_fee_wad: 10_000_000_000_000_000,
            flash_loan_fee_wad: 3_000_000_000_000_000,
            host_fee_percentage: 20,
        },
        deposit_limit: 1_000_000,
        borrow_limit: 500_000,
        fee_receiver: address(9),
        protocol_liquidation_fee: 10,
        protocol_take_rate: 10,
        added_borrow_weight_bps: 0,
        reserve_type: ReserveType::Regular,
        scaled_price_offset_bps: 0,
        extra_oracle_pubkey: None,
        attributed_borrow_limit_open: u64::MAX,
        attributed_borrow_limit_close: u64::MAX,
    }
}

fn reserve() -> Reserve {
    Reserve::new(InitReserveParams {
        current_slot: 0,
        lending_market: address(MARKET),
        liquidity: ReserveLiquidity::new(NewReserveLiquidityParams {
            mint_pubkey: address(LIQUIDITY_MINT),
            mint_decimals: 6,
            supply_pubkey: address(LIQUIDITY_SUPPLY),
            pyth_oracle_feed_id: [7; 32],
            market_price: Decimal::from(10u64),
            smoothed_market_price: Decimal::from(10u64),
        }),
        collateral: ReserveCollateral::new(NewReserveCollateralParams {
            mint_pubkey: address(COLLATERAL_MINT),
            supply_pubkey: address(COLLATERAL_SUPPLY),
        }),
        config: config(),
        rate_limiter_config: RateLimiterConfig { window_duration: 0, max_outflow: 0 },
        key: 0,
    })
}

fn reserve_account() -> Account<Reserve> {
    Account { key: address(RESERVE), data: reserve() }
}

fn deposit_accounts() -> DepositReserveLiquidity {
    DepositReserveLiquidity {
        liquidity_user_account: address(USER_LIQUIDITY),
        collateral_user_account: address(USER_COLLATERAL),
        reserve: reserve_account(),
        liquidity_reserve_account: address(LIQUIDITY_SUPPLY),
        collateral_mint_account: address(COLLATERAL_MINT),
        lending_market: market_account(),
        signer: address(USER),
        token_program: address(TOKEN_PROGRAM),
    }
}

#[test]
fn deposit_into_an_empty_reserve_mints_as_much_collateral() {
    let mut ctx = context(deposit_accounts());
    assert_eq!(handle_deposit_reserve_liquidity(&mut ctx, 100_000, 1), Ok(100_000));
    let r = ctx.accounts.reserve.data;
    assert_eq!(r.liquidity.available_amount, 100_000);
    assert_eq!(r.collateral.mint_total_supply, 100_000);
    assert_eq!(r.last_update.slot, 1);
    assert!(r.last_update.stale);
}

#[test]
fn deposit_above_the_limit_of_the_reserve_is_refused() {
    let mut ctx = context(deposit_accounts());
    handle_deposit_reserve_liquidity(&mut ctx, 100_000, 1).unwrap();
    let before = ctx.clone();
    assert_eq!(
        handle_deposit_reserve_liquidity(&mut ctx, 2_000_000, 1),
        Err(ErrorCode::DepositedOverLimit)
    );
    assert!(ctx == before);
    assert_eq!(ctx.accounts.reserve.data.last_update.stale, before.accounts.reserve.data.last_update.stale);
    assert_eq!(handle_deposit_reserve_liquidity(&mut ctx, 900_000, 1), Ok(900_000));
    assert_eq!(
        handle_deposit_reserve_liquidity(&mut ctx, 1, 1),
        Err(ErrorCode::DepositedOverLimit)
    );
}

#[test]
fn deposit_of_nothing_is_refused() {
    let mut ctx = context(deposit_accounts());
    assert_eq!(handle_deposit_reserve_liquidity(&mut ctx, 0, 1), Err(ErrorCode::InvalidAmount));
}

#[test]
fn deposit_with_the_wrong_accounts_is_refused() {
    let check = |change: fn(&mut DepositReserveLiquidity), expected: ErrorCode| {
        let mut accounts = deposit_accounts();
        change(&mut accounts);
        let mut ctx = context(accounts);
        let before = ctx.clone();
        assert_eq!(handle_deposit_reserve_liquidity(&mut ctx, 5, 1), Err(expected));
        assert!(ctx == before);
    };
    check(|a| a.lending_market.key = address(99), ErrorCode::InvalidLendingMarketAccount);
    check(|a| a.token_program = address(99), ErrorCode::InvalidTokenProgram);
    check(|a| a.collateral_mint_account = address(99), ErrorCode::InvalidCollateralMintAccount);
    check(|a| a.liquidity_reserve_account = address(99), ErrorCode::InvalidDestinationOfLiquidity);
    check(|a| a.liquidity_user_account = address(LIQUIDITY_SUPPLY), ErrorCode::InvalidSourceOfLiquidity);
    check(
        |a| a.collateral_user_account = address(COLLATERAL_SUPPLY),
        ErrorCode::InvalidDestinationOfCollateral,
    );
}

#[test]
fn deposit_brings_the_interest_up_to_date_first() {
    let mut accounts = deposit_accounts();
    accounts.reserve.data.liquidity.available_amount = 60;
    accounts.reserve.data.liquidity.borrowed_amount_wads = Decimal::from(40u64);
    accounts.reserve.data.collateral.mint_total_supply = 100;
    let mut ctx = context(accounts);
    assert_eq!(handle_deposit_reserve_liquidity(&mut ctx, 1_000, 63_072_000), Ok(981));
    let l = ctx.accounts.reserve.data.liquidity;
    assert_eq!(l.borrowed_amount_wads, Decimal::from_scaled_val(42_050_843_851_294_004_840));
    assert_eq!(l.available_amount, 1_060);
    // a slot before the last update cannot be refreshed
    assert_eq!(handle_deposit_reserve_liquidity(&mut ctx, 1, 5), Err(ErrorCode::MathOverflow));
}

fn redeem_accounts(available: u64, minted: u64) -> RedeemCollateral {
    let mut r = reserve_account();
    r.data.liquidity.available_amount = available;
    r.data.collateral.mint_total_supply = minted;
    r.data.last_update = LastUpdate { slot: 5, stale: false };
    RedeemCollateral {
        collateral_user_account: address(USER_COLLATERAL),
        liquidity_user_account: address(USER_LIQUIDITY),
        reserve: r,
        collateral_mint_account: address(COLLATERAL_MINT),
        liquidity_reserve_account: address(LIQUIDITY_SUPPLY),
        lending_market: market_account(),
        signer: address(USER),
        token_program: address(TOKEN_PROGRAM),
    }
}

#[test]
fn redeem_pays_out_and_counts_as_outflow() {
    let mut accounts = redeem_accounts(3_000_000, 2_000_000);
    accounts.reserve.data.rate_limiter =
        RateLimiter::new(RateLimiterConfig { window_duration: 10, max_outflow: 1_500_000 }, 0);
    accounts.lending_market.data.rate_limiter =
        RateLimiter::new(RateLimiterConfig { window_duration: 10, max_outflow: 20 }, 0);
    let mut ctx = context(accounts);
    assert_eq!(handle_redeem_reserve_collateral(&mut ctx, 1_000_000, 5), Ok(1_500_000));
    let r = ctx.accounts.reserve.data;
    assert_eq!(r.liquidity.available_amount, 1_500_000);
    assert_eq!(r.collateral.mint_total_supply, 1_000_000);
    assert!(r.last_update.stale);
    assert_eq!(r.rate_limiter.cur_qty, Decimal::from(1_500_000u64));
    // a million and a half units at a price of 10 for a million
    assert_eq!(ctx.accounts.lending_market.data.rate_limiter.cur_qty, Decimal::from(15u64));
}

#[test]
fn redeem_beyond_a_limit_on_outflow_changes_nothing() {
    let mut accounts = redeem_accounts(3_000_000, 2_000_000);
    accounts.lending_market.data.rate_limiter =
        RateLimiter::new(RateLimiterConfig { window_duration: 10, max_outflow: 14 }, 0);
    let mut ctx = context(accounts);
    let before = ctx.clone();
    assert_eq!(
        handle_redeem_reserve_collateral(&mut ctx, 1_000_000, 5),
        Err(ErrorCode::RateLimitReached)
    );
    assert!(ctx == before);
    assert_eq!(ctx.accounts.reserve.data.liquidity, before.accounts.reserve.data.liquidity);
    let mut accounts = redeem_accounts(3_000_000, 2_000_000);
    accounts.reserve.data.rate_limiter =
        RateLimiter::new(RateLimiterConfig { window_duration: 10, max_outflow: 1_499_999 }, 0);
    let mut ctx = context(accounts);
    assert_eq!(
        handle_redeem_reserve_collateral(&mut ctx, 1_000_000, 5),
        Err(ErrorCode::RateLimitReached)
    );
    assert_eq!(ctx.accounts.lending_market.data.rate_limiter.cur_qty, Decimal::zero());
}

#[test]
fn redeem_from_a_stale_reserve_is_refused() {
    let mut ctx = context(redeem_accounts(3_000_000, 2_000_000));
    assert_eq!(handle_redeem_reserve_collateral(&mut ctx, 1, 6), Err(ErrorCode::ReserveStale));
    assert_eq!(handle_redeem_reserve_collateral(&mut ctx, 1, 4), Err(ErrorCode::ReserveStale));
    ctx.accounts.reserve.data.last_update.stale = true;
    assert_eq!(handle_redeem_reserve_collateral(&mut ctx, 1, 5), Err(ErrorCode::ReserveStale));
    assert_eq!(handle_redeem_reserve_collateral(&mut ctx, 0, 5), Err(ErrorCode::InvalidAmount));
}

#[test]
fn redeem_with_the_wrong_accounts_is_refused() {
    let check = |change: fn(&mut RedeemCollateral), expected: ErrorCode| {
        let mut accounts = redeem_accounts(3_000_000, 2_000_000);
        change(&mut accounts);
        let mut ctx = context(accounts);
        assert_eq!(handle_redeem_reserve_collateral(&mut ctx, 5, 5), Err(expected));
    };
    check(|a| a.lending_market.key = address(99), ErrorCode::InvalidLendingMarketAccount);
    check(|a| a.token_program = address(99), ErrorCode::InvalidTokenProgram);
    check(|a| a.collateral_mint_account = address(99), ErrorCode::InvalidCollateralMintAccount);
    check(|a| a.collateral_user_account = address(COLLATERAL_SUPPLY), ErrorCode::InvalidSourceOfCollateral);
    check(|a| a.liquidity_reserve_account = address(99), ErrorCode::InvalidSourceOfLiquidity);
    check(
        |a| a.liquidity_user_account = address(LIQUIDITY_SUPPLY),
        ErrorCode::InvalidDestinationOfLiquidity,
    );
}

#[test]
fn refresh_of_a_reserve_takes_the_test_price_and_accrues_interest() {
    let mut r = reserve_account();
    r.data.liquidity.available_amount = 60;
    r.data.liquidity.borrowed_amount_wads = Decimal::from(40u64);
    let accounts = RefreshReserve {
        reserve: r,
        signer: address(USER),
        mock_pyth_feed: Account { key: address(40), data: MockPythPriceFeed { price: 25, expo: 0 } },
    };
    let mut ctx = context(accounts);
    assert_eq!(handle_refresh_reserve(&mut ctx, true, 1), Ok(()));
    let refreshed = ctx.accounts.reserve.data;
    assert_eq!(refreshed.liquidity.market_price, Decimal::from(25u64));
    assert_eq!(refreshed.liquidity.smoothed_market_price, Decimal::from(25u64));
    assert_eq!(refreshed.liquidity.borrowed_amount_wads, Decimal::from_scaled_val(40_000_000_031_709_791_960));
    assert_eq!(refreshed.last_update.slot, 1);
    assert!(!refreshed.last_update.stale);
    // once more in the same slot
    let once = ctx.clone();
    assert_eq!(handle_refresh_reserve(&mut ctx, true, 1), Ok(()));
    assert!(ctx == once);
    assert_eq!(ctx.accounts.reserve.data.liquidity, once.accounts.reserve.data.liquidity);
    assert!(!ctx.accounts.reserve.data.last_update.stale);
    // outside of a test the price is left alone
    ctx.accounts.mock_pyth_feed.data.price = 30;
    assert_eq!(handle_refresh_reserve(&mut ctx, false, 1), Ok(()));
    assert_eq!(ctx.accounts.reserve.data.liquidity.market_price, Decimal::from(25u64));
    assert_eq!(handle_refresh_reserve(&mut ctx, false, 0), Err(ErrorCode::MathOverflow));
}

#[test]
fn lending_market_is_created_with_the_bump_seed_of_its_address() {
    let accounts = LendingMarketInit {
        lending_market: Account { key: address(MARKET), data: LendingMarket::default() },
        signer: address(OWNER),
        token_program: address(TOKEN_PROGRAM),
    };
    let mut ctx = context(accounts);
    let (_, bump) = derived(&address(OWNER), &address(PROGRAM));
    assert_eq!(handle_init_lending_market(&mut ctx, [85; 32], address(FEE_AUTHORITY)), Ok(()));
    let m = ctx.accounts.lending_market.data;
    assert_eq!(m.bump_seed, bump);
    assert_eq!(m.version, 1);
    assert_eq!(m.owner, address(OWNER));
    assert_eq!(m.original_owner, address(OWNER));
    assert_eq!(m.risk_authority, address(OWNER));
    assert_eq!(m.fee_authority, address(FEE_AUTHORITY));
    assert_eq!(m.quote_currency, [85; 32]);
    assert_eq!(m.token_program_id, address(TOKEN_PROGRAM));
    assert_eq!(m.whitelisted_liquidator, None);
    assert_eq!(m.rate_limiter, RateLimiter::default());
    assert_eq!(ctx.accounts.lending_market.key, address(MARKET));
}

#[test]
fn lending_market_without_a_derived_address_is_not_created() {
    let accounts = LendingMarketInit {
        lending_market: Account { key: address(MARKET), data: LendingMarket::default() },
        signer: address(OWNER),
        token_program: address(TOKEN_PROGRAM),
    };
    let mut ctx = context(accounts);
    let before = ctx.clone();
    assert_eq!(
        init_lending_market(&mut ctx, None, [85; 32], address(FEE_AUTHORITY)),
        Err(ErrorCode::InvalidBumpSeed)
    );
    assert!(ctx == before);
    assert_eq!(
        init_lending_market(&mut ctx, Some((address(77), 9)), [85; 32], address(FEE_AUTHORITY)),
        Ok(())
    );
    assert_eq!(ctx.accounts.lending_market.data.bump_seed, 9);
}

fn set_accounts(market_key: Pubkey) -> LendingMarketSet {
    LendingMarketSet {
        lending_market: Account { key: market_key, data: market() },
        signer: address(OWNER),
    }
}

#[test]
fn owner_hands_the_market_on_where_its_address_is_the_derived_one() {
    let (market_key, _) = derived(&address(OWNER), &address(PROGRAM));
    let mut ctx = context(set_accounts(market_key));
    let limits = RateLimiterConfig { window_duration: 10, max_outflow: 77 };
    assert_eq!(
        handle_set_lending_market_owner_and_config(
            &mut ctx,
            address(50),
            limits,
            Some(address(51)),
            address(52),
            address(OWNER),
            25
        ),
        Ok(())
    );
    let m = ctx.accounts.lending_market.data;
    assert_eq!(m.owner, address(50));
    assert_eq!(m.whitelisted_liquidator, Some(address(51)));
    assert_eq!(m.risk_authority, address(52));
    assert_eq!(m.rate_limiter, RateLimiter::new(limits, 25));
    assert_eq!(m.rate_limiter.window_start, 20);
    assert_eq!(m.original_owner, address(OWNER));
}

#[test]
fn market_at_another_address_is_not_handed_on() {
    // the address of the seed itself is not the derived one
    let mut ctx = context(set_accounts(address(OWNER)));
    let before = ctx.clone();
    let limits = RateLimiterConfig { window_duration: 10, max_outflow: 77 };
    assert_eq!(
        handle_set_lending_market_owner_and_config(
            &mut ctx,
            address(50),
            limits,
            None,
            address(52),
            address(OWNER),
            25
        ),
        Err(ErrorCode::InvalidLendingMarketAccount)
    );
    assert!(ctx == before);
    let (market_key, _) = derived(&address(OWNER), &address(PROGRAM));
    let mut ctx = context(set_accounts(market_key));
    // derived from another seed
    assert_eq!(
        handle_set_lending_market_owner_and_config(
            &mut ctx,
            address(50),
            limits,
            None,
            address(52),
            address(53),
            25
        ),
        Err(ErrorCode::InvalidLendingMarketAccount)
    );
}

#[test]
fn only_the_owner_sets_the_market_and_only_with_a_limit_switched_on() {
    let mut ctx = context(set_accounts(address(MARKET)));
    ctx.accounts.signer = address(USER);
    let limits = RateLimiterConfig { window_duration: 10, max_outflow: 77 };
    let found = Some((address(MARKET), 255));
    assert_eq!(
        set_lending_market_owner_and_config(&mut ctx, found, address(50), limits, None, address(52), 25),
        Err(ErrorCode::Unauthorized)
    );
    ctx.accounts.signer = address(OWNER);
    assert_eq!(
        set_lending_market_owner_and_config(&mut ctx, None, address(50), limits, None, address(52), 25),
        Err(ErrorCode::InvalidBumpSeed)
    );
    let off = RateLimiterConfig { window_duration: 0, max_outflow: 77 };
    let before = ctx.clone();
    assert_eq!(
        set_lending_market_owner_and_config(&mut ctx, found, address(50), off, None, address(52), 25),
        Err(ErrorCode::InvalidArgument)
    );
    assert!(ctx == before);
    assert_eq!(
        set_lending_market_owner_and_config(&mut ctx, found, address(50), limits, None, address(52), 25),
        Ok(())
    );
    assert_eq!(ctx.accounts.lending_market.data.owner, address(50));
}

fn init_reserve_accounts(market_key: Pubkey, bump: u8) -> ReserveInit {
    let mut m = market();
    m.bump_seed = bump;
    ReserveInit {
        reserve: Account { key: address(RESERVE), data: Reserve::default() },
        lending_market: Account { key: market_key, data: m },
        collateral_mint_account: Account { key: address(COLLATERAL_MINT), data: Mint { decimals: 9 } },
        collateral_reserve_account: address(COLLATERAL_SUPPLY),
        collateral_user_account: address(USER_COLLATERAL),
        liquidity_mint_account: Account { key: address(LIQUIDITY_MINT), data: Mint { decimals: 6 } },
        liquidity_reserve_account: address(LIQUIDITY_SUPPLY),
        liquidity_fee_account: address(15),
        liquidity_user_account: address(USER_LIQUIDITY),
        signer: address(OWNER),
        fee_account_owner: address(16),
        mock_pyth_feed: Account { key: address(40), data: MockPythPriceFeed { price: 10, expo: 0 } },
    }
}

#[test]
fn reserve_is_created_in_the_market_derived_from_the_signer() {
    let (market_key, bump) = derived(&address(OWNER), &address(PROGRAM));
    let mut ctx = context(init_reserve_accounts(market_key, bump));
    assert_eq!(handle_init_reserve(&mut ctx, 1, 0, [7; 32], config(), true, 0), Ok(()));
    let mut expected = reserve();
    expected.lending_market = market_key;
    assert!(ctx.accounts.reserve.data == expected);
    assert_eq!(ctx.accounts.reserve.data.liquidity, expected.liquidity);
    assert_eq!(ctx.accounts.reserve.data.config, expected.config);
    assert!(ctx.accounts.reserve.data.last_update.stale);
    // outside of a test there is no price yet
    let mut ctx = context(init_reserve_accounts(market_key, bump));
    assert_eq!(handle_init_reserve(&mut ctx, 1, 0, [7; 32], config(), false, 0), Ok(()));
    assert_eq!(ctx.accounts.reserve.data.liquidity.market_price, Decimal::zero());
}

#[test]
fn reserve_is_not_created_in_another_market() {
    let (market_key, bump) = derived(&address(OWNER), &address(PROGRAM));
    let attempt = |accounts: ReserveInit, amount: u64, c: ReserveConfig| {
        let mut ctx = context(accounts);
        let before = ctx.clone();
        let r = handle_init_reserve(&mut ctx, amount, 0, [7; 32], c, true, 0);
        assert!(ctx == before);
        r
    };
    assert_eq!(
        attempt(init_reserve_accounts(address(MARKET), bump), 1, config()),
        Err(ErrorCode::InvalidArgument)
    );
    assert_eq!(
        attempt(init_reserve_accounts(market_key, bump.wrapping_add(1)), 1, config()),
        Err(ErrorCode::InvalidArgument)
    );
    assert_eq!(
        attempt(init_reserve_accounts(market_key, bump), 0, config()),
        Err(ErrorCode::InvalidArgument)
    );
    let mut other_signer = init_reserve_accounts(market_key, bump);
    other_signer.signer = address(USER);
    assert_eq!(attempt(other_signer, 1, config()), Err(ErrorCode::Unauthorized));
    let mut bad = config();
    bad.loan_to_value_ratio = 100;
    assert_eq!(
        attempt(init_reserve_accounts(market_key, bump), 1, bad),
        Err(ErrorCode::InvalidConfig)
    );
    let mut ctx = context(init_reserve_accounts(market_key, bump));
    assert_eq!(
        init_reserve(&mut ctx, None, 1, 0, [7; 32], config(), true, 0),
        Err(ErrorCode::InvalidBumpSeed)
    );
}

fn update_accounts(signer: u8) -> ReserveConfigUpdate {
    let mut r = reserve_account();
    r.data.last_update = LastUpdate { slot: 5, stale: false };
    ReserveConfigUpdate {
        reserve: r,
        lending_market: market_account(),
        signer: address(signer),
        lending_market_owner: address(OWNER),
        mock_pyth_feed: Account { key: address(40), data: MockPythPriceFeed { price: 33, expo: 0 } },
    }
}

fn new_config() -> ReserveConfig {
    let mut c = config();
    c.loan_to_value_ratio = 40;
    c.deposit_limit = 2_000_000;
    c.borrow_limit = 400_000;
    c
}

fn new_fees() -> ReserveConfig {
    let mut c = new_config();
    c.fees.borrow_fee_wad = 1;
    c.protocol_liquidation_fee = 11;
    c.protocol_take_rate = 12;
    c.fee_receiver = address(60);
    c
}

#[test]
fn fee_authority_changes_the_fees_and_nothing_else() {
    let mut ctx = context(update_accounts(FEE_AUTHORITY));
    let limits = RateLimiterConfig { window_duration: 10, max_outflow: 5 };
    assert_eq!(handle_update_reserve_config(&mut ctx, new_fees(), limits, true, 7), Ok(()));
    let r = ctx.accounts.reserve.data;
    assert_eq!(r.config.fees, new_fees().fees);
    assert_eq!(r.config.protocol_liquidation_fee, 11);
    assert_eq!(r.config.protocol_take_rate, 12);
    assert_eq!(r.config.fee_receiver, address(60));
    assert_eq!(r.config.loan_to_value_ratio, 50);
    assert_eq!(r.config.deposit_limit, 1_000_000);
    assert_eq!(r.rate_limiter, reserve().rate_limiter);
    assert_eq!(r.liquidity.market_price, Decimal::from(10u64));
    assert!(r.last_update.stale);
    assert_eq!(r.last_update.slot, 5);
}

#[test]
fn owner_changes_everything_but_the_fees() {
    let mut ctx = context(update_accounts(OWNER));
    let limits = RateLimiterConfig { window_duration: 10, max_outflow: 5 };
    assert_eq!(handle_update_reserve_config(&mut ctx, new_config(), limits, true, 27), Ok(()));
    let r = ctx.accounts.reserve.data;
    assert_eq!(r.config, new_config());
    assert_eq!(r.rate_limiter, RateLimiter::new(limits, 27));
    assert_eq!(r.liquidity.market_price, Decimal::from(33u64));
    assert_eq!(r.liquidity.smoothed_market_price, Decimal::from(33u64));
    assert!(r.last_update.stale);
    // the same limit on outflow is not started anew
    ctx.accounts.reserve.data.rate_limiter.cur_qty = Decimal::from(3u64);
    assert_eq!(handle_update_reserve_config(&mut ctx, new_config(), limits, false, 40), Ok(()));
    assert_eq!(ctx.accounts.reserve.data.rate_limiter.cur_qty, Decimal::from(3u64));
}

#[test]
fn owner_may_not_touch_the_fees() {
    let limits = RateLimiterConfig { window_duration: 10, max_outflow: 5 };
    let check = |change: fn(&mut ReserveConfig)| {
        let mut c = new_config();
        change(&mut c);
        let mut ctx = context(update_accounts(OWNER));
        let before = ctx.clone();
        assert_eq!(
            handle_update_reserve_config(&mut ctx, c, limits, true, 7),
            Err(ErrorCode::NotBernanke)
        );
        assert!(ctx == before);
        assert_eq!(ctx.accounts.reserve.data.config, before.accounts.reserve.data.config);
    };
    check(|c| c.fees.borrow_fee_wad = 1);
    check(|c| c.fees.host_fee_percentage = 1);
    check(|c| c.protocol_liquidation_fee = 11);
    check(|c| c.protocol_take_rate = 12);
    check(|c| c.fee_receiver = address(60));
}

#[test]
fn owner_who_is_the_fee_authority_changes_everything() {
    let mut accounts = update_accounts(OWNER);
    accounts.lending_market.data.fee_authority = address(OWNER);
    let mut ctx = context(accounts);
    let limits = RateLimiterConfig { window_duration: 10, max_outflow: 5 };
    assert_eq!(handle_update_reserve_config(&mut ctx, new_fees(), limits, false, 27), Ok(()));
    assert_eq!(ctx.accounts.reserve.data.config, new_fees());
    assert_eq!(ctx.accounts.reserve.data.rate_limiter, RateLimiter::new(limits, 27));
    assert_eq!(ctx.accounts.reserve.data.liquidity.market_price, Decimal::from(10u64));
}

#[test]
fn risk_authority_only_tightens() {
    let mut ctx = context(update_accounts(RISK_AUTHORITY));
    let limits = RateLimiterConfig { window_duration: 10, max_outflow: 5 };
    assert_eq!(handle_update_reserve_config(&mut ctx, new_fees(), limits, true, 27), Ok(()));
    let r = ctx.accounts.reserve.data;
    // the borrow limit goes down, the deposit limit does not go up
    assert_eq!(r.config.borrow_limit, 400_000);
    assert_eq!(r.config.deposit_limit, 1_000_000);
    assert_eq!(r.config.loan_to_value_ratio, 50);
    assert_eq!(r.config.fees, config().fees);
    assert_eq!(r.rate_limiter, reserve().rate_limiter);
    assert_eq!(r.liquidity.market_price, Decimal::from(10u64));
    assert!(r.last_update.stale);
    // outflow can be switched off
    let none = RateLimiterConfig { window_duration: 10, max_outflow: 0 };
    assert_eq!(handle_update_reserve_config(&mut ctx, config(), none, true, 27), Ok(()));
    assert_eq!(ctx.accounts.reserve.data.rate_limiter, RateLimiter::new(none, 27));
    assert_eq!(ctx.accounts.reserve.data.config.borrow_limit, 400_000);
}

#[test]
fn anyone_else_changes_nothing() {
    let limits = RateLimiterConfig { window_duration: 10, max_outflow: 5 };
    let mut ctx = context(update_accounts(USER));
    let before = ctx.clone();
    assert_eq!(
        handle_update_reserve_config(&mut ctx, new_config(), limits, true, 7),
        Err(ErrorCode::Unauthorized)
    );
    assert!(ctx == before);
    assert!(!ctx.accounts.reserve.data.last_update.stale);
    let mut bad = new_config();
    bad.protocol_take_rate = 101;
    let mut ctx = context(update_accounts(OWNER));
    assert_eq!(
        handle_update_reserve_config(&mut ctx, bad, limits, true, 7),
        Err(ErrorCode::InvalidConfig)
    );
    let mut accounts = update_accounts(OWNER);
    accounts.lending_market.key = address(99);
    let mut ctx = context(accounts);
    assert_eq!(
        handle_update_reserve_config(&mut ctx, new_config(), limits, true, 7),
        Err(ErrorCode::InvalidReserveLendingMarketMatch)
    );
}

#[test]
fn test_feed_takes_its_price() {
    let feed = Account { key: address(40), data: MockPythPriceFeed::default() };
    let mut ctx = context(InitMockPythPriceFeed { mock_pyth_feed: feed, signer: address(USER) });
    assert_eq!(handle_init_mock_pyth_feed(&mut ctx, 12, 6), Ok(()));
    assert_eq!(ctx.accounts.mock_pyth_feed.data.get_price(), (12, 6));
    let mut ctx = context(UpdateMockPythPrice {
        mock_pyth_feed: ctx.accounts.mock_pyth_feed,
        signer: address(USER),
    });
    assert_eq!(handle_update_mock_pyth_price(&mut ctx, 13, 7), Ok(()));
    assert_eq!(ctx.accounts.mock_pyth_feed.data, MockPythPriceFeed { price: 13, expo: 7 });
    assert_eq!(ctx.accounts.mock_pyth_feed.key, address(40));
}

#[test]
fn obligation_is_created_for_the_signer() {
    let accounts = ObligationInit {
        obligation: Account { key: address(OBLIGATION), data: Obligation::default() },
        lending_market: market_account(),
        signer: address(USER),
        token_program: address(TOKEN_PROGRAM),
    };
    let mut ctx = context(accounts);
    assert_eq!(handle_init_obligation(&mut ctx, 8, 4), Ok(()));
    let o = &ctx.accounts.obligation.data;
    assert_eq!(o.version, 1);
    assert_eq!(o.owner, address(USER));
    assert_eq!(o.lending_market, address(MARKET));
    assert_eq!(o.last_update.slot, 4);
    assert!(o.last_update.stale);
    assert_eq!(o.key, 8);
    assert!(o.deposits.is_empty() && o.borrows.is_empty());
    ctx.accounts.token_program = address(99);
    let before = ctx.clone();
    assert_eq!(handle_init_obligation(&mut ctx, 9, 5), Err(ErrorCode::InvalidTokenProgram));
    assert!(ctx == before);
}

fn fresh_reserve(key: u8, price: u64, available: u64, minted: u64, slot: u64) -> Account<Reserve> {
    let mut r = reserve();
    r.liquidity.market_price = Decimal::from(price);
    r.liquidity.smoothed_market_price = Decimal::from(price);
    r.liquidity.available_amount = available;
    r.collateral.mint_total_supply = minted;
    r.last_update = LastUpdate { slot, stale: false };
    Account { key: address(key), data: r }
}

fn users_obligation() -> Obligation {
    let mut o = Obligation::default();
    o.version = 1;
    o.lending_market = address(MARKET);
    o.owner = address(USER);
    o.last_update = LastUpdate { slot: 5, stale: false };
    o
}

fn deposit_collateral_accounts() -> DepositObligationCollateral {
    DepositObligationCollateral {
        collateral_user_account: address(USER_COLLATERAL),
        collateral_reserve_account: address(COLLATERAL_SUPPLY),
        deposit_reserve: fresh_reserve(RESERVE, 10, 1_000, 1_000, 5),
        obligation: Account { key: address(OBLIGATION), data: users_obligation() },
        lending_market: market_account(),
        signer: address(USER),
        token_program: address(TOKEN_PROGRAM),
    }
}

#[test]
fn collateral_is_deposited_in_a_new_and_in_an_old_deposit() {
    let mut ctx = context(deposit_collateral_accounts());
    assert_eq!(handle_deposit_obligation_collateral(&mut ctx, 70, 5), Ok(()));
    assert_eq!(ctx.accounts.obligation.data.deposits.len(), 1);
    assert_eq!(ctx.accounts.obligation.data.deposits[0].deposit_reserve, address(RESERVE));
    assert_eq!(ctx.accounts.obligation.data.deposits[0].deposited_amount, 70);
    assert!(ctx.accounts.obligation.data.last_update.stale);
    assert!(ctx.accounts.deposit_reserve.data.last_update.stale);
    assert_eq!(handle_deposit_obligation_collateral(&mut ctx, 30, 6), Ok(()));
    assert_eq!(ctx.accounts.obligation.data.deposits.len(), 1);
    assert_eq!(ctx.accounts.obligation.data.deposits[0].deposited_amount, 100);
    assert_eq!(ctx.accounts.deposit_reserve.data.last_update.slot, 6);
    let before = ctx.clone();
    assert_eq!(
        handle_deposit_obligation_collateral(&mut ctx, u64::MAX, 6),
        Err(ErrorCode::MathOverflow)
    );
    assert!(ctx == before);
    assert_eq!(handle_deposit_obligation_collateral(&mut ctx, 0, 6), Err(ErrorCode::InvalidAmount));
}

#[test]
fn collateral_is_not_deposited_with_the_wrong_accounts() {
    let check = |change: fn(&mut DepositObligationCollateral), expected: ErrorCode| {
        let mut accounts = deposit_collateral_accounts();
        change(&mut accounts);
        let mut ctx = context(accounts);
        let before = ctx.clone();
        assert_eq!(handle_deposit_obligation_collateral(&mut ctx, 5, 5), Err(expected));
        assert!(ctx == before);
    };
    check(|a| a.token_program = address(99), ErrorCode::InvalidTokenProgram);
    check(|a| a.lending_market.key = address(99), ErrorCode::InvalidLendingMarketAccount);
    check(|a| a.collateral_user_account = address(COLLATERAL_SUPPLY), ErrorCode::InvalidSourceOfCollateral);
    check(|a| a.collateral_reserve_account = address(99), ErrorCode::InvalidDestinationOfCollateral);
    check(|a| a.obligation.data.lending_market = address(99), ErrorCode::InvalidLendingMarketAccount);
    check(|a| a.signer = address(OWNER), ErrorCode::ObligationNotOwnedBySigner);
    check(
        |a| {
            for i in 0..10u8 {
                a.obligation.data.borrows.push(ObligationLiquidity::new(address(100 + i), Decimal::one()));
            }
        },
        ErrorCode::ObligationReserveLimit,
    );
}

fn borrowing_obligation() -> Obligation {
    let mut o = users_obligation();
    o.deposits.push(ObligationCollateral {
        deposit_reserve: address(RESERVE),
        deposited_amount: 100_000_000,
        market_value: Decimal::zero(),
        attributed_borrow_value: Decimal::zero(),
    });
    o.borrows.push(ObligationLiquidity {
        borrow_reserve: address(50),
        cumulative_borrow_rate_wads: Decimal::one(),
        borrowed_amount_wads: Decimal::from(50_000_000u64),
        market_value: Decimal::zero(),
    });
    o.last_update = LastUpdate { slot: 1, stale: true };
    o
}

fn borrowed_reserve(key: u8, weight_bps: u64) -> Account<Reserve> {
    let mut r = fresh_reserve(key, 2, 1_000_000_000, 1_000_000_000, 5);
    r.data.liquidity.smoothed_market_price = Decimal::from(3u64);
    r.data.liquidity.cumulative_borrow_rate_wads = Decimal::from_scaled_val(1_100_000_000_000_000_000);
    r.data.config.added_borrow_weight_bps = weight_bps;
    r
}

fn refresh_context(o: Obligation, reserves: Vec<Account<Reserve>>) -> Context<RefreshObligation> {
    Context {
        program_id: address(PROGRAM),
        accounts: RefreshObligation { obligation: Account { key: address(OBLIGATION), data: o } },
        remaining_accounts: reserves,
    }
}

#[test]
fn refresh_values_the_positions_of_an_obligation() {
    let reserves =
        vec![fresh_reserve(RESERVE, 10, 1_000_000_000, 1_000_000_000, 5), borrowed_reserve(50, 5_000)];
    let mut ctx = refresh_context(borrowing_obligation(), reserves);
    assert_eq!(handle_refresh_obligation(&mut ctx, 5), Ok(()));
    let o = &ctx.accounts.obligation.data;
    assert_eq!(o.deposited_value, Decimal::from(1_000u64));
    assert_eq!(o.allowed_borrow_value, Decimal::from(500u64));
    assert_eq!(o.unhealthy_borrow_value, Decimal::from(550u64));
    assert_eq!(o.super_unhealthy_borrow_value, Decimal::from(650u64));
    assert_eq!(o.unweighted_borrowed_value, Decimal::from(110u64));
    assert_eq!(o.borrowed_value, Decimal::from(165u64));
    assert_eq!(o.borrowed_value_upper_bound, Decimal::from_scaled_val(247_500_000_000_000_000_000));
    assert!(!o.borrowing_isolated_asset);
    assert!(o.closeable);
    assert_eq!(o.last_update.slot, 5);
    assert!(!o.last_update.stale);
    assert_eq!(o.deposits[0].market_value, Decimal::from(1_000u64));
    assert_eq!(o.deposits[0].attributed_borrow_value, Decimal::from(110u64));
    assert_eq!(o.borrows[0].borrowed_amount_wads, Decimal::from(55_000_000u64));
    assert_eq!(o.borrows[0].market_value, Decimal::from(110u64));
    assert_eq!(
        o.borrows[0].cumulative_borrow_rate_wads,
        Decimal::from_scaled_val(1_100_000_000_000_000_000)
    );
    assert_eq!(ctx.remaining_accounts[0].data.attributed_borrow_value, Decimal::from(110u64));
    assert_eq!(ctx.remaining_accounts[1].data.attributed_borrow_value, Decimal::zero());
    assert_eq!(o.owner, address(USER));
    // a second refresh attributes the same debt once
    assert_eq!(handle_refresh_obligation(&mut ctx, 5), Ok(()));
    assert_eq!(ctx.remaining_accounts[0].data.attributed_borrow_value, Decimal::from(110u64));
    assert_eq!(ctx.accounts.obligation.data.borrowed_value, Decimal::from(165u64));
}

#[test]
fn refresh_holds_the_limits_to_the_greatest_values() {
    let mut o = borrowing_obligation();
    o.borrows.clear();
    o.deposits[0].deposited_amount = 20_000_000_000_000;
    let reserves = vec![fresh_reserve(RESERVE, 10, 1_000_000_000, 1_000_000_000, 5)];
    let mut ctx = refresh_context(o, reserves);
    assert_eq!(handle_refresh_obligation(&mut ctx, 5), Ok(()));
    let o = &ctx.accounts.obligation.data;
    assert_eq!(o.deposited_value, Decimal::from(200_000_000u64));
    assert_eq!(o.allowed_borrow_value, Decimal::from(65_000_000u64));
    assert_eq!(o.unhealthy_borrow_value, Decimal::from(70_000_000u64));
    assert_eq!(o.super_unhealthy_borrow_value, Decimal::from(70_000_000u64));
}

#[test]
fn refresh_moves_the_heaviest_borrow_to_the_front_and_drops_empty_positions() {
    let mut o = borrowing_obligation();
    o.deposits.push(ObligationCollateral::new(address(60)));
    o.borrows.push(ObligationLiquidity::new(address(53), Decimal::one()));
    for k in [51u8, 52] {
        o.borrows.push(ObligationLiquidity {
            borrow_reserve: address(k),
            cumulative_borrow_rate_wads: Decimal::from_scaled_val(1_100_000_000_000_000_000),
            borrowed_amount_wads: Decimal::from(1_000_000u64),
            market_value: Decimal::zero(),
        });
    }
    let mut isolated = borrowed_reserve(52, 7_000);
    isolated.data.config.reserve_type = ReserveType::Isolated;
    let reserves = vec![
        fresh_reserve(RESERVE, 10, 1_000_000_000, 1_000_000_000, 5),
        fresh_reserve(60, 10, 1_000_000_000, 1_000_000_000, 5),
        borrowed_reserve(50, 5_000),
        borrowed_reserve(53, 9_000),
        borrowed_reserve(51, 7_000),
        isolated,
    ];
    let mut ctx = refresh_context(o, reserves);
    assert_eq!(handle_refresh_obligation(&mut ctx, 5), Ok(()));
    let o = &ctx.accounts.obligation.data;
    assert_eq!(o.deposits.len(), 1);
    // of the two heaviest borrows the one of the greater address comes first;
    // the empty borrow, though heavier, does not count and is dropped
    let order: Vec<Pubkey> = o.borrows.iter().map(|b| b.borrow_reserve).collect();
    assert_eq!(order, vec![address(52), address(51), address(50)]);
    assert!(o.borrowing_isolated_asset);
    assert_eq!(o.unweighted_borrowed_value, Decimal::from(114u64));
}

#[test]
fn refresh_that_fails_changes_nothing() {
    let attempt = |o: Obligation, reserves: Vec<Account<Reserve>>, slot: u64| {
        let mut ctx = refresh_context(o, reserves);
        let before = ctx.clone();
        let r = handle_refresh_obligation(&mut ctx, slot);
        assert!(ctx == before);
        r
    };
    let deposit_reserve = || fresh_reserve(RESERVE, 10, 1_000_000_000, 1_000_000_000, 5);
    assert_eq!(
        attempt(borrowing_obligation(), vec![deposit_reserve()], 5),
        Err(ErrorCode::InvalidAccountInput)
    );
    assert_eq!(
        attempt(borrowing_obligation(), vec![borrowed_reserve(50, 0), deposit_reserve()], 5),
        Err(ErrorCode::InvalidAccountInput)
    );
    assert_eq!(
        attempt(borrowing_obligation(), vec![deposit_reserve(), borrowed_reserve(51, 0)], 5),
        Err(ErrorCode::InvalidAccountInput)
    );
    assert_eq!(
        attempt(borrowing_obligation(), vec![deposit_reserve(), borrowed_reserve(50, 0)], 6),
        Err(ErrorCode::ReserveStale)
    );
    assert_eq!(
        attempt(borrowing_obligation(), vec![deposit_reserve(), borrowed_reserve(50, 0)], 4),
        Err(ErrorCode::MathOverflow)
    );
    let mut stale = borrowed_reserve(50, 0);
    stale.data.last_update.stale = true;
    assert_eq!(
        attempt(borrowing_obligation(), vec![deposit_reserve(), stale], 5),
        Err(ErrorCode::ReserveStale)
    );
    let mut fallen = borrowed_reserve(50, 0);
    fallen.data.liquidity.cumulative_borrow_rate_wads = Decimal::from_percent(99);
    assert_eq!(
        attempt(borrowing_obligation(), vec![deposit_reserve(), fallen], 5),
        Err(ErrorCode::NegativeInterestRate)
    );
}

#[test]
fn refresh_reports_a_reserve_above_its_closing_limit() {
    let mut limited = fresh_reserve(RESERVE, 10, 1_000_000_000, 1_000_000_000, 5);
    limited.data.config.attributed_borrow_limit_open = 100;
    limited.data.config.attributed_borrow_limit_close = 109;
    let mut ctx = refresh_context(borrowing_obligation(), vec![limited, borrowed_reserve(50, 0)]);
    assert_eq!(handle_refresh_obligation(&mut ctx, 5), Ok(()));
    assert!(!ctx.accounts.obligation.data.closeable);
}

fn withdraw_context(o: Obligation) -> Context<WithdrawObligationCollateral> {
    let withdraw_reserve = fresh_reserve(RESERVE, 10, 1_000_000_000, 1_000_000_000, 5);
    Context {
        program_id: address(PROGRAM),
        accounts: WithdrawObligationCollateral {
            collateral_user_account: address(USER_COLLATERAL),
            collateral_reserve_account: address(COLLATERAL_SUPPLY),
            withdraw_reserve,
            obligation: Account { key: address(OBLIGATION), data: o },
            lending_market: market_account(),
            signer: address(USER),
            token_program: address(TOKEN_PROGRAM),
        },
        remaining_accounts: vec![withdraw_reserve],
    }
}

fn refreshed_obligation() -> Obligation {
    let reserves =
        vec![fresh_reserve(RESERVE, 10, 1_000_000_000, 1_000_000_000, 5), borrowed_reserve(50, 5_000)];
    let mut ctx = refresh_context(borrowing_obligation(), reserves);
    handle_refresh_obligation(&mut ctx, 5).unwrap();
    ctx.accounts.obligation.data
}

#[test]
fn withdrawal_is_held_to_what_the_obligation_can_spare() {
    // 500 allowed, 247.5 borrowed: 252.5 of value, over a half, at a price of 10
    let mut ctx = withdraw_context(refreshed_obligation());
    ctx.remaining_accounts[0].data.attributed_borrow_value = Decimal::from(110u64);
    assert_eq!(handle_withdraw_obligation_collateral(&mut ctx, u64::MAX, 5), Ok(50_500_000));
    let o = &ctx.accounts.obligation.data;
    assert_eq!(o.deposits[0].deposited_amount, 49_500_000);
    assert_eq!(o.deposited_value, Decimal::from(495u64));
    assert_eq!(o.deposits[0].market_value, Decimal::from(495u64));
    assert_eq!(o.deposits[0].attributed_borrow_value, Decimal::from(110u64));
    assert_eq!(ctx.remaining_accounts[0].data.attributed_borrow_value, Decimal::from(110u64));
    assert!(o.last_update.stale);
    assert_eq!(o.borrows.len(), 1);
    // stale now
    assert_eq!(
        handle_withdraw_obligation_collateral(&mut ctx, 1, 5),
        Err(ErrorCode::ObligationStale)
    );
}

#[test]
fn withdrawal_of_less_than_can_be_spared() {
    let mut ctx = withdraw_context(refreshed_obligation());
    ctx.remaining_accounts[0].data.attributed_borrow_value = Decimal::from(110u64);
    assert_eq!(handle_withdraw_obligation_collateral(&mut ctx, 1_000_000, 5), Ok(1_000_000));
    assert_eq!(ctx.accounts.obligation.data.deposits[0].deposited_amount, 99_000_000);
    assert_eq!(ctx.accounts.obligation.data.deposited_value, Decimal::from(990u64));
}

#[test]
fn withdrawal_of_everything_removes_the_deposit() {
    let mut o = refreshed_obligation();
    o.borrows.clear();
    let mut ctx = withdraw_context(o);
    ctx.remaining_accounts[0].data.attributed_borrow_value = Decimal::from(110u64);
    assert_eq!(handle_withdraw_obligation_collateral(&mut ctx, u64::MAX, 5), Ok(100_000_000));
    assert!(ctx.accounts.obligation.data.deposits.is_empty());
    assert_eq!(ctx.accounts.obligation.data.deposited_value, Decimal::zero());
    assert_eq!(ctx.remaining_accounts[0].data.attributed_borrow_value, Decimal::zero());
}

#[test]
fn withdrawal_that_fails_changes_nothing() {
    let attempt = |change: fn(&mut Context<WithdrawObligationCollateral>), amount: u64| {
        let mut ctx = withdraw_context(refreshed_obligation());
        ctx.remaining_accounts[0].data.attributed_borrow_value = Decimal::from(110u64);
        change(&mut ctx);
        let before = ctx.clone();
        let r = handle_withdraw_obligation_collateral(&mut ctx, amount, 5);
        assert!(ctx == before);
        r
    };
    assert_eq!(attempt(|_| {}, 0), Err(ErrorCode::InvalidAmount));
    assert_eq!(
        attempt(|c| c.accounts.token_program = address(99), 1),
        Err(ErrorCode::InvalidTokenProgram)
    );
    assert_eq!(
        attempt(|c| c.accounts.lending_market.key = address(99), 1),
        Err(ErrorCode::InvalidLendingMarketAccount)
    );
    assert_eq!(
        attempt(|c| c.accounts.collateral_user_account = address(COLLATERAL_SUPPLY), 1),
        Err(ErrorCode::InvalidDestinationOfCollateral)
    );
    assert_eq!(
        attempt(|c| c.accounts.collateral_reserve_account = address(99), 1),
        Err(ErrorCode::InvalidSourceOfCollateral)
    );
    assert_eq!(
        attempt(|c| c.accounts.signer = address(OWNER), 1),
        Err(ErrorCode::ObligationNotOwnedBySigner)
    );
    assert_eq!(
        attempt(|c| c.accounts.withdraw_reserve.data.last_update.stale = true, 1),
        Err(ErrorCode::ReserveStale)
    );
    assert_eq!(
        attempt(|c| c.accounts.withdraw_reserve.key = address(99), 1),
        Err(ErrorCode::InvalidObligationCollateral)
    );
    assert_eq!(
        attempt(|c| c.accounts.obligation.data.deposits.clear(), 1),
        Err(ErrorCode::ObligationDepositsEmpty)
    );
    assert_eq!(
        attempt(|c| c.accounts.obligation.data.deposits[0].deposited_amount = 0, 1),
        Err(ErrorCode::ObligationCollateralEmpty)
    );
    assert_eq!(
        attempt(|c| c.accounts.obligation.data.allowed_borrow_value = Decimal::from(247u64), 1),
        Err(ErrorCode::WithdrawTooLarge)
    );
    assert_eq!(attempt(|c| c.remaining_accounts.clear(), 1), Err(ErrorCode::InvalidObligationCollateral));
    assert_eq!(
        attempt(|c| c.remaining_accounts[0].data.config.attributed_borrow_limit_open = 109, 1),
        Err(ErrorCode::BorrowAttributionLimitExceeded)
    );
    assert_eq!(
        attempt(
            |c| {
                c.remaining_accounts[0].data.config.attributed_borrow_limit_open = 109;
                c.remaining_accounts[0].data.config.attributed_borrow_limit_close = 109;
            },
            1
        ),
        Err(ErrorCode::BorrowAttributionLimitExceeded)
    );
}

#[test]
fn fees_must_keep_the_bounds_with_the_risk_parameters_that_stay() {
    let mut accounts = update_accounts(FEE_AUTHORITY);
    accounts.reserve.data.config.liquidation_bonus = 22;
    accounts.reserve.data.config.max_liquidation_bonus = 22;
    let mut ctx = context(accounts);
    let before = ctx.clone();
    let limits = RateLimiterConfig { window_duration: 10, max_outflow: 5 };
    let mut fees = config();
    fees.protocol_liquidation_fee = 40;
    assert_eq!(
        handle_update_reserve_config(&mut ctx, fees, limits, false, 7),
        Err(ErrorCode::InvalidConfig)
    );
    assert!(ctx == before);
    assert_eq!(ctx.accounts.reserve.data.config, before.accounts.reserve.data.config);
    fees.protocol_liquidation_fee = 30;
    assert_eq!(handle_update_reserve_config(&mut ctx, fees, limits, false, 7), Ok(()));
    assert_eq!(ctx.accounts.reserve.data.config.protocol_liquidation_fee, 30);
    assert_eq!(ctx.accounts.reserve.data.config.max_liquidation_bonus, 22);
}
