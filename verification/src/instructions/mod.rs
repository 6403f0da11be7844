//! The operations of the program, one for each state transition.

pub mod deposit_obligation_collateral;
pub mod deposit_reserve_liquidity;
pub mod init_lending_market;
pub mod init_mock_pyth_feed;
pub mod init_obligation;
pub mod init_reserve;
pub mod redeem_reserve_collateral;
pub mod refresh_obligation;
pub mod refresh_reserve;
pub mod set_lending_market_owner_and_config;
pub mod update_reserve_config;
pub mod withdraw_obligation_collateral;
