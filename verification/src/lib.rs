//! Liquid staking protocol core: share price arithmetic, fees, fixed-size record lists,
//! the stake and validator registries, the liquidity pool and the decision logic of each
//! instruction, all over plain values.
pub mod admin;
pub mod calc;
pub mod checks;
pub mod codec;
pub mod delayed_unstake;
pub mod error;
pub mod fee;
pub mod liq_pool;
pub mod liquidity;
pub mod list;
pub mod pda;
pub mod stake_system;
pub mod state;
pub mod user;
pub mod validator_system;
pub mod pubkey;
pub mod crank;
pub mod management;
pub mod update;
pub mod initialize;
pub mod schedule;
