//! The values that callers hand to the engine and get back from it.

pub mod config;
pub mod fungible_token;

pub use config::{CallBacksGasConfig, Config, GasConfig, StakingPoolGasConfig};
pub use fungible_token::{Memo, TokenAmount, TransferCallData};
