//! The values that the engine computes with.

pub mod account;
pub mod balance;
pub mod batch;
pub mod batch_id;
pub mod block_time_height;
pub mod gas;
pub mod lock;
pub mod receipt;
pub mod stake_token_value;
pub mod staking_pool;
pub mod yocto_near;
pub mod yocto_stake;

pub use account::{Account, AccountKey, RegisteredAccount};
pub use balance::{NearBalance, StakeBalance};
pub use batch::{RedeemStakeBatch, StakeBatch};
pub use batch_id::BatchId;
pub use block_time_height::{BlockHeight, BlockTimeHeight, BlockTimestamp, EpochHeight};
pub use gas::{Gas, TGAS};
pub use lock::{RedeemLock, StakeLock};
pub use receipt::{
    RedeemStakeBatchReceipt, StakeBatchReceipt, UNSTAKED_NEAR_FUNDS_NUM_EPOCHS_TO_UNLOCK,
};
pub use stake_token_value::StakeTokenValue;
pub use staking_pool::StakingPoolAccount;
pub use yocto_near::YoctoNear;
pub use yocto_stake::YoctoStake;
