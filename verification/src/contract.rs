//! The contract's own state and the operations on it.

pub mod claims;
pub mod events;
pub mod fungible_token;
pub mod outcome;
pub mod receipts;
pub mod redeem_workflow;
pub mod redeeming;
pub mod stake_workflow;
pub mod staking;
pub mod state;
pub mod token_value;
pub mod view;

pub use receipts::ReceiptTable;
pub use state::{Contract, ContractState, ContractView};
