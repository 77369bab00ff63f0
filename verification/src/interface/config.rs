use crate::domain::gas::Gas;
use crate::domain::yocto_near::YoctoNear;
use vstd::prelude::*;

verus! {

/// Settings to change: each field that is set replaces the setting of that name.
#[derive(Clone, Copy, Debug, PartialEq, Eq, Structural)]
pub struct Config {
    pub storage_cost_per_byte: Option<YoctoNear>,
    pub gas_config: Option<GasConfig>,
}

/// Gas settings to change.
#[derive(Clone, Copy, Debug, PartialEq, Eq, Structural)]
pub struct GasConfig {
    pub staking_pool: Option<StakingPoolGasConfig>,
    pub callbacks: Option<CallBacksGasConfig>,
}

/// Gas settings to change for the calls to the staking venue.
#[derive(Clone, Copy, Debug, PartialEq, Eq, Structural)]
pub struct StakingPoolGasConfig {
    pub deposit_and_stake: Option<Gas>,
    pub deposit: Option<Gas>,
    pub stake: Option<Gas>,
    pub unstake: Option<Gas>,
    pub withdraw: Option<Gas>,
    pub get_account: Option<Gas>,
}

/// Gas settings to change for the contract's own callbacks.
#[derive(Clone, Copy, Debug, PartialEq, Eq, Structural)]
pub struct CallBacksGasConfig {
    pub on_run_stake_batch: Option<Gas>,
    pub on_deposit_and_stake: Option<Gas>,
    pub on_unstake: Option<Gas>,
    pub unlock: Option<Gas>,
    pub on_run_redeem_stake_batch: Option<Gas>,
    pub on_redeeming_stake_pending_withdrawal: Option<Gas>,
    pub on_redeeming_stake_post_withdrawal: Option<Gas>,
}

} // verus!
