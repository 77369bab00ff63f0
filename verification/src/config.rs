use crate::domain::gas::{Gas, TGAS};
use crate::domain::yocto_near::YoctoNear;
use crate::errors::{Error, GasField};
use crate::interface;
use crate::math::YOCTO;
use vstd::prelude::*;

verus! {

/// The balance that the contract keeps above what its storage locks up, so
/// that it can always pay for its own operation.
pub const CONTRACT_MIN_OPERATIONAL_BALANCE: u128 = YOCTO;

/// Gas for basic compute.
pub const GAS_BASE_COMPUTE: u64 = 5_000_000_000_000;

/// Gas for a function call promise.
pub const GAS_FOR_PROMISE: u64 = 5_000_000_000_000;

/// Gas for chaining one call on another.
pub const GAS_FOR_DATA_DEPENDENCY: u64 = 10_000_000_000_000;

/// Whether `gas` lies between `min` and `max` teragas, both included.
pub open spec fn gas_in_range(gas: Gas, min: u8, max: u8) -> bool {
    TGAS * min <= gas.0 <= TGAS * max
}

/// Accepts `gas` where it lies between `min` and `max` teragas, both
/// included, and otherwise names `field` as out of range.
pub fn assert_gas_range(gas: Gas, min: u8, max: u8, field: GasField) -> (res: Result<(), Error>)
    ensures
        res == (if gas_in_range(gas, min, max) {
            Ok::<(), Error>(())
        } else {
            Err::<(), Error>(Error::GasOutOfRange(field))
        }),
{
    if gas.0 >= TGAS * (min as u64) && gas.0 <= TGAS * (max as u64) {
        Ok(())
    } else {
        Err(Error::GasOutOfRange(field))
    }
}

/// `gas` where it is set, else `current`.
pub open spec fn merged(current: Gas, gas: Option<Gas>) -> Gas {
    match gas {
        Some(gas) => gas,
        None => current,
    }
}

/// Whether `gas` is set to a value outside `min` to `max` teragas.
pub open spec fn set_out_of_range(gas: Option<Gas>, min: u8, max: u8) -> bool {
    gas is Some && !gas_in_range(gas->0, min, max)
}

/// One step of a merge: the setting after it, or the refusal.
fn merge_gas(current: Gas, gas: Option<Gas>, validate: bool, min: u8, max: u8, field: GasField) -> (res:
    Result<Gas, Error>)
    ensures
        res == (if validate && set_out_of_range(gas, min, max) {
            Err::<Gas, Error>(Error::GasOutOfRange(field))
        } else {
            Ok::<Gas, Error>(merged(current, gas))
        }),
{
    match gas {
        None => Ok(current),
        Some(gas) => {
            if validate {
                match assert_gas_range(gas, min, max, field) {
                    Ok(()) => Ok(gas),
                    Err(e) => Err(e),
                }
            } else {
                Ok(gas)
            }
        },
    }
}

/// The gas that each call to the staking venue is given.
#[derive(Clone, Copy, Debug, PartialEq, Eq, Structural)]
pub struct StakingPoolGasConfig {
    pub deposit_and_stake: Gas,
    pub deposit: Gas,
    pub stake: Gas,
    pub unstake: Gas,
    pub withdraw: Gas,
    pub get_account: Gas,
}

impl Default for StakingPoolGasConfig {
    fn default() -> (config: Self)
        ensures
            config == Self::default_spec(),
    {
        StakingPoolGasConfig {
            get_account: Gas::tgas(5),
            deposit_and_stake: Gas::tgas(45),
            deposit: Gas::tgas(45),
            stake: Gas::tgas(45),
            unstake: Gas::tgas(45),
            withdraw: Gas::tgas(45),
        }
    }
}

impl StakingPoolGasConfig {
    /// The settings that a new contract starts with.
    pub open spec fn default_spec() -> Self {
        StakingPoolGasConfig {
            get_account: Gas((5 * TGAS) as u64),
            deposit_and_stake: Gas((45 * TGAS) as u64),
            deposit: Gas((45 * TGAS) as u64),
            stake: Gas((45 * TGAS) as u64),
            unstake: Gas((45 * TGAS) as u64),
            withdraw: Gas((45 * TGAS) as u64),
        }
    }

    pub fn deposit_and_stake(&self) -> (gas: Gas)
        ensures
            gas == self.deposit_and_stake,
    {
        self.deposit_and_stake
    }

    pub fn deposit(&self) -> (gas: Gas)
        ensures
            gas == self.deposit,
    {
        self.deposit
    }

    pub fn stake(&self) -> (gas: Gas)
        ensures
            gas == self.stake,
    {
        self.stake
    }

    pub fn unstake(&self) -> (gas: Gas)
        ensures
            gas == self.unstake,
    {
        self.unstake
    }

    pub fn withdraw(&self) -> (gas: Gas)
        ensures
            gas == self.withdraw,
    {
        self.withdraw
    }

    pub fn get_account(&self) -> (gas: Gas)
        ensures
            gas == self.get_account,
    {
        self.get_account
    }

    /// What [`StakingPoolGasConfig::merge`] makes of the settings: every
    /// field that `config` sets replaces the setting of that name. With
    /// `validate`, the first field, in the order below, that is set outside
    /// its range refuses the whole merge.
    pub open spec fn merge_spec(self, config: interface::StakingPoolGasConfig, validate: bool) -> Result<
        Self,
        Error,
    > {
        if validate && set_out_of_range(config.get_account, 5, 10) {
            Err(Error::GasOutOfRange(GasField::StakingPoolGetAccount))
        } else if validate && set_out_of_range(config.deposit_and_stake, 40, 75) {
            Err(Error::GasOutOfRange(GasField::StakingPoolDepositAndStake))
        } else if validate && set_out_of_range(config.deposit, 5, 20) {
            Err(Error::GasOutOfRange(GasField::StakingPoolDeposit))
        } else if validate && set_out_of_range(config.stake, 40, 75) {
            Err(Error::GasOutOfRange(GasField::StakingPoolStake))
        } else if validate && set_out_of_range(config.unstake, 40, 75) {
            Err(Error::GasOutOfRange(GasField::StakingPoolUnstake))
        } else if validate && set_out_of_range(config.withdraw, 40, 75) {
            Err(Error::GasOutOfRange(GasField::StakingPoolWithdraw))
        } else {
            Ok(
                StakingPoolGasConfig {
                    get_account: merged(self.get_account, config.get_account),
                    deposit_and_stake: merged(self.deposit_and_stake, config.deposit_and_stake),
                    deposit: merged(self.deposit, config.deposit),
                    stake: merged(self.stake, config.stake),
                    unstake: merged(self.unstake, config.unstake),
                    withdraw: merged(self.withdraw, config.withdraw),
                },
            )
        }
    }

    /// Takes over the settings that `config` sets. With `validate`, a
    /// setting outside its range refuses the merge and nothing is changed.
    pub fn merge(&mut self, config: interface::StakingPoolGasConfig, validate: bool) -> (res: Result<
        (),
        Error,
    >)
        ensures
            match old(self).merge_spec(config, validate) {
                Ok(merged) => res.is_ok() && *final(self) == merged,
                Err(e) => res == Err::<(), Error>(e) && *final(self) == *old(self),
            },
    {
        let get_account = merge_gas(
            self.get_account,
            config.get_account,
            validate,
            5,
            10,
            GasField::StakingPoolGetAccount,
        )?;
        let deposit_and_stake = merge_gas(
            self.deposit_and_stake,
            config.deposit_and_stake,
            validate,
            40,
            75,
            GasField::StakingPoolDepositAndStake,
        )?;
        let deposit = merge_gas(
            self.deposit,
            config.deposit,
            validate,
            5,
            20,
            GasField::StakingPoolDeposit,
        )?;
        let stake = merge_gas(self.stake, config.stake, validate, 40, 75, GasField::StakingPoolStake)?;
        let unstake = merge_gas(
            self.unstake,
            config.unstake,
            validate,
            40,
            75,
            GasField::StakingPoolUnstake,
        )?;
        let withdraw = merge_gas(
            self.withdraw,
            config.withdraw,
            validate,
            40,
            75,
            GasField::StakingPoolWithdraw,
        )?;
        *self = StakingPoolGasConfig {
            get_account,
            deposit_and_stake,
            deposit,
            stake,
            unstake,
            withdraw,
        };
        Ok(())
    }
}

/// The gas that each of the contract's own callbacks is given.
#[derive(Clone, Copy, Debug, PartialEq, Eq, Structural)]
pub struct CallBacksGasConfig {
    pub on_run_stake_batch: Gas,
    pub on_deposit_and_stake: Gas,
    pub on_unstake: Gas,
    pub unlock: Gas,
    pub on_run_redeem_stake_batch: Gas,
    pub on_redeeming_stake_pending_withdrawal: Gas,
    pub on_redeeming_stake_post_withdrawal: Gas,
}

impl Default for CallBacksGasConfig {
    fn default() -> (config: Self)
        ensures
            config == Self::default_spec(),
    {
        CallBacksGasConfig {
            on_run_stake_batch: Gas::tgas(135),
            on_deposit_and_stake: Gas::tgas(5),
            unlock: Gas::tgas(4),
            on_run_redeem_stake_batch: Gas::tgas(85),
            on_unstake: Gas::tgas(5),
            on_redeeming_stake_pending_withdrawal: Gas::tgas(85),
            on_redeeming_stake_post_withdrawal: Gas::tgas(5),
        }
    }
}

impl CallBacksGasConfig {
    /// The settings that a new contract starts with.
    pub open spec fn default_spec() -> Self {
        CallBacksGasConfig {
            on_run_stake_batch: Gas((135 * TGAS) as u64),
            on_deposit_and_stake: Gas((5 * TGAS) as u64),
            unlock: Gas((4 * TGAS) as u64),
            on_run_redeem_stake_batch: Gas((85 * TGAS) as u64),
            on_unstake: Gas((5 * TGAS) as u64),
            on_redeeming_stake_pending_withdrawal: Gas((85 * TGAS) as u64),
            on_redeeming_stake_post_withdrawal: Gas((5 * TGAS) as u64),
        }
    }

    /// What [`CallBacksGasConfig::merge`] makes of the settings: every field
    /// that `config` sets replaces the setting of that name. With
    /// `validate`, the first field, in the order below, that is set outside
    /// its range refuses the whole merge.
    pub open spec fn merge_spec(self, config: interface::CallBacksGasConfig, validate: bool) -> Result<
        Self,
        Error,
    > {
        if validate && set_out_of_range(config.on_run_stake_batch, 70, 150) {
            Err(Error::GasOutOfRange(GasField::CallbackOnRunStakeBatch))
        } else if validate && set_out_of_range(config.on_deposit_and_stake, 5, 10) {
            Err(Error::GasOutOfRange(GasField::CallbackOnDepositAndStake))
        } else if validate && set_out_of_range(config.on_unstake, 5, 10) {
            Err(Error::GasOutOfRange(GasField::CallbackOnUnstake))
        } else if validate && set_out_of_range(config.unlock, 5, 10) {
            Err(Error::GasOutOfRange(GasField::CallbackUnlock))
        } else if validate && set_out_of_range(config.on_run_redeem_stake_batch, 70, 100) {
            Err(Error::GasOutOfRange(GasField::CallbackOnRunRedeemStakeBatch))
        } else if validate && set_out_of_range(
            config.on_redeeming_stake_pending_withdrawal,
            70,
            100,
        ) {
            Err(Error::GasOutOfRange(GasField::CallbackOnRedeemingStakePendingWithdrawal))
        } else if validate && set_out_of_range(config.on_redeeming_stake_post_withdrawal, 5, 10) {
            Err(Error::GasOutOfRange(GasField::CallbackOnRedeemingStakePostWithdrawal))
        } else {
            Ok(
                CallBacksGasConfig {
                    on_run_stake_batch: merged(self.on_run_stake_batch, config.on_run_stake_batch),
                    on_deposit_and_stake: merged(
                        self.on_deposit_and_stake,
                        config.on_deposit_and_stake,
                    ),
                    on_unstake: merged(self.on_unstake, config.on_unstake),
                    unlock: merged(self.unlock, config.unlock),
                    on_run_redeem_stake_batch: merged(
                        self.on_run_redeem_stake_batch,
                        config.on_run_redeem_stake_batch,
                    ),
                    on_redeeming_stake_pending_withdrawal: merged(
                        self.on_redeeming_stake_pending_withdrawal,
                        config.on_redeeming_stake_pending_withdrawal,
                    ),
                    on_redeeming_stake_post_withdrawal: merged(
                        self.on_redeeming_stake_post_withdrawal,
                        config.on_redeeming_stake_post_withdrawal,
                    ),
                },
            )
        }
    }

    /// Takes over the settings that `config` sets. With `validate`, a
    /// setting outside its range refuses the merge and nothing is changed.
    pub fn merge(&mut self, config: interface::CallBacksGasConfig, validate: bool) -> (res: Result<
        (),
        Error,
    >)
        ensures
            match old(self).merge_spec(config, validate) {
                Ok(merged) => res.is_ok() && *final(self) == merged,
                Err(e) => res == Err::<(), Error>(e) && *final(self) == *old(self),
            },
    {
        let on_run_stake_batch = merge_gas(
            self.on_run_stake_batch,
            config.on_run_stake_batch,
            validate,
            70,
            150,
            GasField::CallbackOnRunStakeBatch,
        )?;
        let on_deposit_and_stake = merge_gas(
            self.on_deposit_and_stake,
            config.on_deposit_and_stake,
            validate,
            5,
            10,
            GasField::CallbackOnDepositAndStake,
        )?;
        let on_unstake = merge_gas(
            self.on_unstake,
            config.on_unstake,
            validate,
            5,
            10,
            GasField::CallbackOnUnstake,
        )?;
        let unlock = merge_gas(self.unlock, config.unlock, validate, 5, 10, GasField::CallbackUnlock)?;
        let on_run_redeem_stake_batch = merge_gas(
            self.on_run_redeem_stake_batch,
            config.on_run_redeem_stake_batch,
            validate,
            70,
            100,
            GasField::CallbackOnRunRedeemStakeBatch,
        )?;
        let on_redeeming_stake_pending_withdrawal = merge_gas(
            self.on_redeeming_stake_pending_withdrawal,
            config.on_redeeming_stake_pending_withdrawal,
            validate,
            70,
            100,
            GasField::CallbackOnRedeemingStakePendingWithdrawal,
        )?;
        let on_redeeming_stake_post_withdrawal = merge_gas(
            self.on_redeeming_stake_post_withdrawal,
            config.on_redeeming_stake_post_withdrawal,
            validate,
            5,
            10,
            GasField::CallbackOnRedeemingStakePostWithdrawal,
        )?;
        *self = CallBacksGasConfig {
            on_run_stake_batch,
            on_deposit_and_stake,
            on_unstake,
            unlock,
            on_run_redeem_stake_batch,
            on_redeeming_stake_pending_withdrawal,
            on_redeeming_stake_post_withdrawal,
        };
        Ok(())
    }

    pub fn on_deposit_and_stake(&self) -> (gas: Gas)
        ensures
            gas == self.on_deposit_and_stake,
    {
        self.on_deposit_and_stake
    }

    pub fn unlock(&self) -> (gas: Gas)
        ensures
            gas == self.unlock,
    {
        self.unlock
    }

    pub fn on_run_stake_batch(&self) -> (gas: Gas)
        ensures
            gas == self.on_run_stake_batch,
    {
        self.on_run_stake_batch
    }

    pub fn on_redeeming_stake_pending_withdrawal(&self) -> (gas: Gas)
        ensures
            gas == self.on_redeeming_stake_pending_withdrawal,
    {
        self.on_redeeming_stake_pending_withdrawal
    }

    pub fn on_redeeming_stake_post_withdrawal(&self) -> (gas: Gas)
        ensures
            gas == self.on_redeeming_stake_post_withdrawal,
    {
        self.on_redeeming_stake_post_withdrawal
    }

    pub fn on_run_redeem_stake_batch(&self) -> (gas: Gas)
        ensures
            gas == self.on_run_redeem_stake_batch,
    {
        self.on_run_redeem_stake_batch
    }

    pub fn on_unstake(&self) -> (gas: Gas)
        ensures
            gas == self.on_unstake,
    {
        self.on_unstake
    }
}

/// The gas settings of the contract.
#[derive(Clone, Copy, Debug, PartialEq, Eq, Structural)]
pub struct GasConfig {
    pub staking_pool: StakingPoolGasConfig,
    pub callbacks: CallBacksGasConfig,
}

impl Default for GasConfig {
    fn default() -> (config: Self)
        ensures
            config == Self::default_spec(),
    {
        GasConfig {
            staking_pool: StakingPoolGasConfig::default(),
            callbacks: CallBacksGasConfig::default(),
        }
    }
}

/// Whether a callback that is given `callback` gas can pay for a call of
/// `call` gas, the callback of `then` gas that follows it, and five teragas
/// of its own work.
pub open spec fn covers(callback: Gas, call: Gas, then: Gas) -> bool {
    callback.0 >= call.0 + then.0 + 5 * TGAS
}

fn check_covers(callback: Gas, call: Gas, then: Gas, field: GasField) -> (res: Result<(), Error>)
    ensures
        res == (if covers(callback, call, then) {
            Ok::<(), Error>(())
        } else {
            Err::<(), Error>(Error::GasBudgetTooLow(field))
        }),
{
    let needed: u128 = call.0 as u128 + then.0 as u128 + 5 * (TGAS as u128);
    if callback.0 as u128 >= needed {
        Ok(())
    } else {
        Err(Error::GasBudgetTooLow(field))
    }
}

impl GasConfig {
    /// The settings that a new contract starts with.
    pub open spec fn default_spec() -> Self {
        GasConfig {
            staking_pool: StakingPoolGasConfig::default_spec(),
            callbacks: CallBacksGasConfig::default_spec(),
        }
    }

    pub fn staking_pool(&self) -> (config: StakingPoolGasConfig)
        ensures
            config == self.staking_pool,
    {
        self.staking_pool
    }

    pub fn callbacks(&self) -> (config: CallBacksGasConfig)
        ensures
            config == self.callbacks,
    {
        self.callbacks
    }

    /// Whether each callback that starts a call to the venue is given
    /// enough gas for that call and for the callback that follows it.
    pub open spec fn workflows_covered(self) -> Result<(), Error> {
        if !covers(
            self.callbacks.on_run_stake_batch,
            self.staking_pool.deposit_and_stake,
            self.callbacks.on_deposit_and_stake,
        ) {
            Err(Error::GasBudgetTooLow(GasField::CallbackOnRunStakeBatch))
        } else if !covers(
            self.callbacks.on_run_redeem_stake_batch,
            self.staking_pool.unstake,
            self.callbacks.on_unstake,
        ) {
            Err(Error::GasBudgetTooLow(GasField::CallbackOnRunRedeemStakeBatch))
        } else if !covers(
            self.callbacks.on_redeeming_stake_pending_withdrawal,
            self.staking_pool.withdraw,
            self.callbacks.on_redeeming_stake_post_withdrawal,
        ) {
            Err(Error::GasBudgetTooLow(GasField::CallbackOnRedeemingStakePendingWithdrawal))
        } else {
            Ok(())
        }
    }

    /// What [`GasConfig::merge`] makes of the settings. The callbacks are
    /// merged first, then the calls to the venue; with `validate`, the
    /// merged settings must also cover the three chains of calls.
    pub open spec fn merge_spec(self, config: interface::GasConfig, validate: bool) -> Result<
        Self,
        Error,
    > {
        let callbacks = match config.callbacks {
            Some(callbacks) => self.callbacks.merge_spec(callbacks, validate),
            None => Ok(self.callbacks),
        };
        let staking_pool = match config.staking_pool {
            Some(staking_pool) => self.staking_pool.merge_spec(staking_pool, validate),
            None => Ok(self.staking_pool),
        };
        if callbacks is Err {
            Err(callbacks->Err_0)
        } else if staking_pool is Err {
            Err(staking_pool->Err_0)
        } else {
            let merged = GasConfig { staking_pool: staking_pool->Ok_0, callbacks: callbacks->Ok_0 };
            if validate && merged.workflows_covered() is Err {
                Err(merged.workflows_covered()->Err_0)
            } else {
                Ok(merged)
            }
        }
    }

    /// Takes over the settings that `config` sets. With `validate`, the
    /// merge is refused, and nothing is changed, where a setting lies
    /// outside its range or a chain of calls is not covered.
    pub fn merge(&mut self, config: interface::GasConfig, validate: bool) -> (res: Result<(), Error>)
        ensures
            match old(self).merge_spec(config, validate) {
                Ok(merged) => res.is_ok() && *final(self) == merged,
                Err(e) => res == Err::<(), Error>(e) && *final(self) == *old(self),
            },
    {
        let mut callbacks = self.callbacks;
        if let Some(config) = config.callbacks {
            callbacks.merge(config, validate)?;
        }
        let mut staking_pool = self.staking_pool;
        if let Some(config) = config.staking_pool {
            staking_pool.merge(config, validate)?;
        }
        if validate {
            check_covers(
                callbacks.on_run_stake_batch,
                staking_pool.deposit_and_stake,
                callbacks.on_deposit_and_stake,
                GasField::CallbackOnRunStakeBatch,
            )?;
            check_covers(
                callbacks.on_run_redeem_stake_batch,
                staking_pool.unstake,
                callbacks.on_unstake,
                GasField::CallbackOnRunRedeemStakeBatch,
            )?;
            check_covers(
                callbacks.on_redeeming_stake_pending_withdrawal,
                staking_pool.withdraw,
                callbacks.on_redeeming_stake_post_withdrawal,
                GasField::CallbackOnRedeemingStakePendingWithdrawal,
            )?;
        }
        *self = GasConfig { staking_pool, callbacks };
        Ok(())
    }
}

/// The settings of the contract.
#[derive(Clone, Copy, Debug, PartialEq, Eq, Structural)]
pub struct Config {
    /// The price of one byte of storage.
    pub storage_cost_per_byte: YoctoNear,
    pub gas_config: GasConfig,
    /// The share of the contract's earnings that goes to its owner, in
    /// percent; the rest is staked for the accounts.
    pub contract_owner_earnings_percentage: u8,
}

impl Default for Config {
    fn default() -> (config: Self)
        ensures
            config == Self::default_spec(),
    {
        Config {
            storage_cost_per_byte: YoctoNear(100_000_000_000_000_000_000),
            gas_config: GasConfig::default(),
            contract_owner_earnings_percentage: 50,
        }
    }
}

impl Config {
    /// The settings that a new contract starts with: storage at ten
    /// kilobytes for one NEAR, and half of the earnings for the owner.
    pub open spec fn default_spec() -> Self {
        Config {
            storage_cost_per_byte: YoctoNear(100_000_000_000_000_000_000),
            gas_config: GasConfig::default_spec(),
            contract_owner_earnings_percentage: 50,
        }
    }

    pub fn storage_cost_per_byte(&self) -> (cost: YoctoNear)
        ensures
            cost == self.storage_cost_per_byte,
    {
        self.storage_cost_per_byte
    }

    pub fn gas_config(&self) -> (config: GasConfig)
        ensures
            config == self.gas_config,
    {
        self.gas_config
    }

    pub fn contract_owner_earnings_percentage(&self) -> (percentage: u8)
        ensures
            percentage == self.contract_owner_earnings_percentage,
    {
        self.contract_owner_earnings_percentage
    }

    /// What a merge makes of the settings. With `validate`, a storage price
    /// of zero is refused before the gas settings are looked at.
    pub open spec fn merge_spec(self, config: interface::Config, validate: bool) -> Result<
        Self,
        Error,
    > {
        if validate && config.storage_cost_per_byte == Some(YoctoNear(0)) {
            Err(Error::StorageCostPerByteZero)
        } else {
            let gas_config = match config.gas_config {
                Some(gas_config) => self.gas_config.merge_spec(gas_config, validate),
                None => Ok(self.gas_config),
            };
            match gas_config {
                Err(e) => Err(e),
                Ok(gas_config) => Ok(
                    Config {
                        storage_cost_per_byte: match config.storage_cost_per_byte {
                            Some(cost) => cost,
                            None => self.storage_cost_per_byte,
                        },
                        gas_config,
                        ..self
                    },
                ),
            }
        }
    }

    /// Takes over the settings that `config` sets, after checking them. A
    /// refused merge changes nothing.
    pub fn merge(&mut self, config: interface::Config) -> (res: Result<(), Error>)
        ensures
            match old(self).merge_spec(config, true) {
                Ok(merged) => res.is_ok() && *final(self) == merged,
                Err(e) => res == Err::<(), Error>(e) && *final(self) == *old(self),
            },
    {
        let mut storage_cost_per_byte = self.storage_cost_per_byte;
        if let Some(cost) = config.storage_cost_per_byte {
            if cost.0 == 0 {
                return Err(Error::StorageCostPerByteZero);
            }
            storage_cost_per_byte = cost;
        }
        let mut gas_config = self.gas_config;
        if let Some(config) = config.gas_config {
            gas_config.merge(config, true)?;
        }
        self.storage_cost_per_byte = storage_cost_per_byte;
        self.gas_config = gas_config;
        Ok(())
    }

    /// Takes over the settings that `config` sets without checking any of them.
    pub fn force_merge(&mut self, config: interface::Config)
        ensures
            old(self).merge_spec(config, false) == Ok::<Config, Error>(*final(self)),
    {
        if let Some(cost) = config.storage_cost_per_byte {
            self.storage_cost_per_byte = cost;
        }
        if let Some(config) = config.gas_config {
            let mut gas_config = self.gas_config;
            if gas_config.merge(config, false).is_ok() {
                self.gas_config = gas_config;
            }
        }
    }
}

} // verus!
