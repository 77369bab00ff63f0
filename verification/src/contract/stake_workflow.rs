//! The stake round: from the start of a run to the receipt of the batch.

use crate::contract::claims::pending_withdrawal_closed;
use crate::contract::outcome::{meets, settled_then, Outcome};
use crate::contract::state::{Contract, ContractState, ContractView};
use crate::domain::account::{Account, RegisteredAccount};
use crate::domain::balance::{NearBalance, StakeBalance};
use crate::domain::batch_id::BatchId;
use crate::domain::block_time_height::BlockTimeHeight;
use crate::domain::lock::{RedeemLock, StakeLock};
use crate::domain::receipt::{RedeemStakeBatchReceipt, StakeBatchReceipt};
use crate::domain::stake_token_value::StakeTokenValue;
use crate::domain::staking_pool::StakingPoolAccount;
use crate::domain::yocto_near::YoctoNear;
use crate::domain::yocto_stake::YoctoStake;
use crate::errors::Error;
use vstd::prelude::*;

verus! {

/// Either the calls that are to be made now, or the value that is known
/// without a call.
#[derive(Clone, Copy, Debug, PartialEq, Eq, Structural)]
pub enum ActionOrValue<A, T> {
    Action(A),
    Value(T),
}

/// The calls that the caller makes at the venue for a stake round, and the
/// callback with which it hands the venue's answer back.
#[derive(Clone, Copy, Debug, PartialEq, Eq, Structural)]
pub enum StakeAction {
    /// Ask the venue for the contract's account and continue with
    /// [`Contract::on_run_stake_batch`]; at the end of the chain, call
    /// [`Contract::clear_stake_lock`].
    GetAccountToRunStakeBatch,
    /// Deposit and stake `amount`, ask for the account, and continue with
    /// [`Contract::on_deposit_and_stake`] without liquidity; at the end of
    /// the chain, call [`Contract::clear_stake_lock`].
    DepositAndStake { amount: YoctoNear },
    /// Stake `amount` out of what lies unstaked at the venue, ask for the
    /// account, and continue with [`Contract::on_deposit_and_stake`] with
    /// `near_liquidity`.
    Stake { amount: YoctoNear, near_liquidity: YoctoNear },
    /// Deposit `deposit`, stake `stake`, ask for the account, and continue
    /// with [`Contract::on_deposit_and_stake`] with `near_liquidity`.
    DepositThenStake { deposit: YoctoNear, stake: YoctoNear, near_liquidity: YoctoNear },
    /// Call [`Contract::process_staked_batch`].
    ProcessStakedBatch,
}

/// The calls that the caller makes at the venue to refresh the share value.
#[derive(Clone, Copy, Debug, PartialEq, Eq, Structural)]
pub enum RefreshAction {
    /// Ping the venue, ask for the account, and continue with
    /// [`Contract::on_refresh_stake_token_value`].
    PingThenGetAccount,
}

impl ContractState {
    /// What [`Contract::run_stake_batch`] makes of the state.
    ///
    /// The stake side is locked and the earnings are shared out. Where a
    /// redemption waits for NEAR, the venue is asked first what lies
    /// unstaked with it. Else the batch is staked at once, together with
    /// all that the liquidity pool holds, which is emptied.
    pub open spec fn run_stake_batch_spec(self, liquidity_needed: bool) -> Result<
        (ContractState, StakeAction),
        Error,
    > {
        if !self.can_run_batch_spec() {
            Err(Error::BlockedByBatchRunning)
        } else if self.stake_batch is None {
            Err(Error::StakeBatchShouldExist)
        } else {
            match (ContractState {
                stake_batch_lock: Some(StakeLock::Staking),
                ..self
            }).distribute_earnings_spec() {
                Err(e) => Err(e),
                Ok(state) => if liquidity_needed {
                    Ok((state, StakeAction::GetAccountToRunStakeBatch))
                } else if self.stake_batch->0.balance.amount.0 + state.near_liquidity_pool.0
                    > u128::MAX {
                    Err(Error::BalanceOverflow)
                } else {
                    Ok(
                        (
                            ContractState { near_liquidity_pool: YoctoNear(0), ..state },
                            StakeAction::DepositAndStake {
                                amount: YoctoNear(
                                    (self.stake_batch->0.balance.amount.0
                                        + state.near_liquidity_pool.0) as u128,
                                ),
                            },
                        ),
                    )
                },
            }
        }
    }

    /// Starts a stake round. A refusal leaves the state as it was.
    pub fn run_stake_batch(&mut self, liquidity_needed: bool) -> (res: Result<StakeAction, Error>)
        ensures
            match old(self).run_stake_batch_spec(liquidity_needed) {
                Ok((state, action)) => res == Ok::<StakeAction, Error>(action) && *final(self)
                    == state,
                Err(e) => res == Err::<StakeAction, Error>(e) && *final(self) == *old(self),
            },
    {
        if !self.can_run_batch() {
            return Err(Error::BlockedByBatchRunning);
        }
        let batch = match self.stake_batch {
            Some(batch) => batch,
            None => { return Err(Error::StakeBatchShouldExist); },
        };
        let mut state = *self;
        state.stake_batch_lock = Some(StakeLock::Staking);
        state.distribute_earnings()?;
        if liquidity_needed {
            *self = state;
            return Ok(StakeAction::GetAccountToRunStakeBatch);
        }
        let amount = match batch.balance.amount.checked_add(state.near_liquidity_pool) {
            Some(amount) => amount,
            None => { return Err(Error::BalanceOverflow); },
        };
        state.near_liquidity_pool = YoctoNear(0);
        *self = state;
        Ok(StakeAction::DepositAndStake { amount })
    }

    /// What [`Contract::on_run_stake_batch`] answers.
    ///
    /// What lies unstaked at the venue belongs to a redemption that waits
    /// for it. As much of the batch as that covers is staked out of it, and
    /// the same amount of the batch is kept as liquidity; only the rest of
    /// the batch is deposited.
    pub open spec fn on_run_stake_batch_spec(self, staking_pool_account: StakingPoolAccount) -> Result<
        StakeAction,
        Error,
    > {
        if self.stake_batch_lock != Some(StakeLock::Staking) {
            Err(Error::StakeLockShouldBeStaking)
        } else if self.stake_batch is None {
            Err(Error::StakeBatchShouldExist)
        } else {
            let amount = self.stake_batch->0.balance.amount;
            let unstaked = staking_pool_account.unstaked_balance;
            if unstaked.0 == 0 {
                Ok(StakeAction::DepositAndStake { amount })
            } else if amount.0 <= unstaked.0 {
                Ok(StakeAction::Stake { amount, near_liquidity: amount })
            } else {
                Ok(
                    StakeAction::DepositThenStake {
                        deposit: YoctoNear((amount.0 - unstaked.0) as u128),
                        stake: amount,
                        near_liquidity: unstaked,
                    },
                )
            }
        }
    }

    /// What [`Contract::on_deposit_and_stake`] makes of the state: the
    /// venue's report is kept in the lock.
    pub open spec fn on_deposit_and_stake_spec(
        self,
        near_liquidity: Option<YoctoNear>,
        staking_pool_account: StakingPoolAccount,
    ) -> Result<ContractState, Error> {
        if self.stake_batch_lock != Some(StakeLock::Staking) {
            Err(Error::StakeLockShouldBeStaking)
        } else if self.stake_batch is None {
            Err(Error::StakeBatchShouldExist)
        } else {
            Ok(
                ContractState {
                    stake_batch_lock: Some(
                        StakeLock::Staked {
                            near_liquidity,
                            staked_balance: staking_pool_account.staked_balance,
                            unstaked_balance: staking_pool_account.unstaked_balance,
                        },
                    ),
                    ..self
                },
            )
        }
    }

    /// What [`Contract::clear_stake_lock`] makes of the state: a round
    /// that the venue has staked keeps its lock, any other lock is dropped.
    pub open spec fn clear_stake_lock_spec(self) -> ContractState {
        match self.stake_batch_lock {
            Some(StakeLock::Staked { .. }) => self,
            _ => ContractState { stake_batch_lock: None, ..self },
        }
    }

    /// What [`Contract::refresh_stake_token_value`] makes of the state.
    pub open spec fn refresh_stake_token_value_spec(self) -> Result<ContractState, Error> {
        match self.stake_batch_lock {
            None => if self.is_unstaking_spec() {
                Err(Error::BlockedByBatchRunning)
            } else {
                Ok(
                    ContractState {
                        stake_batch_lock: Some(StakeLock::RefreshingStakeTokenValue),
                        ..self
                    },
                )
            },
            Some(StakeLock::RefreshingStakeTokenValue) => Err(
                Error::BlockedByStakeTokenValueRefresh,
            ),
            Some(_) => Err(Error::BlockedByBatchRunning),
        }
    }

    /// What [`Contract::on_refresh_stake_token_value`] makes of the state.
    pub open spec fn on_refresh_stake_token_value_spec(
        self,
        staking_pool_account: StakingPoolAccount,
        moment: BlockTimeHeight,
    ) -> Result<ContractState, Error> {
        match self.update_stake_token_value_spec(staking_pool_account.staked_balance, moment) {
            Err(e) => Err(e),
            Ok(state) => Ok(state.clear_stake_lock_spec()),
        }
    }

    /// The state after liquidity was added to the pool.
    ///
    /// Where a redemption waits for NEAR and the pool now covers all that
    /// is unclaimed on its receipt, that NEAR moves from the pool to the
    /// NEAR owed to accounts, and the redeem round is closed.
    pub open spec fn add_liquidity_spec(
        self,
        pending: Option<RedeemStakeBatchReceipt>,
        near_liquidity: Option<YoctoNear>,
    ) -> Result<ContractState, Error> {
        let added = match near_liquidity {
            Some(liquidity) => liquidity,
            None => YoctoNear(0),
        };
        if near_liquidity is None {
            Ok(self)
        } else if self.near_liquidity_pool.0 + added.0 > u128::MAX {
            Err(Error::BalanceOverflow)
        } else {
            let pool = self.near_liquidity_pool.0 + added.0;
            let owed = if pending is Some {
                pending->0.stake_token_value.stake_to_near_spec(pending->0.redeemed_stake)
            } else {
                0
            };
            if self.redeem_stake_batch_lock == Some(RedeemLock::PendingWithdrawal)
                && pending is Some && owed <= pool {
                if self.total_near.amount.0 + owed > u128::MAX {
                    Err(Error::BalanceOverflow)
                } else {
                    Ok(
                        pending_withdrawal_closed(
                            ContractState {
                                near_liquidity_pool: YoctoNear((pool - owed) as u128),
                                total_near: NearBalance {
                                    amount: YoctoNear((self.total_near.amount.0 + owed) as u128),
                                },
                                ..self
                            },
                        ),
                    )
                }
            } else {
                Ok(ContractState { near_liquidity_pool: YoctoNear(pool as u128), ..self })
            }
        }
    }

    /// Adds liquidity to the pool. A refusal leaves the state as it was.
    pub fn add_liquidity(
        &mut self,
        pending: Option<RedeemStakeBatchReceipt>,
        near_liquidity: Option<YoctoNear>,
    ) -> (res: Result<(), Error>)
        ensures
            match old(self).add_liquidity_spec(pending, near_liquidity) {
                Ok(state) => res.is_ok() && *final(self) == state,
                Err(e) => res == Err::<(), Error>(e) && *final(self) == *old(self),
            },
    {
        let liquidity = match near_liquidity {
            Some(liquidity) => liquidity,
            None => { return Ok(()); },
        };
        let pool = match self.near_liquidity_pool.checked_add(liquidity) {
            Some(pool) => pool,
            None => { return Err(Error::BalanceOverflow); },
        };
        let covered = match (self.redeem_stake_batch_lock, pending) {
            (Some(RedeemLock::PendingWithdrawal), Some(receipt)) => {
                proof {
                    receipt.stake_token_value.lemma_conversion_bounds(
                        YoctoNear(0),
                        receipt.redeemed_stake,
                    );
                }
                match receipt.stake_near_value() {
                    Some(owed) => if owed.0 <= pool.0 {
                        Some(owed)
                    } else {
                        None
                    },
                    None => None,
                }
            },
            _ => None,
        };
        match covered {
            Some(owed) => {
                let total_near = match self.total_near.amount.checked_add(owed) {
                    Some(total) => total,
                    None => { return Err(Error::BalanceOverflow); },
                };
                self.near_liquidity_pool = YoctoNear(pool.0 - owed.0);
                self.total_near = NearBalance { amount: total_near };
                self.redeem_stake_batch_lock = None;
                self.redeem_stake_batch = self.next_redeem_stake_batch;
                self.next_redeem_stake_batch = None;
            },
            None => {
                self.near_liquidity_pool = pool;
            },
        }
        Ok(())
    }

    /// The NEAR that was staked at the venue before the batch of
    /// `batched` NEAR was added to it: the venue's report comes after the
    /// batch was staked and holds it.
    pub open spec fn staked_before(staked_balance: YoctoNear, batched: YoctoNear) -> YoctoNear {
        if staked_balance.0 <= batched.0 {
            YoctoNear(0)
        } else {
            YoctoNear((staked_balance.0 - batched.0) as u128)
        }
    }

    /// What [`Contract::process_staked_batch`] makes of the state, together
    /// with the receipt of the batch.
    ///
    /// The liquidity that the round brought is added to the pool. The share
    /// value is recorded from the balance that was staked before the batch.
    /// The batch is settled at that value: its receipt is made, and the
    /// shares that it mints are added to the supply. The next stake batch
    /// becomes the current one, and the lock is dropped.
    pub open spec fn process_staked_batch_spec(
        self,
        pending: Option<RedeemStakeBatchReceipt>,
        moment: BlockTimeHeight,
    ) -> Result<(ContractState, BatchId, StakeBatchReceipt), Error> {
        if self.stake_batch is None {
            Err(Error::StakeBatchShouldExist)
        } else if !(self.stake_batch_lock is Some && self.stake_batch_lock->0 is Staked) {
            Err(Error::StakeLockShouldBeStaked)
        } else {
            let batch = self.stake_batch->0;
            let near_liquidity = self.stake_batch_lock->0->near_liquidity;
            let staked_balance = self.stake_batch_lock->0->staked_balance;
            match self.add_liquidity_spec(pending, near_liquidity) {
                Err(e) => Err(e),
                Ok(state) => match state.update_stake_token_value_spec(
                    Self::staked_before(staked_balance, batch.balance.amount),
                    moment,
                ) {
                    Err(e) => Err(e),
                    Ok(state) => {
                        let minted = state.stake_token_value.near_to_stake_spec(
                            batch.balance.amount,
                        );
                        if minted > u128::MAX || state.total_stake.amount.0 + minted > u128::MAX {
                            Err(Error::BalanceOverflow)
                        } else {
                            Ok(
                                (
                                    ContractState {
                                        total_stake: StakeBalance {
                                            amount: YoctoStake(
                                                (state.total_stake.amount.0 + minted) as u128,
                                            ),
                                        },
                                        stake_batch: state.next_stake_batch,
                                        next_stake_batch: None,
                                        stake_batch_lock: None,
                                        ..state
                                    },
                                    batch.batch_id,
                                    StakeBatchReceipt::new_spec(
                                        batch.balance.amount,
                                        state.stake_token_value,
                                    ),
                                ),
                            )
                        }
                    },
                },
            }
        }
    }

    /// Finishes a stake round and returns the number of the batch and its
    /// receipt. A refusal leaves the state as it was.
    pub fn process_staked_batch(
        &mut self,
        pending: Option<RedeemStakeBatchReceipt>,
        moment: BlockTimeHeight,
    ) -> (res: Result<(BatchId, StakeBatchReceipt), Error>)
        ensures
            match old(self).process_staked_batch_spec(pending, moment) {
                Ok((state, batch_id, receipt)) => res == Ok::<(BatchId, StakeBatchReceipt), Error>(
                    (batch_id, receipt),
                ) && *final(self) == state,
                Err(e) => res == Err::<(BatchId, StakeBatchReceipt), Error>(e) && *final(self)
                    == *old(self),
            },
    {
        let batch = match self.stake_batch {
            Some(batch) => batch,
            None => { return Err(Error::StakeBatchShouldExist); },
        };
        let (near_liquidity, staked_balance) = match self.stake_batch_lock {
            Some(StakeLock::Staked { near_liquidity, staked_balance, unstaked_balance }) => (
                near_liquidity,
                staked_balance,
            ),
            _ => { return Err(Error::StakeLockShouldBeStaked); },
        };
        let mut state = *self;
        state.add_liquidity(pending, near_liquidity)?;
        let staked_before = if staked_balance.0 <= batch.balance.amount.0 {
            YoctoNear(0)
        } else {
            YoctoNear(staked_balance.0 - batch.balance.amount.0)
        };
        state.update_stake_token_value(staked_before, moment)?;
        proof {
            state.stake_token_value.lemma_conversion_bounds(batch.balance.amount, YoctoStake(0));
        }
        let minted = match state.stake_token_value.checked_near_to_stake(batch.balance.amount) {
            Some(minted) => minted,
            None => { return Err(Error::BalanceOverflow); },
        };
        let total_stake = match state.total_stake.amount.checked_add(minted) {
            Some(total) => total,
            None => { return Err(Error::BalanceOverflow); },
        };
        let receipt = StakeBatchReceipt::new(batch.balance.amount, state.stake_token_value);
        state.total_stake = StakeBalance { amount: total_stake };
        state.stake_batch = state.next_stake_batch;
        state.next_stake_batch = None;
        state.stake_batch_lock = None;
        *self = state;
        Ok((batch.batch_id, receipt))
    }
}

/// The contract with its state replaced.
pub open spec fn with_state(contract: ContractView, state: ContractState) -> ContractView {
    ContractView { state, ..contract }
}

/// What [`Contract::process_staked_batch`] comes to.
pub open spec fn process_staked_batch_spec(contract: ContractView, moment: BlockTimeHeight) -> Result<
    (ContractView, BatchId),
    Error,
> {
    match contract.state.process_staked_batch_spec(contract.pending_withdrawal(), moment) {
        Err(e) => Err(e),
        Ok((state, batch_id, receipt)) => Ok(
            (
                ContractView {
                    state,
                    stake_batch_receipts: contract.stake_batch_receipts.insert(batch_id.0, receipt),
                    ..contract
                },
                batch_id,
            ),
        ),
    }
}

/// What [`Contract::stake`] comes to.
///
/// With nothing locked a stake round is started. A round that the venue
/// has staked is finished. A round on its way to the venue, and a refresh
/// of the share value, block the call.
pub open spec fn stake_spec(contract: ContractView, moment: BlockTimeHeight) -> Result<
    (ContractView, ActionOrValue<StakeAction, BatchId>),
    Error,
> {
    match contract.state.stake_batch_lock {
        None => match contract.state.run_stake_batch_spec(contract.pending_withdrawal() is Some) {
            Err(e) => Err(e),
            Ok((state, action)) => Ok((with_state(contract, state), ActionOrValue::Action(action))),
        },
        Some(StakeLock::Staking) => Err(Error::BlockedByBatchRunning),
        Some(StakeLock::Staked { .. }) => match process_staked_batch_spec(contract, moment) {
            Err(e) => Err(e),
            Ok((contract, batch_id)) => Ok((contract, ActionOrValue::Value(batch_id))),
        },
        Some(StakeLock::RefreshingStakeTokenValue) => Err(Error::BlockedByStakeTokenValueRefresh),
    }
}

/// What [`Contract::deposit_and_stake`] comes to: the deposit is taken, and
/// a stake round is started where one may be started.
pub open spec fn deposit_and_stake_spec(
    contract: ContractView,
    account: Account,
    amount: YoctoNear,
) -> Outcome<ActionOrValue<StakeAction, BatchId>> {
    if amount.0 == 0 {
        Err(Error::DepositRequiredForStake)
    } else {
        match settled_then(
            contract,
            account,
            |state: ContractState, account: Account| state.deposit_for_account_spec(account, amount),
        ) {
            Err(e) => Err(e),
            Ok((contract, account, batch_id)) => if contract.state.can_run_batch_spec() {
                match contract.state.run_stake_batch_spec(contract.pending_withdrawal() is Some) {
                    Err(e) => Err(e),
                    Ok((state, action)) => Ok(
                        (with_state(contract, state), account, ActionOrValue::Action(action)),
                    ),
                }
            } else {
                Ok((contract, account, ActionOrValue::Value(batch_id)))
            },
        }
    }
}

impl Contract {
    /// Starts a stake round and tells which calls to make at the venue.
    ///
    /// Refused while a round of either kind is at the venue, while the
    /// share value is refreshed, and where there is no stake batch. A
    /// refusal leaves the contract as it was.
    pub fn run_stake_batch(&mut self) -> (res: Result<StakeAction, Error>)
        ensures
            match old(self)@.state.run_stake_batch_spec(old(self)@.pending_withdrawal() is Some) {
                Ok((state, action)) => res == Ok::<StakeAction, Error>(action) && final(self)@
                    == with_state(old(self)@, state),
                Err(e) => res == Err::<StakeAction, Error>(e) && final(self)@ == old(self)@,
            },
    {
        let liquidity_needed = self.get_pending_withdrawal().is_some();
        self.state.run_stake_batch(liquidity_needed)
    }

    /// Takes the venue's answer to
    /// [`StakeAction::GetAccountToRunStakeBatch`] and tells which calls
    /// stake the batch. The contract is not changed.
    pub fn on_run_stake_batch(&self, staking_pool_account: StakingPoolAccount) -> (res: Result<
        StakeAction,
        Error,
    >)
        ensures
            res == self@.state.on_run_stake_batch_spec(staking_pool_account),
    {
        match self.state.stake_batch_lock {
            Some(StakeLock::Staking) => {},
            _ => { return Err(Error::StakeLockShouldBeStaking); },
        }
        let batch = match self.state.stake_batch {
            Some(batch) => batch,
            None => { return Err(Error::StakeBatchShouldExist); },
        };
        let amount = batch.balance.amount;
        let unstaked = staking_pool_account.unstaked_balance;
        if unstaked.0 == 0 {
            Ok(StakeAction::DepositAndStake { amount })
        } else if amount.0 <= unstaked.0 {
            Ok(StakeAction::Stake { amount, near_liquidity: amount })
        } else {
            Ok(
                StakeAction::DepositThenStake {
                    deposit: YoctoNear(amount.0 - unstaked.0),
                    stake: amount,
                    near_liquidity: unstaked,
                },
            )
        }
    }

    /// Takes the venue's report after the batch was staked, keeps it in
    /// the lock, and asks for [`Contract::process_staked_batch`].
    ///
    /// Refused, with the contract unchanged, where no stake round is on its
    /// way to the venue.
    pub fn on_deposit_and_stake(
        &mut self,
        near_liquidity: Option<YoctoNear>,
        staking_pool_account: StakingPoolAccount,
    ) -> (res: Result<StakeAction, Error>)
        ensures
            match old(self)@.state.on_deposit_and_stake_spec(near_liquidity, staking_pool_account) {
                Ok(state) => res == Ok::<StakeAction, Error>(StakeAction::ProcessStakedBatch)
                    && final(self)@ == with_state(old(self)@, state),
                Err(e) => res == Err::<StakeAction, Error>(e) && final(self)@ == old(self)@,
            },
    {
        match self.state.stake_batch_lock {
            Some(StakeLock::Staking) => {},
            _ => { return Err(Error::StakeLockShouldBeStaking); },
        }
        if self.state.stake_batch.is_none() {
            return Err(Error::StakeBatchShouldExist);
        }
        self.state.stake_batch_lock = Some(
            StakeLock::Staked {
                near_liquidity,
                staked_balance: staking_pool_account.staked_balance,
                unstaked_balance: staking_pool_account.unstaked_balance,
            },
        );
        Ok(StakeAction::ProcessStakedBatch)
    }

    /// Finishes the stake round: settles the batch at the share value as of
    /// `moment`, stores its receipt, and returns the number of the batch.
    ///
    /// Refused, with the contract unchanged, where the venue has not
    /// staked a batch.
    pub fn process_staked_batch(&mut self, moment: BlockTimeHeight) -> (res: Result<BatchId, Error>)
        ensures
            match process_staked_batch_spec(old(self)@, moment) {
                Ok((contract, batch_id)) => res == Ok::<BatchId, Error>(batch_id) && final(self)@
                    == contract,
                Err(e) => res == Err::<BatchId, Error>(e) && final(self)@ == old(self)@,
            },
    {
        let pending = self.get_pending_withdrawal();
        let (batch_id, receipt) = self.state.process_staked_batch(pending, moment)?;
        self.stake_batch_receipts.insert(batch_id, receipt);
        Ok(batch_id)
    }

    /// Drops the stake lock after a chain of calls has ended, unless the
    /// venue has staked the batch: that round must be finished by
    /// [`Contract::process_staked_batch`].
    pub fn clear_stake_lock(&mut self)
        ensures
            final(self)@ == with_state(old(self)@, old(self)@.state.clear_stake_lock_spec()),
    {
        match self.state.stake_batch_lock {
            Some(StakeLock::Staked { .. }) => {},
            _ => {
                self.state.stake_batch_lock = None;
            },
        }
    }

    /// Runs the stake side as far as it goes without the venue: starts a
    /// round where nothing is locked, and finishes the round that the venue
    /// has staked.
    ///
    /// A refusal leaves the contract as it was.
    pub fn stake(&mut self, moment: BlockTimeHeight) -> (res: Result<
        ActionOrValue<StakeAction, BatchId>,
        Error,
    >)
        ensures
            match stake_spec(old(self)@, moment) {
                Ok((contract, outcome)) => res == Ok::<ActionOrValue<StakeAction, BatchId>, Error>(
                    outcome,
                ) && final(self)@ == contract,
                Err(e) => res == Err::<ActionOrValue<StakeAction, BatchId>, Error>(e) && final(self)@ == old(self)@,
            },
    {
        match self.state.stake_batch_lock {
            None => {
                let action = self.run_stake_batch()?;
                Ok(ActionOrValue::Action(action))
            },
            Some(StakeLock::Staking) => Err(Error::BlockedByBatchRunning),
            Some(StakeLock::Staked { .. }) => {
                let batch_id = self.process_staked_batch(moment)?;
                Ok(ActionOrValue::Value(batch_id))
            },
            Some(StakeLock::RefreshingStakeTokenValue) => Err(
                Error::BlockedByStakeTokenValueRefresh,
            ),
        }
    }

    /// Takes a deposit of the account and starts a stake round where one
    /// may be started; else returns the number of the batch that took the
    /// deposit.
    ///
    /// A refusal leaves the contract and the account as they were.
    pub fn deposit_and_stake(&mut self, account: &mut RegisteredAccount, amount: YoctoNear) -> (res:
        Result<ActionOrValue<StakeAction, BatchId>, Error>)
        ensures
            final(account).id == old(account).id,
            meets(
                deposit_and_stake_spec(old(self)@, old(account).account, amount),
                res,
                old(self)@,
                old(account).account,
                final(self)@,
                final(account).account,
            ),
    {
        if amount.0 == 0 {
            return Err(Error::DepositRequiredForStake);
        }
        let mut plan = self.plan_claims(&account.account)?;
        let batch_id = plan.state.deposit_for_account(&mut plan.account, amount)?;
        let outcome = if plan.state.can_run_batch() {
            let liquidity_needed = match plan.state.redeem_stake_batch {
                Some(batch) => self.redeem_stake_batch_receipts.get_after(
                    &plan.redeem_writes,
                    batch.batch_id,
                ).is_some(),
                None => false,
            };
            ActionOrValue::Action(plan.state.run_stake_batch(liquidity_needed)?)
        } else {
            ActionOrValue::Value(batch_id)
        };
        self.commit_claims(&plan);
        account.account = plan.account;
        Ok(outcome)
    }

    /// Locks the stake side for a refresh of the share value and tells
    /// which calls to make at the venue.
    ///
    /// Refused, with the contract unchanged, while a round of either kind
    /// is at the venue and while a refresh is under way.
    pub fn refresh_stake_token_value(&mut self) -> (res: Result<RefreshAction, Error>)
        ensures
            match old(self)@.state.refresh_stake_token_value_spec() {
                Ok(state) => res == Ok::<RefreshAction, Error>(RefreshAction::PingThenGetAccount)
                    && final(self)@ == with_state(old(self)@, state),
                Err(e) => res == Err::<RefreshAction, Error>(e) && final(self)@ == old(self)@,
            },
    {
        match self.state.stake_batch_lock {
            None => {
                if self.state.is_unstaking() {
                    return Err(Error::BlockedByBatchRunning);
                }
                self.state.stake_batch_lock = Some(StakeLock::RefreshingStakeTokenValue);
                Ok(RefreshAction::PingThenGetAccount)
            },
            Some(StakeLock::RefreshingStakeTokenValue) => Err(
                Error::BlockedByStakeTokenValueRefresh,
            ),
            Some(_) => Err(Error::BlockedByBatchRunning),
        }
    }

    /// Takes the venue's report, records the share value as of `moment`,
    /// drops the lock of the refresh, and returns the value.
    ///
    /// A refusal leaves the contract as it was.
    pub fn on_refresh_stake_token_value(
        &mut self,
        staking_pool_account: StakingPoolAccount,
        moment: BlockTimeHeight,
    ) -> (res: Result<StakeTokenValue, Error>)
        ensures
            match old(self)@.state.on_refresh_stake_token_value_spec(staking_pool_account, moment) {
                Ok(state) => res == Ok::<StakeTokenValue, Error>(state.stake_token_value) && final(self)@ == with_state(old(self)@, state),
                Err(e) => res == Err::<StakeTokenValue, Error>(e) && final(self)@ == old(self)@,
            },
    {
        self.state.update_stake_token_value(staking_pool_account.staked_balance, moment)?;
        self.clear_stake_lock();
        Ok(self.state.stake_token_value)
    }
}

} // verus!
