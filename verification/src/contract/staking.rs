//! Paying NEAR into the stake batches and taking it back out.

use crate::contract::outcome::{meets, settled_then, state_meets, StateOutcome};
use crate::contract::state::{Contract, ContractState};
use crate::domain::account::{Account, RegisteredAccount};
use crate::domain::balance::NearBalance;
use crate::domain::batch::StakeBatch;
use crate::domain::batch_id::BatchId;
use crate::domain::yocto_near::YoctoNear;
use crate::domain::yocto_stake::YoctoStake;
use crate::errors::Error;
use vstd::prelude::*;

verus! {

/// A stake batch with the given number and balance.
pub open spec fn stake_batch(batch_id: BatchId, amount: int) -> StakeBatch {
    StakeBatch { batch_id, balance: NearBalance { amount: YoctoNear(amount as u128) } }
}

/// Pays `amount` into a batch of the contract and the account's batch of the
/// same number.
///
/// A slot that is empty is filled: the contract's with a batch of the number
/// `fresh`, the account's with a batch of the contract's number. The result
/// holds both batches, the contract's first.
pub open spec fn pay_into_stake_batches(
    contract_slot: Option<StakeBatch>,
    account_slot: Option<StakeBatch>,
    fresh: BatchId,
    amount: YoctoNear,
) -> Result<(StakeBatch, StakeBatch), Error> {
    let contract_batch = match contract_slot {
        Some(batch) => batch,
        None => stake_batch(fresh, 0),
    };
    let account_batch = match account_slot {
        Some(batch) => batch,
        None => stake_batch(contract_batch.batch_id, 0),
    };
    if contract_batch.balance.amount.0 + amount.0 > u128::MAX {
        Err(Error::BalanceOverflow)
    } else if account_batch.batch_id != contract_batch.batch_id {
        Err(Error::BatchIdMismatch)
    } else if account_batch.balance.amount.0 + amount.0 > u128::MAX {
        Err(Error::BalanceOverflow)
    } else {
        Ok(
            (
                stake_batch(contract_batch.batch_id, contract_batch.balance.amount.0 + amount.0),
                stake_batch(account_batch.batch_id, account_batch.balance.amount.0 + amount.0),
            ),
        )
    }
}

/// Takes `amount` out of a batch of the contract and the account's batch of
/// the same number. The result holds both slots afterwards, the contract's
/// first: a batch that is left empty is deleted.
pub open spec fn take_from_stake_batches(
    contract_slot: Option<StakeBatch>,
    account_batch: StakeBatch,
    amount: YoctoNear,
) -> Result<(Option<StakeBatch>, Option<StakeBatch>), Error> {
    if contract_slot is None {
        Err(Error::StakeBatchShouldExist)
    } else if contract_slot->0.batch_id != account_batch.batch_id {
        Err(Error::BatchIdMismatch)
    } else if amount.0 > contract_slot->0.balance.amount.0 || amount.0
        > account_batch.balance.amount.0 {
        Err(Error::BatchBalanceInsufficient)
    } else {
        Ok(
            (
                if contract_slot->0.balance.amount.0 == amount.0 {
                    None
                } else {
                    Some(
                        stake_batch(
                            account_batch.batch_id,
                            contract_slot->0.balance.amount.0 - amount.0,
                        ),
                    )
                },
                if account_batch.balance.amount.0 == amount.0 {
                    None
                } else {
                    Some(
                        stake_batch(
                            account_batch.batch_id,
                            account_batch.balance.amount.0 - amount.0,
                        ),
                    )
                },
            ),
        )
    }
}

fn pay_into(
    contract_slot: Option<StakeBatch>,
    account_slot: Option<StakeBatch>,
    fresh: BatchId,
    amount: YoctoNear,
) -> (res: Result<(StakeBatch, StakeBatch), Error>)
    ensures
        res == pay_into_stake_batches(contract_slot, account_slot, fresh, amount),
{
    let mut contract_batch = match contract_slot {
        Some(batch) => batch,
        None => fresh.new_stake_batch(),
    };
    contract_batch.add(amount)?;
    let mut account_batch = match account_slot {
        Some(batch) => batch,
        None => contract_batch.batch_id.new_stake_batch(),
    };
    if account_batch.batch_id.0 != contract_batch.batch_id.0 {
        return Err(Error::BatchIdMismatch);
    }
    account_batch.add(amount)?;
    Ok((contract_batch, account_batch))
}

fn take_from(contract_slot: Option<StakeBatch>, account_batch: StakeBatch, amount: YoctoNear) -> (res:
    Result<(Option<StakeBatch>, Option<StakeBatch>), Error>)
    ensures
        res == take_from_stake_batches(contract_slot, account_batch, amount),
{
    let mut contract_batch = match contract_slot {
        Some(batch) => batch,
        None => { return Err(Error::StakeBatchShouldExist); },
    };
    if contract_batch.batch_id.0 != account_batch.batch_id.0 {
        return Err(Error::BatchIdMismatch);
    }
    let mut account_batch = account_batch;
    let contract_rest = contract_batch.remove(amount)?;
    let account_rest = account_batch.remove(amount)?;
    Ok(
        (
            if contract_rest.0 == 0 {
                None
            } else {
                Some(contract_batch)
            },
            if account_rest.0 == 0 {
                None
            } else {
                Some(account_batch)
            },
        ),
    )
}

impl ContractState {
    /// The number that the next new batch gets: the one after the last.
    pub open spec fn fresh_batch_id(self) -> BatchId {
        BatchId((self.batch_id_sequence.0 + 1) as u128)
    }

    /// What [`ContractState::new_stake_batch`] comes to.
    pub open spec fn new_stake_batch_spec(self) -> Result<(ContractState, StakeBatch), Error> {
        if self.batch_id_sequence.0 == u128::MAX {
            Err(Error::BatchIdSequenceExhausted)
        } else {
            Ok(
                (
                    ContractState { batch_id_sequence: self.fresh_batch_id(), ..self },
                    stake_batch(self.fresh_batch_id(), 0),
                ),
            )
        }
    }

    /// Takes the next batch number and returns an empty stake batch with
    /// it. Refused, with the state unchanged, where the numbers are used up.
    pub fn new_stake_batch(&mut self) -> (res: Result<StakeBatch, Error>)
        ensures
            match old(self).new_stake_batch_spec() {
                Ok((state, batch)) => res == Ok::<StakeBatch, Error>(batch) && *final(self)
                    == state,
                Err(e) => res == Err::<StakeBatch, Error>(e) && *final(self) == *old(self),
            },
    {
        match self.batch_id_sequence.next() {
            Some(id) => {
                self.batch_id_sequence = id;
                Ok(id.new_stake_batch())
            },
            None => Err(Error::BatchIdSequenceExhausted),
        }
    }

    /// What [`ContractState::batch_near_for_account`] comes to.
    ///
    /// While no stake round is running the deposit goes to the current
    /// batch of the contract and of the account, else to the next batch of
    /// both. A batch that the contract lacks is made with a fresh number,
    /// and one that the account lacks with the number of the contract's
    /// batch. An account whose batch in that slot has another number than
    /// the contract's is refused.
    pub open spec fn batch_near_for_account_spec(
        self,
        account: Account,
        amount: YoctoNear,
    ) -> StateOutcome<BatchId> {
        let current = !self.stake_batch_locked_spec();
        let contract_slot = if current {
            self.stake_batch
        } else {
            self.next_stake_batch
        };
        let account_slot = if current {
            account.stake_batch
        } else {
            account.next_stake_batch
        };
        if contract_slot is None && self.batch_id_sequence.0 == u128::MAX {
            Err(Error::BatchIdSequenceExhausted)
        } else {
            match pay_into_stake_batches(contract_slot, account_slot, self.fresh_batch_id(), amount) {
                Err(e) => Err(e),
                Ok((contract_batch, account_batch)) => {
                    let sequence = if contract_slot is None {
                        self.fresh_batch_id()
                    } else {
                        self.batch_id_sequence
                    };
                    Ok(
                        if current {
                            (
                                ContractState {
                                    stake_batch: Some(contract_batch),
                                    batch_id_sequence: sequence,
                                    ..self
                                },
                                Account { stake_batch: Some(account_batch), ..account },
                                account_batch.batch_id,
                            )
                        } else {
                            (
                                ContractState {
                                    next_stake_batch: Some(contract_batch),
                                    batch_id_sequence: sequence,
                                    ..self
                                },
                                Account { next_stake_batch: Some(account_batch), ..account },
                                account_batch.batch_id,
                            )
                        },
                    )
                },
            }
        }
    }

    /// Pays `amount` into the stake batch that takes deposits now, for the
    /// contract and for the account, and returns the number of that batch.
    pub fn batch_near_for_account(&mut self, account: &mut Account, amount: YoctoNear) -> (res:
        Result<BatchId, Error>)
        ensures
            state_meets(
                old(self).batch_near_for_account_spec(*old(account), amount),
                res,
                *old(self),
                *old(account),
                *final(self),
                *final(account),
            ),
    {
        let current = !self.stake_batch_locked();
        let contract_slot = if current {
            self.stake_batch
        } else {
            self.next_stake_batch
        };
        let account_slot = if current {
            account.stake_batch
        } else {
            account.next_stake_batch
        };
        let mut sequence = self.batch_id_sequence;
        if contract_slot.is_none() {
            sequence = match self.batch_id_sequence.next() {
                Some(id) => id,
                None => { return Err(Error::BatchIdSequenceExhausted); },
            };
        }
        let (contract_batch, account_batch) = pay_into(
            contract_slot,
            account_slot,
            sequence,
            amount,
        )?;
        self.batch_id_sequence = sequence;
        if current {
            self.stake_batch = Some(contract_batch);
            account.stake_batch = Some(account_batch);
        } else {
            self.next_stake_batch = Some(contract_batch);
            account.next_stake_batch = Some(account_batch);
        }
        Ok(account_batch.batch_id)
    }

    /// The least NEAR that an account's stake batch may hold: what a
    /// thousand of the smallest share units are worth at the recorded value.
    pub open spec fn min_required_near_deposit_spec(self) -> int {
        self.stake_token_value.stake_to_near_spec(YoctoStake(1000))
    }

    /// What [`ContractState::check_stake_batch_min_required_near_balance`]
    /// comes to.
    pub open spec fn check_stake_batch_min_required_near_balance_spec(
        self,
        batch: StakeBatch,
    ) -> Result<(), Error> {
        if self.min_required_near_deposit_spec() > u128::MAX {
            Err(Error::BalanceOverflow)
        } else if batch.balance.amount.0 < self.min_required_near_deposit_spec() {
            Err(Error::MinimumDepositRequired)
        } else {
            Ok(())
        }
    }

    /// The least NEAR that an account's stake batch may hold, so that it
    /// never mints zero shares. Refused where that needs more than 128 bits.
    pub fn min_required_near_deposit(&self) -> (res: Result<YoctoNear, Error>)
        ensures
            self.min_required_near_deposit_spec() <= u128::MAX ==> res == Ok::<YoctoNear, Error>(
                YoctoNear(self.min_required_near_deposit_spec() as u128),
            ),
            self.min_required_near_deposit_spec() > u128::MAX ==> res == Err::<YoctoNear, Error>(
                Error::BalanceOverflow,
            ),
    {
        match self.stake_token_value.checked_stake_to_near(YoctoStake(1000)) {
            Some(near) => Ok(near),
            None => Err(Error::BalanceOverflow),
        }
    }

    /// Accepts a stake batch that holds at least the least deposit.
    pub fn check_stake_batch_min_required_near_balance(&self, batch: StakeBatch) -> (res: Result<
        (),
        Error,
    >)
        ensures
            res == self.check_stake_batch_min_required_near_balance_spec(batch),
    {
        let min_required_near_deposit = self.min_required_near_deposit()?;
        if batch.balance.amount.0 >= min_required_near_deposit.0 {
            Ok(())
        } else {
            Err(Error::MinimumDepositRequired)
        }
    }

    /// What [`ContractState::check_min_required_near_deposit`] comes to.
    pub open spec fn check_min_required_near_deposit_spec(
        self,
        account: Account,
        batch_id: BatchId,
    ) -> Result<(), Error> {
        match account.stake_batch_spec(batch_id) {
            Some(batch) => self.check_stake_batch_min_required_near_balance_spec(batch),
            None => Ok(()),
        }
    }

    /// Accepts an account whose stake batch of the given number, if it has
    /// one, holds at least the least deposit.
    pub fn check_min_required_near_deposit(&self, account: &Account, batch_id: BatchId) -> (res:
        Result<(), Error>)
        ensures
            res == self.check_min_required_near_deposit_spec(*account, batch_id),
    {
        match account.stake_batch(batch_id) {
            Some(batch) => self.check_stake_batch_min_required_near_balance(batch),
            None => Ok(()),
        }
    }

    /// What [`ContractState::deposit_for_account`] comes to: the deposit is
    /// batched, and the account's batch must then hold the least deposit.
    pub open spec fn deposit_for_account_spec(self, account: Account, amount: YoctoNear) -> StateOutcome<
        BatchId,
    > {
        match self.batch_near_for_account_spec(account, amount) {
            Err(e) => Err(e),
            Ok((state, account, batch_id)) => match state.check_min_required_near_deposit_spec(
                account,
                batch_id,
            ) {
                Err(e) => Err(e),
                Ok(()) => Ok((state, account, batch_id)),
            },
        }
    }

    /// Batches a deposit and checks that the account's batch then holds the
    /// least deposit.
    pub fn deposit_for_account(&mut self, account: &mut Account, amount: YoctoNear) -> (res: Result<
        BatchId,
        Error,
    >)
        ensures
            state_meets(
                old(self).deposit_for_account_spec(*old(account), amount),
                res,
                *old(self),
                *old(account),
                *final(self),
                *final(account),
            ),
    {
        let mut state = *self;
        let mut batched = *account;
        let batch_id = state.batch_near_for_account(&mut batched, amount)?;
        state.check_min_required_near_deposit(&batched, batch_id)?;
        *self = state;
        *account = batched;
        Ok(batch_id)
    }

    /// What [`ContractState::withdraw_from_stake_batch_for_account`] comes to.
    ///
    /// The account's next batch is drawn on where it has one, and what is
    /// left in it must still hold the least deposit. Else its current batch
    /// is drawn on, which is allowed only while a stake round may be
    /// started. The result holds what is to be paid back to the account.
    pub open spec fn withdraw_from_stake_batch_for_account_spec(
        self,
        account: Account,
        amount: YoctoNear,
    ) -> StateOutcome<YoctoNear> {
        if account.next_stake_batch is Some {
            match take_from_stake_batches(self.next_stake_batch, account.next_stake_batch->0, amount) {
                Err(e) => Err(e),
                Ok((contract_slot, account_slot)) => if account_slot is Some
                    && self.check_stake_batch_min_required_near_balance_spec(account_slot->0)
                    is Err {
                    Err(self.check_stake_batch_min_required_near_balance_spec(account_slot->0)->Err_0)
                } else {
                    Ok(
                        (
                            ContractState { next_stake_batch: contract_slot, ..self },
                            Account { next_stake_batch: account_slot, ..account },
                            amount,
                        ),
                    )
                },
            }
        } else if account.stake_batch is Some {
            if !self.can_run_batch_spec() {
                Err(Error::BlockedByBatchRunning)
            } else {
                match take_from_stake_batches(self.stake_batch, account.stake_batch->0, amount) {
                    Err(e) => Err(e),
                    Ok((contract_slot, account_slot)) => Ok(
                        (
                            ContractState { stake_batch: contract_slot, ..self },
                            Account { stake_batch: account_slot, ..account },
                            amount,
                        ),
                    ),
                }
            }
        } else {
            Err(Error::NoFundsInStakeBatchToWithdraw)
        }
    }

    /// Takes `amount` of the account's deposits back out of a stake batch
    /// and returns what is to be paid back to the account.
    pub fn withdraw_from_stake_batch_for_account(
        &mut self,
        account: &mut Account,
        amount: YoctoNear,
    ) -> (res: Result<YoctoNear, Error>)
        ensures
            state_meets(
                old(self).withdraw_from_stake_batch_for_account_spec(*old(account), amount),
                res,
                *old(self),
                *old(account),
                *final(self),
                *final(account),
            ),
    {
        if let Some(batch) = account.next_stake_batch {
            let (contract_slot, account_slot) = take_from(self.next_stake_batch, batch, amount)?;
            if let Some(rest) = account_slot {
                self.check_stake_batch_min_required_near_balance(rest)?;
            }
            self.next_stake_batch = contract_slot;
            account.next_stake_batch = account_slot;
            return Ok(amount);
        }
        if let Some(batch) = account.stake_batch {
            if !self.can_run_batch() {
                return Err(Error::BlockedByBatchRunning);
            }
            let (contract_slot, account_slot) = take_from(self.stake_batch, batch, amount)?;
            self.stake_batch = contract_slot;
            account.stake_batch = account_slot;
            return Ok(amount);
        }
        Err(Error::NoFundsInStakeBatchToWithdraw)
    }

    /// What [`ContractState::withdraw_all_from_stake_batch_for_account`]
    /// comes to.
    ///
    /// All of the account's next batch is taken out where it has one. Else
    /// all of its current batch is, which is allowed only while a stake
    /// round may be started. An account without a stake batch gets nothing.
    pub open spec fn withdraw_all_from_stake_batch_for_account_spec(
        self,
        account: Account,
    ) -> StateOutcome<YoctoNear> {
        if account.next_stake_batch is Some {
            let amount = account.next_stake_batch->0.balance.amount;
            match take_from_stake_batches(self.next_stake_batch, account.next_stake_batch->0, amount) {
                Err(e) => Err(e),
                Ok((contract_slot, _)) => Ok(
                    (
                        ContractState { next_stake_batch: contract_slot, ..self },
                        Account { next_stake_batch: None, ..account },
                        amount,
                    ),
                ),
            }
        } else if account.stake_batch is Some {
            let amount = account.stake_batch->0.balance.amount;
            if !self.can_run_batch_spec() {
                Err(Error::BlockedByBatchRunning)
            } else {
                match take_from_stake_batches(self.stake_batch, account.stake_batch->0, amount) {
                    Err(e) => Err(e),
                    Ok((contract_slot, _)) => Ok(
                        (
                            ContractState { stake_batch: contract_slot, ..self },
                            Account { stake_batch: None, ..account },
                            amount,
                        ),
                    ),
                }
            }
        } else {
            Ok((self, account, YoctoNear(0)))
        }
    }

    /// Takes all of the account's deposits back out of one stake batch and
    /// returns what is to be paid back to the account.
    pub fn withdraw_all_from_stake_batch_for_account(&mut self, account: &mut Account) -> (res:
        Result<YoctoNear, Error>)
        ensures
            state_meets(
                old(self).withdraw_all_from_stake_batch_for_account_spec(*old(account)),
                res,
                *old(self),
                *old(account),
                *final(self),
                *final(account),
            ),
    {
        if let Some(batch) = account.next_stake_batch {
            let amount = batch.balance.amount;
            let (contract_slot, _) = take_from(self.next_stake_batch, batch, amount)?;
            self.next_stake_batch = contract_slot;
            account.next_stake_batch = None;
            return Ok(amount);
        }
        if let Some(batch) = account.stake_batch {
            if !self.can_run_batch() {
                return Err(Error::BlockedByBatchRunning);
            }
            let amount = batch.balance.amount;
            let (contract_slot, _) = take_from(self.stake_batch, batch, amount)?;
            self.stake_batch = contract_slot;
            account.stake_batch = None;
            return Ok(amount);
        }
        Ok(YoctoNear(0))
    }

    /// What [`ContractState::withdraw_near_for_account`] comes to.
    ///
    /// The amount leaves the account's NEAR balance and the NEAR owed to
    /// accounts. Where less than the amount is owed in all, the rest is
    /// drawn from the liquidity pool.
    pub open spec fn withdraw_near_for_account_spec(self, account: Account, amount: YoctoNear) -> StateOutcome<
        YoctoNear,
    > {
        if account.near is None {
            Err(Error::AccountHasZeroNearBalance)
        } else if account.near_amount() < amount.0 {
            Err(Error::AccountNearBalanceTooLow)
        } else if self.total_near.amount.0 + self.near_liquidity_pool.0 < amount.0 {
            Err(Error::NearLiquidityPoolTooLow)
        } else {
            let debited = Account {
                near: if account.near_amount() == amount.0 {
                    None
                } else {
                    Some(
                        NearBalance { amount: YoctoNear((account.near_amount() - amount.0) as u128) },
                    )
                },
                ..account
            };
            if self.total_near.amount.0 < amount.0 {
                Ok(
                    (
                        ContractState {
                            total_near: NearBalance { amount: YoctoNear(0) },
                            near_liquidity_pool: YoctoNear(
                                (self.near_liquidity_pool.0 - (amount.0 - self.total_near.amount.0)) as u128,
                            ),
                            ..self
                        },
                        debited,
                        amount,
                    ),
                )
            } else {
                Ok(
                    (
                        ContractState {
                            total_near: NearBalance {
                                amount: YoctoNear((self.total_near.amount.0 - amount.0) as u128),
                            },
                            ..self
                        },
                        debited,
                        amount,
                    ),
                )
            }
        }
    }

    /// Takes `amount` out of the account's NEAR balance and returns what is
    /// to be paid to the account.
    pub fn withdraw_near_for_account(&mut self, account: &mut Account, amount: YoctoNear) -> (res:
        Result<YoctoNear, Error>)
        ensures
            state_meets(
                old(self).withdraw_near_for_account_spec(*old(account), amount),
                res,
                *old(self),
                *old(account),
                *final(self),
                *final(account),
            ),
    {
        let mut debited = *account;
        debited.apply_near_debit(amount)?;
        if self.total_near.amount.0 < amount.0 {
            let difference = amount.0 - self.total_near.amount.0;
            if self.near_liquidity_pool.0 < difference {
                return Err(Error::NearLiquidityPoolTooLow);
            }
            self.near_liquidity_pool = YoctoNear(self.near_liquidity_pool.0 - difference);
            self.total_near = NearBalance { amount: YoctoNear(0) };
        } else {
            self.total_near = NearBalance { amount: YoctoNear(self.total_near.amount.0 - amount.0) };
        }
        *account = debited;
        Ok(amount)
    }

    /// What [`ContractState::withdraw_all_near_for_account`] comes to: the
    /// account's whole NEAR balance is withdrawn, and an account without one
    /// gets nothing.
    pub open spec fn withdraw_all_near_for_account_spec(self, account: Account) -> StateOutcome<
        YoctoNear,
    > {
        match account.near {
            None => Ok((self, account, YoctoNear(0))),
            Some(balance) => self.withdraw_near_for_account_spec(account, balance.amount),
        }
    }

    /// Takes all of the account's NEAR balance out and returns what is to
    /// be paid to the account.
    pub fn withdraw_all_near_for_account(&mut self, account: &mut Account) -> (res: Result<
        YoctoNear,
        Error,
    >)
        ensures
            state_meets(
                old(self).withdraw_all_near_for_account_spec(*old(account)),
                res,
                *old(self),
                *old(account),
                *final(self),
                *final(account),
            ),
    {
        match account.near {
            None => Ok(YoctoNear(0)),
            Some(balance) => self.withdraw_near_for_account(account, balance.amount),
        }
    }
}

impl Contract {
    /// Takes the next batch number and returns an empty stake batch with it.
    pub fn new_stake_batch(&mut self) -> (res: Result<StakeBatch, Error>)
        ensures
            final(self)@.stake_batch_receipts == old(self)@.stake_batch_receipts,
            final(self)@.redeem_stake_batch_receipts == old(self)@.redeem_stake_batch_receipts,
            match old(self)@.state.new_stake_batch_spec() {
                Ok((state, batch)) => res == Ok::<StakeBatch, Error>(batch) && final(self)@.state
                    == state,
                Err(e) => res == Err::<StakeBatch, Error>(e) && final(self)@.state == old(self)@.state,
            },
    {
        self.state.new_stake_batch()
    }

    /// The least NEAR that an account's stake batch may hold.
    pub fn min_required_near_deposit(&self) -> (res: Result<YoctoNear, Error>)
        ensures
            self@.state.min_required_near_deposit_spec() <= u128::MAX ==> res == Ok::<
                YoctoNear,
                Error,
            >(YoctoNear(self@.state.min_required_near_deposit_spec() as u128)),
            self@.state.min_required_near_deposit_spec() > u128::MAX ==> res == Err::<
                YoctoNear,
                Error,
            >(Error::BalanceOverflow),
    {
        self.state.min_required_near_deposit()
    }

    /// Accepts a stake batch that holds at least the least deposit.
    pub fn check_stake_batch_min_required_near_balance(&self, batch: StakeBatch) -> (res: Result<
        (),
        Error,
    >)
        ensures
            res == self@.state.check_stake_batch_min_required_near_balance_spec(batch),
    {
        self.state.check_stake_batch_min_required_near_balance(batch)
    }

    /// Accepts an account whose stake batch of the given number, if it has
    /// one, holds at least the least deposit.
    pub fn check_min_required_near_deposit(&self, account: &Account, batch_id: BatchId) -> (res:
        Result<(), Error>)
        ensures
            res == self@.state.check_min_required_near_deposit_spec(*account, batch_id),
    {
        self.state.check_min_required_near_deposit(account, batch_id)
    }

    /// Batches NEAR of the account for staking and returns the number of
    /// the batch that took it.
    ///
    /// A deposit of zero is refused. The account is settled first. A
    /// refusal leaves the contract and the account as they were.
    pub fn deposit_near_for_account_to_stake(
        &mut self,
        account: &mut RegisteredAccount,
        amount: YoctoNear,
    ) -> (res: Result<BatchId, Error>)
        ensures
            final(account).id == old(account).id,
            meets(
                if amount.0 == 0 {
                    Err(Error::DepositRequiredForStake)
                } else {
                    settled_then(
                        old(self)@,
                        old(account).account,
                        |state: ContractState, account: Account|
                            state.batch_near_for_account_spec(account, amount),
                    )
                },
                res,
                old(self)@,
                old(account).account,
                final(self)@,
                final(account).account,
            ),
    {
        if amount.0 == 0 {
            return Err(Error::DepositRequiredForStake);
        }
        let mut plan = self.plan_claims(&account.account)?;
        let batch_id = plan.state.batch_near_for_account(&mut plan.account, amount)?;
        self.commit_claims(&plan);
        account.account = plan.account;
        Ok(batch_id)
    }

    /// Takes a deposit of the account: batches it for staking, checks that
    /// the account's batch then holds the least deposit, and returns the
    /// number of the batch.
    ///
    /// A deposit of zero is refused. The account is settled first. A
    /// refusal leaves the contract and the account as they were.
    pub fn deposit(&mut self, account: &mut RegisteredAccount, amount: YoctoNear) -> (res: Result<
        BatchId,
        Error,
    >)
        ensures
            final(account).id == old(account).id,
            meets(
                if amount.0 == 0 {
                    Err(Error::DepositRequiredForStake)
                } else {
                    settled_then(
                        old(self)@,
                        old(account).account,
                        |state: ContractState, account: Account|
                            state.deposit_for_account_spec(account, amount),
                    )
                },
                res,
                old(self)@,
                old(account).account,
                final(self)@,
                final(account).account,
            ),
    {
        if amount.0 == 0 {
            return Err(Error::DepositRequiredForStake);
        }
        let mut plan = self.plan_claims(&account.account)?;
        let batch_id = plan.state.deposit_for_account(&mut plan.account, amount)?;
        self.commit_claims(&plan);
        account.account = plan.account;
        Ok(batch_id)
    }

    /// Takes `amount` of the account's deposits back out of a stake batch
    /// and returns what is to be paid back to the account.
    ///
    /// The account is settled first. A refusal leaves the contract and the
    /// account as they were.
    pub fn withdraw_from_stake_batch(&mut self, account: &mut RegisteredAccount, amount: YoctoNear) -> (res:
        Result<YoctoNear, Error>)
        ensures
            final(account).id == old(account).id,
            meets(
                settled_then(
                    old(self)@,
                    old(account).account,
                    |state: ContractState, account: Account|
                        state.withdraw_from_stake_batch_for_account_spec(account, amount),
                ),
                res,
                old(self)@,
                old(account).account,
                final(self)@,
                final(account).account,
            ),
    {
        let mut plan = self.plan_claims(&account.account)?;
        let refund = plan.state.withdraw_from_stake_batch_for_account(&mut plan.account, amount)?;
        self.commit_claims(&plan);
        account.account = plan.account;
        Ok(refund)
    }

    /// Takes all of the account's deposits back out of one stake batch and
    /// returns what is to be paid back to the account.
    ///
    /// The account is settled first. A refusal leaves the contract and the
    /// account as they were.
    pub fn withdraw_all_from_stake_batch(&mut self, account: &mut RegisteredAccount) -> (res: Result<
        YoctoNear,
        Error,
    >)
        ensures
            final(account).id == old(account).id,
            meets(
                settled_then(
                    old(self)@,
                    old(account).account,
                    |state: ContractState, account: Account|
                        state.withdraw_all_from_stake_batch_for_account_spec(account),
                ),
                res,
                old(self)@,
                old(account).account,
                final(self)@,
                final(account).account,
            ),
    {
        let mut plan = self.plan_claims(&account.account)?;
        let refund = plan.state.withdraw_all_from_stake_batch_for_account(&mut plan.account)?;
        self.commit_claims(&plan);
        account.account = plan.account;
        Ok(refund)
    }

    /// Takes `amount` out of the account's NEAR balance and returns what is
    /// to be paid out.
    ///
    /// The account is settled first. A refusal leaves the contract and the
    /// account as they were.
    pub fn withdraw_near_funds(&mut self, account: &mut RegisteredAccount, amount: YoctoNear) -> (res:
        Result<YoctoNear, Error>)
        ensures
            final(account).id == old(account).id,
            meets(
                settled_then(
                    old(self)@,
                    old(account).account,
                    |state: ContractState, account: Account|
                        state.withdraw_near_for_account_spec(account, amount),
                ),
                res,
                old(self)@,
                old(account).account,
                final(self)@,
                final(account).account,
            ),
    {
        let mut plan = self.plan_claims(&account.account)?;
        let paid = plan.state.withdraw_near_for_account(&mut plan.account, amount)?;
        self.commit_claims(&plan);
        account.account = plan.account;
        Ok(paid)
    }

    /// Takes all of the account's NEAR balance out and returns what is to
    /// be paid out.
    ///
    /// The account is settled first. A refusal leaves the contract and the
    /// account as they were.
    pub fn withdraw_all(&mut self, account: &mut RegisteredAccount) -> (res: Result<YoctoNear, Error>)
        ensures
            final(account).id == old(account).id,
            meets(
                settled_then(
                    old(self)@,
                    old(account).account,
                    |state: ContractState, account: Account|
                        state.withdraw_all_near_for_account_spec(account),
                ),
                res,
                old(self)@,
                old(account).account,
                final(self)@,
                final(account).account,
            ),
    {
        let mut plan = self.plan_claims(&account.account)?;
        let paid = plan.state.withdraw_all_near_for_account(&mut plan.account)?;
        self.commit_claims(&plan);
        account.account = plan.account;
        Ok(paid)
    }
}

} // verus!
