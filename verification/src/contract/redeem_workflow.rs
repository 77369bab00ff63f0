//! The redeem round: from the start of a run to the withdrawal of the NEAR.

use crate::contract::claims::pending_withdrawal_closed;
use crate::contract::outcome::{meets, settled_then, Outcome};
use crate::contract::stake_workflow::{with_state, ActionOrValue};
use crate::contract::state::{Contract, ContractState, ContractView};
use crate::domain::account::{Account, RegisteredAccount};
use crate::domain::balance::{NearBalance, StakeBalance};
use crate::domain::batch_id::BatchId;
use crate::domain::block_time_height::EpochHeight;
use crate::domain::lock::RedeemLock;
use crate::domain::receipt::RedeemStakeBatchReceipt;
use crate::domain::staking_pool::StakingPoolAccount;
use crate::domain::yocto_near::YoctoNear;
use crate::domain::yocto_stake::YoctoStake;
use crate::errors::Error;
use vstd::prelude::*;

verus! {

/// The calls that the caller makes at the venue for a redeem round, and the
/// callback with which it hands the venue's answer back.
#[derive(Clone, Copy, Debug, PartialEq, Eq, Structural)]
pub enum RedeemAction {
    /// Ask the venue for the contract's account and continue with
    /// [`Contract::on_run_redeem_stake_batch`]; at the end of the chain,
    /// call [`Contract::clear_redeem_lock`].
    GetAccountToRunRedeemStakeBatch,
    /// Ask the venue for the contract's account and continue with
    /// [`Contract::on_redeeming_stake_pending_withdrawal`].
    GetAccountToWithdraw,
    /// Unstake `amount` and continue with [`Contract::on_unstake`].
    Unstake { amount: YoctoNear },
    /// Withdraw `amount`, ask for the account again, and continue with
    /// [`Contract::on_run_redeem_stake_batch`].
    WithdrawThenRunRedeemStakeBatch { amount: YoctoNear },
    /// Withdraw `amount` and continue with
    /// [`Contract::on_redeeming_stake_post_withdrawal`].
    Withdraw { amount: YoctoNear },
}

impl ContractState {
    /// What [`Contract::unstake`] makes of the state.
    ///
    /// With no redeem round running, one is started for the current redeem
    /// batch. While the NEAR of a round waits at the venue, its withdrawal
    /// is tried again.
    pub open spec fn unstake_spec(self) -> Result<(ContractState, RedeemAction), Error> {
        if !self.can_run_batch_spec() {
            Err(Error::BlockedByBatchRunning)
        } else if self.redeem_stake_batch_lock is Some {
            Ok((self, RedeemAction::GetAccountToWithdraw))
        } else if self.redeem_stake_batch is None {
            Err(Error::NoRedeemStakeBatchToRun)
        } else {
            Ok(
                (
                    ContractState {
                        redeem_stake_batch_lock: Some(RedeemLock::Unstaking),
                        ..self
                    },
                    RedeemAction::GetAccountToRunRedeemStakeBatch,
                ),
            )
        }
    }

    /// Starts a redeem round, or tries the withdrawal of the running one
    /// again. A refusal leaves the state as it was.
    pub fn unstake(&mut self) -> (res: Result<RedeemAction, Error>)
        ensures
            match old(self).unstake_spec() {
                Ok((state, action)) => res == Ok::<RedeemAction, Error>(action) && *final(self)
                    == state,
                Err(e) => res == Err::<RedeemAction, Error>(e) && *final(self) == *old(self),
            },
    {
        if !self.can_run_batch() {
            return Err(Error::BlockedByBatchRunning);
        }
        match self.redeem_stake_batch_lock {
            None => {
                if self.redeem_stake_batch.is_none() {
                    return Err(Error::NoRedeemStakeBatchToRun);
                }
                self.redeem_stake_batch_lock = Some(RedeemLock::Unstaking);
                Ok(RedeemAction::GetAccountToRunRedeemStakeBatch)
            },
            Some(_) => Ok(RedeemAction::GetAccountToWithdraw),
        }
    }

    /// What [`Contract::on_run_redeem_stake_batch`] answers.
    ///
    /// Where nothing lies unstaked at the venue, the NEAR that the batch is
    /// worth at the recorded share value is unstaked. Else what lies there
    /// is withdrawn first, which the venue must allow.
    pub open spec fn on_run_redeem_stake_batch_spec(
        self,
        staking_pool_account: StakingPoolAccount,
    ) -> Result<RedeemAction, Error> {
        if self.redeem_stake_batch_lock != Some(RedeemLock::Unstaking) {
            Err(Error::RedeemLockShouldBeUnstaking)
        } else if self.redeem_stake_batch is None {
            Err(Error::RedeemStakeBatchShouldExist)
        } else if staking_pool_account.unstaked_balance.0 > 0 {
            if staking_pool_account.can_withdraw {
                Ok(
                    RedeemAction::WithdrawThenRunRedeemStakeBatch {
                        amount: staking_pool_account.unstaked_balance,
                    },
                )
            } else {
                Err(Error::UnstakedFundsNotAvailableForWithdrawal)
            }
        } else {
            let near = self.stake_token_value.stake_to_near_spec(
                self.redeem_stake_batch->0.balance.amount,
            );
            if near > u128::MAX {
                Err(Error::BalanceOverflow)
            } else {
                Ok(RedeemAction::Unstake { amount: YoctoNear(near as u128) })
            }
        }
    }

    /// What [`Contract::on_unstake`] makes of the state, together with the
    /// receipt of the batch.
    ///
    /// The batch is settled at the recorded share value, its shares leave
    /// the supply, and the round now waits for the venue to release the
    /// NEAR.
    pub open spec fn on_unstake_spec(self) -> Result<
        (ContractState, BatchId, RedeemStakeBatchReceipt),
        Error,
    > {
        if self.redeem_stake_batch_lock != Some(RedeemLock::Unstaking) {
            Err(Error::RedeemLockShouldBeUnstaking)
        } else if self.redeem_stake_batch is None {
            Err(Error::RedeemStakeBatchShouldExist)
        } else if self.total_stake.amount.0 < self.redeem_stake_batch->0.balance.amount.0 {
            Err(Error::BalanceTooLow)
        } else {
            let batch = self.redeem_stake_batch->0;
            Ok(
                (
                    ContractState {
                        total_stake: StakeBalance {
                            amount: YoctoStake(
                                (self.total_stake.amount.0 - batch.balance.amount.0) as u128,
                            ),
                        },
                        redeem_stake_batch_lock: Some(RedeemLock::PendingWithdrawal),
                        ..self
                    },
                    batch.batch_id,
                    RedeemStakeBatchReceipt::new_spec(batch.balance.amount, self.stake_token_value),
                ),
            )
        }
    }

    /// What [`Contract::clear_redeem_lock`] makes of the state: the lock is
    /// dropped only where the round is still unstaking, which means that a
    /// step of it has failed.
    pub open spec fn clear_redeem_lock_spec(self) -> ContractState {
        if self.redeem_stake_batch_lock == Some(RedeemLock::Unstaking) {
            ContractState { redeem_stake_batch_lock: None, ..self }
        } else {
            self
        }
    }

    /// What [`Contract::on_redeeming_stake_post_withdrawal`] makes of the
    /// state: what is unclaimed on the receipt is now owed to accounts, and
    /// the round is closed.
    pub open spec fn on_redeeming_stake_post_withdrawal_spec(
        self,
        pending: Option<RedeemStakeBatchReceipt>,
    ) -> Result<(ContractState, BatchId), Error> {
        if self.redeem_stake_batch_lock != Some(RedeemLock::PendingWithdrawal) {
            Err(Error::RedeemLockShouldBePendingWithdrawal)
        } else if self.redeem_stake_batch is None {
            Err(Error::RedeemStakeBatchShouldExist)
        } else if pending is None {
            Err(Error::RedeemStakeBatchReceiptShouldExist)
        } else {
            let owed = pending->0.stake_token_value.stake_to_near_spec(pending->0.redeemed_stake);
            if owed > u128::MAX || self.total_near.amount.0 + owed > u128::MAX {
                Err(Error::BalanceOverflow)
            } else {
                Ok(
                    (
                        pending_withdrawal_closed(
                            ContractState {
                                total_near: NearBalance {
                                    amount: YoctoNear((self.total_near.amount.0 + owed) as u128),
                                },
                                ..self
                            },
                        ),
                        self.redeem_stake_batch->0.batch_id,
                    ),
                )
            }
        }
    }

    /// Closes the redeem round after the NEAR was withdrawn from the venue.
    /// A refusal leaves the state as it was.
    pub fn on_redeeming_stake_post_withdrawal(
        &mut self,
        pending: Option<RedeemStakeBatchReceipt>,
    ) -> (res: Result<BatchId, Error>)
        ensures
            match old(self).on_redeeming_stake_post_withdrawal_spec(pending) {
                Ok((state, batch_id)) => res == Ok::<BatchId, Error>(batch_id) && *final(self)
                    == state,
                Err(e) => res == Err::<BatchId, Error>(e) && *final(self) == *old(self),
            },
    {
        match self.redeem_stake_batch_lock {
            Some(RedeemLock::PendingWithdrawal) => {},
            _ => { return Err(Error::RedeemLockShouldBePendingWithdrawal); },
        }
        let batch = match self.redeem_stake_batch {
            Some(batch) => batch,
            None => { return Err(Error::RedeemStakeBatchShouldExist); },
        };
        let receipt = match pending {
            Some(receipt) => receipt,
            None => { return Err(Error::RedeemStakeBatchReceiptShouldExist); },
        };
        proof {
            receipt.stake_token_value.lemma_conversion_bounds(YoctoNear(0), receipt.redeemed_stake);
        }
        let owed = match receipt.stake_near_value() {
            Some(owed) => owed,
            None => { return Err(Error::BalanceOverflow); },
        };
        let total_near = match self.total_near.amount.checked_add(owed) {
            Some(total) => total,
            None => { return Err(Error::BalanceOverflow); },
        };
        self.total_near = NearBalance { amount: total_near };
        self.redeem_stake_batch_lock = None;
        self.redeem_stake_batch = self.next_redeem_stake_batch;
        self.next_redeem_stake_batch = None;
        Ok(batch.batch_id)
    }

    /// What [`Contract::on_redeeming_stake_pending_withdrawal`] comes to.
    ///
    /// What lies unstaked at the venue is withdrawn, which the venue must
    /// allow. Where nothing lies there any more, the round is closed at once.
    pub open spec fn on_redeeming_stake_pending_withdrawal_spec(
        self,
        pending: Option<RedeemStakeBatchReceipt>,
        staking_pool_account: StakingPoolAccount,
    ) -> Result<(ContractState, ActionOrValue<RedeemAction, BatchId>), Error> {
        if self.redeem_stake_batch_lock != Some(RedeemLock::PendingWithdrawal) {
            Err(Error::RedeemLockShouldBePendingWithdrawal)
        } else if self.redeem_stake_batch is None {
            Err(Error::RedeemStakeBatchShouldExist)
        } else if staking_pool_account.unstaked_balance.0 > 0 {
            if staking_pool_account.can_withdraw {
                Ok(
                    (
                        self,
                        ActionOrValue::Action(
                            RedeemAction::Withdraw { amount: staking_pool_account.unstaked_balance },
                        ),
                    ),
                )
            } else {
                Err(Error::UnstakedFundsNotAvailableForWithdrawal)
            }
        } else {
            match self.on_redeeming_stake_post_withdrawal_spec(pending) {
                Err(e) => Err(e),
                Ok((state, batch_id)) => Ok((state, ActionOrValue::Value(batch_id))),
            }
        }
    }
}

/// What [`Contract::can_unstake`] answers.
///
/// A redeem round can be started where a stake round could be and a redeem
/// batch exists. The withdrawal of a round that waits can be tried once the
/// venue's hold on the NEAR has run out.
pub open spec fn can_unstake_spec(contract: ContractView, current: EpochHeight) -> Result<bool, Error> {
    if !contract.state.can_run_batch_spec() {
        Ok(false)
    } else if contract.state.redeem_stake_batch_lock is None {
        Ok(contract.state.redeem_stake_batch is Some)
    } else if contract.state.redeem_stake_batch is None {
        Err(Error::RedeemStakeBatchShouldExist)
    } else if contract.pending_withdrawal() is None {
        Err(Error::RedeemStakeBatchReceiptShouldExist)
    } else {
        Ok(contract.pending_withdrawal()->0.unstaked_funds_available_for_withdrawal_spec(current))
    }
}

/// What [`Contract::on_unstake`] comes to.
pub open spec fn on_unstake_spec(contract: ContractView) -> Result<ContractView, Error> {
    match contract.state.on_unstake_spec() {
        Err(e) => Err(e),
        Ok((state, batch_id, receipt)) => Ok(
            ContractView {
                state,
                redeem_stake_batch_receipts: contract.redeem_stake_batch_receipts.insert(
                    batch_id.0,
                    receipt,
                ),
                ..contract
            },
        ),
    }
}

/// After a redemption was batched: the action that starts a redeem round
/// where one can be started, else `value`.
pub open spec fn unstake_or<T>(contract: ContractView, account: Account, current: EpochHeight, value: T) -> Outcome<
    ActionOrValue<RedeemAction, T>,
> {
    match can_unstake_spec(contract, current) {
        Err(e) => Err(e),
        Ok(false) => Ok((contract, account, ActionOrValue::Value(value))),
        Ok(true) => match contract.state.unstake_spec() {
            Err(e) => Err(e),
            Ok((state, action)) => Ok(
                (with_state(contract, state), account, ActionOrValue::Action(action)),
            ),
        },
    }
}

/// What [`Contract::redeem_and_unstake`] comes to.
pub open spec fn redeem_and_unstake_spec(
    contract: ContractView,
    account: Account,
    amount: YoctoStake,
    current: EpochHeight,
) -> Outcome<ActionOrValue<RedeemAction, BatchId>> {
    if amount.0 == 0 {
        Err(Error::ZeroRedeemAmount)
    } else {
        match settled_then(
            contract,
            account,
            |state: ContractState, account: Account|
                state.batch_stake_for_account_spec(account, amount),
        ) {
            Err(e) => Err(e),
            Ok((contract, account, batch_id)) => unstake_or(contract, account, current, batch_id),
        }
    }
}

/// What [`Contract::redeem_all_and_unstake`] comes to.
pub open spec fn redeem_all_and_unstake_spec(
    contract: ContractView,
    account: Account,
    current: EpochHeight,
) -> Outcome<ActionOrValue<RedeemAction, Option<BatchId>>> {
    match settled_then(
        contract,
        account,
        |state: ContractState, account: Account| state.redeem_all_for_account_spec(account),
    ) {
        Err(e) => Err(e),
        Ok((contract, account, batch_id)) => if batch_id is None {
            Ok((contract, account, ActionOrValue::Value(None)))
        } else {
            unstake_or(contract, account, current, batch_id)
        },
    }
}

/// Whether a redeem round can be started or continued, given the state and
/// the receipt of the current redeem batch.
fn can_unstake_with(
    state: &ContractState,
    pending: Option<RedeemStakeBatchReceipt>,
    current: EpochHeight,
) -> (res: Result<bool, Error>)
    ensures
        res == (if !state.can_run_batch_spec() {
            Ok::<bool, Error>(false)
        } else if state.redeem_stake_batch_lock is None {
            Ok::<bool, Error>(state.redeem_stake_batch is Some)
        } else if state.redeem_stake_batch is None {
            Err::<bool, Error>(Error::RedeemStakeBatchShouldExist)
        } else if pending is None {
            Err::<bool, Error>(Error::RedeemStakeBatchReceiptShouldExist)
        } else {
            Ok::<bool, Error>(
                pending->0.unstaked_funds_available_for_withdrawal_spec(current),
            )
        }),
{
    if !state.can_run_batch() {
        return Ok(false);
    }
    match state.redeem_stake_batch_lock {
        None => Ok(state.redeem_stake_batch.is_some()),
        Some(_) => {
            if state.redeem_stake_batch.is_none() {
                return Err(Error::RedeemStakeBatchShouldExist);
            }
            match pending {
                Some(receipt) => Ok(receipt.unstaked_funds_available_for_withdrawal(current)),
                None => Err(Error::RedeemStakeBatchReceiptShouldExist),
            }
        },
    }
}

impl Contract {
    /// Whether [`Contract::unstake`] would go ahead in the epoch `current`.
    pub fn can_unstake(&self, current: EpochHeight) -> (res: Result<bool, Error>)
        ensures
            res == can_unstake_spec(self@, current),
    {
        can_unstake_with(&self.state, self.get_pending_withdrawal(), current)
    }

    /// Starts a redeem round, or tries the withdrawal of the running one
    /// again, and tells which calls to make at the venue.
    ///
    /// Refused while a stake round or a refresh is running, while the venue
    /// is unstaking, and where there is no redeem batch. A refusal leaves
    /// the contract as it was.
    pub fn unstake(&mut self) -> (res: Result<RedeemAction, Error>)
        ensures
            match old(self)@.state.unstake_spec() {
                Ok((state, action)) => res == Ok::<RedeemAction, Error>(action) && final(self)@
                    == with_state(old(self)@, state),
                Err(e) => res == Err::<RedeemAction, Error>(e) && final(self)@ == old(self)@,
            },
    {
        self.state.unstake()
    }

    /// Takes the venue's answer to
    /// [`RedeemAction::GetAccountToRunRedeemStakeBatch`] and tells which
    /// call comes next. The contract is not changed.
    pub fn on_run_redeem_stake_batch(&self, staking_pool_account: StakingPoolAccount) -> (res:
        Result<RedeemAction, Error>)
        ensures
            res == self@.state.on_run_redeem_stake_batch_spec(staking_pool_account),
    {
        match self.state.redeem_stake_batch_lock {
            Some(RedeemLock::Unstaking) => {},
            _ => { return Err(Error::RedeemLockShouldBeUnstaking); },
        }
        let batch = match self.state.redeem_stake_batch {
            Some(batch) => batch,
            None => { return Err(Error::RedeemStakeBatchShouldExist); },
        };
        if staking_pool_account.unstaked_balance.0 > 0 {
            if staking_pool_account.can_withdraw {
                return Ok(
                    RedeemAction::WithdrawThenRunRedeemStakeBatch {
                        amount: staking_pool_account.unstaked_balance,
                    },
                );
            }
            return Err(Error::UnstakedFundsNotAvailableForWithdrawal);
        }
        proof {
            self.state.stake_token_value.lemma_conversion_bounds(
                YoctoNear(0),
                batch.balance.amount,
            );
        }
        match self.state.stake_token_value.checked_stake_to_near(batch.balance.amount) {
            Some(amount) => Ok(RedeemAction::Unstake { amount }),
            None => Err(Error::BalanceOverflow),
        }
    }

    /// Records that the venue has unstaked the batch: stores the receipt of
    /// the batch at the recorded share value, takes its shares out of the
    /// supply, and lets the round wait for the withdrawal.
    ///
    /// Refused, with the contract unchanged, where no round is unstaking.
    pub fn on_unstake(&mut self) -> (res: Result<(), Error>)
        ensures
            match on_unstake_spec(old(self)@) {
                Ok(contract) => res.is_ok() && final(self)@ == contract,
                Err(e) => res == Err::<(), Error>(e) && final(self)@ == old(self)@,
            },
    {
        match self.state.redeem_stake_batch_lock {
            Some(RedeemLock::Unstaking) => {},
            _ => { return Err(Error::RedeemLockShouldBeUnstaking); },
        }
        let batch = match self.state.redeem_stake_batch {
            Some(batch) => batch,
            None => { return Err(Error::RedeemStakeBatchShouldExist); },
        };
        let total_stake = match self.state.total_stake.amount.checked_sub(batch.balance.amount) {
            Some(total) => total,
            None => { return Err(Error::BalanceTooLow); },
        };
        let receipt = batch.create_receipt(self.state.stake_token_value);
        self.redeem_stake_batch_receipts.insert(batch.batch_id, receipt);
        self.state.total_stake = StakeBalance { amount: total_stake };
        self.state.redeem_stake_batch_lock = Some(RedeemLock::PendingWithdrawal);
        Ok(())
    }

    /// Drops the redeem lock after a chain of calls has ended, where the
    /// round is still unstaking: a step of the chain has failed then.
    pub fn clear_redeem_lock(&mut self)
        ensures
            final(self)@ == with_state(old(self)@, old(self)@.state.clear_redeem_lock_spec()),
    {
        match self.state.redeem_stake_batch_lock {
            Some(RedeemLock::Unstaking) => {
                self.state.redeem_stake_batch_lock = None;
            },
            _ => {},
        }
    }

    /// Takes the venue's answer to [`RedeemAction::GetAccountToWithdraw`]:
    /// tells to withdraw what lies unstaked, or closes the round where
    /// nothing lies there and returns the number of its batch.
    ///
    /// A refusal leaves the contract as it was.
    pub fn on_redeeming_stake_pending_withdrawal(
        &mut self,
        staking_pool_account: StakingPoolAccount,
    ) -> (res: Result<ActionOrValue<RedeemAction, BatchId>, Error>)
        ensures
            match old(self)@.state.on_redeeming_stake_pending_withdrawal_spec(
                old(self)@.pending_withdrawal(),
                staking_pool_account,
            ) {
                Ok((state, outcome)) => res == Ok::<ActionOrValue<RedeemAction, BatchId>, Error>(
                    outcome,
                ) && final(self)@ == with_state(old(self)@, state),
                Err(e) => res == Err::<ActionOrValue<RedeemAction, BatchId>, Error>(e) && final(self)@ == old(self)@,
            },
    {
        match self.state.redeem_stake_batch_lock {
            Some(RedeemLock::PendingWithdrawal) => {},
            _ => { return Err(Error::RedeemLockShouldBePendingWithdrawal); },
        }
        if self.state.redeem_stake_batch.is_none() {
            return Err(Error::RedeemStakeBatchShouldExist);
        }
        if staking_pool_account.unstaked_balance.0 > 0 {
            if staking_pool_account.can_withdraw {
                return Ok(
                    ActionOrValue::Action(
                        RedeemAction::Withdraw { amount: staking_pool_account.unstaked_balance },
                    ),
                );
            }
            return Err(Error::UnstakedFundsNotAvailableForWithdrawal);
        }
        let batch_id = self.on_redeeming_stake_post_withdrawal()?;
        Ok(ActionOrValue::Value(batch_id))
    }

    /// Closes the redeem round after the NEAR was withdrawn from the
    /// venue: what is unclaimed on the receipt is now owed to accounts, the
    /// lock is dropped, and the next redeem batch becomes the current one.
    /// Returns the number of the batch of the round.
    ///
    /// A refusal leaves the contract as it was.
    pub fn on_redeeming_stake_post_withdrawal(&mut self) -> (res: Result<BatchId, Error>)
        ensures
            match old(self)@.state.on_redeeming_stake_post_withdrawal_spec(
                old(self)@.pending_withdrawal(),
            ) {
                Ok((state, batch_id)) => res == Ok::<BatchId, Error>(batch_id) && final(self)@
                    == with_state(old(self)@, state),
                Err(e) => res == Err::<BatchId, Error>(e) && final(self)@ == old(self)@,
            },
    {
        let pending = self.get_pending_withdrawal();
        self.state.on_redeeming_stake_post_withdrawal(pending)
    }

    /// Batches `amount` shares of the account for redemption and starts a
    /// redeem round where one can be started in the epoch `current`; else
    /// returns the number of the batch that took the shares.
    ///
    /// A refusal leaves the contract and the account as they were.
    pub fn redeem_and_unstake(
        &mut self,
        account: &mut RegisteredAccount,
        amount: YoctoStake,
        current: EpochHeight,
    ) -> (res: Result<ActionOrValue<RedeemAction, BatchId>, Error>)
        ensures
            final(account).id == old(account).id,
            meets(
                redeem_and_unstake_spec(old(self)@, old(account).account, amount, current),
                res,
                old(self)@,
                old(account).account,
                final(self)@,
                final(account).account,
            ),
    {
        if amount.0 == 0 {
            return Err(Error::ZeroRedeemAmount);
        }
        let mut plan = self.plan_claims(&account.account)?;
        let batch_id = plan.state.batch_stake_for_account(&mut plan.account, amount)?;
        let pending = match plan.state.redeem_stake_batch {
            Some(batch) => self.redeem_stake_batch_receipts.get_after(
                &plan.redeem_writes,
                batch.batch_id,
            ),
            None => None,
        };
        let outcome = if can_unstake_with(&plan.state, pending, current)? {
            ActionOrValue::Action(plan.state.unstake()?)
        } else {
            ActionOrValue::Value(batch_id)
        };
        self.commit_claims(&plan);
        account.account = plan.account;
        Ok(outcome)
    }

    /// Batches all the shares that the account owns for redemption and
    /// starts a redeem round where one can be started in the epoch
    /// `current`; else returns the number of the batch that took the
    /// shares. An account without a share balance gives nothing.
    ///
    /// A refusal leaves the contract and the account as they were.
    pub fn redeem_all_and_unstake(&mut self, account: &mut RegisteredAccount, current: EpochHeight) -> (res:
        Result<ActionOrValue<RedeemAction, Option<BatchId>>, Error>)
        ensures
            final(account).id == old(account).id,
            meets(
                redeem_all_and_unstake_spec(old(self)@, old(account).account, current),
                res,
                old(self)@,
                old(account).account,
                final(self)@,
                final(account).account,
            ),
    {
        let mut plan = self.plan_claims(&account.account)?;
        let batch_id = plan.state.redeem_all_for_account(&mut plan.account)?;
        let outcome = if batch_id.is_none() {
            ActionOrValue::Value(None)
        } else {
            let pending = match plan.state.redeem_stake_batch {
                Some(batch) => self.redeem_stake_batch_receipts.get_after(
                    &plan.redeem_writes,
                    batch.batch_id,
                ),
                None => None,
            };
            if can_unstake_with(&plan.state, pending, current)? {
                ActionOrValue::Action(plan.state.unstake()?)
            } else {
                ActionOrValue::Value(batch_id)
            }
        };
        self.commit_claims(&plan);
        account.account = plan.account;
        Ok(outcome)
    }
}

} // verus!
