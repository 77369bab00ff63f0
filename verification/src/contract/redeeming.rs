//! Giving shares into the redeem batches and taking them back out.

use crate::contract::outcome::{meets, settled_then, state_meets, StateOutcome};
use crate::contract::state::{Contract, ContractState};
use crate::domain::account::{Account, RegisteredAccount};
use crate::domain::balance::StakeBalance;
use crate::domain::batch::RedeemStakeBatch;
use crate::domain::batch_id::BatchId;
use crate::domain::yocto_stake::YoctoStake;
use crate::errors::Error;
use vstd::prelude::*;

verus! {

/// A redeem batch with the given number and balance.
pub open spec fn redeem_stake_batch(batch_id: BatchId, amount: int) -> RedeemStakeBatch {
    RedeemStakeBatch { batch_id, balance: StakeBalance { amount: YoctoStake(amount as u128) } }
}

/// Gives `amount` into a batch of the contract and the account's batch of
/// the same number.
///
/// A slot that is empty is filled: the contract's with a batch of the number
/// `fresh`, the account's with a batch of the contract's number. The result
/// holds both batches, the contract's first.
pub open spec fn pay_into_redeem_batches(
    contract_slot: Option<RedeemStakeBatch>,
    account_slot: Option<RedeemStakeBatch>,
    fresh: BatchId,
    amount: YoctoStake,
) -> Result<(RedeemStakeBatch, RedeemStakeBatch), Error> {
    let contract_batch = match contract_slot {
        Some(batch) => batch,
        None => redeem_stake_batch(fresh, 0),
    };
    let account_batch = match account_slot {
        Some(batch) => batch,
        None => redeem_stake_batch(contract_batch.batch_id, 0),
    };
    if contract_batch.balance.amount.0 + amount.0 > u128::MAX {
        Err(Error::BalanceOverflow)
    } else if account_batch.batch_id != contract_batch.batch_id {
        Err(Error::BatchIdMismatch)
    } else if account_batch.balance.amount.0 + amount.0 > u128::MAX {
        Err(Error::BalanceOverflow)
    } else {
        Ok(
            (
                redeem_stake_batch(
                    contract_batch.batch_id,
                    contract_batch.balance.amount.0 + amount.0,
                ),
                redeem_stake_batch(account_batch.batch_id, account_batch.balance.amount.0 + amount.0),
            ),
        )
    }
}

/// Takes `amount` out of a batch of the contract and the account's batch of
/// the same number. The result holds both slots afterwards, the contract's
/// first: a batch that is left empty is deleted.
pub open spec fn take_from_redeem_batches(
    contract_slot: Option<RedeemStakeBatch>,
    account_batch: RedeemStakeBatch,
    amount: YoctoStake,
) -> Result<(Option<RedeemStakeBatch>, Option<RedeemStakeBatch>), Error> {
    if amount.0 > account_batch.balance.amount.0 {
        Err(Error::BatchBalanceInsufficient)
    } else if contract_slot is None {
        Err(Error::RedeemStakeBatchShouldExist)
    } else if contract_slot->0.batch_id != account_batch.batch_id {
        Err(Error::BatchIdMismatch)
    } else if amount.0 > contract_slot->0.balance.amount.0 {
        Err(Error::BatchBalanceInsufficient)
    } else {
        Ok(
            (
                if contract_slot->0.balance.amount.0 == amount.0 {
                    None
                } else {
                    Some(
                        redeem_stake_batch(
                            account_batch.batch_id,
                            contract_slot->0.balance.amount.0 - amount.0,
                        ),
                    )
                },
                if account_batch.balance.amount.0 == amount.0 {
                    None
                } else {
                    Some(
                        redeem_stake_batch(
                            account_batch.batch_id,
                            account_batch.balance.amount.0 - amount.0,
                        ),
                    )
                },
            ),
        )
    }
}

fn pay_into(
    contract_slot: Option<RedeemStakeBatch>,
    account_slot: Option<RedeemStakeBatch>,
    fresh: BatchId,
    amount: YoctoStake,
) -> (res: Result<(RedeemStakeBatch, RedeemStakeBatch), Error>)
    ensures
        res == pay_into_redeem_batches(contract_slot, account_slot, fresh, amount),
{
    let mut contract_batch = match contract_slot {
        Some(batch) => batch,
        None => fresh.new_redeem_stake_batch(),
    };
    contract_batch.add(amount)?;
    let mut account_batch = match account_slot {
        Some(batch) => batch,
        None => contract_batch.batch_id.new_redeem_stake_batch(),
    };
    if account_batch.batch_id.0 != contract_batch.batch_id.0 {
        return Err(Error::BatchIdMismatch);
    }
    account_batch.add(amount)?;
    Ok((contract_batch, account_batch))
}

fn take_from(
    contract_slot: Option<RedeemStakeBatch>,
    account_batch: RedeemStakeBatch,
    amount: YoctoStake,
) -> (res: Result<(Option<RedeemStakeBatch>, Option<RedeemStakeBatch>), Error>)
    ensures
        res == take_from_redeem_batches(contract_slot, account_batch, amount),
{
    let mut account_batch = account_batch;
    let account_rest = account_batch.remove(amount)?;
    let mut contract_batch = match contract_slot {
        Some(batch) => batch,
        None => { return Err(Error::RedeemStakeBatchShouldExist); },
    };
    if contract_batch.batch_id.0 != account_batch.batch_id.0 {
        return Err(Error::BatchIdMismatch);
    }
    let contract_rest = contract_batch.remove(amount)?;
    Ok(
        (
            if contract_rest.0 == 0 {
                None
            } else {
                Some(contract_batch)
            },
            if account_rest.0 == 0 {
                None
            } else {
                Some(account_batch)
            },
        ),
    )
}

impl ContractState {
    /// What [`ContractState::new_redeem_stake_batch`] comes to.
    pub open spec fn new_redeem_stake_batch_spec(self) -> Result<
        (ContractState, RedeemStakeBatch),
        Error,
    > {
        if self.batch_id_sequence.0 == u128::MAX {
            Err(Error::BatchIdSequenceExhausted)
        } else {
            Ok(
                (
                    ContractState { batch_id_sequence: self.fresh_batch_id(), ..self },
                    redeem_stake_batch(self.fresh_batch_id(), 0),
                ),
            )
        }
    }

    /// Takes the next batch number and returns an empty redeem batch with
    /// it. Refused, with the state unchanged, where the numbers are used up.
    pub fn new_redeem_stake_batch(&mut self) -> (res: Result<RedeemStakeBatch, Error>)
        ensures
            match old(self).new_redeem_stake_batch_spec() {
                Ok((state, batch)) => res == Ok::<RedeemStakeBatch, Error>(batch) && *final(self)
                    == state,
                Err(e) => res == Err::<RedeemStakeBatch, Error>(e) && *final(self) == *old(self),
            },
    {
        match self.batch_id_sequence.next() {
            Some(id) => {
                self.batch_id_sequence = id;
                Ok(id.new_redeem_stake_batch())
            },
            None => Err(Error::BatchIdSequenceExhausted),
        }
    }

    /// What [`ContractState::batch_stake_for_account`] comes to.
    ///
    /// The shares leave the account's balance at once. While no redeem
    /// round is running they go to the current batch of the contract and of
    /// the account, else to the next batch of both. A batch that the
    /// contract lacks is made with a fresh number, and one that the account
    /// lacks with the number of the contract's batch. An account whose batch
    /// in that slot has another number than the contract's is refused.
    pub open spec fn batch_stake_for_account_spec(self, account: Account, amount: YoctoStake) -> StateOutcome<
        BatchId,
    > {
        let current = self.redeem_stake_batch_lock is None;
        let contract_slot = if current {
            self.redeem_stake_batch
        } else {
            self.next_redeem_stake_batch
        };
        let account_slot = if current {
            account.redeem_stake_batch
        } else {
            account.next_redeem_stake_batch
        };
        if account.stake is None || account.stake_amount() < amount.0 {
            Err(Error::InsufficientStakeForRedeemRequest)
        } else if contract_slot is None && self.batch_id_sequence.0 == u128::MAX {
            Err(Error::BatchIdSequenceExhausted)
        } else {
            match pay_into_redeem_batches(
                contract_slot,
                account_slot,
                self.fresh_batch_id(),
                amount,
            ) {
                Err(e) => Err(e),
                Ok((contract_batch, account_batch)) => {
                    let sequence = if contract_slot is None {
                        self.fresh_batch_id()
                    } else {
                        self.batch_id_sequence
                    };
                    let stake = if account.stake_amount() == amount.0 {
                        None
                    } else {
                        Some(
                            StakeBalance {
                                amount: YoctoStake((account.stake_amount() - amount.0) as u128),
                            },
                        )
                    };
                    Ok(
                        if current {
                            (
                                ContractState {
                                    redeem_stake_batch: Some(contract_batch),
                                    batch_id_sequence: sequence,
                                    ..self
                                },
                                Account {
                                    stake,
                                    redeem_stake_batch: Some(account_batch),
                                    ..account
                                },
                                account_batch.batch_id,
                            )
                        } else {
                            (
                                ContractState {
                                    next_redeem_stake_batch: Some(contract_batch),
                                    batch_id_sequence: sequence,
                                    ..self
                                },
                                Account {
                                    stake,
                                    next_redeem_stake_batch: Some(account_batch),
                                    ..account
                                },
                                account_batch.batch_id,
                            )
                        },
                    )
                },
            }
        }
    }

    /// Moves `amount` shares from the account's balance into the redeem
    /// batch that takes redemptions now, for the contract and for the
    /// account, and returns the number of that batch.
    pub fn batch_stake_for_account(&mut self, account: &mut Account, amount: YoctoStake) -> (res:
        Result<BatchId, Error>)
        ensures
            state_meets(
                old(self).batch_stake_for_account_spec(*old(account), amount),
                res,
                *old(self),
                *old(account),
                *final(self),
                *final(account),
            ),
    {
        if !account.can_redeem(amount) {
            return Err(Error::InsufficientStakeForRedeemRequest);
        }
        let current = self.redeem_stake_batch_lock.is_none();
        let contract_slot = if current {
            self.redeem_stake_batch
        } else {
            self.next_redeem_stake_batch
        };
        let account_slot = if current {
            account.redeem_stake_batch
        } else {
            account.next_redeem_stake_batch
        };
        let mut sequence = self.batch_id_sequence;
        if contract_slot.is_none() {
            sequence = match self.batch_id_sequence.next() {
                Some(id) => id,
                None => { return Err(Error::BatchIdSequenceExhausted); },
            };
        }
        let (contract_batch, account_batch) = pay_into(
            contract_slot,
            account_slot,
            sequence,
            amount,
        )?;
        let mut debited = *account;
        debited.apply_stake_debit(amount)?;
        self.batch_id_sequence = sequence;
        account.stake = debited.stake;
        if current {
            self.redeem_stake_batch = Some(contract_batch);
            account.redeem_stake_batch = Some(account_batch);
        } else {
            self.next_redeem_stake_batch = Some(contract_batch);
            account.next_redeem_stake_batch = Some(account_batch);
        }
        Ok(account_batch.batch_id)
    }

    /// What [`ContractState::redeem_for_account`] comes to: a redemption of
    /// zero shares is refused, any other is batched.
    pub open spec fn redeem_for_account_spec(self, account: Account, amount: YoctoStake) -> StateOutcome<
        BatchId,
    > {
        if amount.0 == 0 {
            Err(Error::ZeroRedeemAmount)
        } else {
            self.batch_stake_for_account_spec(account, amount)
        }
    }

    /// What [`ContractState::redeem_all_for_account`] comes to: all the
    /// shares that the account owns are batched, and an account without a
    /// share balance gives nothing.
    pub open spec fn redeem_all_for_account_spec(self, account: Account) -> StateOutcome<
        Option<BatchId>,
    > {
        match account.stake {
            None => Ok((self, account, None)),
            Some(stake) => match self.redeem_for_account_spec(account, stake.amount) {
                Err(e) => Err(e),
                Ok((state, account, batch_id)) => Ok((state, account, Some(batch_id))),
            },
        }
    }

    /// Batches all the shares that the account owns for redemption and
    /// returns the number of the batch, if the account had a share balance.
    pub fn redeem_all_for_account(&mut self, account: &mut Account) -> (res: Result<
        Option<BatchId>,
        Error,
    >)
        ensures
            state_meets(
                old(self).redeem_all_for_account_spec(*old(account)),
                res,
                *old(self),
                *old(account),
                *final(self),
                *final(account),
            ),
    {
        match account.stake {
            None => Ok(None),
            Some(stake) => {
                if stake.amount.0 == 0 {
                    return Err(Error::ZeroRedeemAmount);
                }
                let batch_id = self.batch_stake_for_account(account, stake.amount)?;
                Ok(Some(batch_id))
            },
        }
    }

    /// What [`ContractState::remove_from_redeem_stake_batch_for_account`]
    /// comes to.
    ///
    /// While no redeem round is running the account's current batch is
    /// drawn on, else its next batch. What is taken out returns to the
    /// account's share balance. An account without a batch in that slot is
    /// left as it is.
    pub open spec fn remove_from_redeem_stake_batch_for_account_spec(
        self,
        account: Account,
        amount: YoctoStake,
    ) -> StateOutcome<()> {
        let current = self.redeem_stake_batch_lock is None;
        let contract_slot = if current {
            self.redeem_stake_batch
        } else {
            self.next_redeem_stake_batch
        };
        let account_slot = if current {
            account.redeem_stake_batch
        } else {
            account.next_redeem_stake_batch
        };
        if account_slot is None {
            Ok((self, account, ()))
        } else {
            match take_from_redeem_batches(contract_slot, account_slot->0, amount) {
                Err(e) => Err(e),
                Ok((contract_slot, account_slot)) => if account.stake_amount() + amount.0
                    > u128::MAX {
                    Err(Error::BalanceOverflow)
                } else {
                    let stake = Some(
                        StakeBalance {
                            amount: YoctoStake((account.stake_amount() + amount.0) as u128),
                        },
                    );
                    Ok(
                        if current {
                            (
                                ContractState { redeem_stake_batch: contract_slot, ..self },
                                Account { stake, redeem_stake_batch: account_slot, ..account },
                                (),
                            )
                        } else {
                            (
                                ContractState { next_redeem_stake_batch: contract_slot, ..self },
                                Account { stake, next_redeem_stake_batch: account_slot, ..account },
                                (),
                            )
                        },
                    )
                },
            }
        }
    }

    /// Takes `amount` shares of the account back out of a redeem batch and
    /// returns them to its share balance.
    pub fn remove_from_redeem_stake_batch_for_account(
        &mut self,
        account: &mut Account,
        amount: YoctoStake,
    ) -> (res: Result<(), Error>)
        ensures
            state_meets(
                old(self).remove_from_redeem_stake_batch_for_account_spec(*old(account), amount),
                res,
                *old(self),
                *old(account),
                *final(self),
                *final(account),
            ),
    {
        let current = self.redeem_stake_batch_lock.is_none();
        let contract_slot = if current {
            self.redeem_stake_batch
        } else {
            self.next_redeem_stake_batch
        };
        let account_slot = if current {
            account.redeem_stake_batch
        } else {
            account.next_redeem_stake_batch
        };
        let batch = match account_slot {
            Some(batch) => batch,
            None => { return Ok(()); },
        };
        let (contract_slot, account_slot) = take_from(contract_slot, batch, amount)?;
        let mut credited = *account;
        credited.apply_stake_credit(amount)?;
        account.stake = credited.stake;
        if current {
            self.redeem_stake_batch = contract_slot;
            account.redeem_stake_batch = account_slot;
        } else {
            self.next_redeem_stake_batch = contract_slot;
            account.next_redeem_stake_batch = account_slot;
        }
        Ok(())
    }

    /// What [`ContractState::remove_all_from_redeem_stake_batch_for_account`]
    /// comes to: all of the batch that
    /// [`ContractState::remove_from_redeem_stake_batch_for_account`] would
    /// draw on is taken out, and an account without such a batch gets zero.
    pub open spec fn remove_all_from_redeem_stake_batch_for_account_spec(
        self,
        account: Account,
    ) -> StateOutcome<YoctoStake> {
        let account_slot = if self.redeem_stake_batch_lock is None {
            account.redeem_stake_batch
        } else {
            account.next_redeem_stake_batch
        };
        match account_slot {
            None => Ok((self, account, YoctoStake(0))),
            Some(batch) => match self.remove_from_redeem_stake_batch_for_account_spec(
                account,
                batch.balance.amount,
            ) {
                Err(e) => Err(e),
                Ok((state, account, _)) => Ok((state, account, batch.balance.amount)),
            },
        }
    }

    /// Takes all the shares of the account back out of one redeem batch,
    /// returns them to its share balance, and tells how many they were.
    pub fn remove_all_from_redeem_stake_batch_for_account(&mut self, account: &mut Account) -> (res:
        Result<YoctoStake, Error>)
        ensures
            state_meets(
                old(self).remove_all_from_redeem_stake_batch_for_account_spec(*old(account)),
                res,
                *old(self),
                *old(account),
                *final(self),
                *final(account),
            ),
    {
        let account_slot = if self.redeem_stake_batch_lock.is_none() {
            account.redeem_stake_batch
        } else {
            account.next_redeem_stake_batch
        };
        match account_slot {
            None => Ok(YoctoStake(0)),
            Some(batch) => {
                self.remove_from_redeem_stake_batch_for_account(account, batch.balance.amount)?;
                Ok(batch.balance.amount)
            },
        }
    }
}

impl Contract {
    /// Takes the next batch number and returns an empty redeem batch with it.
    pub fn new_redeem_stake_batch(&mut self) -> (res: Result<RedeemStakeBatch, Error>)
        ensures
            final(self)@.stake_batch_receipts == old(self)@.stake_batch_receipts,
            final(self)@.redeem_stake_batch_receipts == old(self)@.redeem_stake_batch_receipts,
            match old(self)@.state.new_redeem_stake_batch_spec() {
                Ok((state, batch)) => res == Ok::<RedeemStakeBatch, Error>(batch) && final(self)@.state == state,
                Err(e) => res == Err::<RedeemStakeBatch, Error>(e) && final(self)@.state == old(self)@.state,
            },
    {
        self.state.new_redeem_stake_batch()
    }

    /// Batches `amount` shares of the account for redemption and returns
    /// the number of the batch that took them.
    ///
    /// The account is settled first, so that shares it has yet to claim
    /// count. A redemption of zero shares, or of more than the account
    /// owns, is refused. A refusal leaves the contract and the account as
    /// they were.
    pub fn redeem_stake_for_account(&mut self, account: &mut RegisteredAccount, amount: YoctoStake) -> (res:
        Result<BatchId, Error>)
        ensures
            final(account).id == old(account).id,
            meets(
                if amount.0 == 0 {
                    Err(Error::ZeroRedeemAmount)
                } else {
                    settled_then(
                        old(self)@,
                        old(account).account,
                        |state: ContractState, account: Account|
                            state.batch_stake_for_account_spec(account, amount),
                    )
                },
                res,
                old(self)@,
                old(account).account,
                final(self)@,
                final(account).account,
            ),
    {
        if amount.0 == 0 {
            return Err(Error::ZeroRedeemAmount);
        }
        let mut plan = self.plan_claims(&account.account)?;
        let batch_id = plan.state.batch_stake_for_account(&mut plan.account, amount)?;
        self.commit_claims(&plan);
        account.account = plan.account;
        Ok(batch_id)
    }

    /// Batches all the shares that the account owns for redemption and
    /// returns the number of the batch, if the account had a share balance.
    ///
    /// The account is settled first. A refusal leaves the contract and the
    /// account as they were.
    pub fn redeem_all(&mut self, account: &mut RegisteredAccount) -> (res: Result<
        Option<BatchId>,
        Error,
    >)
        ensures
            final(account).id == old(account).id,
            meets(
                settled_then(
                    old(self)@,
                    old(account).account,
                    |state: ContractState, account: Account|
                        state.redeem_all_for_account_spec(account),
                ),
                res,
                old(self)@,
                old(account).account,
                final(self)@,
                final(account).account,
            ),
    {
        let mut plan = self.plan_claims(&account.account)?;
        let batch_id = plan.state.redeem_all_for_account(&mut plan.account)?;
        self.commit_claims(&plan);
        account.account = plan.account;
        Ok(batch_id)
    }

    /// Takes `amount` shares of the account back out of a redeem batch and
    /// returns them to its share balance.
    ///
    /// The account is settled first. A refusal leaves the contract and the
    /// account as they were.
    pub fn remove_from_redeem_stake_batch(
        &mut self,
        account: &mut RegisteredAccount,
        amount: YoctoStake,
    ) -> (res: Result<(), Error>)
        ensures
            final(account).id == old(account).id,
            meets(
                settled_then(
                    old(self)@,
                    old(account).account,
                    |state: ContractState, account: Account|
                        state.remove_from_redeem_stake_batch_for_account_spec(account, amount),
                ),
                res,
                old(self)@,
                old(account).account,
                final(self)@,
                final(account).account,
            ),
    {
        let mut plan = self.plan_claims(&account.account)?;
        plan.state.remove_from_redeem_stake_batch_for_account(&mut plan.account, amount)?;
        self.commit_claims(&plan);
        account.account = plan.account;
        Ok(())
    }

    /// Takes all the shares of the account back out of one redeem batch,
    /// returns them to its share balance, and tells how many they were.
    ///
    /// The account is settled first. A refusal leaves the contract and the
    /// account as they were.
    pub fn remove_all_from_redeem_stake_batch(&mut self, account: &mut RegisteredAccount) -> (res:
        Result<YoctoStake, Error>)
        ensures
            final(account).id == old(account).id,
            meets(
                settled_then(
                    old(self)@,
                    old(account).account,
                    |state: ContractState, account: Account|
                        state.remove_all_from_redeem_stake_batch_for_account_spec(account),
                ),
                res,
                old(self)@,
                old(account).account,
                final(self)@,
                final(account).account,
            ),
    {
        let mut plan = self.plan_claims(&account.account)?;
        let amount = plan.state.remove_all_from_redeem_stake_batch_for_account(&mut plan.account)?;
        self.commit_claims(&plan);
        account.account = plan.account;
        Ok(amount)
    }
}

} // verus!
