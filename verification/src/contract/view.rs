//! An account as it would stand after settling, worked out without
//! changing anything.

use crate::contract::claims::{with_near, with_stake, RedeemReceipts, StakeReceipts};
use crate::contract::state::{Contract, ContractView};
use crate::domain::account::Account;
use crate::domain::batch::{RedeemStakeBatch, StakeBatch};
use crate::domain::batch_id::BatchId;
use crate::domain::lock::RedeemLock;
use crate::domain::yocto_near::YoctoNear;
use crate::domain::yocto_stake::YoctoStake;
use crate::errors::Error;
use vstd::prelude::*;

verus! {

/// The account with the shares of one stake batch credited, where the
/// table holds a receipt for the batch; the last part tells whether it does.
pub open spec fn view_stake_slot(
    receipts: StakeReceipts,
    account: Account,
    slot: Option<StakeBatch>,
) -> Result<(Account, bool), Error> {
    if slot is None || !receipts.contains_key(slot->0.batch_id.0) {
        Ok((account, false))
    } else {
        let stake = receipts[slot->0.batch_id.0].stake_token_value.near_to_stake_spec(
            slot->0.balance.amount,
        );
        if stake > u128::MAX || account.stake_amount() + stake > u128::MAX {
            Err(Error::BalanceOverflow)
        } else {
            Ok((with_stake(account, account.stake_amount() + stake), true))
        }
    }
}

/// The account with the NEAR of one redeem batch credited, where the table
/// holds a receipt for the batch and the batch is not the one whose NEAR
/// waits at the venue; the last part tells whether that is so.
pub open spec fn view_redeem_slot(
    receipts: RedeemReceipts,
    account: Account,
    slot: Option<RedeemStakeBatch>,
    pending: Option<BatchId>,
) -> Result<(Account, bool), Error> {
    if slot is None || !receipts.contains_key(slot->0.batch_id.0) || pending == Some(
        slot->0.batch_id,
    ) {
        Ok((account, false))
    } else {
        let near = receipts[slot->0.batch_id.0].stake_token_value.stake_to_near_spec(
            slot->0.balance.amount,
        );
        if near > u128::MAX || account.near_amount() + near > u128::MAX {
            Err(Error::BalanceOverflow)
        } else {
            Ok((with_near(account, account.near_amount() + near), true))
        }
    }
}

/// What [`Contract::apply_receipt_funds_for_view`] returns.
///
/// Each batch of the account that has a receipt is credited at the value of
/// its receipt and cleared: the stake batches as shares, the redeem batches
/// as NEAR. The redeem batch whose NEAR waits at the venue is left alone.
/// No batch moves from the next slot to the current one.
pub open spec fn apply_receipt_funds_for_view_spec(contract: ContractView, account: Account) -> Result<
    Account,
    Error,
> {
    match view_stake_slot(contract.stake_batch_receipts, account, account.stake_batch) {
        Err(e) => Err(e),
        Ok((account, applied)) => {
            let account = if applied {
                Account { stake_batch: None, ..account }
            } else {
                account
            };
            match view_stake_slot(contract.stake_batch_receipts, account, account.next_stake_batch) {
                Err(e) => Err(e),
                Ok((account, applied)) => {
                    let account = if applied {
                        Account { next_stake_batch: None, ..account }
                    } else {
                        account
                    };
                    let waiting = contract.state.redeem_stake_batch_lock == Some(
                        RedeemLock::PendingWithdrawal,
                    );
                    if waiting && contract.state.redeem_stake_batch is None {
                        Err(Error::RedeemStakeBatchShouldExist)
                    } else {
                        let pending = if waiting {
                            Some(contract.state.redeem_stake_batch->0.batch_id)
                        } else {
                            None
                        };
                        match view_redeem_slot(
                            contract.redeem_stake_batch_receipts,
                            account,
                            account.redeem_stake_batch,
                            pending,
                        ) {
                            Err(e) => Err(e),
                            Ok((account, applied)) => {
                                let account = if applied {
                                    Account { redeem_stake_batch: None, ..account }
                                } else {
                                    account
                                };
                                match view_redeem_slot(
                                    contract.redeem_stake_batch_receipts,
                                    account,
                                    account.next_redeem_stake_batch,
                                    pending,
                                ) {
                                    Err(e) => Err(e),
                                    Ok((account, applied)) => Ok(
                                        if applied {
                                            Account { next_redeem_stake_batch: None, ..account }
                                        } else {
                                            account
                                        },
                                    ),
                                }
                            },
                        }
                    }
                },
            }
        },
    }
}

impl Contract {
    fn view_stake_slot(&self, account: &mut Account, slot: Option<StakeBatch>) -> (res: Result<
        bool,
        Error,
    >)
        ensures
            match view_stake_slot(self@.stake_batch_receipts, *old(account), slot) {
                Ok((account_after, applied)) => res == Ok::<bool, Error>(applied) && *final(account)
                    == account_after,
                Err(e) => res == Err::<bool, Error>(e),
            },
    {
        let batch = match slot {
            Some(batch) => batch,
            None => { return Ok(false); },
        };
        let receipt = match self.stake_batch_receipts.get(batch.batch_id) {
            Some(receipt) => receipt,
            None => { return Ok(false); },
        };
        proof {
            receipt.stake_token_value.lemma_conversion_bounds(batch.balance.amount, YoctoStake(0));
        }
        let stake = match receipt.stake_token_value.checked_near_to_stake(batch.balance.amount) {
            Some(stake) => stake,
            None => { return Err(Error::BalanceOverflow); },
        };
        account.apply_stake_credit(stake)?;
        Ok(true)
    }

    fn view_redeem_slot(
        &self,
        account: &mut Account,
        slot: Option<RedeemStakeBatch>,
        pending: Option<BatchId>,
    ) -> (res: Result<bool, Error>)
        ensures
            match view_redeem_slot(self@.redeem_stake_batch_receipts, *old(account), slot, pending) {
                Ok((account_after, applied)) => res == Ok::<bool, Error>(applied) && *final(account)
                    == account_after,
                Err(e) => res == Err::<bool, Error>(e),
            },
    {
        let batch = match slot {
            Some(batch) => batch,
            None => { return Ok(false); },
        };
        let receipt = match self.redeem_stake_batch_receipts.get(batch.batch_id) {
            Some(receipt) => receipt,
            None => { return Ok(false); },
        };
        if let Some(id) = pending {
            if id.0 == batch.batch_id.0 {
                return Ok(false);
            }
        }
        proof {
            receipt.stake_token_value.lemma_conversion_bounds(YoctoNear(0), batch.balance.amount);
        }
        let near = match receipt.stake_token_value.checked_stake_to_near(batch.balance.amount) {
            Some(near) => near,
            None => { return Err(Error::BalanceOverflow); },
        };
        account.apply_near_credit(near)?;
        Ok(true)
    }

    /// The account as it would stand once it had claimed what the receipts
    /// owe it. Nothing is claimed: the contract and the receipts stay as
    /// they are.
    pub fn apply_receipt_funds_for_view(&self, account: &Account) -> (res: Result<Account, Error>)
        ensures
            res == apply_receipt_funds_for_view_spec(self@, *account),
    {
        let mut account = *account;
        let slot = account.stake_batch;
        if self.view_stake_slot(&mut account, slot)? {
            account.stake_batch = None;
        }
        let slot = account.next_stake_batch;
        if self.view_stake_slot(&mut account, slot)? {
            account.next_stake_batch = None;
        }
        let pending = match self.state.redeem_stake_batch_lock {
            Some(RedeemLock::PendingWithdrawal) => match self.state.redeem_stake_batch {
                Some(batch) => Some(batch.batch_id),
                None => { return Err(Error::RedeemStakeBatchShouldExist); },
            },
            _ => None,
        };
        let slot = account.redeem_stake_batch;
        if self.view_redeem_slot(&mut account, slot, pending)? {
            account.redeem_stake_batch = None;
        }
        let slot = account.next_redeem_stake_batch;
        if self.view_redeem_slot(&mut account, slot, pending)? {
            account.next_redeem_stake_batch = None;
        }
        Ok(account)
    }
}

} // verus!
