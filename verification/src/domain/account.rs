use crate::domain::balance::{NearBalance, StakeBalance};
use crate::domain::batch::{RedeemStakeBatch, StakeBatch};
use crate::domain::batch_id::BatchId;
use crate::domain::yocto_near::YoctoNear;
use crate::domain::yocto_stake::YoctoStake;
use crate::errors::Error;
use vstd::prelude::*;

verus! {

/// What one user holds with the contract.
#[derive(Clone, Copy, Debug, PartialEq, Eq, Structural)]
pub struct Account {
    /// The fee held for the account's storage; it is returned when the
    /// account is closed.
    pub storage_escrow: NearBalance,
    /// NEAR that the account can withdraw.
    pub near: Option<NearBalance>,
    /// Shares that the account owns.
    pub stake: Option<StakeBalance>,
    /// What the account paid into the current stake batch.
    pub stake_batch: Option<StakeBatch>,
    /// What the account paid into the stake batch that follows, while the
    /// current one is being run.
    pub next_stake_batch: Option<StakeBatch>,
    /// The shares that the account gave into the current redeem batch.
    pub redeem_stake_batch: Option<RedeemStakeBatch>,
    /// The shares that the account gave into the redeem batch that follows,
    /// while the current one is being run.
    pub next_redeem_stake_batch: Option<RedeemStakeBatch>,
}

/// The key under which an account is stored.
pub type AccountKey = [u8; 32];

/// An account together with the key under which it is stored.
#[derive(Clone, Copy, Debug)]
pub struct RegisteredAccount {
    pub account: Account,
    pub id: AccountKey,
}

impl Account {
    /// A new account which has paid `storage_escrow_fee` and holds nothing else.
    pub fn new(storage_escrow_fee: YoctoNear) -> (account: Self)
        ensures
            account == (Account {
                storage_escrow: NearBalance { amount: storage_escrow_fee },
                near: None,
                stake: None,
                stake_batch: None,
                next_stake_batch: None,
                redeem_stake_batch: None,
                next_redeem_stake_batch: None,
            }),
    {
        Account {
            storage_escrow: NearBalance::new(storage_escrow_fee),
            near: None,
            stake: None,
            stake_batch: None,
            next_stake_batch: None,
            redeem_stake_batch: None,
            next_redeem_stake_batch: None,
        }
    }

    /// An account with every field in use and every amount zero, by which
    /// the storage that an account takes can be measured.
    pub fn account_template_to_measure_storage_usage() -> (account: Self)
        ensures
            account == (Account {
                storage_escrow: NearBalance { amount: YoctoNear(0) },
                near: Some(NearBalance { amount: YoctoNear(0) }),
                stake: Some(StakeBalance { amount: YoctoStake(0) }),
                stake_batch: Some(
                    StakeBatch { batch_id: BatchId(0), balance: NearBalance { amount: YoctoNear(0) } },
                ),
                next_stake_batch: Some(
                    StakeBatch { batch_id: BatchId(0), balance: NearBalance { amount: YoctoNear(0) } },
                ),
                redeem_stake_batch: Some(
                    RedeemStakeBatch {
                        batch_id: BatchId(0),
                        balance: StakeBalance { amount: YoctoStake(0) },
                    },
                ),
                next_redeem_stake_batch: Some(
                    RedeemStakeBatch {
                        batch_id: BatchId(0),
                        balance: StakeBalance { amount: YoctoStake(0) },
                    },
                ),
            }),
    {
        Account {
            storage_escrow: NearBalance::new(YoctoNear(0)),
            near: Some(NearBalance::new(YoctoNear(0))),
            stake: Some(StakeBalance::new(YoctoStake(0))),
            stake_batch: Some(StakeBatch::new(BatchId(0), YoctoNear(0))),
            next_stake_batch: Some(StakeBatch::new(BatchId(0), YoctoNear(0))),
            redeem_stake_batch: Some(RedeemStakeBatch::new(BatchId(0), YoctoStake(0))),
            next_redeem_stake_batch: Some(RedeemStakeBatch::new(BatchId(0), YoctoStake(0))),
        }
    }

    /// The NEAR that the account can withdraw, zero where it has no balance.
    pub open spec fn near_amount(self) -> int {
        match self.near {
            Some(balance) => balance.amount.0 as int,
            None => 0,
        }
    }

    /// The shares that the account owns, zero where it has no balance.
    pub open spec fn stake_amount(self) -> int {
        match self.stake {
            Some(balance) => balance.amount.0 as int,
            None => 0,
        }
    }

    /// The account's stake batch with the given number: the next batch is
    /// looked at before the current one.
    pub open spec fn stake_batch_spec(self, batch_id: BatchId) -> Option<StakeBatch> {
        if self.next_stake_batch is Some && self.next_stake_batch->0.batch_id == batch_id {
            self.next_stake_batch
        } else if self.stake_batch is Some && self.stake_batch->0.batch_id == batch_id {
            self.stake_batch
        } else {
            None
        }
    }

    /// The account's stake batch with the given number, if it has one.
    pub fn stake_batch(&self, batch_id: BatchId) -> (batch: Option<StakeBatch>)
        ensures
            batch == self.stake_batch_spec(batch_id),
    {
        if let Some(batch) = self.next_stake_batch {
            if batch.batch_id == batch_id {
                return Some(batch);
            }
        }
        if let Some(batch) = self.stake_batch {
            if batch.batch_id == batch_id {
                return Some(batch);
            }
        }
        None
    }

    /// Whether the account owns at least `amount` shares.
    pub fn can_redeem(&self, amount: YoctoStake) -> (can: bool)
        ensures
            can == (self.stake is Some && amount.0 <= self.stake->0.amount.0),
    {
        match self.stake {
            Some(stake) => stake.amount.0 >= amount.0,
            None => false,
        }
    }

    /// Whether anything but the storage fee is held for the account.
    pub open spec fn has_funds_spec(&self) -> bool {
        ||| self.near is Some && self.near->0.amount.0 > 0
        ||| self.stake is Some && self.stake->0.amount.0 > 0
        ||| self.stake_batch is Some && self.stake_batch->0.balance.amount.0 > 0
        ||| self.next_stake_batch is Some && self.next_stake_batch->0.balance.amount.0 > 0
        ||| self.redeem_stake_batch is Some && self.redeem_stake_batch->0.balance.amount.0 > 0
        ||| self.next_redeem_stake_batch is Some && self.next_redeem_stake_batch->0.balance.amount.0
            > 0
    }

    /// Whether anything but the storage fee is held for the account. An
    /// account can be closed only when this is false.
    #[verifier::when_used_as_spec(has_funds_spec)]
    pub fn has_funds(&self) -> (has: bool)
        ensures
            has == self.has_funds_spec(),
    {
        let near = match self.near {
            Some(balance) => balance.amount.0 > 0,
            None => false,
        };
        let stake = match self.stake {
            Some(balance) => balance.amount.0 > 0,
            None => false,
        };
        let stake_batch = match self.stake_batch {
            Some(batch) => batch.balance.amount.0 > 0,
            None => false,
        };
        let next_stake_batch = match self.next_stake_batch {
            Some(batch) => batch.balance.amount.0 > 0,
            None => false,
        };
        let redeem_stake_batch = match self.redeem_stake_batch {
            Some(batch) => batch.balance.amount.0 > 0,
            None => false,
        };
        let next_redeem_stake_batch = match self.next_redeem_stake_batch {
            Some(batch) => batch.balance.amount.0 > 0,
            None => false,
        };
        near || stake || stake_batch || next_stake_batch || redeem_stake_batch
            || next_redeem_stake_batch
    }

    /// Adds `credit` to the NEAR that the account can withdraw. Refused, with
    /// the account unchanged, where the balance would need more than 128 bits.
    pub fn apply_near_credit(&mut self, credit: YoctoNear) -> (res: Result<(), Error>)
        ensures
            old(self).near_amount() + credit.0 <= u128::MAX ==> res.is_ok() && *final(self) == (
            Account {
                near: Some(
                    NearBalance { amount: YoctoNear((old(self).near_amount() + credit.0) as u128) },
                ),
                ..*old(self)
            }),
            old(self).near_amount() + credit.0 > u128::MAX ==> res == Err::<(), Error>(
                Error::BalanceOverflow,
            ) && *final(self) == *old(self),
    {
        let balance = match self.near {
            Some(balance) => balance.amount,
            None => YoctoNear(0),
        };
        match balance.checked_add(credit) {
            Some(sum) => {
                self.near = Some(NearBalance { amount: sum });
                Ok(())
            },
            None => Err(Error::BalanceOverflow),
        }
    }

    /// Takes `debit` from the NEAR that the account can withdraw; a balance
    /// that reaches zero is dropped. Refused, with the account unchanged,
    /// where the account has no NEAR balance, or less than `debit`.
    pub fn apply_near_debit(&mut self, debit: YoctoNear) -> (res: Result<(), Error>)
        ensures
            old(self).near is None ==> res == Err::<(), Error>(Error::AccountHasZeroNearBalance),
            old(self).near is Some && old(self).near_amount() < debit.0 ==> res == Err::<(), Error>(
                Error::AccountNearBalanceTooLow,
            ),
            res.is_err() ==> *final(self) == *old(self),
            old(self).near is Some && debit.0 <= old(self).near_amount() ==> res.is_ok() && *final(self) == (Account {
                near: if old(self).near_amount() == debit.0 {
                    None
                } else {
                    Some(
                        NearBalance {
                            amount: YoctoNear((old(self).near_amount() - debit.0) as u128),
                        },
                    )
                },
                ..*old(self)
            }),
    {
        match self.near {
            None => Err(Error::AccountHasZeroNearBalance),
            Some(balance) => match balance.amount.checked_sub(debit) {
                None => Err(Error::AccountNearBalanceTooLow),
                Some(rest) => {
                    if rest.0 == 0 {
                        self.near = None;
                    } else {
                        self.near = Some(NearBalance { amount: rest });
                    }
                    Ok(())
                },
            },
        }
    }

    /// Adds `credit` to the shares that the account owns. Refused, with the
    /// account unchanged, where the balance would need more than 128 bits.
    pub fn apply_stake_credit(&mut self, credit: YoctoStake) -> (res: Result<(), Error>)
        ensures
            old(self).stake_amount() + credit.0 <= u128::MAX ==> res.is_ok() && *final(self) == (
            Account {
                stake: Some(
                    StakeBalance {
                        amount: YoctoStake((old(self).stake_amount() + credit.0) as u128),
                    },
                ),
                ..*old(self)
            }),
            old(self).stake_amount() + credit.0 > u128::MAX ==> res == Err::<(), Error>(
                Error::BalanceOverflow,
            ) && *final(self) == *old(self),
    {
        let balance = match self.stake {
            Some(balance) => balance.amount,
            None => YoctoStake(0),
        };
        match balance.checked_add(credit) {
            Some(sum) => {
                self.stake = Some(StakeBalance { amount: sum });
                Ok(())
            },
            None => Err(Error::BalanceOverflow),
        }
    }

    /// Takes `debit` from the shares that the account owns; a balance that
    /// reaches zero is dropped. Refused, with the account unchanged, where
    /// the account has no share balance, or less than `debit`.
    pub fn apply_stake_debit(&mut self, debit: YoctoStake) -> (res: Result<(), Error>)
        ensures
            old(self).stake is None ==> res == Err::<(), Error>(Error::AccountHasZeroStakeBalance),
            old(self).stake is Some && old(self).stake_amount() < debit.0 ==> res == Err::<
                (),
                Error,
            >(Error::AccountStakeBalanceTooLow),
            res.is_err() ==> *final(self) == *old(self),
            old(self).stake is Some && debit.0 <= old(self).stake_amount() ==> res.is_ok()
                && *final(self) == (Account {
                stake: if old(self).stake_amount() == debit.0 {
                    None
                } else {
                    Some(
                        StakeBalance {
                            amount: YoctoStake((old(self).stake_amount() - debit.0) as u128),
                        },
                    )
                },
                ..*old(self)
            }),
    {
        match self.stake {
            None => Err(Error::AccountHasZeroStakeBalance),
            Some(balance) => match balance.amount.checked_sub(debit) {
                None => Err(Error::AccountStakeBalanceTooLow),
                Some(rest) => {
                    if rest.0 == 0 {
                        self.stake = None;
                    } else {
                        self.stake = Some(StakeBalance { amount: rest });
                    }
                    Ok(())
                },
            },
        }
    }
}

} // verus!
