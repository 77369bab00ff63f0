use crate::domain::balance::{NearBalance, StakeBalance};
use crate::domain::batch_id::BatchId;
use crate::domain::receipt::RedeemStakeBatchReceipt;
use crate::domain::stake_token_value::StakeTokenValue;
use crate::domain::yocto_near::YoctoNear;
use crate::domain::yocto_stake::YoctoStake;
use crate::errors::Error;
use vstd::prelude::*;

verus! {

/// The NEAR that waits to be staked in one round.
///
/// A batch exists once for the whole contract and once in every account
/// that paid into it, under the same number.
#[derive(Clone, Copy, Debug, PartialEq, Eq, Structural)]
pub struct StakeBatch {
    pub batch_id: BatchId,
    pub balance: NearBalance,
}

impl StakeBatch {
    /// A batch with the given number and balance.
    pub fn new(batch_id: BatchId, balance: YoctoNear) -> (batch: Self)
        ensures
            batch == (StakeBatch { batch_id, balance: NearBalance { amount: balance } }),
    {
        StakeBatch { batch_id, balance: NearBalance { amount: balance } }
    }

    /// The number of the batch.
    pub fn id(&self) -> (id: BatchId)
        ensures
            id == self.batch_id,
    {
        self.batch_id
    }

    /// What the batch holds.
    pub fn balance(&self) -> (balance: NearBalance)
        ensures
            balance == self.balance,
    {
        self.balance
    }

    /// Pays `amount` into the batch. Refused, with the batch unchanged,
    /// where the balance would need more than 128 bits.
    pub fn add(&mut self, amount: YoctoNear) -> (res: Result<(), Error>)
        ensures
            final(self).batch_id == old(self).batch_id,
            old(self).balance.amount.0 + amount.0 <= u128::MAX ==> res.is_ok() && final(self).balance.amount.0 == old(self).balance.amount.0 + amount.0,
            old(self).balance.amount.0 + amount.0 > u128::MAX ==> res == Err::<(), Error>(
                Error::BalanceOverflow,
            ) && *final(self) == *old(self),
    {
        match self.balance.amount.checked_add(amount) {
            Some(sum) => {
                self.balance = NearBalance { amount: sum };
                Ok(())
            },
            None => Err(Error::BalanceOverflow),
        }
    }

    /// Takes `amount` out of the batch and returns what is left in it; zero
    /// tells the caller to delete the batch. Refused, with the batch
    /// unchanged, where it holds less than `amount`.
    pub fn remove(&mut self, amount: YoctoNear) -> (res: Result<YoctoNear, Error>)
        ensures
            final(self).batch_id == old(self).batch_id,
            amount.0 <= old(self).balance.amount.0 ==> res == Ok::<YoctoNear, Error>(
                final(self).balance.amount,
            ) && final(self).balance.amount.0 == old(self).balance.amount.0 - amount.0,
            amount.0 > old(self).balance.amount.0 ==> res == Err::<YoctoNear, Error>(
                Error::BatchBalanceInsufficient,
            ) && *final(self) == *old(self),
    {
        match self.balance.amount.checked_sub(amount) {
            Some(rest) => {
                self.balance = NearBalance { amount: rest };
                Ok(rest)
            },
            None => Err(Error::BatchBalanceInsufficient),
        }
    }
}

/// The shares that wait to be redeemed in one round.
///
/// A batch exists once for the whole contract and once in every account
/// that paid into it, under the same number.
#[derive(Clone, Copy, Debug, PartialEq, Eq, Structural)]
pub struct RedeemStakeBatch {
    pub batch_id: BatchId,
    pub balance: StakeBalance,
}

impl RedeemStakeBatch {
    /// A batch with the given number and balance.
    pub fn new(batch_id: BatchId, balance: YoctoStake) -> (batch: Self)
        ensures
            batch == (RedeemStakeBatch { batch_id, balance: StakeBalance { amount: balance } }),
    {
        RedeemStakeBatch { batch_id, balance: StakeBalance { amount: balance } }
    }

    /// The number of the batch.
    pub fn id(&self) -> (id: BatchId)
        ensures
            id == self.batch_id,
    {
        self.batch_id
    }

    /// What the batch holds.
    pub fn balance(&self) -> (balance: StakeBalance)
        ensures
            balance == self.balance,
    {
        self.balance
    }

    /// Pays `amount` into the batch. Refused, with the batch unchanged,
    /// where the balance would need more than 128 bits.
    pub fn add(&mut self, amount: YoctoStake) -> (res: Result<(), Error>)
        ensures
            final(self).batch_id == old(self).batch_id,
            old(self).balance.amount.0 + amount.0 <= u128::MAX ==> res.is_ok() && final(self).balance.amount.0 == old(self).balance.amount.0 + amount.0,
            old(self).balance.amount.0 + amount.0 > u128::MAX ==> res == Err::<(), Error>(
                Error::BalanceOverflow,
            ) && *final(self) == *old(self),
    {
        match self.balance.amount.checked_add(amount) {
            Some(sum) => {
                self.balance = StakeBalance { amount: sum };
                Ok(())
            },
            None => Err(Error::BalanceOverflow),
        }
    }

    /// Takes `amount` out of the batch and returns what is left in it; zero
    /// tells the caller to delete the batch. Refused, with the batch
    /// unchanged, where it holds less than `amount`.
    pub fn remove(&mut self, amount: YoctoStake) -> (res: Result<YoctoStake, Error>)
        ensures
            final(self).batch_id == old(self).batch_id,
            amount.0 <= old(self).balance.amount.0 ==> res == Ok::<YoctoStake, Error>(
                final(self).balance.amount,
            ) && final(self).balance.amount.0 == old(self).balance.amount.0 - amount.0,
            amount.0 > old(self).balance.amount.0 ==> res == Err::<YoctoStake, Error>(
                Error::BatchBalanceInsufficient,
            ) && *final(self) == *old(self),
    {
        match self.balance.amount.checked_sub(amount) {
            Some(rest) => {
                self.balance = StakeBalance { amount: rest };
                Ok(rest)
            },
            None => Err(Error::BatchBalanceInsufficient),
        }
    }

    /// The receipt of this batch, settled at the given value.
    pub fn create_receipt(&self, stake_token_value: StakeTokenValue) -> (receipt:
        RedeemStakeBatchReceipt)
        ensures
            receipt == RedeemStakeBatchReceipt::new_spec(self.balance.amount, stake_token_value),
    {
        RedeemStakeBatchReceipt::new(self.balance.amount, stake_token_value)
    }
}

impl BatchId {
    /// An empty stake batch with this number.
    pub fn new_stake_batch(&self) -> (batch: StakeBatch)
        ensures
            batch == (StakeBatch { batch_id: *self, balance: NearBalance { amount: YoctoNear(0) } }),
    {
        StakeBatch::new(*self, YoctoNear(0))
    }

    /// An empty redeem batch with this number.
    pub fn new_redeem_stake_batch(&self) -> (batch: RedeemStakeBatch)
        ensures
            batch == (RedeemStakeBatch {
                batch_id: *self,
                balance: StakeBalance { amount: YoctoStake(0) },
            }),
    {
        RedeemStakeBatch::new(*self, YoctoStake(0))
    }
}

} // verus!
