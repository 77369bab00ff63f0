use crate::domain::yocto_near::YoctoNear;
use crate::domain::yocto_stake::YoctoStake;
use crate::errors::Error;
use vstd::prelude::*;

verus! {

/// A running balance of NEAR.
#[derive(Clone, Copy, Debug, PartialEq, Eq, Structural)]
pub struct NearBalance {
    pub amount: YoctoNear,
}

impl NearBalance {
    /// A balance of the given amount.
    pub fn new(amount: YoctoNear) -> (balance: Self)
        ensures
            balance.amount == amount,
    {
        NearBalance { amount }
    }

    /// What the balance holds.
    pub fn amount(&self) -> (amount: YoctoNear)
        ensures
            amount == self.amount,
    {
        self.amount
    }

    /// Adds to the balance. Refused, with the balance unchanged, where the
    /// sum needs more than 128 bits.
    pub fn credit(&mut self, amount: YoctoNear) -> (res: Result<(), Error>)
        ensures
            old(self).amount.0 + amount.0 <= u128::MAX ==> res.is_ok() && final(self).amount.0
                == old(self).amount.0 + amount.0,
            old(self).amount.0 + amount.0 > u128::MAX ==> res == Err::<(), Error>(
                Error::BalanceOverflow,
            ) && *final(self) == *old(self),
    {
        match self.amount.checked_add(amount) {
            Some(sum) => {
                self.amount = sum;
                Ok(())
            },
            None => Err(Error::BalanceOverflow),
        }
    }

    /// Takes from the balance and returns what is left of it. Refused, with
    /// the balance unchanged, where it holds less than `amount`.
    pub fn debit(&mut self, amount: YoctoNear) -> (res: Result<YoctoNear, Error>)
        ensures
            amount.0 <= old(self).amount.0 ==> res == Ok::<YoctoNear, Error>(final(self).amount)
                && final(self).amount.0 == old(self).amount.0 - amount.0,
            amount.0 > old(self).amount.0 ==> res == Err::<YoctoNear, Error>(Error::BalanceTooLow)
                && *final(self) == *old(self),
    {
        match self.amount.checked_sub(amount) {
            Some(rest) => {
                self.amount = rest;
                Ok(rest)
            },
            None => Err(Error::BalanceTooLow),
        }
    }
}

/// A running balance of shares.
#[derive(Clone, Copy, Debug, PartialEq, Eq, Structural)]
pub struct StakeBalance {
    pub amount: YoctoStake,
}

impl StakeBalance {
    /// A balance of the given amount.
    pub fn new(amount: YoctoStake) -> (balance: Self)
        ensures
            balance.amount == amount,
    {
        StakeBalance { amount }
    }

    /// What the balance holds.
    pub fn amount(&self) -> (amount: YoctoStake)
        ensures
            amount == self.amount,
    {
        self.amount
    }

    /// Adds to the balance. Refused, with the balance unchanged, where the
    /// sum needs more than 128 bits.
    pub fn credit(&mut self, amount: YoctoStake) -> (res: Result<(), Error>)
        ensures
            old(self).amount.0 + amount.0 <= u128::MAX ==> res.is_ok() && final(self).amount.0
                == old(self).amount.0 + amount.0,
            old(self).amount.0 + amount.0 > u128::MAX ==> res == Err::<(), Error>(
                Error::BalanceOverflow,
            ) && *final(self) == *old(self),
    {
        match self.amount.checked_add(amount) {
            Some(sum) => {
                self.amount = sum;
                Ok(())
            },
            None => Err(Error::BalanceOverflow),
        }
    }

    /// Takes from the balance and returns what is left of it. Refused, with
    /// the balance unchanged, where it holds less than `amount`.
    pub fn debit(&mut self, amount: YoctoStake) -> (res: Result<YoctoStake, Error>)
        ensures
            amount.0 <= old(self).amount.0 ==> res == Ok::<YoctoStake, Error>(final(self).amount)
                && final(self).amount.0 == old(self).amount.0 - amount.0,
            amount.0 > old(self).amount.0 ==> res == Err::<YoctoStake, Error>(
                Error::BalanceTooLow,
            ) && *final(self) == *old(self),
    {
        match self.amount.checked_sub(amount) {
            Some(rest) => {
                self.amount = rest;
                Ok(rest)
            },
            None => Err(Error::BalanceTooLow),
        }
    }
}

} // verus!
