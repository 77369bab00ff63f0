use vstd::prelude::*;
use vstd::std_specs::convert::FromSpecImpl;

verus! {

/// An amount of the share token, counted in its smallest unit.
#[derive(Clone, Copy, Debug, PartialEq, Eq, PartialOrd, Ord, Hash, Default, Structural)]
pub struct YoctoStake(pub u128);

impl YoctoStake {
    /// The amount as a number.
    pub fn value(&self) -> (value: u128)
        ensures
            value == self.0,
    {
        self.0
    }

    /// The sum of two amounts, or `None` where it needs more than 128 bits.
    pub fn checked_add(self, rhs: YoctoStake) -> (sum: Option<YoctoStake>)
        ensures
            self.0 + rhs.0 <= u128::MAX ==> sum == Some(YoctoStake((self.0 + rhs.0) as u128)),
            self.0 + rhs.0 > u128::MAX ==> sum.is_none(),
    {
        match self.0.checked_add(rhs.0) {
            Some(value) => Some(YoctoStake(value)),
            None => None,
        }
    }

    /// The difference of two amounts, or `None` where `rhs` is the larger.
    pub fn checked_sub(self, rhs: YoctoStake) -> (difference: Option<YoctoStake>)
        ensures
            rhs.0 <= self.0 ==> difference == Some(YoctoStake((self.0 - rhs.0) as u128)),
            rhs.0 > self.0 ==> difference.is_none(),
    {
        match self.0.checked_sub(rhs.0) {
            Some(value) => Some(YoctoStake(value)),
            None => None,
        }
    }
}

impl From<u128> for YoctoStake {
    fn from(value: u128) -> (amount: Self) {
        YoctoStake(value)
    }
}

impl FromSpecImpl<u128> for YoctoStake {
    open spec fn obeys_from_spec() -> bool {
        true
    }

    open spec fn from_spec(value: u128) -> Self {
        YoctoStake(value)
    }
}

impl From<YoctoStake> for u128 {
    fn from(amount: YoctoStake) -> (value: Self) {
        amount.0
    }
}

impl FromSpecImpl<YoctoStake> for u128 {
    open spec fn obeys_from_spec() -> bool {
        true
    }

    open spec fn from_spec(amount: YoctoStake) -> Self {
        amount.0
    }
}

} // verus!
