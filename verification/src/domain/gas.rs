use vstd::prelude::*;

verus! {

/// An amount of gas.
#[derive(Clone, Copy, Debug, PartialEq, Eq, PartialOrd, Ord, Hash, Default, Structural)]
pub struct Gas(pub u64);

/// The number of gas units in one teragas.
pub const TGAS: u64 = 1_000_000_000_000;

impl Gas {
    /// The amount as a number.
    pub fn value(&self) -> (value: u64)
        ensures
            value == self.0,
    {
        self.0
    }

    /// The given number of teragas.
    pub fn tgas(count: u16) -> (gas: Gas)
        ensures
            gas.0 == count * TGAS,
    {
        Gas(count as u64 * TGAS)
    }

    /// The sum of two amounts, or `None` where it needs more than 64 bits.
    pub fn checked_add(self, rhs: Gas) -> (sum: Option<Gas>)
        ensures
            self.0 + rhs.0 <= u64::MAX ==> sum == Some(Gas((self.0 + rhs.0) as u64)),
            self.0 + rhs.0 > u64::MAX ==> sum.is_none(),
    {
        match self.0.checked_add(rhs.0) {
            Some(value) => Some(Gas(value)),
            None => None,
        }
    }
}

} // verus!
