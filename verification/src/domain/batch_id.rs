use vstd::prelude::*;
use vstd::std_specs::convert::FromSpecImpl;

verus! {

/// The number of a batch. One counter numbers the batches of both kinds, so
/// no two batches ever share a number.
#[derive(Clone, Copy, Debug, PartialEq, Eq, PartialOrd, Ord, Hash, Default, Structural)]
pub struct BatchId(pub u128);

impl BatchId {
    /// The number itself.
    pub fn value(&self) -> (value: u128)
        ensures
            value == self.0,
    {
        self.0
    }

    /// The number that follows this one, or `None` where the counter is used up.
    pub fn next(self) -> (next: Option<BatchId>)
        ensures
            self.0 < u128::MAX ==> next == Some(BatchId((self.0 + 1) as u128)),
            self.0 == u128::MAX ==> next.is_none(),
    {
        match self.0.checked_add(1) {
            Some(value) => Some(BatchId(value)),
            None => None,
        }
    }
}

impl From<u128> for BatchId {
    fn from(value: u128) -> (id: Self) {
        BatchId(value)
    }
}

impl FromSpecImpl<u128> for BatchId {
    open spec fn obeys_from_spec() -> bool {
        true
    }

    open spec fn from_spec(value: u128) -> Self {
        BatchId(value)
    }
}

impl From<BatchId> for u128 {
    fn from(id: BatchId) -> (value: Self) {
        id.0
    }
}

impl FromSpecImpl<BatchId> for u128 {
    open spec fn obeys_from_spec() -> bool {
        true
    }

    open spec fn from_spec(id: BatchId) -> Self {
        id.0
    }
}

} // verus!
