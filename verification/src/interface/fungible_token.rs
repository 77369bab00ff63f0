use vstd::prelude::*;

verus! {

/// An amount of the share token, as it appears in a transfer.
#[derive(Clone, Copy, Debug, PartialEq, Eq, PartialOrd, Ord, Hash, Default, Structural)]
pub struct TokenAmount(pub u128);

impl TokenAmount {
    /// The amount as a number.
    pub fn value(&self) -> (value: u128)
        ensures
            value == self.0,
    {
        self.0
    }
}

/// A free-form note that travels with a transfer.
#[derive(Clone, Debug)]
pub struct Memo(pub String);

/// The data that a transfer hands to the contract that receives it.
#[derive(Clone, Debug)]
pub struct TransferCallData(pub Vec<u8>);

} // verus!
