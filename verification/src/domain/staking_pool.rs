use crate::domain::yocto_near::YoctoNear;
use vstd::prelude::*;

verus! {

/// What the venue reports of the contract's account with it.
#[derive(Clone, Copy, Debug, PartialEq, Eq, Structural)]
pub struct StakingPoolAccount {
    /// The balance that can be withdrawn or staked.
    pub unstaked_balance: YoctoNear,
    /// The balance staked, at the venue's current share price.
    pub staked_balance: YoctoNear,
    /// Whether the unstaked balance can be withdrawn now.
    pub can_withdraw: bool,
}

} // verus!
