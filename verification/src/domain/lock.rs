use crate::domain::yocto_near::YoctoNear;
use vstd::prelude::*;

verus! {

/// The phase of a stake round, or of a refresh of the share value. While one
/// is set, deposits go to the next batch.
#[derive(Clone, Copy, Debug, PartialEq, Eq, Structural)]
pub enum StakeLock {
    /// The batch is on its way to the venue.
    Staking,
    /// The venue has staked the batch and reported its balances.
    Staked {
        /// What the round added to the liquidity pool.
        near_liquidity: Option<YoctoNear>,
        /// The staked balance that the venue reported.
        staked_balance: YoctoNear,
        /// The unstaked balance that the venue reported.
        unstaked_balance: YoctoNear,
    },
    /// The share value is being read from the venue.
    RefreshingStakeTokenValue,
}

/// The phase of a redeem round. While one is set, redemptions go to the
/// next batch.
#[derive(Clone, Copy, Debug, PartialEq, Eq, Structural)]
pub enum RedeemLock {
    /// The batch is being unstaked at the venue.
    Unstaking,
    /// The batch is unstaked, and its NEAR waits to be withdrawn.
    PendingWithdrawal,
}

} // verus!
