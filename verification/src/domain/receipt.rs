use crate::domain::block_time_height::EpochHeight;
use crate::domain::stake_token_value::StakeTokenValue;
use crate::domain::yocto_near::YoctoNear;
use crate::domain::yocto_stake::YoctoStake;
use crate::errors::Error;
use vstd::prelude::*;

verus! {

/// The number of epochs for which the venue holds unstaked NEAR back.
pub const UNSTAKED_NEAR_FUNDS_NUM_EPOCHS_TO_UNLOCK: u64 = 4;

/// The settlement of one stake batch: what was staked, at which value, and
/// how much of it the contributors have yet to claim as shares.
#[derive(Clone, Copy, Debug, PartialEq, Eq, Structural)]
pub struct StakeBatchReceipt {
    /// The NEAR that the batch held when it was staked.
    pub batched_near: YoctoNear,
    /// The value at which the batch was settled.
    pub stake_token_value: StakeTokenValue,
    /// The NEAR for which shares are still unclaimed.
    pub staked_near: YoctoNear,
}

impl StakeBatchReceipt {
    /// What [`StakeBatchReceipt::new`] returns.
    pub open spec fn new_spec(staked_near: YoctoNear, stake_token_value: StakeTokenValue) -> Self {
        StakeBatchReceipt { batched_near: staked_near, stake_token_value, staked_near }
    }

    /// The receipt of a batch of `staked_near`, none of it claimed yet.
    pub fn new(staked_near: YoctoNear, stake_token_value: StakeTokenValue) -> (receipt: Self)
        ensures
            receipt == Self::new_spec(staked_near, stake_token_value),
    {
        StakeBatchReceipt { batched_near: staked_near, stake_token_value, staked_near }
    }

    /// The NEAR that the batch held when it was staked.
    pub fn batched_near(&self) -> (amount: YoctoNear)
        ensures
            amount == self.batched_near,
    {
        self.batched_near
    }

    /// The NEAR for which shares are still unclaimed.
    pub fn staked_near(&self) -> (amount: YoctoNear)
        ensures
            amount == self.staked_near,
    {
        self.staked_near
    }

    /// The value at which the batch was settled.
    pub fn stake_token_value(&self) -> (value: StakeTokenValue)
        ensures
            value == self.stake_token_value,
    {
        self.stake_token_value
    }

    /// Whether nothing is left to claim, so that the receipt can be deleted.
    pub fn all_claimed(&self) -> (claimed: bool)
        ensures
            claimed == (self.staked_near.0 == 0),
    {
        self.staked_near.0 == 0
    }

    /// Records that the shares for `staked_near` were handed out. Refused,
    /// with the receipt unchanged, where less than that is left on it.
    pub fn stake_tokens_issued(&mut self, staked_near: YoctoNear) -> (res: Result<(), Error>)
        ensures
            staked_near.0 <= old(self).staked_near.0 ==> res.is_ok() && *final(self) == (
            StakeBatchReceipt {
                staked_near: YoctoNear((old(self).staked_near.0 - staked_near.0) as u128),
                ..*old(self)
            }),
            staked_near.0 > old(self).staked_near.0 ==> res == Err::<(), Error>(
                Error::ReceiptBalanceTooLow,
            ) && *final(self) == *old(self),
    {
        match self.staked_near.checked_sub(staked_near) {
            Some(rest) => {
                self.staked_near = rest;
                Ok(())
            },
            None => Err(Error::ReceiptBalanceTooLow),
        }
    }
}

/// The settlement of one redeem batch: what was redeemed, at which value,
/// and how many of the shares the contributors have yet to claim as NEAR.
#[derive(Clone, Copy, Debug, PartialEq, Eq, Structural)]
pub struct RedeemStakeBatchReceipt {
    /// The shares that the batch held when it was unstaked.
    pub batched_stake: YoctoStake,
    /// The value at which the batch was settled.
    pub stake_token_value: StakeTokenValue,
    /// The shares for which NEAR is still unclaimed.
    pub redeemed_stake: YoctoStake,
}

impl RedeemStakeBatchReceipt {
    /// What [`RedeemStakeBatchReceipt::new`] returns.
    pub open spec fn new_spec(redeemed_stake: YoctoStake, stake_token_value: StakeTokenValue) -> Self {
        RedeemStakeBatchReceipt { batched_stake: redeemed_stake, stake_token_value, redeemed_stake }
    }

    /// The receipt of a batch of `redeemed_stake`, none of it claimed yet.
    pub fn new(redeemed_stake: YoctoStake, stake_token_value: StakeTokenValue) -> (receipt: Self)
        ensures
            receipt == Self::new_spec(redeemed_stake, stake_token_value),
    {
        RedeemStakeBatchReceipt { batched_stake: redeemed_stake, stake_token_value, redeemed_stake }
    }

    /// The shares that the batch held when it was unstaked.
    pub fn batched_stake(&self) -> (amount: YoctoStake)
        ensures
            amount == self.batched_stake,
    {
        self.batched_stake
    }

    /// The shares for which NEAR is still unclaimed.
    pub fn redeemed_stake(&self) -> (amount: YoctoStake)
        ensures
            amount == self.redeemed_stake,
    {
        self.redeemed_stake
    }

    /// The value at which the batch was settled.
    pub fn stake_token_value(&self) -> (value: StakeTokenValue)
        ensures
            value == self.stake_token_value,
    {
        self.stake_token_value
    }

    /// Whether nothing is left to claim, so that the receipt can be deleted.
    pub fn all_claimed(&self) -> (claimed: bool)
        ensures
            claimed == (self.redeemed_stake.0 == 0),
    {
        self.redeemed_stake.0 == 0
    }

    /// Records that the NEAR for `redeemed_stake` was handed out. Refused,
    /// with the receipt unchanged, where fewer shares are left on it.
    pub fn stake_tokens_redeemed(&mut self, redeemed_stake: YoctoStake) -> (res: Result<(), Error>)
        ensures
            redeemed_stake.0 <= old(self).redeemed_stake.0 ==> res.is_ok() && *final(self) == (
            RedeemStakeBatchReceipt {
                redeemed_stake: YoctoStake((old(self).redeemed_stake.0 - redeemed_stake.0) as u128),
                ..*old(self)
            }),
            redeemed_stake.0 > old(self).redeemed_stake.0 ==> res == Err::<(), Error>(
                Error::ReceiptBalanceTooLow,
            ) && *final(self) == *old(self),
    {
        match self.redeemed_stake.checked_sub(redeemed_stake) {
            Some(rest) => {
                self.redeemed_stake = rest;
                Ok(())
            },
            None => Err(Error::ReceiptBalanceTooLow),
        }
    }

    /// The NEAR that the unclaimed shares are worth at the receipt's value;
    /// `None` where that needs more than 128 bits.
    pub fn stake_near_value(&self) -> (near: Option<YoctoNear>)
        ensures
            self.stake_token_value.stake_to_near_spec(self.redeemed_stake) <= u128::MAX ==> near
                == Some(
                YoctoNear(self.stake_token_value.stake_to_near_spec(self.redeemed_stake) as u128),
            ),
            self.stake_token_value.stake_to_near_spec(self.redeemed_stake) > u128::MAX
                ==> near.is_none(),
    {
        self.stake_token_value.checked_stake_to_near(self.redeemed_stake)
    }

    /// Whether the venue's hold on the unstaked NEAR has run out by the
    /// epoch `current`: the hold lasts
    /// [`UNSTAKED_NEAR_FUNDS_NUM_EPOCHS_TO_UNLOCK`] epochs from the epoch of
    /// the receipt's value.
    pub open spec fn unstaked_funds_available_for_withdrawal_spec(
        self,
        current: EpochHeight,
    ) -> bool {
        self.stake_token_value.block_time_height.epoch_height.0
            + UNSTAKED_NEAR_FUNDS_NUM_EPOCHS_TO_UNLOCK <= current.0
    }

    /// Whether the venue's hold on the unstaked NEAR has run out by the
    /// epoch `current`.
    pub fn unstaked_funds_available_for_withdrawal(&self, current: EpochHeight) -> (available: bool)
        ensures
            available == self.unstaked_funds_available_for_withdrawal_spec(current),
    {
        let unlocked_from = self.stake_token_value.block_time_height.epoch_height.0.checked_add(
            UNSTAKED_NEAR_FUNDS_NUM_EPOCHS_TO_UNLOCK,
        );
        match unlocked_from {
            Some(epoch) => epoch <= current.0,
            None => false,
        }
    }
}

} // verus!
