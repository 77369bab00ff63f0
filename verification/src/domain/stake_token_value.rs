use crate::domain::block_time_height::{
    BlockHeight, BlockTimeHeight, BlockTimestamp, EpochHeight,
};
use crate::domain::yocto_near::YoctoNear;
use crate::domain::yocto_stake::YoctoStake;
use crate::math::{lemma_mul_div_bounds, mul_div, wide_mul_div};
use vstd::prelude::*;

verus! {

/// The value of the share token at one moment: how much NEAR is staked in
/// all, and how many shares stand against it.
///
/// One share is worth `total_staked_near_balance / total_stake_supply` NEAR.
#[derive(Clone, Copy, Debug, PartialEq, Eq, Structural)]
pub struct StakeTokenValue {
    pub block_time_height: BlockTimeHeight,
    pub total_staked_near_balance: YoctoNear,
    pub total_stake_supply: YoctoStake,
}

impl StakeTokenValue {
    /// What [`StakeTokenValue::new`] records.
    ///
    /// The venue cannot stake fractions of its own unit, so the staked
    /// balance it reports may fall short of the supply by a few units. A
    /// share is never worth less than one NEAR: in that case the balance is
    /// taken to equal the supply.
    pub open spec fn new_spec(
        block_time_height: BlockTimeHeight,
        total_staked_near_balance: YoctoNear,
        total_stake_supply: YoctoStake,
    ) -> Self {
        StakeTokenValue {
            block_time_height,
            total_staked_near_balance: if total_staked_near_balance.0 < total_stake_supply.0 {
                YoctoNear(total_stake_supply.0)
            } else {
                total_staked_near_balance
            },
            total_stake_supply,
        }
    }

    /// Records a value as of the given moment.
    pub fn new(
        block_time_height: BlockTimeHeight,
        total_staked_near_balance: YoctoNear,
        total_stake_supply: YoctoStake,
    ) -> (value: Self)
        ensures
            value == Self::new_spec(block_time_height, total_staked_near_balance, total_stake_supply),
    {
        if total_staked_near_balance.0 < total_stake_supply.0 {
            StakeTokenValue {
                block_time_height,
                total_staked_near_balance: YoctoNear(total_stake_supply.0),
                total_stake_supply,
            }
        } else {
            StakeTokenValue { block_time_height, total_staked_near_balance, total_stake_supply }
        }
    }

    pub fn block_time_height(&self) -> (moment: BlockTimeHeight)
        ensures
            moment == self.block_time_height,
    {
        self.block_time_height
    }

    pub fn total_staked_near_balance(&self) -> (balance: YoctoNear)
        ensures
            balance == self.total_staked_near_balance,
    {
        self.total_staked_near_balance
    }

    pub fn total_stake_supply(&self) -> (supply: YoctoStake)
        ensures
            supply == self.total_stake_supply,
    {
        self.total_stake_supply
    }

    /// A share is worth at least one NEAR.
    pub open spec fn wf(self) -> bool {
        self.total_stake_supply.0 <= self.total_staked_near_balance.0
    }

    /// With nothing staked or no share issued, one share is one NEAR.
    pub open spec fn is_one_to_one(self) -> bool {
        self.total_staked_near_balance.0 == 0 || self.total_stake_supply.0 == 0
    }

    /// The shares that `near` buys, rounded down.
    pub open spec fn near_to_stake_spec(self, near: YoctoNear) -> int {
        if self.is_one_to_one() {
            near.0 as int
        } else {
            mul_div(
                near.0 as int,
                self.total_stake_supply.0 as int,
                self.total_staked_near_balance.0 as int,
            )
        }
    }

    /// The NEAR that `stake` is worth, rounded down.
    pub open spec fn stake_to_near_spec(self, stake: YoctoStake) -> int {
        if self.is_one_to_one() {
            stake.0 as int
        } else {
            mul_div(
                stake.0 as int,
                self.total_staked_near_balance.0 as int,
                self.total_stake_supply.0 as int,
            )
        }
    }

    /// Converts NEAR to shares, rounded down; `None` where the result needs
    /// more than 128 bits.
    pub fn checked_near_to_stake(&self, near: YoctoNear) -> (stake: Option<YoctoStake>)
        ensures
            self.near_to_stake_spec(near) <= u128::MAX ==> stake == Some(
                YoctoStake(self.near_to_stake_spec(near) as u128),
            ),
            self.near_to_stake_spec(near) > u128::MAX ==> stake.is_none(),
    {
        if self.total_staked_near_balance.0 == 0 || self.total_stake_supply.0 == 0 {
            return Some(YoctoStake(near.0));
        }
        match wide_mul_div(near.0, self.total_stake_supply.0, self.total_staked_near_balance.0) {
            Some(value) => Some(YoctoStake(value)),
            None => None,
        }
    }

    /// Converts shares to NEAR, rounded down; `None` where the result needs
    /// more than 128 bits.
    pub fn checked_stake_to_near(&self, stake: YoctoStake) -> (near: Option<YoctoNear>)
        ensures
            self.stake_to_near_spec(stake) <= u128::MAX ==> near == Some(
                YoctoNear(self.stake_to_near_spec(stake) as u128),
            ),
            self.stake_to_near_spec(stake) > u128::MAX ==> near.is_none(),
    {
        if self.total_staked_near_balance.0 == 0 || self.total_stake_supply.0 == 0 {
            return Some(YoctoNear(stake.0));
        }
        match wide_mul_div(stake.0, self.total_staked_near_balance.0, self.total_stake_supply.0) {
            Some(value) => Some(YoctoNear(value)),
            None => None,
        }
    }

    /// Converts NEAR to shares, rounded down.
    pub fn near_to_stake(&self, near: YoctoNear) -> (stake: YoctoStake)
        requires
            self.near_to_stake_spec(near) <= u128::MAX,
        ensures
            stake.0 == self.near_to_stake_spec(near),
    {
        match self.checked_near_to_stake(near) {
            Some(stake) => stake,
            None => YoctoStake(0),
        }
    }

    /// Converts shares to NEAR, rounded down.
    pub fn stake_to_near(&self, stake: YoctoStake) -> (near: YoctoNear)
        requires
            self.stake_to_near_spec(stake) <= u128::MAX,
        ensures
            near.0 == self.stake_to_near_spec(stake),
    {
        match self.checked_stake_to_near(stake) {
            Some(near) => near,
            None => YoctoNear(0),
        }
    }

    /// Both conversions are natural numbers, and a value at which a share is
    /// worth at least one NEAR never turns NEAR into more shares than NEAR.
    pub proof fn lemma_conversion_bounds(self, near: YoctoNear, stake: YoctoStake)
        ensures
            0 <= self.near_to_stake_spec(near),
            0 <= self.stake_to_near_spec(stake),
            self.wf() ==> self.near_to_stake_spec(near) <= near.0,
            self.wf() ==> stake.0 <= self.stake_to_near_spec(stake),
    {
        if !self.is_one_to_one() {
            let t = self.total_staked_near_balance.0 as int;
            let s = self.total_stake_supply.0 as int;
            lemma_mul_div_bounds(near.0 as int, s, t);
            lemma_mul_div_bounds(stake.0 as int, t, s);
            if self.wf() {
                let q = mul_div(near.0 as int, s, t);
                assert(q <= near.0) by (nonlinear_arith)
                    requires
                        q * t <= near.0 * s,
                        0 < s <= t,
                        0 <= near.0,
                        0 <= q,
                ;
                let r = mul_div(stake.0 as int, t, s);
                assert(stake.0 <= r) by (nonlinear_arith)
                    requires
                        stake.0 * t < (r + 1) * s,
                        0 < s <= t,
                        0 <= stake.0,
                        0 <= r,
                ;
            }
        }
    }
}

impl Default for StakeTokenValue {
    fn default() -> (value: Self)
        ensures
            value.total_staked_near_balance == YoctoNear(0),
            value.total_stake_supply == YoctoStake(0),
            value.block_time_height == (BlockTimeHeight {
                block_height: BlockHeight(0),
                block_timestamp: BlockTimestamp(0),
                epoch_height: EpochHeight(0),
            }),
    {
        StakeTokenValue {
            block_time_height: BlockTimeHeight::default(),
            total_staked_near_balance: YoctoNear(0),
            total_stake_supply: YoctoStake(0),
        }
    }
}

} // verus!
