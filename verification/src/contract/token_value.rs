//! Recording the value of the share token, and sharing out the earnings.

use crate::contract::state::{Contract, ContractState};
use crate::domain::block_time_height::BlockTimeHeight;
use crate::domain::stake_token_value::StakeTokenValue;
use crate::domain::yocto_near::YoctoNear;
use crate::domain::yocto_stake::YoctoStake;
use crate::errors::Error;
use crate::math::{lemma_mul_div_bounds, mul_div, wide_mul_div, YOCTO};
use vstd::prelude::*;

verus! {

/// The NEAR that one whole share is worth at the given value.
pub open spec fn share_value(value: StakeTokenValue) -> int {
    value.stake_to_near_spec(YoctoStake(YOCTO))
}

/// The staked balance at which `supply` shares are worth `current` each
/// again: the balance at which they are worth just that or a little less,
/// and one unit more where that balance does not reach it.
pub open spec fn compensated_balance(moment: BlockTimeHeight, current: int, supply: YoctoStake) -> int {
    let floor = mul_div(current, supply.0 as int, YOCTO as int);
    if floor <= u128::MAX && share_value(
        StakeTokenValue::new_spec(moment, YoctoNear(floor as u128), supply),
    ) >= current {
        floor
    } else {
        floor + 1
    }
}

impl ContractState {
    /// What [`ContractState::update_stake_token_value`] comes to.
    ///
    /// The value that the reported balance and the share supply make is
    /// recorded as it is where a share is worth no less by it than by the
    /// value recorded before, and where the reported balance is zero. Else
    /// the venue has left a little NEAR unstaked; the balance is raised to
    /// where a share keeps its worth, and what was added to it is added to
    /// the liquidity pool as well.
    pub open spec fn update_stake_token_value_spec(
        self,
        total_staked_near_balance: YoctoNear,
        moment: BlockTimeHeight,
    ) -> Result<ContractState, Error> {
        let supply = self.total_stake.amount;
        let reported = StakeTokenValue::new_spec(moment, total_staked_near_balance, supply);
        let current = share_value(self.stake_token_value);
        let balance = compensated_balance(moment, current, supply);
        if share_value(reported) > u128::MAX || current > u128::MAX {
            Err(Error::BalanceOverflow)
        } else if share_value(reported) >= current || total_staked_near_balance.0 == 0 {
            Ok(ContractState { stake_token_value: reported, ..self })
        } else if supply.0 == 0 {
            Err(Error::StakeTokenValueDecreased)
        } else if balance > u128::MAX || self.near_liquidity_pool.0 + (balance
            - total_staked_near_balance.0) > u128::MAX {
            Err(Error::BalanceOverflow)
        } else {
            Ok(
                ContractState {
                    stake_token_value: StakeTokenValue::new_spec(
                        moment,
                        YoctoNear(balance as u128),
                        supply,
                    ),
                    near_liquidity_pool: YoctoNear(
                        (self.near_liquidity_pool.0 + (balance - total_staked_near_balance.0)) as u128,
                    ),
                    ..self
                },
            )
        }
    }

    /// Records the share value that the venue's report of the staked
    /// balance makes, as of `moment`. A share never loses worth by it,
    /// unless the reported balance is zero. A refusal leaves the state as it
    /// was.
    pub fn update_stake_token_value(
        &mut self,
        total_staked_near_balance: YoctoNear,
        moment: BlockTimeHeight,
    ) -> (res: Result<(), Error>)
        ensures
            match old(self).update_stake_token_value_spec(total_staked_near_balance, moment) {
                Ok(state) => res.is_ok() && *final(self) == state,
                Err(e) => res == Err::<(), Error>(e) && *final(self) == *old(self),
            },
            res.is_ok() && total_staked_near_balance.0 != 0 ==> share_value(
                final(self).stake_token_value,
            ) >= share_value(old(self).stake_token_value),
    {
        let supply = self.total_stake.amount;
        let reported = StakeTokenValue::new(moment, total_staked_near_balance, supply);
        let new_value = match reported.checked_stake_to_near(YoctoStake(YOCTO)) {
            Some(value) => value,
            None => { return Err(Error::BalanceOverflow); },
        };
        let current = match self.stake_token_value.checked_stake_to_near(YoctoStake(YOCTO)) {
            Some(value) => value,
            None => { return Err(Error::BalanceOverflow); },
        };
        proof {
            reported.lemma_conversion_bounds(YoctoNear(0), YoctoStake(YOCTO));
            self.stake_token_value.lemma_conversion_bounds(YoctoNear(0), YoctoStake(YOCTO));
        }
        if new_value.0 >= current.0 || total_staked_near_balance.0 == 0 {
            self.stake_token_value = reported;
            return Ok(());
        }
        if supply.0 == 0 {
            return Err(Error::StakeTokenValueDecreased);
        }
        proof {
            lemma_compensation(moment, total_staked_near_balance, supply, current.0 as int);
        }
        let floor = match wide_mul_div(current.0, supply.0, YOCTO) {
            Some(floor) => floor,
            None => { return Err(Error::BalanceOverflow); },
        };
        let enough = match StakeTokenValue::new(
            moment,
            YoctoNear(floor),
            supply,
        ).checked_stake_to_near(YoctoStake(YOCTO)) {
            Some(value) => value.0 >= current.0,
            None => true,
        };
        let balance = if enough {
            floor
        } else {
            match floor.checked_add(1) {
                Some(balance) => balance,
                None => { return Err(Error::BalanceOverflow); },
            }
        };
        let compensation = balance - total_staked_near_balance.0;
        let pool = match self.near_liquidity_pool.checked_add(YoctoNear(compensation)) {
            Some(pool) => pool,
            None => { return Err(Error::BalanceOverflow); },
        };
        self.stake_token_value = StakeTokenValue::new(moment, YoctoNear(balance), supply);
        self.near_liquidity_pool = pool;
        Ok(())
    }

    /// What [`ContractState::distribute_earnings`] comes to.
    ///
    /// The owner's percentage of what the contract has earned, rounded
    /// down, goes to the owner's balance. The rest goes to the liquidity
    /// pool, from where it is staked for the accounts.
    pub open spec fn distribute_earnings_spec(self) -> Result<ContractState, Error> {
        let percentage = self.config.contract_owner_earnings_percentage;
        let owner = mul_div(self.collected_earnings.0 as int, percentage as int, 100);
        let accounts = self.collected_earnings.0 - owner;
        if percentage > 100 {
            Err(Error::EarningsPercentageOutOfRange)
        } else if self.contract_owner_balance.0 + owner > u128::MAX || self.near_liquidity_pool.0
            + accounts > u128::MAX {
            Err(Error::BalanceOverflow)
        } else {
            Ok(
                ContractState {
                    contract_owner_balance: YoctoNear(
                        (self.contract_owner_balance.0 + owner) as u128,
                    ),
                    near_liquidity_pool: YoctoNear((self.near_liquidity_pool.0 + accounts) as u128),
                    collected_earnings: YoctoNear(0),
                    ..self
                },
            )
        }
    }

    /// Shares out what the contract has earned since the last stake round
    /// between its owner and the accounts. A refusal leaves the state as it
    /// was.
    pub fn distribute_earnings(&mut self) -> (res: Result<(), Error>)
        ensures
            match old(self).distribute_earnings_spec() {
                Ok(state) => res.is_ok() && *final(self) == state,
                Err(e) => res == Err::<(), Error>(e) && *final(self) == *old(self),
            },
            res.is_ok() ==> final(self).contract_owner_balance.0 + final(self).near_liquidity_pool.0
                == old(self).contract_owner_balance.0 + old(self).near_liquidity_pool.0 + old(self).collected_earnings.0,
    {
        let percentage = self.config.contract_owner_earnings_percentage;
        if percentage > 100 {
            return Err(Error::EarningsPercentageOutOfRange);
        }
        proof {
            lemma_mul_div_bounds(self.collected_earnings.0 as int, percentage as int, 100);
            let owner = mul_div(self.collected_earnings.0 as int, percentage as int, 100);
            assert(owner <= self.collected_earnings.0) by (nonlinear_arith)
                requires
                    owner * 100 <= self.collected_earnings.0 * percentage,
                    0 <= percentage <= 100,
                    0 <= self.collected_earnings.0,
                    0 <= owner,
            ;
        }
        let owner = match wide_mul_div(self.collected_earnings.0, percentage as u128, 100) {
            Some(owner) => owner,
            None => { return Err(Error::BalanceOverflow); },
        };
        let accounts = self.collected_earnings.0 - owner;
        let owner_balance = match self.contract_owner_balance.checked_add(YoctoNear(owner)) {
            Some(balance) => balance,
            None => { return Err(Error::BalanceOverflow); },
        };
        let pool = match self.near_liquidity_pool.checked_add(YoctoNear(accounts)) {
            Some(pool) => pool,
            None => { return Err(Error::BalanceOverflow); },
        };
        self.contract_owner_balance = owner_balance;
        self.near_liquidity_pool = pool;
        self.collected_earnings = YoctoNear(0);
        Ok(())
    }
}

/// Where the value that a report makes lies below `current` although
/// shares exist, the compensated balance lies above the reported one, and a
/// share is worth `current` or more at it.
pub proof fn lemma_compensation(
    moment: BlockTimeHeight,
    total_staked_near_balance: YoctoNear,
    supply: YoctoStake,
    current: int,
)
    requires
        supply.0 != 0,
        total_staked_near_balance.0 != 0,
        share_value(StakeTokenValue::new_spec(moment, total_staked_near_balance, supply)) < current,
    ensures
        0 <= mul_div(current, supply.0 as int, YOCTO as int),
        total_staked_near_balance.0 <= mul_div(current, supply.0 as int, YOCTO as int),
        total_staked_near_balance.0 <= compensated_balance(moment, current, supply),
        compensated_balance(moment, current, supply) <= u128::MAX ==> share_value(
            StakeTokenValue::new_spec(
                moment,
                YoctoNear(compensated_balance(moment, current, supply) as u128),
                supply,
            ),
        ) >= current,
{
    let s = supply.0 as int;
    let t = total_staked_near_balance.0 as int;
    let y = YOCTO as int;
    let raised = if t < s {
        s
    } else {
        t
    };
    // the reported value is y * raised / s, and it lies below current
    lemma_mul_div_bounds(y, raised, s);
    let reported = mul_div(y, raised, s);
    assert(reported == share_value(
        StakeTokenValue::new_spec(moment, total_staked_near_balance, supply),
    ));
    assert(0 <= current);
    lemma_mul_div_bounds(current, s, y);
    let floor = mul_div(current, s, y);
    // raised * y < current * s, hence raised <= floor
    assert(y * raised < current * s) by (nonlinear_arith)
        requires
            y * raised < (reported + 1) * s,
            reported + 1 <= current,
            0 < s,
    ;
    assert(raised <= floor) by (nonlinear_arith)
        requires
            y * raised < current * s,
            current * s < (floor + 1) * y,
            0 < y,
    ;
    let balance = compensated_balance(moment, current, supply);
    if balance <= u128::MAX {
        let value = StakeTokenValue::new_spec(moment, YoctoNear(balance as u128), supply);
        if balance == floor + 1 {
            assert(value.total_staked_near_balance.0 == balance);
            lemma_mul_div_bounds(y, balance, s);
            let worth = mul_div(y, balance, s);
            assert(current <= worth) by (nonlinear_arith)
                requires
                    current * s < (floor + 1) * y,
                    balance == floor + 1,
                    y * balance < (worth + 1) * s,
                    0 < s,
            ;
        }
    }
}

impl Contract {
    /// Records the share value that the venue's report of the staked
    /// balance makes, as of `moment`. A share never loses worth by it,
    /// unless the reported balance is zero. A refusal leaves the contract as
    /// it was.
    pub fn update_stake_token_value(
        &mut self,
        total_staked_near_balance: YoctoNear,
        moment: BlockTimeHeight,
    ) -> (res: Result<(), Error>)
        ensures
            final(self)@.stake_batch_receipts == old(self)@.stake_batch_receipts,
            final(self)@.redeem_stake_batch_receipts == old(self)@.redeem_stake_batch_receipts,
            match old(self)@.state.update_stake_token_value_spec(total_staked_near_balance, moment) {
                Ok(state) => res.is_ok() && final(self)@.state == state,
                Err(e) => res == Err::<(), Error>(e) && final(self)@.state == old(self)@.state,
            },
            res.is_ok() && total_staked_near_balance.0 != 0 ==> share_value(
                final(self)@.state.stake_token_value,
            ) >= share_value(old(self)@.state.stake_token_value),
    {
        self.state.update_stake_token_value(total_staked_near_balance, moment)
    }
}

} // verus!
