use crate::config::Config;
use crate::contract::receipts::{lookup, ReceiptTable};
use crate::domain::balance::{NearBalance, StakeBalance};
use crate::domain::batch::{RedeemStakeBatch, StakeBatch};
use crate::domain::batch_id::BatchId;
use crate::domain::block_time_height::{
    BlockHeight, BlockTimeHeight, BlockTimestamp, EpochHeight,
};
use crate::domain::lock::{RedeemLock, StakeLock};
use crate::domain::receipt::{RedeemStakeBatchReceipt, StakeBatchReceipt};
use crate::domain::stake_token_value::StakeTokenValue;
use crate::domain::yocto_near::YoctoNear;
use crate::domain::yocto_stake::YoctoStake;
use vstd::prelude::*;

verus! {

/// What the contract holds besides its receipts.
#[derive(Clone, Copy, Debug, PartialEq, Eq, Structural)]
pub struct ContractState {
    pub config: Config,
    /// All the shares that were issued and not redeemed.
    pub total_stake: StakeBalance,
    /// The NEAR that was withdrawn from the venue for the accounts and that
    /// they have not taken out yet.
    pub total_near: NearBalance,
    /// NEAR held back from staking, out of which redemptions are paid
    /// before the venue releases what was unstaked.
    pub near_liquidity_pool: YoctoNear,
    /// The share value as it was last recorded.
    pub stake_token_value: StakeTokenValue,
    /// The number of the batch that was made last.
    pub batch_id_sequence: BatchId,
    /// The deposits that the next stake round will stake.
    pub stake_batch: Option<StakeBatch>,
    /// The deposits that arrived while a stake round was running.
    pub next_stake_batch: Option<StakeBatch>,
    /// The shares that the next redeem round will unstake, or that the
    /// running one has unstaked.
    pub redeem_stake_batch: Option<RedeemStakeBatch>,
    /// The shares that arrived while a redeem round was running.
    pub next_redeem_stake_batch: Option<RedeemStakeBatch>,
    /// The phase of the stake round, if one is running.
    pub stake_batch_lock: Option<StakeLock>,
    /// The phase of the redeem round, if one is running.
    pub redeem_stake_batch_lock: Option<RedeemLock>,
    /// What the contract has earned since the last stake round.
    pub collected_earnings: YoctoNear,
    /// The owner's share of the earnings that were distributed.
    pub contract_owner_balance: YoctoNear,
}

/// The contract: its state and the receipts of the batches that were run.
pub struct Contract {
    pub state: ContractState,
    pub stake_batch_receipts: ReceiptTable<StakeBatchReceipt>,
    pub redeem_stake_batch_receipts: ReceiptTable<RedeemStakeBatchReceipt>,
}

/// The contract as the specifications see it: the receipts are maps from
/// the number of a batch to its receipt.
pub struct ContractView {
    pub state: ContractState,
    pub stake_batch_receipts: Map<u128, StakeBatchReceipt>,
    pub redeem_stake_batch_receipts: Map<u128, RedeemStakeBatchReceipt>,
}

impl ContractState {
    /// The state of a contract that has not been used yet.
    pub open spec fn new_spec(config: Config) -> Self {
        ContractState {
            config,
            total_stake: StakeBalance { amount: YoctoStake(0) },
            total_near: NearBalance { amount: YoctoNear(0) },
            near_liquidity_pool: YoctoNear(0),
            stake_token_value: StakeTokenValue {
                block_time_height: BlockTimeHeight {
                    block_height: BlockHeight(0),
                    block_timestamp: BlockTimestamp(0),
                    epoch_height: EpochHeight(0),
                },
                total_staked_near_balance: YoctoNear(0),
                total_stake_supply: YoctoStake(0),
            },
            batch_id_sequence: BatchId(0),
            stake_batch: None,
            next_stake_batch: None,
            redeem_stake_batch: None,
            next_redeem_stake_batch: None,
            stake_batch_lock: None,
            redeem_stake_batch_lock: None,
            collected_earnings: YoctoNear(0),
            contract_owner_balance: YoctoNear(0),
        }
    }

    /// Whether a stake round, or a refresh of the share value, is running.
    pub open spec fn stake_batch_locked_spec(&self) -> bool {
        self.stake_batch_lock is Some
    }

    /// Whether a stake round, or a refresh of the share value, is running.
    #[verifier::when_used_as_spec(stake_batch_locked_spec)]
    pub fn stake_batch_locked(&self) -> (locked: bool)
        ensures
            locked == self.stake_batch_locked_spec(),
    {
        self.stake_batch_lock.is_some()
    }

    /// Whether a redeem round is unstaking at the venue.
    pub open spec fn is_unstaking_spec(&self) -> bool {
        self.redeem_stake_batch_lock == Some(RedeemLock::Unstaking)
    }

    /// Whether a redeem round is unstaking at the venue.
    #[verifier::when_used_as_spec(is_unstaking_spec)]
    pub fn is_unstaking(&self) -> (unstaking: bool)
        ensures
            unstaking == self.is_unstaking_spec(),
    {
        match self.redeem_stake_batch_lock {
            Some(RedeemLock::Unstaking) => true,
            _ => false,
        }
    }

    /// Whether a stake round may be started, and deposits taken back from
    /// the current batch: nothing locks the stake side, and no unstaking is
    /// under way at the venue.
    pub open spec fn can_run_batch_spec(&self) -> bool {
        !self.stake_batch_locked_spec() && !self.is_unstaking_spec()
    }

    /// Whether a stake round may be started.
    #[verifier::when_used_as_spec(can_run_batch_spec)]
    pub fn can_run_batch(&self) -> (can: bool)
        ensures
            can == self.can_run_batch_spec(),
    {
        !self.stake_batch_locked() && !self.is_unstaking()
    }
}

impl View for Contract {
    type V = ContractView;

    open spec fn view(&self) -> ContractView {
        ContractView {
            state: self.state,
            stake_batch_receipts: self.stake_batch_receipts@,
            redeem_stake_batch_receipts: self.redeem_stake_batch_receipts@,
        }
    }
}

impl ContractView {
    /// The receipt of the redeem batch whose NEAR waits at the venue.
    pub open spec fn pending_withdrawal(self) -> Option<RedeemStakeBatchReceipt> {
        match self.state.redeem_stake_batch {
            Some(batch) => lookup(self.redeem_stake_batch_receipts, batch.batch_id),
            None => None,
        }
    }
}

impl Contract {
    /// A contract that has not been used yet.
    pub fn new(config: Config) -> (contract: Self)
        ensures
            contract@.state == ContractState::new_spec(config),
            contract@.stake_batch_receipts == Map::<u128, StakeBatchReceipt>::empty(),
            contract@.redeem_stake_batch_receipts == Map::<u128, RedeemStakeBatchReceipt>::empty(),
    {
        Contract {
            state: ContractState {
                config,
                total_stake: StakeBalance::new(YoctoStake(0)),
                total_near: NearBalance::new(YoctoNear(0)),
                near_liquidity_pool: YoctoNear(0),
                stake_token_value: StakeTokenValue::default(),
                batch_id_sequence: BatchId(0),
                stake_batch: None,
                next_stake_batch: None,
                redeem_stake_batch: None,
                next_redeem_stake_batch: None,
                stake_batch_lock: None,
                redeem_stake_batch_lock: None,
                collected_earnings: YoctoNear(0),
                contract_owner_balance: YoctoNear(0),
            },
            stake_batch_receipts: ReceiptTable::new(),
            redeem_stake_batch_receipts: ReceiptTable::new(),
        }
    }

    /// The share value as it was last recorded.
    pub fn stake_token_value(&self) -> (value: StakeTokenValue)
        ensures
            value == self.state.stake_token_value,
    {
        self.state.stake_token_value
    }

    /// The receipt of a stake batch, while something is left to claim on it.
    pub fn stake_batch_receipt(&self, batch_id: BatchId) -> (receipt: Option<StakeBatchReceipt>)
        ensures
            receipt == lookup(self@.stake_batch_receipts, batch_id),
    {
        self.stake_batch_receipts.get(batch_id)
    }

    /// The receipt of a redeem batch, while something is left to claim on it.
    pub fn redeem_stake_batch_receipt(&self, batch_id: BatchId) -> (receipt: Option<
        RedeemStakeBatchReceipt,
    >)
        ensures
            receipt == lookup(self@.redeem_stake_batch_receipts, batch_id),
    {
        self.redeem_stake_batch_receipts.get(batch_id)
    }

    /// The receipt of the current redeem batch, if it has been unstaked:
    /// its NEAR waits to be withdrawn from the venue.
    pub fn get_pending_withdrawal(&self) -> (receipt: Option<RedeemStakeBatchReceipt>)
        ensures
            receipt == self@.pending_withdrawal(),
    {
        match self.state.redeem_stake_batch {
            Some(batch) => self.redeem_stake_batch_receipts.get(batch.batch_id),
            None => None,
        }
    }

    /// Whether a stake round, or a refresh of the share value, is running.
    pub fn stake_batch_locked(&self) -> (locked: bool)
        ensures
            locked == self.state.stake_batch_locked_spec(),
    {
        self.state.stake_batch_locked()
    }

    /// Whether a redeem round is unstaking at the venue.
    pub fn is_unstaking(&self) -> (unstaking: bool)
        ensures
            unstaking == self.state.is_unstaking_spec(),
    {
        self.state.is_unstaking()
    }

    /// Whether a stake round may be started.
    pub fn can_run_batch(&self) -> (can: bool)
        ensures
            can == self.state.can_run_batch_spec(),
    {
        self.state.can_run_batch()
    }
}

} // verus!
