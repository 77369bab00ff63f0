//! What is reported of a batch after an operation has touched it.

use crate::contract::state::Contract;
use crate::domain::batch::{RedeemStakeBatch, StakeBatch};
use crate::domain::batch_id::BatchId;
use vstd::prelude::*;

verus! {

/// What is reported of a stake batch.
#[derive(Clone, Copy, Debug, PartialEq, Eq, Structural)]
pub enum StakeBatchEvent {
    /// The batch as it stands now.
    StakeBatch(StakeBatch),
    /// The contract has no stake batch: the batch of the given number is gone.
    StakeBatchCancelled { batch_id: BatchId },
}

/// What is reported of a redeem batch.
#[derive(Clone, Copy, Debug, PartialEq, Eq, Structural)]
pub enum RedeemStakeBatchEvent {
    /// The batch as it stands now.
    RedeemStakeBatch(RedeemStakeBatch),
    /// The contract has no redeem batch: the batch of the given number is gone.
    RedeemStakeBatchCancelled { batch_id: BatchId },
}

impl Contract {
    /// What is to be reported of the stake batch of the given number.
    ///
    /// Where the contract has a current stake batch, that batch is
    /// reported if it is the one asked for, and nothing else. Without a
    /// current batch the same holds of the next batch. Without either, the
    /// batch is reported as gone.
    pub fn log_stake_batch(&self, batch_id: BatchId) -> (event: Option<StakeBatchEvent>)
        ensures
            event == (if self@.state.stake_batch is Some {
                if self@.state.stake_batch->0.batch_id == batch_id {
                    Some(StakeBatchEvent::StakeBatch(self@.state.stake_batch->0))
                } else {
                    None
                }
            } else if self@.state.next_stake_batch is Some {
                if self@.state.next_stake_batch->0.batch_id == batch_id {
                    Some(StakeBatchEvent::StakeBatch(self@.state.next_stake_batch->0))
                } else {
                    None
                }
            } else {
                Some(StakeBatchEvent::StakeBatchCancelled { batch_id })
            }),
    {
        if let Some(batch) = self.state.stake_batch {
            if batch_id.0 == batch.batch_id.0 {
                Some(StakeBatchEvent::StakeBatch(batch))
            } else {
                None
            }
        } else if let Some(batch) = self.state.next_stake_batch {
            if batch_id.0 == batch.batch_id.0 {
                Some(StakeBatchEvent::StakeBatch(batch))
            } else {
                None
            }
        } else {
            Some(StakeBatchEvent::StakeBatchCancelled { batch_id })
        }
    }

    /// What is to be reported of the redeem batch of the given number.
    ///
    /// Where the contract has a current redeem batch, that batch is
    /// reported if it is the one asked for, and nothing else. Without a
    /// current batch the same holds of the next batch. Without either, the
    /// batch is reported as gone.
    pub fn log_redeem_stake_batch(&self, batch_id: BatchId) -> (event: Option<RedeemStakeBatchEvent>)
        ensures
            event == (if self@.state.redeem_stake_batch is Some {
                if self@.state.redeem_stake_batch->0.batch_id == batch_id {
                    Some(RedeemStakeBatchEvent::RedeemStakeBatch(self@.state.redeem_stake_batch->0))
                } else {
                    None
                }
            } else if self@.state.next_redeem_stake_batch is Some {
                if self@.state.next_redeem_stake_batch->0.batch_id == batch_id {
                    Some(
                        RedeemStakeBatchEvent::RedeemStakeBatch(
                            self@.state.next_redeem_stake_batch->0,
                        ),
                    )
                } else {
                    None
                }
            } else {
                Some(RedeemStakeBatchEvent::RedeemStakeBatchCancelled { batch_id })
            }),
    {
        if let Some(batch) = self.state.redeem_stake_batch {
            if batch_id.0 == batch.batch_id.0 {
                Some(RedeemStakeBatchEvent::RedeemStakeBatch(batch))
            } else {
                None
            }
        } else if let Some(batch) = self.state.next_redeem_stake_batch {
            if batch_id.0 == batch.batch_id.0 {
                Some(RedeemStakeBatchEvent::RedeemStakeBatch(batch))
            } else {
                None
            }
        } else {
            Some(RedeemStakeBatchEvent::RedeemStakeBatchCancelled { batch_id })
        }
    }
}

} // verus!
