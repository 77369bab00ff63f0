//! What holds of the engine as a whole, proved from the specifications of
//! its operations.

pub mod redeem_batches;
pub mod stake_batches;

use crate::contract::claims::{
    claim_receipt_funds_spec, claim_redeem_slot, claim_redeem_stake_batch_receipts_spec,
    claim_stake_batch_receipts_spec, claim_stake_slot, RedeemReceipts, StakeReceipts,
};
use crate::contract::outcome::{settled_then, StateOutcome};
use crate::contract::redeem_workflow::{
    on_unstake_spec, redeem_all_and_unstake_spec, redeem_and_unstake_spec,
};
use crate::contract::stake_workflow::{
    deposit_and_stake_spec, process_staked_batch_spec, with_state,
};
use crate::contract::state::{ContractState, ContractView};
use crate::contract::token_value::{lemma_compensation, share_value};
use crate::domain::account::Account;
use crate::domain::batch::{RedeemStakeBatch, StakeBatch};
use crate::domain::batch_id::BatchId;
use crate::domain::block_time_height::BlockTimeHeight;
use crate::domain::block_time_height::EpochHeight;
use crate::domain::lock::RedeemLock;
use crate::domain::receipt::{RedeemStakeBatchReceipt, StakeBatchReceipt};
use crate::domain::stake_token_value::StakeTokenValue;
use crate::domain::staking_pool::StakingPoolAccount;
use crate::domain::yocto_near::YoctoNear;
use crate::domain::yocto_stake::YoctoStake;
use crate::errors::Error;
use crate::laws::redeem_batches::{
    law_redeem_steps_keep_redeem_batches_consistent, law_settling_keeps_redeem_batches_consistent,
    law_unstaking_keeps_redeem_batches_consistent, law_withdrawal_keeps_redeem_batches_consistent,
    lemma_redeem_consistency_frame, lemma_stake_claims_leave_redeem_batches,
    accounts_batched_stake, redeem_batch_consistent, redeem_batches_consistent,
};
use crate::laws::stake_batches::{
    law_deposit_step_keeps_stake_batches_consistent, law_settling_keeps_stake_batches_consistent,
    law_stake_round_keeps_stake_batches_consistent,
    law_withdrawal_step_keeps_stake_batches_consistent, lemma_consistency_frame,
    accounts_batched_near, stake_batch_consistent, stake_batches_consistent,
};
use vstd::prelude::*;

verus! {

/// Batch numbers are issued in strictly increasing order, whatever the
/// kinds of the batches: a new batch gets the number after the last one
/// issued, which then is the last one issued.
pub proof fn law_batch_ids_increase(state: ContractState)
    ensures
        match state.new_stake_batch_spec() {
            Ok((after, batch)) => batch.batch_id.0 == state.batch_id_sequence.0 + 1
                && after.batch_id_sequence == batch.batch_id,
            Err(_) => state.batch_id_sequence.0 == u128::MAX,
        },
        match state.new_redeem_stake_batch_spec() {
            Ok((after, batch)) => batch.batch_id.0 == state.batch_id_sequence.0 + 1
                && after.batch_id_sequence == batch.batch_id,
            Err(_) => state.batch_id_sequence.0 == u128::MAX,
        },
{
}

/// A deposit and a redemption never lower the number issued last. The batch
/// that takes them is the batch that the contract already had in the slot,
/// or a new batch with the number after the one issued last.
pub proof fn law_batching_issues_fresh_ids(
    state: ContractState,
    account: Account,
    near: YoctoNear,
    stake: YoctoStake,
)
    ensures
        match state.batch_near_for_account_spec(account, near) {
            Ok((after, _, batch_id)) => {
                let slot = if state.stake_batch_lock is None {
                    state.stake_batch
                } else {
                    state.next_stake_batch
                };
                if slot is Some {
                    batch_id == slot->0.batch_id && after.batch_id_sequence
                        == state.batch_id_sequence
                } else {
                    batch_id.0 == state.batch_id_sequence.0 + 1 && after.batch_id_sequence
                        == batch_id
                }
            },
            Err(_) => true,
        },
        match state.batch_stake_for_account_spec(account, stake) {
            Ok((after, _, batch_id)) => {
                let slot = if state.redeem_stake_batch_lock is None {
                    state.redeem_stake_batch
                } else {
                    state.next_redeem_stake_batch
                };
                if slot is Some {
                    batch_id == slot->0.batch_id && after.batch_id_sequence
                        == state.batch_id_sequence
                } else {
                    batch_id.0 == state.batch_id_sequence.0 + 1 && after.batch_id_sequence
                        == batch_id
                }
            },
            Err(_) => true,
        },
{
}

/// Whether every batch number in use has been issued: the numbers of the
/// contract's batches, of the account's batches and of the receipts are no
/// greater than the number issued last.
pub open spec fn batch_ids_issued(contract: ContractView, account: Account) -> bool {
    let last = contract.state.batch_id_sequence.0;
    &&& contract.state.stake_batch is Some ==> contract.state.stake_batch->0.batch_id.0 <= last
    &&& contract.state.next_stake_batch is Some ==> contract.state.next_stake_batch->0.batch_id.0
        <= last
    &&& contract.state.redeem_stake_batch is Some
        ==> contract.state.redeem_stake_batch->0.batch_id.0 <= last
    &&& contract.state.next_redeem_stake_batch is Some
        ==> contract.state.next_redeem_stake_batch->0.batch_id.0 <= last
    &&& account.stake_batch is Some ==> account.stake_batch->0.batch_id.0 <= last
    &&& account.next_stake_batch is Some ==> account.next_stake_batch->0.batch_id.0 <= last
    &&& account.redeem_stake_batch is Some ==> account.redeem_stake_batch->0.batch_id.0 <= last
    &&& account.next_redeem_stake_batch is Some ==> account.next_redeem_stake_batch->0.batch_id.0
        <= last
    &&& forall|id: u128| #[trigger]
        contract.stake_batch_receipts.contains_key(id) ==> id <= last
    &&& forall|id: u128| #[trigger]
        contract.redeem_stake_batch_receipts.contains_key(id) ==> id <= last
}

/// Whether a batch number is in use: a batch of the contract or of the
/// account has it, or a receipt is stored under it.
pub open spec fn batch_id_in_use(contract: ContractView, account: Account, id: BatchId) -> bool {
    ||| contract.state.stake_batch is Some && contract.state.stake_batch->0.batch_id == id
    ||| contract.state.next_stake_batch is Some && contract.state.next_stake_batch->0.batch_id
        == id
    ||| contract.state.redeem_stake_batch is Some && contract.state.redeem_stake_batch->0.batch_id
        == id
    ||| contract.state.next_redeem_stake_batch is Some
        && contract.state.next_redeem_stake_batch->0.batch_id == id
    ||| account.stake_batch is Some && account.stake_batch->0.batch_id == id
    ||| account.next_stake_batch is Some && account.next_stake_batch->0.batch_id == id
    ||| account.redeem_stake_batch is Some && account.redeem_stake_batch->0.batch_id == id
    ||| account.next_redeem_stake_batch is Some && account.next_redeem_stake_batch->0.batch_id
        == id
    ||| contract.stake_batch_receipts.contains_key(id.0)
    ||| contract.redeem_stake_batch_receipts.contains_key(id.0)
}

/// No batch number is used twice: where every number in use has been
/// issued, the number that a new batch of either kind gets is in use
/// nowhere.
pub proof fn law_batch_ids_are_not_reused(contract: ContractView, account: Account)
    requires
        batch_ids_issued(contract, account),
    ensures
        match contract.state.new_stake_batch_spec() {
            Ok((_, batch)) => !batch_id_in_use(contract, account, batch.batch_id),
            Err(_) => true,
        },
        match contract.state.new_redeem_stake_batch_spec() {
            Ok((_, batch)) => !batch_id_in_use(contract, account, batch.batch_id),
            Err(_) => true,
        },
{
}

/// The claim of a stake batch stores no receipt under a new number and
/// touches no batch of the account.
proof fn lemma_stake_slot_frame(receipts: StakeReceipts, account: Account, slot: Option<StakeBatch>)
    ensures
        match claim_stake_slot(receipts, account, slot) {
            Ok((receipts_after, account_after, _)) => {
                &&& forall|id: u128| #[trigger]
                    receipts_after.contains_key(id) ==> receipts.contains_key(id)
                &&& account_after == (Account { stake: account_after.stake, ..account })
            },
            Err(_) => true,
        },
{
    reveal(claim_stake_slot);
}

/// The claim of a redeem batch stores no receipt under a new number,
/// issues no number, and brings no batch into the contract or the account
/// that was not there.
proof fn lemma_redeem_slot_frame(
    state: ContractState,
    receipts: RedeemReceipts,
    account: Account,
    slot: Option<RedeemStakeBatch>,
    pending: Option<BatchId>,
)
    ensures
        match claim_redeem_slot(state, receipts, account, slot, pending) {
            Ok((state_after, receipts_after, account_after, slot_after, _)) => {
                &&& forall|id: u128| #[trigger]
                    receipts_after.contains_key(id) ==> receipts.contains_key(id)
                &&& account_after == (Account { near: account_after.near, ..account })
                &&& slot_after is Some ==> slot is Some && slot_after->0.batch_id
                    == slot->0.batch_id
                &&& state_after.near_liquidity_pool.0 + state_after.total_near.amount.0
                    == state.near_liquidity_pool.0 + state.total_near.amount.0
                &&& state_after == state || state_after == (ContractState {
                    near_liquidity_pool: state_after.near_liquidity_pool,
                    total_near: state_after.total_near,
                    ..state
                }) || state_after == (ContractState {
                    near_liquidity_pool: state_after.near_liquidity_pool,
                    total_near: state_after.total_near,
                    redeem_stake_batch_lock: None,
                    redeem_stake_batch: state.next_redeem_stake_batch,
                    next_redeem_stake_batch: None,
                    ..state
                })
            },
            Err(_) => true,
        },
{
    reveal(claim_redeem_slot);
}

/// After the claim of a redeem batch, a batch that is left in the slot
/// while its receipt is still there is the batch whose NEAR waits at the
/// venue, and the redeem round has not been closed. Where the round has
/// been closed, the receipt of its batch is gone.
proof fn lemma_redeem_slot_settled(
    state: ContractState,
    receipts: RedeemReceipts,
    account: Account,
    slot: Option<RedeemStakeBatch>,
    pending: Option<BatchId>,
)
    requires
        match pending {
            Some(id) => state.redeem_stake_batch_lock is Some || !receipts.contains_key(id.0),
            None => true,
        },
    ensures
        match claim_redeem_slot(state, receipts, account, slot, pending) {
            Ok((state_after, receipts_after, account_after, slot_after, _)) => {
                &&& slot_after is Some && receipts_after.contains_key(slot_after->0.batch_id.0)
                    ==> pending == Some(slot_after->0.batch_id)
                    && state_after.redeem_stake_batch_lock == state.redeem_stake_batch_lock
                &&& state_after.redeem_stake_batch_lock != state.redeem_stake_batch_lock
                    ==> match pending {
                    Some(id) => !receipts_after.contains_key(id.0),
                    None => false,
                }
                &&& state_after.redeem_stake_batch_lock == state.redeem_stake_batch_lock
                    ==> state_after.redeem_stake_batch == state.redeem_stake_batch
                &&& state_after.redeem_stake_batch_lock is None
                    || state_after.redeem_stake_batch_lock == state.redeem_stake_batch_lock
            },
            Err(_) => true,
        },
{
    reveal(claim_redeem_slot);
}

/// Settling an account brings no batch number into use and issues none.
pub proof fn law_settling_issues_no_batch_id(contract: ContractView, account: Account)
    requires
        batch_ids_issued(contract, account),
    ensures
        match claim_receipt_funds_spec(contract, account) {
            Ok((contract_after, account_after, _)) => batch_ids_issued(
                contract_after,
                account_after,
            ) && contract_after.state.batch_id_sequence == contract.state.batch_id_sequence,
            Err(_) => true,
        },
{
    let locked = contract.state.stake_batch_lock is Some;
    let stake_side = claim_stake_batch_receipts_spec(
        locked,
        contract.stake_batch_receipts,
        account,
    );
    lemma_stake_slot_frame(contract.stake_batch_receipts, account, account.stake_batch);
    if let Ok((receipts1, account1, claimed1)) = claim_stake_slot(
        contract.stake_batch_receipts,
        account,
        account.stake_batch,
    ) {
        let account1 = if claimed1 {
            Account { stake_batch: None, ..account1 }
        } else {
            account1
        };
        lemma_stake_slot_frame(receipts1, account1, account1.next_stake_batch);
    }
    if let Ok((stake_receipts, account2, _)) = stake_side {
        let state = contract.state;
        let receipts = contract.redeem_stake_batch_receipts;
        if state.redeem_stake_batch_lock != Some(RedeemLock::Unstaking) && !(
        state.redeem_stake_batch_lock is Some && state.redeem_stake_batch is None) {
            let pending = if state.redeem_stake_batch_lock is Some {
                Some(state.redeem_stake_batch->0.batch_id)
            } else {
                None
            };
            lemma_redeem_slot_frame(state, receipts, account2, account2.redeem_stake_batch, pending);
            if let Ok((state1, receipts1, account3, slot1, _)) = claim_redeem_slot(
                state,
                receipts,
                account2,
                account2.redeem_stake_batch,
                pending,
            ) {
                let account3 = Account { redeem_stake_batch: slot1, ..account3 };
                lemma_redeem_slot_frame(
                    state1,
                    receipts1,
                    account3,
                    account3.next_redeem_stake_batch,
                    pending,
                );
            }
        }
    }
}

/// Whether the batch in a slot of an account is the batch whose NEAR waits
/// at the venue, with its receipt still there.
pub open spec fn waits_for_withdrawal(
    state: ContractState,
    receipts: RedeemReceipts,
    slot: Option<RedeemStakeBatch>,
) -> bool {
    &&& slot is Some
    &&& state.redeem_stake_batch is Some
    &&& slot->0.batch_id == state.redeem_stake_batch->0.batch_id
    &&& receipts.contains_key(slot->0.batch_id.0)
}

/// Whether a redeem batch of the account could be claimed out of the
/// liquidity pool: the batch is the one whose NEAR waits at the venue, its
/// receipt is there, and the pool holds something.
pub open spec fn claimable_from_pool(
    state: ContractState,
    receipts: RedeemReceipts,
    account: Account,
) -> bool {
    &&& state.redeem_stake_batch_lock == Some(RedeemLock::PendingWithdrawal)
    &&& state.near_liquidity_pool.0 > 0
    &&& waits_for_withdrawal(state, receipts, account.redeem_stake_batch) || waits_for_withdrawal(
        state,
        receipts,
        account.next_redeem_stake_batch,
    )
}

/// Claiming the shares of the stake batches a second time changes nothing.
proof fn lemma_stake_claims_idempotent(locked: bool, receipts: StakeReceipts, account: Account)
    ensures
        match claim_stake_batch_receipts_spec(locked, receipts, account) {
            Ok((receipts_after, account_after, _)) => claim_stake_batch_receipts_spec(
                locked,
                receipts_after,
                account_after,
            ) == Ok::<(StakeReceipts, Account, bool), Error>(
                (receipts_after, account_after, false),
            ),
            Err(_) => true,
        },
{
    reveal(claim_stake_slot);
    lemma_stake_slot_frame(receipts, account, account.stake_batch);
    if let Ok((receipts1, account1, claimed1)) = claim_stake_slot(
        receipts,
        account,
        account.stake_batch,
    ) {
        let account1 = if claimed1 {
            Account { stake_batch: None, ..account1 }
        } else {
            account1
        };
        lemma_stake_slot_frame(receipts1, account1, account1.next_stake_batch);
    }
}

/// A redeem batch is left alone where the slot is empty, where there is
/// no receipt for the batch, and where the batch is the one whose NEAR
/// waits at the venue while the liquidity pool is empty.
proof fn lemma_redeem_slot_left_alone(
    state: ContractState,
    receipts: RedeemReceipts,
    account: Account,
    slot: Option<RedeemStakeBatch>,
    pending: Option<BatchId>,
)
    requires
        slot is None || !receipts.contains_key(slot->0.batch_id.0) || (pending == Some(
            slot->0.batch_id,
        ) && state.near_liquidity_pool.0 == 0),
    ensures
        claim_redeem_slot(state, receipts, account, slot, pending) == Ok::<
            (ContractState, RedeemReceipts, Account, Option<RedeemStakeBatch>, bool),
            Error,
        >((state, receipts, account, slot, false)),
{
    reveal(claim_redeem_slot);
}

/// Claiming the NEAR of the redeem batches a second time changes nothing,
/// unless a batch is left that can be claimed out of the liquidity pool.
proof fn lemma_redeem_claims_idempotent(
    state: ContractState,
    receipts: RedeemReceipts,
    account: Account,
)
    ensures
        match claim_redeem_stake_batch_receipts_spec(state, receipts, account) {
            Ok((state_after, receipts_after, account_after, _)) => claimable_from_pool(
                state_after,
                receipts_after,
                account_after,
            ) || claim_redeem_stake_batch_receipts_spec(state_after, receipts_after, account_after)
                == Ok::<(ContractState, RedeemReceipts, Account, bool), Error>(
                (state_after, receipts_after, account_after, false),
            ),
            Err(_) => true,
        },
{
    if state.redeem_stake_batch_lock != Some(RedeemLock::Unstaking) && !(
    state.redeem_stake_batch_lock is Some && state.redeem_stake_batch is None) {
        let pending = if state.redeem_stake_batch_lock is Some {
            Some(state.redeem_stake_batch->0.batch_id)
        } else {
            None
        };
        let first = claim_redeem_slot(state, receipts, account, account.redeem_stake_batch, pending);
        lemma_redeem_slot_frame(state, receipts, account, account.redeem_stake_batch, pending);
        lemma_redeem_slot_settled(state, receipts, account, account.redeem_stake_batch, pending);
        if let Ok((state1, receipts1, account1, slot1, _)) = first {
            let account1 = Account { redeem_stake_batch: slot1, ..account1 };
            let second = claim_redeem_slot(
                state1,
                receipts1,
                account1,
                account1.next_redeem_stake_batch,
                pending,
            );
            lemma_redeem_slot_frame(
                state1,
                receipts1,
                account1,
                account1.next_redeem_stake_batch,
                pending,
            );
            lemma_redeem_slot_settled(
                state1,
                receipts1,
                account1,
                account1.next_redeem_stake_batch,
                pending,
            );
            if let Ok((state2, receipts2, account2, slot2, _)) = second {
                let settled = claim_redeem_stake_batch_receipts_spec(state, receipts, account);
                let account3 = settled->Ok_0.2;
                assert(settled->Ok_0.0 == state2);
                assert(settled->Ok_0.1 == receipts2);
                if !claimable_from_pool(state2, receipts2, account3) {
                    let pending2 = if state2.redeem_stake_batch_lock is Some {
                        Some(state2.redeem_stake_batch->0.batch_id)
                    } else {
                        None
                    };
                    assert(account3.redeem_stake_batch == slot1 || (slot1 is None
                        && state2.redeem_stake_batch_lock is None && account3.redeem_stake_batch
                        == slot2));
                    assert(account3.next_redeem_stake_batch == slot2
                        || account3.next_redeem_stake_batch is None);
                    assert(state2.redeem_stake_batch_lock is Some ==> pending2 == pending);
                    let cur = account3.redeem_stake_batch;
                    let nxt = account3.next_redeem_stake_batch;
                    assert(forall|id: u128| #[trigger]
                        receipts2.contains_key(id) ==> receipts1.contains_key(id));
                    assert(cur is Some && receipts2.contains_key(cur->0.batch_id.0) ==> pending2
                        == Some(cur->0.batch_id) && state2.near_liquidity_pool.0 == 0) by {
                        if cur is Some && receipts2.contains_key(cur->0.batch_id.0) {
                            let id = cur->0.batch_id;
                            assert(receipts1.contains_key(id.0));
                            if slot1 is Some {
                                // The batch was left in the current slot with its
                                // receipt: it is the batch that waits, and the
                                // round is still open.
                                assert(pending == Some(id));
                                assert(state1.redeem_stake_batch_lock
                                    == state.redeem_stake_batch_lock);
                                assert(state2.redeem_stake_batch_lock
                                    == state1.redeem_stake_batch_lock);
                                assert(state2.redeem_stake_batch == state.redeem_stake_batch);
                                assert(waits_for_withdrawal(state2, receipts2, cur));
                                assert(state2.redeem_stake_batch_lock == Some(
                                    RedeemLock::PendingWithdrawal,
                                ));
                            } else {
                                // The batch has moved up from the next slot, so the
                                // round was closed by the claim of the current slot,
                                // which deleted the receipt: it cannot be there.
                                assert(pending == Some(id));
                                assert(state1.redeem_stake_batch_lock is None);
                                assert(false);
                            }
                        }
                    }
                    assert(nxt is Some && receipts2.contains_key(nxt->0.batch_id.0) ==> pending2
                        == Some(nxt->0.batch_id) && state2.near_liquidity_pool.0 == 0) by {
                        if nxt is Some && receipts2.contains_key(nxt->0.batch_id.0) {
                            let id = nxt->0.batch_id;
                            assert(pending == Some(id));
                            assert(state2.redeem_stake_batch_lock
                                == state1.redeem_stake_batch_lock);
                            assert(receipts1.contains_key(id.0));
                            assert(state1.redeem_stake_batch_lock
                                == state.redeem_stake_batch_lock);
                            assert(state2.redeem_stake_batch == state.redeem_stake_batch);
                            assert(waits_for_withdrawal(state2, receipts2, nxt));
                            assert(state2.redeem_stake_batch_lock == Some(
                                RedeemLock::PendingWithdrawal,
                            ));
                        }
                    }
                    lemma_redeem_slot_left_alone(state2, receipts2, account3, cur, pending2);
                    lemma_redeem_slot_left_alone(state2, receipts2, account3, nxt, pending2);
                }
            }
        }
    }
}

/// Settling an account twice in a row leaves the contract and the account
/// as the first settlement left them, unless the first one left a batch
/// that can be claimed out of the liquidity pool.
pub proof fn law_settling_is_idempotent(contract: ContractView, account: Account)
    ensures
        match claim_receipt_funds_spec(contract, account) {
            Ok((contract_after, account_after, _)) => claimable_from_pool(
                contract_after.state,
                contract_after.redeem_stake_batch_receipts,
                account_after,
            ) || claim_receipt_funds_spec(contract_after, account_after) == Ok::<
                (ContractView, Account, bool),
                Error,
            >((contract_after, account_after, false)),
            Err(_) => true,
        },
{
    let locked = contract.state.stake_batch_lock is Some;
    lemma_stake_claims_idempotent(locked, contract.stake_batch_receipts, account);
    if let Ok((stake_receipts, account1, _)) = claim_stake_batch_receipts_spec(
        locked,
        contract.stake_batch_receipts,
        account,
    ) {
        lemma_redeem_claims_idempotent(
            contract.state,
            contract.redeem_stake_batch_receipts,
            account1,
        );
        if let Ok((state2, redeem_receipts, account2, _)) = claim_redeem_stake_batch_receipts_spec(
            contract.state,
            contract.redeem_stake_batch_receipts,
            account1,
        ) {
            lemma_redeem_preserves_stake_side(
                contract.state,
                contract.redeem_stake_batch_receipts,
                account1,
            );
            lemma_stake_claims_idempotent(locked, contract.stake_batch_receipts, account);
            lemma_stake_claims_frame(locked, stake_receipts, account1, account2);
        }
    }
}

/// Claiming the NEAR of the redeem batches touches neither the stake lock
/// nor the share balance or the stake batches of the account.
proof fn lemma_redeem_preserves_stake_side(
    state: ContractState,
    receipts: RedeemReceipts,
    account: Account,
)
    ensures
        match claim_redeem_stake_batch_receipts_spec(state, receipts, account) {
            Ok((state_after, _, account_after, _)) => state_after.stake_batch_lock
                == state.stake_batch_lock && account_after.stake == account.stake
                && account_after.stake_batch == account.stake_batch
                && account_after.next_stake_batch == account.next_stake_batch,
            Err(_) => true,
        },
{
    if state.redeem_stake_batch_lock != Some(RedeemLock::Unstaking) && !(
    state.redeem_stake_batch_lock is Some && state.redeem_stake_batch is None) {
        let pending = if state.redeem_stake_batch_lock is Some {
            Some(state.redeem_stake_batch->0.batch_id)
        } else {
            None
        };
        lemma_redeem_slot_frame(state, receipts, account, account.redeem_stake_batch, pending);
        if let Ok((state1, receipts1, account1, slot1, _)) = claim_redeem_slot(
            state,
            receipts,
            account,
            account.redeem_stake_batch,
            pending,
        ) {
            let account1 = Account { redeem_stake_batch: slot1, ..account1 };
            lemma_redeem_slot_frame(
                state1,
                receipts1,
                account1,
                account1.next_redeem_stake_batch,
                pending,
            );
        }
    }
}

/// Where claiming the shares of the stake batches changes nothing for one
/// account, it changes nothing for an account that differs from it in
/// its NEAR and its redeem batches only.
proof fn lemma_stake_claims_frame(
    locked: bool,
    receipts: StakeReceipts,
    account: Account,
    other: Account,
)
    requires
        claim_stake_batch_receipts_spec(locked, receipts, account) == Ok::<
            (StakeReceipts, Account, bool),
            Error,
        >((receipts, account, false)),
        other.stake == account.stake,
        other.stake_batch == account.stake_batch,
        other.next_stake_batch == account.next_stake_batch,
    ensures
        claim_stake_batch_receipts_spec(locked, receipts, other) == Ok::<
            (StakeReceipts, Account, bool),
            Error,
        >((receipts, other, false)),
{
    reveal(claim_stake_slot);
}

/// The worth of a share never falls from one recorded value to the next,
/// unless the venue reports that nothing is staked.
pub proof fn law_share_value_never_falls(
    state: ContractState,
    total_staked_near_balance: YoctoNear,
    moment: BlockTimeHeight,
)
    requires
        total_staked_near_balance.0 != 0,
    ensures
        match state.update_stake_token_value_spec(total_staked_near_balance, moment) {
            Ok(after) => share_value(after.stake_token_value) >= share_value(
                state.stake_token_value,
            ),
            Err(_) => true,
        },
{
    let result = state.update_stake_token_value_spec(total_staked_near_balance, moment);
    if result is Ok && state.total_stake.amount.0 != 0 {
        let reported = StakeTokenValue::new_spec(
            moment,
            total_staked_near_balance,
            state.total_stake.amount,
        );
        if share_value(reported) < share_value(state.stake_token_value) {
            lemma_compensation(
                moment,
                total_staked_near_balance,
                state.total_stake.amount,
                share_value(state.stake_token_value),
            );
        }
    }
}

/// Neither a stake round nor a refresh lowers the worth of a share, unless
/// the balance that the share value is recorded from is zero: for a
/// refresh that is the staked balance that the venue reports, for a stake
/// round what of it was staked before the batch.
pub proof fn law_rounds_never_lower_share_value(
    contract: ContractView,
    staking_pool_account: StakingPoolAccount,
    moment: BlockTimeHeight,
)
    ensures
        match contract.state.on_refresh_stake_token_value_spec(staking_pool_account, moment) {
            Ok(after) => staking_pool_account.staked_balance.0 != 0 ==> share_value(
                after.stake_token_value,
            ) >= share_value(contract.state.stake_token_value),
            Err(_) => true,
        },
        match process_staked_batch_spec(contract, moment) {
            Ok((after, batch_id)) => {
                let batched = contract.state.stake_batch->0.balance.amount;
                let staked = contract.state.stake_batch_lock->0->staked_balance;
                &&& staked.0 > batched.0 ==> share_value(after.state.stake_token_value)
                    >= share_value(contract.state.stake_token_value)
                &&& after.stake_batch_receipts[batch_id.0].stake_token_value
                    == after.state.stake_token_value
            },
            Err(_) => true,
        },
{
    if staking_pool_account.staked_balance.0 != 0 {
        law_share_value_never_falls(contract.state, staking_pool_account.staked_balance, moment);
    }
    if let Ok((after, _)) = process_staked_batch_spec(contract, moment) {
        let batched = contract.state.stake_batch->0.balance.amount;
        let lock = contract.state.stake_batch_lock->0;
        let staked = lock->staked_balance;
        let near_liquidity = lock->near_liquidity;
        if staked.0 > batched.0 {
            let with_liquidity = contract.state.add_liquidity_spec(
                contract.pending_withdrawal(),
                near_liquidity,
            )->Ok_0;
            law_share_value_never_falls(
                with_liquidity,
                ContractState::staked_before(staked, batched),
                moment,
            );
        }
    }
}

/// Settling an account moves NEAR between the liquidity pool and the NEAR
/// owed to accounts, and neither adds to their sum nor takes from it. What
/// leaves the pool is owed to accounts from then on, and all of it is
/// credited to the account that is settled.
pub proof fn law_settling_conserves_pool_and_owed_near(contract: ContractView, account: Account)
    ensures
        match claim_receipt_funds_spec(contract, account) {
            Ok((after, account_after, _)) => {
                let paid_from_pool = contract.state.near_liquidity_pool.0
                    - after.state.near_liquidity_pool.0;
                &&& paid_from_pool >= 0
                &&& after.state.total_near.amount.0 == contract.state.total_near.amount.0
                    + paid_from_pool
                &&& account_after.near_amount() >= account.near_amount() + paid_from_pool
            },
            Err(_) => true,
        },
{
    lemma_stake_claims_leave_redeem_batches(
        contract.state.stake_batch_lock is Some,
        contract.stake_batch_receipts,
        account,
    );
    if let Ok((_, account1, _)) = claim_stake_batch_receipts_spec(
        contract.state.stake_batch_lock is Some,
        contract.stake_batch_receipts,
        account,
    ) {
        let state = contract.state;
        let receipts = contract.redeem_stake_batch_receipts;
        if state.redeem_stake_batch_lock != Some(RedeemLock::Unstaking) && !(
        state.redeem_stake_batch_lock is Some && state.redeem_stake_batch is None) {
            let pending = if state.redeem_stake_batch_lock is Some {
                Some(state.redeem_stake_batch->0.batch_id)
            } else {
                None
            };
            lemma_redeem_slot_pays(state, receipts, account1, account1.redeem_stake_batch, pending);
            if let Ok((state1, receipts1, account2, slot1, _)) = claim_redeem_slot(
                state,
                receipts,
                account1,
                account1.redeem_stake_batch,
                pending,
            ) {
                let account2 = Account { redeem_stake_batch: slot1, ..account2 };
                lemma_redeem_slot_pays(
                    state1,
                    receipts1,
                    account2,
                    account2.next_redeem_stake_batch,
                    pending,
                );
            }
        }
    }
}

/// The claim of one redeem batch credits the account with at least what
/// it takes out of the liquidity pool, and all that it takes out of the
/// pool is owed to accounts from then on.
proof fn lemma_redeem_slot_pays(
    state: ContractState,
    receipts: RedeemReceipts,
    account: Account,
    slot: Option<RedeemStakeBatch>,
    pending: Option<BatchId>,
)
    ensures
        match claim_redeem_slot(state, receipts, account, slot, pending) {
            Ok((state_after, _, account_after, _, _)) => {
                let paid_from_pool = state.near_liquidity_pool.0 - state_after.near_liquidity_pool.0;
                &&& paid_from_pool >= 0
                &&& state_after.total_near.amount.0 == state.total_near.amount.0 + paid_from_pool
                &&& account_after.near_amount() >= account.near_amount() + paid_from_pool
            },
            Err(_) => true,
        },
{
    reveal(claim_redeem_slot);
    if slot is Some && receipts.contains_key(slot->0.batch_id.0) {
        receipts[slot->0.batch_id.0].stake_token_value.lemma_conversion_bounds(
            YoctoNear(0),
            slot->0.balance.amount,
        );
    }
}

/// A withdrawal takes the same amount out of the account's NEAR balance
/// and out of the sum of the liquidity pool and the NEAR owed to accounts.
pub proof fn law_withdrawal_conserves_near(state: ContractState, account: Account, amount: YoctoNear)
    ensures
        match state.withdraw_near_for_account_spec(account, amount) {
            Ok((after, account_after, paid)) => paid == amount && account_after.near_amount()
                == account.near_amount() - amount.0 && after.near_liquidity_pool.0
                + after.total_near.amount.0 == state.near_liquidity_pool.0
                + state.total_near.amount.0 - amount.0,
            Err(_) => true,
        },
{
}

/// Whether the batches of the contract agree with the batches of all its
/// accounts, for the stake batches and for the redeem batches.
pub open spec fn batches_consistent(contract: ContractView, accounts: Seq<Account>) -> bool {
    stake_batches_consistent(contract, accounts) && redeem_batches_consistent(contract, accounts)
}

/// A contract that has not been used agrees with accounts that hold no
/// batches.
pub proof fn law_new_contract_is_consistent(contract: ContractView, accounts: Seq<Account>)
    requires
        contract.state == ContractState::new_spec(contract.state.config),
        contract.stake_batch_receipts == Map::<u128, StakeBatchReceipt>::empty(),
        contract.redeem_stake_batch_receipts == Map::<u128, RedeemStakeBatchReceipt>::empty(),
        forall|i: int|
            0 <= i < accounts.len() ==> (#[trigger] accounts[i]).stake_batch is None
                && accounts[i].next_stake_batch is None && accounts[i].redeem_stake_batch is None
                && accounts[i].next_redeem_stake_batch is None,
    ensures
        batches_consistent(contract, accounts),
    decreases accounts.len(),
{
    assert forall|id: BatchId| #[trigger] stake_batch_consistent(contract, accounts, id) by {
        lemma_no_batches_sum_to_zero(accounts, id);
    }
    assert forall|id: BatchId| #[trigger] redeem_batch_consistent(contract, accounts, id) by {
        lemma_no_batches_sum_to_zero(accounts, id);
    }
}

/// Accounts that hold no batches have paid nothing into any batch.
proof fn lemma_no_batches_sum_to_zero(accounts: Seq<Account>, id: BatchId)
    requires
        forall|i: int|
            0 <= i < accounts.len() ==> (#[trigger] accounts[i]).stake_batch is None
                && accounts[i].next_stake_batch is None && accounts[i].redeem_stake_batch is None
                && accounts[i].next_redeem_stake_batch is None,
    ensures
        accounts_batched_near(accounts, id) == 0,
        accounts_batched_stake(accounts, id) == 0,
    decreases accounts.len(),
{
    if accounts.len() > 0 {
        let rest = accounts.drop_last();
        assert forall|i: int| 0 <= i < rest.len() implies (#[trigger] rest[i]).stake_batch is None
            && rest[i].next_stake_batch is None && rest[i].redeem_stake_batch is None
            && rest[i].next_redeem_stake_batch is None by {
            assert(rest[i] == accounts[i]);
        }
        lemma_no_batches_sum_to_zero(rest, id);
        assert(accounts.last() == accounts[accounts.len() - 1]);
    }
}

/// An operation of an account that settles the account and then takes a
/// step keeps the batches consistent, where the step does.
proof fn lemma_settled_then_keeps_batches_consistent<T>(
    contract: ContractView,
    accounts: Seq<Account>,
    index: int,
    step: spec_fn(ContractState, Account) -> StateOutcome<T>,
)
    requires
        0 <= index < accounts.len(),
        batches_consistent(contract, accounts),
        forall|settled: ContractView, others: Seq<Account>|
            others.len() == accounts.len() && batches_consistent(settled, others) ==> match (
            #[trigger] step(settled.state, others[index])) {
                Ok((state, account, _)) => batches_consistent(
                    with_state(settled, state),
                    others.update(index, account),
                ),
                Err(_) => true,
            },
    ensures
        match settled_then(contract, accounts[index], step) {
            Ok((contract_after, account_after, _)) => batches_consistent(
                contract_after,
                accounts.update(index, account_after),
            ),
            Err(_) => true,
        },
{
    law_settling_keeps_stake_batches_consistent(contract, accounts, index);
    law_settling_keeps_redeem_batches_consistent(contract, accounts, index);
    if let Ok((settled, account1, _)) = claim_receipt_funds_spec(contract, accounts[index]) {
        let others = accounts.update(index, account1);
        assert(batches_consistent(settled, others));
        assert(others[index] == account1);
        if let Ok((state, account2, _)) = step(settled.state, account1) {
            assert(others.update(index, account2) =~= accounts.update(index, account2));
        }
    }
}

/// The steps that pay NEAR into the stake batches and take it back out
/// keep the batches consistent.
proof fn lemma_stake_steps_keep_batches_consistent(
    contract: ContractView,
    accounts: Seq<Account>,
    index: int,
    amount: YoctoNear,
)
    requires
        0 <= index < accounts.len(),
        batches_consistent(contract, accounts),
    ensures
        match contract.state.batch_near_for_account_spec(accounts[index], amount) {
            Ok((state, account, _)) => batches_consistent(
                with_state(contract, state),
                accounts.update(index, account),
            ),
            Err(_) => true,
        },
        match contract.state.deposit_for_account_spec(accounts[index], amount) {
            Ok((state, account, _)) => batches_consistent(
                with_state(contract, state),
                accounts.update(index, account),
            ),
            Err(_) => true,
        },
        match contract.state.withdraw_from_stake_batch_for_account_spec(accounts[index], amount) {
            Ok((state, account, _)) => batches_consistent(
                with_state(contract, state),
                accounts.update(index, account),
            ),
            Err(_) => true,
        },
        match contract.state.withdraw_all_from_stake_batch_for_account_spec(accounts[index]) {
            Ok((state, account, _)) => batches_consistent(
                with_state(contract, state),
                accounts.update(index, account),
            ),
            Err(_) => true,
        },
        match contract.state.withdraw_near_for_account_spec(accounts[index], amount) {
            Ok((state, account, _)) => batches_consistent(
                with_state(contract, state),
                accounts.update(index, account),
            ),
            Err(_) => true,
        },
        match contract.state.withdraw_all_near_for_account_spec(accounts[index]) {
            Ok((state, account, _)) => batches_consistent(
                with_state(contract, state),
                accounts.update(index, account),
            ),
            Err(_) => true,
        },
{
    law_deposit_step_keeps_stake_batches_consistent(contract, accounts, index, amount);
    law_withdrawal_step_keeps_stake_batches_consistent(contract, accounts, index, amount);
    if let Ok((state, account, _)) = contract.state.batch_near_for_account_spec(
        accounts[index],
        amount,
    ) {
        lemma_redeem_consistency_frame(
            contract,
            with_state(contract, state),
            accounts,
            index,
            account,
        );
    }
    if let Ok((state, account, _)) = contract.state.withdraw_from_stake_batch_for_account_spec(
        accounts[index],
        amount,
    ) {
        lemma_redeem_consistency_frame(
            contract,
            with_state(contract, state),
            accounts,
            index,
            account,
        );
    }
    if let Ok((state, account, _)) = contract.state.withdraw_all_from_stake_batch_for_account_spec(
        accounts[index],
    ) {
        lemma_redeem_consistency_frame(
            contract,
            with_state(contract, state),
            accounts,
            index,
            account,
        );
    }
    if let Ok((state, account, _)) = contract.state.withdraw_near_for_account_spec(
        accounts[index],
        amount,
    ) {
        lemma_redeem_consistency_frame(
            contract,
            with_state(contract, state),
            accounts,
            index,
            account,
        );
        lemma_consistency_frame(contract, with_state(contract, state), accounts, index, account);
    }
    if let Ok((state, account, _)) = contract.state.withdraw_all_near_for_account_spec(
        accounts[index],
    ) {
        lemma_redeem_consistency_frame(
            contract,
            with_state(contract, state),
            accounts,
            index,
            account,
        );
        lemma_consistency_frame(contract, with_state(contract, state), accounts, index, account);
    }
}

/// The steps that give shares into the redeem batches and take them back
/// out keep the batches consistent.
proof fn lemma_redeem_steps_keep_batches_consistent(
    contract: ContractView,
    accounts: Seq<Account>,
    index: int,
    amount: YoctoStake,
)
    requires
        0 <= index < accounts.len(),
        batches_consistent(contract, accounts),
    ensures
        match contract.state.batch_stake_for_account_spec(accounts[index], amount) {
            Ok((state, account, _)) => batches_consistent(
                with_state(contract, state),
                accounts.update(index, account),
            ),
            Err(_) => true,
        },
        match contract.state.redeem_all_for_account_spec(accounts[index]) {
            Ok((state, account, _)) => batches_consistent(
                with_state(contract, state),
                accounts.update(index, account),
            ),
            Err(_) => true,
        },
        match contract.state.remove_from_redeem_stake_batch_for_account_spec(
            accounts[index],
            amount,
        ) {
            Ok((state, account, _)) => batches_consistent(
                with_state(contract, state),
                accounts.update(index, account),
            ),
            Err(_) => true,
        },
        match contract.state.remove_all_from_redeem_stake_batch_for_account_spec(accounts[index]) {
            Ok((state, account, _)) => batches_consistent(
                with_state(contract, state),
                accounts.update(index, account),
            ),
            Err(_) => true,
        },
{
    law_redeem_steps_keep_redeem_batches_consistent(contract, accounts, index, amount);
    if accounts[index].stake is Some {
        law_redeem_steps_keep_redeem_batches_consistent(
            contract,
            accounts,
            index,
            accounts[index].stake->0.amount,
        );
    }
    if let Ok((state, account, _)) = contract.state.batch_stake_for_account_spec(
        accounts[index],
        amount,
    ) {
        lemma_consistency_frame(contract, with_state(contract, state), accounts, index, account);
    }
    if let Ok((state, account, _)) = contract.state.redeem_all_for_account_spec(accounts[index]) {
        lemma_consistency_frame(contract, with_state(contract, state), accounts, index, account);
        assert(accounts.update(index, accounts[index]) =~= accounts);
    }
    if let Ok((state, account, _)) = contract.state.remove_from_redeem_stake_batch_for_account_spec(
        accounts[index],
        amount,
    ) {
        lemma_consistency_frame(contract, with_state(contract, state), accounts, index, account);
    }
    if let Ok((state, account, _)) =
        contract.state.remove_all_from_redeem_stake_batch_for_account_spec(accounts[index]) {
        lemma_consistency_frame(contract, with_state(contract, state), accounts, index, account);
        assert(accounts.update(index, accounts[index]) =~= accounts);
    }
}

/// Every operation by which an account pays NEAR in for staking, takes it
/// back out of a batch, or withdraws NEAR keeps the batches of the contract
/// in agreement with the batches of all its accounts.
pub proof fn law_staking_keeps_batches_consistent(
    contract: ContractView,
    accounts: Seq<Account>,
    index: int,
    amount: YoctoNear,
)
    requires
        0 <= index < accounts.len(),
        batches_consistent(contract, accounts),
    ensures
        match settled_then(
            contract,
            accounts[index],
            |state: ContractState, account: Account| state.batch_near_for_account_spec(account, amount),
        ) {
            Ok((after, account, _)) => batches_consistent(after, accounts.update(index, account)),
            Err(_) => true,
        },
        match settled_then(
            contract,
            accounts[index],
            |state: ContractState, account: Account| state.deposit_for_account_spec(account, amount),
        ) {
            Ok((after, account, _)) => batches_consistent(after, accounts.update(index, account)),
            Err(_) => true,
        },
        match settled_then(
            contract,
            accounts[index],
            |state: ContractState, account: Account| state.withdraw_from_stake_batch_for_account_spec(account, amount),
        ) {
            Ok((after, account, _)) => batches_consistent(after, accounts.update(index, account)),
            Err(_) => true,
        },
        match settled_then(
            contract,
            accounts[index],
            |state: ContractState, account: Account| state.withdraw_all_from_stake_batch_for_account_spec(account),
        ) {
            Ok((after, account, _)) => batches_consistent(after, accounts.update(index, account)),
            Err(_) => true,
        },
        match settled_then(
            contract,
            accounts[index],
            |state: ContractState, account: Account| state.withdraw_near_for_account_spec(account, amount),
        ) {
            Ok((after, account, _)) => batches_consistent(after, accounts.update(index, account)),
            Err(_) => true,
        },
        match settled_then(
            contract,
            accounts[index],
            |state: ContractState, account: Account| state.withdraw_all_near_for_account_spec(account),
        ) {
            Ok((after, account, _)) => batches_consistent(after, accounts.update(index, account)),
            Err(_) => true,
        },
{
    assert forall|settled: ContractView, others: Seq<Account>|
        others.len() == accounts.len() && batches_consistent(settled, others) implies match (
    #[trigger] settled.state.batch_near_for_account_spec(others[index], amount)) {
        Ok((state, account, _)) => batches_consistent(
            with_state(settled, state),
            others.update(index, account),
        ),
        Err(_) => true,
    } by {
        lemma_stake_steps_keep_batches_consistent(settled, others, index, amount);
    }
    lemma_settled_then_keeps_batches_consistent(
        contract,
        accounts,
        index,
        |state: ContractState, account: Account| state.batch_near_for_account_spec(account, amount),
    );
    assert forall|settled: ContractView, others: Seq<Account>|
        others.len() == accounts.len() && batches_consistent(settled, others) implies match (
    #[trigger] settled.state.deposit_for_account_spec(others[index], amount)) {
        Ok((state, account, _)) => batches_consistent(
            with_state(settled, state),
            others.update(index, account),
        ),
        Err(_) => true,
    } by {
        lemma_stake_steps_keep_batches_consistent(settled, others, index, amount);
    }
    lemma_settled_then_keeps_batches_consistent(
        contract,
        accounts,
        index,
        |state: ContractState, account: Account| state.deposit_for_account_spec(account, amount),
    );
    assert forall|settled: ContractView, others: Seq<Account>|
        others.len() == accounts.len() && batches_consistent(settled, others) implies match (
    #[trigger] settled.state.withdraw_from_stake_batch_for_account_spec(others[index], amount)) {
        Ok((state, account, _)) => batches_consistent(
            with_state(settled, state),
            others.update(index, account),
        ),
        Err(_) => true,
    } by {
        lemma_stake_steps_keep_batches_consistent(settled, others, index, amount);
    }
    lemma_settled_then_keeps_batches_consistent(
        contract,
        accounts,
        index,
        |state: ContractState, account: Account| state.withdraw_from_stake_batch_for_account_spec(account, amount),
    );
    assert forall|settled: ContractView, others: Seq<Account>|
        others.len() == accounts.len() && batches_consistent(settled, others) implies match (
    #[trigger] settled.state.withdraw_all_from_stake_batch_for_account_spec(others[index])) {
        Ok((state, account, _)) => batches_consistent(
            with_state(settled, state),
            others.update(index, account),
        ),
        Err(_) => true,
    } by {
        lemma_stake_steps_keep_batches_consistent(settled, others, index, amount);
    }
    lemma_settled_then_keeps_batches_consistent(
        contract,
        accounts,
        index,
        |state: ContractState, account: Account| state.withdraw_all_from_stake_batch_for_account_spec(account),
    );
    assert forall|settled: ContractView, others: Seq<Account>|
        others.len() == accounts.len() && batches_consistent(settled, others) implies match (
    #[trigger] settled.state.withdraw_near_for_account_spec(others[index], amount)) {
        Ok((state, account, _)) => batches_consistent(
            with_state(settled, state),
            others.update(index, account),
        ),
        Err(_) => true,
    } by {
        lemma_stake_steps_keep_batches_consistent(settled, others, index, amount);
    }
    lemma_settled_then_keeps_batches_consistent(
        contract,
        accounts,
        index,
        |state: ContractState, account: Account| state.withdraw_near_for_account_spec(account, amount),
    );
    assert forall|settled: ContractView, others: Seq<Account>|
        others.len() == accounts.len() && batches_consistent(settled, others) implies match (
    #[trigger] settled.state.withdraw_all_near_for_account_spec(others[index])) {
        Ok((state, account, _)) => batches_consistent(
            with_state(settled, state),
            others.update(index, account),
        ),
        Err(_) => true,
    } by {
        lemma_stake_steps_keep_batches_consistent(settled, others, index, amount);
    }
    lemma_settled_then_keeps_batches_consistent(
        contract,
        accounts,
        index,
        |state: ContractState, account: Account| state.withdraw_all_near_for_account_spec(account),
    );
}

/// Every operation by which an account gives shares in for redemption or
/// takes them back out of a batch keeps the batches of the contract in
/// agreement with the batches of all its accounts.
pub proof fn law_redeeming_keeps_batches_consistent(
    contract: ContractView,
    accounts: Seq<Account>,
    index: int,
    amount: YoctoStake,
)
    requires
        0 <= index < accounts.len(),
        batches_consistent(contract, accounts),
    ensures
        match settled_then(
            contract,
            accounts[index],
            |state: ContractState, account: Account| state.batch_stake_for_account_spec(account, amount),
        ) {
            Ok((after, account, _)) => batches_consistent(after, accounts.update(index, account)),
            Err(_) => true,
        },
        match settled_then(
            contract,
            accounts[index],
            |state: ContractState, account: Account| state.redeem_all_for_account_spec(account),
        ) {
            Ok((after, account, _)) => batches_consistent(after, accounts.update(index, account)),
            Err(_) => true,
        },
        match settled_then(
            contract,
            accounts[index],
            |state: ContractState, account: Account| state.remove_from_redeem_stake_batch_for_account_spec(account, amount),
        ) {
            Ok((after, account, _)) => batches_consistent(after, accounts.update(index, account)),
            Err(_) => true,
        },
        match settled_then(
            contract,
            accounts[index],
            |state: ContractState, account: Account| state.remove_all_from_redeem_stake_batch_for_account_spec(account),
        ) {
            Ok((after, account, _)) => batches_consistent(after, accounts.update(index, account)),
            Err(_) => true,
        },
{
    assert forall|settled: ContractView, others: Seq<Account>|
        others.len() == accounts.len() && batches_consistent(settled, others) implies match (
    #[trigger] settled.state.batch_stake_for_account_spec(others[index], amount)) {
        Ok((state, account, _)) => batches_consistent(
            with_state(settled, state),
            others.update(index, account),
        ),
        Err(_) => true,
    } by {
        lemma_redeem_steps_keep_batches_consistent(settled, others, index, amount);
    }
    lemma_settled_then_keeps_batches_consistent(
        contract,
        accounts,
        index,
        |state: ContractState, account: Account| state.batch_stake_for_account_spec(account, amount),
    );
    assert forall|settled: ContractView, others: Seq<Account>|
        others.len() == accounts.len() && batches_consistent(settled, others) implies match (
    #[trigger] settled.state.redeem_all_for_account_spec(others[index])) {
        Ok((state, account, _)) => batches_consistent(
            with_state(settled, state),
            others.update(index, account),
        ),
        Err(_) => true,
    } by {
        lemma_redeem_steps_keep_batches_consistent(settled, others, index, amount);
    }
    lemma_settled_then_keeps_batches_consistent(
        contract,
        accounts,
        index,
        |state: ContractState, account: Account| state.redeem_all_for_account_spec(account),
    );
    assert forall|settled: ContractView, others: Seq<Account>|
        others.len() == accounts.len() && batches_consistent(settled, others) implies match (
    #[trigger] settled.state.remove_from_redeem_stake_batch_for_account_spec(others[index], amount)) {
        Ok((state, account, _)) => batches_consistent(
            with_state(settled, state),
            others.update(index, account),
        ),
        Err(_) => true,
    } by {
        lemma_redeem_steps_keep_batches_consistent(settled, others, index, amount);
    }
    lemma_settled_then_keeps_batches_consistent(
        contract,
        accounts,
        index,
        |state: ContractState, account: Account| state.remove_from_redeem_stake_batch_for_account_spec(account, amount),
    );
    assert forall|settled: ContractView, others: Seq<Account>|
        others.len() == accounts.len() && batches_consistent(settled, others) implies match (
    #[trigger] settled.state.remove_all_from_redeem_stake_batch_for_account_spec(others[index])) {
        Ok((state, account, _)) => batches_consistent(
            with_state(settled, state),
            others.update(index, account),
        ),
        Err(_) => true,
    } by {
        lemma_redeem_steps_keep_batches_consistent(settled, others, index, amount);
    }
    lemma_settled_then_keeps_batches_consistent(
        contract,
        accounts,
        index,
        |state: ContractState, account: Account| state.remove_all_from_redeem_stake_batch_for_account_spec(account),
    );
}

/// Settling an account keeps the batches of the contract in agreement with
/// the batches of all its accounts.
pub proof fn law_settling_keeps_batches_consistent(
    contract: ContractView,
    accounts: Seq<Account>,
    index: int,
)
    requires
        0 <= index < accounts.len(),
        batches_consistent(contract, accounts),
    ensures
        match claim_receipt_funds_spec(contract, accounts[index]) {
            Ok((after, account, _)) => batches_consistent(after, accounts.update(index, account)),
            Err(_) => true,
        },
{
    law_settling_keeps_stake_batches_consistent(contract, accounts, index);
    law_settling_keeps_redeem_batches_consistent(contract, accounts, index);
}

/// Whether the redeem batches and the stake batches of `after` are
/// consistent with the accounts, given that those of `contract` are and
/// that only the state has changed, and in it neither the batches, nor the
/// redeem lock, nor the number issued last.
proof fn lemma_state_frame(contract: ContractView, state: ContractState, accounts: Seq<Account>)
    requires
        batches_consistent(contract, accounts),
        state.stake_batch == contract.state.stake_batch,
        state.next_stake_batch == contract.state.next_stake_batch,
        state.redeem_stake_batch == contract.state.redeem_stake_batch,
        state.next_redeem_stake_batch == contract.state.next_redeem_stake_batch,
        state.batch_id_sequence == contract.state.batch_id_sequence,
        state.redeem_stake_batch_lock == contract.state.redeem_stake_batch_lock
            || !(state.redeem_stake_batch is Some
            && contract.redeem_stake_batch_receipts.contains_key(
            state.redeem_stake_batch->0.batch_id.0,
        )),
    ensures
        batches_consistent(with_state(contract, state), accounts),
{
    let after = with_state(contract, state);
    assert forall|id: BatchId| #[trigger] stake_batch_consistent(after, accounts, id) by {
        assert(stake_batch_consistent(contract, accounts, id));
    }
    assert forall|id: BatchId| #[trigger] redeem_batch_consistent(after, accounts, id) by {
        assert(redeem_batch_consistent(contract, accounts, id));
    }
}

/// Every step of a stake round, of a refresh of the share value and of a
/// redeem round keeps the batches of the contract in agreement with the
/// batches of all its accounts.
pub proof fn law_rounds_keep_batches_consistent(
    contract: ContractView,
    accounts: Seq<Account>,
    staking_pool_account: StakingPoolAccount,
    near_liquidity: Option<YoctoNear>,
    liquidity_needed: bool,
    moment: BlockTimeHeight,
)
    requires
        batches_consistent(contract, accounts),
    ensures
        match contract.state.run_stake_batch_spec(liquidity_needed) {
            Ok((state, _)) => batches_consistent(with_state(contract, state), accounts),
            Err(_) => true,
        },
        match contract.state.on_deposit_and_stake_spec(near_liquidity, staking_pool_account) {
            Ok(state) => batches_consistent(with_state(contract, state), accounts),
            Err(_) => true,
        },
        match process_staked_batch_spec(contract, moment) {
            Ok((after, _)) => batches_consistent(after, accounts),
            Err(_) => true,
        },
        batches_consistent(with_state(contract, contract.state.clear_stake_lock_spec()), accounts),
        match contract.state.refresh_stake_token_value_spec() {
            Ok(state) => batches_consistent(with_state(contract, state), accounts),
            Err(_) => true,
        },
        match contract.state.on_refresh_stake_token_value_spec(staking_pool_account, moment) {
            Ok(state) => batches_consistent(with_state(contract, state), accounts),
            Err(_) => true,
        },
        match contract.state.unstake_spec() {
            Ok((state, _)) => batches_consistent(with_state(contract, state), accounts),
            Err(_) => true,
        },
        match on_unstake_spec(contract) {
            Ok(after) => batches_consistent(after, accounts),
            Err(_) => true,
        },
        batches_consistent(with_state(contract, contract.state.clear_redeem_lock_spec()), accounts),
        match contract.state.on_redeeming_stake_pending_withdrawal_spec(
            contract.pending_withdrawal(),
            staking_pool_account,
        ) {
            Ok((state, _)) => batches_consistent(with_state(contract, state), accounts),
            Err(_) => true,
        },
        match contract.state.on_redeeming_stake_post_withdrawal_spec(contract.pending_withdrawal()) {
            Ok((state, _)) => batches_consistent(with_state(contract, state), accounts),
            Err(_) => true,
        },
{
    if let Ok((state, _)) = contract.state.run_stake_batch_spec(liquidity_needed) {
        lemma_state_frame(contract, state, accounts);
    }
    if let Ok(state) = contract.state.on_deposit_and_stake_spec(
        near_liquidity,
        staking_pool_account,
    ) {
        lemma_state_frame(contract, state, accounts);
    }
    lemma_state_frame(contract, contract.state.clear_stake_lock_spec(), accounts);
    if let Ok(state) = contract.state.refresh_stake_token_value_spec() {
        lemma_state_frame(contract, state, accounts);
    }
    if let Ok(state) = contract.state.on_refresh_stake_token_value_spec(
        staking_pool_account,
        moment,
    ) {
        lemma_state_frame(contract, state, accounts);
    }
    if let Ok((state, _)) = contract.state.unstake_spec() {
        lemma_state_frame(contract, state, accounts);
    }
    lemma_state_frame(contract, contract.state.clear_redeem_lock_spec(), accounts);
    law_unstaking_keeps_redeem_batches_consistent(contract, accounts);
    if let Ok(after) = on_unstake_spec(contract) {
        assert forall|id: BatchId| #[trigger] stake_batch_consistent(after, accounts, id) by {
            assert(stake_batch_consistent(contract, accounts, id));
        }
    }
    law_withdrawal_keeps_redeem_batches_consistent(contract, accounts);
    if let Ok((state, _)) = contract.state.on_redeeming_stake_post_withdrawal_spec(
        contract.pending_withdrawal(),
    ) {
        let after = with_state(contract, state);
        assert forall|id: BatchId| #[trigger] stake_batch_consistent(after, accounts, id) by {
            assert(stake_batch_consistent(contract, accounts, id));
        }
    }
    law_stake_round_keeps_stake_batches_consistent(contract, accounts, moment);
    if let Ok((after, _)) = process_staked_batch_spec(contract, moment) {
        assert forall|id: BatchId| #[trigger] redeem_batch_consistent(after, accounts, id) by {
            assert(redeem_batch_consistent(contract, accounts, id));
        }
    }
}

/// Starting a round of either kind keeps the batches consistent.
proof fn lemma_starting_a_round_keeps_batches_consistent(
    contract: ContractView,
    accounts: Seq<Account>,
    liquidity_needed: bool,
)
    requires
        batches_consistent(contract, accounts),
    ensures
        match contract.state.run_stake_batch_spec(liquidity_needed) {
            Ok((state, _)) => batches_consistent(with_state(contract, state), accounts),
            Err(_) => true,
        },
        match contract.state.unstake_spec() {
            Ok((state, _)) => batches_consistent(with_state(contract, state), accounts),
            Err(_) => true,
        },
{
    if let Ok((state, _)) = contract.state.run_stake_batch_spec(liquidity_needed) {
        lemma_state_frame(contract, state, accounts);
    }
    if let Ok((state, _)) = contract.state.unstake_spec() {
        lemma_state_frame(contract, state, accounts);
    }
}

/// Taking a deposit and starting a stake round in one call keeps the
/// batches of the contract in agreement with the batches of all its
/// accounts.
pub proof fn law_deposit_and_stake_keeps_batches_consistent(
    contract: ContractView,
    accounts: Seq<Account>,
    index: int,
    amount: YoctoNear,
)
    requires
        0 <= index < accounts.len(),
        batches_consistent(contract, accounts),
    ensures
        match deposit_and_stake_spec(contract, accounts[index], amount) {
            Ok((after, account, _)) => batches_consistent(after, accounts.update(index, account)),
            Err(_) => true,
        },
{
    law_staking_keeps_batches_consistent(contract, accounts, index, amount);
    if let Ok((after, account, _)) = settled_then(
        contract,
        accounts[index],
        |state: ContractState, account: Account| state.deposit_for_account_spec(account, amount),
    ) {
        lemma_starting_a_round_keeps_batches_consistent(
            after,
            accounts.update(index, account),
            after.pending_withdrawal() is Some,
        );
    }
}

/// Batching a redemption and starting a redeem round in one call keeps
/// the batches of the contract in agreement with the batches of all its
/// accounts.
pub proof fn law_redeem_and_unstake_keeps_batches_consistent(
    contract: ContractView,
    accounts: Seq<Account>,
    index: int,
    amount: YoctoStake,
    current: EpochHeight,
)
    requires
        0 <= index < accounts.len(),
        batches_consistent(contract, accounts),
    ensures
        match redeem_and_unstake_spec(contract, accounts[index], amount, current) {
            Ok((after, account, _)) => batches_consistent(after, accounts.update(index, account)),
            Err(_) => true,
        },
        match redeem_all_and_unstake_spec(contract, accounts[index], current) {
            Ok((after, account, _)) => batches_consistent(after, accounts.update(index, account)),
            Err(_) => true,
        },
{
    law_redeeming_keeps_batches_consistent(contract, accounts, index, amount);
    if let Ok((after, account, _)) = settled_then(
        contract,
        accounts[index],
        |state: ContractState, account: Account| state.batch_stake_for_account_spec(account, amount),
    ) {
        lemma_starting_a_round_keeps_batches_consistent(
            after,
            accounts.update(index, account),
            false,
        );
    }
    if let Ok((after, account, _)) = settled_then(
        contract,
        accounts[index],
        |state: ContractState, account: Account| state.redeem_all_for_account_spec(account),
    ) {
        lemma_starting_a_round_keeps_batches_consistent(
            after,
            accounts.update(index, account),
            false,
        );
    }
}

} // verus!
