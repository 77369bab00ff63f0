//! The redeem batches of the contract against the redeem batches of all
//! its accounts.
//!
//! What is proved here is that the two never drift apart: while a redeem
//! batch has not been unstaked, the contract's batch holds the sum of the
//! accounts' batches of its number; once it has been, its receipt holds
//! the sum of what the accounts have yet to claim.

use crate::contract::claims::{
    lemma_redeemable_stake_bounded,
    claim_receipt_funds_spec, claim_redeem_slot, claim_redeem_stake_batch_receipts_spec,
    claim_stake_batch_receipts_spec, claim_stake_slot, RedeemReceipts, StakeReceipts,
};
use crate::contract::receipts::lookup;
use crate::contract::redeem_workflow::on_unstake_spec;
use crate::contract::state::{ContractState, ContractView};
use crate::domain::account::Account;
use crate::domain::batch::RedeemStakeBatch;
use crate::domain::batch_id::BatchId;
use crate::domain::lock::RedeemLock;
use crate::domain::yocto_stake::YoctoStake;
use crate::errors::Error;
use vstd::prelude::*;

verus! {

/// What a slot holds of the redeem batch of the given number.
pub open spec fn slot_stake(slot: Option<RedeemStakeBatch>, id: BatchId) -> int {
    if slot is Some && slot->0.batch_id == id {
        slot->0.balance.amount.0 as int
    } else {
        0
    }
}

/// What an account has given into the redeem batch of the given number.
pub open spec fn account_batched_stake(account: Account, id: BatchId) -> int {
    slot_stake(account.redeem_stake_batch, id) + slot_stake(account.next_redeem_stake_batch, id)
}

/// What the contract holds in the redeem batch of the given number.
pub open spec fn contract_batched_stake(state: ContractState, id: BatchId) -> int {
    slot_stake(state.redeem_stake_batch, id) + slot_stake(state.next_redeem_stake_batch, id)
}

/// What all the accounts together have given into the redeem batch of the
/// given number.
pub open spec fn accounts_batched_stake(accounts: Seq<Account>, id: BatchId) -> int
    decreases accounts.len(),
{
    if accounts.len() == 0 {
        0
    } else {
        accounts_batched_stake(accounts.drop_last(), id) + account_batched_stake(
            accounts.last(),
            id,
        )
    }
}

/// What is left on the receipt of a redeem batch, zero where there is none.
pub open spec fn unclaimed_stake(receipts: RedeemReceipts, id: BatchId) -> int {
    match lookup(receipts, id) {
        Some(receipt) => receipt.redeemed_stake.0 as int,
        None => 0,
    }
}

/// Whether the redeem batch of the given number in the contract agrees
/// with the batches of that number in all the accounts.
///
/// While the batch has no receipt, the contract holds what the accounts
/// have given into it. Once it has a receipt, the receipt holds what the
/// accounts have yet to claim.
pub open spec fn redeem_batch_consistent(
    contract: ContractView,
    accounts: Seq<Account>,
    id: BatchId,
) -> bool {
    match lookup(contract.redeem_stake_batch_receipts, id) {
        Some(receipt) => receipt.redeemed_stake.0 == accounts_batched_stake(accounts, id),
        None => contract_batched_stake(contract.state, id) == accounts_batched_stake(accounts, id),
    }
}

/// Whether the redeem batches of the contract agree with those of all its
/// accounts: every batch does, the contract's two redeem batches have
/// different numbers that were issued, only the batch whose NEAR waits at
/// the venue has a receipt, and no receipt is stored under a number
/// greater than the number issued last.
pub open spec fn redeem_batches_consistent(contract: ContractView, accounts: Seq<Account>) -> bool {
    let state = contract.state;
    let receipts = contract.redeem_stake_batch_receipts;
    &&& state.redeem_stake_batch is Some ==> state.redeem_stake_batch->0.batch_id.0
        <= state.batch_id_sequence.0
    &&& state.next_redeem_stake_batch is Some ==> state.next_redeem_stake_batch->0.batch_id.0
        <= state.batch_id_sequence.0
    &&& state.redeem_stake_batch is Some && state.next_redeem_stake_batch is Some
        ==> state.redeem_stake_batch->0.batch_id != state.next_redeem_stake_batch->0.batch_id
    &&& state.redeem_stake_batch is Some && receipts.contains_key(
        state.redeem_stake_batch->0.batch_id.0,
    ) ==> state.redeem_stake_batch_lock == Some(RedeemLock::PendingWithdrawal)
    &&& state.next_redeem_stake_batch is Some ==> !receipts.contains_key(
        state.next_redeem_stake_batch->0.batch_id.0,
    )
    &&& forall|id: BatchId| #[trigger]
        receipts.contains_key(id.0) ==> id.0 <= state.batch_id_sequence.0
    &&& forall|id: BatchId| #[trigger] redeem_batch_consistent(contract, accounts, id)
}

/// Replacing one account changes the sum over all accounts by what that
/// account's part changes.
pub proof fn lemma_accounts_batched_stake_update(
    accounts: Seq<Account>,
    index: int,
    account: Account,
    id: BatchId,
)
    requires
        0 <= index < accounts.len(),
    ensures
        accounts_batched_stake(accounts.update(index, account), id) == accounts_batched_stake(
            accounts,
            id,
        ) - account_batched_stake(accounts[index], id) + account_batched_stake(account, id),
    decreases accounts.len(),
{
    let updated = accounts.update(index, account);
    if index == accounts.len() - 1 {
        assert(updated.drop_last() == accounts.drop_last());
    } else {
        assert(updated.drop_last() == accounts.drop_last().update(index, account));
        assert(updated.last() == accounts.last());
        lemma_accounts_batched_stake_update(accounts.drop_last(), index, account, id);
    }
}

/// Whether a claim has closed the redeem round: the lock is gone and the
/// next redeem batch of the contract has become the current one.
pub open spec fn round_closed(before: ContractState, after: ContractState) -> bool {
    &&& after.redeem_stake_batch_lock is None
    &&& after.redeem_stake_batch == before.next_redeem_stake_batch
    &&& after.next_redeem_stake_batch is None
}

/// Whether a claim has left the redeem round as it was.
pub open spec fn round_untouched(before: ContractState, after: ContractState) -> bool {
    &&& after.redeem_stake_batch_lock == before.redeem_stake_batch_lock
    &&& after.redeem_stake_batch == before.redeem_stake_batch
    &&& after.next_redeem_stake_batch == before.next_redeem_stake_batch
}

/// What the claim of one redeem batch changes: the receipt of the batch
/// loses what the slot loses; a receipt is deleted when nothing is left on
/// it; no other receipt is touched; and the redeem round is closed exactly
/// when the receipt of its batch is used up.
proof fn lemma_redeem_slot_delta(
    state: ContractState,
    receipts: RedeemReceipts,
    account: Account,
    slot: Option<RedeemStakeBatch>,
    pending: Option<BatchId>,
    id: BatchId,
)
    ensures
        match claim_redeem_slot(state, receipts, account, slot, pending) {
            Ok((state_after, receipts_after, account_after, slot_after, _)) => {
                &&& account_after.redeem_stake_batch == account.redeem_stake_batch
                &&& account_after.next_redeem_stake_batch == account.next_redeem_stake_batch
                &&& state_after.batch_id_sequence == state.batch_id_sequence
                &&& receipts_after.contains_key(id.0) ==> receipts.contains_key(id.0)
                &&& !receipts.contains_key(id.0) ==> slot_stake(slot_after, id) == slot_stake(
                    slot,
                    id,
                )
                &&& receipts.contains_key(id.0) ==> unclaimed_stake(receipts, id) - unclaimed_stake(
                    receipts_after,
                    id,
                ) == slot_stake(slot, id) - slot_stake(slot_after, id)
                &&& round_untouched(state, state_after) || round_closed(state, state_after)
                &&& match pending {
                    Some(pending) => {
                        &&& receipts.contains_key(pending.0) && !receipts_after.contains_key(
                            pending.0,
                        ) ==> round_closed(state, state_after)
                        &&& !round_untouched(state, state_after) ==> receipts.contains_key(
                            pending.0,
                        ) && !receipts_after.contains_key(pending.0)
                    },
                    None => round_untouched(state, state_after),
                }
            },
            Err(_) => true,
        },
{
    reveal(claim_redeem_slot);
    if slot is Some && receipts.contains_key(slot->0.batch_id.0) && pending == Some(
        slot->0.batch_id,
    ) && state.near_liquidity_pool.0 > 0 {
        let receipt = receipts[slot->0.batch_id.0];
        if receipt.stake_token_value.stake_to_near_spec(slot->0.balance.amount) <= u128::MAX {
            lemma_redeemable_stake_bounded(
                receipt.stake_token_value,
                slot->0.balance.amount,
                state.near_liquidity_pool,
            );
        }
    }
}

/// What claiming the NEAR of the redeem batches of an account changes:
/// the receipt of each batch loses what the account's part of the batch
/// loses, and the redeem round is closed exactly when the receipt of its
/// batch is used up.
proof fn lemma_redeem_claims_delta(
    state: ContractState,
    receipts: RedeemReceipts,
    account: Account,
    id: BatchId,
)
    requires
        state.redeem_stake_batch_lock == Some(RedeemLock::PendingWithdrawal)
            ==> state.redeem_stake_batch is Some,
    ensures
        match claim_redeem_stake_batch_receipts_spec(state, receipts, account) {
            Ok((state_after, receipts_after, account_after, _)) => {
                &&& state_after.batch_id_sequence == state.batch_id_sequence
                &&& receipts_after.contains_key(id.0) ==> receipts.contains_key(id.0)
                &&& !receipts.contains_key(id.0) ==> account_batched_stake(account_after, id)
                    == account_batched_stake(account, id)
                &&& receipts.contains_key(id.0) ==> unclaimed_stake(receipts, id) - unclaimed_stake(
                    receipts_after,
                    id,
                ) == account_batched_stake(account, id) - account_batched_stake(account_after, id)
                &&& round_untouched(state, state_after) || round_closed(state, state_after)
                &&& state.redeem_stake_batch_lock == Some(RedeemLock::PendingWithdrawal) ==> {
                    let pending = state.redeem_stake_batch->0.batch_id;
                    &&& receipts.contains_key(pending.0) && !receipts_after.contains_key(pending.0)
                        ==> round_closed(state, state_after)
                    &&& !round_untouched(state, state_after) ==> receipts.contains_key(pending.0)
                        && !receipts_after.contains_key(pending.0)
                }
                &&& state.redeem_stake_batch_lock != Some(RedeemLock::PendingWithdrawal)
                    ==> round_untouched(state, state_after)
            },
            Err(_) => true,
        },
{
    if state.redeem_stake_batch_lock == Some(RedeemLock::Unstaking) {
        assert(claim_redeem_stake_batch_receipts_spec(state, receipts, account) == Ok::<
            (ContractState, RedeemReceipts, Account, bool),
            Error,
        >((state, receipts, account, false)));
    } else {
        let pending = if state.redeem_stake_batch_lock is Some {
            Some(state.redeem_stake_batch->0.batch_id)
        } else {
            None
        };
        assert(pending is Some ==> state.redeem_stake_batch_lock is Some);
        assert(state.redeem_stake_batch_lock is Some ==> state.redeem_stake_batch_lock
            == Some(RedeemLock::PendingWithdrawal));
        lemma_redeem_slot_delta(state, receipts, account, account.redeem_stake_batch, pending, id);
        if pending is Some {
            lemma_redeem_slot_delta(
                state,
                receipts,
                account,
                account.redeem_stake_batch,
                pending,
                pending->0,
            );
        }
        if let Ok((state1, receipts1, account1, slot1, _)) = claim_redeem_slot(
            state,
            receipts,
            account,
            account.redeem_stake_batch,
            pending,
        ) {
            let account1 = Account { redeem_stake_batch: slot1, ..account1 };
            lemma_redeem_slot_delta(
                state1,
                receipts1,
                account1,
                account1.next_redeem_stake_batch,
                pending,
                id,
            );
            if pending is Some {
                lemma_redeem_slot_delta(
                    state1,
                    receipts1,
                    account1,
                    account1.next_redeem_stake_batch,
                    pending,
                    pending->0,
                );
            }
        }
    }
}

/// Claiming the NEAR of the redeem batches of an account keeps the redeem
/// batches of the contract in agreement with those of all its accounts.
pub proof fn law_redeem_claims_keep_batches_consistent(
    contract: ContractView,
    accounts: Seq<Account>,
    index: int,
)
    requires
        0 <= index < accounts.len(),
        redeem_batches_consistent(contract, accounts),
    ensures
        match claim_redeem_stake_batch_receipts_spec(
            contract.state,
            contract.redeem_stake_batch_receipts,
            accounts[index],
        ) {
            Ok((state_after, receipts_after, account_after, _)) => redeem_batches_consistent(
                ContractView {
                    state: state_after,
                    redeem_stake_batch_receipts: receipts_after,
                    ..contract
                },
                accounts.update(index, account_after),
            ),
            Err(_) => true,
        },
{
    let state = contract.state;
    let receipts = contract.redeem_stake_batch_receipts;
    let account = accounts[index];
    if let Ok((state_after, receipts_after, account_after, _)) =
        claim_redeem_stake_batch_receipts_spec(state, receipts, account) {
        let after = ContractView {
            state: state_after,
            redeem_stake_batch_receipts: receipts_after,
            ..contract
        };
        let updated = accounts.update(index, account_after);
        lemma_redeem_claims_delta(state, receipts, account, BatchId(0));
        if state.redeem_stake_batch is Some {
            lemma_redeem_claims_delta(state, receipts, account, state.redeem_stake_batch->0.batch_id);
        }
        if state.next_redeem_stake_batch is Some {
            lemma_redeem_claims_delta(
                state,
                receipts,
                account,
                state.next_redeem_stake_batch->0.batch_id,
            );
        }
        assert forall|id: BatchId| #[trigger]
            receipts_after.contains_key(id.0) implies id.0 <= state_after.batch_id_sequence.0 by {
            lemma_redeem_claims_delta(state, receipts, account, id);
        }
        assert forall|id: BatchId| #[trigger] redeem_batch_consistent(after, updated, id) by {
            assert(redeem_batch_consistent(contract, accounts, id));
            lemma_redeem_claims_delta(state, receipts, account, id);
            lemma_accounts_batched_stake_update(accounts, index, account_after, id);
        }
    }
}

/// Where the contract's redeem batches agree with those of all accounts,
/// they still do when something else than the redeem batches, the redeem
/// lock, the receipts of the redeem batches and the account's redeem
/// batches has changed, and the number issued last has not fallen.
pub proof fn lemma_redeem_consistency_frame(
    contract: ContractView,
    after: ContractView,
    accounts: Seq<Account>,
    index: int,
    account: Account,
)
    requires
        0 <= index < accounts.len(),
        redeem_batches_consistent(contract, accounts),
        after.state.redeem_stake_batch == contract.state.redeem_stake_batch,
        after.state.next_redeem_stake_batch == contract.state.next_redeem_stake_batch,
        after.state.redeem_stake_batch_lock == contract.state.redeem_stake_batch_lock,
        after.state.batch_id_sequence.0 >= contract.state.batch_id_sequence.0,
        after.redeem_stake_batch_receipts == contract.redeem_stake_batch_receipts,
        account.redeem_stake_batch == accounts[index].redeem_stake_batch,
        account.next_redeem_stake_batch == accounts[index].next_redeem_stake_batch,
    ensures
        redeem_batches_consistent(after, accounts.update(index, account)),
{
    assert forall|id: BatchId| #[trigger]
        redeem_batch_consistent(after, accounts.update(index, account), id) by {
        assert(redeem_batch_consistent(contract, accounts, id));
        lemma_accounts_batched_stake_update(accounts, index, account, id);
    }
}

/// Claiming the shares of the stake batches of an account touches none of
/// its redeem batches.
pub proof fn lemma_stake_claims_leave_redeem_batches(
    locked: bool,
    receipts: StakeReceipts,
    account: Account,
)
    ensures
        match claim_stake_batch_receipts_spec(locked, receipts, account) {
            Ok((_, account_after, _)) => account_after.redeem_stake_batch
                == account.redeem_stake_batch && account_after.next_redeem_stake_batch
                == account.next_redeem_stake_batch && account_after.near == account.near,
            Err(_) => true,
        },
{
    reveal(claim_stake_slot);
}

/// Settling an account keeps the redeem batches of the contract in
/// agreement with those of all its accounts.
pub proof fn law_settling_keeps_redeem_batches_consistent(
    contract: ContractView,
    accounts: Seq<Account>,
    index: int,
)
    requires
        0 <= index < accounts.len(),
        redeem_batches_consistent(contract, accounts),
    ensures
        match claim_receipt_funds_spec(contract, accounts[index]) {
            Ok((contract_after, account_after, _)) => redeem_batches_consistent(
                contract_after,
                accounts.update(index, account_after),
            ),
            Err(_) => true,
        },
{
    let locked = contract.state.stake_batch_lock is Some;
    lemma_stake_claims_leave_redeem_batches(locked, contract.stake_batch_receipts, accounts[index]);
    if let Ok((stake_receipts, account1, _)) = claim_stake_batch_receipts_spec(
        locked,
        contract.stake_batch_receipts,
        accounts[index],
    ) {
        let between = ContractView { stake_batch_receipts: stake_receipts, ..contract };
        let accounts1 = accounts.update(index, account1);
        lemma_redeem_consistency_frame(contract, between, accounts, index, account1);
        law_redeem_claims_keep_batches_consistent(between, accounts1, index);
        assert forall|account: Account| #[trigger]
            accounts1.update(index, account) == accounts.update(index, account) by {
            assert(accounts1.update(index, account) =~= accounts.update(index, account));
        }
    }
}

/// What a redemption, and taking shares back out of a redeem batch, change
/// in the redeem batches: the contract's part and the account's part of
/// every batch change by the same amount, and only in a batch that has no
/// receipt.
proof fn lemma_redeem_steps_delta(state: ContractState, account: Account, amount: YoctoStake, id: BatchId)
    ensures
        match state.batch_stake_for_account_spec(account, amount) {
            Ok((state_after, account_after, batch_id)) => {
                &&& contract_batched_stake(state_after, id) - contract_batched_stake(state, id)
                    == account_batched_stake(account_after, id) - account_batched_stake(
                    account,
                    id,
                )
                &&& contract_batched_stake(state_after, id) != contract_batched_stake(state, id)
                    ==> id == batch_id
            },
            Err(_) => true,
        },
        match state.remove_from_redeem_stake_batch_for_account_spec(account, amount) {
            Ok((state_after, account_after, _)) => contract_batched_stake(state_after, id)
                - contract_batched_stake(state, id) == account_batched_stake(account_after, id)
                - account_batched_stake(account, id),
            Err(_) => true,
        },
        match state.remove_all_from_redeem_stake_batch_for_account_spec(account) {
            Ok((state_after, account_after, _)) => contract_batched_stake(state_after, id)
                - contract_batched_stake(state, id) == account_batched_stake(account_after, id)
                - account_batched_stake(account, id),
            Err(_) => true,
        },
{
}

/// Batching a redemption keeps the redeem batches of the contract in
/// agreement with those of all its accounts, and so does taking shares back
/// out of a redeem batch.
pub proof fn law_redeem_steps_keep_redeem_batches_consistent(
    contract: ContractView,
    accounts: Seq<Account>,
    index: int,
    amount: YoctoStake,
)
    requires
        0 <= index < accounts.len(),
        redeem_batches_consistent(contract, accounts),
    ensures
        match contract.state.batch_stake_for_account_spec(accounts[index], amount) {
            Ok((state_after, account_after, _)) => redeem_batches_consistent(
                ContractView { state: state_after, ..contract },
                accounts.update(index, account_after),
            ),
            Err(_) => true,
        },
        match contract.state.remove_from_redeem_stake_batch_for_account_spec(
            accounts[index],
            amount,
        ) {
            Ok((state_after, account_after, _)) => redeem_batches_consistent(
                ContractView { state: state_after, ..contract },
                accounts.update(index, account_after),
            ),
            Err(_) => true,
        },
        match contract.state.remove_all_from_redeem_stake_batch_for_account_spec(accounts[index]) {
            Ok((state_after, account_after, _)) => redeem_batches_consistent(
                ContractView { state: state_after, ..contract },
                accounts.update(index, account_after),
            ),
            Err(_) => true,
        },
{
    let state = contract.state;
    let account = accounts[index];
    if let Ok((state_after, account_after, _)) = state.batch_stake_for_account_spec(account, amount) {
        let after = ContractView { state: state_after, ..contract };
        assert forall|id: BatchId| #[trigger]
            redeem_batch_consistent(after, accounts.update(index, account_after), id) by {
            assert(redeem_batch_consistent(contract, accounts, id));
            lemma_redeem_steps_delta(state, account, amount, id);
            lemma_accounts_batched_stake_update(accounts, index, account_after, id);
        }
    }
    if let Ok((state_after, account_after, _)) =
        state.remove_from_redeem_stake_batch_for_account_spec(account, amount) {
        let after = ContractView { state: state_after, ..contract };
        assert forall|id: BatchId| #[trigger]
            redeem_batch_consistent(after, accounts.update(index, account_after), id) by {
            assert(redeem_batch_consistent(contract, accounts, id));
            lemma_redeem_steps_delta(state, account, amount, id);
            lemma_accounts_batched_stake_update(accounts, index, account_after, id);
        }
    }
    if let Ok((state_after, account_after, _)) =
        state.remove_all_from_redeem_stake_batch_for_account_spec(account) {
        let after = ContractView { state: state_after, ..contract };
        assert forall|id: BatchId| #[trigger]
            redeem_batch_consistent(after, accounts.update(index, account_after), id) by {
            assert(redeem_batch_consistent(contract, accounts, id));
            lemma_redeem_steps_delta(state, account, amount, id);
            lemma_accounts_batched_stake_update(accounts, index, account_after, id);
        }
    }
}

/// Unstaking a redeem batch keeps the redeem batches of the contract in
/// agreement with those of all its accounts: the receipt of the batch holds
/// what the accounts have given into it.
pub proof fn law_unstaking_keeps_redeem_batches_consistent(
    contract: ContractView,
    accounts: Seq<Account>,
)
    requires
        redeem_batches_consistent(contract, accounts),
    ensures
        match on_unstake_spec(contract) {
            Ok(contract_after) => redeem_batches_consistent(contract_after, accounts),
            Err(_) => true,
        },
{
    if let Ok(contract_after) = on_unstake_spec(contract) {
        assert forall|id: BatchId| #[trigger]
            redeem_batch_consistent(contract_after, accounts, id) by {
            assert(redeem_batch_consistent(contract, accounts, id));
        }
    }
}

/// Closing a redeem round after the withdrawal keeps the redeem batches of
/// the contract in agreement with those of all its accounts.
pub proof fn law_withdrawal_keeps_redeem_batches_consistent(
    contract: ContractView,
    accounts: Seq<Account>,
)
    requires
        redeem_batches_consistent(contract, accounts),
    ensures
        match contract.state.on_redeeming_stake_post_withdrawal_spec(contract.pending_withdrawal()) {
            Ok((state_after, _)) => redeem_batches_consistent(
                ContractView { state: state_after, ..contract },
                accounts,
            ),
            Err(_) => true,
        },
{
    if let Ok((state_after, _)) = contract.state.on_redeeming_stake_post_withdrawal_spec(
        contract.pending_withdrawal(),
    ) {
        let after = ContractView { state: state_after, ..contract };
        assert forall|id: BatchId| #[trigger] redeem_batch_consistent(after, accounts, id) by {
            assert(redeem_batch_consistent(contract, accounts, id));
        }
    }
}

} // verus!
