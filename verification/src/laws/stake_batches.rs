//! The batches of the contract against the batches of all its accounts.
//!
//! A batch exists once in the contract and once in every account that paid
//! into it. What is proved here is that the two never drift apart: the
//! contract's batch holds the sum of the accounts' batches of its number,
//! and once the batch is run, its receipt holds the sum of what the
//! accounts have yet to claim.

use crate::contract::claims::{
    claim_receipt_funds_spec, claim_redeem_slot, claim_redeem_stake_batch_receipts_spec,
    claim_stake_batch_receipts_spec, claim_stake_slot, RedeemReceipts, StakeReceipts,
};
use crate::contract::receipts::lookup;
use crate::contract::stake_workflow::process_staked_batch_spec;
use crate::contract::state::{ContractState, ContractView};
use crate::domain::account::Account;
use crate::domain::batch::StakeBatch;
use crate::domain::batch_id::BatchId;
use crate::domain::block_time_height::BlockTimeHeight;
use crate::domain::receipt::StakeBatchReceipt;
use crate::domain::yocto_near::YoctoNear;
use vstd::prelude::*;

verus! {

/// What a slot holds of the stake batch of the given number.
pub open spec fn slot_near(slot: Option<StakeBatch>, id: BatchId) -> int {
    if slot is Some && slot->0.batch_id == id {
        slot->0.balance.amount.0 as int
    } else {
        0
    }
}

/// What an account has paid into the stake batch of the given number.
pub open spec fn account_batched_near(account: Account, id: BatchId) -> int {
    slot_near(account.stake_batch, id) + slot_near(account.next_stake_batch, id)
}

/// What the contract holds in the stake batch of the given number.
pub open spec fn contract_batched_near(state: ContractState, id: BatchId) -> int {
    slot_near(state.stake_batch, id) + slot_near(state.next_stake_batch, id)
}

/// What all the accounts together have paid into the stake batch of the
/// given number.
pub open spec fn accounts_batched_near(accounts: Seq<Account>, id: BatchId) -> int
    decreases accounts.len(),
{
    if accounts.len() == 0 {
        0
    } else {
        accounts_batched_near(accounts.drop_last(), id) + account_batched_near(accounts.last(), id)
    }
}

/// Whether the stake batch of the given number in the contract agrees with
/// the batches of that number in all the accounts.
///
/// While the batch has no receipt, the contract holds what the accounts
/// have paid into it. Once it has a receipt, the contract holds nothing
/// of it any more, and the receipt holds what the accounts have yet to
/// claim.
pub open spec fn stake_batch_consistent(
    contract: ContractView,
    accounts: Seq<Account>,
    id: BatchId,
) -> bool {
    match lookup(contract.stake_batch_receipts, id) {
        Some(receipt) => contract_batched_near(contract.state, id) == 0 && receipt.staked_near.0
            == accounts_batched_near(accounts, id),
        None => contract_batched_near(contract.state, id) == accounts_batched_near(accounts, id),
    }
}

/// Whether a slot of the contract holds a stake batch that was issued and
/// has not been run: its number is no greater than the number issued last,
/// and it has no receipt.
pub open spec fn open_stake_slot(contract: ContractView, slot: Option<StakeBatch>) -> bool {
    slot is Some ==> slot->0.batch_id.0 <= contract.state.batch_id_sequence.0
        && !contract.stake_batch_receipts.contains_key(slot->0.batch_id.0)
}

/// Whether the stake batches of the contract agree with those of all its
/// accounts: every batch does, the contract's two stake batches are open
/// and have different numbers, and no receipt is stored under a number
/// greater than the number issued last.
pub open spec fn stake_batches_consistent(contract: ContractView, accounts: Seq<Account>) -> bool {
    let state = contract.state;
    &&& open_stake_slot(contract, state.stake_batch)
    &&& open_stake_slot(contract, state.next_stake_batch)
    &&& state.stake_batch is Some && state.next_stake_batch is Some
        ==> state.stake_batch->0.batch_id != state.next_stake_batch->0.batch_id
    &&& forall|id: BatchId| #[trigger]
        contract.stake_batch_receipts.contains_key(id.0) ==> id.0 <= state.batch_id_sequence.0
    &&& forall|id: BatchId| #[trigger] stake_batch_consistent(contract, accounts, id)
}

/// Replacing one account changes the sum over all accounts by what that
/// account's part changes.
pub proof fn lemma_accounts_batched_near_update(
    accounts: Seq<Account>,
    index: int,
    account: Account,
    id: BatchId,
)
    requires
        0 <= index < accounts.len(),
    ensures
        accounts_batched_near(accounts.update(index, account), id) == accounts_batched_near(
            accounts,
            id,
        ) - account_batched_near(accounts[index], id) + account_batched_near(account, id),
    decreases accounts.len(),
{
    let updated = accounts.update(index, account);
    if index == accounts.len() - 1 {
        assert(updated.drop_last() == accounts.drop_last());
    } else {
        assert(updated.drop_last() == accounts.drop_last().update(index, account));
        assert(updated.last() == accounts.last());
        lemma_accounts_batched_near_update(accounts.drop_last(), index, account, id);
    }
}

/// What the claim of one stake batch changes: where it claims, the receipt
/// of the batch loses what the slot holds, and is deleted when nothing is
/// left on it; no other receipt is touched.
proof fn lemma_stake_slot_delta(receipts: StakeReceipts, account: Account, slot: Option<StakeBatch>)
    ensures
        match claim_stake_slot(receipts, account, slot) {
            Ok((receipts_after, account_after, claimed)) => {
                &&& account_after.stake_batch == account.stake_batch
                &&& account_after.next_stake_batch == account.next_stake_batch
                &&& claimed <==> slot is Some && receipts.contains_key(slot->0.batch_id.0)
                &&& !claimed ==> receipts_after == receipts
                &&& claimed ==> {
                    let id = slot->0.batch_id.0;
                    let left = receipts[id].staked_near.0 - slot->0.balance.amount.0;
                    &&& left >= 0
                    &&& left == 0 ==> receipts_after == receipts.remove(id)
                    &&& left > 0 ==> receipts_after == receipts.insert(
                        id,
                        StakeBatchReceipt { staked_near: YoctoNear(left as u128), ..receipts[id] },
                    )
                }
            },
            Err(_) => true,
        },
{
    reveal(claim_stake_slot);
}

/// What is left on the receipt of a stake batch, zero where there is none.
pub open spec fn unclaimed_near(receipts: StakeReceipts, id: BatchId) -> int {
    match lookup(receipts, id) {
        Some(receipt) => receipt.staked_near.0 as int,
        None => 0,
    }
}

/// Claiming the shares of the stake batches of an account takes the same
/// amount off the receipt of each batch and off what the account holds in
/// that batch. A batch without a receipt is left as it is, and no receipt
/// is made.
pub proof fn lemma_stake_claims_delta(locked: bool, receipts: StakeReceipts, account: Account, id: BatchId)
    ensures
        match claim_stake_batch_receipts_spec(locked, receipts, account) {
            Ok((receipts_after, account_after, _)) => {
                &&& receipts_after.contains_key(id.0) ==> receipts.contains_key(id.0)
                &&& !receipts.contains_key(id.0) ==> account_batched_near(account_after, id)
                    == account_batched_near(account, id)
                &&& receipts.contains_key(id.0) ==> unclaimed_near(receipts, id) - unclaimed_near(
                    receipts_after,
                    id,
                ) == account_batched_near(account, id) - account_batched_near(account_after, id)
                &&& receipts.contains_key(id.0) && !receipts_after.contains_key(id.0)
                    ==> unclaimed_near(receipts, id) == account_batched_near(account, id)
                    - account_batched_near(account_after, id)
            },
            Err(_) => true,
        },
{
    lemma_stake_slot_delta(receipts, account, account.stake_batch);
    if let Ok((receipts1, account1, claimed1)) = claim_stake_slot(
        receipts,
        account,
        account.stake_batch,
    ) {
        let account1 = if claimed1 {
            Account { stake_batch: None, ..account1 }
        } else {
            account1
        };
        lemma_stake_slot_delta(receipts1, account1, account1.next_stake_batch);
    }
}

/// Settling an account keeps the stake batches of the contract in
/// agreement with those of all its accounts.
pub proof fn law_stake_claims_keep_batches_consistent(
    contract: ContractView,
    accounts: Seq<Account>,
    index: int,
)
    requires
        0 <= index < accounts.len(),
        stake_batches_consistent(contract, accounts),
    ensures
        match claim_stake_batch_receipts_spec(
            contract.state.stake_batch_lock is Some,
            contract.stake_batch_receipts,
            accounts[index],
        ) {
            Ok((receipts_after, account_after, _)) => stake_batches_consistent(
                ContractView { stake_batch_receipts: receipts_after, ..contract },
                accounts.update(index, account_after),
            ),
            Err(_) => true,
        },
{
    let locked = contract.state.stake_batch_lock is Some;
    let receipts = contract.stake_batch_receipts;
    let account = accounts[index];
    if let Ok((receipts_after, account_after, _)) = claim_stake_batch_receipts_spec(
        locked,
        receipts,
        account,
    ) {
        let after = ContractView { stake_batch_receipts: receipts_after, ..contract };
        let updated = accounts.update(index, account_after);
        if contract.state.stake_batch is Some {
            lemma_stake_claims_delta(
                locked,
                receipts,
                account,
                contract.state.stake_batch->0.batch_id,
            );
        }
        if contract.state.next_stake_batch is Some {
            lemma_stake_claims_delta(
                locked,
                receipts,
                account,
                contract.state.next_stake_batch->0.batch_id,
            );
        }
        assert forall|id: BatchId| #[trigger]
            receipts_after.contains_key(id.0) implies id.0
            <= contract.state.batch_id_sequence.0 by {
            lemma_stake_claims_delta(locked, receipts, account, id);
        }
        assert forall|id: BatchId| #[trigger] stake_batch_consistent(after, updated, id) by {
            assert(stake_batch_consistent(contract, accounts, id));
            lemma_stake_claims_delta(locked, receipts, account, id);
            lemma_accounts_batched_near_update(accounts, index, account_after, id);
        }
    }
}

/// Claiming the NEAR of the redeem batches of an account touches neither
/// the stake batches of the contract or of the account, nor the number
/// issued last.
pub proof fn lemma_redeem_claims_leave_stake_batches(
    state: ContractState,
    receipts: RedeemReceipts,
    account: Account,
)
    ensures
        match claim_redeem_stake_batch_receipts_spec(state, receipts, account) {
            Ok((state_after, _, account_after, _)) => {
                &&& state_after.stake_batch == state.stake_batch
                &&& state_after.next_stake_batch == state.next_stake_batch
                &&& state_after.stake_batch_lock == state.stake_batch_lock
                &&& state_after.batch_id_sequence == state.batch_id_sequence
                &&& account_after.stake == account.stake
                &&& account_after.stake_batch == account.stake_batch
                &&& account_after.next_stake_batch == account.next_stake_batch
            },
            Err(_) => true,
        },
{
    reveal(claim_redeem_slot);
}

/// Where the contract's stake batches agree with those of all accounts,
/// they still do when something else than the stake batches, the receipts
/// of the stake batches and the account's stake batches has changed, and
/// the number issued last has not fallen.
pub proof fn lemma_consistency_frame(
    contract: ContractView,
    after: ContractView,
    accounts: Seq<Account>,
    index: int,
    account: Account,
)
    requires
        0 <= index < accounts.len(),
        stake_batches_consistent(contract, accounts),
        after.state.stake_batch == contract.state.stake_batch,
        after.state.next_stake_batch == contract.state.next_stake_batch,
        after.state.batch_id_sequence.0 >= contract.state.batch_id_sequence.0,
        after.stake_batch_receipts == contract.stake_batch_receipts,
        account.stake_batch == accounts[index].stake_batch,
        account.next_stake_batch == accounts[index].next_stake_batch,
    ensures
        stake_batches_consistent(after, accounts.update(index, account)),
{
    assert forall|id: BatchId| #[trigger]
        stake_batch_consistent(after, accounts.update(index, account), id) by {
        assert(stake_batch_consistent(contract, accounts, id));
        lemma_accounts_batched_near_update(accounts, index, account, id);
    }
}

/// Settling an account keeps the stake batches of the contract in
/// agreement with those of all its accounts.
pub proof fn law_settling_keeps_stake_batches_consistent(
    contract: ContractView,
    accounts: Seq<Account>,
    index: int,
)
    requires
        0 <= index < accounts.len(),
        stake_batches_consistent(contract, accounts),
    ensures
        match claim_receipt_funds_spec(contract, accounts[index]) {
            Ok((contract_after, account_after, _)) => stake_batches_consistent(
                contract_after,
                accounts.update(index, account_after),
            ),
            Err(_) => true,
        },
{
    law_stake_claims_keep_batches_consistent(contract, accounts, index);
    if let Ok((stake_receipts, account1, _)) = claim_stake_batch_receipts_spec(
        contract.state.stake_batch_lock is Some,
        contract.stake_batch_receipts,
        accounts[index],
    ) {
        lemma_redeem_claims_leave_stake_batches(
            contract.state,
            contract.redeem_stake_batch_receipts,
            account1,
        );
        if let Ok((contract_after, account_after, _)) = claim_receipt_funds_spec(
            contract,
            accounts[index],
        ) {
            let between = ContractView { stake_batch_receipts: stake_receipts, ..contract };
            let settled = accounts.update(index, account1);
            lemma_consistency_frame(between, contract_after, settled, index, account_after);
            assert(settled.update(index, account_after) == accounts.update(index, account_after));
        }
    }
}

/// What a deposit changes in the stake batches: the contract's part and
/// the account's part of every batch grow by the same amount.
proof fn lemma_deposit_delta(state: ContractState, account: Account, amount: YoctoNear, id: BatchId)
    ensures
        match state.batch_near_for_account_spec(account, amount) {
            Ok((state_after, account_after, batch_id)) => {
                &&& contract_batched_near(state_after, id) - contract_batched_near(state, id)
                    == account_batched_near(account_after, id) - account_batched_near(account, id)
                &&& contract_batched_near(state_after, id) != contract_batched_near(state, id)
                    ==> id == batch_id
            },
            Err(_) => true,
        },
{
}

/// Batching a deposit keeps the stake batches of the contract in agreement
/// with those of all its accounts.
pub proof fn law_deposit_step_keeps_stake_batches_consistent(
    contract: ContractView,
    accounts: Seq<Account>,
    index: int,
    amount: YoctoNear,
)
    requires
        0 <= index < accounts.len(),
        stake_batches_consistent(contract, accounts),
    ensures
        match contract.state.batch_near_for_account_spec(accounts[index], amount) {
            Ok((state_after, account_after, _)) => stake_batches_consistent(
                ContractView { state: state_after, ..contract },
                accounts.update(index, account_after),
            ),
            Err(_) => true,
        },
{
    if let Ok((state_after, account_after, batch_id)) = contract.state.batch_near_for_account_spec(
        accounts[index],
        amount,
    ) {
        let after = ContractView { state: state_after, ..contract };
        assert forall|id: BatchId| #[trigger]
            stake_batch_consistent(after, accounts.update(index, account_after), id) by {
            assert(stake_batch_consistent(contract, accounts, id));
            lemma_deposit_delta(contract.state, accounts[index], amount, id);
            lemma_accounts_batched_near_update(accounts, index, account_after, id);
        }
    }
}

/// What taking deposits back changes in the stake batches: the contract's
/// part and the account's part of every batch shrink by the same amount.
proof fn lemma_withdrawal_delta(state: ContractState, account: Account, amount: YoctoNear, id: BatchId)
    ensures
        match state.withdraw_from_stake_batch_for_account_spec(account, amount) {
            Ok((state_after, account_after, _)) => contract_batched_near(state_after, id)
                - contract_batched_near(state, id) == account_batched_near(account_after, id)
                - account_batched_near(account, id),
            Err(_) => true,
        },
        match state.withdraw_all_from_stake_batch_for_account_spec(account) {
            Ok((state_after, account_after, _)) => contract_batched_near(state_after, id)
                - contract_batched_near(state, id) == account_batched_near(account_after, id)
                - account_batched_near(account, id),
            Err(_) => true,
        },
{
}

/// Taking deposits back out of a stake batch keeps the stake batches of
/// the contract in agreement with those of all its accounts.
pub proof fn law_withdrawal_step_keeps_stake_batches_consistent(
    contract: ContractView,
    accounts: Seq<Account>,
    index: int,
    amount: YoctoNear,
)
    requires
        0 <= index < accounts.len(),
        stake_batches_consistent(contract, accounts),
    ensures
        match contract.state.withdraw_from_stake_batch_for_account_spec(accounts[index], amount) {
            Ok((state_after, account_after, _)) => stake_batches_consistent(
                ContractView { state: state_after, ..contract },
                accounts.update(index, account_after),
            ),
            Err(_) => true,
        },
        match contract.state.withdraw_all_from_stake_batch_for_account_spec(accounts[index]) {
            Ok((state_after, account_after, _)) => stake_batches_consistent(
                ContractView { state: state_after, ..contract },
                accounts.update(index, account_after),
            ),
            Err(_) => true,
        },
{
    if let Ok((state_after, account_after, _)) =
        contract.state.withdraw_from_stake_batch_for_account_spec(accounts[index], amount) {
        let after = ContractView { state: state_after, ..contract };
        assert forall|id: BatchId| #[trigger]
            stake_batch_consistent(after, accounts.update(index, account_after), id) by {
            assert(stake_batch_consistent(contract, accounts, id));
            lemma_withdrawal_delta(contract.state, accounts[index], amount, id);
            lemma_accounts_batched_near_update(accounts, index, account_after, id);
        }
    }
    if let Ok((state_after, account_after, _)) =
        contract.state.withdraw_all_from_stake_batch_for_account_spec(accounts[index]) {
        let after = ContractView { state: state_after, ..contract };
        assert forall|id: BatchId| #[trigger]
            stake_batch_consistent(after, accounts.update(index, account_after), id) by {
            assert(stake_batch_consistent(contract, accounts, id));
            lemma_withdrawal_delta(contract.state, accounts[index], amount, id);
            lemma_accounts_batched_near_update(accounts, index, account_after, id);
        }
    }
}

/// Finishing a stake round keeps the stake batches of the contract in
/// agreement with those of all its accounts: the receipt of the batch holds
/// what the accounts have paid into it.
pub proof fn law_stake_round_keeps_stake_batches_consistent(
    contract: ContractView,
    accounts: Seq<Account>,
    moment: BlockTimeHeight,
)
    requires
        stake_batches_consistent(contract, accounts),
    ensures
        match process_staked_batch_spec(contract, moment) {
            Ok((contract_after, _)) => stake_batches_consistent(contract_after, accounts),
            Err(_) => true,
        },
{
    if let Ok((contract_after, batch_id)) = process_staked_batch_spec(contract, moment) {
        assert forall|id: BatchId| #[trigger]
            stake_batch_consistent(contract_after, accounts, id) by {
            assert(stake_batch_consistent(contract, accounts, id));
        }
    }
}

} // verus!
