//! Settling an account against the receipts of the batches it paid into.

use crate::contract::receipts::{apply_writes, lemma_apply_writes_push, ReceiptTable, Write};
use crate::contract::state::{Contract, ContractState, ContractView};
use crate::domain::account::{Account, RegisteredAccount};
use crate::domain::balance::{NearBalance, StakeBalance};
use crate::domain::batch::{RedeemStakeBatch, StakeBatch};
use crate::domain::batch_id::BatchId;
use crate::domain::lock::RedeemLock;
use crate::domain::receipt::{RedeemStakeBatchReceipt, StakeBatchReceipt};
use crate::domain::stake_token_value::StakeTokenValue;
use crate::domain::yocto_near::YoctoNear;
use crate::domain::yocto_stake::YoctoStake;
use crate::errors::Error;
use crate::math::{lemma_mul_div_bounds, lemma_mul_div_monotonic, mul_div};
use vstd::prelude::*;

verus! {

/// The receipts of the stake batches, by the number of the batch.
pub type StakeReceipts = Map<u128, StakeBatchReceipt>;

/// The receipts of the redeem batches, by the number of the batch.
pub type RedeemReceipts = Map<u128, RedeemStakeBatchReceipt>;

/// The account with its share balance set to `amount`.
pub open spec fn with_stake(account: Account, amount: int) -> Account {
    Account { stake: Some(StakeBalance { amount: YoctoStake(amount as u128) }), ..account }
}

/// The account with its NEAR balance set to `amount`.
pub open spec fn with_near(account: Account, amount: int) -> Account {
    Account { near: Some(NearBalance { amount: YoctoNear(amount as u128) }), ..account }
}

/// Claims the shares that one stake batch of an account has earned.
///
/// Where the table holds no receipt for the batch, nothing happens. Else
/// the NEAR that the account paid in is converted at the receipt's value,
/// the shares are credited to the account, and the NEAR is taken off the
/// receipt, which is deleted when nothing is left on it. The last part of
/// the result tells whether the batch was claimed.
#[verifier::opaque]
pub open spec fn claim_stake_slot(
    receipts: StakeReceipts,
    account: Account,
    slot: Option<StakeBatch>,
) -> Result<(StakeReceipts, Account, bool), Error> {
    if slot is None || !receipts.contains_key(slot->0.batch_id.0) {
        Ok((receipts, account, false))
    } else {
        let batch = slot->0;
        let receipt = receipts[batch.batch_id.0];
        let stake = receipt.stake_token_value.near_to_stake_spec(batch.balance.amount);
        if stake > u128::MAX || account.stake_amount() + stake > u128::MAX {
            Err(Error::BalanceOverflow)
        } else if batch.balance.amount.0 > receipt.staked_near.0 {
            Err(Error::ReceiptBalanceTooLow)
        } else {
            let rest = YoctoNear((receipt.staked_near.0 - batch.balance.amount.0) as u128);
            Ok(
                (
                    if rest.0 == 0 {
                        receipts.remove(batch.batch_id.0)
                    } else {
                        receipts.insert(
                            batch.batch_id.0,
                            StakeBatchReceipt { staked_near: rest, ..receipt },
                        )
                    },
                    with_stake(account, account.stake_amount() + stake),
                    true,
                ),
            )
        }
    }
}

/// Claims the shares of both stake batches of an account, the current one
/// first, and clears each batch that was claimed. After that, where the
/// stake side is not locked and the current slot is empty, the next batch
/// moves into it.
pub open spec fn claim_stake_batch_receipts_spec(
    locked: bool,
    receipts: StakeReceipts,
    account: Account,
) -> Result<(StakeReceipts, Account, bool), Error> {
    match claim_stake_slot(receipts, account, account.stake_batch) {
        Err(e) => Err(e),
        Ok((receipts1, account1, claimed1)) => {
            let account1 = if claimed1 {
                Account { stake_batch: None, ..account1 }
            } else {
                account1
            };
            match claim_stake_slot(receipts1, account1, account1.next_stake_batch) {
                Err(e) => Err(e),
                Ok((receipts2, account2, claimed2)) => {
                    let account2 = if claimed2 {
                        Account { next_stake_batch: None, ..account2 }
                    } else {
                        account2
                    };
                    let account3 = if !locked && account2.stake_batch is None {
                        Account {
                            stake_batch: account2.next_stake_batch,
                            next_stake_batch: None,
                            ..account2
                        }
                    } else {
                        account2
                    };
                    Ok((receipts2, account3, claimed1 || claimed2))
                },
            }
        },
    }
}

/// The lesser of two numbers.
pub open spec fn min(a: int, b: int) -> int {
    if a <= b {
        a
    } else {
        b
    }
}

/// The state after the redeem round whose NEAR was awaited is closed: the
/// lock is gone and the next redeem batch has become the current one.
pub open spec fn pending_withdrawal_closed(state: ContractState) -> ContractState {
    ContractState {
        redeem_stake_batch_lock: None,
        redeem_stake_batch: state.next_redeem_stake_batch,
        next_redeem_stake_batch: None,
        ..state
    }
}

/// Claims the NEAR of a redeem batch whose receipt is settled and paid out.
pub open spec fn claim_redeemed_stake_for_batch(
    receipts: RedeemReceipts,
    account: Account,
    batch: RedeemStakeBatch,
) -> Result<(RedeemReceipts, Account), Error> {
    let receipt = receipts[batch.batch_id.0];
    let near = receipt.stake_token_value.stake_to_near_spec(batch.balance.amount);
    if near > u128::MAX || account.near_amount() + near > u128::MAX {
        Err(Error::BalanceOverflow)
    } else if batch.balance.amount.0 > receipt.redeemed_stake.0 {
        Err(Error::ReceiptBalanceTooLow)
    } else {
        let rest = YoctoStake((receipt.redeemed_stake.0 - batch.balance.amount.0) as u128);
        Ok(
            (
                if rest.0 == 0 {
                    receipts.remove(batch.batch_id.0)
                } else {
                    receipts.insert(
                        batch.batch_id.0,
                        RedeemStakeBatchReceipt { redeemed_stake: rest, ..receipt },
                    )
                },
                with_near(account, account.near_amount() + near),
            ),
        )
    }
}

/// Claims NEAR out of the liquidity pool for a redeem batch whose NEAR
/// still waits at the venue.
///
/// The account is paid what its shares are worth at the receipt's value, or
/// all that the pool holds where that is less. The payment moves from the
/// pool to the NEAR owed to accounts. The shares that the payment buys back
/// at the receipt's value leave the account's batch and the receipt. A
/// receipt that is used up closes the redeem round. The result holds what is
/// left in the account's batch.
pub open spec fn claim_redeemed_stake_for_batch_pending_withdrawal(
    state: ContractState,
    receipts: RedeemReceipts,
    account: Account,
    batch: RedeemStakeBatch,
) -> Result<(ContractState, RedeemReceipts, Account, YoctoStake), Error> {
    let receipt = receipts[batch.batch_id.0];
    let value = receipt.stake_token_value.stake_to_near_spec(batch.balance.amount);
    let claimed_near = YoctoNear(min(state.near_liquidity_pool.0 as int, value) as u128);
    let redeemable_stake = receipt.stake_token_value.near_to_stake_spec(claimed_near);
    if value > u128::MAX {
        Err(Error::BalanceOverflow)
    } else if account.near_amount() + claimed_near.0 > u128::MAX || state.total_near.amount.0
        + claimed_near.0 > u128::MAX {
        Err(Error::BalanceOverflow)
    } else if redeemable_stake > receipt.redeemed_stake.0 {
        Err(Error::ReceiptBalanceTooLow)
    } else {
        let rest = YoctoStake((receipt.redeemed_stake.0 - redeemable_stake) as u128);
        let paid = ContractState {
            near_liquidity_pool: YoctoNear((state.near_liquidity_pool.0 - claimed_near.0) as u128),
            total_near: NearBalance {
                amount: YoctoNear((state.total_near.amount.0 + claimed_near.0) as u128),
            },
            ..state
        };
        Ok(
            (
                if rest.0 == 0 {
                    pending_withdrawal_closed(paid)
                } else {
                    paid
                },
                if rest.0 == 0 {
                    receipts.remove(batch.batch_id.0)
                } else {
                    receipts.insert(
                        batch.batch_id.0,
                        RedeemStakeBatchReceipt { redeemed_stake: rest, ..receipt },
                    )
                },
                with_near(account, account.near_amount() + claimed_near.0),
                YoctoStake((batch.balance.amount.0 - redeemable_stake) as u128),
            ),
        )
    }
}

/// Claims the NEAR that one redeem batch of an account has earned.
///
/// `pending` is the number of the batch whose NEAR waits at the venue, if
/// there is one. A batch with another number is claimed from its receipt,
/// where the table holds one, and is cleared. The batch with that number is
/// claimed only while the liquidity pool holds something, and out of the
/// pool. The result holds the slot as it is afterwards, and whether
/// anything was claimed.
#[verifier::opaque]
pub open spec fn claim_redeem_slot(
    state: ContractState,
    receipts: RedeemReceipts,
    account: Account,
    slot: Option<RedeemStakeBatch>,
    pending: Option<BatchId>,
) -> Result<(ContractState, RedeemReceipts, Account, Option<RedeemStakeBatch>, bool), Error> {
    if slot is None || !receipts.contains_key(slot->0.batch_id.0) {
        Ok((state, receipts, account, slot, false))
    } else if pending != Some(slot->0.batch_id) {
        match claim_redeemed_stake_for_batch(receipts, account, slot->0) {
            Err(e) => Err(e),
            Ok((receipts, account)) => Ok((state, receipts, account, None, true)),
        }
    } else if state.near_liquidity_pool.0 > 0 {
        match claim_redeemed_stake_for_batch_pending_withdrawal(state, receipts, account, slot->0) {
            Err(e) => Err(e),
            Ok((state, receipts, account, left)) => Ok(
                (
                    state,
                    receipts,
                    account,
                    if left.0 == 0 {
                        None
                    } else {
                        Some(
                            RedeemStakeBatch {
                                balance: StakeBalance { amount: left },
                                ..slot->0
                            },
                        )
                    },
                    true,
                ),
            ),
        }
    } else {
        Ok((state, receipts, account, slot, false))
    }
}

/// Claims the NEAR of both redeem batches of an account, the current one
/// first.
///
/// While the venue is unstaking, nothing is claimed. While the NEAR of the
/// current redeem batch of the contract waits at the venue, an account's
/// batch of that number is claimed out of the liquidity pool only. After
/// the claims, where the redeem side is not locked and the account's
/// current slot is empty, its next batch moves into it.
pub open spec fn claim_redeem_stake_batch_receipts_spec(
    state: ContractState,
    receipts: RedeemReceipts,
    account: Account,
) -> Result<(ContractState, RedeemReceipts, Account, bool), Error> {
    if state.redeem_stake_batch_lock == Some(RedeemLock::Unstaking) {
        Ok((state, receipts, account, false))
    } else if state.redeem_stake_batch_lock is Some && state.redeem_stake_batch is None {
        Err(Error::RedeemStakeBatchShouldExist)
    } else {
        let pending = if state.redeem_stake_batch_lock is Some {
            Some(state.redeem_stake_batch->0.batch_id)
        } else {
            None
        };
        match claim_redeem_slot(state, receipts, account, account.redeem_stake_batch, pending) {
            Err(e) => Err(e),
            Ok((state1, receipts1, account1, slot1, claimed1)) => {
                let account1 = Account { redeem_stake_batch: slot1, ..account1 };
                match claim_redeem_slot(
                    state1,
                    receipts1,
                    account1,
                    account1.next_redeem_stake_batch,
                    pending,
                ) {
                    Err(e) => Err(e),
                    Ok((state2, receipts2, account2, slot2, claimed2)) => {
                        let account2 = Account { next_redeem_stake_batch: slot2, ..account2 };
                        let account3 = if state2.redeem_stake_batch_lock is None
                            && account2.redeem_stake_batch is None {
                            Account {
                                redeem_stake_batch: account2.next_redeem_stake_batch,
                                next_redeem_stake_batch: None,
                                ..account2
                            }
                        } else {
                            account2
                        };
                        Ok((state2, receipts2, account3, claimed1 || claimed2))
                    },
                }
            },
        }
    }
}

/// Settles an account: first its stake batches, then its redeem batches.
/// The last part of the result tells whether anything was claimed.
pub open spec fn claim_receipt_funds_spec(contract: ContractView, account: Account) -> Result<
    (ContractView, Account, bool),
    Error,
> {
    match claim_stake_batch_receipts_spec(
        contract.state.stake_batch_lock is Some,
        contract.stake_batch_receipts,
        account,
    ) {
        Err(e) => Err(e),
        Ok((stake_receipts, account1, claimed1)) => match claim_redeem_stake_batch_receipts_spec(
            contract.state,
            contract.redeem_stake_batch_receipts,
            account1,
        ) {
            Err(e) => Err(e),
            Ok((state, redeem_receipts, account2, claimed2)) => Ok(
                (
                    ContractView {
                        state,
                        stake_batch_receipts: stake_receipts,
                        redeem_stake_batch_receipts: redeem_receipts,
                    },
                    account2,
                    claimed1 || claimed2,
                ),
            ),
        },
    }
}

/// The shares that a payment out of the pool buys back never exceed the
/// shares that the payment was computed from.
pub proof fn lemma_redeemable_stake_bounded(value: StakeTokenValue, stake: YoctoStake, pool: YoctoNear)
    requires
        value.stake_to_near_spec(stake) <= u128::MAX,
    ensures
        0 <= value.stake_to_near_spec(stake),
        0 <= value.near_to_stake_spec(
            YoctoNear(min(pool.0 as int, value.stake_to_near_spec(stake)) as u128),
        ) <= stake.0,
{
    value.lemma_conversion_bounds(YoctoNear(0), stake);
    let near = value.stake_to_near_spec(stake);
    let claimed = YoctoNear(min(pool.0 as int, near) as u128);
    value.lemma_conversion_bounds(claimed, stake);
    if !value.is_one_to_one() {
        let t = value.total_staked_near_balance.0 as int;
        let s = value.total_stake_supply.0 as int;
        lemma_mul_div_bounds(stake.0 as int, t, s);
        lemma_mul_div_monotonic(claimed.0 as int, near, s, t);
        lemma_mul_div_bounds(near, s, t);
        let back = mul_div(near, s, t);
        assert(back <= stake.0) by (nonlinear_arith)
            requires
                back * t <= near * s,
                near * s <= stake.0 * t,
                0 < t,
        ;
    }
}

/// What settling an account will change, worked out before any of it is done.
pub struct ClaimPlan {
    /// The contract's state afterwards.
    pub state: ContractState,
    /// The account afterwards.
    pub account: Account,
    /// The changes to the receipts of the stake batches.
    pub stake_writes: Vec<Write<StakeBatchReceipt>>,
    /// The changes to the receipts of the redeem batches.
    pub redeem_writes: Vec<Write<RedeemStakeBatchReceipt>>,
    /// Whether anything was claimed.
    pub claimed: bool,
}

impl ClaimPlan {
    /// The contract that the plan leads to from `contract`.
    pub open spec fn outcome(self, contract: ContractView) -> ContractView {
        ContractView {
            state: self.state,
            stake_batch_receipts: apply_writes(contract.stake_batch_receipts, self.stake_writes@),
            redeem_stake_batch_receipts: apply_writes(
                contract.redeem_stake_batch_receipts,
                self.redeem_writes@,
            ),
        }
    }
}

/// Works out the claim of one stake batch of an account: the receipts are
/// read as they will be after `writes`, and what the claim changes in them
/// is added to `writes`.
fn settle_stake_slot(
    receipts: &ReceiptTable<StakeBatchReceipt>,
    writes: &mut Vec<Write<StakeBatchReceipt>>,
    account: &mut Account,
    slot: Option<StakeBatch>,
) -> (res: Result<bool, Error>)
    ensures
        match claim_stake_slot(apply_writes(receipts@, old(writes)@), *old(account), slot) {
            Ok((receipts_after, account_after, claimed)) => res == Ok::<bool, Error>(claimed)
                && *final(account) == account_after && apply_writes(receipts@, final(writes)@)
                == receipts_after,
            Err(e) => res == Err::<bool, Error>(e),
        },
{
    reveal(claim_stake_slot);
    let batch = match slot {
        Some(batch) => batch,
        None => { return Ok(false); },
    };
    let mut receipt = match receipts.get_after(writes, batch.batch_id) {
        Some(receipt) => receipt,
        None => { return Ok(false); },
    };
    proof {
        receipt.stake_token_value.lemma_conversion_bounds(batch.balance.amount, YoctoStake(0));
    }
    let stake = match receipt.stake_token_value.checked_near_to_stake(batch.balance.amount) {
        Some(stake) => stake,
        None => { return Err(Error::BalanceOverflow); },
    };
    account.apply_stake_credit(stake)?;
    receipt.stake_tokens_issued(batch.balance.amount)?;
    let write = if receipt.all_claimed() {
        (batch.batch_id.0, None)
    } else {
        (batch.batch_id.0, Some(receipt))
    };
    proof {
        lemma_apply_writes_push(receipts@, writes@, write);
    }
    writes.push(write);
    Ok(true)
}

/// Works out the claims of both stake batches of an account.
fn settle_stake_batches(
    locked: bool,
    receipts: &ReceiptTable<StakeBatchReceipt>,
    writes: &mut Vec<Write<StakeBatchReceipt>>,
    account: &mut Account,
) -> (res: Result<bool, Error>)
    requires
        old(writes)@.len() == 0,
    ensures
        match claim_stake_batch_receipts_spec(locked, receipts@, *old(account)) {
            Ok((receipts_after, account_after, claimed)) => res == Ok::<bool, Error>(claimed)
                && *final(account) == account_after && apply_writes(receipts@, final(writes)@)
                == receipts_after,
            Err(e) => res == Err::<bool, Error>(e),
        },
{
    let slot = account.stake_batch;
    let claimed_current = settle_stake_slot(receipts, writes, account, slot)?;
    if claimed_current {
        account.stake_batch = None;
    }
    let slot = account.next_stake_batch;
    let claimed_next = settle_stake_slot(receipts, writes, account, slot)?;
    if claimed_next {
        account.next_stake_batch = None;
    }
    if !locked && account.stake_batch.is_none() {
        account.stake_batch = account.next_stake_batch;
        account.next_stake_batch = None;
    }
    Ok(claimed_current || claimed_next)
}

/// Works out the claim of a redeem batch from its receipt.
fn settle_redeemed_stake_for_batch(
    receipts: &ReceiptTable<RedeemStakeBatchReceipt>,
    writes: &mut Vec<Write<RedeemStakeBatchReceipt>>,
    account: &mut Account,
    batch: RedeemStakeBatch,
    receipt: RedeemStakeBatchReceipt,
) -> (res: Result<(), Error>)
    requires
        apply_writes(receipts@, old(writes)@).contains_key(batch.batch_id.0),
        apply_writes(receipts@, old(writes)@)[batch.batch_id.0] == receipt,
    ensures
        match claim_redeemed_stake_for_batch(
            apply_writes(receipts@, old(writes)@),
            *old(account),
            batch,
        ) {
            Ok((receipts_after, account_after)) => res.is_ok() && *final(account) == account_after
                && apply_writes(receipts@, final(writes)@) == receipts_after,
            Err(e) => res == Err::<(), Error>(e),
        },
{
    let mut receipt = receipt;
    proof {
        receipt.stake_token_value.lemma_conversion_bounds(YoctoNear(0), batch.balance.amount);
    }
    let near = match receipt.stake_token_value.checked_stake_to_near(batch.balance.amount) {
        Some(near) => near,
        None => { return Err(Error::BalanceOverflow); },
    };
    account.apply_near_credit(near)?;
    receipt.stake_tokens_redeemed(batch.balance.amount)?;
    let write = if receipt.all_claimed() {
        (batch.batch_id.0, None)
    } else {
        (batch.batch_id.0, Some(receipt))
    };
    proof {
        lemma_apply_writes_push(receipts@, writes@, write);
    }
    writes.push(write);
    Ok(())
}

/// Works out the claim of a redeem batch out of the liquidity pool, and
/// returns what is left in the account's batch.
fn settle_redeemed_stake_for_batch_pending_withdrawal(
    receipts: &ReceiptTable<RedeemStakeBatchReceipt>,
    writes: &mut Vec<Write<RedeemStakeBatchReceipt>>,
    state: &mut ContractState,
    account: &mut Account,
    batch: RedeemStakeBatch,
    receipt: RedeemStakeBatchReceipt,
) -> (res: Result<YoctoStake, Error>)
    requires
        apply_writes(receipts@, old(writes)@).contains_key(batch.batch_id.0),
        apply_writes(receipts@, old(writes)@)[batch.batch_id.0] == receipt,
    ensures
        match claim_redeemed_stake_for_batch_pending_withdrawal(
            *old(state),
            apply_writes(receipts@, old(writes)@),
            *old(account),
            batch,
        ) {
            Ok((state_after, receipts_after, account_after, left)) => res == Ok::<
                YoctoStake,
                Error,
            >(left) && *final(state) == state_after && *final(account) == account_after
                && apply_writes(receipts@, final(writes)@) == receipts_after,
            Err(e) => res == Err::<YoctoStake, Error>(e),
        },
{
    let mut receipt = receipt;
    let value = match receipt.stake_token_value.checked_stake_to_near(batch.balance.amount) {
        Some(value) => value,
        None => {
            proof {
                receipt.stake_token_value.lemma_conversion_bounds(
                    YoctoNear(0),
                    batch.balance.amount,
                );
            }
            return Err(Error::BalanceOverflow);
        },
    };
    proof {
        lemma_redeemable_stake_bounded(
            receipt.stake_token_value,
            batch.balance.amount,
            state.near_liquidity_pool,
        );
    }
    let claimed_near = if state.near_liquidity_pool.0 >= value.0 {
        value
    } else {
        state.near_liquidity_pool
    };
    let redeemable_stake = match receipt.stake_token_value.checked_near_to_stake(claimed_near) {
        Some(stake) => stake,
        None => { return Err(Error::BalanceOverflow); },
    };
    let left = YoctoStake(batch.balance.amount.0 - redeemable_stake.0);
    account.apply_near_credit(claimed_near)?;
    let total_near = match state.total_near.amount.checked_add(claimed_near) {
        Some(total) => total,
        None => { return Err(Error::BalanceOverflow); },
    };
    receipt.stake_tokens_redeemed(redeemable_stake)?;
    state.near_liquidity_pool = YoctoNear(state.near_liquidity_pool.0 - claimed_near.0);
    state.total_near = NearBalance { amount: total_near };
    let write = if receipt.all_claimed() {
        state.redeem_stake_batch_lock = None;
        state.redeem_stake_batch = state.next_redeem_stake_batch;
        state.next_redeem_stake_batch = None;
        (batch.batch_id.0, None)
    } else {
        (batch.batch_id.0, Some(receipt))
    };
    proof {
        lemma_apply_writes_push(receipts@, writes@, write);
    }
    writes.push(write);
    Ok(left)
}

/// Works out the claim of one redeem batch of an account.
fn settle_redeem_slot(
    receipts: &ReceiptTable<RedeemStakeBatchReceipt>,
    writes: &mut Vec<Write<RedeemStakeBatchReceipt>>,
    state: &mut ContractState,
    account: &mut Account,
    slot: Option<RedeemStakeBatch>,
    pending: Option<BatchId>,
) -> (res: Result<(Option<RedeemStakeBatch>, bool), Error>)
    ensures
        match claim_redeem_slot(
            *old(state),
            apply_writes(receipts@, old(writes)@),
            *old(account),
            slot,
            pending,
        ) {
            Ok((state_after, receipts_after, account_after, slot_after, claimed)) => res == Ok::<
                (Option<RedeemStakeBatch>, bool),
                Error,
            >((slot_after, claimed)) && *final(state) == state_after && *final(account)
                == account_after && apply_writes(receipts@, final(writes)@) == receipts_after,
            Err(e) => res == Err::<(Option<RedeemStakeBatch>, bool), Error>(e),
        },
{
    reveal(claim_redeem_slot);
    let batch = match slot {
        Some(batch) => batch,
        None => { return Ok((slot, false)); },
    };
    let receipt = match receipts.get_after(writes, batch.batch_id) {
        Some(receipt) => receipt,
        None => { return Ok((slot, false)); },
    };
    let is_pending = match pending {
        Some(id) => id.0 == batch.batch_id.0,
        None => false,
    };
    if !is_pending {
        settle_redeemed_stake_for_batch(receipts, writes, account, batch, receipt)?;
        Ok((None, true))
    } else if state.near_liquidity_pool.0 > 0 {
        let left = settle_redeemed_stake_for_batch_pending_withdrawal(
            receipts,
            writes,
            state,
            account,
            batch,
            receipt,
        )?;
        if left.0 == 0 {
            Ok((None, true))
        } else {
            Ok(
                (
                    Some(
                        RedeemStakeBatch {
                            batch_id: batch.batch_id,
                            balance: StakeBalance { amount: left },
                        },
                    ),
                    true,
                ),
            )
        }
    } else {
        Ok((slot, false))
    }
}

/// Works out the claims of both redeem batches of an account.
fn settle_redeem_batches(
    receipts: &ReceiptTable<RedeemStakeBatchReceipt>,
    writes: &mut Vec<Write<RedeemStakeBatchReceipt>>,
    state: &mut ContractState,
    account: &mut Account,
) -> (res: Result<bool, Error>)
    requires
        old(writes)@.len() == 0,
    ensures
        match claim_redeem_stake_batch_receipts_spec(*old(state), receipts@, *old(account)) {
            Ok((state_after, receipts_after, account_after, claimed)) => res == Ok::<bool, Error>(
                claimed,
            ) && *final(state) == state_after && *final(account) == account_after && apply_writes(
                receipts@,
                final(writes)@,
            ) == receipts_after,
            Err(e) => res == Err::<bool, Error>(e),
        },
{
    let pending = match state.redeem_stake_batch_lock {
        Some(RedeemLock::Unstaking) => { return Ok(false); },
        Some(RedeemLock::PendingWithdrawal) => match state.redeem_stake_batch {
            Some(batch) => Some(batch.batch_id),
            None => { return Err(Error::RedeemStakeBatchShouldExist); },
        },
        None => None,
    };
    let slot = account.redeem_stake_batch;
    let (slot, claimed_current) = settle_redeem_slot(
        receipts,
        writes,
        state,
        account,
        slot,
        pending,
    )?;
    account.redeem_stake_batch = slot;
    let slot = account.next_redeem_stake_batch;
    let (slot, claimed_next) = settle_redeem_slot(
        receipts,
        writes,
        state,
        account,
        slot,
        pending,
    )?;
    account.next_redeem_stake_batch = slot;
    if state.redeem_stake_batch_lock.is_none() && account.redeem_stake_batch.is_none() {
        account.redeem_stake_batch = account.next_redeem_stake_batch;
        account.next_redeem_stake_batch = None;
    }
    Ok(claimed_current || claimed_next)
}

impl Contract {
    /// Works out what settling the account will change, and changes nothing.
    pub fn plan_claims(&self, account: &Account) -> (res: Result<ClaimPlan, Error>)
        ensures
            match claim_receipt_funds_spec(self@, *account) {
                Ok((contract_after, account_after, claimed)) => res is Ok && res->Ok_0.outcome(
                    self@,
                ) == contract_after && res->Ok_0.account == account_after && res->Ok_0.claimed
                    == claimed,
                Err(e) => res is Err && res->Err_0 == e,
            },
    {
        let mut state = self.state;
        let mut settled = *account;
        let mut stake_writes: Vec<Write<StakeBatchReceipt>> = Vec::new();
        let mut redeem_writes: Vec<Write<RedeemStakeBatchReceipt>> = Vec::new();
        let claimed_stake = settle_stake_batches(
            state.stake_batch_lock.is_some(),
            &self.stake_batch_receipts,
            &mut stake_writes,
            &mut settled,
        )?;
        let claimed_near = settle_redeem_batches(
            &self.redeem_stake_batch_receipts,
            &mut redeem_writes,
            &mut state,
            &mut settled,
        )?;
        Ok(
            ClaimPlan {
                state,
                account: settled,
                stake_writes,
                redeem_writes,
                claimed: claimed_stake || claimed_near,
            },
        )
    }

    /// Makes the changes that a plan holds.
    pub fn commit_claims(&mut self, plan: &ClaimPlan)
        ensures
            final(self)@ == plan.outcome(old(self)@),
    {
        self.state = plan.state;
        self.stake_batch_receipts.commit(&plan.stake_writes);
        self.redeem_stake_batch_receipts.commit(&plan.redeem_writes);
    }

    /// Settles the account against the receipts of the batches it paid
    /// into, and tells whether anything was claimed, so that the caller
    /// knows to store the account.
    ///
    /// A refusal leaves the contract and the account as they were.
    pub fn claim_receipt_funds(&mut self, account: &mut RegisteredAccount) -> (res: Result<
        bool,
        Error,
    >)
        ensures
            final(account).id == old(account).id,
            match claim_receipt_funds_spec(old(self)@, old(account).account) {
                Ok((contract_after, account_after, claimed)) => res == Ok::<bool, Error>(claimed)
                    && final(self)@ == contract_after && final(account).account == account_after,
                Err(e) => res == Err::<bool, Error>(e) && final(self)@ == old(self)@ && *final(account) == *old(account),
            },
    {
        let plan = self.plan_claims(&account.account)?;
        self.commit_claims(&plan);
        account.account = plan.account;
        Ok(plan.claimed)
    }

    /// Claims the shares that the account's stake batches have earned, and
    /// tells whether anything was claimed.
    ///
    /// A refusal leaves the contract and the account as they were.
    pub fn claim_stake_batch_receipts(&mut self, account: &mut Account) -> (res: Result<bool, Error>)
        ensures
            final(self)@.state == old(self)@.state,
            final(self)@.redeem_stake_batch_receipts == old(self)@.redeem_stake_batch_receipts,
            match claim_stake_batch_receipts_spec(
                old(self)@.state.stake_batch_lock is Some,
                old(self)@.stake_batch_receipts,
                *old(account),
            ) {
                Ok((receipts_after, account_after, claimed)) => res == Ok::<bool, Error>(claimed)
                    && final(self)@.stake_batch_receipts == receipts_after && *final(account)
                    == account_after,
                Err(e) => res == Err::<bool, Error>(e) && final(self)@ == old(self)@ && *final(account) == *old(account),
            },
    {
        let mut settled = *account;
        let mut writes: Vec<Write<StakeBatchReceipt>> = Vec::new();
        let claimed = settle_stake_batches(
            self.state.stake_batch_lock.is_some(),
            &self.stake_batch_receipts,
            &mut writes,
            &mut settled,
        )?;
        self.stake_batch_receipts.commit(&writes);
        *account = settled;
        Ok(claimed)
    }

    /// Claims the NEAR that the account's redeem batches have earned, and
    /// tells whether anything was claimed.
    ///
    /// A refusal leaves the contract and the account as they were.
    pub fn claim_redeem_stake_batch_receipts(&mut self, account: &mut Account) -> (res: Result<
        bool,
        Error,
    >)
        ensures
            final(self)@.stake_batch_receipts == old(self)@.stake_batch_receipts,
            match claim_redeem_stake_batch_receipts_spec(
                old(self)@.state,
                old(self)@.redeem_stake_batch_receipts,
                *old(account),
            ) {
                Ok((state_after, receipts_after, account_after, claimed)) => res == Ok::<
                    bool,
                    Error,
                >(claimed) && final(self)@.state == state_after && final(self)@.redeem_stake_batch_receipts == receipts_after && *final(account)
                    == account_after,
                Err(e) => res == Err::<bool, Error>(e) && final(self)@ == old(self)@ && *final(account) == *old(account),
            },
    {
        let mut state = self.state;
        let mut settled = *account;
        let mut writes: Vec<Write<RedeemStakeBatchReceipt>> = Vec::new();
        let claimed = settle_redeem_batches(
            &self.redeem_stake_batch_receipts,
            &mut writes,
            &mut state,
            &mut settled,
        )?;
        self.state = state;
        self.redeem_stake_batch_receipts.commit(&writes);
        *account = settled;
        Ok(claimed)
    }
}

} // verus!
