use near_stake_token::config::Config;
use near_stake_token::contract::claims::ClaimPlan;
use near_stake_token::contract::{Contract, ContractState, ReceiptTable};
use near_stake_token::domain::{
    Account, BatchId, EpochHeight, NearBalance, RedeemLock, RedeemStakeBatch,
    RedeemStakeBatchReceipt, RegisteredAccount, StakeBatch, StakeBatchReceipt, StakeLock,
    StakeTokenValue, YoctoNear, YoctoStake,
};
use near_stake_token::errors::Error;
use near_stake_token::math::YOCTO;

fn new_contract() -> Contract {
    Contract::new(Config::default())
}

fn registered_account(key: u8) -> RegisteredAccount {
    RegisteredAccount {
        account: Account::new(YoctoNear(YOCTO)),
        id: [key; 32],
    }
}

#[test]
fn new_contract_is_empty() {
    let contract = new_contract();
    assert_eq!(contract.state.config, Config::default());
    assert_eq!(contract.state.batch_id_sequence, BatchId(0));
    assert_eq!(contract.state.total_stake.amount(), YoctoStake(0));
    assert_eq!(contract.state.total_near, NearBalance::new(YoctoNear(0)));
    assert_eq!(contract.state.near_liquidity_pool, YoctoNear(0));
    assert!(contract.state.stake_batch.is_none() && contract.state.next_stake_batch.is_none());
    assert!(contract.state.stake_batch_lock.is_none());
    assert!(contract.state.redeem_stake_batch_lock.is_none());
    assert!(!contract.stake_batch_locked());
    assert!(!contract.is_unstaking());
    assert!(contract.can_run_batch());
    assert!(contract.get_pending_withdrawal().is_none());
    assert_eq!(contract.can_unstake(EpochHeight(0)), Ok(false));
    assert_eq!(contract.stake_token_value(), StakeTokenValue::default());
}

#[test]
fn receipt_table_stages_writes() {
    let value = StakeTokenValue::default();
    let mut table: ReceiptTable<StakeBatchReceipt> = ReceiptTable::new();
    table.insert(BatchId(1), StakeBatchReceipt::new(YoctoNear(10), value));
    table.insert(BatchId(2), StakeBatchReceipt::new(YoctoNear(20), value));

    let writes = vec![
        (1u128, None),
        (3u128, Some(StakeBatchReceipt::new(YoctoNear(30), value))),
        (3u128, Some(StakeBatchReceipt::new(YoctoNear(31), value))),
        (2u128, Some(StakeBatchReceipt::new(YoctoNear(21), value))),
    ];
    // the table as it will be, read before any write is made
    assert_eq!(table.get_after(&writes, BatchId(1)), None);
    assert_eq!(
        table.get_after(&writes, BatchId(2)).unwrap().staked_near(),
        YoctoNear(21)
    );
    assert_eq!(
        table.get_after(&writes, BatchId(3)).unwrap().staked_near(),
        YoctoNear(31)
    );
    assert_eq!(table.get_after(&writes, BatchId(4)), None);
    assert_eq!(table.get(BatchId(1)).unwrap().staked_near(), YoctoNear(10));

    table.commit(&writes);
    assert_eq!(table.get(BatchId(1)), None);
    assert_eq!(table.get(BatchId(2)).unwrap().staked_near(), YoctoNear(21));
    assert_eq!(table.get(BatchId(3)).unwrap().staked_near(), YoctoNear(31));
    assert_eq!(
        table.remove(BatchId(3)).unwrap().staked_near(),
        YoctoNear(31)
    );
    assert_eq!(table.remove(BatchId(3)), None);
}

#[test]
fn a_plan_changes_nothing_until_it_is_committed() {
    let mut contract = new_contract();
    let mut account = registered_account(1);
    let batch_id = contract.deposit(&mut account, YOCTO.into()).unwrap();
    contract.stake_batch_receipts.insert(
        batch_id,
        StakeBatchReceipt::new(YOCTO.into(), StakeTokenValue::default()),
    );

    let plan: ClaimPlan = contract.plan_claims(&account.account).unwrap();
    assert!(plan.claimed);
    assert_eq!(plan.account.stake.unwrap().amount(), YoctoStake(YOCTO));
    assert!(plan.account.stake_batch.is_none());
    assert!(contract.stake_batch_receipt(batch_id).is_some());
    assert!(account.account.stake.is_none());

    contract.commit_claims(&plan);
    assert!(contract.stake_batch_receipt(batch_id).is_none());
}

#[test]
fn one_side_can_be_claimed_without_the_other() {
    let mut contract = new_contract();
    let mut account = registered_account(1);
    let value = StakeTokenValue::default();
    account.account.stake_batch = Some(StakeBatch::new(BatchId(1), YoctoNear(10)));
    account.account.redeem_stake_batch = Some(RedeemStakeBatch::new(BatchId(2), YoctoStake(20)));
    contract
        .stake_batch_receipts
        .insert(BatchId(1), StakeBatchReceipt::new(YoctoNear(10), value));
    contract
        .redeem_stake_batch_receipts
        .insert(BatchId(2), RedeemStakeBatchReceipt::new(YoctoStake(25), value));

    assert_eq!(
        contract.claim_stake_batch_receipts(&mut account.account),
        Ok(true)
    );
    assert_eq!(account.account.stake.unwrap().amount(), YoctoStake(10));
    assert!(account.account.near.is_none());
    assert!(account.account.redeem_stake_batch.is_some());

    assert_eq!(
        contract.claim_redeem_stake_batch_receipts(&mut account.account),
        Ok(true)
    );
    assert_eq!(account.account.near.unwrap().amount(), YoctoNear(20));
    assert!(account.account.redeem_stake_batch.is_none());
    assert_eq!(
        contract
            .redeem_stake_batch_receipt(BatchId(2))
            .unwrap()
            .redeemed_stake(),
        YoctoStake(5)
    );
    assert_eq!(
        contract.claim_redeem_stake_batch_receipts(&mut account.account),
        Ok(false)
    );
}

#[test]
fn nothing_is_claimed_while_the_venue_unstakes() {
    let mut contract = new_contract();
    let mut account = registered_account(1);
    account.account.redeem_stake_batch = Some(RedeemStakeBatch::new(BatchId(2), YoctoStake(20)));
    contract.redeem_stake_batch_receipts.insert(
        BatchId(2),
        RedeemStakeBatchReceipt::new(YoctoStake(25), StakeTokenValue::default()),
    );
    contract.state.redeem_stake_batch_lock = Some(RedeemLock::Unstaking);
    let before = account.account;
    assert_eq!(contract.claim_receipt_funds(&mut account), Ok(false));
    assert_eq!(account.account, before);
}

#[test]
fn a_claim_that_exceeds_its_receipt_changes_nothing() {
    let mut contract = new_contract();
    let mut account = registered_account(1);
    let value = StakeTokenValue::default();
    account.account.stake_batch = Some(StakeBatch::new(BatchId(1), YoctoNear(10)));
    account.account.redeem_stake_batch = Some(RedeemStakeBatch::new(BatchId(2), YoctoStake(20)));
    contract
        .stake_batch_receipts
        .insert(BatchId(1), StakeBatchReceipt::new(YoctoNear(10), value));
    contract
        .redeem_stake_batch_receipts
        .insert(BatchId(2), RedeemStakeBatchReceipt::new(YoctoStake(19), value));

    let before = account.account;
    assert_eq!(
        contract.claim_receipt_funds(&mut account),
        Err(Error::ReceiptBalanceTooLow)
    );
    // the stake side had been worked out before the redeem side failed
    assert_eq!(account.account, before);
    assert_eq!(
        contract.stake_batch_receipt(BatchId(1)).unwrap().staked_near(),
        YoctoNear(10)
    );
    assert_eq!(
        contract.apply_receipt_funds_for_view(&account.account)
            .unwrap()
            .stake
            .unwrap()
            .amount(),
        YoctoStake(10)
    );
}

#[test]
fn balance_overflow_is_refused() {
    let mut contract = new_contract();
    let mut account = registered_account(1);
    contract
        .deposit(&mut account, YoctoNear(u128::MAX))
        .unwrap();
    let before = account.account;
    assert_eq!(
        contract.deposit(&mut account, YoctoNear(5000)),
        Err(Error::BalanceOverflow)
    );
    assert_eq!(account.account, before);
    assert_eq!(
        contract.state.stake_batch.unwrap().balance().amount(),
        YoctoNear(u128::MAX)
    );
}

#[test]
fn least_deposit_follows_the_share_value() {
    let mut contract = new_contract();
    assert_eq!(contract.min_required_near_deposit(), Ok(YoctoNear(1000)));
    contract.state.stake_token_value =
        StakeTokenValue::new(Default::default(), YoctoNear(3 * YOCTO), YoctoStake(2 * YOCTO));
    assert_eq!(contract.min_required_near_deposit(), Ok(YoctoNear(1500)));
    assert_eq!(
        contract.check_stake_batch_min_required_near_balance(StakeBatch::new(
            BatchId(1),
            YoctoNear(1499)
        )),
        Err(Error::MinimumDepositRequired)
    );
    assert_eq!(
        contract.check_stake_batch_min_required_near_balance(StakeBatch::new(
            BatchId(1),
            YoctoNear(1500)
        )),
        Ok(())
    );
    let mut account = Account::new(YoctoNear(0));
    account.next_stake_batch = Some(StakeBatch::new(BatchId(7), YoctoNear(1)));
    assert_eq!(
        contract.check_min_required_near_deposit(&account, BatchId(7)),
        Err(Error::MinimumDepositRequired)
    );
    assert_eq!(
        contract.check_min_required_near_deposit(&account, BatchId(8)),
        Ok(())
    );
}

#[test]
fn can_unstake_needs_the_receipt_of_the_batch_that_waits() {
    let mut contract = new_contract();
    contract.state.redeem_stake_batch_lock = Some(RedeemLock::PendingWithdrawal);
    assert_eq!(
        contract.can_unstake(EpochHeight(9)),
        Err(Error::RedeemStakeBatchShouldExist)
    );
    contract.state.redeem_stake_batch = Some(RedeemStakeBatch::new(BatchId(1), YoctoStake(1)));
    assert_eq!(
        contract.can_unstake(EpochHeight(9)),
        Err(Error::RedeemStakeBatchReceiptShouldExist)
    );
    contract.state.stake_batch_lock = Some(StakeLock::Staking);
    assert_eq!(contract.can_unstake(EpochHeight(9)), Ok(false));
    contract.state.stake_batch_lock = None;
    contract.state.redeem_stake_batch_lock = None;
    assert_eq!(contract.can_unstake(EpochHeight(9)), Ok(true));
}

#[test]
fn state_steps_can_be_taken_on_their_own() {
    let mut state: ContractState = new_contract().state;
    let mut account = Account::new(YoctoNear(0));
    assert_eq!(
        state.batch_near_for_account(&mut account, YoctoNear(5)),
        Ok(BatchId(1))
    );
    assert_eq!(
        state.withdraw_all_from_stake_batch_for_account(&mut account),
        Ok(YoctoNear(5))
    );
    assert!(state.stake_batch.is_none() && account.stake_batch.is_none());
    account.apply_stake_credit(YoctoStake(9)).unwrap();
    assert_eq!(
        state.batch_stake_for_account(&mut account, YoctoStake(4)),
        Ok(BatchId(2))
    );
    assert_eq!(
        state.remove_from_redeem_stake_batch_for_account(&mut account, YoctoStake(1)),
        Ok(())
    );
    assert_eq!(
        state.remove_all_from_redeem_stake_batch_for_account(&mut account),
        Ok(YoctoStake(3))
    );
    assert_eq!(account.stake.unwrap().amount(), YoctoStake(9));
    assert_eq!(state.redeem_all_for_account(&mut account), Ok(Some(BatchId(3))));
    assert!(state.stake_batch_locked() == false && !state.is_unstaking());
    assert_eq!(state.unstake().is_ok(), true);
    assert!(state.is_unstaking() && !state.can_run_batch());
}
