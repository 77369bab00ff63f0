use near_stake_token::config::Config;
use near_stake_token::contract::redeem_workflow::RedeemAction;
use near_stake_token::contract::stake_workflow::{ActionOrValue, StakeAction};
use near_stake_token::contract::Contract;
use near_stake_token::domain::{
    Account, BatchId, BlockHeight, BlockTimeHeight, BlockTimestamp, EpochHeight, RedeemLock,
    RedeemStakeBatch, RedeemStakeBatchReceipt, RegisteredAccount, StakeBalance, StakeBatch,
    StakeBatchReceipt, StakeLock, StakeTokenValue, StakingPoolAccount, YoctoNear, YoctoStake,
    UNSTAKED_NEAR_FUNDS_NUM_EPOCHS_TO_UNLOCK,
};
use near_stake_token::errors::Error;
use near_stake_token::math::YOCTO;

fn new_contract() -> Contract {
    Contract::new(Config::default())
}

fn registered_account() -> RegisteredAccount {
    RegisteredAccount {
        account: Account::new(YoctoNear(YOCTO)),
        id: [1u8; 32],
    }
}

fn now() -> BlockTimeHeight {
    BlockTimeHeight::new(BlockHeight(10), BlockTimestamp(1_000), EpochHeight(1))
}

/// Given the account has no funds in stake batches
/// When funds are claimed
/// Then there should be no effect
#[test]
fn claim_receipt_funds_with_no_batched_funds() {
    let mut contract = new_contract();
    let mut account = registered_account();
    let before = account.account;

    // should have no effect because there are no batches and no receipts
    assert_eq!(contract.claim_receipt_funds(&mut account), Ok(false));
    assert_eq!(account.account, before);
}

/// Given the account has funds in the stake batch
/// And there is no receipt for the batch
/// When funds are claimed
/// Then there should be no effect on the account
#[test]
fn claim_receipt_funds_with_funds_in_stake_batch_and_no_receipt() {
    let mut contract = new_contract();
    let mut account = registered_account();

    // Given account has funds deposited into the current StakeBatch
    // And there are no receipts
    let batch_id = contract
        .deposit_near_for_account_to_stake(&mut account, YOCTO.into())
        .unwrap();

    // When batch receipts are claimed
    contract.claim_receipt_funds(&mut account).unwrap();
    // Then there should be no effect on the account
    let account = contract
        .apply_receipt_funds_for_view(&account.account)
        .unwrap();
    let stake_batch = account.stake_batch.unwrap();
    assert_eq!(stake_batch.id(), batch_id);
    assert_eq!(stake_batch.balance().amount(), YOCTO.into());
}

/// Given the account has funds in the stake batch
/// And there is a receipt for the batch with additional funds batched into it
/// When funds are claimed
/// Then the STAKE tokens should be credited to the account
/// And the receipt NEAR balance should have been debited
#[test]
fn claim_receipt_funds_with_funds_in_stake_batch_and_with_receipt() {
    let mut contract = new_contract();
    let mut account = registered_account();

    let batch_id = contract
        .deposit_near_for_account_to_stake(&mut account, YOCTO.into())
        .unwrap();

    // Given there is a receipt for the batch
    // And STAKE token value = 1 NEAR
    let stake_token_value = StakeTokenValue::new(Default::default(), YOCTO.into(), YOCTO.into());
    let receipt = StakeBatchReceipt::new((2 * YOCTO).into(), stake_token_value);
    contract.stake_batch_receipts.insert(batch_id, receipt);
    // When batch receipts are claimed
    contract.claim_receipt_funds(&mut account).unwrap();
    // Assert
    assert_eq!(
        account.account.stake.unwrap().amount().value(),
        YOCTO,
        "the funds should have been claimed by the account"
    );
    assert!(
        account.account.stake_batch.is_none(),
        "stake batch should be set to None"
    );
    let receipt = contract.stake_batch_receipts.get(batch_id).unwrap();
    assert_eq!(
        receipt.staked_near().value(),
        YOCTO,
        "claiming STAKE tokens should have reduced the near balance on the receipt"
    );

    // Given account has funds deposited into the current StakeBatch
    let batch_id = contract
        .deposit_near_for_account_to_stake(&mut account, YOCTO.into())
        .unwrap();
    // When batch receipts are claimed
    contract.claim_receipt_funds(&mut account).unwrap();
    // Assert
    assert_eq!(
        account.account.stake.unwrap().amount().value(),
        2 * YOCTO,
        "the funds should have been claimed by the account"
    );
    assert!(
        account.account.stake_batch.is_none(),
        "stake batch should be set to None"
    );
    let receipt = contract.stake_batch_receipts.get(batch_id);
    assert!(
        receipt.is_none(),
        "when all STAKE tokens are claimed, then the receipt should have been deleted"
    );
}

/// Given the account has funds in the stake batch
/// And there is a receipt for the batch with exact matching funds
/// When funds are claimed
/// Then the STAKE tokens should be credited to the account
/// And the receipt is deleted
#[test]
fn claim_receipt_funds_with_all_stake_batch_funds_claimed_on_receipt() {
    let mut contract = new_contract();
    let mut account = registered_account();

    let batch_id = contract
        .deposit_near_for_account_to_stake(&mut account, (2 * YOCTO).into())
        .unwrap();

    let stake_token_value = StakeTokenValue::new(Default::default(), YOCTO.into(), YOCTO.into());
    let receipt = StakeBatchReceipt::new((2 * YOCTO).into(), stake_token_value);
    contract.stake_batch_receipts.insert(batch_id, receipt);
    // When batch receipts are claimed
    contract.claim_receipt_funds(&mut account).unwrap();

    // Assert
    assert_eq!(
        account.account.stake.unwrap().amount().value(),
        2 * YOCTO,
        "the funds should have been claimed by the account"
    );
    assert!(
        account.account.stake_batch.is_none(),
        "stake batch should be set to None"
    );
    let receipt = contract.stake_batch_receipts.get(batch_id);
    assert!(
        receipt.is_none(),
        "when all STAKE tokens are claimed, then the receipt should have been deleted"
    );
}

/// Given Account::stake_batch and Account::next_stake_batch both have funds
/// And there are exact receipts for both batches
/// Then STAKE tokens should be claimed for both
/// And the receipts should be deleted
#[test]
fn claim_receipt_funds_with_stake_batch_and_next_stake_batch_funds_with_receipts() {
    let mut contract = new_contract();
    let mut account = registered_account();

    let stake_batch_id = contract
        .deposit_near_for_account_to_stake(&mut account, (2 * YOCTO).into())
        .unwrap();
    assert_eq!(
        contract.state.stake_batch.unwrap().balance().amount(),
        (2 * YOCTO).into()
    );
    // locking the contract should deposit the funds into the next stake batch
    contract.state.stake_batch_lock = Some(StakeLock::Staking);
    let next_stake_batch_id = contract
        .deposit_near_for_account_to_stake(&mut account, (3 * YOCTO).into())
        .unwrap();
    assert_eq!(
        contract.state.next_stake_batch.unwrap().balance().amount(),
        (3 * YOCTO).into()
    );

    {
        let account = contract
            .apply_receipt_funds_for_view(&account.account)
            .unwrap();
        assert_eq!(
            account.stake_batch.unwrap().balance().amount().value(),
            2 * YOCTO
        );
        assert_eq!(
            account.next_stake_batch.unwrap().balance().amount().value(),
            3 * YOCTO
        );
    }

    contract.state.stake_batch_lock = None;

    // Given that the batches have receipts
    // And STAKE token value = 1 NEAR
    let stake_token_value = StakeTokenValue::new(Default::default(), YOCTO.into(), YOCTO.into());
    let receipt = StakeBatchReceipt::new((2 * YOCTO).into(), stake_token_value);
    contract.stake_batch_receipts.insert(stake_batch_id, receipt);
    let receipt = StakeBatchReceipt::new((3 * YOCTO).into(), stake_token_value);
    contract
        .stake_batch_receipts
        .insert(next_stake_batch_id, receipt);
    // When batch receipts are claimed
    contract.claim_receipt_funds(&mut account).unwrap();
    // then receipts should be deleted because all funds have been claimed
    assert!(contract.stake_batch_receipts.get(stake_batch_id).is_none());

    // and the account batches have been cleared
    assert!(account.account.stake_batch.is_none());
    assert!(account.account.next_stake_batch.is_none());
    // and the STAKE tokens were claimed and credited to the account
    assert_eq!(account.account.stake.unwrap().amount().value(), 5 * YOCTO);
}

/// Given there is no stake batch to run
/// Then the call fails
#[test]
#[should_panic(expected = "ILLEGAL STATE : stake batch should exist")]
fn stake_no_stake_batch() {
    let mut contract = new_contract();
    let err = contract.stake(now()).unwrap_err();
    panic!("{}", err.message());
}

/// Given the contract has a stake batch
/// When the stake batch is run
/// Then the contract is locked
/// When the stake batch is run again while the contract is locked
/// Then the call fails
#[test]
#[should_panic(expected = "action is blocked because a batch is running")]
fn stake_contract_when_stake_batch_in_progress() {
    let mut contract = new_contract();
    let mut account = registered_account();
    contract.deposit(&mut account, YOCTO.into()).unwrap();

    contract.stake(now()).unwrap();
    assert!(contract.stake_batch_locked());

    // should fail because contract is locked
    let err = contract.stake(now()).unwrap_err();
    panic!("{}", err.message());
}

#[test]
fn deposit_and_stake_contract_when_stake_batch_in_progress() {
    let mut contract = new_contract();
    let mut account = registered_account();

    if let ActionOrValue::Action(_) = contract
        .deposit_and_stake(&mut account, YOCTO.into())
        .unwrap()
    {
        if let ActionOrValue::Value(batch_id) = contract
            .deposit_and_stake(&mut account, YOCTO.into())
            .unwrap()
        {
            assert_eq!(batch_id, contract.state.next_stake_batch.unwrap().id());
        } else {
            panic!("expected staking batch to be in progress");
        }
    } else {
        panic!("expected deposit to be staked");
    }
}

/// Given the contract is running the redeem stake batch
/// When the stake batch is run
/// Then the call fails
#[test]
#[should_panic(expected = "action is blocked because a batch is running")]
fn stake_contract_when_redeem_stake_batch_in_progress_unstaking() {
    let mut contract = new_contract();
    contract.state.redeem_stake_batch_lock = Some(RedeemLock::Unstaking);
    let err = contract.stake(now()).unwrap_err();
    panic!("{}", err.message());
}

#[test]
fn deposit_and_stake_contract_when_redeem_stake_batch_in_progress_unstaking() {
    let mut contract = new_contract();
    let mut account = registered_account();

    contract.state.redeem_stake_batch_lock = Some(RedeemLock::Unstaking);
    if let ActionOrValue::Value(batch_id) = contract
        .deposit_and_stake(&mut account, YOCTO.into())
        .unwrap()
    {
        assert_eq!(batch_id, contract.state.stake_batch.unwrap().id());
    } else {
        panic!("expected staking batch to be in progress");
    }
}

/// Given the contract is redeem status is pending withdrawal
/// Then it is allowed to run stake batches
#[test]
fn stake_contract_when_redeem_status_pending_withdrawal() {
    let mut contract = new_contract();
    let mut account = registered_account();
    contract.deposit(&mut account, YOCTO.into()).unwrap();

    contract.state.redeem_stake_batch_lock = Some(RedeemLock::PendingWithdrawal);
    contract.stake(now()).unwrap();
}

#[test]
fn deposit_and_stake_contract_when_redeem_status_pending_withdrawal() {
    let mut contract = new_contract();
    let mut account = registered_account();

    contract.state.redeem_stake_batch_lock = Some(RedeemLock::PendingWithdrawal);
    contract.state.batch_id_sequence.0 += 1;
    let redeem_stake_batch =
        RedeemStakeBatch::new(contract.state.batch_id_sequence, YOCTO.into());
    contract.state.redeem_stake_batch = Some(redeem_stake_batch);

    contract
        .deposit_and_stake(&mut account, YOCTO.into())
        .unwrap();
}

/// Given the contract has just been deployed
/// And the STAKE token value is retrieved within the same epoch
/// Then the cached version should be returned
#[test]
fn stake_token_value_is_current() {
    let mut contract = new_contract();

    contract.state.total_stake.credit(YOCTO.into()).unwrap();
    contract.state.stake_token_value =
        StakeTokenValue::new(Default::default(), YOCTO.into(), YOCTO.into());

    assert_eq!(
        contract.state.stake_token_value.total_stake_supply(),
        contract.state.total_stake.amount()
    );
    assert_eq!(
        contract.state.stake_token_value.total_staked_near_balance(),
        YOCTO.into()
    );
}

#[test]
fn deposit_and_stake_success() {
    let mut contract = new_contract();
    let mut account = registered_account();

    let outcome = contract
        .deposit_and_stake(&mut account, YOCTO.into())
        .unwrap();

    assert!(contract.stake_batch_locked());
    // deposit_and_stake, get_account -> on_deposit_and_stake -> clear_stake_lock
    assert_eq!(
        outcome,
        ActionOrValue::Action(StakeAction::DepositAndStake {
            amount: YOCTO.into()
        })
    );
}

/// Given the funds were successfully deposited and staked into the staking pool
/// Then the stake batch receipts is saved
/// And the total STAKE supply is updated
/// And if there are funds in the next stake batch, then move it into the current batch
#[test]
fn stake_workflow_success() {
    let mut contract = new_contract();
    let mut account = registered_account();

    let staked_near_amount = 100 * YOCTO;
    contract
        .deposit(&mut account, staked_near_amount.into())
        .unwrap();

    // capture the batch ID to lookup the batch receipt after the workflow is done
    let batch_id = contract.state.stake_batch.unwrap().id();
    contract.stake(now()).unwrap();
    assert!(contract.stake_batch_locked());

    let staking_pool_account = StakingPoolAccount {
        unstaked_balance: YOCTO.into(),
        staked_balance: (99 * YOCTO).into(),
        can_withdraw: true,
    };
    contract.on_run_stake_batch(staking_pool_account).unwrap(); // callback

    contract
        .on_deposit_and_stake(None, staking_pool_account)
        .unwrap(); // callback
    contract.process_staked_batch(now()).unwrap();

    let _receipt = contract
        .stake_batch_receipts
        .get(batch_id)
        .expect("receipt should have been created by `on_deposit_and_stake` callback");

    assert_eq!(
        contract.state.total_stake.amount(),
        contract
            .state
            .stake_token_value
            .near_to_stake(staked_near_amount.into())
    );

    contract.clear_stake_lock();
    assert!(!contract.stake_batch_locked());
}

/// Given a registered account has STAKE
/// And there are no contract locks, i.e., no batches are being run
/// When the account redeems STAKE
/// Then the STAKE funds are moved from the the account's STAKE balance to the account's current redeem stake batch
/// And the contract redeem stake batch is credited
/// When the account redeems more STAKE
/// And the batch has not yet run
/// Then the STAKE will be added to the batch
#[test]
fn redeem_no_locks() {
    let mut contract = new_contract();
    let mut account = registered_account();

    assert!(contract.state.redeem_stake_batch.is_none());
    assert!(contract.state.next_redeem_stake_batch.is_none());

    // Given the account has STAKE
    assert!(account.account.redeem_stake_batch.is_none());
    assert!(account.account.next_redeem_stake_batch.is_none());
    let initial_account_stake = YoctoStake(50 * YOCTO);
    account
        .account
        .apply_stake_credit(initial_account_stake)
        .unwrap();

    let redeem_amount = YoctoStake::from(10 * YOCTO);
    let batch_id = contract
        .redeem_stake_for_account(&mut account, redeem_amount)
        .unwrap();

    let batch = contract
        .state
        .redeem_stake_batch
        .expect("current stake batch should have funds");
    assert_eq!(batch_id, batch.id());
    assert_eq!(redeem_amount, batch.balance().amount());

    // assert STAKE was moved from account STAKE balance to redeem stake batch
    assert_eq!(
        account.account.stake.unwrap().amount(),
        (initial_account_stake.value() - redeem_amount.value()).into()
    );
    let redeem_stake_batch = account.account.redeem_stake_batch.unwrap();
    assert_eq!(redeem_stake_batch.balance().amount(), redeem_amount);
    assert_eq!(redeem_stake_batch.id(), batch_id);

    let _batch_id_2 = contract
        .redeem_stake_for_account(&mut account, redeem_amount)
        .unwrap();

    let batch = contract
        .state
        .redeem_stake_batch
        .expect("current stake batch should have funds");
    assert_eq!(batch_id, batch.id());
    assert_eq!(redeem_amount.value() * 2, batch.balance().amount().value());

    // assert STAKE was moved from account STAKE balance to redeem stake batch
    assert_eq!(
        account.account.stake.unwrap().amount(),
        (initial_account_stake.value() - (redeem_amount.value() * 2)).into()
    );
    let redeem_stake_batch = account.account.redeem_stake_batch.unwrap();
    assert_eq!(
        redeem_stake_batch.balance().amount(),
        (redeem_amount.value() * 2).into()
    );
    assert_eq!(redeem_stake_batch.id(), batch_id);
}

/// Given a registered account has STAKE
/// And there are no contract locks, i.e., no batches are being run
/// When the account redeems STAKE
/// Then the STAKE funds are moved from the the account's STAKE balance to the account's current redeem stake batch
/// And the contract redeem stake batch is credited
/// Given the contract is locked on the redeem stake batch for unstaking
/// When the account redeems more STAKE
/// Then the STAKE will be added to the next batch
#[test]
fn redeem_while_redeem_stake_batch_locked() {
    let mut contract = new_contract();
    let mut account = registered_account();
    assert!(contract.state.redeem_stake_batch.is_none());
    assert!(contract.state.next_redeem_stake_batch.is_none());

    // Given the account has STAKE
    let initial_account_stake = YoctoStake(50 * YOCTO);
    account
        .account
        .apply_stake_credit(initial_account_stake)
        .unwrap();

    let redeem_amount = YoctoStake::from(10 * YOCTO);
    let batch_id = contract
        .redeem_stake_for_account(&mut account, redeem_amount)
        .unwrap();

    let batch = contract
        .state
        .redeem_stake_batch
        .expect("current stake batch should have funds");
    assert_eq!(batch_id, batch.id());
    assert_eq!(redeem_amount, batch.balance().amount());

    // assert STAKE was moved from account STAKE balance to redeem stake batch
    assert_eq!(
        account.account.stake.unwrap().amount(),
        (initial_account_stake.value() - redeem_amount.value()).into()
    );
    let redeem_stake_batch = account.account.redeem_stake_batch.unwrap();
    assert_eq!(redeem_stake_batch.balance().amount(), redeem_amount);
    assert_eq!(redeem_stake_batch.id(), batch_id);

    // Given the contract is locked for unstaking
    contract.state.redeem_stake_batch_lock = Some(RedeemLock::Unstaking);
    let batch_id_2 = contract
        .redeem_stake_for_account(&mut account, redeem_amount)
        .unwrap();

    let batch = contract
        .state
        .redeem_stake_batch
        .expect("current stake batch should have funds");
    assert_eq!(redeem_amount.value(), batch.balance().amount().value());

    assert_eq!(
        account.account.stake.unwrap().amount(),
        (initial_account_stake.value() - (redeem_amount.value() * 2)).into()
    );
    let redeem_stake_batch = account.account.redeem_stake_batch.unwrap();
    assert_eq!(redeem_stake_batch.balance().amount(), redeem_amount);
    assert_eq!(redeem_stake_batch.id(), batch_id);

    let next_redeem_stake_batch = account.account.next_redeem_stake_batch.unwrap();
    assert_eq!(next_redeem_stake_batch.balance().amount(), redeem_amount);
    assert_eq!(next_redeem_stake_batch.id(), batch_id_2);
}

/// Given an account has unclaimed stake batch receipts
/// When the account tries to redeem STAKE
/// Then the stake batch receipts are first claimed before checking the account balance
#[test]
fn redeem_with_unclaimed_stake_batch_receipts() {
    let mut contract = new_contract();
    let mut account = registered_account();
    contract.deposit(&mut account, (5 * YOCTO).into()).unwrap();

    // Given an account has unclaimed stake batch receipts
    let batch = contract.state.stake_batch.unwrap();
    let receipt = StakeBatchReceipt::new(batch.balance().amount(), contract.state.stake_token_value);
    contract.stake_batch_receipts.insert(batch.id(), receipt);

    // When the account tries to redeem STAKE
    contract
        .redeem_stake_for_account(&mut account, (2 * YOCTO).into())
        .unwrap();

    assert_eq!(
        account.account.stake.unwrap().amount(),
        (3 * YOCTO).into()
    );
    assert_eq!(
        account.account.redeem_stake_batch.unwrap().balance().amount(),
        (2 * YOCTO).into()
    );
}

/// Given an account has unclaimed stake batch receipts
/// When the account tries to redeem STAKE
/// Then the stake batch receipts are first claimed before checking the account balance
#[test]
fn redeem_all_with_unclaimed_stake_batch_receipts() {
    let mut contract = new_contract();
    let mut account = registered_account();
    contract.deposit(&mut account, (5 * YOCTO).into()).unwrap();

    // Given an account has unclaimed stake batch receipts
    let batch = contract.state.stake_batch.unwrap();
    let receipt = StakeBatchReceipt::new(batch.balance().amount(), contract.state.stake_token_value);
    contract.stake_batch_receipts.insert(batch.id(), receipt);

    // When the account tries to redeem STAKE
    contract.redeem_all(&mut account).unwrap();

    assert!(account.account.stake.is_none());
    assert_eq!(
        account.account.redeem_stake_batch.unwrap().balance().amount(),
        batch.balance().amount().value().into()
    );
}

fn redeem_all_with_lock(lock: RedeemLock) {
    let mut contract = new_contract();
    let mut account = registered_account();

    assert!(contract.state.redeem_stake_batch.is_none());
    assert!(contract.state.next_redeem_stake_batch.is_none());

    // Given the account has STAKE
    let initial_account_stake = YoctoStake(50 * YOCTO);
    account
        .account
        .apply_stake_credit(initial_account_stake)
        .unwrap();

    let batch_id = contract.redeem_all(&mut account).unwrap().unwrap();
    contract.state.redeem_stake_batch_lock = Some(lock);

    let batch = contract
        .state
        .redeem_stake_batch
        .expect("next stake batch should have funds");
    assert_eq!(batch_id, batch.id());
    assert_eq!(
        initial_account_stake.value(),
        batch.balance().amount().value()
    );

    let account = contract
        .apply_receipt_funds_for_view(&account.account)
        .unwrap();
    // assert STAKE was moved from account STAKE balance to redeem stake batch
    assert!(account.stake.is_none());
    let redeem_stake_batch = account
        .redeem_stake_batch
        .expect("redeemed STAKE should have been put into batch");
    assert_eq!(redeem_stake_batch.balance().amount(), initial_account_stake);
    assert_eq!(redeem_stake_batch.id(), batch_id);
}

#[test]
fn redeem_all_with_redeem_lock_unstaking() {
    redeem_all_with_lock(RedeemLock::Unstaking);
}

#[test]
fn redeem_all_with_redeem_lock_pending_withdrawal() {
    redeem_all_with_lock(RedeemLock::PendingWithdrawal);
}

/// Given the contract is unlocked and has no batch runs in progress
/// And there is a redeem stake batch
/// When the redeem batch is run
/// Then the venue is asked for the account
/// And the lock is cleared at the end if the state is still `Unstaking`
#[test]
fn unstake_no_locks() {
    let mut contract = new_contract();

    contract.state.batch_id_sequence.0 += 1;
    contract.state.redeem_stake_batch = Some(RedeemStakeBatch::new(
        contract.state.batch_id_sequence,
        (10 * YOCTO).into(),
    ));

    let action = contract.unstake().unwrap();
    assert!(contract.is_unstaking());
    // get_account -> on_run_redeem_stake_batch -> clear_redeem_lock
    assert_eq!(action, RedeemAction::GetAccountToRunRedeemStakeBatch);

    // a step of the chain fails: the lock is dropped at its end
    contract.clear_redeem_lock();
    assert!(contract.state.redeem_stake_batch_lock.is_none());
}

#[test]
fn redeem_and_unstake_no_locks() {
    let mut contract = new_contract();
    let mut account = registered_account();
    account.account.stake = Some(StakeBalance::new((100 * YOCTO).into()));

    let outcome = contract
        .redeem_and_unstake(&mut account, (10 * YOCTO).into(), EpochHeight(1))
        .unwrap();

    assert!(contract.is_unstaking());
    assert_eq!(
        outcome,
        ActionOrValue::Action(RedeemAction::GetAccountToRunRedeemStakeBatch)
    );
}

#[test]
#[should_panic(expected = "action is blocked because a batch is running")]
fn unstake_locked_for_staking() {
    let mut contract = new_contract();
    contract.state.stake_batch_lock = Some(StakeLock::Staking);
    let err = contract.unstake().unwrap_err();
    panic!("{}", err.message());
}

#[test]
fn redeem_and_unstake_locked_for_staking() {
    let mut contract = new_contract();
    let mut account = registered_account();

    contract.state.stake_batch_lock = Some(StakeLock::Staking);
    account.account.stake = Some(StakeBalance::new((100 * YOCTO).into()));

    if let ActionOrValue::Value(batch_id) = contract
        .redeem_and_unstake(&mut account, (10 * YOCTO).into(), EpochHeight(1))
        .unwrap()
    {
        assert_eq!(batch_id, contract.state.redeem_stake_batch.unwrap().id());
    } else {
        panic!("expected batch ID to be returned because unstake workflow cannot be run if a batch is running");
    }
}

#[test]
#[should_panic(expected = "action is blocked because a batch is running")]
fn unstake_locked_for_unstaking() {
    let mut contract = new_contract();
    contract.state.redeem_stake_batch_lock = Some(RedeemLock::Unstaking);
    let err = contract.unstake().unwrap_err();
    panic!("{}", err.message());
}

#[test]
fn redeem_and_unstake_locked_for_unstaking() {
    let mut contract = new_contract();
    let mut account = registered_account();

    contract.state.redeem_stake_batch_lock = Some(RedeemLock::Unstaking);
    account.account.stake = Some(StakeBalance::new((100 * YOCTO).into()));

    if let ActionOrValue::Value(batch_id) = contract
        .redeem_and_unstake(&mut account, (10 * YOCTO).into(), EpochHeight(1))
        .unwrap()
    {
        assert_eq!(
            batch_id,
            contract.state.next_redeem_stake_batch.unwrap().id()
        );
    } else {
        panic!("expected batch ID to be returned because unstake workflow cannot be run if a batch is running");
    }
}

#[test]
#[should_panic(expected = "there is no redeem stake batch")]
fn unstake_no_batch() {
    let mut contract = new_contract();
    let err = contract.unstake().unwrap_err();
    assert_eq!(err, Error::NoRedeemStakeBatchToRun);
    panic!("{}", err.message());
}

/// Given the NEAR of a redeem batch waits at the venue
/// When the redeem batch is run
/// Then the venue is asked for the account, to withdraw what it releases
#[test]
fn unstake_pending_withdrawal() {
    let mut contract = new_contract();

    contract.state.batch_id_sequence.0 += 1;
    contract.state.redeem_stake_batch = Some(RedeemStakeBatch::new(
        contract.state.batch_id_sequence,
        (10 * YOCTO).into(),
    ));
    contract.redeem_stake_batch_receipts.insert(
        contract.state.batch_id_sequence,
        RedeemStakeBatchReceipt::new((10 * YOCTO).into(), contract.state.stake_token_value),
    );
    contract.state.redeem_stake_batch_lock = Some(RedeemLock::PendingWithdrawal);
    let epoch = EpochHeight(UNSTAKED_NEAR_FUNDS_NUM_EPOCHS_TO_UNLOCK);
    assert_eq!(contract.can_unstake(epoch), Ok(true));
    assert_eq!(contract.can_unstake(EpochHeight(epoch.value() - 1)), Ok(false));

    let action = contract.unstake().unwrap();

    assert_eq!(
        contract.state.redeem_stake_batch_lock,
        Some(RedeemLock::PendingWithdrawal)
    );
    // get_account -> on_redeeming_stake_pending_withdrawal
    assert_eq!(action, RedeemAction::GetAccountToWithdraw);

    // the venue does not release the NEAR yet
    assert_eq!(
        contract.on_redeeming_stake_pending_withdrawal(StakingPoolAccount {
            unstaked_balance: (10 * YOCTO).into(),
            staked_balance: 0.into(),
            can_withdraw: false,
        }),
        Err(Error::UnstakedFundsNotAvailableForWithdrawal)
    );
    // nothing lies unstaked any more: the round is closed at once
    assert_eq!(
        contract.on_redeeming_stake_pending_withdrawal(StakingPoolAccount {
            unstaked_balance: 0.into(),
            staked_balance: 0.into(),
            can_withdraw: true,
        }),
        Ok(ActionOrValue::Value(BatchId(1)))
    );
    assert!(contract.state.redeem_stake_batch_lock.is_none());
    assert!(contract.state.redeem_stake_batch.is_none());
    assert_eq!(contract.state.total_near.amount(), (10 * YOCTO).into());
}

/// Given an account has redeemed STAKE
/// And the batch has completed
/// Then the account can claim the NEAR funds
#[test]
fn claim_receipt_funds_on_reddeem_stake_batch_receipt() {
    let mut contract = new_contract();
    let mut account = registered_account();

    account.account.redeem_stake_batch = Some(RedeemStakeBatch::new(
        contract.state.batch_id_sequence,
        (10 * YOCTO).into(),
    ));
    contract.redeem_stake_batch_receipts.insert(
        contract.state.batch_id_sequence,
        RedeemStakeBatchReceipt::new((20 * YOCTO).into(), contract.state.stake_token_value),
    );

    contract.claim_receipt_funds(&mut account).unwrap();

    assert_eq!(
        account.account.near.unwrap().amount(),
        (10 * YOCTO).into()
    );
    assert!(account.account.redeem_stake_batch.is_none());

    // Then there should be 10 STAKE left unclaimed on the receipt
    let receipt = contract
        .redeem_stake_batch_receipts
        .get(contract.state.batch_id_sequence)
        .unwrap();
    assert_eq!(receipt.redeemed_stake(), (10 * YOCTO).into());
}

#[test]
fn claim_redeem_stake_batch_receipts_for_current_and_next_batch() {
    let mut contract = new_contract();
    let mut account = registered_account();

    account.account.redeem_stake_batch = Some(RedeemStakeBatch::new(
        contract.state.batch_id_sequence,
        (10 * YOCTO).into(),
    ));
    contract.state.batch_id_sequence.0 += 1;
    account.account.next_redeem_stake_batch = Some(RedeemStakeBatch::new(
        contract.state.batch_id_sequence,
        (15 * YOCTO).into(),
    ));

    contract.redeem_stake_batch_receipts.insert(
        (contract.state.batch_id_sequence.value() - 1).into(),
        RedeemStakeBatchReceipt::new((10 * YOCTO).into(), contract.state.stake_token_value),
    );
    contract.redeem_stake_batch_receipts.insert(
        contract.state.batch_id_sequence,
        RedeemStakeBatchReceipt::new((20 * YOCTO).into(), contract.state.stake_token_value),
    );

    contract.claim_receipt_funds(&mut account).unwrap();

    assert_eq!(
        account.account.near.unwrap().amount(),
        (25 * YOCTO).into()
    );
    assert!(account.account.redeem_stake_batch.is_none());
    assert!(account.account.next_redeem_stake_batch.is_none());
    assert!(contract
        .redeem_stake_batch_receipts
        .get((contract.state.batch_id_sequence.value() - 1).into())
        .is_none());
    assert_eq!(
        contract
            .redeem_stake_batch_receipts
            .get(contract.state.batch_id_sequence)
            .unwrap()
            .redeemed_stake(),
        (5 * YOCTO).into()
    );
}

/// Given an account has redeemed STAKE
/// And the batch receipt is pending withdrawal
/// And there is enough NEAR liquidity to fulfill the claim
/// Then the account can claim the NEAR funds from the NEAR liquidity pool
#[test]
fn claim_redeem_stake_batch_receipts_for_current_batch_pending_withdrawal_with_full_near_liquidity_available(
) {
    let mut contract = new_contract();
    let mut account = registered_account();

    account.account.redeem_stake_batch = Some(RedeemStakeBatch::new(
        contract.state.batch_id_sequence,
        (10 * YOCTO).into(),
    ));

    contract.state.redeem_stake_batch = Some(RedeemStakeBatch::new(
        contract.state.batch_id_sequence,
        (20 * YOCTO).into(),
    ));
    contract.state.redeem_stake_batch_lock = Some(RedeemLock::PendingWithdrawal);
    contract.state.near_liquidity_pool = contract
        .state
        .stake_token_value
        .stake_to_near(account.account.redeem_stake_batch.unwrap().balance().amount());
    contract.redeem_stake_batch_receipts.insert(
        contract.state.batch_id_sequence,
        RedeemStakeBatchReceipt::new(
            contract.state.redeem_stake_batch.unwrap().balance().amount(),
            contract.state.stake_token_value,
        ),
    );

    contract.claim_receipt_funds(&mut account).unwrap();

    assert_eq!(
        account.account.near.unwrap().amount(),
        (10 * YOCTO).into()
    );
    assert!(account.account.redeem_stake_batch.is_none());

    // Then there should be 10 STAKE left unclaimed on the receipt
    let receipt = contract
        .redeem_stake_batch_receipts
        .get(contract.state.batch_id_sequence)
        .unwrap();
    assert_eq!(receipt.redeemed_stake(), (10 * YOCTO).into());
    assert_eq!(contract.state.near_liquidity_pool, 0.into());
    assert_eq!(contract.state.total_near.amount(), (10 * YOCTO).into());
}

/// Given an account has redeemed STAKE
/// And the batch receipt is pending withdrawal
/// And there is enough NEAR liquidity to fulfill the claim
/// And the receipt is fully claimed
/// Then the account can claim the NEAR funds from the NEAR liquidity pool
/// And the RedeemLock is set to None
/// And the receipt has been deleted
#[test]
fn claim_redeem_stake_batch_receipts_for_current_batch_pending_withdrawal_with_full_near_liquidity_available_and_receipt_fully_claimed(
) {
    let mut contract = new_contract();
    let mut account = registered_account();

    account.account.redeem_stake_batch = Some(RedeemStakeBatch::new(
        contract.state.batch_id_sequence,
        (10 * YOCTO).into(),
    ));

    contract.state.redeem_stake_batch = Some(RedeemStakeBatch::new(
        contract.state.batch_id_sequence,
        (10 * YOCTO).into(),
    ));
    contract.state.redeem_stake_batch_lock = Some(RedeemLock::PendingWithdrawal);
    contract.state.near_liquidity_pool = contract
        .state
        .stake_token_value
        .stake_to_near(account.account.redeem_stake_batch.unwrap().balance().amount());
    contract.redeem_stake_batch_receipts.insert(
        contract.state.batch_id_sequence,
        RedeemStakeBatchReceipt::new(
            contract.state.redeem_stake_batch.unwrap().balance().amount(),
            contract.state.stake_token_value,
        ),
    );

    contract.claim_receipt_funds(&mut account).unwrap();

    assert_eq!(
        account.account.near.unwrap().amount(),
        (10 * YOCTO).into()
    );
    assert!(account.account.redeem_stake_batch.is_none());

    assert!(contract
        .redeem_stake_batch_receipts
        .get(contract.state.batch_id_sequence)
        .is_none());
    assert!(contract.state.redeem_stake_batch_lock.is_none());
    assert_eq!(contract.state.near_liquidity_pool, 0.into());
    assert_eq!(contract.state.total_near.amount(), (10 * YOCTO).into());
}

/// Given an account has redeemed STAKE into the current and next batches
/// And there is a receipt for the current batch
/// When the account claims funds, the current batch funds will be claimed
/// And the next batch gets moved into the current batch slot
#[test]
fn staking_service_claim_redeem_stake_batch_receipts_for_current_and_next_batch_with_receipt_for_current(
) {
    let mut contract = new_contract();
    let mut account = registered_account();

    // account has redeemed 10 STAKE in current batch and 15 STAKE in next batch
    account.account.redeem_stake_batch = Some(RedeemStakeBatch::new(
        contract.state.batch_id_sequence,
        (10 * YOCTO).into(),
    ));
    // contract has receipt that matches exact value of account's batch amount
    contract.redeem_stake_batch_receipts.insert(
        contract.state.batch_id_sequence.value().into(),
        RedeemStakeBatchReceipt::new(
            account.account.redeem_stake_batch.unwrap().balance().amount(),
            contract.state.stake_token_value,
        ),
    );
    contract.state.batch_id_sequence.0 += 1;
    account.account.next_redeem_stake_batch = Some(RedeemStakeBatch::new(
        contract.state.batch_id_sequence,
        (15 * YOCTO).into(),
    ));

    contract.claim_receipt_funds(&mut account).unwrap();

    assert_eq!(
        account.account.near.unwrap().amount(),
        (10 * YOCTO).into()
    );
    assert!(account.account.next_redeem_stake_batch.is_none());
    assert!(contract
        .redeem_stake_batch_receipts
        .get((contract.state.batch_id_sequence.value() - 1).into())
        .is_none());
}

/// Given an account has redeemed STAKE
/// And the batch has completed
/// And there is a current batch pending withdrawal
/// Then the account can claim the NEAR funds
#[test]
fn staking_service_claim_redeem_stake_batch_receipts_for_old_batch_receipt_while_pending_withdrawal_on_current_batch(
) {
    let mut contract = new_contract();
    let mut account = registered_account();

    let batch_id = contract.state.batch_id_sequence;
    account.account.redeem_stake_batch =
        Some(RedeemStakeBatch::new(batch_id, (10 * YOCTO).into()));
    account.account.next_redeem_stake_batch = Some(RedeemStakeBatch::new(
        (batch_id.value() + 1).into(),
        (10 * YOCTO).into(),
    ));

    contract.state.batch_id_sequence.0 += 10;
    contract.state.redeem_stake_batch = Some(RedeemStakeBatch::new(
        contract.state.batch_id_sequence,
        (100 * YOCTO).into(),
    ));
    contract.state.redeem_stake_batch_lock = Some(RedeemLock::PendingWithdrawal);

    contract.redeem_stake_batch_receipts.insert(
        batch_id,
        RedeemStakeBatchReceipt::new((20 * YOCTO).into(), contract.state.stake_token_value),
    );
    contract.redeem_stake_batch_receipts.insert(
        (batch_id.value() + 1).into(),
        RedeemStakeBatchReceipt::new((20 * YOCTO).into(), contract.state.stake_token_value),
    );

    contract.claim_receipt_funds(&mut account).unwrap();

    assert_eq!(
        account.account.near.unwrap().amount(),
        (20 * YOCTO).into()
    );
    assert!(account.account.redeem_stake_batch.is_none());

    let receipt = contract.redeem_stake_batch_receipts.get(batch_id).unwrap();
    assert_eq!(receipt.redeemed_stake(), (10 * YOCTO).into());
}

#[test]
fn apply_unclaimed_receipts_to_account() {
    let mut contract = new_contract();
    let mut account = registered_account();
    contract.deposit(&mut account, (10 * YOCTO).into()).unwrap();

    {
        let batch = contract.state.stake_batch.unwrap();
        // create a stake batch receipt for the stake batch
        let receipt =
            StakeBatchReceipt::new(batch.balance().amount(), contract.state.stake_token_value);
        contract.stake_batch_receipts.insert(batch.id(), receipt);

        contract.state.batch_id_sequence.0 += 1;
        let batch = StakeBatch::new(contract.state.batch_id_sequence, (10 * YOCTO).into());
        account.account.next_stake_batch = Some(batch);
        let receipt =
            StakeBatchReceipt::new(batch.balance().amount(), contract.state.stake_token_value);
        contract
            .stake_batch_receipts
            .insert(contract.state.batch_id_sequence, receipt);

        contract.state.stake_batch = None;
        contract.state.next_stake_batch = None;
    }

    {
        // create a redeem stake batch receipt for 2 yoctoSTAKE
        contract.state.batch_id_sequence.0 += 1;
        let redeem_stake_batch =
            RedeemStakeBatch::new(contract.state.batch_id_sequence, (2 * YOCTO).into());
        contract.redeem_stake_batch_receipts.insert(
            contract.state.batch_id_sequence,
            RedeemStakeBatchReceipt::new(
                redeem_stake_batch.balance().amount(),
                contract.state.stake_token_value,
            ),
        );
        account.account.redeem_stake_batch = Some(redeem_stake_batch);

        contract.state.batch_id_sequence.0 += 1;
        let redeem_stake_batch =
            RedeemStakeBatch::new(contract.state.batch_id_sequence, (2 * YOCTO).into());
        contract.redeem_stake_batch_receipts.insert(
            contract.state.batch_id_sequence,
            RedeemStakeBatchReceipt::new(
                redeem_stake_batch.balance().amount(),
                contract.state.stake_token_value,
            ),
        );
        account.account.next_redeem_stake_batch = Some(redeem_stake_batch);
    }

    let stored = account.account;
    let account = contract
        .apply_receipt_funds_for_view(&account.account)
        .unwrap();
    assert!(account.stake_batch.is_none());
    assert!(account.redeem_stake_batch.is_none());
    assert!(account.next_stake_batch.is_none());
    assert!(account.next_redeem_stake_batch.is_none());
    assert_eq!(account.stake.unwrap().amount(), (2 * 10 * YOCTO).into());
    assert_eq!(account.near.unwrap().amount(), (2 * 2 * YOCTO).into());

    // nothing was claimed
    assert!(stored.stake.is_none());
    assert!(contract
        .stake_batch_receipts
        .get(stored.stake_batch.unwrap().id())
        .is_some());
    assert_eq!(
        contract
            .redeem_stake_batch_receipts
            .get(stored.redeem_stake_batch.unwrap().id())
            .unwrap()
            .redeemed_stake(),
        (2 * YOCTO).into()
    );
}

#[test]
fn view_leaves_the_batch_that_awaits_withdrawal_alone() {
    let mut contract = new_contract();
    let mut account = registered_account();
    account.account.apply_stake_credit(YOCTO.into()).unwrap();
    let batch_id = contract.redeem_all(&mut account).unwrap().unwrap();
    contract.redeem_stake_batch_receipts.insert(
        batch_id,
        RedeemStakeBatchReceipt::new(YOCTO.into(), contract.state.stake_token_value),
    );
    contract.state.redeem_stake_batch_lock = Some(RedeemLock::PendingWithdrawal);
    contract.state.near_liquidity_pool = YOCTO.into();

    let viewed = contract
        .apply_receipt_funds_for_view(&account.account)
        .unwrap();
    assert_eq!(viewed, account.account);

    contract.state.redeem_stake_batch = None;
    assert_eq!(
        contract.apply_receipt_funds_for_view(&account.account),
        Err(Error::RedeemStakeBatchShouldExist)
    );
}

#[test]
fn cancel_pending_redeem_stake_request_success() {
    let mut contract = new_contract();
    let mut account = registered_account();
    account
        .account
        .apply_stake_credit((100 * YOCTO).into())
        .unwrap();

    contract
        .redeem_stake_for_account(&mut account, (10 * YOCTO).into())
        .unwrap();

    assert_eq!(
        account.account.stake.unwrap().amount(),
        (90 * YOCTO).into()
    );
    assert!(account.account.redeem_stake_batch.is_some());
    assert!(contract.state.redeem_stake_batch.is_some());

    assert_eq!(
        contract.remove_all_from_redeem_stake_batch(&mut account),
        Ok((10 * YOCTO).into())
    );
    assert_eq!(
        account.account.stake.unwrap().amount(),
        (100 * YOCTO).into()
    );
    assert!(account.account.redeem_stake_batch.is_none());
    assert!(contract.state.redeem_stake_batch.is_none());
}

#[test]
fn cancel_pending_redeem_stake_request_success_with_funds_remaining_in_batch() {
    let mut contract = new_contract();
    let mut account = registered_account();
    account
        .account
        .apply_stake_credit((100 * YOCTO).into())
        .unwrap();

    contract
        .redeem_stake_for_account(&mut account, (10 * YOCTO).into())
        .unwrap();
    {
        let mut batch = contract.state.redeem_stake_batch.unwrap();
        batch.add(YOCTO.into()).unwrap();
        contract.state.redeem_stake_batch = Some(batch);
    }

    assert_eq!(
        account.account.stake.unwrap().amount(),
        (90 * YOCTO).into()
    );
    assert!(account.account.redeem_stake_batch.is_some());
    assert!(contract.state.redeem_stake_batch.is_some());

    assert_eq!(
        contract.remove_all_from_redeem_stake_batch(&mut account),
        Ok((10 * YOCTO).into())
    );
    assert_eq!(
        account.account.stake.unwrap().amount(),
        (100 * YOCTO).into()
    );
    assert!(account.account.redeem_stake_batch.is_none());
    assert_eq!(
        contract.state.redeem_stake_batch.unwrap().balance().amount(),
        YOCTO.into()
    );
}

#[test]
fn cancel_pending_redeem_stake_request_while_locked_success() {
    let mut contract = new_contract();
    let mut account = registered_account();
    account
        .account
        .apply_stake_credit((100 * YOCTO).into())
        .unwrap();

    contract
        .redeem_stake_for_account(&mut account, (10 * YOCTO).into())
        .unwrap();

    contract.state.redeem_stake_batch_lock = Some(RedeemLock::PendingWithdrawal);
    contract
        .redeem_stake_for_account(&mut account, (10 * YOCTO).into())
        .unwrap();

    assert_eq!(
        account.account.stake.unwrap().amount(),
        (80 * YOCTO).into()
    );
    assert!(account.account.next_redeem_stake_batch.is_some());
    assert!(contract.state.next_redeem_stake_batch.is_some());

    assert_eq!(
        contract.remove_all_from_redeem_stake_batch(&mut account),
        Ok((10 * YOCTO).into())
    );
    assert_eq!(
        account.account.stake.unwrap().amount(),
        (90 * YOCTO).into()
    );
    assert!(account.account.next_redeem_stake_batch.is_none());
    assert!(contract.state.next_redeem_stake_batch.is_none());
}

#[test]
fn cancel_pending_redeem_stake_request_while_locked_success_with_other_funds_in_batch() {
    let mut contract = new_contract();
    let mut account = registered_account();
    account
        .account
        .apply_stake_credit((100 * YOCTO).into())
        .unwrap();

    contract
        .redeem_stake_for_account(&mut account, (10 * YOCTO).into())
        .unwrap();

    contract.state.redeem_stake_batch_lock = Some(RedeemLock::PendingWithdrawal);
    contract
        .redeem_stake_for_account(&mut account, (10 * YOCTO).into())
        .unwrap();
    {
        let mut batch = contract.state.next_redeem_stake_batch.unwrap();
        batch.add(YOCTO.into()).unwrap();
        contract.state.next_redeem_stake_batch = Some(batch);
    }

    assert_eq!(
        account.account.stake.unwrap().amount(),
        (80 * YOCTO).into()
    );
    assert!(account.account.next_redeem_stake_batch.is_some());
    assert!(contract.state.next_redeem_stake_batch.is_some());

    assert_eq!(
        contract.remove_all_from_redeem_stake_batch(&mut account),
        Ok((10 * YOCTO).into())
    );
    assert_eq!(
        account.account.stake.unwrap().amount(),
        (90 * YOCTO).into()
    );
    assert!(account.account.next_redeem_stake_batch.is_none());
    assert_eq!(
        contract
            .state
            .next_redeem_stake_batch
            .unwrap()
            .balance()
            .amount(),
        YOCTO.into()
    );
}

#[test]
fn cancel_pending_redeem_stake_request_no_batches_success() {
    let mut contract = new_contract();
    let mut account = registered_account();
    assert_eq!(
        contract.remove_all_from_redeem_stake_batch(&mut account),
        Ok(0.into())
    );
}

#[test]
fn cancel_pending_redeem_stake_request_while_locked_no_next_batch_success() {
    let mut contract = new_contract();
    let mut account = registered_account();
    contract.state.redeem_stake_batch_lock = Some(RedeemLock::Unstaking);
    assert_eq!(
        contract.remove_all_from_redeem_stake_batch(&mut account),
        Ok(0.into())
    );
}

#[test]
fn remove_part_of_a_redeem_request() {
    let mut contract = new_contract();
    let mut account = registered_account();
    account
        .account
        .apply_stake_credit((100 * YOCTO).into())
        .unwrap();
    contract
        .redeem_stake_for_account(&mut account, (10 * YOCTO).into())
        .unwrap();

    let before = account.account;
    assert_eq!(
        contract.remove_from_redeem_stake_batch(&mut account, (11 * YOCTO).into()),
        Err(Error::BatchBalanceInsufficient)
    );
    assert_eq!(account.account, before);

    contract
        .remove_from_redeem_stake_batch(&mut account, (4 * YOCTO).into())
        .unwrap();
    assert_eq!(
        account.account.stake.unwrap().amount(),
        (94 * YOCTO).into()
    );
    assert_eq!(
        account.account.redeem_stake_batch.unwrap().balance().amount(),
        (6 * YOCTO).into()
    );
    assert_eq!(
        contract.state.redeem_stake_batch.unwrap().balance().amount(),
        (6 * YOCTO).into()
    );
}

#[test]
fn redeem_errors() {
    let mut contract = new_contract();
    let mut account = registered_account();
    assert_eq!(
        contract.redeem_stake_for_account(&mut account, YoctoStake(0)),
        Err(Error::ZeroRedeemAmount)
    );
    assert_eq!(
        contract.redeem_stake_for_account(&mut account, YoctoStake(1)),
        Err(Error::InsufficientStakeForRedeemRequest)
    );
    account.account.apply_stake_credit(YoctoStake(5)).unwrap();
    assert_eq!(
        contract.redeem_stake_for_account(&mut account, YoctoStake(6)),
        Err(Error::InsufficientStakeForRedeemRequest)
    );
    assert_eq!(account.account.stake.unwrap().amount(), YoctoStake(5));
    assert!(contract.state.redeem_stake_batch.is_none());
    assert_eq!(contract.redeem_all(&mut registered_account()), Ok(None));
}

#[test]
fn stake_batch_receipt_lookups() {
    let mut contract = new_contract();

    assert!(contract
        .stake_batch_receipt(contract.state.batch_id_sequence)
        .is_none());

    contract.state.batch_id_sequence.0 += 1;
    contract.stake_batch_receipts.insert(
        contract.state.batch_id_sequence,
        StakeBatchReceipt::new(YOCTO.into(), contract.state.stake_token_value),
    );

    assert_eq!(
        contract
            .stake_batch_receipt(contract.state.batch_id_sequence)
            .unwrap()
            .staked_near(),
        YOCTO.into()
    );
}

#[test]
fn redeem_stake_batch_receipt_lookups() {
    let mut contract = new_contract();

    assert!(contract
        .redeem_stake_batch_receipt(contract.state.batch_id_sequence)
        .is_none());

    contract.state.batch_id_sequence.0 += 1;
    contract.redeem_stake_batch_receipts.insert(
        contract.state.batch_id_sequence,
        RedeemStakeBatchReceipt::new(YOCTO.into(), contract.state.stake_token_value),
    );

    assert_eq!(
        contract
            .redeem_stake_batch_receipt(contract.state.batch_id_sequence)
            .unwrap()
            .redeemed_stake(),
        YOCTO.into()
    );
    assert_eq!(
        contract
            .redeem_stake_batch_receipts
            .remove(contract.state.batch_id_sequence)
            .unwrap()
            .batched_stake(),
        YOCTO.into()
    );
    assert!(contract
        .redeem_stake_batch_receipt(contract.state.batch_id_sequence)
        .is_none());
}

#[test]
fn stake_token_value_compensation() {
    let mut contract = new_contract();

    contract.state.total_stake = StakeBalance::new(18004621608054163628202638.into());
    contract.state.stake_token_value = StakeTokenValue::new(
        now(),
        18503502971096472900569337.into(),
        contract.state.total_stake.amount(),
    );
    let old_stake_token_value = contract.state.stake_token_value;

    contract.state.total_stake = StakeBalance::new(13004621608054163628202638.into());
    contract
        .update_stake_token_value(13364960386336141046957933.into(), now())
        .unwrap();
    let new_stake_token_value = contract.state.stake_token_value;

    assert_eq!(
        old_stake_token_value.stake_to_near(YOCTO.into()),
        new_stake_token_value.stake_to_near(YOCTO.into())
    );
    assert_eq!(
        old_stake_token_value.stake_to_near(YOCTO.into()),
        YoctoNear(1027708516952066370722277)
    );
    // what was added to the staked balance was added to the liquidity pool
    let compensation =
        new_stake_token_value.total_staked_near_balance().value() - 13364960386336141046957933;
    assert_eq!(compensation, 6);
    assert_eq!(contract.state.near_liquidity_pool, YoctoNear(compensation));
}

#[test]
fn stake_token_value_is_taken_as_reported_where_it_does_not_fall() {
    let mut contract = new_contract();
    contract.state.total_stake = StakeBalance::new((10 * YOCTO).into());
    contract
        .update_stake_token_value((10 * YOCTO).into(), now())
        .unwrap();
    contract
        .update_stake_token_value((11 * YOCTO).into(), now())
        .unwrap();
    assert_eq!(
        contract.stake_token_value().total_staked_near_balance(),
        (11 * YOCTO).into()
    );
    assert_eq!(contract.state.near_liquidity_pool, YoctoNear(0));

    // a reported balance of zero is a reset
    contract.update_stake_token_value(0.into(), now()).unwrap();
    assert_eq!(
        contract.stake_token_value(),
        StakeTokenValue::new(now(), 0.into(), (10 * YOCTO).into())
    );
    assert_eq!(
        contract.stake_token_value().total_staked_near_balance(),
        (10 * YOCTO).into()
    );

    // with no share issued, a fall of the value cannot be made up for
    contract.state.stake_token_value =
        StakeTokenValue::new(now(), (20 * YOCTO).into(), (10 * YOCTO).into());
    contract.state.total_stake = StakeBalance::new(0.into());
    let before = contract.state;
    assert_eq!(
        contract.update_stake_token_value(5.into(), now()),
        Err(Error::StakeTokenValueDecreased)
    );
    assert_eq!(contract.state, before);
}
