use near_stake_token::config::Config;
use near_stake_token::contract::Contract;
use near_stake_token::domain::{
    Account, BlockHeight, BlockTimeHeight, BlockTimestamp, EpochHeight, RedeemLock,
    RedeemStakeBatch, RedeemStakeBatchReceipt, RegisteredAccount, StakeLock, YoctoNear,
};
use near_stake_token::errors::Error;
use near_stake_token::math::YOCTO;

fn new_contract() -> Contract {
    Contract::new(Config::default())
}

fn registered_account(key: u8) -> RegisteredAccount {
    RegisteredAccount {
        account: Account::new(YoctoNear(YOCTO)),
        id: [key; 32],
    }
}

fn now() -> BlockTimeHeight {
    BlockTimeHeight::new(BlockHeight(10), BlockTimestamp(1_000), EpochHeight(1))
}

/// Given an account has deposited funds into a stake batch
/// And the contract is not locked
/// When the account tries to withdraw funds from the batch
/// Then the funds are transferred back to the account
#[test]
fn account_has_uncommitted_stake_batch() {
    let mut contract = new_contract();
    let mut account = registered_account(1);
    contract.deposit(&mut account, (10 * YOCTO).into()).unwrap();

    let refund = contract
        .withdraw_from_stake_batch(&mut account, YOCTO.into())
        .unwrap();

    assert_eq!(refund, YoctoNear(YOCTO));
    assert_eq!(
        account.account.stake_batch.unwrap().balance().amount().value(),
        9 * YOCTO
    );
    assert_eq!(
        contract.state.stake_batch.unwrap().balance().amount().value(),
        9 * YOCTO
    );
}

#[test]
fn withdraw_all_funds_from_batch_specifying_exact_amount() {
    let mut contract = new_contract();
    let mut account = registered_account(1);
    let attached_deposit = 10 * YOCTO;
    contract
        .deposit(&mut account, attached_deposit.into())
        .unwrap();

    let refund = contract
        .withdraw_from_stake_batch(&mut account, attached_deposit.into())
        .unwrap();

    assert_eq!(refund, YoctoNear(attached_deposit));
    assert!(account.account.stake_batch.is_none());
    assert!(contract.state.stake_batch.is_none());
}

/// Given an account has deposited funds into the next stake batch
/// And the contract is locked
/// When the account tries to withdraw funds from the batch
/// Then the funds are transferred back to the account
#[test]
fn while_stake_batch_is_locked_withdraw_partial() {
    let mut contract = new_contract();
    let mut account = registered_account(1);
    contract.state.stake_batch_lock = Some(StakeLock::Staking);
    contract.deposit(&mut account, (10 * YOCTO).into()).unwrap();

    let refund = contract
        .withdraw_from_stake_batch(&mut account, YOCTO.into())
        .unwrap();

    assert_eq!(refund, YoctoNear(YOCTO));
    assert_eq!(
        account
            .account
            .next_stake_batch
            .unwrap()
            .balance()
            .amount()
            .value(),
        9 * YOCTO
    );
}

/// Given an account has deposited funds into the next stake batch
/// And the contract is locked
/// When the account tries to withdraw all funds from the batch
/// Then the funds are transferred back to the account
/// And the batch is deleted on the account
#[test]
fn while_stake_batch_is_locked_withdraw_all() {
    let mut contract = new_contract();
    let mut account = registered_account(1);
    contract.state.stake_batch_lock = Some(StakeLock::Staking);
    let attached_deposit = 10 * YOCTO;
    contract
        .deposit(&mut account, attached_deposit.into())
        .unwrap();

    let refund = contract
        .withdraw_from_stake_batch(&mut account, attached_deposit.into())
        .unwrap();

    assert_eq!(refund, YoctoNear(attached_deposit));
    assert!(account.account.next_stake_batch.is_none());
}

#[test]
fn withdrawal_must_leave_the_least_deposit_in_the_next_batch() {
    let mut contract = new_contract();
    let mut account = registered_account(1);
    contract.state.stake_batch_lock = Some(StakeLock::Staking);
    contract.deposit(&mut account, YoctoNear(5000)).unwrap();

    let before = account.account;
    assert_eq!(
        contract.withdraw_from_stake_batch(&mut account, YoctoNear(4001)),
        Err(Error::MinimumDepositRequired)
    );
    assert_eq!(account.account, before);
    assert_eq!(
        contract.state.next_stake_batch.unwrap().balance().amount(),
        YoctoNear(5000)
    );
    assert_eq!(
        contract.withdraw_from_stake_batch(&mut account, YoctoNear(4000)),
        Ok(YoctoNear(4000))
    );
    assert_eq!(
        contract.withdraw_from_stake_batch(&mut account, YoctoNear(1001)),
        Err(Error::BatchBalanceInsufficient)
    );
}

/// Given an account has deposited funds into the next stake batch
/// And the contract is locked
/// When the account tries to withdraw funds from the batch
/// Then the funds are transferred back to the account
#[test]
fn while_stake_batch_is_locked() {
    let mut contract = new_contract();
    let mut account = registered_account(1);
    contract.state.stake_batch_lock = Some(StakeLock::Staking);
    contract.deposit(&mut account, (10 * YOCTO).into()).unwrap();

    let refund = contract.withdraw_all_from_stake_batch(&mut account).unwrap();

    assert_eq!(refund, YoctoNear(10 * YOCTO));
    assert!(account.account.next_stake_batch.is_none());
}

#[test]
fn while_stake_batch_is_locked_with_other_funds_batch() {
    let mut contract = new_contract();
    let mut account = registered_account(1);
    contract.state.stake_batch_lock = Some(StakeLock::Staking);
    contract.deposit(&mut account, (10 * YOCTO).into()).unwrap();
    assert!(contract.state.next_stake_batch.is_some());
    if let Some(batch) = contract.state.next_stake_batch.as_mut() {
        batch.add(YOCTO.into()).unwrap();
    }

    let refund = contract.withdraw_all_from_stake_batch(&mut account).unwrap();

    assert_eq!(refund, YoctoNear(10 * YOCTO));
    assert!(account.account.next_stake_batch.is_none());
    assert_eq!(
        contract.state.next_stake_batch.unwrap().balance().amount(),
        YOCTO.into()
    );
}

#[test]
fn from_uncommitted_stake_batch() {
    let mut contract = new_contract();
    let mut account = registered_account(1);
    contract.deposit(&mut account, (10 * YOCTO).into()).unwrap();
    assert!(account.account.stake_batch.is_some());
    assert!(contract.state.stake_batch.is_some());

    let refund = contract.withdraw_all_from_stake_batch(&mut account).unwrap();

    assert_eq!(refund, YoctoNear(10 * YOCTO));
    assert!(account.account.stake_batch.is_none());
    assert!(contract.state.stake_batch.is_none());
}

#[test]
fn from_uncommitted_stake_batch_with_other_funds_batched() {
    let mut contract = new_contract();
    let mut account = registered_account(1);
    contract.deposit(&mut account, (10 * YOCTO).into()).unwrap();
    assert!(account.account.stake_batch.is_some());
    assert!(contract.state.stake_batch.is_some());
    if let Some(batch) = contract.state.stake_batch.as_mut() {
        batch.add(YOCTO.into()).unwrap();
    }

    let refund = contract.withdraw_all_from_stake_batch(&mut account).unwrap();

    assert_eq!(refund, YoctoNear(10 * YOCTO));
    assert!(account.account.stake_batch.is_none());
    assert_eq!(
        contract.state.stake_batch.unwrap().balance().amount(),
        YOCTO.into()
    );
}

#[test]
fn with_no_stake_batch() {
    let mut contract = new_contract();
    let mut account = registered_account(1);
    assert_eq!(
        contract
            .withdraw_all_from_stake_batch(&mut account)
            .unwrap()
            .value(),
        0
    );
}

#[test]
#[should_panic(expected = "action is blocked because a batch is running")]
fn withdraw_all_funds_from_stake_batch_while_unstaking() {
    let mut contract = new_contract();
    let mut account = registered_account(1);
    contract.deposit(&mut account, (10 * YOCTO).into()).unwrap();
    contract.state.redeem_stake_batch_lock = Some(RedeemLock::Unstaking);

    let err = contract
        .withdraw_all_from_stake_batch(&mut account)
        .unwrap_err();
    panic!("{}", err.message());
}

#[test]
#[should_panic(expected = "action is blocked because a batch is running")]
fn withdraw_all_funds_from_stake_batch_while_stake_batch_is_locked() {
    let mut contract = new_contract();
    let mut account = registered_account(1);
    contract.deposit(&mut account, (10 * YOCTO).into()).unwrap();
    contract.state.stake_batch_lock = Some(StakeLock::Staking);

    let err = contract
        .withdraw_all_from_stake_batch(&mut account)
        .unwrap_err();
    assert_eq!(
        contract.state.stake_batch.unwrap().balance().amount(),
        (10 * YOCTO).into()
    );
    panic!("{}", err.message());
}

#[test]
fn partial_funds() {
    let mut contract = new_contract();
    let mut account = registered_account(1);

    // Given the account has some NEAR balance
    account
        .account
        .apply_near_credit((10 * YOCTO).into())
        .unwrap();
    contract
        .state
        .total_near
        .credit(account.account.near.unwrap().amount())
        .unwrap();

    // When partial funds are withdrawn
    let paid = contract
        .withdraw_near_funds(&mut account, (5 * YOCTO).into())
        .unwrap();
    // Assert that the account NEAR balance was debited
    assert_eq!(paid, YoctoNear(5 * YOCTO));
    assert_eq!(
        account.account.near.unwrap().amount(),
        (5 * YOCTO).into()
    );
    assert_eq!(contract.state.total_near.amount(), (5 * YOCTO).into());
}

#[test]
#[should_panic(expected = "account has zero NEAR balance")]
fn with_no_near_funds() {
    let mut contract = new_contract();
    let mut account = registered_account(1);
    let err = contract
        .withdraw_near_funds(&mut account, (50 * YOCTO).into())
        .unwrap_err();
    assert_eq!(err, Error::AccountHasZeroNearBalance);
    panic!("{}", err.message());
}

#[test]
#[should_panic(expected = "account NEAR balance is too low to fulfill request")]
fn with_insufficient_funds() {
    let mut contract = new_contract();
    let mut account = registered_account(1);

    // Given the account has some NEAR balance
    account
        .account
        .apply_near_credit((10 * YOCTO).into())
        .unwrap();

    let err = contract
        .withdraw_near_funds(&mut account, (50 * YOCTO).into())
        .unwrap_err();
    assert_eq!(err, Error::AccountNearBalanceTooLow);
    assert_eq!(
        account.account.near.unwrap().amount(),
        (10 * YOCTO).into()
    );
    panic!("{}", err.message());
}

#[test]
fn withdrawal_draws_on_the_liquidity_pool_for_what_is_not_owed() {
    let mut contract = new_contract();
    let mut account = registered_account(1);
    account.account.apply_near_credit(YoctoNear(10)).unwrap();
    contract.state.total_near.credit(YoctoNear(4)).unwrap();
    contract.state.near_liquidity_pool = YoctoNear(5);

    let before = account.account;
    assert_eq!(
        contract.withdraw_near_funds(&mut account, YoctoNear(10)),
        Err(Error::NearLiquidityPoolTooLow)
    );
    assert_eq!(account.account, before);
    assert_eq!(contract.state.near_liquidity_pool, YoctoNear(5));

    assert_eq!(
        contract.withdraw_near_funds(&mut account, YoctoNear(7)),
        Ok(YoctoNear(7))
    );
    assert_eq!(contract.state.total_near.amount(), YoctoNear(0));
    assert_eq!(contract.state.near_liquidity_pool, YoctoNear(2));
    assert_eq!(account.account.near.unwrap().amount(), YoctoNear(3));
}

#[test]
#[should_panic(expected = "action is blocked because a batch is running")]
fn withdraw_funds_from_stake_batch_with_staking_lock() {
    let mut contract = new_contract();
    let mut account = registered_account(1);
    contract.deposit(&mut account, (10 * YOCTO).into()).unwrap();
    contract.stake(now()).unwrap();

    let err = contract
        .withdraw_from_stake_batch(&mut account, YOCTO.into())
        .unwrap_err();
    panic!("{}", err.message());
}

#[test]
#[should_panic(expected = "action is blocked because a batch is running")]
fn withdraw_funds_from_stake_batch_with_staked_lock() {
    let mut contract = new_contract();
    let mut account = registered_account(1);
    contract.deposit(&mut account, (10 * YOCTO).into()).unwrap();
    contract.stake(now()).unwrap();
    contract.state.stake_batch_lock = Some(StakeLock::Staked {
        unstaked_balance: YOCTO.into(),
        staked_balance: YOCTO.into(),
        near_liquidity: None,
    });

    let err = contract
        .withdraw_from_stake_batch(&mut account, YOCTO.into())
        .unwrap_err();
    panic!("{}", err.message());
}

#[test]
#[should_panic(expected = "action is blocked because a batch is running")]
fn withdraw_funds_from_stake_batch_while_unstaking() {
    let mut contract = new_contract();
    let mut account = registered_account(1);
    contract.deposit(&mut account, (10 * YOCTO).into()).unwrap();
    contract.state.redeem_stake_batch_lock = Some(RedeemLock::Unstaking);

    let err = contract
        .withdraw_from_stake_batch(&mut account, YOCTO.into())
        .unwrap_err();
    panic!("{}", err.message());
}

#[test]
#[should_panic(expected = "there are no funds in stake batch")]
fn withdraw_funds_from_stake_batch_with_no_stake_batch() {
    let mut contract = new_contract();
    let mut account = registered_account(1);
    let err = contract
        .withdraw_from_stake_batch(&mut account, YOCTO.into())
        .unwrap_err();
    assert_eq!(err, Error::NoFundsInStakeBatchToWithdraw);
    panic!("{}", err.message());
}

#[test]
fn has_near_funds() {
    let mut contract = new_contract();
    let mut account = registered_account(1);

    // Given the account has some NEAR balance
    account
        .account
        .apply_near_credit((10 * YOCTO).into())
        .unwrap();
    contract
        .state
        .total_near
        .credit(account.account.near.unwrap().amount())
        .unwrap();

    let paid = contract.withdraw_all(&mut account).unwrap();
    // Assert that the account NEAR balance was debited
    assert_eq!(paid, YoctoNear(10 * YOCTO));
    assert!(account.account.near.is_none());
}

#[test]
fn has_near_funds_in_unclaimed_receipts() {
    let mut contract = new_contract();
    let mut account = registered_account(1);

    contract.state.batch_id_sequence.0 += 1;
    account.account.redeem_stake_batch = Some(RedeemStakeBatch::new(
        contract.state.batch_id_sequence,
        YOCTO.into(),
    ));
    contract.state.total_near.credit(YOCTO.into()).unwrap();
    contract.redeem_stake_batch_receipts.insert(
        contract.state.batch_id_sequence,
        RedeemStakeBatchReceipt::new(YOCTO.into(), contract.state.stake_token_value),
    );

    let paid = contract.withdraw_all(&mut account).unwrap();
    // Assert that the account NEAR balance was debited
    assert_eq!(paid, YoctoNear(YOCTO));
    assert!(account.account.near.is_none());
    assert!(account.account.redeem_stake_batch.is_none());
}

#[test]
fn staking_service_with_no_near_funds() {
    let mut contract = new_contract();
    let mut account = registered_account(1);

    let amount = contract.withdraw_all(&mut account).unwrap();

    assert_eq!(amount.value(), 0);
}

/// Two accounts deposit into the same open stake batch: taking part of one
/// account's deposit back touches neither the other account's batch nor
/// more of the contract's batch than was taken.
#[test]
fn withdrawal_of_one_account_leaves_the_other_alone() {
    let mut contract = new_contract();
    let mut first = registered_account(1);
    let mut second = registered_account(2);
    let batch_id = contract.deposit(&mut first, (10 * YOCTO).into()).unwrap();
    assert_eq!(
        contract.deposit(&mut second, (5 * YOCTO).into()),
        Ok(batch_id)
    );
    let second_before = second.account;

    contract
        .withdraw_from_stake_batch(&mut first, (4 * YOCTO).into())
        .unwrap();

    assert_eq!(second.account, second_before);
    assert_eq!(
        first.account.stake_batch.unwrap().balance().amount(),
        (6 * YOCTO).into()
    );
    let contract_batch = contract.state.stake_batch.unwrap();
    assert_eq!(contract_batch.id(), batch_id);
    assert_eq!(
        contract_batch.balance().amount().value(),
        first.account.stake_batch.unwrap().balance().amount().value()
            + second.account.stake_batch.unwrap().balance().amount().value()
    );

    contract.withdraw_all_from_stake_batch(&mut first).unwrap();
    assert_eq!(second.account, second_before);
    assert_eq!(
        contract.state.stake_batch.unwrap().balance().amount(),
        second.account.stake_batch.unwrap().balance().amount()
    );
}
