use near_stake_token::config::Config;
use near_stake_token::contract::stake_workflow::{ActionOrValue, RefreshAction, StakeAction};
use near_stake_token::contract::Contract;
use near_stake_token::domain::{
    Account, BatchId, BlockHeight, BlockTimeHeight, BlockTimestamp, EpochHeight, RedeemLock,
    RegisteredAccount, StakeLock, StakingPoolAccount, YoctoNear,
};
use near_stake_token::errors::{Error, ErrorKind};
use near_stake_token::math::YOCTO;

fn new_contract() -> Contract {
    Contract::new(Config::default())
}

fn registered_account(key: u8) -> RegisteredAccount {
    RegisteredAccount {
        account: Account::new(YoctoNear(YOCTO)),
        id: [key; 32],
    }
}

fn now() -> BlockTimeHeight {
    BlockTimeHeight::new(BlockHeight(10), BlockTimestamp(1_000), EpochHeight(1))
}

fn check_stake_batch(
    contract: &Contract,
    account: &RegisteredAccount,
    batch_id: BatchId,
    expected_balance: YoctoNear,
) {
    // check account stake batch
    let account = contract
        .apply_receipt_funds_for_view(&account.account)
        .unwrap();
    let account_stake_batch = account.stake_batch.unwrap();
    assert_eq!(
        account_stake_batch.balance().amount().value(),
        expected_balance.value()
    );
    assert_eq!(account_stake_batch.id(), batch_id);
    assert!(account.next_stake_batch.is_none());

    // check contract state
    let contract_stake_batch = contract.state.stake_batch.unwrap();
    assert_eq!(contract_stake_batch.balance(), account_stake_batch.balance());
    assert!(contract.state.next_stake_batch.is_none());
}

/// Given the contract is not locked
/// When an account deposits funds to be staked
/// Then the funds are deposited into the current stake batch on the account
/// And the funds are deposited into the current stake batch on the contract
#[test]
fn when_contract_not_locked() {
    let mut contract = new_contract();
    let mut account = registered_account(1);

    let batch_id = contract.deposit(&mut account, YOCTO.into()).unwrap();
    check_stake_batch(&contract, &account, batch_id, YOCTO.into());

    // user makes another deposit into same StakeBatch
    let batch_id_2 = contract.deposit(&mut account, YOCTO.into()).unwrap();
    assert_eq!(
        batch_id, batch_id_2,
        "NEAR should have been deposited into same batch"
    );
    check_stake_batch(&contract, &account, batch_id_2, (2 * YOCTO).into());
}

/// Given the contract is locked
/// When an account deposits funds to be staked
/// Then the funds are deposited into the next stake batch on the account
/// And the funds are deposited into the next stake batch on the contract
#[test]
fn when_contract_locked() {
    let mut contract = new_contract();
    let mut account = registered_account(1);

    let batch_id = contract.deposit(&mut account, YOCTO.into()).unwrap();
    contract.stake(now()).unwrap(); // locks the contract

    let batch_id_2 = contract
        .deposit(&mut account, (2 * YOCTO).into())
        .unwrap();
    assert_ne!(batch_id, batch_id_2);

    {
        // check account STAKE batches
        let account = contract
            .apply_receipt_funds_for_view(&account.account)
            .unwrap();

        let stake_batch = account.stake_batch.unwrap();
        assert_eq!(stake_batch.balance().amount().value(), YOCTO);
        assert_eq!(stake_batch.id(), batch_id);

        let next_stake_batch = account.next_stake_batch.unwrap();
        assert_eq!(next_stake_batch.balance().amount().value(), 2 * YOCTO);
        assert_eq!(next_stake_batch.id(), batch_id_2);

        let contract_stake_batch = contract.state.stake_batch.unwrap();
        assert_eq!(contract_stake_batch.id(), stake_batch.id());
        assert_eq!(
            contract_stake_batch.balance().amount(),
            stake_batch.balance().amount()
        );

        let contract_next_stake_batch = contract.state.next_stake_batch.unwrap();
        assert_eq!(contract_next_stake_batch.id(), next_stake_batch.id());
        assert_eq!(
            contract_next_stake_batch.balance().amount(),
            next_stake_batch.balance().amount()
        );
    }

    // When another account deposits, then funds should go into next StakeBatch
    let mut user_2 = registered_account(2);
    let batch_id_3 = contract.deposit(&mut user_2, (3 * YOCTO).into()).unwrap();

    {
        assert_eq!(batch_id_3, batch_id_2);
        let account = contract
            .apply_receipt_funds_for_view(&user_2.account)
            .unwrap();

        assert!(account.stake_batch.is_none());

        let next_stake_batch = account.next_stake_batch.unwrap();
        assert_eq!(next_stake_batch.balance().amount().value(), 3 * YOCTO);
        assert_eq!(next_stake_batch.id(), batch_id_3);

        let contract_next_stake_batch = contract.state.next_stake_batch.unwrap();
        assert_eq!(contract_next_stake_batch.id(), next_stake_batch.id());
        assert_eq!(
            contract_next_stake_batch.balance().amount().value(),
            5 * YOCTO
        );
    }
}

#[test]
#[should_panic(expected = "minimum required NEAR deposit is")]
fn deposit_lt_min_required_deposit() {
    let mut contract = new_contract();
    let mut account = registered_account(1);

    let amount = contract.min_required_near_deposit().unwrap().value() - 1;
    let before = account.account;
    let err = contract.deposit(&mut account, amount.into()).unwrap_err();
    assert_eq!(err, Error::MinimumDepositRequired);
    assert_eq!(err.kind(), ErrorKind::Validation);
    assert_eq!(account.account, before);
    assert!(contract.state.stake_batch.is_none());
    assert_eq!(contract.state.batch_id_sequence, BatchId(0));
    panic!("{}", err.message());
}

#[test]
fn deposit_eq_min_required_deposit() {
    let mut contract = new_contract();
    let mut account = registered_account(1);

    let amount = contract.min_required_near_deposit().unwrap().value();
    assert_eq!(amount, 1000);
    contract.deposit(&mut account, amount.into()).unwrap();
}

#[test]
fn with_receipts_to_claim() {
    let mut contract = new_contract();
    let mut account = registered_account(1);

    let batch_id = contract.deposit(&mut account, YOCTO.into()).unwrap();
    contract.stake(now()).unwrap();

    // progress the staking workflow to completion
    {
        contract
            .on_deposit_and_stake(
                None,
                StakingPoolAccount {
                    unstaked_balance: 7.into(),
                    staked_balance: (YOCTO - 7).into(),
                    can_withdraw: true,
                },
            )
            .unwrap();
        contract.process_staked_batch(now()).unwrap();
        contract.clear_stake_lock();
    }

    // at this point, the user should have unclaimed batch receipt funds
    let receipt = contract.stake_batch_receipt(batch_id).unwrap();
    assert_eq!(receipt.staked_near(), YOCTO.into());

    contract
        .deposit(&mut account, (2 * YOCTO).into())
        .unwrap();

    assert_eq!(account.account.stake.unwrap().amount().value(), YOCTO);

    // check receipt was claimed
    assert!(contract.stake_batch_receipt(batch_id).is_none());
}

#[test]
fn zero_deposit_is_refused() {
    let mut contract = new_contract();
    let mut account = registered_account(1);
    assert_eq!(
        contract.deposit(&mut account, YoctoNear(0)),
        Err(Error::DepositRequiredForStake)
    );
    assert_eq!(
        contract.deposit_near_for_account_to_stake(&mut account, YoctoNear(0)),
        Err(Error::DepositRequiredForStake)
    );
    assert_eq!(
        contract.deposit_and_stake(&mut account, YoctoNear(0)),
        Err(Error::DepositRequiredForStake)
    );
}

#[test]
fn deposit_into_a_batch_of_another_number_is_refused() {
    let mut contract = new_contract();
    let mut account = registered_account(1);
    contract.deposit(&mut account, YOCTO.into()).unwrap();
    // the account holds a batch that is not the contract's current batch
    contract.state.stake_batch = Some(BatchId(77).new_stake_batch());

    let before = account.account;
    let err = contract.deposit(&mut account, YOCTO.into()).unwrap_err();
    assert_eq!(err, Error::BatchIdMismatch);
    assert_eq!(err.kind(), ErrorKind::IllegalState);
    assert_eq!(account.account, before);
    assert_eq!(
        contract.state.stake_batch,
        Some(BatchId(77).new_stake_batch())
    );
}

#[test]
fn batch_ids_are_issued_in_increasing_order_across_kinds() {
    let mut contract = new_contract();
    let mut account = registered_account(1);

    let first = contract.deposit(&mut account, YOCTO.into()).unwrap();
    account.account.apply_stake_credit(YOCTO.into()).unwrap();
    let second = contract
        .redeem_stake_for_account(&mut account, YOCTO.into())
        .unwrap();
    contract.state.stake_batch_lock = Some(StakeLock::Staking);
    let third = contract.deposit(&mut account, YOCTO.into()).unwrap();
    contract.state.redeem_stake_batch_lock = Some(RedeemLock::Unstaking);
    account.account.apply_stake_credit(YOCTO.into()).unwrap();
    let fourth = contract
        .redeem_stake_for_account(&mut account, YOCTO.into())
        .unwrap();
    let fifth = contract.new_stake_batch().unwrap().id();
    let sixth = contract.new_redeem_stake_batch().unwrap().id();

    assert_eq!(
        vec![first, second, third, fourth, fifth, sixth],
        vec![
            BatchId(1),
            BatchId(2),
            BatchId(3),
            BatchId(4),
            BatchId(5),
            BatchId(6)
        ]
    );
    assert_eq!(contract.state.batch_id_sequence, BatchId(6));

    contract.state.batch_id_sequence = BatchId(u128::MAX);
    assert_eq!(
        contract.new_stake_batch(),
        Err(Error::BatchIdSequenceExhausted)
    );
    assert_eq!(
        contract.new_redeem_stake_batch(),
        Err(Error::BatchIdSequenceExhausted)
    );
    assert_eq!(contract.state.batch_id_sequence, BatchId(u128::MAX));
}

#[test]
fn is_current() {
    let mut contract = new_contract();
    contract.state.total_stake.credit(YOCTO.into()).unwrap();
    let moment = BlockTimeHeight::new(BlockHeight(1), BlockTimestamp(2), EpochHeight(100));
    contract
        .update_stake_token_value(YOCTO.into(), moment)
        .unwrap();

    let stake_token_value = contract.stake_token_value();

    assert_eq!(
        stake_token_value.block_time_height().epoch_height(),
        EpochHeight(100)
    );
    assert_eq!(stake_token_value.block_time_height(), moment);
}

#[test]
#[should_panic(expected = "action is blocked because a batch is running")]
fn has_staking_lock() {
    let mut contract = new_contract();
    contract.state.stake_batch_lock = Some(StakeLock::Staking);
    let err = contract.refresh_stake_token_value().unwrap_err();
    assert_eq!(err.kind(), ErrorKind::LockConflict);
    panic!("{}", err.message());
}

#[test]
#[should_panic(expected = "action is blocked because a batch is running")]
fn has_staked_lock() {
    let mut contract = new_contract();
    contract.state.stake_batch_lock = Some(StakeLock::Staked {
        near_liquidity: None,
        staked_balance: Default::default(),
        unstaked_balance: Default::default(),
    });
    let err = contract.refresh_stake_token_value().unwrap_err();
    panic!("{}", err.message());
}

#[test]
#[should_panic(expected = "action is blocked because a batch is running")]
fn has_unstaking_lock() {
    let mut contract = new_contract();
    contract.state.redeem_stake_batch_lock = Some(RedeemLock::Unstaking);
    let err = contract.refresh_stake_token_value().unwrap_err();
    panic!("{}", err.message());
}

#[test]
#[should_panic(expected = "action is blocked because STAKE token value is being refreshed")]
fn has_refreshing_stake_token_value_lock() {
    let mut contract = new_contract();
    contract.state.stake_batch_lock = Some(StakeLock::RefreshingStakeTokenValue);
    let err = contract.refresh_stake_token_value().unwrap_err();
    panic!("{}", err.message());
}

#[test]
fn no_locks() {
    let mut contract = new_contract();
    contract.state.total_stake.credit(YOCTO.into()).unwrap();
    let moment = BlockTimeHeight::new(BlockHeight(1), BlockTimestamp(2), EpochHeight(100));
    contract
        .update_stake_token_value(YOCTO.into(), moment)
        .unwrap();

    let action = contract.refresh_stake_token_value().unwrap();

    assert_eq!(action, RefreshAction::PingThenGetAccount);
    assert_eq!(
        contract.state.stake_batch_lock,
        Some(StakeLock::RefreshingStakeTokenValue)
    );

    // while the value is refreshed, no stake round can be started
    assert_eq!(
        contract.stake(now()),
        Err(Error::BlockedByStakeTokenValueRefresh)
    );
    assert!(!contract.can_run_batch());

    let later = BlockTimeHeight::new(BlockHeight(5), BlockTimestamp(6), EpochHeight(101));
    let value = contract
        .on_refresh_stake_token_value(
            StakingPoolAccount {
                unstaked_balance: 0.into(),
                staked_balance: (2 * YOCTO).into(),
                can_withdraw: true,
            },
            later,
        )
        .unwrap();
    assert_eq!(value, contract.stake_token_value());
    assert_eq!(value.total_staked_near_balance(), (2 * YOCTO).into());
    assert_eq!(value.total_stake_supply(), YOCTO.into());
    assert_eq!(value.block_time_height(), later);
    assert_eq!(value.stake_to_near(YOCTO.into()), (2 * YOCTO).into());
    assert!(contract.state.stake_batch_lock.is_none());
}

/// any account can invoke stake
#[test]
fn staking_service_account_not_registered() {
    let mut contract = new_contract();
    let mut account = registered_account(1);
    contract.deposit(&mut account, YOCTO.into()).unwrap();

    // the stake round is started without reference to any account
    let outcome = contract.stake(now()).unwrap();
    assert_eq!(
        outcome,
        ActionOrValue::Action(StakeAction::DepositAndStake {
            amount: YOCTO.into()
        })
    );
}
