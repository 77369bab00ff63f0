use near_stake_token::config::Config;
use near_stake_token::contract::fungible_token::{ft_balance_of, ft_resolve_transfer_call, ft_transfer};
use near_stake_token::contract::Contract;
use near_stake_token::domain::{Account, YoctoNear, YoctoStake};
use near_stake_token::errors::Error;
use near_stake_token::interface::{Memo, TokenAmount, TransferCallData};
use near_stake_token::math::YOCTO;

fn new_contract() -> Contract {
    Contract::new(Config::default())
}

#[test]
fn transfer_ok() {
    let mut contract = new_contract();
    let mut sender = Account::new(YoctoNear(YOCTO));
    let mut receiver = Account::new(YoctoNear(YOCTO));

    assert_eq!(contract.ft_total_supply(), TokenAmount(0));
    assert_eq!(ft_balance_of(Some(sender)), TokenAmount(0));
    assert_eq!(ft_balance_of(Some(receiver)), TokenAmount(0));
    assert_eq!(ft_balance_of(None), TokenAmount(0));

    // credit the sender with STAKE
    let total_supply = YoctoStake(100 * YOCTO);
    sender.apply_stake_credit(total_supply).unwrap();
    contract.state.total_stake.credit(total_supply).unwrap();

    // Act - transfer with no memo
    let transfer_amount = 10 * YOCTO;
    ft_transfer(&mut sender, &mut receiver, TokenAmount(transfer_amount)).unwrap();

    // Assert
    assert_eq!(contract.ft_total_supply().value(), total_supply.value());
    assert_eq!(
        ft_balance_of(Some(sender)).value(),
        total_supply.value() - transfer_amount
    );
    assert_eq!(ft_balance_of(Some(receiver)).value(), transfer_amount);
    assert_eq!(
        sender.near.unwrap().amount().value(),
        1,
        "expected the attached 1 yoctoNEAR for the transfer to be credited to the account's NEAR balance"
    );

    // Act - transfer again
    ft_transfer(&mut sender, &mut receiver, TokenAmount(transfer_amount)).unwrap();
    assert_eq!(
        sender.near.unwrap().amount().value(),
        2,
        "expected the attached 1 yoctoNEAR for the transfer to be credited to the account's NEAR balance"
    );

    // Assert
    assert_eq!(contract.ft_total_supply().value(), total_supply.value());
    assert_eq!(
        ft_balance_of(Some(sender)).value(),
        total_supply.value() - (transfer_amount * 2)
    );
    assert_eq!(ft_balance_of(Some(receiver)).value(), transfer_amount * 2);
}

/// A transfer to a contract moves the shares at once; what the receiver
/// reports as unused comes back when the call is resolved.
#[test]
fn fungible_token_transfer_ok() {
    let mut sender = Account::new(YoctoNear(YOCTO));
    let mut receiver = Account::new(YoctoNear(YOCTO));
    let total_supply = YoctoStake(100 * YOCTO);
    sender.apply_stake_credit(total_supply).unwrap();

    let transfer_amount = 10 * YOCTO;
    ft_transfer(&mut sender, &mut receiver, TokenAmount(transfer_amount)).unwrap();
    assert_eq!(
        ft_balance_of(Some(sender)).value(),
        total_supply.value() - transfer_amount
    );
    assert_eq!(ft_balance_of(Some(receiver)).value(), transfer_amount);
    assert_eq!(sender.near.unwrap().amount().value(), 1);

    // the receiver used all but 3 NEAR worth of shares
    let refund = ft_resolve_transfer_call(
        &mut sender,
        &mut receiver,
        TokenAmount(transfer_amount),
        TokenAmount(3 * YOCTO),
    )
    .unwrap();
    assert_eq!(refund, TokenAmount(3 * YOCTO));
    assert_eq!(ft_balance_of(Some(sender)).value(), 93 * YOCTO);
    assert_eq!(ft_balance_of(Some(receiver)).value(), 7 * YOCTO);
}

#[test]
#[should_panic(expected = "amount must not be zero")]
fn zero_transfer_amount() {
    let mut sender = Account::new(YoctoNear(YOCTO));
    let mut receiver = Account::new(YoctoNear(YOCTO));
    sender.apply_stake_credit(YoctoStake(100 * YOCTO)).unwrap();

    let err = ft_transfer(&mut sender, &mut receiver, TokenAmount(0)).unwrap_err();
    assert_eq!(err, Error::ZeroTransferAmount);
    panic!("{}", err.message());
}

#[test]
#[should_panic(expected = "account STAKE balance is too low to fulfill request")]
fn sender_balance_with_insufficient_funds() {
    let mut sender = Account::new(YoctoNear(YOCTO));
    let mut receiver = Account::new(YoctoNear(YOCTO));
    sender.apply_stake_credit(YoctoStake(YOCTO)).unwrap();
    let sender_before = sender;
    let receiver_before = receiver;

    let err = ft_transfer(&mut sender, &mut receiver, TokenAmount(2 * YOCTO)).unwrap_err();
    assert_eq!(err, Error::AccountStakeBalanceTooLow);
    assert_eq!(sender, sender_before);
    assert_eq!(receiver, receiver_before);
    panic!("{}", err.message());
}

#[test]
fn transfer_without_a_share_balance_is_refused() {
    let mut sender = Account::new(YoctoNear(YOCTO));
    let mut receiver = Account::new(YoctoNear(YOCTO));
    assert_eq!(
        ft_transfer(&mut sender, &mut receiver, TokenAmount(1)),
        Err(Error::AccountHasZeroStakeBalance)
    );
}

#[test]
fn transfer_of_the_whole_balance_drops_it() {
    let mut sender = Account::new(YoctoNear(YOCTO));
    let mut receiver = Account::new(YoctoNear(YOCTO));
    sender.apply_stake_credit(YoctoStake(5)).unwrap();
    ft_transfer(&mut sender, &mut receiver, TokenAmount(5)).unwrap();
    assert!(sender.stake.is_none());
    assert_eq!(receiver.stake.unwrap().amount(), YoctoStake(5));
}

#[test]
fn resolve_transfer_call_refunds_no_more_than_was_sent_or_is_left() {
    let mut sender = Account::new(YoctoNear(YOCTO));
    let mut receiver = Account::new(YoctoNear(YOCTO));
    receiver.apply_stake_credit(YoctoStake(10)).unwrap();

    // nothing unused: nothing moves
    assert_eq!(
        ft_resolve_transfer_call(&mut sender, &mut receiver, TokenAmount(10), TokenAmount(0)),
        Ok(TokenAmount(0))
    );
    assert!(sender.stake.is_none());

    // more reported unused than was sent: the amount sent is refunded
    assert_eq!(
        ft_resolve_transfer_call(&mut sender, &mut receiver, TokenAmount(4), TokenAmount(9)),
        Ok(TokenAmount(4))
    );
    assert_eq!(sender.stake.unwrap().amount(), YoctoStake(4));
    assert_eq!(receiver.stake.unwrap().amount(), YoctoStake(6));

    // the receiver owns less than it reports unused: what it owns is refunded
    assert_eq!(
        ft_resolve_transfer_call(&mut sender, &mut receiver, TokenAmount(20), TokenAmount(8)),
        Ok(TokenAmount(6))
    );
    assert_eq!(sender.stake.unwrap().amount(), YoctoStake(10));
    assert!(receiver.stake.is_none());

    // the receiver has no share balance
    assert_eq!(
        ft_resolve_transfer_call(&mut sender, &mut receiver, TokenAmount(20), TokenAmount(8)),
        Ok(TokenAmount(0))
    );
    assert_eq!(sender.stake.unwrap().amount(), YoctoStake(10));
}

#[test]
fn memo_and_transfer_call_data_carry_their_content() {
    let memo = Memo("invoice 7".to_string());
    assert_eq!(memo.0, "invoice 7");
    let data = TransferCallData(vec![1, 2, 3]);
    assert_eq!(data.clone().0, vec![1, 2, 3]);
    assert_eq!(TokenAmount(7).value(), 7);
}
