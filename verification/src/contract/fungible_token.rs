//! Moving shares between accounts.

use crate::contract::claims::{with_near, with_stake};
use crate::contract::state::Contract;
use crate::domain::account::Account;
use crate::domain::balance::StakeBalance;
use crate::domain::block_time_height::BlockTimeHeight;
use crate::domain::stake_token_value::StakeTokenValue;
use crate::domain::yocto_near::YoctoNear;
use crate::domain::yocto_stake::YoctoStake;
use crate::errors::Error;
use crate::interface::fungible_token::TokenAmount;
use vstd::prelude::*;

verus! {

/// The account with `amount` shares taken from its balance; a balance that
/// reaches zero is dropped.
pub open spec fn without_stake(account: Account, amount: int) -> Account {
    Account {
        stake: if account.stake_amount() == amount {
            None
        } else {
            Some(StakeBalance { amount: YoctoStake((account.stake_amount() - amount) as u128) })
        },
        ..account
    }
}

/// What [`ft_transfer`] makes of the sender and the receiver.
///
/// The shares move from the sender to the receiver. The one unit of NEAR
/// that comes attached to every transfer is credited to the sender.
pub open spec fn ft_transfer_spec(sender: Account, receiver: Account, amount: TokenAmount) -> Result<
    (Account, Account),
    Error,
> {
    if amount.0 == 0 {
        Err(Error::ZeroTransferAmount)
    } else if sender.stake is None {
        Err(Error::AccountHasZeroStakeBalance)
    } else if sender.stake_amount() < amount.0 {
        Err(Error::AccountStakeBalanceTooLow)
    } else if sender.near_amount() + 1 > u128::MAX || receiver.stake_amount() + amount.0
        > u128::MAX {
        Err(Error::BalanceOverflow)
    } else {
        Ok(
            (
                with_near(without_stake(sender, amount.0 as int), sender.near_amount() + 1),
                with_stake(receiver, receiver.stake_amount() + amount.0),
            ),
        )
    }
}

/// Transfers `amount` shares from the sender to the receiver. A refusal
/// leaves both accounts as they were.
pub fn ft_transfer(sender: &mut Account, receiver: &mut Account, amount: TokenAmount) -> (res: Result<
    (),
    Error,
>)
    ensures
        match ft_transfer_spec(*old(sender), *old(receiver), amount) {
            Ok((sender_after, receiver_after)) => res.is_ok() && *final(sender) == sender_after
                && *final(receiver) == receiver_after,
            Err(e) => res == Err::<(), Error>(e) && *final(sender) == *old(sender) && *final(receiver) == *old(receiver),
        },
{
    if amount.0 == 0 {
        return Err(Error::ZeroTransferAmount);
    }
    let mut debited = *sender;
    debited.apply_stake_debit(YoctoStake(amount.0))?;
    debited.apply_near_credit(YoctoNear(1))?;
    let mut credited = *receiver;
    credited.apply_stake_credit(YoctoStake(amount.0))?;
    *sender = debited;
    *receiver = credited;
    Ok(())
}

/// The shares that go back to the sender after the receiver of a transfer
/// has reported `unused` of `amount` shares as not used: no more than was
/// sent, and no more than the receiver still owns.
pub open spec fn refund_amount(receiver: Account, amount: TokenAmount, unused: TokenAmount) -> int {
    let unused = if unused.0 > amount.0 {
        amount.0
    } else {
        unused.0
    };
    if receiver.stake is None {
        0
    } else if receiver.stake_amount() < unused {
        receiver.stake_amount()
    } else {
        unused as int
    }
}

/// What [`ft_resolve_transfer_call`] makes of the sender and the receiver.
pub open spec fn ft_resolve_transfer_call_spec(
    sender: Account,
    receiver: Account,
    amount: TokenAmount,
    unused: TokenAmount,
) -> Result<(Account, Account, TokenAmount), Error> {
    let refund = refund_amount(receiver, amount, unused);
    if unused.0 == 0 || amount.0 == 0 || receiver.stake is None {
        Ok((sender, receiver, TokenAmount(0)))
    } else if sender.stake_amount() + refund > u128::MAX {
        Err(Error::BalanceOverflow)
    } else {
        Ok(
            (
                with_stake(sender, sender.stake_amount() + refund),
                without_stake(receiver, refund),
                TokenAmount(refund as u128),
            ),
        )
    }
}

/// Settles a transfer after the contract that received it has answered:
/// moves the shares that it did not use back to the sender and returns how
/// many those were. `unused` is the receiver's answer, and zero where its
/// call failed. A refusal leaves both accounts as they were.
pub fn ft_resolve_transfer_call(
    sender: &mut Account,
    receiver: &mut Account,
    amount: TokenAmount,
    unused: TokenAmount,
) -> (res: Result<TokenAmount, Error>)
    ensures
        match ft_resolve_transfer_call_spec(*old(sender), *old(receiver), amount, unused) {
            Ok((sender_after, receiver_after, refund)) => res == Ok::<TokenAmount, Error>(refund)
                && *final(sender) == sender_after && *final(receiver) == receiver_after,
            Err(e) => res == Err::<TokenAmount, Error>(e) && *final(sender) == *old(sender)
                && *final(receiver) == *old(receiver),
        },
{
    let unused = if unused.0 > amount.0 {
        amount
    } else {
        unused
    };
    if unused.0 == 0 {
        return Ok(TokenAmount(0));
    }
    let balance = match receiver.stake {
        Some(balance) => balance,
        None => { return Ok(TokenAmount(0)); },
    };
    let refund = if balance.amount.0 < unused.0 {
        balance.amount
    } else {
        YoctoStake(unused.0)
    };
    let mut credited = *sender;
    credited.apply_stake_credit(refund)?;
    let mut debited = *receiver;
    debited.apply_stake_debit(refund)?;
    *sender = credited;
    *receiver = debited;
    Ok(TokenAmount(refund.0))
}

/// The shares that an account owns, zero for an account that is not registered.
pub fn ft_balance_of(account: Option<Account>) -> (balance: TokenAmount)
    ensures
        balance.0 == (match account {
            Some(account) => account.stake_amount(),
            None => 0,
        }),
{
    match account {
        Some(account) => match account.stake {
            Some(balance) => TokenAmount(balance.amount.0),
            None => TokenAmount(0),
        },
        None => TokenAmount(0),
    }
}

impl Contract {
    /// All the shares that were issued and not redeemed.
    pub fn ft_total_supply(&self) -> (supply: TokenAmount)
        ensures
            supply.0 == self@.state.total_stake.amount.0,
    {
        TokenAmount(self.state.total_stake.amount.0)
    }

    /// The share value that a staked balance reported by the venue makes
    /// with the shares that are issued, as of `moment`.
    pub fn on_get_account_staked_balance(&self, staked_balance: YoctoNear, moment: BlockTimeHeight) -> (value:
        StakeTokenValue)
        ensures
            value == StakeTokenValue::new_spec(
                moment,
                staked_balance,
                self@.state.total_stake.amount,
            ),
    {
        StakeTokenValue::new(moment, staked_balance, self.state.total_stake.amount)
    }
}

} // verus!
