//! How the contracts of the operations are phrased.

use crate::contract::claims::claim_receipt_funds_spec;
use crate::contract::state::{ContractState, ContractView};
use crate::domain::account::Account;
use crate::errors::Error;
use vstd::prelude::*;

verus! {

/// What an operation on the contract and one account comes to: the contract
/// and the account afterwards and what the operation returns, or the
/// reason for which it is refused.
pub type Outcome<T> = Result<(ContractView, Account, T), Error>;

/// What an operation on the contract's state and one account comes to.
pub type StateOutcome<T> = Result<(ContractState, Account, T), Error>;

/// Whether the values after an operation are those that `outcome` names.
/// A refused operation returns the reason and leaves the contract and the
/// account as they were.
pub open spec fn meets<T>(
    outcome: Outcome<T>,
    res: Result<T, Error>,
    before: ContractView,
    account_before: Account,
    after: ContractView,
    account_after: Account,
) -> bool {
    match outcome {
        Ok((contract, account, value)) => res == Ok::<T, Error>(value) && after == contract
            && account_after == account,
        Err(e) => res == Err::<T, Error>(e) && after == before && account_after == account_before,
    }
}

/// Whether the values after an operation on the state are those that
/// `outcome` names.
pub open spec fn state_meets<T>(
    outcome: StateOutcome<T>,
    res: Result<T, Error>,
    before: ContractState,
    account_before: Account,
    after: ContractState,
    account_after: Account,
) -> bool {
    match outcome {
        Ok((state, account, value)) => res == Ok::<T, Error>(value) && after == state
            && account_after == account,
        Err(e) => res == Err::<T, Error>(e) && after == before && account_after == account_before,
    }
}

/// An operation that first settles the account and then takes `step` on
/// the state and the account that the settlement left.
pub open spec fn settled_then<T>(
    contract: ContractView,
    account: Account,
    step: spec_fn(ContractState, Account) -> StateOutcome<T>,
) -> Outcome<T> {
    match claim_receipt_funds_spec(contract, account) {
        Err(e) => Err(e),
        Ok((contract, account, _)) => match step(contract.state, account) {
            Err(e) => Err(e),
            Ok((state, account, value)) => Ok((ContractView { state, ..contract }, account, value)),
        },
    }
}

} // verus!
