use vstd::prelude::*;

verus! {

/// The four families that every [`Error`] belongs to.
#[derive(Clone, Copy, Debug, PartialEq, Eq, Structural)]
pub enum ErrorKind {
    /// The request itself is not acceptable; nothing was changed.
    Validation,
    /// The request is blocked by a round that is in flight.
    LockConflict,
    /// A state was found that the engine never produces.
    IllegalState,
    /// The staking venue reported a failed call.
    ExternalCallFailure,
}

/// Names the gas setting that a configuration error is about.
#[derive(Clone, Copy, Debug, PartialEq, Eq, Structural)]
pub enum GasField {
    StakingPoolGetAccount,
    StakingPoolDepositAndStake,
    StakingPoolDeposit,
    StakingPoolStake,
    StakingPoolUnstake,
    StakingPoolWithdraw,
    CallbackOnRunStakeBatch,
    CallbackOnDepositAndStake,
    CallbackOnUnstake,
    CallbackUnlock,
    CallbackOnRunRedeemStakeBatch,
    CallbackOnRedeemingStakePendingWithdrawal,
    CallbackOnRedeemingStakePostWithdrawal,
}

/// Why an operation was refused. A refused operation leaves every value it
/// was handed exactly as it found it.
#[derive(Clone, Copy, Debug, PartialEq, Eq, Structural)]
pub enum Error {
    /// A deposit of zero was offered for staking.
    DepositRequiredForStake,
    /// The account's batched deposit would mint too few shares.
    MinimumDepositRequired,
    /// A transfer of zero shares was asked for.
    ZeroTransferAmount,
    /// A redemption of zero shares was asked for.
    ZeroRedeemAmount,
    /// The account owns fewer shares than it asked to redeem.
    InsufficientStakeForRedeemRequest,
    /// The account has no NEAR balance to debit.
    AccountHasZeroNearBalance,
    /// The account's NEAR balance is below the debit.
    AccountNearBalanceTooLow,
    /// The account has no share balance to debit.
    AccountHasZeroStakeBalance,
    /// The account's share balance is below the debit.
    AccountStakeBalanceTooLow,
    /// A balance is below the debit.
    BalanceTooLow,
    /// More was asked out of a batch than it holds.
    BatchBalanceInsufficient,
    /// The account has no deposit waiting in a stake batch.
    NoFundsInStakeBatchToWithdraw,
    /// There is no redeem batch to run.
    NoRedeemStakeBatchToRun,
    /// The owner's share of the earnings is not a percentage.
    EarningsPercentageOutOfRange,
    /// The storage price per byte was set to zero.
    StorageCostPerByteZero,
    /// A gas setting lies outside the range allowed for it.
    GasOutOfRange(GasField),
    /// A callback's gas does not cover the calls that it makes.
    GasBudgetTooLow(GasField),
    /// A round of one of the two kinds is in flight.
    BlockedByBatchRunning,
    /// The exchange rate is being refreshed.
    BlockedByStakeTokenValueRefresh,
    /// A stake batch was expected and is missing.
    StakeBatchShouldExist,
    /// A redeem batch was expected and is missing.
    RedeemStakeBatchShouldExist,
    /// The receipt of the batch that awaits withdrawal is missing.
    RedeemStakeBatchReceiptShouldExist,
    /// A stake round was continued that is not on its way to the venue.
    StakeLockShouldBeStaking,
    /// A stake round was to be finished that is not in its last phase.
    StakeLockShouldBeStaked,
    /// The withdrawal of a redeem round was continued while none is awaited.
    RedeemLockShouldBePendingWithdrawal,
    /// A redeem round was continued that is not in the phase it must be in.
    RedeemLockShouldBeUnstaking,
    /// The batch that an account holds is not the contract's batch of that slot.
    BatchIdMismatch,
    /// A receipt holds less than an account claims from it.
    ReceiptBalanceTooLow,
    /// The share value fell while no share stands against the staked NEAR,
    /// so that no amount of NEAR can make up for it.
    StakeTokenValueDecreased,
    /// The liquidity pool holds less than must be drawn from it.
    NearLiquidityPoolTooLow,
    /// Every batch number has been used.
    BatchIdSequenceExhausted,
    /// The venue holds unstaked NEAR that it does not release yet.
    UnstakedFundsNotAvailableForWithdrawal,
    /// An amount left the range of 128 bits.
    BalanceOverflow,
    /// The staking venue reported that a call failed.
    StakingPoolCallFailed,
}

impl Error {
    /// The family of the error.
    pub open spec fn kind_spec(&self) -> ErrorKind {
        match *self {
            Error::DepositRequiredForStake
            | Error::MinimumDepositRequired
            | Error::ZeroTransferAmount
            | Error::ZeroRedeemAmount
            | Error::InsufficientStakeForRedeemRequest
            | Error::AccountHasZeroNearBalance
            | Error::AccountNearBalanceTooLow
            | Error::AccountHasZeroStakeBalance
            | Error::AccountStakeBalanceTooLow
            | Error::BalanceTooLow
            | Error::BatchBalanceInsufficient
            | Error::NoFundsInStakeBatchToWithdraw
            | Error::NoRedeemStakeBatchToRun
            | Error::EarningsPercentageOutOfRange
            | Error::StorageCostPerByteZero
            | Error::GasOutOfRange(_)
            | Error::GasBudgetTooLow(_) => ErrorKind::Validation,
            Error::BlockedByBatchRunning
            | Error::BlockedByStakeTokenValueRefresh
            | Error::UnstakedFundsNotAvailableForWithdrawal => ErrorKind::LockConflict,
            Error::StakeBatchShouldExist
            | Error::RedeemStakeBatchShouldExist
            | Error::RedeemStakeBatchReceiptShouldExist
            | Error::StakeLockShouldBeStaking
            | Error::StakeLockShouldBeStaked
            | Error::RedeemLockShouldBePendingWithdrawal
            | Error::StakeTokenValueDecreased
            | Error::NearLiquidityPoolTooLow
            | Error::BatchIdSequenceExhausted
            | Error::RedeemLockShouldBeUnstaking
            | Error::BatchIdMismatch
            | Error::ReceiptBalanceTooLow
            | Error::BalanceOverflow => ErrorKind::IllegalState,
            Error::StakingPoolCallFailed => ErrorKind::ExternalCallFailure,
        }
    }

    /// The family of the error.
    #[verifier::when_used_as_spec(kind_spec)]
    pub fn kind(&self) -> (kind: ErrorKind)
        ensures
            kind == self.kind_spec(),
    {
        match self {
            Error::DepositRequiredForStake
            | Error::MinimumDepositRequired
            | Error::ZeroTransferAmount
            | Error::ZeroRedeemAmount
            | Error::InsufficientStakeForRedeemRequest
            | Error::AccountHasZeroNearBalance
            | Error::AccountNearBalanceTooLow
            | Error::AccountHasZeroStakeBalance
            | Error::AccountStakeBalanceTooLow
            | Error::BalanceTooLow
            | Error::BatchBalanceInsufficient
            | Error::NoFundsInStakeBatchToWithdraw
            | Error::NoRedeemStakeBatchToRun
            | Error::EarningsPercentageOutOfRange
            | Error::StorageCostPerByteZero
            | Error::GasOutOfRange(_)
            | Error::GasBudgetTooLow(_) => ErrorKind::Validation,
            Error::BlockedByBatchRunning
            | Error::BlockedByStakeTokenValueRefresh
            | Error::UnstakedFundsNotAvailableForWithdrawal => ErrorKind::LockConflict,
            Error::StakeBatchShouldExist
            | Error::RedeemStakeBatchShouldExist
            | Error::RedeemStakeBatchReceiptShouldExist
            | Error::StakeLockShouldBeStaking
            | Error::StakeLockShouldBeStaked
            | Error::RedeemLockShouldBePendingWithdrawal
            | Error::StakeTokenValueDecreased
            | Error::NearLiquidityPoolTooLow
            | Error::BatchIdSequenceExhausted
            | Error::RedeemLockShouldBeUnstaking
            | Error::BatchIdMismatch
            | Error::ReceiptBalanceTooLow
            | Error::BalanceOverflow => ErrorKind::IllegalState,
            Error::StakingPoolCallFailed => ErrorKind::ExternalCallFailure,
        }
    }

    /// The words in which the error is reported, as a sequence of characters.
    pub open spec fn message_spec(&self) -> Seq<char> {
        match *self {
            Error::DepositRequiredForStake => "deposit is required in order to stake"@,
            Error::MinimumDepositRequired => "minimum required NEAR deposit is not met"@,
            Error::ZeroTransferAmount => "amount must not be zero"@,
            Error::ZeroRedeemAmount => "redeem amount must not be zero"@,
            Error::InsufficientStakeForRedeemRequest => "account STAKE balance is insufficient to fulfill request"@,
            Error::AccountHasZeroNearBalance => "account has zero NEAR balance"@,
            Error::AccountNearBalanceTooLow => "account NEAR balance is too low to fulfill request"@,
            Error::AccountHasZeroStakeBalance => "account has zero STAKE balance"@,
            Error::AccountStakeBalanceTooLow => "account STAKE balance is too low to fulfill request"@,
            Error::BalanceTooLow => "balance is too low to fulfill request"@,
            Error::BatchBalanceInsufficient => "batch balance is insufficient to fulfill request"@,
            Error::NoFundsInStakeBatchToWithdraw => "there are no funds in stake batch"@,
            Error::NoRedeemStakeBatchToRun => "there is no redeem stake batch"@,
            Error::EarningsPercentageOutOfRange => "contract owner earnings percentage must be within 0 - 100"@,
            Error::StorageCostPerByteZero => "storage_cost_per_byte must be > 0"@,
            Error::GasOutOfRange(_) => "gas is outside the range allowed for the call"@,
            Error::GasBudgetTooLow(_) => "callback gas does not cover the calls that the callback makes"@,
            Error::BlockedByBatchRunning => "action is blocked because a batch is running"@,
            Error::BlockedByStakeTokenValueRefresh => "action is blocked because STAKE token value is being refreshed"@,
            Error::StakeBatchShouldExist => "ILLEGAL STATE : stake batch should exist"@,
            Error::RedeemStakeBatchShouldExist => "ILLEGAL STATE : redeem stake batch should exist"@,
            Error::RedeemStakeBatchReceiptShouldExist => "ILLEGAL STATE : redeem stake batch receipt should exist"@,
            Error::StakeLockShouldBeStaking => "ILLEGAL STATE : stake lock should be staking"@,
            Error::StakeLockShouldBeStaked => "ILLEGAL STATE : stake lock should be staked"@,
            Error::RedeemLockShouldBePendingWithdrawal => "ILLEGAL STATE : redeem lock should be pending withdrawal"@,
            Error::StakeTokenValueDecreased => "ILLEGAL STATE : STAKE token value decreased"@,
            Error::NearLiquidityPoolTooLow => "ILLEGAL STATE : liquidity pool balance is too low"@,
            Error::BatchIdSequenceExhausted => "ILLEGAL STATE : batch ID sequence is exhausted"@,
            Error::UnstakedFundsNotAvailableForWithdrawal => "unstaked NEAR funds are not yet available for withdrawal"@,
            Error::RedeemLockShouldBeUnstaking => "ILLEGAL STATE : redeem lock should be unstaking"@,
            Error::BatchIdMismatch => "ILLEGAL STATE : account batch does not match contract batch"@,
            Error::ReceiptBalanceTooLow => "ILLEGAL STATE : receipt balance is lower than the claim"@,
            Error::BalanceOverflow => "ILLEGAL STATE : balance overflow"@,
            Error::StakingPoolCallFailed => "staking pool call failed"@,
        }
    }

    /// The words in which the error is reported.
    pub fn message(&self) -> (message: &'static str)
        ensures
            message@ == self.message_spec(),
    {
        match self {
            Error::DepositRequiredForStake => "deposit is required in order to stake",
            Error::MinimumDepositRequired => "minimum required NEAR deposit is not met",
            Error::ZeroTransferAmount => "amount must not be zero",
            Error::ZeroRedeemAmount => "redeem amount must not be zero",
            Error::InsufficientStakeForRedeemRequest => "account STAKE balance is insufficient to fulfill request",
            Error::AccountHasZeroNearBalance => "account has zero NEAR balance",
            Error::AccountNearBalanceTooLow => "account NEAR balance is too low to fulfill request",
            Error::AccountHasZeroStakeBalance => "account has zero STAKE balance",
            Error::AccountStakeBalanceTooLow => "account STAKE balance is too low to fulfill request",
            Error::BalanceTooLow => "balance is too low to fulfill request",
            Error::BatchBalanceInsufficient => "batch balance is insufficient to fulfill request",
            Error::NoFundsInStakeBatchToWithdraw => "there are no funds in stake batch",
            Error::NoRedeemStakeBatchToRun => "there is no redeem stake batch",
            Error::EarningsPercentageOutOfRange => "contract owner earnings percentage must be within 0 - 100",
            Error::StorageCostPerByteZero => "storage_cost_per_byte must be > 0",
            Error::GasOutOfRange(_) => "gas is outside the range allowed for the call",
            Error::GasBudgetTooLow(_) => "callback gas does not cover the calls that the callback makes",
            Error::BlockedByBatchRunning => "action is blocked because a batch is running",
            Error::BlockedByStakeTokenValueRefresh => "action is blocked because STAKE token value is being refreshed",
            Error::StakeBatchShouldExist => "ILLEGAL STATE : stake batch should exist",
            Error::RedeemStakeBatchShouldExist => "ILLEGAL STATE : redeem stake batch should exist",
            Error::RedeemStakeBatchReceiptShouldExist => "ILLEGAL STATE : redeem stake batch receipt should exist",
            Error::StakeLockShouldBeStaking => "ILLEGAL STATE : stake lock should be staking",
            Error::StakeLockShouldBeStaked => "ILLEGAL STATE : stake lock should be staked",
            Error::RedeemLockShouldBePendingWithdrawal => "ILLEGAL STATE : redeem lock should be pending withdrawal",
            Error::StakeTokenValueDecreased => "ILLEGAL STATE : STAKE token value decreased",
            Error::NearLiquidityPoolTooLow => "ILLEGAL STATE : liquidity pool balance is too low",
            Error::BatchIdSequenceExhausted => "ILLEGAL STATE : batch ID sequence is exhausted",
            Error::UnstakedFundsNotAvailableForWithdrawal => "unstaked NEAR funds are not yet available for withdrawal",
            Error::RedeemLockShouldBeUnstaking => "ILLEGAL STATE : redeem lock should be unstaking",
            Error::BatchIdMismatch => "ILLEGAL STATE : account batch does not match contract batch",
            Error::ReceiptBalanceTooLow => "ILLEGAL STATE : receipt balance is lower than the claim",
            Error::BalanceOverflow => "ILLEGAL STATE : balance overflow",
            Error::StakingPoolCallFailed => "staking pool call failed",
        }
    }
}

} // verus!
