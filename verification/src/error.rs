//! The error taxonomy of the lending engine.
//!
//! Every operation aborts as a whole: a function that returns one of these
//! errors leaves every piece of state it was handed exactly as it was.

use vstd::prelude::*;

verus! {

/// Why a lending operation was refused.
#[derive(Clone, Copy, Debug, PartialEq, Eq, Structural)]
pub enum LendingError {
    /// A withdrawal asked for more than the position holds or is worth.
    InsufficientFunds,
    /// A borrow asked for more than the collateral supports.
    OverBorrowableAmount,
    /// A repayment exceeded the accrued debt of the position.
    OverRepay,
    /// A decrement of a balance or share count would underflow.
    InsufficientBalance,
    /// A flash loan asked for more than the pool treasury holds.
    InsufficientLiquidity,
    /// A checked computation on amounts, shares or rates overflowed.
    MathOverflow,
    /// The caller is not the authority of the pool.
    Unauthorized,
    /// An oracle price was stale or unavailable.
    OracleError,
    /// The position is healthy, so liquidation is not allowed.
    HealthFactorAboveOne,
    /// Creating a proposal or voting requires nonzero deposit shares.
    InsufficientStake,
    /// A vote arrived at or after the end of the voting window.
    VotingEnded,
    /// An execution arrived before the end of the voting window.
    VotingNotEnded,
    /// The proposal did not gather more votes for than against.
    ProposalDefeated,
    /// The flash loan record is not active.
    FlashLoanNotActive,
    /// Only the borrower of a flash loan may repay it.
    UnauthorizedFlashLoan,
    /// A flash loan must be repaid in the atomic unit that opened it.
    FlashLoanMustBeRepaidInSameUnit,
    /// The borrower cannot cover principal plus fee.
    InsufficientBalanceForRepayment,
}

impl LendingError {
    /// A short description of the error, for hosts that report it.
    pub fn message(&self) -> (r: &'static str) {
        match self {
            LendingError::InsufficientFunds => "insufficient funds",
            LendingError::OverBorrowableAmount => "over borrowable amount",
            LendingError::OverRepay => "repayment exceeds debt",
            LendingError::InsufficientBalance => "insufficient balance",
            LendingError::InsufficientLiquidity => "insufficient liquidity",
            LendingError::MathOverflow => "math overflow",
            LendingError::Unauthorized => "unauthorized",
            LendingError::OracleError => "oracle price error",
            LendingError::HealthFactorAboveOne => "health factor above one",
            LendingError::InsufficientStake => "insufficient stake",
            LendingError::VotingEnded => "voting period has ended",
            LendingError::VotingNotEnded => "voting period has not ended",
            LendingError::ProposalDefeated => "proposal was defeated",
            LendingError::FlashLoanNotActive => "flash loan is not active",
            LendingError::UnauthorizedFlashLoan => "unauthorized flash loan repayment",
            LendingError::FlashLoanMustBeRepaidInSameUnit => {
                "flash loan must be repaid in the same atomic unit"
            },
            LendingError::InsufficientBalanceForRepayment => {
                "insufficient balance for flash loan repayment"
            },
        }
    }
}

} // verus!
