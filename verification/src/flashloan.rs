//! The flash loan engine: a borrow, fee and repayment that must all
//! happen inside one atomic execution unit of the host.

use vstd::prelude::*;

use crate::bank::{Bank, FLASH_LOAN_FEE_BASIS_POINTS};
use crate::error::LendingError;
use crate::interest::BASIS_POINTS;

verus! {

/// An ephemeral flash loan record: created active at initiation and
/// closed by the repayment in the same atomic unit. A record that
/// outlives its unit is prevented by the host's all-or-nothing
/// execution, never observed by this engine.
#[derive(Clone, Copy, Debug, PartialEq, Eq, Structural)]
pub struct FlashLoan {
    /// Account that took the loan.
    pub borrower: u64,
    /// Identity of the pool that lent.
    pub bank: u64,
    /// Identifier of the asset lent.
    pub mint: u64,
    /// Principal lent.
    pub amount: u64,
    /// Fee owed on top of the principal.
    pub fee: u64,
    /// Whether the loan is open.
    pub is_active: bool,
    /// Unix timestamp of the atomic unit that opened the loan.
    pub created_at: i64,
}

/// The pool and the loan record an initiation at `now` leads to, or
/// the error it fails with: `MathOverflow` exactly when accrual
/// overflows, then `InsufficientLiquidity` exactly when the pool
/// treasury holds less than the request.
pub open spec fn spec_initiate_flash_loan(
    bank: Bank,
    borrower: u64,
    available_liquidity: u64,
    amount: u64,
    now: i64,
) -> Result<(Bank, FlashLoan), LendingError> {
    match bank.spec_update_interest(now) {
        None => Err(LendingError::MathOverflow),
        Some(b) => {
            if available_liquidity < amount {
                Err(LendingError::InsufficientLiquidity)
            } else {
                Ok(
                    (
                        b,
                        FlashLoan {
                            borrower,
                            bank: b.mint_address,
                            mint: b.mint_address,
                            amount,
                            fee: (amount * FLASH_LOAN_FEE_BASIS_POINTS
                                / (BASIS_POINTS as int)) as u64,
                            is_active: true,
                            created_at: now,
                        },
                    ),
                )
            }
        },
    }
}

/// Open a flash loan of `amount` from the pool: accrue interest,
/// require the treasury balance `available_liquidity` (read by the
/// host) to cover the request, and create the active loan record
/// carrying the fee. The host transfers the principal to the borrower
/// in the same atomic unit.
pub fn initiate_flash_loan(
    bank: &mut Bank,
    borrower: u64,
    available_liquidity: u64,
    amount: u64,
    now: i64,
) -> (r: Result<FlashLoan, LendingError>)
    requires
        old(bank).wf(),
    ensures
        final(bank).wf(),
        match r {
            Ok(loan) => spec_initiate_flash_loan(
                *old(bank),
                borrower,
                available_liquidity,
                amount,
                now,
            ) == Ok::<_, LendingError>((*final(bank), loan)),
            Err(e) => spec_initiate_flash_loan(
                *old(bank),
                borrower,
                available_liquidity,
                amount,
                now,
            ) == Err::<(Bank, FlashLoan), _>(e) && *final(bank) == *old(bank),
        },
{
    let mut b = *bank;
    match b.update_interest(now) {
        Ok(()) => (),
        Err(e) => {
            return Err(e);
        },
    }
    if available_liquidity < amount {
        return Err(LendingError::InsufficientLiquidity);
    }
    let fee = b.calculate_flash_loan_fee(amount);
    let loan = FlashLoan {
        borrower,
        bank: b.mint_address,
        mint: b.mint_address,
        amount,
        fee,
        is_active: true,
        created_at: now,
    };
    *bank = b;
    Ok(loan)
}

/// The pool and the closed loan record a repayment at `now` leads to,
/// or the error it fails with: `FlashLoanNotActive`, then
/// `UnauthorizedFlashLoan` for a caller other than the borrower, then
/// `FlashLoanMustBeRepaidInSameUnit` exactly when `now` differs from
/// the creation instant, then `MathOverflow` when principal plus fee
/// leaves `u64`, then `InsufficientBalanceForRepayment` when the
/// borrower cannot cover it, then `MathOverflow` when the fee would
/// push the pool's deposits past `u64`. On success the fee accrues to
/// the depositors.
pub open spec fn spec_repay_flash_loan(
    bank: Bank,
    loan: FlashLoan,
    caller: u64,
    borrower_balance: u64,
    now: i64,
) -> Result<(Bank, FlashLoan), LendingError> {
    if !loan.is_active {
        Err(LendingError::FlashLoanNotActive)
    } else if loan.borrower != caller {
        Err(LendingError::UnauthorizedFlashLoan)
    } else if now != loan.created_at {
        Err(LendingError::FlashLoanMustBeRepaidInSameUnit)
    } else if loan.amount + loan.fee > u64::MAX {
        Err(LendingError::MathOverflow)
    } else if borrower_balance < loan.amount + loan.fee {
        Err(LendingError::InsufficientBalanceForRepayment)
    } else if bank.total_deposits + loan.fee > u64::MAX {
        Err(LendingError::MathOverflow)
    } else {
        Ok(
            (
                Bank { total_deposits: (bank.total_deposits + loan.fee) as u64, ..bank },
                FlashLoan { is_active: false, ..loan },
            ),
        )
    }
}

/// Close a flash loan: only its borrower may repay, only in the
/// atomic unit that opened it, and only with a balance covering
/// principal plus fee (the host reads the balance and performs the
/// transfer back). The fee joins the pool's deposits, accruing to the
/// depositors; the record becomes inactive and the host destroys it.
pub fn repay_flash_loan(
    bank: &mut Bank,
    loan: &mut FlashLoan,
    caller: u64,
    borrower_balance: u64,
    now: i64,
) -> (r: Result<(), LendingError>)
    requires
        old(bank).wf(),
    ensures
        final(bank).wf(),
        match r {
            Ok(()) => spec_repay_flash_loan(
                *old(bank),
                *old(loan),
                caller,
                borrower_balance,
                now,
            ) == Ok::<_, LendingError>((*final(bank), *final(loan))),
            Err(e) => spec_repay_flash_loan(
                *old(bank),
                *old(loan),
                caller,
                borrower_balance,
                now,
            ) == Err::<(Bank, FlashLoan), _>(e) && *final(bank) == *old(bank)
                && *final(loan) == *old(loan),
        },
{
    if !loan.is_active {
        return Err(LendingError::FlashLoanNotActive);
    }
    if loan.borrower != caller {
        return Err(LendingError::UnauthorizedFlashLoan);
    }
    if now != loan.created_at {
        return Err(LendingError::FlashLoanMustBeRepaidInSameUnit);
    }
    let total_repayment = match loan.amount.checked_add(loan.fee) {
        Some(v) => v,
        None => {
            return Err(LendingError::MathOverflow);
        },
    };
    if borrower_balance < total_repayment {
        return Err(LendingError::InsufficientBalanceForRepayment);
    }
    let new_deposits = match bank.total_deposits.checked_add(loan.fee) {
        Some(v) => v,
        None => {
            return Err(LendingError::MathOverflow);
        },
    };
    bank.total_deposits = new_deposits;
    loan.is_active = false;
    Ok(())
}

} // verus!
