//! The share ledger: deposits, withdrawals, borrows and repayments.
//!
//! Amounts convert to proportional ownership shares at the pool's
//! current exchange rate, flooring every division. The first deposit
//! (or borrow) of a pool mints shares one-for-one, fixing the initial
//! exchange rate at one. Every operation accrues interest on the
//! pool(s) involved before touching principal, and either commits as a
//! whole or fails leaving every argument unchanged.
//!
//! Deposits and borrows mirror the checked `u64` share arithmetic of
//! the pool ledgers and fail `MathOverflow` the moment a product
//! leaves `u64`; withdrawals and repayments compute their proportions
//! in a wider width, so their only failure modes are the caps and the
//! underflow guards.

use vstd::prelude::*;

use crate::bank::Bank;
use crate::error::LendingError;
use crate::interest::{lemma_u64_mul_fits_u128, BASIS_POINTS};
use crate::user::User;

verus! {

/// Shares minted for `amount` against a pool holding `total` backed by
/// `shares`: one-for-one on an empty ledger, proportional otherwise.
pub open spec fn spec_shares_minted(amount: u64, total: u64, shares: u64) -> int {
    if total == 0 || shares == 0 {
        amount as int
    } else {
        amount * shares / (total as int)
    }
}

/// The value of `shares_held` under the exchange rate of a pool
/// holding `total` backed by `shares`: zero when no shares exist.
pub open spec fn spec_share_value(shares_held: u64, total: u64, shares: u64) -> int {
    if shares == 0 {
        0
    } else {
        shares_held * total / (shares as int)
    }
}

/// Shares burned to release `amount` from a pool holding `total`
/// backed by `shares`, proportional and floored.
pub open spec fn spec_shares_burned(amount: u64, total: u64, shares: u64) -> int {
    if total == 0 {
        0
    } else {
        amount * shares / (total as int)
    }
}

/// The position after a deposit movement on the side picked by
/// `is_usdc`.
pub open spec fn spec_user_after_deposit(
    user: User,
    is_usdc: bool,
    amount: u64,
    minted: int,
    now: i64,
) -> User {
    if is_usdc {
        User {
            deposited_usdc: (user.deposited_usdc + amount) as u64,
            deposited_usdc_shares: (user.deposited_usdc_shares + minted) as u64,
            last_updated: now,
            ..user
        }
    } else {
        User {
            deposited_sol: (user.deposited_sol + amount) as u64,
            deposited_sol_shares: (user.deposited_sol_shares + minted) as u64,
            last_updated: now,
            ..user
        }
    }
}

/// The pool and position a deposit of `amount` at `now` leads to, or
/// the error it fails with: `MathOverflow` exactly when accrual, the
/// share product or an increment leaves `u64`.
pub open spec fn spec_deposit(bank: Bank, user: User, amount: u64, now: i64) -> Result<
    (Bank, User),
    LendingError,
> {
    match bank.spec_update_interest(now) {
        None => Err(LendingError::MathOverflow),
        Some(b) => {
            let is_usdc = b.mint_address == user.usdc_address;
            if b.total_deposits != 0 && b.total_deposits_shares != 0
                && amount * b.total_deposits_shares > u64::MAX {
                Err(LendingError::MathOverflow)
            } else {
                let minted = spec_shares_minted(amount, b.total_deposits, b.total_deposits_shares);
                if user.spec_deposited(is_usdc) + amount > u64::MAX
                    || user.spec_deposited_shares(is_usdc) + minted > u64::MAX
                    || b.total_deposits + amount > u64::MAX
                    || b.total_deposits_shares + minted > u64::MAX {
                    Err(LendingError::MathOverflow)
                } else {
                    Ok(
                        (
                            Bank {
                                total_deposits: (b.total_deposits + amount) as u64,
                                total_deposits_shares: (b.total_deposits_shares + minted) as u64,
                                ..b
                            },
                            spec_user_after_deposit(user, is_usdc, amount, minted, now),
                        ),
                    )
                }
            }
        },
    }
}

/// Deposit `amount` into the pool for the position `user`: accrue
/// interest, mint deposit shares at the current exchange rate, and
/// increment the position and the pool symmetrically. The host
/// transfers the tokens; this ledger records them.
pub fn deposit(bank: &mut Bank, user: &mut User, amount: u64, now: i64) -> (r: Result<
    (),
    LendingError,
>)
    requires
        old(bank).wf(),
    ensures
        final(bank).wf(),
        match r {
            Ok(()) => spec_deposit(*old(bank), *old(user), amount, now) == Ok::<
                _,
                LendingError,
            >((*final(bank), *final(user))),
            Err(e) => spec_deposit(*old(bank), *old(user), amount, now) == Err::<
                (Bank, User),
                _,
            >(e) && *final(bank) == *old(bank) && *final(user) == *old(user),
        },
{
    let mut b = *bank;
    match b.update_interest(now) {
        Ok(()) => (),
        Err(e) => {
            return Err(e);
        },
    }
    let minted: u64 = if b.total_deposits == 0 || b.total_deposits_shares == 0 {
        amount
    } else {
        match amount.checked_mul(b.total_deposits_shares) {
            Some(product) => product / b.total_deposits,
            None => {
                return Err(LendingError::MathOverflow);
            },
        }
    };
    let new_total = match b.total_deposits.checked_add(amount) {
        Some(v) => v,
        None => {
            return Err(LendingError::MathOverflow);
        },
    };
    let new_shares = match b.total_deposits_shares.checked_add(minted) {
        Some(v) => v,
        None => {
            return Err(LendingError::MathOverflow);
        },
    };
    if b.mint_address == user.usdc_address {
        let user_amount = match user.deposited_usdc.checked_add(amount) {
            Some(v) => v,
            None => {
                return Err(LendingError::MathOverflow);
            },
        };
        let user_shares = match user.deposited_usdc_shares.checked_add(minted) {
            Some(v) => v,
            None => {
                return Err(LendingError::MathOverflow);
            },
        };
        user.deposited_usdc = user_amount;
        user.deposited_usdc_shares = user_shares;
    } else {
        let user_amount = match user.deposited_sol.checked_add(amount) {
            Some(v) => v,
            None => {
                return Err(LendingError::MathOverflow);
            },
        };
        let user_shares = match user.deposited_sol_shares.checked_add(minted) {
            Some(v) => v,
            None => {
                return Err(LendingError::MathOverflow);
            },
        };
        user.deposited_sol = user_amount;
        user.deposited_sol_shares = user_shares;
    }
    user.last_updated = now;
    b.total_deposits = new_total;
    b.total_deposits_shares = new_shares;
    *bank = b;
    Ok(())
}

/// The position after a withdrawal movement on the side picked by
/// `is_usdc`.
pub open spec fn spec_user_after_withdraw(
    user: User,
    is_usdc: bool,
    amount: u64,
    burned: int,
) -> User {
    if is_usdc {
        User {
            deposited_usdc: (user.deposited_usdc - amount) as u64,
            deposited_usdc_shares: (user.deposited_usdc_shares - burned) as u64,
            ..user
        }
    } else {
        User {
            deposited_sol: (user.deposited_sol - amount) as u64,
            deposited_sol_shares: (user.deposited_sol_shares - burned) as u64,
            ..user
        }
    }
}

/// The pool and position a withdrawal of `amount` at `now` leads to,
/// or the error it fails with: `InsufficientFunds` exactly when
/// `amount` exceeds the recorded deposit or its value under the
/// current exchange rate, `InsufficientBalance` exactly when a
/// decrement would underflow, `MathOverflow` exactly when accrual
/// overflows.
pub open spec fn spec_withdraw(bank: Bank, user: User, amount: u64, now: i64) -> Result<
    (Bank, User),
    LendingError,
> {
    match bank.spec_update_interest(now) {
        None => Err(LendingError::MathOverflow),
        Some(b) => {
            let is_usdc = b.mint_address == user.usdc_address;
            let value = spec_share_value(
                user.spec_deposited_shares(is_usdc),
                b.total_deposits,
                b.total_deposits_shares,
            );
            if amount > user.spec_deposited(is_usdc) || amount > value {
                Err(LendingError::InsufficientFunds)
            } else {
                let burned = spec_shares_burned(
                    amount,
                    b.total_deposits,
                    b.total_deposits_shares,
                );
                if amount > b.total_deposits
                    || burned > b.total_deposits_shares
                    || burned > user.spec_deposited_shares(is_usdc) {
                    Err(LendingError::InsufficientBalance)
                } else {
                    Ok(
                        (
                            Bank {
                                total_deposits: (b.total_deposits - amount) as u64,
                                total_deposits_shares: (b.total_deposits_shares - burned) as u64,
                                ..b
                            },
                            spec_user_after_withdraw(user, is_usdc, amount, burned),
                        ),
                    )
                }
            }
        },
    }
}

/// Withdraw `amount` from the pool for the position `user`: accrue
/// interest, cap the amount both by the recorded deposit and by its
/// value under the current exchange rate, burn the proportional
/// shares, and decrement the position and the pool symmetrically. The
/// host transfers the tokens out after this ledger releases them.
pub fn withdraw(bank: &mut Bank, user: &mut User, amount: u64, now: i64) -> (r: Result<
    (),
    LendingError,
>)
    requires
        old(bank).wf(),
    ensures
        final(bank).wf(),
        match r {
            Ok(()) => spec_withdraw(*old(bank), *old(user), amount, now) == Ok::<
                _,
                LendingError,
            >((*final(bank), *final(user))),
            Err(e) => spec_withdraw(*old(bank), *old(user), amount, now) == Err::<
                (Bank, User),
                _,
            >(e) && *final(bank) == *old(bank) && *final(user) == *old(user),
        },
{
    let mut b = *bank;
    match b.update_interest(now) {
        Ok(()) => (),
        Err(e) => {
            return Err(e);
        },
    }
    let is_usdc = b.mint_address == user.usdc_address;
    let deposited = if is_usdc {
        user.deposited_usdc
    } else {
        user.deposited_sol
    };
    let shares_held = if is_usdc {
        user.deposited_usdc_shares
    } else {
        user.deposited_sol_shares
    };
    if amount > deposited {
        return Err(LendingError::InsufficientFunds);
    }
    proof {
        lemma_u64_mul_fits_u128(shares_held as int, b.total_deposits as int);
        lemma_u64_mul_fits_u128(amount as int, b.total_deposits_shares as int);
    }
    let value: u128 = if b.total_deposits_shares == 0 {
        0
    } else {
        (shares_held as u128) * (b.total_deposits as u128) / (b.total_deposits_shares as u128)
    };
    if (amount as u128) > value {
        return Err(LendingError::InsufficientFunds);
    }
    let burned_wide: u128 = if b.total_deposits == 0 {
        0
    } else {
        (amount as u128) * (b.total_deposits_shares as u128) / (b.total_deposits as u128)
    };
    if amount > b.total_deposits
        || burned_wide > b.total_deposits_shares as u128
        || burned_wide > shares_held as u128 {
        return Err(LendingError::InsufficientBalance);
    }
    let burned: u64 = burned_wide as u64;
    if is_usdc {
        user.deposited_usdc = user.deposited_usdc - amount;
        user.deposited_usdc_shares = user.deposited_usdc_shares - burned;
    } else {
        user.deposited_sol = user.deposited_sol - amount;
        user.deposited_sol_shares = user.deposited_sol_shares - burned;
    }
    b.total_deposits = b.total_deposits - amount;
    b.total_deposits_shares = b.total_deposits_shares - burned;
    *bank = b;
    Ok(())
}

/// The position after a borrow movement on the side picked by
/// `is_usdc`.
pub open spec fn spec_user_after_borrow(
    user: User,
    is_usdc: bool,
    amount: u64,
    minted: int,
    now: i64,
) -> User {
    if is_usdc {
        User {
            borrowed_usdc: (user.borrowed_usdc + amount) as u64,
            borrowed_usdc_shares: (user.borrowed_usdc_shares + minted) as u64,
            last_updated_borrow: now,
            ..user
        }
    } else {
        User {
            borrowed_sol: (user.borrowed_sol + amount) as u64,
            borrowed_sol_shares: (user.borrowed_sol_shares + minted) as u64,
            last_updated_borrow: now,
            ..user
        }
    }
}

/// The two pools and the position a borrow of `amount` at `now` leads
/// to, or the error it fails with. The collateral is the value of the
/// position's deposit shares in the collateral pool at its current
/// exchange rate, priced by the oracle; the borrow is allowed exactly
/// when that value, scaled by the collateral pool's `max_ltv`, covers
/// the priced request. `MathOverflow` fires exactly when accrual or a
/// checked product or increment leaves `u64`.
pub open spec fn spec_borrow(
    debt_bank: Bank,
    collateral_bank: Bank,
    user: User,
    price_debt: u64,
    price_collateral: u64,
    amount: u64,
    now: i64,
) -> Result<(Bank, Bank, User), LendingError> {
    match debt_bank.spec_update_interest(now) {
        None => Err(LendingError::MathOverflow),
        Some(db) => match collateral_bank.spec_update_interest(now) {
            None => Err(LendingError::MathOverflow),
            Some(cb) => {
                let is_usdc_collateral = cb.mint_address == user.usdc_address;
                let is_usdc_debt = db.mint_address == user.usdc_address;
                let shares_held = user.spec_deposited_shares(is_usdc_collateral);
                if cb.total_deposits_shares != 0
                    && shares_held * cb.total_deposits > u64::MAX {
                    Err(LendingError::MathOverflow)
                } else {
                    let deposit_value = spec_share_value(
                        shares_held,
                        cb.total_deposits,
                        cb.total_deposits_shares,
                    );
                    if price_collateral * deposit_value > u64::MAX {
                        Err(LendingError::MathOverflow)
                    } else if price_collateral * deposit_value * cb.max_ltv > u64::MAX {
                        Err(LendingError::MathOverflow)
                    } else if amount * price_debt > u64::MAX {
                        Err(LendingError::MathOverflow)
                    } else if price_collateral * deposit_value * cb.max_ltv
                        / (BASIS_POINTS as int) < amount * price_debt {
                        Err(LendingError::OverBorrowableAmount)
                    } else if db.total_borrowed != 0 && db.total_borrowed_shares != 0
                        && amount * db.total_borrowed_shares > u64::MAX {
                        Err(LendingError::MathOverflow)
                    } else {
                        let minted = spec_shares_minted(
                            amount,
                            db.total_borrowed,
                            db.total_borrowed_shares,
                        );
                        if user.spec_borrowed(is_usdc_debt) + amount > u64::MAX
                            || user.spec_borrowed_shares(is_usdc_debt) + minted > u64::MAX
                            || db.total_borrowed + amount > u64::MAX
                            || db.total_borrowed_shares + minted > u64::MAX {
                            Err(LendingError::MathOverflow)
                        } else {
                            Ok(
                                (
                                    Bank {
                                        total_borrowed: (db.total_borrowed + amount) as u64,
                                        total_borrowed_shares: (db.total_borrowed_shares
                                            + minted) as u64,
                                        ..db
                                    },
                                    cb,
                                    spec_user_after_borrow(
                                        user,
                                        is_usdc_debt,
                                        amount,
                                        minted,
                                        now,
                                    ),
                                ),
                            )
                        }
                    }
                }
            },
        },
    }
}

/// Borrow `amount` from `debt_bank` against the position's deposits in
/// `collateral_bank`: accrue both pools, require the priced and
/// `max_ltv`-scaled collateral value to cover the priced request, mint
/// borrow shares at the debt pool's exchange rate, and increment the
/// position and the debt pool symmetrically. Prices come from the
/// host's oracle; the host transfers the tokens out.
pub fn borrow(
    debt_bank: &mut Bank,
    collateral_bank: &mut Bank,
    user: &mut User,
    price_debt: u64,
    price_collateral: u64,
    amount: u64,
    now: i64,
) -> (r: Result<(), LendingError>)
    requires
        old(debt_bank).wf(),
        old(collateral_bank).wf(),
    ensures
        final(debt_bank).wf(),
        final(collateral_bank).wf(),
        match r {
            Ok(()) => spec_borrow(
                *old(debt_bank),
                *old(collateral_bank),
                *old(user),
                price_debt,
                price_collateral,
                amount,
                now,
            ) == Ok::<_, LendingError>((*final(debt_bank), *final(collateral_bank), *final(user))),
            Err(e) => spec_borrow(
                *old(debt_bank),
                *old(collateral_bank),
                *old(user),
                price_debt,
                price_collateral,
                amount,
                now,
            ) == Err::<(Bank, Bank, User), _>(e) && *final(debt_bank) == *old(debt_bank)
                && *final(collateral_bank) == *old(collateral_bank) && *final(user) == *old(user),
        },
{
    let mut db = *debt_bank;
    match db.update_interest(now) {
        Ok(()) => (),
        Err(e) => {
            return Err(e);
        },
    }
    let mut cb = *collateral_bank;
    match cb.update_interest(now) {
        Ok(()) => (),
        Err(e) => {
            return Err(e);
        },
    }
    let is_usdc_collateral = cb.mint_address == user.usdc_address;
    let is_usdc_debt = db.mint_address == user.usdc_address;
    let shares_held = if is_usdc_collateral {
        user.deposited_usdc_shares
    } else {
        user.deposited_sol_shares
    };
    let deposit_value: u64 = if cb.total_deposits_shares == 0 {
        0
    } else {
        match shares_held.checked_mul(cb.total_deposits) {
            Some(product) => product / cb.total_deposits_shares,
            None => {
                return Err(LendingError::MathOverflow);
            },
        }
    };
    let collateral_value = match price_collateral.checked_mul(deposit_value) {
        Some(v) => v,
        None => {
            return Err(LendingError::MathOverflow);
        },
    };
    let scaled = match collateral_value.checked_mul(cb.max_ltv) {
        Some(v) => v,
        None => {
            return Err(LendingError::MathOverflow);
        },
    };
    let borrowable = scaled / BASIS_POINTS;
    let requested_value = match amount.checked_mul(price_debt) {
        Some(v) => v,
        None => {
            return Err(LendingError::MathOverflow);
        },
    };
    if borrowable < requested_value {
        return Err(LendingError::OverBorrowableAmount);
    }
    let minted: u64 = if db.total_borrowed == 0 || db.total_borrowed_shares == 0 {
        amount
    } else {
        match amount.checked_mul(db.total_borrowed_shares) {
            Some(product) => product / db.total_borrowed,
            None => {
                return Err(LendingError::MathOverflow);
            },
        }
    };
    let new_total = match db.total_borrowed.checked_add(amount) {
        Some(v) => v,
        None => {
            return Err(LendingError::MathOverflow);
        },
    };
    let new_shares = match db.total_borrowed_shares.checked_add(minted) {
        Some(v) => v,
        None => {
            return Err(LendingError::MathOverflow);
        },
    };
    if is_usdc_debt {
        let user_amount = match user.borrowed_usdc.checked_add(amount) {
            Some(v) => v,
            None => {
                return Err(LendingError::MathOverflow);
            },
        };
        let user_shares = match user.borrowed_usdc_shares.checked_add(minted) {
            Some(v) => v,
            None => {
                return Err(LendingError::MathOverflow);
            },
        };
        user.borrowed_usdc = user_amount;
        user.borrowed_usdc_shares = user_shares;
    } else {
        let user_amount = match user.borrowed_sol.checked_add(amount) {
            Some(v) => v,
            None => {
                return Err(LendingError::MathOverflow);
            },
        };
        let user_shares = match user.borrowed_sol_shares.checked_add(minted) {
            Some(v) => v,
            None => {
                return Err(LendingError::MathOverflow);
            },
        };
        user.borrowed_sol = user_amount;
        user.borrowed_sol_shares = user_shares;
    }
    user.last_updated_borrow = now;
    db.total_borrowed = new_total;
    db.total_borrowed_shares = new_shares;
    *debt_bank = db;
    *collateral_bank = cb;
    Ok(())
}

/// The position after a repay movement on the side picked by
/// `is_usdc`.
pub open spec fn spec_user_after_repay(
    user: User,
    is_usdc: bool,
    amount: u64,
    burned: int,
    now: i64,
) -> User {
    if is_usdc {
        User {
            borrowed_usdc: (user.borrowed_usdc - amount) as u64,
            borrowed_usdc_shares: (user.borrowed_usdc_shares - burned) as u64,
            last_updated_borrow: now,
            ..user
        }
    } else {
        User {
            borrowed_sol: (user.borrowed_sol - amount) as u64,
            borrowed_sol_shares: (user.borrowed_sol_shares - burned) as u64,
            last_updated_borrow: now,
            ..user
        }
    }
}

/// The pool and position a repayment of `amount` at `now` leads to, or
/// the error it fails with: `OverRepay` exactly when `amount` exceeds
/// the accrued debt of the position (the value of its borrow shares at
/// the current exchange rate), `InsufficientBalance` exactly when a
/// decrement would underflow, `MathOverflow` exactly when accrual
/// overflows.
pub open spec fn spec_repay(bank: Bank, user: User, amount: u64, now: i64) -> Result<
    (Bank, User),
    LendingError,
> {
    match bank.spec_update_interest(now) {
        None => Err(LendingError::MathOverflow),
        Some(b) => {
            let is_usdc = b.mint_address == user.usdc_address;
            let owed = spec_share_value(
                user.spec_borrowed_shares(is_usdc),
                b.total_borrowed,
                b.total_borrowed_shares,
            );
            if amount > owed {
                Err(LendingError::OverRepay)
            } else {
                let burned = spec_shares_burned(
                    amount,
                    b.total_borrowed,
                    b.total_borrowed_shares,
                );
                if amount > user.spec_borrowed(is_usdc)
                    || burned > user.spec_borrowed_shares(is_usdc)
                    || amount > b.total_borrowed
                    || burned > b.total_borrowed_shares {
                    Err(LendingError::InsufficientBalance)
                } else {
                    Ok(
                        (
                            Bank {
                                total_borrowed: (b.total_borrowed - amount) as u64,
                                total_borrowed_shares: (b.total_borrowed_shares - burned) as u64,
                                ..b
                            },
                            spec_user_after_repay(user, is_usdc, amount, burned, now),
                        ),
                    )
                }
            }
        },
    }
}

/// Repay `amount` of the position's debt to the pool: accrue interest,
/// cap the amount by the accrued debt, burn the proportional borrow
/// shares, and decrement the position and the pool symmetrically. The
/// host transfers the tokens in; this ledger records them.
pub fn repay(bank: &mut Bank, user: &mut User, amount: u64, now: i64) -> (r: Result<
    (),
    LendingError,
>)
    requires
        old(bank).wf(),
    ensures
        final(bank).wf(),
        match r {
            Ok(()) => spec_repay(*old(bank), *old(user), amount, now) == Ok::<
                _,
                LendingError,
            >((*final(bank), *final(user))),
            Err(e) => spec_repay(*old(bank), *old(user), amount, now) == Err::<
                (Bank, User),
                _,
            >(e) && *final(bank) == *old(bank) && *final(user) == *old(user),
        },
{
    let mut b = *bank;
    match b.update_interest(now) {
        Ok(()) => (),
        Err(e) => {
            return Err(e);
        },
    }
    let is_usdc = b.mint_address == user.usdc_address;
    let borrowed = if is_usdc {
        user.borrowed_usdc
    } else {
        user.borrowed_sol
    };
    let shares_owed = if is_usdc {
        user.borrowed_usdc_shares
    } else {
        user.borrowed_sol_shares
    };
    proof {
        lemma_u64_mul_fits_u128(shares_owed as int, b.total_borrowed as int);
        lemma_u64_mul_fits_u128(amount as int, b.total_borrowed_shares as int);
    }
    let owed: u128 = if b.total_borrowed_shares == 0 {
        0
    } else {
        (shares_owed as u128) * (b.total_borrowed as u128) / (b.total_borrowed_shares as u128)
    };
    if (amount as u128) > owed {
        return Err(LendingError::OverRepay);
    }
    let burned_wide: u128 = if b.total_borrowed == 0 {
        0
    } else {
        (amount as u128) * (b.total_borrowed_shares as u128) / (b.total_borrowed as u128)
    };
    if amount > borrowed
        || burned_wide > shares_owed as u128
        || amount > b.total_borrowed
        || burned_wide > b.total_borrowed_shares as u128 {
        return Err(LendingError::InsufficientBalance);
    }
    let burned: u64 = burned_wide as u64;
    if is_usdc {
        user.borrowed_usdc = user.borrowed_usdc - amount;
        user.borrowed_usdc_shares = user.borrowed_usdc_shares - burned;
    } else {
        user.borrowed_sol = user.borrowed_sol - amount;
        user.borrowed_sol_shares = user.borrowed_sol_shares - burned;
    }
    user.last_updated_borrow = now;
    b.total_borrowed = b.total_borrowed - amount;
    b.total_borrowed_shares = b.total_borrowed_shares - burned;
    *bank = b;
    Ok(())
}

} // verus!
