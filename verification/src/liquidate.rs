//! The liquidation engine: health-factor gating and partial seizure
//! across a collateral pool and a debt pool.

use vstd::prelude::*;

use crate::bank::Bank;
use crate::error::LendingError;
use crate::interest::BASIS_POINTS;
use crate::ledger::{spec_share_value, spec_shares_burned};
use crate::user::User;

verus! {

/// A price handed in by the host's oracle collaborator: the price of
/// one unit of the asset, and the unix timestamp it was published at.
#[derive(Clone, Copy, Debug, PartialEq, Eq, Structural)]
pub struct OraclePrice {
    /// Price of one unit of the asset, in quote units.
    pub price: u64,
    /// Unix timestamp at which the oracle published this price.
    pub publish_time: i64,
}

/// Whether a price is fresh at `now`: published no more than `max_age`
/// seconds ago.
pub open spec fn spec_price_fresh(price: OraclePrice, max_age: u64, now: i64) -> bool {
    now - price.publish_time <= max_age
}

/// The position is liquidatable exactly when its health factor is
/// below one: the collateral value scaled by the liquidation threshold
/// (basis points) falls short of the debt value scaled by one hundred,
/// and the debt is nonzero. A position with no debt is never
/// liquidatable.
pub open spec fn spec_liquidatable(
    collateral_value: int,
    debt_value: int,
    liquidation_threshold: int,
) -> bool {
    debt_value > 0 && collateral_value * liquidation_threshold < debt_value * 100
}

/// The two pools, the position and the two transfer amounts a
/// liquidation at `now` leads to, or the error it fails with:
/// `MathOverflow` exactly when accrual or a checked product leaves
/// `u64`; `OracleError` exactly when a price is stale; then
/// `HealthFactorAboveOne` exactly when the position is not
/// liquidatable; then `InsufficientBalance` exactly when a share or
/// total decrement would underflow. On success the liquidator repays
/// `liquidation_amount` of the debt asset and seizes
/// `liquidator_reward` of the collateral asset, and the borrower's
/// shares and the pool totals fall by the proportional counterparts.
pub open spec fn spec_liquidate(
    collateral_bank: Bank,
    debt_bank: Bank,
    user: User,
    price_collateral: OraclePrice,
    price_debt: OraclePrice,
    max_age: u64,
    now: i64,
) -> Result<(Bank, Bank, User, u64, u64), LendingError> {
    match collateral_bank.spec_update_interest(now) {
        None => Err(LendingError::MathOverflow),
        Some(cb) => match debt_bank.spec_update_interest(now) {
            None => Err(LendingError::MathOverflow),
            Some(db) => {
                if !spec_price_fresh(price_collateral, max_age, now)
                    || !spec_price_fresh(price_debt, max_age, now) {
                    Err(LendingError::OracleError)
                } else {
                    let is_usdc_collateral = cb.mint_address == user.usdc_address;
                    let is_usdc_debt = db.mint_address == user.usdc_address;
                    let collateral_shares = user.spec_deposited_shares(is_usdc_collateral);
                    let debt_shares = user.spec_borrowed_shares(is_usdc_debt);
                    if cb.total_deposits_shares != 0
                        && collateral_shares * cb.total_deposits > u64::MAX {
                        Err(LendingError::MathOverflow)
                    } else if db.total_borrowed_shares != 0
                        && debt_shares * db.total_borrowed > u64::MAX {
                        Err(LendingError::MathOverflow)
                    } else {
                        let deposit_value = spec_share_value(
                            collateral_shares,
                            cb.total_deposits,
                            cb.total_deposits_shares,
                        );
                        let borrow_value = spec_share_value(
                            debt_shares,
                            db.total_borrowed,
                            db.total_borrowed_shares,
                        );
                        if price_collateral.price * deposit_value > u64::MAX
                            || price_debt.price * borrow_value > u64::MAX {
                            Err(LendingError::MathOverflow)
                        } else {
                            spec_liquidate_healthy(
                                cb,
                                db,
                                user,
                                is_usdc_collateral,
                                is_usdc_debt,
                                price_collateral.price * deposit_value,
                                price_debt.price * borrow_value,
                                now,
                            )
                        }
                    }
                }
            },
        },
    }
}

/// The tail of `spec_liquidate` once both pools are accrued and both
/// position values are priced: the health gate, the partial repayment
/// and the proportional seizure.
pub open spec fn spec_liquidate_healthy(
    cb: Bank,
    db: Bank,
    user: User,
    is_usdc_collateral: bool,
    is_usdc_debt: bool,
    collateral_value: int,
    debt_value: int,
    now: i64,
) -> Result<(Bank, Bank, User, u64, u64), LendingError> {
    if !spec_liquidatable(collateral_value, debt_value, cb.liquidation_threshold as int) {
        Err(LendingError::HealthFactorAboveOne)
    } else if debt_value * db.liquidation_close_factor > u64::MAX {
        Err(LendingError::MathOverflow)
    } else {
        let liquidation_amount = debt_value * db.liquidation_close_factor / (BASIS_POINTS as int);
        if BASIS_POINTS + cb.liquidation_bonus > u64::MAX
            || liquidation_amount * (BASIS_POINTS + cb.liquidation_bonus) > u64::MAX {
            Err(LendingError::MathOverflow)
        } else {
            let liquidator_reward = liquidation_amount * (BASIS_POINTS + cb.liquidation_bonus)
                / (BASIS_POINTS as int);
            if db.total_borrowed != 0
                && liquidation_amount * db.total_borrowed_shares > u64::MAX {
                Err(LendingError::MathOverflow)
            } else if cb.total_deposits != 0
                && liquidator_reward * cb.total_deposits_shares > u64::MAX {
                Err(LendingError::MathOverflow)
            } else {
                let debt_shares_reduced = spec_shares_burned(
                    liquidation_amount as u64,
                    db.total_borrowed,
                    db.total_borrowed_shares,
                );
                let collateral_shares_reduced = spec_shares_burned(
                    liquidator_reward as u64,
                    cb.total_deposits,
                    cb.total_deposits_shares,
                );
                if collateral_shares_reduced > user.spec_deposited_shares(is_usdc_collateral)
                    || debt_shares_reduced > user.spec_borrowed_shares(is_usdc_debt)
                    || liquidator_reward > cb.total_deposits
                    || collateral_shares_reduced > cb.total_deposits_shares
                    || liquidation_amount > db.total_borrowed
                    || debt_shares_reduced > db.total_borrowed_shares {
                    Err(LendingError::InsufficientBalance)
                } else {
                    Ok(
                        (
                            Bank {
                                total_deposits: (cb.total_deposits - liquidator_reward) as u64,
                                total_deposits_shares: (cb.total_deposits_shares
                                    - collateral_shares_reduced) as u64,
                                ..cb
                            },
                            Bank {
                                total_borrowed: (db.total_borrowed - liquidation_amount) as u64,
                                total_borrowed_shares: (db.total_borrowed_shares
                                    - debt_shares_reduced) as u64,
                                ..db
                            },
                            spec_user_after_liquidation(
                                user,
                                is_usdc_collateral,
                                is_usdc_debt,
                                collateral_shares_reduced,
                                debt_shares_reduced,
                                now,
                            ),
                            liquidation_amount as u64,
                            liquidator_reward as u64,
                        ),
                    )
                }
            }
        }
    }
}

/// The position after a liquidation: collateral deposit shares and
/// debt borrow shares reduced, both timestamps stamped.
pub open spec fn spec_user_after_liquidation(
    user: User,
    is_usdc_collateral: bool,
    is_usdc_debt: bool,
    collateral_shares_reduced: int,
    debt_shares_reduced: int,
    now: i64,
) -> User {
    let afterwards = if is_usdc_collateral {
        User {
            deposited_usdc_shares: (user.deposited_usdc_shares - collateral_shares_reduced) as u64,
            ..user
        }
    } else {
        User {
            deposited_sol_shares: (user.deposited_sol_shares - collateral_shares_reduced) as u64,
            ..user
        }
    };
    if is_usdc_debt {
        User {
            borrowed_usdc_shares: (user.borrowed_usdc_shares - debt_shares_reduced) as u64,
            last_updated: now,
            last_updated_borrow: now,
            ..afterwards
        }
    } else {
        User {
            borrowed_sol_shares: (user.borrowed_sol_shares - debt_shares_reduced) as u64,
            last_updated: now,
            last_updated_borrow: now,
            ..afterwards
        }
    }
}

/// Liquidate an undercollateralized position across two pools of
/// distinct assets. Both pools accrue first; both prices must be
/// fresh within `max_age` seconds of `now`. The position must have a
/// health factor below one; then a `liquidation_close_factor` fraction
/// of the priced debt is repaid and that amount plus the liquidation
/// bonus is seized from the collateral, reducing the borrower's shares
/// and the pool totals proportionally. Returns the amount the
/// liquidator repays into the debt pool and the reward the collateral
/// pool pays out; the host performs both transfers atomically with
/// this state change. Both pools re-accrue afterwards, which at a
/// fixed instant changes nothing further.
pub fn liquidate(
    collateral_bank: &mut Bank,
    debt_bank: &mut Bank,
    user: &mut User,
    price_collateral: OraclePrice,
    price_debt: OraclePrice,
    max_age: u64,
    now: i64,
) -> (r: Result<(u64, u64), LendingError>)
    requires
        old(collateral_bank).wf(),
        old(debt_bank).wf(),
        old(collateral_bank).mint_address != old(debt_bank).mint_address,
    ensures
        final(collateral_bank).wf(),
        final(debt_bank).wf(),
        match r {
            Ok((liquidation_amount, liquidator_reward)) => spec_liquidate(
                *old(collateral_bank),
                *old(debt_bank),
                *old(user),
                price_collateral,
                price_debt,
                max_age,
                now,
            ) == Ok::<_, LendingError>(
                (
                    *final(collateral_bank),
                    *final(debt_bank),
                    *final(user),
                    liquidation_amount,
                    liquidator_reward,
                ),
            ),
            Err(e) => spec_liquidate(
                *old(collateral_bank),
                *old(debt_bank),
                *old(user),
                price_collateral,
                price_debt,
                max_age,
                now,
            ) == Err::<(Bank, Bank, User, u64, u64), _>(e)
                && *final(collateral_bank) == *old(collateral_bank)
                && *final(debt_bank) == *old(debt_bank) && *final(user) == *old(user),
        },
{
    let mut cb = *collateral_bank;
    match cb.update_interest(now) {
        Ok(()) => (),
        Err(e) => {
            return Err(e);
        },
    }
    let mut db = *debt_bank;
    match db.update_interest(now) {
        Ok(()) => (),
        Err(e) => {
            return Err(e);
        },
    }
    let age_collateral: i128 = (now as i128) - (price_collateral.publish_time as i128);
    let age_debt: i128 = (now as i128) - (price_debt.publish_time as i128);
    if age_collateral > max_age as i128 || age_debt > max_age as i128 {
        return Err(LendingError::OracleError);
    }
    let is_usdc_collateral = cb.mint_address == user.usdc_address;
    let is_usdc_debt = db.mint_address == user.usdc_address;
    let collateral_shares = if is_usdc_collateral {
        user.deposited_usdc_shares
    } else {
        user.deposited_sol_shares
    };
    let debt_shares = if is_usdc_debt {
        user.borrowed_usdc_shares
    } else {
        user.borrowed_sol_shares
    };
    let deposit_value: u64 = if cb.total_deposits_shares == 0 {
        0
    } else {
        match collateral_shares.checked_mul(cb.total_deposits) {
            Some(product) => product / cb.total_deposits_shares,
            None => {
                return Err(LendingError::MathOverflow);
            },
        }
    };
    let borrow_value: u64 = if db.total_borrowed_shares == 0 {
        0
    } else {
        match debt_shares.checked_mul(db.total_borrowed) {
            Some(product) => product / db.total_borrowed_shares,
            None => {
                return Err(LendingError::MathOverflow);
            },
        }
    };
    let collateral_value = match price_collateral.price.checked_mul(deposit_value) {
        Some(v) => v,
        None => {
            return Err(LendingError::MathOverflow);
        },
    };
    let debt_value = match price_debt.price.checked_mul(borrow_value) {
        Some(v) => v,
        None => {
            return Err(LendingError::MathOverflow);
        },
    };

    // The health factor comparison is exact in a wider width:
    // collateral_value * threshold / (debt_value * 100) >= 1.
    proof {
        crate::interest::lemma_u64_mul_fits_u128(
            collateral_value as int,
            cb.liquidation_threshold as int,
        );
    }
    if debt_value == 0 {
        return Err(LendingError::HealthFactorAboveOne);
    }
    if (collateral_value as u128) * (cb.liquidation_threshold as u128)
        >= (debt_value as u128) * 100 {
        return Err(LendingError::HealthFactorAboveOne);
    }
    let liquidation_amount: u64 = match debt_value.checked_mul(db.liquidation_close_factor) {
        Some(product) => product / BASIS_POINTS,
        None => {
            return Err(LendingError::MathOverflow);
        },
    };
    let bonus_factor: u64 = match BASIS_POINTS.checked_add(cb.liquidation_bonus) {
        Some(v) => v,
        None => {
            return Err(LendingError::MathOverflow);
        },
    };
    let liquidator_reward: u64 = match liquidation_amount.checked_mul(bonus_factor) {
        Some(product) => product / BASIS_POINTS,
        None => {
            return Err(LendingError::MathOverflow);
        },
    };
    let debt_shares_reduced: u64 = if db.total_borrowed == 0 {
        0
    } else {
        match liquidation_amount.checked_mul(db.total_borrowed_shares) {
            Some(product) => product / db.total_borrowed,
            None => {
                return Err(LendingError::MathOverflow);
            },
        }
    };
    let collateral_shares_reduced: u64 = if cb.total_deposits == 0 {
        0
    } else {
        match liquidator_reward.checked_mul(cb.total_deposits_shares) {
            Some(product) => product / cb.total_deposits,
            None => {
                return Err(LendingError::MathOverflow);
            },
        }
    };
    if collateral_shares_reduced > collateral_shares
        || debt_shares_reduced > debt_shares
        || liquidator_reward > cb.total_deposits
        || collateral_shares_reduced > cb.total_deposits_shares
        || liquidation_amount > db.total_borrowed
        || debt_shares_reduced > db.total_borrowed_shares {
        return Err(LendingError::InsufficientBalance);
    }
    if is_usdc_collateral {
        user.deposited_usdc_shares = user.deposited_usdc_shares - collateral_shares_reduced;
    } else {
        user.deposited_sol_shares = user.deposited_sol_shares - collateral_shares_reduced;
    }
    if is_usdc_debt {
        user.borrowed_usdc_shares = user.borrowed_usdc_shares - debt_shares_reduced;
    } else {
        user.borrowed_sol_shares = user.borrowed_sol_shares - debt_shares_reduced;
    }
    user.last_updated = now;
    user.last_updated_borrow = now;
    cb.total_deposits = cb.total_deposits - liquidator_reward;
    cb.total_deposits_shares = cb.total_deposits_shares - collateral_shares_reduced;
    db.total_borrowed = db.total_borrowed - liquidation_amount;
    db.total_borrowed_shares = db.total_borrowed_shares - debt_shares_reduced;

    // Principal changed, so both pools re-accrue; at the same instant
    // this is the identity, since each `last_updated` already reached
    // `now` (or lies beyond it after a clock regression).
    match cb.update_interest(now) {
        Ok(()) => (),
        Err(e) => {
            proof {
                assert(false);
            }
            return Err(e);
        },
    }
    match db.update_interest(now) {
        Ok(()) => (),
        Err(e) => {
            proof {
                assert(false);
            }
            return Err(e);
        },
    }
    *collateral_bank = cb;
    *debt_bank = db;
    Ok((liquidation_amount, liquidator_reward))
}

} // verus!
