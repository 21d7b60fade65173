//! The per-asset pool ("bank"): aggregate deposit and borrow ledgers,
//! the kink interest-rate model, and interest accrual.

use vstd::arithmetic::div_mod::{lemma_div_is_ordered, lemma_div_nonincreasing};
use vstd::arithmetic::mul::lemma_mul_inequality;
use vstd::prelude::*;

use crate::error::LendingError;
use crate::interest::{
    accrual_fits, accrued_value, calculate_accrued_interest, lemma_div_at_least,
    lemma_u64_mul_fits_u128, BASIS_POINTS,
};

verus! {

/// Flash loan fee taken on the principal, in basis points.
pub const FLASH_LOAN_FEE_BASIS_POINTS: u64 = 9;

/// One per asset: the pool's aggregate ledgers, risk configuration and
/// rate-model configuration. Amounts and shares are non-negative
/// integers in the asset's smallest unit; configuration fractions are
/// basis points; identities are opaque account ids supplied by the host.
#[derive(Clone, Copy, Debug, PartialEq, Eq, Structural)]
pub struct Bank {
    /// Account allowed to change the pool's configuration.
    pub authority: u64,
    /// Identifier of the asset this pool holds.
    pub mint_address: u64,
    /// Sum of all deposits, including accrued supply interest.
    pub total_deposits: u64,
    /// Shares issued against `total_deposits`.
    pub total_deposits_shares: u64,
    /// Collateralization bound used by the health factor, basis points.
    pub liquidation_threshold: u64,
    /// Premium paid to a liquidator, basis points.
    pub liquidation_bonus: u64,
    /// Largest fraction of a debt one liquidation may repay, basis points.
    pub liquidation_close_factor: u64,
    /// Sum of all borrows, including accrued borrow interest.
    pub total_borrowed: u64,
    /// Shares issued against `total_borrowed`.
    pub total_borrowed_shares: u64,
    /// Largest loan-to-value fraction a borrow may reach, basis points.
    pub max_ltv: u64,
    /// Identifier of the quote asset.
    pub usdc_address: u64,
    /// Unix timestamp of the last interest accrual.
    pub last_updated: i64,
    /// Borrow rate at zero utilization, annual basis points.
    pub base_rate: u64,
    /// Slope of the borrow rate below the kink, basis points.
    pub multiplier: u64,
    /// Slope of the borrow rate above the kink, basis points.
    pub jump_multiplier: u64,
    /// Utilization where the steeper slope begins, basis points.
    pub kink_utilization: u64,
    /// Borrow rate cached by the last accrual, annual basis points.
    pub current_borrow_rate: u64,
    /// Supply rate cached by the last accrual, annual basis points.
    pub current_supply_rate: u64,
    /// Fraction of borrow interest kept from depositors, basis points.
    pub reserve_factor: u64,
}

impl Bank {
    /// Well-formedness: the reserve factor is a fraction of the whole,
    /// so `BASIS_POINTS - reserve_factor` is itself a valid fraction.
    pub open spec fn wf(self) -> bool {
        self.reserve_factor <= BASIS_POINTS
    }

    /// Fraction of the pool's deposits currently lent out, in basis
    /// points: `total_borrowed * 10000 / total_deposits`, floored, and
    /// zero for an empty pool.
    pub open spec fn spec_utilization(self) -> int {
        if self.total_deposits == 0 {
            0
        } else {
            self.total_borrowed * BASIS_POINTS / (self.total_deposits as int)
        }
    }

    /// The kink model: a shallow slope up to `kink_utilization`, a
    /// steeper one above it.
    pub open spec fn spec_borrow_rate(self) -> int {
        let u = self.spec_utilization();
        if u <= self.kink_utilization {
            self.base_rate + u * self.multiplier / (BASIS_POINTS as int)
        } else {
            self.base_rate + self.kink_utilization * self.multiplier / (BASIS_POINTS as int)
                + (u - self.kink_utilization) * self.jump_multiplier / (BASIS_POINTS as int)
        }
    }

    /// The part of the borrow rate passed on to depositors: the borrow
    /// rate less the reserve cut, scaled by utilization, flooring at
    /// each step.
    pub open spec fn spec_supply_rate(self) -> int {
        self.spec_borrow_rate() * ((BASIS_POINTS - self.reserve_factor) as int)
            / (BASIS_POINTS as int) * self.spec_utilization() / (BASIS_POINTS as int)
    }

    /// Utilization in a width that can always hold it exactly.
    fn utilization_wide(&self) -> (r: u128)
        ensures
            r == self.spec_utilization(),
    {
        if self.total_deposits == 0 {
            0
        } else {
            proof {
                lemma_u64_mul_fits_u128(self.total_borrowed as int, BASIS_POINTS as int);
            }
            (self.total_borrowed as u128) * (BASIS_POINTS as u128) / (self.total_deposits as u128)
        }
    }

    /// Current utilization in basis points. The value is only
    /// representable when it fits a `u64`, which the caller knows from
    /// the pool totals it supplied.
    pub fn get_utilization_rate(&self) -> (r: u64)
        requires
            self.spec_utilization() <= u64::MAX,
        ensures
            r == self.spec_utilization(),
    {
        self.utilization_wide() as u64
    }

    /// The annual borrow rate of the kink model, in basis points, or
    /// `MathOverflow` exactly when the modelled rate does not fit a
    /// `u64`.
    pub fn calculate_borrow_rate(&self) -> (r: Result<u64, LendingError>)
        ensures
            match r {
                Ok(v) => v == self.spec_borrow_rate(),
                Err(e) => e == LendingError::MathOverflow && self.spec_borrow_rate() > u64::MAX,
            },
    {
        let u = self.utilization_wide();
        if u <= self.kink_utilization as u128 {
            let slope: u128 = match u.checked_mul(self.multiplier as u128) {
                Some(v) => v,
                None => {
                    proof {
                        lemma_div_at_least(
                            u as int * self.multiplier,
                            BASIS_POINTS as int,
                            u64::MAX + 1,
                        );
                    }
                    return Err(LendingError::MathOverflow);
                },
            };
            let term: u128 = slope / (BASIS_POINTS as u128);
            proof {
                lemma_div_nonincreasing(slope as int, BASIS_POINTS as int);
            }
            let rate: u128 = self.base_rate as u128 + term;
            if rate > u64::MAX as u128 {
                return Err(LendingError::MathOverflow);
            }
            Ok(rate as u64)
        } else {
            // kink * multiplier is a product of two u64 values, so it
            // fits the wide width with no check.
            proof {
                lemma_u64_mul_fits_u128(self.kink_utilization as int, self.multiplier as int);
            }
            let normal: u128 = self.base_rate as u128
                + (self.kink_utilization as u128) * (self.multiplier as u128)
                    / (BASIS_POINTS as u128);
            let excess: u128 = u - self.kink_utilization as u128;
            let jump: u128 = match excess.checked_mul(self.jump_multiplier as u128) {
                Some(v) => v,
                None => {
                    proof {
                        lemma_div_at_least(
                            excess as int * self.jump_multiplier,
                            BASIS_POINTS as int,
                            u64::MAX + 1,
                        );
                    }
                    return Err(LendingError::MathOverflow);
                },
            };
            proof {
                lemma_div_nonincreasing(jump as int, BASIS_POINTS as int);
                lemma_div_nonincreasing(
                    self.kink_utilization * self.multiplier,
                    BASIS_POINTS as int,
                );
            }
            let rate: u128 = normal + jump / (BASIS_POINTS as u128);
            if rate > u64::MAX as u128 {
                return Err(LendingError::MathOverflow);
            }
            Ok(rate as u64)
        }
    }

    /// The annual supply rate, in basis points, or `MathOverflow`
    /// exactly when the borrow rate or the supply rate does not fit a
    /// `u64`.
    pub fn calculate_supply_rate(&self) -> (r: Result<u64, LendingError>)
        requires
            self.wf(),
        ensures
            match r {
                Ok(v) => v == self.spec_supply_rate() && self.spec_borrow_rate() <= u64::MAX,
                Err(e) => e == LendingError::MathOverflow
                    && (self.spec_borrow_rate() > u64::MAX || self.spec_supply_rate() > u64::MAX),
            },
    {
        let borrow_rate = match self.calculate_borrow_rate() {
            Ok(v) => v,
            Err(e) => {
                return Err(e);
            },
        };
        proof {
            lemma_u64_mul_fits_u128(
                borrow_rate as int,
                (BASIS_POINTS - self.reserve_factor) as int,
            );
        }
        let after_reserves: u128 = (borrow_rate as u128)
            * ((BASIS_POINTS - self.reserve_factor) as u128) / (BASIS_POINTS as u128);
        let u = self.utilization_wide();
        let scaled: u128 = match after_reserves.checked_mul(u) {
            Some(v) => v,
            None => {
                proof {
                    lemma_div_at_least(
                        after_reserves as int * u as int,
                        BASIS_POINTS as int,
                        u64::MAX + 1,
                    );
                }
                return Err(LendingError::MathOverflow);
            },
        };
        let rate: u128 = scaled / (BASIS_POINTS as u128);
        if rate > u64::MAX as u128 {
            return Err(LendingError::MathOverflow);
        }
        Ok(rate as u64)
    }

    /// The pool after interest accrues at `now`, or `None` when a rate
    /// or an accrued total does not fit a `u64`. No time passing is a
    /// no-op: accrual is idempotent at a fixed instant.
    pub open spec fn spec_update_interest(self, now: i64) -> Option<Bank> {
        let dt = now - self.last_updated;
        if dt <= 0 {
            Some(self)
        } else {
            let br = self.spec_borrow_rate();
            let sr = self.spec_supply_rate();
            if br > u64::MAX || sr > u64::MAX {
                None
            } else if !accrual_fits(self.total_borrowed as int, br, dt)
                || !accrual_fits(self.total_deposits as int, sr, dt) {
                None
            } else {
                Some(Bank {
                    current_borrow_rate: br as u64,
                    current_supply_rate: sr as u64,
                    total_borrowed: accrued_value(self.total_borrowed as int, br, dt) as u64,
                    total_deposits: accrued_value(self.total_deposits as int, sr, dt) as u64,
                    last_updated: now,
                    ..self
                })
            }
        }
    }

    /// Accrue compound interest on the pool up to `now`: recompute the
    /// rates from the pre-accrual utilization, grow both totals by the
    /// fixed-point compounding factor, and stamp `last_updated`. If no
    /// time has passed, nothing changes; on `MathOverflow`, nothing
    /// changes either.
    pub fn update_interest(&mut self, now: i64) -> (r: Result<(), LendingError>)
        requires
            old(self).wf(),
        ensures
            final(self).wf(),
            match r {
                Ok(()) => old(self).spec_update_interest(now) == Some(*final(self)),
                Err(e) => e == LendingError::MathOverflow
                    && old(self).spec_update_interest(now) is None
                    && *final(self) == *old(self),
            },
    {
        let dt_wide: i128 = (now as i128) - (self.last_updated as i128);
        if dt_wide <= 0 {
            return Ok(());
        }
        let borrow_rate = match self.calculate_borrow_rate() {
            Ok(v) => v,
            Err(e) => {
                return Err(e);
            },
        };
        let supply_rate = match self.calculate_supply_rate() {
            Ok(v) => v,
            Err(e) => {
                return Err(e);
            },
        };
        let new_borrowed = match calculate_accrued_interest(
            self.total_borrowed,
            borrow_rate,
            self.last_updated,
            now,
        ) {
            Ok(v) => v,
            Err(e) => {
                return Err(e);
            },
        };
        let new_deposits = match calculate_accrued_interest(
            self.total_deposits,
            supply_rate,
            self.last_updated,
            now,
        ) {
            Ok(v) => v,
            Err(e) => {
                return Err(e);
            },
        };
        self.current_borrow_rate = borrow_rate;
        self.current_supply_rate = supply_rate;
        self.total_borrowed = new_borrowed;
        self.total_deposits = new_deposits;
        self.last_updated = now;
        Ok(())
    }

    /// The flash loan fee on `amount`: nine basis points, floored. The
    /// fee never exceeds the principal, so it always fits.
    pub fn calculate_flash_loan_fee(&self, amount: u64) -> (r: u64)
        ensures
            r == amount * FLASH_LOAN_FEE_BASIS_POINTS / (BASIS_POINTS as int),
    {
        proof {
            lemma_u64_mul_fits_u128(amount as int, FLASH_LOAN_FEE_BASIS_POINTS as int);
        }
        let wide: u128 =
            (amount as u128) * (FLASH_LOAN_FEE_BASIS_POINTS as u128) / (BASIS_POINTS as u128);
        proof {
            lemma_mul_inequality(FLASH_LOAN_FEE_BASIS_POINTS as int, BASIS_POINTS as int,
                amount as int);
            assert(amount * FLASH_LOAN_FEE_BASIS_POINTS == FLASH_LOAN_FEE_BASIS_POINTS * amount)
                by (nonlinear_arith);
            assert(amount * BASIS_POINTS == BASIS_POINTS * amount) by (nonlinear_arith);
            lemma_div_is_ordered(
                amount * FLASH_LOAN_FEE_BASIS_POINTS,
                amount * BASIS_POINTS,
                BASIS_POINTS as int,
            );
            vstd::arithmetic::div_mod::lemma_div_by_multiple(amount as int, BASIS_POINTS as int);
        }
        wide as u64
    }
}

/// Accrue interest on a pool up to `now`: the standalone form of
/// [`Bank::update_interest`] that the host exposes as its own
/// operation.
pub fn update_interest(bank: &mut Bank, now: i64) -> (r: Result<(), LendingError>)
    requires
        old(bank).wf(),
    ensures
        final(bank).wf(),
        match r {
            Ok(()) => old(bank).spec_update_interest(now) == Some(*final(bank)),
            Err(e) => e == LendingError::MathOverflow
                && old(bank).spec_update_interest(now) is None
                && *final(bank) == *old(bank),
        },
{
    bank.update_interest(now)
}

} // verus!
