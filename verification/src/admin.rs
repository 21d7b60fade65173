//! Pool administration: creation of pools and positions, configuration
//! updates gated on the pool authority, a status read-out, and the
//! emergency pause.

use vstd::prelude::*;

use crate::bank::Bank;
use crate::error::LendingError;
use crate::interest::BASIS_POINTS;
use crate::user::User;

verus! {

/// `option` if present, otherwise `default`.
pub open spec fn spec_unwrap_or(option: Option<u64>, default: u64) -> u64 {
    match option {
        Some(v) => v,
        None => default,
    }
}

/// A bank with the rate-model parameters replaced by those that are
/// present.
pub open spec fn spec_apply_kink_params(
    bank: Bank,
    base_rate: Option<u64>,
    multiplier: Option<u64>,
    jump_multiplier: Option<u64>,
    kink_utilization: Option<u64>,
    reserve_factor: Option<u64>,
) -> Bank {
    Bank {
        base_rate: spec_unwrap_or(base_rate, bank.base_rate),
        multiplier: spec_unwrap_or(multiplier, bank.multiplier),
        jump_multiplier: spec_unwrap_or(jump_multiplier, bank.jump_multiplier),
        kink_utilization: spec_unwrap_or(kink_utilization, bank.kink_utilization),
        reserve_factor: spec_unwrap_or(reserve_factor, bank.reserve_factor),
        ..bank
    }
}

/// A bank with the risk parameters replaced by those that are present.
pub open spec fn spec_apply_risk_params(
    bank: Bank,
    liquidation_threshold: Option<u64>,
    liquidation_bonus: Option<u64>,
    liquidation_close_factor: Option<u64>,
    max_ltv: Option<u64>,
) -> Bank {
    Bank {
        liquidation_threshold: spec_unwrap_or(liquidation_threshold, bank.liquidation_threshold),
        liquidation_bonus: spec_unwrap_or(liquidation_bonus, bank.liquidation_bonus),
        liquidation_close_factor: spec_unwrap_or(
            liquidation_close_factor,
            bank.liquidation_close_factor,
        ),
        max_ltv: spec_unwrap_or(max_ltv, bank.max_ltv),
        ..bank
    }
}

/// Create a pool for the asset `mint_address`, administered by
/// `authority`. Rate-model parameters that are absent take the
/// defaults: 2% base rate, 5% multiplier, 50% jump multiplier, 80%
/// kink, 10% reserve factor, 5% liquidation bonus and 50% close factor.
/// All ledgers start empty and the cached rates start at the base rate
/// and zero.
pub fn initbank(
    authority: u64,
    mint_address: u64,
    liquidation_threshold: u64,
    max_ltv: u64,
    base_rate: Option<u64>,
    multiplier: Option<u64>,
    jump_multiplier: Option<u64>,
    kink_utilization: Option<u64>,
    reserve_factor: Option<u64>,
    now: i64,
) -> (r: Bank)
    requires
        match reserve_factor {
            Some(f) => f <= BASIS_POINTS,
            None => true,
        },
    ensures
        r.wf(),
        r == (Bank {
            authority,
            mint_address,
            total_deposits: 0u64,
            total_deposits_shares: 0u64,
            liquidation_threshold,
            liquidation_bonus: 500u64,
            liquidation_close_factor: 5000u64,
            total_borrowed: 0u64,
            total_borrowed_shares: 0u64,
            max_ltv,
            usdc_address: 0u64,
            last_updated: now,
            base_rate: spec_unwrap_or(base_rate, 200),
            multiplier: spec_unwrap_or(multiplier, 500),
            jump_multiplier: spec_unwrap_or(jump_multiplier, 5000),
            kink_utilization: spec_unwrap_or(kink_utilization, 8000),
            current_borrow_rate: spec_unwrap_or(base_rate, 200),
            current_supply_rate: 0u64,
            reserve_factor: spec_unwrap_or(reserve_factor, 1000),
        }),
{
    let base = match base_rate {
        Some(v) => v,
        None => 200,
    };
    Bank {
        authority,
        mint_address,
        total_deposits: 0,
        total_deposits_shares: 0,
        liquidation_threshold,
        liquidation_bonus: 500,
        liquidation_close_factor: 5000,
        total_borrowed: 0,
        total_borrowed_shares: 0,
        max_ltv,
        usdc_address: 0,
        last_updated: now,
        base_rate: base,
        multiplier: match multiplier {
            Some(v) => v,
            None => 500,
        },
        jump_multiplier: match jump_multiplier {
            Some(v) => v,
            None => 5000,
        },
        kink_utilization: match kink_utilization {
            Some(v) => v,
            None => 8000,
        },
        current_borrow_rate: base,
        current_supply_rate: 0,
        reserve_factor: match reserve_factor {
            Some(v) => v,
            None => 1000,
        },
    }
}

/// Create an empty position owned by `owner`, quoting against
/// `usdc_address`.
pub fn inituser(owner: u64, usdc_address: u64) -> (r: User)
    ensures
        r == (User {
            owner,
            deposited_sol_shares: 0u64,
            deposited_sol: 0u64,
            borrowed_sol: 0u64,
            borrowed_sol_shares: 0u64,
            deposited_usdc: 0u64,
            deposited_usdc_shares: 0u64,
            borrowed_usdc: 0u64,
            borrowed_usdc_shares: 0u64,
            usdc_address,
            last_updated: 0i64,
            last_updated_borrow: 0i64,
        }),
{
    User {
        owner,
        deposited_sol_shares: 0,
        deposited_sol: 0,
        borrowed_sol: 0,
        borrowed_sol_shares: 0,
        deposited_usdc: 0,
        deposited_usdc_shares: 0,
        borrowed_usdc: 0,
        borrowed_usdc_shares: 0,
        usdc_address,
        last_updated: 0,
        last_updated_borrow: 0,
    }
}

/// Replace the rate-model parameters that are present, after accruing
/// interest under the old parameters up to `now`. Only the pool
/// authority may call; on any error the pool is unchanged.
pub fn update_bank_kink_params(
    bank: &mut Bank,
    caller: u64,
    base_rate: Option<u64>,
    multiplier: Option<u64>,
    jump_multiplier: Option<u64>,
    kink_utilization: Option<u64>,
    reserve_factor: Option<u64>,
    now: i64,
) -> (r: Result<(), LendingError>)
    requires
        old(bank).wf(),
        match reserve_factor {
            Some(f) => f <= BASIS_POINTS,
            None => true,
        },
    ensures
        final(bank).wf(),
        match r {
            Ok(()) => caller == old(bank).authority
                && match old(bank).spec_update_interest(now) {
                    Some(accrued) => *final(bank) == spec_apply_kink_params(
                        accrued,
                        base_rate,
                        multiplier,
                        jump_multiplier,
                        kink_utilization,
                        reserve_factor,
                    ),
                    None => false,
                },
            Err(e) => *final(bank) == *old(bank) && if caller != old(bank).authority {
                e == LendingError::Unauthorized
            } else {
                e == LendingError::MathOverflow
                    && old(bank).spec_update_interest(now) is None
            },
        },
{
    if caller != bank.authority {
        return Err(LendingError::Unauthorized);
    }
    match bank.update_interest(now) {
        Ok(()) => (),
        Err(e) => {
            return Err(e);
        },
    }
    if let Some(rate) = base_rate {
        bank.base_rate = rate;
    }
    if let Some(mult) = multiplier {
        bank.multiplier = mult;
    }
    if let Some(jump) = jump_multiplier {
        bank.jump_multiplier = jump;
    }
    if let Some(kink) = kink_utilization {
        bank.kink_utilization = kink;
    }
    if let Some(reserve) = reserve_factor {
        bank.reserve_factor = reserve;
    }
    Ok(())
}

/// Replace the risk parameters that are present. Only the pool
/// authority may call; on any error the pool is unchanged.
pub fn update_bank_config(
    bank: &mut Bank,
    caller: u64,
    liquidation_threshold: Option<u64>,
    liquidation_bonus: Option<u64>,
    liquidation_close_factor: Option<u64>,
    max_ltv: Option<u64>,
) -> (r: Result<(), LendingError>)
    requires
        old(bank).wf(),
    ensures
        final(bank).wf(),
        match r {
            Ok(()) => caller == old(bank).authority && *final(bank) == spec_apply_risk_params(
                *old(bank),
                liquidation_threshold,
                liquidation_bonus,
                liquidation_close_factor,
                max_ltv,
            ),
            Err(e) => *final(bank) == *old(bank) && e == LendingError::Unauthorized
                && caller != old(bank).authority,
        },
{
    if caller != bank.authority {
        return Err(LendingError::Unauthorized);
    }
    if let Some(threshold) = liquidation_threshold {
        bank.liquidation_threshold = threshold;
    }
    if let Some(bonus) = liquidation_bonus {
        bank.liquidation_bonus = bonus;
    }
    if let Some(factor) = liquidation_close_factor {
        bank.liquidation_close_factor = factor;
    }
    if let Some(ltv) = max_ltv {
        bank.max_ltv = ltv;
    }
    Ok(())
}

/// Read the pool's utilization, borrow rate and supply rate, in basis
/// points, or `MathOverflow` exactly when one of them does not fit a
/// `u64`.
pub fn get_bank_status(bank: &Bank) -> (r: Result<(u64, u64, u64), LendingError>)
    requires
        bank.wf(),
    ensures
        match r {
            Ok((utilization, borrow_rate, supply_rate)) => utilization == bank.spec_utilization()
                && borrow_rate == bank.spec_borrow_rate()
                && supply_rate == bank.spec_supply_rate(),
            Err(e) => e == LendingError::MathOverflow
                && (bank.spec_utilization() > u64::MAX
                    || bank.spec_borrow_rate() > u64::MAX
                    || bank.spec_supply_rate() > u64::MAX),
        },
{
    let borrow_rate = match bank.calculate_borrow_rate() {
        Ok(v) => v,
        Err(e) => {
            return Err(e);
        },
    };
    let supply_rate = match bank.calculate_supply_rate() {
        Ok(v) => v,
        Err(e) => {
            return Err(e);
        },
    };
    if bank.total_deposits != 0 {
        let wide: u128 = (bank.total_borrowed as u128) * (BASIS_POINTS as u128)
            / (bank.total_deposits as u128);
        proof {
            crate::interest::lemma_u64_mul_fits_u128(
                bank.total_borrowed as int,
                BASIS_POINTS as int,
            );
        }
        if wide > u64::MAX as u128 {
            return Err(LendingError::MathOverflow);
        }
    }
    Ok((bank.get_utilization_rate(), borrow_rate, supply_rate))
}

/// Emergency pause: accrue interest up to `now`, then zero both cached
/// rates so that further accrual compounds nothing. Only the pool
/// authority may call; on any error the pool is unchanged.
pub fn emergency_pause(bank: &mut Bank, caller: u64, now: i64) -> (r: Result<(), LendingError>)
    requires
        old(bank).wf(),
    ensures
        final(bank).wf(),
        match r {
            Ok(()) => caller == old(bank).authority
                && match old(bank).spec_update_interest(now) {
                    Some(accrued) => *final(bank) == (Bank {
                        current_borrow_rate: 0u64,
                        current_supply_rate: 0u64,
                        ..accrued
                    }),
                    None => false,
                },
            Err(e) => *final(bank) == *old(bank) && if caller != old(bank).authority {
                e == LendingError::Unauthorized
            } else {
                e == LendingError::MathOverflow
                    && old(bank).spec_update_interest(now) is None
            },
        },
{
    if caller != bank.authority {
        return Err(LendingError::Unauthorized);
    }
    match bank.update_interest(now) {
        Ok(()) => (),
        Err(e) => {
            return Err(e);
        },
    }
    bank.current_borrow_rate = 0;
    bank.current_supply_rate = 0;
    Ok(())
}

/// Resume after a pause: recompute both cached rates from the current
/// utilization and stamp `last_updated`, without accruing over the
/// paused span. Only the pool authority may call; on any error the
/// pool is unchanged.
pub fn resume_operations(bank: &mut Bank, caller: u64, now: i64) -> (r: Result<(), LendingError>)
    requires
        old(bank).wf(),
    ensures
        final(bank).wf(),
        match r {
            Ok(()) => caller == old(bank).authority && *final(bank) == (Bank {
                current_borrow_rate: old(bank).spec_borrow_rate() as u64,
                current_supply_rate: old(bank).spec_supply_rate() as u64,
                last_updated: now,
                ..*old(bank)
            }) && old(bank).spec_borrow_rate() <= u64::MAX
                && old(bank).spec_supply_rate() <= u64::MAX,
            Err(e) => *final(bank) == *old(bank) && if caller != old(bank).authority {
                e == LendingError::Unauthorized
            } else {
                e == LendingError::MathOverflow
                    && (old(bank).spec_borrow_rate() > u64::MAX
                        || old(bank).spec_supply_rate() > u64::MAX)
            },
        },
{
    if caller != bank.authority {
        return Err(LendingError::Unauthorized);
    }
    let borrow_rate = match bank.calculate_borrow_rate() {
        Ok(v) => v,
        Err(e) => {
            return Err(e);
        },
    };
    let supply_rate = match bank.calculate_supply_rate() {
        Ok(v) => v,
        Err(e) => {
            return Err(e);
        },
    };
    bank.current_borrow_rate = borrow_rate;
    bank.current_supply_rate = supply_rate;
    bank.last_updated = now;
    Ok(())
}

} // verus!
