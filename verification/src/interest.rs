//! Interest accrual: a deterministic fixed-point approximation of
//! continuous compounding.
//!
//! An annual rate in basis points is turned into a per-second growth
//! exponent `x = rate * dt * WAD / (BASIS_POINTS * SECONDS_PER_YEAR)`
//! (a fixed-point number scaled by `WAD`), and a principal grows by the
//! factor `exp_taylor_wad(x) / WAD`, a cubic Taylor approximation of
//! `e^(x/WAD)`. Every division floors; the truncation always favours the
//! pool. The whole computation is integer arithmetic, so two conforming
//! implementations produce bit-identical results.

use vstd::arithmetic::div_mod::{
    lemma_div_by_multiple, lemma_div_is_ordered, lemma_div_nonincreasing, lemma_div_pos_is_pos,
};
use vstd::arithmetic::mul::{lemma_mul_inequality, lemma_mul_nonnegative, lemma_mul_upper_bound};
use vstd::prelude::*;

use crate::error::LendingError;

verus! {

/// Denominator of all rate and fraction parameters: one basis point is
/// one ten-thousandth.
pub const BASIS_POINTS: u64 = 10000;

/// Seconds in the 365-day year used to scale annual rates.
pub const SECONDS_PER_YEAR: u64 = 365 * 24 * 60 * 60;

/// Scale of the fixed-point exponent and growth factor.
pub const WAD: u64 = 1_000_000_000_000;

/// Largest exponent the fixed-point `exp` accepts: `10_000 * WAD`, an
/// exponent of e^10000. Any pool whose growth exponent reaches this cap
/// has long overflowed a `u64` principal, so refusing larger inputs
/// loses nothing.
pub const EXP_INPUT_MAX: u64 = 10_000_000_000_000_000;

/// The growth exponent scaled by `WAD`, floor-divided once at the end for
/// maximal precision.
pub open spec fn growth_exponent_wad(rate_bps: int, dt: int) -> int {
    rate_bps * dt * (WAD as int) / ((BASIS_POINTS * SECONDS_PER_YEAR) as int)
}

/// Cubic Taylor approximation of `WAD * e^(x/WAD)`:
/// `WAD + x + x^2/(2 WAD) + x^3/(6 WAD^2)`, with the cube term computed
/// as `(x^2/(2 WAD)) * x / (3 WAD)` so that every step floors.
pub open spec fn exp_taylor_wad(x: int) -> int {
    (WAD as int) + x + square_term(x) + cube_term(x)
}

/// The quadratic Taylor term `x^2 / (2 WAD)`.
pub open spec fn square_term(x: int) -> int {
    x * x / (2 * WAD as int)
}

/// The cubic Taylor term, `(x^2 / (2 WAD)) * x / (3 WAD)`.
pub open spec fn cube_term(x: int) -> int {
    square_term(x) * x / (3 * WAD as int)
}

/// The value of `principal` after interest at `rate_bps` compounds for
/// `dt` seconds. A non-positive `dt` and a zero principal accrue nothing.
pub open spec fn accrued_value(principal: int, rate_bps: int, dt: int) -> int {
    if principal == 0 || dt <= 0 {
        principal
    } else {
        principal * exp_taylor_wad(growth_exponent_wad(rate_bps, dt)) / (WAD as int)
    }
}

/// Whether the accrual of `principal` at `rate_bps` over `dt` seconds
/// stays within the machine's bounds: the growth exponent within the
/// domain of the fixed-point `exp`, and the accrued value within `u64`.
pub open spec fn accrual_fits(principal: int, rate_bps: int, dt: int) -> bool {
    principal == 0 || dt <= 0 || {
        growth_exponent_wad(rate_bps, dt) <= EXP_INPUT_MAX
            && accrued_value(principal, rate_bps, dt) <= u64::MAX
    }
}

/// The growth exponent is never negative for a non-negative rate and span.
pub proof fn lemma_growth_exponent_nonneg(rate_bps: int, dt: int)
    requires
        rate_bps >= 0,
        dt >= 0,
    ensures
        growth_exponent_wad(rate_bps, dt) >= 0,
{
    lemma_mul_nonnegative(rate_bps, dt);
    lemma_mul_nonnegative(rate_bps * dt, WAD as int);
    lemma_div_pos_is_pos(rate_bps * dt * (WAD as int), (BASIS_POINTS * SECONDS_PER_YEAR) as int);
}

/// The growth factor never falls below `WAD`, so accrual never shrinks
/// a principal: compounding at a non-negative rate is non-decreasing.
pub proof fn lemma_exp_taylor_at_least_wad(x: int)
    requires
        x >= 0,
    ensures
        exp_taylor_wad(x) >= WAD + x,
{
    lemma_mul_nonnegative(x, x);
    lemma_div_pos_is_pos(x * x, 2 * WAD as int);
    lemma_mul_nonnegative(square_term(x), x);
    lemma_div_pos_is_pos(square_term(x) * x, 3 * WAD as int);
}

/// Accrual never decreases the principal.
pub proof fn lemma_accrued_value_monotone(principal: int, rate_bps: int, dt: int)
    requires
        principal >= 0,
        rate_bps >= 0,
    ensures
        accrued_value(principal, rate_bps, dt) >= principal,
{
    if principal != 0 && dt > 0 {
        let x = growth_exponent_wad(rate_bps, dt);
        let w = WAD as int;
        lemma_growth_exponent_nonneg(rate_bps, dt);
        lemma_exp_taylor_at_least_wad(x);
        lemma_mul_inequality(w, exp_taylor_wad(x), principal);
        assert(principal * w == w * principal) by (nonlinear_arith);
        assert(principal * exp_taylor_wad(x) == exp_taylor_wad(x) * principal)
            by (nonlinear_arith);
        lemma_div_is_ordered(principal * w, principal * exp_taylor_wad(x), w);
        lemma_div_by_multiple(principal, w);
    }
}

/// Helper: a product of two values within `u64` fits a `u128`.
pub(crate) proof fn lemma_u64_mul_fits_u128(a: int, b: int)
    requires
        0 <= a <= u64::MAX,
        0 <= b <= u64::MAX,
    ensures
        0 <= a * b <= u128::MAX,
{
    lemma_mul_nonnegative(a, b);
    lemma_mul_upper_bound(a, u64::MAX as int, b, u64::MAX as int);
}

/// Helper: a quotient is at least `q` once the dividend reaches `q * d`.
pub(crate) proof fn lemma_div_at_least(n: int, d: int, q: int)
    requires
        d > 0,
        q >= 0,
        n >= q * d,
    ensures
        n / d >= q,
{
    lemma_div_by_multiple(q, d);
    lemma_div_is_ordered(q * d, n, d);
}

/// The `principal` after interest at annual rate `annual_rate_bps`
/// (basis points) compounds continuously from `last_updated` to `now`,
/// both unix timestamps. No time passing, or a zero principal, returns
/// the principal unchanged; a computation that would leave `u64` fails
/// with `MathOverflow` instead of saturating.
pub fn calculate_accrued_interest(
    principal: u64,
    annual_rate_bps: u64,
    last_updated: i64,
    now: i64,
) -> (r: Result<u64, LendingError>)
    ensures
        match r {
            Ok(v) => accrual_fits(principal as int, annual_rate_bps as int, now - last_updated)
                && v == accrued_value(principal as int, annual_rate_bps as int, now - last_updated),
            Err(e) => e == LendingError::MathOverflow
                && !accrual_fits(principal as int, annual_rate_bps as int, now - last_updated),
        },
{
    let dt_wide: i128 = (now as i128) - (last_updated as i128);
    if principal == 0 || dt_wide <= 0 {
        return Ok(principal);
    }
    let dt: u128 = dt_wide as u128;
    let ghost denom: int = (BASIS_POINTS * SECONDS_PER_YEAR) as int;
    let ghost x_spec: int = growth_exponent_wad(annual_rate_bps as int, dt as int);
    proof {
        lemma_growth_exponent_nonneg(annual_rate_bps as int, dt as int);
    }

    // x = rate * dt * WAD / (BASIS_POINTS * SECONDS_PER_YEAR)
    let rate_dt: u128 = match (annual_rate_bps as u128).checked_mul(dt) {
        Some(v) => v,
        None => {
            proof {
                // rate * dt exceeded u128, so x exceeds the exp domain.
                lemma_mul_inequality(denom, WAD as int, (annual_rate_bps as int) * (dt as int));
                assert((annual_rate_bps as int) * (dt as int) * denom
                    == denom * ((annual_rate_bps as int) * (dt as int))) by (nonlinear_arith);
                assert((annual_rate_bps as int) * (dt as int) * (WAD as int)
                    == (WAD as int) * ((annual_rate_bps as int) * (dt as int)))
                    by (nonlinear_arith);
                lemma_div_at_least(
                    (annual_rate_bps as int) * (dt as int) * (WAD as int),
                    denom,
                    (annual_rate_bps as int) * (dt as int),
                );
            }
            return Err(LendingError::MathOverflow);
        },
    };
    let scaled: u128 = match rate_dt.checked_mul(WAD as u128) {
        Some(v) => v,
        None => {
            proof {
                lemma_div_at_least(
                    (annual_rate_bps as int) * (dt as int) * (WAD as int),
                    denom,
                    (EXP_INPUT_MAX + 1) as int,
                );
            }
            return Err(LendingError::MathOverflow);
        },
    };
    let x: u128 = scaled / ((BASIS_POINTS as u128) * (SECONDS_PER_YEAR as u128));
    assert(x == x_spec);
    if x > EXP_INPUT_MAX as u128 {
        return Err(LendingError::MathOverflow);
    }

    // exp = WAD + x + x^2/(2 WAD) + (x^2/(2 WAD)) * x / (3 WAD)
    proof {
        lemma_mul_upper_bound(x as int, EXP_INPUT_MAX as int, x as int, EXP_INPUT_MAX as int);
    }
    let x2: u128 = x * x;
    let t2: u128 = x2 / (2 * WAD as u128);
    proof {
        lemma_div_is_ordered(
            x2 as int,
            (EXP_INPUT_MAX as int) * (EXP_INPUT_MAX as int),
            2 * WAD as int,
        );
        lemma_mul_upper_bound(
            t2 as int,
            (EXP_INPUT_MAX as int) * (EXP_INPUT_MAX as int) / (2 * WAD as int),
            x as int,
            EXP_INPUT_MAX as int,
        );
    }
    let t3: u128 = (t2 * x) / (3 * WAD as u128);
    proof {
        lemma_div_nonincreasing(t2 as int * x as int, 3 * WAD as int);
    }
    let exp_wad: u128 = WAD as u128 + x + t2 + t3;
    assert(exp_wad == exp_taylor_wad(x_spec));

    // accrued = principal * exp / WAD
    let product: u128 = match (principal as u128).checked_mul(exp_wad) {
        Some(v) => v,
        None => {
            proof {
                lemma_div_at_least(
                    (principal as int) * exp_taylor_wad(x_spec),
                    WAD as int,
                    (u64::MAX + 1) as int,
                );
            }
            return Err(LendingError::MathOverflow);
        },
    };
    let accrued: u128 = product / (WAD as u128);
    if accrued > u64::MAX as u128 {
        return Err(LendingError::MathOverflow);
    }
    Ok(accrued as u64)
}

} // verus!
