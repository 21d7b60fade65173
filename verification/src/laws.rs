//! Laws of the engine: properties that tie several operations
//! together, stated over the spec-level transitions and proved once
//! and for all.

use vstd::arithmetic::div_mod::{
    lemma_div_by_multiple, lemma_div_is_ordered, lemma_div_pos_is_pos, lemma_fundamental_div_mod,
    lemma_mod_bound, lemma_multiply_divide_lt,
};
use vstd::arithmetic::mul::{
    lemma_mul_inequality, lemma_mul_is_commutative, lemma_mul_is_distributive_add_other_way,
    lemma_mul_nonnegative,
};
use vstd::prelude::*;

use crate::bank::Bank;
use crate::error::LendingError;
use crate::flashloan::{spec_initiate_flash_loan, spec_repay_flash_loan, FlashLoan};
use crate::interest::{lemma_accrued_value_monotone, lemma_div_at_least, BASIS_POINTS};
use crate::ledger::{spec_deposit, spec_withdraw};
use crate::liquidate::spec_liquidate_healthy;
use crate::user::User;

verus! {

/// The deposit exchange rate never falls across an accrual: the share
/// count is untouched and the deposit total never shrinks, so
/// `total_deposits / total_deposits_shares` after the accrual is at
/// least the rate before it (stated cross-multiplied to avoid
/// fractions).
pub proof fn lemma_exchange_rate_monotone(bank: Bank, now: i64)
    requires
        bank.wf(),
        bank.spec_update_interest(now) is Some,
    ensures
        match bank.spec_update_interest(now) {
            Some(after) => after.total_deposits_shares == bank.total_deposits_shares
                && after.total_deposits >= bank.total_deposits
                && after.total_deposits * bank.total_deposits_shares
                    >= bank.total_deposits * after.total_deposits_shares,
            None => false,
        },
{
    let after = bank.spec_update_interest(now)->Some_0;
    if now - bank.last_updated > 0 {
        lemma_accrued_value_monotone(
            bank.total_deposits as int,
            bank.spec_supply_rate(),
            now - bank.last_updated,
        );
    }
    lemma_mul_inequality(
        bank.total_deposits as int,
        after.total_deposits as int,
        bank.total_deposits_shares as int,
    );
}

/// Between any two instants separated only by accrual the deposit
/// exchange rate is non-decreasing: accruing first at `t1` and then
/// at `t2` leaves the share count fixed and the deposit total
/// non-decreasing at each step.
pub proof fn lemma_exchange_rate_monotone_chain(bank: Bank, t1: i64, t2: i64)
    requires
        bank.wf(),
        bank.spec_update_interest(t1) is Some,
        match bank.spec_update_interest(t1) {
            Some(mid) => mid.spec_update_interest(t2) is Some,
            None => false,
        },
    ensures
        match bank.spec_update_interest(t1) {
            Some(mid) => match mid.spec_update_interest(t2) {
                Some(after) => after.total_deposits_shares == bank.total_deposits_shares
                    && after.total_deposits >= bank.total_deposits
                    && after.total_deposits * bank.total_deposits_shares
                        >= bank.total_deposits * after.total_deposits_shares,
                None => false,
            },
            None => false,
        },
{
    let mid = bank.spec_update_interest(t1)->Some_0;
    lemma_exchange_rate_monotone(bank, t1);
    lemma_exchange_rate_monotone(mid, t2);
    let after = mid.spec_update_interest(t2)->Some_0;
    lemma_mul_inequality(
        bank.total_deposits as int,
        after.total_deposits as int,
        bank.total_deposits_shares as int,
    );
}

/// Accrual is idempotent at a fixed instant: once `update_interest`
/// has run at `now`, running it again at the same `now` is a no-op.
pub proof fn lemma_update_interest_idempotent(bank: Bank, now: i64)
    requires
        bank.wf(),
        bank.spec_update_interest(now) is Some,
    ensures
        match bank.spec_update_interest(now) {
            Some(after) => after.spec_update_interest(now) == Some(after),
            None => false,
        },
{
}

/// The checked products and increments a unit-rate round trip needs.
pub open spec fn spec_round_trip_fits(bank: Bank, user: User, amount: u64) -> bool {
    amount * bank.total_deposits_shares <= u64::MAX
        && user.spec_deposited(bank.mint_address == user.usdc_address) + amount <= u64::MAX
        && user.spec_deposited_shares(bank.mint_address == user.usdc_address) + amount
            <= u64::MAX && bank.total_deposits + amount <= u64::MAX
}

/// Depositing `amount` and withdrawing the same `amount` at the same
/// logical instant gives back exactly what was put in: the pool
/// returns to its exact prior state and the position keeps nothing
/// but the new timestamp. Stated for a pool at the unit exchange rate
/// (deposits equal to shares, as after bootstrap); away from the unit
/// rate the minting truncation can make the freshly minted shares
/// worth less than `amount`, and the withdrawal is then refused
/// rather than paid out of other depositors' value.
pub proof fn lemma_deposit_withdraw_round_trip(bank: Bank, user: User, amount: u64, now: i64)
    requires
        bank.wf(),
        now <= bank.last_updated,
        bank.total_deposits == bank.total_deposits_shares,
        spec_round_trip_fits(bank, user, amount),
    ensures
        match spec_deposit(bank, user, amount, now) {
            Ok((mid_bank, mid_user)) => spec_withdraw(mid_bank, mid_user, amount, now) == Ok::<
                _,
                LendingError,
            >((bank, (User { last_updated: now, ..user }))),
            Err(e) => false,
        },
{
    let total = bank.total_deposits as int;
    if total > 0 {
        lemma_div_by_multiple(amount as int, total);
    }
    let deposited = spec_deposit(bank, user, amount, now);
    let mid_bank = deposited->Ok_0.0;
    let mid_user = deposited->Ok_0.1;
    let total_after = mid_bank.total_deposits as int;
    let is_usdc = bank.mint_address == user.usdc_address;
    if total_after > 0 {
        lemma_div_by_multiple(amount as int, total_after);
        lemma_div_by_multiple(mid_user.spec_deposited_shares(is_usdc) as int, total_after);
    }
    assert(spec_withdraw(mid_bank, mid_user, amount, now) == Ok::<_, LendingError>(
        (bank, (User { last_updated: now, ..user })),
    ));
}

/// At any exchange rate, withdrawing right after depositing burns
/// exactly the shares the deposit minted: the pair of floored
/// conversions leaks no shares in either direction, so the round trip
/// neither dilutes the other depositors nor pays the leaving one out
/// of their value.
pub proof fn lemma_round_trip_share_conservation(total: int, shares: int, amount: int)
    requires
        total > 0,
        shares > 0,
        amount >= 0,
    ensures
        amount * (shares + amount * shares / total) / (total + amount)
            == amount * shares / total,
{
    let minted = amount * shares / total;
    lemma_mul_nonnegative(amount, shares);
    lemma_fundamental_div_mod(amount * shares, total);
    lemma_mod_bound(amount * shares, total);
    lemma_div_pos_is_pos(amount * shares, total);
    assert(amount * (shares + minted) >= minted * (total + amount)) by (nonlinear_arith)
        requires
            amount * shares >= total * minted,
            amount >= 0,
            minted >= 0;
    assert(amount * (shares + minted) < (total + amount) * (minted + 1)) by (nonlinear_arith)
        requires
            amount * shares < total * minted + total,
            amount >= 0,
            minted >= 0,
            total > 0;
    lemma_div_at_least(amount * (shares + minted), total + amount, minted);
    lemma_multiply_divide_lt(amount * (shares + minted), total + amount, minted + 1);
}

/// The sum of a sequence of share holdings.
pub open spec fn sum_of(shares: Seq<int>) -> int
    decreases shares.len(),
{
    if shares.len() == 0 {
        0
    } else {
        sum_of(shares.drop_last()) + shares.last()
    }
}

/// The sum of the values of a sequence of share holdings under the
/// exchange rate `total / total_shares`, each value floored as the
/// ledger computes it.
pub open spec fn sum_of_values(shares: Seq<int>, total: int, total_shares: int) -> int
    decreases shares.len(),
{
    if shares.len() == 0 {
        0
    } else {
        sum_of_values(shares.drop_last(), total, total_shares)
            + shares.last() * total / total_shares
    }
}

/// A sum of non-negative holdings is non-negative.
proof fn lemma_sum_nonneg(shares: Seq<int>)
    requires
        forall|i: int| 0 <= i < shares.len() ==> shares[i] >= 0,
    ensures
        sum_of(shares) >= 0,
    decreases shares.len(),
{
    if shares.len() > 0 {
        lemma_sum_nonneg(shares.drop_last());
    }
}

/// Floored division distributes sub-additively over a sum: valuing
/// two holdings separately never yields more than valuing them
/// together.
proof fn lemma_floor_value_subadditive(a: int, b: int, total: int, total_shares: int)
    requires
        a >= 0,
        b >= 0,
        total >= 0,
        total_shares > 0,
    ensures
        a * total / total_shares + b * total / total_shares <= (a + b) * total / total_shares,
{
    let qa = a * total / total_shares;
    let qb = b * total / total_shares;
    lemma_mul_nonnegative(a, total);
    lemma_mul_nonnegative(b, total);
    lemma_fundamental_div_mod(a * total, total_shares);
    lemma_fundamental_div_mod(b * total, total_shares);
    lemma_mod_bound(a * total, total_shares);
    lemma_mod_bound(b * total, total_shares);
    lemma_mul_is_distributive_add_other_way(total, a, b);
    lemma_div_pos_is_pos(a * total, total_shares);
    lemma_div_pos_is_pos(b * total, total_shares);
    lemma_mul_is_distributive_add_other_way(total_shares, qa, qb);
    lemma_div_at_least((a + b) * total, total_shares, qa + qb);
}

/// The values of a sequence of holdings sum to no more than the value
/// of their total holding.
proof fn lemma_sum_values_bounded_by_total_holding(shares: Seq<int>, total: int, total_shares: int)
    requires
        total >= 0,
        total_shares > 0,
        forall|i: int| 0 <= i < shares.len() ==> shares[i] >= 0,
    ensures
        sum_of_values(shares, total, total_shares) <= sum_of(shares) * total / total_shares,
    decreases shares.len(),
{
    if shares.len() == 0 {
        lemma_div_pos_is_pos(0, total_shares);
    } else {
        let rest = shares.drop_last();
        lemma_sum_values_bounded_by_total_holding(rest, total, total_shares);
        lemma_sum_nonneg(rest);
        lemma_floor_value_subadditive(sum_of(rest), shares.last(), total, total_shares);
    }
}

/// A deposit moves the pool's share count and the position's share
/// count by exactly the same amount (and likewise the two recorded
/// amounts): accrual never touches share counts, so the sum of all
/// positions' shares keeps pace with the pool's.
pub proof fn lemma_deposit_moves_shares_symmetrically(
    bank: Bank,
    user: User,
    amount: u64,
    now: i64,
)
    ensures
        match spec_deposit(bank, user, amount, now) {
            Ok((after_bank, after_user)) => {
                &&& after_bank.total_deposits_shares - bank.total_deposits_shares
                    == after_user.spec_deposited_shares(bank.mint_address == user.usdc_address)
                        - user.spec_deposited_shares(bank.mint_address == user.usdc_address)
                &&& after_user.spec_deposited(bank.mint_address == user.usdc_address)
                    - user.spec_deposited(bank.mint_address == user.usdc_address) == amount
            },
            Err(e) => true,
        },
{
}

/// A withdrawal moves the pool's share count and the position's share
/// count by exactly the same amount, mirroring the deposit.
pub proof fn lemma_withdraw_moves_shares_symmetrically(
    bank: Bank,
    user: User,
    amount: u64,
    now: i64,
)
    ensures
        match spec_withdraw(bank, user, amount, now) {
            Ok((after_bank, after_user)) => {
                &&& bank.total_deposits_shares - after_bank.total_deposits_shares
                    == user.spec_deposited_shares(bank.mint_address == user.usdc_address)
                        - after_user.spec_deposited_shares(bank.mint_address == user.usdc_address)
                &&& user.spec_deposited(bank.mint_address == user.usdc_address)
                    - after_user.spec_deposited(bank.mint_address == user.usdc_address) == amount
            },
            Err(e) => true,
        },
{
}

/// No value is conjured by rounding: as long as the positions'
/// shares sum to no more than the pool's share count — which every
/// deposit and withdrawal preserves, moving exactly equal share
/// amounts on the position and on the pool — the sum of the
/// positions' computed deposit values never exceeds the pool's
/// `total_deposits`.
pub proof fn lemma_sum_of_position_values_bounded(
    shares: Seq<int>,
    total: int,
    total_shares: int,
)
    requires
        total >= 0,
        total_shares > 0,
        forall|i: int| 0 <= i < shares.len() ==> shares[i] >= 0,
        sum_of(shares) <= total_shares,
    ensures
        sum_of_values(shares, total, total_shares) <= total,
{
    lemma_sum_values_bounded_by_total_holding(shares, total, total_shares);
    lemma_sum_nonneg(shares);
    lemma_mul_inequality(sum_of(shares), total_shares, total);
    lemma_mul_is_commutative(sum_of(shares), total);
    lemma_mul_is_commutative(total_shares, total);
    lemma_div_is_ordered(sum_of(shares) * total, total_shares * total, total_shares);
    lemma_div_by_multiple(total, total_shares);
    lemma_mul_is_commutative(total, total_shares);
}

/// A liquidation is always partial: the repaid amount never exceeds
/// the `liquidation_close_factor` fraction of the priced debt (stated
/// cross-multiplied), so a single call can never clear a whole
/// position.
pub proof fn lemma_liquidation_repays_at_most_close_factor(
    cb: Bank,
    db: Bank,
    user: User,
    is_usdc_collateral: bool,
    is_usdc_debt: bool,
    collateral_value: int,
    debt_value: int,
    now: i64,
)
    requires
        debt_value >= 0,
    ensures
        match spec_liquidate_healthy(
            cb,
            db,
            user,
            is_usdc_collateral,
            is_usdc_debt,
            collateral_value,
            debt_value,
            now,
        ) {
            Ok((after_cb, after_db, after_user, liquidation_amount, liquidator_reward)) =>
                liquidation_amount * BASIS_POINTS
                    <= debt_value * db.liquidation_close_factor,
            Err(e) => true,
        },
{
    let scaled = debt_value * db.liquidation_close_factor;
    lemma_mul_nonnegative(debt_value, db.liquidation_close_factor as int);
    lemma_fundamental_div_mod(scaled, BASIS_POINTS as int);
    lemma_mod_bound(scaled, BASIS_POINTS as int);
    lemma_div_pos_is_pos(scaled, BASIS_POINTS as int);
    lemma_mul_is_commutative(scaled / (BASIS_POINTS as int), BASIS_POINTS as int);
}

/// A flash loan must close in the unit that opened it: repaying at
/// any other instant fails, and repaying at the same instant with a
/// sufficient balance succeeds and grows the pool's deposits by
/// exactly the fee.
pub proof fn lemma_flash_loan_round_trip(
    bank: Bank,
    borrower: u64,
    available_liquidity: u64,
    amount: u64,
    balance: u64,
    opened_at: i64,
    repaid_at: i64,
)
    requires
        bank.wf(),
    ensures
        match spec_initiate_flash_loan(bank, borrower, available_liquidity, amount, opened_at) {
            Ok((mid_bank, loan)) => (repaid_at != opened_at
                ==> spec_repay_flash_loan(mid_bank, loan, borrower, balance, repaid_at) == Err::<
                    (Bank, FlashLoan),
                    _,
                >(LendingError::FlashLoanMustBeRepaidInSameUnit)) && (repaid_at == opened_at
                && amount + loan.fee <= u64::MAX && balance >= amount + loan.fee
                && mid_bank.total_deposits + loan.fee <= u64::MAX
                ==> match spec_repay_flash_loan(mid_bank, loan, borrower, balance, repaid_at) {
                    Ok((after_bank, closed)) => after_bank.total_deposits
                        == mid_bank.total_deposits + loan.fee && !closed.is_active,
                    Err(e) => false,
                }),
            Err(e) => true,
        },
{
}

} // verus!

