use lending_core::admin::inituser;
use lending_core::bank::Bank;
use lending_core::error::LendingError;
use lending_core::liquidate::{liquidate, OraclePrice};
use lending_core::user::User;

const SOL_MINT: u64 = 10;
const USDC_MINT: u64 = 20;
const MAX_AGE: u64 = 60;
const NOW: i64 = 1000;

fn collateral_pool() -> Bank {
    // SOL pool holding the borrower's collateral: 1000 deposits over
    // 1000 shares, threshold 80, bonus 5%.
    Bank {
        authority: 1,
        mint_address: SOL_MINT,
        total_deposits: 1000,
        total_deposits_shares: 1000,
        liquidation_threshold: 80,
        liquidation_bonus: 500,
        liquidation_close_factor: 5000,
        total_borrowed: 0,
        total_borrowed_shares: 0,
        max_ltv: 5000,
        usdc_address: USDC_MINT,
        last_updated: NOW,
        base_rate: 200,
        multiplier: 500,
        jump_multiplier: 5000,
        kink_utilization: 8000,
        current_borrow_rate: 200,
        current_supply_rate: 0,
        reserve_factor: 1000,
    }
}

fn debt_pool(total_borrowed: u64) -> Bank {
    let mut bank = collateral_pool();
    bank.mint_address = USDC_MINT;
    bank.total_borrowed = total_borrowed;
    bank.total_borrowed_shares = total_borrowed;
    bank
}

fn borrower(debt_shares: u64) -> User {
    let mut user = inituser(7, USDC_MINT);
    user.deposited_sol = 1000;
    user.deposited_sol_shares = 1000;
    user.borrowed_usdc = debt_shares;
    user.borrowed_usdc_shares = debt_shares;
    user
}

fn fresh(price: u64) -> OraclePrice {
    OraclePrice { price, publish_time: NOW }
}

#[test]
fn healthy_position_is_not_liquidatable() {
    // Collateral value 1000 at threshold 80 supports debt up to 800:
    // a debt of 700 keeps the health factor above one.
    let mut cb = collateral_pool();
    let mut db = debt_pool(1000);
    let mut user = borrower(700);
    let before = (cb, db, user);
    assert_eq!(
        liquidate(&mut cb, &mut db, &mut user, fresh(1), fresh(1), MAX_AGE, NOW),
        Err(LendingError::HealthFactorAboveOne)
    );
    assert_eq!((cb, db, user), before);
}

#[test]
fn zero_debt_is_never_liquidatable() {
    let mut cb = collateral_pool();
    let mut db = debt_pool(1000);
    let mut user = borrower(0);
    assert_eq!(
        liquidate(&mut cb, &mut db, &mut user, fresh(1), fresh(1), MAX_AGE, NOW),
        Err(LendingError::HealthFactorAboveOne)
    );
}

#[test]
fn undercollateralized_position_is_partially_seized() {
    // Debt 900 against collateral 1000 at threshold 80: the health
    // factor is below one. Half the debt (close factor 50%) is
    // repaid: 450; the liquidator seizes 450 plus the 5% bonus: 472.
    let mut cb = collateral_pool();
    let mut db = debt_pool(1000);
    let mut user = borrower(900);
    assert_eq!(
        liquidate(&mut cb, &mut db, &mut user, fresh(1), fresh(1), MAX_AGE, NOW),
        Ok((450, 472))
    );
    assert_eq!(db.total_borrowed, 550);
    assert_eq!(db.total_borrowed_shares, 550);
    assert_eq!(cb.total_deposits, 528);
    assert_eq!(cb.total_deposits_shares, 528);
    assert_eq!(user.borrowed_usdc_shares, 450);
    assert_eq!(user.deposited_sol_shares, 528);
    assert_eq!(user.last_updated, NOW);
    assert_eq!(user.last_updated_borrow, NOW);
    // At most the close factor's fraction of the debt was repaid.
    assert!(450 <= 900 * cb.liquidation_close_factor / 10000);
}

#[test]
fn stale_oracle_price_aborts_liquidation() {
    let mut cb = collateral_pool();
    let mut db = debt_pool(1000);
    let mut user = borrower(900);
    let stale = OraclePrice { price: 1, publish_time: NOW - (MAX_AGE as i64) - 1 };
    let before = (cb, db, user);
    assert_eq!(
        liquidate(&mut cb, &mut db, &mut user, stale, fresh(1), MAX_AGE, NOW),
        Err(LendingError::OracleError)
    );
    assert_eq!((cb, db, user), before);
}

#[test]
fn price_value_overflow_aborts_liquidation() {
    let mut cb = collateral_pool();
    let mut db = debt_pool(1000);
    let mut user = borrower(900);
    assert_eq!(
        liquidate(&mut cb, &mut db, &mut user, fresh(u64::MAX), fresh(1), MAX_AGE, NOW),
        Err(LendingError::MathOverflow)
    );
}
