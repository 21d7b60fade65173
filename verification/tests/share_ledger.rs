use lending_core::admin::inituser;
use lending_core::bank::Bank;
use lending_core::error::LendingError;
use lending_core::ledger::{borrow, deposit, repay, withdraw};
use lending_core::user::User;

const SOL_MINT: u64 = 10;
const USDC_MINT: u64 = 20;

fn sol_pool(total_deposits: u64, shares: u64, total_borrowed: u64, borrow_shares: u64) -> Bank {
    Bank {
        authority: 1,
        mint_address: SOL_MINT,
        total_deposits,
        total_deposits_shares: shares,
        liquidation_threshold: 80,
        liquidation_bonus: 500,
        liquidation_close_factor: 5000,
        total_borrowed,
        total_borrowed_shares: borrow_shares,
        max_ltv: 5000,
        usdc_address: USDC_MINT,
        last_updated: 100,
        base_rate: 200,
        multiplier: 500,
        jump_multiplier: 5000,
        kink_utilization: 8000,
        current_borrow_rate: 200,
        current_supply_rate: 0,
        reserve_factor: 1000,
    }
}

fn usdc_pool(total_deposits: u64, shares: u64, total_borrowed: u64, borrow_shares: u64) -> Bank {
    let mut bank = sol_pool(total_deposits, shares, total_borrowed, borrow_shares);
    bank.mint_address = USDC_MINT;
    bank
}

fn position() -> User {
    inituser(7, USDC_MINT)
}

#[test]
fn first_deposit_mints_shares_one_for_one() {
    // An empty pool bootstraps at exchange rate one: 1000 units make
    // 1000 shares.
    let mut bank = sol_pool(0, 0, 0, 0);
    let mut user = position();
    assert_eq!(deposit(&mut bank, &mut user, 1000, 100), Ok(()));
    assert_eq!(bank.total_deposits, 1000);
    assert_eq!(bank.total_deposits_shares, 1000);
    assert_eq!(user.deposited_sol, 1000);
    assert_eq!(user.deposited_sol_shares, 1000);
    assert_eq!(user.last_updated, 100);
}

#[test]
fn second_deposit_mints_proportional_shares() {
    // With 1000 deposits over 1000 shares, 500 more units make
    // exactly 500 shares.
    let mut bank = sol_pool(1000, 1000, 0, 0);
    let mut user = position();
    assert_eq!(deposit(&mut bank, &mut user, 500, 100), Ok(()));
    assert_eq!(bank.total_deposits, 1500);
    assert_eq!(bank.total_deposits_shares, 1500);
    assert_eq!(user.deposited_sol_shares, 500);
}

#[test]
fn deposit_at_higher_exchange_rate_mints_fewer_shares() {
    // 2000 deposits over 1000 shares: rate two, so 500 units mint 250
    // shares.
    let mut bank = sol_pool(2000, 1000, 0, 0);
    let mut user = position();
    assert_eq!(deposit(&mut bank, &mut user, 500, 100), Ok(()));
    assert_eq!(bank.total_deposits, 2500);
    assert_eq!(bank.total_deposits_shares, 1250);
    assert_eq!(user.deposited_sol_shares, 250);
}

#[test]
fn deposit_routes_by_asset_to_quote_side() {
    let mut bank = usdc_pool(0, 0, 0, 0);
    let mut user = position();
    assert_eq!(deposit(&mut bank, &mut user, 300, 100), Ok(()));
    assert_eq!(user.deposited_usdc, 300);
    assert_eq!(user.deposited_usdc_shares, 300);
    assert_eq!(user.deposited_sol, 0);
}

#[test]
fn deposit_share_product_overflow_is_refused() {
    let mut bank = sol_pool(1, 3, 0, 0);
    let mut user = position();
    let before_bank = bank;
    let before_user = user;
    assert_eq!(
        deposit(&mut bank, &mut user, u64::MAX / 2, 100),
        Err(LendingError::MathOverflow)
    );
    assert_eq!(bank, before_bank);
    assert_eq!(user, before_user);
}

#[test]
fn deposit_then_withdraw_returns_exactly_the_amount() {
    // Deposit then immediately withdraw the same value at the same
    // logical time: the pool and the position return to their exact
    // prior state.
    let mut bank = sol_pool(1000, 1000, 0, 0);
    let mut user = position();
    assert_eq!(deposit(&mut bank, &mut user, 777, 100), Ok(()));
    assert_eq!(withdraw(&mut bank, &mut user, 777, 100), Ok(()));
    assert_eq!(bank, sol_pool(1000, 1000, 0, 0));
    let mut expected = position();
    expected.last_updated = 100;
    assert_eq!(user, expected);
}

#[test]
fn withdraw_beyond_recorded_deposit_is_refused() {
    let mut bank = sol_pool(1000, 1000, 0, 0);
    let mut user = position();
    user.deposited_sol = 100;
    user.deposited_sol_shares = 100;
    assert_eq!(
        withdraw(&mut bank, &mut user, 101, 100),
        Err(LendingError::InsufficientFunds)
    );
}

#[test]
fn withdraw_capped_by_share_value() {
    // The position records 100 deposited but its 100 shares are only
    // worth 10 under the pool's exchange rate: the interest-aware cap
    // refuses 50.
    let mut bank = sol_pool(100, 1000, 0, 0);
    let mut user = position();
    user.deposited_sol = 100;
    user.deposited_sol_shares = 100;
    assert_eq!(
        withdraw(&mut bank, &mut user, 50, 100),
        Err(LendingError::InsufficientFunds)
    );
}

#[test]
fn withdraw_underflow_of_pool_total_is_refused() {
    // The position claims more than the whole pool: the decrement
    // guard fires before any state changes.
    let mut bank = sol_pool(100, 100, 0, 0);
    let mut user = position();
    user.deposited_sol = 500;
    user.deposited_sol_shares = 500;
    let before_bank = bank;
    assert_eq!(
        withdraw(&mut bank, &mut user, 300, 100),
        Err(LendingError::InsufficientBalance)
    );
    assert_eq!(bank, before_bank);
}

#[test]
fn borrow_within_limit_mints_borrow_shares() {
    // Collateral: 1000 shares worth 1000 at price 10 = 10000; with
    // max_ltv 5000 the position may draw value 5000. Borrowing 400 at
    // price 10 asks for 4000: allowed, bootstrapping borrow shares.
    let mut debt_bank = usdc_pool(5000, 5000, 0, 0);
    let mut collateral_bank = sol_pool(1000, 1000, 0, 0);
    let mut user = position();
    user.deposited_sol = 1000;
    user.deposited_sol_shares = 1000;
    assert_eq!(
        borrow(&mut debt_bank, &mut collateral_bank, &mut user, 10, 10, 400, 100),
        Ok(())
    );
    assert_eq!(debt_bank.total_borrowed, 400);
    assert_eq!(debt_bank.total_borrowed_shares, 400);
    assert_eq!(user.borrowed_usdc, 400);
    assert_eq!(user.borrowed_usdc_shares, 400);
    assert_eq!(user.last_updated_borrow, 100);
}

#[test]
fn borrow_beyond_collateral_power_is_refused() {
    let mut debt_bank = usdc_pool(5000, 5000, 0, 0);
    let mut collateral_bank = sol_pool(1000, 1000, 0, 0);
    let mut user = position();
    user.deposited_sol = 1000;
    user.deposited_sol_shares = 1000;
    assert_eq!(
        borrow(&mut debt_bank, &mut collateral_bank, &mut user, 10, 10, 600, 100),
        Err(LendingError::OverBorrowableAmount)
    );
    assert_eq!(debt_bank.total_borrowed, 0);
    assert_eq!(user.borrowed_usdc, 0);
}

#[test]
fn repay_burns_proportional_borrow_shares() {
    let mut bank = usdc_pool(5000, 5000, 1000, 1000);
    let mut user = position();
    user.borrowed_usdc = 400;
    user.borrowed_usdc_shares = 400;
    assert_eq!(repay(&mut bank, &mut user, 150, 100), Ok(()));
    assert_eq!(bank.total_borrowed, 850);
    assert_eq!(bank.total_borrowed_shares, 850);
    assert_eq!(user.borrowed_usdc, 250);
    assert_eq!(user.borrowed_usdc_shares, 250);
}

#[test]
fn repay_more_than_owed_is_refused() {
    let mut bank = usdc_pool(5000, 5000, 1000, 1000);
    let mut user = position();
    user.borrowed_usdc = 400;
    user.borrowed_usdc_shares = 400;
    assert_eq!(
        repay(&mut bank, &mut user, 401, 100),
        Err(LendingError::OverRepay)
    );
}

#[test]
fn repay_underflow_of_recorded_debt_is_refused() {
    // The shares say the debt is 400 but the recorded amount is only
    // 50: repaying 100 would underflow the record, so it is refused
    // whole.
    let mut bank = usdc_pool(5000, 5000, 1000, 1000);
    let mut user = position();
    user.borrowed_usdc = 50;
    user.borrowed_usdc_shares = 400;
    let before_bank = bank;
    let before_user = user;
    assert_eq!(
        repay(&mut bank, &mut user, 100, 100),
        Err(LendingError::InsufficientBalance)
    );
    assert_eq!(bank, before_bank);
    assert_eq!(user, before_user);
}

#[test]
fn deposits_never_exceed_pool_total_after_many_movements() {
    // Two positions deposit and withdraw in turn; at every step the
    // sum of their computed values stays within the pool's total.
    let mut bank = sol_pool(0, 0, 0, 0);
    let mut alice = position();
    let mut bob = position();
    assert_eq!(deposit(&mut bank, &mut alice, 1000, 100), Ok(()));
    assert_eq!(deposit(&mut bank, &mut bob, 333, 100), Ok(()));
    assert_eq!(withdraw(&mut bank, &mut alice, 400, 100), Ok(()));
    assert_eq!(deposit(&mut bank, &mut bob, 77, 100), Ok(()));
    assert_eq!(withdraw(&mut bank, &mut bob, 250, 100), Ok(()));
    let value = |shares: u64| -> u64 {
        if bank.total_deposits_shares == 0 {
            0
        } else {
            (shares as u128 * bank.total_deposits as u128 / bank.total_deposits_shares as u128)
                as u64
        }
    };
    let total_owed = value(alice.deposited_sol_shares) + value(bob.deposited_sol_shares);
    assert!(total_owed <= bank.total_deposits);
    assert_eq!(
        alice.deposited_sol_shares + bob.deposited_sol_shares,
        bank.total_deposits_shares
    );
}
