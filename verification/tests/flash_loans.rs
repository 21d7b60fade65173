use lending_core::bank::Bank;
use lending_core::error::LendingError;
use lending_core::flashloan::{initiate_flash_loan, repay_flash_loan, FlashLoan};

const MINT: u64 = 10;
const BORROWER: u64 = 7;
const NOW: i64 = 500;

fn pool(total_deposits: u64) -> Bank {
    Bank {
        authority: 1,
        mint_address: MINT,
        total_deposits,
        total_deposits_shares: total_deposits,
        liquidation_threshold: 80,
        liquidation_bonus: 500,
        liquidation_close_factor: 5000,
        total_borrowed: 0,
        total_borrowed_shares: 0,
        max_ltv: 5000,
        usdc_address: 0,
        last_updated: NOW,
        base_rate: 200,
        multiplier: 500,
        jump_multiplier: 5000,
        kink_utilization: 8000,
        current_borrow_rate: 200,
        current_supply_rate: 0,
        reserve_factor: 1000,
    }
}

#[test]
fn flash_loan_fee_is_nine_basis_points() {
    let bank = pool(100000);
    assert_eq!(bank.calculate_flash_loan_fee(10000), 9);
    assert_eq!(bank.calculate_flash_loan_fee(20000), 18);
    // Small principals floor to a zero fee.
    assert_eq!(bank.calculate_flash_loan_fee(1000), 0);
}

#[test]
fn initiation_requires_liquidity() {
    let mut bank = pool(100000);
    let before = bank;
    assert_eq!(
        initiate_flash_loan(&mut bank, BORROWER, 19999, 20000, NOW),
        Err(LendingError::InsufficientLiquidity)
    );
    assert_eq!(bank, before);
}

#[test]
fn initiation_creates_an_active_record() {
    let mut bank = pool(100000);
    let loan = initiate_flash_loan(&mut bank, BORROWER, 100000, 20000, NOW).unwrap();
    assert_eq!(loan.borrower, BORROWER);
    assert_eq!(loan.amount, 20000);
    assert_eq!(loan.fee, 18);
    assert!(loan.is_active);
    assert_eq!(loan.created_at, NOW);
}

#[test]
fn repayment_in_same_unit_adds_fee_to_deposits() {
    let mut bank = pool(100000);
    let mut loan = initiate_flash_loan(&mut bank, BORROWER, 100000, 20000, NOW).unwrap();
    let deposits_before = bank.total_deposits;
    assert_eq!(
        repay_flash_loan(&mut bank, &mut loan, BORROWER, 20018, NOW),
        Ok(())
    );
    assert_eq!(bank.total_deposits, deposits_before + 18);
    assert!(!loan.is_active);
}

#[test]
fn repayment_at_another_instant_is_refused() {
    let mut bank = pool(100000);
    let mut loan = initiate_flash_loan(&mut bank, BORROWER, 100000, 20000, NOW).unwrap();
    let before = bank;
    assert_eq!(
        repay_flash_loan(&mut bank, &mut loan, BORROWER, 20018, NOW + 1),
        Err(LendingError::FlashLoanMustBeRepaidInSameUnit)
    );
    assert_eq!(bank, before);
    assert!(loan.is_active);
}

#[test]
fn repayment_needs_principal_plus_fee() {
    let mut bank = pool(100000);
    let mut loan = initiate_flash_loan(&mut bank, BORROWER, 100000, 20000, NOW).unwrap();
    assert_eq!(
        repay_flash_loan(&mut bank, &mut loan, BORROWER, 20017, NOW),
        Err(LendingError::InsufficientBalanceForRepayment)
    );
    assert!(loan.is_active);
}

#[test]
fn only_the_borrower_may_repay() {
    let mut bank = pool(100000);
    let mut loan = initiate_flash_loan(&mut bank, BORROWER, 100000, 20000, NOW).unwrap();
    assert_eq!(
        repay_flash_loan(&mut bank, &mut loan, BORROWER + 1, 20018, NOW),
        Err(LendingError::UnauthorizedFlashLoan)
    );
}

#[test]
fn an_inactive_record_cannot_be_repaid() {
    let mut bank = pool(100000);
    let mut loan = FlashLoan {
        borrower: BORROWER,
        bank: MINT,
        mint: MINT,
        amount: 20000,
        fee: 18,
        is_active: false,
        created_at: NOW,
    };
    assert_eq!(
        repay_flash_loan(&mut bank, &mut loan, BORROWER, 20018, NOW),
        Err(LendingError::FlashLoanNotActive)
    );
}
