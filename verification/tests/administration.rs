use lending_core::admin::{
    emergency_pause, initbank, inituser, resume_operations, update_bank_config,
    update_bank_kink_params,
};
use lending_core::error::LendingError;

const AUTHORITY: u64 = 1;
const MINT: u64 = 10;
const NOW: i64 = 300;

#[test]
fn a_new_bank_starts_empty_with_defaults() {
    let bank = initbank(AUTHORITY, MINT, 8000, 5000, None, None, None, None, None, NOW);
    assert_eq!(bank.authority, AUTHORITY);
    assert_eq!(bank.mint_address, MINT);
    assert_eq!(bank.total_deposits, 0);
    assert_eq!(bank.total_deposits_shares, 0);
    assert_eq!(bank.total_borrowed, 0);
    assert_eq!(bank.total_borrowed_shares, 0);
    assert_eq!(bank.liquidation_threshold, 8000);
    assert_eq!(bank.max_ltv, 5000);
    assert_eq!(bank.liquidation_bonus, 500);
    assert_eq!(bank.liquidation_close_factor, 5000);
    assert_eq!(bank.base_rate, 200);
    assert_eq!(bank.multiplier, 500);
    assert_eq!(bank.jump_multiplier, 5000);
    assert_eq!(bank.kink_utilization, 8000);
    assert_eq!(bank.reserve_factor, 1000);
    assert_eq!(bank.current_borrow_rate, 200);
    assert_eq!(bank.current_supply_rate, 0);
    assert_eq!(bank.last_updated, NOW);
}

#[test]
fn explicit_rate_parameters_override_the_defaults() {
    let bank = initbank(
        AUTHORITY,
        MINT,
        8000,
        5000,
        Some(300),
        Some(600),
        Some(4000),
        Some(7000),
        Some(1500),
        NOW,
    );
    assert_eq!(bank.base_rate, 300);
    assert_eq!(bank.multiplier, 600);
    assert_eq!(bank.jump_multiplier, 4000);
    assert_eq!(bank.kink_utilization, 7000);
    assert_eq!(bank.reserve_factor, 1500);
    assert_eq!(bank.current_borrow_rate, 300);
}

#[test]
fn a_new_user_holds_nothing() {
    let user = inituser(7, 20);
    assert_eq!(user.owner, 7);
    assert_eq!(user.usdc_address, 20);
    assert_eq!(user.deposited_sol, 0);
    assert_eq!(user.deposited_sol_shares, 0);
    assert_eq!(user.borrowed_usdc, 0);
    assert_eq!(user.borrowed_usdc_shares, 0);
}

#[test]
fn only_the_authority_updates_rate_parameters() {
    let mut bank = initbank(AUTHORITY, MINT, 8000, 5000, None, None, None, None, None, NOW);
    let before = bank;
    assert_eq!(
        update_bank_kink_params(
            &mut bank,
            AUTHORITY + 1,
            Some(300),
            None,
            None,
            None,
            None,
            NOW
        ),
        Err(LendingError::Unauthorized)
    );
    assert_eq!(bank, before);
    assert_eq!(
        update_bank_kink_params(&mut bank, AUTHORITY, Some(300), None, Some(4500), None, None, NOW),
        Ok(())
    );
    assert_eq!(bank.base_rate, 300);
    assert_eq!(bank.multiplier, 500);
    assert_eq!(bank.jump_multiplier, 4500);
}

#[test]
fn only_the_authority_updates_risk_parameters() {
    let mut bank = initbank(AUTHORITY, MINT, 8000, 5000, None, None, None, None, None, NOW);
    assert_eq!(
        update_bank_config(&mut bank, AUTHORITY + 1, Some(90), None, None, None),
        Err(LendingError::Unauthorized)
    );
    assert_eq!(
        update_bank_config(&mut bank, AUTHORITY, Some(9000), Some(700), None, Some(6000)),
        Ok(())
    );
    assert_eq!(bank.liquidation_threshold, 9000);
    assert_eq!(bank.liquidation_bonus, 700);
    assert_eq!(bank.liquidation_close_factor, 5000);
    assert_eq!(bank.max_ltv, 6000);
}

#[test]
fn errors_carry_a_short_description() {
    assert_eq!(LendingError::MathOverflow.message(), "math overflow");
    assert_eq!(LendingError::Unauthorized.message(), "unauthorized");
    assert_eq!(
        LendingError::HealthFactorAboveOne.message(),
        "health factor above one"
    );
}

#[test]
fn pausing_zeroes_rates_and_resuming_recomputes_them() {
    let mut bank = initbank(AUTHORITY, MINT, 8000, 5000, None, None, None, None, None, NOW);
    bank.total_deposits = 10000;
    bank.total_deposits_shares = 10000;
    bank.total_borrowed = 9000;
    bank.total_borrowed_shares = 9000;
    assert_eq!(
        emergency_pause(&mut bank, AUTHORITY + 1, NOW),
        Err(LendingError::Unauthorized)
    );
    assert_eq!(emergency_pause(&mut bank, AUTHORITY, NOW), Ok(()));
    assert_eq!(bank.current_borrow_rate, 0);
    assert_eq!(bank.current_supply_rate, 0);
    assert_eq!(resume_operations(&mut bank, AUTHORITY, NOW + 50), Ok(()));
    assert_eq!(bank.current_borrow_rate, 1100);
    assert_eq!(bank.current_supply_rate, 891);
    assert_eq!(bank.last_updated, NOW + 50);
}
