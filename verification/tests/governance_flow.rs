use lending_core::admin::inituser;
use lending_core::bank::Bank;
use lending_core::error::LendingError;
use lending_core::governance::{
    cast_vote, create_proposal, execute_proposal, Proposal, PROPOSAL_UPDATE_RATE_CONFIG,
    PROPOSAL_UPDATE_RISK_CONFIG,
};
use lending_core::user::User;

const MINT: u64 = 10;
const NOW: i64 = 5000;

fn pool() -> Bank {
    Bank {
        authority: 1,
        mint_address: MINT,
        total_deposits: 1000,
        total_deposits_shares: 1000,
        liquidation_threshold: 80,
        liquidation_bonus: 500,
        liquidation_close_factor: 5000,
        total_borrowed: 0,
        total_borrowed_shares: 0,
        max_ltv: 5000,
        usdc_address: 0,
        last_updated: NOW,
        base_rate: 200,
        multiplier: 500,
        jump_multiplier: 5000,
        kink_utilization: 8000,
        current_borrow_rate: 200,
        current_supply_rate: 0,
        reserve_factor: 1000,
    }
}

fn staked_user(sol_shares: u64, usdc_shares: u64) -> User {
    let mut user = inituser(7, 20);
    user.deposited_sol_shares = sol_shares;
    user.deposited_usdc_shares = usdc_shares;
    user
}

fn passed_proposal(proposal_type: u8, params: [u64; 5], end_time: i64) -> Proposal {
    Proposal {
        proposer: 7,
        bank: MINT,
        id: 1,
        proposal_type,
        param_1: params[0],
        param_2: params[1],
        param_3: params[2],
        param_4: params[3],
        param_5: params[4],
        votes_for: 10,
        votes_against: 3,
        created_at: 0,
        end_time,
        executed: false,
    }
}

#[test]
fn creating_a_proposal_needs_stake() {
    let user = staked_user(0, 0);
    assert_eq!(
        create_proposal(&user, 7, MINT, 1, PROPOSAL_UPDATE_RISK_CONFIG, 90, 0, 0, 0, 0, 600, NOW),
        Err(LendingError::InsufficientStake)
    );
}

#[test]
fn a_created_proposal_opens_its_voting_window() {
    let user = staked_user(100, 0);
    let proposal = create_proposal(
        &user,
        7,
        MINT,
        1,
        PROPOSAL_UPDATE_RISK_CONFIG,
        90,
        0,
        0,
        0,
        0,
        600,
        NOW,
    )
    .unwrap();
    assert_eq!(proposal.created_at, NOW);
    assert_eq!(proposal.end_time, NOW + 600);
    assert_eq!(proposal.votes_for, 0);
    assert_eq!(proposal.votes_against, 0);
    assert!(!proposal.executed);
}

#[test]
fn voting_power_is_the_live_deposit_shares() {
    let user = staked_user(300, 200);
    let mut proposal = passed_proposal(PROPOSAL_UPDATE_RISK_CONFIG, [0; 5], NOW + 600);
    proposal.votes_for = 0;
    proposal.votes_against = 0;
    let record = cast_vote(&mut proposal, &user, 7, true, NOW).unwrap();
    assert_eq!(proposal.votes_for, 500);
    assert_eq!(proposal.votes_against, 0);
    assert_eq!(record.proposal, proposal.id);
    assert_eq!(record.voter, 7);
    assert!(record.voted);
    let against = cast_vote(&mut proposal, &user, 8, false, NOW).unwrap();
    assert_eq!(proposal.votes_against, 500);
    assert_eq!(against.voter, 8);
}

#[test]
fn voting_without_stake_is_refused() {
    let user = staked_user(0, 0);
    let mut proposal = passed_proposal(PROPOSAL_UPDATE_RISK_CONFIG, [0; 5], NOW + 600);
    assert_eq!(
        cast_vote(&mut proposal, &user, 7, true, NOW),
        Err(LendingError::InsufficientStake)
    );
}

#[test]
fn voting_at_or_after_the_end_is_refused() {
    // A zero-duration proposal ends at its creation instant: a vote
    // in the very same execution batch already comes too late.
    let user = staked_user(100, 0);
    let proposal =
        create_proposal(&user, 7, MINT, 1, PROPOSAL_UPDATE_RISK_CONFIG, 90, 0, 0, 0, 0, 0, NOW)
            .unwrap();
    let mut voted_on = proposal;
    assert_eq!(
        cast_vote(&mut voted_on, &user, 7, true, NOW),
        Err(LendingError::VotingEnded)
    );
    assert_eq!(voted_on, proposal);
}

#[test]
fn a_zero_duration_proposal_executes_immediately() {
    // With the window already closed and more votes for than
    // against, execution may happen in the creating batch.
    let mut bank = pool();
    let mut proposal = passed_proposal(PROPOSAL_UPDATE_RISK_CONFIG, [90, 600, 4000, 6000, 0], NOW);
    assert_eq!(execute_proposal(&mut proposal, &mut bank, NOW), Ok(()));
    assert!(proposal.executed);
    assert_eq!(bank.liquidation_threshold, 90);
    assert_eq!(bank.liquidation_bonus, 600);
    assert_eq!(bank.liquidation_close_factor, 4000);
    assert_eq!(bank.max_ltv, 6000);
}

#[test]
fn executing_before_the_window_closes_is_refused() {
    let mut bank = pool();
    let mut proposal = passed_proposal(PROPOSAL_UPDATE_RISK_CONFIG, [90, 0, 0, 0, 0], NOW + 600);
    assert_eq!(
        execute_proposal(&mut proposal, &mut bank, NOW),
        Err(LendingError::VotingNotEnded)
    );
    assert!(!proposal.executed);
}

#[test]
fn a_defeated_proposal_cannot_execute() {
    let mut bank = pool();
    let mut proposal = passed_proposal(PROPOSAL_UPDATE_RISK_CONFIG, [90, 0, 0, 0, 0], NOW);
    proposal.votes_for = 3;
    proposal.votes_against = 3;
    assert_eq!(
        execute_proposal(&mut proposal, &mut bank, NOW),
        Err(LendingError::ProposalDefeated)
    );
    assert!(!proposal.executed);
}

#[test]
fn a_rate_config_proposal_writes_the_rate_model() {
    let mut bank = pool();
    let mut proposal =
        passed_proposal(PROPOSAL_UPDATE_RATE_CONFIG, [300, 700, 6000, 8500, 2000], NOW);
    assert_eq!(execute_proposal(&mut proposal, &mut bank, NOW), Ok(()));
    assert_eq!(bank.base_rate, 300);
    assert_eq!(bank.multiplier, 700);
    assert_eq!(bank.jump_multiplier, 6000);
    assert_eq!(bank.kink_utilization, 8500);
    assert_eq!(bank.reserve_factor, 2000);
}

#[test]
fn zero_parameter_slots_leave_fields_unchanged() {
    let mut bank = pool();
    let mut proposal = passed_proposal(PROPOSAL_UPDATE_RATE_CONFIG, [0, 0, 0, 0, 0], NOW);
    assert_eq!(execute_proposal(&mut proposal, &mut bank, NOW), Ok(()));
    assert_eq!(bank.base_rate, 200);
    assert_eq!(bank.multiplier, 500);
    assert_eq!(bank.reserve_factor, 1000);
    assert!(proposal.executed);
}
