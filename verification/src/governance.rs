//! The governance module: a stake-weighted proposal, vote and execute
//! state machine that writes pool parameters.

use vstd::prelude::*;

use crate::bank::Bank;
use crate::error::LendingError;
use crate::interest::BASIS_POINTS;
use crate::user::User;

verus! {

/// Proposal type tag: replace the pool's risk configuration.
pub const PROPOSAL_UPDATE_RISK_CONFIG: u8 = 1;

/// Proposal type tag: replace the pool's rate-model parameters.
pub const PROPOSAL_UPDATE_RATE_CONFIG: u8 = 2;

/// A governance proposal: a typed set of up to five numeric parameter
/// slots aimed at one pool, with its voting window and tallies.
#[derive(Clone, Copy, Debug, PartialEq, Eq, Structural)]
pub struct Proposal {
    /// Account that created the proposal.
    pub proposer: u64,
    /// Identity of the pool the proposal targets.
    pub bank: u64,
    /// Identifier of the proposal.
    pub id: u64,
    /// Which parameter set the slots carry: risk or rate-model.
    pub proposal_type: u8,
    /// First parameter slot; zero leaves the field unchanged.
    pub param_1: u64,
    /// Second parameter slot; zero leaves the field unchanged.
    pub param_2: u64,
    /// Third parameter slot; zero leaves the field unchanged.
    pub param_3: u64,
    /// Fourth parameter slot; zero leaves the field unchanged.
    pub param_4: u64,
    /// Fifth parameter slot; zero leaves the field unchanged.
    pub param_5: u64,
    /// Stake-weighted votes in favour.
    pub votes_for: u64,
    /// Stake-weighted votes against.
    pub votes_against: u64,
    /// Unix timestamp of creation.
    pub created_at: i64,
    /// Unix timestamp at which voting closes.
    pub end_time: i64,
    /// Whether the proposal was executed; written once, never unset.
    pub executed: bool,
}

/// One vote by one voter on one proposal. The host stores records
/// keyed by the (proposal, voter) pair, so a second vote by the same
/// voter is rejected by record uniqueness before it reaches the
/// engine.
#[derive(Clone, Copy, Debug, PartialEq, Eq, Structural)]
pub struct VoteRecord {
    /// Identifier of the proposal voted on.
    pub proposal: u64,
    /// Account that cast the vote.
    pub voter: u64,
    /// Marker that the record holds a cast vote.
    pub voted: bool,
}

/// The live voting power of a position: its deposit shares across both
/// assets, one share one vote.
pub open spec fn spec_voting_power(user: User) -> int {
    user.deposited_sol_shares + user.deposited_usdc_shares
}

/// The proposal a creation at `now` leads to, or the error it fails
/// with: `InsufficientStake` exactly when the proposer holds no
/// deposit shares in either asset, `MathOverflow` exactly when the end
/// of the window leaves the timestamp range.
pub open spec fn spec_create_proposal(
    user: User,
    proposer: u64,
    bank: u64,
    proposal_id: u64,
    proposal_type: u8,
    param_1: u64,
    param_2: u64,
    param_3: u64,
    param_4: u64,
    param_5: u64,
    duration: i64,
    now: i64,
) -> Result<Proposal, LendingError> {
    if user.deposited_sol_shares == 0 && user.deposited_usdc_shares == 0 {
        Err(LendingError::InsufficientStake)
    } else if now + duration > i64::MAX || now + duration < i64::MIN {
        Err(LendingError::MathOverflow)
    } else {
        Ok(
            Proposal {
                proposer,
                bank,
                id: proposal_id,
                proposal_type,
                param_1,
                param_2,
                param_3,
                param_4,
                param_5,
                votes_for: 0u64,
                votes_against: 0u64,
                created_at: now,
                end_time: (now + duration) as i64,
                executed: false,
            },
        )
    }
}

/// Create a proposal against the pool identified by `bank`. The
/// proposer must hold deposit shares in at least one asset; the voting
/// window runs from `now` for `duration` seconds.
pub fn create_proposal(
    user: &User,
    proposer: u64,
    bank: u64,
    proposal_id: u64,
    proposal_type: u8,
    param_1: u64,
    param_2: u64,
    param_3: u64,
    param_4: u64,
    param_5: u64,
    duration: i64,
    now: i64,
) -> (r: Result<Proposal, LendingError>)
    ensures
        r == spec_create_proposal(
            *user,
            proposer,
            bank,
            proposal_id,
            proposal_type,
            param_1,
            param_2,
            param_3,
            param_4,
            param_5,
            duration,
            now,
        ),
{
    if user.deposited_sol_shares == 0 && user.deposited_usdc_shares == 0 {
        return Err(LendingError::InsufficientStake);
    }
    let end_time = match now.checked_add(duration) {
        Some(v) => v,
        None => {
            return Err(LendingError::MathOverflow);
        },
    };
    Ok(
        Proposal {
            proposer,
            bank,
            id: proposal_id,
            proposal_type,
            param_1,
            param_2,
            param_3,
            param_4,
            param_5,
            votes_for: 0,
            votes_against: 0,
            created_at: now,
            end_time,
            executed: false,
        },
    )
}

/// The tallied proposal and the vote record a vote at `now` leads to,
/// or the error it fails with: `VotingEnded` exactly when `now` has
/// reached the end of the window (even inside the same execution
/// batch), then `MathOverflow` when power or a tally leaves `u64`,
/// then `InsufficientStake` exactly when the voter's live power is
/// zero. Power is read live at vote time, not snapshotted at
/// creation.
pub open spec fn spec_cast_vote(
    proposal: Proposal,
    user: User,
    voter: u64,
    vote_for: bool,
    now: i64,
) -> Result<(Proposal, VoteRecord), LendingError> {
    if now >= proposal.end_time {
        Err(LendingError::VotingEnded)
    } else if spec_voting_power(user) > u64::MAX {
        Err(LendingError::MathOverflow)
    } else if spec_voting_power(user) == 0 {
        Err(LendingError::InsufficientStake)
    } else {
        let power = spec_voting_power(user);
        if vote_for && proposal.votes_for + power > u64::MAX
            || !vote_for && proposal.votes_against + power > u64::MAX {
            Err(LendingError::MathOverflow)
        } else {
            let tallied = if vote_for {
                Proposal { votes_for: (proposal.votes_for + power) as u64, ..proposal }
            } else {
                Proposal { votes_against: (proposal.votes_against + power) as u64, ..proposal }
            };
            Ok((tallied, VoteRecord { proposal: proposal.id, voter, voted: true }))
        }
    }
}

/// Cast a vote with the voter's current deposit shares as its weight.
/// Only accepted strictly before `end_time`; the returned record is
/// stored by the host under the (proposal, voter) key, whose
/// uniqueness rejects double votes.
pub fn cast_vote(
    proposal: &mut Proposal,
    user: &User,
    voter: u64,
    vote_for: bool,
    now: i64,
) -> (r: Result<VoteRecord, LendingError>)
    ensures
        match r {
            Ok(record) => spec_cast_vote(*old(proposal), *user, voter, vote_for, now) == Ok::<
                _,
                LendingError,
            >((*final(proposal), record)),
            Err(e) => spec_cast_vote(*old(proposal), *user, voter, vote_for, now) == Err::<
                (Proposal, VoteRecord),
                _,
            >(e) && *final(proposal) == *old(proposal),
        },
{
    if now >= proposal.end_time {
        return Err(LendingError::VotingEnded);
    }
    let power = match user.deposited_sol_shares.checked_add(user.deposited_usdc_shares) {
        Some(v) => v,
        None => {
            return Err(LendingError::MathOverflow);
        },
    };
    if power == 0 {
        return Err(LendingError::InsufficientStake);
    }
    if vote_for {
        let tally = match proposal.votes_for.checked_add(power) {
            Some(v) => v,
            None => {
                return Err(LendingError::MathOverflow);
            },
        };
        proposal.votes_for = tally;
    } else {
        let tally = match proposal.votes_against.checked_add(power) {
            Some(v) => v,
            None => {
                return Err(LendingError::MathOverflow);
            },
        };
        proposal.votes_against = tally;
    }
    Ok(VoteRecord { proposal: proposal.id, voter, voted: true })
}

/// The pool with the proposal's typed parameter set applied: zero
/// slots leave their field unchanged, and an unknown type tag changes
/// nothing.
pub open spec fn spec_apply_proposal(bank: Bank, proposal: Proposal) -> Bank {
    if proposal.proposal_type == PROPOSAL_UPDATE_RISK_CONFIG {
        Bank {
            liquidation_threshold: if proposal.param_1 > 0 {
                proposal.param_1
            } else {
                bank.liquidation_threshold
            },
            liquidation_bonus: if proposal.param_2 > 0 {
                proposal.param_2
            } else {
                bank.liquidation_bonus
            },
            liquidation_close_factor: if proposal.param_3 > 0 {
                proposal.param_3
            } else {
                bank.liquidation_close_factor
            },
            max_ltv: if proposal.param_4 > 0 {
                proposal.param_4
            } else {
                bank.max_ltv
            },
            ..bank
        }
    } else if proposal.proposal_type == PROPOSAL_UPDATE_RATE_CONFIG {
        Bank {
            base_rate: if proposal.param_1 > 0 {
                proposal.param_1
            } else {
                bank.base_rate
            },
            multiplier: if proposal.param_2 > 0 {
                proposal.param_2
            } else {
                bank.multiplier
            },
            jump_multiplier: if proposal.param_3 > 0 {
                proposal.param_3
            } else {
                bank.jump_multiplier
            },
            kink_utilization: if proposal.param_4 > 0 {
                proposal.param_4
            } else {
                bank.kink_utilization
            },
            reserve_factor: if proposal.param_5 > 0 {
                proposal.param_5
            } else {
                bank.reserve_factor
            },
            ..bank
        }
    } else {
        bank
    }
}

/// The proposal and pool an execution at `now` leads to, or the error
/// it fails with: `VotingNotEnded` exactly when the window is still
/// open, then `ProposalDefeated` exactly when the votes for do not
/// exceed the votes against, then `MathOverflow` when accrual
/// overflows. On success the parameters apply and `executed` is set,
/// irreversibly.
pub open spec fn spec_execute_proposal(proposal: Proposal, bank: Bank, now: i64) -> Result<
    (Proposal, Bank),
    LendingError,
> {
    if now < proposal.end_time {
        Err(LendingError::VotingNotEnded)
    } else if proposal.votes_for <= proposal.votes_against {
        Err(LendingError::ProposalDefeated)
    } else {
        match bank.spec_update_interest(now) {
            None => Err(LendingError::MathOverflow),
            Some(b) => Ok(
                (Proposal { executed: true, ..proposal }, spec_apply_proposal(b, proposal)),
            ),
        }
    }
}

/// Execute a passed proposal against its pool: only at or after
/// `end_time`, only with more votes for than against, and only once —
/// the host admits a proposal here only when it targets this pool and
/// `executed` is still unset. Interest accrues under the old
/// parameters before the new ones apply. A rate-config proposal that
/// writes the reserve factor must keep it a fraction of the whole.
pub fn execute_proposal(proposal: &mut Proposal, bank: &mut Bank, now: i64) -> (r: Result<
    (),
    LendingError,
>)
    requires
        old(bank).wf(),
        old(proposal).bank == old(bank).mint_address,
        !old(proposal).executed,
        old(proposal).proposal_type == PROPOSAL_UPDATE_RATE_CONFIG && old(proposal).param_5 > 0
            ==> old(proposal).param_5 <= BASIS_POINTS,
    ensures
        final(bank).wf(),
        match r {
            Ok(()) => spec_execute_proposal(*old(proposal), *old(bank), now) == Ok::<
                _,
                LendingError,
            >((*final(proposal), *final(bank))),
            Err(e) => spec_execute_proposal(*old(proposal), *old(bank), now) == Err::<
                (Proposal, Bank),
                _,
            >(e) && *final(proposal) == *old(proposal) && *final(bank) == *old(bank),
        },
{
    if now < proposal.end_time {
        return Err(LendingError::VotingNotEnded);
    }
    if proposal.votes_for <= proposal.votes_against {
        return Err(LendingError::ProposalDefeated);
    }
    match bank.update_interest(now) {
        Ok(()) => (),
        Err(e) => {
            return Err(e);
        },
    }
    if proposal.proposal_type == PROPOSAL_UPDATE_RISK_CONFIG {
        if proposal.param_1 > 0 {
            bank.liquidation_threshold = proposal.param_1;
        }
        if proposal.param_2 > 0 {
            bank.liquidation_bonus = proposal.param_2;
        }
        if proposal.param_3 > 0 {
            bank.liquidation_close_factor = proposal.param_3;
        }
        if proposal.param_4 > 0 {
            bank.max_ltv = proposal.param_4;
        }
    } else if proposal.proposal_type == PROPOSAL_UPDATE_RATE_CONFIG {
        if proposal.param_1 > 0 {
            bank.base_rate = proposal.param_1;
        }
        if proposal.param_2 > 0 {
            bank.multiplier = proposal.param_2;
        }
        if proposal.param_3 > 0 {
            bank.jump_multiplier = proposal.param_3;
        }
        if proposal.param_4 > 0 {
            bank.kink_utilization = proposal.param_4;
        }
        if proposal.param_5 > 0 {
            bank.reserve_factor = proposal.param_5;
        }
    }
    proposal.executed = true;
    Ok(())
}

} // verus!
