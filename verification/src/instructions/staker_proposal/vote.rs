use vstd::prelude::*;
use crate::error::DaoError;
use crate::event::VoteCasted;
use crate::identity::Identity;
use crate::state::{DaoState, Proposal, ProposalView, StakeAccount, VoteRecord};

verus! {

/// The two ways to vote on a proposal.
#[derive(Clone, Copy, Debug, PartialEq, Eq, Structural)]
pub enum VoteChoice {
    Yes,
    No,
}

/// Everything one vote works on.
#[derive(Clone, Debug, PartialEq, Eq)]
pub struct Vote {
    /// Who votes.
    pub voter: Identity,
    /// The voter's stake record, if there is one.
    pub stake_account: Option<StakeAccount>,
    /// Where the DAO's configuration is stored.
    pub dao_state_key: Identity,
    pub dao_state: DaoState,
    /// Where the proposal is stored.
    pub proposal_key: Identity,
    pub proposal: Proposal,
    /// The record of the voter's vote on this proposal, if the voter has
    /// voted. There is one place for it for each pair of proposal and
    /// voter, so at most one such record ever exists.
    pub vote_record: Option<VoteRecord>,
}

impl Vote {
    /// The tally that the vote adds to.
    pub open spec fn tally(self, choice: VoteChoice) -> u64 {
        match choice {
            VoteChoice::Yes => self.proposal.yes_votes,
            VoteChoice::No => self.proposal.no_votes,
        }
    }

    /// The error, if any, with which the vote is refused at time `now`.
    pub open spec fn error(self, choice: VoteChoice, now: i64) -> Option<DaoError> {
        if self.vote_record is Some {
            Some(DaoError::AlreadyVoted)
        } else if self.proposal.dao_state != self.dao_state_key {
            Some(DaoError::AccountMismatch)
        } else if self.proposal.executed || now >= self.proposal.end_time {
            Some(DaoError::ProposalNotActive)
        } else {
            match self.stake_account {
                None => Some(DaoError::NotStaked),
                Some(stake) => if stake.staker != self.voter || stake.dao_state
                    != self.dao_state_key {
                    Some(DaoError::AccountMismatch)
                } else if stake.amount < self.dao_state.min_staking_amount {
                    Some(DaoError::InsufficientStake)
                } else if self.tally(choice) + stake.amount > u64::MAX
                    || self.proposal.voter_count + 1 > u32::MAX {
                    Some(DaoError::ArithmeticOverflow)
                } else {
                    None
                },
            }
        }
    }

    /// The proposal once a vote of `weight` for `choice` is counted.
    pub open spec fn voted_proposal(self, choice: VoteChoice, weight: u64) -> ProposalView {
        match choice {
            VoteChoice::Yes => ProposalView {
                yes_votes: (self.proposal.yes_votes + weight) as u64,
                voter_count: (self.proposal.voter_count + 1) as u32,
                ..self.proposal@
            },
            VoteChoice::No => ProposalView {
                no_votes: (self.proposal.no_votes + weight) as u64,
                voter_count: (self.proposal.voter_count + 1) as u32,
                ..self.proposal@
            },
        }
    }

    /// The record that the vote leaves behind.
    pub open spec fn cast_record(self) -> VoteRecord {
        VoteRecord {
            proposal: self.proposal_key,
            voter: self.voter,
            weight: self.stake_account->0.amount,
        }
    }

    /// Whether `after` differs from `self` at most in the proposal and the
    /// vote record.
    pub open spec fn same_frame(self, after: Vote) -> bool {
        &&& after.voter == self.voter
        &&& after.stake_account == self.stake_account
        &&& after.dao_state_key == self.dao_state_key
        &&& after.dao_state == self.dao_state
        &&& after.proposal_key == self.proposal_key
    }
}

/// Casts a vote on a proposal, with the voter's stake as its weight.
///
/// The vote is refused when the voter has voted on the proposal before,
/// when the proposal belongs to another DAO, when the proposal is executed
/// or `now` is not before its deadline, when the voter has no stake record
/// or one of another participant or DAO, when the stake is below the DAO's
/// minimum, and when a tally would overflow. A refused vote changes nothing.
///
/// A vote that is accepted adds the weight to the tally chosen, counts one
/// more voter, and leaves the record of the vote behind.
pub fn vote(ctx: &mut Vote, choice: VoteChoice, now: i64) -> (r: Result<VoteCasted, DaoError>)
    ensures
        match old(ctx).error(choice, now) {
            Some(e) => r == Err::<VoteCasted, DaoError>(e) && *final(ctx) == *old(ctx),
            None => {
                let weight = old(ctx).stake_account->0.amount;
                &&& old(ctx).same_frame(*final(ctx))
                &&& final(ctx).proposal@ == old(ctx).voted_proposal(choice, weight)
                &&& final(ctx).vote_record == Some(old(ctx).cast_record())
                &&& r == Ok::<VoteCasted, DaoError>(
                    VoteCasted {
                        proposal: old(ctx).proposal_key,
                        voter: old(ctx).voter,
                        choice,
                        weight,
                        new_yes_votes: final(ctx).proposal.yes_votes,
                        new_no_votes: final(ctx).proposal.no_votes,
                        new_voter_count: final(ctx).proposal.voter_count,
                    },
                )
            },
        },
        old(ctx).vote_record is Some ==> r == Err::<VoteCasted, DaoError>(DaoError::AlreadyVoted)
            && *final(ctx) == *old(ctx),
        r is Ok ==> final(ctx).vote_record is Some,
        final(ctx).proposal.executed == old(ctx).proposal.executed,
        old(ctx).proposal@.wf() ==> final(ctx).proposal@.wf(),
{
    if ctx.vote_record.is_some() {
        return Err(DaoError::AlreadyVoted);
    }
    if ctx.proposal.dao_state != ctx.dao_state_key {
        return Err(DaoError::AccountMismatch);
    }
    if ctx.proposal.executed || now >= ctx.proposal.end_time {
        return Err(DaoError::ProposalNotActive);
    }
    let stake = match ctx.stake_account {
        None => {
            return Err(DaoError::NotStaked);
        },
        Some(stake) => stake,
    };
    if stake.staker != ctx.voter || stake.dao_state != ctx.dao_state_key {
        return Err(DaoError::AccountMismatch);
    }
    if stake.amount < ctx.dao_state.min_staking_amount {
        return Err(DaoError::InsufficientStake);
    }
    let weight = stake.amount;
    let tally = match choice {
        VoteChoice::Yes => ctx.proposal.yes_votes,
        VoteChoice::No => ctx.proposal.no_votes,
    };
    let new_tally = match tally.checked_add(weight) {
        None => {
            return Err(DaoError::ArithmeticOverflow);
        },
        Some(sum) => sum,
    };
    let new_count = match ctx.proposal.voter_count.checked_add(1) {
        None => {
            return Err(DaoError::ArithmeticOverflow);
        },
        Some(count) => count,
    };
    match choice {
        VoteChoice::Yes => {
            ctx.proposal.yes_votes = new_tally;
        },
        VoteChoice::No => {
            ctx.proposal.no_votes = new_tally;
        },
    }
    ctx.proposal.voter_count = new_count;
    ctx.vote_record = Some(VoteRecord { proposal: ctx.proposal_key, voter: ctx.voter, weight });
    Ok(
        VoteCasted {
            proposal: ctx.proposal_key,
            voter: ctx.voter,
            choice,
            weight,
            new_yes_votes: ctx.proposal.yes_votes,
            new_no_votes: ctx.proposal.no_votes,
            new_voter_count: ctx.proposal.voter_count,
        },
    )
}

} // verus!
