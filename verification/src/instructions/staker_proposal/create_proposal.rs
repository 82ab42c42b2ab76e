use vstd::prelude::*;
use crate::error::DaoError;
use crate::event::StakeProposalCreated;
use crate::executor::{fits_i64, validate_action, validation_error};
use crate::identity::Identity;
use crate::state::{DaoState, Proposal, ProposalType, ProposalView, StakeAccount};

verus! {

/// Everything the making of a stake-vote proposal works on.
#[derive(Clone, Debug, PartialEq, Eq)]
pub struct CreateProposal {
    /// Who makes the proposal.
    pub proposer: Identity,
    /// Where the DAO's configuration is stored.
    pub dao_state_key: Identity,
    pub dao_state: DaoState,
    /// The proposer's stake record, if there is one.
    pub stake_account: Option<StakeAccount>,
    /// Where the new proposal will be stored.
    pub proposal_key: Identity,
}

impl CreateProposal {
    /// The error, if any, with which the proposal is refused at time `now`.
    pub open spec fn error(self, proposal_type: ProposalType, now: i64) -> Option<DaoError> {
        match self.stake_account {
            None => Some(DaoError::NotStaked),
            Some(stake) => if stake.staker != self.proposer || stake.dao_state
                != self.dao_state_key {
                Some(DaoError::AccountMismatch)
            } else if stake.amount < self.dao_state.min_staking_amount {
                Some(DaoError::InsufficientStake)
            } else if validation_error(self.dao_state@, proposal_type) is Some {
                validation_error(self.dao_state@, proposal_type)
            } else if !fits_i64(now + self.dao_state.vote_duration) {
                Some(DaoError::ArithmeticOverflow)
            } else {
                None
            },
        }
    }
}

/// Makes a proposal on the stake-vote path. The proposer must hold at least
/// the DAO's minimum stake and the action must be valid against the
/// configuration as it stands. The new proposal has no approvals and no
/// votes, is not executed, was made at `now`, and is open for voting until
/// `now` plus the DAO's vote duration.
pub fn create_stake_proposal(
    ctx: &CreateProposal,
    proposal_id: u64,
    title: String,
    description: String,
    proposal_type: ProposalType,
    now: i64,
) -> (r: Result<(Proposal, StakeProposalCreated), DaoError>)
    ensures
        match ctx.error(proposal_type, now) {
            Some(e) => r == Err::<(Proposal, StakeProposalCreated), DaoError>(e),
            None => {
                &&& r matches Ok((proposal, event))
                &&& proposal@ == ProposalView::fresh(
                    ctx.dao_state_key,
                    ctx.proposer,
                    proposal_id,
                    proposal_type,
                    title@,
                    description@,
                    now,
                    (now + ctx.dao_state.vote_duration) as i64,
                )
                &&& proposal@.wf()
                &&& event.dao_state == ctx.dao_state_key
                &&& event.proposal == ctx.proposal_key
                &&& event.proposal_id == proposal_id
                &&& event.proposer == ctx.proposer
                &&& event.title@ == title@
                &&& event.description@ == description@
                &&& event.proposal_type == proposal_type
                &&& event.end_time == now + ctx.dao_state.vote_duration
            },
        },
{
    let stake = match ctx.stake_account {
        None => {
            return Err(DaoError::NotStaked);
        },
        Some(stake) => stake,
    };
    if stake.staker != ctx.proposer || stake.dao_state != ctx.dao_state_key {
        return Err(DaoError::AccountMismatch);
    }
    if stake.amount < ctx.dao_state.min_staking_amount {
        return Err(DaoError::InsufficientStake);
    }
    match validate_action(&ctx.dao_state, &proposal_type) {
        Err(e) => {
            return Err(e);
        },
        Ok(()) => {},
    }
    let end_time = match now.checked_add(ctx.dao_state.vote_duration) {
        None => {
            return Err(DaoError::ArithmeticOverflow);
        },
        Some(end_time) => end_time,
    };
    let proposal = Proposal {
        dao_state: ctx.dao_state_key,
        proposer: ctx.proposer,
        proposal_id,
        proposal_type,
        approvals: Vec::new(),
        title: title.clone(),
        description: description.clone(),
        yes_votes: 0,
        no_votes: 0,
        voter_count: 0,
        end_time,
        executed: false,
        created_at: now,
        approved_at: None,
    };
    let event = StakeProposalCreated {
        dao_state: ctx.dao_state_key,
        proposal: ctx.proposal_key,
        proposal_id,
        proposer: ctx.proposer,
        title,
        description,
        proposal_type,
        end_time,
    };
    Ok((proposal, event))
}

} // verus!
