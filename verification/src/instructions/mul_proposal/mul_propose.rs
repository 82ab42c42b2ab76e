use vstd::prelude::*;
use crate::error::DaoError;
use crate::event::ProposalCreated;
use crate::executor::{validate_action, validation_error};
use crate::identity::{is_member, Identity};
use crate::state::{DaoState, Proposal, ProposalType, ProposalView};

verus! {

/// Everything the making of a multisig proposal works on.
#[derive(Clone, Debug, PartialEq, Eq)]
pub struct Propose {
    /// Where the DAO's configuration is stored.
    pub dao_state_key: Identity,
    pub dao_state: DaoState,
    /// Where the new proposal will be stored.
    pub proposal_key: Identity,
    /// Who makes the proposal.
    pub proposer: Identity,
}

impl Propose {
    /// The error, if any, with which the proposal is refused.
    pub open spec fn error(self, proposal_type: ProposalType) -> Option<DaoError> {
        if !self.dao_state@.signer.contains(self.proposer) {
            Some(DaoError::UnauthorizedSigner)
        } else {
            validation_error(self.dao_state@, proposal_type)
        }
    }
}

/// Makes a proposal on the multisig path. The proposer must be a signer and
/// the action must be valid against the configuration as it stands. The new
/// proposal has no approvals and no votes, is not executed, was made at
/// `now`, and has no deadline: its `end_time` is zero.
pub fn mul_create_propose(
    ctx: &Propose,
    proposal_id: u64,
    proposal_type: ProposalType,
    title: String,
    description: String,
    now: i64,
) -> (r: Result<(Proposal, ProposalCreated), DaoError>)
    ensures
        match ctx.error(proposal_type) {
            Some(e) => r == Err::<(Proposal, ProposalCreated), DaoError>(e),
            None => {
                &&& r matches Ok((proposal, event))
                &&& proposal@ == ProposalView::fresh(
                    ctx.dao_state_key,
                    ctx.proposer,
                    proposal_id,
                    proposal_type,
                    title@,
                    description@,
                    now,
                    0,
                )
                &&& proposal@.wf()
                &&& event == (ProposalCreated {
                    dao_state: ctx.dao_state_key,
                    proposal: ctx.proposal_key,
                    proposal_id,
                    proposer: ctx.proposer,
                    proposal_type,
                })
            },
        },
{
    if !is_member(&ctx.dao_state.signer, &ctx.proposer) {
        return Err(DaoError::UnauthorizedSigner);
    }
    match validate_action(&ctx.dao_state, &proposal_type) {
        Err(e) => {
            return Err(e);
        },
        Ok(()) => {},
    }
    let proposal = Proposal {
        dao_state: ctx.dao_state_key,
        proposer: ctx.proposer,
        proposal_id,
        proposal_type,
        approvals: Vec::new(),
        title,
        description,
        yes_votes: 0,
        no_votes: 0,
        voter_count: 0,
        end_time: 0,
        executed: false,
        created_at: now,
        approved_at: None,
    };
    let event = ProposalCreated {
        dao_state: ctx.dao_state_key,
        proposal: ctx.proposal_key,
        proposal_id,
        proposer: ctx.proposer,
        proposal_type,
    };
    Ok((proposal, event))
}

} // verus!
