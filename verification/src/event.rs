use vstd::prelude::*;
use crate::identity::Identity;
use crate::state::ProposalType;
use crate::instructions::staker_proposal::vote::VoteChoice;

verus! {

/// A DAO was created.
#[derive(Clone, Copy, Debug, PartialEq, Eq)]
pub struct DaoInitialized {
    pub dao_state: Identity,
    pub authority: Identity,
    pub treasury: Identity,
    pub token_mint: Identity,
    pub threshold: u8,
    pub vote_duration: i64,
    pub quorum: u32,
    pub staking_yield_rate: u16,
    pub pass_threshold_percentage: u8,
    pub min_staking_amount: u64,
}

/// A proposal was made on the multisig path.
#[derive(Clone, Copy, Debug, PartialEq, Eq)]
pub struct ProposalCreated {
    pub dao_state: Identity,
    pub proposal: Identity,
    pub proposal_id: u64,
    pub proposer: Identity,
    pub proposal_type: ProposalType,
}

/// A signer approved a proposal.
#[derive(Clone, Copy, Debug, PartialEq, Eq)]
pub struct ProposalApproved {
    pub dao_state: Identity,
    pub proposal: Identity,
    pub proposal_id: u64,
    pub approver: Identity,
    /// The number of approvals, this one included.
    pub current_approvals: u64,
    pub threshold: u8,
}

/// A proposal was executed.
#[derive(Clone, Copy, Debug, PartialEq, Eq)]
pub struct ProposalExecuted {
    pub dao_state: Identity,
    pub proposal: Identity,
    pub proposal_id: u64,
    pub proposal_type: ProposalType,
}

/// A recurring payment was claimed.
#[derive(Clone, Copy, Debug, PartialEq, Eq)]
pub struct PaymentClaimed {
    pub dao_state: Identity,
    pub payment_account: Identity,
    pub recipient: Identity,
    pub claimed_amount: u64,
    /// The earliest time of the next claim.
    pub next_claimable_timestamp: i64,
}

/// A participant staked tokens.
#[derive(Clone, Copy, Debug, PartialEq, Eq)]
pub struct TokensStaked {
    pub dao_state: Identity,
    pub stake_account: Identity,
    pub staker: Identity,
    pub amount_staked: u64,
    /// The participant's stake after the deposit.
    pub new_total_for_staker: u64,
}

/// A participant withdrew the whole stake.
#[derive(Clone, Copy, Debug, PartialEq, Eq)]
pub struct TokensUnstaked {
    pub dao_state: Identity,
    pub stake_account: Identity,
    pub staker: Identity,
    pub amount_unstaked: u64,
}

/// A proposal was made on the stake-vote path.
#[derive(Clone, Debug, PartialEq, Eq)]
pub struct StakeProposalCreated {
    pub dao_state: Identity,
    pub proposal: Identity,
    pub proposal_id: u64,
    pub proposer: Identity,
    pub title: String,
    pub description: String,
    pub proposal_type: ProposalType,
    /// When voting ends.
    pub end_time: i64,
}

/// A participant voted on a proposal.
#[derive(Clone, Copy, Debug, PartialEq, Eq)]
pub struct VoteCasted {
    pub proposal: Identity,
    pub voter: Identity,
    pub choice: VoteChoice,
    pub weight: u64,
    pub new_yes_votes: u64,
    pub new_no_votes: u64,
    pub new_voter_count: u32,
}

/// A proposal was executed on the stake-vote path.
#[derive(Clone, Copy, Debug, PartialEq, Eq)]
pub struct StakeProposalExecuted {
    pub dao_state: Identity,
    pub proposal: Identity,
    pub proposal_id: u64,
    pub proposal_type: ProposalType,
}

} // verus!
