//! A governance engine for a shared treasury.
//!
//! A DAO authorises actions on its treasury in two ways: a fixed set of
//! signers approves a proposal until a threshold is met, or the holders of
//! staked tokens vote on it, weighted by stake, until a deadline. An action
//! that is authorised takes effect exactly once. It withdraws from the
//! treasury, changes the signer set or the threshold, or sets up a recurring
//! payment that its recipient claims at a fixed cadence.
//!
//! The library decides and keeps the books; it moves no funds and reads no
//! clock. Every operation takes the records it works on and the current
//! time as plain values, and hands back the events to publish and the
//! transfers to make. An operation that is refused changes nothing.
//!
//! On the multisig path the approval that meets the threshold executes the
//! proposal in the same step. There is no waiting period after it.

pub mod config;
pub mod custody;
pub mod error;
pub mod event;
pub mod executor;
pub mod identity;
pub mod instructions;
pub mod laws;
pub mod ledger;
pub mod policy;
pub mod state;

pub use config::{Config, DEVELOPER_FEE};
pub use custody::Transfer;
pub use error::DaoError;
pub use event::{
    DaoInitialized, PaymentClaimed, ProposalApproved, ProposalCreated, ProposalExecuted,
    StakeProposalCreated, StakeProposalExecuted, TokensStaked, TokensUnstaked, VoteCasted,
};
pub use executor::{apply_dao_update, execute_action, remove_member, validate_action, Execution};
pub use identity::{is_member, Identity};
pub use instructions::claim_payment::{claim_payment, Claim, ClaimPayment};
pub use instructions::initialize_config::{initialize_config, InitializeConfig};
pub use instructions::initialize_dao::{initialize_dao, InitializeDao};
pub use instructions::mul_proposal::mul_approve::{mul_approve_propose, Approval, Approve};
pub use instructions::mul_proposal::mul_propose::{mul_create_propose, Propose};
pub use instructions::stake::stake::{stake, Stake};
pub use instructions::stake::unstake::{unstake, Unstake};
pub use instructions::staker_proposal::create_proposal::{create_stake_proposal, CreateProposal};
pub use instructions::staker_proposal::execute_proposal::{
    execute_proposal, execute_stake_proposal, ExecuteProposal,
};
pub use instructions::staker_proposal::vote::{vote, Vote, VoteChoice};
pub use instructions::update_config::{update_config, UpdateConfig};
pub use policy::{
    compute_pass_threshold, is_majority_reached, is_multisig_satisfied, is_vote_satisfied,
};
pub use state::{
    CurrencyType, DaoState, DaoUpdateAction, Proposal, ProposalType, RecurringPaymentAccount,
    StakeAccount, VoteRecord, MAX_APPROVALS, MAX_PASS_PERCENTAGE, MAX_SIGNERS,
};
