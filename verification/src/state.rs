use vstd::prelude::*;
use crate::identity::Identity;

verus! {

/// The largest number of signers a DAO can have.
pub const MAX_SIGNERS: usize = 5;

/// The largest number of approvals a proposal can collect.
pub const MAX_APPROVALS: usize = 5;

/// The largest pass percentage a DAO can have.
pub const MAX_PASS_PERCENTAGE: u8 = 100;

/// Appending a value that does not occur yet keeps a sequence free of
/// repetition.
pub proof fn lemma_push_keeps_distinct(s: Seq<Identity>, who: Identity)
    requires
        s.no_duplicates(),
        !s.contains(who),
    ensures
        s.push(who).no_duplicates(),
{
    let out = s.push(who);
    assert forall|i: int, j: int|
        0 <= i < out.len() && 0 <= j < out.len() && i != j implies out[i] != out[j] by {
        if i < s.len() {
            assert(s[i] == out[i]);
        }
        if j < s.len() {
            assert(s[j] == out[j]);
        }
    }
}

/// The configuration of one DAO.
#[derive(Clone, Debug, PartialEq, Eq)]
pub struct DaoState {
    /// The project the DAO belongs to; zero when there is none.
    pub project: Identity,
    /// The administrator who created the DAO.
    pub authority: Identity,
    /// The account that holds the DAO's funds.
    pub treasury: Identity,
    /// The mint of the governance token that is staked.
    pub token_mint: Identity,
    /// The signers of the multisig path, without repetition.
    pub signer: Vec<Identity>,
    /// How many approvals execute a multisig proposal.
    pub threshold: u8,
    /// How long a stake-vote proposal stays open, in seconds.
    pub vote_duration: i64,
    /// The sum of all stake records of this DAO.
    pub total_staked_amount: u64,
    /// The least number of voters for a stake-vote proposal to pass.
    pub quorum: u32,
    /// The yearly staking yield in hundredths of a percent.
    pub staking_yield_rate: u16,
    /// The percentage of the cast weight that the yes votes must exceed,
    /// from 0 to 100.
    pub pass_threshold_percentage: u8,
    /// The least stake that lets a participant propose and vote.
    pub min_staking_amount: u64,
}

/// The mathematical model of a [`DaoState`]: the signer list is a sequence.
pub struct DaoStateView {
    pub project: Identity,
    pub authority: Identity,
    pub treasury: Identity,
    pub token_mint: Identity,
    pub signer: Seq<Identity>,
    pub threshold: u8,
    pub vote_duration: i64,
    pub total_staked_amount: u64,
    pub quorum: u32,
    pub staking_yield_rate: u16,
    pub pass_threshold_percentage: u8,
    pub min_staking_amount: u64,
}

impl View for DaoState {
    type V = DaoStateView;

    open spec fn view(&self) -> DaoStateView {
        DaoStateView {
            project: self.project,
            authority: self.authority,
            treasury: self.treasury,
            token_mint: self.token_mint,
            signer: self.signer@,
            threshold: self.threshold,
            vote_duration: self.vote_duration,
            total_staked_amount: self.total_staked_amount,
            quorum: self.quorum,
            staking_yield_rate: self.staking_yield_rate,
            pass_threshold_percentage: self.pass_threshold_percentage,
            min_staking_amount: self.min_staking_amount,
        }
    }
}

impl DaoStateView {
    /// The invariant of a DAO's configuration: no signer occurs twice, there
    /// are at most [`MAX_SIGNERS`] of them, the threshold is at least one
    /// and at most the number of signers, and the pass percentage is at
    /// most [`MAX_PASS_PERCENTAGE`].
    pub open spec fn wf(self) -> bool {
        &&& self.signer.no_duplicates()
        &&& self.signer.len() <= MAX_SIGNERS
        &&& 1 <= self.threshold <= self.signer.len()
        &&& self.pass_threshold_percentage <= MAX_PASS_PERCENTAGE
    }
}

impl DaoState {
    /// Whether the configuration meets its invariant, computed.
    pub fn is_well_formed(&self) -> (r: bool)
        ensures
            r == self@.wf(),
    {
        if self.signer.len() > MAX_SIGNERS || self.threshold < 1 {
            return false;
        }
        if self.pass_threshold_percentage > MAX_PASS_PERCENTAGE {
            return false;
        }
        if self.threshold as usize > self.signer.len() {
            return false;
        }
        let mut i: usize = 0;
        while i < self.signer.len()
            invariant
                i <= self.signer.len(),
                forall|a: int, b: int| 0 <= a < b < i ==> self.signer@[a] != self.signer@[b],
            decreases self.signer.len() - i,
        {
            let mut j: usize = 0;
            while j < i
                invariant
                    j <= i < self.signer.len(),
                    forall|a: int| 0 <= a < j ==> self.signer@[a] != self.signer@[i as int],
                decreases i - j,
            {
                if self.signer[j] == self.signer[i] {
                    return false;
                }
                j += 1;
            }
            i += 1;
        }
        true
    }
}

/// What one participant has staked in one DAO.
#[derive(Clone, Copy, Debug, PartialEq, Eq)]
pub struct StakeAccount {
    /// The participant who owns the stake.
    pub staker: Identity,
    /// The DAO the stake is held in.
    pub dao_state: Identity,
    /// The staked amount, which is the participant's vote weight.
    pub amount: u64,
}

/// A change to the signer set or the threshold of a DAO.
#[derive(Clone, Copy, Debug, PartialEq, Eq)]
pub enum DaoUpdateAction {
    /// Add a signer that is not in the set yet.
    AddSigner { new_signer: Identity },
    /// Remove a signer that is in the set.
    RemoveSigner { signer_to_remove: Identity },
    /// Set the number of approvals that execute a multisig proposal.
    ChangeThreshold { new_threshold: u8 },
}

/// The currency a recurring payment is made in.
#[derive(Clone, Copy, Debug, PartialEq, Eq, Structural)]
pub enum CurrencyType {
    Sol,
}

/// A standing obligation of a DAO to pay a recipient at a fixed cadence.
#[derive(Clone, Copy, Debug, PartialEq, Eq)]
pub struct RecurringPaymentAccount {
    /// The DAO that pays.
    pub dao_state: Identity,
    /// The recipient, who alone may claim.
    pub receiver: Identity,
    /// The amount of each payment.
    pub amount: u64,
    /// The currency of the payment.
    pub currency: CurrencyType,
    /// The seconds between two payments.
    pub interval_day: i64,
    /// The earliest time of the next claim, in seconds since the epoch.
    pub next_claimable_timestamp: i64,
}

/// The effect a proposal has once it is executed.
#[derive(Clone, Copy, Debug, PartialEq, Eq)]
pub enum ProposalType {
    /// Create, or re-arm, a recurring payment to `recipient`.
    AddRecurringPayment { recipient: Identity, amount: u64, currency: CurrencyType, interval: i64 },
    /// Change the signer set or the threshold.
    UpdateDao { action: DaoUpdateAction },
    /// Pay `amount` from the treasury to `recipient`.
    WithdrawTreasury { amount: u64, recipient: Identity },
}

/// One governance intent and its tallies. A proposal made on the multisig
/// path collects `approvals`; one made on the stake-vote path collects
/// `yes_votes`, `no_votes` and `voter_count` until `end_time`.
#[derive(Clone, Debug, PartialEq, Eq)]
pub struct Proposal {
    /// The DAO the proposal belongs to.
    pub dao_state: Identity,
    /// Who made the proposal.
    pub proposer: Identity,
    /// The number the proposer chose for it, unique within the DAO.
    pub proposal_id: u64,
    /// What the proposal does when executed.
    pub proposal_type: ProposalType,
    /// The signers who have approved, in the order they did.
    pub approvals: Vec<Identity>,
    pub title: String,
    pub description: String,
    /// The stake weight cast in favour.
    pub yes_votes: u64,
    /// The stake weight cast against.
    pub no_votes: u64,
    /// How many participants have voted.
    pub voter_count: u32,
    /// When voting ends; zero on the multisig path.
    pub end_time: i64,
    /// Whether the proposal has been executed. Once true it stays true.
    pub executed: bool,
    /// When the proposal was made.
    pub created_at: i64,
    /// When the approvals first met the threshold.
    pub approved_at: Option<i64>,
}

/// The mathematical model of a [`Proposal`].
pub struct ProposalView {
    pub dao_state: Identity,
    pub proposer: Identity,
    pub proposal_id: u64,
    pub proposal_type: ProposalType,
    pub approvals: Seq<Identity>,
    pub title: Seq<char>,
    pub description: Seq<char>,
    pub yes_votes: u64,
    pub no_votes: u64,
    pub voter_count: u32,
    pub end_time: i64,
    pub executed: bool,
    pub created_at: i64,
    pub approved_at: Option<i64>,
}

impl View for Proposal {
    type V = ProposalView;

    open spec fn view(&self) -> ProposalView {
        ProposalView {
            dao_state: self.dao_state,
            proposer: self.proposer,
            proposal_id: self.proposal_id,
            proposal_type: self.proposal_type,
            approvals: self.approvals@,
            title: self.title@,
            description: self.description@,
            yes_votes: self.yes_votes,
            no_votes: self.no_votes,
            voter_count: self.voter_count,
            end_time: self.end_time,
            executed: self.executed,
            created_at: self.created_at,
            approved_at: self.approved_at,
        }
    }
}

impl ProposalView {
    /// A proposal as it is when made: nobody has approved or voted, and it
    /// is not executed.
    pub open spec fn fresh(
        dao_state: Identity,
        proposer: Identity,
        proposal_id: u64,
        proposal_type: ProposalType,
        title: Seq<char>,
        description: Seq<char>,
        created_at: i64,
        end_time: i64,
    ) -> ProposalView {
        ProposalView {
            dao_state,
            proposer,
            proposal_id,
            proposal_type,
            approvals: Seq::empty(),
            title,
            description,
            yes_votes: 0,
            no_votes: 0,
            voter_count: 0,
            end_time,
            executed: false,
            created_at,
            approved_at: None,
        }
    }

    /// The invariant of a proposal: no signer has approved twice, and a
    /// proposal that is still pending has room for one more approval.
    pub open spec fn wf(self) -> bool {
        &&& self.approvals.no_duplicates()
        &&& self.approvals.len() <= MAX_APPROVALS
        &&& !self.executed ==> self.approvals.len() < MAX_APPROVALS
    }
}

/// The mark that a participant has voted on a proposal.
#[derive(Clone, Copy, Debug, PartialEq, Eq)]
pub struct VoteRecord {
    /// The proposal voted on.
    pub proposal: Identity,
    /// Who voted.
    pub voter: Identity,
    /// The voter's stake when the vote was cast.
    pub weight: u64,
}

} // verus!
