use vstd::prelude::*;
use crate::error::DaoError;
use crate::event::ProposalExecuted;
use crate::executor::{
    dao_after, execute_action, execution_error, execution_of, payment_after, Execution,
};
use crate::identity::Identity;
use crate::policy::{is_vote_satisfied, majority_reached, vote_satisfied};
use crate::state::{DaoState, Proposal, ProposalType, ProposalView, RecurringPaymentAccount};

verus! {

/// Everything the execution of a stake-vote proposal works on.
#[derive(Clone, Debug, PartialEq, Eq)]
pub struct ExecuteProposal {
    /// Where the DAO's configuration is stored.
    pub dao_state_key: Identity,
    pub dao_state: DaoState,
    /// Where the proposal is stored.
    pub proposal_key: Identity,
    pub proposal: Proposal,
    /// What the treasury holds.
    pub treasury_balance: u64,
    /// The account presented as the one the proposal pays.
    pub recipient: Identity,
    /// The recurring payment stored for `recipient`, if there is one.
    pub recurring_payment: Option<RecurringPaymentAccount>,
}

impl ExecuteProposal {
    /// The error, if any, that the proposal itself gives at time `now`: it
    /// is executed already or belongs to another DAO, or its vote is not
    /// over or has not carried.
    pub open spec fn gate_error(self, now: i64) -> Option<DaoError> {
        if self.proposal.executed {
            Some(DaoError::ProposalAlreadyExecuted)
        } else if self.proposal.dao_state != self.dao_state_key {
            Some(DaoError::AccountMismatch)
        } else if now < self.proposal.end_time {
            Some(DaoError::VotePeriodNotOver)
        } else if self.proposal.voter_count < self.dao_state.quorum {
            Some(DaoError::QuorumNotReached)
        } else if !majority_reached(
            self.proposal.yes_votes as nat,
            self.proposal.no_votes as nat,
            self.dao_state.pass_threshold_percentage as nat,
        ) {
            Some(DaoError::VoteFailedMajority)
        } else {
            None
        }
    }

    /// Whether the stake-vote strategy is satisfied by the proposal's
    /// tallies.
    pub open spec fn carried(self) -> bool {
        vote_satisfied(
            self.proposal.yes_votes as nat,
            self.proposal.no_votes as nat,
            self.proposal.voter_count as nat,
            self.dao_state.quorum as nat,
            self.dao_state.pass_threshold_percentage as nat,
        )
    }

    /// The error, if any, with which the execution is refused at time
    /// `now`: that of the proposal or else that of its action.
    pub open spec fn error(self, now: i64) -> Option<DaoError> {
        if self.gate_error(now) is Some {
            self.gate_error(now)
        } else {
            execution_error(
                self.dao_state@,
                self.proposal.proposal_type,
                self.recipient,
                self.treasury_balance,
                now,
            )
        }
    }

    /// Whether the proposal pays out of the treasury more than it holds.
    pub open spec fn overdraws(self) -> bool {
        self.proposal.proposal_type matches ProposalType::WithdrawTreasury { amount, .. }
            && amount > self.treasury_balance
    }

    /// Whether `after` differs from `self` at most in the configuration,
    /// the proposal and the stored payment.
    pub open spec fn same_frame(self, after: ExecuteProposal) -> bool {
        &&& after.dao_state_key == self.dao_state_key
        &&& after.proposal_key == self.proposal_key
        &&& after.treasury_balance == self.treasury_balance
        &&& after.recipient == self.recipient
    }
}

/// Executes a stake-vote proposal once its voting is over and has carried.
///
/// The execution is refused when the proposal is executed already, when it
/// belongs to another DAO, when `now` is before the deadline, when fewer
/// participants voted than the quorum, when the yes votes do not exceed the
/// pass threshold, and when the action cannot take effect. A refused
/// execution changes nothing, so it can be tried again later.
///
/// An execution that is accepted lets the action take effect and marks the
/// proposal executed, once and for all.
pub fn execute_proposal(ctx: &mut ExecuteProposal, now: i64) -> (r: Result<Execution, DaoError>)
    ensures
        match old(ctx).error(now) {
            Some(e) => r == Err::<Execution, DaoError>(e) && *final(ctx) == *old(ctx),
            None => {
                &&& r == Ok::<Execution, DaoError>(
                    execution_of(
                        old(ctx).dao_state@,
                        old(ctx).dao_state_key,
                        old(ctx).proposal_key,
                        old(ctx).proposal.proposal_id,
                        old(ctx).proposal.proposal_type,
                    ),
                )
                &&& old(ctx).same_frame(*final(ctx))
                &&& final(ctx).proposal@ == (ProposalView { executed: true, ..old(ctx).proposal@ })
                &&& final(ctx).dao_state@ == dao_after(
                    old(ctx).dao_state@,
                    old(ctx).proposal.proposal_type,
                )
                &&& final(ctx).recurring_payment == payment_after(
                    old(ctx).recurring_payment,
                    old(ctx).dao_state_key,
                    old(ctx).proposal.proposal_type,
                    now,
                )
            },
        },
        old(ctx).proposal.executed ==> r == Err::<Execution, DaoError>(
            DaoError::ProposalAlreadyExecuted,
        ) && *final(ctx) == *old(ctx),
        old(ctx).proposal.executed ==> final(ctx).proposal.executed,
        r is Ok ==> final(ctx).proposal.executed,
        old(ctx).overdraws() ==> r is Err && *final(ctx) == *old(ctx),
        old(ctx).overdraws() && old(ctx).gate_error(now) is None ==> r == Err::<
            Execution,
            DaoError,
        >(DaoError::InsufficientTreasuryBalance),
        old(ctx).dao_state@.wf() ==> final(ctx).dao_state@.wf(),
        old(ctx).proposal@.wf() ==> final(ctx).proposal@.wf(),
{
    if ctx.proposal.executed {
        return Err(DaoError::ProposalAlreadyExecuted);
    }
    if ctx.proposal.dao_state != ctx.dao_state_key {
        return Err(DaoError::AccountMismatch);
    }
    if now < ctx.proposal.end_time {
        return Err(DaoError::VotePeriodNotOver);
    }
    if !is_vote_satisfied(
        ctx.proposal.yes_votes,
        ctx.proposal.no_votes,
        ctx.proposal.voter_count,
        ctx.dao_state.quorum,
        ctx.dao_state.pass_threshold_percentage,
    ) {
        if ctx.proposal.voter_count < ctx.dao_state.quorum {
            return Err(DaoError::QuorumNotReached);
        }
        return Err(DaoError::VoteFailedMajority);
    }
    let action = ctx.proposal.proposal_type;
    let transfer = match execute_action(
        &mut ctx.dao_state,
        &mut ctx.recurring_payment,
        &action,
        ctx.dao_state_key,
        ctx.recipient,
        ctx.treasury_balance,
        now,
    ) {
        Err(e) => {
            return Err(e);
        },
        Ok(transfer) => transfer,
    };
    ctx.proposal.executed = true;
    Ok(
        Execution {
            event: ProposalExecuted {
                dao_state: ctx.dao_state_key,
                proposal: ctx.proposal_key,
                proposal_id: ctx.proposal.proposal_id,
                proposal_type: action,
            },
            transfer,
        },
    )
}

/// Executes a stake-vote proposal; another name for [`execute_proposal`].
pub fn execute_stake_proposal(ctx: &mut ExecuteProposal, now: i64) -> (r: Result<
    Execution,
    DaoError,
>)
    ensures
        match old(ctx).error(now) {
            Some(e) => r == Err::<Execution, DaoError>(e) && *final(ctx) == *old(ctx),
            None => {
                &&& r == Ok::<Execution, DaoError>(
                    execution_of(
                        old(ctx).dao_state@,
                        old(ctx).dao_state_key,
                        old(ctx).proposal_key,
                        old(ctx).proposal.proposal_id,
                        old(ctx).proposal.proposal_type,
                    ),
                )
                &&& old(ctx).same_frame(*final(ctx))
                &&& final(ctx).proposal@ == (ProposalView { executed: true, ..old(ctx).proposal@ })
                &&& final(ctx).dao_state@ == dao_after(
                    old(ctx).dao_state@,
                    old(ctx).proposal.proposal_type,
                )
                &&& final(ctx).recurring_payment == payment_after(
                    old(ctx).recurring_payment,
                    old(ctx).dao_state_key,
                    old(ctx).proposal.proposal_type,
                    now,
                )
            },
        },
        old(ctx).proposal.executed ==> r == Err::<Execution, DaoError>(
            DaoError::ProposalAlreadyExecuted,
        ) && *final(ctx) == *old(ctx),
        old(ctx).proposal.executed ==> final(ctx).proposal.executed,
        r is Ok ==> final(ctx).proposal.executed,
        old(ctx).overdraws() ==> r is Err && *final(ctx) == *old(ctx),
        old(ctx).overdraws() && old(ctx).gate_error(now) is None ==> r == Err::<
            Execution,
            DaoError,
        >(DaoError::InsufficientTreasuryBalance),
        old(ctx).dao_state@.wf() ==> final(ctx).dao_state@.wf(),
        old(ctx).proposal@.wf() ==> final(ctx).proposal@.wf(),
{
    execute_proposal(ctx, now)
}

} // verus!
