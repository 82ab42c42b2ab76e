use vstd::prelude::*;
use crate::error::DaoError;
use crate::event::{ProposalApproved, ProposalExecuted};
use crate::executor::{
    dao_after, execute_action, execution_error, execution_of, payment_after, Execution,
};
use crate::identity::{is_member, Identity};
use crate::policy::{is_multisig_satisfied, multisig_satisfied};
use crate::state::{
    lemma_push_keeps_distinct, DaoState, Proposal, ProposalType, ProposalView,
    RecurringPaymentAccount,
};

verus! {

/// Everything one approval works on.
#[derive(Clone, Debug, PartialEq, Eq)]
pub struct Approve {
    /// Where the DAO's configuration is stored.
    pub dao_state_key: Identity,
    pub dao_state: DaoState,
    /// Where the proposal is stored.
    pub proposal_key: Identity,
    pub proposal: Proposal,
    /// The signer who approves.
    pub approver: Identity,
    /// What the treasury holds.
    pub treasury_balance: u64,
    /// The account presented as the one the proposal pays.
    pub recipient: Identity,
    /// The recurring payment stored for `recipient`, if there is one.
    pub recurring_payment: Option<RecurringPaymentAccount>,
}

/// What an approval hands back: the event of the approval and, when the
/// approval met the threshold, the outcome of the execution.
#[derive(Clone, Copy, Debug, PartialEq, Eq)]
pub struct Approval {
    pub approved: ProposalApproved,
    pub execution: Option<Execution>,
}

impl Approve {
    /// Whether this approval brings the approvals up to the threshold.
    pub open spec fn meets_threshold(self) -> bool {
        multisig_satisfied(self.proposal@.approvals.len() + 1, self.dao_state.threshold as nat)
    }

    /// The error, if any, that the approval itself gives: the proposal is
    /// executed already or belongs to another DAO, or the approver is not
    /// a signer or has approved before.
    pub open spec fn gate_error(self) -> Option<DaoError> {
        if self.proposal.executed {
            Some(DaoError::ProposalAlreadyExecuted)
        } else if self.proposal.dao_state != self.dao_state_key {
            Some(DaoError::AccountMismatch)
        } else if !self.dao_state@.signer.contains(self.approver) {
            Some(DaoError::UnauthorizedSigner)
        } else if self.proposal@.approvals.contains(self.approver) {
            Some(DaoError::AlreadyApproved)
        } else {
            None
        }
    }

    /// The error, if any, with which the approval is refused at time
    /// `now`: that of the approval or else, when the approval meets the
    /// threshold, that of the proposal's action.
    pub open spec fn error(self, now: i64) -> Option<DaoError> {
        if self.gate_error() is Some {
            self.gate_error()
        } else if self.meets_threshold() {
            execution_error(
                self.dao_state@,
                self.proposal.proposal_type,
                self.recipient,
                self.treasury_balance,
                now,
            )
        } else {
            None
        }
    }

    /// Whether the proposal pays out of the treasury more than it holds.
    pub open spec fn overdraws(self) -> bool {
        self.proposal.proposal_type matches ProposalType::WithdrawTreasury { amount, .. }
            && amount > self.treasury_balance
    }

    /// The proposal once the approval is recorded at time `now`.
    pub open spec fn approved_proposal(self, now: i64) -> ProposalView {
        ProposalView {
            approvals: self.proposal@.approvals.push(self.approver),
            executed: self.meets_threshold(),
            approved_at: if self.meets_threshold() {
                Some(now)
            } else {
                self.proposal.approved_at
            },
            ..self.proposal@
        }
    }

    /// What a successful approval hands back.
    pub open spec fn approval(self) -> Approval {
        Approval {
            approved: ProposalApproved {
                dao_state: self.dao_state_key,
                proposal: self.proposal_key,
                proposal_id: self.proposal.proposal_id,
                approver: self.approver,
                current_approvals: (self.proposal@.approvals.len() + 1) as u64,
                threshold: self.dao_state.threshold,
            },
            execution: if self.meets_threshold() {
                Some(
                    execution_of(
                        self.dao_state@,
                        self.dao_state_key,
                        self.proposal_key,
                        self.proposal.proposal_id,
                        self.proposal.proposal_type,
                    ),
                )
            } else {
                None
            },
        }
    }

    /// Whether `after` differs from `self` at most in the configuration,
    /// the proposal and the stored payment.
    pub open spec fn same_frame(self, after: Approve) -> bool {
        &&& after.dao_state_key == self.dao_state_key
        &&& after.proposal_key == self.proposal_key
        &&& after.approver == self.approver
        &&& after.treasury_balance == self.treasury_balance
        &&& after.recipient == self.recipient
    }
}

/// Records a signer's approval of a proposal, and executes the proposal at
/// once when the approval is the one that meets the threshold.
///
/// The approval is refused when the proposal is executed already, when it
/// belongs to another DAO, when the approver is not a signer, and when the
/// approver has approved before. When the threshold is met and the action
/// cannot take effect, the approval is refused with the action's error.
/// A refused approval changes nothing.
///
/// Reaching the threshold executes the action, marks the proposal executed
/// and sets `approved_at` to `now`; there is no further waiting period.
pub fn mul_approve_propose(ctx: &mut Approve, now: i64) -> (r: Result<Approval, DaoError>)
    ensures
        match old(ctx).error(now) {
            Some(e) => r == Err::<Approval, DaoError>(e) && *final(ctx) == *old(ctx),
            None => {
                &&& r == Ok::<Approval, DaoError>(old(ctx).approval())
                &&& old(ctx).same_frame(*final(ctx))
                &&& final(ctx).proposal@ == old(ctx).approved_proposal(now)
                &&& if old(ctx).meets_threshold() {
                    &&& final(ctx).dao_state@ == dao_after(
                        old(ctx).dao_state@,
                        old(ctx).proposal.proposal_type,
                    )
                    &&& final(ctx).recurring_payment == payment_after(
                        old(ctx).recurring_payment,
                        old(ctx).dao_state_key,
                        old(ctx).proposal.proposal_type,
                        now,
                    )
                } else {
                    &&& final(ctx).dao_state == old(ctx).dao_state
                    &&& final(ctx).recurring_payment == old(ctx).recurring_payment
                }
            },
        },
        old(ctx).proposal.executed ==> r == Err::<Approval, DaoError>(
            DaoError::ProposalAlreadyExecuted,
        ) && *final(ctx) == *old(ctx),
        old(ctx).proposal.executed ==> final(ctx).proposal.executed,
        old(ctx).overdraws() ==> final(ctx).proposal.executed == old(ctx).proposal.executed
            && final(ctx).dao_state == old(ctx).dao_state && (r matches Ok(approval)
            ==> approval.execution is None),
        old(ctx).overdraws() && old(ctx).gate_error() is None && old(ctx).meets_threshold() ==> r
            == Err::<Approval, DaoError>(DaoError::InsufficientTreasuryBalance) && *final(ctx)
            == *old(ctx),
        old(ctx).dao_state@.wf() ==> final(ctx).dao_state@.wf(),
        old(ctx).dao_state@.wf() && old(ctx).proposal@.wf() ==> final(ctx).proposal@.wf(),
{
    if ctx.proposal.executed {
        return Err(DaoError::ProposalAlreadyExecuted);
    }
    if ctx.proposal.dao_state != ctx.dao_state_key {
        return Err(DaoError::AccountMismatch);
    }
    if !is_member(&ctx.dao_state.signer, &ctx.approver) {
        return Err(DaoError::UnauthorizedSigner);
    }
    if is_member(&ctx.proposal.approvals, &ctx.approver) {
        return Err(DaoError::AlreadyApproved);
    }
    let threshold = ctx.dao_state.threshold;
    let count = ctx.proposal.approvals.len();
    let met = if count < usize::MAX {
        is_multisig_satisfied(count + 1, threshold)
    } else {
        true
    };
    let mut execution: Option<Execution> = None;
    if met {
        let action = ctx.proposal.proposal_type;
        let transfer = match execute_action(
            &mut ctx.dao_state,
            &mut ctx.recurring_payment,
            &action,
            ctx.dao_state_key,
            ctx.recipient,
            ctx.treasury_balance,
            now,
        ) {
            Err(e) => {
                return Err(e);
            },
            Ok(transfer) => transfer,
        };
        ctx.proposal.executed = true;
        ctx.proposal.approved_at = Some(now);
        execution = Some(
            Execution {
                event: ProposalExecuted {
                    dao_state: ctx.dao_state_key,
                    proposal: ctx.proposal_key,
                    proposal_id: ctx.proposal.proposal_id,
                    proposal_type: action,
                },
                transfer,
            },
        );
    }
    ctx.proposal.approvals.push(ctx.approver);
    proof {
        if old(ctx).proposal@.approvals.no_duplicates() {
            lemma_push_keeps_distinct(old(ctx).proposal@.approvals, ctx.approver);
        }
    }
    let approved = ProposalApproved {
        dao_state: ctx.dao_state_key,
        proposal: ctx.proposal_key,
        proposal_id: ctx.proposal.proposal_id,
        approver: ctx.approver,
        current_approvals: ctx.proposal.approvals.len() as u64,
        threshold,
    };
    Ok(Approval { approved, execution })
}

} // verus!
