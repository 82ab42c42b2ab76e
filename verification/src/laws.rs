use vstd::prelude::*;
use crate::custody::{balance_after, Transfer};
use crate::error::DaoError;
use crate::executor::{
    dao_after, execution_error, payment_after, transfer_of, update_keeps_invariant,
    validation_error,
};
use crate::identity::Identity;
use crate::instructions::claim_payment::{advanced, ClaimPayment};
use crate::instructions::mul_proposal::mul_approve::Approve;
use crate::instructions::staker_proposal::execute_proposal::ExecuteProposal;
use crate::instructions::staker_proposal::vote::{Vote, VoteChoice};
use crate::state::{DaoStateView, ProposalType, ProposalView, RecurringPaymentAccount};

verus! {

/// Whatever action takes effect on a configuration that meets its
/// invariant, the configuration meets it afterwards: the threshold stays
/// at least one and at most the number of signers.
pub proof fn execution_keeps_invariant(
    dao: DaoStateView,
    action: ProposalType,
    recipient: Identity,
    treasury_balance: u64,
    now: i64,
)
    requires
        dao.wf(),
        execution_error(dao, action, recipient, treasury_balance, now) is None,
    ensures
        dao_after(dao, action).wf(),
        1 <= dao_after(dao, action).threshold <= dao_after(dao, action).signer.len(),
{
    match action {
        ProposalType::UpdateDao { action } => {
            update_keeps_invariant(dao, action);
        },
        _ => {},
    }
}

/// A stake-vote proposal is let through to its action exactly when it is
/// pending, belongs to the DAO, its deadline has passed and its tallies
/// satisfy the stake-vote strategy.
pub proof fn gate_follows_policy(ctx: ExecuteProposal, now: i64)
    ensures
        ctx.gate_error(now) is None <==> {
            &&& !ctx.proposal.executed
            &&& ctx.proposal.dao_state == ctx.dao_state_key
            &&& now >= ctx.proposal.end_time
            &&& ctx.carried()
        },
{
}

/// A proposal that has been executed through a vote cannot be executed
/// again: the second attempt is refused as already executed, whatever else
/// has changed in the meantime.
pub proof fn no_second_execution(
    first: ExecuteProposal,
    first_time: i64,
    second: ExecuteProposal,
    second_time: i64,
)
    requires
        first.error(first_time) is None,
        second.proposal@ == (ProposalView { executed: true, ..first.proposal@ }),
    ensures
        second.error(second_time) == Some(DaoError::ProposalAlreadyExecuted),
{
}

/// A proposal that an approval has executed takes no further approval and
/// cannot be executed through a vote either.
pub proof fn no_approval_after_execution(
    first: Approve,
    first_time: i64,
    second: Approve,
    third: ExecuteProposal,
    later: i64,
)
    requires
        first.error(first_time) is None,
        first.meets_threshold(),
        second.proposal@ == first.approved_proposal(first_time),
        third.proposal@ == first.approved_proposal(first_time),
    ensures
        second.error(later) == Some(DaoError::ProposalAlreadyExecuted),
        third.error(later) == Some(DaoError::ProposalAlreadyExecuted),
{
}

/// An executed proposal is closed to every operation: approving and
/// executing are refused as already executed, and voting is refused too.
pub proof fn executed_proposal_is_closed(
    approve: Approve,
    execute: ExecuteProposal,
    vote: Vote,
    choice: VoteChoice,
    now: i64,
)
    requires
        approve.proposal.executed,
        execute.proposal.executed,
        vote.proposal.executed,
    ensures
        approve.error(now) == Some(DaoError::ProposalAlreadyExecuted),
        execute.error(now) == Some(DaoError::ProposalAlreadyExecuted),
        vote.error(choice, now) is Some,
{
}

/// A voter votes at most once on a proposal: once the record of the vote
/// exists, every further attempt is refused as already voted.
pub proof fn no_second_vote(
    first: Vote,
    first_choice: VoteChoice,
    first_time: i64,
    second: Vote,
    second_choice: VoteChoice,
    second_time: i64,
)
    requires
        first.error(first_choice, first_time) is None,
        second.vote_record == Some(first.cast_record()),
    ensures
        second.error(second_choice, second_time) == Some(DaoError::AlreadyVoted),
{
}

/// A withdrawal of more than the treasury holds never takes effect, and
/// the treasury holds afterwards what it held before.
pub proof fn overdrawn_withdrawal_fails(
    dao: DaoStateView,
    amount: u64,
    payee: Identity,
    recipient: Identity,
    treasury_balance: u64,
    now: i64,
)
    requires
        amount > treasury_balance,
    ensures
        execution_error(
            dao,
            ProposalType::WithdrawTreasury { amount, recipient: payee },
            recipient,
            treasury_balance,
            now,
        ) == Some(DaoError::InsufficientTreasuryBalance),
        balance_after(treasury_balance as int, dao.treasury, None::<Transfer>) == treasury_balance,
{
}

/// A withdrawal that takes effect leaves the treasury with its balance
/// less the amount, which is not negative.
pub proof fn withdrawal_debits_treasury(
    dao: DaoStateView,
    amount: u64,
    payee: Identity,
    recipient: Identity,
    treasury_balance: u64,
    now: i64,
)
    requires
        payee != dao.treasury,
        execution_error(
            dao,
            ProposalType::WithdrawTreasury { amount, recipient: payee },
            recipient,
            treasury_balance,
            now,
        ) is None,
    ensures
        balance_after(
            treasury_balance as int,
            dao.treasury,
            transfer_of(dao, ProposalType::WithdrawTreasury { amount, recipient: payee }),
        ) == treasury_balance - amount >= 0,
{
}

/// A recurring payment that comes from an action accepted at the making of
/// its proposal pays a positive amount at a positive interval to someone
/// other than the treasury, and its first claim is one interval after the
/// time of execution.
pub proof fn accepted_payment_is_sound(
    dao: DaoStateView,
    dao_key: Identity,
    action: ProposalType,
    stored: Option<RecurringPaymentAccount>,
    recipient: Identity,
    treasury_balance: u64,
    now: i64,
)
    requires
        action is AddRecurringPayment,
        validation_error(dao, action) is None,
        execution_error(dao, action, recipient, treasury_balance, now) is None,
    ensures
        payment_after(stored, dao_key, action, now) matches Some(payment) && {
            &&& payment.amount > 0
            &&& payment.interval_day > 0
            &&& payment.receiver == recipient
            &&& payment.receiver != dao.treasury
            &&& payment.dao_state == dao_key
            &&& payment.next_claimable_timestamp == now + payment.interval_day
        },
{
}

/// After a claim the next instalment is due exactly one interval after the
/// one claimed, however late the claim was made: until then every further
/// claim is refused as too early.
pub proof fn next_claim_waits_one_interval(
    first: ClaimPayment,
    first_time: i64,
    second: ClaimPayment,
    second_time: i64,
)
    requires
        first.error(first_time) is None,
        second.recurring_payment == Some(advanced(first.recurring_payment->0)),
        second.recipient == first.recipient,
        second.dao_state_key == first.dao_state_key,
        second_time < first.recurring_payment->0.next_claimable_timestamp
            + first.recurring_payment->0.interval_day,
    ensures
        second.error(second_time) == Some(DaoError::ClaimTooEarly),
{
}

/// A payment with a positive interval never comes due earlier through a
/// claim: its claim time only moves forward.
pub proof fn claims_move_schedule_forward(ctx: ClaimPayment, now: i64)
    requires
        ctx.error(now) is None,
        ctx.recurring_payment->0.interval_day > 0,
    ensures
        advanced(ctx.recurring_payment->0).next_claimable_timestamp
            > ctx.recurring_payment->0.next_claimable_timestamp,
        advanced(ctx.recurring_payment->0).interval_day == ctx.recurring_payment->0.interval_day,
        advanced(ctx.recurring_payment->0).amount == ctx.recurring_payment->0.amount,
{
}

} // verus!
