use vstd::prelude::*;
use crate::instructions::stake::stake::Stake;
use crate::instructions::stake::unstake::Unstake;
use crate::state::{DaoStateView, StakeAccount};

verus! {

/// The sum of the amounts of the stake records of a DAO.
pub open spec fn ledger_total(records: Seq<StakeAccount>) -> int
    decreases records.len(),
{
    if records.len() == 0 {
        0
    } else {
        ledger_total(records.drop_last()) + records.last().amount
    }
}

/// Whether the DAO's total is the sum of its stake records.
pub open spec fn balanced(records: Seq<StakeAccount>, dao: DaoStateView) -> bool {
    ledger_total(records) == dao.total_staked_amount
}

/// A new record adds its amount to the sum.
pub proof fn lemma_total_push(records: Seq<StakeAccount>, record: StakeAccount)
    ensures
        ledger_total(records.push(record)) == ledger_total(records) + record.amount,
{
    assert(records.push(record).drop_last() == records);
}

/// Replacing a record changes the sum by the difference of the amounts.
pub proof fn lemma_total_update(records: Seq<StakeAccount>, i: int, record: StakeAccount)
    requires
        0 <= i < records.len(),
    ensures
        ledger_total(records.update(i, record)) == ledger_total(records) - records[i].amount
            + record.amount,
    decreases records.len(),
{
    let after = records.update(i, record);
    if i == records.len() - 1 {
        assert(after.drop_last() == records.drop_last());
    } else {
        lemma_total_update(records.drop_last(), i, record);
        assert(after.drop_last() == records.drop_last().update(i, record));
    }
}

/// Taking a record out takes its amount off the sum.
pub proof fn lemma_total_remove(records: Seq<StakeAccount>, i: int)
    requires
        0 <= i < records.len(),
    ensures
        ledger_total(records.remove(i)) == ledger_total(records) - records[i].amount,
    decreases records.len(),
{
    let after = records.remove(i);
    if i == records.len() - 1 {
        assert(after == records.drop_last());
    } else {
        lemma_total_remove(records.drop_last(), i);
        assert(after.drop_last() == records.drop_last().remove(i));
        assert(after.last() == records.last());
    }
}

/// The sum of a ledger is never negative.
pub proof fn lemma_total_nonnegative(records: Seq<StakeAccount>)
    ensures
        ledger_total(records) >= 0,
    decreases records.len(),
{
    if records.len() > 0 {
        lemma_total_nonnegative(records.drop_last());
    }
}

/// No record of a ledger holds more than the sum of all.
pub proof fn lemma_record_within_total(records: Seq<StakeAccount>, i: int)
    requires
        0 <= i < records.len(),
    ensures
        records[i].amount <= ledger_total(records),
    decreases records.len(),
{
    lemma_total_nonnegative(records.drop_last());
    if i < records.len() - 1 {
        lemma_record_within_total(records.drop_last(), i);
    }
}

/// A deposit into an existing record keeps the DAO's total equal to the
/// sum of its stake records.
pub proof fn deposit_keeps_ledger_balanced(
    records: Seq<StakeAccount>,
    i: int,
    ctx: Stake,
    amount: u64,
)
    requires
        0 <= i < records.len(),
        ctx.stake_account == Some(records[i]),
        balanced(records, ctx.dao_state@),
        ctx.error(amount) is None,
    ensures
        balanced(records.update(i, ctx.staked_record(amount)), ctx.staked_dao(amount)),
{
    lemma_total_update(records, i, ctx.staked_record(amount));
}

/// A first deposit, which creates the staker's record, keeps the DAO's
/// total equal to the sum of its stake records.
pub proof fn first_deposit_keeps_ledger_balanced(
    records: Seq<StakeAccount>,
    ctx: Stake,
    amount: u64,
)
    requires
        ctx.stake_account is None,
        balanced(records, ctx.dao_state@),
        ctx.error(amount) is None,
    ensures
        balanced(records.push(ctx.staked_record(amount)), ctx.staked_dao(amount)),
{
    lemma_total_push(records, ctx.staked_record(amount));
}

/// A withdrawal, which destroys the staker's record, keeps the DAO's total
/// equal to the sum of its stake records.
pub proof fn withdrawal_keeps_ledger_balanced(records: Seq<StakeAccount>, i: int, ctx: Unstake)
    requires
        0 <= i < records.len(),
        ctx.stake_account == Some(records[i]),
        balanced(records, ctx.dao_state@),
        ctx.error() is None,
    ensures
        balanced(records.remove(i), ctx.unstaked_dao()),
{
    lemma_total_remove(records, i);
}

/// Against a balanced ledger the total always covers the record, so a
/// withdrawal of the staker's own non-empty record is never refused.
pub proof fn withdrawal_from_balanced_ledger_succeeds(
    records: Seq<StakeAccount>,
    i: int,
    ctx: Unstake,
)
    requires
        0 <= i < records.len(),
        ctx.stake_account == Some(records[i]),
        balanced(records, ctx.dao_state@),
        records[i].staker == ctx.staker,
        records[i].dao_state == ctx.dao_state_key,
        records[i].amount > 0,
    ensures
        ctx.error() is None,
{
    lemma_record_within_total(records, i);
}

} // verus!
