use vstd::prelude::*;
use crate::error::DaoError;
use crate::event::TokensUnstaked;
use crate::identity::Identity;
use crate::state::{DaoState, DaoStateView, StakeAccount};

verus! {

/// Everything one withdrawal of stake works on.
#[derive(Clone, Debug, PartialEq, Eq)]
pub struct Unstake {
    /// Who withdraws.
    pub staker: Identity,
    /// Where the DAO's configuration is stored.
    pub dao_state_key: Identity,
    pub dao_state: DaoState,
    /// Where the staker's record is stored.
    pub stake_account_key: Identity,
    /// The staker's record, if the staker has one.
    pub stake_account: Option<StakeAccount>,
}

impl Unstake {
    /// The error, if any, with which the withdrawal is refused.
    pub open spec fn error(self) -> Option<DaoError> {
        match self.stake_account {
            None => Some(DaoError::NoTokensStaked),
            Some(record) => if record.staker != self.staker || record.dao_state
                != self.dao_state_key {
                Some(DaoError::AccountMismatch)
            } else if record.amount == 0 {
                Some(DaoError::NoTokensStaked)
            } else if self.dao_state.total_staked_amount < record.amount {
                Some(DaoError::ArithmeticOverflow)
            } else {
                None
            },
        }
    }

    /// The DAO's configuration after the withdrawal.
    pub open spec fn unstaked_dao(self) -> DaoStateView {
        DaoStateView {
            total_staked_amount: (self.dao_state.total_staked_amount
                - self.stake_account->0.amount) as u64,
            ..self.dao_state@
        }
    }
}

/// Withdraws the staker's whole stake: the record is destroyed and its
/// amount is taken off the DAO's total.
///
/// The withdrawal is refused when the staker has no record or an empty
/// one, when the record handed in is one of another participant or DAO,
/// and when the total is less than the record. A refused withdrawal
/// changes nothing.
///
/// The amount to release from escrow is the event's `amount_unstaked`. The
/// record is gone when the call returns, so releasing after the call
/// cannot pay the same stake twice.
pub fn unstake(ctx: &mut Unstake) -> (r: Result<TokensUnstaked, DaoError>)
    ensures
        match old(ctx).error() {
            Some(e) => r == Err::<TokensUnstaked, DaoError>(e) && *final(ctx) == *old(ctx),
            None => {
                let amount = old(ctx).stake_account->0.amount;
                &&& final(ctx).stake_account is None
                &&& final(ctx).dao_state@ == old(ctx).unstaked_dao()
                &&& final(ctx).staker == old(ctx).staker
                &&& final(ctx).dao_state_key == old(ctx).dao_state_key
                &&& final(ctx).stake_account_key == old(ctx).stake_account_key
                &&& r == Ok::<TokensUnstaked, DaoError>(
                    TokensUnstaked {
                        dao_state: old(ctx).dao_state_key,
                        stake_account: old(ctx).stake_account_key,
                        staker: old(ctx).staker,
                        amount_unstaked: amount,
                    },
                )
            },
        },
        r is Ok ==> old(ctx).dao_state.total_staked_amount - final(ctx).dao_state.total_staked_amount
            == old(ctx).stake_account->0.amount,
{
    let record = match ctx.stake_account {
        None => {
            return Err(DaoError::NoTokensStaked);
        },
        Some(record) => record,
    };
    if record.staker != ctx.staker || record.dao_state != ctx.dao_state_key {
        return Err(DaoError::AccountMismatch);
    }
    if record.amount == 0 {
        return Err(DaoError::NoTokensStaked);
    }
    let new_total = match ctx.dao_state.total_staked_amount.checked_sub(record.amount) {
        None => {
            return Err(DaoError::ArithmeticOverflow);
        },
        Some(rest) => rest,
    };
    ctx.stake_account = None;
    ctx.dao_state.total_staked_amount = new_total;
    Ok(
        TokensUnstaked {
            dao_state: ctx.dao_state_key,
            stake_account: ctx.stake_account_key,
            staker: ctx.staker,
            amount_unstaked: record.amount,
        },
    )
}

} // verus!
