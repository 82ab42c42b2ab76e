use vstd::prelude::*;
use crate::error::DaoError;
use crate::event::TokensStaked;
use crate::identity::Identity;
use crate::state::{DaoState, DaoStateView, StakeAccount};

verus! {

/// Everything one deposit of stake works on.
#[derive(Clone, Debug, PartialEq, Eq)]
pub struct Stake {
    /// Who stakes.
    pub staker: Identity,
    /// Where the DAO's configuration is stored.
    pub dao_state_key: Identity,
    pub dao_state: DaoState,
    /// Where the staker's record is stored.
    pub stake_account_key: Identity,
    /// The staker's record, if the staker has one.
    pub stake_account: Option<StakeAccount>,
}

impl Stake {
    /// What the staker has staked so far.
    pub open spec fn balance(self) -> u64 {
        match self.stake_account {
            None => 0,
            Some(record) => record.amount,
        }
    }

    /// The error, if any, with which a deposit of `amount` is refused.
    pub open spec fn error(self, amount: u64) -> Option<DaoError> {
        if amount == 0 {
            Some(DaoError::InvalidStakeAmount)
        } else if self.stake_account matches Some(record) && (record.staker != self.staker
            || record.dao_state != self.dao_state_key) {
            Some(DaoError::AccountMismatch)
        } else if self.balance() + amount > u64::MAX || self.dao_state.total_staked_amount + amount
            > u64::MAX {
            Some(DaoError::ArithmeticOverflow)
        } else {
            None
        }
    }

    /// The DAO's configuration after a deposit of `amount`.
    pub open spec fn staked_dao(self, amount: u64) -> DaoStateView {
        DaoStateView {
            total_staked_amount: (self.dao_state.total_staked_amount + amount) as u64,
            ..self.dao_state@
        }
    }

    /// The staker's record after a deposit of `amount`.
    pub open spec fn staked_record(self, amount: u64) -> StakeAccount {
        StakeAccount {
            staker: self.staker,
            dao_state: self.dao_state_key,
            amount: (self.balance() + amount) as u64,
        }
    }
}

/// Deposits `amount` into the staker's record, which is created if the
/// staker has none, and adds it to the DAO's total.
///
/// The deposit is refused when the amount is zero, when the record handed
/// in is one of another participant or DAO, and when the record or the
/// total would overflow. A refused deposit changes nothing.
///
/// The caller moves `amount` of the governance token into escrow together
/// with the deposit, or not at all.
pub fn stake(ctx: &mut Stake, amount: u64) -> (r: Result<TokensStaked, DaoError>)
    ensures
        match old(ctx).error(amount) {
            Some(e) => r == Err::<TokensStaked, DaoError>(e) && *final(ctx) == *old(ctx),
            None => {
                &&& final(ctx).stake_account == Some(old(ctx).staked_record(amount))
                &&& final(ctx).dao_state@ == old(ctx).staked_dao(amount)
                &&& final(ctx).staker == old(ctx).staker
                &&& final(ctx).dao_state_key == old(ctx).dao_state_key
                &&& final(ctx).stake_account_key == old(ctx).stake_account_key
                &&& r == Ok::<TokensStaked, DaoError>(
                    TokensStaked {
                        dao_state: old(ctx).dao_state_key,
                        stake_account: old(ctx).stake_account_key,
                        staker: old(ctx).staker,
                        amount_staked: amount,
                        new_total_for_staker: (old(ctx).balance() + amount) as u64,
                    },
                )
            },
        },
        r is Ok ==> final(ctx).dao_state.total_staked_amount
            - old(ctx).dao_state.total_staked_amount == final(ctx).balance() - old(ctx).balance(),
{
    if amount == 0 {
        return Err(DaoError::InvalidStakeAmount);
    }
    let balance = match ctx.stake_account {
        None => 0,
        Some(record) => {
            if record.staker != ctx.staker || record.dao_state != ctx.dao_state_key {
                return Err(DaoError::AccountMismatch);
            }
            record.amount
        },
    };
    let new_balance = match balance.checked_add(amount) {
        None => {
            return Err(DaoError::ArithmeticOverflow);
        },
        Some(sum) => sum,
    };
    let new_total = match ctx.dao_state.total_staked_amount.checked_add(amount) {
        None => {
            return Err(DaoError::ArithmeticOverflow);
        },
        Some(sum) => sum,
    };
    ctx.stake_account = Some(
        StakeAccount { staker: ctx.staker, dao_state: ctx.dao_state_key, amount: new_balance },
    );
    ctx.dao_state.total_staked_amount = new_total;
    Ok(
        TokensStaked {
            dao_state: ctx.dao_state_key,
            stake_account: ctx.stake_account_key,
            staker: ctx.staker,
            amount_staked: amount,
            new_total_for_staker: new_balance,
        },
    )
}

} // verus!
