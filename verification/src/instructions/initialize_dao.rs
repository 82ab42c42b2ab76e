use vstd::prelude::*;
use crate::error::DaoError;
use crate::event::DaoInitialized;
use crate::identity::Identity;
use crate::state::{DaoState, DaoStateView, MAX_PASS_PERCENTAGE};

verus! {

/// Everything the creation of a DAO works on.
#[derive(Clone, Copy, Debug, PartialEq, Eq)]
pub struct InitializeDao {
    /// Where the DAO's configuration will be stored.
    pub dao_state_key: Identity,
    /// The administrator, who becomes the first signer.
    pub authority: Identity,
    /// The account that holds the DAO's funds.
    pub treasury: Identity,
    /// The mint of the governance token.
    pub token_mint: Identity,
}

/// The error, if any, with which a DAO with these settings is refused. The
/// threshold must not be zero, the vote duration must be positive, the
/// threshold must not exceed the one signer the new DAO has, and the pass
/// percentage must not exceed 100; the first of these that fails decides.
pub open spec fn initialize_error(
    threshold: u8,
    vote_duration: i64,
    pass_threshold_percentage: u8,
) -> Option<DaoError> {
    if threshold == 0 {
        Some(DaoError::InvalidThreshold)
    } else if vote_duration <= 0 {
        Some(DaoError::InvalidVoteDuration)
    } else if threshold > 1 {
        Some(DaoError::InvalidThreshold)
    } else if pass_threshold_percentage > MAX_PASS_PERCENTAGE {
        Some(DaoError::InvalidPassPercentage)
    } else {
        None
    }
}

/// Creates the configuration of a DAO. The administrator is its only
/// signer, nothing is staked, and it belongs to no project.
///
/// The threshold may never exceed the number of signers, so a new DAO is
/// accepted with a threshold of one only; further signers and a higher
/// threshold come by proposals. The vote duration must be positive and the
/// pass percentage at most 100.
pub fn initialize_dao(
    ctx: &InitializeDao,
    threshold: u8,
    vote_duration: i64,
    quorum: u32,
    staking_yield_rate: u16,
    pass_threshold_percentage: u8,
    min_staking_amount: u64,
) -> (r: Result<(DaoState, DaoInitialized), DaoError>)
    ensures
        match initialize_error(threshold, vote_duration, pass_threshold_percentage) {
            Some(e) => r == Err::<(DaoState, DaoInitialized), DaoError>(e),
            None => {
                &&& r matches Ok((dao, event))
                &&& dao@ == (DaoStateView {
                    project: Identity::zero(),
                    authority: ctx.authority,
                    treasury: ctx.treasury,
                    token_mint: ctx.token_mint,
                    signer: seq![ctx.authority],
                    threshold,
                    vote_duration,
                    total_staked_amount: 0,
                    quorum,
                    staking_yield_rate,
                    pass_threshold_percentage,
                    min_staking_amount,
                })
                &&& dao@.wf()
                &&& dao.pass_threshold_percentage <= 100
                &&& event == (DaoInitialized {
                    dao_state: ctx.dao_state_key,
                    authority: ctx.authority,
                    treasury: ctx.treasury,
                    token_mint: ctx.token_mint,
                    threshold,
                    vote_duration,
                    quorum,
                    staking_yield_rate,
                    pass_threshold_percentage,
                    min_staking_amount,
                })
            },
        },
{
    if threshold == 0 {
        return Err(DaoError::InvalidThreshold);
    }
    if vote_duration <= 0 {
        return Err(DaoError::InvalidVoteDuration);
    }
    if threshold > 1 {
        return Err(DaoError::InvalidThreshold);
    }
    if pass_threshold_percentage > MAX_PASS_PERCENTAGE {
        return Err(DaoError::InvalidPassPercentage);
    }
    let mut signer: Vec<Identity> = Vec::new();
    signer.push(ctx.authority);
    proof {
        assert(signer@ =~= seq![ctx.authority]);
    }
    let dao = DaoState {
        project: Identity::default(),
        authority: ctx.authority,
        treasury: ctx.treasury,
        token_mint: ctx.token_mint,
        signer,
        threshold,
        vote_duration,
        total_staked_amount: 0,
        quorum,
        staking_yield_rate,
        pass_threshold_percentage,
        min_staking_amount,
    };
    let event = DaoInitialized {
        dao_state: ctx.dao_state_key,
        authority: ctx.authority,
        treasury: ctx.treasury,
        token_mint: ctx.token_mint,
        threshold,
        vote_duration,
        quorum,
        staking_yield_rate,
        pass_threshold_percentage,
        min_staking_amount,
    };
    Ok((dao, event))
}

} // verus!
