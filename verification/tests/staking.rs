use dao::{
    stake, unstake, DaoError, DaoState, Identity, Stake, StakeAccount, TokensStaked,
    TokensUnstaked, Unstake,
};

fn id(n: u8) -> Identity {
    Identity::new([n; 32])
}

const DAO: u8 = 100;

fn dao(total: u64) -> DaoState {
    DaoState {
        project: Identity::default(),
        authority: id(1),
        treasury: id(200),
        token_mint: id(201),
        signer: vec![id(1)],
        threshold: 1,
        vote_duration: 3600,
        total_staked_amount: total,
        quorum: 2,
        staking_yield_rate: 500,
        pass_threshold_percentage: 60,
        min_staking_amount: 10,
    }
}

fn record(staker: u8, amount: u64) -> StakeAccount {
    StakeAccount { staker: id(staker), dao_state: id(DAO), amount }
}

fn stake_ctx(staker: u8, stored: Option<StakeAccount>, total: u64) -> Stake {
    Stake {
        staker: id(staker),
        dao_state_key: id(DAO),
        dao_state: dao(total),
        stake_account_key: id(staker + 100),
        stake_account: stored,
    }
}

fn unstake_ctx(staker: u8, stored: Option<StakeAccount>, total: u64) -> Unstake {
    Unstake {
        staker: id(staker),
        dao_state_key: id(DAO),
        dao_state: dao(total),
        stake_account_key: id(staker + 100),
        stake_account: stored,
    }
}

#[test]
fn the_first_deposit_creates_the_record() {
    let mut ctx = stake_ctx(21, None, 500);
    let event = stake(&mut ctx, 40).unwrap();
    assert_eq!(
        event,
        TokensStaked {
            dao_state: id(DAO),
            stake_account: id(121),
            staker: id(21),
            amount_staked: 40,
            new_total_for_staker: 40,
        }
    );
    assert_eq!(ctx, stake_ctx(21, Some(record(21, 40)), 540));
}

#[test]
fn a_further_deposit_adds_to_the_record() {
    let mut ctx = stake_ctx(21, Some(record(21, 40)), 540);
    let event = stake(&mut ctx, 2).unwrap();
    assert_eq!(event.amount_staked, 2);
    assert_eq!(event.new_total_for_staker, 42);
    assert_eq!(ctx, stake_ctx(21, Some(record(21, 42)), 542));
}

#[test]
fn a_deposit_of_nothing_is_refused() {
    let mut ctx = stake_ctx(21, Some(record(21, 40)), 540);
    assert_eq!(stake(&mut ctx, 0), Err(DaoError::InvalidStakeAmount));
    assert_eq!(ctx, stake_ctx(21, Some(record(21, 40)), 540));
    let mut ctx = stake_ctx(21, Some(record(22, 40)), 540);
    assert_eq!(stake(&mut ctx, 0), Err(DaoError::InvalidStakeAmount));
}

#[test]
fn a_deposit_into_a_foreign_record_is_refused() {
    let mut ctx = stake_ctx(21, Some(record(22, 40)), 540);
    assert_eq!(stake(&mut ctx, 5), Err(DaoError::AccountMismatch));
    assert_eq!(ctx, stake_ctx(21, Some(record(22, 40)), 540));
    let other_dao = StakeAccount { staker: id(21), dao_state: id(101), amount: 40 };
    let mut ctx = stake_ctx(21, Some(other_dao), 540);
    assert_eq!(stake(&mut ctx, 5), Err(DaoError::AccountMismatch));
}

#[test]
fn a_deposit_that_would_overflow_is_refused() {
    let mut ctx = stake_ctx(21, Some(record(21, u64::MAX - 4)), u64::MAX - 4);
    assert_eq!(stake(&mut ctx, 5), Err(DaoError::ArithmeticOverflow));
    assert_eq!(ctx, stake_ctx(21, Some(record(21, u64::MAX - 4)), u64::MAX - 4));
    assert!(stake(&mut ctx, 4).is_ok());
    assert_eq!(ctx, stake_ctx(21, Some(record(21, u64::MAX)), u64::MAX));

    let mut ctx = stake_ctx(21, None, u64::MAX);
    assert_eq!(stake(&mut ctx, 1), Err(DaoError::ArithmeticOverflow));
    assert_eq!(ctx, stake_ctx(21, None, u64::MAX));
}

#[test]
fn a_withdrawal_returns_everything_and_destroys_the_record() {
    let mut ctx = unstake_ctx(21, Some(record(21, 42)), 542);
    let event = unstake(&mut ctx).unwrap();
    assert_eq!(
        event,
        TokensUnstaked {
            dao_state: id(DAO),
            stake_account: id(121),
            staker: id(21),
            amount_unstaked: 42,
        }
    );
    assert_eq!(ctx, unstake_ctx(21, None, 500));
    // Nothing is left to withdraw a second time.
    assert_eq!(unstake(&mut ctx), Err(DaoError::NoTokensStaked));
    assert_eq!(ctx, unstake_ctx(21, None, 500));
}

#[test]
fn a_withdrawal_without_stake_is_refused() {
    let mut ctx = unstake_ctx(21, None, 500);
    assert_eq!(unstake(&mut ctx), Err(DaoError::NoTokensStaked));
    let mut ctx = unstake_ctx(21, Some(record(21, 0)), 500);
    assert_eq!(unstake(&mut ctx), Err(DaoError::NoTokensStaked));
    assert_eq!(ctx, unstake_ctx(21, Some(record(21, 0)), 500));
}

#[test]
fn a_withdrawal_of_a_foreign_record_is_refused() {
    let mut ctx = unstake_ctx(21, Some(record(22, 42)), 542);
    assert_eq!(unstake(&mut ctx), Err(DaoError::AccountMismatch));
    assert_eq!(ctx, unstake_ctx(21, Some(record(22, 42)), 542));
    let other_dao = StakeAccount { staker: id(21), dao_state: id(101), amount: 42 };
    let mut ctx = unstake_ctx(21, Some(other_dao), 542);
    assert_eq!(unstake(&mut ctx), Err(DaoError::AccountMismatch));
}

#[test]
fn a_withdrawal_of_more_than_the_total_is_refused() {
    let mut ctx = unstake_ctx(21, Some(record(21, 42)), 41);
    assert_eq!(unstake(&mut ctx), Err(DaoError::ArithmeticOverflow));
    assert_eq!(ctx, unstake_ctx(21, Some(record(21, 42)), 41));
}

#[test]
fn the_total_is_the_sum_of_the_records_after_every_step() {
    // A small ledger kept beside the library: one slot for each staker.
    let mut slots: Vec<Option<StakeAccount>> = vec![None, None, None];
    let mut config = dao(0);
    let steps: [(usize, u64); 9] =
        [(0, 100), (1, 50), (0, 0), (2, 7), (1, 0), (1, 0), (0, 1), (2, 3), (0, 0)];
    for (who, amount) in steps.iter() {
        let staker = 21 + *who as u8;
        if *amount > 0 {
            let mut ctx = Stake {
                staker: id(staker),
                dao_state_key: id(DAO),
                dao_state: config.clone(),
                stake_account_key: id(staker + 100),
                stake_account: slots[*who],
            };
            stake(&mut ctx, *amount).unwrap();
            slots[*who] = ctx.stake_account;
            config = ctx.dao_state;
        } else {
            let mut ctx = Unstake {
                staker: id(staker),
                dao_state_key: id(DAO),
                dao_state: config.clone(),
                stake_account_key: id(staker + 100),
                stake_account: slots[*who],
            };
            let had = slots[*who].is_some();
            assert_eq!(unstake(&mut ctx).is_ok(), had);
            slots[*who] = ctx.stake_account;
            config = ctx.dao_state;
        }
        let sum: u64 = slots.iter().map(|slot| slot.map_or(0, |r| r.amount)).sum();
        assert_eq!(config.total_staked_amount, sum);
    }
    assert_eq!(slots, vec![None, None, Some(record(23, 10))]);
    assert_eq!(config, dao(10));
}
