use dao::{
    claim_payment, execute_action, Claim, ClaimPayment, Config, CurrencyType, DaoError, DaoState,
    Identity, PaymentClaimed, ProposalType, RecurringPaymentAccount, Transfer, DEVELOPER_FEE,
};

fn id(n: u8) -> Identity {
    Identity::new([n; 32])
}

const DAO: u8 = 100;
const TREASURY: u8 = 200;
const PAYMENT: u8 = 160;
const T: i64 = 1_700_000_000;

fn dao() -> DaoState {
    DaoState {
        project: Identity::default(),
        authority: id(1),
        treasury: id(TREASURY),
        token_mint: id(201),
        signer: vec![id(1)],
        threshold: 1,
        vote_duration: 3600,
        total_staked_amount: 0,
        quorum: 2,
        staking_yield_rate: 500,
        pass_threshold_percentage: 60,
        min_staking_amount: 10,
    }
}

fn payment(next: i64, interval: i64) -> RecurringPaymentAccount {
    RecurringPaymentAccount {
        dao_state: id(DAO),
        receiver: id(9),
        amount: 25,
        currency: CurrencyType::Sol,
        interval_day: interval,
        next_claimable_timestamp: next,
    }
}

fn claim_ctx(stored: Option<RecurringPaymentAccount>, balance: u64) -> ClaimPayment {
    ClaimPayment {
        dao_state_key: id(DAO),
        dao_state: dao(),
        treasury_balance: balance,
        recurring_payment_key: id(PAYMENT),
        recurring_payment: stored,
        recipient: id(9),
        config: Config { admin: id(1), developer_wallet: id(50) },
    }
}

#[test]
fn the_fee_is_a_thousandth_of_a_sol() {
    assert_eq!(DEVELOPER_FEE, 1_000_000);
}

#[test]
fn a_late_claim_does_not_shift_the_schedule() {
    let mut ctx = claim_ctx(Some(payment(T, 86400)), 100);
    let out = claim_payment(&mut ctx, T + 5).unwrap();
    assert_eq!(
        out,
        Claim {
            fee: Transfer { from: id(9), to: id(50), amount: 1_000_000 },
            payment: Transfer { from: id(TREASURY), to: id(9), amount: 25 },
            event: PaymentClaimed {
                dao_state: id(DAO),
                payment_account: id(PAYMENT),
                recipient: id(9),
                claimed_amount: 25,
                next_claimable_timestamp: T + 86400,
            },
        }
    );
    assert_eq!(ctx.recurring_payment, Some(payment(T + 86400, 86400)));

    // One second before the new claim time is too early.
    let before = ctx.clone();
    assert_eq!(claim_payment(&mut ctx, T + 86399), Err(DaoError::ClaimTooEarly));
    assert_eq!(claim_payment(&mut ctx, T + 5 + 1), Err(DaoError::ClaimTooEarly));
    assert_eq!(ctx, before);

    // At the new claim time the next instalment is due.
    let out = claim_payment(&mut ctx, T + 86399 + 1).unwrap();
    assert_eq!(out.event.next_claimable_timestamp, T + 2 * 86400);
    assert_eq!(ctx.recurring_payment, Some(payment(T + 2 * 86400, 86400)));
}

#[test]
fn missed_instalments_can_be_claimed_one_after_another() {
    let mut ctx = claim_ctx(Some(payment(T, 10)), 100);
    let now = T + 35;
    assert!(claim_payment(&mut ctx, now).is_ok());
    assert!(claim_payment(&mut ctx, now).is_ok());
    assert!(claim_payment(&mut ctx, now).is_ok());
    assert!(claim_payment(&mut ctx, now).is_ok());
    assert_eq!(ctx.recurring_payment, Some(payment(T + 40, 10)));
    assert_eq!(claim_payment(&mut ctx, now), Err(DaoError::ClaimTooEarly));
}

#[test]
fn a_claim_before_the_first_claim_time_is_too_early() {
    let mut ctx = claim_ctx(Some(payment(T, 86400)), 100);
    let before = ctx.clone();
    assert_eq!(claim_payment(&mut ctx, T - 1), Err(DaoError::ClaimTooEarly));
    assert_eq!(ctx, before);
    assert!(claim_payment(&mut ctx, T).is_ok());
}

#[test]
fn only_the_recipient_of_a_stored_payment_claims() {
    let mut ctx = claim_ctx(None, 100);
    assert_eq!(claim_payment(&mut ctx, T), Err(DaoError::NoClaimablePayment));
    assert_eq!(ctx, claim_ctx(None, 100));

    let mut ctx = claim_ctx(Some(payment(T, 86400)), 100);
    ctx.recipient = id(8);
    let before = ctx.clone();
    assert_eq!(claim_payment(&mut ctx, T), Err(DaoError::NoClaimablePayment));
    assert_eq!(ctx, before);

    ctx.recipient = id(9);
    ctx.dao_state_key = id(101);
    assert_eq!(claim_payment(&mut ctx, T), Err(DaoError::AccountMismatch));
}

#[test]
fn a_claim_needs_the_treasury_to_hold_the_amount() {
    let mut ctx = claim_ctx(Some(payment(T, 86400)), 24);
    let before = ctx.clone();
    assert_eq!(claim_payment(&mut ctx, T), Err(DaoError::InsufficientTreasuryBalance));
    assert_eq!(ctx, before);
    // Too early outranks too poor.
    assert_eq!(claim_payment(&mut ctx, T - 1), Err(DaoError::ClaimTooEarly));
    ctx.treasury_balance = 25;
    assert!(claim_payment(&mut ctx, T).is_ok());
}

#[test]
fn a_claim_time_that_would_overflow_refuses_the_claim() {
    let mut ctx = claim_ctx(Some(payment(i64::MAX - 9, 10)), 100);
    let before = ctx.clone();
    assert_eq!(claim_payment(&mut ctx, i64::MAX), Err(DaoError::ArithmeticOverflow));
    assert_eq!(ctx, before);
    let mut ctx = claim_ctx(Some(payment(i64::MAX - 10, 10)), 100);
    assert!(claim_payment(&mut ctx, i64::MAX).is_ok());
    assert_eq!(ctx.recurring_payment, Some(payment(i64::MAX, 10)));
}

#[test]
fn adding_a_payment_overwrites_the_stored_one() {
    let mut config = dao();
    let mut stored = Some(payment(T, 10));
    let action = ProposalType::AddRecurringPayment {
        recipient: id(9),
        amount: 70,
        currency: CurrencyType::Sol,
        interval: 500,
    };
    let out = execute_action(&mut config, &mut stored, &action, id(DAO), id(9), 0, T + 3);
    assert_eq!(out, Ok(None));
    assert_eq!(
        stored,
        Some(RecurringPaymentAccount {
            dao_state: id(DAO),
            receiver: id(9),
            amount: 70,
            currency: CurrencyType::Sol,
            interval_day: 500,
            next_claimable_timestamp: T + 503,
        })
    );
    assert_eq!(config, dao());
}

#[test]
fn a_withdrawal_orders_one_transfer_and_touches_no_record() {
    let mut config = dao();
    let mut stored = Some(payment(T, 10));
    let action = ProposalType::WithdrawTreasury { amount: 30, recipient: id(9) };
    let out = execute_action(&mut config, &mut stored, &action, id(DAO), id(9), 30, T);
    assert_eq!(out, Ok(Some(Transfer { from: id(TREASURY), to: id(9), amount: 30 })));
    assert_eq!(stored, Some(payment(T, 10)));
    assert_eq!(config, dao());
    let out = execute_action(&mut config, &mut stored, &action, id(DAO), id(9), 29, T);
    assert_eq!(out, Err(DaoError::InsufficientTreasuryBalance));
    assert_eq!(stored, Some(payment(T, 10)));
    assert_eq!(config, dao());
}
