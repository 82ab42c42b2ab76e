use dao::{
    mul_approve_propose, mul_create_propose, Approval, Approve, CurrencyType, DaoError, DaoState,
    DaoUpdateAction, Execution, Identity, Proposal, ProposalApproved, ProposalCreated,
    ProposalExecuted, ProposalType, Propose, RecurringPaymentAccount, Transfer,
};

fn id(n: u8) -> Identity {
    Identity::new([n; 32])
}

const DAO: u8 = 100;
const TREASURY: u8 = 200;
const PROPOSAL: u8 = 150;

fn dao_with(signers: &[u8], threshold: u8) -> DaoState {
    DaoState {
        project: Identity::default(),
        authority: id(1),
        treasury: id(TREASURY),
        token_mint: id(201),
        signer: signers.iter().map(|n| id(*n)).collect(),
        threshold,
        vote_duration: 3600,
        total_staked_amount: 0,
        quorum: 2,
        staking_yield_rate: 500,
        pass_threshold_percentage: 60,
        min_staking_amount: 10,
    }
}

fn proposal_of(action: ProposalType) -> Proposal {
    Proposal {
        dao_state: id(DAO),
        proposer: id(1),
        proposal_id: 7,
        proposal_type: action,
        approvals: Vec::new(),
        title: String::from("title"),
        description: String::from("description"),
        yes_votes: 0,
        no_votes: 0,
        voter_count: 0,
        end_time: 0,
        executed: false,
        created_at: 1000,
        approved_at: None,
    }
}

fn approve_ctx(dao: DaoState, proposal: Proposal, approver: u8, balance: u64, recipient: u8) -> Approve {
    Approve {
        dao_state_key: id(DAO),
        dao_state: dao,
        proposal_key: id(PROPOSAL),
        proposal,
        approver: id(approver),
        treasury_balance: balance,
        recipient: id(recipient),
        recurring_payment: None,
    }
}

fn approved_event(approver: u8, count: u64, threshold: u8) -> ProposalApproved {
    ProposalApproved {
        dao_state: id(DAO),
        proposal: id(PROPOSAL),
        proposal_id: 7,
        approver: id(approver),
        current_approvals: count,
        threshold,
    }
}

#[test]
fn propose_makes_a_fresh_proposal() {
    let ctx = Propose {
        dao_state_key: id(DAO),
        dao_state: dao_with(&[1, 2, 3], 2),
        proposal_key: id(PROPOSAL),
        proposer: id(2),
    };
    let action = ProposalType::WithdrawTreasury { amount: 5, recipient: id(9) };
    let (proposal, event) = mul_create_propose(
        &ctx,
        7,
        action,
        String::from("pay"),
        String::from("pay nine"),
        1234,
    )
    .unwrap();
    assert_eq!(
        proposal,
        Proposal {
            dao_state: id(DAO),
            proposer: id(2),
            proposal_id: 7,
            proposal_type: action,
            approvals: Vec::new(),
            title: String::from("pay"),
            description: String::from("pay nine"),
            yes_votes: 0,
            no_votes: 0,
            voter_count: 0,
            end_time: 0,
            executed: false,
            created_at: 1234,
            approved_at: None,
        }
    );
    assert_eq!(
        event,
        ProposalCreated {
            dao_state: id(DAO),
            proposal: id(PROPOSAL),
            proposal_id: 7,
            proposer: id(2),
            proposal_type: action,
        }
    );
}

#[test]
fn propose_refuses_a_stranger_and_a_malformed_action() {
    let mut ctx = Propose {
        dao_state_key: id(DAO),
        dao_state: dao_with(&[1, 2, 3], 2),
        proposal_key: id(PROPOSAL),
        proposer: id(9),
    };
    let good = ProposalType::WithdrawTreasury { amount: 5, recipient: id(9) };
    let zero = ProposalType::WithdrawTreasury { amount: 0, recipient: id(9) };
    let own = ProposalType::WithdrawTreasury { amount: 5, recipient: id(TREASURY) };
    let make = |ctx: &Propose, action: ProposalType| {
        mul_create_propose(ctx, 7, action, String::new(), String::new(), 0)
    };
    assert_eq!(make(&ctx, good), Err(DaoError::UnauthorizedSigner));
    assert_eq!(make(&ctx, zero), Err(DaoError::UnauthorizedSigner));
    ctx.proposer = id(1);
    assert!(make(&ctx, good).is_ok());
    assert_eq!(make(&ctx, zero), Err(DaoError::InvalidPaymentAmount));
    assert_eq!(make(&ctx, own), Err(DaoError::InvalidRecipient));
    assert_eq!(
        make(
            &ctx,
            ProposalType::AddRecurringPayment {
                recipient: id(9),
                amount: 1,
                currency: CurrencyType::Sol,
                interval: 0
            }
        ),
        Err(DaoError::InvalidPaymentInterval)
    );
    assert_eq!(
        make(
            &ctx,
            ProposalType::UpdateDao { action: DaoUpdateAction::AddSigner { new_signer: id(3) } }
        ),
        Err(DaoError::SignerAlreadyExists)
    );
}

#[test]
fn three_of_four_signers_execute_and_the_fourth_is_too_late() {
    let action = ProposalType::WithdrawTreasury { amount: 40, recipient: id(9) };
    let mut ctx = approve_ctx(dao_with(&[1, 2, 3, 4], 3), proposal_of(action), 1, 100, 9);

    let first = mul_approve_propose(&mut ctx, 2000).unwrap();
    assert_eq!(first, Approval { approved: approved_event(1, 1, 3), execution: None });
    assert!(!ctx.proposal.executed);

    ctx.approver = id(2);
    let second = mul_approve_propose(&mut ctx, 2001).unwrap();
    assert_eq!(second, Approval { approved: approved_event(2, 2, 3), execution: None });
    assert!(!ctx.proposal.executed);
    assert_eq!(ctx.proposal.approved_at, None);
    assert_eq!(ctx.proposal.approvals, vec![id(1), id(2)]);

    ctx.approver = id(3);
    let third = mul_approve_propose(&mut ctx, 2002).unwrap();
    assert_eq!(
        third,
        Approval {
            approved: approved_event(3, 3, 3),
            execution: Some(Execution {
                event: ProposalExecuted {
                    dao_state: id(DAO),
                    proposal: id(PROPOSAL),
                    proposal_id: 7,
                    proposal_type: action,
                },
                transfer: Some(Transfer { from: id(TREASURY), to: id(9), amount: 40 }),
            }),
        }
    );
    assert!(ctx.proposal.executed);
    assert_eq!(ctx.proposal.approved_at, Some(2002));
    assert_eq!(ctx.proposal.end_time, 0);
    assert_eq!(ctx.proposal.approvals, vec![id(1), id(2), id(3)]);

    ctx.approver = id(4);
    let before = ctx.clone();
    assert_eq!(mul_approve_propose(&mut ctx, 2003), Err(DaoError::ProposalAlreadyExecuted));
    assert_eq!(ctx, before);
    // An earlier signer is told the same.
    ctx.approver = id(1);
    assert_eq!(mul_approve_propose(&mut ctx, 2003), Err(DaoError::ProposalAlreadyExecuted));
}

#[test]
fn approval_refuses_strangers_repeats_and_foreign_proposals() {
    let action = ProposalType::WithdrawTreasury { amount: 40, recipient: id(9) };
    let mut ctx = approve_ctx(dao_with(&[1, 2, 3, 4], 3), proposal_of(action), 8, 100, 9);
    let before = ctx.clone();
    assert_eq!(mul_approve_propose(&mut ctx, 0), Err(DaoError::UnauthorizedSigner));
    assert_eq!(ctx, before);

    ctx.approver = id(1);
    assert!(mul_approve_propose(&mut ctx, 0).is_ok());
    let before = ctx.clone();
    assert_eq!(mul_approve_propose(&mut ctx, 0), Err(DaoError::AlreadyApproved));
    assert_eq!(ctx, before);

    ctx.approver = id(2);
    ctx.dao_state_key = id(101);
    let before = ctx.clone();
    assert_eq!(mul_approve_propose(&mut ctx, 0), Err(DaoError::AccountMismatch));
    assert_eq!(ctx, before);
}

#[test]
fn threshold_of_one_executes_on_the_first_approval() {
    let action = ProposalType::UpdateDao { action: DaoUpdateAction::AddSigner { new_signer: id(2) } };
    let mut ctx = approve_ctx(dao_with(&[1], 1), proposal_of(action), 1, 0, 0);
    let out = mul_approve_propose(&mut ctx, 50).unwrap();
    assert_eq!(out.approved, approved_event(1, 1, 1));
    assert_eq!(out.execution.unwrap().transfer, None);
    assert!(ctx.proposal.executed);
    assert_eq!(ctx.dao_state, dao_with(&[1, 2], 1));
}

#[test]
fn approval_that_executes_a_threshold_change_reports_the_old_threshold() {
    let action = ProposalType::UpdateDao {
        action: DaoUpdateAction::ChangeThreshold { new_threshold: 3 },
    };
    let mut proposal = proposal_of(action);
    proposal.approvals = vec![id(1)];
    let mut ctx = approve_ctx(dao_with(&[1, 2, 3], 2), proposal, 2, 0, 0);
    let out = mul_approve_propose(&mut ctx, 50).unwrap();
    assert_eq!(out.approved, approved_event(2, 2, 2));
    assert!(out.execution.is_some());
    assert_eq!(ctx.dao_state, dao_with(&[1, 2, 3], 3));
    assert!(ctx.proposal.executed);
}

#[test]
fn approval_that_executes_a_recurring_payment_stores_it() {
    let action = ProposalType::AddRecurringPayment {
        recipient: id(9),
        amount: 25,
        currency: CurrencyType::Sol,
        interval: 86400,
    };
    let mut ctx = approve_ctx(dao_with(&[1], 1), proposal_of(action), 1, 0, 9);
    ctx.recurring_payment = Some(RecurringPaymentAccount {
        dao_state: id(DAO),
        receiver: id(9),
        amount: 1,
        currency: CurrencyType::Sol,
        interval_day: 10,
        next_claimable_timestamp: 3,
    });
    let out = mul_approve_propose(&mut ctx, 5000).unwrap();
    assert_eq!(out.execution.unwrap().transfer, None);
    assert_eq!(
        ctx.recurring_payment,
        Some(RecurringPaymentAccount {
            dao_state: id(DAO),
            receiver: id(9),
            amount: 25,
            currency: CurrencyType::Sol,
            interval_day: 86400,
            next_claimable_timestamp: 5000 + 86400,
        })
    );
}

#[test]
fn a_failing_action_takes_the_approval_with_it() {
    let remove = ProposalType::UpdateDao {
        action: DaoUpdateAction::RemoveSigner { signer_to_remove: id(5) },
    };
    let mut ctx = approve_ctx(dao_with(&[1, 2], 1), proposal_of(remove), 1, 0, 0);
    let before = ctx.clone();
    assert_eq!(mul_approve_propose(&mut ctx, 0), Err(DaoError::SignerNotFound));
    assert_eq!(ctx, before);

    let payment = ProposalType::AddRecurringPayment {
        recipient: id(9),
        amount: 25,
        currency: CurrencyType::Sol,
        interval: 86400,
    };
    let mut ctx = approve_ctx(dao_with(&[1, 2], 1), proposal_of(payment), 1, 0, 8);
    let before = ctx.clone();
    assert_eq!(mul_approve_propose(&mut ctx, 0), Err(DaoError::InvalidRecipient));
    assert_eq!(ctx, before);
    ctx.recipient = id(9);
    let before = ctx.clone();
    assert_eq!(mul_approve_propose(&mut ctx, i64::MAX - 86399), Err(DaoError::ArithmeticOverflow));
    assert_eq!(ctx, before);
    assert!(mul_approve_propose(&mut ctx, i64::MAX - 86400).is_ok());
    assert_eq!(ctx.recurring_payment.unwrap().next_claimable_timestamp, i64::MAX);
}

#[test]
fn withdrawal_beyond_the_balance_fails_and_changes_nothing() {
    let action = ProposalType::WithdrawTreasury { amount: 101, recipient: id(9) };
    let mut proposal = proposal_of(action);
    proposal.approvals = vec![id(1), id(2)];
    let mut ctx = approve_ctx(dao_with(&[1, 2, 3, 4], 3), proposal, 3, 100, 9);
    let before = ctx.clone();
    assert_eq!(mul_approve_propose(&mut ctx, 0), Err(DaoError::InsufficientTreasuryBalance));
    assert_eq!(ctx, before);
    assert!(!ctx.proposal.executed);
    assert_eq!(ctx.treasury_balance, 100);
    // The balance is looked at before the account that is presented.
    ctx.recipient = id(8);
    assert_eq!(mul_approve_propose(&mut ctx, 0), Err(DaoError::InsufficientTreasuryBalance));
    // Once the treasury is funded the same approval goes through.
    ctx.treasury_balance = 101;
    assert_eq!(mul_approve_propose(&mut ctx, 0), Err(DaoError::InvalidRecipient));
    ctx.recipient = id(9);
    let out = mul_approve_propose(&mut ctx, 0).unwrap();
    assert_eq!(
        out.execution.unwrap().transfer,
        Some(Transfer { from: id(TREASURY), to: id(9), amount: 101 })
    );
    assert!(ctx.proposal.executed);
}

#[test]
fn an_approval_below_the_threshold_does_not_look_at_the_treasury() {
    let action = ProposalType::WithdrawTreasury { amount: 101, recipient: id(9) };
    let mut ctx = approve_ctx(dao_with(&[1, 2, 3, 4], 3), proposal_of(action), 1, 100, 9);
    let out = mul_approve_propose(&mut ctx, 0).unwrap();
    assert_eq!(out.execution, None);
    assert!(!ctx.proposal.executed);
    assert_eq!(ctx.proposal.approvals, vec![id(1)]);
}
