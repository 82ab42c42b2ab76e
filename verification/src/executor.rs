use vstd::prelude::*;
use crate::custody::Transfer;
use crate::error::DaoError;
use crate::event::ProposalExecuted;
use crate::identity::{is_member, Identity};
use crate::state::{
    lemma_push_keeps_distinct, DaoState, DaoStateView, DaoUpdateAction, ProposalType,
    RecurringPaymentAccount, MAX_SIGNERS,
};

verus! {

/// The predicate that holds of every identity but `who`.
pub open spec fn differs_from(who: Identity) -> spec_fn(Identity) -> bool {
    |k: Identity| k != who
}

/// The error, if any, that keeps `action` from being applied to `dao`.
pub open spec fn update_error(dao: DaoStateView, action: DaoUpdateAction) -> Option<DaoError> {
    match action {
        DaoUpdateAction::AddSigner { new_signer } => if dao.signer.contains(new_signer) {
            Some(DaoError::SignerAlreadyExists)
        } else if dao.signer.len() >= MAX_SIGNERS {
            Some(DaoError::SignerLimitReached)
        } else {
            None
        },
        DaoUpdateAction::RemoveSigner { signer_to_remove } => if !dao.signer.contains(
            signer_to_remove,
        ) {
            Some(DaoError::SignerNotFound)
        } else if dao.signer.len() - 1 < dao.threshold {
            Some(DaoError::CannotRemoveSigner)
        } else {
            None
        },
        DaoUpdateAction::ChangeThreshold { new_threshold } => if new_threshold < 1
            || new_threshold > dao.signer.len() {
            Some(DaoError::InvalidNewThreshold)
        } else {
            None
        },
    }
}

/// The configuration that `action` turns `dao` into.
pub open spec fn updated(dao: DaoStateView, action: DaoUpdateAction) -> DaoStateView {
    match action {
        DaoUpdateAction::AddSigner { new_signer } => DaoStateView {
            signer: dao.signer.push(new_signer),
            ..dao
        },
        DaoUpdateAction::RemoveSigner { signer_to_remove } => DaoStateView {
            signer: dao.signer.filter(differs_from(signer_to_remove)),
            ..dao
        },
        DaoUpdateAction::ChangeThreshold { new_threshold } => DaoStateView {
            threshold: new_threshold,
            ..dao
        },
    }
}

/// Filtering one value out of a sequence without repetition leaves a
/// sequence without repetition that is shorter by one if the value occurred,
/// and that holds exactly the other values.
pub proof fn lemma_filter_one_out(s: Seq<Identity>, who: Identity)
    requires
        s.no_duplicates(),
    ensures
        s.filter(differs_from(who)).no_duplicates(),
        s.filter(differs_from(who)).len() == if s.contains(who) {
            s.len() - 1
        } else {
            s.len() as int
        },
        forall|k: Identity| #[trigger]
            s.filter(differs_from(who)).contains(k) <==> s.contains(k) && k != who,
    decreases s.len(),
{
    reveal(Seq::filter);
    let out = s.filter(differs_from(who));
    if s.len() > 0 {
        let front = s.drop_last();
        let last = s.last();
        lemma_filter_one_out(front, who);
        let sub = front.filter(differs_from(who));
        assert(!front.contains(last)) by {
            if front.contains(last) {
                let i = choose|i: int| 0 <= i < front.len() && front[i] == last;
                assert(s[i] == s[s.len() - 1]);
            }
        }
        assert forall|k: Identity| s.contains(k) <==> front.contains(k) || k == last by {
            if s.contains(k) {
                let i = choose|i: int| 0 <= i < s.len() && s[i] == k;
                if i < s.len() - 1 {
                    assert(front[i] == k);
                }
            }
            if front.contains(k) {
                let i = choose|i: int| 0 <= i < front.len() && front[i] == k;
                assert(s[i] == k);
            }
            if k == last {
                assert(s[s.len() - 1] == k);
            }
        }
        if last != who {
            assert(out == sub.push(last));
            assert(!sub.contains(last));
            assert forall|i: int, j: int|
                0 <= i < out.len() && 0 <= j < out.len() && i != j implies out[i] != out[j] by {
                if i == out.len() - 1 {
                    assert(sub[j] == out[j]);
                } else if j == out.len() - 1 {
                    assert(sub[i] == out[i]);
                } else {
                    assert(sub[i] == out[i] && sub[j] == out[j]);
                }
            }
            assert forall|k: Identity| #[trigger] out.contains(k) <==> s.contains(k) && k != who by {
                if out.contains(k) {
                    let i = choose|i: int| 0 <= i < out.len() && out[i] == k;
                    if i < sub.len() {
                        assert(sub[i] == k);
                        assert(sub.contains(k));
                    } else {
                        assert(k == last);
                    }
                    assert(s.contains(k) && k != who);
                }
                if s.contains(k) && k != who {
                    if k == last {
                        assert(out[out.len() - 1] == k);
                    } else {
                        assert(front.contains(k));
                        assert(sub.contains(k));
                        let i = choose|i: int| 0 <= i < sub.len() && sub[i] == k;
                        assert(out[i] == k);
                    }
                    assert(out.contains(k));
                }
            }
        } else {
            assert(out == sub);
        }
    } else {
        assert(!s.contains(who));
        assert forall|k: Identity| !s.contains(k) by {}
    }
}

/// An update that is accepted keeps the invariant of the configuration.
pub proof fn update_keeps_invariant(dao: DaoStateView, action: DaoUpdateAction)
    requires
        dao.wf(),
        update_error(dao, action) is None,
    ensures
        updated(dao, action).wf(),
{
    match action {
        DaoUpdateAction::AddSigner { new_signer } => {
            lemma_push_keeps_distinct(dao.signer, new_signer);
        },
        DaoUpdateAction::RemoveSigner { signer_to_remove } => {
            lemma_filter_one_out(dao.signer, signer_to_remove);
        },
        DaoUpdateAction::ChangeThreshold { new_threshold } => {},
    }
}

/// Takes every occurrence of `who` out of `list` and keeps the rest in order.
pub fn remove_member(list: &mut Vec<Identity>, who: &Identity)
    ensures
        final(list)@ == old(list)@.filter(differs_from(*who)),
{
    let mut kept: Vec<Identity> = Vec::new();
    let mut i: usize = 0;
    proof {
        reveal(Seq::filter);
        assert(list@.take(0).len() == 0);
    }
    while i < list.len()
        invariant
            i <= list.len(),
            kept@ == list@.take(i as int).filter(differs_from(*who)),
        decreases list.len() - i,
    {
        proof {
            reveal(Seq::filter);
            assert(list@.take(i + 1).drop_last() == list@.take(i as int));
            assert(list@.take(i + 1).last() == list@[i as int]);
        }
        if list[i] != *who {
            kept.push(list[i]);
        }
        i += 1;
    }
    proof {
        assert(list@.take(list@.len() as int) == list@);
    }
    *list = kept;
}

/// Applies a change to the signer set or the threshold. The change is
/// refused, and the configuration left as it was, when a signer to add is
/// already in the set or the set is full, when a signer to remove is not in
/// the set or the set would fall below the threshold, and when a new
/// threshold is zero or above the number of signers.
pub fn apply_dao_update(dao: &mut DaoState, action: &DaoUpdateAction) -> (r: Result<(), DaoError>)
    ensures
        match update_error(old(dao)@, *action) {
            Some(e) => r == Err::<(), DaoError>(e) && *final(dao) == *old(dao),
            None => r == Ok::<(), DaoError>(()) && final(dao)@ == updated(old(dao)@, *action),
        },
        old(dao)@.wf() ==> final(dao)@.wf(),
{
    proof {
        if old(dao)@.wf() && update_error(old(dao)@, *action) is None {
            update_keeps_invariant(old(dao)@, *action);
        }
    }
    match action {
        DaoUpdateAction::AddSigner { new_signer } => {
            if is_member(&dao.signer, new_signer) {
                return Err(DaoError::SignerAlreadyExists);
            }
            if dao.signer.len() >= MAX_SIGNERS {
                return Err(DaoError::SignerLimitReached);
            }
            dao.signer.push(*new_signer);
        },
        DaoUpdateAction::RemoveSigner { signer_to_remove } => {
            if !is_member(&dao.signer, signer_to_remove) {
                return Err(DaoError::SignerNotFound);
            }
            if dao.signer.len() - 1 < dao.threshold as usize {
                return Err(DaoError::CannotRemoveSigner);
            }
            remove_member(&mut dao.signer, signer_to_remove);
        },
        DaoUpdateAction::ChangeThreshold { new_threshold } => {
            if *new_threshold < 1 || *new_threshold as usize > dao.signer.len() {
                return Err(DaoError::InvalidNewThreshold);
            }
            dao.threshold = *new_threshold;
        },
    }
    Ok(())
}

/// The error, if any, that keeps `action` from being proposed against
/// `dao`. An amount must be positive, an interval must be positive, the
/// recipient must not be the treasury, and a change to the configuration
/// must be one that `dao` accepts as it stands.
pub open spec fn validation_error(dao: DaoStateView, action: ProposalType) -> Option<DaoError> {
    match action {
        ProposalType::AddRecurringPayment { recipient, amount, currency, interval } => if amount
            == 0 {
            Some(DaoError::InvalidPaymentAmount)
        } else if interval <= 0 {
            Some(DaoError::InvalidPaymentInterval)
        } else if recipient == dao.treasury {
            Some(DaoError::InvalidRecipient)
        } else {
            None
        },
        ProposalType::UpdateDao { action } => update_error(dao, action),
        ProposalType::WithdrawTreasury { amount, recipient } => if amount == 0 {
            Some(DaoError::InvalidPaymentAmount)
        } else if recipient == dao.treasury {
            Some(DaoError::InvalidRecipient)
        } else {
            None
        },
    }
}

/// Checks an action before a proposal is made of it, so that a malformed
/// proposal never reaches approval or voting.
pub fn validate_action(dao: &DaoState, action: &ProposalType) -> (r: Result<(), DaoError>)
    ensures
        r == match validation_error(dao@, *action) {
            Some(e) => Err::<(), DaoError>(e),
            None => Ok::<(), DaoError>(()),
        },
{
    match action {
        ProposalType::AddRecurringPayment { recipient, amount, currency, interval } => {
            if *amount == 0 {
                return Err(DaoError::InvalidPaymentAmount);
            }
            if *interval <= 0 {
                return Err(DaoError::InvalidPaymentInterval);
            }
            if *recipient == dao.treasury {
                return Err(DaoError::InvalidRecipient);
            }
            Ok(())
        },
        ProposalType::UpdateDao { action } => {
            match action {
                DaoUpdateAction::AddSigner { new_signer } => {
                    if is_member(&dao.signer, new_signer) {
                        return Err(DaoError::SignerAlreadyExists);
                    }
                    if dao.signer.len() >= MAX_SIGNERS {
                        return Err(DaoError::SignerLimitReached);
                    }
                    Ok(())
                },
                DaoUpdateAction::RemoveSigner { signer_to_remove } => {
                    if !is_member(&dao.signer, signer_to_remove) {
                        return Err(DaoError::SignerNotFound);
                    }
                    if dao.signer.len() - 1 < dao.threshold as usize {
                        return Err(DaoError::CannotRemoveSigner);
                    }
                    Ok(())
                },
                DaoUpdateAction::ChangeThreshold { new_threshold } => {
                    if *new_threshold < 1 || *new_threshold as usize > dao.signer.len() {
                        return Err(DaoError::InvalidNewThreshold);
                    }
                    Ok(())
                },
            }
        },
        ProposalType::WithdrawTreasury { amount, recipient } => {
            if *amount == 0 {
                return Err(DaoError::InvalidPaymentAmount);
            }
            if *recipient == dao.treasury {
                return Err(DaoError::InvalidRecipient);
            }
            Ok(())
        },
    }
}

/// Whether `x` is a value of `i64`.
pub open spec fn fits_i64(x: int) -> bool {
    i64::MIN <= x <= i64::MAX
}

/// The error, if any, that keeps an approved `action` from taking effect.
/// `recipient` is the account the caller presents as the one to be paid, and
/// `treasury_balance` is what the treasury holds.
pub open spec fn execution_error(
    dao: DaoStateView,
    action: ProposalType,
    recipient: Identity,
    treasury_balance: u64,
    now: i64,
) -> Option<DaoError> {
    match action {
        ProposalType::AddRecurringPayment { recipient: payee, amount, currency, interval } => if payee
            != recipient {
            Some(DaoError::InvalidRecipient)
        } else if !fits_i64(now + interval) {
            Some(DaoError::ArithmeticOverflow)
        } else {
            None
        },
        ProposalType::UpdateDao { action } => update_error(dao, action),
        ProposalType::WithdrawTreasury { amount, recipient: payee } => if treasury_balance
            < amount {
            Some(DaoError::InsufficientTreasuryBalance)
        } else if payee != recipient {
            Some(DaoError::InvalidRecipient)
        } else {
            None
        },
    }
}

/// The configuration after `action` has taken effect.
pub open spec fn dao_after(dao: DaoStateView, action: ProposalType) -> DaoStateView {
    match action {
        ProposalType::UpdateDao { action } => updated(dao, action),
        _ => dao,
    }
}

/// The recurring payment stored for the recipient after `action` has taken
/// effect at time `now`. Adding a payment overwrites what was stored, and
/// its first claim comes one interval after `now`.
pub open spec fn payment_after(
    stored: Option<RecurringPaymentAccount>,
    dao_key: Identity,
    action: ProposalType,
    now: i64,
) -> Option<RecurringPaymentAccount> {
    match action {
        ProposalType::AddRecurringPayment { recipient, amount, currency, interval } => Some(
            RecurringPaymentAccount {
                dao_state: dao_key,
                receiver: recipient,
                amount,
                currency,
                interval_day: interval,
                next_claimable_timestamp: (now + interval) as i64,
            },
        ),
        _ => stored,
    }
}

/// The transfer that belongs to `action`: a withdrawal pays its amount from
/// the treasury to its recipient, and no other action moves funds.
pub open spec fn transfer_of(dao: DaoStateView, action: ProposalType) -> Option<Transfer> {
    match action {
        ProposalType::WithdrawTreasury { amount, recipient } => Some(
            Transfer { from: dao.treasury, to: recipient, amount },
        ),
        _ => None,
    }
}

/// Carries out the effect of an approved action, all or nothing. On success
/// the configuration and the stored payment are what the action makes of
/// them, and the transfer to be made, if any, is returned. On failure both
/// are as they were and nothing is to be transferred.
pub fn execute_action(
    dao: &mut DaoState,
    payment: &mut Option<RecurringPaymentAccount>,
    action: &ProposalType,
    dao_key: Identity,
    recipient: Identity,
    treasury_balance: u64,
    now: i64,
) -> (r: Result<Option<Transfer>, DaoError>)
    ensures
        match execution_error(old(dao)@, *action, recipient, treasury_balance, now) {
            Some(e) => {
                &&& r == Err::<Option<Transfer>, DaoError>(e)
                &&& *final(dao) == *old(dao)
                &&& *final(payment) == *old(payment)
            },
            None => {
                &&& r == Ok::<Option<Transfer>, DaoError>(transfer_of(old(dao)@, *action))
                &&& final(dao)@ == dao_after(old(dao)@, *action)
                &&& *final(payment) == payment_after(*old(payment), dao_key, *action, now)
            },
        },
        old(dao)@.wf() ==> final(dao)@.wf(),
{
    match action {
        ProposalType::AddRecurringPayment { recipient: payee, amount, currency, interval } => {
            if *payee != recipient {
                return Err(DaoError::InvalidRecipient);
            }
            match now.checked_add(*interval) {
                None => Err(DaoError::ArithmeticOverflow),
                Some(first_claim) => {
                    *payment = Some(
                        RecurringPaymentAccount {
                            dao_state: dao_key,
                            receiver: *payee,
                            amount: *amount,
                            currency: *currency,
                            interval_day: *interval,
                            next_claimable_timestamp: first_claim,
                        },
                    );
                    Ok(None)
                },
            }
        },
        ProposalType::UpdateDao { action } => {
            match apply_dao_update(dao, action) {
                Err(e) => Err(e),
                Ok(()) => Ok(None),
            }
        },
        ProposalType::WithdrawTreasury { amount, recipient: payee } => {
            if treasury_balance < *amount {
                return Err(DaoError::InsufficientTreasuryBalance);
            }
            if *payee != recipient {
                return Err(DaoError::InvalidRecipient);
            }
            Ok(Some(Transfer { from: dao.treasury, to: *payee, amount: *amount }))
        },
    }
}

/// What the execution of a proposal hands back: the event to publish and
/// the transfer to make, if the action moves funds.
#[derive(Clone, Copy, Debug, PartialEq, Eq)]
pub struct Execution {
    pub event: ProposalExecuted,
    pub transfer: Option<Transfer>,
}

/// The outcome of executing the proposal stored under `proposal_key`, whose
/// number is `proposal_id`, against the configuration `dao`.
pub open spec fn execution_of(
    dao: DaoStateView,
    dao_key: Identity,
    proposal_key: Identity,
    proposal_id: u64,
    action: ProposalType,
) -> Execution {
    Execution {
        event: ProposalExecuted {
            dao_state: dao_key,
            proposal: proposal_key,
            proposal_id,
            proposal_type: action,
        },
        transfer: transfer_of(dao, action),
    }
}

} // verus!
