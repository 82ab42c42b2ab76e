use vstd::prelude::*;
use crate::config::{Config, DEVELOPER_FEE};
use crate::custody::Transfer;
use crate::error::DaoError;
use crate::event::PaymentClaimed;
use crate::executor::fits_i64;
use crate::identity::Identity;
use crate::state::{DaoState, RecurringPaymentAccount};

verus! {

/// Everything one claim of a recurring payment works on.
#[derive(Clone, Debug, PartialEq, Eq)]
pub struct ClaimPayment {
    /// Where the DAO's configuration is stored.
    pub dao_state_key: Identity,
    pub dao_state: DaoState,
    /// What the treasury holds.
    pub treasury_balance: u64,
    /// Where the recurring payment is stored.
    pub recurring_payment_key: Identity,
    /// The recurring payment stored for the claimant, if there is one.
    pub recurring_payment: Option<RecurringPaymentAccount>,
    /// Who claims.
    pub recipient: Identity,
    /// The settings that name the developer wallet.
    pub config: Config,
}

/// What a claim hands back: the two transfers that make it up, in the
/// order they are to be made, and the event to publish.
#[derive(Clone, Copy, Debug, PartialEq, Eq)]
pub struct Claim {
    /// The fee, paid by the claimant to the developer wallet.
    pub fee: Transfer,
    /// The payment, paid by the treasury to the claimant.
    pub payment: Transfer,
    pub event: PaymentClaimed,
}

impl ClaimPayment {
    /// The error, if any, with which the claim is refused at time `now`.
    pub open spec fn error(self, now: i64) -> Option<DaoError> {
        match self.recurring_payment {
            None => Some(DaoError::NoClaimablePayment),
            Some(payment) => if payment.receiver != self.recipient {
                Some(DaoError::NoClaimablePayment)
            } else if payment.dao_state != self.dao_state_key {
                Some(DaoError::AccountMismatch)
            } else if now < payment.next_claimable_timestamp {
                Some(DaoError::ClaimTooEarly)
            } else if self.treasury_balance < payment.amount {
                Some(DaoError::InsufficientTreasuryBalance)
            } else if !fits_i64(payment.next_claimable_timestamp + payment.interval_day) {
                Some(DaoError::ArithmeticOverflow)
            } else {
                None
            },
        }
    }

    /// What a successful claim hands back.
    pub open spec fn claim(self) -> Claim {
        let payment = self.recurring_payment->0;
        Claim {
            fee: Transfer {
                from: self.recipient,
                to: self.config.developer_wallet,
                amount: DEVELOPER_FEE,
            },
            payment: Transfer {
                from: self.dao_state.treasury,
                to: self.recipient,
                amount: payment.amount,
            },
            event: PaymentClaimed {
                dao_state: self.dao_state_key,
                payment_account: self.recurring_payment_key,
                recipient: self.recipient,
                claimed_amount: payment.amount,
                next_claimable_timestamp: (payment.next_claimable_timestamp
                    + payment.interval_day) as i64,
            },
        }
    }
}

/// The payment after one claim: its next claim time has moved on by exactly
/// one interval, whatever the time of the claim was.
pub open spec fn advanced(payment: RecurringPaymentAccount) -> RecurringPaymentAccount {
    RecurringPaymentAccount {
        next_claimable_timestamp: (payment.next_claimable_timestamp + payment.interval_day) as i64,
        ..payment
    }
}

/// The next claim time of a stored payment.
pub open spec fn next_claim(stored: Option<RecurringPaymentAccount>) -> i64 {
    stored->0.next_claimable_timestamp
}

/// Claims one instalment of a recurring payment.
///
/// The claim is refused when no payment is stored for the claimant, when
/// the payment belongs to another DAO, when `now` is before the payment's
/// next claim time, when the treasury holds less than the amount, and when
/// the next claim time would overflow. A refused claim changes nothing.
///
/// A claim that is accepted orders the fee and the payment and moves the
/// next claim time on by one interval. The schedule keeps its cadence: the
/// time of the claim does not enter the new claim time.
pub fn claim_payment(ctx: &mut ClaimPayment, now: i64) -> (r: Result<Claim, DaoError>)
    ensures
        match old(ctx).error(now) {
            Some(e) => r == Err::<Claim, DaoError>(e) && *final(ctx) == *old(ctx),
            None => {
                &&& r == Ok::<Claim, DaoError>(old(ctx).claim())
                &&& final(ctx).recurring_payment == Some(advanced(old(ctx).recurring_payment->0))
                &&& final(ctx).dao_state_key == old(ctx).dao_state_key
                &&& final(ctx).dao_state == old(ctx).dao_state
                &&& final(ctx).treasury_balance == old(ctx).treasury_balance
                &&& final(ctx).recurring_payment_key == old(ctx).recurring_payment_key
                &&& final(ctx).recipient == old(ctx).recipient
                &&& final(ctx).config == old(ctx).config
            },
        },
        r is Ok ==> next_claim(final(ctx).recurring_payment) == next_claim(
            old(ctx).recurring_payment,
        ) + old(ctx).recurring_payment->0.interval_day,
        old(ctx).recurring_payment is Some && old(ctx).recurring_payment->0.interval_day >= 0
            ==> next_claim(final(ctx).recurring_payment) >= next_claim(old(ctx).recurring_payment),
{
    let payment = match ctx.recurring_payment {
        None => {
            return Err(DaoError::NoClaimablePayment);
        },
        Some(payment) => payment,
    };
    if payment.receiver != ctx.recipient {
        return Err(DaoError::NoClaimablePayment);
    }
    if payment.dao_state != ctx.dao_state_key {
        return Err(DaoError::AccountMismatch);
    }
    if now < payment.next_claimable_timestamp {
        return Err(DaoError::ClaimTooEarly);
    }
    if ctx.treasury_balance < payment.amount {
        return Err(DaoError::InsufficientTreasuryBalance);
    }
    let next = match payment.next_claimable_timestamp.checked_add(payment.interval_day) {
        None => {
            return Err(DaoError::ArithmeticOverflow);
        },
        Some(next) => next,
    };
    ctx.recurring_payment = Some(
        RecurringPaymentAccount {
            dao_state: payment.dao_state,
            receiver: payment.receiver,
            amount: payment.amount,
            currency: payment.currency,
            interval_day: payment.interval_day,
            next_claimable_timestamp: next,
        },
    );
    Ok(
        Claim {
            fee: Transfer {
                from: ctx.recipient,
                to: ctx.config.developer_wallet,
                amount: DEVELOPER_FEE,
            },
            payment: Transfer {
                from: ctx.dao_state.treasury,
                to: ctx.recipient,
                amount: payment.amount,
            },
            event: PaymentClaimed {
                dao_state: ctx.dao_state_key,
                payment_account: ctx.recurring_payment_key,
                recipient: ctx.recipient,
                claimed_amount: payment.amount,
                next_claimable_timestamp: next,
            },
        },
    )
}

} // verus!
