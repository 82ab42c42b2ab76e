use vstd::prelude::*;

verus! {

/// Every way an operation of the library can be refused. An operation that
/// returns one of these has left every record it was given unchanged.
#[derive(Clone, Copy, Debug, PartialEq, Eq, Hash, Structural)]
pub enum DaoError {
    /// A recurring payment for this recipient already exists. No operation
    /// returns this: a payment for a known recipient is re-armed.
    RecurringPaymentExists,
    /// No recurring payment is stored for the claimant.
    NoClaimablePayment,
    /// The payment's next claim time has not come yet.
    ClaimTooEarly,
    /// The approval threshold is zero or above the number of signers.
    InvalidThreshold,
    /// The vote duration is not positive.
    InvalidVoteDuration,
    /// The amount of a withdrawal or a recurring payment is zero.
    InvalidPaymentAmount,
    /// The interval of a recurring payment is not positive.
    InvalidPaymentInterval,
    /// The currency of a recurring payment is not supported. No operation
    /// returns this: the one currency there is is supported.
    InvalidCurrency,
    /// The recipient is the treasury itself, or is not the one the action names.
    InvalidRecipient,
    /// The treasury holds less than the amount to be paid.
    InsufficientTreasuryBalance,
    /// A sum or difference does not fit its integer type.
    ArithmeticOverflow,
    /// The caller is not a signer (or not the administrator).
    UnauthorizedSigner,
    /// The proposal has been executed already.
    ProposalAlreadyExecuted,
    /// The signer has approved this proposal before.
    AlreadyApproved,
    /// The signer to add is in the signer set already.
    SignerAlreadyExists,
    /// The signer to remove is not in the signer set.
    SignerNotFound,
    /// Removing the signer would leave fewer signers than the threshold.
    CannotRemoveSigner,
    /// The new threshold is zero or above the number of signers.
    InvalidNewThreshold,
    /// The amount to stake is zero.
    InvalidStakeAmount,
    /// The participant has nothing staked.
    NoTokensStaked,
    /// The participant has no stake record in this DAO.
    NotStaked,
    /// The proposal is executed or its voting deadline has passed.
    ProposalNotActive,
    /// The voting deadline has not passed yet.
    VotePeriodNotOver,
    /// The voter has voted on this proposal before.
    AlreadyVoted,
    /// Fewer voters took part than the quorum asks for.
    QuorumNotReached,
    /// The yes votes do not exceed the pass threshold.
    VoteFailedMajority,
    /// The participant's stake is below the minimum to take part.
    InsufficientStake,
    /// The signer set is full.
    SignerLimitReached,
    /// A record handed in belongs to another DAO or another participant.
    AccountMismatch,
    /// The pass percentage is above 100.
    InvalidPassPercentage,
}

} // verus!
