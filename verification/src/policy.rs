use vstd::prelude::*;

verus! {

/// The multisig strategy: a proposal may execute once at least `threshold`
/// signers have approved it.
pub open spec fn multisig_satisfied(approvals: nat, threshold: nat) -> bool {
    approvals >= threshold
}

/// The weight that the yes votes must exceed: `percentage` hundredths of
/// all weight cast, rounded down.
pub open spec fn pass_threshold(yes: nat, no: nat, percentage: nat) -> nat {
    ((yes + no) * percentage) / 100
}

/// Whether the yes votes carry the proposal: strictly more than the pass
/// threshold, so a tie at the boundary fails.
pub open spec fn majority_reached(yes: nat, no: nat, percentage: nat) -> bool {
    yes > pass_threshold(yes, no, percentage)
}

/// The stake-vote strategy: enough participants have voted, counted by
/// head, and the yes votes carry the proposal, counted by weight.
pub open spec fn vote_satisfied(
    yes: nat,
    no: nat,
    voter_count: nat,
    quorum: nat,
    percentage: nat,
) -> bool {
    voter_count >= quorum && majority_reached(yes, no, percentage)
}

/// Evaluates the multisig strategy.
pub fn is_multisig_satisfied(approvals: usize, threshold: u8) -> (r: bool)
    ensures
        r == multisig_satisfied(approvals as nat, threshold as nat),
{
    approvals >= threshold as usize
}

/// Computes the pass threshold. The product is formed in 128 bits, so no
/// tally is too large for it.
pub fn compute_pass_threshold(yes: u64, no: u64, percentage: u8) -> (r: u128)
    ensures
        r == pass_threshold(yes as nat, no as nat, percentage as nat),
{
    let total: u128 = yes as u128 + no as u128;
    let pct: u128 = percentage as u128;
    assert(total * pct <= 0x1_ffff_ffff_ffff_fffe * 255) by (nonlinear_arith)
        requires
            total <= 0x1_ffff_ffff_ffff_fffe,
            pct <= 255,
    ;
    (total * pct) / 100
}

/// Evaluates whether the yes votes carry the proposal.
pub fn is_majority_reached(yes: u64, no: u64, percentage: u8) -> (r: bool)
    ensures
        r == majority_reached(yes as nat, no as nat, percentage as nat),
{
    yes as u128 > compute_pass_threshold(yes, no, percentage)
}

/// Evaluates the stake-vote strategy.
pub fn is_vote_satisfied(yes: u64, no: u64, voter_count: u32, quorum: u32, percentage: u8) -> (r:
    bool)
    ensures
        r == vote_satisfied(
            yes as nat,
            no as nat,
            voter_count as nat,
            quorum as nat,
            percentage as nat,
        ),
{
    voter_count >= quorum && is_majority_reached(yes, no, percentage)
}

/// With a pass percentage of 100, the largest a DAO can have, no tally
/// carries a proposal; nor would one with a percentage beyond it.
pub proof fn full_percentage_never_passes(yes: nat, no: nat, percentage: nat)
    requires
        percentage >= 100,
    ensures
        !majority_reached(yes, no, percentage),
{
    assert((yes + no) * percentage >= yes * 100) by (nonlinear_arith)
        requires
            percentage >= 100,
    ;
}

/// Without a vote against, any yes weight carries a proposal whose pass
/// percentage is below 100.
pub proof fn unopposed_yes_passes(yes: nat, percentage: nat)
    requires
        yes > 0,
        percentage < 100,
    ensures
        majority_reached(yes, 0, percentage),
{
    assert(yes * percentage < yes * 100) by (nonlinear_arith)
        requires
            yes > 0,
            percentage < 100,
    ;
}

} // verus!
