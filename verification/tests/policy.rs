use dao::{
    compute_pass_threshold, is_majority_reached, is_multisig_satisfied, is_vote_satisfied,
};

#[test]
fn multisig_is_satisfied_at_the_threshold() {
    assert!(!is_multisig_satisfied(2, 3));
    assert!(is_multisig_satisfied(3, 3));
    assert!(is_multisig_satisfied(4, 3));
    assert!(is_multisig_satisfied(0, 0));
}

#[test]
fn pass_threshold_rounds_down() {
    assert_eq!(compute_pass_threshold(100, 50, 60), 90);
    assert_eq!(compute_pass_threshold(50, 60, 60), 66);
    assert_eq!(compute_pass_threshold(1, 0, 50), 0);
    assert_eq!(compute_pass_threshold(1, 2, 50), 1);
    assert_eq!(compute_pass_threshold(0, 0, 100), 0);
    assert_eq!(compute_pass_threshold(7, 0, 0), 0);
}

#[test]
fn pass_threshold_of_the_largest_tallies_does_not_overflow() {
    let all = u64::MAX as u128 * 2;
    assert_eq!(compute_pass_threshold(u64::MAX, u64::MAX, 255), all * 255 / 100);
    assert_eq!(compute_pass_threshold(u64::MAX, u64::MAX, 50), u64::MAX as u128);
}

#[test]
fn majority_must_exceed_the_threshold() {
    assert!(is_majority_reached(100, 50, 60));
    assert!(!is_majority_reached(50, 60, 60));
    // 90 of 150 at 60 percent is exactly the threshold: a tie fails.
    assert!(!is_majority_reached(90, 60, 60));
    assert!(is_majority_reached(91, 59, 60));
    assert!(!is_majority_reached(0, 0, 0));
    assert!(is_majority_reached(1, 0, 0));
}

#[test]
fn a_full_percentage_never_passes() {
    assert!(!is_majority_reached(10, 0, 100));
    assert!(!is_majority_reached(u64::MAX, 0, 100));
    assert!(!is_majority_reached(10, 0, 255));
    assert!(is_majority_reached(10, 0, 99));
}

#[test]
fn vote_needs_quorum_by_head_and_majority_by_weight() {
    assert!(is_vote_satisfied(100, 50, 2, 2, 60));
    assert!(!is_vote_satisfied(100, 50, 1, 2, 60));
    assert!(!is_vote_satisfied(50, 60, 2, 2, 60));
    assert!(is_vote_satisfied(1, 0, 0, 0, 0));
}
