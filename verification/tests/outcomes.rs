use portable_document_comparator::outcome::{
    classify, ComparisonOutcome, DifferencerStatus, FUZZ_TOLERANCE, HARD_FAILURE_CODE, MATCH_CODE,
};

#[test]
fn constants_have_their_values() {
    assert_eq!(HARD_FAILURE_CODE, 2);
    assert_eq!(MATCH_CODE, 0);
    assert_eq!(FUZZ_TOLERANCE, 1000);
}

#[test]
fn exit_code_zero_is_a_match() {
    assert_eq!(classify(DifferencerStatus::Exited(0)), ComparisonOutcome::Matched);
}

#[test]
fn exit_code_one_is_a_tolerated_difference() {
    assert_eq!(classify(DifferencerStatus::Exited(1)), ComparisonOutcome::ToleratedDifference);
}

#[test]
fn exit_code_two_is_a_hard_failure() {
    assert_eq!(
        classify(DifferencerStatus::Exited(2)),
        ComparisonOutcome::HardFailure { exit_signal: Some(2) }
    );
}

#[test]
fn other_exit_codes_are_tolerated() {
    for code in [3, 4, 127, 255, -1, i32::MAX, i32::MIN] {
        assert_eq!(
            classify(DifferencerStatus::Exited(code)),
            ComparisonOutcome::ToleratedDifference
        );
    }
}

#[test]
fn missing_status_is_a_hard_failure() {
    assert_eq!(
        classify(DifferencerStatus::NoStatus),
        ComparisonOutcome::HardFailure { exit_signal: None }
    );
}

#[test]
fn transport_error_is_a_hard_failure() {
    assert_eq!(
        classify(DifferencerStatus::TransportError),
        ComparisonOutcome::HardFailure { exit_signal: None }
    );
}

#[test]
fn only_hard_failures_are_hard() {
    assert!(ComparisonOutcome::HardFailure { exit_signal: Some(2) }.is_hard_failure());
    assert!(ComparisonOutcome::HardFailure { exit_signal: None }.is_hard_failure());
    assert!(!ComparisonOutcome::Matched.is_hard_failure());
    assert!(!ComparisonOutcome::ToleratedDifference.is_hard_failure());
}
