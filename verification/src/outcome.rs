//! Classification of what the differencer reports for one page pair.

use vstd::prelude::*;

verus! {

/// The exit code by which the differencer reports that the two images differ
/// beyond the tolerance, or that the comparison itself went wrong.
pub const HARD_FAILURE_CODE: i32 = 2;

/// The exit code by which the differencer reports that the two images are
/// alike.
pub const MATCH_CODE: i32 = 0;

/// The leniency handed to the differencer with every pair.
pub const FUZZ_TOLERANCE: u32 = 1000;

/// What came back from one invocation of the differencer.
#[derive(Clone, Copy, Debug, PartialEq, Eq, Structural)]
pub enum DifferencerStatus {
    /// The differencer ran and left this exit code.
    Exited(i32),
    /// The differencer ran and left no exit code that could be read.
    NoStatus,
    /// The differencer could not be run at all.
    TransportError,
}

/// The result of comparing one page pair.
#[derive(Clone, Copy, Debug, PartialEq, Eq, Structural)]
pub enum ComparisonOutcome {
    /// The two pages are alike.
    Matched,
    /// The two pages differ, within what is tolerated.
    ToleratedDifference,
    /// The pages differ beyond tolerance or the comparison failed; the exit
    /// code is kept where there was one.
    HardFailure { exit_signal: Option<i32> },
}

impl ComparisonOutcome {
    /// Whether the outcome ends the whole run.
    pub open spec fn is_hard(self) -> bool {
        self is HardFailure
    }

    /// Whether the outcome ends the whole run.
    pub fn is_hard_failure(&self) -> (hard: bool)
        ensures
            hard == self.is_hard(),
    {
        match self {
            ComparisonOutcome::HardFailure { .. } => true,
            _ => false,
        }
    }
}

/// The outcome that a differencer status stands for. The hard-failure code, a
/// missing status and a differencer that did not run are hard failures; the
/// match code is a match; every other code is a tolerated difference.
pub open spec fn outcome_of(status: DifferencerStatus) -> ComparisonOutcome {
    match status {
        DifferencerStatus::Exited(code) => if code == HARD_FAILURE_CODE {
            ComparisonOutcome::HardFailure { exit_signal: Some(code) }
        } else if code == MATCH_CODE {
            ComparisonOutcome::Matched
        } else {
            ComparisonOutcome::ToleratedDifference
        },
        DifferencerStatus::NoStatus => ComparisonOutcome::HardFailure { exit_signal: None },
        DifferencerStatus::TransportError => ComparisonOutcome::HardFailure { exit_signal: None },
    }
}

/// Classifies what the differencer reported for one pair.
pub fn classify(status: DifferencerStatus) -> (outcome: ComparisonOutcome)
    ensures
        outcome == outcome_of(status),
{
    match status {
        DifferencerStatus::Exited(code) => {
            if code == HARD_FAILURE_CODE {
                ComparisonOutcome::HardFailure { exit_signal: Some(code) }
            } else if code == MATCH_CODE {
                ComparisonOutcome::Matched
            } else {
                ComparisonOutcome::ToleratedDifference
            }
        },
        DifferencerStatus::NoStatus => ComparisonOutcome::HardFailure { exit_signal: None },
        DifferencerStatus::TransportError => ComparisonOutcome::HardFailure { exit_signal: None },
    }
}

/// A status ends the run exactly if it is the hard-failure code, no status at
/// all, or a differencer that did not run.
pub proof fn lemma_hard_failure_statuses(status: DifferencerStatus)
    ensures
        outcome_of(status).is_hard() <==> (status == DifferencerStatus::Exited(HARD_FAILURE_CODE)
            || status == DifferencerStatus::NoStatus || status
            == DifferencerStatus::TransportError),
{
}

} // verus!
