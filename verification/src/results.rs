//! The typed run-result a workload execution hands to the control plane on
//! success: an overall outcome and the counts the harness reported.

use vstd::prelude::*;

verus! {

/// Overall outcome of one workload run.
#[derive(Clone, Copy, Debug, PartialEq, Eq, Structural)]
pub enum TestOutcome {
    Pass,
    Fail,
    Timeout,
    Unknown,
}

/// The mathematical value of a run-result.
pub struct TestResultsView {
    pub outcome: TestOutcome,
    pub num_passed: u64,
    pub num_failed: u64,
    pub num_skipped: u64,
    pub other_info: Option<Seq<char>>,
}

/// Result of one workload run, as reported to the control plane.
#[derive(Debug)]
pub struct TestResults {
    pub outcome: TestOutcome,
    pub num_passed: u64,
    pub num_failed: u64,
    pub num_skipped: u64,
    pub other_info: Option<String>,
}

impl View for TestResults {
    type V = TestResultsView;

    open spec fn view(&self) -> TestResultsView {
        TestResultsView {
            outcome: self.outcome,
            num_passed: self.num_passed,
            num_failed: self.num_failed,
            num_skipped: self.num_skipped,
            other_info: crate::memo::text_view(self.other_info),
        }
    }
}

impl Clone for TestResults {
    fn clone(&self) -> (r: TestResults)
        ensures
            r@ == self@,
    {
        TestResults {
            outcome: self.outcome,
            num_passed: self.num_passed,
            num_failed: self.num_failed,
            num_skipped: self.num_skipped,
            other_info: match &self.other_info {
                Some(info) => Some(info.clone()),
                None => None,
            },
        }
    }
}

} // verus!
