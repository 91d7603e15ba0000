//! The report that one suite run publishes.
use vstd::prelude::*;

verus! {

/// How one attempt of the test runner ended.
#[derive(Clone, Copy, Debug, PartialEq, Eq, Structural)]
pub enum AttemptOutcome {
    AllTestsPassed,
    TestFailures,
    TimedOut,
    OtherError,
}

/// One executed attempt, as the test runner reported it.
#[derive(Clone, Copy, Debug, PartialEq, Eq, Structural)]
pub struct AttemptReport {
    pub index: usize,
    pub outcome: AttemptOutcome,
    pub runtime_seconds: u64,
}

/// The merged ("rebot") summary of all attempts of a run.
#[derive(Clone, Debug, PartialEq, Eq)]
pub struct RebotSummary {
    pub passed: bool,
    pub merged_output: String,
}

/// The scheduling policy under which the attempts were made.
#[derive(Clone, Copy, Debug, PartialEq, Eq, Structural)]
pub struct AttemptsConfig {
    pub interval: u32,
    pub timeout: u64,
    pub n_attempts_max: usize,
}

/// What one suite run publishes to its results file.
#[derive(Clone, Debug, PartialEq, Eq)]
pub struct SuiteExecutionReport {
    pub suite_id: String,
    pub timestamp: String,
    pub attempts: Vec<AttemptReport>,
    pub rebot: RebotSummary,
    pub config: AttemptsConfig,
}

/// An attempt count that a report may hold: at least one attempt, and no
/// more than the policy allows.
pub open spec fn attempt_count_allowed(count: nat, n_attempts_max: nat) -> bool {
    1 <= count <= n_attempts_max
}

impl SuiteExecutionReport {
    /// The report's own invariant: its attempt count fits its policy.
    pub open spec fn wf(&self) -> bool {
        attempt_count_allowed(self.attempts@.len(), self.config.n_attempts_max as nat)
    }

    /// The number of attempts recorded.
    pub fn n_attempts(&self) -> (r: usize)
        ensures
            r == self.attempts@.len(),
    {
        self.attempts.len()
    }
}

} // verus!
