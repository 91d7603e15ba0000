//! One run of a suite, from its output directory to its published report.
//!
//! A run alternates outside work and decisions: create the output
//! directory, run the attempts, write the report under the results file's
//! exclusive lock. The decisions are the machine below. Each state that is
//! not finished names the next piece of outside work; the caller performs
//! it and hands the outcome to `run_suite`.
use vstd::prelude::*;
use crate::report::{
    attempt_count_allowed, AttemptReport, AttemptsConfig, RebotSummary, SuiteExecutionReport,
};

verus! {

/// What a run reads of its suite.
#[derive(Clone, Debug, PartialEq, Eq)]
pub struct Suite {
    pub id: String,
    /// Each run gets a fresh directory below this one.
    pub working_directory: String,
    /// Bound of one attempt, in seconds.
    pub timeout: u64,
    pub execution_interval_seconds: u32,
    pub n_attempts_max: usize,
}

/// Why a run ended without a published report.
#[derive(Clone, Debug, PartialEq, Eq)]
pub enum SuiteError {
    /// The output directory at `path` could not be created.
    OutputDirectory { path: String },
    /// The termination signal was observed while the attempts ran.
    Terminated,
    /// The test runner handed back a number of attempts that the policy
    /// does not allow.
    AttemptCount { count: usize },
    /// The attempts ran, but the report could not be written.
    Reporting,
}

/// Where a run stands.
#[derive(Clone, Debug, PartialEq, Eq)]
pub enum SuiteRun {
    /// Create `output_directory` and its missing parents.
    CreatingDirectory { timestamp: String, output_directory: String },
    /// Run the attempts into `output_directory`.
    RunningAttempts { timestamp: String, output_directory: String },
    /// Write `report` to the results file under its exclusive lock.
    WritingReport { report: SuiteExecutionReport },
    /// The report was written.
    Finished,
    /// The run ended without a written report.
    Failed { error: SuiteError },
}

/// The outcome of the outside work that a state named.
#[derive(Clone, Debug, PartialEq, Eq)]
pub enum SuiteEvent {
    DirectoryCreated,
    DirectoryCreationFailed,
    AttemptsFinished { attempts: Vec<AttemptReport>, rebot: RebotSummary },
    AttemptsTerminated,
    ReportWritten,
    ReportWriteFailed,
}

impl SuiteRun {
    pub open spec fn is_over(self) -> bool {
        self is Finished || self is Failed
    }

    /// Whether the run is over.
    pub fn over(&self) -> (r: bool)
        ensures
            r == self.is_over(),
    {
        match self {
            SuiteRun::Finished | SuiteRun::Failed { .. } => true,
            _ => false,
        }
    }
}

/// The path of `tail` nested below the directory `base`, as camino joins it.
pub uninterp spec fn joined_path(base: Seq<char>, tail: Seq<char>) -> Seq<char>;

/// Relies on camino's `Utf8Path::join`: the path `tail` adjoined to `base`.
#[verifier::external_body]
fn join_path(base: &String, tail: &String) -> (r: String)
    ensures
        r@ == joined_path(base@, tail@),
{
    camino::Utf8Path::new(base.as_str()).join(tail.as_str()).into_string()
}

/// The strftime format of a run's timestamp: digits only, most significant
/// first, so that timestamps sort as text.
pub open spec fn timestamp_format() -> Seq<char> {
    seq!['%', 'Y', '%', 'm', '%', 'd', 'T', '%', 'H', '%', 'M', '%', 'S']
}

/// Relies on chrono's `Utc::now` and `DateTime::format`: the current UTC time
/// written in `format`. Nothing is known of the time itself.
#[verifier::external_body]
fn utc_now_formatted(format: &str) -> (r: String)
    requires
        format@ == timestamp_format(),
{
    chrono::Utc::now().format(format).to_string()
}

/// The first state of a run stamped `timestamp`: its output directory is
/// the timestamp nested below the suite's working directory.
pub open spec fn started(suite: Suite, timestamp: String, run: SuiteRun) -> bool {
    match run {
        SuiteRun::CreatingDirectory { timestamp: t, output_directory: d } => {
            &&& t == timestamp
            &&& d@ == joined_path(suite.working_directory@, timestamp@)
        },
        _ => false,
    }
}

/// Starts a run stamped with the current time.
pub fn begin_suite(suite: &Suite) -> (r: SuiteRun)
    ensures
        exists|timestamp: String| started(*suite, timestamp, r),
{
    let format = "%Y%m%dT%H%M%S";
    proof {
        reveal_strlit("%Y%m%dT%H%M%S");
        assert(format@ =~= timestamp_format());
    }
    let timestamp = utc_now_formatted(format);
    start_suite(suite, timestamp)
}

/// Starts a run stamped `timestamp`.
pub fn start_suite(suite: &Suite, timestamp: String) -> (r: SuiteRun)
    ensures
        started(*suite, timestamp, r),
{
    let output_directory = join_path(&suite.working_directory, &timestamp);
    SuiteRun::CreatingDirectory { timestamp, output_directory }
}

/// The report of a run of `suite` stamped `timestamp`.
pub open spec fn report_of(
    suite: Suite,
    timestamp: String,
    attempts: Vec<AttemptReport>,
    rebot: RebotSummary,
) -> SuiteExecutionReport {
    SuiteExecutionReport {
        suite_id: suite.id,
        timestamp,
        attempts,
        rebot,
        config: AttemptsConfig {
            interval: suite.execution_interval_seconds,
            timeout: suite.timeout,
            n_attempts_max: suite.n_attempts_max,
        },
    }
}

/// Assembles the report of a run of `suite` stamped `timestamp`.
pub fn build_report(
    suite: &Suite,
    timestamp: String,
    attempts: Vec<AttemptReport>,
    rebot: RebotSummary,
) -> (r: SuiteExecutionReport)
    ensures
        r == report_of(*suite, timestamp, attempts, rebot),
{
    SuiteExecutionReport {
        suite_id: suite.id.clone(),
        timestamp,
        attempts,
        rebot,
        config: AttemptsConfig {
            interval: suite.execution_interval_seconds,
            timeout: suite.timeout,
            n_attempts_max: suite.n_attempts_max,
        },
    }
}

/// One step of a run of `suite`. An event that does not answer the state's
/// work leaves the state as it is; a run that is over stays over.
pub open spec fn next_run(suite: Suite, run: SuiteRun, event: SuiteEvent) -> SuiteRun {
    match run {
        SuiteRun::CreatingDirectory { timestamp, output_directory } => match event {
            SuiteEvent::DirectoryCreated => SuiteRun::RunningAttempts {
                timestamp,
                output_directory,
            },
            SuiteEvent::DirectoryCreationFailed => SuiteRun::Failed {
                error: SuiteError::OutputDirectory { path: output_directory },
            },
            _ => run,
        },
        SuiteRun::RunningAttempts { timestamp, output_directory } => match event {
            SuiteEvent::AttemptsFinished { attempts, rebot } => if attempt_count_allowed(
                attempts@.len(),
                suite.n_attempts_max as nat,
            ) {
                SuiteRun::WritingReport { report: report_of(suite, timestamp, attempts, rebot) }
            } else {
                SuiteRun::Failed {
                    error: SuiteError::AttemptCount { count: attempts@.len() as usize },
                }
            },
            SuiteEvent::AttemptsTerminated => SuiteRun::Failed { error: SuiteError::Terminated },
            _ => run,
        },
        SuiteRun::WritingReport { report } => match event {
            SuiteEvent::ReportWritten => SuiteRun::Finished,
            SuiteEvent::ReportWriteFailed => SuiteRun::Failed { error: SuiteError::Reporting },
            _ => run,
        },
        _ => run,
    }
}

/// Advances a run of `suite` by the outcome of the work its state named.
pub fn run_suite(suite: &Suite, run: SuiteRun, event: SuiteEvent) -> (r: SuiteRun)
    ensures
        r == next_run(*suite, run, event),
{
    match run {
        SuiteRun::CreatingDirectory { timestamp, output_directory } => match event {
            SuiteEvent::DirectoryCreated => SuiteRun::RunningAttempts {
                timestamp,
                output_directory,
            },
            SuiteEvent::DirectoryCreationFailed => SuiteRun::Failed {
                error: SuiteError::OutputDirectory { path: output_directory },
            },
            _ => SuiteRun::CreatingDirectory { timestamp, output_directory },
        },
        SuiteRun::RunningAttempts { timestamp, output_directory } => match event {
            SuiteEvent::AttemptsFinished { attempts, rebot } => {
                let count = attempts.len();
                if 1 <= count && count <= suite.n_attempts_max {
                    SuiteRun::WritingReport { report: build_report(suite, timestamp, attempts, rebot) }
                } else {
                    SuiteRun::Failed { error: SuiteError::AttemptCount { count } }
                }
            },
            SuiteEvent::AttemptsTerminated => SuiteRun::Failed { error: SuiteError::Terminated },
            _ => SuiteRun::RunningAttempts { timestamp, output_directory },
        },
        SuiteRun::WritingReport { report } => match event {
            SuiteEvent::ReportWritten => SuiteRun::Finished,
            SuiteEvent::ReportWriteFailed => SuiteRun::Failed { error: SuiteError::Reporting },
            _ => SuiteRun::WritingReport { report },
        },
        _ => run,
    }
}

/// Whether `event` reports on a write of the results file.
pub open spec fn reports_write(event: SuiteEvent) -> bool {
    event is ReportWritten || event is ReportWriteFailed
}

/// The state reached by feeding `events` in order to a run in state `run`.
pub open spec fn run_through(suite: Suite, run: SuiteRun, events: Seq<SuiteEvent>) -> SuiteRun
    decreases events.len(),
{
    if events.len() == 0 {
        run
    } else {
        run_through(suite, next_run(suite, run, events[0]), events.drop_first())
    }
}

/// The number of writes of the results file on the way: the steps in which a
/// report waited to be written and the caller reported on writing it.
pub open spec fn writes_through(suite: Suite, run: SuiteRun, events: Seq<SuiteEvent>) -> nat
    decreases events.len(),
{
    if events.len() == 0 {
        0
    } else {
        (if run is WritingReport && reports_write(events[0]) {
            1nat
        } else {
            0nat
        }) + writes_through(suite, next_run(suite, run, events[0]), events.drop_first())
    }
}

/// A state whose pending report, if any, follows the suite's policy.
pub open spec fn report_fits(suite: Suite, run: SuiteRun) -> bool {
    run is WritingReport ==> {
        &&& run->report.wf()
        &&& run->report.config.n_attempts_max == suite.n_attempts_max
        &&& run->report.suite_id == suite.id
    }
}

/// Whether every report written on the way follows the suite's policy.
pub open spec fn written_reports_fit(
    suite: Suite,
    run: SuiteRun,
    events: Seq<SuiteEvent>,
) -> bool
    decreases events.len(),
{
    if events.len() == 0 {
        true
    } else {
        &&& (run is WritingReport && reports_write(events[0])) ==> report_fits(suite, run)
        &&& written_reports_fit(suite, next_run(suite, run, events[0]), events.drop_first())
    }
}

proof fn lemma_run_through(suite: Suite, run: SuiteRun, events: Seq<SuiteEvent>)
    requires
        report_fits(suite, run),
    ensures
        written_reports_fit(suite, run, events),
        run is Finished ==> run_through(suite, run, events) == run && writes_through(
            suite,
            run,
            events,
        ) == 0,
        run is Failed ==> run_through(suite, run, events) == run && writes_through(
            suite,
            run,
            events,
        ) == 0,
        !run.is_over() ==> writes_through(suite, run, events) <= 1,
        !run.is_over() && run_through(suite, run, events) is Finished ==> writes_through(
            suite,
            run,
            events,
        ) == 1,
    decreases events.len(),
{
    if events.len() > 0 {
        let next = next_run(suite, run, events[0]);
        lemma_run_through(suite, next, events.drop_first());
    }
}

/// Whatever the outside work reports, a run writes its results file at most
/// once; a run that finishes wrote it exactly once; and every report written
/// holds between one and the suite's maximum number of attempts.
pub proof fn lemma_successful_run_writes_once(
    suite: Suite,
    timestamp: String,
    run: SuiteRun,
    events: Seq<SuiteEvent>,
)
    requires
        started(suite, timestamp, run),
    ensures
        writes_through(suite, run, events) <= 1,
        run_through(suite, run, events) is Finished ==> writes_through(suite, run, events) == 1,
        written_reports_fit(suite, run, events),
{
    lemma_run_through(suite, run, events);
}

/// A run whose attempts were cut short by the termination signal ends with
/// the termination error and writes no report, whatever is reported after.
pub proof fn lemma_terminated_run_writes_nothing(
    suite: Suite,
    run: SuiteRun,
    events: Seq<SuiteEvent>,
)
    requires
        run is RunningAttempts,
        events.len() > 0,
        events[0] is AttemptsTerminated,
    ensures
        run_through(suite, run, events) == (SuiteRun::Failed { error: SuiteError::Terminated }),
        writes_through(suite, run, events) == 0,
{
    let next = next_run(suite, run, events[0]);
    lemma_run_through(suite, next, events.drop_first());
}

} // verus!
