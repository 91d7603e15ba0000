use robotmk_core::report::{AttemptOutcome, AttemptReport, RebotSummary, SuiteExecutionReport};
use robotmk_core::suite_run::{
    begin_suite, build_report, run_suite, start_suite, Suite, SuiteError, SuiteEvent, SuiteRun,
};

fn suite(id: &str, n_attempts_max: usize) -> Suite {
    Suite {
        id: id.to_string(),
        working_directory: "/var/lib/robotmk/suites".to_string(),
        timeout: 90,
        execution_interval_seconds: 300,
        n_attempts_max,
    }
}

fn attempt(index: usize, outcome: AttemptOutcome) -> AttemptReport {
    AttemptReport { index, outcome, runtime_seconds: 12 }
}

fn rebot(passed: bool) -> RebotSummary {
    RebotSummary { passed, merged_output: "<robot/>".to_string() }
}

fn running(suite: &Suite) -> SuiteRun {
    let run = start_suite(suite, "20240102T030405".to_string());
    run_suite(suite, run, SuiteEvent::DirectoryCreated)
}

fn pending_report(run: &SuiteRun) -> &SuiteExecutionReport {
    match run {
        SuiteRun::WritingReport { report } => report,
        other => panic!("no report pending: {:?}", other),
    }
}

#[test]
fn start_nests_timestamp_below_working_directory() {
    let s = suite("S1", 3);
    let run = start_suite(&s, "20240102T030405".to_string());
    assert_eq!(
        run,
        SuiteRun::CreatingDirectory {
            timestamp: "20240102T030405".to_string(),
            output_directory: "/var/lib/robotmk/suites/20240102T030405".to_string(),
        }
    );
}

#[test]
fn begin_stamps_run_with_sortable_timestamp() {
    let s = suite("S1", 3);
    match begin_suite(&s) {
        SuiteRun::CreatingDirectory { timestamp, output_directory } => {
            assert_eq!(timestamp.len(), 15);
            assert_eq!(&timestamp[8..9], "T");
            assert!(timestamp.chars().filter(|c| *c != 'T').all(|c| c.is_ascii_digit()));
            assert_eq!(output_directory, format!("/var/lib/robotmk/suites/{}", timestamp));
        }
        other => panic!("unexpected start: {:?}", other),
    }
}

#[test]
fn third_attempt_succeeds_and_report_is_written_once() {
    let s = suite("S1", 3);
    let mut run = running(&s);
    let mut writes = 0;
    run = run_suite(
        &s,
        run,
        SuiteEvent::AttemptsFinished {
            attempts: vec![
                attempt(1, AttemptOutcome::TestFailures),
                attempt(2, AttemptOutcome::TestFailures),
                attempt(3, AttemptOutcome::AllTestsPassed),
            ],
            rebot: rebot(true),
        },
    );
    let report = pending_report(&run);
    assert_eq!(report.suite_id, "S1");
    assert_eq!(report.timestamp, "20240102T030405");
    assert_eq!(report.n_attempts(), 3);
    assert_eq!(report.attempts[2].outcome, AttemptOutcome::AllTestsPassed);
    assert!(report.rebot.passed);
    assert_eq!(report.config.n_attempts_max, 3);
    assert_eq!(report.config.timeout, 90);
    assert_eq!(report.config.interval, 300);
    writes += 1;
    run = run_suite(&s, run, SuiteEvent::ReportWritten);
    assert_eq!(run, SuiteRun::Finished);
    assert!(run.over());
    assert_eq!(writes, 1);
}

#[test]
fn termination_before_attempts_ends_without_report() {
    let s = suite("S2", 2);
    let run = running(&s);
    let run = run_suite(&s, run, SuiteEvent::AttemptsTerminated);
    assert_eq!(run, SuiteRun::Failed { error: SuiteError::Terminated });
    let run = run_suite(&s, run, SuiteEvent::ReportWritten);
    assert_eq!(run, SuiteRun::Failed { error: SuiteError::Terminated });
}

#[test]
fn directory_failure_names_path() {
    let s = suite("S1", 3);
    let run = start_suite(&s, "20240102T030405".to_string());
    let run = run_suite(&s, run, SuiteEvent::DirectoryCreationFailed);
    assert_eq!(
        run,
        SuiteRun::Failed {
            error: SuiteError::OutputDirectory {
                path: "/var/lib/robotmk/suites/20240102T030405".to_string()
            }
        }
    );
}

#[test]
fn no_attempts_is_rejected() {
    let s = suite("S1", 3);
    let run = run_suite(&s, running(&s), SuiteEvent::AttemptsFinished { attempts: vec![], rebot: rebot(false) });
    assert_eq!(run, SuiteRun::Failed { error: SuiteError::AttemptCount { count: 0 } });
}

#[test]
fn too_many_attempts_are_rejected() {
    let s = suite("S1", 1);
    let attempts = vec![attempt(1, AttemptOutcome::TimedOut), attempt(2, AttemptOutcome::AllTestsPassed)];
    let run = run_suite(&s, running(&s), SuiteEvent::AttemptsFinished { attempts, rebot: rebot(true) });
    assert_eq!(run, SuiteRun::Failed { error: SuiteError::AttemptCount { count: 2 } });
}

#[test]
fn single_attempt_at_maximum_is_reported() {
    let s = suite("S3", 1);
    let attempts = vec![attempt(1, AttemptOutcome::OtherError)];
    let run = run_suite(&s, running(&s), SuiteEvent::AttemptsFinished { attempts, rebot: rebot(false) });
    let report = pending_report(&run);
    assert_eq!(report.n_attempts(), 1);
    assert!(!report.rebot.passed);
}

#[test]
fn write_failure_is_a_reporting_error() {
    let s = suite("S1", 3);
    let attempts = vec![attempt(1, AttemptOutcome::AllTestsPassed)];
    let run = run_suite(&s, running(&s), SuiteEvent::AttemptsFinished { attempts, rebot: rebot(true) });
    let run = run_suite(&s, run, SuiteEvent::ReportWriteFailed);
    assert_eq!(run, SuiteRun::Failed { error: SuiteError::Reporting });
}

#[test]
fn mismatched_event_keeps_state() {
    let s = suite("S1", 3);
    let run = start_suite(&s, "20240102T030405".to_string());
    let same = run_suite(&s, run.clone(), SuiteEvent::ReportWritten);
    assert_eq!(same, run);
    assert!(!same.over());
}

#[test]
fn build_report_copies_policy() {
    let s = suite("S4", 5);
    let report = build_report(&s, "20250101T000000".to_string(), vec![attempt(1, AttemptOutcome::AllTestsPassed)], rebot(true));
    assert_eq!(report.suite_id, "S4");
    assert_eq!(report.config.n_attempts_max, 5);
    assert_eq!(report.attempts.len(), 1);
}
