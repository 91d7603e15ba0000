//! Decision logic of a suite scheduler: the termination-aware wait for a
//! file lock, and the run of one suite from its output directory to its
//! published report. The outside work (files, locks, clocks, the test
//! runner) is performed by the caller, which feeds back what happened.
pub mod lock_wait;
pub mod report;
pub mod suite_run;
