//! How a lock holder waits for a contended file lock.
//!
//! A blocking lock call of the OS cannot be interrupted from inside the
//! process. Where a termination flag must be honoured, the wait is a poll
//! loop instead: read the flag, try the lock without blocking, and sleep a
//! short interval when the lock is held elsewhere. The loop is described
//! here as a machine over `PollPhase`; the caller performs the work that
//! each phase names and feeds the result back through `poll_step`.
use vstd::prelude::*;

verus! {

/// How an acquisition waits for the lock.
#[derive(Clone, Copy, Debug, PartialEq, Eq, Structural)]
pub enum WaitStrategy {
    /// One blocking call of the OS: waits as long as the lock is contended.
    Blocking,
    /// Non-blocking tries, with the termination flag read before each one.
    Polling,
}

/// A lock holder that carries a termination flag polls; one without blocks.
pub open spec fn strategy_for(has_termination_flag: bool) -> WaitStrategy {
    if has_termination_flag {
        WaitStrategy::Polling
    } else {
        WaitStrategy::Blocking
    }
}

/// Picks the way of waiting for a lock holder with or without a termination flag.
pub fn wait_strategy(has_termination_flag: bool) -> (r: WaitStrategy)
    ensures
        r == strategy_for(has_termination_flag),
        !has_termination_flag ==> r == WaitStrategy::Blocking,
{
    if has_termination_flag {
        WaitStrategy::Polling
    } else {
        WaitStrategy::Blocking
    }
}

/// What one non-blocking try on the lock file reported.
#[derive(Clone, Copy, Debug, PartialEq, Eq, Structural)]
pub enum TryOutcome {
    /// The lock was taken.
    Locked,
    /// The lock is held elsewhere in an incompatible mode ("would block").
    Contended,
    /// Any other error of the OS.
    Failed,
}

/// Where a polling acquisition stands. Each phase that is not finished names
/// the next piece of outside work.
#[derive(Clone, Copy, Debug, PartialEq, Eq, Structural)]
pub enum PollPhase {
    /// Read the termination flag.
    CheckFlag,
    /// Try the lock without blocking.
    TryLock,
    /// Sleep one poll interval.
    Sleep,
    /// The lock is held.
    Acquired,
    /// The termination flag was seen raised: the wait was abandoned.
    Terminated,
    /// The OS reported an error other than contention: the wait failed.
    Failed,
}

/// What the caller reports after performing the work of a phase.
#[derive(Clone, Copy, Debug, PartialEq, Eq, Structural)]
pub enum PollEvent {
    FlagRead { raised: bool },
    Tried { outcome: TryOutcome },
    Slept,
}

impl PollPhase {
    pub open spec fn is_finished(self) -> bool {
        self is Acquired || self is Terminated || self is Failed
    }

    /// A poll loop starts by reading the termination flag.
    pub fn start() -> (r: PollPhase)
        ensures
            r == PollPhase::CheckFlag,
    {
        PollPhase::CheckFlag
    }

    /// Whether the loop is over.
    pub fn finished(&self) -> (r: bool)
        ensures
            r == self.is_finished(),
    {
        match self {
            PollPhase::Acquired | PollPhase::Terminated | PollPhase::Failed => true,
            _ => false,
        }
    }
}

/// One step of the poll loop. An event that does not answer the phase's
/// work leaves the phase as it is.
pub open spec fn poll_next(phase: PollPhase, event: PollEvent) -> PollPhase {
    match phase {
        PollPhase::CheckFlag => match event {
            PollEvent::FlagRead { raised } => if raised {
                PollPhase::Terminated
            } else {
                PollPhase::TryLock
            },
            _ => phase,
        },
        PollPhase::TryLock => match event {
            PollEvent::Tried { outcome } => match outcome {
                TryOutcome::Locked => PollPhase::Acquired,
                TryOutcome::Contended => PollPhase::Sleep,
                TryOutcome::Failed => PollPhase::Failed,
            },
            _ => phase,
        },
        PollPhase::Sleep => match event {
            PollEvent::Slept => PollPhase::CheckFlag,
            _ => phase,
        },
        _ => phase,
    }
}

/// Advances the poll loop by the result of the work its phase named.
pub fn poll_step(phase: PollPhase, event: PollEvent) -> (r: PollPhase)
    ensures
        r == poll_next(phase, event),
{
    match phase {
        PollPhase::CheckFlag => match event {
            PollEvent::FlagRead { raised } => if raised {
                PollPhase::Terminated
            } else {
                PollPhase::TryLock
            },
            _ => phase,
        },
        PollPhase::TryLock => match event {
            PollEvent::Tried { outcome } => match outcome {
                TryOutcome::Locked => PollPhase::Acquired,
                TryOutcome::Contended => PollPhase::Sleep,
                TryOutcome::Failed => PollPhase::Failed,
            },
            _ => phase,
        },
        PollPhase::Sleep => match event {
            PollEvent::Slept => PollPhase::CheckFlag,
            _ => phase,
        },
        _ => phase,
    }
}

/// What the outside world reports to each phase once the termination flag is
/// raised and the lock stays held elsewhere.
pub open spec fn event_once_raised(phase: PollPhase) -> PollEvent {
    match phase {
        PollPhase::CheckFlag => PollEvent::FlagRead { raised: true },
        PollPhase::TryLock => PollEvent::Tried { outcome: TryOutcome::Contended },
        _ => PollEvent::Slept,
    }
}

/// The phase reached after `n` steps once the flag is raised on a contended lock.
pub open spec fn run_once_raised(phase: PollPhase, n: nat) -> PollPhase
    decreases n,
{
    if n == 0 {
        phase
    } else {
        run_once_raised(poll_next(phase, event_once_raised(phase)), (n - 1) as nat)
    }
}

/// The number of sleeps taken in those `n` steps.
pub open spec fn sleeps_once_raised(phase: PollPhase, n: nat) -> nat
    decreases n,
{
    if n == 0 {
        0
    } else {
        (if phase is Sleep { 1nat } else { 0nat }) + sleeps_once_raised(
            poll_next(phase, event_once_raised(phase)),
            (n - 1) as nat,
        )
    }
}

/// Once the termination flag is raised, a poll loop waiting on a contended
/// lock ends as terminated, not as failed, within three steps of which at
/// most one is a sleep, and it stays terminated.
pub proof fn lemma_raised_flag_ends_wait(phase: PollPhase, event: PollEvent)
    requires
        !phase.is_finished(),
    ensures
        run_once_raised(phase, 3) == PollPhase::Terminated,
        sleeps_once_raised(phase, 3) <= 1,
        poll_next(PollPhase::Terminated, event) == PollPhase::Terminated,
{
    reveal_with_fuel(run_once_raised, 4);
    reveal_with_fuel(sleeps_once_raised, 4);
}

/// The loop fails with an OS error only where a try reported one: never
/// because of the termination flag, a contended lock or a sleep.
pub proof fn lemma_failure_only_from_os_error(phase: PollPhase, event: PollEvent)
    requires
        !phase.is_finished(),
        poll_next(phase, event) == PollPhase::Failed,
    ensures
        phase == PollPhase::TryLock,
        event == (PollEvent::Tried { outcome: TryOutcome::Failed }),
{
}

/// A poll loop ends as terminated exactly when it read a raised flag, and as
/// acquired exactly when a try took the lock.
pub proof fn lemma_finished_by_cause(phase: PollPhase, event: PollEvent)
    requires
        !phase.is_finished(),
        poll_next(phase, event).is_finished(),
    ensures
        poll_next(phase, event) == PollPhase::Terminated <==> event == (PollEvent::FlagRead {
            raised: true,
        }),
        poll_next(phase, event) == PollPhase::Acquired <==> event == (PollEvent::Tried {
            outcome: TryOutcome::Locked,
        }),
{
}

} // verus!
