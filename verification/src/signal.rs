//! Decision logic of the crash/timeout signal subsystem.
//!
//! The handlers themselves run in asynchronous-signal context, perform
//! process-wide installation through the platform's signal interface and
//! end in diagnostics or an abort; that plumbing lives outside this
//! library.  What the handlers *decide* — how a delivered signal is
//! classified given the crash-context slot — is here, so the one
//! correctness-critical branch of each handler is verified.

use vstd::prelude::*;

use crate::error::ExecError;

verus! {

/// What a fault handler must do for a delivered fault signal.
#[derive(Clone, Copy, Debug, PartialEq, Eq, Structural)]
pub enum CrashAction {
    /// No run was in flight: report an anomalous, unattributed crash.
    ReportUnattributed,
    /// A run was in flight: report that the target crashed during it.
    ReportRunCrash,
}

/// What a timeout handler must do for a delivered timeout signal.
#[derive(Clone, Copy, Debug, PartialEq, Eq, Structural)]
pub enum TimeoutAction {
    /// No run was in flight: a spurious or late delivery; log and return.
    IgnoreSpurious,
    /// A run was in flight: report the timeout and abort the process,
    /// because a hung harness cannot continue past its deadline.
    ReportAndAbort,
}

/// Classify a fault signal: attributable to a run exactly when the
/// crash-context slot was published at delivery.
pub fn classify_crash(run_in_flight: bool) -> (a: CrashAction)
    ensures
        a == (if run_in_flight {
            CrashAction::ReportRunCrash
        } else {
            CrashAction::ReportUnattributed
        }),
{
    if run_in_flight {
        CrashAction::ReportRunCrash
    } else {
        CrashAction::ReportUnattributed
    }
}

/// Classify a timeout signal: fatal exactly when the crash-context slot
/// was published at delivery, else ignored as spurious.
pub fn classify_timeout(run_in_flight: bool) -> (a: TimeoutAction)
    ensures
        a == (if run_in_flight {
            TimeoutAction::ReportAndAbort
        } else {
            TimeoutAction::IgnoreSpurious
        }),
{
    if run_in_flight {
        TimeoutAction::ReportAndAbort
    } else {
        TimeoutAction::IgnoreSpurious
    }
}

/// Outcome of handler installation: fuzzing may proceed only when every
/// monitored condition was bound to its handler; otherwise the failure is
/// fatal, with no degraded mode that continues without crash detection.
pub fn installation_outcome(all_handlers_bound: bool) -> (r: Result<(), ExecError>)
    ensures
        r == (if all_handlers_bound {
            Result::<(), ExecError>::Ok(())
        } else {
            Result::<(), ExecError>::Err(ExecError::ConfigurationFatal)
        }),
{
    if all_handlers_bound {
        Ok(())
    } else {
        Err(ExecError::ConfigurationFatal)
    }
}

} // verus!
