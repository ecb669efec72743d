//! The error taxonomy of the execution core.

use vstd::prelude::*;

verus! {

/// Everything that can go wrong while driving a target run.
///
/// Faults and timeouts inside the harness are *not* represented here: a
/// faulting call never returns normally, so those conditions are reported
/// through the signal-handling side channel instead of a return value.
#[derive(Clone, Copy, Debug, PartialEq, Eq, Structural)]
pub enum ExecError {
    /// A required resource (e.g. the current input) is absent.
    EmptyState,
    /// The input has no canonical byte form in its current state.
    SerializationFailure,
    /// A registered observer's reset or post-exec step failed.
    ObserverFailure,
    /// Signal-handler installation failed; fuzzing cannot proceed.
    ConfigurationFatal,
}

} // verus!
