//! In-process target execution for a fuzzing engine.
//!
//! The library runs a candidate input against a caller-supplied harness
//! routine inside the current process.  An executor owns a single input
//! slot and an ordered set of observers; around every harness invocation
//! it publishes a crash-context slot so that fault and timeout handlers
//! can tell whether a run was in flight when a signal arrived.

pub mod error;
pub mod executor;
pub mod input;
pub mod observer;
pub mod signal;

pub use error::ExecError;
pub use executor::{CrashContextSlot, ExitKind, InMemoryExecutor};
pub use input::Input;
pub use observer::Observer;
