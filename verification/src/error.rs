//! The error taxonomy of a dialog call.
//!
//! A user cancellation is never an error: it is a normal absent or empty
//! result. Errors are reserved for a missing backend, a backend that exited
//! with a status outside its known success/cancel set, and a native API call
//! that failed at the operating-system level.

use vstd::prelude::*;
use crate::backend::UseCommand;

verus! {

/// Why a dialog call failed.
#[derive(Debug, PartialEq, Eq)]
pub enum Error {
    /// No usable backend was detected in this environment; nothing was run.
    NoImplementation,
    /// The named subprocess backend exited with a status outside {success, cancel}.
    UnexpectedOutput(UseCommand),
    /// A native API call failed; carries the failing call's name.
    ImplementationError(String),
}

} // verus!
