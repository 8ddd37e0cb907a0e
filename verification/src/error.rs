//! The error taxonomy of the expansion step.

use vstd::prelude::*;

verus! {

/// Everything that can go wrong while querying metadata or expanding a
/// test case. Only an expansion that ran and exited unsuccessfully is an
/// expected, recoverable outcome, and that one is not an `Error` at all:
/// it is reported as `(false, diagnostics)` by expansion itself. The
/// variants here are environment and toolchain faults.
#[derive(Debug)]
pub enum Error {
    /// The metadata subprocess could not be spawned; carries the
    /// description of the underlying OS error.
    Cargo(String),
    /// The metadata subprocess ran but its payload did not hold the two
    /// required path fields.
    CargoMetadata,
    /// The expansion subprocess could not be spawned; carries the
    /// description of the underlying OS error.
    CargoExpandExecutionError(String),
    /// The expansion subprocess was spawned but its standard-output
    /// handle was unavailable.
    CargoFail,
}

} // verus!
