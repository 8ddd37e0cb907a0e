//! Mapping an observed subprocess outcome to an expansion result.
//!
//! Each expansion call spawns exactly one subprocess and waits for it.
//! The only states a caller can observe are modeled by
//! [`ProcessOutcome`]: either the process never started, or it ran to
//! completion with an exit status and its two captured streams. What
//! the caller is told for each of those states is decided here, under
//! contract; the unverified shell merely runs the process and hands the
//! outcome over.

use vstd::prelude::*;

use crate::error::Error;

verus! {

/// What running one build-tool subprocess to completion looks like from
/// the outside: it either never spawned, or it exited with a status and
/// its captured standard output and standard error.
#[derive(Debug)]
pub enum ProcessOutcome {
    /// The process could not be started (missing executable, permission
    /// denied); carries the description of the underlying OS error.
    SpawnFailed {
        /// Description of the OS error that prevented the spawn.
        reason: String,
    },
    /// The process ran to completion.
    Exited {
        /// Whether the exit status reported success.
        success: bool,
        /// Everything the process wrote to standard output.
        stdout: Vec<u8>,
        /// Everything the process wrote to standard error.
        stderr: Vec<u8>,
    },
}

/// What `expand` returns for a given observed outcome: a spawn failure
/// is a hard error carrying the OS error description; a completed run
/// yields its exit flag together with its standard output on success
/// and its standard error otherwise, byte for byte.
pub open spec fn expand_post(outcome: ProcessOutcome, r: Result<(bool, Vec<u8>), Error>) -> bool {
    match outcome {
        ProcessOutcome::SpawnFailed { reason } => r matches Err(
            Error::CargoExpandExecutionError(m),
        ) && m@ == reason@,
        ProcessOutcome::Exited { success, stdout, stderr } => r matches Ok(p) && p.0 == success
            && p.1@ == if success {
            stdout@
        } else {
            stderr@
        },
    }
}

/// Turns the outcome of one per-case expansion subprocess into the
/// result the caller sees. The returned flag is the sole success
/// discriminator: it is true if and only if the subprocess exited
/// successfully, and the bytes are exactly its standard output in that
/// case and exactly its standard error otherwise.
pub fn expand(outcome: ProcessOutcome) -> (r: Result<(bool, Vec<u8>), Error>)
    ensures
        expand_post(outcome, r),
        r is Ok <==> outcome is Exited,
{
    match outcome {
        ProcessOutcome::SpawnFailed { reason } => Err(Error::CargoExpandExecutionError(reason)),
        ProcessOutcome::Exited { success, stdout, stderr } => {
            if !success {
                Ok((false, stderr))
            } else {
                Ok((true, stdout))
            }
        },
    }
}

/// Two outcomes that report the same spawn result, exit flag and stream
/// contents.
pub open spec fn outcomes_agree(a: ProcessOutcome, b: ProcessOutcome) -> bool {
    match (a, b) {
        (
            ProcessOutcome::SpawnFailed { reason: ra },
            ProcessOutcome::SpawnFailed { reason: rb },
        ) => ra@ == rb@,
        (
            ProcessOutcome::Exited { success: sa, stdout: oa, stderr: ea },
            ProcessOutcome::Exited { success: sb, stdout: ob, stderr: eb },
        ) => sa == sb && oa@ == ob@ && ea@ == eb@,
        _ => false,
    }
}

/// Two expansion results that report the same success flag and byte
/// content, or the same hard error.
pub open spec fn expand_results_agree(
    r1: Result<(bool, Vec<u8>), Error>,
    r2: Result<(bool, Vec<u8>), Error>,
) -> bool {
    match (r1, r2) {
        (Ok(a), Ok(b)) => a.0 == b.0 && a.1@ == b.1@,
        (
            Err(Error::CargoExpandExecutionError(m1)),
            Err(Error::CargoExpandExecutionError(m2)),
        ) => m1@ == m2@,
        _ => false,
    }
}

/// Law: expansion is idempotent given a deterministic toolchain — two
/// calls whose subprocesses behave the same (same spawn result, same
/// exit flag, same stream bytes) yield the same success flag and the
/// same byte content.
pub proof fn lemma_expand_deterministic(
    outcome1: ProcessOutcome,
    outcome2: ProcessOutcome,
    r1: Result<(bool, Vec<u8>), Error>,
    r2: Result<(bool, Vec<u8>), Error>,
)
    requires
        outcomes_agree(outcome1, outcome2),
        expand_post(outcome1, r1),
        expand_post(outcome2, r2),
    ensures
        expand_results_agree(r1, r2),
{
}

} // verus!
