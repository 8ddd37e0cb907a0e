//! Workspace build metadata: querying result and payload parsing.
//!
//! The build tool's metadata query prints a structured JSON payload on
//! its standard output. Of that payload exactly two path-valued fields
//! matter, `target_directory` and `workspace_root`; everything else is
//! ignored, so newer payload versions keep parsing. The JSON reading
//! itself is done by `serde_json` behind one trusted wrapper; what the
//! two fields parse to from given bytes is a fixed function of those
//! bytes, named by [`parsed_metadata`].

use vstd::prelude::*;

use crate::error::Error;
use crate::expand::ProcessOutcome;

verus! {

/// The two fields of the build tool's metadata payload that this
/// subsystem needs, as plain path strings.
#[derive(Debug, Clone)]
pub struct Metadata {
    /// The workspace's build-artifact directory.
    pub target_directory: String,
    /// The workspace's root directory.
    pub workspace_root: String,
}

/// The two required path fields that a metadata payload parses to, or
/// nothing when the payload is not valid JSON or lacks either field as
/// a string. The parse is a function of the bytes alone.
pub uninterp spec fn parsed_metadata(bytes: Seq<u8>) -> Option<(Seq<char>, Seq<char>)>;

/// Relies on `serde_json::from_slice` and `serde_json::Value::{get,
/// as_str}`: parsing the payload and reading the two required fields
/// returns `None` exactly when the bytes are not valid JSON holding
/// both fields as strings, and otherwise the fields' values; the result
/// depends on the bytes alone.
#[verifier::external_body]
fn parse_metadata_output(bytes: &Vec<u8>) -> (r: Option<Metadata>)
    ensures
        r is Some <==> parsed_metadata(bytes@) is Some,
        r matches Some(m) ==> parsed_metadata(bytes@) == Some(
            (m.target_directory@, m.workspace_root@),
        ),
{
    let value: serde_json::Value = serde_json::from_slice(bytes).ok()?;
    let target_directory = value.get("target_directory")?.as_str()?;
    let workspace_root = value.get("workspace_root")?.as_str()?;
    Some(Metadata {
        target_directory: target_directory.to_owned(),
        workspace_root: workspace_root.to_owned(),
    })
}

/// What `metadata` returns for a given observed outcome of the query
/// subprocess: a spawn failure is surfaced as `Error::Cargo` with the
/// OS error description; otherwise the payload on standard output is
/// parsed, yielding the two fields on success and `Error::CargoMetadata`
/// on a malformed payload.
pub open spec fn metadata_post(outcome: ProcessOutcome, r: Result<Metadata, Error>) -> bool {
    match outcome {
        ProcessOutcome::SpawnFailed { reason } => r matches Err(Error::Cargo(m)) && m@ == reason@,
        ProcessOutcome::Exited { stdout, .. } => match parsed_metadata(stdout@) {
            Some(fields) => r matches Ok(m) && m.target_directory@ == fields.0
                && m.workspace_root@ == fields.1,
            None => r matches Err(Error::CargoMetadata),
        },
    }
}

/// Turns the outcome of one metadata query subprocess into the result
/// the caller sees: the two required path fields of the payload, or the
/// error that says why they could not be had. Repeated queries are safe;
/// nothing is cached here.
pub fn metadata(outcome: ProcessOutcome) -> (r: Result<Metadata, Error>)
    ensures
        metadata_post(outcome, r),
        outcome is SpawnFailed ==> r is Err,
{
    match outcome {
        ProcessOutcome::SpawnFailed { reason } => Err(Error::Cargo(reason)),
        ProcessOutcome::Exited { stdout, .. } => match parse_metadata_output(&stdout) {
            Some(m) => Ok(m),
            None => Err(Error::CargoMetadata),
        },
    }
}

/// Law: whenever the query subprocess produces a payload whose two
/// required fields parse as non-empty paths, `metadata` returns them
/// non-empty and unchanged.
pub proof fn lemma_metadata_fields_nonempty(outcome: ProcessOutcome, r: Result<Metadata, Error>)
    requires
        metadata_post(outcome, r),
        outcome matches ProcessOutcome::Exited { stdout, .. } && parsed_metadata(stdout@) matches Some(
            fields,
        ) && fields.0.len() > 0 && fields.1.len() > 0,
    ensures
        r matches Ok(m) && m.target_directory@.len() > 0 && m.workspace_root@.len() > 0,
{
}

/// Law: a payload that does not hold both required fields yields
/// `Error::CargoMetadata`, never a value.
pub proof fn lemma_metadata_malformed_rejected(outcome: ProcessOutcome, r: Result<Metadata, Error>)
    requires
        metadata_post(outcome, r),
        outcome matches ProcessOutcome::Exited { stdout, .. } && parsed_metadata(stdout@) is None,
    ensures
        r matches Err(Error::CargoMetadata),
{
}

} // verus!
