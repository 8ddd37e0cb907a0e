//! Inert descriptors of build-tool invocations.
//!
//! A descriptor records which program to run, where, with which
//! environment overrides and which arguments; no I/O happens until the
//! unverified shell executes it. Every invocation scoped to a project
//! redirects build artifacts into a subdirectory reserved for this
//! testing mode, so expansion runs neither invalidate nor are
//! invalidated by the developer's ordinary incremental build cache, and
//! carries the caller-supplied toolchain flags in its environment.

use vstd::prelude::*;
use vstd::string::StringExecFns;

use crate::project::Project;

verus! {

/// The environment variable that redirects the build tool's artifacts.
pub open spec fn artifact_dir_variable() -> Seq<char> {
    "CARGO_TARGET_DIR"@
}

/// The subdirectory of the project's target directory that this testing
/// mode keeps its artifacts under, as a suffix joined to it.
pub open spec fn artifact_dir_suffix() -> Seq<char> {
    "/tests/target"@
}

/// A pre-configured build-tool invocation: inert data, executed only by
/// the unverified shell around this crate.
#[derive(Debug, Clone)]
pub struct CommandSpec {
    /// The executable to run.
    pub program: String,
    /// The working directory, when the invocation is scoped to one.
    pub current_dir: Option<String>,
    /// Environment overrides, applied in order.
    pub env: Vec<(String, String)>,
    /// Command-line arguments, in order.
    pub args: Vec<String>,
}

/// The executable a descriptor runs: the environment-provided override
/// when there is one, the fixed default name otherwise.
pub open spec fn resolved_program(cargo_override: Option<String>) -> Seq<char> {
    match cargo_override {
        Some(p) => p@,
        None => "cargo"@,
    }
}

/// A descriptor is scoped to a project when it runs in the project's
/// root, redirects artifacts into the project's isolated artifact
/// directory, and carries the caller-supplied toolchain flags after
/// that redirection, in their given order.
pub open spec fn scoped_to_project(
    r: CommandSpec,
    project: Project,
    cargo_override: Option<String>,
    rustflags: Vec<(String, String)>,
) -> bool {
    &&& r.program@ == resolved_program(cargo_override)
    &&& r.current_dir matches Some(d) && d@ == project.dir@
    &&& r.env@.len() == 1 + rustflags@.len()
    &&& r.env@[0].0@ == artifact_dir_variable()
    &&& r.env@[0].1@ == project.target_dir@ + artifact_dir_suffix()
    &&& forall|i: int| 0 <= i < rustflags@.len() ==> r.env@[i + 1] == rustflags@[i]
}

/// The bare build-tool invocation: the resolved executable, nothing
/// else configured.
pub fn raw_cargo(cargo_override: Option<String>) -> (r: CommandSpec)
    ensures
        r.program@ == resolved_program(cargo_override),
        r.current_dir is None,
        r.env@.len() == 0,
        r.args@.len() == 0,
{
    let program = match cargo_override {
        Some(p) => p,
        None => String::from_str("cargo"),
    };
    CommandSpec { program, current_dir: None, env: Vec::new(), args: Vec::new() }
}

/// The build-tool invocation scoped to a project: working directory at
/// the project root, artifacts redirected into the project's isolated
/// artifact directory, toolchain flags applied, no arguments yet.
pub fn cargo(project: &Project, cargo_override: Option<String>, rustflags: Vec<(String, String)>) -> (r:
    CommandSpec)
    ensures
        scoped_to_project(r, *project, cargo_override, rustflags),
        r.args@.len() == 0,
{
    let mut r = raw_cargo(cargo_override);
    r.current_dir = Some(project.dir.clone());
    let artifact_dir = project.target_dir.clone().concat("/tests/target");
    r.env.push((String::from_str("CARGO_TARGET_DIR"), artifact_dir));
    let mut flags = rustflags;
    r.env.append(&mut flags);
    r
}

/// The expansion invocation for one entry point of the project:
/// `expand --bin <bin> --theme none`, scoped to the project. The neutral
/// theme keeps the rendered output free of terminal styling, so it is
/// stable across environments.
pub fn expand_command(
    project: &Project,
    bin: &str,
    cargo_override: Option<String>,
    rustflags: Vec<(String, String)>,
) -> (r: CommandSpec)
    ensures
        scoped_to_project(r, *project, cargo_override, rustflags),
        r.args@.len() == 5,
        r.args@[0]@ == "expand"@,
        r.args@[1]@ == "--bin"@,
        r.args@[2]@ == bin@,
        r.args@[3]@ == "--theme"@,
        r.args@[4]@ == "none"@,
{
    let mut r = cargo(project, cargo_override, rustflags);
    r.args.push(String::from_str("expand"));
    r.args.push(String::from_str("--bin"));
    r.args.push(bin.to_owned());
    r.args.push(String::from_str("--theme"));
    r.args.push(String::from_str("none"));
    r
}

/// The metadata query invocation: `metadata --format-version=1` on the
/// bare build tool, pinned to the payload format this crate parses.
pub fn metadata_command(cargo_override: Option<String>) -> (r: CommandSpec)
    ensures
        r.program@ == resolved_program(cargo_override),
        r.current_dir is None,
        r.env@.len() == 0,
        r.args@.len() == 2,
        r.args@[0]@ == "metadata"@,
        r.args@[1]@ == "--format-version=1"@,
{
    let mut r = raw_cargo(cargo_override);
    r.args.push(String::from_str("metadata"));
    r.args.push(String::from_str("--format-version=1"));
    r
}

} // verus!
