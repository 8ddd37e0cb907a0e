//! Identity of the generated test workspace and of a single test case.
//!
//! Both are owned by the external test driver; this crate only reads
//! them when it builds command descriptors. Paths are carried as plain
//! strings joined with `/`.

use vstd::prelude::*;

verus! {

/// A generated workspace used for one test run: its root directory, the
/// directory that build artifacts are kept under, and the name of the
/// aggregate entry point used for the warm-up expansion.
#[derive(Debug, Clone)]
pub struct Project {
    /// Root directory of the generated workspace.
    pub dir: String,
    /// Directory under which this run's build artifacts live.
    pub target_dir: String,
    /// Name of the aggregate warm-up entry point.
    pub name: String,
}

/// The identifier of a single test case: one buildable entry point
/// inside the project.
#[derive(Debug, Clone)]
pub struct Name(pub String);

impl Name {
    /// The identifier as a string slice.
    pub fn as_str(&self) -> (r: &str)
        ensures
            r@ == self.0@,
    {
        self.0.as_str()
    }
}

} // verus!
