//! Drives the macro-expansion step of a snapshot-testing harness.
//!
//! The library models the three cooperating pieces of that step as
//! verified code over plain values:
//!
//! - command construction (`command`): inert descriptors of build-tool
//!   invocations, scoped to a test project and an isolated artifact
//!   directory;
//! - line filtering (`lines`): the pure pipeline that strips
//!   tool-injected boilerplate from warm-up output before it is shown;
//! - outcome handling (`expand`, `metadata`): mapping an observed
//!   subprocess outcome to the result a caller sees.
//!
//! Spawning the subprocess, streaming its pipes and reading the
//! environment are left to a thin unverified shell around this crate;
//! every decision about what is run, what is kept and what is returned
//! is made here, under contract.

pub mod command;
pub mod error;
pub mod expand;
pub mod lines;
pub mod metadata;
pub mod project;
