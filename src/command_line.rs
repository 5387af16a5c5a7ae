//! The command-line arguments of the generator.

use std::path::PathBuf;
use vstd::prelude::*;

verus! {

/// std's `PathBuf`, carried through as an opaque value.
#[verifier::external_type_specification]
#[verifier::external_body]
pub struct ExPathBuf(PathBuf);

/// The three paths that a run of the generator is given.
pub struct CommandLineArgs {
    /// The path to the configuration file to use.
    pub config: PathBuf,
    /// The OpenRPC document to be parsed.
    pub document: PathBuf,
    /// The path to the output file.
    pub output: PathBuf,
}

} // verus!
