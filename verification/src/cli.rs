//! The command line of the program.
use vstd::prelude::*;

verus! {

/// The options of the program.
#[derive(Debug, Clone, PartialEq, Eq)]
pub struct Cli {
    /// Path to the Flutter project.
    pub project_root: Option<String>,
    /// Run Flutter through FVM.
    pub fvm: bool,
}

} // verus!
