//! Why a directory of suites could not be searched.

use vstd::prelude::*;

verus! {

/// What can be wrong with the directory that is to hold the suites.
#[derive(Debug, PartialEq, Eq)]
pub enum Error {
    ProvidedPathIsNotDir,
    /// The directory could not be listed.
    ReadingDir(String),
    ProvidedPathIsSuiteItself,
}

} // verus!
