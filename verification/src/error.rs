//! Why the paths of a scan could not be resolved.

use vstd::prelude::*;

verus! {

/// A failure to turn the input paths of a scan into concrete files.
///
/// The library itself reports only [`ResolutionError::NoPaths`]. The other
/// variants are reported by the path expansion and handed on as they are.
#[derive(Clone, Debug, PartialEq, Eq)]
pub enum ResolutionError {
    /// The scan was given no input path.
    NoPaths,
    /// A literal input path does not exist.
    NotFound(String),
    /// A glob pattern matched no file.
    NoMatch(String),
    /// A remote location could not be listed.
    Listing(String),
}

} // verus!
