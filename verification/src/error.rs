//! The errors that stop a run before any probe is made.

use vstd::prelude::*;

verus! {

/// A fault in what the run was given. Each one is fatal.
#[derive(Clone, Copy, Debug, PartialEq, Eq, Structural)]
pub enum ConfigError {
    /// The header or cookie pair at `index` has no colon.
    MalformedKeyValue { index: usize },
    /// The HTTP client refuses the name or the value of the header at `index`.
    InvalidHeader { index: usize },
    /// The CPU ceiling lies outside 1 to 100 percent.
    CpuOutOfRange,
    /// No word is left once blank lines and comments are dropped.
    EmptyWordlist,
}

} // verus!
