//! The failures that the library reports.

use vstd::prelude::*;

verus! {

/// Failures reported by the addressing and decoding functions.
#[derive(Clone, Copy, Debug, PartialEq, Eq, Structural)]
pub enum Error {
    /// A concrete value was required where a wildcard or a malformed value was found.
    Invalid,
    /// A command path did not name a command.
    CommandNotFound,
    /// More entries were supplied than the receiving table can hold.
    NoSpace,
    /// A required field was not present in a container.
    TLVNotFound,
    /// An element had a different type than the one asked for.
    TLVTypeMismatch,
}

} // verus!
