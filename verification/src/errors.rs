use vstd::prelude::*;

verus! {

/// The error reported by the fallible unordered-mode operations.
#[derive(Debug, Copy, Clone, PartialEq, Eq, Structural, Hash, PartialOrd, Ord)]
pub enum TryIndicesError {
    /// A requested position is not smaller than the collection length.
    IndexOutOfBounds,
    /// The same position was requested more than once.
    DuplicateIndex,
}

/// The error reported by the fallible ordered-mode operations.
#[derive(Debug, Copy, Clone, PartialEq, Eq, Structural, Hash, PartialOrd, Ord)]
pub enum TryIndicesOrderedError {
    /// A requested position is not smaller than the collection length.
    IndexOutOfBounds,
    /// The requested positions are not strictly increasing.
    InvalidIndex,
}

} // verus!
