//! Errors of the tree's operations.
use vstd::prelude::*;

verus! {

/// What went wrong in a tree operation.
#[derive(Debug, Clone, PartialEq)]
pub enum MerkleError {
    /// An index at or past the end of a container, with the last valid index.
    IndexOutOfBounds { index: usize, max: usize },
    /// A root query on a tree without nodes.
    EmptyTree,
    /// A leaf that fails validation.
    InvalidLeaf(String),
    /// A field lift or hash computation that could not be carried out.
    HashError(String),
    /// A structurally malformed proof.
    InvalidProof,
    /// A sum of two values that does not fit in `i32`.
    OverflowError,
    /// A tree that cannot be built: no leaves, or more than 2^63 of them.
    InvalidTree(String),
}

} // verus!
