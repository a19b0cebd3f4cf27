//! The failures that the commitment scheme and the accumulator report.

use vstd::prelude::*;

verus! {

/// Why an operation refused its input. A failed verification is never an
/// error: `check` and `batch_check` answer `false` for it.
#[derive(Clone, Copy, Debug, PartialEq, Eq, Structural)]
pub enum Error {
    /// The value vector does not have one entry per coordinate generator, or
    /// the opened values and the indices differ in number.
    LengthMismatch,
    /// An index does not name a coordinate of the value vector.
    IndexOutOfBounds,
    /// A batch opening was asked for no index at all.
    EmptyIndices,
    /// A batch opening was asked for the same index twice.
    DuplicateIndex,
    /// The indices handed to the verifier are not strictly increasing.
    UnsortedOrDuplicate,
    /// The candidate of a non-membership proof is one of the roots.
    CandidateIsMember,
}

} // verus!
