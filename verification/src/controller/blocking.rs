//! Errors of operations that may block.

use vstd::prelude::*;

verus! {

/// Error for representing an operation that blocks or fails
/// with an error.
#[derive(Debug)]
pub enum TryError<E> {
    /// Underlying controller error.
    Error(E),
    /// Operation would block.
    Busy,
}

} // verus!
