//! The diagnostics a statement handle can raise while a result set is
//! traversed.

use vstd::prelude::*;

verus! {

/// A driver diagnostic, propagated unchanged to the caller of whichever
/// cursor operation triggered it.
///
/// Every fallible operation of this crate reports failure through this one
/// kind; no operation retries internally.
#[derive(Clone, Copy, Debug, PartialEq, Eq, Structural)]
pub enum Error {
    /// The operation needs an open result set, but the cursor of the handle
    /// has already been closed.
    CursorClosed,
    /// A column index denotes neither the bookmark column nor an ordinary
    /// column of the result set.
    InvalidColumnIndex,
    /// A fetch found a column binding whose index lies beyond the number of
    /// columns in the result set.
    BoundColumnOutOfRange,
}

} // verus!
