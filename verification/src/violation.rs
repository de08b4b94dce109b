//! Misuse of the boundary by the host.

use vstd::prelude::*;

verus! {

/// A call that breaks the boundary's contract. The layer reports it and
/// changes nothing.
#[derive(Clone, Copy, Debug, PartialEq, Eq, Structural)]
pub enum Violation {
    /// The handle names no live session: it was never given out, or the
    /// session has been freed.
    InvalidHandle,
    /// No live buffer has this address and this size.
    UnmatchedRelease,
}

} // verus!
