//! What can go wrong at the boundary with the engine.

use vstd::prelude::*;

verus! {

/// A broken promise at the boundary. None of these is retried: each is
/// reported at once to the caller that caused it.
#[derive(Clone, Copy, Debug, PartialEq, Eq, Structural)]
pub enum BufferError {
    /// A record of this crate and the engine's record differ in size.
    LayoutMismatch,
    /// The handle was released, or the engine has no buffer under its reference.
    InvalidHandle,
    /// The null reference was offered for adoption.
    NullPointer,
    /// An array handed over by the engine does not hold the number of
    /// records that the engine reported.
    SizeMismatch,
    /// A buffer would hold more records of one kind than a 32-bit count can
    /// number, or the engine more buffers than it has references for.
    CapacityExceeded,
}

} // verus!
