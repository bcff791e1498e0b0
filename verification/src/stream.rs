//! The shape of the transport that the link runs on.

use vstd::prelude::*;

verus! {

/// A byte stream that comes apart into a reading and a writing half, each
/// owned by one worker and needing nothing more from the other.
pub trait AsyncStreamSplit {
    /// The reading half.
    type Reader;

    /// The writing half.
    type Writer;

    /// Gives up the stream for its two halves.
    fn into_split(self) -> (Self::Reader, Self::Writer);
}

} // verus!
