//! Error taxonomy of the pipeline. Every error is fatal: the run aborts, no
//! retry, no partial-progress recovery.

use vstd::prelude::*;

verus! {

/// The ways a buffer-pair operation can fail.
#[derive(Debug, Clone, Copy, PartialEq, Eq, Structural)]
pub enum BufferError {
    /// An invalid usage intent was passed to buffer-pair construction:
    /// a programming error, surfaced before any resource is described.
    Construction,
    /// The driver reported an asynchronous mapping failure on a read or
    /// write mapping request.
    MapFailed,
    /// The caller supplied a data sequence whose byte length disagrees with
    /// the buffer's fixed byte size.
    SizeMismatch,
}

} // verus!
