//! Error taxonomy of the transport layer.

use vstd::prelude::*;

verus! {

/// How a transport operation failed.
///
/// - `Transport`: the underlying stream failed (connect, read, write,
///   shutdown). Surfaced to the caller, never retried here.
/// - `Corrupted`: the buffered bytes are structurally invalid (bad frame-end
///   marker). Fatal: frame alignment can no longer be trusted.
/// - `Closed`: the stream ended exactly on a frame boundary (read buffer
///   empty). An expected, clean termination signal.
/// - `Interrupted`: the stream ended while a partial frame was buffered.
///   A hard fault: data was lost mid-frame.
#[derive(Clone, Copy, Debug, PartialEq, Eq, Structural)]
pub enum Error {
    Transport,
    Corrupted,
    Closed,
    Interrupted,
}

} // verus!
