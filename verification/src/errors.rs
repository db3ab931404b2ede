//! The error taxonomy of the bridge subsystem.

use vstd::prelude::*;

verus! {

/// Construction-time failure of the render engine.  The engine needs a
/// surface of at least one pixel in each direction; nothing else about
/// construction is recoverable, so this is the only construction error.
#[derive(Clone, Copy, Debug, PartialEq, Eq, Structural)]
pub enum EngineInitError {
    /// The requested surface had a zero width or height.
    ZeroSize,
}

/// Rejection of a style request at the call site.  The previous style, if
/// any, remains active.
#[derive(Clone, Copy, Debug, PartialEq, Eq, Structural)]
pub enum StyleError {
    /// The style URL could not be parsed.
    InvalidUrl,
}

/// Caller-contract violation of the poll-and-drain cycle: `take_frame` was
/// called although no undrained frame exists.  Stale data is never handed
/// out instead.
#[derive(Clone, Copy, Debug, PartialEq, Eq, Structural)]
pub enum TakeFrameError {
    NoFrameAvailable,
}

/// Outcome of a fly-to request whose place name is not in the lookup table.
/// The camera is left untouched in that case.
#[derive(Clone, Copy, Debug, PartialEq, Eq, Structural)]
pub enum FlyToError {
    LocationNotFound,
}

} // verus!
