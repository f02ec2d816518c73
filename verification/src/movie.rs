use vstd::prelude::*;

verus! {

/// How a piece of media is brought in by its loader: fully resident in
/// memory, or streamed from disk on demand.
#[derive(Debug, Copy, Clone, PartialEq, Eq, Structural)]
pub enum LoadMode {
    OnMemory,
    DiskStream,
}

/// Coarse playback state as reported to the host.
#[derive(Debug, Copy, Clone, PartialEq, Eq, Structural)]
pub enum MovieState {
    Playing,
    Paused,
    Stopped,
}

} // verus!
