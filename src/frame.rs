//! Physical frames for queues and data buffers.
use vstd::prelude::*;

verus! {

/// A frame source that has no frames: every request fails.
pub struct EmptyFrameAllocator;

impl EmptyFrameAllocator {
    /// Requests a frame; there never is one.
    pub fn allocate_frame(&mut self) -> (r: Option<u64>)
        ensures
            r is None,
    {
        None
    }
}

} // verus!
