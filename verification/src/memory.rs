//! Physical frame manager: an external collaborator of the boot pipeline,
//! present as an explicit placeholder with no real behavior — the pipeline
//! never exercises it.

use vstd::prelude::*;

verus! {

/// One physical memory frame.
#[derive(Clone, Copy, Debug, PartialEq, Eq, Structural)]
pub struct Frame {
    pub number: usize,
}

/// One virtual memory page.
#[derive(Clone, Copy, Debug, PartialEq, Eq, Structural)]
pub struct Page {
    pub number: usize,
}

/// Allocates and deallocates physical frames. Placeholder: it tracks no
/// frames yet and grants none.
#[derive(Clone, Copy, Debug, PartialEq, Eq, Structural)]
pub struct MemoryManager {
}

impl MemoryManager {
    /// A manager over no frames.
    pub fn new() -> (r: MemoryManager)
        ensures
            r == (MemoryManager {  }),
    {
        MemoryManager {  }
    }

    /// Allocates a physical frame. Placeholder: no frame pool exists yet,
    /// so no request is satisfied.
    pub fn allocate_frame(&mut self) -> (r: Option<Frame>)
        ensures
            r is None,
    {
        None
    }

    /// Returns a frame to the pool. Placeholder: nothing is tracked yet.
    pub fn deallocate_frame(&mut self, frame: Frame) {
        let _ = frame;
    }
}

} // verus!
