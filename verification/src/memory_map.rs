//! Physical memory map acquisition: descriptors, snapshots, and the reader's
//! buffer-sizing retry loop.
//!
//! Allocating the buffer that receives the map can itself consume memory
//! descriptors and invalidate the size just queried — a known race in this
//! class of firmware. The reader therefore sizes its buffer with a safety
//! margin and, when the firmware still reports the buffer too small,
//! recomputes the size and retries within a bounded budget. The firmware
//! calls are outside work; each decision about their results is verified
//! here as one step of the loop.

use vstd::prelude::*;

use crate::errors::{BootError, ResourceError};

verus! {

/// Usage classification of one physical memory region.
#[derive(Clone, Copy, Debug, PartialEq, Eq, Structural)]
pub enum RegionType {
    /// Free memory usable by the OS.
    Conventional,
    /// Memory the firmware reserves permanently.
    Reserved,
    /// Loader-owned memory that must remain attributed to the OS after
    /// boot-services exit.
    LoaderData,
    /// Memory in use by boot services until the exit exchange completes.
    BootServices,
    /// Memory-mapped device ranges.
    Mmio,
}

/// One contiguous physical memory region, as the firmware describes it.
#[derive(Clone, Copy, Debug, PartialEq, Eq, Structural)]
pub struct MemoryDescriptor {
    /// Physical start address of the region.
    pub start: u64,
    /// Region length in 4 KiB pages.
    pub page_count: u64,
    /// Usage classification.
    pub region: RegionType,
}

/// A captured memory map: the descriptor sequence in the order the firmware
/// returned it (not guaranteed sorted by address), the address of the buffer
/// that holds it, and the opaque key that ties this exact capture to the one
/// boot-services-exit exchange permitted to consume it. A capture becomes
/// stale the instant any further allocation occurs.
#[derive(Debug, PartialEq, Eq)]
pub struct MemoryMapSnapshot {
    pub descriptors: Vec<MemoryDescriptor>,
    pub buffer_base: u64,
    pub map_key: u64,
}

/// Safety margin added to every reported map size before allocating the
/// receiving buffer.
pub const MAP_SIZE_MARGIN: usize = 100;

/// How many times an undersized buffer is re-sized and retried before the
/// reader gives up.
pub const MAP_RETRY_BUDGET: u32 = 8;

/// What one copy-memory-map firmware call reported.
#[derive(Debug, PartialEq, Eq)]
pub enum MapCallOutcome {
    /// The buffer was large enough; the firmware filled it.
    Copied { descriptors: Vec<MemoryDescriptor>, buffer_base: u64, map_key: u64 },
    /// The buffer was too small; the firmware reported the size it needs now.
    TooSmall { required: usize },
}

/// The reader's state between firmware calls: the buffer size it will present
/// to the next copy call and the retries still allowed.
#[derive(Clone, Copy, Debug, PartialEq, Eq, Structural)]
pub struct MemoryMapReader {
    pub buffer_size: usize,
    pub attempts_left: u32,
}

/// What the reader decides after one copy call.
#[derive(Debug, PartialEq, Eq)]
pub enum MapReadStep {
    /// The capture succeeded. A map with zero Conventional regions is valid
    /// but degenerate; `conventional_regions` surfaces that to the caller
    /// rather than treating it silently as an ordinary success.
    Done { snapshot: MemoryMapSnapshot, conventional_regions: usize },
    /// The buffer was undersized; retry the copy with the re-sized reader.
    Retry { reader: MemoryMapReader },
    /// The retry budget is exhausted.
    Failed { error: BootError },
}

/// A reported size plus the safety margin, saturating at the machine limit.
pub open spec fn padded_buffer_size(reported: usize) -> usize {
    if reported + MAP_SIZE_MARGIN <= usize::MAX {
        (reported + MAP_SIZE_MARGIN) as usize
    } else {
        usize::MAX
    }
}

/// Number of Conventional-type regions in a descriptor sequence.
pub open spec fn spec_conventional_count(descriptors: Seq<MemoryDescriptor>) -> int
    decreases descriptors.len(),
{
    if descriptors.len() == 0 {
        0
    } else {
        spec_conventional_count(descriptors.drop_last()) + if descriptors.last().region
            == RegionType::Conventional {
            1int
        } else {
            0int
        }
    }
}

/// Counts the usable (Conventional) regions of a captured map.
pub fn count_conventional(descriptors: &Vec<MemoryDescriptor>) -> (r: usize)
    ensures
        r == spec_conventional_count(descriptors@),
{
    let mut count: usize = 0;
    let mut i: usize = 0;
    while i < descriptors.len()
        invariant
            i <= descriptors@.len(),
            count == spec_conventional_count(descriptors@.subrange(0, i as int)),
            count <= i,
        decreases descriptors@.len() - i,
    {
        proof {
            assert(descriptors@.subrange(0, i + 1).drop_last() =~= descriptors@.subrange(
                0,
                i as int,
            ));
            assert(descriptors@.subrange(0, i + 1).last() == descriptors@[i as int]);
        }
        if descriptors[i].region == RegionType::Conventional {
            count = count + 1;
        }
        i = i + 1;
    }
    proof {
        assert(descriptors@.subrange(0, descriptors@.len() as int) =~= descriptors@);
    }
    count
}

impl MemoryMapReader {
    /// Starts a capture from the size the query-memory-map-size call
    /// reported: the first copy call will present a buffer of that size plus
    /// the safety margin, and the full retry budget is available.
    pub fn begin(reported_size: usize) -> (r: MemoryMapReader)
        ensures
            r.buffer_size == padded_buffer_size(reported_size),
            r.attempts_left == MAP_RETRY_BUDGET,
    {
        let buffer_size = if reported_size <= usize::MAX - MAP_SIZE_MARGIN {
            reported_size + MAP_SIZE_MARGIN
        } else {
            usize::MAX
        };
        MemoryMapReader { buffer_size, attempts_left: MAP_RETRY_BUDGET }
    }

    /// Decides what follows one copy-memory-map call. A successful copy ends
    /// the capture and reports the count of usable regions; an undersized
    /// buffer is re-sized from the firmware's new requirement and retried,
    /// until the budget runs out.
    pub fn on_copy_result(self, outcome: MapCallOutcome) -> (r: MapReadStep)
        ensures
            outcome matches MapCallOutcome::Copied { descriptors, buffer_base, map_key } ==> (r
                matches MapReadStep::Done { snapshot, conventional_regions }
                && snapshot.descriptors@ == descriptors@
                && snapshot.buffer_base == buffer_base
                && snapshot.map_key == map_key
                && conventional_regions == spec_conventional_count(descriptors@)),
            outcome is TooSmall && self.attempts_left > 0 ==> (r
                matches MapReadStep::Retry { reader }
                && reader.buffer_size == padded_buffer_size(outcome->TooSmall_required)
                && reader.attempts_left == self.attempts_left - 1),
            outcome is TooSmall && self.attempts_left == 0 ==> r == (MapReadStep::Failed {
                error: BootError::Resource(ResourceError::MapBufferUndersized),
            }),
    {
        match outcome {
            MapCallOutcome::Copied { descriptors, buffer_base, map_key } => {
                let conventional_regions = count_conventional(&descriptors);
                MapReadStep::Done {
                    snapshot: MemoryMapSnapshot { descriptors, buffer_base, map_key },
                    conventional_regions,
                }
            },
            MapCallOutcome::TooSmall { required } => {
                if self.attempts_left == 0 {
                    MapReadStep::Failed {
                        error: BootError::Resource(ResourceError::MapBufferUndersized),
                    }
                } else {
                    let buffer_size = if required <= usize::MAX - MAP_SIZE_MARGIN {
                        required + MAP_SIZE_MARGIN
                    } else {
                        usize::MAX
                    };
                    MapReadStep::Retry {
                        reader: MemoryMapReader {
                            buffer_size,
                            attempts_left: self.attempts_left - 1,
                        },
                    }
                }
            },
        }
    }
}

} // verus!
