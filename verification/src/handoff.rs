//! Handoff parameters: what the kernel entry point receives once
//! boot-services exit has succeeded.
//!
//! The kernel entry ABI is a function at the fixed load address taking three
//! 64-bit unsigned integers — memory-map base pointer, memory-map total byte
//! length, per-descriptor stride in bytes — declared never to return. The
//! parameters are produced only after boot-services exit and consumed exactly
//! once by the control transfer.

use vstd::prelude::*;

use crate::memory_map::MemoryMapSnapshot;

verus! {

/// Bytes each memory descriptor occupies in the handed-off map buffer.
pub const DESCRIPTOR_STRIDE: u64 = 48;

/// Machine cap on how many descriptors a handed-off map may carry, so that
/// its total byte length always fits in the 64-bit ABI argument.
pub const MAX_MAP_ENTRIES: usize = 0x0100_0000;

/// Everything the control transfer hands to the kernel.
#[derive(Clone, Copy, Debug, PartialEq, Eq, Structural)]
pub struct HandoffParameters {
    /// Physical address of the buffer holding the final memory map.
    pub memory_map_base: u64,
    /// Total byte length of that map: descriptor count times the stride.
    pub memory_map_size_bytes: u64,
    /// Per-descriptor stride in bytes.
    pub descriptor_stride: u64,
    /// Address of the kernel entry point.
    pub kernel_entry: u64,
}

impl HandoffParameters {
    /// The three 64-bit arguments the kernel entry function is invoked with,
    /// in ABI order: map base, map byte length, descriptor stride.
    pub fn entry_arguments(&self) -> (r: (u64, u64, u64))
        ensures
            r.0 == self.memory_map_base,
            r.1 == self.memory_map_size_bytes,
            r.2 == self.descriptor_stride,
    {
        (self.memory_map_base, self.memory_map_size_bytes, self.descriptor_stride)
    }
}

/// The parameters a given final map and entry address assemble into.
pub open spec fn spec_handoff_parameters(map: MemoryMapSnapshot, kernel_entry: u64) -> HandoffParameters {
    HandoffParameters {
        memory_map_base: map.buffer_base,
        memory_map_size_bytes: (map.descriptors@.len() * DESCRIPTOR_STRIDE) as u64,
        descriptor_stride: DESCRIPTOR_STRIDE,
        kernel_entry,
    }
}

/// Assembles the handoff parameters from the final memory map — the one the
/// accepted boot-services exit froze — and the kernel entry address.
pub fn handoff_parameters(map: &MemoryMapSnapshot, kernel_entry: u64) -> (r: HandoffParameters)
    requires
        map.descriptors@.len() <= MAX_MAP_ENTRIES,
    ensures
        r == spec_handoff_parameters(*map, kernel_entry),
        r.memory_map_size_bytes == map.descriptors@.len() * DESCRIPTOR_STRIDE,
{
    HandoffParameters {
        memory_map_base: map.buffer_base,
        memory_map_size_bytes: (map.descriptors.len() as u64) * DESCRIPTOR_STRIDE,
        descriptor_stride: DESCRIPTOR_STRIDE,
        kernel_entry,
    }
}

} // verus!
