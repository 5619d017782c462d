//! Firmware-to-kernel boot handoff pipeline, modeled and verified.
//!
//! The library covers the five stages that take control from a pre-boot
//! firmware environment and hand it to a 64-bit kernel: CPU compatibility
//! validation, memory-map acquisition, kernel image loading, kernel
//! placement at a fixed physical address, and the final boot-services exit
//! with control transfer. Firmware calls themselves are outside work; every
//! decision the pipeline makes about their results is verified here.

pub mod arch;
pub mod compat;
pub mod console;
pub mod errors;
pub mod handoff;
pub mod loader;
pub mod memory;
pub mod memory_map;
pub mod multiboot;
pub mod pipeline;
pub mod placer;
pub mod serial;
pub mod timer;

use vstd::prelude::*;

verus! {

/// Version string of the library.
pub fn rust_os_version() -> (r: &'static str)
    ensures
        r@ == "0.1.0"@,
{
    "0.1.0"
}

/// Placeholder system-wide validation entry point; the detailed hardware
/// checks live in the compatibility checker.
pub fn validate_system_requirements() -> (r: bool)
    ensures
        r,
{
    true
}

} // verus!
