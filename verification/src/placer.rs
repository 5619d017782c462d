//! Kernel placement: reserving physical memory at the fixed load address and
//! copying the image into it verbatim.
//!
//! The address-specific page allocation is a firmware call; whether it was
//! granted arrives here as a plain outcome, and everything decided from it is
//! verified. No load-address relocation or image patching is attempted: an
//! unavailable address is fatal, a deliberate and documented simplification.

use vstd::prelude::*;

use crate::errors::{BootError, ResourceError, ValidationError};

verus! {

/// Fixed physical load address of the kernel (1 MiB); page-aligned.
pub const KERNEL_LOAD_ADDRESS: u64 = 0x100000;

/// Size of one physical page in bytes.
pub const PAGE_SIZE: usize = 4096;

/// Number of 4 KiB pages that cover `length` bytes: `ceil(length / 4096)`.
pub open spec fn spec_page_count(length: nat) -> nat {
    (((length as int) + ((PAGE_SIZE - 1) as int)) / (PAGE_SIZE as int)) as nat
}

/// `spec_page_count` is the ceiling of `length / 4096`: the reserved pages
/// cover the image, and one page fewer would not.
pub proof fn lemma_page_count_is_ceiling(length: nat)
    requires
        length > 0,
    ensures
        spec_page_count(length) * (PAGE_SIZE as nat) >= length,
        (spec_page_count(length) - 1) * (PAGE_SIZE as int) < length,
{
    let p = PAGE_SIZE as int;
    let q = spec_page_count(length) as int;
    vstd::arithmetic::div_mod::lemma_fundamental_div_mod(length + (p - 1), p);
    vstd::arithmetic::div_mod::lemma_mod_bound(length + (p - 1), p);
    assert(q * p >= length && (q - 1) * p < length) by (nonlinear_arith)
        requires
            length + (p - 1) == p * q + ((length + (p - 1)) % p),
            0 <= (length + (p - 1)) % p < p,
            p == 4096,
            length > 0,
    ;
}

/// Computes the page count needed to hold `length` bytes.
pub fn page_count(length: usize) -> (r: usize)
    ensures
        r == spec_page_count(length as nat),
{
    let full = length / PAGE_SIZE;
    let rest = length % PAGE_SIZE;
    if rest == 0 {
        proof {
            vstd::arithmetic::div_mod::lemma_fundamental_div_mod(length as int, PAGE_SIZE as int);
            vstd::arithmetic::div_mod::lemma_div_multiples_vanish_fancy(
                length as int / PAGE_SIZE as int,
                (PAGE_SIZE - 1) as int,
                PAGE_SIZE as int,
            );
        }
        full
    } else {
        proof {
            vstd::arithmetic::div_mod::lemma_fundamental_div_mod(length as int, PAGE_SIZE as int);
            vstd::arithmetic::div_mod::lemma_div_multiples_vanish_fancy(
                (length as int / PAGE_SIZE as int) + 1,
                (rest - 1) as int,
                PAGE_SIZE as int,
            );
            assert((length + (PAGE_SIZE - 1)) as int == ((length as int / PAGE_SIZE as int) + 1)
                * PAGE_SIZE + (rest - 1)) by (nonlinear_arith)
                requires
                    length == PAGE_SIZE * (length as int / PAGE_SIZE as int) + rest,
                    0 < rest < PAGE_SIZE,
            ;
        }
        full + 1
    }
}

/// The kernel image as it stands in reserved physical memory after
/// placement: the fixed address, the pages reserved there (classified as
/// loader-owned so they survive boot-services exit), and the bytes copied in.
#[derive(Debug, PartialEq, Eq)]
pub struct PlacedKernel {
    pub address: u64,
    pub pages: usize,
    pub bytes: Vec<u8>,
}

impl PlacedKernel {
    /// Well-formedness: placed at the fixed address, with exactly the pages
    /// its length requires.
    pub open spec fn wf(self) -> bool {
        &&& self.address == KERNEL_LOAD_ADDRESS
        &&& self.pages == spec_page_count(self.bytes@.len())
    }
}

/// Placeholder for page-table preparation before the control transfer.
/// Whether the kernel may rely on the pre-boot environment's paging after
/// boot-services exit is deliberately left to the kernel side; nothing is
/// installed or validated here.
pub fn setup_page_tables() -> (r: Result<(), BootError>)
    ensures
        r is Ok,
{
    Ok(())
}

/// Reserves the fixed load address and copies the image into it verbatim.
///
/// The page count is computed first; a count of zero (possible only for an
/// empty input, which upstream validation already excludes) is rejected as
/// an internal-invariant guard. `granted` is what the firmware answered to
/// the address-specific allocation request: a refusal is fatal. On success
/// the placed bytes equal the input bytes exactly; no checksum or format
/// validation is performed here.
pub fn copy_kernel_to_address(kernel_data: &Vec<u8>, granted: bool) -> (r: Result<
    PlacedKernel,
    BootError,
>)
    ensures
        kernel_data@.len() == 0 ==> r == Result::<PlacedKernel, BootError>::Err(
            BootError::Validation(ValidationError::InvalidPageCount),
        ),
        kernel_data@.len() > 0 && !granted ==> r == Result::<PlacedKernel, BootError>::Err(
            BootError::Resource(ResourceError::AllocationFailed),
        ),
        kernel_data@.len() > 0 && granted ==> (r matches Ok(placed) && placed.wf()
            && placed.bytes@ == kernel_data@ && placed.address == KERNEL_LOAD_ADDRESS
            && placed.pages == spec_page_count(kernel_data@.len())),
{
    let pages = page_count(kernel_data.len());
    if pages == 0 {
        proof {
            if kernel_data@.len() > 0 {
                lemma_page_count_is_ceiling(kernel_data@.len());
            }
        }
        return Err(BootError::Validation(ValidationError::InvalidPageCount));
    }
    if !granted {
        return Err(BootError::Resource(ResourceError::AllocationFailed));
    }
    let mut placed_bytes: Vec<u8> = Vec::new();
    let mut i: usize = 0;
    while i < kernel_data.len()
        invariant
            i <= kernel_data@.len(),
            placed_bytes@ == kernel_data@.subrange(0, i as int),
        decreases kernel_data@.len() - i,
    {
        placed_bytes.push(kernel_data[i]);
        proof {
            assert(placed_bytes@ =~= kernel_data@.subrange(0, i + 1));
        }
        i = i + 1;
    }
    proof {
        assert(placed_bytes@ =~= kernel_data@);
    }
    Ok(PlacedKernel { address: KERNEL_LOAD_ADDRESS, pages, bytes: placed_bytes })
}

} // verus!
