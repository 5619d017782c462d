//! Kernel-side boot structures: the multiboot handshake, hex formatting for
//! diagnostics, and the boot report the kernel entry renders.

use vstd::prelude::*;

use crate::console::{spec_clear, spec_print, spec_putchar, Console, ConsoleView};

verus! {

/// Magic value the bootloader passes to the kernel entry point.
pub const MULTIBOOT_BOOTLOADER_MAGIC: u32 = 0x36d76289;

/// Magic value of the multiboot header embedded in the kernel binary.
pub const MULTIBOOT2_HEADER_MAGIC: u32 = 0xE85250D6;

/// Requested architecture: 32-bit protected mode.
pub const MULTIBOOT_ARCHITECTURE: u32 = 0;

/// Byte length of the basic multiboot header.
pub const HEADER_LENGTH: u32 = 16;

/// Value that makes the header's four words sum to zero modulo 2^32.
pub const HEADER_CHECKSUM: u32 = 0x17ADAF1A;

/// Tag type: end of tag list.
pub const TAG_END: u32 = 0;

/// Tag type: boot command line.
pub const TAG_BOOT_CMD_LINE: u32 = 1;

/// Tag type: boot loader name.
pub const TAG_BOOT_LOADER_NAME: u32 = 2;

/// Tag type: module.
pub const TAG_MODULE: u32 = 3;

/// Tag type: basic memory information.
pub const TAG_MEMORY_INFO: u32 = 4;

/// Tag type: BIOS boot device.
pub const TAG_BIOS_BOOT_DEVICE: u32 = 5;

/// Tag type: memory map.
pub const TAG_MEMORY_MAP: u32 = 6;

/// The information structure the bootloader hands to the kernel; additional
/// fields follow it in memory depending on flags.
#[derive(Clone, Copy, Debug, PartialEq, Eq, Structural)]
pub struct MultibootInfo {
    pub total_size: u32,
    pub reserved: u32,
}

/// Header of one information tag.
#[derive(Clone, Copy, Debug, PartialEq, Eq, Structural)]
pub struct TagHeader {
    pub tag_type: u32,
    pub size: u32,
}

/// The header a multiboot-compliant loader looks for in the kernel binary.
#[derive(Clone, Copy, Debug, PartialEq, Eq, Structural)]
pub struct Multiboot2Header {
    pub magic: u32,
    pub architecture: u32,
    pub header_length: u32,
    pub checksum: u32,
}

impl MultibootInfo {
    /// Whether the register value the bootloader left is the multiboot
    /// magic.
    pub fn is_valid_magic(magic: u32) -> (r: bool)
        ensures
            r == (magic == MULTIBOOT_BOOTLOADER_MAGIC),
    {
        magic == MULTIBOOT_BOOTLOADER_MAGIC
    }
}

impl Multiboot2Header {
    /// The canonical header: magic, architecture, length, and the checksum
    /// that balances them.
    pub fn new() -> (r: Multiboot2Header)
        ensures
            r == (Multiboot2Header {
                magic: MULTIBOOT2_HEADER_MAGIC,
                architecture: MULTIBOOT_ARCHITECTURE,
                header_length: HEADER_LENGTH,
                checksum: HEADER_CHECKSUM,
            }),
    {
        Multiboot2Header {
            magic: MULTIBOOT2_HEADER_MAGIC,
            architecture: MULTIBOOT_ARCHITECTURE,
            header_length: HEADER_LENGTH,
            checksum: HEADER_CHECKSUM,
        }
    }
}

/// The checksum balances the header: the four header words sum to zero
/// modulo 2^32, which is what a multiboot-compliant loader verifies.
pub proof fn lemma_header_checksum_balances()
    ensures
        ((MULTIBOOT2_HEADER_MAGIC as int) + (MULTIBOOT_ARCHITECTURE as int) + (
        HEADER_LENGTH as int) + (HEADER_CHECKSUM as int)) % 0x1_0000_0000 == 0,
{
}

/// The nibble of `num` rendered at hex position `i` (most significant
/// first) of an eight-character rendering.
pub open spec fn spec_nibble32(num: u32, i: int) -> u32 {
    (num >> (((7 - i) * 4) as u32)) & 0xf
}

/// The nibble of `num` rendered at hex position `i` (most significant
/// first) of a sixteen-character rendering.
pub open spec fn spec_nibble64(num: u64, i: int) -> u64 {
    (num >> (((15 - i) * 4) as u64)) & 0xf
}

/// The lowercase hex character of a nibble value.
pub open spec fn spec_hex_char(d: int) -> u8 {
    if d < 10 {
        (48 + d) as u8
    } else {
        (87 + d) as u8
    }
}

/// The eight lowercase hex characters of a 32-bit value, most significant
/// first.
pub fn format_u32(num: u32) -> (v: Vec<u8>)
    ensures
        v@.len() == 8,
        forall|k: int| 0 <= k < 8 ==> v@[k] == spec_hex_char(spec_nibble32(num, k) as int),
{
    let mut v: Vec<u8> = Vec::new();
    let mut i: usize = 0;
    while i < 8
        invariant
            i <= 8,
            v@.len() == i,
            forall|k: int| 0 <= k < i ==> v@[k] == spec_hex_char(spec_nibble32(num, k) as int),
        decreases 8 - i,
    {
        let shift: u32 = ((7 - i) * 4) as u32;
        let digit: u32 = (num >> shift) & 0xf;
        proof {
            assert((num >> shift) & 0xf < 16) by (bit_vector);
        }
        let c: u8 = if digit < 10 {
            48 + (digit as u8)
        } else {
            87 + (digit as u8)
        };
        v.push(c);
        i = i + 1;
    }
    v
}

/// The sixteen lowercase hex characters of a 64-bit value, most significant
/// first.
pub fn format_usize(num: u64) -> (v: Vec<u8>)
    ensures
        v@.len() == 16,
        forall|k: int| 0 <= k < 16 ==> v@[k] == spec_hex_char(spec_nibble64(num, k) as int),
{
    let mut v: Vec<u8> = Vec::new();
    let mut i: usize = 0;
    while i < 16
        invariant
            i <= 16,
            v@.len() == i,
            forall|k: int| 0 <= k < i ==> v@[k] == spec_hex_char(spec_nibble64(num, k) as int),
        decreases 16 - i,
    {
        let shift: u64 = ((15 - i) * 4) as u64;
        let digit: u64 = (num >> shift) & 0xf;
        proof {
            assert((num >> shift) & 0xf < 16) by (bit_vector);
        }
        let c: u8 = if digit < 10 {
            48 + (digit as u8)
        } else {
            87 + (digit as u8)
        };
        v.push(c);
        i = i + 1;
    }
    v
}

/// What the kernel entry concluded from what the bootloader left behind.
#[derive(Clone, Copy, Debug, PartialEq, Eq, Structural)]
pub struct BootReport {
    /// The register value matched the multiboot magic.
    pub magic_valid: bool,
    /// A valid information structure is available: the pointer is non-null
    /// and the magic matched.
    pub info_available: bool,
}

/// One rendered report line: the text followed by a newline.
pub open spec fn spec_report_line(v: ConsoleView, line: Seq<char>) -> ConsoleView {
    spec_putchar(spec_print(v, line), '\n')
}

/// Everything the boot report renders: the screen cleared, then the banner,
/// the status verdict, the information block, and the closing line.
pub open spec fn spec_boot_report(v: ConsoleView, ptr: u64, magic: u32) -> ConsoleView {
    let banner = spec_report_line(spec_clear(v), "Kernel Boot Initiated"@);
    let verdict = if magic == MULTIBOOT_BOOTLOADER_MAGIC {
        spec_report_line(banner, "Boot Status: SUCCESS"@)
    } else {
        spec_report_line(banner, "Boot Status: FAILURE - Invalid multiboot magic"@)
    };
    let block = spec_report_line(
        spec_report_line(verdict, "Kernel Information:"@),
        "------------------"@,
    );
    let info = if ptr != 0 && magic == MULTIBOOT_BOOTLOADER_MAGIC {
        spec_report_line(block, "Multiboot info available"@)
    } else {
        spec_report_line(block, "Multiboot info not available"@)
    };
    spec_report_line(info, "Boot validation complete"@)
}

/// The kernel entry's validation of its boot state: checks the magic and
/// the information pointer, and renders the outcome to the owned console.
pub fn kernel_boot_report(
    console: &mut Console,
    multiboot_info_ptr: u64,
    magic: u32,
) -> (r: BootReport)
    requires
        old(console).wf(),
    ensures
        final(console).wf(),
        final(console)@ == spec_boot_report(old(console)@, multiboot_info_ptr, magic),
        r.magic_valid == (magic == MULTIBOOT_BOOTLOADER_MAGIC),
        r.info_available == (multiboot_info_ptr != 0 && magic == MULTIBOOT_BOOTLOADER_MAGIC),
{
    console.clear_screen();
    console.println("Kernel Boot Initiated");
    let magic_valid = MultibootInfo::is_valid_magic(magic);
    if magic_valid {
        console.println("Boot Status: SUCCESS");
    } else {
        console.println("Boot Status: FAILURE - Invalid multiboot magic");
    }
    console.println("Kernel Information:");
    console.println("------------------");
    let info_available = multiboot_info_ptr != 0 && magic_valid;
    if info_available {
        console.println("Multiboot info available");
    } else {
        console.println("Multiboot info not available");
    }
    console.println("Boot validation complete");
    BootReport { magic_valid, info_available }
}

} // verus!
