//! Architecture-initialization stubs: descriptor-table construction and
//! loading. External collaborators of the boot pipeline; placeholders with
//! no behavior yet, kept as explicit signatures.

use vstd::prelude::*;

verus! {

/// The Global Descriptor Table.
#[derive(Clone, Copy, Debug, PartialEq, Eq, Structural)]
pub struct GlobalDescriptorTable {
}

impl GlobalDescriptorTable {
    /// A GDT with the default configuration.
    pub fn new() -> (r: GlobalDescriptorTable)
        ensures
            r == (GlobalDescriptorTable {  }),
    {
        GlobalDescriptorTable {  }
    }

    /// Loads the GDT into the CPU. Placeholder: the privileged load
    /// instruction is outside work and nothing is modeled yet.
    pub fn load(&self) {
    }
}

/// The Interrupt Descriptor Table.
#[derive(Clone, Copy, Debug, PartialEq, Eq, Structural)]
pub struct InterruptDescriptorTable {
}

impl InterruptDescriptorTable {
    /// An IDT with the default handlers.
    pub fn new() -> (r: InterruptDescriptorTable)
        ensures
            r == (InterruptDescriptorTable {  }),
    {
        InterruptDescriptorTable {  }
    }

    /// Loads the IDT into the CPU. Placeholder, as `GlobalDescriptorTable::load`.
    pub fn load(&self) {
    }
}

/// Architecture-specific initialization: builds and loads both tables.
pub fn init() {
    let gdt = GlobalDescriptorTable::new();
    gdt.load();
    let idt = InterruptDescriptorTable::new();
    idt.load();
}

} // verus!
