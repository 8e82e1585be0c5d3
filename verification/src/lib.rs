//! Model of an x86_64 trap-delivery core: segment selectors, bit-packed
//! gate descriptors, an interrupt descriptor table, and the GDT/TSS pair
//! that wires a dedicated fault stack to the double-fault gate.

pub mod selector;
pub mod options;
pub mod idt;
pub mod gdt;
pub mod exit;
