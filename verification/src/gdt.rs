//! The global descriptor table and the task state segment: a fixed table
//! holding a null descriptor, a kernel code segment and a two-slot TSS
//! descriptor, and a TSS whose interrupt stack table wires a dedicated,
//! statically reserved fault stack to the double-fault gate.

use vstd::prelude::*;
use vstd::pervasive::VecAdditionalExecFns;
use crate::selector::SegmentSelector;
use crate::selector::sel_index;
use crate::selector::sel_rpl;
use crate::selector::sel_ti;
use crate::idt::DescriptorTablePointer;

verus! {

/// The IST slot (counting from zero) reserved for the double-fault gate.
pub const DOUBLE_FAULT_IST_INDEX: u16 = 0;

/// Size of one page of the fault stack.
pub const PAGE_SIZE: u64 = 4096;

/// Size of the statically reserved fault stack: five pages.
pub const FAULT_STACK_SIZE: u64 = 5 * PAGE_SIZE;

/// Size in bytes of the packed task state segment. The I/O-permission
/// bitmap offset is set to this value, just past the structure's end,
/// which disables the bitmap.
pub const TSS_SIZE_BYTES: u16 = 104;

/// The 64-bit kernel code segment descriptor: executable, present,
/// privilege level 0, long mode, maximal limit.
pub const KERNEL_CODE_DESCRIPTOR: u64 = 0x00af_9b00_0000_ffff;

/// Low slot of the two-slot TSS descriptor for a TSS at `base`: limit
/// 103, base bits 0..=23 and 24..=31 in their fields, type 0b1001
/// (available 64-bit TSS) and the present bit.
pub open spec fn tss_descriptor_low(base: u64) -> u64 {
    0x67u64 | ((base & 0xffffff) << 16) | (0x89u64 << 40) | (((base >> 24) & 0xff) << 56)
}

/// High slot of the two-slot TSS descriptor: base bits 32..=63.
pub open spec fn tss_descriptor_high(base: u64) -> u64 {
    base >> 32
}

/// The base address a two-slot TSS descriptor points at.
pub open spec fn tss_descriptor_base(low: u64, high: u64) -> u64 {
    ((low >> 16) & 0xffffff) | (((low >> 56) & 0xff) << 24) | (high << 32)
}

/// The TSS descriptor references exactly the segment it was built for:
/// reading the base back out of the two slots yields the address that
/// went in.
pub proof fn lemma_tss_descriptor_base(base: u64)
    ensures
        tss_descriptor_base(tss_descriptor_low(base), tss_descriptor_high(base)) == base,
{
    assert(tss_descriptor_base(tss_descriptor_low(base), tss_descriptor_high(base)) == base)
        by (bit_vector);
}

/// A task state segment: three ring-transition stack pointers, seven
/// interrupt-stack-table pointers, and the I/O-permission-bitmap offset.
pub struct TaskStateSegment {
    pub privilege_stack_table: Vec<u64>,
    pub interrupt_stack_table: Vec<u64>,
    pub iomap_base: u16,
}

impl TaskStateSegment {
    /// The segment's invariant: three ring stacks and seven IST slots.
    pub open spec fn wf(self) -> bool {
        &&& self.privilege_stack_table@.len() == 3
        &&& self.interrupt_stack_table@.len() == 7
    }
}

/// Builds the task state segment: every stack pointer starts at zero,
/// the I/O bitmap is disabled, and the double-fault IST slot holds the
/// top of the fault stack (the address just past the buffer, since
/// stacks grow downward).
pub fn build_tss(fault_stack_base: u64, fault_stack_size: u64) -> (r: TaskStateSegment)
    requires
        fault_stack_base + fault_stack_size <= u64::MAX,
    ensures
        r.wf(),
        r.interrupt_stack_table@[DOUBLE_FAULT_IST_INDEX as int] == fault_stack_base
            + fault_stack_size,
        forall|i: int|
            0 <= i < 7 && i != DOUBLE_FAULT_IST_INDEX ==> r.interrupt_stack_table@[i] == 0,
        forall|i: int| 0 <= i < 3 ==> r.privilege_stack_table@[i] == 0,
        r.iomap_base == TSS_SIZE_BYTES,
{
    let mut privilege_stack_table: Vec<u64> = Vec::new();
    for k in 0..3usize
        invariant
            privilege_stack_table@.len() == k,
            forall|i: int| 0 <= i < k ==> privilege_stack_table@[i] == 0,
    {
        privilege_stack_table.push(0);
    }
    let mut interrupt_stack_table: Vec<u64> = Vec::new();
    for k in 0..7usize
        invariant
            interrupt_stack_table@.len() == k,
            forall|i: int| 0 <= i < k ==> interrupt_stack_table@[i] == 0,
    {
        interrupt_stack_table.push(0);
    }
    let top = fault_stack_base + fault_stack_size;
    interrupt_stack_table.set(DOUBLE_FAULT_IST_INDEX as usize, top);
    TaskStateSegment { privilege_stack_table, interrupt_stack_table, iomap_base: TSS_SIZE_BYTES }
}

/// The global descriptor table: a short sequence of 8-byte descriptors,
/// slot 0 mandatorily null; once loaded it never changes.
pub struct Gdt {
    pub table: Vec<u64>,
}

impl Gdt {
    /// The table's invariant: slot 0 is null, and the table is no longer
    /// than the eight slots this kernel generation could ever use.
    pub open spec fn wf(self) -> bool {
        &&& 1 <= self.table@.len() <= 8
        &&& self.table@[0] == 0
    }

    /// Reads the descriptor at the given slot.
    pub fn descriptor(&self, index: usize) -> (r: u64)
        requires
            index < self.table@.len(),
        ensures
            r == self.table@[index as int],
    {
        self.table[index]
    }

    /// Number of descriptor slots in use.
    pub fn len(&self) -> (r: usize)
        ensures
            r == self.table@.len(),
    {
        self.table.len()
    }

    /// The value the GDT-register load instruction takes for a table
    /// placed at the given base address: that base, and a limit of one
    /// less than the table's size in bytes.
    pub fn pointer(&self, base: u64) -> (r: DescriptorTablePointer)
        requires
            self.wf(),
        ensures
            r.base == base,
            r.limit == self.table@.len() * 8 - 1,
    {
        DescriptorTablePointer { limit: (self.table.len() * 8 - 1) as u16, base }
    }
}

/// Builds the descriptor table for a TSS at the given address: a null
/// descriptor, the kernel code segment, then the two TSS slots, in that
/// order and nothing else. Also returns the kernel code selector (GDT
/// index 1, privilege 0) and the TSS selector (GDT index 2, privilege 0).
pub fn build_gdt(tss_base: u64) -> (r: (Gdt, SegmentSelector, SegmentSelector))
    ensures
        r.0.wf(),
        r.0.table@.len() == 4,
        r.0.table@[0] == 0,
        r.0.table@[1] == KERNEL_CODE_DESCRIPTOR,
        r.0.table@[2] == tss_descriptor_low(tss_base),
        r.0.table@[3] == tss_descriptor_high(tss_base),
        r.1.0 == 8 && sel_index(r.1.0) == 1 && sel_rpl(r.1.0) == 0 && sel_ti(r.1.0) == 0,
        r.2.0 == 16 && sel_index(r.2.0) == 2 && sel_rpl(r.2.0) == 0 && sel_ti(r.2.0) == 0,
{
    let mut table: Vec<u64> = Vec::new();
    table.push(0);
    table.push(KERNEL_CODE_DESCRIPTOR);
    let low: u64 = 0x67u64 | ((tss_base & 0xffffff) << 16) | (0x89u64 << 40) | (((tss_base >> 24)
        & 0xff) << 56);
    let high: u64 = tss_base >> 32;
    proof {
        assert(low == tss_descriptor_low(tss_base)) by (bit_vector)
            requires
                low == 0x67u64 | ((tss_base & 0xffffff) << 16) | (0x89u64 << 40) | (((tss_base
                    >> 24) & 0xff) << 56),
        ;
    }
    table.push(low);
    table.push(high);
    let code_selector = SegmentSelector::new(1, 0);
    let tss_selector = SegmentSelector::new(2, 0);
    proof {
        assert((1u16 << 3) | 0 == 8 && (2u16 << 3) | 0 == 16) by (bit_vector);
    }
    (Gdt { table }, code_selector, tss_selector)
}

} // verus!
