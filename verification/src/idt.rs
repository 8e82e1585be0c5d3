//! The interrupt descriptor table: a fixed array of 16-byte gate
//! descriptors, indexed by trap vector. A gate holds the handler address
//! split into three fields, the code-segment selector the CPU loads on
//! entry, and an options word; vectors never installed stay missing
//! (present bit clear, zero handler address).

use vstd::prelude::*;
use vstd::pervasive::VecAdditionalExecFns;
use crate::options::EntryOptions;
use crate::options::opt_present;
use crate::options::opt_dpl;
use crate::options::opt_ist_index;
use crate::options::opt_interrupts_disabled;
use crate::options::opt_wf;
use crate::selector::SegmentSelector;
use crate::selector::current_cs;
use crate::gdt::DOUBLE_FAULT_IST_INDEX;

verus! {

/// Number of gates this table holds.
pub const IDT_ENTRIES: usize = 16;

/// Size of one packed gate descriptor in memory.
pub const ENTRY_BYTES: usize = 16;

/// One gate descriptor. The handler address is split into a low word, a
/// middle word and a high doubleword; the trailing doubleword is reserved
/// and must stay zero.
#[derive(Debug, Clone, Copy, PartialEq, Eq, Structural)]
pub struct Entry {
    pub pointer_low: u16,
    pub gdt_selector: SegmentSelector,
    pub options: EntryOptions,
    pub pointer_middle: u16,
    pub pointer_high: u32,
    pub reserved: u32,
}

impl Entry {
    /// The handler address the three pointer fields recombine to.
    pub open spec fn handler_addr(self) -> u64 {
        (self.pointer_low as u64) | ((self.pointer_middle as u64) << 16) | (
        (self.pointer_high as u64) << 32)
    }

    /// A gate that was never installed: present bit clear, zero handler
    /// address, null selector, minimal options, reserved zero.
    pub open spec fn is_missing(self) -> bool {
        &&& self.pointer_low == 0
        &&& self.gdt_selector.0 == 0
        &&& self.options.0 == 0x0e00
        &&& self.pointer_middle == 0
        &&& self.pointer_high == 0
        &&& self.reserved == 0
    }

    /// A freshly installed gate: the given handler address and selector,
    /// the fresh options word (present, interrupt gate, privilege level 0,
    /// no IST slot) and reserved zero.
    pub open spec fn is_gate_for(self, gdt_selector: SegmentSelector, handler: u64) -> bool {
        &&& self.handler_addr() == handler
        &&& self.gdt_selector == gdt_selector
        &&& self.options.0 == 0x8e00
        &&& self.reserved == 0
    }

    /// Builds a gate for the given selector and handler address.
    pub fn new(gdt_selector: SegmentSelector, handler: u64) -> (r: Entry)
        ensures
            r.is_gate_for(gdt_selector, handler),
            r.pointer_low == handler as u16,
            r.pointer_middle == (handler >> 16) as u16,
            r.pointer_high == (handler >> 32) as u32,
    {
        let e = Entry {
            pointer_low: handler as u16,
            gdt_selector,
            options: EntryOptions::new(),
            pointer_middle: (handler >> 16) as u16,
            pointer_high: (handler >> 32) as u32,
            reserved: 0,
        };
        proof {
            assert(((handler as u16) as u64) | ((((handler >> 16) as u16) as u64) << 16) | ((((
            handler >> 32) as u32) as u64) << 32) == handler) by (bit_vector);
        }
        e
    }

    /// Builds a gate for a vector that is not installed.
    pub fn missing() -> (r: Entry)
        ensures
            r.is_missing(),
            r.handler_addr() == 0,
            !opt_present(r.options.0),
    {
        let e = Entry {
            pointer_low: 0,
            gdt_selector: SegmentSelector::null(),
            options: EntryOptions::minimal(),
            pointer_middle: 0,
            pointer_high: 0,
            reserved: 0,
        };
        proof {
            assert(0u64 | (0u64 << 16) | (0u64 << 32) == 0u64) by (bit_vector);
        }
        e
    }
}

/// The ten-byte value the IDT-register load instruction takes: the
/// table's linear base address and its limit, one less than its size.
#[derive(Debug, Clone, Copy, PartialEq, Eq, Structural)]
pub struct DescriptorTablePointer {
    pub limit: u16,
    pub base: u64,
}

/// The interrupt descriptor table. Construction is single-threaded:
/// every gate starts missing, `set_handler` installs one vector at a
/// time, and once the table is handed to the CPU it must never change.
pub struct Idt {
    entries: Vec<Entry>,
    installed: Ghost<Set<int>>,
}

impl Idt {
    /// The table's gates, lowest vector first.
    pub closed spec fn entries(self) -> Seq<Entry> {
        self.entries@
    }

    /// The vectors that were installed so far.
    pub closed spec fn installed(self) -> Set<int> {
        self.installed@
    }

    /// The table's invariant: sixteen gates, and every vector that was
    /// never installed still holds a missing gate.
    pub open spec fn wf(self) -> bool {
        &&& self.entries().len() == IDT_ENTRIES
        &&& forall|i: int|
            0 <= i < IDT_ENTRIES && !self.installed().contains(i) ==> self.entries()[i].is_missing()
    }

    /// A table with every gate missing.
    pub fn new() -> (r: Idt)
        ensures
            r.wf(),
            r.installed() == Set::<int>::empty(),
            forall|i: int| 0 <= i < IDT_ENTRIES ==> r.entries()[i].is_missing(),
    {
        let missing = Entry::missing();
        let mut entries: Vec<Entry> = Vec::new();
        for k in 0..IDT_ENTRIES
            invariant
                entries@.len() == k,
                forall|i: int| 0 <= i < k ==> entries@[i] == missing,
                missing.is_missing(),
        {
            entries.push(missing);
        }
        proof {
            assert forall|i: int| 0 <= i < IDT_ENTRIES implies entries@[i].is_missing() by {
                assert(entries@[i] == missing);
            };
        }
        Idt { entries, installed: Ghost(Set::empty()) }
    }

    /// Installs a gate at the given vector: the given selector, the given
    /// handler address, and a fresh options word. Every other gate is
    /// kept as it was.
    pub fn set_handler_with(&mut self, entry: u8, gdt_selector: SegmentSelector, handler: u64)
        requires
            old(self).wf(),
            entry < IDT_ENTRIES,
        ensures
            final(self).wf(),
            final(self).installed() == old(self).installed().insert(entry as int),
            final(self).entries().len() == IDT_ENTRIES,
            final(self).entries()[entry as int].is_gate_for(gdt_selector, handler),
            forall|j: int|
                0 <= j < IDT_ENTRIES && j != entry as int ==> final(self).entries()[j] == old(
                    self,
                ).entries()[j],
    {
        let gate = Entry::new(gdt_selector, handler);
        self.entries.set(entry as usize, gate);
        self.installed = Ghost(self.installed@.insert(entry as int));
        proof {
            assert forall|i: int|
                0 <= i < IDT_ENTRIES && !self.installed().contains(i) implies self.entries()[i].is_missing() by {
                assert(self.entries()[i] == old(self).entries()[i]);
                assert(!old(self).installed().contains(i));
            };
        }
    }

    /// Installs a gate at the given vector, wiring in the code-segment
    /// selector the CPU holds right now. Whatever selector that read
    /// returned, that value is recorded together with the handler address
    /// and a fresh options word.
    pub fn set_handler(&mut self, entry: u8, handler: u64)
        requires
            old(self).wf(),
            entry < IDT_ENTRIES,
        ensures
            final(self).wf(),
            final(self).installed() == old(self).installed().insert(entry as int),
            final(self).entries().len() == IDT_ENTRIES,
            final(self).entries()[entry as int].handler_addr() == handler,
            final(self).entries()[entry as int].options.0 == 0x8e00,
            final(self).entries()[entry as int].reserved == 0,
            forall|j: int|
                0 <= j < IDT_ENTRIES && j != entry as int ==> final(self).entries()[j] == old(
                    self,
                ).entries()[j],
    {
        let cs = current_cs();
        self.set_handler_with(entry, cs, handler);
    }

    /// Replaces the options word of a gate that was already installed, so
    /// a caller can customize it (raise the privilege level, pick an IST
    /// slot) after `set_handler`. Every other gate is kept as it was.
    pub fn update_options(&mut self, entry: u8, options: EntryOptions)
        requires
            old(self).wf(),
            entry < IDT_ENTRIES,
            old(self).installed().contains(entry as int),
        ensures
            final(self).wf(),
            final(self).installed() == old(self).installed(),
            final(self).entries().len() == IDT_ENTRIES,
            final(self).entries()[entry as int].options == options,
            final(self).entries()[entry as int].pointer_low == old(self).entries()[entry as int].pointer_low,
            final(self).entries()[entry as int].pointer_middle == old(self).entries()[entry as int].pointer_middle,
            final(self).entries()[entry as int].pointer_high == old(self).entries()[entry as int].pointer_high,
            final(self).entries()[entry as int].gdt_selector == old(self).entries()[entry as int].gdt_selector,
            final(self).entries()[entry as int].reserved == old(self).entries()[entry as int].reserved,
            final(self).entries()[entry as int].handler_addr() == old(self).entries()[entry as int].handler_addr(),
            forall|j: int|
                0 <= j < IDT_ENTRIES && j != entry as int ==> final(self).entries()[j] == old(
                    self,
                ).entries()[j],
    {
        let current = *self.entry(entry);
        let updated = Entry { options, ..current };
        self.entries.set(entry as usize, updated);
    }

    /// Reads a vector's gate.
    pub fn entry(&self, entry: u8) -> (r: &Entry)
        requires
            self.wf(),
            entry < IDT_ENTRIES,
        ensures
            *r == self.entries()[entry as int],
    {
        &self.entries[entry as usize]
    }

    /// The value the IDT register holds once a table placed at the given
    /// base address is loaded: that base, and a limit of one less than
    /// the table's size in bytes.
    pub fn pointer(&self, base: u64) -> (r: DescriptorTablePointer)
        requires
            self.wf(),
        ensures
            r.base == base,
            r.limit == IDT_ENTRIES * ENTRY_BYTES - 1,
    {
        DescriptorTablePointer { limit: (IDT_ENTRIES * ENTRY_BYTES - 1) as u16, base }
    }
}

/// Every gate a `set_handler` call installed has the present bit set,
/// the selector and handler address that went in, privilege level 0, no
/// IST slot, interrupts masked on entry, its type-nibble high bits set,
/// the reserved option bits zero, and a zero reserved doubleword.
pub proof fn lemma_installed_gate(e: Entry, gdt_selector: SegmentSelector, handler: u64)
    requires
        e.is_gate_for(gdt_selector, handler),
    ensures
        opt_present(e.options.0),
        opt_dpl(e.options.0) == 0,
        opt_ist_index(e.options.0) == 0,
        opt_interrupts_disabled(e.options.0),
        opt_wf(e.options.0),
        e.handler_addr() == handler,
        e.gdt_selector == gdt_selector,
        e.reserved == 0,
{
    assert(opt_present(0x8e00) && opt_dpl(0x8e00) == 0 && opt_ist_index(0x8e00) == 0
        && opt_interrupts_disabled(0x8e00) && opt_wf(0x8e00)) by (bit_vector);
}

/// Every vector that was never installed still holds a missing gate: the
/// present bit is clear and the handler address is zero.
pub proof fn lemma_uninstalled_gate(idt: Idt, vector: int)
    requires
        idt.wf(),
        0 <= vector < IDT_ENTRIES,
        !idt.installed().contains(vector),
    ensures
        idt.entries()[vector].is_missing(),
        !opt_present(idt.entries()[vector].options.0),
        idt.entries()[vector].handler_addr() == 0,
{
    assert(!opt_present(0x0e00)) by (bit_vector);
    assert((0u16 as u64) | ((0u16 as u64) << 16) | ((0u32 as u64) << 32) == 0) by (bit_vector);
}

/// Builds the table this kernel generation installs, given the handler
/// addresses: divide-by-zero at vector 0, breakpoint at vector 3, and
/// double fault at vector 8 dispatched through the dedicated fault-stack
/// IST slot. Every gate records the code-segment selector the CPU held
/// while the table was built; every other vector stays missing.
pub fn default_idt(divide_by_zero: u64, breakpoint: u64, double_fault: u64) -> (r: Idt)
    ensures
        r.wf(),
        r.installed() == Set::<int>::empty().insert(0).insert(3).insert(8),
        r.entries()[0].handler_addr() == divide_by_zero,
        r.entries()[0].options.0 == 0x8e00,
        r.entries()[3].handler_addr() == breakpoint,
        r.entries()[3].options.0 == 0x8e00,
        r.entries()[8].handler_addr() == double_fault,
        opt_present(r.entries()[8].options.0),
        opt_dpl(r.entries()[8].options.0) == 0,
        opt_ist_index(r.entries()[8].options.0) == DOUBLE_FAULT_IST_INDEX + 1,
        opt_interrupts_disabled(r.entries()[8].options.0),
        opt_wf(r.entries()[8].options.0),
        forall|i: int|
            0 <= i < IDT_ENTRIES && i != 0 && i != 3 && i != 8 ==> r.entries()[i].is_missing(),
{
    let mut idt = Idt::new();
    idt.set_handler(0, divide_by_zero);
    idt.set_handler(3, breakpoint);
    idt.set_handler(8, double_fault);
    let mut options = EntryOptions::new();
    options.set_stack_index(DOUBLE_FAULT_IST_INDEX + 1);
    idt.update_options(8, options);
    idt
}

} // verus!
