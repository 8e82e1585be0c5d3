//! Segment selectors: 16-bit references into a descriptor table, with an
//! index (bits 3..=15), a table indicator (bit 2; 0 = GDT) and a requested
//! privilege level (bits 0..=1).

use vstd::prelude::*;

verus! {

/// Index part of a selector word: bits 3..=15.
pub open spec fn sel_index(w: u16) -> u16 {
    w >> 3
}

/// Table indicator of a selector word: bit 2 (0 = GDT, 1 = LDT).
pub open spec fn sel_ti(w: u16) -> u16 {
    (w >> 2) & 1
}

/// Requested privilege level of a selector word: bits 0..=1.
pub open spec fn sel_rpl(w: u16) -> u16 {
    w & 3
}

/// A 16-bit segment selector.
#[derive(Debug, Clone, Copy, PartialEq, Eq, Structural)]
pub struct SegmentSelector(pub u16);

impl SegmentSelector {
    /// Builds a selector for a GDT entry from its index and a requested
    /// privilege level.
    pub fn new(index: u16, rpl: u16) -> (r: SegmentSelector)
        requires
            index < 0x2000,
            rpl < 4,
        ensures
            r.0 == (index << 3) | rpl,
            sel_index(r.0) == index,
            sel_ti(r.0) == 0,
            sel_rpl(r.0) == rpl,
    {
        let w: u16 = (index << 3) | rpl;
        proof {
            assert(index < 0x2000 && rpl < 4 ==> sel_index((index << 3) | rpl) == index
                && sel_ti((index << 3) | rpl) == 0
                && sel_rpl((index << 3) | rpl) == rpl) by (bit_vector);
        }
        SegmentSelector(w)
    }

    /// The null selector: index 0 in the GDT with privilege level 0.
    pub fn null() -> (r: SegmentSelector)
        ensures
            r.0 == 0,
    {
        SegmentSelector(0)
    }
}

/// Relies on the x86_64 crate's `CS::get_reg`, which reads the current value
/// of the CS segment register. The value is machine state, so nothing is
/// promised of it.
#[verifier::external_body]
pub(crate) fn current_cs() -> SegmentSelector {
    SegmentSelector(
        <x86_64::registers::segmentation::CS as x86_64::registers::segmentation::Segment>::get_reg().0,
    )
}

} // verus!
