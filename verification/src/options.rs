//! The 16-bit options word of a gate descriptor: IST index (bits 0..=2),
//! reserved zero (bits 3..=7), gate type (bits 8..=11; 0b1110 interrupt
//! gate, 0b1111 trap gate), reserved zero (bit 12), descriptor privilege
//! level (bits 13..=14) and present (bit 15).

use vstd::prelude::*;

verus! {

/// Present bit of an options word: bit 15.
pub open spec fn opt_present(w: u16) -> bool {
    w & 0x8000 == 0x8000
}

/// Descriptor privilege level of an options word: bits 13..=14.
pub open spec fn opt_dpl(w: u16) -> u16 {
    (w >> 13) & 3
}

/// Interrupt-stack-table index of an options word: bits 0..=2.
/// Zero means a gate keeps the current stack; 1..=7 select an IST slot.
pub open spec fn opt_ist_index(w: u16) -> u16 {
    w & 7
}

/// Whether a gate with this word masks maskable interrupts on entry. Bit 8 is the low
/// bit of its type nibble: 0 makes an interrupt gate (IF cleared on
/// entry), 1 a trap gate (IF left as it was).
pub open spec fn opt_interrupts_disabled(w: u16) -> bool {
    w & 0x100 == 0
}

/// A well-formed options word: its type-nibble high bits (9..=11) are set,
/// and the reserved bits (3..=7 and 12) are zero.
pub open spec fn opt_wf(w: u16) -> bool {
    w & 0x0e00 == 0x0e00 && w & 0x10f8 == 0
}

/// The options word that holds the given configuration, over a minimal
/// word (gate-type high bits set, everything else zero).
pub open spec fn opt_encode(present: bool, dpl: u16, ist_index: u16, disable: bool) -> u16 {
    (0x0e00 as u16) | (if present {
        0x8000 as u16
    } else {
        0 as u16
    }) | (dpl << 13) | ist_index | (if disable {
        0 as u16
    } else {
        0x100 as u16
    })
}

/// The options word of a gate descriptor.
#[derive(Debug, Clone, Copy, PartialEq, Eq, Structural)]
pub struct EntryOptions(pub u16);

impl EntryOptions {
    /// A minimal word: only the type-nibble high bits are set. Not yet a
    /// legal installed gate, since the present bit is clear.
    pub fn minimal() -> (r: EntryOptions)
        ensures
            r.0 == 0x0e00,
            opt_wf(r.0),
            !opt_present(r.0),
            opt_dpl(r.0) == 0,
            opt_ist_index(r.0) == 0,
            opt_interrupts_disabled(r.0),
    {
        proof {
            assert(opt_wf(0x0e00) && !opt_present(0x0e00) && opt_dpl(0x0e00) == 0
                && opt_ist_index(0x0e00) == 0 && opt_interrupts_disabled(0x0e00))
                by (bit_vector);
        }
        EntryOptions(0x0e00)
    }

    /// A freshly installed gate's word: present, interrupt gate (IF
    /// cleared on entry), privilege level 0, no IST slot.
    pub fn new() -> (r: EntryOptions)
        ensures
            r.0 == 0x8e00,
            opt_wf(r.0),
            opt_present(r.0),
            opt_dpl(r.0) == 0,
            opt_ist_index(r.0) == 0,
            opt_interrupts_disabled(r.0),
    {
        let mut options = Self::minimal();
        options.set_present(true);
        options.disable_interrupts(true);
        proof {
            assert(opt_wf(0x8e00) && opt_present(0x8e00) && opt_dpl(0x8e00) == 0
                && opt_ist_index(0x8e00) == 0 && opt_interrupts_disabled(0x8e00))
                by (bit_vector);
            assert((0x0e00u16 | 0x8000u16) & 0xfeffu16 == 0x8e00u16) by (bit_vector);
        }
        options
    }

    /// Sets or clears the present bit; every other bit is kept.
    pub fn set_present(&mut self, present: bool)
        ensures
            final(self).0 == (if present {
                old(self).0 | 0x8000
            } else {
                old(self).0 & 0x7fff
            }),
            opt_present(final(self).0) == present,
            opt_dpl(final(self).0) == opt_dpl(old(self).0),
            opt_ist_index(final(self).0) == opt_ist_index(old(self).0),
            opt_interrupts_disabled(final(self).0) == opt_interrupts_disabled(old(self).0),
            opt_wf(old(self).0) ==> opt_wf(final(self).0),
            final(self).0 & 0x7fff == old(self).0 & 0x7fff,
    {
        let w: u16 = self.0;
        if present {
            self.0 = w | 0x8000;
        } else {
            self.0 = w & 0x7fff;
        }
        proof {
            assert(opt_present(w | 0x8000) && !opt_present(w & 0x7fff)
                && opt_dpl(w | 0x8000) == opt_dpl(w) && opt_dpl(w & 0x7fff) == opt_dpl(w)
                && opt_ist_index(w | 0x8000) == opt_ist_index(w)
                && opt_ist_index(w & 0x7fff) == opt_ist_index(w)
                && opt_interrupts_disabled(w | 0x8000) == opt_interrupts_disabled(w)
                && opt_interrupts_disabled(w & 0x7fff) == opt_interrupts_disabled(w)
                && (opt_wf(w) ==> opt_wf(w | 0x8000)) && (opt_wf(w) ==> opt_wf(w & 0x7fff))
                && (w | 0x8000) & 0x7fff == w & 0x7fff && (w & 0x7fff) & 0x7fff == w & 0x7fff)
                by (bit_vector);
        }
    }

    /// Chooses whether a gate with this word masks interrupts on entry: `true` makes an
    /// interrupt gate (bit 8 cleared), `false` a trap gate (bit 8 set).
    /// Every bit outside that low type bit is kept.
    pub fn disable_interrupts(&mut self, disable: bool)
        ensures
            final(self).0 == (if disable {
                old(self).0 & 0xfeff
            } else {
                old(self).0 | 0x100
            }),
            opt_interrupts_disabled(final(self).0) == disable,
            opt_present(final(self).0) == opt_present(old(self).0),
            opt_dpl(final(self).0) == opt_dpl(old(self).0),
            opt_ist_index(final(self).0) == opt_ist_index(old(self).0),
            opt_wf(old(self).0) ==> opt_wf(final(self).0),
    {
        let w: u16 = self.0;
        if disable {
            self.0 = w & 0xfeff;
        } else {
            self.0 = w | 0x100;
        }
        proof {
            assert(opt_interrupts_disabled(w & 0xfeff) && !opt_interrupts_disabled(w | 0x100)
                && opt_present(w & 0xfeff) == opt_present(w)
                && opt_present(w | 0x100) == opt_present(w)
                && opt_dpl(w & 0xfeff) == opt_dpl(w) && opt_dpl(w | 0x100) == opt_dpl(w)
                && opt_ist_index(w & 0xfeff) == opt_ist_index(w)
                && opt_ist_index(w | 0x100) == opt_ist_index(w)
                && (opt_wf(w) ==> opt_wf(w & 0xfeff)) && (opt_wf(w) ==> opt_wf(w | 0x100)))
                by (bit_vector);
        }
    }

    /// Writes the descriptor privilege level into bits 13..=14; every
    /// other bit is kept.
    pub fn set_privilege_level(&mut self, dpl: u16)
        requires
            dpl < 4,
        ensures
            final(self).0 == (old(self).0 & 0x9fff) | (dpl << 13),
            opt_dpl(final(self).0) == dpl,
            opt_present(final(self).0) == opt_present(old(self).0),
            opt_ist_index(final(self).0) == opt_ist_index(old(self).0),
            opt_interrupts_disabled(final(self).0) == opt_interrupts_disabled(old(self).0),
            opt_wf(old(self).0) ==> opt_wf(final(self).0),
    {
        let w: u16 = self.0;
        self.0 = (w & 0x9fff) | (dpl << 13);
        proof {
            assert(dpl < 4 ==> opt_dpl((w & 0x9fff) | (dpl << 13)) == dpl
                && opt_present((w & 0x9fff) | (dpl << 13)) == opt_present(w)
                && opt_ist_index((w & 0x9fff) | (dpl << 13)) == opt_ist_index(w)
                && opt_interrupts_disabled((w & 0x9fff) | (dpl << 13))
                    == opt_interrupts_disabled(w)
                && (opt_wf(w) ==> opt_wf((w & 0x9fff) | (dpl << 13)))) by (bit_vector);
        }
    }

    /// Writes the interrupt-stack-table index into bits 0..=2; every other
    /// bit is kept. Index 0 keeps the current stack; 1..=7 make the CPU
    /// switch to the matching IST slot on entry.
    pub fn set_stack_index(&mut self, index: u16)
        requires
            index < 8,
        ensures
            final(self).0 == (old(self).0 & 0xfff8) | index,
            opt_ist_index(final(self).0) == index,
            opt_present(final(self).0) == opt_present(old(self).0),
            opt_dpl(final(self).0) == opt_dpl(old(self).0),
            opt_interrupts_disabled(final(self).0) == opt_interrupts_disabled(old(self).0),
            opt_wf(old(self).0) ==> opt_wf(final(self).0),
    {
        let w: u16 = self.0;
        self.0 = (w & 0xfff8) | index;
        proof {
            assert(index < 8 ==> opt_ist_index((w & 0xfff8) | index) == index
                && opt_present((w & 0xfff8) | index) == opt_present(w)
                && opt_dpl((w & 0xfff8) | index) == opt_dpl(w)
                && opt_interrupts_disabled((w & 0xfff8) | index) == opt_interrupts_disabled(w)
                && (opt_wf(w) ==> opt_wf((w & 0xfff8) | index))) by (bit_vector);
        }
    }

    /// Reads the present bit.
    pub fn present(&self) -> (r: bool)
        ensures
            r == opt_present(self.0),
    {
        proof {
            assert((self.0 & 0x8000 == 0x8000) == opt_present(self.0)) by (bit_vector);
        }
        self.0 & 0x8000 == 0x8000
    }

    /// Reads the descriptor privilege level.
    pub fn privilege_level(&self) -> (r: u16)
        ensures
            r == opt_dpl(self.0),
    {
        (self.0 >> 13) & 3
    }

    /// Reads the interrupt-stack-table index.
    pub fn stack_index(&self) -> (r: u16)
        ensures
            r == opt_ist_index(self.0),
    {
        self.0 & 7
    }

    /// Tells whether a gate with this word masks interrupts on entry.
    pub fn interrupts_disabled(&self) -> (r: bool)
        ensures
            r == opt_interrupts_disabled(self.0),
    {
        self.0 & 0x100 == 0
    }

    /// Reads the raw options word.
    pub fn bits(&self) -> (r: u16)
        ensures
            r == self.0,
    {
        self.0
    }
}

/// Every reachable gate configuration survives the trip through the
/// options word: encoding a present bit, a privilege level, an IST index
/// and a masking choice and reading the fields back is the identity, and
/// the encoded word is well formed.
pub proof fn lemma_options_roundtrip(present: bool, dpl: u16, ist_index: u16, disable: bool)
    requires
        dpl < 4,
        ist_index < 8,
    ensures
        opt_present(opt_encode(present, dpl, ist_index, disable)) == present,
        opt_dpl(opt_encode(present, dpl, ist_index, disable)) == dpl,
        opt_ist_index(opt_encode(present, dpl, ist_index, disable)) == ist_index,
        opt_interrupts_disabled(opt_encode(present, dpl, ist_index, disable)) == disable,
        opt_wf(opt_encode(present, dpl, ist_index, disable)),
{
    assert(dpl < 4 && ist_index < 8 ==> opt_present(opt_encode(present, dpl, ist_index, disable))
        == present && opt_dpl(opt_encode(present, dpl, ist_index, disable)) == dpl
        && opt_ist_index(opt_encode(present, dpl, ist_index, disable)) == ist_index
        && opt_interrupts_disabled(opt_encode(present, dpl, ist_index, disable)) == disable
        && opt_wf(opt_encode(present, dpl, ist_index, disable))) by (bit_vector);
}

/// The other direction of the round trip: a well-formed options word is
/// exactly the encoding of the fields read out of it.
pub proof fn lemma_options_decode_encode(w: u16)
    requires
        opt_wf(w),
    ensures
        opt_encode(opt_present(w), opt_dpl(w), opt_ist_index(w), opt_interrupts_disabled(w)) == w,
{
    assert(opt_wf(w) ==> opt_encode(
        opt_present(w),
        opt_dpl(w),
        opt_ist_index(w),
        opt_interrupts_disabled(w),
    ) == w) by (bit_vector);
}

} // verus!
