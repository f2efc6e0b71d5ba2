//! Plain-value model of the peripheral-wide interrupt register block.
//!
//! The interrupt-enable, interrupt-status and interrupt-force words are
//! shared by all slices: bit `i` of each word belongs to slice `i`. Many
//! otherwise-independent slice handles therefore operate on this one block,
//! each touching only its own bit. The operations below model the atomic
//! set-bits / clear-bits primitives that make such sharing safe on the
//! physical peripheral: each one changes exactly the given bits of exactly
//! one word and leaves every other bit and word alone.

use vstd::prelude::*;

verus! {

/// The shared interrupt register block, as plain values.
#[derive(PartialEq, Eq, Structural, Clone, Copy, Debug)]
pub struct IrqRegs {
    /// Interrupt-enable word: bit `i` enables slice `i`'s overflow interrupt.
    pub inte: u32,
    /// Interrupt-status word: bit `i` is set while slice `i` has an
    /// unacknowledged overflow. The hardware sets these bits; software
    /// clears them through [`IrqRegs::clear_status_bits`].
    pub ints: u32,
    /// Interrupt-force word: bit `i` asserts slice `i`'s interrupt until
    /// software clears it again.
    pub intf: u32,
}

impl IrqRegs {
    /// The block with the given bits of the enable word set.
    pub open spec fn with_enable_set(self, mask: u32) -> IrqRegs {
        IrqRegs { inte: self.inte | mask, ..self }
    }

    /// The block with the given bits of the enable word cleared.
    pub open spec fn with_enable_cleared(self, mask: u32) -> IrqRegs {
        IrqRegs { inte: self.inte & !mask, ..self }
    }

    /// The block with the given bits of the status word cleared.
    pub open spec fn with_status_cleared(self, mask: u32) -> IrqRegs {
        IrqRegs { ints: self.ints & !mask, ..self }
    }

    /// The block with the given bits of the force word set.
    pub open spec fn with_force_set(self, mask: u32) -> IrqRegs {
        IrqRegs { intf: self.intf | mask, ..self }
    }

    /// The block with the given bits of the force word cleared.
    pub open spec fn with_force_cleared(self, mask: u32) -> IrqRegs {
        IrqRegs { intf: self.intf & !mask, ..self }
    }

    /// A block with every interrupt disabled, none pending and none forced —
    /// the reset state of the peripheral's interrupt registers.
    pub fn new() -> (r: IrqRegs)
        ensures
            r == (IrqRegs { inte: 0, ints: 0, intf: 0 }),
    {
        IrqRegs { inte: 0, ints: 0, intf: 0 }
    }

    /// Atomically set bits of the interrupt-enable word.
    pub fn set_enable_bits(&mut self, mask: u32)
        ensures
            *final(self) == old(self).with_enable_set(mask),
    {
        self.inte = self.inte | mask;
    }

    /// Atomically clear bits of the interrupt-enable word.
    pub fn clear_enable_bits(&mut self, mask: u32)
        ensures
            *final(self) == old(self).with_enable_cleared(mask),
    {
        self.inte = self.inte & !mask;
    }

    /// Read the interrupt-status word.
    pub fn read_status(&self) -> (r: u32)
        ensures
            r == self.ints,
    {
        self.ints
    }

    /// Acknowledge overflows: clear the given bits of the status word.
    ///
    /// On the physical peripheral this is a write of `mask` to the
    /// write-one-to-clear status register; bits outside `mask` are untouched.
    pub fn clear_status_bits(&mut self, mask: u32)
        ensures
            *final(self) == old(self).with_status_cleared(mask),
    {
        self.ints = self.ints & !mask;
    }

    /// Atomically set bits of the interrupt-force word.
    pub fn set_force_bits(&mut self, mask: u32)
        ensures
            *final(self) == old(self).with_force_set(mask),
    {
        self.intf = self.intf | mask;
    }

    /// Atomically clear bits of the interrupt-force word.
    pub fn clear_force_bits(&mut self, mask: u32)
        ensures
            *final(self) == old(self).with_force_cleared(mask),
    {
        self.intf = self.intf & !mask;
    }
}

} // verus!
