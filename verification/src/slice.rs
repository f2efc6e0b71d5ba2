//! The type-erased runtime handle for one PWM slice.

use vstd::prelude::*;

use crate::ids::{DynSliceId, DynSliceMode};
use crate::irq::IrqRegs;
use crate::regs::{ctr_pred, ctr_succ, SliceRegs};

verus! {

/// Runtime handle bound to one physical PWM slice.
///
/// The handle owns the slice's register file and an immutable snapshot of
/// the counting mode. Exclusivity is a caller-maintained invariant: no other
/// live handle may be bound to the same physical slice, so the owned
/// register file is the authority on that slice's hardware state.
pub struct DynSlice {
    regs: SliceRegs,
    mode: DynSliceMode,
}

impl DynSlice {
    /// The slice's register file.
    pub closed spec fn hw(self) -> SliceRegs {
        self.regs
    }

    /// The identifier of the bound physical slice.
    pub open spec fn spec_id(self) -> DynSliceId {
        self.hw().id
    }

    /// The counting-mode snapshot taken at construction.
    pub closed spec fn spec_mode(self) -> DynSliceMode {
        self.mode
    }

    /// The single bit this slice occupies in each shared interrupt word.
    pub open spec fn spec_bitmask(self) -> u32 {
        1u32 << (self.spec_id().num as u32)
    }

    /// Privileged constructor: bind a handle directly to the physical slice
    /// `id`, which must be in the reset state.
    ///
    /// Caller obligation (not runtime-checked): no other live handle may be
    /// bound to the same physical slice while this one exists.
    pub fn new(id: DynSliceId, mode: DynSliceMode) -> (r: DynSlice)
        requires
            id.wf(),
        ensures
            r.spec_id() == id,
            r.spec_mode() == mode,
            r.hw() == SliceRegs::reset_state(id),
    {
        DynSlice { regs: SliceRegs::at_reset(id), mode }
    }

    /// The identifier of the bound physical slice.
    pub fn id(&self) -> (r: DynSliceId)
        ensures
            r == self.spec_id(),
    {
        self.regs.read_id()
    }

    /// Return a copy of the counting-mode snapshot.
    pub fn mode(&self) -> (r: DynSliceMode)
        ensures
            r == self.spec_mode(),
    {
        self.mode
    }

    /// A copy of the slice's register file, for observation.
    pub fn registers(&self) -> (r: SliceRegs)
        ensures
            r == self.hw(),
    {
        self.regs
    }

    /// Set a default configuration for the slice: phase-correct off,
    /// divisor 1 + 0/16, no inversion, wrap at the full 16-bit range,
    /// counter reset, both duty registers at zero. The run bit is untouched.
    pub fn default_config(&mut self)
        ensures
            final(self).spec_mode() == old(self).spec_mode(),
            final(self).hw() == (SliceRegs {
                ph_correct: false,
                div_int: 1,
                div_frac: 0,
                inv_a: false,
                inv_b: false,
                top: 0xffff,
                ctr: 0,
                cc_a: 0,
                cc_b: 0,
                ..old(self).hw()
            }),
    {
        self.regs.write_ph_correct(false);
        self.regs.write_div_int(1);  // No divisor
        self.regs.write_div_frac(0);  // No divisor
        self.regs.write_inv_a(false);  // Don't invert the channel
        self.regs.write_inv_b(false);  // Don't invert the channel
        self.regs.write_top(0xffff);  // Wrap at max
        self.regs.write_ctr(0x0000);  // Reset the counter
        self.regs.write_cc_a(0);  // Default duty cycle of 0%
        self.regs.write_cc_b(0);  // Default duty cycle of 0%
    }

    /// Advance the phase by one count.
    ///
    /// Usage hazard (documented, not guarded): the counter must be running
    /// at less than full speed (`div_int + div_frac / 16 > 1`), or the
    /// physical peripheral ignores the nudge.
    pub fn advance_phase(&mut self)
        ensures
            final(self).spec_mode() == old(self).spec_mode(),
            final(self).hw() == (SliceRegs { ctr: ctr_succ(old(self).hw().ctr), ..old(self).hw() }),
    {
        self.regs.advance_phase()
    }

    /// Retard the phase by one count.
    ///
    /// Usage hazard (documented, not guarded): the counter must be running
    /// at less than full speed (`div_int + div_frac / 16 > 1`), or the
    /// physical peripheral ignores the nudge.
    pub fn retard_phase(&mut self)
        ensures
            final(self).spec_mode() == old(self).spec_mode(),
            final(self).hw() == (SliceRegs { ctr: ctr_pred(old(self).hw().ctr), ..old(self).hw() }),
    {
        self.regs.retard_phase()
    }

    /// Enable phase-correct (center-aligned) counting.
    pub fn set_ph_correct(&mut self)
        ensures
            final(self).spec_mode() == old(self).spec_mode(),
            final(self).hw() == (SliceRegs { ph_correct: true, ..old(self).hw() }),
    {
        self.regs.write_ph_correct(true)
    }

    /// Disable phase-correct (center-aligned) counting.
    pub fn clr_ph_correct(&mut self)
        ensures
            final(self).spec_mode() == old(self).spec_mode(),
            final(self).hw() == (SliceRegs { ph_correct: false, ..old(self).hw() }),
    {
        self.regs.write_ph_correct(false)
    }

    /// Set the slice's master run bit.
    pub fn enable(&mut self)
        ensures
            final(self).spec_mode() == old(self).spec_mode(),
            final(self).hw() == (SliceRegs { enable: true, ..old(self).hw() }),
    {
        self.regs.write_enable(true);
    }

    /// Clear the slice's master run bit. Channel duty shadow state is not
    /// affected — that belongs to the channel handles.
    pub fn disable(&mut self)
        ensures
            final(self).spec_mode() == old(self).spec_mode(),
            final(self).hw() == (SliceRegs { enable: false, ..old(self).hw() }),
    {
        self.regs.write_enable(false)
    }

    /// Set the integer part of the clock divisor.
    pub fn set_div_int(&mut self, value: u8)
        ensures
            final(self).spec_mode() == old(self).spec_mode(),
            final(self).hw() == (SliceRegs { div_int: value, ..old(self).hw() }),
    {
        self.regs.write_div_int(value)
    }

    /// Set the fractional part of the clock divisor.
    pub fn set_div_frac(&mut self, value: u8)
        ensures
            final(self).spec_mode() == old(self).spec_mode(),
            final(self).hw() == (SliceRegs { div_frac: value, ..old(self).hw() }),
    {
        self.regs.write_div_frac(value)
    }

    /// Get the counter register value.
    pub fn get_counter(&self) -> (r: u16)
        ensures
            r == self.hw().ctr,
    {
        self.regs.read_ctr()
    }

    /// Set the counter register value.
    pub fn set_counter(&mut self, value: u16)
        ensures
            final(self).spec_mode() == old(self).spec_mode(),
            final(self).hw() == (SliceRegs { ctr: value, ..old(self).hw() }),
    {
        self.regs.write_ctr(value)
    }

    /// Get the wrap ("top") register value.
    pub fn get_top(&self) -> (r: u16)
        ensures
            r == self.hw().top,
    {
        self.regs.read_top()
    }

    /// Set the wrap ("top") register value.
    pub fn set_top(&mut self, value: u16)
        ensures
            final(self).spec_mode() == old(self).spec_mode(),
            final(self).hw() == (SliceRegs { top: value, ..old(self).hw() }),
    {
        self.regs.write_top(value)
    }

    /// The interrupt bitmask corresponding to this slice: `1 << id`.
    pub fn bitmask(&self) -> (r: u32)
        requires
            self.spec_id().wf(),
        ensures
            r == self.spec_bitmask(),
            r == (1u32 << (self.spec_id().num as u32)),
    {
        1u32 << (self.regs.read_id().num as u32)
    }

    /// Enable the overflow interrupt of this slice: atomically set this
    /// slice's bit in the shared interrupt-enable word, leaving every other
    /// bit alone.
    pub fn enable_interrupt(&self, irq: &mut IrqRegs)
        requires
            self.spec_id().wf(),
        ensures
            *final(irq) == old(irq).with_enable_set(self.spec_bitmask()),
    {
        irq.set_enable_bits(self.bitmask());
    }

    /// Disable the overflow interrupt of this slice: atomically clear this
    /// slice's bit in the shared interrupt-enable word, leaving every other
    /// bit alone.
    pub fn disable_interrupt(&self, irq: &mut IrqRegs)
        requires
            self.spec_id().wf(),
        ensures
            *final(irq) == old(irq).with_enable_cleared(self.spec_bitmask()),
    {
        irq.clear_enable_bits(self.bitmask());
    }

    /// Did this slice trigger an overflow interrupt? Pure read of this
    /// slice's bit in the shared status word; no side effect.
    pub fn has_overflown(&self, irq: &IrqRegs) -> (r: bool)
        requires
            self.spec_id().wf(),
        ensures
            r == (irq.ints & self.spec_bitmask() == self.spec_bitmask()),
    {
        let mask = self.bitmask();
        irq.read_status() & mask == mask
    }

    /// Mark the overflow interrupt of this slice handled: clear this slice's
    /// bit in the shared status word, leaving every other bit alone.
    /// Clearing an already-clear bit changes nothing.
    pub fn clear_interrupt(&self, irq: &mut IrqRegs)
        requires
            self.spec_id().wf(),
        ensures
            *final(irq) == old(irq).with_status_cleared(self.spec_bitmask()),
    {
        irq.clear_status_bits(self.bitmask());
    }

    /// Force the interrupt of this slice: atomically set this slice's bit in
    /// the shared force word.
    ///
    /// Caller obligation: the force bit is not cleared by hardware when the
    /// interrupt is serviced; without a later [`DynSlice::clear_force_interrupt`]
    /// the interrupt stays asserted.
    pub fn force_interrupt(&self, irq: &mut IrqRegs)
        requires
            self.spec_id().wf(),
        ensures
            *final(irq) == old(irq).with_force_set(self.spec_bitmask()),
    {
        irq.set_force_bits(self.bitmask());
    }

    /// Stop forcing the interrupt of this slice: atomically clear this
    /// slice's bit in the shared force word.
    pub fn clear_force_interrupt(&self, irq: &mut IrqRegs)
        requires
            self.spec_id().wf(),
        ensures
            *final(irq) == old(irq).with_force_cleared(self.spec_bitmask()),
    {
        irq.clear_force_bits(self.bitmask());
    }
}

/// Law: distinct valid slices occupy distinct bits of the shared interrupt
/// words, and each slice's bitmask is exactly `1 << id`.
pub proof fn lemma_bitmask_distinct(a: DynSlice, b: DynSlice)
    requires
        a.spec_id().wf(),
        b.spec_id().wf(),
        a.spec_id().num != b.spec_id().num,
    ensures
        a.spec_bitmask() != b.spec_bitmask(),
        a.spec_bitmask() == (1u32 << (a.spec_id().num as u32)),
        b.spec_bitmask() == (1u32 << (b.spec_id().num as u32)),
{
    let i = a.spec_id().num;
    let j = b.spec_id().num;
    assert(1u32 << (i as u32) != 1u32 << (j as u32)) by (bit_vector)
        requires
            i < 8,
            j < 8,
            i != j,
    ;
}

/// Law: the interrupt operations of one slice never disturb another slice's
/// bits in the shared words — after slice `a` enables, disables, clears or
/// forces its interrupt, every bit belonging to a different valid slice `b`
/// reads exactly as before. This is what makes the shared interrupt words
/// safe to manipulate from independent handles.
pub proof fn lemma_interrupt_ops_leave_other_slices_alone(a: DynSlice, b: DynSlice, irq: IrqRegs)
    requires
        a.spec_id().wf(),
        b.spec_id().wf(),
        a.spec_id().num != b.spec_id().num,
    ensures
        irq.with_enable_set(a.spec_bitmask()).inte & b.spec_bitmask() == irq.inte
            & b.spec_bitmask(),
        irq.with_enable_cleared(a.spec_bitmask()).inte & b.spec_bitmask() == irq.inte
            & b.spec_bitmask(),
        irq.with_status_cleared(a.spec_bitmask()).ints & b.spec_bitmask() == irq.ints
            & b.spec_bitmask(),
        irq.with_force_set(a.spec_bitmask()).intf & b.spec_bitmask() == irq.intf
            & b.spec_bitmask(),
        irq.with_force_cleared(a.spec_bitmask()).intf & b.spec_bitmask() == irq.intf
            & b.spec_bitmask(),
{
    let i = a.spec_id().num;
    let j = b.spec_id().num;
    let x = irq.inte;
    let y = irq.ints;
    let z = irq.intf;
    assert(((x | (1u32 << (i as u32))) & (1u32 << (j as u32)) == x & (1u32 << (j as u32))) && ((x
        & !(1u32 << (i as u32))) & (1u32 << (j as u32)) == x & (1u32 << (j as u32))) && ((y & !(
    1u32 << (i as u32))) & (1u32 << (j as u32)) == y & (1u32 << (j as u32))) && ((z | (1u32 << (
    i as u32))) & (1u32 << (j as u32)) == z & (1u32 << (j as u32))) && ((z & !(1u32 << (i as u32)))
        & (1u32 << (j as u32)) == z & (1u32 << (j as u32)))) by (bit_vector)
        requires
            i < 8,
            j < 8,
            i != j,
    ;
}

/// Law: acknowledging a slice's overflow interrupt is idempotent — clearing
/// it twice in succession leaves the interrupt block exactly as clearing it
/// once does.
pub proof fn lemma_clear_interrupt_idempotent(s: DynSlice, irq: IrqRegs)
    ensures
        irq.with_status_cleared(s.spec_bitmask()).with_status_cleared(s.spec_bitmask())
            == irq.with_status_cleared(s.spec_bitmask()),
{
    let x = irq.ints;
    let m = s.spec_bitmask();
    assert(x & !m & !m == x & !m) by (bit_vector);
}

} // verus!
