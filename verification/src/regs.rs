//! Plain-value model of one PWM slice's register file.
//!
//! The physical peripheral exposes, per slice, a phase-correct flag, a clock
//! divisor (8-bit integer and 8-bit fractional parts), per-channel inversion
//! flags, a wrap value ("top"), a free counter and one duty ("counter
//! compare") register per channel, plus the slice enable bit. This module
//! holds that register file as ordinary values, so that every operation of
//! the runtime handles can state exactly which registers it reads and
//! writes. An unverified adapter outside this crate is responsible for
//! mirroring the model onto the memory-mapped registers.

use vstd::prelude::*;

use crate::ids::{DynChannelId, DynSliceId};

verus! {

/// The counter value one tick after `c`, wrapping on the 16-bit range.
pub open spec fn ctr_succ(c: u16) -> u16 {
    if c == 0xffff {
        0
    } else {
        (c + 1) as u16
    }
}

/// The counter value one tick before `c`, wrapping on the 16-bit range.
pub open spec fn ctr_pred(c: u16) -> u16 {
    if c == 0 {
        0xffff
    } else {
        (c - 1) as u16
    }
}

/// Register file of one PWM slice, as plain values.
///
/// The slice identifier is part of the binding: it says which physical
/// slice the file belongs to and never changes after construction.
#[derive(PartialEq, Eq, Structural, Clone, Copy, Debug)]
pub struct SliceRegs {
    /// Identifier of the physical slice this register file belongs to.
    pub id: DynSliceId,
    /// Phase-correct (center-aligned) counting mode flag.
    pub ph_correct: bool,
    /// Integer part of the clock divisor.
    pub div_int: u8,
    /// Fractional part of the clock divisor (sixteenths).
    pub div_frac: u8,
    /// Output inversion flag of channel A.
    pub inv_a: bool,
    /// Output inversion flag of channel B.
    pub inv_b: bool,
    /// Counter wrap value; also the duty-cycle ceiling.
    pub top: u16,
    /// Current counter value.
    pub ctr: u16,
    /// Duty (counter compare) register of channel A.
    pub cc_a: u16,
    /// Duty (counter compare) register of channel B.
    pub cc_b: u16,
    /// Master run bit of the slice.
    pub enable: bool,
}

impl SliceRegs {
    /// The register file as the peripheral presents it after reset:
    /// divisor 1 + 0/16, wrap at the full 16-bit range, everything else off
    /// or zero.
    pub open spec fn reset_state(id: DynSliceId) -> SliceRegs {
        SliceRegs {
            id: id,
            ph_correct: false,
            div_int: 1,
            div_frac: 0,
            inv_a: false,
            inv_b: false,
            top: 0xffff,
            ctr: 0,
            cc_a: 0,
            cc_b: 0,
            enable: false,
        }
    }

    /// The duty register of the selected channel.
    pub open spec fn cc(self, ch: DynChannelId) -> u16 {
        match ch {
            DynChannelId::A => self.cc_a,
            DynChannelId::B => self.cc_b,
        }
    }

    /// This register file with the selected channel's duty register set to `v`.
    pub open spec fn with_cc(self, ch: DynChannelId, v: u16) -> SliceRegs {
        match ch {
            DynChannelId::A => SliceRegs { cc_a: v, ..self },
            DynChannelId::B => SliceRegs { cc_b: v, ..self },
        }
    }

    /// The inversion flag of the selected channel.
    pub open spec fn inv(self, ch: DynChannelId) -> bool {
        match ch {
            DynChannelId::A => self.inv_a,
            DynChannelId::B => self.inv_b,
        }
    }

    /// This register file with the selected channel's inversion flag set to `v`.
    pub open spec fn with_inv(self, ch: DynChannelId, v: bool) -> SliceRegs {
        match ch {
            DynChannelId::A => SliceRegs { inv_a: v, ..self },
            DynChannelId::B => SliceRegs { inv_b: v, ..self },
        }
    }

    /// A fresh register file for slice `id`, in the reset state.
    pub fn at_reset(id: DynSliceId) -> (r: SliceRegs)
        ensures
            r == SliceRegs::reset_state(id),
    {
        SliceRegs {
            id: id,
            ph_correct: false,
            div_int: 1,
            div_frac: 0,
            inv_a: false,
            inv_b: false,
            top: 0xffff,
            ctr: 0,
            cc_a: 0,
            cc_b: 0,
            enable: false,
        }
    }

    /// Identifier of the physical slice this register file is bound to.
    pub fn read_id(&self) -> (r: DynSliceId)
        ensures
            r == self.id,
    {
        self.id
    }

    /// Write the phase-correct flag.
    pub fn write_ph_correct(&mut self, v: bool)
        ensures
            *final(self) == (SliceRegs { ph_correct: v, ..*old(self) }),
    {
        self.ph_correct = v;
    }

    /// Write the integer part of the clock divisor.
    pub fn write_div_int(&mut self, v: u8)
        ensures
            *final(self) == (SliceRegs { div_int: v, ..*old(self) }),
    {
        self.div_int = v;
    }

    /// Write the fractional part of the clock divisor.
    pub fn write_div_frac(&mut self, v: u8)
        ensures
            *final(self) == (SliceRegs { div_frac: v, ..*old(self) }),
    {
        self.div_frac = v;
    }

    /// Write channel A's inversion flag.
    pub fn write_inv_a(&mut self, v: bool)
        ensures
            *final(self) == (SliceRegs { inv_a: v, ..*old(self) }),
    {
        self.inv_a = v;
    }

    /// Write channel B's inversion flag.
    pub fn write_inv_b(&mut self, v: bool)
        ensures
            *final(self) == (SliceRegs { inv_b: v, ..*old(self) }),
    {
        self.inv_b = v;
    }

    /// Read the wrap value.
    pub fn read_top(&self) -> (r: u16)
        ensures
            r == self.top,
    {
        self.top
    }

    /// Write the wrap value.
    pub fn write_top(&mut self, v: u16)
        ensures
            *final(self) == (SliceRegs { top: v, ..*old(self) }),
    {
        self.top = v;
    }

    /// Read the counter.
    pub fn read_ctr(&self) -> (r: u16)
        ensures
            r == self.ctr,
    {
        self.ctr
    }

    /// Write the counter.
    pub fn write_ctr(&mut self, v: u16)
        ensures
            *final(self) == (SliceRegs { ctr: v, ..*old(self) }),
    {
        self.ctr = v;
    }

    /// Read channel A's duty register.
    pub fn read_cc_a(&self) -> (r: u16)
        ensures
            r == self.cc_a,
    {
        self.cc_a
    }

    /// Write channel A's duty register.
    pub fn write_cc_a(&mut self, v: u16)
        ensures
            *final(self) == (SliceRegs { cc_a: v, ..*old(self) }),
    {
        self.cc_a = v;
    }

    /// Read channel B's duty register.
    pub fn read_cc_b(&self) -> (r: u16)
        ensures
            r == self.cc_b,
    {
        self.cc_b
    }

    /// Write channel B's duty register.
    pub fn write_cc_b(&mut self, v: u16)
        ensures
            *final(self) == (SliceRegs { cc_b: v, ..*old(self) }),
    {
        self.cc_b = v;
    }

    /// Write the slice's master run bit.
    pub fn write_enable(&mut self, v: bool)
        ensures
            *final(self) == (SliceRegs { enable: v, ..*old(self) }),
    {
        self.enable = v;
    }

    /// Nudge the counter one tick forward, wrapping on the 16-bit range.
    ///
    /// The physical peripheral honours this only while the effective divisor
    /// exceeds 1; see the owning handle's documentation.
    pub fn advance_phase(&mut self)
        ensures
            *final(self) == (SliceRegs { ctr: ctr_succ(old(self).ctr), ..*old(self) }),
    {
        self.ctr = if self.ctr == 0xffff {
            0
        } else {
            self.ctr + 1
        };
    }

    /// Nudge the counter one tick backward, wrapping on the 16-bit range.
    ///
    /// The physical peripheral honours this only while the effective divisor
    /// exceeds 1; see the owning handle's documentation.
    pub fn retard_phase(&mut self)
        ensures
            *final(self) == (SliceRegs { ctr: ctr_pred(old(self).ctr), ..*old(self) }),
    {
        self.ctr = if self.ctr == 0 {
            0xffff
        } else {
            self.ctr - 1
        };
    }
}

} // verus!
