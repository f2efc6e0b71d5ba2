//! Runtime-polymorphic handles for a microcontroller's PWM peripheral.
//!
//! The peripheral exposes a fixed number of independent counter units
//! ("slices"), each driving two output channels ("A" and "B"). This crate
//! provides type-erased runtime handles — one value per slice and per
//! channel — so that code which does not know the exact slice or channel at
//! compile time can still configure and operate the hardware safely.
//!
//! The hardware register file of a slice is held as a plain-value model
//! ([`regs::SliceRegs`]); every operation's contract states exactly which
//! registers it reads and writes. Binding the model to the physical,
//! memory-mapped registers is the concern of an unverified adapter layer
//! outside this crate.

use vstd::prelude::*;

pub mod channel;
pub mod convert;
pub mod ids;
pub mod irq;
pub mod pins;
pub mod regs;
pub mod slice;

verus! {

} // verus!
