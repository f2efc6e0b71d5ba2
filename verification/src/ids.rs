//! Value-level identifiers for PWM slices, channels and counting modes.

use vstd::prelude::*;

verus! {

/// Number of independent PWM slices the peripheral provides.
pub const NUM_SLICES: u8 = 8;

/// Value-level slice identifier: an index in `[0, NUM_SLICES)`.
///
/// Each physical counter unit ("slice") of the peripheral is addressed by
/// one of these. Validity (`num < NUM_SLICES`) is stated by [`DynSliceId::wf`]
/// and required wherever the index positions a bit in a shared register.
#[derive(PartialEq, Eq, Structural, Clone, Copy, Debug)]
pub struct DynSliceId {
    /// Slice index.
    pub num: u8,
}

impl DynSliceId {
    /// The identifier addresses a physical slice that actually exists.
    pub open spec fn wf(self) -> bool {
        self.num < NUM_SLICES
    }
}

/// Counting behaviour of a slice, fixed when the handle is constructed.
#[derive(PartialEq, Eq, Structural, Clone, Copy, Debug)]
pub enum DynSliceMode {
    /// Count continuously whenever the slice is enabled.
    FreeRunning,
    /// Count continuously while a high level is detected on the B pin.
    InputHighRunning,
    /// Count once with each rising edge detected on the B pin.
    CountRisingEdge,
    /// Count once with each falling edge detected on the B pin.
    CountFallingEdge,
}

/// Selector for one of the two output channels of a slice.
#[derive(PartialEq, Eq, Structural, Clone, Copy, Debug)]
pub enum DynChannelId {
    /// Channel A.
    A,
    /// Channel B.
    B,
}

} // verus!
