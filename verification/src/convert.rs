//! Statically-typed handles and their erasure into runtime handles.
//!
//! Client code that knows its slice and channel at compile time carries them
//! in the type: the slice index, counting mode and channel selector are
//! const parameters. Erasure consumes the typed handle — it cannot be used
//! again afterwards — and extracts the compile-time-known constants into a
//! runtime [`DynSlice`] or [`DynChannel`] bound to the same physical unit.

use vstd::prelude::*;

use crate::channel::DynChannel;
use crate::ids::{DynChannelId, DynSliceId, DynSliceMode, NUM_SLICES};
use crate::slice::DynSlice;

verus! {

/// Type-level encoding of [`DynSliceMode::FreeRunning`].
pub const MODE_FREE_RUNNING: u8 = 0;

/// Type-level encoding of [`DynSliceMode::InputHighRunning`].
pub const MODE_INPUT_HIGH_RUNNING: u8 = 1;

/// Type-level encoding of [`DynSliceMode::CountRisingEdge`].
pub const MODE_COUNT_RISING_EDGE: u8 = 2;

/// Type-level encoding of [`DynSliceMode::CountFallingEdge`].
pub const MODE_COUNT_FALLING_EDGE: u8 = 3;

/// Number of counting modes a slice can be constructed in.
pub const NUM_MODES: u8 = 4;

/// The counting mode encoded by the type-level index `m`.
pub open spec fn mode_from_index(m: u8) -> DynSliceMode {
    if m == MODE_FREE_RUNNING {
        DynSliceMode::FreeRunning
    } else if m == MODE_INPUT_HIGH_RUNNING {
        DynSliceMode::InputHighRunning
    } else if m == MODE_COUNT_RISING_EDGE {
        DynSliceMode::CountRisingEdge
    } else {
        DynSliceMode::CountFallingEdge
    }
}

/// The channel selector encoded by the type-level flag `b`:
/// `false` is channel A, `true` is channel B.
pub open spec fn channel_from_flag(b: bool) -> DynChannelId {
    if b {
        DynChannelId::B
    } else {
        DynChannelId::A
    }
}

/// Decode a type-level mode index into its counting mode.
pub fn mode_for_index(m: u8) -> (r: DynSliceMode)
    requires
        m < NUM_MODES,
    ensures
        r == mode_from_index(m),
{
    if m == MODE_FREE_RUNNING {
        DynSliceMode::FreeRunning
    } else if m == MODE_INPUT_HIGH_RUNNING {
        DynSliceMode::InputHighRunning
    } else if m == MODE_COUNT_RISING_EDGE {
        DynSliceMode::CountRisingEdge
    } else {
        DynSliceMode::CountFallingEdge
    }
}

/// A slice handle whose physical identity is part of its type: slice `ID`,
/// counting mode `MODE` (one of the `MODE_*` indices).
pub struct StaticSlice<const ID: u8, const MODE: u8> {
    _seal: (),
}

impl<const ID: u8, const MODE: u8> StaticSlice<ID, MODE> {
    /// Privileged constructor: bind a typed handle to physical slice `ID`,
    /// which must be in the reset state.
    ///
    /// Caller obligation (not runtime-checked): no other live handle may be
    /// bound to the same physical slice while this one exists.
    pub fn new() -> (r: StaticSlice<ID, MODE>)
        requires
            ID < NUM_SLICES,
            MODE < NUM_MODES,
    {
        StaticSlice { _seal: () }
    }

    /// Erase the type-level identity: consume this handle and produce the
    /// runtime handle bound to the same physical slice, in the same mode.
    pub fn into_dyn(self) -> (r: DynSlice)
        requires
            ID < NUM_SLICES,
            MODE < NUM_MODES,
        ensures
            r.spec_id() == (DynSliceId { num: ID }),
            r.spec_mode() == mode_from_index(MODE),
            r.hw() == crate::regs::SliceRegs::reset_state(DynSliceId { num: ID }),
    {
        DynSlice::new(DynSliceId { num: ID }, mode_for_index(MODE))
    }
}

/// A channel handle whose physical identity is part of its type: slice
/// `ID`, counting mode `MODE`, and channel B when `CH_B` (channel A
/// otherwise).
pub struct StaticChannel<const ID: u8, const MODE: u8, const CH_B: bool> {
    _seal: (),
}

impl<const ID: u8, const MODE: u8, const CH_B: bool> StaticChannel<ID, MODE, CH_B> {
    /// Privileged constructor: bind a typed handle to one channel of
    /// physical slice `ID`, which must be in the reset state.
    ///
    /// Caller obligation (not runtime-checked): no other live handle may be
    /// bound to the same physical slice while this one exists.
    pub fn new() -> (r: StaticChannel<ID, MODE, CH_B>)
        requires
            ID < NUM_SLICES,
            MODE < NUM_MODES,
    {
        StaticChannel { _seal: () }
    }

    /// Erase the type-level identity: consume this handle and produce the
    /// runtime handle bound to the same physical channel. The runtime
    /// channel starts disabled with a shadow duty of zero.
    pub fn into_dyn(self) -> (r: DynChannel)
        requires
            ID < NUM_SLICES,
            MODE < NUM_MODES,
        ensures
            r.spec_slice_id() == (DynSliceId { num: ID }),
            r.spec_mode() == mode_from_index(MODE),
            r.spec_channel() == channel_from_flag(CH_B),
            r.hw() == crate::regs::SliceRegs::reset_state(DynSliceId { num: ID }),
            r.shadow_duty() == 0,
            !r.is_enabled(),
    {
        let ch = if CH_B {
            DynChannelId::B
        } else {
            DynChannelId::A
        };
        DynChannel::new(DynSliceId { num: ID }, mode_for_index(MODE), ch)
    }
}

} // verus!
