//! The type-erased runtime handle for one PWM output channel, with its
//! shadow-duty state machine.
//!
//! A channel is logically `Enabled` or `Disabled`. While enabled, the
//! hardware duty register is authoritative; while disabled, the hardware
//! register is forced to zero (0% output) and a software-held shadow value
//! remembers the last configured duty, so that re-enabling restores it
//! exactly.

use vstd::prelude::*;

use crate::ids::{DynChannelId, DynSliceId, DynSliceMode};
use crate::pins::{DynPin, PwmError};
use crate::regs::SliceRegs;

verus! {

/// Runtime handle bound to one (slice, channel-selector) pair.
///
/// The handle owns the slice's register file, the slice's counting-mode
/// snapshot, the channel selector, and the shadow duty state. Exclusivity is
/// a caller-maintained invariant: no other live handle may be bound to the
/// same physical slice while this one exists.
pub struct DynChannel {
    regs: SliceRegs,
    mode: DynSliceMode,
    channel_id: DynChannelId,
    duty_cycle: u16,
    enabled: bool,
}

impl DynChannel {
    /// The owned slice's register file.
    pub closed spec fn hw(self) -> SliceRegs {
        self.regs
    }

    /// The identifier of the bound physical slice.
    pub open spec fn spec_slice_id(self) -> DynSliceId {
        self.hw().id
    }

    /// The counting-mode snapshot taken at construction.
    pub closed spec fn spec_mode(self) -> DynSliceMode {
        self.mode
    }

    /// Which of the slice's two output channels this handle drives.
    pub closed spec fn spec_channel(self) -> DynChannelId {
        self.channel_id
    }

    /// The software-held shadow duty value. Authoritative exactly while the
    /// channel is disabled.
    pub closed spec fn shadow_duty(self) -> u16 {
        self.duty_cycle
    }

    /// Whether the channel is logically enabled. While enabled, the hardware
    /// duty register is authoritative.
    pub closed spec fn is_enabled(self) -> bool {
        self.enabled
    }

    /// The hardware duty register of this handle's channel.
    pub open spec fn hw_duty(self) -> u16 {
        self.hw().cc(self.spec_channel())
    }

    /// The channel's effective duty value: the hardware register while
    /// enabled, the shadow value while disabled.
    pub open spec fn duty(self) -> u16 {
        if self.is_enabled() {
            self.hw_duty()
        } else {
            self.shadow_duty()
        }
    }

    /// The handle after the `disable` transition: the shadow captures the
    /// hardware duty if the channel was enabled (and is left untouched if it
    /// already was disabled), the hardware duty register is forced to zero,
    /// and the channel is disabled.
    pub closed spec fn spec_disable(self) -> DynChannel {
        DynChannel {
            duty_cycle: if self.enabled {
                self.hw_duty()
            } else {
                self.duty_cycle
            },
            enabled: false,
            regs: self.regs.with_cc(self.channel_id, 0),
            ..self
        }
    }

    /// The handle after the `enable` transition: a no-op if already enabled;
    /// otherwise the shadow duty is written back into the hardware register
    /// and the channel is enabled.
    pub closed spec fn spec_enable(self) -> DynChannel {
        if self.enabled {
            self
        } else {
            DynChannel {
                enabled: true,
                regs: self.regs.with_cc(self.channel_id, self.duty_cycle),
                ..self
            }
        }
    }

    /// The handle after `set_duty(duty)`: the shadow always takes `duty`;
    /// the hardware register takes it too only while the channel is enabled.
    pub closed spec fn spec_set_duty(self, duty: u16) -> DynChannel {
        DynChannel {
            duty_cycle: duty,
            regs: if self.enabled {
                self.regs.with_cc(self.channel_id, duty)
            } else {
                self.regs
            },
            ..self
        }
    }

    /// Privileged constructor: bind a handle directly to channel
    /// `channel_id` of the physical slice `id`, which must be in the reset
    /// state. The channel starts disabled with a shadow duty of zero.
    ///
    /// Caller obligation (not runtime-checked): no other live handle may be
    /// bound to the same physical slice while this one exists.
    pub fn new(id: DynSliceId, mode: DynSliceMode, channel_id: DynChannelId) -> (r: DynChannel)
        requires
            id.wf(),
        ensures
            r.spec_slice_id() == id,
            r.spec_mode() == mode,
            r.spec_channel() == channel_id,
            r.hw() == SliceRegs::reset_state(id),
            r.shadow_duty() == 0,
            !r.is_enabled(),
    {
        DynChannel {
            regs: SliceRegs::at_reset(id),
            mode,
            channel_id,
            duty_cycle: 0u16,
            enabled: false,
        }
    }

    /// The identifier of the bound physical slice.
    pub fn slice_id(&self) -> (r: DynSliceId)
        ensures
            r == self.spec_slice_id(),
    {
        self.regs.read_id()
    }

    /// Return a copy of the counting-mode snapshot.
    pub fn mode(&self) -> (r: DynSliceMode)
        ensures
            r == self.spec_mode(),
    {
        self.mode
    }

    /// Which of the slice's two output channels this handle drives.
    pub fn id(&self) -> (r: DynChannelId)
        ensures
            r == self.spec_channel(),
    {
        self.channel_id
    }

    /// A copy of the owned slice's register file, for observation.
    pub fn registers(&self) -> (r: SliceRegs)
        ensures
            r == self.hw(),
    {
        self.regs
    }

    /// Invert this channel's output. The other channel's inversion flag is
    /// untouched.
    pub fn set_inverted(&mut self)
        ensures
            final(self).hw() == old(self).hw().with_inv(old(self).spec_channel(), true),
            final(self).spec_mode() == old(self).spec_mode(),
            final(self).spec_channel() == old(self).spec_channel(),
            final(self).shadow_duty() == old(self).shadow_duty(),
            final(self).is_enabled() == old(self).is_enabled(),
    {
        match self.channel_id {
            DynChannelId::A => self.regs.write_inv_a(true),
            DynChannelId::B => self.regs.write_inv_b(true),
        }
    }

    /// Stop inverting this channel's output. The other channel's inversion
    /// flag is untouched.
    pub fn clr_inverted(&mut self)
        ensures
            final(self).hw() == old(self).hw().with_inv(old(self).spec_channel(), false),
            final(self).spec_mode() == old(self).spec_mode(),
            final(self).spec_channel() == old(self).spec_channel(),
            final(self).shadow_duty() == old(self).shadow_duty(),
            final(self).is_enabled() == old(self).is_enabled(),
    {
        match self.channel_id {
            DynChannelId::A => self.regs.write_inv_a(false),
            DynChannelId::B => self.regs.write_inv_b(false),
        }
    }

    /// Disable the channel: capture the hardware duty into the shadow (only
    /// if the channel was enabled — a disable while already disabled must
    /// not overwrite a valid shadow with a stale read), then force the
    /// hardware duty register to zero.
    pub fn disable(&mut self)
        ensures
            *final(self) == old(self).spec_disable(),
            !final(self).is_enabled(),
            final(self).hw_duty() == 0,
            final(self).hw() == old(self).hw().with_cc(old(self).spec_channel(), 0),
            final(self).shadow_duty() == (if old(self).is_enabled() {
                old(self).hw_duty()
            } else {
                old(self).shadow_duty()
            }),
            final(self).spec_mode() == old(self).spec_mode(),
            final(self).spec_channel() == old(self).spec_channel(),
    {
        match self.channel_id {
            DynChannelId::A => {
                if self.enabled {
                    self.duty_cycle = self.regs.read_cc_a();
                }
                self.enabled = false;
                self.regs.write_cc_a(0)
            },
            DynChannelId::B => {
                if self.enabled {
                    self.duty_cycle = self.regs.read_cc_b();
                }
                self.enabled = false;
                self.regs.write_cc_b(0)
            },
        }
    }

    /// Enable the channel: a no-op if already enabled; otherwise write the
    /// shadow duty into the hardware duty register, which becomes
    /// authoritative.
    pub fn enable(&mut self)
        ensures
            *final(self) == old(self).spec_enable(),
            final(self).is_enabled(),
            final(self).shadow_duty() == old(self).shadow_duty(),
            old(self).is_enabled() ==> *final(self) == *old(self),
            !old(self).is_enabled() ==> final(self).hw() == old(self).hw().with_cc(
                old(self).spec_channel(),
                old(self).shadow_duty(),
            ),
            final(self).spec_mode() == old(self).spec_mode(),
            final(self).spec_channel() == old(self).spec_channel(),
    {
        if !self.enabled {
            self.enabled = true;
            match self.channel_id {
                DynChannelId::A => self.regs.write_cc_a(self.duty_cycle),
                DynChannelId::B => self.regs.write_cc_b(self.duty_cycle),
            }
        }
    }

    /// The channel's effective duty value: the live hardware register while
    /// enabled, the shadow value while disabled. Never mutates state.
    pub fn get_duty(&self) -> (r: u16)
        ensures
            r == self.duty(),
    {
        if self.enabled {
            match self.channel_id {
                DynChannelId::A => self.regs.read_cc_a(),
                DynChannelId::B => self.regs.read_cc_b(),
            }
        } else {
            self.duty_cycle
        }
    }

    /// The duty ceiling: the owning slice's wrap ("top") register value.
    pub fn get_max_duty(&self) -> (r: u16)
        ensures
            r == self.hw().top,
    {
        self.regs.read_top()
    }

    /// Configure the duty value: the shadow always takes `duty`; while
    /// enabled the hardware register is updated immediately as well, while
    /// disabled the hardware stays untouched and the new value takes effect
    /// on the next [`DynChannel::enable`].
    pub fn set_duty(&mut self, duty: u16)
        ensures
            *final(self) == old(self).spec_set_duty(duty),
            final(self).shadow_duty() == duty,
            final(self).is_enabled() == old(self).is_enabled(),
            old(self).is_enabled() ==> final(self).hw() == old(self).hw().with_cc(
                old(self).spec_channel(),
                duty,
            ),
            !old(self).is_enabled() ==> final(self).hw() == old(self).hw(),
            final(self).spec_mode() == old(self).spec_mode(),
            final(self).spec_channel() == old(self).spec_channel(),
    {
        self.duty_cycle = duty;
        if self.enabled {
            match self.channel_id {
                DynChannelId::A => self.regs.write_cc_a(duty),
                DynChannelId::B => self.regs.write_cc_b(duty),
            }
        }
    }

    /// Route `pin` into the PWM function as this channel's input. Succeeds
    /// exactly when the pin's location supports the PWM function; on failure
    /// the pin is left untouched. The channel handle itself is never
    /// modified.
    pub fn input_from(&mut self, pin: &mut DynPin) -> (r: Result<(), PwmError>)
        ensures
            *final(self) == *old(self),
            final(pin).spec_num() == old(pin).spec_num(),
            final(pin).spec_pwm_capable() == old(pin).spec_pwm_capable(),
            r == (if old(pin).spec_pwm_capable() {
                Ok::<(), PwmError>(())
            } else {
                Err::<(), PwmError>(PwmError::IncompatiblePinFunction)
            }),
            old(pin).spec_pwm_capable() ==> final(pin).spec_is_pwm(),
            !old(pin).spec_pwm_capable() ==> *final(pin) == *old(pin),
    {
        pin.try_into_pwm_function()
    }

    /// Route `pin` into the PWM function as this channel's output. Succeeds
    /// exactly when the pin's location supports the PWM function; on failure
    /// the pin is left untouched. The channel handle itself is never
    /// modified.
    pub fn output_to(&mut self, pin: &mut DynPin) -> (r: Result<(), PwmError>)
        ensures
            *final(self) == *old(self),
            final(pin).spec_num() == old(pin).spec_num(),
            final(pin).spec_pwm_capable() == old(pin).spec_pwm_capable(),
            r == (if old(pin).spec_pwm_capable() {
                Ok::<(), PwmError>(())
            } else {
                Err::<(), PwmError>(PwmError::IncompatiblePinFunction)
            }),
            old(pin).spec_pwm_capable() ==> final(pin).spec_is_pwm(),
            !old(pin).spec_pwm_capable() ==> *final(pin) == *old(pin),
    {
        pin.try_into_pwm_function()
    }
}

/// Law: `disable` followed by `enable`, with no intervening `set_duty`,
/// reproduces the duty value exactly as it was immediately before the
/// `disable` — both as the effective duty and in the hardware register.
pub proof fn lemma_disable_enable_restores_duty(c: DynChannel)
    ensures
        c.spec_disable().spec_enable().duty() == c.duty(),
        c.spec_disable().spec_enable().hw_duty() == c.duty(),
        c.spec_disable().spec_enable().is_enabled(),
{
}

/// Law: a second `disable` in a row changes nothing — in particular it
/// leaves the shadow value untouched, rather than overwriting it with a
/// stale read of the zeroed hardware register.
pub proof fn lemma_disable_idempotent(c: DynChannel)
    ensures
        c.spec_disable().spec_disable() == c.spec_disable(),
        c.spec_disable().spec_disable().shadow_duty() == c.spec_disable().shadow_duty(),
{
}

/// Law: while disabled, `set_duty(v)` leaves the hardware register file —
/// the duty register included — untouched, yet `get_duty` immediately
/// reports `v`.
pub proof fn lemma_set_duty_while_disabled(c: DynChannel, v: u16)
    requires
        !c.is_enabled(),
    ensures
        c.spec_set_duty(v).hw() == c.hw(),
        c.spec_set_duty(v).hw_duty() == c.hw_duty(),
        c.spec_set_duty(v).duty() == v,
{
}

/// Law: while enabled, `set_duty(v)` updates the hardware duty register and
/// `get_duty`'s report together: both are `v` afterwards.
pub proof fn lemma_set_duty_while_enabled(c: DynChannel, v: u16)
    requires
        c.is_enabled(),
    ensures
        c.spec_set_duty(v).hw_duty() == v,
        c.spec_set_duty(v).duty() == v,
{
}

} // verus!
