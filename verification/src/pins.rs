//! Minimal model of the pin collaborator and the crate's error type.
//!
//! The pin-function-multiplexing subsystem itself is outside this crate; a
//! channel handle only needs one operation of it: switch a runtime pin into
//! the PWM function, which succeeds exactly when the pin's physical location
//! can be routed to PWM at all.

use vstd::prelude::*;

verus! {

/// Errors surfaced by the runtime PWM handles.
#[derive(PartialEq, Eq, Structural, Clone, Copy, Debug)]
pub enum PwmError {
    /// The pin's physical location cannot be routed to the PWM function.
    IncompatiblePinFunction,
}

/// Runtime pin handle, reduced to what PWM routing reads of it: the pin
/// number, whether the location can be routed to the PWM function at all,
/// and whether it currently is.
#[derive(PartialEq, Eq, Structural, Clone, Copy, Debug)]
pub struct DynPin {
    num: u8,
    pwm_capable: bool,
    pwm_function: bool,
}

impl DynPin {
    /// The pin number.
    pub closed spec fn spec_num(self) -> u8 {
        self.num
    }

    /// Whether the pin's location can be routed to the PWM function.
    pub closed spec fn spec_pwm_capable(self) -> bool {
        self.pwm_capable
    }

    /// Whether the pin is currently routed to the PWM function.
    pub closed spec fn spec_is_pwm(self) -> bool {
        self.pwm_function
    }

    /// A pin handle for pin `num`, not yet routed to PWM. `pwm_capable`
    /// records whether the pin's physical location supports the PWM
    /// function.
    pub fn new(num: u8, pwm_capable: bool) -> (r: DynPin)
        ensures
            r.spec_num() == num,
            r.spec_pwm_capable() == pwm_capable,
            !r.spec_is_pwm(),
    {
        DynPin { num, pwm_capable, pwm_function: false }
    }

    /// Try to switch the pin into the PWM function. Succeeds, and routes the
    /// pin, exactly when the pin's location supports that function; fails
    /// leaving the pin untouched otherwise.
    pub fn try_into_pwm_function(&mut self) -> (r: Result<(), PwmError>)
        ensures
            final(self).spec_num() == old(self).spec_num(),
            final(self).spec_pwm_capable() == old(self).spec_pwm_capable(),
            r == (if old(self).spec_pwm_capable() {
                Ok::<(), PwmError>(())
            } else {
                Err::<(), PwmError>(PwmError::IncompatiblePinFunction)
            }),
            old(self).spec_pwm_capable() ==> final(self).spec_is_pwm(),
            !old(self).spec_pwm_capable() ==> *final(self) == *old(self),
    {
        if self.pwm_capable {
            self.pwm_function = true;
            Ok(())
        } else {
            Err(PwmError::IncompatiblePinFunction)
        }
    }
}

} // verus!
