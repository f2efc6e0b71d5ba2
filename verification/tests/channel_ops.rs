use dyn_pwm::channel::DynChannel;
use dyn_pwm::ids::{DynChannelId, DynSliceId, DynSliceMode};
use dyn_pwm::pins::{DynPin, PwmError};

fn channel(num: u8, ch: DynChannelId) -> DynChannel {
    DynChannel::new(DynSliceId { num }, DynSliceMode::FreeRunning, ch)
}

#[test]
fn starts_disabled_with_zero_shadow() {
    let c = channel(0, DynChannelId::A);
    assert_eq!(c.get_duty(), 0);
    let r = c.registers();
    assert_eq!(r.cc_a, 0);
    assert_eq!(r.cc_b, 0);
}

#[test]
fn disable_then_enable_restores_duty_exactly() {
    let mut c = channel(0, DynChannelId::A);
    c.enable();
    c.set_duty(20000);
    c.disable();
    c.enable();
    assert_eq!(c.get_duty(), 20000);
    assert_eq!(c.registers().cc_a, 20000);
}

#[test]
fn disable_twice_keeps_shadow() {
    let mut c = channel(0, DynChannelId::B);
    c.enable();
    c.set_duty(1234);
    c.disable();
    assert_eq!(c.get_duty(), 1234);
    c.disable();
    assert_eq!(c.get_duty(), 1234);
    c.enable();
    assert_eq!(c.get_duty(), 1234);
}

#[test]
fn set_duty_while_disabled_leaves_hardware_at_zero() {
    let mut c = channel(0, DynChannelId::A);
    c.enable();
    c.disable();
    c.set_duty(4321);
    assert_eq!(c.registers().cc_a, 0);
    assert_eq!(c.get_duty(), 4321);
}

#[test]
fn set_duty_while_enabled_updates_hardware_and_report() {
    let mut c = channel(0, DynChannelId::A);
    c.enable();
    c.set_duty(555);
    assert_eq!(c.registers().cc_a, 555);
    assert_eq!(c.get_duty(), 555);
}

#[test]
fn enable_while_enabled_is_a_no_op() {
    let mut c = channel(0, DynChannelId::A);
    c.enable();
    c.set_duty(77);
    let before = c.registers();
    c.enable();
    assert_eq!(c.registers(), before);
    assert_eq!(c.get_duty(), 77);
}

#[test]
fn duty_scenario_on_slice_three() {
    let mut c = channel(3, DynChannelId::A);
    c.enable();
    c.set_duty(20000);
    assert_eq!(c.get_max_duty(), 0xffff);
    c.disable();
    assert_eq!(c.get_duty(), 20000);
    assert_eq!(c.registers().cc_a, 0);
    c.enable();
    assert_eq!(c.registers().cc_a, 20000);
    assert_eq!(c.get_duty(), 20000);
}

#[test]
fn largest_duty_round_trips() {
    let mut c = channel(7, DynChannelId::B);
    c.enable();
    c.set_duty(0xffff);
    c.disable();
    assert_eq!(c.registers().cc_b, 0);
    c.enable();
    assert_eq!(c.get_duty(), 0xffff);
    assert_eq!(c.registers().cc_b, 0xffff);
}

#[test]
fn channel_b_duty_uses_cc_b_only() {
    let mut c = channel(2, DynChannelId::B);
    c.enable();
    c.set_duty(99);
    let r = c.registers();
    assert_eq!(r.cc_b, 99);
    assert_eq!(r.cc_a, 0);
}

#[test]
fn get_max_duty_is_top() {
    let c = channel(1, DynChannelId::A);
    assert_eq!(c.get_max_duty(), 0xffff);
}

#[test]
fn inversion_touches_only_own_channel() {
    let mut a = channel(0, DynChannelId::A);
    a.set_inverted();
    let r = a.registers();
    assert!(r.inv_a);
    assert!(!r.inv_b);
    a.clr_inverted();
    assert!(!a.registers().inv_a);

    let mut b = channel(0, DynChannelId::B);
    b.set_inverted();
    let r = b.registers();
    assert!(r.inv_b);
    assert!(!r.inv_a);
    b.clr_inverted();
    assert!(!b.registers().inv_b);
}

#[test]
fn identity_survives_operations() {
    let mut c = channel(6, DynChannelId::B);
    c.enable();
    c.set_duty(10);
    c.disable();
    assert_eq!(c.slice_id(), DynSliceId { num: 6 });
    assert_eq!(c.id(), DynChannelId::B);
    assert_eq!(c.mode(), DynSliceMode::FreeRunning);
}

#[test]
fn output_to_routes_a_capable_pin() {
    let mut c = channel(0, DynChannelId::A);
    let mut pin = DynPin::new(14, true);
    assert_eq!(c.output_to(&mut pin), Ok(()));
}

#[test]
fn input_from_routes_a_capable_pin() {
    let mut c = channel(0, DynChannelId::B);
    let mut pin = DynPin::new(15, true);
    assert_eq!(c.input_from(&mut pin), Ok(()));
}

#[test]
fn incompatible_pin_is_reported_and_channel_unchanged() {
    let mut c = channel(0, DynChannelId::A);
    c.enable();
    c.set_duty(321);
    let before = c.registers();
    let mut pin = DynPin::new(40, false);
    assert_eq!(
        c.output_to(&mut pin),
        Err(PwmError::IncompatiblePinFunction)
    );
    assert_eq!(
        c.input_from(&mut pin),
        Err(PwmError::IncompatiblePinFunction)
    );
    assert_eq!(c.registers(), before);
    assert_eq!(c.get_duty(), 321);
}
