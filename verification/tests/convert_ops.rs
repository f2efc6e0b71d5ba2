use dyn_pwm::convert::{
    StaticChannel, StaticSlice, MODE_COUNT_FALLING_EDGE, MODE_FREE_RUNNING, MODE_INPUT_HIGH_RUNNING,
};
use dyn_pwm::ids::{DynChannelId, DynSliceId, DynSliceMode};

#[test]
fn slice_erasure_extracts_id_and_mode() {
    let s = StaticSlice::<4, MODE_INPUT_HIGH_RUNNING>::new();
    let d = s.into_dyn();
    assert_eq!(d.id(), DynSliceId { num: 4 });
    assert_eq!(d.mode(), DynSliceMode::InputHighRunning);
}

#[test]
fn slice_erasure_of_free_running_slice() {
    let d = StaticSlice::<0, MODE_FREE_RUNNING>::new().into_dyn();
    assert_eq!(d.id(), DynSliceId { num: 0 });
    assert_eq!(d.mode(), DynSliceMode::FreeRunning);
    assert_eq!(d.bitmask(), 1);
}

#[test]
fn channel_erasure_extracts_id_mode_and_selector() {
    let c = StaticChannel::<7, MODE_COUNT_FALLING_EDGE, true>::new();
    let d = c.into_dyn();
    assert_eq!(d.slice_id(), DynSliceId { num: 7 });
    assert_eq!(d.mode(), DynSliceMode::CountFallingEdge);
    assert_eq!(d.id(), DynChannelId::B);
}

#[test]
fn channel_erasure_starts_disabled_with_zero_shadow() {
    let mut d = StaticChannel::<2, MODE_FREE_RUNNING, false>::new().into_dyn();
    assert_eq!(d.id(), DynChannelId::A);
    assert_eq!(d.get_duty(), 0);
    d.set_duty(50);
    assert_eq!(d.registers().cc_a, 0);
    d.enable();
    assert_eq!(d.registers().cc_a, 50);
}
