use dyn_pwm::ids::{DynSliceId, DynSliceMode};
use dyn_pwm::irq::IrqRegs;
use dyn_pwm::slice::DynSlice;

fn slice(num: u8) -> DynSlice {
    DynSlice::new(DynSliceId { num }, DynSliceMode::FreeRunning)
}

#[test]
fn bitmask_is_one_shifted_by_id() {
    for num in 0..8u8 {
        let s = slice(num);
        assert_eq!(s.bitmask(), 1u32 << num);
    }
}

#[test]
fn bitmasks_of_distinct_slices_differ() {
    for i in 0..8u8 {
        for j in 0..8u8 {
            if i != j {
                assert_ne!(slice(i).bitmask(), slice(j).bitmask());
            }
        }
    }
}

#[test]
fn bitmask_of_slice_three() {
    assert_eq!(slice(3).bitmask(), 0b1000);
}

#[test]
fn default_config_sets_documented_values() {
    let mut s = slice(5);
    s.set_top(100);
    s.set_counter(42);
    s.set_div_int(7);
    s.set_div_frac(9);
    s.set_ph_correct();
    s.default_config();
    let r = s.registers();
    assert!(!r.ph_correct);
    assert_eq!(r.div_int, 1);
    assert_eq!(r.div_frac, 0);
    assert!(!r.inv_a);
    assert!(!r.inv_b);
    assert_eq!(r.top, 0xffff);
    assert_eq!(r.ctr, 0);
    assert_eq!(r.cc_a, 0);
    assert_eq!(r.cc_b, 0);
    assert_eq!(s.get_top(), 0xffff);
    assert_eq!(s.get_counter(), 0);
}

#[test]
fn identity_and_mode_are_stable() {
    let mut s = DynSlice::new(DynSliceId { num: 2 }, DynSliceMode::CountRisingEdge);
    assert_eq!(s.id(), DynSliceId { num: 2 });
    assert_eq!(s.mode(), DynSliceMode::CountRisingEdge);
    s.default_config();
    s.enable();
    assert_eq!(s.id(), DynSliceId { num: 2 });
    assert_eq!(s.mode(), DynSliceMode::CountRisingEdge);
}

#[test]
fn enable_and_disable_toggle_run_bit_only() {
    let mut s = slice(1);
    let before = s.registers();
    s.enable();
    let r = s.registers();
    assert!(r.enable);
    assert_eq!(r.top, before.top);
    assert_eq!(r.ctr, before.ctr);
    s.disable();
    assert!(!s.registers().enable);
}

#[test]
fn divisor_and_counter_and_top_accessors() {
    let mut s = slice(0);
    s.set_div_int(12);
    s.set_div_frac(5);
    s.set_counter(777);
    s.set_top(999);
    let r = s.registers();
    assert_eq!(r.div_int, 12);
    assert_eq!(r.div_frac, 5);
    assert_eq!(s.get_counter(), 777);
    assert_eq!(s.get_top(), 999);
}

#[test]
fn phase_nudges_move_counter_one_tick() {
    let mut s = slice(0);
    s.set_div_int(2);
    s.set_counter(10);
    s.advance_phase();
    assert_eq!(s.get_counter(), 11);
    s.retard_phase();
    s.retard_phase();
    assert_eq!(s.get_counter(), 9);
}

#[test]
fn phase_nudges_wrap_on_sixteen_bits() {
    let mut s = slice(0);
    s.set_div_int(2);
    s.set_counter(0xffff);
    s.advance_phase();
    assert_eq!(s.get_counter(), 0);
    s.retard_phase();
    assert_eq!(s.get_counter(), 0xffff);
}

#[test]
fn ph_correct_flag_toggles() {
    let mut s = slice(4);
    s.set_ph_correct();
    assert!(s.registers().ph_correct);
    s.clr_ph_correct();
    assert!(!s.registers().ph_correct);
}

#[test]
fn interrupt_enable_touches_only_own_bit() {
    let mut irq = IrqRegs::new();
    let s3 = slice(3);
    let s5 = slice(5);
    s3.enable_interrupt(&mut irq);
    s5.enable_interrupt(&mut irq);
    assert_eq!(irq.inte, 0b0010_1000);
    s3.disable_interrupt(&mut irq);
    assert_eq!(irq.inte, 0b0010_0000);
    assert_eq!(irq.ints, 0);
    assert_eq!(irq.intf, 0);
}

#[test]
fn has_overflown_tests_own_status_bit() {
    let irq = IrqRegs {
        inte: 0,
        ints: 0b0000_1000,
        intf: 0,
    };
    assert!(slice(3).has_overflown(&irq));
    assert!(!slice(2).has_overflown(&irq));
}

#[test]
fn clear_interrupt_is_idempotent() {
    let mut irq = IrqRegs {
        inte: 0b1,
        ints: 0b1100,
        intf: 0b10,
    };
    let s = slice(3);
    s.clear_interrupt(&mut irq);
    let once = irq;
    s.clear_interrupt(&mut irq);
    assert_eq!(irq, once);
    assert_eq!(irq.ints, 0b0100);
    assert_eq!(irq.inte, 0b1);
    assert_eq!(irq.intf, 0b10);
}

#[test]
fn clear_interrupt_on_clear_bit_is_a_no_op() {
    let mut irq = IrqRegs {
        inte: 0,
        ints: 0b0100,
        intf: 0,
    };
    slice(3).clear_interrupt(&mut irq);
    assert_eq!(irq.ints, 0b0100);
}

#[test]
fn force_interrupt_sets_and_clears_own_bit() {
    let mut irq = IrqRegs::new();
    let s = slice(6);
    s.force_interrupt(&mut irq);
    assert_eq!(irq.intf, 1 << 6);
    s.clear_force_interrupt(&mut irq);
    assert_eq!(irq.intf, 0);
}
