//! The overflow protocol: finding the overflowing slot, acknowledging it,
//! and the armed-threshold boundary.

use perfcnt_x86::x86_intel::globle_ctrl::PerfCounterControler;
use perfcnt_x86::x86_intel::Counter;
use perfcnt_x86::x86_intel::EventDescription;
use perfcnt_x86::x86_intel::Tuple;
use perfcnt_x86::PerfCounter;

fn ctrl_v2() -> PerfCounterControler {
    let mut ctrl = PerfCounterControler::new();
    let rax: u64 = 0x2 | (4 << 8) | (40 << 16);
    ctrl.init(rax, 3 | (48 << 5), 0, 1 << 15, 1 << 13);
    ctrl
}

/// A version-2 machine whose general counters are 8 bits wide, so overflow
/// is reached quickly.
fn ctrl_narrow() -> PerfCounterControler {
    let mut ctrl = PerfCounterControler::new();
    let rax: u64 = 0x2 | (4 << 8) | (8 << 16);
    ctrl.init(rax, 3 | (8 << 5), 0, 1 << 15, 1 << 13);
    ctrl
}

#[test]
fn scan_reports_lowest_set_slot() {
    let mut ctrl = ctrl_v2();
    ctrl.set_overflow_status((1 << 7) | (1 << 3) | (1 << 40));
    assert_eq!(ctrl.get_overflow_counter(), Some(Counter::Programmable(3)));
    ctrl.set_overflow_status(1 << 40);
    assert_eq!(ctrl.get_overflow_counter(), Some(Counter::Fixed(8)));
}

#[test]
fn scan_reports_nothing_when_no_bit_is_set() {
    let mut ctrl = ctrl_v2();
    assert_eq!(ctrl.get_overflow_counter(), None);
    // Bit 63 carries no slot: it is never reported.
    ctrl.set_overflow_status(1 << 63);
    assert_eq!(ctrl.get_overflow_counter(), None);
}

#[test]
fn acknowledge_clears_only_that_slot() {
    let mut ctrl = ctrl_v2();
    ctrl.set_overflow_status((1 << 5) | (1 << 40));
    let ack_before = ctrl.read_overflow_ctrl();
    ctrl.clear_overflow_bit(Counter::Programmable(5));
    // The acknowledged slot's bit is gone, the other slot's stays, and the
    // acknowledge register is as it was.
    assert_eq!(ctrl.read_overflow_status(), 1 << 40);
    assert_eq!(ctrl.read_overflow_ctrl(), ack_before);
    ctrl.clear_overflow_bit(Counter::Fixed(8));
    assert_eq!(ctrl.read_overflow_status(), 0);
    assert_eq!(ctrl.get_overflow_counter(), None);
}

#[test]
fn overflow_after_boundary() {
    // Arm a threshold of 5 on an 8-bit counter: 5 events leave the status
    // bit clear, the 6th sets it.
    let mut ctrl = ctrl_narrow();
    let mut pc = PerfCounter::new();
    let ev = EventDescription {
        event_code: Tuple::One(0xC0),
        umask: Tuple::One(0x00),
        counter: Counter::Programmable(0),
        counter_mask: 0,
        edge_detect: false,
        any_thread: false,
        invert: false,
    };
    pc.build_from_intel_hw_event(&ctrl, &ev, 0).unwrap();
    pc.overflow_after(&mut ctrl, 5);
    assert_eq!(pc.read(&ctrl), Ok(0xFF - 5));
    for _ in 0..5 {
        ctrl.count_event(Counter::Programmable(0));
        assert!(!pc.check_overflow(&ctrl));
    }
    assert_eq!(pc.read(&ctrl), Ok(0xFF));
    ctrl.count_event(Counter::Programmable(0));
    assert!(pc.check_overflow(&ctrl));
    assert_eq!(pc.read(&ctrl), Ok(0));
    assert_eq!(ctrl.get_overflow_counter(), Some(Counter::Programmable(0)));
}

#[test]
fn overflow_after_boundary_fixed() {
    let mut ctrl = ctrl_narrow();
    let mut pc = PerfCounter::new();
    let ev = EventDescription {
        event_code: Tuple::One(0x00),
        umask: Tuple::One(0x00),
        counter: Counter::Fixed(1),
        counter_mask: 0,
        edge_detect: false,
        any_thread: false,
        invert: false,
    };
    pc.build_from_intel_hw_event(&ctrl, &ev, 0).unwrap();
    pc.overflow_after(&mut ctrl, 2);
    for _ in 0..2 {
        ctrl.count_event(Counter::Fixed(1));
        assert!(!pc.check_overflow(&ctrl));
    }
    ctrl.count_event(Counter::Fixed(1));
    assert!(pc.check_overflow(&ctrl));
    assert_eq!(ctrl.get_overflow_counter(), Some(Counter::Fixed(1)));
    // The full handler sequence: acknowledge, then rearm the interrupt.
    ctrl.clear_overflow_bit(Counter::Fixed(1));
    ctrl.reset_overflow_interrput();
    assert!(!pc.check_overflow(&ctrl));
    assert_eq!(ctrl.get_overflow_counter(), None);
}

#[test]
fn check_overflow_leaves_status_alone() {
    let mut ctrl = ctrl_v2();
    let mut pc = PerfCounter::new();
    let ev = EventDescription {
        event_code: Tuple::One(0xC0),
        umask: Tuple::One(0x00),
        counter: Counter::Programmable(1),
        counter_mask: 0,
        edge_detect: false,
        any_thread: false,
        invert: false,
    };
    pc.build_from_intel_hw_event(&ctrl, &ev, 1).unwrap();
    ctrl.set_overflow_status(1 << 1);
    assert!(pc.check_overflow(&ctrl));
    assert!(pc.check_overflow(&ctrl));
    assert_eq!(ctrl.read_overflow_status(), 1 << 1);
}
