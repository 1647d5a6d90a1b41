//! Counter lifecycle against the register model: reset/start/stop/read for
//! both kinds, idempotent start cycles, and serialised slot enables.

use perfcnt_x86::x86_intel::globle_ctrl::PerfCounterControler;
use perfcnt_x86::x86_intel::Counter;
use perfcnt_x86::x86_intel::EventDescription;
use perfcnt_x86::x86_intel::Tuple;
use perfcnt_x86::ErrorMsg;
use perfcnt_x86::PerfCounter;

fn ctrl_v2() -> PerfCounterControler {
    let mut ctrl = PerfCounterControler::new();
    let rax: u64 = 0x2 | (4 << 8) | (40 << 16);
    ctrl.init(rax, 3 | (48 << 5), 0, 1 << 15, 1 << 13);
    ctrl
}

fn event(counter: Counter) -> EventDescription {
    EventDescription {
        event_code: Tuple::One(0x3C),
        umask: Tuple::One(0x00),
        counter,
        counter_mask: 0,
        edge_detect: false,
        any_thread: false,
        invert: false,
    }
}

#[test]
fn reset_then_read_is_zero_general() {
    let mut ctrl = ctrl_v2();
    let mut pc = PerfCounter::new();
    pc.build_from_intel_hw_event(&ctrl, &event(Counter::Programmable(0)), 0).unwrap();
    pc.set_general_pmc_ctr(&mut ctrl, 0, 1234);
    assert_eq!(pc.read(&ctrl), Ok(1234));
    pc.reset(&mut ctrl).unwrap();
    assert_eq!(pc.read(&ctrl), Ok(0));
}

#[test]
fn reset_then_read_is_zero_fixed() {
    let mut ctrl = ctrl_v2();
    let mut pc = PerfCounter::new();
    pc.build_from_intel_hw_event(&ctrl, &event(Counter::Fixed(1)), 0).unwrap();
    pc.set_fixed_pmc_ctr(&mut ctrl, 1, 99);
    assert_eq!(pc.read(&ctrl), Ok(99));
    pc.reset(&mut ctrl).unwrap();
    assert_eq!(pc.read(&ctrl), Ok(0));
}

#[test]
fn counter_values_mask_to_width() {
    // Width 40: a written value keeps only its low 40 bits.
    let mut ctrl = ctrl_v2();
    let pc = PerfCounter::new();
    pc.set_general_pmc_ctr(&mut ctrl, 0, u64::MAX);
    assert_eq!(pc.read_general_pmc_ctr(&ctrl, 0), (1u64 << 40) - 1);
    // Width 48 for the fixed kind.
    pc.set_fixed_pmc_ctr(&mut ctrl, 0, u64::MAX);
    assert_eq!(pc.read_fixed_pmc_ctr(&ctrl, 0), (1u64 << 48) - 1);
}

#[test]
fn start_stop_start_commits_same_state_general() {
    let mut ctrl = ctrl_v2();
    let mut pc = PerfCounter::new();
    pc.build_from_intel_hw_event(&ctrl, &event(Counter::Programmable(2)), 2).unwrap();

    pc.start(&mut ctrl).unwrap();
    let enable_first = ctrl.read_globle_ctrl_bits().unwrap();
    assert_eq!(enable_first & (1 << 2), 1 << 2);
    assert!(ctrl.check_in_use(Counter::Programmable(2)));

    pc.stop(&mut ctrl).unwrap();
    assert_eq!(ctrl.read_globle_ctrl_bits().unwrap() & (1 << 2), 0);
    assert!(!ctrl.check_in_use(Counter::Programmable(2)));

    pc.start(&mut ctrl).unwrap();
    assert_eq!(ctrl.read_globle_ctrl_bits().unwrap(), enable_first);
    assert!(ctrl.check_in_use(Counter::Programmable(2)));
}

#[test]
fn start_stop_start_commits_same_state_fixed() {
    let mut ctrl = ctrl_v2();
    let mut pc = PerfCounter::new();
    pc.build_from_intel_hw_event(&ctrl, &event(Counter::Fixed(1)), 0).unwrap();

    pc.start(&mut ctrl).unwrap();
    let enable_first = ctrl.read_globle_ctrl_bits().unwrap();
    assert_eq!(enable_first & (1 << 33), 1 << 33);
    assert!(ctrl.check_in_use(Counter::Fixed(1)));

    pc.stop(&mut ctrl).unwrap();
    assert!(!ctrl.check_in_use(Counter::Fixed(1)));

    pc.start(&mut ctrl).unwrap();
    assert_eq!(ctrl.read_globle_ctrl_bits().unwrap(), enable_first);
    assert!(ctrl.check_in_use(Counter::Fixed(1)));
}

#[test]
fn two_slot_enables_lose_no_update() {
    // The serialised read-modify-write sequences of two distinct slots both
    // land in the shared enable register.
    let mut ctrl = ctrl_v2();
    ctrl.enable_counter(Counter::Programmable(0));
    ctrl.enable_counter(Counter::Fixed(1));
    assert_eq!(ctrl.read_globle_ctrl_bits().unwrap(), 0x1 | (1 << 33));
    ctrl.disable_counter(Counter::Programmable(0));
    assert_eq!(ctrl.read_globle_ctrl_bits().unwrap(), 1 << 33);
}

#[test]
fn global_register_is_version_gated() {
    let mut ctrl = PerfCounterControler::new();
    ctrl.init(0x1 | (4 << 8), 0, 0, 0, 0);
    assert_eq!(
        ctrl.read_globle_ctrl_bits(),
        Err(ErrorMsg::UnsupportedVersion)
    );
    // Writes and slot toggles below version 2 are silent no-ops.
    ctrl.set_globle_ctrl(u64::MAX);
    ctrl.enable_counter(Counter::Programmable(0));
    assert_eq!(
        ctrl.read_globle_ctrl_bits(),
        Err(ErrorMsg::UnsupportedVersion)
    );
}

#[test]
fn in_use_is_advisory_before_start() {
    // The in-use check is how a caller avoids stealing a slot: it reflects
    // the committed control state, not the handle's local configuration.
    let mut ctrl = ctrl_v2();
    let mut pc = PerfCounter::new();
    pc.build_from_intel_hw_event(&ctrl, &event(Counter::Programmable(1)), 1).unwrap();
    assert!(!ctrl.check_in_use(Counter::Programmable(1)));
    pc.start(&mut ctrl).unwrap();
    assert!(ctrl.check_in_use(Counter::Programmable(1)));
    // Another slot stays free.
    assert!(!ctrl.check_in_use(Counter::Programmable(0)));
    assert!(!ctrl.check_in_use(Counter::Fixed(1)));
}

#[test]
fn interrupt_routing() {
    let mut ctrl = ctrl_v2();
    ctrl.register_overflow_interrput(0xEE);
    assert_eq!(ctrl.read_overflow_interrupt_ctrl(), 0xEE);
    // Rearming clears only the masked bit; the routed vector stays.
    ctrl.reset_overflow_interrput();
    assert_eq!(ctrl.read_overflow_interrupt_ctrl(), 0xEE);
}
