//! Capability discovery: decoding the identification queries into the
//! controller's capability facts, including the width-defaulting rules.

use perfcnt_x86::x86_intel::globle_ctrl::PerfCounterControler;

/// Identification values for a version-2 machine with 4 general counters of
/// width 40, 3 fixed counters of width 48, and full-width writes supported.
fn ctrl_v2() -> PerfCounterControler {
    let mut ctrl = PerfCounterControler::new();
    let rax: u64 = 0x2 | (4 << 8) | (40 << 16) | (0x7 << 24);
    let rdx: u64 = 3 | (48 << 5);
    let rbx: u64 = 0x20;
    ctrl.init(rax, rdx, rbx, 1 << 15, 1 << 13);
    ctrl
}

#[test]
fn discover_v2_capabilities() {
    let ctrl = ctrl_v2();
    assert_eq!(ctrl.get_version_identifier(), 2);
    assert_eq!(ctrl.get_number_msr(), 4);
    assert_eq!(ctrl.get_bit_width(), 40);
    assert_eq!(ctrl.get_events_available(), 0x7);
    assert_eq!(ctrl.get_number_fixed_function_counter(), 3);
    assert_eq!(ctrl.get_bit_width_fixed_counter(), 48);
    assert_eq!(ctrl.get_unavailable_events_vec(), 0x20);
    assert!(ctrl.get_perf_capability());
}

#[test]
fn new_controller_is_blank() {
    let ctrl = PerfCounterControler::new();
    assert_eq!(ctrl.get_version_identifier(), 0);
    assert_eq!(ctrl.get_number_msr(), 0);
    assert_eq!(ctrl.get_bit_width(), 0);
    assert_eq!(ctrl.get_events_available(), 0);
    assert_eq!(ctrl.get_number_fixed_function_counter(), 0);
    assert_eq!(ctrl.get_bit_width_fixed_counter(), 0);
    assert_eq!(ctrl.get_unavailable_events_vec(), 0);
    assert!(!ctrl.get_perf_capability());
}

#[test]
fn width_forced_to_32_without_capability_register() {
    // Feature bit 15 clear: the capability register is never consulted and
    // the general counter width is forced to 32, whatever was reported.
    let mut ctrl = PerfCounterControler::new();
    let rax: u64 = 0x2 | (4 << 8) | (48 << 16);
    ctrl.init(rax, 3 | (48 << 5), 0, 0, u64::MAX);
    assert!(!ctrl.get_perf_capability());
    assert_eq!(ctrl.get_bit_width(), 32);
}

#[test]
fn width_forced_to_32_without_full_width_bit() {
    // Capability register present but bit 13 clear: width forced to 32.
    let mut ctrl = PerfCounterControler::new();
    let rax: u64 = 0x2 | (4 << 8) | (48 << 16);
    ctrl.init(rax, 0, 0, 1 << 15, 0);
    assert!(!ctrl.get_perf_capability());
    assert_eq!(ctrl.get_bit_width(), 32);
}

#[test]
fn width_defaults_to_40_when_version_byte_clear() {
    // Reported widths are taken only when the identification leaf reports a
    // version; otherwise the width defaults to 40 (kept here because the
    // full-width capability is present).
    let mut ctrl = PerfCounterControler::new();
    let rax: u64 = 0 | (2 << 8) | (48 << 16);
    ctrl.init(rax, 0, 0, 1 << 15, 1 << 13);
    assert_eq!(ctrl.get_version_identifier(), 0);
    assert!(ctrl.get_perf_capability());
    assert_eq!(ctrl.get_bit_width(), 40);
}

#[test]
fn has_perf_capabilities_register_reads_feature_bit() {
    assert!(perfcnt_x86::x86_intel::globle_ctrl::has_perf_capabilities_register(1 << 15));
    assert!(!perfcnt_x86::x86_intel::globle_ctrl::has_perf_capabilities_register(0));
    assert!(!perfcnt_x86::x86_intel::globle_ctrl::has_perf_capabilities_register(
        !(1u64 << 15)
    ));
}
