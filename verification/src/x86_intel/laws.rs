//! Laws of the counter-control subsystem, proved over the register model:
//! the event-selection encoding is a faithful round trip, a reset counter
//! reads zero, repeated start/stop cycles commit the same control state,
//! serialised slot enables lose no update, the acknowledge pulse clears
//! exactly the acknowledged slot's status bit, and an armed threshold
//! overflows on the event after the threshold is reached.

use vstd::prelude::*;

use crate::x86_intel::counter_mask_of;
use crate::x86_intel::edge_detect_of;
use crate::x86_intel::event_code_of;
use crate::x86_intel::globle_ctrl::lemma_ack_pulse_clears;
use crate::x86_intel::globle_ctrl::spec_count_events;
use crate::x86_intel::globle_ctrl::spec_ctr_value;
use crate::x86_intel::globle_ctrl::spec_ctr_width;
use crate::x86_intel::globle_ctrl::spec_slot_bit;
use crate::x86_intel::globle_ctrl::spec_width_mask;
use crate::x86_intel::globle_ctrl::valid_slot;
use crate::x86_intel::globle_ctrl::CtrlView;
use crate::x86_intel::invert_of;
use crate::x86_intel::local_enable_of;
use crate::x86_intel::any_thread_of;
use crate::x86_intel::os_mode_of;
use crate::x86_intel::pmi_of;
use crate::x86_intel::spec_ctr_width_ok;
use crate::x86_intel::spec_event_select;
use crate::x86_intel::spec_overflow_after;
use crate::x86_intel::spec_read_pmc;
use crate::x86_intel::spec_reset;
use crate::x86_intel::spec_start;
use crate::x86_intel::spec_stop;
use crate::x86_intel::unit_mask_of;
use crate::x86_intel::user_mode_of;
use crate::x86_intel::Counter;
use crate::x86_intel::PerfCounter;

verus! {

/// Reading each documented field back out of an assembled general-purpose
/// event-select word reproduces exactly the inputs it was assembled from:
/// the encoding is a round trip over the bit layout.
pub proof fn lemma_event_select_round_trip(
    code: u8,
    umask: u8,
    user: bool,
    os: bool,
    edge: bool,
    pmi: bool,
    any: bool,
    enable: bool,
    inv: bool,
    cmask: u8,
)
    by (bit_vector)
    ensures
        event_code_of(spec_event_select(code, umask, user, os, edge, pmi, any, enable, inv, cmask))
            == code,
        unit_mask_of(spec_event_select(code, umask, user, os, edge, pmi, any, enable, inv, cmask))
            == umask,
        user_mode_of(spec_event_select(code, umask, user, os, edge, pmi, any, enable, inv, cmask))
            == user,
        os_mode_of(spec_event_select(code, umask, user, os, edge, pmi, any, enable, inv, cmask))
            == os,
        edge_detect_of(spec_event_select(code, umask, user, os, edge, pmi, any, enable, inv, cmask))
            == edge,
        pmi_of(spec_event_select(code, umask, user, os, edge, pmi, any, enable, inv, cmask)) == pmi,
        any_thread_of(spec_event_select(code, umask, user, os, edge, pmi, any, enable, inv, cmask))
            == any,
        local_enable_of(
            spec_event_select(code, umask, user, os, edge, pmi, any, enable, inv, cmask),
        ) == enable,
        invert_of(spec_event_select(code, umask, user, os, edge, pmi, any, enable, inv, cmask))
            == inv,
        counter_mask_of(
            spec_event_select(code, umask, user, os, edge, pmi, any, enable, inv, cmask),
        ) == cmask,
{
}

/// A freshly reset slot reads zero, for both counter kinds.
pub proof fn lemma_reset_then_read_is_zero(s: CtrlView, c: Counter)
    requires
        s.wf(),
        valid_slot(c),
    ensures
        spec_read_pmc(spec_reset(s, c), c) == 0,
{
    let m = spec_width_mask(spec_ctr_width(s, c));
    assert((0u64 & m) & m == 0) by (bit_vector);
}

/// Start, stop and start again commit exactly the state that the first
/// start committed: no bit of the control word, of the shared enable
/// register or of any other modeled register drifts across repeated cycles.
pub proof fn lemma_start_stop_start_idempotent(s: CtrlView, pc: PerfCounter)
    requires
        s.wf(),
        pc.wf(),
    ensures
        spec_start(spec_stop(spec_start(s, pc), pc), pc) == spec_start(s, pc),
{
    let s1 = spec_start(s, pc);
    let s3 = spec_start(spec_stop(s1, pc), pc);
    lemma_set_clear_set_bit(s.globle_ctrl, spec_slot_bit(pc.counter_type));
    match pc.counter_type {
        Counter::Programmable(i) => {
            assert(s3.general_pmc_ctrl =~= s1.general_pmc_ctrl);
            assert(s3 =~= s1);
        },
        Counter::Fixed(i) => {
            lemma_nibble_merge_idempotent(
                s.fixed_pmc_ctrl,
                pc.fixed_pmc_mask,
                ((i as u64) * 4) as u64,
            );
            assert(s3 =~= s1);
        },
    }
}

/// Two slot enables in a row — the serialised form that the exclusive
/// borrow of the controller forces on concurrent callers — leave both
/// slots' enable bits set: neither update is lost.
pub proof fn lemma_enable_two_slots_no_lost_update(s: CtrlView, a: Counter, b: Counter)
    requires
        s.version_identifier >= 2,
        valid_slot(a),
        valid_slot(b),
        a != b,
    ensures
        s.enable_counter(a).enable_counter(b).globle_ctrl & spec_slot_bit(a) != 0,
        s.enable_counter(a).enable_counter(b).globle_ctrl & spec_slot_bit(b) != 0,
{
    lemma_slot_bit_nonzero(a);
    lemma_slot_bit_nonzero(b);
    lemma_or_keeps_bits(s.globle_ctrl, spec_slot_bit(a), spec_slot_bit(b));
}

/// The acknowledge pulse clears the acknowledged slot's overflow-status bit
/// and leaves the acknowledge register exactly as it was before the call.
pub proof fn lemma_acknowledge_overflow(s: CtrlView, c: Counter)
    ensures
        s.clear_overflow_bit(c).overflow_status & spec_slot_bit(c) == 0,
        s.clear_overflow_bit(c).overflow_ctrl == s.overflow_ctrl,
{
    lemma_ack_pulse_clears(s.overflow_status, s.overflow_ctrl, spec_slot_bit(c));
}

/// Arming a threshold of `t` and then driving qualifying events meets the
/// boundary exactly: after `t` events the slot's overflow-status bit is
/// still clear, and the event after that sets it.
pub proof fn lemma_overflow_after_boundary(s: CtrlView, c: Counter, t: u64)
    requires
        s.wf(),
        valid_slot(c),
        spec_ctr_width_ok(s, c),
        t <= spec_width_mask(spec_ctr_width(s, c)),
        s.overflow_status & spec_slot_bit(c) == 0,
    ensures
        spec_count_events(spec_overflow_after(s, c, t), c, t as nat).overflow_status
            & spec_slot_bit(c) == 0,
        spec_count_events(spec_overflow_after(s, c, t), c, (t as nat) + 1).overflow_status
            & spec_slot_bit(c) != 0,
{
    let w = spec_ctr_width(s, c);
    let m = spec_width_mask(w);
    let s0 = spec_overflow_after(s, c, t);
    lemma_complement_load(t, w as u64);
    assert(spec_ctr_value(s0, c) == m - t);
    lemma_count_up_to(s0, c, t as nat);
    let st = spec_count_events(s0, c, t as nat);
    assert(spec_ctr_value(st, c) == m);
    assert(st.overflow_status == s.overflow_status);
    assert(spec_count_events(s0, c, (t as nat) + 1) == st.count_event(c));
    assert(m & m == m) by (bit_vector);
    lemma_slot_bit_nonzero(c);
    lemma_or_bit_set(st.overflow_status, spec_slot_bit(c));
}

/// Driving `k` qualifying events while the counter stays at or below its
/// width mask steps the stored value by exactly `k` and raises no
/// overflow-status bit.
proof fn lemma_count_up_to(s0: CtrlView, c: Counter, k: nat)
    requires
        s0.wf(),
        valid_slot(c),
        spec_ctr_width_ok(s0, c),
        spec_ctr_value(s0, c) + k <= spec_width_mask(spec_ctr_width(s0, c)),
    ensures
        spec_count_events(s0, c, k).wf(),
        spec_ctr_width(spec_count_events(s0, c, k), c) == spec_ctr_width(s0, c),
        spec_ctr_value(spec_count_events(s0, c, k), c) == spec_ctr_value(s0, c) + k,
        spec_count_events(s0, c, k).overflow_status == s0.overflow_status,
    decreases k,
{
    let w = spec_ctr_width(s0, c);
    let m = spec_width_mask(w);
    if k > 0 {
        lemma_count_up_to(s0, c, (k - 1) as nat);
        let sk1 = spec_count_events(s0, c, (k - 1) as nat);
        let cur = spec_ctr_value(sk1, c);
        assert(cur < m);
        lemma_below_mask_identity(cur, w as u64);
        assert(cur & m == cur);
        assert(spec_count_events(s0, c, k) == sk1.count_event(c));
    }
}

/// A value at or below an all-ones width mask is unchanged by it.
proof fn lemma_below_mask_identity(x: u64, w: u64)
    by (bit_vector)
    requires
        w < 64,
        x <= (((1u64 << w) - 1) as u64),
    ensures
        x & (((1u64 << w) - 1) as u64) == x,
{
}

/// Loading the bitwise complement of a threshold that fits the counter
/// width leaves the counter exactly the threshold short of its mask.
proof fn lemma_complement_load(t: u64, w: u64)
    by (bit_vector)
    requires
        w < 64,
        t <= (((1u64 << w) - 1) as u64),
    ensures
        (!t) & (((1u64 << w) - 1) as u64) == (((1u64 << w) - 1) as u64) - t,
{
}

/// Setting a bit, clearing it and setting it again is the same as setting
/// it once.
proof fn lemma_set_clear_set_bit(g: u64, b: u64)
    by (bit_vector)
    ensures
        ((g | b) & !b) | b == g | b,
{
}

/// Merging one slot's nibble, clearing it and merging it again commits the
/// same fixed control register as the first merge.
proof fn lemma_nibble_merge_idempotent(f: u64, m: u64, sh: u64)
    by (bit_vector)
    requires
        m < 16,
    ensures
        ((((f & !(15u64 << sh)) | (m << sh)) & !(15u64 << sh)) & !(15u64 << sh)) | (m << sh) == (f
            & !(15u64 << sh)) | (m << sh),
{
}

/// A set bit survives further bit sets on the same word.
proof fn lemma_or_keeps_bits(g: u64, x: u64, y: u64)
    by (bit_vector)
    ensures
        x != 0 ==> ((g | x) | y) & x != 0,
        y != 0 ==> ((g | x) | y) & y != 0,
{
}

/// Setting a nonzero bit pattern makes it visible in the word.
proof fn lemma_or_bit_set(s: u64, b: u64)
    by (bit_vector)
    ensures
        b != 0 ==> (s | b) & b != 0,
{
}

/// A valid slot's register bit is an actual bit: nonzero.
proof fn lemma_slot_bit_nonzero(c: Counter)
    requires
        valid_slot(c),
    ensures
        spec_slot_bit(c) != 0,
{
    match c {
        Counter::Programmable(i) => {
            assert(i < 32 ==> 1u64 << (i as u64) != 0) by (bit_vector);
        },
        Counter::Fixed(i) => {
            assert(i < 32 ==> 1u64 << (((i as int) + 32) as u64) != 0) by (bit_vector);
        },
    }
}

} // verus!
