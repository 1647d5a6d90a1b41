//! A performance counter handle for a single programmable or fixed PMC slot.
//!
//! A `PerfCounter` assembles the event-selection control word for its slot and
//! drives the slot's lifecycle (`reset`, `start`, `stop`, `read`) through the
//! shared [`globle_ctrl::PerfCounterControler`], which owns the per-core
//! register state that all slots share.

pub mod globle_ctrl;
pub mod laws;

use vstd::prelude::*;

use crate::x86_intel::globle_ctrl::spec_slot_bit;
use crate::x86_intel::globle_ctrl::spec_width_mask;
use crate::x86_intel::globle_ctrl::valid_slot;
use crate::x86_intel::globle_ctrl::width_mask;
use crate::x86_intel::globle_ctrl::CtrlView;
use crate::x86_intel::globle_ctrl::PerfCounterControler;
use crate::x86_intel::globle_ctrl::FIXED_CTRL_SLOTS;
use crate::x86_intel::globle_ctrl::PMC_SLOTS;

verus! {

/// Enable bit (bit 22) of a general-purpose event-select register.
pub const ENABLE_GENERAL_PMC_MASK: u64 = 0x400000;

/// Errors surfaced by counter configuration and the version-gated global
/// register operations.
#[derive(Debug, Clone, Copy, PartialEq, Eq, Structural)]
pub enum ErrorMsg {
    CounterInUse,
    UnsupportedEvent,
    CounterOutOfRange,
    UnsupportedFixPMC,
    UnsupportedVersion,
}

/// One hardware counter slot: a fixed-function counter or a general-purpose
/// (programmable) counter, each carrying its slot index within its kind.
#[derive(Debug, Clone, Copy, PartialEq, Eq, Structural)]
pub enum Counter {
    Fixed(u8),
    Programmable(u8),
}

/// An event code or unit mask: a single byte, or a compound pair that this
/// design does not encode.
#[derive(Debug, Clone, Copy, PartialEq, Eq, Structural)]
pub enum Tuple {
    One(u8),
    Two(u8, u8),
}

/// A structured description of one architectural event, as supplied by an
/// external event catalog: which counter kind it targets, its selection
/// fields, and its qualifier flags.
#[derive(Debug, Clone, Copy, PartialEq, Eq, Structural)]
pub struct EventDescription {
    pub event_code: Tuple,
    pub umask: Tuple,
    pub counter: Counter,
    pub counter_mask: u8,
    pub edge_detect: bool,
    pub any_thread: bool,
    pub invert: bool,
}

/// The documented bit layout of a general-purpose event-select register:
/// bits[0:8) event code, bits[8:16) unit mask, bit 16 user mode, bit 17 OS
/// mode, bit 18 edge detect, bit 20 PMI on overflow, bit 21 any thread,
/// bit 22 local enable, bit 23 invert, bits[24:32) counter-mask threshold.
pub open spec fn spec_event_select(
    code: u8,
    umask: u8,
    user: bool,
    os: bool,
    edge: bool,
    pmi: bool,
    any: bool,
    enable: bool,
    inv: bool,
    cmask: u8,
) -> u64 {
    (code as u64) | ((umask as u64) << 8) | (if user {
        1u64 << 16
    } else {
        0
    }) | (if os {
        1u64 << 17
    } else {
        0
    }) | (if edge {
        1u64 << 18
    } else {
        0
    }) | (if pmi {
        1u64 << 20
    } else {
        0
    }) | (if any {
        1u64 << 21
    } else {
        0
    }) | (if enable {
        1u64 << 22
    } else {
        0
    }) | (if inv {
        1u64 << 23
    } else {
        0
    }) | ((cmask as u64) << 24)
}

/// Event-code field of an assembled event-select word.
pub open spec fn event_code_of(w: u64) -> u8 {
    (w & 0xFF) as u8
}

/// Unit-mask field of an assembled event-select word.
pub open spec fn unit_mask_of(w: u64) -> u8 {
    ((w >> 8) & 0xFF) as u8
}

/// User-mode enable bit of an assembled event-select word.
pub open spec fn user_mode_of(w: u64) -> bool {
    w & (1u64 << 16) != 0
}

/// OS-mode enable bit of an assembled event-select word.
pub open spec fn os_mode_of(w: u64) -> bool {
    w & (1u64 << 17) != 0
}

/// Edge-detect bit of an assembled event-select word.
pub open spec fn edge_detect_of(w: u64) -> bool {
    w & (1u64 << 18) != 0
}

/// PMI-on-overflow bit of an assembled event-select word.
pub open spec fn pmi_of(w: u64) -> bool {
    w & (1u64 << 20) != 0
}

/// Any-thread bit of an assembled event-select word.
pub open spec fn any_thread_of(w: u64) -> bool {
    w & (1u64 << 21) != 0
}

/// Local-enable bit of an assembled event-select word.
pub open spec fn local_enable_of(w: u64) -> bool {
    w & (1u64 << 22) != 0
}

/// Invert bit of an assembled event-select word.
pub open spec fn invert_of(w: u64) -> bool {
    w & (1u64 << 23) != 0
}

/// Counter-mask threshold field of an assembled event-select word.
pub open spec fn counter_mask_of(w: u64) -> u8 {
    ((w >> 24) & 0xFF) as u8
}

/// The documented layout of a fixed-function control nibble: bits 0..2 the
/// enabled ring levels (both set: count in OS and user mode), bit 2 any
/// thread (architecture version above 2 only), bit 3 PMI on overflow.
pub open spec fn spec_fixed_ctrl_nibble(any_thread: bool, version: u8) -> u64 {
    0xBu64 | (if any_thread && version > 2 {
        4u64
    } else {
        0u64
    })
}

/// A handle for one hardware counter slot. It assembles the slot's
/// event-selection control word locally; nothing reaches the modeled
/// registers until `start`.
#[derive(Debug, Clone, Copy, PartialEq, Eq, Structural)]
pub struct PerfCounter {
    pub counter_type: Counter,
    pub pmc_index: u8,
    pub general_pmc_mask: u64,
    pub fixed_pmc_mask: u64,
}

impl PerfCounter {
    /// A handle fit to drive its slot: the cached index agrees with the
    /// kind's own index, the index addresses a modeled slot (general slots
    /// share the enable register's low half, fixed control nibbles fit one
    /// 64-bit register), and a fixed control word stays within its nibble.
    pub open spec fn wf(self) -> bool {
        match self.counter_type {
            Counter::Programmable(i) => i == self.pmc_index && i < globle_ctrl::PMC_SLOTS,
            Counter::Fixed(i) => i == self.pmc_index && i < globle_ctrl::FIXED_CTRL_SLOTS
                && self.fixed_pmc_mask < 16,
        }
    }

    /// An unconfigured handle for general slot 0.
    pub fn new() -> (r: PerfCounter)
        ensures
            r.counter_type == Counter::Programmable(0),
            r.pmc_index == 0,
            r.general_pmc_mask == 0,
            r.fixed_pmc_mask == 0,
            r.wf(),
    {
        PerfCounter {
            counter_type: Counter::Programmable(0),
            pmc_index: 0,
            general_pmc_mask: 0,
            fixed_pmc_mask: 0,
        }
    }

    /// Configure this handle from a structured event descriptor.
    ///
    /// A descriptor targeting a fixed slot needs architecture version 2 and a
    /// slot index below the discovered fixed-counter count; the `index`
    /// argument is ignored for it. A descriptor targeting a general slot is
    /// assembled for slot `index`, which must lie below the discovered
    /// general-counter count; compound event codes or unit masks are not
    /// encoded. User mode, OS mode, local enable and PMI on overflow are
    /// always selected.
    pub fn build_from_intel_hw_event(
        &mut self,
        ctrl: &globle_ctrl::PerfCounterControler,
        event: &EventDescription,
        index: u8,
    ) -> (r: Result<(), ErrorMsg>)
        ensures
            match event.counter {
                Counter::Fixed(fidx) => {
                    &&& (ctrl@.version_identifier < 2 ==> r == Err::<(), ErrorMsg>(
                        ErrorMsg::UnsupportedFixPMC,
                    ) && *final(self) == *old(self))
                    &&& (ctrl@.version_identifier >= 2 && fidx
                        >= ctrl@.number_fixed_function_counter ==> r == Err::<(), ErrorMsg>(
                        ErrorMsg::CounterOutOfRange,
                    ) && *final(self) == *old(self))
                    &&& (ctrl@.version_identifier >= 2 && fidx
                        < ctrl@.number_fixed_function_counter ==> {
                        &&& r is Ok
                        &&& final(self).counter_type == Counter::Fixed(fidx)
                        &&& final(self).pmc_index == fidx
                        &&& final(self).fixed_pmc_mask == spec_fixed_ctrl_nibble(
                            event.any_thread,
                            ctrl@.version_identifier,
                        )
                        &&& final(self).general_pmc_mask == old(self).general_pmc_mask
                        &&& (fidx < FIXED_CTRL_SLOTS ==> final(self).wf())
                    })
                },
                Counter::Programmable(_) => {
                    &&& (index >= ctrl@.number_msr ==> r == Err::<(), ErrorMsg>(
                        ErrorMsg::CounterOutOfRange,
                    ) && *final(self) == *old(self))
                    &&& (index < ctrl@.number_msr && (event.event_code is Two
                        || event.umask is Two) ==> r == Err::<(), ErrorMsg>(
                        ErrorMsg::UnsupportedEvent,
                    ) && *final(self) == *old(self))
                    &&& (index < ctrl@.number_msr && event.event_code is One
                        && event.umask is One ==> {
                        &&& r is Ok
                        &&& final(self).counter_type == Counter::Programmable(index)
                        &&& final(self).pmc_index == index
                        &&& final(self).general_pmc_mask == spec_event_select(
                            event.event_code->One_0,
                            event.umask->One_0,
                            true,
                            true,
                            event.edge_detect,
                            true,
                            event.any_thread,
                            true,
                            event.invert,
                            event.counter_mask,
                        )
                        &&& final(self).fixed_pmc_mask == old(self).fixed_pmc_mask
                        &&& (index < PMC_SLOTS ==> final(self).wf())
                    })
                },
            },
    {
        match event.counter {
            Counter::Fixed(fidx) => {
                if ctrl.get_version_identifier() < 2 {
                    return Err(ErrorMsg::UnsupportedFixPMC);
                }
                if fidx >= ctrl.get_number_fixed_function_counter() {
                    return Err(ErrorMsg::CounterOutOfRange);
                }
                self.counter_type = Counter::Fixed(fidx);
                self.pmc_index = fidx;
                self.fixed_pmc_mask = 0xBu64 | (if event.any_thread
                    && ctrl.get_version_identifier() > 2 {
                    4u64
                } else {
                    0u64
                });
                proof {
                    assert((0xBu64 | 4u64) < 16 && (0xBu64 | 0u64) < 16) by (bit_vector);
                }
                Ok(())
            },
            Counter::Programmable(_) => {
                if index >= ctrl.get_number_msr() {
                    return Err(ErrorMsg::CounterOutOfRange);
                }
                let code: u8 = match event.event_code {
                    Tuple::One(c) => c,
                    Tuple::Two(_, _) => {
                        return Err(ErrorMsg::UnsupportedEvent);
                    },
                };
                let um: u8 = match event.umask {
                    Tuple::One(c) => c,
                    Tuple::Two(_, _) => {
                        return Err(ErrorMsg::UnsupportedEvent);
                    },
                };
                let config: u64 = (code as u64) | ((um as u64) << 8) | (1u64 << 16) | (1u64 << 17)
                    | (if event.edge_detect {
                    1u64 << 18
                } else {
                    0
                }) | (1u64 << 20) | (if event.any_thread {
                    1u64 << 21
                } else {
                    0
                }) | (1u64 << 22) | (if event.invert {
                    1u64 << 23
                } else {
                    0
                }) | ((event.counter_mask as u64) << 24);
                self.pmc_index = index;
                self.counter_type = Counter::Programmable(index);
                self.general_pmc_mask = config;
                Ok(())
            },
        }
    }

    /// Assemble a general-purpose control word for slot `pmc_index` directly
    /// from raw selection fields. Local enable and PMI on overflow are always
    /// selected; edge detect follows its flag, any-thread and invert stay
    /// clear. Only the low byte of the event code and of the unit mask is
    /// encoded.
    pub fn build_general_from_raw(
        &mut self,
        eventmask: u32,
        umask: u32,
        user_enabled: bool,
        os_enabled: bool,
        counter_mask: u8,
        edge_detect: bool,
        pmc_index: u8,
    )
        ensures
            final(self).general_pmc_mask == spec_event_select(
                (eventmask & 0xFF) as u8,
                (umask & 0xFF) as u8,
                user_enabled,
                os_enabled,
                edge_detect,
                true,
                false,
                true,
                false,
                counter_mask,
            ),
            final(self).counter_type == Counter::Programmable(pmc_index),
            final(self).pmc_index == pmc_index,
            final(self).fixed_pmc_mask == old(self).fixed_pmc_mask,
            pmc_index < PMC_SLOTS ==> final(self).wf(),
    {
        proof {
            assert(eventmask & 0xFF < 256 && umask & 0xFF < 256) by (bit_vector);
        }
        let code: u8 = (eventmask & 0xFF) as u8;
        let um: u8 = (umask & 0xFF) as u8;
        self.general_pmc_mask = (code as u64) | ((um as u64) << 8) | (if user_enabled {
            1u64 << 16
        } else {
            0
        }) | (if os_enabled {
            1u64 << 17
        } else {
            0
        }) | (if edge_detect {
            1u64 << 18
        } else {
            0
        }) | (1u64 << 20) | 0u64 | (1u64 << 22) | 0u64 | ((counter_mask as u64) << 24);
        self.counter_type = Counter::Programmable(pmc_index);
        self.pmc_index = pmc_index;
    }

    /// Clear the control bit that selects counting in OS mode: bit 17 of a
    /// general control word, bit 0 of a fixed control nibble.
    pub fn exnclude_os(&mut self)
        ensures
            final(self).counter_type == old(self).counter_type,
            final(self).pmc_index == old(self).pmc_index,
            match old(self).counter_type {
                Counter::Fixed(_) => final(self).fixed_pmc_mask == old(self).fixed_pmc_mask & !1u64
                    && final(self).general_pmc_mask == old(self).general_pmc_mask,
                Counter::Programmable(_) => final(self).general_pmc_mask == old(
                    self,
                ).general_pmc_mask & !(1u64 << 17) && final(self).fixed_pmc_mask == old(
                    self,
                ).fixed_pmc_mask,
            },
            old(self).wf() ==> final(self).wf(),
    {
        proof {
            lemma_clearing_keeps_nibble(self.fixed_pmc_mask, 1u64);
        }
        match self.counter_type {
            Counter::Fixed(_) => {
                self.fixed_pmc_mask = self.fixed_pmc_mask & !1u64;
            },
            Counter::Programmable(_) => {
                self.general_pmc_mask = self.general_pmc_mask & !(1u64 << 17);
            },
        }
    }

    /// Clear the control bit that selects counting in user mode: bit 16 of a
    /// general control word, bit 1 of a fixed control nibble.
    pub fn exclude_user(&mut self)
        ensures
            final(self).counter_type == old(self).counter_type,
            final(self).pmc_index == old(self).pmc_index,
            match old(self).counter_type {
                Counter::Fixed(_) => final(self).fixed_pmc_mask == old(self).fixed_pmc_mask & !2u64
                    && final(self).general_pmc_mask == old(self).general_pmc_mask,
                Counter::Programmable(_) => final(self).general_pmc_mask == old(
                    self,
                ).general_pmc_mask & !(1u64 << 16) && final(self).fixed_pmc_mask == old(
                    self,
                ).fixed_pmc_mask,
            },
            old(self).wf() ==> final(self).wf(),
    {
        proof {
            lemma_clearing_keeps_nibble(self.fixed_pmc_mask, 2u64);
        }
        match self.counter_type {
            Counter::Fixed(_) => {
                self.fixed_pmc_mask = self.fixed_pmc_mask & !2u64;
            },
            Counter::Programmable(_) => {
                self.general_pmc_mask = self.general_pmc_mask & !(1u64 << 16);
            },
        }
    }

    /// Clear the control bit that arms a PMI on overflow: bit 20 of a general
    /// control word, bit 3 of a fixed control nibble.
    pub fn disable_interrupt(&mut self)
        ensures
            final(self).counter_type == old(self).counter_type,
            final(self).pmc_index == old(self).pmc_index,
            match old(self).counter_type {
                Counter::Fixed(_) => final(self).fixed_pmc_mask == old(self).fixed_pmc_mask & !8u64
                    && final(self).general_pmc_mask == old(self).general_pmc_mask,
                Counter::Programmable(_) => final(self).general_pmc_mask == old(
                    self,
                ).general_pmc_mask & !(1u64 << 20) && final(self).fixed_pmc_mask == old(
                    self,
                ).fixed_pmc_mask,
            },
            old(self).wf() ==> final(self).wf(),
    {
        proof {
            lemma_clearing_keeps_nibble(self.fixed_pmc_mask, 8u64);
        }
        match self.counter_type {
            Counter::Fixed(_) => {
                self.fixed_pmc_mask = self.fixed_pmc_mask & !8u64;
            },
            Counter::Programmable(_) => {
                self.general_pmc_mask = self.general_pmc_mask & !(1u64 << 20);
            },
        }
    }

    pub fn get_pmc_index(&self) -> (r: u8)
        ensures
            r == self.pmc_index,
    {
        self.pmc_index
    }

    pub fn get_counter_type(&self) -> (r: Counter)
        ensures
            r == self.counter_type,
    {
        self.counter_type
    }

    pub fn get_general_pmc_mask(&self) -> (r: u64)
        ensures
            r == self.general_pmc_mask,
    {
        self.general_pmc_mask
    }

    pub fn get_fixed_pmc_mask(&self) -> (r: u64)
        ensures
            r == self.fixed_pmc_mask,
    {
        self.fixed_pmc_mask
    }
}

/// Clearing bits of a value below 16 leaves it below 16.
proof fn lemma_clearing_keeps_nibble(m: u64, x: u64)
    by (bit_vector)
    ensures
        m < 16 ==> (m & !x) < 16,
{
}

/// The counter-value register that the slot's kind addresses can carry a
/// masked value: its kind's discovered bit width fits the 64-bit register.
pub open spec fn spec_ctr_width_ok(s: CtrlView, c: Counter) -> bool {
    match c {
        Counter::Programmable(_) => s.bit_width < 64,
        Counter::Fixed(_) => s.bit_width_fixed_counter < 64,
    }
}

/// Write a general slot's counter-value register: the value lands masked to
/// the discovered general counter width.
pub open spec fn spec_set_general_pmc_ctr(s: CtrlView, index: u8, value: u64) -> CtrlView {
    CtrlView {
        general_pmc_ctr: s.general_pmc_ctr.update(
            index as int,
            value & spec_width_mask(s.bit_width),
        ),
        ..s
    }
}

/// Write a general slot's event-select register.
pub open spec fn spec_set_general_pmc_ctrl(s: CtrlView, index: u8, mask: u64) -> CtrlView {
    CtrlView { general_pmc_ctrl: s.general_pmc_ctrl.update(index as int, mask), ..s }
}

/// Write a fixed slot's counter-value register: the value lands masked to
/// the discovered fixed counter width.
pub open spec fn spec_set_fixed_pmc_ctr(s: CtrlView, index: u8, value: u64) -> CtrlView {
    CtrlView {
        fixed_pmc_ctr: s.fixed_pmc_ctr.update(
            index as int,
            value & spec_width_mask(s.bit_width_fixed_counter),
        ),
        ..s
    }
}

/// Overwrite the shared fixed control register with one slot's nibble: ring
/// levels in the low two bits, PMI enable at bit 3, shifted to the slot's
/// nibble position.
pub open spec fn spec_set_fixed_pmc_ctrl(
    s: CtrlView,
    index: u8,
    enabled_ring_lv: u8,
    is_pmi_enabled: bool,
) -> CtrlView {
    CtrlView {
        fixed_pmc_ctrl: (if is_pmi_enabled {
            (8 + enabled_ring_lv) as u64
        } else {
            enabled_ring_lv as u64
        }) << (((index as int) * 4) as u64),
        ..s
    }
}

/// Start a general slot: raise its shared enable bit, then commit the
/// assembled control word to its event-select register.
pub open spec fn spec_enable_general_pmc(s: CtrlView, c: Counter, index: u8, mask: u64) -> CtrlView {
    spec_set_general_pmc_ctrl(s.enable_counter(c), index, mask)
}

/// Stop a general slot: clear its shared enable bit, then zero its
/// event-select register.
pub open spec fn spec_disable_general_pmc(s: CtrlView, c: Counter, index: u8) -> CtrlView {
    spec_set_general_pmc_ctrl(s.disable_counter(c), index, 0)
}

/// Start a fixed slot: raise its shared enable bit, then merge the assembled
/// nibble into the shared fixed control register, preserving the other
/// slots' nibbles.
pub open spec fn spec_enable_fixed_pmc(s: CtrlView, c: Counter, index: u8, mask: u64) -> CtrlView {
    let s1 = s.enable_counter(c);
    CtrlView {
        fixed_pmc_ctrl: (s1.fixed_pmc_ctrl & !(15u64 << (((index as int) * 4) as u64))) | (mask << (
        ((index as int) * 4) as u64)),
        ..s1
    }
}

/// Stop a fixed slot: clear its shared enable bit, then clear its nibble of
/// the shared fixed control register, preserving the other slots' nibbles.
pub open spec fn spec_disable_fixed_pmc(s: CtrlView, c: Counter, index: u8) -> CtrlView {
    let s1 = s.disable_counter(c);
    CtrlView {
        fixed_pmc_ctrl: s1.fixed_pmc_ctrl & !(15u64 << (((index as int) * 4) as u64)),
        ..s1
    }
}

/// The raw value the slot's counter-value register holds, masked to its
/// kind's discovered bit width.
pub open spec fn spec_read_pmc(s: CtrlView, c: Counter) -> u64 {
    match c {
        Counter::Programmable(i) => s.general_pmc_ctr[i as int] & spec_width_mask(s.bit_width),
        Counter::Fixed(i) => s.fixed_pmc_ctr[i as int] & spec_width_mask(
            s.bit_width_fixed_counter,
        ),
    }
}

/// Zero the slot's counter-value register.
pub open spec fn spec_reset(s: CtrlView, c: Counter) -> CtrlView {
    match c {
        Counter::Programmable(i) => spec_set_general_pmc_ctr(s, i, 0),
        Counter::Fixed(i) => spec_set_fixed_pmc_ctr(s, i, 0),
    }
}

/// Commit the handle's control word and raise its shared enable bit.
pub open spec fn spec_start(s: CtrlView, pc: PerfCounter) -> CtrlView {
    match pc.counter_type {
        Counter::Programmable(_) => spec_enable_general_pmc(
            s,
            pc.counter_type,
            pc.pmc_index,
            pc.general_pmc_mask,
        ),
        Counter::Fixed(_) => spec_enable_fixed_pmc(
            s,
            pc.counter_type,
            pc.pmc_index,
            pc.fixed_pmc_mask,
        ),
    }
}

/// Clear the handle's shared enable bit and its local control state.
pub open spec fn spec_stop(s: CtrlView, pc: PerfCounter) -> CtrlView {
    match pc.counter_type {
        Counter::Programmable(_) => spec_disable_general_pmc(s, pc.counter_type, pc.pmc_index),
        Counter::Fixed(_) => spec_disable_fixed_pmc(s, pc.counter_type, pc.pmc_index),
    }
}

/// Arm the slot to overflow after exactly `threshold + 1` further qualifying
/// events: its counter-value register takes the bitwise complement of
/// `threshold`, masked to the counter's width.
pub open spec fn spec_overflow_after(s: CtrlView, c: Counter, threshold: u64) -> CtrlView {
    match c {
        Counter::Programmable(i) => spec_set_general_pmc_ctr(s, i, !threshold),
        Counter::Fixed(i) => spec_set_fixed_pmc_ctr(s, i, !threshold),
    }
}

impl PerfCounter {
    /// Read a general slot's counter value, masked to the discovered general
    /// counter width.
    pub fn read_general_pmc_ctr(&self, ctrl: &PerfCounterControler, index: u8) -> (r: u64)
        requires
            ctrl@.wf(),
            index < PMC_SLOTS,
            ctrl@.bit_width < 64,
        ensures
            r == ctrl@.general_pmc_ctr[index as int] & spec_width_mask(ctrl@.bit_width),
    {
        ctrl.read_general_ctr_reg(index) & width_mask(ctrl.get_bit_width())
    }

    /// Read a fixed slot's counter value, masked to the discovered fixed
    /// counter width.
    pub fn read_fixed_pmc_ctr(&self, ctrl: &PerfCounterControler, index: u8) -> (r: u64)
        requires
            ctrl@.wf(),
            index < PMC_SLOTS,
            ctrl@.bit_width_fixed_counter < 64,
        ensures
            r == ctrl@.fixed_pmc_ctr[index as int] & spec_width_mask(
                ctrl@.bit_width_fixed_counter,
            ),
    {
        ctrl.read_fixed_ctr_reg(index) & width_mask(ctrl.get_bit_width_fixed_counter())
    }

    /// Write a general slot's counter-value register, masked to the
    /// discovered general counter width.
    pub fn set_general_pmc_ctr(&self, ctrl: &mut PerfCounterControler, index: u8, value: u64)
        requires
            old(ctrl)@.wf(),
            index < PMC_SLOTS,
            old(ctrl)@.bit_width < 64,
        ensures
            final(ctrl)@ == spec_set_general_pmc_ctr(old(ctrl)@, index, value),
    {
        let value = value & width_mask(ctrl.get_bit_width());
        ctrl.write_general_ctr_reg(index, value);
    }

    /// Write a general slot's event-select register.
    pub fn set_general_pmc_ctrl(&self, ctrl: &mut PerfCounterControler, mask: u64, index: u8)
        requires
            old(ctrl)@.wf(),
            index < PMC_SLOTS,
        ensures
            final(ctrl)@ == spec_set_general_pmc_ctrl(old(ctrl)@, index, mask),
    {
        ctrl.write_general_ctrl_reg(index, mask);
    }

    /// Write a fixed slot's counter-value register, masked to the discovered
    /// fixed counter width.
    pub fn set_fixed_pmc_ctr(&self, ctrl: &mut PerfCounterControler, index: u8, value: u64)
        requires
            old(ctrl)@.wf(),
            index < PMC_SLOTS,
            old(ctrl)@.bit_width_fixed_counter < 64,
        ensures
            final(ctrl)@ == spec_set_fixed_pmc_ctr(old(ctrl)@, index, value),
    {
        let value = value & width_mask(ctrl.get_bit_width_fixed_counter());
        ctrl.write_fixed_ctr_reg(index, value);
    }

    /// Overwrite the shared fixed control register with one slot's nibble,
    /// built from the enabled ring levels and the PMI flag.
    pub fn set_fixed_pmc_ctrl(
        &self,
        ctrl: &mut PerfCounterControler,
        index: u8,
        enabled_ring_lv: u8,
        is_pmi_enabled: bool,
    )
        requires
            index < FIXED_CTRL_SLOTS,
            enabled_ring_lv < 8,
        ensures
            final(ctrl)@ == spec_set_fixed_pmc_ctrl(old(ctrl)@, index, enabled_ring_lv, is_pmi_enabled),
    {
        let nibble: u64 = if is_pmi_enabled {
            (8 + enabled_ring_lv) as u64
        } else {
            enabled_ring_lv as u64
        };
        ctrl.write_fixed_ctrl_reg(nibble << ((index as u64) * 4));
    }

    /// Start a general slot: raise its shared enable bit, then commit this
    /// handle's control word to the slot's event-select register.
    pub fn enable_general_pmc(&self, ctrl: &mut PerfCounterControler, index: u8)
        requires
            old(ctrl)@.wf(),
            index < PMC_SLOTS,
            valid_slot(self.counter_type),
        ensures
            final(ctrl)@ == spec_enable_general_pmc(
                old(ctrl)@,
                self.counter_type,
                index,
                self.general_pmc_mask,
            ),
    {
        ctrl.enable_counter(self.counter_type);
        ctrl.write_general_ctrl_reg(index, self.general_pmc_mask);
    }

    /// Stop a general slot: clear its shared enable bit, then zero the
    /// slot's event-select register.
    pub fn disable_general_pmc(&self, ctrl: &mut PerfCounterControler, index: u8)
        requires
            old(ctrl)@.wf(),
            index < PMC_SLOTS,
            valid_slot(self.counter_type),
        ensures
            final(ctrl)@ == spec_disable_general_pmc(old(ctrl)@, self.counter_type, index),
    {
        ctrl.disable_counter(self.counter_type);
        ctrl.write_general_ctrl_reg(index, 0);
    }

    /// Start a fixed slot: raise its shared enable bit, then merge this
    /// handle's nibble into the shared fixed control register, preserving
    /// the other slots' nibbles.
    pub fn enable_fixed_pmc(&self, ctrl: &mut PerfCounterControler, index: u8)
        requires
            old(ctrl)@.wf(),
            index < FIXED_CTRL_SLOTS,
            valid_slot(self.counter_type),
        ensures
            final(ctrl)@ == spec_enable_fixed_pmc(
                old(ctrl)@,
                self.counter_type,
                index,
                self.fixed_pmc_mask,
            ),
    {
        ctrl.enable_counter(self.counter_type);
        let cur = ctrl.read_fixed_ctrl_reg();
        let shift: u64 = (index as u64) * 4;
        ctrl.write_fixed_ctrl_reg((cur & !(15u64 << shift)) | (self.get_fixed_pmc_mask() << shift));
    }

    /// Stop a fixed slot: clear its shared enable bit, then clear the slot's
    /// nibble of the shared fixed control register, preserving the other
    /// slots' nibbles.
    pub fn disable_fixed_pmc(&self, ctrl: &mut PerfCounterControler, index: u8)
        requires
            old(ctrl)@.wf(),
            index < FIXED_CTRL_SLOTS,
            valid_slot(self.counter_type),
        ensures
            final(ctrl)@ == spec_disable_fixed_pmc(old(ctrl)@, self.counter_type, index),
    {
        ctrl.disable_counter(self.counter_type);
        let cur = ctrl.read_fixed_ctrl_reg();
        let shift: u64 = (index as u64) * 4;
        ctrl.write_fixed_ctrl_reg(cur & !(15u64 << shift));
    }

    /// Whether this handle's slot shows a set overflow-status bit. The bit
    /// is left as it is: acknowledge it through the controller.
    pub fn check_overflow(&self, ctrl: &PerfCounterControler) -> (r: bool)
        requires
            self.wf(),
        ensures
            r == (ctrl@.overflow_status & spec_slot_bit(self.counter_type) != 0),
    {
        match self.get_counter_type() {
            Counter::Programmable(_) => ctrl.read_overflow_status() & (1u64 << (
            self.get_pmc_index() as u64)) > 0,
            Counter::Fixed(_) => ctrl.read_overflow_status() & (1u64 << ((
            self.get_pmc_index() as u64) + 32)) > 0,
        }
    }

    /// Arm this handle's slot to overflow after exactly `value + 1` further
    /// qualifying events, by loading the bitwise complement of `value` into
    /// its counter-value register.
    pub fn overflow_after(&self, ctrl: &mut PerfCounterControler, value: u64)
        requires
            old(ctrl)@.wf(),
            self.wf(),
            spec_ctr_width_ok(old(ctrl)@, self.counter_type),
        ensures
            final(ctrl)@ == spec_overflow_after(old(ctrl)@, self.counter_type, value),
    {
        match self.get_counter_type() {
            Counter::Fixed(_) => self.set_fixed_pmc_ctr(ctrl, self.get_pmc_index(), !value),
            Counter::Programmable(_) => self.set_general_pmc_ctr(ctrl, self.get_pmc_index(), !value),
        }
    }

    /// Zero this handle's counter-value register. The next `read` returns 0.
    pub fn reset(&self, ctrl: &mut PerfCounterControler) -> (r: Result<(), ErrorMsg>)
        requires
            old(ctrl)@.wf(),
            self.wf(),
            spec_ctr_width_ok(old(ctrl)@, self.counter_type),
        ensures
            r == Ok::<(), ErrorMsg>(()),
            final(ctrl)@ == spec_reset(old(ctrl)@, self.counter_type),
    {
        match self.get_counter_type() {
            Counter::Programmable(_) => self.set_general_pmc_ctr(ctrl, self.get_pmc_index(), 0),
            Counter::Fixed(_) => self.set_fixed_pmc_ctr(ctrl, self.get_pmc_index(), 0),
        };
        Ok(())
    }

    /// Commit this handle's control word to its slot and raise the slot's
    /// shared enable bit.
    pub fn start(&self, ctrl: &mut PerfCounterControler) -> (r: Result<(), ErrorMsg>)
        requires
            old(ctrl)@.wf(),
            self.wf(),
        ensures
            r == Ok::<(), ErrorMsg>(()),
            final(ctrl)@ == spec_start(old(ctrl)@, *self),
    {
        match self.get_counter_type() {
            Counter::Programmable(_) => self.enable_general_pmc(ctrl, self.get_pmc_index()),
            Counter::Fixed(_) => self.enable_fixed_pmc(ctrl, self.get_pmc_index()),
        };
        Ok(())
    }

    /// Clear this handle's shared enable bit and its slot's local control
    /// state.
    pub fn stop(&self, ctrl: &mut PerfCounterControler) -> (r: Result<(), ErrorMsg>)
        requires
            old(ctrl)@.wf(),
            self.wf(),
        ensures
            r == Ok::<(), ErrorMsg>(()),
            final(ctrl)@ == spec_stop(old(ctrl)@, *self),
    {
        match self.get_counter_type() {
            Counter::Programmable(_) => self.disable_general_pmc(ctrl, self.get_pmc_index()),
            Counter::Fixed(_) => self.disable_fixed_pmc(ctrl, self.get_pmc_index()),
        };
        Ok(())
    }

    /// Read this handle's counter value, masked to its kind's discovered bit
    /// width. No overflow carry is added: combine with `check_overflow` for
    /// wraparound accounting.
    pub fn read(&self, ctrl: &PerfCounterControler) -> (r: Result<u64, ErrorMsg>)
        requires
            ctrl@.wf(),
            self.wf(),
            spec_ctr_width_ok(ctrl@, self.counter_type),
        ensures
            r == Ok::<u64, ErrorMsg>(spec_read_pmc(ctrl@, self.counter_type)),
    {
        match self.get_counter_type() {
            Counter::Programmable(_) => Ok(self.read_general_pmc_ctr(ctrl, self.get_pmc_index())),
            Counter::Fixed(_) => Ok(self.read_fixed_pmc_ctr(ctrl, self.get_pmc_index())),
        }
    }
}

/// Combine the two 32-bit halves that the counter-read instruction returns
/// and mask the 64-bit reading to the counter's bit width.
pub fn combine_pmc_reading(low: u64, high: u64, width: u8) -> (r: u64)
    requires
        width < 64,
    ensures
        r == ((low & 0xFFFF_FFFF) | (high << 32)) & spec_width_mask(width),
{
    ((low & 0xFFFF_FFFF) | (high << 32)) & width_mask(width)
}

} // verus!
