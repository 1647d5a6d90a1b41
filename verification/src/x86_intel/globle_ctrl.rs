//! The controller for the per-core performance-monitoring register state: the
//! shared global-control, overflow-status and overflow-acknowledge registers,
//! the local-interrupt routing register, and the per-slot event-select and
//! counter-value registers.
//!
//! The controller is the one explicitly shared resource of the subsystem: a
//! caller constructs one instance per physical core, initialises it from the
//! CPU identification queries, and routes every register mutation through it.
//! Exclusive access (`&mut`) over each read-modify-write sequence is what
//! serialises concurrent slot enables, so no update is lost.

use vstd::prelude::*;

use crate::x86_intel::Counter;
use crate::x86_intel::ErrorMsg;

verus! {

/// Number of modeled register slots per counter kind. The shared 64-bit
/// registers dedicate bits 0..32 to general-purpose slots and bits 32..64 to
/// fixed-function slots, so the model carries 32 of each.
pub const PMC_SLOTS: usize = 32;

/// Number of control nibbles in the shared fixed-function control register.
pub const FIXED_CTRL_SLOTS: usize = 16;

/// Mathematical view of the controller: the discovered capabilities and the
/// per-core register state.
#[verifier::ext_equal]
pub ghost struct CtrlView {
    pub version_identifier: u8,
    pub number_msr: u8,
    pub bit_width: u8,
    pub events_available: u8,
    pub number_fixed_function_counter: u8,
    pub bit_width_fixed_counter: u8,
    pub unavailable_events_vec: u8,
    pub perf_capability: bool,
    /// Shared enable register: bit `i` enables general slot `i`, bit `i + 32`
    /// enables fixed slot `i`.
    pub globle_ctrl: u64,
    /// Shared overflow-status register, laid out as the enable register.
    pub overflow_status: u64,
    /// Shared overflow-acknowledge register; writing a set bit clears the
    /// matching overflow-status bit.
    pub overflow_ctrl: u64,
    /// Local performance-monitor interrupt-routing register.
    pub overflow_interrupt_ctrl: u32,
    /// Per-slot general-purpose event-select registers.
    pub general_pmc_ctrl: Seq<u64>,
    /// Per-slot general-purpose counter values.
    pub general_pmc_ctr: Seq<u64>,
    /// Shared fixed-function control register: one nibble per fixed slot.
    pub fixed_pmc_ctrl: u64,
    /// Per-slot fixed-function counter values.
    pub fixed_pmc_ctr: Seq<u64>,
}

impl CtrlView {
    /// The register file carries one entry per modeled slot.
    pub open spec fn wf(self) -> bool {
        &&& self.general_pmc_ctrl.len() == PMC_SLOTS
        &&& self.general_pmc_ctr.len() == PMC_SLOTS
        &&& self.fixed_pmc_ctr.len() == PMC_SLOTS
    }

    /// Write the shared enable register; a no-op below architecture
    /// version 2, where the register does not exist.
    pub open spec fn set_globle_ctrl(self, value: u64) -> CtrlView {
        if self.version_identifier >= 2 {
            CtrlView { globle_ctrl: value, ..self }
        } else {
            self
        }
    }

    /// Set the slot's bit in the shared enable register (version 2 up).
    pub open spec fn enable_counter(self, c: Counter) -> CtrlView {
        if self.version_identifier >= 2 {
            CtrlView { globle_ctrl: self.globle_ctrl | spec_slot_bit(c), ..self }
        } else {
            self
        }
    }

    /// Clear the slot's bit in the shared enable register (version 2 up).
    pub open spec fn disable_counter(self, c: Counter) -> CtrlView {
        if self.version_identifier >= 2 {
            CtrlView { globle_ctrl: self.globle_ctrl & !spec_slot_bit(c), ..self }
        } else {
            self
        }
    }

    /// Write the shared overflow-status register.
    pub open spec fn set_overflow_status(self, value: u64) -> CtrlView {
        CtrlView { overflow_status: value, ..self }
    }

    /// Write the overflow-acknowledge register. Every bit set in the written
    /// value clears the matching bit of the overflow-status register.
    pub open spec fn set_overflow_ctrl(self, value: u64) -> CtrlView {
        CtrlView { overflow_ctrl: value, overflow_status: self.overflow_status & !value, ..self }
    }

    /// The overflow-acknowledge pulse: raise the slot's bit in the
    /// acknowledge register, then restore the register's prior value.
    pub open spec fn clear_overflow_bit(self, c: Counter) -> CtrlView {
        self.set_overflow_ctrl(self.overflow_ctrl | spec_slot_bit(c)).set_overflow_ctrl(
            self.overflow_ctrl,
        )
    }

    /// Program the interrupt-routing register with a vector number; the
    /// written word carries a clear "masked" bit.
    pub open spec fn register_overflow_interrput(self, interrput_vec: u8) -> CtrlView {
        CtrlView { overflow_interrupt_ctrl: interrput_vec as u32, ..self }
    }

    /// Clear the "masked" bit (bit 16) of the interrupt-routing register,
    /// re-enabling PMI delivery after the register masked itself.
    pub open spec fn reset_overflow_interrput(self) -> CtrlView {
        CtrlView {
            overflow_interrupt_ctrl: self.overflow_interrupt_ctrl & !(1u32 << 16),
            ..self
        }
    }

    /// The slot's general event-select register shows local enable (bit 22)
    /// and, from version 2 on, the shared enable register shows its bit.
    pub open spec fn general_in_use(self, index: u8) -> bool {
        &&& (self.general_pmc_ctrl[index as int] >> 22) & 1 != 0
        &&& (self.version_identifier >= 2 ==> (self.globle_ctrl >> (index as u64)) & 1 != 0)
    }

    /// The slot's nibble of the fixed control register shows an enabled ring
    /// level and, from version 2 on, the shared enable register shows its bit.
    pub open spec fn fixed_in_use(self, index: u8) -> bool {
        &&& (self.fixed_pmc_ctrl >> (((index as int) * 4) as u64)) & 3 != 0
        &&& (self.version_identifier >= 2 ==> (self.globle_ctrl >> (((index as int) + 32) as u64))
            & 1 != 0)
    }

    /// One qualifying event observed by the slot's counter: the counter value
    /// steps by one within its bit width; on wrapping to zero the slot's
    /// overflow-status bit rises.
    pub open spec fn count_event(self, c: Counter) -> CtrlView {
        match c {
            Counter::Programmable(i) => {
                let m = spec_width_mask(self.bit_width);
                let cur = self.general_pmc_ctr[i as int];
                if (cur & m) == m {
                    CtrlView {
                        general_pmc_ctr: self.general_pmc_ctr.update(i as int, 0u64),
                        overflow_status: self.overflow_status | spec_slot_bit(c),
                        ..self
                    }
                } else {
                    CtrlView {
                        general_pmc_ctr: self.general_pmc_ctr.update(
                            i as int,
                            (((cur & m) + 1) as u64),
                        ),
                        ..self
                    }
                }
            },
            Counter::Fixed(i) => {
                let m = spec_width_mask(self.bit_width_fixed_counter);
                let cur = self.fixed_pmc_ctr[i as int];
                if (cur & m) == m {
                    CtrlView {
                        fixed_pmc_ctr: self.fixed_pmc_ctr.update(i as int, 0u64),
                        overflow_status: self.overflow_status | spec_slot_bit(c),
                        ..self
                    }
                } else {
                    CtrlView {
                        fixed_pmc_ctr: self.fixed_pmc_ctr.update(
                            i as int,
                            (((cur & m) + 1) as u64),
                        ),
                        ..self
                    }
                }
            },
        }
    }
}

/// `n` qualifying events observed by the slot's counter, one after another.
pub open spec fn spec_count_events(s: CtrlView, c: Counter, n: nat) -> CtrlView
    decreases n,
{
    if n == 0 {
        s
    } else {
        spec_count_events(s, c, (n - 1) as nat).count_event(c)
    }
}

/// The raw value the slot's counter-value register holds.
pub open spec fn spec_ctr_value(s: CtrlView, c: Counter) -> u64 {
    match c {
        Counter::Programmable(i) => s.general_pmc_ctr[i as int],
        Counter::Fixed(i) => s.fixed_pmc_ctr[i as int],
    }
}

/// The discovered bit width of the slot's counter kind.
pub open spec fn spec_ctr_width(s: CtrlView, c: Counter) -> u8 {
    match c {
        Counter::Programmable(_) => s.bit_width,
        Counter::Fixed(_) => s.bit_width_fixed_counter,
    }
}

/// The bit position of a slot in the shared 64-bit registers.
pub open spec fn spec_slot_pos(c: Counter) -> u64 {
    match c {
        Counter::Programmable(i) => i as u64,
        Counter::Fixed(i) => (((i as int) + 32) as u64),
    }
}

/// All-ones mask covering a counter's bit width.
pub open spec fn spec_width_mask(w: u8) -> u64 {
    (((1u64 << (w as u64)) - 1) as u64)
}

/// The bit of a slot in the shared 64-bit enable/status registers: general
/// slot `i` at bit `i`, fixed slot `i` at bit `i + 32`.
pub open spec fn spec_slot_bit(c: Counter) -> u64 {
    match c {
        Counter::Programmable(i) => 1u64 << (i as u64),
        Counter::Fixed(i) => 1u64 << (((i as int) + 32) as u64),
    }
}

/// A slot whose bit position lies inside the shared registers.
pub open spec fn valid_slot(c: Counter) -> bool {
    match c {
        Counter::Programmable(i) => i < PMC_SLOTS,
        Counter::Fixed(i) => i < PMC_SLOTS,
    }
}

/// Owner of the per-core performance-monitoring register state and of the
/// capability facts discovered from the CPU identification queries.
pub struct PerfCounterControler {
    version_identifier: u8,
    number_msr: u8,
    bit_width: u8,
    events_available: u8,
    number_fixed_function_counter: u8,
    bit_width_fixed_counter: u8,
    unavailable_events_vec: u8,
    perf_capability: bool,
    globle_ctrl: u64,
    overflow_status: u64,
    overflow_ctrl: u64,
    overflow_interrupt_ctrl: u32,
    general_pmc_ctrl: Vec<u64>,
    general_pmc_ctr: Vec<u64>,
    fixed_pmc_ctrl: u64,
    fixed_pmc_ctr: Vec<u64>,
}

impl View for PerfCounterControler {
    type V = CtrlView;

    closed spec fn view(&self) -> CtrlView {
        CtrlView {
            version_identifier: self.version_identifier,
            number_msr: self.number_msr,
            bit_width: self.bit_width,
            events_available: self.events_available,
            number_fixed_function_counter: self.number_fixed_function_counter,
            bit_width_fixed_counter: self.bit_width_fixed_counter,
            unavailable_events_vec: self.unavailable_events_vec,
            perf_capability: self.perf_capability,
            globle_ctrl: self.globle_ctrl,
            overflow_status: self.overflow_status,
            overflow_ctrl: self.overflow_ctrl,
            overflow_interrupt_ctrl: self.overflow_interrupt_ctrl,
            general_pmc_ctrl: self.general_pmc_ctrl@,
            general_pmc_ctr: self.general_pmc_ctr@,
            fixed_pmc_ctrl: self.fixed_pmc_ctrl,
            fixed_pmc_ctr: self.fixed_pmc_ctr@,
        }
    }
}

impl PerfCounterControler {
    /// A fresh controller: no capabilities discovered yet, every modeled
    /// register zero.
    pub fn new() -> (r: PerfCounterControler)
        ensures
            r@.wf(),
            r@.version_identifier == 0,
            r@.number_msr == 0,
            r@.bit_width == 0,
            r@.events_available == 0,
            r@.number_fixed_function_counter == 0,
            r@.bit_width_fixed_counter == 0,
            r@.unavailable_events_vec == 0,
            !r@.perf_capability,
            r@.globle_ctrl == 0,
            r@.overflow_status == 0,
            r@.overflow_ctrl == 0,
            r@.overflow_interrupt_ctrl == 0,
            r@.general_pmc_ctrl == Seq::<u64>::new(PMC_SLOTS as nat, |i: int| 0u64),
            r@.general_pmc_ctr == Seq::<u64>::new(PMC_SLOTS as nat, |i: int| 0u64),
            r@.fixed_pmc_ctrl == 0,
            r@.fixed_pmc_ctr == Seq::<u64>::new(PMC_SLOTS as nat, |i: int| 0u64),
    {
        PerfCounterControler {
            version_identifier: 0,
            number_msr: 0,
            bit_width: 0,
            events_available: 0,
            number_fixed_function_counter: 0,
            bit_width_fixed_counter: 0,
            unavailable_events_vec: 0,
            perf_capability: false,
            globle_ctrl: 0,
            overflow_status: 0,
            overflow_ctrl: 0,
            overflow_interrupt_ctrl: 0,
            general_pmc_ctrl: zeroed_slots(),
            general_pmc_ctr: zeroed_slots(),
            fixed_pmc_ctrl: 0,
            fixed_pmc_ctr: zeroed_slots(),
        }
    }

    pub fn get_version_identifier(&self) -> (r: u8)
        ensures
            r == self@.version_identifier,
    {
        self.version_identifier
    }

    pub fn get_number_msr(&self) -> (r: u8)
        ensures
            r == self@.number_msr,
    {
        self.number_msr
    }

    pub fn get_number_fixed_function_counter(&self) -> (r: u8)
        ensures
            r == self@.number_fixed_function_counter,
    {
        self.number_fixed_function_counter
    }

    pub fn get_bit_width(&self) -> (r: u8)
        ensures
            r == self@.bit_width,
    {
        self.bit_width
    }

    pub fn get_events_available(&self) -> (r: u8)
        ensures
            r == self@.events_available,
    {
        self.events_available
    }

    pub fn get_bit_width_fixed_counter(&self) -> (r: u8)
        ensures
            r == self@.bit_width_fixed_counter,
    {
        self.bit_width_fixed_counter
    }

    pub fn get_unavailable_events_vec(&self) -> (r: u8)
        ensures
            r == self@.unavailable_events_vec,
    {
        self.unavailable_events_vec
    }

    pub fn get_perf_capability(&self) -> (r: bool)
        ensures
            r == self@.perf_capability,
    {
        self.perf_capability
    }

    /// Decode the capability facts from the CPU identification queries.
    ///
    /// `cpuid_0a_rax`, `cpuid_0a_rdx` and `cpuid_0a_rbx` are the results of
    /// the monitoring-capability identification leaf; `cpuid_01_rcx` comes
    /// from the standard feature leaf. `perf_capabilities_msr` is the
    /// capability-reporting control register; it is consulted only when
    /// feature bit 15 of `cpuid_01_rcx` is set (see
    /// [`has_perf_capabilities_register`]), so a caller without that feature
    /// bit may pass any value. Without a set full-width-writes bit (bit 13)
    /// in that register, the general counter width is forced to 32.
    pub fn init(
        &mut self,
        cpuid_0a_rax: u64,
        cpuid_0a_rdx: u64,
        cpuid_0a_rbx: u64,
        cpuid_01_rcx: u64,
        perf_capabilities_msr: u64,
    )
        ensures
            final(self)@ == (CtrlView {
                version_identifier: (cpuid_0a_rax & 0xFF) as u8,
                number_msr: ((cpuid_0a_rax >> 8) & 0xFF) as u8,
                bit_width: spec_discovered_bit_width(
                    cpuid_0a_rax,
                    cpuid_01_rcx,
                    perf_capabilities_msr,
                ),
                events_available: ((cpuid_0a_rax >> 24) & 0xFF) as u8,
                number_fixed_function_counter: (cpuid_0a_rdx & 0x1F) as u8,
                bit_width_fixed_counter: ((cpuid_0a_rdx >> 5) & 0x7F) as u8,
                unavailable_events_vec: (cpuid_0a_rbx & 0xFF) as u8,
                perf_capability: spec_perf_capability(cpuid_01_rcx, perf_capabilities_msr),
                ..old(self)@
            }),
    {
        proof {
            assert(cpuid_0a_rax & 0xFF < 256 && (cpuid_0a_rax >> 8) & 0xFF < 256 && (cpuid_0a_rax
                >> 16) & 0xFF < 256 && (cpuid_0a_rax >> 24) & 0xFF < 256 && cpuid_0a_rdx & 0x1F
                < 256 && (cpuid_0a_rdx >> 5) & 0x7F < 256 && cpuid_0a_rbx & 0xFF < 256)
                by (bit_vector);
        }
        self.version_identifier = (cpuid_0a_rax & 0xFF) as u8;
        self.number_msr = ((cpuid_0a_rax >> 8) & 0xFF) as u8;
        self.bit_width = if cpuid_0a_rax & 0xFF != 0 {
            ((cpuid_0a_rax >> 16) & 0xFF) as u8
        } else {
            40u8
        };
        self.events_available = ((cpuid_0a_rax >> 24) & 0xFF) as u8;
        self.number_fixed_function_counter = (cpuid_0a_rdx & 0x1F) as u8;
        self.bit_width_fixed_counter = ((cpuid_0a_rdx >> 5) & 0x7F) as u8;
        self.unavailable_events_vec = (cpuid_0a_rbx & 0xFF) as u8;
        if (cpuid_01_rcx >> 15) & 1 == 1 {
            self.perf_capability = (perf_capabilities_msr >> 13) & 1 == 1;
        } else {
            self.perf_capability = false;
        }
        if !self.perf_capability {
            self.bit_width = 32;
        }
    }

    /// Read the shared enable register; available from version 2 on.
    pub fn read_globle_ctrl_bits(&self) -> (r: Result<u64, ErrorMsg>)
        ensures
            self@.version_identifier >= 2 ==> r == Ok::<u64, ErrorMsg>(self@.globle_ctrl),
            self@.version_identifier < 2 ==> r == Err::<u64, ErrorMsg>(ErrorMsg::UnsupportedVersion),
    {
        if self.get_version_identifier() >= 2 {
            Ok(self.globle_ctrl)
        } else {
            Err(ErrorMsg::UnsupportedVersion)
        }
    }

    /// Write the shared enable register; a no-op below version 2.
    pub fn set_globle_ctrl(&mut self, value: u64)
        ensures
            final(self)@ == old(self)@.set_globle_ctrl(value),
    {
        if self.get_version_identifier() >= 2 {
            self.globle_ctrl = value;
        }
    }

    /// Set the slot's enable bit in the shared enable register, leaving every
    /// other bit as it was. The exclusive borrow serialises this
    /// read-modify-write against every other slot's.
    pub fn enable_counter(&mut self, c: Counter)
        requires
            valid_slot(c),
        ensures
            final(self)@ == old(self)@.enable_counter(c),
    {
        if self.get_version_identifier() >= 2 {
            match c {
                Counter::Fixed(index) => {
                    let bits = self.globle_ctrl;
                    self.globle_ctrl = bits | (1u64 << ((index as u64) + 32));
                },
                Counter::Programmable(index) => {
                    let bits = self.globle_ctrl;
                    self.globle_ctrl = bits | (1u64 << (index as u64));
                },
            }
        }
    }

    /// Clear the slot's enable bit in the shared enable register, leaving
    /// every other bit as it was.
    pub fn disable_counter(&mut self, c: Counter)
        requires
            valid_slot(c),
        ensures
            final(self)@ == old(self)@.disable_counter(c),
    {
        if self.get_version_identifier() >= 2 {
            match c {
                Counter::Fixed(index) => {
                    let bits = self.globle_ctrl;
                    self.globle_ctrl = bits & !(1u64 << ((index as u64) + 32));
                },
                Counter::Programmable(index) => {
                    let bits = self.globle_ctrl;
                    self.globle_ctrl = bits & !(1u64 << (index as u64));
                },
            }
        }
    }

    /// Read the shared overflow-status register.
    pub fn read_overflow_status(&self) -> (r: u64)
        ensures
            r == self@.overflow_status,
    {
        self.overflow_status
    }

    /// Write the shared overflow-status register.
    pub fn set_overflow_status(&mut self, value: u64)
        ensures
            final(self)@ == old(self)@.set_overflow_status(value),
    {
        self.overflow_status = value;
    }

    /// Read the overflow-acknowledge register.
    pub fn read_overflow_ctrl(&self) -> (r: u64)
        ensures
            r == self@.overflow_ctrl,
    {
        self.overflow_ctrl
    }

    /// Write the overflow-acknowledge register. Every set bit of the written
    /// value clears the matching overflow-status bit.
    pub fn set_overflow_ctrl(&mut self, value: u64)
        ensures
            final(self)@ == old(self)@.set_overflow_ctrl(value),
    {
        self.overflow_status = self.overflow_status & !value;
        self.overflow_ctrl = value;
    }

    /// Acknowledge the slot's overflow: pulse its bit through the
    /// overflow-acknowledge register, restoring that register's prior value.
    /// The slot's overflow-status bit is clear afterwards, and the
    /// acknowledge register is as it was before the call.
    pub fn clear_overflow_bit(&mut self, c: Counter)
        requires
            valid_slot(c),
        ensures
            final(self)@ == old(self)@.clear_overflow_bit(c),
            final(self)@.overflow_ctrl == old(self)@.overflow_ctrl,
            final(self)@.overflow_status & spec_slot_bit(c) == 0,
    {
        proof {
            lemma_ack_pulse_clears(
                old(self)@.overflow_status,
                old(self)@.overflow_ctrl,
                spec_slot_bit(c),
            );
        }
        match c {
            Counter::Fixed(index) => {
                let v = self.read_overflow_ctrl();
                let v_tmp = v | (1u64 << ((index as u64) + 32));
                self.set_overflow_ctrl(v_tmp);
                self.set_overflow_ctrl(v);
            },
            Counter::Programmable(index) => {
                let v = self.read_overflow_ctrl();
                let v_tmp = v | (1u64 << (index as u64));
                self.set_overflow_ctrl(v_tmp);
                self.set_overflow_ctrl(v);
            },
        }
    }

    /// Clear the "masked" bit of the interrupt-routing register, re-enabling
    /// PMI delivery after one was delivered. Call from the interrupt handler,
    /// after acknowledging the overflow.
    pub fn reset_overflow_interrput(&mut self)
        ensures
            final(self)@ == old(self)@.reset_overflow_interrput(),
    {
        let mask: u32 = !(1u32 << 16);
        self.overflow_interrupt_ctrl = self.overflow_interrupt_ctrl & mask;
    }

    /// Program the interrupt-routing register with the vector that overflow
    /// PMIs are delivered on.
    pub fn register_overflow_interrput(&mut self, interrput_vec: u8)
        ensures
            final(self)@ == old(self)@.register_overflow_interrput(interrput_vec),
    {
        self.overflow_interrupt_ctrl = interrput_vec as u32;
    }

    /// Read the interrupt-routing register: the programmed vector in the low
    /// byte, the "masked" bit at bit 16.
    pub fn read_overflow_interrupt_ctrl(&self) -> (r: u32)
        ensures
            r == self@.overflow_interrupt_ctrl,
    {
        self.overflow_interrupt_ctrl
    }

    /// Load an interrupt-routing register state observed on the hardware:
    /// the register masks itself on PMI delivery, so a handler mirrors its
    /// current word here before rearming.
    pub fn set_overflow_interrupt_ctrl(&mut self, value: u32)
        ensures
            final(self)@ == (CtrlView { overflow_interrupt_ctrl: value, ..old(self)@ }),
    {
        self.overflow_interrupt_ctrl = value;
    }

    /// Find the overflowing slot during a PMI: the lowest set bit of the
    /// overflow-status register, general slots first, fixed slots from
    /// bit 32. Bit 63 carries no slot and is excluded from the scan. A
    /// reported slot always has its overflow-status bit set.
    pub fn get_overflow_counter(&self) -> (r: Option<Counter>)
        ensures
            match r {
                Some(c) => {
                    &&& valid_slot(c)
                    &&& spec_slot_pos(c) < 63
                    &&& self@.overflow_status & spec_slot_bit(c) != 0
                    &&& forall|j: u64|
                        j < spec_slot_pos(c) ==> self@.overflow_status & (1u64 << j) == 0
                },
                None => forall|j: u64| j < 63 ==> self@.overflow_status & (1u64 << j) == 0,
            },
    {
        let reading = self.read_overflow_status();
        let mut i: u64 = 0;
        while i < 63
            invariant
                i <= 63,
                reading == self@.overflow_status,
                forall|j: u64| j < i ==> reading & (1u64 << j) == 0,
            decreases 63 - i,
        {
            proof {
                lemma_bit_test(reading, i);
            }
            if (reading >> i) & 1 != 0 {
                if i < 32 {
                    return Some(Counter::Programmable(i as u8));
                } else {
                    return Some(Counter::Fixed((i - 32) as u8));
                }
            }
            i = i + 1;
        }
        None
    }

    /// A general slot is in use when its event-select register shows local
    /// enable and (from version 2 on) the shared enable register shows its
    /// bit.
    pub fn check_if_general_pmc_is_in_use(&self, index: u8) -> (r: bool)
        requires
            self@.wf(),
            index < PMC_SLOTS,
        ensures
            r == self@.general_in_use(index),
    {
        let mut ret: bool = (self.general_pmc_ctrl[index as usize] >> 22) & 1 != 0;
        if self.get_version_identifier() >= 2 {
            ret = ret && (self.globle_ctrl >> (index as u64)) & 1 != 0;
        }
        ret
    }

    /// A fixed slot is in use when its control nibble shows an enabled ring
    /// level and (from version 2 on) the shared enable register shows its
    /// bit.
    pub fn check_if_fixed_pmc_is_in_use(&self, index: u8) -> (r: bool)
        requires
            index < FIXED_CTRL_SLOTS,
        ensures
            r == self@.fixed_in_use(index),
    {
        let mut ret: bool = (self.fixed_pmc_ctrl >> ((index as u64) * 4)) & 3 != 0;
        if self.get_version_identifier() >= 2 {
            ret = ret && (self.globle_ctrl >> ((index as u64) + 32)) & 1 != 0;
        }
        ret
    }

    /// Whether the slot is in use. Check before starting a counter on it, or
    /// a counter another component is using is silently stolen.
    pub fn check_in_use(&self, c: Counter) -> (r: bool)
        requires
            self@.wf(),
            match c {
                Counter::Fixed(index) => index < FIXED_CTRL_SLOTS,
                Counter::Programmable(index) => index < PMC_SLOTS,
            },
        ensures
            r == match c {
                Counter::Fixed(index) => self@.fixed_in_use(index),
                Counter::Programmable(index) => self@.general_in_use(index),
            },
    {
        match c {
            Counter::Fixed(index) => self.check_if_fixed_pmc_is_in_use(index),
            Counter::Programmable(index) => self.check_if_general_pmc_is_in_use(index),
        }
    }

    /// Model of the hardware's response to one qualifying event on the
    /// slot's counter: the counter steps by one within its bit width, and on
    /// wrapping to zero the slot's overflow-status bit rises.
    pub fn count_event(&mut self, c: Counter)
        requires
            old(self)@.wf(),
            valid_slot(c),
            match c {
                Counter::Programmable(_) => old(self)@.bit_width < 64,
                Counter::Fixed(_) => old(self)@.bit_width_fixed_counter < 64,
            },
        ensures
            final(self)@ == old(self)@.count_event(c),
    {
        match c {
            Counter::Programmable(i) => {
                let m = width_mask(self.bit_width);
                let cur = self.general_pmc_ctr[i as usize];
                proof {
                    lemma_masked_le_mask(cur, m);
                }
                if (cur & m) == m {
                    self.general_pmc_ctr[i as usize] = 0;
                    self.overflow_status = self.overflow_status | (1u64 << (i as u64));
                } else {
                    self.general_pmc_ctr[i as usize] = (cur & m) + 1;
                }
            },
            Counter::Fixed(i) => {
                let m = width_mask(self.bit_width_fixed_counter);
                let cur = self.fixed_pmc_ctr[i as usize];
                proof {
                    lemma_masked_le_mask(cur, m);
                }
                if (cur & m) == m {
                    self.fixed_pmc_ctr[i as usize] = 0;
                    self.overflow_status = self.overflow_status | (1u64 << ((i as u64) + 32));
                } else {
                    self.fixed_pmc_ctr[i as usize] = (cur & m) + 1;
                }
            },
        }
    }

    /// Read the slot's general event-select register.
    pub fn read_general_ctrl_reg(&self, index: u8) -> (r: u64)
        requires
            self@.wf(),
            index < PMC_SLOTS,
        ensures
            r == self@.general_pmc_ctrl[index as int],
    {
        self.general_pmc_ctrl[index as usize]
    }

    /// Write the slot's general event-select register.
    pub(crate) fn write_general_ctrl_reg(&mut self, index: u8, value: u64)
        requires
            old(self)@.wf(),
            index < PMC_SLOTS,
        ensures
            final(self)@ == (CtrlView {
                general_pmc_ctrl: old(self)@.general_pmc_ctrl.update(index as int, value),
                ..old(self)@
            }),
    {
        self.general_pmc_ctrl[index as usize] = value;
    }

    /// Read the slot's general counter-value register.
    pub fn read_general_ctr_reg(&self, index: u8) -> (r: u64)
        requires
            self@.wf(),
            index < PMC_SLOTS,
        ensures
            r == self@.general_pmc_ctr[index as int],
    {
        self.general_pmc_ctr[index as usize]
    }

    /// Write the slot's general counter-value register.
    pub(crate) fn write_general_ctr_reg(&mut self, index: u8, value: u64)
        requires
            old(self)@.wf(),
            index < PMC_SLOTS,
        ensures
            final(self)@ == (CtrlView {
                general_pmc_ctr: old(self)@.general_pmc_ctr.update(index as int, value),
                ..old(self)@
            }),
    {
        self.general_pmc_ctr[index as usize] = value;
    }

    /// Read the shared fixed-function control register.
    pub fn read_fixed_ctrl_reg(&self) -> (r: u64)
        ensures
            r == self@.fixed_pmc_ctrl,
    {
        self.fixed_pmc_ctrl
    }

    /// Write the shared fixed-function control register.
    pub(crate) fn write_fixed_ctrl_reg(&mut self, value: u64)
        ensures
            final(self)@ == (CtrlView { fixed_pmc_ctrl: value, ..old(self)@ }),
    {
        self.fixed_pmc_ctrl = value;
    }

    /// Read the slot's fixed counter-value register.
    pub fn read_fixed_ctr_reg(&self, index: u8) -> (r: u64)
        requires
            self@.wf(),
            index < PMC_SLOTS,
        ensures
            r == self@.fixed_pmc_ctr[index as int],
    {
        self.fixed_pmc_ctr[index as usize]
    }

    /// Write the slot's fixed counter-value register.
    pub(crate) fn write_fixed_ctr_reg(&mut self, index: u8, value: u64)
        requires
            old(self)@.wf(),
            index < PMC_SLOTS,
        ensures
            final(self)@ == (CtrlView {
                fixed_pmc_ctr: old(self)@.fixed_pmc_ctr.update(index as int, value),
                ..old(self)@
            }),
    {
        self.fixed_pmc_ctr[index as usize] = value;
    }
}

/// The bit a slot occupies in the shared enable, status and acknowledge
/// registers: general slot `i` at bit `i`, fixed slot `i` at bit `i + 32`.
pub fn slot_bit(c: Counter) -> (r: u64)
    requires
        valid_slot(c),
    ensures
        r == spec_slot_bit(c),
{
    match c {
        Counter::Programmable(index) => 1u64 << (index as u64),
        Counter::Fixed(index) => 1u64 << ((index as u64) + 32),
    }
}

/// Whether the capability-reporting control register exists: feature bit 15
/// of the standard feature leaf's `rcx` result. Read that register before
/// `init` only when this holds.
pub fn has_perf_capabilities_register(cpuid_01_rcx: u64) -> (r: bool)
    ensures
        r == ((cpuid_01_rcx >> 15) & 1 == 1),
{
    (cpuid_01_rcx >> 15) & 1 == 1
}

/// The general counter width that `init` settles on: without the full-width
/// capability the width is forced to 32; with it, the reported width stands,
/// defaulting to 40 when the identification leaf reports no version.
pub open spec fn spec_discovered_bit_width(
    cpuid_0a_rax: u64,
    cpuid_01_rcx: u64,
    perf_capabilities_msr: u64,
) -> u8 {
    if !spec_perf_capability(cpuid_01_rcx, perf_capabilities_msr) {
        32u8
    } else if cpuid_0a_rax & 0xFF != 0 {
        ((cpuid_0a_rax >> 16) & 0xFF) as u8
    } else {
        40u8
    }
}

/// Full-width counter writes are supported: the feature bit announces the
/// capability register and that register's bit 13 is set.
pub open spec fn spec_perf_capability(cpuid_01_rcx: u64, perf_capabilities_msr: u64) -> bool {
    (cpuid_01_rcx >> 15) & 1 == 1 && (perf_capabilities_msr >> 13) & 1 == 1
}

/// All-ones mask covering a counter's bit width.
pub(crate) fn width_mask(w: u8) -> (r: u64)
    requires
        w < 64,
    ensures
        r == spec_width_mask(w),
{
    proof {
        assert(w < 64 ==> 1u64 << (w as u64) >= 1) by (bit_vector);
    }
    (1u64 << (w as u64)) - 1
}

/// Masking keeps a value at or below the mask.
proof fn lemma_masked_le_mask(x: u64, m: u64)
    by (bit_vector)
    ensures
        x & m <= m,
{
}

/// Testing a bit by shifting right agrees with testing it by masking.
proof fn lemma_bit_test(x: u64, i: u64)
    by (bit_vector)
    requires
        i < 64,
    ensures
        ((x >> i) & 1 != 0) <==> (x & (1u64 << i) != 0),
{
}

/// The acknowledge pulse clears the slot's status bit: setting the slot's
/// bit clears it from the status word, and restoring the acknowledge value
/// cannot bring it back.
pub(crate) proof fn lemma_ack_pulse_clears(s: u64, v: u64, b: u64)
    by (bit_vector)
    ensures
        ((s & !(v | b)) & !v) & b == 0,
{
}

/// A vector holding one zero per modeled slot.
fn zeroed_slots() -> (r: Vec<u64>)
    ensures
        r@ == Seq::<u64>::new(PMC_SLOTS as nat, |i: int| 0u64),
{
    let mut v: Vec<u64> = Vec::new();
    let mut i: usize = 0;
    while i < PMC_SLOTS
        invariant
            i <= PMC_SLOTS,
            v@.len() == i,
            forall|j: int| 0 <= j < i ==> v@[j] == 0u64,
        decreases PMC_SLOTS - i,
    {
        v.push(0);
        i = i + 1;
    }
    proof {
        assert(v@ =~= Seq::<u64>::new(PMC_SLOTS as nat, |i: int| 0u64));
    }
    v
}

} // verus!
