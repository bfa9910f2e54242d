//! Instruction fetching and data accesses with fault delivery.

use vstd::prelude::*;
use crate::access::{Access, Fault};
use crate::cpu::{CpuCore, PrefetchState, RunState};
use crate::machine::Machine;
use crate::memory::AddressBus;
use crate::types::is_pre_68020;

verus! {

/// Sign extension of a byte to a long word.
pub open spec fn spec_sext8(v: u8) -> u32 {
    v as i8 as i32 as u32
}

/// Sign extension of a byte to a long word.
#[verifier::when_used_as_spec(spec_sext8)]
pub fn sext8(v: u8) -> (r: u32)
    ensures
        r == spec_sext8(v),
{
    v as i8 as i32 as u32
}

/// Sign extension of a word to a long word.
pub open spec fn spec_sext16(v: u16) -> u32 {
    v as i16 as i32 as u32
}

/// Sign extension of a word to a long word.
#[verifier::when_used_as_spec(spec_sext16)]
pub fn sext16(v: u16) -> (r: u32)
    ensures
        r == spec_sext16(v),
{
    v as i16 as i32 as u32
}

impl Machine {
    /// Deliver the fault of an access, if it met one.
    #[verifier::opaque]
    pub open spec fn deliver_if(self, fault: Option<Fault>) -> Machine {
        match fault {
            Some(f) => {
                let m = self.deliver(f);
                m
            },
            None => self,
        }
    }

    /// Read byte from memory (data space).
    #[verifier::opaque]
    pub open spec fn read_8(self, addr: u32) -> (Machine, u8) {
        let (m, read) = self.access_read_8(addr);
        let m = m.deliver_if(read.fault);
        (m, read.value as u8)
    }

    /// Read word from memory (data space).
    #[verifier::opaque]
    pub open spec fn read_16(self, addr: u32) -> (Machine, u16) {
        let (m, read) = self.access_read_16(addr);
        let m = m.deliver_if(read.fault);
        (m, read.value as u16)
    }

    /// Read long from memory (data space).
    #[verifier::opaque]
    pub open spec fn read_32(self, addr: u32) -> (Machine, u32) {
        let (m, read) = self.access_read_32(addr);
        let m = m.deliver_if(read.fault);
        (m, read.value)
    }

    /// Read a three-byte operand from memory (data space), returned in the
    /// low 24 bits.
    #[verifier::opaque]
    pub open spec fn read_24(self, addr: u32) -> (Machine, u32) {
        let (m, read) = self.access_read_24(addr);
        let m = m.deliver_if(read.fault);
        (m, read.value)
    }

    /// Write byte to memory (data space).
    #[verifier::opaque]
    pub open spec fn write_8(self, addr: u32, value: u8) -> Machine {
        let (m, fault) = self.access_write_8(addr, value);
        let m = m.deliver_if(fault);
        m
    }

    /// Write word to memory (data space).
    #[verifier::opaque]
    pub open spec fn write_16(self, addr: u32, value: u16) -> Machine {
        let (m, fault) = self.access_write_16(addr, value);
        let m = m.deliver_if(fault);
        m
    }

    /// Write the low 24 bits of `value` to memory (data space) as a
    /// three-byte operand.
    #[verifier::opaque]
    pub open spec fn write_24(self, addr: u32, value: u32) -> Machine {
        let (m, fault) = self.access_write_24(addr, value);
        let m = m.deliver_if(fault);
        m
    }

    /// Write long to memory (data space).
    #[verifier::opaque]
    pub open spec fn write_32(self, addr: u32, value: u32) -> Machine {
        let (m, fault) = self.access_write_32(addr, value);
        let m = m.deliver_if(fault);
        m
    }

    /// Read one program-space word for the prefetch queue. Returns None when
    /// the read faulted (bus error already triggered).
    #[verifier::opaque]
    pub open spec fn prefetch_read(self, addr: u32) -> (Machine, Option<u16>) {
        let m = self.flush_sync();
        let at: u32 = m.cpu.address(addr);
        let m = m.bus_prefetch_refill();
        let (m, v1) = m.bus_try_read_word(at);
        match v1 {
            Ok(w) => (m, Some(w)),
            Err(_f) => {
                let m = m.trigger_bus_error(at, false, true, 2);
                (m, None)
            },
        }
    }

    /// Refill the prefetch queue from the current PC: two program-space word
    /// reads at `pc` and `pc + 2`, discarding whatever was queued.
    #[verifier::opaque]
    pub open spec fn full_prefetch(self) -> Machine {
        let m = self.prefetch_first();
        let m = m.prefetch_second();
        m
    }

    /// First half of a flow-change prefetch: read the word at the new PC into
    /// the front of the queue. An odd PC leaves the queue empty.
    #[verifier::opaque]
    pub open spec fn prefetch_first(self) -> Machine {
        if !self.cpu.prefetch_enabled() {
            self
        } else {
            let m = self.on_cpu(CpuCore { queue: PrefetchState { prefetch_count: 0, ..self.cpu.queue }, ..self.cpu });
            if m.cpu.pc & 1 != 0 {
                m
            } else {
                let (m, v1) = m.prefetch_read(m.cpu.pc);
                match v1 {
                    Some(w) => {
                        let m = m.on_cpu(CpuCore { queue: PrefetchState { prefetch_queue: vstd::array::spec_array_update(m.cpu.queue.prefetch_queue, (0) as int, w), ..m.cpu.queue }, ..m.cpu });
                        let m = m.on_cpu(CpuCore { queue: PrefetchState { prefetch_count: 1, ..m.cpu.queue }, ..m.cpu });
                        m
                    },
                    None => m,
                }
            }
        }
    }

    /// Second half of a flow-change prefetch: read the word at PC + 2 into the
    /// back of the queue.
    #[verifier::opaque]
    pub open spec fn prefetch_second(self) -> Machine {
        if !self.cpu.prefetch_enabled() || self.cpu.queue.prefetch_count != 1 {
            self
        } else {
            if self.cpu.pc & 1 != 0 || self.cpu.faulted() {
                self
            } else {
                let (m, v1) = self.prefetch_read(self.cpu.pc.wrapping_add(2));
                match v1 {
                    Some(w) => {
                        let m = m.on_cpu(CpuCore { queue: PrefetchState { prefetch_queue: vstd::array::spec_array_update(m.cpu.queue.prefetch_queue, (1) as int, w), ..m.cpu.queue }, ..m.cpu });
                        let m = m.on_cpu(CpuCore { queue: PrefetchState { prefetch_count: 2, ..m.cpu.queue }, ..m.cpu });
                        m
                    },
                    None => m,
                }
            }
        }
    }

    /// Fetch one word into the back of the prefetch queue.
    #[verifier::opaque]
    pub open spec fn top_up_prefetch_one(self) -> Machine {
        if self.cpu.looping.active {
            self
        } else {
            if !self.cpu.prefetch_enabled() || self.cpu.pc & 1 != 0 || self.cpu.queue.prefetch_count >= 2 {
                self
            } else {
                if self.cpu.faulted() {
                    self
                } else {
                    let slot: u8 = self.cpu.queue.prefetch_count;
                    if slot == 0 {
                        let (m, v1) = self.prefetch_read(self.cpu.pc);
                        match v1 {
                            Some(w) => {
                                let m = m.on_cpu(CpuCore { queue: PrefetchState { prefetch_queue: vstd::array::spec_array_update(m.cpu.queue.prefetch_queue, (0) as int, w), ..m.cpu.queue }, ..m.cpu });
                                let m = m.on_cpu(CpuCore { queue: PrefetchState { prefetch_count: m.cpu.queue.prefetch_count.wrapping_add(1), ..m.cpu.queue }, ..m.cpu });
                                m
                            },
                            None => m,
                        }
                    } else {
                        let (m, v2) = self.prefetch_read(self.cpu.pc.wrapping_add(2));
                        match v2 {
                            Some(w) => {
                                let m = m.on_cpu(CpuCore { queue: PrefetchState { prefetch_queue: vstd::array::spec_array_update(m.cpu.queue.prefetch_queue, (1) as int, w), ..m.cpu.queue }, ..m.cpu });
                                let m = m.on_cpu(CpuCore { queue: PrefetchState { prefetch_count: m.cpu.queue.prefetch_count.wrapping_add(1), ..m.cpu.queue }, ..m.cpu });
                                m
                            },
                            None => m,
                        }
                    }
                }
            }
        }
    }

    /// Top the prefetch queue back up to two words at the end of an
    /// instruction. A no-op after flow-change instructions, on a stopped CPU,
    /// and on non-prefetch CPU types.
    #[verifier::opaque]
    pub open spec fn top_up_prefetch(self) -> Machine {
        if self.cpu.looping.active {
            self
        } else {
            if !self.cpu.prefetch_enabled() || self.cpu.pc & 1 != 0 || self.cpu.run.stopped != 0 {
                self
            } else {
                if self.cpu.faulted() {
                    self
                } else {
                    if self.cpu.queue.prefetch_count >= 2 {
                        self
                    } else {
                        let before: u8 = self.cpu.queue.prefetch_count;
                        let m = self.top_up_prefetch_one();
                        if m.cpu.queue.prefetch_count == before {
                            m
                        } else if m.cpu.queue.prefetch_count < 2 {
                            let m = m.top_up_prefetch_one();
                            m
                        } else {
                            m
                        }
                    }
                }
            }
        }
    }

    /// 68000 -(An) long operand read: the two predecrement micro-steps read
    /// the LOW word first (at addr + 2), then the HIGH word (at addr).
    #[verifier::opaque]
    pub open spec fn read_long_predec_68000(self, addr: u32) -> (Machine, u32) {
        let (m, lo) = self.read_16(addr.wrapping_add(2));
        let (m, hi) = m.read_16(addr);
        (m, ((hi as u32) << 16) | (lo as u32))
    }

    /// 68000 long writeback for the -(Ax),-(Ay) extended-arithmetic forms:
    /// write the low word, perform the final prefetch, then write the high
    /// word. The IPL poll rides the low-word write.
    #[verifier::opaque]
    pub open spec fn write_long_mm_interleaved_68000(self, addr: u32, value: u32) -> Machine {
        let m = self.write_16(addr.wrapping_add(2), (value & 0xFFFF) as u16);
        let m = m.ipl_poll_point();
        let m = m.top_up_prefetch();
        let m = m.write_16(addr, (value >> 16) as u16);
        m
    }

    /// Consume the next instruction-stream word from the prefetch queue
    /// WITHOUT a prefetch refill. Falls back to a direct fetch when the queue
    /// is empty.
    #[verifier::opaque]
    pub open spec fn consume_imm_16_no_prefetch(self) -> (Machine, u16) {
        if self.cpu.queue.prefetch_count > 0 {
            let word: u16 = self.cpu.queue.prefetch_queue[0];
            let m = self.on_cpu(CpuCore { queue: PrefetchState { prefetch_queue: vstd::array::spec_array_update(self.cpu.queue.prefetch_queue, (0) as int, self.cpu.queue.prefetch_queue[1]), ..self.cpu.queue }, ..self.cpu });
            let m = m.on_cpu(CpuCore { queue: PrefetchState { prefetch_count: m.cpu.queue.prefetch_count.wrapping_sub(1), ..m.cpu.queue }, ..m.cpu });
            let m = m.on_cpu(CpuCore { pc: m.cpu.pc.wrapping_add(2), ..m.cpu });
            (m, word)
        } else {
            let (m, v1) = self.prefetch_read(self.cpu.pc);
            match v1 {
                Some(w) => {
                    let m = m.on_cpu(CpuCore { pc: m.cpu.pc.wrapping_add(2), ..m.cpu });
                    (m, w)
                },
                None => (m, 0),
            }
        }
    }

    /// Read one instruction-stream word directly at the PC, translated as an
    /// instruction fetch.
    #[verifier::opaque]
    pub open spec fn fetch_direct(self) -> (Machine, u16) {
        if self.cpu.faulted() {
            (self, 0)
        } else {
            if is_pre_68020(self.cpu.model.cpu_type) && self.cpu.pc & 1 != 0 {
                let m = self.trigger_address_error_no_rollback(self.cpu.pc, false, true);
                (m, 0)
            } else {
                let m = self.flush_sync();
                let at: u32 = m.cpu.address(m.cpu.pc);
                let (m, v1) = m.translate(at, false, true);
                match v1 {
                    Ok(p) => {
                        let (m, v2) = m.bus_try_read_word(p);
                        match v2 {
                            Ok(w) => {
                                let m = m.on_cpu(CpuCore { pc: m.cpu.pc.wrapping_add(2), ..m.cpu });
                                (m, w)
                            },
                            Err(_f) => {
                                let m = m.trigger_bus_error_no_rollback(p, false, true);
                                (m, 0)
                            },
                        }
                    },
                    Err(f) => {
                        let m = m.handle_mmu_fetch_fault(f);
                        (m, 0)
                    },
                }
            }
        }
    }

    /// Read the opcode word at the PC without the prefetch queue.
    #[verifier::opaque]
    pub open spec fn read_opcode_16(self) -> (Machine, u16) {
        self.fetch_direct()
    }

    /// Fetch the opcode of the next instruction. With a prefetch queue it
    /// comes out of the queue, which is filled first if it is empty.
    #[verifier::opaque]
    pub open spec fn fetch_opcode(self) -> (Machine, u16) {
        if !self.cpu.prefetch_enabled() {
            self.fetch_direct()
        } else {
            if self.cpu.pc & 1 != 0 {
                let m = self.trigger_address_error_no_rollback(self.cpu.pc, false, true);
                (m, 0)
            } else {
                if self.cpu.queue.prefetch_count == 0 {
                    let m = self.full_prefetch();
                    if m.cpu.faulted() {
                        (m, 0)
                    } else {
                        m.consume_imm_16_no_prefetch()
                    }
                } else {
                    self.consume_imm_16_no_prefetch()
                }
            }
        }
    }

    /// Consume one extension word. With a prefetch queue the queue is topped
    /// up by one word, unless the stream is about to be abandoned.
    #[verifier::opaque]
    pub open spec fn read_imm_16(self) -> (Machine, u16) {
        if self.cpu.faulted() {
            (self, 0)
        } else {
            if !self.cpu.prefetch_enabled() {
                self.fetch_direct()
            } else {
                let (m, word) = self.consume_imm_16_no_prefetch();
                let m = if !m.cpu.queue.consume_without_prefetch {
                    let m = m.top_up_prefetch_one();
                    m
                } else {
                    m
                };
                (m, word)
            }
        }
    }

    /// Consume two extension words.
    #[verifier::opaque]
    pub open spec fn read_imm_32(self) -> (Machine, u32) {
        let (m, hi) = self.read_imm_16();
        let (m, lo) = m.read_imm_16();
        (m, ((hi as u32) << 16) | (lo as u32))
    }

    /// Full reset: pulse reset + load SP and PC from vectors. The queue holds
    /// nothing valid for the new PC; the first instruction fetch refills it.
    #[verifier::opaque]
    pub open spec fn reset(self) -> Machine {
        let m = self.on_cpu(self.cpu.spec_pulse_reset());
        let (m, ssp) = m.bus_read_long(0);
        let m = m.on_cpu(CpuCore { dar: vstd::array::spec_array_update(m.cpu.dar, (15) as int, ssp), ..m.cpu });
        let m = m.on_cpu(CpuCore { sp: vstd::array::spec_array_update(m.cpu.sp, (4) as int, ssp), ..m.cpu });
        let m = m.on_cpu(CpuCore { sp: vstd::array::spec_array_update(m.cpu.sp, (6) as int, ssp), ..m.cpu });
        let (m, pc) = m.bus_read_long(4);
        let m = m.on_cpu(CpuCore { pc: pc, ..m.cpu });
        let m = m.on_cpu(m.cpu.spec_invalidate_prefetch());
        let m = m.on_cpu(CpuCore { run: RunState { cycles_remaining: m.cpu.run.cycles_remaining.wrapping_sub(m.cpu.timing.reset), ..m.cpu.run }, ..m.cpu });
        m
    }

    /// Push a word onto the stack.
    #[verifier::opaque]
    pub open spec fn push_16(self, value: u16) -> Machine {
        let m = self.on_cpu(CpuCore { dar: vstd::array::spec_array_update(self.cpu.dar, (15) as int, self.cpu.dar[15].wrapping_sub(2)), ..self.cpu });
        let m = m.write_16(m.cpu.dar[15], value);
        m
    }

    /// Push a long onto the stack.
    #[verifier::opaque]
    pub open spec fn push_32(self, value: u32) -> Machine {
        let m = self.on_cpu(CpuCore { dar: vstd::array::spec_array_update(self.cpu.dar, (15) as int, self.cpu.dar[15].wrapping_sub(4)), ..self.cpu });
        let m = m.write_32(m.cpu.dar[15], value);
        m
    }

    /// Pull a word from the stack.
    #[verifier::opaque]
    pub open spec fn pull_16(self) -> (Machine, u16) {
        let (m, value) = self.read_16(self.cpu.dar[15]);
        let m = m.on_cpu(CpuCore { dar: vstd::array::spec_array_update(m.cpu.dar, (15) as int, m.cpu.dar[15].wrapping_add(2)), ..m.cpu });
        (m, value)
    }

    /// Pull a long from the stack.
    #[verifier::opaque]
    pub open spec fn pull_32(self) -> (Machine, u32) {
        let (m, value) = self.read_32(self.cpu.dar[15]);
        let m = m.on_cpu(CpuCore { dar: vstd::array::spec_array_update(m.cpu.dar, (15) as int, m.cpu.dar[15].wrapping_add(4)), ..m.cpu });
        (m, value)
    }

    /// Jump to an exception vector. The queue is refilled from the handler
    /// address, with 2 internal clocks between the two refill reads.
    #[verifier::opaque]
    pub open spec fn jump_vector(self, vector: u32) -> Machine {
        let m = self.begin_vector(vector);
        let (m, target) = m.read_32((vector << 2).wrapping_add(m.cpu.control.vbr));
        let m = m.on_cpu(CpuCore { pc: target, ..m.cpu });
        let m = m.prefetch_first();
        let m = m.on_cpu(m.cpu.spec_internal_cycles(2));
        let m = m.prefetch_second();
        m
    }

    /// Refill that the microcode performs after the queue was discarded:
    /// forget the queue, then read both words.
    #[verifier::opaque]
    pub open spec fn discard_and_refill(self) -> Machine {
        let m = self.on_cpu(self.cpu.spec_invalidate_prefetch());
        let m = m.full_prefetch();
        m
    }
}

impl CpuCore {
    /// Deliver the fault of an access, if it met one.
    pub fn deliver_if<B: AddressBus>(&mut self, bus: &mut B, fault: Option<Fault>)
        ensures
            Machine::of(*final(self), *final(bus)) == Machine::of(*old(self), *old(bus)).deliver_if(fault),
    {
        proof {
            reveal(Machine::deliver_if);
        }
        match fault {
            Some(f) => {
                self.deliver(bus, f);
            },
            None => {},
        }
    }

    /// Read byte from memory (data space).
    pub fn read_8<B: AddressBus>(&mut self, bus: &mut B, addr: u32) -> (r: u8)
        ensures
            (Machine::of(*final(self), *final(bus)), r) == Machine::of(*old(self), *old(bus)).read_8(addr),
    {
        proof {
            reveal(Machine::read_8);
        }
        let read: Access = self.access_read_8(bus, addr);
        self.deliver_if(bus, read.fault);
        read.value as u8
    }

    /// Read word from memory (data space).
    pub fn read_16<B: AddressBus>(&mut self, bus: &mut B, addr: u32) -> (r: u16)
        ensures
            (Machine::of(*final(self), *final(bus)), r) == Machine::of(*old(self), *old(bus)).read_16(addr),
    {
        proof {
            reveal(Machine::read_16);
        }
        let read: Access = self.access_read_16(bus, addr);
        self.deliver_if(bus, read.fault);
        read.value as u16
    }

    /// Read long from memory (data space).
    pub fn read_32<B: AddressBus>(&mut self, bus: &mut B, addr: u32) -> (r: u32)
        ensures
            (Machine::of(*final(self), *final(bus)), r) == Machine::of(*old(self), *old(bus)).read_32(addr),
    {
        proof {
            reveal(Machine::read_32);
        }
        let read: Access = self.access_read_32(bus, addr);
        self.deliver_if(bus, read.fault);
        read.value
    }

    /// Read a three-byte operand from memory (data space), returned in the
    /// low 24 bits.
    pub fn read_24<B: AddressBus>(&mut self, bus: &mut B, addr: u32) -> (r: u32)
        ensures
            (Machine::of(*final(self), *final(bus)), r) == Machine::of(*old(self), *old(bus)).read_24(addr),
    {
        proof {
            reveal(Machine::read_24);
        }
        let read: Access = self.access_read_24(bus, addr);
        self.deliver_if(bus, read.fault);
        read.value
    }

    /// Write byte to memory (data space).
    pub fn write_8<B: AddressBus>(&mut self, bus: &mut B, addr: u32, value: u8)
        ensures
            Machine::of(*final(self), *final(bus)) == Machine::of(*old(self), *old(bus)).write_8(addr, value),
    {
        proof {
            reveal(Machine::write_8);
        }
        let fault: Option<Fault> = self.access_write_8(bus, addr, value);
        self.deliver_if(bus, fault);
    }

    /// Write word to memory (data space).
    pub fn write_16<B: AddressBus>(&mut self, bus: &mut B, addr: u32, value: u16)
        ensures
            Machine::of(*final(self), *final(bus)) == Machine::of(*old(self), *old(bus)).write_16(addr, value),
    {
        proof {
            reveal(Machine::write_16);
        }
        let fault: Option<Fault> = self.access_write_16(bus, addr, value);
        self.deliver_if(bus, fault);
    }

    /// Write the low 24 bits of `value` to memory (data space) as a
    /// three-byte operand.
    pub fn write_24<B: AddressBus>(&mut self, bus: &mut B, addr: u32, value: u32)
        ensures
            Machine::of(*final(self), *final(bus)) == Machine::of(*old(self), *old(bus)).write_24(addr, value),
    {
        proof {
            reveal(Machine::write_24);
        }
        let fault: Option<Fault> = self.access_write_24(bus, addr, value);
        self.deliver_if(bus, fault);
    }

    /// Write long to memory (data space).
    pub fn write_32<B: AddressBus>(&mut self, bus: &mut B, addr: u32, value: u32)
        ensures
            Machine::of(*final(self), *final(bus)) == Machine::of(*old(self), *old(bus)).write_32(addr, value),
    {
        proof {
            reveal(Machine::write_32);
        }
        let fault: Option<Fault> = self.access_write_32(bus, addr, value);
        self.deliver_if(bus, fault);
    }

    /// Read one program-space word for the prefetch queue. Returns None when
    /// the read faulted (bus error already triggered).
    pub fn prefetch_read<B: AddressBus>(&mut self, bus: &mut B, addr: u32) -> (r: Option<u16>)
        ensures
            (Machine::of(*final(self), *final(bus)), r) == Machine::of(*old(self), *old(bus)).prefetch_read(addr),
    {
        proof {
            reveal(Machine::prefetch_read);
        }
        self.flush_sync(bus);
        let at: u32 = self.address(addr);
        bus.prefetch_refill();
        match bus.try_read_word(at) {
            Ok(w) => Some(w),
            Err(_f) => {
                self.trigger_bus_error(bus, at, false, true, 2);
                None
            },
        }
    }

    /// Refill the prefetch queue from the current PC: two program-space word
    /// reads at `pc` and `pc + 2`, discarding whatever was queued.
    pub fn full_prefetch<B: AddressBus>(&mut self, bus: &mut B)
        ensures
            Machine::of(*final(self), *final(bus)) == Machine::of(*old(self), *old(bus)).full_prefetch(),
    {
        proof {
            reveal(Machine::full_prefetch);
        }
        self.prefetch_first(bus);
        self.prefetch_second(bus);
    }

    /// First half of a flow-change prefetch: read the word at the new PC into
    /// the front of the queue. An odd PC leaves the queue empty.
    pub fn prefetch_first<B: AddressBus>(&mut self, bus: &mut B)
        ensures
            Machine::of(*final(self), *final(bus)) == Machine::of(*old(self), *old(bus)).prefetch_first(),
    {
        proof {
            reveal(Machine::prefetch_first);
        }
        if !self.prefetch_enabled() {
            return;
        }
        self.queue.prefetch_count = 0;
        if self.pc & 1 != 0 {
            return;
        }
        match self.prefetch_read(bus, self.pc) {
            Some(w) => {
                self.queue.prefetch_queue[0] = w;
                self.queue.prefetch_count = 1;
            },
            None => {},
        }
    }

    /// Second half of a flow-change prefetch: read the word at PC + 2 into the
    /// back of the queue.
    pub fn prefetch_second<B: AddressBus>(&mut self, bus: &mut B)
        ensures
            Machine::of(*final(self), *final(bus)) == Machine::of(*old(self), *old(bus)).prefetch_second(),
    {
        proof {
            reveal(Machine::prefetch_second);
        }
        if !self.prefetch_enabled() || self.queue.prefetch_count != 1 {
            return;
        }
        if self.pc & 1 != 0 || self.faulted() {
            return;
        }
        match self.prefetch_read(bus, self.pc.wrapping_add(2)) {
            Some(w) => {
                self.queue.prefetch_queue[1] = w;
                self.queue.prefetch_count = 2;
            },
            None => {},
        }
    }

    /// Fetch one word into the back of the prefetch queue.
    pub fn top_up_prefetch_one<B: AddressBus>(&mut self, bus: &mut B)
        ensures
            Machine::of(*final(self), *final(bus)) == Machine::of(*old(self), *old(bus)).top_up_prefetch_one(),
    {
        proof {
            reveal(Machine::top_up_prefetch_one);
        }
        if self.looping.active {
            return;
        }
        if !self.prefetch_enabled() || self.pc & 1 != 0 || self.queue.prefetch_count >= 2 {
            return;
        }
        if self.faulted() {
            return;
        }
        let slot: u8 = self.queue.prefetch_count;
        if slot == 0 {
            match self.prefetch_read(bus, self.pc) {
                Some(w) => {
                    self.queue.prefetch_queue[0] = w;
                    self.queue.prefetch_count = self.queue.prefetch_count.wrapping_add(1);
                },
                None => {},
            }
        } else {
            match self.prefetch_read(bus, self.pc.wrapping_add(2)) {
                Some(w) => {
                    self.queue.prefetch_queue[1] = w;
                    self.queue.prefetch_count = self.queue.prefetch_count.wrapping_add(1);
                },
                None => {},
            }
        }
    }

    /// Top the prefetch queue back up to two words at the end of an
    /// instruction. A no-op after flow-change instructions, on a stopped CPU,
    /// and on non-prefetch CPU types.
    pub fn top_up_prefetch<B: AddressBus>(&mut self, bus: &mut B)
        ensures
            Machine::of(*final(self), *final(bus)) == Machine::of(*old(self), *old(bus)).top_up_prefetch(),
    {
        proof {
            reveal(Machine::top_up_prefetch);
        }
        if self.looping.active {
            return;
        }
        if !self.prefetch_enabled() || self.pc & 1 != 0 || self.run.stopped != 0 {
            return;
        }
        if self.faulted() {
            return;
        }
        if self.queue.prefetch_count >= 2 {
            return;
        }
        let before: u8 = self.queue.prefetch_count;
        self.top_up_prefetch_one(bus);
        if self.queue.prefetch_count == before {
            return;
        }
        if self.queue.prefetch_count < 2 {
            self.top_up_prefetch_one(bus);
        }
    }

    /// 68000 -(An) long operand read: the two predecrement micro-steps read
    /// the LOW word first (at addr + 2), then the HIGH word (at addr).
    pub fn read_long_predec_68000<B: AddressBus>(&mut self, bus: &mut B, addr: u32) -> (r: u32)
        ensures
            (Machine::of(*final(self), *final(bus)), r) == Machine::of(*old(self), *old(bus)).read_long_predec_68000(addr),
    {
        proof {
            reveal(Machine::read_long_predec_68000);
        }
        let lo: u16 = self.read_16(bus, addr.wrapping_add(2));
        let hi: u16 = self.read_16(bus, addr);
        ((hi as u32) << 16) | (lo as u32)
    }

    /// 68000 long writeback for the -(Ax),-(Ay) extended-arithmetic forms:
    /// write the low word, perform the final prefetch, then write the high
    /// word. The IPL poll rides the low-word write.
    pub fn write_long_mm_interleaved_68000<B: AddressBus>(&mut self, bus: &mut B, addr: u32, value: u32)
        ensures
            Machine::of(*final(self), *final(bus)) == Machine::of(*old(self), *old(bus)).write_long_mm_interleaved_68000(addr, value),
    {
        proof {
            reveal(Machine::write_long_mm_interleaved_68000);
        }
        self.write_16(bus, addr.wrapping_add(2), (value & 0xFFFF) as u16);
        self.ipl_poll_point(bus);
        self.top_up_prefetch(bus);
        self.write_16(bus, addr, (value >> 16) as u16);
    }

    /// Consume the next instruction-stream word from the prefetch queue
    /// WITHOUT a prefetch refill. Falls back to a direct fetch when the queue
    /// is empty.
    pub fn consume_imm_16_no_prefetch<B: AddressBus>(&mut self, bus: &mut B) -> (r: u16)
        ensures
            (Machine::of(*final(self), *final(bus)), r) == Machine::of(*old(self), *old(bus)).consume_imm_16_no_prefetch(),
    {
        proof {
            reveal(Machine::consume_imm_16_no_prefetch);
        }
        if self.queue.prefetch_count > 0 {
            let word: u16 = self.queue.prefetch_queue[0];
            self.queue.prefetch_queue[0] = self.queue.prefetch_queue[1];
            self.queue.prefetch_count = self.queue.prefetch_count.wrapping_sub(1);
            self.pc = self.pc.wrapping_add(2);
            return word;
        }
        match self.prefetch_read(bus, self.pc) {
            Some(w) => {
                self.pc = self.pc.wrapping_add(2);
                w
            },
            None => 0,
        }
    }

    /// Read one instruction-stream word directly at the PC, translated as an
    /// instruction fetch.
    pub fn fetch_direct<B: AddressBus>(&mut self, bus: &mut B) -> (r: u16)
        ensures
            (Machine::of(*final(self), *final(bus)), r) == Machine::of(*old(self), *old(bus)).fetch_direct(),
    {
        proof {
            reveal(Machine::fetch_direct);
        }
        if self.faulted() {
            return 0;
        }
        if is_pre_68020(self.model.cpu_type) && self.pc & 1 != 0 {
            self.trigger_address_error_no_rollback(bus, self.pc, false, true);
            return 0;
        }
        self.flush_sync(bus);
        let at: u32 = self.address(self.pc);
        match self.translate(bus, at, false, true) {
            Ok(p) => {
                match bus.try_read_word(p) {
                    Ok(w) => {
                        self.pc = self.pc.wrapping_add(2);
                        w
                    },
                    Err(_f) => {
                        self.trigger_bus_error_no_rollback(bus, p, false, true);
                        0
                    },
                }
            },
            Err(f) => {
                self.handle_mmu_fetch_fault(bus, f);
                0
            },
        }
    }

    /// Read the opcode word at the PC without the prefetch queue.
    pub fn read_opcode_16<B: AddressBus>(&mut self, bus: &mut B) -> (r: u16)
        ensures
            (Machine::of(*final(self), *final(bus)), r) == Machine::of(*old(self), *old(bus)).read_opcode_16(),
    {
        proof {
            reveal(Machine::read_opcode_16);
        }
        self.fetch_direct(bus)
    }

    /// Fetch the opcode of the next instruction. With a prefetch queue it
    /// comes out of the queue, which is filled first if it is empty.
    pub fn fetch_opcode<B: AddressBus>(&mut self, bus: &mut B) -> (r: u16)
        ensures
            (Machine::of(*final(self), *final(bus)), r) == Machine::of(*old(self), *old(bus)).fetch_opcode(),
    {
        proof {
            reveal(Machine::fetch_opcode);
        }
        if !self.prefetch_enabled() {
            return self.fetch_direct(bus);
        }
        if self.pc & 1 != 0 {
            self.trigger_address_error_no_rollback(bus, self.pc, false, true);
            return 0;
        }
        if self.queue.prefetch_count == 0 {
            self.full_prefetch(bus);
            if self.faulted() {
                return 0;
            }
        }
        self.consume_imm_16_no_prefetch(bus)
    }

    /// Consume one extension word. With a prefetch queue the queue is topped
    /// up by one word, unless the stream is about to be abandoned.
    pub fn read_imm_16<B: AddressBus>(&mut self, bus: &mut B) -> (r: u16)
        ensures
            (Machine::of(*final(self), *final(bus)), r) == Machine::of(*old(self), *old(bus)).read_imm_16(),
    {
        proof {
            reveal(Machine::read_imm_16);
        }
        if self.faulted() {
            return 0;
        }
        if !self.prefetch_enabled() {
            return self.fetch_direct(bus);
        }
        let word: u16 = self.consume_imm_16_no_prefetch(bus);
        if !self.queue.consume_without_prefetch {
            self.top_up_prefetch_one(bus);
        }
        word
    }

    /// Consume two extension words.
    pub fn read_imm_32<B: AddressBus>(&mut self, bus: &mut B) -> (r: u32)
        ensures
            (Machine::of(*final(self), *final(bus)), r) == Machine::of(*old(self), *old(bus)).read_imm_32(),
    {
        proof {
            reveal(Machine::read_imm_32);
        }
        let hi: u16 = self.read_imm_16(bus);
        let lo: u16 = self.read_imm_16(bus);
        ((hi as u32) << 16) | (lo as u32)
    }

    /// Full reset: pulse reset + load SP and PC from vectors. The queue holds
    /// nothing valid for the new PC; the first instruction fetch refills it.
    pub fn reset<B: AddressBus>(&mut self, bus: &mut B)
        ensures
            Machine::of(*final(self), *final(bus)) == Machine::of(*old(self), *old(bus)).reset(),
    {
        proof {
            reveal(Machine::reset);
        }
        self.pulse_reset();
        let ssp: u32 = bus.read_long(0);
        self.dar[15] = ssp;
        self.sp[4] = ssp;
        self.sp[6] = ssp;
        let pc: u32 = bus.read_long(4);
        self.pc = pc;
        self.invalidate_prefetch();
        self.run.cycles_remaining = self.run.cycles_remaining.wrapping_sub(self.timing.reset);
    }

    /// Push a word onto the stack.
    pub fn push_16<B: AddressBus>(&mut self, bus: &mut B, value: u16)
        ensures
            Machine::of(*final(self), *final(bus)) == Machine::of(*old(self), *old(bus)).push_16(value),
    {
        proof {
            reveal(Machine::push_16);
        }
        self.dar[15] = self.dar[15].wrapping_sub(2);
        self.write_16(bus, self.dar[15], value);
    }

    /// Push a long onto the stack.
    pub fn push_32<B: AddressBus>(&mut self, bus: &mut B, value: u32)
        ensures
            Machine::of(*final(self), *final(bus)) == Machine::of(*old(self), *old(bus)).push_32(value),
    {
        proof {
            reveal(Machine::push_32);
        }
        self.dar[15] = self.dar[15].wrapping_sub(4);
        self.write_32(bus, self.dar[15], value);
    }

    /// Pull a word from the stack.
    pub fn pull_16<B: AddressBus>(&mut self, bus: &mut B) -> (r: u16)
        ensures
            (Machine::of(*final(self), *final(bus)), r) == Machine::of(*old(self), *old(bus)).pull_16(),
    {
        proof {
            reveal(Machine::pull_16);
        }
        let value: u16 = self.read_16(bus, self.dar[15]);
        self.dar[15] = self.dar[15].wrapping_add(2);
        value
    }

    /// Pull a long from the stack.
    pub fn pull_32<B: AddressBus>(&mut self, bus: &mut B) -> (r: u32)
        ensures
            (Machine::of(*final(self), *final(bus)), r) == Machine::of(*old(self), *old(bus)).pull_32(),
    {
        proof {
            reveal(Machine::pull_32);
        }
        let value: u32 = self.read_32(bus, self.dar[15]);
        self.dar[15] = self.dar[15].wrapping_add(4);
        value
    }

    /// Jump to a new PC.
    #[verifier::opaque]
    pub open spec fn spec_jump(self, new_pc: u32) -> CpuCore {
        let c = CpuCore { pc: self.address(new_pc), ..self };
        c
    }

    /// Jump to a new PC.
    pub fn jump(&mut self, new_pc: u32)
        ensures
            *final(self) == old(self).spec_jump(new_pc),
    {
        proof {
            reveal(CpuCore::spec_jump);
        }
        self.pc = self.address(new_pc);
    }

    /// Jump to an exception vector. The queue is refilled from the handler
    /// address, with 2 internal clocks between the two refill reads.
    pub fn jump_vector<B: AddressBus>(&mut self, bus: &mut B, vector: u32)
        ensures
            Machine::of(*final(self), *final(bus)) == Machine::of(*old(self), *old(bus)).jump_vector(vector),
    {
        proof {
            reveal(Machine::jump_vector);
        }
        self.begin_vector(bus, vector);
        let target: u32 = self.read_32(bus, (vector << 2).wrapping_add(self.control.vbr));
        self.pc = target;
        self.prefetch_first(bus);
        self.internal_cycles(2);
        self.prefetch_second(bus);
    }

    /// Branch with 8-bit displacement.
    #[verifier::opaque]
    pub open spec fn spec_branch_8(self, offset: u8) -> CpuCore {
        let c = CpuCore { pc: self.pc.wrapping_add(sext8(offset)), ..self };
        c
    }

    /// Branch with 8-bit displacement.
    pub fn branch_8(&mut self, offset: u8)
        ensures
            *final(self) == old(self).spec_branch_8(offset),
    {
        proof {
            reveal(CpuCore::spec_branch_8);
        }
        self.pc = self.pc.wrapping_add(sext8(offset));
    }

    /// Branch with 16-bit displacement.
    #[verifier::opaque]
    pub open spec fn spec_branch_16(self, offset: u16) -> CpuCore {
        let c = CpuCore { pc: self.pc.wrapping_add(sext16(offset)), ..self };
        c
    }

    /// Branch with 16-bit displacement.
    pub fn branch_16(&mut self, offset: u16)
        ensures
            *final(self) == old(self).spec_branch_16(offset),
    {
        proof {
            reveal(CpuCore::spec_branch_16);
        }
        self.pc = self.pc.wrapping_add(sext16(offset));
    }

    /// Branch with 32-bit displacement.
    #[verifier::opaque]
    pub open spec fn spec_branch_32(self, offset: u32) -> CpuCore {
        let c = CpuCore { pc: self.pc.wrapping_add(offset), ..self };
        c
    }

    /// Branch with 32-bit displacement.
    pub fn branch_32(&mut self, offset: u32)
        ensures
            *final(self) == old(self).spec_branch_32(offset),
    {
        proof {
            reveal(CpuCore::spec_branch_32);
        }
        self.pc = self.pc.wrapping_add(offset);
    }

    /// Refill that the microcode performs after the queue was discarded:
    /// forget the queue, then read both words.
    pub fn discard_and_refill<B: AddressBus>(&mut self, bus: &mut B)
        ensures
            Machine::of(*final(self), *final(bus)) == Machine::of(*old(self), *old(bus)).discard_and_refill(),
    {
        proof {
            reveal(Machine::discard_and_refill);
        }
        self.invalidate_prefetch();
        self.full_prefetch(bus);
    }
}

} // verus!
