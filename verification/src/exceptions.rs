//! Exception entry: stack frames, vectors, and faults.

use vstd::prelude::*;
use crate::access::{Access, Fault};
use crate::cpu::{
    CpuCore, FaultResume, FaultState, LoopState, PrefetchState, RunState, SystemFlags,
    RUN_MODE_BERR_AERR_RESET, SFLAG_SET,
};
use crate::machine::Machine;
use crate::memory::{AddressBus, MmuFault, MmuFaultCause, MmuFaultKind};
use crate::types::CpuType;

verus! {

/// Bus error.
pub const VECTOR_BUS_ERROR: u32 = 2;
/// Address error.
pub const VECTOR_ADDRESS_ERROR: u32 = 3;
/// Illegal instruction.
pub const VECTOR_ILLEGAL: u32 = 4;
/// Division by zero.
pub const VECTOR_ZERO_DIVIDE: u32 = 5;
/// CHK and CHK2.
pub const VECTOR_CHK: u32 = 6;
/// TRAPV and TRAPcc.
pub const VECTOR_TRAPV: u32 = 7;
/// Privilege violation.
pub const VECTOR_PRIVILEGE: u32 = 8;
/// Trace.
pub const VECTOR_TRACE: u32 = 9;
/// Line-A emulator.
pub const VECTOR_LINE_1010: u32 = 10;
/// Line-F emulator.
pub const VECTOR_LINE_1111: u32 = 11;
/// Stack frame of unknown format.
pub const VECTOR_FORMAT_ERROR: u32 = 14;
/// TRAP #0; the fifteen others follow.
pub const VECTOR_TRAP_BASE: u32 = 32;
/// MMU configuration error.
pub const VECTOR_MMU_CONFIGURATION: u32 = 56;
/// MMU illegal operation.
pub const VECTOR_MMU_ILLEGAL: u32 = 57;
/// MMU access level violation.
pub const VECTOR_MMU_ACCESS_LEVEL: u32 = 58;
/// Integer instruction that the 68060 dropped.
pub const VECTOR_UNIMPLEMENTED_INTEGER: u32 = 61;

/// Whether the frame of a vector holds the address of the instruction itself
/// rather than of its successor.
pub open spec fn spec_stacks_own_address(vector: u32) -> bool {
    match vector {
        4 | 8 | 10 | 11 | 14 | 61 => true,
        _ => false,
    }
}

/// Whether the frame of a vector holds the address of the instruction itself
/// rather than of its successor.
#[verifier::when_used_as_spec(spec_stacks_own_address)]
pub fn stacks_own_address(vector: u32) -> (r: bool)
    ensures
        r == spec_stacks_own_address(vector),
{
    match vector {
        4 | 8 | 10 | 11 | 14 | 61 => true,
        _ => false,
    }
}

/// Whether the 68020 and later stack a six-word frame for a vector, with the
/// address of the instruction in it.
pub open spec fn spec_has_long_frame(vector: u32) -> bool {
    match vector {
        5 | 6 | 7 | 9 => true,
        _ => false,
    }
}

/// Whether the 68020 and later stack a six-word frame for a vector, with the
/// address of the instruction in it.
#[verifier::when_used_as_spec(spec_has_long_frame)]
pub fn has_long_frame(vector: u32) -> (r: bool)
    ensures
        r == spec_has_long_frame(vector),
{
    match vector {
        5 | 6 | 7 | 9 => true,
        _ => false,
    }
}

/// Size code of a transfer in the status words.
pub open spec fn spec_transfer_size(size: u32) -> u16 {
    match size {
        1 => 1,
        2 => 2,
        3 => 3,
        _ => 0,
    }
}

/// Size code of a transfer in the status words.
#[verifier::when_used_as_spec(spec_transfer_size)]
pub fn transfer_size(size: u32) -> (r: u16)
    ensures
        r == spec_transfer_size(size),
{
    match size {
        1 => 1,
        2 => 2,
        3 => 3,
        _ => 0,
    }
}

/// Clocks of exception entry on the 68000.
pub open spec fn spec_exception_cycles(vector: u32) -> i32 {
    match vector {
        2 | 3 => 50,
        5 => 38,
        6 => 40,
        _ => 34,
    }
}

/// Clocks of exception entry on the 68000.
#[verifier::when_used_as_spec(spec_exception_cycles)]
pub fn exception_cycles(vector: u32) -> (r: i32)
    ensures
        r == spec_exception_cycles(vector),
{
    match vector {
        2 | 3 => 50,
        5 => 38,
        6 => 40,
        _ => 34,
    }
}

impl Machine {
    /// Word write of exception entry.
    #[verifier::opaque]
    pub open spec fn frame_write_16(self, addr: u32, value: u16) -> Machine {
        let (m, fault) = self.access_write_16(addr, value);
        if fault.is_some() {
            let m = m.on_cpu(m.cpu.spec_double_fault());
            m
        } else {
            m
        }
    }

    /// Long write of exception entry.
    #[verifier::opaque]
    pub open spec fn frame_write_32(self, addr: u32, value: u32) -> Machine {
        let (m, fault) = self.access_write_32(addr, value);
        if fault.is_some() {
            let m = m.on_cpu(m.cpu.spec_double_fault());
            m
        } else {
            m
        }
    }

    /// Long read of exception entry.
    #[verifier::opaque]
    pub open spec fn frame_read_32(self, addr: u32) -> (Machine, u32) {
        let (m, read) = self.access_read_32(addr);
        let m = if read.fault.is_some() {
            let m = m.on_cpu(m.cpu.spec_double_fault());
            m
        } else {
            m
        };
        (m, read.value)
    }

    /// Prefetch read of exception entry.
    #[verifier::opaque]
    pub open spec fn frame_prefetch(self, addr: u32) -> (Machine, Option<u16>) {
        let m = self.flush_sync();
        let at: u32 = m.cpu.address(addr);
        let (m, v1) = m.bus_try_read_word(at);
        match v1 {
            Ok(w) => (m, Some(w)),
            Err(_f) => {
                let m = m.on_cpu(m.cpu.spec_double_fault());
                (m, None)
            },
        }
    }

    /// What every vectored entry does before the vector is read: open
    /// pipeline state, a held interrupt sample and loop mode end here.
    #[verifier::opaque]
    pub open spec fn begin_vector(self, vector: u32) -> Machine {
        let m = self.on_cpu(self.cpu.spec_clear_execution_pipeline_state());
        let m = m.bus_ipl_release_sample();
        let m = m.on_cpu(CpuCore { looping: LoopState { active: false, ..m.cpu.looping }, ..m.cpu });
        let m = m.on_cpu(CpuCore { fault: FaultState { last_vector: Some(vector), ..m.cpu.fault }, ..m.cpu });
        let m = m.on_cpu(CpuCore { fault: FaultState { instruction_vector: Some(vector), ..m.cpu.fault }, ..m.cpu });
        m
    }

    /// Refill the queue from the handler, with two internal clocks between
    /// the two reads.
    #[verifier::opaque]
    pub open spec fn frame_refill(self) -> Machine {
        if !self.cpu.prefetch_enabled() {
            self
        } else {
            let m = self.on_cpu(CpuCore { queue: PrefetchState { prefetch_count: 0, ..self.cpu.queue }, ..self.cpu });
            if m.cpu.pc & 1 != 0 {
                m
            } else {
                let (m, v1) = m.frame_prefetch(m.cpu.pc);
                match v1 {
                    Some(w) => {
                        let m = m.on_cpu(CpuCore { queue: PrefetchState { prefetch_queue: vstd::array::spec_array_update(m.cpu.queue.prefetch_queue, (0) as int, w), ..m.cpu.queue }, ..m.cpu });
                        let m = m.on_cpu(CpuCore { queue: PrefetchState { prefetch_count: 1, ..m.cpu.queue }, ..m.cpu });
                        let m = m.on_cpu(m.cpu.spec_internal_cycles(2));
                        if m.cpu.faulted() {
                            m
                        } else {
                            let (m, v2) = m.frame_prefetch(m.cpu.pc.wrapping_add(2));
                            match v2 {
                                Some(w) => {
                                    let m = m.on_cpu(CpuCore { queue: PrefetchState { prefetch_queue: vstd::array::spec_array_update(m.cpu.queue.prefetch_queue, (1) as int, w), ..m.cpu.queue }, ..m.cpu });
                                    let m = m.on_cpu(CpuCore { queue: PrefetchState { prefetch_count: 2, ..m.cpu.queue }, ..m.cpu });
                                    m
                                },
                                None => m,
                            }
                        }
                    },
                    None => m,
                }
            }
        }
    }

    /// Continue at the handler of a vector, at the end of exception entry.
    #[verifier::opaque]
    pub open spec fn enter_vector(self, vector: u32) -> Machine {
        let m = self.begin_vector(vector);
        let (m, target) = m.frame_read_32((vector << 2).wrapping_add(m.cpu.control.vbr));
        let m = m.on_cpu(CpuCore { pc: target, ..m.cpu });
        let m = m.frame_refill();
        m
    }

    /// Stack SR, PC and format word; the 68000 has no format word. The short
    /// frames go out in the order PC low, SR, PC high.
    #[verifier::opaque]
    pub open spec fn stack_frame(self, sr: u16, pc: u32, vector: u32) -> Machine {
        if self.cpu.model.cpu_type == CpuType::M68000 {
            let m = self.on_cpu(self.cpu.spec_internal_cycles(4));
            let (cpu, v1) = m.cpu.spec_reserve_frame(6);
            let m = m.on_cpu(cpu);
            let sp: u32 = v1;
            let m = m.frame_write_16(sp.wrapping_add(4), pc as u16);
            let m = m.frame_write_16(sp, sr);
            let m = m.frame_write_16(sp.wrapping_add(2), (pc >> 16) as u16);
            m
        } else if has_long_frame(vector) && !self.cpu.model.is_pre_68020 {
            let (cpu, v2) = self.cpu.spec_reserve_frame(12);
            let m = self.on_cpu(cpu);
            let sp: u32 = v2;
            let m = m.frame_write_32(sp.wrapping_add(8), m.cpu.ppc);
            let m = m.frame_write_16(sp.wrapping_add(6), 0x2000 | ((vector << 2) as u16 & 0x0FFF));
            let m = m.frame_write_32(sp.wrapping_add(2), pc);
            let m = m.frame_write_16(sp, sr);
            m
        } else {
            let m = self.on_cpu(self.cpu.spec_internal_cycles(4));
            let (cpu, v3) = m.cpu.spec_reserve_frame(8);
            let m = m.on_cpu(cpu);
            let sp: u32 = v3;
            let m = m.frame_write_16(sp.wrapping_add(4), pc as u16);
            let m = m.frame_write_16(sp, sr);
            let m = m.frame_write_16(sp.wrapping_add(2), (pc >> 16) as u16);
            let m = m.frame_write_16(sp.wrapping_add(6), (vector << 2) as u16 & 0x0FFF);
            m
        }
    }

    /// Take an exception: stack a frame and continue at the handler. A second
    /// exception while one is being taken halts the processor. Gives the
    /// clocks taken.
    #[verifier::opaque]
    pub open spec fn take_exception(self, vector: u32) -> (Machine, i32) {
        if self.cpu.run.exception_processing {
            let m = self.on_cpu(self.cpu.spec_double_fault());
            (m, 0)
        } else {
            let m = self.on_cpu(CpuCore { run: RunState { exception_processing: true, ..self.cpu.run }, ..self.cpu });
            let (cpu, v1) = m.cpu.spec_begin_exception();
            let m = m.on_cpu(cpu);
            let sr: u16 = v1;
            let pc: u32 = if stacks_own_address(vector) {
                m.cpu.ppc
            } else {
                m.cpu.pc
            };
            let m = m.stack_frame(sr, pc, vector);
            let m = m.enter_vector(vector);
            let m = m.on_cpu(CpuCore { run: RunState { exception_processing: false, ..m.cpu.run }, ..m.cpu });
            (m, exception_cycles(vector))
        }
    }

    /// The seven-word frame of the 68000: status, access address, opcode, SR
    /// and PC.
    #[verifier::opaque]
    pub open spec fn fault_frame_68000(self, address: u32, status: u16, sr: u16) -> Machine {
        let pc: u32 = self.cpu.pc;
        let (cpu, v1) = self.cpu.spec_reserve_frame(14);
        let m = self.on_cpu(cpu);
        let sp: u32 = v1;
        let m = m.frame_write_16(sp.wrapping_add(12), pc as u16);
        let m = m.frame_write_16(sp.wrapping_add(8), sr);
        let m = m.frame_write_16(sp.wrapping_add(10), (pc >> 16) as u16);
        let m = m.frame_write_16(sp.wrapping_add(6), m.cpu.ir as u16);
        let m = m.frame_write_16(sp.wrapping_add(4), address as u16);
        let m = m.frame_write_16(sp, status);
        let m = m.frame_write_16(sp.wrapping_add(2), (address >> 16) as u16);
        m
    }

    /// The first four words of a fault frame of the 68010 and later. The PC
    /// stacked is that of the faulted instruction, which a return restarts.
    #[verifier::opaque]
    pub open spec fn fault_frame_head(self, sp: u32, sr: u16, format: u16, vector: u32) -> Machine {
        let m = self.frame_write_16(sp.wrapping_add(6), format | ((vector << 2) as u16 & 0x0FFF));
        let m = m.frame_write_32(sp.wrapping_add(2), m.cpu.ppc);
        let m = m.frame_write_16(sp, sr);
        m
    }

    /// The 29-word frame of the 68010. Words that no handler may rely on are
    /// left unwritten, here and in the longer frames below.
    #[verifier::opaque]
    pub open spec fn fault_frame_68010(self, address: u32, status: u16, sr: u16, vector: u32) -> Machine {
        let (cpu, v1) = self.cpu.spec_reserve_frame(58);
        let m = self.on_cpu(cpu);
        let sp: u32 = v1;
        let m = m.frame_write_16(sp.wrapping_add(16), m.cpu.fault.wdata as u16);
        let m = m.frame_write_32(sp.wrapping_add(10), address);
        let m = m.frame_write_16(sp.wrapping_add(8), status);
        let m = m.fault_frame_head(sp, sr, 0x8000, vector);
        m
    }

    /// The 46-word frame of the 68020 and 68030.
    #[verifier::opaque]
    pub open spec fn fault_frame_68030(self, address: u32, write: bool, instruction: bool, size: u32, fc: u16, sr: u16, vector: u32) -> Machine {
        let (cpu, v1) = self.cpu.spec_reserve_frame(92);
        let m = self.on_cpu(cpu);
        let sp: u32 = v1;
        let direction: u16 = if write {
            0
        } else {
            0x0040
        };
        let status: u16 = if instruction {
            0x5000 | direction | (transfer_size(size) << 4) | fc
        } else {
            0x0100 | direction | (transfer_size(size) << 4) | fc
        };
        let m = m.frame_write_32(sp.wrapping_add(0x2C), 0);
        let m = m.frame_write_32(sp.wrapping_add(0x18), m.cpu.fault.wdata);
        let m = m.frame_write_32(sp.wrapping_add(0x10), address);
        let m = m.frame_write_16(sp.wrapping_add(0x0A), status);
        let m = m.fault_frame_head(sp, sr, 0xB000, vector);
        m
    }

    /// The 30-word frame of the 68040. A faulted write is described in the
    /// third write-back slot.
    #[verifier::opaque]
    pub open spec fn fault_frame_68040(self, address: u32, write: bool, size: u32, fc: u16, sr: u16, vector: u32) -> Machine {
        let (cpu, v1) = self.cpu.spec_reserve_frame(60);
        let m = self.on_cpu(cpu);
        let sp: u32 = v1;
        let status: u16 = if write {
            0x0400 | (transfer_size(size) << 5) | fc
        } else {
            0x0500 | (transfer_size(size) << 5) | fc
        };
        let writeback: u16 = if write {
            0x0080 | (transfer_size(size) << 5) | fc
        } else {
            0
        };
        let m = m.frame_write_32(sp.wrapping_add(0x1C), m.cpu.fault.wdata);
        let m = m.frame_write_32(sp.wrapping_add(0x18), address);
        let m = m.frame_write_32(sp.wrapping_add(0x14), address);
        let m = m.frame_write_16(sp.wrapping_add(0x0E), writeback);
        let m = m.frame_write_16(sp.wrapping_add(0x0C), status);
        let m = m.frame_write_32(sp.wrapping_add(0x08), address);
        let m = m.fault_frame_head(sp, sr, 0x7000, vector);
        m
    }

    /// The eight-word frame of the 68060.
    #[verifier::opaque]
    pub open spec fn fault_frame_68060(self, address: u32, status: u32, sr: u16, vector: u32) -> Machine {
        let (cpu, v1) = self.cpu.spec_reserve_frame(16);
        let m = self.on_cpu(cpu);
        let sp: u32 = v1;
        let m = m.frame_write_32(sp.wrapping_add(0x0C), status);
        let m = m.frame_write_32(sp.wrapping_add(0x08), address);
        let m = m.fault_frame_head(sp, sr, 0x4000, vector);
        m
    }

    /// Stack the fault frame of the model and continue at the handler.
    #[verifier::opaque]
    pub open spec fn fault_entry(self, vector: u32, address: u32, write: bool, instruction: bool, size: u32, cause: Option<MmuFaultCause>) -> (Machine, i32) {
        let fc: u16 = self.cpu.function_code(instruction);
        let direction: u16 = if write {
            0
        } else {
            0x10
        };
        let space: u16 = if instruction {
            0
        } else {
            0x08
        };
        let (cpu, v1) = self.cpu.spec_begin_exception();
        let m = self.on_cpu(cpu);
        let sr: u16 = v1;
        let m = match m.cpu.model.cpu_type {
            CpuType::M68000 | CpuType::Invalid => {
                let m = m.fault_frame_68000(address, direction | space | fc, sr);
                m
            },
            CpuType::M68010 | CpuType::SCC68070 => {
                let m = m.fault_frame_68010(address, direction | space | fc, sr, vector);
                m
            },
            CpuType::M68EC020 | CpuType::M68020 | CpuType::M68EC030 | CpuType::M68030 => {
                let m = m.fault_frame_68030(address, write, instruction, size, fc, sr, vector);
                m
            },
            CpuType::M68EC040 | CpuType::M68LC040 | CpuType::M68040 => {
                let m = m.fault_frame_68040(address, write, size, fc, sr, vector);
                m
            },
            CpuType::M68060 => {
                let m = m.fault_frame_68060(address, m.cpu.fault_status_060(write, instruction, size, fc, cause), sr, vector);
                m
            },
        };
        let m = m.enter_vector(vector);
        (m, exception_cycles(vector))
    }

    /// Deliver an address error. While an exception is being taken it is a
    /// double fault.
    #[verifier::opaque]
    pub open spec fn exception_address_error(self, address: u32, write: bool, instruction: bool) -> (Machine, i32) {
        if self.cpu.run.exception_processing {
            let m = self.on_cpu(self.cpu.spec_double_fault());
            (m, 0)
        } else {
            let m = self.on_cpu(CpuCore { run: RunState { exception_processing: true, ..self.cpu.run }, ..self.cpu });
            let (m, cycles) = m.fault_entry(VECTOR_ADDRESS_ERROR, address, write, instruction, 2, None);
            let m = m.on_cpu(CpuCore { run: RunState { exception_processing: false, ..m.cpu.run }, ..m.cpu });
            (m, cycles)
        }
    }

    /// Deliver a bus error.
    #[verifier::opaque]
    pub open spec fn exception_bus_error(self, address: u32, write: bool, instruction: bool, size: u32, cause: Option<MmuFaultCause>) -> (Machine, i32) {
        self.fault_entry(VECTOR_BUS_ERROR, address, write, instruction, size, cause)
    }

    /// Trigger an address error and mark the current instruction as faulted,
    /// so that its further memory operations do nothing.
    #[verifier::opaque]
    pub open spec fn trigger_address_error(self, address: u32, write: bool, instruction: bool) -> Machine {
        if self.cpu.faulted() {
            self
        } else {
            let m = self.on_cpu(self.cpu.spec_roll_back());
            let m = m.exception_address_error(address, write, instruction).0;
            let m = m.on_cpu(m.cpu.spec_mark_faulted());
            m
        }
    }

    /// Trigger an address error before the current instruction has had any
    /// side effects.
    #[verifier::opaque]
    pub open spec fn trigger_address_error_no_rollback(self, address: u32, write: bool, instruction: bool) -> Machine {
        if self.cpu.faulted() {
            self
        } else {
            let m = self.exception_address_error(address, write, instruction).0;
            let m = m.on_cpu(CpuCore { run: RunState { run_mode: RUN_MODE_BERR_AERR_RESET, ..m.cpu.run }, ..m.cpu });
            m
        }
    }

    /// Deliver a bus error with the pending cause and mark the instruction as
    /// faulted. A fault while a fault is being delivered halts the processor.
    #[verifier::opaque]
    pub open spec fn deliver_bus_error(self, address: u32, write: bool, instruction: bool, size: u32) -> Machine {
        let m = self.on_cpu(CpuCore { run: RunState { exception_processing: true, ..self.cpu.run }, ..self.cpu });
        let cause: Option<MmuFaultCause> = m.cpu.fault.cause;
        let m = m.on_cpu(CpuCore { fault: FaultState { cause: None, ..m.cpu.fault }, ..m.cpu });
        let m = m.exception_bus_error(address, write, instruction, size, cause).0;
        let m = m.on_cpu(CpuCore { run: RunState { exception_processing: false, ..m.cpu.run }, ..m.cpu });
        let m = m.on_cpu(m.cpu.spec_mark_faulted());
        m
    }

    /// Trigger a bus error and mark the current instruction as faulted, so
    /// that its further memory operations do nothing.
    #[verifier::opaque]
    pub open spec fn trigger_bus_error(self, address: u32, write: bool, instruction: bool, size: u32) -> Machine {
        if self.cpu.faulted() {
            self
        } else {
            if self.cpu.run.exception_processing {
                let m = self.on_cpu(self.cpu.spec_double_fault());
                m
            } else {
                let m = self.on_cpu(self.cpu.spec_roll_back());
                let m = m.deliver_bus_error(address, write, instruction, size);
                m
            }
        }
    }

    /// Trigger a bus error before the current instruction has modified
    /// architectural state (opcode fetch and instruction-MMU walks).
    #[verifier::opaque]
    pub open spec fn trigger_bus_error_no_rollback(self, address: u32, write: bool, instruction: bool) -> Machine {
        if self.cpu.faulted() {
            self
        } else {
            if self.cpu.run.exception_processing {
                let m = self.on_cpu(self.cpu.spec_double_fault());
                m
            } else {
                let m = self.deliver_bus_error(address, write, instruction, 2);
                m
            }
        }
    }

    /// Deliver a failed translation of a data access. Protection faults of
    /// the integrated MMUs go through the bus-error vector, so that a return
    /// restarts the instruction. The function code that MOVES forced ends
    /// with the instruction.
    #[verifier::opaque]
    pub open spec fn handle_mmu_fault(self, fault: MmuFault, write: bool, instruction: bool, size: u32) -> Machine {
        let m = self.on_cpu(CpuCore { fault: FaultState { cause: Some(fault.cause), ..self.cpu.fault }, ..self.cpu });
        let m = match fault.kind {
            MmuFaultKind::BusError | MmuFaultKind::AccessLevelViolation => {
                let m = m.trigger_bus_error(fault.address, write, instruction, size);
                m
            },
            MmuFaultKind::ConfigurationError => {
                let m = m.take_exception(VECTOR_MMU_CONFIGURATION).0;
                let m = m.on_cpu(m.cpu.spec_mark_faulted());
                m
            },
            MmuFaultKind::IllegalOperation => {
                let m = m.take_exception(VECTOR_MMU_ILLEGAL).0;
                let m = m.on_cpu(m.cpu.spec_mark_faulted());
                m
            },
        };
        let m = m.on_cpu(CpuCore { fault: FaultState { fc_override: None, ..m.cpu.fault }, ..m.cpu });
        m
    }

    /// Deliver a failed translation of an instruction fetch.
    #[verifier::opaque]
    pub open spec fn handle_mmu_fetch_fault(self, fault: MmuFault) -> Machine {
        match fault.kind {
            MmuFaultKind::BusError => {
                let m = self.trigger_bus_error_no_rollback(fault.address, false, true);
                m
            },
            MmuFaultKind::ConfigurationError => {
                let m = self.take_exception(VECTOR_MMU_CONFIGURATION).0;
                let m = m.on_cpu(CpuCore { run: RunState { run_mode: RUN_MODE_BERR_AERR_RESET, ..m.cpu.run }, ..m.cpu });
                m
            },
            MmuFaultKind::IllegalOperation => {
                let m = self.take_exception(VECTOR_MMU_ILLEGAL).0;
                let m = m.on_cpu(CpuCore { run: RunState { run_mode: RUN_MODE_BERR_AERR_RESET, ..m.cpu.run }, ..m.cpu });
                m
            },
            MmuFaultKind::AccessLevelViolation => {
                let m = self.take_exception(VECTOR_MMU_ACCESS_LEVEL).0;
                let m = m.on_cpu(CpuCore { run: RunState { run_mode: RUN_MODE_BERR_AERR_RESET, ..m.cpu.run }, ..m.cpu });
                m
            },
        }
    }

    /// Deliver the fault of a data access.
    #[verifier::opaque]
    pub open spec fn deliver(self, fault: Fault) -> Machine {
        match fault {
            Fault::Address { address, write } => {
                let m = self.trigger_address_error(address, write, false);
                m
            },
            Fault::Bus { address, write, size } => {
                let m = self.trigger_bus_error(address, write, false, size);
                m
            },
            Fault::Mmu { fault: f, write, size } => {
                let m = self.handle_mmu_fault(f, write, false, size);
                m
            },
        }
    }

    /// Privilege violation.
    #[verifier::opaque]
    pub open spec fn exception_privilege(self) -> (Machine, i32) {
        self.take_exception(VECTOR_PRIVILEGE)
    }

    /// Line-A emulator trap.
    #[verifier::opaque]
    pub open spec fn exception_1010(self) -> (Machine, i32) {
        self.take_exception(VECTOR_LINE_1010)
    }

    /// Line-F emulator trap.
    #[verifier::opaque]
    pub open spec fn exception_1111(self) -> (Machine, i32) {
        self.take_exception(VECTOR_LINE_1111)
    }

    /// Trace.
    #[verifier::opaque]
    pub open spec fn exception_trace(self) -> (Machine, i32) {
        self.take_exception(VECTOR_TRACE)
    }

    /// A surfaced line-A trap that nobody handled.
    #[verifier::opaque]
    pub open spec fn take_aline_exception(self) -> (Machine, i32) {
        self.exception_1010()
    }

    /// A surfaced line-F trap that nobody handled.
    #[verifier::opaque]
    pub open spec fn take_fline_exception(self) -> (Machine, i32) {
        self.exception_1111()
    }

    /// A surfaced TRAP that nobody handled.
    #[verifier::opaque]
    pub open spec fn take_trap_exception(self, trap_num: u8) -> (Machine, i32) {
        self.take_exception(VECTOR_TRAP_BASE.wrapping_add((trap_num & 0x0F) as u32))
    }

    /// A surfaced breakpoint that nobody handled.
    #[verifier::opaque]
    pub open spec fn take_bkpt_exception(self) -> (Machine, i32) {
        self.take_exception(VECTOR_ILLEGAL)
    }

    /// A surfaced illegal instruction that nobody handled.
    #[verifier::opaque]
    pub open spec fn take_illegal_exception(self) -> (Machine, i32) {
        self.take_exception(VECTOR_ILLEGAL)
    }

    /// TRAPV, CHK, TRAPcc and division by zero.
    #[verifier::opaque]
    pub open spec fn take_group2_exception(self, vector: u32) -> (Machine, i32) {
        self.take_exception(vector)
    }
}

impl CpuCore {
    /// A fault while a fault is being delivered: the processor halts.
    #[verifier::opaque]
    pub open spec fn spec_double_fault(self) -> CpuCore {
        let c = CpuCore { run: RunState { stopped: 1, ..self.run }, ..self };
        let c = CpuCore { run: RunState { run_mode: RUN_MODE_BERR_AERR_RESET, ..c.run }, ..c };
        c
    }

    /// A fault while a fault is being delivered: the processor halts.
    pub fn double_fault(&mut self)
        ensures
            *final(self) == old(self).spec_double_fault(),
    {
        proof {
            reveal(CpuCore::spec_double_fault);
        }
        self.run.stopped = 1;
        self.run.run_mode = RUN_MODE_BERR_AERR_RESET;
    }

    /// Word write of exception entry.
    pub fn frame_write_16<B: AddressBus>(&mut self, bus: &mut B, addr: u32, value: u16)
        ensures
            Machine::of(*final(self), *final(bus)) == Machine::of(*old(self), *old(bus)).frame_write_16(addr, value),
    {
        proof {
            reveal(Machine::frame_write_16);
        }
        let fault: Option<Fault> = self.access_write_16(bus, addr, value);
        if fault.is_some() {
            self.double_fault();
        }
    }

    /// Long write of exception entry.
    pub fn frame_write_32<B: AddressBus>(&mut self, bus: &mut B, addr: u32, value: u32)
        ensures
            Machine::of(*final(self), *final(bus)) == Machine::of(*old(self), *old(bus)).frame_write_32(addr, value),
    {
        proof {
            reveal(Machine::frame_write_32);
        }
        let fault: Option<Fault> = self.access_write_32(bus, addr, value);
        if fault.is_some() {
            self.double_fault();
        }
    }

    /// Long read of exception entry.
    pub fn frame_read_32<B: AddressBus>(&mut self, bus: &mut B, addr: u32) -> (r: u32)
        ensures
            (Machine::of(*final(self), *final(bus)), r) == Machine::of(*old(self), *old(bus)).frame_read_32(addr),
    {
        proof {
            reveal(Machine::frame_read_32);
        }
        let read: Access = self.access_read_32(bus, addr);
        if read.fault.is_some() {
            self.double_fault();
        }
        read.value
    }

    /// Prefetch read of exception entry.
    pub fn frame_prefetch<B: AddressBus>(&mut self, bus: &mut B, addr: u32) -> (r: Option<u16>)
        ensures
            (Machine::of(*final(self), *final(bus)), r) == Machine::of(*old(self), *old(bus)).frame_prefetch(addr),
    {
        proof {
            reveal(Machine::frame_prefetch);
        }
        self.flush_sync(bus);
        let at: u32 = self.address(addr);
        match bus.try_read_word(at) {
            Ok(w) => Some(w),
            Err(_f) => {
                self.double_fault();
                None
            },
        }
    }

    /// What every vectored entry does before the vector is read: open
    /// pipeline state, a held interrupt sample and loop mode end here.
    pub fn begin_vector<B: AddressBus>(&mut self, bus: &mut B, vector: u32)
        ensures
            Machine::of(*final(self), *final(bus)) == Machine::of(*old(self), *old(bus)).begin_vector(vector),
    {
        proof {
            reveal(Machine::begin_vector);
        }
        self.clear_execution_pipeline_state();
        bus.ipl_release_sample();
        self.looping.active = false;
        self.fault.last_vector = Some(vector);
        self.fault.instruction_vector = Some(vector);
    }

    /// Refill the queue from the handler, with two internal clocks between
    /// the two reads.
    pub fn frame_refill<B: AddressBus>(&mut self, bus: &mut B)
        ensures
            Machine::of(*final(self), *final(bus)) == Machine::of(*old(self), *old(bus)).frame_refill(),
    {
        proof {
            reveal(Machine::frame_refill);
        }
        if !self.prefetch_enabled() {
            return;
        }
        self.queue.prefetch_count = 0;
        if self.pc & 1 != 0 {
            return;
        }
        match self.frame_prefetch(bus, self.pc) {
            Some(w) => {
                self.queue.prefetch_queue[0] = w;
                self.queue.prefetch_count = 1;
            },
            None => {
                return;
            },
        }
        self.internal_cycles(2);
        if self.faulted() {
            return;
        }
        match self.frame_prefetch(bus, self.pc.wrapping_add(2)) {
            Some(w) => {
                self.queue.prefetch_queue[1] = w;
                self.queue.prefetch_count = 2;
            },
            None => {},
        }
    }

    /// Continue at the handler of a vector, at the end of exception entry.
    pub fn enter_vector<B: AddressBus>(&mut self, bus: &mut B, vector: u32)
        ensures
            Machine::of(*final(self), *final(bus)) == Machine::of(*old(self), *old(bus)).enter_vector(vector),
    {
        proof {
            reveal(Machine::enter_vector);
        }
        self.begin_vector(bus, vector);
        let target: u32 = self.frame_read_32(bus, (vector << 2).wrapping_add(self.control.vbr));
        self.pc = target;
        self.frame_refill(bus);
    }

    /// Enter supervisor mode with tracing off; gives the status register as
    /// it was.
    #[verifier::opaque]
    pub open spec fn spec_begin_exception(self) -> (CpuCore, u16) {
        let sr: u16 = self.get_sr();
        let c = CpuCore { sys: SystemFlags { t1_flag: 0, ..self.sys }, ..self };
        let c = CpuCore { sys: SystemFlags { t0_flag: 0, ..c.sys }, ..c };
        let c = c.spec_set_s_flag(SFLAG_SET);
        (c, sr)
    }

    /// Enter supervisor mode with tracing off; gives the status register as
    /// it was.
    pub fn begin_exception(&mut self) -> (r: u16)
        ensures
            (*final(self), r) == old(self).spec_begin_exception(),
    {
        proof {
            reveal(CpuCore::spec_begin_exception);
        }
        let sr: u16 = self.get_sr();
        self.sys.t1_flag = 0;
        self.sys.t0_flag = 0;
        self.set_s_flag(SFLAG_SET);
        sr
    }

    /// Move the stack pointer down and give its new value.
    #[verifier::opaque]
    pub open spec fn spec_reserve_frame(self, bytes: u32) -> (CpuCore, u32) {
        let sp: u32 = self.dar[15].wrapping_sub(bytes);
        let c = CpuCore { dar: vstd::array::spec_array_update(self.dar, (15) as int, sp), ..self };
        (c, sp)
    }

    /// Move the stack pointer down and give its new value.
    pub fn reserve_frame(&mut self, bytes: u32) -> (r: u32)
        ensures
            (*final(self), r) == old(self).spec_reserve_frame(bytes),
    {
        proof {
            reveal(CpuCore::spec_reserve_frame);
        }
        let sp: u32 = self.dar[15].wrapping_sub(bytes);
        self.dar[15] = sp;
        sp
    }

    /// Stack SR, PC and format word; the 68000 has no format word. The short
    /// frames go out in the order PC low, SR, PC high.
    pub fn stack_frame<B: AddressBus>(&mut self, bus: &mut B, sr: u16, pc: u32, vector: u32)
        ensures
            Machine::of(*final(self), *final(bus)) == Machine::of(*old(self), *old(bus)).stack_frame(sr, pc, vector),
    {
        proof {
            reveal(Machine::stack_frame);
        }
        if self.model.cpu_type == CpuType::M68000 {
            self.internal_cycles(4);
            let sp: u32 = self.reserve_frame(6);
            self.frame_write_16(bus, sp.wrapping_add(4), pc as u16);
            self.frame_write_16(bus, sp, sr);
            self.frame_write_16(bus, sp.wrapping_add(2), (pc >> 16) as u16);
        } else if has_long_frame(vector) && !self.model.is_pre_68020 {
            let sp: u32 = self.reserve_frame(12);
            self.frame_write_32(bus, sp.wrapping_add(8), self.ppc);
            self.frame_write_16(bus, sp.wrapping_add(6), 0x2000 | ((vector << 2) as u16 & 0x0FFF));
            self.frame_write_32(bus, sp.wrapping_add(2), pc);
            self.frame_write_16(bus, sp, sr);
        } else {
            self.internal_cycles(4);
            let sp: u32 = self.reserve_frame(8);
            self.frame_write_16(bus, sp.wrapping_add(4), pc as u16);
            self.frame_write_16(bus, sp, sr);
            self.frame_write_16(bus, sp.wrapping_add(2), (pc >> 16) as u16);
            self.frame_write_16(bus, sp.wrapping_add(6), (vector << 2) as u16 & 0x0FFF);
        }
    }

    /// Take an exception: stack a frame and continue at the handler. A second
    /// exception while one is being taken halts the processor. Gives the
    /// clocks taken.
    pub fn take_exception<B: AddressBus>(&mut self, bus: &mut B, vector: u32) -> (r: i32)
        ensures
            (Machine::of(*final(self), *final(bus)), r) == Machine::of(*old(self), *old(bus)).take_exception(vector),
    {
        proof {
            reveal(Machine::take_exception);
        }
        if self.run.exception_processing {
            self.double_fault();
            return 0;
        }
        self.run.exception_processing = true;
        let sr: u16 = self.begin_exception();
        let pc: u32 = if stacks_own_address(vector) {
            self.ppc
        } else {
            self.pc
        };
        self.stack_frame(bus, sr, pc, vector);
        self.enter_vector(bus, vector);
        self.run.exception_processing = false;
        exception_cycles(vector)
    }

    /// Function code of an access in the state before exception entry.
    pub open spec fn spec_function_code(&self, instruction: bool) -> u16 {
        match self.fault.fc_override {
            Some(fc) => fc as u16,
            None => {
                if self.is_supervisor() {
                    if instruction {
                        6
                    } else {
                        5
                    }
                } else if instruction {
                    2
                } else {
                    1
                }
            },
        }
    }

    /// Function code of an access in the state before exception entry.
    #[verifier::when_used_as_spec(spec_function_code)]
    pub fn function_code(&self, instruction: bool) -> (r: u16)
        ensures
            r == self.spec_function_code(instruction),
    {
        match self.fault.fc_override {
            Some(fc) => fc as u16,
            None => {
                if self.is_supervisor() {
                    if instruction {
                        6
                    } else {
                        5
                    }
                } else if instruction {
                    2
                } else {
                    1
                }
            },
        }
    }

    /// The seven-word frame of the 68000: status, access address, opcode, SR
    /// and PC.
    pub fn fault_frame_68000<B: AddressBus>(&mut self, bus: &mut B, address: u32, status: u16, sr: u16)
        ensures
            Machine::of(*final(self), *final(bus)) == Machine::of(*old(self), *old(bus)).fault_frame_68000(address, status, sr),
    {
        proof {
            reveal(Machine::fault_frame_68000);
        }
        let pc: u32 = self.pc;
        let sp: u32 = self.reserve_frame(14);
        self.frame_write_16(bus, sp.wrapping_add(12), pc as u16);
        self.frame_write_16(bus, sp.wrapping_add(8), sr);
        self.frame_write_16(bus, sp.wrapping_add(10), (pc >> 16) as u16);
        self.frame_write_16(bus, sp.wrapping_add(6), self.ir as u16);
        self.frame_write_16(bus, sp.wrapping_add(4), address as u16);
        self.frame_write_16(bus, sp, status);
        self.frame_write_16(bus, sp.wrapping_add(2), (address >> 16) as u16);
    }

    /// The first four words of a fault frame of the 68010 and later. The PC
    /// stacked is that of the faulted instruction, which a return restarts.
    pub fn fault_frame_head<B: AddressBus>(&mut self, bus: &mut B, sp: u32, sr: u16, format: u16, vector: u32)
        ensures
            Machine::of(*final(self), *final(bus)) == Machine::of(*old(self), *old(bus)).fault_frame_head(sp, sr, format, vector),
    {
        proof {
            reveal(Machine::fault_frame_head);
        }
        self.frame_write_16(bus, sp.wrapping_add(6), format | ((vector << 2) as u16 & 0x0FFF));
        self.frame_write_32(bus, sp.wrapping_add(2), self.ppc);
        self.frame_write_16(bus, sp, sr);
    }

    /// The 29-word frame of the 68010. Words that no handler may rely on are
    /// left unwritten, here and in the longer frames below.
    pub fn fault_frame_68010<B: AddressBus>(&mut self, bus: &mut B, address: u32, status: u16, sr: u16, vector: u32)
        ensures
            Machine::of(*final(self), *final(bus)) == Machine::of(*old(self), *old(bus)).fault_frame_68010(address, status, sr, vector),
    {
        proof {
            reveal(Machine::fault_frame_68010);
        }
        let sp: u32 = self.reserve_frame(58);
        self.frame_write_16(bus, sp.wrapping_add(16), self.fault.wdata as u16);
        self.frame_write_32(bus, sp.wrapping_add(10), address);
        self.frame_write_16(bus, sp.wrapping_add(8), status);
        self.fault_frame_head(bus, sp, sr, 0x8000, vector);
    }

    /// The 46-word frame of the 68020 and 68030.
    pub fn fault_frame_68030<B: AddressBus>(&mut self, bus: &mut B, address: u32, write: bool, instruction: bool, size: u32, fc: u16, sr: u16, vector: u32)
        ensures
            Machine::of(*final(self), *final(bus)) == Machine::of(*old(self), *old(bus)).fault_frame_68030(address, write, instruction, size, fc, sr, vector),
    {
        proof {
            reveal(Machine::fault_frame_68030);
        }
        let sp: u32 = self.reserve_frame(92);
        let direction: u16 = if write {
            0
        } else {
            0x0040
        };
        let status: u16 = if instruction {
            0x5000 | direction | (transfer_size(size) << 4) | fc
        } else {
            0x0100 | direction | (transfer_size(size) << 4) | fc
        };
        self.frame_write_32(bus, sp.wrapping_add(0x2C), 0);
        self.frame_write_32(bus, sp.wrapping_add(0x18), self.fault.wdata);
        self.frame_write_32(bus, sp.wrapping_add(0x10), address);
        self.frame_write_16(bus, sp.wrapping_add(0x0A), status);
        self.fault_frame_head(bus, sp, sr, 0xB000, vector);
    }

    /// The 30-word frame of the 68040. A faulted write is described in the
    /// third write-back slot.
    pub fn fault_frame_68040<B: AddressBus>(&mut self, bus: &mut B, address: u32, write: bool, size: u32, fc: u16, sr: u16, vector: u32)
        ensures
            Machine::of(*final(self), *final(bus)) == Machine::of(*old(self), *old(bus)).fault_frame_68040(address, write, size, fc, sr, vector),
    {
        proof {
            reveal(Machine::fault_frame_68040);
        }
        let sp: u32 = self.reserve_frame(60);
        let status: u16 = if write {
            0x0400 | (transfer_size(size) << 5) | fc
        } else {
            0x0500 | (transfer_size(size) << 5) | fc
        };
        let writeback: u16 = if write {
            0x0080 | (transfer_size(size) << 5) | fc
        } else {
            0
        };
        self.frame_write_32(bus, sp.wrapping_add(0x1C), self.fault.wdata);
        self.frame_write_32(bus, sp.wrapping_add(0x18), address);
        self.frame_write_32(bus, sp.wrapping_add(0x14), address);
        self.frame_write_16(bus, sp.wrapping_add(0x0E), writeback);
        self.frame_write_16(bus, sp.wrapping_add(0x0C), status);
        self.frame_write_32(bus, sp.wrapping_add(0x08), address);
        self.fault_frame_head(bus, sp, sr, 0x7000, vector);
    }

    /// The fault status long word of the 68060.
    pub open spec fn spec_fault_status_060(&self, write: bool, instruction: bool, size: u32, fc: u16, cause: Option<MmuFaultCause>) -> u32 {
        let direction: u32 = if write {
            0x0080_0000
        } else {
            0x0100_0000
        };
        let space: u32 = if instruction {
            0x0000_8000
        } else {
            0
        };
        let reason: u32 = match cause {
            Some(MmuFaultCause::PointerTableInvalid) => 0x0000_1000,
            Some(MmuFaultCause::PageInvalid) => 0x0000_0800,
            Some(MmuFaultCause::SupervisorProtect) => 0x0000_0400,
            Some(MmuFaultCause::WriteProtect) => 0x0000_0200,
            Some(MmuFaultCause::WalkBusError) => 0x0000_0100,
            None => 0x0000_0020,
        };
        direction | space | reason | ((transfer_size(size) as u32) << 21) | ((fc as u32) << 16)
    }

    /// The fault status long word of the 68060.
    #[verifier::when_used_as_spec(spec_fault_status_060)]
    pub fn fault_status_060(&self, write: bool, instruction: bool, size: u32, fc: u16, cause: Option<MmuFaultCause>) -> (r: u32)
        ensures
            r == self.spec_fault_status_060(write, instruction, size, fc, cause),
    {
        let direction: u32 = if write {
            0x0080_0000
        } else {
            0x0100_0000
        };
        let space: u32 = if instruction {
            0x0000_8000
        } else {
            0
        };
        let reason: u32 = match cause {
            Some(MmuFaultCause::PointerTableInvalid) => 0x0000_1000,
            Some(MmuFaultCause::PageInvalid) => 0x0000_0800,
            Some(MmuFaultCause::SupervisorProtect) => 0x0000_0400,
            Some(MmuFaultCause::WriteProtect) => 0x0000_0200,
            Some(MmuFaultCause::WalkBusError) => 0x0000_0100,
            None => 0x0000_0020,
        };
        direction | space | reason | ((transfer_size(size) as u32) << 21) | ((fc as u32) << 16)
    }

    /// The eight-word frame of the 68060.
    pub fn fault_frame_68060<B: AddressBus>(&mut self, bus: &mut B, address: u32, status: u32, sr: u16, vector: u32)
        ensures
            Machine::of(*final(self), *final(bus)) == Machine::of(*old(self), *old(bus)).fault_frame_68060(address, status, sr, vector),
    {
        proof {
            reveal(Machine::fault_frame_68060);
        }
        let sp: u32 = self.reserve_frame(16);
        self.frame_write_32(bus, sp.wrapping_add(0x0C), status);
        self.frame_write_32(bus, sp.wrapping_add(0x08), address);
        self.fault_frame_head(bus, sp, sr, 0x4000, vector);
    }

    /// Stack the fault frame of the model and continue at the handler.
    pub fn fault_entry<B: AddressBus>(&mut self, bus: &mut B, vector: u32, address: u32, write: bool, instruction: bool, size: u32, cause: Option<MmuFaultCause>) -> (r: i32)
        ensures
            (Machine::of(*final(self), *final(bus)), r) == Machine::of(*old(self), *old(bus)).fault_entry(vector, address, write, instruction, size, cause),
    {
        proof {
            reveal(Machine::fault_entry);
        }
        let fc: u16 = self.function_code(instruction);
        let direction: u16 = if write {
            0
        } else {
            0x10
        };
        let space: u16 = if instruction {
            0
        } else {
            0x08
        };
        let sr: u16 = self.begin_exception();
        match self.model.cpu_type {
            CpuType::M68000 | CpuType::Invalid => {
                self.fault_frame_68000(bus, address, direction | space | fc, sr);
            },
            CpuType::M68010 | CpuType::SCC68070 => {
                self.fault_frame_68010(bus, address, direction | space | fc, sr, vector);
            },
            CpuType::M68EC020 | CpuType::M68020 | CpuType::M68EC030 | CpuType::M68030 => {
                self.fault_frame_68030(bus, address, write, instruction, size, fc, sr, vector);
            },
            CpuType::M68EC040 | CpuType::M68LC040 | CpuType::M68040 => {
                self.fault_frame_68040(bus, address, write, size, fc, sr, vector);
            },
            CpuType::M68060 => {
                self.fault_frame_68060(bus, address, self.fault_status_060(write, instruction, size, fc, cause), sr, vector);
            },
        }
        self.enter_vector(bus, vector);
        exception_cycles(vector)
    }

    /// Deliver an address error. While an exception is being taken it is a
    /// double fault.
    pub fn exception_address_error<B: AddressBus>(&mut self, bus: &mut B, address: u32, write: bool, instruction: bool) -> (r: i32)
        ensures
            (Machine::of(*final(self), *final(bus)), r) == Machine::of(*old(self), *old(bus)).exception_address_error(address, write, instruction),
    {
        proof {
            reveal(Machine::exception_address_error);
        }
        if self.run.exception_processing {
            self.double_fault();
            return 0;
        }
        self.run.exception_processing = true;
        let cycles: i32 = self.fault_entry(bus, VECTOR_ADDRESS_ERROR, address, write, instruction, 2, None);
        self.run.exception_processing = false;
        cycles
    }

    /// Deliver a bus error.
    pub fn exception_bus_error<B: AddressBus>(&mut self, bus: &mut B, address: u32, write: bool, instruction: bool, size: u32, cause: Option<MmuFaultCause>) -> (r: i32)
        ensures
            (Machine::of(*final(self), *final(bus)), r) == Machine::of(*old(self), *old(bus)).exception_bus_error(address, write, instruction, size, cause),
    {
        proof {
            reveal(Machine::exception_bus_error);
        }
        self.fault_entry(bus, VECTOR_BUS_ERROR, address, write, instruction, size, cause)
    }

    /// Record the handler-entry state and mark the instruction as faulted.
    #[verifier::opaque]
    pub open spec fn spec_mark_faulted(self) -> CpuCore {
        let c = CpuCore { fault: FaultState { resume: Some(FaultResume { pc: self.pc, sr: self.get_sr(), dar: self.dar }), ..self.fault }, ..self };
        let c = CpuCore { run: RunState { run_mode: RUN_MODE_BERR_AERR_RESET, ..c.run }, ..c };
        c
    }

    /// Record the handler-entry state and mark the instruction as faulted.
    pub fn mark_faulted(&mut self)
        ensures
            *final(self) == old(self).spec_mark_faulted(),
    {
        proof {
            reveal(CpuCore::spec_mark_faulted);
        }
        self.fault.resume = Some(FaultResume { pc: self.pc, sr: self.get_sr(), dar: self.dar });
        self.run.run_mode = RUN_MODE_BERR_AERR_RESET;
    }

    /// Undo the register changes of the faulting instruction.
    #[verifier::opaque]
    pub open spec fn spec_roll_back(self) -> CpuCore {
        let c = self.spec_set_sr_noint_nosp(self.save.sr_save);
        let c = CpuCore { dar: c.save.dar_save, ..c };
        c
    }

    /// Undo the register changes of the faulting instruction.
    pub fn roll_back(&mut self)
        ensures
            *final(self) == old(self).spec_roll_back(),
    {
        proof {
            reveal(CpuCore::spec_roll_back);
        }
        self.set_sr_noint_nosp(self.save.sr_save);
        self.dar = self.save.dar_save;
    }

    /// Trigger an address error and mark the current instruction as faulted,
    /// so that its further memory operations do nothing.
    pub fn trigger_address_error<B: AddressBus>(&mut self, bus: &mut B, address: u32, write: bool, instruction: bool)
        ensures
            Machine::of(*final(self), *final(bus)) == Machine::of(*old(self), *old(bus)).trigger_address_error(address, write, instruction),
    {
        proof {
            reveal(Machine::trigger_address_error);
        }
        if self.faulted() {
            return;
        }
        self.roll_back();
        self.exception_address_error(bus, address, write, instruction);
        self.mark_faulted();
    }

    /// Trigger an address error before the current instruction has had any
    /// side effects.
    pub fn trigger_address_error_no_rollback<B: AddressBus>(&mut self, bus: &mut B, address: u32, write: bool, instruction: bool)
        ensures
            Machine::of(*final(self), *final(bus)) == Machine::of(*old(self), *old(bus)).trigger_address_error_no_rollback(address, write, instruction),
    {
        proof {
            reveal(Machine::trigger_address_error_no_rollback);
        }
        if self.faulted() {
            return;
        }
        self.exception_address_error(bus, address, write, instruction);
        self.run.run_mode = RUN_MODE_BERR_AERR_RESET;
    }

    /// Deliver a bus error with the pending cause and mark the instruction as
    /// faulted. A fault while a fault is being delivered halts the processor.
    pub fn deliver_bus_error<B: AddressBus>(&mut self, bus: &mut B, address: u32, write: bool, instruction: bool, size: u32)
        ensures
            Machine::of(*final(self), *final(bus)) == Machine::of(*old(self), *old(bus)).deliver_bus_error(address, write, instruction, size),
    {
        proof {
            reveal(Machine::deliver_bus_error);
        }
        self.run.exception_processing = true;
        let cause: Option<MmuFaultCause> = self.fault.cause;
        self.fault.cause = None;
        self.exception_bus_error(bus, address, write, instruction, size, cause);
        self.run.exception_processing = false;
        self.mark_faulted();
    }

    /// Trigger a bus error and mark the current instruction as faulted, so
    /// that its further memory operations do nothing.
    pub fn trigger_bus_error<B: AddressBus>(&mut self, bus: &mut B, address: u32, write: bool, instruction: bool, size: u32)
        ensures
            Machine::of(*final(self), *final(bus)) == Machine::of(*old(self), *old(bus)).trigger_bus_error(address, write, instruction, size),
    {
        proof {
            reveal(Machine::trigger_bus_error);
        }
        if self.faulted() {
            return;
        }
        if self.run.exception_processing {
            self.double_fault();
            return;
        }
        self.roll_back();
        self.deliver_bus_error(bus, address, write, instruction, size);
    }

    /// Trigger a bus error before the current instruction has modified
    /// architectural state (opcode fetch and instruction-MMU walks).
    pub fn trigger_bus_error_no_rollback<B: AddressBus>(&mut self, bus: &mut B, address: u32, write: bool, instruction: bool)
        ensures
            Machine::of(*final(self), *final(bus)) == Machine::of(*old(self), *old(bus)).trigger_bus_error_no_rollback(address, write, instruction),
    {
        proof {
            reveal(Machine::trigger_bus_error_no_rollback);
        }
        if self.faulted() {
            return;
        }
        if self.run.exception_processing {
            self.double_fault();
            return;
        }
        self.deliver_bus_error(bus, address, write, instruction, 2);
    }

    /// Deliver a failed translation of a data access. Protection faults of
    /// the integrated MMUs go through the bus-error vector, so that a return
    /// restarts the instruction. The function code that MOVES forced ends
    /// with the instruction.
    pub fn handle_mmu_fault<B: AddressBus>(&mut self, bus: &mut B, fault: MmuFault, write: bool, instruction: bool, size: u32)
        ensures
            Machine::of(*final(self), *final(bus)) == Machine::of(*old(self), *old(bus)).handle_mmu_fault(fault, write, instruction, size),
    {
        proof {
            reveal(Machine::handle_mmu_fault);
        }
        self.fault.cause = Some(fault.cause);
        match fault.kind {
            MmuFaultKind::BusError | MmuFaultKind::AccessLevelViolation => {
                self.trigger_bus_error(bus, fault.address, write, instruction, size);
            },
            MmuFaultKind::ConfigurationError => {
                self.take_exception(bus, VECTOR_MMU_CONFIGURATION);
                self.mark_faulted();
            },
            MmuFaultKind::IllegalOperation => {
                self.take_exception(bus, VECTOR_MMU_ILLEGAL);
                self.mark_faulted();
            },
        }
        self.fault.fc_override = None;
    }

    /// Deliver a failed translation of an instruction fetch.
    pub fn handle_mmu_fetch_fault<B: AddressBus>(&mut self, bus: &mut B, fault: MmuFault)
        ensures
            Machine::of(*final(self), *final(bus)) == Machine::of(*old(self), *old(bus)).handle_mmu_fetch_fault(fault),
    {
        proof {
            reveal(Machine::handle_mmu_fetch_fault);
        }
        match fault.kind {
            MmuFaultKind::BusError => {
                self.trigger_bus_error_no_rollback(bus, fault.address, false, true);
            },
            MmuFaultKind::ConfigurationError => {
                self.take_exception(bus, VECTOR_MMU_CONFIGURATION);
                self.run.run_mode = RUN_MODE_BERR_AERR_RESET;
            },
            MmuFaultKind::IllegalOperation => {
                self.take_exception(bus, VECTOR_MMU_ILLEGAL);
                self.run.run_mode = RUN_MODE_BERR_AERR_RESET;
            },
            MmuFaultKind::AccessLevelViolation => {
                self.take_exception(bus, VECTOR_MMU_ACCESS_LEVEL);
                self.run.run_mode = RUN_MODE_BERR_AERR_RESET;
            },
        }
    }

    /// Deliver the fault of a data access.
    pub fn deliver<B: AddressBus>(&mut self, bus: &mut B, fault: Fault)
        ensures
            Machine::of(*final(self), *final(bus)) == Machine::of(*old(self), *old(bus)).deliver(fault),
    {
        proof {
            reveal(Machine::deliver);
        }
        match fault {
            Fault::Address { address, write } => {
                self.trigger_address_error(bus, address, write, false);
            },
            Fault::Bus { address, write, size } => {
                self.trigger_bus_error(bus, address, write, false, size);
            },
            Fault::Mmu { fault: f, write, size } => {
                self.handle_mmu_fault(bus, f, write, false, size);
            },
        }
    }

    /// Privilege violation.
    pub fn exception_privilege<B: AddressBus>(&mut self, bus: &mut B) -> (r: i32)
        ensures
            (Machine::of(*final(self), *final(bus)), r) == Machine::of(*old(self), *old(bus)).exception_privilege(),
    {
        proof {
            reveal(Machine::exception_privilege);
        }
        self.take_exception(bus, VECTOR_PRIVILEGE)
    }

    /// Line-A emulator trap.
    pub fn exception_1010<B: AddressBus>(&mut self, bus: &mut B) -> (r: i32)
        ensures
            (Machine::of(*final(self), *final(bus)), r) == Machine::of(*old(self), *old(bus)).exception_1010(),
    {
        proof {
            reveal(Machine::exception_1010);
        }
        self.take_exception(bus, VECTOR_LINE_1010)
    }

    /// Line-F emulator trap.
    pub fn exception_1111<B: AddressBus>(&mut self, bus: &mut B) -> (r: i32)
        ensures
            (Machine::of(*final(self), *final(bus)), r) == Machine::of(*old(self), *old(bus)).exception_1111(),
    {
        proof {
            reveal(Machine::exception_1111);
        }
        self.take_exception(bus, VECTOR_LINE_1111)
    }

    /// Trace.
    pub fn exception_trace<B: AddressBus>(&mut self, bus: &mut B) -> (r: i32)
        ensures
            (Machine::of(*final(self), *final(bus)), r) == Machine::of(*old(self), *old(bus)).exception_trace(),
    {
        proof {
            reveal(Machine::exception_trace);
        }
        self.take_exception(bus, VECTOR_TRACE)
    }

    /// A surfaced line-A trap that nobody handled.
    pub fn take_aline_exception<B: AddressBus>(&mut self, bus: &mut B) -> (r: i32)
        ensures
            (Machine::of(*final(self), *final(bus)), r) == Machine::of(*old(self), *old(bus)).take_aline_exception(),
    {
        proof {
            reveal(Machine::take_aline_exception);
        }
        self.exception_1010(bus)
    }

    /// A surfaced line-F trap that nobody handled.
    pub fn take_fline_exception<B: AddressBus>(&mut self, bus: &mut B) -> (r: i32)
        ensures
            (Machine::of(*final(self), *final(bus)), r) == Machine::of(*old(self), *old(bus)).take_fline_exception(),
    {
        proof {
            reveal(Machine::take_fline_exception);
        }
        self.exception_1111(bus)
    }

    /// A surfaced TRAP that nobody handled.
    pub fn take_trap_exception<B: AddressBus>(&mut self, bus: &mut B, trap_num: u8) -> (r: i32)
        ensures
            (Machine::of(*final(self), *final(bus)), r) == Machine::of(*old(self), *old(bus)).take_trap_exception(trap_num),
    {
        proof {
            reveal(Machine::take_trap_exception);
        }
        self.take_exception(bus, VECTOR_TRAP_BASE.wrapping_add((trap_num & 0x0F) as u32))
    }

    /// A surfaced breakpoint that nobody handled.
    pub fn take_bkpt_exception<B: AddressBus>(&mut self, bus: &mut B) -> (r: i32)
        ensures
            (Machine::of(*final(self), *final(bus)), r) == Machine::of(*old(self), *old(bus)).take_bkpt_exception(),
    {
        proof {
            reveal(Machine::take_bkpt_exception);
        }
        self.take_exception(bus, VECTOR_ILLEGAL)
    }

    /// A surfaced illegal instruction that nobody handled.
    pub fn take_illegal_exception<B: AddressBus>(&mut self, bus: &mut B) -> (r: i32)
        ensures
            (Machine::of(*final(self), *final(bus)), r) == Machine::of(*old(self), *old(bus)).take_illegal_exception(),
    {
        proof {
            reveal(Machine::take_illegal_exception);
        }
        self.take_exception(bus, VECTOR_ILLEGAL)
    }

    /// TRAPV, CHK, TRAPcc and division by zero.
    pub fn take_group2_exception<B: AddressBus>(&mut self, bus: &mut B, vector: u32) -> (r: i32)
        ensures
            (Machine::of(*final(self), *final(bus)), r) == Machine::of(*old(self), *old(bus)).take_group2_exception(vector),
    {
        proof {
            reveal(Machine::take_group2_exception);
        }
        self.take_exception(bus, vector)
    }

    /// Whether the instruction just executed is to be followed by a trace
    /// exception: T1 was set when it started, or T0 was and the flow changed.
    #[verifier::opaque]
    pub open spec fn spec_check_trace(self) -> (CpuCore, bool) {
        let flow: bool = self.run.change_of_flow;
        let c = CpuCore { run: RunState { change_of_flow: false, ..self.run }, ..self };
        (c, c.save.sr_save & 0x8000 != 0 || (c.save.sr_save & 0x4000 != 0 && flow))
    }

    /// Whether the instruction just executed is to be followed by a trace
    /// exception: T1 was set when it started, or T0 was and the flow changed.
    pub fn check_trace(&mut self) -> (r: bool)
        ensures
            (*final(self), r) == old(self).spec_check_trace(),
    {
        proof {
            reveal(CpuCore::spec_check_trace);
        }
        let flow: bool = self.run.change_of_flow;
        self.run.change_of_flow = false;
        self.save.sr_save & 0x8000 != 0 || (self.save.sr_save & 0x4000 != 0 && flow)
    }

    /// The 68040 counts pipeline synchronization as a change of flow.
    #[verifier::opaque]
    pub open spec fn spec_trace_t0_68040_sync(self) -> CpuCore {
        if self.is_040() {
            let c = CpuCore { run: RunState { change_of_flow: true, ..self.run }, ..self };
            c
        } else {
            self
        }
    }

    /// The 68040 counts pipeline synchronization as a change of flow.
    pub fn trace_t0_68040_sync(&mut self)
        ensures
            *final(self) == old(self).spec_trace_t0_68040_sync(),
    {
        proof {
            reveal(CpuCore::spec_trace_t0_68040_sync);
        }
        if self.is_040() {
            self.run.change_of_flow = true;
        }
    }

    /// A write of the status register counts as a change of flow.
    #[verifier::opaque]
    pub open spec fn spec_trace_t0_sr_write(self) -> CpuCore {
        if !self.model.is_pre_68020 {
            let c = CpuCore { run: RunState { change_of_flow: true, ..self.run }, ..self };
            c
        } else {
            self
        }
    }

    /// A write of the status register counts as a change of flow.
    pub fn trace_t0_sr_write(&mut self)
        ensures
            *final(self) == old(self).spec_trace_t0_sr_write(),
    {
        proof {
            reveal(CpuCore::spec_trace_t0_sr_write);
        }
        if !self.model.is_pre_68020 {
            self.run.change_of_flow = true;
        }
    }
}

} // verus!
