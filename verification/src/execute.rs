//! Single instructions: fetch, dispatch, timing, trace and interrupts.

use vstd::prelude::*;
use crate::cpu::{
    CpuCore, FaultState, HostState, RunState, SaveState, SystemFlags, RUN_MODE_BERR_AERR_RESET,
    RUN_MODE_NORMAL, SFLAG_SET,
};
use crate::decode::needs_rollback_snapshot;
use crate::ea::AddressingMode;
use crate::machine::Machine;
use crate::memory::{AddressBus, Retirement};
use crate::op_cache::{decode_simple, DecodedSimpleOp, UnaryOp};
use crate::types::{is_020_to_040, CpuType, InternalStepResult, Size, StepResult};

verus! {

/// Stopped by the STOP instruction.
pub const STOP_LEVEL_STOP: u32 = 1;
/// Halted after a double bus/address fault; only reset can resume execution.
pub const STOP_LEVEL_HALT: u32 = 2;

/// Models on which the boundary-hook runner executes decoded operations.
pub open spec fn spec_has_boundary_decoder(cpu_type: CpuType) -> bool {
    match cpu_type {
        CpuType::M68000 | CpuType::M68010 | CpuType::M68020 | CpuType::M68030 | CpuType::M68040 => true,
        _ => false,
    }
}

/// Models on which the boundary-hook runner executes decoded operations.
#[verifier::when_used_as_spec(spec_has_boundary_decoder)]
pub fn has_boundary_decoder(cpu_type: CpuType) -> (r: bool)
    ensures
        r == spec_has_boundary_decoder(cpu_type),
{
    match cpu_type {
        CpuType::M68000 | CpuType::M68010 | CpuType::M68020 | CpuType::M68030 | CpuType::M68040 => true,
        _ => false,
    }
}

/// Decode the deliberately narrow register-only subset whose precise
/// instruction completion is preserved by the boundary-hook dispatcher: NOP
/// (not on the 68040, which synchronises its pipeline there), MOVEQ, and
/// CLR.W and CLR.L of a data register.
pub open spec fn spec_decode_boundary_hook_op(cpu_type: CpuType, opcode: u16) -> Option<DecodedSimpleOp> {
    if !has_boundary_decoder(cpu_type) {
        None
    } else {
        match decode_simple(cpu_type, opcode) {
            Some(DecodedSimpleOp::Nop) => {
                if cpu_type == CpuType::M68040 {
                    None
                } else {
                    Some(DecodedSimpleOp::Nop)
                }
            },
            Some(DecodedSimpleOp::Moveq { reg, data }) => Some(DecodedSimpleOp::Moveq { reg: reg, data: data }),
            Some(DecodedSimpleOp::UnaryDataReg { op, reg, size }) => {
                if op == UnaryOp::Clr && size != Size::Byte {
                    Some(DecodedSimpleOp::UnaryDataReg { op: op, reg: reg, size: size })
                } else {
                    None
                }
            },
            _ => None,
        }
    }
}

/// Decode the deliberately narrow register-only subset whose precise
/// instruction completion is preserved by the boundary-hook dispatcher: NOP
/// (not on the 68040, which synchronises its pipeline there), MOVEQ, and
/// CLR.W and CLR.L of a data register.
#[verifier::when_used_as_spec(spec_decode_boundary_hook_op)]
pub fn decode_boundary_hook_op(cpu_type: CpuType, opcode: u16) -> (r: Option<DecodedSimpleOp>)
    ensures
        r == spec_decode_boundary_hook_op(cpu_type, opcode),
{
    if !has_boundary_decoder(cpu_type) {
        return None;
    }
    match decode_simple(cpu_type, opcode) {
        Some(DecodedSimpleOp::Nop) => {
            if cpu_type == CpuType::M68040 {
                None
            } else {
                Some(DecodedSimpleOp::Nop)
            }
        },
        Some(DecodedSimpleOp::Moveq { reg, data }) => Some(DecodedSimpleOp::Moveq { reg: reg, data: data }),
        Some(DecodedSimpleOp::UnaryDataReg { op, reg, size }) => {
            if op == UnaryOp::Clr && size != Size::Byte {
                Some(DecodedSimpleOp::UnaryDataReg { op: op, reg: reg, size: size })
            } else {
                None
            }
        },
        _ => None,
    }
}

/// Map an interrupt-acknowledge response to a vector number: all ones asks
/// for the autovector of the level.
pub open spec fn spec_iack_vector(response: u32, level: u8) -> u32 {
    if response == 0xFFFF_FFFF {
        (level as u32).wrapping_add(24)
    } else {
        response & 0xFF
    }
}

/// Map an interrupt-acknowledge response to a vector number: all ones asks
/// for the autovector of the level.
#[verifier::when_used_as_spec(spec_iack_vector)]
pub fn iack_vector(response: u32, level: u8) -> (r: u32)
    ensures
        r == spec_iack_vector(response, level),
{
    if response == 0xFFFF_FFFF {
        (level as u32).wrapping_add(24)
    } else {
        response & 0xFF
    }
}

impl Machine {
    /// The frame of an interrupt on the 68000: 6 idle clocks, the low half of
    /// PC, the acknowledge cycle that latches the vector number, 4 clocks,
    /// then SR and the high half of PC.
    #[verifier::opaque]
    pub open spec fn interrupt_frame_68000(self, level: u8, sr: u16) -> (Machine, u32) {
        let pc: u32 = self.cpu.pc;
        let m = self.on_cpu(self.cpu.spec_internal_cycles(6));
        let sp: u32 = m.cpu.a(7).wrapping_sub(6);
        let m = m.on_cpu(m.cpu.spec_set_a(7, sp));
        let m = m.write_16(sp.wrapping_add(4), (pc & 0xFFFF) as u16);
        let m = m.on_cpu(m.cpu.spec_internal_cycles(4));
        let m = m.flush_sync();
        let (m, response) = m.bus_interrupt_acknowledge(level);
        let m = m.on_cpu(m.cpu.spec_internal_cycles(4));
        let m = m.write_16(sp, sr);
        let m = m.write_16(sp.wrapping_add(2), (pc >> 16) as u16);
        (m, iack_vector(response, level))
    }

    /// The frame of an interrupt on the 68010: 12 idle clocks with the
    /// acknowledge cycle at their end, then the low half of PC, SR, the high
    /// half of PC and the vector word.
    #[verifier::opaque]
    pub open spec fn interrupt_frame_68010(self, level: u8, sr: u16) -> (Machine, u32) {
        let pc: u32 = self.cpu.pc;
        let m = self.on_cpu(self.cpu.spec_internal_cycles(12));
        let m = m.flush_sync();
        let (m, response) = m.bus_interrupt_acknowledge(level);
        let vector: u32 = iack_vector(response, level);
        let sp: u32 = m.cpu.a(7).wrapping_sub(8);
        let m = m.on_cpu(m.cpu.spec_set_a(7, sp));
        let m = m.write_16(sp.wrapping_add(4), (pc & 0xFFFF) as u16);
        let m = m.write_16(sp, sr);
        let m = m.write_16(sp.wrapping_add(2), (pc >> 16) as u16);
        let m = m.write_16(sp.wrapping_add(6), (vector << 2) as u16);
        (m, vector)
    }

    /// The frame of an interrupt from the 68020 on: vector word, PC, SR.
    #[verifier::opaque]
    pub open spec fn interrupt_frame_68020(self, level: u8, sr: u16) -> (Machine, u32) {
        let pc: u32 = self.cpu.pc;
        let (m, response) = self.bus_interrupt_acknowledge(level);
        let vector: u32 = iack_vector(response, level);
        let m = m.push_16((vector << 2) as u16);
        let m = m.push_32(pc);
        let m = m.push_16(sr);
        (m, vector)
    }

    /// Leave the master state on interrupt entry. The 68020 to 68040 switch
    /// to the interrupt stack and put a throwaway frame there; the 68060 has
    /// a single supervisor stack and only clears M.
    #[verifier::opaque]
    pub open spec fn leave_master_state(self, sr: u16, pc: u32, vector: u32) -> Machine {
        if self.cpu.sys.m_flag == 0 {
            self
        } else if is_020_to_040(self.cpu.model.cpu_type) {
            let m = self.on_cpu(self.cpu.spec_set_sm_flag(SFLAG_SET));
            let m = m.push_16(0x1000 | ((vector << 2) & 0x0FFF) as u16);
            let m = m.push_32(pc);
            let m = m.push_16(sr | 0x2000);
            m
        } else if self.cpu.model.cpu_type == CpuType::M68060 {
            let m = self.on_cpu(CpuCore { sys: SystemFlags { m_flag: 0, ..self.cpu.sys }, ..self.cpu });
            m
        } else {
            self
        }
    }

    /// Service an interrupt: save SR, clear trace, enter the supervisor state
    /// with M unchanged, raise the mask, stack the frame of the model and
    /// jump to the handler.
    #[verifier::opaque]
    pub open spec fn service_interrupt(self, level: u8) -> Machine {
        let sr: u16 = self.cpu.get_sr();
        let m = self.on_cpu(CpuCore { sys: SystemFlags { t1_flag: 0, ..self.cpu.sys }, ..self.cpu });
        let m = m.on_cpu(CpuCore { sys: SystemFlags { t0_flag: 0, ..m.cpu.sys }, ..m.cpu });
        let m = m.on_cpu(m.cpu.spec_set_s_flag(SFLAG_SET));
        let m = m.on_cpu(CpuCore { sys: SystemFlags { int_mask: ((level as u32) & 7) << 8, ..m.cpu.sys }, ..m.cpu });
        let pc: u32 = m.cpu.pc;
        let (m, vector) = match m.cpu.model.cpu_type {
            CpuType::M68000 => m.interrupt_frame_68000(level, sr),
            CpuType::M68010 => m.interrupt_frame_68010(level, sr),
            _ => m.interrupt_frame_68020(level, sr),
        };
        let m = m.leave_master_state(sr, pc, vector);
        let m = m.jump_vector(vector);
        let m = m.on_cpu(CpuCore { run: RunState { stopped: 0, ..m.cpu.run }, ..m.cpu });
        if m.cpu.model.cpu_type == CpuType::M68010 {
            let m = m.on_cpu(m.cpu.spec_charge(46));
            m
        } else {
            let m = m.on_cpu(m.cpu.spec_charge(44));
            m
        }
    }

    /// Check and service pending interrupts, returning whether one was taken.
    /// Level 7 cannot be masked.
    #[verifier::opaque]
    pub open spec fn check_and_service_interrupts(self) -> (Machine, bool) {
        let mask_level: u32 = (self.cpu.sys.int_mask >> 8) & 7;
        let level: u32 = self.cpu.run.int_level & 7;
        if level == 7 || level > mask_level {
            let m = self.service_interrupt(level as u8);
            let m = m.on_cpu(CpuCore { run: RunState { int_level: 0, ..m.cpu.run }, ..m.cpu });
            (m, true)
        } else {
            (self, false)
        }
    }

    /// Stopped-state supervisor check, run at every instruction boundary
    /// while stopped: STOP loads its SR operand verbatim, and a loaded SR
    /// with S clear wakes the CPU here with a privilege violation that stacks
    /// the STOP instruction itself. `None` leaves the CPU stopped.
    #[verifier::opaque]
    pub open spec fn stopped_supervisor_check(self) -> (Machine, Option<i32>) {
        if self.cpu.run.stopped != STOP_LEVEL_STOP || self.cpu.sys.s_flag != 0 {
            (self, None)
        } else {
            let m = self.on_cpu(CpuCore { run: RunState { stopped: 0, ..self.cpu.run }, ..self.cpu });
            let m = m.on_cpu(m.cpu.spec_internal_cycles(4));
            let m = m.on_cpu(CpuCore { ppc: m.cpu.pc.wrapping_sub(4), ..m.cpu });
            let (m, cycles) = m.exception_privilege();
            (m, Some(cycles.wrapping_add(4)))
        }
    }

    /// Cycles of a completed instruction. The 68020 and the 68060 have timing
    /// engines of their own.
    #[verifier::opaque]
    pub open spec fn finalize_cycles(self, cycles: i32, fetch_cached: bool) -> (Machine, i32) {
        match self.cpu.model.cpu_type {
            CpuType::M68EC020 | CpuType::M68020 | CpuType::M68060 => {
                let record: Retirement = Retirement {
                    opcode: self.cpu.ir as u16,
                    base_cycles: cycles,
                    fetch_cached: fetch_cached,
                    exception_vector: self.cpu.fault.instruction_vector,
                    wide_span: self.cpu.fault.wide_span,
                };
                let m = self.on_cpu(CpuCore { fault: FaultState { wide_span: false, ..self.cpu.fault }, ..self.cpu });
                m.bus_retire_cycles(m.cpu.model.cpu_type, record)
            },
            _ => (self, self.cpu.scale_cycles_for_cpu_type(cycles)),
        }
    }

    /// Start an instruction: snapshot the state for fault recovery and fetch
    /// the opcode. `false` if the fetch faulted; its exception is then taken.
    #[verifier::opaque]
    pub open spec fn begin_instruction(self) -> (Machine, bool) {
        let m = self.on_cpu(CpuCore { fault: FaultState { instruction_vector: None, ..self.cpu.fault }, ..self.cpu });
        let m = m.bus_begin_instruction_fetches();
        let m = m.on_cpu(CpuCore { ppc: m.cpu.pc, ..m.cpu });
        let m = m.on_cpu(m.cpu.spec_prepare_rollback_snapshot_full());
        let (m, opcode) = m.fetch_opcode();
        let m = m.on_cpu(CpuCore { ir: opcode as u32, ..m.cpu });
        if m.cpu.run.run_mode == RUN_MODE_BERR_AERR_RESET {
            let m = m.on_cpu(m.cpu.spec_end_faulted_instruction());
            (m, false)
        } else {
            (m, true)
        }
    }

    /// Execute the narrow decoded subset allowed by the boundary-hook runner;
    /// everything else, and every traced instruction, goes to the normal
    /// dispatcher. CLR on the 68000 performs its final prefetch before the
    /// register changes, so it keeps the precise implementation.
    #[verifier::opaque]
    pub open spec fn dispatch_boundary_hook_decoded(self, opcode: u16) -> (Machine, InternalStepResult) {
        if self.cpu.run.run_mode != RUN_MODE_NORMAL || (self.cpu.sys.t1_flag | self.cpu.sys.t0_flag) != 0 {
            self.dispatch_instruction(opcode)
        } else {
            match decode_boundary_hook_op(self.cpu.model.cpu_type, opcode) {
                None => self.dispatch_instruction(opcode),
                Some(op) => {
                    if self.cpu.model.cpu_type == CpuType::M68000 {
                        match op {
                            DecodedSimpleOp::UnaryDataReg { op: _, reg, size } => {
                                let (m, precise) = self.exec_clr(size, AddressingMode::DataDirect(reg));
                                (m, InternalStepResult::Completed { cycles: precise })
                            },
                            _ => {
                                let (cpu, v1) = self.cpu.spec_exec_simple(op);
                                let m = self.on_cpu(cpu);
                                let cycles: i32 = v1;
                                (m, InternalStepResult::Completed { cycles: cycles })
                            },
                        }
                    } else {
                        let (cpu, v2) = self.cpu.spec_exec_simple(op);
                        let m = self.on_cpu(cpu);
                        let cycles: i32 = v2;
                        (m, InternalStepResult::Completed { cycles: cycles })
                    }
                },
            }
        }
    }

    /// Dispatch the fetched opcode; gives the outcome and whether the
    /// instruction words came out of a cache.
    #[verifier::opaque]
    pub open spec fn dispatch_fetched(self, boundary: bool) -> (Machine, (InternalStepResult, bool)) {
        let (m, opcode_cached) = self.bus_last_fetch_was_cached();
        let opcode: u16 = m.cpu.ir as u16;
        let (m, outcome) = if boundary {
            m.dispatch_boundary_hook_decoded(opcode)
        } else {
            m.dispatch_instruction(opcode)
        };
        let (m, cached) = match m.cpu.model.cpu_type {
            CpuType::M68EC020 | CpuType::M68020 => m.bus_instruction_fetches_were_cached(),
            _ => (m, opcode_cached),
        };
        (m, (outcome, cached))
    }

    /// End the execution of an instruction: refill the prefetch queue. `false`
    /// if the instruction faulted; it has then entered its handler.
    #[verifier::opaque]
    pub open spec fn settle_step(self) -> (Machine, bool) {
        if self.cpu.run.run_mode == RUN_MODE_BERR_AERR_RESET {
            let m = self.on_cpu(self.cpu.spec_end_faulted_instruction());
            (m, false)
        } else {
            let m = self.top_up_prefetch();
            (m, true)
        }
    }

    /// What follows an instruction that took `cycles`: a trace exception, or
    /// else a pending interrupt.
    #[verifier::opaque]
    pub open spec fn close_step(self, cycles: i32) -> (Machine, StepResult) {
        if !self.cpu.host.sst_m68000_compat {
            let (cpu, v1) = self.cpu.spec_check_trace();
            let m = self.on_cpu(cpu);
            let traced: bool = v1;
            if traced {
                let (m, trace_cycles) = m.exception_trace();
                (m, StepResult::Completed { cycles: cycles.wrapping_add(trace_cycles) })
            } else {
                let m = if m.cpu.run.int_level > 0 {
                    let m = m.check_and_service_interrupts().0;
                    m
                } else {
                    m
                };
                (m, StepResult::Completed { cycles: cycles })
            }
        } else {
            let m = if self.cpu.run.int_level > 0 {
                let m = self.check_and_service_interrupts().0;
                m
            } else {
                self
            };
            (m, StepResult::Completed { cycles: cycles })
        }
    }

    /// Finish an instruction that took `cycles`: refill the prefetch queue,
    /// take a trace exception, or else a pending interrupt. A faulted
    /// instruction has already entered its handler.
    #[verifier::opaque]
    pub open spec fn finish_step(self, cycles: i32) -> (Machine, StepResult) {
        let (m, settled) = self.settle_step();
        if !settled {
            (m, StepResult::Completed { cycles: cycles })
        } else {
            m.close_step(cycles)
        }
    }

    /// Execute one precise instruction with one of the two post-fetch
    /// dispatchers.
    #[verifier::opaque]
    pub open spec fn step_with_dispatch(self, boundary: bool) -> (Machine, StepResult) {
        let m = self.on_cpu(self.cpu.spec_set_precise_bus(true));
        if m.cpu.run.stopped != 0 {
            let (m, woken) = m.stopped_supervisor_check();
            match woken {
                Some(cycles) => (m, StepResult::Completed { cycles: cycles }),
                None => (m, StepResult::Stopped),
            }
        } else {
            let (m, fetched) = m.begin_instruction();
            if !fetched {
                (m, StepResult::Completed { cycles: 0 })
            } else {
                let (m, done) = m.dispatch_fetched(boundary);
                match done.0 {
                    InternalStepResult::Completed { cycles } => {
                        let (m, total) = m.finalize_cycles(cycles, done.1);
                        m.finish_step(total)
                    },
                    InternalStepResult::AlineTrap { opcode } => {
                        let m = m.on_cpu(m.cpu.spec_clear_execution_pipeline_state());
                        (m, StepResult::AlineTrap { opcode: opcode })
                    },
                    InternalStepResult::FlineTrap { opcode } => {
                        let m = m.on_cpu(m.cpu.spec_clear_execution_pipeline_state());
                        (m, StepResult::FlineTrap { opcode: opcode })
                    },
                    InternalStepResult::TrapInstruction { trap_num } => {
                        let m = m.on_cpu(m.cpu.spec_clear_execution_pipeline_state());
                        (m, StepResult::TrapInstruction { trap_num: trap_num })
                    },
                    InternalStepResult::Breakpoint { bp_num } => {
                        let m = m.on_cpu(m.cpu.spec_clear_execution_pipeline_state());
                        (m, StepResult::Breakpoint { bp_num: bp_num })
                    },
                    InternalStepResult::IllegalInstruction { opcode } => {
                        let m = m.on_cpu(m.cpu.spec_clear_execution_pipeline_state());
                        (m, StepResult::IllegalInstruction { opcode: opcode })
                    },
                }
            }
        }
    }

    /// Execute a single instruction.
    ///
    /// Traps are surfaced as `StepResult` variants; exceptions are not taken
    /// automatically in this mode.
    #[verifier::opaque]
    pub open spec fn step(self) -> (Machine, StepResult) {
        self.step_with_dispatch(false)
    }

    /// Take the exception of a trap that was not intercepted; a completed
    /// instruction only gets its cycles finalized.
    #[verifier::opaque]
    pub open spec fn take_trap(self, outcome: InternalStepResult, fetch_cached: bool) -> (Machine, i32) {
        match outcome {
            InternalStepResult::Completed { cycles } => self.finalize_cycles(cycles, fetch_cached),
            InternalStepResult::AlineTrap { opcode: _ } => self.take_aline_exception(),
            InternalStepResult::FlineTrap { opcode: _ } => self.take_fline_exception(),
            InternalStepResult::TrapInstruction { trap_num } => self.take_trap_exception(trap_num),
            InternalStepResult::Breakpoint { bp_num: _ } => self.take_bkpt_exception(),
            InternalStepResult::IllegalInstruction { opcode: _ } => self.take_illegal_exception(),
        }
    }

    /// Start a cycle-budgeted run; `Some` if it ends at once.
    #[verifier::opaque]
    pub open spec fn begin_execute(self, num_cycles: i32) -> (Machine, Option<i32>) {
        let m = self.on_cpu(self.cpu.spec_set_precise_bus(true));
        if m.cpu.host.reset_cycles > 0 {
            let reset_cycles: i32 = m.cpu.host.reset_cycles as i32;
            let m = m.on_cpu(CpuCore { host: HostState { reset_cycles: 0, ..m.cpu.host }, ..m.cpu });
            let remaining: i32 = num_cycles.wrapping_sub(reset_cycles);
            if remaining <= 0 {
                (m, Some(reset_cycles))
            } else {
                let m = m.on_cpu(CpuCore { run: RunState { cycles_remaining: remaining, ..m.cpu.run }, ..m.cpu });
                let m = m.on_cpu(CpuCore { run: RunState { initial_cycles: num_cycles, ..m.cpu.run }, ..m.cpu });
                let m = m.check_and_service_interrupts().0;
                if m.cpu.run.stopped != 0 {
                    let (m, woken) = m.stopped_supervisor_check();
                    match woken {
                        Some(cycles) => {
                            let m = m.on_cpu(m.cpu.spec_charge(cycles));
                            (m, None)
                        },
                        None => {
                            let m = m.on_cpu(CpuCore { run: RunState { cycles_remaining: 0, ..m.cpu.run }, ..m.cpu });
                            (m, Some(m.cpu.run.initial_cycles))
                        },
                    }
                } else {
                    (m, None)
                }
            }
        } else {
            let m = m.on_cpu(CpuCore { run: RunState { cycles_remaining: num_cycles, ..m.cpu.run }, ..m.cpu });
            let m = m.on_cpu(CpuCore { run: RunState { initial_cycles: num_cycles, ..m.cpu.run }, ..m.cpu });
            let m = m.check_and_service_interrupts().0;
            if m.cpu.run.stopped != 0 {
                let (m, woken) = m.stopped_supervisor_check();
                match woken {
                    Some(cycles) => {
                        let m = m.on_cpu(m.cpu.spec_charge(cycles));
                        (m, None)
                    },
                    None => {
                        let m = m.on_cpu(CpuCore { run: RunState { cycles_remaining: 0, ..m.cpu.run }, ..m.cpu });
                        (m, Some(m.cpu.run.initial_cycles))
                    },
                }
            } else {
                (m, None)
            }
        }
    }

    /// One instruction of a cycle-budgeted run, with every trap taken;
    /// `false` if the processor has stopped.
    #[verifier::opaque]
    pub open spec fn execute_one(self) -> (Machine, bool) {
        let (m, fetched) = self.begin_instruction();
        if !fetched {
            (m, m.cpu.run.stopped == 0)
        } else {
            let (m, done) = m.dispatch_fetched(false);
            let (m, cycles) = m.take_trap(done.0, done.1);
            let m = m.on_cpu(m.cpu.spec_charge(cycles));
            if m.cpu.run.run_mode == RUN_MODE_BERR_AERR_RESET {
                let m = m.on_cpu(m.cpu.spec_end_faulted_instruction());
                (m, m.cpu.run.stopped == 0)
            } else {
                let m = m.top_up_prefetch();
                let (cpu, v1) = m.cpu.spec_check_trace();
                let m = m.on_cpu(cpu);
                let traced: bool = v1;
                let m = if traced {
                    let (m, trace_cycles) = m.exception_trace();
                    let m = m.on_cpu(m.cpu.spec_charge(trace_cycles));
                    m
                } else {
                    m
                };
                let m = if m.cpu.run.int_level > 0 {
                    let m = m.check_and_service_interrupts().0;
                    m
                } else {
                    m
                };
                (m, m.cpu.run.stopped == 0)
            }
        }
    }
}

impl CpuCore {
    /// Snapshot for an instruction that may be rolled back. An instruction
    /// that cannot fault needs only the SR, and that only while tracing.
    #[verifier::opaque]
    pub open spec fn spec_prepare_rollback_snapshot(self, opcode: u16) -> CpuCore {
        if needs_rollback_snapshot(opcode) {
            let c = CpuCore { save: SaveState { dar_save: self.dar, ..self.save }, ..self };
            let c = CpuCore { save: SaveState { sr_save: c.get_sr(), ..c.save }, ..c };
            c
        } else if (self.sys.t1_flag | self.sys.t0_flag) != 0 {
            let c = CpuCore { save: SaveState { sr_save: self.get_sr(), ..self.save }, ..self };
            c
        } else {
            let c = CpuCore { save: SaveState { sr_save: 0, ..self.save }, ..self };
            c
        }
    }

    /// Snapshot for an instruction that may be rolled back. An instruction
    /// that cannot fault needs only the SR, and that only while tracing.
    pub fn prepare_rollback_snapshot(&mut self, opcode: u16)
        ensures
            *final(self) == old(self).spec_prepare_rollback_snapshot(opcode),
    {
        proof {
            reveal(CpuCore::spec_prepare_rollback_snapshot);
        }
        if needs_rollback_snapshot(opcode) {
            self.save.dar_save = self.dar;
            self.save.sr_save = self.get_sr();
        } else if (self.sys.t1_flag | self.sys.t0_flag) != 0 {
            self.save.sr_save = self.get_sr();
        } else {
            self.save.sr_save = 0;
        }
    }

    /// Unconditional snapshot.
    #[verifier::opaque]
    pub open spec fn spec_prepare_rollback_snapshot_full(self) -> CpuCore {
        let c = CpuCore { save: SaveState { dar_save: self.dar, ..self.save }, ..self };
        let c = CpuCore { save: SaveState { sr_save: c.get_sr(), ..c.save }, ..c };
        c
    }

    /// Unconditional snapshot.
    pub fn prepare_rollback_snapshot_full(&mut self)
        ensures
            *final(self) == old(self).spec_prepare_rollback_snapshot_full(),
    {
        proof {
            reveal(CpuCore::spec_prepare_rollback_snapshot_full);
        }
        self.save.dar_save = self.dar;
        self.save.sr_save = self.get_sr();
    }

    /// Halt the CPU.
    #[verifier::opaque]
    pub open spec fn spec_halt(self) -> CpuCore {
        let c = self.spec_clear_execution_pipeline_state();
        let c = CpuCore { run: RunState { stopped: c.run.stopped | STOP_LEVEL_HALT, ..c.run }, ..c };
        c
    }

    /// Halt the CPU.
    pub fn halt(&mut self)
        ensures
            *final(self) == old(self).spec_halt(),
    {
        proof {
            reveal(CpuCore::spec_halt);
        }
        self.clear_execution_pipeline_state();
        self.run.stopped = self.run.stopped | STOP_LEVEL_HALT;
    }

    /// Stop the CPU (STOP instruction).
    #[verifier::opaque]
    pub open spec fn spec_stop(self, new_sr: u16) -> CpuCore {
        let c = self.spec_clear_execution_pipeline_state();
        let c = c.spec_set_sr(new_sr);
        let c = CpuCore { run: RunState { stopped: c.run.stopped | STOP_LEVEL_STOP, ..c.run }, ..c };
        c
    }

    /// Stop the CPU (STOP instruction).
    pub fn stop(&mut self, new_sr: u16)
        ensures
            *final(self) == old(self).spec_stop(new_sr),
    {
        proof {
            reveal(CpuCore::spec_stop);
        }
        self.clear_execution_pipeline_state();
        self.set_sr(new_sr);
        self.run.stopped = self.run.stopped | STOP_LEVEL_STOP;
    }

    /// Charge cycles to the running batch.
    pub open spec fn spec_charge(self, cycles: i32) -> CpuCore {
        let c = CpuCore { run: RunState { cycles_remaining: self.run.cycles_remaining.wrapping_sub(cycles), ..self.run }, ..self };
        c
    }

    /// Charge cycles to the running batch.
    pub fn charge(&mut self, cycles: i32)
        ensures
            *final(self) == old(self).spec_charge(cycles),
    {
        self.run.cycles_remaining = self.run.cycles_remaining.wrapping_sub(cycles);
    }

    /// Cycles that the running batch has consumed so far.
    pub open spec fn spec_cycles_consumed(&self) -> i32 {
        self.run.initial_cycles.wrapping_sub(self.run.cycles_remaining)
    }

    /// Cycles that the running batch has consumed so far.
    #[verifier::when_used_as_spec(spec_cycles_consumed)]
    pub fn cycles_consumed(&self) -> (r: i32)
        ensures
            r == self.spec_cycles_consumed(),
    {
        self.run.initial_cycles.wrapping_sub(self.run.cycles_remaining)
    }

    /// The frame of an interrupt on the 68000: 6 idle clocks, the low half of
    /// PC, the acknowledge cycle that latches the vector number, 4 clocks,
    /// then SR and the high half of PC.
    pub fn interrupt_frame_68000<B: AddressBus>(&mut self, bus: &mut B, level: u8, sr: u16) -> (r: u32)
        ensures
            (Machine::of(*final(self), *final(bus)), r) == Machine::of(*old(self), *old(bus)).interrupt_frame_68000(level, sr),
    {
        proof {
            reveal(Machine::interrupt_frame_68000);
        }
        let pc: u32 = self.pc;
        self.internal_cycles(6);
        let sp: u32 = self.a(7).wrapping_sub(6);
        self.set_a(7, sp);
        self.write_16(bus, sp.wrapping_add(4), (pc & 0xFFFF) as u16);
        self.internal_cycles(4);
        self.flush_sync(bus);
        let response: u32 = bus.interrupt_acknowledge(level);
        self.internal_cycles(4);
        self.write_16(bus, sp, sr);
        self.write_16(bus, sp.wrapping_add(2), (pc >> 16) as u16);
        iack_vector(response, level)
    }

    /// The frame of an interrupt on the 68010: 12 idle clocks with the
    /// acknowledge cycle at their end, then the low half of PC, SR, the high
    /// half of PC and the vector word.
    pub fn interrupt_frame_68010<B: AddressBus>(&mut self, bus: &mut B, level: u8, sr: u16) -> (r: u32)
        ensures
            (Machine::of(*final(self), *final(bus)), r) == Machine::of(*old(self), *old(bus)).interrupt_frame_68010(level, sr),
    {
        proof {
            reveal(Machine::interrupt_frame_68010);
        }
        let pc: u32 = self.pc;
        self.internal_cycles(12);
        self.flush_sync(bus);
        let response: u32 = bus.interrupt_acknowledge(level);
        let vector: u32 = iack_vector(response, level);
        let sp: u32 = self.a(7).wrapping_sub(8);
        self.set_a(7, sp);
        self.write_16(bus, sp.wrapping_add(4), (pc & 0xFFFF) as u16);
        self.write_16(bus, sp, sr);
        self.write_16(bus, sp.wrapping_add(2), (pc >> 16) as u16);
        self.write_16(bus, sp.wrapping_add(6), (vector << 2) as u16);
        vector
    }

    /// The frame of an interrupt from the 68020 on: vector word, PC, SR.
    pub fn interrupt_frame_68020<B: AddressBus>(&mut self, bus: &mut B, level: u8, sr: u16) -> (r: u32)
        ensures
            (Machine::of(*final(self), *final(bus)), r) == Machine::of(*old(self), *old(bus)).interrupt_frame_68020(level, sr),
    {
        proof {
            reveal(Machine::interrupt_frame_68020);
        }
        let pc: u32 = self.pc;
        let response: u32 = bus.interrupt_acknowledge(level);
        let vector: u32 = iack_vector(response, level);
        self.push_16(bus, (vector << 2) as u16);
        self.push_32(bus, pc);
        self.push_16(bus, sr);
        vector
    }

    /// Leave the master state on interrupt entry. The 68020 to 68040 switch
    /// to the interrupt stack and put a throwaway frame there; the 68060 has
    /// a single supervisor stack and only clears M.
    pub fn leave_master_state<B: AddressBus>(&mut self, bus: &mut B, sr: u16, pc: u32, vector: u32)
        ensures
            Machine::of(*final(self), *final(bus)) == Machine::of(*old(self), *old(bus)).leave_master_state(sr, pc, vector),
    {
        proof {
            reveal(Machine::leave_master_state);
        }
        if self.sys.m_flag == 0 {
            return;
        }
        if is_020_to_040(self.model.cpu_type) {
            self.set_sm_flag(SFLAG_SET);
            self.push_16(bus, 0x1000 | ((vector << 2) & 0x0FFF) as u16);
            self.push_32(bus, pc);
            self.push_16(bus, sr | 0x2000);
        } else if self.model.cpu_type == CpuType::M68060 {
            self.sys.m_flag = 0;
        }
    }

    /// Service an interrupt: save SR, clear trace, enter the supervisor state
    /// with M unchanged, raise the mask, stack the frame of the model and
    /// jump to the handler.
    pub fn service_interrupt<B: AddressBus>(&mut self, bus: &mut B, level: u8)
        ensures
            Machine::of(*final(self), *final(bus)) == Machine::of(*old(self), *old(bus)).service_interrupt(level),
    {
        proof {
            reveal(Machine::service_interrupt);
        }
        let sr: u16 = self.get_sr();
        self.sys.t1_flag = 0;
        self.sys.t0_flag = 0;
        self.set_s_flag(SFLAG_SET);
        self.sys.int_mask = ((level as u32) & 7) << 8;
        let pc: u32 = self.pc;
        let vector: u32 = match self.model.cpu_type {
            CpuType::M68000 => self.interrupt_frame_68000(bus, level, sr),
            CpuType::M68010 => self.interrupt_frame_68010(bus, level, sr),
            _ => self.interrupt_frame_68020(bus, level, sr),
        };
        self.leave_master_state(bus, sr, pc, vector);
        self.jump_vector(bus, vector);
        self.run.stopped = 0;
        if self.model.cpu_type == CpuType::M68010 {
            self.charge(46);
        } else {
            self.charge(44);
        }
    }

    /// Check and service pending interrupts, returning whether one was taken.
    /// Level 7 cannot be masked.
    pub fn check_and_service_interrupts<B: AddressBus>(&mut self, bus: &mut B) -> (r: bool)
        ensures
            (Machine::of(*final(self), *final(bus)), r) == Machine::of(*old(self), *old(bus)).check_and_service_interrupts(),
    {
        proof {
            reveal(Machine::check_and_service_interrupts);
        }
        let mask_level: u32 = (self.sys.int_mask >> 8) & 7;
        let level: u32 = self.run.int_level & 7;
        if level == 7 || level > mask_level {
            self.service_interrupt(bus, level as u8);
            self.run.int_level = 0;
            true
        } else {
            false
        }
    }

    /// Stopped-state supervisor check, run at every instruction boundary
    /// while stopped: STOP loads its SR operand verbatim, and a loaded SR
    /// with S clear wakes the CPU here with a privilege violation that stacks
    /// the STOP instruction itself. `None` leaves the CPU stopped.
    pub fn stopped_supervisor_check<B: AddressBus>(&mut self, bus: &mut B) -> (r: Option<i32>)
        ensures
            (Machine::of(*final(self), *final(bus)), r) == Machine::of(*old(self), *old(bus)).stopped_supervisor_check(),
    {
        proof {
            reveal(Machine::stopped_supervisor_check);
        }
        if self.run.stopped != STOP_LEVEL_STOP || self.sys.s_flag != 0 {
            return None;
        }
        self.run.stopped = 0;
        self.internal_cycles(4);
        self.ppc = self.pc.wrapping_sub(4);
        let cycles: i32 = self.exception_privilege(bus);
        Some(cycles.wrapping_add(4))
    }

    /// Cycles of a completed instruction. The 68020 and the 68060 have timing
    /// engines of their own.
    pub fn finalize_cycles<B: AddressBus>(&mut self, bus: &mut B, cycles: i32, fetch_cached: bool) -> (r: i32)
        ensures
            (Machine::of(*final(self), *final(bus)), r) == Machine::of(*old(self), *old(bus)).finalize_cycles(cycles, fetch_cached),
    {
        proof {
            reveal(Machine::finalize_cycles);
        }
        match self.model.cpu_type {
            CpuType::M68EC020 | CpuType::M68020 | CpuType::M68060 => {
                let record: Retirement = Retirement {
                    opcode: self.ir as u16,
                    base_cycles: cycles,
                    fetch_cached: fetch_cached,
                    exception_vector: self.fault.instruction_vector,
                    wide_span: self.fault.wide_span,
                };
                self.fault.wide_span = false;
                bus.retire_cycles(self.model.cpu_type, record)
            },
            _ => self.scale_cycles_for_cpu_type(cycles),
        }
    }

    /// Start an instruction: snapshot the state for fault recovery and fetch
    /// the opcode. `false` if the fetch faulted; its exception is then taken.
    pub fn begin_instruction<B: AddressBus>(&mut self, bus: &mut B) -> (r: bool)
        ensures
            (Machine::of(*final(self), *final(bus)), r) == Machine::of(*old(self), *old(bus)).begin_instruction(),
    {
        proof {
            reveal(Machine::begin_instruction);
        }
        self.fault.instruction_vector = None;
        bus.begin_instruction_fetches();
        self.ppc = self.pc;
        self.prepare_rollback_snapshot_full();
        let opcode: u16 = self.fetch_opcode(bus);
        self.ir = opcode as u32;
        if self.run.run_mode == RUN_MODE_BERR_AERR_RESET {
            self.end_faulted_instruction();
            return false;
        }
        true
    }

    /// Execute the narrow decoded subset allowed by the boundary-hook runner;
    /// everything else, and every traced instruction, goes to the normal
    /// dispatcher. CLR on the 68000 performs its final prefetch before the
    /// register changes, so it keeps the precise implementation.
    pub fn dispatch_boundary_hook_decoded<B: AddressBus>(&mut self, bus: &mut B, opcode: u16) -> (r: InternalStepResult)
        ensures
            (Machine::of(*final(self), *final(bus)), r) == Machine::of(*old(self), *old(bus)).dispatch_boundary_hook_decoded(opcode),
    {
        proof {
            reveal(Machine::dispatch_boundary_hook_decoded);
        }
        if self.run.run_mode != RUN_MODE_NORMAL || (self.sys.t1_flag | self.sys.t0_flag) != 0 {
            return self.dispatch_instruction(bus, opcode);
        }
        match decode_boundary_hook_op(self.model.cpu_type, opcode) {
            None => self.dispatch_instruction(bus, opcode),
            Some(op) => {
                if self.model.cpu_type == CpuType::M68000 {
                    if let DecodedSimpleOp::UnaryDataReg { op: _, reg, size } = op {
                        let precise: i32 = self.exec_clr(bus, size, AddressingMode::DataDirect(reg));
                        return InternalStepResult::Completed { cycles: precise };
                    }
                }
                let cycles: i32 = self.exec_simple(op);
                InternalStepResult::Completed { cycles: cycles }
            },
        }
    }

    /// Dispatch the fetched opcode; gives the outcome and whether the
    /// instruction words came out of a cache.
    pub fn dispatch_fetched<B: AddressBus>(&mut self, bus: &mut B, boundary: bool) -> (r: (InternalStepResult, bool))
        ensures
            (Machine::of(*final(self), *final(bus)), r) == Machine::of(*old(self), *old(bus)).dispatch_fetched(boundary),
    {
        proof {
            reveal(Machine::dispatch_fetched);
        }
        let opcode_cached: bool = bus.last_fetch_was_cached();
        let opcode: u16 = self.ir as u16;
        let outcome: InternalStepResult = if boundary {
            self.dispatch_boundary_hook_decoded(bus, opcode)
        } else {
            self.dispatch_instruction(bus, opcode)
        };
        let cached: bool = match self.model.cpu_type {
            CpuType::M68EC020 | CpuType::M68020 => bus.instruction_fetches_were_cached(),
            _ => opcode_cached,
        };
        (outcome, cached)
    }

    /// End the execution of an instruction: refill the prefetch queue. `false`
    /// if the instruction faulted; it has then entered its handler.
    pub fn settle_step<B: AddressBus>(&mut self, bus: &mut B) -> (r: bool)
        ensures
            (Machine::of(*final(self), *final(bus)), r) == Machine::of(*old(self), *old(bus)).settle_step(),
    {
        proof {
            reveal(Machine::settle_step);
        }
        if self.run.run_mode == RUN_MODE_BERR_AERR_RESET {
            self.end_faulted_instruction();
            return false;
        }
        self.top_up_prefetch(bus);
        true
    }

    /// What follows an instruction that took `cycles`: a trace exception, or
    /// else a pending interrupt.
    pub fn close_step<B: AddressBus>(&mut self, bus: &mut B, cycles: i32) -> (r: StepResult)
        ensures
            (Machine::of(*final(self), *final(bus)), r) == Machine::of(*old(self), *old(bus)).close_step(cycles),
    {
        proof {
            reveal(Machine::close_step);
        }
        if !self.host.sst_m68000_compat {
            let traced: bool = self.check_trace();
            if traced {
                let trace_cycles: i32 = self.exception_trace(bus);
                return StepResult::Completed { cycles: cycles.wrapping_add(trace_cycles) };
            }
        }
        if self.run.int_level > 0 {
            self.check_and_service_interrupts(bus);
        }
        StepResult::Completed { cycles: cycles }
    }

    /// Finish an instruction that took `cycles`: refill the prefetch queue,
    /// take a trace exception, or else a pending interrupt. A faulted
    /// instruction has already entered its handler.
    pub fn finish_step<B: AddressBus>(&mut self, bus: &mut B, cycles: i32) -> (r: StepResult)
        ensures
            (Machine::of(*final(self), *final(bus)), r) == Machine::of(*old(self), *old(bus)).finish_step(cycles),
    {
        proof {
            reveal(Machine::finish_step);
        }
        let settled: bool = self.settle_step(bus);
        if !settled {
            return StepResult::Completed { cycles: cycles };
        }
        self.close_step(bus, cycles)
    }

    /// Execute one precise instruction with one of the two post-fetch
    /// dispatchers.
    pub fn step_with_dispatch<B: AddressBus>(&mut self, bus: &mut B, boundary: bool) -> (r: StepResult)
        ensures
            (Machine::of(*final(self), *final(bus)), r) == Machine::of(*old(self), *old(bus)).step_with_dispatch(boundary),
    {
        proof {
            reveal(Machine::step_with_dispatch);
        }
        self.set_precise_bus(true);
        if self.run.stopped != 0 {
            let woken: Option<i32> = self.stopped_supervisor_check(bus);
            return match woken {
                Some(cycles) => StepResult::Completed { cycles: cycles },
                None => StepResult::Stopped,
            };
        }
        let fetched: bool = self.begin_instruction(bus);
        if !fetched {
            return StepResult::Completed { cycles: 0 };
        }
        let done: (InternalStepResult, bool) = self.dispatch_fetched(bus, boundary);
        match done.0 {
            InternalStepResult::Completed { cycles } => {
                let total: i32 = self.finalize_cycles(bus, cycles, done.1);
                self.finish_step(bus, total)
            },
            InternalStepResult::AlineTrap { opcode } => {
                self.clear_execution_pipeline_state();
                StepResult::AlineTrap { opcode: opcode }
            },
            InternalStepResult::FlineTrap { opcode } => {
                self.clear_execution_pipeline_state();
                StepResult::FlineTrap { opcode: opcode }
            },
            InternalStepResult::TrapInstruction { trap_num } => {
                self.clear_execution_pipeline_state();
                StepResult::TrapInstruction { trap_num: trap_num }
            },
            InternalStepResult::Breakpoint { bp_num } => {
                self.clear_execution_pipeline_state();
                StepResult::Breakpoint { bp_num: bp_num }
            },
            InternalStepResult::IllegalInstruction { opcode } => {
                self.clear_execution_pipeline_state();
                StepResult::IllegalInstruction { opcode: opcode }
            },
        }
    }

    /// Execute a single instruction.
    ///
    /// Traps are surfaced as `StepResult` variants; exceptions are not taken
    /// automatically in this mode.
    pub fn step<B: AddressBus>(&mut self, bus: &mut B) -> (r: StepResult)
        ensures
            (Machine::of(*final(self), *final(bus)), r) == Machine::of(*old(self), *old(bus)).step(),
    {
        proof {
            reveal(Machine::step);
        }
        self.step_with_dispatch(bus, false)
    }

    /// Take the exception of a trap that was not intercepted; a completed
    /// instruction only gets its cycles finalized.
    pub fn take_trap<B: AddressBus>(&mut self, bus: &mut B, outcome: InternalStepResult, fetch_cached: bool) -> (r: i32)
        ensures
            (Machine::of(*final(self), *final(bus)), r) == Machine::of(*old(self), *old(bus)).take_trap(outcome, fetch_cached),
    {
        proof {
            reveal(Machine::take_trap);
        }
        match outcome {
            InternalStepResult::Completed { cycles } => self.finalize_cycles(bus, cycles, fetch_cached),
            InternalStepResult::AlineTrap { opcode: _ } => self.take_aline_exception(bus),
            InternalStepResult::FlineTrap { opcode: _ } => self.take_fline_exception(bus),
            InternalStepResult::TrapInstruction { trap_num } => self.take_trap_exception(bus, trap_num),
            InternalStepResult::Breakpoint { bp_num: _ } => self.take_bkpt_exception(bus),
            InternalStepResult::IllegalInstruction { opcode: _ } => self.take_illegal_exception(bus),
        }
    }

    /// Start a cycle-budgeted run; `Some` if it ends at once.
    pub fn begin_execute<B: AddressBus>(&mut self, bus: &mut B, num_cycles: i32) -> (r: Option<i32>)
        ensures
            (Machine::of(*final(self), *final(bus)), r) == Machine::of(*old(self), *old(bus)).begin_execute(num_cycles),
    {
        proof {
            reveal(Machine::begin_execute);
        }
        self.set_precise_bus(true);
        if self.host.reset_cycles > 0 {
            let reset_cycles: i32 = self.host.reset_cycles as i32;
            self.host.reset_cycles = 0;
            let remaining: i32 = num_cycles.wrapping_sub(reset_cycles);
            if remaining <= 0 {
                return Some(reset_cycles);
            }
            self.run.cycles_remaining = remaining;
        } else {
            self.run.cycles_remaining = num_cycles;
        }
        self.run.initial_cycles = num_cycles;
        self.check_and_service_interrupts(bus);
        if self.run.stopped != 0 {
            let woken: Option<i32> = self.stopped_supervisor_check(bus);
            match woken {
                Some(cycles) => {
                    self.charge(cycles);
                },
                None => {
                    self.run.cycles_remaining = 0;
                    return Some(self.run.initial_cycles);
                },
            }
        }
        None
    }

    /// One instruction of a cycle-budgeted run, with every trap taken;
    /// `false` if the processor has stopped.
    pub fn execute_one<B: AddressBus>(&mut self, bus: &mut B) -> (r: bool)
        ensures
            (Machine::of(*final(self), *final(bus)), r) == Machine::of(*old(self), *old(bus)).execute_one(),
    {
        proof {
            reveal(Machine::execute_one);
        }
        let fetched: bool = self.begin_instruction(bus);
        if !fetched {
            return self.run.stopped == 0;
        }
        let done: (InternalStepResult, bool) = self.dispatch_fetched(bus, false);
        let cycles: i32 = self.take_trap(bus, done.0, done.1);
        self.charge(cycles);
        if self.run.run_mode == RUN_MODE_BERR_AERR_RESET {
            self.end_faulted_instruction();
            return self.run.stopped == 0;
        }
        self.top_up_prefetch(bus);
        let traced: bool = self.check_trace();
        if traced {
            let trace_cycles: i32 = self.exception_trace(bus);
            self.charge(trace_cycles);
        }
        if self.run.int_level > 0 {
            self.check_and_service_interrupts(bus);
        }
        self.run.stopped == 0
    }
}

} // verus!
