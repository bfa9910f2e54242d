//! Instruction decoding and dispatch.
//!
//! A dispatcher gives the cycles of the instruction it executed, or one of
//! the sentinels by which an instruction is reported to the caller. Most
//! reports come before anything has been read or changed. Some come after
//! extension words have been read, and leave PC behind them: floating-point
//! conditionals and branches without a unit, MMU operations that turn out to
//! be none, PACK and UNPK without a unit, and MOVEC of an unknown register.
//! An unknown LPSTOP has looked at the word after it and left it where it is.

use vstd::prelude::*;
use crate::cpu::{ControlRegs, CpuCore, FaultState, MmuRegs};
use crate::decode_arith::{decode_size_00, ea_control, ea_data_alterable};
use crate::ea::{decode_mode, EaResult};
use crate::exceptions::VECTOR_UNIMPLEMENTED_INTEGER;
use crate::instructions::{
    ALINE_TRAP_SENTINEL, BKPT_SENTINEL_BASE, FLINE_TRAP_SENTINEL, ILLEGAL_SENTINEL,
    TRAP_SENTINEL_BASE,
};
use crate::machine::Machine;
use crate::memory::{AddressBus, UnitOp};
use crate::op_cache::DecodedSimpleOp;
use crate::prefetch::{sext16, sext8};
use crate::timing::{bitop_cycles, compare_immediate_cycles, immediate_alu_cycles};
use crate::types::{CpuType, InternalStepResult, Size};

verus! {

/// What the dispatcher reports for a cycle count or sentinel.
pub open spec fn spec_interpret_cycles(opcode: u16, cycles: i32) -> InternalStepResult {
    if cycles >= 0 {
        InternalStepResult::Completed { cycles: cycles }
    } else {
        if cycles == ALINE_TRAP_SENTINEL {
            InternalStepResult::AlineTrap { opcode: opcode }
        } else {
            if cycles == FLINE_TRAP_SENTINEL {
                InternalStepResult::FlineTrap { opcode: opcode }
            } else {
                if TRAP_SENTINEL_BASE <= cycles && cycles < TRAP_SENTINEL_BASE + 16 {
                    InternalStepResult::TrapInstruction { trap_num: (cycles - TRAP_SENTINEL_BASE) as u8 }
                } else {
                    if BKPT_SENTINEL_BASE <= cycles && cycles < BKPT_SENTINEL_BASE + 8 {
                        InternalStepResult::Breakpoint { bp_num: (cycles - BKPT_SENTINEL_BASE) as u8 }
                    } else {
                        if cycles == ILLEGAL_SENTINEL {
                            InternalStepResult::IllegalInstruction { opcode: opcode }
                        } else {
                            InternalStepResult::Completed { cycles: cycles }
                        }
                    }
                }
            }
        }
    }
}

/// What the dispatcher reports for a cycle count or sentinel.
#[verifier::when_used_as_spec(spec_interpret_cycles)]
pub fn interpret_cycles(opcode: u16, cycles: i32) -> (r: InternalStepResult)
    ensures
        r == spec_interpret_cycles(opcode, cycles),
{
    if cycles >= 0 {
        return InternalStepResult::Completed { cycles: cycles };
    }
    if cycles == ALINE_TRAP_SENTINEL {
        return InternalStepResult::AlineTrap { opcode: opcode };
    }
    if cycles == FLINE_TRAP_SENTINEL {
        return InternalStepResult::FlineTrap { opcode: opcode };
    }
    if TRAP_SENTINEL_BASE <= cycles && cycles < TRAP_SENTINEL_BASE + 16 {
        return InternalStepResult::TrapInstruction { trap_num: (cycles - TRAP_SENTINEL_BASE) as u8 };
    }
    if BKPT_SENTINEL_BASE <= cycles && cycles < BKPT_SENTINEL_BASE + 8 {
        return InternalStepResult::Breakpoint { bp_num: (cycles - BKPT_SENTINEL_BASE) as u8 };
    }
    if cycles == ILLEGAL_SENTINEL {
        return InternalStepResult::IllegalInstruction { opcode: opcode };
    }
    InternalStepResult::Completed { cycles: cycles }
}

/// Whether an opcode may need full register and SR rollback state: every
/// opcode but the simple one-word instructions that cannot fault.
pub open spec fn spec_needs_rollback_snapshot(opcode: u16) -> bool {
    DecodedSimpleOp::decode(CpuType::M68040, opcode).is_none()
}

/// Whether an opcode may need full register and SR rollback state: every
/// opcode but the simple one-word instructions that cannot fault.
#[verifier::when_used_as_spec(spec_needs_rollback_snapshot)]
pub fn needs_rollback_snapshot(opcode: u16) -> (r: bool)
    ensures
        r == spec_needs_rollback_snapshot(opcode),
{
    DecodedSimpleOp::decode(CpuType::M68040, opcode).is_none()
}

/// Whether a CINV, CPUSH, PFLUSH, PTEST or PLPA encoding exists on a model
/// that has this group.
pub open spec fn spec_mmu_maintenance_exists(is_060: bool, opcode: u16) -> bool {
    (opcode & 0xFFE0) == 0xF500 || (!is_060 && ((opcode & 0xFFF8) == 0xF548 || (opcode & 0xFFF8)
    == 0xF568)) || (is_060 && ((opcode & 0xFFF8) == 0xF588 || (opcode & 0xFFF8) == 0xF5C8))
}

/// Whether a CINV, CPUSH, PFLUSH, PTEST or PLPA encoding exists on a model
/// that has this group.
#[verifier::when_used_as_spec(spec_mmu_maintenance_exists)]
pub fn mmu_maintenance_exists(is_060: bool, opcode: u16) -> (r: bool)
    ensures
        r == spec_mmu_maintenance_exists(is_060, opcode),
{
    (opcode & 0xFFE0) == 0xF500 || (!is_060 && ((opcode & 0xFFF8) == 0xF548 || (opcode & 0xFFF8)
        == 0xF568)) || (is_060 && ((opcode & 0xFFF8) == 0xF588 || (opcode & 0xFFF8) == 0xF5C8))
}

/// Addressing modes of FSAVE and other coprocessor saves.
pub open spec fn spec_save_mode_valid(mode: u16, reg: u16) -> bool {
    mode == 2 || (4 <= mode && mode <= 6) || (mode == 7 && reg <= 1)
}

/// Addressing modes of FSAVE and other coprocessor saves.
#[verifier::when_used_as_spec(spec_save_mode_valid)]
pub fn save_mode_valid(mode: u16, reg: u16) -> (r: bool)
    ensures
        r == spec_save_mode_valid(mode, reg),
{
    mode == 2 || (4 <= mode && mode <= 6) || (mode == 7 && reg <= 1)
}

/// Addressing modes of FRESTORE and other coprocessor restores.
pub open spec fn spec_restore_mode_valid(mode: u16, reg: u16) -> bool {
    mode == 2 || mode == 3 || mode == 5 || mode == 6 || (mode == 7 && reg <= 3)
}

/// Addressing modes of FRESTORE and other coprocessor restores.
#[verifier::when_used_as_spec(spec_restore_mode_valid)]
pub fn restore_mode_valid(mode: u16, reg: u16) -> (r: bool)
    ensures
        r == spec_restore_mode_valid(mode, reg),
{
    mode == 2 || mode == 3 || mode == 5 || mode == 6 || (mode == 7 && reg <= 3)
}

impl Machine {
    /// Dispatch an instruction based on its opcode.
    #[verifier::opaque]
    pub open spec fn dispatch_instruction(self, opcode: u16) -> (Machine, InternalStepResult) {
        let (m, cycles) = match (opcode >> 12) & 0xF {
            0x0 => self.dispatch_group_0(opcode),
            0x1 => self.dispatch_move(opcode, Size::Byte),
            0x2 => self.dispatch_move(opcode, Size::Long),
            0x3 => self.dispatch_move(opcode, Size::Word),
            0x4 => self.dispatch_group_4(opcode),
            0x5 => self.dispatch_group_5(opcode),
            0x6 => self.dispatch_group_6(opcode),
            0x7 => {
                let (cpu, v1) = self.cpu.spec_dispatch_moveq(opcode);
                let m = self.on_cpu(cpu);
                (m, v1)
            },
            0x8 => self.dispatch_group_8(opcode),
            0x9 => self.dispatch_group_9(opcode),
            0xA => (self, ALINE_TRAP_SENTINEL),
            0xB => self.dispatch_group_b(opcode),
            0xC => self.dispatch_group_c(opcode),
            0xD => self.dispatch_group_d(opcode),
            0xE => self.dispatch_group_e(opcode),
            _ => self.dispatch_group_f(opcode),
        };
        (m, interpret_cycles(opcode, cycles))
    }

    /// CINV and CPUSH: clear the caches named. A push has no dirty data to
    /// write back, and the line and page scopes clear the whole cache too.
    #[verifier::opaque]
    pub open spec fn exec_cache_maintenance(self, opcode: u16) -> (Machine, i32) {
        if (opcode >> 3) & 7 == 0 || (opcode >> 3) & 7 == 4 {
            (self, FLINE_TRAP_SENTINEL)
        } else {
            if !self.cpu.is_supervisor() {
                self.take_exception(8)
            } else {
                let caches: u16 = (opcode >> 6) & 3;
                let m = if caches & 1 != 0 {
                    let m = self.on_cpu(CpuCore { control: ControlRegs { cacr_pending_ops: self.cpu.control.cacr_pending_ops | crate::cpu::CACR_CD, ..self.cpu.control }, ..self.cpu });
                    m
                } else {
                    self
                };
                let m = if caches & 2 != 0 {
                    let m = m.on_cpu(CpuCore { control: ControlRegs { cacr_pending_ops: m.cpu.control.cacr_pending_ops | crate::cpu::CACR_CI, ..m.cpu.control }, ..m.cpu });
                    m
                } else {
                    m
                };
                (m, 4)
            }
        }
    }

    /// Translate an address in the space that DFC names.
    #[verifier::opaque]
    pub open spec fn translate_for_dfc(self, addr: u32, write: bool) -> (Machine, Result<u32, crate::memory::MmuFault>) {
        let fc: u8 = (self.cpu.control.dfc & 7) as u8;
        let m = self.on_cpu(CpuCore { fault: FaultState { fc_override: Some(fc), ..self.cpu.fault }, ..self.cpu });
        let (m, translated) = m.bus_translate(m.cpu.mmu, m.cpu.model.cpu_type, crate::memory::Translation {
                address: addr,
                write: write,
                supervisor: fc & 4 != 0,
                instruction: false,
                fc_override: Some(fc),
            });
        let m = m.on_cpu(CpuCore { fault: FaultState { fc_override: None, ..m.cpu.fault }, ..m.cpu });
        (m, translated)
    }

    /// PLPA (68060): replace the logical address in An by the physical one.
    /// On a fault An is untouched, so that the handler can restart it.
    #[verifier::opaque]
    pub open spec fn exec_plpa(self, opcode: u16) -> (Machine, i32) {
        let write: bool = opcode & 0x0040 == 0;
        let an: usize = (opcode & 7) as usize;
        let addr: u32 = self.cpu.a(an);
        let (m, v1) = self.translate_for_dfc(addr, write);
        match v1 {
            Ok(phys) => {
                let m = m.on_cpu(m.cpu.spec_set_a(an, phys));
                (m, 4)
            },
            Err(fault) => {
                let m = m.handle_mmu_fault(fault, write, false, 4);
                (m, 50)
            },
        }
    }

    /// PTEST (68040): report the page of An in MMUSR.
    #[verifier::opaque]
    pub open spec fn exec_ptest_040(self, opcode: u16) -> (Machine, i32) {
        let read: bool = opcode & 0x0020 != 0;
        let addr: u32 = self.cpu.a((opcode & 7) as usize);
        let (m, v1) = self.translate_for_dfc(addr, !read);
        let m = match v1 {
            Ok(phys) => {
                let m = m.on_cpu(CpuCore { mmu: MmuRegs { sr: (phys & 0xFFFF_F000) | 0x0000_0001, ..m.cpu.mmu }, ..m.cpu });
                m
            },
            Err(_fault) => {
                let m = m.on_cpu(CpuCore { mmu: MmuRegs { sr: 0, ..m.cpu.mmu }, ..m.cpu });
                m
            },
        };
        let m = m.on_cpu(m.cpu.spec_trace_t0_68040_sync());
        (m, 4)
    }

    /// PFLUSH, PTEST and PLPA of the 68040 and 68060. Every flush drops all
    /// cached translations.
    #[verifier::opaque]
    pub open spec fn exec_mmu_maintenance(self, opcode: u16) -> (Machine, i32) {
        if !mmu_maintenance_exists(self.cpu.is_060(), opcode) {
            (self, FLINE_TRAP_SENTINEL)
        } else {
            if !self.cpu.is_supervisor() {
                self.take_exception(8)
            } else {
                if self.cpu.is_060() {
                    if (opcode & 0xFFF0) == 0xF580 || (opcode & 0xFFF0) == 0xF5C0 {
                        self.exec_plpa(opcode)
                    } else {
                        if opcode & 0x00C0 == 0 {
                            let m = self.on_cpu(self.cpu.spec_flush_atc());
                            (m, 4)
                        } else {
                            (self, FLINE_TRAP_SENTINEL)
                        }
                    }
                } else {
                    if self.cpu.is_040() && opcode & 0x0040 != 0 {
                        self.exec_ptest_040(opcode)
                    } else {
                        let m = self.on_cpu(self.cpu.spec_flush_atc());
                        let m = m.on_cpu(m.cpu.spec_trace_t0_68040_sync());
                        (m, 4)
                    }
                }
            }
        }
    }

    /// LPSTOP (68060): stop with a low-power broadcast. A wrong extension word
    /// is an undefined F-line.
    #[verifier::opaque]
    pub open spec fn exec_lpstop(self) -> (Machine, i32) {
        let (m, ext) = self.read_16(self.cpu.pc);
        if ext != 0x01C0 {
            (m, FLINE_TRAP_SENTINEL)
        } else {
            if !m.cpu.is_supervisor() {
                m.exception_privilege()
            } else {
                let m = m.read_imm_16().0;
                let (m, sr) = m.read_imm_16();
                if sr & 0x2000 == 0 {
                    m.exception_privilege()
                } else {
                    let m = m.on_cpu(m.cpu.spec_stop(sr));
                    (m, 4)
                }
            }
        }
    }

    /// Let the floating-point unit execute an instruction; without the unit
    /// it is a line-F opcode.
    #[verifier::opaque]
    pub open spec fn run_fpu(self, op: UnitOp) -> (Machine, i32) {
        let (m, v1) = self.bus_unit(op);
        match v1 {
            Some(cycles) => (m, cycles),
            None => (m, FLINE_TRAP_SENTINEL),
        }
    }

    /// FDBcc, FTRAPcc and FScc, which the 68060 dropped.
    #[verifier::opaque]
    pub open spec fn exec_fpu_conditional(self, opcode: u16) -> (Machine, i32) {
        let ea_mode: u8 = ((opcode >> 3) & 7) as u8;
        let ea_reg: u8 = (opcode & 7) as u8;
        if ea_mode == 7 && ea_reg > 4 {
            (self, FLINE_TRAP_SENTINEL)
        } else {
            let (m, w2) = self.read_imm_16();
            let cond: u8 = (w2 & 0x3F) as u8;
            if ea_mode == 1 {
                if m.cpu.trap_unimpl_060() {
                    let m = m.on_cpu(CpuCore { pc: m.cpu.pc.wrapping_add(2), ..m.cpu });
                    m.run_fpu(UnitOp::FpuUnimplemented)
                } else {
                    m.run_fpu(UnitOp::FpuDecrement { reg: ea_reg, condition: cond })
                }
            } else {
                if ea_mode == 7 && 2 <= ea_reg && ea_reg <= 4 {
                    let operand_words: u8 = match ea_reg {
                        2 => 1,
                        3 => 2,
                        _ => 0,
                    };
                    if m.cpu.trap_unimpl_060() {
                        let m = m.on_cpu(CpuCore { pc: m.cpu.pc.wrapping_add((operand_words as u32).wrapping_mul(2)), ..m.cpu });
                        m.run_fpu(UnitOp::FpuUnimplemented)
                    } else {
                        m.run_fpu(UnitOp::FpuTrap { condition: cond, operand_words: operand_words })
                    }
                } else {
                    if m.cpu.trap_unimpl_060() {
                        m.run_fpu(UnitOp::FpuSetUnimplemented { mode: ea_mode, reg: ea_reg })
                    } else {
                        m.run_fpu(UnitOp::FpuSet { mode: ea_mode, reg: ea_reg, condition: cond })
                    }
                }
            }
        }
    }

    /// Floating-point instructions.
    #[verifier::opaque]
    pub open spec fn dispatch_fpu(self, opcode: u16) -> (Machine, i32) {
        if (opcode & 0xFFC0) == 0xF240 {
            self.exec_fpu_conditional(opcode)
        } else {
            if (opcode & 0xFFC0) == 0xF280 {
                let (m, disp) = self.read_imm_16();
                m.run_fpu(UnitOp::FpuBranch { condition: (opcode & 0x3F) as u8, displacement: sext16(disp) })
            } else {
                if (opcode & 0xFFC0) == 0xF2C0 {
                    let (m, disp) = self.read_imm_32();
                    m.run_fpu(UnitOp::FpuBranch { condition: (opcode & 0x3F) as u8, displacement: disp })
                } else {
                    let sub: u16 = (opcode >> 8) & 0xF;
                    let (m, cycles) = if sub == 2 {
                        self.run_fpu(UnitOp::FpuGeneral { opcode: opcode })
                    } else if sub == 3 {
                        let mode: u16 = (opcode >> 3) & 7;
                        let reg: u16 = opcode & 7;
                        if opcode & 0x40 == 0 && !save_mode_valid(mode, reg) || opcode & 0x40 != 0
                && !restore_mode_valid(mode, reg) {
                            (self, FLINE_TRAP_SENTINEL)
                        } else {
                            self.run_fpu(UnitOp::FpuState { opcode: opcode })
                        }
                    } else {
                        (self, 0)
                    };
                    if cycles != 0 {
                        (m, cycles)
                    } else {
                        (m, FLINE_TRAP_SENTINEL)
                    }
                }
            }
        }
    }

    /// Group F: coprocessors, caches and memory management.
    #[verifier::opaque]
    pub open spec fn dispatch_group_f(self, opcode: u16) -> (Machine, i32) {
        if self.cpu.model.is_pre_68020 {
            (self, FLINE_TRAP_SENTINEL)
        } else {
            if !self.cpu.is_supervisor() && self.cpu.is_coprocessor_state_move(opcode) {
                self.exception_privilege()
            } else {
                let on_chip: bool = self.cpu.is_040() || self.cpu.is_060();
                if !self.cpu.fpu.present && (opcode >> 9) & 7 == 1 && !on_chip {
                    (self, FLINE_TRAP_SENTINEL)
                } else {
                    if on_chip && ((opcode & 0xFFE0) == 0xF600 || (opcode & 0xFFF8) == 0xF620) {
                        self.run_fpu(UnitOp::BlockMove { opcode: opcode })
                    } else {
                        if on_chip && (opcode >> 8) & 0xF == 4 {
                            self.exec_cache_maintenance(opcode)
                        } else {
                            if on_chip && (opcode >> 8) & 0xF == 5 {
                                self.exec_mmu_maintenance(opcode)
                            } else {
                                if self.cpu.is_060() && opcode == 0xF800 {
                                    self.exec_lpstop()
                                } else {
                                    if (opcode >> 9) & 7 == 0 {
                                        let (m, cycles) = self.exec_mmu_op0(opcode);
                                        if cycles != 0 {
                                            (m, cycles)
                                        } else {
                                            m.dispatch_fpu(opcode)
                                        }
                                    } else {
                                        self.dispatch_fpu(opcode)
                                    }
                                }
                            }
                        }
                    }
                }
            }
        }
    }

    /// MOVE and MOVEA. A byte-sized MOVE cannot source an address register,
    /// and the destination must be data alterable.
    #[verifier::opaque]
    pub open spec fn dispatch_move(self, opcode: u16, size: Size) -> (Machine, i32) {
        let src_reg: u8 = (opcode & 7) as u8;
        let src_mode: u8 = ((opcode >> 3) & 7) as u8;
        let dst_reg: u8 = ((opcode >> 9) & 7) as u8;
        let dst_mode: u8 = ((opcode >> 6) & 7) as u8;
        if size == Size::Byte && src_mode == 1 {
            (self, ILLEGAL_SENTINEL)
        } else {
            if dst_mode == 7 && dst_reg > 1 {
                (self, ILLEGAL_SENTINEL)
            } else {
                match decode_mode(src_mode, src_reg) {
                    Some(src_ea) => {
                        match decode_mode(dst_mode, dst_reg) {
                            Some(dst_ea) => {
                                if dst_mode == 1 {
                                    if size == Size::Byte {
                                        (self, ILLEGAL_SENTINEL)
                                    } else {
                                        self.exec_movea(size, src_ea, dst_reg as usize)
                                    }
                                } else {
                                    self.exec_move(size, src_ea, dst_ea)
                                }
                            },
                            None => (self, ILLEGAL_SENTINEL),
                        }
                    },
                    None => (self, ILLEGAL_SENTINEL),
                }
            }
        }
    }

    /// MOVEP: a register to or from every other byte. No flag changes.
    #[verifier::opaque]
    pub open spec fn exec_movep(self, opcode: u16) -> (Machine, i32) {
        let dreg: usize = ((opcode >> 9) & 7) as usize;
        let areg: usize = (opcode & 7) as usize;
        let (m, disp) = self.read_imm_16();
        let addr: u32 = m.cpu.a(areg).wrapping_add(sext16(disp));
        if opcode & 0x0040 != 0 {
            let m = if opcode & 0x0080 != 0 {
                let v: u32 = m.cpu.d(dreg);
                let m = m.write_8(addr, (v >> 24) as u8);
                let m = m.write_8(addr.wrapping_add(2), (v >> 16) as u8);
                let m = m.write_8(addr.wrapping_add(4), (v >> 8) as u8);
                let m = m.write_8(addr.wrapping_add(6), v as u8);
                m
            } else {
                let (m, b0) = m.read_8(addr);
                let (m, b1) = m.read_8(addr.wrapping_add(2));
                let (m, b2) = m.read_8(addr.wrapping_add(4));
                let (m, b3) = m.read_8(addr.wrapping_add(6));
                let m = m.ipl_poll_point();
                let m = m.on_cpu(m.cpu.spec_set_d(dreg, ((b0 as u32) << 24) | ((b1 as u32) << 16) | ((b2 as u32) << 8) | (b3 as u32)));
                m
            };
            (m, 24)
        } else {
            let m = if opcode & 0x0080 != 0 {
                let v: u32 = m.cpu.d(dreg);
                let m = m.write_8(addr, (v >> 8) as u8);
                let m = m.write_8(addr.wrapping_add(2), v as u8);
                m
            } else {
                let (m, hi) = m.read_8(addr);
                let (m, lo) = m.read_8(addr.wrapping_add(2));
                let m = m.ipl_poll_point();
                let m = m.on_cpu(m.cpu.spec_write_data_reg(dreg, Size::Word, ((hi as u32) << 8) | (lo as u32)));
                m
            };
            (m, 16)
        }
    }

    /// SUBI and ADDI.
    #[verifier::opaque]
    pub open spec fn exec_arith_immediate(self, opcode: u16, is_sub: bool) -> (Machine, i32) {
        let ea_mode: u8 = ((opcode >> 3) & 7) as u8;
        let ea_reg: u8 = (opcode & 7) as u8;
        if (opcode >> 6) & 3 == 3 {
            (self, 4)
        } else {
            if !ea_data_alterable(ea_mode, ea_reg) {
                (self, ILLEGAL_SENTINEL)
            } else {
                let size: Size = decode_size_00((opcode >> 6) & 3);
                match decode_mode(ea_mode, ea_reg) {
                    Some(mode) => {
                        let (m, imm) = self.read_immediate(size);
                        if m.cpu.faulted() {
                            (m, 50)
                        } else {
                            let (m, ea) = m.resolve_ea(mode, size);
                            let (m, dst) = m.read_resolved_ea(ea, size);
                            let (m, done) = if is_sub {
                                let (cpu, v1) = m.cpu.spec_exec_sub(size, imm, dst);
                                let m = m.on_cpu(cpu);
                                (m, v1)
                            } else {
                                let (cpu, v2) = m.cpu.spec_exec_add(size, imm, dst);
                                let m = m.on_cpu(cpu);
                                (m, v2)
                            };
                            let m = m.finish_immediate(ea, size, done.0);
                            if m.cpu.model.cpu_type == CpuType::M68000 {
                                (m, immediate_alu_cycles(mode, size))
                            } else if is_sub {
                                if size == Size::Long {
                                    (m, 16)
                                } else {
                                    (m, 8)
                                }
                            } else if size == Size::Long {
                                (m, done.1.wrapping_add(8))
                            } else {
                                (m, done.1.wrapping_add(4))
                            }
                        }
                    },
                    None => (self, ILLEGAL_SENTINEL),
                }
            }
        }
    }

    /// CMPI. The 68020 and later also compare with PC-relative operands.
    #[verifier::opaque]
    pub open spec fn exec_compare_immediate(self, opcode: u16) -> (Machine, i32) {
        let ea_mode: u8 = ((opcode >> 3) & 7) as u8;
        let ea_reg: u8 = (opcode & 7) as u8;
        let pc_rel_ok: bool = !self.cpu.model.is_pre_68020 && ea_mode == 7 && (ea_reg == 2 || ea_reg == 3);
        if !ea_data_alterable(ea_mode, ea_reg) && !pc_rel_ok {
            (self, ILLEGAL_SENTINEL)
        } else {
            let size: Size = decode_size_00((opcode >> 6) & 3);
            match decode_mode(ea_mode, ea_reg) {
                Some(mode) => {
                    let (m, imm) = self.read_immediate(size);
                    if m.cpu.faulted() {
                        (m, 50)
                    } else {
                        let (m, dst) = m.read_ea(mode, size);
                        if m.cpu.faulted() {
                            (m, 50)
                        } else {
                            if m.cpu.model.cpu_type == CpuType::M68000 {
                                let m = m.top_up_prefetch();
                                let m = m.ipl_poll_point();
                                if m.cpu.faulted() {
                                    (m, 50)
                                } else {
                                    let m = if crate::ea::is_register_direct(mode) && size == Size::Long {
                                        let m = m.on_cpu(m.cpu.spec_internal_cycles(2));
                                        let m = m.flush_sync();
                                        m
                                    } else {
                                        m
                                    };
                                    let (cpu, v1) = m.cpu.spec_exec_compare(size, imm, dst);
                                    let m = m.on_cpu(cpu);
                                    let legacy: i32 = v1;
                                    if m.cpu.model.cpu_type == CpuType::M68000 {
                                        (m, compare_immediate_cycles(mode, size))
                                    } else {
                                        (m, legacy)
                                    }
                                }
                            } else {
                                let (cpu, v2) = m.cpu.spec_exec_compare(size, imm, dst);
                                let m = m.on_cpu(cpu);
                                let legacy: i32 = v2;
                                if m.cpu.model.cpu_type == CpuType::M68000 {
                                    (m, compare_immediate_cycles(mode, size))
                                } else {
                                    (m, legacy)
                                }
                            }
                        }
                    }
                },
                None => (self, ILLEGAL_SENTINEL),
            }
        }
    }

    /// ORI, ANDI and EORI, including the forms on CCR and SR, which are told
    /// apart by the size field.
    #[verifier::opaque]
    pub open spec fn exec_logic_group(self, opcode: u16) -> (Machine, i32) {
        let operation: u16 = (opcode >> 8) & 0xF;
        let ea_mode: u8 = ((opcode >> 3) & 7) as u8;
        let ea_reg: u8 = (opcode & 7) as u8;
        if ea_mode == 7 && ea_reg == 4 && (opcode >> 6) & 3 == 0 {
            self.exec_logic_ccr(operation)
        } else {
            if ea_mode == 7 && ea_reg == 4 && (opcode >> 6) & 3 == 1 {
                self.exec_logic_sr(operation)
            } else {
                if !ea_data_alterable(ea_mode, ea_reg) {
                    (self, ILLEGAL_SENTINEL)
                } else {
                    let size: Size = decode_size_00((opcode >> 6) & 3);
                    match decode_mode(ea_mode, ea_reg) {
                        Some(mode) => {
                            let (m, legacy) = self.exec_logic_immediate(operation, size, mode);
                            if m.cpu.model.cpu_type == CpuType::M68000 {
                                (m, immediate_alu_cycles(mode, size))
                            } else {
                                (m, legacy)
                            }
                        },
                        None => (self, ILLEGAL_SENTINEL),
                    }
                }
            }
        }
    }

    /// BTST, BCHG, BCLR and BSET with the bit number in a register or in an
    /// extension word. BTST takes any data addressing mode, its dynamic form
    /// even an immediate; the modifying forms need a data alterable operand.
    #[verifier::opaque]
    pub open spec fn exec_bit_group(self, opcode: u16) -> (Machine, i32) {
        let ea_mode: u8 = ((opcode >> 3) & 7) as u8;
        let ea_reg: u8 = (opcode & 7) as u8;
        let bit_op: u16 = (opcode >> 6) & 3;
        let dynamic: bool = opcode & 0x100 != 0;
        let ea_ok: bool = if bit_op == 0 {
            ea_mode == 0 || (2 <= ea_mode && ea_mode <= 6) || (ea_mode == 7 && (ea_reg <= 3 || (
            dynamic && ea_reg == 4)))
        } else {
            ea_data_alterable(ea_mode, ea_reg)
        };
        if !ea_ok {
            (self, ILLEGAL_SENTINEL)
        } else {
            match decode_mode(ea_mode, ea_reg) {
                Some(mode) => {
                    let (m, bit_num) = if dynamic {
                        (self, self.cpu.d(((opcode >> 9) & 7) as usize))
                    } else {
                        let (m, w) = self.read_imm_16();
                        (m, w as u32)
                    };
                    let (m, legacy) = m.exec_bit_op(bit_op, bit_num, mode);
                    if m.cpu.model.cpu_type == CpuType::M68000 {
                        (m, bitop_cycles(mode, bit_op, !dynamic, bit_num))
                    } else {
                        (m, legacy)
                    }
                },
                None => (self, ILLEGAL_SENTINEL),
            }
        }
    }

    /// CAS and CAS2 (68020+). The 68060 dropped CAS2.
    #[verifier::opaque]
    pub open spec fn exec_compare_swap(self, opcode: u16) -> (Machine, i32) {
        if crate::types::is_pre_68020(self.cpu.model.cpu_type) {
            (self, ILLEGAL_SENTINEL)
        } else {
            if opcode == 0x0EFC || opcode == 0x0CFC {
                if self.cpu.trap_unimpl_060() {
                    self.take_exception(VECTOR_UNIMPLEMENTED_INTEGER)
                } else {
                    self.run_unit(UnitOp::CompareSwapPair { opcode: opcode })
                }
            } else {
                self.run_unit(UnitOp::CompareSwap { opcode: opcode })
            }
        }
    }

    /// MOVES (68010+). A non-memory operand or an undefined size is illegal,
    /// which wins over the privilege check.
    #[verifier::opaque]
    pub open spec fn exec_moves(self, opcode: u16) -> (Machine, i32) {
        let ea_mode: u16 = (opcode >> 3) & 7;
        let ea_reg: u16 = opcode & 7;
        if self.cpu.model.cpu_type == CpuType::M68000 {
            (self, ILLEGAL_SENTINEL)
        } else {
            if (opcode >> 6) & 3 == 3 || !((2 <= ea_mode && ea_mode <= 6) || (ea_mode == 7 && ea_reg <= 1)) {
                (self, ILLEGAL_SENTINEL)
            } else {
                self.run_unit(UnitOp::AlternateSpaceMove { opcode: opcode })
            }
        }
    }

    /// CALLM and RTM (68020 to 68040).
    #[verifier::opaque]
    pub open spec fn exec_module(self, opcode: u16) -> (Machine, i32) {
        if !crate::types::is_020_to_040(self.cpu.model.cpu_type) {
            (self, ILLEGAL_SENTINEL)
        } else {
            if (opcode & 0xFFF0) == 0x06C0 {
                self.run_unit(UnitOp::ModuleReturn { opcode: opcode })
            } else {
                if !ea_control(((opcode >> 3) & 7) as u8, (opcode & 7) as u8) {
                    (self, ILLEGAL_SENTINEL)
                } else {
                    self.run_unit(UnitOp::ModuleCall { opcode: opcode })
                }
            }
        }
    }

    /// CMP2 and CHK2 (68020+; dropped by the 68060).
    #[verifier::opaque]
    pub open spec fn exec_bounds_check(self, opcode: u16) -> (Machine, i32) {
        if self.cpu.model.is_pre_68020 {
            (self, ILLEGAL_SENTINEL)
        } else {
            if !ea_control(((opcode >> 3) & 7) as u8, (opcode & 7) as u8) {
                (self, ILLEGAL_SENTINEL)
            } else {
                if self.cpu.trap_unimpl_060() {
                    self.take_exception(VECTOR_UNIMPLEMENTED_INTEGER)
                } else {
                    self.run_unit(UnitOp::BoundsCheck { opcode: opcode })
                }
            }
        }
    }

    /// Group 0: bit manipulation, MOVEP, immediate operations.
    #[verifier::opaque]
    pub open spec fn dispatch_group_0(self, opcode: u16) -> (Machine, i32) {
        if opcode == 0x0EFC || opcode == 0x0CFC || (opcode & 0x0FC0) == 0x0AC0 || (opcode & 0x0FC0)
            == 0x0CC0 || (opcode & 0x0FC0) == 0x0EC0 {
            self.exec_compare_swap(opcode)
        } else {
            if (opcode & 0xFF00) == 0x0E00 {
                self.exec_moves(opcode)
            } else {
                if (opcode & 0xFFC0) == 0x06C0 {
                    self.exec_module(opcode)
                } else {
                    if opcode & 0x0800 == 0 && opcode & 0x0100 == 0 && (opcode & 0x00C0) == 0x00C0 && (opcode
            >> 9) & 3 != 3 {
                        self.exec_bounds_check(opcode)
                    } else {
                        if (opcode & 0xF138) == 0x0108 {
                            if self.cpu.trap_unimpl_060() {
                                self.take_exception(VECTOR_UNIMPLEMENTED_INTEGER)
                            } else {
                                self.exec_movep(opcode)
                            }
                        } else {
                            match (opcode >> 8) & 0xF {
                                0x0 => self.exec_logic_group(opcode),
                                0x2 => self.exec_logic_group(opcode),
                                0x4 => self.exec_arith_immediate(opcode, true),
                                0x6 => self.exec_arith_immediate(opcode, false),
                                0xA => self.exec_logic_group(opcode),
                                0xC => self.exec_compare_immediate(opcode),
                                _ => self.exec_bit_group(opcode),
                            }
                        }
                    }
                }
            }
        }
    }
}

impl CpuCore {
    /// Dispatch an instruction based on its opcode.
    pub fn dispatch_instruction<B: AddressBus>(&mut self, bus: &mut B, opcode: u16) -> (r: InternalStepResult)
        ensures
            (Machine::of(*final(self), *final(bus)), r) == Machine::of(*old(self), *old(bus)).dispatch_instruction(opcode),
    {
        proof {
            reveal(Machine::dispatch_instruction);
        }
        let cycles: i32 = match (opcode >> 12) & 0xF {
            0x0 => self.dispatch_group_0(bus, opcode),
            0x1 => self.dispatch_move(bus, opcode, Size::Byte),
            0x2 => self.dispatch_move(bus, opcode, Size::Long),
            0x3 => self.dispatch_move(bus, opcode, Size::Word),
            0x4 => self.dispatch_group_4(bus, opcode),
            0x5 => self.dispatch_group_5(bus, opcode),
            0x6 => self.dispatch_group_6(bus, opcode),
            0x7 => self.dispatch_moveq(opcode),
            0x8 => self.dispatch_group_8(bus, opcode),
            0x9 => self.dispatch_group_9(bus, opcode),
            0xA => ALINE_TRAP_SENTINEL,
            0xB => self.dispatch_group_b(bus, opcode),
            0xC => self.dispatch_group_c(bus, opcode),
            0xD => self.dispatch_group_d(bus, opcode),
            0xE => self.dispatch_group_e(bus, opcode),
            _ => self.dispatch_group_f(bus, opcode),
        };
        interpret_cycles(opcode, cycles)
    }

    /// A coprocessor save or restore that the model would send over the bus.
    pub open spec fn spec_is_coprocessor_state_move(&self, opcode: u16) -> bool {
        let mode: u16 = (opcode >> 3) & 7;
        let reg: u16 = opcode & 7;
        let external_id: bool = (opcode >> 9) & 7 != 0 || !(self.is_040() || self.is_060());
        external_id && (((opcode & 0xF1C0) == 0xF100 && save_mode_valid(mode, reg)) || ((opcode
            & 0xF1C0) == 0xF140 && restore_mode_valid(mode, reg)))
    }

    /// A coprocessor save or restore that the model would send over the bus.
    #[verifier::when_used_as_spec(spec_is_coprocessor_state_move)]
    pub fn is_coprocessor_state_move(&self, opcode: u16) -> (r: bool)
        ensures
            r == self.spec_is_coprocessor_state_move(opcode),
    {
        let mode: u16 = (opcode >> 3) & 7;
        let reg: u16 = opcode & 7;
        let external_id: bool = (opcode >> 9) & 7 != 0 || !(self.is_040() || self.is_060());
        external_id && (((opcode & 0xF1C0) == 0xF100 && save_mode_valid(mode, reg)) || ((opcode
            & 0xF1C0) == 0xF140 && restore_mode_valid(mode, reg)))
    }

    /// CINV and CPUSH: clear the caches named. A push has no dirty data to
    /// write back, and the line and page scopes clear the whole cache too.
    pub fn exec_cache_maintenance<B: AddressBus>(&mut self, bus: &mut B, opcode: u16) -> (r: i32)
        ensures
            (Machine::of(*final(self), *final(bus)), r) == Machine::of(*old(self), *old(bus)).exec_cache_maintenance(opcode),
    {
        proof {
            reveal(Machine::exec_cache_maintenance);
        }
        if (opcode >> 3) & 7 == 0 || (opcode >> 3) & 7 == 4 {
            return FLINE_TRAP_SENTINEL;
        }
        if !self.is_supervisor() {
            return self.take_exception(bus, 8);
        }
        let caches: u16 = (opcode >> 6) & 3;
        if caches & 1 != 0 {
            self.control.cacr_pending_ops = self.control.cacr_pending_ops | crate::cpu::CACR_CD;
        }
        if caches & 2 != 0 {
            self.control.cacr_pending_ops = self.control.cacr_pending_ops | crate::cpu::CACR_CI;
        }
        4
    }

    /// Translate an address in the space that DFC names.
    pub fn translate_for_dfc<B: AddressBus>(&mut self, bus: &mut B, addr: u32, write: bool) -> (r: Result<u32, crate::memory::MmuFault>)
        ensures
            (Machine::of(*final(self), *final(bus)), r) == Machine::of(*old(self), *old(bus)).translate_for_dfc(addr, write),
    {
        proof {
            reveal(Machine::translate_for_dfc);
        }
        let fc: u8 = (self.control.dfc & 7) as u8;
        self.fault.fc_override = Some(fc);
        let translated: Result<u32, crate::memory::MmuFault> = bus.translate(
            self.mmu,
            self.model.cpu_type,
            crate::memory::Translation {
                address: addr,
                write: write,
                supervisor: fc & 4 != 0,
                instruction: false,
                fc_override: Some(fc),
            },
        );
        self.fault.fc_override = None;
        translated
    }

    /// PLPA (68060): replace the logical address in An by the physical one.
    /// On a fault An is untouched, so that the handler can restart it.
    pub fn exec_plpa<B: AddressBus>(&mut self, bus: &mut B, opcode: u16) -> (r: i32)
        ensures
            (Machine::of(*final(self), *final(bus)), r) == Machine::of(*old(self), *old(bus)).exec_plpa(opcode),
    {
        proof {
            reveal(Machine::exec_plpa);
        }
        let write: bool = opcode & 0x0040 == 0;
        let an: usize = (opcode & 7) as usize;
        let addr: u32 = self.a(an);
        match self.translate_for_dfc(bus, addr, write) {
            Ok(phys) => {
                self.set_a(an, phys);
                4
            },
            Err(fault) => {
                self.handle_mmu_fault(bus, fault, write, false, 4);
                50
            },
        }
    }

    /// PTEST (68040): report the page of An in MMUSR.
    pub fn exec_ptest_040<B: AddressBus>(&mut self, bus: &mut B, opcode: u16) -> (r: i32)
        ensures
            (Machine::of(*final(self), *final(bus)), r) == Machine::of(*old(self), *old(bus)).exec_ptest_040(opcode),
    {
        proof {
            reveal(Machine::exec_ptest_040);
        }
        let read: bool = opcode & 0x0020 != 0;
        let addr: u32 = self.a((opcode & 7) as usize);
        match self.translate_for_dfc(bus, addr, !read) {
            Ok(phys) => {
                self.mmu.sr = (phys & 0xFFFF_F000) | 0x0000_0001;
            },
            Err(_fault) => {
                self.mmu.sr = 0;
            },
        }
        self.trace_t0_68040_sync();
        4
    }

    /// PFLUSH, PTEST and PLPA of the 68040 and 68060. Every flush drops all
    /// cached translations.
    pub fn exec_mmu_maintenance<B: AddressBus>(&mut self, bus: &mut B, opcode: u16) -> (r: i32)
        ensures
            (Machine::of(*final(self), *final(bus)), r) == Machine::of(*old(self), *old(bus)).exec_mmu_maintenance(opcode),
    {
        proof {
            reveal(Machine::exec_mmu_maintenance);
        }
        if !mmu_maintenance_exists(self.is_060(), opcode) {
            return FLINE_TRAP_SENTINEL;
        }
        if !self.is_supervisor() {
            return self.take_exception(bus, 8);
        }
        if self.is_060() {
            if (opcode & 0xFFF0) == 0xF580 || (opcode & 0xFFF0) == 0xF5C0 {
                return self.exec_plpa(bus, opcode);
            }
            if opcode & 0x00C0 == 0 {
                self.flush_atc();
                return 4;
            }
            return FLINE_TRAP_SENTINEL;
        }
        if self.is_040() && opcode & 0x0040 != 0 {
            return self.exec_ptest_040(bus, opcode);
        }
        self.flush_atc();
        self.trace_t0_68040_sync();
        4
    }

    /// LPSTOP (68060): stop with a low-power broadcast. A wrong extension word
    /// is an undefined F-line.
    pub fn exec_lpstop<B: AddressBus>(&mut self, bus: &mut B) -> (r: i32)
        ensures
            (Machine::of(*final(self), *final(bus)), r) == Machine::of(*old(self), *old(bus)).exec_lpstop(),
    {
        proof {
            reveal(Machine::exec_lpstop);
        }
        let ext: u16 = self.read_16(bus, self.pc);
        if ext != 0x01C0 {
            return FLINE_TRAP_SENTINEL;
        }
        if !self.is_supervisor() {
            return self.exception_privilege(bus);
        }
        self.read_imm_16(bus);
        let sr: u16 = self.read_imm_16(bus);
        if sr & 0x2000 == 0 {
            return self.exception_privilege(bus);
        }
        self.stop(sr);
        4
    }

    /// Let the floating-point unit execute an instruction; without the unit
    /// it is a line-F opcode.
    pub fn run_fpu<B: AddressBus>(&mut self, bus: &mut B, op: UnitOp) -> (r: i32)
        ensures
            (Machine::of(*final(self), *final(bus)), r) == Machine::of(*old(self), *old(bus)).run_fpu(op),
    {
        proof {
            reveal(Machine::run_fpu);
        }
        match bus.unit(self, op) {
            Some(cycles) => cycles,
            None => FLINE_TRAP_SENTINEL,
        }
    }

    /// FDBcc, FTRAPcc and FScc, which the 68060 dropped.
    pub fn exec_fpu_conditional<B: AddressBus>(&mut self, bus: &mut B, opcode: u16) -> (r: i32)
        ensures
            (Machine::of(*final(self), *final(bus)), r) == Machine::of(*old(self), *old(bus)).exec_fpu_conditional(opcode),
    {
        proof {
            reveal(Machine::exec_fpu_conditional);
        }
        let ea_mode: u8 = ((opcode >> 3) & 7) as u8;
        let ea_reg: u8 = (opcode & 7) as u8;
        if ea_mode == 7 && ea_reg > 4 {
            return FLINE_TRAP_SENTINEL;
        }
        let w2: u16 = self.read_imm_16(bus);
        let cond: u8 = (w2 & 0x3F) as u8;
        if ea_mode == 1 {
            if self.trap_unimpl_060() {
                self.pc = self.pc.wrapping_add(2);
                return self.run_fpu(bus, UnitOp::FpuUnimplemented);
            }
            return self.run_fpu(bus, UnitOp::FpuDecrement { reg: ea_reg, condition: cond });
        }
        if ea_mode == 7 && 2 <= ea_reg && ea_reg <= 4 {
            let operand_words: u8 = match ea_reg {
                2 => 1,
                3 => 2,
                _ => 0,
            };
            if self.trap_unimpl_060() {
                self.pc = self.pc.wrapping_add((operand_words as u32).wrapping_mul(2));
                return self.run_fpu(bus, UnitOp::FpuUnimplemented);
            }
            return self.run_fpu(bus, UnitOp::FpuTrap { condition: cond, operand_words: operand_words });
        }
        if self.trap_unimpl_060() {
            return self.run_fpu(bus, UnitOp::FpuSetUnimplemented { mode: ea_mode, reg: ea_reg });
        }
        self.run_fpu(bus, UnitOp::FpuSet { mode: ea_mode, reg: ea_reg, condition: cond })
    }

    /// Floating-point instructions.
    pub fn dispatch_fpu<B: AddressBus>(&mut self, bus: &mut B, opcode: u16) -> (r: i32)
        ensures
            (Machine::of(*final(self), *final(bus)), r) == Machine::of(*old(self), *old(bus)).dispatch_fpu(opcode),
    {
        proof {
            reveal(Machine::dispatch_fpu);
        }
        if (opcode & 0xFFC0) == 0xF240 {
            return self.exec_fpu_conditional(bus, opcode);
        }
        if (opcode & 0xFFC0) == 0xF280 {
            let disp: u16 = self.read_imm_16(bus);
            return self.run_fpu(bus, UnitOp::FpuBranch { condition: (opcode & 0x3F) as u8, displacement: sext16(disp) });
        }
        if (opcode & 0xFFC0) == 0xF2C0 {
            let disp: u32 = self.read_imm_32(bus);
            return self.run_fpu(bus, UnitOp::FpuBranch { condition: (opcode & 0x3F) as u8, displacement: disp });
        }
        let sub: u16 = (opcode >> 8) & 0xF;
        let cycles: i32 = if sub == 2 {
            self.run_fpu(bus, UnitOp::FpuGeneral { opcode: opcode })
        } else if sub == 3 {
            let mode: u16 = (opcode >> 3) & 7;
            let reg: u16 = opcode & 7;
            if opcode & 0x40 == 0 && !save_mode_valid(mode, reg) || opcode & 0x40 != 0
                && !restore_mode_valid(mode, reg) {
                FLINE_TRAP_SENTINEL
            } else {
                self.run_fpu(bus, UnitOp::FpuState { opcode: opcode })
            }
        } else {
            0
        };
        if cycles != 0 {
            return cycles;
        }
        FLINE_TRAP_SENTINEL
    }

    /// Group F: coprocessors, caches and memory management.
    pub fn dispatch_group_f<B: AddressBus>(&mut self, bus: &mut B, opcode: u16) -> (r: i32)
        ensures
            (Machine::of(*final(self), *final(bus)), r) == Machine::of(*old(self), *old(bus)).dispatch_group_f(opcode),
    {
        proof {
            reveal(Machine::dispatch_group_f);
        }
        if self.model.is_pre_68020 {
            return FLINE_TRAP_SENTINEL;
        }
        // Saves and restores are privileged at decode.
        if !self.is_supervisor() && self.is_coprocessor_state_move(opcode) {
            return self.exception_privilege(bus);
        }
        let on_chip: bool = self.is_040() || self.is_060();
        if !self.fpu.present && (opcode >> 9) & 7 == 1 && !on_chip {
            return FLINE_TRAP_SENTINEL;
        }
        if on_chip && ((opcode & 0xFFE0) == 0xF600 || (opcode & 0xFFF8) == 0xF620) {
            return self.run_fpu(bus, UnitOp::BlockMove { opcode: opcode });
        }
        if on_chip && (opcode >> 8) & 0xF == 4 {
            return self.exec_cache_maintenance(bus, opcode);
        }
        if on_chip && (opcode >> 8) & 0xF == 5 {
            return self.exec_mmu_maintenance(bus, opcode);
        }
        if self.is_060() && opcode == 0xF800 {
            return self.exec_lpstop(bus);
        }
        if (opcode >> 9) & 7 == 0 {
            let cycles: i32 = self.exec_mmu_op0(bus, opcode);
            if cycles != 0 {
                return cycles;
            }
        }
        self.dispatch_fpu(bus, opcode)
    }

    /// MOVE and MOVEA. A byte-sized MOVE cannot source an address register,
    /// and the destination must be data alterable.
    pub fn dispatch_move<B: AddressBus>(&mut self, bus: &mut B, opcode: u16, size: Size) -> (r: i32)
        ensures
            (Machine::of(*final(self), *final(bus)), r) == Machine::of(*old(self), *old(bus)).dispatch_move(opcode, size),
    {
        proof {
            reveal(Machine::dispatch_move);
        }
        let src_reg: u8 = (opcode & 7) as u8;
        let src_mode: u8 = ((opcode >> 3) & 7) as u8;
        let dst_reg: u8 = ((opcode >> 9) & 7) as u8;
        let dst_mode: u8 = ((opcode >> 6) & 7) as u8;
        if size == Size::Byte && src_mode == 1 {
            return ILLEGAL_SENTINEL;
        }
        if dst_mode == 7 && dst_reg > 1 {
            return ILLEGAL_SENTINEL;
        }
        match decode_mode(src_mode, src_reg) {
            Some(src_ea) => {
                match decode_mode(dst_mode, dst_reg) {
                    Some(dst_ea) => {
                        if dst_mode == 1 {
                            if size == Size::Byte {
                                ILLEGAL_SENTINEL
                            } else {
                                self.exec_movea(bus, size, src_ea, dst_reg as usize)
                            }
                        } else {
                            self.exec_move(bus, size, src_ea, dst_ea)
                        }
                    },
                    None => ILLEGAL_SENTINEL,
                }
            },
            None => ILLEGAL_SENTINEL,
        }
    }

    /// MOVEQ requires bit 8 clear.
    #[verifier::opaque]
    pub open spec fn spec_dispatch_moveq(self, opcode: u16) -> (CpuCore, i32) {
        if opcode & 0x0100 != 0 {
            (self, ILLEGAL_SENTINEL)
        } else {
            let data: u32 = sext8((opcode & 0xFF) as u8);
            let c = self.spec_set_d(((opcode >> 9) & 7) as usize, data);
            let c = c.spec_set_logic_flags(data, Size::Long);
            (c, 4)
        }
    }

    /// MOVEQ requires bit 8 clear.
    pub fn dispatch_moveq(&mut self, opcode: u16) -> (r: i32)
        ensures
            (*final(self), r) == old(self).spec_dispatch_moveq(opcode),
    {
        proof {
            reveal(CpuCore::spec_dispatch_moveq);
        }
        if opcode & 0x0100 != 0 {
            return ILLEGAL_SENTINEL;
        }
        let data: u32 = sext8((opcode & 0xFF) as u8);
        self.set_d(((opcode >> 9) & 7) as usize, data);
        self.set_logic_flags(data, Size::Long);
        4
    }

    /// MOVEP: a register to or from every other byte. No flag changes.
    pub fn exec_movep<B: AddressBus>(&mut self, bus: &mut B, opcode: u16) -> (r: i32)
        ensures
            (Machine::of(*final(self), *final(bus)), r) == Machine::of(*old(self), *old(bus)).exec_movep(opcode),
    {
        proof {
            reveal(Machine::exec_movep);
        }
        let dreg: usize = ((opcode >> 9) & 7) as usize;
        let areg: usize = (opcode & 7) as usize;
        let disp: u16 = self.read_imm_16(bus);
        let addr: u32 = self.a(areg).wrapping_add(sext16(disp));
        if opcode & 0x0040 != 0 {
            if opcode & 0x0080 != 0 {
                let v: u32 = self.d(dreg);
                self.write_8(bus, addr, (v >> 24) as u8);
                self.write_8(bus, addr.wrapping_add(2), (v >> 16) as u8);
                self.write_8(bus, addr.wrapping_add(4), (v >> 8) as u8);
                self.write_8(bus, addr.wrapping_add(6), v as u8);
            } else {
                let b0: u8 = self.read_8(bus, addr);
                let b1: u8 = self.read_8(bus, addr.wrapping_add(2));
                let b2: u8 = self.read_8(bus, addr.wrapping_add(4));
                let b3: u8 = self.read_8(bus, addr.wrapping_add(6));
                self.ipl_poll_point(bus);
                self.set_d(dreg, ((b0 as u32) << 24) | ((b1 as u32) << 16) | ((b2 as u32) << 8) | (b3 as u32));
            }
            24
        } else {
            if opcode & 0x0080 != 0 {
                let v: u32 = self.d(dreg);
                self.write_8(bus, addr, (v >> 8) as u8);
                self.write_8(bus, addr.wrapping_add(2), v as u8);
            } else {
                let hi: u8 = self.read_8(bus, addr);
                let lo: u8 = self.read_8(bus, addr.wrapping_add(2));
                self.ipl_poll_point(bus);
                self.write_data_reg(dreg, Size::Word, ((hi as u32) << 8) | (lo as u32));
            }
            16
        }
    }

    /// SUBI and ADDI.
    pub fn exec_arith_immediate<B: AddressBus>(&mut self, bus: &mut B, opcode: u16, is_sub: bool) -> (r: i32)
        ensures
            (Machine::of(*final(self), *final(bus)), r) == Machine::of(*old(self), *old(bus)).exec_arith_immediate(opcode, is_sub),
    {
        proof {
            reveal(Machine::exec_arith_immediate);
        }
        let ea_mode: u8 = ((opcode >> 3) & 7) as u8;
        let ea_reg: u8 = (opcode & 7) as u8;
        if (opcode >> 6) & 3 == 3 {
            return 4;
        }
        if !ea_data_alterable(ea_mode, ea_reg) {
            return ILLEGAL_SENTINEL;
        }
        let size: Size = decode_size_00((opcode >> 6) & 3);
        match decode_mode(ea_mode, ea_reg) {
            Some(mode) => {
                let imm: u32 = self.read_immediate(bus, size);
                if self.faulted() {
                    return 50;
                }
                let ea: EaResult = self.resolve_ea(bus, mode, size);
                let dst: u32 = self.read_resolved_ea(bus, ea, size);
                let done: (u32, i32) = if is_sub {
                    self.exec_sub(size, imm, dst)
                } else {
                    self.exec_add(size, imm, dst)
                };
                self.finish_immediate(bus, ea, size, done.0);
                if self.model.cpu_type == CpuType::M68000 {
                    immediate_alu_cycles(mode, size)
                } else if is_sub {
                    if size == Size::Long {
                        16
                    } else {
                        8
                    }
                } else if size == Size::Long {
                    done.1.wrapping_add(8)
                } else {
                    done.1.wrapping_add(4)
                }
            },
            None => ILLEGAL_SENTINEL,
        }
    }

    /// CMPI. The 68020 and later also compare with PC-relative operands.
    pub fn exec_compare_immediate<B: AddressBus>(&mut self, bus: &mut B, opcode: u16) -> (r: i32)
        ensures
            (Machine::of(*final(self), *final(bus)), r) == Machine::of(*old(self), *old(bus)).exec_compare_immediate(opcode),
    {
        proof {
            reveal(Machine::exec_compare_immediate);
        }
        let ea_mode: u8 = ((opcode >> 3) & 7) as u8;
        let ea_reg: u8 = (opcode & 7) as u8;
        let pc_rel_ok: bool = !self.model.is_pre_68020 && ea_mode == 7 && (ea_reg == 2 || ea_reg == 3);
        if !ea_data_alterable(ea_mode, ea_reg) && !pc_rel_ok {
            return ILLEGAL_SENTINEL;
        }
        let size: Size = decode_size_00((opcode >> 6) & 3);
        match decode_mode(ea_mode, ea_reg) {
            Some(mode) => {
                let imm: u32 = self.read_immediate(bus, size);
                if self.faulted() {
                    return 50;
                }
                let dst: u32 = self.read_ea(bus, mode, size);
                if self.faulted() {
                    return 50;
                }
                if self.model.cpu_type == CpuType::M68000 {
                    self.top_up_prefetch(bus);
                    self.ipl_poll_point(bus);
                    if self.faulted() {
                        return 50;
                    }
                    if crate::ea::is_register_direct(mode) && size == Size::Long {
                        self.internal_cycles(2);
                        self.flush_sync(bus);
                    }
                }
                let legacy: i32 = self.exec_compare(size, imm, dst);
                if self.model.cpu_type == CpuType::M68000 {
                    compare_immediate_cycles(mode, size)
                } else {
                    legacy
                }
            },
            None => ILLEGAL_SENTINEL,
        }
    }

    /// ORI, ANDI and EORI, including the forms on CCR and SR, which are told
    /// apart by the size field.
    pub fn exec_logic_group<B: AddressBus>(&mut self, bus: &mut B, opcode: u16) -> (r: i32)
        ensures
            (Machine::of(*final(self), *final(bus)), r) == Machine::of(*old(self), *old(bus)).exec_logic_group(opcode),
    {
        proof {
            reveal(Machine::exec_logic_group);
        }
        let operation: u16 = (opcode >> 8) & 0xF;
        let ea_mode: u8 = ((opcode >> 3) & 7) as u8;
        let ea_reg: u8 = (opcode & 7) as u8;
        if ea_mode == 7 && ea_reg == 4 && (opcode >> 6) & 3 == 0 {
            return self.exec_logic_ccr(bus, operation);
        }
        if ea_mode == 7 && ea_reg == 4 && (opcode >> 6) & 3 == 1 {
            return self.exec_logic_sr(bus, operation);
        }
        if !ea_data_alterable(ea_mode, ea_reg) {
            return ILLEGAL_SENTINEL;
        }
        let size: Size = decode_size_00((opcode >> 6) & 3);
        match decode_mode(ea_mode, ea_reg) {
            Some(mode) => {
                let legacy: i32 = self.exec_logic_immediate(bus, operation, size, mode);
                if self.model.cpu_type == CpuType::M68000 {
                    immediate_alu_cycles(mode, size)
                } else {
                    legacy
                }
            },
            None => ILLEGAL_SENTINEL,
        }
    }

    /// BTST, BCHG, BCLR and BSET with the bit number in a register or in an
    /// extension word. BTST takes any data addressing mode, its dynamic form
    /// even an immediate; the modifying forms need a data alterable operand.
    pub fn exec_bit_group<B: AddressBus>(&mut self, bus: &mut B, opcode: u16) -> (r: i32)
        ensures
            (Machine::of(*final(self), *final(bus)), r) == Machine::of(*old(self), *old(bus)).exec_bit_group(opcode),
    {
        proof {
            reveal(Machine::exec_bit_group);
        }
        let ea_mode: u8 = ((opcode >> 3) & 7) as u8;
        let ea_reg: u8 = (opcode & 7) as u8;
        let bit_op: u16 = (opcode >> 6) & 3;
        let dynamic: bool = opcode & 0x100 != 0;
        let ea_ok: bool = if bit_op == 0 {
            ea_mode == 0 || (2 <= ea_mode && ea_mode <= 6) || (ea_mode == 7 && (ea_reg <= 3 || (
            dynamic && ea_reg == 4)))
        } else {
            ea_data_alterable(ea_mode, ea_reg)
        };
        if !ea_ok {
            return ILLEGAL_SENTINEL;
        }
        match decode_mode(ea_mode, ea_reg) {
            Some(mode) => {
                let bit_num: u32 = if dynamic {
                    self.d(((opcode >> 9) & 7) as usize)
                } else {
                    let w: u16 = self.read_imm_16(bus);
                    w as u32
                };
                let legacy: i32 = self.exec_bit_op(bus, bit_op, bit_num, mode);
                if self.model.cpu_type == CpuType::M68000 {
                    bitop_cycles(mode, bit_op, !dynamic, bit_num)
                } else {
                    legacy
                }
            },
            None => ILLEGAL_SENTINEL,
        }
    }

    /// CAS and CAS2 (68020+). The 68060 dropped CAS2.
    pub fn exec_compare_swap<B: AddressBus>(&mut self, bus: &mut B, opcode: u16) -> (r: i32)
        ensures
            (Machine::of(*final(self), *final(bus)), r) == Machine::of(*old(self), *old(bus)).exec_compare_swap(opcode),
    {
        proof {
            reveal(Machine::exec_compare_swap);
        }
        if crate::types::is_pre_68020(self.model.cpu_type) {
            return ILLEGAL_SENTINEL;
        }
        if opcode == 0x0EFC || opcode == 0x0CFC {
            if self.trap_unimpl_060() {
                return self.take_exception(bus, VECTOR_UNIMPLEMENTED_INTEGER);
            }
            return self.run_unit(bus, UnitOp::CompareSwapPair { opcode: opcode });
        }
        self.run_unit(bus, UnitOp::CompareSwap { opcode: opcode })
    }

    /// MOVES (68010+). A non-memory operand or an undefined size is illegal,
    /// which wins over the privilege check.
    pub fn exec_moves<B: AddressBus>(&mut self, bus: &mut B, opcode: u16) -> (r: i32)
        ensures
            (Machine::of(*final(self), *final(bus)), r) == Machine::of(*old(self), *old(bus)).exec_moves(opcode),
    {
        proof {
            reveal(Machine::exec_moves);
        }
        let ea_mode: u16 = (opcode >> 3) & 7;
        let ea_reg: u16 = opcode & 7;
        if self.model.cpu_type == CpuType::M68000 {
            return ILLEGAL_SENTINEL;
        }
        if (opcode >> 6) & 3 == 3 || !((2 <= ea_mode && ea_mode <= 6) || (ea_mode == 7 && ea_reg <= 1)) {
            return ILLEGAL_SENTINEL;
        }
        self.run_unit(bus, UnitOp::AlternateSpaceMove { opcode: opcode })
    }

    /// CALLM and RTM (68020 to 68040).
    pub fn exec_module<B: AddressBus>(&mut self, bus: &mut B, opcode: u16) -> (r: i32)
        ensures
            (Machine::of(*final(self), *final(bus)), r) == Machine::of(*old(self), *old(bus)).exec_module(opcode),
    {
        proof {
            reveal(Machine::exec_module);
        }
        if !crate::types::is_020_to_040(self.model.cpu_type) {
            return ILLEGAL_SENTINEL;
        }
        if (opcode & 0xFFF0) == 0x06C0 {
            return self.run_unit(bus, UnitOp::ModuleReturn { opcode: opcode });
        }
        if !ea_control(((opcode >> 3) & 7) as u8, (opcode & 7) as u8) {
            return ILLEGAL_SENTINEL;
        }
        self.run_unit(bus, UnitOp::ModuleCall { opcode: opcode })
    }

    /// CMP2 and CHK2 (68020+; dropped by the 68060).
    pub fn exec_bounds_check<B: AddressBus>(&mut self, bus: &mut B, opcode: u16) -> (r: i32)
        ensures
            (Machine::of(*final(self), *final(bus)), r) == Machine::of(*old(self), *old(bus)).exec_bounds_check(opcode),
    {
        proof {
            reveal(Machine::exec_bounds_check);
        }
        if self.model.is_pre_68020 {
            return ILLEGAL_SENTINEL;
        }
        if !ea_control(((opcode >> 3) & 7) as u8, (opcode & 7) as u8) {
            return ILLEGAL_SENTINEL;
        }
        if self.trap_unimpl_060() {
            return self.take_exception(bus, VECTOR_UNIMPLEMENTED_INTEGER);
        }
        self.run_unit(bus, UnitOp::BoundsCheck { opcode: opcode })
    }

    /// Group 0: bit manipulation, MOVEP, immediate operations.
    pub fn dispatch_group_0<B: AddressBus>(&mut self, bus: &mut B, opcode: u16) -> (r: i32)
        ensures
            (Machine::of(*final(self), *final(bus)), r) == Machine::of(*old(self), *old(bus)).dispatch_group_0(opcode),
    {
        proof {
            reveal(Machine::dispatch_group_0);
        }
        if opcode == 0x0EFC || opcode == 0x0CFC || (opcode & 0x0FC0) == 0x0AC0 || (opcode & 0x0FC0)
            == 0x0CC0 || (opcode & 0x0FC0) == 0x0EC0 {
            return self.exec_compare_swap(bus, opcode);
        }
        if (opcode & 0xFF00) == 0x0E00 {
            return self.exec_moves(bus, opcode);
        }
        if (opcode & 0xFFC0) == 0x06C0 {
            return self.exec_module(bus, opcode);
        }
        // Bit 11 tells CMP2/CHK2 from the bit operations.
        if opcode & 0x0800 == 0 && opcode & 0x0100 == 0 && (opcode & 0x00C0) == 0x00C0 && (opcode
            >> 9) & 3 != 3 {
            return self.exec_bounds_check(bus, opcode);
        }
        if (opcode & 0xF138) == 0x0108 {
            if self.trap_unimpl_060() {
                return self.take_exception(bus, VECTOR_UNIMPLEMENTED_INTEGER);
            }
            return self.exec_movep(bus, opcode);
        }
        match (opcode >> 8) & 0xF {
            0x0 => self.exec_logic_group(bus, opcode),
            0x2 => self.exec_logic_group(bus, opcode),
            0x4 => self.exec_arith_immediate(bus, opcode, true),
            0x6 => self.exec_arith_immediate(bus, opcode, false),
            0xA => self.exec_logic_group(bus, opcode),
            0xC => self.exec_compare_immediate(bus, opcode),
            _ => self.exec_bit_group(bus, opcode),
        }
    }
}

} // verus!
