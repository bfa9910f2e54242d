//! Dispatch of group 4: system control, returns, and the miscellaneous
//! one-operand instructions.

use vstd::prelude::*;
use crate::cpu::{CpuCore, FaultState, PrefetchState, RunState};
use crate::decode_arith::{decode_size_00, ea_control, ea_data_alterable};
use crate::ea::{decode_mode, is_register_direct, AddressingMode, EaResult};
use crate::exceptions::{VECTOR_FORMAT_ERROR, VECTOR_TRAPV};
use crate::instructions::{BKPT_SENTINEL_BASE, ILLEGAL_SENTINEL, TRAP_SENTINEL_BASE};
use crate::machine::Machine;
use crate::memory::{AddressBus, UnitOp};
use crate::prefetch::sext16;
use crate::timing::{
    control_addr_calc_cycles, ea_calc_cycles, ea_source_cycles, jump_addr_calc_cycles,
    jump_internal_clocks, tst_cycles, unary_rmw_cycles,
};
use crate::types::{is_pre_68020, CpuType, Size};

verus! {

/// Whether a model implements a control register. A MOVEC that names any
/// other is an illegal instruction.
pub open spec fn spec_movec_reg_legal(cpu_type: CpuType, ctrl_reg: u16) -> bool {
    match cpu_type {
        CpuType::M68010 | CpuType::SCC68070 => ctrl_reg <= 0x001 || ctrl_reg == 0x800 || ctrl_reg == 0x801,
        CpuType::M68EC020 | CpuType::M68020 | CpuType::M68EC030 | CpuType::M68030 => ctrl_reg <= 0x002 || (0x800 <= ctrl_reg && ctrl_reg <= 0x804),
        CpuType::M68EC040 => {
            ctrl_reg <= 0x002 || (0x004 <= ctrl_reg && ctrl_reg <= 0x007) || ctrl_reg == 0x800
            || ctrl_reg == 0x801 || ctrl_reg == 0x803 || ctrl_reg == 0x804
        },
        CpuType::M68LC040 | CpuType::M68040 => {
            ctrl_reg <= 0x007 || ctrl_reg == 0x800 || ctrl_reg == 0x801 || (0x803 <= ctrl_reg
            && ctrl_reg <= 0x807)
        },
        CpuType::M68060 => {
            ctrl_reg <= 0x008 || ctrl_reg == 0x800 || ctrl_reg == 0x801 || (0x806 <= ctrl_reg
            && ctrl_reg <= 0x808)
        },
        CpuType::M68000 | CpuType::Invalid => false,
    }
}

/// Whether a model implements a control register. A MOVEC that names any
/// other is an illegal instruction.
#[verifier::when_used_as_spec(spec_movec_reg_legal)]
pub fn movec_reg_legal(cpu_type: CpuType, ctrl_reg: u16) -> (r: bool)
    ensures
        r == spec_movec_reg_legal(cpu_type, ctrl_reg),
{
    match cpu_type {
        CpuType::M68010 | CpuType::SCC68070 => {
            ctrl_reg <= 0x001 || ctrl_reg == 0x800 || ctrl_reg == 0x801
        },
        CpuType::M68EC020 | CpuType::M68020 | CpuType::M68EC030 | CpuType::M68030 => {
            ctrl_reg <= 0x002 || (0x800 <= ctrl_reg && ctrl_reg <= 0x804)
        },
        CpuType::M68EC040 => {
            ctrl_reg <= 0x002 || (0x004 <= ctrl_reg && ctrl_reg <= 0x007) || ctrl_reg == 0x800
                || ctrl_reg == 0x801 || ctrl_reg == 0x803 || ctrl_reg == 0x804
        },
        CpuType::M68LC040 | CpuType::M68040 => {
            ctrl_reg <= 0x007 || ctrl_reg == 0x800 || ctrl_reg == 0x801 || (0x803 <= ctrl_reg
                && ctrl_reg <= 0x807)
        },
        CpuType::M68060 => {
            ctrl_reg <= 0x008 || ctrl_reg == 0x800 || ctrl_reg == 0x801 || (0x806 <= ctrl_reg
                && ctrl_reg <= 0x808)
        },
        CpuType::M68000 | CpuType::Invalid => false,
    }
}

/// Internal clocks of MOVE from CCR to memory on the 68010.
pub open spec fn spec_move_ccr_internal(mode: AddressingMode) -> u32 {
    match mode {
        AddressingMode::AddressIndirect(_) => 2,
        AddressingMode::PostIncrement(_) => 4,
        AddressingMode::PreDecrement(_) => 2,
        _ => 0,
    }
}

/// Internal clocks of MOVE from CCR to memory on the 68010.
#[verifier::when_used_as_spec(spec_move_ccr_internal)]
pub fn move_ccr_internal(mode: AddressingMode) -> (r: u32)
    ensures
        r == spec_move_ccr_internal(mode),
{
    match mode {
        AddressingMode::AddressIndirect(_) => 2,
        AddressingMode::PostIncrement(_) => 4,
        AddressingMode::PreDecrement(_) => 2,
        _ => 0,
    }
}

/// The longest chain of throwaway frames that RTE follows. Eight bytes a
/// frame, such a chain passes over the address space several times.
pub const RTE_CHAIN_LIMIT: u32 = 0xFFFF_FFFF;

impl Machine {
    /// Write a word into the low half of a data register after the final
    /// prefetch and its IPL poll. False when the prefetch faulted.
    #[verifier::opaque]
    pub open spec fn prefetch_and_poll(self) -> (Machine, bool) {
        if self.cpu.prefetch_enabled() {
            let m = self.top_up_prefetch();
            let m = m.ipl_poll_point();
            if m.cpu.faulted() {
                (m, false)
            } else {
                (m, true)
            }
        } else {
            (self, true)
        }
    }

    /// MOVE from SR: privileged on the 68010 and later. The 68000 reads a
    /// memory destination before it writes it.
    #[verifier::opaque]
    pub open spec fn exec_move_from_sr(self, opcode: u16) -> (Machine, i32) {
        let ea_mode: u8 = ((opcode >> 3) & 7) as u8;
        let ea_reg: u8 = (opcode & 7) as u8;
        if !ea_data_alterable(ea_mode, ea_reg) {
            (self, ILLEGAL_SENTINEL)
        } else {
            if self.cpu.model.cpu_type != CpuType::M68000 && !self.cpu.is_supervisor() {
                self.exception_privilege()
            } else {
                let sr: u32 = self.cpu.get_sr() as u32;
                match decode_mode(ea_mode, ea_reg) {
                    Some(mode) => {
                        if ea_mode == 0 && self.cpu.model.cpu_type == CpuType::M68000 {
                            let (m, v1) = self.finish_m68000_tail_after_final_prefetch(2);
                            if !v1 {
                                (m, 50)
                            } else {
                                let m = m.on_cpu(m.cpu.spec_write_data_reg(ea_reg as usize, Size::Word, sr));
                                (m, 6)
                            }
                        } else {
                            if ea_mode == 0 && is_pre_68020(self.cpu.model.cpu_type) {
                                let (m, v2) = self.prefetch_and_poll();
                                if !v2 {
                                    (m, 50)
                                } else {
                                    let m = m.on_cpu(m.cpu.spec_write_data_reg(ea_reg as usize, Size::Word, sr));
                                    (m, 4)
                                }
                            } else {
                                let (m, ea) = self.resolve_ea(mode, Size::Word);
                                if m.cpu.faulted() {
                                    (m, 50)
                                } else {
                                    if m.cpu.model.cpu_type == CpuType::M68000 {
                                        let m = m.read_resolved_ea(ea, Size::Word).0;
                                        if m.cpu.faulted() {
                                            (m, 50)
                                        } else {
                                            let m = m.write_resolved_ea(ea, Size::Word, sr);
                                            if is_register_direct(mode) {
                                                (m, 6)
                                            } else if m.cpu.model.cpu_type == CpuType::M68000 {
                                                (m, ea_source_cycles(mode, Size::Word).wrapping_add(8))
                                            } else {
                                                (m, 8)
                                            }
                                        }
                                    } else {
                                        let m = m.write_resolved_ea(ea, Size::Word, sr);
                                        if is_register_direct(mode) {
                                            (m, 6)
                                        } else if m.cpu.model.cpu_type == CpuType::M68000 {
                                            (m, ea_source_cycles(mode, Size::Word).wrapping_add(8))
                                        } else {
                                            (m, 8)
                                        }
                                    }
                                }
                            }
                        }
                    },
                    None => (self, ILLEGAL_SENTINEL),
                }
            }
        }
    }

    /// MOVE from CCR (68010+). A register costs only the final prefetch, which
    /// precedes the write; memory is written after it too.
    #[verifier::opaque]
    pub open spec fn exec_move_from_ccr(self, opcode: u16) -> (Machine, i32) {
        let ea_mode: u8 = ((opcode >> 3) & 7) as u8;
        let ea_reg: u8 = (opcode & 7) as u8;
        if self.cpu.model.cpu_type == CpuType::M68000 || !ea_data_alterable(ea_mode, ea_reg) {
            (self, ILLEGAL_SENTINEL)
        } else {
            let ccr: u32 = self.cpu.get_ccr() as u32;
            match decode_mode(ea_mode, ea_reg) {
                Some(mode) => {
                    if ea_mode == 0 {
                        let (m, v1) = self.prefetch_and_poll();
                        if !v1 {
                            (m, 50)
                        } else {
                            let m = m.on_cpu(m.cpu.spec_write_data_reg(ea_reg as usize, Size::Word, ccr));
                            (m, 4)
                        }
                    } else {
                        let m = self.on_cpu(self.cpu.spec_internal_cycles(move_ccr_internal(mode)));
                        let (m, ea) = m.resolve_ea(mode, Size::Word);
                        let m = m.write_resolved_ea(ea, Size::Word, ccr);
                        (m, ea_calc_cycles(mode).wrapping_add(8).wrapping_add(move_ccr_internal(mode) as i32))
                    }
                },
                None => (self, ILLEGAL_SENTINEL),
            }
        }
    }

    /// CHK: word on every model, long on the 68020 and later. The 68000 pays
    /// the operand fetch whether or not the check traps.
    #[verifier::opaque]
    pub open spec fn exec_chk_group(self, opcode: u16, size: Size) -> (Machine, i32) {
        let ea_mode: u8 = ((opcode >> 3) & 7) as u8;
        if ea_mode == 1 || size == Size::Long && self.cpu.model.is_pre_68020 {
            (self, ILLEGAL_SENTINEL)
        } else {
            match decode_mode(ea_mode, (opcode & 7) as u8) {
                Some(mode) => {
                    let (m, bound) = self.read_ea(mode, size);
                    let (m, cycles) = m.exec_chk(size, bound, ((opcode >> 9) & 7) as usize);
                    if m.cpu.model.cpu_type == CpuType::M68000 {
                        (m, cycles.wrapping_add(ea_source_cycles(mode, size)))
                    } else {
                        (m, cycles)
                    }
                },
                None => (self, ILLEGAL_SENTINEL),
            }
        }
    }

    /// RESET: assert the line for 128 internal clocks.
    #[verifier::opaque]
    pub open spec fn exec_reset(self) -> (Machine, i32) {
        if !self.cpu.is_supervisor() {
            self.exception_privilege()
        } else {
            let m = self.on_cpu(self.cpu.spec_internal_cycles(128));
            let m = m.bus_reset_devices();
            (m, 132)
        }
    }

    /// STOP: load the status register as it is written and stop. The operand
    /// is consumed without a prefetch. The 68060 refuses a status register
    /// with S clear.
    #[verifier::opaque]
    pub open spec fn exec_stop(self) -> (Machine, i32) {
        if !self.cpu.is_supervisor() {
            self.exception_privilege()
        } else {
            let m = self.on_cpu(CpuCore { queue: PrefetchState { consume_without_prefetch: true, ..self.cpu.queue }, ..self.cpu });
            let (m, sr) = m.read_imm_16();
            let m = m.on_cpu(CpuCore { queue: PrefetchState { consume_without_prefetch: false, ..m.cpu.queue }, ..m.cpu });
            if m.cpu.is_060() && sr & 0x2000 == 0 {
                let m = m.on_cpu(CpuCore { ppc: m.cpu.pc, ..m.cpu });
                m.exception_privilege()
            } else {
                let m = m.on_cpu(m.cpu.spec_stop(sr));
                (m, 4)
            }
        }
    }

    /// HALT (68060).
    #[verifier::opaque]
    pub open spec fn exec_halt(self) -> (Machine, i32) {
        if !self.cpu.is_supervisor() {
            self.exception_privilege()
        } else {
            let m = self.on_cpu(CpuCore { run: RunState { stopped: 1, ..self.cpu.run }, ..self.cpu });
            (m, 4)
        }
    }

    /// Pull SR, PC and format word, then drop the rest of a frame.
    #[verifier::opaque]
    pub open spec fn unstack_frame(self, rest: u32) -> Machine {
        let (m, sr) = self.pull_16();
        let (m, pc) = m.pull_32();
        let m = m.on_cpu(CpuCore { pc: pc, ..m.cpu });
        let m = m.pull_16().0;
        let m = m.on_cpu(CpuCore { dar: vstd::array::spec_array_update(m.cpu.dar, (15) as int, m.cpu.dar[15].wrapping_add(rest)), ..m.cpu });
        let m = m.on_cpu(m.cpu.spec_set_sr(sr));
        m
    }

    /// RTE on the 68000.
    #[verifier::opaque]
    pub open spec fn exec_rte_68000(self) -> (Machine, i32) {
        let (m, sr) = self.pull_16();
        let (m, pc) = m.pull_32();
        let m = m.on_cpu(CpuCore { pc: pc, ..m.cpu });
        let m = m.on_cpu(m.cpu.spec_set_sr(sr));
        let m = m.full_prefetch();
        (m, 20)
    }

    /// RTE on the 68010: a short frame, or the 29-word fault frame, whose
    /// fault information is dropped. The format word of a short frame is not
    /// read again.
    #[verifier::opaque]
    pub open spec fn exec_rte_68010(self) -> (Machine, i32) {
        let (m, word) = self.read_16(self.cpu.a(7).wrapping_add(6));
        let format: u16 = word >> 12;
        if format == 8 {
            let m = m.unstack_frame(50);
            let m = m.full_prefetch();
            (m, 20)
        } else {
            if format != 0 {
                m.take_exception(VECTOR_FORMAT_ERROR)
            } else {
                let (m, sr) = m.pull_16();
                let (m, pc) = m.pull_32();
                let m = m.on_cpu(CpuCore { pc: pc, ..m.cpu });
                let m = m.on_cpu(CpuCore { dar: vstd::array::spec_array_update(m.cpu.dar, (15) as int, m.cpu.dar[15].wrapping_add(2)), ..m.cpu });
                let m = m.on_cpu(m.cpu.spec_set_sr(sr));
                let m = m.full_prefetch();
                (m, 24)
            }
        }
    }

    /// A 68040 fault frame at the stack pointer: a handler that cleared the
    /// valid bit of the third write-back slot has absorbed the write.
    #[verifier::opaque]
    pub open spec fn note_absorbed_write_040(self) -> Machine {
        let sp: u32 = self.cpu.a(7);
        let (m, ssw) = self.read_16(sp.wrapping_add(0x0C));
        if ssw & 0x0100 == 0 && ssw & 0x0400 != 0 {
            let (m, wb3s) = m.read_16(sp.wrapping_add(0x0E));
            if wb3s & 0x0080 == 0 {
                let (m, wb3a) = m.read_32(sp.wrapping_add(0x18));
                let m = m.on_cpu(CpuCore { fault: FaultState { write_suppress: Some(wb3a), ..m.cpu.fault }, ..m.cpu });
                m
            } else {
                m
            }
        } else {
            m
        }
    }

    /// A long 68030 fault frame at the stack pointer: a handler that cleared
    /// the data-fault bit has completed the data cycle. It supplies the value
    /// of a read in the data input buffer, and has absorbed a write.
    #[verifier::opaque]
    pub open spec fn note_completed_cycle_030(self) -> Machine {
        let sp: u32 = self.cpu.a(7);
        let (m, ssw) = self.read_16(sp.wrapping_add(0x0A));
        if ssw & 0x0100 == 0 && ssw & 0xF000 == 0 {
            let (m, fa) = m.read_32(sp.wrapping_add(0x10));
            if ssw & 0x0040 != 0 {
                let (m, dib) = m.read_32(sp.wrapping_add(0x2C));
                let m = m.on_cpu(CpuCore { fault: FaultState { read_override: Some((fa, dib)), ..m.cpu.fault }, ..m.cpu });
                m
            } else {
                let m = m.on_cpu(CpuCore { fault: FaultState { write_suppress: Some(fa), ..m.cpu.fault }, ..m.cpu });
                m
            }
        } else {
            m
        }
    }

    /// One frame of RTE on the 68020 and later. A throwaway frame gives no
    /// result: the frame below it follows.
    #[verifier::opaque]
    pub open spec fn rte_frame_68020(self) -> (Machine, Option<i32>) {
        let (m, word) = self.read_16(self.cpu.a(7).wrapping_add(6));
        let format: u16 = word >> 12;
        let is_020_030: bool = m.cpu.model.cpu_type == CpuType::M68EC020 || m.cpu.model.cpu_type
            == CpuType::M68020 || m.cpu.model.cpu_type == CpuType::M68EC030 || m.cpu.model.cpu_type
            == CpuType::M68030;
        if format == 0 {
            let m = m.unstack_frame(0);
            (m, Some(20))
        } else {
            if format == 1 {
                let (m, sr) = m.pull_16();
                let m = m.on_cpu(CpuCore { dar: vstd::array::spec_array_update(m.cpu.dar, (15) as int, m.cpu.dar[15].wrapping_add(6)), ..m.cpu });
                let m = m.on_cpu(m.cpu.spec_set_sr(sr));
                (m, None)
            } else {
                if format == 2 {
                    let m = m.unstack_frame(4);
                    (m, Some(20))
                } else {
                    if format == 4 && m.cpu.is_060() {
                        let m = m.unstack_frame(8);
                        (m, Some(20))
                    } else {
                        if format == 7 && m.cpu.is_040() {
                            let m = m.note_absorbed_write_040();
                            let m = m.unstack_frame(52);
                            (m, Some(20))
                        } else {
                            if format == 0xA && is_020_030 {
                                let m = m.unstack_frame(24);
                                (m, Some(20))
                            } else {
                                if format == 0xB && is_020_030 {
                                    let m = m.note_completed_cycle_030();
                                    let m = m.unstack_frame(84);
                                    (m, Some(20))
                                } else {
                                    let (m, cycles) = m.take_exception(VECTOR_FORMAT_ERROR);
                                    (m, Some(cycles))
                                }
                            }
                        }
                    }
                }
            }
        }
    }

    /// RTE.
    #[verifier::opaque]
    pub open spec fn exec_rte(self) -> (Machine, i32) {
        if !self.cpu.is_supervisor() {
            self.exception_privilege()
        } else {
            if self.cpu.model.cpu_type == CpuType::M68000 {
                self.exec_rte_68000()
            } else {
                if is_pre_68020(self.cpu.model.cpu_type) {
                    self.exec_rte_68010()
                } else {
                    self.exec_rte_68020()
                }
            }
        }
    }

    /// RTD (68010+): return and drop the arguments.
    #[verifier::opaque]
    pub open spec fn exec_rtd(self) -> (Machine, i32) {
        if self.cpu.model.cpu_type == CpuType::M68000 {
            (self, ILLEGAL_SENTINEL)
        } else {
            let (m, disp) = self.read_imm_16();
            let (m, pc) = m.pull_32();
            let m = m.on_cpu(CpuCore { pc: pc, ..m.cpu });
            let m = m.on_cpu(CpuCore { dar: vstd::array::spec_array_update(m.cpu.dar, (15) as int, m.cpu.dar[15].wrapping_add(sext16(disp))), ..m.cpu });
            let m = m.full_prefetch();
            (m, 20)
        }
    }

    /// RTS.
    #[verifier::opaque]
    pub open spec fn exec_rts(self) -> (Machine, i32) {
        let m = self.on_cpu(CpuCore { run: RunState { change_of_flow: true, ..self.cpu.run }, ..self.cpu });
        let (m, pc) = m.pull_32();
        let m = m.on_cpu(CpuCore { pc: pc, ..m.cpu });
        let m = m.full_prefetch();
        (m, 16)
    }

    /// RTR.
    #[verifier::opaque]
    pub open spec fn exec_rtr(self) -> (Machine, i32) {
        let (m, word) = self.pull_16();
        let m = m.on_cpu(m.cpu.spec_set_ccr(word as u8));
        let m = m.on_cpu(CpuCore { run: RunState { change_of_flow: true, ..m.cpu.run }, ..m.cpu });
        let (m, pc) = m.pull_32();
        let m = m.on_cpu(CpuCore { pc: pc, ..m.cpu });
        let m = m.full_prefetch();
        (m, 20)
    }

    /// TRAPV. When it traps, the 68000 first reads the word it would have
    /// prefetched.
    #[verifier::opaque]
    pub open spec fn exec_trapv(self) -> (Machine, i32) {
        if !self.cpu.flag_v() {
            (self, 4)
        } else {
            let m = if self.cpu.model.cpu_type == CpuType::M68000 {
                let m = self.read_16(self.cpu.pc.wrapping_add(2)).0;
                m
            } else {
                self
            };
            m.take_group2_exception(VECTOR_TRAPV)
        }
    }

    /// MOVEC (68010+). Privilege is checked before the extension word is
    /// examined, but for the 68060, which reports an undefined register as
    /// illegal even in user mode.
    #[verifier::opaque]
    pub open spec fn exec_movec(self, to_control: bool) -> (Machine, i32) {
        if self.cpu.model.cpu_type == CpuType::M68000 {
            (self, ILLEGAL_SENTINEL)
        } else {
            if !self.cpu.is_supervisor() && !self.cpu.is_060() {
                self.exception_privilege()
            } else {
                let (m, ext) = self.read_imm_16();
                let reg_num: usize = ((ext >> 12) & 7) as usize;
                let ctrl_reg: u16 = ext & 0xFFF;
                if !movec_reg_legal(m.cpu.model.cpu_type, ctrl_reg) {
                    (m, ILLEGAL_SENTINEL)
                } else {
                    if !m.cpu.is_supervisor() {
                        m.exception_privilege()
                    } else {
                        let m = if to_control {
                            let value: u32 = if ext & 0x8000 == 0 {
                                m.cpu.d(reg_num)
                            } else {
                                m.cpu.a(reg_num)
                            };
                            let m = m.on_cpu(m.cpu.spec_write_control_register(ctrl_reg, value));
                            m
                        } else {
                            let value: u32 = m.cpu.read_control_register(ctrl_reg);
                            if ext & 0x8000 == 0 {
                                let m = m.on_cpu(m.cpu.spec_set_d(reg_num, value));
                                m
                            } else {
                                let m = m.on_cpu(m.cpu.spec_set_a(reg_num, value));
                                m
                            }
                        };
                        let m = m.on_cpu(m.cpu.spec_trace_t0_68040_sync());
                        (m, 12)
                    }
                }
            }
        }
    }

    /// NEGX, CLR, NEG and NOT, by the operation field of the opcode.
    #[verifier::opaque]
    pub open spec fn exec_unary_group(self, opcode: u16) -> (Machine, i32) {
        let size: Size = decode_size_00((opcode >> 6) & 3);
        let ea_mode: u8 = ((opcode >> 3) & 7) as u8;
        let ea_reg: u8 = (opcode & 7) as u8;
        if !ea_data_alterable(ea_mode, ea_reg) {
            (self, ILLEGAL_SENTINEL)
        } else {
            match decode_mode(ea_mode, ea_reg) {
                Some(mode) => {
                    let (m, legacy) = match (opcode >> 8) & 0xF {
                        0x0 => self.exec_negx(size, mode),
                        0x2 => self.exec_clr(size, mode),
                        0x4 => self.exec_neg(size, mode),
                        _ => self.exec_not(size, mode),
                    };
                    if m.cpu.model.cpu_type == CpuType::M68000 {
                        (m, unary_rmw_cycles(mode, size))
                    } else {
                        (m, legacy)
                    }
                },
                None => (self, ILLEGAL_SENTINEL),
            }
        }
    }

    /// MOVE to CCR and MOVE to SR: data addressing only, which is checked
    /// before the privilege. The internal clocks of the status write pass
    /// before the register changes; then the queue is refilled.
    #[verifier::opaque]
    pub open spec fn exec_move_to_status(self, opcode: u16, whole: bool) -> (Machine, i32) {
        let ea_mode: u8 = ((opcode >> 3) & 7) as u8;
        if ea_mode == 1 {
            (self, ILLEGAL_SENTINEL)
        } else {
            match decode_mode(ea_mode, (opcode & 7) as u8) {
                Some(mode) => {
                    if whole && !self.cpu.is_supervisor() {
                        self.exception_privilege()
                    } else {
                        let (m, value) = self.read_ea(mode, Size::Word);
                        if m.cpu.faulted() {
                            (m, 50)
                        } else {
                            let m = if m.cpu.prefetch_enabled() {
                                let m = m.on_cpu(m.cpu.spec_internal_cycles(4));
                                let m = m.flush_sync();
                                m
                            } else {
                                m
                            };
                            let m = if whole {
                                let m = m.on_cpu(m.cpu.spec_trace_t0_sr_write());
                                let m = m.on_cpu(m.cpu.spec_set_sr(value as u16));
                                m
                            } else {
                                let m = m.on_cpu(m.cpu.spec_set_ccr(value as u8));
                                m
                            };
                            let m = m.full_prefetch();
                            if m.cpu.model.cpu_type == CpuType::M68000 {
                                (m, ea_source_cycles(mode, Size::Word).wrapping_add(12))
                            } else {
                                (m, 12)
                            }
                        }
                    }
                },
                None => (self, ILLEGAL_SENTINEL),
            }
        }
    }

    /// NBCD: data alterable only.
    #[verifier::opaque]
    pub open spec fn exec_nbcd_group(self, opcode: u16) -> (Machine, i32) {
        let ea_mode: u8 = ((opcode >> 3) & 7) as u8;
        let ea_reg: u8 = (opcode & 7) as u8;
        if !ea_data_alterable(ea_mode, ea_reg) {
            (self, ILLEGAL_SENTINEL)
        } else {
            match decode_mode(ea_mode, ea_reg) {
                Some(mode) => {
                    let (m, legacy) = self.exec_nbcd(mode);
                    if m.cpu.model.cpu_type == CpuType::M68000 && !is_register_direct(mode) {
                        (m, ea_source_cycles(mode, Size::Byte).wrapping_add(8))
                    } else {
                        (m, legacy)
                    }
                },
                None => (self, ILLEGAL_SENTINEL),
            }
        }
    }

    /// TAS: data alterable only.
    #[verifier::opaque]
    pub open spec fn exec_tas_group(self, opcode: u16) -> (Machine, i32) {
        let ea_mode: u8 = ((opcode >> 3) & 7) as u8;
        let ea_reg: u8 = (opcode & 7) as u8;
        if !ea_data_alterable(ea_mode, ea_reg) {
            (self, ILLEGAL_SENTINEL)
        } else {
            match decode_mode(ea_mode, ea_reg) {
                Some(mode) => {
                    let (m, legacy) = self.exec_tas(mode);
                    if m.cpu.model.cpu_type == CpuType::M68000 && !is_register_direct(mode) {
                        (m, ea_source_cycles(mode, Size::Byte).wrapping_add(10))
                    } else if m.cpu.model.cpu_type == CpuType::M68000 {
                        (m, 4)
                    } else {
                        (m, legacy)
                    }
                },
                None => (self, ILLEGAL_SENTINEL),
            }
        }
    }

    /// TST: data alterable before the 68020, which adds An (but not as a
    /// byte), PC-relative and immediate operands.
    #[verifier::opaque]
    pub open spec fn exec_tst_group(self, opcode: u16) -> (Machine, i32) {
        let ea_mode: u8 = ((opcode >> 3) & 7) as u8;
        let ea_reg: u8 = (opcode & 7) as u8;
        let size: Size = decode_size_00((opcode >> 6) & 3);
        let ok: bool = if self.cpu.model.is_pre_68020 {
            ea_data_alterable(ea_mode, ea_reg)
        } else {
            !(ea_mode == 1 && size == Size::Byte)
        };
        if !ok {
            (self, ILLEGAL_SENTINEL)
        } else {
            match decode_mode(ea_mode, ea_reg) {
                Some(mode) => {
                    let (m, legacy) = self.exec_tst(size, mode);
                    if m.cpu.model.cpu_type == CpuType::M68000 {
                        (m, tst_cycles(mode, size))
                    } else {
                        (m, legacy)
                    }
                },
                None => (self, ILLEGAL_SENTINEL),
            }
        }
    }

    /// MOVE USP. The register changes after the final prefetch.
    #[verifier::opaque]
    pub open spec fn exec_move_usp(self, opcode: u16) -> (Machine, i32) {
        if !self.cpu.is_supervisor() {
            self.exception_privilege()
        } else {
            let reg: usize = (opcode & 7) as usize;
            let usp: u32 = self.cpu.get_usp();
            let m = if self.cpu.model.cpu_type == CpuType::M68010 {
                let m = self.on_cpu(self.cpu.spec_internal_cycles(2));
                m
            } else {
                self
            };
            let m = if m.cpu.prefetch_enabled() {
                let m = m.top_up_prefetch();
                let m = m.ipl_poll_point();
                m
            } else {
                m
            };
            let m = if opcode & 8 == 0 {
                let m = m.on_cpu(m.cpu.spec_set_usp(m.cpu.a(reg)));
                let m = m.on_cpu(m.cpu.spec_trace_t0_68040_sync());
                m
            } else {
                let m = m.on_cpu(m.cpu.spec_set_a(reg, usp));
                m
            };
            if m.cpu.model.cpu_type == CpuType::M68010 {
                (m, 6)
            } else {
                (m, 4)
            }
        }
    }

    /// JSR and JMP. Extension words are consumed without prefetching ahead.
    /// The return address is pushed before the refill from the target.
    #[verifier::opaque]
    pub open spec fn exec_jump(self, opcode: u16, is_call: bool) -> (Machine, i32) {
        let ea_mode: u8 = ((opcode >> 3) & 7) as u8;
        let ea_reg: u8 = (opcode & 7) as u8;
        if !ea_control(ea_mode, ea_reg) {
            (self, ILLEGAL_SENTINEL)
        } else {
            match decode_mode(ea_mode, ea_reg) {
                Some(mode) => {
                    let m = self.on_cpu(CpuCore { queue: PrefetchState { consume_without_prefetch: true, ..self.cpu.queue }, ..self.cpu });
                    let (m, addr) = m.get_ea_address(mode, Size::Long);
                    let m = m.on_cpu(CpuCore { queue: PrefetchState { consume_without_prefetch: false, ..m.cpu.queue }, ..m.cpu });
                    let m = m.on_cpu(m.cpu.spec_internal_cycles(jump_internal_clocks(mode)));
                    let m = m.on_cpu(CpuCore { run: RunState { change_of_flow: true, ..m.cpu.run }, ..m.cpu });
                    let m = if is_call {
                        let return_pc: u32 = m.cpu.pc;
                        let m = m.push_32(return_pc);
                        m
                    } else {
                        m
                    };
                    let m = m.on_cpu(CpuCore { pc: addr, ..m.cpu });
                    let m = m.full_prefetch();
                    let base: i32 = if is_call {
                        16
                    } else {
                        8
                    };
                    if m.cpu.model.cpu_type == CpuType::M68000 {
                        (m, base.wrapping_add(jump_addr_calc_cycles(mode)))
                    } else {
                        (m, base)
                    }
                },
                None => (self, ILLEGAL_SENTINEL),
            }
        }
    }

    /// LEA and PEA: control modes only.
    #[verifier::opaque]
    pub open spec fn exec_address_group(self, opcode: u16, is_lea: bool) -> (Machine, i32) {
        let ea_mode: u8 = ((opcode >> 3) & 7) as u8;
        let ea_reg: u8 = (opcode & 7) as u8;
        if !ea_control(ea_mode, ea_reg) {
            (self, ILLEGAL_SENTINEL)
        } else {
            match decode_mode(ea_mode, ea_reg) {
                Some(mode) => {
                    let (m, legacy) = if is_lea {
                        self.exec_lea(mode, ((opcode >> 9) & 7) as usize)
                    } else {
                        self.exec_pea(mode)
                    };
                    let base: i32 = if is_lea {
                        4
                    } else {
                        12
                    };
                    if m.cpu.model.cpu_type == CpuType::M68000 {
                        (m, base.wrapping_add(control_addr_calc_cycles(mode)))
                    } else {
                        (m, legacy)
                    }
                },
                None => (self, ILLEGAL_SENTINEL),
            }
        }
    }

    /// MOVEM. Stores take control alterable modes and -(An), loads control
    /// modes and (An)+.
    #[verifier::opaque]
    pub open spec fn exec_movem_group(self, opcode: u16, is_load: bool) -> (Machine, i32) {
        let ea_mode: u8 = ((opcode >> 3) & 7) as u8;
        let ea_reg: u8 = (opcode & 7) as u8;
        let size: Size = if opcode & 0x0040 == 0 {
            Size::Word
        } else {
            Size::Long
        };
        let ok: bool = if is_load {
            ea_mode != 4 && !(ea_mode == 7 && ea_reg > 3)
        } else {
            ea_mode == 2 || ea_mode == 4 || ea_mode == 5 || ea_mode == 6 || (ea_mode == 7 && ea_reg <= 1)
        };
        if !ok {
            (self, ILLEGAL_SENTINEL)
        } else {
            match decode_mode(ea_mode, ea_reg) {
                Some(mode) => {
                    let (m, mask) = self.read_imm_16();
                    if is_load {
                        m.exec_movem_to_reg(size, mode, mask)
                    } else {
                        m.exec_movem_to_mem(size, mode, mask)
                    }
                },
                None => (self, ILLEGAL_SENTINEL),
            }
        }
    }

    /// MULL and DIVL (68020+): An direct is illegal.
    #[verifier::opaque]
    pub open spec fn exec_long_mul_div(self, opcode: u16) -> (Machine, i32) {
        let ea_mode: u16 = (opcode >> 3) & 7;
        if self.cpu.model.is_pre_68020 || ea_mode == 1 || (ea_mode == 7 && opcode & 7 > 4) {
            (self, ILLEGAL_SENTINEL)
        } else {
            if opcode & 0x0040 == 0 {
                self.run_unit(UnitOp::MultiplyLong { opcode: opcode })
            } else {
                self.run_unit(UnitOp::DivideLong { opcode: opcode })
            }
        }
    }

    /// The instructions 0x4E70 to 0x4E7B, which have no operand field.
    #[verifier::opaque]
    pub open spec fn dispatch_system(self, opcode: u16) -> (Machine, i32) {
        match opcode {
            0x4E70 => self.exec_reset(),
            0x4E71 => {
                let m = self.on_cpu(self.cpu.spec_trace_t0_68040_sync());
                (m, 4)
            },
            0x4E72 => self.exec_stop(),
            0x4E73 => self.exec_rte(),
            0x4E74 => self.exec_rtd(),
            0x4E75 => self.exec_rts(),
            0x4E76 => self.exec_trapv(),
            0x4E77 => self.exec_rtr(),
            0x4E7A => self.exec_movec(false),
            0x4E7B => self.exec_movec(true),
            _ => (self, ILLEGAL_SENTINEL),
        }
    }

    /// The instructions 0x4800 to 0x48FF: NBCD, SWAP, BKPT, PEA, EXT and
    /// MOVEM to memory.
    #[verifier::opaque]
    pub open spec fn dispatch_group_48(self, opcode: u16) -> (Machine, i32) {
        let ea_mode: u16 = (opcode >> 3) & 7;
        let ea_reg: usize = (opcode & 7) as usize;
        match (opcode >> 6) & 3 {
            0 => self.exec_nbcd_group(opcode),
            1 => {
                if ea_mode == 0 {
                    let (cpu, v1) = self.cpu.spec_exec_swap(ea_reg);
                    let m = self.on_cpu(cpu);
                    (m, v1)
                } else if ea_mode == 1 {
                    (self, (BKPT_SENTINEL_BASE + (opcode & 7) as i32) as i32)
                } else {
                    self.exec_address_group(opcode, false)
                }
            },
            2 => {
                if ea_mode == 0 {
                    let (cpu, v2) = self.cpu.spec_exec_ext(Size::Word, ea_reg);
                    let m = self.on_cpu(cpu);
                    (m, v2)
                } else if ea_mode == 1 {
                    (self, ILLEGAL_SENTINEL)
                } else {
                    self.exec_movem_group(opcode, false)
                }
            },
            _ => {
                if ea_mode == 0 {
                    let (cpu, v3) = self.cpu.spec_exec_ext(Size::Long, ea_reg);
                    let m = self.on_cpu(cpu);
                    (m, v3)
                } else if ea_mode == 1 {
                    (self, ILLEGAL_SENTINEL)
                } else {
                    self.exec_movem_group(opcode, false)
                }
            },
        }
    }

    /// The instructions 0x4E40 to 0x4EFF that name a register or an operand:
    /// TRAP, LINK, UNLK, MOVE USP, JSR and JMP.
    #[verifier::opaque]
    pub open spec fn dispatch_group_4e(self, opcode: u16) -> (Machine, i32) {
        let ea_reg: usize = (opcode & 7) as usize;
        if (opcode >> 4) & 0xF == 4 {
            (self, (TRAP_SENTINEL_BASE + (opcode & 0xF) as i32) as i32)
        } else {
            if (opcode & 0xFFF8) == 0x4E50 {
                self.exec_link(ea_reg)
            } else {
                if (opcode & 0xFFF8) == 0x4E58 {
                    self.exec_unlk(ea_reg)
                } else {
                    if (opcode & 0xFFF0) == 0x4E60 {
                        self.exec_move_usp(opcode)
                    } else {
                        if (opcode & 0xFFC0) == 0x4E80 {
                            self.exec_jump(opcode, true)
                        } else {
                            if (opcode & 0xFFC0) == 0x4EC0 {
                                self.exec_jump(opcode, false)
                            } else {
                                (self, ILLEGAL_SENTINEL)
                            }
                        }
                    }
                }
            }
        }
    }

    /// The one-operand instructions, by the operation field of the opcode.
    #[verifier::opaque]
    pub open spec fn dispatch_one_operand(self, opcode: u16) -> (Machine, i32) {
        let size_field: u16 = (opcode >> 6) & 3;
        let ea_mode: u16 = (opcode >> 3) & 7;
        match (opcode >> 8) & 0xF {
            0x0 | 0x2 => self.exec_unary_group(opcode),
            0x4 => {
                if size_field == 3 {
                    self.exec_move_to_status(opcode, false)
                } else {
                    self.exec_unary_group(opcode)
                }
            },
            0x6 => {
                if size_field == 3 {
                    self.exec_move_to_status(opcode, true)
                } else {
                    self.exec_unary_group(opcode)
                }
            },
            0x8 => self.dispatch_group_48(opcode),
            0xA => {
                if opcode == 0x4AFC {
                    (self, ILLEGAL_SENTINEL)
                } else if size_field == 3 {
                    self.exec_tas_group(opcode)
                } else {
                    self.exec_tst_group(opcode)
                }
            },
            0xC => {
                if ea_mode >= 2 {
                    self.exec_movem_group(opcode, true)
                } else {
                    (self, ILLEGAL_SENTINEL)
                }
            },
            0xE => self.dispatch_group_4e(opcode),
            _ => (self, ILLEGAL_SENTINEL),
        }
    }

    /// Group 4: miscellaneous. LEA and CHK are told by bits 6 to 8, before
    /// the operation field.
    #[verifier::opaque]
    pub open spec fn dispatch_group_4(self, opcode: u16) -> (Machine, i32) {
        let ea_mode: u16 = (opcode >> 3) & 7;
        let ea_reg: usize = (opcode & 7) as usize;
        let opmode: u16 = (opcode >> 6) & 7;
        if (opcode & 0xFFF8) == 0x4808 {
            if self.cpu.model.is_pre_68020 {
                (self, ILLEGAL_SENTINEL)
            } else {
                self.exec_link_long(ea_reg)
            }
        } else {
            if (opcode & 0xFF80) == 0x4C00 {
                self.exec_long_mul_div(opcode)
            } else {
                if (opcode & 0xFFC0) == 0x40C0 {
                    self.exec_move_from_sr(opcode)
                } else {
                    if (opcode & 0xFFC0) == 0x42C0 {
                        self.exec_move_from_ccr(opcode)
                    } else {
                        if opmode == 6 {
                            self.exec_chk_group(opcode, Size::Word)
                        } else {
                            if opmode == 4 {
                                self.exec_chk_group(opcode, Size::Long)
                            } else {
                                if opmode == 5 {
                                    (self, ILLEGAL_SENTINEL)
                                } else {
                                    if (opcode & 0xFFF0) == 0x4E70 {
                                        self.dispatch_system(opcode)
                                    } else {
                                        if opcode == 0x4AC8 && self.cpu.is_060() {
                                            self.exec_halt()
                                        } else {
                                            if opcode == 0x4ACC && self.cpu.is_060() {
                                                (self, 4)
                                            } else {
                                                if opmode == 7 {
                                                    if (opcode & 0xFFF8) == 0x49C0 {
                                                        if self.cpu.model.is_pre_68020 {
                                                            (self, ILLEGAL_SENTINEL)
                                                        } else {
                                                            let (cpu, v1) = self.cpu.spec_exec_extb(ea_reg);
                                                            let m = self.on_cpu(cpu);
                                                            (m, v1)
                                                        }
                                                    } else {
                                                        self.exec_address_group(opcode, true)
                                                    }
                                                } else {
                                                    self.dispatch_one_operand(opcode)
                                                }
                                            }
                                        }
                                    }
                                }
                            }
                        }
                    }
                }
            }
        }
    }
}

impl Machine {
    /// RTE on the 68020 and later, through at most `fuel` throwaway frames.
    pub open spec fn rte_chain(self, fuel: nat) -> (Machine, i32)
        decreases fuel,
    {
        if fuel == 0 {
            self.take_exception(VECTOR_FORMAT_ERROR)
        } else {
            let (m, done) = self.rte_frame_68020();
            match done {
                Some(cycles) => (m, cycles),
                None => m.rte_chain((fuel - 1) as nat),
            }
        }
    }

    /// RTE on the 68020 and later.
    pub open spec fn exec_rte_68020(self) -> (Machine, i32) {
        self.rte_chain(RTE_CHAIN_LIMIT as nat)
    }
}

impl CpuCore {
    /// Write a word into the low half of a data register after the final
    /// prefetch and its IPL poll. False when the prefetch faulted.
    pub fn prefetch_and_poll<B: AddressBus>(&mut self, bus: &mut B) -> (r: bool)
        ensures
            (Machine::of(*final(self), *final(bus)), r) == Machine::of(*old(self), *old(bus)).prefetch_and_poll(),
    {
        proof {
            reveal(Machine::prefetch_and_poll);
        }
        if self.prefetch_enabled() {
            self.top_up_prefetch(bus);
            self.ipl_poll_point(bus);
            if self.faulted() {
                return false;
            }
        }
        true
    }

    /// MOVE from SR: privileged on the 68010 and later. The 68000 reads a
    /// memory destination before it writes it.
    pub fn exec_move_from_sr<B: AddressBus>(&mut self, bus: &mut B, opcode: u16) -> (r: i32)
        ensures
            (Machine::of(*final(self), *final(bus)), r) == Machine::of(*old(self), *old(bus)).exec_move_from_sr(opcode),
    {
        proof {
            reveal(Machine::exec_move_from_sr);
        }
        let ea_mode: u8 = ((opcode >> 3) & 7) as u8;
        let ea_reg: u8 = (opcode & 7) as u8;
        if !ea_data_alterable(ea_mode, ea_reg) {
            return ILLEGAL_SENTINEL;
        }
        if self.model.cpu_type != CpuType::M68000 && !self.is_supervisor() {
            return self.exception_privilege(bus);
        }
        let sr: u32 = self.get_sr() as u32;
        match decode_mode(ea_mode, ea_reg) {
            Some(mode) => {
                if ea_mode == 0 && self.model.cpu_type == CpuType::M68000 {
                    if !self.finish_m68000_tail_after_final_prefetch(bus, 2) {
                        return 50;
                    }
                    self.write_data_reg(ea_reg as usize, Size::Word, sr);
                    return 6;
                }
                if ea_mode == 0 && is_pre_68020(self.model.cpu_type) {
                    if !self.prefetch_and_poll(bus) {
                        return 50;
                    }
                    self.write_data_reg(ea_reg as usize, Size::Word, sr);
                    return 4;
                }
                let ea: EaResult = self.resolve_ea(bus, mode, Size::Word);
                if self.faulted() {
                    return 50;
                }
                if self.model.cpu_type == CpuType::M68000 {
                    self.read_resolved_ea(bus, ea, Size::Word);
                    if self.faulted() {
                        return 50;
                    }
                }
                self.write_resolved_ea(bus, ea, Size::Word, sr);
                if is_register_direct(mode) {
                    6
                } else if self.model.cpu_type == CpuType::M68000 {
                    ea_source_cycles(mode, Size::Word).wrapping_add(8)
                } else {
                    8
                }
            },
            None => ILLEGAL_SENTINEL,
        }
    }

    /// MOVE from CCR (68010+). A register costs only the final prefetch, which
    /// precedes the write; memory is written after it too.
    pub fn exec_move_from_ccr<B: AddressBus>(&mut self, bus: &mut B, opcode: u16) -> (r: i32)
        ensures
            (Machine::of(*final(self), *final(bus)), r) == Machine::of(*old(self), *old(bus)).exec_move_from_ccr(opcode),
    {
        proof {
            reveal(Machine::exec_move_from_ccr);
        }
        let ea_mode: u8 = ((opcode >> 3) & 7) as u8;
        let ea_reg: u8 = (opcode & 7) as u8;
        if self.model.cpu_type == CpuType::M68000 || !ea_data_alterable(ea_mode, ea_reg) {
            return ILLEGAL_SENTINEL;
        }
        let ccr: u32 = self.get_ccr() as u32;
        match decode_mode(ea_mode, ea_reg) {
            Some(mode) => {
                if ea_mode == 0 {
                    if !self.prefetch_and_poll(bus) {
                        return 50;
                    }
                    self.write_data_reg(ea_reg as usize, Size::Word, ccr);
                    return 4;
                }
                self.internal_cycles(move_ccr_internal(mode));
                let ea: EaResult = self.resolve_ea(bus, mode, Size::Word);
                self.write_resolved_ea(bus, ea, Size::Word, ccr);
                ea_calc_cycles(mode).wrapping_add(8).wrapping_add(move_ccr_internal(mode) as i32)
            },
            None => ILLEGAL_SENTINEL,
        }
    }

    /// CHK: word on every model, long on the 68020 and later. The 68000 pays
    /// the operand fetch whether or not the check traps.
    pub fn exec_chk_group<B: AddressBus>(&mut self, bus: &mut B, opcode: u16, size: Size) -> (r: i32)
        ensures
            (Machine::of(*final(self), *final(bus)), r) == Machine::of(*old(self), *old(bus)).exec_chk_group(opcode, size),
    {
        proof {
            reveal(Machine::exec_chk_group);
        }
        let ea_mode: u8 = ((opcode >> 3) & 7) as u8;
        if ea_mode == 1 || size == Size::Long && self.model.is_pre_68020 {
            return ILLEGAL_SENTINEL;
        }
        match decode_mode(ea_mode, (opcode & 7) as u8) {
            Some(mode) => {
                let bound: u32 = self.read_ea(bus, mode, size);
                let cycles: i32 = self.exec_chk(bus, size, bound, ((opcode >> 9) & 7) as usize);
                if self.model.cpu_type == CpuType::M68000 {
                    cycles.wrapping_add(ea_source_cycles(mode, size))
                } else {
                    cycles
                }
            },
            None => ILLEGAL_SENTINEL,
        }
    }

    /// RESET: assert the line for 128 internal clocks.
    pub fn exec_reset<B: AddressBus>(&mut self, bus: &mut B) -> (r: i32)
        ensures
            (Machine::of(*final(self), *final(bus)), r) == Machine::of(*old(self), *old(bus)).exec_reset(),
    {
        proof {
            reveal(Machine::exec_reset);
        }
        if !self.is_supervisor() {
            return self.exception_privilege(bus);
        }
        self.internal_cycles(128);
        bus.reset_devices();
        132
    }

    /// STOP: load the status register as it is written and stop. The operand
    /// is consumed without a prefetch. The 68060 refuses a status register
    /// with S clear.
    pub fn exec_stop<B: AddressBus>(&mut self, bus: &mut B) -> (r: i32)
        ensures
            (Machine::of(*final(self), *final(bus)), r) == Machine::of(*old(self), *old(bus)).exec_stop(),
    {
        proof {
            reveal(Machine::exec_stop);
        }
        if !self.is_supervisor() {
            return self.exception_privilege(bus);
        }
        self.queue.consume_without_prefetch = true;
        let sr: u16 = self.read_imm_16(bus);
        self.queue.consume_without_prefetch = false;
        if self.is_060() && sr & 0x2000 == 0 {
            self.ppc = self.pc;
            return self.exception_privilege(bus);
        }
        self.stop(sr);
        4
    }

    /// HALT (68060).
    pub fn exec_halt<B: AddressBus>(&mut self, bus: &mut B) -> (r: i32)
        ensures
            (Machine::of(*final(self), *final(bus)), r) == Machine::of(*old(self), *old(bus)).exec_halt(),
    {
        proof {
            reveal(Machine::exec_halt);
        }
        if !self.is_supervisor() {
            return self.exception_privilege(bus);
        }
        self.run.stopped = 1;
        4
    }

    /// Pull SR, PC and format word, then drop the rest of a frame.
    pub fn unstack_frame<B: AddressBus>(&mut self, bus: &mut B, rest: u32)
        ensures
            Machine::of(*final(self), *final(bus)) == Machine::of(*old(self), *old(bus)).unstack_frame(rest),
    {
        proof {
            reveal(Machine::unstack_frame);
        }
        let sr: u16 = self.pull_16(bus);
        let pc: u32 = self.pull_32(bus);
        self.pc = pc;
        self.pull_16(bus);
        self.dar[15] = self.dar[15].wrapping_add(rest);
        self.set_sr(sr);
    }

    /// RTE on the 68000.
    pub fn exec_rte_68000<B: AddressBus>(&mut self, bus: &mut B) -> (r: i32)
        ensures
            (Machine::of(*final(self), *final(bus)), r) == Machine::of(*old(self), *old(bus)).exec_rte_68000(),
    {
        proof {
            reveal(Machine::exec_rte_68000);
        }
        let sr: u16 = self.pull_16(bus);
        let pc: u32 = self.pull_32(bus);
        self.pc = pc;
        self.set_sr(sr);
        self.full_prefetch(bus);
        20
    }

    /// RTE on the 68010: a short frame, or the 29-word fault frame, whose
    /// fault information is dropped. The format word of a short frame is not
    /// read again.
    pub fn exec_rte_68010<B: AddressBus>(&mut self, bus: &mut B) -> (r: i32)
        ensures
            (Machine::of(*final(self), *final(bus)), r) == Machine::of(*old(self), *old(bus)).exec_rte_68010(),
    {
        proof {
            reveal(Machine::exec_rte_68010);
        }
        let word: u16 = self.read_16(bus, self.a(7).wrapping_add(6));
        let format: u16 = word >> 12;
        if format == 8 {
            self.unstack_frame(bus, 50);
            self.full_prefetch(bus);
            return 20;
        }
        if format != 0 {
            return self.take_exception(bus, VECTOR_FORMAT_ERROR);
        }
        let sr: u16 = self.pull_16(bus);
        let pc: u32 = self.pull_32(bus);
        self.pc = pc;
        self.dar[15] = self.dar[15].wrapping_add(2);
        self.set_sr(sr);
        self.full_prefetch(bus);
        24
    }

    /// A 68040 fault frame at the stack pointer: a handler that cleared the
    /// valid bit of the third write-back slot has absorbed the write.
    pub fn note_absorbed_write_040<B: AddressBus>(&mut self, bus: &mut B)
        ensures
            Machine::of(*final(self), *final(bus)) == Machine::of(*old(self), *old(bus)).note_absorbed_write_040(),
    {
        proof {
            reveal(Machine::note_absorbed_write_040);
        }
        let sp: u32 = self.a(7);
        let ssw: u16 = self.read_16(bus, sp.wrapping_add(0x0C));
        if ssw & 0x0100 == 0 && ssw & 0x0400 != 0 {
            let wb3s: u16 = self.read_16(bus, sp.wrapping_add(0x0E));
            if wb3s & 0x0080 == 0 {
                let wb3a: u32 = self.read_32(bus, sp.wrapping_add(0x18));
                self.fault.write_suppress = Some(wb3a);
            }
        }
    }

    /// A long 68030 fault frame at the stack pointer: a handler that cleared
    /// the data-fault bit has completed the data cycle. It supplies the value
    /// of a read in the data input buffer, and has absorbed a write.
    pub fn note_completed_cycle_030<B: AddressBus>(&mut self, bus: &mut B)
        ensures
            Machine::of(*final(self), *final(bus)) == Machine::of(*old(self), *old(bus)).note_completed_cycle_030(),
    {
        proof {
            reveal(Machine::note_completed_cycle_030);
        }
        let sp: u32 = self.a(7);
        let ssw: u16 = self.read_16(bus, sp.wrapping_add(0x0A));
        if ssw & 0x0100 == 0 && ssw & 0xF000 == 0 {
            let fa: u32 = self.read_32(bus, sp.wrapping_add(0x10));
            if ssw & 0x0040 != 0 {
                let dib: u32 = self.read_32(bus, sp.wrapping_add(0x2C));
                self.fault.read_override = Some((fa, dib));
            } else {
                self.fault.write_suppress = Some(fa);
            }
        }
    }

    /// One frame of RTE on the 68020 and later. A throwaway frame gives no
    /// result: the frame below it follows.
    pub fn rte_frame_68020<B: AddressBus>(&mut self, bus: &mut B) -> (r: Option<i32>)
        ensures
            (Machine::of(*final(self), *final(bus)), r) == Machine::of(*old(self), *old(bus)).rte_frame_68020(),
    {
        proof {
            reveal(Machine::rte_frame_68020);
        }
        let word: u16 = self.read_16(bus, self.a(7).wrapping_add(6));
        let format: u16 = word >> 12;
        let is_020_030: bool = self.model.cpu_type == CpuType::M68EC020 || self.model.cpu_type
            == CpuType::M68020 || self.model.cpu_type == CpuType::M68EC030 || self.model.cpu_type
            == CpuType::M68030;
        if format == 0 {
            self.unstack_frame(bus, 0);
            return Some(20);
        }
        if format == 1 {
            let sr: u16 = self.pull_16(bus);
            self.dar[15] = self.dar[15].wrapping_add(6);
            self.set_sr(sr);
            return None;
        }
        if format == 2 {
            self.unstack_frame(bus, 4);
            return Some(20);
        }
        if format == 4 && self.is_060() {
            self.unstack_frame(bus, 8);
            return Some(20);
        }
        if format == 7 && self.is_040() {
            self.note_absorbed_write_040(bus);
            self.unstack_frame(bus, 52);
            return Some(20);
        }
        if format == 0xA && is_020_030 {
            self.unstack_frame(bus, 24);
            return Some(20);
        }
        if format == 0xB && is_020_030 {
            self.note_completed_cycle_030(bus);
            self.unstack_frame(bus, 84);
            return Some(20);
        }
        let cycles: i32 = self.take_exception(bus, VECTOR_FORMAT_ERROR);
        Some(cycles)
    }

    /// RTE on the 68020 and later: throwaway frames are followed to the frame
    /// below them. A chain beyond the limit is taken for a format error.
    pub fn exec_rte_68020<B: AddressBus>(&mut self, bus: &mut B) -> (r: i32)
        ensures
            (Machine::of(*final(self), *final(bus)), r) == Machine::of(*old(self), *old(bus)).exec_rte_68020(),
    {
        let mut left: u32 = RTE_CHAIN_LIMIT;
        while left > 0
            invariant
                Machine::of(*self, *bus).rte_chain(left as nat) == Machine::of(*old(self), *old(bus)).rte_chain(
                    RTE_CHAIN_LIMIT as nat,
                ),
            decreases left,
        {
            let done: Option<i32> = self.rte_frame_68020(bus);
            match done {
                Some(cycles) => {
                    return cycles;
                },
                None => {},
            }
            left = left - 1;
        }
        self.take_exception(bus, VECTOR_FORMAT_ERROR)
    }

    /// RTE.
    pub fn exec_rte<B: AddressBus>(&mut self, bus: &mut B) -> (r: i32)
        ensures
            (Machine::of(*final(self), *final(bus)), r) == Machine::of(*old(self), *old(bus)).exec_rte(),
    {
        proof {
            reveal(Machine::exec_rte);
        }
        if !self.is_supervisor() {
            return self.exception_privilege(bus);
        }
        if self.model.cpu_type == CpuType::M68000 {
            return self.exec_rte_68000(bus);
        }
        if is_pre_68020(self.model.cpu_type) {
            return self.exec_rte_68010(bus);
        }
        self.exec_rte_68020(bus)
    }

    /// RTD (68010+): return and drop the arguments.
    pub fn exec_rtd<B: AddressBus>(&mut self, bus: &mut B) -> (r: i32)
        ensures
            (Machine::of(*final(self), *final(bus)), r) == Machine::of(*old(self), *old(bus)).exec_rtd(),
    {
        proof {
            reveal(Machine::exec_rtd);
        }
        if self.model.cpu_type == CpuType::M68000 {
            return ILLEGAL_SENTINEL;
        }
        let disp: u16 = self.read_imm_16(bus);
        let pc: u32 = self.pull_32(bus);
        self.pc = pc;
        self.dar[15] = self.dar[15].wrapping_add(sext16(disp));
        self.full_prefetch(bus);
        20
    }

    /// RTS.
    pub fn exec_rts<B: AddressBus>(&mut self, bus: &mut B) -> (r: i32)
        ensures
            (Machine::of(*final(self), *final(bus)), r) == Machine::of(*old(self), *old(bus)).exec_rts(),
    {
        proof {
            reveal(Machine::exec_rts);
        }
        self.run.change_of_flow = true;
        let pc: u32 = self.pull_32(bus);
        self.pc = pc;
        self.full_prefetch(bus);
        16
    }

    /// RTR.
    pub fn exec_rtr<B: AddressBus>(&mut self, bus: &mut B) -> (r: i32)
        ensures
            (Machine::of(*final(self), *final(bus)), r) == Machine::of(*old(self), *old(bus)).exec_rtr(),
    {
        proof {
            reveal(Machine::exec_rtr);
        }
        let word: u16 = self.pull_16(bus);
        self.set_ccr(word as u8);
        self.run.change_of_flow = true;
        let pc: u32 = self.pull_32(bus);
        self.pc = pc;
        self.full_prefetch(bus);
        20
    }

    /// TRAPV. When it traps, the 68000 first reads the word it would have
    /// prefetched.
    pub fn exec_trapv<B: AddressBus>(&mut self, bus: &mut B) -> (r: i32)
        ensures
            (Machine::of(*final(self), *final(bus)), r) == Machine::of(*old(self), *old(bus)).exec_trapv(),
    {
        proof {
            reveal(Machine::exec_trapv);
        }
        if !self.flag_v() {
            return 4;
        }
        if self.model.cpu_type == CpuType::M68000 {
            self.read_16(bus, self.pc.wrapping_add(2));
        }
        self.take_group2_exception(bus, VECTOR_TRAPV)
    }

    /// MOVEC (68010+). Privilege is checked before the extension word is
    /// examined, but for the 68060, which reports an undefined register as
    /// illegal even in user mode.
    pub fn exec_movec<B: AddressBus>(&mut self, bus: &mut B, to_control: bool) -> (r: i32)
        ensures
            (Machine::of(*final(self), *final(bus)), r) == Machine::of(*old(self), *old(bus)).exec_movec(to_control),
    {
        proof {
            reveal(Machine::exec_movec);
        }
        if self.model.cpu_type == CpuType::M68000 {
            return ILLEGAL_SENTINEL;
        }
        if !self.is_supervisor() && !self.is_060() {
            return self.exception_privilege(bus);
        }
        let ext: u16 = self.read_imm_16(bus);
        let reg_num: usize = ((ext >> 12) & 7) as usize;
        let ctrl_reg: u16 = ext & 0xFFF;
        if !movec_reg_legal(self.model.cpu_type, ctrl_reg) {
            return ILLEGAL_SENTINEL;
        }
        if !self.is_supervisor() {
            return self.exception_privilege(bus);
        }
        if to_control {
            let value: u32 = if ext & 0x8000 == 0 {
                self.d(reg_num)
            } else {
                self.a(reg_num)
            };
            self.write_control_register(ctrl_reg, value);
        } else {
            let value: u32 = self.read_control_register(ctrl_reg);
            if ext & 0x8000 == 0 {
                self.set_d(reg_num, value);
            } else {
                self.set_a(reg_num, value);
            }
        }
        self.trace_t0_68040_sync();
        12
    }

    /// NEGX, CLR, NEG and NOT, by the operation field of the opcode.
    pub fn exec_unary_group<B: AddressBus>(&mut self, bus: &mut B, opcode: u16) -> (r: i32)
        ensures
            (Machine::of(*final(self), *final(bus)), r) == Machine::of(*old(self), *old(bus)).exec_unary_group(opcode),
    {
        proof {
            reveal(Machine::exec_unary_group);
        }
        let size: Size = decode_size_00((opcode >> 6) & 3);
        let ea_mode: u8 = ((opcode >> 3) & 7) as u8;
        let ea_reg: u8 = (opcode & 7) as u8;
        if !ea_data_alterable(ea_mode, ea_reg) {
            return ILLEGAL_SENTINEL;
        }
        match decode_mode(ea_mode, ea_reg) {
            Some(mode) => {
                let legacy: i32 = match (opcode >> 8) & 0xF {
                    0x0 => self.exec_negx(bus, size, mode),
                    0x2 => self.exec_clr(bus, size, mode),
                    0x4 => self.exec_neg(bus, size, mode),
                    _ => self.exec_not(bus, size, mode),
                };
                if self.model.cpu_type == CpuType::M68000 {
                    unary_rmw_cycles(mode, size)
                } else {
                    legacy
                }
            },
            None => ILLEGAL_SENTINEL,
        }
    }

    /// MOVE to CCR and MOVE to SR: data addressing only, which is checked
    /// before the privilege. The internal clocks of the status write pass
    /// before the register changes; then the queue is refilled.
    pub fn exec_move_to_status<B: AddressBus>(&mut self, bus: &mut B, opcode: u16, whole: bool) -> (r: i32)
        ensures
            (Machine::of(*final(self), *final(bus)), r) == Machine::of(*old(self), *old(bus)).exec_move_to_status(opcode, whole),
    {
        proof {
            reveal(Machine::exec_move_to_status);
        }
        let ea_mode: u8 = ((opcode >> 3) & 7) as u8;
        if ea_mode == 1 {
            return ILLEGAL_SENTINEL;
        }
        match decode_mode(ea_mode, (opcode & 7) as u8) {
            Some(mode) => {
                if whole && !self.is_supervisor() {
                    return self.exception_privilege(bus);
                }
                let value: u32 = self.read_ea(bus, mode, Size::Word);
                if self.faulted() {
                    return 50;
                }
                if self.prefetch_enabled() {
                    self.internal_cycles(4);
                    self.flush_sync(bus);
                }
                if whole {
                    self.trace_t0_sr_write();
                    self.set_sr(value as u16);
                } else {
                    self.set_ccr(value as u8);
                }
                self.full_prefetch(bus);
                if self.model.cpu_type == CpuType::M68000 {
                    ea_source_cycles(mode, Size::Word).wrapping_add(12)
                } else {
                    12
                }
            },
            None => ILLEGAL_SENTINEL,
        }
    }

    /// NBCD: data alterable only.
    pub fn exec_nbcd_group<B: AddressBus>(&mut self, bus: &mut B, opcode: u16) -> (r: i32)
        ensures
            (Machine::of(*final(self), *final(bus)), r) == Machine::of(*old(self), *old(bus)).exec_nbcd_group(opcode),
    {
        proof {
            reveal(Machine::exec_nbcd_group);
        }
        let ea_mode: u8 = ((opcode >> 3) & 7) as u8;
        let ea_reg: u8 = (opcode & 7) as u8;
        if !ea_data_alterable(ea_mode, ea_reg) {
            return ILLEGAL_SENTINEL;
        }
        match decode_mode(ea_mode, ea_reg) {
            Some(mode) => {
                let legacy: i32 = self.exec_nbcd(bus, mode);
                if self.model.cpu_type == CpuType::M68000 && !is_register_direct(mode) {
                    ea_source_cycles(mode, Size::Byte).wrapping_add(8)
                } else {
                    legacy
                }
            },
            None => ILLEGAL_SENTINEL,
        }
    }

    /// TAS: data alterable only.
    pub fn exec_tas_group<B: AddressBus>(&mut self, bus: &mut B, opcode: u16) -> (r: i32)
        ensures
            (Machine::of(*final(self), *final(bus)), r) == Machine::of(*old(self), *old(bus)).exec_tas_group(opcode),
    {
        proof {
            reveal(Machine::exec_tas_group);
        }
        let ea_mode: u8 = ((opcode >> 3) & 7) as u8;
        let ea_reg: u8 = (opcode & 7) as u8;
        if !ea_data_alterable(ea_mode, ea_reg) {
            return ILLEGAL_SENTINEL;
        }
        match decode_mode(ea_mode, ea_reg) {
            Some(mode) => {
                let legacy: i32 = self.exec_tas(bus, mode);
                if self.model.cpu_type == CpuType::M68000 && !is_register_direct(mode) {
                    ea_source_cycles(mode, Size::Byte).wrapping_add(10)
                } else if self.model.cpu_type == CpuType::M68000 {
                    4
                } else {
                    legacy
                }
            },
            None => ILLEGAL_SENTINEL,
        }
    }

    /// TST: data alterable before the 68020, which adds An (but not as a
    /// byte), PC-relative and immediate operands.
    pub fn exec_tst_group<B: AddressBus>(&mut self, bus: &mut B, opcode: u16) -> (r: i32)
        ensures
            (Machine::of(*final(self), *final(bus)), r) == Machine::of(*old(self), *old(bus)).exec_tst_group(opcode),
    {
        proof {
            reveal(Machine::exec_tst_group);
        }
        let ea_mode: u8 = ((opcode >> 3) & 7) as u8;
        let ea_reg: u8 = (opcode & 7) as u8;
        let size: Size = decode_size_00((opcode >> 6) & 3);
        let ok: bool = if self.model.is_pre_68020 {
            ea_data_alterable(ea_mode, ea_reg)
        } else {
            !(ea_mode == 1 && size == Size::Byte)
        };
        if !ok {
            return ILLEGAL_SENTINEL;
        }
        match decode_mode(ea_mode, ea_reg) {
            Some(mode) => {
                let legacy: i32 = self.exec_tst(bus, size, mode);
                if self.model.cpu_type == CpuType::M68000 {
                    tst_cycles(mode, size)
                } else {
                    legacy
                }
            },
            None => ILLEGAL_SENTINEL,
        }
    }

    /// MOVE USP. The register changes after the final prefetch.
    pub fn exec_move_usp<B: AddressBus>(&mut self, bus: &mut B, opcode: u16) -> (r: i32)
        ensures
            (Machine::of(*final(self), *final(bus)), r) == Machine::of(*old(self), *old(bus)).exec_move_usp(opcode),
    {
        proof {
            reveal(Machine::exec_move_usp);
        }
        if !self.is_supervisor() {
            return self.exception_privilege(bus);
        }
        let reg: usize = (opcode & 7) as usize;
        let usp: u32 = self.get_usp();
        if self.model.cpu_type == CpuType::M68010 {
            self.internal_cycles(2);
        }
        if self.prefetch_enabled() {
            self.top_up_prefetch(bus);
            self.ipl_poll_point(bus);
        }
        if opcode & 8 == 0 {
            self.set_usp(self.a(reg));
            self.trace_t0_68040_sync();
        } else {
            self.set_a(reg, usp);
        }
        if self.model.cpu_type == CpuType::M68010 {
            6
        } else {
            4
        }
    }

    /// JSR and JMP. Extension words are consumed without prefetching ahead.
    /// The return address is pushed before the refill from the target.
    pub fn exec_jump<B: AddressBus>(&mut self, bus: &mut B, opcode: u16, is_call: bool) -> (r: i32)
        ensures
            (Machine::of(*final(self), *final(bus)), r) == Machine::of(*old(self), *old(bus)).exec_jump(opcode, is_call),
    {
        proof {
            reveal(Machine::exec_jump);
        }
        let ea_mode: u8 = ((opcode >> 3) & 7) as u8;
        let ea_reg: u8 = (opcode & 7) as u8;
        if !ea_control(ea_mode, ea_reg) {
            return ILLEGAL_SENTINEL;
        }
        match decode_mode(ea_mode, ea_reg) {
            Some(mode) => {
                self.queue.consume_without_prefetch = true;
                let addr: u32 = self.get_ea_address(bus, mode, Size::Long);
                self.queue.consume_without_prefetch = false;
                self.internal_cycles(jump_internal_clocks(mode));
                self.run.change_of_flow = true;
                if is_call {
                    let return_pc: u32 = self.pc;
                    self.push_32(bus, return_pc);
                }
                self.pc = addr;
                self.full_prefetch(bus);
                let base: i32 = if is_call {
                    16
                } else {
                    8
                };
                if self.model.cpu_type == CpuType::M68000 {
                    base.wrapping_add(jump_addr_calc_cycles(mode))
                } else {
                    base
                }
            },
            None => ILLEGAL_SENTINEL,
        }
    }

    /// LEA and PEA: control modes only.
    pub fn exec_address_group<B: AddressBus>(&mut self, bus: &mut B, opcode: u16, is_lea: bool) -> (r: i32)
        ensures
            (Machine::of(*final(self), *final(bus)), r) == Machine::of(*old(self), *old(bus)).exec_address_group(opcode, is_lea),
    {
        proof {
            reveal(Machine::exec_address_group);
        }
        let ea_mode: u8 = ((opcode >> 3) & 7) as u8;
        let ea_reg: u8 = (opcode & 7) as u8;
        if !ea_control(ea_mode, ea_reg) {
            return ILLEGAL_SENTINEL;
        }
        match decode_mode(ea_mode, ea_reg) {
            Some(mode) => {
                let legacy: i32 = if is_lea {
                    self.exec_lea(bus, mode, ((opcode >> 9) & 7) as usize)
                } else {
                    self.exec_pea(bus, mode)
                };
                let base: i32 = if is_lea {
                    4
                } else {
                    12
                };
                if self.model.cpu_type == CpuType::M68000 {
                    base.wrapping_add(control_addr_calc_cycles(mode))
                } else {
                    legacy
                }
            },
            None => ILLEGAL_SENTINEL,
        }
    }

    /// MOVEM. Stores take control alterable modes and -(An), loads control
    /// modes and (An)+.
    pub fn exec_movem_group<B: AddressBus>(&mut self, bus: &mut B, opcode: u16, is_load: bool) -> (r: i32)
        ensures
            (Machine::of(*final(self), *final(bus)), r) == Machine::of(*old(self), *old(bus)).exec_movem_group(opcode, is_load),
    {
        proof {
            reveal(Machine::exec_movem_group);
        }
        let ea_mode: u8 = ((opcode >> 3) & 7) as u8;
        let ea_reg: u8 = (opcode & 7) as u8;
        let size: Size = if opcode & 0x0040 == 0 {
            Size::Word
        } else {
            Size::Long
        };
        let ok: bool = if is_load {
            ea_mode != 4 && !(ea_mode == 7 && ea_reg > 3)
        } else {
            ea_mode == 2 || ea_mode == 4 || ea_mode == 5 || ea_mode == 6 || (ea_mode == 7 && ea_reg <= 1)
        };
        if !ok {
            return ILLEGAL_SENTINEL;
        }
        match decode_mode(ea_mode, ea_reg) {
            Some(mode) => {
                let mask: u16 = self.read_imm_16(bus);
                if is_load {
                    self.exec_movem_to_reg(bus, size, mode, mask)
                } else {
                    self.exec_movem_to_mem(bus, size, mode, mask)
                }
            },
            None => ILLEGAL_SENTINEL,
        }
    }

    /// MULL and DIVL (68020+): An direct is illegal.
    pub fn exec_long_mul_div<B: AddressBus>(&mut self, bus: &mut B, opcode: u16) -> (r: i32)
        ensures
            (Machine::of(*final(self), *final(bus)), r) == Machine::of(*old(self), *old(bus)).exec_long_mul_div(opcode),
    {
        proof {
            reveal(Machine::exec_long_mul_div);
        }
        let ea_mode: u16 = (opcode >> 3) & 7;
        if self.model.is_pre_68020 || ea_mode == 1 || (ea_mode == 7 && opcode & 7 > 4) {
            return ILLEGAL_SENTINEL;
        }
        if opcode & 0x0040 == 0 {
            return self.run_unit(bus, UnitOp::MultiplyLong { opcode: opcode });
        }
        self.run_unit(bus, UnitOp::DivideLong { opcode: opcode })
    }

    /// The instructions 0x4E70 to 0x4E7B, which have no operand field.
    pub fn dispatch_system<B: AddressBus>(&mut self, bus: &mut B, opcode: u16) -> (r: i32)
        ensures
            (Machine::of(*final(self), *final(bus)), r) == Machine::of(*old(self), *old(bus)).dispatch_system(opcode),
    {
        proof {
            reveal(Machine::dispatch_system);
        }
        match opcode {
            0x4E70 => self.exec_reset(bus),
            0x4E71 => {
                self.trace_t0_68040_sync();
                4
            },
            0x4E72 => self.exec_stop(bus),
            0x4E73 => self.exec_rte(bus),
            0x4E74 => self.exec_rtd(bus),
            0x4E75 => self.exec_rts(bus),
            0x4E76 => self.exec_trapv(bus),
            0x4E77 => self.exec_rtr(bus),
            0x4E7A => self.exec_movec(bus, false),
            0x4E7B => self.exec_movec(bus, true),
            _ => ILLEGAL_SENTINEL,
        }
    }

    /// The instructions 0x4800 to 0x48FF: NBCD, SWAP, BKPT, PEA, EXT and
    /// MOVEM to memory.
    pub fn dispatch_group_48<B: AddressBus>(&mut self, bus: &mut B, opcode: u16) -> (r: i32)
        ensures
            (Machine::of(*final(self), *final(bus)), r) == Machine::of(*old(self), *old(bus)).dispatch_group_48(opcode),
    {
        proof {
            reveal(Machine::dispatch_group_48);
        }
        let ea_mode: u16 = (opcode >> 3) & 7;
        let ea_reg: usize = (opcode & 7) as usize;
        match (opcode >> 6) & 3 {
            0 => self.exec_nbcd_group(bus, opcode),
            1 => {
                if ea_mode == 0 {
                    self.exec_swap(ea_reg)
                } else if ea_mode == 1 {
                    BKPT_SENTINEL_BASE + (opcode & 7) as i32
                } else {
                    self.exec_address_group(bus, opcode, false)
                }
            },
            2 => {
                if ea_mode == 0 {
                    self.exec_ext(Size::Word, ea_reg)
                } else if ea_mode == 1 {
                    ILLEGAL_SENTINEL
                } else {
                    self.exec_movem_group(bus, opcode, false)
                }
            },
            _ => {
                if ea_mode == 0 {
                    self.exec_ext(Size::Long, ea_reg)
                } else if ea_mode == 1 {
                    ILLEGAL_SENTINEL
                } else {
                    self.exec_movem_group(bus, opcode, false)
                }
            },
        }
    }

    /// The instructions 0x4E40 to 0x4EFF that name a register or an operand:
    /// TRAP, LINK, UNLK, MOVE USP, JSR and JMP.
    pub fn dispatch_group_4e<B: AddressBus>(&mut self, bus: &mut B, opcode: u16) -> (r: i32)
        ensures
            (Machine::of(*final(self), *final(bus)), r) == Machine::of(*old(self), *old(bus)).dispatch_group_4e(opcode),
    {
        proof {
            reveal(Machine::dispatch_group_4e);
        }
        let ea_reg: usize = (opcode & 7) as usize;
        if (opcode >> 4) & 0xF == 4 {
            return TRAP_SENTINEL_BASE + (opcode & 0xF) as i32;
        }
        if (opcode & 0xFFF8) == 0x4E50 {
            return self.exec_link(bus, ea_reg);
        }
        if (opcode & 0xFFF8) == 0x4E58 {
            return self.exec_unlk(bus, ea_reg);
        }
        if (opcode & 0xFFF0) == 0x4E60 {
            return self.exec_move_usp(bus, opcode);
        }
        if (opcode & 0xFFC0) == 0x4E80 {
            return self.exec_jump(bus, opcode, true);
        }
        if (opcode & 0xFFC0) == 0x4EC0 {
            return self.exec_jump(bus, opcode, false);
        }
        ILLEGAL_SENTINEL
    }

    /// The one-operand instructions, by the operation field of the opcode.
    pub fn dispatch_one_operand<B: AddressBus>(&mut self, bus: &mut B, opcode: u16) -> (r: i32)
        ensures
            (Machine::of(*final(self), *final(bus)), r) == Machine::of(*old(self), *old(bus)).dispatch_one_operand(opcode),
    {
        proof {
            reveal(Machine::dispatch_one_operand);
        }
        let size_field: u16 = (opcode >> 6) & 3;
        let ea_mode: u16 = (opcode >> 3) & 7;
        match (opcode >> 8) & 0xF {
            0x0 | 0x2 => self.exec_unary_group(bus, opcode),
            0x4 => {
                if size_field == 3 {
                    self.exec_move_to_status(bus, opcode, false)
                } else {
                    self.exec_unary_group(bus, opcode)
                }
            },
            0x6 => {
                if size_field == 3 {
                    self.exec_move_to_status(bus, opcode, true)
                } else {
                    self.exec_unary_group(bus, opcode)
                }
            },
            0x8 => self.dispatch_group_48(bus, opcode),
            0xA => {
                if opcode == 0x4AFC {
                    ILLEGAL_SENTINEL
                } else if size_field == 3 {
                    self.exec_tas_group(bus, opcode)
                } else {
                    self.exec_tst_group(bus, opcode)
                }
            },
            0xC => {
                if ea_mode >= 2 {
                    self.exec_movem_group(bus, opcode, true)
                } else {
                    ILLEGAL_SENTINEL
                }
            },
            0xE => self.dispatch_group_4e(bus, opcode),
            _ => ILLEGAL_SENTINEL,
        }
    }

    /// Group 4: miscellaneous. LEA and CHK are told by bits 6 to 8, before
    /// the operation field.
    pub fn dispatch_group_4<B: AddressBus>(&mut self, bus: &mut B, opcode: u16) -> (r: i32)
        ensures
            (Machine::of(*final(self), *final(bus)), r) == Machine::of(*old(self), *old(bus)).dispatch_group_4(opcode),
    {
        proof {
            reveal(Machine::dispatch_group_4);
        }
        let ea_mode: u16 = (opcode >> 3) & 7;
        let ea_reg: usize = (opcode & 7) as usize;
        let opmode: u16 = (opcode >> 6) & 7;
        if (opcode & 0xFFF8) == 0x4808 {
            if self.model.is_pre_68020 {
                return ILLEGAL_SENTINEL;
            }
            return self.exec_link_long(bus, ea_reg);
        }
        if (opcode & 0xFF80) == 0x4C00 {
            return self.exec_long_mul_div(bus, opcode);
        }
        if (opcode & 0xFFC0) == 0x40C0 {
            return self.exec_move_from_sr(bus, opcode);
        }
        if (opcode & 0xFFC0) == 0x42C0 {
            return self.exec_move_from_ccr(bus, opcode);
        }
        if opmode == 6 {
            return self.exec_chk_group(bus, opcode, Size::Word);
        }
        if opmode == 4 {
            return self.exec_chk_group(bus, opcode, Size::Long);
        }
        if opmode == 5 {
            return ILLEGAL_SENTINEL;
        }
        if (opcode & 0xFFF0) == 0x4E70 {
            return self.dispatch_system(bus, opcode);
        }
        if opcode == 0x4AC8 && self.is_060() {
            return self.exec_halt(bus);
        }
        if opcode == 0x4ACC && self.is_060() {
            return 4;
        }
        if opmode == 7 {
            // EXTB.L shares its encoding with LEA Dn.
            if (opcode & 0xFFF8) == 0x49C0 {
                if self.model.is_pre_68020 {
                    return ILLEGAL_SENTINEL;
                }
                return self.exec_extb(ea_reg);
            }
            return self.exec_address_group(bus, opcode, true);
        }
        self.dispatch_one_operand(bus, opcode)
    }
}

} // verus!
