//! Dispatch of the arithmetic, logic, branch and shift groups.

use vstd::prelude::*;
use crate::cpu::{CpuCore, LoopState, PrefetchState, RunState};
use crate::ea::{decode_mode, is_register_direct, AddressingMode, EaResult};
use crate::exceptions::VECTOR_TRAPV;
use crate::instructions::ILLEGAL_SENTINEL;
use crate::machine::Machine;
use crate::memory::{AddressBus, UnitOp};
use crate::prefetch::{sext16, sext8};
use crate::timing::{
    adda_suba_cycles, addq_subq_cycles, alu_dn_ea_cycles, alu_ea_dn_cycles, compare_addr_cycles,
    compare_ea_dn_cycles, ea_source_cycles, eor_cycles,
};
use crate::types::{CpuType, Size};

verus! {

/// Operand size of a two-bit size field.
pub open spec fn spec_decode_size_00(bits: u16) -> Size {
    match bits {
        0 => Size::Byte,
        1 => Size::Word,
        2 => Size::Long,
        _ => Size::Byte,
    }
}

/// Operand size of a two-bit size field.
#[verifier::when_used_as_spec(spec_decode_size_00)]
pub fn decode_size_00(bits: u16) -> (r: Size)
    ensures
        r == spec_decode_size_00(bits),
{
    match bits {
        0 => Size::Byte,
        1 => Size::Word,
        2 => Size::Long,
        _ => Size::Byte,
    }
}

/// Operand size of an operation-mode field.
pub open spec fn spec_decode_size_012(bits: u16) -> Size {
    match bits {
        0 => Size::Byte,
        1 => Size::Word,
        2 => Size::Long,
        _ => Size::Long,
    }
}

/// Operand size of an operation-mode field.
#[verifier::when_used_as_spec(spec_decode_size_012)]
pub fn decode_size_012(bits: u16) -> (r: Size)
    ensures
        r == spec_decode_size_012(bits),
{
    match bits {
        0 => Size::Byte,
        1 => Size::Word,
        2 => Size::Long,
        _ => Size::Long,
    }
}

/// Control addressing modes: memory addresses without a side effect or
/// register form.
pub open spec fn spec_ea_control(ea_mode: u8, ea_reg: u8) -> bool {
    match ea_mode {
        2 | 5 | 6 => true,
        7 => ea_reg <= 3,
        _ => false,
    }
}

/// Control addressing modes: memory addresses without a side effect or
/// register form.
#[verifier::when_used_as_spec(spec_ea_control)]
pub fn ea_control(ea_mode: u8, ea_reg: u8) -> (r: bool)
    ensures
        r == spec_ea_control(ea_mode, ea_reg),
{
    match ea_mode {
        2 | 5 | 6 => true,
        7 => ea_reg <= 3,
        _ => false,
    }
}

/// Data alterable addressing modes: a data register or writable memory.
pub open spec fn spec_ea_data_alterable(ea_mode: u8, ea_reg: u8) -> bool {
    match ea_mode {
        0 | 2 | 3 | 4 | 5 | 6 => true,
        7 => ea_reg <= 1,
        _ => false,
    }
}

/// Data alterable addressing modes: a data register or writable memory.
#[verifier::when_used_as_spec(spec_ea_data_alterable)]
pub fn ea_data_alterable(ea_mode: u8, ea_reg: u8) -> (r: bool)
    ensures
        r == spec_ea_data_alterable(ea_mode, ea_reg),
{
    match ea_mode {
        0 | 2 | 3 | 4 | 5 | 6 => true,
        7 => ea_reg <= 1,
        _ => false,
    }
}

/// 68010 loop mode: whether an opcode is a loopable one-word instruction.
/// Loopable memory operands are (An), (An)+ and -(An).
pub open spec fn spec_loopable_68010(op: u16) -> bool {
    let mode: u16 = (op >> 3) & 7;
    let loop_ea: bool = 2 <= mode && mode <= 4;
    let opmode: u16 = (op >> 6) & 7;
    let family: u16 = op >> 12;
    match family {
        0x1 | 0x2 | 0x3 => mode <= 4 && 2 <= opmode && opmode <= 4,
        0x4 => {
            let hi: u16 = (op >> 8) & 0xF;
            let size: u16 = (op >> 6) & 3;
            loop_ea && (((hi == 0x0 || hi == 0x2 || hi == 0x4 || hi == 0x6) && size != 3) || (hi == 0x8
            && size == 0) || (hi == 0xA && size != 3))
        },
        0x8 | 0x9 | 0xB | 0xC | 0xD => {
            if (family == 0xC || family == 0x8) && op & 0x01F8 == 0x0108 {
                true
            } else {
                if (family == 0x9 || family == 0xD || family == 0xB) && op & 0x0138 == 0x0108 && opmode
            & 3 != 3 {
                    true
                } else {
                    match opmode {
                        3 | 7 => loop_ea && family != 0x8 && family != 0xC,
                        _ => loop_ea,
                    }
                }
            }
        },
        0xE => opmode == 3 && loop_ea && (op >> 9) & 7 <= 3,
        _ => false,
    }
}

/// 68010 loop mode: whether an opcode is a loopable one-word instruction.
/// Loopable memory operands are (An), (An)+ and -(An).
#[verifier::when_used_as_spec(spec_loopable_68010)]
pub fn loopable_68010(op: u16) -> (r: bool)
    ensures
        r == spec_loopable_68010(op),
{
    let mode: u16 = (op >> 3) & 7;
    let loop_ea: bool = 2 <= mode && mode <= 4;
    let opmode: u16 = (op >> 6) & 7;
    let family: u16 = op >> 12;
    match family {
        0x1 | 0x2 | 0x3 => mode <= 4 && 2 <= opmode && opmode <= 4,
        0x4 => {
            let hi: u16 = (op >> 8) & 0xF;
            let size: u16 = (op >> 6) & 3;
            loop_ea && (((hi == 0x0 || hi == 0x2 || hi == 0x4 || hi == 0x6) && size != 3) || (hi == 0x8
                && size == 0) || (hi == 0xA && size != 3))
        },
        0x8 | 0x9 | 0xB | 0xC | 0xD => {
            if (family == 0xC || family == 0x8) && op & 0x01F8 == 0x0108 {
                return true;
            }
            if (family == 0x9 || family == 0xD || family == 0xB) && op & 0x0138 == 0x0108 && opmode
                & 3 != 3 {
                return true;
            }
            match opmode {
                3 | 7 => loop_ea && family != 0x8 && family != 0xC,
                _ => loop_ea,
            }
        },
        0xE => opmode == 3 && loop_ea && (op >> 9) & 7 <= 3,
        _ => false,
    }
}

impl Machine {
    /// One iteration of a DBcc held in 68010 loop mode: it runs from the held
    /// pair of words without any instruction fetch. An exit refills the queue
    /// from the fall-through path.
    #[verifier::opaque]
    pub open spec fn exec_dbcc_looping(self, opcode: u16) -> (Machine, i32) {
        if self.cpu.test_condition(((opcode >> 8) & 0xF) as u8) {
            let m = self.on_cpu(CpuCore { looping: LoopState { active: false, ..self.cpu.looping }, ..self.cpu });
            let m = m.on_cpu(CpuCore { pc: m.cpu.pc.wrapping_add(2), ..m.cpu });
            let m = m.full_prefetch();
            (m, 12)
        } else {
            let dn: usize = (opcode & 7) as usize;
            let counter: u16 = (self.cpu.d(dn) as u16).wrapping_sub(1);
            let m = self.on_cpu(self.cpu.spec_write_data_reg(dn, Size::Word, counter as u32));
            if counter != 0xFFFF {
                let m = m.on_cpu(CpuCore { pc: m.cpu.pc.wrapping_sub(4), ..m.cpu });
                let m = m.on_cpu(CpuCore { queue: PrefetchState { prefetch_queue: vstd::array::spec_array_update(m.cpu.queue.prefetch_queue, (0) as int, m.cpu.looping.body_word), ..m.cpu.queue }, ..m.cpu });
                let m = m.on_cpu(CpuCore { queue: PrefetchState { prefetch_queue: vstd::array::spec_array_update(m.cpu.queue.prefetch_queue, (1) as int, m.cpu.looping.dbcc_word), ..m.cpu.queue }, ..m.cpu });
                let m = m.on_cpu(CpuCore { queue: PrefetchState { prefetch_count: 2, ..m.cpu.queue }, ..m.cpu });
                (m, 6)
            } else {
                let m = m.on_cpu(CpuCore { looping: LoopState { active: false, ..m.cpu.looping }, ..m.cpu });
                let m = m.on_cpu(CpuCore { pc: m.cpu.pc.wrapping_add(2), ..m.cpu });
                let m = m.full_prefetch();
                (m, 16)
            }
        }
    }

    /// DBcc. The displacement is relative to its own word. On the branching
    /// paths it is consumed without prefetching ahead.
    #[verifier::opaque]
    pub open spec fn exec_dbcc(self, opcode: u16) -> (Machine, i32) {
        if self.cpu.looping.active {
            self.exec_dbcc_looping(opcode)
        } else {
            let dn: usize = (opcode & 7) as usize;
            let counter: u16 = (self.cpu.d(dn) as u16).wrapping_sub(1);
            let cc_true: bool = self.cpu.test_condition(((opcode >> 8) & 0xF) as u8);
            let m = self.on_cpu(self.cpu.spec_internal_cycles(if cc_true { 4 } else { 2 }));
            let m = m.on_cpu(CpuCore { queue: PrefetchState { consume_without_prefetch: !cc_true, ..m.cpu.queue }, ..m.cpu });
            let (m, disp) = m.read_imm_16();
            let m = m.on_cpu(CpuCore { queue: PrefetchState { consume_without_prefetch: false, ..m.cpu.queue }, ..m.cpu });
            if m.cpu.faulted() {
                (m, 50)
            } else {
                if cc_true {
                    (m, 12)
                } else {
                    let m = m.on_cpu(m.cpu.spec_write_data_reg(dn, Size::Word, counter as u32));
                    if counter != 0xFFFF {
                        let m = m.on_cpu(CpuCore { pc: m.cpu.pc.wrapping_add(sext16(disp)).wrapping_sub(2), ..m.cpu });
                        let m = m.full_prefetch();
                        let m = m.on_cpu(m.cpu.spec_enter_loop_mode(opcode, disp));
                        if m.cpu.model.is_pre_68020 {
                            (m, 10)
                        } else {
                            (m, 12)
                        }
                    } else {
                        let m = if m.cpu.pc & 1 == 0 {
                            let m = m.flush_sync();
                            let masked: u32 = m.cpu.address(m.cpu.pc);
                            let m = m.bus_read_word(masked).0;
                            m
                        } else {
                            m
                        };
                        let m = m.full_prefetch();
                        (m, 14)
                    }
                }
            }
        }
    }

    /// TRAPcc (68020+): consume the operand, then trap on the condition.
    #[verifier::opaque]
    pub open spec fn exec_trapcc(self, opcode: u16) -> (Machine, i32) {
        let m = if opcode & 7 == 2 {
            let m = self.read_imm_16().0;
            m
        } else if opcode & 7 == 3 {
            let m = self.read_imm_32().0;
            m
        } else {
            self
        };
        if m.cpu.test_condition(((opcode >> 8) & 0xF) as u8) {
            m.take_group2_exception(VECTOR_TRAPV)
        } else {
            (m, 4)
        }
    }

    /// Scc. The 68000 writes a register after the final prefetch, with two
    /// internal clocks more for a true condition, and reads memory before it
    /// writes it.
    #[verifier::opaque]
    pub open spec fn exec_scc(self, opcode: u16) -> (Machine, i32) {
        let ea_mode: u8 = ((opcode >> 3) & 7) as u8;
        let ea_reg: u8 = (opcode & 7) as u8;
        if !ea_data_alterable(ea_mode, ea_reg) {
            (self, ILLEGAL_SENTINEL)
        } else {
            let value: u32 = if self.cpu.test_condition(((opcode >> 8) & 0xF) as u8) {
                0xFF
            } else {
                0
            };
            match decode_mode(ea_mode, ea_reg) {
                Some(mode) => {
                    if self.cpu.model.cpu_type == CpuType::M68000 && is_register_direct(mode) {
                        let m = self.top_up_prefetch();
                        let m = m.ipl_poll_point();
                        let m = if value != 0 {
                            let m = m.on_cpu(m.cpu.spec_internal_cycles(2));
                            let m = m.flush_sync();
                            m
                        } else {
                            m
                        };
                        let m = m.on_cpu(m.cpu.spec_write_data_reg(ea_reg as usize, Size::Byte, value));
                        if value != 0 {
                            (m, 6)
                        } else {
                            (m, 4)
                        }
                    } else {
                        let (m, ea) = self.resolve_ea(mode, Size::Byte);
                        if m.cpu.faulted() {
                            (m, 50)
                        } else {
                            if m.cpu.model.cpu_type == CpuType::M68000 {
                                let m = m.read_resolved_ea(ea, Size::Byte).0;
                                if m.cpu.faulted() {
                                    (m, 50)
                                } else {
                                    let m = m.write_resolved_ea_np_poll(ea, Size::Byte, value);
                                    if m.cpu.model.cpu_type == CpuType::M68000 {
                                        (m, ea_source_cycles(mode, Size::Byte).wrapping_add(8))
                                    } else if is_register_direct(mode) {
                                        (m, 4)
                                    } else {
                                        (m, 8)
                                    }
                                }
                            } else {
                                let m = m.write_resolved_ea_np_poll(ea, Size::Byte, value);
                                if m.cpu.model.cpu_type == CpuType::M68000 {
                                    (m, ea_source_cycles(mode, Size::Byte).wrapping_add(8))
                                } else if is_register_direct(mode) {
                                    (m, 4)
                                } else {
                                    (m, 8)
                                }
                            }
                        }
                    }
                },
                None => (self, ILLEGAL_SENTINEL),
            }
        }
    }

    /// ADDQ and SUBQ. An address register takes word and long only.
    #[verifier::opaque]
    pub open spec fn exec_quick_group(self, opcode: u16) -> (Machine, i32) {
        let ea_mode: u8 = ((opcode >> 3) & 7) as u8;
        let ea_reg: u8 = (opcode & 7) as u8;
        let size: Size = decode_size_00((opcode >> 6) & 3);
        let ea_ok: bool = if ea_mode == 1 {
            size != Size::Byte
        } else {
            ea_data_alterable(ea_mode, ea_reg)
        };
        if !ea_ok {
            (self, ILLEGAL_SENTINEL)
        } else {
            let field: u32 = ((opcode >> 9) & 7) as u32;
            let data: u32 = if field == 0 {
                8
            } else {
                field
            };
            match decode_mode(ea_mode, ea_reg) {
                Some(mode) => {
                    let (m, legacy) = self.exec_quick(size, data, mode, opcode & 0x100 != 0);
                    if m.cpu.model.cpu_type == CpuType::M68000 {
                        (m, addq_subq_cycles(mode, size))
                    } else {
                        (m, legacy)
                    }
                },
                None => (self, ILLEGAL_SENTINEL),
            }
        }
    }

    /// Group 5: ADDQ, SUBQ, Scc, DBcc, TRAPcc. TRAPcc takes the operand modes
    /// that Scc cannot write.
    #[verifier::opaque]
    pub open spec fn dispatch_group_5(self, opcode: u16) -> (Machine, i32) {
        let ea_mode: u8 = ((opcode >> 3) & 7) as u8;
        let ea_reg: u8 = (opcode & 7) as u8;
        if (opcode >> 6) & 3 != 3 {
            self.exec_quick_group(opcode)
        } else {
            let is_020_plus: bool = crate::types::is_020_to_040(self.cpu.model.cpu_type) || self.cpu.is_060();
            if is_020_plus && ea_mode == 7 && (ea_reg == 2 || ea_reg == 3 || ea_reg == 4) {
                self.exec_trapcc(opcode)
            } else {
                if ea_mode == 1 {
                    self.exec_dbcc(opcode)
                } else {
                    self.exec_scc(opcode)
                }
            }
        }
    }

    /// Group 6: BRA, BSR and Bcc. Displacements count from the word after the
    /// opcode. The condition is evaluated before the displacement word is
    /// consumed: on taken paths the consume does not prefetch ahead. The
    /// 68020 and later take a displacement byte of $FF as the long form.
    #[verifier::opaque]
    pub open spec fn dispatch_group_6(self, opcode: u16) -> (Machine, i32) {
        let condition: u8 = ((opcode >> 8) & 0xF) as u8;
        let displacement: u8 = (opcode & 0xFF) as u8;
        let base_pc: u32 = self.cpu.pc;
        let taken: bool = condition < 2 || self.cpu.test_condition(condition);
        let m = self.on_cpu(self.cpu.spec_internal_cycles(if taken { 2 } else { 4 }));
        let m = m.on_cpu(CpuCore { queue: PrefetchState { consume_without_prefetch: taken, ..m.cpu.queue }, ..m.cpu });
        let (m, disp) = if displacement == 0 {
            let (m, w) = m.read_imm_16();
            (m, sext16(w))
        } else if displacement == 0xFF && !m.cpu.model.is_pre_68020 {
            m.read_imm_32()
        } else {
            (m, sext8(displacement))
        };
        let m = m.on_cpu(CpuCore { queue: PrefetchState { consume_without_prefetch: false, ..m.cpu.queue }, ..m.cpu });
        if condition == 1 {
            let m = m.on_cpu(CpuCore { run: RunState { change_of_flow: true, ..m.cpu.run }, ..m.cpu });
            let return_pc: u32 = m.cpu.pc;
            let m = m.on_cpu(CpuCore { pc: base_pc.wrapping_add(disp), ..m.cpu });
            let m = m.push_32(return_pc);
            let m = m.full_prefetch();
            (m, 18)
        } else {
            if taken {
                let m = m.on_cpu(CpuCore { run: RunState { change_of_flow: true, ..m.cpu.run }, ..m.cpu });
                let m = m.on_cpu(CpuCore { pc: base_pc.wrapping_add(disp), ..m.cpu });
                let m = m.full_prefetch();
                (m, 10)
            } else if displacement == 0 {
                (m, 12)
            } else {
                (m, 8)
            }
        }
    }

    /// ADD, SUB, AND and OR with a data register as destination. ADD and SUB
    /// also take address registers, but not as bytes.
    #[verifier::opaque]
    pub open spec fn exec_alu_to_register(self, opcode: u16) -> (Machine, i32) {
        let group: u16 = (opcode >> 12) & 0xF;
        let reg: usize = ((opcode >> 9) & 7) as usize;
        let ea_mode: u8 = ((opcode >> 3) & 7) as u8;
        let ea_reg: u8 = (opcode & 7) as u8;
        let size: Size = decode_size_012((opcode >> 6) & 7);
        let arithmetic: bool = group == 0x9 || group == 0xD;
        if ea_mode == 7 && ea_reg > 4 || ea_mode == 1 && (!arithmetic || size == Size::Byte) {
            (self, ILLEGAL_SENTINEL)
        } else {
            match decode_mode(ea_mode, ea_reg) {
                Some(mode) => {
                    let (m, src) = self.read_ea(mode, size);
                    if group == 0x8 && m.cpu.faulted() {
                        (m, 50)
                    } else {
                        let dst: u32 = m.cpu.d(reg) & size.mask();
                        let (m, done) = match group {
                            0x8 => {
                                let (cpu, v1) = m.cpu.spec_exec_or(size, src, dst);
                                let m = m.on_cpu(cpu);
                                (m, v1)
                            },
                            0x9 => {
                                let (cpu, v2) = m.cpu.spec_exec_sub(size, src, dst);
                                let m = m.on_cpu(cpu);
                                (m, v2)
                            },
                            0xC => {
                                let (cpu, v3) = m.cpu.spec_exec_and(size, src, dst);
                                let m = m.on_cpu(cpu);
                                (m, v3)
                            },
                            _ => {
                                let (cpu, v4) = m.cpu.spec_exec_add(size, src, dst);
                                let m = m.on_cpu(cpu);
                                (m, v4)
                            },
                        };
                        let m = m.on_cpu(m.cpu.spec_write_data_reg(reg, size, done.0));
                        if m.cpu.model.cpu_type == CpuType::M68000 {
                            let (m, v5) = m.finish_m68000_alu_ea_dn_long_tail(mode, size);
                            if !v5 {
                                (m, 50)
                            } else {
                                (m, alu_ea_dn_cycles(mode, size))
                            }
                        } else {
                            (m, 4)
                        }
                    }
                },
                None => (self, ILLEGAL_SENTINEL),
            }
        }
    }

    /// ADD, SUB, AND and OR with a memory destination. The IPL poll rides the
    /// prefetch before the write.
    #[verifier::opaque]
    pub open spec fn exec_alu_to_memory(self, opcode: u16) -> (Machine, i32) {
        let group: u16 = (opcode >> 12) & 0xF;
        let reg: usize = ((opcode >> 9) & 7) as usize;
        let ea_mode: u8 = ((opcode >> 3) & 7) as u8;
        let ea_reg: u8 = (opcode & 7) as u8;
        let size: Size = decode_size_012((opcode >> 6) & 3);
        if ea_mode < 2 || !ea_data_alterable(ea_mode, ea_reg) {
            (self, ILLEGAL_SENTINEL)
        } else {
            match decode_mode(ea_mode, ea_reg) {
                Some(mode) => {
                    let src: u32 = self.cpu.d(reg) & size.mask();
                    let (m, ea) = self.resolve_ea(mode, size);
                    let (m, dst) = m.read_resolved_ea(ea, size);
                    if group == 0x8 && m.cpu.faulted() {
                        (m, 50)
                    } else {
                        let (m, done) = match group {
                            0x8 => {
                                let (cpu, v1) = m.cpu.spec_exec_or(size, src, dst);
                                let m = m.on_cpu(cpu);
                                (m, v1)
                            },
                            0x9 => {
                                let (cpu, v2) = m.cpu.spec_exec_sub(size, src, dst);
                                let m = m.on_cpu(cpu);
                                (m, v2)
                            },
                            0xC => {
                                let (cpu, v3) = m.cpu.spec_exec_and(size, src, dst);
                                let m = m.on_cpu(cpu);
                                (m, v3)
                            },
                            _ => {
                                let (cpu, v4) = m.cpu.spec_exec_add(size, src, dst);
                                let m = m.on_cpu(cpu);
                                (m, v4)
                            },
                        };
                        let m = m.write_resolved_ea_np_poll(ea, size, done.0);
                        if m.cpu.model.cpu_type == CpuType::M68000 {
                            (m, alu_dn_ea_cycles(mode, size))
                        } else {
                            (m, 8)
                        }
                    }
                },
                None => (self, ILLEGAL_SENTINEL),
            }
        }
    }

    /// ADDA and SUBA: every addressing mode.
    #[verifier::opaque]
    pub open spec fn exec_alu_to_address(self, opcode: u16) -> (Machine, i32) {
        let reg: usize = ((opcode >> 9) & 7) as usize;
        let size: Size = if (opcode >> 6) & 7 == 3 {
            Size::Word
        } else {
            Size::Long
        };
        match decode_mode(((opcode >> 3) & 7) as u8, (opcode & 7) as u8) {
            Some(mode) => {
                let (m, src) = self.read_ea(mode, size);
                let (m, legacy) = if (opcode >> 12) & 0xF == 0x9 {
                    let (cpu, v1) = m.cpu.spec_exec_suba(size, src, reg);
                    let m = m.on_cpu(cpu);
                    (m, v1)
                } else {
                    let (cpu, v2) = m.cpu.spec_exec_adda(size, src, reg);
                    let m = m.on_cpu(cpu);
                    (m, v2)
                };
                if m.cpu.model.cpu_type == CpuType::M68000 {
                    let (m, v3) = m.finish_m68000_adda_suba_tail(mode, size);
                    if !v3 {
                        (m, 50)
                    } else {
                        (m, adda_suba_cycles(mode, size))
                    }
                } else {
                    (m, legacy)
                }
            },
            None => (self, ILLEGAL_SENTINEL),
        }
    }

    /// ADDX and SUBX between data registers.
    #[verifier::opaque]
    pub open spec fn exec_extended_rr(self, opcode: u16) -> (Machine, i32) {
        let reg: usize = ((opcode >> 9) & 7) as usize;
        let size: Size = decode_size_012((opcode >> 6) & 3);
        let src: u32 = self.cpu.d((opcode & 7) as usize) & size.mask();
        let dst: u32 = self.cpu.d(reg) & size.mask();
        let (m, result) = if (opcode >> 12) & 0xF == 0x9 {
            let (cpu, v1) = self.cpu.spec_exec_subx(size, src, dst);
            let m = self.on_cpu(cpu);
            (m, v1)
        } else {
            let (cpu, v2) = self.cpu.spec_exec_addx(size, src, dst);
            let m = self.on_cpu(cpu);
            (m, v2)
        };
        if m.cpu.model.cpu_type == CpuType::M68000 {
            let (m, v3) = m.finish_m68000_addx_subx_register_tail(size);
            if !v3 {
                (m, 50)
            } else {
                let m = m.on_cpu(m.cpu.spec_write_data_reg(reg, size, result));
                if m.cpu.model.cpu_type == CpuType::M68000 && size == Size::Long {
                    (m, 8)
                } else {
                    (m, 4)
                }
            }
        } else {
            let m = m.on_cpu(m.cpu.spec_write_data_reg(reg, size, result));
            if m.cpu.model.cpu_type == CpuType::M68000 && size == Size::Long {
                (m, 8)
            } else {
                (m, 4)
            }
        }
    }

    /// Operand read of the memory forms of ADDX and SUBX: the 68000 reads
    /// long words low half first.
    #[verifier::opaque]
    pub open spec fn read_extended_operand(self, ea: EaResult, size: Size) -> (Machine, u32) {
        if self.cpu.model.cpu_type == CpuType::M68000 && size == Size::Long {
            match ea {
                EaResult::Memory(address) => self.read_long_predec_68000(address),
                _ => self.read_resolved_ea(ea, size),
            }
        } else {
            self.read_resolved_ea(ea, size)
        }
    }

    /// Result write of the memory forms of ADDX and SUBX: the 68000 puts the
    /// final prefetch between the halves of a long word.
    #[verifier::opaque]
    pub open spec fn write_extended_result(self, ea: EaResult, size: Size, result: u32) -> Machine {
        if self.cpu.model.cpu_type == CpuType::M68000 && size == Size::Long {
            match ea {
                EaResult::Memory(address) => {
                    let m = self.write_long_mm_interleaved_68000(address, result);
                    m
                },
                _ => {
                    let m = self.write_resolved_ea(ea, size, result);
                    m
                },
            }
        } else {
            let m = self.write_resolved_ea(ea, size, result);
            m
        }
    }

    /// ADDX -(Ay),-(Ax) and SUBX -(Ay),-(Ax). The two predecrements overlap:
    /// the leading internal period is two clocks in all. A store that is going
    /// to fault leaves the flags alone.
    #[verifier::opaque]
    pub open spec fn exec_extended_mm(self, opcode: u16) -> (Machine, i32) {
        let size: Size = decode_size_012((opcode >> 6) & 3);
        let (m, src_ea) = self.resolve_ea(AddressingMode::PreDecrement((opcode & 7) as u8), size);
        let (m, dst_ea) = m.resolve_ea(AddressingMode::PreDecrement(((opcode >> 9) & 7) as u8), size);
        let m = m.on_cpu(CpuCore { queue: PrefetchState { pending_sync_clocks: 0, ..m.cpu.queue }, ..m.cpu });
        let m = m.on_cpu(m.cpu.spec_internal_cycles(2));
        let (m, src) = m.read_extended_operand(src_ea, size);
        if m.cpu.faulted() {
            (m, 50)
        } else {
            let (m, dst) = m.read_extended_operand(dst_ea, size);
            if m.cpu.faulted() {
                (m, 50)
            } else {
                let m = if size != Size::Long {
                    let m = m.ipl_poll_point();
                    m
                } else {
                    m
                };
                if m.cpu.model.cpu_type == CpuType::M68000 && size != Size::Byte && m.cpu.odd_address(dst_ea) {
                    let m = match dst_ea {
                        EaResult::Memory(address) => {
                            let m = m.trigger_address_error(address, true, false);
                            m
                        },
                        _ => m,
                    };
                    (m, 50)
                } else {
                    let (m, result) = if (opcode >> 12) & 0xF == 0x9 {
                        let (cpu, v1) = m.cpu.spec_exec_subx(size, src, dst);
                        let m = m.on_cpu(cpu);
                        (m, v1)
                    } else {
                        let (cpu, v2) = m.cpu.spec_exec_addx(size, src, dst);
                        let m = m.on_cpu(cpu);
                        (m, v2)
                    };
                    let m = m.write_extended_result(dst_ea, size, result);
                    if m.cpu.faulted() {
                        (m, 50)
                    } else if m.cpu.model.cpu_type == CpuType::M68000 && size == Size::Long {
                        (m, 30)
                    } else {
                        (m, 18)
                    }
                }
            }
        }
    }

    /// Groups 9 and D: SUB and ADD in all their forms.
    #[verifier::opaque]
    pub open spec fn dispatch_add_sub(self, opcode: u16) -> (Machine, i32) {
        let ea_mode: u16 = (opcode >> 3) & 7;
        match (opcode >> 6) & 7 {
            0 | 1 | 2 => self.exec_alu_to_register(opcode),
            3 | 7 => self.exec_alu_to_address(opcode),
            _ => {
                if ea_mode == 0 {
                    self.exec_extended_rr(opcode)
                } else if ea_mode == 1 {
                    self.exec_extended_mm(opcode)
                } else {
                    self.exec_alu_to_memory(opcode)
                }
            },
        }
    }

    /// Group 9: SUB, SUBA, SUBX.
    #[verifier::opaque]
    pub open spec fn dispatch_group_9(self, opcode: u16) -> (Machine, i32) {
        self.dispatch_add_sub(opcode)
    }

    /// Group D: ADD, ADDA, ADDX.
    #[verifier::opaque]
    pub open spec fn dispatch_group_d(self, opcode: u16) -> (Machine, i32) {
        self.dispatch_add_sub(opcode)
    }

    /// MULU, MULS, DIVU and DIVS: data addressing only.
    #[verifier::opaque]
    pub open spec fn exec_mul_div(self, opcode: u16) -> (Machine, i32) {
        let reg: usize = ((opcode >> 9) & 7) as usize;
        let ea_mode: u8 = ((opcode >> 3) & 7) as u8;
        let ea_reg: u8 = (opcode & 7) as u8;
        if ea_mode == 1 {
            (self, ILLEGAL_SENTINEL)
        } else {
            let signed: bool = (opcode >> 6) & 7 == 7;
            match decode_mode(ea_mode, ea_reg) {
                Some(mode) => {
                    if (opcode >> 12) & 0xF == 0x8 {
                        if signed {
                            self.exec_divs(mode, reg)
                        } else {
                            self.exec_divu(mode, reg)
                        }
                    } else if signed {
                        self.exec_muls(mode, reg)
                    } else {
                        self.exec_mulu(mode, reg)
                    }
                },
                None => (self, ILLEGAL_SENTINEL),
            }
        }
    }

    /// PACK and UNPK (68020+).
    #[verifier::opaque]
    pub open spec fn exec_pack(self, opcode: u16) -> (Machine, i32) {
        if self.cpu.model.is_pre_68020 {
            (self, ILLEGAL_SENTINEL)
        } else {
            let (m, adjustment) = self.read_imm_16();
            m.run_unit(UnitOp::Pack { opcode: opcode, adjustment: adjustment })
        }
    }

    /// Group 8: OR, DIVU, DIVS, SBCD, PACK, UNPK.
    #[verifier::opaque]
    pub open spec fn dispatch_group_8(self, opcode: u16) -> (Machine, i32) {
        let reg: usize = ((opcode >> 9) & 7) as usize;
        let ea_mode: u16 = (opcode >> 3) & 7;
        let ea_reg: usize = (opcode & 7) as usize;
        let op_mode: u16 = (opcode >> 6) & 7;
        match op_mode {
            0 | 1 | 2 => self.exec_alu_to_register(opcode),
            3 | 7 => self.exec_mul_div(opcode),
            _ => {
                if op_mode == 4 && ea_mode == 0 {
                    let (cpu, v1) = self.cpu.spec_exec_sbcd_rr(ea_reg, reg);
                    let m = self.on_cpu(cpu);
                    (m, v1)
                } else if op_mode == 4 && ea_mode == 1 {
                    self.exec_decimal_mm(ea_reg, reg, true)
                } else if (op_mode == 5 || op_mode == 6) && ea_mode < 2 {
                    self.exec_pack(opcode)
                } else {
                    self.exec_alu_to_memory(opcode)
                }
            },
        }
    }

    /// Group C: AND, MULU, MULS, ABCD, EXG.
    #[verifier::opaque]
    pub open spec fn dispatch_group_c(self, opcode: u16) -> (Machine, i32) {
        let reg: usize = ((opcode >> 9) & 7) as usize;
        let ea_mode: u16 = (opcode >> 3) & 7;
        let ea_reg: usize = (opcode & 7) as usize;
        let op_mode: u16 = (opcode >> 6) & 7;
        let mode_field: u16 = (opcode >> 3) & 0x1F;
        match op_mode {
            0 | 1 | 2 => self.exec_alu_to_register(opcode),
            3 | 7 => self.exec_mul_div(opcode),
            _ => {
                if op_mode == 4 && ea_mode == 0 {
                    let (cpu, v1) = self.cpu.spec_exec_abcd_rr(ea_reg, reg);
                    let m = self.on_cpu(cpu);
                    (m, v1)
                } else if op_mode == 4 && ea_mode == 1 {
                    self.exec_decimal_mm(ea_reg, reg, false)
                } else if mode_field == 0x08 || mode_field == 0x09 || mode_field == 0x11 {
                    let (cpu, v2) = self.cpu.spec_exec_exg(opcode);
                    let m = self.on_cpu(cpu);
                    (m, v2)
                } else {
                    self.exec_alu_to_memory(opcode)
                }
            },
        }
    }

    /// CMP to a data register.
    #[verifier::opaque]
    pub open spec fn exec_compare_register(self, opcode: u16) -> (Machine, i32) {
        let reg: usize = ((opcode >> 9) & 7) as usize;
        let ea_mode: u8 = ((opcode >> 3) & 7) as u8;
        let size: Size = decode_size_012((opcode >> 6) & 7);
        if ea_mode == 1 && size == Size::Byte {
            (self, ILLEGAL_SENTINEL)
        } else {
            match decode_mode(ea_mode, (opcode & 7) as u8) {
                Some(mode) => {
                    let (m, src) = self.read_ea(mode, size);
                    if m.cpu.faulted() {
                        (m, 50)
                    } else {
                        let (cpu, v1) = m.cpu.spec_exec_compare(size, src, m.cpu.d(reg));
                        let m = m.on_cpu(cpu);
                        let legacy: i32 = v1;
                        if m.cpu.model.cpu_type == CpuType::M68000 {
                            if size == Size::Long {
                                let (m, v2) = m.finish_m68000_tail_after_final_prefetch(2);
                                if !v2 {
                                    (m, 50)
                                } else {
                                    (m, compare_ea_dn_cycles(mode, size))
                                }
                            } else {
                                (m, compare_ea_dn_cycles(mode, size))
                            }
                        } else {
                            (m, legacy)
                        }
                    }
                },
                None => (self, ILLEGAL_SENTINEL),
            }
        }
    }

    /// CMPA: every addressing mode.
    #[verifier::opaque]
    pub open spec fn exec_compare_address(self, opcode: u16) -> (Machine, i32) {
        let reg: usize = ((opcode >> 9) & 7) as usize;
        let size: Size = if (opcode >> 6) & 7 == 3 {
            Size::Word
        } else {
            Size::Long
        };
        match decode_mode(((opcode >> 3) & 7) as u8, (opcode & 7) as u8) {
            Some(mode) => {
                let (m, src) = self.read_ea(mode, size);
                if m.cpu.faulted() {
                    (m, 50)
                } else {
                    let (cpu, v1) = m.cpu.spec_exec_compare_addr(size, src, reg);
                    let m = m.on_cpu(cpu);
                    let legacy: i32 = v1;
                    if m.cpu.model.cpu_type == CpuType::M68000 {
                        let (m, v2) = m.finish_m68000_tail_after_final_prefetch(2);
                        if !v2 {
                            (m, 50)
                        } else {
                            (m, compare_addr_cycles(mode, size))
                        }
                    } else {
                        (m, legacy)
                    }
                }
            },
            None => (self, ILLEGAL_SENTINEL),
        }
    }

    /// CMPM (Ay)+,(Ax)+: the operands are read and stepped in that order. The
    /// 68000 polls IPL between the two reads.
    #[verifier::opaque]
    pub open spec fn exec_compare_memory(self, opcode: u16) -> (Machine, i32) {
        let size: Size = decode_size_012((opcode >> 6) & 3);
        let (m, src_ea) = self.resolve_ea(AddressingMode::PostIncrement((opcode & 7) as u8), size);
        let (m, src) = m.read_resolved_ea(src_ea, size);
        if m.cpu.faulted() {
            (m, 50)
        } else {
            let (m, dst_ea) = m.resolve_ea(AddressingMode::PostIncrement(((opcode >> 9) & 7) as u8), size);
            let (m, dst) = m.read_resolved_ea(dst_ea, size);
            if m.cpu.faulted() {
                (m, 50)
            } else {
                let m = if m.cpu.model.cpu_type == CpuType::M68000 {
                    let m = m.ipl_poll_point();
                    m
                } else {
                    m
                };
                let (cpu, v1) = m.cpu.spec_exec_compare(size, src, dst);
                let m = m.on_cpu(cpu);
                let legacy: i32 = v1;
                if m.cpu.model.cpu_type == CpuType::M68000 {
                    if size == Size::Long {
                        (m, 20)
                    } else {
                        (m, 12)
                    }
                } else {
                    (m, legacy)
                }
            }
        }
    }

    /// EOR Dn,<ea>. On the 68000 a register is written after the final
    /// prefetch, and after four internal clocks for a long operand.
    #[verifier::opaque]
    pub open spec fn exec_eor(self, opcode: u16) -> (Machine, i32) {
        let reg: usize = ((opcode >> 9) & 7) as usize;
        let ea_mode: u8 = ((opcode >> 3) & 7) as u8;
        let ea_reg: u8 = (opcode & 7) as u8;
        let size: Size = decode_size_012((opcode >> 6) & 3);
        if !ea_data_alterable(ea_mode, ea_reg) {
            (self, ILLEGAL_SENTINEL)
        } else {
            match decode_mode(ea_mode, ea_reg) {
                Some(mode) => {
                    if self.cpu.model.cpu_type == CpuType::M68000 && ea_mode == 0 {
                        let result: u32 = (self.cpu.d(reg) ^ (self.cpu.d(ea_reg as usize) & size.mask())) & size.mask();
                        let m = self.on_cpu(self.cpu.spec_set_logic_flags(result, size));
                        let clocks: u32 = if size == Size::Long {
                            4
                        } else {
                            0
                        };
                        let (m, v1) = m.finish_m68000_tail_after_final_prefetch(clocks);
                        if !v1 {
                            (m, 50)
                        } else {
                            let m = m.on_cpu(m.cpu.spec_write_data_reg(ea_reg as usize, size, result));
                            (m, eor_cycles(mode, size))
                        }
                    } else {
                        let (m, ea) = self.resolve_ea(mode, size);
                        let (m, dst) = m.read_resolved_ea(ea, size);
                        if m.cpu.faulted() {
                            (m, 50)
                        } else {
                            let result: u32 = (m.cpu.d(reg) ^ dst) & size.mask();
                            let m = m.write_resolved_ea_np_poll(ea, size, result);
                            if m.cpu.faulted() {
                                (m, 50)
                            } else {
                                let m = m.on_cpu(m.cpu.spec_set_logic_flags(result, size));
                                if m.cpu.model.cpu_type == CpuType::M68000 {
                                    (m, eor_cycles(mode, size))
                                } else {
                                    (m, 8)
                                }
                            }
                        }
                    }
                },
                None => (self, ILLEGAL_SENTINEL),
            }
        }
    }

    /// Group B: CMP, CMPA, CMPM, EOR.
    #[verifier::opaque]
    pub open spec fn dispatch_group_b(self, opcode: u16) -> (Machine, i32) {
        match (opcode >> 6) & 7 {
            0 | 1 | 2 => self.exec_compare_register(opcode),
            3 | 7 => self.exec_compare_address(opcode),
            _ => {
                if (opcode >> 3) & 7 == 1 {
                    self.exec_compare_memory(opcode)
                } else {
                    self.exec_eor(opcode)
                }
            },
        }
    }

    /// Bit-field instructions (68020+): a data register or a control mode;
    /// the modifying ones exclude PC-relative operands.
    #[verifier::opaque]
    pub open spec fn exec_bitfield(self, opcode: u16) -> (Machine, i32) {
        let ea_mode: u16 = (opcode >> 3) & 7;
        let ea_reg: u16 = opcode & 7;
        if self.cpu.model.is_pre_68020 {
            (self, ILLEGAL_SENTINEL)
        } else {
            let sel: u16 = (opcode >> 8) & 0xF;
            let is_store: bool = sel == 0xA || sel == 0xC || sel == 0xE || sel == 0xF;
            if !(ea_mode == 0 || ea_mode == 2 || ea_mode == 5 || ea_mode == 6 || (ea_mode == 7 && (
        ea_reg <= 1 || (!is_store && ea_reg <= 3)))) {
                (self, ILLEGAL_SENTINEL)
            } else {
                self.run_unit(UnitOp::BitField { opcode: opcode })
            }
        }
    }

    /// Memory shift or rotate: one bit of a word.
    #[verifier::opaque]
    pub open spec fn exec_shift_memory(self, opcode: u16) -> (Machine, i32) {
        let ea_mode: u8 = ((opcode >> 3) & 7) as u8;
        let ea_reg: u8 = (opcode & 7) as u8;
        if ea_mode < 2 || !ea_data_alterable(ea_mode, ea_reg) {
            (self, ILLEGAL_SENTINEL)
        } else {
            match decode_mode(ea_mode, ea_reg) {
                Some(mode) => {
                    let (m, ea) = self.resolve_ea(mode, Size::Word);
                    let (m, value) = m.read_resolved_ea(ea, Size::Word);
                    if m.cpu.faulted() {
                        (m, 50)
                    } else {
                        let op: u16 = (opcode >> 9) & 7;
                        if op > 3 {
                            (m, ILLEGAL_SENTINEL)
                        } else {
                            let (cpu, v1) = m.cpu.spec_exec_shift(op, (opcode >> 8) & 1, Size::Word, 1, value);
                            let m = m.on_cpu(cpu);
                            let done: (u32, i32) = v1;
                            let m = m.write_resolved_ea_np_poll(ea, Size::Word, done.0);
                            if m.cpu.model.cpu_type == CpuType::M68000 {
                                (m, ea_source_cycles(mode, Size::Word).wrapping_add(8))
                            } else {
                                (m, done.1.wrapping_add(4))
                            }
                        }
                    }
                },
                None => (self, ILLEGAL_SENTINEL),
            }
        }
    }

    /// Group E: shifts, rotates and bit fields.
    #[verifier::opaque]
    pub open spec fn dispatch_group_e(self, opcode: u16) -> (Machine, i32) {
        if (opcode & 0x00C0) == 0x00C0 && (opcode >> 8) & 0xF >= 0x8 {
            self.exec_bitfield(opcode)
        } else {
            if (opcode >> 6) & 3 == 3 {
                self.exec_shift_memory(opcode)
            } else {
                let (cpu, v1) = self.cpu.spec_exec_shift_register(opcode);
                let m = self.on_cpu(cpu);
                (m, v1)
            }
        }
    }
}

impl CpuCore {
    /// One iteration of a DBcc held in 68010 loop mode: it runs from the held
    /// pair of words without any instruction fetch. An exit refills the queue
    /// from the fall-through path.
    pub fn exec_dbcc_looping<B: AddressBus>(&mut self, bus: &mut B, opcode: u16) -> (r: i32)
        ensures
            (Machine::of(*final(self), *final(bus)), r) == Machine::of(*old(self), *old(bus)).exec_dbcc_looping(opcode),
    {
        proof {
            reveal(Machine::exec_dbcc_looping);
        }
        if self.test_condition(((opcode >> 8) & 0xF) as u8) {
            self.looping.active = false;
            self.pc = self.pc.wrapping_add(2);
            self.full_prefetch(bus);
            return 12;
        }
        let dn: usize = (opcode & 7) as usize;
        let counter: u16 = (self.d(dn) as u16).wrapping_sub(1);
        self.write_data_reg(dn, Size::Word, counter as u32);
        if counter != 0xFFFF {
            self.pc = self.pc.wrapping_sub(4);
            self.queue.prefetch_queue[0] = self.looping.body_word;
            self.queue.prefetch_queue[1] = self.looping.dbcc_word;
            self.queue.prefetch_count = 2;
            return 6;
        }
        self.looping.active = false;
        self.pc = self.pc.wrapping_add(2);
        self.full_prefetch(bus);
        16
    }

    /// Enter 68010 loop mode: a -4 displacement that targets a loopable
    /// one-word instruction holds the freshly prefetched pair.
    #[verifier::opaque]
    pub open spec fn spec_enter_loop_mode(self, opcode: u16, disp: u16) -> CpuCore {
        if self.model.cpu_type == CpuType::M68010 && disp == 0xFFFC && self.queue.prefetch_count == 2
            && loopable_68010(self.queue.prefetch_queue[0]) {
            let c = CpuCore { looping: LoopState { active: true, ..self.looping }, ..self };
            let c = CpuCore { looping: LoopState { body_word: c.queue.prefetch_queue[0], ..c.looping }, ..c };
            let c = CpuCore { looping: LoopState { dbcc_word: opcode, ..c.looping }, ..c };
            c
        } else {
            self
        }
    }

    /// Enter 68010 loop mode: a -4 displacement that targets a loopable
    /// one-word instruction holds the freshly prefetched pair.
    pub fn enter_loop_mode(&mut self, opcode: u16, disp: u16)
        ensures
            *final(self) == old(self).spec_enter_loop_mode(opcode, disp),
    {
        proof {
            reveal(CpuCore::spec_enter_loop_mode);
        }
        if self.model.cpu_type == CpuType::M68010 && disp == 0xFFFC && self.queue.prefetch_count == 2
            && loopable_68010(self.queue.prefetch_queue[0]) {
            self.looping.active = true;
            self.looping.body_word = self.queue.prefetch_queue[0];
            self.looping.dbcc_word = opcode;
        }
    }

    /// DBcc. The displacement is relative to its own word. On the branching
    /// paths it is consumed without prefetching ahead.
    pub fn exec_dbcc<B: AddressBus>(&mut self, bus: &mut B, opcode: u16) -> (r: i32)
        ensures
            (Machine::of(*final(self), *final(bus)), r) == Machine::of(*old(self), *old(bus)).exec_dbcc(opcode),
    {
        proof {
            reveal(Machine::exec_dbcc);
        }
        if self.looping.active {
            return self.exec_dbcc_looping(bus, opcode);
        }
        let dn: usize = (opcode & 7) as usize;
        let counter: u16 = (self.d(dn) as u16).wrapping_sub(1);
        let cc_true: bool = self.test_condition(((opcode >> 8) & 0xF) as u8);
        self.internal_cycles(if cc_true { 4 } else { 2 });
        self.queue.consume_without_prefetch = !cc_true;
        let disp: u16 = self.read_imm_16(bus);
        self.queue.consume_without_prefetch = false;
        if self.faulted() {
            return 50;
        }
        if cc_true {
            return 12;
        }
        self.write_data_reg(dn, Size::Word, counter as u32);
        if counter != 0xFFFF {
            self.pc = self.pc.wrapping_add(sext16(disp)).wrapping_sub(2);
            self.full_prefetch(bus);
            self.enter_loop_mode(opcode, disp);
            return if self.model.is_pre_68020 { 10 } else { 12 };
        }
        // Counter expired: a discarded program read at the fall-through word,
        // then the refill from that same address.
        if self.pc & 1 == 0 {
            self.flush_sync(bus);
            let masked: u32 = self.address(self.pc);
            bus.read_word(masked);
        }
        self.full_prefetch(bus);
        14
    }

    /// TRAPcc (68020+): consume the operand, then trap on the condition.
    pub fn exec_trapcc<B: AddressBus>(&mut self, bus: &mut B, opcode: u16) -> (r: i32)
        ensures
            (Machine::of(*final(self), *final(bus)), r) == Machine::of(*old(self), *old(bus)).exec_trapcc(opcode),
    {
        proof {
            reveal(Machine::exec_trapcc);
        }
        if opcode & 7 == 2 {
            self.read_imm_16(bus);
        } else if opcode & 7 == 3 {
            self.read_imm_32(bus);
        }
        if self.test_condition(((opcode >> 8) & 0xF) as u8) {
            return self.take_group2_exception(bus, VECTOR_TRAPV);
        }
        4
    }

    /// Scc. The 68000 writes a register after the final prefetch, with two
    /// internal clocks more for a true condition, and reads memory before it
    /// writes it.
    pub fn exec_scc<B: AddressBus>(&mut self, bus: &mut B, opcode: u16) -> (r: i32)
        ensures
            (Machine::of(*final(self), *final(bus)), r) == Machine::of(*old(self), *old(bus)).exec_scc(opcode),
    {
        proof {
            reveal(Machine::exec_scc);
        }
        let ea_mode: u8 = ((opcode >> 3) & 7) as u8;
        let ea_reg: u8 = (opcode & 7) as u8;
        if !ea_data_alterable(ea_mode, ea_reg) {
            return ILLEGAL_SENTINEL;
        }
        let value: u32 = if self.test_condition(((opcode >> 8) & 0xF) as u8) {
            0xFF
        } else {
            0
        };
        match decode_mode(ea_mode, ea_reg) {
            Some(mode) => {
                if self.model.cpu_type == CpuType::M68000 && is_register_direct(mode) {
                    self.top_up_prefetch(bus);
                    self.ipl_poll_point(bus);
                    if value != 0 {
                        self.internal_cycles(2);
                        self.flush_sync(bus);
                    }
                    self.write_data_reg(ea_reg as usize, Size::Byte, value);
                    return if value != 0 { 6 } else { 4 };
                }
                let ea: EaResult = self.resolve_ea(bus, mode, Size::Byte);
                if self.faulted() {
                    return 50;
                }
                if self.model.cpu_type == CpuType::M68000 {
                    self.read_resolved_ea(bus, ea, Size::Byte);
                    if self.faulted() {
                        return 50;
                    }
                }
                self.write_resolved_ea_np_poll(bus, ea, Size::Byte, value);
                if self.model.cpu_type == CpuType::M68000 {
                    ea_source_cycles(mode, Size::Byte).wrapping_add(8)
                } else if is_register_direct(mode) {
                    4
                } else {
                    8
                }
            },
            None => ILLEGAL_SENTINEL,
        }
    }

    /// ADDQ and SUBQ. An address register takes word and long only.
    pub fn exec_quick_group<B: AddressBus>(&mut self, bus: &mut B, opcode: u16) -> (r: i32)
        ensures
            (Machine::of(*final(self), *final(bus)), r) == Machine::of(*old(self), *old(bus)).exec_quick_group(opcode),
    {
        proof {
            reveal(Machine::exec_quick_group);
        }
        let ea_mode: u8 = ((opcode >> 3) & 7) as u8;
        let ea_reg: u8 = (opcode & 7) as u8;
        let size: Size = decode_size_00((opcode >> 6) & 3);
        let ea_ok: bool = if ea_mode == 1 {
            size != Size::Byte
        } else {
            ea_data_alterable(ea_mode, ea_reg)
        };
        if !ea_ok {
            return ILLEGAL_SENTINEL;
        }
        let field: u32 = ((opcode >> 9) & 7) as u32;
        let data: u32 = if field == 0 {
            8
        } else {
            field
        };
        match decode_mode(ea_mode, ea_reg) {
            Some(mode) => {
                let legacy: i32 = self.exec_quick(bus, size, data, mode, opcode & 0x100 != 0);
                if self.model.cpu_type == CpuType::M68000 {
                    addq_subq_cycles(mode, size)
                } else {
                    legacy
                }
            },
            None => ILLEGAL_SENTINEL,
        }
    }

    /// Group 5: ADDQ, SUBQ, Scc, DBcc, TRAPcc. TRAPcc takes the operand modes
    /// that Scc cannot write.
    pub fn dispatch_group_5<B: AddressBus>(&mut self, bus: &mut B, opcode: u16) -> (r: i32)
        ensures
            (Machine::of(*final(self), *final(bus)), r) == Machine::of(*old(self), *old(bus)).dispatch_group_5(opcode),
    {
        proof {
            reveal(Machine::dispatch_group_5);
        }
        let ea_mode: u8 = ((opcode >> 3) & 7) as u8;
        let ea_reg: u8 = (opcode & 7) as u8;
        if (opcode >> 6) & 3 != 3 {
            return self.exec_quick_group(bus, opcode);
        }
        let is_020_plus: bool = crate::types::is_020_to_040(self.model.cpu_type) || self.is_060();
        if is_020_plus && ea_mode == 7 && (ea_reg == 2 || ea_reg == 3 || ea_reg == 4) {
            return self.exec_trapcc(bus, opcode);
        }
        if ea_mode == 1 {
            return self.exec_dbcc(bus, opcode);
        }
        self.exec_scc(bus, opcode)
    }

    /// Group 6: BRA, BSR and Bcc. Displacements count from the word after the
    /// opcode. The condition is evaluated before the displacement word is
    /// consumed: on taken paths the consume does not prefetch ahead. The
    /// 68020 and later take a displacement byte of $FF as the long form.
    pub fn dispatch_group_6<B: AddressBus>(&mut self, bus: &mut B, opcode: u16) -> (r: i32)
        ensures
            (Machine::of(*final(self), *final(bus)), r) == Machine::of(*old(self), *old(bus)).dispatch_group_6(opcode),
    {
        proof {
            reveal(Machine::dispatch_group_6);
        }
        let condition: u8 = ((opcode >> 8) & 0xF) as u8;
        let displacement: u8 = (opcode & 0xFF) as u8;
        let base_pc: u32 = self.pc;
        let taken: bool = condition < 2 || self.test_condition(condition);
        self.internal_cycles(if taken { 2 } else { 4 });
        self.queue.consume_without_prefetch = taken;
        let disp: u32 = if displacement == 0 {
            let w: u16 = self.read_imm_16(bus);
            sext16(w)
        } else if displacement == 0xFF && !self.model.is_pre_68020 {
            self.read_imm_32(bus)
        } else {
            sext8(displacement)
        };
        self.queue.consume_without_prefetch = false;
        if condition == 1 {
            self.run.change_of_flow = true;
            let return_pc: u32 = self.pc;
            self.pc = base_pc.wrapping_add(disp);
            self.push_32(bus, return_pc);
            self.full_prefetch(bus);
            return 18;
        }
        if taken {
            self.run.change_of_flow = true;
            self.pc = base_pc.wrapping_add(disp);
            self.full_prefetch(bus);
            return 10;
        }
        if displacement == 0 {
            12
        } else {
            8
        }
    }

    /// ADD, SUB, AND and OR with a data register as destination. ADD and SUB
    /// also take address registers, but not as bytes.
    pub fn exec_alu_to_register<B: AddressBus>(&mut self, bus: &mut B, opcode: u16) -> (r: i32)
        ensures
            (Machine::of(*final(self), *final(bus)), r) == Machine::of(*old(self), *old(bus)).exec_alu_to_register(opcode),
    {
        proof {
            reveal(Machine::exec_alu_to_register);
        }
        let group: u16 = (opcode >> 12) & 0xF;
        let reg: usize = ((opcode >> 9) & 7) as usize;
        let ea_mode: u8 = ((opcode >> 3) & 7) as u8;
        let ea_reg: u8 = (opcode & 7) as u8;
        let size: Size = decode_size_012((opcode >> 6) & 7);
        let arithmetic: bool = group == 0x9 || group == 0xD;
        if ea_mode == 7 && ea_reg > 4 || ea_mode == 1 && (!arithmetic || size == Size::Byte) {
            return ILLEGAL_SENTINEL;
        }
        match decode_mode(ea_mode, ea_reg) {
            Some(mode) => {
                let src: u32 = self.read_ea(bus, mode, size);
                if group == 0x8 && self.faulted() {
                    return 50;
                }
                let dst: u32 = self.d(reg) & size.mask();
                let done: (u32, i32) = match group {
                    0x8 => self.exec_or(size, src, dst),
                    0x9 => self.exec_sub(size, src, dst),
                    0xC => self.exec_and(size, src, dst),
                    _ => self.exec_add(size, src, dst),
                };
                self.write_data_reg(reg, size, done.0);
                if self.model.cpu_type == CpuType::M68000 {
                    if !self.finish_m68000_alu_ea_dn_long_tail(bus, mode, size) {
                        return 50;
                    }
                    alu_ea_dn_cycles(mode, size)
                } else {
                    4
                }
            },
            None => ILLEGAL_SENTINEL,
        }
    }

    /// ADD, SUB, AND and OR with a memory destination. The IPL poll rides the
    /// prefetch before the write.
    pub fn exec_alu_to_memory<B: AddressBus>(&mut self, bus: &mut B, opcode: u16) -> (r: i32)
        ensures
            (Machine::of(*final(self), *final(bus)), r) == Machine::of(*old(self), *old(bus)).exec_alu_to_memory(opcode),
    {
        proof {
            reveal(Machine::exec_alu_to_memory);
        }
        let group: u16 = (opcode >> 12) & 0xF;
        let reg: usize = ((opcode >> 9) & 7) as usize;
        let ea_mode: u8 = ((opcode >> 3) & 7) as u8;
        let ea_reg: u8 = (opcode & 7) as u8;
        let size: Size = decode_size_012((opcode >> 6) & 3);
        if ea_mode < 2 || !ea_data_alterable(ea_mode, ea_reg) {
            return ILLEGAL_SENTINEL;
        }
        match decode_mode(ea_mode, ea_reg) {
            Some(mode) => {
                let src: u32 = self.d(reg) & size.mask();
                let ea: EaResult = self.resolve_ea(bus, mode, size);
                let dst: u32 = self.read_resolved_ea(bus, ea, size);
                if group == 0x8 && self.faulted() {
                    return 50;
                }
                let done: (u32, i32) = match group {
                    0x8 => self.exec_or(size, src, dst),
                    0x9 => self.exec_sub(size, src, dst),
                    0xC => self.exec_and(size, src, dst),
                    _ => self.exec_add(size, src, dst),
                };
                self.write_resolved_ea_np_poll(bus, ea, size, done.0);
                if self.model.cpu_type == CpuType::M68000 {
                    alu_dn_ea_cycles(mode, size)
                } else {
                    8
                }
            },
            None => ILLEGAL_SENTINEL,
        }
    }

    /// ADDA and SUBA: every addressing mode.
    pub fn exec_alu_to_address<B: AddressBus>(&mut self, bus: &mut B, opcode: u16) -> (r: i32)
        ensures
            (Machine::of(*final(self), *final(bus)), r) == Machine::of(*old(self), *old(bus)).exec_alu_to_address(opcode),
    {
        proof {
            reveal(Machine::exec_alu_to_address);
        }
        let reg: usize = ((opcode >> 9) & 7) as usize;
        let size: Size = if (opcode >> 6) & 7 == 3 {
            Size::Word
        } else {
            Size::Long
        };
        match decode_mode(((opcode >> 3) & 7) as u8, (opcode & 7) as u8) {
            Some(mode) => {
                let src: u32 = self.read_ea(bus, mode, size);
                let legacy: i32 = if (opcode >> 12) & 0xF == 0x9 {
                    self.exec_suba(size, src, reg)
                } else {
                    self.exec_adda(size, src, reg)
                };
                if self.model.cpu_type == CpuType::M68000 {
                    if !self.finish_m68000_adda_suba_tail(bus, mode, size) {
                        return 50;
                    }
                    adda_suba_cycles(mode, size)
                } else {
                    legacy
                }
            },
            None => ILLEGAL_SENTINEL,
        }
    }

    /// ADDX and SUBX between data registers.
    pub fn exec_extended_rr<B: AddressBus>(&mut self, bus: &mut B, opcode: u16) -> (r: i32)
        ensures
            (Machine::of(*final(self), *final(bus)), r) == Machine::of(*old(self), *old(bus)).exec_extended_rr(opcode),
    {
        proof {
            reveal(Machine::exec_extended_rr);
        }
        let reg: usize = ((opcode >> 9) & 7) as usize;
        let size: Size = decode_size_012((opcode >> 6) & 3);
        let src: u32 = self.d((opcode & 7) as usize) & size.mask();
        let dst: u32 = self.d(reg) & size.mask();
        let result: u32 = if (opcode >> 12) & 0xF == 0x9 {
            self.exec_subx(size, src, dst)
        } else {
            self.exec_addx(size, src, dst)
        };
        if self.model.cpu_type == CpuType::M68000 {
            if !self.finish_m68000_addx_subx_register_tail(bus, size) {
                return 50;
            }
        }
        self.write_data_reg(reg, size, result);
        if self.model.cpu_type == CpuType::M68000 && size == Size::Long {
            8
        } else {
            4
        }
    }

    /// Operand read of the memory forms of ADDX and SUBX: the 68000 reads
    /// long words low half first.
    pub fn read_extended_operand<B: AddressBus>(&mut self, bus: &mut B, ea: EaResult, size: Size) -> (r: u32)
        ensures
            (Machine::of(*final(self), *final(bus)), r) == Machine::of(*old(self), *old(bus)).read_extended_operand(ea, size),
    {
        proof {
            reveal(Machine::read_extended_operand);
        }
        if self.model.cpu_type == CpuType::M68000 && size == Size::Long {
            match ea {
                EaResult::Memory(address) => {
                    return self.read_long_predec_68000(bus, address);
                },
                _ => {},
            }
        }
        self.read_resolved_ea(bus, ea, size)
    }

    /// Result write of the memory forms of ADDX and SUBX: the 68000 puts the
    /// final prefetch between the halves of a long word.
    pub fn write_extended_result<B: AddressBus>(&mut self, bus: &mut B, ea: EaResult, size: Size, result: u32)
        ensures
            Machine::of(*final(self), *final(bus)) == Machine::of(*old(self), *old(bus)).write_extended_result(ea, size, result),
    {
        proof {
            reveal(Machine::write_extended_result);
        }
        if self.model.cpu_type == CpuType::M68000 && size == Size::Long {
            match ea {
                EaResult::Memory(address) => {
                    self.write_long_mm_interleaved_68000(bus, address, result);
                    return;
                },
                _ => {},
            }
        }
        self.write_resolved_ea(bus, ea, size, result);
    }

    /// Whether a resolved operand is memory at an odd address.
    pub open spec fn spec_odd_address(&self, ea: EaResult) -> bool {
        match ea {
            EaResult::Memory(address) => address & 1 != 0,
            _ => false,
        }
    }

    /// Whether a resolved operand is memory at an odd address.
    #[verifier::when_used_as_spec(spec_odd_address)]
    pub fn odd_address(&self, ea: EaResult) -> (r: bool)
        ensures
            r == self.spec_odd_address(ea),
    {
        match ea {
            EaResult::Memory(address) => address & 1 != 0,
            _ => false,
        }
    }

    /// ADDX -(Ay),-(Ax) and SUBX -(Ay),-(Ax). The two predecrements overlap:
    /// the leading internal period is two clocks in all. A store that is going
    /// to fault leaves the flags alone.
    pub fn exec_extended_mm<B: AddressBus>(&mut self, bus: &mut B, opcode: u16) -> (r: i32)
        ensures
            (Machine::of(*final(self), *final(bus)), r) == Machine::of(*old(self), *old(bus)).exec_extended_mm(opcode),
    {
        proof {
            reveal(Machine::exec_extended_mm);
        }
        let size: Size = decode_size_012((opcode >> 6) & 3);
        let src_ea: EaResult = self.resolve_ea(bus, AddressingMode::PreDecrement((opcode & 7) as u8), size);
        let dst_ea: EaResult = self.resolve_ea(bus, AddressingMode::PreDecrement(((opcode >> 9) & 7) as u8), size);
        self.queue.pending_sync_clocks = 0;
        self.internal_cycles(2);
        let src: u32 = self.read_extended_operand(bus, src_ea, size);
        if self.faulted() {
            return 50;
        }
        let dst: u32 = self.read_extended_operand(bus, dst_ea, size);
        if self.faulted() {
            return 50;
        }
        if size != Size::Long {
            self.ipl_poll_point(bus);
        }
        if self.model.cpu_type == CpuType::M68000 && size != Size::Byte && self.odd_address(dst_ea) {
            match dst_ea {
                EaResult::Memory(address) => {
                    self.trigger_address_error(bus, address, true, false);
                },
                _ => {},
            }
            return 50;
        }
        let result: u32 = if (opcode >> 12) & 0xF == 0x9 {
            self.exec_subx(size, src, dst)
        } else {
            self.exec_addx(size, src, dst)
        };
        self.write_extended_result(bus, dst_ea, size, result);
        if self.faulted() {
            return 50;
        }
        if self.model.cpu_type == CpuType::M68000 && size == Size::Long {
            30
        } else {
            18
        }
    }

    /// Groups 9 and D: SUB and ADD in all their forms.
    pub fn dispatch_add_sub<B: AddressBus>(&mut self, bus: &mut B, opcode: u16) -> (r: i32)
        ensures
            (Machine::of(*final(self), *final(bus)), r) == Machine::of(*old(self), *old(bus)).dispatch_add_sub(opcode),
    {
        proof {
            reveal(Machine::dispatch_add_sub);
        }
        let ea_mode: u16 = (opcode >> 3) & 7;
        match (opcode >> 6) & 7 {
            0 | 1 | 2 => self.exec_alu_to_register(bus, opcode),
            3 | 7 => self.exec_alu_to_address(bus, opcode),
            _ => {
                if ea_mode == 0 {
                    self.exec_extended_rr(bus, opcode)
                } else if ea_mode == 1 {
                    self.exec_extended_mm(bus, opcode)
                } else {
                    self.exec_alu_to_memory(bus, opcode)
                }
            },
        }
    }

    /// Group 9: SUB, SUBA, SUBX.
    pub fn dispatch_group_9<B: AddressBus>(&mut self, bus: &mut B, opcode: u16) -> (r: i32)
        ensures
            (Machine::of(*final(self), *final(bus)), r) == Machine::of(*old(self), *old(bus)).dispatch_group_9(opcode),
    {
        proof {
            reveal(Machine::dispatch_group_9);
        }
        self.dispatch_add_sub(bus, opcode)
    }

    /// Group D: ADD, ADDA, ADDX.
    pub fn dispatch_group_d<B: AddressBus>(&mut self, bus: &mut B, opcode: u16) -> (r: i32)
        ensures
            (Machine::of(*final(self), *final(bus)), r) == Machine::of(*old(self), *old(bus)).dispatch_group_d(opcode),
    {
        proof {
            reveal(Machine::dispatch_group_d);
        }
        self.dispatch_add_sub(bus, opcode)
    }

    /// MULU, MULS, DIVU and DIVS: data addressing only.
    pub fn exec_mul_div<B: AddressBus>(&mut self, bus: &mut B, opcode: u16) -> (r: i32)
        ensures
            (Machine::of(*final(self), *final(bus)), r) == Machine::of(*old(self), *old(bus)).exec_mul_div(opcode),
    {
        proof {
            reveal(Machine::exec_mul_div);
        }
        let reg: usize = ((opcode >> 9) & 7) as usize;
        let ea_mode: u8 = ((opcode >> 3) & 7) as u8;
        let ea_reg: u8 = (opcode & 7) as u8;
        if ea_mode == 1 {
            return ILLEGAL_SENTINEL;
        }
        let signed: bool = (opcode >> 6) & 7 == 7;
        match decode_mode(ea_mode, ea_reg) {
            Some(mode) => {
                if (opcode >> 12) & 0xF == 0x8 {
                    if signed {
                        self.exec_divs(bus, mode, reg)
                    } else {
                        self.exec_divu(bus, mode, reg)
                    }
                } else if signed {
                    self.exec_muls(bus, mode, reg)
                } else {
                    self.exec_mulu(bus, mode, reg)
                }
            },
            None => ILLEGAL_SENTINEL,
        }
    }

    /// PACK and UNPK (68020+).
    pub fn exec_pack<B: AddressBus>(&mut self, bus: &mut B, opcode: u16) -> (r: i32)
        ensures
            (Machine::of(*final(self), *final(bus)), r) == Machine::of(*old(self), *old(bus)).exec_pack(opcode),
    {
        proof {
            reveal(Machine::exec_pack);
        }
        if self.model.is_pre_68020 {
            return ILLEGAL_SENTINEL;
        }
        let adjustment: u16 = self.read_imm_16(bus);
        self.run_unit(bus, UnitOp::Pack { opcode: opcode, adjustment: adjustment })
    }

    /// Group 8: OR, DIVU, DIVS, SBCD, PACK, UNPK.
    pub fn dispatch_group_8<B: AddressBus>(&mut self, bus: &mut B, opcode: u16) -> (r: i32)
        ensures
            (Machine::of(*final(self), *final(bus)), r) == Machine::of(*old(self), *old(bus)).dispatch_group_8(opcode),
    {
        proof {
            reveal(Machine::dispatch_group_8);
        }
        let reg: usize = ((opcode >> 9) & 7) as usize;
        let ea_mode: u16 = (opcode >> 3) & 7;
        let ea_reg: usize = (opcode & 7) as usize;
        let op_mode: u16 = (opcode >> 6) & 7;
        match op_mode {
            0 | 1 | 2 => self.exec_alu_to_register(bus, opcode),
            3 | 7 => self.exec_mul_div(bus, opcode),
            _ => {
                if op_mode == 4 && ea_mode == 0 {
                    self.exec_sbcd_rr(ea_reg, reg)
                } else if op_mode == 4 && ea_mode == 1 {
                    self.exec_decimal_mm(bus, ea_reg, reg, true)
                } else if (op_mode == 5 || op_mode == 6) && ea_mode < 2 {
                    self.exec_pack(bus, opcode)
                } else {
                    self.exec_alu_to_memory(bus, opcode)
                }
            },
        }
    }

    /// Group C: AND, MULU, MULS, ABCD, EXG.
    pub fn dispatch_group_c<B: AddressBus>(&mut self, bus: &mut B, opcode: u16) -> (r: i32)
        ensures
            (Machine::of(*final(self), *final(bus)), r) == Machine::of(*old(self), *old(bus)).dispatch_group_c(opcode),
    {
        proof {
            reveal(Machine::dispatch_group_c);
        }
        let reg: usize = ((opcode >> 9) & 7) as usize;
        let ea_mode: u16 = (opcode >> 3) & 7;
        let ea_reg: usize = (opcode & 7) as usize;
        let op_mode: u16 = (opcode >> 6) & 7;
        let mode_field: u16 = (opcode >> 3) & 0x1F;
        match op_mode {
            0 | 1 | 2 => self.exec_alu_to_register(bus, opcode),
            3 | 7 => self.exec_mul_div(bus, opcode),
            _ => {
                if op_mode == 4 && ea_mode == 0 {
                    self.exec_abcd_rr(ea_reg, reg)
                } else if op_mode == 4 && ea_mode == 1 {
                    self.exec_decimal_mm(bus, ea_reg, reg, false)
                } else if mode_field == 0x08 || mode_field == 0x09 || mode_field == 0x11 {
                    self.exec_exg(opcode)
                } else {
                    self.exec_alu_to_memory(bus, opcode)
                }
            },
        }
    }

    /// CMP to a data register.
    pub fn exec_compare_register<B: AddressBus>(&mut self, bus: &mut B, opcode: u16) -> (r: i32)
        ensures
            (Machine::of(*final(self), *final(bus)), r) == Machine::of(*old(self), *old(bus)).exec_compare_register(opcode),
    {
        proof {
            reveal(Machine::exec_compare_register);
        }
        let reg: usize = ((opcode >> 9) & 7) as usize;
        let ea_mode: u8 = ((opcode >> 3) & 7) as u8;
        let size: Size = decode_size_012((opcode >> 6) & 7);
        if ea_mode == 1 && size == Size::Byte {
            return ILLEGAL_SENTINEL;
        }
        match decode_mode(ea_mode, (opcode & 7) as u8) {
            Some(mode) => {
                let src: u32 = self.read_ea(bus, mode, size);
                if self.faulted() {
                    return 50;
                }
                let legacy: i32 = self.exec_compare(size, src, self.d(reg));
                if self.model.cpu_type == CpuType::M68000 {
                    if size == Size::Long {
                        if !self.finish_m68000_tail_after_final_prefetch(bus, 2) {
                            return 50;
                        }
                    }
                    compare_ea_dn_cycles(mode, size)
                } else {
                    legacy
                }
            },
            None => ILLEGAL_SENTINEL,
        }
    }

    /// CMPA: every addressing mode.
    pub fn exec_compare_address<B: AddressBus>(&mut self, bus: &mut B, opcode: u16) -> (r: i32)
        ensures
            (Machine::of(*final(self), *final(bus)), r) == Machine::of(*old(self), *old(bus)).exec_compare_address(opcode),
    {
        proof {
            reveal(Machine::exec_compare_address);
        }
        let reg: usize = ((opcode >> 9) & 7) as usize;
        let size: Size = if (opcode >> 6) & 7 == 3 {
            Size::Word
        } else {
            Size::Long
        };
        match decode_mode(((opcode >> 3) & 7) as u8, (opcode & 7) as u8) {
            Some(mode) => {
                let src: u32 = self.read_ea(bus, mode, size);
                if self.faulted() {
                    return 50;
                }
                let legacy: i32 = self.exec_compare_addr(size, src, reg);
                if self.model.cpu_type == CpuType::M68000 {
                    if !self.finish_m68000_tail_after_final_prefetch(bus, 2) {
                        return 50;
                    }
                    compare_addr_cycles(mode, size)
                } else {
                    legacy
                }
            },
            None => ILLEGAL_SENTINEL,
        }
    }

    /// CMPM (Ay)+,(Ax)+: the operands are read and stepped in that order. The
    /// 68000 polls IPL between the two reads.
    pub fn exec_compare_memory<B: AddressBus>(&mut self, bus: &mut B, opcode: u16) -> (r: i32)
        ensures
            (Machine::of(*final(self), *final(bus)), r) == Machine::of(*old(self), *old(bus)).exec_compare_memory(opcode),
    {
        proof {
            reveal(Machine::exec_compare_memory);
        }
        let size: Size = decode_size_012((opcode >> 6) & 3);
        let src_ea: EaResult = self.resolve_ea(bus, AddressingMode::PostIncrement((opcode & 7) as u8), size);
        let src: u32 = self.read_resolved_ea(bus, src_ea, size);
        if self.faulted() {
            return 50;
        }
        let dst_ea: EaResult = self.resolve_ea(bus, AddressingMode::PostIncrement(((opcode >> 9) & 7) as u8), size);
        let dst: u32 = self.read_resolved_ea(bus, dst_ea, size);
        if self.faulted() {
            return 50;
        }
        if self.model.cpu_type == CpuType::M68000 {
            self.ipl_poll_point(bus);
        }
        let legacy: i32 = self.exec_compare(size, src, dst);
        if self.model.cpu_type == CpuType::M68000 {
            if size == Size::Long {
                20
            } else {
                12
            }
        } else {
            legacy
        }
    }

    /// EOR Dn,<ea>. On the 68000 a register is written after the final
    /// prefetch, and after four internal clocks for a long operand.
    pub fn exec_eor<B: AddressBus>(&mut self, bus: &mut B, opcode: u16) -> (r: i32)
        ensures
            (Machine::of(*final(self), *final(bus)), r) == Machine::of(*old(self), *old(bus)).exec_eor(opcode),
    {
        proof {
            reveal(Machine::exec_eor);
        }
        let reg: usize = ((opcode >> 9) & 7) as usize;
        let ea_mode: u8 = ((opcode >> 3) & 7) as u8;
        let ea_reg: u8 = (opcode & 7) as u8;
        let size: Size = decode_size_012((opcode >> 6) & 3);
        if !ea_data_alterable(ea_mode, ea_reg) {
            return ILLEGAL_SENTINEL;
        }
        match decode_mode(ea_mode, ea_reg) {
            Some(mode) => {
                if self.model.cpu_type == CpuType::M68000 && ea_mode == 0 {
                    let result: u32 = (self.d(reg) ^ (self.d(ea_reg as usize) & size.mask())) & size.mask();
                    self.set_logic_flags(result, size);
                    let clocks: u32 = if size == Size::Long {
                        4
                    } else {
                        0
                    };
                    if !self.finish_m68000_tail_after_final_prefetch(bus, clocks) {
                        return 50;
                    }
                    self.write_data_reg(ea_reg as usize, size, result);
                    return eor_cycles(mode, size);
                }
                let ea: EaResult = self.resolve_ea(bus, mode, size);
                let dst: u32 = self.read_resolved_ea(bus, ea, size);
                if self.faulted() {
                    return 50;
                }
                let result: u32 = (self.d(reg) ^ dst) & size.mask();
                self.write_resolved_ea_np_poll(bus, ea, size, result);
                if self.faulted() {
                    return 50;
                }
                self.set_logic_flags(result, size);
                if self.model.cpu_type == CpuType::M68000 {
                    eor_cycles(mode, size)
                } else {
                    8
                }
            },
            None => ILLEGAL_SENTINEL,
        }
    }

    /// Group B: CMP, CMPA, CMPM, EOR.
    pub fn dispatch_group_b<B: AddressBus>(&mut self, bus: &mut B, opcode: u16) -> (r: i32)
        ensures
            (Machine::of(*final(self), *final(bus)), r) == Machine::of(*old(self), *old(bus)).dispatch_group_b(opcode),
    {
        proof {
            reveal(Machine::dispatch_group_b);
        }
        match (opcode >> 6) & 7 {
            0 | 1 | 2 => self.exec_compare_register(bus, opcode),
            3 | 7 => self.exec_compare_address(bus, opcode),
            _ => {
                if (opcode >> 3) & 7 == 1 {
                    self.exec_compare_memory(bus, opcode)
                } else {
                    self.exec_eor(bus, opcode)
                }
            },
        }
    }

    /// Bit-field instructions (68020+): a data register or a control mode;
    /// the modifying ones exclude PC-relative operands.
    pub fn exec_bitfield<B: AddressBus>(&mut self, bus: &mut B, opcode: u16) -> (r: i32)
        ensures
            (Machine::of(*final(self), *final(bus)), r) == Machine::of(*old(self), *old(bus)).exec_bitfield(opcode),
    {
        proof {
            reveal(Machine::exec_bitfield);
        }
        let ea_mode: u16 = (opcode >> 3) & 7;
        let ea_reg: u16 = opcode & 7;
        if self.model.is_pre_68020 {
            return ILLEGAL_SENTINEL;
        }
        let sel: u16 = (opcode >> 8) & 0xF;
        let is_store: bool = sel == 0xA || sel == 0xC || sel == 0xE || sel == 0xF;
        if !(ea_mode == 0 || ea_mode == 2 || ea_mode == 5 || ea_mode == 6 || (ea_mode == 7 && (
        ea_reg <= 1 || (!is_store && ea_reg <= 3)))) {
            return ILLEGAL_SENTINEL;
        }
        self.run_unit(bus, UnitOp::BitField { opcode: opcode })
    }

    /// Memory shift or rotate: one bit of a word.
    pub fn exec_shift_memory<B: AddressBus>(&mut self, bus: &mut B, opcode: u16) -> (r: i32)
        ensures
            (Machine::of(*final(self), *final(bus)), r) == Machine::of(*old(self), *old(bus)).exec_shift_memory(opcode),
    {
        proof {
            reveal(Machine::exec_shift_memory);
        }
        let ea_mode: u8 = ((opcode >> 3) & 7) as u8;
        let ea_reg: u8 = (opcode & 7) as u8;
        if ea_mode < 2 || !ea_data_alterable(ea_mode, ea_reg) {
            return ILLEGAL_SENTINEL;
        }
        match decode_mode(ea_mode, ea_reg) {
            Some(mode) => {
                let ea: EaResult = self.resolve_ea(bus, mode, Size::Word);
                let value: u32 = self.read_resolved_ea(bus, ea, Size::Word);
                if self.faulted() {
                    return 50;
                }
                let op: u16 = (opcode >> 9) & 7;
                if op > 3 {
                    return ILLEGAL_SENTINEL;
                }
                let done: (u32, i32) = self.exec_shift(op, (opcode >> 8) & 1, Size::Word, 1, value);
                self.write_resolved_ea_np_poll(bus, ea, Size::Word, done.0);
                if self.model.cpu_type == CpuType::M68000 {
                    ea_source_cycles(mode, Size::Word).wrapping_add(8)
                } else {
                    done.1.wrapping_add(4)
                }
            },
            None => ILLEGAL_SENTINEL,
        }
    }

    /// Register shift or rotate: the count is a register or an immediate.
    #[verifier::opaque]
    pub open spec fn spec_exec_shift_register(self, opcode: u16) -> (CpuCore, i32) {
        let size: Size = decode_size_00((opcode >> 6) & 3);
        let field: u32 = ((opcode >> 9) & 7) as u32;
        let count: u32 = if opcode & 0x20 != 0 {
            self.d(field as usize) & 63
        } else if field == 0 {
            8
        } else {
            field
        };
        let reg: usize = (opcode & 7) as usize;
        let value: u32 = self.d(reg) & size.mask();
        let (c, done) = self.spec_exec_shift((opcode >> 3) & 3, (opcode >> 8) & 1, size, count, value);
        let c = c.spec_write_data_reg(reg, size, done.0);
        (c, done.1)
    }

    /// Register shift or rotate: the count is a register or an immediate.
    pub fn exec_shift_register(&mut self, opcode: u16) -> (r: i32)
        ensures
            (*final(self), r) == old(self).spec_exec_shift_register(opcode),
    {
        proof {
            reveal(CpuCore::spec_exec_shift_register);
        }
        let size: Size = decode_size_00((opcode >> 6) & 3);
        let field: u32 = ((opcode >> 9) & 7) as u32;
        let count: u32 = if opcode & 0x20 != 0 {
            self.d(field as usize) & 63
        } else if field == 0 {
            8
        } else {
            field
        };
        let reg: usize = (opcode & 7) as usize;
        let value: u32 = self.d(reg) & size.mask();
        let done: (u32, i32) = self.exec_shift((opcode >> 3) & 3, (opcode >> 8) & 1, size, count, value);
        self.write_data_reg(reg, size, done.0);
        done.1
    }

    /// Group E: shifts, rotates and bit fields.
    pub fn dispatch_group_e<B: AddressBus>(&mut self, bus: &mut B, opcode: u16) -> (r: i32)
        ensures
            (Machine::of(*final(self), *final(bus)), r) == Machine::of(*old(self), *old(bus)).dispatch_group_e(opcode),
    {
        proof {
            reveal(Machine::dispatch_group_e);
        }
        if (opcode & 0x00C0) == 0x00C0 && (opcode >> 8) & 0xF >= 0x8 {
            return self.exec_bitfield(bus, opcode);
        }
        if (opcode >> 6) & 3 == 3 {
            return self.exec_shift_memory(bus, opcode);
        }
        self.exec_shift_register(opcode)
    }
}

} // verus!
