//! Integer instructions.

use vstd::prelude::*;
use crate::alu::{flag, sign_extend};
use crate::cpu::{Ccr, CpuCore, NFLAG_SET, VFLAG_SET};
use crate::ea::{ea_is_memory, is_register_direct, AddressingMode, EaResult};
use crate::exceptions::{VECTOR_CHK, VECTOR_ZERO_DIVIDE};
use crate::machine::Machine;
use crate::memory::{AddressBus, UnitOp};
use crate::prefetch::sext16;
use crate::timing::{ea_calc_cycles, ea_source_cycles, ea_time, move_dst_time};
use crate::types::{CpuType, Size};

verus! {

/// Cycle count that reports a line-A opcode to the dispatcher.
pub const ALINE_TRAP_SENTINEL: i32 = -1_000_000;
/// Cycle count that reports a line-F opcode to the dispatcher.
pub const FLINE_TRAP_SENTINEL: i32 = -1_000_001;
/// Cycle count that reports TRAP #0; the fifteen others follow.
pub const TRAP_SENTINEL_BASE: i32 = -1_000_100;
/// Cycle count that reports BKPT #0; the seven others follow.
pub const BKPT_SENTINEL_BASE: i32 = -1_000_200;
/// Cycle count that reports an illegal instruction to the dispatcher.
pub const ILLEGAL_SENTINEL: i32 = -1_000_300;

/// The bit that a bit operation tests, as a mask.
pub open spec fn spec_bit_mask(bit: u32) -> u32 {
    1u32 << (bit & 31)
}

/// The bit that a bit operation tests, as a mask.
#[verifier::when_used_as_spec(spec_bit_mask)]
pub fn bit_mask(bit: u32) -> (r: u32)
    ensures
        r == spec_bit_mask(bit),
{
    proof {
        crate::bits::lemma_masks(bit);
    }
    1u32 << (bit & 31)
}

/// The three bit operations that modify, by their two-bit field.
pub open spec fn spec_apply_bit_op(bit_op: u16, value: u32, mask: u32) -> u32 {
    match bit_op {
        1 => value ^ mask,
        2 => value & !mask,
        3 => value | mask,
        _ => value,
    }
}

/// The three bit operations that modify, by their two-bit field.
#[verifier::when_used_as_spec(spec_apply_bit_op)]
pub fn apply_bit_op(bit_op: u16, value: u32, mask: u32) -> (r: u32)
    ensures
        r == spec_apply_bit_op(bit_op, value, mask),
{
    match bit_op {
        1 => value ^ mask,
        2 => value & !mask,
        3 => value | mask,
        _ => value,
    }
}

/// Magnitude of a two's-complement number.
pub open spec fn spec_magnitude(value: u32) -> u32 {
    if value & 0x8000_0000 != 0 {
        0u32.wrapping_sub(value)
    } else {
        value
    }
}

/// Magnitude of a two's-complement number.
#[verifier::when_used_as_spec(spec_magnitude)]
pub fn magnitude(value: u32) -> (r: u32)
    ensures
        r == spec_magnitude(value),
{
    if value & 0x8000_0000 != 0 {
        0u32.wrapping_sub(value)
    } else {
        value
    }
}

/// The register of a MOVEM list: D0 to D7, then A0 to A7, or the reverse.
pub open spec fn spec_movem_register(position: u32, reverse: bool) -> usize {
    if reverse {
        ((15 - position) as usize) as usize
    } else {
        position as usize
    }
}

/// The register of a MOVEM list: D0 to D7, then A0 to A7, or the reverse.
#[verifier::when_used_as_spec(spec_movem_register)]
pub fn movem_register(position: u32, reverse: bool) -> (r: usize)
    requires
        position < 16,
    ensures
        r == spec_movem_register(position, reverse),
{
    if reverse {
        (15 - position) as usize
    } else {
        position as usize
    }
}

impl Machine {
    /// Let an attached unit execute an instruction; without the unit the
    /// instruction is illegal.
    #[verifier::opaque]
    pub open spec fn run_unit(self, op: UnitOp) -> (Machine, i32) {
        let (m, v1) = self.bus_unit(op);
        match v1 {
            Some(cycles) => (m, cycles),
            None => (m, ILLEGAL_SENTINEL),
        }
    }

    /// The 68000 ends many register instructions with the final prefetch, the
    /// IPL poll and some internal clocks. False when the prefetch faulted.
    #[verifier::opaque]
    pub open spec fn finish_m68000_tail_after_final_prefetch(self, internal_clocks: u32) -> (Machine, bool) {
        let m = self.top_up_prefetch();
        let m = m.ipl_poll_point();
        if m.cpu.faulted() {
            (m, false)
        } else {
            let m = m.on_cpu(m.cpu.spec_internal_cycles(internal_clocks));
            let m = m.flush_sync();
            (m, true)
        }
    }

    /// Tail of ADD, SUB, AND and OR to a data register on the 68000.
    #[verifier::opaque]
    pub open spec fn finish_m68000_alu_ea_dn_long_tail(self, mode: AddressingMode, size: Size) -> (Machine, bool) {
        if self.cpu.model.cpu_type != CpuType::M68000 || size != Size::Long {
            (self, true)
        } else {
            let clocks: u32 = if ea_is_memory(mode) {
                2
            } else {
                4
            };
            self.finish_m68000_tail_after_final_prefetch(clocks)
        }
    }

    /// Tail of ADDA and SUBA on the 68000.
    #[verifier::opaque]
    pub open spec fn finish_m68000_adda_suba_tail(self, mode: AddressingMode, size: Size) -> (Machine, bool) {
        let clocks: u32 = if size == Size::Word || !ea_is_memory(mode) {
            4
        } else {
            2
        };
        self.finish_m68000_tail_after_final_prefetch(clocks)
    }

    /// Tail of ADDX and SUBX between data registers on the 68000.
    #[verifier::opaque]
    pub open spec fn finish_m68000_addx_subx_register_tail(self, size: Size) -> (Machine, bool) {
        let m = self.top_up_prefetch();
        let m = m.ipl_poll_point();
        if m.cpu.faulted() {
            (m, false)
        } else {
            let m = if size == Size::Long {
                let m = m.on_cpu(m.cpu.spec_internal_cycles(4));
                let m = m.flush_sync();
                m
            } else {
                m
            };
            (m, true)
        }
    }

    /// End of an immediate instruction on a data register of the 68000: the
    /// register is written after the final prefetch, and after four internal
    /// clocks for a long operand.
    #[verifier::opaque]
    pub open spec fn finish_m68000_immediate_data_register_write(self, reg: usize, size: Size, result: u32) -> Machine {
        let m = self.top_up_prefetch();
        let m = m.ipl_poll_point();
        if m.cpu.faulted() {
            m
        } else {
            let m = if size == Size::Long {
                let m = m.on_cpu(m.cpu.spec_internal_cycles(4));
                let m = m.flush_sync();
                m
            } else {
                m
            };
            let m = m.on_cpu(m.cpu.spec_write_data_reg(reg, size, result));
            m
        }
    }

    /// End of CLR, NEG, NEGX and NOT: the 68000 writes a register after the
    /// final prefetch, and after two internal clocks for a long operand.
    #[verifier::opaque]
    pub open spec fn finish_unary(self, ea: EaResult, size: Size, result: u32) -> Machine {
        match ea {
            EaResult::DataReg(reg) => {
                if self.cpu.model.cpu_type == CpuType::M68000 {
                    let m = self.top_up_prefetch();
                    let m = m.ipl_poll_point();
                    if m.cpu.faulted() {
                        m
                    } else {
                        let m = if size == Size::Long {
                            let m = m.on_cpu(m.cpu.spec_internal_cycles(2));
                            let m = m.flush_sync();
                            m
                        } else {
                            m
                        };
                        let m = m.on_cpu(m.cpu.spec_write_data_reg(reg as usize, size, result));
                        m
                    }
                } else {
                    let m = self.on_cpu(self.cpu.spec_write_data_reg(reg as usize, size, result));
                    m
                }
            },
            _ => {
                let m = self.write_resolved_ea_np_poll(ea, size, result);
                m
            },
        }
    }

    /// MOVE.
    #[verifier::opaque]
    pub open spec fn exec_move(self, size: Size, src: AddressingMode, dst: AddressingMode) -> (Machine, i32) {
        let (m, value) = self.read_ea(src, size);
        if m.cpu.faulted() {
            (m, 50)
        } else {
            let (m, ea) = m.resolve_ea(dst, size);
            let m = m.write_resolved_ea(ea, size, value);
            if m.cpu.faulted() {
                (m, 50)
            } else {
                let m = m.on_cpu(m.cpu.spec_set_logic_flags(value, size));
                if m.cpu.model.cpu_type == CpuType::M68000 {
                    (m, ea_time(src, size).wrapping_add(move_dst_time(dst, size)).wrapping_add(4))
                } else {
                    (m, 4)
                }
            }
        }
    }

    /// MOVEA: the operand is sign-extended and no flag changes.
    #[verifier::opaque]
    pub open spec fn exec_movea(self, size: Size, src: AddressingMode, reg: usize) -> (Machine, i32) {
        let (m, value) = self.read_ea(src, size);
        if m.cpu.faulted() {
            (m, 50)
        } else {
            let m = m.on_cpu(m.cpu.spec_set_a(reg, sign_extend(size, value)));
            if m.cpu.model.cpu_type == CpuType::M68000 {
                (m, ea_time(src, size).wrapping_add(4))
            } else {
                (m, 4)
            }
        }
    }

    /// Write the result of an immediate instruction.
    #[verifier::opaque]
    pub open spec fn finish_immediate(self, ea: EaResult, size: Size, result: u32) -> Machine {
        if self.cpu.model.cpu_type == CpuType::M68000 {
            match ea {
                EaResult::DataReg(reg) => {
                    let m = self.finish_m68000_immediate_data_register_write(reg as usize, size, result);
                    m
                },
                _ => {
                    let m = self.write_resolved_ea(ea, size, result);
                    m
                },
            }
        } else {
            let m = self.write_resolved_ea(ea, size, result);
            m
        }
    }

    /// ORI, ANDI and EORI, by the operation field of the opcode.
    #[verifier::opaque]
    pub open spec fn exec_logic_immediate(self, operation: u16, size: Size, mode: AddressingMode) -> (Machine, i32) {
        let (m, imm) = self.read_immediate(size);
        if m.cpu.faulted() {
            (m, 50)
        } else {
            let (m, ea) = m.resolve_ea(mode, size);
            let (m, dst) = m.read_resolved_ea(ea, size);
            if m.cpu.faulted() {
                (m, 50)
            } else {
                let result: u32 = match operation {
                    0x0 => (imm | dst) & size.mask(),
                    0x2 => imm & dst & size.mask(),
                    _ => (imm ^ dst) & size.mask(),
                };
                let m = m.finish_immediate(ea, size, result);
                if m.cpu.faulted() {
                    (m, 50)
                } else {
                    let m = m.on_cpu(m.cpu.spec_set_logic_flags(result, size));
                    if size == Size::Long {
                        (m, 16)
                    } else {
                        (m, 8)
                    }
                }
            }
        }
    }

    /// ORI, ANDI and EORI to the condition codes.
    #[verifier::opaque]
    pub open spec fn exec_logic_ccr(self, operation: u16) -> (Machine, i32) {
        let (m, imm) = self.read_imm_16();
        if m.cpu.faulted() {
            (m, 50)
        } else {
            let ccr: u8 = m.cpu.get_ccr();
            let result: u8 = match operation {
                0x0 => ccr | (imm as u8),
                0x2 => ccr & (imm as u8),
                _ => ccr ^ (imm as u8),
            };
            let m = m.on_cpu(m.cpu.spec_set_ccr(result));
            (m, 20)
        }
    }

    /// ORI, ANDI and EORI to the status register.
    #[verifier::opaque]
    pub open spec fn exec_logic_sr(self, operation: u16) -> (Machine, i32) {
        if !self.cpu.is_supervisor() {
            self.exception_privilege()
        } else {
            let (m, imm) = self.read_imm_16();
            if m.cpu.faulted() {
                (m, 50)
            } else {
                let sr: u16 = m.cpu.get_sr();
                let result: u16 = match operation {
                    0x0 => sr | imm,
                    0x2 => sr & imm,
                    _ => sr ^ imm,
                };
                let m = m.on_cpu(m.cpu.spec_trace_t0_sr_write());
                let m = m.on_cpu(m.cpu.spec_set_sr(result));
                (m, 20)
            }
        }
    }

    /// BTST, BCHG, BCLR and BSET: a bit of a data register or of a byte.
    #[verifier::opaque]
    pub open spec fn exec_bit_op(self, bit_op: u16, bit_num: u32, mode: AddressingMode) -> (Machine, i32) {
        match mode {
            AddressingMode::DataDirect(reg) => {
                let mask: u32 = bit_mask(bit_num & 31);
                let value: u32 = self.cpu.d(reg as usize);
                let m = self.on_cpu(CpuCore { ccr: Ccr { not_z_flag: flag(value & mask != 0, 1), ..self.cpu.ccr }, ..self.cpu });
                let m = m.on_cpu(m.cpu.spec_set_d(reg as usize, apply_bit_op(bit_op, value, mask)));
                match bit_op {
                    0 => (m, 6),
                    2 => (m, 10),
                    _ => (m, 8),
                }
            },
            _ => {
                let mask: u32 = bit_mask(bit_num & 7);
                let (m, ea) = self.resolve_ea(mode, Size::Byte);
                let (m, value) = m.read_resolved_ea(ea, Size::Byte);
                if m.cpu.faulted() {
                    (m, 50)
                } else {
                    if bit_op == 0 {
                        let m = m.on_cpu(CpuCore { ccr: Ccr { not_z_flag: flag(value & mask != 0, 1), ..m.cpu.ccr }, ..m.cpu });
                        (m, 4)
                    } else {
                        let m = m.write_resolved_ea_np_poll(ea, Size::Byte, apply_bit_op(bit_op, value, mask));
                        if m.cpu.faulted() {
                            (m, 50)
                        } else {
                            let m = m.on_cpu(CpuCore { ccr: Ccr { not_z_flag: flag(value & mask != 0, 1), ..m.cpu.ccr }, ..m.cpu });
                            (m, 8)
                        }
                    }
                }
            },
        }
    }

    /// CLR. The 68000 reads memory before it clears it.
    #[verifier::opaque]
    pub open spec fn exec_clr(self, size: Size, mode: AddressingMode) -> (Machine, i32) {
        let (m, ea) = self.resolve_ea(mode, size);
        let m = if m.cpu.model.cpu_type == CpuType::M68000 && !is_register_direct(mode) {
            let m = m.read_resolved_ea(ea, size).0;
            m
        } else {
            m
        };
        if m.cpu.faulted() {
            (m, 50)
        } else {
            let m = m.finish_unary(ea, size, 0);
            if m.cpu.faulted() {
                (m, 50)
            } else {
                let m = m.on_cpu(m.cpu.spec_set_logic_flags(0, size));
                if m.cpu.model.is_pre_68020 && size == Size::Long {
                    (m, 6)
                } else {
                    (m, 4)
                }
            }
        }
    }

    /// NEG.
    #[verifier::opaque]
    pub open spec fn exec_neg(self, size: Size, mode: AddressingMode) -> (Machine, i32) {
        let (m, ea) = self.resolve_ea(mode, size);
        let (m, src) = m.read_resolved_ea(ea, size);
        if m.cpu.faulted() {
            (m, 50)
        } else {
            let result: u32 = 0u32.wrapping_sub(src) & size.mask();
            let m = m.finish_unary(ea, size, result);
            if m.cpu.faulted() {
                (m, 50)
            } else {
                let m = m.on_cpu(m.cpu.spec_set_sub_flags(src, 0, result, size));
                (m, 4)
            }
        }
    }

    /// NEGX.
    #[verifier::opaque]
    pub open spec fn exec_negx(self, size: Size, mode: AddressingMode) -> (Machine, i32) {
        let (m, ea) = self.resolve_ea(mode, size);
        let (m, src) = m.read_resolved_ea(ea, size);
        if m.cpu.faulted() {
            (m, 50)
        } else {
            let (cpu, v1) = m.cpu.spec_exec_subx(size, src, 0);
            let m = m.on_cpu(cpu);
            let result: u32 = v1;
            let m = m.finish_unary(ea, size, result);
            (m, m.cpu.unless_faulted(4))
        }
    }

    /// NOT.
    #[verifier::opaque]
    pub open spec fn exec_not(self, size: Size, mode: AddressingMode) -> (Machine, i32) {
        let (m, ea) = self.resolve_ea(mode, size);
        let (m, src) = m.read_resolved_ea(ea, size);
        if m.cpu.faulted() {
            (m, 50)
        } else {
            let result: u32 = !src & size.mask();
            let m = m.finish_unary(ea, size, result);
            if m.cpu.faulted() {
                (m, 50)
            } else {
                let m = m.on_cpu(m.cpu.spec_set_logic_flags(result, size));
                (m, 4)
            }
        }
    }

    /// TST.
    #[verifier::opaque]
    pub open spec fn exec_tst(self, size: Size, mode: AddressingMode) -> (Machine, i32) {
        let (m, value) = self.read_ea(mode, size);
        if m.cpu.faulted() {
            (m, 50)
        } else {
            let m = m.on_cpu(m.cpu.spec_set_logic_flags(value, size));
            (m, 4)
        }
    }

    /// TAS.
    #[verifier::opaque]
    pub open spec fn exec_tas(self, mode: AddressingMode) -> (Machine, i32) {
        let (m, ea) = self.resolve_ea(mode, Size::Byte);
        let (m, value) = m.read_resolved_ea(ea, Size::Byte);
        if m.cpu.faulted() {
            (m, 50)
        } else {
            let m = m.on_cpu(m.cpu.spec_set_logic_flags(value, Size::Byte));
            let m = m.write_resolved_ea(ea, Size::Byte, value | 0x80);
            if is_register_direct(mode) {
                (m, 4)
            } else {
                (m, 14)
            }
        }
    }

    /// NBCD.
    #[verifier::opaque]
    pub open spec fn exec_nbcd(self, mode: AddressingMode) -> (Machine, i32) {
        let (m, ea) = self.resolve_ea(mode, Size::Byte);
        let (m, value) = m.read_resolved_ea(ea, Size::Byte);
        if m.cpu.faulted() {
            (m, 50)
        } else {
            let (cpu, v1) = m.cpu.spec_exec_sbcd(value, 0);
            let m = m.on_cpu(cpu);
            let result: u32 = v1;
            let m = m.write_resolved_ea_np_poll(ea, Size::Byte, result);
            if is_register_direct(mode) {
                (m, 6)
            } else {
                (m, 8)
            }
        }
    }

    /// ABCD -(Ay),-(Ax) and SBCD -(Ay),-(Ax).
    #[verifier::opaque]
    pub open spec fn exec_decimal_mm(self, src_reg: usize, dst_reg: usize, is_sub: bool) -> (Machine, i32) {
        let (m, src_ea) = self.resolve_ea(AddressingMode::PreDecrement(src_reg as u8), Size::Byte);
        let (m, src) = m.read_resolved_ea(src_ea, Size::Byte);
        if m.cpu.faulted() {
            (m, 50)
        } else {
            let (m, dst_ea) = m.resolve_ea(AddressingMode::PreDecrement(dst_reg as u8), Size::Byte);
            let (m, dst) = m.read_resolved_ea(dst_ea, Size::Byte);
            if m.cpu.faulted() {
                (m, 50)
            } else {
                let (m, result) = if is_sub {
                    let (cpu, v1) = m.cpu.spec_exec_sbcd(src, dst);
                    let m = m.on_cpu(cpu);
                    (m, v1)
                } else {
                    let (cpu, v2) = m.cpu.spec_exec_abcd(src, dst);
                    let m = m.on_cpu(cpu);
                    (m, v2)
                };
                let m = m.write_resolved_ea(dst_ea, Size::Byte, result);
                (m, 18)
            }
        }
    }

    /// CHK: trap when the register is negative or above the bound.
    #[verifier::opaque]
    pub open spec fn exec_chk(self, size: Size, bound: u32, reg: usize) -> (Machine, i32) {
        if self.cpu.faulted() {
            (self, 50)
        } else {
            let value: i32 = sign_extend(size, self.cpu.d(reg)) as i32;
            let limit: i32 = sign_extend(size, bound) as i32;
            let m = self.on_cpu(CpuCore { ccr: Ccr { not_z_flag: (value as u32) & size.mask(), ..self.cpu.ccr }, ..self.cpu });
            let m = m.on_cpu(CpuCore { ccr: Ccr { v_flag: 0, ..m.cpu.ccr }, ..m.cpu });
            let m = m.on_cpu(CpuCore { ccr: Ccr { c_flag: 0, ..m.cpu.ccr }, ..m.cpu });
            if value < 0 {
                let m = m.on_cpu(CpuCore { ccr: Ccr { n_flag: NFLAG_SET, ..m.cpu.ccr }, ..m.cpu });
                m.take_group2_exception(VECTOR_CHK)
            } else {
                if value > limit {
                    let m = m.on_cpu(CpuCore { ccr: Ccr { n_flag: 0, ..m.cpu.ccr }, ..m.cpu });
                    m.take_group2_exception(VECTOR_CHK)
                } else {
                    (m, 10)
                }
            }
        }
    }

    /// ADDQ and SUBQ. An address register changes as a whole, without flags.
    #[verifier::opaque]
    pub open spec fn exec_quick(self, size: Size, data: u32, mode: AddressingMode, is_sub: bool) -> (Machine, i32) {
        match mode {
            AddressingMode::AddressDirect(reg) => {
                let value: u32 = self.cpu.a(reg as usize);
                let result: u32 = if is_sub {
                    value.wrapping_sub(data)
                } else {
                    value.wrapping_add(data)
                };
                let m = self.on_cpu(self.cpu.spec_set_a(reg as usize, result));
                (m, 8)
            },
            _ => {
                let (m, ea) = self.resolve_ea(mode, size);
                let (m, dst) = m.read_resolved_ea(ea, size);
                if m.cpu.faulted() {
                    (m, 50)
                } else {
                    let (m, done) = if is_sub {
                        let (cpu, v1) = m.cpu.spec_exec_sub(size, data, dst);
                        let m = m.on_cpu(cpu);
                        (m, v1)
                    } else {
                        let (cpu, v2) = m.cpu.spec_exec_add(size, data, dst);
                        let m = m.on_cpu(cpu);
                        (m, v2)
                    };
                    let m = if is_register_direct(mode) {
                        let m = m.write_resolved_ea(ea, size, done.0);
                        m
                    } else {
                        let m = m.write_resolved_ea_np_poll(ea, size, done.0);
                        m
                    };
                    if size == Size::Long {
                        (m, 8)
                    } else {
                        (m, 4)
                    }
                }
            },
        }
    }

    /// LEA.
    #[verifier::opaque]
    pub open spec fn exec_lea(self, mode: AddressingMode, reg: usize) -> (Machine, i32) {
        let (m, address) = self.get_ea_address(mode, Size::Long);
        if m.cpu.faulted() {
            (m, 50)
        } else {
            let m = m.on_cpu(m.cpu.spec_set_a(reg, address));
            (m, 4)
        }
    }

    /// PEA.
    #[verifier::opaque]
    pub open spec fn exec_pea(self, mode: AddressingMode) -> (Machine, i32) {
        let (m, address) = self.get_ea_address(mode, Size::Long);
        if m.cpu.faulted() {
            (m, 50)
        } else {
            let m = m.push_32(address);
            (m, 12)
        }
    }

    /// LINK with a word displacement.
    #[verifier::opaque]
    pub open spec fn exec_link(self, reg: usize) -> (Machine, i32) {
        let (m, disp) = self.read_imm_16();
        let m = m.link_frame(reg, sext16(disp));
        (m, 16)
    }

    /// LINK with a long displacement.
    #[verifier::opaque]
    pub open spec fn exec_link_long(self, reg: usize) -> (Machine, i32) {
        let (m, disp) = self.read_imm_32();
        let m = m.link_frame(reg, disp);
        (m, 16)
    }

    /// Save the frame pointer, point it at the stack, and reserve space.
    #[verifier::opaque]
    pub open spec fn link_frame(self, reg: usize, disp: u32) -> Machine {
        let m = self.on_cpu(CpuCore { dar: vstd::array::spec_array_update(self.cpu.dar, (15) as int, self.cpu.dar[15].wrapping_sub(4)), ..self.cpu });
        let m = m.write_32(m.cpu.dar[15], m.cpu.a(reg));
        let m = m.on_cpu(m.cpu.spec_set_a(reg, m.cpu.dar[15]));
        let m = m.on_cpu(CpuCore { dar: vstd::array::spec_array_update(m.cpu.dar, (15) as int, m.cpu.dar[15].wrapping_add(disp)), ..m.cpu });
        m
    }

    /// UNLK.
    #[verifier::opaque]
    pub open spec fn exec_unlk(self, reg: usize) -> (Machine, i32) {
        let m = self.on_cpu(CpuCore { dar: vstd::array::spec_array_update(self.cpu.dar, (15) as int, self.cpu.a(reg)), ..self.cpu });
        let (m, saved) = m.pull_32();
        let m = m.on_cpu(m.cpu.spec_set_a(reg, saved));
        (m, 12)
    }

    /// MULU.
    #[verifier::opaque]
    pub open spec fn exec_mulu(self, mode: AddressingMode, reg: usize) -> (Machine, i32) {
        let (m, src) = self.read_ea(mode, Size::Word);
        if m.cpu.faulted() {
            (m, 50)
        } else {
            let result: u32 = (m.cpu.d(reg) & 0xFFFF).wrapping_mul(src);
            let m = m.on_cpu(m.cpu.spec_set_d(reg, result));
            let m = m.on_cpu(m.cpu.spec_set_logic_flags(result, Size::Long));
            (m, ea_source_cycles(mode, Size::Word).wrapping_add(70))
        }
    }

    /// MULS.
    #[verifier::opaque]
    pub open spec fn exec_muls(self, mode: AddressingMode, reg: usize) -> (Machine, i32) {
        let (m, src) = self.read_ea(mode, Size::Word);
        if m.cpu.faulted() {
            (m, 50)
        } else {
            let result: u32 = sext16(m.cpu.d(reg) as u16).wrapping_mul(sext16(src as u16));
            let m = m.on_cpu(m.cpu.spec_set_d(reg, result));
            let m = m.on_cpu(m.cpu.spec_set_logic_flags(result, Size::Long));
            (m, ea_source_cycles(mode, Size::Word).wrapping_add(70))
        }
    }

    /// DIVU.
    #[verifier::opaque]
    pub open spec fn exec_divu(self, mode: AddressingMode, reg: usize) -> (Machine, i32) {
        let (m, src) = self.read_ea(mode, Size::Word);
        if m.cpu.faulted() {
            (m, 50)
        } else {
            if src == 0 {
                m.take_group2_exception(VECTOR_ZERO_DIVIDE)
            } else {
                let value: u32 = m.cpu.d(reg);
                let m = m.on_cpu(m.cpu.spec_finish_division(reg, value / src, value % src, value / src > 0xFFFF));
                (m, ea_source_cycles(mode, Size::Word).wrapping_add(140))
            }
        }
    }

    /// DIVS: the remainder has the sign of the dividend.
    #[verifier::opaque]
    pub open spec fn exec_divs(self, mode: AddressingMode, reg: usize) -> (Machine, i32) {
        let (m, src) = self.read_ea(mode, Size::Word);
        if m.cpu.faulted() {
            (m, 50)
        } else {
            let divisor: u32 = sext16(src as u16);
            if divisor == 0 {
                m.take_group2_exception(VECTOR_ZERO_DIVIDE)
            } else {
                let value: u32 = m.cpu.d(reg);
                let q: u32 = magnitude(value) / magnitude(divisor);
                let r: u32 = magnitude(value) % magnitude(divisor);
                let negative: bool = (value ^ divisor) & 0x8000_0000 != 0;
                let quotient: u32 = if negative {
                    0u32.wrapping_sub(q)
                } else {
                    q
                };
                let remainder: u32 = if value & 0x8000_0000 != 0 {
                    0u32.wrapping_sub(r)
                } else {
                    r
                };
                let overflow: bool = if negative {
                    q > 0x8000
                } else {
                    q > 0x7FFF
                };
                let m = m.on_cpu(m.cpu.spec_finish_division(reg, quotient, remainder, overflow));
                (m, ea_source_cycles(mode, Size::Word).wrapping_add(158))
            }
        }
    }

    /// Store one register of a MOVEM list; gives the next address. Going
    /// down, the address moves before the store.
    #[verifier::opaque]
    pub open spec fn movem_store_one(self, size: Size, register: usize, address: u32, reverse: bool) -> (Machine, u32) {
        let at: u32 = if reverse {
            address.wrapping_sub(size.bytes())
        } else {
            address
        };
        let m = self.write_sized(at, size, self.cpu.dar[(register) as int]);
        if reverse {
            (m, at)
        } else {
            (m, at.wrapping_add(size.bytes()))
        }
    }

    /// Load one register of a MOVEM list, sign-extended; gives the next
    /// address.
    #[verifier::opaque]
    pub open spec fn movem_load_one(self, size: Size, register: usize, address: u32) -> (Machine, u32) {
        let (m, value) = self.read_sized(address, size);
        let m = if !m.cpu.faulted() {
            let m = m.on_cpu(CpuCore { dar: vstd::array::spec_array_update(m.cpu.dar, (register) as int, sign_extend(size, value)), ..m.cpu });
            m
        } else {
            m
        };
        (m, address.wrapping_add(size.bytes()))
    }

    /// MOVEM registers to memory.
    #[verifier::opaque]
    pub open spec fn exec_movem_to_mem(self, size: Size, mode: AddressingMode, mask: u16) -> (Machine, i32) {
        let m = match mode {
            AddressingMode::PreDecrement(reg) => {
                let start: u32 = self.cpu.a(reg as usize);
                let (m, end) = self.movem_store_all(size, mask, start, true);
                let m = m.on_cpu(m.cpu.spec_set_a(reg as usize, end));
                m
            },
            _ => {
                let (m, start) = self.get_ea_address(mode, size);
                let m = m.movem_store_all(size, mask, start, false).0;
                m
            },
        };
        let count: u32 = movem_count(mask);
        (m, m.cpu.movem_cycles(8, size, mode, count))
    }

    /// MOVEM memory to registers. A postincrement register ends up after the
    /// list even if it was loaded.
    #[verifier::opaque]
    pub open spec fn exec_movem_to_reg(self, size: Size, mode: AddressingMode, mask: u16) -> (Machine, i32) {
        let m = match mode {
            AddressingMode::PostIncrement(reg) => {
                let start: u32 = self.cpu.a(reg as usize);
                let (m, end) = self.movem_load_all(size, mask, start);
                let m = m.on_cpu(m.cpu.spec_set_a(reg as usize, end));
                m
            },
            _ => {
                let (m, start) = self.get_ea_address(mode, size);
                let m = m.movem_load_all(size, mask, start).0;
                m
            },
        };
        let count: u32 = movem_count(mask);
        (m, m.cpu.movem_cycles(12, size, mode, count))
    }
}

impl Machine {
    /// The first `n` positions of a MOVEM store.
    pub open spec fn movem_store(self, size: Size, mask: u16, address: u32, reverse: bool, n: nat) -> (
        Machine,
        u32,
    )
        decreases n,
    {
        if n == 0 {
            (self, address)
        } else {
            let (m, at) = self.movem_store(size, mask, address, reverse, (n - 1) as nat);
            if mask & (1u16 << ((n - 1) as u16)) != 0 {
                m.movem_store_one(size, movem_register((n - 1) as u32, reverse), at, reverse)
            } else {
                (m, at)
            }
        }
    }

    /// The first `n` positions of a MOVEM load.
    pub open spec fn movem_load(self, size: Size, mask: u16, address: u32, n: nat) -> (Machine, u32)
        decreases n,
    {
        if n == 0 {
            (self, address)
        } else {
            let (m, at) = self.movem_load(size, mask, address, (n - 1) as nat);
            if mask & (1u16 << ((n - 1) as u16)) != 0 {
                m.movem_load_one(size, (n - 1) as usize, at)
            } else {
                (m, at)
            }
        }
    }
}

/// Number of registers that the low `n` bits of a MOVEM mask name.
pub open spec fn spec_movem_count(mask: u16, n: nat) -> u32
    decreases n,
{
    if n == 0 {
        0
    } else if mask & (1u16 << ((n - 1) as u16)) != 0 {
        (spec_movem_count(mask, (n - 1) as nat) + 1) as u32
    } else {
        spec_movem_count(mask, (n - 1) as nat)
    }
}

/// Number of registers that a MOVEM mask names.
pub open spec fn movem_registers(mask: u16) -> u32 {
    spec_movem_count(mask, 16)
}

/// Number of registers that a MOVEM mask names.
#[verifier::when_used_as_spec(movem_registers)]
pub fn movem_count(mask: u16) -> (r: u32)
    ensures
        r == movem_registers(mask),
        r <= 16,
{
    let mut count: u32 = 0;
    let mut i: u16 = 0;
    while i < 16
        invariant
            i <= 16,
            count <= i,
            count == spec_movem_count(mask, i as nat),
        decreases 16 - i,
    {
        if mask & (1u16 << i) != 0 {
            count = count + 1;
        }
        i = i + 1;
    }
    count
}

impl CpuCore {
    /// Let an attached unit execute an instruction; without the unit the
    /// instruction is illegal.
    pub fn run_unit<B: AddressBus>(&mut self, bus: &mut B, op: UnitOp) -> (r: i32)
        ensures
            (Machine::of(*final(self), *final(bus)), r) == Machine::of(*old(self), *old(bus)).run_unit(op),
    {
        proof {
            reveal(Machine::run_unit);
        }
        match bus.unit(self, op) {
            Some(cycles) => cycles,
            None => ILLEGAL_SENTINEL,
        }
    }

    /// The 68000 ends many register instructions with the final prefetch, the
    /// IPL poll and some internal clocks. False when the prefetch faulted.
    pub fn finish_m68000_tail_after_final_prefetch<B: AddressBus>(&mut self, bus: &mut B, internal_clocks: u32) -> (r: bool)
        ensures
            (Machine::of(*final(self), *final(bus)), r) == Machine::of(*old(self), *old(bus)).finish_m68000_tail_after_final_prefetch(internal_clocks),
    {
        proof {
            reveal(Machine::finish_m68000_tail_after_final_prefetch);
        }
        self.top_up_prefetch(bus);
        self.ipl_poll_point(bus);
        if self.faulted() {
            return false;
        }
        self.internal_cycles(internal_clocks);
        self.flush_sync(bus);
        true
    }

    /// Tail of ADD, SUB, AND and OR to a data register on the 68000.
    pub fn finish_m68000_alu_ea_dn_long_tail<B: AddressBus>(&mut self, bus: &mut B, mode: AddressingMode, size: Size) -> (r: bool)
        ensures
            (Machine::of(*final(self), *final(bus)), r) == Machine::of(*old(self), *old(bus)).finish_m68000_alu_ea_dn_long_tail(mode, size),
    {
        proof {
            reveal(Machine::finish_m68000_alu_ea_dn_long_tail);
        }
        if self.model.cpu_type != CpuType::M68000 || size != Size::Long {
            return true;
        }
        let clocks: u32 = if ea_is_memory(mode) {
            2
        } else {
            4
        };
        self.finish_m68000_tail_after_final_prefetch(bus, clocks)
    }

    /// Tail of ADDA and SUBA on the 68000.
    pub fn finish_m68000_adda_suba_tail<B: AddressBus>(&mut self, bus: &mut B, mode: AddressingMode, size: Size) -> (r: bool)
        ensures
            (Machine::of(*final(self), *final(bus)), r) == Machine::of(*old(self), *old(bus)).finish_m68000_adda_suba_tail(mode, size),
    {
        proof {
            reveal(Machine::finish_m68000_adda_suba_tail);
        }
        let clocks: u32 = if size == Size::Word || !ea_is_memory(mode) {
            4
        } else {
            2
        };
        self.finish_m68000_tail_after_final_prefetch(bus, clocks)
    }

    /// Tail of ADDX and SUBX between data registers on the 68000.
    pub fn finish_m68000_addx_subx_register_tail<B: AddressBus>(&mut self, bus: &mut B, size: Size) -> (r: bool)
        ensures
            (Machine::of(*final(self), *final(bus)), r) == Machine::of(*old(self), *old(bus)).finish_m68000_addx_subx_register_tail(size),
    {
        proof {
            reveal(Machine::finish_m68000_addx_subx_register_tail);
        }
        self.top_up_prefetch(bus);
        self.ipl_poll_point(bus);
        if self.faulted() {
            return false;
        }
        if size == Size::Long {
            self.internal_cycles(4);
            self.flush_sync(bus);
        }
        true
    }

    /// End of an immediate instruction on a data register of the 68000: the
    /// register is written after the final prefetch, and after four internal
    /// clocks for a long operand.
    pub fn finish_m68000_immediate_data_register_write<B: AddressBus>(&mut self, bus: &mut B, reg: usize, size: Size, result: u32)
        ensures
            Machine::of(*final(self), *final(bus)) == Machine::of(*old(self), *old(bus)).finish_m68000_immediate_data_register_write(reg, size, result),
    {
        proof {
            reveal(Machine::finish_m68000_immediate_data_register_write);
        }
        self.top_up_prefetch(bus);
        self.ipl_poll_point(bus);
        if self.faulted() {
            return;
        }
        if size == Size::Long {
            self.internal_cycles(4);
            self.flush_sync(bus);
        }
        self.write_data_reg(reg, size, result);
    }

    /// End of CLR, NEG, NEGX and NOT: the 68000 writes a register after the
    /// final prefetch, and after two internal clocks for a long operand.
    pub fn finish_unary<B: AddressBus>(&mut self, bus: &mut B, ea: EaResult, size: Size, result: u32)
        ensures
            Machine::of(*final(self), *final(bus)) == Machine::of(*old(self), *old(bus)).finish_unary(ea, size, result),
    {
        proof {
            reveal(Machine::finish_unary);
        }
        match ea {
            EaResult::DataReg(reg) => {
                if self.model.cpu_type == CpuType::M68000 {
                    self.top_up_prefetch(bus);
                    self.ipl_poll_point(bus);
                    if self.faulted() {
                        return;
                    }
                    if size == Size::Long {
                        self.internal_cycles(2);
                        self.flush_sync(bus);
                    }
                }
                self.write_data_reg(reg as usize, size, result);
            },
            _ => {
                self.write_resolved_ea_np_poll(bus, ea, size, result);
            },
        }
    }

    /// Clocks of an instruction that faulted, or its own.
    pub open spec fn spec_unless_faulted(&self, cycles: i32) -> i32 {
        if self.faulted() {
            50
        } else {
            cycles
        }
    }

    /// Clocks of an instruction that faulted, or its own.
    #[verifier::when_used_as_spec(spec_unless_faulted)]
    pub fn unless_faulted(&self, cycles: i32) -> (r: i32)
        ensures
            r == self.spec_unless_faulted(cycles),
    {
        if self.faulted() {
            50
        } else {
            cycles
        }
    }

    /// MOVE.
    pub fn exec_move<B: AddressBus>(&mut self, bus: &mut B, size: Size, src: AddressingMode, dst: AddressingMode) -> (r: i32)
        ensures
            (Machine::of(*final(self), *final(bus)), r) == Machine::of(*old(self), *old(bus)).exec_move(size, src, dst),
    {
        proof {
            reveal(Machine::exec_move);
        }
        let value: u32 = self.read_ea(bus, src, size);
        if self.faulted() {
            return 50;
        }
        let ea: EaResult = self.resolve_ea(bus, dst, size);
        self.write_resolved_ea(bus, ea, size, value);
        if self.faulted() {
            return 50;
        }
        self.set_logic_flags(value, size);
        if self.model.cpu_type == CpuType::M68000 {
            ea_time(src, size).wrapping_add(move_dst_time(dst, size)).wrapping_add(4)
        } else {
            4
        }
    }

    /// MOVEA: the operand is sign-extended and no flag changes.
    pub fn exec_movea<B: AddressBus>(&mut self, bus: &mut B, size: Size, src: AddressingMode, reg: usize) -> (r: i32)
        ensures
            (Machine::of(*final(self), *final(bus)), r) == Machine::of(*old(self), *old(bus)).exec_movea(size, src, reg),
    {
        proof {
            reveal(Machine::exec_movea);
        }
        let value: u32 = self.read_ea(bus, src, size);
        if self.faulted() {
            return 50;
        }
        self.set_a(reg, sign_extend(size, value));
        if self.model.cpu_type == CpuType::M68000 {
            ea_time(src, size).wrapping_add(4)
        } else {
            4
        }
    }

    /// Write the result of an immediate instruction.
    pub fn finish_immediate<B: AddressBus>(&mut self, bus: &mut B, ea: EaResult, size: Size, result: u32)
        ensures
            Machine::of(*final(self), *final(bus)) == Machine::of(*old(self), *old(bus)).finish_immediate(ea, size, result),
    {
        proof {
            reveal(Machine::finish_immediate);
        }
        if self.model.cpu_type == CpuType::M68000 {
            match ea {
                EaResult::DataReg(reg) => {
                    self.finish_m68000_immediate_data_register_write(bus, reg as usize, size, result);
                    return;
                },
                _ => {},
            }
        }
        self.write_resolved_ea(bus, ea, size, result);
    }

    /// ORI, ANDI and EORI, by the operation field of the opcode.
    pub fn exec_logic_immediate<B: AddressBus>(&mut self, bus: &mut B, operation: u16, size: Size, mode: AddressingMode) -> (r: i32)
        ensures
            (Machine::of(*final(self), *final(bus)), r) == Machine::of(*old(self), *old(bus)).exec_logic_immediate(operation, size, mode),
    {
        proof {
            reveal(Machine::exec_logic_immediate);
        }
        let imm: u32 = self.read_immediate(bus, size);
        if self.faulted() {
            return 50;
        }
        let ea: EaResult = self.resolve_ea(bus, mode, size);
        let dst: u32 = self.read_resolved_ea(bus, ea, size);
        if self.faulted() {
            return 50;
        }
        let result: u32 = match operation {
            0x0 => (imm | dst) & size.mask(),
            0x2 => imm & dst & size.mask(),
            _ => (imm ^ dst) & size.mask(),
        };
        self.finish_immediate(bus, ea, size, result);
        if self.faulted() {
            return 50;
        }
        self.set_logic_flags(result, size);
        if size == Size::Long {
            16
        } else {
            8
        }
    }

    /// ORI, ANDI and EORI to the condition codes.
    pub fn exec_logic_ccr<B: AddressBus>(&mut self, bus: &mut B, operation: u16) -> (r: i32)
        ensures
            (Machine::of(*final(self), *final(bus)), r) == Machine::of(*old(self), *old(bus)).exec_logic_ccr(operation),
    {
        proof {
            reveal(Machine::exec_logic_ccr);
        }
        let imm: u16 = self.read_imm_16(bus);
        if self.faulted() {
            return 50;
        }
        let ccr: u8 = self.get_ccr();
        let result: u8 = match operation {
            0x0 => ccr | (imm as u8),
            0x2 => ccr & (imm as u8),
            _ => ccr ^ (imm as u8),
        };
        self.set_ccr(result);
        20
    }

    /// ORI, ANDI and EORI to the status register.
    pub fn exec_logic_sr<B: AddressBus>(&mut self, bus: &mut B, operation: u16) -> (r: i32)
        ensures
            (Machine::of(*final(self), *final(bus)), r) == Machine::of(*old(self), *old(bus)).exec_logic_sr(operation),
    {
        proof {
            reveal(Machine::exec_logic_sr);
        }
        if !self.is_supervisor() {
            return self.exception_privilege(bus);
        }
        let imm: u16 = self.read_imm_16(bus);
        if self.faulted() {
            return 50;
        }
        let sr: u16 = self.get_sr();
        let result: u16 = match operation {
            0x0 => sr | imm,
            0x2 => sr & imm,
            _ => sr ^ imm,
        };
        self.trace_t0_sr_write();
        self.set_sr(result);
        20
    }

    /// BTST, BCHG, BCLR and BSET: a bit of a data register or of a byte.
    pub fn exec_bit_op<B: AddressBus>(&mut self, bus: &mut B, bit_op: u16, bit_num: u32, mode: AddressingMode) -> (r: i32)
        ensures
            (Machine::of(*final(self), *final(bus)), r) == Machine::of(*old(self), *old(bus)).exec_bit_op(bit_op, bit_num, mode),
    {
        proof {
            reveal(Machine::exec_bit_op);
        }
        match mode {
            AddressingMode::DataDirect(reg) => {
                let mask: u32 = bit_mask(bit_num & 31);
                let value: u32 = self.d(reg as usize);
                self.ccr.not_z_flag = flag(value & mask != 0, 1);
                self.set_d(reg as usize, apply_bit_op(bit_op, value, mask));
                match bit_op {
                    0 => 6,
                    2 => 10,
                    _ => 8,
                }
            },
            _ => {
                let mask: u32 = bit_mask(bit_num & 7);
                let ea: EaResult = self.resolve_ea(bus, mode, Size::Byte);
                let value: u32 = self.read_resolved_ea(bus, ea, Size::Byte);
                if self.faulted() {
                    return 50;
                }
                if bit_op == 0 {
                    self.ccr.not_z_flag = flag(value & mask != 0, 1);
                    return 4;
                }
                self.write_resolved_ea_np_poll(bus, ea, Size::Byte, apply_bit_op(bit_op, value, mask));
                if self.faulted() {
                    return 50;
                }
                self.ccr.not_z_flag = flag(value & mask != 0, 1);
                8
            },
        }
    }

    /// CLR. The 68000 reads memory before it clears it.
    pub fn exec_clr<B: AddressBus>(&mut self, bus: &mut B, size: Size, mode: AddressingMode) -> (r: i32)
        ensures
            (Machine::of(*final(self), *final(bus)), r) == Machine::of(*old(self), *old(bus)).exec_clr(size, mode),
    {
        proof {
            reveal(Machine::exec_clr);
        }
        let ea: EaResult = self.resolve_ea(bus, mode, size);
        if self.model.cpu_type == CpuType::M68000 && !is_register_direct(mode) {
            self.read_resolved_ea(bus, ea, size);
        }
        if self.faulted() {
            return 50;
        }
        self.finish_unary(bus, ea, size, 0);
        if self.faulted() {
            return 50;
        }
        self.set_logic_flags(0, size);
        if self.model.is_pre_68020 && size == Size::Long {
            6
        } else {
            4
        }
    }

    /// NEG.
    pub fn exec_neg<B: AddressBus>(&mut self, bus: &mut B, size: Size, mode: AddressingMode) -> (r: i32)
        ensures
            (Machine::of(*final(self), *final(bus)), r) == Machine::of(*old(self), *old(bus)).exec_neg(size, mode),
    {
        proof {
            reveal(Machine::exec_neg);
        }
        let ea: EaResult = self.resolve_ea(bus, mode, size);
        let src: u32 = self.read_resolved_ea(bus, ea, size);
        if self.faulted() {
            return 50;
        }
        let result: u32 = 0u32.wrapping_sub(src) & size.mask();
        self.finish_unary(bus, ea, size, result);
        if self.faulted() {
            return 50;
        }
        self.set_sub_flags(src, 0, result, size);
        4
    }

    /// NEGX.
    pub fn exec_negx<B: AddressBus>(&mut self, bus: &mut B, size: Size, mode: AddressingMode) -> (r: i32)
        ensures
            (Machine::of(*final(self), *final(bus)), r) == Machine::of(*old(self), *old(bus)).exec_negx(size, mode),
    {
        proof {
            reveal(Machine::exec_negx);
        }
        let ea: EaResult = self.resolve_ea(bus, mode, size);
        let src: u32 = self.read_resolved_ea(bus, ea, size);
        if self.faulted() {
            return 50;
        }
        let result: u32 = self.exec_subx(size, src, 0);
        self.finish_unary(bus, ea, size, result);
        self.unless_faulted(4)
    }

    /// NOT.
    pub fn exec_not<B: AddressBus>(&mut self, bus: &mut B, size: Size, mode: AddressingMode) -> (r: i32)
        ensures
            (Machine::of(*final(self), *final(bus)), r) == Machine::of(*old(self), *old(bus)).exec_not(size, mode),
    {
        proof {
            reveal(Machine::exec_not);
        }
        let ea: EaResult = self.resolve_ea(bus, mode, size);
        let src: u32 = self.read_resolved_ea(bus, ea, size);
        if self.faulted() {
            return 50;
        }
        let result: u32 = !src & size.mask();
        self.finish_unary(bus, ea, size, result);
        if self.faulted() {
            return 50;
        }
        self.set_logic_flags(result, size);
        4
    }

    /// TST.
    pub fn exec_tst<B: AddressBus>(&mut self, bus: &mut B, size: Size, mode: AddressingMode) -> (r: i32)
        ensures
            (Machine::of(*final(self), *final(bus)), r) == Machine::of(*old(self), *old(bus)).exec_tst(size, mode),
    {
        proof {
            reveal(Machine::exec_tst);
        }
        let value: u32 = self.read_ea(bus, mode, size);
        if self.faulted() {
            return 50;
        }
        self.set_logic_flags(value, size);
        4
    }

    /// TAS.
    pub fn exec_tas<B: AddressBus>(&mut self, bus: &mut B, mode: AddressingMode) -> (r: i32)
        ensures
            (Machine::of(*final(self), *final(bus)), r) == Machine::of(*old(self), *old(bus)).exec_tas(mode),
    {
        proof {
            reveal(Machine::exec_tas);
        }
        let ea: EaResult = self.resolve_ea(bus, mode, Size::Byte);
        let value: u32 = self.read_resolved_ea(bus, ea, Size::Byte);
        if self.faulted() {
            return 50;
        }
        self.set_logic_flags(value, Size::Byte);
        self.write_resolved_ea(bus, ea, Size::Byte, value | 0x80);
        if is_register_direct(mode) {
            4
        } else {
            14
        }
    }

    /// NBCD.
    pub fn exec_nbcd<B: AddressBus>(&mut self, bus: &mut B, mode: AddressingMode) -> (r: i32)
        ensures
            (Machine::of(*final(self), *final(bus)), r) == Machine::of(*old(self), *old(bus)).exec_nbcd(mode),
    {
        proof {
            reveal(Machine::exec_nbcd);
        }
        let ea: EaResult = self.resolve_ea(bus, mode, Size::Byte);
        let value: u32 = self.read_resolved_ea(bus, ea, Size::Byte);
        if self.faulted() {
            return 50;
        }
        let result: u32 = self.exec_sbcd(value, 0);
        self.write_resolved_ea_np_poll(bus, ea, Size::Byte, result);
        if is_register_direct(mode) {
            6
        } else {
            8
        }
    }

    /// ABCD -(Ay),-(Ax) and SBCD -(Ay),-(Ax).
    pub fn exec_decimal_mm<B: AddressBus>(&mut self, bus: &mut B, src_reg: usize, dst_reg: usize, is_sub: bool) -> (r: i32)
        ensures
            (Machine::of(*final(self), *final(bus)), r) == Machine::of(*old(self), *old(bus)).exec_decimal_mm(src_reg, dst_reg, is_sub),
    {
        proof {
            reveal(Machine::exec_decimal_mm);
        }
        let src_ea: EaResult = self.resolve_ea(bus, AddressingMode::PreDecrement(src_reg as u8), Size::Byte);
        let src: u32 = self.read_resolved_ea(bus, src_ea, Size::Byte);
        if self.faulted() {
            return 50;
        }
        let dst_ea: EaResult = self.resolve_ea(bus, AddressingMode::PreDecrement(dst_reg as u8), Size::Byte);
        let dst: u32 = self.read_resolved_ea(bus, dst_ea, Size::Byte);
        if self.faulted() {
            return 50;
        }
        let result: u32 = if is_sub {
            self.exec_sbcd(src, dst)
        } else {
            self.exec_abcd(src, dst)
        };
        self.write_resolved_ea(bus, dst_ea, Size::Byte, result);
        18
    }

    /// CHK: trap when the register is negative or above the bound.
    pub fn exec_chk<B: AddressBus>(&mut self, bus: &mut B, size: Size, bound: u32, reg: usize) -> (r: i32)
        ensures
            (Machine::of(*final(self), *final(bus)), r) == Machine::of(*old(self), *old(bus)).exec_chk(size, bound, reg),
    {
        proof {
            reveal(Machine::exec_chk);
        }
        if self.faulted() {
            return 50;
        }
        let value: i32 = sign_extend(size, self.d(reg)) as i32;
        let limit: i32 = sign_extend(size, bound) as i32;
        self.ccr.not_z_flag = (value as u32) & size.mask();
        self.ccr.v_flag = 0;
        self.ccr.c_flag = 0;
        if value < 0 {
            self.ccr.n_flag = NFLAG_SET;
            return self.take_group2_exception(bus, VECTOR_CHK);
        }
        if value > limit {
            self.ccr.n_flag = 0;
            return self.take_group2_exception(bus, VECTOR_CHK);
        }
        10
    }

    /// ADDQ and SUBQ. An address register changes as a whole, without flags.
    pub fn exec_quick<B: AddressBus>(&mut self, bus: &mut B, size: Size, data: u32, mode: AddressingMode, is_sub: bool) -> (r: i32)
        ensures
            (Machine::of(*final(self), *final(bus)), r) == Machine::of(*old(self), *old(bus)).exec_quick(size, data, mode, is_sub),
    {
        proof {
            reveal(Machine::exec_quick);
        }
        match mode {
            AddressingMode::AddressDirect(reg) => {
                let value: u32 = self.a(reg as usize);
                let result: u32 = if is_sub {
                    value.wrapping_sub(data)
                } else {
                    value.wrapping_add(data)
                };
                self.set_a(reg as usize, result);
                return 8;
            },
            _ => {},
        }
        let ea: EaResult = self.resolve_ea(bus, mode, size);
        let dst: u32 = self.read_resolved_ea(bus, ea, size);
        if self.faulted() {
            return 50;
        }
        let done: (u32, i32) = if is_sub {
            self.exec_sub(size, data, dst)
        } else {
            self.exec_add(size, data, dst)
        };
        if is_register_direct(mode) {
            self.write_resolved_ea(bus, ea, size, done.0);
        } else {
            self.write_resolved_ea_np_poll(bus, ea, size, done.0);
        }
        if size == Size::Long {
            8
        } else {
            4
        }
    }

    /// LEA.
    pub fn exec_lea<B: AddressBus>(&mut self, bus: &mut B, mode: AddressingMode, reg: usize) -> (r: i32)
        ensures
            (Machine::of(*final(self), *final(bus)), r) == Machine::of(*old(self), *old(bus)).exec_lea(mode, reg),
    {
        proof {
            reveal(Machine::exec_lea);
        }
        let address: u32 = self.get_ea_address(bus, mode, Size::Long);
        if self.faulted() {
            return 50;
        }
        self.set_a(reg, address);
        4
    }

    /// PEA.
    pub fn exec_pea<B: AddressBus>(&mut self, bus: &mut B, mode: AddressingMode) -> (r: i32)
        ensures
            (Machine::of(*final(self), *final(bus)), r) == Machine::of(*old(self), *old(bus)).exec_pea(mode),
    {
        proof {
            reveal(Machine::exec_pea);
        }
        let address: u32 = self.get_ea_address(bus, mode, Size::Long);
        if self.faulted() {
            return 50;
        }
        self.push_32(bus, address);
        12
    }

    /// LINK with a word displacement.
    pub fn exec_link<B: AddressBus>(&mut self, bus: &mut B, reg: usize) -> (r: i32)
        ensures
            (Machine::of(*final(self), *final(bus)), r) == Machine::of(*old(self), *old(bus)).exec_link(reg),
    {
        proof {
            reveal(Machine::exec_link);
        }
        let disp: u16 = self.read_imm_16(bus);
        self.link_frame(bus, reg, sext16(disp));
        16
    }

    /// LINK with a long displacement.
    pub fn exec_link_long<B: AddressBus>(&mut self, bus: &mut B, reg: usize) -> (r: i32)
        ensures
            (Machine::of(*final(self), *final(bus)), r) == Machine::of(*old(self), *old(bus)).exec_link_long(reg),
    {
        proof {
            reveal(Machine::exec_link_long);
        }
        let disp: u32 = self.read_imm_32(bus);
        self.link_frame(bus, reg, disp);
        16
    }

    /// Save the frame pointer, point it at the stack, and reserve space.
    pub fn link_frame<B: AddressBus>(&mut self, bus: &mut B, reg: usize, disp: u32)
        ensures
            Machine::of(*final(self), *final(bus)) == Machine::of(*old(self), *old(bus)).link_frame(reg, disp),
    {
        proof {
            reveal(Machine::link_frame);
        }
        self.dar[15] = self.dar[15].wrapping_sub(4);
        self.write_32(bus, self.dar[15], self.a(reg));
        self.set_a(reg, self.dar[15]);
        self.dar[15] = self.dar[15].wrapping_add(disp);
    }

    /// UNLK.
    pub fn exec_unlk<B: AddressBus>(&mut self, bus: &mut B, reg: usize) -> (r: i32)
        ensures
            (Machine::of(*final(self), *final(bus)), r) == Machine::of(*old(self), *old(bus)).exec_unlk(reg),
    {
        proof {
            reveal(Machine::exec_unlk);
        }
        self.dar[15] = self.a(reg);
        let saved: u32 = self.pull_32(bus);
        self.set_a(reg, saved);
        12
    }

    /// MULU.
    pub fn exec_mulu<B: AddressBus>(&mut self, bus: &mut B, mode: AddressingMode, reg: usize) -> (r: i32)
        ensures
            (Machine::of(*final(self), *final(bus)), r) == Machine::of(*old(self), *old(bus)).exec_mulu(mode, reg),
    {
        proof {
            reveal(Machine::exec_mulu);
        }
        let src: u32 = self.read_ea(bus, mode, Size::Word);
        if self.faulted() {
            return 50;
        }
        let result: u32 = (self.d(reg) & 0xFFFF).wrapping_mul(src);
        self.set_d(reg, result);
        self.set_logic_flags(result, Size::Long);
        ea_source_cycles(mode, Size::Word).wrapping_add(70)
    }

    /// MULS.
    pub fn exec_muls<B: AddressBus>(&mut self, bus: &mut B, mode: AddressingMode, reg: usize) -> (r: i32)
        ensures
            (Machine::of(*final(self), *final(bus)), r) == Machine::of(*old(self), *old(bus)).exec_muls(mode, reg),
    {
        proof {
            reveal(Machine::exec_muls);
        }
        let src: u32 = self.read_ea(bus, mode, Size::Word);
        if self.faulted() {
            return 50;
        }
        let result: u32 = sext16(self.d(reg) as u16).wrapping_mul(sext16(src as u16));
        self.set_d(reg, result);
        self.set_logic_flags(result, Size::Long);
        ea_source_cycles(mode, Size::Word).wrapping_add(70)
    }

    /// Quotient and remainder in the halves of the register, or overflow.
    #[verifier::opaque]
    pub open spec fn spec_finish_division(self, reg: usize, quotient: u32, remainder: u32, overflow: bool) -> CpuCore {
        let c = CpuCore { ccr: Ccr { c_flag: 0, ..self.ccr }, ..self };
        if overflow {
            let c = CpuCore { ccr: Ccr { v_flag: VFLAG_SET, ..c.ccr }, ..c };
            c
        } else {
            let c = c.spec_set_d(reg, (remainder << 16) | (quotient & 0xFFFF));
            let c = c.spec_set_logic_flags(quotient & 0xFFFF, Size::Word);
            c
        }
    }

    /// Quotient and remainder in the halves of the register, or overflow.
    pub fn finish_division(&mut self, reg: usize, quotient: u32, remainder: u32, overflow: bool)
        ensures
            *final(self) == old(self).spec_finish_division(reg, quotient, remainder, overflow),
    {
        proof {
            reveal(CpuCore::spec_finish_division);
        }
        self.ccr.c_flag = 0;
        if overflow {
            self.ccr.v_flag = VFLAG_SET;
            return;
        }
        self.set_d(reg, (remainder << 16) | (quotient & 0xFFFF));
        self.set_logic_flags(quotient & 0xFFFF, Size::Word);
    }

    /// DIVU.
    pub fn exec_divu<B: AddressBus>(&mut self, bus: &mut B, mode: AddressingMode, reg: usize) -> (r: i32)
        ensures
            (Machine::of(*final(self), *final(bus)), r) == Machine::of(*old(self), *old(bus)).exec_divu(mode, reg),
    {
        proof {
            reveal(Machine::exec_divu);
        }
        let src: u32 = self.read_ea(bus, mode, Size::Word);
        if self.faulted() {
            return 50;
        }
        if src == 0 {
            return self.take_group2_exception(bus, VECTOR_ZERO_DIVIDE);
        }
        let value: u32 = self.d(reg);
        self.finish_division(reg, value / src, value % src, value / src > 0xFFFF);
        ea_source_cycles(mode, Size::Word).wrapping_add(140)
    }

    /// DIVS: the remainder has the sign of the dividend.
    pub fn exec_divs<B: AddressBus>(&mut self, bus: &mut B, mode: AddressingMode, reg: usize) -> (r: i32)
        ensures
            (Machine::of(*final(self), *final(bus)), r) == Machine::of(*old(self), *old(bus)).exec_divs(mode, reg),
    {
        proof {
            reveal(Machine::exec_divs);
        }
        let src: u32 = self.read_ea(bus, mode, Size::Word);
        if self.faulted() {
            return 50;
        }
        let divisor: u32 = sext16(src as u16);
        if divisor == 0 {
            return self.take_group2_exception(bus, VECTOR_ZERO_DIVIDE);
        }
        let value: u32 = self.d(reg);
        let q: u32 = magnitude(value) / magnitude(divisor);
        let r: u32 = magnitude(value) % magnitude(divisor);
        let negative: bool = (value ^ divisor) & 0x8000_0000 != 0;
        let quotient: u32 = if negative {
            0u32.wrapping_sub(q)
        } else {
            q
        };
        let remainder: u32 = if value & 0x8000_0000 != 0 {
            0u32.wrapping_sub(r)
        } else {
            r
        };
        let overflow: bool = if negative {
            q > 0x8000
        } else {
            q > 0x7FFF
        };
        self.finish_division(reg, quotient, remainder, overflow);
        ea_source_cycles(mode, Size::Word).wrapping_add(158)
    }

    /// Store one register of a MOVEM list; gives the next address. Going
    /// down, the address moves before the store.
    pub fn movem_store_one<B: AddressBus>(&mut self, bus: &mut B, size: Size, register: usize, address: u32, reverse: bool) -> (r: u32)
        requires
            register < 16,
        ensures
            (Machine::of(*final(self), *final(bus)), r) == Machine::of(*old(self), *old(bus)).movem_store_one(size, register, address, reverse),
    {
        proof {
            reveal(Machine::movem_store_one);
        }
        let at: u32 = if reverse {
            address.wrapping_sub(size.bytes())
        } else {
            address
        };
        self.write_sized(bus, at, size, self.dar[register]);
        if reverse {
            at
        } else {
            at.wrapping_add(size.bytes())
        }
    }

    /// Load one register of a MOVEM list, sign-extended; gives the next
    /// address.
    pub fn movem_load_one<B: AddressBus>(&mut self, bus: &mut B, size: Size, register: usize, address: u32) -> (r: u32)
        requires
            register < 16,
        ensures
            (Machine::of(*final(self), *final(bus)), r) == Machine::of(*old(self), *old(bus)).movem_load_one(size, register, address),
    {
        proof {
            reveal(Machine::movem_load_one);
        }
        let value: u32 = self.read_sized(bus, address, size);
        if !self.faulted() {
            self.dar[register] = sign_extend(size, value);
        }
        address.wrapping_add(size.bytes())
    }

    /// Store the registers of a MOVEM list; gives the address after them.
    pub fn movem_store_all<B: AddressBus>(
        &mut self,
        bus: &mut B,
        size: Size,
        mask: u16,
        address: u32,
        reverse: bool,
    ) -> (r: u32)
        ensures
            (Machine::of(*final(self), *final(bus)), r) == Machine::of(*old(self), *old(bus)).movem_store_all(
                size,
                mask,
                address,
                reverse,
            ),
    {
        let mut at: u32 = address;
        let mut i: u32 = 0;
        while i < 16
            invariant
                i <= 16,
                (Machine::of(*self, *bus), at) == Machine::of(*old(self), *old(bus)).movem_store(
                    size,
                    mask,
                    address,
                    reverse,
                    i as nat,
                ),
            decreases 16 - i,
        {
            if mask & (1u16 << (i as u16)) != 0 {
                at = self.movem_store_one(bus, size, movem_register(i, reverse), at, reverse);
            }
            i = i + 1;
        }
        at
    }

    /// Load the registers of a MOVEM list; gives the address after them.
    pub fn movem_load_all<B: AddressBus>(
        &mut self,
        bus: &mut B,
        size: Size,
        mask: u16,
        address: u32,
    ) -> (r: u32)
        ensures
            (Machine::of(*final(self), *final(bus)), r) == Machine::of(*old(self), *old(bus)).movem_load_all(
                size,
                mask,
                address,
            ),
    {
        let mut at: u32 = address;
        let mut i: u32 = 0;
        while i < 16
            invariant
                i <= 16,
                (Machine::of(*self, *bus), at) == Machine::of(*old(self), *old(bus)).movem_load(
                    size,
                    mask,
                    address,
                    i as nat,
                ),
            decreases 16 - i,
        {
            if mask & (1u16 << (i as u16)) != 0 {
                at = self.movem_load_one(bus, size, i as usize, at);
            }
            i = i + 1;
        }
        at
    }

    /// Clocks of MOVEM.
    pub open spec fn spec_movem_cycles(&self, base: i32, size: Size, mode: AddressingMode, count: u32) -> i32 {
        let each: i32 = if size == Size::Long {
            8
        } else {
            4
        };
        base.wrapping_add(ea_calc_cycles(mode)).wrapping_add((count as i32).wrapping_mul(each))
    }

    /// Clocks of MOVEM.
    #[verifier::when_used_as_spec(spec_movem_cycles)]
    pub fn movem_cycles(&self, base: i32, size: Size, mode: AddressingMode, count: u32) -> (r: i32)
        requires
            count <= 16,
        ensures
            r == self.spec_movem_cycles(base, size, mode, count),
    {
        let each: i32 = if size == Size::Long {
            8
        } else {
            4
        };
        base.wrapping_add(ea_calc_cycles(mode)).wrapping_add((count as i32).wrapping_mul(each))
    }

    /// MOVEM registers to memory.
    pub fn exec_movem_to_mem<B: AddressBus>(&mut self, bus: &mut B, size: Size, mode: AddressingMode, mask: u16) -> (r: i32)
        ensures
            (Machine::of(*final(self), *final(bus)), r) == Machine::of(*old(self), *old(bus)).exec_movem_to_mem(size, mode, mask),
    {
        proof {
            reveal(Machine::exec_movem_to_mem);
        }
        match mode {
            AddressingMode::PreDecrement(reg) => {
                let start: u32 = self.a(reg as usize);
                let end: u32 = self.movem_store_all(bus, size, mask, start, true);
                self.set_a(reg as usize, end);
            },
            _ => {
                let start: u32 = self.get_ea_address(bus, mode, size);
                self.movem_store_all(bus, size, mask, start, false);
            },
        }
        let count: u32 = movem_count(mask);
        self.movem_cycles(8, size, mode, count)
    }

    /// MOVEM memory to registers. A postincrement register ends up after the
    /// list even if it was loaded.
    pub fn exec_movem_to_reg<B: AddressBus>(&mut self, bus: &mut B, size: Size, mode: AddressingMode, mask: u16) -> (r: i32)
        ensures
            (Machine::of(*final(self), *final(bus)), r) == Machine::of(*old(self), *old(bus)).exec_movem_to_reg(size, mode, mask),
    {
        proof {
            reveal(Machine::exec_movem_to_reg);
        }
        match mode {
            AddressingMode::PostIncrement(reg) => {
                let start: u32 = self.a(reg as usize);
                let end: u32 = self.movem_load_all(bus, size, mask, start);
                self.set_a(reg as usize, end);
            },
            _ => {
                let start: u32 = self.get_ea_address(bus, mode, size);
                self.movem_load_all(bus, size, mask, start);
            },
        }
        let count: u32 = movem_count(mask);
        self.movem_cycles(12, size, mode, count)
    }
}

impl Machine {
    /// All registers of a list are stored.
    pub open spec fn movem_store_all(self, size: Size, mask: u16, address: u32, reverse: bool) -> (
        Machine,
        u32,
    ) {
        self.movem_store(size, mask, address, reverse, 16)
    }

    /// All registers of a list are loaded.
    pub open spec fn movem_load_all(self, size: Size, mask: u16, address: u32) -> (Machine, u32) {
        self.movem_load(size, mask, address, 16)
    }
}

} // verus!
