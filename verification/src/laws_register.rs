//! Laws of the register instructions: what an opcode does to the registers
//! and the condition codes.

use vstd::prelude::*;
use crate::cpu::CpuCore;
use crate::laws_arith::{fits_signed, modulus, signed};
use crate::laws_fast::{law_simple_op_is_dispatch, quiet};
use crate::laws_parts::{
    binary_result, compares_with_zero, difference_flags, lemma_binary_meaning,
    lemma_compares_with_zero, lemma_complement, lemma_difference, lemma_extended_frame,
    lemma_extended_operand, lemma_fits, lemma_halves_swapped, lemma_logical, lemma_low,
    lemma_one_bit, lemma_parts, lemma_signed_order, lemma_sum, lemma_wrap, lemma_written,
    logical_flags, low, operand_size, quick, register_number, replaces, sum_flags,
};
use crate::laws_shift::{bit, is_shift};
use crate::machine::Machine;
use crate::op_cache::{decode_simple, AddrOp, UnaryOp};
use crate::types::{is_pre_68020, Size};

verus! {

/// The instruction completed, the operand part of register `r` is `result`,
/// and nothing else changed but the condition codes.
pub open spec fn computes(m: Machine, opcode: u16, r: int, size: Size, result: int) -> bool {
    let after = m.dispatch_instruction(opcode).0;
    &&& m.dispatch_instruction(opcode).1 is Completed
    &&& after.bus == m.bus
    &&& after.cpu == (CpuCore { dar: after.cpu.dar, ccr: after.cpu.ccr, ..m.cpu })
    &&& replaces(m.cpu, after.cpu, r, size, result)
}

/// The instruction completed, and nothing changed but the condition codes.
pub open spec fn only_tests(m: Machine, opcode: u16) -> bool {
    let after = m.dispatch_instruction(opcode).0;
    &&& m.dispatch_instruction(opcode).1 is Completed
    &&& after == m.on_cpu(CpuCore { ccr: after.cpu.ccr, ..m.cpu })
}

/// A shift instruction writes what the shift gives.
#[verifier::spinoff_prover]
proof fn lemma_shifted(m: Machine, opcode: u16, count: u32)
    requires
        quiet(m),
        (opcode >> 12) & 0xF == 0xE,
        (opcode >> 6) & 3 != 3,
        count == (if opcode & 0x20 != 0 {
            m.cpu.dar[((opcode >> 9) & 7) as int] & 63
        } else {
            quick((opcode >> 9) & 7)
        }),
    ensures
        ({
            let size = operand_size((opcode >> 6) & 3);
            let r = (opcode & 7) as usize;
            let value = low(size, m.cpu.dar[r as int]);
            let (c, out) = m.cpu.spec_exec_shift((opcode >> 3) & 3, (opcode >> 8) & 1, size, count, value);
            &&& m.dispatch_instruction(opcode).1 is Completed
            &&& m.dispatch_instruction(opcode).0 == m.on_cpu(c.spec_write_data_reg(r, size, out.0))
        }),
{
    crate::bits::lemma_fields(opcode);
    crate::laws_fast::lemma_size_forms(opcode);
    crate::laws_fast::lemma_group_4_forms(opcode);
    let op = decode_simple(m.cpu.model.cpu_type, opcode)->0;
    law_simple_op_is_dispatch(m, opcode, op);
    reveal(CpuCore::spec_exec_simple);
    reveal(CpuCore::spec_exec_simple_shift);
    lemma_low(m.cpu.dar[(opcode & 7) as int], 0, operand_size((opcode >> 6) & 3));
    crate::bits::lemma_reg((opcode & 7) as usize);
    crate::bits::lemma_reg(((opcode >> 9) & 7) as usize);
}

/// Of the processor after it, a shift only speaks of the condition codes.
proof fn lemma_shift_codes(
    before: CpuCore,
    after: CpuCore,
    other: CpuCore,
    kind: int,
    left: bool,
    size: Size,
    count: int,
    value: u32,
    result: u32,
)
    requires
        is_shift(before, after, kind, left, size, count, value, result),
        other.ccr == after.ccr,
    ensures
        is_shift(before, other, kind, left, size, count, value, result),
{
}

/// A shift or rotate of a data register: the operation, the direction, the
/// size, and a count of 1 to 8 in the opcode or a register's modulo 64.
pub proof fn law_shift_instruction(m: Machine, opcode: u16)
    requires
        quiet(m),
        (opcode >> 12) & 0xF == 0xE,
        (opcode >> 6) & 3 != 3,
    ensures
        ({
            let after = m.dispatch_instruction(opcode).0;
            let size = operand_size((opcode >> 6) & 3);
            let r = (opcode & 7) as int;
            let count = if opcode & 0x20 != 0 {
                m.cpu.dar[((opcode >> 9) & 7) as int] & 63
            } else {
                quick((opcode >> 9) & 7)
            };
            let result = low(size, after.cpu.dar[r]);
            &&& computes(m, opcode, r, size, result as int)
            &&& is_shift(
                m.cpu,
                after.cpu,
                ((opcode >> 3) & 3) as int,
                opcode & 0x100 != 0,
                size,
                count as int,
                low(size, m.cpu.dar[r]),
                result,
            )
        }),
{
    crate::bits::lemma_fields(opcode);
    let size = operand_size((opcode >> 6) & 3);
    let r = (opcode & 7) as usize;
    let count = if opcode & 0x20 != 0 {
        m.cpu.dar[((opcode >> 9) & 7) as int] & 63
    } else {
        quick((opcode >> 9) & 7)
    };
    lemma_shifted(m, opcode, count);
    let value = low(size, m.cpu.dar[r as int]);
    let kind = (opcode >> 3) & 3;
    let direction = (opcode >> 8) & 1;
    let (c, out) = m.cpu.spec_exec_shift(kind, direction, size, count, value);
    lemma_low(m.cpu.dar[r as int], out.0, size);
    lemma_fits(out.0, size);
    crate::laws_shift::law_shifts_move_bits(m.cpu, kind, direction, size, count, value);
    crate::laws_shift::lemma_shift_frame(m.cpu, kind, direction, size, count, value);
    lemma_written(c, opcode & 7, size, out.0);
    let after = c.spec_write_data_reg(r, size, out.0);
    lemma_shift_codes(m.cpu, c, after, kind as int, direction == 1, size, count as int, value, out.0);
}

/// What a decoded register instruction does, the dispatcher does.
proof fn lemma_dispatched(m: Machine, opcode: u16)
    requires
        quiet(m),
        decode_simple(m.cpu.model.cpu_type, opcode) is Some,
        (opcode >> 12) & 0xF != 4,
    ensures
        m.dispatch_instruction(opcode).1 is Completed,
        m.dispatch_instruction(opcode).0 == m.on_cpu(
            m.cpu.spec_exec_simple(decode_simple(m.cpu.model.cpu_type, opcode)->0).0,
        ),
{
    crate::laws_fast::lemma_group_4_forms(opcode);
    law_simple_op_is_dispatch(m, opcode, decode_simple(m.cpu.model.cpu_type, opcode)->0);
}

/// MOVEQ puts a signed byte into a data register as a long word.
pub proof fn law_moveq_instruction(m: Machine, opcode: u16)
    requires
        quiet(m),
        (opcode >> 12) & 0xF == 7,
        opcode & 0x100 == 0,
    ensures
        ({
            let after = m.dispatch_instruction(opcode).0;
            let r = ((opcode >> 9) & 7) as int;
            let result = after.cpu.dar[r];
            &&& computes(m, opcode, r, Size::Long, result as int)
            &&& signed(Size::Long, result) == signed(Size::Byte, (opcode & 0xFF) as u32)
            &&& logical_flags(m.cpu, after.cpu, Size::Long, result)
        }),
{
    crate::bits::lemma_fields(opcode);
    lemma_dispatched(m, opcode);
    reveal(CpuCore::spec_exec_simple);
    reveal(CpuCore::spec_set_d);
    let b = (opcode & 0xFF) as u8;
    let data = crate::prefetch::sext8(b);
    lemma_parts(0, 0, b, 0);
    crate::bits::lemma_reg(((opcode >> 9) & 7) as usize);
    let c = CpuCore {
        dar: vstd::array::spec_array_update(m.cpu.dar, ((opcode >> 9) & 7) as int, data),
        ..m.cpu
    };
    lemma_logical(c, Size::Long, data);
}

/// MOVE between registers copies the operand and tells what it is; MOVEA
/// extends a word by its sign and sets no flag.
pub proof fn law_move_instruction(m: Machine, opcode: u16)
    requires
        quiet(m),
        1 <= (opcode >> 12) & 0xF <= 3,
        (opcode >> 6) & 7 <= 1,
        (opcode >> 3) & 7 <= 1,
        (opcode >> 12) & 0xF == 1 ==> (opcode >> 6) & 7 == 0 && (opcode >> 3) & 7 == 0,
    ensures
        ({
            let after = m.dispatch_instruction(opcode).0;
            let size = if (opcode >> 12) & 0xF == 1 {
                Size::Byte
            } else if (opcode >> 12) & 0xF == 3 {
                Size::Word
            } else {
                Size::Long
            };
            let to = register_number((opcode >> 6) & 7, (opcode >> 9) & 7);
            let value = low(size, m.cpu.dar[register_number((opcode >> 3) & 7, opcode & 7)]);
            if (opcode >> 6) & 7 == 0 {
                &&& computes(m, opcode, to, size, value as int)
                &&& logical_flags(m.cpu, after.cpu, size, value)
            } else {
                &&& computes(m, opcode, to, Size::Long, after.cpu.dar[to] as int)
                &&& signed(Size::Long, after.cpu.dar[to]) == signed(size, value)
                &&& after.cpu.ccr == m.cpu.ccr
            }
        }),
{
    crate::bits::lemma_fields(opcode);
    lemma_dispatched(m, opcode);
    reveal(CpuCore::spec_exec_simple);
    reveal(CpuCore::spec_exec_simple_move);
    reveal(CpuCore::spec_set_a);
    let size = if (opcode >> 12) & 0xF == 1 {
        Size::Byte
    } else if (opcode >> 12) & 0xF == 3 {
        Size::Word
    } else {
        Size::Long
    };
    let src = m.cpu.dar[register_number((opcode >> 3) & 7, opcode & 7)];
    crate::bits::lemma_reg((opcode & 7) as usize);
    crate::bits::lemma_reg(((opcode >> 9) & 7) as usize);
    lemma_low(src, low(size, src), size);
    let value = low(size, src);
    lemma_written(m.cpu, (opcode >> 9) & 7, size, value);
    lemma_logical(m.cpu.spec_write_data_reg(((opcode >> 9) & 7) as usize, size, value), size, value);
    lemma_parts(value, 0, 0, value as u16);
}

/// An instruction with one operand applies its operation to the register.
#[verifier::spinoff_prover]
proof fn lemma_unary_dispatched(m: Machine, opcode: u16, op: UnaryOp)
    requires
        quiet(m),
        (opcode >> 12) & 0xF == 4,
        (opcode >> 6) & 3 != 3,
        (opcode >> 3) & 7 == 0,
        ({
            let kind = (opcode >> 8) & 0xF;
            ||| kind == 0x0 && op == UnaryOp::Negx
            ||| kind == 0x2 && op == UnaryOp::Clr
            ||| kind == 0x4 && op == UnaryOp::Neg
            ||| kind == 0x6 && op == UnaryOp::Not
            ||| kind == 0xA && op == UnaryOp::Tst
        }),
    ensures
        ({
            let size = operand_size((opcode >> 6) & 3);
            &&& m.dispatch_instruction(opcode).1 is Completed
            &&& m.dispatch_instruction(opcode).0 == m.on_cpu(m.cpu.spec_exec_simple_unary(op, (opcode & 7) as usize, size).0)
        }),
{
    crate::bits::lemma_fields(opcode);
    crate::laws_fast::lemma_group_4_forms(opcode);
    law_simple_op_is_dispatch(m, opcode, decode_simple(m.cpu.model.cpu_type, opcode)->0);
    reveal(CpuCore::spec_exec_simple);
    crate::bits::lemma_reg((opcode & 7) as usize);
    crate::bits::lemma_reg(((opcode >> 9) & 7) as usize);
}

/// CLR, NEG, NEGX, NOT and TST of a data register.
pub proof fn law_unary_instruction(m: Machine, opcode: u16)
    requires
        quiet(m),
        (opcode >> 12) & 0xF == 4,
        (opcode >> 6) & 3 != 3,
        (opcode >> 3) & 7 == 0,
    ensures
        ({
            let after = m.dispatch_instruction(opcode).0;
            let size = operand_size((opcode >> 6) & 3);
            let r = (opcode & 7) as int;
            let value = low(size, m.cpu.dar[r]);
            let kind = (opcode >> 8) & 0xF;
            let borrow: int = if m.cpu.flag_x() { 1 } else { 0 };
            let result = low(size, after.cpu.dar[r]);
            &&& kind == 0x2 ==> computes(m, opcode, r, size, 0) && logical_flags(m.cpu, after.cpu, size, 0)
            &&& kind == 0x4 ==> {
                &&& computes(m, opcode, r, size, (0 - value) % modulus(size))
                &&& difference_flags(after.cpu, size, value, 0)
                &&& after.cpu.flag_x() == after.cpu.flag_c()
            }
            &&& kind == 0x0 ==> {
                &&& computes(m, opcode, r, size, (0 - value - borrow) % modulus(size))
                &&& after.cpu.flag_c() == (value + borrow > 0)
                &&& after.cpu.flag_x() == after.cpu.flag_c()
                &&& after.cpu.flag_z() == (m.cpu.flag_z() && result == 0)
            }
            &&& kind == 0x6 ==> {
                &&& computes(m, opcode, r, size, modulus(size) - 1 - value)
                &&& logical_flags(m.cpu, after.cpu, size, result)
            }
            &&& kind == 0xA ==> only_tests(m, opcode) && logical_flags(m.cpu, after.cpu, size, value)
        }),
{
    crate::bits::lemma_fields(opcode);
    let size = operand_size((opcode >> 6) & 3);
    let reg = opcode & 7;
    let r = reg as int;
    let kind = (opcode >> 8) & 0xF;
    if kind == 0 || kind == 2 || kind == 4 || kind == 6 || kind == 0xA {
        let op = if kind == 0 {
            UnaryOp::Negx
        } else if kind == 2 {
            UnaryOp::Clr
        } else if kind == 4 {
            UnaryOp::Neg
        } else if kind == 6 {
            UnaryOp::Not
        } else {
            UnaryOp::Tst
        };
        lemma_unary_dispatched(m, opcode, op);
        reveal(CpuCore::spec_exec_simple_unary);
        crate::bits::lemma_reg(reg as usize);
        let value = low(size, m.cpu.dar[r]);
        lemma_low(m.cpu.dar[r], 0, size);
        if kind == 2 {
            lemma_written(m.cpu, reg, size, 0);
            lemma_logical(m.cpu.spec_write_data_reg(reg as usize, size, 0), size, 0);
        } else if kind == 4 {
            let result = 0u32.wrapping_sub(value);
            lemma_written(m.cpu, reg, size, result);
            let c = m.cpu.spec_write_data_reg(reg as usize, size, result);
            lemma_difference(c, size, value, 0);
        } else if kind == 0 {
            crate::laws_arith::law_extended_subtraction(m.cpu, size, value, 0);
            let (c, result) = m.cpu.spec_exec_subx(size, value, 0);
            lemma_extended_frame(m.cpu, size, value, 0);
            lemma_written(c, reg, size, result);
            lemma_fits(result, size);
        } else if kind == 6 {
            let result = !value & size.mask();
            lemma_complement(value);
            lemma_written(m.cpu, reg, size, result);
            lemma_logical(m.cpu.spec_write_data_reg(reg as usize, size, result), size, result);
            lemma_fits(result, size);
        } else {
            lemma_logical(m.cpu, size, value);
        }
    }
}

/// SWAP exchanges the halves of a data register; EXT.W and EXT.L extend a byte
/// and a word by its sign, and EXTB.L a byte to a long word.
pub proof fn law_swap_and_extend_instructions(m: Machine, opcode: u16)
    requires
        quiet(m),
    ensures
        ({
            let after = m.dispatch_instruction(opcode).0;
            let r = (opcode & 7) as int;
            let v = m.cpu.dar[r];
            let result = after.cpu.dar[r];
            &&& opcode & 0xFFF8 == 0x4840 ==> {
                &&& computes(m, opcode, r, Size::Long, (v % 0x1_0000) * 0x1_0000 + v / 0x1_0000)
                &&& logical_flags(m.cpu, after.cpu, Size::Long, result)
            }
            &&& opcode & 0xFFF8 == 0x4880 ==> {
                &&& computes(m, opcode, r, Size::Word, (result % 0x1_0000) as int)
                &&& signed(Size::Word, result % 0x1_0000) == signed(Size::Byte, v % 0x100)
                &&& logical_flags(m.cpu, after.cpu, Size::Word, result % 0x1_0000)
            }
            &&& opcode & 0xFFF8 == 0x48C0 ==> {
                &&& computes(m, opcode, r, Size::Long, result as int)
                &&& signed(Size::Long, result) == signed(Size::Word, v % 0x1_0000)
                &&& logical_flags(m.cpu, after.cpu, Size::Long, result)
            }
            &&& opcode & 0xFFF8 == 0x49C0 && !is_pre_68020(m.cpu.model.cpu_type) ==> {
                &&& computes(m, opcode, r, Size::Long, result as int)
                &&& signed(Size::Long, result) == signed(Size::Byte, v % 0x100)
                &&& logical_flags(m.cpu, after.cpu, Size::Long, result)
            }
        }),
{
    crate::bits::lemma_fields(opcode);
    crate::laws_fast::lemma_group_4_forms(opcode);
    let form = opcode & 0xFFF8;
    if form == 0x4840 || form == 0x4880 || form == 0x48C0 || form == 0x49C0 && !is_pre_68020(
        m.cpu.model.cpu_type,
    ) {
        law_simple_op_is_dispatch(m, opcode, decode_simple(m.cpu.model.cpu_type, opcode)->0);
        reveal(CpuCore::spec_exec_simple);
        reveal(CpuCore::spec_exec_swap);
        reveal(CpuCore::spec_exec_ext);
        reveal(CpuCore::spec_exec_extb);
        reveal(CpuCore::spec_set_d);
        let reg = opcode & 7;
        crate::bits::lemma_reg(reg as usize);
        let v = m.cpu.dar[reg as int];
        let b = v as u8;
        let w = v as u16;
        lemma_parts(v, 0, b, w);
        let data = if form == 0x4840 {
            (v >> 16) | (v << 16)
        } else if form == 0x4880 {
            crate::prefetch::sext8(b) & 0xFFFF
        } else if form == 0x48C0 {
            crate::prefetch::sext16(w)
        } else {
            crate::prefetch::sext8(b)
        };
        let size = if form == 0x4880 { Size::Word } else { Size::Long };
        lemma_parts(crate::prefetch::sext8(b), 0, b, w);
        lemma_halves_swapped(v);
        lemma_written(m.cpu, reg, size, data);
        lemma_logical(m.cpu.spec_write_data_reg(reg as usize, size, data), size, data);
        lemma_logical(m.cpu.spec_set_d(reg as usize, data), size, data);
        lemma_fits(data, size);
    }
}

/// A quick instruction adds to a register, or subtracts from it.
#[verifier::spinoff_prover]
proof fn lemma_quick_dispatched(m: Machine, opcode: u16)
    requires
        quiet(m),
        (opcode >> 12) & 0xF == 5,
        (opcode >> 6) & 3 != 3,
        (opcode >> 3) & 7 <= 1,
        (opcode >> 3) & 7 == 1 ==> (opcode >> 6) & 3 != 0,
    ensures
        ({
            let n = quick((opcode >> 9) & 7);
            let reg = (opcode & 7) as usize;
            let old_value = m.cpu.dar[8 + reg as int];
            let down = opcode & 0x100 != 0;
            &&& m.dispatch_instruction(opcode).1 is Completed
            &&& m.dispatch_instruction(opcode).0 == m.on_cpu(
                if (opcode >> 3) & 7 == 1 {
                    m.cpu.spec_set_a(reg, if down { old_value.wrapping_sub(n) } else { old_value.wrapping_add(n) })
                } else {
                    m.cpu.spec_exec_simple_quick(reg, n, operand_size((opcode >> 6) & 3), down).0
                },
            )
        }),
{
    crate::bits::lemma_fields(opcode);
    lemma_dispatched(m, opcode);
    reveal(CpuCore::spec_exec_simple);
    crate::bits::lemma_reg((opcode & 7) as usize);
}

/// ADDQ and SUBQ add and subtract 1 to 8: on a data register with the flags of
/// the operation, on an address register as a long word and without.
pub proof fn law_quick_instruction(m: Machine, opcode: u16)
    requires
        quiet(m),
        (opcode >> 12) & 0xF == 5,
        (opcode >> 6) & 3 != 3,
        (opcode >> 3) & 7 <= 1,
        (opcode >> 3) & 7 == 1 ==> (opcode >> 6) & 3 != 0,
    ensures
        ({
            let after = m.dispatch_instruction(opcode).0;
            let n = quick((opcode >> 9) & 7);
            let r = register_number((opcode >> 3) & 7, opcode & 7);
            let size = operand_size((opcode >> 6) & 3);
            let d = low(size, m.cpu.dar[r]);
            let down = opcode & 0x100 != 0;
            if (opcode >> 3) & 7 == 1 {
                &&& computes(
                    m,
                    opcode,
                    r,
                    Size::Long,
                    (if down { m.cpu.dar[r] - n } else { m.cpu.dar[r] + n }) % 0x1_0000_0000,
                )
                &&& after.cpu.ccr == m.cpu.ccr
            } else {
                &&& computes(m, opcode, r, size, (if down { d - n } else { d + n }) % modulus(size))
                &&& if down { difference_flags(after.cpu, size, n, d) } else { sum_flags(after.cpu, size, n, d) }
                &&& after.cpu.flag_x() == after.cpu.flag_c()
            }
        }),
{
    crate::bits::lemma_fields(opcode);
    lemma_quick_dispatched(m, opcode);
    reveal(CpuCore::spec_exec_simple_quick);
    reveal(CpuCore::spec_set_a);
    let reg = opcode & 7;
    crate::bits::lemma_reg(reg as usize);
    let n = quick((opcode >> 9) & 7);
    lemma_wrap(m.cpu.dar[8 + reg as int], n);
    if (opcode >> 3) & 7 == 0 {
        let size = operand_size((opcode >> 6) & 3);
        let d = low(size, m.cpu.dar[reg as int]);
        lemma_low(m.cpu.dar[reg as int], 0, size);
        lemma_sum(m.cpu, size, n, d);
        lemma_difference(m.cpu, size, n, d);
        lemma_written(m.cpu.spec_set_add_flags(n, d, d.wrapping_add(n), size), reg, size, d.wrapping_add(n));
        lemma_written(m.cpu.spec_set_sub_flags(n, d, d.wrapping_sub(n), size), reg, size, d.wrapping_sub(n));
    }
}

/// OR, SUB, CMP, AND and ADD of a register into a data register, and EOR of a
/// data register into another.
pub proof fn law_binary_instruction(m: Machine, opcode: u16)
    requires
        quiet(m),
        ({
            let group = (opcode >> 12) & 0xF;
            group == 0x8 || group == 0x9 || group == 0xB || group == 0xC || group == 0xD
        }),
        (opcode >> 6) & 7 <= 2 || (opcode >> 12) & 0xF == 0xB && 4 <= (opcode >> 6) & 7 <= 6 && (opcode >> 3)
            & 7 == 0,
        (opcode >> 3) & 7 <= 1,
        (opcode >> 3) & 7 == 1 ==> (opcode >> 6) & 3 != 0 && (opcode >> 12) & 0xF != 0x8 && (opcode
            >> 12) & 0xF != 0xC,
    ensures
        ({
            let after = m.dispatch_instruction(opcode).0;
            let group = (opcode >> 12) & 0xF;
            let exclusive = group == 0xB && (opcode >> 6) & 7 >= 4;
            let size = operand_size((opcode >> 6) & 3);
            let x = ((opcode >> 9) & 7) as int;
            let y = register_number((opcode >> 3) & 7, opcode & 7);
            let to = if exclusive { y } else { x };
            let s = low(size, m.cpu.dar[if exclusive { x } else { y }]);
            let d = low(size, m.cpu.dar[to]);
            let result = binary_result(group, size, s, d);
            if group == 0xB && !exclusive {
                &&& only_tests(m, opcode)
                &&& difference_flags(after.cpu, size, s, d)
                &&& after.cpu.flag_x() == m.cpu.flag_x()
            } else {
                &&& computes(m, opcode, to, size, result)
                &&& group == 0x9 ==> difference_flags(after.cpu, size, s, d) && after.cpu.flag_x()
                    == after.cpu.flag_c()
                &&& group == 0xD ==> sum_flags(after.cpu, size, s, d) && after.cpu.flag_x()
                    == after.cpu.flag_c()
                &&& group != 0x9 && group != 0xD ==> logical_flags(m.cpu, after.cpu, size, result as u32)
            }
        }),
{
    crate::bits::lemma_fields(opcode);
    crate::laws_fast::lemma_size_forms(opcode);
    lemma_dispatched(m, opcode);
    reveal(CpuCore::spec_exec_simple);
    let group = (opcode >> 12) & 0xF;
    let exclusive = group == 0xB && (opcode >> 6) & 7 >= 4;
    let size = operand_size((opcode >> 6) & 3);
    let xr = (opcode >> 9) & 7;
    let yr = opcode & 7;
    crate::bits::lemma_reg(xr as usize);
    crate::bits::lemma_reg(yr as usize);
    let y = m.cpu.dar[register_number((opcode >> 3) & 7, yr)];
    let s = low(size, if exclusive { m.cpu.dar[xr as int] } else { y });
    let to = if exclusive { yr } else { xr };
    let d = low(size, m.cpu.dar[to as int]);
    lemma_low(m.cpu.dar[xr as int], 0, size);
    lemma_low(y, 0, size);
    lemma_binary_meaning(m.cpu, group, exclusive, size, s, d, to);
}

/// ADDA, SUBA and CMPA apply their operation to an address register.
#[verifier::spinoff_prover]
proof fn lemma_address_dispatched(m: Machine, opcode: u16, op: AddrOp)
    requires
        quiet(m),
        ({
            let group = (opcode >> 12) & 0xF;
            ||| group == 0x9 && op == AddrOp::Suba
            ||| group == 0xB && op == AddrOp::Compare
            ||| group == 0xD && op == AddrOp::Adda
        }),
        (opcode >> 6) & 7 == 3 || (opcode >> 6) & 7 == 7,
        (opcode >> 3) & 7 <= 1,
    ensures
        ({
            let size = if (opcode >> 6) & 7 == 3 { Size::Word } else { Size::Long };
            let s = m.cpu.dar[register_number((opcode >> 3) & 7, opcode & 7)] & size.mask();
            &&& m.dispatch_instruction(opcode).1 is Completed
            &&& m.dispatch_instruction(opcode).0 == m.on_cpu(m.cpu.spec_apply_addr_op(op, size, s, ((opcode >> 9) & 7) as usize).0)
        }),
{
    crate::bits::lemma_fields(opcode);
    lemma_dispatched(m, opcode);
    reveal(CpuCore::spec_exec_simple);
    crate::bits::lemma_reg((opcode & 7) as usize);
    crate::bits::lemma_reg(((opcode >> 9) & 7) as usize);
}

/// ADDA, SUBA and CMPA work on the whole address register; a word operand is
/// extended by its sign, and only CMPA sets flags.
pub proof fn law_address_instruction(m: Machine, opcode: u16)
    requires
        quiet(m),
        ({
            let group = (opcode >> 12) & 0xF;
            group == 0x9 || group == 0xB || group == 0xD
        }),
        (opcode >> 6) & 7 == 3 || (opcode >> 6) & 7 == 7,
        (opcode >> 3) & 7 <= 1,
    ensures
        ({
            let after = m.dispatch_instruction(opcode).0;
            let group = (opcode >> 12) & 0xF;
            let size = if (opcode >> 6) & 7 == 3 { Size::Word } else { Size::Long };
            let to = 8 + ((opcode >> 9) & 7);
            let s = signed(size, low(size, m.cpu.dar[register_number((opcode >> 3) & 7, opcode & 7)]));
            let d = m.cpu.dar[to];
            if group == 0xB {
                &&& only_tests(m, opcode)
                &&& difference_flags(after.cpu, Size::Long, (s % 0x1_0000_0000) as u32, d)
                &&& after.cpu.flag_x() == m.cpu.flag_x()
            } else {
                &&& computes(
                    m,
                    opcode,
                    to,
                    Size::Long,
                    (if group == 0x9 { d - s } else { d + s }) % 0x1_0000_0000,
                )
                &&& after.cpu.ccr == m.cpu.ccr
            }
        }),
{
    crate::bits::lemma_fields(opcode);
    let group = (opcode >> 12) & 0xF;
    let op = if group == 0x9 {
        AddrOp::Suba
    } else if group == 0xB {
        AddrOp::Compare
    } else {
        AddrOp::Adda
    };
    lemma_address_dispatched(m, opcode, op);
    reveal(CpuCore::spec_apply_addr_op);
    reveal(CpuCore::spec_set_a);
    let size = if (opcode >> 6) & 7 == 3 { Size::Word } else { Size::Long };
    let xr = (opcode >> 9) & 7;
    let yr = opcode & 7;
    crate::bits::lemma_reg(xr as usize);
    crate::bits::lemma_reg(yr as usize);
    let y = m.cpu.dar[register_number((opcode >> 3) & 7, yr)];
    lemma_low(y, 0, size);
    let v = low(size, y);
    lemma_parts(v, 0, 0, v as u16);
    let wide = if size == Size::Word { crate::alu::sign_extend(size, v) } else { v };
    let s = signed(size, v);
    lemma_extended_operand(size, v, m.cpu.dar[8 + xr as int]);
    lemma_difference(m.cpu, Size::Long, wide, m.cpu.dar[8 + xr as int]);
}

/// ADDX and SUBX add to a register, or subtract from it.
#[verifier::spinoff_prover]
proof fn lemma_extended_dispatched(m: Machine, opcode: u16)
    requires
        quiet(m),
        (opcode >> 12) & 0xF == 0x9 || (opcode >> 12) & 0xF == 0xD,
        4 <= (opcode >> 6) & 7 <= 6,
        (opcode >> 3) & 7 == 0,
    ensures
        ({
            let size = operand_size((opcode >> 6) & 3);
            let down = (opcode >> 12) & 0xF == 0x9;
            &&& m.dispatch_instruction(opcode).1 is Completed
            &&& m.dispatch_instruction(opcode).0 == m.on_cpu(
                m.cpu.spec_exec_simple_extended((opcode & 7) as usize, ((opcode >> 9) & 7) as usize, size, down).0,
            )
        }),
{
    crate::bits::lemma_fields(opcode);
    crate::laws_fast::lemma_size_forms(opcode);
    lemma_dispatched(m, opcode);
    reveal(CpuCore::spec_exec_simple);
    crate::bits::lemma_reg((opcode & 7) as usize);
    crate::bits::lemma_reg(((opcode >> 9) & 7) as usize);
}

/// ADDX and SUBX of data registers add and subtract with the extend bit, and
/// Z stays set only while every part was zero.
pub proof fn law_extended_instruction(m: Machine, opcode: u16)
    requires
        quiet(m),
        (opcode >> 12) & 0xF == 0x9 || (opcode >> 12) & 0xF == 0xD,
        4 <= (opcode >> 6) & 7 <= 6,
        (opcode >> 3) & 7 == 0,
    ensures
        ({
            let after = m.dispatch_instruction(opcode).0;
            let size = operand_size((opcode >> 6) & 3);
            let to = ((opcode >> 9) & 7) as int;
            let s = low(size, m.cpu.dar[(opcode & 7) as int]);
            let d = low(size, m.cpu.dar[to]);
            let x: int = if m.cpu.flag_x() { 1 } else { 0 };
            let total = if (opcode >> 12) & 0xF == 0x9 { d - s - x } else { d + s + x };
            &&& computes(m, opcode, to, size, total % modulus(size))
            &&& after.cpu.flag_c() == !(0 <= total < modulus(size))
            &&& after.cpu.flag_x() == after.cpu.flag_c()
            &&& after.cpu.flag_z() == (m.cpu.flag_z() && total % modulus(size) == 0)
        }),
{
    crate::bits::lemma_fields(opcode);
    lemma_extended_dispatched(m, opcode);
    reveal(CpuCore::spec_exec_simple_extended);
    let size = operand_size((opcode >> 6) & 3);
    let xr = (opcode >> 9) & 7;
    let yr = opcode & 7;
    crate::bits::lemma_reg(xr as usize);
    crate::bits::lemma_reg(yr as usize);
    lemma_low(m.cpu.dar[xr as int], 0, size);
    lemma_low(m.cpu.dar[yr as int], 0, size);
    let s = low(size, m.cpu.dar[yr as int]);
    let d = low(size, m.cpu.dar[xr as int]);
    crate::laws_arith::law_extended_addition(m.cpu, size, s, d);
    crate::laws_arith::law_extended_subtraction(m.cpu, size, s, d);
    lemma_extended_frame(m.cpu, size, s, d);
    let (ca, ra) = m.cpu.spec_exec_addx(size, s, d);
    let (cs, rs) = m.cpu.spec_exec_subx(size, s, d);
    lemma_written(ca, xr, size, ra);
    lemma_written(cs, xr, size, rs);
    lemma_fits(ra, size);
    lemma_fits(rs, size);
}

/// BTST, BCHG, BCLR and BSET of a data register: Z tells that the bit was
/// clear, and only that bit changes.
pub proof fn law_bit_instruction(m: Machine, opcode: u16)
    requires
        quiet(m),
        (opcode >> 12) & 0xF == 0,
        opcode & 0x100 != 0,
        (opcode >> 3) & 7 == 0,
    ensures
        ({
            let after = m.dispatch_instruction(opcode).0;
            let r = (opcode & 7) as int;
            let n = (m.cpu.dar[((opcode >> 9) & 7) as int] % 32) as int;
            let v = m.cpu.dar[r];
            let kind = (opcode >> 6) & 3;
            &&& computes(m, opcode, r, Size::Long, after.cpu.dar[r] as int)
            &&& forall|i: int| 0 <= i < 32 ==> (#[trigger] bit(after.cpu.dar[r], i) <==> if i != n || kind == 0 {
                bit(v, i)
            } else if kind == 1 {
                !bit(v, i)
            } else {
                kind == 3
            })
            &&& after.cpu.flag_z() == !bit(v, n)
            &&& after.cpu.flag_n() == m.cpu.flag_n()
            &&& after.cpu.flag_v() == m.cpu.flag_v()
            &&& after.cpu.flag_c() == m.cpu.flag_c()
            &&& after.cpu.flag_x() == m.cpu.flag_x()
        }),
{
    crate::bits::lemma_fields(opcode);
    lemma_dispatched(m, opcode);
    reveal(CpuCore::spec_exec_simple);
    reveal(CpuCore::spec_exec_simple_bit);
    reveal(CpuCore::spec_set_d);
    let xr = (opcode >> 9) & 7;
    let yr = opcode & 7;
    crate::bits::lemma_reg(xr as usize);
    crate::bits::lemma_reg(yr as usize);
    let v = m.cpu.dar[yr as int];
    let number = m.cpu.dar[xr as int];
    lemma_one_bit(v, number, 0);
    assert forall|i: int| 0 <= i < 32 implies (#[trigger] bit(
        m.dispatch_instruction(opcode).0.cpu.dar[yr as int],
        i,
    ) <==> if i != number % 32 || (opcode >> 6) & 3 == 0 {
        bit(v, i)
    } else if (opcode >> 6) & 3 == 1 {
        !bit(v, i)
    } else {
        (opcode >> 6) & 3 == 3
    }) by {
        lemma_one_bit(v, number, i as u32);
    }
}

/// ABCD and SBCD of data registers on decimal operands: two decimal digits,
/// with carry and borrow worth a hundred.
pub proof fn law_decimal_instruction(m: Machine, opcode: u16)
    requires
        quiet(m),
        (opcode >> 12) & 0xF == 0x8 || (opcode >> 12) & 0xF == 0xC,
        (opcode >> 6) & 7 == 4,
        (opcode >> 3) & 7 == 0,
        crate::laws_arith::is_decimal(low(Size::Byte, m.cpu.dar[(opcode & 7) as int])),
        crate::laws_arith::is_decimal(low(Size::Byte, m.cpu.dar[((opcode >> 9) & 7) as int])),
    ensures
        ({
            let after = m.dispatch_instruction(opcode).0;
            let to = ((opcode >> 9) & 7) as int;
            let s = crate::laws_arith::decimal(low(Size::Byte, m.cpu.dar[(opcode & 7) as int]));
            let d = crate::laws_arith::decimal(low(Size::Byte, m.cpu.dar[to]));
            let x: int = if m.cpu.flag_x() { 1 } else { 0 };
            let out: int = if after.cpu.flag_c() { 100 } else { 0 };
            let result = low(Size::Byte, after.cpu.dar[to]);
            &&& computes(m, opcode, to, Size::Byte, result as int)
            &&& crate::laws_arith::is_decimal(result)
            &&& crate::laws_arith::decimal(result) == (if (opcode >> 12) & 0xF == 0x8 {
                d - s - x + out
            } else {
                d + s + x - out
            })
            &&& after.cpu.flag_x() == after.cpu.flag_c()
            &&& after.cpu.flag_z() == (m.cpu.flag_z() && result == 0)
        }),
{
    crate::bits::lemma_fields(opcode);
    lemma_dispatched(m, opcode);
    reveal(CpuCore::spec_exec_simple);
    reveal(CpuCore::spec_exec_abcd_rr);
    reveal(CpuCore::spec_exec_sbcd_rr);
    reveal(CpuCore::spec_exec_abcd);
    reveal(CpuCore::spec_exec_sbcd);
    reveal(CpuCore::spec_set_decimal_flags);
    let xr = (opcode >> 9) & 7;
    let yr = opcode & 7;
    crate::bits::lemma_reg(xr as usize);
    crate::bits::lemma_reg(yr as usize);
    lemma_low(m.cpu.dar[xr as int], 0, Size::Byte);
    lemma_low(m.cpu.dar[yr as int], 0, Size::Byte);
    let s = low(Size::Byte, m.cpu.dar[yr as int]);
    let d = low(Size::Byte, m.cpu.dar[xr as int]);
    let x = m.cpu.extend_bit();
    crate::laws_arith::law_decimal_addition(s, d, x);
    crate::laws_arith::law_decimal_subtraction(s, d, x);
    let sub = (opcode >> 12) & 0xF == 0x8;
    let result = if sub { crate::alu::bcd_sub(s, d, x) } else { crate::alu::bcd_add(s, d, x) };
    let c = m.cpu.spec_set_decimal_flags(result);
    lemma_written(c, xr, Size::Byte, result.0);
    lemma_fits(result.0, Size::Byte);
    crate::laws_arith::lemma_zero_or(m.cpu.ccr.not_z_flag, result.0);
}

/// EXG exchanges two data registers, two address registers, or one of each.
pub proof fn law_exchange_instruction(m: Machine, opcode: u16)
    requires
        quiet(m),
        (opcode >> 12) & 0xF == 0xC,
        (opcode >> 3) & 0x1F == 0x08 || (opcode >> 3) & 0x1F == 0x09 || (opcode >> 3) & 0x1F == 0x11,
        (opcode >> 6) & 7 >= 5,
    ensures
        ({
            let after = m.dispatch_instruction(opcode).0;
            let kind = (opcode >> 3) & 0x1F;
            let x = register_number(if kind == 0x09 { 1 } else { 0 }, (opcode >> 9) & 7);
            let y = register_number(if kind == 0x08 { 0 } else { 1 }, opcode & 7);
            &&& m.dispatch_instruction(opcode).1 is Completed
            &&& after == m.on_cpu(CpuCore { dar: after.cpu.dar, ..m.cpu })
            &&& after.cpu.dar[x] == m.cpu.dar[y]
            &&& after.cpu.dar[y] == m.cpu.dar[x]
            &&& forall|j: int| 0 <= j < 16 && j != x && j != y ==> #[trigger] after.cpu.dar[j] == m.cpu.dar[j]
        }),
{
    crate::bits::lemma_fields(opcode);
    crate::laws_fast::lemma_size_forms(opcode);
    lemma_dispatched(m, opcode);
    reveal(CpuCore::spec_exec_simple);
    reveal(CpuCore::spec_exec_exg);
    reveal(CpuCore::spec_set_d);
    reveal(CpuCore::spec_set_a);
    crate::bits::lemma_reg(((opcode >> 9) & 7) as usize);
    crate::bits::lemma_reg((opcode & 7) as usize);
}

/// Scc sets a byte to all ones or to zero as its condition holds or not, and
/// no flag.
pub proof fn law_set_instruction(m: Machine, opcode: u16)
    requires
        quiet(m),
        (opcode >> 12) & 0xF == 5,
        (opcode >> 6) & 3 == 3,
        (opcode >> 3) & 7 == 0,
    ensures
        ({
            let after = m.dispatch_instruction(opcode).0;
            &&& computes(
                m,
                opcode,
                (opcode & 7) as int,
                Size::Byte,
                if m.cpu.test_condition(((opcode >> 8) & 0xF) as u8) { 0xFF } else { 0 },
            )
            &&& after.cpu.ccr == m.cpu.ccr
        }),
{
    crate::bits::lemma_fields(opcode);
    lemma_dispatched(m, opcode);
    reveal(CpuCore::spec_exec_simple);
    reveal(CpuCore::spec_exec_simple_scc);
    lemma_written(m.cpu, opcode & 7, Size::Byte, 0xFF);
    lemma_written(m.cpu, opcode & 7, Size::Byte, 0);
}

/// A branch with a byte displacement is taken exactly when its condition
/// holds: the displacement counts from the word after the opcode. Otherwise
/// execution goes on there. BRA is always taken.
pub proof fn law_branch_instruction(m: Machine, opcode: u16)
    requires
        quiet(m),
        (opcode >> 12) & 0xF == 6,
        (opcode >> 8) & 0xF != 1,
        opcode & 0xFF != 0,
        opcode & 0xFF != 0xFF,
    ensures
        ({
            let after = m.dispatch_instruction(opcode).0;
            let condition = (opcode >> 8) & 0xF;
            let taken = condition == 0 || m.cpu.test_condition(condition as u8);
            let distance = signed(Size::Byte, (opcode & 0xFF) as u32);
            &&& m.dispatch_instruction(opcode).1 is Completed
            &&& after.bus == m.bus
            &&& after.cpu.dar == m.cpu.dar
            &&& after.cpu.ccr == m.cpu.ccr
            &&& after.cpu.sys == m.cpu.sys
            &&& after.cpu.pc == (if taken { (m.cpu.pc + distance) % 0x1_0000_0000 } else { m.cpu.pc as int })
        }),
{
    crate::bits::lemma_fields(opcode);
    lemma_dispatched(m, opcode);
    reveal(CpuCore::spec_exec_simple);
    reveal(CpuCore::spec_exec_simple_branch);
    let b = (opcode & 0xFF) as u8;
    lemma_parts(0, 0, b, 0);
    lemma_extended_operand(Size::Byte, b as u32, m.cpu.pc);
    lemma_parts(b as u32, 0, b, 0);
    lemma_fits(b as u32, Size::Byte);
}

/// After TST of a data register the conditions compare its operand with zero.
pub proof fn law_test_then_condition(m: Machine, opcode: u16)
    requires
        quiet(m),
        (opcode >> 12) & 0xF == 4,
        (opcode >> 8) & 0xF == 0xA,
        (opcode >> 6) & 3 != 3,
        (opcode >> 3) & 7 == 0,
    ensures
        ({
            let size = operand_size((opcode >> 6) & 3);
            compares_with_zero(
                m.dispatch_instruction(opcode).0.cpu,
                size,
                low(size, m.cpu.dar[(opcode & 7) as int]),
            )
        }),
{
    law_unary_instruction(m, opcode);
    let size = operand_size((opcode >> 6) & 3);
    lemma_low(m.cpu.dar[(opcode & 7) as int], 0, size);
    lemma_compares_with_zero(
        m.cpu,
        m.dispatch_instruction(opcode).0.cpu,
        size,
        low(size, m.cpu.dar[(opcode & 7) as int]),
    );
}

/// After MOVE between data registers the conditions compare the operand with
/// zero, and after MOVEQ the number moved.
pub proof fn law_move_then_condition(m: Machine, opcode: u16)
    requires
        quiet(m),
        1 <= (opcode >> 12) & 0xF <= 3 && (opcode >> 6) & 7 == 0 && (opcode >> 3) & 7 == 0 || (opcode
            >> 12) & 0xF == 7 && opcode & 0x100 == 0,
    ensures
        ({
            let after = m.dispatch_instruction(opcode).0;
            let group = (opcode >> 12) & 0xF;
            let size = if group == 1 {
                Size::Byte
            } else if group == 3 {
                Size::Word
            } else {
                Size::Long
            };
            let moved = low(size, after.cpu.dar[((opcode >> 9) & 7) as int]);
            &&& compares_with_zero(after.cpu, size, moved)
            &&& group == 7 ==> signed(Size::Long, moved) == signed(Size::Byte, (opcode & 0xFF) as u32)
            &&& group != 7 ==> moved == low(size, m.cpu.dar[(opcode & 7) as int])
        }),
{
    let after = m.dispatch_instruction(opcode).0;
    let group = (opcode >> 12) & 0xF;
    let size = if group == 1 {
        Size::Byte
    } else if group == 3 {
        Size::Word
    } else {
        Size::Long
    };
    if group == 7 {
        law_moveq_instruction(m, opcode);
    } else {
        law_move_instruction(m, opcode);
    }
    lemma_low(after.cpu.dar[((opcode >> 9) & 7) as int], 0, size);
    lemma_compares_with_zero(m.cpu, after.cpu, size, low(size, after.cpu.dar[((opcode >> 9) & 7) as int]));
}

/// After ADD, SUB and CMP of registers VC and VS tell whether the signed
/// result fits, CC and CS whether the unsigned one does, NE and EQ whether it
/// is zero, and PL and MI its sign. After SUB and CMP the other conditions
/// compare the operands.
pub proof fn law_arithmetic_then_condition(m: Machine, opcode: u16)
    requires
        quiet(m),
        (opcode >> 12) & 0xF == 0x9 || (opcode >> 12) & 0xF == 0xB || (opcode >> 12) & 0xF == 0xD,
        (opcode >> 6) & 7 <= 2,
        (opcode >> 3) & 7 <= 1,
        (opcode >> 3) & 7 == 1 ==> (opcode >> 6) & 3 != 0,
    ensures
        ({
            let c = m.dispatch_instruction(opcode).0.cpu;
            let size = operand_size((opcode >> 6) & 3);
            let s = low(size, m.cpu.dar[register_number((opcode >> 3) & 7, opcode & 7)]);
            let d = low(size, m.cpu.dar[((opcode >> 9) & 7) as int]);
            let adds = (opcode >> 12) & 0xF == 0xD;
            let plain = if adds { d + s } else { d - s };
            let fits = fits_signed(
                size,
                if adds { signed(size, d) + signed(size, s) } else { signed(size, d) - signed(size, s) },
            );
            let result = (plain % modulus(size)) as u32;
            &&& c.test_condition(0x0)
            &&& !c.test_condition(0x1)
            &&& c.test_condition(0x4) == (0 <= plain < modulus(size))
            &&& c.test_condition(0x5) == !(0 <= plain < modulus(size))
            &&& c.test_condition(0x6) == (result != 0)
            &&& c.test_condition(0x7) == (result == 0)
            &&& c.test_condition(0x8) == fits
            &&& c.test_condition(0x9) == !fits
            &&& c.test_condition(0xA) == (signed(size, result) >= 0)
            &&& c.test_condition(0xB) == (signed(size, result) < 0)
            &&& !adds ==> {
                &&& c.test_condition(0x2) == (d > s)
                &&& c.test_condition(0x3) == (d <= s)
                &&& c.test_condition(0xC) == (signed(size, d) >= signed(size, s))
                &&& c.test_condition(0xD) == (signed(size, d) < signed(size, s))
                &&& c.test_condition(0xE) == (signed(size, d) > signed(size, s))
                &&& c.test_condition(0xF) == (signed(size, d) <= signed(size, s))
            }
        }),
{
    law_binary_instruction(m, opcode);
    crate::laws_arith::lemma_condition_codes();
    crate::laws_fast::lemma_size_forms(opcode);
    crate::bits::lemma_fields(opcode);
    let size = operand_size((opcode >> 6) & 3);
    let s = low(size, m.cpu.dar[register_number((opcode >> 3) & 7, opcode & 7)]);
    let d = low(size, m.cpu.dar[((opcode >> 9) & 7) as int]);
    lemma_low(m.cpu.dar[register_number((opcode >> 3) & 7, opcode & 7)], 0, size);
    lemma_low(m.cpu.dar[((opcode >> 9) & 7) as int], 0, size);
    if (opcode >> 12) & 0xF != 0xD {
        lemma_signed_order(size, s, d);
    }
}

} // verus!
