//! The parts of registers, and what the condition codes say of results.

use vstd::prelude::*;
use crate::cpu::CpuCore;
use crate::laws_arith::{fits_signed, modulus, signed};
use crate::laws_shift::tells_result;
use crate::op_cache::BinaryOp;
use crate::types::Size;

verus! {

/// The operand part of a register.
pub open spec fn low(size: Size, v: u32) -> u32 {
    match size {
        Size::Byte => v % 0x100,
        Size::Word => v % 0x1_0000,
        Size::Long => v,
    }
}

/// The part of a register above the operand.
pub open spec fn high(size: Size, v: u32) -> u32 {
    match size {
        Size::Byte => v / 0x100,
        Size::Word => v / 0x1_0000,
        Size::Long => 0,
    }
}

/// The operand size of a two-bit size field.
pub open spec fn operand_size(field: u16) -> Size {
    if field == 0 {
        Size::Byte
    } else if field == 1 {
        Size::Word
    } else {
        Size::Long
    }
}

/// The number that an immediate field of three bits stands for.
pub open spec fn quick(field: u16) -> u32 {
    if field == 0 {
        8
    } else {
        field as u32
    }
}

/// The register of a mode and register field: data registers are registers 0
/// to 7, address registers 8 to 15.
pub open spec fn register_number(mode: u16, field: u16) -> int {
    if mode == 0 {
        field as int
    } else {
        8 + field
    }
}

/// The operand part of register `r` became `result`, and no other register
/// changed.
pub open spec fn replaces(before: CpuCore, after: CpuCore, r: int, size: Size, result: int) -> bool {
    &&& low(size, after.dar[r]) == result
    &&& high(size, after.dar[r]) == high(size, before.dar[r])
    &&& forall|j: int| 0 <= j < 16 && j != r ==> #[trigger] after.dar[j] == before.dar[j]
}

/// The condition codes of a moved or logical result.
pub open spec fn logical_flags(before: CpuCore, after: CpuCore, size: Size, result: u32) -> bool {
    &&& tells_result(after, size, result)
    &&& !after.flag_v()
    &&& !after.flag_c()
    &&& after.flag_x() == before.flag_x()
}

/// The condition codes of a sum.
pub open spec fn sum_flags(after: CpuCore, size: Size, s: u32, d: u32) -> bool {
    &&& tells_result(after, size, ((s + d) % modulus(size)) as u32)
    &&& after.flag_c() == (s + d >= modulus(size))
    &&& after.flag_v() == !fits_signed(size, signed(size, s) + signed(size, d))
}

/// The condition codes of a difference `d - s`.
pub open spec fn difference_flags(after: CpuCore, size: Size, s: u32, d: u32) -> bool {
    &&& tells_result(after, size, ((d - s) % modulus(size)) as u32)
    &&& after.flag_c() == (d < s)
    &&& after.flag_v() == !fits_signed(size, signed(size, d) - signed(size, s))
}

/// Facts about the bits of long words.
pub proof fn lemma_long_bits(reg: u32, v: u32, b: u8, w: u16, number: u32, i: u32)
    by (bit_vector)
    requires
        i < 32,
    ensures
        reg & 0xFF == reg % 0x100,
        reg & 0xFFFF == reg % 0x1_0000,
        reg & 0xFFFF_FFFF == reg,
        ((reg & !0xFFu32) | (v & 0xFF)) % 0x100 == v % 0x100,
        ((reg & !0xFFu32) | (v & 0xFF)) / 0x100 == reg / 0x100,
        ((reg & !0xFFFFu32) | (v & 0xFFFF)) % 0x1_0000 == v % 0x1_0000,
        ((reg & !0xFFFFu32) | (v & 0xFFFF)) / 0x1_0000 == reg / 0x1_0000,
        (reg & !0xFFFF_FFFFu32) | (v & 0xFFFF_FFFF) == v,
        (reg as u8) as u32 == reg % 0x100,
        (reg as u16) as u32 == reg % 0x1_0000,
        (b as i8) as i32 as u32 == (if b < 0x80 { b as u32 } else { (b as u32 + 0xFFFF_FF00) as u32 }),
        (w as i16) as i32 as u32 == (if w < 0x8000 { w as u32 } else { (w as u32 + 0xFFFF_0000) as u32 }),
        (v & 0x80 != 0) == (v % 0x100 >= 0x80),
        (v & 0x8000 != 0) == (v % 0x1_0000 >= 0x8000),
        (v & 0x8000_0000 != 0) == (v >= 0x8000_0000),
        v < 0x100 ==> !v & 0xFF == 0xFF - v,
        v < 0x1_0000 ==> !v & 0xFFFF == 0xFFFF - v,
        !v & 0xFFFF_FFFF == 0xFFFF_FFFF - v,
        (v >> 16) | (v << 16) == (v % 0x1_0000) * 0x1_0000 + v / 0x1_0000,
        v < 0x100 && reg < 0x100 ==> (v | reg) & 0xFF == v | reg && v & reg & 0xFF == v & reg && (v ^ reg) & 0xFF == v
            ^ reg && v | reg < 0x100 && v & reg < 0x100 && v ^ reg < 0x100,
        v < 0x1_0000 && reg < 0x1_0000 ==> (v | reg) & 0xFFFF == v | reg && v & reg & 0xFFFF == v & reg && (v ^ reg)
            & 0xFFFF == v ^ reg && v | reg < 0x1_0000 && v & reg < 0x1_0000 && v ^ reg < 0x1_0000,
        (v | reg) & 0xFFFF_FFFF == v | reg && v & reg & 0xFFFF_FFFF == v & reg && (v ^ reg) & 0xFFFF_FFFF == v ^ reg,
        number & 31 == number % 32,
        (number & 31) & 31 == number & 31,
        (v & (1u32 << (number & 31)) != 0) == ((v >> (number % 32)) & 1 == 1),
        ((v ^ (1u32 << (number & 31))) >> i) & 1 == (if i == number % 32 { (1 - ((v >> i) & 1)) as u32 } else {
            (v >> i) & 1
        }),
        ((v & !(1u32 << (number & 31))) >> i) & 1 == (if i == number % 32 { 0 } else { (v >> i) & 1 }),
        ((v | (1u32 << (number & 31))) >> i) & 1 == (if i == number % 32 { 1 } else { (v >> i) & 1 }),
        (v >> i) & 1 == 0 || (v >> i) & 1 == 1,
{
}

/// Masked and merged register parts are remainders and quotients.
pub proof fn lemma_parts(reg: u32, v: u32, b: u8, w: u16)
    ensures
        reg & 0xFF == reg % 0x100,
        reg & 0xFFFF == reg % 0x1_0000,
        reg & 0xFFFF_FFFF == reg,
        ((reg & !0xFFu32) | (v & 0xFF)) % 0x100 == v % 0x100,
        ((reg & !0xFFu32) | (v & 0xFF)) / 0x100 == reg / 0x100,
        ((reg & !0xFFFFu32) | (v & 0xFFFF)) % 0x1_0000 == v % 0x1_0000,
        ((reg & !0xFFFFu32) | (v & 0xFFFF)) / 0x1_0000 == reg / 0x1_0000,
        (reg & !0xFFFF_FFFFu32) | (v & 0xFFFF_FFFF) == v,
        (reg as u8) as u32 == reg % 0x100,
        (reg as u16) as u32 == reg % 0x1_0000,
        (b as i8) as i32 as u32 == (if b < 0x80 { b as u32 } else { (b as u32 + 0xFFFF_FF00) as u32 }),
        (w as i16) as i32 as u32 == (if w < 0x8000 { w as u32 } else { (w as u32 + 0xFFFF_0000) as u32 }),
        (v & 0x80 != 0) == (v % 0x100 >= 0x80),
        (v & 0x8000 != 0) == (v % 0x1_0000 >= 0x8000),
        (v & 0x8000_0000 != 0) == (v >= 0x8000_0000),
{
    lemma_long_bits(reg, v, b, w, 0, 0);
}

/// The operand part of a register is what masking leaves, and replacing it
/// leaves the rest.
pub proof fn lemma_low(reg: u32, v: u32, size: Size)
    ensures
        reg & size.mask() == low(size, reg),
        low(size, crate::alu::merge(reg, size, v)) == low(size, v),
        high(size, crate::alu::merge(reg, size, v)) == high(size, reg),
        low(size, reg) < modulus(size),
        low(size, low(size, reg)) == low(size, reg),
        (v & size.msb() != 0) == (signed(size, low(size, v)) < 0),
{
    lemma_parts(reg, v, 0, 0);
}

/// A value within an operand is its own operand part.
pub proof fn lemma_fits(v: u32, size: Size)
    ensures
        v < modulus(size) ==> low(size, v) == v,
{
    if v < modulus(size) && size != Size::Long {
        vstd::arithmetic::div_mod::lemma_small_mod(v as nat, modulus(size) as nat);
    }
}

/// A data register written in part.
pub proof fn lemma_written(cpu: CpuCore, r: u16, size: Size, v: u32)
    requires
        r < 8,
    ensures
        ({
            let c = cpu.spec_write_data_reg(r as usize, size, v);
            &&& c == (CpuCore { dar: c.dar, ..cpu })
            &&& replaces(cpu, c, r as int, size, low(size, v) as int)
        }),
{
    reveal(CpuCore::spec_write_data_reg);
    reveal(CpuCore::spec_set_d);
    crate::bits::lemma_reg(r as usize);
    lemma_low(cpu.dar[r as int], v, size);
}

/// The condition codes of a logical result.
pub proof fn lemma_logical(cpu: CpuCore, size: Size, v: u32)
    ensures
        ({
            let c = cpu.spec_set_logic_flags(v, size);
            &&& c == (CpuCore { ccr: c.ccr, ..cpu })
            &&& logical_flags(cpu, c, size, low(size, v))
        }),
{
    reveal(CpuCore::spec_set_logic_flags);
    lemma_low(v, v, size);
}

/// Wrapping arithmetic is arithmetic modulo the long word.
pub proof fn lemma_wrap(a: u32, b: u32)
    ensures
        a.wrapping_add(b) == (a + b) % 0x1_0000_0000,
        a.wrapping_sub(b) == (a - b) % 0x1_0000_0000,
{
}

/// ADDX and SUBX change nothing but the condition codes.
pub proof fn lemma_extended_frame(cpu: CpuCore, size: Size, s: u32, d: u32)
    ensures
        cpu.spec_exec_addx(size, s, d).0 == (CpuCore { ccr: cpu.spec_exec_addx(size, s, d).0.ccr, ..cpu }),
        cpu.spec_exec_subx(size, s, d).0 == (CpuCore { ccr: cpu.spec_exec_subx(size, s, d).0.ccr, ..cpu }),
{
    reveal(CpuCore::spec_exec_addx);
    reveal(CpuCore::spec_exec_subx);
    reveal(CpuCore::spec_set_add_flags);
    reveal(CpuCore::spec_set_sub_flags);
    reveal(CpuCore::spec_set_compare_flags);
}

/// The condition codes of an unreduced difference.
pub proof fn lemma_difference(cpu: CpuCore, size: Size, s: u32, d: u32)
    requires
        s < modulus(size),
        d < modulus(size),
    ensures
        ({
            let wide = d.wrapping_sub(s);
            let c = cpu.spec_set_sub_flags(s, d, wide, size);
            let e = cpu.spec_set_compare_flags(s, d, wide, size);
            &&& c == (CpuCore { ccr: c.ccr, ..cpu })
            &&& difference_flags(c, size, s, d)
            &&& c.flag_x() == c.flag_c()
            &&& e == (CpuCore { ccr: e.ccr, ..cpu })
            &&& difference_flags(e, size, s, d)
            &&& e.flag_x() == cpu.flag_x()
            &&& low(size, wide) == (d - s) % modulus(size)
        }),
{
    reveal(CpuCore::spec_set_sub_flags);
    reveal(CpuCore::spec_set_compare_flags);
    let wide = d.wrapping_sub(s);
    crate::laws_arith::law_subtraction(size, s, d, 0);
    assert(wide.wrapping_sub(0) == wide);
    crate::laws_fast::lemma_masked(s, d, wide);
    lemma_low(wide, wide, size);
}

/// The condition codes of an unreduced sum.
pub proof fn lemma_sum(cpu: CpuCore, size: Size, s: u32, d: u32)
    requires
        s < modulus(size),
        d < modulus(size),
    ensures
        ({
            let wide = d.wrapping_add(s);
            let c = cpu.spec_set_add_flags(s, d, wide, size);
            &&& c == (CpuCore { ccr: c.ccr, ..cpu })
            &&& sum_flags(c, size, s, d)
            &&& c.flag_x() == c.flag_c()
            &&& low(size, wide) == (d + s) % modulus(size)
        }),
{
    reveal(CpuCore::spec_set_add_flags);
    let wide = d.wrapping_add(s);
    crate::laws_arith::law_addition(size, s, d, 0);
    assert(wide.wrapping_add(0) == wide);
    crate::laws_fast::lemma_masked(s, d, wide);
    lemma_low(wide, wide, size);
}

/// The result of the two-operand operation of a group.
pub open spec fn binary_result(group: u16, size: Size, s: u32, d: u32) -> int {
    if group == 0x8 {
        (s | d) as int
    } else if group == 0xC {
        (s & d) as int
    } else if group == 0x9 {
        (d - s) % modulus(size)
    } else if group == 0xD {
        (d + s) % modulus(size)
    } else {
        (s ^ d) as int
    }
}

/// The two-operand operation of a group.
pub open spec fn binary_operation(group: u16, exclusive: bool) -> BinaryOp {
    if group == 0x8 {
        BinaryOp::Or
    } else if group == 0xC {
        BinaryOp::And
    } else if group == 0x9 {
        BinaryOp::Sub
    } else if group == 0xD {
        BinaryOp::Add
    } else if exclusive {
        BinaryOp::Eor
    } else {
        BinaryOp::Compare
    }
}

/// The arithmetic of the two-operand operations.
pub proof fn lemma_binary_meaning(cpu: CpuCore, group: u16, exclusive: bool, size: Size, s: u32, d: u32, to: u16)
    requires
        s < modulus(size),
        d < modulus(size),
        to < 8,
    ensures
        ({
            let op = binary_operation(group, exclusive);
            let c = cpu.spec_apply_binary_to_reg(op, size, s, d, to as usize);
            let result = binary_result(group, size, s, d);
            &&& c == (CpuCore { dar: c.dar, ccr: c.ccr, ..cpu })
            &&& op == BinaryOp::Compare ==> c.dar == cpu.dar && difference_flags(c, size, s, d)
                && c.flag_x() == cpu.flag_x()
            &&& op != BinaryOp::Compare ==> replaces(cpu, c, to as int, size, result)
            &&& group == 0x9 ==> difference_flags(c, size, s, d) && c.flag_x() == c.flag_c()
            &&& group == 0xD ==> sum_flags(c, size, s, d) && c.flag_x() == c.flag_c()
            &&& group == 0x8 || group == 0xC || op == BinaryOp::Eor ==> logical_flags(
                cpu,
                c,
                size,
                result as u32,
            )
        }),
{
    reveal(CpuCore::spec_apply_binary_to_reg);
    if group == 0xD {
        lemma_sum(cpu, size, s, d);
        lemma_written(cpu.spec_set_add_flags(s, d, d.wrapping_add(s), size), to, size, d.wrapping_add(s));
    } else if group == 0x9 {
        lemma_difference(cpu, size, s, d);
        lemma_written(cpu.spec_set_sub_flags(s, d, d.wrapping_sub(s), size), to, size, d.wrapping_sub(s));
    } else if group == 0x8 || group == 0xC || exclusive {
        lemma_bitwise(s, d);
        let result = if group == 0x8 {
            (s | d) & size.mask()
        } else if group == 0xC {
            s & d & size.mask()
        } else {
            (s ^ d) & size.mask()
        };
        lemma_logical(cpu, size, result);
        lemma_written(cpu.spec_set_logic_flags(result, size), to, size, result);
        lemma_fits(result, size);
    } else {
        lemma_difference(cpu, size, s, d);
    }
}

/// An operand extended by its sign counts as the signed number it is.
pub proof fn lemma_extended_operand(size: Size, v: u32, d: u32)
    requires
        v < modulus(size),
    ensures
        ({
            let wide = crate::alu::sign_extend(size, v);
            &&& signed(Size::Long, wide) == signed(size, v)
            &&& wide == signed(size, v) % 0x1_0000_0000
            &&& d.wrapping_add(wide) == (d + signed(size, v)) % 0x1_0000_0000
            &&& d.wrapping_sub(wide) == (d - signed(size, v)) % 0x1_0000_0000
        }),
{
    lemma_parts(v, 0, v as u8, v as u16);
    let wide = crate::alu::sign_extend(size, v);
    lemma_fits(v, size);
    assert(signed(Size::Long, wide) == signed(size, v));
}

/// What the conditions say of a result that was moved, tested or computed
/// bitwise: PL and MI its sign, NE and EQ whether it is zero, and the
/// comparisons compare it with zero.
pub open spec fn compares_with_zero(cpu: CpuCore, size: Size, v: u32) -> bool {
    &&& cpu.test_condition(0x0)
    &&& !cpu.test_condition(0x1)
    &&& cpu.test_condition(0x2) == (v > 0)
    &&& cpu.test_condition(0x3) == (v == 0)
    &&& cpu.test_condition(0x4)
    &&& !cpu.test_condition(0x5)
    &&& cpu.test_condition(0x6) == (v != 0)
    &&& cpu.test_condition(0x7) == (v == 0)
    &&& cpu.test_condition(0x8)
    &&& !cpu.test_condition(0x9)
    &&& cpu.test_condition(0xA) == (signed(size, v) >= 0)
    &&& cpu.test_condition(0xB) == (signed(size, v) < 0)
    &&& cpu.test_condition(0xC) == (signed(size, v) >= 0)
    &&& cpu.test_condition(0xD) == (signed(size, v) < 0)
    &&& cpu.test_condition(0xE) == (signed(size, v) > 0)
    &&& cpu.test_condition(0xF) == (signed(size, v) <= 0)
}

pub proof fn lemma_compares_with_zero(before: CpuCore, cpu: CpuCore, size: Size, v: u32)
    requires
        logical_flags(before, cpu, size, v),
        v < modulus(size),
    ensures
        compares_with_zero(cpu, size, v),
{
    crate::laws_arith::lemma_condition_codes();
}

/// The sign of a difference and its overflow together tell which number is
/// smaller.
pub proof fn lemma_signed_order(size: Size, s: u32, d: u32)
    requires
        s < modulus(size),
        d < modulus(size),
    ensures
        ({
            let result = ((d - s) % modulus(size)) as u32;
            let gap = signed(size, d) - signed(size, s);
            &&& (result == 0) == (d == s)
            &&& ((signed(size, result) < 0) == !fits_signed(size, gap)) == (gap >= 0)
        }),
{
}

/// The one's complement.
pub proof fn lemma_complement(v: u32)
    ensures
        v < 0x100 ==> !v & 0xFF == 0xFF - v,
        v < 0x1_0000 ==> !v & 0xFFFF == 0xFFFF - v,
        !v & 0xFFFF_FFFF == 0xFFFF_FFFF - v,
{
    lemma_long_bits(0, v, 0, 0, 0, 0);
}

/// The halves of a long word, exchanged.
pub proof fn lemma_halves_swapped(v: u32)
    ensures
        (v >> 16) | (v << 16) == (v % 0x1_0000) * 0x1_0000 + v / 0x1_0000,
{
    lemma_long_bits(0, v, 0, 0, 0, 0);
}

/// Bitwise operations stay within an operand.
pub proof fn lemma_bitwise(s: u32, d: u32)
    ensures
        s < 0x100 && d < 0x100 ==> (s | d) & 0xFF == s | d && s & d & 0xFF == s & d && (s ^ d) & 0xFF == s
            ^ d && s | d < 0x100 && s & d < 0x100 && s ^ d < 0x100,
        s < 0x1_0000 && d < 0x1_0000 ==> (s | d) & 0xFFFF == s | d && s & d & 0xFFFF == s & d && (s ^ d)
            & 0xFFFF == s ^ d && s | d < 0x1_0000 && s & d < 0x1_0000 && s ^ d < 0x1_0000,
        (s | d) & 0xFFFF_FFFF == s | d && s & d & 0xFFFF_FFFF == s & d && (s ^ d) & 0xFFFF_FFFF == s ^ d,
{
    lemma_long_bits(d, s, 0, 0, 0, 0);
}

/// One bit of a long word.
pub proof fn lemma_one_bit(v: u32, number: u32, i: u32)
    requires
        i < 32,
    ensures
        number & 31 == number % 32,
        (number & 31) & 31 == number & 31,
        (v & (1u32 << (number & 31)) != 0) == ((v >> (number % 32)) & 1 == 1),
        ((v ^ (1u32 << (number & 31))) >> i) & 1 == (if i == number % 32 { (1 - ((v >> i) & 1)) as u32 } else {
            (v >> i) & 1
        }),
        ((v & !(1u32 << (number & 31))) >> i) & 1 == (if i == number % 32 { 0 } else { (v >> i) & 1 }),
        ((v | (1u32 << (number & 31))) >> i) & 1 == (if i == number % 32 { 1 } else { (v >> i) & 1 }),
        (v >> i) & 1 == 0 || (v >> i) & 1 == 1,
{
    lemma_long_bits(0, v, 0, 0, number, i);
}

/// Doubling is a shift, and two words make a long word.
pub proof fn lemma_doubled(v: u32, w: u32)
    by (bit_vector)
    ensures
        v << 1 == (if v < 0x8000_0000 { v * 2 } else { v * 2 - 0x1_0000_0000 }),
        v << 2 == (v << 1) << 1,
        v << 3 == ((v << 1) << 1) << 1,
        v < 0x1_0000 && w < 0x1_0000 ==> (w << 16) | v == w * 0x1_0000 + v,
        (v & 1) & 1 == v & 1,
{
}

/// Parity masked twice.
pub proof fn lemma_low_bit(v: u32)
    ensures
        (v & 1) & 1 == v & 1,
{
    lemma_doubled(v, 0);
}

/// Scaling is multiplication modulo the long word.
pub proof fn lemma_scaled(v: u32)
    ensures
        v << 1u32 == (v * 2) % 0x1_0000_0000,
        v << 2u32 == (v * 4) % 0x1_0000_0000,
        v << 3u32 == (v * 8) % 0x1_0000_0000,
{
    lemma_doubled(v, 0);
    lemma_doubled(v << 1u32, 0);
    lemma_doubled((v << 1u32) << 1u32, 0);
}

/// Two words make a long word.
pub proof fn lemma_joined(w: u16, v: u16)
    ensures
        ((w as u32) << 16) | (v as u32) == 0x1_0000 * w + v,
{
    lemma_doubled(v as u32, w as u32);
}

} // verus!
