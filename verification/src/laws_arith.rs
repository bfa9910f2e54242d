//! Laws of the integer arithmetic: what the condition codes mean.

use vstd::prelude::*;
use crate::alu::{
    add_carry, add_overflow, bcd_add, bcd_sub, rotate_left, size_bits, sub_borrow, sub_overflow,
};
use crate::cpu::CpuCore;
use crate::types::Size;

verus! {

/// Number of values of an operand.
pub open spec fn modulus(size: Size) -> int {
    match size {
        Size::Byte => 0x100,
        Size::Word => 0x1_0000,
        Size::Long => 0x1_0000_0000,
    }
}

/// An operand read as a two's complement number.
pub open spec fn signed(size: Size, v: u32) -> int {
    if 2 * v >= modulus(size) {
        v - modulus(size)
    } else {
        v as int
    }
}

/// Whether a number fits an operand in two's complement.
pub open spec fn fits_signed(size: Size, n: int) -> bool {
    -modulus(size) <= 2 * n < modulus(size)
}

/// Whether a value is within an operand.
pub open spec fn in_size(size: Size, v: u32) -> bool {
    v < modulus(size)
}

proof fn lemma_add_long(s: u32, d: u32, x: u32, r: u32)
    by (bit_vector)
    requires
        x <= 1,
        r == (if s + d + x >= 0x1_0000_0000 {
            s + d + x - 0x1_0000_0000
        } else {
            s + d + x
        }),
    ensures
        (((s & d) | (!r & (s | d))) & 0x8000_0000 != 0) == (s + d + x >= 0x1_0000_0000),
        ((s ^ r) & (d ^ r) & 0x8000_0000 != 0) == ({
            let a = if s >= 0x8000_0000 { s - 0x1_0000_0000 } else { s - 0 };
            let b = if d >= 0x8000_0000 { d - 0x1_0000_0000 } else { d - 0 };
            a + b + x < -0x8000_0000 || a + b + x >= 0x8000_0000
        }),
        (r & 0x8000_0000 != 0) == (r >= 0x8000_0000),
        r & 0xFFFF_FFFF == r,
{
}

proof fn lemma_add_word(s: u32, d: u32, x: u32, r: u32)
    by (bit_vector)
    requires
        x <= 1,
        s < 0x1_0000,
        d < 0x1_0000,
        r == (s + d + x) as u32 & 0xFFFF,
    ensures
        r == (if s + d + x >= 0x1_0000 {
            s + d + x - 0x1_0000
        } else {
            s + d + x
        }),
        (((s & d) | (!r & (s | d))) & 0x8000 != 0) == (s + d + x >= 0x1_0000),
        ((s ^ r) & (d ^ r) & 0x8000 != 0) == ({
            let a = if s >= 0x8000 { s - 0x1_0000 } else { s - 0 };
            let b = if d >= 0x8000 { d - 0x1_0000 } else { d - 0 };
            a + b + x < -0x8000 || a + b + x >= 0x8000
        }),
        (r & 0x8000 != 0) == (r >= 0x8000),
        r & 0xFFFF == r,
{
}

proof fn lemma_add_byte(s: u32, d: u32, x: u32, r: u32)
    by (bit_vector)
    requires
        x <= 1,
        s < 0x100,
        d < 0x100,
        r == (s + d + x) as u32 & 0xFF,
    ensures
        r == (if s + d + x >= 0x100 {
            s + d + x - 0x100
        } else {
            s + d + x
        }),
        (((s & d) | (!r & (s | d))) & 0x80 != 0) == (s + d + x >= 0x100),
        ((s ^ r) & (d ^ r) & 0x80 != 0) == ({
            let a = if s >= 0x80 { s - 0x100 } else { s - 0 };
            let b = if d >= 0x80 { d - 0x100 } else { d - 0 };
            a + b + x < -0x80 || a + b + x >= 0x80
        }),
        (r & 0x80 != 0) == (r >= 0x80),
        r & 0xFF == r,
{
}

proof fn lemma_sub_long(s: u32, d: u32, x: u32, r: u32)
    by (bit_vector)
    requires
        x <= 1,
        r == (if d - s - x < 0 {
            d - s - x + 0x1_0000_0000
        } else {
            d - s - x
        }),
    ensures
        (((s & r) | (!d & (s | r))) & 0x8000_0000 != 0) == (d - s - x < 0),
        ((s ^ d) & (r ^ d) & 0x8000_0000 != 0) == ({
            let a = if s >= 0x8000_0000 { s - 0x1_0000_0000 } else { s - 0 };
            let b = if d >= 0x8000_0000 { d - 0x1_0000_0000 } else { d - 0 };
            b - a - x < -0x8000_0000 || b - a - x >= 0x8000_0000
        }),
        (r & 0x8000_0000 != 0) == (r >= 0x8000_0000),
        r & 0xFFFF_FFFF == r,
{
}

proof fn lemma_sub_word(s: u32, d: u32, x: u32, r: u32)
    by (bit_vector)
    requires
        x <= 1,
        s < 0x1_0000,
        d < 0x1_0000,
        r == (d - s - x) as u32 & 0xFFFF,
    ensures
        r == (if d - s - x < 0 {
            d - s - x + 0x1_0000
        } else {
            d - s - x
        }),
        (((s & r) | (!d & (s | r))) & 0x8000 != 0) == (d - s - x < 0),
        ((s ^ d) & (r ^ d) & 0x8000 != 0) == ({
            let a = if s >= 0x8000 { s - 0x1_0000 } else { s - 0 };
            let b = if d >= 0x8000 { d - 0x1_0000 } else { d - 0 };
            b - a - x < -0x8000 || b - a - x >= 0x8000
        }),
        (r & 0x8000 != 0) == (r >= 0x8000),
        r & 0xFFFF == r,
{
}

proof fn lemma_sub_byte(s: u32, d: u32, x: u32, r: u32)
    by (bit_vector)
    requires
        x <= 1,
        s < 0x100,
        d < 0x100,
        r == (d - s - x) as u32 & 0xFF,
    ensures
        r == (if d - s - x < 0 {
            d - s - x + 0x100
        } else {
            d - s - x
        }),
        (((s & r) | (!d & (s | r))) & 0x80 != 0) == (d - s - x < 0),
        ((s ^ d) & (r ^ d) & 0x80 != 0) == ({
            let a = if s >= 0x80 { s - 0x100 } else { s - 0 };
            let b = if d >= 0x80 { d - 0x100 } else { d - 0 };
            b - a - x < -0x80 || b - a - x >= 0x80
        }),
        (r & 0x80 != 0) == (r >= 0x80),
        r & 0xFF == r,
{
}

/// A sum of operands and a carry, reduced to the operand size.
pub open spec fn sum(size: Size, src: u32, dst: u32, extend: u32) -> u32 {
    dst.wrapping_add(src).wrapping_add(extend) & size.mask()
}

/// A difference of operands and a borrow, reduced to the operand size.
pub open spec fn difference(size: Size, src: u32, dst: u32, extend: u32) -> u32 {
    dst.wrapping_sub(src).wrapping_sub(extend) & size.mask()
}

/// An addition is taken modulo the operand size; it carries exactly when the
/// unsigned sum does not fit, and overflows exactly when the signed sum does
/// not.
pub proof fn law_addition(size: Size, src: u32, dst: u32, extend: u32)
    requires
        in_size(size, src),
        in_size(size, dst),
        extend <= 1,
    ensures
        ({
            let r = sum(size, src, dst, extend);
            let total = src + dst + extend;
            &&& r == total % modulus(size)
            &&& add_carry(src, dst, r, size.msb()) == (total >= modulus(size))
            &&& add_overflow(src, dst, r, size.msb()) == !fits_signed(
                size,
                signed(size, src) + signed(size, dst) + extend,
            )
            &&& (r & size.msb() != 0) == (signed(size, r) < 0)
            &&& r & size.mask() == r
        }),
{
    let wide = dst.wrapping_add(src).wrapping_add(extend);
    let r = sum(size, src, dst, extend);
    match size {
        Size::Byte => {
            assert(wide == src + dst + extend);
            lemma_add_byte(src, dst, extend, r);
        },
        Size::Word => {
            assert(wide == src + dst + extend);
            lemma_add_word(src, dst, extend, r);
        },
        Size::Long => {
            lemma_add_long(src, dst, extend, wide);
        },
    }
}

/// A subtraction is taken modulo the operand size; it borrows exactly when
/// the unsigned difference is negative, and overflows exactly when the signed
/// difference does not fit.
pub proof fn law_subtraction(size: Size, src: u32, dst: u32, extend: u32)
    requires
        in_size(size, src),
        in_size(size, dst),
        extend <= 1,
    ensures
        ({
            let r = difference(size, src, dst, extend);
            let total = dst - src - extend;
            &&& r == total % modulus(size)
            &&& sub_borrow(src, dst, r, size.msb()) == (total < 0)
            &&& sub_overflow(src, dst, r, size.msb()) == !fits_signed(
                size,
                signed(size, dst) - signed(size, src) - extend,
            )
            &&& (r & size.msb() != 0) == (signed(size, r) < 0)
            &&& r & size.mask() == r
        }),
{
    let wide = dst.wrapping_sub(src).wrapping_sub(extend);
    let r = difference(size, src, dst, extend);
    match size {
        Size::Byte => {
            lemma_truncated_difference(src, dst, extend, wide);
            lemma_sub_byte(src, dst, extend, r);
        },
        Size::Word => {
            lemma_truncated_difference(src, dst, extend, wide);
            lemma_sub_word(src, dst, extend, r);
        },
        Size::Long => {
            lemma_sub_long(src, dst, extend, wide);
        },
    }
}

proof fn lemma_truncated_difference(s: u32, d: u32, x: u32, wide: u32)
    by (bit_vector)
    requires
        x <= 1,
        wide == (if d - s - x < 0 {
            d - s - x + 0x1_0000_0000
        } else {
            d - s - x
        }),
    ensures
        wide == (d - s - x) as u32,
{
}

/// After ADD the flags say what the sum did: C and X that it did not fit
/// unsigned, V that it did not fit signed, N and Z what the result is.
pub proof fn law_add_flags(cpu: CpuCore, size: Size, src: u32, dst: u32)
    requires
        in_size(size, src),
        in_size(size, dst),
    ensures
        ({
            let (c, out) = cpu.spec_exec_add(size, src, dst);
            &&& out.0 == (src + dst) % modulus(size)
            &&& c.flag_c() == (src + dst >= modulus(size))
            &&& c.flag_x() == c.flag_c()
            &&& c.flag_v() == !fits_signed(size, signed(size, src) + signed(size, dst))
            &&& c.flag_n() == (signed(size, out.0) < 0)
            &&& c.flag_z() == (out.0 == 0)
        }),
{
    reveal(CpuCore::spec_exec_add);
    reveal(CpuCore::spec_set_add_flags);
    law_addition(size, src, dst, 0);
    assert(dst.wrapping_add(src).wrapping_add(0) == dst.wrapping_add(src));
}

/// After SUB the flags say what the difference did: C and X that it was
/// negative unsigned, V that it did not fit signed, N and Z what the result
/// is.
pub proof fn law_sub_flags(cpu: CpuCore, size: Size, src: u32, dst: u32)
    requires
        in_size(size, src),
        in_size(size, dst),
    ensures
        ({
            let (c, out) = cpu.spec_exec_sub(size, src, dst);
            &&& out.0 == (dst - src) % modulus(size)
            &&& c.flag_c() == (dst < src)
            &&& c.flag_x() == c.flag_c()
            &&& c.flag_v() == !fits_signed(size, signed(size, dst) - signed(size, src))
            &&& c.flag_n() == (signed(size, out.0) < 0)
            &&& c.flag_z() == (out.0 == 0)
        }),
{
    reveal(CpuCore::spec_exec_sub);
    reveal(CpuCore::spec_set_sub_flags);
    reveal(CpuCore::spec_set_compare_flags);
    law_subtraction(size, src, dst, 0);
    assert(dst.wrapping_sub(src).wrapping_sub(0) == dst.wrapping_sub(src));
}

/// A disjunction is zero when both parts are.
pub proof fn lemma_zero_or(z: u32, r: u32)
    by (bit_vector)
    ensures
        (z | r == 0) == (z == 0 && r == 0),
{
}

/// ADDX chains additions: it adds the extend bit, and Z stays set only while
/// every part of the sum was zero.
pub proof fn law_extended_addition(cpu: CpuCore, size: Size, src: u32, dst: u32)
    requires
        in_size(size, src),
        in_size(size, dst),
    ensures
        ({
            let carry_in: int = if cpu.flag_x() { 1 } else { 0 };
            let (c, out) = cpu.spec_exec_addx(size, src, dst);
            &&& out == (src + dst + carry_in) % modulus(size)
            &&& c.flag_c() == (src + dst + carry_in >= modulus(size))
            &&& c.flag_x() == c.flag_c()
            &&& c.flag_z() == (cpu.flag_z() && out == 0)
        }),
{
    reveal(CpuCore::spec_exec_addx);
    reveal(CpuCore::spec_set_add_flags);
    law_addition(size, src, dst, cpu.extend_bit());
    lemma_zero_or(cpu.ccr.not_z_flag, cpu.spec_exec_addx(size, src, dst).1);
}

/// SUBX chains subtractions: it subtracts the extend bit, and Z stays set
/// only while every part of the difference was zero.
pub proof fn law_extended_subtraction(cpu: CpuCore, size: Size, src: u32, dst: u32)
    requires
        in_size(size, src),
        in_size(size, dst),
    ensures
        ({
            let borrow_in: int = if cpu.flag_x() { 1 } else { 0 };
            let (c, out) = cpu.spec_exec_subx(size, src, dst);
            &&& out == (dst - src - borrow_in) % modulus(size)
            &&& c.flag_c() == (dst - src - borrow_in < 0)
            &&& c.flag_x() == c.flag_c()
            &&& c.flag_z() == (cpu.flag_z() && out == 0)
        }),
{
    reveal(CpuCore::spec_exec_subx);
    reveal(CpuCore::spec_set_sub_flags);
    reveal(CpuCore::spec_set_compare_flags);
    law_subtraction(size, src, dst, cpu.extend_bit());
    lemma_zero_or(cpu.ccr.not_z_flag, cpu.spec_exec_subx(size, src, dst).1);
}

proof fn lemma_within(v: u32)
    ensures
        v < 0x100 ==> v & 0xFF == v,
        v < 0x1_0000 ==> v & 0xFFFF == v,
        v & 0xFFFF_FFFF == v,
{
    crate::laws_parts::lemma_parts(v, 0, 0, 0);
}

/// After CMP the conditions compare the operands, unsigned (HI, LS, CC, CS)
/// and signed (GE, LT, GT, LE), and NE and EQ tell them apart; VC and VS tell
/// whether the difference fits, and PL and MI its sign.
pub proof fn law_compare_then_test(cpu: CpuCore, size: Size, src: u32, dst: u32)
    requires
        in_size(size, src),
        in_size(size, dst),
    ensures
        ({
            let c = cpu.spec_exec_compare(size, src, dst).0;
            let s = signed(size, src);
            let d = signed(size, dst);
            &&& c.test_condition(0x2) == (dst > src)
            &&& c.test_condition(0x3) == (dst <= src)
            &&& c.test_condition(0x4) == (dst >= src)
            &&& c.test_condition(0x5) == (dst < src)
            &&& c.test_condition(0x6) == (dst != src)
            &&& c.test_condition(0x7) == (dst == src)
            &&& c.test_condition(0x8) == fits_signed(size, d - s)
            &&& c.test_condition(0x9) == !fits_signed(size, d - s)
            &&& c.test_condition(0xA) == (signed(size, ((dst - src) % modulus(size)) as u32) >= 0)
            &&& c.test_condition(0xB) == (signed(size, ((dst - src) % modulus(size)) as u32) < 0)
            &&& c.test_condition(0xC) == (d >= s)
            &&& c.test_condition(0xD) == (d < s)
            &&& c.test_condition(0xE) == (d > s)
            &&& c.test_condition(0xF) == (d <= s)
        }),
{
    reveal(CpuCore::spec_exec_compare);
    reveal(CpuCore::spec_set_compare_flags);
    lemma_within(src);
    lemma_within(dst);
    law_subtraction(size, src, dst, 0);
    assert(dst.wrapping_sub(src).wrapping_sub(0) == dst.wrapping_sub(src));
    lemma_condition_codes();
}

/// Condition codes are four bits.
pub proof fn lemma_condition_codes()
    ensures
        0x0u8 & 0x0F == 0x0,
        0x1u8 & 0x0F == 0x1,
        0x8u8 & 0x0F == 0x8,
        0x9u8 & 0x0F == 0x9,
        0xAu8 & 0x0F == 0xA,
        0xBu8 & 0x0F == 0xB,
        0x2u8 & 0x0F == 0x2,
        0x3u8 & 0x0F == 0x3,
        0x4u8 & 0x0F == 0x4,
        0x5u8 & 0x0F == 0x5,
        0x6u8 & 0x0F == 0x6,
        0x7u8 & 0x0F == 0x7,
        0xCu8 & 0x0F == 0xC,
        0xDu8 & 0x0F == 0xD,
        0xEu8 & 0x0F == 0xE,
        0xFu8 & 0x0F == 0xF,
{
    crate::laws_status::lemma_condition_pair(0x0);
    crate::laws_status::lemma_condition_pair(0x1);
    crate::laws_status::lemma_condition_pair(0x2);
    crate::laws_status::lemma_condition_pair(0x3);
    crate::laws_status::lemma_condition_pair(0x4);
    crate::laws_status::lemma_condition_pair(0x5);
    crate::laws_status::lemma_condition_pair(0x6);
    crate::laws_status::lemma_condition_pair(0x7);
    crate::laws_status::lemma_condition_pair(0x8);
    crate::laws_status::lemma_condition_pair(0x9);
    crate::laws_status::lemma_condition_pair(0xA);
    crate::laws_status::lemma_condition_pair(0xB);
    crate::laws_status::lemma_condition_pair(0xC);
    crate::laws_status::lemma_condition_pair(0xD);
    crate::laws_status::lemma_condition_pair(0xE);
    crate::laws_status::lemma_condition_pair(0xF);
}

/// A byte of two decimal digits.
pub open spec fn is_decimal(v: u32) -> bool {
    v <= 0x99 && v & 0x0F <= 9
}

/// The number that two decimal digits stand for.
pub open spec fn decimal(v: u32) -> int {
    (v >> 4) * 10 + (v & 0x0F)
}

proof fn lemma_decimal_add(s: u32, d: u32, x: u32, low: u32, plain: u32, r: u32)
    by (bit_vector)
    requires
        s <= 0x99 && s & 0x0F <= 9,
        d <= 0x99 && d & 0x0F <= 9,
        x <= 1,
        low == (s & 0x0F) + (d & 0x0F) + x,
        plain == low + (s & 0xF0) + (d & 0xF0),
        r == (if plain + (if low > 9 { 6u32 } else { 0u32 }) > 0x99 {
            (plain + (if low > 9 { 6u32 } else { 0u32 }) - 0xA0) as u32 & 0xFF
        } else {
            (plain + (if low > 9 { 6u32 } else { 0u32 })) as u32 & 0xFF
        }),
    ensures
        r <= 0x99 && r & 0x0F <= 9,
        (r >> 4) * 10 + (r & 0x0F) + (if plain + (if low > 9 { 6u32 } else { 0u32 }) > 0x99 { 100u32 } else { 0u32 })
            == (s >> 4) * 10 + (s & 0x0F) + (d >> 4) * 10 + (d & 0x0F) + x,
{
}

/// ABCD adds decimal numbers: the result has two decimal digits, and the
/// carry stands for a hundred.
pub proof fn law_decimal_addition(src: u32, dst: u32, extend: u32)
    requires
        is_decimal(src),
        is_decimal(dst),
        extend <= 1,
    ensures
        ({
            let (r, carry, overflow) = bcd_add(src, dst, extend);
            &&& is_decimal(r)
            &&& decimal(r) + (if carry { 100int } else { 0 }) == decimal(src) + decimal(dst) + extend
        }),
{
    let low = ((src & 0x0F) + (dst & 0x0F) + extend) as u32;
    let plain = (low + (src & 0xF0) + (dst & 0xF0)) as u32;
    lemma_small_fields(src, dst);
    let total = (plain + (if low > 9 { 6u32 } else { 0u32 })) as u32;
    lemma_wrapping_as(total, 0xA0, total.wrapping_add(0xA0), total.wrapping_sub(0xA0));
    lemma_decimal_add(src, dst, extend, low, plain, bcd_add(src, dst, extend).0);
}

proof fn lemma_small_fields(s: u32, d: u32)
    ensures
        s & 0x0F <= 0x0F,
        d & 0x0F <= 0x0F,
        s & 0xF0 <= 0xF0,
        d & 0xF0 <= 0xF0,
{
    crate::alu::lemma_nibbles(s);
    crate::alu::lemma_nibbles(d);
}

proof fn lemma_decimal_sub(s: u32, d: u32, x: u32, low: u32, plain: u32, r: u32)
    by (bit_vector)
    requires
        s <= 0x99 && s & 0x0F <= 9,
        d <= 0x99 && d & 0x0F <= 9,
        x <= 1,
        low == ((d & 0x0F) - (s & 0x0F) - x) as u32,
        plain == (low + (d & 0xF0) - (s & 0xF0)) as u32,
        r == ((if plain > 0x99 { (plain + 0xA0) as u32 } else { plain }) - (if low > 9 { 6u32 } else { 0 })) as u32
            & 0xFF,
    ensures
        r <= 0x99 && r & 0x0F <= 9,
        (r >> 4) * 10 + (r & 0x0F) == (d >> 4) * 10 + (d & 0x0F) - (s >> 4) * 10 - (s & 0x0F) - x + (if plain
            > 0x99 { 100u32 } else { 0u32 }),
{
}

proof fn lemma_wrapping_as(a: u32, b: u32, sum: u32, difference: u32)
    by (bit_vector)
    requires
        sum == (if a + b >= 0x1_0000_0000 { a + b - 0x1_0000_0000 } else { a + b }),
        difference == (if a - b < 0 { a - b + 0x1_0000_0000 } else { a - b }),
    ensures
        sum == (a + b) as u32,
        difference == (a - b) as u32,
{
}

/// SBCD subtracts decimal numbers: the result has two decimal digits, and the
/// borrow stands for a hundred.
pub proof fn law_decimal_subtraction(src: u32, dst: u32, extend: u32)
    requires
        is_decimal(src),
        is_decimal(dst),
        extend <= 1,
    ensures
        ({
            let (r, borrow, overflow) = bcd_sub(src, dst, extend);
            &&& is_decimal(r)
            &&& decimal(r) == decimal(dst) - decimal(src) - extend + (if borrow { 100int } else { 0 })
        }),
{
    lemma_small_fields(src, dst);
    let low = (dst & 0x0F).wrapping_sub(src & 0x0F).wrapping_sub(extend);
    lemma_truncated_difference(src & 0x0F, dst & 0x0F, extend, low);
    let high = low.wrapping_add(dst & 0xF0);
    lemma_wrapping_as(low, dst & 0xF0, high, low.wrapping_sub(dst & 0xF0));
    let plain = high.wrapping_sub(src & 0xF0);
    lemma_wrapping_as(high, src & 0xF0, high.wrapping_add(src & 0xF0), plain);
    lemma_sub_chain(low, dst & 0xF0, src & 0xF0, high, plain);
    let corrected = if plain > 0x99 { plain.wrapping_add(0xA0) } else { plain };
    lemma_wrapping_as(plain, 0xA0, plain.wrapping_add(0xA0), plain.wrapping_sub(0xA0));
    let adjust: u32 = if low > 9 { 6u32 } else { 0u32 };
    lemma_wrapping_as(corrected, adjust, corrected.wrapping_add(adjust), corrected.wrapping_sub(adjust));
    lemma_decimal_sub(src, dst, extend, low, plain, bcd_sub(src, dst, extend).0);
}

proof fn lemma_sub_chain(low: u32, up: u32, down: u32, high: u32, plain: u32)
    by (bit_vector)
    requires
        high == (low + up) as u32,
        plain == (high - down) as u32,
    ensures
        plain == (low + up - down) as u32,
{
}

proof fn lemma_rotate_long(v: u32, n: u32)
    requires
        0 < n < 32,
    ensures
        ((((v << n) | (v >> ((32 - n) as u32))) << ((32 - n) as u32)) | (((v << n) | (v >> ((32 - n) as u32))) >> n)) == v,
        v & 0xFFFF_FFFF == v,
{
    let r = (v << n) | (v >> ((32 - n) as u32));
    lemma_within(r);
    lemma_within(v);
    crate::laws_shift::lemma_rotated(v, n, 32, 0xFFFF_FFFF, 0, n, r);
    lemma_within((r << ((32 - n) as u32)) | (r >> n));
}

proof fn lemma_rotate_word(v: u32, n: u32, r: u32)
    requires
        0 < n < 16,
        v < 0x1_0000,
        r == ((v << n) | (v >> ((16 - n) as u32))) & 0xFFFF,
    ensures
        ((r << ((16 - n) as u32)) | (r >> n)) & 0xFFFF == v,
{
    crate::laws_shift::lemma_rotated(v, n, 16, 0xFFFF, 0, n, r);
}

proof fn lemma_rotate_byte(v: u32, n: u32, r: u32)
    requires
        0 < n < 8,
        v < 0x100,
        r == ((v << n) | (v >> ((8 - n) as u32))) & 0xFF,
    ensures
        ((r << ((8 - n) as u32)) | (r >> n)) & 0xFF == v,
{
    crate::laws_shift::lemma_rotated(v, n, 8, 0xFF, 0, n, r);
}

/// Rotating the rest of the way round gives the operand back, so ROR undoes
/// ROL.
pub proof fn law_rotate_round(size: Size, value: u32, count: u32)
    requires
        in_size(size, value),
        0 < count < size_bits(size),
    ensures
        rotate_left(size, (size_bits(size) - count) as u32, rotate_left(size, count, value)) == value,
{
    match size {
        Size::Byte => {
            lemma_rotate_byte(value, count, rotate_left(size, count, value));
        },
        Size::Word => {
            lemma_rotate_word(value, count, rotate_left(size, count, value));
        },
        Size::Long => {
            lemma_rotate_long(value, count);
            lemma_within((value << count) | (value >> ((32 - count) as u32)));
        },
    }
}

proof fn lemma_swap(v: u32, r: u32)
    by (bit_vector)
    requires
        r == (v >> 16) | (v << 16),
    ensures
        (r >> 16) | (r << 16) == v,
        r >> 16 == v & 0xFFFF,
        r & 0xFFFF == v >> 16,
{
}

/// SWAP exchanges the halves of a register; done twice it changes nothing.
pub proof fn law_swap_twice(cpu: CpuCore, reg: usize)
    requires
        reg < 8,
    ensures
        ({
            let once = cpu.spec_exec_swap(reg).0;
            let twice = once.spec_exec_swap(reg).0;
            &&& once.d(reg) >> 16 == cpu.d(reg) & 0xFFFF
            &&& once.d(reg) & 0xFFFF == cpu.d(reg) >> 16
            &&& twice.dar =~= cpu.dar
        }),
{
    reveal(CpuCore::spec_exec_swap);
    reveal(CpuCore::spec_set_d);
    reveal(CpuCore::spec_set_logic_flags);
    crate::bits::lemma_reg(reg);
    let v = cpu.d(reg);
    lemma_swap(v, (v >> 16) | (v << 16));
    let twice = cpu.spec_exec_swap(reg).0.spec_exec_swap(reg).0;
    assert(twice.dar@ =~= cpu.dar@);
}

/// EXG exchanges two registers; done twice it changes nothing, and it sets no
/// flag.
pub proof fn law_exchange_twice(cpu: CpuCore, opcode: u16)
    ensures
        ({
            let once = cpu.spec_exec_exg(opcode).0;
            let twice = once.spec_exec_exg(opcode).0;
            &&& once.ccr == cpu.ccr
            &&& twice.dar =~= cpu.dar
        }),
{
    reveal(CpuCore::spec_exec_exg);
    reveal(CpuCore::spec_set_d);
    reveal(CpuCore::spec_set_a);
    crate::bits::lemma_fields(opcode);
    crate::bits::lemma_reg(((opcode >> 9) & 7) as usize);
    crate::bits::lemma_reg((opcode & 7) as usize);
    let twice = cpu.spec_exec_exg(opcode).0.spec_exec_exg(opcode).0;
    assert(twice.dar@ =~= cpu.dar@);
}

} // verus!
