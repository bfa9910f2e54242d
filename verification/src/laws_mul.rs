//! Laws of multiplication and division.

use vstd::prelude::*;
use crate::cpu::{CpuCore, VFLAG_SET};
use crate::ea::AddressingMode;
use crate::instructions::magnitude;
use crate::laws_arith::signed;
use crate::machine::Machine;
use crate::prefetch::sext16;
use crate::types::Size;

verus! {

proof fn lemma_halves(v: u32, w: u16, q: u32, r: u32)
    by (bit_vector)
    ensures
        v & 0xFFFF <= 0xFFFF,
        v & 0xFFFF == (v as u16) as u32,
        (w as i16) as i32 as u32 == (if w < 0x8000 {
            w as u32
        } else {
            (w as u32) | 0xFFFF_0000
        }),
        (w as u32) | 0xFFFF_0000 == w + 0xFFFF_0000,
        ((r << 16) | (q & 0xFFFF)) & 0xFFFF == q & 0xFFFF,
        ((r << 16) | (q & 0xFFFF)) >> 16 == r & 0xFFFF,
        q <= 0xFFFF ==> q & 0xFFFF == q,
        r <= 0xFFFF ==> r & 0xFFFF == r,
        q >= 0xFFFF_0000 ==> q & 0xFFFF == q - 0xFFFF_0000,
        r >= 0xFFFF_0000 ==> r & 0xFFFF == r - 0xFFFF_0000,
        (v & 0x8000_0000 != 0) <==> v >= 0x8000_0000,
        (r & 0x8000_0000 != 0) <==> r >= 0x8000_0000,
        ((v ^ r) & 0x8000_0000 != 0) <==> ((v >= 0x8000_0000) != (r >= 0x8000_0000)),
{
}

/// A word operand is a word.
proof fn lemma_word_operand(m: Machine, mode: AddressingMode)
    ensures
        m.read_ea(mode, Size::Word).1 <= 0xFFFF,
{
    reveal(Machine::read_ea);
    reveal(Machine::read_resolved_ea);
    reveal(Machine::read_sized);
    let (m1, operand) = m.resolve_ea(mode, Size::Word);
    match operand {
        crate::ea::EaResult::DataReg(reg) => lemma_halves(m1.cpu.d(reg as usize), 0, 0, 0),
        crate::ea::EaResult::AddrReg(reg) => lemma_halves(m1.cpu.a(reg as usize), 0, 0, 0),
        crate::ea::EaResult::Immediate(value) => lemma_halves(value, 0, 0, 0),
        crate::ea::EaResult::Memory(_) => {},
    }
}

/// The sign extension of a word is the word as a two's complement number.
proof fn lemma_sext(w: u16)
    ensures
        signed(Size::Long, sext16(w)) == signed(Size::Word, w as u32),
{
    lemma_halves(0, w, 0, 0);
}

/// MULU multiplies the low words: the product is exact.
pub proof fn law_unsigned_product(m: Machine, mode: AddressingMode, reg: usize)
    requires
        !m.read_ea(mode, Size::Word).0.cpu.faulted(),
    ensures
        ({
            let (m1, src) = m.read_ea(mode, Size::Word);
            m.exec_mulu(mode, reg).0.cpu.d(reg) == (m1.cpu.d(reg) & 0xFFFF) * src
        }),
{
    reveal(Machine::exec_mulu);
    reveal(CpuCore::spec_set_d);
    reveal(CpuCore::spec_set_logic_flags);
    lemma_word_operand(m, mode);
    crate::bits::lemma_reg(reg);
    let (m1, src) = m.read_ea(mode, Size::Word);
    let dst = m1.cpu.d(reg) & 0xFFFF;
    lemma_halves(m1.cpu.d(reg), 0, 0, 0);
    assert(0 <= dst * src < 0x1_0000_0000) by (nonlinear_arith)
        requires
            0 <= dst <= 0xFFFF,
            0 <= src <= 0xFFFF,
    ;
    vstd::arithmetic::div_mod::lemma_small_mod((dst * src) as nat, 0x1_0000_0000);
}

/// MULS multiplies the low words as two's complement numbers: the product is
/// exact.
pub proof fn law_signed_product(m: Machine, mode: AddressingMode, reg: usize)
    requires
        !m.read_ea(mode, Size::Word).0.cpu.faulted(),
    ensures
        ({
            let (m1, src) = m.read_ea(mode, Size::Word);
            signed(Size::Long, m.exec_muls(mode, reg).0.cpu.d(reg)) == signed(
                Size::Word,
                m1.cpu.d(reg) & 0xFFFF,
            ) * signed(Size::Word, src)
        }),
{
    reveal(Machine::exec_muls);
    reveal(CpuCore::spec_set_d);
    reveal(CpuCore::spec_set_logic_flags);
    lemma_word_operand(m, mode);
    crate::bits::lemma_reg(reg);
    let (m1, src) = m.read_ea(mode, Size::Word);
    let word = m1.cpu.d(reg) as u16;
    lemma_halves(m1.cpu.d(reg), 0, 0, 0);
    lemma_sext(word);
    lemma_sext(src as u16);
    lemma_signed_product(sext16(word), sext16(src as u16));
}

/// Two's complement multiplication is multiplication modulo the word size.
proof fn lemma_signed_product(a: u32, b: u32)
    requires
        -0x8000 <= signed(Size::Long, a) < 0x8000,
        -0x8000 <= signed(Size::Long, b) < 0x8000,
    ensures
        signed(Size::Long, a.wrapping_mul(b)) == signed(Size::Long, a) * signed(Size::Long, b),
{
    let x = signed(Size::Long, a);
    let y = signed(Size::Long, b);
    let n: int = 0x1_0000_0000;
    assert(-0x4000_0000 <= x * y <= 0x4000_0000) by (nonlinear_arith)
        requires
            -0x8000 <= x < 0x8000,
            -0x8000 <= y < 0x8000,
    ;
    vstd::arithmetic::div_mod::lemma_mod_multiples_vanish(if a >= 0x8000_0000 { 1int } else { 0 }, x, n);
    vstd::arithmetic::div_mod::lemma_mod_multiples_vanish(if b >= 0x8000_0000 { 1int } else { 0 }, y, n);
    assert(a as int % n == x % n);
    assert(b as int % n == y % n);
    vstd::arithmetic::div_mod::lemma_mul_mod_noop(a as int, b as int, n);
    vstd::arithmetic::div_mod::lemma_mul_mod_noop(x, y, n);
    assert((a as int * b as int) % n == (x * y) % n);
    if x * y < 0 {
        vstd::arithmetic::div_mod::lemma_mod_multiples_vanish(1, x * y, n);
        vstd::arithmetic::div_mod::lemma_small_mod((x * y + n) as nat, n as nat);
    } else {
        vstd::arithmetic::div_mod::lemma_small_mod((x * y) as nat, n as nat);
    }
}

/// DIVU leaves the quotient in the low word and the remainder in the high
/// word; where the quotient is no word, the register stays and V is set.
pub proof fn law_unsigned_quotient(m: Machine, mode: AddressingMode, reg: usize)
    requires
        !m.read_ea(mode, Size::Word).0.cpu.faulted(),
        m.read_ea(mode, Size::Word).1 != 0,
    ensures
        ({
            let (m1, src) = m.read_ea(mode, Size::Word);
            let value = m1.cpu.d(reg);
            let done = m.exec_divu(mode, reg).0.cpu;
            if value / src <= 0xFFFF {
                &&& done.d(reg) & 0xFFFF == value / src
                &&& done.d(reg) >> 16 == value % src
            } else {
                &&& done.dar == m1.cpu.dar
                &&& done.ccr.v_flag == VFLAG_SET
            }
        }),
{
    reveal(Machine::exec_divu);
    reveal(CpuCore::spec_finish_division);
    reveal(CpuCore::spec_set_d);
    reveal(CpuCore::spec_set_logic_flags);
    lemma_word_operand(m, mode);
    crate::bits::lemma_reg(reg);
    let (m1, src) = m.read_ea(mode, Size::Word);
    let value = m1.cpu.d(reg);
    assert(value % src < src) by (nonlinear_arith)
        requires
            src > 0,
    ;
    lemma_halves(0, 0, value / src, value % src);
}

/// DIVS divides two's complement numbers and rounds toward zero: quotient
/// times divisor plus remainder is the dividend, the remainder is smaller
/// than the divisor and has the sign of the dividend. Where the quotient is
/// no word, the register stays and V is set.
pub proof fn law_signed_quotient(m: Machine, mode: AddressingMode, reg: usize)
    requires
        !m.read_ea(mode, Size::Word).0.cpu.faulted(),
        m.read_ea(mode, Size::Word).1 != 0,
    ensures
        ({
            let (m1, src) = m.read_ea(mode, Size::Word);
            let dividend = signed(Size::Long, m1.cpu.d(reg));
            let divisor = signed(Size::Word, src);
            let done = m.exec_divs(mode, reg).0.cpu;
            let quotient = signed(Size::Word, done.d(reg) & 0xFFFF);
            let remainder = signed(Size::Word, done.d(reg) >> 16);
            let size = abs(dividend) / abs(divisor);
            if size > (if (dividend < 0) != (divisor < 0) {
                0x8000int
            } else {
                0x7FFF
            }) {
                &&& done.dar == m1.cpu.dar
                &&& done.ccr.v_flag == VFLAG_SET
            } else {
                &&& done.ccr.v_flag != VFLAG_SET
                &&& quotient * divisor + remainder == dividend
                &&& -abs(divisor) < remainder < abs(divisor)
                &&& remainder == 0 || (remainder < 0 <==> dividend < 0)
            }
        }),
{
    reveal(Machine::exec_divs);
    reveal(CpuCore::spec_finish_division);
    reveal(CpuCore::spec_set_d);
    reveal(CpuCore::spec_set_logic_flags);
    lemma_word_operand(m, mode);
    crate::bits::lemma_reg(reg);
    let (m1, src) = m.read_ea(mode, Size::Word);
    let value = m1.cpu.d(reg);
    let divisor = sext16(src as u16);
    lemma_sext(src as u16);
    lemma_halves(value, src as u16, 0, divisor);
    lemma_halves(divisor, 0, 0, 0);
    lemma_truncated(value, divisor);
    let q = magnitude(value) / magnitude(divisor);
    let r = magnitude(value) % magnitude(divisor);
    let quotient = if (value >= 0x8000_0000) != (divisor >= 0x8000_0000) {
        0u32.wrapping_sub(q)
    } else {
        q
    };
    let remainder = if value >= 0x8000_0000 {
        0u32.wrapping_sub(r)
    } else {
        r
    };
    lemma_halves(0, 0, quotient, remainder);
}

/// The absolute value of a number.
pub open spec fn abs(n: int) -> int {
    if n < 0 {
        -n
    } else {
        n
    }
}

/// Division of magnitudes, with the signs put back.
proof fn lemma_truncated(value: u32, divisor: u32)
    requires
        -0x8000 <= signed(Size::Long, divisor) < 0x8000,
        divisor != 0,
    ensures
        ({
            let q = magnitude(value) / magnitude(divisor);
            let r = magnitude(value) % magnitude(divisor);
            let x = signed(Size::Long, value);
            let y = signed(Size::Long, divisor);
            let quotient: int = if (x < 0) != (y < 0) {
                -(q as int)
            } else {
                q as int
            };
            let remainder: int = if x < 0 {
                -(r as int)
            } else {
                r as int
            };
            &&& magnitude(value) == abs(x)
            &&& magnitude(divisor) == abs(y)
            &&& 0 < magnitude(divisor) <= 0x8000
            &&& r < magnitude(divisor)
            &&& quotient * y + remainder == x
        }),
{
    lemma_halves(value, 0, 0, divisor);
    let a = magnitude(value) as int;
    let b = magnitude(divisor) as int;
    vstd::arithmetic::div_mod::lemma_fundamental_div_mod(a, b);
    vstd::arithmetic::div_mod::lemma_mod_bound(a, b);
    let q = a / b;
    let x = signed(Size::Long, value);
    let y = signed(Size::Long, divisor);
    assert(b * q == q * b) by (nonlinear_arith);
    assert((-q) * (-b) == q * b) by (nonlinear_arith);
    assert((-q) * b == -(q * b)) by (nonlinear_arith);
    assert(q * (-b) == -(q * b)) by (nonlinear_arith);
}

} // verus!
