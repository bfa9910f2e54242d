//! Condition codes and the register half of the integer instructions.

use vstd::prelude::*;
use crate::cpu::{Ccr, CpuCore, CFLAG_SET, NFLAG_SET, VFLAG_SET, XFLAG_SET};
use crate::prefetch::{sext16, sext8};
use crate::types::Size;

verus! {

/// Number of bits of an operand.
pub open spec fn spec_size_bits(size: Size) -> u32 {
    match size {
        Size::Byte => 8,
        Size::Word => 16,
        Size::Long => 32,
    }
}

/// Number of bits of an operand.
#[verifier::when_used_as_spec(spec_size_bits)]
pub fn size_bits(size: Size) -> (r: u32)
    ensures
        r == spec_size_bits(size),
{
    match size {
        Size::Byte => 8,
        Size::Word => 16,
        Size::Long => 32,
    }
}

/// A register with its low part replaced.
pub open spec fn spec_merge(register: u32, size: Size, value: u32) -> u32 {
    (register & !size.mask()) | (value & size.mask())
}

/// A register with its low part replaced.
#[verifier::when_used_as_spec(spec_merge)]
pub fn merge(register: u32, size: Size, value: u32) -> (r: u32)
    ensures
        r == spec_merge(register, size, value),
{
    (register & !size.mask()) | (value & size.mask())
}

/// Sign extension of an operand to a long word.
pub open spec fn spec_sign_extend(size: Size, value: u32) -> u32 {
    match size {
        Size::Byte => sext8(value as u8),
        Size::Word => sext16(value as u16),
        Size::Long => value,
    }
}

/// Sign extension of an operand to a long word.
#[verifier::when_used_as_spec(spec_sign_extend)]
pub fn sign_extend(size: Size, value: u32) -> (r: u32)
    ensures
        r == spec_sign_extend(size, value),
{
    match size {
        Size::Byte => sext8(value as u8),
        Size::Word => sext16(value as u16),
        Size::Long => value,
    }
}

/// The flag value for a set or clear condition.
pub open spec fn spec_flag(set: bool, value: u32) -> u32 {
    if set {
        value
    } else {
        0
    }
}

/// The flag value for a set or clear condition.
#[verifier::when_used_as_spec(spec_flag)]
pub fn flag(set: bool, value: u32) -> (r: u32)
    ensures
        r == spec_flag(set, value),
{
    if set {
        value
    } else {
        0
    }
}

/// Carry out of an addition, from the sign bits of operands and result.
pub open spec fn spec_add_carry(src: u32, dst: u32, result: u32, msb: u32) -> bool {
    ((src & dst) | (!result & (src | dst))) & msb != 0
}

/// Carry out of an addition, from the sign bits of operands and result.
#[verifier::when_used_as_spec(spec_add_carry)]
pub fn add_carry(src: u32, dst: u32, result: u32, msb: u32) -> (r: bool)
    ensures
        r == spec_add_carry(src, dst, result, msb),
{
    ((src & dst) | (!result & (src | dst))) & msb != 0
}

/// Overflow of an addition.
pub open spec fn spec_add_overflow(src: u32, dst: u32, result: u32, msb: u32) -> bool {
    (src ^ result) & (dst ^ result) & msb != 0
}

/// Overflow of an addition.
#[verifier::when_used_as_spec(spec_add_overflow)]
pub fn add_overflow(src: u32, dst: u32, result: u32, msb: u32) -> (r: bool)
    ensures
        r == spec_add_overflow(src, dst, result, msb),
{
    (src ^ result) & (dst ^ result) & msb != 0
}

/// Borrow of a subtraction `dst - src`.
pub open spec fn spec_sub_borrow(src: u32, dst: u32, result: u32, msb: u32) -> bool {
    ((src & result) | (!dst & (src | result))) & msb != 0
}

/// Borrow of a subtraction `dst - src`.
#[verifier::when_used_as_spec(spec_sub_borrow)]
pub fn sub_borrow(src: u32, dst: u32, result: u32, msb: u32) -> (r: bool)
    ensures
        r == spec_sub_borrow(src, dst, result, msb),
{
    ((src & result) | (!dst & (src | result))) & msb != 0
}

/// Overflow of a subtraction `dst - src`.
pub open spec fn spec_sub_overflow(src: u32, dst: u32, result: u32, msb: u32) -> bool {
    (src ^ dst) & (result ^ dst) & msb != 0
}

/// Overflow of a subtraction `dst - src`.
#[verifier::when_used_as_spec(spec_sub_overflow)]
pub fn sub_overflow(src: u32, dst: u32, result: u32, msb: u32) -> (r: bool)
    ensures
        r == spec_sub_overflow(src, dst, result, msb),
{
    (src ^ dst) & (result ^ dst) & msb != 0
}

/// A shift or rotate: its result and the last bit moved out.
#[derive(Debug, Clone, Copy, PartialEq, Eq, Structural)]
pub struct Shifted {
    pub value: u32,
    pub out: bool,
}

/// Logical shift left of an operand by a non-zero count.
pub open spec fn spec_shift_left(size: Size, count: u32, value: u32) -> Shifted {
    let bits: u32 = size_bits(size);
    if count < bits {
        Shifted {
        value: (value << count) & size.mask(),
        out: (value >> (bits - count) as u32) & 1 != 0,
    }
    } else if count == bits {
        Shifted { value: 0, out: value & 1 != 0 }
    } else {
        Shifted { value: 0, out: false }
    }
}

/// Logical shift left of an operand by a non-zero count.
#[verifier::when_used_as_spec(spec_shift_left)]
pub fn shift_left(size: Size, count: u32, value: u32) -> (r: Shifted)
    requires
        count > 0,
    ensures
        r == spec_shift_left(size, count, value),
{
    let bits: u32 = size_bits(size);
    if count < bits {
        Shifted {
            value: (value << count) & size.mask(),
            out: (value >> (bits - count) as u32) & 1 != 0,
        }
    } else if count == bits {
        Shifted { value: 0, out: value & 1 != 0 }
    } else {
        Shifted { value: 0, out: false }
    }
}

/// Logical shift right of an operand by a non-zero count.
pub open spec fn spec_shift_right(size: Size, count: u32, value: u32) -> Shifted {
    let bits: u32 = size_bits(size);
    if count < bits {
        Shifted { value: value >> count, out: (value >> (count - 1) as u32) & 1 != 0 }
    } else if count == bits {
        Shifted { value: 0, out: value & size.msb() != 0 }
    } else {
        Shifted { value: 0, out: false }
    }
}

/// Logical shift right of an operand by a non-zero count.
#[verifier::when_used_as_spec(spec_shift_right)]
pub fn shift_right(size: Size, count: u32, value: u32) -> (r: Shifted)
    requires
        count > 0,
    ensures
        r == spec_shift_right(size, count, value),
{
    let bits: u32 = size_bits(size);
    if count < bits {
        Shifted { value: value >> count, out: (value >> (count - 1) as u32) & 1 != 0 }
    } else if count == bits {
        Shifted { value: 0, out: value & size.msb() != 0 }
    } else {
        Shifted { value: 0, out: false }
    }
}

/// Arithmetic shift right of an operand by a non-zero count.
pub open spec fn spec_shift_right_signed(size: Size, count: u32, value: u32) -> Shifted {
    let bits: u32 = size_bits(size);
    let negative: bool = value & size.msb() != 0;
    if count < bits {
        let fill: u32 = if negative {
            size.mask() & !(size.mask() >> count)
        } else {
            0
        };
        Shifted { value: (value >> count) | fill, out: (value >> (count - 1) as u32) & 1 != 0 }
    } else if negative {
        Shifted { value: size.mask(), out: true }
    } else {
        Shifted { value: 0, out: false }
    }
}

/// Arithmetic shift right of an operand by a non-zero count.
#[verifier::when_used_as_spec(spec_shift_right_signed)]
pub fn shift_right_signed(size: Size, count: u32, value: u32) -> (r: Shifted)
    requires
        count > 0,
    ensures
        r == spec_shift_right_signed(size, count, value),
{
    let bits: u32 = size_bits(size);
    let negative: bool = value & size.msb() != 0;
    if count < bits {
        let fill: u32 = if negative {
            size.mask() & !(size.mask() >> count)
        } else {
            0
        };
        Shifted { value: (value >> count) | fill, out: (value >> (count - 1) as u32) & 1 != 0 }
    } else if negative {
        Shifted { value: size.mask(), out: true }
    } else {
        Shifted { value: 0, out: false }
    }
}

/// Whether an arithmetic shift left changes the sign bit on the way.
pub open spec fn spec_shift_left_overflows(size: Size, count: u32, value: u32) -> bool {
    let bits: u32 = size_bits(size);
    if count >= bits {
        value & size.mask() != 0
    } else {
        let moved: u32 = size.mask() & !((size.mask() >> count) >> 1);
        value & moved != 0 && value & moved != moved
    }
}

/// Whether an arithmetic shift left changes the sign bit on the way.
#[verifier::when_used_as_spec(spec_shift_left_overflows)]
pub fn shift_left_overflows(size: Size, count: u32, value: u32) -> (r: bool)
    ensures
        r == spec_shift_left_overflows(size, count, value),
{
    let bits: u32 = size_bits(size);
    if count >= bits {
        value & size.mask() != 0
    } else {
        let moved: u32 = size.mask() & !((size.mask() >> count) >> 1);
        value & moved != 0 && value & moved != moved
    }
}

/// Rotate left within the operand; the count is below its width.
pub open spec fn spec_rotate_left(size: Size, count: u32, value: u32) -> u32 {
    if count == 0 {
        value
    } else {
        ((value << count) | (value >> (size_bits(size) - count) as u32)) & size.mask()
    }
}

/// Rotate left within the operand; the count is below its width.
#[verifier::when_used_as_spec(spec_rotate_left)]
pub fn rotate_left(size: Size, count: u32, value: u32) -> (r: u32)
    requires
        count < size_bits(size),
    ensures
        r == spec_rotate_left(size, count, value),
{
    if count == 0 {
        value
    } else {
        ((value << count) | (value >> (size_bits(size) - count) as u32)) & size.mask()
    }
}

/// Rotate left through the extend bit, which sits above the operand; the
/// count is at most the width. The result holds the new extend bit there.
pub open spec fn spec_rotate_left_extended(size: Size, count: u32, value: u64) -> u64 {
    let bits: u32 = size_bits(size);
    if count == 0 {
        value
    } else {
        (((value << count as u64) | (value >> (bits + 1 - count) as u64)) & ((1u64 << (bits + 1) as u64) - 1) as u64) as u64
    }
}

/// Rotate left through the extend bit, which sits above the operand; the
/// count is at most the width. The result holds the new extend bit there.
#[verifier::when_used_as_spec(spec_rotate_left_extended)]
pub fn rotate_left_extended(size: Size, count: u32, value: u64) -> (r: u64)
    requires
        count <= size_bits(size),
    ensures
        r == spec_rotate_left_extended(size, count, value),
{
    let bits: u32 = size_bits(size);
    proof {
        lemma_one_shifted(bits);
    }
    if count == 0 {
        value
    } else {
        ((value << count as u64) | (value >> (bits + 1 - count) as u64)) & ((1u64 << (bits + 1) as u64) - 1) as u64
    }
}

/// Sum of two packed decimal bytes and a carry: result, carry out, overflow.
pub open spec fn spec_bcd_add(src: u32, dst: u32, extend: u32) -> (u32, bool, bool) {
    let low: u32 = ((src & 0x0F) + (dst & 0x0F) + extend) as u32;
    let adjust: u32 = if low > 9 {
        6
    } else {
        0
    };
    let high: u32 = ((src & 0xF0) + (dst & 0xF0)) as u32;
    let plain: u32 = (low + high) as u32;
    let sum: u32 = (plain + adjust) as u32;
    let carry: bool = sum > 0x99;
    let result: u32 = if carry {
        sum.wrapping_sub(0xA0) & 0xFF
    } else {
        sum & 0xFF
    };
    (result, carry, !plain & result & 0x80 != 0)
}

/// Sum of two packed decimal bytes and a carry: result, carry out, overflow.
#[verifier::when_used_as_spec(spec_bcd_add)]
pub fn bcd_add(src: u32, dst: u32, extend: u32) -> (r: (u32, bool, bool))
    requires
        extend <= 1,
    ensures
        r == spec_bcd_add(src, dst, extend),
{
    proof {
        lemma_nibbles(src);
        lemma_nibbles(dst);
    }
    let low: u32 = (src & 0x0F) + (dst & 0x0F) + extend;
    let adjust: u32 = if low > 9 {
        6
    } else {
        0
    };
    let high: u32 = (src & 0xF0) + (dst & 0xF0);
    let plain: u32 = low + high;
    let sum: u32 = plain + adjust;
    let carry: bool = sum > 0x99;
    let result: u32 = if carry {
        sum.wrapping_sub(0xA0) & 0xFF
    } else {
        sum & 0xFF
    };
    (result, carry, !plain & result & 0x80 != 0)
}

/// Difference `dst - src` of two packed decimal bytes and a borrow: result,
/// borrow out, overflow.
pub open spec fn spec_bcd_sub(src: u32, dst: u32, extend: u32) -> (u32, bool, bool) {
    let low: u32 = (dst & 0x0F).wrapping_sub(src & 0x0F).wrapping_sub(extend);
    let adjust: u32 = if low > 9 {
        6
    } else {
        0
    };
    let plain: u32 = low.wrapping_add(dst & 0xF0).wrapping_sub(src & 0xF0);
    let borrow: bool = plain > 0x99;
    let corrected: u32 = if borrow {
        plain.wrapping_add(0xA0)
    } else {
        plain
    };
    let result: u32 = corrected.wrapping_sub(adjust) & 0xFF;
    (result, borrow, plain & !result & 0x80 != 0)
}

/// Difference `dst - src` of two packed decimal bytes and a borrow: result,
/// borrow out, overflow.
#[verifier::when_used_as_spec(spec_bcd_sub)]
pub fn bcd_sub(src: u32, dst: u32, extend: u32) -> (r: (u32, bool, bool))
    requires
        extend <= 1,
    ensures
        r == spec_bcd_sub(src, dst, extend),
{
    let low: u32 = (dst & 0x0F).wrapping_sub(src & 0x0F).wrapping_sub(extend);
    let adjust: u32 = if low > 9 {
        6
    } else {
        0
    };
    let plain: u32 = low.wrapping_add(dst & 0xF0).wrapping_sub(src & 0xF0);
    let borrow: bool = plain > 0x99;
    let corrected: u32 = if borrow {
        plain.wrapping_add(0xA0)
    } else {
        plain
    };
    let result: u32 = corrected.wrapping_sub(adjust) & 0xFF;
    (result, borrow, plain & !result & 0x80 != 0)
}

/// Masked digit fields.
pub proof fn lemma_nibbles(v: u32)
    by (bit_vector)
    ensures
        v & 0x0F <= 0x0F,
        v & 0xF0 <= 0xF0,
        v & 63 <= 63,
{
}

/// The modulus of a rotate through the extend bit.
pub proof fn lemma_one_shifted(bits: u32)
    by (bit_vector)
    requires
        bits == 8 || bits == 16 || bits == 32,
    ensures
        1u64 << ((bits + 1) as u64) >= 1,
        1u64 << ((bits + 1) as u64) <= 0x2_0000_0000,
{
}

impl CpuCore {
    /// Flags of a logic operation: N and Z from the result, V and C clear.
    #[verifier::opaque]
    pub open spec fn spec_set_logic_flags(self, result: u32, size: Size) -> CpuCore {
        let c = CpuCore { ccr: Ccr { n_flag: flag(result & size.msb() != 0, NFLAG_SET), ..self.ccr }, ..self };
        let c = CpuCore { ccr: Ccr { not_z_flag: result & size.mask(), ..c.ccr }, ..c };
        let c = CpuCore { ccr: Ccr { v_flag: 0, ..c.ccr }, ..c };
        let c = CpuCore { ccr: Ccr { c_flag: 0, ..c.ccr }, ..c };
        c
    }

    /// Flags of a logic operation: N and Z from the result, V and C clear.
    pub fn set_logic_flags(&mut self, result: u32, size: Size)
        ensures
            *final(self) == old(self).spec_set_logic_flags(result, size),
    {
        proof {
            reveal(CpuCore::spec_set_logic_flags);
        }
        self.ccr.n_flag = flag(result & size.msb() != 0, NFLAG_SET);
        self.ccr.not_z_flag = result & size.mask();
        self.ccr.v_flag = 0;
        self.ccr.c_flag = 0;
    }

    /// Flags of an addition.
    #[verifier::opaque]
    pub open spec fn spec_set_add_flags(self, src: u32, dst: u32, result: u32, size: Size) -> CpuCore {
        let carry: bool = add_carry(src, dst, result, size.msb());
        let c = CpuCore { ccr: Ccr { n_flag: flag(result & size.msb() != 0, NFLAG_SET), ..self.ccr }, ..self };
        let c = CpuCore { ccr: Ccr { not_z_flag: result & size.mask(), ..c.ccr }, ..c };
        let c = CpuCore { ccr: Ccr { v_flag: flag(add_overflow(src, dst, result, size.msb()), VFLAG_SET), ..c.ccr }, ..c };
        let c = CpuCore { ccr: Ccr { c_flag: flag(carry, CFLAG_SET), ..c.ccr }, ..c };
        let c = CpuCore { ccr: Ccr { x_flag: flag(carry, XFLAG_SET), ..c.ccr }, ..c };
        c
    }

    /// Flags of an addition.
    pub fn set_add_flags(&mut self, src: u32, dst: u32, result: u32, size: Size)
        ensures
            *final(self) == old(self).spec_set_add_flags(src, dst, result, size),
    {
        proof {
            reveal(CpuCore::spec_set_add_flags);
        }
        let carry: bool = add_carry(src, dst, result, size.msb());
        self.ccr.n_flag = flag(result & size.msb() != 0, NFLAG_SET);
        self.ccr.not_z_flag = result & size.mask();
        self.ccr.v_flag = flag(add_overflow(src, dst, result, size.msb()), VFLAG_SET);
        self.ccr.c_flag = flag(carry, CFLAG_SET);
        self.ccr.x_flag = flag(carry, XFLAG_SET);
    }

    /// Flags of a comparison `dst - src`: X is left alone.
    #[verifier::opaque]
    pub open spec fn spec_set_compare_flags(self, src: u32, dst: u32, result: u32, size: Size) -> CpuCore {
        let c = CpuCore { ccr: Ccr { n_flag: flag(result & size.msb() != 0, NFLAG_SET), ..self.ccr }, ..self };
        let c = CpuCore { ccr: Ccr { not_z_flag: result & size.mask(), ..c.ccr }, ..c };
        let c = CpuCore { ccr: Ccr { v_flag: flag(sub_overflow(src, dst, result, size.msb()), VFLAG_SET), ..c.ccr }, ..c };
        let c = CpuCore { ccr: Ccr { c_flag: flag(sub_borrow(src, dst, result, size.msb()), CFLAG_SET), ..c.ccr }, ..c };
        c
    }

    /// Flags of a comparison `dst - src`: X is left alone.
    pub fn set_compare_flags(&mut self, src: u32, dst: u32, result: u32, size: Size)
        ensures
            *final(self) == old(self).spec_set_compare_flags(src, dst, result, size),
    {
        proof {
            reveal(CpuCore::spec_set_compare_flags);
        }
        self.ccr.n_flag = flag(result & size.msb() != 0, NFLAG_SET);
        self.ccr.not_z_flag = result & size.mask();
        self.ccr.v_flag = flag(sub_overflow(src, dst, result, size.msb()), VFLAG_SET);
        self.ccr.c_flag = flag(sub_borrow(src, dst, result, size.msb()), CFLAG_SET);
    }

    /// Flags of a subtraction `dst - src`.
    #[verifier::opaque]
    pub open spec fn spec_set_sub_flags(self, src: u32, dst: u32, result: u32, size: Size) -> CpuCore {
        let c = self.spec_set_compare_flags(src, dst, result, size);
        let c = CpuCore { ccr: Ccr { x_flag: flag(sub_borrow(src, dst, result, size.msb()), XFLAG_SET), ..c.ccr }, ..c };
        c
    }

    /// Flags of a subtraction `dst - src`.
    pub fn set_sub_flags(&mut self, src: u32, dst: u32, result: u32, size: Size)
        ensures
            *final(self) == old(self).spec_set_sub_flags(src, dst, result, size),
    {
        proof {
            reveal(CpuCore::spec_set_sub_flags);
        }
        self.set_compare_flags(src, dst, result, size);
        self.ccr.x_flag = flag(sub_borrow(src, dst, result, size.msb()), XFLAG_SET);
    }

    /// The extend bit as a number.
    pub open spec fn spec_extend_bit(&self) -> u32 {
        if self.flag_x() {
            1
        } else {
            0
        }
    }

    /// The extend bit as a number.
    #[verifier::when_used_as_spec(spec_extend_bit)]
    pub fn extend_bit(&self) -> (r: u32)
        ensures
            r == self.spec_extend_bit(),
    {
        if self.flag_x() {
            1
        } else {
            0
        }
    }

    /// Replace the low part of a data register.
    #[verifier::opaque]
    pub open spec fn spec_write_data_reg(self, reg: usize, size: Size, value: u32) -> CpuCore {
        let c = self.spec_set_d(reg, merge(self.d(reg), size, value));
        c
    }

    /// Replace the low part of a data register.
    pub fn write_data_reg(&mut self, reg: usize, size: Size, value: u32)
        ensures
            *final(self) == old(self).spec_write_data_reg(reg, size, value),
    {
        proof {
            reveal(CpuCore::spec_write_data_reg);
        }
        self.set_d(reg, merge(self.d(reg), size, value));
    }

    /// ADD: the sum and its flags.
    #[verifier::opaque]
    pub open spec fn spec_exec_add(self, size: Size, src: u32, dst: u32) -> (CpuCore, (u32, i32)) {
        let result: u32 = dst.wrapping_add(src) & size.mask();
        let c = self.spec_set_add_flags(src, dst, result, size);
        (c, (result, 4))
    }

    /// ADD: the sum and its flags.
    pub fn exec_add(&mut self, size: Size, src: u32, dst: u32) -> (r: (u32, i32))
        ensures
            (*final(self), r) == old(self).spec_exec_add(size, src, dst),
    {
        proof {
            reveal(CpuCore::spec_exec_add);
        }
        let result: u32 = dst.wrapping_add(src) & size.mask();
        self.set_add_flags(src, dst, result, size);
        (result, 4)
    }

    /// SUB: the difference `dst - src` and its flags.
    #[verifier::opaque]
    pub open spec fn spec_exec_sub(self, size: Size, src: u32, dst: u32) -> (CpuCore, (u32, i32)) {
        let result: u32 = dst.wrapping_sub(src) & size.mask();
        let c = self.spec_set_sub_flags(src, dst, result, size);
        (c, (result, 4))
    }

    /// SUB: the difference `dst - src` and its flags.
    pub fn exec_sub(&mut self, size: Size, src: u32, dst: u32) -> (r: (u32, i32))
        ensures
            (*final(self), r) == old(self).spec_exec_sub(size, src, dst),
    {
        proof {
            reveal(CpuCore::spec_exec_sub);
        }
        let result: u32 = dst.wrapping_sub(src) & size.mask();
        self.set_sub_flags(src, dst, result, size);
        (result, 4)
    }

    /// AND and its flags.
    #[verifier::opaque]
    pub open spec fn spec_exec_and(self, size: Size, src: u32, dst: u32) -> (CpuCore, (u32, i32)) {
        let result: u32 = src & dst & size.mask();
        let c = self.spec_set_logic_flags(result, size);
        (c, (result, 4))
    }

    /// AND and its flags.
    pub fn exec_and(&mut self, size: Size, src: u32, dst: u32) -> (r: (u32, i32))
        ensures
            (*final(self), r) == old(self).spec_exec_and(size, src, dst),
    {
        proof {
            reveal(CpuCore::spec_exec_and);
        }
        let result: u32 = src & dst & size.mask();
        self.set_logic_flags(result, size);
        (result, 4)
    }

    /// OR and its flags.
    #[verifier::opaque]
    pub open spec fn spec_exec_or(self, size: Size, src: u32, dst: u32) -> (CpuCore, (u32, i32)) {
        let result: u32 = (src | dst) & size.mask();
        let c = self.spec_set_logic_flags(result, size);
        (c, (result, 4))
    }

    /// OR and its flags.
    pub fn exec_or(&mut self, size: Size, src: u32, dst: u32) -> (r: (u32, i32))
        ensures
            (*final(self), r) == old(self).spec_exec_or(size, src, dst),
    {
        proof {
            reveal(CpuCore::spec_exec_or);
        }
        let result: u32 = (src | dst) & size.mask();
        self.set_logic_flags(result, size);
        (result, 4)
    }

    /// CMP.
    #[verifier::opaque]
    pub open spec fn spec_exec_compare(self, size: Size, src: u32, dst: u32) -> (CpuCore, i32) {
        let d: u32 = dst & size.mask();
        let s: u32 = src & size.mask();
        let c = self.spec_set_compare_flags(s, d, d.wrapping_sub(s) & size.mask(), size);
        (c, 4)
    }

    /// CMP.
    pub fn exec_compare(&mut self, size: Size, src: u32, dst: u32) -> (r: i32)
        ensures
            (*final(self), r) == old(self).spec_exec_compare(size, src, dst),
    {
        proof {
            reveal(CpuCore::spec_exec_compare);
        }
        let d: u32 = dst & size.mask();
        let s: u32 = src & size.mask();
        self.set_compare_flags(s, d, d.wrapping_sub(s) & size.mask(), size);
        4
    }

    /// CMPA: the source is sign-extended.
    #[verifier::opaque]
    pub open spec fn spec_exec_compare_addr(self, size: Size, src: u32, reg: usize) -> (CpuCore, i32) {
        let s: u32 = sign_extend(size, src);
        let d: u32 = self.a(reg);
        let c = self.spec_set_compare_flags(s, d, d.wrapping_sub(s), Size::Long);
        (c, 6)
    }

    /// CMPA: the source is sign-extended.
    pub fn exec_compare_addr(&mut self, size: Size, src: u32, reg: usize) -> (r: i32)
        ensures
            (*final(self), r) == old(self).spec_exec_compare_addr(size, src, reg),
    {
        proof {
            reveal(CpuCore::spec_exec_compare_addr);
        }
        let s: u32 = sign_extend(size, src);
        let d: u32 = self.a(reg);
        self.set_compare_flags(s, d, d.wrapping_sub(s), Size::Long);
        6
    }

    /// ADDA: the source is sign-extended and no flag changes.
    #[verifier::opaque]
    pub open spec fn spec_exec_adda(self, size: Size, src: u32, reg: usize) -> (CpuCore, i32) {
        let c = self.spec_set_a(reg, self.a(reg).wrapping_add(sign_extend(size, src)));
        (c, 8)
    }

    /// ADDA: the source is sign-extended and no flag changes.
    pub fn exec_adda(&mut self, size: Size, src: u32, reg: usize) -> (r: i32)
        ensures
            (*final(self), r) == old(self).spec_exec_adda(size, src, reg),
    {
        proof {
            reveal(CpuCore::spec_exec_adda);
        }
        self.set_a(reg, self.a(reg).wrapping_add(sign_extend(size, src)));
        8
    }

    /// SUBA: the source is sign-extended and no flag changes.
    #[verifier::opaque]
    pub open spec fn spec_exec_suba(self, size: Size, src: u32, reg: usize) -> (CpuCore, i32) {
        let c = self.spec_set_a(reg, self.a(reg).wrapping_sub(sign_extend(size, src)));
        (c, 8)
    }

    /// SUBA: the source is sign-extended and no flag changes.
    pub fn exec_suba(&mut self, size: Size, src: u32, reg: usize) -> (r: i32)
        ensures
            (*final(self), r) == old(self).spec_exec_suba(size, src, reg),
    {
        proof {
            reveal(CpuCore::spec_exec_suba);
        }
        self.set_a(reg, self.a(reg).wrapping_sub(sign_extend(size, src)));
        8
    }

    /// ADDX: Z can only be cleared.
    #[verifier::opaque]
    pub open spec fn spec_exec_addx(self, size: Size, src: u32, dst: u32) -> (CpuCore, u32) {
        let result: u32 = dst.wrapping_add(src).wrapping_add(self.extend_bit()) & size.mask();
        let not_z: u32 = self.ccr.not_z_flag | result;
        let c = self.spec_set_add_flags(src, dst, result, size);
        let c = CpuCore { ccr: Ccr { not_z_flag: not_z, ..c.ccr }, ..c };
        (c, result)
    }

    /// ADDX: Z can only be cleared.
    pub fn exec_addx(&mut self, size: Size, src: u32, dst: u32) -> (r: u32)
        ensures
            (*final(self), r) == old(self).spec_exec_addx(size, src, dst),
    {
        proof {
            reveal(CpuCore::spec_exec_addx);
        }
        let result: u32 = dst.wrapping_add(src).wrapping_add(self.extend_bit()) & size.mask();
        let not_z: u32 = self.ccr.not_z_flag | result;
        self.set_add_flags(src, dst, result, size);
        self.ccr.not_z_flag = not_z;
        result
    }

    /// SUBX: Z can only be cleared.
    #[verifier::opaque]
    pub open spec fn spec_exec_subx(self, size: Size, src: u32, dst: u32) -> (CpuCore, u32) {
        let result: u32 = dst.wrapping_sub(src).wrapping_sub(self.extend_bit()) & size.mask();
        let not_z: u32 = self.ccr.not_z_flag | result;
        let c = self.spec_set_sub_flags(src, dst, result, size);
        let c = CpuCore { ccr: Ccr { not_z_flag: not_z, ..c.ccr }, ..c };
        (c, result)
    }

    /// SUBX: Z can only be cleared.
    pub fn exec_subx(&mut self, size: Size, src: u32, dst: u32) -> (r: u32)
        ensures
            (*final(self), r) == old(self).spec_exec_subx(size, src, dst),
    {
        proof {
            reveal(CpuCore::spec_exec_subx);
        }
        let result: u32 = dst.wrapping_sub(src).wrapping_sub(self.extend_bit()) & size.mask();
        let not_z: u32 = self.ccr.not_z_flag | result;
        self.set_sub_flags(src, dst, result, size);
        self.ccr.not_z_flag = not_z;
        result
    }

    /// Flags of a decimal operation: Z can only be cleared.
    #[verifier::opaque]
    pub open spec fn spec_set_decimal_flags(self, result: (u32, bool, bool)) -> CpuCore {
        let c = CpuCore { ccr: Ccr { n_flag: flag(result.0 & 0x80 != 0, NFLAG_SET), ..self.ccr }, ..self };
        let c = CpuCore { ccr: Ccr { not_z_flag: c.ccr.not_z_flag | result.0, ..c.ccr }, ..c };
        let c = CpuCore { ccr: Ccr { v_flag: flag(result.2, VFLAG_SET), ..c.ccr }, ..c };
        let c = CpuCore { ccr: Ccr { c_flag: flag(result.1, CFLAG_SET), ..c.ccr }, ..c };
        let c = CpuCore { ccr: Ccr { x_flag: flag(result.1, XFLAG_SET), ..c.ccr }, ..c };
        c
    }

    /// Flags of a decimal operation: Z can only be cleared.
    pub fn set_decimal_flags(&mut self, result: (u32, bool, bool))
        ensures
            *final(self) == old(self).spec_set_decimal_flags(result),
    {
        proof {
            reveal(CpuCore::spec_set_decimal_flags);
        }
        self.ccr.n_flag = flag(result.0 & 0x80 != 0, NFLAG_SET);
        self.ccr.not_z_flag = self.ccr.not_z_flag | result.0;
        self.ccr.v_flag = flag(result.2, VFLAG_SET);
        self.ccr.c_flag = flag(result.1, CFLAG_SET);
        self.ccr.x_flag = flag(result.1, XFLAG_SET);
    }

    /// ABCD on two operand bytes.
    #[verifier::opaque]
    pub open spec fn spec_exec_abcd(self, src: u32, dst: u32) -> (CpuCore, u32) {
        let result: (u32, bool, bool) = bcd_add(src & 0xFF, dst & 0xFF, self.extend_bit());
        let c = self.spec_set_decimal_flags(result);
        (c, result.0)
    }

    /// ABCD on two operand bytes.
    pub fn exec_abcd(&mut self, src: u32, dst: u32) -> (r: u32)
        ensures
            (*final(self), r) == old(self).spec_exec_abcd(src, dst),
    {
        proof {
            reveal(CpuCore::spec_exec_abcd);
        }
        let result: (u32, bool, bool) = bcd_add(src & 0xFF, dst & 0xFF, self.extend_bit());
        self.set_decimal_flags(result);
        result.0
    }

    /// SBCD on two operand bytes.
    #[verifier::opaque]
    pub open spec fn spec_exec_sbcd(self, src: u32, dst: u32) -> (CpuCore, u32) {
        let result: (u32, bool, bool) = bcd_sub(src & 0xFF, dst & 0xFF, self.extend_bit());
        let c = self.spec_set_decimal_flags(result);
        (c, result.0)
    }

    /// SBCD on two operand bytes.
    pub fn exec_sbcd(&mut self, src: u32, dst: u32) -> (r: u32)
        ensures
            (*final(self), r) == old(self).spec_exec_sbcd(src, dst),
    {
        proof {
            reveal(CpuCore::spec_exec_sbcd);
        }
        let result: (u32, bool, bool) = bcd_sub(src & 0xFF, dst & 0xFF, self.extend_bit());
        self.set_decimal_flags(result);
        result.0
    }

    /// ABCD Dy,Dx.
    #[verifier::opaque]
    pub open spec fn spec_exec_abcd_rr(self, src: usize, dst: usize) -> (CpuCore, i32) {
        let (c, result) = self.spec_exec_abcd(self.d(src), self.d(dst));
        let c = c.spec_write_data_reg(dst, Size::Byte, result);
        (c, 6)
    }

    /// ABCD Dy,Dx.
    pub fn exec_abcd_rr(&mut self, src: usize, dst: usize) -> (r: i32)
        ensures
            (*final(self), r) == old(self).spec_exec_abcd_rr(src, dst),
    {
        proof {
            reveal(CpuCore::spec_exec_abcd_rr);
        }
        let result: u32 = self.exec_abcd(self.d(src), self.d(dst));
        self.write_data_reg(dst, Size::Byte, result);
        6
    }

    /// SBCD Dy,Dx.
    #[verifier::opaque]
    pub open spec fn spec_exec_sbcd_rr(self, src: usize, dst: usize) -> (CpuCore, i32) {
        let (c, result) = self.spec_exec_sbcd(self.d(src), self.d(dst));
        let c = c.spec_write_data_reg(dst, Size::Byte, result);
        (c, 6)
    }

    /// SBCD Dy,Dx.
    pub fn exec_sbcd_rr(&mut self, src: usize, dst: usize) -> (r: i32)
        ensures
            (*final(self), r) == old(self).spec_exec_sbcd_rr(src, dst),
    {
        proof {
            reveal(CpuCore::spec_exec_sbcd_rr);
        }
        let result: u32 = self.exec_sbcd(self.d(src), self.d(dst));
        self.write_data_reg(dst, Size::Byte, result);
        6
    }

    /// SWAP.
    #[verifier::opaque]
    pub open spec fn spec_exec_swap(self, reg: usize) -> (CpuCore, i32) {
        let v: u32 = self.d(reg);
        let result: u32 = (v >> 16) | (v << 16);
        let c = self.spec_set_d(reg, result);
        let c = c.spec_set_logic_flags(result, Size::Long);
        (c, 4)
    }

    /// SWAP.
    pub fn exec_swap(&mut self, reg: usize) -> (r: i32)
        ensures
            (*final(self), r) == old(self).spec_exec_swap(reg),
    {
        proof {
            reveal(CpuCore::spec_exec_swap);
        }
        let v: u32 = self.d(reg);
        let result: u32 = (v >> 16) | (v << 16);
        self.set_d(reg, result);
        self.set_logic_flags(result, Size::Long);
        4
    }

    /// EXT.W and EXT.L.
    #[verifier::opaque]
    pub open spec fn spec_exec_ext(self, size: Size, reg: usize) -> (CpuCore, i32) {
        let c = if size == Size::Word {
            let result: u32 = sext8(self.d(reg) as u8) & 0xFFFF;
            let c = self.spec_write_data_reg(reg, Size::Word, result);
            let c = c.spec_set_logic_flags(result, Size::Word);
            c
        } else {
            let result: u32 = sext16(self.d(reg) as u16);
            let c = self.spec_set_d(reg, result);
            let c = c.spec_set_logic_flags(result, Size::Long);
            c
        };
        (c, 4)
    }

    /// EXT.W and EXT.L.
    pub fn exec_ext(&mut self, size: Size, reg: usize) -> (r: i32)
        ensures
            (*final(self), r) == old(self).spec_exec_ext(size, reg),
    {
        proof {
            reveal(CpuCore::spec_exec_ext);
        }
        if size == Size::Word {
            let result: u32 = sext8(self.d(reg) as u8) & 0xFFFF;
            self.write_data_reg(reg, Size::Word, result);
            self.set_logic_flags(result, Size::Word);
        } else {
            let result: u32 = sext16(self.d(reg) as u16);
            self.set_d(reg, result);
            self.set_logic_flags(result, Size::Long);
        }
        4
    }

    /// EXTB.L.
    #[verifier::opaque]
    pub open spec fn spec_exec_extb(self, reg: usize) -> (CpuCore, i32) {
        let result: u32 = sext8(self.d(reg) as u8);
        let c = self.spec_set_d(reg, result);
        let c = c.spec_set_logic_flags(result, Size::Long);
        (c, 4)
    }

    /// EXTB.L.
    pub fn exec_extb(&mut self, reg: usize) -> (r: i32)
        ensures
            (*final(self), r) == old(self).spec_exec_extb(reg),
    {
        proof {
            reveal(CpuCore::spec_exec_extb);
        }
        let result: u32 = sext8(self.d(reg) as u8);
        self.set_d(reg, result);
        self.set_logic_flags(result, Size::Long);
        4
    }

    /// EXG: two data registers, two address registers, or one of each.
    #[verifier::opaque]
    pub open spec fn spec_exec_exg(self, opcode: u16) -> (CpuCore, i32) {
        let rx: usize = ((opcode >> 9) & 7) as usize;
        let ry: usize = (opcode & 7) as usize;
        let c = match (opcode >> 3) & 0x1F {
            0x08 => {
                let x: u32 = self.d(rx);
                let c = self.spec_set_d(rx, self.d(ry));
                let c = c.spec_set_d(ry, x);
                c
            },
            0x09 => {
                let x: u32 = self.a(rx);
                let c = self.spec_set_a(rx, self.a(ry));
                let c = c.spec_set_a(ry, x);
                c
            },
            _ => {
                let x: u32 = self.d(rx);
                let c = self.spec_set_d(rx, self.a(ry));
                let c = c.spec_set_a(ry, x);
                c
            },
        };
        (c, 6)
    }

    /// EXG: two data registers, two address registers, or one of each.
    pub fn exec_exg(&mut self, opcode: u16) -> (r: i32)
        ensures
            (*final(self), r) == old(self).spec_exec_exg(opcode),
    {
        proof {
            reveal(CpuCore::spec_exec_exg);
        }
        let rx: usize = ((opcode >> 9) & 7) as usize;
        let ry: usize = (opcode & 7) as usize;
        match (opcode >> 3) & 0x1F {
            0x08 => {
                let x: u32 = self.d(rx);
                self.set_d(rx, self.d(ry));
                self.set_d(ry, x);
            },
            0x09 => {
                let x: u32 = self.a(rx);
                self.set_a(rx, self.a(ry));
                self.set_a(ry, x);
            },
            _ => {
                let x: u32 = self.d(rx);
                self.set_d(rx, self.a(ry));
                self.set_a(ry, x);
            },
        }
        6
    }

    /// Clocks of a register shift or rotate.
    pub open spec fn spec_shift_cycles(&self, size: Size, count: u32) -> i32 {
        let base: i32 = if size == Size::Long {
            8
        } else {
            6
        };
        base.wrapping_add(((count & 63) as i32).wrapping_mul(2))
    }

    /// Clocks of a register shift or rotate.
    #[verifier::when_used_as_spec(spec_shift_cycles)]
    pub fn shift_cycles(&self, size: Size, count: u32) -> (r: i32)
        ensures
            r == self.spec_shift_cycles(size, count),
    {
        let base: i32 = if size == Size::Long {
            8
        } else {
            6
        };
        base.wrapping_add(((count & 63) as i32).wrapping_mul(2))
    }

    /// N, Z and C of a shift or rotate; V clear.
    #[verifier::opaque]
    pub open spec fn spec_set_shift_flags(self, result: u32, size: Size, out: bool) -> CpuCore {
        let c = CpuCore { ccr: Ccr { n_flag: flag(result & size.msb() != 0, NFLAG_SET), ..self.ccr }, ..self };
        let c = CpuCore { ccr: Ccr { not_z_flag: result & size.mask(), ..c.ccr }, ..c };
        let c = CpuCore { ccr: Ccr { v_flag: 0, ..c.ccr }, ..c };
        let c = CpuCore { ccr: Ccr { c_flag: flag(out, CFLAG_SET), ..c.ccr }, ..c };
        c
    }

    /// N, Z and C of a shift or rotate; V clear.
    pub fn set_shift_flags(&mut self, result: u32, size: Size, out: bool)
        ensures
            *final(self) == old(self).spec_set_shift_flags(result, size, out),
    {
        proof {
            reveal(CpuCore::spec_set_shift_flags);
        }
        self.ccr.n_flag = flag(result & size.msb() != 0, NFLAG_SET);
        self.ccr.not_z_flag = result & size.mask();
        self.ccr.v_flag = 0;
        self.ccr.c_flag = flag(out, CFLAG_SET);
    }

    /// ASL.
    #[verifier::opaque]
    pub open spec fn spec_exec_asl(self, size: Size, count: u32, value: u32) -> (CpuCore, (u32, i32)) {
        if count == 0 {
            let c = self.spec_set_shift_flags(value, size, false);
            (c, (value, c.shift_cycles(size, count)))
        } else {
            let r: Shifted = shift_left(size, count, value);
            let c = self.spec_set_shift_flags(r.value, size, r.out);
            let c = CpuCore { ccr: Ccr { v_flag: flag(shift_left_overflows(size, count, value), VFLAG_SET), ..c.ccr }, ..c };
            let c = CpuCore { ccr: Ccr { x_flag: flag(r.out, XFLAG_SET), ..c.ccr }, ..c };
            (c, (r.value, c.shift_cycles(size, count)))
        }
    }

    /// ASL.
    pub fn exec_asl(&mut self, size: Size, count: u32, value: u32) -> (r: (u32, i32))
        ensures
            (*final(self), r) == old(self).spec_exec_asl(size, count, value),
    {
        proof {
            reveal(CpuCore::spec_exec_asl);
        }
        if count == 0 {
            self.set_shift_flags(value, size, false);
            return (value, self.shift_cycles(size, count));
        }
        let r: Shifted = shift_left(size, count, value);
        self.set_shift_flags(r.value, size, r.out);
        self.ccr.v_flag = flag(shift_left_overflows(size, count, value), VFLAG_SET);
        self.ccr.x_flag = flag(r.out, XFLAG_SET);
        (r.value, self.shift_cycles(size, count))
    }

    /// ASR.
    #[verifier::opaque]
    pub open spec fn spec_exec_asr(self, size: Size, count: u32, value: u32) -> (CpuCore, (u32, i32)) {
        if count == 0 {
            let c = self.spec_set_shift_flags(value, size, false);
            (c, (value, c.shift_cycles(size, count)))
        } else {
            let r: Shifted = shift_right_signed(size, count, value);
            let c = self.spec_set_shift_flags(r.value, size, r.out);
            let c = CpuCore { ccr: Ccr { x_flag: flag(r.out, XFLAG_SET), ..c.ccr }, ..c };
            (c, (r.value, c.shift_cycles(size, count)))
        }
    }

    /// ASR.
    pub fn exec_asr(&mut self, size: Size, count: u32, value: u32) -> (r: (u32, i32))
        ensures
            (*final(self), r) == old(self).spec_exec_asr(size, count, value),
    {
        proof {
            reveal(CpuCore::spec_exec_asr);
        }
        if count == 0 {
            self.set_shift_flags(value, size, false);
            return (value, self.shift_cycles(size, count));
        }
        let r: Shifted = shift_right_signed(size, count, value);
        self.set_shift_flags(r.value, size, r.out);
        self.ccr.x_flag = flag(r.out, XFLAG_SET);
        (r.value, self.shift_cycles(size, count))
    }

    /// LSL.
    #[verifier::opaque]
    pub open spec fn spec_exec_lsl(self, size: Size, count: u32, value: u32) -> (CpuCore, (u32, i32)) {
        if count == 0 {
            let c = self.spec_set_shift_flags(value, size, false);
            (c, (value, c.shift_cycles(size, count)))
        } else {
            let r: Shifted = shift_left(size, count, value);
            let c = self.spec_set_shift_flags(r.value, size, r.out);
            let c = CpuCore { ccr: Ccr { x_flag: flag(r.out, XFLAG_SET), ..c.ccr }, ..c };
            (c, (r.value, c.shift_cycles(size, count)))
        }
    }

    /// LSL.
    pub fn exec_lsl(&mut self, size: Size, count: u32, value: u32) -> (r: (u32, i32))
        ensures
            (*final(self), r) == old(self).spec_exec_lsl(size, count, value),
    {
        proof {
            reveal(CpuCore::spec_exec_lsl);
        }
        if count == 0 {
            self.set_shift_flags(value, size, false);
            return (value, self.shift_cycles(size, count));
        }
        let r: Shifted = shift_left(size, count, value);
        self.set_shift_flags(r.value, size, r.out);
        self.ccr.x_flag = flag(r.out, XFLAG_SET);
        (r.value, self.shift_cycles(size, count))
    }

    /// LSR.
    #[verifier::opaque]
    pub open spec fn spec_exec_lsr(self, size: Size, count: u32, value: u32) -> (CpuCore, (u32, i32)) {
        if count == 0 {
            let c = self.spec_set_shift_flags(value, size, false);
            (c, (value, c.shift_cycles(size, count)))
        } else {
            let r: Shifted = shift_right(size, count, value);
            let c = self.spec_set_shift_flags(r.value, size, r.out);
            let c = CpuCore { ccr: Ccr { x_flag: flag(r.out, XFLAG_SET), ..c.ccr }, ..c };
            (c, (r.value, c.shift_cycles(size, count)))
        }
    }

    /// LSR.
    pub fn exec_lsr(&mut self, size: Size, count: u32, value: u32) -> (r: (u32, i32))
        ensures
            (*final(self), r) == old(self).spec_exec_lsr(size, count, value),
    {
        proof {
            reveal(CpuCore::spec_exec_lsr);
        }
        if count == 0 {
            self.set_shift_flags(value, size, false);
            return (value, self.shift_cycles(size, count));
        }
        let r: Shifted = shift_right(size, count, value);
        self.set_shift_flags(r.value, size, r.out);
        self.ccr.x_flag = flag(r.out, XFLAG_SET);
        (r.value, self.shift_cycles(size, count))
    }

    /// ROL: the bit moved round is also the carry.
    #[verifier::opaque]
    pub open spec fn spec_exec_rol(self, size: Size, count: u32, value: u32) -> (CpuCore, (u32, i32)) {
        let r: u32 = rotate_left(size, count % size_bits(size), value);
        let c = self.spec_set_shift_flags(r, size, count != 0 && r & 1 != 0);
        (c, (r, c.shift_cycles(size, count)))
    }

    /// ROL: the bit moved round is also the carry.
    pub fn exec_rol(&mut self, size: Size, count: u32, value: u32) -> (r: (u32, i32))
        ensures
            (*final(self), r) == old(self).spec_exec_rol(size, count, value),
    {
        proof {
            reveal(CpuCore::spec_exec_rol);
        }
        let r: u32 = rotate_left(size, count % size_bits(size), value);
        self.set_shift_flags(r, size, count != 0 && r & 1 != 0);
        (r, self.shift_cycles(size, count))
    }

    /// ROR: the bit moved round is also the carry.
    #[verifier::opaque]
    pub open spec fn spec_exec_ror(self, size: Size, count: u32, value: u32) -> (CpuCore, (u32, i32)) {
        let bits: u32 = size_bits(size);
        let r: u32 = rotate_left(size, ((bits - count % bits) as u32) % bits, value);
        let c = self.spec_set_shift_flags(r, size, count != 0 && r & size.msb() != 0);
        (c, (r, c.shift_cycles(size, count)))
    }

    /// ROR: the bit moved round is also the carry.
    pub fn exec_ror(&mut self, size: Size, count: u32, value: u32) -> (r: (u32, i32))
        ensures
            (*final(self), r) == old(self).spec_exec_ror(size, count, value),
    {
        proof {
            reveal(CpuCore::spec_exec_ror);
        }
        let bits: u32 = size_bits(size);
        let r: u32 = rotate_left(size, ((bits - count % bits) as u32) % bits, value);
        self.set_shift_flags(r, size, count != 0 && r & size.msb() != 0);
        (r, self.shift_cycles(size, count))
    }

    /// Rotate through the extend bit, to the left by `steps`.
    #[verifier::opaque]
    pub open spec fn spec_rotate_through_extend(self, size: Size, steps: u32, value: u32) -> (CpuCore, u32) {
        let bits: u32 = size_bits(size);
        let wide: u64 = (value as u64) | ((self.extend_bit() as u64) << bits as u64);
        let r: u64 = rotate_left_extended(size, steps, wide);
        let out: bool = (r >> bits as u64) & 1 != 0;
        let result: u32 = (r as u32) & size.mask();
        let c = self.spec_set_shift_flags(result, size, out);
        let c = CpuCore { ccr: Ccr { x_flag: flag(out, XFLAG_SET), ..c.ccr }, ..c };
        (c, result)
    }

    /// Rotate through the extend bit, to the left by `steps`.
    pub fn rotate_through_extend(&mut self, size: Size, steps: u32, value: u32) -> (r: u32)
        requires
            steps <= size_bits(size),
        ensures
            (*final(self), r) == old(self).spec_rotate_through_extend(size, steps, value),
    {
        proof {
            reveal(CpuCore::spec_rotate_through_extend);
        }
        let bits: u32 = size_bits(size);
        let wide: u64 = (value as u64) | ((self.extend_bit() as u64) << bits as u64);
        let r: u64 = rotate_left_extended(size, steps, wide);
        let out: bool = (r >> bits as u64) & 1 != 0;
        let result: u32 = (r as u32) & size.mask();
        self.set_shift_flags(result, size, out);
        self.ccr.x_flag = flag(out, XFLAG_SET);
        result
    }

    /// ROXL.
    #[verifier::opaque]
    pub open spec fn spec_exec_roxl(self, size: Size, count: u32, value: u32) -> (CpuCore, (u32, i32)) {
        let (c, r) = self.spec_rotate_through_extend(size, count % ((size_bits(size) + 1) as u32), value);
        (c, (r, c.shift_cycles(size, count)))
    }

    /// ROXL.
    pub fn exec_roxl(&mut self, size: Size, count: u32, value: u32) -> (r: (u32, i32))
        ensures
            (*final(self), r) == old(self).spec_exec_roxl(size, count, value),
    {
        proof {
            reveal(CpuCore::spec_exec_roxl);
        }
        let r: u32 = self.rotate_through_extend(size, count % ((size_bits(size) + 1) as u32), value);
        (r, self.shift_cycles(size, count))
    }

    /// ROXR.
    #[verifier::opaque]
    pub open spec fn spec_exec_roxr(self, size: Size, count: u32, value: u32) -> (CpuCore, (u32, i32)) {
        let turn: u32 = (size_bits(size) + 1) as u32;
        let (c, r) = self.spec_rotate_through_extend(size, ((turn - count % turn) as u32) % turn, value);
        (c, (r, c.shift_cycles(size, count)))
    }

    /// ROXR.
    pub fn exec_roxr(&mut self, size: Size, count: u32, value: u32) -> (r: (u32, i32))
        ensures
            (*final(self), r) == old(self).spec_exec_roxr(size, count, value),
    {
        proof {
            reveal(CpuCore::spec_exec_roxr);
        }
        let turn: u32 = (size_bits(size) + 1) as u32;
        let r: u32 = self.rotate_through_extend(size, ((turn - count % turn) as u32) % turn, value);
        (r, self.shift_cycles(size, count))
    }

    /// The shift or rotate named by its type and direction fields.
    #[verifier::opaque]
    pub open spec fn spec_exec_shift(self, op: u16, direction: u16, size: Size, count: u32, value: u32) -> (CpuCore, (u32, i32)) {
        if op == 0 {
            if direction == 0 {
                self.spec_exec_asr(size, count, value)
            } else {
                self.spec_exec_asl(size, count, value)
            }
        } else {
            if op == 1 {
                if direction == 0 {
                    self.spec_exec_lsr(size, count, value)
                } else {
                    self.spec_exec_lsl(size, count, value)
                }
            } else {
                if op == 2 {
                    if direction == 0 {
                        self.spec_exec_roxr(size, count, value)
                    } else {
                        self.spec_exec_roxl(size, count, value)
                    }
                } else {
                    if direction == 0 {
                        self.spec_exec_ror(size, count, value)
                    } else {
                        self.spec_exec_rol(size, count, value)
                    }
                }
            }
        }
    }

    /// The shift or rotate named by its type and direction fields.
    pub fn exec_shift(&mut self, op: u16, direction: u16, size: Size, count: u32, value: u32) -> (r: (u32, i32))
        ensures
            (*final(self), r) == old(self).spec_exec_shift(op, direction, size, count, value),
    {
        proof {
            reveal(CpuCore::spec_exec_shift);
        }
        if op == 0 {
            if direction == 0 {
                return self.exec_asr(size, count, value);
            }
            return self.exec_asl(size, count, value);
        }
        if op == 1 {
            if direction == 0 {
                return self.exec_lsr(size, count, value);
            }
            return self.exec_lsl(size, count, value);
        }
        if op == 2 {
            if direction == 0 {
                return self.exec_roxr(size, count, value);
            }
            return self.exec_roxl(size, count, value);
        }
        if direction == 0 {
            return self.exec_ror(size, count, value);
        }
        self.exec_rol(size, count, value)
    }
}

} // verus!
