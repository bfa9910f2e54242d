//! Laws of the shifts and rotates: where each bit of the operand goes.

use vstd::prelude::*;
use crate::alu::size_bits;
use crate::cpu::CpuCore;
use crate::laws_arith::{in_size, signed};
use crate::types::Size;

verus! {

/// Bit `i` of a value.
pub open spec fn bit(value: u32, i: int) -> bool {
    (value >> (i as u32)) & 1 == 1
}

/// Bit `i` of an operand with the extend bit above it.
pub open spec fn bit_or_extend(size: Size, value: u32, extend: bool, i: int) -> bool {
    if i == size_bits(size) {
        extend
    } else {
        bit(value, i)
    }
}

/// N and Z say what a result of the operand size is.
pub open spec fn tells_result(cpu: CpuCore, size: Size, result: u32) -> bool {
    &&& cpu.flag_n() == (signed(size, result) < 0)
    &&& cpu.flag_z() == (result == 0)
}

/// What a shift or rotate does: `kind` is 0 for the arithmetic shifts, 1 for
/// the logical ones, 2 for the rotates through the extend bit and 3 for the
/// plain rotates. Going left bit `i` moves up by `count`, going right down.
pub open spec fn is_shift(
    before: CpuCore,
    after: CpuCore,
    kind: int,
    left: bool,
    size: Size,
    count: int,
    value: u32,
    result: u32,
) -> bool {
    let bits = size_bits(size) as int;
    &&& in_size(size, result)
    &&& tells_result(after, size, result)
    &&& !(kind == 0 && left) ==> !after.flag_v()
    &&& kind == 0 || kind == 1 ==> {
        &&& left ==> forall|i: int|
            0 <= i < bits ==> (#[trigger] bit(result, i) <==> i >= count && bit(value, i - count))
        &&& !left && kind == 1 ==> forall|i: int|
            0 <= i < bits ==> (#[trigger] bit(result, i) <==> i + count < bits && bit(value, i + count))
        &&& !left && kind == 0 ==> forall|i: int|
            0 <= i < bits ==> (#[trigger] bit(result, i) <==> bit(
                value,
                if i + count < bits { i + count } else { bits - 1 },
            ))
        &&& count == 0 ==> !after.flag_c() && after.flag_x() == before.flag_x()
        &&& count > 0 ==> after.flag_x() == after.flag_c()
        &&& count > 0 && left ==> (after.flag_c() <==> count <= bits && bit(value, bits - count))
        &&& count > 0 && !left && kind == 1 ==> (after.flag_c() <==> count <= bits && bit(
            value,
            count - 1,
        ))
        &&& count > 0 && !left && kind == 0 ==> (after.flag_c() <==> bit(
            value,
            if count < bits { count - 1 } else { bits - 1 },
        ))
    }
    &&& kind == 2 ==> {
        &&& left ==> forall|i: int|
            0 <= i <= bits ==> (bit_or_extend(size, result, after.flag_x(), (i + count) % (bits + 1))
                <==> #[trigger] bit_or_extend(size, value, before.flag_x(), i))
        &&& !left ==> forall|i: int|
            0 <= i <= bits ==> (#[trigger] bit_or_extend(size, result, after.flag_x(), i)
                <==> bit_or_extend(size, value, before.flag_x(), (i + count) % (bits + 1)))
        &&& after.flag_c() == after.flag_x()
    }
    &&& kind == 3 ==> {
        &&& left ==> forall|i: int|
            0 <= i < bits ==> (bit(result, (i + count) % bits) <==> #[trigger] bit(value, i))
        &&& !left ==> forall|i: int|
            0 <= i < bits ==> (#[trigger] bit(result, i) <==> bit(value, (i + count) % bits))
        &&& after.flag_x() == before.flag_x()
        &&& after.flag_c() == (count > 0 && bit(result, if left { 0 } else { bits - 1 }))
    }
}

/// Shifted operands, bit by bit.
proof fn lemma_shifted(v: u32, n: u32, bits: u32, mask: u32, msb: u32, i: u32)
    by (bit_vector)
    requires
        bits == 8 && mask == 0xFF && msb == 0x80 || bits == 16 && mask == 0xFFFF && msb == 0x8000 || bits
            == 32 && mask == 0xFFFF_FFFF && msb == 0x8000_0000,
        v <= mask,
        n < bits,
        i < bits,
    ensures
        i >= n ==> (((v << n) & mask) >> i) & 1 == (v >> ((i - n) as u32)) & 1,
        i < n ==> (((v << n) & mask) >> i) & 1 == 0,
        i + n < bits ==> ((v >> n) >> i) & 1 == (v >> ((i + n) as u32)) & 1,
        i + n >= bits ==> ((v >> n) >> i) & 1 == 0,
        v & msb != 0 && i + n < bits ==> (((v >> n) | (mask & !(mask >> n))) >> i) & 1 == (v >> ((i
            + n) as u32)) & 1,
        v & msb != 0 && i + n >= bits ==> (((v >> n) | (mask & !(mask >> n))) >> i) & 1 == 1,
        (v & msb != 0) == ((v >> ((bits - 1) as u32)) & 1 == 1),
        (v & msb != 0) == (v >= msb),
        (v & 1 != 0) == ((v >> 0u32) & 1 == 1),
        (mask >> i) & 1 == 1,
        (0u32 >> i) & 1 == 0,
        ((v >> i) & 1 != 0) == ((v >> i) & 1 == 1),
        (v << n) & mask <= mask,
        v >> n <= mask,
        (v >> n) | 0 == v >> n,
        (v >> n) | (mask & !(mask >> n)) <= mask,
        v & mask == v,
        ((v << n) & mask) & mask == (v << n) & mask,
{
}

/// An operand rotated left, bit by bit.
pub proof fn lemma_rotated(v: u32, n: u32, bits: u32, mask: u32, i: u32, j: u32, r: u32)
    by (bit_vector)
    requires
        bits == 8 && mask == 0xFF || bits == 16 && mask == 0xFFFF || bits == 32 && mask
            == 0xFFFF_FFFF,
        v <= mask,
        0 < n < bits,
        i < bits,
        j == (if i + n >= bits { (i + n - bits) as u32 } else { (i + n) as u32 }),
        r == ((v << n) | (v >> ((bits - n) as u32))) & mask,
    ensures
        (r >> j) & 1 == (v >> i) & 1,
        r <= mask,
        ((r << ((bits - n) as u32)) | (r >> n)) & mask == v,
{
}

/// An operand rotated left through the extend bit, bit by bit.
proof fn lemma_rotated_extended(w: u64, n: u32, bits: u32, i: u32, j: u32, r: u64, x: u64, v: u32)
    by (bit_vector)
    requires
        bits == 8 && v <= 0xFF || bits == 16 && v <= 0xFFFF || bits == 32,
        x <= 1,
        w == (v as u64) | (x << (bits as u64)),
        n <= bits,
        i <= bits,
        j == (if i + n > bits { (i + n - bits - 1) as u32 } else { (i + n) as u32 }),
        r == (if n == 0 { w } else { ((w << (n as u64)) | (w >> ((bits + 1 - n) as u64))) & (((1u64 << ((bits
            + 1) as u64)) - 1) as u64) }),
    ensures
        i < bits && j < bits ==> ((((r as u32) & (if bits == 8 { 0xFFu32 } else if bits == 16 { 0xFFFF } else {
            0xFFFF_FFFF
        })) >> j) & 1 == 1) == ((v >> i) & 1 == 1),
        i == bits && j < bits ==> ((((r as u32) & (if bits == 8 { 0xFFu32 } else if bits == 16 { 0xFFFF } else {
            0xFFFF_FFFF
        })) >> j) & 1 == 1) == (x == 1),
        i < bits && j == bits ==> ((r >> (bits as u64)) & 1 != 0) == ((v >> i) & 1 == 1),
        i == bits && j == bits ==> ((r >> (bits as u64)) & 1 != 0) == (x == 1),
        bits == 8 ==> (r as u32) & 0xFF <= 0xFF,
        bits == 16 ==> (r as u32) & 0xFFFF <= 0xFFFF,
{
}

/// The plain rotate to the left.
proof fn lemma_rotate(size: Size, steps: u32, value: u32)
    requires
        in_size(size, value),
        steps < size_bits(size),
    ensures
        ({
            let r = crate::alu::rotate_left(size, steps, value);
            &&& in_size(size, r)
            &&& forall|i: int|
                0 <= i < size_bits(size) ==> (bit(r, (i + steps) % size_bits(size) as int)
                    <==> #[trigger] bit(value, i))
        }),
{
    let bits = size_bits(size);
    let r = crate::alu::rotate_left(size, steps, value);
    if steps > 0 {
        lemma_rotated(value, steps, bits, size.mask(), 0, steps, r);
    }
    assert forall|i: int| 0 <= i < bits implies (bit(r, (i + steps) % bits as int)
        <==> #[trigger] bit(value, i)) by {
        lemma_turn(i + steps, bits as int);
        if steps > 0 {
            let j = if i + steps >= bits { (i + steps - bits) as u32 } else { (i + steps) as u32 };
            lemma_rotated(value, steps, bits, size.mask(), i as u32, j, r);
        }
    }
}

/// A remainder of a number below twice the divisor.
proof fn lemma_turn(n: int, d: int)
    requires
        0 <= n < 2 * d,
    ensures
        n % d == (if n >= d { n - d } else { n }),
{
    if n >= d {
        vstd::arithmetic::div_mod::lemma_fundamental_div_mod_converse(n, d, 1, n - d);
    } else {
        vstd::arithmetic::div_mod::lemma_small_mod(n as nat, d as nat);
    }
}

/// Positions modulo a width: a count counts as its remainder, and turning
/// the rest of the way round undoes it.
proof fn lemma_positions(i: int, count: int, d: int)
    requires
        0 <= i < d,
        0 <= count,
    ensures
        (i + count) % d == (i + count % d) % d,
        ((i + count) % d + (d - count % d) % d) % d == i,
        0 <= (i + count) % d < d,
        0 <= count % d < d,
        0 <= (d - count % d) % d < d,
{
    vstd::arithmetic::div_mod::lemma_add_mod_noop_right(i, count, d);
    vstd::arithmetic::div_mod::lemma_mod_bound(count, d);
    vstd::arithmetic::div_mod::lemma_mod_bound(i + count, d);
    let c = count % d;
    lemma_turn(i + c, d);
    lemma_turn(d - c, d);
    lemma_turn((i + c) % d + (d - c) % d, d);
}

/// The rotate through the extend bit to the left.
proof fn lemma_rotate_extended(cpu: CpuCore, size: Size, steps: u32, value: u32)
    requires
        in_size(size, value),
        steps <= size_bits(size),
    ensures
        ({
            let bits = size_bits(size) as int;
            let (c, r) = cpu.spec_rotate_through_extend(size, steps, value);
            &&& in_size(size, r)
            &&& tells_result(c, size, r)
            &&& !c.flag_v()
            &&& c.flag_c() == c.flag_x()
            &&& forall|i: int|
                0 <= i <= bits ==> (bit_or_extend(size, r, c.flag_x(), (i + steps) % (bits + 1))
                    <==> #[trigger] bit_or_extend(size, value, cpu.flag_x(), i))
        }),
{
    reveal(CpuCore::spec_rotate_through_extend);
    reveal(CpuCore::spec_set_shift_flags);
    let bits = size_bits(size);
    let (c, r) = cpu.spec_rotate_through_extend(size, steps, value);
    let x = cpu.extend_bit() as u64;
    let wide = (value as u64) | (x << (bits as u64));
    let turned = crate::alu::rotate_left_extended(size, steps, wide);
    crate::alu::lemma_one_shifted(bits);
    lemma_rotated_extended(wide, steps, bits, 0, steps, turned, x, value);
    crate::laws_fast::lemma_masked(0, 0, turned as u32);
    lemma_shifted(r, 0, bits, size.mask(), size.msb(), 0);
    assert forall|i: int| 0 <= i <= bits implies (bit_or_extend(
        size,
        r,
        c.flag_x(),
        (i + steps) % (bits + 1),
    ) <==> #[trigger] bit_or_extend(size, value, cpu.flag_x(), i)) by {
        lemma_turn(i + steps, bits + 1);
        let j = if i + steps > bits { (i + steps - bits - 1) as u32 } else { (i + steps) as u32 };
        lemma_rotated_extended(wide, steps, bits, i as u32, j, turned, x, value);
    }
}

/// Shifts and rotates move bits: up for the left ones and down for the right
/// ones, filling with zeros, with the sign, or with what was moved out; the
/// last bit moved out is the carry, and N and Z tell the result. The extend
/// bit takes the carry, but for the plain rotates and for a shift by zero.
pub proof fn law_shifts_move_bits(
    cpu: CpuCore,
    op: u16,
    direction: u16,
    size: Size,
    count: u32,
    value: u32,
)
    requires
        in_size(size, value),
        op < 4,
        direction < 2,
    ensures
        ({
            let (c, out) = cpu.spec_exec_shift(op, direction, size, count, value);
            is_shift(cpu, c, op as int, direction == 1, size, count as int, value, out.0)
        }),
{
    reveal(CpuCore::spec_exec_shift);
    reveal(CpuCore::spec_set_shift_flags);
    let bits = size_bits(size);
    let (c, out) = cpu.spec_exec_shift(op, direction, size, count, value);
    let r = out.0;
    lemma_shifted(value, 0, bits, size.mask(), size.msb(), 0);
    if op < 2 {
        reveal(CpuCore::spec_exec_asl);
        reveal(CpuCore::spec_exec_asr);
        reveal(CpuCore::spec_exec_lsl);
        reveal(CpuCore::spec_exec_lsr);
        if count < bits {
            lemma_shifted(value, count, bits, size.mask(), size.msb(), 0);
        }
        lemma_shifted(r, 0, bits, size.mask(), size.msb(), 0);
        if 0 < count <= bits {
            lemma_shifted(value, 0, bits, size.mask(), size.msb(), (count - 1) as u32);
            lemma_shifted(value, 0, bits, size.mask(), size.msb(), (bits - count) as u32);
        }
        assert forall|i: int| 0 <= i < bits implies #[trigger] bit(r, i) == (if direction == 1 {
            i >= count && bit(value, i - count)
        } else if op == 1 {
            i + count < bits && bit(value, i + count)
        } else {
            bit(value, if i + count < bits { i + count } else { bits - 1 })
        }) by {
            lemma_shifted(value, 0, bits, size.mask(), size.msb(), i as u32);
            if count < bits {
                lemma_shifted(value, count, bits, size.mask(), size.msb(), i as u32);
            }
        }
    } else if op == 2 {
        reveal(CpuCore::spec_exec_roxl);
        reveal(CpuCore::spec_exec_roxr);
        let turn = (bits + 1) as u32;
        lemma_positions(0, count as int, turn as int);
        let steps = if direction == 1 { count % turn } else { ((turn - count % turn) as u32) % turn };
        lemma_rotate_extended(cpu, size, steps, value);
        assert forall|i: int| 0 <= i <= bits && direction == 1 implies (bit_or_extend(
            size,
            r,
            c.flag_x(),
            (i + count) % (bits + 1),
        ) <==> #[trigger] bit_or_extend(size, value, cpu.flag_x(), i)) by {
            lemma_positions(i, count as int, bits + 1);
        }
        assert forall|i: int| 0 <= i <= bits && direction == 0 implies (#[trigger] bit_or_extend(
            size,
            r,
            c.flag_x(),
            i,
        ) <==> bit_or_extend(size, value, cpu.flag_x(), (i + count) % (bits + 1))) by {
            lemma_positions(i, count as int, bits + 1);
            let k = (i + count) % (bits + 1);
            assert(bit_or_extend(size, value, cpu.flag_x(), k) == bit_or_extend(
                size,
                r,
                c.flag_x(),
                (k + steps) % (bits + 1),
            ));
        }
    } else {
        reveal(CpuCore::spec_exec_rol);
        reveal(CpuCore::spec_exec_ror);
        lemma_positions(0, count as int, bits as int);
        let steps = if direction == 1 { count % bits } else { ((bits - count % bits) as u32) % bits };
        lemma_rotate(size, steps, value);
        lemma_shifted(r, 0, bits, size.mask(), size.msb(), 0);
        assert forall|i: int| 0 <= i < bits && direction == 1 implies (bit(r, (i + count) % bits as int)
            <==> #[trigger] bit(value, i)) by {
            lemma_positions(i, count as int, bits as int);
        }
        assert forall|i: int| 0 <= i < bits && direction == 0 implies (#[trigger] bit(r, i)
            <==> bit(value, (i + count) % bits as int)) by {
            lemma_positions(i, count as int, bits as int);
            let k = (i + count) % bits as int;
            assert(bit(value, k) == bit(r, (k + steps) % bits as int));
        }
    }
}

/// The sign bits that an arithmetic shift left moves out.
proof fn lemma_sign_lost(v: u32, n: u32, bits: u32, mask: u32, msb: u32, r: u32, moved: u32)
    by (bit_vector)
    requires
        bits == 8 && mask == 0xFF && msb == 0x80 || bits == 16 && mask == 0xFFFF && msb == 0x8000 || bits
            == 32 && mask == 0xFFFF_FFFF && msb == 0x8000_0000,
        v <= mask,
        0 < n < bits,
        r == (v << n) & mask,
        moved == mask & !((mask >> n) >> 1u32),
    ensures
        (v & moved != 0 && v & moved != moved) == ((r >> n) | (if r & msb != 0 { mask & !(mask >> n) } else {
            0
        }) != v),
        r <= mask,
        v & mask == v,
        v <= mask && (r == 0 ==> r & msb == 0),
{
}

/// ASL overflows exactly when ASR by the same count does not give the operand
/// back.
pub proof fn law_left_shift_overflow(cpu: CpuCore, size: Size, count: u32, value: u32)
    requires
        in_size(size, value),
    ensures
        ({
            let (c, out) = cpu.spec_exec_shift(0, 1, size, count, value);
            let back = c.spec_exec_shift(0, 0, size, count, out.0).1.0;
            c.flag_v() <==> back != value
        }),
{
    reveal(CpuCore::spec_exec_shift);
    reveal(CpuCore::spec_set_shift_flags);
    reveal(CpuCore::spec_exec_asl);
    reveal(CpuCore::spec_exec_asr);
    let bits = size_bits(size);
    let mask = size.mask();
    lemma_shifted(value, 0, bits, mask, size.msb(), 0);
    lemma_shifted(0, 0, bits, mask, size.msb(), 0);
    if 0 < count < bits {
        lemma_sign_lost(
            value,
            count,
            bits,
            mask,
            size.msb(),
            (value << count) & mask,
            mask & !((mask >> count) >> 1u32),
        );
    }
}

/// ROL undoes ROR by the same count, and ROR undoes ROL.
pub proof fn law_rotates_undo_each_other(cpu: CpuCore, direction: u16, size: Size, count: u32, value: u32)
    requires
        in_size(size, value),
        direction < 2,
    ensures
        ({
            let (c, out) = cpu.spec_exec_shift(3, direction, size, count, value);
            c.spec_exec_shift(3, (1 - direction) as u16, size, count, out.0).1.0 == value
        }),
{
    reveal(CpuCore::spec_exec_shift);
    reveal(CpuCore::spec_exec_rol);
    reveal(CpuCore::spec_exec_ror);
    reveal(CpuCore::spec_set_shift_flags);
    let bits = size_bits(size);
    let n = count % bits;
    let (c, out) = cpu.spec_exec_shift(3, direction, size, count, value);
    lemma_positions(0, count as int, bits as int);
    lemma_turn(bits - n, bits as int);
    if n > 0 {
        crate::laws_arith::law_rotate_round(size, value, n);
        crate::laws_arith::law_rotate_round(size, value, (bits - n) as u32);
    }
}

/// A shift or rotate changes nothing but the condition codes.
pub proof fn lemma_shift_frame(cpu: CpuCore, op: u16, direction: u16, size: Size, count: u32, value: u32)
    ensures
        ({
            let c = cpu.spec_exec_shift(op, direction, size, count, value).0;
            c == (CpuCore { ccr: c.ccr, ..cpu })
        }),
{
    reveal(CpuCore::spec_exec_shift);
    reveal(CpuCore::spec_exec_asl);
    reveal(CpuCore::spec_exec_asr);
    reveal(CpuCore::spec_exec_lsl);
    reveal(CpuCore::spec_exec_lsr);
    reveal(CpuCore::spec_exec_rol);
    reveal(CpuCore::spec_exec_ror);
    reveal(CpuCore::spec_exec_roxl);
    reveal(CpuCore::spec_exec_roxr);
    reveal(CpuCore::spec_rotate_through_extend);
    reveal(CpuCore::spec_set_shift_flags);
}

} // verus!
