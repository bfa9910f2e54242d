//! Facts about the bit patterns the core works with.

use vstd::prelude::*;

verus! {

/// Taking a word apart and composing it again gives the word back.
pub proof fn lemma_be16(v: u16)
    by (bit_vector)
    ensures
        (((v >> 8) as u8 as u16) << 8) | (v as u8 as u16) == v,
{
}

/// Taking a long word apart and composing it again gives the long word back.
pub proof fn lemma_be32(v: u32)
    by (bit_vector)
    ensures
        (((v >> 24) as u8 as u32) << 24) | (((v >> 16) as u8 as u32) << 16) | (((v >> 8) as u8 as u32)
            << 8) | (v as u8 as u32) == v,
{
}

/// The three-bit fields of an opcode word.
pub proof fn lemma_fields(op: u16)
    by (bit_vector)
    ensures
        op & 7 < 8,
        op & 0xFF < 0x100,
        (op >> 3) & 7 < 8,
        (op >> 6) & 7 < 8,
        (op >> 9) & 7 < 8,
        (op >> 12) & 7 < 8,
        (op >> 12) & 0xF < 16,
        (op >> 8) & 0xF < 16,
        (op >> 6) & 3 < 4,
        (op >> 9) & 3 < 4,
        (op >> 3) & 3 < 4,
        (op >> 8) & 1 < 2,
        (op >> 8) & 1 == (if op & 0x100 != 0 { 1u16 } else { 0 }),
        ((op & 0xFF) as u8) as u16 == op & 0xFF,
        (op & 0xFF) as u8 as u32 == (op & 0xFF) as u32,
        op & 0xFFF8 == 0x4840 || op & 0xFFF8 == 0x4880 || op & 0xFFF8 == 0x48C0 || op & 0xFFF8 == 0x49C0
            ==> (op >> 12) & 0xF == 4 && op != 0x4E71 && ((op >> 6) & 3 == 3 || (op >> 8) & 0xF == 8),
{
}

/// Register numbers are reduced to three bits.
pub proof fn lemma_reg(r: usize)
    by (bit_vector)
    ensures
        r & 7 < 8,
        r < 8 ==> r & 7 == r,
{
}

/// Masked register fields.
pub proof fn lemma_masks(v: u32)
    by (bit_vector)
    ensures
        v & 7 < 8,
        v <= 7 ==> (v & 7) << 8 == 0x100 * v,
        v <= 7 ==> v & 7 == v,
        v == 0 ==> v & 7 == 0,
        v & 31 < 32,
        v & 63 < 64,
        (v >> 8) & 7 < 8,
{
}

proof fn lemma_halving(n: usize)
    by (bit_vector)
    requires
        n > 1,
        n & ((n - 1) as usize) == 0,
    ensures
        n % 2 == 0,
        (n / 2) & ((n / 2 - 1) as usize) == 0,
        n / 2 > 0,
{
}

proof fn lemma_single_bit_is_power(n: usize) -> (k: nat)
    requires
        n > 0,
        n & ((n - 1) as usize) == 0,
    ensures
        n == vstd::arithmetic::power2::pow2(k),
        k < usize::BITS,
    decreases n,
{
    if n == 1 {
        vstd::arithmetic::power2::lemma2_to64();
        0
    } else {
        lemma_halving(n);
        let k = lemma_single_bit_is_power((n / 2) as usize);
        vstd::arithmetic::power2::lemma_pow2_unfold(k + 1);
        vstd::layout::unsigned_int_max_values();
        if k + 1 >= usize::BITS {
            vstd::bits::lemma_usize_pow2_no_overflow((usize::BITS - 1) as nat);
            if k + 1 > usize::BITS {
                assert(false);
            }
            vstd::arithmetic::power2::lemma2_to64();
            vstd::arithmetic::power2::lemma2_to64_rest();
            assert(false);
        }
        k + 1
    }
}

/// For a single-bit length, masking is the remainder.
pub proof fn lemma_mask_is_mod(x: usize, n: usize)
    requires
        n > 0,
        n & ((n - 1) as usize) == 0,
    ensures
        x & ((n - 1) as usize) == x as int % n as int,
{
    let k = lemma_single_bit_is_power(n);
    vstd::bits::lemma_usize_low_bits_mask_is_mod(x, k);
    assert(vstd::bits::low_bits_mask(k) == n - 1);
}

} // verus!
