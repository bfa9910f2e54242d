//! MOVEM on the memory window and through the dispatcher.

use vstd::prelude::*;
use crate::laws_operands;
use crate::laws_operands::Lender;
use crate::cpu::CpuCore;
use crate::machine::Machine;
use crate::mem_ops::Window;
use crate::types::Size;

verus! {

/// Whether a register list names position `i`, as a number.
spec fn named(list: u32, i: u32) -> u32 {
    (list >> i) & 1
}

/// Registers named by the first `n` positions of a list.
spec fn count(list: u32, n: nat) -> nat
    decreases n,
{
    if n == 0 {
        0
    } else {
        count(list, (n - 1) as nat) + named(list, (n - 1) as u32) as nat
    }
}

/// The first `n` positions of a list, loaded from the window.
spec fn words(cpu: CpuCore, mem: Seq<u8>, off: usize, list: u32, n: nat) -> (CpuCore, usize)
    decreases n,
{
    if n == 0 {
        (cpu, off)
    } else {
        let (c, at) = words(cpu, mem, off, list, (n - 1) as nat);
        c.spec_movem_word(mem, at, list, (n - 1) as usize)
    }
}

proof fn lemma_position(list: u32, i: u32, raw: u32, step: u32, next: u32)
    by (bit_vector)
    requires
        list <= 0xFFFF,
        i < 16,
        step <= 16,
        next == raw + step || next + 0x1_0000_0000 == raw + step,
    ensures
        i & 31 == i,
        list >> 0u32 == list,
        (list & (1u32 << i) != 0) <==> ((list >> i) & 1 == 1),
        ((list as u16) & (1u16 << (i as u16)) != 0) <==> ((list >> i) & 1 == 1),
        (list >> i) & 1 <= 1,
        list & 0xFF00 == 0 && i >= 8 ==> (list >> i) & 1 == 0,
        (raw & 0x00FF_FFFF) + step <= 0x00FF_FFFF ==> next & 0x00FF_FFFF == (raw & 0x00FF_FFFF) + step,
        (raw & 0xFFFF_FFFF) + step <= 0xFFFF_FFFF ==> next & 0xFFFF_FFFF == (raw & 0xFFFF_FFFF) + step,
        raw & 1 == 0 && step & 1 == 0 ==> next & 1 == 0,
        step & 1 == step % 2,
{
}

/// One position of a list.
proof fn lemma_one(lend: Lender, cpu: CpuCore, mem: Seq<u8>, raw: u32, off: usize, list: u32, i: u32, k: u32, bytes: u32)
    requires
        laws_operands::accessing(lend, cpu, mem),
        cpu.model.address_mask == crate::cpu::model_address_mask(cpu.model.cpu_type),
        list <= 0xFFFF,
        i < 8,
        k <= 7,
        bytes <= 16,
        cpu.spec_locate_span(lend.win(), raw, bytes) == Some(off),
        named(list, i) == 1 ==> 2 * k + 2 <= bytes,
        2 * k <= bytes,
    ensures
        ({
            let (after, at) = cpu.spec_movem_word(mem, (off + 2 * k) as usize, list, i as usize);
            &&& named(list, i) <= 1
            &&& at == off + 2 * (k + named(list, i))
            &&& after == (CpuCore { dar: after.dar, ..cpu })
            &&& (list as u16) & (1u16 << (i as u16)) != 0 <==> named(list, i) == 1
            &&& named(list, i) == 0 ==> after == cpu
            &&& named(list, i) == 1 ==> laws_operands::over(lend, cpu, mem).movem_load_one(
                Size::Word,
                i as usize,
                raw.wrapping_add((2 * k) as u32),
            ) == (
                laws_operands::over(lend, after, mem),
                raw.wrapping_add((2 * k + 2) as u32),
            )
        }),
{
    reveal(CpuCore::spec_movem_word);
    reveal(CpuCore::spec_set_d);
    reveal(Machine::movem_load_one);
    let step = (2 * k) as u32;
    let next = raw.wrapping_add(step);
    lemma_position(list, i, raw, step, next);
    crate::bits::lemma_reg(i as usize);
    assert(i as usize as u32 == i);
    if named(list, i) == 1 {
        laws_operands::lemma_read(lend, cpu, mem, next, Size::Word, (off + 2 * k) as usize);
    }
}

/// The first positions of a list.
proof fn lemma_words(lend: Lender, cpu: CpuCore, mem: Seq<u8>, raw: u32, off: usize, list: u32, bytes: u32, n: nat)
    requires
        laws_operands::accessing(lend, cpu, mem),
        cpu.model.address_mask == crate::cpu::model_address_mask(cpu.model.cpu_type),
        list <= 0xFFFF,
        n <= 8,
        bytes == 2 * count(list, 8),
        bytes <= 16,
        cpu.spec_locate_span(lend.win(), raw, bytes) == Some(off),
    ensures
        ({
            let (after, at) = words(cpu, mem, off, list, n);
            &&& count(list, n) <= n
            &&& count(list, n) <= count(list, 8)
            &&& at == off + 2 * count(list, n)
            &&& after == (CpuCore { dar: after.dar, ..cpu })
            &&& laws_operands::over(lend, cpu, mem).movem_load(Size::Word, list as u16, raw, n) == (
                laws_operands::over(lend, after, mem),
                raw.wrapping_add((2 * count(list, n)) as u32),
            )
        }),
    decreases n,
{
    lemma_counts(list, n);
    if n > 0 {
        let before = (n - 1) as nat;
        lemma_words(lend, cpu, mem, raw, off, list, bytes, before);
        lemma_counts(list, before);
        let c = words(cpu, mem, off, list, before).0;
        lemma_one(lend, c, mem, raw, off, list, before as u32, count(list, before) as u32, bytes);
    }
}

/// Counts grow by at most one for each position.
proof fn lemma_counts(list: u32, n: nat)
    requires
        list <= 0xFFFF,
        n <= 8,
    ensures
        count(list, n) <= n,
        count(list, n) <= count(list, 8),
        n < 8 ==> count(list, n) + named(list, n as u32) <= count(list, 8),
    decreases 8 - n,
{
    lemma_position(list, 0, 0, 0, 0);
    lemma_position(list, 1, 0, 0, 0);
    lemma_position(list, 2, 0, 0, 0);
    lemma_position(list, 3, 0, 0, 0);
    lemma_position(list, 4, 0, 0, 0);
    lemma_position(list, 5, 0, 0, 0);
    lemma_position(list, 6, 0, 0, 0);
    lemma_position(list, 7, 0, 0, 0);
    reveal_with_fuel(count, 9);
}

/// The upper half of a list of data registers names nothing.
proof fn lemma_rest(m: Machine, list: u32, raw: u32, n: nat)
    requires
        list <= 0xFFFF,
        list & 0xFF00 == 0,
        8 <= n <= 16,
    ensures
        m.movem_load(Size::Word, list as u16, raw, n) == m.movem_load(Size::Word, list as u16, raw, 8),
    decreases n,
{
    if n > 8 {
        lemma_rest(m, list, raw, (n - 1) as nat);
        lemma_position(list, (n - 1) as u32, 0, 0, 0);
    }
}

/// MOVEM.W (An)+ to data registers.
pub proof fn lemma_movem(lend: Lender, w: Window, opcode: u16)
    requires
        laws_operands::batched(lend, w.cpu, w.mem),
        w.cpu.model.address_mask == crate::cpu::model_address_mask(w.cpu.model.cpu_type),
        opcode & 0xFFF8 == 0x4C98,
        w.fast_movem_word_postinc(lend.win(), (opcode & 7) as u8).1,
    ensures
        laws_operands::finished(
            lend,
            laws_operands::over(lend, w.cpu, w.mem).exec_movem_group(opcode, true),
            w.fast_movem_word_postinc(lend.win(), (opcode & 7) as u8).0,
        ),
{
    reveal(Window::fast_movem_word_postinc);
    reveal(CpuCore::spec_movem_words);
    reveal(Machine::exec_movem_group);
    reveal(Machine::exec_movem_to_reg);
    reveal(CpuCore::spec_set_a);
    crate::bits::lemma_fields(opcode);
    crate::laws_fast::lemma_group_4_mem_forms(opcode);
    let win = lend.win();
    let list = w.cpu.spec_window_word(w.mem, win, w.cpu.pc)->0;
    laws_operands::lemma_imm_16(lend, w.cpu, w.mem, list);
    let next = CpuCore { pc: w.cpu.pc.wrapping_add(2), ..w.cpu };
    let raw = w.cpu.a((opcode & 7) as usize);
    let bytes = crate::mem_ops::list_length(list).wrapping_mul(2);
    lemma_length(list);
    let off = w.cpu.spec_locate_span(win, raw, bytes)->0;
    lemma_words(lend, next, w.mem, raw, off, list, bytes, 8);
    lemma_words(lend, w.cpu, w.mem, raw, off, list, bytes, 8);
    lemma_rest(laws_operands::over(lend, next, w.mem), list, raw, 16);
    lemma_words_anywhere(w.cpu, w.mem, off, list, next.pc, 8);
    reveal_with_fuel(words, 9);
    lemma_registers(list as u16, 16);
}

/// A list names at most one register for each of its bits.
proof fn lemma_registers(mask: u16, n: nat)
    requires
        n <= 16,
    ensures
        crate::instructions::spec_movem_count(mask, n) <= n,
    decreases n,
{
    if n > 0 {
        lemma_registers(mask, (n - 1) as nat);
    }
}

/// The length of a list is the number of positions that it names.
proof fn lemma_length(list: u32)
    requires
        list <= 0xFFFF,
    ensures
        crate::mem_ops::list_length(list) == count(list, 8),
        count(list, 8) <= 8,
{
    lemma_counts(list, 8);
    lemma_position(list, 0, 0, 0, 0);
    lemma_position(list, 1, 0, 0, 0);
    lemma_position(list, 2, 0, 0, 0);
    lemma_position(list, 3, 0, 0, 0);
    lemma_position(list, 4, 0, 0, 0);
    lemma_position(list, 5, 0, 0, 0);
    lemma_position(list, 6, 0, 0, 0);
    lemma_position(list, 7, 0, 0, 0);
    reveal_with_fuel(count, 9);
}

/// Loads from the window do not look at, nor change, PC.
proof fn lemma_words_anywhere(cpu: CpuCore, mem: Seq<u8>, off: usize, list: u32, pc: u32, n: nat)
    ensures
        words(CpuCore { pc, ..cpu }, mem, off, list, n) == (
            CpuCore { pc, ..words(cpu, mem, off, list, n).0 },
            words(cpu, mem, off, list, n).1,
        ),
    decreases n,
{
    if n > 0 {
        lemma_words_anywhere(cpu, mem, off, list, pc, (n - 1) as nat);
        reveal(CpuCore::spec_movem_word);
        reveal(CpuCore::spec_set_d);
    }
}

} // verus!
