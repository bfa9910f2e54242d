//! Laws of addresses and of the flow of control: where operands are, and where
//! execution goes and comes back to.

use vstd::prelude::*;
use crate::cpu::CpuCore;
use crate::ea::{decode_mode, EaResult};
use crate::laws_arith::signed;
use crate::laws_fast::{lemma_quiet, quiet};
use crate::laws_memory;
use crate::laws_memory::{aligned, plain};
use crate::laws_parts::{
    lemma_extended_operand, lemma_fits, lemma_parts, low, register_number, replaces,
};
use crate::machine::Machine;
use crate::memory::{BusOp, LinearState};
use crate::types::{is_pre_68020, Size};

verus! {

/// A machine between instructions on plain memory, at an address that holds
/// instruction words.
pub open spec fn calm(m: Machine, state: LinearState) -> bool {
    &&& quiet(m)
    &&& plain(m, state)
    &&& is_pre_68020(m.cpu.model.cpu_type) ==> m.cpu.pc & 1 == 0
}

/// The word of the instruction stream `words` words after PC.
pub open spec fn stream(m: Machine, state: LinearState, words: int) -> u32 {
    state.word(m.cpu.address(m.cpu.pc.wrapping_add((2 * words) as u32))) as u32
}

/// The machine with PC moved past `words` words.
pub open spec fn past(m: Machine, words: int) -> Machine {
    m.on_cpu(CpuCore { pc: m.cpu.pc.wrapping_add((2 * words) as u32), ..m.cpu })
}

/// An extension word comes out of the instruction stream.
proof fn lemma_imm_16(m: Machine, state: LinearState)
    requires
        calm(m, state),
    ensures
        m.read_imm_16() == (past(m, 1), stream(m, state, 0) as u16),
        calm(past(m, 1), state),
        stream(past(m, 1), state, 0) == stream(m, state, 1),
{
    reveal(Machine::read_imm_16);
    reveal(Machine::fetch_direct);
    reveal(Machine::translate);
    lemma_quiet(m, 0);
    let pc = m.cpu.pc;
    assert(pc.wrapping_add(0) == pc);
    state.lemma_behavior(BusOp::TryReadWord(m.cpu.address(pc)));
    crate::laws_exception::lemma_even_step(pc, 1);
    crate::laws_parts::lemma_low_bit(pc);
    crate::laws_parts::lemma_low_bit(pc.wrapping_add(2));
}

/// A long extension word comes out of the instruction stream.
proof fn lemma_imm_32(m: Machine, state: LinearState)
    requires
        calm(m, state),
    ensures
        m.read_imm_32() == (past(m, 2), (0x1_0000 * stream(m, state, 0) + stream(m, state, 1)) as u32),
        calm(past(m, 2), state),
{
    reveal(Machine::read_imm_32);
    lemma_imm_16(m, state);
    lemma_imm_16(past(m, 1), state);
    assert(m.cpu.pc.wrapping_add(2).wrapping_add(2) == m.cpu.pc.wrapping_add(4));
    crate::laws_parts::lemma_joined(stream(m, state, 0) as u16, stream(m, state, 1) as u16);
}

/// The index of an indexed address: a data or address register, as a signed
/// word or a long word, times 1, 2, 4 or 8 from the 68020 on.
pub open spec fn index_of(cpu: CpuCore, ext: u16) -> int {
    let register = cpu.dar[register_number(if ext & 0x8000 != 0 { 1 } else { 0 }, (ext >> 12) & 7)];
    let value = if ext & 0x0800 != 0 {
        register as int
    } else {
        signed(Size::Word, low(Size::Word, register))
    };
    if is_pre_68020(cpu.model.cpu_type) || (ext >> 9) & 3 == 0 {
        value
    } else if (ext >> 9) & 3 == 1 {
        value * 2
    } else if (ext >> 9) & 3 == 2 {
        value * 4
    } else {
        value * 8
    }
}

/// Bytes that an address register steps by: A7 stays even.
pub open spec fn step_of(reg: u16, size: Size) -> int {
    match size {
        Size::Byte => if reg == 7 {
            2
        } else {
            1
        },
        Size::Word => 2,
        Size::Long => 4,
    }
}

/// The number modulo the address space.
pub open spec fn wrapped(n: int) -> u32 {
    (n % 0x1_0000_0000) as u32
}

/// The operand of an addressing mode is where the mode says: at an address
/// register, before or after it steps, displaced by a signed word, indexed by a
/// register, at an absolute address or relative to the extension word. Only the
/// steps change a register, and only extension words move PC. Of the indexed
/// modes the brief form counts.
pub proof fn law_effective_address(m: Machine, state: LinearState, mode: u16, reg: u16, size: Size)
    requires
        calm(m, state),
        2 <= mode <= 6 && reg < 8 || mode == 7 && reg <= 4,
        mode == 6 || mode == 7 && reg == 3 ==> is_pre_68020(m.cpu.model.cpu_type) || (stream(m, state, 0) as u16)
            & 0x0100 == 0,
    ensures
        decode_mode(mode as u8, reg as u8) is Some,
        ({
            let (after, operand) = m.resolve_ea(decode_mode(mode as u8, reg as u8)->0, size);
            let a = m.cpu.dar[8 + reg as int];
            let word = stream(m, state, 0);
            let long = 0x1_0000 * word + stream(m, state, 1);
            let brief = signed(Size::Byte, low(Size::Byte, word)) + index_of(m.cpu, word as u16);
            &&& mode == 2 ==> operand == EaResult::Memory(a) && after == m
            &&& mode == 3 ==> {
                &&& operand == EaResult::Memory(a)
                &&& replaces(m.cpu, after.cpu, 8 + reg as int, Size::Long, wrapped(a + step_of(reg, size)) as int)
                &&& after == m.on_cpu(CpuCore { dar: after.cpu.dar, ..m.cpu })
            }
            &&& mode == 4 ==> {
                &&& operand == EaResult::Memory(wrapped(a - step_of(reg, size)))
                &&& replaces(m.cpu, after.cpu, 8 + reg as int, Size::Long, wrapped(a - step_of(reg, size)) as int)
                &&& after == m.on_cpu(CpuCore { dar: after.cpu.dar, ..m.cpu })
            }
            &&& mode == 5 ==> operand == EaResult::Memory(wrapped(a + signed(Size::Word, word))) && after == past(
                m,
                1,
            )
            &&& mode == 6 ==> operand == EaResult::Memory(wrapped(a + brief)) && after == past(m, 1)
            &&& mode == 7 && reg == 0 ==> operand == EaResult::Memory(wrapped(signed(Size::Word, word))) && after
                == past(m, 1)
            &&& mode == 7 && reg == 1 ==> operand == EaResult::Memory(long as u32) && after == past(m, 2)
            &&& mode == 7 && reg == 2 ==> operand == EaResult::Memory(
                wrapped(m.cpu.pc + signed(Size::Word, word)),
            ) && after == past(m, 1)
            &&& mode == 7 && reg == 3 ==> operand == EaResult::Memory(wrapped(m.cpu.pc + brief)) && after == past(
                m,
                1,
            )
            &&& mode == 7 && reg == 4 ==> match size {
                Size::Byte => operand == EaResult::Immediate(low(Size::Byte, word)) && after == past(m, 1),
                Size::Word => operand == EaResult::Immediate(word) && after == past(m, 1),
                Size::Long => operand == EaResult::Immediate(long as u32) && after == past(m, 2),
            }
        }),
{
    reveal(Machine::resolve_ea);
    reveal(Machine::read_immediate);
    reveal(CpuCore::spec_set_a);
    lemma_quiet(m, 2);
    crate::bits::lemma_reg(reg as usize);
    let a = m.cpu.dar[8 + reg as int];
    let word = stream(m, state, 0);
    crate::laws_parts::lemma_wrap(a, step_of(reg, size) as u32);
    lemma_fits(word, Size::Word);
    lemma_extended_operand(Size::Word, word, a);
    lemma_extended_operand(Size::Word, word, m.cpu.pc);
    lemma_parts(word, 0, 0, 0);
    if mode >= 5 {
        lemma_imm_16(m, state);
        if mode == 6 || mode == 7 && reg == 3 {
            lemma_brief(m, state, if mode == 6 { a } else { m.cpu.pc });
        }
        if mode == 7 && (reg == 1 || reg == 4) {
            lemma_imm_32(m, state);
        }
    }
}

/// The brief form of an indexed address.
proof fn lemma_brief(m: Machine, state: LinearState, base: u32)
    requires
        calm(m, state),
        is_pre_68020(m.cpu.model.cpu_type) || (stream(m, state, 0) as u16) & 0x0100 == 0,
    ensures
        ({
            let word = stream(m, state, 0);
            m.resolve_index(base) == (
                past(m, 1),
                wrapped(base + (signed(Size::Byte, low(Size::Byte, word)) + index_of(m.cpu, word as u16))),
            )
        }),
{
    reveal(Machine::resolve_index);
    reveal(CpuCore::spec_index_value);
    lemma_quiet(m, 2);
    lemma_imm_16(m, state);
    let word = stream(m, state, 0);
    let ext = word as u16;
    crate::bits::lemma_fields(ext);
    crate::bits::lemma_reg(((ext >> 12) & 7) as usize);
    let b = low(Size::Byte, word);
    lemma_parts(word, 0, word as u8, 0);
    lemma_fits(b, Size::Byte);
    lemma_parts(b, 0, b as u8, 0);
    lemma_extended_operand(Size::Byte, b, base);
    let register = m.cpu.dar[register_number(if ext & 0x8000 != 0 { 1 } else { 0 }, (ext >> 12) & 7)];
    let half = low(Size::Word, register);
    lemma_parts(register, 0, 0, register as u16);
    lemma_parts(half, 0, 0, half as u16);
    lemma_fits(half, Size::Word);
    lemma_extended_operand(Size::Word, half, 0);
    let value = if ext & 0x0800 != 0 { register } else { crate::alu::sign_extend(Size::Word, half) };
    let plain_value = if ext & 0x0800 != 0 { register as int } else { signed(Size::Word, half) };
    crate::laws_parts::lemma_scaled(value);
    lemma_scaled_modulo(plain_value, value as int);
    lemma_two_bits(ext);
    let d = base.wrapping_add(crate::alu::sign_extend(Size::Byte, b));
    crate::laws_parts::lemma_wrap(d, m.cpu.spec_index_value(ext));
    lemma_sum_modulo(base + signed(Size::Byte, b), d as int, index_of(m.cpu, ext), m.cpu.spec_index_value(ext) as int);
}

/// Multiples of numbers that agree modulo the address space agree.
proof fn lemma_scaled_modulo(n: int, v: int)
    requires
        v == n || v == n + 0x1_0000_0000,
    ensures
        (n * 2) % 0x1_0000_0000 == (v * 2) % 0x1_0000_0000,
        (n * 4) % 0x1_0000_0000 == (v * 4) % 0x1_0000_0000,
        (n * 8) % 0x1_0000_0000 == (v * 8) % 0x1_0000_0000,
{
    vstd::arithmetic::div_mod::lemma_mod_multiples_vanish(2, n * 2, 0x1_0000_0000);
    vstd::arithmetic::div_mod::lemma_mod_multiples_vanish(4, n * 4, 0x1_0000_0000);
    vstd::arithmetic::div_mod::lemma_mod_multiples_vanish(8, n * 8, 0x1_0000_0000);
}

/// Sums of numbers that agree modulo the address space agree.
proof fn lemma_sum_modulo(a: int, x: int, b: int, y: int)
    requires
        x == a % 0x1_0000_0000,
        y == b % 0x1_0000_0000,
    ensures
        (x + y) % 0x1_0000_0000 == (a + b) % 0x1_0000_0000,
{
    vstd::arithmetic::div_mod::lemma_add_mod_noop(a, b, 0x1_0000_0000);
}

/// A scale field has two bits.
proof fn lemma_two_bits(ext: u16)
    ensures
        (ext >> 9) & 3 < 4,
{
    crate::bits::lemma_fields(ext);
}

/// The long word that a machine on plain memory reads at an address.
pub open spec fn long_at(m: Machine, address: u32) -> u32 {
    m.read_32(address).1
}

/// LINK saves the frame pointer on the stack, points it at the saved value and
/// reserves the space that its displacement asks for; no other register
/// changes. UNLK of the same register undoes it, whatever was reserved.
pub proof fn law_unlink_undoes_link(m: Machine, state: LinearState, reg: u8, disp: u32)
    requires
        plain(m, state),
        reg < 7,
        aligned(m.cpu, m.cpu.dar[15].wrapping_sub(4)),
        state.cells_distinct(m.cpu.address(m.cpu.dar[15].wrapping_sub(4)), 4),
    ensures
        ({
            let linked = m.link_frame(reg as usize, disp);
            let frame = m.cpu.dar[15].wrapping_sub(4);
            let back = linked.exec_unlk(reg as usize).0;
            &&& linked.cpu.dar[8 + reg as int] == frame
            &&& linked.cpu.dar[15] == wrapped(frame + disp)
            &&& long_at(linked, frame) == m.cpu.dar[8 + reg as int]
            &&& forall|i: int|
                0 <= i < 15 && i != 8 + reg ==> #[trigger] linked.cpu.dar[i] == m.cpu.dar[i]
            &&& linked.cpu.ccr == m.cpu.ccr
            &&& back.cpu.dar =~= m.cpu.dar
            &&& back.cpu.ccr == m.cpu.ccr
            &&& !back.cpu.faulted()
        }),
{
    reveal(Machine::link_frame);
    reveal(Machine::exec_unlk);
    reveal(Machine::pull_32);
    reveal(CpuCore::spec_set_a);
    crate::bits::lemma_reg(reg as usize);
    let frame = m.cpu.dar[15].wrapping_sub(4);
    let at = m.cpu.address(frame);
    let saved = m.cpu.dar[8 + reg as int];
    let m1 = m.on_cpu(CpuCore { dar: vstd::array::spec_array_update(m.cpu.dar, 15, frame), ..m.cpu });
    laws_memory::lemma_write_32(m1, state, frame, saved);
    state.law_long_read_back(at, saved);
    let s = state.put_long(at, saved);
    let linked = m.link_frame(reg as usize, disp);
    assert(plain(linked, s));
    laws_memory::lemma_read_32(linked, s, frame);
    let m2 = linked.on_cpu(
        CpuCore { dar: vstd::array::spec_array_update(linked.cpu.dar, 15, frame), ..linked.cpu },
    );
    laws_memory::lemma_read_32(m2, s, frame);
    crate::laws_parts::lemma_wrap(frame, disp);
    let back = linked.exec_unlk(reg as usize).0;
    assert(back.cpu.dar@ =~= m.cpu.dar@);
}

/// MOVEC reaches the control registers by their numbers: the function codes,
/// the user, master and interrupt stack pointers, the vector base and the cache
/// address. What is written there is what the processor uses.
pub proof fn law_control_registers_have_numbers(cpu: CpuCore, value: u32)
    ensures
        cpu.read_control_register(0x000) == cpu.control.sfc,
        cpu.read_control_register(0x001) == cpu.control.dfc,
        cpu.read_control_register(0x800) == cpu.get_usp(),
        cpu.read_control_register(0x801) == cpu.control.vbr,
        cpu.read_control_register(0x802) == cpu.control.caar,
        cpu.read_control_register(0x803) == cpu.get_msp(),
        cpu.read_control_register(0x804) == cpu.get_isp(),
        cpu.spec_write_control_register(0x801, value).control.vbr == value,
        cpu.spec_write_control_register(0x800, value).get_usp() == value,
        cpu.spec_write_control_register(0x801, value) == (CpuCore {
            control: crate::cpu::ControlRegs { vbr: value, ..cpu.control },
            ..cpu
        }),
{
    reveal(CpuCore::spec_write_control_register);
    reveal(CpuCore::spec_store_control_register);
    reveal(CpuCore::spec_set_usp);
}

/// A branch with a word displacement goes to the displacement's own address
/// plus the displacement exactly when its condition holds, and past it
/// otherwise. BSR goes there too, and leaves the address past it on the stack,
/// where RTS finds it: the stack pointer is back, and execution is where the
/// call left off.
pub proof fn law_branch_and_call(m: Machine, state: LinearState, opcode: u16)
    requires
        calm(m, state),
        (opcode >> 12) & 0xF == 6,
        opcode & 0xFF == 0,
        (opcode >> 8) & 0xF == 1 ==> aligned(m.cpu, m.cpu.dar[15].wrapping_sub(4)) && state.cells_distinct(
            m.cpu.address(m.cpu.dar[15].wrapping_sub(4)),
            4,
        ),
    ensures
        ({
            let (after, cycles) = m.dispatch_group_6(opcode);
            let condition = ((opcode >> 8) & 0xF) as u8;
            let next = m.cpu.pc.wrapping_add(2);
            let target = wrapped(m.cpu.pc + signed(Size::Word, stream(m, state, 0)));
            let sp = m.cpu.dar[15].wrapping_sub(4);
            &&& after.cpu.ccr == m.cpu.ccr
            &&& condition != 1 ==> {
                &&& after.cpu.dar == m.cpu.dar
                &&& after.bus == m.bus
                &&& after.cpu.pc == (if condition == 0 || m.cpu.test_condition(condition) { target } else { next })
            }
            &&& condition == 1 ==> {
                &&& after.cpu.pc == target
                &&& after.cpu.dar[15] == sp
                &&& long_at(after, sp) == next
                &&& after.exec_rts().0.cpu.pc == next
                &&& after.exec_rts().0.cpu.dar =~= m.cpu.dar
            }
        }),
{
    reveal(Machine::dispatch_group_6);
    crate::bits::lemma_fields(opcode);
    let condition = ((opcode >> 8) & 0xF) as u8;
    let taken = condition < 2 || m.cpu.test_condition(condition);
    let word = stream(m, state, 0);
    lemma_quiet(m, if taken { 2 } else { 4 });
    lemma_stream_read(m, state, taken);
    lemma_fits(word, Size::Word);
    lemma_extended_operand(Size::Word, word, m.cpu.pc);
    let moved = m.on_cpu(
        CpuCore {
            pc: wrapped(m.cpu.pc + signed(Size::Word, word)),
            run: crate::cpu::RunState { change_of_flow: true, ..m.cpu.run },
            ..m.cpu
        },
    );
    lemma_quiet(moved, 0);
    if condition == 1 {
        reveal(Machine::exec_rts);
        let next = m.cpu.pc.wrapping_add(2);
        lemma_pushed(moved, state, next);
    }
}

/// The displacement word comes out of the instruction stream, taken or not.
proof fn lemma_stream_read(m: Machine, state: LinearState, taken: bool)
    requires
        calm(m, state),
    ensures
        ({
            let q = crate::cpu::PrefetchState { consume_without_prefetch: taken, ..m.cpu.queue };
            let m1 = m.on_cpu(CpuCore { queue: q, ..m.cpu });
            let (m2, word) = m1.read_imm_16();
            &&& word == stream(m, state, 0)
            &&& m2 == m1.on_cpu(CpuCore { pc: m.cpu.pc.wrapping_add(2), ..m1.cpu })
        }),
{
    reveal(Machine::read_imm_16);
    reveal(Machine::fetch_direct);
    reveal(Machine::translate);
    reveal(Machine::flush_sync);
    let pc = m.cpu.pc;
    assert(pc.wrapping_add(0) == pc);
    state.lemma_behavior(BusOp::TryReadWord(m.cpu.address(pc)));
}

/// A pushed return address is on the stack, and RTS takes it off.
proof fn lemma_pushed(m: Machine, state: LinearState, next: u32)
    requires
        quiet(m),
        plain(m, state),
        aligned(m.cpu, m.cpu.dar[15].wrapping_sub(4)),
        state.cells_distinct(m.cpu.address(m.cpu.dar[15].wrapping_sub(4)), 4),
    ensures
        ({
            let pushed = m.push_32(next);
            let called = pushed.full_prefetch();
            let sp = m.cpu.dar[15].wrapping_sub(4);
            &&& called == pushed
            &&& pushed.cpu.pc == m.cpu.pc
            &&& pushed.cpu.ccr == m.cpu.ccr
            &&& pushed.cpu.dar[15] == sp
            &&& long_at(pushed, sp) == next
            &&& pushed.exec_rts().0.cpu.pc == next
            &&& pushed.exec_rts().0.cpu.dar =~= m.cpu.dar
        }),
{
    reveal(Machine::push_32);
    reveal(Machine::exec_rts);
    reveal(Machine::pull_32);
    reveal(Machine::full_prefetch);
    reveal(Machine::prefetch_first);
    reveal(Machine::prefetch_second);
    let sp = m.cpu.dar[15].wrapping_sub(4);
    let at = m.cpu.address(sp);
    let m1 = m.on_cpu(CpuCore { dar: vstd::array::spec_array_update(m.cpu.dar, 15, sp), ..m.cpu });
    laws_memory::lemma_write_32(m1, state, sp, next);
    state.law_long_read_back(at, next);
    let s = state.put_long(at, next);
    let pushed = m.push_32(next);
    laws_memory::lemma_read_32(pushed, s, sp);
    let flowing = pushed.on_cpu(
        CpuCore { run: crate::cpu::RunState { change_of_flow: true, ..pushed.cpu.run }, ..pushed.cpu },
    );
    laws_memory::lemma_read_32(flowing, s, sp);
    let back = pushed.exec_rts().0;
    assert(back.cpu.dar@ =~= m.cpu.dar@);
}

} // verus!
