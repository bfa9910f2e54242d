//! Laws that tie the decoded operations to the dispatcher.

use vstd::prelude::*;
use crate::cpu::{CpuCore, RunState};
use crate::ea::{AddressingMode, EaResult};
use crate::machine::Machine;
use crate::op_cache::{decode_simple, direct_reg, BinaryOp, DecodedSimpleOp, DirectReg, UnaryOp};
use crate::types::{CpuType, Size};

verus! {

/// A machine between instructions that does not model the prefetch queue, as
/// a batch runs it: no internal clocks are pending, and no fault.
pub open spec fn quiet(m: Machine) -> bool {
    &&& !m.cpu.prefetch_enabled()
    &&& m.cpu.queue.pending_sync_clocks == 0
    &&& !m.cpu.queue.consume_without_prefetch
    &&& !m.cpu.faulted()
    &&& crate::laws_window::model_agrees(m.cpu)
}

/// The dispatcher completed the instruction and did what the decoded
/// operation does.
spec fn agrees(m: Machine, done: (Machine, i32), op: DecodedSimpleOp) -> bool {
    done.1 >= 0 && done.0 == m.on_cpu(m.cpu.spec_exec_simple(op).0)
}

/// Nothing of the prefetch queue happens on a quiet machine.
pub proof fn lemma_quiet(m: Machine, clocks: u32)
    requires
        quiet(m),
    ensures
        m.top_up_prefetch() == m,
        m.ipl_poll_point() == m,
        m.flush_sync() == m,
        m.full_prefetch() == m,
        m.cpu.spec_internal_cycles(clocks) == m.cpu,
        m.finish_m68000_tail_after_final_prefetch(clocks) == (m, true),
{
    reveal(Machine::top_up_prefetch);
    reveal(Machine::ipl_poll_point);
    reveal(Machine::flush_sync);
    reveal(Machine::full_prefetch);
    reveal(Machine::prefetch_first);
    reveal(Machine::prefetch_second);
    reveal(CpuCore::spec_internal_cycles);
    reveal(Machine::finish_m68000_tail_after_final_prefetch);
}

/// The final prefetches of the 68000 do nothing on a quiet machine.
pub proof fn lemma_quiet_tails(m: Machine, mode: AddressingMode, size: Size)
    requires
        quiet(m),
    ensures
        m.finish_m68000_alu_ea_dn_long_tail(mode, size) == (m, true),
        m.finish_m68000_adda_suba_tail(mode, size) == (m, true),
        m.finish_m68000_addx_subx_register_tail(size) == (m, true),
{
    reveal(Machine::finish_m68000_alu_ea_dn_long_tail);
    reveal(Machine::finish_m68000_adda_suba_tail);
    reveal(Machine::finish_m68000_addx_subx_register_tail);
    lemma_quiet(m, 2);
    lemma_quiet(m, 4);
}

/// Flags do not depend on the bits above the operand.
pub proof fn lemma_masked(s: u32, d: u32, r: u32)
    by (bit_vector)
    ensures
        (r & 0xFF) & 0xFF == r & 0xFF,
        (r & 0xFFFF) & 0xFFFF == r & 0xFFFF,
        r & 0xFFFF_FFFF == r,
        (r & 0xFF) & 0x80 == r & 0x80,
        (r & 0xFFFF) & 0x8000 == r & 0x8000,
        ((s & d) | (!(r & 0xFF) & (s | d))) & 0x80 == ((s & d) | (!r & (s | d))) & 0x80,
        ((s & d) | (!(r & 0xFFFF) & (s | d))) & 0x8000 == ((s & d) | (!r & (s | d))) & 0x8000,
        (s ^ (r & 0xFF)) & (d ^ (r & 0xFF)) & 0x80 == (s ^ r) & (d ^ r) & 0x80,
        (s ^ (r & 0xFFFF)) & (d ^ (r & 0xFFFF)) & 0x8000 == (s ^ r) & (d ^ r) & 0x8000,
        ((s & (r & 0xFF)) | (!d & (s | (r & 0xFF)))) & 0x80 == ((s & r) | (!d & (s | r))) & 0x80,
        ((s & (r & 0xFFFF)) | (!d & (s | (r & 0xFFFF)))) & 0x8000 == ((s & r) | (!d & (s | r))) & 0x8000,
        (s ^ d) & ((r & 0xFF) ^ d) & 0x80 == (s ^ d) & (r ^ d) & 0x80,
        (s ^ d) & ((r & 0xFFFF) ^ d) & 0x8000 == (s ^ d) & (r ^ d) & 0x8000,
        ((s & 0xFF) ^ d) & 0xFF == (s ^ d) & 0xFF,
        ((s & 0xFFFF) ^ d) & 0xFFFF == (s ^ d) & 0xFFFF,
        (d & 0xFF) & 0xFF == d & 0xFF,
        (d & 0xFFFF) & 0xFFFF == d & 0xFFFF,
        (s & 0xFF) & 0xFF == s & 0xFF,
        (s & 0xFFFF) & 0xFFFF == s & 0xFFFF,
        d & 0xFFFF_FFFF == d,
        s & 0xFFFF_FFFF == s,
{
}

/// Opcodes that the dispatcher tells apart by overlapping fields.
proof fn lemma_opcode_bits(op: u16)
    by (bit_vector)
    ensures
        (op >> 12) & 0xF == 0 && op & 0x0100 != 0 && (op >> 3) & 7 == 0 ==> op != 0x0EFC && op != 0x0CFC
            && op & 0x0FC0 != 0x0AC0 && op & 0x0FC0 != 0x0CC0 && op & 0x0FC0 != 0x0EC0 && op & 0xFF00
            != 0x0E00 && op & 0xFFC0 != 0x06C0 && op & 0xF138 != 0x0108 && (op >> 8) & 0xF != 0 && (op
            >> 8) & 0xF != 2 && (op >> 8) & 0xF != 4 && (op >> 8) & 0xF != 6 && (op >> 8) & 0xF != 0xA
            && (op >> 8) & 0xF != 0xC,
        (op >> 12) & 0xF == 4 && (op >> 3) & 7 == 0 && (op >> 6) & 3 != 3 && ((op >> 8) & 0xF == 0 || (op
            >> 8) & 0xF == 2 || (op >> 8) & 0xF == 4 || (op >> 8) & 0xF == 6 || (op >> 8) & 0xF == 0xA) ==> op
            & 0xFFF8 != 0x4808 && op & 0xFF80 != 0x4C00 && op & 0xFFC0 != 0x40C0 && op & 0xFFC0 != 0x42C0
            && (op >> 6) & 7 < 4 && op & 0xFFF0 != 0x4E70 && op != 0x4AC8 && op != 0x4ACC && op
            != 0x4AFC,
        op & 0xFFF8 == 0x4840 || op & 0xFFF8 == 0x4880 || op & 0xFFF8 == 0x48C0 ==> op & 0xFFF8
            != 0x4808 && op & 0xFF80 != 0x4C00 && op & 0xFFC0 != 0x40C0 && op & 0xFFC0 != 0x42C0 && (op
            >> 6) & 7 < 4 && op & 0xFFF0 != 0x4E70 && op != 0x4AC8 && op != 0x4ACC && (op >> 8) & 0xF == 8
            && (op >> 3) & 7 == 0 && (op >> 6) & 3 == (if op & 0xFFF8 == 0x4840 {
            1u16
        } else if op & 0xFFF8 == 0x4880 {
            2
        } else {
            3
        }),
        op & 0xFFF8 == 0x49C0 ==> op & 0xFF80 != 0x4C00 && op & 0xFFC0 != 0x40C0 && op & 0xFFC0
            != 0x42C0 && (op >> 6) & 7 == 7 && op & 0xFFF0 != 0x4E70 && op != 0x4AC8 && op != 0x4ACC,
        op == 0x4E71 ==> (op >> 12) & 0xF == 4 && op & 0xFFF8 != 0x4808 && op & 0xFF80 != 0x4C00 && op & 0xFFC0 != 0x40C0 && op
            & 0xFFC0 != 0x42C0 && (op >> 6) & 7 == 1 && op & 0xFFF0 == 0x4E70,
        (op >> 6) & 3 == (if (op >> 6) & 7 >= 4 { ((op >> 6) & 7) - 4 } else { ((op >> 6) & 7) - 0 }),
        op & 0x00C0 == 0x00C0 <==> (op >> 6) & 3 == 3,
        (op >> 6) & 7 >= 4 <==> ((op >> 6) & 7) & 4 != 0,
        op & 0xFFF8 == 0x4C98 ==> op & 0xFFF8 != 0x4808 && op & 0xFF80 != 0x4C00 && op & 0xFFC0 != 0x40C0
            && op & 0xFFC0 != 0x42C0 && (op >> 6) & 7 == 2 && op & 0xFFF0 != 0x4E70 && op != 0x4AC8 && op
            != 0x4ACC && (op >> 8) & 0xF == 0xC && (op >> 3) & 7 == 3 && op & 0x0040 == 0,
        op == 0x4E75 ==> op & 0xFFF8 != 0x4808 && op & 0xFF80 != 0x4C00 && op & 0xFFC0 != 0x40C0 && op
            & 0xFFC0 != 0x42C0 && (op >> 6) & 7 == 1 && op & 0xFFF0 == 0x4E70,
        (op >> 12) & 0xF == 0 && (op & 0x0100 != 0 && (op >> 3) & 7 != 1 || op & 0xFF00 == 0x0800) ==> op
            & 0xF138 != 0x0108 && op & 0x0FC0 != 0x0AC0 && op & 0x0FC0 != 0x0CC0 && op & 0x0FC0 != 0x0EC0
            && op & 0xFF00 != 0x0E00 && op & 0xFFC0 != 0x06C0 && (op & 0x0800 != 0 || op & 0x0100 != 0)
            && op != 0x0EFC && op != 0x0CFC && (op >> 8) & 0xF != 0 && (op >> 8) & 0xF != 2 && (op >> 8)
            & 0xF != 4 && (op >> 8) & 0xF != 6 && (op >> 8) & 0xF != 0xA && (op >> 8) & 0xF != 0xC && (op
            & 0xFF00 == 0x0800 ==> op & 0x0100 == 0),
        (op >> 12) & 0xF == 0 && op & 0x0100 == 0 && (op >> 6) & 3 != 3 ==> op != 0x0EFC && op != 0x0CFC
            && op & 0x0FC0 != 0x0AC0 && op & 0x0FC0 != 0x0CC0 && op & 0x0FC0 != 0x0EC0 && op & 0xFFC0
            != 0x06C0 && op & 0xF138 != 0x0108 && (op & 0xFF00 == 0x0E00 <==> (op >> 9) & 7 == 7) && (op
            >> 8) & 0xF == ((op >> 9) & 7) * 2 && op & 0x00C0 != 0x00C0,
        (op >> 12) & 0xF == 4 && (op & 0xFF00 == 0x4A00 || op & 0xFF00 == 0x4200 || op & 0xFF00 == 0x4400
            || op & 0xFF00 == 0x4600) && (op >> 6) & 3 != 3 ==> op & 0xFFF8 != 0x4808 && op & 0xFF80
            != 0x4C00 && op & 0xFFC0 != 0x40C0 && op & 0xFFC0 != 0x42C0 && (op >> 6) & 7 < 4 && op & 0xFFF0
            != 0x4E70 && op != 0x4AC8 && op != 0x4ACC && op != 0x4AFC && (op >> 8) & 0xF == (if op
            & 0xFF00 == 0x4A00 {
            0xAu16
        } else if op & 0xFF00 == 0x4200 {
            2
        } else if op & 0xFF00 == 0x4400 {
            4
        } else {
            6
        }),
        op & 0xF1C0 == 0x41C0 ==> op & 0xFFF8 != 0x4808 && op & 0xFF80 != 0x4C00 && op & 0xFFC0 != 0x40C0
            && op & 0xFFC0 != 0x42C0 && (op >> 6) & 7 == 7 && op & 0xFFF0 != 0x4E70 && op != 0x4AC8 && op
            != 0x4ACC && (op & 0xFFF8 == 0x49C0 ==> (op >> 3) & 7 == 0),
        op & 0xFFC0 == 0x4840 ==> op & 0xFFF8 != 0x4808 && op & 0xFF80 != 0x4C00 && op & 0xFFC0 != 0x40C0
            && op & 0xFFC0 != 0x42C0 && (op >> 6) & 7 == 1 && op & 0xFFF0 != 0x4E70 && op != 0x4AC8 && op
            != 0x4ACC && (op >> 8) & 0xF == 8 && (op >> 6) & 3 == 1,
        op & 0xFF80 == 0x4E80 ==> op & 0xFFF8 != 0x4808 && op & 0xFF80 != 0x4C00 && op & 0xFFC0 != 0x40C0
            && op & 0xFFC0 != 0x42C0 && ((op >> 6) & 7 == 2 || (op >> 6) & 7 == 3) && op & 0xFFF0 != 0x4E70
            && op != 0x4AC8 && op != 0x4ACC && (op >> 8) & 0xF == 0xE && (op >> 4) & 0xF != 4 && op & 0xFFF8
            != 0x4E50 && op & 0xFFF8 != 0x4E58 && op & 0xFFF0 != 0x4E60 && (op & 0x0040 != 0 <==> op & 0xFFC0
            == 0x4EC0) && (op & 0x0040 == 0 <==> op & 0xFFC0 == 0x4E80),
        (op >> 3) & 0x1F == ((op >> 6) & 3) * 8 + ((op >> 3) & 7),
{
}

/// The size and mode fields of an opcode overlap.
pub proof fn lemma_size_forms(op: u16)
    ensures
        (op >> 6) & 3 == (if (op >> 6) & 7 >= 4 { ((op >> 6) & 7) - 4 } else { ((op >> 6) & 7) - 0 }),
        op & 0x00C0 == 0x00C0 <==> (op >> 6) & 3 == 3,
        (op >> 6) & 7 >= 4 <==> ((op >> 6) & 7) & 4 != 0,
        (op >> 3) & 0x1F == ((op >> 6) & 3) * 8 + ((op >> 3) & 7),
{
    lemma_opcode_bits(op);
}

/// Bit and immediate instructions are no other instructions of group 0.
pub proof fn lemma_group_0_forms(op: u16)
    ensures
        (op >> 12) & 0xF == 0 && op & 0x0100 != 0 && (op >> 3) & 7 == 0 ==> op != 0x0EFC && op != 0x0CFC
            && op & 0x0FC0 != 0x0AC0 && op & 0x0FC0 != 0x0CC0 && op & 0x0FC0 != 0x0EC0 && op & 0xFF00
            != 0x0E00 && op & 0xFFC0 != 0x06C0 && op & 0xF138 != 0x0108 && (op >> 8) & 0xF != 0 && (op
            >> 8) & 0xF != 2 && (op >> 8) & 0xF != 4 && (op >> 8) & 0xF != 6 && (op >> 8) & 0xF != 0xA
            && (op >> 8) & 0xF != 0xC,
        (op >> 12) & 0xF == 0 && (op & 0x0100 != 0 && (op >> 3) & 7 != 1 || op & 0xFF00 == 0x0800) ==> op
            & 0xF138 != 0x0108 && op & 0x0FC0 != 0x0AC0 && op & 0x0FC0 != 0x0CC0 && op & 0x0FC0 != 0x0EC0
            && op & 0xFF00 != 0x0E00 && op & 0xFFC0 != 0x06C0 && (op & 0x0800 != 0 || op & 0x0100 != 0)
            && op != 0x0EFC && op != 0x0CFC && (op >> 8) & 0xF != 0 && (op >> 8) & 0xF != 2 && (op >> 8)
            & 0xF != 4 && (op >> 8) & 0xF != 6 && (op >> 8) & 0xF != 0xA && (op >> 8) & 0xF != 0xC && (op
            & 0xFF00 == 0x0800 ==> op & 0x0100 == 0),
        (op >> 12) & 0xF == 0 && op & 0x0100 == 0 && (op >> 6) & 3 != 3 ==> op != 0x0EFC && op != 0x0CFC
            && op & 0x0FC0 != 0x0AC0 && op & 0x0FC0 != 0x0CC0 && op & 0x0FC0 != 0x0EC0 && op & 0xFFC0
            != 0x06C0 && op & 0xF138 != 0x0108 && (op & 0xFF00 == 0x0E00 <==> (op >> 9) & 7 == 7) && (op
            >> 8) & 0xF == ((op >> 9) & 7) * 2 && op & 0x00C0 != 0x00C0,
{
    lemma_opcode_bits(op);
}

/// Register instructions of group 4 are no other instructions of the group.
pub proof fn lemma_group_4_forms(op: u16)
    ensures
        (op >> 12) & 0xF == 4 && (op >> 3) & 7 == 0 && (op >> 6) & 3 != 3 && ((op >> 8) & 0xF == 0 || (op
            >> 8) & 0xF == 2 || (op >> 8) & 0xF == 4 || (op >> 8) & 0xF == 6 || (op >> 8) & 0xF == 0xA) ==> op
            & 0xFFF8 != 0x4808 && op & 0xFF80 != 0x4C00 && op & 0xFFC0 != 0x40C0 && op & 0xFFC0 != 0x42C0
            && (op >> 6) & 7 < 4 && op & 0xFFF0 != 0x4E70 && op != 0x4AC8 && op != 0x4ACC && op
            != 0x4AFC,
        op & 0xFFF8 == 0x4840 || op & 0xFFF8 == 0x4880 || op & 0xFFF8 == 0x48C0 ==> op & 0xFFF8
            != 0x4808 && op & 0xFF80 != 0x4C00 && op & 0xFFC0 != 0x40C0 && op & 0xFFC0 != 0x42C0 && (op
            >> 6) & 7 < 4 && op & 0xFFF0 != 0x4E70 && op != 0x4AC8 && op != 0x4ACC && (op >> 8) & 0xF == 8
            && (op >> 3) & 7 == 0 && (op >> 6) & 3 == (if op & 0xFFF8 == 0x4840 {
            1u16
        } else if op & 0xFFF8 == 0x4880 {
            2
        } else {
            3
        }),
        op & 0xFFF8 == 0x49C0 ==> op & 0xFF80 != 0x4C00 && op & 0xFFC0 != 0x40C0 && op & 0xFFC0
            != 0x42C0 && (op >> 6) & 7 == 7 && op & 0xFFF0 != 0x4E70 && op != 0x4AC8 && op != 0x4ACC,
        op == 0x4E71 ==> (op >> 12) & 0xF == 4 && op & 0xFFF8 != 0x4808 && op & 0xFF80 != 0x4C00 && op & 0xFFC0 != 0x40C0 && op
            & 0xFFC0 != 0x42C0 && (op >> 6) & 7 == 1 && op & 0xFFF0 == 0x4E70,
{
    lemma_opcode_bits(op);
}

/// Memory and control instructions of group 4 are no other instructions of
/// the group.
pub proof fn lemma_group_4_mem_forms(op: u16)
    ensures
        op & 0xFFF8 == 0x4C98 ==> op & 0xFFF8 != 0x4808 && op & 0xFF80 != 0x4C00 && op & 0xFFC0 != 0x40C0
            && op & 0xFFC0 != 0x42C0 && (op >> 6) & 7 == 2 && op & 0xFFF0 != 0x4E70 && op != 0x4AC8 && op
            != 0x4ACC && (op >> 8) & 0xF == 0xC && (op >> 3) & 7 == 3 && op & 0x0040 == 0,
        op == 0x4E75 ==> op & 0xFFF8 != 0x4808 && op & 0xFF80 != 0x4C00 && op & 0xFFC0 != 0x40C0 && op
            & 0xFFC0 != 0x42C0 && (op >> 6) & 7 == 1 && op & 0xFFF0 == 0x4E70,
        (op >> 12) & 0xF == 4 && (op & 0xFF00 == 0x4A00 || op & 0xFF00 == 0x4200 || op & 0xFF00 == 0x4400
            || op & 0xFF00 == 0x4600) && (op >> 6) & 3 != 3 ==> op & 0xFFF8 != 0x4808 && op & 0xFF80
            != 0x4C00 && op & 0xFFC0 != 0x40C0 && op & 0xFFC0 != 0x42C0 && (op >> 6) & 7 < 4 && op & 0xFFF0
            != 0x4E70 && op != 0x4AC8 && op != 0x4ACC && op != 0x4AFC && (op >> 8) & 0xF == (if op
            & 0xFF00 == 0x4A00 {
            0xAu16
        } else if op & 0xFF00 == 0x4200 {
            2
        } else if op & 0xFF00 == 0x4400 {
            4
        } else {
            6
        }),
        op & 0xF1C0 == 0x41C0 ==> op & 0xFFF8 != 0x4808 && op & 0xFF80 != 0x4C00 && op & 0xFFC0 != 0x40C0
            && op & 0xFFC0 != 0x42C0 && (op >> 6) & 7 == 7 && op & 0xFFF0 != 0x4E70 && op != 0x4AC8 && op
            != 0x4ACC && (op & 0xFFF8 == 0x49C0 ==> (op >> 3) & 7 == 0),
        op & 0xFFC0 == 0x4840 ==> op & 0xFFF8 != 0x4808 && op & 0xFF80 != 0x4C00 && op & 0xFFC0 != 0x40C0
            && op & 0xFFC0 != 0x42C0 && (op >> 6) & 7 == 1 && op & 0xFFF0 != 0x4E70 && op != 0x4AC8 && op
            != 0x4ACC && (op >> 8) & 0xF == 8 && (op >> 6) & 3 == 1,
        op & 0xFF80 == 0x4E80 ==> op & 0xFFF8 != 0x4808 && op & 0xFF80 != 0x4C00 && op & 0xFFC0 != 0x40C0
            && op & 0xFFC0 != 0x42C0 && ((op >> 6) & 7 == 2 || (op >> 6) & 7 == 3) && op & 0xFFF0 != 0x4E70
            && op != 0x4AC8 && op != 0x4ACC && (op >> 8) & 0xF == 0xE && (op >> 4) & 0xF != 4 && op & 0xFFF8
            != 0x4E50 && op & 0xFFF8 != 0x4E58 && op & 0xFFF0 != 0x4E60 && (op & 0x0040 != 0 <==> op & 0xFFC0
            == 0x4EC0) && (op & 0x0040 == 0 <==> op & 0xFFC0 == 0x4E80),
{
    lemma_opcode_bits(op);
}

/// A register operand is read as it stands.
proof fn lemma_source(m: Machine, mode: u16, reg: u16, size: Size, src: DirectReg)
    requires
        reg < 8,
        direct_reg(mode, reg) == Some(src),
    ensures
        crate::ea::decode_mode(mode as u8, reg as u8) is Some,
        crate::ea::is_register_direct(crate::ea::decode_mode(mode as u8, reg as u8)->0),
        m.read_ea(crate::ea::decode_mode(mode as u8, reg as u8)->0, size) == (
            m,
            m.cpu.read_direct_reg(src, size),
        ),
{
    reveal(Machine::read_ea);
    reveal(Machine::resolve_ea);
    reveal(Machine::read_resolved_ea);
}

/// A data register as an operand that is read and written.
proof fn lemma_data_operand(m: Machine, reg: u8, size: Size, value: u32)
    ensures
        m.resolve_ea(AddressingMode::DataDirect(reg), size) == (m, EaResult::DataReg(reg)),
        m.read_resolved_ea(EaResult::DataReg(reg), size) == (m, m.cpu.d(reg as usize) & size.mask()),
        m.write_resolved_ea(EaResult::DataReg(reg), size, value) == m.on_cpu(
            m.cpu.spec_write_data_reg(reg as usize, size, value),
        ),
{
    reveal(Machine::resolve_ea);
    reveal(Machine::read_resolved_ea);
    reveal(Machine::write_resolved_ea);
}

/// MOVEQ.
proof fn lemma_moveq(m: Machine, opcode: u16, op: DecodedSimpleOp)
    requires
        (opcode >> 12) & 0xF == 7,
        decode_simple(m.cpu.model.cpu_type, opcode) == Some(op),
    ensures
        m.cpu.spec_dispatch_moveq(opcode).1 >= 0,
        m.cpu.spec_dispatch_moveq(opcode).0 == m.cpu.spec_exec_simple(op).0,
{
    reveal(CpuCore::spec_dispatch_moveq);
    reveal(CpuCore::spec_exec_simple);
    crate::bits::lemma_fields(opcode);
}

/// MOVE and MOVEA of a register operand into a register.
#[verifier::spinoff_prover]
proof fn lemma_move_operand(m: Machine, size: Size, from: DirectReg, mode: AddressingMode, to: u8)
    requires
        quiet(m),
        crate::ea::is_register_direct(mode),
        m.read_ea(mode, size) == (m, m.cpu.read_direct_reg(from, size)),
    ensures
        ({
            let data = m.exec_move(size, mode, AddressingMode::DataDirect(to));
            data.1 >= 0 && data.0 == m.on_cpu(m.cpu.spec_exec_simple_move(from, DirectReg::Data(to), size).0)
        }),
        size != Size::Byte ==> ({
            let addr = m.exec_movea(size, mode, to as usize);
            addr.1 >= 0 && addr.0 == m.on_cpu(m.cpu.spec_exec_simple_move(from, DirectReg::Addr(to), size).0)
        }),
{
    reveal(Machine::exec_move);
    reveal(Machine::exec_movea);
    reveal(CpuCore::spec_exec_simple_move);
    reveal(CpuCore::spec_write_data_reg);
    reveal(CpuCore::spec_set_d);
    lemma_data_operand(m, to, size, m.cpu.read_direct_reg(from, size));
}

/// MOVE and MOVEA between registers.
proof fn lemma_move(m: Machine, opcode: u16, size: Size, op: DecodedSimpleOp)
    requires
        quiet(m),
        crate::op_cache::decode_move_reg(opcode, size) == Some(op),
    ensures
        agrees(m, m.dispatch_move(opcode, size), op),
{
    reveal(Machine::dispatch_move);
    reveal(CpuCore::spec_exec_simple);
    crate::bits::lemma_fields(opcode);
    let from = direct_reg((opcode >> 3) & 7, opcode & 7)->0;
    lemma_source(m, (opcode >> 3) & 7, opcode & 7, size, from);
    let mode = crate::ea::decode_mode(((opcode >> 3) & 7) as u8, (opcode & 7) as u8)->0;
    lemma_move_operand(m, size, from, mode, ((opcode >> 9) & 7) as u8);
}

/// The end of CLR, NEG, NEGX and NOT on a data register.
proof fn lemma_finish_unary(m: Machine, reg: u8, size: Size, result: u32)
    requires
        quiet(m),
    ensures
        m.finish_unary(EaResult::DataReg(reg), size, result) == m.on_cpu(
            m.cpu.spec_write_data_reg(reg as usize, size, result),
        ),
        quiet(m.on_cpu(m.cpu.spec_write_data_reg(reg as usize, size, result))),
{
    reveal(Machine::finish_unary);
    reveal(CpuCore::spec_write_data_reg);
    reveal(CpuCore::spec_set_d);
    lemma_quiet(m, 2);
}

/// Where the dispatcher sends the one-operand instructions.
proof fn lemma_unary_route(m: Machine, opcode: u16, op: DecodedSimpleOp)
    requires
        (opcode >> 12) & 0xF == 4,
        crate::op_cache::decode_group_4_reg(opcode) == Some(op),
    ensures
        m.dispatch_group_4(opcode) == (if (opcode >> 8) & 0xF == 0xA {
            m.exec_tst_group(opcode)
        } else {
            m.exec_unary_group(opcode)
        }),
{
    lemma_group_4_forms(opcode);
    crate::bits::lemma_fields(opcode);
    reveal(Machine::dispatch_group_4);
    reveal(Machine::dispatch_one_operand);
}

/// NEGX and NEG of a data register.
#[verifier::spinoff_prover]
proof fn lemma_negate(m: Machine, reg: u8, size: Size)
    requires
        quiet(m),
    ensures
        ({
            let done = m.exec_negx(size, AddressingMode::DataDirect(reg));
            done.1 >= 0 && done.0 == m.on_cpu(m.cpu.spec_exec_simple_unary(UnaryOp::Negx, reg as usize, size).0)
        }),
        ({
            let done = m.exec_neg(size, AddressingMode::DataDirect(reg));
            done.1 >= 0 && done.0 == m.on_cpu(m.cpu.spec_exec_simple_unary(UnaryOp::Neg, reg as usize, size).0)
        }),
{
    reveal(CpuCore::spec_exec_simple_unary);
    reveal(Machine::exec_negx);
    reveal(Machine::exec_neg);
    reveal(CpuCore::spec_exec_subx);
    reveal(CpuCore::spec_set_sub_flags);
    reveal(CpuCore::spec_set_compare_flags);
    reveal(CpuCore::spec_write_data_reg);
    let value = m.cpu.d(reg as usize) & size.mask();
    lemma_data_operand(m, reg, size, 0);
    let (c, extended) = m.cpu.spec_exec_subx(size, value, 0);
    lemma_finish_unary(m.on_cpu(c), reg, size, extended);
    let result = 0u32.wrapping_sub(value);
    lemma_finish_unary(m, reg, size, result & size.mask());
    lemma_masked(value, 0, result);
}

/// CLR, NOT and TST of a data register.
#[verifier::spinoff_prover]
proof fn lemma_plain_unary(m: Machine, reg: u8, size: Size)
    requires
        quiet(m),
    ensures
        ({
            let done = m.exec_clr(size, AddressingMode::DataDirect(reg));
            done.1 >= 0 && done.0 == m.on_cpu(m.cpu.spec_exec_simple_unary(UnaryOp::Clr, reg as usize, size).0)
        }),
        ({
            let done = m.exec_not(size, AddressingMode::DataDirect(reg));
            done.1 >= 0 && done.0 == m.on_cpu(m.cpu.spec_exec_simple_unary(UnaryOp::Not, reg as usize, size).0)
        }),
        ({
            let done = m.exec_tst(size, AddressingMode::DataDirect(reg));
            done.1 >= 0 && done.0 == m.on_cpu(m.cpu.spec_exec_simple_unary(UnaryOp::Tst, reg as usize, size).0)
        }),
{
    reveal(CpuCore::spec_exec_simple_unary);
    reveal(Machine::exec_clr);
    reveal(Machine::exec_not);
    reveal(Machine::exec_tst);
    reveal(Machine::read_ea);
    let value = m.cpu.d(reg as usize) & size.mask();
    lemma_data_operand(m, reg, size, 0);
    lemma_finish_unary(m, reg, size, 0);
    lemma_finish_unary(m, reg, size, !value & size.mask());
}

/// NEGX, CLR, NEG, NOT and TST of a data register.
#[verifier::spinoff_prover]
proof fn lemma_unary(m: Machine, opcode: u16, op: DecodedSimpleOp)
    requires
        quiet(m),
        (opcode >> 12) & 0xF == 4,
        crate::op_cache::decode_group_4_reg(opcode) == Some(op),
    ensures
        agrees(m, m.dispatch_group_4(opcode), op),
{
    lemma_unary_route(m, opcode, op);
    lemma_group_4_forms(opcode);
    crate::bits::lemma_fields(opcode);
    let reg = (opcode & 7) as u8;
    let size = crate::decode_arith::decode_size_00((opcode >> 6) & 3);
    reveal(CpuCore::spec_exec_simple);
    reveal(Machine::exec_unary_group);
    reveal(Machine::exec_tst_group);
    lemma_negate(m, reg, size);
    lemma_plain_unary(m, reg, size);
}

/// SWAP, EXT, EXTB and NOP.
proof fn lemma_group_4_other(m: Machine, opcode: u16, op: DecodedSimpleOp)
    requires
        quiet(m),
        opcode == 0x4E71 && op == DecodedSimpleOp::Nop
            || crate::op_cache::decode_group_4_other(m.cpu.model.cpu_type, opcode) == Some(op),
    ensures
        opcode == 0x4E71 && m.cpu.is_040() ==> m.dispatch_group_4(opcode).1 >= 0 && m.dispatch_group_4(
            opcode,
        ).0 == synchronized(m.on_cpu(m.cpu.spec_exec_simple(op).0)),
        !(opcode == 0x4E71 && m.cpu.is_040()) ==> agrees(m, m.dispatch_group_4(opcode), op),
{
    lemma_group_4_forms(opcode);
    crate::bits::lemma_fields(opcode);
    reveal(Machine::dispatch_group_4);
    reveal(Machine::dispatch_one_operand);
    reveal(Machine::dispatch_group_48);
    reveal(Machine::dispatch_system);
    reveal(CpuCore::spec_trace_t0_68040_sync);
    reveal(CpuCore::spec_exec_simple);
    reveal(CpuCore::spec_exec_swap);
    reveal(CpuCore::spec_exec_ext);
    reveal(CpuCore::spec_exec_extb);
}

/// ADDQ and SUBQ on a data register.
#[verifier::spinoff_prover]
proof fn lemma_quick_data(m: Machine, reg: u8, size: Size, data: u32, is_sub: bool)
    requires
        quiet(m),
    ensures
        ({
            let done = m.exec_quick(size, data, AddressingMode::DataDirect(reg), is_sub);
            done.1 >= 0 && done.0 == m.on_cpu(m.cpu.spec_exec_simple_quick(reg as usize, data, size, is_sub).0)
        }),
{
    reveal(Machine::exec_quick);
    reveal(CpuCore::spec_exec_simple_quick);
    reveal(CpuCore::spec_write_data_reg);
    let dst = m.cpu.d(reg as usize) & size.mask();
    lemma_data_operand(m, reg, size, 0);
    if is_sub {
        reveal(CpuCore::spec_exec_sub);
        reveal(CpuCore::spec_set_sub_flags);
        reveal(CpuCore::spec_set_compare_flags);
        let subbed = m.cpu.spec_exec_sub(size, data, dst);
        lemma_data_operand(m.on_cpu(subbed.0), reg, size, subbed.1.0);
        lemma_masked(data, dst, dst.wrapping_sub(data));
    } else {
        reveal(CpuCore::spec_exec_add);
        reveal(CpuCore::spec_set_add_flags);
        let added = m.cpu.spec_exec_add(size, data, dst);
        lemma_data_operand(m.on_cpu(added.0), reg, size, added.1.0);
        lemma_masked(data, dst, dst.wrapping_add(data));
    }
}

/// ADDQ and SUBQ on a register.
#[verifier::spinoff_prover]
proof fn lemma_quick(m: Machine, opcode: u16, op: DecodedSimpleOp)
    requires
        quiet(m),
        (opcode >> 6) & 3 != 3,
        crate::op_cache::decode_group_5_reg(opcode) == Some(op),
    ensures
        agrees(m, m.dispatch_group_5(opcode), op),
{
    crate::bits::lemma_fields(opcode);
    reveal(Machine::dispatch_group_5);
    reveal(Machine::exec_quick_group);
    reveal(CpuCore::spec_exec_simple);
    if (opcode >> 3) & 7 == 1 {
        reveal(Machine::exec_quick);
    } else {
        let field = ((opcode >> 9) & 7) as u32;
        let data: u32 = if field == 0 {
            8
        } else {
            field
        };
        let size = crate::decode_arith::decode_size_00((opcode >> 6) & 3);
        lemma_quick_data(m, (opcode & 7) as u8, size, data, opcode & 0x100 != 0);
    }
}

/// Scc on a data register.
proof fn lemma_scc(m: Machine, opcode: u16, op: DecodedSimpleOp)
    requires
        quiet(m),
        (opcode >> 6) & 3 == 3,
        crate::op_cache::decode_group_5_reg(opcode) == Some(op),
    ensures
        agrees(m, m.dispatch_group_5(opcode), op),
{
    crate::bits::lemma_fields(opcode);
    reveal(Machine::dispatch_group_5);
    reveal(Machine::exec_scc);
    reveal(Machine::write_resolved_ea_np_poll);
    reveal(CpuCore::spec_exec_simple);
    reveal(CpuCore::spec_exec_simple_scc);
    lemma_quiet(m, 2);
    lemma_data_operand(m, (opcode & 7) as u8, Size::Byte, 0xFF);
    lemma_data_operand(m, (opcode & 7) as u8, Size::Byte, 0);
}

/// A branch with a byte displacement.
proof fn lemma_branch(m: Machine, opcode: u16, op: DecodedSimpleOp)
    requires
        quiet(m),
        (opcode >> 12) & 0xF == 6,
        decode_simple(m.cpu.model.cpu_type, opcode) == Some(op),
    ensures
        agrees(m, m.dispatch_group_6(opcode), op),
{
    crate::bits::lemma_fields(opcode);
    reveal(Machine::dispatch_group_6);
    reveal(CpuCore::spec_exec_simple);
    reveal(CpuCore::spec_exec_simple_branch);
    lemma_quiet(m, 2);
    lemma_quiet(m, 4);
    let condition = ((opcode >> 8) & 0xF) as u8;
    let taken = condition < 2 || m.cpu.test_condition(condition);
    assert(condition == 0 ==> m.cpu.test_condition(condition)) by {
        crate::laws_operands::lemma_small(0, 0);
    }
    let m1 = m.on_cpu(
        CpuCore {
            run: RunState { change_of_flow: true, ..m.cpu.run },
            pc: m.cpu.pc.wrapping_add(crate::prefetch::sext8((opcode & 0xFF) as u8)),
            ..m.cpu
        },
    );
    lemma_quiet(m1, 2);
}

/// BTST, BCHG, BCLR and BSET on a data register.
#[verifier::spinoff_prover]
proof fn lemma_bit(m: Machine, opcode: u16, op: DecodedSimpleOp)
    requires
        quiet(m),
        (opcode >> 12) & 0xF == 0,
        decode_simple(m.cpu.model.cpu_type, opcode) == Some(op),
    ensures
        agrees(m, m.dispatch_group_0(opcode), op),
{
    lemma_group_0_forms(opcode);
    crate::bits::lemma_fields(opcode);
    crate::bits::lemma_reg((opcode & 7) as usize);
    reveal(Machine::dispatch_group_0);
    reveal(Machine::exec_bit_group);
    reveal(Machine::exec_bit_op);
    reveal(CpuCore::spec_exec_simple);
    reveal(CpuCore::spec_exec_simple_bit);
    reveal(CpuCore::spec_set_d);
    let reg = (opcode & 7) as usize;
    let same = vstd::array::spec_array_update(m.cpu.dar, (reg & 7) as int, m.cpu.dar[(reg & 7) as int]);
    assert(same@ =~= m.cpu.dar@);
    assert(same =~= m.cpu.dar);
}

/// A shift takes its clocks.
proof fn lemma_shift_cycles(cpu: CpuCore, op: u16, direction: u16, size: Size, count: u32, value: u32)
    ensures
        cpu.spec_exec_shift(op, direction, size, count, value).1.1 >= 6,
{
    reveal(CpuCore::spec_exec_shift);
    reveal(CpuCore::spec_exec_asl);
    reveal(CpuCore::spec_exec_asr);
    reveal(CpuCore::spec_exec_lsl);
    reveal(CpuCore::spec_exec_lsr);
    reveal(CpuCore::spec_exec_rol);
    reveal(CpuCore::spec_exec_ror);
    reveal(CpuCore::spec_exec_roxl);
    reveal(CpuCore::spec_exec_roxr);
    crate::bits::lemma_masks(count);
}

/// A register shift or rotate.
proof fn lemma_shift(m: Machine, opcode: u16, op: DecodedSimpleOp)
    requires
        (opcode >> 12) & 0xF == 0xE,
        decode_simple(m.cpu.model.cpu_type, opcode) == Some(op),
    ensures
        agrees(m, m.dispatch_group_e(opcode), op),
{
    lemma_size_forms(opcode);
    crate::bits::lemma_fields(opcode);
    reveal(Machine::dispatch_group_e);
    reveal(CpuCore::spec_exec_shift_register);
    reveal(CpuCore::spec_exec_simple);
    reveal(CpuCore::spec_exec_simple_shift);
    let size = crate::decode_arith::decode_size_00((opcode >> 6) & 3);
    let field = ((opcode >> 9) & 7) as u32;
    let count: u32 = if opcode & 0x20 != 0 {
        m.cpu.d(field as usize) & 63
    } else if field == 0 {
        8
    } else {
        field
    };
    let value = m.cpu.d((opcode & 7) as usize) & size.mask();
    lemma_shift_cycles(m.cpu, (opcode >> 3) & 3, (opcode >> 8) & 1, size, count, value);
}

/// The arithmetic of ADD, SUB, AND and OR into a data register.
#[verifier::spinoff_prover]
pub proof fn lemma_binary(cpu: CpuCore, size: Size, src: u32, dst: u32, reg: usize)
    ensures
        ({
            let done = cpu.spec_exec_add(size, src, dst);
            cpu.spec_apply_binary_to_reg(BinaryOp::Add, size, src, dst, reg)
                == done.0.spec_write_data_reg(reg, size, done.1.0)
        }),
        ({
            let done = cpu.spec_exec_sub(size, src, dst);
            cpu.spec_apply_binary_to_reg(BinaryOp::Sub, size, src, dst, reg)
                == done.0.spec_write_data_reg(reg, size, done.1.0)
        }),
        ({
            let done = cpu.spec_exec_and(size, src, dst);
            cpu.spec_apply_binary_to_reg(BinaryOp::And, size, src, dst, reg)
                == done.0.spec_write_data_reg(reg, size, done.1.0)
        }),
        ({
            let done = cpu.spec_exec_or(size, src, dst);
            cpu.spec_apply_binary_to_reg(BinaryOp::Or, size, src, dst, reg)
                == done.0.spec_write_data_reg(reg, size, done.1.0)
        }),
        forall|op: BinaryOp| #[trigger]
            cpu.spec_apply_binary_to_reg(op, size, src, dst, reg) == (CpuCore {
                ccr: cpu.spec_apply_binary_to_reg(op, size, src, dst, reg).ccr,
                dar: cpu.spec_apply_binary_to_reg(op, size, src, dst, reg).dar,
                ..cpu
            }),
{
    reveal(CpuCore::spec_apply_binary_to_reg);
    reveal(CpuCore::spec_exec_add);
    reveal(CpuCore::spec_exec_sub);
    reveal(CpuCore::spec_exec_and);
    reveal(CpuCore::spec_exec_or);
    reveal(CpuCore::spec_set_logic_flags);
    reveal(CpuCore::spec_set_add_flags);
    reveal(CpuCore::spec_set_sub_flags);
    reveal(CpuCore::spec_set_compare_flags);
    reveal(CpuCore::spec_write_data_reg);
    reveal(CpuCore::spec_set_d);
    lemma_masked(src, dst, dst.wrapping_add(src));
    lemma_masked(src, dst, dst.wrapping_sub(src));
}

/// ADD, SUB, AND and OR of an operand that a register field names.
#[verifier::spinoff_prover]
proof fn lemma_register_operand(m: Machine, opcode: u16, op: BinaryOp, from: DirectReg, size: Size)
    requires
        quiet(m),
        (opcode >> 6) & 7 <= 2,
        size == crate::decode_arith::decode_size_012((opcode >> 6) & 7),
        direct_reg((opcode >> 3) & 7, opcode & 7) == Some(from),
        op == (match (opcode >> 12) & 0xF {
            0x8 => BinaryOp::Or,
            0x9 => BinaryOp::Sub,
            0xC => BinaryOp::And,
            _ => BinaryOp::Add,
        }),
        from is Addr ==> size != Size::Byte && ((opcode >> 12) & 0xF == 0x9 || (opcode >> 12) & 0xF == 0xD),
    ensures
        ({
            let reg = ((opcode >> 9) & 7) as usize;
            let src = m.cpu.read_direct_reg(from, size);
            let dst = m.cpu.d(reg) & size.mask();
            let done = m.exec_alu_to_register(opcode);
            done.1 >= 0 && done.0 == m.on_cpu(m.cpu.spec_apply_binary_to_reg(op, size, src, dst, reg))
        }),
{
    crate::bits::lemma_fields(opcode);
    reveal(Machine::exec_alu_to_register);
    let mode = crate::ea::decode_mode(((opcode >> 3) & 7) as u8, (opcode & 7) as u8)->0;
    let src = m.cpu.read_direct_reg(from, size);
    lemma_source(m, (opcode >> 3) & 7, opcode & 7, size, from);
    let reg = ((opcode >> 9) & 7) as usize;
    let dst = m.cpu.d(reg) & size.mask();
    lemma_binary(m.cpu, size, src, dst, reg);
    lemma_quiet_tails(m.on_cpu(m.cpu.spec_apply_binary_to_reg(op, size, src, dst, reg)), mode, size);
}

/// ADD, SUB, AND and OR of a register into a data register.
#[verifier::spinoff_prover]
proof fn lemma_alu_to_register(m: Machine, opcode: u16, op: DecodedSimpleOp)
    requires
        quiet(m),
        (opcode >> 6) & 7 <= 2,
        ({
            let group = (opcode >> 12) & 0xF;
            group == 0x8 || group == 0x9 || group == 0xC || group == 0xD
        }),
        crate::op_cache::decode_group_alu_reg(m.cpu.model.cpu_type, opcode) == Some(op),
    ensures
        agrees(m, m.exec_alu_to_register(opcode), op),
{
    lemma_size_forms(opcode);
    crate::bits::lemma_fields(opcode);
    reveal(CpuCore::spec_exec_simple);
    let size = crate::decode_arith::decode_size_00((opcode >> 6) & 3);
    lemma_register_operand(m, opcode, op->BinaryDataReg_op, op->BinaryDataReg_src, size);
}

/// ADDA, SUBA and CMPA of an operand that a register field names.
#[verifier::spinoff_prover]
proof fn lemma_address_operand(m: Machine, opcode: u16, op: crate::op_cache::AddrOp, from: DirectReg, size: Size)
    requires
        quiet(m),
        (opcode >> 6) & 7 == 3 || (opcode >> 6) & 7 == 7,
        size == (if (opcode >> 6) & 7 == 3 {
            Size::Word
        } else {
            Size::Long
        }),
        direct_reg((opcode >> 3) & 7, opcode & 7) == Some(from),
    ensures
        ({
            let reg = ((opcode >> 9) & 7) as usize;
            let fast = m.on_cpu(m.cpu.spec_apply_addr_op(op, size, m.cpu.read_direct_reg(from, size), reg).0);
            let done = m.exec_alu_to_address(opcode);
            let tested = m.exec_compare_address(opcode);
            &&& op == (if (opcode >> 12) & 0xF == 0x9 {
                crate::op_cache::AddrOp::Suba
            } else {
                crate::op_cache::AddrOp::Adda
            }) ==> done.1 >= 0 && done.0 == fast
            &&& op is Compare ==> tested.1 >= 0 && tested.0 == fast
        }),
{
    crate::bits::lemma_fields(opcode);
    reveal(CpuCore::spec_apply_addr_op);
    let mode = crate::ea::decode_mode(((opcode >> 3) & 7) as u8, (opcode & 7) as u8)->0;
    lemma_source(m, (opcode >> 3) & 7, opcode & 7, size, from);
    let reg = ((opcode >> 9) & 7) as usize;
    let done = m.on_cpu(m.cpu.spec_apply_addr_op(op, size, m.cpu.read_direct_reg(from, size), reg).0);
    if op is Compare {
        reveal(Machine::exec_compare_address);
        reveal(CpuCore::spec_exec_compare_addr);
        reveal(CpuCore::spec_set_compare_flags);
        lemma_quiet(done, 2);
    } else {
        reveal(Machine::exec_alu_to_address);
        reveal(CpuCore::spec_exec_adda);
        reveal(CpuCore::spec_exec_suba);
        reveal(CpuCore::spec_set_a);
        lemma_quiet_tails(done, mode, size);
    }
}

/// ADDA, SUBA and CMPA of a register.
#[verifier::spinoff_prover]
proof fn lemma_alu_to_address(m: Machine, opcode: u16, op: DecodedSimpleOp)
    requires
        quiet(m),
        (opcode >> 6) & 7 == 3 || (opcode >> 6) & 7 == 7,
        ({
            let group = (opcode >> 12) & 0xF;
            group == 0x9 || group == 0xB || group == 0xD
        }),
        crate::op_cache::decode_group_alu_reg(m.cpu.model.cpu_type, opcode) == Some(op),
    ensures
        (opcode >> 12) & 0xF == 0x9 || (opcode >> 12) & 0xF == 0xD ==> agrees(
            m,
            m.exec_alu_to_address(opcode),
            op,
        ),
        (opcode >> 12) & 0xF == 0xB ==> agrees(m, m.exec_compare_address(opcode), op),
{
    lemma_size_forms(opcode);
    crate::bits::lemma_fields(opcode);
    reveal(CpuCore::spec_exec_simple);
    let size = if (opcode >> 6) & 7 == 3 {
        Size::Word
    } else {
        Size::Long
    };
    lemma_address_operand(m, opcode, op->AddrDataReg_op, op->AddrDataReg_src, size);
}

/// CMP of a register.
#[verifier::spinoff_prover]
proof fn lemma_compare(m: Machine, opcode: u16, op: DecodedSimpleOp)
    requires
        quiet(m),
        (opcode >> 12) & 0xF == 0xB,
        (opcode >> 6) & 7 <= 2,
        crate::op_cache::decode_group_alu_reg(m.cpu.model.cpu_type, opcode) == Some(op),
    ensures
        agrees(m, m.exec_compare_register(opcode), op),
{
    lemma_size_forms(opcode);
    crate::bits::lemma_fields(opcode);
    let size = crate::decode_arith::decode_size_00((opcode >> 6) & 3);
    reveal(Machine::exec_compare_register);
    reveal(CpuCore::spec_exec_simple);
    reveal(CpuCore::spec_apply_binary_to_reg);
    reveal(CpuCore::spec_exec_compare);
    reveal(CpuCore::spec_set_compare_flags);
    let src = m.cpu.read_direct_reg(direct_reg((opcode >> 3) & 7, opcode & 7)->0, size);
    lemma_source(m, (opcode >> 3) & 7, opcode & 7, size, direct_reg((opcode >> 3) & 7, opcode & 7)->0);
    let dst = m.cpu.d(((opcode >> 9) & 7) as usize) & size.mask();
    lemma_masked(src, dst, dst.wrapping_sub(src));
    lemma_masked(m.cpu.d((opcode & 7) as usize), m.cpu.a((opcode & 7) as usize), 0);
    lemma_quiet(m.on_cpu(m.cpu.spec_exec_simple(op).0), 2);
}

/// EOR into a data register.
#[verifier::spinoff_prover]
proof fn lemma_eor_operand(m: Machine, opcode: u16, size: Size)
    requires
        quiet(m),
        size == crate::decode_arith::decode_size_00((opcode >> 6) & 3),
        4 <= (opcode >> 6) & 7 <= 6,
        (opcode >> 3) & 7 == 0,
    ensures
        ({
            let reg = (opcode & 7) as usize;
            let src = m.cpu.d(((opcode >> 9) & 7) as usize) & size.mask();
            let dst = m.cpu.d(reg) & size.mask();
            let done = m.exec_eor(opcode);
            done.1 >= 0 && done.0 == m.on_cpu(m.cpu.spec_apply_binary_to_reg(BinaryOp::Eor, size, src, dst, reg))
        }),
{
    lemma_size_forms(opcode);
    crate::bits::lemma_fields(opcode);
    reveal(Machine::exec_eor);
    reveal(Machine::write_resolved_ea_np_poll);
    reveal(CpuCore::spec_apply_binary_to_reg);
    reveal(CpuCore::spec_set_logic_flags);
    reveal(CpuCore::spec_write_data_reg);
    reveal(CpuCore::spec_set_d);
    let src = m.cpu.d(((opcode >> 9) & 7) as usize);
    let dst = m.cpu.d((opcode & 7) as usize) & size.mask();
    lemma_masked(src, dst, 0);
    let flagged = m.on_cpu(m.cpu.spec_set_logic_flags((src ^ dst) & size.mask(), size));
    lemma_quiet(flagged, 0);
    lemma_quiet(flagged, 4);
    lemma_quiet(m, 0);
    lemma_data_operand(m, (opcode & 7) as u8, size, 0);
    lemma_data_operand(m, (opcode & 7) as u8, size, (src ^ dst) & size.mask());
}

/// EOR of a data register into a data register.
#[verifier::spinoff_prover]
proof fn lemma_eor(m: Machine, opcode: u16, op: DecodedSimpleOp)
    requires
        quiet(m),
        (opcode >> 12) & 0xF == 0xB,
        4 <= (opcode >> 6) & 7 <= 6,
        (opcode >> 3) & 7 == 0,
        crate::op_cache::decode_group_alu_reg(m.cpu.model.cpu_type, opcode) == Some(op),
    ensures
        agrees(m, m.exec_eor(opcode), op),
{
    lemma_size_forms(opcode);
    crate::bits::lemma_fields(opcode);
    reveal(CpuCore::spec_exec_simple);
    lemma_eor_operand(m, opcode, crate::decode_arith::decode_size_00((opcode >> 6) & 3));
}

/// CMP, CMPA and EOR.
proof fn lemma_group_b(m: Machine, opcode: u16, op: DecodedSimpleOp)
    requires
        quiet(m),
        (opcode >> 12) & 0xF == 0xB,
        crate::op_cache::decode_group_alu_reg(m.cpu.model.cpu_type, opcode) == Some(op),
    ensures
        agrees(m, m.dispatch_group_b(opcode), op),
{
    lemma_size_forms(opcode);
    crate::bits::lemma_fields(opcode);
    reveal(Machine::dispatch_group_b);
    if (opcode >> 6) & 7 <= 2 {
        lemma_compare(m, opcode, op);
    } else if (opcode >> 6) & 7 == 3 || (opcode >> 6) & 7 == 7 {
        lemma_alu_to_address(m, opcode, op);
    } else {
        lemma_eor(m, opcode, op);
    }
}

/// ADDX and SUBX between data registers.
#[verifier::spinoff_prover]
proof fn lemma_extended(m: Machine, opcode: u16, op: DecodedSimpleOp)
    requires
        quiet(m),
        (opcode >> 3) & 7 == 0,
        4 <= (opcode >> 6) & 7 <= 6,
        (opcode >> 12) & 0xF == 0x9 || (opcode >> 12) & 0xF == 0xD,
        crate::op_cache::decode_group_alu_reg(m.cpu.model.cpu_type, opcode) == Some(op),
    ensures
        agrees(m, m.exec_extended_rr(opcode), op),
{
    lemma_size_forms(opcode);
    crate::bits::lemma_fields(opcode);
    reveal(Machine::exec_extended_rr);
    reveal(CpuCore::spec_exec_simple);
    reveal(CpuCore::spec_exec_simple_extended);
    reveal(CpuCore::spec_exec_addx);
    reveal(CpuCore::spec_exec_subx);
    reveal(CpuCore::spec_set_sub_flags);
    reveal(CpuCore::spec_set_add_flags);
    reveal(CpuCore::spec_set_compare_flags);
    let size = crate::decode_arith::decode_size_00((opcode >> 6) & 3);
    let src = m.cpu.d((opcode & 7) as usize) & size.mask();
    let dst = m.cpu.d(((opcode >> 9) & 7) as usize) & size.mask();
    lemma_quiet_tails(m.on_cpu(m.cpu.spec_exec_addx(size, src, dst).0), AddressingMode::DataDirect(0), size);
    lemma_quiet_tails(m.on_cpu(m.cpu.spec_exec_subx(size, src, dst).0), AddressingMode::DataDirect(0), size);
}

/// The remaining forms of the arithmetic and logic groups.
proof fn lemma_groups_8_9_c_d(m: Machine, opcode: u16, op: DecodedSimpleOp)
    requires
        quiet(m),
        crate::op_cache::decode_group_alu_reg(m.cpu.model.cpu_type, opcode) == Some(op),
    ensures
        (opcode >> 12) & 0xF == 0x8 ==> agrees(m, m.dispatch_group_8(opcode), op),
        (opcode >> 12) & 0xF == 0x9 ==> agrees(m, m.dispatch_group_9(opcode), op),
        (opcode >> 12) & 0xF == 0xC ==> agrees(m, m.dispatch_group_c(opcode), op),
        (opcode >> 12) & 0xF == 0xD ==> agrees(m, m.dispatch_group_d(opcode), op),
{
    lemma_size_forms(opcode);
    crate::bits::lemma_fields(opcode);
    reveal(Machine::dispatch_group_8);
    reveal(Machine::dispatch_group_9);
    reveal(Machine::dispatch_group_c);
    reveal(Machine::dispatch_group_d);
    reveal(Machine::dispatch_add_sub);
    let group = (opcode >> 12) & 0xF;
    if (opcode >> 6) & 7 <= 2 {
        if group == 0x8 || group == 0x9 || group == 0xC || group == 0xD {
            lemma_alu_to_register(m, opcode, op);
        }
    } else if group == 0x9 || group == 0xD {
        if (opcode >> 6) & 7 == 3 || (opcode >> 6) & 7 == 7 {
            lemma_alu_to_address(m, opcode, op);
        } else {
            lemma_extended(m, opcode, op);
        }
    } else {
        reveal(CpuCore::spec_exec_simple);
        reveal(CpuCore::spec_exec_sbcd_rr);
        reveal(CpuCore::spec_exec_abcd_rr);
        reveal(CpuCore::spec_exec_exg);
    }
}

/// The machine after the 68040 synchronized its pipeline, which the tracer
/// counts as a change of flow.
pub open spec fn synchronized(m: Machine) -> Machine {
    m.on_cpu(CpuCore { run: RunState { change_of_flow: true, ..m.cpu.run }, ..m.cpu })
}

/// A decoded operation does what the dispatcher does with its opcode:
/// executing the decoded form leaves the machine in the same state. After NOP
/// on a 68040 the dispatcher has recorded a change of flow besides.
pub proof fn law_simple_op_is_dispatch(m: Machine, opcode: u16, op: DecodedSimpleOp)
    requires
        quiet(m),
        decode_simple(m.cpu.model.cpu_type, opcode) == Some(op),
    ensures
        ({
            let done = m.dispatch_instruction(opcode).0;
            let fast = m.on_cpu(m.cpu.spec_exec_simple(op).0);
            done == (if opcode == 0x4E71 && m.cpu.is_040() {
                synchronized(fast)
            } else {
                fast
            })
        }),
        m.dispatch_instruction(opcode).1 is Completed,
{
    reveal(Machine::dispatch_instruction);
    crate::bits::lemma_fields(opcode);
    lemma_group_4_forms(opcode);
    match (opcode >> 12) & 0xF {
        0x0 => lemma_bit(m, opcode, op),
        0x1 => lemma_move(m, opcode, Size::Byte, op),
        0x2 => lemma_move(m, opcode, Size::Long, op),
        0x3 => lemma_move(m, opcode, Size::Word, op),
        0x4 => {
            if opcode != 0x4E71 && crate::op_cache::decode_group_4_reg(opcode) == Some(op) {
                lemma_unary(m, opcode, op);
            } else {
                lemma_group_4_other(m, opcode, op);
            }
        },
        0x5 => {
            if (opcode >> 6) & 3 == 3 {
                lemma_scc(m, opcode, op);
            } else {
                lemma_quick(m, opcode, op);
            }
        },
        0x6 => lemma_branch(m, opcode, op),
        0x7 => lemma_moveq(m, opcode, op),
        0xB => lemma_group_b(m, opcode, op),
        0xE => lemma_shift(m, opcode, op),
        _ => lemma_groups_8_9_c_d(m, opcode, op),
    }
}

/// The register decoder takes only what the dispatcher completes: no opcode
/// that traps or is illegal.
pub proof fn law_simple_op_is_legal(m: Machine, opcode: u16)
    requires
        quiet(m),
        decode_simple(m.cpu.model.cpu_type, opcode) is Some,
    ensures
        m.dispatch_instruction(opcode).1 is Completed,
{
    law_simple_op_is_dispatch(m, opcode, decode_simple(m.cpu.model.cpu_type, opcode)->0);
}

/// An IPL poll changes nothing in the processor.
proof fn lemma_poll_keeps_cpu(m: Machine)
    ensures
        m.ipl_poll_point().cpu == m.cpu,
{
    reveal(Machine::ipl_poll_point);
}

/// A word read for the queue faults or keeps the model.
proof fn lemma_prefetch_read_keeps_model(m: Machine, addr: u32)
    ensures
        ({
            let after = m.prefetch_read(addr);
            after.0.cpu.faulted() || after.0.cpu.model == m.cpu.model
        }),
{
    reveal(Machine::prefetch_read);
    reveal(Machine::flush_sync);
    reveal(Machine::trigger_bus_error);
    reveal(Machine::deliver_bus_error);
    reveal(CpuCore::spec_double_fault);
    reveal(CpuCore::spec_mark_faulted);
}

/// Topping up the queue faults or keeps the model.
proof fn lemma_prefetch_keeps_model(m: Machine)
    ensures
        m.top_up_prefetch().cpu.faulted() || m.top_up_prefetch().cpu.model == m.cpu.model,
{
    reveal(Machine::top_up_prefetch);
    reveal(Machine::top_up_prefetch_one);
    lemma_prefetch_read_keeps_model(m, m.cpu.pc);
    lemma_prefetch_read_keeps_model(m, m.cpu.pc.wrapping_add(2));
    let once = m.top_up_prefetch_one();
    lemma_prefetch_read_keeps_model(once, once.cpu.pc);
    lemma_prefetch_read_keeps_model(once, once.cpu.pc.wrapping_add(2));
}

/// The opcodes that the boundary-hook runner decodes.
proof fn lemma_boundary_forms(cpu_type: CpuType, opcode: u16)
    ensures
        match crate::execute::decode_boundary_hook_op(cpu_type, opcode) {
            None => true,
            Some(DecodedSimpleOp::Nop) => opcode == 0x4E71 && cpu_type != CpuType::M68040,
            Some(DecodedSimpleOp::Moveq { reg, data }) => {
                &&& (opcode >> 12) & 0xF == 7
                &&& opcode & 0x0100 == 0
                &&& reg == ((opcode >> 9) & 7) as u8
                &&& data == crate::prefetch::sext8((opcode & 0xFF) as u8)
            },
            Some(DecodedSimpleOp::UnaryDataReg { op, reg, size }) => {
                &&& (opcode >> 12) & 0xF == 4
                &&& op == UnaryOp::Clr
                &&& crate::op_cache::decode_group_4_reg(opcode) == Some(
                    DecodedSimpleOp::UnaryDataReg { op, reg, size },
                )
            },
            _ => false,
        },
{
    crate::bits::lemma_fields(opcode);
    lemma_group_4_forms(opcode);
}

/// CLR of a data register does what the decoded form does, but on the 68000.
#[verifier::spinoff_prover]
proof fn lemma_boundary_clear(m: Machine, reg: u8, size: Size)
    requires
        !m.cpu.faulted(),
        crate::laws_window::model_agrees(m.cpu),
    ensures
        ({
            let (after, cycles) = m.exec_clr(size, AddressingMode::DataDirect(reg));
            let (fast, count) = m.cpu.spec_exec_simple_unary(UnaryOp::Clr, reg as usize, size);
            &&& cycles >= 0
            &&& fast.model == m.cpu.model
            &&& crate::timing::unary_rmw_cycles(AddressingMode::DataDirect(reg), size) >= 0
            &&& m.cpu.model.cpu_type != CpuType::M68000 ==> after == m.on_cpu(fast) && cycles == count
            &&& m.cpu.model.cpu_type == CpuType::M68000 ==> after.cpu.faulted() || after.cpu.model == m.cpu.model
                && cycles == crate::timing::unary_rmw_cycles(AddressingMode::DataDirect(reg), size)
        }),
{
    lemma_data_operand(m, reg, size, 0);
    reveal(Machine::exec_clr);
    reveal(Machine::finish_unary);
    reveal(CpuCore::spec_exec_simple_unary);
    reveal(CpuCore::spec_set_logic_flags);
    reveal(CpuCore::spec_write_data_reg);
    reveal(CpuCore::spec_set_d);
    lemma_prefetch_keeps_model(m);
    lemma_poll_keeps_cpu(m.top_up_prefetch());
    reveal(Machine::flush_sync);
    reveal(CpuCore::spec_internal_cycles);
}

/// The dispatcher of the boundary-hook runner is the dispatcher: it leaves
/// the same machine, and reports the same outcome unless the instruction
/// faulted on its way.
#[verifier::spinoff_prover]
pub proof fn law_boundary_dispatch_agrees(m: Machine, opcode: u16)
    requires
        !m.cpu.faulted(),
        crate::laws_window::model_agrees(m.cpu),
    ensures
        m.dispatch_boundary_hook_decoded(opcode).0 == m.dispatch_instruction(opcode).0,
        !m.dispatch_instruction(opcode).0.cpu.faulted() ==> m.dispatch_boundary_hook_decoded(opcode).1
            == m.dispatch_instruction(opcode).1,
{
    reveal(Machine::dispatch_boundary_hook_decoded);
    reveal(Machine::dispatch_instruction);
    lemma_boundary_forms(m.cpu.model.cpu_type, opcode);
    lemma_group_4_forms(opcode);
    crate::bits::lemma_fields(opcode);
    match crate::execute::decode_boundary_hook_op(m.cpu.model.cpu_type, opcode) {
        Some(DecodedSimpleOp::Moveq { reg: _, data: _ }) => {
            reveal(CpuCore::spec_dispatch_moveq);
            reveal(CpuCore::spec_exec_simple);
        },
        Some(DecodedSimpleOp::Nop) => {
            reveal(Machine::dispatch_group_4);
            reveal(Machine::dispatch_one_operand);
            reveal(Machine::dispatch_system);
            reveal(CpuCore::spec_trace_t0_68040_sync);
            reveal(CpuCore::spec_exec_simple);
        },
        Some(op) => {
            lemma_unary_route(m, opcode, op);
            reveal(Machine::exec_unary_group);
            reveal(CpuCore::spec_exec_simple);
            lemma_boundary_clear(m, (opcode & 7) as u8, op->UnaryDataReg_size);
        },
        None => {},
    }
}

} // verus!
