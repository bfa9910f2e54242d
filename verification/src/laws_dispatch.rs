//! Laws that tie the operations on the memory window to the dispatcher.

use vstd::prelude::*;
use crate::laws_operands;
use crate::laws_operands::Lender;
use crate::cpu::{CpuCore, PrefetchState, RunState};
use crate::ea::EaResult;
use crate::machine::Machine;
use crate::mem_ops::{addressing_mode, BitSource, Ctx, DecodedMemOp, FastEa, Loc, Window};
use crate::op_cache::{AddrOp, BinaryOp, BitOp};
use crate::types::{is_pre_68020, Size};

verus! {

/// MOVE and MOVEA.
proof fn lemma_move(lend: Lender, w: Window, size: Size, src: FastEa, dst: FastEa)
    requires
        laws_operands::batched(lend, w.cpu, w.mem),
        laws_operands::in_range(src, w.cpu.start_ctx()),
        laws_operands::in_range(dst, w.cpu.start_ctx()),
        !(dst is Imm),
        dst is AddrReg ==> size != Size::Byte,
        w.mem_move(lend.win(), size, src, dst).1,
    ensures
        ({
            let after = w.mem_move(lend.win(), size, src, dst).0;
            match dst {
                FastEa::AddrReg(r) => laws_operands::finished(
                    lend,
                    laws_operands::over(lend, w.cpu, w.mem).exec_movea(size, addressing_mode(src), r as usize),
                    after,
                ),
                _ => laws_operands::finished(
                    lend,
                    laws_operands::over(lend, w.cpu, w.mem).exec_move(size, addressing_mode(src), addressing_mode(dst)),
                    after,
                ),
            }
        }),
{
    reveal(Window::mem_move);
    reveal(Window::store);
    let start = w.cpu.start_ctx();
    let from = w.cpu.spec_resolve(w.mem, lend.win(), src, size, start)->0;
    let value = w.cpu.spec_load(w.mem, from.0, size);
    laws_operands::lemma_first(lend, w.cpu, w.mem, src, size, from);
    laws_operands::lemma_commit(w.cpu, from.1.pending, 0);
    match dst {
        FastEa::AddrReg(_) => {
            reveal(Machine::exec_movea);
            reveal(CpuCore::spec_set_a);
        },
        _ => {
            reveal(Machine::exec_move);
            reveal(CpuCore::spec_set_logic_flags);
            let to = w.cpu.spec_resolve(w.mem, lend.win(), dst, size, from.1)->0;
            laws_operands::lemma_resolve(lend, w.cpu, w.mem, dst, size, from.1, to);
            laws_operands::lemma_commit(w.cpu, to.1.pending, 0);
            let operand = laws_operands::over(lend, laws_operands::at(w.cpu, from.1), w.mem).resolve_ea(addressing_mode(dst), size).1;
            match to.0 {
                Loc::Mem(off) => {
                    laws_operands::lemma_store(lend, laws_operands::at(w.cpu, to.1), w.mem, operand->Memory_0, size, value, off);
                },
                _ => {
                    reveal(Machine::write_resolved_ea);
                    reveal(CpuCore::spec_write_data_reg);
                    reveal(CpuCore::spec_set_d);
                },
            }
        },
    }
}

/// TST.
proof fn lemma_tst(lend: Lender, w: Window, opcode: u16, size: Size, ea: FastEa)
    requires
        laws_operands::batched(lend, w.cpu, w.mem),
        crate::mem_ops::source_ea(opcode) == Some(ea),
        crate::mem_ops::is_data_alterable(ea),
        size == crate::decode_arith::decode_size_00((opcode >> 6) & 3),
        w.mem_tst(lend.win(), size, ea).1,
    ensures
        laws_operands::finished(lend, laws_operands::over(lend, w.cpu, w.mem).exec_tst_group(opcode), w.mem_tst(lend.win(), size, ea).0),
{
    reveal(Window::mem_tst);
    reveal(Machine::exec_tst_group);
    reveal(Machine::exec_tst);
    reveal(CpuCore::spec_set_logic_flags);
    laws_operands::lemma_modes(opcode);
    let found = w.cpu.spec_resolve(w.mem, lend.win(), ea, size, w.cpu.start_ctx())->0;
    laws_operands::lemma_first(lend, w.cpu, w.mem, ea, size, found);
    laws_operands::lemma_commit(w.cpu, found.1.pending, 0);
}

/// CLR of an operand in memory.
#[verifier::spinoff_prover]
proof fn lemma_clear(lend: Lender, w: Window, size: Size, ea: FastEa)
    requires
        laws_operands::batched(lend, w.cpu, w.mem),
        laws_operands::in_range(ea, w.cpu.start_ctx()),
        crate::mem_ops::is_memory(ea),
        w.mem_clr(lend.win(), size, ea).1,
    ensures
        laws_operands::finished(
            lend,
            laws_operands::over(lend, w.cpu, w.mem).exec_clr(size, addressing_mode(ea)),
            w.mem_clr(lend.win(), size, ea).0,
        ),
{
    reveal(Window::mem_clr);
    reveal(Window::store);
    reveal(Machine::exec_clr);
    reveal(Machine::finish_unary);
    reveal(CpuCore::spec_set_logic_flags);
    let found = w.cpu.spec_resolve(w.mem, lend.win(), ea, size, w.cpu.start_ctx())->0;
    laws_operands::lemma_first(lend, w.cpu, w.mem, ea, size, found);
    laws_operands::lemma_commit(w.cpu, found.1.pending, 0);
    let moved = laws_operands::at(w.cpu, found.1);
    let raw = laws_operands::over(lend, w.cpu, w.mem).resolve_ea(addressing_mode(ea), size).1->Memory_0;
    laws_operands::lemma_store(lend, moved, w.mem, raw, size, 0, found.0->Mem_0);
}

/// NEG of an operand in memory.
#[verifier::spinoff_prover]
proof fn lemma_negate(lend: Lender, w: Window, size: Size, ea: FastEa)
    requires
        laws_operands::batched(lend, w.cpu, w.mem),
        laws_operands::in_range(ea, w.cpu.start_ctx()),
        crate::mem_ops::is_memory(ea),
        w.mem_neg(lend.win(), size, ea).1,
    ensures
        laws_operands::finished(
            lend,
            laws_operands::over(lend, w.cpu, w.mem).exec_neg(size, addressing_mode(ea)),
            w.mem_neg(lend.win(), size, ea).0,
        ),
{
    reveal(Window::mem_neg);
    reveal(Window::store);
    reveal(Machine::exec_neg);
    reveal(Machine::finish_unary);
    reveal(CpuCore::spec_set_sub_flags);
    reveal(CpuCore::spec_set_compare_flags);
    let found = w.cpu.spec_resolve(w.mem, lend.win(), ea, size, w.cpu.start_ctx())->0;
    laws_operands::lemma_first(lend, w.cpu, w.mem, ea, size, found);
    laws_operands::lemma_commit(w.cpu, found.1.pending, 0);
    let moved = laws_operands::at(w.cpu, found.1);
    let raw = laws_operands::over(lend, w.cpu, w.mem).resolve_ea(addressing_mode(ea), size).1->Memory_0;
    let value = w.cpu.spec_load(w.mem, found.0, size);
    let result = 0u32.wrapping_sub(value);
    crate::laws_fast::lemma_masked(value, 0, result);
    laws_operands::lemma_store(lend, moved, w.mem, raw, size, result & size.mask(), found.0->Mem_0);
}

/// NOT of an operand in memory.
#[verifier::spinoff_prover]
proof fn lemma_complement(lend: Lender, w: Window, size: Size, ea: FastEa)
    requires
        laws_operands::batched(lend, w.cpu, w.mem),
        laws_operands::in_range(ea, w.cpu.start_ctx()),
        crate::mem_ops::is_memory(ea),
        w.mem_not(lend.win(), size, ea).1,
    ensures
        laws_operands::finished(
            lend,
            laws_operands::over(lend, w.cpu, w.mem).exec_not(size, addressing_mode(ea)),
            w.mem_not(lend.win(), size, ea).0,
        ),
{
    reveal(Window::mem_not);
    reveal(Window::store);
    reveal(Machine::exec_not);
    reveal(Machine::finish_unary);
    reveal(CpuCore::spec_set_logic_flags);
    let found = w.cpu.spec_resolve(w.mem, lend.win(), ea, size, w.cpu.start_ctx())->0;
    laws_operands::lemma_first(lend, w.cpu, w.mem, ea, size, found);
    laws_operands::lemma_commit(w.cpu, found.1.pending, 0);
    let moved = laws_operands::at(w.cpu, found.1);
    let raw = laws_operands::over(lend, w.cpu, w.mem).resolve_ea(addressing_mode(ea), size).1->Memory_0;
    let value = w.cpu.spec_load(w.mem, found.0, size);
    laws_operands::lemma_store(lend, moved, w.mem, raw, size, !value & size.mask(), found.0->Mem_0);
}

/// CLR, NEG and NOT.
#[verifier::spinoff_prover]
proof fn lemma_unary(lend: Lender, w: Window, opcode: u16, size: Size, ea: FastEa)
    requires
        laws_operands::batched(lend, w.cpu, w.mem),
        crate::mem_ops::source_ea(opcode) == Some(ea),
        crate::mem_ops::is_data_alterable(ea),
        crate::mem_ops::is_memory(ea),
        size == crate::decode_arith::decode_size_00((opcode >> 6) & 3),
    ensures
        (opcode >> 8) & 0xF == 2 && w.mem_clr(lend.win(), size, ea).1 ==> laws_operands::finished(
            lend,
            laws_operands::over(lend, w.cpu, w.mem).exec_unary_group(opcode),
            w.mem_clr(lend.win(), size, ea).0,
        ),
        (opcode >> 8) & 0xF == 4 && w.mem_neg(lend.win(), size, ea).1 ==> laws_operands::finished(
            lend,
            laws_operands::over(lend, w.cpu, w.mem).exec_unary_group(opcode),
            w.mem_neg(lend.win(), size, ea).0,
        ),
        (opcode >> 8) & 0xF == 6 && w.mem_not(lend.win(), size, ea).1 ==> laws_operands::finished(
            lend,
            laws_operands::over(lend, w.cpu, w.mem).exec_unary_group(opcode),
            w.mem_not(lend.win(), size, ea).0,
        ),
{
    reveal(Machine::exec_unary_group);
    laws_operands::lemma_modes(opcode);
    if (opcode >> 8) & 0xF == 2 && w.mem_clr(lend.win(), size, ea).1 {
        lemma_clear(lend, w, size, ea);
    } else if (opcode >> 8) & 0xF == 4 && w.mem_neg(lend.win(), size, ea).1 {
        lemma_negate(lend, w, size, ea);
    } else if (opcode >> 8) & 0xF == 6 && w.mem_not(lend.win(), size, ea).1 {
        lemma_complement(lend, w, size, ea);
    }
}

/// The arithmetic of the operations towards memory.
proof fn lemma_modified(cpu: CpuCore, size: Size, src: u32, dst: u32)
    ensures
        ({
            let result = crate::mem_ops::binary_result(BinaryOp::Add, src, dst);
            let done = cpu.spec_exec_add(size, src, dst);
            done.0 == cpu.spec_set_binary_flags(BinaryOp::Add, src, dst, result, size) && done.1.0 == result
                & size.mask()
        }),
        ({
            let result = crate::mem_ops::binary_result(BinaryOp::Sub, src, dst);
            let done = cpu.spec_exec_sub(size, src, dst);
            done.0 == cpu.spec_set_binary_flags(BinaryOp::Sub, src, dst, result, size) && done.1.0 == result
                & size.mask()
        }),
        ({
            let result = crate::mem_ops::binary_result(BinaryOp::And, src, dst);
            let done = cpu.spec_exec_and(size, src, dst);
            done.0 == cpu.spec_set_binary_flags(BinaryOp::And, src, dst, result, size) && done.1.0 == result
                & size.mask()
        }),
        ({
            let result = crate::mem_ops::binary_result(BinaryOp::Or, src, dst);
            let done = cpu.spec_exec_or(size, src, dst);
            done.0 == cpu.spec_set_binary_flags(BinaryOp::Or, src, dst, result, size) && done.1.0 == result
                & size.mask()
        }),
        ({
            let result = crate::mem_ops::binary_result(BinaryOp::Eor, src, dst);
            cpu.spec_set_logic_flags(result & size.mask(), size) == cpu.spec_set_binary_flags(
                BinaryOp::Eor,
                src,
                dst,
                result,
                size,
            )
        }),
        forall|op: BinaryOp, result: u32| #[trigger]
            cpu.spec_set_binary_flags(op, src, dst, result, size) == (CpuCore {
                ccr: cpu.spec_set_binary_flags(op, src, dst, result, size).ccr,
                ..cpu
            }),
{
    reveal(CpuCore::spec_set_binary_flags);
    reveal(CpuCore::spec_exec_add);
    reveal(CpuCore::spec_exec_sub);
    reveal(CpuCore::spec_exec_and);
    reveal(CpuCore::spec_exec_or);
    reveal(CpuCore::spec_set_logic_flags);
    reveal(CpuCore::spec_set_add_flags);
    reveal(CpuCore::spec_set_sub_flags);
    reveal(CpuCore::spec_set_compare_flags);
    crate::laws_fast::lemma_masked(src, dst, dst.wrapping_add(src));
    crate::laws_fast::lemma_masked(src, dst, dst.wrapping_sub(src));
    crate::laws_fast::lemma_masked(src, dst, src & dst);
    crate::laws_fast::lemma_masked(src, dst, src | dst);
    crate::laws_fast::lemma_masked(src, dst, src ^ dst);
}

/// Setting flags does not look at, nor change, anything else.
proof fn lemma_flags_commute(cpu: CpuCore, pc: u32, op: BinaryOp, src: u32, dst: u32, result: u32, size: Size)
    ensures
        (CpuCore { pc, ..cpu }).spec_set_binary_flags(op, src, dst, result, size) == (CpuCore {
            pc,
            ..cpu.spec_set_binary_flags(op, src, dst, result, size)
        }),
        cpu.spec_set_binary_flags(op, src, dst, result, size) == (CpuCore {
            ccr: cpu.spec_set_binary_flags(op, src, dst, result, size).ccr,
            ..cpu
        }),
{
    reveal(CpuCore::spec_set_binary_flags);
    reveal(CpuCore::spec_set_logic_flags);
    reveal(CpuCore::spec_set_add_flags);
    reveal(CpuCore::spec_set_sub_flags);
    reveal(CpuCore::spec_set_compare_flags);
}

/// The result of an operation towards memory, written by the dispatcher
/// after the flags and to the window before them.
#[verifier::spinoff_prover]
proof fn lemma_written(lend: Lender, w: Window, op: BinaryOp, size: Size, src: u32, ea: FastEa, ctx: Ctx, found: (Loc, Ctx), raw: u32)
    requires
        laws_operands::ready(lend, w.cpu, w.mem, found.1),
        w.cpu.spec_resolve(w.mem, lend.win(), ea, size, ctx) == Some(found),
        found.0 is Mem,
        found.1.pending.first matches Some(slot) ==> slot.0 < 8,
        found.1.pending.second is None,
        laws_operands::names(lend, w.cpu, w.mem, found.0, EaResult::Memory(raw), size),
        op != BinaryOp::Compare,
    ensures
        ({
            let moved = laws_operands::at(w.cpu, found.1);
            let old_value = w.cpu.spec_load(w.mem, found.0, size);
            let result = crate::mem_ops::binary_result(op, src, old_value);
            let flagged = moved.spec_set_binary_flags(op, src, old_value, result, size);
            laws_operands::settled(
                lend,
                laws_operands::over(lend, flagged, w.mem).write_resolved_ea_np_poll(
                    EaResult::Memory(raw),
                    size,
                    result & size.mask(),
                ),
                w.mem_modify(lend.win(), op, size, src, ea, ctx).0,
            )
        }),
{
    reveal(Window::mem_modify);
    reveal(Window::store);
    laws_operands::lemma_commit(w.cpu, found.1.pending, 0);
    let committed = w.cpu.spec_commit(found.1.pending);
    let moved = laws_operands::at(w.cpu, found.1);
    let old_value = w.cpu.spec_load(w.mem, found.0, size);
    let result = crate::mem_ops::binary_result(op, src, old_value);
    lemma_flags_commute(committed, found.1.next_ext, op, src, old_value, result, size);
    let flagged = moved.spec_set_binary_flags(op, src, old_value, result, size);
    laws_operands::lemma_store(lend, flagged, w.mem, raw, size, result & size.mask(), found.0->Mem_0);
}

/// ADDQ and SUBQ on an operand in memory.
#[verifier::spinoff_prover]
proof fn lemma_quick_operand(lend: Lender, w: Window, size: Size, ea: FastEa, data: u32, is_sub: bool)
    requires
        laws_operands::batched(lend, w.cpu, w.mem),
        laws_operands::in_range(ea, w.cpu.start_ctx()),
        crate::mem_ops::is_memory(ea),
        ({
            let op = if is_sub {
                BinaryOp::Sub
            } else {
                BinaryOp::Add
            };
            w.mem_modify(lend.win(), op, size, data, ea, w.cpu.start_ctx()).1
        }),
    ensures
        ({
            let op = if is_sub {
                BinaryOp::Sub
            } else {
                BinaryOp::Add
            };
            laws_operands::finished(
                lend,
                laws_operands::over(lend, w.cpu, w.mem).exec_quick(size, data, addressing_mode(ea), is_sub),
                w.mem_modify(lend.win(), op, size, data, ea, w.cpu.start_ctx()).0,
            )
        }),
{
    reveal(Machine::exec_quick);
    let op = if is_sub {
        BinaryOp::Sub
    } else {
        BinaryOp::Add
    };
    assert(w.cpu.spec_resolve(w.mem, lend.win(), ea, size, w.cpu.start_ctx()) is Some) by {
        reveal(Window::mem_modify);
    }
    let found = w.cpu.spec_resolve(w.mem, lend.win(), ea, size, w.cpu.start_ctx())->0;
    laws_operands::lemma_first(lend, w.cpu, w.mem, ea, size, found);
    let raw = laws_operands::over(lend, w.cpu, w.mem).resolve_ea(addressing_mode(ea), size).1->Memory_0;
    lemma_modified(laws_operands::at(w.cpu, found.1), size, data, w.cpu.spec_load(w.mem, found.0, size));
    lemma_written(lend, w, op, size, data, ea, w.cpu.start_ctx(), found, raw);
}

/// ADDQ and SUBQ to memory.
#[verifier::spinoff_prover]
proof fn lemma_quick(lend: Lender, w: Window, opcode: u16, size: Size, ea: FastEa, data: u32, is_sub: bool)
    requires
        laws_operands::batched(lend, w.cpu, w.mem),
        crate::mem_ops::source_ea(opcode) == Some(ea),
        crate::mem_ops::is_data_alterable(ea),
        crate::mem_ops::is_memory(ea),
        size == crate::decode_arith::decode_size_00((opcode >> 6) & 3),
        is_sub == (opcode & 0x100 != 0),
        data == (if (opcode >> 9) & 7 == 0 {
            8u32
        } else {
            ((opcode >> 9) & 7) as u32
        }),
        ({
            let op = if is_sub {
                BinaryOp::Sub
            } else {
                BinaryOp::Add
            };
            w.mem_modify(lend.win(), op, size, data, ea, w.cpu.start_ctx()).1
        }),
    ensures
        ({
            let op = if is_sub {
                BinaryOp::Sub
            } else {
                BinaryOp::Add
            };
            laws_operands::finished(
                lend,
                laws_operands::over(lend, w.cpu, w.mem).exec_quick_group(opcode),
                w.mem_modify(lend.win(), op, size, data, ea, w.cpu.start_ctx()).0,
            )
        }),
{
    reveal(Machine::exec_quick_group);
    laws_operands::lemma_modes(opcode);
    lemma_quick_operand(lend, w, size, ea, data, is_sub);
}

/// ADD, SUB, AND and OR of a data register to memory.
#[verifier::spinoff_prover]
proof fn lemma_to_memory(lend: Lender, w: Window, opcode: u16, op: BinaryOp, size: Size, ea: FastEa)
    requires
        laws_operands::batched(lend, w.cpu, w.mem),
        crate::mem_ops::source_ea(opcode) == Some(ea),
        crate::mem_ops::is_data_alterable(ea),
        crate::mem_ops::is_memory(ea),
        size == crate::decode_arith::decode_size_00((opcode >> 6) & 3),
        (opcode >> 6) & 3 != 3,
        crate::mem_ops::register_op((opcode >> 12) & 0xF) == Some(op),
        op != BinaryOp::Compare,
        ({
            let src = w.cpu.d(((opcode >> 9) & 7) as usize) & size.mask();
            w.mem_modify(lend.win(), op, size, src, ea, w.cpu.start_ctx()).1
        }),
    ensures
        ({
            let src = w.cpu.d(((opcode >> 9) & 7) as usize) & size.mask();
            laws_operands::finished(
                lend,
                laws_operands::over(lend, w.cpu, w.mem).exec_alu_to_memory(opcode),
                w.mem_modify(lend.win(), op, size, src, ea, w.cpu.start_ctx()).0,
            )
        }),
{
    reveal(Machine::exec_alu_to_memory);
    assert(w.cpu.spec_resolve(w.mem, lend.win(), ea, size, w.cpu.start_ctx()) is Some) by {
        reveal(Window::mem_modify);
    }
    laws_operands::lemma_modes(opcode);
    crate::bits::lemma_fields(opcode);
    let src = w.cpu.d(((opcode >> 9) & 7) as usize) & size.mask();
    let found = w.cpu.spec_resolve(w.mem, lend.win(), ea, size, w.cpu.start_ctx())->0;
    laws_operands::lemma_first(lend, w.cpu, w.mem, ea, size, found);
    let raw = laws_operands::over(lend, w.cpu, w.mem).resolve_ea(addressing_mode(ea), size).1->Memory_0;
    lemma_modified(laws_operands::at(w.cpu, found.1), size, src, w.cpu.spec_load(w.mem, found.0, size));
    lemma_written(lend, w, op, size, src, ea, w.cpu.start_ctx(), found, raw);
}

/// EOR of a data register to memory.
#[verifier::spinoff_prover]
proof fn lemma_eor(lend: Lender, w: Window, opcode: u16, size: Size, ea: FastEa)
    requires
        laws_operands::batched(lend, w.cpu, w.mem),
        crate::mem_ops::source_ea(opcode) == Some(ea),
        crate::mem_ops::is_data_alterable(ea),
        crate::mem_ops::is_memory(ea),
        size == crate::decode_arith::decode_size_00((opcode >> 6) & 3),
        (opcode >> 6) & 3 != 3,
        ({
            let src = w.cpu.d(((opcode >> 9) & 7) as usize) & size.mask();
            w.mem_modify(lend.win(), BinaryOp::Eor, size, src, ea, w.cpu.start_ctx()).1
        }),
    ensures
        ({
            let src = w.cpu.d(((opcode >> 9) & 7) as usize) & size.mask();
            laws_operands::finished(
                lend,
                laws_operands::over(lend, w.cpu, w.mem).exec_eor(opcode),
                w.mem_modify(lend.win(), BinaryOp::Eor, size, src, ea, w.cpu.start_ctx()).0,
            )
        }),
{
    reveal(Window::mem_modify);
    reveal(Window::store);
    reveal(Machine::exec_eor);
    laws_operands::lemma_modes(opcode);
    crate::bits::lemma_fields(opcode);
    let whole_src = w.cpu.d(((opcode >> 9) & 7) as usize);
    let src = whole_src & size.mask();
    let found = w.cpu.spec_resolve(w.mem, lend.win(), ea, size, w.cpu.start_ctx())->0;
    laws_operands::lemma_first(lend, w.cpu, w.mem, ea, size, found);
    let committed = w.cpu.spec_commit(found.1.pending);
    laws_operands::lemma_commit(w.cpu, found.1.pending, ((opcode >> 9) & 7) as u8);
    let moved = laws_operands::at(w.cpu, found.1);
    let raw = laws_operands::over(lend, w.cpu, w.mem).resolve_ea(addressing_mode(ea), size).1->Memory_0;
    let off = found.0->Mem_0;
    let old_value = w.cpu.spec_load(w.mem, found.0, size);
    let result = crate::mem_ops::binary_result(BinaryOp::Eor, src, old_value);
    crate::laws_fast::lemma_masked(whole_src, old_value, 0);
    lemma_modified(committed, size, src, old_value);
    laws_operands::lemma_store(lend, moved, w.mem, raw, size, result & size.mask(), off);
    reveal(CpuCore::spec_set_logic_flags);
}

/// The result of an operation on a data register, with PC set before it by
/// the dispatcher and after it in the window.
#[verifier::spinoff_prover]
proof fn lemma_register_written(lend: Lender, w: Window, op: BinaryOp, size: Size, ea: FastEa, reg: u8, found: (Loc, Ctx))
    requires
        w.cpu.spec_resolve(w.mem, lend.win(), ea, size, w.cpu.start_ctx()) == Some(found),
        found.1.pending.first matches Some(slot) ==> slot.0 < 8,
        found.1.pending.second is None,
        reg < 8,
        op != BinaryOp::Compare,
    ensures
        ({
            let moved = laws_operands::at(w.cpu, found.1);
            let value = w.cpu.spec_load(w.mem, found.0, size);
            let done = moved.spec_apply_binary_to_reg(op, size, value, moved.d(reg as usize) & size.mask(), reg as usize);
            w.mem_alu_to_reg(lend.win(), op, size, ea, reg).0 == Window { cpu: done, mem: w.mem }
        }),
{
    reveal(Window::mem_alu_to_reg);
    laws_operands::lemma_commit(w.cpu, found.1.pending, reg);
    let committed = w.cpu.spec_commit(found.1.pending);
    let moved = laws_operands::at(w.cpu, found.1);
    let value = w.cpu.spec_load(w.mem, found.0, size);
    let dst = moved.d(reg as usize) & size.mask();
    crate::laws_fast::lemma_binary(committed, size, value, dst, reg as usize);
    lemma_binary_commutes(committed, found.1.next_ext, op, size, value, dst, reg as usize);
}

/// ADD, SUB, AND and OR of an operand to a data register.
#[verifier::spinoff_prover]
proof fn lemma_to_register(lend: Lender, w: Window, opcode: u16, op: BinaryOp, size: Size, ea: FastEa)
    requires
        laws_operands::batched(lend, w.cpu, w.mem),
        crate::mem_ops::source_ea(opcode) == Some(ea),
        size == crate::decode_arith::decode_size_00((opcode >> 6) & 3),
        (opcode >> 6) & 7 <= 2,
        crate::mem_ops::register_op((opcode >> 12) & 0xF) == Some(op),
        op != BinaryOp::Compare,
        ea is AddrReg ==> size != Size::Byte && (op == BinaryOp::Add || op == BinaryOp::Sub),
        w.mem_alu_to_reg(lend.win(), op, size, ea, ((opcode >> 9) & 7) as u8).1,
    ensures
        laws_operands::finished(
            lend,
            laws_operands::over(lend, w.cpu, w.mem).exec_alu_to_register(opcode),
            w.mem_alu_to_reg(lend.win(), op, size, ea, ((opcode >> 9) & 7) as u8).0,
        ),
{
    reveal(Machine::exec_alu_to_register);
    assert(w.cpu.spec_resolve(w.mem, lend.win(), ea, size, w.cpu.start_ctx()) is Some) by {
        reveal(Window::mem_alu_to_reg);
    }
    laws_operands::lemma_modes(opcode);
    crate::bits::lemma_fields(opcode);
    crate::laws_fast::lemma_size_forms(opcode);
    let reg = ((opcode >> 9) & 7) as u8;
    let found = w.cpu.spec_resolve(w.mem, lend.win(), ea, size, w.cpu.start_ctx())->0;
    laws_operands::lemma_first(lend, w.cpu, w.mem, ea, size, found);
    laws_operands::lemma_commit(w.cpu, found.1.pending, reg);
    let moved = laws_operands::at(w.cpu, found.1);
    let value = w.cpu.spec_load(w.mem, found.0, size);
    let dst = moved.d(reg as usize) & size.mask();
    crate::laws_fast::lemma_binary(moved, size, value, dst, reg as usize);
    lemma_register_written(lend, w, op, size, ea, reg, found);
    let done = moved.spec_apply_binary_to_reg(op, size, value, dst, reg as usize);
    crate::laws_fast::lemma_quiet_tails(laws_operands::over(lend, done, w.mem), addressing_mode(ea), size);
}

/// An operation on a data register does not look at, nor change, PC.
proof fn lemma_binary_commutes(cpu: CpuCore, pc: u32, op: BinaryOp, size: Size, src: u32, dst: u32, reg: usize)
    ensures
        (CpuCore { pc, ..cpu }).spec_apply_binary_to_reg(op, size, src, dst, reg) == (CpuCore {
            pc,
            ..cpu.spec_apply_binary_to_reg(op, size, src, dst, reg)
        }),
{
    reveal(CpuCore::spec_apply_binary_to_reg);
    reveal(CpuCore::spec_set_logic_flags);
    reveal(CpuCore::spec_set_add_flags);
    reveal(CpuCore::spec_set_sub_flags);
    reveal(CpuCore::spec_set_compare_flags);
    reveal(CpuCore::spec_write_data_reg);
    reveal(CpuCore::spec_set_d);
}

/// CMP.
proof fn lemma_compare(lend: Lender, w: Window, opcode: u16, size: Size, ea: FastEa)
    requires
        laws_operands::batched(lend, w.cpu, w.mem),
        crate::mem_ops::source_ea(opcode) == Some(ea),
        size == crate::decode_arith::decode_size_00((opcode >> 6) & 3),
        (opcode >> 6) & 7 <= 2,
        ea is AddrReg ==> size != Size::Byte,
        w.mem_alu_to_reg(lend.win(), BinaryOp::Compare, size, ea, ((opcode >> 9) & 7) as u8).1,
    ensures
        laws_operands::finished(
            lend,
            laws_operands::over(lend, w.cpu, w.mem).exec_compare_register(opcode),
            w.mem_alu_to_reg(lend.win(), BinaryOp::Compare, size, ea, ((opcode >> 9) & 7) as u8).0,
        ),
{
    reveal(Window::mem_alu_to_reg);
    reveal(Machine::exec_compare_register);
    laws_operands::lemma_modes(opcode);
    crate::bits::lemma_fields(opcode);
    crate::laws_fast::lemma_size_forms(opcode);
    let reg = ((opcode >> 9) & 7) as u8;
    let found = w.cpu.spec_resolve(w.mem, lend.win(), ea, size, w.cpu.start_ctx())->0;
    laws_operands::lemma_first(lend, w.cpu, w.mem, ea, size, found);
    laws_operands::lemma_commit(w.cpu, found.1.pending, reg);
    let moved = laws_operands::at(w.cpu, found.1);
    let value = w.cpu.spec_load(w.mem, found.0, size);
    let dst = moved.d(reg as usize) & size.mask();
    laws_operands::lemma_load_masked(w.cpu, w.mem, found.0, size);
    reveal(CpuCore::spec_exec_compare);
    reveal(CpuCore::spec_apply_binary_to_reg);
    reveal(CpuCore::spec_set_compare_flags);
    crate::laws_fast::lemma_masked(value, dst, dst.wrapping_sub(value));
    let done = moved.spec_exec_compare(size, value, moved.d(reg as usize)).0;
    crate::laws_fast::lemma_quiet(laws_operands::over(lend, done, w.mem), 2);
}

/// ADDA, SUBA and CMPA.
#[verifier::spinoff_prover]
proof fn lemma_to_address(lend: Lender, w: Window, opcode: u16, op: AddrOp, size: Size, ea: FastEa)
    requires
        laws_operands::batched(lend, w.cpu, w.mem),
        crate::mem_ops::source_ea(opcode) == Some(ea),
        (opcode >> 6) & 7 == 3 || (opcode >> 6) & 7 == 7,
        size == (if (opcode >> 6) & 7 == 3 {
            Size::Word
        } else {
            Size::Long
        }),
        crate::mem_ops::address_op((opcode >> 12) & 0xF) == Some(op),
        w.mem_alu_addr(lend.win(), op, size, ea, ((opcode >> 9) & 7) as u8).1,
    ensures
        op != AddrOp::Compare ==> laws_operands::finished(
            lend,
            laws_operands::over(lend, w.cpu, w.mem).exec_alu_to_address(opcode),
            w.mem_alu_addr(lend.win(), op, size, ea, ((opcode >> 9) & 7) as u8).0,
        ),
        op == AddrOp::Compare ==> laws_operands::finished(
            lend,
            laws_operands::over(lend, w.cpu, w.mem).exec_compare_address(opcode),
            w.mem_alu_addr(lend.win(), op, size, ea, ((opcode >> 9) & 7) as u8).0,
        ),
{
    reveal(Window::mem_alu_addr);
    reveal(Machine::exec_alu_to_address);
    reveal(Machine::exec_compare_address);
    laws_operands::lemma_modes(opcode);
    crate::bits::lemma_fields(opcode);
    let reg = ((opcode >> 9) & 7) as u8;
    let found = w.cpu.spec_resolve(w.mem, lend.win(), ea, size, w.cpu.start_ctx())->0;
    laws_operands::lemma_first(lend, w.cpu, w.mem, ea, size, found);
    laws_operands::lemma_commit(w.cpu, found.1.pending, reg);
    let moved = laws_operands::at(w.cpu, found.1);
    let value = w.cpu.spec_load(w.mem, found.0, size);
    reveal(CpuCore::spec_apply_addr_op);
    reveal(CpuCore::spec_exec_adda);
    reveal(CpuCore::spec_exec_suba);
    reveal(CpuCore::spec_exec_compare_addr);
    reveal(CpuCore::spec_set_compare_flags);
    reveal(CpuCore::spec_set_a);
    let done = moved.spec_apply_addr_op(op, size, value, reg as usize).0;
    crate::laws_fast::lemma_quiet_tails(laws_operands::over(lend, done, w.mem), addressing_mode(ea), size);
    crate::laws_fast::lemma_quiet(laws_operands::over(lend, done, w.mem), 2);
}

/// CMPM.
proof fn lemma_compare_memory(lend: Lender, w: Window, opcode: u16, size: Size)
    requires
        laws_operands::batched(lend, w.cpu, w.mem),
        size == crate::decode_arith::decode_size_00((opcode >> 6) & 3),
        (opcode >> 6) & 3 != 3,
        w.mem_compare(lend.win(), size, (opcode & 7) as u8, ((opcode >> 9) & 7) as u8).1,
    ensures
        laws_operands::finished(
            lend,
            laws_operands::over(lend, w.cpu, w.mem).exec_compare_memory(opcode),
            w.mem_compare(lend.win(), size, (opcode & 7) as u8, ((opcode >> 9) & 7) as u8).0,
        ),
{
    reveal(Window::mem_compare);
    reveal(Machine::exec_compare_memory);
    crate::bits::lemma_fields(opcode);
    let src = FastEa::AnPostInc((opcode & 7) as u8);
    let dst = FastEa::AnPostInc(((opcode >> 9) & 7) as u8);
    let from = w.cpu.spec_resolve(w.mem, lend.win(), src, size, w.cpu.start_ctx())->0;
    laws_operands::lemma_first(lend, w.cpu, w.mem, src, size, from);
    laws_operands::lemma_commit(w.cpu, from.1.pending, 0);
    let to = w.cpu.spec_resolve(w.mem, lend.win(), dst, size, from.1)->0;
    laws_operands::lemma_resolve(lend, w.cpu, w.mem, dst, size, from.1, to);
    laws_operands::lemma_commit(w.cpu, to.1.pending, 0);
    let operand = laws_operands::over(lend, laws_operands::at(w.cpu, from.1), w.mem).resolve_ea(addressing_mode(dst), size).1;
    laws_operands::lemma_load(lend, w.cpu, w.mem, to.0, operand, size, to.1);
    let value = w.cpu.spec_load(w.mem, from.0, size);
    let other = w.cpu.spec_load(w.mem, to.0, size);
    laws_operands::lemma_load_masked(w.cpu, w.mem, from.0, size);
    laws_operands::lemma_load_masked(w.cpu, w.mem, to.0, size);
    crate::laws_fast::lemma_masked(value, other, other.wrapping_sub(value));
    crate::laws_fast::lemma_quiet(laws_operands::over(lend, laws_operands::at(w.cpu, to.1), w.mem), 2);
    reveal(CpuCore::spec_exec_compare);
    reveal(CpuCore::spec_set_compare_flags);
}

/// The result of ADDI or SUBI, written by the dispatcher after the flags and
/// to the window before them.
#[verifier::spinoff_prover]
proof fn lemma_immediate_written(lend: Lender, w: Window, op: BinaryOp, size: Size, ea: FastEa, imm: (u32, Ctx), to: (Loc, Ctx), operand: EaResult)
    requires
        laws_operands::ready(lend, w.cpu, w.mem, to.1),
        !w.cpu.queue.consume_without_prefetch,
        w.cpu.spec_resolve_immediate(w.mem, lend.win(), size, w.cpu.start_ctx()) == Some(imm),
        w.cpu.spec_resolve(w.mem, lend.win(), ea, size, imm.1) == Some(to),
        to.0 is Data || to.0 is Mem,
        to.1.pending.first matches Some(slot) ==> slot.0 < 8,
        to.1.pending.second is None,
        laws_operands::names(lend, w.cpu, w.mem, to.0, operand, size),
        op != BinaryOp::Compare,
    ensures
        ({
            let moved = laws_operands::at(w.cpu, to.1);
            let old_value = w.cpu.spec_load(w.mem, to.0, size);
            let result = crate::mem_ops::binary_result(op, imm.0, old_value);
            let flagged = moved.spec_set_binary_flags(op, imm.0, old_value, result, size);
            laws_operands::settled(
                lend,
                laws_operands::over(lend, flagged, w.mem).finish_immediate(operand, size, result & size.mask()),
                w.mem_alu_imm(lend.win(), op, size, ea).0,
            )
        }),
{
    reveal(Window::mem_alu_imm);
    reveal(Window::mem_modify);
    let committed = w.cpu.spec_commit(to.1.pending);
    laws_operands::lemma_commit(w.cpu, to.1.pending, 0);
    let moved = laws_operands::at(w.cpu, to.1);
    let old_value = w.cpu.spec_load(w.mem, to.0, size);
    let result = crate::mem_ops::binary_result(op, imm.0, old_value);
    lemma_flags_commute(committed, to.1.next_ext, op, imm.0, old_value, result, size);
    let flagged = moved.spec_set_binary_flags(op, imm.0, old_value, result, size);
    lemma_finish_immediate(lend, w, to, operand, size, flagged, committed, op, imm.0, old_value, result);
}

/// ADDI and SUBI.
#[verifier::spinoff_prover]
#[verifier::rlimit(40)]
proof fn lemma_arith_immediate(lend: Lender, w: Window, opcode: u16, size: Size, ea: FastEa, is_sub: bool)
    requires
        laws_operands::batched(lend, w.cpu, w.mem),
        crate::mem_ops::source_ea(opcode) == Some(ea),
        crate::mem_ops::is_data_alterable(ea),
        size == crate::decode_arith::decode_size_00((opcode >> 6) & 3),
        (opcode >> 6) & 3 != 3,
        ({
            let op = if is_sub {
                BinaryOp::Sub
            } else {
                BinaryOp::Add
            };
            w.mem_alu_imm(lend.win(), op, size, ea).1
        }),
    ensures
        ({
            let op = if is_sub {
                BinaryOp::Sub
            } else {
                BinaryOp::Add
            };
            laws_operands::finished(
                lend,
                laws_operands::over(lend, w.cpu, w.mem).exec_arith_immediate(opcode, is_sub),
                w.mem_alu_imm(lend.win(), op, size, ea).0,
            )
        }),
{
    reveal(Machine::exec_arith_immediate);
    reveal(CpuCore::spec_exec_add);
    assert(w.cpu.spec_resolve_immediate(w.mem, lend.win(), size, w.cpu.start_ctx()) is Some && w.cpu.spec_resolve(
        w.mem,
        lend.win(),
        ea,
        size,
        (w.cpu.spec_resolve_immediate(w.mem, lend.win(), size, w.cpu.start_ctx())->0).1,
    ) is Some) by {
        reveal(Window::mem_alu_imm);
        reveal(Window::mem_modify);
    }
    laws_operands::lemma_modes(opcode);
    let op = if is_sub {
        BinaryOp::Sub
    } else {
        BinaryOp::Add
    };
    let imm = w.cpu.spec_resolve_immediate(w.mem, lend.win(), size, w.cpu.start_ctx())->0;
    let to = w.cpu.spec_resolve(w.mem, lend.win(), ea, size, imm.1)->0;
    laws_operands::lemma_immediate_pair(lend, w, size, ea, imm, to);
    let operand = laws_operands::over(lend, laws_operands::at(w.cpu, imm.1), w.mem).resolve_ea(addressing_mode(ea), size).1;
    lemma_modified(laws_operands::at(w.cpu, to.1), size, imm.0, w.cpu.spec_load(w.mem, to.0, size));
    lemma_immediate_written(lend, w, op, size, ea, imm, to, operand);
}

/// The result of an immediate instruction, written by the dispatcher after
/// the flags and to the window before them.
#[verifier::spinoff_prover]
proof fn lemma_finish_immediate(
    lend: Lender,
    w: Window,
    to: (Loc, Ctx),
    operand: EaResult,
    size: Size,
    flagged: CpuCore,
    committed: CpuCore,
    op: BinaryOp,
    src: u32,
    dst: u32,
    result: u32,
)
    requires
        laws_operands::fetching(lend, flagged, w.mem),
        !flagged.queue.consume_without_prefetch,
        laws_operands::names(lend, w.cpu, w.mem, to.0, operand, size),
        to.0 is Data || to.0 is Mem,
        w.cpu.model == committed.model,
        committed.model == flagged.model,
        flagged == (CpuCore { pc: to.1.next_ext, ..committed.spec_set_binary_flags(op, src, dst, result, size) }),
    ensures
        laws_operands::settled(
            lend,
            laws_operands::over(lend, flagged, w.mem).finish_immediate(operand, size, result & size.mask()),
            Window {
                cpu: CpuCore {
                    pc: to.1.next_ext,
                    ..Window { cpu: committed, mem: w.mem }.store(to.0, size, result & size.mask()).cpu.spec_set_binary_flags(op, src, dst, result, size)
                },
                mem: Window { cpu: committed, mem: w.mem }.store(to.0, size, result & size.mask()).mem,
            },
        ),
{
    reveal(Machine::finish_immediate);
    reveal(Window::store);
    match to.0 {
        Loc::Mem(off) => {
            laws_operands::lemma_store(lend, flagged, w.mem, operand->Memory_0, size, result & size.mask(), off);
        },
        _ => {
            reveal(Machine::finish_m68000_immediate_data_register_write);
            reveal(Machine::write_resolved_ea);
            reveal(CpuCore::spec_write_data_reg);
            reveal(CpuCore::spec_set_d);
            crate::laws_fast::lemma_quiet(laws_operands::over(lend, flagged, w.mem), 4);
            reveal(CpuCore::spec_set_binary_flags);
            reveal(CpuCore::spec_set_logic_flags);
            reveal(CpuCore::spec_set_add_flags);
            reveal(CpuCore::spec_set_sub_flags);
            reveal(CpuCore::spec_set_compare_flags);
        },
    }
}

/// The flags of a logical operation.
proof fn lemma_logic_flags(cpu: CpuCore, op: BinaryOp, src: u32, dst: u32, size: Size)
    requires
        op == BinaryOp::Or || op == BinaryOp::And || op == BinaryOp::Eor,
    ensures
        ({
            let result = crate::mem_ops::binary_result(op, src, dst);
            cpu.spec_set_binary_flags(op, src, dst, result, size) == cpu.spec_set_logic_flags(
                result & size.mask(),
                size,
            )
        }),
{
    reveal(CpuCore::spec_set_binary_flags);
    reveal(CpuCore::spec_set_logic_flags);
    crate::laws_fast::lemma_masked(src, dst, crate::mem_ops::binary_result(op, src, dst));
}

/// The result of ORI, ANDI or EORI, written to the window as the dispatcher
/// writes it.
#[verifier::spinoff_prover]
proof fn lemma_logic_written(lend: Lender, w: Window, op: BinaryOp, size: Size, ea: FastEa, imm: (u32, Ctx), to: (Loc, Ctx), operand: EaResult)
    requires
        laws_operands::ready(lend, w.cpu, w.mem, to.1),
        !w.cpu.queue.consume_without_prefetch,
        w.cpu.spec_resolve_immediate(w.mem, lend.win(), size, w.cpu.start_ctx()) == Some(imm),
        w.cpu.spec_resolve(w.mem, lend.win(), ea, size, imm.1) == Some(to),
        to.0 is Data || to.0 is Mem,
        to.1.pending.first matches Some(slot) ==> slot.0 < 8,
        to.1.pending.second is None,
        laws_operands::names(lend, w.cpu, w.mem, to.0, operand, size),
        op == BinaryOp::Or || op == BinaryOp::And || op == BinaryOp::Eor,
    ensures
        ({
            let old_value = w.cpu.spec_load(w.mem, to.0, size);
            let result = crate::mem_ops::binary_result(op, imm.0, old_value) & size.mask();
            let moved = laws_operands::over(lend, laws_operands::at(w.cpu, to.1), w.mem);
            let after = moved.finish_immediate(operand, size, result);
            &&& !after.cpu.faulted()
            &&& laws_operands::settled(
                lend,
                after.on_cpu(after.cpu.spec_set_logic_flags(result, size)),
                w.mem_alu_imm(lend.win(), op, size, ea).0,
            )
        }),
{
    reveal(Window::mem_alu_imm);
    reveal(Window::mem_modify);
    reveal(Window::store);
    reveal(Machine::finish_immediate);
    laws_operands::lemma_commit(w.cpu, to.1.pending, 0);
    let moved = laws_operands::at(w.cpu, to.1);
    let old_value = w.cpu.spec_load(w.mem, to.0, size);
    let result = crate::mem_ops::binary_result(op, imm.0, old_value);
    let committed = w.cpu.spec_commit(to.1.pending);
    let stored = Window { cpu: committed, mem: w.mem }.store(to.0, size, result & size.mask());
    lemma_logic_flags(stored.cpu, op, imm.0, old_value, size);
    reveal(CpuCore::spec_set_logic_flags);
    match to.0 {
        Loc::Mem(off) => {
            laws_operands::lemma_store(lend, moved, w.mem, operand->Memory_0, size, result & size.mask(), off);
        },
        _ => {
            reveal(Machine::finish_m68000_immediate_data_register_write);
            reveal(Machine::write_resolved_ea);
            reveal(CpuCore::spec_write_data_reg);
            reveal(CpuCore::spec_set_d);
            crate::laws_fast::lemma_quiet(laws_operands::over(lend, moved, w.mem), 4);
        },
    }
}

/// ORI, ANDI and EORI on an operand.
#[verifier::spinoff_prover]
#[verifier::rlimit(40)]
proof fn lemma_logic_operand(lend: Lender, w: Window, operation: u16, op: BinaryOp, size: Size, ea: FastEa)
    requires
        laws_operands::batched(lend, w.cpu, w.mem),
        laws_operands::in_range(ea, w.cpu.start_ctx()),
        crate::mem_ops::is_data_alterable(ea),
        op == (match operation {
            0x0 => BinaryOp::Or,
            0x2 => BinaryOp::And,
            _ => BinaryOp::Eor,
        }),
        w.mem_alu_imm(lend.win(), op, size, ea).1,
    ensures
        laws_operands::finished(
            lend,
            laws_operands::over(lend, w.cpu, w.mem).exec_logic_immediate(operation, size, addressing_mode(ea)),
            w.mem_alu_imm(lend.win(), op, size, ea).0,
        ),
{
    reveal(Machine::exec_logic_immediate);
    assert(w.cpu.spec_resolve_immediate(w.mem, lend.win(), size, w.cpu.start_ctx()) is Some && w.cpu.spec_resolve(
        w.mem,
        lend.win(),
        ea,
        size,
        (w.cpu.spec_resolve_immediate(w.mem, lend.win(), size, w.cpu.start_ctx())->0).1,
    ) is Some) by {
        reveal(Window::mem_alu_imm);
        reveal(Window::mem_modify);
    }
    let imm = w.cpu.spec_resolve_immediate(w.mem, lend.win(), size, w.cpu.start_ctx())->0;
    let to = w.cpu.spec_resolve(w.mem, lend.win(), ea, size, imm.1)->0;
    laws_operands::lemma_immediate_pair(lend, w, size, ea, imm, to);
    let operand = laws_operands::over(lend, laws_operands::at(w.cpu, imm.1), w.mem).resolve_ea(addressing_mode(ea), size).1;
    lemma_logic_written(lend, w, op, size, ea, imm, to, operand);
}

/// ORI, ANDI and EORI.
#[verifier::spinoff_prover]
#[verifier::rlimit(40)]
proof fn lemma_logic_immediate(lend: Lender, w: Window, opcode: u16, op: BinaryOp, size: Size, ea: FastEa)
    requires
        laws_operands::batched(lend, w.cpu, w.mem),
        crate::mem_ops::source_ea(opcode) == Some(ea),
        crate::mem_ops::is_data_alterable(ea),
        size == crate::decode_arith::decode_size_00((opcode >> 6) & 3),
        (opcode >> 6) & 3 != 3,
        op == (match (opcode >> 8) & 0xF {
            0x0 => BinaryOp::Or,
            0x2 => BinaryOp::And,
            _ => BinaryOp::Eor,
        }),
        w.mem_alu_imm(lend.win(), op, size, ea).1,
    ensures
        laws_operands::finished(
            lend,
            laws_operands::over(lend, w.cpu, w.mem).exec_logic_group(opcode),
            w.mem_alu_imm(lend.win(), op, size, ea).0,
        ),
{
    reveal(Machine::exec_logic_group);
    laws_operands::lemma_modes(opcode);
    crate::bits::lemma_fields(opcode);
    lemma_logic_operand(lend, w, (opcode >> 8) & 0xF, op, size, ea);
}

/// CMPI.
#[verifier::spinoff_prover]
#[verifier::rlimit(40)]
proof fn lemma_compare_immediate(lend: Lender, w: Window, opcode: u16, size: Size, ea: FastEa)
    requires
        laws_operands::batched(lend, w.cpu, w.mem),
        crate::mem_ops::source_ea(opcode) == Some(ea),
        crate::mem_ops::is_data_alterable(ea),
        size == crate::decode_arith::decode_size_00((opcode >> 6) & 3),
        (opcode >> 6) & 3 != 3,
        w.mem_alu_imm(lend.win(), BinaryOp::Compare, size, ea).1,
    ensures
        laws_operands::finished(
            lend,
            laws_operands::over(lend, w.cpu, w.mem).exec_compare_immediate(opcode),
            w.mem_alu_imm(lend.win(), BinaryOp::Compare, size, ea).0,
        ),
{
    reveal(Window::mem_alu_imm);
    reveal(Window::mem_modify);
    reveal(Machine::exec_compare_immediate);
    laws_operands::lemma_modes(opcode);
    let imm = w.cpu.spec_resolve_immediate(w.mem, lend.win(), size, w.cpu.start_ctx())->0;
    let to = w.cpu.spec_resolve(w.mem, lend.win(), ea, size, imm.1)->0;
    laws_operands::lemma_immediate_pair(lend, w, size, ea, imm, to);
    laws_operands::lemma_commit(w.cpu, to.1.pending, 0);
    let moved = laws_operands::at(w.cpu, to.1);
    let old_value = w.cpu.spec_load(w.mem, to.0, size);
    laws_operands::lemma_load_masked(w.cpu, w.mem, to.0, size);
    laws_operands::lemma_immediate_masked(lend, w.cpu, w.mem, size, w.cpu.start_ctx());
    crate::laws_fast::lemma_masked(imm.0, old_value, old_value.wrapping_sub(imm.0));
    crate::laws_fast::lemma_quiet(laws_operands::over(lend, moved, w.mem), 2);
    reveal(CpuCore::spec_exec_compare);
    reveal(CpuCore::spec_set_binary_flags);
    reveal(CpuCore::spec_set_compare_flags);
}

/// BTST, BCHG, BCLR and BSET of a known bit of an operand in memory.
#[verifier::spinoff_prover]
proof fn lemma_bit_operand(lend: Lender, w: Window, ctx: Ctx, field: u16, op: BitOp, number: u32, ea: FastEa)
    requires
        laws_operands::ready(lend, w.cpu, w.mem, ctx),
        laws_operands::in_range(ea, ctx),
        ctx.pending.first is None,
        crate::mem_ops::is_memory(ea),
        field <= 3,
        op == crate::op_cache::bit_op(field),
        w.mem_bit(lend.win(), op, number, ea, ctx).1,
    ensures
        laws_operands::finished(
            lend,
            laws_operands::over(lend, laws_operands::at(w.cpu, ctx), w.mem).exec_bit_op(field, number, addressing_mode(ea)),
            w.mem_bit(lend.win(), op, number, ea, ctx).0,
        ),
{
    reveal(Window::mem_bit);
    reveal(Window::store);
    reveal(Machine::exec_bit_op);
    let found = w.cpu.spec_resolve(w.mem, lend.win(), ea, Size::Byte, ctx)->0;
    laws_operands::lemma_operand(lend, w.cpu, w.mem, ea, Size::Byte, ctx, found);
    laws_operands::lemma_commit(w.cpu, found.1.pending, 0);
    let moved = laws_operands::at(w.cpu, found.1);
    let raw = laws_operands::over(lend, laws_operands::at(w.cpu, ctx), w.mem).resolve_ea(addressing_mode(ea), Size::Byte).1->Memory_0;
    let value = w.cpu.spec_load(w.mem, found.0, Size::Byte);
    let mask = crate::instructions::bit_mask(number & 7);
    laws_operands::lemma_store(lend, moved, w.mem, raw, Size::Byte, crate::mem_ops::bit_result(op, value, mask), found.0->Mem_0);
}

/// BTST, BCHG, BCLR and BSET on memory.
#[verifier::spinoff_prover]
#[verifier::rlimit(40)]
proof fn lemma_bit(lend: Lender, w: Window, opcode: u16, op: BitOp, bit: BitSource, ea: FastEa)
    requires
        laws_operands::batched(lend, w.cpu, w.mem),
        crate::mem_ops::source_ea(opcode) == Some(ea),
        crate::mem_ops::is_data_alterable(ea),
        crate::mem_ops::is_memory(ea),
        op == crate::op_cache::bit_op((opcode >> 6) & 3),
        bit == (if opcode & 0x100 != 0 {
            BitSource::Reg(((opcode >> 9) & 7) as u8)
        } else {
            BitSource::Imm
        }),
        w.mem_bit_op(lend.win(), op, bit, ea).1,
    ensures
        laws_operands::finished(
            lend,
            laws_operands::over(lend, w.cpu, w.mem).exec_bit_group(opcode),
            w.mem_bit_op(lend.win(), op, bit, ea).0,
        ),
{
    reveal(Window::mem_bit_op);
    reveal(Machine::exec_bit_group);
    laws_operands::lemma_modes(opcode);
    crate::bits::lemma_fields(opcode);
    let start = w.cpu.start_ctx();
    laws_operands::lemma_commit(w.cpu, start.pending, 0);
    match bit {
        BitSource::Reg(r) => {
            lemma_bit_operand(lend, w, start, (opcode >> 6) & 3, op, w.cpu.d(r as usize), ea);
        },
        BitSource::Imm => {
            let number = w.cpu.spec_window_word(w.mem, lend.win(), w.cpu.pc)->0;
            laws_operands::lemma_word(lend, w.cpu, w.mem, start, number);
            lemma_bit_operand(lend, w, crate::mem_ops::past_ext(start), (opcode >> 6) & 3, op, number, ea);
        },
    }
}

/// LEA.
proof fn lemma_lea(lend: Lender, w: Window, opcode: u16, ea: FastEa)
    requires
        laws_operands::batched(lend, w.cpu, w.mem),
        crate::mem_ops::source_ea(opcode) == Some(ea),
        crate::mem_ops::is_control(ea),
        w.mem_lea(lend.win(), ((opcode >> 9) & 7) as u8, ea).1,
    ensures
        laws_operands::finished(
            lend,
            laws_operands::over(lend, w.cpu, w.mem).exec_address_group(opcode, true),
            w.mem_lea(lend.win(), ((opcode >> 9) & 7) as u8, ea).0,
        ),
{
    reveal(Window::mem_lea);
    reveal(Machine::exec_address_group);
    reveal(Machine::exec_lea);
    reveal(Machine::get_ea_address);
    reveal(CpuCore::spec_set_a);
    laws_operands::lemma_modes(opcode);
    crate::bits::lemma_fields(opcode);
    let start = w.cpu.start_ctx();
    laws_operands::lemma_commit(w.cpu, start.pending, 0);
    let found = w.cpu.spec_resolve_control_addr(w.mem, lend.win(), ea, start)->0;
    laws_operands::lemma_control(lend, w.cpu, w.mem, ea, Size::Long, start, found);
}

/// PEA.
proof fn lemma_pea(lend: Lender, w: Window, opcode: u16, ea: FastEa)
    requires
        laws_operands::batched(lend, w.cpu, w.mem),
        crate::mem_ops::source_ea(opcode) == Some(ea),
        crate::mem_ops::is_control(ea),
        w.mem_pea(lend.win(), ea).1,
    ensures
        laws_operands::finished(lend, laws_operands::over(lend, w.cpu, w.mem).exec_address_group(opcode, false), w.mem_pea(lend.win(), ea).0),
{
    reveal(Window::mem_pea);
    reveal(Machine::exec_address_group);
    reveal(Machine::exec_pea);
    reveal(Machine::get_ea_address);
    laws_operands::lemma_modes(opcode);
    let start = w.cpu.start_ctx();
    laws_operands::lemma_commit(w.cpu, start.pending, 0);
    let found = w.cpu.spec_resolve_control_addr(w.mem, lend.win(), ea, start)->0;
    laws_operands::lemma_control(lend, w.cpu, w.mem, ea, Size::Long, start, found);
    let moved = laws_operands::at(w.cpu, found.1);
    laws_operands::lemma_push_anywhere(lend, w.cpu, w.mem, found.1.next_ext, found.0);
    laws_operands::lemma_push(lend, moved, w.mem, found.0);
}

/// RTS.
proof fn lemma_rts(lend: Lender, w: Window)
    requires
        laws_operands::batched(lend, w.cpu, w.mem),
        w.flow_rts(lend.win()).1,
    ensures
        laws_operands::finished(lend, laws_operands::over(lend, w.cpu, w.mem).exec_rts(), w.flow_rts(lend.win()).0),
{
    reveal(Window::flow_rts);
    reveal(Machine::exec_rts);
    reveal(Machine::pull_32);
    reveal(Machine::read_sized);
    reveal(Machine::full_prefetch);
    reveal(Machine::prefetch_first);
    reveal(Machine::prefetch_second);
    reveal(CpuCore::spec_set_a);
    crate::bits::lemma_reg(7);
    let sp = w.cpu.a(7);
    let off = w.cpu.locate(lend.win(), is_pre_68020(w.cpu.model.cpu_type), sp, Size::Long)->0;
    let flowing = CpuCore { run: RunState { change_of_flow: true, ..w.cpu.run }, ..w.cpu };
    laws_operands::lemma_read(lend, flowing, w.mem, sp, Size::Long, off);
}

/// JMP.
proof fn lemma_jmp(lend: Lender, w: Window, opcode: u16, ea: FastEa)
    requires
        laws_operands::batched(lend, w.cpu, w.mem),
        crate::mem_ops::source_ea(opcode) == Some(ea),
        crate::mem_ops::is_control(ea),
        w.mem_jmp(lend.win(), ea).1,
    ensures
        laws_operands::finished(lend, laws_operands::over(lend, w.cpu, w.mem).exec_jump(opcode, false), w.mem_jmp(lend.win(), ea).0),
{
    reveal(Window::mem_jmp);
    reveal(Machine::exec_jump);
    reveal(Machine::get_ea_address);
    reveal(Machine::full_prefetch);
    reveal(Machine::prefetch_first);
    reveal(Machine::prefetch_second);
    reveal(CpuCore::spec_internal_cycles);
    laws_operands::lemma_modes(opcode);
    crate::bits::lemma_fields(opcode);
    let marked = CpuCore {
        queue: PrefetchState { consume_without_prefetch: true, ..w.cpu.queue },
        ..w.cpu
    };
    let found = w.cpu.spec_resolve_control_addr(w.mem, lend.win(), ea, w.cpu.start_ctx())->0;
    laws_operands::lemma_marked_control(lend, w.cpu, w.mem, ea, found, marked);
}

/// JSR.
proof fn lemma_jsr(lend: Lender, w: Window, opcode: u16, ea: FastEa)
    requires
        laws_operands::batched(lend, w.cpu, w.mem),
        crate::mem_ops::source_ea(opcode) == Some(ea),
        crate::mem_ops::is_control(ea),
        w.mem_jsr(lend.win(), ea).1,
    ensures
        laws_operands::finished(lend, laws_operands::over(lend, w.cpu, w.mem).exec_jump(opcode, true), w.mem_jsr(lend.win(), ea).0),
{
    reveal(Window::mem_jsr);
    reveal(Machine::exec_jump);
    reveal(Machine::get_ea_address);
    reveal(Machine::full_prefetch);
    reveal(Machine::prefetch_first);
    reveal(Machine::prefetch_second);
    reveal(CpuCore::spec_internal_cycles);
    laws_operands::lemma_modes(opcode);
    crate::bits::lemma_fields(opcode);
    let marked = CpuCore {
        queue: PrefetchState { consume_without_prefetch: true, ..w.cpu.queue },
        ..w.cpu
    };
    let found = w.cpu.spec_resolve_control_addr(w.mem, lend.win(), ea, w.cpu.start_ctx())->0;
    laws_operands::lemma_marked_control(lend, w.cpu, w.mem, ea, found, marked);
    laws_operands::lemma_push_flowing(lend, w, found.1.next_ext, found.1.next_ext);
}

/// BSR.
#[verifier::spinoff_prover]
#[verifier::rlimit(40)]
proof fn lemma_bsr(lend: Lender, w: Window, opcode: u16, displacement: i32, length: u32)
    requires
        laws_operands::batched(lend, w.cpu, w.mem),
        (opcode >> 8) & 0xF == 1,
        opcode & 0xFF != 0xFF,
        length == (if opcode & 0xFF == 0 {
            4u32
        } else {
            2
        }),
        opcode & 0xFF != 0 ==> displacement == ((opcode & 0xFF) as u8) as i8 as i32,
        w.flow_bsr(lend.win(), displacement, length).1,
    ensures
        laws_operands::finished(
            lend,
            laws_operands::over(lend, w.cpu, w.mem).dispatch_group_6(opcode),
            w.flow_bsr(lend.win(), displacement, length).0,
        ),
{
    reveal(Window::flow_bsr);
    reveal(Machine::dispatch_group_6);
    reveal(Machine::full_prefetch);
    reveal(Machine::prefetch_first);
    reveal(Machine::prefetch_second);
    reveal(CpuCore::spec_internal_cycles);
    crate::bits::lemma_fields(opcode);
    let marked = CpuCore {
        queue: PrefetchState { consume_without_prefetch: true, ..w.cpu.queue },
        ..w.cpu
    };
    let next = w.cpu.pc.wrapping_add(2);
    if opcode & 0xFF == 0 {
        let word = w.cpu.spec_window_word(w.mem, lend.win(), w.cpu.pc)->0;
        laws_operands::lemma_imm_16(lend, marked, w.mem, word);
        let target = w.cpu.pc.wrapping_add(crate::prefetch::sext16(word as u16));
        laws_operands::lemma_push_flowing(lend, w, target, next);
    } else {
        let byte = (opcode & 0xFF) as u8;
        laws_operands::lemma_push_flowing(lend, w, w.cpu.pc.wrapping_add(crate::prefetch::sext8(byte)), w.cpu.pc);
    }
}

/// Bcc and BRA with a word displacement.
proof fn lemma_branch(lend: Lender, w: Window, opcode: u16)
    requires
        laws_operands::batched(lend, w.cpu, w.mem),
        (opcode >> 8) & 0xF != 1,
        opcode & 0xFF == 0,
        w.flow_branch(lend.win(), ((opcode >> 8) & 0xF) as u8).1,
    ensures
        laws_operands::finished(
            lend,
            laws_operands::over(lend, w.cpu, w.mem).dispatch_group_6(opcode),
            w.flow_branch(lend.win(), ((opcode >> 8) & 0xF) as u8).0,
        ),
{
    reveal(Window::flow_branch);
    reveal(Machine::dispatch_group_6);
    reveal(Machine::full_prefetch);
    reveal(Machine::prefetch_first);
    reveal(Machine::prefetch_second);
    reveal(CpuCore::spec_internal_cycles);
    crate::bits::lemma_fields(opcode);
    let condition = ((opcode >> 8) & 0xF) as u8;
    let taken = condition < 2 || w.cpu.test_condition(condition);
    let marked = CpuCore {
        queue: PrefetchState { consume_without_prefetch: taken, ..w.cpu.queue },
        ..w.cpu
    };
    let word = w.cpu.spec_window_word(w.mem, lend.win(), w.cpu.pc)->0;
    laws_operands::lemma_imm_16(lend, marked, w.mem, word);
}

/// DBcc.
#[verifier::spinoff_prover]
proof fn lemma_dbcc(lend: Lender, w: Window, opcode: u16)
    requires
        laws_operands::batched(lend, w.cpu, w.mem),
        w.flow_dbcc(lend.win(), ((opcode >> 8) & 0xF) as u8, (opcode & 7) as u8).1,
        lend.plain_word(w.mem, w.cpu.address(w.cpu.pc.wrapping_add(2))),
    ensures
        laws_operands::finished(
            lend,
            laws_operands::over(lend, w.cpu, w.mem).exec_dbcc(opcode),
            w.flow_dbcc(lend.win(), ((opcode >> 8) & 0xF) as u8, (opcode & 7) as u8).0,
        ),
{
    reveal(Window::flow_dbcc);
    reveal(Machine::exec_dbcc);
    reveal(Machine::full_prefetch);
    reveal(Machine::prefetch_first);
    reveal(Machine::prefetch_second);
    reveal(Machine::flush_sync);
    reveal(CpuCore::spec_internal_cycles);
    reveal(CpuCore::spec_enter_loop_mode);
    reveal(CpuCore::spec_write_data_reg);
    reveal(CpuCore::spec_set_d);
    crate::bits::lemma_fields(opcode);
    let condition = ((opcode >> 8) & 0xF) as u8;
    let marked = CpuCore {
        queue: PrefetchState {
            consume_without_prefetch: !w.cpu.test_condition(condition),
            ..w.cpu.queue
        },
        ..w.cpu
    };
    let word = w.cpu.spec_window_word(w.mem, lend.win(), w.cpu.pc)->0;
    laws_operands::lemma_imm_16(lend, marked, w.mem, word);
    let counter = (w.cpu.d((opcode & 7) as usize) as u16).wrapping_sub(1);
    laws_operands::lemma_bits(counter as u32, 0, (counter as u32).wrapping_add(2));
}

/// An operation through the general resolution, where it was executed.
spec fn executed(lend: Lender, w: Window, op: DecodedMemOp) -> bool {
    w.general_mem_op(lend.win(), op).1
}

/// What the dispatcher leaves is what the operation leaves.
spec fn matched(lend: Lender, w: Window, op: DecodedMemOp, done: (Machine, i32)) -> bool {
    laws_operands::finished(lend, done, w.general_mem_op(lend.win(), op).0)
}

proof fn lemma_group_move(lend: Lender, w: Window, opcode: u16, size: Size, op: DecodedMemOp)
    requires
        laws_operands::batched(lend, w.cpu, w.mem),
        crate::mem_ops::decode_mem_move(opcode, size) == Some(op),
        executed(lend, w, op),
    ensures
        matched(lend, w, op, laws_operands::over(lend, w.cpu, w.mem).dispatch_move(opcode, size)),
{
    reveal(Window::general_mem_op);
    reveal(Machine::dispatch_move);
    crate::bits::lemma_fields(opcode);
    laws_operands::lemma_modes(opcode);
    let src = crate::mem_ops::source_ea(opcode)->0;
    let dst = crate::mem_ops::decode_fast_ea((opcode >> 6) & 7, (opcode >> 9) & 7)->0;
    lemma_move(lend, w, size, src, dst);
}

#[verifier::spinoff_prover]
proof fn lemma_group_0(lend: Lender, w: Window, opcode: u16, op: DecodedMemOp)
    requires
        laws_operands::batched(lend, w.cpu, w.mem),
        (opcode >> 12) & 0xF == 0,
        crate::mem_ops::decode_mem_group_0(opcode) == Some(op),
        executed(lend, w, op),
    ensures
        matched(lend, w, op, laws_operands::over(lend, w.cpu, w.mem).dispatch_group_0(opcode)),
{
    reveal(Window::general_mem_op);
    reveal(Machine::dispatch_group_0);
    crate::bits::lemma_fields(opcode);
    crate::laws_fast::lemma_group_0_forms(opcode);
    let ea = crate::mem_ops::source_ea(opcode)->0;
    match op {
        DecodedMemOp::BitMem { op: o, bit, ea: _ } => {
            lemma_bit(lend, w, opcode, o, bit, ea);
        },
        DecodedMemOp::AluImm { op: o, size, dst: _ } => {
            match o {
                BinaryOp::Add => lemma_arith_immediate(lend, w, opcode, size, ea, false),
                BinaryOp::Sub => lemma_arith_immediate(lend, w, opcode, size, ea, true),
                BinaryOp::Compare => lemma_compare_immediate(lend, w, opcode, size, ea),
                _ => lemma_logic_immediate(lend, w, opcode, o, size, ea),
            }
        },
        _ => {},
    }
}

#[verifier::spinoff_prover]
proof fn lemma_group_4(lend: Lender, w: Window, opcode: u16, op: DecodedMemOp)
    requires
        laws_operands::batched(lend, w.cpu, w.mem),
        (opcode >> 12) & 0xF == 4,
        crate::mem_ops::decode_mem_group_4(opcode) == Some(op),
        crate::laws_window::has_general_form(op),
        executed(lend, w, op),
    ensures
        matched(lend, w, op, laws_operands::over(lend, w.cpu, w.mem).dispatch_group_4(opcode)),
{
    reveal(Window::general_mem_op);
    reveal(Machine::dispatch_group_4);
    reveal(Machine::dispatch_one_operand);
    crate::bits::lemma_fields(opcode);
    crate::laws_fast::lemma_group_4_mem_forms(opcode);
    let ea = crate::mem_ops::source_ea(opcode)->0;
    match op {
        DecodedMemOp::Tst { size, ea: _ } => lemma_tst(lend, w, opcode, size, ea),
        DecodedMemOp::Clr { size, ea: _ } => lemma_unary(lend, w, opcode, size, ea),
        DecodedMemOp::Neg { size, ea: _ } => lemma_unary(lend, w, opcode, size, ea),
        DecodedMemOp::Not { size, ea: _ } => lemma_unary(lend, w, opcode, size, ea),
        DecodedMemOp::Lea { reg: _, ea: _ } => lemma_lea(lend, w, opcode, ea),
        DecodedMemOp::Pea { ea: _ } => {
            reveal(Machine::dispatch_group_48);
            lemma_pea(lend, w, opcode, ea);
        },
        DecodedMemOp::Jmp { ea: _ } => {
            reveal(Machine::dispatch_group_4e);
            lemma_jmp(lend, w, opcode, ea);
        },
        DecodedMemOp::Jsr { ea: _ } => {
            reveal(Machine::dispatch_group_4e);
            lemma_jsr(lend, w, opcode, ea);
        },
        _ => {},
    }
}

proof fn lemma_group_5(lend: Lender, w: Window, opcode: u16, op: DecodedMemOp)
    requires
        laws_operands::batched(lend, w.cpu, w.mem),
        crate::mem_ops::decode_mem_group_5(opcode) == Some(op),
        crate::laws_window::has_general_form(op),
        executed(lend, w, op),
    ensures
        matched(lend, w, op, laws_operands::over(lend, w.cpu, w.mem).dispatch_group_5(opcode)),
{
    reveal(Window::general_mem_op);
    reveal(Machine::dispatch_group_5);
    crate::bits::lemma_fields(opcode);
    let ea = crate::mem_ops::source_ea(opcode)->0;
    match op {
        DecodedMemOp::AddqSubq { data, size, ea: _, is_sub } => lemma_quick(lend, w, opcode, size, ea, data, is_sub),
        _ => {},
    }
}

#[verifier::spinoff_prover]
proof fn lemma_group_alu(lend: Lender, w: Window, opcode: u16, op: DecodedMemOp)
    requires
        laws_operands::batched(lend, w.cpu, w.mem),
        crate::mem_ops::decode_mem_alu(opcode) == Some(op),
        executed(lend, w, op),
    ensures
        ({
            let m = laws_operands::over(lend, w.cpu, w.mem);
            match (opcode >> 12) & 0xF {
                0x8 => matched(lend, w, op, m.dispatch_group_8(opcode)),
                0x9 => matched(lend, w, op, m.dispatch_group_9(opcode)),
                0xB => matched(lend, w, op, m.dispatch_group_b(opcode)),
                0xC => matched(lend, w, op, m.dispatch_group_c(opcode)),
                0xD => matched(lend, w, op, m.dispatch_group_d(opcode)),
                _ => true,
            }
        }),
{
    reveal(Window::general_mem_op);
    reveal(Machine::dispatch_group_8);
    reveal(Machine::dispatch_group_9);
    reveal(Machine::dispatch_group_b);
    reveal(Machine::dispatch_group_c);
    reveal(Machine::dispatch_group_d);
    reveal(Machine::dispatch_add_sub);
    crate::bits::lemma_fields(opcode);
    crate::laws_fast::lemma_size_forms(opcode);
    let ea = crate::mem_ops::source_ea(opcode)->0;
    match op {
        DecodedMemOp::AluAddr { op: o, size, src: _, dst: _ } => lemma_to_address(lend, w, opcode, o, size, ea),
        DecodedMemOp::AluToReg { op: o, size, src: _, dst: _ } => {
            if o == BinaryOp::Compare {
                lemma_compare(lend, w, opcode, size, ea);
            } else {
                lemma_to_register(lend, w, opcode, o, size, ea);
            }
        },
        DecodedMemOp::AluToMem { op: o, size, src: _, dst: _ } => {
            if o == BinaryOp::Eor {
                lemma_eor(lend, w, opcode, size, ea);
            } else {
                lemma_to_memory(lend, w, opcode, o, size, ea);
            }
        },
        DecodedMemOp::CompareMem { size, src: _, dst: _ } => lemma_compare_memory(lend, w, opcode, size),
        _ => {},
    }
}

/// RTS, BSR, DBcc and the branches with a word displacement.
proof fn lemma_flow(lend: Lender, w: Window, opcode: u16, op: DecodedMemOp)
    requires
        laws_operands::batched(lend, w.cpu, w.mem),
        crate::mem_ops::decode_mem(w.cpu.model.cpu_type, opcode) == Some(op),
        op is Rts || op is Bsr || op is BranchWord || op is Dbcc,
        w.fast_flow(lend.win(), op).1 == Some(true),
        op is Dbcc ==> lend.plain_word(w.mem, w.cpu.address(w.cpu.pc.wrapping_add(2))),
    ensures
        laws_operands::settled(
            lend,
            laws_operands::over(lend, w.cpu, w.mem).dispatch_instruction(opcode).0,
            w.fast_flow(lend.win(), op).0,
        ),
        laws_operands::over(lend, w.cpu, w.mem).dispatch_instruction(opcode).1 is Completed,
{
    reveal(Window::fast_flow);
    reveal(Machine::dispatch_instruction);
    crate::bits::lemma_fields(opcode);
    crate::laws_fast::lemma_group_4_mem_forms(opcode);
    match op {
        DecodedMemOp::Rts => {
            reveal(Machine::dispatch_group_4);
            reveal(Machine::dispatch_system);
            lemma_rts(lend, w);
        },
        DecodedMemOp::Bsr { displacement, length } => lemma_bsr(lend, w, opcode, displacement, length),
        DecodedMemOp::BranchWord { condition: _ } => lemma_branch(lend, w, opcode),
        _ => {
            reveal(Machine::dispatch_group_5);
            lemma_dbcc(lend, w, opcode);
        },
    }
}

/// A memory operation does what the dispatcher does with its opcode. On any
/// bus whose accesses inside the lent range are those of the bytes lent, where
/// a decoded operation runs on the window, the dispatcher completes the
/// instruction and leaves the same registers, flags, PC and memory. DBcc also
/// glances at the word after it, which must be readable without effect.
pub proof fn law_mem_op_is_dispatch(lend: Lender, w: Window, opcode: u16, op: DecodedMemOp)
    requires
        laws_operands::batched(lend, w.cpu, w.mem),
        w.cpu.host.fm_base == lend.base,
        w.cpu.host.fm_len == lend.len,
        crate::mem_ops::decode_mem(w.cpu.model.cpu_type, opcode) == Some(op),
        op is MovemWordPostInc ==> w.cpu.model.address_mask == crate::cpu::model_address_mask(
            w.cpu.model.cpu_type,
        ),
        w.exec_mem_op(op).1,
        op is Dbcc ==> lend.plain_word(w.mem, w.cpu.address(w.cpu.pc.wrapping_add(2))),
    ensures
        laws_operands::settled(lend, laws_operands::over(lend, w.cpu, w.mem).dispatch_instruction(opcode).0, w.exec_mem_op(op).0),
        laws_operands::over(lend, w.cpu, w.mem).dispatch_instruction(opcode).1 is Completed,
{
    crate::bits::lemma_fields(opcode);
    if crate::laws_window::has_general_form(op) {
        crate::laws_window::law_mem_op_is_general(w, op);
        reveal(Machine::dispatch_instruction);
        match (opcode >> 12) & 0xF {
            0x0 => lemma_group_0(lend, w, opcode, op),
            0x1 => lemma_group_move(lend, w, opcode, Size::Byte, op),
            0x2 => lemma_group_move(lend, w, opcode, Size::Long, op),
            0x3 => lemma_group_move(lend, w, opcode, Size::Word, op),
            0x4 => lemma_group_4(lend, w, opcode, op),
            0x5 => lemma_group_5(lend, w, opcode, op),
            _ => lemma_group_alu(lend, w, opcode, op),
        }
    } else if op is MovemWordPostInc {
        reveal(Window::exec_mem_op);
        reveal(Window::window_mem_op);
        reveal(Machine::dispatch_instruction);
        reveal(Machine::dispatch_group_4);
        reveal(Machine::dispatch_one_operand);
        crate::laws_fast::lemma_group_4_mem_forms(opcode);
        crate::laws_movem::lemma_movem(lend, w, opcode);
    } else {
        reveal(Window::exec_mem_op);
        reveal(Window::window_mem_op);
        reveal(Window::fast_an_disp);
        reveal(Window::fast_flow);
        lemma_flow(lend, w, opcode, op);
    }
}

} // verus!
