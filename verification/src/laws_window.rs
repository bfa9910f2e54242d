//! Laws of the memory-operand operations.

use vstd::prelude::*;
use crate::cpu::CpuCore;
use crate::op_cache::{AddrOp, BinaryOp, BitOp};
use crate::mem_ops::{ea_step, BitSource, Ctx, DecodedMemOp, FastEa, Loc, Pending, Win, Window};
use crate::types::{is_pre_68020, Size};

verus! {

/// The cached flag of the model agrees with the model.
pub open spec fn model_agrees(cpu: CpuCore) -> bool {
    cpu.model.is_pre_68020 == is_pre_68020(cpu.model.cpu_type)
}

/// Operations that the general operand resolution executes.
pub open spec fn has_general_form(op: DecodedMemOp) -> bool {
    !(op is MovemWordPostInc || op is Rts || op is Bsr || op is BranchWord || op is Dbcc)
}

proof fn lemma_mem_move_atomic(w: Window, win: Win, size: Size, src: FastEa, dst: FastEa)
    ensures
        !w.mem_move(win, size, src, dst).1 ==> w.mem_move(win, size, src, dst).0 == w,
{
    reveal(Window::mem_move);
}

proof fn lemma_mem_alu_to_reg_atomic(w: Window, win: Win, o: BinaryOp, size: Size, src: FastEa, dst: u8)
    ensures
        !w.mem_alu_to_reg(win, o, size, src, dst).1 ==> w.mem_alu_to_reg(win, o, size, src, dst).0 == w,
{
    reveal(Window::mem_alu_to_reg);
}

proof fn lemma_mem_alu_addr_atomic(w: Window, win: Win, o: AddrOp, size: Size, src: FastEa, dst: u8)
    ensures
        !w.mem_alu_addr(win, o, size, src, dst).1 ==> w.mem_alu_addr(win, o, size, src, dst).0 == w,
{
    reveal(Window::mem_alu_addr);
}

proof fn lemma_mem_modify_atomic(w: Window, win: Win, o: BinaryOp, size: Size, value: u32, ea: FastEa, ctx: Ctx)
    ensures
        !w.mem_modify(win, o, size, value, ea, ctx).1 ==> w.mem_modify(win, o, size, value, ea, ctx).0 == w,
{
    reveal(Window::mem_modify);
}

proof fn lemma_mem_alu_imm_atomic(w: Window, win: Win, o: BinaryOp, size: Size, dst: FastEa)
    ensures
        !w.mem_alu_imm(win, o, size, dst).1 ==> w.mem_alu_imm(win, o, size, dst).0 == w,
{
    reveal(Window::mem_alu_imm);
    reveal(Window::mem_modify);
}

proof fn lemma_mem_tst_atomic(w: Window, win: Win, size: Size, ea: FastEa)
    ensures
        !w.mem_tst(win, size, ea).1 ==> w.mem_tst(win, size, ea).0 == w,
{
    reveal(Window::mem_tst);
}

proof fn lemma_mem_clr_atomic(w: Window, win: Win, size: Size, ea: FastEa)
    ensures
        !w.mem_clr(win, size, ea).1 ==> w.mem_clr(win, size, ea).0 == w,
{
    reveal(Window::mem_clr);
}

proof fn lemma_mem_neg_atomic(w: Window, win: Win, size: Size, ea: FastEa)
    ensures
        !w.mem_neg(win, size, ea).1 ==> w.mem_neg(win, size, ea).0 == w,
{
    reveal(Window::mem_neg);
}

proof fn lemma_mem_not_atomic(w: Window, win: Win, size: Size, ea: FastEa)
    ensures
        !w.mem_not(win, size, ea).1 ==> w.mem_not(win, size, ea).0 == w,
{
    reveal(Window::mem_not);
}

proof fn lemma_mem_bit_op_atomic(w: Window, win: Win, o: BitOp, bit: BitSource, ea: FastEa)
    ensures
        !w.mem_bit_op(win, o, bit, ea).1 ==> w.mem_bit_op(win, o, bit, ea).0 == w,
{
    reveal(Window::mem_bit_op);
    reveal(Window::mem_bit);
}

proof fn lemma_mem_compare_atomic(w: Window, win: Win, size: Size, src: u8, dst: u8)
    ensures
        !w.mem_compare(win, size, src, dst).1 ==> w.mem_compare(win, size, src, dst).0 == w,
{
    reveal(Window::mem_compare);
}

proof fn lemma_mem_lea_atomic(w: Window, win: Win, reg: u8, ea: FastEa)
    ensures
        !w.mem_lea(win, reg, ea).1 ==> w.mem_lea(win, reg, ea).0 == w,
{
    reveal(Window::mem_lea);
}

proof fn lemma_mem_pea_atomic(w: Window, win: Win, ea: FastEa)
    ensures
        !w.mem_pea(win, ea).1 ==> w.mem_pea(win, ea).0 == w,
{
    reveal(Window::mem_pea);
    reveal(Window::mem_push);
}

proof fn lemma_mem_jmp_atomic(w: Window, win: Win, ea: FastEa)
    ensures
        !w.mem_jmp(win, ea).1 ==> w.mem_jmp(win, ea).0 == w,
{
    reveal(Window::mem_jmp);
}

proof fn lemma_mem_jsr_atomic(w: Window, win: Win, ea: FastEa)
    ensures
        !w.mem_jsr(win, ea).1 ==> w.mem_jsr(win, ea).0 == w,
{
    reveal(Window::mem_jsr);
    reveal(Window::mem_push);
}

proof fn lemma_disp_load_atomic(w: Window, win: Win, size: Size, s: u8, d: u8, to_address: bool)
    ensures
        !w.disp_load(win, size, s, d, to_address).1 ==> w.disp_load(win, size, s, d, to_address).0 == w,
{
    reveal(Window::disp_load);
}

proof fn lemma_disp_store_atomic(w: Window, win: Win, size: Size, value: u32, d: u8)
    ensures
        !w.disp_store(win, size, value, d).1 ==> w.disp_store(win, size, value, d).0 == w,
{
    reveal(Window::disp_store);
}

proof fn lemma_disp_push_atomic(w: Window, win: Win, size: Size, s: u8, d: u8)
    ensures
        !w.disp_push(win, size, s, d).1 ==> w.disp_push(win, size, s, d).0 == w,
{
    reveal(Window::disp_push);
}

proof fn lemma_disp_move_atomic(w: Window, win: Win, size: Size, s: u8, d: u8)
    ensures
        !w.disp_move(win, size, s, d).1 ==> w.disp_move(win, size, s, d).0 == w,
{
    reveal(Window::disp_move);
}

proof fn lemma_disp_tst_atomic(w: Window, win: Win, size: Size, reg: u8)
    ensures
        !w.disp_tst(win, size, reg).1 ==> w.disp_tst(win, size, reg).0 == w,
{
    reveal(Window::disp_tst);
}

proof fn lemma_disp_clr_atomic(w: Window, win: Win, size: Size, reg: u8)
    ensures
        !w.disp_clr(win, size, reg).1 ==> w.disp_clr(win, size, reg).0 == w,
{
    reveal(Window::disp_clr);
}

proof fn lemma_disp_quick_atomic(w: Window, win: Win, data: u32, size: Size, reg: u8, is_sub: bool)
    ensures
        !w.disp_quick(win, data, size, reg, is_sub).1 ==> w.disp_quick(win, data, size, reg, is_sub).0 == w,
{
    reveal(Window::disp_quick);
}

proof fn lemma_disp_bit_atomic(w: Window, win: Win, o: BitOp, reg: u8)
    ensures
        !w.disp_bit(win, o, reg).1 ==> w.disp_bit(win, o, reg).0 == w,
{
    reveal(Window::disp_bit);
}

proof fn lemma_general_atomic(w: Window, win: Win, op: DecodedMemOp)
    ensures
        !w.general_mem_op(win, op).1 ==> w.general_mem_op(win, op).0 == w,
{
    reveal(Window::general_mem_op);
    match op {
        DecodedMemOp::Move { size, src, dst } => {
            lemma_mem_move_atomic(w, win, size, src, dst);
        },
        DecodedMemOp::AluToReg { op: o, size, src, dst } => {
            lemma_mem_alu_to_reg_atomic(w, win, o, size, src, dst);
        },
        DecodedMemOp::AluAddr { op: o, size, src, dst } => {
            lemma_mem_alu_addr_atomic(w, win, o, size, src, dst);
        },
        DecodedMemOp::AluToMem { op: o, size, src, dst } => {
            lemma_mem_modify_atomic(w, win, o, size, w.cpu.d(src as usize) & size.mask(), dst, w.cpu.start_ctx());
        },
        DecodedMemOp::AddqSubq { data, size, ea, is_sub } => {
            let o = if is_sub {
                BinaryOp::Sub
            } else {
                BinaryOp::Add
            };
            lemma_mem_modify_atomic(w, win, o, size, data, ea, w.cpu.start_ctx());
        },
        DecodedMemOp::AluImm { op: o, size, dst } => {
            lemma_mem_alu_imm_atomic(w, win, o, size, dst);
        },
        DecodedMemOp::Tst { size, ea } => {
            lemma_mem_tst_atomic(w, win, size, ea);
        },
        DecodedMemOp::Clr { size, ea } => {
            lemma_mem_clr_atomic(w, win, size, ea);
        },
        DecodedMemOp::Neg { size, ea } => {
            lemma_mem_neg_atomic(w, win, size, ea);
        },
        DecodedMemOp::Not { size, ea } => {
            lemma_mem_not_atomic(w, win, size, ea);
        },
        DecodedMemOp::BitMem { op: o, bit, ea } => {
            lemma_mem_bit_op_atomic(w, win, o, bit, ea);
        },
        DecodedMemOp::CompareMem { size, src, dst } => {
            lemma_mem_compare_atomic(w, win, size, src, dst);
        },
        DecodedMemOp::Lea { reg, ea } => {
            lemma_mem_lea_atomic(w, win, reg, ea);
        },
        DecodedMemOp::Pea { ea } => {
            lemma_mem_pea_atomic(w, win, ea);
        },
        DecodedMemOp::Jmp { ea } => {
            lemma_mem_jmp_atomic(w, win, ea);
        },
        DecodedMemOp::Jsr { ea } => {
            lemma_mem_jsr_atomic(w, win, ea);
        },
        _ => {},
    }
}

proof fn lemma_fast_move_atomic(w: Window, win: Win, size: Size, src: FastEa, dst: FastEa)
    ensures
        w.fast_move(win, size, src, dst).1 != Some(true) ==> w.fast_move(win, size, src, dst).0 == w,
{
    reveal(Window::fast_move);
}

proof fn lemma_fast_disp_move_atomic(w: Window, win: Win, size: Size, src: FastEa, dst: FastEa)
    ensures
        w.fast_disp_move(win, size, src, dst).1 != Some(true) ==> w.fast_disp_move(win, size, src, dst).0 == w,
{
    reveal(Window::fast_disp_move);
    match (src, dst) {
        (FastEa::AnDisp(s), FastEa::DataReg(d)) => {
            lemma_disp_load_atomic(w, win, size, s, d, false);
        },
        (FastEa::AnDisp(s), FastEa::AddrReg(d)) => {
            lemma_disp_load_atomic(w, win, size, s, d, true);
        },
        (FastEa::DataReg(s), FastEa::AnDisp(d)) => {
            lemma_disp_store_atomic(w, win, size, w.cpu.d(s as usize) & size.mask(), d);
        },
        (FastEa::AddrReg(s), FastEa::AnDisp(d)) => {
            lemma_disp_store_atomic(w, win, size, w.cpu.a(s as usize) & size.mask(), d);
        },
        (FastEa::AnDisp(s), FastEa::AnPreDec(d)) => {
            lemma_disp_push_atomic(w, win, size, s, d);
        },
        (FastEa::AnDisp(s), FastEa::AnDisp(d)) => {
            lemma_disp_move_atomic(w, win, size, s, d);
        },
        _ => {},
    }
}

proof fn lemma_fast_disp_atomic(w: Window, win: Win, op: DecodedMemOp)
    ensures
        w.fast_an_disp(win, op).1 != Some(true) ==> w.fast_an_disp(win, op).0 == w,
{
    reveal(Window::fast_an_disp);
    match op {
        DecodedMemOp::Move { size, src, dst } => {
            lemma_fast_disp_move_atomic(w, win, size, src, dst);
        },
        DecodedMemOp::Tst { size, ea: FastEa::AnDisp(reg) } => {
            lemma_disp_tst_atomic(w, win, size, reg);
        },
        DecodedMemOp::Clr { size, ea: FastEa::AnDisp(reg) } => {
            lemma_disp_clr_atomic(w, win, size, reg);
        },
        DecodedMemOp::AddqSubq { data, size, ea: FastEa::AnDisp(reg), is_sub } => {
            lemma_disp_quick_atomic(w, win, data, size, reg, is_sub);
        },
        DecodedMemOp::BitMem { op: o, bit: BitSource::Imm, ea: FastEa::AnDisp(reg) } => {
            lemma_disp_bit_atomic(w, win, o, reg);
        },
        _ => {},
    }
}

proof fn lemma_flow_atomic(w: Window, win: Win, op: DecodedMemOp)
    ensures
        w.fast_flow(win, op).1 != Some(true) ==> w.fast_flow(win, op).0 == w,
{
    reveal(Window::fast_flow);
    reveal(Window::flow_dbcc);
    reveal(Window::flow_rts);
    reveal(Window::flow_bsr);
    reveal(Window::flow_branch);
    reveal(Window::mem_push);
}

/// An operation either executes completely or changes nothing at all:
/// registers, flags, memory and PC.
pub proof fn law_mem_op_is_atomic(w: Window, op: DecodedMemOp)
    ensures
        !w.exec_mem_op(op).1 ==> w.exec_mem_op(op).0 == w,
{
    reveal(Window::exec_mem_op);
    reveal(Window::window_mem_op);
    reveal(Window::fast_movem_word_postinc);
    match w.cpu.active_window(w.mem.len() as usize) {
        None => {},
        Some(win) => {
            if let DecodedMemOp::Move { size, src, dst } = op {
                lemma_fast_move_atomic(w, win, size, src, dst);
            }
            lemma_fast_disp_atomic(w, win, op);
            lemma_flow_atomic(w, win, op);
            lemma_general_atomic(w, win, op);
        },
    }
}

/// The pending updates after at most two steps.
spec fn steps(first: Option<(u8, u32)>, second: Option<(u8, u32)>) -> Pending {
    match first {
        None => Pending { first: second, second: None },
        Some(_) => Pending { first, second },
    }
}

proof fn lemma_plain_source(cpu: CpuCore, mem: Seq<u8>, win: Win, size: Size, src: FastEa)
    requires
        model_agrees(cpu),
    ensures
        match cpu.plain_source(win, size, src) {
            None => true,
            Some(None) => cpu.spec_resolve(mem, win, src, size, cpu.start_ctx()) is None,
            Some(Some(from)) => cpu.spec_resolve(mem, win, src, size, cpu.start_ctx()) == Some(
                (from.0, Ctx { pending: steps(from.1, None), ..cpu.start_ctx() }),
            ),
        },
{
    reveal(CpuCore::spec_resolve);
}

proof fn lemma_plain_destination(
    cpu: CpuCore,
    mem: Seq<u8>,
    win: Win,
    size: Size,
    dst: FastEa,
    step: Option<(u8, u32)>,
)
    requires
        model_agrees(cpu),
    ensures
        ({
            let ctx = Ctx { pending: steps(step, None), ..cpu.start_ctx() };
            match cpu.plain_destination(win, size, dst, step) {
                None => true,
                Some(None) => cpu.spec_resolve(mem, win, dst, size, ctx) is None,
                Some(Some(to)) => cpu.spec_resolve(mem, win, dst, size, ctx) == Some(
                    (Loc::Mem(to.0), Ctx { pending: steps(step, to.1), ..cpu.start_ctx() }),
                ),
            }
        }),
{
    reveal(CpuCore::spec_resolve);
}

proof fn lemma_commit_steps(cpu: CpuCore, first: Option<(u8, u32)>, second: Option<(u8, u32)>)
    ensures
        cpu.spec_commit(steps(first, second)) == cpu.spec_apply_step(first).spec_apply_step(second),
        cpu.spec_commit(steps(first, None)) == cpu.spec_apply_step(first),
        cpu.spec_commit(steps(first, second)).pc == cpu.pc,
        cpu.spec_commit(Pending { first: None, second: None }) == cpu,
{
    reveal(CpuCore::spec_commit);
    reveal(CpuCore::spec_apply_step);
    reveal(CpuCore::spec_set_a);
}

proof fn lemma_keep_pc(cpu: CpuCore, reg: usize, value: u32, size: Size)
    ensures
        cpu.spec_set_logic_flags(value, size).pc == cpu.pc,
        cpu.spec_set_a(reg, value).pc == cpu.pc,
        cpu.spec_write_data_reg(reg, size, value).pc == cpu.pc,
{
    reveal(CpuCore::spec_set_logic_flags);
    reveal(CpuCore::spec_set_a);
    reveal(CpuCore::spec_set_d);
    reveal(CpuCore::spec_write_data_reg);
}

/// The path of its own that register and register-indirect MOVE has does what
/// the general resolution does.
#[verifier::spinoff_prover]
pub proof fn law_fast_move_agrees(w: Window, win: Win, size: Size, src: FastEa, dst: FastEa)
    requires
        model_agrees(w.cpu),
    ensures
        match w.fast_move(win, size, src, dst) {
            (after, Some(done)) => (after, done) == w.mem_move(win, size, src, dst),
            (after, None) => after == w,
        },
{
    reveal(Window::fast_move);
    reveal(Window::mem_move);
    reveal(Window::store);
    lemma_plain_source(w.cpu, w.mem, win, size, src);
    match w.cpu.plain_source(win, size, src) {
        Some(Some(from)) => {
            let value = w.cpu.spec_load(w.mem, from.0, size);
            lemma_commit_steps(w.cpu, from.1, None);
            let stepped = w.cpu.spec_apply_step(from.1);
            match dst {
                FastEa::DataReg(r) => {
                    assert(w.cpu.spec_resolve(w.mem, win, dst, size, Ctx { pending: steps(from.1, None), ..w.cpu.start_ctx() }) == Some((Loc::Data(r), Ctx { pending: steps(from.1, None), ..w.cpu.start_ctx() }))) by {
                        reveal(CpuCore::spec_resolve);
                    }
                    lemma_keep_pc(stepped, r as usize, value, size);
                    lemma_keep_pc(stepped.spec_write_data_reg(r as usize, size, value), 0, value, size);
                },
                FastEa::AddrReg(r) => {
                    lemma_keep_pc(stepped, r as usize, value, size);
                    lemma_keep_pc(stepped, r as usize, crate::alu::sign_extend(size, value), size);
                },
                _ => {
                    lemma_plain_destination(w.cpu, w.mem, win, size, dst, from.1);
                    match w.cpu.plain_destination(win, size, dst, from.1) {
                        Some(Some(to)) => {
                            lemma_commit_steps(w.cpu, from.1, to.1);
                            lemma_keep_pc(stepped.spec_apply_step(to.1), 0, value, size);
                        },
                        _ => {},
                    }
                },
            }
        },
        _ => {},
    }
}

/// A d16(An) operand is found where the general resolution finds it.
proof fn lemma_displacement(cpu: CpuCore, mem: Seq<u8>, win: Win, reg: u8, size: Size, ctx: Ctx)
    requires
        model_agrees(cpu),
        ctx.pending == (Pending { first: None, second: None }),
        ctx.aligned_only == cpu.start_ctx().aligned_only,
    ensures
        cpu.spec_resolve(mem, win, FastEa::AnDisp(reg), size, ctx) == match cpu.spec_locate_disp(
            mem,
            win,
            ctx.next_ext,
            reg,
            size,
        ) {
            Some(off) => Some((Loc::Mem(off), Ctx { next_ext: ctx.next_ext.wrapping_add(2), ..ctx })),
            None => None,
        },
{
    reveal(CpuCore::spec_resolve);
    reveal(CpuCore::spec_resolve_control_addr);
}

#[verifier::spinoff_prover]
proof fn lemma_disp_load_agrees(w: Window, win: Win, size: Size, s: u8, d: u8)
    requires
        model_agrees(w.cpu),
    ensures
        match w.fast_disp_move(win, size, FastEa::AnDisp(s), FastEa::DataReg(d)) {
            (after, Some(done)) => (after, done) == w.mem_move(win, size, FastEa::AnDisp(s), FastEa::DataReg(d)),
            (after, None) => after == w,
        },
{
    reveal(Window::fast_disp_move);
    let src = FastEa::AnDisp(s);
    let dst = FastEa::DataReg(d);
    let start = w.cpu.start_ctx();
    let after = Ctx { next_ext: start.next_ext.wrapping_add(2), ..start };
    lemma_commit_steps(w.cpu, None, None);
    lemma_displacement(w.cpu, w.mem, win, s, size, start);
    reveal(Window::mem_move);
    reveal(Window::store);
    reveal(Window::disp_load);
    match w.cpu.spec_locate_disp(w.mem, win, w.cpu.pc, s, size) {
        Some(off) => {
            let value = crate::mem_ops::spec_read_window(w.mem, off, size);
            lemma_keep_pc(w.cpu, d as usize, value, size);
            lemma_keep_pc(w.cpu.spec_write_data_reg(d as usize, size, value), 0, value, size);
            assert(w.cpu.spec_resolve(w.mem, win, dst, size, after) == Some((Loc::Data(d), after))) by {
                reveal(CpuCore::spec_resolve);
            }
        },
        None => {},
    }
}

#[verifier::spinoff_prover]
proof fn lemma_disp_load_address_agrees(w: Window, win: Win, size: Size, s: u8, d: u8)
    requires
        model_agrees(w.cpu),
    ensures
        match w.fast_disp_move(win, size, FastEa::AnDisp(s), FastEa::AddrReg(d)) {
            (after, Some(done)) => (after, done) == w.mem_move(win, size, FastEa::AnDisp(s), FastEa::AddrReg(d)),
            (after, None) => after == w,
        },
{
    reveal(Window::fast_disp_move);
    let src = FastEa::AnDisp(s);
    let dst = FastEa::AddrReg(d);
    let start = w.cpu.start_ctx();
    let after = Ctx { next_ext: start.next_ext.wrapping_add(2), ..start };
    lemma_commit_steps(w.cpu, None, None);
    lemma_displacement(w.cpu, w.mem, win, s, size, start);
    reveal(Window::mem_move);
    reveal(Window::disp_load);
    match w.cpu.spec_locate_disp(w.mem, win, w.cpu.pc, s, size) {
        Some(off) => {
            let value = crate::mem_ops::spec_read_window(w.mem, off, size);
            lemma_keep_pc(w.cpu, d as usize, value, size);
            lemma_keep_pc(w.cpu, d as usize, crate::alu::sign_extend(size, value), size);
        },
        None => {},
    }
}

#[verifier::spinoff_prover]
proof fn lemma_disp_store_agrees(w: Window, win: Win, size: Size, s: u8, d: u8)
    requires
        model_agrees(w.cpu),
    ensures
        match w.fast_disp_move(win, size, FastEa::DataReg(s), FastEa::AnDisp(d)) {
            (after, Some(done)) => (after, done) == w.mem_move(win, size, FastEa::DataReg(s), FastEa::AnDisp(d)),
            (after, None) => after == w,
        },
{
    reveal(Window::fast_disp_move);
    let src = FastEa::DataReg(s);
    let dst = FastEa::AnDisp(d);
    let start = w.cpu.start_ctx();
    let after = Ctx { next_ext: start.next_ext.wrapping_add(2), ..start };
    lemma_commit_steps(w.cpu, None, None);
    lemma_displacement(w.cpu, w.mem, win, d, size, start);
    reveal(Window::mem_move);
    reveal(Window::store);
    reveal(Window::disp_store);
    lemma_keep_pc(w.cpu, 0, w.cpu.d(s as usize) & size.mask(), size);
    assert(w.cpu.spec_resolve(w.mem, win, src, size, start) == Some((Loc::Data(s), start))) by {
        reveal(CpuCore::spec_resolve);
    }
}

#[verifier::spinoff_prover]
proof fn lemma_disp_store_address_agrees(w: Window, win: Win, size: Size, s: u8, d: u8)
    requires
        model_agrees(w.cpu),
    ensures
        match w.fast_disp_move(win, size, FastEa::AddrReg(s), FastEa::AnDisp(d)) {
            (after, Some(done)) => (after, done) == w.mem_move(win, size, FastEa::AddrReg(s), FastEa::AnDisp(d)),
            (after, None) => after == w,
        },
{
    reveal(Window::fast_disp_move);
    let src = FastEa::AddrReg(s);
    let dst = FastEa::AnDisp(d);
    let start = w.cpu.start_ctx();
    let after = Ctx { next_ext: start.next_ext.wrapping_add(2), ..start };
    lemma_commit_steps(w.cpu, None, None);
    lemma_displacement(w.cpu, w.mem, win, d, size, start);
    reveal(Window::mem_move);
    reveal(Window::store);
    reveal(Window::disp_store);
    lemma_keep_pc(w.cpu, 0, w.cpu.a(s as usize) & size.mask(), size);
    assert(w.cpu.spec_resolve(w.mem, win, src, size, start) == Some((Loc::Addr(s), start))) by {
        reveal(CpuCore::spec_resolve);
    }
}

#[verifier::spinoff_prover]
proof fn lemma_disp_push_agrees(w: Window, win: Win, size: Size, s: u8, d: u8)
    requires
        model_agrees(w.cpu),
    ensures
        match w.fast_disp_move(win, size, FastEa::AnDisp(s), FastEa::AnPreDec(d)) {
            (after, Some(done)) => (after, done) == w.mem_move(win, size, FastEa::AnDisp(s), FastEa::AnPreDec(d)),
            (after, None) => after == w,
        },
{
    reveal(Window::fast_disp_move);
    let src = FastEa::AnDisp(s);
    let dst = FastEa::AnPreDec(d);
    let start = w.cpu.start_ctx();
    let after = Ctx { next_ext: start.next_ext.wrapping_add(2), ..start };
    lemma_commit_steps(w.cpu, None, None);
    lemma_displacement(w.cpu, w.mem, win, s, size, start);
    reveal(Window::mem_move);
    reveal(Window::store);
    reveal(Window::disp_push);
    reveal(CpuCore::spec_resolve);
    let at = w.cpu.a(d as usize).wrapping_sub(ea_step(size, d));
    lemma_commit_steps(w.cpu, None, Some((d, at)));
    reveal(CpuCore::spec_apply_step);
    match w.cpu.spec_locate_disp(w.mem, win, w.cpu.pc, s, size) {
        Some(off) => {
            let value = crate::mem_ops::spec_read_window(w.mem, off, size);
            lemma_keep_pc(w.cpu, d as usize, at, size);
            lemma_keep_pc(w.cpu.spec_set_a(d as usize, at), 0, value, size);
        },
        None => {},
    }
}

#[verifier::spinoff_prover]
proof fn lemma_disp_copy_agrees(w: Window, win: Win, size: Size, s: u8, d: u8)
    requires
        model_agrees(w.cpu),
    ensures
        match w.fast_disp_move(win, size, FastEa::AnDisp(s), FastEa::AnDisp(d)) {
            (after, Some(done)) => (after, done) == w.mem_move(win, size, FastEa::AnDisp(s), FastEa::AnDisp(d)),
            (after, None) => after == w,
        },
{
    reveal(Window::fast_disp_move);
    let src = FastEa::AnDisp(s);
    let dst = FastEa::AnDisp(d);
    let start = w.cpu.start_ctx();
    let after = Ctx { next_ext: start.next_ext.wrapping_add(2), ..start };
    lemma_commit_steps(w.cpu, None, None);
    lemma_displacement(w.cpu, w.mem, win, s, size, start);
    lemma_displacement(w.cpu, w.mem, win, d, size, after);
    reveal(Window::mem_move);
    reveal(Window::store);
    reveal(Window::disp_move);
    lemma_add_twice(w.cpu.pc);
    match w.cpu.spec_locate_disp(w.mem, win, w.cpu.pc, s, size) {
        Some(off) => {
            lemma_keep_pc(w.cpu, 0, crate::mem_ops::spec_read_window(w.mem, off, size), size);
        },
        None => {},
    }
}

proof fn lemma_disp_move_agrees(w: Window, win: Win, size: Size, src: FastEa, dst: FastEa)
    requires
        model_agrees(w.cpu),
    ensures
        match w.fast_disp_move(win, size, src, dst) {
            (after, Some(done)) => (after, done) == w.mem_move(win, size, src, dst),
            (after, None) => after == w,
        },
{
    reveal(Window::fast_disp_move);
    match (src, dst) {
        (FastEa::AnDisp(s), FastEa::DataReg(d)) => {
            lemma_disp_load_agrees(w, win, size, s, d);
        },
        (FastEa::AnDisp(s), FastEa::AddrReg(d)) => {
            lemma_disp_load_address_agrees(w, win, size, s, d);
        },
        (FastEa::DataReg(s), FastEa::AnDisp(d)) => {
            lemma_disp_store_agrees(w, win, size, s, d);
        },
        (FastEa::AddrReg(s), FastEa::AnDisp(d)) => {
            lemma_disp_store_address_agrees(w, win, size, s, d);
        },
        (FastEa::AnDisp(s), FastEa::AnPreDec(d)) => {
            lemma_disp_push_agrees(w, win, size, s, d);
        },
        (FastEa::AnDisp(s), FastEa::AnDisp(d)) => {
            lemma_disp_copy_agrees(w, win, size, s, d);
        },
        _ => {},
    }
}

proof fn lemma_add_twice(pc: u32)
    ensures
        pc.wrapping_add(2).wrapping_add(2) == pc.wrapping_add(4),
{
}

#[verifier::spinoff_prover]
proof fn lemma_disp_tst_agrees(w: Window, win: Win, size: Size, reg: u8)
    requires
        model_agrees(w.cpu),
    ensures
        ({
            let op = DecodedMemOp::Tst { size, ea: FastEa::AnDisp(reg) };
            match w.fast_an_disp(win, op) {
                (after, Some(done)) => (after, done) == w.general_mem_op(win, op),
                (after, None) => after == w,
            }
        }),
{
    reveal(Window::fast_an_disp);
    let start = w.cpu.start_ctx();
    let next = Ctx { next_ext: start.next_ext.wrapping_add(2), ..start };
    lemma_commit_steps(w.cpu, None, None);
    lemma_add_twice(w.cpu.pc);
    lemma_displacement(w.cpu, w.mem, win, reg, size, start);
    reveal(Window::general_mem_op);
    reveal(Window::mem_tst);
    reveal(Window::disp_tst);
    match w.cpu.spec_locate_disp(w.mem, win, w.cpu.pc, reg, size) {
        Some(off) => {
            lemma_keep_pc(w.cpu, 0, crate::mem_ops::spec_read_window(w.mem, off, size), size);
        },
        None => {},
    }
}

#[verifier::spinoff_prover]
proof fn lemma_disp_clr_agrees(w: Window, win: Win, size: Size, reg: u8)
    requires
        model_agrees(w.cpu),
    ensures
        ({
            let op = DecodedMemOp::Clr { size, ea: FastEa::AnDisp(reg) };
            match w.fast_an_disp(win, op) {
                (after, Some(done)) => (after, done) == w.general_mem_op(win, op),
                (after, None) => after == w,
            }
        }),
{
    reveal(Window::fast_an_disp);
    let start = w.cpu.start_ctx();
    let next = Ctx { next_ext: start.next_ext.wrapping_add(2), ..start };
    lemma_commit_steps(w.cpu, None, None);
    lemma_add_twice(w.cpu.pc);
    lemma_displacement(w.cpu, w.mem, win, reg, size, start);
    reveal(Window::general_mem_op);
    reveal(Window::mem_clr);
    reveal(Window::disp_clr);
    reveal(Window::store);
    lemma_keep_pc(w.cpu, 0, 0, size);
}

#[verifier::spinoff_prover]
proof fn lemma_disp_quick_agrees(w: Window, win: Win, data: u32, size: Size, reg: u8, is_sub: bool)
    requires
        model_agrees(w.cpu),
    ensures
        ({
            let op = DecodedMemOp::AddqSubq { data, size, ea: FastEa::AnDisp(reg), is_sub };
            match w.fast_an_disp(win, op) {
                (after, Some(done)) => (after, done) == w.general_mem_op(win, op),
                (after, None) => after == w,
            }
        }),
{
    reveal(Window::fast_an_disp);
    let start = w.cpu.start_ctx();
    let next = Ctx { next_ext: start.next_ext.wrapping_add(2), ..start };
    lemma_commit_steps(w.cpu, None, None);
    lemma_add_twice(w.cpu.pc);
    lemma_displacement(w.cpu, w.mem, win, reg, size, start);
    reveal(Window::general_mem_op);
    reveal(Window::mem_modify);
    reveal(Window::disp_quick);
    reveal(Window::store);
    reveal(CpuCore::spec_set_binary_flags);
    reveal(CpuCore::spec_set_add_flags);
    reveal(CpuCore::spec_set_sub_flags);
    reveal(CpuCore::spec_set_compare_flags);
}

#[verifier::spinoff_prover]
proof fn lemma_disp_bit_agrees(w: Window, win: Win, o: BitOp, reg: u8)
    requires
        model_agrees(w.cpu),
    ensures
        ({
            let op = DecodedMemOp::BitMem { op: o, bit: BitSource::Imm, ea: FastEa::AnDisp(reg) };
            match w.fast_an_disp(win, op) {
                (after, Some(done)) => (after, done) == w.general_mem_op(win, op),
                (after, None) => after == w,
            }
        }),
{
    reveal(Window::fast_an_disp);
    let start = w.cpu.start_ctx();
    let next = Ctx { next_ext: start.next_ext.wrapping_add(2), ..start };
    lemma_commit_steps(w.cpu, None, None);
    lemma_add_twice(w.cpu.pc);
    lemma_displacement(w.cpu, w.mem, win, reg, Size::Byte, next);
    reveal(Window::general_mem_op);
    reveal(Window::mem_bit);
    reveal(Window::mem_bit_op);
    reveal(Window::disp_bit);
    reveal(Window::store);
}

proof fn lemma_disp_operand_agrees(w: Window, win: Win, op: DecodedMemOp)
    requires
        model_agrees(w.cpu),
        !(op is Move),
    ensures
        match w.fast_an_disp(win, op) {
            (after, Some(done)) => (after, done) == w.general_mem_op(win, op),
            (after, None) => after == w,
        },
{
    reveal(Window::fast_an_disp);
    match op {
        DecodedMemOp::Tst { size, ea: FastEa::AnDisp(reg) } => {
            lemma_disp_tst_agrees(w, win, size, reg);
        },
        DecodedMemOp::Clr { size, ea: FastEa::AnDisp(reg) } => {
            lemma_disp_clr_agrees(w, win, size, reg);
        },
        DecodedMemOp::AddqSubq { data, size, ea: FastEa::AnDisp(reg), is_sub } => {
            lemma_disp_quick_agrees(w, win, data, size, reg, is_sub);
        },
        DecodedMemOp::BitMem { op: o, bit: BitSource::Imm, ea: FastEa::AnDisp(reg) } => {
            lemma_disp_bit_agrees(w, win, o, reg);
        },
        _ => {},
    }
}

/// The paths of their own that the d16(An) operations have do what the
/// general resolution does.
pub proof fn law_fast_displacement_agrees(w: Window, win: Win, op: DecodedMemOp)
    requires
        model_agrees(w.cpu),
    ensures
        match w.fast_an_disp(win, op) {
            (after, Some(done)) => (after, done) == w.general_mem_op(win, op),
            (after, None) => after == w,
        },
{
    if let DecodedMemOp::Move { size, src, dst } = op {
        reveal(Window::fast_an_disp);
        reveal(Window::general_mem_op);
        lemma_disp_move_agrees(w, win, size, src, dst);
    } else {
        lemma_disp_operand_agrees(w, win, op);
    }
}

/// Whatever path an operation takes, it does what the general resolution of
/// its operands says.
pub proof fn law_mem_op_is_general(w: Window, op: DecodedMemOp)
    requires
        model_agrees(w.cpu),
        has_general_form(op),
    ensures
        w.exec_mem_op(op) == match w.cpu.active_window(w.mem.len() as usize) {
            None => (w, false),
            Some(win) => w.general_mem_op(win, op),
        },
{
    reveal(Window::exec_mem_op);
    reveal(Window::window_mem_op);
    reveal(Window::fast_flow);
    match w.cpu.active_window(w.mem.len() as usize) {
        None => {},
        Some(win) => {
            if let DecodedMemOp::Move { size, src, dst } = op {
                law_fast_move_agrees(w, win, size, src, dst);
                reveal(Window::general_mem_op);
            }
            law_fast_displacement_agrees(w, win, op);
        },
    }
}

/// A value stored in the window reads back, in the bits of its size.
pub proof fn law_window_read_back(mem: Seq<u8>, off: usize, size: Size, value: u32)
    requires
        off + size.bytes() <= mem.len(),
    ensures
        crate::mem_ops::spec_read_window(
            crate::mem_ops::spec_write_window(mem, off, size, value),
            off,
            size,
        ) == value & size.mask(),
{
    lemma_window_bytes(value);
}

proof fn lemma_window_bytes(v: u32)
    by (bit_vector)
    ensures
        (v as u8) as u32 == v & 0xFF,
        (((v >> 8) as u8 as u32) << 8) | (v as u8 as u32) == v & 0xFFFF,
        (((v >> 24) as u8 as u32) << 24) | (((v >> 16) as u8 as u32) << 16) | (((v >> 8) as u8 as u32)
            << 8) | (v as u8 as u32) == v & 0xFFFF_FFFF,
{
}

/// A store changes the bytes of its operand and no other.
pub proof fn law_window_write_is_local(mem: Seq<u8>, off: usize, size: Size, value: u32, i: int)
    requires
        0 <= i < mem.len(),
        i < off || off + size.bytes() <= i,
    ensures
        crate::mem_ops::spec_write_window(mem, off, size, value).len() == mem.len(),
        crate::mem_ops::spec_write_window(mem, off, size, value)[i] == mem[i],
{
}

/// An offset that the window gives to an access leaves room for all of it.
pub proof fn law_window_offset_fits(win: Win, addr: u32, bytes: u32)
    ensures
        match crate::mem_ops::window_off(win, addr, bytes) {
            Some(off) => off + bytes <= win.len && off == addr.wrapping_sub(win.base),
            None => bytes > win.len || addr.wrapping_sub(win.base) + bytes > win.len,
        },
{
}

} // verus!
