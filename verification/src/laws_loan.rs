//! Operations on the window change bytes, never their number: what a bus
//! lends comes back whole. Each lemma says it of one operation, and rests on
//! those of the operations it is made of.

use vstd::prelude::*;
use crate::mem_ops::{BitSource, Ctx, DecodedMemOp, FastEa, Loc, Win, Window};
use crate::op_cache::{AddrOp, BinaryOp, BitOp};
use crate::types::Size;

verus! {

pub broadcast proof fn keeps_bytes_fast_move(
    w: Window,
    win: Win,
    size: Size,
    src: FastEa,
    dst: FastEa,
)
    ensures
        (#[trigger] w.fast_move(win, size, src, dst)).0.mem.len() == w.mem.len(),
{
    reveal(Window::fast_move);
}

pub broadcast proof fn keeps_bytes_fast_movem_word_postinc(w: Window, win: Win, base: u8)
    ensures
        (#[trigger] w.fast_movem_word_postinc(win, base)).0.mem.len() == w.mem.len(),
{
    reveal(Window::fast_movem_word_postinc);
}

pub broadcast proof fn keeps_bytes_disp_load(
    w: Window,
    win: Win,
    size: Size,
    src: u8,
    dst: u8,
    to_address: bool,
)
    ensures
        (#[trigger] w.disp_load(win, size, src, dst, to_address)).0.mem.len() == w.mem.len(),
{
    reveal(Window::disp_load);
}

pub broadcast proof fn keeps_bytes_disp_store(w: Window, win: Win, size: Size, value: u32, dst: u8)
    ensures
        (#[trigger] w.disp_store(win, size, value, dst)).0.mem.len() == w.mem.len(),
{
    reveal(Window::disp_store);
}

pub broadcast proof fn keeps_bytes_disp_push(w: Window, win: Win, size: Size, src: u8, dst: u8)
    ensures
        (#[trigger] w.disp_push(win, size, src, dst)).0.mem.len() == w.mem.len(),
{
    reveal(Window::disp_push);
}

pub broadcast proof fn keeps_bytes_disp_move(w: Window, win: Win, size: Size, src: u8, dst: u8)
    ensures
        (#[trigger] w.disp_move(win, size, src, dst)).0.mem.len() == w.mem.len(),
{
    reveal(Window::disp_move);
}

pub broadcast proof fn keeps_bytes_fast_disp_move(
    w: Window,
    win: Win,
    size: Size,
    src: FastEa,
    dst: FastEa,
)
    ensures
        (#[trigger] w.fast_disp_move(win, size, src, dst)).0.mem.len() == w.mem.len(),
{
    broadcast use {
        keeps_bytes_disp_load,
        keeps_bytes_disp_store,
        keeps_bytes_disp_push,
        keeps_bytes_disp_move,
    };

    reveal(Window::fast_disp_move);
}

pub broadcast proof fn keeps_bytes_disp_tst(w: Window, win: Win, size: Size, reg: u8)
    ensures
        (#[trigger] w.disp_tst(win, size, reg)).0.mem.len() == w.mem.len(),
{
    reveal(Window::disp_tst);
}

pub broadcast proof fn keeps_bytes_disp_clr(w: Window, win: Win, size: Size, reg: u8)
    ensures
        (#[trigger] w.disp_clr(win, size, reg)).0.mem.len() == w.mem.len(),
{
    reveal(Window::disp_clr);
}

pub broadcast proof fn keeps_bytes_disp_quick(
    w: Window,
    win: Win,
    data: u32,
    size: Size,
    reg: u8,
    is_sub: bool,
)
    ensures
        (#[trigger] w.disp_quick(win, data, size, reg, is_sub)).0.mem.len() == w.mem.len(),
{
    reveal(Window::disp_quick);
}

pub broadcast proof fn keeps_bytes_disp_bit(w: Window, win: Win, op: BitOp, reg: u8)
    ensures
        (#[trigger] w.disp_bit(win, op, reg)).0.mem.len() == w.mem.len(),
{
    reveal(Window::disp_bit);
}

pub broadcast proof fn keeps_bytes_fast_an_disp(w: Window, win: Win, op: DecodedMemOp)
    ensures
        (#[trigger] w.fast_an_disp(win, op)).0.mem.len() == w.mem.len(),
{
    broadcast use {
        keeps_bytes_fast_disp_move,
        keeps_bytes_disp_tst,
        keeps_bytes_disp_clr,
        keeps_bytes_disp_quick,
        keeps_bytes_disp_bit,
    };

    reveal(Window::fast_an_disp);
}

pub broadcast proof fn keeps_bytes_flow_dbcc(w: Window, win: Win, condition: u8, reg: u8)
    ensures
        (#[trigger] w.flow_dbcc(win, condition, reg)).0.mem.len() == w.mem.len(),
{
    reveal(Window::flow_dbcc);
}

pub broadcast proof fn keeps_bytes_flow_rts(w: Window, win: Win)
    ensures
        (#[trigger] w.flow_rts(win)).0.mem.len() == w.mem.len(),
{
    reveal(Window::flow_rts);
}

pub broadcast proof fn keeps_bytes_mem_push(w: Window, win: Win, aligned_only: bool, value: u32)
    ensures
        (#[trigger] w.mem_push(win, aligned_only, value)).0.mem.len() == w.mem.len(),
{
    reveal(Window::mem_push);
}

pub broadcast proof fn keeps_bytes_flow_bsr(w: Window, win: Win, displacement: i32, length: u32)
    ensures
        (#[trigger] w.flow_bsr(win, displacement, length)).0.mem.len() == w.mem.len(),
{
    broadcast use keeps_bytes_mem_push;

    reveal(Window::flow_bsr);
}

pub broadcast proof fn keeps_bytes_flow_branch(w: Window, win: Win, condition: u8)
    ensures
        (#[trigger] w.flow_branch(win, condition)).0.mem.len() == w.mem.len(),
{
    reveal(Window::flow_branch);
}

pub broadcast proof fn keeps_bytes_fast_flow(w: Window, win: Win, op: DecodedMemOp)
    ensures
        (#[trigger] w.fast_flow(win, op)).0.mem.len() == w.mem.len(),
{
    broadcast use {
        keeps_bytes_flow_dbcc,
        keeps_bytes_flow_rts,
        keeps_bytes_flow_bsr,
        keeps_bytes_flow_branch,
    };

    reveal(Window::fast_flow);
}

pub broadcast proof fn keeps_bytes_store(w: Window, loc: Loc, size: Size, value: u32)
    ensures
        (#[trigger] w.store(loc, size, value)).mem.len() == w.mem.len(),
{
    reveal(Window::store);
}

pub broadcast proof fn keeps_bytes_mem_move(
    w: Window,
    win: Win,
    size: Size,
    src: FastEa,
    dst: FastEa,
)
    ensures
        (#[trigger] w.mem_move(win, size, src, dst)).0.mem.len() == w.mem.len(),
{
    broadcast use keeps_bytes_store;

    reveal(Window::mem_move);
}

pub broadcast proof fn keeps_bytes_mem_alu_to_reg(
    w: Window,
    win: Win,
    op: BinaryOp,
    size: Size,
    src: FastEa,
    dst: u8,
)
    ensures
        (#[trigger] w.mem_alu_to_reg(win, op, size, src, dst)).0.mem.len() == w.mem.len(),
{
    reveal(Window::mem_alu_to_reg);
}

pub broadcast proof fn keeps_bytes_mem_modify(
    w: Window,
    win: Win,
    op: BinaryOp,
    size: Size,
    src: u32,
    ea: FastEa,
    ctx: Ctx,
)
    ensures
        (#[trigger] w.mem_modify(win, op, size, src, ea, ctx)).0.mem.len() == w.mem.len(),
{
    broadcast use keeps_bytes_store;

    reveal(Window::mem_modify);
}

pub broadcast proof fn keeps_bytes_mem_alu_addr(
    w: Window,
    win: Win,
    op: AddrOp,
    size: Size,
    src: FastEa,
    dst: u8,
)
    ensures
        (#[trigger] w.mem_alu_addr(win, op, size, src, dst)).0.mem.len() == w.mem.len(),
{
    reveal(Window::mem_alu_addr);
}

pub broadcast proof fn keeps_bytes_mem_alu_imm(
    w: Window,
    win: Win,
    op: BinaryOp,
    size: Size,
    dst: FastEa,
)
    ensures
        (#[trigger] w.mem_alu_imm(win, op, size, dst)).0.mem.len() == w.mem.len(),
{
    broadcast use keeps_bytes_mem_modify;

    reveal(Window::mem_alu_imm);
}

pub broadcast proof fn keeps_bytes_mem_tst(w: Window, win: Win, size: Size, ea: FastEa)
    ensures
        (#[trigger] w.mem_tst(win, size, ea)).0.mem.len() == w.mem.len(),
{
    reveal(Window::mem_tst);
}

pub broadcast proof fn keeps_bytes_mem_clr(w: Window, win: Win, size: Size, ea: FastEa)
    ensures
        (#[trigger] w.mem_clr(win, size, ea)).0.mem.len() == w.mem.len(),
{
    broadcast use keeps_bytes_store;

    reveal(Window::mem_clr);
}

pub broadcast proof fn keeps_bytes_mem_neg(w: Window, win: Win, size: Size, ea: FastEa)
    ensures
        (#[trigger] w.mem_neg(win, size, ea)).0.mem.len() == w.mem.len(),
{
    broadcast use keeps_bytes_store;

    reveal(Window::mem_neg);
}

pub broadcast proof fn keeps_bytes_mem_not(w: Window, win: Win, size: Size, ea: FastEa)
    ensures
        (#[trigger] w.mem_not(win, size, ea)).0.mem.len() == w.mem.len(),
{
    broadcast use keeps_bytes_store;

    reveal(Window::mem_not);
}

pub broadcast proof fn keeps_bytes_mem_bit(
    w: Window,
    win: Win,
    op: BitOp,
    bit: u32,
    ea: FastEa,
    ctx: Ctx,
)
    ensures
        (#[trigger] w.mem_bit(win, op, bit, ea, ctx)).0.mem.len() == w.mem.len(),
{
    broadcast use keeps_bytes_store;

    reveal(Window::mem_bit);
}

pub broadcast proof fn keeps_bytes_mem_bit_op(
    w: Window,
    win: Win,
    op: BitOp,
    bit: BitSource,
    ea: FastEa,
)
    ensures
        (#[trigger] w.mem_bit_op(win, op, bit, ea)).0.mem.len() == w.mem.len(),
{
    broadcast use keeps_bytes_mem_bit;

    reveal(Window::mem_bit_op);
}

pub broadcast proof fn keeps_bytes_mem_compare(w: Window, win: Win, size: Size, src: u8, dst: u8)
    ensures
        (#[trigger] w.mem_compare(win, size, src, dst)).0.mem.len() == w.mem.len(),
{
    reveal(Window::mem_compare);
}

pub broadcast proof fn keeps_bytes_mem_lea(w: Window, win: Win, reg: u8, ea: FastEa)
    ensures
        (#[trigger] w.mem_lea(win, reg, ea)).0.mem.len() == w.mem.len(),
{
    reveal(Window::mem_lea);
}

pub broadcast proof fn keeps_bytes_mem_pea(w: Window, win: Win, ea: FastEa)
    ensures
        (#[trigger] w.mem_pea(win, ea)).0.mem.len() == w.mem.len(),
{
    broadcast use keeps_bytes_mem_push;

    reveal(Window::mem_pea);
}

pub broadcast proof fn keeps_bytes_mem_jmp(w: Window, win: Win, ea: FastEa)
    ensures
        (#[trigger] w.mem_jmp(win, ea)).0.mem.len() == w.mem.len(),
{
    reveal(Window::mem_jmp);
}

pub broadcast proof fn keeps_bytes_mem_jsr(w: Window, win: Win, ea: FastEa)
    ensures
        (#[trigger] w.mem_jsr(win, ea)).0.mem.len() == w.mem.len(),
{
    broadcast use keeps_bytes_mem_push;

    reveal(Window::mem_jsr);
}

pub broadcast proof fn keeps_bytes_general_mem_op(w: Window, win: Win, op: DecodedMemOp)
    ensures
        (#[trigger] w.general_mem_op(win, op)).0.mem.len() == w.mem.len(),
{
    broadcast use {
        keeps_bytes_mem_move,
        keeps_bytes_mem_alu_to_reg,
        keeps_bytes_mem_modify,
        keeps_bytes_mem_alu_addr,
        keeps_bytes_mem_alu_imm,
        keeps_bytes_mem_tst,
        keeps_bytes_mem_clr,
        keeps_bytes_mem_neg,
        keeps_bytes_mem_not,
        keeps_bytes_mem_bit_op,
        keeps_bytes_mem_compare,
        keeps_bytes_mem_lea,
        keeps_bytes_mem_pea,
        keeps_bytes_mem_jmp,
        keeps_bytes_mem_jsr,
    };

    reveal(Window::general_mem_op);
}

pub broadcast proof fn keeps_bytes_window_mem_op(w: Window, win: Win, op: DecodedMemOp)
    ensures
        (#[trigger] w.window_mem_op(win, op)).0.mem.len() == w.mem.len(),
{
    broadcast use {
        keeps_bytes_fast_move,
        keeps_bytes_fast_movem_word_postinc,
        keeps_bytes_fast_an_disp,
        keeps_bytes_fast_flow,
        keeps_bytes_general_mem_op,
    };

    reveal(Window::window_mem_op);
}

pub broadcast proof fn keeps_bytes_exec_mem_op(w: Window, op: DecodedMemOp)
    ensures
        (#[trigger] w.exec_mem_op(op)).0.mem.len() == w.mem.len(),
{
    broadcast use keeps_bytes_window_mem_op;

    reveal(Window::exec_mem_op);
}

/// A memory operation gives back as many bytes as it was lent.
pub proof fn law_mem_op_keeps_length(w: Window, op: DecodedMemOp)
    ensures
        w.exec_mem_op(op).0.mem.len() == w.mem.len(),
{
    keeps_bytes_exec_mem_op(w, op);
}

} // verus!
