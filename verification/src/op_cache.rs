//! Decoded simple operation cache.
//!
//! Simple one-word instructions that do not touch memory, read extension
//! words, trap, or need rollback are decoded once per opcode word. Decoding
//! depends only on the opcode and the model, so a cached verdict cannot go
//! stale from self-modifying code: the fetched opcode itself is the index.

use vstd::prelude::*;
use crate::alu::{flag, sign_extend};
use crate::cpu::{Ccr, CpuCore, RunState, RUN_MODE_NORMAL};
use crate::decode_arith::decode_size_00;
use crate::instructions::bit_mask;
use crate::mem_ops::{decode_mem, DecodedMemOp};
use crate::types::{is_pre_68020, CpuType, Size};

verus! {

/// Number of entries in the opcode-indexed decode table: one per possible
/// opcode word.
pub const DECODE_TABLE_SIZE: usize = 0x1_0000;

/// A data or address register.
#[derive(Debug, Clone, Copy, PartialEq, Eq, Structural)]
pub enum DirectReg {
    Data(u8),
    Addr(u8),
}

/// One-operand operations.
#[derive(Debug, Clone, Copy, PartialEq, Eq, Structural)]
pub enum UnaryOp {
    Clr,
    Neg,
    Negx,
    Not,
    Tst,
}

/// Two-operand operations.
#[derive(Debug, Clone, Copy, PartialEq, Eq, Structural)]
pub enum BinaryOp {
    Add,
    Sub,
    And,
    Or,
    Eor,
    Compare,
}

/// Operations on address registers.
#[derive(Debug, Clone, Copy, PartialEq, Eq, Structural)]
pub enum AddrOp {
    Adda,
    Suba,
    Compare,
}

/// Bit operations.
#[derive(Debug, Clone, Copy, PartialEq, Eq, Structural)]
pub enum BitOp {
    Test,
    Change,
    Clear,
    SetBit,
}

/// A register-only one-word instruction.
#[derive(Debug, Clone, Copy, PartialEq, Eq, Structural)]
#[allow(inconsistent_fields)]
pub enum DecodedSimpleOp {
    Nop,
    MoveReg { src: DirectReg, dst: DirectReg, size: Size },
    Moveq { reg: u8, data: u32 },
    UnaryDataReg { op: UnaryOp, reg: u8, size: Size },
    Swap { reg: u8 },
    Ext { reg: u8, size: Size },
    Extb { reg: u8 },
    AddqSubqReg { reg: u8, data: u32, size: Size, is_sub: bool },
    AddqSubqAddr { reg: u8, data: u32, is_sub: bool },
    BinaryDataReg { op: BinaryOp, src: DirectReg, dst: u8, size: Size, cycles: i32 },
    AddrDataReg { op: AddrOp, src: DirectReg, dst: u8, size: Size },
    AddSubxReg { src: u8, dst: u8, size: Size, is_sub: bool },
    BitReg { op: BitOp, bit_reg: u8, dst: u8 },
    BcdReg { src: u8, dst: u8, is_sub: bool },
    Exg { opcode: u16 },
    SccDataReg { condition: u8, reg: u8 },
    ShiftReg { reg: u8, size: Size, count_or_reg: u8, count_is_register: bool, direction: u8, op: u8 },
    BranchShort { condition: u8, displacement: i8 },
}

/// Cached decode verdict for one opcode word.
#[derive(Debug, Clone, Copy, PartialEq, Eq, Structural)]
pub enum CachedOp {
    /// Not decoded yet.
    Unknown,
    /// Register-only one-word op.
    Simple(DecodedSimpleOp),
    /// Memory-operand op: runs only in the batch loop, on a memory window.
    Mem(DecodedMemOp),
    /// Neither: full dispatch.
    Complex,
}

/// A register as the trace compiler names it.
#[derive(Debug, Clone, Copy, PartialEq, Eq, Structural)]
pub enum JitDirectReg {
    Data(u8),
    Addr(u8),
}

/// A one-operand operation as the trace compiler names it.
#[derive(Debug, Clone, Copy, PartialEq, Eq, Structural)]
pub enum JitUnaryOp {
    Clr,
    Neg,
    Negx,
    Not,
    Tst,
}

/// A two-operand operation as the trace compiler names it.
#[derive(Debug, Clone, Copy, PartialEq, Eq, Structural)]
pub enum JitBinaryOp {
    Add,
    Sub,
    And,
    Or,
    Eor,
    Compare,
}

/// An address-register operation as the trace compiler names it.
#[derive(Debug, Clone, Copy, PartialEq, Eq, Structural)]
pub enum JitAddrOp {
    Adda,
    Suba,
    Compare,
}

/// A bit operation as the trace compiler names it.
#[derive(Debug, Clone, Copy, PartialEq, Eq, Structural)]
pub enum JitBitOp {
    Test,
    Change,
    Clear,
    SetBit,
}

/// An instruction as the trace compiler takes it.
#[derive(Debug, Clone, Copy, PartialEq, Eq, Structural)]
#[allow(inconsistent_fields)]
pub enum JitTraceOp {
    Nop,
    MoveReg { src: JitDirectReg, dst: JitDirectReg, size: Size },
    Moveq { reg: u8, data: u32 },
    UnaryDataReg { op: JitUnaryOp, reg: u8, size: Size },
    Swap { reg: u8 },
    Ext { reg: u8, size: Size },
    Extb { reg: u8 },
    AddqSubqReg { reg: u8, data: u32, size: Size, is_sub: bool },
    AddqSubqAddr { reg: u8, data: u32, is_sub: bool },
    BinaryDataReg { op: JitBinaryOp, src: JitDirectReg, dst: u8, size: Size, cycles: i32 },
    AddrDataReg { op: JitAddrOp, src: JitDirectReg, dst: u8, size: Size },
    AddSubxReg { src: u8, dst: u8, size: Size, is_sub: bool },
    BitReg { op: JitBitOp, bit_reg: u8, dst: u8 },
    Exg { opcode: u16 },
    SccDataReg { condition: u8, reg: u8 },
    ShiftReg { reg: u8, size: Size, count_or_reg: u8, count_is_register: bool, direction: u8, op: u8 },
    Branch { condition: u8, displacement: i32, length: u32, expected_taken: Option<bool> },
}

/// The register of a mode and register field, for the two register modes.
pub open spec fn spec_direct_reg(mode: u16, reg: u16) -> Option<DirectReg> {
    match mode {
        0 => Some(DirectReg::Data(reg as u8)),
        1 => Some(DirectReg::Addr(reg as u8)),
        _ => None,
    }
}

/// The register of a mode and register field, for the two register modes.
#[verifier::when_used_as_spec(spec_direct_reg)]
pub fn direct_reg(mode: u16, reg: u16) -> (r: Option<DirectReg>)
    ensures
        r == spec_direct_reg(mode, reg),
{
    match mode {
        0 => Some(DirectReg::Data(reg as u8)),
        1 => Some(DirectReg::Addr(reg as u8)),
        _ => None,
    }
}

/// The bit operation of a two-bit field.
pub open spec fn spec_bit_op(field: u16) -> BitOp {
    match field {
        0 => BitOp::Test,
        1 => BitOp::Change,
        2 => BitOp::Clear,
        _ => BitOp::SetBit,
    }
}

/// The bit operation of a two-bit field.
#[verifier::when_used_as_spec(spec_bit_op)]
pub fn bit_op(field: u16) -> (r: BitOp)
    ensures
        r == spec_bit_op(field),
{
    match field {
        0 => BitOp::Test,
        1 => BitOp::Change,
        2 => BitOp::Clear,
        _ => BitOp::SetBit,
    }
}

/// MOVE and MOVEA between registers. An address register has no byte form.
pub open spec fn spec_decode_move_reg(opcode: u16, size: Size) -> Option<DecodedSimpleOp> {
    if size == Size::Byte && (opcode >> 3) & 7 == 1 {
        None
    } else {
        let dst_reg: u8 = ((opcode >> 9) & 7) as u8;
        match direct_reg((opcode >> 3) & 7, opcode & 7) {
            Some(src) => {
                match (opcode >> 6) & 7 {
                    0 => Some(DecodedSimpleOp::MoveReg { src: src, dst: DirectReg::Data(dst_reg), size: size }),
                    1 => {
                        if size != Size::Byte {
                            Some(DecodedSimpleOp::MoveReg { src: src, dst: DirectReg::Addr(dst_reg), size: size })
                        } else {
                            None
                        }
                    },
                    _ => None,
                }
            },
            None => None,
        }
    }
}

/// MOVE and MOVEA between registers. An address register has no byte form.
#[verifier::when_used_as_spec(spec_decode_move_reg)]
pub fn decode_move_reg(opcode: u16, size: Size) -> (r: Option<DecodedSimpleOp>)
    ensures
        r == spec_decode_move_reg(opcode, size),
{
    if size == Size::Byte && (opcode >> 3) & 7 == 1 {
        return None;
    }
    let dst_reg: u8 = ((opcode >> 9) & 7) as u8;
    match direct_reg((opcode >> 3) & 7, opcode & 7) {
        Some(src) => {
            match (opcode >> 6) & 7 {
                0 => Some(DecodedSimpleOp::MoveReg { src: src, dst: DirectReg::Data(dst_reg), size: size }),
                1 => {
                    if size != Size::Byte {
                        Some(DecodedSimpleOp::MoveReg { src: src, dst: DirectReg::Addr(dst_reg), size: size })
                    } else {
                        None
                    }
                },
                _ => None,
            }
        },
        None => None,
    }
}

/// NEGX, CLR, NEG, NOT and TST of a data register.
pub open spec fn spec_decode_group_4_reg(opcode: u16) -> Option<DecodedSimpleOp> {
    if (opcode >> 3) & 7 != 0 || (opcode >> 6) & 3 == 3 {
        None
    } else {
        let reg: u8 = (opcode & 7) as u8;
        let size: Size = decode_size_00((opcode >> 6) & 3);
        match (opcode >> 8) & 0xF {
            0x0 => Some(DecodedSimpleOp::UnaryDataReg { op: UnaryOp::Negx, reg: reg, size: size }),
            0x2 => Some(DecodedSimpleOp::UnaryDataReg { op: UnaryOp::Clr, reg: reg, size: size }),
            0x4 => Some(DecodedSimpleOp::UnaryDataReg { op: UnaryOp::Neg, reg: reg, size: size }),
            0x6 => Some(DecodedSimpleOp::UnaryDataReg { op: UnaryOp::Not, reg: reg, size: size }),
            0xA => Some(DecodedSimpleOp::UnaryDataReg { op: UnaryOp::Tst, reg: reg, size: size }),
            _ => None,
        }
    }
}

/// NEGX, CLR, NEG, NOT and TST of a data register.
#[verifier::when_used_as_spec(spec_decode_group_4_reg)]
pub fn decode_group_4_reg(opcode: u16) -> (r: Option<DecodedSimpleOp>)
    ensures
        r == spec_decode_group_4_reg(opcode),
{
    if (opcode >> 3) & 7 != 0 || (opcode >> 6) & 3 == 3 {
        return None;
    }
    let reg: u8 = (opcode & 7) as u8;
    let size: Size = decode_size_00((opcode >> 6) & 3);
    match (opcode >> 8) & 0xF {
        0x0 => Some(DecodedSimpleOp::UnaryDataReg { op: UnaryOp::Negx, reg: reg, size: size }),
        0x2 => Some(DecodedSimpleOp::UnaryDataReg { op: UnaryOp::Clr, reg: reg, size: size }),
        0x4 => Some(DecodedSimpleOp::UnaryDataReg { op: UnaryOp::Neg, reg: reg, size: size }),
        0x6 => Some(DecodedSimpleOp::UnaryDataReg { op: UnaryOp::Not, reg: reg, size: size }),
        0xA => Some(DecodedSimpleOp::UnaryDataReg { op: UnaryOp::Tst, reg: reg, size: size }),
        _ => None,
    }
}

/// Time of a register-to-register operation: before the 68020 a long operand
/// takes 8 clocks, 6 for a comparison.
pub open spec fn spec_alu_reg_cycles(pre020: bool, size_field: u16, comparison: bool) -> i32 {
    if pre020 && size_field == 2 {
        if comparison {
            6
        } else {
            8
        }
    } else {
        4
    }
}

/// Time of a register-to-register operation: before the 68020 a long operand
/// takes 8 clocks, 6 for a comparison.
#[verifier::when_used_as_spec(spec_alu_reg_cycles)]
pub fn alu_reg_cycles(pre020: bool, size_field: u16, comparison: bool) -> (r: i32)
    ensures
        r == spec_alu_reg_cycles(pre020, size_field, comparison),
{
    if pre020 && size_field == 2 {
        if comparison {
            6
        } else {
            8
        }
    } else {
        4
    }
}

/// A two-operand operation into a data register.
pub open spec fn spec_binary_reg(op: BinaryOp, src: Option<DirectReg>, dst: u8, field: u16, cycles: i32) -> Option<DecodedSimpleOp> {
    match src {
        Some(reg) => {
            Some(
        DecodedSimpleOp::BinaryDataReg { op: op, src: reg, dst: dst, size: decode_size_00(field), cycles: cycles },
    )
        },
        None => None,
    }
}

/// A two-operand operation into a data register.
#[verifier::when_used_as_spec(spec_binary_reg)]
pub fn binary_reg(op: BinaryOp, src: Option<DirectReg>, dst: u8, field: u16, cycles: i32) -> (r: Option<DecodedSimpleOp>)
    ensures
        r == spec_binary_reg(op, src, dst, field, cycles),
{
    match src {
        Some(reg) => Some(
            DecodedSimpleOp::BinaryDataReg { op: op, src: reg, dst: dst, size: decode_size_00(field), cycles: cycles },
        ),
        None => None,
    }
}

/// An operation into an address register: word for operation mode 3, long
/// for 7.
pub open spec fn spec_addr_reg(op: AddrOp, src: Option<DirectReg>, dst: u8, op_mode: u16) -> Option<DecodedSimpleOp> {
    let size: Size = if op_mode == 3 {
        Size::Word
    } else {
        Size::Long
    };
    match src {
        Some(reg) => Some(DecodedSimpleOp::AddrDataReg { op: op, src: reg, dst: dst, size: size }),
        None => None,
    }
}

/// An operation into an address register: word for operation mode 3, long
/// for 7.
#[verifier::when_used_as_spec(spec_addr_reg)]
pub fn addr_reg(op: AddrOp, src: Option<DirectReg>, dst: u8, op_mode: u16) -> (r: Option<DecodedSimpleOp>)
    ensures
        r == spec_addr_reg(op, src, dst, op_mode),
{
    let size: Size = if op_mode == 3 {
        Size::Word
    } else {
        Size::Long
    };
    match src {
        Some(reg) => Some(DecodedSimpleOp::AddrDataReg { op: op, src: reg, dst: dst, size: size }),
        None => None,
    }
}

/// The source register of a two-operand operation. An address register is no
/// byte operand, and no operand of the logic operations.
pub open spec fn spec_alu_source(mode: u16, reg: u16, field: u16, logic: bool) -> Option<DirectReg> {
    if mode == 1 && (logic || field == 0) {
        None
    } else {
        direct_reg(mode, reg)
    }
}

/// The source register of a two-operand operation. An address register is no
/// byte operand, and no operand of the logic operations.
#[verifier::when_used_as_spec(spec_alu_source)]
pub fn alu_source(mode: u16, reg: u16, field: u16, logic: bool) -> (r: Option<DirectReg>)
    ensures
        r == spec_alu_source(mode, reg, field, logic),
{
    if mode == 1 && (logic || field == 0) {
        None
    } else {
        direct_reg(mode, reg)
    }
}

/// The register forms of the arithmetic and logic groups.
pub open spec fn spec_decode_group_alu_reg(cpu_type: CpuType, opcode: u16) -> Option<DecodedSimpleOp> {
    let pre020: bool = is_pre_68020(cpu_type);
    let reg: u8 = ((opcode >> 9) & 7) as u8;
    let ea_mode: u16 = (opcode >> 3) & 7;
    let ea_reg: u8 = (opcode & 7) as u8;
    let op_mode: u16 = (opcode >> 6) & 7;
    let field: u16 = (opcode >> 6) & 3;
    let src: Option<DirectReg> = direct_reg(ea_mode, opcode & 7);
    let cycles: i32 = alu_reg_cycles(pre020, field, false);
    match (opcode >> 12) & 0xF {
        0x8 => {
            if op_mode <= 2 {
                binary_reg(BinaryOp::Or, alu_source(ea_mode, opcode & 7, field, true), reg, field, cycles)
            } else if op_mode == 4 && ea_mode == 0 {
                Some(DecodedSimpleOp::BcdReg { src: ea_reg, dst: reg, is_sub: true })
            } else {
                None
            }
        },
        0x9 => {
            if op_mode <= 2 {
                binary_reg(BinaryOp::Sub, alu_source(ea_mode, opcode & 7, field, false), reg, field, cycles)
            } else if op_mode == 3 || op_mode == 7 {
                addr_reg(AddrOp::Suba, src, reg, op_mode)
            } else if ea_mode == 0 {
                Some(DecodedSimpleOp::AddSubxReg { src: ea_reg, dst: reg, size: decode_size_00(field), is_sub: true })
            } else {
                None
            }
        },
        0xB => {
            if op_mode <= 2 {
                binary_reg(
                BinaryOp::Compare,
                alu_source(ea_mode, opcode & 7, field, false),
                reg,
                field,
                alu_reg_cycles(pre020, field, true),
            )
            } else if op_mode == 3 || op_mode == 7 {
                addr_reg(AddrOp::Compare, src, reg, op_mode)
            } else if ea_mode == 0 {
                binary_reg(BinaryOp::Eor, Some(DirectReg::Data(reg)), ea_reg, field, if pre020 { cycles } else { 8 })
            } else {
                None
            }
        },
        0xC => {
            let mode_field: u16 = (opcode >> 3) & 0x1F;
            if op_mode <= 2 {
                binary_reg(BinaryOp::And, alu_source(ea_mode, opcode & 7, field, true), reg, field, cycles)
            } else if op_mode == 4 && ea_mode == 0 {
                Some(DecodedSimpleOp::BcdReg { src: ea_reg, dst: reg, is_sub: false })
            } else if mode_field == 0x08 || mode_field == 0x09 || mode_field == 0x11 {
                Some(DecodedSimpleOp::Exg { opcode: opcode })
            } else {
                None
            }
        },
        0xD => {
            if op_mode <= 2 {
                binary_reg(BinaryOp::Add, alu_source(ea_mode, opcode & 7, field, false), reg, field, cycles)
            } else if op_mode == 3 || op_mode == 7 {
                addr_reg(AddrOp::Adda, src, reg, op_mode)
            } else if ea_mode == 0 {
                Some(DecodedSimpleOp::AddSubxReg { src: ea_reg, dst: reg, size: decode_size_00(field), is_sub: false })
            } else {
                None
            }
        },
        _ => None,
    }
}

/// The register forms of the arithmetic and logic groups.
#[verifier::when_used_as_spec(spec_decode_group_alu_reg)]
pub fn decode_group_alu_reg(cpu_type: CpuType, opcode: u16) -> (r: Option<DecodedSimpleOp>)
    ensures
        r == spec_decode_group_alu_reg(cpu_type, opcode),
{
    let pre020: bool = is_pre_68020(cpu_type);
    let reg: u8 = ((opcode >> 9) & 7) as u8;
    let ea_mode: u16 = (opcode >> 3) & 7;
    let ea_reg: u8 = (opcode & 7) as u8;
    let op_mode: u16 = (opcode >> 6) & 7;
    let field: u16 = (opcode >> 6) & 3;
    let src: Option<DirectReg> = direct_reg(ea_mode, opcode & 7);
    let cycles: i32 = alu_reg_cycles(pre020, field, false);
    match (opcode >> 12) & 0xF {
        0x8 => {
            if op_mode <= 2 {
                binary_reg(BinaryOp::Or, alu_source(ea_mode, opcode & 7, field, true), reg, field, cycles)
            } else if op_mode == 4 && ea_mode == 0 {
                Some(DecodedSimpleOp::BcdReg { src: ea_reg, dst: reg, is_sub: true })
            } else {
                None
            }
        },
        0x9 => {
            if op_mode <= 2 {
                binary_reg(BinaryOp::Sub, alu_source(ea_mode, opcode & 7, field, false), reg, field, cycles)
            } else if op_mode == 3 || op_mode == 7 {
                addr_reg(AddrOp::Suba, src, reg, op_mode)
            } else if ea_mode == 0 {
                Some(DecodedSimpleOp::AddSubxReg { src: ea_reg, dst: reg, size: decode_size_00(field), is_sub: true })
            } else {
                None
            }
        },
        0xB => {
            if op_mode <= 2 {
                binary_reg(
                    BinaryOp::Compare,
                    alu_source(ea_mode, opcode & 7, field, false),
                    reg,
                    field,
                    alu_reg_cycles(pre020, field, true),
                )
            } else if op_mode == 3 || op_mode == 7 {
                addr_reg(AddrOp::Compare, src, reg, op_mode)
            } else if ea_mode == 0 {
                binary_reg(BinaryOp::Eor, Some(DirectReg::Data(reg)), ea_reg, field, if pre020 { cycles } else { 8 })
            } else {
                None
            }
        },
        0xC => {
            let mode_field: u16 = (opcode >> 3) & 0x1F;
            if op_mode <= 2 {
                binary_reg(BinaryOp::And, alu_source(ea_mode, opcode & 7, field, true), reg, field, cycles)
            } else if op_mode == 4 && ea_mode == 0 {
                Some(DecodedSimpleOp::BcdReg { src: ea_reg, dst: reg, is_sub: false })
            } else if mode_field == 0x08 || mode_field == 0x09 || mode_field == 0x11 {
                Some(DecodedSimpleOp::Exg { opcode: opcode })
            } else {
                None
            }
        },
        0xD => {
            if op_mode <= 2 {
                binary_reg(BinaryOp::Add, alu_source(ea_mode, opcode & 7, field, false), reg, field, cycles)
            } else if op_mode == 3 || op_mode == 7 {
                addr_reg(AddrOp::Adda, src, reg, op_mode)
            } else if ea_mode == 0 {
                Some(DecodedSimpleOp::AddSubxReg { src: ea_reg, dst: reg, size: decode_size_00(field), is_sub: false })
            } else {
                None
            }
        },
        _ => None,
    }
}

/// Group 4 apart from the one-operand instructions: SWAP, EXT and EXTB.
pub open spec fn spec_decode_group_4_other(cpu_type: CpuType, opcode: u16) -> Option<DecodedSimpleOp> {
    let reg: u8 = (opcode & 7) as u8;
    match opcode & 0xFFF8 {
        0x4840 => Some(DecodedSimpleOp::Swap { reg: reg }),
        0x4880 => Some(DecodedSimpleOp::Ext { reg: reg, size: Size::Word }),
        0x48C0 => Some(DecodedSimpleOp::Ext { reg: reg, size: Size::Long }),
        0x49C0 => {
            if is_pre_68020(cpu_type) {
                None
            } else {
                Some(DecodedSimpleOp::Extb { reg: reg })
            }
        },
        _ => None,
    }
}

/// Group 4 apart from the one-operand instructions: SWAP, EXT and EXTB.
#[verifier::when_used_as_spec(spec_decode_group_4_other)]
pub fn decode_group_4_other(cpu_type: CpuType, opcode: u16) -> (r: Option<DecodedSimpleOp>)
    ensures
        r == spec_decode_group_4_other(cpu_type, opcode),
{
    let reg: u8 = (opcode & 7) as u8;
    match opcode & 0xFFF8 {
        0x4840 => Some(DecodedSimpleOp::Swap { reg: reg }),
        0x4880 => Some(DecodedSimpleOp::Ext { reg: reg, size: Size::Word }),
        0x48C0 => Some(DecodedSimpleOp::Ext { reg: reg, size: Size::Long }),
        0x49C0 => {
            if is_pre_68020(cpu_type) {
                None
            } else {
                Some(DecodedSimpleOp::Extb { reg: reg })
            }
        },
        _ => None,
    }
}

/// ADDQ, SUBQ and Scc on registers. An address register has no byte form.
pub open spec fn spec_decode_group_5_reg(opcode: u16) -> Option<DecodedSimpleOp> {
    let ea_mode: u16 = (opcode >> 3) & 7;
    let reg: u8 = (opcode & 7) as u8;
    if (opcode >> 6) & 3 == 3 {
        if ea_mode == 0 {
            Some(DecodedSimpleOp::SccDataReg { condition: ((opcode >> 8) & 0xF) as u8, reg: reg })
        } else {
            None
        }
    } else {
        let field: u32 = ((opcode >> 9) & 7) as u32;
        let data: u32 = if field == 0 {
            8
        } else {
            field
        };
        let is_sub: bool = opcode & 0x100 != 0;
        match ea_mode {
            0 => {
                Some(
        DecodedSimpleOp::AddqSubqReg { reg: reg, data: data, size: decode_size_00((opcode >> 6) & 3), is_sub: is_sub },
    )
            },
            1 => {
                if (opcode >> 6) & 3 == 0 {
                    None
                } else {
                    Some(DecodedSimpleOp::AddqSubqAddr { reg: reg, data: data, is_sub: is_sub })
                }
            },
            _ => None,
        }
    }
}

/// ADDQ, SUBQ and Scc on registers. An address register has no byte form.
#[verifier::when_used_as_spec(spec_decode_group_5_reg)]
pub fn decode_group_5_reg(opcode: u16) -> (r: Option<DecodedSimpleOp>)
    ensures
        r == spec_decode_group_5_reg(opcode),
{
    let ea_mode: u16 = (opcode >> 3) & 7;
    let reg: u8 = (opcode & 7) as u8;
    if (opcode >> 6) & 3 == 3 {
        if ea_mode == 0 {
            return Some(DecodedSimpleOp::SccDataReg { condition: ((opcode >> 8) & 0xF) as u8, reg: reg });
        }
        return None;
    }
    let field: u32 = ((opcode >> 9) & 7) as u32;
    let data: u32 = if field == 0 {
        8
    } else {
        field
    };
    let is_sub: bool = opcode & 0x100 != 0;
    match ea_mode {
        0 => Some(
            DecodedSimpleOp::AddqSubqReg { reg: reg, data: data, size: decode_size_00((opcode >> 6) & 3), is_sub: is_sub },
        ),
        1 => {
            if (opcode >> 6) & 3 == 0 {
                None
            } else {
                Some(DecodedSimpleOp::AddqSubqAddr { reg: reg, data: data, is_sub: is_sub })
            }
        },
        _ => None,
    }
}

/// Decode a simple instruction: one that works on registers alone and cannot
/// trap. Encodings that the dispatcher reports as illegal are none.
pub open spec fn spec_decode_simple(cpu_type: CpuType, opcode: u16) -> Option<DecodedSimpleOp> {
    match (opcode >> 12) & 0xF {
        0x0 => {
            if opcode & 0x0100 != 0 && (opcode >> 3) & 7 == 0 {
                Some(
                DecodedSimpleOp::BitReg {
                    op: bit_op((opcode >> 6) & 3),
                    bit_reg: ((opcode >> 9) & 7) as u8,
                    dst: (opcode & 7) as u8,
                },
            )
            } else {
                None
            }
        },
        0x1 => decode_move_reg(opcode, Size::Byte),
        0x2 => decode_move_reg(opcode, Size::Long),
        0x3 => decode_move_reg(opcode, Size::Word),
        0x4 => {
            if opcode == 0x4E71 {
                Some(DecodedSimpleOp::Nop)
            } else {
                match decode_group_4_reg(opcode) {
                    Some(op) => Some(op),
                    None => decode_group_4_other(cpu_type, opcode),
                }
            }
        },
        0x5 => decode_group_5_reg(opcode),
        0x6 => {
            let condition: u8 = ((opcode >> 8) & 0xF) as u8;
            let displacement: u8 = (opcode & 0xFF) as u8;
            if condition != 1 && displacement != 0 && displacement != 0xFF {
                Some(DecodedSimpleOp::BranchShort { condition: condition, displacement: displacement as i8 })
            } else {
                None
            }
        },
        0x7 => {
            if opcode & 0x0100 != 0 {
                None
            } else {
                Some(
                DecodedSimpleOp::Moveq {
                    reg: ((opcode >> 9) & 7) as u8,
                    data: crate::prefetch::sext8((opcode & 0xFF) as u8),
                },
            )
            }
        },
        0xE => {
            if (opcode & 0x00C0) != 0x00C0 {
                Some(
                DecodedSimpleOp::ShiftReg {
                    reg: (opcode & 7) as u8,
                    size: decode_size_00((opcode >> 6) & 3),
                    count_or_reg: ((opcode >> 9) & 7) as u8,
                    count_is_register: opcode & 0x20 != 0,
                    direction: ((opcode >> 8) & 1) as u8,
                    op: ((opcode >> 3) & 3) as u8,
                },
            )
            } else {
                None
            }
        },
        0x8 | 0x9 | 0xB | 0xC | 0xD => decode_group_alu_reg(cpu_type, opcode),
        _ => None,
    }
}

/// Decode a simple instruction: one that works on registers alone and cannot
/// trap. Encodings that the dispatcher reports as illegal are none.
#[verifier::when_used_as_spec(spec_decode_simple)]
pub fn decode_simple(cpu_type: CpuType, opcode: u16) -> (r: Option<DecodedSimpleOp>)
    ensures
        r == spec_decode_simple(cpu_type, opcode),
{
    match (opcode >> 12) & 0xF {
        0x0 => {
            if opcode & 0x0100 != 0 && (opcode >> 3) & 7 == 0 {
                Some(
                    DecodedSimpleOp::BitReg {
                        op: bit_op((opcode >> 6) & 3),
                        bit_reg: ((opcode >> 9) & 7) as u8,
                        dst: (opcode & 7) as u8,
                    },
                )
            } else {
                None
            }
        },
        0x1 => decode_move_reg(opcode, Size::Byte),
        0x2 => decode_move_reg(opcode, Size::Long),
        0x3 => decode_move_reg(opcode, Size::Word),
        0x4 => {
            if opcode == 0x4E71 {
                return Some(DecodedSimpleOp::Nop);
            }
            match decode_group_4_reg(opcode) {
                Some(op) => Some(op),
                None => decode_group_4_other(cpu_type, opcode),
            }
        },
        0x5 => decode_group_5_reg(opcode),
        0x6 => {
            let condition: u8 = ((opcode >> 8) & 0xF) as u8;
            let displacement: u8 = (opcode & 0xFF) as u8;
            if condition != 1 && displacement != 0 && displacement != 0xFF {
                Some(DecodedSimpleOp::BranchShort { condition: condition, displacement: displacement as i8 })
            } else {
                None
            }
        },
        0x7 => {
            if opcode & 0x0100 != 0 {
                None
            } else {
                Some(
                    DecodedSimpleOp::Moveq {
                        reg: ((opcode >> 9) & 7) as u8,
                        data: crate::prefetch::sext8((opcode & 0xFF) as u8),
                    },
                )
            }
        },
        0xE => {
            if (opcode & 0x00C0) != 0x00C0 {
                Some(
                    DecodedSimpleOp::ShiftReg {
                        reg: (opcode & 7) as u8,
                        size: decode_size_00((opcode >> 6) & 3),
                        count_or_reg: ((opcode >> 9) & 7) as u8,
                        count_is_register: opcode & 0x20 != 0,
                        direction: ((opcode >> 8) & 1) as u8,
                        op: ((opcode >> 3) & 3) as u8,
                    },
                )
            } else {
                None
            }
        },
        0x8 | 0x9 | 0xB | 0xC | 0xD => decode_group_alu_reg(cpu_type, opcode),
        _ => None,
    }
}

/// A register in the naming of the trace compiler.
pub open spec fn spec_jit_direct_reg(reg: DirectReg) -> JitDirectReg {
    match reg {
        DirectReg::Data(r) => JitDirectReg::Data(r),
        DirectReg::Addr(r) => JitDirectReg::Addr(r),
    }
}

/// A register in the naming of the trace compiler.
#[verifier::when_used_as_spec(spec_jit_direct_reg)]
pub fn jit_direct_reg(reg: DirectReg) -> (r: JitDirectReg)
    ensures
        r == spec_jit_direct_reg(reg),
{
    match reg {
        DirectReg::Data(r) => JitDirectReg::Data(r),
        DirectReg::Addr(r) => JitDirectReg::Addr(r),
    }
}

/// A one-operand operation in the naming of the trace compiler.
pub open spec fn spec_jit_unary_op(op: UnaryOp) -> JitUnaryOp {
    match op {
        UnaryOp::Clr => JitUnaryOp::Clr,
        UnaryOp::Neg => JitUnaryOp::Neg,
        UnaryOp::Negx => JitUnaryOp::Negx,
        UnaryOp::Not => JitUnaryOp::Not,
        UnaryOp::Tst => JitUnaryOp::Tst,
    }
}

/// A one-operand operation in the naming of the trace compiler.
#[verifier::when_used_as_spec(spec_jit_unary_op)]
pub fn jit_unary_op(op: UnaryOp) -> (r: JitUnaryOp)
    ensures
        r == spec_jit_unary_op(op),
{
    match op {
        UnaryOp::Clr => JitUnaryOp::Clr,
        UnaryOp::Neg => JitUnaryOp::Neg,
        UnaryOp::Negx => JitUnaryOp::Negx,
        UnaryOp::Not => JitUnaryOp::Not,
        UnaryOp::Tst => JitUnaryOp::Tst,
    }
}

/// A two-operand operation in the naming of the trace compiler.
pub open spec fn spec_jit_binary_op(op: BinaryOp) -> JitBinaryOp {
    match op {
        BinaryOp::Add => JitBinaryOp::Add,
        BinaryOp::Sub => JitBinaryOp::Sub,
        BinaryOp::And => JitBinaryOp::And,
        BinaryOp::Or => JitBinaryOp::Or,
        BinaryOp::Eor => JitBinaryOp::Eor,
        BinaryOp::Compare => JitBinaryOp::Compare,
    }
}

/// A two-operand operation in the naming of the trace compiler.
#[verifier::when_used_as_spec(spec_jit_binary_op)]
pub fn jit_binary_op(op: BinaryOp) -> (r: JitBinaryOp)
    ensures
        r == spec_jit_binary_op(op),
{
    match op {
        BinaryOp::Add => JitBinaryOp::Add,
        BinaryOp::Sub => JitBinaryOp::Sub,
        BinaryOp::And => JitBinaryOp::And,
        BinaryOp::Or => JitBinaryOp::Or,
        BinaryOp::Eor => JitBinaryOp::Eor,
        BinaryOp::Compare => JitBinaryOp::Compare,
    }
}

/// An address-register operation in the naming of the trace compiler.
pub open spec fn spec_jit_addr_op(op: AddrOp) -> JitAddrOp {
    match op {
        AddrOp::Adda => JitAddrOp::Adda,
        AddrOp::Suba => JitAddrOp::Suba,
        AddrOp::Compare => JitAddrOp::Compare,
    }
}

/// An address-register operation in the naming of the trace compiler.
#[verifier::when_used_as_spec(spec_jit_addr_op)]
pub fn jit_addr_op(op: AddrOp) -> (r: JitAddrOp)
    ensures
        r == spec_jit_addr_op(op),
{
    match op {
        AddrOp::Adda => JitAddrOp::Adda,
        AddrOp::Suba => JitAddrOp::Suba,
        AddrOp::Compare => JitAddrOp::Compare,
    }
}

/// A bit operation in the naming of the trace compiler.
pub open spec fn spec_jit_bit_op(op: BitOp) -> JitBitOp {
    match op {
        BitOp::Test => JitBitOp::Test,
        BitOp::Change => JitBitOp::Change,
        BitOp::Clear => JitBitOp::Clear,
        BitOp::SetBit => JitBitOp::SetBit,
    }
}

/// A bit operation in the naming of the trace compiler.
#[verifier::when_used_as_spec(spec_jit_bit_op)]
pub fn jit_bit_op(op: BitOp) -> (r: JitBitOp)
    ensures
        r == spec_jit_bit_op(op),
{
    match op {
        BitOp::Test => JitBitOp::Test,
        BitOp::Change => JitBitOp::Change,
        BitOp::Clear => JitBitOp::Clear,
        BitOp::SetBit => JitBitOp::SetBit,
    }
}

/// The instruction as the trace compiler takes it, if it does. Of the shifts
/// it takes ASR and LSL by an immediate count; it takes no decimal
/// arithmetic.
pub open spec fn spec_trace_op(op: DecodedSimpleOp) -> Option<JitTraceOp> {
    match op {
        DecodedSimpleOp::Nop => Some(JitTraceOp::Nop),
        DecodedSimpleOp::MoveReg { src, dst, size } => {
            Some(
        JitTraceOp::MoveReg { src: jit_direct_reg(src), dst: jit_direct_reg(dst), size: size },
    )
        },
        DecodedSimpleOp::Moveq { reg, data } => Some(JitTraceOp::Moveq { reg: reg, data: data }),
        DecodedSimpleOp::UnaryDataReg { op: o, reg, size } => {
            Some(
        JitTraceOp::UnaryDataReg { op: jit_unary_op(o), reg: reg, size: size },
    )
        },
        DecodedSimpleOp::Swap { reg } => Some(JitTraceOp::Swap { reg: reg }),
        DecodedSimpleOp::Ext { reg, size } => Some(JitTraceOp::Ext { reg: reg, size: size }),
        DecodedSimpleOp::Extb { reg } => Some(JitTraceOp::Extb { reg: reg }),
        DecodedSimpleOp::AddqSubqReg { reg, data, size, is_sub } => {
            Some(
        JitTraceOp::AddqSubqReg { reg: reg, data: data, size: size, is_sub: is_sub },
    )
        },
        DecodedSimpleOp::AddqSubqAddr { reg, data, is_sub } => {
            Some(
        JitTraceOp::AddqSubqAddr { reg: reg, data: data, is_sub: is_sub },
    )
        },
        DecodedSimpleOp::BinaryDataReg { op: o, src, dst, size, cycles } => {
            Some(
        JitTraceOp::BinaryDataReg { op: jit_binary_op(o), src: jit_direct_reg(src), dst: dst, size: size, cycles: cycles },
    )
        },
        DecodedSimpleOp::AddrDataReg { op: o, src, dst, size } => {
            Some(
        JitTraceOp::AddrDataReg { op: jit_addr_op(o), src: jit_direct_reg(src), dst: dst, size: size },
    )
        },
        DecodedSimpleOp::AddSubxReg { src, dst, size, is_sub } => {
            Some(
        JitTraceOp::AddSubxReg { src: src, dst: dst, size: size, is_sub: is_sub },
    )
        },
        DecodedSimpleOp::BitReg { op: o, bit_reg, dst } => {
            Some(
        JitTraceOp::BitReg { op: jit_bit_op(o), bit_reg: bit_reg, dst: dst },
    )
        },
        DecodedSimpleOp::Exg { opcode } => Some(JitTraceOp::Exg { opcode: opcode }),
        DecodedSimpleOp::SccDataReg { condition, reg } => {
            Some(
        JitTraceOp::SccDataReg { condition: condition, reg: reg },
    )
        },
        DecodedSimpleOp::ShiftReg { reg, size, count_or_reg, count_is_register, direction, op: o } => {
            if !count_is_register && (o == 0 && direction == 0 || o == 1 && direction == 1) {
                Some(
                JitTraceOp::ShiftReg {
                    reg: reg,
                    size: size,
                    count_or_reg: count_or_reg,
                    count_is_register: count_is_register,
                    direction: direction,
                    op: o,
                },
            )
            } else {
                None
            }
        },
        DecodedSimpleOp::BranchShort { condition, displacement } => {
            Some(
        JitTraceOp::Branch {
            condition: condition,
            displacement: displacement as i32,
            length: 2,
            expected_taken: None,
        },
    )
        },
        DecodedSimpleOp::BcdReg { src: _, dst: _, is_sub: _ } => None,
    }
}

/// The instruction as the trace compiler takes it, if it does. Of the shifts
/// it takes ASR and LSL by an immediate count; it takes no decimal
/// arithmetic.
#[verifier::when_used_as_spec(spec_trace_op)]
pub fn trace_op(op: DecodedSimpleOp) -> (r: Option<JitTraceOp>)
    ensures
        r == spec_trace_op(op),
{
    match op {
        DecodedSimpleOp::Nop => Some(JitTraceOp::Nop),
        DecodedSimpleOp::MoveReg { src, dst, size } => Some(
            JitTraceOp::MoveReg { src: jit_direct_reg(src), dst: jit_direct_reg(dst), size: size },
        ),
        DecodedSimpleOp::Moveq { reg, data } => Some(JitTraceOp::Moveq { reg: reg, data: data }),
        DecodedSimpleOp::UnaryDataReg { op: o, reg, size } => Some(
            JitTraceOp::UnaryDataReg { op: jit_unary_op(o), reg: reg, size: size },
        ),
        DecodedSimpleOp::Swap { reg } => Some(JitTraceOp::Swap { reg: reg }),
        DecodedSimpleOp::Ext { reg, size } => Some(JitTraceOp::Ext { reg: reg, size: size }),
        DecodedSimpleOp::Extb { reg } => Some(JitTraceOp::Extb { reg: reg }),
        DecodedSimpleOp::AddqSubqReg { reg, data, size, is_sub } => Some(
            JitTraceOp::AddqSubqReg { reg: reg, data: data, size: size, is_sub: is_sub },
        ),
        DecodedSimpleOp::AddqSubqAddr { reg, data, is_sub } => Some(
            JitTraceOp::AddqSubqAddr { reg: reg, data: data, is_sub: is_sub },
        ),
        DecodedSimpleOp::BinaryDataReg { op: o, src, dst, size, cycles } => Some(
            JitTraceOp::BinaryDataReg { op: jit_binary_op(o), src: jit_direct_reg(src), dst: dst, size: size, cycles: cycles },
        ),
        DecodedSimpleOp::AddrDataReg { op: o, src, dst, size } => Some(
            JitTraceOp::AddrDataReg { op: jit_addr_op(o), src: jit_direct_reg(src), dst: dst, size: size },
        ),
        DecodedSimpleOp::AddSubxReg { src, dst, size, is_sub } => Some(
            JitTraceOp::AddSubxReg { src: src, dst: dst, size: size, is_sub: is_sub },
        ),
        DecodedSimpleOp::BitReg { op: o, bit_reg, dst } => Some(
            JitTraceOp::BitReg { op: jit_bit_op(o), bit_reg: bit_reg, dst: dst },
        ),
        DecodedSimpleOp::Exg { opcode } => Some(JitTraceOp::Exg { opcode: opcode }),
        DecodedSimpleOp::SccDataReg { condition, reg } => Some(
            JitTraceOp::SccDataReg { condition: condition, reg: reg },
        ),
        DecodedSimpleOp::ShiftReg { reg, size, count_or_reg, count_is_register, direction, op: o } => {
            if !count_is_register && (o == 0 && direction == 0 || o == 1 && direction == 1) {
                Some(
                    JitTraceOp::ShiftReg {
                        reg: reg,
                        size: size,
                        count_or_reg: count_or_reg,
                        count_is_register: count_is_register,
                        direction: direction,
                        op: o,
                    },
                )
            } else {
                None
            }
        },
        DecodedSimpleOp::BranchShort { condition, displacement } => Some(
            JitTraceOp::Branch {
                condition: condition,
                displacement: displacement as i32,
                length: 2,
                expected_taken: None,
            },
        ),
        DecodedSimpleOp::BcdReg { src: _, dst: _, is_sub: _ } => None,
    }
}

/// The verdict on an opcode: simple, on memory, or neither.
pub open spec fn spec_decode_verdict(cpu_type: CpuType, opcode: u16) -> CachedOp {
    match decode_simple(cpu_type, opcode) {
        Some(op) => CachedOp::Simple(op),
        None => {
            match decode_mem(cpu_type, opcode) {
                Some(op) => CachedOp::Mem(op),
                None => CachedOp::Complex,
            }
        },
    }
}

/// The verdict on an opcode: simple, on memory, or neither.
#[verifier::when_used_as_spec(spec_decode_verdict)]
pub fn decode_verdict(cpu_type: CpuType, opcode: u16) -> (r: CachedOp)
    ensures
        r == spec_decode_verdict(cpu_type, opcode),
{
    match decode_simple(cpu_type, opcode) {
        Some(op) => CachedOp::Simple(op),
        None => {
            match decode_mem(cpu_type, opcode) {
                Some(op) => CachedOp::Mem(op),
                None => CachedOp::Complex,
            }
        },
    }
}

impl DecodedSimpleOp {
    /// The simple instruction of an opcode, if it is one.
    pub open spec fn spec_decode(cpu_type: CpuType, opcode: u16) -> Option<DecodedSimpleOp> {
        decode_simple(cpu_type, opcode)
    }

    /// Decode a simple instruction.
    #[verifier::when_used_as_spec(spec_decode)]
    pub fn decode(cpu_type: CpuType, opcode: u16) -> (r: Option<DecodedSimpleOp>)
        ensures
            r == Self::spec_decode(cpu_type, opcode),
    {
        decode_simple(cpu_type, opcode)
    }

    /// The instruction as the trace compiler takes it, if it does.
    pub fn to_jit_trace_op(self) -> (r: Option<JitTraceOp>)
        ensures
            r == trace_op(self),
    {
        trace_op(self)
    }

    /// Execute the instruction; gives its cycles.
    pub fn execute(self, cpu: &mut CpuCore) -> (r: i32)
        ensures
            (*final(cpu), r) == old(cpu).spec_exec_simple(self),
    {
        cpu.exec_simple(self)
    }
}

/// The decode table: for each opcode nothing yet, or the verdict of one
/// model.
#[derive(Debug)]
pub struct OpCache {
    entries: Vec<CachedOp>,
    cpu_type: CpuType,
}

impl OpCache {
    #[verifier::type_invariant]
    spec fn inv(self) -> bool {
        &&& self.entries@.len() == DECODE_TABLE_SIZE
        &&& forall|i: int|
            #![trigger self.entries@[i]]
            0 <= i < DECODE_TABLE_SIZE ==> self.entries@[i] == CachedOp::Unknown || self.entries@[i]
                == decode_verdict(self.cpu_type, i as u16)
    }

    /// The model whose verdicts the table holds.
    pub closed spec fn model(self) -> CpuType {
        self.cpu_type
    }

    /// A table that holds nothing yet.
    pub fn new(cpu_type: CpuType) -> (r: OpCache)
        ensures
            r.model() == cpu_type,
    {
        let mut entries: Vec<CachedOp> = Vec::with_capacity(DECODE_TABLE_SIZE);
        let mut i: usize = 0;
        while i < DECODE_TABLE_SIZE
            invariant
                i <= DECODE_TABLE_SIZE,
                entries@.len() == i,
                forall|k: int| 0 <= k < i ==> entries@[k] == CachedOp::Unknown,
            decreases DECODE_TABLE_SIZE - i,
        {
            entries.push(CachedOp::Unknown);
            i = i + 1;
        }
        OpCache { entries, cpu_type }
    }

    /// Whether the table holds the verdicts of a model.
    pub fn is_for(&self, cpu_type: CpuType) -> (r: bool)
        ensures
            r == (self.model() == cpu_type),
    {
        self.cpu_type == cpu_type
    }

    /// The verdict on an opcode, decoded now if it was not known.
    pub fn lookup(self, opcode: u16) -> (r: (OpCache, CachedOp))
        ensures
            r.0.model() == self.model(),
            r.1 == decode_verdict(self.model(), opcode),
    {
        proof {
            use_type_invariant(&self);
        }
        let cpu_type: CpuType = self.cpu_type;
        let mut entries: Vec<CachedOp> = self.entries;
        let entry: CachedOp = entries[opcode as usize];
        if entry != CachedOp::Unknown {
            return (OpCache { entries, cpu_type }, entry);
        }
        let op: CachedOp = decode_verdict(cpu_type, opcode);
        entries.set(opcode as usize, op);
        (OpCache { entries, cpu_type }, op)
    }
}

/// The verdict on an opcode from a table that is made on first use, and made
/// again for another model.
pub fn cached_decode_in(table: Option<OpCache>, opcode: u16, cpu_type: CpuType) -> (r: (
    OpCache,
    CachedOp,
))
    ensures
        r.0.model() == cpu_type,
        r.1 == decode_verdict(cpu_type, opcode),
{
    let entries: OpCache = match table {
        Some(t) => if t.is_for(cpu_type) {
            t
        } else {
            OpCache::new(cpu_type)
        },
        None => OpCache::new(cpu_type),
    };
    entries.lookup(opcode)
}

/// The verdict on an opcode from a table that is filled as it is used.
pub fn lookup_in(table: &mut Option<OpCache>, opcode: u16, cpu_type: CpuType) -> (r: CachedOp)
    ensures
        r == decode_verdict(cpu_type, opcode),
{
    let mut current: Option<OpCache> = None;
    std::mem::swap(&mut current, table);
    let found: (OpCache, CachedOp) = cached_decode_in(current, opcode, cpu_type);
    *table = Some(found.0);
    found.1
}

impl CpuCore {
    /// Whether the fast loops may run: normal run mode, not stopped, no
    /// interrupt pending, no tracing.
    pub open spec fn spec_can_run_decoded_simple_ops(&self) -> bool {
        self.run.run_mode == RUN_MODE_NORMAL && self.run.stopped == 0 && self.run.int_level == 0
            && self.sys.t1_flag == 0 && self.sys.t0_flag == 0
    }

    /// Whether the fast loops may run: normal run mode, not stopped, no
    /// interrupt pending, no tracing.
    #[verifier::when_used_as_spec(spec_can_run_decoded_simple_ops)]
    pub fn can_run_decoded_simple_ops(&self) -> (r: bool)
        ensures
            r == self.spec_can_run_decoded_simple_ops(),
    {
        self.run.run_mode == RUN_MODE_NORMAL && self.run.stopped == 0 && self.run.int_level == 0
            && self.sys.t1_flag == 0 && self.sys.t0_flag == 0
    }

    /// Table-backed decode used by every fast path. Nothing but the table
    /// changes.
    pub fn cached_decode(&mut self, opcode: u16, cpu_type: CpuType) -> (r: CachedOp)
        ensures
            r == decode_verdict(cpu_type, opcode),
            *final(self) == (CpuCore { decode_table: final(self).decode_table, ..*old(self) }),
    {
        let mut table: Option<OpCache> = None;
        std::mem::swap(&mut table, &mut self.decode_table);
        let found: (OpCache, CachedOp) = cached_decode_in(table, opcode, cpu_type);
        self.decode_table = Some(found.0);
        found.1
    }

    /// The simple instruction of an opcode, if it is one. Memory operations
    /// count as complex on the cycle-exact paths.
    pub fn decoded_simple_op(&mut self, opcode: u16, cpu_type: CpuType) -> (r: Option<
        DecodedSimpleOp,
    >)
        ensures
            r == decode_simple(cpu_type, opcode),
            *final(self) == (CpuCore { decode_table: final(self).decode_table, ..*old(self) }),
    {
        match self.cached_decode(opcode, cpu_type) {
            CachedOp::Simple(op) => Some(op),
            CachedOp::Unknown | CachedOp::Mem(_) | CachedOp::Complex => None,
        }
    }

    /// A register operand, masked to its size.
    pub open spec fn spec_read_direct_reg(&self, reg: DirectReg, size: Size) -> u32 {
        match reg {
            DirectReg::Data(r) => self.d(r as usize) & size.mask(),
            DirectReg::Addr(r) => self.a(r as usize) & size.mask(),
        }
    }

    /// A register operand, masked to its size.
    #[verifier::when_used_as_spec(spec_read_direct_reg)]
    pub fn read_direct_reg(&self, reg: DirectReg, size: Size) -> (r: u32)
        ensures
            r == self.spec_read_direct_reg(reg, size),
    {
        match reg {
            DirectReg::Data(r) => self.d(r as usize) & size.mask(),
            DirectReg::Addr(r) => self.a(r as usize) & size.mask(),
        }
    }

    /// MOVE and MOVEA between registers.
    #[verifier::opaque]
    pub open spec fn spec_exec_simple_move(self, src: DirectReg, dst: DirectReg, size: Size) -> (CpuCore, i32) {
        let value: u32 = self.read_direct_reg(src, size);
        let c = match dst {
            DirectReg::Data(reg) => {
                let c = self.spec_write_data_reg(reg as usize, size, value);
                let c = c.spec_set_logic_flags(value, size);
                c
            },
            DirectReg::Addr(reg) => {
                let c = self.spec_set_a(reg as usize, if size == Size::Word { sign_extend(size, value) } else { value });
                c
            },
        };
        (c, 4)
    }

    /// MOVE and MOVEA between registers.
    pub fn exec_simple_move(&mut self, src: DirectReg, dst: DirectReg, size: Size) -> (r: i32)
        ensures
            (*final(self), r) == old(self).spec_exec_simple_move(src, dst, size),
    {
        proof {
            reveal(CpuCore::spec_exec_simple_move);
        }
        let value: u32 = self.read_direct_reg(src, size);
        match dst {
            DirectReg::Data(reg) => {
                self.write_data_reg(reg as usize, size, value);
                self.set_logic_flags(value, size);
            },
            DirectReg::Addr(reg) => {
                self.set_a(reg as usize, if size == Size::Word { sign_extend(size, value) } else { value });
            },
        }
        4
    }

    /// CLR, NEG, NEGX, NOT and TST of a data register.
    #[verifier::opaque]
    pub open spec fn spec_exec_simple_unary(self, op: UnaryOp, reg: usize, size: Size) -> (CpuCore, i32) {
        let src: u32 = self.d(reg) & size.mask();
        let c = match op {
            UnaryOp::Clr => {
                let c = self.spec_write_data_reg(reg, size, 0);
                let c = c.spec_set_logic_flags(0, size);
                c
            },
            UnaryOp::Neg => {
                let result: u32 = 0u32.wrapping_sub(src);
                let c = self.spec_write_data_reg(reg, size, result);
                let c = c.spec_set_sub_flags(src, 0, result, size);
                c
            },
            UnaryOp::Negx => {
                let (c, result) = self.spec_exec_subx(size, src, 0);
                let c = c.spec_write_data_reg(reg, size, result);
                c
            },
            UnaryOp::Not => {
                let result: u32 = !src & size.mask();
                let c = self.spec_write_data_reg(reg, size, result);
                let c = c.spec_set_logic_flags(result, size);
                c
            },
            UnaryOp::Tst => {
                let c = self.spec_set_logic_flags(src, size);
                c
            },
        };
        if c.model.is_pre_68020 && size == Size::Long && op != UnaryOp::Tst {
            (c, 6)
        } else {
            (c, 4)
        }
    }

    /// CLR, NEG, NEGX, NOT and TST of a data register.
    pub fn exec_simple_unary(&mut self, op: UnaryOp, reg: usize, size: Size) -> (r: i32)
        ensures
            (*final(self), r) == old(self).spec_exec_simple_unary(op, reg, size),
    {
        proof {
            reveal(CpuCore::spec_exec_simple_unary);
        }
        let src: u32 = self.d(reg) & size.mask();
        match op {
            UnaryOp::Clr => {
                self.write_data_reg(reg, size, 0);
                self.set_logic_flags(0, size);
            },
            UnaryOp::Neg => {
                let result: u32 = 0u32.wrapping_sub(src);
                self.write_data_reg(reg, size, result);
                self.set_sub_flags(src, 0, result, size);
            },
            UnaryOp::Negx => {
                let result: u32 = self.exec_subx(size, src, 0);
                self.write_data_reg(reg, size, result);
            },
            UnaryOp::Not => {
                let result: u32 = !src & size.mask();
                self.write_data_reg(reg, size, result);
                self.set_logic_flags(result, size);
            },
            UnaryOp::Tst => {
                self.set_logic_flags(src, size);
            },
        }
        if self.model.is_pre_68020 && size == Size::Long && op != UnaryOp::Tst {
            6
        } else {
            4
        }
    }

    /// ADDQ and SUBQ on a data register.
    #[verifier::opaque]
    pub open spec fn spec_exec_simple_quick(self, reg: usize, data: u32, size: Size, is_sub: bool) -> (CpuCore, i32) {
        let dst: u32 = self.d(reg) & size.mask();
        let c = if is_sub {
            let result: u32 = dst.wrapping_sub(data);
            let c = self.spec_set_sub_flags(data, dst, result, size);
            let c = c.spec_write_data_reg(reg, size, result);
            c
        } else {
            let result: u32 = dst.wrapping_add(data);
            let c = self.spec_set_add_flags(data, dst, result, size);
            let c = c.spec_write_data_reg(reg, size, result);
            c
        };
        if c.model.is_pre_68020 && size == Size::Long {
            (c, 8)
        } else {
            (c, 4)
        }
    }

    /// ADDQ and SUBQ on a data register.
    pub fn exec_simple_quick(&mut self, reg: usize, data: u32, size: Size, is_sub: bool) -> (r: i32)
        ensures
            (*final(self), r) == old(self).spec_exec_simple_quick(reg, data, size, is_sub),
    {
        proof {
            reveal(CpuCore::spec_exec_simple_quick);
        }
        let dst: u32 = self.d(reg) & size.mask();
        if is_sub {
            let result: u32 = dst.wrapping_sub(data);
            self.set_sub_flags(data, dst, result, size);
            self.write_data_reg(reg, size, result);
        } else {
            let result: u32 = dst.wrapping_add(data);
            self.set_add_flags(data, dst, result, size);
            self.write_data_reg(reg, size, result);
        }
        if self.model.is_pre_68020 && size == Size::Long {
            8
        } else {
            4
        }
    }

    /// ADD, SUB, AND, OR, EOR and CMP of an operand and a data register.
    #[verifier::opaque]
    pub open spec fn spec_apply_binary_to_reg(self, op: BinaryOp, size: Size, src: u32, dst: u32, reg: usize) -> CpuCore {
        match op {
            BinaryOp::Add => {
                let result: u32 = dst.wrapping_add(src);
                let c = self.spec_set_add_flags(src, dst, result, size);
                let c = c.spec_write_data_reg(reg, size, result);
                c
            },
            BinaryOp::Sub => {
                let result: u32 = dst.wrapping_sub(src);
                let c = self.spec_set_sub_flags(src, dst, result, size);
                let c = c.spec_write_data_reg(reg, size, result);
                c
            },
            BinaryOp::And => {
                let result: u32 = src & dst & size.mask();
                let c = self.spec_set_logic_flags(result, size);
                let c = c.spec_write_data_reg(reg, size, result);
                c
            },
            BinaryOp::Or => {
                let result: u32 = (src | dst) & size.mask();
                let c = self.spec_set_logic_flags(result, size);
                let c = c.spec_write_data_reg(reg, size, result);
                c
            },
            BinaryOp::Eor => {
                let result: u32 = (src ^ dst) & size.mask();
                let c = self.spec_set_logic_flags(result, size);
                let c = c.spec_write_data_reg(reg, size, result);
                c
            },
            BinaryOp::Compare => {
                let c = self.spec_set_compare_flags(src, dst, dst.wrapping_sub(src), size);
                c
            },
        }
    }

    /// ADD, SUB, AND, OR, EOR and CMP of an operand and a data register.
    pub fn apply_binary_to_reg(&mut self, op: BinaryOp, size: Size, src: u32, dst: u32, reg: usize)
        ensures
            *final(self) == old(self).spec_apply_binary_to_reg(op, size, src, dst, reg),
    {
        proof {
            reveal(CpuCore::spec_apply_binary_to_reg);
        }
        match op {
            BinaryOp::Add => {
                let result: u32 = dst.wrapping_add(src);
                self.set_add_flags(src, dst, result, size);
                self.write_data_reg(reg, size, result);
            },
            BinaryOp::Sub => {
                let result: u32 = dst.wrapping_sub(src);
                self.set_sub_flags(src, dst, result, size);
                self.write_data_reg(reg, size, result);
            },
            BinaryOp::And => {
                let result: u32 = src & dst & size.mask();
                self.set_logic_flags(result, size);
                self.write_data_reg(reg, size, result);
            },
            BinaryOp::Or => {
                let result: u32 = (src | dst) & size.mask();
                self.set_logic_flags(result, size);
                self.write_data_reg(reg, size, result);
            },
            BinaryOp::Eor => {
                let result: u32 = (src ^ dst) & size.mask();
                self.set_logic_flags(result, size);
                self.write_data_reg(reg, size, result);
            },
            BinaryOp::Compare => {
                self.set_compare_flags(src, dst, dst.wrapping_sub(src), size);
            },
        }
    }

    /// ADDA, SUBA and CMPA.
    #[verifier::opaque]
    pub open spec fn spec_apply_addr_op(self, op: AddrOp, size: Size, operand: u32, reg: usize) -> (CpuCore, i32) {
        let src: u32 = if size == Size::Word {
            sign_extend(size, operand)
        } else {
            operand
        };
        let dst: u32 = self.a(reg);
        match op {
            AddrOp::Adda => {
                let c = self.spec_set_a(reg, dst.wrapping_add(src));
                (c, 8)
            },
            AddrOp::Suba => {
                let c = self.spec_set_a(reg, dst.wrapping_sub(src));
                (c, 8)
            },
            AddrOp::Compare => {
                let c = self.spec_set_compare_flags(src, dst, dst.wrapping_sub(src), Size::Long);
                (c, 6)
            },
        }
    }

    /// ADDA, SUBA and CMPA.
    pub fn apply_addr_op(&mut self, op: AddrOp, size: Size, operand: u32, reg: usize) -> (r: i32)
        ensures
            (*final(self), r) == old(self).spec_apply_addr_op(op, size, operand, reg),
    {
        proof {
            reveal(CpuCore::spec_apply_addr_op);
        }
        let src: u32 = if size == Size::Word {
            sign_extend(size, operand)
        } else {
            operand
        };
        let dst: u32 = self.a(reg);
        match op {
            AddrOp::Adda => {
                self.set_a(reg, dst.wrapping_add(src));
                8
            },
            AddrOp::Suba => {
                self.set_a(reg, dst.wrapping_sub(src));
                8
            },
            AddrOp::Compare => {
                self.set_compare_flags(src, dst, dst.wrapping_sub(src), Size::Long);
                6
            },
        }
    }

    /// ADDX and SUBX between data registers.
    #[verifier::opaque]
    pub open spec fn spec_exec_simple_extended(self, src: usize, dst: usize, size: Size, is_sub: bool) -> (CpuCore, i32) {
        let s: u32 = self.d(src) & size.mask();
        let d: u32 = self.d(dst) & size.mask();
        let (c, result) = if is_sub {
            self.spec_exec_subx(size, s, d)
        } else {
            self.spec_exec_addx(size, s, d)
        };
        let c = c.spec_write_data_reg(dst, size, result);
        if c.model.is_pre_68020 && size == Size::Long {
            (c, 8)
        } else {
            (c, 4)
        }
    }

    /// ADDX and SUBX between data registers.
    pub fn exec_simple_extended(&mut self, src: usize, dst: usize, size: Size, is_sub: bool) -> (r: i32)
        ensures
            (*final(self), r) == old(self).spec_exec_simple_extended(src, dst, size, is_sub),
    {
        proof {
            reveal(CpuCore::spec_exec_simple_extended);
        }
        let s: u32 = self.d(src) & size.mask();
        let d: u32 = self.d(dst) & size.mask();
        let result: u32 = if is_sub {
            self.exec_subx(size, s, d)
        } else {
            self.exec_addx(size, s, d)
        };
        self.write_data_reg(dst, size, result);
        if self.model.is_pre_68020 && size == Size::Long {
            8
        } else {
            4
        }
    }

    /// BTST, BCHG, BCLR and BSET on a data register. Before the 68020 a high
    /// bit takes two clocks more to change.
    #[verifier::opaque]
    pub open spec fn spec_exec_simple_bit(self, op: BitOp, bit_reg: usize, dst: usize) -> (CpuCore, i32) {
        let bit: u32 = self.d(bit_reg) & 31;
        let mask: u32 = bit_mask(bit);
        let value: u32 = self.d(dst);
        let c = CpuCore { ccr: Ccr { not_z_flag: flag(value & mask != 0, 1), ..self.ccr }, ..self };
        let high: i32 = if c.model.is_pre_68020 && bit >= 16 {
            2
        } else {
            0
        };
        match op {
            BitOp::Test => (c, 6),
            BitOp::Change => {
                let c = c.spec_set_d(dst, value ^ mask);
                if c.model.is_pre_68020 {
                    (c, high.wrapping_add(6))
                } else {
                    (c, 8)
                }
            },
            BitOp::Clear => {
                let c = c.spec_set_d(dst, value & !mask);
                if c.model.is_pre_68020 {
                    (c, high.wrapping_add(8))
                } else {
                    (c, 10)
                }
            },
            BitOp::SetBit => {
                let c = c.spec_set_d(dst, value | mask);
                if c.model.is_pre_68020 {
                    (c, high.wrapping_add(6))
                } else {
                    (c, 8)
                }
            },
        }
    }

    /// BTST, BCHG, BCLR and BSET on a data register. Before the 68020 a high
    /// bit takes two clocks more to change.
    pub fn exec_simple_bit(&mut self, op: BitOp, bit_reg: usize, dst: usize) -> (r: i32)
        ensures
            (*final(self), r) == old(self).spec_exec_simple_bit(op, bit_reg, dst),
    {
        proof {
            reveal(CpuCore::spec_exec_simple_bit);
        }
        let bit: u32 = self.d(bit_reg) & 31;
        let mask: u32 = bit_mask(bit);
        let value: u32 = self.d(dst);
        self.ccr.not_z_flag = flag(value & mask != 0, 1);
        let high: i32 = if self.model.is_pre_68020 && bit >= 16 {
            2
        } else {
            0
        };
        match op {
            BitOp::Test => 6,
            BitOp::Change => {
                self.set_d(dst, value ^ mask);
                if self.model.is_pre_68020 {
                    high.wrapping_add(6)
                } else {
                    8
                }
            },
            BitOp::Clear => {
                self.set_d(dst, value & !mask);
                if self.model.is_pre_68020 {
                    high.wrapping_add(8)
                } else {
                    10
                }
            },
            BitOp::SetBit => {
                self.set_d(dst, value | mask);
                if self.model.is_pre_68020 {
                    high.wrapping_add(6)
                } else {
                    8
                }
            },
        }
    }

    /// Scc on a data register.
    #[verifier::opaque]
    pub open spec fn spec_exec_simple_scc(self, condition: u8, reg: usize) -> (CpuCore, i32) {
        let value: u32 = if self.test_condition(condition) {
            0xFF
        } else {
            0
        };
        let c = self.spec_write_data_reg(reg, Size::Byte, value);
        if c.model.is_pre_68020 && value != 0 {
            (c, 6)
        } else {
            (c, 4)
        }
    }

    /// Scc on a data register.
    pub fn exec_simple_scc(&mut self, condition: u8, reg: usize) -> (r: i32)
        ensures
            (*final(self), r) == old(self).spec_exec_simple_scc(condition, reg),
    {
        proof {
            reveal(CpuCore::spec_exec_simple_scc);
        }
        let value: u32 = if self.test_condition(condition) {
            0xFF
        } else {
            0
        };
        self.write_data_reg(reg, Size::Byte, value);
        if self.model.is_pre_68020 && value != 0 {
            6
        } else {
            4
        }
    }

    /// Shift or rotate of a data register.
    #[verifier::opaque]
    pub open spec fn spec_exec_simple_shift(self, reg: usize, size: Size, count_or_reg: u8, count_is_register: bool, direction: u8, op: u8) -> (CpuCore, i32) {
        let count: u32 = if count_is_register {
            self.d(count_or_reg as usize) & 63
        } else if count_or_reg == 0 {
            8
        } else {
            count_or_reg as u32
        };
        let value: u32 = self.d(reg) & size.mask();
        let (c, done) = self.spec_exec_shift(op as u16, direction as u16, size, count, value);
        let c = c.spec_write_data_reg(reg, size, done.0);
        (c, done.1)
    }

    /// Shift or rotate of a data register.
    pub fn exec_simple_shift(&mut self, reg: usize, size: Size, count_or_reg: u8, count_is_register: bool, direction: u8, op: u8) -> (r: i32)
        ensures
            (*final(self), r) == old(self).spec_exec_simple_shift(reg, size, count_or_reg, count_is_register, direction, op),
    {
        proof {
            reveal(CpuCore::spec_exec_simple_shift);
        }
        let count: u32 = if count_is_register {
            self.d(count_or_reg as usize) & 63
        } else if count_or_reg == 0 {
            8
        } else {
            count_or_reg as u32
        };
        let value: u32 = self.d(reg) & size.mask();
        let done: (u32, i32) = self.exec_shift(op as u16, direction as u16, size, count, value);
        self.write_data_reg(reg, size, done.0);
        done.1
    }

    /// Bcc with a byte displacement.
    #[verifier::opaque]
    pub open spec fn spec_exec_simple_branch(self, condition: u8, displacement: i8) -> (CpuCore, i32) {
        if condition == 0 || self.test_condition(condition) {
            let c = CpuCore { run: RunState { change_of_flow: true, ..self.run }, ..self };
            let c = CpuCore { pc: c.pc.wrapping_add(displacement as i32 as u32), ..c };
            (c, 10)
        } else {
            (self, 8)
        }
    }

    /// Bcc with a byte displacement.
    pub fn exec_simple_branch(&mut self, condition: u8, displacement: i8) -> (r: i32)
        ensures
            (*final(self), r) == old(self).spec_exec_simple_branch(condition, displacement),
    {
        proof {
            reveal(CpuCore::spec_exec_simple_branch);
        }
        if condition == 0 || self.test_condition(condition) {
            self.run.change_of_flow = true;
            self.pc = self.pc.wrapping_add(displacement as i32 as u32);
            10
        } else {
            8
        }
    }

    /// Execute a simple instruction; gives its cycles.
    #[verifier::opaque]
    pub open spec fn spec_exec_simple(self, op: DecodedSimpleOp) -> (CpuCore, i32) {
        match op {
            DecodedSimpleOp::Nop => (self, 4),
            DecodedSimpleOp::MoveReg { src, dst, size } => self.spec_exec_simple_move(src, dst, size),
            DecodedSimpleOp::Moveq { reg, data } => {
                let c = self.spec_set_d(reg as usize, data);
                let c = c.spec_set_logic_flags(data, Size::Long);
                (c, 4)
            },
            DecodedSimpleOp::UnaryDataReg { op: o, reg, size } => self.spec_exec_simple_unary(o, reg as usize, size),
            DecodedSimpleOp::Swap { reg } => self.spec_exec_swap(reg as usize),
            DecodedSimpleOp::Ext { reg, size } => self.spec_exec_ext(size, reg as usize),
            DecodedSimpleOp::Extb { reg } => self.spec_exec_extb(reg as usize),
            DecodedSimpleOp::AddqSubqAddr { reg, data, is_sub } => {
                let value: u32 = self.a(reg as usize);
                let c = self.spec_set_a(reg as usize, if is_sub { value.wrapping_sub(data) } else { value.wrapping_add(data) });
                if c.model.is_pre_68020 {
                    (c, 8)
                } else {
                    (c, 4)
                }
            },
            DecodedSimpleOp::AddqSubqReg { reg, data, size, is_sub } => self.spec_exec_simple_quick(reg as usize, data, size, is_sub),
            DecodedSimpleOp::BinaryDataReg { op: o, src, dst, size, cycles } => {
                let s: u32 = self.read_direct_reg(src, size);
                let d: u32 = self.d(dst as usize) & size.mask();
                let c = self.spec_apply_binary_to_reg(o, size, s, d, dst as usize);
                (c, cycles)
            },
            DecodedSimpleOp::AddrDataReg { op: o, src, dst, size } => {
                let s: u32 = self.read_direct_reg(src, size);
                self.spec_apply_addr_op(o, size, s, dst as usize)
            },
            DecodedSimpleOp::AddSubxReg { src, dst, size, is_sub } => self.spec_exec_simple_extended(src as usize, dst as usize, size, is_sub),
            DecodedSimpleOp::BitReg { op: o, bit_reg, dst } => self.spec_exec_simple_bit(o, bit_reg as usize, dst as usize),
            DecodedSimpleOp::BcdReg { src, dst, is_sub } => {
                if is_sub {
                    self.spec_exec_sbcd_rr(src as usize, dst as usize)
                } else {
                    self.spec_exec_abcd_rr(src as usize, dst as usize)
                }
            },
            DecodedSimpleOp::Exg { opcode } => self.spec_exec_exg(opcode),
            DecodedSimpleOp::SccDataReg { condition, reg } => self.spec_exec_simple_scc(condition, reg as usize),
            DecodedSimpleOp::ShiftReg { reg, size, count_or_reg, count_is_register, direction, op: o } => {
                self.spec_exec_simple_shift(reg as usize, size, count_or_reg, count_is_register, direction, o)
            },
            DecodedSimpleOp::BranchShort { condition, displacement } => self.spec_exec_simple_branch(condition, displacement),
        }
    }

    /// Execute a simple instruction; gives its cycles.
    pub fn exec_simple(&mut self, op: DecodedSimpleOp) -> (r: i32)
        ensures
            (*final(self), r) == old(self).spec_exec_simple(op),
    {
        proof {
            reveal(CpuCore::spec_exec_simple);
        }
        match op {
            DecodedSimpleOp::Nop => 4,
            DecodedSimpleOp::MoveReg { src, dst, size } => self.exec_simple_move(src, dst, size),
            DecodedSimpleOp::Moveq { reg, data } => {
                self.set_d(reg as usize, data);
                self.set_logic_flags(data, Size::Long);
                4
            },
            DecodedSimpleOp::UnaryDataReg { op: o, reg, size } => self.exec_simple_unary(o, reg as usize, size),
            DecodedSimpleOp::Swap { reg } => self.exec_swap(reg as usize),
            DecodedSimpleOp::Ext { reg, size } => self.exec_ext(size, reg as usize),
            DecodedSimpleOp::Extb { reg } => self.exec_extb(reg as usize),
            DecodedSimpleOp::AddqSubqAddr { reg, data, is_sub } => {
                let value: u32 = self.a(reg as usize);
                self.set_a(reg as usize, if is_sub { value.wrapping_sub(data) } else { value.wrapping_add(data) });
                if self.model.is_pre_68020 {
                    8
                } else {
                    4
                }
            },
            DecodedSimpleOp::AddqSubqReg { reg, data, size, is_sub } => self.exec_simple_quick(reg as usize, data, size, is_sub),
            DecodedSimpleOp::BinaryDataReg { op: o, src, dst, size, cycles } => {
                let s: u32 = self.read_direct_reg(src, size);
                let d: u32 = self.d(dst as usize) & size.mask();
                self.apply_binary_to_reg(o, size, s, d, dst as usize);
                cycles
            },
            DecodedSimpleOp::AddrDataReg { op: o, src, dst, size } => {
                let s: u32 = self.read_direct_reg(src, size);
                self.apply_addr_op(o, size, s, dst as usize)
            },
            DecodedSimpleOp::AddSubxReg { src, dst, size, is_sub } => self.exec_simple_extended(src as usize, dst as usize, size, is_sub),
            DecodedSimpleOp::BitReg { op: o, bit_reg, dst } => self.exec_simple_bit(o, bit_reg as usize, dst as usize),
            DecodedSimpleOp::BcdReg { src, dst, is_sub } => {
                if is_sub {
                    self.exec_sbcd_rr(src as usize, dst as usize)
                } else {
                    self.exec_abcd_rr(src as usize, dst as usize)
                }
            },
            DecodedSimpleOp::Exg { opcode } => self.exec_exg(opcode),
            DecodedSimpleOp::SccDataReg { condition, reg } => self.exec_simple_scc(condition, reg as usize),
            DecodedSimpleOp::ShiftReg { reg, size, count_or_reg, count_is_register, direction, op: o } => {
                self.exec_simple_shift(reg as usize, size, count_or_reg, count_is_register, direction, o)
            },
            DecodedSimpleOp::BranchShort { condition, displacement } => self.exec_simple_branch(condition, displacement),
        }
    }
}

} // verus!
