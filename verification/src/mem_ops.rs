//! Decoded memory-operand instructions for the batch loop.
//!
//! These operations run against a contiguous window of plain memory that the
//! bus lends. They are used only by the instruction-budgeted loop, so cycle
//! accounting is unaffected.
//!
//! An operation either executes completely or reports that it was not handled
//! with no state changed at all: registers, flags, memory and PC. The caller
//! then runs the same opcode through full dispatch, which handles faults,
//! address errors and cycle-exact semantics.

use vstd::prelude::*;
use crate::alu::{flag, sign_extend};
use crate::cpu::{Ccr, CpuCore, RunState};
use crate::ea::AddressingMode;
use crate::instructions::bit_mask;
use crate::op_cache::{bit_op, AddrOp, BinaryOp, BitOp};
use crate::prefetch::{sext16, sext8};
use crate::timing::{ea_time, move_dst_time};
use crate::types::{is_pre_68020, CpuType, Size};

verus! {

/// Effective-address forms that run on the window. Everything else falls back
/// to dispatch.
#[derive(Debug, Clone, Copy, PartialEq, Eq, Structural)]
pub enum FastEa {
    DataReg(u8),
    AddrReg(u8),
    /// (An)
    AnInd(u8),
    /// (An)+
    AnPostInc(u8),
    /// -(An)
    AnPreDec(u8),
    /// (d16,An)
    AnDisp(u8),
    /// (d8,An,Xn), brief extension word only
    AnIndex(u8),
    /// (xxx).W
    AbsW,
    /// (xxx).L
    AbsL,
    /// (d16,PC)
    PcDisp,
    /// (d8,PC,Xn), brief extension word only
    PcIndex,
    /// #imm
    Imm,
}

/// Bit-number source for the BTST, BCHG, BCLR and BSET memory forms.
#[derive(Debug, Clone, Copy, PartialEq, Eq, Structural)]
pub enum BitSource {
    Reg(u8),
    /// Bit number in an immediate extension word, read before the EA words.
    Imm,
}

/// A memory-operand instruction.
#[derive(Debug, Clone, Copy, PartialEq, Eq, Structural)]
#[allow(inconsistent_fields)]
pub enum DecodedMemOp {
    /// MOVE and MOVEA. An `AddrReg` destination is MOVEA, which sign-extends
    /// a word and sets no flags.
    Move { size: Size, src: FastEa, dst: FastEa },
    /// MOVEM.W (An)+ to a register list. Only lists of data registers run on
    /// the window.
    MovemWordPostInc { base: u8 },
    /// ADD, SUB, AND, OR and CMP of an operand to a data register
    AluToReg { op: BinaryOp, size: Size, src: FastEa, dst: u8 },
    /// ADD, SUB, AND, OR and EOR of a data register to memory
    AluToMem { op: BinaryOp, size: Size, src: u8, dst: FastEa },
    /// ADDA, SUBA and CMPA
    AluAddr { op: AddrOp, size: Size, src: FastEa, dst: u8 },
    /// ADDI, SUBI, ANDI, ORI, EORI and CMPI
    AluImm { op: BinaryOp, size: Size, dst: FastEa },
    /// ADDQ and SUBQ to memory
    AddqSubq { data: u32, size: Size, ea: FastEa, is_sub: bool },
    Tst { size: Size, ea: FastEa },
    Clr { size: Size, ea: FastEa },
    Neg { size: Size, ea: FastEa },
    Not { size: Size, ea: FastEa },
    /// BTST, BCHG, BCLR and BSET on a memory byte
    BitMem { op: BitOp, bit: BitSource, ea: FastEa },
    /// CMPM (Ay)+,(Ax)+
    CompareMem { size: Size, src: u8, dst: u8 },
    Lea { reg: u8, ea: FastEa },
    Pea { ea: FastEa },
    Jmp { ea: FastEa },
    Jsr { ea: FastEa },
    Rts,
    /// BSR with byte or word displacement; `length` covers the opcode and its
    /// extension.
    Bsr { displacement: i32, length: u32 },
    /// Bcc and BRA with word displacement
    BranchWord { condition: u8 },
    Dbcc { condition: u8, reg: u8 },
}

/// The effective-address form of a mode and register field.
pub open spec fn spec_decode_fast_ea(mode: u16, reg: u16) -> Option<FastEa> {
    match mode {
        0 => Some(FastEa::DataReg(reg as u8)),
        1 => Some(FastEa::AddrReg(reg as u8)),
        2 => Some(FastEa::AnInd(reg as u8)),
        3 => Some(FastEa::AnPostInc(reg as u8)),
        4 => Some(FastEa::AnPreDec(reg as u8)),
        5 => Some(FastEa::AnDisp(reg as u8)),
        6 => Some(FastEa::AnIndex(reg as u8)),
        7 => {
            match reg {
                0 => Some(FastEa::AbsW),
                1 => Some(FastEa::AbsL),
                2 => Some(FastEa::PcDisp),
                3 => Some(FastEa::PcIndex),
                4 => Some(FastEa::Imm),
                _ => None,
            }
        },
        _ => None,
    }
}

/// The effective-address form of a mode and register field.
#[verifier::when_used_as_spec(spec_decode_fast_ea)]
pub fn decode_fast_ea(mode: u16, reg: u16) -> (r: Option<FastEa>)
    ensures
        r == spec_decode_fast_ea(mode, reg),
{
    match mode {
        0 => Some(FastEa::DataReg(reg as u8)),
        1 => Some(FastEa::AddrReg(reg as u8)),
        2 => Some(FastEa::AnInd(reg as u8)),
        3 => Some(FastEa::AnPostInc(reg as u8)),
        4 => Some(FastEa::AnPreDec(reg as u8)),
        5 => Some(FastEa::AnDisp(reg as u8)),
        6 => Some(FastEa::AnIndex(reg as u8)),
        7 => {
            match reg {
                0 => Some(FastEa::AbsW),
                1 => Some(FastEa::AbsL),
                2 => Some(FastEa::PcDisp),
                3 => Some(FastEa::PcIndex),
                4 => Some(FastEa::Imm),
                _ => None,
            }
        },
        _ => None,
    }
}

/// The source operand field of an opcode.
pub open spec fn spec_source_ea(opcode: u16) -> Option<FastEa> {
    decode_fast_ea((opcode >> 3) & 7, opcode & 7)
}

/// The source operand field of an opcode.
#[verifier::when_used_as_spec(spec_source_ea)]
pub fn source_ea(opcode: u16) -> (r: Option<FastEa>)
    ensures
        r == spec_source_ea(opcode),
{
    decode_fast_ea((opcode >> 3) & 7, opcode & 7)
}

/// Whether a form names an address register.
pub open spec fn spec_is_address_register(ea: FastEa) -> bool {
    match ea {
        FastEa::AddrReg(_) => true,
        _ => false,
    }
}

/// Whether a form names an address register.
#[verifier::when_used_as_spec(spec_is_address_register)]
pub fn is_address_register(ea: FastEa) -> (r: bool)
    ensures
        r == spec_is_address_register(ea),
{
    match ea {
        FastEa::AddrReg(_) => true,
        _ => false,
    }
}

/// Whether a form is data-alterable: a legal destination for MOVE, CLR and
/// arithmetic.
pub open spec fn spec_is_data_alterable(ea: FastEa) -> bool {
    match ea {
        FastEa::AddrReg(_) | FastEa::PcDisp | FastEa::PcIndex | FastEa::Imm => false,
        _ => true,
    }
}

/// Whether a form is data-alterable: a legal destination for MOVE, CLR and
/// arithmetic.
#[verifier::when_used_as_spec(spec_is_data_alterable)]
pub fn is_data_alterable(ea: FastEa) -> (r: bool)
    ensures
        r == spec_is_data_alterable(ea),
{
    match ea {
        FastEa::AddrReg(_) | FastEa::PcDisp | FastEa::PcIndex | FastEa::Imm => false,
        _ => true,
    }
}

/// Whether a form is usable as a control address (LEA, PEA, JMP, JSR).
pub open spec fn spec_is_control(ea: FastEa) -> bool {
    match ea {
        FastEa::AnInd(_) | FastEa::AnDisp(_) | FastEa::AnIndex(_) | FastEa::AbsW | FastEa::AbsL | FastEa::PcDisp
    | FastEa::PcIndex => true,
        _ => false,
    }
}

/// Whether a form is usable as a control address (LEA, PEA, JMP, JSR).
#[verifier::when_used_as_spec(spec_is_control)]
pub fn is_control(ea: FastEa) -> (r: bool)
    ensures
        r == spec_is_control(ea),
{
    match ea {
        FastEa::AnInd(_) | FastEa::AnDisp(_) | FastEa::AnIndex(_) | FastEa::AbsW | FastEa::AbsL | FastEa::PcDisp
        | FastEa::PcIndex => true,
        _ => false,
    }
}

/// Whether a form names memory.
pub open spec fn spec_is_memory(ea: FastEa) -> bool {
    match ea {
        FastEa::DataReg(_) | FastEa::AddrReg(_) | FastEa::Imm => false,
        _ => true,
    }
}

/// Whether a form names memory.
#[verifier::when_used_as_spec(spec_is_memory)]
pub fn is_memory(ea: FastEa) -> (r: bool)
    ensures
        r == spec_is_memory(ea),
{
    match ea {
        FastEa::DataReg(_) | FastEa::AddrReg(_) | FastEa::Imm => false,
        _ => true,
    }
}

/// The addressing mode of a form.
pub open spec fn spec_addressing_mode(ea: FastEa) -> AddressingMode {
    match ea {
        FastEa::DataReg(reg) => AddressingMode::DataDirect(reg),
        FastEa::AddrReg(reg) => AddressingMode::AddressDirect(reg),
        FastEa::AnInd(reg) => AddressingMode::AddressIndirect(reg),
        FastEa::AnPostInc(reg) => AddressingMode::PostIncrement(reg),
        FastEa::AnPreDec(reg) => AddressingMode::PreDecrement(reg),
        FastEa::AnDisp(reg) => AddressingMode::Displacement(reg),
        FastEa::AnIndex(reg) => AddressingMode::Index(reg),
        FastEa::AbsW => AddressingMode::AbsoluteShort,
        FastEa::AbsL => AddressingMode::AbsoluteLong,
        FastEa::PcDisp => AddressingMode::PcDisplacement,
        FastEa::PcIndex => AddressingMode::PcIndex,
        FastEa::Imm => AddressingMode::Immediate,
    }
}

/// The addressing mode of a form.
#[verifier::when_used_as_spec(spec_addressing_mode)]
pub fn addressing_mode(ea: FastEa) -> (r: AddressingMode)
    ensures
        r == spec_addressing_mode(ea),
{
    match ea {
        FastEa::DataReg(reg) => AddressingMode::DataDirect(reg),
        FastEa::AddrReg(reg) => AddressingMode::AddressDirect(reg),
        FastEa::AnInd(reg) => AddressingMode::AddressIndirect(reg),
        FastEa::AnPostInc(reg) => AddressingMode::PostIncrement(reg),
        FastEa::AnPreDec(reg) => AddressingMode::PreDecrement(reg),
        FastEa::AnDisp(reg) => AddressingMode::Displacement(reg),
        FastEa::AnIndex(reg) => AddressingMode::Index(reg),
        FastEa::AbsW => AddressingMode::AbsoluteShort,
        FastEa::AbsL => AddressingMode::AbsoluteLong,
        FastEa::PcDisp => AddressingMode::PcDisplacement,
        FastEa::PcIndex => AddressingMode::PcIndex,
        FastEa::Imm => AddressingMode::Immediate,
    }
}

/// Operand size of a two-bit field; the fourth value names no size.
pub open spec fn spec_decode_size_field(bits: u16) -> Option<Size> {
    match bits {
        0 => Some(Size::Byte),
        1 => Some(Size::Word),
        2 => Some(Size::Long),
        _ => None,
    }
}

/// Operand size of a two-bit field; the fourth value names no size.
#[verifier::when_used_as_spec(spec_decode_size_field)]
pub fn decode_size_field(bits: u16) -> (r: Option<Size>)
    ensures
        r == spec_decode_size_field(bits),
{
    match bits {
        0 => Some(Size::Byte),
        1 => Some(Size::Word),
        2 => Some(Size::Long),
        _ => None,
    }
}

/// MOVE and MOVEA. An address register cannot take part in a byte move.
pub open spec fn spec_decode_mem_move(opcode: u16, size: Size) -> Option<DecodedMemOp> {
    match (source_ea(opcode), decode_fast_ea((opcode >> 6) & 7, (opcode >> 9) & 7)) {
        (Some(src), Some(dst)) => {
            if size == Size::Byte && (is_address_register(src) || is_address_register(dst)) {
                None
            } else if is_data_alterable(dst) || is_address_register(dst) {
                Some(DecodedMemOp::Move { size: size, src: src, dst: dst })
            } else {
                None
            }
        },
        _ => None,
    }
}

/// MOVE and MOVEA. An address register cannot take part in a byte move.
#[verifier::when_used_as_spec(spec_decode_mem_move)]
pub fn decode_mem_move(opcode: u16, size: Size) -> (r: Option<DecodedMemOp>)
    ensures
        r == spec_decode_mem_move(opcode, size),
{
    match (source_ea(opcode), decode_fast_ea((opcode >> 6) & 7, (opcode >> 9) & 7)) {
        (Some(src), Some(dst)) => {
            if size == Size::Byte && (is_address_register(src) || is_address_register(dst)) {
                None
            } else if is_data_alterable(dst) || is_address_register(dst) {
                Some(DecodedMemOp::Move { size: size, src: src, dst: dst })
            } else {
                None
            }
        },
        _ => None,
    }
}

/// A bit instruction on memory.
pub open spec fn spec_decode_bit_mem(opcode: u16, bit: BitSource) -> Option<DecodedMemOp> {
    match source_ea(opcode) {
        Some(ea) => {
            if is_memory(ea) && is_data_alterable(ea) {
                Some(DecodedMemOp::BitMem { op: bit_op((opcode >> 6) & 3), bit: bit, ea: ea })
            } else {
                None
            }
        },
        None => None,
    }
}

/// A bit instruction on memory.
#[verifier::when_used_as_spec(spec_decode_bit_mem)]
pub fn decode_bit_mem(opcode: u16, bit: BitSource) -> (r: Option<DecodedMemOp>)
    ensures
        r == spec_decode_bit_mem(opcode, bit),
{
    match source_ea(opcode) {
        Some(ea) => {
            if is_memory(ea) && is_data_alterable(ea) {
                Some(DecodedMemOp::BitMem { op: bit_op((opcode >> 6) & 3), bit: bit, ea: ea })
            } else {
                None
            }
        },
        None => None,
    }
}

/// The operation of an immediate instruction.
pub open spec fn spec_immediate_op(field: u16) -> Option<BinaryOp> {
    match field {
        0 => Some(BinaryOp::Or),
        1 => Some(BinaryOp::And),
        2 => Some(BinaryOp::Sub),
        3 => Some(BinaryOp::Add),
        5 => Some(BinaryOp::Eor),
        6 => Some(BinaryOp::Compare),
        _ => None,
    }
}

/// The operation of an immediate instruction.
#[verifier::when_used_as_spec(spec_immediate_op)]
pub fn immediate_op(field: u16) -> (r: Option<BinaryOp>)
    ensures
        r == spec_immediate_op(field),
{
    match field {
        0 => Some(BinaryOp::Or),
        1 => Some(BinaryOp::And),
        2 => Some(BinaryOp::Sub),
        3 => Some(BinaryOp::Add),
        5 => Some(BinaryOp::Eor),
        6 => Some(BinaryOp::Compare),
        _ => None,
    }
}

/// Bit instructions and immediate arithmetic. Address-register and
/// PC-relative destinations are left to dispatch, and so is an immediate one,
/// which encodes the CCR and SR forms.
pub open spec fn spec_decode_mem_group_0(opcode: u16) -> Option<DecodedMemOp> {
    if opcode & 0x0100 != 0 {
        decode_bit_mem(opcode, BitSource::Reg(((opcode >> 9) & 7) as u8))
    } else {
        if opcode & 0xFF00 == 0x0800 {
            decode_bit_mem(opcode, BitSource::Imm)
        } else {
            match (decode_size_field((opcode >> 6) & 3), immediate_op((opcode >> 9) & 7), source_ea(opcode)) {
                (Some(size), Some(op), Some(dst)) => {
                    if is_data_alterable(dst) {
                        Some(DecodedMemOp::AluImm { op: op, size: size, dst: dst })
                    } else {
                        None
                    }
                },
                _ => None,
            }
        }
    }
}

/// Bit instructions and immediate arithmetic. Address-register and
/// PC-relative destinations are left to dispatch, and so is an immediate one,
/// which encodes the CCR and SR forms.
#[verifier::when_used_as_spec(spec_decode_mem_group_0)]
pub fn decode_mem_group_0(opcode: u16) -> (r: Option<DecodedMemOp>)
    ensures
        r == spec_decode_mem_group_0(opcode),
{
    if opcode & 0x0100 != 0 {
        return decode_bit_mem(opcode, BitSource::Reg(((opcode >> 9) & 7) as u8));
    }
    if opcode & 0xFF00 == 0x0800 {
        return decode_bit_mem(opcode, BitSource::Imm);
    }
    match (decode_size_field((opcode >> 6) & 3), immediate_op((opcode >> 9) & 7), source_ea(opcode)) {
        (Some(size), Some(op), Some(dst)) => {
            if is_data_alterable(dst) {
                Some(DecodedMemOp::AluImm { op: op, size: size, dst: dst })
            } else {
                None
            }
        },
        _ => None,
    }
}

/// LEA, PEA, JMP and JSR.
pub open spec fn spec_decode_mem_control(opcode: u16, ea: FastEa) -> Option<DecodedMemOp> {
    if !is_control(ea) {
        None
    } else if opcode & 0xF1C0 == 0x41C0 {
        Some(DecodedMemOp::Lea { reg: ((opcode >> 9) & 7) as u8, ea: ea })
    } else if opcode & 0xFFC0 == 0x4840 {
        Some(DecodedMemOp::Pea { ea: ea })
    } else if opcode & 0x0040 != 0 {
        Some(DecodedMemOp::Jmp { ea: ea })
    } else {
        Some(DecodedMemOp::Jsr { ea: ea })
    }
}

/// LEA, PEA, JMP and JSR.
#[verifier::when_used_as_spec(spec_decode_mem_control)]
pub fn decode_mem_control(opcode: u16, ea: FastEa) -> (r: Option<DecodedMemOp>)
    ensures
        r == spec_decode_mem_control(opcode, ea),
{
    if !is_control(ea) {
        None
    } else if opcode & 0xF1C0 == 0x41C0 {
        Some(DecodedMemOp::Lea { reg: ((opcode >> 9) & 7) as u8, ea: ea })
    } else if opcode & 0xFFC0 == 0x4840 {
        Some(DecodedMemOp::Pea { ea: ea })
    } else if opcode & 0x0040 != 0 {
        Some(DecodedMemOp::Jmp { ea: ea })
    } else {
        Some(DecodedMemOp::Jsr { ea: ea })
    }
}

/// Control instructions, and TST, CLR, NEG and NOT on memory.
pub open spec fn spec_decode_mem_group_4(opcode: u16) -> Option<DecodedMemOp> {
    if opcode == 0x4E75 {
        Some(DecodedMemOp::Rts)
    } else {
        if opcode & 0xFFF8 == 0x4C98 {
            Some(DecodedMemOp::MovemWordPostInc { base: (opcode & 7) as u8 })
        } else {
            match source_ea(opcode) {
                Some(ea) => {
                    if opcode & 0xF1C0 == 0x41C0 || opcode & 0xFFC0 == 0x4840 || opcode & 0xFF80 == 0x4E80 {
                        decode_mem_control(opcode, ea)
                    } else {
                        match decode_size_field((opcode >> 6) & 3) {
                            Some(size) => {
                                if !is_memory(ea) || !is_data_alterable(ea) {
                                    None
                                } else {
                                    match opcode & 0xFF00 {
                                        0x4A00 => Some(DecodedMemOp::Tst { size: size, ea: ea }),
                                        0x4200 => Some(DecodedMemOp::Clr { size: size, ea: ea }),
                                        0x4400 => Some(DecodedMemOp::Neg { size: size, ea: ea }),
                                        0x4600 => Some(DecodedMemOp::Not { size: size, ea: ea }),
                                        _ => None,
                                    }
                                }
                            },
                            None => None,
                        }
                    }
                },
                None => None,
            }
        }
    }
}

/// Control instructions, and TST, CLR, NEG and NOT on memory.
#[verifier::when_used_as_spec(spec_decode_mem_group_4)]
pub fn decode_mem_group_4(opcode: u16) -> (r: Option<DecodedMemOp>)
    ensures
        r == spec_decode_mem_group_4(opcode),
{
    if opcode == 0x4E75 {
        return Some(DecodedMemOp::Rts);
    }
    if opcode & 0xFFF8 == 0x4C98 {
        return Some(DecodedMemOp::MovemWordPostInc { base: (opcode & 7) as u8 });
    }
    match source_ea(opcode) {
        Some(ea) => {
            if opcode & 0xF1C0 == 0x41C0 || opcode & 0xFFC0 == 0x4840 || opcode & 0xFF80 == 0x4E80 {
                return decode_mem_control(opcode, ea);
            }
            match decode_size_field((opcode >> 6) & 3) {
                Some(size) => {
                    if !is_memory(ea) || !is_data_alterable(ea) {
                        return None;
                    }
                    match opcode & 0xFF00 {
                        0x4A00 => Some(DecodedMemOp::Tst { size: size, ea: ea }),
                        0x4200 => Some(DecodedMemOp::Clr { size: size, ea: ea }),
                        0x4400 => Some(DecodedMemOp::Neg { size: size, ea: ea }),
                        0x4600 => Some(DecodedMemOp::Not { size: size, ea: ea }),
                        _ => None,
                    }
                },
                None => None,
            }
        },
        None => None,
    }
}

/// DBcc, and ADDQ and SUBQ on memory.
pub open spec fn spec_decode_mem_group_5(opcode: u16) -> Option<DecodedMemOp> {
    match (decode_size_field((opcode >> 6) & 3), source_ea(opcode)) {
        (None, _) => {
            if (opcode >> 3) & 7 == 1 {
                Some(DecodedMemOp::Dbcc { condition: ((opcode >> 8) & 0xF) as u8, reg: (opcode & 7) as u8 })
            } else {
                None
            }
        },
        (Some(size), Some(ea)) => {
            if !is_memory(ea) || !is_data_alterable(ea) {
                None
            } else {
                let field: u32 = ((opcode >> 9) & 7) as u32;
                let data: u32 = if field == 0 {
                    8
                } else {
                    field
                };
                Some(DecodedMemOp::AddqSubq { data: data, size: size, ea: ea, is_sub: opcode & 0x100 != 0 })
            }
        },
        _ => None,
    }
}

/// DBcc, and ADDQ and SUBQ on memory.
#[verifier::when_used_as_spec(spec_decode_mem_group_5)]
pub fn decode_mem_group_5(opcode: u16) -> (r: Option<DecodedMemOp>)
    ensures
        r == spec_decode_mem_group_5(opcode),
{
    match (decode_size_field((opcode >> 6) & 3), source_ea(opcode)) {
        (None, _) => {
            if (opcode >> 3) & 7 == 1 {
                Some(DecodedMemOp::Dbcc { condition: ((opcode >> 8) & 0xF) as u8, reg: (opcode & 7) as u8 })
            } else {
                None
            }
        },
        (Some(size), Some(ea)) => {
            if !is_memory(ea) || !is_data_alterable(ea) {
                return None;
            }
            let field: u32 = ((opcode >> 9) & 7) as u32;
            let data: u32 = if field == 0 {
                8
            } else {
                field
            };
            Some(DecodedMemOp::AddqSubq { data: data, size: size, ea: ea, is_sub: opcode & 0x100 != 0 })
        },
        _ => None,
    }
}

/// BSR with a byte or word displacement, and branches with a word
/// displacement.
pub open spec fn spec_decode_mem_group_6(opcode: u16) -> Option<DecodedMemOp> {
    let condition: u8 = ((opcode >> 8) & 0xF) as u8;
    let displacement: u8 = (opcode & 0xFF) as u8;
    if condition == 1 {
        if displacement == 0 {
            Some(DecodedMemOp::Bsr { displacement: 0, length: 4 })
        } else {
            if displacement == 0xFF {
                None
            } else {
                Some(DecodedMemOp::Bsr { displacement: displacement as i8 as i32, length: 2 })
            }
        }
    } else if displacement == 0 {
        Some(DecodedMemOp::BranchWord { condition: condition })
    } else {
        None
    }
}

/// BSR with a byte or word displacement, and branches with a word
/// displacement.
#[verifier::when_used_as_spec(spec_decode_mem_group_6)]
pub fn decode_mem_group_6(opcode: u16) -> (r: Option<DecodedMemOp>)
    ensures
        r == spec_decode_mem_group_6(opcode),
{
    let condition: u8 = ((opcode >> 8) & 0xF) as u8;
    let displacement: u8 = (opcode & 0xFF) as u8;
    if condition == 1 {
        if displacement == 0 {
            return Some(DecodedMemOp::Bsr { displacement: 0, length: 4 });
        }
        if displacement == 0xFF {
            return None;
        }
        return Some(DecodedMemOp::Bsr { displacement: displacement as i8 as i32, length: 2 });
    }
    if displacement == 0 {
        Some(DecodedMemOp::BranchWord { condition: condition })
    } else {
        None
    }
}

/// The operation of an arithmetic group towards a data register.
pub open spec fn spec_register_op(group: u16) -> Option<BinaryOp> {
    match group {
        0x8 => Some(BinaryOp::Or),
        0x9 => Some(BinaryOp::Sub),
        0xB => Some(BinaryOp::Compare),
        0xC => Some(BinaryOp::And),
        0xD => Some(BinaryOp::Add),
        _ => None,
    }
}

/// The operation of an arithmetic group towards a data register.
#[verifier::when_used_as_spec(spec_register_op)]
pub fn register_op(group: u16) -> (r: Option<BinaryOp>)
    ensures
        r == spec_register_op(group),
{
    match group {
        0x8 => Some(BinaryOp::Or),
        0x9 => Some(BinaryOp::Sub),
        0xB => Some(BinaryOp::Compare),
        0xC => Some(BinaryOp::And),
        0xD => Some(BinaryOp::Add),
        _ => None,
    }
}

/// The operation of an arithmetic group towards an address register.
pub open spec fn spec_address_op(group: u16) -> Option<AddrOp> {
    match group {
        0x9 => Some(AddrOp::Suba),
        0xB => Some(AddrOp::Compare),
        0xD => Some(AddrOp::Adda),
        _ => None,
    }
}

/// The operation of an arithmetic group towards an address register.
#[verifier::when_used_as_spec(spec_address_op)]
pub fn address_op(group: u16) -> (r: Option<AddrOp>)
    ensures
        r == spec_address_op(group),
{
    match group {
        0x9 => Some(AddrOp::Suba),
        0xB => Some(AddrOp::Compare),
        0xD => Some(AddrOp::Adda),
        _ => None,
    }
}

/// An operation on an address register.
pub open spec fn spec_decode_alu_addr(group: u16, op_mode: u16, ea: FastEa, reg: u8) -> Option<DecodedMemOp> {
    let size: Size = if op_mode == 3 {
        Size::Word
    } else {
        Size::Long
    };
    match address_op(group) {
        Some(op) => Some(DecodedMemOp::AluAddr { op: op, size: size, src: ea, dst: reg }),
        None => None,
    }
}

/// An operation on an address register.
#[verifier::when_used_as_spec(spec_decode_alu_addr)]
pub fn decode_alu_addr(group: u16, op_mode: u16, ea: FastEa, reg: u8) -> (r: Option<DecodedMemOp>)
    ensures
        r == spec_decode_alu_addr(group, op_mode, ea, reg),
{
    let size: Size = if op_mode == 3 {
        Size::Word
    } else {
        Size::Long
    };
    match address_op(group) {
        Some(op) => Some(DecodedMemOp::AluAddr { op: op, size: size, src: ea, dst: reg }),
        None => None,
    }
}

/// An operation towards a data register. An address-register source is legal
/// for word and long ADD, SUB and CMP only.
pub open spec fn spec_decode_alu_to_reg(group: u16, size: Size, ea: FastEa, reg: u8) -> Option<DecodedMemOp> {
    match register_op(group) {
        Some(op) => {
            if is_address_register(ea) && (size == Size::Byte || op == BinaryOp::Or || op == BinaryOp::And) {
                None
            } else {
                Some(DecodedMemOp::AluToReg { op: op, size: size, src: ea, dst: reg })
            }
        },
        None => None,
    }
}

/// An operation towards a data register. An address-register source is legal
/// for word and long ADD, SUB and CMP only.
#[verifier::when_used_as_spec(spec_decode_alu_to_reg)]
pub fn decode_alu_to_reg(group: u16, size: Size, ea: FastEa, reg: u8) -> (r: Option<DecodedMemOp>)
    ensures
        r == spec_decode_alu_to_reg(group, size, ea, reg),
{
    match register_op(group) {
        Some(op) => {
            if is_address_register(ea) && (size == Size::Byte || op == BinaryOp::Or || op == BinaryOp::And) {
                None
            } else {
                Some(DecodedMemOp::AluToReg { op: op, size: size, src: ea, dst: reg })
            }
        },
        None => None,
    }
}

/// An operation towards memory, or CMPM.
pub open spec fn spec_decode_alu_to_mem(group: u16, size: Size, ea: FastEa, reg: u8) -> Option<DecodedMemOp> {
    match ea {
        FastEa::AddrReg(src) => {
            if group == 0xB {
                Some(DecodedMemOp::CompareMem { size: size, src: src, dst: reg })
            } else {
                None
            }
        },
        _ => {
            if !is_memory(ea) || !is_data_alterable(ea) {
                None
            } else {
                if group == 0xB {
                    Some(DecodedMemOp::AluToMem { op: BinaryOp::Eor, size: size, src: reg, dst: ea })
                } else {
                    match register_op(group) {
                        Some(op) => Some(DecodedMemOp::AluToMem { op: op, size: size, src: reg, dst: ea }),
                        None => None,
                    }
                }
            }
        },
    }
}

/// An operation towards memory, or CMPM.
#[verifier::when_used_as_spec(spec_decode_alu_to_mem)]
pub fn decode_alu_to_mem(group: u16, size: Size, ea: FastEa, reg: u8) -> (r: Option<DecodedMemOp>)
    ensures
        r == spec_decode_alu_to_mem(group, size, ea, reg),
{
    match ea {
        FastEa::AddrReg(src) => {
            if group == 0xB {
                Some(DecodedMemOp::CompareMem { size: size, src: src, dst: reg })
            } else {
                None
            }
        },
        _ => {
            if !is_memory(ea) || !is_data_alterable(ea) {
                return None;
            }
            if group == 0xB {
                return Some(DecodedMemOp::AluToMem { op: BinaryOp::Eor, size: size, src: reg, dst: ea });
            }
            match register_op(group) {
                Some(op) => Some(DecodedMemOp::AluToMem { op: op, size: size, src: reg, dst: ea }),
                None => None,
            }
        },
    }
}

/// The arithmetic and logic groups.
pub open spec fn spec_decode_mem_alu(opcode: u16) -> Option<DecodedMemOp> {
    let group: u16 = (opcode >> 12) & 0xF;
    let reg: u8 = ((opcode >> 9) & 7) as u8;
    let op_mode: u16 = (opcode >> 6) & 7;
    match source_ea(opcode) {
        Some(ea) => {
            match decode_size_field((opcode >> 6) & 3) {
                None => decode_alu_addr(group, op_mode, ea, reg),
                Some(size) => {
                    if op_mode & 4 != 0 {
                        decode_alu_to_mem(group, size, ea, reg)
                    } else {
                        decode_alu_to_reg(group, size, ea, reg)
                    }
                },
            }
        },
        None => None,
    }
}

/// The arithmetic and logic groups.
#[verifier::when_used_as_spec(spec_decode_mem_alu)]
pub fn decode_mem_alu(opcode: u16) -> (r: Option<DecodedMemOp>)
    ensures
        r == spec_decode_mem_alu(opcode),
{
    let group: u16 = (opcode >> 12) & 0xF;
    let reg: u8 = ((opcode >> 9) & 7) as u8;
    let op_mode: u16 = (opcode >> 6) & 7;
    match source_ea(opcode) {
        Some(ea) => {
            match decode_size_field((opcode >> 6) & 3) {
                None => decode_alu_addr(group, op_mode, ea, reg),
                Some(size) => {
                    if op_mode & 4 != 0 {
                        decode_alu_to_mem(group, size, ea, reg)
                    } else {
                        decode_alu_to_reg(group, size, ea, reg)
                    }
                },
            }
        },
        None => None,
    }
}

/// Decode a memory-operand instruction. The verdict is the same on every
/// model.
pub open spec fn spec_decode_mem(cpu_type: CpuType, opcode: u16) -> Option<DecodedMemOp> {
    match (opcode >> 12) & 0xF {
        0x0 => decode_mem_group_0(opcode),
        0x1 => decode_mem_move(opcode, Size::Byte),
        0x2 => decode_mem_move(opcode, Size::Long),
        0x3 => decode_mem_move(opcode, Size::Word),
        0x4 => decode_mem_group_4(opcode),
        0x5 => decode_mem_group_5(opcode),
        0x6 => decode_mem_group_6(opcode),
        0x8 | 0x9 | 0xB | 0xC | 0xD => decode_mem_alu(opcode),
        _ => None,
    }
}

/// Decode a memory-operand instruction. The verdict is the same on every
/// model.
#[verifier::when_used_as_spec(spec_decode_mem)]
pub fn decode_mem(cpu_type: CpuType, opcode: u16) -> (r: Option<DecodedMemOp>)
    ensures
        r == spec_decode_mem(cpu_type, opcode),
{
    match (opcode >> 12) & 0xF {
        0x0 => decode_mem_group_0(opcode),
        0x1 => decode_mem_move(opcode, Size::Byte),
        0x2 => decode_mem_move(opcode, Size::Long),
        0x3 => decode_mem_move(opcode, Size::Word),
        0x4 => decode_mem_group_4(opcode),
        0x5 => decode_mem_group_5(opcode),
        0x6 => decode_mem_group_6(opcode),
        0x8 | 0x9 | 0xB | 0xC | 0xD => decode_mem_alu(opcode),
        _ => None,
    }
}

/// Cycles of MOVE and MOVEA on the 68000.
pub open spec fn spec_mem_op_cycles(op: DecodedMemOp) -> Option<i32> {
    match op {
        DecodedMemOp::Move { size, src, dst } => {
            let read: i32 = ea_time(addressing_mode(src), size).wrapping_add(4);
            if is_address_register(dst) {
                Some(read)
            } else {
                Some(read.wrapping_add(move_dst_time(addressing_mode(dst), size)))
            }
        },
        _ => None,
    }
}

/// Cycles of MOVE and MOVEA on the 68000.
#[verifier::when_used_as_spec(spec_mem_op_cycles)]
pub fn mem_op_cycles(op: DecodedMemOp) -> (r: Option<i32>)
    ensures
        r == spec_mem_op_cycles(op),
{
    match op {
        DecodedMemOp::Move { size, src, dst } => {
            let read: i32 = ea_time(addressing_mode(src), size).wrapping_add(4);
            if is_address_register(dst) {
                Some(read)
            } else {
                Some(read.wrapping_add(move_dst_time(addressing_mode(dst), size)))
            }
        },
        _ => None,
    }
}

impl DecodedMemOp {
    /// Decode a memory-operand instruction.
    pub fn decode(cpu_type: CpuType, opcode: u16) -> (r: Option<DecodedMemOp>)
        ensures
            r == decode_mem(cpu_type, opcode),
    {
        decode_mem(cpu_type, opcode)
    }

    /// Cycle count of the operations whose timing is independent of run-time
    /// data: MOVE and MOVEA.
    pub fn cycle_cost(self, _cpu: &CpuCore) -> (r: Option<i32>)
        ensures
            r == mem_op_cycles(self),
    {
        mem_op_cycles(self)
    }
}

/// The processor and the bytes of the memory window.
#[verifier::ext_equal]
pub struct Window {
    pub cpu: CpuCore,
    pub mem: Seq<u8>,
}

impl Window {
    /// The state made of a processor and the window bytes.
    #[verifier::inline]
    pub open spec fn of(cpu: CpuCore, mem: Seq<u8>) -> Window {
        Window { cpu, mem }
    }

    /// The state with another processor.
    #[verifier::inline]
    pub open spec fn on_cpu(self, cpu: CpuCore) -> Window {
        Window { cpu, ..self }
    }

    /// The window after a store.
    #[verifier::inline]
    pub open spec fn put(self, off: usize, size: Size, value: u32) -> Window {
        Window { mem: spec_write_window(self.mem, off, size, value), ..self }
    }
}

/// Where the window lies in the address space.
#[derive(Debug, Clone, Copy, PartialEq, Eq, Structural)]
pub struct Win {
    pub base: u32,
    pub len: u32,
}

/// Window offset of an access of `bytes` at a masked address, or `None` if
/// any part of the access falls outside the window.
pub open spec fn spec_window_off(win: Win, addr: u32, bytes: u32) -> Option<usize> {
    let o: u32 = addr.wrapping_sub(win.base);
    if bytes <= win.len && o <= win.len - bytes {
        Some(o as usize)
    } else {
        None
    }
}

/// Window offset of an access of `bytes` at a masked address, or `None` if
/// any part of the access falls outside the window.
#[verifier::when_used_as_spec(spec_window_off)]
pub fn window_off(win: Win, addr: u32, bytes: u32) -> (r: Option<usize>)
    ensures
        r == spec_window_off(win, addr, bytes),
{
    let o: u32 = addr.wrapping_sub(win.base);
    if bytes <= win.len && o <= win.len - bytes {
        Some(o as usize)
    } else {
        None
    }
}

/// The big-endian value of `size` at an offset; zero where the access does
/// not fit.
pub open spec fn spec_read_window(mem: Seq<u8>, off: usize, size: Size) -> u32 {
    if off + size.bytes() > mem.len() {
        0
    } else {
        match size {
            Size::Byte => mem[off as int] as u32,
            Size::Word => ((mem[off as int] as u32) << 8) | (mem[off + 1] as u32),
            Size::Long => ((mem[off as int] as u32) << 24) | ((mem[off + 1] as u32) << 16) | ((mem[off
                + 2] as u32) << 8) | (mem[off + 3] as u32),
        }
    }
}

/// Read from the window.
pub fn read_window(mem: &[u8], off: usize, size: Size) -> (r: u32)
    ensures
        r == spec_read_window(mem@, off, size),
{
    if off > mem.len() || mem.len() - off < size.bytes() as usize {
        return 0;
    }
    match size {
        Size::Byte => mem[off] as u32,
        Size::Word => ((mem[off] as u32) << 8) | (mem[off + 1] as u32),
        Size::Long => ((mem[off] as u32) << 24) | ((mem[off + 1] as u32) << 16) | ((mem[off + 2] as u32)
            << 8) | (mem[off + 3] as u32),
    }
}

/// The window with a big-endian value of `size` stored at an offset; nothing
/// changes where the access does not fit.
pub open spec fn spec_write_window(mem: Seq<u8>, off: usize, size: Size, value: u32) -> Seq<u8> {
    if off + size.bytes() > mem.len() {
        mem
    } else {
        match size {
            Size::Byte => mem.update(off as int, value as u8),
            Size::Word => mem.update(off as int, (value >> 8) as u8).update(off + 1, value as u8),
            Size::Long => mem.update(off as int, (value >> 24) as u8).update(
                off + 1,
                (value >> 16) as u8,
            ).update(off + 2, (value >> 8) as u8).update(off + 3, value as u8),
        }
    }
}

/// Write to the window.
pub fn write_window(mem: &mut [u8], off: usize, size: Size, value: u32)
    ensures
        final(mem)@ == spec_write_window(old(mem)@, off, size, value),
{
    if off > mem.len() || mem.len() - off < size.bytes() as usize {
        return;
    }
    match size {
        Size::Byte => {
            mem[off] = value as u8;
        },
        Size::Word => {
            mem[off] = (value >> 8) as u8;
            mem[off + 1] = value as u8;
        },
        Size::Long => {
            mem[off] = (value >> 24) as u8;
            mem[off + 1] = (value >> 16) as u8;
            mem[off + 2] = (value >> 8) as u8;
            mem[off + 3] = value as u8;
        },
    }
}

/// Deferred updates of address registers by post-increment and pre-decrement.
/// Two slots cover the worst case (CMPM, memory-to-memory MOVE).
#[derive(Debug, Clone, Copy)]
pub struct Pending {
    pub first: Option<(u8, u32)>,
    pub second: Option<(u8, u32)>,
}

/// `pending` with one more update.
pub open spec fn spec_pending_push(pending: Pending, reg: u8, value: u32) -> Pending {
    if pending.first.is_none() {
        Pending { first: Some((reg, value)), second: None }
    } else {
        Pending { first: pending.first, second: Some((reg, value)) }
    }
}

/// `pending` with one more update.
#[verifier::when_used_as_spec(spec_pending_push)]
pub fn pending_push(pending: Pending, reg: u8, value: u32) -> (r: Pending)
    ensures
        r == spec_pending_push(pending, reg, value),
{
    if pending.first.is_none() {
        Pending { first: Some((reg, value)), second: None }
    } else {
        Pending { first: pending.first, second: Some((reg, value)) }
    }
}

/// Progress through one instruction: the address of the next unread extension
/// word, and the deferred register updates.
#[derive(Debug, Clone, Copy)]
pub struct Ctx {
    pub next_ext: u32,
    pub pending: Pending,
    pub aligned_only: bool,
}

/// A resolved operand location.
#[derive(Debug, Clone, Copy, PartialEq, Eq, Structural)]
pub enum Loc {
    Data(u8),
    Addr(u8),
    /// Window offset
    Mem(usize),
    Imm(u32),
}

/// `ctx` past one more extension word.
pub open spec fn spec_past_ext(ctx: Ctx) -> Ctx {
    Ctx { next_ext: ctx.next_ext.wrapping_add(2), pending: ctx.pending, aligned_only: ctx.aligned_only }
}

/// `ctx` past one more extension word.
#[verifier::when_used_as_spec(spec_past_ext)]
pub fn past_ext(ctx: Ctx) -> (r: Ctx)
    ensures
        r == spec_past_ext(ctx),
{
    Ctx { next_ext: ctx.next_ext.wrapping_add(2), pending: ctx.pending, aligned_only: ctx.aligned_only }
}

/// `ctx` with one more deferred update.
pub open spec fn spec_with_pending(ctx: Ctx, reg: u8, value: u32) -> Ctx {
    Ctx { next_ext: ctx.next_ext, pending: pending_push(ctx.pending, reg, value), aligned_only: ctx.aligned_only }
}

/// `ctx` with one more deferred update.
#[verifier::when_used_as_spec(spec_with_pending)]
pub fn with_pending(ctx: Ctx, reg: u8, value: u32) -> (r: Ctx)
    ensures
        r == spec_with_pending(ctx, reg, value),
{
    Ctx { next_ext: ctx.next_ext, pending: pending_push(ctx.pending, reg, value), aligned_only: ctx.aligned_only }
}

/// Step of post-increment and pre-decrement. Byte accesses through A7 keep
/// the stack pointer even.
pub open spec fn spec_ea_step(size: Size, reg: u8) -> u32 {
    if size == Size::Byte && reg == 7 {
        2
    } else {
        size.bytes()
    }
}

/// Step of post-increment and pre-decrement. Byte accesses through A7 keep
/// the stack pointer even.
#[verifier::when_used_as_spec(spec_ea_step)]
pub fn ea_step(size: Size, reg: u8) -> (r: u32)
    ensures
        r == spec_ea_step(size, reg),
{
    if size == Size::Byte && reg == 7 {
        2
    } else {
        size.bytes()
    }
}

/// The result of an operation towards memory.
pub open spec fn spec_binary_result(op: BinaryOp, src: u32, dst: u32) -> u32 {
    match op {
        BinaryOp::Add => src.wrapping_add(dst),
        BinaryOp::Sub | BinaryOp::Compare => dst.wrapping_sub(src),
        BinaryOp::And => src & dst,
        BinaryOp::Or => src | dst,
        BinaryOp::Eor => src ^ dst,
    }
}

/// The result of an operation towards memory.
#[verifier::when_used_as_spec(spec_binary_result)]
pub fn binary_result(op: BinaryOp, src: u32, dst: u32) -> (r: u32)
    ensures
        r == spec_binary_result(op, src, dst),
{
    match op {
        BinaryOp::Add => src.wrapping_add(dst),
        BinaryOp::Sub | BinaryOp::Compare => dst.wrapping_sub(src),
        BinaryOp::And => src & dst,
        BinaryOp::Or => src | dst,
        BinaryOp::Eor => src ^ dst,
    }
}

/// The result of a bit operation.
pub open spec fn spec_bit_result(op: BitOp, value: u32, mask: u32) -> u32 {
    match op {
        BitOp::Test => value,
        BitOp::SetBit => value | mask,
        BitOp::Clear => value & !mask,
        BitOp::Change => value ^ mask,
    }
}

/// The result of a bit operation.
#[verifier::when_used_as_spec(spec_bit_result)]
pub fn bit_result(op: BitOp, value: u32, mask: u32) -> (r: u32)
    ensures
        r == spec_bit_result(op, value, mask),
{
    match op {
        BitOp::Test => value,
        BitOp::SetBit => value | mask,
        BitOp::Clear => value & !mask,
        BitOp::Change => value ^ mask,
    }
}

/// Number of registers in an eight-bit list.
pub open spec fn spec_list_length(mask: u32) -> u32 {
    let low: u32 = (mask & 1).wrapping_add((mask >> 1) & 1).wrapping_add((mask >> 2) & 1).wrapping_add((mask >> 3) & 1);
    low.wrapping_add((mask >> 4) & 1).wrapping_add((mask >> 5) & 1).wrapping_add((mask >> 6) & 1).wrapping_add((mask >> 7) & 1)
}

/// Number of registers in an eight-bit list.
#[verifier::when_used_as_spec(spec_list_length)]
pub fn list_length(mask: u32) -> (r: u32)
    ensures
        r == spec_list_length(mask),
{
    let low: u32 = (mask & 1).wrapping_add((mask >> 1) & 1).wrapping_add((mask >> 2) & 1).wrapping_add((mask >> 3) & 1);
    low.wrapping_add((mask >> 4) & 1).wrapping_add((mask >> 5) & 1).wrapping_add((mask >> 6) & 1).wrapping_add((mask >> 7) & 1)
}

impl Window {
    /// Store an operand. An immediate is never a destination.
    #[verifier::opaque]
    pub open spec fn store(self, loc: Loc, size: Size, value: u32) -> Window {
        match loc {
            Loc::Data(r) => {
                let m = self.on_cpu(self.cpu.spec_write_data_reg(r as usize, size, value));
                m
            },
            Loc::Addr(r) => {
                let m = self.on_cpu(self.cpu.spec_set_a(r as usize, (self.cpu.a(r as usize) & !size.mask()) | (value & size.mask())));
                m
            },
            Loc::Mem(off) => {
                let m = self.put(off, size, value);
                m
            },
            Loc::Imm(_) => self,
        }
    }

    /// MOVE and MOVEA.
    #[verifier::opaque]
    pub open spec fn mem_move(self, win: Win, size: Size, src: FastEa, dst: FastEa) -> (Window, bool) {
        match self.cpu.spec_resolve(self.mem, win, src, size, self.cpu.start_ctx()) {
            None => (self, false),
            Some(from) => {
                let value: u32 = self.cpu.spec_load(self.mem, from.0, size);
                match dst {
                    FastEa::AddrReg(r) => {
                        let m = self.on_cpu(self.cpu.spec_commit(from.1.pending));
                        let m = m.on_cpu(m.cpu.spec_set_a(r as usize, if size == Size::Word { sign_extend(size, value) } else { value }));
                        let m = m.on_cpu(CpuCore { pc: from.1.next_ext, ..m.cpu });
                        (m, true)
                    },
                    _ => {
                        match self.cpu.spec_resolve(self.mem, win, dst, size, from.1) {
                            None => (self, false),
                            Some(to) => {
                                let m = self.on_cpu(self.cpu.spec_commit(to.1.pending));
                                let m = m.store(to.0, size, value);
                                let m = m.on_cpu(m.cpu.spec_set_logic_flags(value, size));
                                let m = m.on_cpu(CpuCore { pc: to.1.next_ext, ..m.cpu });
                                (m, true)
                            },
                        }
                    },
                }
            },
        }
    }

    /// ADD, SUB, AND, OR and CMP of an operand to a data register.
    #[verifier::opaque]
    pub open spec fn mem_alu_to_reg(self, win: Win, op: BinaryOp, size: Size, src: FastEa, dst: u8) -> (Window, bool) {
        match self.cpu.spec_resolve(self.mem, win, src, size, self.cpu.start_ctx()) {
            None => (self, false),
            Some(from) => {
                let value: u32 = self.cpu.spec_load(self.mem, from.0, size);
                let m = self.on_cpu(self.cpu.spec_commit(from.1.pending));
                let old_value: u32 = m.cpu.d(dst as usize) & size.mask();
                let m = m.on_cpu(m.cpu.spec_apply_binary_to_reg(op, size, value, old_value, dst as usize));
                let m = m.on_cpu(CpuCore { pc: from.1.next_ext, ..m.cpu });
                (m, true)
            },
        }
    }

    /// An operation of `src` to the operand at `ea`; a comparison stores
    /// nothing.
    #[verifier::opaque]
    pub open spec fn mem_modify(self, win: Win, op: BinaryOp, size: Size, src: u32, ea: FastEa, ctx: Ctx) -> (Window, bool) {
        match self.cpu.spec_resolve(self.mem, win, ea, size, ctx) {
            None => (self, false),
            Some(to) => {
                let old_value: u32 = self.cpu.spec_load(self.mem, to.0, size);
                let result: u32 = binary_result(op, src, old_value);
                let m = self.on_cpu(self.cpu.spec_commit(to.1.pending));
                let m = if op != BinaryOp::Compare {
                    let m = m.store(to.0, size, result & size.mask());
                    m
                } else {
                    m
                };
                let m = m.on_cpu(m.cpu.spec_set_binary_flags(op, src, old_value, result, size));
                let m = m.on_cpu(CpuCore { pc: to.1.next_ext, ..m.cpu });
                (m, true)
            },
        }
    }

    /// ADDA, SUBA and CMPA.
    #[verifier::opaque]
    pub open spec fn mem_alu_addr(self, win: Win, op: AddrOp, size: Size, src: FastEa, dst: u8) -> (Window, bool) {
        match self.cpu.spec_resolve(self.mem, win, src, size, self.cpu.start_ctx()) {
            None => (self, false),
            Some(from) => {
                let value: u32 = self.cpu.spec_load(self.mem, from.0, size);
                let m = self.on_cpu(self.cpu.spec_commit(from.1.pending));
                let (cpu, v1) = m.cpu.spec_apply_addr_op(op, size, value, dst as usize);
                let m = m.on_cpu(cpu);
                let m = m.on_cpu(CpuCore { pc: from.1.next_ext, ..m.cpu });
                (m, true)
            },
        }
    }

    /// ADDI, SUBI, ANDI, ORI, EORI and CMPI.
    #[verifier::opaque]
    pub open spec fn mem_alu_imm(self, win: Win, op: BinaryOp, size: Size, dst: FastEa) -> (Window, bool) {
        match self.cpu.spec_resolve_immediate(self.mem, win, size, self.cpu.start_ctx()) {
            None => (self, false),
            Some(imm) => self.mem_modify(win, op, size, imm.0, dst, imm.1),
        }
    }

    /// TST.
    #[verifier::opaque]
    pub open spec fn mem_tst(self, win: Win, size: Size, ea: FastEa) -> (Window, bool) {
        match self.cpu.spec_resolve(self.mem, win, ea, size, self.cpu.start_ctx()) {
            None => (self, false),
            Some(at) => {
                let value: u32 = self.cpu.spec_load(self.mem, at.0, size);
                let m = self.on_cpu(self.cpu.spec_commit(at.1.pending));
                let m = m.on_cpu(m.cpu.spec_set_logic_flags(value, size));
                let m = m.on_cpu(CpuCore { pc: at.1.next_ext, ..m.cpu });
                (m, true)
            },
        }
    }

    /// CLR.
    #[verifier::opaque]
    pub open spec fn mem_clr(self, win: Win, size: Size, ea: FastEa) -> (Window, bool) {
        match self.cpu.spec_resolve(self.mem, win, ea, size, self.cpu.start_ctx()) {
            None => (self, false),
            Some(at) => {
                let m = self.on_cpu(self.cpu.spec_commit(at.1.pending));
                let m = m.store(at.0, size, 0);
                let m = m.on_cpu(m.cpu.spec_set_logic_flags(0, size));
                let m = m.on_cpu(CpuCore { pc: at.1.next_ext, ..m.cpu });
                (m, true)
            },
        }
    }

    /// NEG.
    #[verifier::opaque]
    pub open spec fn mem_neg(self, win: Win, size: Size, ea: FastEa) -> (Window, bool) {
        match self.cpu.spec_resolve(self.mem, win, ea, size, self.cpu.start_ctx()) {
            None => (self, false),
            Some(at) => {
                let value: u32 = self.cpu.spec_load(self.mem, at.0, size);
                let result: u32 = 0u32.wrapping_sub(value);
                let m = self.on_cpu(self.cpu.spec_commit(at.1.pending));
                let m = m.store(at.0, size, result & size.mask());
                let m = m.on_cpu(m.cpu.spec_set_sub_flags(value, 0, result, size));
                let m = m.on_cpu(CpuCore { pc: at.1.next_ext, ..m.cpu });
                (m, true)
            },
        }
    }

    /// NOT.
    #[verifier::opaque]
    pub open spec fn mem_not(self, win: Win, size: Size, ea: FastEa) -> (Window, bool) {
        match self.cpu.spec_resolve(self.mem, win, ea, size, self.cpu.start_ctx()) {
            None => (self, false),
            Some(at) => {
                let value: u32 = self.cpu.spec_load(self.mem, at.0, size);
                let result: u32 = !value & size.mask();
                let m = self.on_cpu(self.cpu.spec_commit(at.1.pending));
                let m = m.store(at.0, size, result);
                let m = m.on_cpu(m.cpu.spec_set_logic_flags(result, size));
                let m = m.on_cpu(CpuCore { pc: at.1.next_ext, ..m.cpu });
                (m, true)
            },
        }
    }

    /// BTST, BCHG, BCLR and BSET of bit `bit` modulo 8.
    #[verifier::opaque]
    pub open spec fn mem_bit(self, win: Win, op: BitOp, bit: u32, ea: FastEa, ctx: Ctx) -> (Window, bool) {
        match self.cpu.spec_resolve(self.mem, win, ea, Size::Byte, ctx) {
            None => (self, false),
            Some(at) => {
                let mask: u32 = bit_mask(bit & 7);
                let value: u32 = self.cpu.spec_load(self.mem, at.0, Size::Byte);
                let m = self.on_cpu(self.cpu.spec_commit(at.1.pending));
                let m = m.on_cpu(CpuCore { ccr: Ccr { not_z_flag: flag(value & mask != 0, 1), ..m.cpu.ccr }, ..m.cpu });
                let m = if op != BitOp::Test {
                    let m = m.store(at.0, Size::Byte, bit_result(op, value, mask));
                    m
                } else {
                    m
                };
                let m = m.on_cpu(CpuCore { pc: at.1.next_ext, ..m.cpu });
                (m, true)
            },
        }
    }

    /// BTST, BCHG, BCLR and BSET with the bit number in a register or in an
    /// extension word.
    #[verifier::opaque]
    pub open spec fn mem_bit_op(self, win: Win, op: BitOp, bit: BitSource, ea: FastEa) -> (Window, bool) {
        match bit {
            BitSource::Reg(r) => self.mem_bit(win, op, self.cpu.d(r as usize), ea, self.cpu.start_ctx()),
            BitSource::Imm => {
                match self.cpu.spec_window_word(self.mem, win, self.cpu.pc) {
                    None => (self, false),
                    Some(v) => self.mem_bit(win, op, v, ea, past_ext(self.cpu.start_ctx())),
                }
            },
        }
    }

    /// CMPM.
    #[verifier::opaque]
    pub open spec fn mem_compare(self, win: Win, size: Size, src: u8, dst: u8) -> (Window, bool) {
        match self.cpu.spec_resolve(self.mem, win, FastEa::AnPostInc(src), size, self.cpu.start_ctx()) {
            None => (self, false),
            Some(from) => {
                let value: u32 = self.cpu.spec_load(self.mem, from.0, size);
                match self.cpu.spec_resolve(self.mem, win, FastEa::AnPostInc(dst), size, from.1) {
                    None => (self, false),
                    Some(to) => {
                        let other: u32 = self.cpu.spec_load(self.mem, to.0, size);
                        let m = self.on_cpu(self.cpu.spec_commit(to.1.pending));
                        let m = m.on_cpu(m.cpu.spec_set_compare_flags(value, other, other.wrapping_sub(value), size));
                        let m = m.on_cpu(CpuCore { pc: to.1.next_ext, ..m.cpu });
                        (m, true)
                    },
                }
            },
        }
    }

    /// LEA.
    #[verifier::opaque]
    pub open spec fn mem_lea(self, win: Win, reg: u8, ea: FastEa) -> (Window, bool) {
        match self.cpu.spec_resolve_control_addr(self.mem, win, ea, self.cpu.start_ctx()) {
            None => (self, false),
            Some(at) => {
                let m = self.on_cpu(self.cpu.spec_set_a(reg as usize, at.0));
                let m = m.on_cpu(CpuCore { pc: at.1.next_ext, ..m.cpu });
                (m, true)
            },
        }
    }

    /// Push a long word onto the stack.
    #[verifier::opaque]
    pub open spec fn mem_push(self, win: Win, aligned_only: bool, value: u32) -> (Window, bool) {
        let sp: u32 = self.cpu.a(7).wrapping_sub(4);
        match self.cpu.locate(win, aligned_only, sp, Size::Long) {
            None => (self, false),
            Some(off) => {
                let m = self.put(off, Size::Long, value);
                let m = m.on_cpu(m.cpu.spec_set_a(7, sp));
                (m, true)
            },
        }
    }

    /// PEA.
    #[verifier::opaque]
    pub open spec fn mem_pea(self, win: Win, ea: FastEa) -> (Window, bool) {
        match self.cpu.spec_resolve_control_addr(self.mem, win, ea, self.cpu.start_ctx()) {
            None => (self, false),
            Some(at) => {
                let (m, pushed) = self.mem_push(win, at.1.aligned_only, at.0);
                let m = if pushed {
                    let m = m.on_cpu(CpuCore { pc: at.1.next_ext, ..m.cpu });
                    m
                } else {
                    m
                };
                (m, pushed)
            },
        }
    }

    /// JMP. PC takes the address unmasked; the next fetch masks it.
    #[verifier::opaque]
    pub open spec fn mem_jmp(self, win: Win, ea: FastEa) -> (Window, bool) {
        match self.cpu.spec_resolve_control_addr(self.mem, win, ea, self.cpu.start_ctx()) {
            None => (self, false),
            Some(at) => {
                let m = self.on_cpu(CpuCore { run: RunState { change_of_flow: true, ..self.cpu.run }, ..self.cpu });
                let m = m.on_cpu(CpuCore { pc: at.0, ..m.cpu });
                (m, true)
            },
        }
    }

    /// JSR.
    #[verifier::opaque]
    pub open spec fn mem_jsr(self, win: Win, ea: FastEa) -> (Window, bool) {
        match self.cpu.spec_resolve_control_addr(self.mem, win, ea, self.cpu.start_ctx()) {
            None => (self, false),
            Some(at) => {
                let (m, pushed) = self.mem_push(win, at.1.aligned_only, at.1.next_ext);
                let m = if pushed {
                    let m = m.on_cpu(CpuCore { run: RunState { change_of_flow: true, ..m.cpu.run }, ..m.cpu });
                    let m = m.on_cpu(CpuCore { pc: at.0, ..m.cpu });
                    m
                } else {
                    m
                };
                (m, pushed)
            },
        }
    }

    /// Execute an operation through the general operand resolution.
    #[verifier::opaque]
    pub open spec fn general_mem_op(self, win: Win, op: DecodedMemOp) -> (Window, bool) {
        match op {
            DecodedMemOp::Move { size, src, dst } => self.mem_move(win, size, src, dst),
            DecodedMemOp::AluToReg { op: o, size, src, dst } => self.mem_alu_to_reg(win, o, size, src, dst),
            DecodedMemOp::AluToMem { op: o, size, src, dst } => {
                self.mem_modify(win, o, size, self.cpu.d(src as usize) & size.mask(), dst, self.cpu.start_ctx())
            },
            DecodedMemOp::AluAddr { op: o, size, src, dst } => self.mem_alu_addr(win, o, size, src, dst),
            DecodedMemOp::AluImm { op: o, size, dst } => self.mem_alu_imm(win, o, size, dst),
            DecodedMemOp::AddqSubq { data, size, ea, is_sub } => {
                let o: BinaryOp = if is_sub {
                    BinaryOp::Sub
                } else {
                    BinaryOp::Add
                };
                self.mem_modify(win, o, size, data, ea, self.cpu.start_ctx())
            },
            DecodedMemOp::Tst { size, ea } => self.mem_tst(win, size, ea),
            DecodedMemOp::Clr { size, ea } => self.mem_clr(win, size, ea),
            DecodedMemOp::Neg { size, ea } => self.mem_neg(win, size, ea),
            DecodedMemOp::Not { size, ea } => self.mem_not(win, size, ea),
            DecodedMemOp::BitMem { op: o, bit, ea } => self.mem_bit_op(win, o, bit, ea),
            DecodedMemOp::CompareMem { size, src, dst } => self.mem_compare(win, size, src, dst),
            DecodedMemOp::Lea { reg, ea } => self.mem_lea(win, reg, ea),
            DecodedMemOp::Pea { ea } => self.mem_pea(win, ea),
            DecodedMemOp::Jmp { ea } => self.mem_jmp(win, ea),
            DecodedMemOp::Jsr { ea } => self.mem_jsr(win, ea),
            _ => (self, false),
        }
    }

    /// MOVE for the register and register-indirect forms, without the general
    /// resolution. `None` when either operand has another form, `Some(false)`
    /// on a window or alignment miss, `Some(true)` when executed.
    #[verifier::opaque]
    pub open spec fn fast_move(self, win: Win, size: Size, src: FastEa, dst: FastEa) -> (Window, Option<bool>) {
        match self.cpu.plain_source(win, size, src) {
            None => (self, None),
            Some(None) => (self, Some(false)),
            Some(Some(from)) => {
                let value: u32 = self.cpu.spec_load(self.mem, from.0, size);
                match dst {
                    FastEa::DataReg(r) => {
                        let m = self.on_cpu(self.cpu.spec_apply_step(from.1));
                        let m = m.on_cpu(m.cpu.spec_write_data_reg(r as usize, size, value));
                        let m = m.on_cpu(m.cpu.spec_set_logic_flags(value, size));
                        (m, Some(true))
                    },
                    FastEa::AddrReg(r) => {
                        let m = self.on_cpu(self.cpu.spec_apply_step(from.1));
                        let m = m.on_cpu(m.cpu.spec_set_a(r as usize, if size == Size::Word { sign_extend(size, value) } else { value }));
                        (m, Some(true))
                    },
                    _ => {
                        match self.cpu.plain_destination(win, size, dst, from.1) {
                            None => (self, None),
                            Some(None) => (self, Some(false)),
                            Some(Some(to)) => {
                                let m = self.on_cpu(self.cpu.spec_apply_step(from.1));
                                let m = m.on_cpu(m.cpu.spec_apply_step(to.1));
                                let m = m.put(to.0, size, value);
                                let m = m.on_cpu(m.cpu.spec_set_logic_flags(value, size));
                                (m, Some(true))
                            },
                        }
                    },
                }
            },
        }
    }

    /// MOVEM.W (An)+ to data registers only. The list and the whole source
    /// span are checked before any register changes.
    #[verifier::opaque]
    pub open spec fn fast_movem_word_postinc(self, win: Win, base: u8) -> (Window, bool) {
        match self.cpu.spec_window_word(self.mem, win, self.cpu.pc) {
            None => (self, false),
            Some(list) => {
                if list == 0 || list & 0xFF00 != 0 {
                    (self, false)
                } else {
                    let raw: u32 = self.cpu.a(base as usize);
                    let bytes: u32 = list_length(list).wrapping_mul(2);
                    match self.cpu.locate_span(win, raw, bytes) {
                        None => (self, false),
                        Some(off) => {
                            let m = self.on_cpu(self.cpu.spec_movem_words(self.mem, off, list));
                            let m = m.on_cpu(m.cpu.spec_set_a(base as usize, raw.wrapping_add(bytes)));
                            let m = m.on_cpu(CpuCore { pc: m.cpu.pc.wrapping_add(2), ..m.cpu });
                            (m, true)
                        },
                    }
                }
            },
        }
    }

    /// MOVE d16(An) to a register.
    #[verifier::opaque]
    pub open spec fn disp_load(self, win: Win, size: Size, src: u8, dst: u8, to_address: bool) -> (Window, bool) {
        match self.cpu.spec_locate_disp(self.mem, win, self.cpu.pc, src, size) {
            None => (self, false),
            Some(off) => {
                let value: u32 = spec_read_window(self.mem, off, size);
                let m = if to_address {
                    let m = self.on_cpu(self.cpu.spec_set_a(dst as usize, if size == Size::Word { sign_extend(size, value) } else { value }));
                    m
                } else {
                    let m = self.on_cpu(self.cpu.spec_write_data_reg(dst as usize, size, value));
                    let m = m.on_cpu(m.cpu.spec_set_logic_flags(value, size));
                    m
                };
                let m = m.on_cpu(CpuCore { pc: m.cpu.pc.wrapping_add(2), ..m.cpu });
                (m, true)
            },
        }
    }

    /// MOVE of a value to d16(An).
    #[verifier::opaque]
    pub open spec fn disp_store(self, win: Win, size: Size, value: u32, dst: u8) -> (Window, bool) {
        match self.cpu.spec_locate_disp(self.mem, win, self.cpu.pc, dst, size) {
            None => (self, false),
            Some(off) => {
                let m = self.put(off, size, value);
                let m = m.on_cpu(m.cpu.spec_set_logic_flags(value, size));
                let m = m.on_cpu(CpuCore { pc: m.cpu.pc.wrapping_add(2), ..m.cpu });
                (m, true)
            },
        }
    }

    /// MOVE d16(An) to -(An).
    #[verifier::opaque]
    pub open spec fn disp_push(self, win: Win, size: Size, src: u8, dst: u8) -> (Window, bool) {
        let at: u32 = self.cpu.a(dst as usize).wrapping_sub(ea_step(size, dst));
        match (self.cpu.spec_locate_disp(self.mem, win, self.cpu.pc, src, size), self.cpu.locate(win, self.cpu.model.is_pre_68020, at, size)) {
            (Some(from), Some(to)) => {
                let value: u32 = spec_read_window(self.mem, from, size);
                let m = self.on_cpu(self.cpu.spec_set_a(dst as usize, at));
                let m = m.put(to, size, value);
                let m = m.on_cpu(m.cpu.spec_set_logic_flags(value, size));
                let m = m.on_cpu(CpuCore { pc: m.cpu.pc.wrapping_add(2), ..m.cpu });
                (m, true)
            },
            _ => (self, false),
        }
    }

    /// MOVE d16(An) to d16(An).
    #[verifier::opaque]
    pub open spec fn disp_move(self, win: Win, size: Size, src: u8, dst: u8) -> (Window, bool) {
        match (
            self.cpu.spec_locate_disp(self.mem, win, self.cpu.pc, src, size),
            self.cpu.spec_locate_disp(self.mem, win, self.cpu.pc.wrapping_add(2), dst, size),
        ) {
            (Some(from), Some(to)) => {
                let value: u32 = spec_read_window(self.mem, from, size);
                let m = self.put(to, size, value);
                let m = m.on_cpu(m.cpu.spec_set_logic_flags(value, size));
                let m = m.on_cpu(CpuCore { pc: m.cpu.pc.wrapping_add(4), ..m.cpu });
                (m, true)
            },
            _ => (self, false),
        }
    }

    /// TST d16(An).
    #[verifier::opaque]
    pub open spec fn disp_tst(self, win: Win, size: Size, reg: u8) -> (Window, bool) {
        match self.cpu.spec_locate_disp(self.mem, win, self.cpu.pc, reg, size) {
            None => (self, false),
            Some(off) => {
                let m = self.on_cpu(self.cpu.spec_set_logic_flags(spec_read_window(self.mem, off, size), size));
                let m = m.on_cpu(CpuCore { pc: m.cpu.pc.wrapping_add(2), ..m.cpu });
                (m, true)
            },
        }
    }

    /// CLR d16(An).
    #[verifier::opaque]
    pub open spec fn disp_clr(self, win: Win, size: Size, reg: u8) -> (Window, bool) {
        match self.cpu.spec_locate_disp(self.mem, win, self.cpu.pc, reg, size) {
            None => (self, false),
            Some(off) => {
                let m = self.put(off, size, 0);
                let m = m.on_cpu(m.cpu.spec_set_logic_flags(0, size));
                let m = m.on_cpu(CpuCore { pc: m.cpu.pc.wrapping_add(2), ..m.cpu });
                (m, true)
            },
        }
    }

    /// ADDQ and SUBQ to d16(An).
    #[verifier::opaque]
    pub open spec fn disp_quick(self, win: Win, data: u32, size: Size, reg: u8, is_sub: bool) -> (Window, bool) {
        match self.cpu.spec_locate_disp(self.mem, win, self.cpu.pc, reg, size) {
            None => (self, false),
            Some(off) => {
                let old_value: u32 = spec_read_window(self.mem, off, size);
                let m = if is_sub {
                    let result: u32 = old_value.wrapping_sub(data);
                    let m = self.put(off, size, result & size.mask());
                    let m = m.on_cpu(m.cpu.spec_set_sub_flags(data, old_value, result, size));
                    m
                } else {
                    let result: u32 = data.wrapping_add(old_value);
                    let m = self.put(off, size, result & size.mask());
                    let m = m.on_cpu(m.cpu.spec_set_add_flags(data, old_value, result, size));
                    m
                };
                let m = m.on_cpu(CpuCore { pc: m.cpu.pc.wrapping_add(2), ..m.cpu });
                (m, true)
            },
        }
    }

    /// BTST, BCHG, BCLR and BSET with an immediate bit number on d16(An).
    #[verifier::opaque]
    pub open spec fn disp_bit(self, win: Win, op: BitOp, reg: u8) -> (Window, bool) {
        match (
            self.cpu.spec_window_word(self.mem, win, self.cpu.pc),
            self.cpu.spec_locate_disp(self.mem, win, self.cpu.pc.wrapping_add(2), reg, Size::Byte),
        ) {
            (Some(bit), Some(off)) => {
                let mask: u32 = bit_mask(bit & 7);
                let value: u32 = spec_read_window(self.mem, off, Size::Byte);
                let m = self.on_cpu(CpuCore { ccr: Ccr { not_z_flag: flag(value & mask != 0, 1), ..self.cpu.ccr }, ..self.cpu });
                let m = if op != BitOp::Test {
                    let m = m.put(off, Size::Byte, bit_result(op, value, mask));
                    m
                } else {
                    m
                };
                let m = m.on_cpu(CpuCore { pc: m.cpu.pc.wrapping_add(4), ..m.cpu });
                (m, true)
            },
            _ => (self, false),
        }
    }

    /// The d16(An) forms of MOVE, without the general resolution.
    #[verifier::opaque]
    pub open spec fn fast_disp_move(self, win: Win, size: Size, src: FastEa, dst: FastEa) -> (Window, Option<bool>) {
        match (src, dst) {
            (FastEa::AnDisp(s), FastEa::DataReg(d)) => {
                let (m, v1) = self.disp_load(win, size, s, d, false);
                (m, Some(v1))
            },
            (FastEa::AnDisp(s), FastEa::AddrReg(d)) => {
                let (m, v2) = self.disp_load(win, size, s, d, true);
                (m, Some(v2))
            },
            (FastEa::DataReg(s), FastEa::AnDisp(d)) => {
                let (m, v3) = self.disp_store(win, size, self.cpu.d(s as usize) & size.mask(), d);
                (m, Some(v3))
            },
            (FastEa::AddrReg(s), FastEa::AnDisp(d)) => {
                let (m, v4) = self.disp_store(win, size, self.cpu.a(s as usize) & size.mask(), d);
                (m, Some(v4))
            },
            (FastEa::AnDisp(s), FastEa::AnPreDec(d)) => {
                let (m, v5) = self.disp_push(win, size, s, d);
                (m, Some(v5))
            },
            (FastEa::AnDisp(s), FastEa::AnDisp(d)) => {
                let (m, v6) = self.disp_move(win, size, s, d);
                (m, Some(v6))
            },
            _ => (self, None),
        }
    }

    /// The operations on d16(An) operands, without the general resolution.
    /// `None` when the operation has another form, `Some(false)` on a window
    /// or alignment miss, `Some(true)` when executed.
    #[verifier::opaque]
    pub open spec fn fast_an_disp(self, win: Win, op: DecodedMemOp) -> (Window, Option<bool>) {
        match op {
            DecodedMemOp::Move { size, src, dst } => self.fast_disp_move(win, size, src, dst),
            DecodedMemOp::Tst { size, ea: FastEa::AnDisp(reg) } => {
                let (m, v1) = self.disp_tst(win, size, reg);
                (m, Some(v1))
            },
            DecodedMemOp::Clr { size, ea: FastEa::AnDisp(reg) } => {
                let (m, v2) = self.disp_clr(win, size, reg);
                (m, Some(v2))
            },
            DecodedMemOp::AddqSubq { data, size, ea: FastEa::AnDisp(reg), is_sub } => {
                let (m, v3) = self.disp_quick(win, data, size, reg, is_sub);
                (m, Some(v3))
            },
            DecodedMemOp::BitMem { op: o, bit: BitSource::Imm, ea: FastEa::AnDisp(reg) } => {
                let (m, v4) = self.disp_bit(win, o, reg);
                (m, Some(v4))
            },
            _ => (self, None),
        }
    }

    /// DBcc. The displacement is relative to the displacement word.
    #[verifier::opaque]
    pub open spec fn flow_dbcc(self, win: Win, condition: u8, reg: u8) -> (Window, bool) {
        match self.cpu.spec_window_word(self.mem, win, self.cpu.pc) {
            None => (self, false),
            Some(disp) => {
                if !self.cpu.test_condition(condition) {
                    let counter: u16 = (self.cpu.d(reg as usize) as u16).wrapping_sub(1);
                    let m = self.on_cpu(self.cpu.spec_set_d(reg as usize, (self.cpu.d(reg as usize) & 0xFFFF_0000) | counter as u32));
                    if counter != 0xFFFF {
                        let m = m.on_cpu(CpuCore { pc: m.cpu.pc.wrapping_add(sext16(disp as u16)), ..m.cpu });
                        (m, true)
                    } else {
                        let m = m.on_cpu(CpuCore { pc: m.cpu.pc.wrapping_add(2), ..m.cpu });
                        (m, true)
                    }
                } else {
                    let m = self.on_cpu(CpuCore { pc: self.cpu.pc.wrapping_add(2), ..self.cpu });
                    (m, true)
                }
            },
        }
    }

    /// RTS.
    #[verifier::opaque]
    pub open spec fn flow_rts(self, win: Win) -> (Window, bool) {
        let sp: u32 = self.cpu.a(7);
        match self.cpu.locate(win, self.cpu.model.is_pre_68020, sp, Size::Long) {
            None => (self, false),
            Some(off) => {
                let m = self.on_cpu(CpuCore { pc: spec_read_window(self.mem, off, Size::Long), ..self.cpu });
                let m = m.on_cpu(m.cpu.spec_set_a(7, sp.wrapping_add(4)));
                let m = m.on_cpu(CpuCore { run: RunState { change_of_flow: true, ..m.cpu.run }, ..m.cpu });
                (m, true)
            },
        }
    }

    /// BSR.
    #[verifier::opaque]
    pub open spec fn flow_bsr(self, win: Win, displacement: i32, length: u32) -> (Window, bool) {
        let base: u32 = self.cpu.pc;
        let disp: Option<u32> = if length == 4 {
            match self.cpu.spec_window_word(self.mem, win, base) {
                Some(v) => Some(sext16(v as u16)),
                None => None,
            }
        } else {
            Some(displacement as u32)
        };
        match disp {
            None => (self, false),
            Some(d) => {
                let (m, pushed) = self.mem_push(win, self.cpu.model.is_pre_68020, base.wrapping_add(length.wrapping_sub(2)));
                let m = if pushed {
                    let m = m.on_cpu(CpuCore { run: RunState { change_of_flow: true, ..m.cpu.run }, ..m.cpu });
                    let m = m.on_cpu(CpuCore { pc: base.wrapping_add(d), ..m.cpu });
                    m
                } else {
                    m
                };
                (m, pushed)
            },
        }
    }

    /// Bcc and BRA with a word displacement.
    #[verifier::opaque]
    pub open spec fn flow_branch(self, win: Win, condition: u8) -> (Window, bool) {
        match self.cpu.spec_window_word(self.mem, win, self.cpu.pc) {
            None => (self, false),
            Some(disp) => {
                let m = if condition == 0 || self.cpu.test_condition(condition) {
                    let m = self.on_cpu(CpuCore { run: RunState { change_of_flow: true, ..self.cpu.run }, ..self.cpu });
                    let m = m.on_cpu(CpuCore { pc: m.cpu.pc.wrapping_add(sext16(disp as u16)), ..m.cpu });
                    m
                } else {
                    let m = self.on_cpu(CpuCore { pc: self.cpu.pc.wrapping_add(2), ..self.cpu });
                    m
                };
                (m, true)
            },
        }
    }

    /// DBcc, BSR, RTS and word branches: at most one extension word and no
    /// operand resolution. `None` for any other operation.
    #[verifier::opaque]
    pub open spec fn fast_flow(self, win: Win, op: DecodedMemOp) -> (Window, Option<bool>) {
        match op {
            DecodedMemOp::Dbcc { condition, reg } => {
                let (m, v1) = self.flow_dbcc(win, condition, reg);
                (m, Some(v1))
            },
            DecodedMemOp::Rts => {
                let (m, v2) = self.flow_rts(win);
                (m, Some(v2))
            },
            DecodedMemOp::Bsr { displacement, length } => {
                let (m, v3) = self.flow_bsr(win, displacement, length);
                (m, Some(v3))
            },
            DecodedMemOp::BranchWord { condition } => {
                let (m, v4) = self.flow_branch(win, condition);
                (m, Some(v4))
            },
            _ => (self, None),
        }
    }

    /// Execute an operation on a window: first the forms with a path of their
    /// own, then the general resolution.
    #[verifier::opaque]
    pub open spec fn window_mem_op(self, win: Win, op: DecodedMemOp) -> (Window, bool) {
        match op {
            DecodedMemOp::Move { size, src, dst } => {
                let (m, v1) = self.fast_move(win, size, src, dst);
                match v1 {
                    Some(handled) => (m, handled),
                    _ => {
                        match op {
                            DecodedMemOp::MovemWordPostInc { base } => m.fast_movem_word_postinc(win, base),
                            _ => {
                                let (m, v2) = m.fast_an_disp(win, op);
                                match v2 {
                                    Some(handled) => (m, handled),
                                    _ => {
                                        let (m, v3) = m.fast_flow(win, op);
                                        match v3 {
                                            Some(handled) => (m, handled),
                                            _ => m.general_mem_op(win, op),
                                        }
                                    },
                                }
                            },
                        }
                    },
                }
            },
            _ => {
                match op {
                    DecodedMemOp::MovemWordPostInc { base } => self.fast_movem_word_postinc(win, base),
                    _ => {
                        let (m, v4) = self.fast_an_disp(win, op);
                        match v4 {
                            Some(handled) => (m, handled),
                            _ => {
                                let (m, v5) = m.fast_flow(win, op);
                                match v5 {
                                    Some(handled) => (m, handled),
                                    _ => m.general_mem_op(win, op),
                                }
                            },
                        }
                    },
                }
            },
        }
    }

    /// Execute a decoded memory operation against the window that the bus
    /// lends. `false`, with nothing changed, means that full dispatch must
    /// take over.
    #[verifier::opaque]
    pub open spec fn exec_mem_op(self, op: DecodedMemOp) -> (Window, bool) {
        match self.cpu.active_window((self.mem.len() as usize)) {
            None => (self, false),
            Some(win) => self.window_mem_op(win, op),
        }
    }
}

impl CpuCore {
    /// Where the window of the running batch lies; `None` without a window,
    /// or if the bytes lent do not cover it.
    pub open spec fn spec_active_window(&self, lent: usize) -> Option<Win> {
        if self.host.fm_len == 0 || (self.host.fm_len as usize) > lent {
            None
        } else {
            Some(Win { base: self.host.fm_base, len: self.host.fm_len })
        }
    }

    /// Where the window of the running batch lies; `None` without a window,
    /// or if the bytes lent do not cover it.
    #[verifier::when_used_as_spec(spec_active_window)]
    pub fn active_window(&self, lent: usize) -> (r: Option<Win>)
        ensures
            r == self.spec_active_window(lent),
    {
        if self.host.fm_len == 0 || (self.host.fm_len as usize) > lent {
            None
        } else {
            Some(Win { base: self.host.fm_base, len: self.host.fm_len })
        }
    }

    /// Store to the window.
    pub fn put(&mut self, mem: &mut [u8], off: usize, size: Size, value: u32)
        ensures
            Window::of(*final(self), final(mem)@) == Window::of(*old(self), old(mem)@).put(
                off,
                size,
                value,
            ),
    {
        write_window(mem, off, size, value);
    }

    /// Window offset of an access to unmasked address `raw`, or `None` where
    /// it is misaligned or outside.
    pub open spec fn spec_locate(&self, win: Win, aligned_only: bool, raw: u32, size: Size) -> Option<usize> {
        if aligned_only && size != Size::Byte && raw & 1 != 0 {
            None
        } else {
            window_off(win, self.address(raw), size.bytes())
        }
    }

    /// Window offset of an access to unmasked address `raw`, or `None` where
    /// it is misaligned or outside.
    #[verifier::when_used_as_spec(spec_locate)]
    pub fn locate(&self, win: Win, aligned_only: bool, raw: u32, size: Size) -> (r: Option<usize>)
        ensures
            r == self.spec_locate(win, aligned_only, raw, size),
    {
        if aligned_only && size != Size::Byte && raw & 1 != 0 {
            None
        } else {
            window_off(win, self.address(raw), size.bytes())
        }
    }

    /// The instruction word at unmasked address `at`.
    pub open spec fn spec_window_word(&self, mem: Seq<u8>, win: Win, at: u32) -> Option<u32> {
        match window_off(win, self.address(at), 2) {
            Some(off) => Some(spec_read_window(mem, off, Size::Word)),
            None => None,
        }
    }

    /// The instruction word at unmasked address `at`.
    pub fn window_word(&self, mem: &[u8], win: Win, at: u32) -> (r: Option<u32>)
        ensures
            r == self.spec_window_word(mem@, win, at),
    {
        match window_off(win, self.address(at), 2) {
            Some(off) => Some(read_window(mem, off, Size::Word)),
            None => None,
        }
    }

    /// An address register as the deferred updates leave it; the later update
    /// shadows the earlier one.
    pub open spec fn spec_pending_a(&self, pending: Pending, reg: u8) -> u32 {
        match pending.second {
            Some(slot) if slot.0 == reg => slot.1,
            _ => {
                match pending.first {
                    Some(slot) if slot.0 == reg => slot.1,
                    _ => self.a(reg as usize),
                }
            },
        }
    }

    /// An address register as the deferred updates leave it; the later update
    /// shadows the earlier one.
    #[verifier::when_used_as_spec(spec_pending_a)]
    pub fn pending_a(&self, pending: Pending, reg: u8) -> (r: u32)
        ensures
            r == self.spec_pending_a(pending, reg),
    {
        match pending.second {
            Some(slot) if slot.0 == reg => slot.1,
            _ => {
                match pending.first {
                    Some(slot) if slot.0 == reg => slot.1,
                    _ => self.a(reg as usize),
                }
            },
        }
    }

    /// Apply the deferred updates.
    #[verifier::opaque]
    pub open spec fn spec_commit(self, pending: Pending) -> CpuCore {
        let c = match pending.first {
            Some(slot) => {
                let c = self.spec_set_a(slot.0 as usize, slot.1);
                c
            },
            _ => self,
        };
        match pending.second {
            Some(slot) => {
                let c = c.spec_set_a(slot.0 as usize, slot.1);
                c
            },
            _ => c,
        }
    }

    /// Apply the deferred updates.
    pub fn commit(&mut self, pending: Pending)
        ensures
            *final(self) == old(self).spec_commit(pending),
    {
        proof {
            reveal(CpuCore::spec_commit);
        }
        if let Some(slot) = pending.first {
            self.set_a(slot.0 as usize, slot.1);
        }
        if let Some(slot) = pending.second {
            self.set_a(slot.0 as usize, slot.1);
        }
    }

    /// The state in which an instruction starts to resolve its operands: the
    /// fetch has already moved PC past the opcode.
    pub open spec fn spec_start_ctx(&self) -> Ctx {
        Ctx {
            next_ext: self.pc,
            pending: Pending { first: None, second: None },
            aligned_only: is_pre_68020(self.model.cpu_type),
        }
    }

    /// The state in which an instruction starts to resolve its operands: the
    /// fetch has already moved PC past the opcode.
    #[verifier::when_used_as_spec(spec_start_ctx)]
    pub fn start_ctx(&self) -> (r: Ctx)
        ensures
            r == self.spec_start_ctx(),
    {
        Ctx {
            next_ext: self.pc,
            pending: Pending { first: None, second: None },
            aligned_only: is_pre_68020(self.model.cpu_type),
        }
    }

    /// Base plus displacement plus scaled index of a brief extension word;
    /// `None` for the full format of the 68020 and later. The index register
    /// is read as the deferred updates leave it.
    pub open spec fn spec_brief_index(&self, pending: Pending, base: u32, ext: u32) -> Option<u32> {
        let scaled: bool = !is_pre_68020(self.model.cpu_type);
        if ext & 0x0100 != 0 && scaled {
            None
        } else {
            let number: u8 = ((ext >> 12) & 7) as u8;
            let register: u32 = if ext & 0x8000 != 0 {
                self.pending_a(pending, number)
            } else {
                self.d(number as usize)
            };
            let index: u32 = if ext & 0x0800 != 0 {
                register
            } else {
                sext16(register as u16)
            };
            let scale: u32 = if scaled {
                bit_mask((ext >> 9) & 3)
            } else {
                1
            };
            Some(base.wrapping_add(sext8(ext as u8)).wrapping_add(index.wrapping_mul(scale)))
        }
    }

    /// Base plus displacement plus scaled index of a brief extension word;
    /// `None` for the full format of the 68020 and later. The index register
    /// is read as the deferred updates leave it.
    #[verifier::when_used_as_spec(spec_brief_index)]
    pub fn brief_index(&self, pending: Pending, base: u32, ext: u32) -> (r: Option<u32>)
        ensures
            r == self.spec_brief_index(pending, base, ext),
    {
        let scaled: bool = !is_pre_68020(self.model.cpu_type);
        if ext & 0x0100 != 0 && scaled {
            return None;
        }
        let number: u8 = ((ext >> 12) & 7) as u8;
        let register: u32 = if ext & 0x8000 != 0 {
            self.pending_a(pending, number)
        } else {
            self.d(number as usize)
        };
        let index: u32 = if ext & 0x0800 != 0 {
            register
        } else {
            sext16(register as u16)
        };
        let scale: u32 = if scaled {
            bit_mask((ext >> 9) & 3)
        } else {
            1
        };
        Some(base.wrapping_add(sext8(ext as u8)).wrapping_add(index.wrapping_mul(scale)))
    }

    /// A memory operand at unmasked address `raw`.
    pub open spec fn spec_at_memory(&self, win: Win, ctx: Ctx, raw: u32, size: Size) -> Option<(Loc, Ctx)> {
        match self.locate(win, ctx.aligned_only, raw, size) {
            Some(off) => Some((Loc::Mem(off), ctx)),
            None => None,
        }
    }

    /// A memory operand at unmasked address `raw`.
    #[verifier::when_used_as_spec(spec_at_memory)]
    pub fn at_memory(&self, win: Win, ctx: Ctx, raw: u32, size: Size) -> (r: Option<(Loc, Ctx)>)
        ensures
            r == self.spec_at_memory(win, ctx, raw, size),
    {
        match self.locate(win, ctx.aligned_only, raw, size) {
            Some(off) => Some((Loc::Mem(off), ctx)),
            None => None,
        }
    }

    /// The long word in the next two extension words.
    pub open spec fn spec_window_long(&self, mem: Seq<u8>, win: Win, at: u32) -> Option<u32> {
        match (self.spec_window_word(mem, win, at), self.spec_window_word(mem, win, at.wrapping_add(2))) {
            (Some(hi), Some(lo)) => Some((hi << 16) | lo),
            _ => None,
        }
    }

    /// The long word in the next two extension words.
    pub fn window_long(&self, mem: &[u8], win: Win, at: u32) -> (r: Option<u32>)
        ensures
            r == self.spec_window_long(mem@, win, at),
    {
        match (self.window_word(mem, win, at), self.window_word(mem, win, at.wrapping_add(2))) {
            (Some(hi), Some(lo)) => Some((hi << 16) | lo),
            _ => None,
        }
    }

    /// Resolve an immediate operand.
    pub open spec fn spec_resolve_immediate(&self, mem: Seq<u8>, win: Win, size: Size, ctx: Ctx) -> Option<(u32, Ctx)> {
        match size {
            Size::Long => {
                match self.spec_window_long(mem, win, ctx.next_ext) {
                    Some(v) => Some((v, past_ext(past_ext(ctx)))),
                    None => None,
                }
            },
            _ => {
                match self.spec_window_word(mem, win, ctx.next_ext) {
                    Some(v) => Some((v & size.mask(), past_ext(ctx))),
                    None => None,
                }
            },
        }
    }

    /// Resolve an immediate operand.
    pub fn resolve_immediate(&self, mem: &[u8], win: Win, size: Size, ctx: Ctx) -> (r: Option<(u32, Ctx)>)
        ensures
            r == self.spec_resolve_immediate(mem@, win, size, ctx),
    {
        match size {
            Size::Long => {
                match self.window_long(mem, win, ctx.next_ext) {
                    Some(v) => Some((v, past_ext(past_ext(ctx)))),
                    None => None,
                }
            },
            _ => {
                match self.window_word(mem, win, ctx.next_ext) {
                    Some(v) => Some((v & size.mask(), past_ext(ctx))),
                    None => None,
                }
            },
        }
    }

    /// Resolve one effective address to a location, reading extension words
    /// and recording deferred register updates.
    #[verifier::opaque]
    pub open spec fn spec_resolve(&self, mem: Seq<u8>, win: Win, ea: FastEa, size: Size, ctx: Ctx) -> Option<(Loc, Ctx)> {
        match ea {
            FastEa::DataReg(r) => Some((Loc::Data(r), ctx)),
            FastEa::AddrReg(r) => Some((Loc::Addr(r), ctx)),
            FastEa::AnInd(r) => self.at_memory(win, ctx, self.pending_a(ctx.pending, r), size),
            FastEa::AnPostInc(r) => {
                let at: u32 = self.pending_a(ctx.pending, r);
                match self.locate(win, ctx.aligned_only, at, size) {
                    Some(off) => Some((Loc::Mem(off), with_pending(ctx, r, at.wrapping_add(ea_step(size, r))))),
                    None => None,
                }
            },
            FastEa::AnPreDec(r) => {
                let at: u32 = self.pending_a(ctx.pending, r).wrapping_sub(ea_step(size, r));
                match self.locate(win, ctx.aligned_only, at, size) {
                    Some(off) => Some((Loc::Mem(off), with_pending(ctx, r, at))),
                    None => None,
                }
            },
            FastEa::Imm => {
                match self.spec_resolve_immediate(mem, win, size, ctx) {
                    Some(v) => Some((Loc::Imm(v.0), v.1)),
                    None => None,
                }
            },
            _ => {
                match self.spec_resolve_control_addr(mem, win, ea, ctx) {
                    Some(at) => self.at_memory(win, at.1, at.0, size),
                    None => None,
                }
            },
        }
    }

    /// Resolve one effective address to a location, reading extension words
    /// and recording deferred register updates.
    pub fn resolve(&self, mem: &[u8], win: Win, ea: FastEa, size: Size, ctx: Ctx) -> (r: Option<(Loc, Ctx)>)
        ensures
            r == self.spec_resolve(mem@, win, ea, size, ctx),
    {
        proof {
            reveal(CpuCore::spec_resolve);
        }
        match ea {
            FastEa::DataReg(r) => Some((Loc::Data(r), ctx)),
            FastEa::AddrReg(r) => Some((Loc::Addr(r), ctx)),
            FastEa::AnInd(r) => self.at_memory(win, ctx, self.pending_a(ctx.pending, r), size),
            FastEa::AnPostInc(r) => {
                let at: u32 = self.pending_a(ctx.pending, r);
                match self.locate(win, ctx.aligned_only, at, size) {
                    Some(off) => Some((Loc::Mem(off), with_pending(ctx, r, at.wrapping_add(ea_step(size, r))))),
                    None => None,
                }
            },
            FastEa::AnPreDec(r) => {
                let at: u32 = self.pending_a(ctx.pending, r).wrapping_sub(ea_step(size, r));
                match self.locate(win, ctx.aligned_only, at, size) {
                    Some(off) => Some((Loc::Mem(off), with_pending(ctx, r, at))),
                    None => None,
                }
            },
            FastEa::Imm => {
                match self.resolve_immediate(mem, win, size, ctx) {
                    Some(v) => Some((Loc::Imm(v.0), v.1)),
                    None => None,
                }
            },
            _ => {
                match self.resolve_control_addr(mem, win, ea, ctx) {
                    Some(at) => self.at_memory(win, at.1, at.0, size),
                    None => None,
                }
            },
        }
    }

    /// Resolve an effective address that is calculated without touching a
    /// register to an unmasked address.
    #[verifier::opaque]
    pub open spec fn spec_resolve_control_addr(&self, mem: Seq<u8>, win: Win, ea: FastEa, ctx: Ctx) -> Option<(u32, Ctx)> {
        match ea {
            FastEa::AbsL => {
                match self.spec_window_long(mem, win, ctx.next_ext) {
                    Some(v) => Some((v, past_ext(past_ext(ctx)))),
                    None => None,
                }
            },
            _ => {
                match ea {
                    FastEa::AnInd(r) => Some((self.pending_a(ctx.pending, r), ctx)),
                    _ => {
                        match self.spec_window_word(mem, win, ctx.next_ext) {
                            None => None,
                            Some(ext) => {
                                match ea {
                                    FastEa::AnDisp(r) => {
                                        Some(
                        (self.pending_a(ctx.pending, r).wrapping_add(sext16(ext as u16)), past_ext(ctx)),
                    )
                                    },
                                    FastEa::AnIndex(r) => {
                                        match self.brief_index(ctx.pending, self.pending_a(ctx.pending, r), ext) {
                                            Some(at) => Some((at, past_ext(ctx))),
                                            None => None,
                                        }
                                    },
                                    FastEa::AbsW => Some((sext16(ext as u16), past_ext(ctx))),
                                    FastEa::PcDisp => Some((ctx.next_ext.wrapping_add(sext16(ext as u16)), past_ext(ctx))),
                                    FastEa::PcIndex => {
                                        match self.brief_index(ctx.pending, ctx.next_ext, ext) {
                                            Some(at) => Some((at, past_ext(ctx))),
                                            None => None,
                                        }
                                    },
                                    _ => None,
                                }
                            },
                        }
                    },
                }
            },
        }
    }

    /// Resolve an effective address that is calculated without touching a
    /// register to an unmasked address.
    pub fn resolve_control_addr(&self, mem: &[u8], win: Win, ea: FastEa, ctx: Ctx) -> (r: Option<(u32, Ctx)>)
        ensures
            r == self.spec_resolve_control_addr(mem@, win, ea, ctx),
    {
        proof {
            reveal(CpuCore::spec_resolve_control_addr);
        }
        if let FastEa::AbsL = ea {
            match self.window_long(mem, win, ctx.next_ext) {
                Some(v) => return Some((v, past_ext(past_ext(ctx)))),
                None => return None,
            }
        }
        if let FastEa::AnInd(r) = ea {
            return Some((self.pending_a(ctx.pending, r), ctx));
        }
        match self.window_word(mem, win, ctx.next_ext) {
            None => None,
            Some(ext) => {
                match ea {
                    FastEa::AnDisp(r) => Some(
                        (self.pending_a(ctx.pending, r).wrapping_add(sext16(ext as u16)), past_ext(ctx)),
                    ),
                    FastEa::AnIndex(r) => {
                        match self.brief_index(ctx.pending, self.pending_a(ctx.pending, r), ext) {
                            Some(at) => Some((at, past_ext(ctx))),
                            None => None,
                        }
                    },
                    FastEa::AbsW => Some((sext16(ext as u16), past_ext(ctx))),
                    FastEa::PcDisp => Some((ctx.next_ext.wrapping_add(sext16(ext as u16)), past_ext(ctx))),
                    FastEa::PcIndex => {
                        match self.brief_index(ctx.pending, ctx.next_ext, ext) {
                            Some(at) => Some((at, past_ext(ctx))),
                            None => None,
                        }
                    },
                    _ => None,
                }
            },
        }
    }

    /// The operand at a location.
    pub open spec fn spec_load(&self, mem: Seq<u8>, loc: Loc, size: Size) -> u32 {
        match loc {
            Loc::Data(r) => self.d(r as usize) & size.mask(),
            Loc::Addr(r) => self.a(r as usize) & size.mask(),
            Loc::Mem(off) => spec_read_window(mem, off, size),
            Loc::Imm(v) => v & size.mask(),
        }
    }

    /// The operand at a location.
    pub fn load(&self, mem: &[u8], loc: Loc, size: Size) -> (r: u32)
        ensures
            r == self.spec_load(mem@, loc, size),
    {
        match loc {
            Loc::Data(r) => self.d(r as usize) & size.mask(),
            Loc::Addr(r) => self.a(r as usize) & size.mask(),
            Loc::Mem(off) => read_window(mem, off, size),
            Loc::Imm(v) => v & size.mask(),
        }
    }

    /// Store an operand. An immediate is never a destination.
    pub fn store(&mut self, mem: &mut [u8], loc: Loc, size: Size, value: u32)
        ensures
            Window::of(*final(self), final(mem)@) == Window::of(*old(self), old(mem)@).store(loc, size, value),
    {
        proof {
            reveal(Window::store);
        }
        match loc {
            Loc::Data(r) => {
                self.write_data_reg(r as usize, size, value);
            },
            Loc::Addr(r) => {
                self.set_a(r as usize, (self.a(r as usize) & !size.mask()) | (value & size.mask()));
            },
            Loc::Mem(off) => {
                self.put(mem, off, size, value);
            },
            Loc::Imm(_) => {},
        }
    }

    /// Set the flags of a read-modify-write operation.
    #[verifier::opaque]
    pub open spec fn spec_set_binary_flags(self, op: BinaryOp, src: u32, dst: u32, result: u32, size: Size) -> CpuCore {
        match op {
            BinaryOp::Add => {
                let c = self.spec_set_add_flags(src, dst, result, size);
                c
            },
            BinaryOp::Sub => {
                let c = self.spec_set_sub_flags(src, dst, result, size);
                c
            },
            BinaryOp::Compare => {
                let c = self.spec_set_compare_flags(src, dst, result, size);
                c
            },
            _ => {
                let c = self.spec_set_logic_flags(result, size);
                c
            },
        }
    }

    /// Set the flags of a read-modify-write operation.
    pub fn set_binary_flags(&mut self, op: BinaryOp, src: u32, dst: u32, result: u32, size: Size)
        ensures
            *final(self) == old(self).spec_set_binary_flags(op, src, dst, result, size),
    {
        proof {
            reveal(CpuCore::spec_set_binary_flags);
        }
        match op {
            BinaryOp::Add => {
                self.set_add_flags(src, dst, result, size);
            },
            BinaryOp::Sub => {
                self.set_sub_flags(src, dst, result, size);
            },
            BinaryOp::Compare => {
                self.set_compare_flags(src, dst, result, size);
            },
            _ => {
                self.set_logic_flags(result, size);
            },
        }
    }

    /// MOVE and MOVEA.
    pub fn mem_move(&mut self, mem: &mut [u8], win: Win, size: Size, src: FastEa, dst: FastEa) -> (r: bool)
        ensures
            (Window::of(*final(self), final(mem)@), r) == Window::of(*old(self), old(mem)@).mem_move(win, size, src, dst),
    {
        proof {
            reveal(Window::mem_move);
        }
        match self.resolve(mem, win, src, size, self.start_ctx()) {
            None => false,
            Some(from) => {
                let value: u32 = self.load(mem, from.0, size);
                if let FastEa::AddrReg(r) = dst {
                    self.commit(from.1.pending);
                    self.set_a(r as usize, if size == Size::Word { sign_extend(size, value) } else { value });
                    self.pc = from.1.next_ext;
                    return true;
                }
                match self.resolve(mem, win, dst, size, from.1) {
                    None => false,
                    Some(to) => {
                        self.commit(to.1.pending);
                        self.store(mem, to.0, size, value);
                        self.set_logic_flags(value, size);
                        self.pc = to.1.next_ext;
                        true
                    },
                }
            },
        }
    }

    /// ADD, SUB, AND, OR and CMP of an operand to a data register.
    pub fn mem_alu_to_reg(&mut self, mem: &mut [u8], win: Win, op: BinaryOp, size: Size, src: FastEa, dst: u8) -> (r: bool)
        ensures
            (Window::of(*final(self), final(mem)@), r) == Window::of(*old(self), old(mem)@).mem_alu_to_reg(win, op, size, src, dst),
    {
        proof {
            reveal(Window::mem_alu_to_reg);
        }
        match self.resolve(mem, win, src, size, self.start_ctx()) {
            None => false,
            Some(from) => {
                let value: u32 = self.load(mem, from.0, size);
                self.commit(from.1.pending);
                let old_value: u32 = self.d(dst as usize) & size.mask();
                self.apply_binary_to_reg(op, size, value, old_value, dst as usize);
                self.pc = from.1.next_ext;
                true
            },
        }
    }

    /// An operation of `src` to the operand at `ea`; a comparison stores
    /// nothing.
    pub fn mem_modify(&mut self, mem: &mut [u8], win: Win, op: BinaryOp, size: Size, src: u32, ea: FastEa, ctx: Ctx) -> (r: bool)
        ensures
            (Window::of(*final(self), final(mem)@), r) == Window::of(*old(self), old(mem)@).mem_modify(win, op, size, src, ea, ctx),
    {
        proof {
            reveal(Window::mem_modify);
        }
        match self.resolve(mem, win, ea, size, ctx) {
            None => false,
            Some(to) => {
                let old_value: u32 = self.load(mem, to.0, size);
                let result: u32 = binary_result(op, src, old_value);
                self.commit(to.1.pending);
                if op != BinaryOp::Compare {
                    self.store(mem, to.0, size, result & size.mask());
                }
                self.set_binary_flags(op, src, old_value, result, size);
                self.pc = to.1.next_ext;
                true
            },
        }
    }

    /// ADDA, SUBA and CMPA.
    pub fn mem_alu_addr(&mut self, mem: &mut [u8], win: Win, op: AddrOp, size: Size, src: FastEa, dst: u8) -> (r: bool)
        ensures
            (Window::of(*final(self), final(mem)@), r) == Window::of(*old(self), old(mem)@).mem_alu_addr(win, op, size, src, dst),
    {
        proof {
            reveal(Window::mem_alu_addr);
        }
        match self.resolve(mem, win, src, size, self.start_ctx()) {
            None => false,
            Some(from) => {
                let value: u32 = self.load(mem, from.0, size);
                self.commit(from.1.pending);
                self.apply_addr_op(op, size, value, dst as usize);
                self.pc = from.1.next_ext;
                true
            },
        }
    }

    /// ADDI, SUBI, ANDI, ORI, EORI and CMPI.
    pub fn mem_alu_imm(&mut self, mem: &mut [u8], win: Win, op: BinaryOp, size: Size, dst: FastEa) -> (r: bool)
        ensures
            (Window::of(*final(self), final(mem)@), r) == Window::of(*old(self), old(mem)@).mem_alu_imm(win, op, size, dst),
    {
        proof {
            reveal(Window::mem_alu_imm);
        }
        match self.resolve_immediate(mem, win, size, self.start_ctx()) {
            None => false,
            Some(imm) => self.mem_modify(mem, win, op, size, imm.0, dst, imm.1),
        }
    }

    /// TST.
    pub fn mem_tst(&mut self, mem: &mut [u8], win: Win, size: Size, ea: FastEa) -> (r: bool)
        ensures
            (Window::of(*final(self), final(mem)@), r) == Window::of(*old(self), old(mem)@).mem_tst(win, size, ea),
    {
        proof {
            reveal(Window::mem_tst);
        }
        match self.resolve(mem, win, ea, size, self.start_ctx()) {
            None => false,
            Some(at) => {
                let value: u32 = self.load(mem, at.0, size);
                self.commit(at.1.pending);
                self.set_logic_flags(value, size);
                self.pc = at.1.next_ext;
                true
            },
        }
    }

    /// CLR.
    pub fn mem_clr(&mut self, mem: &mut [u8], win: Win, size: Size, ea: FastEa) -> (r: bool)
        ensures
            (Window::of(*final(self), final(mem)@), r) == Window::of(*old(self), old(mem)@).mem_clr(win, size, ea),
    {
        proof {
            reveal(Window::mem_clr);
        }
        match self.resolve(mem, win, ea, size, self.start_ctx()) {
            None => false,
            Some(at) => {
                self.commit(at.1.pending);
                self.store(mem, at.0, size, 0);
                self.set_logic_flags(0, size);
                self.pc = at.1.next_ext;
                true
            },
        }
    }

    /// NEG.
    pub fn mem_neg(&mut self, mem: &mut [u8], win: Win, size: Size, ea: FastEa) -> (r: bool)
        ensures
            (Window::of(*final(self), final(mem)@), r) == Window::of(*old(self), old(mem)@).mem_neg(win, size, ea),
    {
        proof {
            reveal(Window::mem_neg);
        }
        match self.resolve(mem, win, ea, size, self.start_ctx()) {
            None => false,
            Some(at) => {
                let value: u32 = self.load(mem, at.0, size);
                let result: u32 = 0u32.wrapping_sub(value);
                self.commit(at.1.pending);
                self.store(mem, at.0, size, result & size.mask());
                self.set_sub_flags(value, 0, result, size);
                self.pc = at.1.next_ext;
                true
            },
        }
    }

    /// NOT.
    pub fn mem_not(&mut self, mem: &mut [u8], win: Win, size: Size, ea: FastEa) -> (r: bool)
        ensures
            (Window::of(*final(self), final(mem)@), r) == Window::of(*old(self), old(mem)@).mem_not(win, size, ea),
    {
        proof {
            reveal(Window::mem_not);
        }
        match self.resolve(mem, win, ea, size, self.start_ctx()) {
            None => false,
            Some(at) => {
                let value: u32 = self.load(mem, at.0, size);
                let result: u32 = !value & size.mask();
                self.commit(at.1.pending);
                self.store(mem, at.0, size, result);
                self.set_logic_flags(result, size);
                self.pc = at.1.next_ext;
                true
            },
        }
    }

    /// BTST, BCHG, BCLR and BSET of bit `bit` modulo 8.
    pub fn mem_bit(&mut self, mem: &mut [u8], win: Win, op: BitOp, bit: u32, ea: FastEa, ctx: Ctx) -> (r: bool)
        ensures
            (Window::of(*final(self), final(mem)@), r) == Window::of(*old(self), old(mem)@).mem_bit(win, op, bit, ea, ctx),
    {
        proof {
            reveal(Window::mem_bit);
        }
        match self.resolve(mem, win, ea, Size::Byte, ctx) {
            None => false,
            Some(at) => {
                let mask: u32 = bit_mask(bit & 7);
                let value: u32 = self.load(mem, at.0, Size::Byte);
                self.commit(at.1.pending);
                self.ccr.not_z_flag = flag(value & mask != 0, 1);
                if op != BitOp::Test {
                    self.store(mem, at.0, Size::Byte, bit_result(op, value, mask));
                }
                self.pc = at.1.next_ext;
                true
            },
        }
    }

    /// BTST, BCHG, BCLR and BSET with the bit number in a register or in an
    /// extension word.
    pub fn mem_bit_op(&mut self, mem: &mut [u8], win: Win, op: BitOp, bit: BitSource, ea: FastEa) -> (r: bool)
        ensures
            (Window::of(*final(self), final(mem)@), r) == Window::of(*old(self), old(mem)@).mem_bit_op(win, op, bit, ea),
    {
        proof {
            reveal(Window::mem_bit_op);
        }
        match bit {
            BitSource::Reg(r) => self.mem_bit(mem, win, op, self.d(r as usize), ea, self.start_ctx()),
            BitSource::Imm => {
                match self.window_word(mem, win, self.pc) {
                    None => false,
                    Some(v) => self.mem_bit(mem, win, op, v, ea, past_ext(self.start_ctx())),
                }
            },
        }
    }

    /// CMPM.
    pub fn mem_compare(&mut self, mem: &mut [u8], win: Win, size: Size, src: u8, dst: u8) -> (r: bool)
        ensures
            (Window::of(*final(self), final(mem)@), r) == Window::of(*old(self), old(mem)@).mem_compare(win, size, src, dst),
    {
        proof {
            reveal(Window::mem_compare);
        }
        match self.resolve(mem, win, FastEa::AnPostInc(src), size, self.start_ctx()) {
            None => false,
            Some(from) => {
                let value: u32 = self.load(mem, from.0, size);
                match self.resolve(mem, win, FastEa::AnPostInc(dst), size, from.1) {
                    None => false,
                    Some(to) => {
                        let other: u32 = self.load(mem, to.0, size);
                        self.commit(to.1.pending);
                        self.set_compare_flags(value, other, other.wrapping_sub(value), size);
                        self.pc = to.1.next_ext;
                        true
                    },
                }
            },
        }
    }

    /// LEA.
    pub fn mem_lea(&mut self, mem: &mut [u8], win: Win, reg: u8, ea: FastEa) -> (r: bool)
        ensures
            (Window::of(*final(self), final(mem)@), r) == Window::of(*old(self), old(mem)@).mem_lea(win, reg, ea),
    {
        proof {
            reveal(Window::mem_lea);
        }
        match self.resolve_control_addr(mem, win, ea, self.start_ctx()) {
            None => false,
            Some(at) => {
                self.set_a(reg as usize, at.0);
                self.pc = at.1.next_ext;
                true
            },
        }
    }

    /// Push a long word onto the stack.
    pub fn mem_push(&mut self, mem: &mut [u8], win: Win, aligned_only: bool, value: u32) -> (r: bool)
        ensures
            (Window::of(*final(self), final(mem)@), r) == Window::of(*old(self), old(mem)@).mem_push(win, aligned_only, value),
    {
        proof {
            reveal(Window::mem_push);
        }
        let sp: u32 = self.a(7).wrapping_sub(4);
        match self.locate(win, aligned_only, sp, Size::Long) {
            None => false,
            Some(off) => {
                self.put(mem, off, Size::Long, value);
                self.set_a(7, sp);
                true
            },
        }
    }

    /// PEA.
    pub fn mem_pea(&mut self, mem: &mut [u8], win: Win, ea: FastEa) -> (r: bool)
        ensures
            (Window::of(*final(self), final(mem)@), r) == Window::of(*old(self), old(mem)@).mem_pea(win, ea),
    {
        proof {
            reveal(Window::mem_pea);
        }
        match self.resolve_control_addr(mem, win, ea, self.start_ctx()) {
            None => false,
            Some(at) => {
                let pushed: bool = self.mem_push(mem, win, at.1.aligned_only, at.0);
                if pushed {
                    self.pc = at.1.next_ext;
                }
                pushed
            },
        }
    }

    /// JMP. PC takes the address unmasked; the next fetch masks it.
    pub fn mem_jmp(&mut self, mem: &mut [u8], win: Win, ea: FastEa) -> (r: bool)
        ensures
            (Window::of(*final(self), final(mem)@), r) == Window::of(*old(self), old(mem)@).mem_jmp(win, ea),
    {
        proof {
            reveal(Window::mem_jmp);
        }
        match self.resolve_control_addr(mem, win, ea, self.start_ctx()) {
            None => false,
            Some(at) => {
                self.run.change_of_flow = true;
                self.pc = at.0;
                true
            },
        }
    }

    /// JSR.
    pub fn mem_jsr(&mut self, mem: &mut [u8], win: Win, ea: FastEa) -> (r: bool)
        ensures
            (Window::of(*final(self), final(mem)@), r) == Window::of(*old(self), old(mem)@).mem_jsr(win, ea),
    {
        proof {
            reveal(Window::mem_jsr);
        }
        match self.resolve_control_addr(mem, win, ea, self.start_ctx()) {
            None => false,
            Some(at) => {
                let pushed: bool = self.mem_push(mem, win, at.1.aligned_only, at.1.next_ext);
                if pushed {
                    self.run.change_of_flow = true;
                    self.pc = at.0;
                }
                pushed
            },
        }
    }

    /// Execute an operation through the general operand resolution.
    #[verifier::spinoff_prover]
    pub fn general_mem_op(&mut self, mem: &mut [u8], win: Win, op: DecodedMemOp) -> (r: bool)
        ensures
            (Window::of(*final(self), final(mem)@), r) == Window::of(*old(self), old(mem)@).general_mem_op(win, op),
    {
        proof {
            reveal(Window::general_mem_op);
        }
        match op {
            DecodedMemOp::Move { size, src, dst } => self.mem_move(mem, win, size, src, dst),
            DecodedMemOp::AluToReg { op: o, size, src, dst } => self.mem_alu_to_reg(mem, win, o, size, src, dst),
            DecodedMemOp::AluToMem { op: o, size, src, dst } => {
                self.mem_modify(mem, win, o, size, self.d(src as usize) & size.mask(), dst, self.start_ctx())
            },
            DecodedMemOp::AluAddr { op: o, size, src, dst } => self.mem_alu_addr(mem, win, o, size, src, dst),
            DecodedMemOp::AluImm { op: o, size, dst } => self.mem_alu_imm(mem, win, o, size, dst),
            DecodedMemOp::AddqSubq { data, size, ea, is_sub } => {
                let o: BinaryOp = if is_sub {
                    BinaryOp::Sub
                } else {
                    BinaryOp::Add
                };
                self.mem_modify(mem, win, o, size, data, ea, self.start_ctx())
            },
            DecodedMemOp::Tst { size, ea } => self.mem_tst(mem, win, size, ea),
            DecodedMemOp::Clr { size, ea } => self.mem_clr(mem, win, size, ea),
            DecodedMemOp::Neg { size, ea } => self.mem_neg(mem, win, size, ea),
            DecodedMemOp::Not { size, ea } => self.mem_not(mem, win, size, ea),
            DecodedMemOp::BitMem { op: o, bit, ea } => self.mem_bit_op(mem, win, o, bit, ea),
            DecodedMemOp::CompareMem { size, src, dst } => self.mem_compare(mem, win, size, src, dst),
            DecodedMemOp::Lea { reg, ea } => self.mem_lea(mem, win, reg, ea),
            DecodedMemOp::Pea { ea } => self.mem_pea(mem, win, ea),
            DecodedMemOp::Jmp { ea } => self.mem_jmp(mem, win, ea),
            DecodedMemOp::Jsr { ea } => self.mem_jsr(mem, win, ea),
            _ => false,
        }
    }

    /// The source of a MOVE without extension words: its location, and the
    /// address register it steps. The inner `None` is a miss.
    pub open spec fn spec_plain_source(&self, win: Win, size: Size, src: FastEa) -> Option<Option<(Loc, Option<(u8, u32)>)>> {
        let aligned_only: bool = self.model.is_pre_68020;
        match src {
            FastEa::DataReg(r) => Some(Some((Loc::Data(r), None))),
            FastEa::AddrReg(r) => Some(Some((Loc::Addr(r), None))),
            FastEa::AnInd(r) => {
                match self.locate(win, aligned_only, self.a(r as usize), size) {
                    Some(off) => Some(Some((Loc::Mem(off), None))),
                    None => Some(None),
                }
            },
            FastEa::AnPostInc(r) => {
                let at: u32 = self.a(r as usize);
                match self.locate(win, aligned_only, at, size) {
                    Some(off) => Some(Some((Loc::Mem(off), Some((r, at.wrapping_add(ea_step(size, r))))))),
                    None => Some(None),
                }
            },
            FastEa::AnPreDec(r) => {
                let at: u32 = self.a(r as usize).wrapping_sub(ea_step(size, r));
                match self.locate(win, aligned_only, at, size) {
                    Some(off) => Some(Some((Loc::Mem(off), Some((r, at))))),
                    None => Some(None),
                }
            },
            _ => None,
        }
    }

    /// The source of a MOVE without extension words: its location, and the
    /// address register it steps. The inner `None` is a miss.
    #[verifier::when_used_as_spec(spec_plain_source)]
    pub fn plain_source(&self, win: Win, size: Size, src: FastEa) -> (r: Option<Option<(Loc, Option<(u8, u32)>)>>)
        ensures
            r == self.spec_plain_source(win, size, src),
    {
        let aligned_only: bool = self.model.is_pre_68020;
        match src {
            FastEa::DataReg(r) => Some(Some((Loc::Data(r), None))),
            FastEa::AddrReg(r) => Some(Some((Loc::Addr(r), None))),
            FastEa::AnInd(r) => {
                match self.locate(win, aligned_only, self.a(r as usize), size) {
                    Some(off) => Some(Some((Loc::Mem(off), None))),
                    None => Some(None),
                }
            },
            FastEa::AnPostInc(r) => {
                let at: u32 = self.a(r as usize);
                match self.locate(win, aligned_only, at, size) {
                    Some(off) => Some(Some((Loc::Mem(off), Some((r, at.wrapping_add(ea_step(size, r))))))),
                    None => Some(None),
                }
            },
            FastEa::AnPreDec(r) => {
                let at: u32 = self.a(r as usize).wrapping_sub(ea_step(size, r));
                match self.locate(win, aligned_only, at, size) {
                    Some(off) => Some(Some((Loc::Mem(off), Some((r, at))))),
                    None => Some(None),
                }
            },
            _ => None,
        }
    }

    /// An address register, seen past the step of a source operand.
    pub open spec fn spec_stepped_a(&self, step: Option<(u8, u32)>, reg: u8) -> u32 {
        match step {
            Some(slot) if slot.0 == reg => slot.1,
            _ => self.a(reg as usize),
        }
    }

    /// An address register, seen past the step of a source operand.
    #[verifier::when_used_as_spec(spec_stepped_a)]
    pub fn stepped_a(&self, step: Option<(u8, u32)>, reg: u8) -> (r: u32)
        ensures
            r == self.spec_stepped_a(step, reg),
    {
        match step {
            Some(slot) if slot.0 == reg => slot.1,
            _ => self.a(reg as usize),
        }
    }

    /// Apply the step of a source operand.
    #[verifier::opaque]
    pub open spec fn spec_apply_step(self, step: Option<(u8, u32)>) -> CpuCore {
        match step {
            Some(slot) => {
                let c = self.spec_set_a(slot.0 as usize, slot.1);
                c
            },
            _ => self,
        }
    }

    /// Apply the step of a source operand.
    pub fn apply_step(&mut self, step: Option<(u8, u32)>)
        ensures
            *final(self) == old(self).spec_apply_step(step),
    {
        proof {
            reveal(CpuCore::spec_apply_step);
        }
        if let Some(slot) = step {
            self.set_a(slot.0 as usize, slot.1);
        }
    }

    /// The memory destination of a MOVE without extension words: its offset,
    /// and the address register it steps. The inner `None` is a miss.
    pub open spec fn spec_plain_destination(&self, win: Win, size: Size, dst: FastEa, step: Option<(u8, u32)>) -> Option<Option<(usize, Option<(u8, u32)>)>> {
        let aligned_only: bool = self.model.is_pre_68020;
        match dst {
            FastEa::AnInd(r) => {
                match self.locate(win, aligned_only, self.stepped_a(step, r), size) {
                    Some(off) => Some(Some((off, None))),
                    None => Some(None),
                }
            },
            FastEa::AnPostInc(r) => {
                let at: u32 = self.stepped_a(step, r);
                match self.locate(win, aligned_only, at, size) {
                    Some(off) => Some(Some((off, Some((r, at.wrapping_add(ea_step(size, r))))))),
                    None => Some(None),
                }
            },
            FastEa::AnPreDec(r) => {
                let at: u32 = self.stepped_a(step, r).wrapping_sub(ea_step(size, r));
                match self.locate(win, aligned_only, at, size) {
                    Some(off) => Some(Some((off, Some((r, at))))),
                    None => Some(None),
                }
            },
            _ => None,
        }
    }

    /// The memory destination of a MOVE without extension words: its offset,
    /// and the address register it steps. The inner `None` is a miss.
    #[verifier::when_used_as_spec(spec_plain_destination)]
    pub fn plain_destination(&self, win: Win, size: Size, dst: FastEa, step: Option<(u8, u32)>) -> (r: Option<Option<(usize, Option<(u8, u32)>)>>)
        ensures
            r == self.spec_plain_destination(win, size, dst, step),
    {
        let aligned_only: bool = self.model.is_pre_68020;
        match dst {
            FastEa::AnInd(r) => {
                match self.locate(win, aligned_only, self.stepped_a(step, r), size) {
                    Some(off) => Some(Some((off, None))),
                    None => Some(None),
                }
            },
            FastEa::AnPostInc(r) => {
                let at: u32 = self.stepped_a(step, r);
                match self.locate(win, aligned_only, at, size) {
                    Some(off) => Some(Some((off, Some((r, at.wrapping_add(ea_step(size, r))))))),
                    None => Some(None),
                }
            },
            FastEa::AnPreDec(r) => {
                let at: u32 = self.stepped_a(step, r).wrapping_sub(ea_step(size, r));
                match self.locate(win, aligned_only, at, size) {
                    Some(off) => Some(Some((off, Some((r, at))))),
                    None => Some(None),
                }
            },
            _ => None,
        }
    }

    /// MOVE for the register and register-indirect forms, without the general
    /// resolution. `None` when either operand has another form, `Some(false)`
    /// on a window or alignment miss, `Some(true)` when executed.
    pub fn fast_move(&mut self, mem: &mut [u8], win: Win, size: Size, src: FastEa, dst: FastEa) -> (r: Option<bool>)
        ensures
            (Window::of(*final(self), final(mem)@), r) == Window::of(*old(self), old(mem)@).fast_move(win, size, src, dst),
    {
        proof {
            reveal(Window::fast_move);
        }
        match self.plain_source(win, size, src) {
            None => None,
            Some(None) => Some(false),
            Some(Some(from)) => {
                let value: u32 = self.load(mem, from.0, size);
                match dst {
                    FastEa::DataReg(r) => {
                        self.apply_step(from.1);
                        self.write_data_reg(r as usize, size, value);
                        self.set_logic_flags(value, size);
                        Some(true)
                    },
                    FastEa::AddrReg(r) => {
                        self.apply_step(from.1);
                        self.set_a(r as usize, if size == Size::Word { sign_extend(size, value) } else { value });
                        Some(true)
                    },
                    _ => {
                        match self.plain_destination(win, size, dst, from.1) {
                            None => None,
                            Some(None) => Some(false),
                            Some(Some(to)) => {
                                self.apply_step(from.1);
                                self.apply_step(to.1);
                                self.put(mem, to.0, size, value);
                                self.set_logic_flags(value, size);
                                Some(true)
                            },
                        }
                    },
                }
            },
        }
    }

    /// Load one register of a word list; gives the offset of the next word.
    #[verifier::opaque]
    pub open spec fn spec_movem_word(self, mem: Seq<u8>, off: usize, mask: u32, reg: usize) -> (CpuCore, usize) {
        if mask & bit_mask(reg as u32 & 31) == 0 {
            (self, off)
        } else {
            let c = self.spec_set_d(reg, sext16(spec_read_window(mem, off, Size::Word) as u16));
            (c, off.wrapping_add(2))
        }
    }

    /// Load one register of a word list; gives the offset of the next word.
    pub fn movem_word(&mut self, mem: &[u8], off: usize, mask: u32, reg: usize) -> (r: usize)
        ensures
            (*final(self), r) == old(self).spec_movem_word(mem@, off, mask, reg),
    {
        proof {
            reveal(CpuCore::spec_movem_word);
        }
        if mask & bit_mask(reg as u32 & 31) == 0 {
            off
        } else {
            self.set_d(reg, sext16(read_window(mem, off, Size::Word) as u16));
            off.wrapping_add(2)
        }
    }

    /// Load the data registers of an eight-bit list, lowest first.
    #[verifier::opaque]
    pub open spec fn spec_movem_words(self, mem: Seq<u8>, off: usize, mask: u32) -> CpuCore {
        let (c, at1) = self.spec_movem_word(mem, off, mask, 0);
        let (c, at2) = c.spec_movem_word(mem, at1, mask, 1);
        let (c, at3) = c.spec_movem_word(mem, at2, mask, 2);
        let (c, at4) = c.spec_movem_word(mem, at3, mask, 3);
        let (c, at5) = c.spec_movem_word(mem, at4, mask, 4);
        let (c, at6) = c.spec_movem_word(mem, at5, mask, 5);
        let (c, at7) = c.spec_movem_word(mem, at6, mask, 6);
        let c = c.spec_movem_word(mem, at7, mask, 7).0;
        c
    }

    /// Load the data registers of an eight-bit list, lowest first.
    pub fn movem_words(&mut self, mem: &[u8], off: usize, mask: u32)
        ensures
            *final(self) == old(self).spec_movem_words(mem@, off, mask),
    {
        proof {
            reveal(CpuCore::spec_movem_words);
        }
        let at1: usize = self.movem_word(mem, off, mask, 0);
        let at2: usize = self.movem_word(mem, at1, mask, 1);
        let at3: usize = self.movem_word(mem, at2, mask, 2);
        let at4: usize = self.movem_word(mem, at3, mask, 3);
        let at5: usize = self.movem_word(mem, at4, mask, 4);
        let at6: usize = self.movem_word(mem, at5, mask, 5);
        let at7: usize = self.movem_word(mem, at6, mask, 6);
        self.movem_word(mem, at7, mask, 7);
    }

    /// Window offset of a span of `bytes` at unmasked address `raw` that does
    /// not run past the end of the address space.
    pub open spec fn spec_locate_span(&self, win: Win, raw: u32, bytes: u32) -> Option<usize> {
        let masked: u32 = self.address(raw);
        if self.model.is_pre_68020 && raw & 1 != 0 {
            None
        } else if masked as u64 + bytes as u64 > self.model.address_mask as u64 + 1 {
            None
        } else {
            window_off(win, masked, bytes)
        }
    }

    /// Window offset of a span of `bytes` at unmasked address `raw` that does
    /// not run past the end of the address space.
    #[verifier::when_used_as_spec(spec_locate_span)]
    pub fn locate_span(&self, win: Win, raw: u32, bytes: u32) -> (r: Option<usize>)
        ensures
            r == self.spec_locate_span(win, raw, bytes),
    {
        let masked: u32 = self.address(raw);
        if self.model.is_pre_68020 && raw & 1 != 0 {
            None
        } else if masked as u64 + bytes as u64 > self.model.address_mask as u64 + 1 {
            None
        } else {
            window_off(win, masked, bytes)
        }
    }

    /// MOVEM.W (An)+ to data registers only. The list and the whole source
    /// span are checked before any register changes.
    pub fn fast_movem_word_postinc(&mut self, mem: &mut [u8], win: Win, base: u8) -> (r: bool)
        ensures
            (Window::of(*final(self), final(mem)@), r) == Window::of(*old(self), old(mem)@).fast_movem_word_postinc(win, base),
    {
        proof {
            reveal(Window::fast_movem_word_postinc);
        }
        match self.window_word(mem, win, self.pc) {
            None => false,
            Some(list) => {
                if list == 0 || list & 0xFF00 != 0 {
                    return false;
                }
                let raw: u32 = self.a(base as usize);
                let bytes: u32 = list_length(list).wrapping_mul(2);
                match self.locate_span(win, raw, bytes) {
                    None => false,
                    Some(off) => {
                        self.movem_words(mem, off, list);
                        self.set_a(base as usize, raw.wrapping_add(bytes));
                        self.pc = self.pc.wrapping_add(2);
                        true
                    },
                }
            },
        }
    }

    /// Window offset of the operand whose displacement word stands at `at`.
    pub open spec fn spec_locate_disp(&self, mem: Seq<u8>, win: Win, at: u32, reg: u8, size: Size) -> Option<usize> {
        match self.spec_window_word(mem, win, at) {
            Some(ext) => {
                self.locate(
                win,
                self.model.is_pre_68020,
                self.a(reg as usize).wrapping_add(sext16(ext as u16)),
                size,
            )
            },
            None => None,
        }
    }

    /// Window offset of the operand whose displacement word stands at `at`.
    pub fn locate_disp(&self, mem: &[u8], win: Win, at: u32, reg: u8, size: Size) -> (r: Option<usize>)
        ensures
            r == self.spec_locate_disp(mem@, win, at, reg, size),
    {
        match self.window_word(mem, win, at) {
            Some(ext) => self.locate(
                win,
                self.model.is_pre_68020,
                self.a(reg as usize).wrapping_add(sext16(ext as u16)),
                size,
            ),
            None => None,
        }
    }

    /// MOVE d16(An) to a register.
    pub fn disp_load(&mut self, mem: &mut [u8], win: Win, size: Size, src: u8, dst: u8, to_address: bool) -> (r: bool)
        ensures
            (Window::of(*final(self), final(mem)@), r) == Window::of(*old(self), old(mem)@).disp_load(win, size, src, dst, to_address),
    {
        proof {
            reveal(Window::disp_load);
        }
        match self.locate_disp(mem, win, self.pc, src, size) {
            None => false,
            Some(off) => {
                let value: u32 = read_window(mem, off, size);
                if to_address {
                    self.set_a(dst as usize, if size == Size::Word { sign_extend(size, value) } else { value });
                } else {
                    self.write_data_reg(dst as usize, size, value);
                    self.set_logic_flags(value, size);
                }
                self.pc = self.pc.wrapping_add(2);
                true
            },
        }
    }

    /// MOVE of a value to d16(An).
    pub fn disp_store(&mut self, mem: &mut [u8], win: Win, size: Size, value: u32, dst: u8) -> (r: bool)
        ensures
            (Window::of(*final(self), final(mem)@), r) == Window::of(*old(self), old(mem)@).disp_store(win, size, value, dst),
    {
        proof {
            reveal(Window::disp_store);
        }
        match self.locate_disp(mem, win, self.pc, dst, size) {
            None => false,
            Some(off) => {
                self.put(mem, off, size, value);
                self.set_logic_flags(value, size);
                self.pc = self.pc.wrapping_add(2);
                true
            },
        }
    }

    /// MOVE d16(An) to -(An).
    pub fn disp_push(&mut self, mem: &mut [u8], win: Win, size: Size, src: u8, dst: u8) -> (r: bool)
        ensures
            (Window::of(*final(self), final(mem)@), r) == Window::of(*old(self), old(mem)@).disp_push(win, size, src, dst),
    {
        proof {
            reveal(Window::disp_push);
        }
        let at: u32 = self.a(dst as usize).wrapping_sub(ea_step(size, dst));
        match (self.locate_disp(mem, win, self.pc, src, size), self.locate(win, self.model.is_pre_68020, at, size)) {
            (Some(from), Some(to)) => {
                let value: u32 = read_window(mem, from, size);
                self.set_a(dst as usize, at);
                self.put(mem, to, size, value);
                self.set_logic_flags(value, size);
                self.pc = self.pc.wrapping_add(2);
                true
            },
            _ => false,
        }
    }

    /// MOVE d16(An) to d16(An).
    pub fn disp_move(&mut self, mem: &mut [u8], win: Win, size: Size, src: u8, dst: u8) -> (r: bool)
        ensures
            (Window::of(*final(self), final(mem)@), r) == Window::of(*old(self), old(mem)@).disp_move(win, size, src, dst),
    {
        proof {
            reveal(Window::disp_move);
        }
        match (
            self.locate_disp(mem, win, self.pc, src, size),
            self.locate_disp(mem, win, self.pc.wrapping_add(2), dst, size),
        ) {
            (Some(from), Some(to)) => {
                let value: u32 = read_window(mem, from, size);
                self.put(mem, to, size, value);
                self.set_logic_flags(value, size);
                self.pc = self.pc.wrapping_add(4);
                true
            },
            _ => false,
        }
    }

    /// TST d16(An).
    pub fn disp_tst(&mut self, mem: &mut [u8], win: Win, size: Size, reg: u8) -> (r: bool)
        ensures
            (Window::of(*final(self), final(mem)@), r) == Window::of(*old(self), old(mem)@).disp_tst(win, size, reg),
    {
        proof {
            reveal(Window::disp_tst);
        }
        match self.locate_disp(mem, win, self.pc, reg, size) {
            None => false,
            Some(off) => {
                self.set_logic_flags(read_window(mem, off, size), size);
                self.pc = self.pc.wrapping_add(2);
                true
            },
        }
    }

    /// CLR d16(An).
    pub fn disp_clr(&mut self, mem: &mut [u8], win: Win, size: Size, reg: u8) -> (r: bool)
        ensures
            (Window::of(*final(self), final(mem)@), r) == Window::of(*old(self), old(mem)@).disp_clr(win, size, reg),
    {
        proof {
            reveal(Window::disp_clr);
        }
        match self.locate_disp(mem, win, self.pc, reg, size) {
            None => false,
            Some(off) => {
                self.put(mem, off, size, 0);
                self.set_logic_flags(0, size);
                self.pc = self.pc.wrapping_add(2);
                true
            },
        }
    }

    /// ADDQ and SUBQ to d16(An).
    pub fn disp_quick(&mut self, mem: &mut [u8], win: Win, data: u32, size: Size, reg: u8, is_sub: bool) -> (r: bool)
        ensures
            (Window::of(*final(self), final(mem)@), r) == Window::of(*old(self), old(mem)@).disp_quick(win, data, size, reg, is_sub),
    {
        proof {
            reveal(Window::disp_quick);
        }
        match self.locate_disp(mem, win, self.pc, reg, size) {
            None => false,
            Some(off) => {
                let old_value: u32 = read_window(mem, off, size);
                if is_sub {
                    let result: u32 = old_value.wrapping_sub(data);
                    self.put(mem, off, size, result & size.mask());
                    self.set_sub_flags(data, old_value, result, size);
                } else {
                    let result: u32 = data.wrapping_add(old_value);
                    self.put(mem, off, size, result & size.mask());
                    self.set_add_flags(data, old_value, result, size);
                }
                self.pc = self.pc.wrapping_add(2);
                true
            },
        }
    }

    /// BTST, BCHG, BCLR and BSET with an immediate bit number on d16(An).
    pub fn disp_bit(&mut self, mem: &mut [u8], win: Win, op: BitOp, reg: u8) -> (r: bool)
        ensures
            (Window::of(*final(self), final(mem)@), r) == Window::of(*old(self), old(mem)@).disp_bit(win, op, reg),
    {
        proof {
            reveal(Window::disp_bit);
        }
        match (
            self.window_word(mem, win, self.pc),
            self.locate_disp(mem, win, self.pc.wrapping_add(2), reg, Size::Byte),
        ) {
            (Some(bit), Some(off)) => {
                let mask: u32 = bit_mask(bit & 7);
                let value: u32 = read_window(mem, off, Size::Byte);
                self.ccr.not_z_flag = flag(value & mask != 0, 1);
                if op != BitOp::Test {
                    self.put(mem, off, Size::Byte, bit_result(op, value, mask));
                }
                self.pc = self.pc.wrapping_add(4);
                true
            },
            _ => false,
        }
    }

    /// The d16(An) forms of MOVE, without the general resolution.
    pub fn fast_disp_move(&mut self, mem: &mut [u8], win: Win, size: Size, src: FastEa, dst: FastEa) -> (r: Option<bool>)
        ensures
            (Window::of(*final(self), final(mem)@), r) == Window::of(*old(self), old(mem)@).fast_disp_move(win, size, src, dst),
    {
        proof {
            reveal(Window::fast_disp_move);
        }
        match (src, dst) {
            (FastEa::AnDisp(s), FastEa::DataReg(d)) => Some(self.disp_load(mem, win, size, s, d, false)),
            (FastEa::AnDisp(s), FastEa::AddrReg(d)) => Some(self.disp_load(mem, win, size, s, d, true)),
            (FastEa::DataReg(s), FastEa::AnDisp(d)) => {
                Some(self.disp_store(mem, win, size, self.d(s as usize) & size.mask(), d))
            },
            (FastEa::AddrReg(s), FastEa::AnDisp(d)) => {
                Some(self.disp_store(mem, win, size, self.a(s as usize) & size.mask(), d))
            },
            (FastEa::AnDisp(s), FastEa::AnPreDec(d)) => Some(self.disp_push(mem, win, size, s, d)),
            (FastEa::AnDisp(s), FastEa::AnDisp(d)) => Some(self.disp_move(mem, win, size, s, d)),
            _ => None,
        }
    }

    /// The operations on d16(An) operands, without the general resolution.
    /// `None` when the operation has another form, `Some(false)` on a window
    /// or alignment miss, `Some(true)` when executed.
    pub fn fast_an_disp(&mut self, mem: &mut [u8], win: Win, op: DecodedMemOp) -> (r: Option<bool>)
        ensures
            (Window::of(*final(self), final(mem)@), r) == Window::of(*old(self), old(mem)@).fast_an_disp(win, op),
    {
        proof {
            reveal(Window::fast_an_disp);
        }
        match op {
            DecodedMemOp::Move { size, src, dst } => self.fast_disp_move(mem, win, size, src, dst),
            DecodedMemOp::Tst { size, ea: FastEa::AnDisp(reg) } => Some(self.disp_tst(mem, win, size, reg)),
            DecodedMemOp::Clr { size, ea: FastEa::AnDisp(reg) } => Some(self.disp_clr(mem, win, size, reg)),
            DecodedMemOp::AddqSubq { data, size, ea: FastEa::AnDisp(reg), is_sub } => {
                Some(self.disp_quick(mem, win, data, size, reg, is_sub))
            },
            DecodedMemOp::BitMem { op: o, bit: BitSource::Imm, ea: FastEa::AnDisp(reg) } => {
                Some(self.disp_bit(mem, win, o, reg))
            },
            _ => None,
        }
    }

    /// DBcc. The displacement is relative to the displacement word.
    pub fn flow_dbcc(&mut self, mem: &mut [u8], win: Win, condition: u8, reg: u8) -> (r: bool)
        ensures
            (Window::of(*final(self), final(mem)@), r) == Window::of(*old(self), old(mem)@).flow_dbcc(win, condition, reg),
    {
        proof {
            reveal(Window::flow_dbcc);
        }
        match self.window_word(mem, win, self.pc) {
            None => false,
            Some(disp) => {
                if !self.test_condition(condition) {
                    let counter: u16 = (self.d(reg as usize) as u16).wrapping_sub(1);
                    self.set_d(reg as usize, (self.d(reg as usize) & 0xFFFF_0000) | counter as u32);
                    if counter != 0xFFFF {
                        self.pc = self.pc.wrapping_add(sext16(disp as u16));
                        return true;
                    }
                }
                self.pc = self.pc.wrapping_add(2);
                true
            },
        }
    }

    /// RTS.
    pub fn flow_rts(&mut self, mem: &mut [u8], win: Win) -> (r: bool)
        ensures
            (Window::of(*final(self), final(mem)@), r) == Window::of(*old(self), old(mem)@).flow_rts(win),
    {
        proof {
            reveal(Window::flow_rts);
        }
        let sp: u32 = self.a(7);
        match self.locate(win, self.model.is_pre_68020, sp, Size::Long) {
            None => false,
            Some(off) => {
                self.pc = read_window(mem, off, Size::Long);
                self.set_a(7, sp.wrapping_add(4));
                self.run.change_of_flow = true;
                true
            },
        }
    }

    /// BSR.
    pub fn flow_bsr(&mut self, mem: &mut [u8], win: Win, displacement: i32, length: u32) -> (r: bool)
        ensures
            (Window::of(*final(self), final(mem)@), r) == Window::of(*old(self), old(mem)@).flow_bsr(win, displacement, length),
    {
        proof {
            reveal(Window::flow_bsr);
        }
        let base: u32 = self.pc;
        let disp: Option<u32> = if length == 4 {
            match self.window_word(mem, win, base) {
                Some(v) => Some(sext16(v as u16)),
                None => None,
            }
        } else {
            Some(displacement as u32)
        };
        match disp {
            None => false,
            Some(d) => {
                let pushed: bool = self.mem_push(mem, win, self.model.is_pre_68020, base.wrapping_add(length.wrapping_sub(2)));
                if pushed {
                    self.run.change_of_flow = true;
                    self.pc = base.wrapping_add(d);
                }
                pushed
            },
        }
    }

    /// Bcc and BRA with a word displacement.
    pub fn flow_branch(&mut self, mem: &mut [u8], win: Win, condition: u8) -> (r: bool)
        ensures
            (Window::of(*final(self), final(mem)@), r) == Window::of(*old(self), old(mem)@).flow_branch(win, condition),
    {
        proof {
            reveal(Window::flow_branch);
        }
        match self.window_word(mem, win, self.pc) {
            None => false,
            Some(disp) => {
                if condition == 0 || self.test_condition(condition) {
                    self.run.change_of_flow = true;
                    self.pc = self.pc.wrapping_add(sext16(disp as u16));
                } else {
                    self.pc = self.pc.wrapping_add(2);
                }
                true
            },
        }
    }

    /// DBcc, BSR, RTS and word branches: at most one extension word and no
    /// operand resolution. `None` for any other operation.
    pub fn fast_flow(&mut self, mem: &mut [u8], win: Win, op: DecodedMemOp) -> (r: Option<bool>)
        ensures
            (Window::of(*final(self), final(mem)@), r) == Window::of(*old(self), old(mem)@).fast_flow(win, op),
    {
        proof {
            reveal(Window::fast_flow);
        }
        match op {
            DecodedMemOp::Dbcc { condition, reg } => Some(self.flow_dbcc(mem, win, condition, reg)),
            DecodedMemOp::Rts => Some(self.flow_rts(mem, win)),
            DecodedMemOp::Bsr { displacement, length } => Some(self.flow_bsr(mem, win, displacement, length)),
            DecodedMemOp::BranchWord { condition } => Some(self.flow_branch(mem, win, condition)),
            _ => None,
        }
    }

    /// Execute an operation on a window: first the forms with a path of their
    /// own, then the general resolution.
    pub fn window_mem_op(&mut self, mem: &mut [u8], win: Win, op: DecodedMemOp) -> (r: bool)
        ensures
            (Window::of(*final(self), final(mem)@), r) == Window::of(*old(self), old(mem)@).window_mem_op(win, op),
    {
        proof {
            reveal(Window::window_mem_op);
        }
        if let DecodedMemOp::Move { size, src, dst } = op {
            if let Some(handled) = self.fast_move(mem, win, size, src, dst) {
                return handled;
            }
        }
        if let DecodedMemOp::MovemWordPostInc { base } = op {
            return self.fast_movem_word_postinc(mem, win, base);
        }
        if let Some(handled) = self.fast_an_disp(mem, win, op) {
            return handled;
        }
        if let Some(handled) = self.fast_flow(mem, win, op) {
            return handled;
        }
        self.general_mem_op(mem, win, op)
    }

    /// Execute a decoded memory operation against the window that the bus
    /// lends. `false`, with nothing changed, means that full dispatch must
    /// take over.
    pub fn exec_mem_op(&mut self, mem: &mut [u8], op: DecodedMemOp) -> (r: bool)
        ensures
            (Window::of(*final(self), final(mem)@), r) == Window::of(*old(self), old(mem)@).exec_mem_op(op),
    {
        proof {
            reveal(Window::exec_mem_op);
        }
        match self.active_window(mem.len()) {
            None => false,
            Some(win) => self.window_mem_op(mem, win, op),
        }
    }
}

/// Execute a decoded memory operation against the window `mem`.
pub fn execute_mem_op(cpu: &mut CpuCore, mem: &mut [u8], op: DecodedMemOp) -> (r: bool)
    ensures
        (Window::of(*final(cpu), final(mem)@), r) == Window::of(*old(cpu), old(mem)@).exec_mem_op(op),
{
    cpu.exec_mem_op(mem, op)
}

} // verus!
