//! Instruction times of the 68000.

use vstd::prelude::*;
use crate::ea::{ea_is_memory, is_register_direct, AddressingMode};
use crate::types::Size;

verus! {

/// Time to calculate an effective address and fetch the operand.
pub open spec fn spec_ea_time(mode: AddressingMode, size: Size) -> i32 {
    let base: i32 = match mode {
        AddressingMode::DataDirect(_) | AddressingMode::AddressDirect(_) => 0,
        AddressingMode::AddressIndirect(_)
    | AddressingMode::PostIncrement(_)
    | AddressingMode::Immediate => 4,
        AddressingMode::PreDecrement(_) => 6,
        AddressingMode::Displacement(_)
    | AddressingMode::AbsoluteShort
    | AddressingMode::PcDisplacement => 8,
        AddressingMode::Index(_) | AddressingMode::PcIndex => 10,
        AddressingMode::AbsoluteLong => 12,
    };
    if size == Size::Long && !is_register_direct(mode) {
        base.wrapping_add(4)
    } else {
        base
    }
}

/// Time to calculate an effective address and fetch the operand.
#[verifier::when_used_as_spec(spec_ea_time)]
pub fn ea_time(mode: AddressingMode, size: Size) -> (r: i32)
    ensures
        r == spec_ea_time(mode, size),
{
    let base: i32 = match mode {
        AddressingMode::DataDirect(_) | AddressingMode::AddressDirect(_) => 0,
        AddressingMode::AddressIndirect(_)
        | AddressingMode::PostIncrement(_)
        | AddressingMode::Immediate => 4,
        AddressingMode::PreDecrement(_) => 6,
        AddressingMode::Displacement(_)
        | AddressingMode::AbsoluteShort
        | AddressingMode::PcDisplacement => 8,
        AddressingMode::Index(_) | AddressingMode::PcIndex => 10,
        AddressingMode::AbsoluteLong => 12,
    };
    if size == Size::Long && !is_register_direct(mode) {
        base.wrapping_add(4)
    } else {
        base
    }
}

/// Time that the source operand adds to an instruction.
pub open spec fn spec_ea_source_cycles(mode: AddressingMode, size: Size) -> i32 {
    ea_time(mode, size)
}

/// Time that the source operand adds to an instruction.
#[verifier::when_used_as_spec(spec_ea_source_cycles)]
pub fn ea_source_cycles(mode: AddressingMode, size: Size) -> (r: i32)
    ensures
        r == spec_ea_source_cycles(mode, size),
{
    ea_time(mode, size)
}

/// Time to calculate the destination address of a MOVE and store the operand.
pub open spec fn spec_move_dst_time(mode: AddressingMode, size: Size) -> i32 {
    let base: i32 = match mode {
        AddressingMode::DataDirect(_) | AddressingMode::AddressDirect(_) => 0,
        AddressingMode::AddressIndirect(_)
    | AddressingMode::PostIncrement(_)
    | AddressingMode::PreDecrement(_)
    | AddressingMode::Immediate => 4,
        AddressingMode::Displacement(_)
    | AddressingMode::AbsoluteShort
    | AddressingMode::PcDisplacement => 8,
        AddressingMode::Index(_) | AddressingMode::PcIndex => 10,
        AddressingMode::AbsoluteLong => 12,
    };
    if size == Size::Long && !is_register_direct(mode) {
        base.wrapping_add(4)
    } else {
        base
    }
}

/// Time to calculate the destination address of a MOVE and store the operand.
#[verifier::when_used_as_spec(spec_move_dst_time)]
pub fn move_dst_time(mode: AddressingMode, size: Size) -> (r: i32)
    ensures
        r == spec_move_dst_time(mode, size),
{
    let base: i32 = match mode {
        AddressingMode::DataDirect(_) | AddressingMode::AddressDirect(_) => 0,
        AddressingMode::AddressIndirect(_)
        | AddressingMode::PostIncrement(_)
        | AddressingMode::PreDecrement(_)
        | AddressingMode::Immediate => 4,
        AddressingMode::Displacement(_)
        | AddressingMode::AbsoluteShort
        | AddressingMode::PcDisplacement => 8,
        AddressingMode::Index(_) | AddressingMode::PcIndex => 10,
        AddressingMode::AbsoluteLong => 12,
    };
    if size == Size::Long && !is_register_direct(mode) {
        base.wrapping_add(4)
    } else {
        base
    }
}

/// ORI, ANDI, EORI, ADDI and SUBI.
pub open spec fn spec_immediate_alu_cycles(mode: AddressingMode, size: Size) -> i32 {
    if is_register_direct(mode) {
        if size == Size::Long {
            16
        } else {
            8
        }
    } else if size == Size::Long {
        ea_time(mode, size).wrapping_add(20)
    } else {
        ea_time(mode, size).wrapping_add(12)
    }
}

/// ORI, ANDI, EORI, ADDI and SUBI.
#[verifier::when_used_as_spec(spec_immediate_alu_cycles)]
pub fn immediate_alu_cycles(mode: AddressingMode, size: Size) -> (r: i32)
    ensures
        r == spec_immediate_alu_cycles(mode, size),
{
    if is_register_direct(mode) {
        if size == Size::Long {
            16
        } else {
            8
        }
    } else if size == Size::Long {
        ea_time(mode, size).wrapping_add(20)
    } else {
        ea_time(mode, size).wrapping_add(12)
    }
}

/// CMPI.
pub open spec fn spec_compare_immediate_cycles(mode: AddressingMode, size: Size) -> i32 {
    if is_register_direct(mode) {
        if size == Size::Long {
            14
        } else {
            8
        }
    } else if size == Size::Long {
        ea_time(mode, size).wrapping_add(12)
    } else {
        ea_time(mode, size).wrapping_add(8)
    }
}

/// CMPI.
#[verifier::when_used_as_spec(spec_compare_immediate_cycles)]
pub fn compare_immediate_cycles(mode: AddressingMode, size: Size) -> (r: i32)
    ensures
        r == spec_compare_immediate_cycles(mode, size),
{
    if is_register_direct(mode) {
        if size == Size::Long {
            14
        } else {
            8
        }
    } else if size == Size::Long {
        ea_time(mode, size).wrapping_add(12)
    } else {
        ea_time(mode, size).wrapping_add(8)
    }
}

/// ADD, SUB, AND and OR to a data register.
pub open spec fn spec_alu_ea_dn_cycles(mode: AddressingMode, size: Size) -> i32 {
    if size == Size::Long {
        if ea_is_memory(mode) {
            ea_time(mode, size).wrapping_add(6)
        } else {
            ea_time(mode, size).wrapping_add(8)
        }
    } else {
        ea_time(mode, size).wrapping_add(4)
    }
}

/// ADD, SUB, AND and OR to a data register.
#[verifier::when_used_as_spec(spec_alu_ea_dn_cycles)]
pub fn alu_ea_dn_cycles(mode: AddressingMode, size: Size) -> (r: i32)
    ensures
        r == spec_alu_ea_dn_cycles(mode, size),
{
    if size == Size::Long {
        if ea_is_memory(mode) {
            ea_time(mode, size).wrapping_add(6)
        } else {
            ea_time(mode, size).wrapping_add(8)
        }
    } else {
        ea_time(mode, size).wrapping_add(4)
    }
}

/// ADD, SUB, AND and OR to memory.
pub open spec fn spec_alu_dn_ea_cycles(mode: AddressingMode, size: Size) -> i32 {
    if size == Size::Long {
        ea_time(mode, size).wrapping_add(12)
    } else {
        ea_time(mode, size).wrapping_add(8)
    }
}

/// ADD, SUB, AND and OR to memory.
#[verifier::when_used_as_spec(spec_alu_dn_ea_cycles)]
pub fn alu_dn_ea_cycles(mode: AddressingMode, size: Size) -> (r: i32)
    ensures
        r == spec_alu_dn_ea_cycles(mode, size),
{
    if size == Size::Long {
        ea_time(mode, size).wrapping_add(12)
    } else {
        ea_time(mode, size).wrapping_add(8)
    }
}

/// ADDA and SUBA.
pub open spec fn spec_adda_suba_cycles(mode: AddressingMode, size: Size) -> i32 {
    if size == Size::Long && ea_is_memory(mode) {
        ea_time(mode, size).wrapping_add(6)
    } else {
        ea_time(mode, size).wrapping_add(8)
    }
}

/// ADDA and SUBA.
#[verifier::when_used_as_spec(spec_adda_suba_cycles)]
pub fn adda_suba_cycles(mode: AddressingMode, size: Size) -> (r: i32)
    ensures
        r == spec_adda_suba_cycles(mode, size),
{
    if size == Size::Long && ea_is_memory(mode) {
        ea_time(mode, size).wrapping_add(6)
    } else {
        ea_time(mode, size).wrapping_add(8)
    }
}

/// CMP to a data register.
pub open spec fn spec_compare_ea_dn_cycles(mode: AddressingMode, size: Size) -> i32 {
    if size == Size::Long {
        ea_time(mode, size).wrapping_add(6)
    } else {
        ea_time(mode, size).wrapping_add(4)
    }
}

/// CMP to a data register.
#[verifier::when_used_as_spec(spec_compare_ea_dn_cycles)]
pub fn compare_ea_dn_cycles(mode: AddressingMode, size: Size) -> (r: i32)
    ensures
        r == spec_compare_ea_dn_cycles(mode, size),
{
    if size == Size::Long {
        ea_time(mode, size).wrapping_add(6)
    } else {
        ea_time(mode, size).wrapping_add(4)
    }
}

/// CMPA.
pub open spec fn spec_compare_addr_cycles(mode: AddressingMode, size: Size) -> i32 {
    ea_time(mode, size).wrapping_add(6)
}

/// CMPA.
#[verifier::when_used_as_spec(spec_compare_addr_cycles)]
pub fn compare_addr_cycles(mode: AddressingMode, size: Size) -> (r: i32)
    ensures
        r == spec_compare_addr_cycles(mode, size),
{
    ea_time(mode, size).wrapping_add(6)
}

/// EOR.
pub open spec fn spec_eor_cycles(mode: AddressingMode, size: Size) -> i32 {
    if is_register_direct(mode) {
        if size == Size::Long {
            8
        } else {
            4
        }
    } else if size == Size::Long {
        ea_time(mode, size).wrapping_add(12)
    } else {
        ea_time(mode, size).wrapping_add(8)
    }
}

/// EOR.
#[verifier::when_used_as_spec(spec_eor_cycles)]
pub fn eor_cycles(mode: AddressingMode, size: Size) -> (r: i32)
    ensures
        r == spec_eor_cycles(mode, size),
{
    if is_register_direct(mode) {
        if size == Size::Long {
            8
        } else {
            4
        }
    } else if size == Size::Long {
        ea_time(mode, size).wrapping_add(12)
    } else {
        ea_time(mode, size).wrapping_add(8)
    }
}

/// CLR, NEG, NEGX and NOT.
pub open spec fn spec_unary_rmw_cycles(mode: AddressingMode, size: Size) -> i32 {
    if is_register_direct(mode) {
        if size == Size::Long {
            6
        } else {
            4
        }
    } else if size == Size::Long {
        ea_time(mode, size).wrapping_add(12)
    } else {
        ea_time(mode, size).wrapping_add(8)
    }
}

/// CLR, NEG, NEGX and NOT.
#[verifier::when_used_as_spec(spec_unary_rmw_cycles)]
pub fn unary_rmw_cycles(mode: AddressingMode, size: Size) -> (r: i32)
    ensures
        r == spec_unary_rmw_cycles(mode, size),
{
    if is_register_direct(mode) {
        if size == Size::Long {
            6
        } else {
            4
        }
    } else if size == Size::Long {
        ea_time(mode, size).wrapping_add(12)
    } else {
        ea_time(mode, size).wrapping_add(8)
    }
}

/// TST.
pub open spec fn spec_tst_cycles(mode: AddressingMode, size: Size) -> i32 {
    ea_time(mode, size).wrapping_add(4)
}

/// TST.
#[verifier::when_used_as_spec(spec_tst_cycles)]
pub fn tst_cycles(mode: AddressingMode, size: Size) -> (r: i32)
    ensures
        r == spec_tst_cycles(mode, size),
{
    ea_time(mode, size).wrapping_add(4)
}

/// ADDQ and SUBQ.
pub open spec fn spec_addq_subq_cycles(mode: AddressingMode, size: Size) -> i32 {
    match mode {
        AddressingMode::DataDirect(_) => {
            if size == Size::Long {
                8
            } else {
                4
            }
        },
        AddressingMode::AddressDirect(_) => 8,
        _ => {
            if size == Size::Long {
                ea_time(mode, size).wrapping_add(12)
            } else {
                ea_time(mode, size).wrapping_add(8)
            }
        },
    }
}

/// ADDQ and SUBQ.
#[verifier::when_used_as_spec(spec_addq_subq_cycles)]
pub fn addq_subq_cycles(mode: AddressingMode, size: Size) -> (r: i32)
    ensures
        r == spec_addq_subq_cycles(mode, size),
{
    match mode {
        AddressingMode::DataDirect(_) => {
            if size == Size::Long {
                8
            } else {
                4
            }
        },
        AddressingMode::AddressDirect(_) => 8,
        _ => {
            if size == Size::Long {
                ea_time(mode, size).wrapping_add(12)
            } else {
                ea_time(mode, size).wrapping_add(8)
            }
        },
    }
}

/// BTST, BCHG, BCLR and BSET, by their two-bit operation field. Clearing and
/// changing a high register bit takes two clocks more.
pub open spec fn spec_bitop_cycles(mode: AddressingMode, bit_op: u16, is_static: bool, bit_num: u32) -> i32 {
    let fetch: i32 = if is_static {
        4
    } else {
        0
    };
    if is_register_direct(mode) {
        let high: i32 = if bit_num & 31 >= 16 {
            2
        } else {
            0
        };
        match bit_op {
            0 => fetch.wrapping_add(6),
            2 => fetch.wrapping_add(8).wrapping_add(high),
            _ => fetch.wrapping_add(6).wrapping_add(high),
        }
    } else if bit_op == 0 {
        fetch.wrapping_add(4).wrapping_add(ea_time(mode, Size::Byte))
    } else {
        fetch.wrapping_add(8).wrapping_add(ea_time(mode, Size::Byte))
    }
}

/// BTST, BCHG, BCLR and BSET, by their two-bit operation field. Clearing and
/// changing a high register bit takes two clocks more.
#[verifier::when_used_as_spec(spec_bitop_cycles)]
pub fn bitop_cycles(mode: AddressingMode, bit_op: u16, is_static: bool, bit_num: u32) -> (r: i32)
    ensures
        r == spec_bitop_cycles(mode, bit_op, is_static, bit_num),
{
    let fetch: i32 = if is_static {
        4
    } else {
        0
    };
    if is_register_direct(mode) {
        let high: i32 = if bit_num & 31 >= 16 {
            2
        } else {
            0
        };
        match bit_op {
            0 => fetch.wrapping_add(6),
            2 => fetch.wrapping_add(8).wrapping_add(high),
            _ => fetch.wrapping_add(6).wrapping_add(high),
        }
    } else if bit_op == 0 {
        fetch.wrapping_add(4).wrapping_add(ea_time(mode, Size::Byte))
    } else {
        fetch.wrapping_add(8).wrapping_add(ea_time(mode, Size::Byte))
    }
}

/// Address calculation of JMP and JSR.
pub open spec fn spec_jump_addr_calc_cycles(mode: AddressingMode) -> i32 {
    match mode {
        AddressingMode::Displacement(_)
    | AddressingMode::AbsoluteShort
    | AddressingMode::PcDisplacement => 2,
        AddressingMode::AbsoluteLong => 4,
        AddressingMode::Index(_) | AddressingMode::PcIndex => 6,
        _ => 0,
    }
}

/// Address calculation of JMP and JSR.
#[verifier::when_used_as_spec(spec_jump_addr_calc_cycles)]
pub fn jump_addr_calc_cycles(mode: AddressingMode) -> (r: i32)
    ensures
        r == spec_jump_addr_calc_cycles(mode),
{
    match mode {
        AddressingMode::Displacement(_)
        | AddressingMode::AbsoluteShort
        | AddressingMode::PcDisplacement => 2,
        AddressingMode::AbsoluteLong => 4,
        AddressingMode::Index(_) | AddressingMode::PcIndex => 6,
        _ => 0,
    }
}

/// Address calculation of LEA and PEA.
pub open spec fn spec_control_addr_calc_cycles(mode: AddressingMode) -> i32 {
    match mode {
        AddressingMode::Displacement(_)
    | AddressingMode::AbsoluteShort
    | AddressingMode::PcDisplacement => 4,
        AddressingMode::AbsoluteLong | AddressingMode::Index(_) | AddressingMode::PcIndex => 8,
        _ => 0,
    }
}

/// Address calculation of LEA and PEA.
#[verifier::when_used_as_spec(spec_control_addr_calc_cycles)]
pub fn control_addr_calc_cycles(mode: AddressingMode) -> (r: i32)
    ensures
        r == spec_control_addr_calc_cycles(mode),
{
    match mode {
        AddressingMode::Displacement(_)
        | AddressingMode::AbsoluteShort
        | AddressingMode::PcDisplacement => 4,
        AddressingMode::AbsoluteLong | AddressingMode::Index(_) | AddressingMode::PcIndex => 8,
        _ => 0,
    }
}

/// Address calculation alone.
pub open spec fn spec_ea_calc_cycles(mode: AddressingMode) -> i32 {
    match mode {
        AddressingMode::Displacement(_)
    | AddressingMode::AbsoluteShort
    | AddressingMode::PcDisplacement => 4,
        AddressingMode::Index(_) | AddressingMode::PcIndex => 6,
        AddressingMode::AbsoluteLong => 8,
        _ => 0,
    }
}

/// Address calculation alone.
#[verifier::when_used_as_spec(spec_ea_calc_cycles)]
pub fn ea_calc_cycles(mode: AddressingMode) -> (r: i32)
    ensures
        r == spec_ea_calc_cycles(mode),
{
    match mode {
        AddressingMode::Displacement(_)
        | AddressingMode::AbsoluteShort
        | AddressingMode::PcDisplacement => 4,
        AddressingMode::Index(_) | AddressingMode::PcIndex => 6,
        AddressingMode::AbsoluteLong => 8,
        _ => 0,
    }
}

/// Internal clocks that a jump spends on its address before the refill.
pub open spec fn spec_jump_internal_clocks(mode: AddressingMode) -> u32 {
    match mode {
        AddressingMode::Displacement(_)
    | AddressingMode::AbsoluteShort
    | AddressingMode::PcDisplacement => 2,
        AddressingMode::Index(_) | AddressingMode::PcIndex => 4,
        _ => 0,
    }
}

/// Internal clocks that a jump spends on its address before the refill.
#[verifier::when_used_as_spec(spec_jump_internal_clocks)]
pub fn jump_internal_clocks(mode: AddressingMode) -> (r: u32)
    ensures
        r == spec_jump_internal_clocks(mode),
{
    match mode {
        AddressingMode::Displacement(_)
        | AddressingMode::AbsoluteShort
        | AddressingMode::PcDisplacement => 2,
        AddressingMode::Index(_) | AddressingMode::PcIndex => 4,
        _ => 0,
    }
}

} // verus!
