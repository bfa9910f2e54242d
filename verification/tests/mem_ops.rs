use m68k::cpu::CpuCore;
use m68k::mem_ops::{execute_mem_op, BitSource, DecodedMemOp, FastEa};
use m68k::op_cache::BitOp;
use m68k::types::{CpuType, Size};

#[test]
fn move_cycle_cost_matches_m68000_timing_formula() {
    let mut cpu = CpuCore::new();
    cpu.set_cpu_type(CpuType::M68000);

    assert_eq!(
        DecodedMemOp::Move {
            size: Size::Long,
            src: FastEa::AnInd(0),
            dst: FastEa::DataReg(0),
        }
        .cycle_cost(&cpu),
        Some(12)
    );
    assert_eq!(
        DecodedMemOp::Move {
            size: Size::Long,
            src: FastEa::DataReg(0),
            dst: FastEa::AnInd(0),
        }
        .cycle_cost(&cpu),
        Some(12)
    );
    assert_eq!(
        DecodedMemOp::Move {
            size: Size::Word,
            src: FastEa::AnDisp(0),
            dst: FastEa::AddrReg(0),
        }
        .cycle_cost(&cpu),
        Some(12)
    );
    assert_eq!(
        DecodedMemOp::Tst {
            size: Size::Word,
            ea: FastEa::AnInd(0),
        }
        .cycle_cost(&cpu),
        None
    );
}

fn cpu_with_window(mem: &[u8]) -> CpuCore {
    let mut cpu = CpuCore::new();
    cpu.set_cpu_type(CpuType::M68040);
    cpu.host.fm_base = 0;
    cpu.host.fm_len = mem.len() as u32;
    cpu.pc = 0x100;
    cpu.set_a(5, 0x400);
    cpu
}

#[test]
fn fast_movem_word_postincrement_is_atomic_and_sign_extends() {
    let mut mem = vec![0u8; 0x1000];
    mem[0x100..0x102].copy_from_slice(&0x00FEu16.to_be_bytes());
    let words = [0x8000u16, 1, 0x7FFF, 0xFFFF, 0, 0x1234, 0xABCD];
    for (index, word) in words.into_iter().enumerate() {
        mem[0x200 + index * 2..0x202 + index * 2].copy_from_slice(&word.to_be_bytes());
    }
    let mut cpu = cpu_with_window(&mem);
    cpu.set_a(0, 0x200);
    cpu.set_ccr(0x1F);
    assert!(execute_mem_op(
        &mut cpu,
        &mut mem,
        DecodedMemOp::MovemWordPostInc { base: 0 }
    ));
    assert_eq!(cpu.pc, 0x102);
    assert_eq!(cpu.a(0), 0x20E);
    assert_eq!(cpu.d(1), 0xFFFF_8000);
    assert_eq!(cpu.d(2), 1);
    assert_eq!(cpu.d(3), 0x7FFF);
    assert_eq!(cpu.d(4), 0xFFFF_FFFF);
    assert_eq!(cpu.d(7), 0xFFFF_ABCD);
    assert_eq!(cpu.get_ccr(), 0x1F);

    cpu.pc = 0x100;
    cpu.set_a(0, 0x0FFA); // complete seven-word source span is outside RAM
    for reg in 1..8 {
        cpu.set_d(reg, 0xA000_0000 | reg as u32);
    }
    assert!(!execute_mem_op(
        &mut cpu,
        &mut mem,
        DecodedMemOp::MovemWordPostInc { base: 0 }
    ));
    assert_eq!(cpu.pc, 0x100);
    assert_eq!(cpu.a(0), 0x0FFA);
    for reg in 1..8 {
        assert_eq!(cpu.d(reg), 0xA000_0000 | reg as u32);
    }
}

#[test]
fn fast_an_disp_tst_and_clr_advance_extension_cursor() {
    let mut mem = vec![0u8; 0x1000];
    mem[0x100..0x102].copy_from_slice(&0x0012u16.to_be_bytes());
    mem[0x412] = 0x80;
    let mut cpu = cpu_with_window(&mem);

    assert!(execute_mem_op(
        &mut cpu,
        &mut mem,
        DecodedMemOp::Tst {
            size: Size::Byte,
            ea: FastEa::AnDisp(5),
        }
    ));
    assert_eq!(cpu.pc, 0x102);
    assert_ne!(cpu.ccr.n_flag, 0);
    assert_ne!(cpu.ccr.not_z_flag, 0);

    cpu.pc = 0x100;
    assert!(execute_mem_op(
        &mut cpu,
        &mut mem,
        DecodedMemOp::Clr {
            size: Size::Byte,
            ea: FastEa::AnDisp(5),
        }
    ));
    assert_eq!(mem[0x412], 0);
    assert_eq!(cpu.pc, 0x102);
    assert_eq!(cpu.ccr.not_z_flag, 0);
}

#[test]
fn fast_an_disp_immediate_bit_uses_both_extension_words() {
    let mut mem = vec![0u8; 0x1000];
    mem[0x100..0x102].copy_from_slice(&3u16.to_be_bytes());
    mem[0x102..0x104].copy_from_slice(&0x0012u16.to_be_bytes());
    mem[0x412] = 0b0000_1000;
    let mut cpu = cpu_with_window(&mem);

    assert!(execute_mem_op(
        &mut cpu,
        &mut mem,
        DecodedMemOp::BitMem {
            op: BitOp::Test,
            bit: BitSource::Imm,
            ea: FastEa::AnDisp(5),
        }
    ));
    assert_eq!(cpu.pc, 0x104);
    assert_eq!(cpu.ccr.not_z_flag, 1);
    assert_eq!(mem[0x412], 0b0000_1000);
}

#[test]
fn fast_an_disp_move_checks_both_operands_before_commit() {
    let mut mem = vec![0u8; 0x1000];
    mem[0x100..0x102].copy_from_slice(&0x0012u16.to_be_bytes());
    mem[0x412..0x416].copy_from_slice(&0xDEAD_BEEFu32.to_be_bytes());
    let mut cpu = cpu_with_window(&mem);
    cpu.set_a(7, 0x800);

    assert!(execute_mem_op(
        &mut cpu,
        &mut mem,
        DecodedMemOp::Move {
            size: Size::Long,
            src: FastEa::AnDisp(5),
            dst: FastEa::AnPreDec(7),
        }
    ));
    assert_eq!(cpu.a(7), 0x7FC);
    assert_eq!(&mem[0x7FC..0x800], &0xDEAD_BEEFu32.to_be_bytes());
    assert_eq!(cpu.pc, 0x102);

    cpu.pc = 0x100;
    cpu.set_a(7, 2);
    let old_flags = (cpu.ccr.n_flag, cpu.ccr.not_z_flag, cpu.ccr.v_flag, cpu.ccr.c_flag);
    assert!(!execute_mem_op(
        &mut cpu,
        &mut mem,
        DecodedMemOp::Move {
            size: Size::Long,
            src: FastEa::AnDisp(5),
            dst: FastEa::AnPreDec(7),
        }
    ));
    assert_eq!(cpu.a(7), 2);
    assert_eq!(cpu.pc, 0x100);
    assert_eq!(
        (cpu.ccr.n_flag, cpu.ccr.not_z_flag, cpu.ccr.v_flag, cpu.ccr.c_flag),
        old_flags
    );
}
