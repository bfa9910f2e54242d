//! Arithmetic instructions on concrete values.

use m68k::cpu::CpuCore;
use m68k::memory::LinearMemoryBus;
use m68k::types::{CpuType, StepResult};

struct Rig {
    cpu: CpuCore,
    bus: LinearMemoryBus,
}

impl Rig {
    fn new(cpu_type: CpuType, words: &[u16]) -> Self {
        let mut bus = LinearMemoryBus::new(0x10000);
        for (i, word) in words.iter().enumerate() {
            bus.write_word_at(0x1000 + 2 * i as u32, *word);
        }
        let mut cpu = CpuCore::new();
        cpu.set_cpu_type(cpu_type);
        cpu.set_sr(0x2700);
        cpu.set_sp(0x8000);
        cpu.pc = 0x1000;
        Self { cpu, bus }
    }

    fn run(&mut self) -> i32 {
        match self.cpu.step(&mut self.bus) {
            StepResult::Completed { cycles } => cycles,
            other => panic!("{other:?}"),
        }
    }
}

/// Runs one instruction with two data registers and the flags loaded; gives
/// D0, the flags and the clocks.
fn with_registers(opcode: u16, d0: u32, d1: u32, ccr: u8) -> (u32, u8, i32) {
    let mut rig = Rig::new(CpuType::M68000, &[opcode]);
    rig.cpu.set_d(0, d0);
    rig.cpu.set_d(1, d1);
    rig.cpu.set_ccr(ccr);
    let cycles = rig.run();
    (rig.cpu.d(0), rig.cpu.get_ccr(), cycles)
}

#[test]
fn addition_sets_its_flags() {
    // ADD.B D1,D0
    assert_eq!(with_registers(0xD001, 0x1122_337F, 1, 0), (0x1122_3380, 0x0A, 4));
    assert_eq!(with_registers(0xD001, 0x0000_00FF, 1, 0), (0, 0x15, 4));
    assert_eq!(with_registers(0xD001, 0x80, 0x80, 0), (0, 0x17, 4));
    // ADD.W D1,D0
    assert_eq!(with_registers(0xD041, 0x0001_FFFF, 2, 0), (0x0001_0001, 0x11, 4));
    // ADD.L D1,D0
    assert_eq!(
        with_registers(0xD081, 0x7FFF_FFFF, 1, 0),
        (0x8000_0000, 0x0A, 8)
    );
}

#[test]
fn subtraction_sets_its_flags() {
    // SUB.B D1,D0
    assert_eq!(with_registers(0x9001, 0, 1, 0), (0xFF, 0x19, 4));
    assert_eq!(with_registers(0x9001, 0x80, 1, 0), (0x7F, 0x02, 4));
    // SUB.L D1,D0
    assert_eq!(with_registers(0x9081, 5, 5, 0x1F), (0, 0x04, 8));
    // CMP.L D1,D0 keeps X.
    assert_eq!(with_registers(0xB081, 5, 6, 0x10), (5, 0x19, 6));
}

#[test]
fn extended_arithmetic_only_clears_zero() {
    // ADDX.L D1,D0
    assert_eq!(with_registers(0xD181, 0xFFFF_FFFF, 0, 0x14), (0, 0x15, 8));
    assert_eq!(with_registers(0xD181, 0xFFFF_FFFF, 0, 0x10), (0, 0x11, 8));
    // SUBX.B D1,D0
    assert_eq!(with_registers(0x9101, 0x10, 0x0F, 0x14), (0x00, 0x04, 4));
}

#[test]
fn decimal_arithmetic() {
    // ABCD D1,D0
    assert_eq!(with_registers(0xC101, 0x45, 0x38, 0).0, 0x83);
    let (sum, ccr, _) = with_registers(0xC101, 0x99, 0x01, 0x04);
    assert_eq!(sum, 0x00);
    assert_eq!(ccr & 0x15, 0x15);
    assert_eq!(with_registers(0xC101, 0x12, 0x34, 0x10).0, 0x47);
    // SBCD D1,D0
    assert_eq!(with_registers(0x8101, 0x45, 0x38, 0).0, 0x07);
    let (difference, ccr, _) = with_registers(0x8101, 0x00, 0x01, 0);
    assert_eq!(difference, 0x99);
    assert_eq!(ccr & 0x11, 0x11);
}

#[test]
fn compare_then_branch_on_less() {
    // CMP.W D1,D0, then every pair of signed words in a small range.
    for d0 in -3i16..=3 {
        for d1 in -3i16..=3 {
            let mut rig = Rig::new(CpuType::M68000, &[0xB041]);
            rig.cpu.set_d(0, d0 as u16 as u32);
            rig.cpu.set_d(1, d1 as u16 as u32);
            rig.run();
            assert_eq!(rig.cpu.test_condition(13), d0 < d1);
            assert_eq!(rig.cpu.test_condition(14), d0 > d1);
            assert_eq!(rig.cpu.test_condition(5), (d0 as u16) < (d1 as u16));
            assert_eq!(rig.cpu.test_condition(7), d0 == d1);
        }
    }
}

#[test]
fn shifts_and_rotates() {
    // LSL.W #1,D0
    assert_eq!(with_registers(0xE348, 0x8001, 0, 0), (0x0002, 0x11, 8));
    // ASR.B #1,D0
    assert_eq!(with_registers(0xE200, 0x81, 0, 0), (0xC0, 0x19, 8));
    // ASL.B #1,D0: the sign changes.
    assert_eq!(with_registers(0xE300, 0x40, 0, 0), (0x80, 0x0A, 8));
    // ROL.B #8,D0 comes round.
    assert_eq!(with_registers(0xE118, 0xA5, 0, 0).0, 0xA5);
    // ROXL.B #1,D0
    assert_eq!(with_registers(0xE310, 0x80, 0, 0x10), (0x01, 0x11, 8));
    // LSR.L D1,D0 by 32 empties the register.
    let (value, ccr, _) = with_registers(0xE2A8, 0x8000_0000, 32, 0);
    assert_eq!((value, ccr), (0, 0x15));
}

#[test]
fn multiplication_and_division() {
    // MULU D1,D0
    assert_eq!(with_registers(0xC0C1, 0xFFFF, 0xFFFF, 0).0, 0xFFFE_0001);
    // MULS D1,D0
    assert_eq!(with_registers(0xC1C1, 0xFFFF, 2, 0).0, 0xFFFF_FFFE);
    // DIVU D1,D0: remainder in the upper word.
    assert_eq!(with_registers(0x80C1, 100, 7, 0).0, (2 << 16) | 14);
    // DIVU overflow leaves the register.
    let (value, ccr, _) = with_registers(0x80C1, 0x0001_0000, 1, 0);
    assert_eq!(value, 0x0001_0000);
    assert_eq!(ccr & 0x02, 0x02);
    // DIVS D1,D0: the quotient rounds toward zero.
    assert_eq!(
        with_registers(0x81C1, (-100i32) as u32, 7, 0).0,
        (((-2i16) as u16 as u32) << 16) | (-14i16) as u16 as u32
    );
}

#[test]
fn division_by_zero_takes_its_vector() {
    let mut rig = Rig::new(CpuType::M68000, &[0x80C1]);
    rig.bus.write_long_at(5 * 4, 0x2000);
    rig.cpu.set_d(0, 1);
    rig.cpu.set_d(1, 0);
    rig.run();
    assert_eq!(rig.cpu.pc, 0x2000);
    assert_eq!(rig.cpu.sp(), 0x8000 - 6);
}

#[test]
fn swaps_undo_themselves() {
    let mut rig = Rig::new(CpuType::M68000, &[0x4840, 0x4840, 0xC141, 0xC141]);
    rig.cpu.set_d(0, 0x1234_5678);
    rig.cpu.set_d(1, 9);
    rig.run();
    assert_eq!(rig.cpu.d(0), 0x5678_1234);
    rig.run();
    assert_eq!(rig.cpu.d(0), 0x1234_5678);
    rig.run();
    assert_eq!((rig.cpu.d(0), rig.cpu.d(1)), (9, 0x1234_5678));
    rig.run();
    assert_eq!((rig.cpu.d(0), rig.cpu.d(1)), (0x1234_5678, 9));
}

#[test]
fn memory_operands_and_clocks() {
    // MOVE.W (A0)+,D0; MOVE.L D0,-(A1); ADDI.B #1,(A1); NOP
    let mut rig = Rig::new(CpuType::M68000, &[0x3018, 0x2300, 0x0611, 0x0001, 0x4E71]);
    rig.cpu.set_a(0, 0x4000);
    rig.cpu.set_a(1, 0x5004);
    rig.cpu.set_d(0, 0xAAAA_0000);
    rig.bus.write_word_at(0x4000, 0x8001);
    assert_eq!(rig.run(), 8);
    assert_eq!((rig.cpu.d(0), rig.cpu.a(0)), (0xAAAA_8001, 0x4002));
    assert_eq!(rig.cpu.get_ccr(), 0x08);
    assert_eq!(rig.run(), 12);
    assert_eq!(rig.cpu.a(1), 0x5000);
    assert_eq!(rig.run(), 16);
    assert_eq!(rig.bus.as_slice()[0x5000..0x5004], [0xAB, 0xAA, 0x80, 0x01]);
    assert_eq!(rig.run(), 4);
    assert_eq!(rig.cpu.pc, 0x100A);
}
