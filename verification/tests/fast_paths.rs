//! The decoded operations against the dispatcher.

use m68k::cpu::CpuCore;
use m68k::execute::decode_boundary_hook_op;
use m68k::mem_ops::{execute_mem_op, DecodedMemOp};
use m68k::memory::LinearMemoryBus;
use m68k::op_cache::decode_simple;
use m68k::types::{BatchExit, CpuType, InternalStepResult, StepResult};

const MODELS: [CpuType; 5] = [
    CpuType::M68000,
    CpuType::M68010,
    CpuType::M68020,
    CpuType::M68030,
    CpuType::M68040,
];

fn next(seed: &mut u64) -> u32 {
    *seed = seed
        .wrapping_mul(6364136223846793005)
        .wrapping_add(1442695040888963407);
    (*seed >> 32) as u32
}

fn scrambled(cpu_type: CpuType, seed: &mut u64) -> CpuCore {
    let mut cpu = CpuCore::new();
    cpu.set_cpu_type(cpu_type);
    cpu.set_sr(0x2700 | (next(seed) & 0x1F) as u16);
    for reg in 0..8 {
        cpu.set_d(reg, next(seed));
        cpu.set_a(reg, 0x4000 + (next(seed) & 0x0FFE));
    }
    cpu.set_precise_bus(false);
    cpu.pc = 0x1002;
    cpu.ppc = 0x1000;
    cpu
}

#[test]
fn decoded_register_operations_match_the_dispatcher() {
    let mut seed = 1;
    for cpu_type in MODELS {
        let mut compared = 0;
        for opcode in 0..=0xFFFFu16 {
            let Some(op) = decode_simple(cpu_type, opcode) else {
                continue;
            };
            let mut before = seed;
            let mut precise = scrambled(cpu_type, &mut before);
            let mut fast = scrambled(cpu_type, &mut seed);
            let mut bus = LinearMemoryBus::new(0x10000);
            let outcome = precise.dispatch_instruction(&mut bus, opcode);
            assert!(
                matches!(outcome, InternalStepResult::Completed { .. }),
                "{cpu_type:?} {opcode:04x} {outcome:?}"
            );
            fast.exec_simple(op);
            assert_eq!(precise.dar, fast.dar, "{cpu_type:?} {opcode:04x}");
            assert_eq!(precise.pc, fast.pc, "{cpu_type:?} {opcode:04x}");
            assert_eq!(precise.get_sr(), fast.get_sr(), "{cpu_type:?} {opcode:04x}");
            compared += 1;
        }
        assert!(compared > 10_000);
    }
}

#[test]
fn decoded_memory_operations_match_the_dispatcher() {
    let mut seed = 7;
    for cpu_type in MODELS {
        let mut compared = 0;
        for opcode in 0..=0xFFFFu16 {
            let Some(op) = DecodedMemOp::decode(cpu_type, opcode) else {
                continue;
            };
            let mut bus = LinearMemoryBus::new(0x10000);
            for word in 0..0x800u32 {
                bus.write_word_at(0x4000 + word * 2, next(&mut seed) as u16);
            }
            for word in 0..4u32 {
                bus.write_word_at(0x1002 + word * 2, (next(&mut seed) & 0x07FE) as u16);
            }
            let mut before = seed;
            let mut precise = scrambled(cpu_type, &mut before);
            let mut fast = scrambled(cpu_type, &mut seed);
            fast.host.fm_base = 0;
            fast.host.fm_len = 0x10000;
            let mut memory = bus.as_slice().to_vec();
            let untouched = memory.clone();
            if !execute_mem_op(&mut fast, &mut memory, op) {
                assert_eq!(memory, untouched);
                assert_eq!(fast.pc, 0x1002);
                continue;
            }
            let outcome = precise.dispatch_instruction(&mut bus, opcode);
            assert!(
                matches!(outcome, InternalStepResult::Completed { .. }),
                "{cpu_type:?} {opcode:04x} {outcome:?}"
            );
            assert_eq!(precise.dar, fast.dar, "{cpu_type:?} {opcode:04x}");
            assert_eq!(precise.pc, fast.pc, "{cpu_type:?} {opcode:04x}");
            assert_eq!(precise.get_sr(), fast.get_sr(), "{cpu_type:?} {opcode:04x}");
            assert!(bus.as_slice() == memory.as_slice(), "{cpu_type:?} {opcode:04x}");
            compared += 1;
        }
        assert!(compared > 1_000);
    }
}

#[test]
fn the_boundary_dispatcher_matches_the_dispatcher() {
    let mut seed = 3;
    for cpu_type in MODELS {
        for opcode in 0..=0xFFFFu16 {
            if decode_boundary_hook_op(cpu_type, opcode).is_none() {
                continue;
            }
            let mut before = seed;
            let mut precise = scrambled(cpu_type, &mut before);
            let mut boundary = scrambled(cpu_type, &mut seed);
            let mut precise_bus = LinearMemoryBus::new(0x10000);
            let mut boundary_bus = LinearMemoryBus::new(0x10000);
            assert_eq!(
                precise.dispatch_instruction(&mut precise_bus, opcode),
                boundary.dispatch_boundary_hook_decoded(&mut boundary_bus, opcode),
                "{cpu_type:?} {opcode:04x}"
            );
            assert_eq!(precise.dar, boundary.dar, "{cpu_type:?} {opcode:04x}");
            assert_eq!(precise.get_sr(), boundary.get_sr(), "{cpu_type:?} {opcode:04x}");
        }
    }
}

#[test]
fn illegal_register_forms_are_not_decoded() {
    // MOVEQ with bit 8 set; MOVE.B A0,D0; ADDQ.B #1,A0; SUBQ.B #1,A0; OR.W
    // and AND.L with A0; ADD.B, SUB.B and CMP.B with A0.
    for opcode in [
        0x7100u16, 0x1008, 0x5208, 0x5308, 0x8048, 0xC088, 0xD008, 0x9008, 0xB008,
    ] {
        for cpu_type in MODELS {
            assert_eq!(decode_simple(cpu_type, opcode), None, "{opcode:04x}");
            let mut bus = LinearMemoryBus::new(0x10000);
            bus.write_word_at(0x1000, opcode);
            let mut cpu = CpuCore::new();
            cpu.set_cpu_type(cpu_type);
            cpu.set_sr(0x2700);
            cpu.pc = 0x1000;
            let result = cpu.run_batch(&mut bus, 4, &[]);
            assert_eq!(result.exit, BatchExit::IllegalInstruction { opcode });
            assert_eq!(result.instructions, 0);
            cpu.pc = 0x1000;
            assert_eq!(cpu.step(&mut bus), StepResult::IllegalInstruction { opcode });
        }
    }
    // The word forms are.
    for opcode in [0x7000u16, 0x3008, 0x5248, 0xD048, 0x9048, 0xB048] {
        assert!(decode_simple(CpuType::M68000, opcode).is_some(), "{opcode:04x}");
    }
}

#[test]
fn nop_on_the_68040_is_a_change_of_flow() {
    let mut bus = LinearMemoryBus::new(0x10000);
    let mut cpu = CpuCore::new();
    cpu.set_cpu_type(CpuType::M68040);
    cpu.run.change_of_flow = false;
    cpu.dispatch_instruction(&mut bus, 0x4E71);
    assert!(cpu.run.change_of_flow);
}
