//! Exception entry and return, faults, and memory.

use m68k::cpu::CpuCore;
use m68k::memory::{AddressBus, LinearMemoryBus};
use m68k::types::{CpuType, StepResult};

fn rig(cpu_type: CpuType, words: &[u16]) -> (CpuCore, LinearMemoryBus) {
    let mut bus = LinearMemoryBus::new(0x10000);
    for (i, word) in words.iter().enumerate() {
        bus.write_word_at(0x1000 + 2 * i as u32, *word);
    }
    let mut cpu = CpuCore::new();
    cpu.set_cpu_type(cpu_type);
    cpu.set_sr(0x2700);
    cpu.set_sp(0x8000);
    cpu.pc = 0x1000;
    (cpu, bus)
}

#[test]
fn return_undoes_an_exception() {
    for cpu_type in [CpuType::M68000, CpuType::M68010, CpuType::M68020, CpuType::M68040] {
        let (mut cpu, mut bus) = rig(cpu_type, &[0x4E71]);
        cpu.set_sr(0x2015);
        bus.write_long_at(4 * 33, 0x3000);
        bus.write_word_at(0x3000, 0x4E73);
        cpu.take_trap_exception(&mut bus, 1);
        assert_eq!(cpu.pc, 0x3000);
        assert_ne!(cpu.sp(), 0x8000);
        assert!(matches!(cpu.step(&mut bus), StepResult::Completed { .. }));
        assert_eq!(cpu.pc, 0x1000, "{cpu_type:?}");
        assert_eq!(cpu.sp(), 0x8000);
        assert_eq!(cpu.get_sr(), 0x2015);
    }
}

#[test]
fn return_undoes_an_exception_with_a_long_frame() {
    for cpu_type in [CpuType::M68010, CpuType::M68020, CpuType::M68040, CpuType::M68060] {
        let (mut cpu, mut bus) = rig(cpu_type, &[0x4E71]);
        cpu.set_usp(0x6000);
        cpu.set_sr(0x0004);
        cpu.ppc = 0x0FFE;
        bus.write_long_at(4 * 5, 0x3000);
        cpu.take_exception(&mut bus, 5);
        assert_eq!(cpu.pc, 0x3000);
        let bytes = if cpu_type == CpuType::M68010 { 8 } else { 12 };
        assert_eq!(cpu.sp(), 0x8000 - bytes);
        cpu.exec_rte(&mut bus);
        assert_eq!(cpu.pc, 0x1000, "{cpu_type:?}");
        assert_eq!(cpu.get_sr(), 0x0004);
        assert_eq!(cpu.sp(), 0x6000);
        assert_eq!(cpu.get_isp(), 0x8000);
    }
}

#[test]
fn the_queue_holds_the_words_at_pc() {
    let (mut cpu, mut bus) = rig(CpuType::M68000, &[0x1111, 0x2222, 0x3333, 0x4444]);
    cpu.full_prefetch(&mut bus);
    assert_eq!(cpu.queue.prefetch_count, 2);
    assert_eq!(cpu.queue.prefetch_queue, [0x1111, 0x2222]);
    assert_eq!(cpu.read_imm_16(&mut bus), 0x1111);
    assert_eq!(cpu.pc, 0x1002);
    assert_eq!(cpu.queue.prefetch_queue, [0x2222, 0x3333]);
    assert_eq!(cpu.fetch_opcode(&mut bus), 0x2222);
    assert_eq!(cpu.queue.prefetch_count, 1);
    cpu.top_up_prefetch(&mut bus);
    assert_eq!(cpu.queue.prefetch_queue, [0x3333, 0x4444]);
}

#[test]
fn odd_operands_fault_before_the_68020() {
    // MOVE.W (A0),D0
    let (mut cpu, mut bus) = rig(CpuType::M68000, &[0x3010]);
    bus.write_long_at(3 * 4, 0x3000);
    cpu.set_a(0, 0x4001);
    cpu.set_d(0, 0x1234);
    cpu.step(&mut bus);
    assert_eq!(cpu.pc, 0x3000);
    assert_eq!(cpu.d(0), 0x1234);
    assert_eq!(cpu.sp(), 0x8000 - 14);
    let (mut cpu, mut bus) = rig(CpuType::M68020, &[0x3010]);
    bus.load(0x4001, &[0xAB, 0xCD]);
    cpu.set_a(0, 0x4001);
    cpu.step(&mut bus);
    assert_eq!(cpu.d(0), 0xABCD);
}

#[test]
fn a_faulted_instruction_touches_memory_no_more() {
    let (mut cpu, mut bus) = rig(CpuType::M68000, &[]);
    bus.write_long_at(3 * 4, 0x3000);
    cpu.write_16(&mut bus, 0x4001, 0xFFFF);
    assert!(cpu.faulted());
    let memory = bus.as_slice().to_vec();
    cpu.write_16(&mut bus, 0x5000, 0x1111);
    cpu.write_32(&mut bus, 0x5000, 0x1111_1111);
    cpu.write_8(&mut bus, 0x5000, 0x11);
    assert_eq!(bus.as_slice(), memory.as_slice());
    assert_eq!(cpu.read_16(&mut bus, 0x3000), 0);
}

#[test]
fn memory_reads_back() {
    let (mut cpu, mut bus) = rig(CpuType::M68020, &[]);
    cpu.write_32(&mut bus, 0x4003, 0x1234_5678);
    assert_eq!(cpu.read_32(&mut bus, 0x4003), 0x1234_5678);
    assert_eq!(cpu.read_16(&mut bus, 0x4004), 0x3456);
    assert_eq!(cpu.read_8(&mut bus, 0x4006), 0x78);
}

#[test]
fn the_stack_gives_back_what_it_took() {
    let (mut cpu, mut bus) = rig(CpuType::M68000, &[]);
    cpu.push_32(&mut bus, 0xCAFE_F00D);
    cpu.push_16(&mut bus, 0xBEEF);
    assert_eq!(cpu.sp(), 0x8000 - 6);
    assert_eq!(cpu.pull_16(&mut bus), 0xBEEF);
    assert_eq!(cpu.pull_32(&mut bus), 0xCAFE_F00D);
    assert_eq!(cpu.sp(), 0x8000);
}

#[test]
fn linear_memory_is_big_endian_and_wraps() {
    let mut bus = LinearMemoryBus::new(0x1000);
    bus.write_long(0x10, 0x0102_0304);
    assert_eq!(bus.as_slice()[0x10..0x14], [1, 2, 3, 4]);
    assert_eq!(bus.read_word(0x11), 0x0203);
    assert_eq!(bus.read_byte(0x1013), 4);
    bus.write_word(0xFFF, 0xAABB);
    assert_eq!((bus.as_slice()[0xFFF], bus.as_slice()[0]), (0xAA, 0xBB));
    assert_eq!(bus.len(), 0x1000);
    assert!(!bus.is_empty());
    assert!(LinearMemoryBus::new(0).is_empty());
}

#[test]
fn reset_loads_the_vectors() {
    let (mut cpu, mut bus) = rig(CpuType::M68000, &[]);
    bus.write_long_at(0, 0x0000_7000);
    bus.write_long_at(4, 0x0000_2000);
    cpu.reset(&mut bus);
    assert_eq!(cpu.sp(), 0x7000);
    assert_eq!(cpu.pc, 0x2000);
    assert_eq!(cpu.get_sr() & 0x2700, 0x2700);
}

#[test]
fn user_mode_is_not_privileged() {
    // MOVE #0,SR
    let (mut cpu, mut bus) = rig(CpuType::M68000, &[0x46FC, 0x0000]);
    bus.write_long_at(8 * 4, 0x3000);
    cpu.set_usp(0x6000);
    cpu.set_sr(0x0000);
    cpu.step(&mut bus);
    assert_eq!(cpu.pc, 0x3000);
    assert!(cpu.is_supervisor());
    assert_eq!(cpu.get_usp(), 0x6000);
    assert_eq!(bus.as_slice()[0x7FFA..0x8000], [0, 0, 0, 0, 0x10, 0x00]);
}

#[test]
fn return_follows_throwaway_frames() {
    // RTE
    let (mut cpu, mut bus) = rig(CpuType::M68020, &[0x4E73]);
    for (at, pc, format) in [(0x7FE8, 0x1111, 0x1000), (0x7FF0, 0x2222, 0x1000), (0x7FF8, 0x3000, 0)] {
        bus.write_word_at(at, 0x2700);
        bus.write_long_at(at + 2, pc);
        bus.write_word_at(at + 6, format);
    }
    cpu.set_sp(0x7FE8);
    cpu.step(&mut bus);
    assert_eq!(cpu.pc, 0x3000);
    assert_eq!(cpu.sp(), 0x8000);
}
