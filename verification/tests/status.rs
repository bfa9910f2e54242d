//! The status register, the stack pointers and the control registers.

use m68k::cpu::CpuCore;
use m68k::types::CpuType;

fn cpu(cpu_type: CpuType) -> CpuCore {
    let mut cpu = CpuCore::new();
    cpu.set_cpu_type(cpu_type);
    cpu
}

#[test]
fn condition_codes_round_trip() {
    for ccr in 0..=0xFFu8 {
        let mut cpu = cpu(CpuType::M68000);
        cpu.set_sr(0x2700);
        cpu.set_ccr(ccr);
        assert_eq!(cpu.get_ccr(), ccr & 0x1F);
        assert_eq!(cpu.get_sr(), 0x2700 | (ccr & 0x1F) as u16);
        assert_eq!(cpu.flag_x(), ccr & 0x10 != 0);
        assert_eq!(cpu.flag_n(), ccr & 0x08 != 0);
        assert_eq!(cpu.flag_z(), ccr & 0x04 != 0);
        assert_eq!(cpu.flag_v(), ccr & 0x02 != 0);
        assert_eq!(cpu.flag_c(), ccr & 0x01 != 0);
    }
}

#[test]
fn status_register_keeps_the_bits_of_the_model() {
    let mut old = cpu(CpuType::M68000);
    old.set_sr(0xFFFF);
    assert_eq!(old.get_sr(), 0xA71F);
    let mut new = cpu(CpuType::M68020);
    new.set_sr(0xFFFF);
    assert_eq!(new.get_sr(), 0xF71F);
}

#[test]
fn conditions_are_complementary() {
    for ccr in 0..0x20u8 {
        let mut cpu = cpu(CpuType::M68000);
        cpu.set_ccr(ccr);
        for pair in 0..0x80u8 {
            assert_ne!(cpu.test_condition(pair * 2), cpu.test_condition(pair * 2 + 1));
        }
        assert!(cpu.test_condition(0));
        assert_eq!(cpu.test_condition(7), cpu.flag_z());
        assert_eq!(cpu.test_condition(13), cpu.flag_n() != cpu.flag_v());
    }
}

#[test]
fn stack_pointers_are_banked() {
    let mut cpu = cpu(CpuType::M68020);
    cpu.set_sr(0x2700);
    cpu.set_sp(0x1000);
    cpu.set_usp(0x2000);
    cpu.set_msp(0x3000);
    assert_eq!(cpu.get_isp(), 0x1000);
    cpu.set_sr(0x3700);
    assert_eq!(cpu.sp(), 0x3000);
    cpu.set_sr(0x0000);
    assert_eq!(cpu.sp(), 0x2000);
    assert_eq!(cpu.get_usp(), 0x2000);
    cpu.set_sp(0x2222);
    cpu.set_sr(0x2700);
    assert_eq!(cpu.sp(), 0x1000);
    assert_eq!(cpu.get_usp(), 0x2222);
}

#[test]
fn control_registers_round_trip() {
    let mut cpu = cpu(CpuType::M68040);
    for (reg, written, read) in [
        (0x000u16, 0xFFFF_FFFFu32, 7u32),
        (0x001, 0xFFFF_FFFF, 7),
        (0x801, 0x1234_5678, 0x1234_5678),
        (0x800, 0x0000_4000, 0x0000_4000),
    ] {
        cpu.write_control_register(reg, written);
        assert_eq!(cpu.read_control_register(reg), read, "{reg:03x}");
    }
}

#[test]
fn cache_strobes_read_back_as_zero() {
    let mut cpu = cpu(CpuType::M68020);
    cpu.write_control_register(0x002, 0x0000_000F);
    assert_eq!(cpu.read_control_register(0x002), 0x0000_0003);
}

#[test]
fn stop_loads_the_status_register() {
    let mut cpu = cpu(CpuType::M68000);
    cpu.set_sr(0x2700);
    assert!(!cpu.is_stopped());
    cpu.stop(0x2304);
    assert_eq!(cpu.get_sr(), 0x2304);
    assert!(cpu.is_stopped());
    assert!(!cpu.is_halted());
    cpu.double_fault();
    assert!(cpu.is_halted());
    assert!(!cpu.is_stopped());
}

#[test]
fn addresses_have_the_width_of_the_model() {
    assert_eq!(cpu(CpuType::M68000).address(0xFF12_3456), 0x0012_3456);
    assert_eq!(cpu(CpuType::M68010).address(0xFF12_3456), 0x0012_3456);
    assert_eq!(cpu(CpuType::SCC68070).address(0xFF12_3456), 0xFF12_3456);
    assert_eq!(cpu(CpuType::M68020).address(0xFF12_3456), 0xFF12_3456);
}
