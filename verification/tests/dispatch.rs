use std::collections::VecDeque;

use m68k::cpu::{CpuCore, MmuRegs};
use m68k::memory::{
    AddressBus, BusFault, BusView, FastMem, MmuFault, Probe, ProbeResult, Retirement, Translation,
    UnitOp,
};
use m68k::types::CpuType;

#[derive(Debug, PartialEq, Eq)]
enum Event {
    ReadWord(u32),
    WriteWord(u32, u16),
    Sync(u32),
    IplHold,
}

#[derive(Default)]
struct TraceBus {
    events: Vec<Event>,
    read_words: VecDeque<u16>,
}

impl TraceBus {
    fn with_read_words(words: impl IntoIterator<Item = u16>) -> Self {
        Self {
            events: Vec::new(),
            read_words: words.into_iter().collect(),
        }
    }
}

impl AddressBus for TraceBus {
    fn view(&self) -> BusView {
        unreachable!()
    }

    fn read_byte(&mut self, _address: u32) -> u8 {
        0
    }

    fn read_word(&mut self, address: u32) -> u16 {
        self.events.push(Event::ReadWord(address));
        self.read_words.pop_front().unwrap_or(0x4e71)
    }

    fn read_long(&mut self, _address: u32) -> u32 {
        0
    }

    fn write_byte(&mut self, _address: u32, _value: u8) {}

    fn write_word(&mut self, address: u32, value: u16) {
        self.events.push(Event::WriteWord(address, value));
    }

    fn write_long(&mut self, address: u32, value: u32) {
        self.write_word(address, (value >> 16) as u16);
        self.write_word(address.wrapping_add(2), value as u16);
    }

    fn try_read_byte(&mut self, address: u32) -> Result<u8, BusFault> {
        Ok(self.read_byte(address))
    }

    fn try_read_word(&mut self, address: u32) -> Result<u16, BusFault> {
        Ok(self.read_word(address))
    }

    fn try_read_long(&mut self, address: u32) -> Result<u32, BusFault> {
        Ok(self.read_long(address))
    }

    fn try_read_three_bytes(&mut self, address: u32) -> Result<u32, BusFault> {
        Ok(self.read_long(address) >> 8)
    }

    fn try_write_byte(&mut self, address: u32, value: u8) -> Result<(), BusFault> {
        self.write_byte(address, value);
        Ok(())
    }

    fn try_write_word(&mut self, address: u32, value: u16) -> Result<(), BusFault> {
        self.write_word(address, value);
        Ok(())
    }

    fn try_write_long(&mut self, address: u32, value: u32) -> Result<(), BusFault> {
        self.write_long(address, value);
        Ok(())
    }

    fn try_write_three_bytes(&mut self, address: u32, value: u32) -> Result<(), BusFault> {
        self.write_byte(address, (value >> 16) as u8);
        self.write_word(address.wrapping_add(1), value as u16);
        Ok(())
    }

    fn read_immediate_word(&mut self, address: u32) -> u16 {
        self.read_word(address)
    }

    fn read_immediate_long(&mut self, address: u32) -> u32 {
        self.read_long(address)
    }

    fn interrupt_acknowledge(&mut self, _level: u8) -> u32 {
        0xFFFF_FFFF
    }

    fn reset_devices(&mut self) {}

    fn sync(&mut self, cpu_clocks: u32) {
        self.events.push(Event::Sync(cpu_clocks));
    }

    fn ipl_hold_sample(&mut self) {
        self.events.push(Event::IplHold);
    }

    fn ipl_release_sample(&mut self) {}

    fn begin_instruction_fetches(&mut self) {}

    fn prefetch_refill(&mut self) {}

    fn last_fetch_was_cached(&mut self) -> bool {
        false
    }

    fn instruction_fetches_were_cached(&mut self) -> bool {
        false
    }

    fn instruction_boundary_requested(&mut self) -> bool {
        false
    }

    fn fast_mem(&mut self) -> Option<FastMem> {
        None
    }

    fn translate(
        &mut self,
        _mmu: MmuRegs,
        _cpu_type: CpuType,
        access: Translation,
    ) -> Result<u32, MmuFault> {
        Ok(access.address)
    }

    fn probe(&mut self, _mmu: MmuRegs, _cpu_type: CpuType, _request: Probe) -> ProbeResult {
        ProbeResult { status: 0, descriptor: 0 }
    }

    fn retire_cycles(&mut self, _cpu_type: CpuType, record: Retirement) -> i32 {
        record.base_cycles
    }

    fn unit(&mut self, _cpu: &mut CpuCore, _op: UnitOp) -> Option<i32> {
        None
    }

    fn window(&mut self) -> &mut [u8] {
        &mut []
    }
}

fn m68000_cpu_with_one_prefetch_word() -> CpuCore {
    let mut cpu = CpuCore::new();
    cpu.set_cpu_type(CpuType::M68000);
    cpu.pc = 0x2000;
    cpu.queue.prefetch_queue = [0x4e71, 0];
    cpu.queue.prefetch_count = 1;
    cpu
}

fn m68010_cpu_with_one_prefetch_word() -> CpuCore {
    let mut cpu = CpuCore::new();
    cpu.set_cpu_type(CpuType::M68010);
    cpu.pc = 0x2000;
    cpu.queue.prefetch_queue = [0x4e71, 0];
    cpu.queue.prefetch_count = 1;
    cpu
}

#[test]
fn m68000_bcc_ff_displacement_is_short_minus_one() {
    let mut cpu = m68000_cpu_with_one_prefetch_word();
    let mut bus = TraceBus::default();
    cpu.ccr.not_z_flag = 0;

    let cycles = cpu.dispatch_group_6(&mut bus, 0x66ff);

    assert_eq!(cycles, 8);
    assert_eq!(cpu.pc, 0x2000);
    assert_eq!(cpu.queue.prefetch_count, 1);
    assert_eq!(bus.events, Vec::<Event>::new());

    cpu.top_up_prefetch(&mut bus);
    assert_eq!(cpu.queue.prefetch_count, 2);
    assert_eq!(bus.events, vec![Event::Sync(4), Event::ReadWord(0x2002)]);
}

#[test]
fn m68000_scc_true_data_register_prefetches_before_internal_sync() {
    let mut cpu = m68000_cpu_with_one_prefetch_word();
    let mut bus = TraceBus::default();
    cpu.dar[0] = 0x1234_5600;

    // ST D0
    let cycles = cpu.dispatch_group_5(&mut bus, 0x50c0);

    assert_eq!(cycles, 6);
    assert_eq!(cpu.dar[0], 0x1234_56ff);
    assert_eq!(cpu.queue.prefetch_count, 2);
    assert_eq!(cpu.queue.pending_sync_clocks, 0);
    assert_eq!(
        bus.events,
        vec![Event::ReadWord(0x2002), Event::IplHold, Event::Sync(2)]
    );
}

#[test]
fn m68000_dbcc_expired_discards_fallthrough_word_before_refill() {
    let mut cpu = m68000_cpu_with_one_prefetch_word();
    let mut bus = TraceBus::default();
    cpu.queue.prefetch_queue[0] = 0xfffc;
    cpu.dar[0] = 0;

    // DBF D0,-4 with an expired counter.
    let cycles = cpu.dispatch_group_5(&mut bus, 0x51c8);

    assert_eq!(cycles, 14);
    assert_eq!(cpu.pc, 0x2002);
    assert_eq!(cpu.dar[0] & 0xffff, 0xffff);
    assert_eq!(cpu.queue.prefetch_count, 2);
    assert_eq!(
        bus.events,
        vec![
            Event::Sync(2),
            Event::ReadWord(0x2002),
            Event::ReadWord(0x2002),
            Event::ReadWord(0x2004),
        ]
    );
}

#[test]
fn m68000_jsr_pushes_return_address_before_target_prefetch() {
    let mut cpu = m68000_cpu_with_one_prefetch_word();
    let mut bus = TraceBus::default();
    cpu.dar[8] = 0x4000;
    cpu.dar[15] = 0x3000;

    let cycles = cpu.dispatch_group_4(&mut bus, 0x4e90);

    assert_eq!(cycles, 16);
    assert_eq!(cpu.pc, 0x4000);
    assert_eq!(cpu.dar[15], 0x2ffc);
    assert_eq!(cpu.queue.prefetch_count, 2);
    assert_eq!(
        bus.events,
        vec![
            Event::WriteWord(0x2ffc, 0x0000),
            Event::WriteWord(0x2ffe, 0x2000),
            Event::ReadWord(0x4000),
            Event::ReadWord(0x4002),
        ]
    );
}

#[test]
fn m68000_scc_false_data_register_polls_on_final_prefetch() {
    let mut cpu = m68000_cpu_with_one_prefetch_word();
    let mut bus = TraceBus::default();
    cpu.dar[0] = 0x1234_56ff;

    // SF D0
    let cycles = cpu.dispatch_group_5(&mut bus, 0x51c0);

    assert_eq!(cycles, 4);
    assert_eq!(cpu.dar[0], 0x1234_5600);
    assert_eq!(cpu.queue.prefetch_count, 2);
    assert_eq!(cpu.queue.pending_sync_clocks, 0);
    assert_eq!(bus.events, vec![Event::ReadWord(0x2002), Event::IplHold]);
}

#[test]
fn m68000_addi_long_data_register_prefetches_before_write() {
    let mut cpu = m68000_cpu_with_one_prefetch_word();
    let mut bus = TraceBus::with_read_words([0x0001, 0x4e71, 0x4e71]);
    cpu.queue.prefetch_queue = [0x0000, 0];
    cpu.dar[0] = 0x0000_0001;

    // ADDI.L #1,D0
    let cycles = cpu.dispatch_group_0(&mut bus, 0x0680);

    assert_eq!(cycles, 16);
    assert_eq!(cpu.d(0), 0x0000_0002);
    assert_eq!(cpu.queue.prefetch_count, 2);
    assert_eq!(cpu.queue.pending_sync_clocks, 0);
    assert_eq!(
        bus.events,
        vec![
            Event::ReadWord(0x2002),
            Event::ReadWord(0x2004),
            Event::ReadWord(0x2006),
            Event::IplHold,
            Event::Sync(4)
        ]
    );
}

#[test]
fn m68000_cmpi_long_data_register_prefetches_before_compare_sync() {
    let mut cpu = m68000_cpu_with_one_prefetch_word();
    let mut bus = TraceBus::with_read_words([0x0001, 0x4e71, 0x4e71]);
    cpu.queue.prefetch_queue = [0x0000, 0];
    cpu.dar[0] = 0x0000_0001;

    // CMPI.L #1,D0
    let cycles = cpu.dispatch_group_0(&mut bus, 0x0c80);

    assert_eq!(cycles, 14);
    assert_eq!(cpu.ccr.not_z_flag, 0);
    assert_eq!(cpu.queue.prefetch_count, 2);
    assert_eq!(cpu.queue.pending_sync_clocks, 0);
    assert_eq!(
        bus.events,
        vec![
            Event::ReadWord(0x2002),
            Event::ReadWord(0x2004),
            Event::ReadWord(0x2006),
            Event::IplHold,
            Event::Sync(2)
        ]
    );
}

#[test]
fn m68000_cmp_long_data_register_flushes_tail_after_final_prefetch() {
    let mut cpu = m68000_cpu_with_one_prefetch_word();
    let mut bus = TraceBus::default();
    cpu.dar[0] = 0x0000_0001;
    cpu.dar[1] = 0x0000_0001;

    // CMP.L D1,D0
    let cycles = cpu.dispatch_group_b(&mut bus, 0xb081);

    assert_eq!(cycles, 6);
    assert_eq!(cpu.ccr.not_z_flag, 0);
    assert_eq!(cpu.queue.prefetch_count, 2);
    assert_eq!(cpu.queue.pending_sync_clocks, 0);
    assert_eq!(
        bus.events,
        vec![Event::ReadWord(0x2002), Event::IplHold, Event::Sync(2)]
    );
}

#[test]
fn m68000_sub_long_data_register_flushes_tail_after_final_prefetch() {
    let mut cpu = m68000_cpu_with_one_prefetch_word();
    let mut bus = TraceBus::default();
    cpu.dar[0] = 0x0000_0003;
    cpu.dar[1] = 0x0000_0001;

    // SUB.L D1,D0
    let cycles = cpu.dispatch_group_9(&mut bus, 0x9081);

    assert_eq!(cycles, 8);
    assert_eq!(cpu.d(0), 0x0000_0002);
    assert_eq!(cpu.queue.prefetch_count, 2);
    assert_eq!(cpu.queue.pending_sync_clocks, 0);
    assert_eq!(
        bus.events,
        vec![Event::ReadWord(0x2002), Event::IplHold, Event::Sync(4)]
    );
}

#[test]
fn m68000_subx_long_data_register_flushes_tail_after_final_prefetch() {
    let mut cpu = m68000_cpu_with_one_prefetch_word();
    let mut bus = TraceBus::default();
    cpu.dar[0] = 0x0000_0003;
    cpu.dar[1] = 0x0000_0001;

    // SUBX.L D1,D0
    let cycles = cpu.dispatch_group_9(&mut bus, 0x9181);

    assert_eq!(cycles, 8);
    assert_eq!(cpu.d(0), 0x0000_0002);
    assert_eq!(cpu.queue.prefetch_count, 2);
    assert_eq!(cpu.queue.pending_sync_clocks, 0);
    assert_eq!(
        bus.events,
        vec![Event::ReadWord(0x2002), Event::IplHold, Event::Sync(4)]
    );
}

#[test]
fn m68000_and_long_data_register_flushes_tail_after_final_prefetch() {
    let mut cpu = m68000_cpu_with_one_prefetch_word();
    let mut bus = TraceBus::default();
    cpu.dar[0] = 0xff00_ff00;
    cpu.dar[1] = 0x0f0f_0f0f;

    // AND.L D1,D0
    let cycles = cpu.dispatch_group_c(&mut bus, 0xc081);

    assert_eq!(cycles, 8);
    assert_eq!(cpu.d(0), 0x0f00_0f00);
    assert_eq!(cpu.queue.prefetch_count, 2);
    assert_eq!(cpu.queue.pending_sync_clocks, 0);
    assert_eq!(
        bus.events,
        vec![Event::ReadWord(0x2002), Event::IplHold, Event::Sync(4)]
    );
}

#[test]
fn m68000_adda_word_register_source_flushes_tail_after_final_prefetch() {
    let mut cpu = m68000_cpu_with_one_prefetch_word();
    let mut bus = TraceBus::default();
    cpu.dar[1] = 0x0000_0002;
    cpu.dar[8] = 0x0000_1000;

    // ADDA.W D1,A0
    let cycles = cpu.dispatch_group_d(&mut bus, 0xd0c1);

    assert_eq!(cycles, 8);
    assert_eq!(cpu.a(0), 0x0000_1002);
    assert_eq!(cpu.queue.prefetch_count, 2);
    assert_eq!(cpu.queue.pending_sync_clocks, 0);
    assert_eq!(
        bus.events,
        vec![Event::ReadWord(0x2002), Event::IplHold, Event::Sync(4)]
    );
}

#[test]
fn m68000_suba_word_register_source_flushes_tail_after_final_prefetch() {
    let mut cpu = m68000_cpu_with_one_prefetch_word();
    let mut bus = TraceBus::default();
    cpu.dar[1] = 0x0000_0002;
    cpu.dar[8] = 0x0000_1000;

    // SUBA.W D1,A0
    let cycles = cpu.dispatch_group_9(&mut bus, 0x90c1);

    assert_eq!(cycles, 8);
    assert_eq!(cpu.a(0), 0x0000_0ffe);
    assert_eq!(cpu.queue.prefetch_count, 2);
    assert_eq!(cpu.queue.pending_sync_clocks, 0);
    assert_eq!(
        bus.events,
        vec![Event::ReadWord(0x2002), Event::IplHold, Event::Sync(4)]
    );
}

#[test]
fn adda_suba_word_data_register_source_sign_extends_without_changing_ccr() {
    for cpu_type in [
        CpuType::M68000,
        CpuType::M68010,
        CpuType::M68020,
        CpuType::M68030,
        CpuType::M68040,
    ] {
        for (source, expected_add, expected_sub) in [
            (0x0001_u32, 0x0000_1001_u32, 0x0000_0fff_u32),
            (0x7fff, 0x0000_8fff, 0xffff_9001),
            (0x8000, 0xffff_9000, 0x0000_9000),
            (0xffff, 0x0000_0fff, 0x0000_1001),
        ] {
            let mut add_cpu = CpuCore::new();
            add_cpu.set_cpu_type(cpu_type);
            add_cpu.pc = 0x2000;
            add_cpu.dar[7] = source;
            add_cpu.dar[15] = 0x0000_1000;
            add_cpu.set_ccr(0x1f);
            let add_ccr = add_cpu.get_ccr();
            let mut add_bus = TraceBus::default();

            // ADDA.W D7,A7
            assert_eq!(add_cpu.dispatch_group_d(&mut add_bus, 0xdec7), 8);
            assert_eq!(add_cpu.a(7), expected_add);
            assert_eq!(add_cpu.get_ccr(), add_ccr);

            let mut sub_cpu = CpuCore::new();
            sub_cpu.set_cpu_type(cpu_type);
            sub_cpu.pc = 0x2000;
            sub_cpu.dar[7] = source;
            sub_cpu.dar[15] = 0x0000_1000;
            sub_cpu.set_ccr(0x1f);
            let sub_ccr = sub_cpu.get_ccr();
            let mut sub_bus = TraceBus::default();

            // SUBA.W D7,A7
            assert_eq!(sub_cpu.dispatch_group_9(&mut sub_bus, 0x9ec7), 8);
            assert_eq!(sub_cpu.a(7), expected_sub);
            assert_eq!(sub_cpu.get_ccr(), sub_ccr);
        }
    }
}

#[test]
fn m68000_addx_long_data_register_flushes_tail_after_final_prefetch() {
    let mut cpu = m68000_cpu_with_one_prefetch_word();
    let mut bus = TraceBus::default();
    cpu.dar[0] = 0x0000_0001;
    cpu.dar[1] = 0x0000_0002;

    // ADDX.L D1,D0
    let cycles = cpu.dispatch_group_d(&mut bus, 0xd181);

    assert_eq!(cycles, 8);
    assert_eq!(cpu.d(0), 0x0000_0003);
    assert_eq!(cpu.queue.prefetch_count, 2);
    assert_eq!(cpu.queue.pending_sync_clocks, 0);
    assert_eq!(
        bus.events,
        vec![Event::ReadWord(0x2002), Event::IplHold, Event::Sync(4)]
    );
}

#[test]
fn m68000_cmpa_long_flushes_tail_after_final_prefetch() {
    let mut cpu = m68000_cpu_with_one_prefetch_word();
    let mut bus = TraceBus::default();
    cpu.dar[1] = 0x0000_1000;
    cpu.dar[8] = 0x0000_1000;

    // CMPA.L D1,A0
    let cycles = cpu.dispatch_group_b(&mut bus, 0xb1c1);

    assert_eq!(cycles, 6);
    assert_eq!(cpu.ccr.not_z_flag, 0);
    assert_eq!(cpu.queue.prefetch_count, 2);
    assert_eq!(cpu.queue.pending_sync_clocks, 0);
    assert_eq!(
        bus.events,
        vec![Event::ReadWord(0x2002), Event::IplHold, Event::Sync(2)]
    );
}

#[test]
fn m68000_eor_long_data_register_writes_after_final_prefetch() {
    let mut cpu = m68000_cpu_with_one_prefetch_word();
    let mut bus = TraceBus::default();
    cpu.dar[0] = 0xff00_ff00;
    cpu.dar[1] = 0x0f0f_0f0f;

    // EOR.L D1,D0
    let cycles = cpu.dispatch_group_b(&mut bus, 0xb380);

    assert_eq!(cycles, 8);
    assert_eq!(cpu.d(0), 0xf00f_f00f);
    assert_eq!(cpu.queue.prefetch_count, 2);
    assert_eq!(cpu.queue.pending_sync_clocks, 0);
    assert_eq!(
        bus.events,
        vec![Event::ReadWord(0x2002), Event::IplHold, Event::Sync(4)]
    );
}

#[test]
fn m68000_move_sr_data_register_writes_after_final_prefetch() {
    let mut cpu = m68000_cpu_with_one_prefetch_word();
    let mut bus = TraceBus::default();
    cpu.set_sr(0x270f);
    cpu.dar[0] = 0xaaaa_0000;

    // MOVE SR,D0
    let cycles = cpu.dispatch_group_4(&mut bus, 0x40c0);

    assert_eq!(cycles, 6);
    assert_eq!(cpu.d(0), 0xaaaa_270f);
    assert_eq!(cpu.queue.prefetch_count, 2);
    assert_eq!(cpu.queue.pending_sync_clocks, 0);
    assert_eq!(
        bus.events,
        vec![Event::ReadWord(0x2002), Event::IplHold, Event::Sync(2)]
    );
}

#[test]
fn m68010_move_sr_data_register_writes_after_final_prefetch() {
    let mut cpu = m68010_cpu_with_one_prefetch_word();
    let mut bus = TraceBus::default();
    cpu.set_sr(0x270f);
    cpu.dar[0] = 0xaaaa_0000;

    // MOVE SR,D0
    let cycles = cpu.dispatch_group_4(&mut bus, 0x40c0);

    assert_eq!(cycles, 4);
    assert_eq!(cpu.d(0), 0xaaaa_270f);
    assert_eq!(cpu.queue.prefetch_count, 2);
    assert_eq!(cpu.queue.pending_sync_clocks, 0);
    assert_eq!(bus.events, vec![Event::ReadWord(0x2002), Event::IplHold]);
}

#[test]
fn m68010_move_ccr_data_register_writes_after_final_prefetch() {
    let mut cpu = m68010_cpu_with_one_prefetch_word();
    let mut bus = TraceBus::default();
    cpu.set_ccr(0x0f);
    cpu.dar[0] = 0xaaaa_0000;

    // MOVE CCR,D0
    let cycles = cpu.dispatch_group_4(&mut bus, 0x42c0);

    assert_eq!(cycles, 4);
    assert_eq!(cpu.d(0), 0xaaaa_000f);
    assert_eq!(cpu.queue.prefetch_count, 2);
    assert_eq!(cpu.queue.pending_sync_clocks, 0);
    assert_eq!(bus.events, vec![Event::ReadWord(0x2002), Event::IplHold]);
}

#[test]
fn m68000_move_data_register_to_ccr_syncs_before_refill() {
    let mut cpu = m68000_cpu_with_one_prefetch_word();
    let mut bus = TraceBus::default();
    cpu.dar[0] = 0x0000_000f;

    // MOVE D0,CCR
    let cycles = cpu.dispatch_group_4(&mut bus, 0x44c0);

    assert_eq!(cycles, 12);
    assert_eq!(cpu.get_ccr(), 0x0f);
    assert_eq!(cpu.queue.prefetch_count, 2);
    assert_eq!(cpu.queue.pending_sync_clocks, 0);
    assert_eq!(
        bus.events,
        vec![
            Event::Sync(4),
            Event::ReadWord(0x2000),
            Event::ReadWord(0x2002)
        ]
    );
}

#[test]
fn m68000_move_data_register_to_sr_syncs_before_refill() {
    let mut cpu = m68000_cpu_with_one_prefetch_word();
    let mut bus = TraceBus::default();
    cpu.dar[0] = 0x0000_200f;

    // MOVE D0,SR
    let cycles = cpu.dispatch_group_4(&mut bus, 0x46c0);

    assert_eq!(cycles, 12);
    assert_eq!(cpu.get_sr(), 0x200f);
    assert_eq!(cpu.queue.prefetch_count, 2);
    assert_eq!(cpu.queue.pending_sync_clocks, 0);
    assert_eq!(
        bus.events,
        vec![
            Event::Sync(4),
            Event::ReadWord(0x2000),
            Event::ReadWord(0x2002)
        ]
    );
}

#[test]
fn m68000_move_an_to_usp_updates_after_final_prefetch() {
    let mut cpu = m68000_cpu_with_one_prefetch_word();
    let mut bus = TraceBus::default();
    cpu.dar[8] = 0x1234_5678;
    cpu.sp[0] = 0xaaaa_bbbb;

    // MOVE A0,USP
    let cycles = cpu.dispatch_group_4(&mut bus, 0x4e60);

    assert_eq!(cycles, 4);
    assert_eq!(cpu.get_usp(), 0x1234_5678);
    assert_eq!(cpu.queue.prefetch_count, 2);
    assert_eq!(cpu.queue.pending_sync_clocks, 0);
    assert_eq!(bus.events, vec![Event::ReadWord(0x2002), Event::IplHold]);
}

#[test]
fn m68000_move_usp_to_an_updates_after_final_prefetch() {
    let mut cpu = m68000_cpu_with_one_prefetch_word();
    let mut bus = TraceBus::default();
    cpu.sp[0] = 0x1234_5678;
    cpu.dar[8] = 0xaaaa_bbbb;

    // MOVE USP,A0
    let cycles = cpu.dispatch_group_4(&mut bus, 0x4e68);

    assert_eq!(cycles, 4);
    assert_eq!(cpu.a(0), 0x1234_5678);
    assert_eq!(cpu.queue.prefetch_count, 2);
    assert_eq!(cpu.queue.pending_sync_clocks, 0);
    assert_eq!(bus.events, vec![Event::ReadWord(0x2002), Event::IplHold]);
}
