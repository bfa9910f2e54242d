//! A host bus that counts for a profile and lends part of its memory.

use m68k::batch::NoHook;
use m68k::cpu::{CpuCore, MmuRegs};
use m68k::memory::{
    AddressBus, BusFault, BusView, FastMem, LinearMemoryBus, MmuFault, Probe, ProbeResult,
    Retirement, Translation, UnitOp,
};
use m68k::runner_profile::{
    begin_instruction, discard_instruction, finish_dispatch_body, finish_fetch,
    finish_instruction, mark_next_bus_read_as_fetch, note_bus_read, note_bus_write, open_sample,
    reset, set_dispatch_kind, snapshot, DispatchKind, ProbeLog, RunProbe, RunnerProfile,
};
use m68k::types::{BatchExit, CpuType};
use std::cell::RefCell;
use std::rc::Rc;

type Shared = Rc<RefCell<RunnerProfile>>;

struct HostBus {
    memory: LinearMemoryBus,
    profile: Shared,
    lent: Option<FastMem>,
}

impl HostBus {
    fn read(&self, size: u8) {
        note_bus_read(&mut self.profile.borrow_mut(), size);
    }

    fn write(&self, size: u8) {
        note_bus_write(&mut self.profile.borrow_mut(), size);
    }
}

impl AddressBus for HostBus {
    fn view(&self) -> BusView {
        unreachable!()
    }

    fn read_byte(&mut self, address: u32) -> u8 {
        self.read(1);
        self.memory.read_byte(address)
    }

    fn write_byte(&mut self, address: u32, value: u8) {
        self.write(1);
        self.memory.write_byte(address, value);
    }

    fn try_read_byte(&mut self, address: u32) -> Result<u8, BusFault> {
        Ok(self.read_byte(address))
    }

    fn try_write_byte(&mut self, address: u32, value: u8) -> Result<(), BusFault> {
        self.write_byte(address, value);
        Ok(())
    }

    fn read_word(&mut self, address: u32) -> u16 {
        self.read(2);
        self.memory.read_word(address)
    }

    fn write_word(&mut self, address: u32, value: u16) {
        self.write(2);
        self.memory.write_word(address, value);
    }

    fn try_read_word(&mut self, address: u32) -> Result<u16, BusFault> {
        Ok(self.read_word(address))
    }

    fn try_write_word(&mut self, address: u32, value: u16) -> Result<(), BusFault> {
        self.write_word(address, value);
        Ok(())
    }

    fn read_long(&mut self, address: u32) -> u32 {
        self.read(4);
        self.memory.read_long(address)
    }

    fn write_long(&mut self, address: u32, value: u32) {
        self.write(4);
        self.memory.write_long(address, value);
    }

    fn try_read_long(&mut self, address: u32) -> Result<u32, BusFault> {
        Ok(self.read_long(address))
    }

    fn try_write_long(&mut self, address: u32, value: u32) -> Result<(), BusFault> {
        self.write_long(address, value);
        Ok(())
    }

    fn try_read_three_bytes(&mut self, address: u32) -> Result<u32, BusFault> {
        self.memory.try_read_three_bytes(address)
    }

    fn try_write_three_bytes(&mut self, address: u32, value: u32) -> Result<(), BusFault> {
        self.memory.try_write_three_bytes(address, value)
    }

    fn read_immediate_word(&mut self, address: u32) -> u16 {
        self.memory.read_immediate_word(address)
    }

    fn read_immediate_long(&mut self, address: u32) -> u32 {
        self.memory.read_immediate_long(address)
    }

    fn interrupt_acknowledge(&mut self, _level: u8) -> u32 {
        0xFFFF_FFFF
    }

    fn reset_devices(&mut self) {}

    fn sync(&mut self, _clocks: u32) {}

    fn ipl_hold_sample(&mut self) {}

    fn ipl_release_sample(&mut self) {}

    fn begin_instruction_fetches(&mut self) {}

    fn prefetch_refill(&mut self) {
        mark_next_bus_read_as_fetch(&mut self.profile.borrow_mut());
    }

    fn last_fetch_was_cached(&mut self) -> bool {
        false
    }

    fn instruction_fetches_were_cached(&mut self) -> bool {
        false
    }

    fn instruction_boundary_requested(&mut self) -> bool {
        false
    }

    fn fast_mem(&mut self) -> Option<FastMem> {
        self.lent
    }

    fn translate(
        &mut self,
        _mmu: MmuRegs,
        _cpu_type: CpuType,
        access: Translation,
    ) -> Result<u32, MmuFault> {
        Ok(access.address)
    }

    fn probe(&mut self, _mmu: MmuRegs, _cpu_type: CpuType, _request: Probe) -> ProbeResult {
        ProbeResult { status: 0, descriptor: 0 }
    }

    fn retire_cycles(&mut self, _cpu_type: CpuType, record: Retirement) -> i32 {
        record.base_cycles
    }

    fn unit(&mut self, _cpu: &mut CpuCore, _op: UnitOp) -> Option<i32> {
        None
    }

    fn window(&mut self) -> &mut [u8] {
        let memory = self.memory.window();
        match self.lent {
            Some(lent) => {
                let base = lent.base as usize;
                &mut memory[base..base + lent.len as usize]
            }
            None => memory,
        }
    }
}

struct Sampling(Shared);

impl RunProbe for Sampling {
    fn heard(&self) -> ProbeLog {
        unreachable!()
    }

    fn begin_instruction(&mut self) {
        let mut profile = self.0.borrow_mut();
        if begin_instruction(&mut profile) {
            open_sample(&mut profile, 0);
        }
    }

    fn finish_fetch(&mut self, ppc: u32, opcode: u16, cpu_type: CpuType) {
        finish_fetch(&mut self.0.borrow_mut(), ppc, opcode, cpu_type, 0);
    }

    fn set_dispatch_kind(&mut self, dispatch: DispatchKind) {
        set_dispatch_kind(&mut self.0.borrow_mut(), dispatch);
    }

    fn finish_dispatch_body(&mut self) {
        finish_dispatch_body(&mut self.0.borrow_mut(), 0);
    }

    fn finish_instruction(&mut self, cycles: i32) {
        finish_instruction(&mut self.0.borrow_mut(), cycles, 0);
    }

    fn discard_instruction(&mut self) {
        discard_instruction(&mut self.0.borrow_mut());
    }

    fn begin_interrupt(&mut self, _level: u32) {}

    fn finish_interrupt(&mut self, _serviced: bool) {}
}

fn rig(cpu_type: CpuType, words: &[u16], lent: Option<FastMem>) -> (CpuCore, HostBus) {
    let mut memory = LinearMemoryBus::new(0x10000);
    for (i, word) in words.iter().enumerate() {
        memory.write_word_at(0x1000 + 2 * i as u32, *word);
    }
    let mut profile = RunnerProfile::default();
    reset(&mut profile, 1, 16);
    let bus = HostBus { memory, profile: Rc::new(RefCell::new(profile)), lent };
    let mut cpu = CpuCore::new();
    cpu.set_cpu_type(cpu_type);
    cpu.set_sr(0x2700);
    cpu.set_sp(0x8000);
    cpu.pc = 0x1000;
    (cpu, bus)
}

#[test]
fn refills_count_with_the_instruction_stream() {
    // NOP; MOVE.W (A0),D0; MOVE.W D0,(A0); NOP; A-line
    let (mut cpu, mut bus) =
        rig(CpuType::M68000, &[0x4E71, 0x3010, 0x3080, 0x4E71, 0xA001], None);
    cpu.set_a(0, 0x4000);
    let profile = bus.profile.clone();
    cpu.run_for_cycles_profiled(&mut bus, &mut Sampling(profile.clone()), 1000, &mut NoHook);
    let taken = snapshot(&profile.borrow());
    let counts: Vec<(u32, u32)> = taken
        .samples
        .iter()
        .map(|sample| (sample.bus.fetch_reads, sample.bus.data_bus_ops))
        .collect();
    // The first instruction fills the queue; each one replaces the word it used.
    assert_eq!(counts[1..], [(1, 1), (1, 1), (1, 0)]);
    assert_eq!(counts[0].1, 0);
}

#[test]
fn a_lent_range_is_the_memory_it_lies_in() {
    // MOVE.W (A0)+,D0; ADD.W D0,D1; MOVE.W D1,(A1)+; ADDQ.W #1,(A2); DBRA D7,back
    let words = [0x3018, 0xD240, 0x32C1, 0x5252, 0x51CF, 0xFFF6];
    let lent = Some(FastMem { base: 0x0800, len: 0x3000 });
    for cpu_type in [CpuType::M68000, CpuType::M68020, CpuType::M68040] {
        let (mut fast, mut fast_bus) = rig(cpu_type, &words, lent);
        let (mut slow, mut slow_bus) = rig(cpu_type, &words, None);
        for (cpu, bus) in [(&mut fast, &mut fast_bus), (&mut slow, &mut slow_bus)] {
            // A0 and A2 start inside the range, A1 runs out of it.
            cpu.set_a(0, 0x2000);
            cpu.set_a(1, 0x37F8);
            cpu.set_a(2, 0x3000);
            cpu.set_d(7, 9);
            for i in 0..16u32 {
                bus.memory.write_word_at(0x2000 + 2 * i, 7 * i as u16 + 1);
            }
        }
        let result = fast.run_batch(&mut fast_bus, 50, &[]);
        assert_eq!(result.exit, BatchExit::BudgetExhausted);
        for _ in 0..50 {
            slow.step(&mut slow_bus);
        }
        assert_eq!(fast.dar, slow.dar, "{cpu_type:?}");
        assert_eq!(fast.pc, slow.pc);
        assert_eq!(fast.get_sr(), slow.get_sr());
        assert!(fast_bus.memory.as_slice() == slow_bus.memory.as_slice());
    }
}
