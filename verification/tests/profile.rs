//! Sampling.

use m68k::batch::NoHook;
use m68k::cpu::CpuCore;
use m68k::memory::LinearMemoryBus;
use m68k::runner_profile::{
    begin_instruction, begin_interrupt, discard_instruction, dispatch_kind, elapsed_ns,
    finish_dispatch_body, finish_fetch, finish_instruction, finish_interrupt, note_bus_read,
    note_bus_write, open_sample, reset, set_dispatch_kind, snapshot, BusCounts, DispatchKind,
    ProbeLog, RunProbe, RunnerProfile, RunnerProfileSnapshot,
};
use m68k::types::CpuType;

fn profile(interval: u32, capacity: usize) -> RunnerProfile {
    let mut profile = RunnerProfile::default();
    reset(&mut profile, interval, capacity);
    profile
}

#[test]
fn every_third_instruction_is_sampled() {
    let mut p = profile(3, 8);
    let mut selected = Vec::new();
    for index in 0..9u64 {
        if begin_instruction(&mut p) {
            selected.push(index);
            open_sample(&mut p, 100 * index);
            finish_instruction(&mut p, 4, 100 * index + 40);
        } else {
            finish_instruction(&mut p, 4, 0);
        }
    }
    assert_eq!(selected.len(), 3);
    assert_eq!(selected[1] - selected[0], 3);
    assert_eq!(selected[2] - selected[1], 3);
    assert_eq!(snapshot(&p).samples.len(), 3);
}

#[test]
fn a_sample_measures_its_phases() {
    let mut p = profile(1, 4);
    assert!(begin_instruction(&mut p));
    open_sample(&mut p, 1000);
    note_bus_read(&mut p, 2);
    finish_fetch(&mut p, 0x1000, 0x3010, CpuType::M68000, 1010);
    set_dispatch_kind(&mut p, DispatchKind::Fallback);
    note_bus_read(&mut p, 2);
    note_bus_write(&mut p, 4);
    finish_dispatch_body(&mut p, 1050);
    finish_instruction(&mut p, 8, 1060);
    let taken = snapshot(&p);
    assert_eq!(taken.samples.len(), 1);
    let sample = taken.samples[0];
    assert_eq!(sample.opcode, 0x3010);
    assert_eq!(sample.cycles, 8);
    assert_eq!(sample.ppc, 0x1000);
    assert_eq!(sample.fetch_prepare_ns, 10);
    assert_eq!(sample.dispatch_body_ns, 40);
    assert_eq!(sample.finalize_boundary_ns, 10);
    assert_eq!(sample.bus.read_word, 2);
    assert_eq!(sample.bus.write_long, 1);
    assert_eq!(sample.bus.fetch_reads, 1);
    assert_eq!(sample.bus.data_bus_ops, 2);
}

#[test]
fn discarded_instructions_leave_no_sample() {
    let mut p = profile(1, 4);
    assert!(begin_instruction(&mut p));
    open_sample(&mut p, 0);
    discard_instruction(&mut p);
    assert!(snapshot(&p).samples.is_empty());
}

#[test]
fn interrupts_are_timed_while_one_is_pending() {
    assert!(!begin_interrupt(0));
    assert!(begin_interrupt(3));
    let mut p = profile(1, 4);
    finish_interrupt(&mut p, Some(10), true, 35);
    finish_interrupt(&mut p, None, false, 0);
    finish_interrupt(&mut p, Some(40), false, 41);
    let taken = snapshot(&p);
    assert_eq!(taken.interrupt_samples, 1);
    assert_eq!(taken.interrupt_nanoseconds, 25);
}

#[test]
fn dispatch_kinds() {
    assert_eq!(dispatch_kind(CpuType::M68000, 0x4E71), DispatchKind::Nop);
    assert_eq!(dispatch_kind(CpuType::M68040, 0x4E71), DispatchKind::Fallback);
    assert_eq!(dispatch_kind(CpuType::M68000, 0x7001), DispatchKind::Moveq);
    assert_eq!(dispatch_kind(CpuType::M68000, 0x4240), DispatchKind::ClrWord);
    assert_eq!(dispatch_kind(CpuType::M68000, 0x4280), DispatchKind::ClrLong);
    assert_eq!(dispatch_kind(CpuType::M68000, 0xD041), DispatchKind::Fallback);
}

#[test]
fn time_does_not_run_backwards() {
    assert_eq!(elapsed_ns(5, 9), 4);
    assert_eq!(elapsed_ns(9, 5), 0);
}

#[test]
fn reads_after_the_opcode_fetch_are_data() {
    let mut p = profile(1, 4);
    assert!(begin_instruction(&mut p));
    open_sample(&mut p, 0);
    finish_fetch(&mut p, 0x1000, 0x4E71, CpuType::M68000, 1);
    finish_dispatch_body(&mut p, 2);
    note_bus_read(&mut p, 2);
    finish_instruction(&mut p, 4, 3);
    let expected = BusCounts { read_word: 1, data_bus_ops: 1, ..BusCounts::default() };
    assert_eq!(snapshot(&p).samples[0].bus, expected);
}

#[test]
fn snapshots_can_be_copied_and_compared() {
    let empty = RunnerProfileSnapshot::default();
    assert_eq!(snapshot(&RunnerProfile::default()), empty);
    assert_eq!(empty.clone(), empty);
    assert_ne!(snapshot(&profile(3, 1)), empty);
}

/// A profile with a clock that ticks once per reading.
struct Ticking {
    profile: RunnerProfile,
    now: u64,
    interrupt_start: Option<u64>,
}

impl Ticking {
    fn tick(&mut self) -> u64 {
        self.now += 1;
        self.now
    }
}

impl RunProbe for Ticking {
    fn heard(&self) -> ProbeLog {
        unreachable!()
    }

    fn begin_instruction(&mut self) {
        if begin_instruction(&mut self.profile) {
            let now = self.tick();
            open_sample(&mut self.profile, now);
        }
    }

    fn finish_fetch(&mut self, ppc: u32, opcode: u16, cpu_type: CpuType) {
        let now = self.tick();
        finish_fetch(&mut self.profile, ppc, opcode, cpu_type, now);
    }

    fn set_dispatch_kind(&mut self, dispatch: DispatchKind) {
        set_dispatch_kind(&mut self.profile, dispatch);
    }

    fn finish_dispatch_body(&mut self) {
        let now = self.tick();
        finish_dispatch_body(&mut self.profile, now);
    }

    fn finish_instruction(&mut self, cycles: i32) {
        let now = self.tick();
        finish_instruction(&mut self.profile, cycles, now);
    }

    fn discard_instruction(&mut self) {
        discard_instruction(&mut self.profile);
    }

    fn begin_interrupt(&mut self, level: u32) {
        let now = self.tick();
        self.interrupt_start = if begin_interrupt(level) { Some(now) } else { None };
    }

    fn finish_interrupt(&mut self, serviced: bool) {
        let now = self.tick();
        finish_interrupt(&mut self.profile, self.interrupt_start.take(), serviced, now);
    }
}

fn rig(words: &[u16]) -> (CpuCore, LinearMemoryBus) {
    let mut bus = LinearMemoryBus::new(0x10000);
    for (i, word) in words.iter().enumerate() {
        bus.write_word_at(0x1000 + 2 * i as u32, *word);
    }
    let mut cpu = CpuCore::new();
    cpu.set_cpu_type(CpuType::M68000);
    cpu.set_sr(0x2700);
    cpu.set_sp(0x8000);
    cpu.pc = 0x1000;
    (cpu, bus)
}

#[test]
fn a_profiled_run_samples_and_runs_the_same() {
    // NOP; MOVEQ #5,D1; CLR.W D1; CLR.L D0; ADDQ.L #1,D0; an A-line opcode
    let words = [0x4E71, 0x7205, 0x4241, 0x4280, 0x5280, 0xA001];
    let (mut cpu, mut bus) = rig(&words);
    let mut probe = Ticking { profile: profile(1, 16), now: 0, interrupt_start: None };
    let result = cpu.run_for_cycles_profiled(&mut bus, &mut probe, 1000, &mut NoHook);
    let (mut plain, mut plain_bus) = rig(&words);
    let expected = plain.run_for_cycles_with_boundary_hook(&mut plain_bus, 1000, &mut NoHook);
    assert_eq!(result, expected);
    assert_eq!((cpu.dar, cpu.pc), (plain.dar, plain.pc));
    let taken = snapshot(&probe.profile);
    assert_eq!(taken.observed_instructions, 6);
    let kinds: Vec<DispatchKind> = taken.samples.iter().map(|sample| sample.dispatch).collect();
    assert_eq!(
        kinds,
        vec![
            DispatchKind::Nop,
            DispatchKind::Moveq,
            DispatchKind::ClrWord,
            DispatchKind::ClrLong,
            DispatchKind::Fallback,
        ]
    );
    assert_eq!(taken.samples[1].ppc, 0x1002);
    assert_eq!(taken.samples[1].opcode, 0x7205);
    assert_eq!(taken.samples[4].cycles, 8);
    assert_eq!(taken.samples[4].finalize_boundary_ns, 1);
    assert!(probe.profile.active.is_none());
}

#[test]
fn a_profiled_run_times_its_interrupts() {
    let (mut cpu, mut bus) = rig(&[0x4E71]);
    cpu.set_sr(0x2000);
    cpu.run.int_level = 3;
    bus.write_long_at(4 * (24 + 3), 0x1000);
    let mut probe = Ticking { profile: profile(4, 16), now: 0, interrupt_start: None };
    cpu.run_for_cycles_profiled(&mut bus, &mut probe, 45, &mut NoHook);
    let taken = snapshot(&probe.profile);
    assert_eq!(taken.interrupt_samples, 1);
    assert_eq!(taken.interrupt_nanoseconds, 1);
}

#[test]
fn every_third_completed_attempt_is_sampled() {
    // Six NOPs and an A-line opcode: attempts three and six are sampled.
    let words = [0x4E71, 0x4E71, 0x7001, 0x4E71, 0x4E71, 0x7002, 0xA001];
    let (mut cpu, mut bus) = rig(&words);
    let mut probe = Ticking { profile: profile(3, 16), now: 0, interrupt_start: None };
    cpu.run_for_cycles_profiled(&mut bus, &mut probe, 1000, &mut NoHook);
    let taken = snapshot(&probe.profile);
    let said: Vec<(u32, u16, i32)> =
        taken.samples.iter().map(|sample| (sample.ppc, sample.opcode, sample.cycles)).collect();
    assert_eq!(said, vec![(0x1004, 0x7001, 4), (0x100A, 0x7002, 4)]);
    assert_eq!(taken.observed_instructions, 7);
}

#[test]
fn a_faulted_instruction_leaves_its_slot_to_nobody() {
    // MOVE.W (A0),D0 at an odd address faults; the handler is two NOPs and an
    // A-line opcode.
    let (mut cpu, mut bus) = rig(&[0x4E71, 0x3010]);
    cpu.set_a(0, 0x2001);
    bus.write_long_at(4 * 3, 0x3000);
    for (i, word) in [0x4E71u16, 0x4E71, 0xA001].iter().enumerate() {
        bus.write_word_at(0x3000 + 2 * i as u32, *word);
    }
    let mut probe = Ticking { profile: profile(2, 16), now: 0, interrupt_start: None };
    cpu.run_for_cycles_profiled(&mut bus, &mut probe, 1000, &mut NoHook);
    let taken = snapshot(&probe.profile);
    let said: Vec<u32> = taken.samples.iter().map(|sample| sample.ppc).collect();
    assert_eq!(said, vec![0x3002]);
    assert_eq!(taken.observed_instructions, 5);
}
