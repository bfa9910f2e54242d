//! Cycle-budgeted and instruction-budgeted runs, hooks, traps and interrupts.

use m68k::batch::{BoundaryHook, CachedRunResult, HookView, NoHook};
use m68k::cpu::CpuCore;
use m68k::execute::iack_vector;
use m68k::hle::{HleHandler, HleView, NoHle};
use m68k::memory::{AddressBus, LinearMemoryBus};
use m68k::op_cache::{DecodedSimpleOp, JitTraceOp};
use m68k::types::{
    BatchExit, CpuType, CycleBatchControl, CycleBatchExit, CycleBoundaryEvent, StepResult,
};

fn rig(cpu_type: CpuType, words: &[u16]) -> (CpuCore, LinearMemoryBus) {
    let mut bus = LinearMemoryBus::new(0x10000);
    for (i, word) in words.iter().enumerate() {
        bus.write_word_at(0x1000 + 2 * i as u32, *word);
    }
    let mut cpu = CpuCore::new();
    cpu.set_cpu_type(cpu_type);
    cpu.set_sr(0x2700);
    cpu.set_sp(0x8000);
    cpu.pc = 0x1000;
    (cpu, bus)
}

/// ADDQ.L #1,D0; BRA.S back.
const LOOP: [u16; 2] = [0x5280, 0x60FC];

struct Recorder {
    events: Vec<CycleBoundaryEvent>,
    stop_after: usize,
    raise: Option<u32>,
}

impl BoundaryHook<LinearMemoryBus> for Recorder {
    fn view(&self) -> HookView {
        unreachable!()
    }

    fn boundary(
        &mut self,
        cpu: &mut CpuCore,
        _bus: &mut LinearMemoryBus,
        event: CycleBoundaryEvent,
    ) -> CycleBatchControl {
        self.events.push(event);
        if let Some(level) = self.raise.take() {
            cpu.run.int_level = level;
        } else if matches!(event, CycleBoundaryEvent::InterruptEntry { .. }) {
            cpu.run.int_level = 0;
        }
        if self.events.len() >= self.stop_after {
            CycleBatchControl::Return
        } else {
            CycleBatchControl::Continue
        }
    }
}

#[test]
fn nothing_runs_without_a_budget() {
    let (mut cpu, mut bus) = rig(CpuType::M68000, &LOOP);
    let result = cpu.run_for_cycles(&mut bus, 0);
    assert_eq!(result.cycles, 0);
    assert_eq!(result.instructions, 0);
    assert_eq!(result.exit, CycleBatchExit::BudgetExhausted);
    assert_eq!(cpu.pc, 0x1000);
    let batch = cpu.run_batch(&mut bus, 0, &[]);
    assert_eq!(batch.instructions, 0);
    assert_eq!(batch.exit, BatchExit::BudgetExhausted);
    assert_eq!(cpu.d(0), 0);
}

#[test]
fn a_cycle_run_spends_its_budget() {
    let (mut cpu, mut bus) = rig(CpuType::M68000, &LOOP);
    // Eight clocks for ADDQ.L and ten for the branch.
    let result = cpu.run_for_cycles(&mut bus, 36);
    assert_eq!(result.cycles, 36);
    assert_eq!(result.instructions, 4);
    assert_eq!(cpu.d(0), 2);
    let result = cpu.run_for_cycles(&mut bus, 1);
    assert_eq!((result.cycles, result.instructions), (8, 1));
}

#[test]
fn execute_reports_the_cycles_it_used() {
    let (mut cpu, mut bus) = rig(CpuType::M68000, &LOOP);
    assert_eq!(cpu.execute(&mut bus, 100), 108);
    assert_eq!(cpu.d(0), 6);
}

#[test]
fn a_batch_retires_exactly_its_budget() {
    for cpu_type in [CpuType::M68000, CpuType::M68020, CpuType::M68040] {
        let (mut cpu, mut bus) = rig(cpu_type, &LOOP);
        let result = cpu.run_batch(&mut bus, 5001, &[0]);
        assert_eq!(result.instructions, 5001);
        assert_eq!(result.exit, BatchExit::BudgetExhausted);
        assert_eq!(cpu.d(0), 2501);
        assert_eq!(cpu.pc, 0x1002);
        assert_eq!((cpu.host.fm_base, cpu.host.fm_len), (0, 0));
    }
}

#[test]
fn a_batch_stops_at_a_watched_pc() {
    let (mut cpu, mut bus) = rig(CpuType::M68040, &[0x4E71, 0x4E71, 0x7005, 0x60FE]);
    let result = cpu.run_batch(&mut bus, 1000, &[0x1004]);
    assert_eq!(result.exit, BatchExit::WatchedPc { pc: 0x1004 });
    assert_eq!(result.instructions, 2);
    assert_eq!(cpu.d(0), 0);
}

#[test]
fn a_batch_runs_memory_operations_in_the_window() {
    // MOVE.W d16(A5),D1; ADDQ.W #1,d16(A5); BTST #3,d16(A5); CLR.B (A0)+; BRA.S back
    let words = [0x322D, 0x0100, 0x526D, 0x0100, 0x082D, 0x0003, 0x0100, 0x4218, 0x60EE];
    let (mut cpu, mut bus) = rig(CpuType::M68040, &words);
    cpu.set_a(5, 0x4000);
    cpu.set_a(0, 0x6000);
    bus.load(0x6000, &[0xFF; 8]);
    let result = cpu.run_batch(&mut bus, 20, &[]);
    assert_eq!(result.instructions, 20);
    assert_eq!(bus.as_slice()[0x4100..0x4102], [0, 4]);
    assert_eq!(bus.as_slice()[0x6000..0x6008], [0, 0, 0, 0, 0xFF, 0xFF, 0xFF, 0xFF]);
    assert_eq!(cpu.a(0), 0x6004);
    assert_eq!(cpu.d(1), 3);
}

#[test]
fn batch_and_single_steps_agree() {
    let words = [0x7005, 0x5280, 0x2200, 0xE289, 0xD041, 0x4840, 0x51C8, 0xFFF2, 0x60FE];
    let (mut batch_cpu, mut batch_bus) = rig(CpuType::M68020, &words);
    let (mut step_cpu, mut step_bus) = rig(CpuType::M68020, &words);
    batch_cpu.run_batch(&mut batch_bus, 100, &[]);
    for _ in 0..100 {
        assert!(matches!(step_cpu.step(&mut step_bus), StepResult::Completed { .. }));
    }
    assert_eq!(batch_cpu.dar, step_cpu.dar);
    assert_eq!(batch_cpu.pc, step_cpu.pc);
    assert_eq!(batch_cpu.get_sr(), step_cpu.get_sr());
}

#[test]
fn hooks_see_every_boundary() {
    let (mut cpu, mut bus) = rig(CpuType::M68000, &LOOP);
    let mut hook = Recorder { events: Vec::new(), stop_after: 100, raise: None };
    let result = cpu.run_for_cycles_with_boundary_hook(&mut bus, 36, &mut hook);
    assert_eq!(result.exit, CycleBatchExit::BudgetExhausted);
    assert_eq!(
        hook.events,
        vec![
            CycleBoundaryEvent::Instruction { cycles: 8 },
            CycleBoundaryEvent::Instruction { cycles: 10 },
            CycleBoundaryEvent::Instruction { cycles: 8 },
            CycleBoundaryEvent::Instruction { cycles: 10 },
        ]
    );
}

#[test]
fn a_hook_can_end_the_run() {
    let (mut cpu, mut bus) = rig(CpuType::M68000, &LOOP);
    let mut hook = Recorder { events: Vec::new(), stop_after: 3, raise: None };
    let result = cpu.run_for_cycles_with_hook(&mut bus, 1000, &mut hook);
    assert_eq!(result.exit, CycleBatchExit::BoundaryRequested);
    assert_eq!(result.instructions, 3);
    assert_eq!(result.cycles, 26);
}

#[test]
fn an_interrupt_raised_by_the_hook_is_taken_next() {
    let (mut cpu, mut bus) = rig(CpuType::M68000, &LOOP);
    cpu.set_sr(0x2000);
    bus.write_long_at(4 * (24 + 5), 0x3000);
    bus.write_word_at(0x3000, 0x4E71);
    let mut hook = Recorder { events: Vec::new(), stop_after: 2, raise: Some(5) };
    let result = cpu.run_for_cycles_with_boundary_hook(&mut bus, 1000, &mut hook);
    assert_eq!(result.exit, CycleBatchExit::BoundaryRequested);
    assert_eq!(hook.events[0], CycleBoundaryEvent::Instruction { cycles: 8 });
    assert_eq!(hook.events[1], CycleBoundaryEvent::InterruptEntry { cycles: 44 });
    assert_eq!(cpu.pc, 0x3000);
    assert_eq!(cpu.get_sr(), 0x2500);
    assert_eq!(bus.as_slice()[0x7FFA..0x8000], [0x20, 0x00, 0x00, 0x00, 0x10, 0x02]);
}

#[test]
fn masked_interrupts_wait() {
    let (mut cpu, mut bus) = rig(CpuType::M68000, &LOOP);
    cpu.set_sr(0x2500);
    cpu.run.int_level = 5;
    cpu.step(&mut bus);
    assert_eq!(cpu.pc, 0x1002);
    cpu.run.int_level = 6;
    bus.write_long_at(4 * (24 + 6), 0x3000);
    cpu.step(&mut bus);
    assert_eq!(cpu.pc, 0x3000);
    assert_eq!(cpu.get_sr(), 0x2600);
}

#[test]
fn acknowledged_vectors() {
    assert_eq!(iack_vector(0xFFFF_FFFF, 3), 27);
    assert_eq!(iack_vector(0x40, 3), 0x40);
    assert_eq!(iack_vector(0x1FF, 3), 0xFF);
}

#[test]
fn traps_surface_untouched() {
    for (opcode, exit) in [
        (0xA123u16, StepResult::AlineTrap { opcode: 0xA123 }),
        (0x4E43, StepResult::TrapInstruction { trap_num: 3 }),
        (0x4AFC, StepResult::IllegalInstruction { opcode: 0x4AFC }),
        (0xF123, StepResult::FlineTrap { opcode: 0xF123 }),
    ] {
        let (mut cpu, mut bus) = rig(CpuType::M68000, &[opcode]);
        let before = cpu.dar;
        assert_eq!(cpu.step(&mut bus), exit);
        assert_eq!(cpu.dar, before);
        assert_eq!(cpu.get_sr(), 0x2700);
        assert_eq!(cpu.pc, 0x1002);
    }
    let (mut cpu, mut bus) = rig(CpuType::M68010, &[0x484D]);
    assert_eq!(cpu.step(&mut bus), StepResult::Breakpoint { bp_num: 5 });
}

#[test]
fn traps_end_a_run_and_a_batch() {
    let (mut cpu, mut bus) = rig(CpuType::M68000, &[0x4E71, 0xA001]);
    let result = cpu.run_for_cycles(&mut bus, 1000);
    assert_eq!(result.exit, CycleBatchExit::AlineTrap { opcode: 0xA001 });
    assert_eq!((result.instructions, result.cycles), (1, 4));
    let (mut cpu, mut bus) = rig(CpuType::M68000, &[0x4E71, 0x4E4F]);
    let result = cpu.run_batch(&mut bus, 1000, &[]);
    assert_eq!(result.exit, BatchExit::TrapInstruction { trap_num: 15 });
    let (mut cpu, mut bus) = rig(CpuType::M68000, &[0x4E71, 0x4AFC]);
    let result = cpu.run_batch(&mut bus, 1000, &[]);
    assert_eq!(result.exit, BatchExit::IllegalInstruction { opcode: 0x4AFC });
}

#[test]
fn a_stopped_processor_waits_for_an_interrupt() {
    // STOP #$2000
    let (mut cpu, mut bus) = rig(CpuType::M68000, &[0x4E72, 0x2000]);
    bus.write_long_at(4 * (24 + 2), 0x3000);
    assert!(matches!(cpu.step(&mut bus), StepResult::Completed { .. }));
    assert!(cpu.is_stopped());
    assert_eq!(cpu.step(&mut bus), StepResult::Stopped);
    assert_eq!(cpu.run_batch(&mut bus, 10, &[]).exit, BatchExit::Stopped);
    assert_eq!(cpu.run_for_cycles(&mut bus, 10).exit, CycleBatchExit::Stopped);
    cpu.run.int_level = 2;
    assert_eq!(cpu.run_for_cycles(&mut bus, 1).exit, CycleBatchExit::BudgetExhausted);
    assert!(!cpu.is_stopped());
    assert_eq!(cpu.pc, 0x3000);
}

struct Handles;

impl HleHandler for Handles {
    fn view(&self) -> HleView {
        unreachable!()
    }

    fn handle_aline<B: AddressBus>(&mut self, cpu: &mut CpuCore, _bus: &mut B, opcode: u16) -> bool {
        cpu.set_d(0, opcode as u32);
        true
    }

    fn handle_fline<B: AddressBus>(&mut self, _cpu: &mut CpuCore, _bus: &mut B, _opcode: u16) -> bool {
        false
    }

    fn handle_trap<B: AddressBus>(&mut self, _cpu: &mut CpuCore, _bus: &mut B, trap_num: u8) -> bool {
        trap_num == 1
    }

    fn handle_breakpoint<B: AddressBus>(&mut self, _cpu: &mut CpuCore, _bus: &mut B, _bp_num: u8) -> bool {
        false
    }

    fn handle_illegal<B: AddressBus>(&mut self, _cpu: &mut CpuCore, _bus: &mut B, _opcode: u16) -> bool {
        false
    }
}

#[test]
fn handled_traps_resume_after_the_opcode() {
    let (mut cpu, mut bus) = rig(CpuType::M68000, &[0xA123, 0x4E41]);
    let result = cpu.step_with_hle_handler(&mut bus, &mut Handles);
    assert!(matches!(result, StepResult::Completed { .. }));
    assert_eq!(cpu.d(0), 0xA123);
    assert_eq!(cpu.pc, 0x1002);
    cpu.step_with_hle_handler(&mut bus, &mut Handles);
    assert_eq!(cpu.pc, 0x1004);
    assert_eq!(cpu.sp(), 0x8000);
}

#[test]
fn unhandled_traps_take_their_exception() {
    for (opcode, vector) in [(0xA123u16, 10u32), (0xF123, 11), (0x4E42, 34), (0x4AFC, 4)] {
        let (mut cpu, mut bus) = rig(CpuType::M68000, &[opcode]);
        bus.write_long_at(4 * vector, 0x3000);
        cpu.step_with_hle_handler(&mut bus, &mut NoHle);
        assert_eq!(cpu.pc, 0x3000, "{opcode:04x}");
        assert_eq!(cpu.sp(), 0x8000 - 6);
    }
}

#[test]
fn a_run_without_hook_is_a_run_with_an_idle_hook() {
    let (mut plain, mut plain_bus) = rig(CpuType::M68000, &LOOP);
    let (mut hooked, mut hooked_bus) = rig(CpuType::M68000, &LOOP);
    let a = plain.run_for_cycles(&mut plain_bus, 200);
    let b = hooked.run_for_cycles_with_hook(&mut hooked_bus, 200, &mut NoHook);
    assert_eq!(a, b);
    assert_eq!(plain.dar, hooked.dar);
    assert_eq!(plain.pc, hooked.pc);
}

#[test]
fn a_boundary_request_outranks_the_budget() {
    let (mut cpu, mut bus) = rig(CpuType::M68000, &LOOP);
    let mut hook = Recorder { events: Vec::new(), stop_after: 1, raise: None };
    let result = cpu.run_for_cycles_with_hook(&mut bus, 8, &mut hook);
    assert_eq!(result.exit, CycleBatchExit::BoundaryRequested);
    assert_eq!((result.cycles, result.instructions), (8, 1));
    let (mut cpu, mut bus) = rig(CpuType::M68000, &LOOP);
    let mut hook = Recorder { events: Vec::new(), stop_after: 2, raise: None };
    let result = cpu.run_for_cycles_with_hook(&mut bus, 8, &mut hook);
    assert_eq!(result.exit, CycleBatchExit::BudgetExhausted);
}

#[test]
fn a_pending_interrupt_waits_behind_a_boundary_request() {
    let (mut cpu, mut bus) = rig(CpuType::M68000, &LOOP);
    cpu.set_sr(0x2000);
    bus.write_long_at(4 * (24 + 5), 0x3000);
    let mut hook = Recorder { events: Vec::new(), stop_after: 1, raise: Some(5) };
    let result = cpu.run_for_cycles_with_boundary_hook(&mut bus, 1000, &mut hook);
    assert_eq!(result.exit, CycleBatchExit::BoundaryRequested);
    assert_eq!(hook.events, vec![CycleBoundaryEvent::Instruction { cycles: 8 }]);
    assert_eq!(cpu.pc, 0x1002);
    assert_eq!(cpu.get_sr(), 0x2000);
}

#[test]
fn stop_and_traps_are_no_event_for_the_hook() {
    // STOP #$2700 uses up its whole budget.
    let (mut cpu, mut bus) = rig(CpuType::M68000, &[0x4E72, 0x2700]);
    let mut hook = Recorder { events: Vec::new(), stop_after: 9, raise: None };
    let result = cpu.run_for_cycles_with_hook(&mut bus, 1, &mut hook);
    assert_eq!(result.exit, CycleBatchExit::Stopped);
    assert!(hook.events.is_empty());
    let (mut cpu, mut bus) = rig(CpuType::M68000, &[0x4E71, 0xA001]);
    let result = cpu.run_for_cycles_with_hook(&mut bus, 1000, &mut hook);
    assert_eq!(result.exit, CycleBatchExit::AlineTrap { opcode: 0xA001 });
    assert_eq!(hook.events, vec![CycleBoundaryEvent::Instruction { cycles: 4 }]);
}

#[test]
fn decoded_operations_run_until_the_budget_or_another_opcode() {
    // MOVEQ #5,D0; SWAP D0; CLR.W (A0)
    let (mut cpu, mut bus) = rig(CpuType::M68000, &[0x7005, 0x4840, 0x4250]);
    let mut table = None;
    cpu.run.cycles_remaining = 100;
    let exit = cpu.execute_decoded_simple_run(&mut bus, &mut table);
    assert_eq!(exit, CachedRunResult::Miss(0x4250));
    assert_eq!(cpu.d(0), 0x0005_0000);
    assert_eq!(cpu.run.cycles_remaining, 92);
    assert_eq!((cpu.ppc, cpu.pc), (0x1004, 0x1006));
    let (mut cpu, mut bus) = rig(CpuType::M68000, &LOOP);
    cpu.run.cycles_remaining = 36;
    let exit = cpu.execute_decoded_simple_run(&mut bus, &mut table);
    assert_eq!(exit, CachedRunResult::Ran);
    assert_eq!(cpu.d(0), 2);
    cpu.pc = 0x1001;
    cpu.run.cycles_remaining = 36;
    let exit = cpu.execute_decoded_simple_run(&mut bus, &mut table);
    assert_eq!(exit, CachedRunResult::Fault);
}

#[test]
fn decoded_operations_of_an_opcode() {
    let (mut cpu, _) = rig(CpuType::M68000, &[]);
    let op = cpu.decoded_simple_op(0x7005, CpuType::M68000);
    assert_eq!(op, Some(DecodedSimpleOp::Moveq { reg: 0, data: 5 }));
    assert_eq!(
        op.unwrap().to_jit_trace_op(),
        Some(JitTraceOp::Moveq { reg: 0, data: 5 })
    );
    assert_eq!(cpu.decoded_simple_op(0x4250, CpuType::M68000), None);
}

#[test]
fn branch_displacements_are_signed() {
    let (mut cpu, _) = rig(CpuType::M68020, &[]);
    cpu.branch_8(0xFE);
    assert_eq!(cpu.pc, 0x0FFE);
    cpu.branch_16(0x8000);
    assert_eq!(cpu.pc, 0xFFFF_8FFE);
    cpu.branch_32(0x7002);
    assert_eq!(cpu.pc, 0);
}

#[test]
fn a_slice_is_used_up_unless_the_processor_stops() {
    let (mut cpu, mut bus) = rig(CpuType::M68000, &LOOP);
    let used = cpu.execute(&mut bus, 50);
    assert_eq!(used, 50 - cpu.run.cycles_remaining);
    assert!(used >= 50);
    // STOP #$2700 takes four clocks and ends the slice.
    let (mut cpu, mut bus) = rig(CpuType::M68000, &[0x4E71, 0x4E72, 0x2700]);
    let used = cpu.execute(&mut bus, 50);
    assert_eq!(used, 50 - cpu.run.cycles_remaining);
    assert!(cpu.is_stopped());
}

#[test]
fn a_run_reports_its_budget_minus_what_remains() {
    for budget in 1..40 {
        let (mut cpu, mut bus) = rig(CpuType::M68000, &LOOP);
        let result = cpu.run_for_cycles(&mut bus, budget);
        assert_eq!(result.exit, CycleBatchExit::BudgetExhausted);
        assert_eq!(result.cycles, budget - cpu.run.cycles_remaining);
        assert!(result.cycles >= budget);
    }
    let (mut cpu, mut bus) = rig(CpuType::M68000, &[0x4E71, 0x7100]);
    let result = cpu.run_for_cycles(&mut bus, 100);
    assert_eq!(result.exit, CycleBatchExit::IllegalInstruction { opcode: 0x7100 });
    assert_eq!((result.cycles, result.instructions), (4, 1));
}

struct Witness {
    ppc: Vec<u32>,
}

impl BoundaryHook<LinearMemoryBus> for Witness {
    fn view(&self) -> HookView {
        unreachable!()
    }

    fn boundary(
        &mut self,
        cpu: &mut CpuCore,
        _bus: &mut LinearMemoryBus,
        _event: CycleBoundaryEvent,
    ) -> CycleBatchControl {
        self.ppc.push(cpu.ppc);
        CycleBatchControl::Return
    }
}

#[test]
fn a_returning_hook_sees_one_instruction() {
    let (mut cpu, mut bus) = rig(CpuType::M68000, &LOOP);
    let mut hook = Witness { ppc: Vec::new() };
    let result = cpu.run_for_cycles_with_hook(&mut bus, 3, &mut hook);
    assert_eq!(hook.ppc, vec![0x1000]);
    assert_eq!((result.cycles, result.instructions), (8, 1));
    assert_eq!(result.exit, CycleBatchExit::BoundaryRequested);
}

#[test]
fn a_batch_that_exhausts_its_budget_has_retired_it() {
    for max in [1u32, 2, 7, 100] {
        let (mut cpu, mut bus) = rig(CpuType::M68020, &LOOP);
        let result = cpu.run_batch(&mut bus, max, &[]);
        assert_eq!(result.exit, BatchExit::BudgetExhausted);
        assert_eq!(result.instructions, max);
    }
}
