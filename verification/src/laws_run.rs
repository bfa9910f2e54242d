//! Laws of the run loops.

use vstd::prelude::*;
use crate::batch::{BatchInnerExit, Session, RUN_LIMIT};
use crate::cpu::CpuCore;
use crate::exceptions::{VECTOR_ILLEGAL, VECTOR_TRAP_BASE};
use crate::execute::STOP_LEVEL_STOP;
use crate::hle::{HleCall, HleSession, HleTrap, HleView};
use crate::machine::Machine;
use crate::types::{
    BatchExit, CycleBatchControl, CycleBatchExit, CycleBatchResult, CycleBoundaryEvent,
    InternalStepResult, StepResult,
};

verus! {

/// What opening a run does.
pub proof fn lemma_open_cycle_batch(cpu: CpuCore, budget: i32)
    ensures
        ({
            let c = cpu.spec_open_cycle_batch(budget);
            &&& c.run.initial_cycles == budget
            &&& c.dar == cpu.dar
            &&& c.pc == cpu.pc
            &&& c.sys == cpu.sys
            &&& c.ccr == cpu.ccr
            &&& c.sp == cpu.sp
            &&& budget <= 0 ==> c.run.cycles_remaining == budget && c.host.reset_cycles
                == cpu.host.reset_cycles
        }),
{
    reveal(CpuCore::spec_open_cycle_batch);
    reveal(CpuCore::spec_set_precise_bus);
    reveal(CpuCore::spec_clear_execution_pipeline_state);
}

/// A non-positive budget returns at once: nothing is executed, no cycle is
/// charged, and neither the bus nor the hook is called.
pub proof fn law_no_budget_no_work(s: Session, budget: i32, on_instruction: bool, on_interrupt: bool)
    requires
        budget <= 0,
    ensures
        ({
            let (end, result) = s.run_for_cycles(budget, on_instruction, on_interrupt);
            &&& result == CycleBatchResult {
                cycles: 0,
                instructions: 0,
                exit: CycleBatchExit::BudgetExhausted,
            }
            &&& end.machine.bus == s.machine.bus
            &&& end.hook == s.hook
            &&& end.machine.cpu.dar == s.machine.cpu.dar
            &&& end.machine.cpu.pc == s.machine.cpu.pc
            &&& end.machine.cpu.sys == s.machine.cpu.sys
            &&& end.machine.cpu.ccr == s.machine.cpu.ccr
        }),
{
    lemma_open_cycle_batch(s.machine.cpu, budget);
}

proof fn lemma_rounds_total(
    s: Session,
    fuel: nat,
    instructions: u32,
    on_instruction: bool,
    on_interrupt: bool,
)
    ensures
        ({
            let (end, result) = s.rounds(fuel, instructions, on_instruction, on_interrupt);
            result.cycles == end.machine.cpu.cycles_consumed()
        }),
    decreases fuel,
{
    if fuel > 0 {
        let (next, retired, exit) = s.round(on_instruction, on_interrupt);
        let count = if retired {
            instructions.wrapping_add(1)
        } else {
            instructions
        };
        if exit is None {
            lemma_rounds_total(next, (fuel - 1) as nat, count, on_instruction, on_interrupt);
        }
    }
}

/// The cycles reported are the ones that left the budget of the run,
/// interrupt entries included.
pub proof fn law_cycles_reported(s: Session, budget: i32, on_instruction: bool, on_interrupt: bool)
    ensures
        ({
            let (end, result) = s.run_for_cycles(budget, on_instruction, on_interrupt);
            result.cycles == end.machine.cpu.cycles_consumed()
        }),
{
    let s1 = s.on(s.machine.on_cpu(s.machine.cpu.spec_open_cycle_batch(budget)));
    let s2 = s1.interrupt_boundary(on_interrupt).0;
    lemma_rounds_total(s2, RUN_LIMIT as nat, 0, on_instruction, on_interrupt);
}

/// A round counts an instruction only if it completed; a surfaced trap is not
/// counted and charges nothing.
pub proof fn law_surfaced_trap_is_free(s: Session, on_instruction: bool, on_interrupt: bool)
    ensures
        ({
            let (end, retired, exit) = s.round(on_instruction, on_interrupt);
            let runs = s.machine.cpu.run.cycles_remaining > 0 && s.machine.cpu.run.stopped == 0;
            let step = s.machine.deferring_step(on_instruction, on_interrupt);
            &&& retired == (runs && step.1 is Completed)
            &&& runs && !(step.1 is Completed) ==> end == s.on(step.0) && exit is Some
            &&& !runs ==> end == s
        }),
{
    reveal(Session::round);
}

proof fn lemma_rounds_without_hook(s: Session, fuel: nat, instructions: u32)
    ensures
        s.rounds(fuel, instructions, false, false).0.hook == s.hook,
    decreases fuel,
{
    reveal(Session::round);
    if fuel > 0 {
        let (next, retired, exit) = s.round(false, false);
        let count = if retired {
            instructions.wrapping_add(1)
        } else {
            instructions
        };
        assert(next.hook == s.hook);
        if exit is None {
            lemma_rounds_without_hook(next, (fuel - 1) as nat, count);
        }
    }
}

/// A run without synchronization never calls the hook.
pub proof fn law_plain_run_calls_no_hook(s: Session, budget: i32)
    ensures
        s.run_for_cycles(budget, false, false).0.hook == s.hook,
{
    let s1 = s.on(s.machine.on_cpu(s.machine.cpu.spec_open_cycle_batch(budget)));
    let s2 = s1.interrupt_boundary(false).0;
    assert(s2.hook == s.hook);
    lemma_rounds_without_hook(s2, RUN_LIMIT as nat, 0);
}

/// The fast loop stays within its budget.
pub proof fn lemma_fast_steps(m: Machine, budget: u32, watch: Seq<u32>, retired: u32)
    requires
        retired + budget <= u32::MAX,
    ensures
        ({
            let (end, exit, count) = m.fast_steps(budget, watch, retired);
            &&& retired <= count <= retired + budget
            &&& (exit is Miss || exit is Fault) ==> count < retired + budget
            &&& exit is Budget ==> count == retired + budget
            &&& exit matches BatchInnerExit::Watched(pc) ==> watch.contains(pc) && end.cpu.pc == pc
                && count > retired
        }),
    decreases budget,
{
    if budget > 0 {
        let (next, step) = m.fast_step();
        if step is Retired && !watch.contains(next.cpu.pc) {
            lemma_fast_steps(next, (budget - 1) as u32, watch, retired.wrapping_add(1));
        }
    }
}

proof fn lemma_dispatch_exit(m: Machine, opcode: u16, known_complex: bool)
    ensures
        match m.batch_dispatch(opcode, known_complex).1 {
            Some(exit) => !(exit is WatchedPc) && !(exit is Stopped) && !(exit is BudgetExhausted),
            None => true,
        },
{
    reveal(Machine::batch_dispatch);
}

/// The traps of a dispatched instruction and the checks after it agree with
/// where the machine stands.
pub proof fn lemma_dispatch_round(m: Machine, opcode: u16, complex: bool, watch: Seq<u32>, retired: u32)
    ensures
        match m.dispatch_round(opcode, complex, watch, retired) {
            (end, count, Some(BatchExit::WatchedPc { pc })) => watch.contains(pc) && end.cpu.pc == pc
                && count == retired.wrapping_add(1),
            (end, count, Some(BatchExit::Stopped)) => end.cpu.run.stopped != 0 && count
                == retired.wrapping_add(1),
            (_, count, _) => count == retired || count == retired.wrapping_add(1),
        },
{
    lemma_dispatch_exit(m, opcode, complex);
}

/// A round of a batch stays within the budget, and ends the batch for want of
/// it only when it is used up.
pub proof fn lemma_batch_round(m: Machine, max: u32, watch: Seq<u32>, retired: u32)
    requires
        retired <= max,
    ensures
        ({
            let (end, count, exit) = m.batch_round(max, watch, retired);
            &&& retired <= count <= max
            &&& exit matches Some(BatchExit::WatchedPc { pc }) ==> watch.contains(pc) && end.cpu.pc == pc
                && count > retired
            &&& exit == Some(BatchExit::Stopped) ==> end.cpu.run.stopped != 0
            &&& exit == Some(BatchExit::BudgetExhausted) ==> count == max
        }),
{
    let m1 = m.on_cpu(m.cpu.spec_replenish());
    if retired < max {
        if m1.cpu.can_run_decoded_simple_ops() {
            lemma_fast_steps(m1, (max - retired) as u32, watch, retired);
            let (m2, inner, count) = m1.fast_steps((max - retired) as u32, watch, retired);
            if let BatchInnerExit::Miss(opcode) = inner {
                lemma_dispatch_round(m2, opcode, true, watch, count);
                lemma_dispatch_exit(m2, opcode, true);
            }
        } else {
            let (m2, fetched) = m1.plain_fetch();
            if let Some(opcode) = fetched {
                lemma_dispatch_round(m2, opcode, false, watch, retired);
                lemma_dispatch_exit(m2, opcode, false);
            }
        }
    }
}

/// The rounds of a batch stay within the budget, and a watched PC is reached
/// by an instruction.
pub proof fn lemma_batch_rounds(m: Machine, fuel: nat, max: u32, watch: Seq<u32>, retired: u32)
    requires
        retired <= max,
    ensures
        ({
            let (end, result) = m.batch_rounds(fuel, max, watch, retired);
            &&& retired <= result.instructions <= max
            &&& result.exit matches BatchExit::WatchedPc { pc } ==> watch.contains(pc) && end.cpu.pc
                == pc && result.instructions > retired
            &&& result.exit is Stopped ==> end.cpu.run.stopped != 0
        }),
    decreases fuel,
{
    if fuel > 0 {
        lemma_batch_round(m, max, watch, retired);
        let (next, count, exit) = m.batch_round(max, watch, retired);
        if exit is None {
            lemma_batch_rounds(next, (fuel - 1) as nat, max, watch, count);
        }
    }
}

proof fn lemma_close_batch(cpu: CpuCore, precise: bool)
    ensures
        ({
            let c = cpu.spec_close_batch(precise);
            &&& c.pc == cpu.pc
            &&& c.run.stopped == cpu.run.stopped
            &&& c.host.fm_base == 0
            &&& c.host.fm_len == 0
            &&& c.model.precise_bus == precise
        }),
{
    reveal(CpuCore::spec_close_batch);
    reveal(CpuCore::spec_set_precise_bus);
    reveal(CpuCore::spec_clear_execution_pipeline_state);
}

/// A batch retires no more instructions than it was given. It reports a
/// watched PC only after an instruction, and only if the PC is in the list
/// and execution stands there; it reports a stop only if the processor is
/// stopped.
pub proof fn law_batch_keeps_its_budget(m: Machine, max: u32, watch: Seq<u32>)
    ensures
        ({
            let (end, result) = m.run_batch(max, watch);
            &&& result.instructions <= max
            &&& result.exit matches BatchExit::WatchedPc { pc } ==> watch.contains(pc) && end.cpu.pc
                == pc && result.instructions > 0
            &&& result.exit is Stopped ==> end.cpu.run.stopped != 0
        }),
{
    let m1 = m.open_batch();
    lemma_batch_rounds(m1, RUN_LIMIT as nat, max, watch, 0);
    lemma_close_batch(m1.run_batch_inner(max, watch).0.cpu, m.cpu.model.precise_bus);
}

/// A batch leaves no memory window behind, and the bus precision as it found
/// it.
pub proof fn law_batch_cleans_up(m: Machine, max: u32, watch: Seq<u32>)
    ensures
        ({
            let end = m.run_batch(max, watch).0;
            &&& end.cpu.host.fm_base == 0
            &&& end.cpu.host.fm_len == 0
            &&& end.cpu.model.precise_bus == m.cpu.model.precise_bus
        }),
{
    lemma_close_batch(m.open_batch().run_batch_inner(max, watch).0.cpu, m.cpu.model.precise_bus);
}

/// With an active MMU a batch never uses the memory window.
pub proof fn law_no_window_behind_the_mmu(m: Machine)
    requires
        m.cpu.mmu.present && m.cpu.mmu.enabled,
    ensures
        m.open_batch().cpu.host == m.cpu.spec_set_precise_bus(false).host,
        m.open_batch().bus == m.bus,
{
    reveal(Machine::open_batch);
    reveal(CpuCore::spec_set_precise_bus);
    reveal(CpuCore::spec_clear_execution_pipeline_state);
}

/// A stopped processor that no privilege violation wakes stays where it is:
/// a step reports it and executes nothing.
pub proof fn law_stopped_processor_waits(m: Machine, boundary: bool)
    requires
        m.cpu.run.stopped != 0,
        m.cpu.run.stopped != STOP_LEVEL_STOP || m.cpu.sys.s_flag != 0,
    ensures
        m.step_with_dispatch(boundary) == (m.on_cpu(m.cpu.spec_set_precise_bus(true)), StepResult::Stopped),
{
    reveal(Machine::step_with_dispatch);
    reveal(Machine::stopped_supervisor_check);
    reveal(CpuCore::spec_set_precise_bus);
    reveal(CpuCore::spec_clear_execution_pipeline_state);
}

/// An interrupt is taken exactly when its level is 7 or above the mask.
/// Taking it wakes a stopped processor and clears the request; otherwise
/// nothing changes.
pub proof fn law_interrupt_priority(m: Machine)
    ensures
        ({
            let level = m.cpu.run.int_level & 7;
            let (after, taken) = m.check_and_service_interrupts();
            &&& taken == (level == 7 || level > ((m.cpu.sys.int_mask >> 8) & 7))
            &&& !taken ==> after == m
            &&& taken ==> after.cpu.run.int_level == 0 && after.cpu.run.stopped == 0
        }),
{
    reveal(Machine::check_and_service_interrupts);
    reveal(Machine::service_interrupt);
}

/// An A-line opcode is reported with nothing changed and nothing read.
pub proof fn law_aline_is_reported_untouched(m: Machine, opcode: u16)
    requires
        (opcode >> 12) & 0xF == 0xA,
    ensures
        m.dispatch_instruction(opcode) == (m, InternalStepResult::AlineTrap { opcode }),
{
    reveal(Machine::dispatch_instruction);
}

/// A boundary request ends the run after the instruction that raised it, be
/// it the bus that asks or the hook, and whatever is left of the budget.
/// Nothing else happens: no interrupt is taken and nothing is fetched.
pub proof fn law_boundary_request_wins(s: Session, cycles: i32, on_interrupt: bool)
    requires
        s.machine.cpu.run.stopped == 0,
    ensures
        ({
            let charged = s.on(s.machine.on_cpu(s.machine.cpu.spec_charge(cycles)));
            let (hooked, control) = charged.call(CycleBoundaryEvent::Instruction { cycles });
            let (polled, ends) = hooked.poll(control);
            &&& ends == (hooked.machine.bus.instruction_boundary_requested() || control
                == CycleBatchControl::Return)
            &&& ends ==> s.after_instruction(cycles, true, on_interrupt) == (
                polled,
                Some(CycleBatchExit::BoundaryRequested),
            )
        }),
        ({
            let charged = s.on(s.machine.on_cpu(s.machine.cpu.spec_charge(cycles)));
            charged.machine.bus.instruction_boundary_requested() ==> s.after_instruction(
                cycles,
                false,
                false,
            ).1 == Some(CycleBatchExit::BoundaryRequested)
        }),
{
    reveal(CpuCore::spec_charge);
}

/// STOP is an exit of its own even when its cycles use up the budget, and is
/// no event for the instruction hook.
pub proof fn law_stop_is_its_own_exit(s: Session, cycles: i32)
    requires
        s.machine.cpu.run.stopped != 0,
    ensures
        s.after_instruction(cycles, false, false).1 == Some(CycleBatchExit::Stopped),
        s.after_instruction(cycles, true, false).0.hook == s.hook,
{
    reveal(CpuCore::spec_charge);
}

/// A round ends the run for want of budget exactly when none is left.
pub proof fn law_budget_exit(s: Session, on_instruction: bool, on_interrupt: bool)
    ensures
        s.round(on_instruction, on_interrupt).2 == Some(CycleBatchExit::BudgetExhausted)
            <==> s.machine.cpu.run.cycles_remaining <= 0,
{
    reveal(Session::round);
}

/// The instruction hook hears of completed instructions only: a surfaced
/// trap, a stopped processor and an exhausted budget do not call it.
pub proof fn law_hook_hears_completed_instructions(s: Session)
    ensures
        ({
            let (end, retired, exit) = s.round(true, false);
            !retired ==> end.hook == s.hook
        }),
{
    reveal(Session::round);
}

/// A handler decides what becomes of a trap. If it handles the trap, the
/// machine is as the handler left it and no cycles are charged; if it does
/// not, the hardware exception is taken. It is asked once, and not at all
/// about an instruction that completed.
pub proof fn law_handler_decides(s: HleSession, outcome: InternalStepResult, fetch_cached: bool)
    ensures
        ({
            let cleared = s.on(s.machine.on_cpu(s.machine.cpu.spec_clear_execution_pipeline_state()));
            let (end, cycles) = s.resolve(outcome, fetch_cached);
            match outcome {
                InternalStepResult::Completed { cycles: base } => {
                    &&& end.handler == s.handler
                    &&& (end.machine, cycles) == s.machine.finalize_cycles(base, fetch_cached)
                },
                InternalStepResult::AlineTrap { opcode } => {
                    let (asked, handled) = cleared.offer(HleTrap::Aline { opcode });
                    &&& end.handler == asked.handler
                    &&& handled ==> end.machine == asked.machine && cycles == 0
                    &&& !handled ==> (end.machine, cycles) == asked.machine.exception_1010()
                },
                InternalStepResult::FlineTrap { opcode } => {
                    let (asked, handled) = cleared.offer(HleTrap::Fline { opcode });
                    &&& end.handler == asked.handler
                    &&& handled ==> end.machine == asked.machine && cycles == 0
                    &&& !handled ==> (end.machine, cycles) == asked.machine.exception_1111()
                },
                InternalStepResult::TrapInstruction { trap_num } => {
                    let (asked, handled) = cleared.offer(HleTrap::Trap { trap_num });
                    &&& end.handler == asked.handler
                    &&& handled ==> end.machine == asked.machine && cycles == 0
                    &&& !handled ==> (end.machine, cycles) == asked.machine.take_exception(
                        VECTOR_TRAP_BASE.wrapping_add((trap_num & 0x0F) as u32),
                    )
                },
                InternalStepResult::Breakpoint { bp_num } => {
                    let (asked, handled) = cleared.offer(HleTrap::Breakpoint { bp_num });
                    &&& end.handler == asked.handler
                    &&& handled ==> end.machine == asked.machine && cycles == 0
                    &&& !handled ==> (end.machine, cycles) == asked.machine.take_exception(
                        VECTOR_ILLEGAL,
                    )
                },
                InternalStepResult::IllegalInstruction { opcode } => {
                    let (asked, handled) = cleared.offer(HleTrap::Illegal { opcode });
                    &&& end.handler == asked.handler
                    &&& handled ==> end.machine == asked.machine && cycles == 0
                    &&& !handled ==> (end.machine, cycles) == asked.machine.take_exception(
                        VECTOR_ILLEGAL,
                    )
                },
            }
        }),
{
    reveal(Machine::take_trap);
    reveal(Machine::take_aline_exception);
    reveal(Machine::take_fline_exception);
    reveal(Machine::take_trap_exception);
    reveal(Machine::take_bkpt_exception);
    reveal(Machine::take_illegal_exception);
}

/// A handler that handles nothing takes no part in a step: every trap ends
/// in its exception, and the handler stays as it was.
pub proof fn law_idle_handler_is_absent(s: HleSession, outcome: InternalStepResult, fetch_cached: bool)
    requires
        s.handler == HleView::idle(),
    ensures
        s.resolve(outcome, fetch_cached).0.handler == s.handler,
        outcome !is Completed ==> (
            s.resolve(outcome, fetch_cached).0.machine,
            s.resolve(outcome, fetch_cached).1,
        ) == s.machine.on_cpu(s.machine.cpu.spec_clear_execution_pipeline_state()).take_trap(
            outcome,
            fetch_cached,
        ),
{
    let cleared = s.machine.on_cpu(s.machine.cpu.spec_clear_execution_pipeline_state());
    if let Some(trap) = crate::hle::trap_of(outcome) {
        HleView::lemma_idle(HleCall { machine: cleared, trap });
    }
}

} // verus!
