//! Laws of whole runs: what a slice of cycles, a run or a batch comes to.
//!
//! A run is followed for [`RUN_LIMIT`] rounds. The laws speak of runs that end
//! by then, and say that a run ends as long as its rounds take time.

use vstd::prelude::*;
use crate::batch::{CachedRunResult, HookCall, HookView, Session, RUN_LIMIT};
use crate::cpu::CpuCore;
use crate::laws_frame;
use crate::laws_run;
use crate::machine::Machine;
use crate::op_cache::decode_simple;
use crate::types::{
    BatchExit, CycleBatchControl, CycleBatchExit, CycleBatchResult, CycleBoundaryEvent, StepResult,
};

verus! {

/// The slice ends within `fuel` instructions.
pub open spec fn slice_ends(m: Machine, fuel: nat) -> bool
    decreases fuel,
{
    m.cpu.run.cycles_remaining <= 0 || (fuel > 0 && {
        let (next, more) = m.execute_one();
        !more || slice_ends(next, (fuel - 1) as nat)
    })
}

/// Each of the next `fuel` instructions takes at least one clock.
pub open spec fn slice_takes_time(m: Machine, fuel: nat) -> bool
    decreases fuel,
{
    fuel == 0 || ({
        let (next, more) = m.execute_one();
        more ==> next.cpu.run.cycles_remaining < m.cpu.run.cycles_remaining && slice_takes_time(
            next,
            (fuel - 1) as nat,
        )
    })
}

proof fn lemma_slice_ends(m: Machine, fuel: nat)
    requires
        slice_takes_time(m, fuel),
        m.cpu.run.cycles_remaining <= fuel,
    ensures
        slice_ends(m, fuel),
    decreases fuel,
{
    if m.cpu.run.cycles_remaining > 0 {
        let (next, more) = m.execute_one();
        if more {
            lemma_slice_ends(next, (fuel - 1) as nat);
        }
    }
}

proof fn lemma_execute_all(m: Machine, fuel: nat)
    requires
        slice_ends(m, fuel),
    ensures
        ({
            let end = m.execute_all(fuel).cpu;
            &&& end.run.initial_cycles == m.cpu.run.initial_cycles
            &&& end.run.cycles_remaining <= 0 || end.run.stopped != 0
        }),
    decreases fuel,
{
    if m.cpu.run.cycles_remaining > 0 {
        let (next, more) = m.execute_one();
        laws_frame::keeps_execute_one(m);
        if more {
            lemma_execute_all(next, (fuel - 1) as nat);
        }
    }
}

proof fn lemma_begin_execute(m: Machine, num_cycles: i32)
    requires
        m.cpu.host.reset_cycles == 0,
    ensures
        ({
            let (begun, done) = m.begin_execute(num_cycles);
            &&& begun.cpu.run.initial_cycles == num_cycles
            &&& done matches Some(cycles) ==> cycles == num_cycles && begun.cpu.run.cycles_remaining
                == 0
        }),
{
    reveal(Machine::begin_execute);
    reveal(CpuCore::spec_set_precise_bus);
    reveal(CpuCore::spec_clear_execution_pipeline_state);
    broadcast use {
        laws_frame::keeps_check_and_service_interrupts,
        laws_frame::keeps_stopped_supervisor_check,
    };

}

/// A slice that ends is used up unless the processor stopped: the result is
/// the slice minus what remains of it, and reaches the slice, as long as the
/// overshoot of the last instruction fits the result.
pub proof fn law_slice_is_used_up(m: Machine, num_cycles: i32)
    requires
        m.cpu.host.reset_cycles == 0,
        m.begin_execute(num_cycles).1 is None ==> slice_ends(
            m.begin_execute(num_cycles).0,
            RUN_LIMIT as nat,
        ),
    ensures
        ({
            let (end, result) = m.execute(num_cycles);
            let remaining = end.cpu.run.cycles_remaining;
            &&& result == num_cycles.wrapping_sub(remaining)
            &&& remaining <= 0 || end.cpu.run.stopped != 0
            &&& i32::MIN <= num_cycles - remaining <= i32::MAX ==> result == num_cycles - remaining && (
            result >= num_cycles || end.cpu.run.stopped != 0)
        }),
{
    lemma_begin_execute(m, num_cycles);
    let (begun, done) = m.begin_execute(num_cycles);
    if done is None {
        lemma_execute_all(begun, RUN_LIMIT as nat);
    }
}

/// A slice ends while its instructions take at least one clock each: its
/// budget is smaller than the limit.
pub proof fn law_slice_ends(m: Machine, num_cycles: i32)
    requires
        slice_takes_time(m.begin_execute(num_cycles).0, RUN_LIMIT as nat),
    ensures
        slice_ends(m.begin_execute(num_cycles).0, RUN_LIMIT as nat),
{
    lemma_slice_ends(m.begin_execute(num_cycles).0, RUN_LIMIT as nat);
}

/// The decoded-operation loop ends within `fuel` operations.
pub open spec fn decoded_ends(m: Machine, fuel: nat) -> bool
    decreases fuel,
{
    m.cpu.run.cycles_remaining <= 0 || (fuel > 0 && {
        let (fetched, opcode) = m.plain_fetch();
        match opcode {
            None => true,
            Some(opcode) => match decode_simple(fetched.cpu.model.cpu_type, opcode) {
                None => true,
                Some(op) => decoded_ends(
                    fetched.on_cpu(fetched.cpu.spec_charge_simple(op)),
                    (fuel - 1) as nat,
                ),
            },
        }
    })
}

/// A decoded-operation loop that ends reports an exhausted budget only if
/// nothing remains of it.
pub proof fn law_decoded_run_is_used_up(m: Machine, fuel: nat)
    requires
        decoded_ends(m, fuel),
    ensures
        m.simple_steps(fuel).1 == CachedRunResult::Ran ==> m.simple_steps(
            fuel,
        ).0.cpu.run.cycles_remaining <= 0,
    decreases fuel,
{
    if m.cpu.run.cycles_remaining > 0 {
        let (fetched, opcode) = m.plain_fetch();
        if let Some(opcode) = opcode {
            if let Some(op) = decode_simple(fetched.cpu.model.cpu_type, opcode) {
                law_decoded_run_is_used_up(
                    fetched.on_cpu(fetched.cpu.spec_charge_simple(op)),
                    (fuel - 1) as nat,
                );
            }
        }
    }
}

/// An instruction does not touch the account of the run: the budget, what
/// remains of it and the pending interrupt level stay, and so does the address
/// of the instruction unless it is STOP.
pub proof fn law_instruction_keeps_the_account(m: Machine, opcode: u16)
    ensures
        ({
            let after = m.dispatch_instruction(opcode).0.cpu;
            &&& after.run.initial_cycles == m.cpu.run.initial_cycles
            &&& after.run.cycles_remaining == m.cpu.run.cycles_remaining
            &&& after.run.int_level == m.cpu.run.int_level
            &&& opcode != 0x4E72 ==> after.ppc == m.cpu.ppc
        }),
{
    laws_frame::keeps_dispatch_instruction(m, opcode);
}

/// Whatever it was called for before, the hook does not change the budget
/// that the run began with.
#[verifier::opaque]
pub open spec fn keeps_slice(hook: HookView) -> bool {
    forall|past: Seq<HookCall>, call: HookCall|
        (#[trigger] (hook.behavior)(past, call)).machine.cpu.run.initial_cycles
            == call.machine.cpu.run.initial_cycles
}

proof fn lemma_call(s: Session, event: CycleBoundaryEvent)
    requires
        keeps_slice(s.hook),
    ensures
        s.call(event).0.machine.cpu.run.initial_cycles == s.machine.cpu.run.initial_cycles,
        keeps_slice(s.call(event).0.hook),
{
    reveal(keeps_slice);
    reveal(HookView::reply);
    reveal(HookView::after);
    let call = HookCall { machine: s.machine, event };
    assert forall|past: Seq<HookCall>, next: HookCall|
        (#[trigger] (s.hook.after(call).behavior)(past, next)).machine.cpu.run.initial_cycles
            == next.machine.cpu.run.initial_cycles by {
        assert((s.hook.after(call).behavior)(past, next) == (s.hook.behavior)(seq![call] + past, next));
    }
}

proof fn lemma_interrupt_boundary(s: Session, on_interrupt: bool)
    requires
        keeps_slice(s.hook) || !on_interrupt,
    ensures
        ({
            let (next, taken, exit) = s.interrupt_boundary(on_interrupt);
            &&& next.machine.cpu.run.initial_cycles == s.machine.cpu.run.initial_cycles
            &&& keeps_slice(s.hook) ==> keeps_slice(next.hook)
            &&& !taken ==> next == s && exit is None
            &&& exit is Some ==> exit == Some(CycleBatchExit::BoundaryRequested)
        }),
{
    laws_frame::keeps_check_and_service_interrupts(s.machine);
    laws_run::law_interrupt_priority(s.machine);
    let before = s.machine.cpu.run.cycles_remaining;
    let (m, serviced) = s.machine.check_and_service_interrupts();
    if serviced && on_interrupt {
        lemma_call(
            s.on(m),
            CycleBoundaryEvent::InterruptEntry {
                cycles: before.wrapping_sub(m.cpu.run.cycles_remaining),
            },
        );
    }
}

proof fn lemma_deferring_step(m: Machine, on_instruction: bool, on_interrupt: bool)
    ensures
        ({
            let (next, step) = m.deferring_step(on_instruction, on_interrupt);
            &&& next.cpu.run.initial_cycles == m.cpu.run.initial_cycles
            &&& on_instruction || step !is Completed ==> next.cpu.run.cycles_remaining
                == m.cpu.run.cycles_remaining
            &&& m.cpu.run.stopped == 0 ==> step !is Stopped
        }),
{
    reveal(Machine::deferring_step);
    reveal(Machine::step);
    broadcast use laws_frame::keeps_step_with_dispatch;

}

proof fn lemma_round(s: Session, on_instruction: bool, on_interrupt: bool)
    requires
        keeps_slice(s.hook) || !on_instruction && !on_interrupt,
    ensures
        ({
            let (next, retired, exit) = s.round(on_instruction, on_interrupt);
            &&& next.machine.cpu.run.initial_cycles == s.machine.cpu.run.initial_cycles
            &&& keeps_slice(s.hook) ==> keeps_slice(next.hook)
            &&& exit == Some(CycleBatchExit::BudgetExhausted) ==> next.machine.cpu.run.cycles_remaining
                <= 0
            &&& exit == Some(CycleBatchExit::Stopped) ==> next.machine.cpu.run.stopped != 0
        }),
{
    reveal(Session::round);
    lemma_deferring_step(s.machine, on_instruction, on_interrupt);
    let (m, step) = s.machine.deferring_step(on_instruction, on_interrupt);
    if let StepResult::Completed { cycles } = step {
        let charged = s.on(m.on_cpu(m.cpu.spec_charge(cycles)));
        if charged.machine.cpu.run.stopped != 0 {
            if on_instruction {
                lemma_interrupt_boundary(charged, on_interrupt);
            }
        } else if on_instruction {
            lemma_call(charged, CycleBoundaryEvent::Instruction { cycles });
            let (hooked, control) = charged.call(CycleBoundaryEvent::Instruction { cycles });
            lemma_interrupt_boundary(hooked.poll(control).0, on_interrupt);
        }
    }
}

/// One of the next `fuel` rounds ends the run.
pub open spec fn rounds_end(s: Session, fuel: nat, on_instruction: bool, on_interrupt: bool) -> bool
    decreases fuel,
{
    fuel > 0 && {
        let (next, retired, exit) = s.round(on_instruction, on_interrupt);
        exit is Some || rounds_end(next, (fuel - 1) as nat, on_instruction, on_interrupt)
    }
}

/// Each of the next `fuel` rounds that does not end the run takes at least
/// one clock.
pub open spec fn rounds_take_time(
    s: Session,
    fuel: nat,
    on_instruction: bool,
    on_interrupt: bool,
) -> bool
    decreases fuel,
{
    fuel == 0 || ({
        let (next, retired, exit) = s.round(on_instruction, on_interrupt);
        exit is None ==> next.machine.cpu.run.cycles_remaining < s.machine.cpu.run.cycles_remaining
            && rounds_take_time(next, (fuel - 1) as nat, on_instruction, on_interrupt)
    })
}

/// The session after a run has been opened and an interrupt that was pending
/// on entry has been taken; `Some` if the run ends there.
pub open spec fn run_begun(s: Session, budget: i32, on_interrupt: bool) -> (
    Session,
    Option<CycleBatchExit>,
) {
    let opened = s.on(s.machine.on_cpu(s.machine.cpu.spec_open_cycle_batch(budget)));
    let (begun, taken, exit) = opened.interrupt_boundary(on_interrupt);
    (begun, exit)
}

/// The run ends before the limit.
pub open spec fn run_ends(s: Session, budget: i32, on_instruction: bool, on_interrupt: bool) -> bool {
    let (begun, exit) = run_begun(s, budget, on_interrupt);
    budget <= 0 || exit is Some || rounds_end(begun, RUN_LIMIT as nat, on_instruction, on_interrupt)
}

proof fn lemma_rounds_end(s: Session, fuel: nat, on_instruction: bool, on_interrupt: bool)
    requires
        rounds_take_time(s, fuel, on_instruction, on_interrupt),
        s.machine.cpu.run.cycles_remaining < fuel,
        fuel > 0,
    ensures
        rounds_end(s, fuel, on_instruction, on_interrupt),
    decreases fuel,
{
    let (next, retired, exit) = s.round(on_instruction, on_interrupt);
    if exit is None {
        laws_run::law_budget_exit(s, on_instruction, on_interrupt);
        lemma_rounds_end(next, (fuel - 1) as nat, on_instruction, on_interrupt);
    }
}

proof fn lemma_rounds(
    s: Session,
    fuel: nat,
    instructions: u32,
    on_instruction: bool,
    on_interrupt: bool,
)
    requires
        keeps_slice(s.hook) || !on_instruction && !on_interrupt,
        rounds_end(s, fuel, on_instruction, on_interrupt),
    ensures
        ({
            let (end, result) = s.rounds(fuel, instructions, on_instruction, on_interrupt);
            let run = end.machine.cpu.run;
            &&& run.initial_cycles == s.machine.cpu.run.initial_cycles
            &&& result.cycles == run.initial_cycles.wrapping_sub(run.cycles_remaining)
            &&& result.exit == CycleBatchExit::BudgetExhausted ==> run.cycles_remaining <= 0
            &&& result.exit == CycleBatchExit::Stopped ==> run.stopped != 0
        }),
    decreases fuel,
{
    lemma_round(s, on_instruction, on_interrupt);
    let (next, retired, exit) = s.round(on_instruction, on_interrupt);
    if exit is None {
        let count = if retired {
            instructions.wrapping_add(1)
        } else {
            instructions
        };
        lemma_rounds(next, (fuel - 1) as nat, count, on_instruction, on_interrupt);
    }
}

/// A run that ends reports the budget minus what remains of it. It reports an
/// exhausted budget only if nothing remains, so that the cycles reach the
/// budget as long as the overshoot of the last instruction fits them, and a
/// stop only if the processor is stopped. A hook may do anything but change
/// the budget that the run began with.
pub proof fn law_run_is_accounted(s: Session, budget: i32, on_instruction: bool, on_interrupt: bool)
    requires
        budget > 0,
        keeps_slice(s.hook) || !on_instruction && !on_interrupt,
        run_ends(s, budget, on_instruction, on_interrupt),
    ensures
        ({
            let (end, result) = s.run_for_cycles(budget, on_instruction, on_interrupt);
            let remaining = end.machine.cpu.run.cycles_remaining;
            &&& result.cycles == budget.wrapping_sub(remaining)
            &&& i32::MIN <= budget - remaining <= i32::MAX ==> result.cycles == budget - remaining
            &&& result.exit == CycleBatchExit::BudgetExhausted ==> remaining <= 0 && (budget - remaining
                <= i32::MAX ==> result.cycles >= budget)
            &&& result.exit == CycleBatchExit::Stopped ==> end.machine.cpu.run.stopped != 0
        }),
{
    let opened = s.on(s.machine.on_cpu(s.machine.cpu.spec_open_cycle_batch(budget)));
    laws_run::lemma_open_cycle_batch(s.machine.cpu, budget);
    lemma_interrupt_boundary(opened, on_interrupt);
    let (begun, taken, exit) = opened.interrupt_boundary(on_interrupt);
    if exit is None {
        lemma_rounds(begun, RUN_LIMIT as nat, 0, on_instruction, on_interrupt);
    }
}

/// A run ends while its rounds take at least one clock each: its budget is
/// smaller than the limit.
pub proof fn law_run_ends(s: Session, budget: i32, on_instruction: bool, on_interrupt: bool)
    requires
        ({
            let (begun, exit) = run_begun(s, budget, on_interrupt);
            exit is None ==> rounds_take_time(begun, RUN_LIMIT as nat, on_instruction, on_interrupt)
        }),
    ensures
        run_ends(s, budget, on_instruction, on_interrupt),
{
    let (begun, exit) = run_begun(s, budget, on_interrupt);
    if exit is None {
        lemma_rounds_end(begun, RUN_LIMIT as nat, on_instruction, on_interrupt);
    }
}

/// An instruction that surfaces as a trap is neither counted nor charged.
pub proof fn law_surfaced_trap_is_not_charged(s: Session, on_instruction: bool, on_interrupt: bool)
    requires
        s.machine.cpu.run.cycles_remaining > 0,
        s.machine.cpu.run.stopped == 0,
        s.machine.deferring_step(on_instruction, on_interrupt).1 !is Completed,
    ensures
        ({
            let (end, retired, exit) = s.round(on_instruction, on_interrupt);
            &&& !retired
            &&& end.machine.cpu.cycles_consumed() == s.machine.cpu.cycles_consumed()
        }),
{
    reveal(Session::round);
    lemma_deferring_step(s.machine, on_instruction, on_interrupt);
}

/// A hook that returns at once sees exactly one instruction. It is called
/// once, with the cycles of the instruction and `ppc` at its address, and the
/// run reports that one instruction and its cycles, whatever they leave of
/// the budget. What the instruction or the hook made pending is not serviced:
/// the processor is as the hook left it.
pub proof fn law_returning_hook_sees_one_instruction(
    s: Session,
    budget: i32,
    on_interrupt: bool,
    cycles: i32,
)
    requires
        budget > 0,
        s.machine.cpu.host.reset_cycles == 0,
        ({
            let opened = s.machine.on_cpu(s.machine.cpu.spec_open_cycle_batch(budget));
            let (done, step) = opened.deferring_step(true, on_interrupt);
            let call = HookCall {
                machine: done.on_cpu(done.cpu.spec_charge(cycles)),
                event: CycleBoundaryEvent::Instruction { cycles },
            };
            let reply = s.hook.reply(call);
            &&& opened.cpu.run.stopped == 0
            &&& !opened.check_and_service_interrupts().1
            &&& step == StepResult::Completed { cycles }
            &&& done.cpu.run.stopped == 0
            &&& opened.on_cpu(
                CpuCore {
                    run: crate::cpu::RunState { int_level: 0, ..opened.cpu.run },
                    ..opened.cpu
                },
            ).begin_instruction().0.cpu.ir as u16 != 0x4E72
            &&& reply.control == CycleBatchControl::Return
            &&& laws_frame::same_slice(call.machine.cpu, reply.machine.cpu)
            &&& reply.machine.cpu.run.cycles_remaining == call.machine.cpu.run.cycles_remaining
        }),
    ensures
        ({
            let opened = s.machine.on_cpu(s.machine.cpu.spec_open_cycle_batch(budget));
            let done = opened.deferring_step(true, on_interrupt).0;
            let call = HookCall {
                machine: done.on_cpu(done.cpu.spec_charge(cycles)),
                event: CycleBoundaryEvent::Instruction { cycles },
            };
            let (end, result) = s.run_for_cycles(budget, true, on_interrupt);
            &&& call.machine.cpu.ppc == s.machine.cpu.pc
            &&& end.hook == s.hook.after(call)
            &&& end.machine.cpu == s.hook.reply(call).machine.cpu
            &&& result == CycleBatchResult {
                cycles,
                instructions: 1,
                exit: CycleBatchExit::BoundaryRequested,
            }
        }),
{
    reveal(Session::round);
    reveal(CpuCore::spec_open_cycle_batch);
    reveal(CpuCore::spec_set_precise_bus);
    reveal(CpuCore::spec_clear_execution_pipeline_state);
    let opened = s.machine.on_cpu(s.machine.cpu.spec_open_cycle_batch(budget));
    laws_run::law_interrupt_priority(opened);
    let held = opened.on_cpu(
        CpuCore { run: crate::cpu::RunState { int_level: 0, ..opened.cpu.run }, ..opened.cpu },
    );
    assert(held.on_cpu(held.cpu.spec_set_precise_bus(true)) == held);
    laws_frame::keeps_step_with_dispatch(held, on_interrupt);
    reveal(Machine::deferring_step);
    let begun = s.on(opened);
    assert(begun.interrupt_boundary(on_interrupt) == (begun, false, None::<CycleBatchExit>));
    let (end, retired, exit) = begun.round(true, on_interrupt);
    assert(retired && exit == Some(CycleBatchExit::BoundaryRequested));
    assert(begun.rounds(RUN_LIMIT as nat, 0, true, on_interrupt) == (
        end,
        end.result(1, CycleBatchExit::BoundaryRequested),
    ));
}

/// One of the next `fuel` rounds ends the batch.
pub open spec fn batch_ends(m: Machine, fuel: nat, max: u32, watch: Seq<u32>, retired: u32) -> bool
    decreases fuel,
{
    fuel > 0 && {
        let (next, count, exit) = m.batch_round(max, watch, retired);
        exit is Some || batch_ends(next, (fuel - 1) as nat, max, watch, count)
    }
}

/// Each of the next `fuel` rounds that does not end the batch retires an
/// instruction.
pub open spec fn batch_retires(m: Machine, fuel: nat, max: u32, watch: Seq<u32>, retired: u32) -> bool
    decreases fuel,
{
    fuel == 0 || ({
        let (next, count, exit) = m.batch_round(max, watch, retired);
        exit is None ==> count > retired && batch_retires(next, (fuel - 1) as nat, max, watch, count)
    })
}

proof fn lemma_batch_budget(m: Machine, fuel: nat, max: u32, watch: Seq<u32>, retired: u32)
    requires
        retired <= max,
        batch_ends(m, fuel, max, watch, retired),
    ensures
        m.batch_rounds(fuel, max, watch, retired).1.exit == BatchExit::BudgetExhausted
            ==> m.batch_rounds(fuel, max, watch, retired).1.instructions == max,
    decreases fuel,
{
    laws_run::lemma_batch_round(m, max, watch, retired);
    let (next, count, exit) = m.batch_round(max, watch, retired);
    if exit is None {
        lemma_batch_budget(next, (fuel - 1) as nat, max, watch, count);
    }
}

proof fn lemma_batch_ends(m: Machine, fuel: nat, max: u32, watch: Seq<u32>, retired: u32)
    requires
        retired <= max,
        max - retired < fuel,
        batch_retires(m, fuel, max, watch, retired),
    ensures
        batch_ends(m, fuel, max, watch, retired),
    decreases fuel,
{
    laws_run::lemma_batch_round(m, max, watch, retired);
    let (next, count, exit) = m.batch_round(max, watch, retired);
    if exit is None {
        lemma_batch_ends(next, (fuel - 1) as nat, max, watch, count);
    }
}

/// A batch that ends reports an exhausted budget only when it has retired
/// every instruction it was given.
pub proof fn law_batch_is_used_up(m: Machine, max: u32, watch: Seq<u32>)
    requires
        batch_ends(m.open_batch(), RUN_LIMIT as nat, max, watch, 0),
    ensures
        m.run_batch(max, watch).1.exit == BatchExit::BudgetExhausted ==> m.run_batch(
            max,
            watch,
        ).1.instructions == max,
{
    lemma_batch_budget(m.open_batch(), RUN_LIMIT as nat, max, watch, 0);
}

/// A batch ends while its rounds retire instructions.
pub proof fn law_batch_ends(m: Machine, max: u32, watch: Seq<u32>)
    requires
        batch_retires(m.open_batch(), RUN_LIMIT as nat, max, watch, 0),
    ensures
        batch_ends(m.open_batch(), RUN_LIMIT as nat, max, watch, 0),
{
    lemma_batch_ends(m.open_batch(), RUN_LIMIT as nat, max, watch, 0);
}

} // verus!
