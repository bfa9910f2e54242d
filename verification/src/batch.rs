//! Runs of many instructions: by cycle budget, with or without hooks, and by
//! instruction budget.

use vstd::prelude::*;
use crate::cpu::{
    CpuCore, HostState, RunState, RUN_MODE_BERR_AERR_RESET, RUN_MODE_NORMAL,
};
use crate::machine::Machine;
use crate::mem_ops::{read_window, window_off, DecodedMemOp, Win, Window};
use crate::memory::{AddressBus, BusOp, FastMem};
use crate::op_cache::{
    decode_simple, decode_verdict, lookup_in, CachedOp, DecodedSimpleOp, OpCache,
};
use crate::runner_profile::{dispatch_kind, DispatchKind, NoProbe, ProbeEvent, RunProbe};
use crate::types::{
    BatchExit, BatchResult, CycleBatchControl, CycleBatchExit, CycleBatchResult,
    CycleBoundaryEvent, InternalStepResult, Size, StepResult,
};

verus! {

/// Most rounds of one run. It is above every budget, so a run reaches it only
/// if most of its rounds take no time.
pub const RUN_LIMIT: u64 = 0xFFFF_FFFF_FFFF_FFFF;

/// Result of the decoded-operation loop.
#[derive(Debug, Clone, Copy, PartialEq, Eq, Structural)]
pub enum CachedRunResult {
    /// The cycle budget ran out.
    Ran,
    /// The opcode has been fetched and full dispatch should handle it.
    Miss(u16),
    /// The fetch took a bus or address error.
    Fault,
}

/// Result of the instruction-budgeted fast loop.
#[derive(Debug, Clone, Copy, PartialEq, Eq, Structural)]
pub enum BatchInnerExit {
    /// The remaining instruction budget hit zero.
    Budget,
    /// Execution reached a PC in the watch list.
    Watched(u32),
    /// A bus or address error was taken during the fetch.
    Fault,
    /// The opcode has been fetched and full dispatch should handle it.
    Miss(u16),
}

/// What became of one instruction of a fast loop.
#[derive(Debug, Clone, Copy, PartialEq, Eq, Structural)]
pub enum FastStep {
    Retired,
    Miss(u16),
    Fault,
}

/// Whether a list holds a PC.
pub fn watches(list: &[u32], pc: u32) -> (r: bool)
    ensures
        r == list@.contains(pc),
{
    let mut i: usize = 0;
    while i < list.len()
        invariant
            i <= list.len(),
            forall|k: int| 0 <= k < i ==> list@[k] != pc,
        decreases list.len() - i,
    {
        if list[i] == pc {
            assert(list@[i as int] == pc);
            return true;
        }
        i = i + 1;
    }
    false
}

/// The exit that a step other than a completed instruction asks for.
pub open spec fn spec_surfaced_exit(step: StepResult) -> CycleBatchExit {
    match step {
        StepResult::AlineTrap { opcode } => CycleBatchExit::AlineTrap { opcode: opcode },
        StepResult::FlineTrap { opcode } => CycleBatchExit::FlineTrap { opcode: opcode },
        StepResult::TrapInstruction { trap_num } => CycleBatchExit::TrapInstruction { trap_num: trap_num },
        StepResult::Breakpoint { bp_num } => CycleBatchExit::Breakpoint { bp_num: bp_num },
        StepResult::IllegalInstruction { opcode } => CycleBatchExit::IllegalInstruction { opcode: opcode },
        _ => CycleBatchExit::Stopped,
    }
}

/// The exit that a step other than a completed instruction asks for.
#[verifier::when_used_as_spec(spec_surfaced_exit)]
pub fn surfaced_exit(step: StepResult) -> (r: CycleBatchExit)
    ensures
        r == spec_surfaced_exit(step),
{
    match step {
        StepResult::AlineTrap { opcode } => CycleBatchExit::AlineTrap { opcode: opcode },
        StepResult::FlineTrap { opcode } => CycleBatchExit::FlineTrap { opcode: opcode },
        StepResult::TrapInstruction { trap_num } => CycleBatchExit::TrapInstruction { trap_num: trap_num },
        StepResult::Breakpoint { bp_num } => CycleBatchExit::Breakpoint { bp_num: bp_num },
        StepResult::IllegalInstruction { opcode } => CycleBatchExit::IllegalInstruction { opcode: opcode },
        _ => CycleBatchExit::Stopped,
    }
}

/// The exit by which a batch reports a trap; `None` for a completed
/// instruction.
pub open spec fn spec_trap_exit(outcome: InternalStepResult) -> Option<BatchExit> {
    match outcome {
        InternalStepResult::Completed { cycles: _ } => None,
        InternalStepResult::AlineTrap { opcode } => Some(BatchExit::AlineTrap { opcode: opcode }),
        InternalStepResult::FlineTrap { opcode } => Some(BatchExit::FlineTrap { opcode: opcode }),
        InternalStepResult::TrapInstruction { trap_num } => Some(BatchExit::TrapInstruction { trap_num: trap_num }),
        InternalStepResult::Breakpoint { bp_num } => Some(BatchExit::Breakpoint { bp_num: bp_num }),
        InternalStepResult::IllegalInstruction { opcode } => Some(BatchExit::IllegalInstruction { opcode: opcode }),
    }
}

/// The exit by which a batch reports a trap; `None` for a completed
/// instruction.
#[verifier::when_used_as_spec(spec_trap_exit)]
pub fn trap_exit(outcome: InternalStepResult) -> (r: Option<BatchExit>)
    ensures
        r == spec_trap_exit(outcome),
{
    match outcome {
        InternalStepResult::Completed { cycles: _ } => None,
        InternalStepResult::AlineTrap { opcode } => Some(BatchExit::AlineTrap { opcode: opcode }),
        InternalStepResult::FlineTrap { opcode } => Some(BatchExit::FlineTrap { opcode: opcode }),
        InternalStepResult::TrapInstruction { trap_num } => Some(BatchExit::TrapInstruction { trap_num: trap_num }),
        InternalStepResult::Breakpoint { bp_num } => Some(BatchExit::Breakpoint { bp_num: bp_num }),
        InternalStepResult::IllegalInstruction { opcode } => Some(BatchExit::IllegalInstruction { opcode: opcode }),
    }
}

/// One call of a boundary hook.
pub struct HookCall {
    pub machine: Machine,
    pub event: CycleBoundaryEvent,
}

/// What a boundary hook makes of the machine, and what it asks for.
pub struct HookReply {
    pub machine: Machine,
    pub control: CycleBatchControl,
}

/// The behaviour of a hook: its reply to a call after a history of calls.
#[verifier::ext_equal]
pub struct HookView {
    pub behavior: spec_fn(Seq<HookCall>, HookCall) -> HookReply,
}

impl HookView {
    /// The reply to `call` now.
    #[verifier::opaque]
    pub open spec fn reply(self, call: HookCall) -> HookReply {
        (self.behavior)(Seq::empty(), call)
    }

    /// The behaviour once `call` has happened.
    #[verifier::opaque]
    pub open spec fn after(self, call: HookCall) -> HookView {
        HookView {
            behavior: |past: Seq<HookCall>, next: HookCall| (self.behavior)(seq![call] + past, next),
        }
    }

    /// The hook that changes nothing and never asks to return.
    pub open spec fn idle() -> HookView {
        HookView {
            behavior: |past: Seq<HookCall>, call: HookCall|
                HookReply { machine: call.machine, control: CycleBatchControl::Continue },
        }
    }

    /// The idle hook stays idle.
    pub proof fn lemma_idle(call: HookCall)
        ensures
            Self::idle().reply(call) == (HookReply {
                machine: call.machine,
                control: CycleBatchControl::Continue,
            }),
            Self::idle().after(call) == Self::idle(),
    {
        reveal(HookView::reply);
        reveal(HookView::after);
        assert(Self::idle().after(call) =~= Self::idle());
    }
}

/// Host synchronization at the boundaries of a cycle-budgeted run. The hook
/// may change the CPU and the bus; the changes are visible before execution
/// continues. It must not run the CPU itself.
pub trait BoundaryHook<B: AddressBus>: Sized {
    /// The behaviour of the hook from here on.
    spec fn view(&self) -> HookView;

    /// Called at a boundary.
    fn boundary(&mut self, cpu: &mut CpuCore, bus: &mut B, event: CycleBoundaryEvent) -> (r:
        CycleBatchControl)
        ensures
            (HookReply { machine: Machine::of(*final(cpu), *final(bus)), control: r }) == old(self).view().reply(HookCall { machine: Machine::of(*old(cpu), *old(bus)), event }),
            final(self).view() == old(self).view().after(
                HookCall { machine: Machine::of(*old(cpu), *old(bus)), event },
            ),
    ;
}

/// The hook of a run without synchronization.
#[derive(Debug, Clone, Copy)]
pub struct NoHook;

impl<B: AddressBus> BoundaryHook<B> for NoHook {
    open spec fn view(&self) -> HookView {
        HookView::idle()
    }

    fn boundary(&mut self, cpu: &mut CpuCore, bus: &mut B, event: CycleBoundaryEvent) -> (r:
        CycleBatchControl) {
        proof {
            HookView::lemma_idle(HookCall { machine: Machine::of(*cpu, *bus), event });
        }
        CycleBatchControl::Continue
    }
}

/// A machine and the hook that watches it.
pub struct Session {
    pub machine: Machine,
    pub hook: HookView,
}

impl Session {
    /// The session with another machine.
    #[verifier::inline]
    pub open spec fn on(self, machine: Machine) -> Session {
        Session { machine, ..self }
    }

    /// The hook is called.
    pub open spec fn call(self, event: CycleBoundaryEvent) -> (Session, CycleBatchControl) {
        let call = HookCall { machine: self.machine, event };
        let reply = self.hook.reply(call);
        (Session { machine: reply.machine, hook: self.hook.after(call) }, reply.control)
    }

    /// The bus is asked whether it wants the boundary.
    pub open spec fn poll(self, control: CycleBatchControl) -> (Session, bool) {
        let (m, requested) = self.machine.bus_instruction_boundary_requested();
        (self.on(m), requested || control == CycleBatchControl::Return)
    }

    /// Interrupt entry, and the hook after it if it wants to hear of entries.
    pub open spec fn service_interrupt_boundary(self, on_interrupt: bool) -> (
        Session,
        Option<CycleBatchControl>,
    ) {
        let before = self.machine.cpu.run.cycles_remaining;
        let (m, serviced) = self.machine.check_and_service_interrupts();
        let s = self.on(m);
        if !serviced {
            (s, None)
        } else if on_interrupt {
            let (s, control) = s.call(
                CycleBoundaryEvent::InterruptEntry {
                    cycles: before.wrapping_sub(s.machine.cpu.run.cycles_remaining),
                },
            );
            (s, Some(control))
        } else {
            (s, Some(CycleBatchControl::Continue))
        }
    }

    /// A boundary at which a pending interrupt is taken. `Some` ends the run.
    pub open spec fn interrupt_boundary(self, on_interrupt: bool) -> (
        Session,
        bool,
        Option<CycleBatchExit>,
    ) {
        let (s, taken) = self.service_interrupt_boundary(on_interrupt);
        match taken {
            Some(control) => {
                let (s, ends) = s.poll(control);
                (
                    s,
                    true,
                    if ends {
                        Some(CycleBatchExit::BoundaryRequested)
                    } else {
                        None
                    },
                )
            },
            None => (s, false, None),
        }
    }

    /// The boundary after an instruction that took `cycles`.
    pub open spec fn after_instruction(self, cycles: i32, on_instruction: bool, on_interrupt: bool) -> (
        Session,
        Option<CycleBatchExit>,
    ) {
        let s = self.on(self.machine.on_cpu(self.machine.cpu.spec_charge(cycles)));
        if s.machine.cpu.run.stopped != 0 {
            if on_instruction {
                let (s, taken, exit) = s.interrupt_boundary(on_interrupt);
                (
                    s,
                    if taken {
                        exit
                    } else {
                        Some(CycleBatchExit::Stopped)
                    },
                )
            } else {
                (s, Some(CycleBatchExit::Stopped))
            }
        } else {
            let (s, control) = if on_instruction {
                s.call(CycleBoundaryEvent::Instruction { cycles })
            } else {
                (s, CycleBatchControl::Continue)
            };
            let (s, ends) = s.poll(control);
            if ends {
                (s, Some(CycleBatchExit::BoundaryRequested))
            } else if on_instruction {
                let (s, taken, exit) = s.interrupt_boundary(on_interrupt);
                (s, exit)
            } else {
                (s, None)
            }
        }
    }

    /// One round of a cycle-budgeted run: whether an instruction retired, and
    /// the exit if the run ends here.
    #[verifier::opaque]
    pub open spec fn round(self, on_instruction: bool, on_interrupt: bool) -> (
        Session,
        bool,
        Option<CycleBatchExit>,
    ) {
        if self.machine.cpu.run.cycles_remaining <= 0 {
            (self, false, Some(CycleBatchExit::BudgetExhausted))
        } else if self.machine.cpu.run.stopped != 0 {
            (self, false, Some(CycleBatchExit::Stopped))
        } else {
            let (m, step) = self.machine.deferring_step(on_instruction, on_interrupt);
            let s = self.on(m);
            match step {
                StepResult::Completed { cycles } => {
                    let (s, exit) = s.after_instruction(cycles, on_instruction, on_interrupt);
                    (s, true, exit)
                },
                _ => (s, false, Some(surfaced_exit(step))),
            }
        }
    }

    /// Rounds until one ends the run.
    pub open spec fn rounds(
        self,
        fuel: nat,
        instructions: u32,
        on_instruction: bool,
        on_interrupt: bool,
    ) -> (Session, CycleBatchResult)
        decreases fuel,
    {
        if fuel == 0 {
            (self, self.result(instructions, CycleBatchExit::BudgetExhausted))
        } else {
            let (s, retired, exit) = self.round(on_instruction, on_interrupt);
            let count = if retired {
                instructions.wrapping_add(1)
            } else {
                instructions
            };
            match exit {
                Some(reason) => (s, s.result(count, reason)),
                None => s.rounds((fuel - 1) as nat, count, on_instruction, on_interrupt),
            }
        }
    }

    /// What an observer hears of a boundary at which an interrupt may be taken.
    pub open spec fn interrupt_events(self) -> Seq<ProbeEvent> {
        seq![
            ProbeEvent::BeginInterrupt { level: self.machine.cpu.run.int_level },
            ProbeEvent::FinishInterrupt {
                serviced: self.machine.check_and_service_interrupts().1,
            },
        ]
    }

    /// What an observer hears of the boundary after an instruction.
    #[verifier::opaque]
    pub open spec fn after_events(self, cycles: i32, on_instruction: bool) -> Seq<ProbeEvent> {
        let s = self.on(self.machine.on_cpu(self.machine.cpu.spec_charge(cycles)));
        if !on_instruction {
            Seq::empty()
        } else if s.machine.cpu.run.stopped != 0 {
            s.interrupt_events()
        } else {
            let (s, control) = s.call(CycleBoundaryEvent::Instruction { cycles });
            let (s, ends) = s.poll(control);
            if ends {
                Seq::empty()
            } else {
                s.interrupt_events()
            }
        }
    }

    /// What an observer hears of one round.
    #[verifier::opaque]
    pub open spec fn round_events(self, on_instruction: bool, on_interrupt: bool) -> Seq<ProbeEvent> {
        if self.machine.cpu.run.cycles_remaining <= 0 || self.machine.cpu.run.stopped != 0 {
            Seq::empty()
        } else {
            let (m, step) = self.machine.deferring_step(on_instruction, on_interrupt);
            let executed = if on_instruction && on_interrupt {
                self.machine.step_events()
            } else {
                Seq::empty()
            };
            match step {
                StepResult::Completed { cycles } => executed + self.on(m).after_events(
                    cycles,
                    on_instruction,
                ),
                _ => executed,
            }
        }
    }

    /// What an observer hears of the rounds of a run.
    pub open spec fn rounds_events(
        self,
        fuel: nat,
        on_instruction: bool,
        on_interrupt: bool,
    ) -> Seq<ProbeEvent>
        decreases fuel,
    {
        if fuel == 0 {
            Seq::empty()
        } else {
            let (s, retired, exit) = self.round(on_instruction, on_interrupt);
            let heard = self.round_events(on_instruction, on_interrupt);
            match exit {
                Some(_) => heard,
                None => heard + s.rounds_events((fuel - 1) as nat, on_instruction, on_interrupt),
            }
        }
    }

    /// What an observer hears of a cycle-budgeted run.
    pub open spec fn run_events(self, budget: i32, on_instruction: bool, on_interrupt: bool) -> Seq<
        ProbeEvent,
    > {
        let s = self.on(self.machine.on_cpu(self.machine.cpu.spec_open_cycle_batch(budget)));
        if budget <= 0 {
            Seq::empty()
        } else {
            let (begun, taken, exit) = s.interrupt_boundary(on_interrupt);
            match exit {
                Some(_) => s.interrupt_events(),
                None => s.interrupt_events() + begun.rounds_events(
                    RUN_LIMIT as nat,
                    on_instruction,
                    on_interrupt,
                ),
            }
        }
    }

    /// The result of a run that ends now.
    pub open spec fn result(self, instructions: u32, exit: CycleBatchExit) -> CycleBatchResult {
        CycleBatchResult { cycles: self.machine.cpu.cycles_consumed(), instructions, exit }
    }

    /// A cycle-budgeted run.
    pub open spec fn run_for_cycles(self, budget: i32, on_instruction: bool, on_interrupt: bool) -> (
        Session,
        CycleBatchResult,
    ) {
        let s = self.on(self.machine.on_cpu(self.machine.cpu.spec_open_cycle_batch(budget)));
        if budget <= 0 {
            (s, s.result(0, CycleBatchExit::BudgetExhausted))
        } else {
            let (s, taken, exit) = s.interrupt_boundary(on_interrupt);
            match exit {
                Some(reason) => (s, s.result(0, reason)),
                None => s.rounds(RUN_LIMIT as nat, 0, on_instruction, on_interrupt),
            }
        }
    }
}

impl Machine {
    /// The dispatcher that a boundary-hook run executes the fetched opcode
    /// with.
    pub open spec fn boundary_kind(self) -> DispatchKind {
        if self.cpu.run.run_mode == RUN_MODE_NORMAL && (self.cpu.sys.t1_flag | self.cpu.sys.t0_flag)
            == 0 {
            dispatch_kind(self.cpu.model.cpu_type, self.cpu.ir as u16)
        } else {
            DispatchKind::Fallback
        }
    }

    /// What an observer hears of `step_with_dispatch` in a boundary-hook run.
    /// An instruction that traps or faults on its way is discarded.
    #[verifier::opaque]
    pub open spec fn dispatch_events(self) -> Seq<ProbeEvent> {
        let m = self.on_cpu(self.cpu.spec_set_precise_bus(true));
        if m.cpu.run.stopped != 0 {
            seq![ProbeEvent::Discard]
        } else {
            let (m, fetched) = m.begin_instruction();
            let fetch = ProbeEvent::FinishFetch {
                ppc: m.cpu.ppc,
                opcode: m.cpu.ir as u16,
                cpu_type: m.cpu.model.cpu_type,
            };
            if !fetched {
                seq![fetch, ProbeEvent::Discard]
            } else {
                let kind = ProbeEvent::Dispatch(m.boundary_kind());
                let (m, done) = m.dispatch_fetched(true);
                let end = match done.0 {
                    InternalStepResult::Completed { cycles } => {
                        let (m, total) = m.finalize_cycles(cycles, done.1);
                        if m.settle_step().1 {
                            ProbeEvent::FinishInstruction { cycles: total }
                        } else {
                            ProbeEvent::Discard
                        }
                    },
                    _ => ProbeEvent::Discard,
                };
                seq![fetch, kind, ProbeEvent::FinishBody, end]
            }
        }
    }

    /// What an observer hears of one instruction of a boundary-hook run.
    #[verifier::opaque]
    pub open spec fn step_events(self) -> Seq<ProbeEvent> {
        let held = self.on_cpu(CpuCore { run: RunState { int_level: 0, ..self.cpu.run }, ..self.cpu });
        seq![ProbeEvent::BeginInstruction] + held.dispatch_events()
    }

    /// Instructions of a cycle-budgeted run with every trap taken.
    pub open spec fn execute_all(self, fuel: nat) -> Machine
        decreases fuel,
    {
        if fuel == 0 || self.cpu.run.cycles_remaining <= 0 {
            self
        } else {
            let (m, more) = self.execute_one();
            if more {
                m.execute_all((fuel - 1) as nat)
            } else {
                m
            }
        }
    }

    /// A cycle-budgeted run and the cycles it used.
    pub open spec fn execute(self, num_cycles: i32) -> (Machine, i32) {
        let (m, done) = self.begin_execute(num_cycles);
        match done {
            Some(cycles) => (m, cycles),
            None => {
                let m = m.execute_all(RUN_LIMIT as nat);
                (m, m.cpu.cycles_consumed())
            },
        }
    }

    /// The opcode at an offset of the window that the bus lends.
    pub open spec fn window_opcode(self, off: usize) -> (Machine, Option<u16>) {
        let mem = self.bus.window();
        (
            Machine { bus: self.bus.after(BusOp::SetWindow(mem)), ..self },
            if off + 2 <= mem.len() {
                Some(crate::mem_ops::spec_read_window(mem, off, Size::Word) as u16)
            } else {
                None
            },
        )
    }

    /// A decoded memory operation on the window that the bus lends.
    pub open spec fn lent_mem_op(self, op: DecodedMemOp) -> (Machine, bool) {
        let (w, done) = Window::of(self.cpu, self.bus.window()).exec_mem_op(op);
        (Machine { cpu: w.cpu, bus: self.bus.after(BusOp::SetWindow(w.mem)) }, done)
    }

    /// One instruction of the instruction-budgeted fast loop.
    pub open spec fn fast_step(self) -> (Machine, FastStep) {
        let (m, fetched) = self.batch_fetch();
        match fetched {
            None => (m, FastStep::Fault),
            Some(opcode) => {
                let (m, done) = m.run_verdict(decode_verdict(m.cpu.model.cpu_type, opcode));
                (
                    m,
                    if done {
                        FastStep::Retired
                    } else {
                        FastStep::Miss(opcode)
                    },
                )
            },
        }
    }

    /// The instruction-budgeted fast loop, `retired` instructions into a
    /// batch.
    pub open spec fn fast_steps(self, budget: u32, watch: Seq<u32>, retired: u32) -> (
        Machine,
        BatchInnerExit,
        u32,
    )
        decreases budget,
    {
        if budget == 0 {
            (self, BatchInnerExit::Budget, retired)
        } else {
            let (m, step) = self.fast_step();
            match step {
                FastStep::Fault => (m, BatchInnerExit::Fault, retired),
                FastStep::Miss(opcode) => (m, BatchInnerExit::Miss(opcode), retired),
                FastStep::Retired => {
                    let count = retired.wrapping_add(1);
                    if watch.contains(m.cpu.pc) {
                        (m, BatchInnerExit::Watched(m.cpu.pc), count)
                    } else {
                        m.fast_steps((budget - 1) as u32, watch, count)
                    }
                },
            }
        }
    }

    /// The decoded-operation loop of a cycle-budgeted run.
    pub open spec fn simple_steps(self, fuel: nat) -> (Machine, CachedRunResult)
        decreases fuel,
    {
        if fuel == 0 || self.cpu.run.cycles_remaining <= 0 {
            (self, CachedRunResult::Ran)
        } else {
            let (m, fetched) = self.plain_fetch();
            match fetched {
                None => (m, CachedRunResult::Fault),
                Some(opcode) => match decode_simple(m.cpu.model.cpu_type, opcode) {
                    None => (m, CachedRunResult::Miss(opcode)),
                    Some(op) => m.on_cpu(m.cpu.spec_charge_simple(op)).simple_steps((fuel - 1) as nat),
                },
            }
        }
    }

    /// One round of an instruction-budgeted batch: the instructions retired
    /// so far, and the exit if the batch ends here.
    pub open spec fn batch_round(self, max: u32, watch: Seq<u32>, retired: u32) -> (
        Machine,
        u32,
        Option<BatchExit>,
    ) {
        let m = self.on_cpu(self.cpu.spec_replenish());
        if retired >= max {
            (m, retired, Some(BatchExit::BudgetExhausted))
        } else if m.cpu.can_run_decoded_simple_ops() {
            let (m, exit, count) = m.fast_steps((max - retired) as u32, watch, retired);
            match exit {
                BatchInnerExit::Budget => (m, count, Some(BatchExit::BudgetExhausted)),
                BatchInnerExit::Watched(pc) => (m, count, Some(BatchExit::WatchedPc { pc })),
                BatchInnerExit::Fault => (m.on_cpu(m.cpu.spec_resume_normal()), count, None),
                BatchInnerExit::Miss(opcode) => m.dispatch_round(opcode, true, watch, count),
            }
        } else {
            let (m, fetched) = m.plain_fetch();
            match fetched {
                None => (m.on_cpu(m.cpu.spec_resume_normal()), retired, None),
                Some(opcode) => m.dispatch_round(opcode, false, watch, retired),
            }
        }
    }

    /// A fully dispatched instruction of a batch, and the checks after it.
    pub open spec fn dispatch_round(
        self,
        opcode: u16,
        known_complex: bool,
        watch: Seq<u32>,
        retired: u32,
    ) -> (Machine, u32, Option<BatchExit>) {
        let (m, exit) = self.batch_dispatch(opcode, known_complex);
        match exit {
            Some(reason) => (m, retired, Some(reason)),
            None => {
                let count = retired.wrapping_add(1);
                (
                    m,
                    count,
                    if m.cpu.run.stopped != 0 {
                        Some(BatchExit::Stopped)
                    } else if watch.contains(m.cpu.pc) {
                        Some(BatchExit::WatchedPc { pc: m.cpu.pc })
                    } else {
                        None
                    },
                )
            },
        }
    }

    /// Rounds until one ends the batch.
    pub open spec fn batch_rounds(self, fuel: nat, max: u32, watch: Seq<u32>, retired: u32) -> (
        Machine,
        BatchResult,
    )
        decreases fuel,
    {
        if fuel == 0 {
            (self, BatchResult { instructions: retired, exit: BatchExit::BudgetExhausted })
        } else {
            let (m, count, exit) = self.batch_round(max, watch, retired);
            match exit {
                Some(reason) => (m, BatchResult { instructions: count, exit: reason }),
                None => m.batch_rounds((fuel - 1) as nat, max, watch, count),
            }
        }
    }

    /// An instruction-budgeted batch on the window captured for it.
    pub open spec fn run_batch_inner(self, max: u32, watch: Seq<u32>) -> (Machine, BatchResult) {
        if self.cpu.run.stopped != 0 {
            (self, BatchResult { instructions: 0, exit: BatchExit::Stopped })
        } else {
            self.batch_rounds(RUN_LIMIT as nat, max, watch, 0)
        }
    }

    /// An instruction-budgeted batch.
    pub open spec fn run_batch(self, max: u32, watch: Seq<u32>) -> (Machine, BatchResult) {
        let m = self.open_batch();
        let (m, result) = m.run_batch_inner(max, watch);
        (m.on_cpu(m.cpu.spec_close_batch(self.cpu.model.precise_bus)), result)
    }

    /// The machine without its table of decoded opcodes, which holds nothing
    /// but verdicts that can be decoded again.
    #[verifier::inline]
    pub open spec fn uncached(self) -> Machine {
        Machine { cpu: CpuCore { decode_table: None, ..self.cpu }, ..self }
    }
}

impl Machine {
    /// Step with the pending interrupt level held back, so that a hook sees
    /// the instruction boundary first.
    #[verifier::opaque]
    pub open spec fn deferring_step(self, on_instruction: bool, on_interrupt: bool) -> (Machine, StepResult) {
        if !on_instruction {
            self.step()
        } else {
            let deferred: u32 = self.cpu.run.int_level;
            let m = self.on_cpu(CpuCore { run: RunState { int_level: 0, ..self.cpu.run }, ..self.cpu });
            let (m, step) = m.step_with_dispatch(on_interrupt);
            let m = m.on_cpu(CpuCore { run: RunState { int_level: deferred, ..m.cpu.run }, ..m.cpu });
            (m, step)
        }
    }

    /// Fetch an opcode over the bus; `None` if the fetch faulted.
    #[verifier::opaque]
    pub open spec fn plain_fetch(self) -> (Machine, Option<u16>) {
        let m = self.on_cpu(CpuCore { ppc: self.cpu.pc, ..self.cpu });
        let (m, opcode) = m.read_opcode_16();
        if m.cpu.run.run_mode == RUN_MODE_BERR_AERR_RESET {
            (m, None)
        } else {
            let m = m.on_cpu(CpuCore { ir: opcode as u32, ..m.cpu });
            (m, Some(opcode))
        }
    }

    /// Fetch an opcode, out of the window where it lies there. Odd PCs and
    /// PCs outside the window take the normal fetch and its address-error
    /// handling.
    #[verifier::opaque]
    pub open spec fn batch_fetch(self) -> (Machine, Option<u16>) {
        if self.cpu.host.fm_len != 0 && self.cpu.pc & 1 == 0 {
            let win: Win = Win { base: self.cpu.host.fm_base, len: self.cpu.host.fm_len };
            match window_off(win, self.cpu.address(self.cpu.pc), 2) {
                Some(off) => {
                    let (m, word) = self.window_opcode(off);
                    match word {
                        Some(opcode) => {
                            let m = m.on_cpu(CpuCore { ppc: m.cpu.pc, ..m.cpu });
                            let m = m.on_cpu(CpuCore { pc: m.cpu.pc.wrapping_add(2), ..m.cpu });
                            let m = m.on_cpu(CpuCore { ir: opcode as u32, ..m.cpu });
                            (m, Some(opcode))
                        },
                        _ => m.plain_fetch(),
                    }
                },
                _ => self.plain_fetch(),
            }
        } else {
            self.plain_fetch()
        }
    }

    /// Execute a decoded operation; `false` if it needs full dispatch.
    #[verifier::opaque]
    pub open spec fn run_verdict(self, op: CachedOp) -> (Machine, bool) {
        match op {
            CachedOp::Simple(simple) => {
                let (cpu, v1) = self.cpu.spec_exec_simple(simple);
                let m = self.on_cpu(cpu);
                (m, true)
            },
            CachedOp::Mem(mem_op) => self.lent_mem_op(mem_op),
            _ => (self, false),
        }
    }

    /// Capture the memory window of the bus for a batch. Never with an active
    /// MMU: window addresses are physical.
    #[verifier::opaque]
    pub open spec fn open_batch(self) -> Machine {
        let m = self.on_cpu(self.cpu.spec_set_precise_bus(false));
        if m.cpu.mmu.present && m.cpu.mmu.enabled {
            m
        } else {
            let (m, window) = m.bus_fast_mem();
            match window {
                Some(fm) => {
                    if fm.len >= 4 {
                        let m = m.on_cpu(CpuCore { host: HostState { fm_base: fm.base, ..m.cpu.host }, ..m.cpu });
                        let m = m.on_cpu(CpuCore { host: HostState { fm_len: fm.len, ..m.cpu.host }, ..m.cpu });
                        m
                    } else {
                        m
                    }
                },
                _ => m,
            }
        }
    }

    /// Dispatch an instruction of a batch. `Some` surfaces a trap, which is
    /// not taken. A trace exception or a pending interrupt is taken after a
    /// completed instruction, unless it faulted.
    #[verifier::opaque]
    pub open spec fn batch_dispatch(self, opcode: u16, known_complex: bool) -> (Machine, Option<BatchExit>) {
        let m = self.on_cpu(CpuCore { ir: opcode as u32, ..self.cpu });
        let m = if known_complex {
            let m = m.on_cpu(m.cpu.spec_prepare_rollback_snapshot_full());
            m
        } else {
            let m = m.on_cpu(m.cpu.spec_prepare_rollback_snapshot(opcode));
            m
        };
        let (m, outcome) = m.dispatch_instruction(opcode);
        let m = if m.cpu.host.fm_len != 0 && m.cpu.mmu.present && m.cpu.mmu.enabled {
            let m = m.on_cpu(m.cpu.spec_drop_window());
            m
        } else {
            m
        };
        let exit: Option<BatchExit> = trap_exit(outcome);
        if exit.is_some() {
            (m, exit)
        } else {
            if m.cpu.run.run_mode == RUN_MODE_BERR_AERR_RESET {
                let m = m.on_cpu(CpuCore { run: RunState { run_mode: RUN_MODE_NORMAL, ..m.cpu.run }, ..m.cpu });
                (m, None)
            } else {
                let m = if !m.cpu.host.sst_m68000_compat {
                    let (cpu, v1) = m.cpu.spec_check_trace();
                    let m = m.on_cpu(cpu);
                    let traced: bool = v1;
                    if traced {
                        let m = m.exception_trace().0;
                        m
                    } else {
                        m
                    }
                } else {
                    m
                };
                let m = if m.cpu.run.int_level > 0 {
                    let m = m.check_and_service_interrupts().0;
                    m
                } else {
                    m
                };
                (m, None)
            }
        }
    }
}

impl CpuCore {
    /// Execute instructions for the given number of cycles.
    ///
    /// Returns the number of cycles actually consumed. Trap instructions are
    /// taken as hardware exceptions.
    pub fn execute<B: AddressBus>(&mut self, bus: &mut B, num_cycles: i32) -> (r: i32)
        ensures
            (Machine::of(*final(self), *final(bus)), r) == Machine::of(
                *old(self),
                *old(bus),
            ).execute(num_cycles),
    {
        match self.begin_execute(bus, num_cycles) {
            Some(cycles) => {
                return cycles;
            },
            None => {},
        }
        let ghost start = Machine::of(*self, *bus);
        let mut fuel: u64 = RUN_LIMIT;
        let mut more: bool = true;
        while more && fuel > 0 && self.run.cycles_remaining > 0
            invariant
                start.execute_all(RUN_LIMIT as nat) == (if more {
                    Machine::of(*self, *bus).execute_all(fuel as nat)
                } else {
                    Machine::of(*self, *bus)
                }),
            decreases fuel,
        {
            fuel = fuel - 1;
            more = self.execute_one(bus);
        }
        self.cycles_consumed()
    }

    /// Step with the pending interrupt level held back, so that a hook sees
    /// the instruction boundary first.
    pub fn deferring_step<B: AddressBus>(&mut self, bus: &mut B, on_instruction: bool, on_interrupt: bool) -> (r: StepResult)
        ensures
            (Machine::of(*final(self), *final(bus)), r) == Machine::of(*old(self), *old(bus)).deferring_step(on_instruction, on_interrupt),
    {
        proof {
            reveal(Machine::deferring_step);
        }
        if !on_instruction {
            return self.step(bus);
        }
        let deferred: u32 = self.run.int_level;
        self.run.int_level = 0;
        let step: StepResult = self.step_with_dispatch(bus, on_interrupt);
        self.run.int_level = deferred;
        step
    }

    /// Set up the counters of a cycle-budgeted run.
    #[verifier::opaque]
    pub open spec fn spec_open_cycle_batch(self, budget: i32) -> CpuCore {
        let c = self.spec_set_precise_bus(true);
        let c = CpuCore { run: RunState { initial_cycles: budget, ..c.run }, ..c };
        let c = CpuCore { run: RunState { cycles_remaining: budget, ..c.run }, ..c };
        if budget > 0 && c.host.reset_cycles > 0 {
            let c = CpuCore { run: RunState { cycles_remaining: budget.wrapping_sub(c.host.reset_cycles as i32), ..c.run }, ..c };
            let c = CpuCore { host: HostState { reset_cycles: 0, ..c.host }, ..c };
            c
        } else {
            c
        }
    }

    /// Set up the counters of a cycle-budgeted run.
    pub fn open_cycle_batch(&mut self, budget: i32)
        ensures
            *final(self) == old(self).spec_open_cycle_batch(budget),
    {
        proof {
            reveal(CpuCore::spec_open_cycle_batch);
        }
        self.set_precise_bus(true);
        self.run.initial_cycles = budget;
        self.run.cycles_remaining = budget;
        if budget > 0 && self.host.reset_cycles > 0 {
            self.run.cycles_remaining = budget.wrapping_sub(self.host.reset_cycles as i32);
            self.host.reset_cycles = 0;
        }
    }

    /// [`CpuCore::deferring_step`] of a boundary-hook run, told to an
    /// observer.
    pub fn probed_step<B: AddressBus, P: RunProbe>(&mut self, bus: &mut B, probe: &mut P) -> (r:
        StepResult)
        ensures
            (Machine::of(*final(self), *final(bus)), r) == Machine::of(
                *old(self),
                *old(bus),
            ).deferring_step(true, true),
            final(probe).heard() == old(probe).heard().plus(
                Machine::of(*old(self), *old(bus)).step_events(),
            ),
    {
        proof {
            reveal(Machine::deferring_step);
            reveal(Machine::step_events);
        }
        let deferred: u32 = self.run.int_level;
        self.run.int_level = 0;
        probe.begin_instruction();
        let step: StepResult = self.probed_dispatch(bus, probe);
        self.run.int_level = deferred;
        assert(probe.heard().events =~= old(probe).heard().events + Machine::of(
            *old(self),
            *old(bus),
        ).step_events());
        step
    }

    /// [`CpuCore::step_with_dispatch`] of a boundary-hook run, told to an
    /// observer.
    fn probed_dispatch<B: AddressBus, P: RunProbe>(&mut self, bus: &mut B, probe: &mut P) -> (r:
        StepResult)
        ensures
            (Machine::of(*final(self), *final(bus)), r) == Machine::of(
                *old(self),
                *old(bus),
            ).step_with_dispatch(true),
            final(probe).heard() == old(probe).heard().plus(
                Machine::of(*old(self), *old(bus)).dispatch_events(),
            ),
    {
        proof {
            reveal(Machine::step_with_dispatch);
            reveal(Machine::finish_step);
            reveal(Machine::dispatch_events);
        }
        self.set_precise_bus(true);
        if self.run.stopped != 0 {
            probe.discard_instruction();
            return match self.stopped_supervisor_check(bus) {
                Some(cycles) => StepResult::Completed { cycles },
                None => StepResult::Stopped,
            };
        }
        let fetched: bool = self.begin_instruction(bus);
        probe.finish_fetch(self.ppc, self.ir as u16, self.model.cpu_type);
        if !fetched {
            probe.discard_instruction();
            return StepResult::Completed { cycles: 0 };
        }
        let plain: bool = self.run.run_mode == RUN_MODE_NORMAL && (self.sys.t1_flag | self.sys.t0_flag)
            == 0;
        probe.set_dispatch_kind(
            if plain {
                dispatch_kind(self.model.cpu_type, self.ir as u16)
            } else {
                DispatchKind::Fallback
            },
        );
        let done: (InternalStepResult, bool) = self.dispatch_fetched(bus, true);
        probe.finish_dispatch_body();
        match done.0 {
            InternalStepResult::Completed { cycles } => {
                let total: i32 = self.finalize_cycles(bus, cycles, done.1);
                if !self.settle_step(bus) {
                    // The slot of a faulted instruction is not its successor's.
                    probe.discard_instruction();
                    return StepResult::Completed { cycles: total };
                }
                probe.finish_instruction(total);
                self.close_step(bus, total)
            },
            InternalStepResult::AlineTrap { opcode } => {
                self.clear_execution_pipeline_state();
                probe.discard_instruction();
                StepResult::AlineTrap { opcode }
            },
            InternalStepResult::FlineTrap { opcode } => {
                self.clear_execution_pipeline_state();
                probe.discard_instruction();
                StepResult::FlineTrap { opcode }
            },
            InternalStepResult::TrapInstruction { trap_num } => {
                self.clear_execution_pipeline_state();
                probe.discard_instruction();
                StepResult::TrapInstruction { trap_num }
            },
            InternalStepResult::Breakpoint { bp_num } => {
                self.clear_execution_pipeline_state();
                probe.discard_instruction();
                StepResult::Breakpoint { bp_num }
            },
            InternalStepResult::IllegalInstruction { opcode } => {
                self.clear_execution_pipeline_state();
                probe.discard_instruction();
                StepResult::IllegalInstruction { opcode }
            },
        }
    }

    /// Take a pending interrupt. `None` if there was none to take.
    pub fn service_interrupt_boundary<B: AddressBus, H: BoundaryHook<B>, P: RunProbe>(
        &mut self,
        bus: &mut B,
        probe: &mut P,
        hook: &mut H,
        on_interrupt: bool,
    ) -> (r: Option<CycleBatchControl>)
        ensures
            (Session { machine: Machine::of(*final(self), *final(bus)), hook: final(hook).view() }, r)
                == (Session { machine: Machine::of(*old(self), *old(bus)), hook: old(hook).view() }).service_interrupt_boundary(on_interrupt),
            final(probe).heard() == old(probe).heard().plus(
                (Session { machine: Machine::of(*old(self), *old(bus)), hook: old(hook).view() }).interrupt_events(),
            ),
    {
        let before: i32 = self.run.cycles_remaining;
        probe.begin_interrupt(self.run.int_level);
        let serviced: bool = self.check_and_service_interrupts(bus);
        probe.finish_interrupt(serviced);
        if !serviced {
            return None;
        }
        if on_interrupt {
            let cycles: i32 = before.wrapping_sub(self.run.cycles_remaining);
            Some(hook.boundary(self, bus, CycleBoundaryEvent::InterruptEntry { cycles }))
        } else {
            Some(CycleBatchControl::Continue)
        }
    }

    /// A boundary at which a pending interrupt is taken: whether one was, and
    /// the exit if the run ends here.
    pub fn interrupt_boundary<B: AddressBus, H: BoundaryHook<B>, P: RunProbe>(
        &mut self,
        bus: &mut B,
        probe: &mut P,
        hook: &mut H,
        on_interrupt: bool,
    ) -> (r: (bool, Option<CycleBatchExit>))
        ensures
            (
                Session { machine: Machine::of(*final(self), *final(bus)), hook: final(hook).view() },
                r.0,
                r.1,
            ) == (Session { machine: Machine::of(*old(self), *old(bus)), hook: old(hook).view() }).interrupt_boundary(on_interrupt),
            final(probe).heard() == old(probe).heard().plus(
                (Session { machine: Machine::of(*old(self), *old(bus)), hook: old(hook).view() }).interrupt_events(),
            ),
    {
        match self.service_interrupt_boundary(bus, probe, hook, on_interrupt) {
            Some(control) => {
                let requested: bool = bus.instruction_boundary_requested();
                if requested || control == CycleBatchControl::Return {
                    (true, Some(CycleBatchExit::BoundaryRequested))
                } else {
                    (true, None)
                }
            },
            None => (false, None),
        }
    }

    /// The boundary after an instruction that took `cycles`. STOP is an exit
    /// of its own, unless it unmasked a pending interrupt.
    pub fn after_instruction<B: AddressBus, H: BoundaryHook<B>, P: RunProbe>(
        &mut self,
        bus: &mut B,
        probe: &mut P,
        hook: &mut H,
        cycles: i32,
        on_instruction: bool,
        on_interrupt: bool,
    ) -> (r: Option<CycleBatchExit>)
        ensures
            (Session { machine: Machine::of(*final(self), *final(bus)), hook: final(hook).view() }, r)
                == (Session { machine: Machine::of(*old(self), *old(bus)), hook: old(hook).view() }).after_instruction(cycles, on_instruction, on_interrupt),
            final(probe).heard() == old(probe).heard().plus(
                (Session { machine: Machine::of(*old(self), *old(bus)), hook: old(hook).view() }).after_events(cycles, on_instruction),
            ),
    {
        proof {
            reveal(Session::after_events);
            assert(probe.heard().plus(Seq::empty()).events =~= probe.heard().events);
        }
        self.charge(cycles);
        if self.run.stopped != 0 {
            if on_instruction {
                let taken: (bool, Option<CycleBatchExit>) = self.interrupt_boundary(
                    bus,
                    probe,
                    hook,
                    on_interrupt,
                );
                if taken.0 {
                    return taken.1;
                }
            }
            return Some(CycleBatchExit::Stopped);
        }
        let control: CycleBatchControl = if on_instruction {
            hook.boundary(self, bus, CycleBoundaryEvent::Instruction { cycles })
        } else {
            CycleBatchControl::Continue
        };
        let requested: bool = bus.instruction_boundary_requested();
        if requested || control == CycleBatchControl::Return {
            return Some(CycleBatchExit::BoundaryRequested);
        }
        if on_instruction {
            let taken: (bool, Option<CycleBatchExit>) = self.interrupt_boundary(
                bus,
                probe,
                hook,
                on_interrupt,
            );
            return taken.1;
        }
        None
    }

    /// One round of a cycle-budgeted run: whether an instruction retired, and
    /// the exit if the run ends here.
    pub fn cycle_round<B: AddressBus, H: BoundaryHook<B>, P: RunProbe>(
        &mut self,
        bus: &mut B,
        probe: &mut P,
        hook: &mut H,
        on_instruction: bool,
        on_interrupt: bool,
    ) -> (r: (bool, Option<CycleBatchExit>))
        ensures
            (
                Session { machine: Machine::of(*final(self), *final(bus)), hook: final(hook).view() },
                r.0,
                r.1,
            ) == (Session { machine: Machine::of(*old(self), *old(bus)), hook: old(hook).view() }).round(on_instruction, on_interrupt),
            final(probe).heard() == old(probe).heard().plus(
                (Session { machine: Machine::of(*old(self), *old(bus)), hook: old(hook).view() }).round_events(on_instruction, on_interrupt),
            ),
    {
        proof {
            reveal(Session::round);
            reveal(Session::round_events);
            assert(probe.heard().plus(Seq::empty()).events =~= probe.heard().events);
        }
        if self.run.cycles_remaining <= 0 {
            return (false, Some(CycleBatchExit::BudgetExhausted));
        }
        if self.run.stopped != 0 {
            return (false, Some(CycleBatchExit::Stopped));
        }
        let step: StepResult = if on_instruction && on_interrupt {
            self.probed_step(bus, probe)
        } else {
            self.deferring_step(bus, on_instruction, on_interrupt)
        };
        match step {
            StepResult::Completed { cycles } => {
                let exit: Option<CycleBatchExit> = self.after_instruction(
                    bus,
                    probe,
                    hook,
                    cycles,
                    on_instruction,
                    on_interrupt,
                );
                (true, exit)
            },
            _ => (false, Some(surfaced_exit(step))),
        }
    }

    /// A cycle-budgeted run with the hook calls selected by the two flags.
    pub fn run_for_cycles_inner<B: AddressBus, H: BoundaryHook<B>, P: RunProbe>(
        &mut self,
        bus: &mut B,
        probe: &mut P,
        cycle_budget: i32,
        hook: &mut H,
        on_instruction: bool,
        on_interrupt: bool,
    ) -> (r: CycleBatchResult)
        ensures
            (Session { machine: Machine::of(*final(self), *final(bus)), hook: final(hook).view() }, r)
                == (Session { machine: Machine::of(*old(self), *old(bus)), hook: old(hook).view() }).run_for_cycles(cycle_budget, on_instruction, on_interrupt),
            final(probe).heard() == old(probe).heard().plus(
                (Session { machine: Machine::of(*old(self), *old(bus)), hook: old(hook).view() }).run_events(cycle_budget, on_instruction, on_interrupt),
            ),
    {
        proof {
            assert(probe.heard().plus(Seq::empty()).events =~= probe.heard().events);
        }
        self.open_cycle_batch(cycle_budget);
        if cycle_budget <= 0 {
            return CycleBatchResult {
                cycles: self.cycles_consumed(),
                instructions: 0,
                exit: CycleBatchExit::BudgetExhausted,
            };
        }
        let entry: (bool, Option<CycleBatchExit>) = self.interrupt_boundary(bus, probe, hook, on_interrupt);
        if let Some(exit) = entry.1 {
            return CycleBatchResult { cycles: self.cycles_consumed(), instructions: 0, exit };
        }
        let ghost start = Session { machine: Machine::of(*self, *bus), hook: hook.view() };
        let ghost before = probe.heard();
        let mut fuel: u64 = RUN_LIMIT;
        let mut instructions: u32 = 0;
        let mut ended: Option<CycleBatchExit> = None;
        while ended.is_none() && fuel > 0
            invariant
                start.rounds(RUN_LIMIT as nat, 0, on_instruction, on_interrupt) == ({
                    let s = Session { machine: Machine::of(*self, *bus), hook: hook.view() };
                    match ended {
                        Some(exit) => (s, s.result(instructions, exit)),
                        None => s.rounds(fuel as nat, instructions, on_instruction, on_interrupt),
                    }
                }),
                before.plus(start.rounds_events(RUN_LIMIT as nat, on_instruction, on_interrupt)) == ({
                    let s = Session { machine: Machine::of(*self, *bus), hook: hook.view() };
                    match ended {
                        Some(_) => probe.heard(),
                        None => probe.heard().plus(
                            s.rounds_events(fuel as nat, on_instruction, on_interrupt),
                        ),
                    }
                }),
            decreases fuel,
        {
            let ghost s = Session { machine: Machine::of(*self, *bus), hook: hook.view() };
            let ghost told = probe.heard();
            fuel = fuel - 1;
            let round: (bool, Option<CycleBatchExit>) = self.cycle_round(
                bus,
                probe,
                hook,
                on_instruction,
                on_interrupt,
            );
            if round.0 {
                instructions = instructions.wrapping_add(1);
            }
            ended = round.1;
            proof {
                let now = s.round_events(on_instruction, on_interrupt);
                let next = Session { machine: Machine::of(*self, *bus), hook: hook.view() };
                let rest = next.rounds_events(fuel as nat, on_instruction, on_interrupt);
                assert(told.plus(now + rest).events =~= told.plus(now).plus(rest).events);
            }
        }
        proof {
            let s = Session { machine: Machine::of(*self, *bus), hook: hook.view() };
            assert(probe.heard().plus(Seq::empty()).events =~= probe.heard().events);
            let rest = start.rounds_events(RUN_LIMIT as nat, on_instruction, on_interrupt);
            let first = (Session {
                machine: Machine::of(*old(self), *old(bus)),
                hook: old(hook).view(),
            }).run_events(cycle_budget, on_instruction, on_interrupt);
            assert(before.plus(rest).events =~= old(probe).heard().plus(first).events);
        }
        let exit: CycleBatchExit = match ended {
            Some(reason) => reason,
            None => CycleBatchExit::BudgetExhausted,
        };
        CycleBatchResult { cycles: self.cycles_consumed(), instructions, exit }
    }

    /// Execute complete instructions until `cycle_budget` is met or crossed,
    /// or until an event requiring host attention occurs.
    ///
    /// Instructions are never split, so the last one may overshoot the
    /// budget. A surfaced trap is not counted and charged nothing. Interrupt
    /// entry is charged but not counted. A bus boundary request is polled
    /// after each completed instruction and after interrupt entry on batch
    /// entry.
    pub fn run_for_cycles<B: AddressBus>(&mut self, bus: &mut B, cycle_budget: i32) -> (r:
        CycleBatchResult)
        ensures
            (Session { machine: Machine::of(*final(self), *final(bus)), hook: HookView::idle() }, r)
                == (Session { machine: Machine::of(*old(self), *old(bus)), hook: HookView::idle() }).run_for_cycles(cycle_budget, false, false),
    {
        let mut hook: NoHook = NoHook;
        self.run_for_cycles_inner(bus, &mut NoProbe::new(), cycle_budget, &mut hook, false, false)
    }

    /// Execute complete instructions with host synchronization after each
    /// normally completed instruction.
    ///
    /// The hook is called for [`CycleBoundaryEvent::Instruction`] only; not
    /// for surfaced traps, STOP, interrupt entry, or an already stopped CPU.
    /// `ppc` identifies the completed instruction and `pc` the next one.
    pub fn run_for_cycles_with_hook<B: AddressBus, H: BoundaryHook<B>>(
        &mut self,
        bus: &mut B,
        cycle_budget: i32,
        hook: &mut H,
    ) -> (r: CycleBatchResult)
        ensures
            (Session { machine: Machine::of(*final(self), *final(bus)), hook: final(hook).view() }, r)
                == (Session { machine: Machine::of(*old(self), *old(bus)), hook: old(hook).view() }).run_for_cycles(cycle_budget, true, false),
    {
        self.run_for_cycles_inner(bus, &mut NoProbe::new(), cycle_budget, hook, true, false)
    }

    /// Execute complete instructions with host synchronization after every
    /// instruction and interrupt-entry boundary.
    pub fn run_for_cycles_with_boundary_hook<B: AddressBus, H: BoundaryHook<B>>(
        &mut self,
        bus: &mut B,
        cycle_budget: i32,
        hook: &mut H,
    ) -> (r: CycleBatchResult)
        ensures
            (Session { machine: Machine::of(*final(self), *final(bus)), hook: final(hook).view() }, r)
                == (Session { machine: Machine::of(*old(self), *old(bus)), hook: old(hook).view() }).run_for_cycles(cycle_budget, true, true),
    {
        self.run_for_cycles_inner(bus, &mut NoProbe::new(), cycle_budget, hook, true, true)
    }

    /// [`CpuCore::run_for_cycles_with_boundary_hook`] told to an observer. The
    /// run is the same run.
    pub fn run_for_cycles_profiled<B: AddressBus, H: BoundaryHook<B>, P: RunProbe>(
        &mut self,
        bus: &mut B,
        probe: &mut P,
        cycle_budget: i32,
        hook: &mut H,
    ) -> (r: CycleBatchResult)
        ensures
            (Session { machine: Machine::of(*final(self), *final(bus)), hook: final(hook).view() }, r)
                == (Session { machine: Machine::of(*old(self), *old(bus)), hook: old(hook).view() }).run_for_cycles(cycle_budget, true, true),
            final(probe).heard() == old(probe).heard().plus(
                (Session { machine: Machine::of(*old(self), *old(bus)), hook: old(hook).view() }).run_events(cycle_budget, true, true),
            ),
    {
        self.run_for_cycles_inner(bus, probe, cycle_budget, hook, true, true)
    }

    /// Read an opcode out of the window that the bus lends.
    pub fn window_opcode<B: AddressBus>(&mut self, bus: &mut B, off: usize) -> (r: Option<u16>)
        ensures
            (Machine::of(*final(self), *final(bus)), r) == Machine::of(
                *old(self),
                *old(bus),
            ).window_opcode(off),
    {
        let mem: &mut [u8] = bus.window();
        if off <= mem.len() && mem.len() - off >= 2 {
            Some(read_window(mem, off, Size::Word) as u16)
        } else {
            None
        }
    }

    /// Execute a decoded memory operation on the window that the bus lends.
    pub fn lent_mem_op<B: AddressBus>(&mut self, bus: &mut B, op: DecodedMemOp) -> (r: bool)
        ensures
            (Machine::of(*final(self), *final(bus)), r) == Machine::of(
                *old(self),
                *old(bus),
            ).lent_mem_op(op),
    {
        let mem: &mut [u8] = bus.window();
        self.exec_mem_op(mem, op)
    }

    /// Fetch an opcode over the bus; `None` if the fetch faulted.
    pub fn plain_fetch<B: AddressBus>(&mut self, bus: &mut B) -> (r: Option<u16>)
        ensures
            (Machine::of(*final(self), *final(bus)), r) == Machine::of(*old(self), *old(bus)).plain_fetch(),
    {
        proof {
            reveal(Machine::plain_fetch);
        }
        self.ppc = self.pc;
        let opcode: u16 = self.read_opcode_16(bus);
        if self.run.run_mode == RUN_MODE_BERR_AERR_RESET {
            return None;
        }
        self.ir = opcode as u32;
        Some(opcode)
    }

    /// Fetch an opcode, out of the window where it lies there. Odd PCs and
    /// PCs outside the window take the normal fetch and its address-error
    /// handling.
    pub fn batch_fetch<B: AddressBus>(&mut self, bus: &mut B) -> (r: Option<u16>)
        ensures
            (Machine::of(*final(self), *final(bus)), r) == Machine::of(*old(self), *old(bus)).batch_fetch(),
    {
        proof {
            reveal(Machine::batch_fetch);
        }
        if self.host.fm_len != 0 && self.pc & 1 == 0 {
            let win: Win = Win { base: self.host.fm_base, len: self.host.fm_len };
            if let Some(off) = window_off(win, self.address(self.pc), 2) {
                let word: Option<u16> = self.window_opcode(bus, off);
                if let Some(opcode) = word {
                    self.ppc = self.pc;
                    self.pc = self.pc.wrapping_add(2);
                    self.ir = opcode as u32;
                    return Some(opcode);
                }
            }
        }
        self.plain_fetch(bus)
    }

    /// Execute a decoded operation; `false` if it needs full dispatch.
    pub fn run_verdict<B: AddressBus>(&mut self, bus: &mut B, op: CachedOp) -> (r: bool)
        ensures
            (Machine::of(*final(self), *final(bus)), r) == Machine::of(*old(self), *old(bus)).run_verdict(op),
    {
        proof {
            reveal(Machine::run_verdict);
        }
        match op {
            CachedOp::Simple(simple) => {
                self.exec_simple(simple);
                true
            },
            CachedOp::Mem(mem_op) => self.lent_mem_op(bus, mem_op),
            _ => false,
        }
    }

    /// Execute a simple operation and charge its cycles.
    #[verifier::opaque]
    pub open spec fn spec_charge_simple(self, op: DecodedSimpleOp) -> CpuCore {
        let (c, cycles) = self.spec_exec_simple(op);
        let c = c.spec_charge(cycles);
        c
    }

    /// Execute a simple operation and charge its cycles.
    pub fn charge_simple(&mut self, op: DecodedSimpleOp)
        ensures
            *final(self) == old(self).spec_charge_simple(op),
    {
        proof {
            reveal(CpuCore::spec_charge_simple);
        }
        let cycles: i32 = self.exec_simple(op);
        self.charge(cycles);
    }

    /// Give the batch cycle headroom that it cannot exhaust.
    #[verifier::opaque]
    pub open spec fn spec_replenish(self) -> CpuCore {
        let c = CpuCore { run: RunState { cycles_remaining: 0x3FFF_FFFF, ..self.run }, ..self };
        c
    }

    /// Give the batch cycle headroom that it cannot exhaust.
    pub fn replenish(&mut self)
        ensures
            *final(self) == old(self).spec_replenish(),
    {
        proof {
            reveal(CpuCore::spec_replenish);
        }
        self.run.cycles_remaining = 0x3FFF_FFFF;
    }

    /// Back to the normal run mode after a fault entered its handler.
    #[verifier::opaque]
    pub open spec fn spec_resume_normal(self) -> CpuCore {
        let c = CpuCore { run: RunState { run_mode: RUN_MODE_NORMAL, ..self.run }, ..self };
        c
    }

    /// Back to the normal run mode after a fault entered its handler.
    pub fn resume_normal(&mut self)
        ensures
            *final(self) == old(self).spec_resume_normal(),
    {
        proof {
            reveal(CpuCore::spec_resume_normal);
        }
        self.run.run_mode = RUN_MODE_NORMAL;
    }

    /// Capture the memory window of the bus for a batch. Never with an active
    /// MMU: window addresses are physical.
    pub fn open_batch<B: AddressBus>(&mut self, bus: &mut B)
        ensures
            Machine::of(*final(self), *final(bus)) == Machine::of(*old(self), *old(bus)).open_batch(),
    {
        proof {
            reveal(Machine::open_batch);
        }
        self.set_precise_bus(false);
        if self.mmu.present && self.mmu.enabled {
            return;
        }
        let window: Option<FastMem> = bus.fast_mem();
        if let Some(fm) = window {
            if fm.len >= 4 {
                self.host.fm_base = fm.base;
                self.host.fm_len = fm.len;
            }
        }
    }

    /// Drop the memory window.
    pub open spec fn spec_drop_window(self) -> CpuCore {
        let c = CpuCore { host: HostState { fm_base: 0, ..self.host }, ..self };
        let c = CpuCore { host: HostState { fm_len: 0, ..c.host }, ..c };
        c
    }

    /// Drop the memory window.
    pub fn drop_window(&mut self)
        ensures
            *final(self) == old(self).spec_drop_window(),
    {
        self.host.fm_base = 0;
        self.host.fm_len = 0;
    }

    /// Drop the memory window and go back to the bus precision of the caller.
    #[verifier::opaque]
    pub open spec fn spec_close_batch(self, precise: bool) -> CpuCore {
        let c = self.spec_drop_window();
        let c = c.spec_set_precise_bus(precise);
        c
    }

    /// Drop the memory window and go back to the bus precision of the caller.
    pub fn close_batch(&mut self, precise: bool)
        ensures
            *final(self) == old(self).spec_close_batch(precise),
    {
        proof {
            reveal(CpuCore::spec_close_batch);
        }
        self.drop_window();
        self.set_precise_bus(precise);
    }

    /// Dispatch an instruction of a batch. `Some` surfaces a trap, which is
    /// not taken. A trace exception or a pending interrupt is taken after a
    /// completed instruction, unless it faulted.
    pub fn batch_dispatch<B: AddressBus>(&mut self, bus: &mut B, opcode: u16, known_complex: bool) -> (r: Option<BatchExit>)
        ensures
            (Machine::of(*final(self), *final(bus)), r) == Machine::of(*old(self), *old(bus)).batch_dispatch(opcode, known_complex),
    {
        proof {
            reveal(Machine::batch_dispatch);
        }
        self.ir = opcode as u32;
        if known_complex {
            self.prepare_rollback_snapshot_full();
        } else {
            self.prepare_rollback_snapshot(opcode);
        }
        let outcome: InternalStepResult = self.dispatch_instruction(bus, opcode);
        if self.host.fm_len != 0 && self.mmu.present && self.mmu.enabled {
            self.drop_window();
        }
        let exit: Option<BatchExit> = trap_exit(outcome);
        if exit.is_some() {
            return exit;
        }
        if self.run.run_mode == RUN_MODE_BERR_AERR_RESET {
            self.run.run_mode = RUN_MODE_NORMAL;
            return None;
        }
        if !self.host.sst_m68000_compat {
            let traced: bool = self.check_trace();
            if traced {
                self.exception_trace(bus);
            }
        }
        if self.run.int_level > 0 {
            self.check_and_service_interrupts(bus);
        }
        None
    }

    /// One instruction of the instruction-budgeted fast loop.
    pub fn fast_step<B: AddressBus>(&mut self, bus: &mut B, table: &mut Option<OpCache>) -> (r: FastStep)
        ensures
            (Machine::of(*final(self), *final(bus)), r) == Machine::of(
                *old(self),
                *old(bus),
            ).fast_step(),
    {
        match self.batch_fetch(bus) {
            None => FastStep::Fault,
            Some(opcode) => {
                let op: CachedOp = lookup_in(table, opcode, self.model.cpu_type);
                if self.run_verdict(bus, op) {
                    FastStep::Retired
                } else {
                    FastStep::Miss(opcode)
                }
            },
        }
    }

    /// The instruction-budgeted fast loop. After every retired instruction
    /// the new PC is checked against `watch_pcs`.
    pub fn run_decoded_simple_batch<B: AddressBus>(
        &mut self,
        bus: &mut B,
        budget: u32,
        watch_pcs: &[u32],
        retired: u32,
        table: &mut Option<OpCache>,
    ) -> (r: (BatchInnerExit, u32))
        ensures
            (Machine::of(*final(self), *final(bus)), r.0, r.1) == Machine::of(
                *old(self),
                *old(bus),
            ).fast_steps(budget, watch_pcs@, retired),
    {
        let ghost start = Machine::of(*self, *bus);
        let mut left: u32 = budget;
        let mut count: u32 = retired;
        while left > 0
            invariant
                start == Machine::of(*old(self), *old(bus)),
                start.fast_steps(budget, watch_pcs@, retired) == Machine::of(*self, *bus).fast_steps(
                    left,
                    watch_pcs@,
                    count,
                ),
            decreases left,
        {
            left = left - 1;
            match self.fast_step(bus, table) {
                FastStep::Fault => {
                    return (BatchInnerExit::Fault, count);
                },
                FastStep::Miss(opcode) => {
                    return (BatchInnerExit::Miss(opcode), count);
                },
                FastStep::Retired => {
                    count = count.wrapping_add(1);
                    if watches(watch_pcs, self.pc) {
                        return (BatchInnerExit::Watched(self.pc), count);
                    }
                },
            }
        }
        (BatchInnerExit::Budget, count)
    }

    /// The decoded-operation loop of a cycle-budgeted run: simple operations
    /// until the budget runs out, or until an opcode needs full dispatch.
    pub fn execute_decoded_simple_run<B: AddressBus>(
        &mut self,
        bus: &mut B,
        table: &mut Option<OpCache>,
    ) -> (r: CachedRunResult)
        ensures
            (Machine::of(*final(self), *final(bus)), r) == Machine::of(
                *old(self),
                *old(bus),
            ).simple_steps(RUN_LIMIT as nat),
    {
        let ghost start = Machine::of(*self, *bus);
        let mut fuel: u64 = RUN_LIMIT;
        while fuel > 0 && self.run.cycles_remaining > 0
            invariant
                start == Machine::of(*old(self), *old(bus)),
                start.simple_steps(RUN_LIMIT as nat) == Machine::of(*self, *bus).simple_steps(
                    fuel as nat,
                ),
            decreases fuel,
        {
            fuel = fuel - 1;
            match self.plain_fetch(bus) {
                None => {
                    return CachedRunResult::Fault;
                },
                Some(opcode) => {
                    match lookup_in(table, opcode, self.model.cpu_type) {
                        CachedOp::Simple(op) => {
                            self.charge_simple(op);
                        },
                        _ => {
                            return CachedRunResult::Miss(opcode);
                        },
                    }
                },
            }
        }
        CachedRunResult::Ran
    }

    /// A fully dispatched instruction of a batch, and the checks after it:
    /// the instructions retired so far, and the exit if the batch ends here.
    pub fn dispatch_round<B: AddressBus>(
        &mut self,
        bus: &mut B,
        opcode: u16,
        known_complex: bool,
        watch_pcs: &[u32],
        retired: u32,
    ) -> (r: (u32, Option<BatchExit>))
        ensures
            (Machine::of(*final(self), *final(bus)), r.0, r.1) == Machine::of(
                *old(self),
                *old(bus),
            ).dispatch_round(opcode, known_complex, watch_pcs@, retired),
    {
        let exit: Option<BatchExit> = self.batch_dispatch(bus, opcode, known_complex);
        if exit.is_some() {
            return (retired, exit);
        }
        let count: u32 = retired.wrapping_add(1);
        if self.run.stopped != 0 {
            return (count, Some(BatchExit::Stopped));
        }
        if watches(watch_pcs, self.pc) {
            return (count, Some(BatchExit::WatchedPc { pc: self.pc }));
        }
        (count, None)
    }

    /// One round of an instruction-budgeted batch: the instructions retired
    /// so far, and the exit if the batch ends here.
    pub fn batch_round<B: AddressBus>(
        &mut self,
        bus: &mut B,
        max_instructions: u32,
        watch_pcs: &[u32],
        retired: u32,
        table: &mut Option<OpCache>,
    ) -> (r: (u32, Option<BatchExit>))
        ensures
            (Machine::of(*final(self), *final(bus)), r.0, r.1) == Machine::of(
                *old(self),
                *old(bus),
            ).batch_round(max_instructions, watch_pcs@, retired),
    {
        self.replenish();
        if retired >= max_instructions {
            return (retired, Some(BatchExit::BudgetExhausted));
        }
        if self.can_run_decoded_simple_ops() {
            let inner: (BatchInnerExit, u32) = self.run_decoded_simple_batch(
                bus,
                max_instructions - retired,
                watch_pcs,
                retired,
                table,
            );
            match inner.0 {
                BatchInnerExit::Budget => (inner.1, Some(BatchExit::BudgetExhausted)),
                BatchInnerExit::Watched(pc) => (inner.1, Some(BatchExit::WatchedPc { pc })),
                BatchInnerExit::Fault => {
                    self.resume_normal();
                    (inner.1, None)
                },
                BatchInnerExit::Miss(opcode) => self.dispatch_round(
                    bus,
                    opcode,
                    true,
                    watch_pcs,
                    inner.1,
                ),
            }
        } else {
            match self.plain_fetch(bus) {
                None => {
                    self.resume_normal();
                    (retired, None)
                },
                Some(opcode) => self.dispatch_round(bus, opcode, false, watch_pcs, retired),
            }
        }
    }

    /// An instruction-budgeted batch on the window captured for it.
    pub fn run_batch_inner<B: AddressBus>(
        &mut self,
        bus: &mut B,
        max_instructions: u32,
        watch_pcs: &[u32],
        table: &mut Option<OpCache>,
    ) -> (r: BatchResult)
        ensures
            (Machine::of(*final(self), *final(bus)), r) == Machine::of(
                *old(self),
                *old(bus),
            ).run_batch_inner(max_instructions, watch_pcs@),
    {
        if self.run.stopped != 0 {
            return BatchResult { instructions: 0, exit: BatchExit::Stopped };
        }
        let ghost start = Machine::of(*self, *bus);
        let mut fuel: u64 = RUN_LIMIT;
        let mut retired: u32 = 0;
        while fuel > 0
            invariant
                start == Machine::of(*old(self), *old(bus)),
                start.cpu.run.stopped == 0,
                start.batch_rounds(RUN_LIMIT as nat, max_instructions, watch_pcs@, 0) == Machine::of(
                    *self,
                    *bus,
                ).batch_rounds(fuel as nat, max_instructions, watch_pcs@, retired),
            decreases fuel,
        {
            fuel = fuel - 1;
            let round: (u32, Option<BatchExit>) = self.batch_round(
                bus,
                max_instructions,
                watch_pcs,
                retired,
                table,
            );
            retired = round.0;
            if let Some(exit) = round.1 {
                return BatchResult { instructions: retired, exit };
            }
        }
        BatchResult { instructions: retired, exit: BatchExit::BudgetExhausted }
    }

    /// Execute up to `max_instructions` instructions, returning on the first
    /// interesting event: a trap (surfaced exactly like [`CpuCore::step`]),
    /// the CPU stopping, execution reaching a PC listed in `watch_pcs`, or
    /// the instruction budget running out.
    ///
    /// `watch_pcs` is checked after every retired instruction, before the
    /// instruction at the new PC executes. The PC on entry is not checked, so
    /// a caller that resumes from a watched PC does not loop forever.
    ///
    /// `cycles_remaining` is clobbered. Decoded opcodes are kept for the next
    /// batch; apart from them the outcome does not depend on what an earlier
    /// batch decoded.
    pub fn run_batch<B: AddressBus>(
        &mut self,
        bus: &mut B,
        max_instructions: u32,
        watch_pcs: &[u32],
    ) -> (r: BatchResult)
        ensures
            ({
                let (end, result) = Machine::of(*old(self), *old(bus)).uncached().run_batch(
                    max_instructions,
                    watch_pcs@,
                );
                Machine::of(*final(self), *final(bus)).uncached() == end.uncached() && r == result
            }),
    {
        let mut table: Option<OpCache> = None;
        std::mem::swap(&mut table, &mut self.decode_table);
        let ghost start = Machine::of(*self, *bus);
        let precise: bool = self.model.precise_bus;
        self.open_batch(bus);
        let result: BatchResult = self.run_batch_inner(bus, max_instructions, watch_pcs, &mut table);
        self.close_batch(precise);
        let ghost end = Machine::of(*self, *bus);
        assert((end, result) == start.run_batch(max_instructions, watch_pcs@));
        self.decode_table = table;
        result
    }
}

} // verus!
