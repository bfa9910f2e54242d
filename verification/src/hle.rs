//! High-level emulation: traps handed to the host before the hardware
//! exception is taken.

use vstd::prelude::*;
use crate::cpu::CpuCore;
use crate::machine::Machine;
use crate::memory::AddressBus;
use crate::types::{InternalStepResult, StepResult};

verus! {

/// A trap handed to the host.
#[derive(Debug, Clone, Copy, PartialEq, Eq, Structural)]
pub enum HleTrap {
    Aline { opcode: u16 },
    Fline { opcode: u16 },
    Trap { trap_num: u8 },
    Breakpoint { bp_num: u8 },
    Illegal { opcode: u16 },
}

/// One trap and the machine that met it.
pub struct HleCall {
    pub machine: Machine,
    pub trap: HleTrap,
}

/// What the host makes of the machine, and whether it handled the trap.
pub struct HleReply {
    pub machine: Machine,
    pub handled: bool,
}

/// The behaviour of a handler: its reply to a trap after a history of traps.
#[verifier::ext_equal]
pub struct HleView {
    pub behavior: spec_fn(Seq<HleCall>, HleCall) -> HleReply,
}

impl HleView {
    /// The reply to `call` now.
    #[verifier::opaque]
    pub open spec fn reply(self, call: HleCall) -> HleReply {
        (self.behavior)(Seq::empty(), call)
    }

    /// The behaviour once `call` has happened.
    #[verifier::opaque]
    pub open spec fn after(self, call: HleCall) -> HleView {
        HleView {
            behavior: |past: Seq<HleCall>, next: HleCall| (self.behavior)(seq![call] + past, next),
        }
    }

    /// The handler that handles nothing.
    pub open spec fn idle() -> HleView {
        HleView {
            behavior: |past: Seq<HleCall>, call: HleCall|
                HleReply { machine: call.machine, handled: false },
        }
    }

    /// The idle handler stays idle.
    pub proof fn lemma_idle(call: HleCall)
        ensures
            Self::idle().reply(call) == (HleReply { machine: call.machine, handled: false }),
            Self::idle().after(call) == Self::idle(),
    {
        reveal(HleView::reply);
        reveal(HleView::after);
        assert(Self::idle().after(call) =~= Self::idle());
    }
}

/// Host handling of trap instructions. Each method gives `true` if it handled
/// the trap; otherwise the hardware exception is taken.
pub trait HleHandler: Sized {
    /// The behaviour of the handler from here on.
    spec fn view(&self) -> HleView;

    /// An A-line opcode.
    fn handle_aline<B: AddressBus>(&mut self, cpu: &mut CpuCore, bus: &mut B, opcode: u16) -> (r: bool)
        ensures
            (HleReply { machine: Machine::of(*final(cpu), *final(bus)), handled: r }) == old(self).view().reply(
                HleCall {
                    machine: Machine::of(*old(cpu), *old(bus)),
                    trap: HleTrap::Aline { opcode },
                },
            ),
            final(self).view() == old(self).view().after(
                HleCall {
                    machine: Machine::of(*old(cpu), *old(bus)),
                    trap: HleTrap::Aline { opcode },
                },
            ),
    ;

    /// An F-line opcode.
    fn handle_fline<B: AddressBus>(&mut self, cpu: &mut CpuCore, bus: &mut B, opcode: u16) -> (r: bool)
        ensures
            (HleReply { machine: Machine::of(*final(cpu), *final(bus)), handled: r }) == old(self).view().reply(
                HleCall {
                    machine: Machine::of(*old(cpu), *old(bus)),
                    trap: HleTrap::Fline { opcode },
                },
            ),
            final(self).view() == old(self).view().after(
                HleCall {
                    machine: Machine::of(*old(cpu), *old(bus)),
                    trap: HleTrap::Fline { opcode },
                },
            ),
    ;

    /// TRAP #n.
    fn handle_trap<B: AddressBus>(&mut self, cpu: &mut CpuCore, bus: &mut B, trap_num: u8) -> (r: bool)
        ensures
            (HleReply { machine: Machine::of(*final(cpu), *final(bus)), handled: r }) == old(self).view().reply(
                HleCall {
                    machine: Machine::of(*old(cpu), *old(bus)),
                    trap: HleTrap::Trap { trap_num },
                },
            ),
            final(self).view() == old(self).view().after(
                HleCall {
                    machine: Machine::of(*old(cpu), *old(bus)),
                    trap: HleTrap::Trap { trap_num },
                },
            ),
    ;

    /// BKPT #n.
    fn handle_breakpoint<B: AddressBus>(&mut self, cpu: &mut CpuCore, bus: &mut B, bp_num: u8) -> (r: bool)
        ensures
            (HleReply { machine: Machine::of(*final(cpu), *final(bus)), handled: r }) == old(self).view().reply(
                HleCall {
                    machine: Machine::of(*old(cpu), *old(bus)),
                    trap: HleTrap::Breakpoint { bp_num },
                },
            ),
            final(self).view() == old(self).view().after(
                HleCall {
                    machine: Machine::of(*old(cpu), *old(bus)),
                    trap: HleTrap::Breakpoint { bp_num },
                },
            ),
    ;

    /// An illegal opcode.
    fn handle_illegal<B: AddressBus>(&mut self, cpu: &mut CpuCore, bus: &mut B, opcode: u16) -> (r: bool)
        ensures
            (HleReply { machine: Machine::of(*final(cpu), *final(bus)), handled: r }) == old(self).view().reply(
                HleCall {
                    machine: Machine::of(*old(cpu), *old(bus)),
                    trap: HleTrap::Illegal { opcode },
                },
            ),
            final(self).view() == old(self).view().after(
                HleCall {
                    machine: Machine::of(*old(cpu), *old(bus)),
                    trap: HleTrap::Illegal { opcode },
                },
            ),
    ;
}

/// A handler that leaves every trap to the hardware.
#[derive(Debug, Clone, Copy)]
pub struct NoHle;

impl HleHandler for NoHle {
    open spec fn view(&self) -> HleView {
        HleView::idle()
    }

    fn handle_aline<B: AddressBus>(&mut self, cpu: &mut CpuCore, bus: &mut B, opcode: u16) -> (r: bool) {
        proof {
            HleView::lemma_idle(
                HleCall { machine: Machine::of(*cpu, *bus), trap: HleTrap::Aline { opcode } },
            );
        }
        false
    }

    fn handle_fline<B: AddressBus>(&mut self, cpu: &mut CpuCore, bus: &mut B, opcode: u16) -> (r: bool) {
        proof {
            HleView::lemma_idle(
                HleCall { machine: Machine::of(*cpu, *bus), trap: HleTrap::Fline { opcode } },
            );
        }
        false
    }

    fn handle_trap<B: AddressBus>(&mut self, cpu: &mut CpuCore, bus: &mut B, trap_num: u8) -> (r: bool) {
        proof {
            HleView::lemma_idle(
                HleCall { machine: Machine::of(*cpu, *bus), trap: HleTrap::Trap { trap_num } },
            );
        }
        false
    }

    fn handle_breakpoint<B: AddressBus>(&mut self, cpu: &mut CpuCore, bus: &mut B, bp_num: u8) -> (r: bool) {
        proof {
            HleView::lemma_idle(
                HleCall { machine: Machine::of(*cpu, *bus), trap: HleTrap::Breakpoint { bp_num } },
            );
        }
        false
    }

    fn handle_illegal<B: AddressBus>(&mut self, cpu: &mut CpuCore, bus: &mut B, opcode: u16) -> (r: bool) {
        proof {
            HleView::lemma_idle(
                HleCall { machine: Machine::of(*cpu, *bus), trap: HleTrap::Illegal { opcode } },
            );
        }
        false
    }
}

/// A machine and the handler of its traps.
pub struct HleSession {
    pub machine: Machine,
    pub handler: HleView,
}

impl HleSession {
    /// The session with another machine.
    #[verifier::inline]
    pub open spec fn on(self, machine: Machine) -> HleSession {
        HleSession { machine, ..self }
    }

    /// The handler is offered a trap.
    pub open spec fn offer(self, trap: HleTrap) -> (HleSession, bool) {
        let call = HleCall { machine: self.machine, trap };
        let reply = self.handler.reply(call);
        (HleSession { machine: reply.machine, handler: self.handler.after(call) }, reply.handled)
    }

    /// The outcome of the dispatcher is resolved: a handled trap takes no
    /// cycles, any other outcome what [`CpuCore::take_trap`] says.
    pub open spec fn resolve(self, outcome: InternalStepResult, fetch_cached: bool) -> (
        HleSession,
        i32,
    ) {
        match trap_of(outcome) {
            None => {
                let (m, cycles) = self.machine.take_trap(outcome, fetch_cached);
                (self.on(m), cycles)
            },
            Some(trap) => {
                let s = self.on(
                    self.machine.on_cpu(self.machine.cpu.spec_clear_execution_pipeline_state()),
                );
                let (s, handled) = s.offer(trap);
                if handled {
                    (s, 0)
                } else {
                    let (m, cycles) = s.machine.take_trap(outcome, fetch_cached);
                    (s.on(m), cycles)
                }
            },
        }
    }

    /// One instruction with a handler for its traps.
    pub open spec fn step(self) -> (HleSession, StepResult) {
        let s = self.on(self.machine.on_cpu(self.machine.cpu.spec_set_precise_bus(true)));
        if s.machine.cpu.run.stopped != 0 {
            let (m, woken) = s.machine.stopped_supervisor_check();
            (
                s.on(m),
                match woken {
                    Some(cycles) => StepResult::Completed { cycles },
                    None => StepResult::Stopped,
                },
            )
        } else {
            let (m, fetched) = s.machine.begin_instruction();
            if !fetched {
                (s.on(m), StepResult::Completed { cycles: 0 })
            } else {
                let (m, done) = m.dispatch_fetched(false);
                let (s, cycles) = s.on(m).resolve(done.0, done.1);
                let (m, result) = s.machine.finish_step(cycles);
                (s.on(m), result)
            }
        }
    }
}

/// The trap that an outcome of the dispatcher offers to the host.
pub open spec fn spec_trap_of(outcome: InternalStepResult) -> Option<HleTrap> {
    match outcome {
        InternalStepResult::Completed { cycles: _ } => None,
        InternalStepResult::AlineTrap { opcode } => Some(HleTrap::Aline { opcode: opcode }),
        InternalStepResult::FlineTrap { opcode } => Some(HleTrap::Fline { opcode: opcode }),
        InternalStepResult::TrapInstruction { trap_num } => Some(HleTrap::Trap { trap_num: trap_num }),
        InternalStepResult::Breakpoint { bp_num } => Some(HleTrap::Breakpoint { bp_num: bp_num }),
        InternalStepResult::IllegalInstruction { opcode } => Some(HleTrap::Illegal { opcode: opcode }),
    }
}

/// The trap that an outcome of the dispatcher offers to the host.
#[verifier::when_used_as_spec(spec_trap_of)]
pub fn trap_of(outcome: InternalStepResult) -> (r: Option<HleTrap>)
    ensures
        r == spec_trap_of(outcome),
{
    match outcome {
        InternalStepResult::Completed { cycles: _ } => None,
        InternalStepResult::AlineTrap { opcode } => Some(HleTrap::Aline { opcode: opcode }),
        InternalStepResult::FlineTrap { opcode } => Some(HleTrap::Fline { opcode: opcode }),
        InternalStepResult::TrapInstruction { trap_num } => Some(HleTrap::Trap { trap_num: trap_num }),
        InternalStepResult::Breakpoint { bp_num } => Some(HleTrap::Breakpoint { bp_num: bp_num }),
        InternalStepResult::IllegalInstruction { opcode } => Some(HleTrap::Illegal { opcode: opcode }),
    }
}

impl CpuCore {
    /// Offer a trap to the host.
    pub fn offer_trap<B: AddressBus, T: HleHandler>(
        &mut self,
        bus: &mut B,
        handler: &mut T,
        trap: HleTrap,
    ) -> (r: bool)
        ensures
            (
                HleSession {
                    machine: Machine::of(*final(self), *final(bus)),
                    handler: final(handler).view(),
                },
                r,
            ) == (HleSession {
                machine: Machine::of(*old(self), *old(bus)),
                handler: old(handler).view(),
            }).offer(trap),
    {
        match trap {
            HleTrap::Aline { opcode } => handler.handle_aline(self, bus, opcode),
            HleTrap::Fline { opcode } => handler.handle_fline(self, bus, opcode),
            HleTrap::Trap { trap_num } => handler.handle_trap(self, bus, trap_num),
            HleTrap::Breakpoint { bp_num } => handler.handle_breakpoint(self, bus, bp_num),
            HleTrap::Illegal { opcode } => handler.handle_illegal(self, bus, opcode),
        }
    }

    /// Resolve the outcome of the dispatcher; gives the cycles.
    pub fn resolve_trap<B: AddressBus, T: HleHandler>(
        &mut self,
        bus: &mut B,
        handler: &mut T,
        outcome: InternalStepResult,
        fetch_cached: bool,
    ) -> (r: i32)
        ensures
            (
                HleSession {
                    machine: Machine::of(*final(self), *final(bus)),
                    handler: final(handler).view(),
                },
                r,
            ) == (HleSession {
                machine: Machine::of(*old(self), *old(bus)),
                handler: old(handler).view(),
            }).resolve(outcome, fetch_cached),
    {
        if let Some(trap) = trap_of(outcome) {
            self.clear_execution_pipeline_state();
            if self.offer_trap(bus, handler, trap) {
                return 0;
            }
        }
        self.take_trap(bus, outcome, fetch_cached)
    }

    /// Execute a single instruction with HLE trap handling.
    ///
    /// When a trap instruction is encountered, the method of the handler for
    /// it is called. If it gives `true` the trap is handled and execution
    /// continues; otherwise the hardware exception is taken.
    pub fn step_with_hle_handler<B: AddressBus, T: HleHandler>(
        &mut self,
        bus: &mut B,
        handler: &mut T,
    ) -> (r: StepResult)
        ensures
            (
                HleSession {
                    machine: Machine::of(*final(self), *final(bus)),
                    handler: final(handler).view(),
                },
                r,
            ) == (HleSession {
                machine: Machine::of(*old(self), *old(bus)),
                handler: old(handler).view(),
            }).step(),
    {
        self.set_precise_bus(true);
        if self.run.stopped != 0 {
            return match self.stopped_supervisor_check(bus) {
                Some(cycles) => StepResult::Completed { cycles },
                None => StepResult::Stopped,
            };
        }
        if !self.begin_instruction(bus) {
            return StepResult::Completed { cycles: 0 };
        }
        let done: (InternalStepResult, bool) = self.dispatch_fetched(bus, false);
        let cycles: i32 = self.resolve_trap(bus, handler, done.0, done.1);
        self.finish_step(bus, cycles)
    }
}

} // verus!
