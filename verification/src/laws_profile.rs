//! What a profile makes of a run.

use vstd::prelude::*;
use crate::batch::{Session, RUN_LIMIT};
use crate::cpu::{CpuCore, RunState};
use crate::laws_frame;
use crate::machine::Machine;
use crate::memory::BusOp;
use crate::runner_profile::{ProbeEvent, Sampler, Taken};
use crate::types::{InternalStepResult, StepResult};

verus! {

/// The machine of an instruction attempt of a boundary-hook run, the pending
/// interrupt held back.
pub open spec fn held(m: Machine) -> Machine {
    m.on_cpu(CpuCore { run: RunState { int_level: 0, ..m.cpu.run }, ..m.cpu })
}

/// What a sample of the attempt at the present boundary says: the address of
/// the instruction, its opcode, its dispatcher and its cycles after
/// finalization. `None` if it does not complete: the processor is stopped, the
/// fetch or the instruction faults, or the instruction is reported as a trap.
#[verifier::opaque]
pub open spec fn attempt(m: Machine) -> Option<Taken> {
    let m = held(m);
    let m = m.on_cpu(m.cpu.spec_set_precise_bus(true));
    if m.cpu.run.stopped != 0 {
        None
    } else {
        let (fetched, ready) = m.begin_instruction();
        let (done, outcome) = fetched.dispatch_fetched(true);
        match outcome.0 {
            InternalStepResult::Completed { cycles } if ready => {
                let (end, total) = done.finalize_cycles(cycles, outcome.1);
                if end.settle_step().1 {
                    Some(
                        Taken {
                            ppc: m.cpu.pc,
                            opcode: fetched.cpu.ir as u16,
                            cpu_type: crate::runner_profile::model_number(fetched.cpu.model.cpu_type),
                            dispatch: fetched.boundary_kind(),
                            cycles: total,
                        },
                    )
                } else {
                    None
                }
            },
            _ => None,
        }
    }
}

/// The attempts of the rounds of a boundary-hook run, in order.
pub open spec fn rounds_attempts(s: Session, fuel: nat) -> Seq<Option<Taken>>
    decreases fuel,
{
    if fuel == 0 || s.machine.cpu.run.cycles_remaining <= 0 || s.machine.cpu.run.stopped != 0 {
        Seq::empty()
    } else {
        let (next, retired, exit) = s.round(true, true);
        let now = seq![attempt(s.machine)];
        match exit {
            Some(_) => now,
            None => now + rounds_attempts(next, (fuel - 1) as nat),
        }
    }
}

/// The attempts of a boundary-hook run, in order.
pub open spec fn run_attempts(s: Session, budget: i32) -> Seq<Option<Taken>> {
    let opened = s.on(s.machine.on_cpu(s.machine.cpu.spec_open_cycle_batch(budget)));
    let (begun, taken, exit) = opened.interrupt_boundary(true);
    if budget <= 0 || exit is Some {
        Seq::empty()
    } else {
        rounds_attempts(begun, RUN_LIMIT as nat)
    }
}

/// Of every `interval`-th attempt, those that completed.
pub open spec fn every(attempts: Seq<Option<Taken>>, interval: u32) -> Seq<Taken>
    decreases attempts.len(),
{
    if attempts.len() == 0 {
        Seq::empty()
    } else {
        let before = every(attempts.drop_last(), interval);
        match attempts.last() {
            Some(taken) if attempts.len() % (interval as nat) == 0 => before.push(taken),
            _ => before,
        }
    }
}

proof fn lemma_feed_plus(st: Sampler, a: Seq<ProbeEvent>, b: Seq<ProbeEvent>)
    ensures
        st.feed(a + b) == st.feed(a).feed(b),
    decreases b.len(),
{
    if b.len() == 0 {
        assert(a + b =~= a);
    } else {
        assert((a + b).drop_last() =~= a + b.drop_last());
        lemma_feed_plus(st, a, b.drop_last());
    }
}

/// An interrupt entry is counted, and is no business of the samples.
proof fn lemma_interrupts(st: Sampler, s: Session)
    ensures
        st.feed(s.interrupt_events()) == (Sampler {
            interrupts: st.feed(s.interrupt_events()).interrupts,
            ..st
        }),
{
    let events = s.interrupt_events();
    assert(events.drop_last().drop_last() =~= Seq::<ProbeEvent>::empty());
    reveal_with_fuel(Sampler::feed, 3);
}

proof fn lemma_after(st: Sampler, s: Session, cycles: i32)
    ensures
        st.feed(s.after_events(cycles, true)) == (Sampler {
            interrupts: st.feed(s.after_events(cycles, true)).interrupts,
            ..st
        }),
{
    reveal(Session::after_events);
    let charged = s.on(s.machine.on_cpu(s.machine.cpu.spec_charge(cycles)));
    lemma_interrupts(st, charged);
    let (hooked, control) = charged.call(crate::types::CycleBoundaryEvent::Instruction { cycles });
    lemma_interrupts(st, hooked.poll(control).0);
}

/// Feeding four events one after the other.
proof fn lemma_feed_list(st: Sampler, a: ProbeEvent, b: ProbeEvent, c: ProbeEvent, d: ProbeEvent)
    ensures
        st.feed(seq![a]) == st.hear(a),
        st.feed(seq![a, b]) == st.hear(a).hear(b),
        st.feed(seq![a, b, c, d]) == st.hear(a).hear(b).hear(c).hear(d),
{
    reveal_with_fuel(Sampler::feed, 5);
    assert(seq![a].drop_last() =~= Seq::<ProbeEvent>::empty());
    assert(seq![a, b].drop_last() =~= seq![a]);
    assert(seq![a, b, c].drop_last() =~= seq![a, b]);
    assert(seq![a, b, c, d].drop_last() =~= seq![a, b, c]);
}

/// What the events of an instruction do to an idle sampler: the countdown
/// goes on, and if it selects the instruction and the instruction completes, a
/// sample says so. Either way the sampler is idle again.
proof fn lemma_step(st: Sampler, m: Machine)
    requires
        st.active is None,
        st.interval > 0,
    ensures
        st.feed(m.step_events()) == (Sampler {
            until: if st.until > 1 {
                (st.until - 1) as u32
            } else {
                st.interval
            },
            taken: match attempt(m) {
                Some(taken) if st.until <= 1 => st.taken.push(taken),
                _ => st.taken,
            },
            ..st
        }),
{
    reveal(Machine::step_events);
    reveal(Machine::dispatch_events);
    reveal(attempt);
    let start = held(m);
    let ready = start.on_cpu(start.cpu.spec_set_precise_bus(true));
    laws_frame::keeps_begin_instruction(ready);
    let begun = st.hear(ProbeEvent::BeginInstruction);
    let events = start.dispatch_events();
    lemma_feed_plus(st, seq![ProbeEvent::BeginInstruction], events);
    let e = ProbeEvent::Discard;
    lemma_feed_list(st, ProbeEvent::BeginInstruction, e, e, e);
    if ready.cpu.run.stopped != 0 {
        lemma_feed_list(begun, e, e, e, e);
    } else {
        let fetched = ready.begin_instruction().0;
        let fetch = ProbeEvent::FinishFetch {
            ppc: fetched.cpu.ppc,
            opcode: fetched.cpu.ir as u16,
            cpu_type: fetched.cpu.model.cpu_type,
        };
        let kind = ProbeEvent::Dispatch(fetched.boundary_kind());
        lemma_feed_list(begun, fetch, e, e, e);
        lemma_feed_list(begun, fetch, kind, ProbeEvent::FinishBody, e);
        if let InternalStepResult::Completed { cycles } = fetched.dispatch_fetched(true).1.0 {
            let (done, outcome) = fetched.dispatch_fetched(true);
            let total = done.finalize_cycles(cycles, outcome.1).1;
            lemma_feed_list(
                begun,
                fetch,
                kind,
                ProbeEvent::FinishBody,
                ProbeEvent::FinishInstruction { cycles: total },
            );
        }
    }
}

/// The sampler stands where a number of attempts has brought it.
spec fn in_step(st: Sampler, past: Seq<Option<Taken>>) -> bool {
    &&& st.active is None
    &&& st.interval > 0
    &&& st.until == st.interval - past.len() % (st.interval as nat)
    &&& st.taken == every(past, st.interval)
}

proof fn lemma_in_step(st: Sampler, past: Seq<Option<Taken>>, now: Option<Taken>, next: Sampler)
    requires
        in_step(st, past),
        next == (Sampler {
            until: if st.until > 1 {
                (st.until - 1) as u32
            } else {
                st.interval
            },
            taken: match now {
                Some(taken) if st.until <= 1 => st.taken.push(taken),
                _ => st.taken,
            },
            ..st
        }),
    ensures
        in_step(next, past.push(now)),
{
    let k = st.interval as int;
    let n = past.len() as int;
    vstd::arithmetic::div_mod::lemma_fundamental_div_mod(n, k);
    vstd::arithmetic::div_mod::lemma_mod_bound(n, k);
    if n % k == k - 1 {
        assert(n + 1 == (n / k + 1) * k + 0) by (nonlinear_arith)
            requires
                n == k * (n / k) + (k - 1),
        ;
        vstd::arithmetic::div_mod::lemma_fundamental_div_mod_converse(n + 1, k, n / k + 1, 0);
    } else {
        assert(n + 1 == (n / k) * k + (n % k + 1)) by (nonlinear_arith)
            requires
                n == k * (n / k) + n % k,
        ;
        vstd::arithmetic::div_mod::lemma_fundamental_div_mod_converse(n + 1, k, n / k, n % k + 1);
    }
    assert(past.push(now).drop_last() =~= past);
}

proof fn lemma_rounds(st: Sampler, s: Session, fuel: nat, past: Seq<Option<Taken>>)
    requires
        in_step(st, past),
    ensures
        in_step(st.feed(s.rounds_events(fuel, true, true)), past + rounds_attempts(s, fuel)),
        st.feed(s.rounds_events(fuel, true, true)).interval == st.interval,
    decreases fuel,
{
    let idle = s.machine.cpu.run.cycles_remaining <= 0 || s.machine.cpu.run.stopped != 0;
    assert(past + Seq::empty() =~= past);
    if fuel > 0 {
        let (next, retired, exit) = s.round(true, true);
        let heard = s.round_events(true, true);
        reveal(Session::round_events);
        if idle {
            reveal(Session::round);
        } else {
            let (m, step) = s.machine.deferring_step(true, true);
            lemma_step(st, s.machine);
            let sampled = st.feed(s.machine.step_events());
            lemma_in_step(st, past, attempt(s.machine), sampled);
            let now = past.push(attempt(s.machine));
            assert(past + seq![attempt(s.machine)] =~= now);
            if let StepResult::Completed { cycles } = step {
                let after = s.on(m).after_events(cycles, true);
                lemma_feed_plus(st, s.machine.step_events(), after);
                lemma_after(sampled, s.on(m), cycles);
            }
            assert(st.feed(heard) == (Sampler { interrupts: st.feed(heard).interrupts, ..sampled }));
            if exit is None {
                let rest = next.rounds_events((fuel - 1) as nat, true, true);
                lemma_feed_plus(st, heard, rest);
                lemma_rounds(st.feed(heard), next, (fuel - 1) as nat, now);
                assert(past + (seq![attempt(s.machine)] + rounds_attempts(next, (fuel - 1) as nat))
                    =~= now + rounds_attempts(next, (fuel - 1) as nat));
            }
        }
    }
}

/// A profile that hears a boundary-hook run samples every `interval`-th
/// instruction attempt that completes, in execution order, each with its
/// address, opcode, dispatcher and cycles, and nothing else.
pub proof fn law_run_is_sampled(s: Session, budget: i32, interval: u32)
    requires
        interval > 0,
    ensures
        Sampler::fresh(interval).feed(s.run_events(budget, true, true)).taken == every(
            run_attempts(s, budget),
            interval,
        ),
{
    let st = Sampler::fresh(interval);
    let opened = s.on(s.machine.on_cpu(s.machine.cpu.spec_open_cycle_batch(budget)));
    if budget > 0 {
        lemma_interrupts(st, opened);
        let (begun, taken, exit) = opened.interrupt_boundary(true);
        if exit is None {
            let none = Seq::<Option<Taken>>::empty();
            vstd::arithmetic::div_mod::lemma_small_mod(0, interval as nat);
            lemma_rounds(st.feed(opened.interrupt_events()), begun, RUN_LIMIT as nat, none);
            lemma_feed_plus(
                st,
                opened.interrupt_events(),
                begun.rounds_events(RUN_LIMIT as nat, true, true),
            );
            assert(none + rounds_attempts(begun, RUN_LIMIT as nat) =~= rounds_attempts(
                begun,
                RUN_LIMIT as nat,
            ));
        }
    }
}

/// Interrupt entries among the events.
pub open spec fn entries(events: Seq<ProbeEvent>) -> nat
    decreases events.len(),
{
    if events.len() == 0 {
        0
    } else if events.last() == (ProbeEvent::FinishInterrupt { serviced: true }) {
        entries(events.drop_last()) + 1
    } else {
        entries(events.drop_last())
    }
}

/// A profile counts the interrupt entries it hears of.
pub proof fn law_interrupt_entries_are_counted(st: Sampler, events: Seq<ProbeEvent>)
    requires
        st.interrupts + entries(events) <= u64::MAX,
    ensures
        st.feed(events).interrupts == st.interrupts + entries(events),
    decreases events.len(),
{
    if events.len() > 0 {
        law_interrupt_entries_are_counted(st, events.drop_last());
    }
}

/// An interrupt that is entered was pending, so its entry is timed.
pub proof fn law_entered_interrupt_is_timed(s: Session)
    ensures
        s.machine.check_and_service_interrupts().1 ==> s.machine.cpu.run.int_level != 0,
{
    crate::laws_run::law_interrupt_priority(s.machine);
    crate::bits::lemma_masks(s.machine.cpu.run.int_level);
}

/// A profile with interval zero samples nothing.
pub proof fn law_disabled_profile_samples_nothing(events: Seq<ProbeEvent>)
    ensures
        Sampler::fresh(0).feed(events) == (Sampler {
            interrupts: Sampler::fresh(0).feed(events).interrupts,
            ..Sampler::fresh(0)
        }),
    decreases events.len(),
{
    if events.len() > 0 {
        law_disabled_profile_samples_nothing(events.drop_last());
    }
}

/// The attempt that a round of a boundary-hook run makes is the step that it
/// executes: an attempt that can be sampled is a step that completes, and a
/// sample has the address where the processor stood.
pub proof fn law_sample_is_the_step(m: Machine)
    ensures
        attempt(m) matches Some(taken) ==> {
            &&& taken.ppc == m.cpu.pc
            &&& m.deferring_step(true, true).1 is Completed
        },
{
    reveal(attempt);
    reveal(Machine::deferring_step);
    reveal(Machine::step_with_dispatch);
    reveal(CpuCore::spec_set_precise_bus);
    reveal(CpuCore::spec_clear_execution_pipeline_state);
    let start = held(m);
    let ready = start.on_cpu(start.cpu.spec_set_precise_bus(true));
    broadcast use laws_frame::keeps_finish_step;

}

/// Each read for the prefetch queue is announced to the bus right before it,
/// whenever in an instruction it comes, so that an observer can count it with
/// the instruction stream.
pub proof fn law_refill_is_announced(m: Machine, addr: u32)
    ensures
        ({
            let at = m.cpu.address(addr);
            let announced = m.flush_sync().bus.after(BusOp::PrefetchRefill);
            let (end, word) = m.prefetch_read(addr);
            announced.try_read_word(at) matches Ok(value) ==> word == Some(value) && end.bus
                == announced.after(BusOp::TryReadWord(at))
        }),
{
    reveal(Machine::prefetch_read);
    reveal(Machine::flush_sync);
}

} // verus!
