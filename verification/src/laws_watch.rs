//! Laws of the watch list: a watched PC ends a batch, and nothing else does
//! for it.

use vstd::prelude::*;
use crate::batch::{BatchInnerExit, RUN_LIMIT};
use crate::cpu::CpuCore;
use crate::machine::Machine;
use crate::types::{BatchExit, BatchResult};

verus! {

/// The batch of `k` instructions that watches nothing.
pub open spec fn unwatched(m: Machine, k: u32) -> (Machine, BatchResult) {
    m.run_batch(k, Seq::empty())
}

/// The fast loop with and without a watch list.
proof fn lemma_fast(m: Machine, budget: u32, watch: Seq<u32>, retired: u32, k: u32)
    requires
        retired + budget <= u32::MAX,
        retired < k <= retired + budget,
    ensures
        ({
            let (end, exit, count) = m.fast_steps(budget, watch, retired);
            let (at, alone, reached) = m.fast_steps((k - retired) as u32, Seq::empty(), retired);
            &&& count <= retired + budget
            &&& exit is Budget ==> count == retired + budget
            &&& k <= count ==> alone is Budget && reached == k
            &&& k < count || k == count && !(exit is Watched) ==> !watch.contains(at.cpu.pc)
            &&& k == count && exit is Watched ==> at == end && exit == BatchInnerExit::Watched(end.cpu.pc)
            &&& k > count && !(exit is Watched) ==> (at, alone, reached) == (end, exit, count)
        }),
    decreases budget,
{
    reveal_with_fuel(Machine::fast_steps, 2);
    let (next, step) = m.fast_step();
    if step is Retired {
        let count = retired.wrapping_add(1);
        assert(m.fast_steps((k - retired) as u32, Seq::empty(), retired) == next.fast_steps(
            (k - retired - 1) as u32,
            Seq::empty(),
            count,
        ));
        if !watch.contains(next.cpu.pc) {
            if k > count {
                lemma_fast(next, (budget - 1) as u32, watch, count, k);
            } else if budget > 1 {
                lemma_fast(next, (budget - 1) as u32, watch, count, (count + 1) as u32);
                lemma_count(next, (budget - 1) as u32, watch, count);
            }
        }
    }
}

/// The fast loop counts up, and by an instruction before a watched PC.
proof fn lemma_count(m: Machine, budget: u32, watch: Seq<u32>, retired: u32)
    requires
        retired + budget <= u32::MAX,
    ensures
        ({
            let (end, exit, count) = m.fast_steps(budget, watch, retired);
            count >= retired && (exit is Watched ==> count > retired)
        }),
    decreases budget,
{
    if budget > 0 {
        let (next, step) = m.fast_step();
        if step is Retired && !watch.contains(next.cpu.pc) {
            lemma_count(next, (budget - 1) as u32, watch, retired.wrapping_add(1));
        }
    }
}

/// A batch that has retired its budget ends where it stands.
proof fn lemma_spent(m: Machine, fuel: nat, max: u32, watch: Seq<u32>)
    ensures
        ({
            let (end, result) = m.batch_rounds(fuel, max, watch, max);
            &&& end.cpu.pc == m.cpu.pc
            &&& end.cpu.dar == m.cpu.dar
            &&& end.cpu.run.stopped == m.cpu.run.stopped
            &&& end.bus == m.bus
            &&& result.instructions == max
            &&& result.exit is BudgetExhausted
        }),
{
    reveal(CpuCore::spec_replenish);
}

/// How a watched batch compares with the batch of `k` instructions that
/// watches nothing: while it lasts longer the other stands at no watched PC,
/// and where a watched PC ends it the other stands there too.
pub open spec fn cut_at(
    watched: (Machine, BatchResult),
    alone: (Machine, BatchResult),
    watch: Seq<u32>,
    k: u32,
) -> bool {
    let (end, result) = watched;
    let at = alone.0.cpu;
    &&& k <= result.instructions ==> alone.1.instructions == k
    &&& k < result.instructions ==> {
        &&& !watch.contains(at.pc)
        &&& alone.1.exit is BudgetExhausted
    }
    &&& k == result.instructions && !(result.exit is WatchedPc) ==> !watch.contains(at.pc)
        || result.exit is Stopped && at.run.stopped != 0
    &&& k == result.instructions && result.exit is WatchedPc ==> {
        &&& at.dar == end.cpu.dar
        &&& at.pc == end.cpu.pc
        &&& alone.0.bus == end.bus
        &&& result.exit == BatchExit::WatchedPc { pc: end.cpu.pc }
        &&& watch.contains(end.cpu.pc)
    }
}

/// The rounds of a batch with and without a watch list.
proof fn lemma_rounds(m: Machine, fuel: nat, max: u32, watch: Seq<u32>, retired: u32, k: u32)
    requires
        retired < k <= max,
    ensures
        cut_at(
            m.batch_rounds(fuel, max, watch, retired),
            m.batch_rounds(fuel, k, Seq::empty(), retired),
            watch,
            k,
        ),
    decreases fuel, 0int,
{
    if fuel > 0 {
        let none = Seq::<u32>::empty();
        let ready = m.on_cpu(m.cpu.spec_replenish());
        let rest = (fuel - 1) as nat;
        assert(m.batch_rounds(fuel, max, watch, retired) == goes_on(
            m.batch_round(max, watch, retired),
            rest,
            max,
            watch,
        ));
        assert(m.batch_rounds(fuel, k, none, retired) == goes_on(
            m.batch_round(k, none, retired),
            rest,
            k,
            none,
        ));
        if ready.cpu.can_run_decoded_simple_ops() {
            lemma_fast(ready, (max - retired) as u32, watch, retired, k);
            lemma_count(ready, (max - retired) as u32, watch, retired);
            let (next, inner, count) = ready.fast_steps((max - retired) as u32, watch, retired);
            crate::laws_run::lemma_fast_steps(ready, (max - retired) as u32, watch, retired);
            match inner {
                BatchInnerExit::Fault => {
                    let resumed = next.on_cpu(next.cpu.spec_resume_normal());
                    crate::laws_run::lemma_batch_rounds(resumed, rest, max, watch, count);
                    if k > count {
                        lemma_rounds(resumed, rest, max, watch, count, k);
                    }
                },
                BatchInnerExit::Miss(opcode) => {
                    let (after, more, exit) = next.dispatch_round(opcode, true, watch, count);
                    crate::laws_run::lemma_dispatch_round(next, opcode, true, watch, count);
                    if exit is None {
                        crate::laws_run::lemma_batch_rounds(after, rest, max, watch, more);
                    }
                    if k > count {
                        lemma_dispatched(next, rest, opcode, true, max, watch, count, k);
                    }
                },
                _ => {},
            }
        } else {
            let (next, fetched) = ready.plain_fetch();
            match fetched {
                None => {
                    lemma_rounds(next.on_cpu(next.cpu.spec_resume_normal()), rest, max, watch, retired, k);
                },
                Some(opcode) => {
                    lemma_dispatched(next, rest, opcode, false, max, watch, retired, k);
                },
            }
        }
    }
}

/// A batch that goes on after a round ends as the rest of it ends.
spec fn goes_on(round: (Machine, u32, Option<BatchExit>), fuel: nat, max: u32, watch: Seq<u32>) -> (
    Machine,
    BatchResult,
) {
    match round.2 {
        Some(exit) => (round.0, BatchResult { instructions: round.1, exit }),
        None => round.0.batch_rounds(fuel, max, watch, round.1),
    }
}

/// A dispatched instruction of a batch with and without a watch list.
proof fn lemma_dispatched(
    m: Machine,
    fuel: nat,
    opcode: u16,
    known_complex: bool,
    max: u32,
    watch: Seq<u32>,
    retired: u32,
    k: u32,
)
    requires
        retired < k <= max,
    ensures
        cut_at(
            goes_on(m.dispatch_round(opcode, known_complex, watch, retired), fuel, max, watch),
            goes_on(m.dispatch_round(opcode, known_complex, Seq::empty(), retired), fuel, k, Seq::empty()),
            watch,
            k,
        ),
    decreases fuel, 1int,
{
    let (next, exit) = m.batch_dispatch(opcode, known_complex);
    if exit is None {
        let count = (retired + 1) as u32;
        lemma_spent(next, fuel, k, Seq::empty());
        crate::laws_run::lemma_batch_rounds(next, fuel, max, watch, count);
        if k > count && next.cpu.run.stopped == 0 && !watch.contains(next.cpu.pc) {
            lemma_rounds(next, fuel, max, watch, count, k);
        }
    }
}

/// Rounds that no watched PC ends do not depend on the watch list.
proof fn lemma_same(m: Machine, fuel: nat, max: u32, watch: Seq<u32>, retired: u32)
    requires
        retired <= max,
        !(m.batch_rounds(fuel, max, watch, retired).1.exit is WatchedPc),
    ensures
        m.batch_rounds(fuel, max, Seq::empty(), retired) == m.batch_rounds(fuel, max, watch, retired),
    decreases fuel,
{
    if fuel > 0 && retired < max {
        let ready = m.on_cpu(m.cpu.spec_replenish());
        let (next, count, exit) = m.batch_round(max, watch, retired);
        crate::laws_run::lemma_batch_round(m, max, watch, retired);
        if ready.cpu.can_run_decoded_simple_ops() {
            lemma_same_fast(ready, (max - retired) as u32, watch, retired);
        }
        assert(m.batch_round(max, Seq::empty(), retired) == m.batch_round(max, watch, retired));
        if exit is None {
            lemma_same(next, (fuel - 1) as nat, max, watch, count);
        }
    }
}

/// A fast loop that no watched PC ends does not depend on the watch list.
proof fn lemma_same_fast(m: Machine, budget: u32, watch: Seq<u32>, retired: u32)
    requires
        !(m.fast_steps(budget, watch, retired).1 is Watched),
    ensures
        m.fast_steps(budget, Seq::empty(), retired) == m.fast_steps(budget, watch, retired),
    decreases budget,
{
    if budget > 0 {
        let (next, step) = m.fast_step();
        if step is Retired && !watch.contains(next.cpu.pc) {
            lemma_same_fast(next, (budget - 1) as u32, watch, retired.wrapping_add(1));
        }
    }
}

/// A watch list only cuts a batch short, and cuts it at the first watched PC.
/// Compare the batch with the batches of fewer instructions that watch
/// nothing: after none of the instructions that it goes on from does execution
/// stand at a watched PC. It reports a watched PC after the instruction that
/// leads there, with the registers and the memory of that moment. If it ends
/// otherwise, it is the batch that watches nothing, and it did not stand at a
/// watched PC after its last instruction either, unless that stopped the
/// processor.
pub proof fn law_watched_pc_ends_the_batch(m: Machine, max: u32, watch: Seq<u32>)
    ensures
        ({
            let (end, result) = m.run_batch(max, watch);
            &&& forall|k: u32| 0 < k <= max ==> cut_at((end, result), #[trigger] unwatched(m, k), watch, k)
            &&& result.exit is WatchedPc || unwatched(m, max) == (end, result)
        }),
{
    let opened = m.open_batch();
    let precise = m.cpu.model.precise_bus;
    assert forall|k: u32| 0 < k <= max implies cut_at(
        m.run_batch(max, watch),
        #[trigger] unwatched(m, k),
        watch,
        k,
    ) by {
        if opened.cpu.run.stopped == 0 {
            lemma_rounds(opened, RUN_LIMIT as nat, max, watch, 0, k);
        }
        lemma_closed(opened.run_batch_inner(max, watch).0.cpu, precise);
        lemma_closed(opened.run_batch_inner(k, Seq::empty()).0.cpu, precise);
    }
    if opened.cpu.run.stopped == 0 && !(m.run_batch(max, watch).1.exit is WatchedPc) {
        lemma_same(opened, RUN_LIMIT as nat, max, watch, 0);
    }
}

/// Closing a batch moves no register.
proof fn lemma_closed(cpu: CpuCore, precise: bool)
    ensures
        ({
            let c = cpu.spec_close_batch(precise);
            c.dar == cpu.dar && c.pc == cpu.pc && c.run.stopped == cpu.run.stopped
        }),
{
    reveal(CpuCore::spec_close_batch);
    reveal(CpuCore::spec_set_precise_bus);
    reveal(CpuCore::spec_clear_execution_pipeline_state);
}

} // verus!
