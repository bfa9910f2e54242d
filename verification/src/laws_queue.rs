//! Laws of the prefetch queue.

use vstd::prelude::*;
use crate::cpu::{CpuCore, PrefetchState};
use crate::machine::Machine;
use crate::memory::{BusOp, LinearState};

verus! {

/// The queue holds the words at PC and after it, as memory has them.
pub open spec fn queued(cpu: CpuCore, state: LinearState) -> bool {
    &&& cpu.queue.prefetch_count <= 2
    &&& cpu.queue.prefetch_count >= 1 ==> cpu.queue.prefetch_queue[0] == state.word(cpu.address(cpu.pc))
    &&& cpu.queue.prefetch_count == 2 ==> cpu.queue.prefetch_queue[1] == state.word(
        cpu.address(cpu.pc.wrapping_add(2)),
    )
}

/// A processor with a prefetch queue on a linear memory, at an address where
/// it can fetch.
pub open spec fn streaming(m: Machine, state: LinearState) -> bool {
    &&& m.bus == state.behavior()
    &&& m.cpu.prefetch_enabled()
    &&& !m.cpu.faulted()
    &&& m.cpu.pc & 1 == 0
    &&& queued(m.cpu, state)
}

proof fn lemma_prefetch_read(m: Machine, state: LinearState, addr: u32)
    requires
        m.bus == state.behavior(),
    ensures
        m.prefetch_read(addr) == (
            Machine {
                cpu: CpuCore {
                    queue: PrefetchState { pending_sync_clocks: 0, ..m.cpu.queue },
                    ..m.cpu
                },
                bus: state.behavior(),
            },
            Some(state.word(m.cpu.address(addr))),
        ),
{
    reveal(Machine::prefetch_read);
    reveal(Machine::flush_sync);
    state.lemma_behavior(BusOp::Sync(m.cpu.queue.pending_sync_clocks));
    state.lemma_behavior(BusOp::PrefetchRefill);
    state.lemma_behavior(BusOp::TryReadWord(m.cpu.address(addr)));
}

/// A refill leaves the two words at PC in the queue, and memory as it was.
pub proof fn law_refill_fills_the_queue(m: Machine, state: LinearState)
    requires
        m.bus == state.behavior(),
        m.cpu.prefetch_enabled(),
        !m.cpu.faulted(),
        m.cpu.pc & 1 == 0,
    ensures
        ({
            let after = m.full_prefetch();
            &&& after.cpu.queue.prefetch_count == 2
            &&& streaming(after, state)
            &&& after.cpu == (CpuCore { queue: after.cpu.queue, ..m.cpu })
        }),
{
    reveal(Machine::full_prefetch);
    reveal(Machine::prefetch_first);
    reveal(Machine::prefetch_second);
    let emptied = m.on_cpu(
        CpuCore { queue: PrefetchState { prefetch_count: 0, ..m.cpu.queue }, ..m.cpu },
    );
    lemma_prefetch_read(emptied, state, m.cpu.pc);
    let first = m.prefetch_first();
    lemma_prefetch_read(first, state, m.cpu.pc.wrapping_add(2));
}

/// Topping up by a word keeps the queue in step with memory.
pub proof fn law_top_up_keeps_the_queue(m: Machine, state: LinearState)
    requires
        streaming(m, state),
    ensures
        streaming(m.top_up_prefetch_one(), state),
        m.top_up_prefetch_one().cpu == (CpuCore { queue: m.top_up_prefetch_one().cpu.queue, ..m.cpu }),
        streaming(m.top_up_prefetch(), state),
        m.top_up_prefetch().cpu == (CpuCore { queue: m.top_up_prefetch().cpu.queue, ..m.cpu }),
{
    reveal(Machine::top_up_prefetch);
    lemma_top_up_one(m, state);
    lemma_top_up_one(m.top_up_prefetch_one(), state);
}

proof fn lemma_top_up_one(m: Machine, state: LinearState)
    requires
        streaming(m, state),
    ensures
        streaming(m.top_up_prefetch_one(), state),
        m.top_up_prefetch_one().cpu == (CpuCore { queue: m.top_up_prefetch_one().cpu.queue, ..m.cpu }),
{
    reveal(Machine::top_up_prefetch_one);
    lemma_prefetch_read(m, state, m.cpu.pc);
    lemma_prefetch_read(m, state, m.cpu.pc.wrapping_add(2));
}

/// The queue is the instruction stream: an extension word is the word that
/// memory has at PC, PC moves past it, and the queue stays in step.
pub proof fn law_queue_is_the_stream(m: Machine, state: LinearState)
    requires
        streaming(m, state),
    ensures
        ({
            let (after, word) = m.read_imm_16();
            &&& word == state.word(m.cpu.address(m.cpu.pc))
            &&& after.cpu == (CpuCore {
                pc: m.cpu.pc.wrapping_add(2),
                queue: after.cpu.queue,
                ..m.cpu
            })
            &&& streaming(after, state)
        }),
{
    reveal(Machine::read_imm_16);
    reveal(Machine::consume_imm_16_no_prefetch);
    lemma_prefetch_read(m, state, m.cpu.pc);
    let taken = m.consume_imm_16_no_prefetch().0;
    crate::laws_operands::lemma_bits(m.cpu.pc, 0, m.cpu.pc.wrapping_add(2));
    lemma_top_up_one(taken, state);
}

/// The opcode of the next instruction is the word that memory has at PC.
pub proof fn law_opcode_is_the_word_at_pc(m: Machine, state: LinearState)
    requires
        streaming(m, state),
    ensures
        ({
            let (after, word) = m.fetch_opcode();
            &&& word == state.word(m.cpu.address(m.cpu.pc))
            &&& after.cpu == (CpuCore {
                pc: m.cpu.pc.wrapping_add(2),
                queue: after.cpu.queue,
                ..m.cpu
            })
            &&& streaming(after, state)
        }),
{
    reveal(Machine::fetch_opcode);
    reveal(Machine::consume_imm_16_no_prefetch);
    crate::laws_operands::lemma_bits(m.cpu.pc, 0, m.cpu.pc.wrapping_add(2));
    if m.cpu.queue.prefetch_count == 0 {
        law_refill_fills_the_queue(m, state);
    }
}

} // verus!
