//! Laws of memory access through the processor.

use vstd::prelude::*;
use crate::cpu::CpuCore;
use crate::machine::Machine;
use crate::memory::{BusOp, LinearState};
use crate::types::{is_pre_68020, Size};

verus! {

/// A machine whose bus is plain memory, with nothing pending that would
/// divert a data access.
pub open spec fn plain(m: Machine, state: LinearState) -> bool {
    &&& m.bus == state.behavior()
    &&& !m.cpu.faulted()
    &&& !m.cpu.mmu_on()
    &&& m.cpu.fault.read_override is None
    &&& m.cpu.fault.write_suppress is None
}

/// An address at which the model can access a word or a long word.
pub open spec fn aligned(cpu: CpuCore, address: u32) -> bool {
    is_pre_68020(cpu.model.cpu_type) ==> cpu.address(address) & 1 == 0
}

/// Synchronizing with plain memory changes nothing but the queue.
pub proof fn lemma_flush(m: Machine, state: LinearState)
    requires
        plain(m, state),
    ensures
        plain(m.flush_sync(), state),
        m.flush_sync().cpu == (CpuCore { queue: m.flush_sync().cpu.queue, ..m.cpu }),
{
    reveal(Machine::flush_sync);
    state.lemma_behavior(BusOp::Sync(m.cpu.queue.pending_sync_clocks));
}

/// A long word written to plain memory.
pub proof fn lemma_write_32(m: Machine, state: LinearState, address: u32, value: u32)
    requires
        plain(m, state),
        aligned(m.cpu, address),
    ensures
        ({
            let after = m.write_32(address, value);
            &&& plain(after, state.put_long(m.cpu.address(address), value))
            &&& after.cpu == (CpuCore { queue: after.cpu.queue, fault: after.cpu.fault, ..m.cpu })
        }),
{
    reveal(Machine::write_32);
    reveal(Machine::access_write_32);
    reveal(Machine::whole_write);
    reveal(Machine::translate);
    reveal(Machine::physical_write);
    reveal(Machine::deliver_if);
    reveal(CpuCore::spec_take_write_suppress);
    lemma_flush(m, state);
    state.lemma_behavior(BusOp::TryWriteLong(m.cpu.address(address), value));
}

pub proof fn lemma_read_32(m: Machine, state: LinearState, address: u32)
    requires
        plain(m, state),
        aligned(m.cpu, address),
    ensures
        ({
            let (after, value) = m.read_32(address);
            &&& value == state.long(m.cpu.address(address))
            &&& plain(after, state)
            &&& after.cpu == (CpuCore { queue: after.cpu.queue, fault: after.cpu.fault, ..m.cpu })
        }),
{
    reveal(Machine::read_32);
    reveal(Machine::access_read_32);
    reveal(Machine::whole_read);
    reveal(Machine::translate);
    reveal(Machine::physical_read);
    reveal(Machine::deliver_if);
    reveal(CpuCore::spec_take_read_override);
    lemma_flush(m, state);
    state.lemma_behavior(BusOp::TryReadLong(m.cpu.address(address)));
}

/// A word written to plain memory.
pub proof fn lemma_write_16(m: Machine, state: LinearState, address: u32, value: u16)
    requires
        plain(m, state),
        aligned(m.cpu, address),
    ensures
        ({
            let after = m.write_16(address, value);
            &&& plain(after, state.put_word(m.cpu.address(address), value))
            &&& after.cpu == (CpuCore { queue: after.cpu.queue, fault: after.cpu.fault, ..m.cpu })
        }),
{
    reveal(Machine::write_16);
    reveal(Machine::access_write_16);
    reveal(Machine::whole_write);
    reveal(Machine::translate);
    reveal(Machine::physical_write);
    reveal(Machine::deliver_if);
    reveal(CpuCore::spec_take_write_suppress);
    lemma_flush(m, state);
    state.lemma_behavior(BusOp::TryWriteWord(m.cpu.address(address), value));
}

pub proof fn lemma_read_16(m: Machine, state: LinearState, address: u32)
    requires
        plain(m, state),
        aligned(m.cpu, address),
    ensures
        ({
            let (after, value) = m.read_16(address);
            &&& value == state.word(m.cpu.address(address))
            &&& plain(after, state)
            &&& after.cpu == (CpuCore { queue: after.cpu.queue, fault: after.cpu.fault, ..m.cpu })
        }),
{
    reveal(Machine::read_16);
    reveal(Machine::access_read_16);
    reveal(Machine::whole_read);
    reveal(Machine::translate);
    reveal(Machine::physical_read);
    reveal(Machine::deliver_if);
    reveal(CpuCore::spec_take_read_override);
    lemma_flush(m, state);
    state.lemma_behavior(BusOp::TryReadWord(m.cpu.address(address)));
}

/// A word or long word written to plain memory reads back, at any address
/// whose bytes fall on cells of their own.
pub proof fn law_memory_read_back(
    m: Machine,
    state: LinearState,
    address: u32,
    word: u16,
    long: u32,
)
    requires
        plain(m, state),
        aligned(m.cpu, address),
    ensures
        state.cells_distinct(m.cpu.address(address), 2) ==> m.write_16(address, word).read_16(address).1
            == word,
        state.cells_distinct(m.cpu.address(address), 4) ==> m.write_32(address, long).read_32(address).1
            == long,
{
    let at = m.cpu.address(address);
    lemma_write_16(m, state, address, word);
    lemma_read_16(m.write_16(address, word), state.put_word(at, word), address);
    if state.cells_distinct(at, 2) {
        state.law_word_read_back(at, word);
    }
    lemma_write_32(m, state, address, long);
    lemma_read_32(m.write_32(address, long), state.put_long(at, long), address);
    if state.cells_distinct(at, 4) {
        state.law_long_read_back(at, long);
    }
}

/// Pulling a long word off the stack gives the one that was pushed, and the
/// stack pointer is back where it was.
pub proof fn law_pull_undoes_push_long(m: Machine, state: LinearState, value: u32)
    requires
        plain(m, state),
        aligned(m.cpu, m.cpu.dar[15].wrapping_sub(4)),
        state.cells_distinct(m.cpu.address(m.cpu.dar[15].wrapping_sub(4)), 4),
    ensures
        ({
            let (after, pulled) = m.push_32(value).pull_32();
            &&& pulled == value
            &&& after.cpu.dar =~= m.cpu.dar
            &&& !after.cpu.faulted()
        }),
{
    reveal(Machine::push_32);
    reveal(Machine::pull_32);
    let sp = m.cpu.dar[15].wrapping_sub(4);
    let m1 = m.on_cpu(
        CpuCore { dar: vstd::array::spec_array_update(m.cpu.dar, 15, sp), ..m.cpu },
    );
    let at = m.cpu.address(sp);
    lemma_write_32(m1, state, sp, value);
    lemma_read_32(m.push_32(value), state.put_long(at, value), sp);
    state.law_long_read_back(at, value);
    let after = m.push_32(value).pull_32().0;
    assert(after.cpu.dar@ =~= m.cpu.dar@);
}

/// Pulling a word off the stack gives the one that was pushed, and the stack
/// pointer is back where it was.
pub proof fn law_pull_undoes_push_word(m: Machine, state: LinearState, value: u16)
    requires
        plain(m, state),
        aligned(m.cpu, m.cpu.dar[15].wrapping_sub(2)),
        state.cells_distinct(m.cpu.address(m.cpu.dar[15].wrapping_sub(2)), 2),
    ensures
        ({
            let (after, pulled) = m.push_16(value).pull_16();
            &&& pulled == value
            &&& after.cpu.dar =~= m.cpu.dar
            &&& !after.cpu.faulted()
        }),
{
    reveal(Machine::push_16);
    reveal(Machine::pull_16);
    let sp = m.cpu.dar[15].wrapping_sub(2);
    let m1 = m.on_cpu(
        CpuCore { dar: vstd::array::spec_array_update(m.cpu.dar, 15, sp), ..m.cpu },
    );
    let at = m.cpu.address(sp);
    lemma_write_16(m1, state, sp, value);
    lemma_read_16(m.push_16(value), state.put_word(at, value), sp);
    state.law_word_read_back(at, value);
    let after = m.push_16(value).pull_16().0;
    assert(after.cpu.dar@ =~= m.cpu.dar@);
}

/// On a linear memory the window is the memory: reading and writing through
/// it does what the bus does, wherever the access lies within it.
pub proof fn law_window_is_memory(state: LinearState, off: usize, size: Size, value: u32)
    requires
        off + size.bytes() <= state.memory.len() <= u32::MAX,
    ensures
        crate::mem_ops::spec_read_window(state.memory, off, size) == match size {
            Size::Byte => state.byte(off as u32) as u32,
            Size::Word => state.word(off as u32) as u32,
            Size::Long => state.long(off as u32),
        },
        crate::mem_ops::spec_write_window(state.memory, off, size, value) == match size {
            Size::Byte => state.put(off as u32, value as u8).memory,
            Size::Word => state.put_word(off as u32, value as u16).memory,
            Size::Long => state.put_long(off as u32, value).memory,
        },
{
    let len = state.memory.len() as int;
    assert forall|a: int| 0 <= a < len implies #[trigger] (a % len) == a by {
        vstd::arithmetic::div_mod::lemma_small_mod(a as nat, len as nat);
    }
    lemma_word_of_bytes(state.byte(off as u32), state.byte((off as u32).wrapping_add(1)), value);
}

proof fn lemma_word_of_bytes(hi: u8, lo: u8, value: u32)
    by (bit_vector)
    ensures
        ((((hi as u16) << 8) | (lo as u16)) as u32) == ((hi as u32) << 8) | (lo as u32),
        ((value as u16) >> 8) as u8 == (value >> 8) as u8,
        (value as u16) as u8 == value as u8,
{
}

} // verus!
