//! Laws of exception entry and return.

use vstd::prelude::*;
use crate::cpu::{CpuCore, SFLAG_SET};
use crate::machine::Machine;
use crate::memory::{BusOp, LinearState};
use crate::exceptions::has_long_frame;
use crate::types::CpuType;

verus! {

/// A frame of `bytes` bytes below the stack pointer lies at consecutive bus
/// addresses, and its bytes fall on cells of their own.
pub open spec fn frame_fits(cpu: CpuCore, state: LinearState, sp: u32, bytes: int) -> bool {
    &&& forall|i: int|
        0 <= i < bytes ==> cpu.address(#[trigger] sp.wrapping_add(i as u32)) == cpu.address(
            sp,
        ).wrapping_add(i as u32)
    &&& state.cells_distinct(cpu.address(sp), bytes)
}

/// The supervisor stack pointer: A7 in supervisor state, banked otherwise.
pub open spec fn supervisor_sp(cpu: CpuCore) -> u32 {
    if cpu.sys.s_flag == 0 {
        cpu.sp[4]
    } else {
        cpu.dar[15]
    }
}

/// The address that an exception stacks: its own instruction's for the faults
/// that repeat it, the next one's otherwise.
pub open spec fn stacked_pc(cpu: CpuCore, vector: u32) -> u32 {
    if vector == 4 || vector == 8 || vector == 10 || vector == 11 || vector == 14 || vector == 61 {
        cpu.ppc
    } else {
        cpu.pc
    }
}

/// Bytes of the frame that an exception stacks.
pub open spec fn frame_bytes(cpu: CpuCore, vector: u32) -> u32 {
    if cpu.model.cpu_type == CpuType::M68000 {
        6
    } else if (vector == 5 || vector == 6 || vector == 7 || vector == 9) && !cpu.model.is_pre_68020 {
        12
    } else {
        8
    }
}

/// The frame on the supervisor stack holds SR as it was, the stacked address
/// and, from the 68010 on, the frame format and the vector; the processor is in
/// supervisor state, not tracing, and at the handler. RTE brings back what was
/// before the exception: SR, the registers and both stack pointers are as they
/// were, and execution goes on at the stacked address.
pub open spec fn undone(m: Machine, entered: Machine, vector: u32) -> bool {
    let back = entered.exec_rte().0;
    let bytes = frame_bytes(m.cpu, vector);
    let sp = supervisor_sp(m.cpu).wrapping_sub(bytes);
    &&& entered.cpu.is_supervisor()
    &&& entered.cpu.dar[15] == sp
    &&& entered.read_16(sp).1 == m.cpu.get_sr()
    &&& entered.read_32(sp.wrapping_add(2)).1 == stacked_pc(m.cpu, vector)
    &&& bytes == 8 ==> entered.read_16(sp.wrapping_add(6)).1 == (vector << 2) as u16 & 0x0FFF
    &&& bytes == 12 ==> entered.read_16(sp.wrapping_add(6)).1 == 0x2000 | ((vector << 2) as u16 & 0x0FFF)
    &&& bytes == 12 ==> entered.read_32(sp.wrapping_add(8)).1 == m.cpu.ppc
    &&& entered.cpu.pc == entered.read_32((vector << 2).wrapping_add(m.cpu.control.vbr)).1
    &&& entered.cpu.sys.int_mask == m.cpu.sys.int_mask
    &&& entered.cpu.sys.t1_flag == 0 && entered.cpu.sys.t0_flag == 0
    &&& entered.cpu.ccr == m.cpu.ccr
    &&& back.cpu.get_sr() == m.cpu.get_sr()
    &&& back.cpu.pc == stacked_pc(m.cpu, vector)
    &&& back.cpu.dar =~= m.cpu.dar
    &&& supervisor_sp(back.cpu) == supervisor_sp(m.cpu)
    &&& back.cpu.get_usp() == m.cpu.get_usp()
    &&& !back.cpu.faulted()
}

/// The state differs from `m` in nothing but the prefetch queue and fault
/// bookkeeping.
pub open spec fn keeps(m: Machine, cpu: CpuCore) -> bool {
    m.cpu == (CpuCore { queue: m.cpu.queue, fault: m.cpu.fault, ..cpu })
}

proof fn lemma_frame_write(m: Machine, state: LinearState, address: u32, value: u16)
    requires
        crate::laws_memory::plain(m, state),
        crate::laws_memory::aligned(m.cpu, address),
    ensures
        ({
            let after = m.frame_write_16(address, value);
            &&& crate::laws_memory::plain(after, state.put_word(m.cpu.address(address), value))
            &&& keeps(after, m.cpu)
        }),
{
    reveal(Machine::frame_write_16);
    reveal(Machine::access_write_16);
    reveal(Machine::whole_write);
    reveal(Machine::translate);
    reveal(Machine::physical_write);
    reveal(Machine::flush_sync);
    reveal(CpuCore::spec_take_write_suppress);
    state.lemma_behavior(BusOp::Sync(m.cpu.queue.pending_sync_clocks));
    state.lemma_behavior(BusOp::TryWriteWord(m.cpu.address(address), value));
}

proof fn lemma_frame_prefetch(m: Machine, state: LinearState, address: u32)
    requires
        crate::laws_memory::plain(m, state),
    ensures
        ({
            let (after, word) = m.frame_prefetch(address);
            &&& crate::laws_memory::plain(after, state)
            &&& keeps(after, m.cpu)
            &&& word is Some
        }),
{
    reveal(Machine::frame_prefetch);
    reveal(Machine::flush_sync);
    state.lemma_behavior(BusOp::Sync(m.cpu.queue.pending_sync_clocks));
    state.lemma_behavior(BusOp::TryReadWord(m.cpu.address(address)));
}

proof fn lemma_frame_refill(m: Machine, state: LinearState)
    requires
        crate::laws_memory::plain(m, state),
    ensures
        crate::laws_memory::plain(m.frame_refill(), state),
        keeps(m.frame_refill(), m.cpu),
{
    reveal(Machine::frame_refill);
    reveal(CpuCore::spec_internal_cycles);
    let m1 = m.on_cpu(
        CpuCore {
            queue: crate::cpu::PrefetchState { prefetch_count: 0, ..m.cpu.queue },
            ..m.cpu
        },
    );
    lemma_frame_prefetch(m1, state, m.cpu.pc);
    let (m2, first) = m1.frame_prefetch(m.cpu.pc);
    if let Some(w) = first {
        let q = crate::cpu::PrefetchState {
            prefetch_queue: vstd::array::spec_array_update(m2.cpu.queue.prefetch_queue, 0, w),
            ..m2.cpu.queue
        };
        let m3 = m2.on_cpu(CpuCore { queue: q, ..m2.cpu });
        let m4 = m3.on_cpu(
            CpuCore {
                queue: crate::cpu::PrefetchState { prefetch_count: 1, ..m3.cpu.queue },
                ..m3.cpu
            },
        );
        let m5 = m4.on_cpu(m4.cpu.spec_internal_cycles(2));
        lemma_frame_prefetch(m5, state, m5.cpu.pc.wrapping_add(2));
    }
}

proof fn lemma_enter_vector(m: Machine, state: LinearState, vector: u32)
    requires
        crate::laws_memory::plain(m, state),
        crate::laws_memory::aligned(m.cpu, (vector << 2).wrapping_add(m.cpu.control.vbr)),
    ensures
        ({
            let after = m.enter_vector(vector);
            &&& crate::laws_memory::plain(after, state)
            &&& after.cpu.dar == m.cpu.dar
            &&& after.cpu.sp == m.cpu.sp
            &&& after.cpu.sys == m.cpu.sys
            &&& after.cpu.ccr == m.cpu.ccr
            &&& after.cpu.model == m.cpu.model
            &&& after.cpu.run == m.cpu.run
            &&& after.cpu.mmu == m.cpu.mmu
            &&& after.cpu.pc == state.long(
                m.cpu.address((vector << 2).wrapping_add(m.cpu.control.vbr)),
            )
        }),
{
    reveal(Machine::enter_vector);
    reveal(Machine::begin_vector);
    reveal(Machine::frame_read_32);
    reveal(Machine::access_read_32);
    reveal(Machine::whole_read);
    reveal(Machine::translate);
    reveal(Machine::physical_read);
    reveal(Machine::flush_sync);
    reveal(CpuCore::spec_take_read_override);
    reveal(CpuCore::spec_clear_execution_pipeline_state);
    let at = (vector << 2).wrapping_add(m.cpu.control.vbr);
    state.lemma_behavior(BusOp::IplReleaseSample);
    let m1 = m.begin_vector(vector);
    assert(crate::laws_memory::plain(m1, state));
    state.lemma_behavior(BusOp::Sync(m1.cpu.queue.pending_sync_clocks));
    state.lemma_behavior(BusOp::TryReadLong(m.cpu.address(at)));
    let (m2, target) = m1.frame_read_32(at);
    assert(crate::laws_memory::plain(m2, state));
    lemma_frame_refill(m2.on_cpu(CpuCore { pc: target, ..m2.cpu }), state);
}

/// Reading a frame back from the memory it was stacked in.
pub proof fn lemma_short_frame(state: LinearState, at: u32, sr: u16, pc: u32)
    requires
        state.cells_distinct(at, 6),
    ensures
        ({
            let s = state.put_word(at.wrapping_add(4), pc as u16).put_word(at, sr).put_word(
                at.wrapping_add(2),
                (pc >> 16) as u16,
            );
            &&& s.word(at) == sr
            &&& s.long(at.wrapping_add(2)) == pc
        }),
{
    assert(at.wrapping_add(2).wrapping_add(1) == at.wrapping_add(3));
    assert(at.wrapping_add(2).wrapping_add(2) == at.wrapping_add(4));
    assert(at.wrapping_add(2).wrapping_add(3) == at.wrapping_add(5));
    assert(at.wrapping_add(4).wrapping_add(1) == at.wrapping_add(5));
    assert(at.wrapping_add(0) == at);
    assert(state.cell(at, 0) != state.cell(at, 1));
    assert(state.cell(at, 0) != state.cell(at, 2));
    assert(state.cell(at, 0) != state.cell(at, 3));
    assert(state.cell(at, 0) != state.cell(at, 4));
    assert(state.cell(at, 0) != state.cell(at, 5));
    assert(state.cell(at, 1) != state.cell(at, 2));
    assert(state.cell(at, 1) != state.cell(at, 3));
    assert(state.cell(at, 1) != state.cell(at, 4));
    assert(state.cell(at, 1) != state.cell(at, 5));
    assert(state.cell(at, 2) != state.cell(at, 3));
    assert(state.cell(at, 2) != state.cell(at, 4));
    assert(state.cell(at, 2) != state.cell(at, 5));
    assert(state.cell(at, 3) != state.cell(at, 4));
    assert(state.cell(at, 3) != state.cell(at, 5));
    assert(state.cell(at, 4) != state.cell(at, 5));
    let s1 = state.put_word(at.wrapping_add(4), pc as u16);
    let s2 = s1.put_word(at, sr);
    let s3 = s2.put_word(at.wrapping_add(2), (pc >> 16) as u16);
    assert(s3.byte(at) == (sr >> 8) as u8);
    assert(s3.byte(at.wrapping_add(1)) == sr as u8);
    assert(s3.byte(at.wrapping_add(2)) == ((pc >> 16) as u16 >> 8) as u8);
    assert(s3.byte(at.wrapping_add(3)) == (pc >> 16) as u16 as u8);
    assert(s3.byte(at.wrapping_add(4)) == (pc as u16 >> 8) as u8);
    assert(s3.byte(at.wrapping_add(5)) == pc as u16 as u8);
    crate::bits::lemma_be16(sr);
    crate::bits::lemma_be32(pc);
    lemma_split(pc);
}

/// Halves and parities of what a frame holds.
pub proof fn lemma_frame_bits(pc: u32, x: u32, mask: u32, two: u32, four: u32, six: u32, format: u16)
    by (bit_vector)
    requires
        two == (if x >= 0xFFFF_FFFE { x - 0xFFFF_FFFE } else { x + 2 }),
        four == (if x >= 0xFFFF_FFFC { x - 0xFFFF_FFFC } else { x + 4 }),
        six == (if x >= 0xFFFF_FFFA { x - 0xFFFF_FFFA } else { x + 6 }),
    ensures
        ((pc as u16) >> 8) as u8 == (pc >> 8) as u8,
        (pc as u16) as u8 == pc as u8,
        (((pc >> 16) as u16) >> 8) as u8 == (pc >> 24) as u8,
        ((pc >> 16) as u16) as u8 == (pc >> 16) as u8,
        (two & mask) & 1 == (x & mask) & 1,
        (four & mask) & 1 == (x & mask) & 1,
        (six & mask) & 1 == (x & mask) & 1,
        (format & 0x0FFF) >> 12 == 0,
        format < 0x1000 ==> format & 0x0FFF == format,
        pc <= 0xFF ==> pc << 2 == pc * 4 && (pc << 2) as u16 == pc * 4,
        (pc & 0xFFFF) as u16 == pc as u16,
        (0x2000 | (format & 0x0FFF)) >> 12 == 2,
{
}

/// The bytes of the halves of a long word.
pub proof fn lemma_split(pc: u32)
    ensures
        ((pc as u16) >> 8) as u8 == (pc >> 8) as u8,
        (pc as u16) as u8 == pc as u8,
        (((pc >> 16) as u16) >> 8) as u8 == (pc >> 24) as u8,
        ((pc >> 16) as u16) as u8 == (pc >> 16) as u8,
{
    lemma_frame_bits(pc, 0, 0, 2, 4, 6, 0);
}

/// Stepping by even amounts keeps the parity of an address.
pub proof fn lemma_even_step(x: u32, mask: u32)
    ensures
        (x.wrapping_add(2) & mask) & 1 == (x & mask) & 1,
        (x.wrapping_add(4) & mask) & 1 == (x & mask) & 1,
        (x.wrapping_add(6) & mask) & 1 == (x & mask) & 1,
{
    lemma_frame_bits(0, x, mask, x.wrapping_add(2), x.wrapping_add(4), x.wrapping_add(6), 0);
}

/// A word read for the queue out of plain memory.
pub proof fn lemma_prefetch_read(m: Machine, state: LinearState, address: u32)
    requires
        crate::laws_memory::plain(m, state),
    ensures
        ({
            let (after, word) = m.prefetch_read(address);
            &&& crate::laws_memory::plain(after, state)
            &&& keeps(after, m.cpu)
            &&& word is Some
        }),
{
    reveal(Machine::prefetch_read);
    reveal(Machine::flush_sync);
    state.lemma_behavior(BusOp::Sync(m.cpu.queue.pending_sync_clocks));
    state.lemma_behavior(BusOp::PrefetchRefill);
    state.lemma_behavior(BusOp::TryReadWord(m.cpu.address(address)));
}

proof fn lemma_full_prefetch(m: Machine, state: LinearState)
    requires
        crate::laws_memory::plain(m, state),
    ensures
        crate::laws_memory::plain(m.full_prefetch(), state),
        keeps(m.full_prefetch(), m.cpu),
{
    reveal(Machine::full_prefetch);
    reveal(Machine::prefetch_first);
    reveal(Machine::prefetch_second);
    let m1 = m.on_cpu(
        CpuCore {
            queue: crate::cpu::PrefetchState { prefetch_count: 0, ..m.cpu.queue },
            ..m.cpu
        },
    );
    lemma_prefetch_read(m1, state, m1.cpu.pc);
    let m2 = m.prefetch_first();
    assert(crate::laws_memory::plain(m2, state));
    assert(keeps(m2, m.cpu));
    lemma_prefetch_read(m2, state, m2.cpu.pc.wrapping_add(2));
}

/// Stacking the frame of the 68000.
proof fn lemma_stack_frame_68000(m: Machine, state: LinearState, sr: u16, pc: u32, vector: u32)
    requires
        crate::laws_memory::plain(m, state),
        m.cpu.model.cpu_type == CpuType::M68000,
        crate::laws_memory::aligned(m.cpu, m.cpu.dar[15].wrapping_sub(6)),
        frame_fits(m.cpu, state, m.cpu.dar[15].wrapping_sub(6), 6),
    ensures
        ({
            let sp = m.cpu.dar[15].wrapping_sub(6);
            let at = m.cpu.address(sp);
            let after = m.stack_frame(sr, pc, vector);
            let s = state.put_word(at.wrapping_add(4), pc as u16).put_word(at, sr).put_word(
                at.wrapping_add(2),
                (pc >> 16) as u16,
            );
            &&& crate::laws_memory::plain(after, s)
            &&& keeps(
                after,
                CpuCore { dar: vstd::array::spec_array_update(m.cpu.dar, 15, sp), ..m.cpu },
            )
        }),
{
    reveal(Machine::stack_frame);
    reveal(CpuCore::spec_internal_cycles);
    reveal(CpuCore::spec_reserve_frame);
    let sp = m.cpu.dar[15].wrapping_sub(6);
    let at = m.cpu.address(sp);
    let m1 = m.on_cpu(m.cpu.spec_internal_cycles(4));
    let m2 = m1.on_cpu(m1.cpu.spec_reserve_frame(6).0);
    assert(m.cpu.address(sp.wrapping_add(4u32)) == at.wrapping_add(4)) by {
        assert(sp.wrapping_add(4 as u32) == sp.wrapping_add(4u32));
    }
    assert(m.cpu.address(sp.wrapping_add(2u32)) == at.wrapping_add(2)) by {
        assert(sp.wrapping_add(2 as u32) == sp.wrapping_add(2u32));
    }
    lemma_even_step(sp, m.cpu.model.address_mask);
    lemma_frame_write(m2, state, sp.wrapping_add(4), pc as u16);
    let m3 = m2.frame_write_16(sp.wrapping_add(4), pc as u16);
    let s3 = state.put_word(at.wrapping_add(4), pc as u16);
    lemma_frame_write(m3, s3, sp, sr);
    let m4 = m3.frame_write_16(sp, sr);
    let s4 = s3.put_word(at, sr);
    lemma_frame_write(m4, s4, sp.wrapping_add(2), (pc >> 16) as u16);
}

/// Returning from the frame of the 68000.
pub proof fn lemma_rte_68000(m: Machine, state: LinearState, sr: u16, pc: u32)
    requires
        crate::laws_memory::plain(m, state),
        crate::laws_memory::aligned(m.cpu, m.cpu.dar[15]),
        state.word(m.cpu.address(m.cpu.dar[15])) == sr,
        state.long(m.cpu.address(m.cpu.dar[15].wrapping_add(2))) == pc,
    ensures
        ({
            let (after, cycles) = m.exec_rte_68000();
            let pulled = CpuCore {
                dar: vstd::array::spec_array_update(m.cpu.dar, 15, m.cpu.dar[15].wrapping_add(6)),
                pc,
                ..m.cpu
            };
            &&& crate::laws_memory::plain(after, state)
            &&& cycles == 20
            &&& after.cpu.dar =~= pulled.spec_set_sr(sr).dar
            &&& after.cpu.sp == pulled.spec_set_sr(sr).sp
            &&& after.cpu.sys == pulled.spec_set_sr(sr).sys
            &&& after.cpu.ccr == pulled.spec_set_sr(sr).ccr
            &&& after.cpu.pc == pc
            &&& after.cpu.run == m.cpu.run
            &&& after.cpu.model == m.cpu.model
        }),
{
    reveal(Machine::exec_rte_68000);
    reveal(Machine::pull_16);
    reveal(Machine::pull_32);
    reveal(CpuCore::spec_set_sr);
    reveal(CpuCore::spec_set_ccr);
    reveal(CpuCore::spec_set_sm_flag);
    reveal(CpuCore::spec_backup_sp);
    reveal(CpuCore::spec_restore_sp);
    let sp = m.cpu.dar[15];
    lemma_even_step(sp, m.cpu.model.address_mask);
    crate::laws_memory::lemma_read_16(m, state, sp);
    let (m1, got_sr) = m.pull_16();
    assert(got_sr == sr);
    assert(crate::laws_memory::plain(m1, state));
    crate::laws_memory::lemma_read_32(m1, state, m1.cpu.dar[15]);
    let (m2, got_pc) = m1.pull_32();
    assert(got_pc == pc);
    assert(crate::laws_memory::plain(m2, state));
    assert(sp.wrapping_add(2).wrapping_add(4) == sp.wrapping_add(6));
    let m3 = m2.on_cpu(CpuCore { pc: got_pc, ..m2.cpu });
    let m4 = m3.on_cpu(m3.cpu.spec_set_sr(got_sr));
    let pulled = CpuCore {
        dar: vstd::array::spec_array_update(m.cpu.dar, 15, m.cpu.dar[15].wrapping_add(6)),
        pc,
        ..m.cpu
    };
    assert(m2.cpu.dar@ =~= pulled.dar@);
    assert(m2.cpu.dar == pulled.dar);
    assert(crate::laws_memory::plain(m4, state));
    lemma_full_prefetch(m4, state);
}

/// What an exception saves and selects before it stacks its frame.
#[verifier::spinoff_prover]
proof fn lemma_begun(cpu: CpuCore, marked: CpuCore)
    requires
        crate::laws_status::clean_sm(cpu),
        cpu.sys.m_flag == 0,
        marked == (CpuCore { run: marked.run, ..cpu }),
    ensures
        ({
            let (c, sr) = marked.spec_begin_exception();
            &&& sr == cpu.get_sr()
            &&& c == (CpuCore { dar: c.dar, sp: c.sp, sys: c.sys, ..marked })
            &&& c.dar[15] == supervisor_sp(cpu)
            &&& forall|i: int| 0 <= i < 15 ==> c.dar[i] == cpu.dar[i]
            &&& c.sp[0] == cpu.get_usp()
            &&& c.sys.s_flag == SFLAG_SET
            &&& c.sys.m_flag == 0
            &&& c.sys.int_mask == cpu.sys.int_mask
            &&& c.sys.t1_flag == 0 && c.sys.t0_flag == 0
        }),
{
    reveal(CpuCore::spec_begin_exception);
    reveal(CpuCore::spec_set_s_flag);
    reveal(CpuCore::spec_backup_sp);
    reveal(CpuCore::spec_restore_sp);
    crate::laws_status::lemma_banks(cpu.sys.s_flag, cpu.sys.m_flag, 4);
    crate::laws_status::lemma_banks(4, 0, 4);
}

/// Entering the exception, as far as the handler.
proof fn lemma_entered_68000(m: Machine, state: LinearState, vector: u32) -> (s: LinearState)
    requires
        crate::laws_window::model_agrees(m.cpu),
        crate::laws_memory::plain(m, state),
        m.cpu.model.cpu_type == CpuType::M68000,
        !m.cpu.run.exception_processing,
        crate::laws_status::clean_sm(m.cpu),
        crate::laws_status::stored_sr(m.cpu.model.sr_mask, m.cpu.get_sr()) == m.cpu.get_sr(),
        m.cpu.sys.m_flag == 0,
        crate::laws_memory::aligned(m.cpu, supervisor_sp(m.cpu).wrapping_sub(6)),
        frame_fits(m.cpu, state, supervisor_sp(m.cpu).wrapping_sub(6), 6),
        crate::laws_memory::aligned(m.cpu, (vector << 2).wrapping_add(m.cpu.control.vbr)),
    ensures
        stacked(m, m.take_exception(vector).0, s, vector),
{
    reveal(Machine::take_exception);
    let sr = m.cpu.get_sr();
    let pc = stacked_pc(m.cpu, vector);
    let m1 = m.on_cpu(
        CpuCore {
            run: crate::cpu::RunState { exception_processing: true, ..m.cpu.run },
            ..m.cpu
        },
    );
    let (c2, got) = m1.cpu.spec_begin_exception();
    lemma_begun(m.cpu, m1.cpu);
    let m2 = m1.on_cpu(c2);
    let sp = c2.dar[15].wrapping_sub(6);
    let at = m.cpu.address(sp);
    lemma_stack_frame_68000(m2, state, sr, pc, vector);
    let m3 = m2.stack_frame(sr, pc, vector);
    let s3 = state.put_word(at.wrapping_add(4), pc as u16).put_word(at, sr).put_word(
        at.wrapping_add(2),
        (pc >> 16) as u16,
    );
    lemma_short_frame(state, at, sr, pc);
    lemma_enter_vector(m3, s3, vector);
    let m4 = m3.enter_vector(vector);
    let m5 = m4.on_cpu(
        CpuCore {
            run: crate::cpu::RunState { exception_processing: false, ..m4.cpu.run },
            ..m4.cpu
        },
    );
    assert(m5.cpu.dar[15] == sp);
    assert(m.cpu.address(sp.wrapping_add(2u32)) == at.wrapping_add(2)) by {
        assert(sp.wrapping_add(2 as u32) == sp.wrapping_add(2u32));
    }
    s3
}

/// On the 68000 a handler that returns at once undoes the exception.
proof fn lemma_return_68000(m: Machine, state: LinearState, vector: u32)
    requires
        crate::laws_window::model_agrees(m.cpu),
        crate::laws_memory::plain(m, state),
        m.cpu.model.cpu_type == CpuType::M68000,
        !m.cpu.run.exception_processing,
        crate::laws_status::clean_sm(m.cpu),
        crate::laws_status::stored_sr(m.cpu.model.sr_mask, m.cpu.get_sr()) == m.cpu.get_sr(),
        m.cpu.sys.m_flag == 0,
        crate::laws_memory::aligned(m.cpu, supervisor_sp(m.cpu).wrapping_sub(6)),
        frame_fits(m.cpu, state, supervisor_sp(m.cpu).wrapping_sub(6), 6),
        crate::laws_memory::aligned(m.cpu, (vector << 2).wrapping_add(m.cpu.control.vbr)),
    ensures
        undone(m, m.take_exception(vector).0, vector),
{
    let s = lemma_entered_68000(m, state, vector);
    lemma_undone(m, m.take_exception(vector).0, s, vector);
}

/// Loading the stacked SR switches back to the bank it was stacked from.
pub proof fn lemma_back_to_bank(cpu: CpuCore, pulled: CpuCore, sr: u16)
    requires
        crate::laws_status::clean_sm(cpu),
        cpu.sys.m_flag == 0,
        pulled.model == cpu.model,
        pulled.sys.s_flag == SFLAG_SET,
        pulled.sys.m_flag == 0,
        sr == cpu.get_sr(),
        crate::laws_status::stored_sr(cpu.model.sr_mask, sr) == sr,
        pulled.dar[15] == supervisor_sp(cpu),
        pulled.sp[0] == cpu.get_usp(),
    ensures
        ({
            let r = pulled.spec_set_sr(sr);
            &&& r.sys.s_flag == cpu.sys.s_flag
            &&& r.dar[15] == cpu.dar[15]
            &&& r.sp[4] == supervisor_sp(cpu)
            &&& r.sp[0] == pulled.sp[0]
            &&& forall|i: int| 0 <= i < 15 ==> r.dar[i] == pulled.dar[i]
        }),
{
    reveal(CpuCore::spec_set_sr);
    reveal(CpuCore::spec_set_ccr);
    reveal(CpuCore::spec_set_sm_flag);
    reveal(CpuCore::spec_backup_sp);
    reveal(CpuCore::spec_restore_sp);
    let low = ((cpu.ccr.x_flag & 0x100) >> 4) | ((cpu.ccr.n_flag & 0x80) >> 4) | (if cpu.ccr.not_z_flag
        == 0 {
        0x04u32
    } else {
        0x00u32
    }) | ((cpu.ccr.v_flag & 0x80) >> 6) | ((cpu.ccr.c_flag & 0x100) >> 8);
    lemma_low_bits(
        cpu.ccr.x_flag,
        cpu.ccr.n_flag,
        if cpu.ccr.not_z_flag == 0 {
            0x04u32
        } else {
            0x00u32
        },
        cpu.ccr.v_flag,
        cpu.ccr.c_flag,
        low,
        sr & (cpu.model.sr_mask as u16) & 0xF71F,
    );
    lemma_sr_supervisor(
        cpu.sys.t1_flag,
        cpu.sys.t0_flag,
        cpu.sys.s_flag,
        cpu.sys.m_flag,
        cpu.sys.int_mask,
        low,
        sr,
        cpu.model.sr_mask as u16,
    );
    crate::laws_status::lemma_banks(cpu.sys.s_flag, 0, 4);
    crate::laws_status::lemma_banks(4, 0, 4);
}

proof fn lemma_low_bits(x: u32, n: u32, z: u32, v: u32, c: u32, low: u32, kept: u16)
    by (bit_vector)
    requires
        z == 0 || z == 4,
        low == ((x & 0x100) >> 4) | ((n & 0x80) >> 4) | z | ((v & 0x80) >> 6) | ((c & 0x100) >> 8),
    ensures
        low & 0xFF00 == 0,
        kept & 0xFFFF == kept,
{
}

/// SR depends on the status bits alone.
pub proof fn lemma_same_status(a: CpuCore, b: CpuCore)
    requires
        a.sys == b.sys,
        a.ccr == b.ccr,
    ensures
        a.get_sr() == b.get_sr(),
{
}

proof fn lemma_sr_supervisor(t1: u32, t0: u32, s: u32, m: u32, mask: u32, low: u32, sr: u16, sr_mask: u16)
    by (bit_vector)
    requires
        s == 0 || s == 4,
        m == 0,
        low & 0xFF00 == 0,
        sr == (((t1 & 0x8000) | (t0 & 0x4000) | ((s & 4) << 11) | ((m & 2) << 11) | (mask & 0x0700)) | low) as u16,
        sr & sr_mask & 0xF71F & (if sr & sr_mask & 0xF71F & 0x2000 == 0 { !0x1000u16 } else { 0xFFFFu16 }) == sr,
    ensures
        (((sr & sr_mask) >> 11) & 6) as u32 & 4 == s,
        (((sr & sr_mask) >> 11) & 6) as u32 & 2 == 0,
        (((sr & sr_mask) >> 11) & 6) as u32 & !2 & 4 == s,
        (((sr & sr_mask) >> 11) & 6) as u32 & !2 & 2 == 0,
{
}

/// A failed access always ends its instruction: once the fault has been
/// delivered the instruction is marked as faulted.
pub proof fn law_failed_access_faults(m: Machine, fault: crate::access::Fault)
    ensures
        m.deliver(fault).cpu.faulted(),
{
    reveal(Machine::deliver);
    reveal(Machine::trigger_address_error);
    reveal(Machine::trigger_bus_error);
    reveal(Machine::deliver_bus_error);
    reveal(Machine::handle_mmu_fault);
    reveal(CpuCore::spec_double_fault);
    reveal(CpuCore::spec_mark_faulted);
}

/// The further memory operations of a faulted instruction do nothing: reads
/// give zero, and neither reads nor writes change the machine.
pub proof fn law_faulted_instruction_is_inert(m: Machine, addr: u32, byte: u8, word: u16, long: u32)
    requires
        m.cpu.faulted(),
    ensures
        m.read_8(addr) == (m, 0u8),
        m.read_16(addr) == (m, 0u16),
        m.read_32(addr) == (m, 0u32),
        m.write_8(addr, byte) == m,
        m.write_16(addr, word) == m,
        m.write_32(addr, long) == m,
{
    reveal(Machine::read_8);
    reveal(Machine::read_16);
    reveal(Machine::read_32);
    reveal(Machine::write_8);
    reveal(Machine::write_16);
    reveal(Machine::write_32);
    reveal(Machine::access_read_8);
    reveal(Machine::access_read_16);
    reveal(Machine::access_read_32);
    reveal(Machine::access_write_8);
    reveal(Machine::access_write_16);
    reveal(Machine::access_write_32);
    reveal(Machine::deliver_if);
}

/// A word stored beside a frame leaves the frame as it was.
pub proof fn lemma_beside(state: LinearState, at: u32, sr: u16, pc: u32, format: u16)
    requires
        state.cells_distinct(at, 8),
        state.word(at) == sr,
        state.long(at.wrapping_add(2)) == pc,
    ensures
        ({
            let s = state.put_word(at.wrapping_add(6), format);
            &&& s.word(at) == sr
            &&& s.long(at.wrapping_add(2)) == pc
            &&& s.word(at.wrapping_add(6)) == format
        }),
{
    assert(at.wrapping_add(0) == at);
    assert(at.wrapping_add(2).wrapping_add(1) == at.wrapping_add(3));
    assert(at.wrapping_add(2).wrapping_add(2) == at.wrapping_add(4));
    assert(at.wrapping_add(2).wrapping_add(3) == at.wrapping_add(5));
    assert(at.wrapping_add(6).wrapping_add(1) == at.wrapping_add(7));
    assert(state.cell(at, 6) != state.cell(at, 7));
    let s1 = state.put_word(at.wrapping_add(6), format);
    assert(state.cell(at, 0) != state.cell(at, 6) && state.cell(at, 0) != state.cell(at, 7));
    assert(state.cell(at, 1) != state.cell(at, 6) && state.cell(at, 1) != state.cell(at, 7));
    assert(state.cell(at, 2) != state.cell(at, 6) && state.cell(at, 2) != state.cell(at, 7));
    assert(state.cell(at, 3) != state.cell(at, 6) && state.cell(at, 3) != state.cell(at, 7));
    assert(state.cell(at, 4) != state.cell(at, 6) && state.cell(at, 4) != state.cell(at, 7));
    assert(state.cell(at, 5) != state.cell(at, 6) && state.cell(at, 5) != state.cell(at, 7));
    assert(s1.byte(at) == state.byte(at));
    assert(s1.byte(at.wrapping_add(1)) == state.byte(at.wrapping_add(1)));
    assert(s1.byte(at.wrapping_add(2)) == state.byte(at.wrapping_add(2)));
    assert(s1.byte(at.wrapping_add(3)) == state.byte(at.wrapping_add(3)));
    assert(s1.byte(at.wrapping_add(4)) == state.byte(at.wrapping_add(4)));
    assert(s1.byte(at.wrapping_add(5)) == state.byte(at.wrapping_add(5)));
    assert(s1.byte(at.wrapping_add(6)) == (format >> 8) as u8);
    assert(s1.byte(at.wrapping_add(7)) == format as u8);
    crate::bits::lemma_be16(format);
}

/// Stacking the four-word frame.
proof fn lemma_stack_frame_four(m: Machine, state: LinearState, sr: u16, pc: u32, vector: u32)
    requires
        crate::laws_memory::plain(m, state),
        m.cpu.model.cpu_type != CpuType::M68000,
        m.cpu.model.is_pre_68020 || !has_long_frame(vector),
        crate::laws_memory::aligned(m.cpu, m.cpu.dar[15].wrapping_sub(8)),
        frame_fits(m.cpu, state, m.cpu.dar[15].wrapping_sub(8), 8),
    ensures
        ({
            let sp = m.cpu.dar[15].wrapping_sub(8);
            let at = m.cpu.address(sp);
            let after = m.stack_frame(sr, pc, vector);
            let s = state.put_word(at.wrapping_add(4), pc as u16).put_word(at, sr).put_word(
                at.wrapping_add(2),
                (pc >> 16) as u16,
            ).put_word(at.wrapping_add(6), (vector << 2) as u16 & 0x0FFF);
            &&& crate::laws_memory::plain(after, s)
            &&& keeps(
                after,
                CpuCore { dar: vstd::array::spec_array_update(m.cpu.dar, 15, sp), ..m.cpu },
            )
        }),
{
    reveal(Machine::stack_frame);
    reveal(CpuCore::spec_internal_cycles);
    reveal(CpuCore::spec_reserve_frame);
    let sp = m.cpu.dar[15].wrapping_sub(8);
    let at = m.cpu.address(sp);
    let m1 = m.on_cpu(m.cpu.spec_internal_cycles(4));
    let m2 = m1.on_cpu(m1.cpu.spec_reserve_frame(8).0);
    assert(m.cpu.address(sp.wrapping_add(2u32)) == at.wrapping_add(2)) by {
        assert(sp.wrapping_add(2 as u32) == sp.wrapping_add(2u32));
    }
    assert(m.cpu.address(sp.wrapping_add(4u32)) == at.wrapping_add(4)) by {
        assert(sp.wrapping_add(4 as u32) == sp.wrapping_add(4u32));
    }
    assert(m.cpu.address(sp.wrapping_add(6u32)) == at.wrapping_add(6)) by {
        assert(sp.wrapping_add(6 as u32) == sp.wrapping_add(6u32));
    }
    lemma_even_step(sp, m.cpu.model.address_mask);
    lemma_frame_write(m2, state, sp.wrapping_add(4), pc as u16);
    let m3 = m2.frame_write_16(sp.wrapping_add(4), pc as u16);
    let s3 = state.put_word(at.wrapping_add(4), pc as u16);
    lemma_frame_write(m3, s3, sp, sr);
    let m4 = m3.frame_write_16(sp, sr);
    let s4 = s3.put_word(at, sr);
    lemma_frame_write(m4, s4, sp.wrapping_add(2), (pc >> 16) as u16);
    let m5 = m4.frame_write_16(sp.wrapping_add(2), (pc >> 16) as u16);
    let s5 = s4.put_word(at.wrapping_add(2), (pc >> 16) as u16);
    lemma_frame_write(m5, s5, sp.wrapping_add(6), (vector << 2) as u16 & 0x0FFF);
}

/// Pulling SR and PC off a frame.
proof fn lemma_pull_frame(m: Machine, state: LinearState, sr: u16, pc: u32)
    requires
        crate::laws_memory::plain(m, state),
        crate::laws_memory::aligned(m.cpu, m.cpu.dar[15]),
        state.word(m.cpu.address(m.cpu.dar[15])) == sr,
        state.long(m.cpu.address(m.cpu.dar[15].wrapping_add(2))) == pc,
    ensures
        ({
            let (m1, got_sr) = m.pull_16();
            let (m2, got_pc) = m1.pull_32();
            &&& got_sr == sr
            &&& got_pc == pc
            &&& crate::laws_memory::plain(m2, state)
            &&& keeps(
                m2,
                CpuCore {
                    dar: vstd::array::spec_array_update(m.cpu.dar, 15, m.cpu.dar[15].wrapping_add(6)),
                    ..m.cpu
                },
            )
        }),
{
    reveal(Machine::pull_16);
    reveal(Machine::pull_32);
    let sp = m.cpu.dar[15];
    lemma_even_step(sp, m.cpu.model.address_mask);
    crate::laws_memory::lemma_read_16(m, state, sp);
    let (m1, got_sr) = m.pull_16();
    assert(crate::laws_memory::plain(m1, state));
    crate::laws_memory::lemma_read_32(m1, state, m1.cpu.dar[15]);
    let (m2, got_pc) = m1.pull_32();
    assert(sp.wrapping_add(2).wrapping_add(4) == sp.wrapping_add(6));
    assert(m2.cpu.dar@ =~= vstd::array::spec_array_update(m.cpu.dar, 15, sp.wrapping_add(6))@);
    assert(m2.cpu.dar == vstd::array::spec_array_update(m.cpu.dar, 15, sp.wrapping_add(6)));
}

/// A frame of the later processors, pulled from the stack.
#[verifier::spinoff_prover]
proof fn lemma_unstack(m: Machine, state: LinearState, sr: u16, pc: u32, rest: u32, bytes: u32)
    requires
        crate::laws_memory::plain(m, state),
        !crate::types::is_pre_68020(m.cpu.model.cpu_type),
        state.word(m.cpu.address(m.cpu.dar[15])) == sr,
        state.long(m.cpu.address(m.cpu.dar[15].wrapping_add(2))) == pc,
        rest <= 4,
        bytes == rest + 8,
    ensures
        ({
            let after = m.unstack_frame(rest);
            let pulled = CpuCore {
                dar: vstd::array::spec_array_update(m.cpu.dar, 15, m.cpu.dar[15].wrapping_add(bytes)),
                pc,
                ..m.cpu
            };
            &&& crate::laws_memory::plain(after, state)
            &&& after.cpu.dar =~= pulled.spec_set_sr(sr).dar
            &&& after.cpu.sp == pulled.spec_set_sr(sr).sp
            &&& after.cpu.sys == pulled.spec_set_sr(sr).sys
            &&& after.cpu.ccr == pulled.spec_set_sr(sr).ccr
            &&& after.cpu.pc == pc
            &&& after.cpu.model == m.cpu.model
        }),
{
    reveal(Machine::unstack_frame);
    reveal(Machine::pull_16);
    let sp = m.cpu.dar[15];
    lemma_pull_frame(m, state, sr, pc);
    let m2 = m.pull_16().0.pull_32().0;
    assert(sp.wrapping_add(6).wrapping_add(2).wrapping_add(rest) == sp.wrapping_add(bytes));
    let pulled = CpuCore { dar: vstd::array::spec_array_update(m.cpu.dar, 15, sp.wrapping_add(bytes)), pc, ..m.cpu };
    let m3 = m2.on_cpu(CpuCore { pc, ..m2.cpu });
    crate::laws_memory::lemma_read_16(m3, state, m3.cpu.dar[15]);
    let m4 = m3.pull_16().0;
    let m5 = m4.on_cpu(
        CpuCore {
            dar: vstd::array::spec_array_update(m4.cpu.dar, 15, m4.cpu.dar[15].wrapping_add(rest)),
            ..m4.cpu
        },
    );
    assert(m5.cpu.dar@ =~= pulled.dar@);
    assert(m5.cpu.dar == pulled.dar);
    lemma_set_sr_frame(m5.cpu, pulled, sr);
}

/// A short frame of the 68010, pulled from the stack.
#[verifier::spinoff_prover]
proof fn lemma_rte_68010(m: Machine, state: LinearState, sr: u16, pc: u32, format: u16)
    requires
        crate::laws_memory::plain(m, state),
        crate::types::is_pre_68020(m.cpu.model.cpu_type),
        crate::laws_memory::aligned(m.cpu, m.cpu.dar[15]),
        state.word(m.cpu.address(m.cpu.dar[15])) == sr,
        state.long(m.cpu.address(m.cpu.dar[15].wrapping_add(2))) == pc,
        state.word(m.cpu.address(m.cpu.dar[15].wrapping_add(6))) == format & 0x0FFF,
    ensures
        ({
            let after = m.exec_rte_68010().0;
            let pulled = CpuCore {
                dar: vstd::array::spec_array_update(m.cpu.dar, 15, m.cpu.dar[15].wrapping_add(8)),
                pc,
                ..m.cpu
            };
            &&& crate::laws_memory::plain(after, state)
            &&& after.cpu.dar =~= pulled.spec_set_sr(sr).dar
            &&& after.cpu.sp == pulled.spec_set_sr(sr).sp
            &&& after.cpu.sys == pulled.spec_set_sr(sr).sys
            &&& after.cpu.ccr == pulled.spec_set_sr(sr).ccr
            &&& after.cpu.pc == pc
            &&& after.cpu.model == m.cpu.model
        }),
{
    let sp = m.cpu.dar[15];
    crate::bits::lemma_reg(7);
    lemma_even_step(sp, m.cpu.model.address_mask);
    lemma_frame_bits(0, 0, 0, 2, 4, 6, format);
    crate::laws_memory::lemma_read_16(m, state, sp.wrapping_add(6));
    let m1 = m.read_16(sp.wrapping_add(6)).0;
    lemma_pull_frame(m1, state, sr, pc);
    let m2 = m1.pull_16().0.pull_32().0;
    assert(sp.wrapping_add(6).wrapping_add(2) == sp.wrapping_add(8));
    let pulled = CpuCore {
        dar: vstd::array::spec_array_update(m.cpu.dar, 15, sp.wrapping_add(8)),
        pc,
        ..m.cpu
    };
    reveal(Machine::exec_rte_68010);
    let m3 = m2.on_cpu(
        CpuCore {
            pc,
            dar: vstd::array::spec_array_update(m2.cpu.dar, 15, m2.cpu.dar[15].wrapping_add(2)),
            ..m2.cpu
        },
    );
    assert(m3.cpu.dar@ =~= pulled.dar@);
    assert(m3.cpu.dar == pulled.dar);
    lemma_set_sr_frame(m3.cpu, pulled, sr);
    let m4 = m3.on_cpu(m3.cpu.spec_set_sr(sr));
    assert(crate::laws_memory::plain(m4, state));
    lemma_full_prefetch(m4, state);
}

/// Returning from a four-word frame.
pub proof fn lemma_rte_four(m: Machine, state: LinearState, sr: u16, pc: u32, format: u16)
    requires
        crate::laws_memory::plain(m, state),
        m.cpu.model.cpu_type != CpuType::M68000,
        m.cpu.is_supervisor(),
        crate::laws_memory::aligned(m.cpu, m.cpu.dar[15]),
        state.word(m.cpu.address(m.cpu.dar[15])) == sr,
        state.long(m.cpu.address(m.cpu.dar[15].wrapping_add(2))) == pc,
        state.word(m.cpu.address(m.cpu.dar[15].wrapping_add(6))) == format & 0x0FFF,
    ensures
        ({
            let after = m.exec_rte().0;
            let pulled = CpuCore {
                dar: vstd::array::spec_array_update(m.cpu.dar, 15, m.cpu.dar[15].wrapping_add(8)),
                pc,
                ..m.cpu
            };
            &&& crate::laws_memory::plain(after, state)
            &&& after.cpu.dar =~= pulled.spec_set_sr(sr).dar
            &&& after.cpu.sp == pulled.spec_set_sr(sr).sp
            &&& after.cpu.sys == pulled.spec_set_sr(sr).sys
            &&& after.cpu.ccr == pulled.spec_set_sr(sr).ccr
            &&& after.cpu.pc == pc
            &&& after.cpu.model == m.cpu.model
        }),
{
    reveal(Machine::exec_rte);
    if crate::types::is_pre_68020(m.cpu.model.cpu_type) {
        lemma_rte_68010(m, state, sr, pc, format);
    } else {
        reveal(Machine::rte_frame_68020);
        let sp = m.cpu.dar[15];
        crate::bits::lemma_reg(7);
        lemma_frame_bits(0, 0, 0, 2, 4, 6, format);
        crate::laws_memory::lemma_read_16(m, state, sp.wrapping_add(6));
        let m1 = m.read_16(sp.wrapping_add(6)).0;
        lemma_unstack(m1, state, sr, pc, 0, 8);
        let dar = vstd::array::spec_array_update(m.cpu.dar, 15, sp.wrapping_add(8));
        lemma_set_sr_frame(CpuCore { dar, pc, ..m1.cpu }, CpuCore { dar, pc, ..m.cpu }, sr);
    }
}

/// What a status write makes of the stack pointers and flags does not depend
/// on the prefetch queue and fault bookkeeping, and leaves them alone.
proof fn lemma_set_sr_frame(cpu: CpuCore, pulled: CpuCore, sr: u16)
    requires
        cpu == (CpuCore { queue: cpu.queue, fault: cpu.fault, ..pulled }),
    ensures
        cpu.spec_set_sr(sr).dar == pulled.spec_set_sr(sr).dar,
        cpu.spec_set_sr(sr).sp == pulled.spec_set_sr(sr).sp,
        cpu.spec_set_sr(sr).sys == pulled.spec_set_sr(sr).sys,
        cpu.spec_set_sr(sr).ccr == pulled.spec_set_sr(sr).ccr,
        cpu.spec_set_sr(sr).pc == cpu.pc,
        cpu.spec_set_sr(sr).model == cpu.model,
        cpu.spec_set_sr(sr).mmu == cpu.mmu,
        cpu.spec_set_sr(sr).fault == cpu.fault,
        cpu.spec_set_sr(sr).queue == cpu.queue,
        cpu.spec_set_sr(sr).run.run_mode == cpu.run.run_mode,
{
    reveal(CpuCore::spec_set_sr);
    reveal(CpuCore::spec_set_ccr);
    reveal(CpuCore::spec_set_sm_flag);
    reveal(CpuCore::spec_backup_sp);
    reveal(CpuCore::spec_restore_sp);
}

/// Entering the exception, as far as the handler.
proof fn lemma_entered_four(m: Machine, state: LinearState, vector: u32) -> (s: LinearState)
    requires
        crate::laws_window::model_agrees(m.cpu),
        crate::laws_memory::plain(m, state),
        m.cpu.model.cpu_type != CpuType::M68000,
        m.cpu.model.is_pre_68020 || !has_long_frame(vector),
        !m.cpu.run.exception_processing,
        crate::laws_status::clean_sm(m.cpu),
        crate::laws_status::stored_sr(m.cpu.model.sr_mask, m.cpu.get_sr()) == m.cpu.get_sr(),
        m.cpu.sys.m_flag == 0,
        crate::laws_memory::aligned(m.cpu, supervisor_sp(m.cpu).wrapping_sub(8)),
        frame_fits(m.cpu, state, supervisor_sp(m.cpu).wrapping_sub(8), 8),
        crate::laws_memory::aligned(m.cpu, (vector << 2).wrapping_add(m.cpu.control.vbr)),
    ensures
        stacked(m, m.take_exception(vector).0, s, vector),
{
    reveal(Machine::take_exception);
    let sr = m.cpu.get_sr();
    let pc = stacked_pc(m.cpu, vector);
    let m1 = m.on_cpu(
        CpuCore {
            run: crate::cpu::RunState { exception_processing: true, ..m.cpu.run },
            ..m.cpu
        },
    );
    let (c2, got) = m1.cpu.spec_begin_exception();
    lemma_begun(m.cpu, m1.cpu);
    let m2 = m1.on_cpu(c2);
    let sp = c2.dar[15].wrapping_sub(8);
    let at = m.cpu.address(sp);
    let format = (vector << 2) as u16;
    lemma_stack_frame_four(m2, state, sr, pc, vector);
    let m3 = m2.stack_frame(sr, pc, vector);
    let short = state.put_word(at.wrapping_add(4), pc as u16).put_word(at, sr).put_word(
        at.wrapping_add(2),
        (pc >> 16) as u16,
    );
    let s3 = short.put_word(at.wrapping_add(6), format & 0x0FFF);
    lemma_fewer_cells(state, at);
    lemma_short_frame(state, at, sr, pc);
    lemma_same_cells(state, short, at);
    lemma_beside(short, at, sr, pc, format & 0x0FFF);
    lemma_enter_vector(m3, s3, vector);
    let m4 = m3.enter_vector(vector);
    let m5 = m4.on_cpu(
        CpuCore {
            run: crate::cpu::RunState { exception_processing: false, ..m4.cpu.run },
            ..m4.cpu
        },
    );
    assert(m5.cpu.dar[15] == sp);
    assert(m.cpu.address(sp.wrapping_add(2u32)) == at.wrapping_add(2)) by {
        assert(sp.wrapping_add(2 as u32) == sp.wrapping_add(2u32));
    }
    assert(m.cpu.address(sp.wrapping_add(6u32)) == at.wrapping_add(6)) by {
        assert(sp.wrapping_add(6 as u32) == sp.wrapping_add(6u32));
    }
    s3
}

/// With a four-word frame a handler that returns at once undoes the exception.
proof fn lemma_return_four(m: Machine, state: LinearState, vector: u32)
    requires
        crate::laws_window::model_agrees(m.cpu),
        crate::laws_memory::plain(m, state),
        m.cpu.model.cpu_type != CpuType::M68000,
        m.cpu.model.is_pre_68020 || !has_long_frame(vector),
        !m.cpu.run.exception_processing,
        crate::laws_status::clean_sm(m.cpu),
        crate::laws_status::stored_sr(m.cpu.model.sr_mask, m.cpu.get_sr()) == m.cpu.get_sr(),
        m.cpu.sys.m_flag == 0,
        crate::laws_memory::aligned(m.cpu, supervisor_sp(m.cpu).wrapping_sub(8)),
        frame_fits(m.cpu, state, supervisor_sp(m.cpu).wrapping_sub(8), 8),
        crate::laws_memory::aligned(m.cpu, (vector << 2).wrapping_add(m.cpu.control.vbr)),
    ensures
        undone(m, m.take_exception(vector).0, vector),
{
    let s = lemma_entered_four(m, state, vector);
    lemma_undone(m, m.take_exception(vector).0, s, vector);
}

/// Cells that are distinct for a longer frame are distinct for a shorter one.
pub proof fn lemma_fewer_cells(state: LinearState, at: u32)
    requires
        state.cells_distinct(at, 8),
    ensures
        state.cells_distinct(at, 6),
{
}

/// Stores keep the cells apart.
pub proof fn lemma_same_cells(state: LinearState, after: LinearState, at: u32)
    requires
        state.cells_distinct(at, 8),
        after.memory.len() == state.memory.len(),
    ensures
        after.cells_distinct(at, 8),
{
    assert forall|i: int, j: int| 0 <= i < j < 8 implies #[trigger] after.cell(at, i) != #[trigger] after.cell(
        at,
        j,
    ) by {
        assert(state.cell(at, i) != state.cell(at, j));
    }
}

proof fn lemma_frame_write_32(m: Machine, state: LinearState, address: u32, value: u32)
    requires
        crate::laws_memory::plain(m, state),
        crate::laws_memory::aligned(m.cpu, address),
    ensures
        ({
            let after = m.frame_write_32(address, value);
            &&& crate::laws_memory::plain(after, state.put_long(m.cpu.address(address), value))
            &&& keeps(after, m.cpu)
        }),
{
    reveal(Machine::frame_write_32);
    reveal(Machine::access_write_32);
    reveal(Machine::whole_write);
    reveal(Machine::translate);
    reveal(Machine::physical_write);
    reveal(Machine::flush_sync);
    reveal(CpuCore::spec_take_write_suppress);
    state.lemma_behavior(BusOp::Sync(m.cpu.queue.pending_sync_clocks));
    state.lemma_behavior(BusOp::TryWriteLong(m.cpu.address(address), value));
}

/// The memory that holds a six-word frame.
spec fn long_frame(state: LinearState, at: u32, sr: u16, pc: u32, format: u16, own: u32) -> LinearState {
    state.put_long(at.wrapping_add(8), own).put_word(at.wrapping_add(6), format).put_long(
        at.wrapping_add(2),
        pc,
    ).put_word(at, sr)
}

/// Reading a six-word frame back.
proof fn lemma_long_frame(state: LinearState, at: u32, sr: u16, pc: u32, format: u16, own: u32)
    requires
        state.cells_distinct(at, 12),
    ensures
        ({
            let s = long_frame(state, at, sr, pc, format, own);
            &&& s.word(at) == sr
            &&& s.long(at.wrapping_add(2)) == pc
            &&& s.word(at.wrapping_add(6)) == format
            &&& s.long(at.wrapping_add(8)) == own
        }),
{
    assert(at.wrapping_add(0) == at);
    assert(at.wrapping_add(2).wrapping_add(1) == at.wrapping_add(3));
    assert(at.wrapping_add(2).wrapping_add(2) == at.wrapping_add(4));
    assert(at.wrapping_add(2).wrapping_add(3) == at.wrapping_add(5));
    assert(at.wrapping_add(6).wrapping_add(1) == at.wrapping_add(7));
    let s1 = state.put_long(at.wrapping_add(8), own).put_word(at.wrapping_add(6), format);
    let s2 = s1.put_long(at.wrapping_add(2), pc);
    let s3 = s2.put_word(at, sr);
    assert(state.cell(at, 0) != state.cell(at, 1));
    assert(state.cell(at, 0) != state.cell(at, 2) && state.cell(at, 1) != state.cell(at, 2));
    assert(state.cell(at, 0) != state.cell(at, 3) && state.cell(at, 1) != state.cell(at, 3));
    assert(state.cell(at, 0) != state.cell(at, 4) && state.cell(at, 1) != state.cell(at, 4));
    assert(state.cell(at, 0) != state.cell(at, 5) && state.cell(at, 1) != state.cell(at, 5));
    assert(state.cell(at, 0) != state.cell(at, 6) && state.cell(at, 1) != state.cell(at, 6));
    assert(state.cell(at, 0) != state.cell(at, 7) && state.cell(at, 1) != state.cell(at, 7));
    assert(state.cell(at, 2) != state.cell(at, 3) && state.cell(at, 2) != state.cell(at, 4));
    assert(state.cell(at, 2) != state.cell(at, 5) && state.cell(at, 3) != state.cell(at, 4));
    assert(state.cell(at, 3) != state.cell(at, 5) && state.cell(at, 4) != state.cell(at, 5));
    assert(state.cell(at, 2) != state.cell(at, 6) && state.cell(at, 2) != state.cell(at, 7));
    assert(state.cell(at, 3) != state.cell(at, 6) && state.cell(at, 3) != state.cell(at, 7));
    assert(state.cell(at, 4) != state.cell(at, 6) && state.cell(at, 4) != state.cell(at, 7));
    assert(state.cell(at, 5) != state.cell(at, 6) && state.cell(at, 5) != state.cell(at, 7));
    assert(state.cell(at, 6) != state.cell(at, 7));
    assert(s3.byte(at) == (sr >> 8) as u8);
    assert(s3.byte(at.wrapping_add(1)) == sr as u8);
    assert(s3.byte(at.wrapping_add(2)) == (pc >> 24) as u8);
    assert(s3.byte(at.wrapping_add(3)) == (pc >> 16) as u8);
    assert(s3.byte(at.wrapping_add(4)) == (pc >> 8) as u8);
    assert(s3.byte(at.wrapping_add(5)) == pc as u8);
    assert(s3.byte(at.wrapping_add(6)) == (format >> 8) as u8);
    assert(s3.byte(at.wrapping_add(7)) == format as u8);
    crate::bits::lemma_be16(sr);
    crate::bits::lemma_be16(format);
    crate::bits::lemma_be32(pc);
    crate::laws_list::lemma_beside_frame(state, at, sr, pc, format, own);
}

/// Stacking the six-word frame.
proof fn lemma_stack_frame_six(m: Machine, state: LinearState, sr: u16, pc: u32, vector: u32)
    requires
        crate::laws_memory::plain(m, state),
        crate::laws_window::model_agrees(m.cpu),
        !m.cpu.model.is_pre_68020,
        has_long_frame(vector),
        frame_fits(m.cpu, state, m.cpu.dar[15].wrapping_sub(12), 12),
    ensures
        ({
            let sp = m.cpu.dar[15].wrapping_sub(12);
            let at = m.cpu.address(sp);
            let format = 0x2000 | ((vector << 2) as u16 & 0x0FFF);
            let after = m.stack_frame(sr, pc, vector);
            &&& crate::laws_memory::plain(after, long_frame(state, at, sr, pc, format, m.cpu.ppc))
            &&& keeps(
                after,
                CpuCore { dar: vstd::array::spec_array_update(m.cpu.dar, 15, sp), ..m.cpu },
            )
        }),
{
    reveal(Machine::stack_frame);
    reveal(CpuCore::spec_reserve_frame);
    let sp = m.cpu.dar[15].wrapping_sub(12);
    let at = m.cpu.address(sp);
    let format = 0x2000 | ((vector << 2) as u16 & 0x0FFF);
    let m2 = m.on_cpu(m.cpu.spec_reserve_frame(12).0);
    assert(m.cpu.address(sp.wrapping_add(2u32)) == at.wrapping_add(2)) by {
        assert(sp.wrapping_add(2 as u32) == sp.wrapping_add(2u32));
    }
    assert(m.cpu.address(sp.wrapping_add(6u32)) == at.wrapping_add(6)) by {
        assert(sp.wrapping_add(6 as u32) == sp.wrapping_add(6u32));
    }
    assert(m.cpu.address(sp.wrapping_add(8u32)) == at.wrapping_add(8)) by {
        assert(sp.wrapping_add(8 as u32) == sp.wrapping_add(8u32));
    }
    lemma_frame_write_32(m2, state, sp.wrapping_add(8), m.cpu.ppc);
    let m3 = m2.frame_write_32(sp.wrapping_add(8), m.cpu.ppc);
    let s3 = state.put_long(at.wrapping_add(8), m.cpu.ppc);
    lemma_frame_write(m3, s3, sp.wrapping_add(6), format);
    let m4 = m3.frame_write_16(sp.wrapping_add(6), format);
    let s4 = s3.put_word(at.wrapping_add(6), format);
    lemma_frame_write_32(m4, s4, sp.wrapping_add(2), pc);
    let m5 = m4.frame_write_32(sp.wrapping_add(2), pc);
    let s5 = s4.put_long(at.wrapping_add(2), pc);
    lemma_frame_write(m5, s5, sp, sr);
}

/// Returning from a six-word frame.
proof fn lemma_rte_six(m: Machine, state: LinearState, sr: u16, pc: u32, format: u16)
    requires
        crate::laws_memory::plain(m, state),
        crate::laws_window::model_agrees(m.cpu),
        !m.cpu.model.is_pre_68020,
        m.cpu.is_supervisor(),
        state.word(m.cpu.address(m.cpu.dar[15])) == sr,
        state.long(m.cpu.address(m.cpu.dar[15].wrapping_add(2))) == pc,
        state.word(m.cpu.address(m.cpu.dar[15].wrapping_add(6))) == 0x2000 | (format & 0x0FFF),
    ensures
        ({
            let after = m.exec_rte().0;
            let pulled = CpuCore {
                dar: vstd::array::spec_array_update(m.cpu.dar, 15, m.cpu.dar[15].wrapping_add(12)),
                pc,
                ..m.cpu
            };
            &&& crate::laws_memory::plain(after, state)
            &&& after.cpu.dar =~= pulled.spec_set_sr(sr).dar
            &&& after.cpu.sp == pulled.spec_set_sr(sr).sp
            &&& after.cpu.sys == pulled.spec_set_sr(sr).sys
            &&& after.cpu.ccr == pulled.spec_set_sr(sr).ccr
            &&& after.cpu.pc == pc
            &&& after.cpu.model == m.cpu.model
        }),
{
    reveal(Machine::exec_rte);
    reveal(Machine::rte_frame_68020);
    let sp = m.cpu.dar[15];
    crate::bits::lemma_reg(7);
    lemma_frame_bits(0, 0, 0, 2, 4, 6, format);
    crate::laws_memory::lemma_read_16(m, state, sp.wrapping_add(6));
    let m1 = m.read_16(sp.wrapping_add(6)).0;
    lemma_unstack(m1, state, sr, pc, 4, 12);
    let dar = vstd::array::spec_array_update(m.cpu.dar, 15, sp.wrapping_add(12));
    lemma_set_sr_frame(CpuCore { dar, pc, ..m1.cpu }, CpuCore { dar, pc, ..m.cpu }, sr);
}

/// Entering the exception, as far as the handler.
proof fn lemma_entered_six(m: Machine, state: LinearState, vector: u32) -> (s: LinearState)
    requires
        crate::laws_memory::plain(m, state),
        crate::laws_window::model_agrees(m.cpu),
        !m.cpu.model.is_pre_68020,
        has_long_frame(vector),
        !m.cpu.run.exception_processing,
        crate::laws_status::clean_sm(m.cpu),
        crate::laws_status::stored_sr(m.cpu.model.sr_mask, m.cpu.get_sr()) == m.cpu.get_sr(),
        m.cpu.sys.m_flag == 0,
        frame_fits(m.cpu, state, supervisor_sp(m.cpu).wrapping_sub(12), 12),
        crate::laws_memory::aligned(m.cpu, supervisor_sp(m.cpu).wrapping_sub(12)),
        crate::laws_memory::aligned(m.cpu, (vector << 2).wrapping_add(m.cpu.control.vbr)),
    ensures
        stacked(m, m.take_exception(vector).0, s, vector),
{
    reveal(Machine::take_exception);
    let sr = m.cpu.get_sr();
    let pc = stacked_pc(m.cpu, vector);
    let m1 = m.on_cpu(
        CpuCore {
            run: crate::cpu::RunState { exception_processing: true, ..m.cpu.run },
            ..m.cpu
        },
    );
    let (c2, got) = m1.cpu.spec_begin_exception();
    lemma_begun(m.cpu, m1.cpu);
    let m2 = m1.on_cpu(c2);
    let sp = c2.dar[15].wrapping_sub(12);
    let at = m.cpu.address(sp);
    let format = (vector << 2) as u16;
    lemma_stack_frame_six(m2, state, sr, pc, vector);
    let m3 = m2.stack_frame(sr, pc, vector);
    let s3 = long_frame(state, at, sr, pc, 0x2000 | (format & 0x0FFF), m.cpu.ppc);
    lemma_long_frame(state, at, sr, pc, 0x2000 | (format & 0x0FFF), m.cpu.ppc);
    lemma_enter_vector(m3, s3, vector);
    let m4 = m3.enter_vector(vector);
    let m5 = m4.on_cpu(
        CpuCore {
            run: crate::cpu::RunState { exception_processing: false, ..m4.cpu.run },
            ..m4.cpu
        },
    );
    assert(m5.cpu.dar[15] == sp);
    assert(m.cpu.address(sp.wrapping_add(2u32)) == at.wrapping_add(2)) by {
        assert(sp.wrapping_add(2 as u32) == sp.wrapping_add(2u32));
    }
    assert(m.cpu.address(sp.wrapping_add(6u32)) == at.wrapping_add(6)) by {
        assert(sp.wrapping_add(6 as u32) == sp.wrapping_add(6u32));
    }
    assert(m.cpu.address(sp.wrapping_add(8u32)) == at.wrapping_add(8)) by {
        assert(sp.wrapping_add(8 as u32) == sp.wrapping_add(8u32));
    }
    s3
}

/// With a six-word frame a handler that returns at once undoes the exception.
proof fn lemma_return_six(m: Machine, state: LinearState, vector: u32)
    requires
        crate::laws_memory::plain(m, state),
        crate::laws_window::model_agrees(m.cpu),
        !m.cpu.model.is_pre_68020,
        has_long_frame(vector),
        !m.cpu.run.exception_processing,
        crate::laws_status::clean_sm(m.cpu),
        crate::laws_status::stored_sr(m.cpu.model.sr_mask, m.cpu.get_sr()) == m.cpu.get_sr(),
        m.cpu.sys.m_flag == 0,
        frame_fits(m.cpu, state, supervisor_sp(m.cpu).wrapping_sub(12), 12),
        crate::laws_memory::aligned(m.cpu, supervisor_sp(m.cpu).wrapping_sub(12)),
        crate::laws_memory::aligned(m.cpu, (vector << 2).wrapping_add(m.cpu.control.vbr)),
    ensures
        undone(m, m.take_exception(vector).0, vector),
{
    let s = lemma_entered_six(m, state, vector);
    lemma_undone(m, m.take_exception(vector).0, s, vector);
}

/// What an exception leaves: the frame in memory, and the processor at the
/// handler.
spec fn stacked(m: Machine, entered: Machine, s: LinearState, vector: u32) -> bool {
    let bytes = frame_bytes(m.cpu, vector);
    let sp = supervisor_sp(m.cpu).wrapping_sub(bytes);
    let c = entered.cpu;
    &&& crate::laws_memory::plain(entered, s)
    &&& c.dar[15] == sp
    &&& forall|i: int| 0 <= i < 15 ==> c.dar[i] == m.cpu.dar[i]
    &&& c.sp[0] == m.cpu.get_usp()
    &&& c.sys.s_flag == SFLAG_SET
    &&& c.sys.m_flag == 0
    &&& c.sys.int_mask == m.cpu.sys.int_mask
    &&& c.sys.t1_flag == 0 && c.sys.t0_flag == 0
    &&& c.ccr == m.cpu.ccr
    &&& c.model == m.cpu.model
    &&& crate::laws_memory::aligned(m.cpu, sp)
    &&& crate::laws_memory::aligned(m.cpu, (vector << 2).wrapping_add(m.cpu.control.vbr))
    &&& s.word(m.cpu.address(sp)) == m.cpu.get_sr()
    &&& s.long(m.cpu.address(sp.wrapping_add(2))) == stacked_pc(m.cpu, vector)
    &&& bytes == 8 ==> s.word(m.cpu.address(sp.wrapping_add(6))) == (vector << 2) as u16 & 0x0FFF
    &&& bytes == 12 ==> s.word(m.cpu.address(sp.wrapping_add(6))) == 0x2000 | ((vector << 2) as u16 & 0x0FFF)
    &&& bytes == 12 ==> s.long(m.cpu.address(sp.wrapping_add(8))) == m.cpu.ppc
    &&& c.pc == s.long(m.cpu.address((vector << 2).wrapping_add(m.cpu.control.vbr)))
}

/// Returning from what an exception left.
proof fn lemma_undone(m: Machine, entered: Machine, s: LinearState, vector: u32)
    requires
        stacked(m, entered, s, vector),
        crate::laws_window::model_agrees(m.cpu),
        crate::laws_status::clean_sm(m.cpu),
        crate::laws_status::stored_sr(m.cpu.model.sr_mask, m.cpu.get_sr()) == m.cpu.get_sr(),
        m.cpu.sys.m_flag == 0,
    ensures
        undone(m, entered, vector),
{
    let bytes = frame_bytes(m.cpu, vector);
    let sp = supervisor_sp(m.cpu).wrapping_sub(bytes);
    let sr = m.cpu.get_sr();
    let pc = stacked_pc(m.cpu, vector);
    let format = (vector << 2) as u16;
    lemma_even_step(sp, m.cpu.model.address_mask);
    crate::laws_memory::lemma_read_16(entered, s, sp);
    crate::laws_memory::lemma_read_32(entered, s, sp.wrapping_add(2));
    crate::laws_memory::lemma_read_16(entered, s, sp.wrapping_add(6));
    if bytes == 12 {
        crate::laws_memory::lemma_read_32(entered, s, sp.wrapping_add(8));
    }
    crate::laws_memory::lemma_read_32(entered, s, (vector << 2).wrapping_add(m.cpu.control.vbr));
    if bytes == 6 {
        reveal(Machine::exec_rte);
        lemma_rte_68000(entered, s, sr, pc);
    } else if bytes == 8 {
        lemma_rte_four(entered, s, sr, pc, format);
    } else {
        lemma_rte_six(entered, s, sr, pc, format);
    }
    lemma_returned(m, entered, entered.exec_rte().0, sr, pc, bytes);
}

/// The registers after RTE.
proof fn lemma_returned(m: Machine, entered: Machine, back: Machine, sr: u16, pc: u32, bytes: u32)
    requires
        crate::laws_status::clean_sm(m.cpu),
        crate::laws_status::stored_sr(m.cpu.model.sr_mask, m.cpu.get_sr()) == m.cpu.get_sr(),
        m.cpu.sys.m_flag == 0,
        sr == m.cpu.get_sr(),
        entered.cpu.model == m.cpu.model,
        entered.cpu.sys.s_flag == SFLAG_SET,
        entered.cpu.sys.m_flag == 0,
        entered.cpu.sp[0] == m.cpu.get_usp(),
        entered.cpu.dar[15] == supervisor_sp(m.cpu).wrapping_sub(bytes),
        forall|i: int| 0 <= i < 15 ==> entered.cpu.dar[i] == m.cpu.dar[i],
        ({
            let pulled = CpuCore {
                dar: vstd::array::spec_array_update(entered.cpu.dar, 15, entered.cpu.dar[15].wrapping_add(bytes)),
                pc,
                ..entered.cpu
            };
            &&& back.cpu.dar =~= pulled.spec_set_sr(sr).dar
            &&& back.cpu.sp == pulled.spec_set_sr(sr).sp
            &&& back.cpu.sys == pulled.spec_set_sr(sr).sys
            &&& back.cpu.ccr == pulled.spec_set_sr(sr).ccr
        }),
    ensures
        back.cpu.get_sr() == sr,
        back.cpu.dar =~= m.cpu.dar,
        supervisor_sp(back.cpu) == supervisor_sp(m.cpu),
        back.cpu.get_usp() == m.cpu.get_usp(),
{
    let pulled = CpuCore {
        dar: vstd::array::spec_array_update(entered.cpu.dar, 15, entered.cpu.dar[15].wrapping_add(bytes)),
        pc,
        ..entered.cpu
    };
    assert(pulled.dar[15] == supervisor_sp(m.cpu));
    crate::laws_status::law_sr_round_trip(pulled, sr);
    lemma_same_status(back.cpu, pulled.spec_set_sr(sr));
    lemma_back_to_bank(m.cpu, pulled, sr);
    assert(back.cpu.dar@ =~= m.cpu.dar@);
}

/// An exception stacks SR and the address it goes back to, and a handler that
/// returns at once undoes it, on every model: SR, the registers and both stack
/// pointers are as they were, and execution goes on at the stacked address. The frame has to fall on memory cells of its
/// own, and at an address that the model can access; the master stack is not
/// in use.
pub proof fn law_return_undoes_exception(m: Machine, state: LinearState, vector: u32)
    requires
        crate::laws_memory::plain(m, state),
        crate::laws_window::model_agrees(m.cpu),
        !m.cpu.run.exception_processing,
        crate::laws_status::clean_sm(m.cpu),
        crate::laws_status::stored_sr(m.cpu.model.sr_mask, m.cpu.get_sr()) == m.cpu.get_sr(),
        m.cpu.sys.m_flag == 0,
        ({
            let bytes = frame_bytes(m.cpu, vector);
            let sp = supervisor_sp(m.cpu).wrapping_sub(bytes);
            crate::laws_memory::aligned(m.cpu, sp) && frame_fits(m.cpu, state, sp, bytes as int)
        }),
        crate::laws_memory::aligned(m.cpu, (vector << 2).wrapping_add(m.cpu.control.vbr)),
    ensures
        undone(m, m.take_exception(vector).0, vector),
{
    if m.cpu.model.cpu_type == CpuType::M68000 {
        lemma_return_68000(m, state, vector);
    } else if has_long_frame(vector) && !m.cpu.model.is_pre_68020 {
        lemma_return_six(m, state, vector);
    } else {
        lemma_return_four(m, state, vector);
    }
}

/// The next `n` frames on the stack are throwaway frames.
pub open spec fn throwaways(m: Machine, n: nat) -> bool
    decreases n,
{
    n == 0 || (m.rte_frame_68020().1 is None && throwaways(m.rte_frame_68020().0, (n - 1) as nat))
}

/// The machine once RTE has dropped `n` throwaway frames.
pub open spec fn past_throwaways(m: Machine, n: nat) -> Machine
    decreases n,
{
    if n == 0 {
        m
    } else {
        past_throwaways(m.rte_frame_68020().0, (n - 1) as nat)
    }
}

proof fn lemma_chain(m: Machine, n: nat, fuel: nat)
    requires
        n < fuel,
        throwaways(m, n),
        past_throwaways(m, n).rte_frame_68020().1 is Some,
    ensures
        ({
            let (end, cycles) = past_throwaways(m, n).rte_frame_68020();
            m.rte_chain(fuel) == (end, cycles->0)
        }),
    decreases n,
{
    if n > 0 {
        lemma_chain(m.rte_frame_68020().0, (n - 1) as nat, (fuel - 1) as nat);
    }
}

/// RTE follows a chain of throwaway frames to the frame that ends it, and
/// returns through that one. The limit is no restriction in practice: a frame
/// takes eight bytes, so a longer chain passes over every address more than
/// once.
pub proof fn law_throwaway_chain_is_followed(m: Machine, n: nat)
    requires
        n < crate::decode_misc::RTE_CHAIN_LIMIT,
        throwaways(m, n),
        past_throwaways(m, n).rte_frame_68020().1 is Some,
    ensures
        ({
            let (end, cycles) = past_throwaways(m, n).rte_frame_68020();
            m.exec_rte_68020() == (end, cycles->0)
        }),
{
    lemma_chain(m, n, crate::decode_misc::RTE_CHAIN_LIMIT as nat);
}

} // verus!
