//! Laws of interrupt entry: where it came from is on the stack.

use vstd::prelude::*;
use crate::cpu::{CpuCore, SFLAG_SET};
use crate::laws_exception;
use crate::laws_exception::{frame_fits, keeps, supervisor_sp};
use crate::laws_memory;
use crate::laws_memory::{aligned, plain};
use crate::machine::Machine;
use crate::memory::{BusOp, LinearState};
use crate::types::CpuType;

verus! {

/// Bytes of the frame that an interrupt stacks.
pub open spec fn interrupt_frame_bytes(cpu: CpuCore) -> u32 {
    if cpu.model.cpu_type == CpuType::M68000 {
        6
    } else {
        8
    }
}

/// The vector of an interrupt that plain memory acknowledges: the autovector
/// of its level.
pub open spec fn autovector(level: u8) -> u32 {
    (24 + level) as u32
}

/// Where the handler of an interrupt is named.
pub open spec fn handler_address(cpu: CpuCore, level: u8) -> u32 {
    cpu.control.vbr.wrapping_add((4 * (24 + level)) as u32)
}

/// What a frame at the stack pointer holds, and that the machine is otherwise
/// as it was.
spec fn frame_holds(m: Machine, after: Machine, s: LinearState, sr: u16, pc: u32, format: u16) -> bool {
    let bytes = interrupt_frame_bytes(m.cpu);
    let sp = m.cpu.dar[15].wrapping_sub(bytes);
    &&& plain(after, s)
    &&& keeps(after, CpuCore { dar: vstd::array::spec_array_update(m.cpu.dar, 15, sp), ..m.cpu })
    &&& s.word(m.cpu.address(sp)) == sr
    &&& s.long(m.cpu.address(sp.wrapping_add(2))) == pc
    &&& bytes == 8 ==> s.word(m.cpu.address(sp.wrapping_add(6))) == format
}

/// Addresses within a frame.
proof fn lemma_frame_addresses(cpu: CpuCore, state: LinearState, sp: u32, bytes: int)
    requires
        frame_fits(cpu, state, sp, bytes),
        bytes >= 6,
    ensures
        cpu.address(sp.wrapping_add(2)) == cpu.address(sp).wrapping_add(2),
        cpu.address(sp.wrapping_add(4)) == cpu.address(sp).wrapping_add(4),
        bytes >= 8 ==> cpu.address(sp.wrapping_add(6)) == cpu.address(sp).wrapping_add(6),
        aligned(cpu, sp) ==> aligned(cpu, sp.wrapping_add(2)) && aligned(cpu, sp.wrapping_add(4)) && aligned(
            cpu,
            sp.wrapping_add(6),
        ),
{
    assert(sp.wrapping_add(2int as u32) == sp.wrapping_add(2));
    assert(sp.wrapping_add(4int as u32) == sp.wrapping_add(4));
    assert(sp.wrapping_add(6int as u32) == sp.wrapping_add(6));
    laws_exception::lemma_even_step(sp, cpu.model.address_mask);
}

/// The frame of an interrupt on the 68000.
proof fn lemma_frame_68000(m: Machine, state: LinearState, level: u8, sr: u16) -> (s: LinearState)
    requires
        plain(m, state),
        m.cpu.model.cpu_type == CpuType::M68000,
        aligned(m.cpu, m.cpu.dar[15].wrapping_sub(6)),
        frame_fits(m.cpu, state, m.cpu.dar[15].wrapping_sub(6), 6),
    ensures
        frame_holds(m, m.interrupt_frame_68000(level, sr).0, s, sr, m.cpu.pc, 0),
        m.interrupt_frame_68000(level, sr).1 == crate::execute::iack_vector(0xFFFF_FFFF, level),
{
    reveal(Machine::interrupt_frame_68000);
    reveal(CpuCore::spec_internal_cycles);
    reveal(CpuCore::spec_set_a);
    crate::bits::lemma_reg(7);
    let pc = m.cpu.pc;
    let sp = m.cpu.dar[15].wrapping_sub(6);
    let at = m.cpu.address(sp);
    lemma_frame_addresses(m.cpu, state, sp, 6);
    laws_exception::lemma_frame_bits(pc, 0, 0, 2, 4, 6, 0);
    let m1 = m.on_cpu(m.cpu.spec_internal_cycles(6));
    let m2 = m1.on_cpu(m1.cpu.spec_set_a(7, sp));
    assert(m2.cpu.dar@ =~= vstd::array::spec_array_update(m.cpu.dar, 15, sp)@);
    assert(m2.cpu.dar == vstd::array::spec_array_update(m.cpu.dar, 15, sp));
    laws_memory::lemma_write_16(m2, state, sp.wrapping_add(4), pc as u16);
    let m3 = m2.write_16(sp.wrapping_add(4), pc as u16);
    let s3 = state.put_word(at.wrapping_add(4), pc as u16);
    let m4 = m3.on_cpu(m3.cpu.spec_internal_cycles(4));
    laws_memory::lemma_flush(m4, s3);
    let m5 = m4.flush_sync();
    s3.lemma_behavior(BusOp::InterruptAcknowledge(level));
    let m6 = m5.bus_interrupt_acknowledge(level).0;
    let m7 = m6.on_cpu(m6.cpu.spec_internal_cycles(4));
    laws_memory::lemma_write_16(m7, s3, sp, sr);
    let m8 = m7.write_16(sp, sr);
    let s8 = s3.put_word(at, sr);
    laws_memory::lemma_write_16(m8, s8, sp.wrapping_add(2), (pc >> 16) as u16);
    laws_exception::lemma_short_frame(state, at, sr, pc);
    s8.put_word(at.wrapping_add(2), (pc >> 16) as u16)
}

/// The frame of an interrupt on the 68010.
proof fn lemma_frame_68010(m: Machine, state: LinearState, level: u8, sr: u16) -> (s: LinearState)
    requires
        plain(m, state),
        m.cpu.model.cpu_type == CpuType::M68010,
        aligned(m.cpu, m.cpu.dar[15].wrapping_sub(8)),
        frame_fits(m.cpu, state, m.cpu.dar[15].wrapping_sub(8), 8),
        level <= 7,
    ensures
        frame_holds(
            m,
            m.interrupt_frame_68010(level, sr).0,
            s,
            sr,
            m.cpu.pc,
            (4 * (24 + level)) as u16,
        ),
        m.interrupt_frame_68010(level, sr).1 == crate::execute::iack_vector(0xFFFF_FFFF, level),
{
    reveal(Machine::interrupt_frame_68010);
    reveal(CpuCore::spec_internal_cycles);
    reveal(CpuCore::spec_set_a);
    crate::bits::lemma_reg(7);
    let pc = m.cpu.pc;
    let sp = m.cpu.dar[15].wrapping_sub(8);
    let at = m.cpu.address(sp);
    let vector = autovector(level);
    let format = (vector << 2) as u16;
    lemma_frame_addresses(m.cpu, state, sp, 8);
    laws_exception::lemma_frame_bits(pc, 0, 0, 2, 4, 6, 0);
    laws_exception::lemma_frame_bits(vector, 0, 0, 2, 4, 6, format);
    let m1 = m.on_cpu(m.cpu.spec_internal_cycles(12));
    laws_memory::lemma_flush(m1, state);
    let m2 = m1.flush_sync();
    state.lemma_behavior(BusOp::InterruptAcknowledge(level));
    let m3 = m2.bus_interrupt_acknowledge(level).0;
    let m4 = m3.on_cpu(m3.cpu.spec_set_a(7, sp));
    assert(m4.cpu.dar@ =~= vstd::array::spec_array_update(m.cpu.dar, 15, sp)@);
    assert(m4.cpu.dar == vstd::array::spec_array_update(m.cpu.dar, 15, sp));
    laws_memory::lemma_write_16(m4, state, sp.wrapping_add(4), pc as u16);
    let m5 = m4.write_16(sp.wrapping_add(4), pc as u16);
    let s5 = state.put_word(at.wrapping_add(4), pc as u16);
    laws_memory::lemma_write_16(m5, s5, sp, sr);
    let m6 = m5.write_16(sp, sr);
    let s6 = s5.put_word(at, sr);
    laws_memory::lemma_write_16(m6, s6, sp.wrapping_add(2), (pc >> 16) as u16);
    let m7 = m6.write_16(sp.wrapping_add(2), (pc >> 16) as u16);
    let s7 = s6.put_word(at.wrapping_add(2), (pc >> 16) as u16);
    laws_memory::lemma_write_16(m7, s7, sp.wrapping_add(6), format);
    laws_exception::lemma_fewer_cells(state, at);
    laws_exception::lemma_short_frame(state, at, sr, pc);
    laws_exception::lemma_same_cells(state, s7, at);
    laws_exception::lemma_beside(s7, at, sr, pc, format);
    s7.put_word(at.wrapping_add(6), format)
}

/// A frame of four words pushed.
proof fn lemma_push_frame(m: Machine, state: LinearState, sr: u16, pc: u32, format: u16) -> (s: LinearState)
    requires
        plain(m, state),
        m.cpu.model.cpu_type != CpuType::M68000,
        aligned(m.cpu, m.cpu.dar[15].wrapping_sub(8)),
        frame_fits(m.cpu, state, m.cpu.dar[15].wrapping_sub(8), 8),
    ensures
        frame_holds(m, m.push_16(format).push_32(pc).push_16(sr), s, sr, pc, format),
{
    reveal(Machine::push_16);
    reveal(Machine::push_32);
    let sp = m.cpu.dar[15].wrapping_sub(8);
    let at = m.cpu.address(sp);
    lemma_frame_addresses(m.cpu, state, sp, 8);
    let top = m.cpu.dar[15];
    assert(top.wrapping_sub(2) == sp.wrapping_add(6));
    assert(sp.wrapping_add(6).wrapping_sub(4) == sp.wrapping_add(2));
    assert(sp.wrapping_add(2).wrapping_sub(2) == sp);
    let m1 = m.on_cpu(
        CpuCore { dar: vstd::array::spec_array_update(m.cpu.dar, 15, sp.wrapping_add(6)), ..m.cpu },
    );
    laws_memory::lemma_write_16(m1, state, sp.wrapping_add(6), format);
    let m2 = m.push_16(format);
    let s2 = state.put_word(at.wrapping_add(6), format);
    let m3 = m2.on_cpu(
        CpuCore { dar: vstd::array::spec_array_update(m2.cpu.dar, 15, sp.wrapping_add(2)), ..m2.cpu },
    );
    laws_memory::lemma_write_32(m3, s2, sp.wrapping_add(2), pc);
    let m4 = m2.push_32(pc);
    let s4 = s2.put_long(at.wrapping_add(2), pc);
    let m5 = m4.on_cpu(
        CpuCore { dar: vstd::array::spec_array_update(m4.cpu.dar, 15, sp), ..m4.cpu },
    );
    laws_memory::lemma_write_16(m5, s4, sp, sr);
    let m6 = m4.push_16(sr);
    assert(m6.cpu.dar@ =~= vstd::array::spec_array_update(m.cpu.dar, 15, sp)@);
    assert(m6.cpu.dar == vstd::array::spec_array_update(m.cpu.dar, 15, sp));
    crate::laws_list::lemma_frame_block(state, at, sr, pc, format);
    s4.put_word(at, sr)
}

/// The frame of an interrupt from the 68020 on.
proof fn lemma_frame_68020(m: Machine, state: LinearState, level: u8, sr: u16) -> (s: LinearState)
    requires
        plain(m, state),
        m.cpu.model.cpu_type != CpuType::M68000,
        aligned(m.cpu, m.cpu.dar[15].wrapping_sub(8)),
        frame_fits(m.cpu, state, m.cpu.dar[15].wrapping_sub(8), 8),
        level <= 7,
    ensures
        frame_holds(
            m,
            m.interrupt_frame_68020(level, sr).0,
            s,
            sr,
            m.cpu.pc,
            (4 * (24 + level)) as u16,
        ),
        m.interrupt_frame_68020(level, sr).1 == crate::execute::iack_vector(0xFFFF_FFFF, level),
{
    reveal(Machine::interrupt_frame_68020);
    let vector = autovector(level);
    let format = (vector << 2) as u16;
    laws_exception::lemma_frame_bits(vector, 0, 0, 2, 4, 6, format);
    state.lemma_behavior(BusOp::InterruptAcknowledge(level));
    let m1 = m.bus_interrupt_acknowledge(level).0;
    assert(plain(m1, state));
    lemma_push_frame(m1, state, sr, m.cpu.pc, format)
}

/// Jumping through a vector in plain memory.
proof fn lemma_jump_vector(m: Machine, state: LinearState, vector: u32)
    requires
        plain(m, state),
        aligned(m.cpu, (vector << 2).wrapping_add(m.cpu.control.vbr)),
    ensures
        ({
            let after = m.jump_vector(vector);
            &&& plain(after, state)
            &&& after.cpu.dar == m.cpu.dar
            &&& after.cpu.sp == m.cpu.sp
            &&& after.cpu.sys == m.cpu.sys
            &&& after.cpu.ccr == m.cpu.ccr
            &&& after.cpu.model == m.cpu.model
            &&& after.cpu.run == m.cpu.run
            &&& after.cpu.mmu == m.cpu.mmu
            &&& after.cpu.control == m.cpu.control
            &&& after.cpu.pc == state.long(
                m.cpu.address((vector << 2).wrapping_add(m.cpu.control.vbr)),
            )
        }),
{
    reveal(Machine::jump_vector);
    reveal(Machine::begin_vector);
    reveal(Machine::prefetch_first);
    reveal(Machine::prefetch_second);
    reveal(CpuCore::spec_internal_cycles);
    reveal(CpuCore::spec_clear_execution_pipeline_state);
    let at = (vector << 2).wrapping_add(m.cpu.control.vbr);
    state.lemma_behavior(BusOp::IplReleaseSample);
    let m1 = m.begin_vector(vector);
    assert(plain(m1, state));
    laws_memory::lemma_read_32(m1, state, at);
    let (m2, target) = m1.read_32(at);
    let m3 = m2.on_cpu(CpuCore { pc: target, ..m2.cpu });
    let q = m3.on_cpu(
        CpuCore {
            queue: crate::cpu::PrefetchState { prefetch_count: 0, ..m3.cpu.queue },
            ..m3.cpu
        },
    );
    laws_exception::lemma_prefetch_read(q, state, q.cpu.pc);
    let m4 = m3.prefetch_first();
    assert(plain(m4, state) && keeps(m4, m3.cpu));
    let m5 = m4.on_cpu(m4.cpu.spec_internal_cycles(2));
    laws_exception::lemma_prefetch_read(m5, state, m5.cpu.pc.wrapping_add(2));
}

/// A machine on plain memory whose supervisor stack has room for an interrupt
/// frame, with the master stack not in use.
pub open spec fn ready_for_interrupt(m: Machine, state: LinearState, level: u8) -> bool {
    let bytes = interrupt_frame_bytes(m.cpu);
    let sp = supervisor_sp(m.cpu).wrapping_sub(bytes);
    &&& plain(m, state)
    &&& crate::laws_window::model_agrees(m.cpu)
    &&& crate::laws_status::clean_sm(m.cpu)
    &&& crate::laws_status::stored_sr(m.cpu.model.sr_mask, m.cpu.get_sr()) == m.cpu.get_sr()
    &&& m.cpu.sys.m_flag == 0
    &&& level <= 7
    &&& aligned(m.cpu, sp)
    &&& frame_fits(m.cpu, state, sp, bytes as int)
    &&& aligned(m.cpu, handler_address(m.cpu, level))
}

/// The processor as an interrupt finds it for its frame: in supervisor state,
/// not tracing, with the mask raised.
spec fn admitted(cpu: CpuCore, level: u8) -> CpuCore {
    let c = CpuCore {
        sys: crate::cpu::SystemFlags { t1_flag: 0, t0_flag: 0, ..cpu.sys },
        ..cpu
    };
    let d = c.spec_set_s_flag(SFLAG_SET);
    CpuCore {
        sys: crate::cpu::SystemFlags { int_mask: ((level as u32) & 7) << 8, ..d.sys },
        ..d
    }
}

/// Entering the supervisor state for an interrupt.
proof fn lemma_admitted(cpu: CpuCore, level: u8)
    requires
        crate::laws_status::clean_sm(cpu),
        cpu.sys.m_flag == 0,
        level <= 7,
    ensures
        ({
            let c = admitted(cpu, level);
            &&& c == (CpuCore { sys: c.sys, sp: c.sp, dar: c.dar, ..cpu })
            &&& c.dar[15] == supervisor_sp(cpu)
            &&& forall|i: int| 0 <= i < 15 ==> c.dar[i] == cpu.dar[i]
            &&& c.sp[0] == cpu.get_usp()
            &&& c.sys.s_flag == SFLAG_SET
            &&& c.sys.m_flag == 0
            &&& c.sys.t1_flag == 0
            &&& c.sys.t0_flag == 0
            &&& c.sys.int_mask == 0x100 * level
        }),
{
    reveal(CpuCore::spec_set_s_flag);
    reveal(CpuCore::spec_backup_sp);
    reveal(CpuCore::spec_restore_sp);
    crate::laws_status::lemma_banks(cpu.sys.s_flag, cpu.sys.m_flag, 4);
    crate::laws_status::lemma_banks(4, 0, 4);
    crate::bits::lemma_masks(level as u32);
}

/// Taking an interrupt, as far as the handler.
proof fn lemma_taken(m: Machine, state: LinearState, level: u8) -> (s: LinearState)
    requires
        ready_for_interrupt(m, state, level),
    ensures
        ({
            let after = m.service_interrupt(level);
            let c = admitted(m.cpu, level);
            let sp = supervisor_sp(m.cpu).wrapping_sub(interrupt_frame_bytes(m.cpu));
            &&& plain(after, s)
            &&& after.cpu.dar =~= vstd::array::spec_array_update(c.dar, 15, sp)
            &&& after.cpu.sp == c.sp
            &&& after.cpu.sys == c.sys
            &&& after.cpu.ccr == m.cpu.ccr
            &&& after.cpu.model == m.cpu.model
            &&& after.cpu.control == m.cpu.control
            &&& after.cpu.run.stopped == 0
            &&& after.cpu.pc == s.long(m.cpu.address(handler_address(m.cpu, level)))
            &&& s.word(m.cpu.address(sp)) == m.cpu.get_sr()
            &&& s.long(m.cpu.address(sp.wrapping_add(2))) == m.cpu.pc
            &&& interrupt_frame_bytes(m.cpu) == 8 ==> s.word(m.cpu.address(sp.wrapping_add(6))) == 4 * (24
                + level)
        }),
{
    reveal(Machine::service_interrupt);
    reveal(Machine::leave_master_state);
    reveal(CpuCore::spec_charge);
    let sr = m.cpu.get_sr();
    let c = admitted(m.cpu, level);
    lemma_admitted(m.cpu, level);
    let m1 = m.on_cpu(c);
    let vector = autovector(level);
    laws_exception::lemma_frame_bits(vector, 0, 0, 2, 4, 6, 0);
    assert(frame_fits(
        m1.cpu,
        state,
        m1.cpu.dar[15].wrapping_sub(interrupt_frame_bytes(m.cpu)),
        interrupt_frame_bytes(m.cpu) as int,
    ));
    let s = if m.cpu.model.cpu_type == CpuType::M68000 {
        lemma_frame_68000(m1, state, level, sr)
    } else if m.cpu.model.cpu_type == CpuType::M68010 {
        lemma_frame_68010(m1, state, level, sr)
    } else {
        lemma_frame_68020(m1, state, level, sr)
    };
    let m2 = match m.cpu.model.cpu_type {
        CpuType::M68000 => m1.interrupt_frame_68000(level, sr).0,
        CpuType::M68010 => m1.interrupt_frame_68010(level, sr).0,
        _ => m1.interrupt_frame_68020(level, sr).0,
    };
    assert((vector << 2).wrapping_add(m.cpu.control.vbr) == handler_address(m.cpu, level));
    lemma_jump_vector(m2, s, vector);
    s
}

/// An interrupt that plain memory acknowledges finds its way back. On every
/// model the word at the new stack pointer is SR as it was and the long word
/// after it is PC as it was; from the 68010 on the next word names the
/// autovector. The processor is in supervisor state, not tracing, masks the
/// level and what is below it, and stands at the handler that the vector
/// names; no other register has changed. RTE gives back PC, SR, the registers
/// and both stack pointers.
pub proof fn law_interrupt_stacks_where_it_came_from(m: Machine, state: LinearState, level: u8)
    requires
        ready_for_interrupt(m, state, level),
    ensures
        ({
            let after = m.service_interrupt(level);
            let bytes = interrupt_frame_bytes(m.cpu);
            let sp = supervisor_sp(m.cpu).wrapping_sub(bytes);
            let back = after.exec_rte().0;
            &&& after.cpu.dar[15] == sp
            &&& after.read_16(sp).1 == m.cpu.get_sr()
            &&& after.read_32(sp.wrapping_add(2)).1 == m.cpu.pc
            &&& bytes == 8 ==> after.read_16(sp.wrapping_add(6)).1 == 4 * (24 + level)
            &&& forall|i: int| 0 <= i < 15 ==> after.cpu.dar[i] == m.cpu.dar[i]
            &&& after.cpu.get_usp() == m.cpu.get_usp()
            &&& after.cpu.is_supervisor()
            &&& after.cpu.sys.t1_flag == 0 && after.cpu.sys.t0_flag == 0
            &&& after.cpu.sys.int_mask == 0x100 * level
            &&& after.cpu.ccr == m.cpu.ccr
            &&& after.cpu.pc == after.read_32(handler_address(m.cpu, level)).1
            &&& after.cpu.run.stopped == 0
            &&& !after.cpu.faulted()
            &&& back.cpu.pc == m.cpu.pc
            &&& back.cpu.get_sr() == m.cpu.get_sr()
            &&& back.cpu.dar =~= m.cpu.dar
            &&& supervisor_sp(back.cpu) == supervisor_sp(m.cpu)
            &&& back.cpu.get_usp() == m.cpu.get_usp()
            &&& !back.cpu.faulted()
        }),
{
    let s = lemma_taken(m, state, level);
    let after = m.service_interrupt(level);
    let c = admitted(m.cpu, level);
    lemma_admitted(m.cpu, level);
    let bytes = interrupt_frame_bytes(m.cpu);
    let sp = supervisor_sp(m.cpu).wrapping_sub(bytes);
    let sr = m.cpu.get_sr();
    lemma_frame_addresses(m.cpu, state, sp, bytes as int);
    laws_memory::lemma_read_16(after, s, sp);
    laws_memory::lemma_read_32(after, s, sp.wrapping_add(2));
    laws_memory::lemma_read_16(after, s, sp.wrapping_add(6));
    laws_memory::lemma_read_32(after, s, handler_address(m.cpu, level));
    let format = (4 * (24 + level)) as u16;
    laws_exception::lemma_frame_bits(0, 0, 0, 2, 4, 6, format);
    if m.cpu.model.cpu_type == CpuType::M68000 {
        reveal(Machine::exec_rte);
        laws_exception::lemma_rte_68000(after, s, sr, m.cpu.pc);
    } else {
        laws_exception::lemma_rte_four(after, s, sr, m.cpu.pc, format);
    }
    let back = after.exec_rte().0;
    let pulled = CpuCore {
        dar: vstd::array::spec_array_update(after.cpu.dar, 15, after.cpu.dar[15].wrapping_add(bytes)),
        pc: m.cpu.pc,
        ..after.cpu
    };
    assert(pulled.dar[15] == supervisor_sp(m.cpu));
    crate::laws_status::law_sr_round_trip(pulled, sr);
    laws_exception::lemma_same_status(back.cpu, pulled.spec_set_sr(sr));
    laws_exception::lemma_back_to_bank(m.cpu, pulled, sr);
    assert(back.cpu.dar@ =~= m.cpu.dar@);
}

} // verus!
