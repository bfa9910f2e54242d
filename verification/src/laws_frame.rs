//! What an instruction leaves alone.
//!
//! The cycle account of a run and the address of the instruction belong to
//! the run loop. Each lemma says it of one step of the machine, and rests on
//! those of the steps it is made of.

use vstd::prelude::*;
use crate::access::Fault;
use crate::cpu::CpuCore;
use crate::ea::{AddressingMode, EaResult};
use crate::machine::Machine;
use crate::memory::{MmuFault, MmuFaultCause, UnitOp};
use crate::op_cache::{AddrOp, BinaryOp, BitOp, DecodedSimpleOp, DirectReg, UnaryOp};
use crate::types::{InternalStepResult, Size};

verus! {

/// The run began with the same budget.
#[verifier::inline]
pub open spec fn same_slice(before: CpuCore, after: CpuCore) -> bool {
    after.run.initial_cycles == before.run.initial_cycles
}

/// The cycle account of the run and the pending interrupt level are the same.
#[verifier::inline]
pub open spec fn same_account(before: CpuCore, after: CpuCore) -> bool {
    &&& after.run.initial_cycles == before.run.initial_cycles
    &&& after.run.cycles_remaining == before.run.cycles_remaining
    &&& after.run.int_level == before.run.int_level
}

/// The cycle account, the pending interrupt level and the address of the
/// instruction are the same.
#[verifier::inline]
pub open spec fn same_run(before: CpuCore, after: CpuCore) -> bool {
    &&& after.run.initial_cycles == before.run.initial_cycles
    &&& after.run.cycles_remaining == before.run.cycles_remaining
    &&& after.run.int_level == before.run.int_level
    &&& after.ppc == before.ppc
}

pub broadcast proof fn keeps_spec_double_fault(c: CpuCore)
    ensures
        same_run(c, (#[trigger] c.spec_double_fault())),
{
    reveal(CpuCore::spec_double_fault);
}

pub broadcast proof fn keeps_spec_backup_sp(c: CpuCore)
    ensures
        same_run(c, (#[trigger] c.spec_backup_sp())),
{
    reveal(CpuCore::spec_backup_sp);
}

pub broadcast proof fn keeps_spec_restore_sp(c: CpuCore)
    ensures
        same_run(c, (#[trigger] c.spec_restore_sp())),
{
    reveal(CpuCore::spec_restore_sp);
}

pub broadcast proof fn keeps_spec_set_s_flag(c: CpuCore, value: u32)
    ensures
        same_run(c, (#[trigger] c.spec_set_s_flag(value))),
{
    broadcast use {
        keeps_spec_backup_sp,
        keeps_spec_restore_sp,
    };

    reveal(CpuCore::spec_set_s_flag);
}

pub broadcast proof fn keeps_spec_begin_exception(c: CpuCore)
    ensures
        same_run(c, (#[trigger] c.spec_begin_exception()).0),
{
    broadcast use keeps_spec_set_s_flag;

    reveal(CpuCore::spec_begin_exception);
}

pub broadcast proof fn keeps_spec_internal_cycles(c: CpuCore, clocks: u32)
    ensures
        same_run(c, (#[trigger] c.spec_internal_cycles(clocks))),
{
    reveal(CpuCore::spec_internal_cycles);
}

pub broadcast proof fn keeps_spec_reserve_frame(c: CpuCore, bytes: u32)
    ensures
        same_run(c, (#[trigger] c.spec_reserve_frame(bytes)).0),
{
    reveal(CpuCore::spec_reserve_frame);
}

pub broadcast proof fn keeps_flush_sync(m: Machine)
    ensures
        same_run(m.cpu, (#[trigger] m.flush_sync()).cpu),
{
    reveal(Machine::flush_sync);
}

pub broadcast proof fn keeps_spec_take_write_suppress(c: CpuCore, addr: u32)
    ensures
        same_run(c, (#[trigger] c.spec_take_write_suppress(addr)).0),
{
    reveal(CpuCore::spec_take_write_suppress);
}

pub broadcast proof fn keeps_translate(m: Machine, addr: u32, write: bool, instruction: bool)
    ensures
        same_run(m.cpu, (#[trigger] m.translate(addr, write, instruction)).0.cpu),
{
    reveal(Machine::translate);
}

pub broadcast proof fn keeps_physical_write(m: Machine, addr: u32, size: u32, value: u32)
    ensures
        same_run(m.cpu, (#[trigger] m.physical_write(addr, size, value)).0.cpu),
{
    reveal(Machine::physical_write);
}

pub broadcast proof fn keeps_whole_write(m: Machine, addr: u32, size: u32, value: u32)
    ensures
        same_run(m.cpu, (#[trigger] m.whole_write(addr, size, value)).0.cpu),
{
    broadcast use {
        keeps_spec_take_write_suppress,
        keeps_translate,
        keeps_physical_write,
    };

    reveal(Machine::whole_write);
}

pub broadcast proof fn keeps_access_write_8(m: Machine, address: u32, value: u8)
    ensures
        same_run(m.cpu, (#[trigger] m.access_write_8(address, value)).0.cpu),
{
    broadcast use {
        keeps_flush_sync,
        keeps_whole_write,
    };

    reveal(Machine::access_write_8);
}

pub broadcast proof fn keeps_access_write_16(m: Machine, address: u32, value: u16)
    ensures
        same_run(m.cpu, (#[trigger] m.access_write_16(address, value)).0.cpu),
{
    broadcast use {
        keeps_flush_sync,
        keeps_access_write_8,
        keeps_whole_write,
    };

    reveal(Machine::access_write_16);
}

pub broadcast proof fn keeps_frame_write_16(m: Machine, addr: u32, value: u16)
    ensures
        same_run(m.cpu, (#[trigger] m.frame_write_16(addr, value)).cpu),
{
    broadcast use {
        keeps_access_write_16,
        keeps_spec_double_fault,
    };

    reveal(Machine::frame_write_16);
}

pub broadcast proof fn keeps_access_write_32(m: Machine, address: u32, value: u32)
    ensures
        same_run(m.cpu, (#[trigger] m.access_write_32(address, value)).0.cpu),
{
    broadcast use {
        keeps_flush_sync,
        keeps_access_write_16,
        keeps_whole_write,
    };

    reveal(Machine::access_write_32);
}

pub broadcast proof fn keeps_frame_write_32(m: Machine, addr: u32, value: u32)
    ensures
        same_run(m.cpu, (#[trigger] m.frame_write_32(addr, value)).cpu),
{
    broadcast use {
        keeps_access_write_32,
        keeps_spec_double_fault,
    };

    reveal(Machine::frame_write_32);
}

pub broadcast proof fn keeps_stack_frame(m: Machine, sr: u16, pc: u32, vector: u32)
    ensures
        same_run(m.cpu, (#[trigger] m.stack_frame(sr, pc, vector)).cpu),
{
    broadcast use {
        keeps_spec_internal_cycles,
        keeps_spec_reserve_frame,
        keeps_frame_write_16,
        keeps_frame_write_32,
    };

    reveal(Machine::stack_frame);
}

pub broadcast proof fn keeps_spec_clear_execution_pipeline_state(c: CpuCore)
    ensures
        same_run(c, (#[trigger] c.spec_clear_execution_pipeline_state())),
{
    reveal(CpuCore::spec_clear_execution_pipeline_state);
}

pub broadcast proof fn keeps_begin_vector(m: Machine, vector: u32)
    ensures
        same_run(m.cpu, (#[trigger] m.begin_vector(vector)).cpu),
{
    broadcast use keeps_spec_clear_execution_pipeline_state;

    reveal(Machine::begin_vector);
}

pub broadcast proof fn keeps_spec_take_read_override(c: CpuCore, addr: u32)
    ensures
        same_run(c, (#[trigger] c.spec_take_read_override(addr)).0),
{
    reveal(CpuCore::spec_take_read_override);
}

pub broadcast proof fn keeps_physical_read(m: Machine, addr: u32, size: u32)
    ensures
        same_run(m.cpu, (#[trigger] m.physical_read(addr, size)).0.cpu),
{
    reveal(Machine::physical_read);
}

pub broadcast proof fn keeps_whole_read(m: Machine, addr: u32, size: u32, mask: u32)
    ensures
        same_run(m.cpu, (#[trigger] m.whole_read(addr, size, mask)).0.cpu),
{
    broadcast use {
        keeps_spec_take_read_override,
        keeps_translate,
        keeps_physical_read,
    };

    reveal(Machine::whole_read);
}

pub broadcast proof fn keeps_access_read_8(m: Machine, address: u32)
    ensures
        same_run(m.cpu, (#[trigger] m.access_read_8(address)).0.cpu),
{
    broadcast use {
        keeps_flush_sync,
        keeps_whole_read,
    };

    reveal(Machine::access_read_8);
}

pub broadcast proof fn keeps_access_read_16(m: Machine, address: u32)
    ensures
        same_run(m.cpu, (#[trigger] m.access_read_16(address)).0.cpu),
{
    broadcast use {
        keeps_flush_sync,
        keeps_access_read_8,
        keeps_whole_read,
    };

    reveal(Machine::access_read_16);
}

pub broadcast proof fn keeps_access_read_32(m: Machine, address: u32)
    ensures
        same_run(m.cpu, (#[trigger] m.access_read_32(address)).0.cpu),
{
    broadcast use {
        keeps_flush_sync,
        keeps_access_read_16,
        keeps_whole_read,
    };

    reveal(Machine::access_read_32);
}

pub broadcast proof fn keeps_frame_read_32(m: Machine, addr: u32)
    ensures
        same_run(m.cpu, (#[trigger] m.frame_read_32(addr)).0.cpu),
{
    broadcast use {
        keeps_access_read_32,
        keeps_spec_double_fault,
    };

    reveal(Machine::frame_read_32);
}

pub broadcast proof fn keeps_frame_prefetch(m: Machine, addr: u32)
    ensures
        same_run(m.cpu, (#[trigger] m.frame_prefetch(addr)).0.cpu),
{
    broadcast use {
        keeps_flush_sync,
        keeps_spec_double_fault,
    };

    reveal(Machine::frame_prefetch);
}

pub broadcast proof fn keeps_frame_refill(m: Machine)
    ensures
        same_run(m.cpu, (#[trigger] m.frame_refill()).cpu),
{
    broadcast use {
        keeps_frame_prefetch,
        keeps_spec_internal_cycles,
    };

    reveal(Machine::frame_refill);
}

pub broadcast proof fn keeps_enter_vector(m: Machine, vector: u32)
    ensures
        same_run(m.cpu, (#[trigger] m.enter_vector(vector)).cpu),
{
    broadcast use {
        keeps_begin_vector,
        keeps_frame_read_32,
        keeps_frame_refill,
    };

    reveal(Machine::enter_vector);
}

pub broadcast proof fn keeps_take_exception(m: Machine, vector: u32)
    ensures
        same_run(m.cpu, (#[trigger] m.take_exception(vector)).0.cpu),
{
    broadcast use {
        keeps_spec_double_fault,
        keeps_spec_begin_exception,
        keeps_stack_frame,
        keeps_enter_vector,
    };

    reveal(Machine::take_exception);
}

pub broadcast proof fn keeps_run_unit(m: Machine, op: UnitOp)
    ensures
        same_run(m.cpu, (#[trigger] m.run_unit(op)).0.cpu),
{
    reveal(Machine::run_unit);
}

pub broadcast proof fn keeps_exec_compare_swap(m: Machine, opcode: u16)
    ensures
        same_run(m.cpu, (#[trigger] m.exec_compare_swap(opcode)).0.cpu),
{
    broadcast use {
        keeps_take_exception,
        keeps_run_unit,
    };

    reveal(Machine::exec_compare_swap);
}

pub broadcast proof fn keeps_exec_moves(m: Machine, opcode: u16)
    ensures
        same_run(m.cpu, (#[trigger] m.exec_moves(opcode)).0.cpu),
{
    broadcast use keeps_run_unit;

    reveal(Machine::exec_moves);
}

pub broadcast proof fn keeps_exec_module(m: Machine, opcode: u16)
    ensures
        same_run(m.cpu, (#[trigger] m.exec_module(opcode)).0.cpu),
{
    broadcast use keeps_run_unit;

    reveal(Machine::exec_module);
}

pub broadcast proof fn keeps_exec_bounds_check(m: Machine, opcode: u16)
    ensures
        same_run(m.cpu, (#[trigger] m.exec_bounds_check(opcode)).0.cpu),
{
    broadcast use {
        keeps_take_exception,
        keeps_run_unit,
    };

    reveal(Machine::exec_bounds_check);
}

pub broadcast proof fn keeps_fault_frame_68000(m: Machine, address: u32, status: u16, sr: u16)
    ensures
        same_run(m.cpu, (#[trigger] m.fault_frame_68000(address, status, sr)).cpu),
{
    broadcast use {
        keeps_spec_reserve_frame,
        keeps_frame_write_16,
    };

    reveal(Machine::fault_frame_68000);
}

pub broadcast proof fn keeps_fault_frame_head(
    m: Machine,
    sp: u32,
    sr: u16,
    format: u16,
    vector: u32,
)
    ensures
        same_run(m.cpu, (#[trigger] m.fault_frame_head(sp, sr, format, vector)).cpu),
{
    broadcast use {
        keeps_frame_write_16,
        keeps_frame_write_32,
    };

    reveal(Machine::fault_frame_head);
}

pub broadcast proof fn keeps_fault_frame_68010(
    m: Machine,
    address: u32,
    status: u16,
    sr: u16,
    vector: u32,
)
    ensures
        same_run(m.cpu, (#[trigger] m.fault_frame_68010(address, status, sr, vector)).cpu),
{
    broadcast use {
        keeps_spec_reserve_frame,
        keeps_frame_write_16,
        keeps_frame_write_32,
        keeps_fault_frame_head,
    };

    reveal(Machine::fault_frame_68010);
}

pub broadcast proof fn keeps_fault_frame_68030(
    m: Machine,
    address: u32,
    write: bool,
    instruction: bool,
    size: u32,
    fc: u16,
    sr: u16,
    vector: u32,
)
    ensures
        same_run(m.cpu, (#[trigger] m.fault_frame_68030(address, write, instruction, size, fc, sr, vector)).cpu),
{
    broadcast use {
        keeps_spec_reserve_frame,
        keeps_frame_write_32,
        keeps_frame_write_16,
        keeps_fault_frame_head,
    };

    reveal(Machine::fault_frame_68030);
}

pub broadcast proof fn keeps_fault_frame_68040(
    m: Machine,
    address: u32,
    write: bool,
    size: u32,
    fc: u16,
    sr: u16,
    vector: u32,
)
    ensures
        same_run(m.cpu, (#[trigger] m.fault_frame_68040(address, write, size, fc, sr, vector)).cpu),
{
    broadcast use {
        keeps_spec_reserve_frame,
        keeps_frame_write_32,
        keeps_frame_write_16,
        keeps_fault_frame_head,
    };

    reveal(Machine::fault_frame_68040);
}

pub broadcast proof fn keeps_fault_frame_68060(
    m: Machine,
    address: u32,
    status: u32,
    sr: u16,
    vector: u32,
)
    ensures
        same_run(m.cpu, (#[trigger] m.fault_frame_68060(address, status, sr, vector)).cpu),
{
    broadcast use {
        keeps_spec_reserve_frame,
        keeps_frame_write_32,
        keeps_fault_frame_head,
    };

    reveal(Machine::fault_frame_68060);
}

pub broadcast proof fn keeps_fault_entry(
    m: Machine,
    vector: u32,
    address: u32,
    write: bool,
    instruction: bool,
    size: u32,
    cause: Option<MmuFaultCause>,
)
    ensures
        same_run(m.cpu, (#[trigger] m.fault_entry(vector, address, write, instruction, size, cause)).0.cpu),
{
    broadcast use {
        keeps_spec_begin_exception,
        keeps_fault_frame_68000,
        keeps_fault_frame_68010,
        keeps_fault_frame_68030,
        keeps_fault_frame_68040,
        keeps_fault_frame_68060,
        keeps_enter_vector,
    };

    reveal(Machine::fault_entry);
}

pub broadcast proof fn keeps_exception_address_error(
    m: Machine,
    address: u32,
    write: bool,
    instruction: bool,
)
    ensures
        same_run(m.cpu, (#[trigger] m.exception_address_error(address, write, instruction)).0.cpu),
{
    broadcast use {
        keeps_spec_double_fault,
        keeps_fault_entry,
    };

    reveal(Machine::exception_address_error);
}

pub broadcast proof fn keeps_trigger_address_error_no_rollback(
    m: Machine,
    address: u32,
    write: bool,
    instruction: bool,
)
    ensures
        same_run(m.cpu, (#[trigger] m.trigger_address_error_no_rollback(address, write, instruction)).cpu),
{
    broadcast use keeps_exception_address_error;

    reveal(Machine::trigger_address_error_no_rollback);
}

pub broadcast proof fn keeps_exception_bus_error(
    m: Machine,
    address: u32,
    write: bool,
    instruction: bool,
    size: u32,
    cause: Option<MmuFaultCause>,
)
    ensures
        same_run(m.cpu, (#[trigger] m.exception_bus_error(address, write, instruction, size, cause)).0.cpu),
{
    broadcast use keeps_fault_entry;

    reveal(Machine::exception_bus_error);
}

pub broadcast proof fn keeps_spec_mark_faulted(c: CpuCore)
    ensures
        same_run(c, (#[trigger] c.spec_mark_faulted())),
{
    reveal(CpuCore::spec_mark_faulted);
}

pub broadcast proof fn keeps_deliver_bus_error(
    m: Machine,
    address: u32,
    write: bool,
    instruction: bool,
    size: u32,
)
    ensures
        same_run(m.cpu, (#[trigger] m.deliver_bus_error(address, write, instruction, size)).cpu),
{
    broadcast use {
        keeps_exception_bus_error,
        keeps_spec_mark_faulted,
    };

    reveal(Machine::deliver_bus_error);
}

pub broadcast proof fn keeps_trigger_bus_error_no_rollback(
    m: Machine,
    address: u32,
    write: bool,
    instruction: bool,
)
    ensures
        same_run(m.cpu, (#[trigger] m.trigger_bus_error_no_rollback(address, write, instruction)).cpu),
{
    broadcast use {
        keeps_spec_double_fault,
        keeps_deliver_bus_error,
    };

    reveal(Machine::trigger_bus_error_no_rollback);
}

pub broadcast proof fn keeps_handle_mmu_fetch_fault(m: Machine, fault: MmuFault)
    ensures
        same_run(m.cpu, (#[trigger] m.handle_mmu_fetch_fault(fault)).cpu),
{
    broadcast use {
        keeps_trigger_bus_error_no_rollback,
        keeps_take_exception,
    };

    reveal(Machine::handle_mmu_fetch_fault);
}

pub broadcast proof fn keeps_fetch_direct(m: Machine)
    ensures
        same_run(m.cpu, (#[trigger] m.fetch_direct()).0.cpu),
{
    broadcast use {
        keeps_trigger_address_error_no_rollback,
        keeps_flush_sync,
        keeps_translate,
        keeps_trigger_bus_error_no_rollback,
        keeps_handle_mmu_fetch_fault,
    };

    reveal(Machine::fetch_direct);
}

pub broadcast proof fn keeps_spec_set_ccr(c: CpuCore, ccr: u8)
    ensures
        same_run(c, (#[trigger] c.spec_set_ccr(ccr))),
{
    reveal(CpuCore::spec_set_ccr);
}

pub broadcast proof fn keeps_spec_set_sm_flag_nosp(c: CpuCore, value: u32)
    ensures
        same_run(c, (#[trigger] c.spec_set_sm_flag_nosp(value))),
{
    reveal(CpuCore::spec_set_sm_flag_nosp);
}

pub broadcast proof fn keeps_spec_set_sr_noint_nosp(c: CpuCore, value: u16)
    ensures
        same_run(c, (#[trigger] c.spec_set_sr_noint_nosp(value))),
{
    broadcast use {
        keeps_spec_set_ccr,
        keeps_spec_set_sm_flag_nosp,
    };

    reveal(CpuCore::spec_set_sr_noint_nosp);
}

pub broadcast proof fn keeps_spec_roll_back(c: CpuCore)
    ensures
        same_run(c, (#[trigger] c.spec_roll_back())),
{
    broadcast use keeps_spec_set_sr_noint_nosp;

    reveal(CpuCore::spec_roll_back);
}

pub broadcast proof fn keeps_trigger_bus_error(
    m: Machine,
    address: u32,
    write: bool,
    instruction: bool,
    size: u32,
)
    ensures
        same_run(m.cpu, (#[trigger] m.trigger_bus_error(address, write, instruction, size)).cpu),
{
    broadcast use {
        keeps_spec_double_fault,
        keeps_spec_roll_back,
        keeps_deliver_bus_error,
    };

    reveal(Machine::trigger_bus_error);
}

pub broadcast proof fn keeps_prefetch_read(m: Machine, addr: u32)
    ensures
        same_run(m.cpu, (#[trigger] m.prefetch_read(addr)).0.cpu),
{
    broadcast use {
        keeps_flush_sync,
        keeps_trigger_bus_error,
    };

    reveal(Machine::prefetch_read);
}

pub broadcast proof fn keeps_consume_imm_16_no_prefetch(m: Machine)
    ensures
        same_run(m.cpu, (#[trigger] m.consume_imm_16_no_prefetch()).0.cpu),
{
    broadcast use keeps_prefetch_read;

    reveal(Machine::consume_imm_16_no_prefetch);
}

pub broadcast proof fn keeps_top_up_prefetch_one(m: Machine)
    ensures
        same_run(m.cpu, (#[trigger] m.top_up_prefetch_one()).cpu),
{
    broadcast use keeps_prefetch_read;

    reveal(Machine::top_up_prefetch_one);
}

pub broadcast proof fn keeps_read_imm_16(m: Machine)
    ensures
        same_run(m.cpu, (#[trigger] m.read_imm_16()).0.cpu),
{
    broadcast use {
        keeps_fetch_direct,
        keeps_consume_imm_16_no_prefetch,
        keeps_top_up_prefetch_one,
    };

    reveal(Machine::read_imm_16);
}

pub broadcast proof fn keeps_trigger_address_error(
    m: Machine,
    address: u32,
    write: bool,
    instruction: bool,
)
    ensures
        same_run(m.cpu, (#[trigger] m.trigger_address_error(address, write, instruction)).cpu),
{
    broadcast use {
        keeps_spec_roll_back,
        keeps_exception_address_error,
        keeps_spec_mark_faulted,
    };

    reveal(Machine::trigger_address_error);
}

pub broadcast proof fn keeps_handle_mmu_fault(
    m: Machine,
    fault: MmuFault,
    write: bool,
    instruction: bool,
    size: u32,
)
    ensures
        same_run(m.cpu, (#[trigger] m.handle_mmu_fault(fault, write, instruction, size)).cpu),
{
    broadcast use {
        keeps_trigger_bus_error,
        keeps_take_exception,
        keeps_spec_mark_faulted,
    };

    reveal(Machine::handle_mmu_fault);
}

pub broadcast proof fn keeps_deliver(m: Machine, fault: Fault)
    ensures
        same_run(m.cpu, (#[trigger] m.deliver(fault)).cpu),
{
    broadcast use {
        keeps_trigger_address_error,
        keeps_trigger_bus_error,
        keeps_handle_mmu_fault,
    };

    reveal(Machine::deliver);
}

pub broadcast proof fn keeps_deliver_if(m: Machine, fault: Option<Fault>)
    ensures
        same_run(m.cpu, (#[trigger] m.deliver_if(fault)).cpu),
{
    broadcast use keeps_deliver;

    reveal(Machine::deliver_if);
}

pub broadcast proof fn keeps_write_8(m: Machine, addr: u32, value: u8)
    ensures
        same_run(m.cpu, (#[trigger] m.write_8(addr, value)).cpu),
{
    broadcast use {
        keeps_access_write_8,
        keeps_deliver_if,
    };

    reveal(Machine::write_8);
}

pub broadcast proof fn keeps_read_8(m: Machine, addr: u32)
    ensures
        same_run(m.cpu, (#[trigger] m.read_8(addr)).0.cpu),
{
    broadcast use {
        keeps_access_read_8,
        keeps_deliver_if,
    };

    reveal(Machine::read_8);
}

pub broadcast proof fn keeps_ipl_poll_point(m: Machine)
    ensures
        same_run(m.cpu, (#[trigger] m.ipl_poll_point()).cpu),
{
    reveal(Machine::ipl_poll_point);
}

pub broadcast proof fn keeps_spec_set_d(c: CpuCore, reg: usize, value: u32)
    ensures
        same_run(c, (#[trigger] c.spec_set_d(reg, value))),
{
    reveal(CpuCore::spec_set_d);
}

pub broadcast proof fn keeps_spec_write_data_reg(c: CpuCore, reg: usize, size: Size, value: u32)
    ensures
        same_run(c, (#[trigger] c.spec_write_data_reg(reg, size, value))),
{
    broadcast use keeps_spec_set_d;

    reveal(CpuCore::spec_write_data_reg);
}

pub broadcast proof fn keeps_exec_movep(m: Machine, opcode: u16)
    ensures
        same_run(m.cpu, (#[trigger] m.exec_movep(opcode)).0.cpu),
{
    broadcast use {
        keeps_read_imm_16,
        keeps_write_8,
        keeps_read_8,
        keeps_ipl_poll_point,
        keeps_spec_set_d,
        keeps_spec_write_data_reg,
    };

    reveal(Machine::exec_movep);
}

pub broadcast proof fn keeps_exec_logic_ccr(m: Machine, operation: u16)
    ensures
        same_run(m.cpu, (#[trigger] m.exec_logic_ccr(operation)).0.cpu),
{
    broadcast use {
        keeps_read_imm_16,
        keeps_spec_set_ccr,
    };

    reveal(Machine::exec_logic_ccr);
}

pub broadcast proof fn keeps_exception_privilege(m: Machine)
    ensures
        same_run(m.cpu, (#[trigger] m.exception_privilege()).0.cpu),
{
    broadcast use keeps_take_exception;

    reveal(Machine::exception_privilege);
}

pub broadcast proof fn keeps_spec_trace_t0_sr_write(c: CpuCore)
    ensures
        same_run(c, (#[trigger] c.spec_trace_t0_sr_write())),
{
    reveal(CpuCore::spec_trace_t0_sr_write);
}

pub broadcast proof fn keeps_spec_set_sm_flag(c: CpuCore, value: u32)
    ensures
        same_run(c, (#[trigger] c.spec_set_sm_flag(value))),
{
    broadcast use {
        keeps_spec_backup_sp,
        keeps_spec_restore_sp,
    };

    reveal(CpuCore::spec_set_sm_flag);
}

pub broadcast proof fn keeps_spec_set_sr(c: CpuCore, value: u16)
    ensures
        same_run(c, (#[trigger] c.spec_set_sr(value))),
{
    broadcast use {
        keeps_spec_set_ccr,
        keeps_spec_set_sm_flag,
    };

    reveal(CpuCore::spec_set_sr);
}

pub broadcast proof fn keeps_exec_logic_sr(m: Machine, operation: u16)
    ensures
        same_run(m.cpu, (#[trigger] m.exec_logic_sr(operation)).0.cpu),
{
    broadcast use {
        keeps_exception_privilege,
        keeps_read_imm_16,
        keeps_spec_trace_t0_sr_write,
        keeps_spec_set_sr,
    };

    reveal(Machine::exec_logic_sr);
}

pub broadcast proof fn keeps_read_imm_32(m: Machine)
    ensures
        same_run(m.cpu, (#[trigger] m.read_imm_32()).0.cpu),
{
    broadcast use keeps_read_imm_16;

    reveal(Machine::read_imm_32);
}

pub broadcast proof fn keeps_read_immediate(m: Machine, size: Size)
    ensures
        same_run(m.cpu, (#[trigger] m.read_immediate(size)).0.cpu),
{
    broadcast use {
        keeps_read_imm_16,
        keeps_read_imm_32,
    };

    reveal(Machine::read_immediate);
}

pub broadcast proof fn keeps_spec_set_a(c: CpuCore, reg: usize, value: u32)
    ensures
        same_run(c, (#[trigger] c.spec_set_a(reg, value))),
{
    reveal(CpuCore::spec_set_a);
}

pub broadcast proof fn keeps_sized_displacement(m: Machine, field: u16)
    ensures
        same_run(m.cpu, (#[trigger] m.sized_displacement(field)).0.cpu),
{
    broadcast use {
        keeps_read_imm_16,
        keeps_read_imm_32,
    };

    reveal(Machine::sized_displacement);
}

pub broadcast proof fn keeps_read_32(m: Machine, addr: u32)
    ensures
        same_run(m.cpu, (#[trigger] m.read_32(addr)).0.cpu),
{
    broadcast use {
        keeps_access_read_32,
        keeps_deliver_if,
    };

    reveal(Machine::read_32);
}

pub broadcast proof fn keeps_resolve_full_index(m: Machine, base: u32, ext: u16)
    ensures
        same_run(m.cpu, (#[trigger] m.resolve_full_index(base, ext)).0.cpu),
{
    broadcast use {
        keeps_sized_displacement,
        keeps_read_32,
    };

    reveal(Machine::resolve_full_index);
}

pub broadcast proof fn keeps_resolve_index(m: Machine, base: u32)
    ensures
        same_run(m.cpu, (#[trigger] m.resolve_index(base)).0.cpu),
{
    broadcast use {
        keeps_spec_internal_cycles,
        keeps_read_imm_16,
        keeps_resolve_full_index,
    };

    reveal(Machine::resolve_index);
}

pub broadcast proof fn keeps_resolve_ea(m: Machine, mode: AddressingMode, size: Size)
    ensures
        same_run(m.cpu, (#[trigger] m.resolve_ea(mode, size)).0.cpu),
{
    broadcast use {
        keeps_spec_set_a,
        keeps_spec_internal_cycles,
        keeps_read_imm_16,
        keeps_resolve_index,
        keeps_read_imm_32,
        keeps_read_immediate,
    };

    reveal(Machine::resolve_ea);
}

pub broadcast proof fn keeps_read_16(m: Machine, addr: u32)
    ensures
        same_run(m.cpu, (#[trigger] m.read_16(addr)).0.cpu),
{
    broadcast use {
        keeps_access_read_16,
        keeps_deliver_if,
    };

    reveal(Machine::read_16);
}

pub broadcast proof fn keeps_read_sized(m: Machine, address: u32, size: Size)
    ensures
        same_run(m.cpu, (#[trigger] m.read_sized(address, size)).0.cpu),
{
    broadcast use {
        keeps_read_8,
        keeps_read_16,
        keeps_read_32,
    };

    reveal(Machine::read_sized);
}

pub broadcast proof fn keeps_read_resolved_ea(m: Machine, ea: EaResult, size: Size)
    ensures
        same_run(m.cpu, (#[trigger] m.read_resolved_ea(ea, size)).0.cpu),
{
    broadcast use keeps_read_sized;

    reveal(Machine::read_resolved_ea);
}

pub broadcast proof fn keeps_top_up_prefetch(m: Machine)
    ensures
        same_run(m.cpu, (#[trigger] m.top_up_prefetch()).cpu),
{
    broadcast use keeps_top_up_prefetch_one;

    reveal(Machine::top_up_prefetch);
}

pub broadcast proof fn keeps_finish_m68000_immediate_data_register_write(
    m: Machine,
    reg: usize,
    size: Size,
    result: u32,
)
    ensures
        same_run(m.cpu, (#[trigger] m.finish_m68000_immediate_data_register_write(reg, size, result)).cpu),
{
    broadcast use {
        keeps_top_up_prefetch,
        keeps_ipl_poll_point,
        keeps_spec_internal_cycles,
        keeps_flush_sync,
        keeps_spec_write_data_reg,
    };

    reveal(Machine::finish_m68000_immediate_data_register_write);
}

pub broadcast proof fn keeps_write_16(m: Machine, addr: u32, value: u16)
    ensures
        same_run(m.cpu, (#[trigger] m.write_16(addr, value)).cpu),
{
    broadcast use {
        keeps_access_write_16,
        keeps_deliver_if,
    };

    reveal(Machine::write_16);
}

pub broadcast proof fn keeps_write_32(m: Machine, addr: u32, value: u32)
    ensures
        same_run(m.cpu, (#[trigger] m.write_32(addr, value)).cpu),
{
    broadcast use {
        keeps_access_write_32,
        keeps_deliver_if,
    };

    reveal(Machine::write_32);
}

pub broadcast proof fn keeps_write_sized(m: Machine, address: u32, size: Size, value: u32)
    ensures
        same_run(m.cpu, (#[trigger] m.write_sized(address, size, value)).cpu),
{
    broadcast use {
        keeps_write_8,
        keeps_write_16,
        keeps_write_32,
    };

    reveal(Machine::write_sized);
}

pub broadcast proof fn keeps_write_resolved_ea(m: Machine, ea: EaResult, size: Size, value: u32)
    ensures
        same_run(m.cpu, (#[trigger] m.write_resolved_ea(ea, size, value)).cpu),
{
    broadcast use {
        keeps_spec_write_data_reg,
        keeps_spec_set_a,
        keeps_top_up_prefetch,
        keeps_write_sized,
    };

    reveal(Machine::write_resolved_ea);
}

pub broadcast proof fn keeps_finish_immediate(m: Machine, ea: EaResult, size: Size, result: u32)
    ensures
        same_run(m.cpu, (#[trigger] m.finish_immediate(ea, size, result)).cpu),
{
    broadcast use {
        keeps_finish_m68000_immediate_data_register_write,
        keeps_write_resolved_ea,
    };

    reveal(Machine::finish_immediate);
}

pub broadcast proof fn keeps_spec_set_logic_flags(c: CpuCore, result: u32, size: Size)
    ensures
        same_run(c, (#[trigger] c.spec_set_logic_flags(result, size))),
{
    reveal(CpuCore::spec_set_logic_flags);
}

pub broadcast proof fn keeps_exec_logic_immediate(
    m: Machine,
    operation: u16,
    size: Size,
    mode: AddressingMode,
)
    ensures
        same_run(m.cpu, (#[trigger] m.exec_logic_immediate(operation, size, mode)).0.cpu),
{
    broadcast use {
        keeps_read_immediate,
        keeps_resolve_ea,
        keeps_read_resolved_ea,
        keeps_finish_immediate,
        keeps_spec_set_logic_flags,
    };

    reveal(Machine::exec_logic_immediate);
}

pub broadcast proof fn keeps_exec_logic_group(m: Machine, opcode: u16)
    ensures
        same_run(m.cpu, (#[trigger] m.exec_logic_group(opcode)).0.cpu),
{
    broadcast use {
        keeps_exec_logic_ccr,
        keeps_exec_logic_sr,
        keeps_exec_logic_immediate,
    };

    reveal(Machine::exec_logic_group);
}

pub broadcast proof fn keeps_spec_set_compare_flags(
    c: CpuCore,
    src: u32,
    dst: u32,
    result: u32,
    size: Size,
)
    ensures
        same_run(c, (#[trigger] c.spec_set_compare_flags(src, dst, result, size))),
{
    reveal(CpuCore::spec_set_compare_flags);
}

pub broadcast proof fn keeps_spec_set_sub_flags(
    c: CpuCore,
    src: u32,
    dst: u32,
    result: u32,
    size: Size,
)
    ensures
        same_run(c, (#[trigger] c.spec_set_sub_flags(src, dst, result, size))),
{
    broadcast use keeps_spec_set_compare_flags;

    reveal(CpuCore::spec_set_sub_flags);
}

pub broadcast proof fn keeps_spec_exec_sub(c: CpuCore, size: Size, src: u32, dst: u32)
    ensures
        same_run(c, (#[trigger] c.spec_exec_sub(size, src, dst)).0),
{
    broadcast use keeps_spec_set_sub_flags;

    reveal(CpuCore::spec_exec_sub);
}

pub broadcast proof fn keeps_spec_set_add_flags(
    c: CpuCore,
    src: u32,
    dst: u32,
    result: u32,
    size: Size,
)
    ensures
        same_run(c, (#[trigger] c.spec_set_add_flags(src, dst, result, size))),
{
    reveal(CpuCore::spec_set_add_flags);
}

pub broadcast proof fn keeps_spec_exec_add(c: CpuCore, size: Size, src: u32, dst: u32)
    ensures
        same_run(c, (#[trigger] c.spec_exec_add(size, src, dst)).0),
{
    broadcast use keeps_spec_set_add_flags;

    reveal(CpuCore::spec_exec_add);
}

pub broadcast proof fn keeps_exec_arith_immediate(m: Machine, opcode: u16, is_sub: bool)
    ensures
        same_run(m.cpu, (#[trigger] m.exec_arith_immediate(opcode, is_sub)).0.cpu),
{
    broadcast use {
        keeps_read_immediate,
        keeps_resolve_ea,
        keeps_read_resolved_ea,
        keeps_spec_exec_sub,
        keeps_spec_exec_add,
        keeps_finish_immediate,
    };

    reveal(Machine::exec_arith_immediate);
}

pub broadcast proof fn keeps_read_ea(m: Machine, mode: AddressingMode, size: Size)
    ensures
        same_run(m.cpu, (#[trigger] m.read_ea(mode, size)).0.cpu),
{
    broadcast use {
        keeps_resolve_ea,
        keeps_read_resolved_ea,
    };

    reveal(Machine::read_ea);
}

pub broadcast proof fn keeps_spec_exec_compare(c: CpuCore, size: Size, src: u32, dst: u32)
    ensures
        same_run(c, (#[trigger] c.spec_exec_compare(size, src, dst)).0),
{
    broadcast use keeps_spec_set_compare_flags;

    reveal(CpuCore::spec_exec_compare);
}

pub broadcast proof fn keeps_exec_compare_immediate(m: Machine, opcode: u16)
    ensures
        same_run(m.cpu, (#[trigger] m.exec_compare_immediate(opcode)).0.cpu),
{
    broadcast use {
        keeps_read_immediate,
        keeps_read_ea,
        keeps_top_up_prefetch,
        keeps_ipl_poll_point,
        keeps_spec_internal_cycles,
        keeps_flush_sync,
        keeps_spec_exec_compare,
    };

    reveal(Machine::exec_compare_immediate);
}

pub broadcast proof fn keeps_write_resolved_ea_np_poll(
    m: Machine,
    ea: EaResult,
    size: Size,
    value: u32,
)
    ensures
        same_run(m.cpu, (#[trigger] m.write_resolved_ea_np_poll(ea, size, value)).cpu),
{
    broadcast use {
        keeps_top_up_prefetch,
        keeps_ipl_poll_point,
        keeps_write_resolved_ea,
    };

    reveal(Machine::write_resolved_ea_np_poll);
}

pub broadcast proof fn keeps_exec_bit_op(
    m: Machine,
    bit_op: u16,
    bit_num: u32,
    mode: AddressingMode,
)
    ensures
        same_run(m.cpu, (#[trigger] m.exec_bit_op(bit_op, bit_num, mode)).0.cpu),
{
    broadcast use {
        keeps_spec_set_d,
        keeps_resolve_ea,
        keeps_read_resolved_ea,
        keeps_write_resolved_ea_np_poll,
    };

    reveal(Machine::exec_bit_op);
}

pub broadcast proof fn keeps_exec_bit_group(m: Machine, opcode: u16)
    ensures
        same_run(m.cpu, (#[trigger] m.exec_bit_group(opcode)).0.cpu),
{
    broadcast use {
        keeps_read_imm_16,
        keeps_exec_bit_op,
    };

    reveal(Machine::exec_bit_group);
}

pub broadcast proof fn keeps_dispatch_group_0(m: Machine, opcode: u16)
    ensures
        same_run(m.cpu, (#[trigger] m.dispatch_group_0(opcode)).0.cpu),
{
    broadcast use {
        keeps_exec_compare_swap,
        keeps_exec_moves,
        keeps_exec_module,
        keeps_exec_bounds_check,
        keeps_take_exception,
        keeps_exec_movep,
        keeps_exec_logic_group,
        keeps_exec_arith_immediate,
        keeps_exec_compare_immediate,
        keeps_exec_bit_group,
    };

    reveal(Machine::dispatch_group_0);
}

pub broadcast proof fn keeps_exec_movea(m: Machine, size: Size, src: AddressingMode, reg: usize)
    ensures
        same_run(m.cpu, (#[trigger] m.exec_movea(size, src, reg)).0.cpu),
{
    broadcast use {
        keeps_read_ea,
        keeps_spec_set_a,
    };

    reveal(Machine::exec_movea);
}

pub broadcast proof fn keeps_exec_move(
    m: Machine,
    size: Size,
    src: AddressingMode,
    dst: AddressingMode,
)
    ensures
        same_run(m.cpu, (#[trigger] m.exec_move(size, src, dst)).0.cpu),
{
    broadcast use {
        keeps_read_ea,
        keeps_resolve_ea,
        keeps_write_resolved_ea,
        keeps_spec_set_logic_flags,
    };

    reveal(Machine::exec_move);
}

pub broadcast proof fn keeps_dispatch_move(m: Machine, opcode: u16, size: Size)
    ensures
        same_run(m.cpu, (#[trigger] m.dispatch_move(opcode, size)).0.cpu),
{
    broadcast use {
        keeps_exec_movea,
        keeps_exec_move,
    };

    reveal(Machine::dispatch_move);
}

pub broadcast proof fn keeps_link_frame(m: Machine, reg: usize, disp: u32)
    ensures
        same_run(m.cpu, (#[trigger] m.link_frame(reg, disp)).cpu),
{
    broadcast use {
        keeps_write_32,
        keeps_spec_set_a,
    };

    reveal(Machine::link_frame);
}

pub broadcast proof fn keeps_exec_link_long(m: Machine, reg: usize)
    ensures
        same_run(m.cpu, (#[trigger] m.exec_link_long(reg)).0.cpu),
{
    broadcast use {
        keeps_read_imm_32,
        keeps_link_frame,
    };

    reveal(Machine::exec_link_long);
}

pub broadcast proof fn keeps_exec_long_mul_div(m: Machine, opcode: u16)
    ensures
        same_run(m.cpu, (#[trigger] m.exec_long_mul_div(opcode)).0.cpu),
{
    broadcast use keeps_run_unit;

    reveal(Machine::exec_long_mul_div);
}

pub broadcast proof fn keeps_finish_m68000_tail_after_final_prefetch(
    m: Machine,
    internal_clocks: u32,
)
    ensures
        same_run(m.cpu, (#[trigger] m.finish_m68000_tail_after_final_prefetch(internal_clocks)).0.cpu),
{
    broadcast use {
        keeps_top_up_prefetch,
        keeps_ipl_poll_point,
        keeps_spec_internal_cycles,
        keeps_flush_sync,
    };

    reveal(Machine::finish_m68000_tail_after_final_prefetch);
}

pub broadcast proof fn keeps_prefetch_and_poll(m: Machine)
    ensures
        same_run(m.cpu, (#[trigger] m.prefetch_and_poll()).0.cpu),
{
    broadcast use {
        keeps_top_up_prefetch,
        keeps_ipl_poll_point,
    };

    reveal(Machine::prefetch_and_poll);
}

pub broadcast proof fn keeps_exec_move_from_sr(m: Machine, opcode: u16)
    ensures
        same_run(m.cpu, (#[trigger] m.exec_move_from_sr(opcode)).0.cpu),
{
    broadcast use {
        keeps_exception_privilege,
        keeps_finish_m68000_tail_after_final_prefetch,
        keeps_spec_write_data_reg,
        keeps_prefetch_and_poll,
        keeps_resolve_ea,
        keeps_read_resolved_ea,
        keeps_write_resolved_ea,
    };

    reveal(Machine::exec_move_from_sr);
}

pub broadcast proof fn keeps_exec_move_from_ccr(m: Machine, opcode: u16)
    ensures
        same_run(m.cpu, (#[trigger] m.exec_move_from_ccr(opcode)).0.cpu),
{
    broadcast use {
        keeps_prefetch_and_poll,
        keeps_spec_write_data_reg,
        keeps_spec_internal_cycles,
        keeps_resolve_ea,
        keeps_write_resolved_ea,
    };

    reveal(Machine::exec_move_from_ccr);
}

pub broadcast proof fn keeps_take_group2_exception(m: Machine, vector: u32)
    ensures
        same_run(m.cpu, (#[trigger] m.take_group2_exception(vector)).0.cpu),
{
    broadcast use keeps_take_exception;

    reveal(Machine::take_group2_exception);
}

pub broadcast proof fn keeps_exec_chk(m: Machine, size: Size, bound: u32, reg: usize)
    ensures
        same_run(m.cpu, (#[trigger] m.exec_chk(size, bound, reg)).0.cpu),
{
    broadcast use keeps_take_group2_exception;

    reveal(Machine::exec_chk);
}

pub broadcast proof fn keeps_exec_chk_group(m: Machine, opcode: u16, size: Size)
    ensures
        same_run(m.cpu, (#[trigger] m.exec_chk_group(opcode, size)).0.cpu),
{
    broadcast use {
        keeps_read_ea,
        keeps_exec_chk,
    };

    reveal(Machine::exec_chk_group);
}

pub broadcast proof fn keeps_exec_reset(m: Machine)
    ensures
        same_run(m.cpu, (#[trigger] m.exec_reset()).0.cpu),
{
    broadcast use {
        keeps_exception_privilege,
        keeps_spec_internal_cycles,
    };

    reveal(Machine::exec_reset);
}

pub broadcast proof fn keeps_spec_trace_t0_68040_sync(c: CpuCore)
    ensures
        same_run(c, (#[trigger] c.spec_trace_t0_68040_sync())),
{
    reveal(CpuCore::spec_trace_t0_68040_sync);
}

pub broadcast proof fn keeps_spec_stop(c: CpuCore, new_sr: u16)
    ensures
        same_run(c, (#[trigger] c.spec_stop(new_sr))),
{
    broadcast use {
        keeps_spec_clear_execution_pipeline_state,
        keeps_spec_set_sr,
    };

    reveal(CpuCore::spec_stop);
}

pub broadcast proof fn keeps_exec_stop(m: Machine)
    ensures
        same_account(m.cpu, (#[trigger] m.exec_stop()).0.cpu),
{
    broadcast use {
        keeps_exception_privilege,
        keeps_read_imm_16,
        keeps_spec_stop,
    };

    reveal(Machine::exec_stop);
}

pub broadcast proof fn keeps_pull_16(m: Machine)
    ensures
        same_run(m.cpu, (#[trigger] m.pull_16()).0.cpu),
{
    broadcast use keeps_read_16;

    reveal(Machine::pull_16);
}

pub broadcast proof fn keeps_pull_32(m: Machine)
    ensures
        same_run(m.cpu, (#[trigger] m.pull_32()).0.cpu),
{
    broadcast use keeps_read_32;

    reveal(Machine::pull_32);
}

pub broadcast proof fn keeps_prefetch_first(m: Machine)
    ensures
        same_run(m.cpu, (#[trigger] m.prefetch_first()).cpu),
{
    broadcast use keeps_prefetch_read;

    reveal(Machine::prefetch_first);
}

pub broadcast proof fn keeps_prefetch_second(m: Machine)
    ensures
        same_run(m.cpu, (#[trigger] m.prefetch_second()).cpu),
{
    broadcast use keeps_prefetch_read;

    reveal(Machine::prefetch_second);
}

pub broadcast proof fn keeps_full_prefetch(m: Machine)
    ensures
        same_run(m.cpu, (#[trigger] m.full_prefetch()).cpu),
{
    broadcast use {
        keeps_prefetch_first,
        keeps_prefetch_second,
    };

    reveal(Machine::full_prefetch);
}

pub broadcast proof fn keeps_exec_rte_68000(m: Machine)
    ensures
        same_run(m.cpu, (#[trigger] m.exec_rte_68000()).0.cpu),
{
    broadcast use {
        keeps_pull_16,
        keeps_pull_32,
        keeps_spec_set_sr,
        keeps_full_prefetch,
    };

    reveal(Machine::exec_rte_68000);
}

pub broadcast proof fn keeps_unstack_frame(m: Machine, rest: u32)
    ensures
        same_run(m.cpu, (#[trigger] m.unstack_frame(rest)).cpu),
{
    broadcast use {
        keeps_pull_16,
        keeps_pull_32,
        keeps_spec_set_sr,
    };

    reveal(Machine::unstack_frame);
}

pub broadcast proof fn keeps_exec_rte_68010(m: Machine)
    ensures
        same_run(m.cpu, (#[trigger] m.exec_rte_68010()).0.cpu),
{
    broadcast use {
        keeps_read_16,
        keeps_unstack_frame,
        keeps_full_prefetch,
        keeps_take_exception,
        keeps_pull_16,
        keeps_pull_32,
        keeps_spec_set_sr,
    };

    reveal(Machine::exec_rte_68010);
}

pub broadcast proof fn keeps_note_absorbed_write_040(m: Machine)
    ensures
        same_run(m.cpu, (#[trigger] m.note_absorbed_write_040()).cpu),
{
    broadcast use {
        keeps_read_16,
        keeps_read_32,
    };

    reveal(Machine::note_absorbed_write_040);
}

pub broadcast proof fn keeps_note_completed_cycle_030(m: Machine)
    ensures
        same_run(m.cpu, (#[trigger] m.note_completed_cycle_030()).cpu),
{
    broadcast use {
        keeps_read_16,
        keeps_read_32,
    };

    reveal(Machine::note_completed_cycle_030);
}

pub broadcast proof fn keeps_rte_frame_68020(m: Machine)
    ensures
        same_run(m.cpu, (#[trigger] m.rte_frame_68020()).0.cpu),
{
    broadcast use {
        keeps_read_16,
        keeps_unstack_frame,
        keeps_pull_16,
        keeps_spec_set_sr,
        keeps_note_absorbed_write_040,
        keeps_note_completed_cycle_030,
        keeps_take_exception,
    };

    reveal(Machine::rte_frame_68020);
}

pub broadcast proof fn keeps_rte_chain(m: Machine, fuel: nat)
    ensures
        same_run(m.cpu, (#[trigger] m.rte_chain(fuel)).0.cpu),
    decreases fuel,
{
    broadcast use {
        keeps_take_exception,
        keeps_rte_frame_68020,
    };

    if fuel > 0 {
        keeps_rte_chain(m.rte_frame_68020().0, (fuel - 1) as nat);
    }
}

pub broadcast proof fn keeps_exec_rte_68020(m: Machine)
    ensures
        same_run(m.cpu, (#[trigger] m.exec_rte_68020()).0.cpu),
{
    broadcast use keeps_rte_chain;

}

pub broadcast proof fn keeps_exec_rte(m: Machine)
    ensures
        same_run(m.cpu, (#[trigger] m.exec_rte()).0.cpu),
{
    broadcast use {
        keeps_exception_privilege,
        keeps_exec_rte_68000,
        keeps_exec_rte_68010,
        keeps_exec_rte_68020,
    };

    reveal(Machine::exec_rte);
}

pub broadcast proof fn keeps_exec_rtd(m: Machine)
    ensures
        same_run(m.cpu, (#[trigger] m.exec_rtd()).0.cpu),
{
    broadcast use {
        keeps_read_imm_16,
        keeps_pull_32,
        keeps_full_prefetch,
    };

    reveal(Machine::exec_rtd);
}

pub broadcast proof fn keeps_exec_rts(m: Machine)
    ensures
        same_run(m.cpu, (#[trigger] m.exec_rts()).0.cpu),
{
    broadcast use {
        keeps_pull_32,
        keeps_full_prefetch,
    };

    reveal(Machine::exec_rts);
}

pub broadcast proof fn keeps_exec_trapv(m: Machine)
    ensures
        same_run(m.cpu, (#[trigger] m.exec_trapv()).0.cpu),
{
    broadcast use {
        keeps_read_16,
        keeps_take_group2_exception,
    };

    reveal(Machine::exec_trapv);
}

pub broadcast proof fn keeps_exec_rtr(m: Machine)
    ensures
        same_run(m.cpu, (#[trigger] m.exec_rtr()).0.cpu),
{
    broadcast use {
        keeps_pull_16,
        keeps_spec_set_ccr,
        keeps_pull_32,
        keeps_full_prefetch,
    };

    reveal(Machine::exec_rtr);
}

pub broadcast proof fn keeps_spec_clear_branch_cache(c: CpuCore)
    ensures
        same_run(c, (#[trigger] c.spec_clear_branch_cache())),
{
    reveal(CpuCore::spec_clear_branch_cache);
}

pub broadcast proof fn keeps_spec_clear_user_branch_cache(c: CpuCore)
    ensures
        same_run(c, (#[trigger] c.spec_clear_user_branch_cache())),
{
    reveal(CpuCore::spec_clear_user_branch_cache);
}

pub broadcast proof fn keeps_spec_write_cacr(c: CpuCore, value: u32)
    ensures
        same_run(c, (#[trigger] c.spec_write_cacr(value))),
{
    broadcast use {
        keeps_spec_clear_branch_cache,
        keeps_spec_clear_user_branch_cache,
    };

    reveal(CpuCore::spec_write_cacr);
}

pub broadcast proof fn keeps_spec_write_tc(c: CpuCore, value: u32)
    ensures
        same_run(c, (#[trigger] c.spec_write_tc(value))),
{
    reveal(CpuCore::spec_write_tc);
}

pub broadcast proof fn keeps_spec_set_usp(c: CpuCore, value: u32)
    ensures
        same_run(c, (#[trigger] c.spec_set_usp(value))),
{
    reveal(CpuCore::spec_set_usp);
}

pub broadcast proof fn keeps_spec_set_msp(c: CpuCore, value: u32)
    ensures
        same_run(c, (#[trigger] c.spec_set_msp(value))),
{
    reveal(CpuCore::spec_set_msp);
}

pub broadcast proof fn keeps_spec_set_isp(c: CpuCore, value: u32)
    ensures
        same_run(c, (#[trigger] c.spec_set_isp(value))),
{
    reveal(CpuCore::spec_set_isp);
}

pub broadcast proof fn keeps_spec_store_control_register(c: CpuCore, reg: u16, value: u32)
    ensures
        same_run(c, (#[trigger] c.spec_store_control_register(reg, value))),
{
    broadcast use {
        keeps_spec_write_cacr,
        keeps_spec_write_tc,
        keeps_spec_set_usp,
        keeps_spec_set_msp,
        keeps_spec_set_isp,
    };

    reveal(CpuCore::spec_store_control_register);
}

pub broadcast proof fn keeps_spec_flush_atc(c: CpuCore)
    ensures
        same_run(c, (#[trigger] c.spec_flush_atc())),
{
    reveal(CpuCore::spec_flush_atc);
}

pub broadcast proof fn keeps_spec_write_control_register(c: CpuCore, reg: u16, value: u32)
    ensures
        same_run(c, (#[trigger] c.spec_write_control_register(reg, value))),
{
    broadcast use {
        keeps_spec_store_control_register,
        keeps_spec_flush_atc,
    };

    reveal(CpuCore::spec_write_control_register);
}

pub broadcast proof fn keeps_exec_movec(m: Machine, to_control: bool)
    ensures
        same_run(m.cpu, (#[trigger] m.exec_movec(to_control)).0.cpu),
{
    broadcast use {
        keeps_exception_privilege,
        keeps_read_imm_16,
        keeps_spec_write_control_register,
        keeps_spec_set_d,
        keeps_spec_set_a,
        keeps_spec_trace_t0_68040_sync,
    };

    reveal(Machine::exec_movec);
}

pub broadcast proof fn keeps_dispatch_system(m: Machine, opcode: u16)
    ensures
        same_account(m.cpu, (#[trigger] m.dispatch_system(opcode)).0.cpu),
        opcode != 0x4E72 ==> m.dispatch_system(opcode).0.cpu.ppc == m.cpu.ppc,
{
    broadcast use {
        keeps_exec_reset,
        keeps_spec_trace_t0_68040_sync,
        keeps_exec_stop,
        keeps_exec_rte,
        keeps_exec_rtd,
        keeps_exec_rts,
        keeps_exec_trapv,
        keeps_exec_rtr,
        keeps_exec_movec,
    };

    reveal(Machine::dispatch_system);
}

pub broadcast proof fn keeps_exec_halt(m: Machine)
    ensures
        same_run(m.cpu, (#[trigger] m.exec_halt()).0.cpu),
{
    broadcast use keeps_exception_privilege;

    reveal(Machine::exec_halt);
}

pub broadcast proof fn keeps_spec_exec_extb(c: CpuCore, reg: usize)
    ensures
        same_run(c, (#[trigger] c.spec_exec_extb(reg)).0),
{
    broadcast use {
        keeps_spec_set_d,
        keeps_spec_set_logic_flags,
    };

    reveal(CpuCore::spec_exec_extb);
}

pub broadcast proof fn keeps_get_ea_address(m: Machine, mode: AddressingMode, size: Size)
    ensures
        same_run(m.cpu, (#[trigger] m.get_ea_address(mode, size)).0.cpu),
{
    broadcast use keeps_resolve_ea;

    reveal(Machine::get_ea_address);
}

pub broadcast proof fn keeps_exec_lea(m: Machine, mode: AddressingMode, reg: usize)
    ensures
        same_run(m.cpu, (#[trigger] m.exec_lea(mode, reg)).0.cpu),
{
    broadcast use {
        keeps_get_ea_address,
        keeps_spec_set_a,
    };

    reveal(Machine::exec_lea);
}

pub broadcast proof fn keeps_push_32(m: Machine, value: u32)
    ensures
        same_run(m.cpu, (#[trigger] m.push_32(value)).cpu),
{
    broadcast use keeps_write_32;

    reveal(Machine::push_32);
}

pub broadcast proof fn keeps_exec_pea(m: Machine, mode: AddressingMode)
    ensures
        same_run(m.cpu, (#[trigger] m.exec_pea(mode)).0.cpu),
{
    broadcast use {
        keeps_get_ea_address,
        keeps_push_32,
    };

    reveal(Machine::exec_pea);
}

pub broadcast proof fn keeps_exec_address_group(m: Machine, opcode: u16, is_lea: bool)
    ensures
        same_run(m.cpu, (#[trigger] m.exec_address_group(opcode, is_lea)).0.cpu),
{
    broadcast use {
        keeps_exec_lea,
        keeps_exec_pea,
    };

    reveal(Machine::exec_address_group);
}

pub broadcast proof fn keeps_spec_exec_subx(c: CpuCore, size: Size, src: u32, dst: u32)
    ensures
        same_run(c, (#[trigger] c.spec_exec_subx(size, src, dst)).0),
{
    broadcast use keeps_spec_set_sub_flags;

    reveal(CpuCore::spec_exec_subx);
}

pub broadcast proof fn keeps_finish_unary(m: Machine, ea: EaResult, size: Size, result: u32)
    ensures
        same_run(m.cpu, (#[trigger] m.finish_unary(ea, size, result)).cpu),
{
    broadcast use {
        keeps_top_up_prefetch,
        keeps_ipl_poll_point,
        keeps_spec_internal_cycles,
        keeps_flush_sync,
        keeps_spec_write_data_reg,
        keeps_write_resolved_ea_np_poll,
    };

    reveal(Machine::finish_unary);
}

pub broadcast proof fn keeps_exec_negx(m: Machine, size: Size, mode: AddressingMode)
    ensures
        same_run(m.cpu, (#[trigger] m.exec_negx(size, mode)).0.cpu),
{
    broadcast use {
        keeps_resolve_ea,
        keeps_read_resolved_ea,
        keeps_spec_exec_subx,
        keeps_finish_unary,
    };

    reveal(Machine::exec_negx);
}

pub broadcast proof fn keeps_exec_clr(m: Machine, size: Size, mode: AddressingMode)
    ensures
        same_run(m.cpu, (#[trigger] m.exec_clr(size, mode)).0.cpu),
{
    broadcast use {
        keeps_resolve_ea,
        keeps_read_resolved_ea,
        keeps_finish_unary,
        keeps_spec_set_logic_flags,
    };

    reveal(Machine::exec_clr);
}

pub broadcast proof fn keeps_exec_neg(m: Machine, size: Size, mode: AddressingMode)
    ensures
        same_run(m.cpu, (#[trigger] m.exec_neg(size, mode)).0.cpu),
{
    broadcast use {
        keeps_resolve_ea,
        keeps_read_resolved_ea,
        keeps_finish_unary,
        keeps_spec_set_sub_flags,
    };

    reveal(Machine::exec_neg);
}

pub broadcast proof fn keeps_exec_not(m: Machine, size: Size, mode: AddressingMode)
    ensures
        same_run(m.cpu, (#[trigger] m.exec_not(size, mode)).0.cpu),
{
    broadcast use {
        keeps_resolve_ea,
        keeps_read_resolved_ea,
        keeps_finish_unary,
        keeps_spec_set_logic_flags,
    };

    reveal(Machine::exec_not);
}

pub broadcast proof fn keeps_exec_unary_group(m: Machine, opcode: u16)
    ensures
        same_run(m.cpu, (#[trigger] m.exec_unary_group(opcode)).0.cpu),
{
    broadcast use {
        keeps_exec_negx,
        keeps_exec_clr,
        keeps_exec_neg,
        keeps_exec_not,
    };

    reveal(Machine::exec_unary_group);
}

pub broadcast proof fn keeps_exec_move_to_status(m: Machine, opcode: u16, whole: bool)
    ensures
        same_run(m.cpu, (#[trigger] m.exec_move_to_status(opcode, whole)).0.cpu),
{
    broadcast use {
        keeps_exception_privilege,
        keeps_read_ea,
        keeps_spec_internal_cycles,
        keeps_flush_sync,
        keeps_spec_trace_t0_sr_write,
        keeps_spec_set_sr,
        keeps_spec_set_ccr,
        keeps_full_prefetch,
    };

    reveal(Machine::exec_move_to_status);
}

pub broadcast proof fn keeps_spec_set_decimal_flags(c: CpuCore, result: (u32, bool, bool))
    ensures
        same_run(c, (#[trigger] c.spec_set_decimal_flags(result))),
{
    reveal(CpuCore::spec_set_decimal_flags);
}

pub broadcast proof fn keeps_spec_exec_sbcd(c: CpuCore, src: u32, dst: u32)
    ensures
        same_run(c, (#[trigger] c.spec_exec_sbcd(src, dst)).0),
{
    broadcast use keeps_spec_set_decimal_flags;

    reveal(CpuCore::spec_exec_sbcd);
}

pub broadcast proof fn keeps_exec_nbcd(m: Machine, mode: AddressingMode)
    ensures
        same_run(m.cpu, (#[trigger] m.exec_nbcd(mode)).0.cpu),
{
    broadcast use {
        keeps_resolve_ea,
        keeps_read_resolved_ea,
        keeps_spec_exec_sbcd,
        keeps_write_resolved_ea_np_poll,
    };

    reveal(Machine::exec_nbcd);
}

pub broadcast proof fn keeps_exec_nbcd_group(m: Machine, opcode: u16)
    ensures
        same_run(m.cpu, (#[trigger] m.exec_nbcd_group(opcode)).0.cpu),
{
    broadcast use keeps_exec_nbcd;

    reveal(Machine::exec_nbcd_group);
}

pub broadcast proof fn keeps_spec_exec_swap(c: CpuCore, reg: usize)
    ensures
        same_run(c, (#[trigger] c.spec_exec_swap(reg)).0),
{
    broadcast use {
        keeps_spec_set_d,
        keeps_spec_set_logic_flags,
    };

    reveal(CpuCore::spec_exec_swap);
}

pub broadcast proof fn keeps_spec_exec_ext(c: CpuCore, size: Size, reg: usize)
    ensures
        same_run(c, (#[trigger] c.spec_exec_ext(size, reg)).0),
{
    broadcast use {
        keeps_spec_write_data_reg,
        keeps_spec_set_logic_flags,
        keeps_spec_set_d,
    };

    reveal(CpuCore::spec_exec_ext);
}

pub broadcast proof fn keeps_movem_load_one(m: Machine, size: Size, register: usize, address: u32)
    ensures
        same_run(m.cpu, (#[trigger] m.movem_load_one(size, register, address)).0.cpu),
{
    broadcast use keeps_read_sized;

    reveal(Machine::movem_load_one);
}

pub broadcast proof fn keeps_movem_load(m: Machine, size: Size, mask: u16, address: u32, n: nat)
    ensures
        same_run(m.cpu, (#[trigger] m.movem_load(size, mask, address, n)).0.cpu),
    decreases n,
{
    broadcast use keeps_movem_load_one;

    if n > 0 {
        keeps_movem_load(m, size, mask, address, (n - 1) as nat);
    }
}

pub broadcast proof fn keeps_movem_load_all(m: Machine, size: Size, mask: u16, address: u32)
    ensures
        same_run(m.cpu, (#[trigger] m.movem_load_all(size, mask, address)).0.cpu),
{
    broadcast use keeps_movem_load;

}

pub broadcast proof fn keeps_exec_movem_to_reg(
    m: Machine,
    size: Size,
    mode: AddressingMode,
    mask: u16,
)
    ensures
        same_run(m.cpu, (#[trigger] m.exec_movem_to_reg(size, mode, mask)).0.cpu),
{
    broadcast use {
        keeps_movem_load_all,
        keeps_spec_set_a,
        keeps_get_ea_address,
    };

    reveal(Machine::exec_movem_to_reg);
}

pub broadcast proof fn keeps_movem_store_one(
    m: Machine,
    size: Size,
    register: usize,
    address: u32,
    reverse: bool,
)
    ensures
        same_run(m.cpu, (#[trigger] m.movem_store_one(size, register, address, reverse)).0.cpu),
{
    broadcast use keeps_write_sized;

    reveal(Machine::movem_store_one);
}

pub broadcast proof fn keeps_movem_store(
    m: Machine,
    size: Size,
    mask: u16,
    address: u32,
    reverse: bool,
    n: nat,
)
    ensures
        same_run(m.cpu, (#[trigger] m.movem_store(size, mask, address, reverse, n)).0.cpu),
    decreases n,
{
    broadcast use keeps_movem_store_one;

    if n > 0 {
        keeps_movem_store(m, size, mask, address, reverse, (n - 1) as nat);
    }
}

pub broadcast proof fn keeps_movem_store_all(
    m: Machine,
    size: Size,
    mask: u16,
    address: u32,
    reverse: bool,
)
    ensures
        same_run(m.cpu, (#[trigger] m.movem_store_all(size, mask, address, reverse)).0.cpu),
{
    broadcast use keeps_movem_store;

}

pub broadcast proof fn keeps_exec_movem_to_mem(
    m: Machine,
    size: Size,
    mode: AddressingMode,
    mask: u16,
)
    ensures
        same_run(m.cpu, (#[trigger] m.exec_movem_to_mem(size, mode, mask)).0.cpu),
{
    broadcast use {
        keeps_movem_store_all,
        keeps_spec_set_a,
        keeps_get_ea_address,
    };

    reveal(Machine::exec_movem_to_mem);
}

pub broadcast proof fn keeps_exec_movem_group(m: Machine, opcode: u16, is_load: bool)
    ensures
        same_run(m.cpu, (#[trigger] m.exec_movem_group(opcode, is_load)).0.cpu),
{
    broadcast use {
        keeps_read_imm_16,
        keeps_exec_movem_to_reg,
        keeps_exec_movem_to_mem,
    };

    reveal(Machine::exec_movem_group);
}

pub broadcast proof fn keeps_dispatch_group_48(m: Machine, opcode: u16)
    ensures
        same_run(m.cpu, (#[trigger] m.dispatch_group_48(opcode)).0.cpu),
{
    broadcast use {
        keeps_exec_nbcd_group,
        keeps_spec_exec_swap,
        keeps_exec_address_group,
        keeps_spec_exec_ext,
        keeps_exec_movem_group,
    };

    reveal(Machine::dispatch_group_48);
}

pub broadcast proof fn keeps_exec_tas(m: Machine, mode: AddressingMode)
    ensures
        same_run(m.cpu, (#[trigger] m.exec_tas(mode)).0.cpu),
{
    broadcast use {
        keeps_resolve_ea,
        keeps_read_resolved_ea,
        keeps_spec_set_logic_flags,
        keeps_write_resolved_ea,
    };

    reveal(Machine::exec_tas);
}

pub broadcast proof fn keeps_exec_tas_group(m: Machine, opcode: u16)
    ensures
        same_run(m.cpu, (#[trigger] m.exec_tas_group(opcode)).0.cpu),
{
    broadcast use keeps_exec_tas;

    reveal(Machine::exec_tas_group);
}

pub broadcast proof fn keeps_exec_tst(m: Machine, size: Size, mode: AddressingMode)
    ensures
        same_run(m.cpu, (#[trigger] m.exec_tst(size, mode)).0.cpu),
{
    broadcast use {
        keeps_read_ea,
        keeps_spec_set_logic_flags,
    };

    reveal(Machine::exec_tst);
}

pub broadcast proof fn keeps_exec_tst_group(m: Machine, opcode: u16)
    ensures
        same_run(m.cpu, (#[trigger] m.exec_tst_group(opcode)).0.cpu),
{
    broadcast use keeps_exec_tst;

    reveal(Machine::exec_tst_group);
}

pub broadcast proof fn keeps_exec_link(m: Machine, reg: usize)
    ensures
        same_run(m.cpu, (#[trigger] m.exec_link(reg)).0.cpu),
{
    broadcast use {
        keeps_read_imm_16,
        keeps_link_frame,
    };

    reveal(Machine::exec_link);
}

pub broadcast proof fn keeps_exec_unlk(m: Machine, reg: usize)
    ensures
        same_run(m.cpu, (#[trigger] m.exec_unlk(reg)).0.cpu),
{
    broadcast use {
        keeps_pull_32,
        keeps_spec_set_a,
    };

    reveal(Machine::exec_unlk);
}

pub broadcast proof fn keeps_exec_move_usp(m: Machine, opcode: u16)
    ensures
        same_run(m.cpu, (#[trigger] m.exec_move_usp(opcode)).0.cpu),
{
    broadcast use {
        keeps_exception_privilege,
        keeps_spec_internal_cycles,
        keeps_top_up_prefetch,
        keeps_ipl_poll_point,
        keeps_spec_set_usp,
        keeps_spec_trace_t0_68040_sync,
        keeps_spec_set_a,
    };

    reveal(Machine::exec_move_usp);
}

pub broadcast proof fn keeps_exec_jump(m: Machine, opcode: u16, is_call: bool)
    ensures
        same_run(m.cpu, (#[trigger] m.exec_jump(opcode, is_call)).0.cpu),
{
    broadcast use {
        keeps_get_ea_address,
        keeps_spec_internal_cycles,
        keeps_push_32,
        keeps_full_prefetch,
    };

    reveal(Machine::exec_jump);
}

pub broadcast proof fn keeps_dispatch_group_4e(m: Machine, opcode: u16)
    ensures
        same_run(m.cpu, (#[trigger] m.dispatch_group_4e(opcode)).0.cpu),
{
    broadcast use {
        keeps_exec_link,
        keeps_exec_unlk,
        keeps_exec_move_usp,
        keeps_exec_jump,
    };

    reveal(Machine::dispatch_group_4e);
}

pub broadcast proof fn keeps_dispatch_one_operand(m: Machine, opcode: u16)
    ensures
        same_run(m.cpu, (#[trigger] m.dispatch_one_operand(opcode)).0.cpu),
{
    broadcast use {
        keeps_exec_unary_group,
        keeps_exec_move_to_status,
        keeps_dispatch_group_48,
        keeps_exec_tas_group,
        keeps_exec_tst_group,
        keeps_exec_movem_group,
        keeps_dispatch_group_4e,
    };

    reveal(Machine::dispatch_one_operand);
}

pub broadcast proof fn keeps_dispatch_group_4(m: Machine, opcode: u16)
    ensures
        same_account(m.cpu, (#[trigger] m.dispatch_group_4(opcode)).0.cpu),
        opcode != 0x4E72 ==> m.dispatch_group_4(opcode).0.cpu.ppc == m.cpu.ppc,
{
    broadcast use {
        keeps_exec_link_long,
        keeps_exec_long_mul_div,
        keeps_exec_move_from_sr,
        keeps_exec_move_from_ccr,
        keeps_exec_chk_group,
        keeps_dispatch_system,
        keeps_exec_halt,
        keeps_spec_exec_extb,
        keeps_exec_address_group,
        keeps_dispatch_one_operand,
    };

    reveal(Machine::dispatch_group_4);
}

pub broadcast proof fn keeps_exec_quick(
    m: Machine,
    size: Size,
    data: u32,
    mode: AddressingMode,
    is_sub: bool,
)
    ensures
        same_run(m.cpu, (#[trigger] m.exec_quick(size, data, mode, is_sub)).0.cpu),
{
    broadcast use {
        keeps_spec_set_a,
        keeps_resolve_ea,
        keeps_read_resolved_ea,
        keeps_spec_exec_sub,
        keeps_spec_exec_add,
        keeps_write_resolved_ea,
        keeps_write_resolved_ea_np_poll,
    };

    reveal(Machine::exec_quick);
}

pub broadcast proof fn keeps_exec_quick_group(m: Machine, opcode: u16)
    ensures
        same_run(m.cpu, (#[trigger] m.exec_quick_group(opcode)).0.cpu),
{
    broadcast use keeps_exec_quick;

    reveal(Machine::exec_quick_group);
}

pub broadcast proof fn keeps_exec_trapcc(m: Machine, opcode: u16)
    ensures
        same_run(m.cpu, (#[trigger] m.exec_trapcc(opcode)).0.cpu),
{
    broadcast use {
        keeps_read_imm_16,
        keeps_read_imm_32,
        keeps_take_group2_exception,
    };

    reveal(Machine::exec_trapcc);
}

pub broadcast proof fn keeps_exec_dbcc_looping(m: Machine, opcode: u16)
    ensures
        same_run(m.cpu, (#[trigger] m.exec_dbcc_looping(opcode)).0.cpu),
{
    broadcast use {
        keeps_full_prefetch,
        keeps_spec_write_data_reg,
    };

    reveal(Machine::exec_dbcc_looping);
}

pub broadcast proof fn keeps_spec_enter_loop_mode(c: CpuCore, opcode: u16, disp: u16)
    ensures
        same_run(c, (#[trigger] c.spec_enter_loop_mode(opcode, disp))),
{
    reveal(CpuCore::spec_enter_loop_mode);
}

pub broadcast proof fn keeps_exec_dbcc(m: Machine, opcode: u16)
    ensures
        same_run(m.cpu, (#[trigger] m.exec_dbcc(opcode)).0.cpu),
{
    broadcast use {
        keeps_exec_dbcc_looping,
        keeps_spec_internal_cycles,
        keeps_read_imm_16,
        keeps_spec_write_data_reg,
        keeps_full_prefetch,
        keeps_spec_enter_loop_mode,
        keeps_flush_sync,
    };

    reveal(Machine::exec_dbcc);
}

pub broadcast proof fn keeps_exec_scc(m: Machine, opcode: u16)
    ensures
        same_run(m.cpu, (#[trigger] m.exec_scc(opcode)).0.cpu),
{
    broadcast use {
        keeps_top_up_prefetch,
        keeps_ipl_poll_point,
        keeps_spec_internal_cycles,
        keeps_flush_sync,
        keeps_spec_write_data_reg,
        keeps_resolve_ea,
        keeps_read_resolved_ea,
        keeps_write_resolved_ea_np_poll,
    };

    reveal(Machine::exec_scc);
}

pub broadcast proof fn keeps_dispatch_group_5(m: Machine, opcode: u16)
    ensures
        same_run(m.cpu, (#[trigger] m.dispatch_group_5(opcode)).0.cpu),
{
    broadcast use {
        keeps_exec_quick_group,
        keeps_exec_trapcc,
        keeps_exec_dbcc,
        keeps_exec_scc,
    };

    reveal(Machine::dispatch_group_5);
}

pub broadcast proof fn keeps_dispatch_group_6(m: Machine, opcode: u16)
    ensures
        same_run(m.cpu, (#[trigger] m.dispatch_group_6(opcode)).0.cpu),
{
    broadcast use {
        keeps_spec_internal_cycles,
        keeps_read_imm_16,
        keeps_read_imm_32,
        keeps_push_32,
        keeps_full_prefetch,
    };

    reveal(Machine::dispatch_group_6);
}

pub broadcast proof fn keeps_spec_dispatch_moveq(c: CpuCore, opcode: u16)
    ensures
        same_run(c, (#[trigger] c.spec_dispatch_moveq(opcode)).0),
{
    broadcast use {
        keeps_spec_set_d,
        keeps_spec_set_logic_flags,
    };

    reveal(CpuCore::spec_dispatch_moveq);
}

pub broadcast proof fn keeps_spec_exec_or(c: CpuCore, size: Size, src: u32, dst: u32)
    ensures
        same_run(c, (#[trigger] c.spec_exec_or(size, src, dst)).0),
{
    broadcast use keeps_spec_set_logic_flags;

    reveal(CpuCore::spec_exec_or);
}

pub broadcast proof fn keeps_spec_exec_and(c: CpuCore, size: Size, src: u32, dst: u32)
    ensures
        same_run(c, (#[trigger] c.spec_exec_and(size, src, dst)).0),
{
    broadcast use keeps_spec_set_logic_flags;

    reveal(CpuCore::spec_exec_and);
}

pub broadcast proof fn keeps_finish_m68000_alu_ea_dn_long_tail(
    m: Machine,
    mode: AddressingMode,
    size: Size,
)
    ensures
        same_run(m.cpu, (#[trigger] m.finish_m68000_alu_ea_dn_long_tail(mode, size)).0.cpu),
{
    broadcast use keeps_finish_m68000_tail_after_final_prefetch;

    reveal(Machine::finish_m68000_alu_ea_dn_long_tail);
}

pub broadcast proof fn keeps_exec_alu_to_register(m: Machine, opcode: u16)
    ensures
        same_run(m.cpu, (#[trigger] m.exec_alu_to_register(opcode)).0.cpu),
{
    broadcast use {
        keeps_read_ea,
        keeps_spec_exec_or,
        keeps_spec_exec_sub,
        keeps_spec_exec_and,
        keeps_spec_exec_add,
        keeps_spec_write_data_reg,
        keeps_finish_m68000_alu_ea_dn_long_tail,
    };

    reveal(Machine::exec_alu_to_register);
}

pub broadcast proof fn keeps_spec_finish_division(
    c: CpuCore,
    reg: usize,
    quotient: u32,
    remainder: u32,
    overflow: bool,
)
    ensures
        same_run(c, (#[trigger] c.spec_finish_division(reg, quotient, remainder, overflow))),
{
    broadcast use {
        keeps_spec_set_d,
        keeps_spec_set_logic_flags,
    };

    reveal(CpuCore::spec_finish_division);
}

pub broadcast proof fn keeps_exec_divs(m: Machine, mode: AddressingMode, reg: usize)
    ensures
        same_run(m.cpu, (#[trigger] m.exec_divs(mode, reg)).0.cpu),
{
    broadcast use {
        keeps_read_ea,
        keeps_take_group2_exception,
        keeps_spec_finish_division,
    };

    reveal(Machine::exec_divs);
}

pub broadcast proof fn keeps_exec_divu(m: Machine, mode: AddressingMode, reg: usize)
    ensures
        same_run(m.cpu, (#[trigger] m.exec_divu(mode, reg)).0.cpu),
{
    broadcast use {
        keeps_read_ea,
        keeps_take_group2_exception,
        keeps_spec_finish_division,
    };

    reveal(Machine::exec_divu);
}

pub broadcast proof fn keeps_exec_muls(m: Machine, mode: AddressingMode, reg: usize)
    ensures
        same_run(m.cpu, (#[trigger] m.exec_muls(mode, reg)).0.cpu),
{
    broadcast use {
        keeps_read_ea,
        keeps_spec_set_d,
        keeps_spec_set_logic_flags,
    };

    reveal(Machine::exec_muls);
}

pub broadcast proof fn keeps_exec_mulu(m: Machine, mode: AddressingMode, reg: usize)
    ensures
        same_run(m.cpu, (#[trigger] m.exec_mulu(mode, reg)).0.cpu),
{
    broadcast use {
        keeps_read_ea,
        keeps_spec_set_d,
        keeps_spec_set_logic_flags,
    };

    reveal(Machine::exec_mulu);
}

pub broadcast proof fn keeps_exec_mul_div(m: Machine, opcode: u16)
    ensures
        same_run(m.cpu, (#[trigger] m.exec_mul_div(opcode)).0.cpu),
{
    broadcast use {
        keeps_exec_divs,
        keeps_exec_divu,
        keeps_exec_muls,
        keeps_exec_mulu,
    };

    reveal(Machine::exec_mul_div);
}

pub broadcast proof fn keeps_spec_exec_sbcd_rr(c: CpuCore, src: usize, dst: usize)
    ensures
        same_run(c, (#[trigger] c.spec_exec_sbcd_rr(src, dst)).0),
{
    broadcast use {
        keeps_spec_exec_sbcd,
        keeps_spec_write_data_reg,
    };

    reveal(CpuCore::spec_exec_sbcd_rr);
}

pub broadcast proof fn keeps_spec_exec_abcd(c: CpuCore, src: u32, dst: u32)
    ensures
        same_run(c, (#[trigger] c.spec_exec_abcd(src, dst)).0),
{
    broadcast use keeps_spec_set_decimal_flags;

    reveal(CpuCore::spec_exec_abcd);
}

pub broadcast proof fn keeps_exec_decimal_mm(
    m: Machine,
    src_reg: usize,
    dst_reg: usize,
    is_sub: bool,
)
    ensures
        same_run(m.cpu, (#[trigger] m.exec_decimal_mm(src_reg, dst_reg, is_sub)).0.cpu),
{
    broadcast use {
        keeps_resolve_ea,
        keeps_read_resolved_ea,
        keeps_spec_exec_sbcd,
        keeps_spec_exec_abcd,
        keeps_write_resolved_ea,
    };

    reveal(Machine::exec_decimal_mm);
}

pub broadcast proof fn keeps_exec_pack(m: Machine, opcode: u16)
    ensures
        same_run(m.cpu, (#[trigger] m.exec_pack(opcode)).0.cpu),
{
    broadcast use {
        keeps_read_imm_16,
        keeps_run_unit,
    };

    reveal(Machine::exec_pack);
}

pub broadcast proof fn keeps_exec_alu_to_memory(m: Machine, opcode: u16)
    ensures
        same_run(m.cpu, (#[trigger] m.exec_alu_to_memory(opcode)).0.cpu),
{
    broadcast use {
        keeps_resolve_ea,
        keeps_read_resolved_ea,
        keeps_spec_exec_or,
        keeps_spec_exec_sub,
        keeps_spec_exec_and,
        keeps_spec_exec_add,
        keeps_write_resolved_ea_np_poll,
    };

    reveal(Machine::exec_alu_to_memory);
}

pub broadcast proof fn keeps_dispatch_group_8(m: Machine, opcode: u16)
    ensures
        same_run(m.cpu, (#[trigger] m.dispatch_group_8(opcode)).0.cpu),
{
    broadcast use {
        keeps_exec_alu_to_register,
        keeps_exec_mul_div,
        keeps_spec_exec_sbcd_rr,
        keeps_exec_decimal_mm,
        keeps_exec_pack,
        keeps_exec_alu_to_memory,
    };

    reveal(Machine::dispatch_group_8);
}

pub broadcast proof fn keeps_spec_exec_suba(c: CpuCore, size: Size, src: u32, reg: usize)
    ensures
        same_run(c, (#[trigger] c.spec_exec_suba(size, src, reg)).0),
{
    broadcast use keeps_spec_set_a;

    reveal(CpuCore::spec_exec_suba);
}

pub broadcast proof fn keeps_spec_exec_adda(c: CpuCore, size: Size, src: u32, reg: usize)
    ensures
        same_run(c, (#[trigger] c.spec_exec_adda(size, src, reg)).0),
{
    broadcast use keeps_spec_set_a;

    reveal(CpuCore::spec_exec_adda);
}

pub broadcast proof fn keeps_finish_m68000_adda_suba_tail(
    m: Machine,
    mode: AddressingMode,
    size: Size,
)
    ensures
        same_run(m.cpu, (#[trigger] m.finish_m68000_adda_suba_tail(mode, size)).0.cpu),
{
    broadcast use keeps_finish_m68000_tail_after_final_prefetch;

    reveal(Machine::finish_m68000_adda_suba_tail);
}

pub broadcast proof fn keeps_exec_alu_to_address(m: Machine, opcode: u16)
    ensures
        same_run(m.cpu, (#[trigger] m.exec_alu_to_address(opcode)).0.cpu),
{
    broadcast use {
        keeps_read_ea,
        keeps_spec_exec_suba,
        keeps_spec_exec_adda,
        keeps_finish_m68000_adda_suba_tail,
    };

    reveal(Machine::exec_alu_to_address);
}

pub broadcast proof fn keeps_spec_exec_addx(c: CpuCore, size: Size, src: u32, dst: u32)
    ensures
        same_run(c, (#[trigger] c.spec_exec_addx(size, src, dst)).0),
{
    broadcast use keeps_spec_set_add_flags;

    reveal(CpuCore::spec_exec_addx);
}

pub broadcast proof fn keeps_finish_m68000_addx_subx_register_tail(m: Machine, size: Size)
    ensures
        same_run(m.cpu, (#[trigger] m.finish_m68000_addx_subx_register_tail(size)).0.cpu),
{
    broadcast use {
        keeps_top_up_prefetch,
        keeps_ipl_poll_point,
        keeps_spec_internal_cycles,
        keeps_flush_sync,
    };

    reveal(Machine::finish_m68000_addx_subx_register_tail);
}

pub broadcast proof fn keeps_exec_extended_rr(m: Machine, opcode: u16)
    ensures
        same_run(m.cpu, (#[trigger] m.exec_extended_rr(opcode)).0.cpu),
{
    broadcast use {
        keeps_spec_exec_subx,
        keeps_spec_exec_addx,
        keeps_finish_m68000_addx_subx_register_tail,
        keeps_spec_write_data_reg,
    };

    reveal(Machine::exec_extended_rr);
}

pub broadcast proof fn keeps_read_long_predec_68000(m: Machine, addr: u32)
    ensures
        same_run(m.cpu, (#[trigger] m.read_long_predec_68000(addr)).0.cpu),
{
    broadcast use keeps_read_16;

    reveal(Machine::read_long_predec_68000);
}

pub broadcast proof fn keeps_read_extended_operand(m: Machine, ea: EaResult, size: Size)
    ensures
        same_run(m.cpu, (#[trigger] m.read_extended_operand(ea, size)).0.cpu),
{
    broadcast use {
        keeps_read_long_predec_68000,
        keeps_read_resolved_ea,
    };

    reveal(Machine::read_extended_operand);
}

pub broadcast proof fn keeps_write_long_mm_interleaved_68000(m: Machine, addr: u32, value: u32)
    ensures
        same_run(m.cpu, (#[trigger] m.write_long_mm_interleaved_68000(addr, value)).cpu),
{
    broadcast use {
        keeps_write_16,
        keeps_ipl_poll_point,
        keeps_top_up_prefetch,
    };

    reveal(Machine::write_long_mm_interleaved_68000);
}

pub broadcast proof fn keeps_write_extended_result(
    m: Machine,
    ea: EaResult,
    size: Size,
    result: u32,
)
    ensures
        same_run(m.cpu, (#[trigger] m.write_extended_result(ea, size, result)).cpu),
{
    broadcast use {
        keeps_write_long_mm_interleaved_68000,
        keeps_write_resolved_ea,
    };

    reveal(Machine::write_extended_result);
}

pub broadcast proof fn keeps_exec_extended_mm(m: Machine, opcode: u16)
    ensures
        same_run(m.cpu, (#[trigger] m.exec_extended_mm(opcode)).0.cpu),
{
    broadcast use {
        keeps_resolve_ea,
        keeps_spec_internal_cycles,
        keeps_read_extended_operand,
        keeps_ipl_poll_point,
        keeps_trigger_address_error,
        keeps_spec_exec_subx,
        keeps_spec_exec_addx,
        keeps_write_extended_result,
    };

    reveal(Machine::exec_extended_mm);
}

pub broadcast proof fn keeps_dispatch_add_sub(m: Machine, opcode: u16)
    ensures
        same_run(m.cpu, (#[trigger] m.dispatch_add_sub(opcode)).0.cpu),
{
    broadcast use {
        keeps_exec_alu_to_register,
        keeps_exec_alu_to_address,
        keeps_exec_extended_rr,
        keeps_exec_extended_mm,
        keeps_exec_alu_to_memory,
    };

    reveal(Machine::dispatch_add_sub);
}

pub broadcast proof fn keeps_dispatch_group_9(m: Machine, opcode: u16)
    ensures
        same_run(m.cpu, (#[trigger] m.dispatch_group_9(opcode)).0.cpu),
{
    broadcast use keeps_dispatch_add_sub;

    reveal(Machine::dispatch_group_9);
}

pub broadcast proof fn keeps_exec_compare_register(m: Machine, opcode: u16)
    ensures
        same_run(m.cpu, (#[trigger] m.exec_compare_register(opcode)).0.cpu),
{
    broadcast use {
        keeps_read_ea,
        keeps_spec_exec_compare,
        keeps_finish_m68000_tail_after_final_prefetch,
    };

    reveal(Machine::exec_compare_register);
}

pub broadcast proof fn keeps_spec_exec_compare_addr(c: CpuCore, size: Size, src: u32, reg: usize)
    ensures
        same_run(c, (#[trigger] c.spec_exec_compare_addr(size, src, reg)).0),
{
    broadcast use keeps_spec_set_compare_flags;

    reveal(CpuCore::spec_exec_compare_addr);
}

pub broadcast proof fn keeps_exec_compare_address(m: Machine, opcode: u16)
    ensures
        same_run(m.cpu, (#[trigger] m.exec_compare_address(opcode)).0.cpu),
{
    broadcast use {
        keeps_read_ea,
        keeps_spec_exec_compare_addr,
        keeps_finish_m68000_tail_after_final_prefetch,
    };

    reveal(Machine::exec_compare_address);
}

pub broadcast proof fn keeps_exec_compare_memory(m: Machine, opcode: u16)
    ensures
        same_run(m.cpu, (#[trigger] m.exec_compare_memory(opcode)).0.cpu),
{
    broadcast use {
        keeps_resolve_ea,
        keeps_read_resolved_ea,
        keeps_ipl_poll_point,
        keeps_spec_exec_compare,
    };

    reveal(Machine::exec_compare_memory);
}

pub broadcast proof fn keeps_exec_eor(m: Machine, opcode: u16)
    ensures
        same_run(m.cpu, (#[trigger] m.exec_eor(opcode)).0.cpu),
{
    broadcast use {
        keeps_spec_set_logic_flags,
        keeps_finish_m68000_tail_after_final_prefetch,
        keeps_spec_write_data_reg,
        keeps_resolve_ea,
        keeps_read_resolved_ea,
        keeps_write_resolved_ea_np_poll,
    };

    reveal(Machine::exec_eor);
}

pub broadcast proof fn keeps_dispatch_group_b(m: Machine, opcode: u16)
    ensures
        same_run(m.cpu, (#[trigger] m.dispatch_group_b(opcode)).0.cpu),
{
    broadcast use {
        keeps_exec_compare_register,
        keeps_exec_compare_address,
        keeps_exec_compare_memory,
        keeps_exec_eor,
    };

    reveal(Machine::dispatch_group_b);
}

pub broadcast proof fn keeps_spec_exec_abcd_rr(c: CpuCore, src: usize, dst: usize)
    ensures
        same_run(c, (#[trigger] c.spec_exec_abcd_rr(src, dst)).0),
{
    broadcast use {
        keeps_spec_exec_abcd,
        keeps_spec_write_data_reg,
    };

    reveal(CpuCore::spec_exec_abcd_rr);
}

pub broadcast proof fn keeps_spec_exec_exg(c: CpuCore, opcode: u16)
    ensures
        same_run(c, (#[trigger] c.spec_exec_exg(opcode)).0),
{
    broadcast use {
        keeps_spec_set_d,
        keeps_spec_set_a,
    };

    reveal(CpuCore::spec_exec_exg);
}

pub broadcast proof fn keeps_dispatch_group_c(m: Machine, opcode: u16)
    ensures
        same_run(m.cpu, (#[trigger] m.dispatch_group_c(opcode)).0.cpu),
{
    broadcast use {
        keeps_exec_alu_to_register,
        keeps_exec_mul_div,
        keeps_spec_exec_abcd_rr,
        keeps_exec_decimal_mm,
        keeps_spec_exec_exg,
        keeps_exec_alu_to_memory,
    };

    reveal(Machine::dispatch_group_c);
}

pub broadcast proof fn keeps_dispatch_group_d(m: Machine, opcode: u16)
    ensures
        same_run(m.cpu, (#[trigger] m.dispatch_group_d(opcode)).0.cpu),
{
    broadcast use keeps_dispatch_add_sub;

    reveal(Machine::dispatch_group_d);
}

pub broadcast proof fn keeps_exec_bitfield(m: Machine, opcode: u16)
    ensures
        same_run(m.cpu, (#[trigger] m.exec_bitfield(opcode)).0.cpu),
{
    broadcast use keeps_run_unit;

    reveal(Machine::exec_bitfield);
}

pub broadcast proof fn keeps_spec_set_shift_flags(c: CpuCore, result: u32, size: Size, out: bool)
    ensures
        same_run(c, (#[trigger] c.spec_set_shift_flags(result, size, out))),
{
    reveal(CpuCore::spec_set_shift_flags);
}

pub broadcast proof fn keeps_spec_exec_asr(c: CpuCore, size: Size, count: u32, value: u32)
    ensures
        same_run(c, (#[trigger] c.spec_exec_asr(size, count, value)).0),
{
    broadcast use keeps_spec_set_shift_flags;

    reveal(CpuCore::spec_exec_asr);
}

pub broadcast proof fn keeps_spec_exec_asl(c: CpuCore, size: Size, count: u32, value: u32)
    ensures
        same_run(c, (#[trigger] c.spec_exec_asl(size, count, value)).0),
{
    broadcast use keeps_spec_set_shift_flags;

    reveal(CpuCore::spec_exec_asl);
}

pub broadcast proof fn keeps_spec_exec_lsr(c: CpuCore, size: Size, count: u32, value: u32)
    ensures
        same_run(c, (#[trigger] c.spec_exec_lsr(size, count, value)).0),
{
    broadcast use keeps_spec_set_shift_flags;

    reveal(CpuCore::spec_exec_lsr);
}

pub broadcast proof fn keeps_spec_exec_lsl(c: CpuCore, size: Size, count: u32, value: u32)
    ensures
        same_run(c, (#[trigger] c.spec_exec_lsl(size, count, value)).0),
{
    broadcast use keeps_spec_set_shift_flags;

    reveal(CpuCore::spec_exec_lsl);
}

pub broadcast proof fn keeps_spec_rotate_through_extend(
    c: CpuCore,
    size: Size,
    steps: u32,
    value: u32,
)
    ensures
        same_run(c, (#[trigger] c.spec_rotate_through_extend(size, steps, value)).0),
{
    broadcast use keeps_spec_set_shift_flags;

    reveal(CpuCore::spec_rotate_through_extend);
}

pub broadcast proof fn keeps_spec_exec_roxr(c: CpuCore, size: Size, count: u32, value: u32)
    ensures
        same_run(c, (#[trigger] c.spec_exec_roxr(size, count, value)).0),
{
    broadcast use keeps_spec_rotate_through_extend;

    reveal(CpuCore::spec_exec_roxr);
}

pub broadcast proof fn keeps_spec_exec_roxl(c: CpuCore, size: Size, count: u32, value: u32)
    ensures
        same_run(c, (#[trigger] c.spec_exec_roxl(size, count, value)).0),
{
    broadcast use keeps_spec_rotate_through_extend;

    reveal(CpuCore::spec_exec_roxl);
}

pub broadcast proof fn keeps_spec_exec_ror(c: CpuCore, size: Size, count: u32, value: u32)
    ensures
        same_run(c, (#[trigger] c.spec_exec_ror(size, count, value)).0),
{
    broadcast use keeps_spec_set_shift_flags;

    reveal(CpuCore::spec_exec_ror);
}

pub broadcast proof fn keeps_spec_exec_rol(c: CpuCore, size: Size, count: u32, value: u32)
    ensures
        same_run(c, (#[trigger] c.spec_exec_rol(size, count, value)).0),
{
    broadcast use keeps_spec_set_shift_flags;

    reveal(CpuCore::spec_exec_rol);
}

pub broadcast proof fn keeps_spec_exec_shift(
    c: CpuCore,
    op: u16,
    direction: u16,
    size: Size,
    count: u32,
    value: u32,
)
    ensures
        same_run(c, (#[trigger] c.spec_exec_shift(op, direction, size, count, value)).0),
{
    broadcast use {
        keeps_spec_exec_asr,
        keeps_spec_exec_asl,
        keeps_spec_exec_lsr,
        keeps_spec_exec_lsl,
        keeps_spec_exec_roxr,
        keeps_spec_exec_roxl,
        keeps_spec_exec_ror,
        keeps_spec_exec_rol,
    };

    reveal(CpuCore::spec_exec_shift);
}

pub broadcast proof fn keeps_exec_shift_memory(m: Machine, opcode: u16)
    ensures
        same_run(m.cpu, (#[trigger] m.exec_shift_memory(opcode)).0.cpu),
{
    broadcast use {
        keeps_resolve_ea,
        keeps_read_resolved_ea,
        keeps_spec_exec_shift,
        keeps_write_resolved_ea_np_poll,
    };

    reveal(Machine::exec_shift_memory);
}

pub broadcast proof fn keeps_spec_exec_shift_register(c: CpuCore, opcode: u16)
    ensures
        same_run(c, (#[trigger] c.spec_exec_shift_register(opcode)).0),
{
    broadcast use {
        keeps_spec_exec_shift,
        keeps_spec_write_data_reg,
    };

    reveal(CpuCore::spec_exec_shift_register);
}

pub broadcast proof fn keeps_dispatch_group_e(m: Machine, opcode: u16)
    ensures
        same_run(m.cpu, (#[trigger] m.dispatch_group_e(opcode)).0.cpu),
{
    broadcast use {
        keeps_exec_bitfield,
        keeps_exec_shift_memory,
        keeps_spec_exec_shift_register,
    };

    reveal(Machine::dispatch_group_e);
}

pub broadcast proof fn keeps_run_fpu(m: Machine, op: UnitOp)
    ensures
        same_run(m.cpu, (#[trigger] m.run_fpu(op)).0.cpu),
{
    reveal(Machine::run_fpu);
}

pub broadcast proof fn keeps_exec_cache_maintenance(m: Machine, opcode: u16)
    ensures
        same_run(m.cpu, (#[trigger] m.exec_cache_maintenance(opcode)).0.cpu),
{
    broadcast use keeps_take_exception;

    reveal(Machine::exec_cache_maintenance);
}

pub broadcast proof fn keeps_translate_for_dfc(m: Machine, addr: u32, write: bool)
    ensures
        same_run(m.cpu, (#[trigger] m.translate_for_dfc(addr, write)).0.cpu),
{
    reveal(Machine::translate_for_dfc);
}

pub broadcast proof fn keeps_exec_plpa(m: Machine, opcode: u16)
    ensures
        same_run(m.cpu, (#[trigger] m.exec_plpa(opcode)).0.cpu),
{
    broadcast use {
        keeps_translate_for_dfc,
        keeps_spec_set_a,
        keeps_handle_mmu_fault,
    };

    reveal(Machine::exec_plpa);
}

pub broadcast proof fn keeps_exec_ptest_040(m: Machine, opcode: u16)
    ensures
        same_run(m.cpu, (#[trigger] m.exec_ptest_040(opcode)).0.cpu),
{
    broadcast use {
        keeps_translate_for_dfc,
        keeps_spec_trace_t0_68040_sync,
    };

    reveal(Machine::exec_ptest_040);
}

pub broadcast proof fn keeps_exec_mmu_maintenance(m: Machine, opcode: u16)
    ensures
        same_run(m.cpu, (#[trigger] m.exec_mmu_maintenance(opcode)).0.cpu),
{
    broadcast use {
        keeps_take_exception,
        keeps_exec_plpa,
        keeps_spec_flush_atc,
        keeps_exec_ptest_040,
        keeps_spec_trace_t0_68040_sync,
    };

    reveal(Machine::exec_mmu_maintenance);
}

pub broadcast proof fn keeps_exec_lpstop(m: Machine)
    ensures
        same_run(m.cpu, (#[trigger] m.exec_lpstop()).0.cpu),
{
    broadcast use {
        keeps_read_16,
        keeps_exception_privilege,
        keeps_read_imm_16,
        keeps_spec_stop,
    };

    reveal(Machine::exec_lpstop);
}

pub broadcast proof fn keeps_exec_ptest_030(m: Machine, opcode: u16, modes: u16)
    ensures
        same_run(m.cpu, (#[trigger] m.exec_ptest_030(opcode, modes)).0.cpu),
{
    broadcast use {
        keeps_resolve_ea,
        keeps_spec_set_a,
    };

    reveal(Machine::exec_ptest_030);
}

pub broadcast proof fn keeps_exec_pmove_to_ea(m: Machine, ea: EaResult, preg: u16)
    ensures
        same_run(m.cpu, (#[trigger] m.exec_pmove_to_ea(ea, preg)).0.cpu),
{
    broadcast use {
        keeps_write_resolved_ea,
        keeps_write_32,
    };

    reveal(Machine::exec_pmove_to_ea);
}

pub broadcast proof fn keeps_exec_pmove_from_ea(m: Machine, ea: EaResult, preg: u16)
    ensures
        same_run(m.cpu, (#[trigger] m.exec_pmove_from_ea(ea, preg)).0.cpu),
{
    broadcast use {
        keeps_read_resolved_ea,
        keeps_read_32,
    };

    reveal(Machine::exec_pmove_from_ea);
}

pub broadcast proof fn keeps_exec_mmu_op0(m: Machine, opcode: u16)
    ensures
        same_run(m.cpu, (#[trigger] m.exec_mmu_op0(opcode)).0.cpu),
{
    broadcast use {
        keeps_exception_privilege,
        keeps_read_imm_16,
        keeps_exec_ptest_030,
        keeps_resolve_ea,
        keeps_exec_pmove_to_ea,
        keeps_exec_pmove_from_ea,
    };

    reveal(Machine::exec_mmu_op0);
}

pub broadcast proof fn keeps_exec_fpu_conditional(m: Machine, opcode: u16)
    ensures
        same_run(m.cpu, (#[trigger] m.exec_fpu_conditional(opcode)).0.cpu),
{
    broadcast use {
        keeps_read_imm_16,
        keeps_run_fpu,
    };

    reveal(Machine::exec_fpu_conditional);
}

pub broadcast proof fn keeps_dispatch_fpu(m: Machine, opcode: u16)
    ensures
        same_run(m.cpu, (#[trigger] m.dispatch_fpu(opcode)).0.cpu),
{
    broadcast use {
        keeps_exec_fpu_conditional,
        keeps_read_imm_16,
        keeps_run_fpu,
        keeps_read_imm_32,
    };

    reveal(Machine::dispatch_fpu);
}

pub broadcast proof fn keeps_dispatch_group_f(m: Machine, opcode: u16)
    ensures
        same_run(m.cpu, (#[trigger] m.dispatch_group_f(opcode)).0.cpu),
{
    broadcast use {
        keeps_exception_privilege,
        keeps_run_fpu,
        keeps_exec_cache_maintenance,
        keeps_exec_mmu_maintenance,
        keeps_exec_lpstop,
        keeps_exec_mmu_op0,
        keeps_dispatch_fpu,
    };

    reveal(Machine::dispatch_group_f);
}

pub broadcast proof fn keeps_dispatch_instruction(m: Machine, opcode: u16)
    ensures
        same_account(m.cpu, (#[trigger] m.dispatch_instruction(opcode)).0.cpu),
        opcode != 0x4E72 ==> m.dispatch_instruction(opcode).0.cpu.ppc == m.cpu.ppc,
{
    broadcast use {
        keeps_dispatch_group_0,
        keeps_dispatch_move,
        keeps_dispatch_group_4,
        keeps_dispatch_group_5,
        keeps_dispatch_group_6,
        keeps_spec_dispatch_moveq,
        keeps_dispatch_group_8,
        keeps_dispatch_group_9,
        keeps_dispatch_group_b,
        keeps_dispatch_group_c,
        keeps_dispatch_group_d,
        keeps_dispatch_group_e,
        keeps_dispatch_group_f,
    };

    reveal(Machine::dispatch_instruction);
}

pub broadcast proof fn keeps_spec_exec_simple_move(
    c: CpuCore,
    src: DirectReg,
    dst: DirectReg,
    size: Size,
)
    ensures
        same_run(c, (#[trigger] c.spec_exec_simple_move(src, dst, size)).0),
{
    broadcast use {
        keeps_spec_write_data_reg,
        keeps_spec_set_logic_flags,
        keeps_spec_set_a,
    };

    reveal(CpuCore::spec_exec_simple_move);
}

pub broadcast proof fn keeps_spec_exec_simple_unary(c: CpuCore, op: UnaryOp, reg: usize, size: Size)
    ensures
        same_run(c, (#[trigger] c.spec_exec_simple_unary(op, reg, size)).0),
{
    broadcast use {
        keeps_spec_write_data_reg,
        keeps_spec_set_logic_flags,
        keeps_spec_set_sub_flags,
        keeps_spec_exec_subx,
    };

    reveal(CpuCore::spec_exec_simple_unary);
}

pub broadcast proof fn keeps_spec_exec_simple_quick(
    c: CpuCore,
    reg: usize,
    data: u32,
    size: Size,
    is_sub: bool,
)
    ensures
        same_run(c, (#[trigger] c.spec_exec_simple_quick(reg, data, size, is_sub)).0),
{
    broadcast use {
        keeps_spec_set_sub_flags,
        keeps_spec_write_data_reg,
        keeps_spec_set_add_flags,
    };

    reveal(CpuCore::spec_exec_simple_quick);
}

pub broadcast proof fn keeps_spec_apply_binary_to_reg(
    c: CpuCore,
    op: BinaryOp,
    size: Size,
    src: u32,
    dst: u32,
    reg: usize,
)
    ensures
        same_run(c, (#[trigger] c.spec_apply_binary_to_reg(op, size, src, dst, reg))),
{
    broadcast use {
        keeps_spec_set_add_flags,
        keeps_spec_write_data_reg,
        keeps_spec_set_sub_flags,
        keeps_spec_set_logic_flags,
        keeps_spec_set_compare_flags,
    };

    reveal(CpuCore::spec_apply_binary_to_reg);
}

pub broadcast proof fn keeps_spec_apply_addr_op(
    c: CpuCore,
    op: AddrOp,
    size: Size,
    operand: u32,
    reg: usize,
)
    ensures
        same_run(c, (#[trigger] c.spec_apply_addr_op(op, size, operand, reg)).0),
{
    broadcast use {
        keeps_spec_set_a,
        keeps_spec_set_compare_flags,
    };

    reveal(CpuCore::spec_apply_addr_op);
}

pub broadcast proof fn keeps_spec_exec_simple_extended(
    c: CpuCore,
    src: usize,
    dst: usize,
    size: Size,
    is_sub: bool,
)
    ensures
        same_run(c, (#[trigger] c.spec_exec_simple_extended(src, dst, size, is_sub)).0),
{
    broadcast use {
        keeps_spec_exec_subx,
        keeps_spec_exec_addx,
        keeps_spec_write_data_reg,
    };

    reveal(CpuCore::spec_exec_simple_extended);
}

pub broadcast proof fn keeps_spec_exec_simple_bit(c: CpuCore, op: BitOp, bit_reg: usize, dst: usize)
    ensures
        same_run(c, (#[trigger] c.spec_exec_simple_bit(op, bit_reg, dst)).0),
{
    broadcast use keeps_spec_set_d;

    reveal(CpuCore::spec_exec_simple_bit);
}

pub broadcast proof fn keeps_spec_exec_simple_scc(c: CpuCore, condition: u8, reg: usize)
    ensures
        same_run(c, (#[trigger] c.spec_exec_simple_scc(condition, reg)).0),
{
    broadcast use keeps_spec_write_data_reg;

    reveal(CpuCore::spec_exec_simple_scc);
}

pub broadcast proof fn keeps_spec_exec_simple_shift(
    c: CpuCore,
    reg: usize,
    size: Size,
    count_or_reg: u8,
    count_is_register: bool,
    direction: u8,
    op: u8,
)
    ensures
        same_run(c, (#[trigger] c.spec_exec_simple_shift(reg, size, count_or_reg, count_is_register, direction, op)).0),
{
    broadcast use {
        keeps_spec_exec_shift,
        keeps_spec_write_data_reg,
    };

    reveal(CpuCore::spec_exec_simple_shift);
}

pub broadcast proof fn keeps_spec_exec_simple_branch(c: CpuCore, condition: u8, displacement: i8)
    ensures
        same_run(c, (#[trigger] c.spec_exec_simple_branch(condition, displacement)).0),
{
    reveal(CpuCore::spec_exec_simple_branch);
}

pub broadcast proof fn keeps_spec_exec_simple(c: CpuCore, op: DecodedSimpleOp)
    ensures
        same_run(c, (#[trigger] c.spec_exec_simple(op)).0),
{
    broadcast use {
        keeps_spec_exec_simple_move,
        keeps_spec_set_d,
        keeps_spec_set_logic_flags,
        keeps_spec_exec_simple_unary,
        keeps_spec_exec_swap,
        keeps_spec_exec_ext,
        keeps_spec_exec_extb,
        keeps_spec_set_a,
        keeps_spec_exec_simple_quick,
        keeps_spec_apply_binary_to_reg,
        keeps_spec_apply_addr_op,
        keeps_spec_exec_simple_extended,
        keeps_spec_exec_simple_bit,
        keeps_spec_exec_sbcd_rr,
        keeps_spec_exec_abcd_rr,
        keeps_spec_exec_exg,
        keeps_spec_exec_simple_scc,
        keeps_spec_exec_simple_shift,
        keeps_spec_exec_simple_branch,
    };

    reveal(CpuCore::spec_exec_simple);
}

pub broadcast proof fn keeps_dispatch_boundary_hook_decoded(m: Machine, opcode: u16)
    ensures
        same_account(m.cpu, (#[trigger] m.dispatch_boundary_hook_decoded(opcode)).0.cpu),
        opcode != 0x4E72 ==> m.dispatch_boundary_hook_decoded(opcode).0.cpu.ppc == m.cpu.ppc,
{
    broadcast use {
        keeps_dispatch_instruction,
        keeps_exec_clr,
        keeps_spec_exec_simple,
    };

    reveal(Machine::dispatch_boundary_hook_decoded);
}

pub broadcast proof fn keeps_dispatch_fetched(m: Machine, boundary: bool)
    ensures
        same_account(m.cpu, (#[trigger] m.dispatch_fetched(boundary)).0.cpu),
        m.cpu.ir as u16 != 0x4E72 ==> m.dispatch_fetched(boundary).0.cpu.ppc == m.cpu.ppc,
{
    broadcast use {
        keeps_dispatch_boundary_hook_decoded,
        keeps_dispatch_instruction,
    };

    reveal(Machine::dispatch_fetched);
}

pub broadcast proof fn keeps_spec_prepare_rollback_snapshot_full(c: CpuCore)
    ensures
        same_run(c, (#[trigger] c.spec_prepare_rollback_snapshot_full())),
{
    reveal(CpuCore::spec_prepare_rollback_snapshot_full);
}

pub broadcast proof fn keeps_fetch_opcode(m: Machine)
    ensures
        same_run(m.cpu, (#[trigger] m.fetch_opcode()).0.cpu),
{
    broadcast use {
        keeps_fetch_direct,
        keeps_trigger_address_error_no_rollback,
        keeps_full_prefetch,
        keeps_consume_imm_16_no_prefetch,
    };

    reveal(Machine::fetch_opcode);
}

pub broadcast proof fn keeps_spec_end_faulted_instruction(c: CpuCore)
    ensures
        same_run(c, (#[trigger] c.spec_end_faulted_instruction())),
{
    broadcast use keeps_spec_set_sr_noint_nosp;

    reveal(CpuCore::spec_end_faulted_instruction);
}

pub broadcast proof fn keeps_begin_instruction(m: Machine)
    ensures
        same_account(m.cpu, (#[trigger] m.begin_instruction()).0.cpu),
        m.begin_instruction().0.cpu.ppc == m.cpu.pc,
{
    broadcast use {
        keeps_spec_prepare_rollback_snapshot_full,
        keeps_fetch_opcode,
        keeps_spec_end_faulted_instruction,
    };

    reveal(Machine::begin_instruction);
}

pub broadcast proof fn keeps_finalize_cycles(m: Machine, cycles: i32, fetch_cached: bool)
    ensures
        same_run(m.cpu, (#[trigger] m.finalize_cycles(cycles, fetch_cached)).0.cpu),
{
    reveal(Machine::finalize_cycles);
}

pub broadcast proof fn keeps_settle_step(m: Machine)
    ensures
        same_run(m.cpu, (#[trigger] m.settle_step()).0.cpu),
{
    broadcast use {
        keeps_spec_end_faulted_instruction,
        keeps_top_up_prefetch,
    };

    reveal(Machine::settle_step);
}

pub broadcast proof fn keeps_spec_check_trace(c: CpuCore)
    ensures
        same_run(c, (#[trigger] c.spec_check_trace()).0),
{
    reveal(CpuCore::spec_check_trace);
}

pub broadcast proof fn keeps_exception_trace(m: Machine)
    ensures
        same_run(m.cpu, (#[trigger] m.exception_trace()).0.cpu),
{
    broadcast use keeps_take_exception;

    reveal(Machine::exception_trace);
}

pub broadcast proof fn keeps_interrupt_frame_68000(m: Machine, level: u8, sr: u16)
    ensures
        same_run(m.cpu, (#[trigger] m.interrupt_frame_68000(level, sr)).0.cpu),
{
    broadcast use {
        keeps_spec_internal_cycles,
        keeps_spec_set_a,
        keeps_write_16,
        keeps_flush_sync,
    };

    reveal(Machine::interrupt_frame_68000);
}

pub broadcast proof fn keeps_interrupt_frame_68010(m: Machine, level: u8, sr: u16)
    ensures
        same_run(m.cpu, (#[trigger] m.interrupt_frame_68010(level, sr)).0.cpu),
{
    broadcast use {
        keeps_spec_internal_cycles,
        keeps_flush_sync,
        keeps_spec_set_a,
        keeps_write_16,
    };

    reveal(Machine::interrupt_frame_68010);
}

pub broadcast proof fn keeps_push_16(m: Machine, value: u16)
    ensures
        same_run(m.cpu, (#[trigger] m.push_16(value)).cpu),
{
    broadcast use keeps_write_16;

    reveal(Machine::push_16);
}

pub broadcast proof fn keeps_interrupt_frame_68020(m: Machine, level: u8, sr: u16)
    ensures
        same_run(m.cpu, (#[trigger] m.interrupt_frame_68020(level, sr)).0.cpu),
{
    broadcast use {
        keeps_push_16,
        keeps_push_32,
    };

    reveal(Machine::interrupt_frame_68020);
}

pub broadcast proof fn keeps_leave_master_state(m: Machine, sr: u16, pc: u32, vector: u32)
    ensures
        same_run(m.cpu, (#[trigger] m.leave_master_state(sr, pc, vector)).cpu),
{
    broadcast use {
        keeps_spec_set_sm_flag,
        keeps_push_16,
        keeps_push_32,
    };

    reveal(Machine::leave_master_state);
}

pub broadcast proof fn keeps_jump_vector(m: Machine, vector: u32)
    ensures
        same_run(m.cpu, (#[trigger] m.jump_vector(vector)).cpu),
{
    broadcast use {
        keeps_begin_vector,
        keeps_read_32,
        keeps_prefetch_first,
        keeps_spec_internal_cycles,
        keeps_prefetch_second,
    };

    reveal(Machine::jump_vector);
}

pub broadcast proof fn keeps_spec_charge(c: CpuCore, cycles: i32)
    ensures
        same_slice(c, (#[trigger] c.spec_charge(cycles))),
{
}

pub broadcast proof fn keeps_service_interrupt(m: Machine, level: u8)
    ensures
        same_slice(m.cpu, (#[trigger] m.service_interrupt(level)).cpu),
{
    broadcast use {
        keeps_spec_set_s_flag,
        keeps_interrupt_frame_68000,
        keeps_interrupt_frame_68010,
        keeps_interrupt_frame_68020,
        keeps_leave_master_state,
        keeps_jump_vector,
        keeps_spec_charge,
    };

    reveal(Machine::service_interrupt);
}

pub broadcast proof fn keeps_check_and_service_interrupts(m: Machine)
    ensures
        same_slice(m.cpu, (#[trigger] m.check_and_service_interrupts()).0.cpu),
{
    broadcast use keeps_service_interrupt;

    reveal(Machine::check_and_service_interrupts);
}

pub broadcast proof fn keeps_close_step(m: Machine, cycles: i32)
    ensures
        same_slice(m.cpu, (#[trigger] m.close_step(cycles)).0.cpu),
        m.cpu.run.int_level == 0 ==> same_run(m.cpu, m.close_step(cycles).0.cpu),
        m.close_step(cycles).1 is Completed,
{
    broadcast use {
        keeps_spec_check_trace,
        keeps_exception_trace,
        keeps_check_and_service_interrupts,
    };

    reveal(Machine::close_step);
}

pub broadcast proof fn keeps_finish_step(m: Machine, cycles: i32)
    ensures
        same_slice(m.cpu, (#[trigger] m.finish_step(cycles)).0.cpu),
        m.cpu.run.int_level == 0 ==> same_run(m.cpu, m.finish_step(cycles).0.cpu),
        m.finish_step(cycles).1 is Completed,
{
    broadcast use {
        keeps_settle_step,
        keeps_close_step,
    };

    reveal(Machine::finish_step);
}

pub broadcast proof fn keeps_spec_set_precise_bus(c: CpuCore, precise: bool)
    ensures
        same_run(c, (#[trigger] c.spec_set_precise_bus(precise))),
{
    broadcast use keeps_spec_clear_execution_pipeline_state;

    reveal(CpuCore::spec_set_precise_bus);
}

pub broadcast proof fn keeps_stopped_supervisor_check(m: Machine)
    ensures
        same_account(m.cpu, (#[trigger] m.stopped_supervisor_check()).0.cpu),
{
    broadcast use {
        keeps_spec_internal_cycles,
        keeps_exception_privilege,
    };

    reveal(Machine::stopped_supervisor_check);
}

pub broadcast proof fn keeps_step_with_dispatch(m: Machine, boundary: bool)
    ensures
        same_slice(m.cpu, (#[trigger] m.step_with_dispatch(boundary)).0.cpu),
        m.cpu.run.int_level == 0 || m.step_with_dispatch(boundary).1 !is Completed ==> same_account(
            m.cpu,
            m.step_with_dispatch(boundary).0.cpu,
        ),
        m.cpu.run.int_level == 0 && m.cpu.run.stopped == 0 && m.on_cpu(
            m.cpu.spec_set_precise_bus(true),
        ).begin_instruction().0.cpu.ir as u16 != 0x4E72 ==> m.step_with_dispatch(boundary).0.cpu.ppc
            == m.cpu.pc,
        m.cpu.run.stopped == 0 ==> m.step_with_dispatch(boundary).1 !is Stopped,
{
    broadcast use {
        keeps_spec_set_precise_bus,
        keeps_stopped_supervisor_check,
        keeps_begin_instruction,
        keeps_dispatch_fetched,
        keeps_finalize_cycles,
        keeps_finish_step,
        keeps_spec_clear_execution_pipeline_state,
    };

    reveal(Machine::step_with_dispatch);
    reveal(CpuCore::spec_set_precise_bus);
    reveal(CpuCore::spec_clear_execution_pipeline_state);
}

pub broadcast proof fn keeps_exception_1010(m: Machine)
    ensures
        same_run(m.cpu, (#[trigger] m.exception_1010()).0.cpu),
{
    broadcast use keeps_take_exception;

    reveal(Machine::exception_1010);
}

pub broadcast proof fn keeps_take_aline_exception(m: Machine)
    ensures
        same_run(m.cpu, (#[trigger] m.take_aline_exception()).0.cpu),
{
    broadcast use keeps_exception_1010;

    reveal(Machine::take_aline_exception);
}

pub broadcast proof fn keeps_exception_1111(m: Machine)
    ensures
        same_run(m.cpu, (#[trigger] m.exception_1111()).0.cpu),
{
    broadcast use keeps_take_exception;

    reveal(Machine::exception_1111);
}

pub broadcast proof fn keeps_take_fline_exception(m: Machine)
    ensures
        same_run(m.cpu, (#[trigger] m.take_fline_exception()).0.cpu),
{
    broadcast use keeps_exception_1111;

    reveal(Machine::take_fline_exception);
}

pub broadcast proof fn keeps_take_trap_exception(m: Machine, trap_num: u8)
    ensures
        same_run(m.cpu, (#[trigger] m.take_trap_exception(trap_num)).0.cpu),
{
    broadcast use keeps_take_exception;

    reveal(Machine::take_trap_exception);
}

pub broadcast proof fn keeps_take_bkpt_exception(m: Machine)
    ensures
        same_run(m.cpu, (#[trigger] m.take_bkpt_exception()).0.cpu),
{
    broadcast use keeps_take_exception;

    reveal(Machine::take_bkpt_exception);
}

pub broadcast proof fn keeps_take_illegal_exception(m: Machine)
    ensures
        same_run(m.cpu, (#[trigger] m.take_illegal_exception()).0.cpu),
{
    broadcast use keeps_take_exception;

    reveal(Machine::take_illegal_exception);
}

pub broadcast proof fn keeps_take_trap(m: Machine, outcome: InternalStepResult, fetch_cached: bool)
    ensures
        same_run(m.cpu, (#[trigger] m.take_trap(outcome, fetch_cached)).0.cpu),
{
    broadcast use {
        keeps_finalize_cycles,
        keeps_take_aline_exception,
        keeps_take_fline_exception,
        keeps_take_trap_exception,
        keeps_take_bkpt_exception,
        keeps_take_illegal_exception,
    };

    reveal(Machine::take_trap);
}

pub broadcast proof fn keeps_execute_one(m: Machine)
    ensures
        same_slice(m.cpu, (#[trigger] m.execute_one()).0.cpu),
        !m.execute_one().1 ==> m.execute_one().0.cpu.run.stopped != 0,
{
    broadcast use {
        keeps_begin_instruction,
        keeps_dispatch_fetched,
        keeps_take_trap,
        keeps_spec_charge,
        keeps_spec_end_faulted_instruction,
        keeps_top_up_prefetch,
        keeps_spec_check_trace,
        keeps_exception_trace,
        keeps_check_and_service_interrupts,
    };

    reveal(Machine::execute_one);
}

} // verus!
