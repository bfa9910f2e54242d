//! What an instruction of the fast loop does, told by the dispatcher.

use vstd::prelude::*;
use crate::laws_fast;
use crate::laws_operands;
use crate::laws_operands::Lender;
use crate::batch::FastStep;
use crate::cpu::{CpuCore, FaultState};
use crate::machine::Machine;
use crate::mem_ops::Window;
use crate::op_cache::CachedOp;
use crate::types::Size;

verus! {

/// A processor in a batch, with the window captured that its bus lends.
pub open spec fn in_batch(lend: Lender, cpu: CpuCore, mem: Seq<u8>) -> bool {
    &&& laws_operands::batched(lend, cpu, mem)
    &&& cpu.host.fm_base == lend.base
    &&& cpu.host.fm_len == lend.len
    &&& cpu.model.address_mask == crate::cpu::model_address_mask(cpu.model.cpu_type)
}

/// An opcode out of the window is the opcode on the bus.
proof fn lemma_fetch(lend: Lender, cpu: CpuCore, mem: Seq<u8>)
    requires
        in_batch(lend, cpu, mem),
        lend.plain_word(mem, cpu.address(cpu.pc)),
    ensures
        ({
            let m = laws_operands::over(lend, cpu, mem);
            let (fetched, opcode) = m.plain_fetch();
            &&& m.batch_fetch() == (fetched, opcode)
            &&& opcode is Some
            &&& fetched == laws_operands::over(
                lend,
                CpuCore {
                    ppc: cpu.pc,
                    pc: cpu.pc.wrapping_add(2),
                    ir: opcode->0 as u32,
                    ..cpu
                },
                mem,
            )
            &&& in_batch(lend, fetched.cpu, mem)
        }),
{
    reveal(Lender::lends);
    reveal(Machine::batch_fetch);
    reveal(Machine::plain_fetch);
    reveal(Machine::read_opcode_16);
    reveal(Machine::fetch_direct);
    reveal(Machine::translate);
    reveal(Machine::flush_sync);
    let at = cpu.address(cpu.pc);
    assert(lend.plain_read(mem, at, Size::Word));
    assert(lend.plain_loan(mem, mem));
    laws_operands::lemma_bits(cpu.pc, cpu.model.address_mask, cpu.pc.wrapping_add(2));
}

/// The fast loop of a batch executes what the dispatcher executes. On any bus
/// whose accesses inside the lent range are those of the bytes lent, an
/// instruction that retires in the fast loop leaves the machine that fetching
/// and dispatching it leaves, but for the data that the last write left for a
/// fault frame, and the dispatcher completes it. After NOP on a 68040 the
/// dispatcher has recorded a change of flow besides. The opcode, and the word
/// that DBcc glances at, must be readable without effect, as they are inside
/// the range.
pub proof fn law_fast_step_is_dispatch(lend: Lender, cpu: CpuCore, mem: Seq<u8>)
    requires
        in_batch(lend, cpu, mem),
        lend.plain_word(mem, cpu.address(cpu.pc)),
        lend.plain_word(mem, cpu.address(cpu.pc.wrapping_add(4))),
        laws_operands::over(lend, cpu, mem).fast_step().1 == FastStep::Retired,
    ensures
        ({
            let m = laws_operands::over(lend, cpu, mem);
            let (fetched, opcode) = m.plain_fetch();
            let done = fetched.dispatch_instruction(opcode->0).0;
            let fast = if opcode == Some(0x4E71u16) && cpu.is_040() {
                laws_fast::synchronized(m.fast_step().0)
            } else {
                m.fast_step().0
            };
            &&& fetched.dispatch_instruction(opcode->0).1 is Completed
            &&& done.bus == fast.bus
            &&& done.cpu == (CpuCore {
                fault: FaultState { wdata: done.cpu.fault.wdata, ..fast.cpu.fault },
                ..fast.cpu
            })
        }),
{
    reveal(Machine::run_verdict);
    lemma_fetch(lend, cpu, mem);
    let (fetched, opcode) = laws_operands::over(lend, cpu, mem).plain_fetch();
    laws_fast::lemma_group_4_forms(opcode->0);
    match crate::op_cache::decode_verdict(cpu.model.cpu_type, opcode->0) {
        CachedOp::Simple(op) => {
            laws_fast::law_simple_op_is_dispatch(fetched, opcode->0, op);
        },
        CachedOp::Mem(op) => {
            let w = Window { cpu: fetched.cpu, mem };
            reveal(Lender::lends);
            assert(lend.plain_loan(mem, mem));
            crate::laws_dispatch::law_mem_op_is_dispatch(lend, w, opcode->0, op);
            crate::laws_loan::law_mem_op_keeps_length(w, op);
            assert(lend.plain_loan(mem, w.exec_mem_op(op).0.mem));
        },
        _ => {},
    }
}

/// Words inside the lent range can be read without effect.
pub proof fn law_lent_words_are_plain(lend: Lender, mem: Seq<u8>, address: u32)
    requires
        lend.lends(mem.len()),
        crate::mem_ops::window_off(lend.win(), address, 2) is Some,
    ensures
        lend.plain_word(mem, address),
{
    reveal(Lender::lends);
    assert(lend.plain_read(mem, address, Size::Word));
}

} // verus!
