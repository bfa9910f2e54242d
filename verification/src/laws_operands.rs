//! Operands on the memory window and through the dispatcher.

use vstd::prelude::*;
use crate::cpu::{CpuCore, FaultState, PrefetchState, RunState};
use crate::ea::EaResult;
use crate::laws_window::model_agrees;
use crate::machine::Machine;
use crate::mem_ops::{addressing_mode, Ctx, FastEa, Loc, Pending, Win, Window};
use crate::memory::{BusFault, BusOp, BusView, LinearState};
use crate::types::{is_pre_68020, Size};

verus! {

/// A bus that lends a range of plain memory to the processor: the first
/// address of the range, its length, and what the bus does while the bytes it
/// lends hold given values. Whatever else is on the bus lies outside the
/// range.
pub struct Lender {
    pub base: u32,
    pub len: u32,
    pub bus: spec_fn(Seq<u8>) -> BusView,
}

impl Lender {
    /// The window on the range.
    pub open spec fn win(self) -> Win {
        Win { base: self.base, len: self.len }
    }

    /// A word can be read at an address without effect on the bus.
    pub open spec fn plain_word(self, mem: Seq<u8>, address: u32) -> bool {
        &&& (self.bus)(mem).try_read_word(address) is Ok
        &&& (self.bus)(mem).after(BusOp::TryReadWord(address)) == (self.bus)(mem)
        &&& (self.bus)(mem).after(BusOp::ReadWord(address)) == (self.bus)(mem)
    }

    /// A read inside the range gives what the bytes hold, and has no effect.
    pub open spec fn plain_read(self, mem: Seq<u8>, address: u32, size: Size) -> bool {
        match crate::mem_ops::window_off(self.win(), address, size.bytes()) {
            None => true,
            Some(off) => {
                let value = crate::mem_ops::spec_read_window(mem, off, size);
                let bus = (self.bus)(mem);
                match size {
                    Size::Byte => {
                        &&& bus.try_read_byte(address) == Ok::<u8, BusFault>(value as u8)
                        &&& bus.after(BusOp::TryReadByte(address)) == bus
                    },
                    Size::Word => {
                        &&& bus.try_read_word(address) == Ok::<u16, BusFault>(value as u16)
                        &&& self.plain_word(mem, address)
                    },
                    Size::Long => {
                        &&& bus.try_read_long(address) == Ok::<u32, BusFault>(value)
                        &&& bus.after(BusOp::TryReadLong(address)) == bus
                    },
                }
            },
        }
    }

    /// A write inside the range changes the bytes and nothing else.
    pub open spec fn plain_write(self, mem: Seq<u8>, address: u32, size: Size, value: u32) -> bool {
        match crate::mem_ops::window_off(self.win(), address, size.bytes()) {
            None => true,
            Some(off) => {
                let after = (self.bus)(crate::mem_ops::spec_write_window(mem, off, size, value));
                let bus = (self.bus)(mem);
                match size {
                    Size::Byte => {
                        &&& bus.try_write_byte(address, value as u8) is Ok
                        &&& bus.after(BusOp::TryWriteByte(address, value as u8)) == after
                    },
                    Size::Word => {
                        &&& bus.try_write_word(address, value as u16) is Ok
                        &&& bus.after(BusOp::TryWriteWord(address, value as u16)) == after
                    },
                    Size::Long => {
                        &&& bus.try_write_long(address, value) is Ok
                        &&& bus.after(BusOp::TryWriteLong(address, value)) == after
                    },
                }
            },
        }
    }

    /// The bytes lent are the bytes, and are what they were made when they
    /// come back.
    pub open spec fn plain_loan(self, mem: Seq<u8>, returned: Seq<u8>) -> bool {
        &&& (self.bus)(mem).window() == mem
        &&& (self.bus)(mem).after(BusOp::SetWindow(returned)) == (self.bus)(returned)
    }

    /// Accesses inside the range are those of the bytes lent, `size` in
    /// number, and have no other effect.
    #[verifier::opaque]
    pub open spec fn lends(self, size: nat) -> bool {
        &&& self.len <= size
        &&& forall|mem: Seq<u8>, address: u32, width: Size|
            mem.len() == size ==> #[trigger] self.plain_read(mem, address, width)
        &&& forall|mem: Seq<u8>, address: u32, width: Size, value: u32|
            mem.len() == size ==> #[trigger] self.plain_write(mem, address, width, value)
        &&& forall|mem: Seq<u8>, returned: Seq<u8>|
            mem.len() == size && returned.len() == size ==> #[trigger] self.plain_loan(mem, returned)
    }
}

/// A linear memory as a lender of its first `len` bytes.
pub open spec fn linear(len: u32) -> Lender {
    Lender { base: 0, len, bus: |mem: Seq<u8>| (LinearState { memory: mem }).behavior() }
}

/// A linear memory lends all of itself, and a word can be read from it
/// anywhere.
pub proof fn law_linear_memory_lends(len: u32, mem: Seq<u8>, address: u32)
    requires
        0 < len,
        mem.len() == len,
    ensures
        linear(len).lends(len as nat),
        linear(len).plain_word(mem, address),
{
    reveal(Lender::lends);
    let lend = linear(len);
    (LinearState { memory: mem }).lemma_behavior(BusOp::TryReadWord(address));
    (LinearState { memory: mem }).lemma_behavior(BusOp::ReadWord(address));
    assert forall|mem: Seq<u8>, address: u32, width: Size| mem.len() == len implies #[trigger]
        lend.plain_read(mem, address, width) by {
        let state = LinearState { memory: mem };
        state.lemma_behavior(BusOp::TryReadByte(address));
        state.lemma_behavior(BusOp::TryReadWord(address));
        state.lemma_behavior(BusOp::ReadWord(address));
        state.lemma_behavior(BusOp::TryReadLong(address));
        if address + width.bytes() <= len {
            crate::laws_memory::law_window_is_memory(state, address as usize, width, 0);
            lemma_narrow(state.byte(address), state.word(address));
        }
    }
    assert forall|mem: Seq<u8>, address: u32, width: Size, value: u32|
        mem.len() == len implies #[trigger] lend.plain_write(mem, address, width, value) by {
        let state = LinearState { memory: mem };
        state.lemma_behavior(BusOp::TryWriteByte(address, value as u8));
        state.lemma_behavior(BusOp::TryWriteWord(address, value as u16));
        state.lemma_behavior(BusOp::TryWriteLong(address, value));
        if address + width.bytes() <= len {
            crate::laws_memory::law_window_is_memory(state, address as usize, width, value);
        }
    }
    assert forall|mem: Seq<u8>, returned: Seq<u8>|
        mem.len() == len && returned.len() == len implies #[trigger] lend.plain_loan(mem, returned) by {
        let state = LinearState { memory: mem };
        state.lemma_behavior(BusOp::Window);
        state.lemma_behavior(BusOp::SetWindow(returned));
    }
}

proof fn lemma_narrow(byte: u8, word: u16)
    ensures
        (byte as u32) as u8 == byte,
        (word as u32) as u16 == word,
{
}

/// A processor on a bus that lends bytes.
pub open spec fn over(lend: Lender, cpu: CpuCore, mem: Seq<u8>) -> Machine {
    Machine { cpu, bus: (lend.bus)(mem) }
}

/// A processor on a bus that lends bytes, without a prefetch queue or
/// translation, with nothing pending that would divert an access.
pub open spec fn accessing(lend: Lender, cpu: CpuCore, mem: Seq<u8>) -> bool {
    &&& !cpu.prefetch_enabled()
    &&& cpu.queue.pending_sync_clocks == 0
    &&& !cpu.faulted()
    &&& !cpu.mmu_on()
    &&& cpu.fault.read_override is None
    &&& cpu.fault.write_suppress is None
    &&& model_agrees(cpu)
    &&& lend.lends(mem.len())
}

/// As before, at an address where the model can fetch.
pub open spec fn fetching(lend: Lender, cpu: CpuCore, mem: Seq<u8>) -> bool {
    accessing(lend, cpu, mem) && (cpu.model.is_pre_68020 ==> cpu.pc & 1 == 0)
}

/// A processor as a batch runs it, between instructions.
pub open spec fn batched(lend: Lender, cpu: CpuCore, mem: Seq<u8>) -> bool {
    &&& fetching(lend, cpu, mem)
    &&& !cpu.queue.consume_without_prefetch
    &&& cpu.queue.prefetch_count == 0
    &&& !cpu.looping.active
}

/// Addresses, instruction words and scale factors, bit by bit.
pub proof fn lemma_bits(a: u32, mask: u32, next: u32)
    by (bit_vector)
    requires
        next == a + 2 || next + 0x1_0000_0000 == a + 2,
    ensures
        a & 1 == 0 ==> (a & mask) & 1 == 0,
        a & 1 == 0 ==> next & 1 == 0,
        a <= 0xFFFF ==> a & 0xFFFF == a && (a as u16) as u32 == a && ((a as u16) & 0xFF) as u32 == a & 0xFF,
        (a >> 12) & 7 < 8,
        (a >> 9) & 3 < 4,
        !0xFFFFu32 == 0xFFFF_0000,
        1u32 << (0u32 & 31) == 1,
        1u32 << (1u32 & 31) == 2,
        1u32 << (2u32 & 31) == 4,
        1u32 << (3u32 & 31) == 8,
        a * 2 == (a << 1u32) + (a >> 31u32) * 0x1_0000_0000,
        a * 4 == (a << 2u32) + (a >> 30u32) * 0x1_0000_0000,
        a * 8 == (a << 3u32) + (a >> 29u32) * 0x1_0000_0000,
{
}

/// A byte and a word in the window are no wider than that.
pub proof fn lemma_window_value(mem: Seq<u8>, off: usize, size: Size)
    ensures
        ({
            let value = crate::mem_ops::spec_read_window(mem, off, size);
            &&& size == Size::Byte ==> value <= 0xFF && (value as u8) as u32 == value
            &&& size == Size::Word ==> value <= 0xFFFF && (value as u16) as u32 == value
        }),
{
    let value = crate::mem_ops::spec_read_window(mem, off, size);
    if off + size.bytes() <= mem.len() {
        lemma_small(
            mem[off as int],
            if size == Size::Byte {
                0
            } else {
                mem[off + 1]
            },
        );
    }
}

/// A read through the bus gives what the window holds.
#[verifier::spinoff_prover]
pub proof fn lemma_read(lend: Lender, cpu: CpuCore, mem: Seq<u8>, raw: u32, size: Size, off: usize)
    requires
        accessing(lend, cpu, mem),
        cpu.locate(lend.win(), is_pre_68020(cpu.model.cpu_type), raw, size) == Some(off),
    ensures
        over(lend, cpu, mem).read_sized(raw, size) == (
            over(lend, cpu, mem),
            crate::mem_ops::spec_read_window(mem, off, size),
        ),
{
    reveal(Lender::lends);
    reveal(Machine::read_sized);
    reveal(Machine::read_8);
    reveal(Machine::read_16);
    reveal(Machine::read_32);
    reveal(Machine::access_read_8);
    reveal(Machine::access_read_16);
    reveal(Machine::access_read_32);
    reveal(Machine::whole_read);
    reveal(Machine::translate);
    reveal(Machine::physical_read);
    reveal(Machine::deliver_if);
    reveal(Machine::flush_sync);
    reveal(CpuCore::spec_take_read_override);
    let at = cpu.address(raw);
    assert(lend.plain_read(mem, at, size));
    lemma_window_value(mem, off, size);
    lemma_bits(raw, cpu.model.address_mask, raw.wrapping_add(2));
}

/// A byte written through the bus.
#[verifier::spinoff_prover]
proof fn lemma_write_8(lend: Lender, cpu: CpuCore, mem: Seq<u8>, raw: u32, value: u32, off: usize)
    requires
        accessing(lend, cpu, mem),
        cpu.locate(lend.win(), is_pre_68020(cpu.model.cpu_type), raw, Size::Byte) == Some(off),
    ensures
        ({
            let after = over(lend, cpu, mem).write_sized(raw, Size::Byte, value);
            after == over(
                lend,
                CpuCore { fault: FaultState { wdata: after.cpu.fault.wdata, ..cpu.fault }, ..cpu },
                crate::mem_ops::spec_write_window(mem, off, Size::Byte, value),
            )
        }),
{
    reveal(Lender::lends);
    reveal(Machine::write_sized);
    reveal(Machine::write_8);
    reveal(Machine::access_write_8);
    reveal(Machine::whole_write);
    reveal(Machine::translate);
    reveal(Machine::physical_write);
    reveal(Machine::deliver_if);
    reveal(Machine::flush_sync);
    reveal(CpuCore::spec_take_write_suppress);
    let at = cpu.address(raw);
    assert(lend.plain_write(mem, at, Size::Byte, value));
    lemma_bits(raw, cpu.model.address_mask, raw.wrapping_add(2));
}

/// A word written through the bus.
#[verifier::spinoff_prover]
proof fn lemma_write_16(lend: Lender, cpu: CpuCore, mem: Seq<u8>, raw: u32, value: u32, off: usize)
    requires
        accessing(lend, cpu, mem),
        cpu.locate(lend.win(), is_pre_68020(cpu.model.cpu_type), raw, Size::Word) == Some(off),
    ensures
        ({
            let after = over(lend, cpu, mem).write_sized(raw, Size::Word, value);
            after == over(
                lend,
                CpuCore { fault: FaultState { wdata: after.cpu.fault.wdata, ..cpu.fault }, ..cpu },
                crate::mem_ops::spec_write_window(mem, off, Size::Word, value),
            )
        }),
{
    reveal(Lender::lends);
    reveal(Machine::write_sized);
    reveal(Machine::write_16);
    reveal(Machine::access_write_16);
    reveal(Machine::whole_write);
    reveal(Machine::translate);
    reveal(Machine::physical_write);
    reveal(Machine::deliver_if);
    reveal(Machine::flush_sync);
    reveal(CpuCore::spec_take_write_suppress);
    let at = cpu.address(raw);
    assert(lend.plain_write(mem, at, Size::Word, value));
    lemma_bits(raw, cpu.model.address_mask, raw.wrapping_add(2));
}

/// A long written through the bus.
#[verifier::spinoff_prover]
proof fn lemma_write_32(lend: Lender, cpu: CpuCore, mem: Seq<u8>, raw: u32, value: u32, off: usize)
    requires
        accessing(lend, cpu, mem),
        cpu.locate(lend.win(), is_pre_68020(cpu.model.cpu_type), raw, Size::Long) == Some(off),
    ensures
        ({
            let after = over(lend, cpu, mem).write_sized(raw, Size::Long, value);
            after == over(
                lend,
                CpuCore { fault: FaultState { wdata: after.cpu.fault.wdata, ..cpu.fault }, ..cpu },
                crate::mem_ops::spec_write_window(mem, off, Size::Long, value),
            )
        }),
{
    reveal(Lender::lends);
    reveal(Machine::write_sized);
    reveal(Machine::write_32);
    reveal(Machine::access_write_32);
    reveal(Machine::whole_write);
    reveal(Machine::translate);
    reveal(Machine::physical_write);
    reveal(Machine::deliver_if);
    reveal(Machine::flush_sync);
    reveal(CpuCore::spec_take_write_suppress);
    let at = cpu.address(raw);
    assert(lend.plain_write(mem, at, Size::Long, value));
    lemma_bits(raw, cpu.model.address_mask, raw.wrapping_add(2));
}

/// A write through the bus does what a store to the window does; it also
/// records the data for a fault frame.
pub proof fn lemma_write(lend: Lender, cpu: CpuCore, mem: Seq<u8>, raw: u32, size: Size, value: u32, off: usize)
    requires
        accessing(lend, cpu, mem),
        cpu.locate(lend.win(), is_pre_68020(cpu.model.cpu_type), raw, size) == Some(off),
    ensures
        ({
            let after = over(lend, cpu, mem).write_sized(raw, size, value);
            after == over(
                lend,
                CpuCore { fault: FaultState { wdata: after.cpu.fault.wdata, ..cpu.fault }, ..cpu },
                crate::mem_ops::spec_write_window(mem, off, size, value),
            )
        }),
{
    match size {
        Size::Byte => {
            lemma_write_8(lend, cpu, mem, raw, value, off);
        },
        Size::Word => {
            lemma_write_16(lend, cpu, mem, raw, value, off);
        },
        Size::Long => {
            lemma_write_32(lend, cpu, mem, raw, value, off);
        },
    }
}

/// The word in the instruction stream is the one in the window.
pub proof fn lemma_imm_16(lend: Lender, cpu: CpuCore, mem: Seq<u8>, word: u32)
    requires
        fetching(lend, cpu, mem),
        cpu.spec_window_word(mem, lend.win(), cpu.pc) == Some(word),
    ensures
        word <= 0xFFFF,
        over(lend, cpu, mem).read_imm_16() == (
            over(lend, CpuCore { pc: cpu.pc.wrapping_add(2), ..cpu }, mem),
            word as u16,
        ),
        fetching(lend, CpuCore { pc: cpu.pc.wrapping_add(2), ..cpu }, mem),
{
    reveal(Lender::lends);
    reveal(Machine::read_imm_16);
    reveal(Machine::fetch_direct);
    reveal(Machine::translate);
    reveal(Machine::flush_sync);
    let at = cpu.address(cpu.pc);
    let off = crate::mem_ops::window_off(lend.win(), at, 2)->0;
    assert(lend.plain_read(mem, at, Size::Word));
    lemma_window_value(mem, off, Size::Word);
    lemma_bits(cpu.pc, cpu.model.address_mask, cpu.pc.wrapping_add(2));
}

/// The register numbers of an operand and of the updates so far are in range.
pub open spec fn in_range(ea: FastEa, ctx: Ctx) -> bool {
    &&& match ea {
        FastEa::DataReg(r)
        | FastEa::AddrReg(r)
        | FastEa::AnInd(r)
        | FastEa::AnPostInc(r)
        | FastEa::AnPreDec(r)
        | FastEa::AnDisp(r)
        | FastEa::AnIndex(r) => r < 8,
        _ => true,
    }
    &&& ctx.pending.first matches Some(slot) ==> slot.0 < 8
    &&& ctx.pending.second is None
}

/// The processor once the operands so far have been resolved.
pub open spec fn at(cpu: CpuCore, ctx: Ctx) -> CpuCore {
    CpuCore { pc: ctx.next_ext, ..cpu.spec_commit(ctx.pending) }
}

/// A state in which the next operand can be resolved.
pub open spec fn ready(lend: Lender, cpu: CpuCore, mem: Seq<u8>, ctx: Ctx) -> bool {
    &&& fetching(lend, at(cpu, ctx), mem)
    &&& ctx.aligned_only == is_pre_68020(cpu.model.cpu_type)
}

/// A location in the window and a resolved operand name the same thing.
pub open spec fn names(lend: Lender, cpu: CpuCore, mem: Seq<u8>, loc: Loc, operand: EaResult, size: Size) -> bool {
    match loc {
        Loc::Data(r) => operand == EaResult::DataReg(r),
        Loc::Addr(r) => operand == EaResult::AddrReg(r),
        Loc::Imm(v) => operand == EaResult::Immediate(v),
        Loc::Mem(off) => operand matches EaResult::Memory(raw) && cpu.locate(
            lend.win(),
            is_pre_68020(cpu.model.cpu_type),
            raw,
            size,
        ) == Some(off),
    }
}

/// Deferred updates only touch address registers.
pub proof fn lemma_commit(cpu: CpuCore, pending: Pending, reg: u8)
    requires
        reg < 8,
        pending.first matches Some(slot) ==> slot.0 < 8,
        pending.second matches Some(slot) ==> slot.0 < 8,
    ensures
        cpu.spec_commit(pending) == (CpuCore { dar: cpu.spec_commit(pending).dar, ..cpu }),
        cpu.spec_commit(pending).a(reg as usize) == cpu.pending_a(pending, reg),
        cpu.spec_commit(pending).d(reg as usize) == cpu.d(reg as usize),
        pending.first is None && pending.second is None ==> cpu.spec_commit(pending) == cpu,
{
    reveal(CpuCore::spec_commit);
    reveal(CpuCore::spec_set_a);
    crate::bits::lemma_reg(reg as usize);
    if let Some(slot) = pending.first {
        crate::bits::lemma_reg(slot.0 as usize);
    }
    if let Some(slot) = pending.second {
        crate::bits::lemma_reg(slot.0 as usize);
    }
}

/// A scale factor is a shift.
pub proof fn lemma_scale(value: u32)
    ensures
        value.wrapping_mul(1) == value,
        value.wrapping_mul(2) == value << 1,
        value.wrapping_mul(4) == value << 2,
        value.wrapping_mul(8) == value << 3,
{
    lemma_bits(value, 0, value.wrapping_add(2));
}

/// The index of a brief extension word.
pub proof fn lemma_index(cpu: CpuCore, ctx: Ctx, base: u32, ext: u32, address: u32)
    requires
        model_agrees(cpu),
        in_range(FastEa::Imm, ctx),
        ext <= 0xFFFF,
        cpu.brief_index(ctx.pending, base, ext) == Some(address),
    ensures
        !(!cpu.model.is_pre_68020 && (ext as u16) & 0x0100 != 0),
        base.wrapping_add(crate::prefetch::sext8((ext as u16) as u8)).wrapping_add(
            cpu.spec_commit(ctx.pending).index_value(ext as u16),
        ) == address,
{
    lemma_bits(ext, 0, ext.wrapping_add(2));
    crate::bits::lemma_fields(ext as u16);
    let number = ((ext >> 12) & 7) as u8;
    lemma_commit(cpu, ctx.pending, number);
    let moved = cpu.spec_commit(ctx.pending);
    let full = if (ext as u16) & 0x8000 != 0 {
        moved.a(number as usize)
    } else {
        moved.d(number as usize)
    };
    let value = if (ext as u16) & 0x0800 != 0 {
        full
    } else {
        crate::prefetch::sext16(full as u16)
    };
    lemma_scale(value);
    assert(((ext as u16) >> 12) & 7 == (ext >> 12) & 7);
    assert(((ext as u16) >> 9) & 3 == (ext >> 9) & 3);
    assert((ext as u16) as u8 == ext as u8);
}

/// One more word of the instruction stream.
pub proof fn lemma_word(lend: Lender, cpu: CpuCore, mem: Seq<u8>, ctx: Ctx, word: u32)
    requires
        ready(lend, cpu, mem, ctx),
        in_range(FastEa::Imm, ctx),
        cpu.spec_window_word(mem, lend.win(), ctx.next_ext) == Some(word),
    ensures
        word <= 0xFFFF,
        over(lend, at(cpu, ctx), mem).read_imm_16() == (
            over(lend, at(cpu, crate::mem_ops::past_ext(ctx)), mem),
            word as u16,
        ),
        ready(lend, cpu, mem, crate::mem_ops::past_ext(ctx)),
{
    lemma_commit(cpu, ctx.pending, 0);
    lemma_imm_16(lend, at(cpu, ctx), mem, word);
}

/// Two more words of the instruction stream.
pub proof fn lemma_long(lend: Lender, cpu: CpuCore, mem: Seq<u8>, ctx: Ctx, long: u32)
    requires
        ready(lend, cpu, mem, ctx),
        in_range(FastEa::Imm, ctx),
        cpu.spec_window_long(mem, lend.win(), ctx.next_ext) == Some(long),
    ensures
        ({
            let past = crate::mem_ops::past_ext(crate::mem_ops::past_ext(ctx));
            &&& over(lend, at(cpu, ctx), mem).read_imm_32() == (over(lend, at(cpu, past), mem), long)
            &&& ready(lend, cpu, mem, past)
        }),
{
    reveal(Machine::read_imm_32);
    let hi = cpu.spec_window_word(mem, lend.win(), ctx.next_ext)->0;
    let lo = cpu.spec_window_word(mem, lend.win(), ctx.next_ext.wrapping_add(2))->0;
    lemma_word(lend, cpu, mem, ctx, hi);
    lemma_word(lend, cpu, mem, crate::mem_ops::past_ext(ctx), lo);
}

/// An immediate operand.
pub proof fn lemma_immediate(lend: Lender, cpu: CpuCore, mem: Seq<u8>, size: Size, ctx: Ctx, found: (u32, Ctx))
    requires
        ready(lend, cpu, mem, ctx),
        in_range(FastEa::Imm, ctx),
        cpu.spec_resolve_immediate(mem, lend.win(), size, ctx) == Some(found),
    ensures
        over(lend, at(cpu, ctx), mem).read_immediate(size) == (over(lend, at(cpu, found.1), mem), found.0),
        ready(lend, cpu, mem, found.1),
        found.1.pending == ctx.pending,
{
    reveal(Machine::read_immediate);
    match size {
        Size::Long => {
            lemma_long(lend, cpu, mem, ctx, found.0);
        },
        _ => {
            let word = cpu.spec_window_word(mem, lend.win(), ctx.next_ext)->0;
            lemma_word(lend, cpu, mem, ctx, word);
            lemma_bits(word, 0, word.wrapping_add(2));
        },
    }
}

/// An address that is calculated without touching a register.
#[verifier::spinoff_prover]
pub proof fn lemma_control(lend: Lender, cpu: CpuCore, mem: Seq<u8>, ea: FastEa, size: Size, ctx: Ctx, found: (u32, Ctx))
    requires
        ready(lend, cpu, mem, ctx),
        in_range(ea, ctx),
        cpu.spec_resolve_control_addr(mem, lend.win(), ea, ctx) == Some(found),
    ensures
        over(lend, at(cpu, ctx), mem).resolve_ea(addressing_mode(ea), size) == (
            over(lend, at(cpu, found.1), mem),
            EaResult::Memory(found.0),
        ),
        ready(lend, cpu, mem, found.1),
        found.1.pending == ctx.pending,
{
    reveal(Machine::resolve_ea);
    reveal(CpuCore::spec_resolve_control_addr);
    match ea {
        FastEa::AbsL => {
            lemma_long(lend, cpu, mem, ctx, found.0);
        },
        FastEa::AnInd(r) => {
            lemma_commit(cpu, ctx.pending, r);
        },
        _ => {
            let word = cpu.spec_window_word(mem, lend.win(), ctx.next_ext)->0;
            lemma_word(lend, cpu, mem, ctx, word);
            match ea {
                FastEa::AnDisp(r) => {
                    lemma_commit(cpu, ctx.pending, r);
                },
                FastEa::AnIndex(r) => {
                    lemma_commit(cpu, ctx.pending, r);
                    lemma_indexed(lend, cpu, mem, ctx, cpu.pending_a(ctx.pending, r), word, found.0);
                },
                FastEa::PcIndex => {
                    lemma_indexed(lend, cpu, mem, ctx, ctx.next_ext, word, found.0);
                },
                _ => {},
            }
        },
    }
}

/// An indexed address.
pub proof fn lemma_indexed(lend: Lender, cpu: CpuCore, mem: Seq<u8>, ctx: Ctx, base: u32, word: u32, address: u32)
    requires
        ready(lend, cpu, mem, ctx),
        in_range(FastEa::Imm, ctx),
        cpu.spec_window_word(mem, lend.win(), ctx.next_ext) == Some(word),
        cpu.brief_index(ctx.pending, base, word) == Some(address),
    ensures
        over(lend, at(cpu, ctx), mem).resolve_index(base) == (
            over(lend, at(cpu, crate::mem_ops::past_ext(ctx)), mem),
            address,
        ),
{
    reveal(Machine::resolve_index);
    reveal(CpuCore::spec_internal_cycles);
    lemma_commit(cpu, ctx.pending, 0);
    lemma_word(lend, cpu, mem, ctx, word);
    lemma_index(cpu, ctx, base, word, address);
}

/// The location of an operand is of the form that the operand asks for.
pub open spec fn shaped(ea: FastEa, loc: Loc) -> bool {
    match ea {
        FastEa::DataReg(r) => loc == Loc::Data(r),
        FastEa::AddrReg(r) => loc == Loc::Addr(r),
        FastEa::Imm => loc is Imm,
        _ => loc is Mem,
    }
}

/// An operand of any form.
#[verifier::spinoff_prover]
pub proof fn lemma_resolve(lend: Lender, cpu: CpuCore, mem: Seq<u8>, ea: FastEa, size: Size, ctx: Ctx, found: (Loc, Ctx))
    requires
        ready(lend, cpu, mem, ctx),
        in_range(ea, ctx),
        cpu.spec_resolve(mem, lend.win(), ea, size, ctx) == Some(found),
    ensures
        ({
            let (after, operand) = over(lend, at(cpu, ctx), mem).resolve_ea(addressing_mode(ea), size);
            &&& after == over(lend, at(cpu, found.1), mem)
            &&& names(lend, cpu, mem, found.0, operand, size)
        }),
        ready(lend, cpu, mem, found.1),
        found.1.pending.first matches Some(slot) ==> slot.0 < 8,
        found.1.pending.second matches Some(slot) ==> slot.0 < 8,
        ctx.pending.first is None ==> found.1.pending.second is None,
        shaped(ea, found.0),
        ea is DataReg || ea is AddrReg ==> found.1 == ctx,
{
    reveal(CpuCore::spec_resolve);
    match ea {
        FastEa::DataReg(_) | FastEa::AddrReg(_) => {
            reveal(Machine::resolve_ea);
        },
        FastEa::AnInd(r) => {
            reveal(Machine::resolve_ea);
            lemma_commit(cpu, ctx.pending, r);
        },
        FastEa::AnPostInc(r) | FastEa::AnPreDec(r) => {
            reveal(Machine::resolve_ea);
            reveal(CpuCore::spec_internal_cycles);
            lemma_commit(cpu, ctx.pending, r);
            lemma_commit(cpu, found.1.pending, r);
            reveal(CpuCore::spec_commit);
            reveal(CpuCore::spec_set_a);
        },
        FastEa::Imm => {
            reveal(Machine::resolve_ea);
            lemma_immediate(lend, cpu, mem, size, ctx, (found.0->Imm_0, found.1));
        },
        _ => {
            let address = cpu.spec_resolve_control_addr(mem, lend.win(), ea, ctx)->0;
            lemma_control(lend, cpu, mem, ea, size, ctx, address);
        },
    }
}

/// The operand at a location is the one that the dispatcher reads.
pub proof fn lemma_load(lend: Lender, cpu: CpuCore, mem: Seq<u8>, loc: Loc, operand: EaResult, size: Size, ctx: Ctx)
    requires
        ready(lend, cpu, mem, ctx),
        names(lend, cpu, mem, loc, operand, size),
        ctx.pending.first matches Some(slot) ==> slot.0 < 8,
        ctx.pending.second matches Some(slot) ==> slot.0 < 8,
        loc matches Loc::Data(r) ==> r < 8,
        loc is Addr ==> ctx.pending.first is None && ctx.pending.second is None,
    ensures
        over(lend, at(cpu, ctx), mem).read_resolved_ea(operand, size) == (
            over(lend, at(cpu, ctx), mem),
            cpu.spec_load(mem, loc, size),
        ),
{
    reveal(Machine::read_resolved_ea);
    lemma_commit(cpu, ctx.pending, 0);
    match loc {
        Loc::Data(r) => {
            lemma_commit(cpu, ctx.pending, r);
        },
        Loc::Mem(off) => {
            lemma_read(lend, at(cpu, ctx), mem, operand->Memory_0, size, off);
        },
        _ => {},
    }
}

/// A store to a location in memory is what the dispatcher writes.
pub proof fn lemma_store(lend: Lender, cpu: CpuCore, mem: Seq<u8>, raw: u32, size: Size, value: u32, off: usize)
    requires
        accessing(lend, cpu, mem),
        cpu.locate(lend.win(), is_pre_68020(cpu.model.cpu_type), raw, size) == Some(off),
    ensures
        ({
            let after = over(lend, cpu, mem).write_resolved_ea(EaResult::Memory(raw), size, value);
            &&& after == over(
                lend,
                CpuCore { fault: FaultState { wdata: after.cpu.fault.wdata, ..cpu.fault }, ..cpu },
                crate::mem_ops::spec_write_window(mem, off, size, value),
            )
            &&& over(lend, cpu, mem).write_resolved_ea_np_poll(EaResult::Memory(raw), size, value) == after
        }),
{
    reveal(Machine::write_resolved_ea);
    reveal(Machine::write_resolved_ea_np_poll);
    reveal(Machine::top_up_prefetch);
    reveal(Machine::ipl_poll_point);
    lemma_write(lend, cpu, mem, raw, size, value, off);
}

/// A machine is where a window is, but for the data that its last write left
/// for a fault frame.
pub open spec fn settled(lend: Lender, done: Machine, w: Window) -> bool {
    done == over(
        lend,
        CpuCore { fault: FaultState { wdata: done.cpu.fault.wdata, ..w.cpu.fault }, ..w.cpu },
        w.mem,
    )
}

/// An instruction completed, and left the machine where a window is.
pub open spec fn finished(lend: Lender, done: (Machine, i32), w: Window) -> bool {
    done.1 >= 0 && settled(lend, done.0, w)
}

/// The first operand of an instruction, resolved and read.
pub proof fn lemma_first(lend: Lender, cpu: CpuCore, mem: Seq<u8>, ea: FastEa, size: Size, found: (Loc, Ctx))
    requires
        batched(lend, cpu, mem),
        in_range(ea, cpu.start_ctx()),
        cpu.spec_resolve(mem, lend.win(), ea, size, cpu.start_ctx()) == Some(found),
    ensures
        at(cpu, cpu.start_ctx()) == cpu,
        ready(lend, cpu, mem, cpu.start_ctx()),
        ready(lend, cpu, mem, found.1),
        found.1.pending.first matches Some(slot) ==> slot.0 < 8,
        found.1.pending.second is None,
        shaped(ea, found.0),
        ({
            let (after, operand) = over(lend, cpu, mem).resolve_ea(addressing_mode(ea), size);
            &&& after == over(lend, at(cpu, found.1), mem)
            &&& names(lend, cpu, mem, found.0, operand, size)
            &&& after.read_resolved_ea(operand, size) == (after, cpu.spec_load(mem, found.0, size))
        }),
        over(lend, cpu, mem).read_ea(addressing_mode(ea), size) == (
            over(lend, at(cpu, found.1), mem),
            cpu.spec_load(mem, found.0, size),
        ),
{
    let start = cpu.start_ctx();
    lemma_commit(cpu, start.pending, 0);
    lemma_resolve(lend, cpu, mem, ea, size, start, found);
    let operand = over(lend, cpu, mem).resolve_ea(addressing_mode(ea), size).1;
    lemma_load(lend, cpu, mem, found.0, operand, size, found.1);
    reveal(Machine::read_ea);
}

/// Another operand of an instruction, resolved and read.
pub proof fn lemma_operand(lend: Lender, cpu: CpuCore, mem: Seq<u8>, ea: FastEa, size: Size, ctx: Ctx, found: (Loc, Ctx))
    requires
        ready(lend, cpu, mem, ctx),
        in_range(ea, ctx),
        ctx.pending.first is None,
        cpu.spec_resolve(mem, lend.win(), ea, size, ctx) == Some(found),
    ensures
        ready(lend, cpu, mem, found.1),
        found.1.pending.first matches Some(slot) ==> slot.0 < 8,
        found.1.pending.second is None,
        shaped(ea, found.0),
        ({
            let (after, operand) = over(lend, at(cpu, ctx), mem).resolve_ea(addressing_mode(ea), size);
            &&& after == over(lend, at(cpu, found.1), mem)
            &&& names(lend, cpu, mem, found.0, operand, size)
            &&& after.read_resolved_ea(operand, size) == (after, cpu.spec_load(mem, found.0, size))
        }),
        over(lend, at(cpu, ctx), mem).read_ea(addressing_mode(ea), size) == (
            over(lend, at(cpu, found.1), mem),
            cpu.spec_load(mem, found.0, size),
        ),
{
    lemma_resolve(lend, cpu, mem, ea, size, ctx, found);
    let operand = over(lend, at(cpu, ctx), mem).resolve_ea(addressing_mode(ea), size).1;
    lemma_load(lend, cpu, mem, found.0, operand, size, found.1);
    reveal(Machine::read_ea);
}

/// The fields of an opcode name the same operand to both decoders.
pub proof fn lemma_modes(opcode: u16)
    ensures
        match crate::mem_ops::source_ea(opcode) {
            Some(ea) => {
                &&& crate::ea::decode_mode(((opcode >> 3) & 7) as u8, (opcode & 7) as u8) == Some(
                    addressing_mode(ea),
                )
                &&& in_range(ea, Ctx { next_ext: 0, pending: Pending { first: None, second: None }, aligned_only: true })
                &&& crate::mem_ops::is_data_alterable(ea) ==> crate::decode_arith::ea_data_alterable(
                    ((opcode >> 3) & 7) as u8,
                    (opcode & 7) as u8,
                )
            },
            None => true,
        },
{
    crate::bits::lemma_fields(opcode);
}

/// An operand has no bits above its size.
pub proof fn lemma_load_masked(cpu: CpuCore, mem: Seq<u8>, loc: Loc, size: Size)
    ensures
        cpu.spec_load(mem, loc, size) & size.mask() == cpu.spec_load(mem, loc, size),
{
    let value = cpu.spec_load(mem, loc, size);
    match loc {
        Loc::Data(r) => {
            crate::laws_fast::lemma_masked(0, cpu.d(r as usize), 0);
        },
        Loc::Addr(r) => {
            crate::laws_fast::lemma_masked(0, cpu.a(r as usize), 0);
        },
        Loc::Imm(v) => {
            crate::laws_fast::lemma_masked(0, v, 0);
        },
        Loc::Mem(off) => {
            crate::laws_fast::lemma_masked(0, value, 0);
            if off + size.bytes() <= mem.len() && size == Size::Byte {
                lemma_small(mem[off as int], 0);
            } else if off + size.bytes() <= mem.len() && size == Size::Word {
                lemma_small(mem[off as int], mem[off + 1]);
            } else {
                lemma_small(0, 0);
            }
        },
    }
}

/// Bytes and words have no bits above their size.
pub proof fn lemma_small(hi: u8, lo: u8)
    by (bit_vector)
    ensures
        (hi as u32) & 0xFF == hi as u32,
        (((hi as u32) << 8) | (lo as u32)) & 0xFFFF == ((hi as u32) << 8) | (lo as u32),
        ((hi as u32) << 8) | (lo as u32) <= 0xFFFF,
        0u32 & 0xFF == 0,
        0u32 & 0xFFFF == 0,
        0u8 & 0x0F == 0,
{
}

/// The immediate operand of an instruction, and the operand after it.
pub proof fn lemma_immediate_pair(lend: Lender, w: Window, size: Size, ea: FastEa, imm: (u32, Ctx), to: (Loc, Ctx))
    requires
        batched(lend, w.cpu, w.mem),
        in_range(ea, w.cpu.start_ctx()),
        !(ea is AddrReg),
        w.cpu.spec_resolve_immediate(w.mem, lend.win(), size, w.cpu.start_ctx()) == Some(imm),
        w.cpu.spec_resolve(w.mem, lend.win(), ea, size, imm.1) == Some(to),
    ensures
        over(lend, w.cpu, w.mem).read_immediate(size) == (over(lend, at(w.cpu, imm.1), w.mem), imm.0),
        ready(lend, w.cpu, w.mem, imm.1),
        at(w.cpu, imm.1) == (CpuCore { pc: imm.1.next_ext, ..w.cpu }),
        ready(lend, w.cpu, w.mem, to.1),
        to.1.pending.first matches Some(slot) ==> slot.0 < 8,
        to.1.pending.second is None,
        shaped(ea, to.0),
        ({
            let (after, operand) = over(lend, at(w.cpu, imm.1), w.mem).resolve_ea(addressing_mode(ea), size);
            &&& after == over(lend, at(w.cpu, to.1), w.mem)
            &&& names(lend, w.cpu, w.mem, to.0, operand, size)
            &&& after.read_resolved_ea(operand, size) == (after, w.cpu.spec_load(w.mem, to.0, size))
        }),
        over(lend, at(w.cpu, imm.1), w.mem).read_ea(addressing_mode(ea), size) == (
            over(lend, at(w.cpu, to.1), w.mem),
            w.cpu.spec_load(w.mem, to.0, size),
        ),
{
    let start = w.cpu.start_ctx();
    lemma_commit(w.cpu, start.pending, 0);
    lemma_immediate(lend, w.cpu, w.mem, size, start, imm);
    lemma_operand(lend, w.cpu, w.mem, ea, size, imm.1, to);
}

/// An immediate operand has no bits above its size.
pub proof fn lemma_immediate_masked(lend: Lender, cpu: CpuCore, mem: Seq<u8>, size: Size, ctx: Ctx)
    ensures
        match cpu.spec_resolve_immediate(mem, lend.win(), size, ctx) {
            Some(found) => found.0 & size.mask() == found.0,
            None => true,
        },
{
    match size {
        Size::Long => {
            if let Some(v) = cpu.spec_window_long(mem, lend.win(), ctx.next_ext) {
                crate::laws_fast::lemma_masked(0, v, 0);
            }
        },
        _ => {
            if let Some(v) = cpu.spec_window_word(mem, lend.win(), ctx.next_ext) {
                crate::laws_fast::lemma_masked(0, v, 0);
            }
        },
    }
}

/// A long word pushed onto the stack.
pub proof fn lemma_push(lend: Lender, cpu: CpuCore, mem: Seq<u8>, value: u32)
    requires
        accessing(lend, cpu, mem),
        (Window { cpu, mem }).mem_push(lend.win(), is_pre_68020(cpu.model.cpu_type), value).1,
    ensures
        settled(
            lend,
            over(lend, cpu, mem).push_32(value),
            (Window { cpu, mem }).mem_push(lend.win(), is_pre_68020(cpu.model.cpu_type), value).0,
        ),
        ({
            let after = (Window { cpu, mem }).mem_push(
                lend.win(),
                is_pre_68020(cpu.model.cpu_type),
                value,
            ).0;
            after.cpu == (CpuCore { dar: after.cpu.dar, ..cpu })
        }),
{
    reveal(Window::mem_push);
    reveal(Machine::push_32);
    reveal(Machine::write_sized);
    reveal(CpuCore::spec_set_a);
    crate::bits::lemma_reg(7);
    let sp = cpu.a(7).wrapping_sub(4);
    let off = cpu.locate(lend.win(), is_pre_68020(cpu.model.cpu_type), sp, Size::Long)->0;
    let moved = CpuCore { dar: vstd::array::spec_array_update(cpu.dar, 15, sp), ..cpu };
    lemma_write(lend, moved, mem, sp, Size::Long, value, off);
}

/// A push does not look at, nor change, PC.
pub proof fn lemma_push_anywhere(lend: Lender, cpu: CpuCore, mem: Seq<u8>, pc: u32, value: u32)
    ensures
        ({
            let pushed = (Window { cpu, mem }).mem_push(
                lend.win(),
                is_pre_68020(cpu.model.cpu_type),
                value,
            );
            (Window { cpu: CpuCore { pc, ..cpu }, mem }).mem_push(
                lend.win(),
                is_pre_68020(cpu.model.cpu_type),
                value,
            ) == (Window { cpu: CpuCore { pc, ..pushed.0.cpu }, mem: pushed.0.mem }, pushed.1)
        }),
{
    reveal(Window::mem_push);
    reveal(CpuCore::spec_set_a);
}

/// The prefetch marks of a jump or branch do not change what is resolved.
pub proof fn lemma_marked_control(lend: Lender, cpu: CpuCore, mem: Seq<u8>, ea: FastEa, found: (u32, Ctx), marked: CpuCore)
    requires
        fetching(lend, cpu, mem),
        in_range(ea, cpu.start_ctx()),
        marked == (CpuCore {
            queue: PrefetchState { consume_without_prefetch: true, ..cpu.queue },
            ..cpu
        }),
        cpu.spec_resolve_control_addr(mem, lend.win(), ea, cpu.start_ctx()) == Some(found),
    ensures
        over(lend, marked, mem).resolve_ea(addressing_mode(ea), Size::Long) == (
            over(lend, CpuCore { pc: found.1.next_ext, ..marked }, mem),
            EaResult::Memory(found.0),
        ),
        fetching(lend, CpuCore { pc: found.1.next_ext, ..marked }, mem),
        found.1.aligned_only == is_pre_68020(cpu.model.cpu_type),
{
    let start = marked.start_ctx();
    reveal(CpuCore::spec_resolve_control_addr);
    lemma_commit(marked, start.pending, 0);
    lemma_commit(marked, found.1.pending, 0);
    assert(marked.spec_resolve_control_addr(mem, lend.win(), ea, start) == Some(found));
    lemma_control(lend, marked, mem, ea, Size::Long, start, found);
}

/// A push by an instruction that changes the flow.
pub proof fn lemma_push_flowing(lend: Lender, w: Window, pc: u32, value: u32)
    requires
        batched(lend, w.cpu, w.mem),
        w.mem_push(lend.win(), is_pre_68020(w.cpu.model.cpu_type), value).1,
    ensures
        ({
            let flowing = CpuCore { pc, run: RunState { change_of_flow: true, ..w.cpu.run }, ..w.cpu };
            let pushed = w.mem_push(lend.win(), is_pre_68020(w.cpu.model.cpu_type), value).0;
            let done = over(lend, flowing, w.mem).push_32(value);
            &&& pushed.cpu == (CpuCore { dar: pushed.cpu.dar, ..w.cpu })
            &&& done == over(
                lend,
                CpuCore {
                    dar: pushed.cpu.dar,
                    fault: FaultState { wdata: done.cpu.fault.wdata, ..w.cpu.fault },
                    ..flowing
                },
                pushed.mem,
            )
        }),
{
    reveal(Window::mem_push);
    reveal(CpuCore::spec_set_a);
    let flowing = CpuCore { pc, run: RunState { change_of_flow: true, ..w.cpu.run }, ..w.cpu };
    lemma_push(lend, flowing, w.mem, value);
}

} // verus!
