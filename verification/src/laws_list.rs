//! Laws of MOVEM: which register goes where, and that it comes back.

use vstd::prelude::*;
use crate::cpu::CpuCore;
use crate::ea::AddressingMode;
use crate::laws_arith::signed;
use crate::laws_exception::frame_fits;
use crate::laws_memory;
use crate::laws_memory::{aligned, plain};
use crate::laws_parts::low;
use crate::machine::Machine;
use crate::memory::LinearState;
use crate::types::Size;

verus! {

/// Whether a list names register `i`: D0 to D7 are registers 0 to 7 and A0 to
/// A7 registers 8 to 15.
pub open spec fn listed(list: u16, i: int) -> bool {
    (list >> (i as u16)) & 1 == 1
}

/// Number of registers below `n` that a list names.
pub open spec fn rank(list: u16, n: int) -> int
    decreases n,
{
    if n <= 0 {
        0
    } else if listed(list, n - 1) {
        rank(list, n - 1) + 1
    } else {
        rank(list, n - 1)
    }
}

/// A list as the predecrement form takes it: the other way round.
pub open spec fn mirrored(list: u16, mask: u16) -> bool {
    forall|i: int| 0 <= i < 16 ==> #[trigger] listed(mask, i) == listed(list, 15 - i)
}

/// The operand at a bus address of plain memory.
pub open spec fn operand_at(state: LinearState, at: u32, size: Size) -> u32 {
    match size {
        Size::Byte => state.byte(at) as u32,
        Size::Word => state.word(at) as u32,
        Size::Long => state.long(at),
    }
}

/// Plain memory with an operand written.
pub open spec fn with_operand(state: LinearState, at: u32, size: Size, value: u32) -> LinearState {
    match size {
        Size::Byte => state.put(at, value as u8),
        Size::Word => state.put_word(at, value as u16),
        Size::Long => state.put_long(at, value),
    }
}

/// A block of memory of which each byte has a cell and an address of its own,
/// and where the model can access words.
pub open spec fn sound_block(cpu: CpuCore, state: LinearState, at: u32, bytes: int) -> bool {
    &&& bytes <= 64
    &&& frame_fits(cpu, state, at, bytes)
    &&& aligned(cpu, at)
}

/// A bit of a register list.
proof fn lemma_mask_bit(mask: u16, i: u16)
    by (bit_vector)
    requires
        i < 16,
    ensures
        (mask & (1u16 << i) != 0) == ((mask >> i) & 1 == 1),
{
}

proof fn lemma_rank(list: u16, n: int)
    requires
        0 <= n,
    ensures
        0 <= rank(list, n) <= n,
    decreases n,
{
    if n > 0 {
        lemma_rank(list, n - 1);
    }
}

proof fn lemma_rank_grows(list: u16, i: int, n: int)
    requires
        0 <= i <= n,
    ensures
        rank(list, i) <= rank(list, n),
        i < n && listed(list, i) ==> rank(list, i) < rank(list, n),
    decreases n - i,
{
    if i < n {
        lemma_rank_grows(list, i + 1, n);
    }
}

/// An operand written to a block is there, and the rest of the block is as it
/// was.
pub proof fn lemma_block_write(state: LinearState, base: u32, bytes: int, o: int, size: Size, value: u32)
    requires
        state.cells_distinct(base, bytes),
        size != Size::Byte,
        0 <= o,
        o + size.bytes() <= bytes <= 64,
    ensures
        ({
            let s = with_operand(state, base.wrapping_add(o as u32), size, value);
            &&& s.cells_distinct(base, bytes)
            &&& operand_at(s, base.wrapping_add(o as u32), size) == low(size, value)
            &&& forall|p: int|
                0 <= p < bytes && (p < o || p >= o + size.bytes()) ==> #[trigger] s.byte(
                    base.wrapping_add(p as u32),
                ) == state.byte(base.wrapping_add(p as u32))
        }),
{
    let s = with_operand(state, base.wrapping_add(o as u32), size, value);
    let at = base.wrapping_add(o as u32);
    assert(at.wrapping_add(1) == base.wrapping_add((o + 1) as u32));
    assert(at.wrapping_add(2) == base.wrapping_add((o + 2) as u32));
    assert(at.wrapping_add(3) == base.wrapping_add((o + 3) as u32));
    assert(s.memory.len() == state.memory.len());
    assert forall|i: int, j: int| 0 <= i < j < bytes implies #[trigger] s.cell(base, i) != #[trigger] s.cell(
        base,
        j,
    ) by {
        assert(state.cell(base, i) != state.cell(base, j));
    }
    assert forall|p: int|
        0 <= p < bytes && (p < o || p >= o + size.bytes()) implies #[trigger] s.byte(
        base.wrapping_add(p as u32),
    ) == state.byte(base.wrapping_add(p as u32)) by {
        assert(state.cell(base, p) != state.cell(base, o) || p == o);
        assert(state.cell(base, p) != state.cell(base, o + 1) || p == o + 1);
        if size == Size::Long {
            assert(state.cell(base, p) != state.cell(base, o + 2) || p == o + 2);
            assert(state.cell(base, p) != state.cell(base, o + 3) || p == o + 3);
        }
    }
    assert(state.cell(base, o) != state.cell(base, o + 1));
    if size == Size::Long {
        assert(state.cell(base, o) != state.cell(base, o + 2));
        assert(state.cell(base, o) != state.cell(base, o + 3));
        assert(state.cell(base, o + 1) != state.cell(base, o + 2));
        assert(state.cell(base, o + 1) != state.cell(base, o + 3));
        assert(state.cell(base, o + 2) != state.cell(base, o + 3));
        crate::bits::lemma_be32(value);
    } else {
        crate::bits::lemma_be16(value as u16);
        crate::laws_parts::lemma_parts(value, 0, 0, 0);
    }
}

/// Operands of a block whose bytes are the same are the same.
pub proof fn lemma_block_read(a: LinearState, b: LinearState, base: u32, bytes: int, o: int, size: Size)
    requires
        size != Size::Byte,
        0 <= o,
        o + size.bytes() <= bytes <= 64,
        forall|p: int|
            o <= p < o + size.bytes() ==> #[trigger] a.byte(base.wrapping_add(p as u32)) == b.byte(
                base.wrapping_add(p as u32),
            ),
    ensures
        operand_at(a, base.wrapping_add(o as u32), size) == operand_at(b, base.wrapping_add(o as u32), size),
{
    let at = base.wrapping_add(o as u32);
    assert(at.wrapping_add(1) == base.wrapping_add((o + 1) as u32));
    assert(a.byte(base.wrapping_add(o as u32)) == b.byte(base.wrapping_add(o as u32)));
    assert(a.byte(base.wrapping_add((o + 1) as u32)) == b.byte(base.wrapping_add((o + 1) as u32)));
    if size == Size::Long {
        assert(at.wrapping_add(2) == base.wrapping_add((o + 2) as u32));
        assert(at.wrapping_add(3) == base.wrapping_add((o + 3) as u32));
        assert(a.byte(base.wrapping_add((o + 2) as u32)) == b.byte(base.wrapping_add((o + 2) as u32)));
        assert(a.byte(base.wrapping_add((o + 3) as u32)) == b.byte(base.wrapping_add((o + 3) as u32)));
    }
}

/// Every register from `from` on that a list names is in the block at `end`, in
/// the order of the registers.
pub open spec fn holds_from(
    cpu: CpuCore,
    state: LinearState,
    end: u32,
    size: Size,
    list: u16,
    from: int,
) -> bool {
    forall|i: int|
        from <= i < 16 && #[trigger] listed(list, i) ==> operand_at(
            state,
            cpu.address(end.wrapping_add((rank(list, i) * size.bytes()) as u32)),
            size,
        ) == low(size, cpu.dar[i])
}

/// One register of a list goes to memory.
proof fn lemma_write_sized(m: Machine, state: LinearState, at: u32, size: Size, value: u32)
    requires
        plain(m, state),
        aligned(m.cpu, at),
        size != Size::Byte,
    ensures
        ({
            let after = m.write_sized(at, size, value);
            &&& plain(after, with_operand(state, m.cpu.address(at), size, value))
            &&& after.cpu == (CpuCore { queue: after.cpu.queue, fault: after.cpu.fault, ..m.cpu })
        }),
{
    reveal(Machine::write_sized);
    laws_memory::lemma_write_16(m, state, at, value as u16);
    laws_memory::lemma_write_32(m, state, at, value);
}

/// One register of a list comes from memory.
proof fn lemma_read_sized(m: Machine, state: LinearState, at: u32, size: Size)
    requires
        plain(m, state),
        aligned(m.cpu, at),
        size != Size::Byte,
    ensures
        ({
            let (after, value) = m.read_sized(at, size);
            &&& value == operand_at(state, m.cpu.address(at), size)
            &&& plain(after, state)
            &&& after.cpu == (CpuCore { queue: after.cpu.queue, fault: after.cpu.fault, ..m.cpu })
        }),
{
    reveal(Machine::read_sized);
    laws_memory::lemma_read_16(m, state, at);
    laws_memory::lemma_read_32(m, state, at);
}

/// Addresses within a block.
proof fn lemma_block_address(cpu: CpuCore, state: LinearState, at: u32, bytes: int, o: int)
    requires
        sound_block(cpu, state, at, bytes),
        0 <= o < bytes,
        o % 2 == 0,
    ensures
        cpu.address(at.wrapping_add(o as u32)) == cpu.address(at).wrapping_add(o as u32),
        aligned(cpu, at.wrapping_add(o as u32)),
    decreases o,
{
    if o >= 2 {
        lemma_block_address(cpu, state, at, bytes, o - 2);
        crate::laws_exception::lemma_even_step(at.wrapping_add((o - 2) as u32), cpu.model.address_mask);
        assert(at.wrapping_add((o - 2) as u32).wrapping_add(2) == at.wrapping_add(o as u32));
    } else {
        assert(at.wrapping_add(0) == at);
    }
}

/// The first `n` positions of a store that goes down.
proof fn lemma_store(m: Machine, state: LinearState, end: u32, size: Size, list: u16, mask: u16, n: int) -> (s:
    LinearState)
    requires
        plain(m, state),
        size != Size::Byte,
        mirrored(list, mask),
        0 <= n <= 16,
        sound_block(m.cpu, state, end, rank(list, 16) * size.bytes()),
    ensures
        ({
            let start = end.wrapping_add((rank(list, 16) * size.bytes()) as u32);
            let (after, at) = m.movem_store(size, mask, start, true, n as nat);
            &&& plain(after, s)
            &&& after.cpu == (CpuCore { queue: after.cpu.queue, fault: after.cpu.fault, ..m.cpu })
            &&& at == end.wrapping_add((rank(list, 16 - n) * size.bytes()) as u32)
            &&& s.cells_distinct(m.cpu.address(end), rank(list, 16) * size.bytes())
            &&& holds_from(m.cpu, s, end, size, list, 16 - n)
        }),
    decreases n,
{
    let bytes = rank(list, 16) * size.bytes();
    let start = end.wrapping_add(bytes as u32);
    lemma_rank(list, 16);
    if n == 0 {
        state
    } else {
        let s1 = lemma_store(m, state, end, size, list, mask, n - 1);
        let (m1, at1) = m.movem_store(size, mask, start, true, (n - 1) as nat);
        lemma_mask_bit(mask, (n - 1) as u16);
        let r = 16 - n;
        assert(listed(mask, n - 1) == listed(list, 15 - (n - 1)));
        if listed(list, r) {
            reveal(Machine::movem_store_one);
            lemma_rank(list, r);
            lemma_rank_grows(list, r, 16);
            let o = rank(list, r) * size.bytes();
            assert(rank(list, r + 1) == rank(list, r) + 1);
            assert(o + size.bytes() <= bytes && o >= 0 && o % 2 == 0) by (nonlinear_arith)
                requires
                    o == rank(list, r) * size.bytes(),
                    bytes == rank(list, 16) * size.bytes(),
                    0 <= rank(list, r) < rank(list, 16),
                    size.bytes() == 2 || size.bytes() == 4,
            ;
            assert((rank(list, r) + 1) * size.bytes() == o + size.bytes()) by (nonlinear_arith)
                requires
                    o == rank(list, r) * size.bytes(),
            ;
            let at = end.wrapping_add(o as u32);
            assert(at1.wrapping_sub(size.bytes()) == at);
            lemma_block_address(m.cpu, state, end, bytes, o);
            lemma_write_sized(m1, s1, at, size, m.cpu.dar[r]);
            let base = m.cpu.address(end);
            lemma_block_write(s1, base, bytes, o, size, m.cpu.dar[r]);
            let s = with_operand(s1, m.cpu.address(at), size, m.cpu.dar[r]);
            assert forall|i: int| r <= i < 16 && #[trigger] listed(list, i) implies operand_at(
                s,
                m.cpu.address(end.wrapping_add((rank(list, i) * size.bytes()) as u32)),
                size,
            ) == low(size, m.cpu.dar[i]) by {
                if i > r {
                    lemma_rank_grows(list, r, i);
                    lemma_rank_grows(list, i, 16);
                    lemma_rank(list, i);
                    let p = rank(list, i) * size.bytes();
                    assert(p + size.bytes() <= bytes && p >= o + size.bytes() && p % 2 == 0)
                        by (nonlinear_arith)
                        requires
                            p == rank(list, i) * size.bytes(),
                            o == rank(list, r) * size.bytes(),
                            bytes == rank(list, 16) * size.bytes(),
                            rank(list, r) < rank(list, i) < rank(list, 16),
                            size.bytes() == 2 || size.bytes() == 4,
                    ;
                    lemma_block_address(m.cpu, state, end, bytes, p);
                    lemma_block_read(s1, s, base, bytes, p, size);
                }
            }
            s
        } else {
            s1
        }
    }
}

/// The first `n` positions of a load.
proof fn lemma_load(m: Machine, state: LinearState, from: u32, size: Size, list: u16, n: int)
    requires
        plain(m, state),
        size != Size::Byte,
        0 <= n <= 16,
        sound_block(m.cpu, state, from, rank(list, 16) * size.bytes()),
    ensures
        ({
            let (after, at) = m.movem_load(size, list, from, n as nat);
            &&& plain(after, state)
            &&& after.cpu == (CpuCore {
                dar: after.cpu.dar,
                queue: after.cpu.queue,
                fault: after.cpu.fault,
                ..m.cpu
            })
            &&& at == from.wrapping_add((rank(list, n) * size.bytes()) as u32)
            &&& forall|i: int|
                0 <= i < 16 ==> #[trigger] after.cpu.dar[i] == (if i < n && listed(list, i) {
                    crate::alu::sign_extend(
                        size,
                        operand_at(
                            state,
                            m.cpu.address(from.wrapping_add((rank(list, i) * size.bytes()) as u32)),
                            size,
                        ),
                    )
                } else {
                    m.cpu.dar[i]
                })
        }),
    decreases n,
{
    let bytes = rank(list, 16) * size.bytes();
    lemma_rank(list, 16);
    if n > 0 {
        lemma_load(m, state, from, size, list, n - 1);
        let (m1, at1) = m.movem_load(size, list, from, (n - 1) as nat);
        lemma_mask_bit(list, (n - 1) as u16);
        let r = n - 1;
        if listed(list, r) {
            reveal(Machine::movem_load_one);
            lemma_rank(list, r);
            lemma_rank_grows(list, r, 16);
            let o = rank(list, r) * size.bytes();
            assert(o + size.bytes() <= bytes && o >= 0 && o % 2 == 0) by (nonlinear_arith)
                requires
                    o == rank(list, r) * size.bytes(),
                    bytes == rank(list, 16) * size.bytes(),
                    0 <= rank(list, r) < rank(list, 16),
                    size.bytes() == 2 || size.bytes() == 4,
            ;
            assert((rank(list, r) + 1) * size.bytes() == o + size.bytes()) by (nonlinear_arith)
                requires
                    o == rank(list, r) * size.bytes(),
            ;
            lemma_block_address(m.cpu, state, from, bytes, o);
            lemma_read_sized(m1, state, at1, size);
        }
    } else {
        assert(from.wrapping_add(0) == from);
    }
}

/// The bytes that a list of registers takes.
pub open spec fn list_bytes(list: u16, size: Size) -> u32 {
    (rank(list, 16) * size.bytes()) as u32
}

/// MOVEM to -(An) saves what its list names, lowest register at the lowest
/// address, where bit `15 - i` of the predecrement mask names register `i`;
/// MOVEM from (An)+ loads what its list names in the same order. So a load
/// with the same list gives every register its value back, whatever the
/// registers held in between, and the address register ends where the save
/// began. Words come back extended by their sign. A register other than the
/// ones named changes in neither.
pub proof fn law_saved_registers_come_back(
    m: Machine,
    state: LinearState,
    size: Size,
    list: u16,
    mask: u16,
    reg: u8,
    between: CpuCore,
)
    requires
        plain(m, state),
        size != Size::Byte,
        mirrored(list, mask),
        reg < 8,
        sound_block(
            m.cpu,
            state,
            m.cpu.dar[8 + reg as int].wrapping_sub(list_bytes(list, size)),
            list_bytes(list, size) as int,
        ),
        ({
            let saved = m.exec_movem_to_mem(size, AddressingMode::PreDecrement(reg), mask).0;
            between == (CpuCore {
                dar: between.dar,
                ccr: between.ccr,
                ..saved.cpu
            }) && between.dar[8 + reg as int] == saved.cpu.dar[8 + reg as int]
        }),
    ensures
        ({
            let saved = m.exec_movem_to_mem(size, AddressingMode::PreDecrement(reg), mask).0;
            let end = m.cpu.dar[8 + reg as int].wrapping_sub(list_bytes(list, size));
            let back = saved.on_cpu(between).exec_movem_to_reg(
                size,
                AddressingMode::PostIncrement(reg),
                list,
            ).0;
            &&& saved.cpu.dar[8 + reg as int] == end
            &&& forall|i: int|
                0 <= i < 16 && i != 8 + reg ==> #[trigger] saved.cpu.dar[i] == m.cpu.dar[i]
            &&& forall|i: int|
                0 <= i < 16 && #[trigger] listed(list, i) ==> saved.read_sized(
                    end.wrapping_add((rank(list, i) * size.bytes()) as u32),
                    size,
                ).1 == low(size, m.cpu.dar[i])
            &&& back.cpu.dar[8 + reg as int] == m.cpu.dar[8 + reg as int]
            &&& forall|i: int|
                0 <= i < 16 && i != 8 + reg ==> signed(Size::Long, #[trigger] back.cpu.dar[i]) == (if listed(
                    list,
                    i,
                ) {
                    signed(size, low(size, m.cpu.dar[i]))
                } else {
                    signed(Size::Long, between.dar[i])
                })
            &&& back.cpu.ccr == between.ccr
            &&& !back.cpu.faulted()
        }),
{
    reveal(Machine::exec_movem_to_mem);
    reveal(Machine::exec_movem_to_reg);
    reveal(CpuCore::spec_set_a);
    crate::bits::lemma_reg(reg as usize);
    let bytes = list_bytes(list, size) as int;
    let start = m.cpu.dar[8 + reg as int];
    let end = start.wrapping_sub(list_bytes(list, size));
    lemma_rank(list, 16);
    assert(0 <= rank(list, 16) * size.bytes() <= 64) by (nonlinear_arith)
        requires
            0 <= rank(list, 16) <= 16,
            size.bytes() == 2 || size.bytes() == 4,
    ;
    assert(bytes == rank(list, 16) * size.bytes());
    assert(end.wrapping_add(bytes as u32) == start);
    let s = lemma_store(m, state, end, size, list, mask, 16);
    assert(rank(list, 0) == 0);
    assert(end.wrapping_add(0) == end);
    let saved = m.exec_movem_to_mem(size, AddressingMode::PreDecrement(reg), mask).0;
    assert(plain(saved, s));
    assert forall|i: int| 0 <= i < 16 && #[trigger] listed(list, i) implies saved.read_sized(
        end.wrapping_add((rank(list, i) * size.bytes()) as u32),
        size,
    ).1 == low(size, m.cpu.dar[i]) by {
        lemma_rank(list, i);
        lemma_rank_grows(list, i, 16);
        let o = rank(list, i) * size.bytes();
        assert(0 <= o < bytes && o % 2 == 0) by (nonlinear_arith)
            requires
                o == rank(list, i) * size.bytes(),
                bytes == rank(list, 16) * size.bytes(),
                0 <= rank(list, i) < rank(list, 16),
                size.bytes() == 2 || size.bytes() == 4,
        ;
        lemma_block_address(m.cpu, state, end, bytes, o);
        lemma_read_sized(saved, s, end.wrapping_add(o as u32), size);
    }
    let resumed = saved.on_cpu(between);
    assert(plain(resumed, s));
    assert(sound_block(resumed.cpu, s, end, bytes)) by {
        assert forall|i: int| 0 <= i < bytes implies resumed.cpu.address(
            #[trigger] end.wrapping_add(i as u32),
        ) == resumed.cpu.address(end).wrapping_add(i as u32) by {
            assert(m.cpu.address(end.wrapping_add(i as u32)) == m.cpu.address(end).wrapping_add(i as u32));
        }
    }
    lemma_load(resumed, s, end, size, list, 16);
    let back = resumed.exec_movem_to_reg(size, AddressingMode::PostIncrement(reg), list).0;
    assert forall|i: int| 0 <= i < 16 && i != 8 + reg implies signed(
        Size::Long,
        #[trigger] back.cpu.dar[i],
    ) == (if listed(list, i) {
        signed(size, low(size, m.cpu.dar[i]))
    } else {
        signed(Size::Long, between.dar[i])
    }) by {
        crate::laws_parts::lemma_low(m.cpu.dar[i], 0, size);
        crate::laws_parts::lemma_extended_operand(size, low(size, m.cpu.dar[i]), 0);
    }
}

/// A frame in a block of memory reads back: SR, PC, the format word and, in a
/// frame of six words, an address.
pub proof fn lemma_frame_block(state: LinearState, at: u32, sr: u16, pc: u32, format: u16)
    requires
        state.cells_distinct(at, 8),
    ensures
        ({
            let s = state.put_word(at.wrapping_add(6), format).put_long(at.wrapping_add(2), pc).put_word(at, sr);
            &&& s.word(at) == sr
            &&& s.long(at.wrapping_add(2)) == pc
            &&& s.word(at.wrapping_add(6)) == format
        }),
{
    assert(at.wrapping_add(0) == at);
    lemma_word_operand(format);
    lemma_word_operand(sr);
    lemma_block_write(state, at, 8, 6, Size::Word, format as u32);
    let s1 = state.put_word(at.wrapping_add(6), format);
    lemma_block_write(s1, at, 8, 2, Size::Long, pc);
    let s2 = s1.put_long(at.wrapping_add(2), pc);
    lemma_block_read(s1, s2, at, 8, 6, Size::Word);
    lemma_block_write(s2, at, 8, 0, Size::Word, sr as u32);
    let s3 = s2.put_word(at, sr);
    lemma_block_read(s2, s3, at, 8, 6, Size::Word);
    lemma_block_read(s2, s3, at, 8, 2, Size::Long);
}

/// A word as an operand.
pub proof fn lemma_word_operand(w: u16)
    ensures
        (w as u32) as u16 == w,
        low(Size::Word, w as u32) == w,
{
    crate::laws_parts::lemma_fits(w as u32, Size::Word);
}

/// What lies beside a frame of four words stays as it was.
pub proof fn lemma_beside_frame(state: LinearState, at: u32, sr: u16, pc: u32, format: u16, own: u32)
    requires
        state.cells_distinct(at, 12),
    ensures
        ({
            let s = state.put_long(at.wrapping_add(8), own).put_word(at.wrapping_add(6), format).put_long(
                at.wrapping_add(2),
                pc,
            ).put_word(at, sr);
            s.long(at.wrapping_add(8)) == own
        }),
{
    assert(at.wrapping_add(0) == at);
    lemma_word_operand(format);
    lemma_word_operand(sr);
    lemma_block_write(state, at, 12, 8, Size::Long, own);
    let s0 = state.put_long(at.wrapping_add(8), own);
    lemma_block_write(s0, at, 12, 6, Size::Word, format as u32);
    let s1 = s0.put_word(at.wrapping_add(6), format);
    lemma_block_write(s1, at, 12, 2, Size::Long, pc);
    let s2 = s1.put_long(at.wrapping_add(2), pc);
    lemma_block_write(s2, at, 12, 0, Size::Word, sr as u32);
    let s3 = s2.put_word(at, sr);
    lemma_block_read(s0, s1, at, 12, 8, Size::Long);
    lemma_block_read(s1, s2, at, 12, 8, Size::Long);
    lemma_block_read(s2, s3, at, 12, 8, Size::Long);
}

} // verus!
