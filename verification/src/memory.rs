//! Memory access trait and the linear-memory bus.
//!
//! A bus is modelled by its observable behaviour: the reply it gives to an
//! operation after a history of operations.

use vstd::prelude::*;
use crate::cpu::{CpuCore, MmuRegs};
use crate::types::CpuType;

verus! {

/// Kind of bus-level fault during a memory access (distinct from a 68000 address error).
#[derive(Debug, Clone, Copy, PartialEq, Eq, Structural)]
pub enum BusFaultKind {
    /// Generic bus error (unmapped address, device error, etc).
    BusError,
}

/// A bus-level fault that occurred during a memory access.
#[derive(Debug, Clone, Copy, PartialEq, Eq, Structural)]
pub struct BusFault {
    pub kind: BusFaultKind,
    pub address: u32,
}

/// A contiguous window of plain memory that batch execution may access
/// without a bus call per access.
///
/// The bytes themselves are lent by [`AddressBus::window`]. Reads and writes
/// through the window have no side effects and are interchangeable with the
/// bus accesses. A bus with any interception in the range reports no window.
/// A window shorter than four bytes is ignored.
#[derive(Debug, Clone, Copy, PartialEq, Eq, Structural)]
pub struct FastMem {
    /// First guest address covered by the window.
    pub base: u32,
    /// Window length in bytes.
    pub len: u32,
}

/// One access handed to the table walker.
#[derive(Debug, Clone, Copy, PartialEq, Eq, Structural)]
pub struct Translation {
    pub address: u32,
    pub write: bool,
    pub supervisor: bool,
    pub instruction: bool,
    /// Function code forced by MOVES, in place of the one the state implies.
    pub fc_override: Option<u8>,
}

/// How a table walk failed.
#[derive(Debug, Clone, Copy, PartialEq, Eq, Structural)]
pub enum MmuFaultKind {
    BusError,
    ConfigurationError,
    IllegalOperation,
    AccessLevelViolation,
}

/// What the walker met when it failed; the 68060 reports it in the fault frame.
#[derive(Debug, Clone, Copy, PartialEq, Eq, Structural)]
pub enum MmuFaultCause {
    PointerTableInvalid,
    PageInvalid,
    SupervisorProtect,
    WriteProtect,
    WalkBusError,
}

/// A failed translation.
#[derive(Debug, Clone, Copy, PartialEq, Eq, Structural)]
pub struct MmuFault {
    pub kind: MmuFaultKind,
    pub cause: MmuFaultCause,
    pub address: u32,
}

/// A PTEST request.
#[derive(Debug, Clone, Copy, PartialEq, Eq, Structural)]
pub struct Probe {
    pub address: u32,
    pub function_code: u32,
    pub write: bool,
    /// Number of descriptors to examine at most.
    pub level: u32,
}

/// What a PTEST walk found.
#[derive(Debug, Clone, Copy, PartialEq, Eq, Structural)]
pub struct ProbeResult {
    /// New contents of the MMU status register.
    pub status: u32,
    /// Physical address of the last descriptor examined.
    pub descriptor: u32,
}

/// What the pipelined timing models look at when an instruction retires.
#[derive(Debug, Clone, Copy, PartialEq, Eq, Structural)]
pub struct Retirement {
    pub opcode: u16,
    /// Cycles of the instruction on the 68000.
    pub base_cycles: i32,
    /// Every instruction word came out of a cache.
    pub fetch_cached: bool,
    /// Vector of the exception the instruction took, if it took one.
    pub exception_vector: Option<u32>,
    /// A bit-field operand spanned five bytes.
    pub wide_span: bool,
}

/// Work of the units that share the bus with the integer core: floating
/// point, long multiplication and division, compare-and-swap, bounds checks,
/// bit fields, packing, alternate-space and block moves, module calls. The
/// core decodes them, checks privilege and model, and reads the extension
/// words that select the unit; the bus carries them out.
#[derive(Debug, Clone, Copy, PartialEq, Eq, Structural)]
pub enum UnitOp {
    /// A general floating-point operation.
    FpuGeneral { opcode: u16 },
    /// FSAVE or FRESTORE.
    FpuState { opcode: u16 },
    /// FDBcc.
    FpuDecrement { reg: u8, condition: u8 },
    /// FTRAPcc with this many operand words.
    FpuTrap { condition: u8, operand_words: u8 },
    /// FScc.
    FpuSet { mode: u8, reg: u8, condition: u8 },
    /// FBcc.
    FpuBranch { condition: u8, displacement: u32 },
    /// A floating-point instruction that the 68060 dropped.
    FpuUnimplemented,
    /// FScc on the 68060, which dropped it.
    FpuSetUnimplemented { mode: u8, reg: u8 },
    /// A bit-field instruction.
    BitField { opcode: u16 },
    /// Compare and swap.
    CompareSwap { opcode: u16 },
    /// Dual-operand compare and swap.
    CompareSwapPair { opcode: u16 },
    /// CHK2 or CMP2.
    BoundsCheck { opcode: u16 },
    /// 32-by-32 multiplication.
    MultiplyLong { opcode: u16 },
    /// Long division.
    DivideLong { opcode: u16 },
    /// PACK or UNPK with its adjustment word.
    Pack { opcode: u16, adjustment: u16 },
    /// MOVES.
    AlternateSpaceMove { opcode: u16 },
    /// CALLM.
    ModuleCall { opcode: u16 },
    /// RTM.
    ModuleReturn { opcode: u16 },
    /// MOVE16.
    BlockMove { opcode: u16 },
}

/// One operation on the bus.
pub enum BusOp {
    ReadByte(u32),
    ReadWord(u32),
    ReadLong(u32),
    WriteByte(u32, u8),
    WriteWord(u32, u16),
    WriteLong(u32, u32),
    TryReadByte(u32),
    TryReadWord(u32),
    TryReadLong(u32),
    TryReadThreeBytes(u32),
    TryWriteByte(u32, u8),
    TryWriteWord(u32, u16),
    TryWriteLong(u32, u32),
    TryWriteThreeBytes(u32, u32),
    ReadImmediateWord(u32),
    ReadImmediateLong(u32),
    InterruptAcknowledge(u8),
    ResetDevices,
    Sync(u32),
    IplHoldSample,
    IplReleaseSample,
    BeginInstructionFetches,
    PrefetchRefill,
    LastFetchWasCached,
    InstructionFetchesWereCached,
    InstructionBoundaryRequested,
    FastMem,
    Translate(MmuRegs, CpuType, Translation),
    Probe(MmuRegs, CpuType, Probe),
    RetireCycles(CpuType, Retirement),
    Window,
    SetWindow(Seq<u8>),
    Unit(CpuCore, UnitOp),
}

/// The reply to one operation.
pub enum BusReply {
    Byte(u8),
    Word(u16),
    Long(u32),
    ByteResult(Result<u8, BusFault>),
    WordResult(Result<u16, BusFault>),
    LongResult(Result<u32, BusFault>),
    Done(Result<(), BusFault>),
    Flag(bool),
    Window(Option<FastMem>),
    Translated(Result<u32, MmuFault>),
    Probed(ProbeResult),
    Cycles(i32),
    Bytes(Seq<u8>),
    Unit(CpuCore, Option<i32>),
}

/// The behaviour of a bus: the reply to an operation after a history.
#[verifier::ext_equal]
pub struct BusView {
    pub behavior: spec_fn(Seq<BusOp>, BusOp) -> BusReply,
}

impl BusView {
    /// The reply to `op` now.
    #[verifier::opaque]
    pub open spec fn reply(self, op: BusOp) -> BusReply {
        (self.behavior)(Seq::empty(), op)
    }

    /// The behaviour once `op` has happened.
    #[verifier::opaque]
    pub open spec fn after(self, op: BusOp) -> BusView {
        BusView { behavior: |past: Seq<BusOp>, o: BusOp| (self.behavior)(seq![op] + past, o) }
    }

    /// The value `read_byte` returns.
    #[verifier::inline]
    pub open spec fn read_byte(self, address: u32) -> u8 {
        self.reply(BusOp::ReadByte(address))->Byte_0
    }

    /// The value `read_word` returns.
    #[verifier::inline]
    pub open spec fn read_word(self, address: u32) -> u16 {
        self.reply(BusOp::ReadWord(address))->Word_0
    }

    /// The value `read_long` returns.
    #[verifier::inline]
    pub open spec fn read_long(self, address: u32) -> u32 {
        self.reply(BusOp::ReadLong(address))->Long_0
    }

    /// The value `try_read_byte` returns.
    #[verifier::inline]
    pub open spec fn try_read_byte(self, address: u32) -> Result<u8, BusFault> {
        self.reply(BusOp::TryReadByte(address))->ByteResult_0
    }

    /// The value `try_read_word` returns.
    #[verifier::inline]
    pub open spec fn try_read_word(self, address: u32) -> Result<u16, BusFault> {
        self.reply(BusOp::TryReadWord(address))->WordResult_0
    }

    /// The value `try_read_long` returns.
    #[verifier::inline]
    pub open spec fn try_read_long(self, address: u32) -> Result<u32, BusFault> {
        self.reply(BusOp::TryReadLong(address))->LongResult_0
    }

    /// The value `try_read_three_bytes` returns.
    #[verifier::inline]
    pub open spec fn try_read_three_bytes(self, address: u32) -> Result<u32, BusFault> {
        self.reply(BusOp::TryReadThreeBytes(address))->LongResult_0
    }

    /// The value `try_write_byte` returns.
    #[verifier::inline]
    pub open spec fn try_write_byte(self, address: u32, value: u8) -> Result<(), BusFault> {
        self.reply(BusOp::TryWriteByte(address, value))->Done_0
    }

    /// The value `try_write_word` returns.
    #[verifier::inline]
    pub open spec fn try_write_word(self, address: u32, value: u16) -> Result<(), BusFault> {
        self.reply(BusOp::TryWriteWord(address, value))->Done_0
    }

    /// The value `try_write_long` returns.
    #[verifier::inline]
    pub open spec fn try_write_long(self, address: u32, value: u32) -> Result<(), BusFault> {
        self.reply(BusOp::TryWriteLong(address, value))->Done_0
    }

    /// The value `try_write_three_bytes` returns.
    #[verifier::inline]
    pub open spec fn try_write_three_bytes(self, address: u32, value: u32) -> Result<(), BusFault> {
        self.reply(BusOp::TryWriteThreeBytes(address, value))->Done_0
    }

    /// The value `read_immediate_word` returns.
    #[verifier::inline]
    pub open spec fn read_immediate_word(self, address: u32) -> u16 {
        self.reply(BusOp::ReadImmediateWord(address))->Word_0
    }

    /// The value `read_immediate_long` returns.
    #[verifier::inline]
    pub open spec fn read_immediate_long(self, address: u32) -> u32 {
        self.reply(BusOp::ReadImmediateLong(address))->Long_0
    }

    /// The value `interrupt_acknowledge` returns.
    #[verifier::inline]
    pub open spec fn interrupt_acknowledge(self, level: u8) -> u32 {
        self.reply(BusOp::InterruptAcknowledge(level))->Long_0
    }

    /// The value `last_fetch_was_cached` returns.
    #[verifier::inline]
    pub open spec fn last_fetch_was_cached(self) -> bool {
        self.reply(BusOp::LastFetchWasCached)->Flag_0
    }

    /// The value `instruction_fetches_were_cached` returns.
    #[verifier::inline]
    pub open spec fn instruction_fetches_were_cached(self) -> bool {
        self.reply(BusOp::InstructionFetchesWereCached)->Flag_0
    }

    /// The value `instruction_boundary_requested` returns.
    #[verifier::inline]
    pub open spec fn instruction_boundary_requested(self) -> bool {
        self.reply(BusOp::InstructionBoundaryRequested)->Flag_0
    }

    /// The value `fast_mem` returns.
    #[verifier::inline]
    pub open spec fn fast_mem(self) -> Option<FastMem> {
        self.reply(BusOp::FastMem)->Window_0
    }

    /// The value `translate` returns.
    #[verifier::inline]
    pub open spec fn translate(self, mmu: MmuRegs, cpu_type: CpuType, access: Translation) -> Result<u32, MmuFault> {
        self.reply(BusOp::Translate(mmu, cpu_type, access))->Translated_0
    }

    /// The value `probe` returns.
    #[verifier::inline]
    pub open spec fn probe(self, mmu: MmuRegs, cpu_type: CpuType, request: Probe) -> ProbeResult {
        self.reply(BusOp::Probe(mmu, cpu_type, request))->Probed_0
    }

    /// The value `retire_cycles` returns.
    #[verifier::inline]
    pub open spec fn retire_cycles(self, cpu_type: CpuType, record: Retirement) -> i32 {
        self.reply(BusOp::RetireCycles(cpu_type, record))->Cycles_0
    }

    /// What an attached unit makes of the processor state, and the cycles it
    /// took. The account of the run is not the unit's to change.
    #[verifier::inline]
    pub open spec fn unit(self, cpu: CpuCore, op: UnitOp) -> (CpuCore, Option<i32>) {
        (cpu.lent_to_unit(self.reply(BusOp::Unit(cpu, op))->Unit_0), self.reply(BusOp::Unit(cpu, op))->Unit_1)
    }

    /// The bytes of the window.
    #[verifier::inline]
    pub open spec fn window(self) -> Seq<u8> {
        self.reply(BusOp::Window)->Bytes_0
    }
}

/// What the processor is wired to: memory, devices, and the units beside the
/// integer core.
///
/// The integer core asks the bus for what it does not compute itself: address
/// translation and table probes, the retirement timing of the pipelined
/// models, and the instructions of [`UnitOp`].
pub trait AddressBus: Sized {
    /// The behaviour of the bus from here on.
    spec fn view(&self) -> BusView;

    /// Read one byte.
    fn read_byte(&mut self, address: u32) -> (r: u8)
        ensures
            r == old(self).view().read_byte(address),
            final(self).view() == old(self).view().after(BusOp::ReadByte(address)),
    ;

    /// Read one big-endian word.
    fn read_word(&mut self, address: u32) -> (r: u16)
        ensures
            r == old(self).view().read_word(address),
            final(self).view() == old(self).view().after(BusOp::ReadWord(address)),
    ;

    /// Read one big-endian long word.
    fn read_long(&mut self, address: u32) -> (r: u32)
        ensures
            r == old(self).view().read_long(address),
            final(self).view() == old(self).view().after(BusOp::ReadLong(address)),
    ;

    /// Write one byte.
    fn write_byte(&mut self, address: u32, value: u8)
        ensures
            final(self).view() == old(self).view().after(BusOp::WriteByte(address, value)),
    ;

    /// Write one word.
    fn write_word(&mut self, address: u32, value: u16)
        ensures
            final(self).view() == old(self).view().after(BusOp::WriteWord(address, value)),
    ;

    /// Write one long word.
    fn write_long(&mut self, address: u32, value: u32)
        ensures
            final(self).view() == old(self).view().after(BusOp::WriteLong(address, value)),
    ;

    /// Read one byte, or report the fault the access raised.
    fn try_read_byte(&mut self, address: u32) -> (r: Result<u8, BusFault>)
        ensures
            r == old(self).view().try_read_byte(address),
            final(self).view() == old(self).view().after(BusOp::TryReadByte(address)),
    ;

    /// Read one word, or report the fault the access raised.
    fn try_read_word(&mut self, address: u32) -> (r: Result<u16, BusFault>)
        ensures
            r == old(self).view().try_read_word(address),
            final(self).view() == old(self).view().after(BusOp::TryReadWord(address)),
    ;

    /// Read one long word, or report the fault the access raised.
    fn try_read_long(&mut self, address: u32) -> (r: Result<u32, BusFault>)
        ensures
            r == old(self).view().try_read_long(address),
            final(self).view() == old(self).view().after(BusOp::TryReadLong(address)),
    ;

    /// Read a three-byte operand into the low 24 bits, or report the fault.
    fn try_read_three_bytes(&mut self, address: u32) -> (r: Result<u32, BusFault>)
        ensures
            r == old(self).view().try_read_three_bytes(address),
            final(self).view() == old(self).view().after(BusOp::TryReadThreeBytes(address)),
    ;

    /// Write one byte, or report the fault the access raised.
    fn try_write_byte(&mut self, address: u32, value: u8) -> (r: Result<(), BusFault>)
        ensures
            r == old(self).view().try_write_byte(address, value),
            final(self).view() == old(self).view().after(BusOp::TryWriteByte(address, value)),
    ;

    /// Write one word, or report the fault the access raised.
    fn try_write_word(&mut self, address: u32, value: u16) -> (r: Result<(), BusFault>)
        ensures
            r == old(self).view().try_write_word(address, value),
            final(self).view() == old(self).view().after(BusOp::TryWriteWord(address, value)),
    ;

    /// Write one long word, or report the fault the access raised.
    fn try_write_long(&mut self, address: u32, value: u32) -> (r: Result<(), BusFault>)
        ensures
            r == old(self).view().try_write_long(address, value),
            final(self).view() == old(self).view().after(BusOp::TryWriteLong(address, value)),
    ;

    /// Write the low 24 bits as a three-byte operand, or report the fault.
    fn try_write_three_bytes(&mut self, address: u32, value: u32) -> (r: Result<(), BusFault>)
        ensures
            r == old(self).view().try_write_three_bytes(address, value),
            final(self).view() == old(self).view().after(BusOp::TryWriteThreeBytes(address, value)),
    ;

    /// Read one instruction-stream word.
    fn read_immediate_word(&mut self, address: u32) -> (r: u16)
        ensures
            r == old(self).view().read_immediate_word(address),
            final(self).view() == old(self).view().after(BusOp::ReadImmediateWord(address)),
    ;

    /// Read one instruction-stream long word.
    fn read_immediate_long(&mut self, address: u32) -> (r: u32)
        ensures
            r == old(self).view().read_immediate_long(address),
            final(self).view() == old(self).view().after(BusOp::ReadImmediateLong(address)),
    ;

    /// Run the acknowledge cycle of an interrupt level; `0xFFFF_FFFF` asks for an autovector.
    fn interrupt_acknowledge(&mut self, level: u8) -> (r: u32)
        ensures
            r == old(self).view().interrupt_acknowledge(level),
            final(self).view() == old(self).view().after(BusOp::InterruptAcknowledge(level)),
    ;

    /// The processor executed RESET.
    fn reset_devices(&mut self)
        ensures
            final(self).view() == old(self).view().after(BusOp::ResetDevices),
    ;

    /// `clocks` internal clocks passed since the last bus access.
    fn sync(&mut self, clocks: u32)
        ensures
            final(self).view() == old(self).view().after(BusOp::Sync(clocks)),
    ;

    /// Keep the interrupt-level sample of the access just made for the next boundary.
    fn ipl_hold_sample(&mut self)
        ensures
            final(self).view() == old(self).view().after(BusOp::IplHoldSample),
    ;

    /// Drop a kept interrupt-level sample.
    fn ipl_release_sample(&mut self)
        ensures
            final(self).view() == old(self).view().after(BusOp::IplReleaseSample),
    ;

    /// The instruction-stream reads of a new instruction start here.
    fn begin_instruction_fetches(&mut self)
        ensures
            final(self).view() == old(self).view().after(BusOp::BeginInstructionFetches),
    ;

    /// The next word read refills the prefetch queue: it belongs to the instruction stream, whenever it comes.
    fn prefetch_refill(&mut self)
        ensures
            final(self).view() == old(self).view().after(BusOp::PrefetchRefill),
    ;

    /// Whether the last instruction-stream read hit a cache.
    fn last_fetch_was_cached(&mut self) -> (r: bool)
        ensures
            r == old(self).view().last_fetch_was_cached(),
            final(self).view() == old(self).view().after(BusOp::LastFetchWasCached),
    ;

    /// Whether every instruction-stream read since `begin_instruction_fetches` hit a cache.
    fn instruction_fetches_were_cached(&mut self) -> (r: bool)
        ensures
            r == old(self).view().instruction_fetches_were_cached(),
            final(self).view() == old(self).view().after(BusOp::InstructionFetchesWereCached),
    ;

    /// True once when the completed instruction must become visible to the host.
    fn instruction_boundary_requested(&mut self) -> (r: bool)
        ensures
            r == old(self).view().instruction_boundary_requested(),
            final(self).view() == old(self).view().after(BusOp::InstructionBoundaryRequested),
    ;

    /// The window of plain memory that may be accessed without bus calls, if any.
    fn fast_mem(&mut self) -> (r: Option<FastMem>)
        ensures
            r == old(self).view().fast_mem(),
            final(self).view() == old(self).view().after(BusOp::FastMem),
    ;

    /// Walk the translation tables that `mmu` describes for one access.
    fn translate(&mut self, mmu: MmuRegs, cpu_type: CpuType, access: Translation) -> (r: Result<u32, MmuFault>)
        ensures
            r == old(self).view().translate(mmu, cpu_type, access),
            final(self).view() == old(self).view().after(BusOp::Translate(mmu, cpu_type, access)),
    ;

    /// Walk the tables as PTEST does and report what was found.
    fn probe(&mut self, mmu: MmuRegs, cpu_type: CpuType, request: Probe) -> (r: ProbeResult)
        ensures
            r == old(self).view().probe(mmu, cpu_type, request),
            final(self).view() == old(self).view().after(BusOp::Probe(mmu, cpu_type, request)),
    ;

    /// Cycles that the pipelined models bill for a retired instruction.
    fn retire_cycles(&mut self, cpu_type: CpuType, record: Retirement) -> (r: i32)
        ensures
            r == old(self).view().retire_cycles(cpu_type, record),
            final(self).view() == old(self).view().after(BusOp::RetireCycles(cpu_type, record)),
    ;

    /// Let an attached unit carry out `op` on the processor state. `None`
    /// means that no such unit is fitted. The unit leaves alone what belongs
    /// to the run: the cycle account, the pending interrupt level, the address
    /// of the instruction and the host's settings.
    fn unit(&mut self, cpu: &mut CpuCore, op: UnitOp) -> (r: Option<i32>)
        ensures
            (*final(cpu), r) == old(self).view().unit(*old(cpu), op),
            final(cpu).run.initial_cycles == old(cpu).run.initial_cycles,
            final(cpu).run.cycles_remaining == old(cpu).run.cycles_remaining,
            final(cpu).run.int_level == old(cpu).run.int_level,
            final(cpu).ppc == old(cpu).ppc,
            final(cpu).host == old(cpu).host,
            final(self).view() == old(self).view().after(BusOp::Unit(*old(cpu), op)),
    ;

    /// Lend the bytes of the window that [`AddressBus::fast_mem`] reports.
    fn window(&mut self) -> (w: &mut [u8])
        ensures
            w@ == old(self).view().window(),
            final(self).view() == old(self).view().after(BusOp::SetWindow(final(w)@)),
    ;
}

/// Optional companion trait for buses that can version instruction-visible memory.
pub trait InstructionCacheBus: AddressBus {
    /// The version that [`InstructionCacheBus::instruction_cache_version`] reports.
    spec fn version_at(&self, address: u32) -> Option<u64>;

    /// Stable version for instruction memory at `address`, when known.
    ///
    /// Fetches from this address may be reused until the version changes.
    fn instruction_cache_version(&mut self, address: u32) -> (r: Option<u64>)
        ensures
            r == old(self).version_at(address),
            final(self).version_at(address) == r,
            final(self).view() == old(self).view(),
    ;

    /// Notify the bus that bytes in a code-visible range were written by the CPU.
    fn invalidate_instruction_cache(&mut self, address: u32, len: u32)
        ensures
            old(self).version_at(address) is Some ==> final(self).version_at(address)
                != old(self).version_at(address),
            final(self).view() == old(self).view(),
    ;
}

/// The contents of a [`LinearMemoryBus`] that bus operations see.
pub struct LinearState {
    pub memory: Seq<u8>,
}

impl LinearState {
    /// The cell that an address falls on: addresses wrap within the buffer.
    pub open spec fn index(self, address: u32) -> int {
        if self.memory.len() == 0 {
            0
        } else {
            address as int % self.memory.len() as int
        }
    }

    /// The byte at an address.
    pub open spec fn byte(self, address: u32) -> u8 {
        if self.memory.len() == 0 {
            0
        } else {
            self.memory[self.index(address)]
        }
    }

    /// The big-endian word at an address.
    pub open spec fn word(self, address: u32) -> u16 {
        ((self.byte(address) as u16) << 8) | (self.byte(address.wrapping_add(1)) as u16)
    }

    /// The big-endian long word at an address.
    pub open spec fn long(self, address: u32) -> u32 {
        ((self.byte(address) as u32) << 24) | ((self.byte(address.wrapping_add(1)) as u32) << 16)
            | ((self.byte(address.wrapping_add(2)) as u32) << 8) | (self.byte(
            address.wrapping_add(3),
        ) as u32)
    }

    /// The three bytes at an address, in the low 24 bits.
    pub open spec fn three(self, address: u32) -> u32 {
        ((self.byte(address) as u32) << 16) | ((self.byte(address.wrapping_add(1)) as u32) << 8) | (
        self.byte(address.wrapping_add(2)) as u32)
    }

    /// The state with one byte replaced.
    pub open spec fn put(self, address: u32, value: u8) -> LinearState {
        if self.memory.len() == 0 {
            self
        } else {
            LinearState { memory: self.memory.update(self.index(address), value) }
        }
    }

    /// The state with one word replaced.
    pub open spec fn put_word(self, address: u32, value: u16) -> LinearState {
        self.put(address, (value >> 8) as u8).put(address.wrapping_add(1), value as u8)
    }

    /// The state with one long word replaced.
    pub open spec fn put_long(self, address: u32, value: u32) -> LinearState {
        self.put(address, (value >> 24) as u8).put(
            address.wrapping_add(1),
            (value >> 16) as u8,
        ).put(address.wrapping_add(2), (value >> 8) as u8).put(
            address.wrapping_add(3),
            value as u8,
        )
    }

    /// The state with three bytes replaced.
    pub open spec fn put_three(self, address: u32, value: u32) -> LinearState {
        self.put(address, (value >> 16) as u8).put(address.wrapping_add(1), (value >> 8) as u8).put(
            address.wrapping_add(2),
            value as u8,
        )
    }

    /// The state with the first `n` bytes of `data` copied in.
    pub open spec fn put_all(self, address: u32, data: Seq<u8>, n: nat) -> LinearState
        decreases n,
    {
        if n == 0 {
            self
        } else {
            self.put_all(address, data, (n - 1) as nat).put(
                address.wrapping_add((n - 1) as u32),
                data[n - 1],
            )
        }
    }

    /// The state after one bus operation: only writes change it.
    pub open spec fn step(self, op: BusOp) -> LinearState {
        match op {
            BusOp::WriteByte(a, v) => self.put(a, v),
            BusOp::WriteWord(a, v) => self.put_word(a, v),
            BusOp::WriteLong(a, v) => self.put_long(a, v),
            BusOp::TryWriteByte(a, v) => self.put(a, v),
            BusOp::TryWriteWord(a, v) => self.put_word(a, v),
            BusOp::TryWriteLong(a, v) => self.put_long(a, v),
            BusOp::TryWriteThreeBytes(a, v) => self.put_three(a, v),
            BusOp::SetWindow(bytes) => LinearState { memory: bytes },
            _ => self,
        }
    }

    /// The reply to one bus operation. No access faults, nothing is cached,
    /// translation is the identity and no unit is fitted.
    pub open spec fn answer(self, op: BusOp) -> BusReply {
        match op {
            BusOp::ReadByte(a) => BusReply::Byte(self.byte(a)),
            BusOp::ReadWord(a) => BusReply::Word(self.word(a)),
            BusOp::ReadLong(a) => BusReply::Long(self.long(a)),
            BusOp::TryReadByte(a) => BusReply::ByteResult(Ok(self.byte(a))),
            BusOp::TryReadWord(a) => BusReply::WordResult(Ok(self.word(a))),
            BusOp::TryReadLong(a) => BusReply::LongResult(Ok(self.long(a))),
            BusOp::TryReadThreeBytes(a) => BusReply::LongResult(Ok(self.three(a))),
            BusOp::ReadImmediateWord(a) => BusReply::Word(self.word(a)),
            BusOp::ReadImmediateLong(a) => BusReply::Long(self.long(a)),
            BusOp::InterruptAcknowledge(_) => BusReply::Long(0xFFFF_FFFF),
            BusOp::FastMem => BusReply::Window(
                Some(
                    FastMem {
                        base: 0,
                        len: if self.memory.len() <= u32::MAX {
                            self.memory.len() as u32
                        } else {
                            u32::MAX
                        },
                    },
                ),
            ),
            BusOp::Translate(_, _, access) => BusReply::Translated(Ok(access.address)),
            BusOp::Probe(_, _, _) => BusReply::Probed(ProbeResult { status: 0, descriptor: 0 }),
            BusOp::RetireCycles(_, record) => BusReply::Cycles(record.base_cycles),
            BusOp::LastFetchWasCached => BusReply::Flag(false),
            BusOp::InstructionFetchesWereCached => BusReply::Flag(false),
            BusOp::InstructionBoundaryRequested => BusReply::Flag(false),
            BusOp::Window => BusReply::Bytes(self.memory),
            BusOp::Unit(cpu, _) => BusReply::Unit(cpu, None),
            _ => BusReply::Done(Ok(())),
        }
    }

    /// The state after a history of operations.
    pub open spec fn replay(self, past: Seq<BusOp>) -> LinearState
        decreases past.len(),
    {
        if past.len() == 0 {
            self
        } else {
            self.step(past[0]).replay(past.drop_first())
        }
    }

    /// The behaviour of a bus in this state.
    pub open spec fn behavior(self) -> BusView {
        BusView { behavior: |past: Seq<BusOp>, op: BusOp| self.replay(past).answer(op) }
    }

    /// An operation is answered from the state and leads to the next state.
    pub proof fn lemma_behavior(self, op: BusOp)
        ensures
            self.behavior().reply(op) == self.answer(op),
            self.behavior().after(op) == self.step(op).behavior(),
    {
        reveal(BusView::reply);
        reveal(BusView::after);
        let next = self.step(op).behavior().behavior;
        let seen = self.behavior().after(op).behavior;
        assert forall|past: Seq<BusOp>, o: BusOp| #[trigger] seen(past, o) == next(past, o) by {
            assert((seq![op] + past).drop_first() =~= past);
            assert(self.replay(seq![op] + past) == self.step(op).replay(past));
        }
        assert(seen =~= next);
    }

    /// The cell of the `i`-th byte of an operand.
    pub open spec fn cell(self, address: u32, i: int) -> int {
        self.index(address.wrapping_add(i as u32))
    }

    /// The first `n` bytes of an operand fall on cells of their own.
    pub open spec fn cells_distinct(self, address: u32, n: int) -> bool {
        self.memory.len() > 0 && forall|i: int, j: int|
            0 <= i < j < n ==> #[trigger] self.cell(address, i) != #[trigger] self.cell(address, j)
    }

    /// An operand no longer than the buffer that does not run past the last
    /// address falls on cells of its own.
    pub proof fn law_cells_distinct(self, address: u32, n: int)
        requires
            0 < n <= self.memory.len(),
            address + n <= 0x1_0000_0000,
        ensures
            self.cells_distinct(address, n),
    {
        let len = self.memory.len() as int;
        assert forall|i: int, j: int| 0 <= i < j < n implies #[trigger] self.cell(address, i)
            != #[trigger] self.cell(address, j) by {
            if (address + i) % len == (address + j) % len {
                vstd::arithmetic::div_mod::lemma_mod_equivalence(address + j, address + i, len);
                vstd::arithmetic::div_mod::lemma_small_mod((j - i) as nat, len as nat);
                assert(false);
            }
        }
    }

    /// A byte read back is the byte written.
    pub proof fn law_byte_read_back(self, address: u32, value: u8)
        requires
            self.memory.len() > 0,
        ensures
            self.put(address, value).byte(address) == value,
            forall|other: u32| self.index(other) != self.index(address) ==> #[trigger] self.put(
                address,
                value,
            ).byte(other) == self.byte(other),
    {
    }

    /// A word read back is the word written, where its two bytes fall on
    /// different cells.
    pub proof fn law_word_read_back(self, address: u32, value: u16)
        requires
            self.cells_distinct(address, 2),
        ensures
            self.put_word(address, value).word(address) == value,
    {
        assert(self.cell(address, 0) != self.cell(address, 1));
        crate::bits::lemma_be16(value);
    }

    /// A long word read back is the long word written, where its four bytes
    /// fall on different cells.
    pub proof fn law_long_read_back(self, address: u32, value: u32)
        requires
            self.cells_distinct(address, 4),
        ensures
            self.put_long(address, value).long(address) == value,
    {
        assert(self.cell(address, 0) != self.cell(address, 1));
        assert(self.cell(address, 0) != self.cell(address, 2));
        assert(self.cell(address, 0) != self.cell(address, 3));
        assert(self.cell(address, 1) != self.cell(address, 2));
        assert(self.cell(address, 1) != self.cell(address, 3));
        assert(self.cell(address, 2) != self.cell(address, 3));
        crate::bits::lemma_be32(value);
    }

    /// Addresses a whole number of buffers apart name the same cell.
    pub proof fn law_addresses_wrap(self, address: u32, turns: int)
        requires
            self.memory.len() > 0,
            0 <= address + turns * self.memory.len() <= u32::MAX,
        ensures
            self.byte((address + turns * self.memory.len()) as u32) == self.byte(address),
    {
        vstd::arithmetic::div_mod::lemma_mod_multiples_vanish(
            turns,
            address as int,
            self.memory.len() as int,
        );
        assert(turns * self.memory.len() as int == self.memory.len() as int * turns)
            by (nonlinear_arith);
    }
}

/// The version after one change: it never becomes zero.
pub open spec fn bumped(version: u64) -> u64 {
    if version == u64::MAX {
        1
    } else {
        (version + 1) as u64
    }
}

/// Fast linear-memory bus for RAM-backed emulators.
///
/// Addresses wrap within the backing buffer, with a mask in place of the
/// division for power-of-two sizes.
///
/// Memory is all there is on it. No unit is fitted: the instructions of
/// [`UnitOp`] are reported as illegal, and those of the floating-point unit as
/// F-line traps. Translation is the identity, a probe finds nothing, and the
/// 68020 and 68060 bill the base cycles of each instruction. A host that needs
/// more wraps it in a bus of its own.
#[derive(Debug, Clone)]
pub struct LinearMemoryBus {
    memory: Vec<u8>,
    instruction_version: u64,
}

impl LinearMemoryBus {
    /// The contents of memory.
    pub closed spec fn state(&self) -> LinearState {
        LinearState { memory: self.memory@ }
    }

    /// The instruction version; every change of memory made through the bus
    /// advances it.
    pub closed spec fn version(&self) -> u64 {
        self.instruction_version
    }

    /// Create a zero-filled bus with `size` bytes.
    pub fn new(size: usize) -> (r: Self)
        requires
            size > 0,
        ensures
            r.state().memory == Seq::new(size as nat, |i: int| 0u8),
            r.version() == 1,
    {
        let memory: Vec<u8> = vec![0u8; size];
        assert(memory@ =~= Seq::new(size as nat, |i: int| 0u8));
        Self::from_vec(memory)
    }

    /// Create a bus using an existing memory buffer.
    pub fn from_vec(memory: Vec<u8>) -> (r: Self)
        requires
            memory@.len() > 0,
        ensures
            r.state().memory == memory@,
            r.version() == 1,
    {
        LinearMemoryBus { memory, instruction_version: 1 }
    }

    /// Number of bytes.
    pub fn len(&self) -> (r: usize)
        ensures
            r == self.state().memory.len(),
    {
        self.memory.len()
    }

    /// Whether the buffer holds no byte.
    pub fn is_empty(&self) -> (r: bool)
        ensures
            r == (self.state().memory.len() == 0),
    {
        self.memory.len() == 0
    }

    /// The bytes.
    pub fn as_slice(&self) -> (r: &[u8])
        ensures
            r@ == self.state().memory,
    {
        self.memory.as_slice()
    }

    /// The bytes, for changing. Counts as one change of memory.
    pub fn as_mut_slice(&mut self) -> (r: &mut [u8])
        ensures
            r@ == old(self).state().memory,
            final(self).state().memory == final(r)@,
            final(self).version() == bumped(old(self).version()),
    {
        self.bump_instruction_version();
        self.memory.as_mut_slice()
    }

    /// Copy bytes into memory at `address`, wrapping at the end of the backing buffer.
    pub fn load(&mut self, address: u32, data: &[u8])
        ensures
            final(self).state() == old(self).state().put_all(address, data@, data@.len()),
            final(self).version() == if old(self).state().memory.len() == 0 {
                old(self).version()
            } else {
                bumped(old(self).version())
            },
    {
        if self.memory.len() == 0 {
            proof {
                Self::lemma_load_empty(self.state(), address, data@, data@.len());
            }
            return ;
        }
        let mut offset: usize = 0;
        while offset < data.len()
            invariant
                offset <= data@.len(),
                self.memory@.len() > 0,
                self.state() == old(self).state().put_all(address, data@, offset as nat),
                self.instruction_version == old(self).instruction_version,
            decreases data@.len() - offset,
        {
            let value: u8 = data[offset];
            self.write_index(address.wrapping_add(offset as u32), value);
            offset = offset + 1;
        }
        self.bump_instruction_version();
    }

    proof fn lemma_load_empty(state: LinearState, address: u32, data: Seq<u8>, n: nat)
        requires
            state.memory.len() == 0,
        ensures
            state.put_all(address, data, n) == state,
        decreases n,
    {
        if n > 0 {
            Self::lemma_load_empty(state, address, data, (n - 1) as nat);
        }
    }

    /// Write a word at `address`.
    pub fn write_word_at(&mut self, address: u32, value: u16)
        ensures
            final(self).state() == old(self).state().put_word(address, value),
            final(self).version() == bumped(old(self).version()),
    {
        self.write_word(address, value);
    }

    /// Write a long word at `address`.
    pub fn write_long_at(&mut self, address: u32, value: u32)
        ensures
            final(self).state() == old(self).state().put_long(address, value),
            final(self).version() == bumped(old(self).version()),
    {
        self.write_long(address, value);
    }

    fn index(&self, address: u32) -> (r: usize)
        requires
            self.memory@.len() > 0,
        ensures
            r == self.state().index(address),
            r < self.memory@.len(),
    {
        let len: usize = self.memory.len();
        let mask: usize = len - 1;
        if len & mask == 0 {
            proof {
                crate::bits::lemma_mask_is_mod(address as usize, len);
            }
            (address as usize) & mask
        } else {
            (address as usize) % len
        }
    }

    fn read_index(&self, address: u32) -> (r: u8)
        ensures
            r == self.state().byte(address),
    {
        if self.memory.len() == 0 {
            return 0;
        }
        let index: usize = self.index(address);
        self.memory[index]
    }

    fn write_index(&mut self, address: u32, value: u8)
        ensures
            final(self).state() == old(self).state().put(address, value),
            final(self).version() == old(self).version(),
    {
        if self.memory.len() > 0 {
            let index: usize = self.index(address);
            self.memory.set(index, value);
        }
    }

    fn bump_instruction_version(&mut self)
        ensures
            final(self).state() == old(self).state(),
            final(self).version() == bumped(old(self).version()),
    {
        self.instruction_version = self.instruction_version.wrapping_add(1);
        if self.instruction_version == 0 {
            self.instruction_version = 1;
        }
    }
}

/// Every change gives a version that differs from the one before and from zero.
pub proof fn law_version_advances(version: u64)
    ensures
        bumped(version) != version,
        bumped(version) != 0,
{
}

impl AddressBus for LinearMemoryBus {
    open spec fn view(&self) -> BusView {
        self.state().behavior()
    }

    fn read_byte(&mut self, address: u32) -> (r: u8) {
        proof {
            self.state().lemma_behavior(BusOp::ReadByte(address));
        }
        self.read_index(address)
    }

    fn read_word(&mut self, address: u32) -> (r: u16) {
        proof {
            self.state().lemma_behavior(BusOp::ReadWord(address));
        }
        ((self.read_index(address) as u16) << 8) | (self.read_index(address.wrapping_add(1)) as u16)
    }

    fn read_long(&mut self, address: u32) -> (r: u32) {
        proof {
            self.state().lemma_behavior(BusOp::ReadLong(address));
        }
        ((self.read_index(address) as u32) << 24) | ((self.read_index(address.wrapping_add(1)) as u32)
            << 16) | ((self.read_index(address.wrapping_add(2)) as u32) << 8) | (self.read_index(
            address.wrapping_add(3),
        ) as u32)
    }

    fn write_byte(&mut self, address: u32, value: u8)
        ensures
            final(self).state() == old(self).state().put(address, value),
            final(self).version() == bumped(old(self).version()),
    {
        proof {
            self.state().lemma_behavior(BusOp::WriteByte(address, value));
        }
        self.write_index(address, value);
        self.bump_instruction_version();
    }

    fn write_word(&mut self, address: u32, value: u16)
        ensures
            final(self).state() == old(self).state().put_word(address, value),
            final(self).version() == bumped(old(self).version()),
    {
        proof {
            self.state().lemma_behavior(BusOp::WriteWord(address, value));
        }
        self.write_index(address, (value >> 8) as u8);
        self.write_index(address.wrapping_add(1), value as u8);
        self.bump_instruction_version();
    }

    fn write_long(&mut self, address: u32, value: u32)
        ensures
            final(self).state() == old(self).state().put_long(address, value),
            final(self).version() == bumped(old(self).version()),
    {
        proof {
            self.state().lemma_behavior(BusOp::WriteLong(address, value));
        }
        self.write_index(address, (value >> 24) as u8);
        self.write_index(address.wrapping_add(1), (value >> 16) as u8);
        self.write_index(address.wrapping_add(2), (value >> 8) as u8);
        self.write_index(address.wrapping_add(3), value as u8);
        self.bump_instruction_version();
    }

    fn try_read_byte(&mut self, address: u32) -> (r: Result<u8, BusFault>) {
        proof {
            self.state().lemma_behavior(BusOp::TryReadByte(address));
        }
        Ok(self.read_index(address))
    }

    fn try_read_word(&mut self, address: u32) -> (r: Result<u16, BusFault>) {
        proof {
            self.state().lemma_behavior(BusOp::TryReadWord(address));
        }
        let value: u16 = ((self.read_index(address) as u16) << 8) | (self.read_index(address.wrapping_add(1)) as u16);
        Ok(value)
    }

    fn try_read_long(&mut self, address: u32) -> (r: Result<u32, BusFault>) {
        proof {
            self.state().lemma_behavior(BusOp::TryReadLong(address));
        }
        let value: u32 = ((self.read_index(address) as u32) << 24) | ((self.read_index(address.wrapping_add(1)) as u32)
            << 16) | ((self.read_index(address.wrapping_add(2)) as u32) << 8) | (self.read_index(
            address.wrapping_add(3),
        ) as u32);
        Ok(value)
    }

    fn try_read_three_bytes(&mut self, address: u32) -> (r: Result<u32, BusFault>) {
        proof {
            self.state().lemma_behavior(BusOp::TryReadThreeBytes(address));
        }
        let value: u32 = ((self.read_index(address) as u32) << 16) | ((self.read_index(address.wrapping_add(1)) as u32)
            << 8) | (self.read_index(address.wrapping_add(2)) as u32);
        Ok(value)
    }

    fn try_write_byte(&mut self, address: u32, value: u8) -> (r: Result<(), BusFault>)
        ensures
            final(self).state() == old(self).state().put(address, value),
            final(self).version() == bumped(old(self).version()),
    {
        proof {
            self.state().lemma_behavior(BusOp::TryWriteByte(address, value));
        }
        self.write_index(address, value);
        self.bump_instruction_version();
        Ok(())
    }

    fn try_write_word(&mut self, address: u32, value: u16) -> (r: Result<(), BusFault>)
        ensures
            final(self).state() == old(self).state().put_word(address, value),
            final(self).version() == bumped(old(self).version()),
    {
        proof {
            self.state().lemma_behavior(BusOp::TryWriteWord(address, value));
        }
        self.write_index(address, (value >> 8) as u8);
        self.write_index(address.wrapping_add(1), value as u8);
        self.bump_instruction_version();
        Ok(())
    }

    fn try_write_long(&mut self, address: u32, value: u32) -> (r: Result<(), BusFault>)
        ensures
            final(self).state() == old(self).state().put_long(address, value),
            final(self).version() == bumped(old(self).version()),
    {
        proof {
            self.state().lemma_behavior(BusOp::TryWriteLong(address, value));
        }
        self.write_index(address, (value >> 24) as u8);
        self.write_index(address.wrapping_add(1), (value >> 16) as u8);
        self.write_index(address.wrapping_add(2), (value >> 8) as u8);
        self.write_index(address.wrapping_add(3), value as u8);
        self.bump_instruction_version();
        Ok(())
    }

    fn try_write_three_bytes(&mut self, address: u32, value: u32) -> (r: Result<(), BusFault>)
        ensures
            final(self).state() == old(self).state().put_three(address, value),
            final(self).version() == bumped(old(self).version()),
    {
        proof {
            self.state().lemma_behavior(BusOp::TryWriteThreeBytes(address, value));
        }
        self.write_index(address, (value >> 16) as u8);
        self.write_index(address.wrapping_add(1), (value >> 8) as u8);
        self.write_index(address.wrapping_add(2), value as u8);
        self.bump_instruction_version();
        Ok(())
    }

    fn read_immediate_word(&mut self, address: u32) -> (r: u16) {
        proof {
            self.state().lemma_behavior(BusOp::ReadImmediateWord(address));
        }
        ((self.read_index(address) as u16) << 8) | (self.read_index(address.wrapping_add(1)) as u16)
    }

    fn read_immediate_long(&mut self, address: u32) -> (r: u32) {
        proof {
            self.state().lemma_behavior(BusOp::ReadImmediateLong(address));
        }
        ((self.read_index(address) as u32) << 24) | ((self.read_index(address.wrapping_add(1)) as u32)
            << 16) | ((self.read_index(address.wrapping_add(2)) as u32) << 8) | (self.read_index(
            address.wrapping_add(3),
        ) as u32)
    }

    fn interrupt_acknowledge(&mut self, _level: u8) -> (r: u32) {
        proof {
            self.state().lemma_behavior(BusOp::InterruptAcknowledge(_level));
        }
        0xFFFF_FFFF
    }

    fn reset_devices(&mut self) {
        proof {
            self.state().lemma_behavior(BusOp::ResetDevices);
        }
    }

    fn sync(&mut self, _clocks: u32) {
        proof {
            self.state().lemma_behavior(BusOp::Sync(_clocks));
        }
    }

    fn ipl_hold_sample(&mut self) {
        proof {
            self.state().lemma_behavior(BusOp::IplHoldSample);
        }
    }

    fn ipl_release_sample(&mut self) {
        proof {
            self.state().lemma_behavior(BusOp::IplReleaseSample);
        }
    }

    fn begin_instruction_fetches(&mut self) {
        proof {
            self.state().lemma_behavior(BusOp::BeginInstructionFetches);
        }
    }

    fn prefetch_refill(&mut self) {
        proof {
            self.state().lemma_behavior(BusOp::PrefetchRefill);
        }
    }

    fn last_fetch_was_cached(&mut self) -> (r: bool) {
        proof {
            self.state().lemma_behavior(BusOp::LastFetchWasCached);
        }
        false
    }

    fn instruction_fetches_were_cached(&mut self) -> (r: bool) {
        proof {
            self.state().lemma_behavior(BusOp::InstructionFetchesWereCached);
        }
        false
    }

    fn instruction_boundary_requested(&mut self) -> (r: bool) {
        proof {
            self.state().lemma_behavior(BusOp::InstructionBoundaryRequested);
        }
        false
    }

    fn fast_mem(&mut self) -> (r: Option<FastMem>) {
        proof {
            self.state().lemma_behavior(BusOp::FastMem);
        }
        let len: usize = self.memory.len();
        let len: u32 = if len <= u32::MAX as usize {
            len as u32
        } else {
            u32::MAX
        };
        Some(FastMem { base: 0, len })
    }

    fn translate(&mut self, _mmu: MmuRegs, _cpu_type: CpuType, access: Translation) -> (r: Result<u32, MmuFault>) {
        proof {
            self.state().lemma_behavior(BusOp::Translate(_mmu, _cpu_type, access));
        }
        Ok(access.address)
    }

    fn probe(&mut self, _mmu: MmuRegs, _cpu_type: CpuType, _request: Probe) -> (r: ProbeResult) {
        proof {
            self.state().lemma_behavior(BusOp::Probe(_mmu, _cpu_type, _request));
        }
        ProbeResult { status: 0, descriptor: 0 }
    }

    fn retire_cycles(&mut self, _cpu_type: CpuType, record: Retirement) -> (r: i32) {
        proof {
            self.state().lemma_behavior(BusOp::RetireCycles(_cpu_type, record));
        }
        record.base_cycles
    }

    fn unit(&mut self, cpu: &mut CpuCore, op: UnitOp) -> (r: Option<i32>) {
        proof {
            self.state().lemma_behavior(BusOp::Unit(*cpu, op));
        }
        None
    }

    fn window(&mut self) -> (w: &mut [u8]) {
        proof {
            self.state().lemma_behavior(BusOp::Window);
        }
        let ghost before = self.state();
        let w = self.memory.as_mut_slice();
        proof {
            before.lemma_behavior(BusOp::SetWindow(final(w)@));
        }
        w
    }
}

impl InstructionCacheBus for LinearMemoryBus {
    open spec fn version_at(&self, address: u32) -> Option<u64> {
        Some(self.version())
    }

    fn instruction_cache_version(&mut self, _address: u32) -> (r: Option<u64>) {
        Some(self.instruction_version)
    }

    fn invalidate_instruction_cache(&mut self, _address: u32, _len: u32) {
        self.bump_instruction_version();
    }
}

} // verus!
