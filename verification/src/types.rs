//! Value types shared by the whole core.

use vstd::prelude::*;

verus! {

/// Processor models of the family.
#[derive(Debug, Clone, Copy, PartialEq, Eq, Structural)]
pub enum CpuType {
    /// No processor selected.
    Invalid,
    M68000,
    M68010,
    M68EC020,
    M68020,
    M68EC030,
    M68030,
    M68EC040,
    M68LC040,
    M68040,
    M68060,
    /// 68010 instruction set on a 32-bit address bus.
    SCC68070,
}

/// The 68000, the 68010 and the 68010-compatible SCC68070.
pub open spec fn pre_68020(cpu_type: CpuType) -> bool {
    cpu_type == CpuType::M68000 || cpu_type == CpuType::M68010 || cpu_type == CpuType::SCC68070
}

/// Whether the model predates the 68020 instruction set.
#[verifier::when_used_as_spec(pre_68020)]
pub fn is_pre_68020(cpu_type: CpuType) -> (r: bool)
    ensures
        r == pre_68020(cpu_type),
{
    match cpu_type {
        CpuType::M68000 | CpuType::M68010 | CpuType::SCC68070 => true,
        _ => false,
    }
}

/// The 68040 in its full, LC and EC forms.
pub open spec fn family_040(cpu_type: CpuType) -> bool {
    cpu_type == CpuType::M68EC040 || cpu_type == CpuType::M68LC040 || cpu_type == CpuType::M68040
}

/// The 68020, the 68030 and the 68040 in all their forms.
pub open spec fn family_020_to_040(cpu_type: CpuType) -> bool {
    ||| cpu_type == CpuType::M68EC020
    ||| cpu_type == CpuType::M68020
    ||| cpu_type == CpuType::M68EC030
    ||| cpu_type == CpuType::M68030
    ||| family_040(cpu_type)
}

/// Whether the model is a 68020, 68030 or 68040 of any form.
#[verifier::when_used_as_spec(family_020_to_040)]
pub fn is_020_to_040(cpu_type: CpuType) -> (r: bool)
    ensures
        r == family_020_to_040(cpu_type),
{
    match cpu_type {
        CpuType::M68EC020
        | CpuType::M68020
        | CpuType::M68EC030
        | CpuType::M68030
        | CpuType::M68EC040
        | CpuType::M68LC040
        | CpuType::M68040 => true,
        _ => false,
    }
}

/// Operand size.
#[derive(Debug, Clone, Copy, PartialEq, Eq, Structural)]
pub enum Size {
    Byte,
    Word,
    Long,
}

impl Size {
    /// Number of bytes an operand of this size occupies.
    pub open spec fn spec_bytes(self) -> u32 {
        match self {
            Size::Byte => 1,
            Size::Word => 2,
            Size::Long => 4,
        }
    }

    /// Number of bytes an operand of this size occupies.
    #[verifier::when_used_as_spec(spec_bytes)]
    pub fn bytes(self) -> (r: u32)
        ensures
            r == self.spec_bytes(),
    {
        match self {
            Size::Byte => 1,
            Size::Word => 2,
            Size::Long => 4,
        }
    }

    /// The bits of a register that an operand of this size covers.
    pub open spec fn spec_mask(self) -> u32 {
        match self {
            Size::Byte => 0xFF,
            Size::Word => 0xFFFF,
            Size::Long => 0xFFFF_FFFF,
        }
    }

    /// The bits of a register that an operand of this size covers.
    #[verifier::when_used_as_spec(spec_mask)]
    pub fn mask(self) -> (r: u32)
        ensures
            r == self.spec_mask(),
    {
        match self {
            Size::Byte => 0xFF,
            Size::Word => 0xFFFF,
            Size::Long => 0xFFFF_FFFF,
        }
    }

    /// The sign bit of an operand of this size.
    pub open spec fn spec_msb(self) -> u32 {
        match self {
            Size::Byte => 0x80,
            Size::Word => 0x8000,
            Size::Long => 0x8000_0000,
        }
    }

    /// The sign bit of an operand of this size.
    #[verifier::when_used_as_spec(spec_msb)]
    pub fn msb(self) -> (r: u32)
        ensures
            r == self.spec_msb(),
    {
        match self {
            Size::Byte => 0x80,
            Size::Word => 0x8000,
            Size::Long => 0x8000_0000,
        }
    }
}

/// Outcome of one instruction, as the host sees it.
#[derive(Debug, Clone, Copy, PartialEq, Eq, Structural)]
pub enum StepResult {
    /// The instruction completed in this many cycles.
    Completed { cycles: i32 },
    /// The processor is stopped.
    Stopped,
    AlineTrap { opcode: u16 },
    FlineTrap { opcode: u16 },
    TrapInstruction { trap_num: u8 },
    Breakpoint { bp_num: u8 },
    IllegalInstruction { opcode: u16 },
}

/// Outcome of the dispatcher: cycles, or a trap the caller may intercept.
#[derive(Debug, Clone, Copy, PartialEq, Eq, Structural)]
pub enum InternalStepResult {
    Completed { cycles: i32 },
    AlineTrap { opcode: u16 },
    FlineTrap { opcode: u16 },
    TrapInstruction { trap_num: u8 },
    Breakpoint { bp_num: u8 },
    IllegalInstruction { opcode: u16 },
}

/// Why an instruction-budgeted batch returned.
#[derive(Debug, Clone, Copy, PartialEq, Eq, Structural)]
pub enum BatchExit {
    BudgetExhausted,
    Stopped,
    WatchedPc { pc: u32 },
    AlineTrap { opcode: u16 },
    FlineTrap { opcode: u16 },
    TrapInstruction { trap_num: u8 },
    Breakpoint { bp_num: u8 },
    IllegalInstruction { opcode: u16 },
}

/// Result of an instruction-budgeted batch.
#[derive(Debug, Clone, Copy, PartialEq, Eq, Structural)]
pub struct BatchResult {
    /// Instructions retired by the batch.
    pub instructions: u32,
    pub exit: BatchExit,
}

/// Why a cycle-budgeted batch returned.
#[derive(Debug, Clone, Copy, PartialEq, Eq, Structural)]
pub enum CycleBatchExit {
    BudgetExhausted,
    Stopped,
    BoundaryRequested,
    AlineTrap { opcode: u16 },
    FlineTrap { opcode: u16 },
    TrapInstruction { trap_num: u8 },
    Breakpoint { bp_num: u8 },
    IllegalInstruction { opcode: u16 },
}

/// Result of a cycle-budgeted batch.
#[derive(Debug, Clone, Copy, PartialEq, Eq, Structural)]
pub struct CycleBatchResult {
    /// Cycles consumed, interrupt entries included.
    pub cycles: i32,
    /// Instructions retired by the batch.
    pub instructions: u32,
    pub exit: CycleBatchExit,
}

/// What a boundary hook asks the runner to do.
#[derive(Debug, Clone, Copy, PartialEq, Eq, Structural)]
pub enum CycleBatchControl {
    Continue,
    Return,
}

/// The boundary at which a hook is called.
#[derive(Debug, Clone, Copy, PartialEq, Eq, Structural)]
pub enum CycleBoundaryEvent {
    /// An instruction retired.
    Instruction { cycles: i32 },
    /// Interrupt entry completed; the handler has not run yet.
    InterruptEntry { cycles: i32 },
}

} // verus!
