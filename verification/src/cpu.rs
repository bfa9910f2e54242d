//! Architectural CPU state, configuration, and register access.

use vstd::prelude::*;
use crate::memory::MmuFaultCause;
use crate::op_cache::OpCache;
use crate::types::CpuType;

verus! {

/// Whether precise bus ordering is on for a freshly restored processor.
pub fn precise_bus_default() -> (r: bool)
    ensures
        r,
{
    true
}

/// Internal representation of a set extend (X) flag.
pub const XFLAG_SET: u32 = 0x100;
/// Internal representation of a set negative (N) flag.
pub const NFLAG_SET: u32 = 0x80;
/// Internal representation of a set overflow (V) flag.
pub const VFLAG_SET: u32 = 0x80;
/// Internal representation of a set carry (C) flag.
pub const CFLAG_SET: u32 = 0x100;
/// Internal representation of supervisor mode.
pub const SFLAG_SET: u32 = 4;
/// Internal representation of the 68020+ master-stack bit.
pub const MFLAG_SET: u32 = 2;

/// User-data function code.
pub const FC_USER_DATA: u32 = 1;
/// User-program function code.
pub const FC_USER_PROGRAM: u32 = 2;
/// Supervisor-data function code.
pub const FC_SUPERVISOR_DATA: u32 = 5;
/// Supervisor-program function code.
pub const FC_SUPERVISOR_PROGRAM: u32 = 6;

/// Run mode of a processor that executes instructions.
pub const RUN_MODE_NORMAL: u32 = 0;
/// Run mode once a bus or address error has ended the current instruction.
pub const RUN_MODE_BERR_AERR_RESET: u32 = 1;

/// Enable instruction cache.
pub const CACR_EI: u32 = 0x0001;
/// Freeze instruction cache (hits served, misses do not allocate).
pub const CACR_FI: u32 = 0x0002;
/// Clear instruction cache entry indexed by CAAR (write-only strobe).
pub const CACR_CEI: u32 = 0x0004;
/// Clear instruction cache (write-only strobe).
pub const CACR_CI: u32 = 0x0008;
/// Instruction burst enable (68030).
pub const CACR_IBE: u32 = 0x0010;
/// Enable data cache (68030).
pub const CACR_ED: u32 = 0x0100;
/// Freeze data cache (68030).
pub const CACR_FD: u32 = 0x0200;
/// Clear data cache entry indexed by CAAR (68030; write-only strobe).
pub const CACR_CED: u32 = 0x0400;
/// Clear data cache (68030; write-only strobe).
pub const CACR_CD: u32 = 0x0800;
/// Data burst enable (68030).
pub const CACR_DBE: u32 = 0x1000;
/// Write allocate (68030).
pub const CACR_WA: u32 = 0x2000;
/// Enable instruction cache (68040).
pub const CACR_040_IE: u32 = 0x0000_8000;
/// Enable data cache (68040).
pub const CACR_040_DE: u32 = 0x8000_0000;
/// Enable data cache (68060).
pub const CACR_060_EDC: u32 = 0x8000_0000;
/// No allocate mode, data cache (68060).
pub const CACR_060_NAD: u32 = 0x4000_0000;
/// Enable store buffer (68060).
pub const CACR_060_ESB: u32 = 0x2000_0000;
/// Disable CPUSH invalidation, data (68060).
pub const CACR_060_DPI: u32 = 0x1000_0000;
/// Half-cache operation mode, data (68060).
pub const CACR_060_FOC: u32 = 0x0800_0000;
/// Enable branch cache (68060).
pub const CACR_060_EBC: u32 = 0x0080_0000;
/// Clear all entries in the branch cache (68060, write-only strobe).
pub const CACR_060_CABC: u32 = 0x0040_0000;
/// Clear all user entries in the branch cache (68060, write-only strobe).
pub const CACR_060_CUBC: u32 = 0x0020_0000;
/// Enable instruction cache (68060).
pub const CACR_060_EIC: u32 = 0x0000_8000;
/// No allocate mode, instruction cache (68060).
pub const CACR_060_NAI: u32 = 0x0000_4000;
/// Half-cache operation mode, instruction (68060).
pub const CACR_060_FIC: u32 = 0x0000_2000;
/// Enable superscalar dispatch.
pub const PCR_ESS: u32 = 0x01;
/// Disable the on-chip FPU: FP instructions raise Line-F.
pub const PCR_DFP: u32 = 0x02;
/// Enable debug features (stored only).
pub const PCR_EDEBUG: u32 = 0x80;
/// Reset value: identification 0x0430 (full MC68060), revision 1, ESS and
/// DFP clear.
pub const PCR_060_RESET: u32 = 0x0430_0100;

/// An 80-bit extended-precision value: sign and exponent, then mantissa.
#[derive(Debug, Clone, Copy, PartialEq, Eq, Structural)]
pub struct FloatX80 {
    pub high: u16,
    pub low: u64,
}

/// Control registers of the 68010 and later.
#[derive(Debug, Clone, Copy, PartialEq, Eq, Structural)]
pub struct ControlRegs {
    /// Vector Base Register (68010+)
    pub vbr: u32,
    /// Source Function Code (68010+)
    pub sfc: u32,
    /// Destination Function Code (68010+)
    pub dfc: u32,
    /// Cache Control Register (68020+): only the persistent control bits.
    pub cacr: u32,
    /// Cache Address Register (68020+)
    pub caar: u32,
    /// CACR clear strobes accumulated since the host last drained them. They
    /// always read back as zero, so they are latched here instead of in `cacr`.
    pub cacr_pending_ops: u32,
    /// Processor Configuration Register (68060).
    pub pcr: u32,
    /// Bus Control Register (68060).
    pub buscr: u32,
}

/// Memory-management registers. One register set is shared by the 68030 and
/// 68040 layouts: `crp_aptr` is the CRP on the 030 and the URP on the 040.
#[derive(Debug, Clone, Copy, PartialEq, Eq, Structural)]
pub struct MmuRegs {
    pub crp_aptr: u32,
    pub crp_limit: u32,
    pub srp_aptr: u32,
    pub srp_limit: u32,
    /// Translation Control register.
    pub tc: u32,
    /// MMU Status Register.
    pub sr: u32,
    /// 68030 Transparent Translation Register 0.
    pub tt0: u32,
    /// 68030 Transparent Translation Register 1.
    pub tt1: u32,
    /// Instruction Transparent Translation 0 (68040)
    pub itt0: u32,
    /// Instruction Transparent Translation 1 (68040)
    pub itt1: u32,
    /// Data Transparent Translation 0 (68040)
    pub dtt0: u32,
    /// Data Transparent Translation 1 (68040)
    pub dtt1: u32,
    pub dacr0: u32,
    pub dacr1: u32,
    pub iacr0: u32,
    pub iacr1: u32,
    /// The part has an MMU.
    pub present: bool,
    /// Translation is on.
    pub enabled: bool,
    /// Cached translations made under another generation are stale.
    pub atc_generation: u32,
}

/// Floating-point registers.
#[derive(Debug, Clone, Copy)]
pub struct FpuRegs {
    pub fpr: [FloatX80; 8],
    pub fpiar: u32,
    pub fpsr: u32,
    pub fpcr: u32,
    /// No floating-point instruction has run since the reset.
    pub just_reset: bool,
    /// A floating-point coprocessor is attached.
    pub present: bool,
}

/// State kept when a fault handler is entered in mid-instruction.
#[derive(Debug, Clone, Copy)]
pub struct FaultResume {
    pub pc: u32,
    pub sr: u16,
    pub dar: [u32; 16],
}

/// State of fault delivery.
#[derive(Debug, Clone, Copy)]
pub struct FaultState {
    /// Vector taken by the instruction currently being timed.
    pub instruction_vector: Option<u32>,
    /// Vector of the most recent exception entry, for the host.
    pub last_vector: Option<u32>,
    /// Cause of the MMU fault being delivered.
    pub cause: Option<MmuFaultCause>,
    /// Function code forced for the current data access by MOVES.
    pub fc_override: Option<u8>,
    /// One-shot completion of a faulted read: address and value.
    pub read_override: Option<(u32, u32)>,
    /// One-shot suppressed data write: its address.
    pub write_suppress: Option<u32>,
    /// Data of the most recent data write.
    pub wdata: u32,
    /// Handler-entry state, asserted again when the faulted instruction ends.
    pub resume: Option<FaultResume>,
    /// The bit-field instruction being timed spanned five bytes.
    pub wide_span: bool,
}

/// 68010 loop mode.
#[derive(Debug, Clone, Copy, PartialEq, Eq, Structural)]
pub struct LoopState {
    /// The looping pair is held in the prefetch queue.
    pub active: bool,
    /// The looped one-word body instruction.
    pub body_word: u16,
    /// The looping DBcc opcode.
    pub dbcc_word: u16,
}

/// Model-dependent cycle constants.
#[derive(Debug, Clone, Copy, PartialEq, Eq, Structural)]
pub struct CycleTable {
    /// Cycles for Bcc not taken (byte)
    pub bcc_notake_b: i32,
    /// Cycles for Bcc not taken (word)
    pub bcc_notake_w: i32,
    /// Cycles for DBcc false, no expiration
    pub dbcc_f_noexp: i32,
    /// Cycles for DBcc false, expiration
    pub dbcc_f_exp: i32,
    /// Cycles for Scc register true
    pub scc_r_true: i32,
    /// Cycles per word for MOVEM
    pub movem_w: i32,
    /// Cycles per long for MOVEM
    pub movem_l: i32,
    /// Cycles per shift count
    pub shift: i32,
    /// Cycles for RESET instruction
    pub reset: i32,
}

/// State between the processor and its host.
#[derive(Debug, Clone, Copy, PartialEq, Eq, Structural)]
pub struct HostState {
    pub reset_cycles: u32,
    pub virq_state: u32,
    pub nmi_pending: u32,
    pub instr_mode: u32,
    /// First address of the memory window of the batch that is running.
    pub fm_base: u32,
    /// Length of that window; zero when there is none.
    pub fm_len: u32,
    /// Execute instructions that the 68060 dropped, instead of trapping.
    pub emulate_unimplemented_060: bool,
    /// Use the MAME reading of a few edge cases of the 68000.
    pub sst_m68000_compat: bool,
    /// Branch-cache entries made under another generation are stale (68060).
    pub branch_cache_generation: u32,
    /// User branch-cache entries made under another generation are stale (68060).
    pub branch_cache_user_generation: u32,
    /// An instruction waits to be paired in the pipeline (68060).
    pub pipeline_head: bool,
}

/// Condition codes, stored apart for speed.
#[derive(Debug, Clone, Copy)]
pub struct Ccr {
    /// Extend flag (X)
    pub x_flag: u32,
    /// Negative flag (N)
    pub n_flag: u32,
    /// Zero flag (inverted: 0 = Z set, non-zero = Z clear)
    pub not_z_flag: u32,
    /// Overflow flag (V)
    pub v_flag: u32,
    /// Carry flag (C)
    pub c_flag: u32,
}

/// System half of the status register.
#[derive(Debug, Clone, Copy)]
pub struct SystemFlags {
    /// Trace 1 flag (T1 bit of SR)
    pub t1_flag: u32,
    /// Trace 0 flag (T0 bit of SR, 68020+)
    pub t0_flag: u32,
    /// Supervisor flag (0 or SFLAG_SET=4)
    pub s_flag: u32,
    /// Master/Interrupt state (0 or MFLAG_SET=2, 68020+)
    pub m_flag: u32,
    /// Interrupt mask (I0-I2)
    pub int_mask: u32,
}

/// State of the run loop.
#[derive(Debug, Clone, Copy)]
pub struct RunState {
    /// Current interrupt level
    pub int_level: u32,
    /// Stopped state (STOP instruction)
    pub stopped: u32,
    /// Change-of-flow flag for T0 trace (set by BRA, JMP, JSR, RTS, etc.)
    pub change_of_flow: bool,
    /// Run mode (normal, bus error, address error)
    pub run_mode: u32,
    /// True while processing an exception (for double-fault detection)
    pub exception_processing: bool,
    /// Remaining cycles in current timeslice
    pub cycles_remaining: i32,
    /// Initial cycles for timeslice
    pub initial_cycles: i32,
}

/// Instruction prefetch.
#[derive(Debug, Clone, Copy)]
pub struct PrefetchState {
    /// The two-word instruction prefetch queue: `prefetch_queue[0..prefetch_count]`
    /// hold the words at `pc` and `pc + 2`.
    pub prefetch_queue: [u16; 2],
    /// Number of valid words in `prefetch_queue` (0..=2), starting at `pc`.
    pub prefetch_count: u8,
    /// When set, instruction-stream consumes skip their accompanying prefetch
    /// bus read.
    pub consume_without_prefetch: bool,
    /// Internal (non-bus) CPU clocks accumulated since the last bus access.
    pub pending_sync_clocks: u32,
}

/// Configuration of the model.
#[derive(Debug, Clone, Copy)]
pub struct Model {
    /// CPU type
    pub cpu_type: CpuType,
    /// Address mask (24-bit for 68000, 32-bit for 68020+)
    pub address_mask: u32,
    /// SR mask (implemented bits)
    pub sr_mask: u32,
    /// `cpu_type` is pre-68020. Updated in `set_cpu_type`.
    pub is_pre_68020: bool,
    /// Whether instruction execution preserves transaction-level bus ordering
    /// and timing.
    pub precise_bus: bool,
}

/// Snapshot taken when an instruction starts, for bus and address error recovery.
#[derive(Debug, Clone, Copy)]
pub struct SaveState {
    /// Saved registers for bus/address error recovery
    pub dar_save: [u32; 16],
    /// Saved SR for bus/address error recovery (captured at start of instruction).
    pub sr_save: u16,
}

/// The main CPU state structure.
#[derive(Debug)]
pub struct CpuCore {
    /// Data and Address registers (D0-D7, A0-A7)
    pub dar: [u32; 16],
    /// Previous program counter
    pub ppc: u32,
    /// Program counter
    pub pc: u32,
    /// Stack pointers: [USP, _, _, _, ISP, _, MSP, _]
    pub sp: [u32; 8],
    /// Instruction Register (current opcode)
    pub ir: u32,
    pub ccr: Ccr,
    pub sys: SystemFlags,
    pub run: RunState,
    pub queue: PrefetchState,
    pub model: Model,
    pub save: SaveState,
    pub control: ControlRegs,
    pub mmu: MmuRegs,
    pub fpu: FpuRegs,
    pub fault: FaultState,
    pub looping: LoopState,
    pub timing: CycleTable,
    pub host: HostState,
    /// Opcode-indexed decode table (lazily allocated). Dropped when
    /// `cpu_type` changes.
    pub decode_table: Option<OpCache>,
}

/// The address width of a model, where the model fixes one.
pub open spec fn model_address_mask(cpu_type: CpuType) -> u32 {
    match cpu_type {
        CpuType::M68000 | CpuType::M68010 => 0x00FF_FFFF,
        _ => 0xFFFF_FFFF,
    }
}

/// The implemented SR bits of a model, where the model fixes them.
pub open spec fn model_sr_mask(cpu_type: CpuType) -> u32 {
    match cpu_type {
        CpuType::M68000 | CpuType::M68010 | CpuType::SCC68070 => 0xA71F,
        CpuType::M68060 => 0xB71F,
        _ => 0xF71F,
    }
}

/// Whether a model has an MMU on chip.
pub open spec fn model_has_mmu(cpu_type: CpuType) -> bool {
    cpu_type == CpuType::M68030 || cpu_type == CpuType::M68040 || cpu_type == CpuType::M68060
}

/// The CACR bits that persist and the ones that are clear strobes.
pub open spec fn spec_cacr_masks(cpu_type: CpuType) -> (u32, u32) {
    match cpu_type {
        CpuType::M68EC020 | CpuType::M68020 => (0x0003, 0x000C),
        CpuType::M68EC030 | CpuType::M68030 => (0x3313, 0x0C0C),
        CpuType::M68060 => (0xF880_E000, 0),
        _ => (0x8000_8000, 0),
    }
}

/// The CACR bits that persist and the ones that are clear strobes.
#[verifier::when_used_as_spec(spec_cacr_masks)]
pub fn cacr_masks(cpu_type: CpuType) -> (r: (u32, u32))
    ensures
        r == spec_cacr_masks(cpu_type),
{
    match cpu_type {
        CpuType::M68EC020 | CpuType::M68020 => {
            proof {
                lemma_cacr_constants();
            }
            (CACR_EI | CACR_FI, CACR_CEI | CACR_CI)
        },
        CpuType::M68EC030 | CpuType::M68030 => {
            proof {
                lemma_cacr_constants();
            }
            (
                CACR_EI | CACR_FI | CACR_IBE | CACR_ED | CACR_FD | CACR_DBE | CACR_WA,
                CACR_CEI | CACR_CI | CACR_CED | CACR_CD,
            )
        },
        CpuType::M68060 => {
            proof {
                lemma_cacr_constants();
            }
            (
                CACR_060_EDC | CACR_060_NAD | CACR_060_ESB | CACR_060_DPI | CACR_060_FOC
                    | CACR_060_EBC | CACR_060_EIC | CACR_060_NAI | CACR_060_FIC,
                0,
            )
        },
        _ => {
            proof {
                lemma_cacr_constants();
            }
            (CACR_040_IE | CACR_040_DE, 0)
        },
    }
}

proof fn lemma_cacr_constants()
    by (bit_vector)
    ensures
        0x0001u32 | 0x0002u32 == 0x0003u32,
        0x0004u32 | 0x0008u32 == 0x000Cu32,
        0x0001u32 | 0x0002u32 | 0x0010u32 | 0x0100u32 | 0x0200u32 | 0x1000u32 | 0x2000u32
            == 0x3313u32,
        0x0004u32 | 0x0008u32 | 0x0400u32 | 0x0800u32 == 0x0C0Cu32,
        0x8000_0000u32 | 0x4000_0000u32 | 0x2000_0000u32 | 0x1000_0000u32 | 0x0800_0000u32
            | 0x0080_0000u32 | 0x0000_8000u32 | 0x0000_4000u32 | 0x0000_2000u32 == 0xF880_E000u32,
        0x0000_8000u32 | 0x8000_0000u32 == 0x8000_8000u32,
        0x80u32 | 0x02u32 | 0x01u32 == 0x83u32,
        0x0008u32 | 0x0800u32 == 0x0808u32,
{
}

impl Default for CpuCore {
    fn default() -> (r: Self)
        ensures
            r == CpuCore::power_on(),
    {
        CpuCore::new()
    }
}

impl CpuCore {
    /// The processor after a unit turned it into `worked`: what belongs to
    /// the run stays as it is here.
    pub open spec fn lent_to_unit(self, worked: CpuCore) -> CpuCore {
        CpuCore {
            ppc: self.ppc,
            host: self.host,
            run: RunState {
                int_level: self.run.int_level,
                initial_cycles: self.run.initial_cycles,
                cycles_remaining: self.run.cycles_remaining,
                ..worked.run
            },
            ..worked
        }
    }
}

impl CpuCore {
    /// The state of a new M68000.
    pub open spec fn power_on() -> CpuCore {
        CpuCore {
            dar: vstd::array::spec_array_fill_for_copy_type(0u32),
            ppc: 0,
            pc: 0,
            sp: vstd::array::spec_array_fill_for_copy_type(0u32),
            ir: 0,
            ccr: Ccr {
                x_flag: 0,
                n_flag: 0,
                not_z_flag: 1,
                v_flag: 0,
                c_flag: 0,
            },
            sys: SystemFlags {
                t1_flag: 0,
                t0_flag: 0,
                s_flag: SFLAG_SET,
                m_flag: 0,
                int_mask: 0x0700,
            },
            run: RunState {
                int_level: 0,
                stopped: 0,
                change_of_flow: false,
                run_mode: 0,
                exception_processing: false,
                cycles_remaining: 0,
                initial_cycles: 0,
            },
            queue: PrefetchState {
                prefetch_queue: vstd::array::spec_array_fill_for_copy_type(0u16),
                prefetch_count: 0,
                consume_without_prefetch: false,
                pending_sync_clocks: 0,
            },
            model: Model {
                cpu_type: CpuType::M68000,
                address_mask: 0x00FF_FFFF,
                sr_mask: 0xA71F,
                is_pre_68020: true,
                precise_bus: true,
            },
            save: SaveState {
                dar_save: vstd::array::spec_array_fill_for_copy_type(0u32),
                sr_save: 0,
            },
            control: ControlRegs {
                vbr: 0,
                sfc: 0,
                dfc: 0,
                cacr: 0,
                caar: 0,
                cacr_pending_ops: 0,
                pcr: PCR_060_RESET,
                buscr: 0,
            },
            mmu: MmuRegs {
                crp_aptr: 0,
                crp_limit: 0,
                srp_aptr: 0,
                srp_limit: 0,
                tc: 0,
                sr: 0,
                tt0: 0,
                tt1: 0,
                itt0: 0,
                itt1: 0,
                dtt0: 0,
                dtt1: 0,
                dacr0: 0,
                dacr1: 0,
                iacr0: 0,
                iacr1: 0,
                present: false,
                enabled: false,
                atc_generation: 0,
            },
            fpu: FpuRegs {
                fpr: vstd::array::spec_array_fill_for_copy_type(FloatX80 { high: 0, low: 0 }),
                fpiar: 0,
                fpsr: 0,
                fpcr: 0,
                just_reset: true,
                present: true,
            },
            fault: FaultState {
                instruction_vector: None,
                last_vector: None,
                cause: None,
                fc_override: None,
                read_override: None,
                write_suppress: None,
                wdata: 0,
                resume: None,
                wide_span: false,
            },
            looping: LoopState { active: false, body_word: 0, dbcc_word: 0 },
            timing: CycleTable {
                bcc_notake_b: (-2) as i32,
                bcc_notake_w: 2,
                dbcc_f_noexp: (-2) as i32,
                dbcc_f_exp: 2,
                scc_r_true: 2,
                movem_w: 2,
                movem_l: 3,
                shift: 1,
                reset: 132,
            },
            host: HostState {
                reset_cycles: 0,
                virq_state: 0,
                nmi_pending: 0,
                instr_mode: 0,
                fm_base: 0,
                fm_len: 0,
                emulate_unimplemented_060: false,
                sst_m68000_compat: false,
                branch_cache_generation: 0,
                branch_cache_user_generation: 0,
                pipeline_head: false,
            },
            decode_table: None,
        }
    }

    /// Create a new CPU with M68000 defaults.
    pub fn new() -> (r: Self)
        ensures
            r == CpuCore::power_on(),
    {
        let mut cpu = CpuCore {
            dar: [0u32; 16],
            ppc: 0,
            pc: 0,
            sp: [0u32; 8],
            ir: 0,
            ccr: Ccr {
                x_flag: 0,
                n_flag: 0,
                not_z_flag: 1,
                v_flag: 0,
                c_flag: 0,
            },
            sys: SystemFlags {
                t1_flag: 0,
                t0_flag: 0,
                s_flag: SFLAG_SET,
                m_flag: 0,
                int_mask: 0x0700,
            },
            run: RunState {
                int_level: 0,
                stopped: 0,
                change_of_flow: false,
                run_mode: 0,
                exception_processing: false,
                cycles_remaining: 0,
                initial_cycles: 0,
            },
            queue: PrefetchState {
                prefetch_queue: [0u16; 2],
                prefetch_count: 0,
                consume_without_prefetch: false,
                pending_sync_clocks: 0,
            },
            model: Model {
                cpu_type: CpuType::M68000,
                address_mask: 0x00FF_FFFF,
                sr_mask: 0xA71F,
                is_pre_68020: true,
                precise_bus: true,
            },
            save: SaveState {
                dar_save: [0u32; 16],
                sr_save: 0,
            },
            control: ControlRegs {
                vbr: 0,
                sfc: 0,
                dfc: 0,
                cacr: 0,
                caar: 0,
                cacr_pending_ops: 0,
                pcr: PCR_060_RESET,
                buscr: 0,
            },
            mmu: MmuRegs {
                crp_aptr: 0,
                crp_limit: 0,
                srp_aptr: 0,
                srp_limit: 0,
                tc: 0,
                sr: 0,
                tt0: 0,
                tt1: 0,
                itt0: 0,
                itt1: 0,
                dtt0: 0,
                dtt1: 0,
                dacr0: 0,
                dacr1: 0,
                iacr0: 0,
                iacr1: 0,
                present: false,
                enabled: false,
                atc_generation: 0,
            },
            fpu: FpuRegs {
                fpr: [FloatX80 { high: 0, low: 0 }; 8],
                fpiar: 0,
                fpsr: 0,
                fpcr: 0,
                just_reset: true,
                present: true,
            },
            fault: FaultState {
                instruction_vector: None,
                last_vector: None,
                cause: None,
                fc_override: None,
                read_override: None,
                write_suppress: None,
                wdata: 0,
                resume: None,
                wide_span: false,
            },
            looping: LoopState { active: false, body_word: 0, dbcc_word: 0 },
            timing: CycleTable {
                bcc_notake_b: -2,
                bcc_notake_w: 2,
                dbcc_f_noexp: -2,
                dbcc_f_exp: 2,
                scc_r_true: 2,
                movem_w: 2,
                movem_l: 3,
                shift: 1,
                reset: 132,
            },
            host: HostState {
                reset_cycles: 0,
                virq_state: 0,
                nmi_pending: 0,
                instr_mode: 0,
                fm_base: 0,
                fm_len: 0,
                emulate_unimplemented_060: false,
                sst_m68000_compat: false,
                branch_cache_generation: 0,
                branch_cache_user_generation: 0,
                pipeline_head: false,
            },
            decode_table: None,
        };
        cpu.set_cpu_type(CpuType::M68000);
        proof {
            reveal(CpuCore::spec_set_cpu_type);
            reveal(CpuCore::spec_clear_execution_pipeline_state);
            reveal(CpuCore::spec_clear_decoded_op_cache);
        }
        cpu
    }

    /// Cycles of the models without a timing engine of their own, from the
    /// 68000 count: five eighths, rounded up, and at least two.
    pub open spec fn spec_scale_cycles_for_cpu_type(&self, cycles: i32) -> i32 {
        match self.model.cpu_type {
            CpuType::M68000 | CpuType::M68010 | CpuType::Invalid => cycles,
            _ => if cycles <= 2 {
                2
            } else {
                ((cycles * 5 + 7) / 8) as i32
            },
        }
    }

    /// Cycles of the models without a timing engine of their own, from the
    /// 68000 count.
    #[verifier::when_used_as_spec(spec_scale_cycles_for_cpu_type)]
    pub fn scale_cycles_for_cpu_type(&self, cycles: i32) -> (r: i32)
        ensures
            r == self.spec_scale_cycles_for_cpu_type(cycles),
    {
        match self.model.cpu_type {
            CpuType::M68000 | CpuType::M68010 | CpuType::Invalid => cycles,
            _ => if cycles <= 2 {
                2
            } else {
                ((cycles as u64 * 5 + 7) / 8) as i32
            },
        }
    }

    /// Enable/disable the MAME reading of a few edge cases.
    pub open spec fn spec_set_sst_m68000_compat(self, on: bool) -> CpuCore {
        let c = CpuCore { host: HostState { sst_m68000_compat: on, ..self.host }, ..self };
        c
    }

    /// Enable/disable the MAME reading of a few edge cases.
    pub fn set_sst_m68000_compat(&mut self, on: bool)
        ensures
            *final(self) == old(self).spec_set_sst_m68000_compat(on),
    {
        self.host.sst_m68000_compat = on;
    }

    /// Drop every decoded opcode.
    #[verifier::opaque]
    pub open spec fn spec_clear_decoded_op_cache(self) -> CpuCore {
        let c = CpuCore { decode_table: None, ..self };
        c
    }

    /// Drop every decoded opcode.
    pub fn clear_decoded_op_cache(&mut self)
        ensures
            *final(self) == old(self).spec_clear_decoded_op_cache(),
    {
        proof {
            reveal(CpuCore::spec_clear_decoded_op_cache);
        }
        self.decode_table = None;
    }

    /// Clear timing-model state that cannot survive a reset, exception, or
    /// transition between execution engines.
    #[verifier::opaque]
    pub open spec fn spec_clear_execution_pipeline_state(self) -> CpuCore {
        let c = CpuCore { host: HostState { pipeline_head: false, ..self.host }, ..self };
        c
    }

    /// Clear timing-model state that cannot survive a reset, exception, or
    /// transition between execution engines.
    pub fn clear_execution_pipeline_state(&mut self)
        ensures
            *final(self) == old(self).spec_clear_execution_pipeline_state(),
    {
        proof {
            reveal(CpuCore::spec_clear_execution_pipeline_state);
        }
        self.host.pipeline_head = false;
    }

    /// Set CPU type and configure the masks that go with it.
    pub open spec fn configured_for(self, cpu_type: CpuType) -> CpuCore {
        if cpu_type == CpuType::Invalid {
            self
        } else {
            CpuCore {
                model: Model {
                    address_mask: model_address_mask(cpu_type),
                    sr_mask: model_sr_mask(cpu_type),
                    ..self.model
                },
                mmu: MmuRegs { present: model_has_mmu(cpu_type), ..self.mmu },
                ..self
            }
        }
    }

    /// The processor as another model.
    #[verifier::opaque]
    pub open spec fn spec_set_cpu_type(self, cpu_type: CpuType) -> CpuCore {
        let c = self.spec_clear_execution_pipeline_state().spec_clear_decoded_op_cache();
        CpuCore {
            model: Model {
                cpu_type,
                is_pre_68020: crate::types::pre_68020(cpu_type),
                ..c.model
            },
            ..c
        }.configured_for(cpu_type)
    }

    /// Set CPU type and configure appropriate masks.
    pub fn set_cpu_type(&mut self, cpu_type: CpuType)
        ensures
            *final(self) == old(self).spec_set_cpu_type(cpu_type),
    {
        proof {
            reveal(CpuCore::spec_set_cpu_type);
        }
        self.clear_execution_pipeline_state();
        self.clear_decoded_op_cache();
        self.model.cpu_type = cpu_type;
        self.model.is_pre_68020 = crate::types::is_pre_68020(cpu_type);
        match cpu_type {
            CpuType::M68000 | CpuType::M68010 => {
                self.model.address_mask = 0x00FF_FFFF;
                self.model.sr_mask = 0xA71F;
                self.mmu.present = false;
            },
            CpuType::SCC68070 => {
                self.model.address_mask = 0xFFFF_FFFF;
                self.model.sr_mask = 0xA71F;
                self.mmu.present = false;
            },
            CpuType::M68EC020
            | CpuType::M68020
            | CpuType::M68EC030
            | CpuType::M68EC040
            | CpuType::M68LC040 => {
                self.model.address_mask = 0xFFFF_FFFF;
                self.model.sr_mask = 0xF71F;
                self.mmu.present = false;
            },
            CpuType::M68030 | CpuType::M68040 => {
                self.model.address_mask = 0xFFFF_FFFF;
                self.model.sr_mask = 0xF71F;
                self.mmu.present = true;
            },
            CpuType::M68060 => {
                // The 68060 drops T0 (trace on change of flow, SR bit 14).
                self.model.address_mask = 0xFFFF_FFFF;
                self.model.sr_mask = 0xB71F;
                self.mmu.present = true;
            },
            CpuType::Invalid => {},
        }
    }

    /// The current stack pointer bank, reduced to the eight banks there are.
    ///
    /// The 68060 implements a single supervisor stack: the SR M bit is
    /// storable but it never selects a separate master-stack bank.
    pub open spec fn spec_sp_index(&self) -> usize {
        if self.model.cpu_type == CpuType::M68060 {
            (self.sys.s_flag & 7) as usize
        } else {
            ((self.sys.s_flag | ((self.sys.s_flag >> 1) & self.sys.m_flag)) & 7) as usize
        }
    }

    /// The current stack pointer bank, reduced to the eight banks there are.
    ///
    /// The 68060 implements a single supervisor stack: the SR M bit is
    /// storable but it never selects a separate master-stack bank.
    #[verifier::when_used_as_spec(spec_sp_index)]
    pub fn sp_index(&self) -> (r: usize)
        ensures
            r == self.spec_sp_index(),
    {
        if self.model.cpu_type == CpuType::M68060 {
            (self.sys.s_flag & 7) as usize
        } else {
            ((self.sys.s_flag | ((self.sys.s_flag >> 1) & self.sys.m_flag)) & 7) as usize
        }
    }

    /// Backup current SP to banked storage.
    #[verifier::opaque]
    pub open spec fn spec_backup_sp(self) -> CpuCore {
        let c = CpuCore { sp: vstd::array::spec_array_update(self.sp, (self.sp_index()) as int, self.dar[15]), ..self };
        c
    }

    /// Backup current SP to banked storage.
    pub fn backup_sp(&mut self)
        ensures
            *final(self) == old(self).spec_backup_sp(),
    {
        proof {
            reveal(CpuCore::spec_backup_sp);
        }
        proof {
            crate::bits::lemma_masks(self.sys.s_flag);
            crate::bits::lemma_masks(self.sys.s_flag | ((self.sys.s_flag >> 1) & self.sys.m_flag));
        }
        self.sp[self.sp_index()] = self.dar[15];
    }

    /// Restore SP from banked storage.
    #[verifier::opaque]
    pub open spec fn spec_restore_sp(self) -> CpuCore {
        let c = CpuCore { dar: vstd::array::spec_array_update(self.dar, (15) as int, self.sp[(self.sp_index()) as int]), ..self };
        c
    }

    /// Restore SP from banked storage.
    pub fn restore_sp(&mut self)
        ensures
            *final(self) == old(self).spec_restore_sp(),
    {
        proof {
            reveal(CpuCore::spec_restore_sp);
        }
        proof {
            crate::bits::lemma_masks(self.sys.s_flag);
            crate::bits::lemma_masks(self.sys.s_flag | ((self.sys.s_flag >> 1) & self.sys.m_flag));
        }
        self.dar[15] = self.sp[self.sp_index()];
    }

    /// Set the S flag with stack pointer banking.
    /// Value must be 0 (user) or SFLAG_SET (supervisor).
    #[verifier::opaque]
    pub open spec fn spec_set_s_flag(self, value: u32) -> CpuCore {
        let c = self.spec_backup_sp();
        let c = CpuCore { sys: SystemFlags { s_flag: value, ..c.sys }, ..c };
        let c = c.spec_restore_sp();
        c
    }

    /// Set the S flag with stack pointer banking.
    /// Value must be 0 (user) or SFLAG_SET (supervisor).
    pub fn set_s_flag(&mut self, value: u32)
        ensures
            *final(self) == old(self).spec_set_s_flag(value),
    {
        proof {
            reveal(CpuCore::spec_set_s_flag);
        }
        self.backup_sp();
        self.sys.s_flag = value;
        self.restore_sp();
    }

    /// Set both S and M flags with stack pointer banking.
    /// Value: bit 2 = S, bit 1 = M (0, 2, 4, or 6).
    #[verifier::opaque]
    pub open spec fn spec_set_sm_flag(self, value: u32) -> CpuCore {
        let c = self.spec_backup_sp();
        let c = CpuCore { sys: SystemFlags { s_flag: value & SFLAG_SET, ..c.sys }, ..c };
        let c = CpuCore { sys: SystemFlags { m_flag: value & MFLAG_SET, ..c.sys }, ..c };
        let c = c.spec_restore_sp();
        c
    }

    /// Set both S and M flags with stack pointer banking.
    /// Value: bit 2 = S, bit 1 = M (0, 2, 4, or 6).
    pub fn set_sm_flag(&mut self, value: u32)
        ensures
            *final(self) == old(self).spec_set_sm_flag(value),
    {
        proof {
            reveal(CpuCore::spec_set_sm_flag);
        }
        self.backup_sp();
        self.sys.s_flag = value & SFLAG_SET;
        self.sys.m_flag = value & MFLAG_SET;
        self.restore_sp();
    }

    /// Set S and M flags without touching the stack pointer.
    #[verifier::opaque]
    pub open spec fn spec_set_sm_flag_nosp(self, value: u32) -> CpuCore {
        let c = CpuCore { sys: SystemFlags { s_flag: value & SFLAG_SET, ..self.sys }, ..self };
        let c = CpuCore { sys: SystemFlags { m_flag: value & MFLAG_SET, ..c.sys }, ..c };
        c
    }

    /// Set S and M flags without touching the stack pointer.
    pub fn set_sm_flag_nosp(&mut self, value: u32)
        ensures
            *final(self) == old(self).spec_set_sm_flag_nosp(value),
    {
        proof {
            reveal(CpuCore::spec_set_sm_flag_nosp);
        }
        self.sys.s_flag = value & SFLAG_SET;
        self.sys.m_flag = value & MFLAG_SET;
    }

    /// Forget every branch-cache entry (68060).
    #[verifier::opaque]
    pub open spec fn spec_clear_branch_cache(self) -> CpuCore {
        let c = CpuCore { host: HostState { branch_cache_generation: self.host.branch_cache_generation.wrapping_add(1), ..self.host }, ..self };
        c
    }

    /// Forget every branch-cache entry (68060).
    pub fn clear_branch_cache(&mut self)
        ensures
            *final(self) == old(self).spec_clear_branch_cache(),
    {
        proof {
            reveal(CpuCore::spec_clear_branch_cache);
        }
        self.host.branch_cache_generation = self.host.branch_cache_generation.wrapping_add(1);
    }

    /// Forget the user branch-cache entries (68060).
    #[verifier::opaque]
    pub open spec fn spec_clear_user_branch_cache(self) -> CpuCore {
        let c = CpuCore { host: HostState { branch_cache_user_generation: self.host.branch_cache_user_generation.wrapping_add(1), ..self.host }, ..self };
        c
    }

    /// Forget the user branch-cache entries (68060).
    pub fn clear_user_branch_cache(&mut self)
        ensures
            *final(self) == old(self).spec_clear_user_branch_cache(),
    {
        proof {
            reveal(CpuCore::spec_clear_user_branch_cache);
        }
        self.host.branch_cache_user_generation = self.host.branch_cache_user_generation.wrapping_add(1);
    }

    /// Forget every cached translation.
    #[verifier::opaque]
    pub open spec fn spec_flush_atc(self) -> CpuCore {
        let c = CpuCore { mmu: MmuRegs { atc_generation: self.mmu.atc_generation.wrapping_add(1), ..self.mmu }, ..self };
        c
    }

    /// Forget every cached translation.
    pub fn flush_atc(&mut self)
        ensures
            *final(self) == old(self).spec_flush_atc(),
    {
        proof {
            reveal(CpuCore::spec_flush_atc);
        }
        self.mmu.atc_generation = self.mmu.atc_generation.wrapping_add(1);
    }

    /// Registers that a reset clears outside the integer core.
    ///
    /// The on-chip caches are disabled and cleared, translation is switched
    /// off, and the writable bits of the 68060 configuration clear.
    #[verifier::opaque]
    pub open spec fn spec_reset_control_registers(self) -> CpuCore {
        let c = CpuCore { control: ControlRegs { vbr: 0, ..self.control }, ..self };
        let c = CpuCore { control: ControlRegs { cacr: 0, ..c.control }, ..c };
        let c = CpuCore { control: ControlRegs { cacr_pending_ops: c.control.cacr_pending_ops | (CACR_CI | CACR_CD), ..c.control }, ..c };
        let c = CpuCore { control: ControlRegs { pcr: PCR_060_RESET, ..c.control }, ..c };
        let c = CpuCore { control: ControlRegs { buscr: 0, ..c.control }, ..c };
        let c = c.spec_clear_branch_cache();
        let c = CpuCore { mmu: MmuRegs { tc: 0, ..c.mmu }, ..c };
        let c = CpuCore { mmu: MmuRegs { enabled: false, ..c.mmu }, ..c };
        let c = CpuCore { mmu: MmuRegs { itt0: 0, ..c.mmu }, ..c };
        let c = CpuCore { mmu: MmuRegs { itt1: 0, ..c.mmu }, ..c };
        let c = CpuCore { mmu: MmuRegs { dtt0: 0, ..c.mmu }, ..c };
        let c = CpuCore { mmu: MmuRegs { dtt1: 0, ..c.mmu }, ..c };
        let c = CpuCore { mmu: MmuRegs { tt0: 0, ..c.mmu }, ..c };
        let c = CpuCore { mmu: MmuRegs { tt1: 0, ..c.mmu }, ..c };
        let c = c.spec_flush_atc();
        c
    }

    /// Registers that a reset clears outside the integer core.
    ///
    /// The on-chip caches are disabled and cleared, translation is switched
    /// off, and the writable bits of the 68060 configuration clear.
    pub fn reset_control_registers(&mut self)
        ensures
            *final(self) == old(self).spec_reset_control_registers(),
    {
        proof {
            reveal(CpuCore::spec_reset_control_registers);
        }
        self.control.vbr = 0;
        self.control.cacr = 0;
        self.control.cacr_pending_ops = self.control.cacr_pending_ops | (CACR_CI | CACR_CD);
        self.control.pcr = PCR_060_RESET;
        self.control.buscr = 0;
        self.clear_branch_cache();
        self.mmu.tc = 0;
        self.mmu.enabled = false;
        self.mmu.itt0 = 0;
        self.mmu.itt1 = 0;
        self.mmu.dtt0 = 0;
        self.mmu.dtt1 = 0;
        self.mmu.tt0 = 0;
        self.mmu.tt1 = 0;
        self.flush_atc();
    }

    /// Pulse reset (initialize CPU state without loading vectors).
    #[verifier::opaque]
    pub open spec fn spec_pulse_reset(self) -> CpuCore {
        let c = self.spec_clear_execution_pipeline_state();
        let c = CpuCore { run: RunState { stopped: 0, ..c.run }, ..c };
        let c = CpuCore { sys: SystemFlags { t1_flag: 0, ..c.sys }, ..c };
        let c = CpuCore { sys: SystemFlags { t0_flag: 0, ..c.sys }, ..c };
        let c = CpuCore { sys: SystemFlags { m_flag: 0, ..c.sys }, ..c };
        let c = CpuCore { run: RunState { run_mode: 0, ..c.run }, ..c };
        let c = CpuCore { host: HostState { instr_mode: 0, ..c.host }, ..c };
        let c = c.spec_reset_control_registers();
        let c = CpuCore { queue: PrefetchState { prefetch_queue: vstd::array::spec_array_fill_for_copy_type(0u16), ..c.queue }, ..c };
        let c = CpuCore { queue: PrefetchState { prefetch_count: 0, ..c.queue }, ..c };
        let c = CpuCore { queue: PrefetchState { consume_without_prefetch: false, ..c.queue }, ..c };
        let c = CpuCore { queue: PrefetchState { pending_sync_clocks: 0, ..c.queue }, ..c };
        let c = CpuCore { ccr: Ccr { x_flag: 0, ..c.ccr }, ..c };
        let c = CpuCore { ccr: Ccr { n_flag: 0, ..c.ccr }, ..c };
        let c = CpuCore { ccr: Ccr { v_flag: 0, ..c.ccr }, ..c };
        let c = CpuCore { ccr: Ccr { c_flag: 0, ..c.ccr }, ..c };
        let c = CpuCore { ccr: Ccr { not_z_flag: 0, ..c.ccr }, ..c };
        let c = c.spec_set_s_flag(SFLAG_SET);
        let c = CpuCore { sys: SystemFlags { int_mask: 0x0700, ..c.sys }, ..c };
        c
    }

    /// Pulse reset (initialize CPU state without loading vectors).
    pub fn pulse_reset(&mut self)
        ensures
            *final(self) == old(self).spec_pulse_reset(),
    {
        proof {
            reveal(CpuCore::spec_pulse_reset);
        }
        self.clear_execution_pipeline_state();
        self.run.stopped = 0;
        self.sys.t1_flag = 0;
        self.sys.t0_flag = 0;
        self.sys.m_flag = 0;
        self.run.run_mode = 0;
        self.host.instr_mode = 0;
        self.reset_control_registers();
        self.queue.prefetch_queue = [0u16; 2];
        self.queue.prefetch_count = 0;
        self.queue.consume_without_prefetch = false;
        self.queue.pending_sync_clocks = 0;
        self.ccr.x_flag = 0;
        self.ccr.n_flag = 0;
        self.ccr.v_flag = 0;
        self.ccr.c_flag = 0;
        self.ccr.not_z_flag = 0;
        self.set_s_flag(SFLAG_SET);
        self.sys.int_mask = 0x0700;
    }

    /// Soft reset: no bus access.
    #[verifier::opaque]
    pub open spec fn spec_reset_soft(self) -> CpuCore {
        let c = self.spec_pulse_reset();
        c
    }

    /// Soft reset: no bus access.
    pub fn reset_soft(&mut self)
        ensures
            *final(self) == old(self).spec_reset_soft(),
    {
        proof {
            reveal(CpuCore::spec_reset_soft);
        }
        self.pulse_reset();
    }

    /// Whether the two-word prefetch queue models instruction fetching.
    pub open spec fn spec_prefetch_enabled(&self) -> bool {
        self.model.precise_bus && (self.model.cpu_type == CpuType::M68000 || self.model.cpu_type == CpuType::M68010)
    }

    /// Whether the two-word prefetch queue models instruction fetching.
    #[verifier::when_used_as_spec(spec_prefetch_enabled)]
    pub fn prefetch_enabled(&self) -> (r: bool)
        ensures
            r == self.spec_prefetch_enabled(),
    {
        self.model.precise_bus && (self.model.cpu_type == CpuType::M68000 || self.model.cpu_type == CpuType::M68010)
    }

    /// Switch between the transaction-exact interpreter contract and the
    /// optimized batch contract. A transition invalidates transient fetch
    /// state so neither path observes words queued by the other.
    #[verifier::opaque]
    pub open spec fn spec_set_precise_bus(self, precise: bool) -> CpuCore {
        if self.model.precise_bus == precise {
            self
        } else {
            let c = self.spec_clear_execution_pipeline_state();
            let c = CpuCore { model: Model { precise_bus: precise, ..c.model }, ..c };
            let c = CpuCore { queue: PrefetchState { prefetch_count: 0, ..c.queue }, ..c };
            let c = CpuCore { queue: PrefetchState { pending_sync_clocks: 0, ..c.queue }, ..c };
            let c = CpuCore { queue: PrefetchState { consume_without_prefetch: false, ..c.queue }, ..c };
            let c = CpuCore { looping: LoopState { active: false, ..c.looping }, ..c };
            c
        }
    }

    /// Switch between the transaction-exact interpreter contract and the
    /// optimized batch contract. A transition invalidates transient fetch
    /// state so neither path observes words queued by the other.
    pub fn set_precise_bus(&mut self, precise: bool)
        ensures
            *final(self) == old(self).spec_set_precise_bus(precise),
    {
        proof {
            reveal(CpuCore::spec_set_precise_bus);
        }
        if self.model.precise_bus == precise {
            return;
        }
        self.clear_execution_pipeline_state();
        self.model.precise_bus = precise;
        self.queue.prefetch_count = 0;
        self.queue.pending_sync_clocks = 0;
        self.queue.consume_without_prefetch = false;
        self.looping.active = false;
    }

    /// Record `clocks` CPU clocks of internal (non-bus) processing.
    #[verifier::opaque]
    pub open spec fn spec_internal_cycles(self, clocks: u32) -> CpuCore {
        if self.prefetch_enabled() {
            let c = CpuCore { queue: PrefetchState { pending_sync_clocks: self.queue.pending_sync_clocks.wrapping_add(clocks), ..self.queue }, ..self };
            c
        } else {
            self
        }
    }

    /// Record `clocks` CPU clocks of internal (non-bus) processing.
    pub fn internal_cycles(&mut self, clocks: u32)
        ensures
            *final(self) == old(self).spec_internal_cycles(clocks),
    {
        proof {
            reveal(CpuCore::spec_internal_cycles);
        }
        if self.prefetch_enabled() {
            self.queue.pending_sync_clocks = self.queue.pending_sync_clocks.wrapping_add(clocks);
        }
    }

    /// Mark the prefetch queue as stale (after an externally forced PC change).
    #[verifier::opaque]
    pub open spec fn spec_invalidate_prefetch(self) -> CpuCore {
        let c = CpuCore { queue: PrefetchState { prefetch_count: 0, ..self.queue }, ..self };
        c
    }

    /// Mark the prefetch queue as stale (after an externally forced PC change).
    pub fn invalidate_prefetch(&mut self)
        ensures
            *final(self) == old(self).spec_invalidate_prefetch(),
    {
        proof {
            reveal(CpuCore::spec_invalidate_prefetch);
        }
        self.queue.prefetch_count = 0;
    }

    /// Get data register.
    pub open spec fn spec_d(&self, reg: usize) -> u32 {
        self.dar[(reg & 7) as int]
    }

    /// Get data register.
    #[verifier::when_used_as_spec(spec_d)]
    pub fn d(&self, reg: usize) -> (r: u32)
        ensures
            r == self.spec_d(reg),
    {
        proof {
            crate::bits::lemma_reg(reg);
        }
        self.dar[reg & 7]
    }

    /// Set data register.
    #[verifier::opaque]
    pub open spec fn spec_set_d(self, reg: usize, value: u32) -> CpuCore {
        let c = CpuCore { dar: vstd::array::spec_array_update(self.dar, (reg & 7) as int, value), ..self };
        c
    }

    /// Set data register.
    pub fn set_d(&mut self, reg: usize, value: u32)
        ensures
            *final(self) == old(self).spec_set_d(reg, value),
    {
        proof {
            reveal(CpuCore::spec_set_d);
        }
        proof {
            crate::bits::lemma_reg(reg);
        }
        self.dar[reg & 7] = value;
    }

    /// Get address register.
    pub open spec fn spec_a(&self, reg: usize) -> u32 {
        (self.dar[(8 + (reg & 7)) as int]) as u32
    }

    /// Get address register.
    #[verifier::when_used_as_spec(spec_a)]
    pub fn a(&self, reg: usize) -> (r: u32)
        ensures
            r == self.spec_a(reg),
    {
        proof {
            crate::bits::lemma_reg(reg);
        }
        self.dar[8 + (reg & 7)]
    }

    /// Set address register.
    #[verifier::opaque]
    pub open spec fn spec_set_a(self, reg: usize, value: u32) -> CpuCore {
        let c = CpuCore { dar: vstd::array::spec_array_update(self.dar, (8 + (reg & 7)) as int, value), ..self };
        c
    }

    /// Set address register.
    pub fn set_a(&mut self, reg: usize, value: u32)
        ensures
            *final(self) == old(self).spec_set_a(reg, value),
    {
        proof {
            reveal(CpuCore::spec_set_a);
        }
        proof {
            crate::bits::lemma_reg(reg);
        }
        self.dar[8 + (reg & 7)] = value;
    }

    /// Returns true if the CPU is stopped via STOP.
    pub open spec fn spec_is_stopped(&self) -> bool {
        self.run.stopped != 0 && self.run.run_mode != RUN_MODE_BERR_AERR_RESET
    }

    /// Returns true if the CPU is stopped via STOP.
    #[verifier::when_used_as_spec(spec_is_stopped)]
    pub fn is_stopped(&self) -> (r: bool)
        ensures
            r == self.spec_is_stopped(),
    {
        self.run.stopped != 0 && self.run.run_mode != RUN_MODE_BERR_AERR_RESET
    }

    /// Returns true if the CPU halted due to a double-fault/bus-error reset condition.
    pub open spec fn spec_is_halted(&self) -> bool {
        self.run.stopped != 0 && self.run.run_mode == RUN_MODE_BERR_AERR_RESET
    }

    /// Returns true if the CPU halted due to a double-fault/bus-error reset condition.
    #[verifier::when_used_as_spec(spec_is_halted)]
    pub fn is_halted(&self) -> (r: bool)
        ensures
            r == self.spec_is_halted(),
    {
        self.run.stopped != 0 && self.run.run_mode == RUN_MODE_BERR_AERR_RESET
    }

    /// The current instruction ended in a bus or address error.
    pub open spec fn spec_faulted(&self) -> bool {
        self.run.run_mode == RUN_MODE_BERR_AERR_RESET
    }

    /// The current instruction ended in a bus or address error.
    #[verifier::when_used_as_spec(spec_faulted)]
    pub fn faulted(&self) -> (r: bool)
        ensures
            r == self.spec_faulted(),
    {
        self.run.run_mode == RUN_MODE_BERR_AERR_RESET
    }

    /// Get stack pointer (A7).
    pub open spec fn spec_sp(self) -> u32 {
        self.dar[15]
    }

    /// Get stack pointer (A7).
    pub fn sp(&self) -> (r: u32)
        ensures
            r == self.spec_sp(),
    {
        self.dar[15]
    }

    /// Set stack pointer (A7).
    #[verifier::opaque]
    pub open spec fn spec_set_sp(self, value: u32) -> CpuCore {
        let c = CpuCore { dar: vstd::array::spec_array_update(self.dar, (15) as int, value), ..self };
        c
    }

    /// Set stack pointer (A7).
    pub fn set_sp(&mut self, value: u32)
        ensures
            *final(self) == old(self).spec_set_sp(value),
    {
        proof {
            reveal(CpuCore::spec_set_sp);
        }
        self.dar[15] = value;
    }

    /// Get User Stack Pointer.
    pub open spec fn spec_get_usp(&self) -> u32 {
        if self.sys.s_flag == 0 {
            self.dar[15]
        } else {
            self.sp[0]
        }
    }

    /// Get User Stack Pointer.
    #[verifier::when_used_as_spec(spec_get_usp)]
    pub fn get_usp(&self) -> (r: u32)
        ensures
            r == self.spec_get_usp(),
    {
        if self.sys.s_flag == 0 {
            self.dar[15]
        } else {
            self.sp[0]
        }
    }

    /// Set User Stack Pointer.
    #[verifier::opaque]
    pub open spec fn spec_set_usp(self, value: u32) -> CpuCore {
        if self.sys.s_flag == 0 {
            let c = CpuCore { dar: vstd::array::spec_array_update(self.dar, (15) as int, value), ..self };
            c
        } else {
            let c = CpuCore { sp: vstd::array::spec_array_update(self.sp, (0) as int, value), ..self };
            c
        }
    }

    /// Set User Stack Pointer.
    pub fn set_usp(&mut self, value: u32)
        ensures
            *final(self) == old(self).spec_set_usp(value),
    {
        proof {
            reveal(CpuCore::spec_set_usp);
        }
        if self.sys.s_flag == 0 {
            self.dar[15] = value;
        } else {
            self.sp[0] = value;
        }
    }

    /// Get Master Stack Pointer.
    pub open spec fn spec_get_msp(&self) -> u32 {
        if self.sys.s_flag != 0 && self.sys.m_flag != 0 {
            self.dar[15]
        } else {
            self.sp[6]
        }
    }

    /// Get Master Stack Pointer.
    #[verifier::when_used_as_spec(spec_get_msp)]
    pub fn get_msp(&self) -> (r: u32)
        ensures
            r == self.spec_get_msp(),
    {
        if self.sys.s_flag != 0 && self.sys.m_flag != 0 {
            self.dar[15]
        } else {
            self.sp[6]
        }
    }

    /// Get Interrupt Stack Pointer.
    pub open spec fn spec_get_isp(&self) -> u32 {
        if self.sys.s_flag != 0 && self.sys.m_flag == 0 {
            self.dar[15]
        } else {
            self.sp[4]
        }
    }

    /// Get Interrupt Stack Pointer.
    #[verifier::when_used_as_spec(spec_get_isp)]
    pub fn get_isp(&self) -> (r: u32)
        ensures
            r == self.spec_get_isp(),
    {
        if self.sys.s_flag != 0 && self.sys.m_flag == 0 {
            self.dar[15]
        } else {
            self.sp[4]
        }
    }

    /// Set Master Stack Pointer.
    #[verifier::opaque]
    pub open spec fn spec_set_msp(self, value: u32) -> CpuCore {
        if self.sys.s_flag != 0 && self.sys.m_flag != 0 {
            let c = CpuCore { dar: vstd::array::spec_array_update(self.dar, (15) as int, value), ..self };
            c
        } else {
            let c = CpuCore { sp: vstd::array::spec_array_update(self.sp, (6) as int, value), ..self };
            c
        }
    }

    /// Set Master Stack Pointer.
    pub fn set_msp(&mut self, value: u32)
        ensures
            *final(self) == old(self).spec_set_msp(value),
    {
        proof {
            reveal(CpuCore::spec_set_msp);
        }
        if self.sys.s_flag != 0 && self.sys.m_flag != 0 {
            self.dar[15] = value;
        } else {
            self.sp[6] = value;
        }
    }

    /// Set Interrupt Stack Pointer.
    #[verifier::opaque]
    pub open spec fn spec_set_isp(self, value: u32) -> CpuCore {
        if self.sys.s_flag != 0 && self.sys.m_flag == 0 {
            let c = CpuCore { dar: vstd::array::spec_array_update(self.dar, (15) as int, value), ..self };
            c
        } else {
            let c = CpuCore { sp: vstd::array::spec_array_update(self.sp, (4) as int, value), ..self };
            c
        }
    }

    /// Set Interrupt Stack Pointer.
    pub fn set_isp(&mut self, value: u32)
        ensures
            *final(self) == old(self).spec_set_isp(value),
    {
        proof {
            reveal(CpuCore::spec_set_isp);
        }
        if self.sys.s_flag != 0 && self.sys.m_flag == 0 {
            self.dar[15] = value;
        } else {
            self.sp[4] = value;
        }
    }

    /// Read control register for MOVEC instruction.
    pub open spec fn spec_read_control_register(&self, reg: u16) -> u32 {
        match reg {
            0x000 => self.control.sfc,
            0x001 => self.control.dfc,
            0x002 => self.control.cacr,
            0x003 => self.mmu.tc,
            0x004 => self.mmu.itt0,
            0x005 => self.mmu.itt1,
            0x006 => self.mmu.dtt0,
            0x007 => self.mmu.dtt1,
            0x008 => {
                if self.is_060() {
                    self.control.buscr
                } else {
                    self.mmu.dacr0
                }
            },
            0x009 => self.mmu.dacr1,
            0x00A => self.mmu.iacr0,
            0x00B => self.mmu.iacr1,
            0x800 => self.get_usp(),
            0x801 => self.control.vbr,
            0x802 => self.control.caar,
            0x803 => self.get_msp(),
            0x804 => self.get_isp(),
            0x805 => self.mmu.sr,
            0x806 => self.mmu.crp_aptr,
            0x807 => self.mmu.srp_aptr,
            0x808 => {
                if self.is_060() {
                    self.control.pcr
                } else {
                    0
                }
            },
            _ => 0,
        }
    }

    /// Read control register for MOVEC instruction.
    #[verifier::when_used_as_spec(spec_read_control_register)]
    pub fn read_control_register(&self, reg: u16) -> (r: u32)
        ensures
            r == self.spec_read_control_register(reg),
    {
        match reg {
            0x000 => self.control.sfc,
            0x001 => self.control.dfc,
            0x002 => self.control.cacr,
            0x003 => self.mmu.tc,
            0x004 => self.mmu.itt0,
            0x005 => self.mmu.itt1,
            0x006 => self.mmu.dtt0,
            0x007 => self.mmu.dtt1,
            0x008 => {
                if self.is_060() {
                    self.control.buscr
                } else {
                    self.mmu.dacr0
                }
            },
            0x009 => self.mmu.dacr1,
            0x00A => self.mmu.iacr0,
            0x00B => self.mmu.iacr1,
            0x800 => self.get_usp(),
            0x801 => self.control.vbr,
            0x802 => self.control.caar,
            0x803 => self.get_msp(),
            0x804 => self.get_isp(),
            0x805 => self.mmu.sr,
            0x806 => self.mmu.crp_aptr,
            0x807 => self.mmu.srp_aptr,
            0x808 => {
                if self.is_060() {
                    self.control.pcr
                } else {
                    0
                }
            },
            _ => 0,
        }
    }

    /// Write the cache control register. The clear bits are write-only
    /// strobes: they are latched for the host, never stored, and read back as
    /// zero. The branch-cache strobes of the 68060 act at once; disabling the
    /// branch cache clears it too.
    #[verifier::opaque]
    pub open spec fn spec_write_cacr(self, value: u32) -> CpuCore {
        let c = if self.model.cpu_type == CpuType::M68060 {
            let c = if value & CACR_060_CABC != 0 {
                let c = self.spec_clear_branch_cache();
                c
            } else if value & CACR_060_CUBC != 0 {
                let c = self.spec_clear_user_branch_cache();
                c
            } else {
                self
            };
            if c.control.cacr & CACR_060_EBC != 0 && value & CACR_060_EBC == 0 {
                let c = c.spec_clear_branch_cache();
                c
            } else {
                c
            }
        } else {
            self
        };
        let masks: (u32, u32) = cacr_masks(c.model.cpu_type);
        let c = CpuCore { control: ControlRegs { cacr: value & masks.0, ..c.control }, ..c };
        let c = CpuCore { control: ControlRegs { cacr_pending_ops: c.control.cacr_pending_ops | (value & masks.1), ..c.control }, ..c };
        c
    }

    /// Write the cache control register. The clear bits are write-only
    /// strobes: they are latched for the host, never stored, and read back as
    /// zero. The branch-cache strobes of the 68060 act at once; disabling the
    /// branch cache clears it too.
    pub fn write_cacr(&mut self, value: u32)
        ensures
            *final(self) == old(self).spec_write_cacr(value),
    {
        proof {
            reveal(CpuCore::spec_write_cacr);
        }
        if self.model.cpu_type == CpuType::M68060 {
            if value & CACR_060_CABC != 0 {
                self.clear_branch_cache();
            } else if value & CACR_060_CUBC != 0 {
                self.clear_user_branch_cache();
            }
            if self.control.cacr & CACR_060_EBC != 0 && value & CACR_060_EBC == 0 {
                self.clear_branch_cache();
            }
        }
        let masks: (u32, u32) = cacr_masks(self.model.cpu_type);
        self.control.cacr = value & masks.0;
        self.control.cacr_pending_ops = self.control.cacr_pending_ops | (value & masks.1);
    }

    /// Write the translation control register. The 68040 implements only the
    /// enable and page-size bits.
    #[verifier::opaque]
    pub open spec fn spec_write_tc(self, value: u32) -> CpuCore {
        let v1 = if self.is_040() {
            value & 0xC000
        } else if self.is_060() {
            value & 0xFFFE
        } else {
            value
        };
        let c = CpuCore { mmu: MmuRegs { tc: v1, ..self.mmu }, ..self };
        let c = CpuCore { mmu: MmuRegs { enabled: c.tc_enable(), ..c.mmu }, ..c };
        c
    }

    /// Write the translation control register. The 68040 implements only the
    /// enable and page-size bits.
    pub fn write_tc(&mut self, value: u32)
        ensures
            *final(self) == old(self).spec_write_tc(value),
    {
        proof {
            reveal(CpuCore::spec_write_tc);
        }
        self.mmu.tc = if self.is_040() {
            value & 0xC000
        } else if self.is_060() {
            value & 0xFFFE
        } else {
            value
        };
        self.mmu.enabled = self.tc_enable();
    }

    /// Write one control register, without its effect on cached translations.
    #[verifier::opaque]
    pub open spec fn spec_store_control_register(self, reg: u16, value: u32) -> CpuCore {
        match reg {
            0x000 => {
                let c = CpuCore { control: ControlRegs { sfc: value & 7, ..self.control }, ..self };
                c
            },
            0x001 => {
                let c = CpuCore { control: ControlRegs { dfc: value & 7, ..self.control }, ..self };
                c
            },
            0x002 => {
                let c = self.spec_write_cacr(value);
                c
            },
            0x003 => {
                let c = self.spec_write_tc(value);
                c
            },
            0x004 => {
                let c = CpuCore { mmu: MmuRegs { itt0: value & 0xFFFF_E364, ..self.mmu }, ..self };
                c
            },
            0x005 => {
                let c = CpuCore { mmu: MmuRegs { itt1: value & 0xFFFF_E364, ..self.mmu }, ..self };
                c
            },
            0x006 => {
                let c = CpuCore { mmu: MmuRegs { dtt0: value & 0xFFFF_E364, ..self.mmu }, ..self };
                c
            },
            0x007 => {
                let c = CpuCore { mmu: MmuRegs { dtt1: value & 0xFFFF_E364, ..self.mmu }, ..self };
                c
            },
            0x008 => {
                if self.is_060() {
                    let c = CpuCore { control: ControlRegs { buscr: (self.control.buscr & 0x5000_0000) | (value & 0xA000_0000), ..self.control }, ..self };
                    c
                } else {
                    let c = CpuCore { mmu: MmuRegs { dacr0: value, ..self.mmu }, ..self };
                    c
                }
            },
            0x009 => {
                let c = CpuCore { mmu: MmuRegs { dacr1: value, ..self.mmu }, ..self };
                c
            },
            0x00A => {
                let c = CpuCore { mmu: MmuRegs { iacr0: value, ..self.mmu }, ..self };
                c
            },
            0x00B => {
                let c = CpuCore { mmu: MmuRegs { iacr1: value, ..self.mmu }, ..self };
                c
            },
            0x800 => {
                let c = self.spec_set_usp(value);
                c
            },
            0x801 => {
                let c = CpuCore { control: ControlRegs { vbr: value, ..self.control }, ..self };
                c
            },
            0x802 => {
                let c = CpuCore { control: ControlRegs { caar: value, ..self.control }, ..self };
                c
            },
            0x803 => {
                let c = self.spec_set_msp(value);
                c
            },
            0x804 => {
                let c = self.spec_set_isp(value);
                c
            },
            0x805 => {
                let c = CpuCore { mmu: MmuRegs { sr: value, ..self.mmu }, ..self };
                c
            },
            0x806 => {
                let c = CpuCore { mmu: MmuRegs { crp_aptr: value, ..self.mmu }, ..self };
                c
            },
            0x807 => {
                let c = CpuCore { mmu: MmuRegs { srp_aptr: value, ..self.mmu }, ..self };
                c
            },
            0x808 => {
                if self.is_060() {
                    let writable: u32 = PCR_EDEBUG | PCR_DFP | PCR_ESS;
                    let c = CpuCore { control: ControlRegs { pcr: (self.control.pcr & !writable) | (value & writable), ..self.control }, ..self };
                    c
                } else {
                    self
                }
            },
            _ => self,
        }
    }

    /// Write one control register, without its effect on cached translations.
    pub fn store_control_register(&mut self, reg: u16, value: u32)
        ensures
            *final(self) == old(self).spec_store_control_register(reg, value),
    {
        proof {
            reveal(CpuCore::spec_store_control_register);
        }
        match reg {
            0x000 => {
                self.control.sfc = value & 7;
            },
            0x001 => {
                self.control.dfc = value & 7;
            },
            0x002 => {
                self.write_cacr(value);
            },
            0x003 => {
                self.write_tc(value);
            },
            0x004 => {
                self.mmu.itt0 = value & 0xFFFF_E364;
            },
            0x005 => {
                self.mmu.itt1 = value & 0xFFFF_E364;
            },
            0x006 => {
                self.mmu.dtt0 = value & 0xFFFF_E364;
            },
            0x007 => {
                self.mmu.dtt1 = value & 0xFFFF_E364;
            },
            0x008 => {
                if self.is_060() {
                    self.control.buscr = (self.control.buscr & 0x5000_0000) | (value & 0xA000_0000);
                } else {
                    self.mmu.dacr0 = value;
                }
            },
            0x009 => {
                self.mmu.dacr1 = value;
            },
            0x00A => {
                self.mmu.iacr0 = value;
            },
            0x00B => {
                self.mmu.iacr1 = value;
            },
            0x800 => {
                self.set_usp(value);
            },
            0x801 => {
                self.control.vbr = value;
            },
            0x802 => {
                self.control.caar = value;
            },
            0x803 => {
                self.set_msp(value);
            },
            0x804 => {
                self.set_isp(value);
            },
            0x805 => {
                self.mmu.sr = value;
            },
            0x806 => {
                self.mmu.crp_aptr = value;
            },
            0x807 => {
                self.mmu.srp_aptr = value;
            },
            0x808 => {
                if self.is_060() {
                    let writable: u32 = PCR_EDEBUG | PCR_DFP | PCR_ESS;
                    self.control.pcr = (self.control.pcr & !writable) | (value & writable);
                }
            },
            _ => {},
        }
    }

    /// Write control register for MOVEC instruction. A write to TC, a root
    /// pointer, or a transparent-translation register drops the cached
    /// translations.
    #[verifier::opaque]
    pub open spec fn spec_write_control_register(self, reg: u16, value: u32) -> CpuCore {
        let c = self.spec_store_control_register(reg, value);
        if matches!(reg, 0x003 | 0x004 | 0x005 | 0x006 | 0x007 | 0x806 | 0x807) {
            let c = c.spec_flush_atc();
            c
        } else {
            c
        }
    }

    /// Write control register for MOVEC instruction. A write to TC, a root
    /// pointer, or a transparent-translation register drops the cached
    /// translations.
    pub fn write_control_register(&mut self, reg: u16, value: u32)
        ensures
            *final(self) == old(self).spec_write_control_register(reg, value),
    {
        proof {
            reveal(CpuCore::spec_write_control_register);
        }
        self.store_control_register(reg, value);
        if matches!(reg, 0x003 | 0x004 | 0x005 | 0x006 | 0x007 | 0x806 | 0x807) {
            self.flush_atc();
        }
    }

    /// True for any 68040-family part (full / LC / EC).
    pub open spec fn spec_is_040(&self) -> bool {
        self.model.cpu_type == CpuType::M68EC040 || self.model.cpu_type == CpuType::M68LC040 || self.model.cpu_type
            == CpuType::M68040
    }

    /// True for any 68040-family part (full / LC / EC).
    #[verifier::when_used_as_spec(spec_is_040)]
    pub fn is_040(&self) -> (r: bool)
        ensures
            r == self.spec_is_040(),
    {
        self.model.cpu_type == CpuType::M68EC040 || self.model.cpu_type == CpuType::M68LC040 || self.model.cpu_type
            == CpuType::M68040
    }

    /// Whether an instruction the 68060 dropped from silicon must take its
    /// unimplemented trap rather than execute natively.
    pub open spec fn spec_trap_unimpl_060(&self) -> bool {
        self.model.cpu_type == CpuType::M68060 && !self.host.emulate_unimplemented_060
    }

    /// Whether an instruction the 68060 dropped from silicon must take its
    /// unimplemented trap rather than execute natively.
    #[verifier::when_used_as_spec(spec_trap_unimpl_060)]
    pub fn trap_unimpl_060(&self) -> (r: bool)
        ensures
            r == self.spec_trap_unimpl_060(),
    {
        self.model.cpu_type == CpuType::M68060 && !self.host.emulate_unimplemented_060
    }

    /// True for the 68060.
    pub open spec fn spec_is_060(&self) -> bool {
        self.model.cpu_type == CpuType::M68060
    }

    /// True for the 68060.
    #[verifier::when_used_as_spec(spec_is_060)]
    pub fn is_060(&self) -> (r: bool)
        ensures
            r == self.spec_is_060(),
    {
        self.model.cpu_type == CpuType::M68060
    }

    /// Whether TC's translation-enable bit is set: `TC[15]` on the 68040 and
    /// 68060, `TC[31]` on the 68030.
    pub open spec fn spec_tc_enable(&self) -> bool {
        if self.is_040() || self.is_060() {
            self.mmu.tc & 0x0000_8000 != 0
        } else {
            self.mmu.tc & 0x8000_0000 != 0
        }
    }

    /// Whether TC's translation-enable bit is set: `TC[15]` on the 68040 and
    /// 68060, `TC[31]` on the 68030.
    #[verifier::when_used_as_spec(spec_tc_enable)]
    pub fn tc_enable(&self) -> (r: bool)
        ensures
            r == self.spec_tc_enable(),
    {
        if self.is_040() || self.is_060() {
            self.mmu.tc & 0x0000_8000 != 0
        } else {
            self.mmu.tc & 0x8000_0000 != 0
        }
    }

    /// Mask address according to CPU type.
    pub open spec fn spec_address(&self, addr: u32) -> u32 {
        addr & self.model.address_mask
    }

    /// Mask address according to CPU type.
    #[verifier::when_used_as_spec(spec_address)]
    pub fn address(&self, addr: u32) -> (r: u32)
        ensures
            r == self.spec_address(addr),
    {
        addr & self.model.address_mask
    }

    /// Byte mask of the active MMU page (page size - 1).
    pub open spec fn spec_mmu_page_mask(&self) -> u32 {
        if self.is_040() || self.is_060() {
            if self.mmu.tc & 0x0000_4000 != 0 {
                0x1FFF
            } else {
                0xFFF
            }
        } else {
            match (self.mmu.tc >> 20) & 0xF {
                15 => 0x7FFF,
                14 => 0x3FFF,
                13 => 0x1FFF,
                12 => 0xFFF,
                11 => 0x7FF,
                10 => 0x3FF,
                9 => 0x1FF,
                _ => 0xFF,
            }
        }
    }

    /// Byte mask of the active MMU page (page size - 1). The 68030 page size
    /// is 2^PS with PS between 8 and 15.
    #[verifier::when_used_as_spec(spec_mmu_page_mask)]
    pub fn mmu_page_mask(&self) -> (r: u32)
        ensures
            r == self.spec_mmu_page_mask(),
            r >= 0xFF,
    {
        if self.is_040() || self.is_060() {
            if self.mmu.tc & 0x0000_4000 != 0 {
                0x1FFF
            } else {
                0xFFF
            }
        } else {
            match (self.mmu.tc >> 20) & 0xF {
                15 => 0x7FFF,
                14 => 0x3FFF,
                13 => 0x1FFF,
                12 => 0xFFF,
                11 => 0x7FF,
                10 => 0x3FF,
                9 => 0x1FF,
                _ => 0xFF,
            }
        }
    }

    /// Get Status Register (composed from flags).
    pub open spec fn spec_get_sr(&self) -> u16 {
        let system: u32 = (self.sys.t1_flag & 0x8000) | (self.sys.t0_flag & 0x4000) | ((self.sys.s_flag
            & SFLAG_SET) << 11) | ((self.sys.m_flag & MFLAG_SET) << 11) | (self.sys.int_mask & 0x0700);
        let user: u32 = ((self.ccr.x_flag & XFLAG_SET) >> 4) | ((self.ccr.n_flag & NFLAG_SET) >> 4) | (if self.ccr.not_z_flag == 0 { 0x04u32 } else { 0x00u32 }) | ((self.ccr.v_flag
            & VFLAG_SET) >> 6) | ((self.ccr.c_flag & CFLAG_SET) >> 8);
        (system | user) as u16
    }

    /// Get Status Register (composed from flags).
    #[verifier::when_used_as_spec(spec_get_sr)]
    pub fn get_sr(&self) -> (r: u16)
        ensures
            r == self.spec_get_sr(),
    {
        let system: u32 = (self.sys.t1_flag & 0x8000) | (self.sys.t0_flag & 0x4000) | ((self.sys.s_flag
            & SFLAG_SET) << 11) | ((self.sys.m_flag & MFLAG_SET) << 11) | (self.sys.int_mask & 0x0700);
        let user: u32 = ((self.ccr.x_flag & XFLAG_SET) >> 4) | ((self.ccr.n_flag & NFLAG_SET) >> 4) | (if self.ccr.not_z_flag == 0 { 0x04u32 } else { 0x00u32 }) | ((self.ccr.v_flag
            & VFLAG_SET) >> 6) | ((self.ccr.c_flag & CFLAG_SET) >> 8);
        (system | user) as u16
    }

    /// Set Status Register (decomposes to flags) with stack banking. M must
    /// be 0 when S is 0.
    #[verifier::opaque]
    pub open spec fn spec_set_sr(self, value: u16) -> CpuCore {
        let sr: u16 = value & (self.model.sr_mask as u16);
        let c = CpuCore { sys: SystemFlags { t1_flag: (sr as u32) & 0x8000, ..self.sys }, ..self };
        let c = CpuCore { sys: SystemFlags { t0_flag: (sr as u32) & 0x4000, ..c.sys }, ..c };
        let c = CpuCore { sys: SystemFlags { int_mask: (sr as u32) & 0x0700, ..c.sys }, ..c };
        let c = c.spec_set_ccr(sr as u8);
        let sm: u32 = ((sr >> 11) & 6) as u32;
        if sm & SFLAG_SET == 0 {
            let c = c.spec_set_sm_flag(sm & !MFLAG_SET);
            c
        } else {
            let c = c.spec_set_sm_flag(sm);
            c
        }
    }

    /// Set Status Register (decomposes to flags) with stack banking. M must
    /// be 0 when S is 0.
    pub fn set_sr(&mut self, value: u16)
        ensures
            *final(self) == old(self).spec_set_sr(value),
    {
        proof {
            reveal(CpuCore::spec_set_sr);
        }
        let sr: u16 = value & (self.model.sr_mask as u16);
        self.sys.t1_flag = (sr as u32) & 0x8000;
        self.sys.t0_flag = (sr as u32) & 0x4000;
        self.sys.int_mask = (sr as u32) & 0x0700;
        self.set_ccr(sr as u8);
        let sm: u32 = ((sr >> 11) & 6) as u32;
        if sm & SFLAG_SET == 0 {
            self.set_sm_flag(sm & !MFLAG_SET);
        } else {
            self.set_sm_flag(sm);
        }
    }

    /// Set SR without interrupt check or stack pointer change.
    #[verifier::opaque]
    pub open spec fn spec_set_sr_noint_nosp(self, value: u16) -> CpuCore {
        let sr: u16 = value & (self.model.sr_mask as u16);
        let c = CpuCore { sys: SystemFlags { t1_flag: (sr as u32) & 0x8000, ..self.sys }, ..self };
        let c = CpuCore { sys: SystemFlags { t0_flag: (sr as u32) & 0x4000, ..c.sys }, ..c };
        let c = CpuCore { sys: SystemFlags { int_mask: (sr as u32) & 0x0700, ..c.sys }, ..c };
        let c = c.spec_set_ccr(sr as u8);
        let sm: u32 = ((sr >> 11) & 6) as u32;
        if sm & SFLAG_SET == 0 {
            let c = c.spec_set_sm_flag_nosp(sm & !MFLAG_SET);
            c
        } else {
            let c = c.spec_set_sm_flag_nosp(sm);
            c
        }
    }

    /// Set SR without interrupt check or stack pointer change.
    pub fn set_sr_noint_nosp(&mut self, value: u16)
        ensures
            *final(self) == old(self).spec_set_sr_noint_nosp(value),
    {
        proof {
            reveal(CpuCore::spec_set_sr_noint_nosp);
        }
        let sr: u16 = value & (self.model.sr_mask as u16);
        self.sys.t1_flag = (sr as u32) & 0x8000;
        self.sys.t0_flag = (sr as u32) & 0x4000;
        self.sys.int_mask = (sr as u32) & 0x0700;
        self.set_ccr(sr as u8);
        let sm: u32 = ((sr >> 11) & 6) as u32;
        if sm & SFLAG_SET == 0 {
            self.set_sm_flag_nosp(sm & !MFLAG_SET);
        } else {
            self.set_sm_flag_nosp(sm);
        }
    }

    /// Get Condition Code Register (low byte of SR).
    pub open spec fn spec_get_ccr(&self) -> u8 {
        (self.get_sr() & 0xFF) as u8
    }

    /// Get Condition Code Register (low byte of SR).
    #[verifier::when_used_as_spec(spec_get_ccr)]
    pub fn get_ccr(&self) -> (r: u8)
        ensures
            r == self.spec_get_ccr(),
    {
        (self.get_sr() & 0xFF) as u8
    }

    /// Set Condition Code Register.
    #[verifier::opaque]
    pub open spec fn spec_set_ccr(self, ccr: u8) -> CpuCore {
        let v1 = if ccr & 0x10 != 0 {
            XFLAG_SET
        } else {
            0
        };
        let c = CpuCore { ccr: Ccr { x_flag: v1, ..self.ccr }, ..self };
        let v2 = if ccr & 0x08 != 0 {
            NFLAG_SET
        } else {
            0
        };
        let c = CpuCore { ccr: Ccr { n_flag: v2, ..c.ccr }, ..c };
        let v3 = if ccr & 0x04 != 0 {
            0
        } else {
            1
        };
        let c = CpuCore { ccr: Ccr { not_z_flag: v3, ..c.ccr }, ..c };
        let v4 = if ccr & 0x02 != 0 {
            VFLAG_SET
        } else {
            0
        };
        let c = CpuCore { ccr: Ccr { v_flag: v4, ..c.ccr }, ..c };
        let v5 = if ccr & 0x01 != 0 {
            CFLAG_SET
        } else {
            0
        };
        let c = CpuCore { ccr: Ccr { c_flag: v5, ..c.ccr }, ..c };
        c
    }

    /// Set Condition Code Register.
    pub fn set_ccr(&mut self, ccr: u8)
        ensures
            *final(self) == old(self).spec_set_ccr(ccr),
    {
        proof {
            reveal(CpuCore::spec_set_ccr);
        }
        self.ccr.x_flag = if ccr & 0x10 != 0 {
            XFLAG_SET
        } else {
            0
        };
        self.ccr.n_flag = if ccr & 0x08 != 0 {
            NFLAG_SET
        } else {
            0
        };
        self.ccr.not_z_flag = if ccr & 0x04 != 0 {
            0
        } else {
            1
        };
        self.ccr.v_flag = if ccr & 0x02 != 0 {
            VFLAG_SET
        } else {
            0
        };
        self.ccr.c_flag = if ccr & 0x01 != 0 {
            CFLAG_SET
        } else {
            0
        };
    }

    /// Return whether the extend (X) condition-code bit is set.
    pub open spec fn spec_flag_x(&self) -> bool {
        self.ccr.x_flag != 0
    }

    /// Return whether the extend (X) condition-code bit is set.
    #[verifier::when_used_as_spec(spec_flag_x)]
    pub fn flag_x(&self) -> (r: bool)
        ensures
            r == self.spec_flag_x(),
    {
        self.ccr.x_flag != 0
    }

    /// Return whether the negative (N) condition-code bit is set.
    pub open spec fn spec_flag_n(&self) -> bool {
        self.ccr.n_flag != 0
    }

    /// Return whether the negative (N) condition-code bit is set.
    #[verifier::when_used_as_spec(spec_flag_n)]
    pub fn flag_n(&self) -> (r: bool)
        ensures
            r == self.spec_flag_n(),
    {
        self.ccr.n_flag != 0
    }

    /// Return whether the zero (Z) condition-code bit is set.
    pub open spec fn spec_flag_z(&self) -> bool {
        self.ccr.not_z_flag == 0
    }

    /// Return whether the zero (Z) condition-code bit is set.
    #[verifier::when_used_as_spec(spec_flag_z)]
    pub fn flag_z(&self) -> (r: bool)
        ensures
            r == self.spec_flag_z(),
    {
        self.ccr.not_z_flag == 0
    }

    /// Return whether the overflow (V) condition-code bit is set.
    pub open spec fn spec_flag_v(&self) -> bool {
        self.ccr.v_flag != 0
    }

    /// Return whether the overflow (V) condition-code bit is set.
    #[verifier::when_used_as_spec(spec_flag_v)]
    pub fn flag_v(&self) -> (r: bool)
        ensures
            r == self.spec_flag_v(),
    {
        self.ccr.v_flag != 0
    }

    /// Return whether the carry (C) condition-code bit is set.
    pub open spec fn spec_flag_c(&self) -> bool {
        self.ccr.c_flag != 0
    }

    /// Return whether the carry (C) condition-code bit is set.
    #[verifier::when_used_as_spec(spec_flag_c)]
    pub fn flag_c(&self) -> (r: bool)
        ensures
            r == self.spec_flag_c(),
    {
        self.ccr.c_flag != 0
    }

    /// Return whether the CPU is currently in supervisor mode.
    pub open spec fn spec_is_supervisor(&self) -> bool {
        self.sys.s_flag != 0
    }

    /// Return whether the CPU is currently in supervisor mode.
    #[verifier::when_used_as_spec(spec_is_supervisor)]
    pub fn is_supervisor(&self) -> (r: bool)
        ensures
            r == self.spec_is_supervisor(),
    {
        self.sys.s_flag != 0
    }

    /// Evaluate condition code.
    pub open spec fn spec_test_condition(&self, cond: u8) -> bool {
        match cond & 0x0F {
            0x0 => true,
            0x1 => false,
            0x2 => !self.flag_c() && !self.flag_z(),
            0x3 => self.flag_c() || self.flag_z(),
            0x4 => !self.flag_c(),
            0x5 => self.flag_c(),
            0x6 => !self.flag_z(),
            0x7 => self.flag_z(),
            0x8 => !self.flag_v(),
            0x9 => self.flag_v(),
            0xA => !self.flag_n(),
            0xB => self.flag_n(),
            0xC => self.flag_n() == self.flag_v(),
            0xD => self.flag_n() != self.flag_v(),
            0xE => !self.flag_z() && (self.flag_n() == self.flag_v()),
            0xF => self.flag_z() || (self.flag_n() != self.flag_v()),
            _ => true,
        }
    }

    /// Evaluate condition code.
    #[verifier::when_used_as_spec(spec_test_condition)]
    pub fn test_condition(&self, cond: u8) -> (r: bool)
        ensures
            r == self.spec_test_condition(cond),
    {
        match cond & 0x0F {
            0x0 => true,
            0x1 => false,
            0x2 => !self.flag_c() && !self.flag_z(),
            0x3 => self.flag_c() || self.flag_z(),
            0x4 => !self.flag_c(),
            0x5 => self.flag_c(),
            0x6 => !self.flag_z(),
            0x7 => self.flag_z(),
            0x8 => !self.flag_v(),
            0x9 => self.flag_v(),
            0xA => !self.flag_n(),
            0xB => self.flag_n(),
            0xC => self.flag_n() == self.flag_v(),
            0xD => self.flag_n() != self.flag_v(),
            0xE => !self.flag_z() && (self.flag_n() == self.flag_v()),
            0xF => self.flag_z() || (self.flag_n() != self.flag_v()),
            _ => true,
        }
    }

    /// Close out an instruction that faulted mid-execution: assert the
    /// handler-entry PC, SR and registers again and return to normal run
    /// mode. A double fault has parked the processor: it keeps the fault run
    /// mode, so that it stays halted until reset.
    #[verifier::opaque]
    pub open spec fn spec_end_faulted_instruction(self) -> CpuCore {
        let c = match self.fault.resume {
            Some(entry) => {
                let c = CpuCore { fault: FaultState { resume: None, ..self.fault }, ..self };
                let c = CpuCore { pc: entry.pc, ..c };
                let c = c.spec_set_sr_noint_nosp(entry.sr);
                let c = CpuCore { dar: entry.dar, ..c };
                c
            },
            None => self,
        };
        if c.run.stopped != 0 {
            c
        } else {
            let c = CpuCore { run: RunState { run_mode: RUN_MODE_NORMAL, ..c.run }, ..c };
            c
        }
    }

    /// Close out an instruction that faulted mid-execution: assert the
    /// handler-entry PC, SR and registers again and return to normal run
    /// mode. A double fault has parked the processor: it keeps the fault run
    /// mode, so that it stays halted until reset.
    pub fn end_faulted_instruction(&mut self)
        ensures
            *final(self) == old(self).spec_end_faulted_instruction(),
    {
        proof {
            reveal(CpuCore::spec_end_faulted_instruction);
        }
        match self.fault.resume {
            Some(entry) => {
                self.fault.resume = None;
                self.pc = entry.pc;
                self.set_sr_noint_nosp(entry.sr);
                self.dar = entry.dar;
            },
            None => {},
        }
        if self.run.stopped != 0 {
            return;
        }
        self.run.run_mode = RUN_MODE_NORMAL;
    }
}

} // verus!
