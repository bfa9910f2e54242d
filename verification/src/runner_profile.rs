//! Deterministic, low-intervention sampling for boundary-hook execution.
//!
//! A profile decides which instructions are sampled and gathers what the
//! samples measured. It never reads a clock: the caller passes monotonic
//! nanosecond timestamps, and is told when one is wanted.

use vstd::prelude::*;
use crate::execute::decode_boundary_hook_op;
use crate::op_cache::DecodedSimpleOp;
use crate::types::{CpuType, Size};

verus! {

/// The narrow dispatcher path selected for a sampled instruction.
#[derive(Clone, Copy, Debug, PartialEq, Eq, Structural)]
pub enum DispatchKind {
    /// The normal dispatcher handled the already-fetched opcode.
    Fallback,
    /// The boundary dispatcher handled NOP.
    Nop,
    /// The boundary dispatcher handled MOVEQ.
    Moveq,
    /// The boundary dispatcher handled CLR.W Dn.
    ClrWord,
    /// The boundary dispatcher handled CLR.L Dn.
    ClrLong,
    /// The boundary dispatcher handled CMP.W #imm,Dn on M68000.
    CmpWordImmediate,
}

/// Bus-operation counts recorded only while a timing sample is active.
#[derive(Clone, Copy, Debug, PartialEq, Eq, Structural)]
pub struct BusCounts {
    /// Byte reads during the sampled instruction.
    pub read_byte: u32,
    /// Word reads during the sampled instruction.
    pub read_word: u32,
    /// Long reads during the sampled instruction.
    pub read_long: u32,
    /// Byte writes during the sampled instruction.
    pub write_byte: u32,
    /// Word writes during the sampled instruction.
    pub write_word: u32,
    /// Long writes during the sampled instruction.
    pub write_long: u32,
    /// Reads observed before opcode fetch completed.
    pub fetch_reads: u32,
    /// Reads and writes observed after opcode fetch completed.
    pub data_bus_ops: u32,
}

/// No bus operation at all.
pub open spec fn no_counts() -> BusCounts {
    BusCounts {
        read_byte: 0,
        read_word: 0,
        read_long: 0,
        write_byte: 0,
        write_word: 0,
        write_long: 0,
        fetch_reads: 0,
        data_bus_ops: 0,
    }
}

impl Default for BusCounts {
    fn default() -> (r: Self)
        ensures
            r == no_counts(),
    {
        BusCounts {
            read_byte: 0,
            read_word: 0,
            read_long: 0,
            write_byte: 0,
            write_word: 0,
            write_long: 0,
            fetch_reads: 0,
            data_bus_ops: 0,
        }
    }
}

/// One completed sampled instruction.
#[derive(Clone, Copy, Debug, PartialEq, Eq, Structural)]
pub struct InstructionSample {
    /// One-based deterministic sample index.
    pub index: u64,
    /// Program counter of the completed instruction.
    pub ppc: u32,
    /// Fetched opcode.
    pub opcode: u16,
    /// Numeric CPU model discriminator.
    pub cpu_type: u8,
    /// Dispatcher classification.
    pub dispatch: DispatchKind,
    /// Instruction cycles after finalization.
    pub cycles: i32,
    /// Time from instruction entry through precise opcode fetch.
    pub fetch_prepare_ns: u64,
    /// Time from post-fetch dispatch through instruction-specific execution.
    pub dispatch_body_ns: u64,
    /// Time spent in precise finalization after dispatch.
    pub finalize_boundary_ns: u64,
    /// Cheap bus-operation counters for the sampled instruction.
    pub bus: BusCounts,
}

/// Aggregate data returned after a profiling run.
#[derive(Clone, Debug, Default, PartialEq, Eq)]
pub struct RunnerProfileSnapshot {
    /// Deterministic interval in retired-instruction attempts.
    pub interval: u32,
    /// Number of calls that reached the interval decision.
    pub observed_instructions: u64,
    /// Number of completed normal instruction samples.
    pub instruction_samples: u64,
    /// Number of interrupt entries timed by the low-frequency observer.
    pub interrupt_samples: u64,
    /// Total interrupt-entry service time.
    pub interrupt_nanoseconds: u64,
    /// Completed samples, in execution order.
    pub samples: Vec<InstructionSample>,
}

/// Part of the instruction that a bus operation falls into.
#[derive(Clone, Copy, Debug, PartialEq, Eq, Structural)]
pub enum BusPhase {
    Fetch,
    Dispatch,
    Finalize,
}

/// The sample being taken.
#[derive(Clone, Copy, Debug)]
pub struct ActiveSample {
    pub index: u64,
    pub started: u64,
    pub fetch_done: Option<u64>,
    pub dispatch_done: Option<u64>,
    pub ppc: u32,
    pub opcode: u16,
    pub cpu_type: u8,
    pub dispatch: DispatchKind,
    pub phase: BusPhase,
    pub next_bus_read_is_fetch: bool,
    pub bus: BusCounts,
}

/// Sampling state.
#[derive(Debug)]
pub struct RunnerProfile {
    /// Every `interval`-th instruction is sampled; none if it is zero.
    pub interval: u32,
    /// Instructions to go until the next sample.
    pub until_sample: u32,
    pub observed_instructions: u64,
    pub instruction_samples: u64,
    pub interrupt_samples: u64,
    pub interrupt_nanoseconds: u64,
    pub samples: Vec<InstructionSample>,
    pub active: Option<ActiveSample>,
}

/// What a run tells an observer.
#[derive(Clone, Copy, Debug, PartialEq, Eq, Structural)]
pub enum ProbeEvent {
    /// An instruction is about to be executed.
    BeginInstruction,
    /// The opcode fetch completed.
    FinishFetch { ppc: u32, opcode: u16, cpu_type: CpuType },
    /// The dispatcher that executes the fetched opcode.
    Dispatch(DispatchKind),
    /// Instruction-specific execution completed.
    FinishBody,
    /// The instruction completed, its prefetch included.
    FinishInstruction { cycles: i32 },
    /// The instruction did not complete normally.
    Discard,
    /// An interrupt of this level is about to be considered.
    BeginInterrupt { level: u32 },
    /// It was, and was entered or not.
    FinishInterrupt { serviced: bool },
}

/// Everything an observer has been told, in order.
#[verifier::ext_equal]
pub struct ProbeLog {
    pub events: Seq<ProbeEvent>,
}

impl ProbeLog {
    /// The log with one more event.
    pub open spec fn push(self, event: ProbeEvent) -> ProbeLog {
        ProbeLog { events: self.events.push(event) }
    }

    /// The log with more events.
    pub open spec fn plus(self, events: Seq<ProbeEvent>) -> ProbeLog {
        ProbeLog { events: self.events + events }
    }
}

/// An observer of a run. It sees neither the processor nor the bus, so it
/// cannot disturb the run.
pub trait RunProbe: Sized {
    /// What the observer has been told.
    spec fn heard(&self) -> ProbeLog;

    /// A boundary-hook run is about to execute an instruction.
    fn begin_instruction(&mut self)
        ensures
            final(self).heard() == old(self).heard().push(ProbeEvent::BeginInstruction),
    ;

    /// The opcode fetch completed.
    fn finish_fetch(&mut self, ppc: u32, opcode: u16, cpu_type: CpuType)
        ensures
            final(self).heard() == old(self).heard().push(ProbeEvent::FinishFetch { ppc, opcode, cpu_type }),
    ;

    /// The dispatcher that executes the fetched opcode.
    fn set_dispatch_kind(&mut self, dispatch: DispatchKind)
        ensures
            final(self).heard() == old(self).heard().push(ProbeEvent::Dispatch(dispatch)),
    ;

    /// Instruction-specific execution completed.
    fn finish_dispatch_body(&mut self)
        ensures
            final(self).heard() == old(self).heard().push(ProbeEvent::FinishBody),
    ;

    /// The instruction completed, its prefetch included.
    fn finish_instruction(&mut self, cycles: i32)
        ensures
            final(self).heard() == old(self).heard().push(ProbeEvent::FinishInstruction { cycles }),
    ;

    /// The instruction did not complete normally.
    fn discard_instruction(&mut self)
        ensures
            final(self).heard() == old(self).heard().push(ProbeEvent::Discard),
    ;

    /// An interrupt of this level is about to be considered.
    fn begin_interrupt(&mut self, level: u32)
        ensures
            final(self).heard() == old(self).heard().push(ProbeEvent::BeginInterrupt { level }),
    ;

    /// It was, and was entered or not.
    fn finish_interrupt(&mut self, serviced: bool)
        ensures
            final(self).heard() == old(self).heard().push(ProbeEvent::FinishInterrupt { serviced }),
    ;
}

/// The observer of a run that nobody observes: what it is told exists in
/// proofs alone.
pub struct NoProbe {
    log: Ghost<ProbeLog>,
}

impl NoProbe {
    /// An observer that has been told nothing.
    pub fn new() -> (r: NoProbe)
        ensures
            r.heard() == (ProbeLog { events: Seq::empty() }),
    {
        NoProbe { log: Ghost(ProbeLog { events: Seq::empty() }) }
    }
}

impl RunProbe for NoProbe {
    closed spec fn heard(&self) -> ProbeLog {
        self.log@
    }

    fn begin_instruction(&mut self) {
        self.log = Ghost(self.log@.push(ProbeEvent::BeginInstruction));
    }

    fn finish_fetch(&mut self, ppc: u32, opcode: u16, cpu_type: CpuType) {
        self.log = Ghost(self.log@.push(ProbeEvent::FinishFetch { ppc, opcode, cpu_type }));
    }

    fn set_dispatch_kind(&mut self, dispatch: DispatchKind) {
        self.log = Ghost(self.log@.push(ProbeEvent::Dispatch(dispatch)));
    }

    fn finish_dispatch_body(&mut self) {
        self.log = Ghost(self.log@.push(ProbeEvent::FinishBody));
    }

    fn finish_instruction(&mut self, cycles: i32) {
        self.log = Ghost(self.log@.push(ProbeEvent::FinishInstruction { cycles }));
    }

    fn discard_instruction(&mut self) {
        self.log = Ghost(self.log@.push(ProbeEvent::Discard));
    }

    fn begin_interrupt(&mut self, level: u32) {
        self.log = Ghost(self.log@.push(ProbeEvent::BeginInterrupt { level }));
    }

    fn finish_interrupt(&mut self, serviced: bool) {
        self.log = Ghost(self.log@.push(ProbeEvent::FinishInterrupt { serviced }));
    }
}

/// What a sample will say of its instruction, as far as it is known.
pub struct Draft {
    pub ppc: u32,
    pub opcode: u16,
    pub cpu_type: u8,
    pub dispatch: DispatchKind,
}

/// What a sample says of its instruction, apart from times and bus counts.
pub struct Taken {
    pub ppc: u32,
    pub opcode: u16,
    pub cpu_type: u8,
    pub dispatch: DispatchKind,
    pub cycles: i32,
}

/// A profile apart from times and bus counts: which instructions it samples
/// and what it says of them, and how many interrupt entries it has seen.
#[verifier::ext_equal]
pub struct Sampler {
    pub interval: u32,
    pub until: u32,
    pub active: Option<Draft>,
    pub taken: Seq<Taken>,
    pub interrupts: u64,
}

impl Draft {
    /// Nothing is known yet.
    pub open spec fn fresh() -> Draft {
        Draft { ppc: 0, opcode: 0, cpu_type: 0, dispatch: DispatchKind::Fallback }
    }

    /// The draft of a sample being taken.
    pub open spec fn of(active: ActiveSample) -> Draft {
        Draft {
            ppc: active.ppc,
            opcode: active.opcode,
            cpu_type: active.cpu_type,
            dispatch: active.dispatch,
        }
    }
}

impl Taken {
    /// What a completed sample says.
    pub open spec fn of(sample: InstructionSample) -> Taken {
        Taken {
            ppc: sample.ppc,
            opcode: sample.opcode,
            cpu_type: sample.cpu_type,
            dispatch: sample.dispatch,
            cycles: sample.cycles,
        }
    }
}

impl Sampler {
    /// A profile that was just reset.
    pub open spec fn fresh(interval: u32) -> Sampler {
        Sampler { interval, until: interval, active: None, taken: Seq::empty(), interrupts: 0 }
    }

    /// The profile after an event.
    pub open spec fn hear(self, event: ProbeEvent) -> Sampler {
        match event {
            ProbeEvent::BeginInstruction => if self.interval == 0 {
                self
            } else if self.until > 1 {
                Sampler { until: (self.until - 1) as u32, ..self }
            } else {
                Sampler { until: self.interval, active: Some(Draft::fresh()), ..self }
            },
            ProbeEvent::FinishFetch { ppc, opcode, cpu_type } => match self.active {
                Some(draft) => Sampler {
                    active: Some(Draft { ppc, opcode, cpu_type: model_number(cpu_type), ..draft }),
                    ..self
                },
                None => self,
            },
            ProbeEvent::Dispatch(dispatch) => match self.active {
                Some(draft) => Sampler { active: Some(Draft { dispatch, ..draft }), ..self },
                None => self,
            },
            ProbeEvent::FinishInstruction { cycles } => match self.active {
                Some(draft) => Sampler {
                    active: None,
                    taken: self.taken.push(
                        Taken {
                            ppc: draft.ppc,
                            opcode: draft.opcode,
                            cpu_type: draft.cpu_type,
                            dispatch: draft.dispatch,
                            cycles,
                        },
                    ),
                    ..self
                },
                None => self,
            },
            ProbeEvent::Discard => Sampler { active: None, ..self },
            ProbeEvent::FinishInterrupt { serviced: true } => Sampler {
                interrupts: self.interrupts.wrapping_add(1),
                ..self
            },
            _ => self,
        }
    }

    /// The profile after a sequence of events.
    pub open spec fn feed(self, events: Seq<ProbeEvent>) -> Sampler
        decreases events.len(),
    {
        if events.len() == 0 {
            self
        } else {
            self.feed(events.drop_last()).hear(events.last())
        }
    }
}

/// Nanoseconds between two timestamps; zero if they are out of order.
pub open spec fn spec_elapsed_ns(start: u64, end: u64) -> u64 {
    if end < start {
        0
    } else {
        (end - start) as u64
    }
}

/// Nanoseconds between two timestamps; zero if they are out of order.
#[verifier::when_used_as_spec(spec_elapsed_ns)]
pub fn elapsed_ns(start: u64, end: u64) -> (r: u64)
    ensures
        r == spec_elapsed_ns(start, end),
{
    if end < start {
        0
    } else {
        end - start
    }
}

/// Number of a model in a sample.
pub open spec fn spec_model_number(cpu_type: CpuType) -> u8 {
    match cpu_type {
        CpuType::Invalid => 0,
        CpuType::M68000 => 1,
        CpuType::M68010 => 2,
        CpuType::M68EC020 => 3,
        CpuType::M68020 => 4,
        CpuType::M68EC030 => 5,
        CpuType::M68030 => 6,
        CpuType::M68EC040 => 7,
        CpuType::M68LC040 => 8,
        CpuType::M68040 => 9,
        CpuType::M68060 => 10,
        CpuType::SCC68070 => 11,
    }
}

/// Number of a model in a sample.
#[verifier::when_used_as_spec(spec_model_number)]
pub fn model_number(cpu_type: CpuType) -> (r: u8)
    ensures
        r == spec_model_number(cpu_type),
{
    match cpu_type {
        CpuType::Invalid => 0,
        CpuType::M68000 => 1,
        CpuType::M68010 => 2,
        CpuType::M68EC020 => 3,
        CpuType::M68020 => 4,
        CpuType::M68EC030 => 5,
        CpuType::M68030 => 6,
        CpuType::M68EC040 => 7,
        CpuType::M68LC040 => 8,
        CpuType::M68040 => 9,
        CpuType::M68060 => 10,
        CpuType::SCC68070 => 11,
    }
}

/// The path on which the boundary-hook runner executes an untraced opcode.
/// CMP.W #imm,Dn takes the normal dispatcher at present.
pub open spec fn spec_dispatch_kind(cpu_type: CpuType, opcode: u16) -> DispatchKind {
    match decode_boundary_hook_op(cpu_type, opcode) {
        Some(DecodedSimpleOp::Nop) => DispatchKind::Nop,
        Some(DecodedSimpleOp::Moveq { reg: _, data: _ }) => DispatchKind::Moveq,
        Some(DecodedSimpleOp::UnaryDataReg { op: _, reg: _, size }) => {
            if size == Size::Word {
                DispatchKind::ClrWord
            } else {
                DispatchKind::ClrLong
            }
        },
        _ => DispatchKind::Fallback,
    }
}

/// The path on which the boundary-hook runner executes an untraced opcode.
/// CMP.W #imm,Dn takes the normal dispatcher at present.
#[verifier::when_used_as_spec(spec_dispatch_kind)]
pub fn dispatch_kind(cpu_type: CpuType, opcode: u16) -> (r: DispatchKind)
    ensures
        r == spec_dispatch_kind(cpu_type, opcode),
{
    match decode_boundary_hook_op(cpu_type, opcode) {
        Some(DecodedSimpleOp::Nop) => DispatchKind::Nop,
        Some(DecodedSimpleOp::Moveq { reg: _, data: _ }) => DispatchKind::Moveq,
        Some(DecodedSimpleOp::UnaryDataReg { op: _, reg: _, size }) => {
            if size == Size::Word {
                DispatchKind::ClrWord
            } else {
                DispatchKind::ClrLong
            }
        },
        _ => DispatchKind::Fallback,
    }
}

/// The sample that starts now.
pub open spec fn fresh_sample(index: u64, now: u64) -> ActiveSample {
    ActiveSample {
        index,
        started: now,
        fetch_done: None,
        dispatch_done: None,
        ppc: 0,
        opcode: 0,
        cpu_type: 0,
        dispatch: DispatchKind::Fallback,
        phase: BusPhase::Fetch,
        next_bus_read_is_fetch: false,
        bus: no_counts(),
    }
}

/// The record of a sample that completes now.
pub open spec fn completed_sample(active: ActiveSample, cycles: i32, now: u64) -> InstructionSample {
    let fetch_done = match active.fetch_done {
        Some(t) => t,
        None => active.started,
    };
    let dispatch_done = match active.dispatch_done {
        Some(t) => t,
        None => fetch_done,
    };
    InstructionSample {
        index: active.index,
        ppc: active.ppc,
        opcode: active.opcode,
        cpu_type: active.cpu_type,
        dispatch: active.dispatch,
        cycles,
        fetch_prepare_ns: elapsed_ns(active.started, fetch_done),
        dispatch_body_ns: elapsed_ns(fetch_done, dispatch_done),
        finalize_boundary_ns: elapsed_ns(dispatch_done, now),
        bus: active.bus,
    }
}

/// The counts after a read of `size` bytes; other sizes are not counted.
pub open spec fn counted_read(bus: BusCounts, size: u8, fetch: bool) -> BusCounts {
    let bus = if size == 1 {
        BusCounts { read_byte: bus.read_byte.wrapping_add(1), ..bus }
    } else if size == 2 {
        BusCounts { read_word: bus.read_word.wrapping_add(1), ..bus }
    } else {
        BusCounts { read_long: bus.read_long.wrapping_add(1), ..bus }
    };
    if fetch {
        BusCounts { fetch_reads: bus.fetch_reads.wrapping_add(1), ..bus }
    } else {
        BusCounts { data_bus_ops: bus.data_bus_ops.wrapping_add(1), ..bus }
    }
}

/// The counts after a write of `size` bytes; other sizes are not counted.
pub open spec fn counted_write(bus: BusCounts, size: u8) -> BusCounts {
    let bus = if size == 1 {
        BusCounts { write_byte: bus.write_byte.wrapping_add(1), ..bus }
    } else if size == 2 {
        BusCounts { write_word: bus.write_word.wrapping_add(1), ..bus }
    } else {
        BusCounts { write_long: bus.write_long.wrapping_add(1), ..bus }
    };
    BusCounts { data_bus_ops: bus.data_bus_ops.wrapping_add(1), ..bus }
}

/// Whether an access size is counted.
pub open spec fn spec_counts_size(size: u8) -> bool {
    size == 1 || size == 2 || size == 4
}

/// Whether an access size is counted.
#[verifier::when_used_as_spec(spec_counts_size)]
pub fn counts_size(size: u8) -> (r: bool)
    ensures
        r == spec_counts_size(size),
{
    size == 1 || size == 2 || size == 4
}

/// Whether a read in the sample's present state belongs to the instruction
/// stream: a marked refill, or anything before the opcode fetch completed.
pub open spec fn reads_stream(active: ActiveSample) -> bool {
    active.next_bus_read_is_fetch || active.phase == BusPhase::Fetch
}

impl RunnerProfile {
    /// The countdown agrees with the number of instructions observed.
    pub open spec fn in_step(self) -> bool {
        self.interval == 0 || (1 <= self.until_sample <= self.interval && (self.observed_instructions
            + self.until_sample) % (self.interval as int) == 0)
    }

    /// The profile apart from times and bus counts.
    pub open spec fn sampler(self) -> Sampler {
        Sampler {
            interval: self.interval,
            until: self.until_sample,
            active: match self.active {
                Some(active) => Some(Draft::of(active)),
                None => None,
            },
            taken: Seq::new(self.samples@.len(), |i: int| Taken::of(self.samples@[i])),
            interrupts: self.interrupt_samples,
        }
    }

    /// Everything but the sample being taken agrees.
    pub open spec fn same_but_active(self, other: RunnerProfile) -> bool {
        &&& self.interval == other.interval
        &&& self.until_sample == other.until_sample
        &&& self.observed_instructions == other.observed_instructions
        &&& self.instruction_samples == other.instruction_samples
        &&& self.interrupt_samples == other.interrupt_samples
        &&& self.interrupt_nanoseconds == other.interrupt_nanoseconds
        &&& self.samples@ == other.samples@
    }
}

/// A profile that samples nothing.
impl Default for RunnerProfile {
    fn default() -> (r: Self)
        ensures
            r.interval == 0,
            r.observed_instructions == 0,
            r.instruction_samples == 0,
            r.interrupt_samples == 0,
            r.interrupt_nanoseconds == 0,
            r.samples@ == Seq::<InstructionSample>::empty(),
            r.active is None,
            r.in_step(),
    {
        RunnerProfile {
            interval: 0,
            until_sample: 0,
            observed_instructions: 0,
            instruction_samples: 0,
            interrupt_samples: 0,
            interrupt_nanoseconds: 0,
            samples: Vec::new(),
            active: None,
        }
    }
}

/// Resets sampling state and reserves storage before execution starts. An
/// interval of zero disables sampling.
pub fn reset(profile: &mut RunnerProfile, interval: u32, capacity: usize)
    ensures
        final(profile).interval == interval,
        final(profile).until_sample == interval,
        final(profile).observed_instructions == 0,
        final(profile).instruction_samples == 0,
        final(profile).interrupt_samples == 0,
        final(profile).interrupt_nanoseconds == 0,
        final(profile).samples@ == Seq::<InstructionSample>::empty(),
        final(profile).active is None,
        final(profile).in_step(),
        final(profile).sampler() == Sampler::fresh(interval),
{
    proof {
        if interval != 0 {
            assert(interval as int % (interval as int) == 0) by (nonlinear_arith)
                requires
                    interval != 0,
            ;
        }
    }
    *profile = RunnerProfile {
        interval,
        until_sample: interval,
        observed_instructions: 0,
        instruction_samples: 0,
        interrupt_samples: 0,
        interrupt_nanoseconds: 0,
        samples: Vec::with_capacity(capacity),
        active: None,
    };
}

/// Returns all aggregate and raw sample data accumulated so far.
pub fn snapshot(profile: &RunnerProfile) -> (r: RunnerProfileSnapshot)
    ensures
        r.interval == profile.interval,
        r.observed_instructions == profile.observed_instructions,
        r.instruction_samples == profile.instruction_samples,
        r.interrupt_samples == profile.interrupt_samples,
        r.interrupt_nanoseconds == profile.interrupt_nanoseconds,
        r.samples@ == profile.samples@,
{
    let mut samples: Vec<InstructionSample> = Vec::with_capacity(profile.samples.len());
    let mut i: usize = 0;
    while i < profile.samples.len()
        invariant
            i <= profile.samples.len(),
            samples@ == profile.samples@.take(i as int),
        decreases profile.samples.len() - i,
    {
        samples.push(profile.samples[i]);
        i = i + 1;
        assert(samples@ =~= profile.samples@.take(i as int));
    }
    assert(profile.samples@.take(i as int) =~= profile.samples@);
    RunnerProfileSnapshot {
        interval: profile.interval,
        observed_instructions: profile.observed_instructions,
        instruction_samples: profile.instruction_samples,
        interrupt_samples: profile.interrupt_samples,
        interrupt_nanoseconds: profile.interrupt_nanoseconds,
        samples,
    }
}

/// Makes the next instruction sample decision. `true` asks the caller to read
/// the clock and open a sample.
///
/// From a reset on, exactly every `interval`-th instruction is selected.
pub fn begin_instruction(profile: &mut RunnerProfile) -> (r: bool)
    ensures
        old(profile).interval == 0 ==> !r && *final(profile) == *old(profile),
        old(profile).interval != 0 ==> {
            &&& r == (old(profile).until_sample <= 1)
            &&& final(profile).until_sample == (if r {
                old(profile).interval
            } else {
                (old(profile).until_sample - 1) as u32
            })
            &&& final(profile).observed_instructions == (if old(profile).observed_instructions
                == u64::MAX {
                u64::MAX
            } else {
                (old(profile).observed_instructions + 1) as u64
            })
            &&& final(profile).active == old(profile).active
            &&& final(profile).same_but_active(
                RunnerProfile {
                    until_sample: final(profile).until_sample,
                    observed_instructions: final(profile).observed_instructions,
                    ..*old(profile)
                },
            )
        },
        old(profile).in_step() && old(profile).observed_instructions < u64::MAX ==> final(profile).in_step(),
        old(profile).in_step() && old(profile).interval != 0 ==> r == ((old(profile).observed_instructions + 1) % (old(profile).interval as int) == 0),
        r ==> (Sampler { active: Some(Draft::fresh()), ..final(profile).sampler() })
            == old(profile).sampler().hear(ProbeEvent::BeginInstruction),
        !r ==> final(profile).sampler() == old(profile).sampler().hear(ProbeEvent::BeginInstruction),
{
    if profile.interval == 0 {
        return false;
    }
    proof {
        if profile.in_step() {
            lemma_countdown(
                profile.observed_instructions as int,
                profile.until_sample as int,
                profile.interval as int,
            );
        }
    }
    profile.observed_instructions = profile.observed_instructions.saturating_add(1);
    if profile.until_sample > 1 {
        profile.until_sample = profile.until_sample - 1;
        false
    } else {
        profile.until_sample = profile.interval;
        true
    }
}

/// A countdown that agrees with a count reaches one exactly when the next
/// count is a multiple of the interval.
proof fn lemma_countdown(observed: int, until: int, interval: int)
    requires
        1 <= until <= interval,
        (observed + until) % interval == 0,
    ensures
        (until == 1) == ((observed + 1) % interval == 0),
        until == 1 ==> (observed + 1 + interval) % interval == 0,
        until > 1 ==> (observed + 1 + (until - 1)) % interval == 0,
{
    if until == 1 {
        vstd::arithmetic::div_mod::lemma_mod_add_multiples_vanish(observed + 1, interval);
    } else if (observed + 1) % interval == 0 {
        vstd::arithmetic::div_mod::lemma_mod_adds(observed + 1, until - 1, interval);
        vstd::arithmetic::div_mod::lemma_small_mod((until - 1) as nat, interval as nat);
        vstd::arithmetic::div_mod::lemma_add_mod_noop(observed + 1, until - 1, interval);
        assert(((observed + 1) % interval + (until - 1) % interval) % interval == (until - 1));
        assert(false);
    }
}

/// Opens the sample that [`begin_instruction`] selected.
pub fn open_sample(profile: &mut RunnerProfile, now: u64)
    ensures
        final(profile).same_but_active(*old(profile)),
        final(profile).active == Some(
            fresh_sample(old(profile).instruction_samples.wrapping_add(1), now),
        ),
        final(profile).sampler() == (Sampler {
            active: Some(Draft::fresh()),
            ..old(profile).sampler()
        }),
{
    profile.active = Some(
        ActiveSample {
            index: profile.instruction_samples.wrapping_add(1),
            started: now,
            fetch_done: None,
            dispatch_done: None,
            ppc: 0,
            opcode: 0,
            cpu_type: 0,
            dispatch: DispatchKind::Fallback,
            phase: BusPhase::Fetch,
            next_bus_read_is_fetch: false,
            bus: BusCounts::default(),
        },
    );
}

/// Marks the end of the shared precise opcode-fetch prologue.
pub fn finish_fetch(
    profile: &mut RunnerProfile,
    ppc: u32,
    opcode: u16,
    cpu_type: CpuType,
    now: u64,
)
    ensures
        final(profile).same_but_active(*old(profile)),
        final(profile).active == match old(profile).active {
            Some(active) => Some(
                ActiveSample {
                    ppc,
                    opcode,
                    cpu_type: model_number(cpu_type),
                    fetch_done: Some(now),
                    phase: BusPhase::Dispatch,
                    ..active
                },
            ),
            None => None,
        },
        final(profile).sampler() == old(profile).sampler().hear(
            ProbeEvent::FinishFetch { ppc, opcode, cpu_type },
        ),
{
    if let Some(active) = profile.active {
        profile.active = Some(
            ActiveSample {
                ppc,
                opcode,
                cpu_type: model_number(cpu_type),
                fetch_done: Some(now),
                phase: BusPhase::Dispatch,
                ..active
            },
        );
    }
}

/// Records the dispatcher kind selected after the shared opcode fetch.
pub fn set_dispatch_kind(profile: &mut RunnerProfile, dispatch: DispatchKind)
    ensures
        final(profile).same_but_active(*old(profile)),
        final(profile).active == match old(profile).active {
            Some(active) => Some(ActiveSample { dispatch, ..active }),
            None => None,
        },
        final(profile).sampler() == old(profile).sampler().hear(
            ProbeEvent::Dispatch(dispatch),
        ),
{
    if let Some(active) = profile.active {
        profile.active = Some(ActiveSample { dispatch, ..active });
    }
}

/// Marks the end of dispatch and instruction-specific execution.
pub fn finish_dispatch_body(profile: &mut RunnerProfile, now: u64)
    ensures
        final(profile).same_but_active(*old(profile)),
        final(profile).active == match old(profile).active {
            Some(active) => Some(
                ActiveSample { dispatch_done: Some(now), phase: BusPhase::Finalize, ..active },
            ),
            None => None,
        },
        final(profile).sampler() == old(profile).sampler().hear(
            ProbeEvent::FinishBody,
        ),
{
    if let Some(active) = profile.active {
        profile.active = Some(
            ActiveSample { dispatch_done: Some(now), phase: BusPhase::Finalize, ..active },
        );
    }
}

/// Completes an instruction sample after precise finalization.
pub fn finish_instruction(profile: &mut RunnerProfile, cycles: i32, now: u64)
    ensures
        final(profile).active is None,
        final(profile).interval == old(profile).interval,
        final(profile).until_sample == old(profile).until_sample,
        final(profile).observed_instructions == old(profile).observed_instructions,
        final(profile).interrupt_samples == old(profile).interrupt_samples,
        final(profile).interrupt_nanoseconds == old(profile).interrupt_nanoseconds,
        match old(profile).active {
            Some(active) => {
                &&& final(profile).samples@ == old(profile).samples@.push(
                    completed_sample(active, cycles, now),
                )
                &&& final(profile).instruction_samples == old(profile).instruction_samples.wrapping_add(1)
            },
            None => {
                &&& final(profile).samples@ == old(profile).samples@
                &&& final(profile).instruction_samples == old(profile).instruction_samples
            },
        },
        final(profile).sampler() == old(profile).sampler().hear(
            ProbeEvent::FinishInstruction { cycles },
        ),
{
    if let Some(active) = profile.active {
        let fetch_done: u64 = match active.fetch_done {
            Some(t) => t,
            None => active.started,
        };
        let dispatch_done: u64 = match active.dispatch_done {
            Some(t) => t,
            None => fetch_done,
        };
        profile.samples.push(
            InstructionSample {
                index: active.index,
                ppc: active.ppc,
                opcode: active.opcode,
                cpu_type: active.cpu_type,
                dispatch: active.dispatch,
                cycles,
                fetch_prepare_ns: elapsed_ns(active.started, fetch_done),
                dispatch_body_ns: elapsed_ns(fetch_done, dispatch_done),
                finalize_boundary_ns: elapsed_ns(dispatch_done, now),
                bus: active.bus,
            },
        );
        profile.instruction_samples = profile.instruction_samples.wrapping_add(1);
    }
    profile.active = None;
}

/// Drops a sample that did not complete as a normal instruction.
pub fn discard_instruction(profile: &mut RunnerProfile)
    ensures
        final(profile).same_but_active(*old(profile)),
        final(profile).active is None,
        final(profile).sampler() == old(profile).sampler().hear(
            ProbeEvent::Discard,
        ),
{
    profile.active = None;
}

/// `bus` with one read counted.
fn count_read(bus: BusCounts, size: u8, fetch: bool) -> (r: BusCounts)
    ensures
        r == counted_read(bus, size, fetch),
{
    let mut counts: BusCounts = bus;
    if size == 1 {
        counts.read_byte = counts.read_byte.wrapping_add(1);
    } else if size == 2 {
        counts.read_word = counts.read_word.wrapping_add(1);
    } else {
        counts.read_long = counts.read_long.wrapping_add(1);
    }
    if fetch {
        counts.fetch_reads = counts.fetch_reads.wrapping_add(1);
    } else {
        counts.data_bus_ops = counts.data_bus_ops.wrapping_add(1);
    }
    counts
}

/// Counts a bus read for the active sample without performing timing. A
/// marked read uses up its mark.
pub fn note_bus_read(profile: &mut RunnerProfile, size: u8)
    ensures
        final(profile).same_but_active(*old(profile)),
        final(profile).active == match old(profile).active {
            Some(active) => if counts_size(size) {
                Some(
                    ActiveSample {
                        next_bus_read_is_fetch: false,
                        bus: counted_read(active.bus, size, reads_stream(active)),
                        ..active
                    },
                )
            } else {
                Some(active)
            },
            None => None,
        },
        final(profile).sampler() == old(profile).sampler(),
{
    if let Some(active) = profile.active {
        if counts_size(size) {
            let fetch: bool = active.next_bus_read_is_fetch || active.phase == BusPhase::Fetch;
            profile.active = Some(
                ActiveSample {
                    next_bus_read_is_fetch: false,
                    bus: count_read(active.bus, size, fetch),
                    ..active
                },
            );
        }
    }
}

/// Marks the next host bus read as a 68000 prefetch-queue refill.
pub fn mark_next_bus_read_as_fetch(profile: &mut RunnerProfile)
    ensures
        final(profile).same_but_active(*old(profile)),
        final(profile).active == match old(profile).active {
            Some(active) => Some(ActiveSample { next_bus_read_is_fetch: true, ..active }),
            None => None,
        },
        final(profile).sampler() == old(profile).sampler(),
{
    if let Some(active) = profile.active {
        profile.active = Some(ActiveSample { next_bus_read_is_fetch: true, ..active });
    }
}

/// Counts an instruction-stream bus read for the active sample.
pub fn note_fetch_read(profile: &mut RunnerProfile, size: u8)
    ensures
        final(profile).same_but_active(*old(profile)),
        final(profile).active == match old(profile).active {
            Some(active) => if counts_size(size) {
                Some(ActiveSample { bus: counted_read(active.bus, size, true), ..active })
            } else {
                Some(active)
            },
            None => None,
        },
        final(profile).sampler() == old(profile).sampler(),
{
    if let Some(active) = profile.active {
        if counts_size(size) {
            profile.active = Some(ActiveSample { bus: count_read(active.bus, size, true), ..active });
        }
    }
}

/// Counts a bus write for the active sample without performing timing.
pub fn note_bus_write(profile: &mut RunnerProfile, size: u8)
    ensures
        final(profile).same_but_active(*old(profile)),
        final(profile).active == match old(profile).active {
            Some(active) => if counts_size(size) {
                Some(ActiveSample { bus: counted_write(active.bus, size), ..active })
            } else {
                Some(active)
            },
            None => None,
        },
        final(profile).sampler() == old(profile).sampler(),
{
    if let Some(active) = profile.active {
        if counts_size(size) {
            let mut counts: BusCounts = active.bus;
            if size == 1 {
                counts.write_byte = counts.write_byte.wrapping_add(1);
            } else if size == 2 {
                counts.write_word = counts.write_word.wrapping_add(1);
            } else {
                counts.write_long = counts.write_long.wrapping_add(1);
            }
            counts.data_bus_ops = counts.data_bus_ops.wrapping_add(1);
            profile.active = Some(ActiveSample { bus: counts, ..active });
        }
    }
}

/// Whether the entry of an interrupt should be timed: only when one is
/// pending.
pub fn begin_interrupt(level: u32) -> (r: bool)
    ensures
        r == (level != 0),
{
    level != 0
}

/// Adds a completed interrupt-entry duration when the CPU accepted it.
pub fn finish_interrupt(profile: &mut RunnerProfile, start: Option<u64>, serviced: bool, now: u64)
    ensures
        final(profile).interval == old(profile).interval,
        final(profile).until_sample == old(profile).until_sample,
        final(profile).observed_instructions == old(profile).observed_instructions,
        final(profile).instruction_samples == old(profile).instruction_samples,
        final(profile).samples@ == old(profile).samples@,
        final(profile).active == old(profile).active,
        match start {
            Some(begun) if serviced => {
                &&& final(profile).interrupt_samples == old(profile).interrupt_samples.wrapping_add(1)
                &&& final(profile).interrupt_nanoseconds == (if old(profile).interrupt_nanoseconds
                    + elapsed_ns(begun, now) > u64::MAX {
                    u64::MAX as int
                } else {
                    old(profile).interrupt_nanoseconds + elapsed_ns(begun, now)
                })
            },
            _ => {
                &&& final(profile).interrupt_samples == old(profile).interrupt_samples
                &&& final(profile).interrupt_nanoseconds == old(profile).interrupt_nanoseconds
            },
        },
        (serviced ==> start is Some) ==> final(profile).sampler() == old(profile).sampler().hear(
            ProbeEvent::FinishInterrupt { serviced },
        ),
{
    if !serviced {
        return;
    }
    if let Some(begun) = start {
        profile.interrupt_samples = profile.interrupt_samples.wrapping_add(1);
        profile.interrupt_nanoseconds = profile.interrupt_nanoseconds.saturating_add(
            elapsed_ns(begun, now),
        );
    }
}

} // verus!
