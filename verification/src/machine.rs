//! The machine that the contracts speak of: the processor and what its bus
//! will do.

use vstd::prelude::*;
use crate::cpu::{CpuCore, MmuRegs};
use crate::memory::{
    AddressBus, BusFault, BusOp, BusView, FastMem, MmuFault, Probe, ProbeResult, Retirement,
    Translation, UnitOp,
};
use crate::types::CpuType;

verus! {

/// A processor together with the behaviour of its bus.
pub struct Machine {
    pub cpu: CpuCore,
    pub bus: BusView,
}

impl Machine {
    /// The machine made of a processor and a bus.
    #[verifier::inline]
    pub open spec fn of<B: AddressBus>(cpu: CpuCore, bus: B) -> Machine {
        Machine { cpu, bus: bus.view() }
    }

    /// The machine with another processor state.
    #[verifier::inline]
    pub open spec fn on_cpu(self, cpu: CpuCore) -> Machine {
        Machine { cpu, ..self }
    }

    /// An attached unit carries out `op`.
    #[verifier::inline]
    pub open spec fn bus_unit(self, op: UnitOp) -> (Machine, Option<i32>) {
        (
            Machine {
                cpu: self.bus.unit(self.cpu, op).0,
                bus: self.bus.after(BusOp::Unit(self.cpu, op)),
            },
            self.bus.unit(self.cpu, op).1,
        )
    }

    /// The bus operation `read_word` on the machine.
    #[verifier::inline]
    pub open spec fn bus_read_word(self, address: u32) -> (Machine, u16) {
        (Machine { bus: self.bus.after(BusOp::ReadWord(address)), ..self }, self.bus.read_word(address))
    }

    /// The bus operation `read_long` on the machine.
    #[verifier::inline]
    pub open spec fn bus_read_long(self, address: u32) -> (Machine, u32) {
        (Machine { bus: self.bus.after(BusOp::ReadLong(address)), ..self }, self.bus.read_long(address))
    }

    /// The bus operation `try_read_byte` on the machine.
    #[verifier::inline]
    pub open spec fn bus_try_read_byte(self, address: u32) -> (Machine, Result<u8, BusFault>) {
        (Machine { bus: self.bus.after(BusOp::TryReadByte(address)), ..self }, self.bus.try_read_byte(address))
    }

    /// The bus operation `try_read_word` on the machine.
    #[verifier::inline]
    pub open spec fn bus_try_read_word(self, address: u32) -> (Machine, Result<u16, BusFault>) {
        (Machine { bus: self.bus.after(BusOp::TryReadWord(address)), ..self }, self.bus.try_read_word(address))
    }

    /// The bus operation `try_read_long` on the machine.
    #[verifier::inline]
    pub open spec fn bus_try_read_long(self, address: u32) -> (Machine, Result<u32, BusFault>) {
        (Machine { bus: self.bus.after(BusOp::TryReadLong(address)), ..self }, self.bus.try_read_long(address))
    }

    /// The bus operation `try_read_three_bytes` on the machine.
    #[verifier::inline]
    pub open spec fn bus_try_read_three_bytes(self, address: u32) -> (Machine, Result<u32, BusFault>) {
        (Machine { bus: self.bus.after(BusOp::TryReadThreeBytes(address)), ..self }, self.bus.try_read_three_bytes(address))
    }

    /// The bus operation `try_write_byte` on the machine.
    #[verifier::inline]
    pub open spec fn bus_try_write_byte(self, address: u32, value: u8) -> (Machine, Result<(), BusFault>) {
        (Machine { bus: self.bus.after(BusOp::TryWriteByte(address, value)), ..self }, self.bus.try_write_byte(address, value))
    }

    /// The bus operation `try_write_word` on the machine.
    #[verifier::inline]
    pub open spec fn bus_try_write_word(self, address: u32, value: u16) -> (Machine, Result<(), BusFault>) {
        (Machine { bus: self.bus.after(BusOp::TryWriteWord(address, value)), ..self }, self.bus.try_write_word(address, value))
    }

    /// The bus operation `try_write_long` on the machine.
    #[verifier::inline]
    pub open spec fn bus_try_write_long(self, address: u32, value: u32) -> (Machine, Result<(), BusFault>) {
        (Machine { bus: self.bus.after(BusOp::TryWriteLong(address, value)), ..self }, self.bus.try_write_long(address, value))
    }

    /// The bus operation `try_write_three_bytes` on the machine.
    #[verifier::inline]
    pub open spec fn bus_try_write_three_bytes(self, address: u32, value: u32) -> (Machine, Result<(), BusFault>) {
        (Machine { bus: self.bus.after(BusOp::TryWriteThreeBytes(address, value)), ..self }, self.bus.try_write_three_bytes(address, value))
    }

    /// The bus operation `interrupt_acknowledge` on the machine.
    #[verifier::inline]
    pub open spec fn bus_interrupt_acknowledge(self, level: u8) -> (Machine, u32) {
        (Machine { bus: self.bus.after(BusOp::InterruptAcknowledge(level)), ..self }, self.bus.interrupt_acknowledge(level))
    }

    /// The bus operation `reset_devices` on the machine.
    #[verifier::inline]
    pub open spec fn bus_reset_devices(self) -> Machine {
        Machine { bus: self.bus.after(BusOp::ResetDevices), ..self }
    }

    /// The bus operation `sync` on the machine.
    #[verifier::inline]
    pub open spec fn bus_sync(self, clocks: u32) -> Machine {
        Machine { bus: self.bus.after(BusOp::Sync(clocks)), ..self }
    }

    /// The bus operation `ipl_hold_sample` on the machine.
    #[verifier::inline]
    pub open spec fn bus_ipl_hold_sample(self) -> Machine {
        Machine { bus: self.bus.after(BusOp::IplHoldSample), ..self }
    }

    /// The bus operation `ipl_release_sample` on the machine.
    #[verifier::inline]
    pub open spec fn bus_ipl_release_sample(self) -> Machine {
        Machine { bus: self.bus.after(BusOp::IplReleaseSample), ..self }
    }

    /// The bus operation `begin_instruction_fetches` on the machine.
    #[verifier::inline]
    pub open spec fn bus_begin_instruction_fetches(self) -> Machine {
        Machine { bus: self.bus.after(BusOp::BeginInstructionFetches), ..self }
    }

    /// The bus operation `prefetch_refill` on the machine.
    #[verifier::inline]
    pub open spec fn bus_prefetch_refill(self) -> Machine {
        Machine { bus: self.bus.after(BusOp::PrefetchRefill), ..self }
    }

    /// The bus operation `last_fetch_was_cached` on the machine.
    #[verifier::inline]
    pub open spec fn bus_last_fetch_was_cached(self) -> (Machine, bool) {
        (Machine { bus: self.bus.after(BusOp::LastFetchWasCached), ..self }, self.bus.last_fetch_was_cached())
    }

    /// The bus operation `instruction_fetches_were_cached` on the machine.
    #[verifier::inline]
    pub open spec fn bus_instruction_fetches_were_cached(self) -> (Machine, bool) {
        (Machine { bus: self.bus.after(BusOp::InstructionFetchesWereCached), ..self }, self.bus.instruction_fetches_were_cached())
    }

    /// The bus operation `instruction_boundary_requested` on the machine.
    #[verifier::inline]
    pub open spec fn bus_instruction_boundary_requested(self) -> (Machine, bool) {
        (Machine { bus: self.bus.after(BusOp::InstructionBoundaryRequested), ..self }, self.bus.instruction_boundary_requested())
    }

    /// The bus operation `fast_mem` on the machine.
    #[verifier::inline]
    pub open spec fn bus_fast_mem(self) -> (Machine, Option<FastMem>) {
        (Machine { bus: self.bus.after(BusOp::FastMem), ..self }, self.bus.fast_mem())
    }

    /// The bus operation `translate` on the machine.
    #[verifier::inline]
    pub open spec fn bus_translate(self, mmu: MmuRegs, cpu_type: CpuType, access: Translation) -> (Machine, Result<u32, MmuFault>) {
        (Machine { bus: self.bus.after(BusOp::Translate(mmu, cpu_type, access)), ..self }, self.bus.translate(mmu, cpu_type, access))
    }

    /// The bus operation `probe` on the machine.
    #[verifier::inline]
    pub open spec fn bus_probe(self, mmu: MmuRegs, cpu_type: CpuType, request: Probe) -> (Machine, ProbeResult) {
        (Machine { bus: self.bus.after(BusOp::Probe(mmu, cpu_type, request)), ..self }, self.bus.probe(mmu, cpu_type, request))
    }

    /// The bus operation `retire_cycles` on the machine.
    #[verifier::inline]
    pub open spec fn bus_retire_cycles(self, cpu_type: CpuType, record: Retirement) -> (Machine, i32) {
        (Machine { bus: self.bus.after(BusOp::RetireCycles(cpu_type, record)), ..self }, self.bus.retire_cycles(cpu_type, record))
    }
}

} // verus!
