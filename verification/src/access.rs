//! Data accesses up to, but not including, the delivery of a fault.
//!
//! Each access reports the fault it met. Ordinary accesses deliver it; the
//! accesses of exception entry halt the processor on it.

use vstd::prelude::*;
use crate::cpu::{CpuCore, FaultState, PrefetchState};
use crate::machine::Machine;
use crate::memory::{AddressBus, MmuFault, Translation};
use crate::types::is_pre_68020;

verus! {

/// A fault met by a data access.
#[derive(Debug, Clone, Copy, PartialEq, Eq, Structural)]
pub enum Fault {
    /// Word or long access to an odd address.
    Address { address: u32, write: bool },
    /// The bus refused the access.
    Bus { address: u32, write: bool, size: u32 },
    /// The table walk failed.
    Mmu { fault: MmuFault, write: bool, size: u32 },
}

/// What a read gave: a value, and the fault that cut it short.
#[derive(Debug, Clone, Copy, PartialEq, Eq, Structural)]
pub struct Access {
    pub value: u32,
    pub fault: Option<Fault>,
}

impl Machine {
    /// Flush accumulated internal clocks to the host right before a bus
    /// access. Every bus-access helper calls this first.
    #[verifier::opaque]
    pub open spec fn flush_sync(self) -> Machine {
        if self.cpu.queue.pending_sync_clocks > 0 {
            let clocks: u32 = self.cpu.queue.pending_sync_clocks;
            let m = self.on_cpu(CpuCore { queue: PrefetchState { pending_sync_clocks: 0, ..self.cpu.queue }, ..self.cpu });
            let m = m.bus_sync(clocks);
            m
        } else {
            self
        }
    }

    /// Mark the instruction's IPL poll point: the host keeps the interrupt
    /// sample of the access just made for the boundary decision.
    #[verifier::opaque]
    pub open spec fn ipl_poll_point(self) -> Machine {
        if self.cpu.prefetch_enabled() {
            let m = self.bus_ipl_hold_sample();
            m
        } else {
            self
        }
    }

    /// The physical address of a data access.
    #[verifier::opaque]
    pub open spec fn translate(self, addr: u32, write: bool, instruction: bool) -> (Machine, Result<u32, MmuFault>) {
        if !self.cpu.mmu_on() {
            (self, Ok(addr))
        } else {
            let (m, v1) = self.bus_translate(self.cpu.mmu, self.cpu.model.cpu_type, Translation {
                address: addr,
                write: write,
                supervisor: self.cpu.is_supervisor(),
                instruction: instruction,
                fc_override: self.cpu.fault.fc_override,
            });
            match v1 {
                Ok(p) => (m, Ok(m.cpu.address(p))),
                Err(f) => (m, Err(f)),
            }
        }
    }

    /// Read `size` bytes at a physical address.
    #[verifier::opaque]
    pub open spec fn physical_read(self, addr: u32, size: u32) -> (Machine, Access) {
        match size {
            1 => {
                let (m, v1) = self.bus_try_read_byte(addr);
                match v1 {
                    Ok(v) => (m, Access { value: v as u32, fault: None }),
                    Err(_f) => {
                        (m, Access { value: 0, fault: Some(Fault::Bus { address: addr, write: false, size: size }) })
                    },
                }
            },
            2 => {
                let (m, v2) = self.bus_try_read_word(addr);
                match v2 {
                    Ok(v) => (m, Access { value: v as u32, fault: None }),
                    Err(_f) => {
                        (m, Access { value: 0, fault: Some(Fault::Bus { address: addr, write: false, size: size }) })
                    },
                }
            },
            3 => {
                let (m, v3) = self.bus_try_read_three_bytes(addr);
                match v3 {
                    Ok(v) => (m, Access { value: v & 0x00FF_FFFF, fault: None }),
                    Err(_f) => {
                        (m, Access { value: 0, fault: Some(Fault::Bus { address: addr, write: false, size: size }) })
                    },
                }
            },
            _ => {
                let (m, v4) = self.bus_try_read_long(addr);
                match v4 {
                    Ok(v) => (m, Access { value: v, fault: None }),
                    Err(_f) => {
                        (m, Access { value: 0, fault: Some(Fault::Bus { address: addr, write: false, size: size }) })
                    },
                }
            },
        }
    }

    /// Write `size` bytes at a physical address.
    #[verifier::opaque]
    pub open spec fn physical_write(self, addr: u32, size: u32, value: u32) -> (Machine, Option<Fault>) {
        match size {
            1 => {
                let (m, v1) = self.bus_try_write_byte(addr, value as u8);
                match v1 {
                    Ok(_v) => (m, None),
                    Err(_f) => (m, Some(Fault::Bus { address: addr, write: true, size: size })),
                }
            },
            2 => {
                let (m, v2) = self.bus_try_write_word(addr, value as u16);
                match v2 {
                    Ok(_v) => (m, None),
                    Err(_f) => (m, Some(Fault::Bus { address: addr, write: true, size: size })),
                }
            },
            3 => {
                let (m, v3) = self.bus_try_write_three_bytes(addr, value & 0x00FF_FFFF);
                match v3 {
                    Ok(_v) => (m, None),
                    Err(_f) => (m, Some(Fault::Bus { address: addr, write: true, size: size })),
                }
            },
            _ => {
                let (m, v4) = self.bus_try_write_long(addr, value);
                match v4 {
                    Ok(_v) => (m, None),
                    Err(_f) => (m, Some(Fault::Bus { address: addr, write: true, size: size })),
                }
            },
        }
    }

    /// Read `size` bytes that lie within one page: a value supplied by a
    /// fault handler, or else the translated read.
    #[verifier::opaque]
    pub open spec fn whole_read(self, addr: u32, size: u32, mask: u32) -> (Machine, Access) {
        let (cpu, v1) = self.cpu.spec_take_read_override(addr);
        let m = self.on_cpu(cpu);
        match v1 {
            Some(v) => (m, Access { value: v & mask, fault: None }),
            None => {
                let (m, v2) = m.translate(addr, false, false);
                match v2 {
                    Ok(p) => m.physical_read(p, size),
                    Err(f) => {
                        (m, Access { value: 0, fault: Some(Fault::Mmu { fault: f, write: false, size: size }) })
                    },
                }
            },
        }
    }

    /// Write `size` bytes that lie within one page, unless a fault handler
    /// has absorbed the write.
    #[verifier::opaque]
    pub open spec fn whole_write(self, addr: u32, size: u32, value: u32) -> (Machine, Option<Fault>) {
        let (cpu, v1) = self.cpu.spec_take_write_suppress(addr);
        let m = self.on_cpu(cpu);
        if v1 {
            (m, None)
        } else {
            let m = m.on_cpu(CpuCore { fault: FaultState { wdata: value, ..m.cpu.fault }, ..m.cpu });
            let (m, v2) = m.translate(addr, true, false);
            match v2 {
                Ok(p) => m.physical_write(p, size, value),
                Err(f) => (m, Some(Fault::Mmu { fault: f, write: true, size: size })),
            }
        }
    }

    /// Byte read, data space.
    #[verifier::opaque]
    pub open spec fn access_read_8(self, address: u32) -> (Machine, Access) {
        if self.cpu.faulted() {
            (self, Access { value: 0, fault: None })
        } else {
            let m = self.flush_sync();
            let addr: u32 = m.cpu.address(address);
            m.whole_read(addr, 1, 0xFF)
        }
    }

    /// Word read, data space. A word that straddles an MMU page runs as two
    /// byte cycles, each translated on its own page.
    #[verifier::opaque]
    pub open spec fn access_read_16(self, address: u32) -> (Machine, Access) {
        if self.cpu.faulted() {
            (self, Access { value: 0, fault: None })
        } else {
            let m = self.flush_sync();
            let addr: u32 = m.cpu.address(address);
            if is_pre_68020(m.cpu.model.cpu_type) && addr & 1 != 0 {
                (m, Access { value: 0, fault: Some(Fault::Address { address: addr, write: false }) })
            } else {
                if m.cpu.mmu_on() && addr & m.cpu.mmu_page_mask() == m.cpu.mmu_page_mask() {
                    let (m, hi) = m.access_read_8(addr);
                    if hi.fault.is_some() {
                        (m, Access { value: 0, fault: hi.fault })
                    } else {
                        let (m, lo) = m.access_read_8(addr.wrapping_add(1));
                        (m, Access { value: (hi.value << 8) | lo.value, fault: lo.fault })
                    }
                } else {
                    m.whole_read(addr, 2, 0xFFFF)
                }
            }
        }
    }

    /// Long read, data space. A long word that straddles an MMU page runs as
    /// two word accesses.
    #[verifier::opaque]
    pub open spec fn access_read_32(self, address: u32) -> (Machine, Access) {
        if self.cpu.faulted() {
            (self, Access { value: 0, fault: None })
        } else {
            let m = self.flush_sync();
            let addr: u32 = m.cpu.address(address);
            if is_pre_68020(m.cpu.model.cpu_type) && addr & 1 != 0 {
                (m, Access { value: 0, fault: Some(Fault::Address { address: addr, write: false }) })
            } else {
                if m.cpu.mmu_on() && addr & m.cpu.mmu_page_mask() > m.cpu.mmu_page_mask() - 3 {
                    let (m, hi) = m.access_read_16(addr);
                    if hi.fault.is_some() {
                        (m, Access { value: 0, fault: hi.fault })
                    } else {
                        let (m, lo) = m.access_read_16(addr.wrapping_add(2));
                        (m, Access { value: (hi.value << 16) | lo.value, fault: lo.fault })
                    }
                } else {
                    m.whole_read(addr, 4, 0xFFFF_FFFF)
                }
            }
        }
    }

    /// Three-byte read, data space, in the low 24 bits.
    #[verifier::opaque]
    pub open spec fn access_read_24(self, address: u32) -> (Machine, Access) {
        if self.cpu.faulted() {
            (self, Access { value: 0, fault: None })
        } else {
            let m = self.flush_sync();
            let addr: u32 = m.cpu.address(address);
            if m.cpu.mmu_on() && addr & m.cpu.mmu_page_mask() > m.cpu.mmu_page_mask() - 2 {
                let (m, hi) = m.access_read_16(addr);
                if hi.fault.is_some() {
                    (m, Access { value: 0, fault: hi.fault })
                } else {
                    let (m, lo) = m.access_read_8(addr.wrapping_add(2));
                    (m, Access { value: (hi.value << 8) | lo.value, fault: lo.fault })
                }
            } else {
                m.whole_read(addr, 3, 0x00FF_FFFF)
            }
        }
    }

    /// Byte write, data space.
    #[verifier::opaque]
    pub open spec fn access_write_8(self, address: u32, value: u8) -> (Machine, Option<Fault>) {
        if self.cpu.faulted() {
            (self, None)
        } else {
            let m = self.flush_sync();
            let addr: u32 = m.cpu.address(address);
            m.whole_write(addr, 1, value as u32)
        }
    }

    /// Word write, data space.
    #[verifier::opaque]
    pub open spec fn access_write_16(self, address: u32, value: u16) -> (Machine, Option<Fault>) {
        if self.cpu.faulted() {
            (self, None)
        } else {
            let m = self.flush_sync();
            let addr: u32 = m.cpu.address(address);
            if is_pre_68020(m.cpu.model.cpu_type) && addr & 1 != 0 {
                (m, Some(Fault::Address { address: addr, write: true }))
            } else {
                if m.cpu.mmu_on() && addr & m.cpu.mmu_page_mask() == m.cpu.mmu_page_mask() {
                    let (m, hi) = m.access_write_8(addr, (value >> 8) as u8);
                    if hi.is_some() {
                        (m, hi)
                    } else {
                        m.access_write_8(addr.wrapping_add(1), value as u8)
                    }
                } else {
                    m.whole_write(addr, 2, value as u32)
                }
            }
        }
    }

    /// Long write, data space.
    #[verifier::opaque]
    pub open spec fn access_write_32(self, address: u32, value: u32) -> (Machine, Option<Fault>) {
        if self.cpu.faulted() {
            (self, None)
        } else {
            let m = self.flush_sync();
            let addr: u32 = m.cpu.address(address);
            if is_pre_68020(m.cpu.model.cpu_type) && addr & 1 != 0 {
                (m, Some(Fault::Address { address: addr, write: true }))
            } else {
                if m.cpu.mmu_on() && addr & m.cpu.mmu_page_mask() > m.cpu.mmu_page_mask() - 3 {
                    let (m, hi) = m.access_write_16(addr, (value >> 16) as u16);
                    if hi.is_some() {
                        (m, hi)
                    } else {
                        m.access_write_16(addr.wrapping_add(2), value as u16)
                    }
                } else {
                    m.whole_write(addr, 4, value)
                }
            }
        }
    }

    /// Three-byte write of the low 24 bits, data space.
    #[verifier::opaque]
    pub open spec fn access_write_24(self, address: u32, value: u32) -> (Machine, Option<Fault>) {
        if self.cpu.faulted() {
            (self, None)
        } else {
            let m = self.flush_sync();
            let addr: u32 = m.cpu.address(address);
            if m.cpu.mmu_on() && addr & m.cpu.mmu_page_mask() > m.cpu.mmu_page_mask() - 2 {
                let (m, hi) = m.access_write_16(addr, (value >> 8) as u16);
                if hi.is_some() {
                    (m, hi)
                } else {
                    m.access_write_8(addr.wrapping_add(2), value as u8)
                }
            } else {
                m.whole_write(addr, 3, value & 0x00FF_FFFF)
            }
        }
    }
}

impl CpuCore {
    /// Flush accumulated internal clocks to the host right before a bus
    /// access. Every bus-access helper calls this first.
    pub fn flush_sync<B: AddressBus>(&mut self, bus: &mut B)
        ensures
            Machine::of(*final(self), *final(bus)) == Machine::of(*old(self), *old(bus)).flush_sync(),
    {
        proof {
            reveal(Machine::flush_sync);
        }
        if self.queue.pending_sync_clocks > 0 {
            let clocks: u32 = self.queue.pending_sync_clocks;
            self.queue.pending_sync_clocks = 0;
            bus.sync(clocks);
        }
    }

    /// Mark the instruction's IPL poll point: the host keeps the interrupt
    /// sample of the access just made for the boundary decision.
    pub fn ipl_poll_point<B: AddressBus>(&mut self, bus: &mut B)
        ensures
            Machine::of(*final(self), *final(bus)) == Machine::of(*old(self), *old(bus)).ipl_poll_point(),
    {
        proof {
            reveal(Machine::ipl_poll_point);
        }
        if self.prefetch_enabled() {
            bus.ipl_hold_sample();
        }
    }

    /// Translation is in effect.
    pub open spec fn spec_mmu_on(&self) -> bool {
        self.mmu.present && self.mmu.enabled
    }

    /// Translation is in effect.
    #[verifier::when_used_as_spec(spec_mmu_on)]
    pub fn mmu_on(&self) -> (r: bool)
        ensures
            r == self.spec_mmu_on(),
    {
        self.mmu.present && self.mmu.enabled
    }

    /// The physical address of a data access.
    pub fn translate<B: AddressBus>(&mut self, bus: &mut B, addr: u32, write: bool, instruction: bool) -> (r: Result<u32, MmuFault>)
        ensures
            (Machine::of(*final(self), *final(bus)), r) == Machine::of(*old(self), *old(bus)).translate(addr, write, instruction),
    {
        proof {
            reveal(Machine::translate);
        }
        if !self.mmu_on() {
            return Ok(addr);
        }
        match bus.translate(
            self.mmu,
            self.model.cpu_type,
            Translation {
                address: addr,
                write: write,
                supervisor: self.is_supervisor(),
                instruction: instruction,
                fc_override: self.fault.fc_override,
            },
        ) {
            Ok(p) => Ok(self.address(p)),
            Err(f) => Err(f),
        }
    }

    /// The value a fault handler supplied for the read of `addr`, once.
    #[verifier::opaque]
    pub open spec fn spec_take_read_override(self, addr: u32) -> (CpuCore, Option<u32>) {
        match self.fault.read_override {
            Some(pair) => {
                if pair.0 == addr {
                    let c = CpuCore { fault: FaultState { read_override: None, ..self.fault }, ..self };
                    (c, Some(pair.1))
                } else {
                    (self, None)
                }
            },
            None => (self, None),
        }
    }

    /// The value a fault handler supplied for the read of `addr`, once.
    pub fn take_read_override(&mut self, addr: u32) -> (r: Option<u32>)
        ensures
            (*final(self), r) == old(self).spec_take_read_override(addr),
    {
        proof {
            reveal(CpuCore::spec_take_read_override);
        }
        match self.fault.read_override {
            Some(pair) => {
                if pair.0 == addr {
                    self.fault.read_override = None;
                    Some(pair.1)
                } else {
                    None
                }
            },
            None => None,
        }
    }

    /// Whether a fault handler has absorbed the write to `addr`, once.
    #[verifier::opaque]
    pub open spec fn spec_take_write_suppress(self, addr: u32) -> (CpuCore, bool) {
        match self.fault.write_suppress {
            Some(a) => {
                if a == addr {
                    let c = CpuCore { fault: FaultState { write_suppress: None, ..self.fault }, ..self };
                    (c, true)
                } else {
                    (self, false)
                }
            },
            None => (self, false),
        }
    }

    /// Whether a fault handler has absorbed the write to `addr`, once.
    pub fn take_write_suppress(&mut self, addr: u32) -> (r: bool)
        ensures
            (*final(self), r) == old(self).spec_take_write_suppress(addr),
    {
        proof {
            reveal(CpuCore::spec_take_write_suppress);
        }
        match self.fault.write_suppress {
            Some(a) => {
                if a == addr {
                    self.fault.write_suppress = None;
                    true
                } else {
                    false
                }
            },
            None => false,
        }
    }

    /// Read `size` bytes at a physical address.
    pub fn physical_read<B: AddressBus>(&mut self, bus: &mut B, addr: u32, size: u32) -> (r: Access)
        ensures
            (Machine::of(*final(self), *final(bus)), r) == Machine::of(*old(self), *old(bus)).physical_read(addr, size),
    {
        proof {
            reveal(Machine::physical_read);
        }
        match size {
            1 => {
                match bus.try_read_byte(addr) {
                    Ok(v) => Access { value: v as u32, fault: None },
                    Err(_f) => Access { value: 0, fault: Some(Fault::Bus { address: addr, write: false, size: size }) },
                }
            },
            2 => {
                match bus.try_read_word(addr) {
                    Ok(v) => Access { value: v as u32, fault: None },
                    Err(_f) => Access { value: 0, fault: Some(Fault::Bus { address: addr, write: false, size: size }) },
                }
            },
            3 => {
                match bus.try_read_three_bytes(addr) {
                    Ok(v) => Access { value: v & 0x00FF_FFFF, fault: None },
                    Err(_f) => Access { value: 0, fault: Some(Fault::Bus { address: addr, write: false, size: size }) },
                }
            },
            _ => {
                match bus.try_read_long(addr) {
                    Ok(v) => Access { value: v, fault: None },
                    Err(_f) => Access { value: 0, fault: Some(Fault::Bus { address: addr, write: false, size: size }) },
                }
            },
        }
    }

    /// Write `size` bytes at a physical address.
    pub fn physical_write<B: AddressBus>(&mut self, bus: &mut B, addr: u32, size: u32, value: u32) -> (r: Option<Fault>)
        ensures
            (Machine::of(*final(self), *final(bus)), r) == Machine::of(*old(self), *old(bus)).physical_write(addr, size, value),
    {
        proof {
            reveal(Machine::physical_write);
        }
        match size {
            1 => {
                match bus.try_write_byte(addr, value as u8) {
                    Ok(_v) => None,
                    Err(_f) => Some(Fault::Bus { address: addr, write: true, size: size }),
                }
            },
            2 => {
                match bus.try_write_word(addr, value as u16) {
                    Ok(_v) => None,
                    Err(_f) => Some(Fault::Bus { address: addr, write: true, size: size }),
                }
            },
            3 => {
                match bus.try_write_three_bytes(addr, value & 0x00FF_FFFF) {
                    Ok(_v) => None,
                    Err(_f) => Some(Fault::Bus { address: addr, write: true, size: size }),
                }
            },
            _ => {
                match bus.try_write_long(addr, value) {
                    Ok(_v) => None,
                    Err(_f) => Some(Fault::Bus { address: addr, write: true, size: size }),
                }
            },
        }
    }

    /// Read `size` bytes that lie within one page: a value supplied by a
    /// fault handler, or else the translated read.
    pub fn whole_read<B: AddressBus>(&mut self, bus: &mut B, addr: u32, size: u32, mask: u32) -> (r: Access)
        ensures
            (Machine::of(*final(self), *final(bus)), r) == Machine::of(*old(self), *old(bus)).whole_read(addr, size, mask),
    {
        proof {
            reveal(Machine::whole_read);
        }
        match self.take_read_override(addr) {
            Some(v) => {
                return Access { value: v & mask, fault: None };
            },
            None => {},
        }
        match self.translate(bus, addr, false, false) {
            Ok(p) => self.physical_read(bus, p, size),
            Err(f) => Access { value: 0, fault: Some(Fault::Mmu { fault: f, write: false, size: size }) },
        }
    }

    /// Write `size` bytes that lie within one page, unless a fault handler
    /// has absorbed the write.
    pub fn whole_write<B: AddressBus>(&mut self, bus: &mut B, addr: u32, size: u32, value: u32) -> (r: Option<Fault>)
        ensures
            (Machine::of(*final(self), *final(bus)), r) == Machine::of(*old(self), *old(bus)).whole_write(addr, size, value),
    {
        proof {
            reveal(Machine::whole_write);
        }
        if self.take_write_suppress(addr) {
            return None;
        }
        self.fault.wdata = value;
        match self.translate(bus, addr, true, false) {
            Ok(p) => self.physical_write(bus, p, size, value),
            Err(f) => Some(Fault::Mmu { fault: f, write: true, size: size }),
        }
    }

    /// Byte read, data space.
    pub fn access_read_8<B: AddressBus>(&mut self, bus: &mut B, address: u32) -> (r: Access)
        ensures
            (Machine::of(*final(self), *final(bus)), r) == Machine::of(*old(self), *old(bus)).access_read_8(address),
    {
        proof {
            reveal(Machine::access_read_8);
        }
        if self.faulted() {
            return Access { value: 0, fault: None };
        }
        self.flush_sync(bus);
        let addr: u32 = self.address(address);
        self.whole_read(bus, addr, 1, 0xFF)
    }

    /// Word read, data space. A word that straddles an MMU page runs as two
    /// byte cycles, each translated on its own page.
    pub fn access_read_16<B: AddressBus>(&mut self, bus: &mut B, address: u32) -> (r: Access)
        ensures
            (Machine::of(*final(self), *final(bus)), r) == Machine::of(*old(self), *old(bus)).access_read_16(address),
    {
        proof {
            reveal(Machine::access_read_16);
        }
        if self.faulted() {
            return Access { value: 0, fault: None };
        }
        self.flush_sync(bus);
        let addr: u32 = self.address(address);
        if is_pre_68020(self.model.cpu_type) && addr & 1 != 0 {
            return Access { value: 0, fault: Some(Fault::Address { address: addr, write: false }) };
        }
        if self.mmu_on() && addr & self.mmu_page_mask() == self.mmu_page_mask() {
            let hi: Access = self.access_read_8(bus, addr);
            if hi.fault.is_some() {
                return Access { value: 0, fault: hi.fault };
            }
            let lo: Access = self.access_read_8(bus, addr.wrapping_add(1));
            return Access { value: (hi.value << 8) | lo.value, fault: lo.fault };
        }
        self.whole_read(bus, addr, 2, 0xFFFF)
    }

    /// Long read, data space. A long word that straddles an MMU page runs as
    /// two word accesses.
    pub fn access_read_32<B: AddressBus>(&mut self, bus: &mut B, address: u32) -> (r: Access)
        ensures
            (Machine::of(*final(self), *final(bus)), r) == Machine::of(*old(self), *old(bus)).access_read_32(address),
    {
        proof {
            reveal(Machine::access_read_32);
        }
        if self.faulted() {
            return Access { value: 0, fault: None };
        }
        self.flush_sync(bus);
        let addr: u32 = self.address(address);
        if is_pre_68020(self.model.cpu_type) && addr & 1 != 0 {
            return Access { value: 0, fault: Some(Fault::Address { address: addr, write: false }) };
        }
        if self.mmu_on() && addr & self.mmu_page_mask() > self.mmu_page_mask() - 3 {
            let hi: Access = self.access_read_16(bus, addr);
            if hi.fault.is_some() {
                return Access { value: 0, fault: hi.fault };
            }
            let lo: Access = self.access_read_16(bus, addr.wrapping_add(2));
            return Access { value: (hi.value << 16) | lo.value, fault: lo.fault };
        }
        self.whole_read(bus, addr, 4, 0xFFFF_FFFF)
    }

    /// Three-byte read, data space, in the low 24 bits.
    pub fn access_read_24<B: AddressBus>(&mut self, bus: &mut B, address: u32) -> (r: Access)
        ensures
            (Machine::of(*final(self), *final(bus)), r) == Machine::of(*old(self), *old(bus)).access_read_24(address),
    {
        proof {
            reveal(Machine::access_read_24);
        }
        if self.faulted() {
            return Access { value: 0, fault: None };
        }
        self.flush_sync(bus);
        let addr: u32 = self.address(address);
        if self.mmu_on() && addr & self.mmu_page_mask() > self.mmu_page_mask() - 2 {
            let hi: Access = self.access_read_16(bus, addr);
            if hi.fault.is_some() {
                return Access { value: 0, fault: hi.fault };
            }
            let lo: Access = self.access_read_8(bus, addr.wrapping_add(2));
            return Access { value: (hi.value << 8) | lo.value, fault: lo.fault };
        }
        self.whole_read(bus, addr, 3, 0x00FF_FFFF)
    }

    /// Byte write, data space.
    pub fn access_write_8<B: AddressBus>(&mut self, bus: &mut B, address: u32, value: u8) -> (r: Option<Fault>)
        ensures
            (Machine::of(*final(self), *final(bus)), r) == Machine::of(*old(self), *old(bus)).access_write_8(address, value),
    {
        proof {
            reveal(Machine::access_write_8);
        }
        if self.faulted() {
            return None;
        }
        self.flush_sync(bus);
        let addr: u32 = self.address(address);
        self.whole_write(bus, addr, 1, value as u32)
    }

    /// Word write, data space.
    pub fn access_write_16<B: AddressBus>(&mut self, bus: &mut B, address: u32, value: u16) -> (r: Option<Fault>)
        ensures
            (Machine::of(*final(self), *final(bus)), r) == Machine::of(*old(self), *old(bus)).access_write_16(address, value),
    {
        proof {
            reveal(Machine::access_write_16);
        }
        if self.faulted() {
            return None;
        }
        self.flush_sync(bus);
        let addr: u32 = self.address(address);
        if is_pre_68020(self.model.cpu_type) && addr & 1 != 0 {
            return Some(Fault::Address { address: addr, write: true });
        }
        if self.mmu_on() && addr & self.mmu_page_mask() == self.mmu_page_mask() {
            let hi: Option<Fault> = self.access_write_8(bus, addr, (value >> 8) as u8);
            if hi.is_some() {
                return hi;
            }
            return self.access_write_8(bus, addr.wrapping_add(1), value as u8);
        }
        self.whole_write(bus, addr, 2, value as u32)
    }

    /// Long write, data space.
    pub fn access_write_32<B: AddressBus>(&mut self, bus: &mut B, address: u32, value: u32) -> (r: Option<Fault>)
        ensures
            (Machine::of(*final(self), *final(bus)), r) == Machine::of(*old(self), *old(bus)).access_write_32(address, value),
    {
        proof {
            reveal(Machine::access_write_32);
        }
        if self.faulted() {
            return None;
        }
        self.flush_sync(bus);
        let addr: u32 = self.address(address);
        if is_pre_68020(self.model.cpu_type) && addr & 1 != 0 {
            return Some(Fault::Address { address: addr, write: true });
        }
        if self.mmu_on() && addr & self.mmu_page_mask() > self.mmu_page_mask() - 3 {
            let hi: Option<Fault> = self.access_write_16(bus, addr, (value >> 16) as u16);
            if hi.is_some() {
                return hi;
            }
            return self.access_write_16(bus, addr.wrapping_add(2), value as u16);
        }
        self.whole_write(bus, addr, 4, value)
    }

    /// Three-byte write of the low 24 bits, data space.
    pub fn access_write_24<B: AddressBus>(&mut self, bus: &mut B, address: u32, value: u32) -> (r: Option<Fault>)
        ensures
            (Machine::of(*final(self), *final(bus)), r) == Machine::of(*old(self), *old(bus)).access_write_24(address, value),
    {
        proof {
            reveal(Machine::access_write_24);
        }
        if self.faulted() {
            return None;
        }
        self.flush_sync(bus);
        let addr: u32 = self.address(address);
        if self.mmu_on() && addr & self.mmu_page_mask() > self.mmu_page_mask() - 2 {
            let hi: Option<Fault> = self.access_write_16(bus, addr, (value >> 8) as u16);
            if hi.is_some() {
                return hi;
            }
            return self.access_write_8(bus, addr.wrapping_add(2), value as u8);
        }
        self.whole_write(bus, addr, 3, value & 0x00FF_FFFF)
    }
}

} // verus!
