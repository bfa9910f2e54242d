//! PMMU instructions of the 68030.

use vstd::prelude::*;
use crate::cpu::{CpuCore, MmuRegs};
use crate::ea::{decode_mode, EaResult};
use crate::machine::Machine;
use crate::memory::{AddressBus, Probe, ProbeResult};
use crate::types::Size;

verus! {

/// PLOAD, PFLUSH and PFLUSHA encodings of the extension word.
pub open spec fn spec_is_flush_or_load(modes: u16) -> bool {
    (modes & 0xFDE0) == 0x2000 || (modes & 0xE200) == 0x2000 || modes == 0xA000 || modes == 0x2800
    || (modes & 0xFFF8) == 0x2C00
}

/// PLOAD, PFLUSH and PFLUSHA encodings of the extension word.
#[verifier::when_used_as_spec(spec_is_flush_or_load)]
pub fn is_flush_or_load(modes: u16) -> (r: bool)
    ensures
        r == spec_is_flush_or_load(modes),
{
    (modes & 0xFDE0) == 0x2000 || (modes & 0xE200) == 0x2000 || modes == 0xA000 || modes == 0x2800
        || (modes & 0xFFF8) == 0x2C00
}

impl Machine {
    /// PTEST (68030): walk the tables and report the outcome in MMUSR. With
    /// the A bit set and a level given, the address of the last descriptor
    /// goes to An.
    #[verifier::opaque]
    pub open spec fn exec_ptest_030(self, opcode: u16, modes: u16) -> (Machine, i32) {
        let level: u32 = ((modes >> 10) & 7) as u32;
        let read: bool = modes & 0x0200 != 0;
        let a_bit: bool = modes & 0x0100 != 0;
        let fc: u32 = self.cpu.ptest_function_code((modes & 0x1F) as u32);
        match decode_mode(((opcode >> 3) & 7) as u8, (opcode & 7) as u8) {
            Some(mode) => {
                let (m, ea) = self.resolve_ea(mode, Size::Long);
                match ea {
                    EaResult::Memory(addr) => {
                        let (m, found) = m.bus_probe(m.cpu.mmu, m.cpu.model.cpu_type, Probe { address: addr, function_code: fc, write: !read, level: level });
                        let m = m.on_cpu(CpuCore { mmu: MmuRegs { sr: found.status & 0xFFFF, ..m.cpu.mmu }, ..m.cpu });
                        let m = if a_bit && level != 0 {
                            let m = m.on_cpu(m.cpu.spec_set_a(((modes >> 5) & 7) as usize, found.descriptor));
                            m
                        } else {
                            m
                        };
                        (m, 8)
                    },
                    _ => (m, 0),
                }
            },
            None => (self, 0),
        }
    }

    /// PMOVE from an MMU register: TC, TT0, TT1 and MMUSR to any operand, the
    /// 64-bit root pointers to memory.
    #[verifier::opaque]
    pub open spec fn exec_pmove_to_ea(self, ea: EaResult, preg: u16) -> (Machine, i32) {
        match preg {
            0x10 => {
                let m = self.write_resolved_ea(ea, Size::Long, self.cpu.mmu.tc);
                (m, 4)
            },
            0x12 => {
                match ea {
                    EaResult::Memory(a) => {
                        let m = self.write_32(a, self.cpu.mmu.srp_limit);
                        let m = m.write_32(a.wrapping_add(4), m.cpu.mmu.srp_aptr);
                        (m, 8)
                    },
                    _ => (self, 0),
                }
            },
            0x13 => {
                match ea {
                    EaResult::Memory(a) => {
                        let m = self.write_32(a, self.cpu.mmu.crp_limit);
                        let m = m.write_32(a.wrapping_add(4), m.cpu.mmu.crp_aptr);
                        (m, 8)
                    },
                    _ => (self, 0),
                }
            },
            0x02 => {
                let m = self.write_resolved_ea(ea, Size::Long, self.cpu.mmu.tt0);
                (m, 4)
            },
            0x03 => {
                let m = self.write_resolved_ea(ea, Size::Long, self.cpu.mmu.tt1);
                (m, 4)
            },
            0x18 => {
                let m = self.write_resolved_ea(ea, Size::Word, self.cpu.mmu.sr & 0xFFFF);
                (m, 4)
            },
            _ => (self, 0),
        }
    }

    /// PMOVE to an MMU register. A write of TC decides whether translation is
    /// on.
    #[verifier::opaque]
    pub open spec fn exec_pmove_from_ea(self, ea: EaResult, preg: u16) -> (Machine, i32) {
        match preg {
            0x10 => {
                let (m, v) = self.read_resolved_ea(ea, Size::Long);
                let m = m.on_cpu(CpuCore { mmu: MmuRegs { tc: v, ..m.cpu.mmu }, ..m.cpu });
                let m = m.on_cpu(CpuCore { mmu: MmuRegs { enabled: m.cpu.tc_enable(), ..m.cpu.mmu }, ..m.cpu });
                (m, 4)
            },
            0x12 => {
                match ea {
                    EaResult::Memory(a) => {
                        let (m, limit) = self.read_32(a);
                        let (m, aptr) = m.read_32(a.wrapping_add(4));
                        let m = m.on_cpu(CpuCore { mmu: MmuRegs { srp_limit: limit, ..m.cpu.mmu }, ..m.cpu });
                        let m = m.on_cpu(CpuCore { mmu: MmuRegs { srp_aptr: aptr, ..m.cpu.mmu }, ..m.cpu });
                        (m, 8)
                    },
                    _ => (self, 0),
                }
            },
            0x13 => {
                match ea {
                    EaResult::Memory(a) => {
                        let (m, limit) = self.read_32(a);
                        let (m, aptr) = m.read_32(a.wrapping_add(4));
                        let m = m.on_cpu(CpuCore { mmu: MmuRegs { crp_limit: limit, ..m.cpu.mmu }, ..m.cpu });
                        let m = m.on_cpu(CpuCore { mmu: MmuRegs { crp_aptr: aptr, ..m.cpu.mmu }, ..m.cpu });
                        (m, 8)
                    },
                    _ => (self, 0),
                }
            },
            0x02 => {
                let (m, v) = self.read_resolved_ea(ea, Size::Long);
                let m = m.on_cpu(CpuCore { mmu: MmuRegs { tt0: v, ..m.cpu.mmu }, ..m.cpu });
                (m, 4)
            },
            0x03 => {
                let (m, v) = self.read_resolved_ea(ea, Size::Long);
                let m = m.on_cpu(CpuCore { mmu: MmuRegs { tt1: v, ..m.cpu.mmu }, ..m.cpu });
                (m, 4)
            },
            0x18 => {
                let (m, v) = self.read_resolved_ea(ea, Size::Word);
                let m = m.on_cpu(CpuCore { mmu: MmuRegs { sr: v & 0xFFFF, ..m.cpu.mmu }, ..m.cpu });
                (m, 4)
            },
            _ => (self, 0),
        }
    }

    /// Execute a COP0/PMMU `0xF0xx` instruction.
    ///
    /// On the 68030 this implements PTEST and PMOVE for TC, SRP, CRP, TT0,
    /// TT1, and MMUSR. PLOAD and PFLUSH do nothing: the walker keeps no
    /// translations. The 68040 accepts the 68030 form of PTEST as a no-op in
    /// supervisor mode; the 68060 has none of these encodings.
    ///
    /// Returns zero for an invalid or unsupported encoding so the caller can
    /// take the Line-F exception.
    #[verifier::opaque]
    pub open spec fn exec_mmu_op0(self, opcode: u16) -> (Machine, i32) {
        if self.cpu.is_060() || !self.cpu.mmu.present {
            (self, 0)
        } else {
            if !self.cpu.is_supervisor() {
                if self.cpu.is_040() {
                    (self, 0)
                } else {
                    self.exception_privilege()
                }
            } else {
                let (m, modes) = self.read_imm_16();
                if (modes & 0xE000) == 0x8000 {
                    if m.cpu.is_040() {
                        (m, 4)
                    } else {
                        m.exec_ptest_030(opcode, modes)
                    }
                } else {
                    if is_flush_or_load(modes) {
                        (m, 8)
                    } else {
                        match decode_mode(((opcode >> 3) & 7) as u8, (opcode & 7) as u8) {
                            Some(mode) => {
                                let (m, ea) = m.resolve_ea(mode, Size::Long);
                                let preg: u16 = (modes >> 10) & 0x1F;
                                if modes & 0x0200 != 0 {
                                    m.exec_pmove_to_ea(ea, preg)
                                } else {
                                    m.exec_pmove_from_ea(ea, preg)
                                }
                            },
                            None => (m, 0),
                        }
                    }
                }
            }
        }
    }
}

impl CpuCore {
    /// The function code that the extension word of PTEST names: immediate, a
    /// data register, DFC or SFC.
    pub open spec fn spec_ptest_function_code(&self, field: u32) -> u32 {
        if field & 0x10 != 0 {
            field & 7
        } else if field & 0x08 != 0 {
            self.d((field & 7) as usize) & 7
        } else if field == 1 {
            self.control.dfc & 7
        } else {
            self.control.sfc & 7
        }
    }

    /// The function code that the extension word of PTEST names: immediate, a
    /// data register, DFC or SFC.
    #[verifier::when_used_as_spec(spec_ptest_function_code)]
    pub fn ptest_function_code(&self, field: u32) -> (r: u32)
        ensures
            r == self.spec_ptest_function_code(field),
    {
        if field & 0x10 != 0 {
            field & 7
        } else if field & 0x08 != 0 {
            self.d((field & 7) as usize) & 7
        } else if field == 1 {
            self.control.dfc & 7
        } else {
            self.control.sfc & 7
        }
    }

    /// PTEST (68030): walk the tables and report the outcome in MMUSR. With
    /// the A bit set and a level given, the address of the last descriptor
    /// goes to An.
    pub fn exec_ptest_030<B: AddressBus>(&mut self, bus: &mut B, opcode: u16, modes: u16) -> (r: i32)
        ensures
            (Machine::of(*final(self), *final(bus)), r) == Machine::of(*old(self), *old(bus)).exec_ptest_030(opcode, modes),
    {
        proof {
            reveal(Machine::exec_ptest_030);
        }
        let level: u32 = ((modes >> 10) & 7) as u32;
        let read: bool = modes & 0x0200 != 0;
        let a_bit: bool = modes & 0x0100 != 0;
        let fc: u32 = self.ptest_function_code((modes & 0x1F) as u32);
        match decode_mode(((opcode >> 3) & 7) as u8, (opcode & 7) as u8) {
            Some(mode) => {
                let ea: EaResult = self.resolve_ea(bus, mode, Size::Long);
                match ea {
                    EaResult::Memory(addr) => {
                        let found: ProbeResult = bus.probe(
                            self.mmu,
                            self.model.cpu_type,
                            Probe { address: addr, function_code: fc, write: !read, level: level },
                        );
                        self.mmu.sr = found.status & 0xFFFF;
                        if a_bit && level != 0 {
                            self.set_a(((modes >> 5) & 7) as usize, found.descriptor);
                        }
                        8
                    },
                    _ => 0,
                }
            },
            None => 0,
        }
    }

    /// PMOVE from an MMU register: TC, TT0, TT1 and MMUSR to any operand, the
    /// 64-bit root pointers to memory.
    pub fn exec_pmove_to_ea<B: AddressBus>(&mut self, bus: &mut B, ea: EaResult, preg: u16) -> (r: i32)
        ensures
            (Machine::of(*final(self), *final(bus)), r) == Machine::of(*old(self), *old(bus)).exec_pmove_to_ea(ea, preg),
    {
        proof {
            reveal(Machine::exec_pmove_to_ea);
        }
        match preg {
            0x10 => {
                self.write_resolved_ea(bus, ea, Size::Long, self.mmu.tc);
                4
            },
            0x12 => {
                match ea {
                    EaResult::Memory(a) => {
                        self.write_32(bus, a, self.mmu.srp_limit);
                        self.write_32(bus, a.wrapping_add(4), self.mmu.srp_aptr);
                        8
                    },
                    _ => 0,
                }
            },
            0x13 => {
                match ea {
                    EaResult::Memory(a) => {
                        self.write_32(bus, a, self.mmu.crp_limit);
                        self.write_32(bus, a.wrapping_add(4), self.mmu.crp_aptr);
                        8
                    },
                    _ => 0,
                }
            },
            0x02 => {
                self.write_resolved_ea(bus, ea, Size::Long, self.mmu.tt0);
                4
            },
            0x03 => {
                self.write_resolved_ea(bus, ea, Size::Long, self.mmu.tt1);
                4
            },
            0x18 => {
                self.write_resolved_ea(bus, ea, Size::Word, self.mmu.sr & 0xFFFF);
                4
            },
            _ => 0,
        }
    }

    /// PMOVE to an MMU register. A write of TC decides whether translation is
    /// on.
    pub fn exec_pmove_from_ea<B: AddressBus>(&mut self, bus: &mut B, ea: EaResult, preg: u16) -> (r: i32)
        ensures
            (Machine::of(*final(self), *final(bus)), r) == Machine::of(*old(self), *old(bus)).exec_pmove_from_ea(ea, preg),
    {
        proof {
            reveal(Machine::exec_pmove_from_ea);
        }
        match preg {
            0x10 => {
                let v: u32 = self.read_resolved_ea(bus, ea, Size::Long);
                self.mmu.tc = v;
                self.mmu.enabled = self.tc_enable();
                4
            },
            0x12 => {
                match ea {
                    EaResult::Memory(a) => {
                        let limit: u32 = self.read_32(bus, a);
                        let aptr: u32 = self.read_32(bus, a.wrapping_add(4));
                        self.mmu.srp_limit = limit;
                        self.mmu.srp_aptr = aptr;
                        8
                    },
                    _ => 0,
                }
            },
            0x13 => {
                match ea {
                    EaResult::Memory(a) => {
                        let limit: u32 = self.read_32(bus, a);
                        let aptr: u32 = self.read_32(bus, a.wrapping_add(4));
                        self.mmu.crp_limit = limit;
                        self.mmu.crp_aptr = aptr;
                        8
                    },
                    _ => 0,
                }
            },
            0x02 => {
                let v: u32 = self.read_resolved_ea(bus, ea, Size::Long);
                self.mmu.tt0 = v;
                4
            },
            0x03 => {
                let v: u32 = self.read_resolved_ea(bus, ea, Size::Long);
                self.mmu.tt1 = v;
                4
            },
            0x18 => {
                let v: u32 = self.read_resolved_ea(bus, ea, Size::Word);
                self.mmu.sr = v & 0xFFFF;
                4
            },
            _ => 0,
        }
    }

    /// Execute a COP0/PMMU `0xF0xx` instruction.
    ///
    /// On the 68030 this implements PTEST and PMOVE for TC, SRP, CRP, TT0,
    /// TT1, and MMUSR. PLOAD and PFLUSH do nothing: the walker keeps no
    /// translations. The 68040 accepts the 68030 form of PTEST as a no-op in
    /// supervisor mode; the 68060 has none of these encodings.
    ///
    /// Returns zero for an invalid or unsupported encoding so the caller can
    /// take the Line-F exception.
    pub fn exec_mmu_op0<B: AddressBus>(&mut self, bus: &mut B, opcode: u16) -> (r: i32)
        ensures
            (Machine::of(*final(self), *final(bus)), r) == Machine::of(*old(self), *old(bus)).exec_mmu_op0(opcode),
    {
        proof {
            reveal(Machine::exec_mmu_op0);
        }
        if self.is_060() || !self.mmu.present {
            return 0;
        }
        if !self.is_supervisor() {
            if self.is_040() {
                return 0;
            }
            return self.exception_privilege(bus);
        }
        let modes: u16 = self.read_imm_16(bus);
        if (modes & 0xE000) == 0x8000 {
            if self.is_040() {
                return 4;
            }
            return self.exec_ptest_030(bus, opcode, modes);
        }
        if is_flush_or_load(modes) {
            return 8;
        }
        match decode_mode(((opcode >> 3) & 7) as u8, (opcode & 7) as u8) {
            Some(mode) => {
                let ea: EaResult = self.resolve_ea(bus, mode, Size::Long);
                let preg: u16 = (modes >> 10) & 0x1F;
                if modes & 0x0200 != 0 {
                    self.exec_pmove_to_ea(bus, ea, preg)
                } else {
                    self.exec_pmove_from_ea(bus, ea, preg)
                }
            },
            None => 0,
        }
    }
}

} // verus!
