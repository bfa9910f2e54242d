//! Effective addresses.

use vstd::prelude::*;
use crate::alu::sign_extend;
use crate::cpu::CpuCore;
use crate::machine::Machine;
use crate::memory::AddressBus;
use crate::prefetch::{sext16, sext8};
use crate::types::Size;

verus! {

/// Addressing modes.
#[derive(Debug, Clone, Copy, PartialEq, Eq, Structural)]
pub enum AddressingMode {
    DataDirect(u8),
    AddressDirect(u8),
    AddressIndirect(u8),
    PostIncrement(u8),
    PreDecrement(u8),
    Displacement(u8),
    Index(u8),
    AbsoluteShort,
    AbsoluteLong,
    PcDisplacement,
    PcIndex,
    Immediate,
}

/// A resolved operand.
#[derive(Debug, Clone, Copy, PartialEq, Eq, Structural)]
pub enum EaResult {
    DataReg(u8),
    AddrReg(u8),
    Memory(u32),
    Immediate(u32),
}

/// The addressing mode of a mode and register field.
pub open spec fn spec_decode_mode(mode: u8, reg: u8) -> Option<AddressingMode> {
    match mode {
        0 => Some(AddressingMode::DataDirect(reg)),
        1 => Some(AddressingMode::AddressDirect(reg)),
        2 => Some(AddressingMode::AddressIndirect(reg)),
        3 => Some(AddressingMode::PostIncrement(reg)),
        4 => Some(AddressingMode::PreDecrement(reg)),
        5 => Some(AddressingMode::Displacement(reg)),
        6 => Some(AddressingMode::Index(reg)),
        7 => {
            match reg {
                0 => Some(AddressingMode::AbsoluteShort),
                1 => Some(AddressingMode::AbsoluteLong),
                2 => Some(AddressingMode::PcDisplacement),
                3 => Some(AddressingMode::PcIndex),
                4 => Some(AddressingMode::Immediate),
                _ => None,
            }
        },
        _ => None,
    }
}

/// The addressing mode of a mode and register field.
#[verifier::when_used_as_spec(spec_decode_mode)]
pub fn decode_mode(mode: u8, reg: u8) -> (r: Option<AddressingMode>)
    ensures
        r == spec_decode_mode(mode, reg),
{
    match mode {
        0 => Some(AddressingMode::DataDirect(reg)),
        1 => Some(AddressingMode::AddressDirect(reg)),
        2 => Some(AddressingMode::AddressIndirect(reg)),
        3 => Some(AddressingMode::PostIncrement(reg)),
        4 => Some(AddressingMode::PreDecrement(reg)),
        5 => Some(AddressingMode::Displacement(reg)),
        6 => Some(AddressingMode::Index(reg)),
        7 => {
            match reg {
                0 => Some(AddressingMode::AbsoluteShort),
                1 => Some(AddressingMode::AbsoluteLong),
                2 => Some(AddressingMode::PcDisplacement),
                3 => Some(AddressingMode::PcIndex),
                4 => Some(AddressingMode::Immediate),
                _ => None,
            }
        },
        _ => None,
    }
}

/// Whether a mode names a register.
pub open spec fn spec_is_register_direct(mode: AddressingMode) -> bool {
    match mode {
        AddressingMode::DataDirect(_) | AddressingMode::AddressDirect(_) => true,
        _ => false,
    }
}

/// Whether a mode names a register.
#[verifier::when_used_as_spec(spec_is_register_direct)]
pub fn is_register_direct(mode: AddressingMode) -> (r: bool)
    ensures
        r == spec_is_register_direct(mode),
{
    match mode {
        AddressingMode::DataDirect(_) | AddressingMode::AddressDirect(_) => true,
        _ => false,
    }
}

/// Whether a mode names memory.
pub open spec fn spec_ea_is_memory(mode: AddressingMode) -> bool {
    match mode {
        AddressingMode::DataDirect(_)
    | AddressingMode::AddressDirect(_)
    | AddressingMode::Immediate => false,
        _ => true,
    }
}

/// Whether a mode names memory.
#[verifier::when_used_as_spec(spec_ea_is_memory)]
pub fn ea_is_memory(mode: AddressingMode) -> (r: bool)
    ensures
        r == spec_ea_is_memory(mode),
{
    match mode {
        AddressingMode::DataDirect(_)
        | AddressingMode::AddressDirect(_)
        | AddressingMode::Immediate => false,
        _ => true,
    }
}

/// Step of an address register: byte accesses keep the stack pointer even.
pub open spec fn spec_step_size(reg: u8, size: Size) -> u32 {
    if size == Size::Byte && reg == 7 {
        2
    } else {
        size.bytes()
    }
}

/// Step of an address register: byte accesses keep the stack pointer even.
#[verifier::when_used_as_spec(spec_step_size)]
pub fn step_size(reg: u8, size: Size) -> (r: u32)
    ensures
        r == spec_step_size(reg, size),
{
    if size == Size::Byte && reg == 7 {
        2
    } else {
        size.bytes()
    }
}

impl Machine {
    /// A displacement whose size a two-bit field gives: none, word or long.
    #[verifier::opaque]
    pub open spec fn sized_displacement(self, field: u16) -> (Machine, u32) {
        if field == 2 {
            let (m, w) = self.read_imm_16();
            (m, sext16(w))
        } else {
            if field == 3 {
                self.read_imm_32()
            } else {
                (self, 0)
            }
        }
    }

    /// An indexed address in the full extension format of the 68020.
    #[verifier::opaque]
    pub open spec fn resolve_full_index(self, base: u32, ext: u16) -> (Machine, u32) {
        let start: u32 = if ext & 0x0080 != 0 {
            0
        } else {
            base
        };
        let index: u32 = if ext & 0x0040 != 0 {
            0
        } else {
            self.cpu.index_value(ext)
        };
        let (m, inner) = self.sized_displacement((ext >> 4) & 3);
        let indirection: u16 = ext & 7;
        if indirection == 0 || indirection == 4 {
            (m, start.wrapping_add(inner).wrapping_add(index))
        } else {
            let (m, outer) = m.sized_displacement(indirection & 3);
            if indirection < 4 {
                let (m, pointer) = m.read_32(start.wrapping_add(inner).wrapping_add(index));
                (m, pointer.wrapping_add(outer))
            } else {
                let (m, pointer) = m.read_32(start.wrapping_add(inner));
                (m, pointer.wrapping_add(index).wrapping_add(outer))
            }
        }
    }

    /// An indexed address.
    #[verifier::opaque]
    pub open spec fn resolve_index(self, base: u32) -> (Machine, u32) {
        let m = self.on_cpu(self.cpu.spec_internal_cycles(2));
        let (m, ext) = m.read_imm_16();
        if !m.cpu.model.is_pre_68020 && ext & 0x0100 != 0 {
            m.resolve_full_index(base, ext)
        } else {
            (m, base.wrapping_add(sext8(ext as u8)).wrapping_add(m.cpu.index_value(ext)))
        }
    }

    /// Consume the immediate operand of an instruction.
    #[verifier::opaque]
    pub open spec fn read_immediate(self, size: Size) -> (Machine, u32) {
        match size {
            Size::Byte => {
                let (m, w) = self.read_imm_16();
                (m, (w & 0xFF) as u32)
            },
            Size::Word => {
                let (m, w) = self.read_imm_16();
                (m, w as u32)
            },
            Size::Long => self.read_imm_32(),
        }
    }

    /// Resolve an operand: consume its extension words and apply the
    /// register side effects of its mode.
    #[verifier::opaque]
    pub open spec fn resolve_ea(self, mode: AddressingMode, size: Size) -> (Machine, EaResult) {
        match mode {
            AddressingMode::DataDirect(reg) => (self, EaResult::DataReg(reg)),
            AddressingMode::AddressDirect(reg) => (self, EaResult::AddrReg(reg)),
            AddressingMode::AddressIndirect(reg) => (self, EaResult::Memory(self.cpu.a(reg as usize))),
            AddressingMode::PostIncrement(reg) => {
                let address: u32 = self.cpu.a(reg as usize);
                let m = self.on_cpu(self.cpu.spec_set_a(reg as usize, address.wrapping_add(step_size(reg, size))));
                (m, EaResult::Memory(address))
            },
            AddressingMode::PreDecrement(reg) => {
                let m = self.on_cpu(self.cpu.spec_internal_cycles(2));
                let address: u32 = m.cpu.a(reg as usize).wrapping_sub(step_size(reg, size));
                let m = m.on_cpu(m.cpu.spec_set_a(reg as usize, address));
                (m, EaResult::Memory(address))
            },
            AddressingMode::Displacement(reg) => {
                let base: u32 = self.cpu.a(reg as usize);
                let (m, w) = self.read_imm_16();
                (m, EaResult::Memory(base.wrapping_add(sext16(w))))
            },
            AddressingMode::Index(reg) => {
                let base: u32 = self.cpu.a(reg as usize);
                let (m, address) = self.resolve_index(base);
                (m, EaResult::Memory(address))
            },
            AddressingMode::AbsoluteShort => {
                let (m, w) = self.read_imm_16();
                (m, EaResult::Memory(sext16(w)))
            },
            AddressingMode::AbsoluteLong => {
                let (m, address) = self.read_imm_32();
                (m, EaResult::Memory(address))
            },
            AddressingMode::PcDisplacement => {
                let base: u32 = self.cpu.pc;
                let (m, w) = self.read_imm_16();
                (m, EaResult::Memory(base.wrapping_add(sext16(w))))
            },
            AddressingMode::PcIndex => {
                let base: u32 = self.cpu.pc;
                let (m, address) = self.resolve_index(base);
                (m, EaResult::Memory(address))
            },
            AddressingMode::Immediate => {
                let (m, value) = self.read_immediate(size);
                (m, EaResult::Immediate(value))
            },
        }
    }

    /// Read memory by size.
    #[verifier::opaque]
    pub open spec fn read_sized(self, address: u32, size: Size) -> (Machine, u32) {
        match size {
            Size::Byte => {
                let (m, v) = self.read_8(address);
                (m, v as u32)
            },
            Size::Word => {
                let (m, v) = self.read_16(address);
                (m, v as u32)
            },
            Size::Long => self.read_32(address),
        }
    }

    /// Write memory by size.
    #[verifier::opaque]
    pub open spec fn write_sized(self, address: u32, size: Size, value: u32) -> Machine {
        match size {
            Size::Byte => {
                let m = self.write_8(address, value as u8);
                m
            },
            Size::Word => {
                let m = self.write_16(address, value as u16);
                m
            },
            Size::Long => {
                let m = self.write_32(address, value);
                m
            },
        }
    }

    /// Read a resolved operand.
    #[verifier::opaque]
    pub open spec fn read_resolved_ea(self, ea: EaResult, size: Size) -> (Machine, u32) {
        match ea {
            EaResult::DataReg(reg) => (self, self.cpu.d(reg as usize) & size.mask()),
            EaResult::AddrReg(reg) => (self, self.cpu.a(reg as usize) & size.mask()),
            EaResult::Memory(address) => self.read_sized(address, size),
            EaResult::Immediate(value) => (self, value & size.mask()),
        }
    }

    /// Write a resolved operand. A memory write follows the final prefetch.
    #[verifier::opaque]
    pub open spec fn write_resolved_ea(self, ea: EaResult, size: Size, value: u32) -> Machine {
        match ea {
            EaResult::DataReg(reg) => {
                let m = self.on_cpu(self.cpu.spec_write_data_reg(reg as usize, size, value));
                m
            },
            EaResult::AddrReg(reg) => {
                let m = self.on_cpu(self.cpu.spec_set_a(reg as usize, sign_extend(size, value)));
                m
            },
            EaResult::Memory(address) => {
                let m = self.top_up_prefetch();
                let m = m.write_sized(address, size, value);
                m
            },
            EaResult::Immediate(_) => self,
        }
    }

    /// Write a resolved operand, with the IPL poll on the prefetch before the
    /// write.
    #[verifier::opaque]
    pub open spec fn write_resolved_ea_np_poll(self, ea: EaResult, size: Size, value: u32) -> Machine {
        let m = self.top_up_prefetch();
        let m = m.ipl_poll_point();
        let m = m.write_resolved_ea(ea, size, value);
        m
    }

    /// Resolve and read an operand.
    #[verifier::opaque]
    pub open spec fn read_ea(self, mode: AddressingMode, size: Size) -> (Machine, u32) {
        let (m, ea) = self.resolve_ea(mode, size);
        m.read_resolved_ea(ea, size)
    }

    /// The address of a memory operand; zero for operands without one.
    #[verifier::opaque]
    pub open spec fn get_ea_address(self, mode: AddressingMode, size: Size) -> (Machine, u32) {
        let (m, ea) = self.resolve_ea(mode, size);
        match ea {
            EaResult::Memory(address) => (m, address),
            _ => (m, 0),
        }
    }
}

impl CpuCore {
    /// The index register that an extension word names, with its scale.
    pub open spec fn spec_index_value(&self, ext: u16) -> u32 {
        let reg: usize = ((ext >> 12) & 7) as usize;
        let full: u32 = if ext & 0x8000 != 0 {
            self.a(reg)
        } else {
            self.d(reg)
        };
        let value: u32 = if ext & 0x0800 != 0 {
            full
        } else {
            sext16(full as u16)
        };
        if self.model.is_pre_68020 {
            value
        } else {
            match (ext >> 9) & 3 {
                1 => value << 1,
                2 => value << 2,
                3 => value << 3,
                _ => value,
            }
        }
    }

    /// The index register that an extension word names, with its scale.
    #[verifier::when_used_as_spec(spec_index_value)]
    pub fn index_value(&self, ext: u16) -> (r: u32)
        ensures
            r == self.spec_index_value(ext),
    {
        proof {
            crate::bits::lemma_fields(ext);
        }
        let reg: usize = ((ext >> 12) & 7) as usize;
        let full: u32 = if ext & 0x8000 != 0 {
            self.a(reg)
        } else {
            self.d(reg)
        };
        let value: u32 = if ext & 0x0800 != 0 {
            full
        } else {
            sext16(full as u16)
        };
        if self.model.is_pre_68020 {
            value
        } else {
            match (ext >> 9) & 3 {
                1 => value << 1,
                2 => value << 2,
                3 => value << 3,
                _ => value,
            }
        }
    }

    /// A displacement whose size a two-bit field gives: none, word or long.
    pub fn sized_displacement<B: AddressBus>(&mut self, bus: &mut B, field: u16) -> (r: u32)
        ensures
            (Machine::of(*final(self), *final(bus)), r) == Machine::of(*old(self), *old(bus)).sized_displacement(field),
    {
        proof {
            reveal(Machine::sized_displacement);
        }
        if field == 2 {
            let w: u16 = self.read_imm_16(bus);
            return sext16(w);
        }
        if field == 3 {
            return self.read_imm_32(bus);
        }
        0
    }

    /// An indexed address in the full extension format of the 68020.
    pub fn resolve_full_index<B: AddressBus>(&mut self, bus: &mut B, base: u32, ext: u16) -> (r: u32)
        ensures
            (Machine::of(*final(self), *final(bus)), r) == Machine::of(*old(self), *old(bus)).resolve_full_index(base, ext),
    {
        proof {
            reveal(Machine::resolve_full_index);
        }
        let start: u32 = if ext & 0x0080 != 0 {
            0
        } else {
            base
        };
        let index: u32 = if ext & 0x0040 != 0 {
            0
        } else {
            self.index_value(ext)
        };
        let inner: u32 = self.sized_displacement(bus, (ext >> 4) & 3);
        let indirection: u16 = ext & 7;
        if indirection == 0 || indirection == 4 {
            return start.wrapping_add(inner).wrapping_add(index);
        }
        let outer: u32 = self.sized_displacement(bus, indirection & 3);
        if indirection < 4 {
            let pointer: u32 = self.read_32(bus, start.wrapping_add(inner).wrapping_add(index));
            return pointer.wrapping_add(outer);
        }
        let pointer: u32 = self.read_32(bus, start.wrapping_add(inner));
        pointer.wrapping_add(index).wrapping_add(outer)
    }

    /// An indexed address.
    pub fn resolve_index<B: AddressBus>(&mut self, bus: &mut B, base: u32) -> (r: u32)
        ensures
            (Machine::of(*final(self), *final(bus)), r) == Machine::of(*old(self), *old(bus)).resolve_index(base),
    {
        proof {
            reveal(Machine::resolve_index);
        }
        self.internal_cycles(2);
        let ext: u16 = self.read_imm_16(bus);
        if !self.model.is_pre_68020 && ext & 0x0100 != 0 {
            return self.resolve_full_index(bus, base, ext);
        }
        base.wrapping_add(sext8(ext as u8)).wrapping_add(self.index_value(ext))
    }

    /// Consume the immediate operand of an instruction.
    pub fn read_immediate<B: AddressBus>(&mut self, bus: &mut B, size: Size) -> (r: u32)
        ensures
            (Machine::of(*final(self), *final(bus)), r) == Machine::of(*old(self), *old(bus)).read_immediate(size),
    {
        proof {
            reveal(Machine::read_immediate);
        }
        match size {
            Size::Byte => {
                let w: u16 = self.read_imm_16(bus);
                (w & 0xFF) as u32
            },
            Size::Word => {
                let w: u16 = self.read_imm_16(bus);
                w as u32
            },
            Size::Long => self.read_imm_32(bus),
        }
    }

    /// Resolve an operand: consume its extension words and apply the
    /// register side effects of its mode.
    pub fn resolve_ea<B: AddressBus>(&mut self, bus: &mut B, mode: AddressingMode, size: Size) -> (r: EaResult)
        ensures
            (Machine::of(*final(self), *final(bus)), r) == Machine::of(*old(self), *old(bus)).resolve_ea(mode, size),
    {
        proof {
            reveal(Machine::resolve_ea);
        }
        match mode {
            AddressingMode::DataDirect(reg) => EaResult::DataReg(reg),
            AddressingMode::AddressDirect(reg) => EaResult::AddrReg(reg),
            AddressingMode::AddressIndirect(reg) => EaResult::Memory(self.a(reg as usize)),
            AddressingMode::PostIncrement(reg) => {
                let address: u32 = self.a(reg as usize);
                self.set_a(reg as usize, address.wrapping_add(step_size(reg, size)));
                EaResult::Memory(address)
            },
            AddressingMode::PreDecrement(reg) => {
                self.internal_cycles(2);
                let address: u32 = self.a(reg as usize).wrapping_sub(step_size(reg, size));
                self.set_a(reg as usize, address);
                EaResult::Memory(address)
            },
            AddressingMode::Displacement(reg) => {
                let base: u32 = self.a(reg as usize);
                let w: u16 = self.read_imm_16(bus);
                EaResult::Memory(base.wrapping_add(sext16(w)))
            },
            AddressingMode::Index(reg) => {
                let base: u32 = self.a(reg as usize);
                let address: u32 = self.resolve_index(bus, base);
                EaResult::Memory(address)
            },
            AddressingMode::AbsoluteShort => {
                let w: u16 = self.read_imm_16(bus);
                EaResult::Memory(sext16(w))
            },
            AddressingMode::AbsoluteLong => {
                let address: u32 = self.read_imm_32(bus);
                EaResult::Memory(address)
            },
            AddressingMode::PcDisplacement => {
                let base: u32 = self.pc;
                let w: u16 = self.read_imm_16(bus);
                EaResult::Memory(base.wrapping_add(sext16(w)))
            },
            AddressingMode::PcIndex => {
                let base: u32 = self.pc;
                let address: u32 = self.resolve_index(bus, base);
                EaResult::Memory(address)
            },
            AddressingMode::Immediate => {
                let value: u32 = self.read_immediate(bus, size);
                EaResult::Immediate(value)
            },
        }
    }

    /// Read memory by size.
    pub fn read_sized<B: AddressBus>(&mut self, bus: &mut B, address: u32, size: Size) -> (r: u32)
        ensures
            (Machine::of(*final(self), *final(bus)), r) == Machine::of(*old(self), *old(bus)).read_sized(address, size),
    {
        proof {
            reveal(Machine::read_sized);
        }
        match size {
            Size::Byte => {
                let v: u8 = self.read_8(bus, address);
                v as u32
            },
            Size::Word => {
                let v: u16 = self.read_16(bus, address);
                v as u32
            },
            Size::Long => self.read_32(bus, address),
        }
    }

    /// Write memory by size.
    pub fn write_sized<B: AddressBus>(&mut self, bus: &mut B, address: u32, size: Size, value: u32)
        ensures
            Machine::of(*final(self), *final(bus)) == Machine::of(*old(self), *old(bus)).write_sized(address, size, value),
    {
        proof {
            reveal(Machine::write_sized);
        }
        match size {
            Size::Byte => {
                self.write_8(bus, address, value as u8);
            },
            Size::Word => {
                self.write_16(bus, address, value as u16);
            },
            Size::Long => {
                self.write_32(bus, address, value);
            },
        }
    }

    /// Read a resolved operand.
    pub fn read_resolved_ea<B: AddressBus>(&mut self, bus: &mut B, ea: EaResult, size: Size) -> (r: u32)
        ensures
            (Machine::of(*final(self), *final(bus)), r) == Machine::of(*old(self), *old(bus)).read_resolved_ea(ea, size),
    {
        proof {
            reveal(Machine::read_resolved_ea);
        }
        match ea {
            EaResult::DataReg(reg) => self.d(reg as usize) & size.mask(),
            EaResult::AddrReg(reg) => self.a(reg as usize) & size.mask(),
            EaResult::Memory(address) => self.read_sized(bus, address, size),
            EaResult::Immediate(value) => value & size.mask(),
        }
    }

    /// Write a resolved operand. A memory write follows the final prefetch.
    pub fn write_resolved_ea<B: AddressBus>(&mut self, bus: &mut B, ea: EaResult, size: Size, value: u32)
        ensures
            Machine::of(*final(self), *final(bus)) == Machine::of(*old(self), *old(bus)).write_resolved_ea(ea, size, value),
    {
        proof {
            reveal(Machine::write_resolved_ea);
        }
        match ea {
            EaResult::DataReg(reg) => {
                self.write_data_reg(reg as usize, size, value);
            },
            EaResult::AddrReg(reg) => {
                self.set_a(reg as usize, sign_extend(size, value));
            },
            EaResult::Memory(address) => {
                self.top_up_prefetch(bus);
                self.write_sized(bus, address, size, value);
            },
            EaResult::Immediate(_) => {},
        }
    }

    /// Write a resolved operand, with the IPL poll on the prefetch before the
    /// write.
    pub fn write_resolved_ea_np_poll<B: AddressBus>(&mut self, bus: &mut B, ea: EaResult, size: Size, value: u32)
        ensures
            Machine::of(*final(self), *final(bus)) == Machine::of(*old(self), *old(bus)).write_resolved_ea_np_poll(ea, size, value),
    {
        proof {
            reveal(Machine::write_resolved_ea_np_poll);
        }
        self.top_up_prefetch(bus);
        self.ipl_poll_point(bus);
        self.write_resolved_ea(bus, ea, size, value);
    }

    /// Resolve and read an operand.
    pub fn read_ea<B: AddressBus>(&mut self, bus: &mut B, mode: AddressingMode, size: Size) -> (r: u32)
        ensures
            (Machine::of(*final(self), *final(bus)), r) == Machine::of(*old(self), *old(bus)).read_ea(mode, size),
    {
        proof {
            reveal(Machine::read_ea);
        }
        let ea: EaResult = self.resolve_ea(bus, mode, size);
        self.read_resolved_ea(bus, ea, size)
    }

    /// The address of a memory operand; zero for operands without one.
    pub fn get_ea_address<B: AddressBus>(&mut self, bus: &mut B, mode: AddressingMode, size: Size) -> (r: u32)
        ensures
            (Machine::of(*final(self), *final(bus)), r) == Machine::of(*old(self), *old(bus)).get_ea_address(mode, size),
    {
        proof {
            reveal(Machine::get_ea_address);
        }
        let ea: EaResult = self.resolve_ea(bus, mode, size);
        match ea {
            EaResult::Memory(address) => address,
            _ => 0,
        }
    }
}

} // verus!
