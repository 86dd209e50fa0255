//! Instruction fetch and operand resolution for the addressing modes.

use vstd::prelude::*;
use crate::bus::Bus;
use crate::common::{Byte, Word};
use super::instructions::{decode, instruction_by_opcode, AddressingMode, Instruction, RegisterType};
use super::registers::{lemma_pair_bits, pair, Registers};
use super::Cpu;

verus! {

/// The value of a register or register pair.
pub open spec fn reg_value(regs: Registers, r: RegisterType) -> u16 {
    match r {
        RegisterType::Unused => 0,
        RegisterType::A => regs.a as u16,
        RegisterType::F => regs.f as u16,
        RegisterType::B => regs.b as u16,
        RegisterType::C => regs.c as u16,
        RegisterType::D => regs.d as u16,
        RegisterType::E => regs.e as u16,
        RegisterType::H => regs.h as u16,
        RegisterType::L => regs.l as u16,
        RegisterType::Af => pair(regs.a, regs.f),
        RegisterType::Bc => pair(regs.b, regs.c),
        RegisterType::De => pair(regs.d, regs.e),
        RegisterType::Hl => pair(regs.h, regs.l),
        RegisterType::Sp => regs.sp,
        RegisterType::Pc => regs.pc,
    }
}

/// The registers after writing `v` to register `r`: 8-bit registers take the low byte,
/// F and AF keep the low nibble of F zero.
pub open spec fn with_reg(regs: Registers, r: RegisterType, v: u16) -> Registers {
    match r {
        RegisterType::Unused => regs,
        RegisterType::A => Registers { a: v as u8, ..regs },
        RegisterType::F => Registers { f: (v & 0xF0) as u8, ..regs },
        RegisterType::B => Registers { b: v as u8, ..regs },
        RegisterType::C => Registers { c: v as u8, ..regs },
        RegisterType::D => Registers { d: v as u8, ..regs },
        RegisterType::E => Registers { e: v as u8, ..regs },
        RegisterType::H => Registers { h: v as u8, ..regs },
        RegisterType::L => Registers { l: v as u8, ..regs },
        RegisterType::Af => Registers { a: (v / 256) as u8, f: ((v % 256) & 0xF0) as u8, ..regs },
        RegisterType::Bc => Registers { b: (v / 256) as u8, c: (v % 256) as u8, ..regs },
        RegisterType::De => Registers { d: (v / 256) as u8, e: (v % 256) as u8, ..regs },
        RegisterType::Hl => Registers { h: (v / 256) as u8, l: (v % 256) as u8, ..regs },
        RegisterType::Sp => Registers { sp: v, ..regs },
        RegisterType::Pc => Registers { pc: v, ..regs },
    }
}

/// Registers with HL set to `v`.
pub open spec fn with_hl(regs: Registers, v: u16) -> Registers {
    with_reg(regs, RegisterType::Hl, v)
}

/// An immediate byte at `pc`.
pub open spec fn imm8(bus: Bus, pc: u16) -> u16 {
    bus.read_spec(pc) as u16
}

/// An immediate little-endian word at `pc`.
pub open spec fn imm16(bus: Bus, pc: u16) -> u16 {
    (bus.read_spec(pc) as int + 256 * bus.read_spec(pc.wrapping_add(1)) as int) as u16
}

/// A register operand used as an address, with C naming 0xFF00 + C.
pub open spec fn reg_addr(regs: Registers, r: RegisterType) -> u16 {
    if r == RegisterType::C {
        (0xFF00 + regs.c) as u16
    } else {
        reg_value(regs, r)
    }
}

/// Operands, destination and registers after resolving the addressing mode of `inst`.
pub open spec fn fetch_post(old: Cpu, new: Cpu, bus: Bus, inst: Instruction) -> bool {
    let regs = old.regs;
    let pc = regs.pc;
    let hl = pair(regs.h, regs.l);
    let r1 = reg_value(regs, inst.reg1);
    let r2 = reg_value(regs, inst.reg2);
    let same_regs = new.regs == regs;
    let pc1 = new.regs == Registers { pc: pc.wrapping_add(1), ..regs };
    let pc2 = new.regs == Registers { pc: pc.wrapping_add(2), ..regs };
    match inst.mode {
        AddressingMode::Implied => same_regs && !new.dest_is_mem && new.fetched_data == old.fetched_data,
        AddressingMode::Register => same_regs && !new.dest_is_mem && new.fetched_data == r1,
        AddressingMode::RegisterRegister => same_regs && !new.dest_is_mem && new.fetched_data == r2,
        AddressingMode::RegisterD8 | AddressingMode::D8 | AddressingMode::RegisterA8
        | AddressingMode::HlSpr => pc1 && !new.dest_is_mem && new.fetched_data == imm8(bus, pc),
        AddressingMode::RegisterD16 | AddressingMode::D16 => pc2 && !new.dest_is_mem
            && new.fetched_data == imm16(bus, pc),
        AddressingMode::MemoryRegister => same_regs && new.dest_is_mem && new.fetched_data == r2
            && new.mem_dest == reg_addr(regs, inst.reg1),
        AddressingMode::RegisterMemory => same_regs && !new.dest_is_mem
            && new.fetched_data == bus.read_spec(reg_addr(regs, inst.reg2)) as u16,
        AddressingMode::RegisterHli => new.regs == with_hl(regs, hl.wrapping_add(1)) && !new.dest_is_mem
            && new.fetched_data == bus.read_spec(r2) as u16,
        AddressingMode::RegisterHld => new.regs == with_hl(regs, hl.wrapping_sub(1)) && !new.dest_is_mem
            && new.fetched_data == bus.read_spec(r2) as u16,
        AddressingMode::HliRegister => new.regs == with_hl(regs, hl.wrapping_add(1)) && new.dest_is_mem
            && new.fetched_data == r2 && new.mem_dest == r1,
        AddressingMode::HldRegister => new.regs == with_hl(regs, hl.wrapping_sub(1)) && new.dest_is_mem
            && new.fetched_data == r2 && new.mem_dest == r1,
        AddressingMode::A8Register => pc1 && new.dest_is_mem && new.mem_dest == 0xFF00 + imm8(bus, pc)
            && new.fetched_data == old.fetched_data,
        AddressingMode::A16Register => pc2 && new.dest_is_mem && new.mem_dest == imm16(bus, pc)
            && new.fetched_data == r2,
        AddressingMode::MemoryRegisterD8 => pc1 && new.dest_is_mem && new.fetched_data == imm8(bus, pc)
            && new.mem_dest == r1,
        AddressingMode::MemoryRegisterOnly => same_regs && new.dest_is_mem && new.mem_dest == r1
            && new.fetched_data == bus.read_spec(r1) as u16,
        AddressingMode::RegisterA16 => pc2 && !new.dest_is_mem
            && new.fetched_data == bus.read_spec(imm16(bus, pc)) as u16,
    }
}

impl Cpu {
    /// Read a register or register pair.
    pub fn read_reg(&self, reg: RegisterType) -> (r: Word)
        ensures
            r == reg_value(self.regs, reg),
    {
        match reg {
            RegisterType::Unused => 0,
            RegisterType::A => self.regs.a as Word,
            RegisterType::F => self.regs.f as Word,
            RegisterType::B => self.regs.b as Word,
            RegisterType::C => self.regs.c as Word,
            RegisterType::D => self.regs.d as Word,
            RegisterType::E => self.regs.e as Word,
            RegisterType::H => self.regs.h as Word,
            RegisterType::L => self.regs.l as Word,
            RegisterType::Af => self.regs.af(),
            RegisterType::Bc => self.regs.bc(),
            RegisterType::De => self.regs.de(),
            RegisterType::Hl => self.regs.hl(),
            RegisterType::Sp => self.regs.sp,
            RegisterType::Pc => self.regs.pc,
        }
    }

    /// Write a register or register pair.
    pub fn write_reg(&mut self, reg: RegisterType, value: Word)
        requires
            old(self).wf(),
        ensures
            final(self).regs == with_reg(old(self).regs, reg, value),
            final(self).wf(),
            final(self).halted == old(self).halted && final(self).ime == old(self).ime,
            final(self).enabling_ime == old(self).enabling_ime,
            final(self).int_flags == old(self).int_flags && final(self).ie_register == old(self).ie_register,
            final(self).pending_m_cycles == old(self).pending_m_cycles,
            final(self).fetched_data == old(self).fetched_data,
            final(self).mem_dest == old(self).mem_dest,
            final(self).dest_is_mem == old(self).dest_is_mem,
            final(self).cur_opcode == old(self).cur_opcode,
            final(self).cur_inst == old(self).cur_inst,
    {
        proof {
            lemma_pair_bits(0, 0, value);
        }
        match reg {
            RegisterType::Unused => {},
            RegisterType::A => self.regs.a = value as Byte,
            RegisterType::F => self.regs.f = (value & 0xF0) as Byte,
            RegisterType::B => self.regs.b = value as Byte,
            RegisterType::C => self.regs.c = value as Byte,
            RegisterType::D => self.regs.d = value as Byte,
            RegisterType::E => self.regs.e = value as Byte,
            RegisterType::H => self.regs.h = value as Byte,
            RegisterType::L => self.regs.l = value as Byte,
            RegisterType::Af => self.regs.set_af(value),
            RegisterType::Bc => self.regs.set_bc(value),
            RegisterType::De => self.regs.set_de(value),
            RegisterType::Hl => self.regs.set_hl(value),
            RegisterType::Sp => self.regs.sp = value,
            RegisterType::Pc => self.regs.pc = value,
        }
    }

    /// Read the opcode at PC, advance PC and decode it.
    pub fn fetch_instruction(&mut self, bus: &Bus) -> (r: Instruction)
        requires
            bus.wf(),
        ensures
            final(self).cur_opcode == bus.read_spec(old(self).regs.pc),
            r == decode(final(self).cur_opcode),
            final(self).cur_inst == Some(r),
            final(self).regs == (Registers { pc: old(self).regs.pc.wrapping_add(1), ..old(self).regs }),
            final(self).halted == old(self).halted && final(self).ime == old(self).ime,
            final(self).enabling_ime == old(self).enabling_ime,
            final(self).int_flags == old(self).int_flags && final(self).ie_register == old(self).ie_register,
            final(self).pending_m_cycles == old(self).pending_m_cycles,
            final(self).fetched_data == old(self).fetched_data,
    {
        self.cur_opcode = bus.read(self.regs.pc);
        self.regs.pc = self.regs.pc.wrapping_add(1);
        let inst = instruction_by_opcode(self.cur_opcode);
        self.cur_inst = Some(inst);
        inst
    }

    fn imm16_at(bus: &Bus, pc: Word) -> (r: Word)
        requires
            bus.wf(),
        ensures
            r == imm16(*bus, pc),
    {
        let lo = bus.read(pc);
        let hi = bus.read(pc.wrapping_add(1));
        proof {
            lemma_pair_bits(hi, lo, 0);
        }
        ((hi as Word) << 8) | (lo as Word)
    }

    /// Resolve the operands of the current instruction for its addressing mode.
    pub fn fetch_data(&mut self, bus: &Bus)
        requires
            bus.wf(),
            old(self).wf(),
        ensures
            final(self).wf(),
            old(self).cur_inst matches Some(inst) ==> fetch_post(*old(self), *final(self), *bus, inst),
            old(self).cur_inst is None ==> final(self).regs == old(self).regs && !final(self).dest_is_mem,
            final(self).cur_inst == old(self).cur_inst,
            final(self).cur_opcode == old(self).cur_opcode,
            final(self).halted == old(self).halted && final(self).ime == old(self).ime,
            final(self).enabling_ime == old(self).enabling_ime,
            final(self).int_flags == old(self).int_flags && final(self).ie_register == old(self).ie_register,
            final(self).pending_m_cycles == old(self).pending_m_cycles,
    {
        self.mem_dest = 0;
        self.dest_is_mem = false;
        let inst = match self.current_instruction() {
            Some(i) => i,
            None => return,
        };
        let pc = self.regs.pc;
        match inst.mode {
            AddressingMode::Implied => {},
            AddressingMode::Register => {
                self.fetched_data = self.read_reg(inst.reg1);
            },
            AddressingMode::RegisterRegister => {
                self.fetched_data = self.read_reg(inst.reg2);
            },
            AddressingMode::RegisterD8 | AddressingMode::D8 | AddressingMode::RegisterA8
            | AddressingMode::HlSpr => {
                self.fetched_data = bus.read(pc) as Word;
                self.regs.pc = pc.wrapping_add(1);
            },
            AddressingMode::RegisterD16 | AddressingMode::D16 => {
                self.fetched_data = Self::imm16_at(bus, pc);
                self.regs.pc = pc.wrapping_add(2);
            },
            AddressingMode::MemoryRegister => {
                self.fetched_data = self.read_reg(inst.reg2);
                self.mem_dest = self.read_reg(inst.reg1);
                self.dest_is_mem = true;
                if inst.reg1 == RegisterType::C {
                    self.mem_dest = 0xFF00 + self.regs.c as Word;
                }
            },
            AddressingMode::RegisterMemory => {
                let mut addr = self.read_reg(inst.reg2);
                if inst.reg2 == RegisterType::C {
                    addr = 0xFF00 + self.regs.c as Word;
                }
                self.fetched_data = bus.read(addr) as Word;
            },
            AddressingMode::RegisterHli => {
                self.fetched_data = bus.read(self.read_reg(inst.reg2)) as Word;
                let hl = self.regs.hl().wrapping_add(1);
                self.write_reg(RegisterType::Hl, hl);
            },
            AddressingMode::RegisterHld => {
                self.fetched_data = bus.read(self.read_reg(inst.reg2)) as Word;
                let hl = self.regs.hl().wrapping_sub(1);
                self.write_reg(RegisterType::Hl, hl);
            },
            AddressingMode::HliRegister => {
                self.fetched_data = self.read_reg(inst.reg2);
                self.mem_dest = self.read_reg(inst.reg1);
                self.dest_is_mem = true;
                let hl = self.regs.hl().wrapping_add(1);
                self.write_reg(RegisterType::Hl, hl);
            },
            AddressingMode::HldRegister => {
                self.fetched_data = self.read_reg(inst.reg2);
                self.mem_dest = self.read_reg(inst.reg1);
                self.dest_is_mem = true;
                let hl = self.regs.hl().wrapping_sub(1);
                self.write_reg(RegisterType::Hl, hl);
            },
            AddressingMode::A8Register => {
                self.mem_dest = 0xFF00 + bus.read(pc) as Word;
                self.dest_is_mem = true;
                self.regs.pc = pc.wrapping_add(1);
            },
            AddressingMode::A16Register => {
                self.fetched_data = self.read_reg(inst.reg2);
                self.mem_dest = Self::imm16_at(bus, pc);
                self.dest_is_mem = true;
                self.regs.pc = pc.wrapping_add(2);
            },
            AddressingMode::MemoryRegisterD8 => {
                self.mem_dest = self.read_reg(inst.reg1);
                self.dest_is_mem = true;
                self.fetched_data = bus.read(pc) as Word;
                self.regs.pc = pc.wrapping_add(1);
            },
            AddressingMode::MemoryRegisterOnly => {
                self.mem_dest = self.read_reg(inst.reg1);
                self.dest_is_mem = true;
                self.fetched_data = bus.read(self.mem_dest) as Word;
            },
            AddressingMode::RegisterA16 => {
                let addr = Self::imm16_at(bus, pc);
                self.regs.pc = pc.wrapping_add(2);
                self.fetched_data = bus.read(addr) as Word;
            },
        }
    }
}

} // verus!
