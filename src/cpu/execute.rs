//! Instruction execution, the stack, interrupt dispatch and the M-cycle timing table.

use vstd::prelude::*;
use crate::bus::{Bus, MemoryBus};
use crate::common::{bit_of, lemma_mask_bounds, Byte, Word};
use super::fetch::{reg_value, with_reg};
use super::instructions::{r8_spec, AddressingMode, ConditionType, Instruction, InstructionType, RegisterType};
use super::registers::{lemma_pair_bits, pair, Registers};
use super::{highest_pending, pending_mask, Cpu};

verus! {

/// Sign extension of a byte to a word.
pub open spec fn sext(b: u8) -> u16 {
    if b < 128 {
        b as u16
    } else {
        (b as int + 0xFF00) as u16
    }
}

/// Result and flags (value, Z, N, H, C) of an 8-bit ALU operation of `a` with `u`,
/// with `c` the incoming carry.
pub open spec fn alu8(t: InstructionType, a: u8, u: u8, c: bool) -> (u8, bool, bool, bool, bool) {
    let ci: u8 = if c { 1 } else { 0 };
    match t {
        InstructionType::Add => {
            let r = a.wrapping_add(u);
            (r, r == 0, false, (a & 0xF) + (u & 0xF) > 0xF, a + u > 0xFF)
        },
        InstructionType::Adc => {
            let r = a.wrapping_add(u).wrapping_add(ci);
            (r, r == 0, false, (a & 0xF) + (u & 0xF) + ci > 0xF, a + u + ci > 0xFF)
        },
        InstructionType::Sub => {
            let r = a.wrapping_sub(u);
            (r, r == 0, true, (a & 0xF) < (u & 0xF), a < u)
        },
        InstructionType::Sbc => {
            let r = a.wrapping_sub(u).wrapping_sub(ci);
            (r, r == 0, true, (a & 0xF) < (u & 0xF) + ci, a < u + ci)
        },
        InstructionType::And => (a & u, a & u == 0, false, true, false),
        InstructionType::Xor => (a ^ u, a ^ u == 0, false, false, false),
        InstructionType::Or => (a | u, a | u == 0, false, false, false),
        _ => (a, a == u, true, (a & 0xF) < (u & 0xF), a < u),
    }
}

/// Result and carry-out of the rotate or shift named by `y` (RLC, RRC, RL, RR, SLA, SRA,
/// SWAP, SRL) on `v`, with `c` the incoming carry.
pub open spec fn rot8(y: u8, v: u8, c: bool) -> (u8, bool) {
    let ci: u8 = if c { 1 } else { 0 };
    if y == 0 {
        ((v << 1u8) | (v >> 7u8), v & 0x80 != 0)
    } else if y == 1 {
        ((v >> 1u8) | (v << 7u8), v & 1 != 0)
    } else if y == 2 {
        ((v << 1u8) | ci, v & 0x80 != 0)
    } else if y == 3 {
        ((v >> 1u8) | (ci << 7u8), v & 1 != 0)
    } else if y == 4 {
        (v << 1u8, v & 0x80 != 0)
    } else if y == 5 {
        ((v >> 1u8) | (v & 0x80), v & 1 != 0)
    } else if y == 6 {
        ((v << 4u8) | (v >> 4u8), false)
    } else {
        (v >> 1u8, v & 1 != 0)
    }
}

/// The decimal adjustment of A: the new A and the new carry.
pub open spec fn daa_spec(a: u8, n: bool, h: bool, c: bool) -> (u8, bool) {
    let lo: u8 = if h || (!n && (a & 0xF) > 9) { 6 } else { 0 };
    let adj: u8 = if c || (!n && a > 0x99) { lo | 0x60 } else { lo };
    let r = if n { a.wrapping_sub(adj) } else { a.wrapping_add(adj) };
    (r, c || (!n && a > 0x99))
}

/// The published M-cycle cost of an opcode (with `cb` the second byte of a 0xCB-prefixed
/// one), `taken` telling whether a conditional branch is taken.
pub open spec fn m_cycles(op: u8, cb: u8, taken: bool) -> u32 {
    let row = op >> 4;
    let col = op & 0x0F;
    if op == 0xCB {
        if cb & 7 == 6 {
            if cb >> 6 == 1 { 3 } else { 4 }
        } else {
            2
        }
    } else if 0x40 <= op < 0x80 {
        if op == 0x76 { 1 } else if op & 7 == 6 || (op >> 3) & 7 == 6 { 2 } else { 1 }
    } else if 0x80 <= op < 0xC0 {
        if op & 7 == 6 { 2 } else { 1 }
    } else if op < 0x40 {
        if col == 0 {
            if row <= 1 { 1 } else if taken { 3 } else { 2 }
        } else if col == 1 {
            3
        } else if col == 2 || col == 3 || col == 9 || col == 10 || col == 11 || col == 14 {
            2
        } else if col == 4 || col == 5 {
            if row == 3 { 3 } else { 1 }
        } else if col == 6 {
            if row == 3 { 3 } else { 2 }
        } else if col == 8 {
            if row == 0 { 5 } else if row == 1 { 3 } else if taken { 3 } else { 2 }
        } else {
            1
        }
    } else {
        let r = row & 3;
        if op & 7 == 7 {
            4
        } else if op & 7 == 6 {
            2
        } else if col == 1 {
            3
        } else if col == 5 {
            4
        } else if r <= 1 && (col == 0 || col == 8) {
            if taken { 5 } else { 2 }
        } else if r <= 1 && (col == 2 || col == 10) {
            if taken { 4 } else { 3 }
        } else if r <= 1 && (col == 4 || col == 12) {
            if taken { 6 } else { 3 }
        } else if op == 0xCD {
            6
        } else if op == 0xC3 || op == 0xC9 || op == 0xD9 || op == 0xE8 || op == 0xEA || op == 0xFA {
            4
        } else if op == 0xE0 || op == 0xF0 || op == 0xF8 {
            3
        } else if op == 0xE2 || op == 0xF2 || op == 0xF9 {
            2
        } else {
            1
        }
    }
}

/// The published M-cycle cost of an opcode.
pub fn instruction_m_cycles(op: u8, cb: u8, taken: bool) -> (r: u32)
    ensures
        r == m_cycles(op, cb, taken),
{
    let row = op >> 4;
    let col = op & 0x0F;
    if op == 0xCB {
        if cb & 7 == 6 {
            if cb >> 6 == 1 { 3 } else { 4 }
        } else {
            2
        }
    } else if 0x40 <= op && op < 0x80 {
        if op == 0x76 { 1 } else if op & 7 == 6 || (op >> 3) & 7 == 6 { 2 } else { 1 }
    } else if 0x80 <= op && op < 0xC0 {
        if op & 7 == 6 { 2 } else { 1 }
    } else if op < 0x40 {
        if col == 0 {
            if row <= 1 { 1 } else if taken { 3 } else { 2 }
        } else if col == 1 {
            3
        } else if col == 2 || col == 3 || col == 9 || col == 10 || col == 11 || col == 14 {
            2
        } else if col == 4 || col == 5 {
            if row == 3 { 3 } else { 1 }
        } else if col == 6 {
            if row == 3 { 3 } else { 2 }
        } else if col == 8 {
            if row == 0 { 5 } else if row == 1 { 3 } else if taken { 3 } else { 2 }
        } else {
            1
        }
    } else {
        let r = row & 3;
        if op & 7 == 7 {
            4
        } else if op & 7 == 6 {
            2
        } else if col == 1 {
            3
        } else if col == 5 {
            4
        } else if r <= 1 && (col == 0 || col == 8) {
            if taken { 5 } else { 2 }
        } else if r <= 1 && (col == 2 || col == 10) {
            if taken { 4 } else { 3 }
        } else if r <= 1 && (col == 4 || col == 12) {
            if taken { 6 } else { 3 }
        } else if op == 0xCD {
            6
        } else if op == 0xC3 || op == 0xC9 || op == 0xD9 || op == 0xE8 || op == 0xEA || op == 0xFA {
            4
        } else if op == 0xE0 || op == 0xF0 || op == 0xF8 {
            3
        } else if op == 0xE2 || op == 0xF2 || op == 0xF9 {
            2
        } else {
            1
        }
    }
}


/// Registers equal to `r` but for F, with the four flags given (low nibble of F zero).
pub open spec fn flags_are(n: Registers, r: Registers, zf: bool, nf: bool, hf: bool, cf: bool) -> bool {
    &&& n.same_but_f(r)
    &&& n.zf() == zf && n.nf() == nf && n.hf() == hf && n.cf() == cf
    &&& n.wf()
}

/// A word pushed on the stack of `ob` at `sp`: high byte at SP-1, low byte at SP-2.
pub open spec fn pushed(ob: Bus, nb: Bus, sp: u16, v: u16) -> bool {
    exists|mid: Bus|
        Bus::write_post(ob, mid, sp.wrapping_sub(1), (v / 256) as u8)
            && #[trigger] Bus::write_post(mid, nb, sp.wrapping_sub(2), (v % 256) as u8)
}

/// A word read from the stack of `b` at `sp`, low byte first.
pub open spec fn popped(b: Bus, sp: u16) -> u16 {
    (b.read_spec(sp) as int + 256 * b.read_spec(sp.wrapping_add(1)) as int) as u16
}

/// Effect of the 0xCB-prefixed instruction `op`.
pub open spec fn cb_post(regs: Registers, n: Registers, ob: Bus, nb: Bus, op: u8) -> bool {
    let kind = op >> 6;
    let y = (op >> 3) & 7;
    let z = op & 7;
    let hl = pair(regs.h, regs.l);
    let reg = r8_spec(z);
    let v: u8 = if z == 6 { ob.read_spec(hl) } else { reg_value(regs, reg) as u8 };
    let res: u8 = if kind == 2 { v & !(1u8 << y) } else if kind == 3 { v | (1u8 << y) } else { rot8(y, v, regs.cf()).0 };
    let stored = if z == 6 { Bus::write_post(ob, nb, hl, res) && n.same_but_f(regs) } else {
        nb == ob && n.same_but_f(with_reg(regs, reg, res as u16))
    };
    if kind == 1 {
        flags_are(n, regs, !bit_of(v, y), false, true, regs.cf()) && nb == ob
    } else if kind == 0 {
        stored && flags_are(n, n, res == 0, false, false, rot8(y, v, regs.cf()).1)
    } else {
        stored && n.f == regs.f && n.wf()
    }
}

/// Effect of executing `inst` on registers and memory, with the operands that fetch
/// left in `old`.
pub open spec fn exec_post(old: Cpu, new: Cpu, ob: Bus, nb: Bus, inst: Instruction) -> bool {
    let regs = old.regs;
    let n = new.regs;
    let t = inst.inst_type;
    let u = old.fetched_data as u8;
    let a = regs.a;
    let cf = regs.cf();
    let hl = pair(regs.h, regs.l);
    let taken = old.cond_holds(inst.cond);
    let same = n == regs && nb == ob;
    let r1 = reg_value(regs, inst.reg1);
    let alu = alu8(t, a, u, cf);
    let wide = inst.reg1 == RegisterType::Af || inst.reg1 == RegisterType::Bc || inst.reg1 == RegisterType::De
        || inst.reg1 == RegisterType::Hl || inst.reg1 == RegisterType::Sp || inst.reg1 == RegisterType::Pc;
    &&& new.int_flags == old.int_flags && new.ie_register == old.ie_register
    &&& new.cur_inst == old.cur_inst && new.cur_opcode == old.cur_opcode
    &&& new.halted == (old.halted || t == InstructionType::Halt)
    &&& new.ime == (if t == InstructionType::Di { false } else if t == InstructionType::Reti { true } else { old.ime })
    &&& new.enabling_ime == (old.enabling_ime || t == InstructionType::Ei)
    &&& n.wf()
    &&& match t {
        InstructionType::Ld => if old.dest_is_mem {
            n == regs && if wide_reg(inst.reg2) {
                exists|mid: Bus|
                    Bus::write_post(ob, mid, old.mem_dest, (old.fetched_data % 256) as u8)
                        && #[trigger] Bus::write_post(mid, nb, old.mem_dest.wrapping_add(1), (old.fetched_data / 256) as u8)
            } else {
                Bus::write_post(ob, nb, old.mem_dest, u)
            }
        } else if inst.mode == AddressingMode::HlSpr {
            let r2 = reg_value(regs, inst.reg2);
            nb == ob && flags_are(n, with_reg(regs, inst.reg1, r2.wrapping_add(sext(u))), false, false,
                (r2 & 0xF) + (u & 0xF) >= 0x10, (r2 & 0xFF) + u >= 0x100)
        } else {
            nb == ob && n == with_reg(regs, inst.reg1, old.fetched_data)
        },
        InstructionType::Ldh => if inst.reg1 == RegisterType::A {
            nb == ob && n == Cpu::set_a(regs, ob.read_spec((0xFF00 + u) as u16))
        } else {
            n == regs && Bus::write_post(ob, nb, old.mem_dest, a)
        },
        InstructionType::Inc | InstructionType::Dec => {
            let inc = t == InstructionType::Inc;
            let v: u8 = if inst.mode == AddressingMode::MemoryRegisterOnly { u } else { r1 as u8 };
            let r: u8 = if inc { v.wrapping_add(1) } else { v.wrapping_sub(1) };
            let h = if inc { r & 0x0F == 0 } else { r & 0x0F == 0x0F };
            if wide {
                nb == ob && n == with_reg(regs, inst.reg1, if inc { r1.wrapping_add(1) } else { r1.wrapping_sub(1) })
            } else if inst.mode == AddressingMode::MemoryRegisterOnly {
                Bus::write_post(ob, nb, old.mem_dest, r) && flags_are(n, regs, r == 0, !inc, h, cf)
            } else {
                nb == ob && flags_are(n, with_reg(regs, inst.reg1, r as u16), r == 0, !inc, h, cf)
            }
        },
        InstructionType::Add => if inst.reg1 == RegisterType::Hl {
            let v = old.fetched_data;
            nb == ob && flags_are(n, with_reg(regs, RegisterType::Hl, hl.wrapping_add(v)), regs.zf(), false,
                (hl & 0xFFF) + (v & 0xFFF) >= 0x1000, hl + v >= 0x10000)
        } else if inst.reg1 == RegisterType::Sp {
            nb == ob && flags_are(n, Registers { sp: regs.sp.wrapping_add(sext(u)), ..regs }, false, false,
                (regs.sp & 0xF) + (u & 0xF) >= 0x10, (regs.sp & 0xFF) + u >= 0x100)
        } else {
            nb == ob && flags_are(n, Cpu::set_a(regs, alu.0), alu.1, alu.2, alu.3, alu.4)
        },
        InstructionType::Adc | InstructionType::Sub | InstructionType::Sbc | InstructionType::And
        | InstructionType::Xor | InstructionType::Or | InstructionType::Cp =>
            nb == ob && flags_are(n, Cpu::set_a(regs, alu.0), alu.1, alu.2, alu.3, alu.4),
        InstructionType::Jr => nb == ob && n == (Registers {
            pc: if taken { regs.pc.wrapping_add(sext(u)) } else { regs.pc },
            ..regs
        }),
        InstructionType::Jp => nb == ob && n == (Registers { pc: if taken { old.fetched_data } else { regs.pc }, ..regs }),
        InstructionType::Call | InstructionType::Rst => {
            let target = if t == InstructionType::Rst { inst.param as u16 } else { old.fetched_data };
            if taken || t == InstructionType::Rst {
                n == (Registers { pc: target, sp: regs.sp.wrapping_sub(2), ..regs }) && pushed(ob, nb, regs.sp, regs.pc)
            } else {
                same
            }
        },
        InstructionType::Ret | InstructionType::Reti => if taken || t == InstructionType::Reti {
            nb == ob && n == (Registers { pc: popped(ob, regs.sp), sp: regs.sp.wrapping_add(2), ..regs })
        } else {
            same
        },
        InstructionType::Pop => nb == ob && n == with_reg(
            Registers { sp: regs.sp.wrapping_add(2), ..regs },
            inst.reg1,
            popped(ob, regs.sp),
        ),
        InstructionType::Push => n == (Registers { sp: regs.sp.wrapping_sub(2), ..regs }) && pushed(ob, nb, regs.sp, r1),
        InstructionType::Rlca => nb == ob && flags_are(n, Cpu::set_a(regs, rot8(0, a, cf).0), false, false, false, rot8(0, a, cf).1),
        InstructionType::Rrca => nb == ob && flags_are(n, Cpu::set_a(regs, rot8(1, a, cf).0), false, false, false, rot8(1, a, cf).1),
        InstructionType::Rla => nb == ob && flags_are(n, Cpu::set_a(regs, rot8(2, a, cf).0), false, false, false, rot8(2, a, cf).1),
        InstructionType::Rra => nb == ob && flags_are(n, Cpu::set_a(regs, rot8(3, a, cf).0), false, false, false, rot8(3, a, cf).1),
        InstructionType::Daa => {
            let d = daa_spec(a, regs.nf(), regs.hf(), cf);
            nb == ob && flags_are(n, Cpu::set_a(regs, d.0), d.0 == 0, regs.nf(), false, d.1)
        },
        InstructionType::Cpl => nb == ob && flags_are(n, Cpu::set_a(regs, !a), regs.zf(), true, true, cf),
        InstructionType::Scf => nb == ob && flags_are(n, regs, regs.zf(), false, false, true),
        InstructionType::Ccf => nb == ob && flags_are(n, regs, regs.zf(), false, false, !cf),
        InstructionType::Cb => cb_post(regs, n, ob, nb, u),
        _ => same,
    }
}

/// A register pair or 16-bit register.
pub open spec fn wide_reg(r: RegisterType) -> bool {
    r == RegisterType::Af || r == RegisterType::Bc || r == RegisterType::De || r == RegisterType::Hl
        || r == RegisterType::Sp || r == RegisterType::Pc
}

/// An 8-bit register.
pub open spec fn is_reg8(r: RegisterType) -> bool {
    r == RegisterType::A || r == RegisterType::F || r == RegisterType::B || r == RegisterType::C
        || r == RegisterType::D || r == RegisterType::E || r == RegisterType::H || r == RegisterType::L
}

fn is_reg8_exec(r: RegisterType) -> (b: bool)
    ensures
        b == is_reg8(r),
{
    matches!(r, RegisterType::A | RegisterType::F | RegisterType::B | RegisterType::C | RegisterType::D
        | RegisterType::E | RegisterType::H | RegisterType::L)
}

impl Cpu {
    /// Registers, modes and interrupt state other than the fields named are unchanged.
    pub open spec fn same_control(&self, o: Cpu) -> bool {
        &&& self.halted == o.halted && self.ime == o.ime && self.enabling_ime == o.enabling_ime
        &&& self.int_flags == o.int_flags && self.ie_register == o.ie_register
        &&& self.pending_m_cycles == o.pending_m_cycles
        &&& self.fetched_data == o.fetched_data && self.mem_dest == o.mem_dest
        &&& self.dest_is_mem == o.dest_is_mem && self.cur_opcode == o.cur_opcode
        &&& self.cur_inst == o.cur_inst
    }

    /// A value of the A register written from an ALU result.
    pub open spec fn set_a(r: Registers, v: u8) -> Registers {
        Registers { a: v, ..r }
    }

    fn is_16bit_reg(reg: RegisterType) -> (r: bool)
        ensures
            r == (reg == RegisterType::Af || reg == RegisterType::Bc || reg == RegisterType::De
                || reg == RegisterType::Hl || reg == RegisterType::Sp || reg == RegisterType::Pc),
    {
        matches!(reg, RegisterType::Af | RegisterType::Bc | RegisterType::De | RegisterType::Hl
            | RegisterType::Sp | RegisterType::Pc)
    }

    /// Whether a branch condition holds on the current flags.
    pub fn check_condition(&self, cond: ConditionType) -> (r: bool)
        ensures
            r == self.cond_holds(cond),
    {
        match cond {
            ConditionType::Always => true,
            ConditionType::Z => self.regs.flag_z(),
            ConditionType::Nz => !self.regs.flag_z(),
            ConditionType::C => self.regs.flag_c(),
            ConditionType::Nc => !self.regs.flag_c(),
        }
    }

    fn read_reg8(&self, reg: RegisterType) -> (r: Byte)
        ensures
            r == if is_reg8(reg) { reg_value(self.regs, reg) as u8 } else { 0 },
    {
        match reg {
            RegisterType::A => self.regs.a,
            RegisterType::F => self.regs.f,
            RegisterType::B => self.regs.b,
            RegisterType::C => self.regs.c,
            RegisterType::D => self.regs.d,
            RegisterType::E => self.regs.e,
            RegisterType::H => self.regs.h,
            RegisterType::L => self.regs.l,
            _ => 0,
        }
    }

    fn write_reg8(&mut self, reg: RegisterType, value: Byte)
        requires
            old(self).wf(),
        ensures
            final(self).regs == if is_reg8(reg) { with_reg(old(self).regs, reg, value as u16) } else { old(self).regs },
            final(self).wf(),
            final(self).same_control(*old(self)),
    {
        if is_reg8_exec(reg) {
            self.write_reg(reg, value as Word);
        }
    }

    /// Push a byte: SP is decremented, then the byte is written at SP.
    pub fn stack_push8(&mut self, bus: &mut Bus, value: Byte)
        requires
            old(bus).wf(),
        ensures
            final(self).regs == (Registers { sp: old(self).regs.sp.wrapping_sub(1), ..old(self).regs }),
            Bus::write_post(*old(bus), *final(bus), old(self).regs.sp.wrapping_sub(1), value),
            final(self).same_control(*old(self)),
    {
        self.regs.sp = self.regs.sp.wrapping_sub(1);
        bus.write(self.regs.sp, value);
    }

    /// Pop a byte: read at SP, then SP is incremented.
    pub fn stack_pop8(&mut self, bus: &Bus) -> (r: Byte)
        requires
            bus.wf(),
        ensures
            r == bus.read_spec(old(self).regs.sp),
            final(self).regs == (Registers { sp: old(self).regs.sp.wrapping_add(1), ..old(self).regs }),
            final(self).same_control(*old(self)),
    {
        let value = bus.read(self.regs.sp);
        self.regs.sp = self.regs.sp.wrapping_add(1);
        value
    }

    /// Push a word: high byte first, so the low byte ends up at the new SP.
    pub fn stack_push16(&mut self, bus: &mut Bus, value: Word)
        requires
            old(bus).wf(),
        ensures
            final(self).regs == (Registers { sp: old(self).regs.sp.wrapping_sub(2), ..old(self).regs }),
            exists|mid: Bus|
                Bus::write_post(*old(bus), mid, old(self).regs.sp.wrapping_sub(1), (value / 256) as u8)
                    && #[trigger] Bus::write_post(mid, *final(bus), old(self).regs.sp.wrapping_sub(2), (value % 256) as u8),
            final(self).same_control(*old(self)),
    {
        proof {
            lemma_pair_bits(0, 0, value);
        }
        let hi = ((value >> 8) & 0xFF) as Byte;
        let lo = (value & 0xFF) as Byte;
        self.stack_push8(bus, hi);
        let ghost mid = *bus;
        self.stack_push8(bus, lo);
        proof {
            assert(Bus::write_post(mid, *bus, old(self).regs.sp.wrapping_sub(2), (value % 256) as u8));
        }
    }

    /// Pop a word: low byte first.
    pub fn stack_pop16(&mut self, bus: &Bus) -> (r: Word)
        requires
            bus.wf(),
        ensures
            r == bus.read_spec(old(self).regs.sp) as int + 256 * bus.read_spec(old(self).regs.sp.wrapping_add(1)) as int,
            final(self).regs == (Registers { sp: old(self).regs.sp.wrapping_add(2), ..old(self).regs }),
            final(self).same_control(*old(self)),
    {
        let lo = self.stack_pop8(bus);
        let hi = self.stack_pop8(bus);
        proof {
            lemma_pair_bits(hi, lo, 0);
        }
        ((hi as Word) << 8) | (lo as Word)
    }

    /// Dispatch the highest-priority pending interrupt when IME is set: IME is cleared,
    /// its IF bit is cleared, PC is pushed, PC jumps to the vector, HALT ends and
    /// 5 M-cycles are charged. Returns whether an interrupt was dispatched.
    pub fn handle_interrupts(&mut self, bus: &mut Bus) -> (r: bool)
        requires
            old(bus).wf(),
            old(self).wf(),
        ensures
            final(self).wf(),
            final(bus).wf(),
            r == (old(self).ime && pending_mask(old(self).int_flags, old(self).ie_register) != 0),
            !r ==> *final(self) == *old(self) && *final(bus) == *old(bus),
            r ==> ({
                let t = highest_pending(pending_mask(old(self).int_flags, old(self).ie_register)).unwrap();
                &&& !final(self).ime && !final(self).halted
                &&& final(self).int_flags == old(self).int_flags & !t.bit_spec()
                &&& final(self).regs == (Registers {
                    pc: t.vector_spec(),
                    sp: old(self).regs.sp.wrapping_sub(2),
                    ..old(self).regs
                })
                &&& exists|mid: Bus|
                    Bus::write_post(*old(bus), mid, old(self).regs.sp.wrapping_sub(1), (old(self).regs.pc / 256) as u8)
                        && #[trigger] Bus::write_post(mid, *final(bus), old(self).regs.sp.wrapping_sub(2), (old(self).regs.pc % 256) as u8)
                &&& final(self).pending_m_cycles == if old(self).pending_m_cycles + 5 > u32::MAX {
                    u32::MAX as int
                } else {
                    old(self).pending_m_cycles + 5
                }
            }),
    {
        if !self.ime || !self.interrupts_pending() {
            return false;
        }
        match self.get_pending_interrupt() {
            Some(interrupt) => {
                self.ime = false;
                self.clear_interrupt(interrupt);
                let pc = self.regs.pc;
                self.stack_push16(bus, pc);
                self.regs.pc = interrupt.vector();
                self.halted = false;
                self.add_m_cycles(5);
                true
            },
            None => false,
        }
    }
}


fn alu_op(t: InstructionType, a: u8, u: u8, c: bool) -> (r: (u8, bool, bool, bool, bool))
    ensures
        r == alu8(t, a, u, c),
{
    let ci: u8 = if c { 1 } else { 0 };
    match t {
        InstructionType::Add => {
            let r = a.wrapping_add(u);
            (r, r == 0, false, (a & 0xF) as u16 + (u & 0xF) as u16 > 0xF, a as u16 + u as u16 > 0xFF)
        },
        InstructionType::Adc => {
            let r = a.wrapping_add(u).wrapping_add(ci);
            (r, r == 0, false, (a & 0xF) as u16 + (u & 0xF) as u16 + ci as u16 > 0xF,
                a as u16 + u as u16 + ci as u16 > 0xFF)
        },
        InstructionType::Sub => {
            let r = a.wrapping_sub(u);
            (r, r == 0, true, (a & 0xF) < (u & 0xF), a < u)
        },
        InstructionType::Sbc => {
            let r = a.wrapping_sub(u).wrapping_sub(ci);
            (r, r == 0, true, ((a & 0xF) as u16) < (u & 0xF) as u16 + ci as u16, (a as u16) < u as u16 + ci as u16)
        },
        InstructionType::And => (a & u, a & u == 0, false, true, false),
        InstructionType::Xor => (a ^ u, a ^ u == 0, false, false, false),
        InstructionType::Or => (a | u, a | u == 0, false, false, false),
        _ => (a, a == u, true, (a & 0xF) < (u & 0xF), a < u),
    }
}

fn rot_op(y: u8, v: u8, c: bool) -> (r: (u8, bool))
    ensures
        r == rot8(y, v, c),
{
    let ci: u8 = if c { 1 } else { 0 };
    match y {
        0 => ((v << 1u8) | (v >> 7u8), v & 0x80 != 0),
        1 => ((v >> 1u8) | (v << 7u8), v & 1 != 0),
        2 => ((v << 1u8) | ci, v & 0x80 != 0),
        3 => ((v >> 1u8) | (ci << 7u8), v & 1 != 0),
        4 => (v << 1u8, v & 0x80 != 0),
        5 => ((v >> 1u8) | (v & 0x80), v & 1 != 0),
        6 => ((v << 4u8) | (v >> 4u8), false),
        _ => (v >> 1u8, v & 1 != 0),
    }
}

fn sign_extend(b: u8) -> (r: u16)
    ensures
        r == sext(b),
{
    if b < 128 {
        b as u16
    } else {
        b as u16 + 0xFF00
    }
}

impl Cpu {
    fn set_a_flags(&mut self, v: u8, z: bool, n: bool, h: bool, c: bool)
        requires
            old(self).wf(),
        ensures
            flags_are(final(self).regs, Cpu::set_a(old(self).regs, v), z, n, h, c),
            final(self).same_control(*old(self)),
    {
        self.regs.a = v;
        self.regs.set_flags(z, n, h, c);
    }

    /// Execute the current instruction with the operands that fetch resolved, and charge
    /// its published M-cycle cost.
    pub fn execute(&mut self, bus: &mut Bus)
        requires
            old(self).wf(),
            old(bus).wf(),
            old(self).cur_inst matches Some(i) ==> i.inst_type != InstructionType::Undefined,
        ensures
            final(self).wf(),
            final(bus).wf(),
            old(self).cur_inst matches Some(inst) ==> {
                &&& exec_post(*old(self), *final(self), *old(bus), *final(bus), inst)
                &&& final(self).pending_m_cycles == if old(self).pending_m_cycles + m_cycles(
                    old(self).cur_opcode,
                    old(self).fetched_data as u8,
                    old(self).cond_holds(inst.cond),
                ) > u32::MAX {
                    u32::MAX as int
                } else {
                    old(self).pending_m_cycles + m_cycles(
                        old(self).cur_opcode,
                        old(self).fetched_data as u8,
                        old(self).cond_holds(inst.cond),
                    )
                }
            },
            old(self).cur_inst is None ==> *final(self) == *old(self) && *final(bus) == *old(bus),
    {
        let inst = match self.current_instruction() {
            Some(i) => i,
            None => return,
        };
        let taken = self.check_condition(inst.cond);
        let cycles = instruction_m_cycles(self.cur_opcode, self.fetched_data as u8, taken);
        match inst.inst_type {
            InstructionType::Ld => self.proc_ld(bus, inst),
            InstructionType::Ldh => self.proc_ldh(bus, inst),
            InstructionType::Inc => self.proc_inc(bus, inst),
            InstructionType::Dec => self.proc_dec(bus, inst),
            InstructionType::Add => self.proc_add(bus, inst),
            InstructionType::Adc => self.proc_adc(bus, inst),
            InstructionType::Sub => self.proc_sub(bus, inst),
            InstructionType::Sbc => self.proc_sbc(bus, inst),
            InstructionType::And => self.proc_and(bus, inst),
            InstructionType::Xor => self.proc_xor(bus, inst),
            InstructionType::Or => self.proc_or(bus, inst),
            InstructionType::Cp => self.proc_cp(bus, inst),
            InstructionType::Jr => self.proc_jr(bus, inst),
            InstructionType::Jp => self.proc_jp(bus, inst),
            InstructionType::Call => self.proc_call(bus, inst),
            InstructionType::Ret => self.proc_ret(bus, inst),
            InstructionType::Reti => self.proc_reti(bus, inst),
            InstructionType::Rst => self.proc_rst(bus, inst),
            InstructionType::Pop => self.proc_pop(bus, inst),
            InstructionType::Push => self.proc_push(bus, inst),
            InstructionType::Rlca => self.proc_rlca(bus, inst),
            InstructionType::Rrca => self.proc_rrca(bus, inst),
            InstructionType::Rla => self.proc_rla(bus, inst),
            InstructionType::Rra => self.proc_rra(bus, inst),
            InstructionType::Halt => self.proc_halt(),
            InstructionType::Daa => self.proc_daa(bus, inst),
            InstructionType::Cpl => self.proc_cpl(bus, inst),
            InstructionType::Scf => self.proc_scf(bus, inst),
            InstructionType::Ccf => self.proc_ccf(bus, inst),
            InstructionType::Di => self.proc_di(),
            InstructionType::Ei => self.proc_ei(),
            InstructionType::Cb => self.proc_cb(bus, inst),
            _ => {},
        }
        self.add_m_cycles(cycles);
    }

    fn proc_ld(&mut self, bus: &mut Bus, inst: Instruction)
        requires
            old(self).wf(),
            old(bus).wf(),
            old(self).cur_inst == Some(inst),
            inst.inst_type == InstructionType::Ld,
        ensures
            exec_post(*old(self), *final(self), *old(bus), *final(bus), inst),
            final(bus).wf(),
            final(self).pending_m_cycles == old(self).pending_m_cycles,
    {
        if self.dest_is_mem {
            if Self::is_16bit_reg(inst.reg2) {
                bus.write16(self.mem_dest, self.fetched_data);
            } else {
                bus.write(self.mem_dest, self.fetched_data as Byte);
            }
            return;
        }
        if inst.mode == AddressingMode::HlSpr {
            let r2 = self.read_reg(inst.reg2);
            let e = self.fetched_data as u8;
            proof {
                lemma_mask_bounds(r2, e);
            }
            let h = (r2 & 0xF) + (e & 0xF) as u16 >= 0x10;
            let c = (r2 & 0xFF) + e as u16 >= 0x100;
            let v = r2.wrapping_add(sign_extend(e));
            self.write_reg(inst.reg1, v);
            self.regs.set_flags(false, false, h, c);
            return;
        }
        self.write_reg(inst.reg1, self.fetched_data);
    }

    fn proc_ldh(&mut self, bus: &mut Bus, inst: Instruction)
        requires
            old(self).wf(),
            old(bus).wf(),
            old(self).cur_inst == Some(inst),
            inst.inst_type == InstructionType::Ldh,
        ensures
            exec_post(*old(self), *final(self), *old(bus), *final(bus), inst),
            final(bus).wf(),
            final(self).pending_m_cycles == old(self).pending_m_cycles,
    {
        if inst.reg1 == RegisterType::A {
            self.regs.a = bus.read(0xFF00 + (self.fetched_data as u8) as Word);
        } else {
            bus.write(self.mem_dest, self.regs.a);
        }
    }

    fn proc_inc(&mut self, bus: &mut Bus, inst: Instruction)
        requires
            old(self).wf(),
            old(bus).wf(),
            old(self).cur_inst == Some(inst),
            inst.inst_type == InstructionType::Inc,
        ensures
            exec_post(*old(self), *final(self), *old(bus), *final(bus), inst),
            final(bus).wf(),
            final(self).pending_m_cycles == old(self).pending_m_cycles,
    {
        self.inc_dec(bus, inst, true);
    }

    fn proc_dec(&mut self, bus: &mut Bus, inst: Instruction)
        requires
            old(self).wf(),
            old(bus).wf(),
            old(self).cur_inst == Some(inst),
            inst.inst_type == InstructionType::Dec,
        ensures
            exec_post(*old(self), *final(self), *old(bus), *final(bus), inst),
            final(bus).wf(),
            final(self).pending_m_cycles == old(self).pending_m_cycles,
    {
        self.inc_dec(bus, inst, false);
    }

    fn inc_dec(&mut self, bus: &mut Bus, inst: Instruction, inc: bool)
        requires
            old(self).wf(),
            old(bus).wf(),
            old(self).cur_inst == Some(inst),
            inst.inst_type == (if inc { InstructionType::Inc } else { InstructionType::Dec }),
        ensures
            exec_post(*old(self), *final(self), *old(bus), *final(bus), inst),
            final(bus).wf(),
            final(self).pending_m_cycles == old(self).pending_m_cycles,
    {
        let r1 = self.read_reg(inst.reg1);
        if Self::is_16bit_reg(inst.reg1) {
            let v = if inc { r1.wrapping_add(1) } else { r1.wrapping_sub(1) };
            self.write_reg(inst.reg1, v);
            return;
        }
        let v: u8 = if inst.mode == AddressingMode::MemoryRegisterOnly {
            self.fetched_data as u8
        } else {
            r1 as u8
        };
        let r = if inc { v.wrapping_add(1) } else { v.wrapping_sub(1) };
        let h = if inc { r & 0x0F == 0 } else { r & 0x0F == 0x0F };
        let c = self.regs.flag_c();
        if inst.mode == AddressingMode::MemoryRegisterOnly {
            bus.write(self.mem_dest, r);
        } else {
            self.write_reg(inst.reg1, r as Word);
        }
        self.regs.set_flags(r == 0, !inc, h, c);
    }

    fn proc_add(&mut self, bus: &Bus, inst: Instruction)
        requires
            old(self).wf(),
            bus.wf(),
            old(self).cur_inst == Some(inst),
            inst.inst_type == InstructionType::Add,
        ensures
            exec_post(*old(self), *final(self), *bus, *bus, inst),
            final(self).pending_m_cycles == old(self).pending_m_cycles,
    {
        if inst.reg1 == RegisterType::Hl {
            let hl = self.regs.hl();
            let v = self.fetched_data;
            proof {
                lemma_mask_bounds(hl, 0);
                lemma_mask_bounds(v, 0);
            }
            let h = (hl & 0xFFF) + (v & 0xFFF) >= 0x1000;
            let c = hl as u32 + v as u32 >= 0x10000;
            let z = self.regs.flag_z();
            self.write_reg(RegisterType::Hl, hl.wrapping_add(v));
            self.regs.set_flags(z, false, h, c);
        } else if inst.reg1 == RegisterType::Sp {
            let sp = self.regs.sp;
            let e = self.fetched_data as u8;
            proof {
                lemma_mask_bounds(sp, e);
            }
            let h = (sp & 0xF) + (e & 0xF) as u16 >= 0x10;
            let c = (sp & 0xFF) + e as u16 >= 0x100;
            self.regs.sp = sp.wrapping_add(sign_extend(e));
            self.regs.set_flags(false, false, h, c);
        } else {
            let r = alu_op(InstructionType::Add, self.regs.a, self.fetched_data as u8, self.regs.flag_c());
            self.set_a_flags(r.0, r.1, r.2, r.3, r.4);
        }
    }

    fn alu_a(&mut self, t: InstructionType)
        requires
            old(self).wf(),
        ensures
            ({
                let r = alu8(t, old(self).regs.a, old(self).fetched_data as u8, old(self).regs.cf());
                flags_are(final(self).regs, Cpu::set_a(old(self).regs, r.0), r.1, r.2, r.3, r.4)
            }),
            final(self).same_control(*old(self)),
    {
        let r = alu_op(t, self.regs.a, self.fetched_data as u8, self.regs.flag_c());
        self.set_a_flags(r.0, r.1, r.2, r.3, r.4);
    }

    fn proc_adc(&mut self, bus: &Bus, inst: Instruction)
        requires
            old(self).wf(),
            bus.wf(),
            old(self).cur_inst == Some(inst),
            inst.inst_type == InstructionType::Adc,
        ensures
            exec_post(*old(self), *final(self), *bus, *bus, inst),
            final(self).pending_m_cycles == old(self).pending_m_cycles,
    {
        self.alu_a(InstructionType::Adc);
    }

    fn proc_sub(&mut self, bus: &Bus, inst: Instruction)
        requires
            old(self).wf(),
            bus.wf(),
            old(self).cur_inst == Some(inst),
            inst.inst_type == InstructionType::Sub,
        ensures
            exec_post(*old(self), *final(self), *bus, *bus, inst),
            final(self).pending_m_cycles == old(self).pending_m_cycles,
    {
        self.alu_a(InstructionType::Sub);
    }

    fn proc_sbc(&mut self, bus: &Bus, inst: Instruction)
        requires
            old(self).wf(),
            bus.wf(),
            old(self).cur_inst == Some(inst),
            inst.inst_type == InstructionType::Sbc,
        ensures
            exec_post(*old(self), *final(self), *bus, *bus, inst),
            final(self).pending_m_cycles == old(self).pending_m_cycles,
    {
        self.alu_a(InstructionType::Sbc);
    }

    fn proc_and(&mut self, bus: &Bus, inst: Instruction)
        requires
            old(self).wf(),
            bus.wf(),
            old(self).cur_inst == Some(inst),
            inst.inst_type == InstructionType::And,
        ensures
            exec_post(*old(self), *final(self), *bus, *bus, inst),
            final(self).pending_m_cycles == old(self).pending_m_cycles,
    {
        self.alu_a(InstructionType::And);
    }

    fn proc_xor(&mut self, bus: &Bus, inst: Instruction)
        requires
            old(self).wf(),
            bus.wf(),
            old(self).cur_inst == Some(inst),
            inst.inst_type == InstructionType::Xor,
        ensures
            exec_post(*old(self), *final(self), *bus, *bus, inst),
            final(self).pending_m_cycles == old(self).pending_m_cycles,
    {
        self.alu_a(InstructionType::Xor);
    }

    fn proc_or(&mut self, bus: &Bus, inst: Instruction)
        requires
            old(self).wf(),
            bus.wf(),
            old(self).cur_inst == Some(inst),
            inst.inst_type == InstructionType::Or,
        ensures
            exec_post(*old(self), *final(self), *bus, *bus, inst),
            final(self).pending_m_cycles == old(self).pending_m_cycles,
    {
        self.alu_a(InstructionType::Or);
    }

    fn proc_cp(&mut self, bus: &Bus, inst: Instruction)
        requires
            old(self).wf(),
            bus.wf(),
            old(self).cur_inst == Some(inst),
            inst.inst_type == InstructionType::Cp,
        ensures
            exec_post(*old(self), *final(self), *bus, *bus, inst),
            final(self).pending_m_cycles == old(self).pending_m_cycles,
    {
        self.alu_a(InstructionType::Cp);
    }

    fn proc_jr(&mut self, bus: &Bus, inst: Instruction)
        requires
            old(self).wf(),
            bus.wf(),
            old(self).cur_inst == Some(inst),
            inst.inst_type == InstructionType::Jr,
        ensures
            exec_post(*old(self), *final(self), *bus, *bus, inst),
            final(self).pending_m_cycles == old(self).pending_m_cycles,
    {
        let addr = self.regs.pc.wrapping_add(sign_extend(self.fetched_data as u8));
        self.jump_to_if(addr, inst.cond);
    }

    fn proc_jp(&mut self, bus: &Bus, inst: Instruction)
        requires
            old(self).wf(),
            bus.wf(),
            old(self).cur_inst == Some(inst),
            inst.inst_type == InstructionType::Jp,
        ensures
            exec_post(*old(self), *final(self), *bus, *bus, inst),
            final(self).pending_m_cycles == old(self).pending_m_cycles,
    {
        self.jump_to_if(self.fetched_data, inst.cond);
    }

    fn jump_to_if(&mut self, addr: Word, cond: ConditionType)
        ensures
            final(self).regs == (Registers {
                pc: if old(self).cond_holds(cond) { addr } else { old(self).regs.pc },
                ..old(self).regs
            }),
            final(self).same_control(*old(self)),
    {
        if self.check_condition(cond) {
            self.regs.pc = addr;
        }
    }

    fn proc_call(&mut self, bus: &mut Bus, inst: Instruction)
        requires
            old(self).wf(),
            old(bus).wf(),
            old(self).cur_inst == Some(inst),
            inst.inst_type == InstructionType::Call,
        ensures
            exec_post(*old(self), *final(self), *old(bus), *final(bus), inst),
            final(bus).wf(),
            final(self).pending_m_cycles == old(self).pending_m_cycles,
    {
        if self.check_condition(inst.cond) {
            let pc = self.regs.pc;
            self.stack_push16(bus, pc);
            self.regs.pc = self.fetched_data;
        }
    }

    fn proc_ret(&mut self, bus: &Bus, inst: Instruction)
        requires
            old(self).wf(),
            bus.wf(),
            old(self).cur_inst == Some(inst),
            inst.inst_type == InstructionType::Ret,
        ensures
            exec_post(*old(self), *final(self), *bus, *bus, inst),
            final(self).pending_m_cycles == old(self).pending_m_cycles,
    {
        if self.check_condition(inst.cond) {
            self.regs.pc = self.stack_pop16(bus);
        }
    }

    fn proc_reti(&mut self, bus: &Bus, inst: Instruction)
        requires
            old(self).wf(),
            bus.wf(),
            old(self).cur_inst == Some(inst),
            inst.inst_type == InstructionType::Reti,
        ensures
            exec_post(*old(self), *final(self), *bus, *bus, inst),
            final(self).pending_m_cycles == old(self).pending_m_cycles,
    {
        self.ime = true;
        self.regs.pc = self.stack_pop16(bus);
    }

    fn proc_rst(&mut self, bus: &mut Bus, inst: Instruction)
        requires
            old(self).wf(),
            old(bus).wf(),
            old(self).cur_inst == Some(inst),
            inst.inst_type == InstructionType::Rst,
        ensures
            exec_post(*old(self), *final(self), *old(bus), *final(bus), inst),
            final(bus).wf(),
            final(self).pending_m_cycles == old(self).pending_m_cycles,
    {
        let pc = self.regs.pc;
        self.stack_push16(bus, pc);
        self.regs.pc = inst.param as Word;
    }

    fn proc_pop(&mut self, bus: &Bus, inst: Instruction)
        requires
            old(self).wf(),
            bus.wf(),
            old(self).cur_inst == Some(inst),
            inst.inst_type == InstructionType::Pop,
        ensures
            exec_post(*old(self), *final(self), *bus, *bus, inst),
            final(self).pending_m_cycles == old(self).pending_m_cycles,
    {
        let val = self.stack_pop16(bus);
        self.write_reg(inst.reg1, val);
    }

    fn proc_push(&mut self, bus: &mut Bus, inst: Instruction)
        requires
            old(self).wf(),
            old(bus).wf(),
            old(self).cur_inst == Some(inst),
            inst.inst_type == InstructionType::Push,
        ensures
            exec_post(*old(self), *final(self), *old(bus), *final(bus), inst),
            final(bus).wf(),
            final(self).pending_m_cycles == old(self).pending_m_cycles,
    {
        let val = self.read_reg(inst.reg1);
        self.stack_push16(bus, val);
    }

    fn rotate_a(&mut self, y: u8)
        requires
            old(self).wf(),
        ensures
            ({
                let r = rot8(y, old(self).regs.a, old(self).regs.cf());
                flags_are(final(self).regs, Cpu::set_a(old(self).regs, r.0), false, false, false, r.1)
            }),
            final(self).same_control(*old(self)),
    {
        let r = rot_op(y, self.regs.a, self.regs.flag_c());
        self.set_a_flags(r.0, false, false, false, r.1);
    }

    fn proc_rlca(&mut self, bus: &Bus, inst: Instruction)
        requires
            old(self).wf(),
            bus.wf(),
            old(self).cur_inst == Some(inst),
            inst.inst_type == InstructionType::Rlca,
        ensures
            exec_post(*old(self), *final(self), *bus, *bus, inst),
            final(self).pending_m_cycles == old(self).pending_m_cycles,
    {
        self.rotate_a(0);
    }

    fn proc_rrca(&mut self, bus: &Bus, inst: Instruction)
        requires
            old(self).wf(),
            bus.wf(),
            old(self).cur_inst == Some(inst),
            inst.inst_type == InstructionType::Rrca,
        ensures
            exec_post(*old(self), *final(self), *bus, *bus, inst),
            final(self).pending_m_cycles == old(self).pending_m_cycles,
    {
        self.rotate_a(1);
    }

    fn proc_rla(&mut self, bus: &Bus, inst: Instruction)
        requires
            old(self).wf(),
            bus.wf(),
            old(self).cur_inst == Some(inst),
            inst.inst_type == InstructionType::Rla,
        ensures
            exec_post(*old(self), *final(self), *bus, *bus, inst),
            final(self).pending_m_cycles == old(self).pending_m_cycles,
    {
        self.rotate_a(2);
    }

    fn proc_rra(&mut self, bus: &Bus, inst: Instruction)
        requires
            old(self).wf(),
            bus.wf(),
            old(self).cur_inst == Some(inst),
            inst.inst_type == InstructionType::Rra,
        ensures
            exec_post(*old(self), *final(self), *bus, *bus, inst),
            final(self).pending_m_cycles == old(self).pending_m_cycles,
    {
        self.rotate_a(3);
    }

    fn proc_halt(&mut self)
        ensures
            final(self).halted,
            final(self).regs == old(self).regs,
            final(self).ime == old(self).ime && final(self).enabling_ime == old(self).enabling_ime,
            final(self).int_flags == old(self).int_flags && final(self).ie_register == old(self).ie_register,
            final(self).cur_inst == old(self).cur_inst && final(self).cur_opcode == old(self).cur_opcode,
            final(self).pending_m_cycles == old(self).pending_m_cycles,
            final(self).fetched_data == old(self).fetched_data,
    {
        self.halted = true;
    }

    fn proc_daa(&mut self, bus: &Bus, inst: Instruction)
        requires
            old(self).wf(),
            bus.wf(),
            old(self).cur_inst == Some(inst),
            inst.inst_type == InstructionType::Daa,
        ensures
            exec_post(*old(self), *final(self), *bus, *bus, inst),
            final(self).pending_m_cycles == old(self).pending_m_cycles,
    {
        let a = self.regs.a;
        let n = self.regs.flag_n();
        let mut adj: u8 = 0;
        let mut fc = false;
        if self.regs.flag_h() || (!n && (a & 0xF) > 9) {
            adj = 6;
        }
        if self.regs.flag_c() || (!n && a > 0x99) {
            adj = adj | 0x60;
            fc = true;
        }
        let r = if n { a.wrapping_sub(adj) } else { a.wrapping_add(adj) };
        self.set_a_flags(r, r == 0, n, false, fc);
    }

    fn proc_cpl(&mut self, bus: &Bus, inst: Instruction)
        requires
            old(self).wf(),
            bus.wf(),
            old(self).cur_inst == Some(inst),
            inst.inst_type == InstructionType::Cpl,
        ensures
            exec_post(*old(self), *final(self), *bus, *bus, inst),
            final(self).pending_m_cycles == old(self).pending_m_cycles,
    {
        let z = self.regs.flag_z();
        let c = self.regs.flag_c();
        self.set_a_flags(!self.regs.a, z, true, true, c);
    }

    fn proc_scf(&mut self, bus: &Bus, inst: Instruction)
        requires
            old(self).wf(),
            bus.wf(),
            old(self).cur_inst == Some(inst),
            inst.inst_type == InstructionType::Scf,
        ensures
            exec_post(*old(self), *final(self), *bus, *bus, inst),
            final(self).pending_m_cycles == old(self).pending_m_cycles,
    {
        self.regs.set_flag_n(false);
        self.regs.set_flag_h(false);
        self.regs.set_flag_c(true);
    }

    fn proc_ccf(&mut self, bus: &Bus, inst: Instruction)
        requires
            old(self).wf(),
            bus.wf(),
            old(self).cur_inst == Some(inst),
            inst.inst_type == InstructionType::Ccf,
        ensures
            exec_post(*old(self), *final(self), *bus, *bus, inst),
            final(self).pending_m_cycles == old(self).pending_m_cycles,
    {
        let c = self.regs.flag_c();
        self.regs.set_flag_n(false);
        self.regs.set_flag_h(false);
        self.regs.set_flag_c(!c);
    }

    fn proc_di(&mut self)
        ensures
            !final(self).ime,
            final(self).regs == old(self).regs,
            final(self).halted == old(self).halted && final(self).enabling_ime == old(self).enabling_ime,
            final(self).int_flags == old(self).int_flags && final(self).ie_register == old(self).ie_register,
            final(self).cur_inst == old(self).cur_inst && final(self).cur_opcode == old(self).cur_opcode,
            final(self).pending_m_cycles == old(self).pending_m_cycles,
            final(self).fetched_data == old(self).fetched_data,
    {
        self.ime = false;
    }

    fn proc_ei(&mut self)
        ensures
            final(self).enabling_ime,
            final(self).regs == old(self).regs,
            final(self).halted == old(self).halted && final(self).ime == old(self).ime,
            final(self).int_flags == old(self).int_flags && final(self).ie_register == old(self).ie_register,
            final(self).cur_inst == old(self).cur_inst && final(self).cur_opcode == old(self).cur_opcode,
            final(self).pending_m_cycles == old(self).pending_m_cycles,
            final(self).fetched_data == old(self).fetched_data,
    {
        self.enabling_ime = true;
    }

    fn proc_cb(&mut self, bus: &mut Bus, inst: Instruction)
        requires
            old(self).wf(),
            old(bus).wf(),
            old(self).cur_inst == Some(inst),
            inst.inst_type == InstructionType::Cb,
        ensures
            exec_post(*old(self), *final(self), *old(bus), *final(bus), inst),
            final(bus).wf(),
            final(self).pending_m_cycles == old(self).pending_m_cycles,
    {
        let op = self.fetched_data as Byte;
        proof {
            lemma_mask_bounds(0, op);
        }
        let kind = op >> 6;
        let y = (op >> 3) & 7;
        let z = op & 7;
        let reg = super::instructions::r8(z);
        let hl = self.regs.hl();
        let v = if z == 6 {
            bus.read(hl)
        } else {
            self.read_reg8(reg)
        };
        if kind == 1 {
            let c = self.regs.flag_c();
            self.regs.set_flags((v & (1u8 << y)) == 0, false, true, c);
            return;
        }
        let c = self.regs.flag_c();
        let (res, carry) = if kind == 2 {
            (v & !(1u8 << y), false)
        } else if kind == 3 {
            (v | (1u8 << y), false)
        } else {
            rot_op(y, v, c)
        };
        self.write_cb_result(bus, reg, z, hl, res);
        if kind == 0 {
            self.regs.set_flags(res == 0, false, false, carry);
        }
    }

    fn write_cb_result(&mut self, bus: &mut Bus, reg: RegisterType, z: u8, hl: Word, value: Byte)
        requires
            old(self).wf(),
            old(bus).wf(),
            z < 8,
            reg == r8_spec(z),
        ensures
            final(self).wf(),
            final(bus).wf(),
            z == 6 ==> Bus::write_post(*old(bus), *final(bus), hl, value) && final(self).regs == old(self).regs,
            z != 6 ==> *final(bus) == *old(bus) && final(self).regs == with_reg(old(self).regs, reg, value as u16),
            final(self).same_control(*old(self)),
    {
        if z == 6 {
            bus.write(hl, value);
        } else {
            self.write_reg8(reg, value);
        }
    }
}

/// BIT b,r: after the instruction N is clear, H is set, C is unchanged and Z is set
/// exactly when bit b of the operand is clear; the operand itself is unchanged.
pub proof fn lemma_bit_instruction(old: Cpu, new: Cpu, ob: Bus, nb: Bus, inst: Instruction)
    requires
        exec_post(old, new, ob, nb, inst),
        inst.inst_type == InstructionType::Cb,
        (old.fetched_data as u8) >> 6u8 == 1,
    ensures
        ({
            let op = old.fetched_data as u8;
            let y = (op >> 3u8) & 7;
            let z = op & 7;
            let v: u8 = if z == 6 { ob.read_spec(pair(old.regs.h, old.regs.l)) } else { reg_value(old.regs, r8_spec(z)) as u8 };
            &&& !new.regs.nf()
            &&& new.regs.hf()
            &&& new.regs.cf() == old.regs.cf()
            &&& new.regs.zf() == !bit_of(v, y)
            &&& new.regs.same_but_f(old.regs)
            &&& nb == ob
        }),
{
}

/// Every write to F, through F itself, AF or an instruction, leaves its low nibble zero.
pub proof fn lemma_f_low_nibble(regs: Registers, v: u16, old: Cpu, new: Cpu, ob: Bus, nb: Bus, inst: Instruction)
    requires
        exec_post(old, new, ob, nb, inst),
    ensures
        with_reg(regs, RegisterType::F, v).f & 0x0F == 0,
        with_reg(regs, RegisterType::Af, v).f & 0x0F == 0,
        new.regs.f & 0x0F == 0,
{
    lemma_pair_bits(0, 0, v);
}

} // verus!
