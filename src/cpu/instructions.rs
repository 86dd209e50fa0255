//! Instruction descriptors and the primary and 0xCB-prefixed decode tables.

use vstd::prelude::*;
use crate::common::Byte;

verus! {

/// CPU instruction kinds.
#[derive(Debug, Clone, Copy, PartialEq, Eq, Structural)]
pub enum InstructionType {
    Undefined,
    Nop,
    Ld,
    Inc,
    Dec,
    Rlca,
    Add,
    Rrca,
    Stop,
    Rla,
    Jr,
    Rra,
    Daa,
    Cpl,
    Scf,
    Ccf,
    Halt,
    Adc,
    Sub,
    Sbc,
    And,
    Xor,
    Or,
    Cp,
    Pop,
    Jp,
    Push,
    Ret,
    Cb,
    Call,
    Reti,
    Ldh,
    Di,
    Ei,
    Rst,
    Rlc,
    Rrc,
    Rl,
    Rr,
    Sla,
    Sra,
    Swap,
    Srl,
    Bit,
    Res,
    SetBit,
}

/// Addressing modes for instructions.
#[derive(Debug, Clone, Copy, PartialEq, Eq, Structural)]
pub enum AddressingMode {
    Implied,
    Register,
    RegisterRegister,
    MemoryRegister,
    RegisterMemory,
    RegisterD8,
    RegisterD16,
    RegisterA8,
    RegisterA16,
    A8Register,
    A16Register,
    MemoryRegisterD8,
    HliRegister,
    HldRegister,
    RegisterHli,
    RegisterHld,
    HlSpr,
    D8,
    D16,
    MemoryRegisterOnly,
}

/// Register designators.
#[derive(Debug, Clone, Copy, PartialEq, Eq, Structural)]
pub enum RegisterType {
    Unused,
    A,
    F,
    B,
    C,
    D,
    E,
    H,
    L,
    Af,
    Bc,
    De,
    Hl,
    Sp,
    Pc,
}

/// Branch conditions.
#[derive(Debug, Clone, Copy, PartialEq, Eq, Structural)]
pub enum ConditionType {
    Always,
    Nz,
    Z,
    Nc,
    C,
}

/// One decoded instruction.
#[derive(Debug, Clone, Copy, PartialEq, Eq, Structural)]
pub struct Instruction {
    pub inst_type: InstructionType,
    pub mode: AddressingMode,
    pub reg1: RegisterType,
    pub reg2: RegisterType,
    pub cond: ConditionType,
    pub param: Byte,
}

/// The descriptor with the given fields.
pub open spec fn inst(
    t: InstructionType,
    m: AddressingMode,
    r1: RegisterType,
    r2: RegisterType,
    c: ConditionType,
    p: u8,
) -> Instruction {
    Instruction { inst_type: t, mode: m, reg1: r1, reg2: r2, cond: c, param: p }
}

/// The 8-bit operand named by a 3-bit field (6 names (HL), written here as HL).
pub open spec fn r8_spec(i: u8) -> RegisterType {
    if i == 0 {
        RegisterType::B
    } else if i == 1 {
        RegisterType::C
    } else if i == 2 {
        RegisterType::D
    } else if i == 3 {
        RegisterType::E
    } else if i == 4 {
        RegisterType::H
    } else if i == 5 {
        RegisterType::L
    } else if i == 6 {
        RegisterType::Hl
    } else {
        RegisterType::A
    }
}

/// The register pair named by a 2-bit field (BC, DE, HL, SP).
pub open spec fn rr_spec(i: u8) -> RegisterType {
    if i == 0 {
        RegisterType::Bc
    } else if i == 1 {
        RegisterType::De
    } else if i == 2 {
        RegisterType::Hl
    } else {
        RegisterType::Sp
    }
}

/// The ALU operation named by a 3-bit field.
pub open spec fn alu_spec(i: u8) -> InstructionType {
    if i == 0 {
        InstructionType::Add
    } else if i == 1 {
        InstructionType::Adc
    } else if i == 2 {
        InstructionType::Sub
    } else if i == 3 {
        InstructionType::Sbc
    } else if i == 4 {
        InstructionType::And
    } else if i == 5 {
        InstructionType::Xor
    } else if i == 6 {
        InstructionType::Or
    } else {
        InstructionType::Cp
    }
}

/// The rotate or shift named by a 3-bit field of a 0xCB opcode.
pub open spec fn rot_spec(i: u8) -> InstructionType {
    if i == 0 {
        InstructionType::Rlc
    } else if i == 1 {
        InstructionType::Rrc
    } else if i == 2 {
        InstructionType::Rl
    } else if i == 3 {
        InstructionType::Rr
    } else if i == 4 {
        InstructionType::Sla
    } else if i == 5 {
        InstructionType::Sra
    } else if i == 6 {
        InstructionType::Swap
    } else {
        InstructionType::Srl
    }
}

pub(crate) fn r8(i: u8) -> (r: RegisterType)
    ensures
        r == r8_spec(i),
{
    match i {
        0 => RegisterType::B,
        1 => RegisterType::C,
        2 => RegisterType::D,
        3 => RegisterType::E,
        4 => RegisterType::H,
        5 => RegisterType::L,
        6 => RegisterType::Hl,
        _ => RegisterType::A,
    }
}

fn rr(i: u8) -> (r: RegisterType)
    ensures
        r == rr_spec(i),
{
    match i {
        0 => RegisterType::Bc,
        1 => RegisterType::De,
        2 => RegisterType::Hl,
        _ => RegisterType::Sp,
    }
}

fn alu(i: u8) -> (r: InstructionType)
    ensures
        r == alu_spec(i),
{
    match i {
        0 => InstructionType::Add,
        1 => InstructionType::Adc,
        2 => InstructionType::Sub,
        3 => InstructionType::Sbc,
        4 => InstructionType::And,
        5 => InstructionType::Xor,
        6 => InstructionType::Or,
        _ => InstructionType::Cp,
    }
}

fn rot(i: u8) -> (r: InstructionType)
    ensures
        r == rot_spec(i),
{
    match i {
        0 => InstructionType::Rlc,
        1 => InstructionType::Rrc,
        2 => InstructionType::Rl,
        3 => InstructionType::Rr,
        4 => InstructionType::Sla,
        5 => InstructionType::Sra,
        6 => InstructionType::Swap,
        _ => InstructionType::Srl,
    }
}

fn mk(
    t: InstructionType,
    m: AddressingMode,
    r1: RegisterType,
    r2: RegisterType,
    c: ConditionType,
    p: u8,
) -> (r: Instruction)
    ensures
        r == inst(t, m, r1, r2, c, p),
{
    Instruction { inst_type: t, mode: m, reg1: r1, reg2: r2, cond: c, param: p }
}

/// An instruction with no operands.
pub open spec fn plain(t: InstructionType) -> Instruction {
    inst(t, AddressingMode::Implied, RegisterType::Unused, RegisterType::Unused, ConditionType::Always, 0)
}

/// Primary decode table, rows 0x00 to 0x3F, by row (`op >> 4`) and column (`op & 0x0F`).
pub open spec fn decode_low(op: u8) -> Instruction {
    let row = op >> 4;
    let col = op & 0x0F;
    let hi8 = if row == 0 { RegisterType::B } else if row == 1 { RegisterType::D } else { RegisterType::H };
    let lo8 = if row == 0 { RegisterType::C } else if row == 1 { RegisterType::E } else if row == 2 {
        RegisterType::L
    } else {
        RegisterType::A
    };
    let cnd = if row == 2 { ConditionType::Nz } else { ConditionType::Nc };
    let cnd8 = if row == 2 { ConditionType::Z } else { ConditionType::C };
    let n = RegisterType::Unused;
    let nc = ConditionType::Always;
    if col == 0 {
        if row == 0 {
            plain(InstructionType::Nop)
        } else if row == 1 {
            plain(InstructionType::Stop)
        } else {
            inst(InstructionType::Jr, AddressingMode::D8, n, n, cnd, 0)
        }
    } else if col == 1 {
        inst(InstructionType::Ld, AddressingMode::RegisterD16, rr_spec(row), n, nc, 0)
    } else if col == 2 {
        if row == 0 {
            inst(InstructionType::Ld, AddressingMode::MemoryRegister, RegisterType::Bc, RegisterType::A, nc, 0)
        } else if row == 1 {
            inst(InstructionType::Ld, AddressingMode::MemoryRegister, RegisterType::De, RegisterType::A, nc, 0)
        } else if row == 2 {
            inst(InstructionType::Ld, AddressingMode::HliRegister, RegisterType::Hl, RegisterType::A, nc, 0)
        } else {
            inst(InstructionType::Ld, AddressingMode::HldRegister, RegisterType::Hl, RegisterType::A, nc, 0)
        }
    } else if col == 3 {
        inst(InstructionType::Inc, AddressingMode::Register, rr_spec(row), n, nc, 0)
    } else if col == 4 || col == 5 {
        let t = if col == 4 { InstructionType::Inc } else { InstructionType::Dec };
        if row == 3 {
            inst(t, AddressingMode::MemoryRegisterOnly, RegisterType::Hl, n, nc, 0)
        } else {
            inst(t, AddressingMode::Register, hi8, n, nc, 0)
        }
    } else if col == 6 {
        if row == 3 {
            inst(InstructionType::Ld, AddressingMode::MemoryRegisterD8, RegisterType::Hl, n, nc, 0)
        } else {
            inst(InstructionType::Ld, AddressingMode::RegisterD8, hi8, n, nc, 0)
        }
    } else if col == 7 {
        plain(
            if row == 0 { InstructionType::Rlca } else if row == 1 { InstructionType::Rla } else if row == 2 {
                InstructionType::Daa
            } else {
                InstructionType::Scf
            },
        )
    } else if col == 8 {
        if row == 0 {
            inst(InstructionType::Ld, AddressingMode::A16Register, n, RegisterType::Sp, nc, 0)
        } else if row == 1 {
            inst(InstructionType::Jr, AddressingMode::D8, n, n, nc, 0)
        } else {
            inst(InstructionType::Jr, AddressingMode::D8, n, n, cnd8, 0)
        }
    } else if col == 9 {
        inst(InstructionType::Add, AddressingMode::RegisterRegister, RegisterType::Hl, rr_spec(row), nc, 0)
    } else if col == 10 {
        if row == 0 {
            inst(InstructionType::Ld, AddressingMode::RegisterMemory, RegisterType::A, RegisterType::Bc, nc, 0)
        } else if row == 1 {
            inst(InstructionType::Ld, AddressingMode::RegisterMemory, RegisterType::A, RegisterType::De, nc, 0)
        } else if row == 2 {
            inst(InstructionType::Ld, AddressingMode::RegisterHli, RegisterType::A, RegisterType::Hl, nc, 0)
        } else {
            inst(InstructionType::Ld, AddressingMode::RegisterHld, RegisterType::A, RegisterType::Hl, nc, 0)
        }
    } else if col == 11 {
        inst(InstructionType::Dec, AddressingMode::Register, rr_spec(row), n, nc, 0)
    } else if col == 12 {
        inst(InstructionType::Inc, AddressingMode::Register, lo8, n, nc, 0)
    } else if col == 13 {
        inst(InstructionType::Dec, AddressingMode::Register, lo8, n, nc, 0)
    } else if col == 14 {
        inst(InstructionType::Ld, AddressingMode::RegisterD8, lo8, n, nc, 0)
    } else {
        plain(
            if row == 0 { InstructionType::Rrca } else if row == 1 { InstructionType::Rra } else if row == 2 {
                InstructionType::Cpl
            } else {
                InstructionType::Ccf
            },
        )
    }
}

/// Primary decode table, rows 0xC0 to 0xFF.
pub open spec fn decode_high(op: u8) -> Instruction {
    let n = RegisterType::Unused;
    let nc = ConditionType::Always;
    let row = (op >> 4) & 3;
    let cnd0 = if row == 0 { ConditionType::Nz } else { ConditionType::Nc };
    let cnd8 = if row == 0 { ConditionType::Z } else { ConditionType::C };
    let pr = if row == 0 { RegisterType::Bc } else if row == 1 { RegisterType::De } else if row == 2 {
        RegisterType::Hl
    } else {
        RegisterType::Af
    };
    let col = op & 0x0F;
    if op & 7 == 7 {
        inst(InstructionType::Rst, AddressingMode::Implied, n, n, nc, op & 0x38)
    } else if op & 7 == 6 {
        inst(alu_spec((op >> 3) & 7), AddressingMode::RegisterD8, RegisterType::A, n, nc, 0)
    } else if col == 1 {
        inst(InstructionType::Pop, AddressingMode::Register, pr, n, nc, 0)
    } else if col == 5 {
        inst(InstructionType::Push, AddressingMode::Register, pr, n, nc, 0)
    } else if row <= 1 && col == 0 {
        inst(InstructionType::Ret, AddressingMode::Implied, n, n, cnd0, 0)
    } else if row <= 1 && col == 8 {
        inst(InstructionType::Ret, AddressingMode::Implied, n, n, cnd8, 0)
    } else if row <= 1 && col == 2 {
        inst(InstructionType::Jp, AddressingMode::D16, n, n, cnd0, 0)
    } else if row <= 1 && col == 10 {
        inst(InstructionType::Jp, AddressingMode::D16, n, n, cnd8, 0)
    } else if row <= 1 && col == 4 {
        inst(InstructionType::Call, AddressingMode::D16, n, n, cnd0, 0)
    } else if row <= 1 && col == 12 {
        inst(InstructionType::Call, AddressingMode::D16, n, n, cnd8, 0)
    } else if op == 0xC3 {
        inst(InstructionType::Jp, AddressingMode::D16, n, n, nc, 0)
    } else if op == 0xC9 {
        plain(InstructionType::Ret)
    } else if op == 0xCB {
        inst(InstructionType::Cb, AddressingMode::D8, n, n, nc, 0)
    } else if op == 0xCD {
        inst(InstructionType::Call, AddressingMode::D16, n, n, nc, 0)
    } else if op == 0xD9 {
        plain(InstructionType::Reti)
    } else if op == 0xE0 {
        inst(InstructionType::Ldh, AddressingMode::A8Register, n, RegisterType::A, nc, 0)
    } else if op == 0xE2 {
        inst(InstructionType::Ld, AddressingMode::MemoryRegister, RegisterType::C, RegisterType::A, nc, 0)
    } else if op == 0xE8 {
        inst(InstructionType::Add, AddressingMode::RegisterD8, RegisterType::Sp, n, nc, 0)
    } else if op == 0xE9 {
        inst(InstructionType::Jp, AddressingMode::Register, RegisterType::Hl, n, nc, 0)
    } else if op == 0xEA {
        inst(InstructionType::Ld, AddressingMode::A16Register, n, RegisterType::A, nc, 0)
    } else if op == 0xF0 {
        inst(InstructionType::Ldh, AddressingMode::RegisterA8, RegisterType::A, n, nc, 0)
    } else if op == 0xF2 {
        inst(InstructionType::Ld, AddressingMode::RegisterMemory, RegisterType::A, RegisterType::C, nc, 0)
    } else if op == 0xF3 {
        plain(InstructionType::Di)
    } else if op == 0xF8 {
        inst(InstructionType::Ld, AddressingMode::HlSpr, RegisterType::Hl, RegisterType::Sp, nc, 0)
    } else if op == 0xF9 {
        inst(InstructionType::Ld, AddressingMode::RegisterRegister, RegisterType::Sp, RegisterType::Hl, nc, 0)
    } else if op == 0xFA {
        inst(InstructionType::Ld, AddressingMode::RegisterA16, RegisterType::A, n, nc, 0)
    } else if op == 0xFB {
        plain(InstructionType::Ei)
    } else {
        plain(InstructionType::Undefined)
    }
}

/// The primary decode table.
pub open spec fn decode(op: u8) -> Instruction {
    if op < 0x40 {
        decode_low(op)
    } else if op < 0x80 {
        let dst = (op >> 3) & 7;
        let src = op & 7;
        if op == 0x76 {
            plain(InstructionType::Halt)
        } else if src == 6 {
            inst(InstructionType::Ld, AddressingMode::RegisterMemory, r8_spec(dst), RegisterType::Hl, ConditionType::Always, 0)
        } else if dst == 6 {
            inst(InstructionType::Ld, AddressingMode::MemoryRegister, RegisterType::Hl, r8_spec(src), ConditionType::Always, 0)
        } else {
            inst(InstructionType::Ld, AddressingMode::RegisterRegister, r8_spec(dst), r8_spec(src), ConditionType::Always, 0)
        }
    } else if op < 0xC0 {
        let src = op & 7;
        if src == 6 {
            inst(alu_spec((op >> 3) & 7), AddressingMode::RegisterMemory, RegisterType::A, RegisterType::Hl, ConditionType::Always, 0)
        } else {
            inst(alu_spec((op >> 3) & 7), AddressingMode::RegisterRegister, RegisterType::A, r8_spec(src), ConditionType::Always, 0)
        }
    } else {
        decode_high(op)
    }
}

/// The 0xCB-prefixed decode table: bits 6-7 choose rotate/shift, BIT, RES or SET,
/// bits 3-5 the rotate flavour or the bit index, bits 0-2 the operand.
pub open spec fn decode_cb(op: u8) -> Instruction {
    let kind = op >> 6;
    let y = (op >> 3) & 7;
    let z = op & 7;
    let t = if kind == 0 { rot_spec(y) } else if kind == 1 { InstructionType::Bit } else if kind == 2 {
        InstructionType::Res
    } else {
        InstructionType::SetBit
    };
    let m = if z == 6 { AddressingMode::MemoryRegisterOnly } else { AddressingMode::Register };
    inst(t, m, r8_spec(z), RegisterType::Unused, ConditionType::Always, if kind == 0 { 0 } else { y })
}

impl Instruction {
    /// The undefined-opcode descriptor.
    pub fn new() -> (r: Self)
        ensures
            r == plain(InstructionType::Undefined),
    {
        Instruction {
            inst_type: InstructionType::Undefined,
            mode: AddressingMode::Implied,
            reg1: RegisterType::Unused,
            reg2: RegisterType::Unused,
            cond: ConditionType::Always,
            param: 0,
        }
    }
}

fn plain_inst(t: InstructionType) -> (r: Instruction)
    ensures
        r == plain(t),
{
    mk(t, AddressingMode::Implied, RegisterType::Unused, RegisterType::Unused, ConditionType::Always, 0)
}

fn decode_low_exec(op: u8) -> (r: Instruction)
    requires
        op < 0x40,
    ensures
        r == decode_low(op),
{
    let row = op >> 4;
    let col = op & 0x0F;
    let hi8 = if row == 0 { RegisterType::B } else if row == 1 { RegisterType::D } else { RegisterType::H };
    let lo8 = if row == 0 { RegisterType::C } else if row == 1 { RegisterType::E } else if row == 2 {
        RegisterType::L
    } else {
        RegisterType::A
    };
    let cnd = if row == 2 { ConditionType::Nz } else { ConditionType::Nc };
    let cnd8 = if row == 2 { ConditionType::Z } else { ConditionType::C };
    let n = RegisterType::Unused;
    let nc = ConditionType::Always;
    if col == 0 {
        if row == 0 {
            plain_inst(InstructionType::Nop)
        } else if row == 1 {
            plain_inst(InstructionType::Stop)
        } else {
            mk(InstructionType::Jr, AddressingMode::D8, n, n, cnd, 0)
        }
    } else if col == 1 {
        mk(InstructionType::Ld, AddressingMode::RegisterD16, rr(row), n, nc, 0)
    } else if col == 2 {
        if row == 0 {
            mk(InstructionType::Ld, AddressingMode::MemoryRegister, RegisterType::Bc, RegisterType::A, nc, 0)
        } else if row == 1 {
            mk(InstructionType::Ld, AddressingMode::MemoryRegister, RegisterType::De, RegisterType::A, nc, 0)
        } else if row == 2 {
            mk(InstructionType::Ld, AddressingMode::HliRegister, RegisterType::Hl, RegisterType::A, nc, 0)
        } else {
            mk(InstructionType::Ld, AddressingMode::HldRegister, RegisterType::Hl, RegisterType::A, nc, 0)
        }
    } else if col == 3 {
        mk(InstructionType::Inc, AddressingMode::Register, rr(row), n, nc, 0)
    } else if col == 4 || col == 5 {
        let t = if col == 4 { InstructionType::Inc } else { InstructionType::Dec };
        if row == 3 {
            mk(t, AddressingMode::MemoryRegisterOnly, RegisterType::Hl, n, nc, 0)
        } else {
            mk(t, AddressingMode::Register, hi8, n, nc, 0)
        }
    } else if col == 6 {
        if row == 3 {
            mk(InstructionType::Ld, AddressingMode::MemoryRegisterD8, RegisterType::Hl, n, nc, 0)
        } else {
            mk(InstructionType::Ld, AddressingMode::RegisterD8, hi8, n, nc, 0)
        }
    } else if col == 7 {
        plain_inst(
            if row == 0 { InstructionType::Rlca } else if row == 1 { InstructionType::Rla } else if row == 2 {
                InstructionType::Daa
            } else {
                InstructionType::Scf
            },
        )
    } else if col == 8 {
        if row == 0 {
            mk(InstructionType::Ld, AddressingMode::A16Register, n, RegisterType::Sp, nc, 0)
        } else if row == 1 {
            mk(InstructionType::Jr, AddressingMode::D8, n, n, nc, 0)
        } else {
            mk(InstructionType::Jr, AddressingMode::D8, n, n, cnd8, 0)
        }
    } else if col == 9 {
        mk(InstructionType::Add, AddressingMode::RegisterRegister, RegisterType::Hl, rr(row), nc, 0)
    } else if col == 10 {
        if row == 0 {
            mk(InstructionType::Ld, AddressingMode::RegisterMemory, RegisterType::A, RegisterType::Bc, nc, 0)
        } else if row == 1 {
            mk(InstructionType::Ld, AddressingMode::RegisterMemory, RegisterType::A, RegisterType::De, nc, 0)
        } else if row == 2 {
            mk(InstructionType::Ld, AddressingMode::RegisterHli, RegisterType::A, RegisterType::Hl, nc, 0)
        } else {
            mk(InstructionType::Ld, AddressingMode::RegisterHld, RegisterType::A, RegisterType::Hl, nc, 0)
        }
    } else if col == 11 {
        mk(InstructionType::Dec, AddressingMode::Register, rr(row), n, nc, 0)
    } else if col == 12 {
        mk(InstructionType::Inc, AddressingMode::Register, lo8, n, nc, 0)
    } else if col == 13 {
        mk(InstructionType::Dec, AddressingMode::Register, lo8, n, nc, 0)
    } else if col == 14 {
        mk(InstructionType::Ld, AddressingMode::RegisterD8, lo8, n, nc, 0)
    } else {
        plain_inst(
            if row == 0 { InstructionType::Rrca } else if row == 1 { InstructionType::Rra } else if row == 2 {
                InstructionType::Cpl
            } else {
                InstructionType::Ccf
            },
        )
    }
}

fn decode_high_exec(op: u8) -> (r: Instruction)
    ensures
        r == decode_high(op),
{
    let n = RegisterType::Unused;
    let nc = ConditionType::Always;
    let row = (op >> 4) & 3;
    let cnd0 = if row == 0 { ConditionType::Nz } else { ConditionType::Nc };
    let cnd8 = if row == 0 { ConditionType::Z } else { ConditionType::C };
    let pr = if row == 0 { RegisterType::Bc } else if row == 1 { RegisterType::De } else if row == 2 {
        RegisterType::Hl
    } else {
        RegisterType::Af
    };
    let col = op & 0x0F;
    if op & 7 == 7 {
        mk(InstructionType::Rst, AddressingMode::Implied, n, n, nc, op & 0x38)
    } else if op & 7 == 6 {
        mk(alu((op >> 3) & 7), AddressingMode::RegisterD8, RegisterType::A, n, nc, 0)
    } else if col == 1 {
        mk(InstructionType::Pop, AddressingMode::Register, pr, n, nc, 0)
    } else if col == 5 {
        mk(InstructionType::Push, AddressingMode::Register, pr, n, nc, 0)
    } else if row <= 1 && col == 0 {
        mk(InstructionType::Ret, AddressingMode::Implied, n, n, cnd0, 0)
    } else if row <= 1 && col == 8 {
        mk(InstructionType::Ret, AddressingMode::Implied, n, n, cnd8, 0)
    } else if row <= 1 && col == 2 {
        mk(InstructionType::Jp, AddressingMode::D16, n, n, cnd0, 0)
    } else if row <= 1 && col == 10 {
        mk(InstructionType::Jp, AddressingMode::D16, n, n, cnd8, 0)
    } else if row <= 1 && col == 4 {
        mk(InstructionType::Call, AddressingMode::D16, n, n, cnd0, 0)
    } else if row <= 1 && col == 12 {
        mk(InstructionType::Call, AddressingMode::D16, n, n, cnd8, 0)
    } else if op == 0xC3 {
        mk(InstructionType::Jp, AddressingMode::D16, n, n, nc, 0)
    } else if op == 0xC9 {
        plain_inst(InstructionType::Ret)
    } else if op == 0xCB {
        mk(InstructionType::Cb, AddressingMode::D8, n, n, nc, 0)
    } else if op == 0xCD {
        mk(InstructionType::Call, AddressingMode::D16, n, n, nc, 0)
    } else if op == 0xD9 {
        plain_inst(InstructionType::Reti)
    } else if op == 0xE0 {
        mk(InstructionType::Ldh, AddressingMode::A8Register, n, RegisterType::A, nc, 0)
    } else if op == 0xE2 {
        mk(InstructionType::Ld, AddressingMode::MemoryRegister, RegisterType::C, RegisterType::A, nc, 0)
    } else if op == 0xE8 {
        mk(InstructionType::Add, AddressingMode::RegisterD8, RegisterType::Sp, n, nc, 0)
    } else if op == 0xE9 {
        mk(InstructionType::Jp, AddressingMode::Register, RegisterType::Hl, n, nc, 0)
    } else if op == 0xEA {
        mk(InstructionType::Ld, AddressingMode::A16Register, n, RegisterType::A, nc, 0)
    } else if op == 0xF0 {
        mk(InstructionType::Ldh, AddressingMode::RegisterA8, RegisterType::A, n, nc, 0)
    } else if op == 0xF2 {
        mk(InstructionType::Ld, AddressingMode::RegisterMemory, RegisterType::A, RegisterType::C, nc, 0)
    } else if op == 0xF3 {
        plain_inst(InstructionType::Di)
    } else if op == 0xF8 {
        mk(InstructionType::Ld, AddressingMode::HlSpr, RegisterType::Hl, RegisterType::Sp, nc, 0)
    } else if op == 0xF9 {
        mk(InstructionType::Ld, AddressingMode::RegisterRegister, RegisterType::Sp, RegisterType::Hl, nc, 0)
    } else if op == 0xFA {
        mk(InstructionType::Ld, AddressingMode::RegisterA16, RegisterType::A, n, nc, 0)
    } else if op == 0xFB {
        plain_inst(InstructionType::Ei)
    } else {
        plain_inst(InstructionType::Undefined)
    }
}

/// Look up the primary decode table.
pub fn instruction_by_opcode(opcode: Byte) -> (r: Instruction)
    ensures
        r == decode(opcode),
{
    if opcode < 0x40 {
        decode_low_exec(opcode)
    } else if opcode < 0x80 {
        let dst = (opcode >> 3) & 7;
        let src = opcode & 7;
        if opcode == 0x76 {
            plain_inst(InstructionType::Halt)
        } else if src == 6 {
            mk(InstructionType::Ld, AddressingMode::RegisterMemory, r8(dst), RegisterType::Hl, ConditionType::Always, 0)
        } else if dst == 6 {
            mk(InstructionType::Ld, AddressingMode::MemoryRegister, RegisterType::Hl, r8(src), ConditionType::Always, 0)
        } else {
            mk(InstructionType::Ld, AddressingMode::RegisterRegister, r8(dst), r8(src), ConditionType::Always, 0)
        }
    } else if opcode < 0xC0 {
        let src = opcode & 7;
        if src == 6 {
            mk(alu((opcode >> 3) & 7), AddressingMode::RegisterMemory, RegisterType::A, RegisterType::Hl, ConditionType::Always, 0)
        } else {
            mk(alu((opcode >> 3) & 7), AddressingMode::RegisterRegister, RegisterType::A, r8(src), ConditionType::Always, 0)
        }
    } else {
        decode_high_exec(opcode)
    }
}

/// Look up the 0xCB-prefixed decode table.
pub fn cb_instruction_by_opcode(opcode: Byte) -> (r: Instruction)
    ensures
        r == decode_cb(opcode),
{
    let kind = opcode >> 6;
    let y = (opcode >> 3) & 7;
    let z = opcode & 7;
    let t = if kind == 0 { rot(y) } else if kind == 1 { InstructionType::Bit } else if kind == 2 {
        InstructionType::Res
    } else {
        InstructionType::SetBit
    };
    let m = if z == 6 { AddressingMode::MemoryRegisterOnly } else { AddressingMode::Register };
    mk(t, m, r8(z), RegisterType::Unused, ConditionType::Always, if kind == 0 { 0 } else { y })
}

impl Default for Instruction {
    /// The undefined-opcode descriptor.
    fn default() -> (r: Self)
        ensures
            r == plain(InstructionType::Undefined),
    {
        Instruction::new()
    }
}

} // verus!
