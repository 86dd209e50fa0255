//! The Sharp LR35902 processor: registers, decode tables, operand fetch and execution.

pub mod execute;
pub mod fetch;
pub mod instructions;
pub mod registers;

use vstd::prelude::*;
use crate::bus::Bus;
use crate::common::{bit_of, Byte, Word};
use instructions::{Instruction, InstructionType, ConditionType};
use registers::{pair, Registers};

verus! {

/// Interrupt sources, in descending priority.
#[derive(Debug, Clone, Copy, PartialEq, Eq, Structural)]
pub enum InterruptType {
    /// VBlank interrupt (highest priority)
    VBlank,
    /// LCD STAT interrupt
    LcdStat,
    /// Timer interrupt
    Timer,
    /// Serial interrupt
    Serial,
    /// Joypad interrupt (lowest priority)
    Joypad,
}

/// The pending-and-enabled mask.
pub open spec fn pending_mask(int_flags: u8, ie: u8) -> u8 {
    int_flags & ie & 0x1F
}

/// The highest-priority source set in a pending mask: the lowest set bit.
pub open spec fn highest_pending(p: u8) -> Option<InterruptType> {
    if bit_of(p, 0) {
        Some(InterruptType::VBlank)
    } else if bit_of(p, 1) {
        Some(InterruptType::LcdStat)
    } else if bit_of(p, 2) {
        Some(InterruptType::Timer)
    } else if bit_of(p, 3) {
        Some(InterruptType::Serial)
    } else if bit_of(p, 4) {
        Some(InterruptType::Joypad)
    } else {
        None
    }
}

/// A masked pending value is zero exactly when none of bits 0 to 4 is set, and
/// its bits are those of both registers.
pub proof fn lemma_pending_bits(f: u8, e: u8)
    by (bit_vector)
    ensures
        (f & e & 0x1F == 0) == (!bit_of(f & e & 0x1F, 0) && !bit_of(f & e & 0x1F, 1) && !bit_of(f & e & 0x1F, 2)
            && !bit_of(f & e & 0x1F, 3) && !bit_of(f & e & 0x1F, 4)),
        bit_of(f & e & 0x1F, 0) == (bit_of(f, 0) && bit_of(e, 0)),
        bit_of(f & e & 0x1F, 1) == (bit_of(f, 1) && bit_of(e, 1)),
        bit_of(f & e & 0x1F, 2) == (bit_of(f, 2) && bit_of(e, 2)),
        bit_of(f & e & 0x1F, 3) == (bit_of(f, 3) && bit_of(e, 3)),
        bit_of(f & e & 0x1F, 4) == (bit_of(f, 4) && bit_of(e, 4)),
        (f & e & 0x1F) & 0x01 == (if bit_of(f & e & 0x1F, 0) { 0x01u8 } else { 0 }),
        (f & e & 0x1F) & 0x02 == (if bit_of(f & e & 0x1F, 1) { 0x02u8 } else { 0 }),
        (f & e & 0x1F) & 0x04 == (if bit_of(f & e & 0x1F, 2) { 0x04u8 } else { 0 }),
        (f & e & 0x1F) & 0x08 == (if bit_of(f & e & 0x1F, 3) { 0x08u8 } else { 0 }),
        (f & e & 0x1F) & 0x10 == (if bit_of(f & e & 0x1F, 4) { 0x10u8 } else { 0 }),
{
}

impl InterruptType {
    /// Mask of this source in IE and IF.
    pub open spec fn bit_spec(&self) -> u8 {
        match self {
            InterruptType::VBlank => 0x01,
            InterruptType::LcdStat => 0x02,
            InterruptType::Timer => 0x04,
            InterruptType::Serial => 0x08,
            InterruptType::Joypad => 0x10,
        }
    }

    /// Vector address of this source.
    pub open spec fn vector_spec(&self) -> u16 {
        match self {
            InterruptType::VBlank => 0x0040,
            InterruptType::LcdStat => 0x0048,
            InterruptType::Timer => 0x0050,
            InterruptType::Serial => 0x0058,
            InterruptType::Joypad => 0x0060,
        }
    }

    /// Mask of this source in IE and IF.
    pub fn bit(&self) -> (r: Byte)
        ensures
            r == self.bit_spec(),
    {
        match self {
            InterruptType::VBlank => 0x01,
            InterruptType::LcdStat => 0x02,
            InterruptType::Timer => 0x04,
            InterruptType::Serial => 0x08,
            InterruptType::Joypad => 0x10,
        }
    }

    /// Vector address of this source.
    pub fn vector(&self) -> (r: Word)
        ensures
            r == self.vector_spec(),
    {
        match self {
            InterruptType::VBlank => 0x0040,
            InterruptType::LcdStat => 0x0048,
            InterruptType::Timer => 0x0050,
            InterruptType::Serial => 0x0058,
            InterruptType::Joypad => 0x0060,
        }
    }

    /// All sources in priority order.
    pub fn all() -> (r: [InterruptType; 5])
        ensures
            r@ == seq![
                InterruptType::VBlank,
                InterruptType::LcdStat,
                InterruptType::Timer,
                InterruptType::Serial,
                InterruptType::Joypad,
            ],
    {
        let r = [
            InterruptType::VBlank,
            InterruptType::LcdStat,
            InterruptType::Timer,
            InterruptType::Serial,
            InterruptType::Joypad,
        ];
        proof {
            assert(r@ =~= seq![
                InterruptType::VBlank,
                InterruptType::LcdStat,
                InterruptType::Timer,
                InterruptType::Serial,
                InterruptType::Joypad,
            ]);
        }
        r
    }
}

/// CPU state.
#[derive(Debug)]
pub struct Cpu {
    /// CPU registers
    pub regs: Registers,
    /// Halted, waiting for an interrupt
    pub halted: bool,
    /// Interrupt master enable
    pub ime: bool,
    /// IME will be set after the next instruction (EI delay)
    pub enabling_ime: bool,
    /// Interrupt enable register copy
    pub ie_register: Byte,
    /// Interrupt flag register copy
    pub int_flags: Byte,
    /// Operand fetched for the current instruction
    pub fetched_data: Word,
    /// Memory destination of the current instruction
    pub mem_dest: Word,
    /// Whether the destination is memory
    pub dest_is_mem: bool,
    /// Current opcode
    pub cur_opcode: Byte,
    /// Current instruction descriptor
    pub cur_inst: Option<Instruction>,
    /// M-cycles charged in the current step
    pub pending_m_cycles: u32,
}

impl Cpu {
    pub open spec fn wf(&self) -> bool {
        self.regs.wf()
    }

    /// Whether a branch condition holds on the current flags.
    pub open spec fn cond_holds(&self, c: ConditionType) -> bool {
        match c {
            ConditionType::Always => true,
            ConditionType::Z => self.regs.zf(),
            ConditionType::Nz => !self.regs.zf(),
            ConditionType::C => self.regs.cf(),
            ConditionType::Nc => !self.regs.cf(),
        }
    }

    /// A CPU with all registers and flags cleared.
    pub fn new() -> (r: Self)
        ensures
            r.wf(),
            r.regs.pc == 0 && r.regs.sp == 0 && r.regs.a == 0 && r.regs.f == 0,
            !r.halted && !r.ime && !r.enabling_ime,
            r.ie_register == 0 && r.int_flags == 0 && r.pending_m_cycles == 0,
            r.cur_inst is None,
    {
        Cpu {
            regs: Registers::new(),
            halted: false,
            ime: false,
            enabling_ime: false,
            ie_register: 0,
            int_flags: 0,
            fetched_data: 0,
            mem_dest: 0,
            dest_is_mem: false,
            cur_opcode: 0,
            cur_inst: None,
            pending_m_cycles: 0,
        }
    }

    /// Registers as the boot ROM leaves them: AF=0x01B0, BC=0x0013, DE=0x00D8, HL=0x014D,
    /// SP=0xFFFE, PC=0x0100.
    pub fn init(&mut self)
        ensures
            final(self).wf(),
            final(self).regs.pc == 0x0100 && final(self).regs.sp == 0xFFFE,
            pair(final(self).regs.a, final(self).regs.f) == 0x01B0,
            pair(final(self).regs.b, final(self).regs.c) == 0x0013,
            pair(final(self).regs.d, final(self).regs.e) == 0x00D8,
            pair(final(self).regs.h, final(self).regs.l) == 0x014D,
            !final(self).halted && !final(self).ime && !final(self).enabling_ime,
            final(self).ie_register == 0 && final(self).int_flags == 0,
            final(self).pending_m_cycles == 0,
    {
        self.regs.pc = 0x0100;
        self.regs.sp = 0xFFFE;
        self.regs.set_af(0x01B0);
        self.regs.set_bc(0x0013);
        self.regs.set_de(0x00D8);
        self.regs.set_hl(0x014D);
        self.halted = false;
        self.ime = false;
        self.enabling_ime = false;
        self.ie_register = 0;
        self.int_flags = 0;
        self.pending_m_cycles = 0;
        assert(0x01B0u16 % 256 & 0xF0 == 0xB0) by (bit_vector);
    }

    /// The current instruction.
    pub fn current_instruction(&self) -> (r: Option<Instruction>)
        ensures
            r == self.cur_inst,
    {
        self.cur_inst
    }

    /// Set the current instruction.
    pub fn set_current_instruction(&mut self, inst: Option<Instruction>)
        ensures
            final(self).cur_inst == inst,
            final(self).regs == old(self).regs,
            final(self).pending_m_cycles == old(self).pending_m_cycles,
    {
        self.cur_inst = inst;
    }

    /// Start M-cycle accounting for a new step.
    pub fn reset_step_cycles(&mut self)
        ensures
            *final(self) == (Cpu { pending_m_cycles: 0, ..*old(self) }),
    {
        self.pending_m_cycles = 0;
    }

    /// Charge M-cycles (saturating).
    pub fn add_m_cycles(&mut self, cycles: u32)
        ensures
            final(self).pending_m_cycles == if old(self).pending_m_cycles + cycles > u32::MAX {
                u32::MAX as int
            } else {
                old(self).pending_m_cycles + cycles
            },
            final(self).regs == old(self).regs,
            final(self).halted == old(self).halted && final(self).ime == old(self).ime,
            final(self).enabling_ime == old(self).enabling_ime,
            final(self).int_flags == old(self).int_flags && final(self).ie_register == old(self).ie_register,
            final(self).cur_inst == old(self).cur_inst && final(self).cur_opcode == old(self).cur_opcode,
            final(self).fetched_data == old(self).fetched_data,
    {
        self.pending_m_cycles = self.pending_m_cycles.saturating_add(cycles);
    }

    /// The charged M-cycles as T-cycles (four each, saturating); the count restarts at zero.
    pub fn take_t_cycles(&mut self) -> (r: u32)
        ensures
            r == if old(self).pending_m_cycles * 4 > u32::MAX {
                u32::MAX as int
            } else {
                old(self).pending_m_cycles * 4
            },
            final(self).pending_m_cycles == 0,
            final(self).regs == old(self).regs,
            final(self).halted == old(self).halted && final(self).ime == old(self).ime,
            final(self).enabling_ime == old(self).enabling_ime,
            final(self).int_flags == old(self).int_flags && final(self).ie_register == old(self).ie_register,
            final(self).cur_opcode == old(self).cur_opcode && final(self).cur_inst == old(self).cur_inst,
    {
        let t_cycles = if self.pending_m_cycles > u32::MAX / 4 {
            u32::MAX
        } else {
            self.pending_m_cycles * 4
        };
        self.pending_m_cycles = 0;
        t_cycles
    }

    /// Request an interrupt: set its bit in IF.
    pub fn request_interrupt(&mut self, interrupt: InterruptType)
        ensures
            final(self).int_flags == old(self).int_flags | interrupt.bit_spec(),
            final(self).regs == old(self).regs,
            final(self).halted == old(self).halted && final(self).ime == old(self).ime,
            final(self).enabling_ime == old(self).enabling_ime,
            final(self).ie_register == old(self).ie_register,
            final(self).pending_m_cycles == old(self).pending_m_cycles,
            final(self).cur_opcode == old(self).cur_opcode,
    {
        self.int_flags = self.int_flags | interrupt.bit();
    }

    /// Whether an enabled interrupt is pending.
    pub fn interrupts_pending(&self) -> (r: bool)
        ensures
            r == (pending_mask(self.int_flags, self.ie_register) != 0),
    {
        (self.int_flags & self.ie_register & 0x1F) != 0
    }

    /// The highest-priority pending and enabled interrupt.
    pub fn get_pending_interrupt(&self) -> (r: Option<InterruptType>)
        ensures
            r == highest_pending(pending_mask(self.int_flags, self.ie_register)),
            r is None <==> pending_mask(self.int_flags, self.ie_register) == 0,
    {
        let pending = self.int_flags & self.ie_register & 0x1F;
        proof {
            lemma_pending_bits(self.int_flags, self.ie_register);
        }
        if pending & 0x01 != 0 {
            Some(InterruptType::VBlank)
        } else if pending & 0x02 != 0 {
            Some(InterruptType::LcdStat)
        } else if pending & 0x04 != 0 {
            Some(InterruptType::Timer)
        } else if pending & 0x08 != 0 {
            Some(InterruptType::Serial)
        } else if pending & 0x10 != 0 {
            Some(InterruptType::Joypad)
        } else {
            None
        }
    }

    /// Clear an interrupt's bit in IF.
    pub fn clear_interrupt(&mut self, interrupt: InterruptType)
        ensures
            final(self).int_flags == old(self).int_flags & !interrupt.bit_spec(),
            final(self).regs == old(self).regs,
            final(self).halted == old(self).halted && final(self).ime == old(self).ime,
            final(self).enabling_ime == old(self).enabling_ime,
            final(self).ie_register == old(self).ie_register,
            final(self).pending_m_cycles == old(self).pending_m_cycles,
    {
        self.int_flags = self.int_flags & !interrupt.bit();
    }
}

impl Default for Cpu {
    /// Same as `Cpu::new`.
    fn default() -> (r: Self)
        ensures
            r.wf(),
    {
        Cpu::new()
    }
}

} // verus!
