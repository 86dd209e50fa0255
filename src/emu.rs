//! The driver: owns every component, runs one instruction (or interrupt dispatch, or
//! halted cycle) per step and advances the peripherals by the same number of T-cycles.

use vstd::prelude::*;
use vstd::string::*;
use crate::apu::Apu;
use crate::bus::Bus;
use crate::cart::Cartridge;
use crate::cpu::instructions::{decode, InstructionType};
use crate::cpu::{highest_pending, pending_mask, Cpu, InterruptType};
use crate::dma::Dma;
use crate::gamepad::{group_selected, Button, Gamepad};
use crate::lcd::Lcd;
use crate::ppu::Ppu;
use crate::timer::Timer;

verus! {

/// T-cycles in one frame (154 lines of 456 cycles).
pub const CYCLES_PER_FRAME: u32 = 70224;

/// A T-cycle count advanced by `n`, saturating at `u64::MAX`.
pub open spec fn sat_ticks(t: u64, n: int) -> u64 {
    if t + n > u64::MAX {
        u64::MAX
    } else {
        (t + n) as u64
    }
}

/// Neither paused, stopped nor asked to stop.
pub open spec fn active(c: EmulatorContext) -> bool {
    c.running && !c.paused && !c.die
}

/// Run state of the emulator.
#[derive(Debug, Clone)]
pub struct EmulatorContext {
    /// Paused
    pub paused: bool,
    /// Running
    pub running: bool,
    /// Asked to stop
    pub die: bool,
    /// T-cycles executed
    pub ticks: u64,
}

impl Default for EmulatorContext {
    fn default() -> (r: Self)
        ensures
            !r.paused && r.running && !r.die && r.ticks == 0,
    {
        EmulatorContext { paused: false, running: true, die: false, ticks: 0 }
    }
}

fn copy_into(dst: &mut Vec<u8>, src: &Vec<u8>)
    requires
        old(dst)@.len() == src@.len(),
    ensures
        final(dst)@ == src@,
{
    let mut i: usize = 0;
    while i < src.len()
        invariant
            dst@.len() == src@.len(),
            i <= src@.len(),
            forall|k: int| 0 <= k < i ==> dst@[k] == src@[k],
        decreases src@.len() - i,
    {
        dst.set(i, src[i]);
        i = i + 1;
    }
    proof {
        assert(dst@ =~= src@);
    }
}

/// The whole machine.
pub struct Emulator {
    pub ctx: EmulatorContext,
    pub cpu: Cpu,
    pub ppu: Ppu,
    pub apu: Apu,
    pub timer: Timer,
    pub dma: Dma,
    pub lcd: Lcd,
    pub gamepad: Gamepad,
    pub bus: Bus,
}

impl Emulator {
    pub open spec fn wf(&self) -> bool {
        &&& self.cpu.wf() && self.bus.wf() && self.ppu.wf() && self.apu.wf() && self.dma.wf()
    }

    /// Build the machine around a ROM image, with every component in its post-boot
    /// state; fails when the image is too short to hold a header.
    pub fn new(rom_path: String, rom: Vec<u8>) -> (r: Result<Self, String>)
        ensures
            rom@.len() < 0x150 <==> r is Err,
            r matches Ok(e) ==> {
                &&& e.wf()
                &&& e.cpu.regs.pc == 0x0100 && e.cpu.regs.sp == 0xFFFE
                &&& crate::cpu::registers::pair(e.cpu.regs.a, e.cpu.regs.f) == 0x01B0
                &&& crate::cpu::registers::pair(e.cpu.regs.b, e.cpu.regs.c) == 0x0013
                &&& crate::cpu::registers::pair(e.cpu.regs.d, e.cpu.regs.e) == 0x00D8
                &&& crate::cpu::registers::pair(e.cpu.regs.h, e.cpu.regs.l) == 0x014D
                &&& e.bus.cart is Some
                &&& e.bus.io_regs@[0x40] == 0x91 && e.bus.io_regs@[0x41] == 0x82
                &&& e.bus.io_regs@[0x47] == 0xFC && e.bus.io_regs@[0x48] == 0xFF && e.bus.io_regs@[0x49] == 0xFF
                &&& e.bus.io_regs@[0x24] == 0x77 && e.bus.io_regs@[0x25] == 0xF3
                &&& e.bus.io_regs@[0x10] == 0x80 && e.bus.io_regs@[0x11] == 0xBF && e.bus.io_regs@[0x12] == 0xF3
                &&& e.bus.io_regs@[0x26] == 0xF1
                &&& !e.ctx.paused && e.ctx.running && !e.ctx.die
            },
    {
        let cart = match Cartridge::new(rom_path, rom) {
            Some(c) => c,
            None => return Err(<String as StringExecFns>::from_str("Invalid ROM header")),
        };
        let mut cpu = Cpu::new();
        cpu.init();
        let ppu = Ppu::new();
        let mut apu = Apu::new();
        assert((0xBFu8 >> 6u8) & 0x03 == 2 && 0xBFu8 & 0x3F == 0x3F && (0xF3u8 >> 4u8) & 0x0F == 15 && 0xF3u8 & 0x08 == 0
            && 0xF3u8 & 0x07 == 3 && 0xF3u8 & 0xF8 != 0 && 0xF1u8 & 0x80 == 0x80) by (bit_vector);
        apu.write(0xFF11, 0xBF);
        apu.write(0xFF12, 0xF3);
        apu.ch1.enabled = true;
        let timer = Timer::new();
        let dma = Dma::new();
        let lcd = Lcd::new();
        let gamepad = Gamepad::new();
        let mut bus = Bus::new();
        bus.load_cartridge(cart);
        let mut emu = Emulator { ctx: EmulatorContext::default(), cpu, ppu, apu, timer, dma, lcd, gamepad, bus };
        emu.sync_timer_to_bus();
        emu.sync_gamepad_to_bus();
        emu.sync_apu_to_bus();
        assert(emu.bus.io_regs@[0x24] == emu.apu.read_spec(0xFF24u16));
        assert(emu.bus.io_regs@[0x25] == emu.apu.read_spec(0xFF25u16));
        assert(emu.bus.io_regs@[0x10] == emu.apu.read_spec(0xFF10u16));
        assert(emu.bus.io_regs@[0x11] == emu.apu.read_spec(0xFF11u16));
        assert(emu.bus.io_regs@[0x12] == emu.apu.read_spec(0xFF12u16));
        assert(emu.bus.io_regs@[0x26] == emu.apu.read_spec(0xFF26u16));
        emu.sync_lcd_to_bus();
        assert(0x02u8 | 0x80u8 == 0x82u8) by (bit_vector);
        assert(0x80u8 | (0u8 << 4u8) | 0u8 | 0u8 == 0x80u8 && (2u8 << 6u8) | 0x3F == 0xBFu8) by (bit_vector);
        assert((15u8 << 4u8) | 0u8 | 3u8 == 0xF3u8 && 0x80u8 | 1u8 | 0u8 | 0u8 | 0u8 | 0x70u8 == 0xF1u8) by (bit_vector);
        Ok(emu)
    }

    /// Run one step: interrupt dispatch, or one halted M-cycle, or one instruction, then
    /// the peripherals for the T-cycles it took. Returns false once the emulator is to
    /// stop (an undefined opcode stops it).
    pub fn step(&mut self) -> (r: bool)
        requires
            old(self).wf(),
        ensures
            final(self).wf(),
            old(self).ctx.paused || !old(self).ctx.running ==> r && *final(self) == *old(self),
            !(old(self).ctx.paused || !old(self).ctx.running) ==> r == !final(self).ctx.die,
            active(old(self).ctx) && r ==> active(final(self).ctx)
                && final(self).ctx.ticks >= sat_ticks(old(self).ctx.ticks, 1),
            ({
                let pending = pending_mask(old(self).bus.int_flags, old(self).bus.ie_register);
                let active = !(old(self).ctx.paused || !old(self).ctx.running);
                &&& active && old(self).cpu.ime && pending != 0 ==> {
                    &&& final(self).cpu.regs.pc == highest_pending(pending).unwrap().vector_spec()
                    &&& final(self).cpu.regs.sp == old(self).cpu.regs.sp.wrapping_sub(2)
                    &&& !final(self).cpu.ime && !final(self).cpu.halted
                }
                &&& active && !(old(self).cpu.ime && pending != 0) && old(self).cpu.halted
                    ==> final(self).cpu.regs == old(self).cpu.regs
                &&& active && !old(self).ctx.die && !(old(self).cpu.ime && pending != 0) && !old(self).cpu.halted
                    ==> final(self).ctx.die == (decode(final(self).cpu.cur_opcode).inst_type == InstructionType::Undefined)
            }),
    {
        if self.ctx.paused || !self.ctx.running {
            return true;
        }
        self.cpu.ie_register = self.bus.ie_register;
        self.cpu.int_flags = self.bus.int_flags;
        self.sync_lcd_from_bus();
        self.sync_timer_from_bus();
        self.sync_gamepad_from_bus();
        self.sync_apu_from_bus();
        self.check_dma_start();

        self.cpu.reset_step_cycles();
        if self.cpu.handle_interrupts(&mut self.bus) {
            self.bus.int_flags = self.cpu.int_flags;
            let t = self.cpu.take_t_cycles();
            self.tick_components(t);
            return !self.ctx.die;
        }
        if self.cpu.enabling_ime {
            self.cpu.enabling_ime = false;
            self.cpu.ime = true;
        }
        if self.cpu.halted {
            self.tick_components(4);
            if self.cpu.interrupts_pending() {
                self.cpu.halted = false;
            }
            return !self.ctx.die;
        }
        let inst = self.cpu.fetch_instruction(&self.bus);
        if inst.inst_type == InstructionType::Undefined {
            self.ctx.die = true;
            self.ctx.running = false;
            return false;
        }
        self.cpu.fetch_data(&self.bus);
        self.cpu.execute(&mut self.bus);
        self.cpu.ie_register = self.bus.ie_register;
        self.cpu.int_flags = self.bus.int_flags;
        let t = self.cpu.take_t_cycles();
        let cycles = if t == 0 {
            4
        } else {
            t
        };
        self.tick_components(cycles);
        !self.ctx.die
    }

    /// Apply bus writes to the LCD registers.
    fn sync_lcd_from_bus(&mut self)
        requires
            old(self).wf(),
        ensures
            final(self).wf(),
            final(self).cpu == old(self).cpu && final(self).ctx == old(self).ctx,
            final(self).bus.int_flags == old(self).bus.int_flags && final(self).bus.ie_register == old(self).bus.ie_register,
    {
        let mut i: usize = 0x40;
        while i <= 0x4B
            invariant
                self.wf(),
                0x40 <= i <= 0x4C,
                self.cpu == old(self).cpu && self.ctx == old(self).ctx,
                self.bus.int_flags == old(self).bus.int_flags && self.bus.ie_register == old(self).bus.ie_register,
            decreases 0x4C - i,
        {
            if i != 0x46 && self.bus.io_written[i] {
                self.bus.io_written.set(i, false);
                let v = self.bus.io_regs[i];
                let was_on = self.lcd.lcd_enabled();
                self.lcd.write(0xFF00 + i as u16, v);
                if !was_on && self.lcd.lcd_enabled() {
                    self.ppu.restart_line();
                }
            }
            i = i + 1;
        }
    }

    /// Apply bus writes to the timer registers (a DIV write resets the counter).
    fn sync_timer_from_bus(&mut self)
        requires
            old(self).wf(),
        ensures
            final(self).wf(),
            final(self).cpu == old(self).cpu && final(self).ctx == old(self).ctx,
            final(self).bus.int_flags == old(self).bus.int_flags && final(self).bus.ie_register == old(self).bus.ie_register,
    {
        let mut i: usize = 0x04;
        while i <= 0x07
            invariant
                self.wf(),
                0x04 <= i <= 0x08,
                self.cpu == old(self).cpu && self.ctx == old(self).ctx,
                self.bus.int_flags == old(self).bus.int_flags && self.bus.ie_register == old(self).bus.ie_register,
            decreases 0x08 - i,
        {
            if self.bus.io_written[i] {
                self.bus.io_written.set(i, false);
                let v = self.bus.io_regs[i];
                self.timer.write(0xFF00 + i as u16, v);
            }
            i = i + 1;
        }
    }

    /// Copy the timer registers to the bus.
    fn sync_timer_to_bus(&mut self)
        requires
            old(self).wf(),
        ensures
            final(self).wf(),
            final(self).cpu == old(self).cpu && final(self).ctx == old(self).ctx,
            final(self).bus.cart == old(self).bus.cart,
            final(self).bus.int_flags == old(self).bus.int_flags,
            final(self).lcd == old(self).lcd,
            final(self).apu == old(self).apu,
            final(self).bus.io_regs@[0x04] == (final(self).timer.div >> 8u16) as u8,
            final(self).bus.io_regs@[0x05] == final(self).timer.tima,
            final(self).bus.io_regs@[0x06] == final(self).timer.tma,
            final(self).bus.io_regs@[0x07] == final(self).timer.tac,
            forall|k: int| 0 <= k < 0x80 && !(0x04 <= k <= 0x07) ==> #[trigger] final(self).bus.io_regs@[k] == old(self).bus.io_regs@[k],
    {
        let div = self.timer.read(0xFF04);
        let tima = self.timer.read(0xFF05);
        let tma = self.timer.read(0xFF06);
        let tac = self.timer.read(0xFF07);
        self.bus.io_regs.set(0x04, div);
        self.bus.io_regs.set(0x05, tima);
        self.bus.io_regs.set(0x06, tma);
        self.bus.io_regs.set(0x07, tac);
    }

    /// Apply a bus write to JOYP.
    fn sync_gamepad_from_bus(&mut self)
        requires
            old(self).wf(),
        ensures
            final(self).wf(),
            final(self).cpu == old(self).cpu && final(self).ctx == old(self).ctx,
            final(self).bus.int_flags == old(self).bus.int_flags && final(self).bus.ie_register == old(self).bus.ie_register,
            old(self).bus.io_written@[0] ==> final(self).gamepad.selection == old(self).bus.io_regs@[0] & 0x30,
    {
        if self.bus.io_written[0] {
            self.bus.io_written.set(0, false);
            let v = self.bus.io_regs[0];
            self.gamepad.write(v);
        }
    }

    /// Copy JOYP to the bus.
    fn sync_gamepad_to_bus(&mut self)
        requires
            old(self).wf(),
        ensures
            final(self).wf(),
            final(self).cpu == old(self).cpu && final(self).ctx == old(self).ctx,
            final(self).bus.cart == old(self).bus.cart,
            final(self).bus.int_flags == old(self).bus.int_flags,
            final(self).lcd == old(self).lcd,
            final(self).apu == old(self).apu,
            final(self).bus.io_regs@[0] == final(self).gamepad.joyp(),
            forall|k: int| 1 <= k < 0x80 ==> #[trigger] final(self).bus.io_regs@[k] == old(self).bus.io_regs@[k],
    {
        let v = self.gamepad.read();
        self.bus.io_regs.set(0, v);
    }

    /// A bus write to 0xFF46 starts OAM DMA from that page.
    fn check_dma_start(&mut self)
        requires
            old(self).wf(),
        ensures
            final(self).wf(),
            final(self).cpu == old(self).cpu && final(self).ctx == old(self).ctx,
            final(self).bus.int_flags == old(self).bus.int_flags && final(self).bus.ie_register == old(self).bus.ie_register,
            old(self).bus.io_written@[0x46] ==> final(self).dma.active && final(self).bus.dma_active
                && final(self).dma.value == old(self).bus.io_regs@[0x46] && final(self).dma.delay == 2,
    {
        if self.bus.io_written[0x46] {
            self.bus.io_written.set(0x46, false);
            let v = self.bus.io_regs[0x46];
            self.dma.start(v);
            self.bus.set_dma_active(true);
        }
    }

    /// Apply bus writes to the APU registers and wave RAM.
    fn sync_apu_from_bus(&mut self)
        requires
            old(self).wf(),
        ensures
            final(self).wf(),
            final(self).cpu == old(self).cpu && final(self).ctx == old(self).ctx,
            final(self).bus.int_flags == old(self).bus.int_flags && final(self).bus.ie_register == old(self).bus.ie_register,
    {
        let mut i: usize = 0x10;
        while i <= 0x3F
            invariant
                self.wf(),
                0x10 <= i <= 0x40,
                self.cpu == old(self).cpu && self.ctx == old(self).ctx,
                self.bus.int_flags == old(self).bus.int_flags && self.bus.ie_register == old(self).bus.ie_register,
            decreases 0x40 - i,
        {
            if (i <= 0x26 || i >= 0x30) && self.bus.io_written[i] {
                self.bus.io_written.set(i, false);
                let v = self.bus.io_regs[i];
                self.apu.write(0xFF00 + i as u16, v);
            }
            i = i + 1;
        }
    }

    /// Copy the APU registers (with their unused bits set) and wave RAM to the bus.
    fn sync_apu_to_bus(&mut self)
        requires
            old(self).wf(),
        ensures
            final(self).wf(),
            final(self).cpu == old(self).cpu && final(self).ctx == old(self).ctx,
            final(self).bus.cart == old(self).bus.cart,
            final(self).bus.int_flags == old(self).bus.int_flags,
            final(self).apu == old(self).apu,
            final(self).lcd == old(self).lcd,
            forall|k: int| (0x10 <= k <= 0x26 || 0x30 <= k <= 0x3F) ==> #[trigger] final(self).bus.io_regs@[k]
                == final(self).apu.read_spec((0xFF00 + k) as u16),
            forall|k: int| 0 <= k < 0x80 && !(0x10 <= k <= 0x26 || 0x30 <= k <= 0x3F) ==> #[trigger] final(self).bus.io_regs@[k]
                == old(self).bus.io_regs@[k],
    {
        let mut i: usize = 0x10;
        while i <= 0x3F
            invariant
                self.wf(),
                0x10 <= i <= 0x40,
                self.cpu == old(self).cpu && self.ctx == old(self).ctx,
                self.bus.cart == old(self).bus.cart,
                self.apu == old(self).apu,
                self.lcd == old(self).lcd,
                self.bus.int_flags == old(self).bus.int_flags,
                forall|k: int| (0x10 <= k <= 0x26 || 0x30 <= k <= 0x3F) && k < i ==> #[trigger] self.bus.io_regs@[k]
                    == self.apu.read_spec((0xFF00 + k) as u16),
                forall|k: int| 0 <= k < 0x80 && !((0x10 <= k <= 0x26 || 0x30 <= k <= 0x3F) && k < i) ==> #[trigger] self.bus.io_regs@[k]
                    == old(self).bus.io_regs@[k],
            decreases 0x40 - i,
        {
            if i <= 0x26 || i >= 0x30 {
                let v = self.apu.read(0xFF00 + i as u16);
                self.bus.io_regs.set(i, v);
            }
            i = i + 1;
        }
    }

    /// Copy the LCD registers to the bus (STAT with bit 7 set).
    fn sync_lcd_to_bus(&mut self)
        requires
            old(self).wf(),
        ensures
            final(self).wf(),
            final(self).cpu == old(self).cpu && final(self).ctx == old(self).ctx,
            final(self).bus.cart == old(self).bus.cart,
            final(self).bus.int_flags == old(self).bus.int_flags,
            final(self).apu == old(self).apu,
            final(self).bus.io_regs@[0x40] == final(self).lcd.lcdc,
            final(self).bus.io_regs@[0x41] == final(self).lcd.stat | 0x80,
            final(self).bus.io_regs@[0x44] == final(self).lcd.ly,
            final(self).bus.io_regs@[0x45] == final(self).lcd.lyc,
            final(self).bus.io_regs@[0x47] == final(self).lcd.bgp,
            final(self).bus.io_regs@[0x48] == final(self).lcd.obp0,
            final(self).bus.io_regs@[0x49] == final(self).lcd.obp1,
            final(self).lcd == old(self).lcd,
            forall|k: int| 0 <= k < 0x80 && !(0x40 <= k <= 0x4B && k != 0x46) ==> #[trigger] final(self).bus.io_regs@[k]
                == old(self).bus.io_regs@[k],
    {
        self.bus.io_regs.set(0x40, self.lcd.lcdc);
        self.bus.io_regs.set(0x41, self.lcd.stat | 0x80);
        self.bus.io_regs.set(0x42, self.lcd.scy);
        self.bus.io_regs.set(0x43, self.lcd.scx);
        self.bus.io_regs.set(0x44, self.lcd.ly);
        self.bus.io_regs.set(0x45, self.lcd.lyc);
        self.bus.io_regs.set(0x47, self.lcd.bgp);
        self.bus.io_regs.set(0x48, self.lcd.obp0);
        self.bus.io_regs.set(0x49, self.lcd.obp1);
        self.bus.io_regs.set(0x4A, self.lcd.wy);
        self.bus.io_regs.set(0x4B, self.lcd.wx);
    }

    /// One T-cycle of the timer, PPU, DMA and APU.
    fn tick_once(&mut self)
        requires
            old(self).wf(),
        ensures
            final(self).wf(),
            final(self).ctx.ticks == sat_ticks(old(self).ctx.ticks, 1),
            final(self).ctx.die == old(self).ctx.die && final(self).ctx.paused == old(self).ctx.paused,
            final(self).ctx.running == old(self).ctx.running,
            final(self).cpu.regs == old(self).cpu.regs,
            final(self).cpu.ime == old(self).cpu.ime && final(self).cpu.halted == old(self).cpu.halted,
            final(self).cpu.cur_opcode == old(self).cpu.cur_opcode,
            ({
                let copy = old(self).dma.active && old(self).dma.delay == 0;
                let src = (old(self).dma.value as int * 256 + old(self).dma.byte as int) as u16;
                &&& copy ==> final(self).bus.oam@ == old(self).bus.oam@.update(old(self).dma.byte as int, old(self).bus.read_spec(src))
                    && final(self).ppu.oam@ == old(self).ppu.oam@.update(old(self).dma.byte as int, old(self).bus.read_spec(src))
                    && final(self).dma.byte == old(self).dma.byte + 1
                &&& !copy ==> final(self).bus.oam@ == old(self).bus.oam@ && final(self).ppu.oam@ == old(self).ppu.oam@
                &&& final(self).bus.dma_active == (old(self).bus.dma_active && final(self).dma.active)
            }),
    {
        self.ctx.ticks = self.ctx.ticks.saturating_add(1);
        self.tick_timer();
        self.tick_video();
        self.tick_dma();
        self.apu.tick();
    }

    fn tick_timer(&mut self)
        requires
            old(self).wf(),
        ensures
            final(self).wf(),
            final(self).ctx == old(self).ctx,
            final(self).cpu.regs == old(self).cpu.regs,
            final(self).cpu.ime == old(self).cpu.ime && final(self).cpu.halted == old(self).cpu.halted,
            final(self).cpu.cur_opcode == old(self).cpu.cur_opcode,
            final(self).bus == old(self).bus && final(self).dma == old(self).dma,
            final(self).ppu == old(self).ppu,
    {
        self.timer.tick();
        if self.timer.interrupt_requested {
            self.cpu.request_interrupt(InterruptType::Timer);
            self.timer.clear_interrupt();
        }
    }

    fn tick_video(&mut self)
        requires
            old(self).wf(),
        ensures
            final(self).wf(),
            final(self).ctx == old(self).ctx,
            final(self).cpu.regs == old(self).cpu.regs,
            final(self).cpu.ime == old(self).cpu.ime && final(self).cpu.halted == old(self).cpu.halted,
            final(self).cpu.cur_opcode == old(self).cpu.cur_opcode,
            final(self).bus == old(self).bus && final(self).dma == old(self).dma,
            final(self).ppu.oam == old(self).ppu.oam,
    {
        self.ppu.tick(&mut self.lcd);
        if self.ppu.vblank_interrupt {
            self.cpu.request_interrupt(InterruptType::VBlank);
            self.ppu.clear_vblank_interrupt();
        }
        if self.lcd.stat_interrupt {
            self.cpu.request_interrupt(InterruptType::LcdStat);
            self.lcd.clear_stat_interrupt();
        }
    }

    /// One DMA cycle: the byte due is copied to OAM on the bus and in the PPU.
    fn tick_dma(&mut self)
        requires
            old(self).wf(),
        ensures
            final(self).wf(),
            final(self).ctx == old(self).ctx,
            final(self).cpu.regs == old(self).cpu.regs,
            final(self).cpu.ime == old(self).cpu.ime && final(self).cpu.halted == old(self).cpu.halted,
            final(self).cpu.cur_opcode == old(self).cpu.cur_opcode,
            ({
                let copy = old(self).dma.active && old(self).dma.delay == 0;
                let src = (old(self).dma.value as int * 256 + old(self).dma.byte as int) as u16;
                &&& copy ==> final(self).bus.oam@ == old(self).bus.oam@.update(old(self).dma.byte as int, old(self).bus.read_spec(src))
                    && final(self).ppu.oam@ == old(self).ppu.oam@.update(old(self).dma.byte as int, old(self).bus.read_spec(src))
                    && final(self).dma.byte == old(self).dma.byte + 1
                &&& !copy ==> final(self).bus.oam@ == old(self).bus.oam@ && final(self).ppu.oam@ == old(self).ppu.oam@
                &&& final(self).bus.dma_active == (old(self).bus.dma_active && final(self).dma.active)
            }),
    {
        match self.dma.tick() {
            Some((src, dst)) => {
                let value = self.bus.read(src);
                let off = (dst - 0xFE00) as usize;
                self.bus.oam.set(off, value);
                self.ppu.oam.set(off, value);
            },
            None => {},
        }
        if !self.dma.active {
            self.bus.set_dma_active(false);
        }
    }

    /// Advance the timer, PPU, DMA and APU by `cycles` T-cycles, routing their interrupt
    /// requests to IF, then copy the peripheral registers back to the bus.
    fn tick_components(&mut self, cycles: u32)
        requires
            old(self).wf(),
        ensures
            final(self).wf(),
            final(self).ctx.ticks == sat_ticks(old(self).ctx.ticks, cycles as int),
            final(self).ctx.die == old(self).ctx.die && final(self).ctx.paused == old(self).ctx.paused,
            final(self).ctx.running == old(self).ctx.running,
            final(self).cpu.regs == old(self).cpu.regs,
            final(self).cpu.ime == old(self).cpu.ime && final(self).cpu.halted == old(self).cpu.halted,
            final(self).cpu.cur_opcode == old(self).cpu.cur_opcode,
            final(self).bus.int_flags == final(self).cpu.int_flags,
    {
        if self.bus.vram_dirty {
            copy_into(&mut self.ppu.vram, &self.bus.vram);
            self.bus.vram_dirty = false;
        }
        if self.bus.oam_dirty {
            copy_into(&mut self.ppu.oam, &self.bus.oam);
            self.bus.oam_dirty = false;
        }
        let mut n: u32 = 0;
        while n < cycles
            invariant
                self.wf(),
                n <= cycles,
                self.ctx.ticks == sat_ticks(old(self).ctx.ticks, n as int),
                self.ctx.die == old(self).ctx.die && self.ctx.paused == old(self).ctx.paused,
                self.ctx.running == old(self).ctx.running,
                self.cpu.regs == old(self).cpu.regs,
                self.cpu.ime == old(self).cpu.ime && self.cpu.halted == old(self).cpu.halted,
                self.cpu.cur_opcode == old(self).cpu.cur_opcode,
            decreases cycles - n,
        {
            self.tick_once();
            n = n + 1;
        }
        if self.gamepad.interrupt_requested {
            self.cpu.request_interrupt(InterruptType::Joypad);
            self.gamepad.clear_interrupt();
        }
        self.bus.int_flags = self.cpu.int_flags;
        self.sync_lcd_to_bus();
        self.sync_timer_to_bus();
        self.sync_gamepad_to_bus();
        let d = self.dma.read();
        self.bus.io_regs.set(0x46, d);
        self.sync_apu_to_bus();
    }

    /// Run steps until the PPU completes a frame, the emulator stops, or a frame's worth
    /// of T-cycles has gone by (as with the LCD off).
    pub fn run_frame(&mut self)
        requires
            old(self).wf(),
        ensures
            final(self).wf(),
            active(old(self).ctx) ==> final(self).ppu.current_frame != old(self).ppu.current_frame
                || final(self).ctx.die
                || final(self).ctx.ticks >= sat_ticks(old(self).ctx.ticks, CYCLES_PER_FRAME as int),
    {
        let start_frame = self.ppu.current_frame;
        let mut steps: u32 = 0;
        while self.ppu.current_frame == start_frame && !self.ctx.die && steps < CYCLES_PER_FRAME
            invariant
                self.wf(),
                steps <= CYCLES_PER_FRAME,
                start_frame == old(self).ppu.current_frame,
                active(old(self).ctx) ==> self.ctx.die || active(self.ctx),
                active(old(self).ctx) ==> self.ctx.die || self.ctx.ticks >= sat_ticks(old(self).ctx.ticks, steps as int),
            decreases CYCLES_PER_FRAME - steps,
        {
            if !self.step() {
                return;
            }
            steps = steps + 1;
        }
    }

    /// Pause.
    pub fn pause(&mut self)
        ensures
            final(self).ctx.paused,
            final(self).cpu == old(self).cpu && final(self).bus == old(self).bus,
    {
        self.ctx.paused = true;
    }

    /// Resume.
    pub fn resume(&mut self)
        ensures
            !final(self).ctx.paused,
            final(self).cpu == old(self).cpu && final(self).bus == old(self).bus,
    {
        self.ctx.paused = false;
    }

    /// Toggle pause.
    pub fn toggle_pause(&mut self)
        ensures
            final(self).ctx.paused == !old(self).ctx.paused,
            final(self).cpu == old(self).cpu && final(self).bus == old(self).bus,
    {
        self.ctx.paused = !self.ctx.paused;
    }

    /// Ask the emulator to stop.
    pub fn stop(&mut self)
        ensures
            final(self).ctx.die && !final(self).ctx.running,
            final(self).cpu == old(self).cpu && final(self).bus == old(self).bus,
    {
        self.ctx.die = true;
        self.ctx.running = false;
    }

    /// The 160x144 ARGB frame.
    pub fn get_video_buffer(&self) -> (r: &[u32])
        ensures
            r@ == self.ppu.video_buffer@,
    {
        self.ppu.video_buffer.as_slice()
    }

    /// Take the audio produced since the last call.
    pub fn get_audio_buffer(&mut self) -> (r: Vec<i16>)
        requires
            old(self).wf(),
        ensures
            final(self).wf(),
            r@ == old(self).apu.audio_buffer@.subrange(0, old(self).apu.buffer_pos as int),
            final(self).apu.buffer_pos == 0,
    {
        self.apu.get_audio_buffer()
    }

    /// Press or release a button.
    pub fn set_button(&mut self, button: Button, pressed: bool)
        requires
            old(self).wf(),
        ensures
            final(self).wf(),
            final(self).gamepad.pressed(button) == pressed,
            final(self).gamepad.interrupt_requested == (old(self).gamepad.interrupt_requested
                || (pressed && !old(self).gamepad.pressed(button) && group_selected(old(self).gamepad.selection, button))),
    {
        self.gamepad.set_button(button, pressed);
    }

    /// Running and not asked to stop.
    pub fn is_running(&self) -> (r: bool)
        ensures
            r == (self.ctx.running && !self.ctx.die),
    {
        self.ctx.running && !self.ctx.die
    }

    /// Paused.
    pub fn is_paused(&self) -> (r: bool)
        ensures
            r == self.ctx.paused,
    {
        self.ctx.paused
    }

    /// Frames completed.
    pub fn current_frame(&self) -> (r: u32)
        ensures
            r == self.ppu.current_frame,
    {
        self.ppu.current_frame
    }
}

} // verus!
