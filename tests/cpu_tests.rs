use gbemu::bus::{Bus, MemoryBus};
use gbemu::cpu::instructions::{cb_instruction_by_opcode, instruction_by_opcode, AddressingMode, InstructionType, RegisterType};
use gbemu::cpu::registers::Registers;
use gbemu::cpu::{Cpu, InterruptType};

#[test]
fn test_cpu_new() {
    let cpu = Cpu::new();
    assert_eq!(cpu.regs.pc, 0);
    assert_eq!(cpu.regs.sp, 0);
    assert!(!cpu.halted);
    assert!(!cpu.ime);
}

#[test]
fn test_cpu_init_boot_skip() {
    let mut cpu = Cpu::new();
    cpu.init();

    assert_eq!(cpu.regs.pc, 0x0100);
    assert_eq!(cpu.regs.sp, 0xFFFE);
    assert_eq!(cpu.regs.af(), 0x01B0);
    assert_eq!(cpu.regs.bc(), 0x0013);
    assert_eq!(cpu.regs.de(), 0x00D8);
    assert_eq!(cpu.regs.hl(), 0x014D);

    assert!(cpu.regs.flag_z());
    assert!(!cpu.regs.flag_n());
    assert!(cpu.regs.flag_h());
    assert!(cpu.regs.flag_c());
}

#[test]
fn test_interrupt_request() {
    let mut cpu = Cpu::new();

    cpu.request_interrupt(InterruptType::VBlank);
    assert_eq!(cpu.int_flags, 0x01);

    cpu.request_interrupt(InterruptType::Timer);
    assert_eq!(cpu.int_flags, 0x05);
}

#[test]
fn test_interrupt_pending() {
    let mut cpu = Cpu::new();

    assert!(!cpu.interrupts_pending());

    cpu.request_interrupt(InterruptType::VBlank);
    assert!(!cpu.interrupts_pending());

    cpu.ie_register = 0x01;
    assert!(cpu.interrupts_pending());
}

#[test]
fn test_get_pending_interrupt_priority() {
    let mut cpu = Cpu::new();
    cpu.ie_register = 0x1F;

    cpu.request_interrupt(InterruptType::Timer);
    cpu.request_interrupt(InterruptType::Joypad);

    assert_eq!(cpu.get_pending_interrupt(), Some(InterruptType::Timer));

    cpu.request_interrupt(InterruptType::VBlank);
    assert_eq!(cpu.get_pending_interrupt(), Some(InterruptType::VBlank));
}

#[test]
fn test_interrupt_vectors() {
    assert_eq!(InterruptType::VBlank.vector(), 0x0040);
    assert_eq!(InterruptType::LcdStat.vector(), 0x0048);
    assert_eq!(InterruptType::Timer.vector(), 0x0050);
    assert_eq!(InterruptType::Serial.vector(), 0x0058);
    assert_eq!(InterruptType::Joypad.vector(), 0x0060);
}

#[test]
fn test_clear_interrupt() {
    let mut cpu = Cpu::new();
    cpu.int_flags = 0x1F;

    cpu.clear_interrupt(InterruptType::VBlank);
    assert_eq!(cpu.int_flags, 0x1E);

    cpu.clear_interrupt(InterruptType::Timer);
    assert_eq!(cpu.int_flags, 0x1A);
}

#[test]
fn test_new_registers() {
    let regs = Registers::new();
    assert_eq!(regs.a, 0);
    assert_eq!(regs.f, 0);
    assert_eq!(regs.b, 0);
    assert_eq!(regs.c, 0);
    assert_eq!(regs.d, 0);
    assert_eq!(regs.e, 0);
    assert_eq!(regs.h, 0);
    assert_eq!(regs.l, 0);
    assert_eq!(regs.pc, 0);
    assert_eq!(regs.sp, 0);
}

#[test]
fn test_af_register_pair() {
    let mut regs = Registers::new();

    regs.set_af(0x01B0);
    assert_eq!(regs.a, 0x01);
    assert_eq!(regs.f, 0xB0);
    assert_eq!(regs.af(), 0x01B0);

    regs.set_af(0xFFFF);
    assert_eq!(regs.a, 0xFF);
    assert_eq!(regs.f, 0xF0);
    assert_eq!(regs.af(), 0xFFF0);
}

#[test]
fn test_bc_register_pair() {
    let mut regs = Registers::new();

    regs.set_bc(0x0013);
    assert_eq!(regs.b, 0x00);
    assert_eq!(regs.c, 0x13);
    assert_eq!(regs.bc(), 0x0013);

    regs.set_bc(0xABCD);
    assert_eq!(regs.b, 0xAB);
    assert_eq!(regs.c, 0xCD);
    assert_eq!(regs.bc(), 0xABCD);
}

#[test]
fn test_de_register_pair() {
    let mut regs = Registers::new();

    regs.set_de(0x00D8);
    assert_eq!(regs.d, 0x00);
    assert_eq!(regs.e, 0xD8);
    assert_eq!(regs.de(), 0x00D8);
}

#[test]
fn test_hl_register_pair() {
    let mut regs = Registers::new();

    regs.set_hl(0x014D);
    assert_eq!(regs.h, 0x01);
    assert_eq!(regs.l, 0x4D);
    assert_eq!(regs.hl(), 0x014D);
}

#[test]
fn test_flags() {
    let mut regs = Registers::new();

    regs.set_flag_z(true);
    assert!(regs.flag_z());
    assert_eq!(regs.f, 0x80);

    regs.set_flag_n(true);
    assert!(regs.flag_n());
    assert_eq!(regs.f, 0xC0);

    regs.set_flag_h(true);
    assert!(regs.flag_h());
    assert_eq!(regs.f, 0xE0);

    regs.set_flag_c(true);
    assert!(regs.flag_c());
    assert_eq!(regs.f, 0xF0);

    regs.set_flag_z(false);
    assert!(!regs.flag_z());
    assert_eq!(regs.f, 0x70);
}

#[test]
fn test_set_flags() {
    let mut regs = Registers::new();

    regs.set_flags(true, false, true, false);
    assert!(regs.flag_z());
    assert!(!regs.flag_n());
    assert!(regs.flag_h());
    assert!(!regs.flag_c());
    assert_eq!(regs.f, 0xA0);

    regs.set_flags(false, true, false, true);
    assert!(!regs.flag_z());
    assert!(regs.flag_n());
    assert!(!regs.flag_h());
    assert!(regs.flag_c());
    assert_eq!(regs.f, 0x50);
}

/// Run the program at 0xC000 (in work RAM) for `n` instructions; returns the M-cycles of each.
fn run(cpu: &mut Cpu, bus: &mut Bus, program: &[u8], n: usize) -> Vec<u32> {
    for (i, b) in program.iter().enumerate() {
        bus.write(0xC000 + i as u16, *b);
    }
    cpu.regs.pc = 0xC000;
    let mut cycles = Vec::new();
    for _ in 0..n {
        cpu.reset_step_cycles();
        cpu.fetch_instruction(bus);
        cpu.fetch_data(bus);
        cpu.execute(bus);
        cycles.push(cpu.take_t_cycles() / 4);
    }
    cycles
}

#[test]
fn daa_after_bcd_add() {
    let mut cpu = Cpu::new();
    let mut bus = Bus::new();
    // LD A,0x45 ; ADD A,0x38 ; DAA
    run(&mut cpu, &mut bus, &[0x3E, 0x45, 0xC6, 0x38, 0x27], 2);
    assert_eq!(cpu.regs.a, 0x7D);
    cpu.reset_step_cycles();
    cpu.fetch_instruction(&bus);
    cpu.fetch_data(&bus);
    cpu.execute(&mut bus);
    assert_eq!(cpu.regs.a, 0x83);
    assert!(!cpu.regs.flag_z());
    assert!(!cpu.regs.flag_n());
    assert!(!cpu.regs.flag_h());
    assert!(!cpu.regs.flag_c());
}

#[test]
fn inc_sets_half_carry() {
    let mut cpu = Cpu::new();
    let mut bus = Bus::new();
    cpu.regs.b = 0x0F;
    cpu.regs.set_flag_h(false);
    run(&mut cpu, &mut bus, &[0x04], 1);
    assert_eq!(cpu.regs.b, 0x10);
    assert!(!cpu.regs.flag_z());
    assert!(!cpu.regs.flag_n());
    assert!(cpu.regs.flag_h());
}

#[test]
fn pop_af_masks_low_nibble() {
    let mut cpu = Cpu::new();
    let mut bus = Bus::new();
    cpu.regs.sp = 0xFFFE;
    // LD A,0xAB then F=0xCD directly, PUSH AF, POP AF
    run(&mut cpu, &mut bus, &[0x3E, 0xAB], 1);
    cpu.regs.f = 0xCD;
    let pc = cpu.regs.pc;
    bus.write(pc, 0xF5);
    bus.write(pc + 1, 0xF1);
    for _ in 0..2 {
        cpu.fetch_instruction(&bus);
        cpu.fetch_data(&bus);
        cpu.execute(&mut bus);
    }
    assert_eq!(cpu.regs.a, 0xAB);
    assert_eq!(cpu.regs.f, 0xC0);
    assert_eq!(cpu.regs.sp, 0xFFFE);
}

#[test]
fn cb_bit_flags() {
    for bitn in 0..8u8 {
        for v in [0x00u8, 0xFF, 0x5A, 0x81] {
            for carry in [false, true] {
                let mut cpu = Cpu::new();
                let mut bus = Bus::new();
                cpu.regs.d = v;
                cpu.regs.set_flags(false, true, false, carry);
                // BIT b,D
                run(&mut cpu, &mut bus, &[0xCB, 0x42 | (bitn << 3)], 1);
                assert_eq!(cpu.regs.flag_z(), v & (1 << bitn) == 0);
                assert!(!cpu.regs.flag_n());
                assert!(cpu.regs.flag_h());
                assert_eq!(cpu.regs.flag_c(), carry);
                assert_eq!(cpu.regs.d, v);
            }
        }
    }
}

#[test]
fn cb_ops_on_registers_and_memory() {
    let mut cpu = Cpu::new();
    let mut bus = Bus::new();
    cpu.regs.b = 0x85;
    cpu.regs.set_hl(0xC100);
    bus.write(0xC100, 0xF0);
    // RLC B ; SWAP (HL) ; SET 0,(HL) ; RES 7,B ; SRL B
    let c = run(&mut cpu, &mut bus, &[0xCB, 0x00, 0xCB, 0x36, 0xCB, 0xC6, 0xCB, 0xB8, 0xCB, 0x38], 5);
    assert_eq!(bus.read(0xC100), 0x0F);
    assert_eq!(cpu.regs.b, 0x05);
    assert!(cpu.regs.flag_c());
    assert_eq!(c, vec![2, 4, 4, 2, 2]);
}

#[test]
fn cycles_follow_timing_table() {
    let mut cpu = Cpu::new();
    let mut bus = Bus::new();
    cpu.regs.sp = 0xDFF0;
    cpu.regs.set_flags(false, false, false, false);
    // NOP; LD BC,d16; JR NZ,+0 (taken); JR Z,+0 (not taken); CALL 0xC010; ... at C010: RET
    bus.write(0xC010, 0xC9);
    let c = run(&mut cpu, &mut bus, &[0x00, 0x01, 0x34, 0x12, 0x20, 0x00, 0x28, 0x00, 0xCD, 0x10, 0xC0], 5);
    assert_eq!(c, vec![1, 3, 3, 2, 6]);
    assert_eq!(cpu.regs.pc, 0xC010);
    cpu.reset_step_cycles();
    cpu.fetch_instruction(&bus);
    cpu.fetch_data(&bus);
    cpu.execute(&mut bus);
    assert_eq!(cpu.take_t_cycles(), 16);
    assert_eq!(cpu.regs.pc, 0xC00B);
    assert_eq!(cpu.regs.bc(), 0x1234);
}

#[test]
fn alu_flag_rules() {
    let mut cpu = Cpu::new();
    let mut bus = Bus::new();
    // LD A,0x3A ; SUB 0x3A -> Z N ; LD A,0x10 ; SUB 0x01 -> H ; CP 0x20 -> C
    run(&mut cpu, &mut bus, &[0x3E, 0x3A, 0xD6, 0x3A], 2);
    assert_eq!(cpu.regs.a, 0);
    assert_eq!(cpu.regs.f, 0xC0);
    let mut cpu = Cpu::new();
    run(&mut cpu, &mut bus, &[0x3E, 0x10, 0xD6, 0x01, 0xFE, 0x20], 3);
    assert_eq!(cpu.regs.a, 0x0F);
    assert!(cpu.regs.flag_n());
    assert!(cpu.regs.flag_c());
    // ADC with carry in: A=0xFF, C=1, ADC A,0x00 -> 0x00, Z H C
    let mut cpu = Cpu::new();
    cpu.regs.set_flags(false, false, false, true);
    run(&mut cpu, &mut bus, &[0x3E, 0xFF, 0xCE, 0x00], 2);
    assert_eq!(cpu.regs.a, 0x00);
    assert_eq!(cpu.regs.f, 0xB0);
    // ADD HL,BC with carries out of bit 11 and 15
    let mut cpu = Cpu::new();
    cpu.regs.set_hl(0x8FFF);
    cpu.regs.set_bc(0x8001);
    run(&mut cpu, &mut bus, &[0x09], 1);
    assert_eq!(cpu.regs.hl(), 0x1000);
    assert!(cpu.regs.flag_h());
    assert!(cpu.regs.flag_c());
    // ADD SP,1 from 0x00FF: carries come from the unsigned low byte
    let mut cpu = Cpu::new();
    cpu.regs.sp = 0x00FF;
    run(&mut cpu, &mut bus, &[0xE8, 0x01], 1);
    assert_eq!(cpu.regs.sp, 0x0100);
    assert!(cpu.regs.flag_h());
    assert!(cpu.regs.flag_c());
    assert!(!cpu.regs.flag_z());
}

#[test]
fn ei_is_delayed_and_di_immediate() {
    let mut cpu = Cpu::new();
    let mut bus = Bus::new();
    run(&mut cpu, &mut bus, &[0xFB], 1);
    assert!(!cpu.ime);
    assert!(cpu.enabling_ime);
    let mut cpu = Cpu::new();
    cpu.ime = true;
    run(&mut cpu, &mut bus, &[0xF3], 1);
    assert!(!cpu.ime);
}

#[test]
fn interrupt_dispatch_pushes_pc() {
    let mut cpu = Cpu::new();
    let mut bus = Bus::new();
    cpu.regs.pc = 0x1234;
    cpu.regs.sp = 0xFFFE;
    cpu.ime = true;
    cpu.ie_register = 0x1F;
    cpu.int_flags = 0x06;
    cpu.halted = true;
    assert!(cpu.handle_interrupts(&mut bus));
    assert_eq!(cpu.regs.pc, 0x0048);
    assert_eq!(cpu.int_flags, 0x04);
    assert!(!cpu.ime);
    assert!(!cpu.halted);
    assert_eq!(cpu.regs.sp, 0xFFFC);
    assert_eq!(bus.read16(0xFFFC), 0x1234);
    assert_eq!(cpu.take_t_cycles(), 20);
    cpu.ime = false;
    assert!(!cpu.handle_interrupts(&mut bus));
}

#[test]
fn decode_tables() {
    let i = instruction_by_opcode(0x7E);
    assert_eq!(i.inst_type, InstructionType::Ld);
    assert_eq!(i.mode, AddressingMode::RegisterMemory);
    assert_eq!(i.reg1, RegisterType::A);
    assert_eq!(i.reg2, RegisterType::Hl);
    assert_eq!(instruction_by_opcode(0xD3).inst_type, InstructionType::Undefined);
    assert_eq!(instruction_by_opcode(0xEF).param, 0x28);
    assert_eq!(instruction_by_opcode(0xFE).inst_type, InstructionType::Cp);
    let c = cb_instruction_by_opcode(0x7E);
    assert_eq!(c.inst_type, InstructionType::Bit);
    assert_eq!(c.param, 7);
    assert_eq!(c.mode, AddressingMode::MemoryRegisterOnly);
}
