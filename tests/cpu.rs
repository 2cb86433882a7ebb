use nes_emu::addr_modes::AddrMode;
use nes_emu::bus::Bus;
use nes_emu::instructions::Instruction;
use nes_emu::mos_6502::{Flag, Mos6502};

fn cpu_with(addr: u16, bytes: &[u8]) -> Mos6502 {
    let mut bus = Bus::new();
    for (i, b) in bytes.iter().enumerate() {
        bus.write(addr + i as u16, *b);
    }
    let mut cpu = Mos6502::new(bus);
    cpu.pc = addr;
    cpu
}

/// Ticks until the instruction dispatched by the first tick has drained;
/// returns how many ticks that took.
fn ticks_for_instruction(cpu: &mut Mos6502) -> u32 {
    let mut ticks = 1;
    cpu.clock();
    while cpu.cycles != 0 {
        cpu.clock();
        ticks += 1;
    }
    ticks
}

#[test]
fn new_cpu_is_zeroed() {
    let cpu = Mos6502::new(Bus::new());
    assert_eq!(
        (cpu.pc, cpu.a, cpu.x, cpu.y, cpu.stack_ptr, cpu.status_flags, cpu.cycles),
        (0, 0, 0, 0, 0, 0, 0)
    );
}

#[test]
fn ora_immediate_scenario() {
    let mut cpu = cpu_with(0x8000, &[0x09, 0x05]);
    cpu.a = 0x00;
    assert_eq!(ticks_for_instruction(&mut cpu), 2);
    assert_eq!(cpu.a, 0x05);
    assert!(!cpu.get_flag(Flag::Zero));
    assert!(!cpu.get_flag(Flag::Negative));
    assert_eq!(cpu.pc, 0x8002);
}

#[test]
fn asl_accumulator_scenario() {
    let mut cpu = cpu_with(0x8000, &[0x0A]);
    cpu.a = 0x80;
    assert_eq!(ticks_for_instruction(&mut cpu), 2);
    assert_eq!(cpu.a, 0x00);
    assert!(cpu.get_flag(Flag::Carry));
    assert!(cpu.get_flag(Flag::Zero));
    assert!(!cpu.get_flag(Flag::Negative));
    assert_eq!(cpu.pc, 0x8001);
}

#[test]
fn jsr_scenario() {
    let mut cpu = cpu_with(0x8000, &[0x20, 0x00, 0x90]);
    cpu.stack_ptr = 0xFF;
    assert_eq!(ticks_for_instruction(&mut cpu), 6);
    assert_eq!(cpu.bus.read(0x01FF), 0x80);
    assert_eq!(cpu.bus.read(0x01FE), 0x02);
    assert_eq!(cpu.stack_ptr, 0xFD);
    assert_eq!(cpu.pc, 0x9000);
}

#[test]
fn jsr_then_rts_returns_after_call() {
    let mut cpu = cpu_with(0x8000, &[0x20, 0x00, 0x90]);
    cpu.bus.write(0x9000, 0x60);
    cpu.stack_ptr = 0xFF;
    cpu.step_instruction();
    cpu.step_instruction();
    assert_eq!(cpu.pc, 0x8003);
    assert_eq!(cpu.stack_ptr, 0xFF);
}

#[test]
fn pha_then_pla_restores_accumulator() {
    let mut cpu = cpu_with(0x8000, &[0x48, 0xA9, 0x00, 0x68]);
    cpu.stack_ptr = 0xFD;
    cpu.a = 0x9C;
    cpu.step_instruction();
    assert_eq!(cpu.stack_ptr, 0xFC);
    cpu.step_instruction();
    assert_eq!(cpu.a, 0x00);
    cpu.step_instruction();
    assert_eq!(cpu.a, 0x9C);
    assert_eq!(cpu.stack_ptr, 0xFD);
    assert!(cpu.get_flag(Flag::Negative));
}

#[test]
fn flag_round_trip() {
    let flags = [
        Flag::Carry,
        Flag::Zero,
        Flag::DisableInterrupts,
        Flag::DecimalMode,
        Flag::Break,
        Flag::Unused,
        Flag::Overflow,
        Flag::Negative,
    ];
    for (i, flag) in flags.iter().enumerate() {
        let mut cpu = Mos6502::new(Bus::new());
        cpu.status_flags = 0b1010_0101;
        let before = cpu.status_flags;
        cpu.set_flag(*flag, true);
        assert!(cpu.get_flag(*flag));
        assert_eq!(cpu.status_flags, before | (1 << i));
        cpu.set_flag(*flag, false);
        assert!(!cpu.get_flag(*flag));
        assert_eq!(cpu.status_flags, before & !(1 << i));
    }
}

#[test]
fn zero_page_offset_wraps_in_page_zero() {
    let mut cpu = cpu_with(0x8000, &[0xFF]);
    cpu.x = 0x10;
    assert_eq!(cpu.handle_addr_mode(AddrMode::ZeroPageOffsetX), 0);
    assert_eq!(cpu.addr_abs, 0x000F);
    assert_eq!(cpu.pc, 0x8001);
    let mut cpu = cpu_with(0x8000, &[0x80]);
    cpu.y = 0xFF;
    cpu.handle_addr_mode(AddrMode::ZeroPageOffsetY);
    assert_eq!(cpu.addr_abs, 0x007F);
}

#[test]
fn indirect_reproduces_page_wrap_bug() {
    let mut cpu = cpu_with(0x8000, &[0xFF, 0x02]);
    cpu.bus.write(0x02FF, 0x34);
    cpu.bus.write(0x0200, 0x12);
    cpu.bus.write(0x0300, 0x56);
    assert_eq!(cpu.handle_addr_mode(AddrMode::Indirect), 0);
    assert_eq!(cpu.addr_abs, 0x1234);
    assert_eq!(cpu.pc, 0x8002);
}

#[test]
fn indirect_without_page_end() {
    let mut cpu = cpu_with(0x8000, &[0x10, 0x02]);
    cpu.bus.write(0x0210, 0x78);
    cpu.bus.write(0x0211, 0x56);
    cpu.handle_addr_mode(AddrMode::Indirect);
    assert_eq!(cpu.addr_abs, 0x5678);
}

#[test]
fn absolute_offset_page_cross_signal() {
    let mut cpu = cpu_with(0x8000, &[0xFF, 0x12]);
    cpu.x = 0x01;
    assert_eq!(cpu.handle_addr_mode(AddrMode::AbsoluteOffsetX), 1);
    assert_eq!(cpu.addr_abs, 0x1300);

    let mut cpu = cpu_with(0x8000, &[0x00, 0x12]);
    cpu.y = 0xFF;
    assert_eq!(cpu.handle_addr_mode(AddrMode::AbsoluteOffsetY), 0);
    assert_eq!(cpu.addr_abs, 0x12FF);

    let mut cpu = cpu_with(0x8000, &[0xFF, 0xFF]);
    cpu.x = 0x02;
    assert_eq!(cpu.handle_addr_mode(AddrMode::AbsoluteOffsetX), 1);
    assert_eq!(cpu.addr_abs, 0x0001);
}

#[test]
fn indirect_offset_y_page_cross_signal() {
    let mut cpu = cpu_with(0x8000, &[0x40]);
    cpu.bus.write(0x0040, 0xF0);
    cpu.bus.write(0x0041, 0x20);
    cpu.y = 0x20;
    assert_eq!(cpu.handle_addr_mode(AddrMode::IndirectOffsetY), 1);
    assert_eq!(cpu.addr_abs, 0x2110);
    cpu.pc = 0x8000;
    cpu.y = 0x0F;
    assert_eq!(cpu.handle_addr_mode(AddrMode::IndirectOffsetY), 0);
    assert_eq!(cpu.addr_abs, 0x20FF);
}

#[test]
fn indirect_offset_x_wraps_in_page_zero() {
    let mut cpu = cpu_with(0x8000, &[0xFE]);
    cpu.x = 0x01;
    cpu.bus.write(0x00FF, 0xCD);
    cpu.bus.write(0x0000, 0xAB);
    assert_eq!(cpu.handle_addr_mode(AddrMode::IndirectOffsetX), 0);
    assert_eq!(cpu.addr_abs, 0xABCD);
}

#[test]
fn relative_displacement_sign_extends() {
    let mut cpu = cpu_with(0x8000, &[0x80, 0x7F]);
    cpu.handle_addr_mode(AddrMode::Relative);
    assert_eq!(cpu.addr_rel, 0xFF80);
    cpu.handle_addr_mode(AddrMode::Relative);
    assert_eq!(cpu.addr_rel, 0x007F);
    assert_eq!(cpu.pc, 0x8002);
}

#[test]
fn implied_latches_accumulator() {
    let mut cpu = cpu_with(0x8000, &[]);
    cpu.a = 0x3C;
    assert_eq!(cpu.handle_addr_mode(AddrMode::Implied), 0);
    assert_eq!(cpu.fetched, 0x3C);
    assert_eq!(cpu.pc, 0x8000);
}

#[test]
fn adc_sets_overflow_and_carry() {
    let mut cpu = cpu_with(0x8000, &[0x69, 0x50]);
    cpu.a = 0x50;
    cpu.step_instruction();
    assert_eq!(cpu.a, 0xA0);
    assert!(cpu.get_flag(Flag::Overflow));
    assert!(cpu.get_flag(Flag::Negative));
    assert!(!cpu.get_flag(Flag::Carry));

    let mut cpu = cpu_with(0x8000, &[0x69, 0x01]);
    cpu.a = 0xFF;
    cpu.set_flag(Flag::Carry, true);
    cpu.step_instruction();
    assert_eq!(cpu.a, 0x01);
    assert!(cpu.get_flag(Flag::Carry));
    assert!(!cpu.get_flag(Flag::Overflow));
}

#[test]
fn sbc_borrows() {
    let mut cpu = cpu_with(0x8000, &[0xE9, 0xF0]);
    cpu.a = 0x50;
    cpu.set_flag(Flag::Carry, true);
    cpu.step_instruction();
    assert_eq!(cpu.a, 0x60);
    assert!(!cpu.get_flag(Flag::Carry));
    assert!(!cpu.get_flag(Flag::Overflow));

    let mut cpu = cpu_with(0x8000, &[0xE9, 0x01]);
    cpu.a = 0x80;
    cpu.set_flag(Flag::Carry, true);
    cpu.step_instruction();
    assert_eq!(cpu.a, 0x7F);
    assert!(cpu.get_flag(Flag::Carry));
    assert!(cpu.get_flag(Flag::Overflow));
}

#[test]
fn compare_sets_carry_zero_negative() {
    let mut cpu = cpu_with(0x8000, &[0xC9, 0x10, 0xE0, 0x20, 0xC0, 0x05]);
    cpu.a = 0x10;
    cpu.x = 0x10;
    cpu.y = 0x05;
    cpu.step_instruction();
    assert!(cpu.get_flag(Flag::Carry) && cpu.get_flag(Flag::Zero));
    cpu.step_instruction();
    assert!(!cpu.get_flag(Flag::Carry) && !cpu.get_flag(Flag::Zero));
    assert!(cpu.get_flag(Flag::Negative));
    cpu.step_instruction();
    assert!(cpu.get_flag(Flag::Carry) && cpu.get_flag(Flag::Zero));
    assert_eq!(cpu.a, 0x10);
}

#[test]
fn memory_increment_and_decrement_wrap() {
    let mut cpu = cpu_with(0x8000, &[0xE6, 0x10, 0xC6, 0x11]);
    cpu.bus.write(0x0010, 0xFF);
    cpu.bus.write(0x0011, 0x00);
    cpu.step_instruction();
    assert_eq!(cpu.bus.read(0x0010), 0x00);
    assert!(cpu.get_flag(Flag::Zero));
    cpu.step_instruction();
    assert_eq!(cpu.bus.read(0x0011), 0xFF);
    assert!(cpu.get_flag(Flag::Negative));
}

#[test]
fn register_increment_and_decrement_wrap() {
    let mut cpu = cpu_with(0x8000, &[0xE8, 0x88, 0xCA, 0xC8]);
    cpu.x = 0xFF;
    cpu.y = 0x00;
    cpu.step_instruction();
    assert_eq!(cpu.x, 0x00);
    cpu.step_instruction();
    assert_eq!(cpu.y, 0xFF);
    cpu.step_instruction();
    assert_eq!(cpu.x, 0xFF);
    cpu.step_instruction();
    assert_eq!(cpu.y, 0x00);
    assert!(cpu.get_flag(Flag::Zero));
}

#[test]
fn shifts_and_rotates_on_memory() {
    let mut cpu = cpu_with(0x8000, &[0x46, 0x20, 0x26, 0x21, 0x66, 0x22]);
    cpu.bus.write(0x0020, 0x03);
    cpu.bus.write(0x0021, 0x40);
    cpu.bus.write(0x0022, 0x02);
    cpu.step_instruction();
    assert_eq!(cpu.bus.read(0x0020), 0x01);
    assert!(cpu.get_flag(Flag::Carry));
    cpu.step_instruction();
    assert_eq!(cpu.bus.read(0x0021), 0x81);
    assert!(!cpu.get_flag(Flag::Carry));
    assert!(cpu.get_flag(Flag::Negative));
    cpu.set_flag(Flag::Carry, true);
    cpu.step_instruction();
    assert_eq!(cpu.bus.read(0x0022), 0x81);
    assert!(!cpu.get_flag(Flag::Carry));
}

#[test]
fn bit_test_flags() {
    let mut cpu = cpu_with(0x8000, &[0x24, 0x30]);
    cpu.bus.write(0x0030, 0xC0);
    cpu.a = 0x01;
    cpu.step_instruction();
    assert!(cpu.get_flag(Flag::Zero));
    assert!(cpu.get_flag(Flag::Negative));
    assert!(cpu.get_flag(Flag::Overflow));
    assert_eq!(cpu.a, 0x01);
}

#[test]
fn loads_and_stores() {
    let mut cpu = cpu_with(0x8000, &[0xA2, 0x07, 0xA0, 0x80, 0x86, 0x40, 0x8C, 0x00, 0x03]);
    cpu.step_instruction();
    assert_eq!(cpu.x, 0x07);
    cpu.step_instruction();
    assert_eq!(cpu.y, 0x80);
    assert!(cpu.get_flag(Flag::Negative));
    cpu.step_instruction();
    assert_eq!(cpu.bus.read(0x0040), 0x07);
    cpu.step_instruction();
    assert_eq!(cpu.bus.read(0x0300), 0x80);
}

#[test]
fn transfers() {
    let mut cpu = cpu_with(0x8000, &[0xAA, 0x9A, 0xA8, 0xBA, 0x8A, 0x98]);
    cpu.a = 0x42;
    cpu.step_instruction();
    assert_eq!(cpu.x, 0x42);
    cpu.step_instruction();
    assert_eq!(cpu.stack_ptr, 0x42);
    cpu.step_instruction();
    assert_eq!(cpu.y, 0x42);
    cpu.stack_ptr = 0x00;
    cpu.step_instruction();
    assert_eq!(cpu.x, 0x00);
    assert!(cpu.get_flag(Flag::Zero));
    cpu.step_instruction();
    assert_eq!(cpu.a, 0x00);
    cpu.step_instruction();
    assert_eq!(cpu.a, 0x42);
    assert!(!cpu.get_flag(Flag::Zero));
}

#[test]
fn flag_instructions() {
    let mut cpu = cpu_with(0x8000, &[0x38, 0xF8, 0x78, 0x18, 0xD8, 0x58, 0xB8]);
    cpu.step_instruction();
    cpu.step_instruction();
    cpu.step_instruction();
    assert_eq!(cpu.status_flags, 0b0000_1101);
    cpu.set_flag(Flag::Overflow, true);
    cpu.step_instruction();
    cpu.step_instruction();
    cpu.step_instruction();
    cpu.step_instruction();
    assert_eq!(cpu.status_flags, 0);
}

#[test]
fn branch_cycles() {
    // not taken: two cycles
    let mut cpu = cpu_with(0x8000, &[0xF0, 0x05]);
    assert_eq!(ticks_for_instruction(&mut cpu), 2);
    assert_eq!(cpu.pc, 0x8002);
    // taken, same page: three cycles
    let mut cpu = cpu_with(0x8000, &[0xD0, 0x05]);
    assert_eq!(ticks_for_instruction(&mut cpu), 3);
    assert_eq!(cpu.pc, 0x8007);
    // taken, to another page: four cycles
    let mut cpu = cpu_with(0x80FC, &[0xD0, 0x05]);
    assert_eq!(ticks_for_instruction(&mut cpu), 4);
    assert_eq!(cpu.pc, 0x8103);
    // taken backwards
    let mut cpu = cpu_with(0x8010, &[0x10, 0xFC]);
    assert_eq!(ticks_for_instruction(&mut cpu), 3);
    assert_eq!(cpu.pc, 0x800E);
}

#[test]
fn page_crossing_load_costs_a_cycle() {
    let mut cpu = cpu_with(0x8000, &[0xBD, 0xFF, 0x20]);
    cpu.x = 1;
    cpu.bus.write(0x2100, 0x99);
    assert_eq!(ticks_for_instruction(&mut cpu), 5);
    assert_eq!(cpu.a, 0x99);
    let mut cpu = cpu_with(0x8000, &[0xBD, 0x00, 0x20]);
    cpu.x = 1;
    assert_eq!(ticks_for_instruction(&mut cpu), 4);
}

#[test]
fn jmp_absolute_and_indirect() {
    let mut cpu = cpu_with(0x8000, &[0x4C, 0x34, 0x12]);
    assert_eq!(ticks_for_instruction(&mut cpu), 3);
    assert_eq!(cpu.pc, 0x1234);
    let mut cpu = cpu_with(0x8000, &[0x6C, 0xFF, 0x30]);
    cpu.bus.write(0x30FF, 0x00);
    cpu.bus.write(0x3000, 0x40);
    cpu.bus.write(0x3100, 0x50);
    assert_eq!(ticks_for_instruction(&mut cpu), 5);
    assert_eq!(cpu.pc, 0x4000);
}

#[test]
fn brk_then_rti() {
    let mut cpu = cpu_with(0x8000, &[0x00, 0xEA]);
    cpu.bus.write(0xFFFE, 0x00);
    cpu.bus.write(0xFFFF, 0x90);
    cpu.bus.write(0x9000, 0x40);
    cpu.stack_ptr = 0xFF;
    cpu.status_flags = 0b0000_0001;
    assert_eq!(ticks_for_instruction(&mut cpu), 7);
    assert_eq!(cpu.pc, 0x9000);
    assert_eq!(cpu.bus.read(0x01FF), 0x80);
    assert_eq!(cpu.bus.read(0x01FE), 0x02);
    assert_eq!(cpu.bus.read(0x01FD), 0b0001_0001);
    assert_eq!(cpu.stack_ptr, 0xFC);
    assert!(cpu.get_flag(Flag::DisableInterrupts));
    assert!(!cpu.get_flag(Flag::Break));
    cpu.step_instruction();
    assert_eq!(cpu.pc, 0x8002);
    assert_eq!(cpu.status_flags, 0b0001_0001);
    assert_eq!(cpu.stack_ptr, 0xFF);
}

#[test]
fn php_then_plp() {
    let mut cpu = cpu_with(0x8000, &[0x08, 0x28]);
    cpu.stack_ptr = 0xFF;
    cpu.status_flags = 0b1000_0001;
    cpu.step_instruction();
    assert_eq!(cpu.bus.read(0x01FF), 0b1011_0001);
    assert_eq!(cpu.status_flags, 0b1000_0001);
    cpu.step_instruction();
    assert_eq!(cpu.status_flags, 0b1011_0001);
}

#[test]
fn stack_pointer_wraps() {
    let mut cpu = cpu_with(0x8000, &[0x48, 0x68]);
    cpu.stack_ptr = 0x00;
    cpu.a = 0x11;
    cpu.step_instruction();
    assert_eq!(cpu.bus.read(0x0100), 0x11);
    assert_eq!(cpu.stack_ptr, 0xFF);
    cpu.step_instruction();
    assert_eq!(cpu.stack_ptr, 0x00);
    assert_eq!(cpu.a, 0x11);
}

#[test]
fn invalid_opcode_is_reported_and_changes_no_register() {
    let mut cpu = cpu_with(0x8000, &[0x02]);
    cpu.a = 1;
    cpu.x = 2;
    cpu.y = 3;
    assert!(cpu.clock());
    assert_eq!(cpu.cycles, 1);
    assert!(!cpu.clock());
    assert_eq!(cpu.cycles, 0);
    assert_eq!((cpu.a, cpu.x, cpu.y, cpu.status_flags), (1, 2, 3, 0));
    assert_eq!(cpu.pc, 0x8001);
}

#[test]
fn clock_counts_down_without_executing() {
    let mut cpu = cpu_with(0x8000, &[0xE8]);
    cpu.cycles = 3;
    cpu.clock();
    assert_eq!(cpu.cycles, 2);
    assert_eq!(cpu.x, 0);
    assert_eq!(cpu.pc, 0x8000);
}

#[test]
fn handle_instruction_reports_branch_cycles() {
    let mut cpu = cpu_with(0x80F0, &[]);
    cpu.pc = 0x80F0;
    cpu.addr_rel = 0x0020;
    cpu.set_flag(Flag::Carry, true);
    assert_eq!(cpu.handle_instruction(Instruction::BCS_BranchOnCarrySet), 2);
    assert_eq!(cpu.pc, 0x8110);
    assert_eq!(cpu.handle_instruction(Instruction::BCC_BranchOnCarryClear), 0);
    assert_eq!(cpu.handle_instruction(Instruction::NOP_NoOperation), 0);
}

#[test]
fn fetch_reads_resolved_address() {
    let mut cpu = cpu_with(0x8000, &[]);
    cpu.opcode = 0xAD;
    cpu.addr_abs = 0x1234;
    cpu.bus.write(0x1234, 0x77);
    assert_eq!(cpu.fetch(), 0x77);
    assert_eq!(cpu.fetched, 0x77);
    cpu.opcode = 0x0A;
    cpu.fetched = 0x05;
    assert_eq!(cpu.fetch(), 0x05);
}

#[test]
fn read_word_is_little_endian_and_wraps() {
    let mut cpu = cpu_with(0x8000, &[]);
    cpu.bus.write(0x1000, 0x34);
    cpu.bus.write(0x1001, 0x12);
    assert_eq!(cpu.read_word(0x1000), 0x1234);
    assert_eq!(cpu.read_word_and_bytes(0x1000), (0x1234, 0x12, 0x34));
    cpu.bus.write(0xFFFF, 0xCD);
    cpu.bus.write(0x0000, 0xAB);
    assert_eq!(cpu.read_word(0xFFFF), 0xABCD);
    assert_eq!(cpu.read_byte(0xFFFF), 0xCD);
}

#[test]
fn reset_loads_vector_when_idle() {
    let mut cpu = cpu_with(0x8000, &[]);
    cpu.bus.write(0xFFFC, 0x00);
    cpu.bus.write(0xFFFD, 0xC0);
    cpu.a = 5;
    cpu.reset();
    assert_eq!(cpu.pc, 0xC000);
    assert_eq!(cpu.a, 0);
    assert_eq!(cpu.stack_ptr, 0xFD);
    assert_eq!(cpu.status_flags, 0x20);
    assert_eq!(cpu.cycles, 8);
    // mid-instruction: ignored
    cpu.a = 9;
    cpu.reset();
    assert_eq!(cpu.a, 9);
}

#[test]
fn irq_respects_disable_flag() {
    let mut cpu = cpu_with(0x8000, &[]);
    cpu.bus.write(0xFFFE, 0x00);
    cpu.bus.write(0xFFFF, 0xA0);
    cpu.stack_ptr = 0xFF;
    cpu.set_flag(Flag::DisableInterrupts, true);
    cpu.irq();
    assert_eq!(cpu.pc, 0x8000);
    cpu.set_flag(Flag::DisableInterrupts, false);
    cpu.irq();
    assert_eq!(cpu.pc, 0xA000);
    assert_eq!(cpu.bus.read(0x01FF), 0x80);
    assert_eq!(cpu.bus.read(0x01FE), 0x00);
    assert_eq!(cpu.bus.read(0x01FD), 0x20);
    assert_eq!(cpu.stack_ptr, 0xFC);
    assert_eq!(cpu.cycles, 7);
    assert!(cpu.get_flag(Flag::DisableInterrupts));
}

#[test]
fn nmi_ignores_disable_flag() {
    let mut cpu = cpu_with(0x8123, &[]);
    cpu.bus.write(0xFFFA, 0x34);
    cpu.bus.write(0xFFFB, 0x12);
    cpu.stack_ptr = 0xFF;
    cpu.set_flag(Flag::DisableInterrupts, true);
    cpu.nmi();
    assert_eq!(cpu.pc, 0x1234);
    assert_eq!(cpu.bus.read(0x01FF), 0x81);
    assert_eq!(cpu.bus.read(0x01FE), 0x23);
    assert_eq!(cpu.cycles, 8);
    // mid-instruction: ignored
    let pc = cpu.pc;
    cpu.nmi();
    assert_eq!(cpu.pc, pc);
}

#[test]
fn write_byte_and_lookup() {
    let mut cpu = cpu_with(0x8000, &[]);
    cpu.write_byte(0x4000, 0x5A);
    assert_eq!(cpu.read_byte(0x4000), 0x5A);
    assert_eq!(cpu.lookup_opcode(0x09).instruction, Instruction::ORA_ORMemoryWithAcc);
}
