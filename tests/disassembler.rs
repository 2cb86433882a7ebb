use nes_emu::bus::Bus;
use nes_emu::disassembler::disassemble;
use nes_emu::mos_6502::Mos6502;

fn cpu_with(addr: u16, bytes: &[u8]) -> Mos6502 {
    let mut bus = Bus::new();
    for (i, b) in bytes.iter().enumerate() {
        bus.write(addr + i as u16, *b);
    }
    Mos6502::new(bus)
}

#[test]
fn disassembles_a_program() {
    let cpu = cpu_with(
        0x8000,
        &[0xA9, 0x01, 0x8D, 0x00, 0x02, 0xA9, 0x05, 0x8D, 0x01, 0x02, 0xA9, 0x08, 0x8D, 0x02, 0x02],
    );
    let lines = disassemble(&cpu, 0x8000, 0x800C);
    assert_eq!(
        lines,
        vec!["LDA #$01", "STA $0200", "LDA #$05", "STA $0201", "LDA #$08", "STA $0202"]
    );
    assert_eq!(cpu.pc, 0);
}

#[test]
fn disassembles_each_operand_form() {
    let cpu = cpu_with(
        0x0400,
        &[
            0xEA, // NOP
            0xB5, 0x10, // LDA $10, X
            0xB6, 0x20, // LDX $20, Y
            0x1D, 0x34, 0x12, // ORA $1234, X
            0xB9, 0xCD, 0xAB, // LDA $ABCD, Y
            0x6C, 0xFF, 0x02, // JMP ($02FF)
            0xA1, 0x40, // LDA ($40, X)
            0x91, 0x50, // STA ($50), Y
            0xD0, 0xFE, // BNE $FE [$0412]
            0x10, 0x03, // BPL $03 [$0419]
            0x02, // invalid
        ],
    );
    let lines = disassemble(&cpu, 0x0400, 0x0416);
    assert_eq!(
        lines,
        vec![
            "NOP",
            "LDA $10, X",
            "LDX $20, Y",
            "ORA $1234, X",
            "LDA $ABCD, Y",
            "JMP ($02FF)",
            "LDA ($40, X)",
            "STA ($50), Y",
            "BNE $FE [$0412]",
            "BPL $03 [$0419]",
            "INVALID INSTRUCTION!",
        ]
    );
}

#[test]
fn empty_range_gives_no_lines() {
    let cpu = cpu_with(0x8000, &[0xEA]);
    assert!(disassemble(&cpu, 0x8001, 0x8000).is_empty());
}

#[test]
fn last_instruction_may_run_past_end() {
    let cpu = cpu_with(0x8000, &[0xEA, 0x4C, 0x00, 0x80]);
    assert_eq!(disassemble(&cpu, 0x8000, 0x8001), vec!["NOP", "JMP $8000"]);
}

#[test]
fn disassembles_up_to_top_of_memory() {
    let mut cpu = cpu_with(0xFFFE, &[0xE8, 0xA9]);
    cpu.bus.write(0x0000, 0x42);
    assert_eq!(disassemble(&cpu, 0xFFFE, 0xFFFF), vec!["INX", "LDA #$42"]);
}
