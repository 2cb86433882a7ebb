use nes_emu::addr_modes::AddrMode;
use nes_emu::instruction_summary::InstructionSummary;
use nes_emu::instructions::Instruction;

#[test]
fn every_byte_has_a_deterministic_entry() {
    let mut documented = 0;
    for b in 0..=255u8 {
        let first = InstructionSummary::from(b);
        let second = InstructionSummary::from_opcode(b);
        assert_eq!(first, second);
        assert!(first.cycles >= 2 && first.cycles <= 7);
        if first.instruction != Instruction::InvalidInstruction {
            documented += 1;
        }
    }
    assert_eq!(documented, 151);
}

#[test]
fn known_entries() {
    let lda = InstructionSummary::from_opcode(0xA9);
    assert_eq!(lda.addr_mode, AddrMode::Immediate);
    assert_eq!(lda.instruction, Instruction::LDA_LoadAccWithMemory);
    assert_eq!(lda.cycles, 2);

    let jmp = InstructionSummary::from_opcode(0x6C);
    assert_eq!(jmp.addr_mode, AddrMode::Indirect);
    assert_eq!(jmp.instruction, Instruction::JMP_JumpTo);
    assert_eq!(jmp.cycles, 5);

    let sta = InstructionSummary::from_opcode(0x91);
    assert_eq!(sta.addr_mode, AddrMode::IndirectOffsetY);
    assert_eq!(sta.instruction, Instruction::STA_StoreAccInMemory);
    assert_eq!(sta.cycles, 6);

    let brk = InstructionSummary::from_opcode(0x00);
    assert_eq!(brk, InstructionSummary::new(AddrMode::Implied, Instruction::BRK_ForceBreak, 7));
}

#[test]
fn undocumented_bytes_are_invalid() {
    for b in [0x02u8, 0x03, 0x1A, 0x80, 0xFF] {
        let entry = InstructionSummary::from_opcode(b);
        assert_eq!(entry.instruction, Instruction::InvalidInstruction);
        assert_eq!(entry.addr_mode, AddrMode::Implied);
        assert_eq!(entry.cycles, 2);
    }
}

#[test]
fn mnemonics() {
    assert_eq!(Instruction::ADC_AddMemoryToAccWithCarry.mnemonic(), "ADC");
    assert_eq!(Instruction::TYA_TransferYToAcc.to_string(), "TYA");
    assert_eq!(Instruction::InvalidInstruction.to_string(), "INVALID INSTRUCTION!");
}
