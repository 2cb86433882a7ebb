use vstd::prelude::*;
use crate::addr_modes::AddrMode;
use crate::instructions::Instruction;

verus! {

/// What an opcode byte selects: how its operand is found, what it does, and how
/// many cycles it takes before any extra cycle is charged.
#[derive(Clone, Copy, Debug, PartialEq, Eq, Structural)]
pub struct InstructionSummary {
    pub addr_mode: AddrMode,
    pub instruction: Instruction,
    pub cycles: u8,
}

pub open spec fn summary(addr_mode: AddrMode, instruction: Instruction, cycles: u8) -> InstructionSummary {
    InstructionSummary { addr_mode, instruction, cycles }
}

/// Cycle cost of a byte that names no documented instruction.
pub const INVALID_OPCODE_CYCLES: u8 = 2;

/// The opcode table: every byte maps to one entry, and the bytes that name no
/// documented instruction map to the invalid operation.
pub open spec fn summary_of(opcode: u8) -> InstructionSummary {
    match opcode {
        0x00 => summary(AddrMode::Implied, Instruction::BRK_ForceBreak, 7),
        0x01 => summary(AddrMode::IndirectOffsetX, Instruction::ORA_ORMemoryWithAcc, 6),
        0x05 => summary(AddrMode::ZeroPage, Instruction::ORA_ORMemoryWithAcc, 3),
        0x06 => summary(AddrMode::ZeroPage, Instruction::ASL_ShiftLeftOneBit, 5),
        0x08 => summary(AddrMode::Implied, Instruction::PHP_PushProcessorStatusOnStack, 3),
        0x09 => summary(AddrMode::Immediate, Instruction::ORA_ORMemoryWithAcc, 2),
        0x0A => summary(AddrMode::Implied, Instruction::ASL_ShiftLeftOneBit, 2),
        0x0D => summary(AddrMode::Absolute, Instruction::ORA_ORMemoryWithAcc, 4),
        0x0E => summary(AddrMode::Absolute, Instruction::ASL_ShiftLeftOneBit, 6),
        0x10 => summary(AddrMode::Relative, Instruction::BPL_BranchOnResultPlus, 2),
        0x11 => summary(AddrMode::IndirectOffsetY, Instruction::ORA_ORMemoryWithAcc, 5),
        0x15 => summary(AddrMode::ZeroPageOffsetX, Instruction::ORA_ORMemoryWithAcc, 4),
        0x16 => summary(AddrMode::ZeroPageOffsetX, Instruction::ASL_ShiftLeftOneBit, 6),
        0x18 => summary(AddrMode::Implied, Instruction::CLC_ClearCarryFlag, 2),
        0x19 => summary(AddrMode::AbsoluteOffsetY, Instruction::ORA_ORMemoryWithAcc, 4),
        0x1D => summary(AddrMode::AbsoluteOffsetX, Instruction::ORA_ORMemoryWithAcc, 4),
        0x1E => summary(AddrMode::AbsoluteOffsetX, Instruction::ASL_ShiftLeftOneBit, 7),
        0x20 => summary(AddrMode::Absolute, Instruction::JSR_JumpToSavingReturnAddr, 6),
        0x21 => summary(AddrMode::IndirectOffsetX, Instruction::AND_AndBitwiseWithAcc, 6),
        0x24 => summary(AddrMode::ZeroPage, Instruction::BIT_BitTestInMemoryWithAcc, 3),
        0x25 => summary(AddrMode::ZeroPage, Instruction::AND_AndBitwiseWithAcc, 3),
        0x26 => summary(AddrMode::ZeroPage, Instruction::ROL_RotateOneBitLeft, 5),
        0x28 => summary(AddrMode::Implied, Instruction::PLP_PullProcessorStatusFromStack, 4),
        0x29 => summary(AddrMode::Immediate, Instruction::AND_AndBitwiseWithAcc, 2),
        0x2A => summary(AddrMode::Implied, Instruction::ROL_RotateOneBitLeft, 2),
        0x2C => summary(AddrMode::Absolute, Instruction::BIT_BitTestInMemoryWithAcc, 4),
        0x2D => summary(AddrMode::Absolute, Instruction::AND_AndBitwiseWithAcc, 4),
        0x2E => summary(AddrMode::Absolute, Instruction::ROL_RotateOneBitLeft, 6),
        0x30 => summary(AddrMode::Relative, Instruction::BMI_BranchOnResultMinus, 2),
        0x31 => summary(AddrMode::IndirectOffsetY, Instruction::AND_AndBitwiseWithAcc, 5),
        0x35 => summary(AddrMode::ZeroPageOffsetX, Instruction::AND_AndBitwiseWithAcc, 4),
        0x36 => summary(AddrMode::ZeroPageOffsetX, Instruction::ROL_RotateOneBitLeft, 6),
        0x38 => summary(AddrMode::Implied, Instruction::SEC_SetCarryFlag, 2),
        0x39 => summary(AddrMode::AbsoluteOffsetY, Instruction::AND_AndBitwiseWithAcc, 4),
        0x3D => summary(AddrMode::AbsoluteOffsetX, Instruction::AND_AndBitwiseWithAcc, 4),
        0x3E => summary(AddrMode::AbsoluteOffsetX, Instruction::ROL_RotateOneBitLeft, 7),
        0x40 => summary(AddrMode::Implied, Instruction::RTI_ReturnFromInterrupt, 6),
        0x41 => summary(AddrMode::IndirectOffsetX, Instruction::EOR_ExclusiveORMemoryWithAcc, 6),
        0x45 => summary(AddrMode::ZeroPage, Instruction::EOR_ExclusiveORMemoryWithAcc, 3),
        0x46 => summary(AddrMode::ZeroPage, Instruction::LSR_ShiftOneBitRight, 5),
        0x48 => summary(AddrMode::Implied, Instruction::PHA_PushAccOnStack, 3),
        0x49 => summary(AddrMode::Immediate, Instruction::EOR_ExclusiveORMemoryWithAcc, 2),
        0x4A => summary(AddrMode::Implied, Instruction::LSR_ShiftOneBitRight, 2),
        0x4C => summary(AddrMode::Absolute, Instruction::JMP_JumpTo, 3),
        0x4D => summary(AddrMode::Absolute, Instruction::EOR_ExclusiveORMemoryWithAcc, 4),
        0x4E => summary(AddrMode::Absolute, Instruction::LSR_ShiftOneBitRight, 6),
        0x50 => summary(AddrMode::Relative, Instruction::BVC_BranchOnOverflowClear, 2),
        0x51 => summary(AddrMode::IndirectOffsetY, Instruction::EOR_ExclusiveORMemoryWithAcc, 5),
        0x55 => summary(AddrMode::ZeroPageOffsetX, Instruction::EOR_ExclusiveORMemoryWithAcc, 4),
        0x56 => summary(AddrMode::ZeroPageOffsetX, Instruction::LSR_ShiftOneBitRight, 6),
        0x58 => summary(AddrMode::Implied, Instruction::CLI_ClearInterruptDisableBit, 2),
        0x59 => summary(AddrMode::AbsoluteOffsetY, Instruction::EOR_ExclusiveORMemoryWithAcc, 4),
        0x5D => summary(AddrMode::AbsoluteOffsetX, Instruction::EOR_ExclusiveORMemoryWithAcc, 4),
        0x5E => summary(AddrMode::AbsoluteOffsetX, Instruction::LSR_ShiftOneBitRight, 7),
        0x60 => summary(AddrMode::Implied, Instruction::RTS_ReturnFromSubroutine, 6),
        0x61 => summary(AddrMode::IndirectOffsetX, Instruction::ADC_AddMemoryToAccWithCarry, 6),
        0x65 => summary(AddrMode::ZeroPage, Instruction::ADC_AddMemoryToAccWithCarry, 3),
        0x66 => summary(AddrMode::ZeroPage, Instruction::ROR_RotateOneBitRight, 5),
        0x68 => summary(AddrMode::Implied, Instruction::PLA_PullAccFromStack, 4),
        0x69 => summary(AddrMode::Immediate, Instruction::ADC_AddMemoryToAccWithCarry, 2),
        0x6A => summary(AddrMode::Implied, Instruction::ROR_RotateOneBitRight, 2),
        0x6C => summary(AddrMode::Indirect, Instruction::JMP_JumpTo, 5),
        0x6D => summary(AddrMode::Absolute, Instruction::ADC_AddMemoryToAccWithCarry, 4),
        0x6E => summary(AddrMode::Absolute, Instruction::ROR_RotateOneBitRight, 6),
        0x70 => summary(AddrMode::Relative, Instruction::BVS_BranchOnOverflowSet, 2),
        0x71 => summary(AddrMode::IndirectOffsetY, Instruction::ADC_AddMemoryToAccWithCarry, 5),
        0x75 => summary(AddrMode::ZeroPageOffsetX, Instruction::ADC_AddMemoryToAccWithCarry, 4),
        0x76 => summary(AddrMode::ZeroPageOffsetX, Instruction::ROR_RotateOneBitRight, 6),
        0x78 => summary(AddrMode::Implied, Instruction::SEI_SetInterruptDisableStatus, 2),
        0x79 => summary(AddrMode::AbsoluteOffsetY, Instruction::ADC_AddMemoryToAccWithCarry, 4),
        0x7D => summary(AddrMode::AbsoluteOffsetX, Instruction::ADC_AddMemoryToAccWithCarry, 4),
        0x7E => summary(AddrMode::AbsoluteOffsetX, Instruction::ROR_RotateOneBitRight, 7),
        0x81 => summary(AddrMode::IndirectOffsetX, Instruction::STA_StoreAccInMemory, 6),
        0x84 => summary(AddrMode::ZeroPage, Instruction::STY_StoreYInMemory, 3),
        0x85 => summary(AddrMode::ZeroPage, Instruction::STA_StoreAccInMemory, 3),
        0x86 => summary(AddrMode::ZeroPage, Instruction::STX_StoreXInMemory, 3),
        0x88 => summary(AddrMode::Implied, Instruction::DEY_DecrementYByOne, 2),
        0x8A => summary(AddrMode::Implied, Instruction::TXA_TransferXToAcc, 2),
        0x8C => summary(AddrMode::Absolute, Instruction::STY_StoreYInMemory, 4),
        0x8D => summary(AddrMode::Absolute, Instruction::STA_StoreAccInMemory, 4),
        0x8E => summary(AddrMode::Absolute, Instruction::STX_StoreXInMemory, 4),
        0x90 => summary(AddrMode::Relative, Instruction::BCC_BranchOnCarryClear, 2),
        0x91 => summary(AddrMode::IndirectOffsetY, Instruction::STA_StoreAccInMemory, 6),
        0x94 => summary(AddrMode::ZeroPageOffsetX, Instruction::STY_StoreYInMemory, 4),
        0x95 => summary(AddrMode::ZeroPageOffsetX, Instruction::STA_StoreAccInMemory, 4),
        0x96 => summary(AddrMode::ZeroPageOffsetY, Instruction::STX_StoreXInMemory, 4),
        0x98 => summary(AddrMode::Implied, Instruction::TYA_TransferYToAcc, 2),
        0x99 => summary(AddrMode::AbsoluteOffsetY, Instruction::STA_StoreAccInMemory, 5),
        0x9A => summary(AddrMode::Implied, Instruction::TXS_TransferXToStackRegister, 2),
        0x9D => summary(AddrMode::AbsoluteOffsetX, Instruction::STA_StoreAccInMemory, 5),
        0xA0 => summary(AddrMode::Immediate, Instruction::LDY_LoadYWithMemory, 2),
        0xA1 => summary(AddrMode::IndirectOffsetX, Instruction::LDA_LoadAccWithMemory, 6),
        0xA2 => summary(AddrMode::Immediate, Instruction::LDX_LoadXWithMemory, 2),
        0xA4 => summary(AddrMode::ZeroPage, Instruction::LDY_LoadYWithMemory, 3),
        0xA5 => summary(AddrMode::ZeroPage, Instruction::LDA_LoadAccWithMemory, 3),
        0xA6 => summary(AddrMode::ZeroPage, Instruction::LDX_LoadXWithMemory, 3),
        0xA8 => summary(AddrMode::Implied, Instruction::TAY_TransferAccToY, 2),
        0xA9 => summary(AddrMode::Immediate, Instruction::LDA_LoadAccWithMemory, 2),
        0xAA => summary(AddrMode::Implied, Instruction::TAX_TransferAccToX, 2),
        0xAC => summary(AddrMode::Absolute, Instruction::LDY_LoadYWithMemory, 4),
        0xAD => summary(AddrMode::Absolute, Instruction::LDA_LoadAccWithMemory, 4),
        0xAE => summary(AddrMode::Absolute, Instruction::LDX_LoadXWithMemory, 4),
        0xB0 => summary(AddrMode::Relative, Instruction::BCS_BranchOnCarrySet, 2),
        0xB1 => summary(AddrMode::IndirectOffsetY, Instruction::LDA_LoadAccWithMemory, 5),
        0xB4 => summary(AddrMode::ZeroPageOffsetX, Instruction::LDY_LoadYWithMemory, 4),
        0xB5 => summary(AddrMode::ZeroPageOffsetX, Instruction::LDA_LoadAccWithMemory, 4),
        0xB6 => summary(AddrMode::ZeroPageOffsetY, Instruction::LDX_LoadXWithMemory, 4),
        0xB8 => summary(AddrMode::Implied, Instruction::CLV_ClearOverflowFlag, 2),
        0xB9 => summary(AddrMode::AbsoluteOffsetY, Instruction::LDA_LoadAccWithMemory, 4),
        0xBA => summary(AddrMode::Implied, Instruction::TSX_TransferStackPointerToX, 2),
        0xBC => summary(AddrMode::AbsoluteOffsetX, Instruction::LDY_LoadYWithMemory, 4),
        0xBD => summary(AddrMode::AbsoluteOffsetX, Instruction::LDA_LoadAccWithMemory, 4),
        0xBE => summary(AddrMode::AbsoluteOffsetY, Instruction::LDX_LoadXWithMemory, 4),
        0xC0 => summary(AddrMode::Immediate, Instruction::CPY_CompareMemoryAndY, 2),
        0xC1 => summary(AddrMode::IndirectOffsetX, Instruction::CMP_CompareMemoryAndAcc, 6),
        0xC4 => summary(AddrMode::ZeroPage, Instruction::CPY_CompareMemoryAndY, 3),
        0xC5 => summary(AddrMode::ZeroPage, Instruction::CMP_CompareMemoryAndAcc, 3),
        0xC6 => summary(AddrMode::ZeroPage, Instruction::DEC_DecrementMemoryByOne, 5),
        0xC8 => summary(AddrMode::Implied, Instruction::INY_IncrementYByOne, 2),
        0xC9 => summary(AddrMode::Immediate, Instruction::CMP_CompareMemoryAndAcc, 2),
        0xCA => summary(AddrMode::Implied, Instruction::DEX_DecrementXByOne, 2),
        0xCC => summary(AddrMode::Absolute, Instruction::CPY_CompareMemoryAndY, 4),
        0xCD => summary(AddrMode::Absolute, Instruction::CMP_CompareMemoryAndAcc, 4),
        0xCE => summary(AddrMode::Absolute, Instruction::DEC_DecrementMemoryByOne, 6),
        0xD0 => summary(AddrMode::Relative, Instruction::BNE_BranchOnResultNotZero, 2),
        0xD1 => summary(AddrMode::IndirectOffsetY, Instruction::CMP_CompareMemoryAndAcc, 5),
        0xD5 => summary(AddrMode::ZeroPageOffsetX, Instruction::CMP_CompareMemoryAndAcc, 4),
        0xD6 => summary(AddrMode::ZeroPageOffsetX, Instruction::DEC_DecrementMemoryByOne, 6),
        0xD8 => summary(AddrMode::Implied, Instruction::CLD_ClearDecimalMode, 2),
        0xD9 => summary(AddrMode::AbsoluteOffsetY, Instruction::CMP_CompareMemoryAndAcc, 4),
        0xDD => summary(AddrMode::AbsoluteOffsetX, Instruction::CMP_CompareMemoryAndAcc, 4),
        0xDE => summary(AddrMode::AbsoluteOffsetX, Instruction::DEC_DecrementMemoryByOne, 7),
        0xE0 => summary(AddrMode::Immediate, Instruction::CPX_CompareMemoryAndX, 2),
        0xE1 => summary(AddrMode::IndirectOffsetX, Instruction::SBC_SubtractMemoryFromAccWithBorrow, 6),
        0xE4 => summary(AddrMode::ZeroPage, Instruction::CPX_CompareMemoryAndX, 3),
        0xE5 => summary(AddrMode::ZeroPage, Instruction::SBC_SubtractMemoryFromAccWithBorrow, 3),
        0xE6 => summary(AddrMode::ZeroPage, Instruction::INC_IncrementMemoryByOne, 5),
        0xE8 => summary(AddrMode::Implied, Instruction::INX_IncrementXByOne, 2),
        0xE9 => summary(AddrMode::Immediate, Instruction::SBC_SubtractMemoryFromAccWithBorrow, 2),
        0xEA => summary(AddrMode::Implied, Instruction::NOP_NoOperation, 2),
        0xEC => summary(AddrMode::Absolute, Instruction::CPX_CompareMemoryAndX, 4),
        0xED => summary(AddrMode::Absolute, Instruction::SBC_SubtractMemoryFromAccWithBorrow, 4),
        0xEE => summary(AddrMode::Absolute, Instruction::INC_IncrementMemoryByOne, 6),
        0xF0 => summary(AddrMode::Relative, Instruction::BEQ_BranchOnResultZero, 2),
        0xF1 => summary(AddrMode::IndirectOffsetY, Instruction::SBC_SubtractMemoryFromAccWithBorrow, 5),
        0xF5 => summary(AddrMode::ZeroPageOffsetX, Instruction::SBC_SubtractMemoryFromAccWithBorrow, 4),
        0xF6 => summary(AddrMode::ZeroPageOffsetX, Instruction::INC_IncrementMemoryByOne, 6),
        0xF8 => summary(AddrMode::Implied, Instruction::SED_SetDecimalMode, 2),
        0xF9 => summary(AddrMode::AbsoluteOffsetY, Instruction::SBC_SubtractMemoryFromAccWithBorrow, 4),
        0xFD => summary(AddrMode::AbsoluteOffsetX, Instruction::SBC_SubtractMemoryFromAccWithBorrow, 4),
        0xFE => summary(AddrMode::AbsoluteOffsetX, Instruction::INC_IncrementMemoryByOne, 7),
        _ => summary(AddrMode::Implied, Instruction::InvalidInstruction, INVALID_OPCODE_CYCLES),
    }
}

/// The opcode table is total and depends on the byte alone: equal bytes give
/// equal entries, and every entry has a base cycle count from 2 to 7.
pub proof fn lemma_table_total(b1: u8, b2: u8)
    requires
        b1 == b2,
    ensures
        summary_of(b1) == summary_of(b2),
        2 <= summary_of(b1).cycles <= 7,
{
}

impl InstructionSummary {
    pub fn new(addr_mode: AddrMode, instruction: Instruction, cycles: u8) -> (r: Self)
        ensures
            r == summary(addr_mode, instruction, cycles),
    {
        Self { addr_mode, cycles, instruction }
    }

    /// Looks up the entry for `opcode`.
    pub fn from_opcode(opcode: u8) -> (r: Self)
        ensures
            r == summary_of(opcode),
    {
        match opcode {
            0x00 => InstructionSummary::new(AddrMode::Implied, Instruction::BRK_ForceBreak, 7),
            0x01 => InstructionSummary::new(AddrMode::IndirectOffsetX, Instruction::ORA_ORMemoryWithAcc, 6),
            0x05 => InstructionSummary::new(AddrMode::ZeroPage, Instruction::ORA_ORMemoryWithAcc, 3),
            0x06 => InstructionSummary::new(AddrMode::ZeroPage, Instruction::ASL_ShiftLeftOneBit, 5),
            0x08 => InstructionSummary::new(AddrMode::Implied, Instruction::PHP_PushProcessorStatusOnStack, 3),
            0x09 => InstructionSummary::new(AddrMode::Immediate, Instruction::ORA_ORMemoryWithAcc, 2),
            0x0A => InstructionSummary::new(AddrMode::Implied, Instruction::ASL_ShiftLeftOneBit, 2),
            0x0D => InstructionSummary::new(AddrMode::Absolute, Instruction::ORA_ORMemoryWithAcc, 4),
            0x0E => InstructionSummary::new(AddrMode::Absolute, Instruction::ASL_ShiftLeftOneBit, 6),
            0x10 => InstructionSummary::new(AddrMode::Relative, Instruction::BPL_BranchOnResultPlus, 2),
            0x11 => InstructionSummary::new(AddrMode::IndirectOffsetY, Instruction::ORA_ORMemoryWithAcc, 5),
            0x15 => InstructionSummary::new(AddrMode::ZeroPageOffsetX, Instruction::ORA_ORMemoryWithAcc, 4),
            0x16 => InstructionSummary::new(AddrMode::ZeroPageOffsetX, Instruction::ASL_ShiftLeftOneBit, 6),
            0x18 => InstructionSummary::new(AddrMode::Implied, Instruction::CLC_ClearCarryFlag, 2),
            0x19 => InstructionSummary::new(AddrMode::AbsoluteOffsetY, Instruction::ORA_ORMemoryWithAcc, 4),
            0x1D => InstructionSummary::new(AddrMode::AbsoluteOffsetX, Instruction::ORA_ORMemoryWithAcc, 4),
            0x1E => InstructionSummary::new(AddrMode::AbsoluteOffsetX, Instruction::ASL_ShiftLeftOneBit, 7),
            0x20 => InstructionSummary::new(AddrMode::Absolute, Instruction::JSR_JumpToSavingReturnAddr, 6),
            0x21 => InstructionSummary::new(AddrMode::IndirectOffsetX, Instruction::AND_AndBitwiseWithAcc, 6),
            0x24 => InstructionSummary::new(AddrMode::ZeroPage, Instruction::BIT_BitTestInMemoryWithAcc, 3),
            0x25 => InstructionSummary::new(AddrMode::ZeroPage, Instruction::AND_AndBitwiseWithAcc, 3),
            0x26 => InstructionSummary::new(AddrMode::ZeroPage, Instruction::ROL_RotateOneBitLeft, 5),
            0x28 => InstructionSummary::new(AddrMode::Implied, Instruction::PLP_PullProcessorStatusFromStack, 4),
            0x29 => InstructionSummary::new(AddrMode::Immediate, Instruction::AND_AndBitwiseWithAcc, 2),
            0x2A => InstructionSummary::new(AddrMode::Implied, Instruction::ROL_RotateOneBitLeft, 2),
            0x2C => InstructionSummary::new(AddrMode::Absolute, Instruction::BIT_BitTestInMemoryWithAcc, 4),
            0x2D => InstructionSummary::new(AddrMode::Absolute, Instruction::AND_AndBitwiseWithAcc, 4),
            0x2E => InstructionSummary::new(AddrMode::Absolute, Instruction::ROL_RotateOneBitLeft, 6),
            0x30 => InstructionSummary::new(AddrMode::Relative, Instruction::BMI_BranchOnResultMinus, 2),
            0x31 => InstructionSummary::new(AddrMode::IndirectOffsetY, Instruction::AND_AndBitwiseWithAcc, 5),
            0x35 => InstructionSummary::new(AddrMode::ZeroPageOffsetX, Instruction::AND_AndBitwiseWithAcc, 4),
            0x36 => InstructionSummary::new(AddrMode::ZeroPageOffsetX, Instruction::ROL_RotateOneBitLeft, 6),
            0x38 => InstructionSummary::new(AddrMode::Implied, Instruction::SEC_SetCarryFlag, 2),
            0x39 => InstructionSummary::new(AddrMode::AbsoluteOffsetY, Instruction::AND_AndBitwiseWithAcc, 4),
            0x3D => InstructionSummary::new(AddrMode::AbsoluteOffsetX, Instruction::AND_AndBitwiseWithAcc, 4),
            0x3E => InstructionSummary::new(AddrMode::AbsoluteOffsetX, Instruction::ROL_RotateOneBitLeft, 7),
            0x40 => InstructionSummary::new(AddrMode::Implied, Instruction::RTI_ReturnFromInterrupt, 6),
            0x41 => InstructionSummary::new(AddrMode::IndirectOffsetX, Instruction::EOR_ExclusiveORMemoryWithAcc, 6),
            0x45 => InstructionSummary::new(AddrMode::ZeroPage, Instruction::EOR_ExclusiveORMemoryWithAcc, 3),
            0x46 => InstructionSummary::new(AddrMode::ZeroPage, Instruction::LSR_ShiftOneBitRight, 5),
            0x48 => InstructionSummary::new(AddrMode::Implied, Instruction::PHA_PushAccOnStack, 3),
            0x49 => InstructionSummary::new(AddrMode::Immediate, Instruction::EOR_ExclusiveORMemoryWithAcc, 2),
            0x4A => InstructionSummary::new(AddrMode::Implied, Instruction::LSR_ShiftOneBitRight, 2),
            0x4C => InstructionSummary::new(AddrMode::Absolute, Instruction::JMP_JumpTo, 3),
            0x4D => InstructionSummary::new(AddrMode::Absolute, Instruction::EOR_ExclusiveORMemoryWithAcc, 4),
            0x4E => InstructionSummary::new(AddrMode::Absolute, Instruction::LSR_ShiftOneBitRight, 6),
            0x50 => InstructionSummary::new(AddrMode::Relative, Instruction::BVC_BranchOnOverflowClear, 2),
            0x51 => InstructionSummary::new(AddrMode::IndirectOffsetY, Instruction::EOR_ExclusiveORMemoryWithAcc, 5),
            0x55 => InstructionSummary::new(AddrMode::ZeroPageOffsetX, Instruction::EOR_ExclusiveORMemoryWithAcc, 4),
            0x56 => InstructionSummary::new(AddrMode::ZeroPageOffsetX, Instruction::LSR_ShiftOneBitRight, 6),
            0x58 => InstructionSummary::new(AddrMode::Implied, Instruction::CLI_ClearInterruptDisableBit, 2),
            0x59 => InstructionSummary::new(AddrMode::AbsoluteOffsetY, Instruction::EOR_ExclusiveORMemoryWithAcc, 4),
            0x5D => InstructionSummary::new(AddrMode::AbsoluteOffsetX, Instruction::EOR_ExclusiveORMemoryWithAcc, 4),
            0x5E => InstructionSummary::new(AddrMode::AbsoluteOffsetX, Instruction::LSR_ShiftOneBitRight, 7),
            0x60 => InstructionSummary::new(AddrMode::Implied, Instruction::RTS_ReturnFromSubroutine, 6),
            0x61 => InstructionSummary::new(AddrMode::IndirectOffsetX, Instruction::ADC_AddMemoryToAccWithCarry, 6),
            0x65 => InstructionSummary::new(AddrMode::ZeroPage, Instruction::ADC_AddMemoryToAccWithCarry, 3),
            0x66 => InstructionSummary::new(AddrMode::ZeroPage, Instruction::ROR_RotateOneBitRight, 5),
            0x68 => InstructionSummary::new(AddrMode::Implied, Instruction::PLA_PullAccFromStack, 4),
            0x69 => InstructionSummary::new(AddrMode::Immediate, Instruction::ADC_AddMemoryToAccWithCarry, 2),
            0x6A => InstructionSummary::new(AddrMode::Implied, Instruction::ROR_RotateOneBitRight, 2),
            0x6C => InstructionSummary::new(AddrMode::Indirect, Instruction::JMP_JumpTo, 5),
            0x6D => InstructionSummary::new(AddrMode::Absolute, Instruction::ADC_AddMemoryToAccWithCarry, 4),
            0x6E => InstructionSummary::new(AddrMode::Absolute, Instruction::ROR_RotateOneBitRight, 6),
            0x70 => InstructionSummary::new(AddrMode::Relative, Instruction::BVS_BranchOnOverflowSet, 2),
            0x71 => InstructionSummary::new(AddrMode::IndirectOffsetY, Instruction::ADC_AddMemoryToAccWithCarry, 5),
            0x75 => InstructionSummary::new(AddrMode::ZeroPageOffsetX, Instruction::ADC_AddMemoryToAccWithCarry, 4),
            0x76 => InstructionSummary::new(AddrMode::ZeroPageOffsetX, Instruction::ROR_RotateOneBitRight, 6),
            0x78 => InstructionSummary::new(AddrMode::Implied, Instruction::SEI_SetInterruptDisableStatus, 2),
            0x79 => InstructionSummary::new(AddrMode::AbsoluteOffsetY, Instruction::ADC_AddMemoryToAccWithCarry, 4),
            0x7D => InstructionSummary::new(AddrMode::AbsoluteOffsetX, Instruction::ADC_AddMemoryToAccWithCarry, 4),
            0x7E => InstructionSummary::new(AddrMode::AbsoluteOffsetX, Instruction::ROR_RotateOneBitRight, 7),
            0x81 => InstructionSummary::new(AddrMode::IndirectOffsetX, Instruction::STA_StoreAccInMemory, 6),
            0x84 => InstructionSummary::new(AddrMode::ZeroPage, Instruction::STY_StoreYInMemory, 3),
            0x85 => InstructionSummary::new(AddrMode::ZeroPage, Instruction::STA_StoreAccInMemory, 3),
            0x86 => InstructionSummary::new(AddrMode::ZeroPage, Instruction::STX_StoreXInMemory, 3),
            0x88 => InstructionSummary::new(AddrMode::Implied, Instruction::DEY_DecrementYByOne, 2),
            0x8A => InstructionSummary::new(AddrMode::Implied, Instruction::TXA_TransferXToAcc, 2),
            0x8C => InstructionSummary::new(AddrMode::Absolute, Instruction::STY_StoreYInMemory, 4),
            0x8D => InstructionSummary::new(AddrMode::Absolute, Instruction::STA_StoreAccInMemory, 4),
            0x8E => InstructionSummary::new(AddrMode::Absolute, Instruction::STX_StoreXInMemory, 4),
            0x90 => InstructionSummary::new(AddrMode::Relative, Instruction::BCC_BranchOnCarryClear, 2),
            0x91 => InstructionSummary::new(AddrMode::IndirectOffsetY, Instruction::STA_StoreAccInMemory, 6),
            0x94 => InstructionSummary::new(AddrMode::ZeroPageOffsetX, Instruction::STY_StoreYInMemory, 4),
            0x95 => InstructionSummary::new(AddrMode::ZeroPageOffsetX, Instruction::STA_StoreAccInMemory, 4),
            0x96 => InstructionSummary::new(AddrMode::ZeroPageOffsetY, Instruction::STX_StoreXInMemory, 4),
            0x98 => InstructionSummary::new(AddrMode::Implied, Instruction::TYA_TransferYToAcc, 2),
            0x99 => InstructionSummary::new(AddrMode::AbsoluteOffsetY, Instruction::STA_StoreAccInMemory, 5),
            0x9A => InstructionSummary::new(AddrMode::Implied, Instruction::TXS_TransferXToStackRegister, 2),
            0x9D => InstructionSummary::new(AddrMode::AbsoluteOffsetX, Instruction::STA_StoreAccInMemory, 5),
            0xA0 => InstructionSummary::new(AddrMode::Immediate, Instruction::LDY_LoadYWithMemory, 2),
            0xA1 => InstructionSummary::new(AddrMode::IndirectOffsetX, Instruction::LDA_LoadAccWithMemory, 6),
            0xA2 => InstructionSummary::new(AddrMode::Immediate, Instruction::LDX_LoadXWithMemory, 2),
            0xA4 => InstructionSummary::new(AddrMode::ZeroPage, Instruction::LDY_LoadYWithMemory, 3),
            0xA5 => InstructionSummary::new(AddrMode::ZeroPage, Instruction::LDA_LoadAccWithMemory, 3),
            0xA6 => InstructionSummary::new(AddrMode::ZeroPage, Instruction::LDX_LoadXWithMemory, 3),
            0xA8 => InstructionSummary::new(AddrMode::Implied, Instruction::TAY_TransferAccToY, 2),
            0xA9 => InstructionSummary::new(AddrMode::Immediate, Instruction::LDA_LoadAccWithMemory, 2),
            0xAA => InstructionSummary::new(AddrMode::Implied, Instruction::TAX_TransferAccToX, 2),
            0xAC => InstructionSummary::new(AddrMode::Absolute, Instruction::LDY_LoadYWithMemory, 4),
            0xAD => InstructionSummary::new(AddrMode::Absolute, Instruction::LDA_LoadAccWithMemory, 4),
            0xAE => InstructionSummary::new(AddrMode::Absolute, Instruction::LDX_LoadXWithMemory, 4),
            0xB0 => InstructionSummary::new(AddrMode::Relative, Instruction::BCS_BranchOnCarrySet, 2),
            0xB1 => InstructionSummary::new(AddrMode::IndirectOffsetY, Instruction::LDA_LoadAccWithMemory, 5),
            0xB4 => InstructionSummary::new(AddrMode::ZeroPageOffsetX, Instruction::LDY_LoadYWithMemory, 4),
            0xB5 => InstructionSummary::new(AddrMode::ZeroPageOffsetX, Instruction::LDA_LoadAccWithMemory, 4),
            0xB6 => InstructionSummary::new(AddrMode::ZeroPageOffsetY, Instruction::LDX_LoadXWithMemory, 4),
            0xB8 => InstructionSummary::new(AddrMode::Implied, Instruction::CLV_ClearOverflowFlag, 2),
            0xB9 => InstructionSummary::new(AddrMode::AbsoluteOffsetY, Instruction::LDA_LoadAccWithMemory, 4),
            0xBA => InstructionSummary::new(AddrMode::Implied, Instruction::TSX_TransferStackPointerToX, 2),
            0xBC => InstructionSummary::new(AddrMode::AbsoluteOffsetX, Instruction::LDY_LoadYWithMemory, 4),
            0xBD => InstructionSummary::new(AddrMode::AbsoluteOffsetX, Instruction::LDA_LoadAccWithMemory, 4),
            0xBE => InstructionSummary::new(AddrMode::AbsoluteOffsetY, Instruction::LDX_LoadXWithMemory, 4),
            0xC0 => InstructionSummary::new(AddrMode::Immediate, Instruction::CPY_CompareMemoryAndY, 2),
            0xC1 => InstructionSummary::new(AddrMode::IndirectOffsetX, Instruction::CMP_CompareMemoryAndAcc, 6),
            0xC4 => InstructionSummary::new(AddrMode::ZeroPage, Instruction::CPY_CompareMemoryAndY, 3),
            0xC5 => InstructionSummary::new(AddrMode::ZeroPage, Instruction::CMP_CompareMemoryAndAcc, 3),
            0xC6 => InstructionSummary::new(AddrMode::ZeroPage, Instruction::DEC_DecrementMemoryByOne, 5),
            0xC8 => InstructionSummary::new(AddrMode::Implied, Instruction::INY_IncrementYByOne, 2),
            0xC9 => InstructionSummary::new(AddrMode::Immediate, Instruction::CMP_CompareMemoryAndAcc, 2),
            0xCA => InstructionSummary::new(AddrMode::Implied, Instruction::DEX_DecrementXByOne, 2),
            0xCC => InstructionSummary::new(AddrMode::Absolute, Instruction::CPY_CompareMemoryAndY, 4),
            0xCD => InstructionSummary::new(AddrMode::Absolute, Instruction::CMP_CompareMemoryAndAcc, 4),
            0xCE => InstructionSummary::new(AddrMode::Absolute, Instruction::DEC_DecrementMemoryByOne, 6),
            0xD0 => InstructionSummary::new(AddrMode::Relative, Instruction::BNE_BranchOnResultNotZero, 2),
            0xD1 => InstructionSummary::new(AddrMode::IndirectOffsetY, Instruction::CMP_CompareMemoryAndAcc, 5),
            0xD5 => InstructionSummary::new(AddrMode::ZeroPageOffsetX, Instruction::CMP_CompareMemoryAndAcc, 4),
            0xD6 => InstructionSummary::new(AddrMode::ZeroPageOffsetX, Instruction::DEC_DecrementMemoryByOne, 6),
            0xD8 => InstructionSummary::new(AddrMode::Implied, Instruction::CLD_ClearDecimalMode, 2),
            0xD9 => InstructionSummary::new(AddrMode::AbsoluteOffsetY, Instruction::CMP_CompareMemoryAndAcc, 4),
            0xDD => InstructionSummary::new(AddrMode::AbsoluteOffsetX, Instruction::CMP_CompareMemoryAndAcc, 4),
            0xDE => InstructionSummary::new(AddrMode::AbsoluteOffsetX, Instruction::DEC_DecrementMemoryByOne, 7),
            0xE0 => InstructionSummary::new(AddrMode::Immediate, Instruction::CPX_CompareMemoryAndX, 2),
            0xE1 => InstructionSummary::new(AddrMode::IndirectOffsetX, Instruction::SBC_SubtractMemoryFromAccWithBorrow, 6),
            0xE4 => InstructionSummary::new(AddrMode::ZeroPage, Instruction::CPX_CompareMemoryAndX, 3),
            0xE5 => InstructionSummary::new(AddrMode::ZeroPage, Instruction::SBC_SubtractMemoryFromAccWithBorrow, 3),
            0xE6 => InstructionSummary::new(AddrMode::ZeroPage, Instruction::INC_IncrementMemoryByOne, 5),
            0xE8 => InstructionSummary::new(AddrMode::Implied, Instruction::INX_IncrementXByOne, 2),
            0xE9 => InstructionSummary::new(AddrMode::Immediate, Instruction::SBC_SubtractMemoryFromAccWithBorrow, 2),
            0xEA => InstructionSummary::new(AddrMode::Implied, Instruction::NOP_NoOperation, 2),
            0xEC => InstructionSummary::new(AddrMode::Absolute, Instruction::CPX_CompareMemoryAndX, 4),
            0xED => InstructionSummary::new(AddrMode::Absolute, Instruction::SBC_SubtractMemoryFromAccWithBorrow, 4),
            0xEE => InstructionSummary::new(AddrMode::Absolute, Instruction::INC_IncrementMemoryByOne, 6),
            0xF0 => InstructionSummary::new(AddrMode::Relative, Instruction::BEQ_BranchOnResultZero, 2),
            0xF1 => InstructionSummary::new(AddrMode::IndirectOffsetY, Instruction::SBC_SubtractMemoryFromAccWithBorrow, 5),
            0xF5 => InstructionSummary::new(AddrMode::ZeroPageOffsetX, Instruction::SBC_SubtractMemoryFromAccWithBorrow, 4),
            0xF6 => InstructionSummary::new(AddrMode::ZeroPageOffsetX, Instruction::INC_IncrementMemoryByOne, 6),
            0xF8 => InstructionSummary::new(AddrMode::Implied, Instruction::SED_SetDecimalMode, 2),
            0xF9 => InstructionSummary::new(AddrMode::AbsoluteOffsetY, Instruction::SBC_SubtractMemoryFromAccWithBorrow, 4),
            0xFD => InstructionSummary::new(AddrMode::AbsoluteOffsetX, Instruction::SBC_SubtractMemoryFromAccWithBorrow, 4),
            0xFE => InstructionSummary::new(AddrMode::AbsoluteOffsetX, Instruction::INC_IncrementMemoryByOne, 7),
            _ => InstructionSummary::new(
                AddrMode::Implied,
                Instruction::InvalidInstruction,
                INVALID_OPCODE_CYCLES,
            ),
        }
    }
}

impl From<u8> for InstructionSummary {
    fn from(opcode: u8) -> (r: Self) {
        Self::from_opcode(opcode)
    }
}

impl vstd::std_specs::convert::FromSpecImpl<u8> for InstructionSummary {
    open spec fn obeys_from_spec() -> bool {
        true
    }

    open spec fn from_spec(opcode: u8) -> Self {
        summary_of(opcode)
    }
}

} // verus!
