use vstd::prelude::*;
use crate::addr_modes::AddrMode;
use crate::instruction_summary::{summary_of, InstructionSummary};
use crate::mos_6502::{
    add16, dec16, dec8, flag_is_set, inc16, inc8, make_word, operand, page, pulled, pushed,
    rd_word, top, with_flag, with_status, with_zn, word, wrapping_add16, CpuState, Flag,
    Mos6502, IRQ_VECTOR,
};

verus! {

/// The operations of the processor, plus the stand-in for bytes that name none.
#[allow(non_camel_case_types)]
#[derive(Clone, Copy, Debug, PartialEq, Eq, Structural)]
pub enum Instruction {
    ADC_AddMemoryToAccWithCarry,
    AND_AndBitwiseWithAcc,
    ASL_ShiftLeftOneBit,
    BCC_BranchOnCarryClear,
    BCS_BranchOnCarrySet,
    BEQ_BranchOnResultZero,
    BIT_BitTestInMemoryWithAcc,
    BMI_BranchOnResultMinus,
    BNE_BranchOnResultNotZero,
    BPL_BranchOnResultPlus,
    BRK_ForceBreak,
    BVC_BranchOnOverflowClear,
    BVS_BranchOnOverflowSet,
    CLC_ClearCarryFlag,
    CLD_ClearDecimalMode,
    CLI_ClearInterruptDisableBit,
    CLV_ClearOverflowFlag,
    CMP_CompareMemoryAndAcc,
    CPX_CompareMemoryAndX,
    CPY_CompareMemoryAndY,
    DEC_DecrementMemoryByOne,
    DEX_DecrementXByOne,
    DEY_DecrementYByOne,
    EOR_ExclusiveORMemoryWithAcc,
    INC_IncrementMemoryByOne,
    INX_IncrementXByOne,
    INY_IncrementYByOne,
    JMP_JumpTo,
    JSR_JumpToSavingReturnAddr,
    LDA_LoadAccWithMemory,
    LDX_LoadXWithMemory,
    LDY_LoadYWithMemory,
    LSR_ShiftOneBitRight,
    NOP_NoOperation,
    ORA_ORMemoryWithAcc,
    PHA_PushAccOnStack,
    PHP_PushProcessorStatusOnStack,
    PLA_PullAccFromStack,
    PLP_PullProcessorStatusFromStack,
    ROL_RotateOneBitLeft,
    ROR_RotateOneBitRight,
    RTI_ReturnFromInterrupt,
    RTS_ReturnFromSubroutine,
    SBC_SubtractMemoryFromAccWithBorrow,
    SEC_SetCarryFlag,
    SED_SetDecimalMode,
    SEI_SetInterruptDisableStatus,
    STA_StoreAccInMemory,
    STX_StoreXInMemory,
    STY_StoreYInMemory,
    TAX_TransferAccToX,
    TAY_TransferAccToY,
    TSX_TransferStackPointerToX,
    TXA_TransferXToAcc,
    TXS_TransferXToStackRegister,
    TYA_TransferYToAcc,
    InvalidInstruction,
}

/// The three-letter mnemonic of an operation.
pub open spec fn mnemonic_of(instruction: Instruction) -> Seq<char> {
    match instruction {
        Instruction::ADC_AddMemoryToAccWithCarry => "ADC"@,
        Instruction::AND_AndBitwiseWithAcc => "AND"@,
        Instruction::ASL_ShiftLeftOneBit => "ASL"@,
        Instruction::BCC_BranchOnCarryClear => "BCC"@,
        Instruction::BCS_BranchOnCarrySet => "BCS"@,
        Instruction::BEQ_BranchOnResultZero => "BEQ"@,
        Instruction::BIT_BitTestInMemoryWithAcc => "BIT"@,
        Instruction::BMI_BranchOnResultMinus => "BMI"@,
        Instruction::BNE_BranchOnResultNotZero => "BNE"@,
        Instruction::BPL_BranchOnResultPlus => "BPL"@,
        Instruction::BRK_ForceBreak => "BRK"@,
        Instruction::BVC_BranchOnOverflowClear => "BVC"@,
        Instruction::BVS_BranchOnOverflowSet => "BVS"@,
        Instruction::CLC_ClearCarryFlag => "CLC"@,
        Instruction::CLD_ClearDecimalMode => "CLD"@,
        Instruction::CLI_ClearInterruptDisableBit => "CLI"@,
        Instruction::CLV_ClearOverflowFlag => "CLV"@,
        Instruction::CMP_CompareMemoryAndAcc => "CMP"@,
        Instruction::CPX_CompareMemoryAndX => "CPX"@,
        Instruction::CPY_CompareMemoryAndY => "CPY"@,
        Instruction::DEC_DecrementMemoryByOne => "DEC"@,
        Instruction::DEX_DecrementXByOne => "DEX"@,
        Instruction::DEY_DecrementYByOne => "DEY"@,
        Instruction::EOR_ExclusiveORMemoryWithAcc => "EOR"@,
        Instruction::INC_IncrementMemoryByOne => "INC"@,
        Instruction::INX_IncrementXByOne => "INX"@,
        Instruction::INY_IncrementYByOne => "INY"@,
        Instruction::JMP_JumpTo => "JMP"@,
        Instruction::JSR_JumpToSavingReturnAddr => "JSR"@,
        Instruction::LDA_LoadAccWithMemory => "LDA"@,
        Instruction::LDX_LoadXWithMemory => "LDX"@,
        Instruction::LDY_LoadYWithMemory => "LDY"@,
        Instruction::LSR_ShiftOneBitRight => "LSR"@,
        Instruction::NOP_NoOperation => "NOP"@,
        Instruction::ORA_ORMemoryWithAcc => "ORA"@,
        Instruction::PHA_PushAccOnStack => "PHA"@,
        Instruction::PHP_PushProcessorStatusOnStack => "PHP"@,
        Instruction::PLA_PullAccFromStack => "PLA"@,
        Instruction::PLP_PullProcessorStatusFromStack => "PLP"@,
        Instruction::ROL_RotateOneBitLeft => "ROL"@,
        Instruction::ROR_RotateOneBitRight => "ROR"@,
        Instruction::RTI_ReturnFromInterrupt => "RTI"@,
        Instruction::RTS_ReturnFromSubroutine => "RTS"@,
        Instruction::SBC_SubtractMemoryFromAccWithBorrow => "SBC"@,
        Instruction::SEC_SetCarryFlag => "SEC"@,
        Instruction::SED_SetDecimalMode => "SED"@,
        Instruction::SEI_SetInterruptDisableStatus => "SEI"@,
        Instruction::STA_StoreAccInMemory => "STA"@,
        Instruction::STX_StoreXInMemory => "STX"@,
        Instruction::STY_StoreYInMemory => "STY"@,
        Instruction::TAX_TransferAccToX => "TAX"@,
        Instruction::TAY_TransferAccToY => "TAY"@,
        Instruction::TSX_TransferStackPointerToX => "TSX"@,
        Instruction::TXA_TransferXToAcc => "TXA"@,
        Instruction::TXS_TransferXToStackRegister => "TXS"@,
        Instruction::TYA_TransferYToAcc => "TYA"@,
        Instruction::InvalidInstruction => "INVALID INSTRUCTION!"@,
    }
}

impl Instruction {
    /// The mnemonic as a string slice.
    pub fn mnemonic(&self) -> (r: &'static str)
        ensures
            r@ == mnemonic_of(*self),
    {
        match self {
            Instruction::ADC_AddMemoryToAccWithCarry => "ADC",
            Instruction::AND_AndBitwiseWithAcc => "AND",
            Instruction::ASL_ShiftLeftOneBit => "ASL",
            Instruction::BCC_BranchOnCarryClear => "BCC",
            Instruction::BCS_BranchOnCarrySet => "BCS",
            Instruction::BEQ_BranchOnResultZero => "BEQ",
            Instruction::BIT_BitTestInMemoryWithAcc => "BIT",
            Instruction::BMI_BranchOnResultMinus => "BMI",
            Instruction::BNE_BranchOnResultNotZero => "BNE",
            Instruction::BPL_BranchOnResultPlus => "BPL",
            Instruction::BRK_ForceBreak => "BRK",
            Instruction::BVC_BranchOnOverflowClear => "BVC",
            Instruction::BVS_BranchOnOverflowSet => "BVS",
            Instruction::CLC_ClearCarryFlag => "CLC",
            Instruction::CLD_ClearDecimalMode => "CLD",
            Instruction::CLI_ClearInterruptDisableBit => "CLI",
            Instruction::CLV_ClearOverflowFlag => "CLV",
            Instruction::CMP_CompareMemoryAndAcc => "CMP",
            Instruction::CPX_CompareMemoryAndX => "CPX",
            Instruction::CPY_CompareMemoryAndY => "CPY",
            Instruction::DEC_DecrementMemoryByOne => "DEC",
            Instruction::DEX_DecrementXByOne => "DEX",
            Instruction::DEY_DecrementYByOne => "DEY",
            Instruction::EOR_ExclusiveORMemoryWithAcc => "EOR",
            Instruction::INC_IncrementMemoryByOne => "INC",
            Instruction::INX_IncrementXByOne => "INX",
            Instruction::INY_IncrementYByOne => "INY",
            Instruction::JMP_JumpTo => "JMP",
            Instruction::JSR_JumpToSavingReturnAddr => "JSR",
            Instruction::LDA_LoadAccWithMemory => "LDA",
            Instruction::LDX_LoadXWithMemory => "LDX",
            Instruction::LDY_LoadYWithMemory => "LDY",
            Instruction::LSR_ShiftOneBitRight => "LSR",
            Instruction::NOP_NoOperation => "NOP",
            Instruction::ORA_ORMemoryWithAcc => "ORA",
            Instruction::PHA_PushAccOnStack => "PHA",
            Instruction::PHP_PushProcessorStatusOnStack => "PHP",
            Instruction::PLA_PullAccFromStack => "PLA",
            Instruction::PLP_PullProcessorStatusFromStack => "PLP",
            Instruction::ROL_RotateOneBitLeft => "ROL",
            Instruction::ROR_RotateOneBitRight => "ROR",
            Instruction::RTI_ReturnFromInterrupt => "RTI",
            Instruction::RTS_ReturnFromSubroutine => "RTS",
            Instruction::SBC_SubtractMemoryFromAccWithBorrow => "SBC",
            Instruction::SEC_SetCarryFlag => "SEC",
            Instruction::SED_SetDecimalMode => "SED",
            Instruction::SEI_SetInterruptDisableStatus => "SEI",
            Instruction::STA_StoreAccInMemory => "STA",
            Instruction::STX_StoreXInMemory => "STX",
            Instruction::STY_StoreYInMemory => "STY",
            Instruction::TAX_TransferAccToX => "TAX",
            Instruction::TAY_TransferAccToY => "TAY",
            Instruction::TSX_TransferStackPointerToX => "TSX",
            Instruction::TXA_TransferXToAcc => "TXA",
            Instruction::TXS_TransferXToStackRegister => "TXS",
            Instruction::TYA_TransferYToAcc => "TYA",
            Instruction::InvalidInstruction => "INVALID INSTRUCTION!",
        }
    }

    pub fn to_string(&self) -> (r: String)
        ensures
            r@ == mnemonic_of(*self),
    {
        String::from_str(self.mnemonic())
    }
}

/// `m` with its operand latched.
pub open spec fn latched(m: CpuState) -> CpuState {
    CpuState { fetched: operand(m), ..m }
}

/// Adds `v` and the Carry flag to the accumulator; Carry from the unsigned sum,
/// Overflow where both addends share a sign that the result does not.
pub open spec fn add_with_carry(m: CpuState, v: u8) -> CpuState {
    let carry_in: int = if flag_is_set(m.status_flags, Flag::Carry) { 1 } else { 0 };
    let sum = m.a as int + v as int + carry_in;
    let r = (sum % 256) as u8;
    let overflow = ((m.a < 0x80) == (v < 0x80)) && ((r < 0x80) != (m.a < 0x80));
    let status = with_flag(with_flag(m.status_flags, Flag::Carry, sum > 255), Flag::Overflow, overflow);
    CpuState { a: r, status_flags: with_zn(status, r), ..m }
}

/// Whether the shift or rotate in flight works on the accumulator.
pub open spec fn on_accumulator(m: CpuState) -> bool {
    summary_of(m.opcode).addr_mode == AddrMode::Implied
}

/// `m` with `r` written back where a shift or rotate takes its operand, and
/// Carry, Zero and Negative set from `carry` and `r`.
pub open spec fn shifted(m: CpuState, r: u8, carry: bool) -> CpuState {
    let status = with_zn(with_flag(m.status_flags, Flag::Carry, carry), r);
    if on_accumulator(m) {
        CpuState { a: r, status_flags: status, ..m }
    } else {
        CpuState { mem: m.mem.update(m.addr_abs as int, r), status_flags: status, ..m }
    }
}

pub open spec fn carry_bit(m: CpuState) -> int {
    if flag_is_set(m.status_flags, Flag::Carry) { 1 } else { 0 }
}

/// Flags after comparing register value `reg` with `v`.
pub open spec fn compared(m: CpuState, reg: u8, v: u8) -> CpuState {
    let diff = ((reg as int - v as int + 256) % 256) as u8;
    with_status(m, with_zn(with_flag(m.status_flags, Flag::Carry, reg >= v), diff))
}

/// A branch on `cond`: when taken, `pc` moves by the displacement, at the cost
/// of one cycle, and one more where the target is on another page.
pub open spec fn branched(m: CpuState, cond: bool) -> (CpuState, u8) {
    if cond {
        let target = add16(m.pc, m.addr_rel);
        (CpuState { addr_abs: target, pc: target, ..m }, if page(target) != page(m.pc) { 2 } else { 1 })
    } else {
        (m, 0)
    }
}

/// `m` with the byte written at the resolved address and Zero, Negative set from it.
pub open spec fn stored_zn(m: CpuState, r: u8) -> CpuState {
    CpuState {
        mem: m.mem.update(m.addr_abs as int, r),
        status_flags: with_zn(m.status_flags, r),
        ..m
    }
}

/// `m` with the word `w` pushed, high byte first.
pub open spec fn pushed_word(m: CpuState, w: u16) -> CpuState {
    pushed(pushed(m, (w as int / 256) as u8), (w as int % 256) as u8)
}

/// The machine after BRK: return address and status (Break set) pushed,
/// interrupts disabled, `pc` loaded from the interrupt vector.
pub open spec fn broke(m: CpuState) -> CpuState {
    let m1 = pushed(pushed_word(m, inc16(m.pc)), with_flag(m.status_flags, Flag::Break, true));
    CpuState {
        status_flags: with_flag(m.status_flags, Flag::DisableInterrupts, true),
        pc: rd_word(m1, IRQ_VECTOR),
        ..m1
    }
}

/// The machine after RTS.
pub open spec fn returned(m: CpuState) -> CpuState {
    let lo = top(m);
    let hi = top(pulled(m));
    CpuState { pc: inc16(word(lo, hi)), ..pulled(pulled(m)) }
}

/// The machine after RTI.
pub open spec fn returned_from_interrupt(m: CpuState) -> CpuState {
    let status = top(m);
    let m1 = pulled(m);
    let lo = top(m1);
    let hi = top(pulled(m1));
    CpuState { status_flags: status, pc: word(lo, hi), ..pulled(pulled(m1)) }
}

/// What executing `op` does to `m`, and how many extra cycles it owes.
pub open spec fn execute(m: CpuState, op: Instruction) -> (CpuState, u8) {
    let v = operand(m);
    let f = latched(m);
    let s = m.status_flags;
    match op {
        Instruction::ADC_AddMemoryToAccWithCarry => (add_with_carry(f, v), 0),
        Instruction::SBC_SubtractMemoryFromAccWithBorrow => (add_with_carry(f, (255 - v) as u8), 0),
        Instruction::AND_AndBitwiseWithAcc => (CpuState { a: m.a & v, status_flags: with_zn(s, m.a & v), ..f }, 0),
        Instruction::ORA_ORMemoryWithAcc => (CpuState { a: m.a | v, status_flags: with_zn(s, m.a | v), ..f }, 0),
        Instruction::EOR_ExclusiveORMemoryWithAcc => (CpuState { a: m.a ^ v, status_flags: with_zn(s, m.a ^ v), ..f }, 0),
        Instruction::ASL_ShiftLeftOneBit => (shifted(f, ((v as int * 2) % 256) as u8, v >= 0x80), 0),
        Instruction::LSR_ShiftOneBitRight => (shifted(f, v / 2, v % 2 == 1), 0),
        Instruction::ROL_RotateOneBitLeft => (shifted(f, ((v as int * 2 + carry_bit(m)) % 256) as u8, v >= 0x80), 0),
        Instruction::ROR_RotateOneBitRight => (shifted(f, (v / 2 + carry_bit(m) * 128) as u8, v % 2 == 1), 0),
        Instruction::BIT_BitTestInMemoryWithAcc => {
            let status = with_flag(with_flag(with_flag(s, Flag::Zero, m.a & v == 0), Flag::Negative, v >= 0x80), Flag::Overflow, v & 0x40 != 0);
            (with_status(f, status), 0)
        },
        Instruction::CMP_CompareMemoryAndAcc => (compared(f, m.a, v), 0),
        Instruction::CPX_CompareMemoryAndX => (compared(f, m.x, v), 0),
        Instruction::CPY_CompareMemoryAndY => (compared(f, m.y, v), 0),
        Instruction::DEC_DecrementMemoryByOne => (stored_zn(f, dec8(v)), 0),
        Instruction::INC_IncrementMemoryByOne => (stored_zn(f, inc8(v)), 0),
        Instruction::DEX_DecrementXByOne => (CpuState { x: dec8(m.x), status_flags: with_zn(s, dec8(m.x)), ..m }, 0),
        Instruction::DEY_DecrementYByOne => (CpuState { y: dec8(m.y), status_flags: with_zn(s, dec8(m.y)), ..m }, 0),
        Instruction::INX_IncrementXByOne => (CpuState { x: inc8(m.x), status_flags: with_zn(s, inc8(m.x)), ..m }, 0),
        Instruction::INY_IncrementYByOne => (CpuState { y: inc8(m.y), status_flags: with_zn(s, inc8(m.y)), ..m }, 0),
        Instruction::BCC_BranchOnCarryClear => branched(m, !flag_is_set(s, Flag::Carry)),
        Instruction::BCS_BranchOnCarrySet => branched(m, flag_is_set(s, Flag::Carry)),
        Instruction::BEQ_BranchOnResultZero => branched(m, flag_is_set(s, Flag::Zero)),
        Instruction::BNE_BranchOnResultNotZero => branched(m, !flag_is_set(s, Flag::Zero)),
        Instruction::BMI_BranchOnResultMinus => branched(m, flag_is_set(s, Flag::Negative)),
        Instruction::BPL_BranchOnResultPlus => branched(m, !flag_is_set(s, Flag::Negative)),
        Instruction::BVC_BranchOnOverflowClear => branched(m, !flag_is_set(s, Flag::Overflow)),
        Instruction::BVS_BranchOnOverflowSet => branched(m, flag_is_set(s, Flag::Overflow)),
        Instruction::BRK_ForceBreak => (broke(m), 0),
        Instruction::CLC_ClearCarryFlag => (with_status(m, with_flag(s, Flag::Carry, false)), 0),
        Instruction::CLD_ClearDecimalMode => (with_status(m, with_flag(s, Flag::DecimalMode, false)), 0),
        Instruction::CLI_ClearInterruptDisableBit => (with_status(m, with_flag(s, Flag::DisableInterrupts, false)), 0),
        Instruction::CLV_ClearOverflowFlag => (with_status(m, with_flag(s, Flag::Overflow, false)), 0),
        Instruction::SEC_SetCarryFlag => (with_status(m, with_flag(s, Flag::Carry, true)), 0),
        Instruction::SED_SetDecimalMode => (with_status(m, with_flag(s, Flag::DecimalMode, true)), 0),
        Instruction::SEI_SetInterruptDisableStatus => (with_status(m, with_flag(s, Flag::DisableInterrupts, true)), 0),
        Instruction::JMP_JumpTo => (CpuState { pc: m.addr_abs, ..m }, 0),
        Instruction::JSR_JumpToSavingReturnAddr => (CpuState { pc: m.addr_abs, ..pushed_word(m, dec16(m.pc)) }, 0),
        Instruction::RTS_ReturnFromSubroutine => (returned(m), 0),
        Instruction::RTI_ReturnFromInterrupt => (returned_from_interrupt(m), 0),
        Instruction::LDA_LoadAccWithMemory => (CpuState { a: v, status_flags: with_zn(s, v), ..f }, 0),
        Instruction::LDX_LoadXWithMemory => (CpuState { x: v, status_flags: with_zn(s, v), ..f }, 0),
        Instruction::LDY_LoadYWithMemory => (CpuState { y: v, status_flags: with_zn(s, v), ..f }, 0),
        Instruction::STA_StoreAccInMemory => (CpuState { mem: m.mem.update(m.addr_abs as int, m.a), ..m }, 0),
        Instruction::STX_StoreXInMemory => (CpuState { mem: m.mem.update(m.addr_abs as int, m.x), ..m }, 0),
        Instruction::STY_StoreYInMemory => (CpuState { mem: m.mem.update(m.addr_abs as int, m.y), ..m }, 0),
        Instruction::PHA_PushAccOnStack => (pushed(m, m.a), 0),
        Instruction::PHP_PushProcessorStatusOnStack => (pushed(m, with_flag(with_flag(s, Flag::Break, true), Flag::Unused, true)), 0),
        Instruction::PLA_PullAccFromStack => (CpuState { a: top(m), status_flags: with_zn(s, top(m)), ..pulled(m) }, 0),
        Instruction::PLP_PullProcessorStatusFromStack => (CpuState { status_flags: top(m), ..pulled(m) }, 0),
        Instruction::TAX_TransferAccToX => (CpuState { x: m.a, status_flags: with_zn(s, m.a), ..m }, 0),
        Instruction::TAY_TransferAccToY => (CpuState { y: m.a, status_flags: with_zn(s, m.a), ..m }, 0),
        Instruction::TXA_TransferXToAcc => (CpuState { a: m.x, status_flags: with_zn(s, m.x), ..m }, 0),
        Instruction::TYA_TransferYToAcc => (CpuState { a: m.y, status_flags: with_zn(s, m.y), ..m }, 0),
        Instruction::TSX_TransferStackPointerToX => (CpuState { x: m.stack_ptr, status_flags: with_zn(s, m.stack_ptr), ..m }, 0),
        Instruction::TXS_TransferXToStackRegister => (CpuState { stack_ptr: m.x, ..m }, 0),
        Instruction::NOP_NoOperation => (m, 0),
        Instruction::InvalidInstruction => (m, 0),
    }
}

fn wrapping_inc8(v: u8) -> (r: u8)
    ensures
        r == inc8(v),
{
    ((v as u16 + 1) % 256) as u8
}

fn wrapping_dec8(v: u8) -> (r: u8)
    ensures
        r == dec8(v),
{
    ((v as u16 + 255) % 256) as u8
}

impl Mos6502 {
    fn add_with_carry(&mut self, v: u8)
        ensures
            final(self)@ == add_with_carry(old(self)@, v),
    {
        let carry_in: u16 = if self.get_flag(Flag::Carry) { 1 } else { 0 };
        let sum: u16 = self.a as u16 + v as u16 + carry_in;
        let r = (sum % 256) as u8;
        let overflow = ((self.a < 0x80) == (v < 0x80)) && ((r < 0x80) != (self.a < 0x80));
        self.set_flag(Flag::Carry, sum > 255);
        self.set_flag(Flag::Overflow, overflow);
        self.a = r;
        self.set_zn(r);
    }

    fn on_accumulator(&self) -> (r: bool)
        ensures
            r == on_accumulator(self@),
    {
        match InstructionSummary::from_opcode(self.opcode).addr_mode {
            AddrMode::Implied => true,
            _ => false,
        }
    }

    fn write_shifted(&mut self, r: u8, carry: bool)
        ensures
            final(self)@ == shifted(old(self)@, r, carry),
    {
        self.set_flag(Flag::Carry, carry);
        self.set_zn(r);
        if self.on_accumulator() {
            self.a = r;
        } else {
            self.write_byte(self.addr_abs, r);
        }
    }

    fn compare(&mut self, reg: u8, v: u8)
        ensures
            final(self)@ == compared(old(self)@, reg, v),
    {
        self.set_flag(Flag::Carry, reg >= v);
        self.set_zn(((reg as u16 + 256 - v as u16) % 256) as u8);
    }

    fn branch(&mut self, cond: bool) -> (r: u8)
        ensures
            (final(self)@, r) == branched(old(self)@, cond),
    {
        if cond {
            let target = wrapping_add16(self.pc, self.addr_rel);
            let extra: u8 = if target / 256 != self.pc / 256 { 2 } else { 1 };
            self.addr_abs = target;
            self.pc = target;
            extra
        } else {
            0
        }
    }

    fn store_with_flags(&mut self, r: u8)
        ensures
            final(self)@ == stored_zn(old(self)@, r),
    {
        self.write_byte(self.addr_abs, r);
        self.set_zn(r);
    }

    fn push_word(&mut self, w: u16)
        ensures
            final(self)@ == pushed_word(old(self)@, w),
    {
        self.push((w / 256) as u8);
        self.push((w % 256) as u8);
    }

    /// Performs `instruction` on the resolved operand state; returns the extra
    /// cycles it owes (a taken branch: one, two where it lands on another page).
    pub fn handle_instruction(&mut self, instruction: Instruction) -> (r: u8)
        ensures
            (final(self)@, r) == execute(old(self)@, instruction),
    {
        match instruction {
            Instruction::ADC_AddMemoryToAccWithCarry => {
                let v = self.fetch();
                self.add_with_carry(v);
            },
            Instruction::SBC_SubtractMemoryFromAccWithBorrow => {
                let v = self.fetch();
                self.add_with_carry(255 - v);
            },
            Instruction::AND_AndBitwiseWithAcc => {
                let v = self.fetch();
                self.a = self.a & v;
                self.set_zn(self.a);
            },
            Instruction::ORA_ORMemoryWithAcc => {
                let v = self.fetch();
                self.a = self.a | v;
                self.set_zn(self.a);
            },
            Instruction::EOR_ExclusiveORMemoryWithAcc => {
                let v = self.fetch();
                self.a = self.a ^ v;
                self.set_zn(self.a);
            },
            Instruction::ASL_ShiftLeftOneBit => {
                let v = self.fetch();
                self.write_shifted(((v as u16 * 2) % 256) as u8, v >= 0x80);
            },
            Instruction::LSR_ShiftOneBitRight => {
                let v = self.fetch();
                self.write_shifted(v / 2, v % 2 == 1);
            },
            Instruction::ROL_RotateOneBitLeft => {
                let carry: u16 = if self.get_flag(Flag::Carry) { 1 } else { 0 };
                let v = self.fetch();
                self.write_shifted(((v as u16 * 2 + carry) % 256) as u8, v >= 0x80);
            },
            Instruction::ROR_RotateOneBitRight => {
                let carry: u8 = if self.get_flag(Flag::Carry) { 128 } else { 0 };
                let v = self.fetch();
                self.write_shifted(v / 2 + carry, v % 2 == 1);
            },
            Instruction::BIT_BitTestInMemoryWithAcc => {
                let v = self.fetch();
                self.set_flag(Flag::Zero, self.a & v == 0);
                self.set_flag(Flag::Negative, v >= 0x80);
                self.set_flag(Flag::Overflow, v & 0x40 != 0);
            },
            Instruction::CMP_CompareMemoryAndAcc => {
                let v = self.fetch();
                self.compare(self.a, v);
            },
            Instruction::CPX_CompareMemoryAndX => {
                let v = self.fetch();
                self.compare(self.x, v);
            },
            Instruction::CPY_CompareMemoryAndY => {
                let v = self.fetch();
                self.compare(self.y, v);
            },
            Instruction::DEC_DecrementMemoryByOne => {
                let v = self.fetch();
                self.store_with_flags(wrapping_dec8(v));
            },
            Instruction::INC_IncrementMemoryByOne => {
                let v = self.fetch();
                self.store_with_flags(wrapping_inc8(v));
            },
            Instruction::DEX_DecrementXByOne => {
                self.x = wrapping_dec8(self.x);
                self.set_zn(self.x);
            },
            Instruction::DEY_DecrementYByOne => {
                self.y = wrapping_dec8(self.y);
                self.set_zn(self.y);
            },
            Instruction::INX_IncrementXByOne => {
                self.x = wrapping_inc8(self.x);
                self.set_zn(self.x);
            },
            Instruction::INY_IncrementYByOne => {
                self.y = wrapping_inc8(self.y);
                self.set_zn(self.y);
            },
            Instruction::BCC_BranchOnCarryClear => {
                let cond = !self.get_flag(Flag::Carry);
                return self.branch(cond);
            },
            Instruction::BCS_BranchOnCarrySet => {
                let cond = self.get_flag(Flag::Carry);
                return self.branch(cond);
            },
            Instruction::BEQ_BranchOnResultZero => {
                let cond = self.get_flag(Flag::Zero);
                return self.branch(cond);
            },
            Instruction::BNE_BranchOnResultNotZero => {
                let cond = !self.get_flag(Flag::Zero);
                return self.branch(cond);
            },
            Instruction::BMI_BranchOnResultMinus => {
                let cond = self.get_flag(Flag::Negative);
                return self.branch(cond);
            },
            Instruction::BPL_BranchOnResultPlus => {
                let cond = !self.get_flag(Flag::Negative);
                return self.branch(cond);
            },
            Instruction::BVC_BranchOnOverflowClear => {
                let cond = !self.get_flag(Flag::Overflow);
                return self.branch(cond);
            },
            Instruction::BVS_BranchOnOverflowSet => {
                let cond = self.get_flag(Flag::Overflow);
                return self.branch(cond);
            },
            Instruction::BRK_ForceBreak => {
                let status = self.status_flags;
                self.push_word(wrapping_add16(self.pc, 1));
                self.set_flag(Flag::Break, true);
                self.push(self.status_flags);
                self.status_flags = status;
                self.set_flag(Flag::DisableInterrupts, true);
                self.pc = self.read_word(IRQ_VECTOR);
            },
            Instruction::CLC_ClearCarryFlag => self.set_flag(Flag::Carry, false),
            Instruction::CLD_ClearDecimalMode => self.set_flag(Flag::DecimalMode, false),
            Instruction::CLI_ClearInterruptDisableBit => self.set_flag(Flag::DisableInterrupts, false),
            Instruction::CLV_ClearOverflowFlag => self.set_flag(Flag::Overflow, false),
            Instruction::SEC_SetCarryFlag => self.set_flag(Flag::Carry, true),
            Instruction::SED_SetDecimalMode => self.set_flag(Flag::DecimalMode, true),
            Instruction::SEI_SetInterruptDisableStatus => self.set_flag(Flag::DisableInterrupts, true),
            Instruction::JMP_JumpTo => {
                self.pc = self.addr_abs;
            },
            Instruction::JSR_JumpToSavingReturnAddr => {
                self.push_word(wrapping_add16(self.pc, 0xFFFF));
                self.pc = self.addr_abs;
            },
            Instruction::RTS_ReturnFromSubroutine => {
                let lo = self.pull();
                let hi = self.pull();
                self.pc = wrapping_add16(make_word(lo, hi), 1);
            },
            Instruction::RTI_ReturnFromInterrupt => {
                self.status_flags = self.pull();
                let lo = self.pull();
                let hi = self.pull();
                self.pc = make_word(lo, hi);
            },
            Instruction::LDA_LoadAccWithMemory => {
                self.a = self.fetch();
                self.set_zn(self.a);
            },
            Instruction::LDX_LoadXWithMemory => {
                self.x = self.fetch();
                self.set_zn(self.x);
            },
            Instruction::LDY_LoadYWithMemory => {
                self.y = self.fetch();
                self.set_zn(self.y);
            },
            Instruction::STA_StoreAccInMemory => self.write_byte(self.addr_abs, self.a),
            Instruction::STX_StoreXInMemory => self.write_byte(self.addr_abs, self.x),
            Instruction::STY_StoreYInMemory => self.write_byte(self.addr_abs, self.y),
            Instruction::PHA_PushAccOnStack => self.push(self.a),
            Instruction::PHP_PushProcessorStatusOnStack => {
                let status = self.status_flags;
                self.set_flag(Flag::Break, true);
                self.set_flag(Flag::Unused, true);
                self.push(self.status_flags);
                self.status_flags = status;
            },
            Instruction::PLA_PullAccFromStack => {
                self.a = self.pull();
                self.set_zn(self.a);
            },
            Instruction::PLP_PullProcessorStatusFromStack => {
                self.status_flags = self.pull();
            },
            Instruction::TAX_TransferAccToX => {
                self.x = self.a;
                self.set_zn(self.x);
            },
            Instruction::TAY_TransferAccToY => {
                self.y = self.a;
                self.set_zn(self.y);
            },
            Instruction::TXA_TransferXToAcc => {
                self.a = self.x;
                self.set_zn(self.a);
            },
            Instruction::TYA_TransferYToAcc => {
                self.a = self.y;
                self.set_zn(self.a);
            },
            Instruction::TSX_TransferStackPointerToX => {
                self.x = self.stack_ptr;
                self.set_zn(self.x);
            },
            Instruction::TXS_TransferXToStackRegister => {
                self.stack_ptr = self.x;
            },
            Instruction::NOP_NoOperation => {},
            Instruction::InvalidInstruction => {},
        }
        0
    }
}

} // verus!
